use microfips::mmp::gap::GapTracker;
use microfips::mmp::stats::LinkStats;

#[test]
fn test_gap_tracker_no_loss() {
    let mut g = GapTracker::new();
    g.observe(1);
    g.observe(2);
    g.observe(3);
    let (count, max, mean) = g.take_interval_stats();
    assert_eq!(count, 0);
    assert_eq!(max, 0);
    assert_eq!(mean, 0);
}

#[test]
fn test_gap_tracker_single_burst() {
    let mut g = GapTracker::new();
    g.observe(1);
    g.observe(4);
    g.observe(5);
    let (count, max, _mean) = g.take_interval_stats();
    assert_eq!(count, 1);
    assert_eq!(max, 2);
}

#[test]
fn test_gap_tracker_multiple_bursts() {
    let mut g = GapTracker::new();
    g.observe(1);
    g.observe(4);
    g.observe(5);
    g.observe(8);
    g.observe(9);
    let (count, max, mean) = g.take_interval_stats();
    assert_eq!(count, 2);
    assert_eq!(max, 2);
    assert_eq!(mean, 512);
}

#[test]
fn gap_tracker_reports_lost_counters_and_uneven_mean() {
    let mut g = GapTracker::new();
    assert_eq!(g.observe(10), 0);
    assert_eq!(g.observe(12), 1);
    assert_eq!(g.observe(13), 0);
    assert_eq!(g.observe(17), 3);
    // a late counter closes nothing new and is not lost
    assert_eq!(g.observe(15), 0);
    let (count, max, mean) = g.take_interval_stats();
    assert_eq!((count, max), (2, 3));
    // (1 + 3) / 2 bursts = 2.0 -> 512; stats reset afterwards
    assert_eq!(mean, 512);
    assert_eq!(g.take_interval_stats(), (0, 0, 0));
}

#[test]
fn gap_tracker_mean_is_floored_in_256ths() {
    let mut g = GapTracker::new();
    g.observe(0);
    g.observe(2); // burst of 1
    g.observe(3);
    g.observe(6); // burst of 2
    g.observe(7);
    g.observe(9); // burst of 1
    let (count, max, mean) = g.take_interval_stats();
    assert_eq!((count, max), (3, 2));
    // 4 lost over 3 bursts: 4 * 256 / 3 = 341.33 -> 341
    assert_eq!(mean, 341);
}

#[test]
fn link_stats_read_back_last_update() {
    let mut s = LinkStats::new();
    assert_eq!((s.srtt_ms(), s.loss_pct(), s.goodput_kbps(), s.jitter_us()), (0, 0, 0, 0));
    s.update(12, 3, 4500, 800);
    s.update(15, 0, 5000, 700);
    assert_eq!((s.srtt_ms(), s.loss_pct(), s.goodput_kbps(), s.jitter_us()), (15, 0, 5000, 700));
}
