//! Burst-loss tracking over received frame counters.

use vstd::prelude::*;

verus! {

/// Abstract state of a [`GapTracker`].
pub struct GapView {
    /// The counter expected next, once one counter has been seen.
    pub expected_next: Option<u64>,
    /// Whether the last observation ended inside a run of lost counters.
    pub in_burst: bool,
    pub current_burst_len: u16,
    pub burst_count: u32,
    pub max_burst_len: u16,
    pub total_burst_len: u64,
}

/// `a + b`, capped at `u16::MAX`.
pub open spec fn sat_add_u16(a: u16, b: u16) -> u16 {
    if a + b > u16::MAX {
        u16::MAX
    } else {
        (a + b) as u16
    }
}

/// The state after a burst in progress is closed.
pub open spec fn spec_finish_burst(g: GapView) -> GapView {
    if g.in_burst {
        GapView {
            max_burst_len: if g.max_burst_len >= g.current_burst_len {
                g.max_burst_len
            } else {
                g.current_burst_len
            },
            total_burst_len: (g.total_burst_len + g.current_burst_len) as u64,
            in_burst: false,
            current_burst_len: 0,
            ..g
        }
    } else {
        g
    }
}

/// Closing a burst keeps every counter in range.
pub open spec fn can_finish_burst(g: GapView) -> bool {
    g.in_burst ==> g.total_burst_len + g.current_burst_len <= u64::MAX
}

/// Observing `counter` keeps every counter in range.
pub open spec fn can_observe(g: GapView, counter: u64) -> bool {
    &&& counter < u64::MAX
    &&& match g.expected_next {
        None => true,
        Some(expected) => if counter > expected {
            !g.in_burst ==> g.burst_count < u32::MAX
        } else {
            can_finish_burst(g)
        },
    }
}

/// The state after observing `counter`, and how many counters it shows lost.
pub open spec fn spec_observe(g: GapView, counter: u64) -> (GapView, u64) {
    match g.expected_next {
        None => (GapView { expected_next: Some((counter + 1) as u64), ..g }, 0),
        Some(expected) => if counter > expected {
            let gap = (counter - expected) as u64;
            let gap16 = (gap % 65536) as u16;
            let g2 = if g.in_burst {
                GapView { current_burst_len: sat_add_u16(g.current_burst_len, gap16), ..g }
            } else {
                GapView {
                    in_burst: true,
                    current_burst_len: gap16,
                    burst_count: (g.burst_count + 1) as u32,
                    ..g
                }
            };
            (GapView { expected_next: Some((counter + 1) as u64), ..g2 }, gap)
        } else {
            let g2 = spec_finish_burst(g);
            if counter == expected {
                (GapView { expected_next: Some((counter + 1) as u64), ..g2 }, 0)
            } else {
                (g2, 0)
            }
        },
    }
}

/// Mean burst length in 1/256 units, capped at `u16::MAX`.
pub open spec fn spec_mean_burst(total: u64, count: u32) -> u16 {
    if count == 0 {
        0
    } else if total * 256 / (count as int) > u16::MAX {
        u16::MAX
    } else {
        (total * 256 / (count as int)) as u16
    }
}

/// Interval statistics `(burst count, longest burst, mean burst)` and the
/// state after they are taken.
pub open spec fn spec_take_interval_stats(g: GapView) -> (GapView, (u32, u16, u16)) {
    let f = spec_finish_burst(g);
    (
        GapView { burst_count: 0, max_burst_len: 0, total_burst_len: 0, ..f },
        (f.burst_count, f.max_burst_len, spec_mean_burst(f.total_burst_len, f.burst_count)),
    )
}

/// Tracks runs of consecutive lost frame counters.
pub struct GapTracker {
    expected_next: Option<u64>,
    in_burst: bool,
    current_burst_len: u16,
    burst_count: u32,
    max_burst_len: u16,
    total_burst_len: u64,
}

impl View for GapTracker {
    type V = GapView;

    closed spec fn view(&self) -> GapView {
        GapView {
            expected_next: self.expected_next,
            in_burst: self.in_burst,
            current_burst_len: self.current_burst_len,
            burst_count: self.burst_count,
            max_burst_len: self.max_burst_len,
            total_burst_len: self.total_burst_len,
        }
    }
}

impl GapTracker {
    pub fn new() -> (r: Self)
        ensures
            r@ == (GapView {
                expected_next: None,
                in_burst: false,
                current_burst_len: 0,
                burst_count: 0,
                max_burst_len: 0,
                total_burst_len: 0,
            }),
    {
        GapTracker {
            expected_next: None,
            in_burst: false,
            current_burst_len: 0,
            burst_count: 0,
            max_burst_len: 0,
            total_burst_len: 0,
        }
    }

    /// Records a received counter; returns how many counters it skipped.
    pub fn observe(&mut self, counter: u64) -> (lost: u64)
        requires
            can_observe(old(self)@, counter),
        ensures
            (final(self)@, lost) == spec_observe(old(self)@, counter),
    {
        let expected = match self.expected_next {
            None => {
                self.expected_next = Some(counter + 1);
                return 0;
            },
            Some(e) => e,
        };
        let lost = if counter > expected {
            let gap = counter - expected;
            let gap16 = (gap % 65536) as u16;
            if self.in_burst {
                self.current_burst_len = self.current_burst_len.saturating_add(gap16);
            } else {
                self.in_burst = true;
                self.current_burst_len = gap16;
                self.burst_count = self.burst_count + 1;
            }
            gap
        } else {
            if self.in_burst {
                self.finish_burst();
            }
            0
        };
        if counter >= expected {
            self.expected_next = Some(counter + 1);
        }
        lost
    }

    /// Closes a burst in progress, folding it into the interval totals.
    pub fn finish_burst(&mut self)
        requires
            can_finish_burst(old(self)@),
        ensures
            final(self)@ == spec_finish_burst(old(self)@),
    {
        if self.in_burst {
            if self.current_burst_len > self.max_burst_len {
                self.max_burst_len = self.current_burst_len;
            }
            self.total_burst_len = self.total_burst_len + self.current_burst_len as u64;
            self.in_burst = false;
            self.current_burst_len = 0;
        }
    }

    /// Returns `(burst count, longest burst, mean burst length * 256)` for the
    /// interval and starts a new one.
    pub fn take_interval_stats(&mut self) -> (r: (u32, u16, u16))
        requires
            can_finish_burst(old(self)@),
        ensures
            (final(self)@, r) == spec_take_interval_stats(old(self)@),
    {
        self.finish_burst();
        let count = self.burst_count;
        let max_len = self.max_burst_len;
        let mean_len: u16 = if count > 0 {
            let scaled = (self.total_burst_len as u128) * 256 / (count as u128);
            if scaled > 65535 {
                65535
            } else {
                scaled as u16
            }
        } else {
            0
        };
        self.burst_count = 0;
        self.max_burst_len = 0;
        self.total_burst_len = 0;
        (count, max_len, mean_len)
    }
}

} // verus!
