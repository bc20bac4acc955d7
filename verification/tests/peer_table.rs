use microfips::peer_table::{MacAddress, PeerStatus, PeerTable, PeerTableError, MAX_PEERS};
use microfips::time::Instant;

fn now() -> Instant {
    Instant::from_millis(5_000)
}

#[test]
fn test_empty_peer_table() {
    let table = PeerTable::new();
    assert!(table.is_empty());
    assert_eq!(table.len(), 0);
}

#[test]
fn test_add_peer() {
    let mut table = PeerTable::new();
    let node_addr = [1u8; 16];
    let mac_addr = MacAddress([0xAA, 0xBB, 0xCC, 0xDD, 0xEE, 0xFF]);

    assert!(table.add_or_update_peer(node_addr, mac_addr, now()).is_ok());
    assert_eq!(table.len(), 1);
    assert!(!table.is_empty());
}

#[test]
fn test_get_peer() {
    let mut table = PeerTable::new();
    let node_addr = [1u8; 16];
    let mac_addr = MacAddress([0xAA, 0xBB, 0xCC, 0xDD, 0xEE, 0xFF]);

    table.add_or_update_peer(node_addr, mac_addr, now()).unwrap();
    let peer = table.get_peer(&node_addr).unwrap();
    assert_eq!(peer.node_addr, node_addr);
    assert_eq!(peer.mac_addr, mac_addr);
    assert_eq!(peer.status, PeerStatus::Active);
}

#[test]
fn test_remove_peer() {
    let mut table = PeerTable::new();
    let node_addr = [1u8; 16];
    let mac_addr = MacAddress([0xAA, 0xBB, 0xCC, 0xDD, 0xEE, 0xFF]);

    table.add_or_update_peer(node_addr, mac_addr, now()).unwrap();
    assert_eq!(table.len(), 1);

    table.remove_peer(&node_addr).unwrap();
    assert_eq!(table.len(), 0);
    assert!(table.is_empty());
}

#[test]
fn test_update_peer() {
    let mut table = PeerTable::new();
    let node_addr = [1u8; 16];
    let mac_addr1 = MacAddress([0xAA, 0xBB, 0xCC, 0xDD, 0xEE, 0xFF]);
    let mac_addr2 = MacAddress([0xBB, 0xBB, 0xCC, 0xDD, 0xEE, 0xFF]);

    table.add_or_update_peer(node_addr, mac_addr1, now()).unwrap();
    let peer = table.get_peer(&node_addr).unwrap();
    assert_eq!(peer.mac_addr, mac_addr1);

    table.add_or_update_peer(node_addr, mac_addr2, now()).unwrap();
    let peer = table.get_peer(&node_addr).unwrap();
    assert_eq!(peer.mac_addr, mac_addr2);
    assert_eq!(table.len(), 1); // Should still be 1, not 2
}

#[test]
fn test_peer_status() {
    let mut table = PeerTable::new();
    let node_addr = [1u8; 16];
    let mac_addr = MacAddress([0xAA, 0xBB, 0xCC, 0xDD, 0xEE, 0xFF]);

    table.add_or_update_peer(node_addr, mac_addr, now()).unwrap();

    table.update_peer_status(&node_addr, PeerStatus::Suspect).unwrap();
    let peer = table.get_peer(&node_addr).unwrap();
    assert_eq!(peer.status, PeerStatus::Suspect);

    table.mark_peer_active(&node_addr, now()).unwrap();
    let peer = table.get_peer(&node_addr).unwrap();
    assert_eq!(peer.status, PeerStatus::Active);
}

#[test]
fn test_peer_stats() {
    let mut table = PeerTable::new();

    for i in 0..5 {
        let node_addr = [i as u8; 16];
        let mac_addr = MacAddress([0xAA, 0xBB, 0xCC, 0xDD, 0xEE, i as u8]);
        table.add_or_update_peer(node_addr, mac_addr, now()).unwrap();
    }

    let node_addr1 = [1u8; 16];
    let node_addr2 = [2u8; 16];
    table.update_peer_status(&node_addr1, PeerStatus::Suspect).unwrap();
    table.update_peer_status(&node_addr2, PeerStatus::Dead).unwrap();

    let stats = table.get_stats();
    assert_eq!(stats.total, 5);
    assert_eq!(stats.active, 3);
    assert_eq!(stats.suspect, 1);
    assert_eq!(stats.dead, 1);
    assert_eq!(stats.capacity, MAX_PEERS);
}

#[test]
fn test_peer_addition() {
    let mut table = PeerTable::new();
    let node_addr = [1u8; 16];
    let mac_addr = MacAddress([0xAA, 0xBB, 0xCC, 0xDD, 0xEE, 0xFF]);

    assert!(table.add_or_update_peer(node_addr, mac_addr, now()).is_ok());
    assert_eq!(table.get_all_peers().len(), 1);
}

#[test]
fn test_mac_resolution() {
    let mut table = PeerTable::new();
    let node_addr = [1u8; 16];
    let mac_addr = MacAddress([0xAA, 0xBB, 0xCC, 0xDD, 0xEE, 0xFF]);

    table.add_or_update_peer(node_addr, mac_addr, now()).unwrap();
    let resolved_mac = table.get_mac_addr(&node_addr).unwrap();
    assert_eq!(resolved_mac, mac_addr);
}

#[test]
fn test_peer_table_integration() {
    let mut table = PeerTable::new();
    let node_addr1 = [1u8; 16];
    let node_addr2 = [2u8; 16];
    let mac_addr1 = MacAddress([0xAA, 0xBB, 0xCC, 0xDD, 0xEE, 0xFF]);
    let mac_addr2 = MacAddress([0xBB, 0xBB, 0xCC, 0xDD, 0xEE, 0xFF]);

    table.add_or_update_peer(node_addr1, mac_addr1, now()).unwrap();
    table.add_or_update_peer(node_addr2, mac_addr2, now()).unwrap();

    let stats = table.get_stats();
    assert_eq!(stats.total, 2);
    assert_eq!(stats.active, 2);

    table.update_peer_status(&node_addr1, PeerStatus::Suspect).unwrap();
    let stats = table.get_stats();
    assert_eq!(stats.suspect, 1);
    assert_eq!(stats.active, 1);

    table.remove_peer(&node_addr2).unwrap();
    let stats = table.get_stats();
    assert_eq!(stats.total, 1);
}

#[test]
fn unknown_peer_is_not_found() {
    let mut table = PeerTable::default();
    let addr = [7u8; 16];
    assert_eq!(table.get_peer(&addr).err(), Some(PeerTableError::PeerNotFound));
    assert_eq!(table.remove_peer(&addr), Err(PeerTableError::PeerNotFound));
    assert_eq!(table.update_peer_status(&addr, PeerStatus::Dead), Err(PeerTableError::PeerNotFound));
    assert_eq!(table.mark_peer_active(&addr, now()), Err(PeerTableError::PeerNotFound));
    assert_eq!(table.get_mac_addr(&addr), Err(PeerTableError::PeerNotFound));
}

#[test]
fn full_table_refuses_new_peer_but_refreshes_known_one() {
    let mut table = PeerTable::new();
    for i in 0..MAX_PEERS {
        table
            .add_or_update_peer([i as u8; 16], MacAddress([i as u8; 6]), now())
            .unwrap();
    }
    assert!(table.is_full());
    assert_eq!(
        table.add_or_update_peer([0xEE; 16], MacAddress([1; 6]), now()),
        Err(PeerTableError::TableFull)
    );
    assert_eq!(table.len(), MAX_PEERS);
    assert!(table.add_or_update_peer([3u8; 16], MacAddress([9; 6]), now()).is_ok());
    assert_eq!(table.get_mac_addr(&[3u8; 16]), Ok(MacAddress([9; 6])));
}

#[test]
fn eviction_drops_least_recently_seen_and_orders_oldest_first() {
    let mut table = PeerTable::new();
    table.evict_stale_peers();
    assert!(table.is_empty());
    for i in 0..MAX_PEERS {
        let seen = Instant::from_millis(1_000 + ((i as u64 * 7) % 20) * 10);
        table.add_or_update_peer([i as u8; 16], MacAddress([0; 6]), seen).unwrap();
    }
    // entry 0 was seen at 1000 ms, the earliest
    table.evict_stale_peers();
    assert_eq!(table.len(), MAX_PEERS - 1);
    assert!(table.get_peer(&[0u8; 16]).is_err());
    let peers = table.get_all_peers();
    for w in peers.windows(2) {
        assert!(w[0].last_seen.micros <= w[1].last_seen.micros);
    }
    table.evict_stale_peers();
    assert_eq!(table.len(), MAX_PEERS - 1);
}

#[test]
fn status_queries_follow_table_order() {
    let mut table = PeerTable::new();
    for i in 0..4u8 {
        table.add_or_update_peer([i; 16], MacAddress([i; 6]), now()).unwrap();
    }
    table.update_peer_status(&[1u8; 16], PeerStatus::Dead).unwrap();
    table.update_peer_status(&[3u8; 16], PeerStatus::Dead).unwrap();
    let dead = table.find_peers_by_status(PeerStatus::Dead);
    assert_eq!(dead.len(), 2);
    assert_eq!(dead[0].node_addr, [1u8; 16]);
    assert_eq!(dead[1].node_addr, [3u8; 16]);
    let active = table.get_active_peers();
    assert_eq!(active.len(), 2);
    assert_eq!(active[0].node_addr, [0u8; 16]);
    let later = Instant::from_millis(9_000);
    table.mark_peer_active(&[1u8; 16], later).unwrap();
    assert_eq!(table.get_peer(&[1u8; 16]).unwrap().last_seen, later);
    assert_eq!(table.get_active_peers().len(), 3);
}
