//! Host-side node and L2CAP counters and their snapshot.

use vstd::prelude::*;

verus! {

/// Protocol counters of a node.
#[derive(Debug, Clone, Copy, PartialEq, Eq, Structural)]
pub struct HostNodeStats {
    pub msg1_tx: u32,
    pub msg2_rx: u32,
    pub hb_tx: u32,
    pub hb_rx: u32,
    pub data_tx: u32,
    pub data_rx: u32,
    pub state: u32,
    pub boot_tick_ms: u32,
}

/// L2CAP link counters.
#[derive(Debug, Clone, Copy, PartialEq, Eq, Structural)]
pub struct HostL2capStats {
    pub zero_frame_disconnects: u32,
    pub recv_timeouts: u32,
    pub send_timeouts: u32,
    pub send_errors: u32,
    pub rx_drops: u32,
    pub pubkey_ok: u32,
    pub central_connects: u32,
    pub peripheral_connects: u32,
    pub last_role: u32,
    pub last_reason: u32,
}

/// All node and L2CAP counters at one moment.
#[derive(Debug, Clone, Copy, PartialEq, Eq, Structural)]
pub struct HostStatsSnapshot {
    pub msg1_tx: u32,
    pub msg2_rx: u32,
    pub hb_tx: u32,
    pub hb_rx: u32,
    pub data_tx: u32,
    pub data_rx: u32,
    pub state: u32,
    pub boot_tick_ms: u32,
    pub zero_frame_disconnects: u32,
    pub recv_timeouts: u32,
    pub send_timeouts: u32,
    pub send_errors: u32,
    pub rx_drops: u32,
    pub pubkey_ok: u32,
    pub central_connects: u32,
    pub peripheral_connects: u32,
    pub last_role: u32,
    pub last_reason: u32,
}

impl HostNodeStats {
    pub fn new() -> (r: Self)
        ensures
            r == (HostNodeStats {
                msg1_tx: 0,
                msg2_rx: 0,
                hb_tx: 0,
                hb_rx: 0,
                data_tx: 0,
                data_rx: 0,
                state: 0,
                boot_tick_ms: 0,
            }),
    {
        HostNodeStats {
            msg1_tx: 0,
            msg2_rx: 0,
            hb_tx: 0,
            hb_rx: 0,
            data_tx: 0,
            data_rx: 0,
            state: 0,
            boot_tick_ms: 0,
        }
    }
}

impl HostL2capStats {
    pub fn new() -> (r: Self)
        ensures
            r == (HostL2capStats {
                zero_frame_disconnects: 0,
                recv_timeouts: 0,
                send_timeouts: 0,
                send_errors: 0,
                rx_drops: 0,
                pubkey_ok: 0,
                central_connects: 0,
                peripheral_connects: 0,
                last_role: 0,
                last_reason: 0,
            }),
    {
        HostL2capStats {
            zero_frame_disconnects: 0,
            recv_timeouts: 0,
            send_timeouts: 0,
            send_errors: 0,
            rx_drops: 0,
            pubkey_ok: 0,
            central_connects: 0,
            peripheral_connects: 0,
            last_role: 0,
            last_reason: 0,
        }
    }
}

/// Copies every node and L2CAP counter into one snapshot.
pub fn snapshot(node: &HostNodeStats, l2cap: &HostL2capStats) -> (r: HostStatsSnapshot)
    ensures
        r == (HostStatsSnapshot {
            msg1_tx: node.msg1_tx,
            msg2_rx: node.msg2_rx,
            hb_tx: node.hb_tx,
            hb_rx: node.hb_rx,
            data_tx: node.data_tx,
            data_rx: node.data_rx,
            state: node.state,
            boot_tick_ms: node.boot_tick_ms,
            zero_frame_disconnects: l2cap.zero_frame_disconnects,
            recv_timeouts: l2cap.recv_timeouts,
            send_timeouts: l2cap.send_timeouts,
            send_errors: l2cap.send_errors,
            rx_drops: l2cap.rx_drops,
            pubkey_ok: l2cap.pubkey_ok,
            central_connects: l2cap.central_connects,
            peripheral_connects: l2cap.peripheral_connects,
            last_role: l2cap.last_role,
            last_reason: l2cap.last_reason,
        }),
{
    HostStatsSnapshot {
        msg1_tx: node.msg1_tx,
        msg2_rx: node.msg2_rx,
        hb_tx: node.hb_tx,
        hb_rx: node.hb_rx,
        data_tx: node.data_tx,
        data_rx: node.data_rx,
        state: node.state,
        boot_tick_ms: node.boot_tick_ms,
        zero_frame_disconnects: l2cap.zero_frame_disconnects,
        recv_timeouts: l2cap.recv_timeouts,
        send_timeouts: l2cap.send_timeouts,
        send_errors: l2cap.send_errors,
        rx_drops: l2cap.rx_drops,
        pubkey_ok: l2cap.pubkey_ok,
        central_connects: l2cap.central_connects,
        peripheral_connects: l2cap.peripheral_connects,
        last_role: l2cap.last_role,
        last_reason: l2cap.last_reason,
    }
}

} // verus!
