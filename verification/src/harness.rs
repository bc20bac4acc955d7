//! Fixtures shared by protocol scenarios: deterministic keys and fast timings.

use vstd::prelude::*;

use crate::node::{HandleResult, NodeEvent, NodeTiming, DEFAULT_REKEY_ANSWER_MIN_INTERVAL_MS};

verus! {

/// A secret of 31 zero bytes followed by `last` (the generator times `last`).
pub fn deterministic_secret(last: u8) -> (r: [u8; 32])
    ensures
        forall|i: int| 0 <= i < 31 ==> r@[i] == 0u8,
        r@[31] == last,
{
    let mut secret = [0u8; 32];
    secret[31] = last;
    secret
}

/// Timing for scenarios expected to complete: 1 s heartbeats, a 5 s dead-link
/// timeout, one 10 ms handshake resend, no connect delay, no rekey triggers and
/// no bad-frame grace.
pub fn success_timing() -> (r: NodeTiming)
    ensures
        r == success_timing_spec(),
{
    NodeTiming {
        heartbeat_interval_secs: 1,
        link_dead_timeout_secs: 5,
        rekey_after_secs: 0,
        rekey_after_messages: 0,
        retry_base_interval_secs: 60,
        retry_max_backoff_secs: 60,
        handshake_resend_interval_ms: 10,
        handshake_resend_backoff: 1,
        handshake_max_resends: 1,
        connect_delay_ms: 0,
        bad_frame_grace_secs: 0,
        rekey_answer_min_interval_ms: DEFAULT_REKEY_ANSWER_MIN_INTERVAL_MS,
    }
}

/// Timing for scenarios expected to time out: [`success_timing`] with a 5 ms
/// handshake resend interval.
pub fn timeout_timing() -> (r: NodeTiming)
    ensures
        r == (NodeTiming { handshake_resend_interval_ms: 5, ..success_timing_spec() }),
{
    NodeTiming {
        handshake_resend_interval_ms: 5,
        handshake_resend_backoff: 1,
        handshake_max_resends: 1,
        connect_delay_ms: 0,
        ..success_timing()
    }
}

/// What [`success_timing`] returns.
pub open spec fn success_timing_spec() -> NodeTiming {
    NodeTiming {
        heartbeat_interval_secs: 1,
        link_dead_timeout_secs: 5,
        rekey_after_secs: 0,
        rekey_after_messages: 0,
        retry_base_interval_secs: 60,
        retry_max_backoff_secs: 60,
        handshake_resend_interval_ms: 10,
        handshake_resend_backoff: 1,
        handshake_max_resends: 1,
        connect_delay_ms: 0,
        bad_frame_grace_secs: 0,
        rekey_answer_min_interval_ms: DEFAULT_REKEY_ANSWER_MIN_INTERVAL_MS,
    }
}

/// A node handler that ignores events and answers no message.
pub struct NoopHandler;

impl NoopHandler {
    pub fn on_event(&mut self, event: NodeEvent) {
    }

    pub fn on_message(&mut self, msg_type: u8, payload: &[u8], resp: &mut [u8]) -> (r: HandleResult)
        ensures
            r == HandleResult::NoReply,
            final(resp)@ == old(resp)@,
    {
        HandleResult::NoReply
    }
}

/// A node handler that records every event, in order, and answers no message.
pub struct RecordingHandler {
    pub events: Vec<NodeEvent>,
}

impl RecordingHandler {
    pub fn new() -> (h: Self)
        ensures
            h.events@ == Seq::<NodeEvent>::empty(),
    {
        RecordingHandler { events: Vec::new() }
    }

    pub fn on_event(&mut self, event: NodeEvent)
        ensures
            final(self).events@ == old(self).events@.push(event),
    {
        self.events.push(event);
    }

    pub fn on_message(&mut self, msg_type: u8, payload: &[u8], resp: &mut [u8]) -> (r: HandleResult)
        ensures
            r == HandleResult::NoReply,
            final(resp)@ == old(resp)@,
            final(self).events@ == old(self).events@,
    {
        HandleResult::NoReply
    }
}

impl Default for RecordingHandler {
    fn default() -> (h: Self)
        ensures
            h.events@ == Seq::<NodeEvent>::empty(),
    {
        Self::new()
    }
}

} // verus!
