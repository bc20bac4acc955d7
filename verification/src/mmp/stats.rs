//! The link metrics a user interface samples.

use vstd::prelude::*;

verus! {

/// The latest link metrics: smoothed RTT, loss, goodput and jitter.
#[derive(Debug, Clone, Copy, PartialEq, Eq, Structural)]
pub struct LinkStats {
    srtt_ms: u32,
    loss_pct: u32,
    goodput_kbps: u32,
    jitter_us: u32,
}

/// Abstract state of [`LinkStats`]: `(srtt_ms, loss_pct, goodput_kbps, jitter_us)`.
pub type LinkStatsView = (u32, u32, u32, u32);

impl View for LinkStats {
    type V = LinkStatsView;

    closed spec fn view(&self) -> LinkStatsView {
        (self.srtt_ms, self.loss_pct, self.goodput_kbps, self.jitter_us)
    }
}

impl LinkStats {
    /// All metrics zero.
    pub fn new() -> (r: Self)
        ensures
            r@ == (0u32, 0u32, 0u32, 0u32),
    {
        LinkStats { srtt_ms: 0, loss_pct: 0, goodput_kbps: 0, jitter_us: 0 }
    }

    /// Replaces all four metrics.
    pub fn update(&mut self, srtt_ms: u32, loss_pct: u32, goodput_kbps: u32, jitter_us: u32)
        ensures
            final(self)@ == (srtt_ms, loss_pct, goodput_kbps, jitter_us),
    {
        self.srtt_ms = srtt_ms;
        self.loss_pct = loss_pct;
        self.goodput_kbps = goodput_kbps;
        self.jitter_us = jitter_us;
    }

    pub fn srtt_ms(&self) -> (r: u32)
        ensures
            r == self@.0,
    {
        self.srtt_ms
    }

    pub fn loss_pct(&self) -> (r: u32)
        ensures
            r == self@.1,
    {
        self.loss_pct
    }

    pub fn goodput_kbps(&self) -> (r: u32)
        ensures
            r == self@.2,
    {
        self.goodput_kbps
    }

    pub fn jitter_us(&self) -> (r: u32)
        ensures
            r == self@.3,
    {
        self.jitter_us
    }
}

} // verus!
