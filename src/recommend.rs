//! The recommendation engine: metric thresholds turned into advice.

use vstd::prelude::*;
use crate::application::texts;

verus! {

/// Below this overall efficiency (0.7) the transport configuration deserves
/// a look.
pub const LOW_EFFICIENCY_THRESHOLD: u32 = 7_000;

/// Above this commissioning time (100 ms) pre-provisioning pays off.
pub const SLOW_COMMISSIONING_US: u64 = 100_000;

/// Above this discovery time (30 ms) discovery deserves tuning.
pub const SLOW_DISCOVERY_US: u64 = 30_000;

/// One piece of advice.
#[derive(Debug, Clone, Copy, PartialEq, Eq, Structural)]
pub enum Advice {
    /// The overall efficiency is low.
    TransportConfig,
    /// Commissioning is slow.
    PreProvisioning,
    /// Discovery is slow.
    DiscoveryTuning,
    /// Closing remark: which timings are simulated.
    SimulatedTimings,
    /// Closing remark: confirm on the target network.
    ConfirmOnTarget,
}

/// The text of each piece of advice.
pub open spec fn advice_text(a: Advice) -> Seq<char> {
    match a {
        Advice::TransportConfig => "Overall efficiency is below 0.70: review the UDP/TCP transport configuration (socket buffers, MTU, retransmission timers)."@,
        Advice::PreProvisioning => "Commissioning takes longer than 100 ms: pre-provision credentials and network configuration to shorten session setup."@,
        Advice::DiscoveryTuning => "Discovery takes longer than 30 ms: tune the mDNS query interval and cache discovered services."@,
        Advice::SimulatedTimings => "Session, presentation and application timings are the latency of simulated stand-ins, not of a live peer."@,
        Advice::ConfirmOnTarget => "Repeat the run on the target network with real devices to confirm these figures."@,
    }
}

impl Advice {
    /// The text of this piece of advice.
    pub fn text(&self) -> (r: String)
        ensures
            r@ == advice_text(*self),
    {
        match self {
            Advice::TransportConfig => "Overall efficiency is below 0.70: review the UDP/TCP transport configuration (socket buffers, MTU, retransmission timers).".to_owned(),
            Advice::PreProvisioning => "Commissioning takes longer than 100 ms: pre-provision credentials and network configuration to shorten session setup.".to_owned(),
            Advice::DiscoveryTuning => "Discovery takes longer than 30 ms: tune the mDNS query interval and cache discovered services.".to_owned(),
            Advice::SimulatedTimings => "Session, presentation and application timings are the latency of simulated stand-ins, not of a live peer.".to_owned(),
            Advice::ConfirmOnTarget => "Repeat the run on the target network with real devices to confirm these figures.".to_owned(),
        }
    }
}

/// The advice for an overall efficiency, a commissioning time and a
/// discovery time: each threshold crossed adds its advice, in this order,
/// and the two closing remarks always follow.
pub open spec fn advice_for(overall_efficiency: int, commissioning_time_us: int, discovery_time_us: int) -> Seq<Advice> {
    (if overall_efficiency < LOW_EFFICIENCY_THRESHOLD { seq![Advice::TransportConfig] } else { seq![] })
        + (if commissioning_time_us > SLOW_COMMISSIONING_US { seq![Advice::PreProvisioning] } else { seq![] })
        + (if discovery_time_us > SLOW_DISCOVERY_US { seq![Advice::DiscoveryTuning] } else { seq![] })
        + seq![Advice::SimulatedTimings, Advice::ConfirmOnTarget]
}

/// The texts of `advice_for`.
pub open spec fn recommendation_texts(overall_efficiency: int, commissioning_time_us: int, discovery_time_us: int) -> Seq<Seq<char>> {
    advice_for(overall_efficiency, commissioning_time_us, discovery_time_us).map_values(|a: Advice| advice_text(a))
}

fn push_advice(v: &mut Vec<String>, a: Advice)
    ensures
        texts(final(v)@) == texts(old(v)@).push(advice_text(a)),
{
    v.push(a.text());
    assert(texts(v@) =~= texts(old(v)@).push(advice_text(a)));
}

/// Turns aggregate metrics into advice.
pub struct RecommendationEngine;

impl RecommendationEngine {
    /// The advisory texts for an overall efficiency (in ten-thousandths), a
    /// commissioning time and a discovery time (in microseconds).
    pub fn recommend(overall_efficiency: u32, commissioning_time_us: u64, discovery_time_us: u64) -> (r: Vec<String>)
        ensures
            texts(r@) == recommendation_texts(overall_efficiency as int, commissioning_time_us as int, discovery_time_us as int),
    {
        let ghost advice = advice_for(overall_efficiency as int, commissioning_time_us as int, discovery_time_us as int);
        let mut v: Vec<String> = Vec::new();
        let ghost mut expected: Seq<Advice> = seq![];
        assert(texts(v@) =~= expected.map_values(|a: Advice| advice_text(a)));
        if overall_efficiency < LOW_EFFICIENCY_THRESHOLD {
            push_advice(&mut v, Advice::TransportConfig);
            proof { expected = expected.push(Advice::TransportConfig); }
            assert(texts(v@) =~= expected.map_values(|a: Advice| advice_text(a)));
        }
        if commissioning_time_us > SLOW_COMMISSIONING_US {
            push_advice(&mut v, Advice::PreProvisioning);
            proof { expected = expected.push(Advice::PreProvisioning); }
            assert(texts(v@) =~= expected.map_values(|a: Advice| advice_text(a)));
        }
        if discovery_time_us > SLOW_DISCOVERY_US {
            push_advice(&mut v, Advice::DiscoveryTuning);
            proof { expected = expected.push(Advice::DiscoveryTuning); }
            assert(texts(v@) =~= expected.map_values(|a: Advice| advice_text(a)));
        }
        push_advice(&mut v, Advice::SimulatedTimings);
        proof { expected = expected.push(Advice::SimulatedTimings); }
        assert(texts(v@) =~= expected.map_values(|a: Advice| advice_text(a)));
        push_advice(&mut v, Advice::ConfirmOnTarget);
        proof { expected = expected.push(Advice::ConfirmOnTarget); }
        assert(texts(v@) =~= expected.map_values(|a: Advice| advice_text(a)));
        assert(expected =~= advice);
        v
    }
}

} // verus!
