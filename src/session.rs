//! The session layer: a bounded wait stands in for commissioning
//! (certificate exchange, credential setup, network configuration).
//!
//! The time recorded is the latency of that stand-in, which the caller
//! measures around a sleep of `simulated_delay_us`; it is labelled
//! `TimingSource::Simulated`.

use vstd::prelude::*;
use crate::score::{SCORE_FLOOR, SCORE_SCALE, TIME_PENALTY_CAP, layer_score_spec, time_factor_spec, layer_score, time_factor};
use crate::timing::TimingSource;

verus! {

/// The default simulated commissioning delay (450 ms).
pub const SESSION_DELAY_US: u64 = 450_000;

/// The base efficiency of the session layer (0.65).
pub const SESSION_BASE_EFFICIENCY: u32 = 6_500;

/// The time over which commissioning latency takes its full share of the
/// score (1 s).
pub const SESSION_TIME_SCALE_US: u64 = 1_000_000;

/// The fixed session overhead, in bytes.
pub const SESSION_OVERHEAD_BYTES: u32 = 342;

/// The size of the operational certificate, in bytes.
pub const CERTIFICATE_SIZE_BYTES: u32 = 350;

/// A fixed classification.
#[derive(Debug, Clone, Copy, PartialEq, Eq, Structural)]
pub enum Level {
    Low,
    Medium,
    High,
}

/// The session layer's metrics record.
#[derive(Debug)]
pub struct SessionMetrics {
    pub session_type: String,
    /// Time of the commissioning stand-in, in microseconds.
    pub commissioning_time_us: u64,
    pub session_complexity: Level,
    pub multi_admin_support: bool,
    pub session_overhead_bytes: u32,
    /// The session score, in ten-thousandths.
    pub session_efficiency: u32,
    pub security_level: Level,
    pub certificate_size_bytes: u32,
    pub timing: TimingSource,
}

/// The session score for a commissioning time of `elapsed_us`.
pub open spec fn session_score(elapsed_us: int) -> int {
    layer_score_spec(
        SESSION_BASE_EFFICIENCY as int,
        time_factor_spec(elapsed_us, SESSION_TIME_SCALE_US as int, TIME_PENALTY_CAP as int),
        SCORE_SCALE as int,
    )
}

/// The session-layer analyzer.
#[derive(Debug, Clone, Copy, PartialEq, Eq, Structural)]
pub struct SessionAnalyzer {
    /// How long the commissioning stand-in waits.
    pub simulated_delay_us: u64,
}

impl SessionAnalyzer {
    /// The analyzer with the default delay.
    pub fn new() -> (r: SessionAnalyzer)
        ensures
            r.simulated_delay_us == SESSION_DELAY_US,
    {
        SessionAnalyzer { simulated_delay_us: SESSION_DELAY_US }
    }

    /// The analyzer with a delay of `delay_us`.
    pub fn with_simulated_delay(delay_us: u64) -> (r: SessionAnalyzer)
        ensures
            r.simulated_delay_us == delay_us,
    {
        SessionAnalyzer { simulated_delay_us: delay_us }
    }

    /// The session metrics of a commissioning stand-in that took
    /// `elapsed_us`.
    pub fn analyze_layer_5(&self, elapsed_us: u64) -> (r: SessionMetrics)
        ensures
            r.session_type@ == "Matter_Commissioning"@,
            r.commissioning_time_us == elapsed_us,
            r.session_complexity == Level::High,
            r.multi_admin_support,
            r.session_overhead_bytes == SESSION_OVERHEAD_BYTES,
            r.session_efficiency == session_score(elapsed_us as int),
            SCORE_FLOOR <= r.session_efficiency <= SCORE_SCALE,
            r.security_level == Level::High,
            r.certificate_size_bytes == CERTIFICATE_SIZE_BYTES,
            r.timing == TimingSource::Simulated,
    {
        let tf = time_factor(elapsed_us as u128, SESSION_TIME_SCALE_US, TIME_PENALTY_CAP);
        SessionMetrics {
            session_type: "Matter_Commissioning".to_owned(),
            commissioning_time_us: elapsed_us,
            session_complexity: Level::High,
            multi_admin_support: true,
            session_overhead_bytes: SESSION_OVERHEAD_BYTES,
            session_efficiency: layer_score(SESSION_BASE_EFFICIENCY, tf, SCORE_SCALE),
            security_level: Level::High,
            certificate_size_bytes: CERTIFICATE_SIZE_BYTES,
            timing: TimingSource::Simulated,
        }
    }
}

} // verus!
