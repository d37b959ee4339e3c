//! The presentation layer: a bounded wait stands in for the structured
//! encoding of a fixed test payload.
//!
//! The time recorded is the latency of that stand-in, labelled
//! `TimingSource::Simulated`. The payload sizes are those of the test
//! payload before and after encoding.

use vstd::prelude::*;
use crate::score::{SCORE_FLOOR, SCORE_SCALE, TIME_PENALTY_CAP, layer_score_spec, time_factor_spec, layer_score, time_factor};
use crate::timing::TimingSource;

verus! {

/// The default simulated encoding delay (25 ms).
pub const PRESENTATION_DELAY_US: u64 = 25_000;

/// The size of the test payload before encoding, in bytes.
pub const RAW_PAYLOAD_BYTES: u32 = 156;

/// The size of the test payload after encoding, in bytes.
pub const ENCODED_PAYLOAD_BYTES: u32 = 179;

/// The time over which encoding latency takes its full share of the score
/// (100 ms).
pub const PRESENTATION_TIME_SCALE_US: u64 = 100_000;

/// The presentation layer's metrics record.
#[derive(Debug)]
pub struct PresentationMetrics {
    pub encoding_format: String,
    /// Time of the encoding stand-in, in microseconds.
    pub encoding_time_us: u64,
    pub raw_data_size_bytes: u32,
    pub encoded_size_bytes: u32,
    /// Encoded size over raw size, in ten-thousandths.
    pub compression_ratio: u32,
    /// Bytes the encoding adds to the payload.
    pub encoding_overhead_bytes: u32,
    /// The presentation score, in ten-thousandths.
    pub encoding_efficiency: u32,
    pub cluster_support: bool,
    pub timing: TimingSource,
}

/// `encoded / raw`, in ten-thousandths.
pub open spec fn compression_ratio_spec(raw: int, encoded: int) -> int {
    encoded * SCORE_SCALE / raw
}

/// The presentation score for an encoding time of `elapsed_us`: the
/// compression ratio (encoded over raw), capped at 1.0, as base, and the
/// time factor.
pub open spec fn presentation_score(elapsed_us: int) -> int {
    let ratio = compression_ratio_spec(RAW_PAYLOAD_BYTES as int, ENCODED_PAYLOAD_BYTES as int);
    layer_score_spec(
        if ratio < SCORE_SCALE { ratio } else { SCORE_SCALE as int },
        time_factor_spec(elapsed_us, PRESENTATION_TIME_SCALE_US as int, TIME_PENALTY_CAP as int),
        SCORE_SCALE as int,
    )
}

/// The presentation-layer analyzer.
#[derive(Debug, Clone, Copy, PartialEq, Eq, Structural)]
pub struct PresentationAnalyzer {
    /// How long the encoding stand-in waits.
    pub simulated_delay_us: u64,
}

impl PresentationAnalyzer {
    /// The analyzer with the default delay.
    pub fn new() -> (r: PresentationAnalyzer)
        ensures
            r.simulated_delay_us == PRESENTATION_DELAY_US,
    {
        PresentationAnalyzer { simulated_delay_us: PRESENTATION_DELAY_US }
    }

    /// The analyzer with a delay of `delay_us`.
    pub fn with_simulated_delay(delay_us: u64) -> (r: PresentationAnalyzer)
        ensures
            r.simulated_delay_us == delay_us,
    {
        PresentationAnalyzer { simulated_delay_us: delay_us }
    }

    /// The presentation metrics of an encoding stand-in that took
    /// `elapsed_us`.
    pub fn analyze_layer_6(&self, elapsed_us: u64) -> (r: PresentationMetrics)
        ensures
            r.encoding_format@ == "Matter_Cluster_TLV"@,
            r.encoding_time_us == elapsed_us,
            r.raw_data_size_bytes == RAW_PAYLOAD_BYTES,
            r.encoded_size_bytes == ENCODED_PAYLOAD_BYTES,
            r.compression_ratio == compression_ratio_spec(RAW_PAYLOAD_BYTES as int, ENCODED_PAYLOAD_BYTES as int),
            r.encoding_overhead_bytes == ENCODED_PAYLOAD_BYTES - RAW_PAYLOAD_BYTES,
            r.encoding_efficiency == presentation_score(elapsed_us as int),
            SCORE_FLOOR <= r.encoding_efficiency <= SCORE_SCALE,
            r.cluster_support,
            r.timing == TimingSource::Simulated,
    {
        let ratio: u32 = ENCODED_PAYLOAD_BYTES * SCORE_SCALE / RAW_PAYLOAD_BYTES;
        let base: u32 = if ratio < SCORE_SCALE { ratio } else { SCORE_SCALE };
        let tf = time_factor(elapsed_us as u128, PRESENTATION_TIME_SCALE_US, TIME_PENALTY_CAP);
        PresentationMetrics {
            encoding_format: "Matter_Cluster_TLV".to_owned(),
            encoding_time_us: elapsed_us,
            raw_data_size_bytes: RAW_PAYLOAD_BYTES,
            encoded_size_bytes: ENCODED_PAYLOAD_BYTES,
            compression_ratio: ratio,
            encoding_overhead_bytes: ENCODED_PAYLOAD_BYTES - RAW_PAYLOAD_BYTES,
            encoding_efficiency: layer_score(base, tf, SCORE_SCALE),
            cluster_support: true,
            timing: TimingSource::Simulated,
        }
    }
}

} // verus!
