//! The application layer: a bounded wait stands in for service discovery
//! and the initialization of the device's capabilities (clusters).
//!
//! The time recorded is the latency of that stand-in, labelled
//! `TimingSource::Simulated`.

use vstd::prelude::*;
use crate::score::{SCORE_FLOOR, SCORE_SCALE, TIME_PENALTY_CAP, layer_score_spec, time_factor_spec, layer_score, time_factor};
use crate::timing::TimingSource;

verus! {

/// The default simulated discovery delay (80 ms).
pub const APPLICATION_DELAY_US: u64 = 80_000;

/// The interoperability score of the cluster model (0.95).
pub const INTEROPERABILITY_SCORE: u32 = 9_500;

/// The fixed application overhead, in bytes.
pub const APPLICATION_OVERHEAD_BYTES: u32 = 267;

/// The time over which discovery latency takes its full share of the score
/// (500 ms).
pub const APPLICATION_TIME_SCALE_US: u64 = 500_000;

/// The application layer's metrics record.
#[derive(Debug)]
pub struct ApplicationMetrics {
    pub application_protocol: String,
    pub cluster_model: String,
    pub supported_clusters: Vec<String>,
    /// Time of the discovery stand-in, in microseconds.
    pub discovery_time_us: u64,
    pub clusters_discovered: u32,
    /// In ten-thousandths.
    pub interoperability_score: u32,
    pub application_overhead_bytes: u32,
    /// The application score, in ten-thousandths.
    pub application_efficiency: u32,
    pub timing: TimingSource,
}

/// The clusters a device of the probed kind supports, in order.
pub open spec fn standard_clusters() -> Seq<Seq<char>> {
    seq![
        "Basic_Information_0x0028"@,
        "Identify_0x0003"@,
        "Groups_0x0004"@,
        "OnOff_0x0006"@,
        "Level_Control_0x0008"@,
        "Color_Control_0x0300"@,
        "Temperature_Measurement_0x0402"@,
        "Pressure_Measurement_0x0403"@,
        "Illuminance_Measurement_0x0400"@,
        "Door_Lock_0x0101"@,
    ]
}

/// The texts of a list of strings.
pub open spec fn texts(v: Seq<String>) -> Seq<Seq<char>> {
    v.map_values(|s: String| s@)
}

/// The application score for a discovery time of `elapsed_us`.
pub open spec fn application_score(elapsed_us: int) -> int {
    layer_score_spec(
        INTEROPERABILITY_SCORE as int,
        time_factor_spec(elapsed_us, APPLICATION_TIME_SCALE_US as int, TIME_PENALTY_CAP as int),
        SCORE_SCALE as int,
    )
}

/// Appends an owned copy of `s` to `v`.
fn push_text(v: &mut Vec<String>, s: &str)
    ensures
        texts(final(v)@) == texts(old(v)@).push(s@),
{
    v.push(s.to_owned());
    assert(texts(v@) =~= texts(old(v)@).push(s@));
}

/// The supported clusters, in order.
fn cluster_list() -> (r: Vec<String>)
    ensures
        texts(r@) == standard_clusters(),
{
    let mut v: Vec<String> = Vec::new();
    assert(texts(v@) =~= Seq::<Seq<char>>::empty());
    push_text(&mut v, "Basic_Information_0x0028");
    push_text(&mut v, "Identify_0x0003");
    push_text(&mut v, "Groups_0x0004");
    push_text(&mut v, "OnOff_0x0006");
    push_text(&mut v, "Level_Control_0x0008");
    push_text(&mut v, "Color_Control_0x0300");
    push_text(&mut v, "Temperature_Measurement_0x0402");
    push_text(&mut v, "Pressure_Measurement_0x0403");
    push_text(&mut v, "Illuminance_Measurement_0x0400");
    push_text(&mut v, "Door_Lock_0x0101");
    assert(texts(v@) =~= standard_clusters());
    v
}

/// The application-layer analyzer.
#[derive(Debug, Clone, Copy, PartialEq, Eq, Structural)]
pub struct ApplicationAnalyzer {
    /// How long the discovery stand-in waits.
    pub simulated_delay_us: u64,
}

impl ApplicationAnalyzer {
    /// The analyzer with the default delay.
    pub fn new() -> (r: ApplicationAnalyzer)
        ensures
            r.simulated_delay_us == APPLICATION_DELAY_US,
    {
        ApplicationAnalyzer { simulated_delay_us: APPLICATION_DELAY_US }
    }

    /// The analyzer with a delay of `delay_us`.
    pub fn with_simulated_delay(delay_us: u64) -> (r: ApplicationAnalyzer)
        ensures
            r.simulated_delay_us == delay_us,
    {
        ApplicationAnalyzer { simulated_delay_us: delay_us }
    }

    /// The application metrics of a discovery stand-in that took
    /// `elapsed_us`.
    pub fn analyze_layer_7(&self, elapsed_us: u64) -> (r: ApplicationMetrics)
        ensures
            r.application_protocol@ == "Matter"@,
            r.cluster_model@ == "Matter_Application_Clusters"@,
            texts(r.supported_clusters@) == standard_clusters(),
            r.discovery_time_us == elapsed_us,
            r.clusters_discovered == standard_clusters().len(),
            r.interoperability_score == INTEROPERABILITY_SCORE,
            r.application_overhead_bytes == APPLICATION_OVERHEAD_BYTES,
            r.application_efficiency == application_score(elapsed_us as int),
            SCORE_FLOOR <= r.application_efficiency <= SCORE_SCALE,
            r.timing == TimingSource::Simulated,
    {
        let clusters = cluster_list();
        assert(clusters@.len() == texts(clusters@).len());
        let count = clusters.len() as u32;
        let tf = time_factor(elapsed_us as u128, APPLICATION_TIME_SCALE_US, TIME_PENALTY_CAP);
        ApplicationMetrics {
            application_protocol: "Matter".to_owned(),
            cluster_model: "Matter_Application_Clusters".to_owned(),
            supported_clusters: clusters,
            discovery_time_us: elapsed_us,
            clusters_discovered: count,
            interoperability_score: INTEROPERABILITY_SCORE,
            application_overhead_bytes: APPLICATION_OVERHEAD_BYTES,
            application_efficiency: layer_score(INTEROPERABILITY_SCORE, tf, SCORE_SCALE),
            timing: TimingSource::Simulated,
        }
    }
}

} // verus!
