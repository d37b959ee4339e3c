//! A layered protocol-performance probe.
//!
//! The library holds the logic of the probe: the discovery datagram codec, the
//! bookkeeping of socket probes and throughput sampling, the four layer
//! analyzers, the efficiency scorer, the run orchestrator and the
//! recommendation engine. Sockets, clocks and sleeping belong to the caller,
//! which hands measured values in and takes records back.
//!
//! Times are whole microseconds. Scores are fixed-point numbers in
//! ten-thousandths: `SCORE_SCALE` stands for 1.0.

mod score;

pub use score::{
    SCORE_SCALE, SCORE_FLOOR, TIME_PENALTY_CAP, RTT_PENALTY_CAP,
    clamp_score, time_factor_spec, layer_score_spec, rtt_penalty, loss_penalty,
    transport_quality_spec, time_factor, layer_score, transport_quality,
    lemma_layer_score_monotone_in_quality, lemma_transport_quality_antitone,
};

mod codec;

pub use codec::{
    MAX_MESSAGE_LEN, LABEL_SEPARATOR, query_header, query_trailer, split_labels, label_bytes,
    labels_bytes, discovery_query, CodecError, DiscoveryMessageCodec, lemma_encode_deterministic,
};

mod probe;

pub use probe::{
    UDP_HEADER_BYTES, TCP_HEADER_BYTES, TCP_SESSION_OVERHEAD_BYTES, IoResult, ProbeOutcome,
    outcome_of, SocketProbe, udp_overhead, udp_overhead_bytes,
};

mod network;

pub use network::{
    THROUGHPUT_CAP_KBPS, TCP_THROUGHPUT_ESTIMATE_KBPS, PACKET_LOSS_ESTIMATE_PPM,
    CONCURRENT_CONNECTIONS_ESTIMATE, THROUGHPUT_PAYLOAD_BYTES, THROUGHPUT_BUDGET_US,
    SUCCESSFUL_CONNECTIONS_ESTIMATE, FAILED_CONNECTIONS_ESTIMATE, TIMEOUT_CONNECTIONS_ESTIMATE,
    AVERAGE_HANDSHAKE_ESTIMATE_US, MAX_LOSS_PPM,
    NetworkPerformance, throughput_kbps_spec, SamplerAction, ThroughputSampler,
};

mod timing;

pub use timing::TimingSource;

mod transport;

pub use transport::{
    TRANSPORT_BASE_EFFICIENCY, PARTIAL_SUCCESS_FACTOR, TRANSPORT_TIME_SCALE_US, PROBE_TIMEOUT_US,
    default_service_name, Endpoint, ConnectionStatistics, estimated_connection_statistics,
    TransportMetrics, throughput_factor, transport_base, transport_score,
    calculate_transport_efficiency, lemma_transport_score_antitone, RealTransportAnalyzer,
    lemma_same_service_name_same_message,
};

mod session;
mod presentation;

pub use session::{
    SESSION_DELAY_US, SESSION_BASE_EFFICIENCY, SESSION_TIME_SCALE_US, SESSION_OVERHEAD_BYTES,
    CERTIFICATE_SIZE_BYTES, Level, SessionMetrics, session_score, SessionAnalyzer,
};
pub use presentation::{
    PRESENTATION_DELAY_US, RAW_PAYLOAD_BYTES, ENCODED_PAYLOAD_BYTES, PRESENTATION_TIME_SCALE_US,
    PresentationMetrics, compression_ratio_spec, presentation_score, PresentationAnalyzer,
};

mod application;

pub use application::{
    APPLICATION_DELAY_US, INTEROPERABILITY_SCORE, APPLICATION_OVERHEAD_BYTES,
    APPLICATION_TIME_SCALE_US, ApplicationMetrics, standard_clusters, texts, application_score,
    ApplicationAnalyzer,
};

mod recommend;

pub use recommend::{
    LOW_EFFICIENCY_THRESHOLD, SLOW_COMMISSIONING_US, SLOW_DISCOVERY_US, Advice, advice_text,
    advice_for, recommendation_texts, RecommendationEngine,
};

mod orchestrator;

pub use orchestrator::{
    DEFAULT_RUN_BUDGET_US, Layer, Phase, next_phase, LayerMetrics, score_in_range, LayerOutcome,
    OutcomeRejected, RunConfig, AggregateReport, overall_score, RunState,
    AnalysisOrchestrator, lemma_aggregating_run_is_complete,
};
