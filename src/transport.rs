//! The transport layer: a discovery datagram, a TCP connect and a throughput
//! burst on live sockets, folded into one metrics record.
//!
//! The caller binds the sockets and makes each attempt; the analyzer says
//! what to send and where, and turns the outcomes into `TransportMetrics`.

use vstd::prelude::*;
use vstd::arithmetic::div_mod::{lemma_div_pos_is_pos, lemma_div_is_ordered};
use vstd::arithmetic::mul::lemma_mul_upper_bound;
use vstd::utf8::encode_utf8;
use crate::codec::{CodecError, DiscoveryMessageCodec, discovery_query, MAX_MESSAGE_LEN};
use crate::network::{
    NetworkPerformance, THROUGHPUT_BUDGET_US, THROUGHPUT_PAYLOAD_BYTES,
    SUCCESSFUL_CONNECTIONS_ESTIMATE, FAILED_CONNECTIONS_ESTIMATE, TIMEOUT_CONNECTIONS_ESTIMATE,
    AVERAGE_HANDSHAKE_ESTIMATE_US,
};
use crate::probe::{
    ProbeOutcome, SocketProbe, udp_overhead, udp_overhead_bytes, TCP_HEADER_BYTES,
    TCP_SESSION_OVERHEAD_BYTES,
};
use crate::score::{
    SCORE_FLOOR, SCORE_SCALE, TIME_PENALTY_CAP, layer_score_spec, time_factor_spec, transport_quality_spec,
    layer_score, time_factor, transport_quality, lemma_layer_score_monotone_in_quality,
    lemma_transport_quality_antitone,
};
use crate::timing::TimingSource;

verus! {

/// The base efficiency of the transport layer (0.75).
pub const TRANSPORT_BASE_EFFICIENCY: u32 = 7_500;

/// The success factor when the UDP send or the TCP connect failed (0.8).
pub const PARTIAL_SUCCESS_FACTOR: u32 = 8_000;

/// The time over which transport latency takes its full share of the score
/// (1 s).
pub const TRANSPORT_TIME_SCALE_US: u64 = 1_000_000;

/// The bound on each socket attempt (1 s).
pub const PROBE_TIMEOUT_US: u64 = 1_000_000;

/// The service name the discovery datagram asks for.
pub open spec fn default_service_name() -> Seq<char> {
    "_matter._tcp.local."@
}

/// An IPv4 socket address.
#[derive(Debug, Clone, Copy, PartialEq, Eq, Structural)]
pub struct Endpoint {
    /// The address as a big-endian number (127.0.0.1 is `0x7f00_0001`).
    pub address: u32,
    pub port: u16,
}

/// Connection attempts by result. These figures are estimates (see
/// `estimated_connection_statistics`).
#[derive(Debug, Clone, Copy, PartialEq, Eq, Structural)]
pub struct ConnectionStatistics {
    pub successful_connections: u32,
    pub failed_connections: u32,
    pub timeout_connections: u32,
    /// Mean time of the attempts, in microseconds.
    pub average_handshake_time_us: u64,
}

/// The estimated connection statistics: fixed figures, not counted from a
/// run's attempts.
pub open spec fn estimated_connection_statistics() -> ConnectionStatistics {
    ConnectionStatistics {
        successful_connections: SUCCESSFUL_CONNECTIONS_ESTIMATE,
        failed_connections: FAILED_CONNECTIONS_ESTIMATE,
        timeout_connections: TIMEOUT_CONNECTIONS_ESTIMATE,
        average_handshake_time_us: AVERAGE_HANDSHAKE_ESTIMATE_US,
    }
}

impl ConnectionStatistics {
    /// The estimated connection statistics.
    pub fn estimated() -> (r: ConnectionStatistics)
        ensures
            r == estimated_connection_statistics(),
    {
        ConnectionStatistics {
            successful_connections: SUCCESSFUL_CONNECTIONS_ESTIMATE,
            failed_connections: FAILED_CONNECTIONS_ESTIMATE,
            timeout_connections: TIMEOUT_CONNECTIONS_ESTIMATE,
            average_handshake_time_us: AVERAGE_HANDSHAKE_ESTIMATE_US,
        }
    }
}

/// The transport layer's metrics record.
#[derive(Debug)]
pub struct TransportMetrics {
    pub protocol: String,
    /// Time of the discovery send, in microseconds.
    pub udp_discovery_time_us: u64,
    /// Time of the TCP connect, in microseconds.
    pub tcp_connection_time_us: u64,
    pub udp_overhead_bytes: u64,
    pub tcp_overhead_bytes: u64,
    pub total_transport_overhead: u64,
    pub multi_transport_support: bool,
    pub udp_success: bool,
    pub tcp_success: bool,
    /// The transport score, in ten-thousandths.
    pub efficiency_score: u32,
    pub real_network_performance: NetworkPerformance,
    pub connection_statistics: ConnectionStatistics,
    pub timing: TimingSource,
}

/// The throughput factor: the combined UDP and TCP throughput against
/// 200 Mbit/s, at most 1.0.
pub open spec fn throughput_factor(network: NetworkPerformance) -> int {
    let f = (network.udp_throughput_kbps + network.tcp_throughput_kbps) / 20;
    if f < SCORE_SCALE { f } else { SCORE_SCALE as int }
}

/// The transport base: `0.75 × success_factor × throughput_factor`.
pub open spec fn transport_base(udp: ProbeOutcome, tcp: ProbeOutcome, network: NetworkPerformance) -> int {
    let success = if udp.success && tcp.success { SCORE_SCALE as int } else { PARTIAL_SUCCESS_FACTOR as int };
    TRANSPORT_BASE_EFFICIENCY * success / SCORE_SCALE as int * throughput_factor(network) / SCORE_SCALE as int
}

/// The transport score for the two attempts and the network figures.
pub open spec fn transport_score(udp: ProbeOutcome, tcp: ProbeOutcome, network: NetworkPerformance) -> int {
    layer_score_spec(
        transport_base(udp, tcp, network),
        time_factor_spec(udp.elapsed_us + tcp.elapsed_us, TRANSPORT_TIME_SCALE_US as int, TIME_PENALTY_CAP as int),
        transport_quality_spec(network.round_trip_time_us as int, network.packet_loss_ppm as int),
    )
}

/// The transport score of `udp`, `tcp` and `network`.
pub fn calculate_transport_efficiency(udp: &ProbeOutcome, tcp: &ProbeOutcome, network: &NetworkPerformance) -> (r: u32)
    ensures
        r == transport_score(*udp, *tcp, *network),
        SCORE_FLOOR <= r <= SCORE_SCALE,
{
    let success: u64 = if udp.success && tcp.success { SCORE_SCALE as u64 } else { PARTIAL_SUCCESS_FACTOR as u64 };
    let combined: u128 = network.udp_throughput_kbps as u128 + network.tcp_throughput_kbps as u128;
    let tput: u64 = if combined / 20 < SCORE_SCALE as u128 { (combined / 20) as u64 } else { SCORE_SCALE as u64 };
    let s1: u64 = TRANSPORT_BASE_EFFICIENCY as u64 * success / SCORE_SCALE as u64;
    proof {
        lemma_div_is_ordered(TRANSPORT_BASE_EFFICIENCY as int * success as int, TRANSPORT_BASE_EFFICIENCY as int * SCORE_SCALE as int, SCORE_SCALE as int);
        lemma_mul_upper_bound(s1 as int, SCORE_SCALE as int, tput as int, SCORE_SCALE as int);
        lemma_div_is_ordered(s1 as int * tput as int, SCORE_SCALE as int * SCORE_SCALE as int, SCORE_SCALE as int);
    }
    let base: u32 = (s1 * tput / SCORE_SCALE as u64) as u32;
    let elapsed: u128 = udp.elapsed_us as u128 + tcp.elapsed_us as u128;
    let tf = time_factor(elapsed, TRANSPORT_TIME_SCALE_US, TIME_PENALTY_CAP);
    let q = transport_quality(network.round_trip_time_us, network.packet_loss_ppm);
    layer_score(base, tf, q)
}

/// The transport score never grows when round-trip time or packet loss
/// grows, the other inputs held fixed.
pub proof fn lemma_transport_score_antitone(
    udp: ProbeOutcome,
    tcp: ProbeOutcome,
    better: NetworkPerformance,
    worse: NetworkPerformance,
)
    requires
        worse.udp_throughput_kbps == better.udp_throughput_kbps,
        worse.tcp_throughput_kbps == better.tcp_throughput_kbps,
        better.round_trip_time_us <= worse.round_trip_time_us,
        better.packet_loss_ppm <= worse.packet_loss_ppm,
    ensures
        transport_score(udp, tcp, worse) <= transport_score(udp, tcp, better),
{
    let success = if udp.success && tcp.success { SCORE_SCALE as int } else { PARTIAL_SUCCESS_FACTOR as int };
    let s1 = TRANSPORT_BASE_EFFICIENCY * success / SCORE_SCALE as int;
    lemma_div_pos_is_pos(TRANSPORT_BASE_EFFICIENCY * success, SCORE_SCALE as int);
    lemma_div_pos_is_pos(better.udp_throughput_kbps + better.tcp_throughput_kbps, 20);
    assert(0 <= s1 * throughput_factor(better)) by (nonlinear_arith)
        requires 0 <= s1, 0 <= throughput_factor(better);
    lemma_div_pos_is_pos(s1 * throughput_factor(better), SCORE_SCALE as int);
    let elapsed = udp.elapsed_us + tcp.elapsed_us;
    lemma_div_pos_is_pos(elapsed * SCORE_SCALE, TRANSPORT_TIME_SCALE_US as int);
    lemma_transport_quality_antitone(
        better.round_trip_time_us as int,
        better.packet_loss_ppm as int,
        worse.round_trip_time_us as int,
        worse.packet_loss_ppm as int,
    );
    lemma_layer_score_monotone_in_quality(
        transport_base(udp, tcp, better),
        time_factor_spec(elapsed, TRANSPORT_TIME_SCALE_US as int, TIME_PENALTY_CAP as int),
        transport_quality_spec(worse.round_trip_time_us as int, worse.packet_loss_ppm as int),
        transport_quality_spec(better.round_trip_time_us as int, better.packet_loss_ppm as int),
    );
}

/// The transport-layer analyzer: what to send, where, and under which
/// bounds.
pub struct RealTransportAnalyzer {
    /// The service name the discovery datagram asks for.
    pub service_name: String,
    /// Where the discovery datagram goes (the mDNS multicast group).
    pub discovery_target: Endpoint,
    /// Where the throughput burst goes: a local port nobody listens on.
    pub throughput_target: Endpoint,
    /// Where the round-trip send goes: another closed local port.
    pub rtt_target: Endpoint,
    /// The bound on each socket attempt.
    pub probe: SocketProbe,
    /// The time budget of the throughput burst.
    pub throughput_budget_us: u64,
    /// The size of each datagram of the burst.
    pub throughput_payload_bytes: usize,
}

impl RealTransportAnalyzer {
    /// The analyzer with its standard targets and bounds.
    pub fn new() -> (r: RealTransportAnalyzer)
        ensures
            r.service_name@ == default_service_name(),
            r.discovery_target == (Endpoint { address: 0xe000_00fbu32, port: 5353u16 }),
            r.throughput_target == (Endpoint { address: 0x7f00_0001u32, port: 12345u16 }),
            r.rtt_target == (Endpoint { address: 0x7f00_0001u32, port: 12346u16 }),
            r.probe.timeout_us == PROBE_TIMEOUT_US,
            r.throughput_budget_us == THROUGHPUT_BUDGET_US,
            r.throughput_payload_bytes == THROUGHPUT_PAYLOAD_BYTES,
    {
        RealTransportAnalyzer {
            service_name: "_matter._tcp.local.".to_owned(),
            discovery_target: Endpoint { address: 0xe000_00fb, port: 5353 },
            throughput_target: Endpoint { address: 0x7f00_0001, port: 12345 },
            rtt_target: Endpoint { address: 0x7f00_0001, port: 12346 },
            probe: SocketProbe::new(PROBE_TIMEOUT_US),
            throughput_budget_us: THROUGHPUT_BUDGET_US,
            throughput_payload_bytes: THROUGHPUT_PAYLOAD_BYTES,
        }
    }

    /// The discovery datagram for the analyzer's service name.
    pub fn create_matter_discovery_message(&self) -> (r: Result<Vec<u8>, CodecError>)
        ensures
            match r {
                Ok(v) => v@ == discovery_query(encode_utf8(self.service_name@))
                    && v@.len() <= MAX_MESSAGE_LEN,
                Err(e) => e == CodecError::TooLong
                    && discovery_query(encode_utf8(self.service_name@)).len() > MAX_MESSAGE_LEN,
            },
    {
        DiscoveryMessageCodec::encode(self.service_name.as_str())
    }

    /// The transport metrics of a run whose discovery send had `udp` as its
    /// outcome, whose TCP connect had `tcp`, and whose network figures are
    /// `network`.
    pub fn analyze_transport_layer(
        &self,
        udp: &ProbeOutcome,
        tcp: &ProbeOutcome,
        network: &NetworkPerformance,
    ) -> (r: TransportMetrics)
        ensures
            r.protocol@ == "Real_Matter_Dual_Stack"@,
            r.udp_discovery_time_us == udp.elapsed_us,
            r.tcp_connection_time_us == tcp.elapsed_us,
            r.udp_overhead_bytes == udp_overhead(*udp),
            r.tcp_overhead_bytes == TCP_HEADER_BYTES + TCP_SESSION_OVERHEAD_BYTES,
            r.total_transport_overhead == r.udp_overhead_bytes + r.tcp_overhead_bytes,
            r.multi_transport_support,
            r.udp_success == udp.success,
            r.tcp_success == tcp.success,
            r.efficiency_score == transport_score(*udp, *tcp, *network),
            r.real_network_performance == *network,
            r.connection_statistics == estimated_connection_statistics(),
            SCORE_FLOOR <= r.efficiency_score <= SCORE_SCALE,
            r.timing == TimingSource::Measured,
    {
        let udp_overhead = udp_overhead_bytes(udp);
        let tcp_overhead = TCP_HEADER_BYTES + TCP_SESSION_OVERHEAD_BYTES;
        TransportMetrics {
            protocol: "Real_Matter_Dual_Stack".to_owned(),
            udp_discovery_time_us: udp.elapsed_us,
            tcp_connection_time_us: tcp.elapsed_us,
            udp_overhead_bytes: udp_overhead,
            tcp_overhead_bytes: tcp_overhead,
            total_transport_overhead: udp_overhead + tcp_overhead,
            multi_transport_support: true,
            udp_success: udp.success,
            tcp_success: tcp.success,
            efficiency_score: calculate_transport_efficiency(udp, tcp, network),
            real_network_performance: *network,
            connection_statistics: ConnectionStatistics::estimated(),
            timing: TimingSource::Measured,
        }
    }
}

/// The discovery message depends on the service name alone: two analyzers
/// with the same service name build the same bytes, and each is at most
/// `MAX_MESSAGE_LEN` bytes long when it is built at all.
pub proof fn lemma_same_service_name_same_message(a: RealTransportAnalyzer, b: RealTransportAnalyzer)
    requires
        a.service_name@ == b.service_name@,
    ensures
        discovery_query(encode_utf8(a.service_name@)) == discovery_query(encode_utf8(b.service_name@)),
{
}

} // verus!
