use matter_analyzer::{
    calculate_transport_efficiency, layer_score, time_factor, transport_quality, IoResult,
    NetworkPerformance, SocketProbe, SCORE_FLOOR, SCORE_SCALE,
};

#[test]
fn time_factor_values() {
    assert_eq!(time_factor(450_000, 1_000_000, 5_000), 5_500);
    assert_eq!(time_factor(0, 1_000_000, 5_000), 10_000);
    assert_eq!(time_factor(900_000, 1_000_000, 5_000), 5_000);
    assert_eq!(time_factor(u128::MAX, 1, 5_000), 5_000);
}

#[test]
fn layer_score_values() {
    assert_eq!(layer_score(6_500, 5_500, SCORE_SCALE), 3_575);
    assert_eq!(layer_score(10_000, 10_000, 10_000), SCORE_SCALE);
    assert_eq!(layer_score(1_000, 10_000, 10_000), SCORE_FLOOR);
    assert_eq!(layer_score(u32::MAX, u32::MAX, u32::MAX), SCORE_SCALE);
}

#[test]
fn transport_quality_values() {
    assert_eq!(transport_quality(50, 1_000), 9_495);
    assert_eq!(transport_quality(0, 0), 10_000);
    assert_eq!(transport_quality(10_000_000, 0), 7_000);
    assert_eq!(transport_quality(0, 1_000_000), 0);
}

fn network(rtt_us: u64, loss_ppm: u32) -> NetworkPerformance {
    NetworkPerformance {
        udp_throughput_kbps: 100_000,
        tcp_throughput_kbps: 95_000,
        packet_loss_ppm: loss_ppm,
        round_trip_time_us: rtt_us,
        concurrent_connections: 10,
    }
}

#[test]
fn transport_efficiency_value() {
    let probe = SocketProbe::new(1_000_000);
    let udp = probe.send_udp(36, IoResult::Completed(36), 100);
    let tcp = probe.connect_tcp(IoResult::Completed(0), 200);
    assert_eq!(calculate_transport_efficiency(&udp, &tcp, &network(50, 1_000)), 6_939);
}

#[test]
fn transport_efficiency_is_floored() {
    let probe = SocketProbe::new(1_000_000);
    let udp = probe.send_udp(36, IoResult::Failed, 100);
    let tcp = probe.connect_tcp(IoResult::Completed(0), 200);
    let mut net = network(50, 1_000);
    net.udp_throughput_kbps = 0;
    assert_eq!(calculate_transport_efficiency(&udp, &tcp, &net), SCORE_FLOOR);
}

#[test]
fn transport_efficiency_does_not_grow_with_rtt_or_loss() {
    let probe = SocketProbe::new(1_000_000);
    let udp = probe.send_udp(36, IoResult::Completed(36), 100);
    let tcp = probe.connect_tcp(IoResult::Completed(0), 200);
    let mut last = u32::MAX;
    for rtt in [0u64, 50, 1_000, 10_000, 30_000, 100_000] {
        let s = calculate_transport_efficiency(&udp, &tcp, &network(rtt, 1_000));
        assert!(s <= last);
        last = s;
    }
    let mut last = u32::MAX;
    for loss in [0u32, 100, 1_000, 5_000, 10_000, 1_000_000] {
        let s = calculate_transport_efficiency(&udp, &tcp, &network(50, loss));
        assert!(s <= last);
        last = s;
    }
    assert!(calculate_transport_efficiency(&udp, &tcp, &network(20_000, 1_000))
        < calculate_transport_efficiency(&udp, &tcp, &network(50, 1_000)));
}
