use matter_analyzer::{
    ApplicationAnalyzer, IoResult, Level, NetworkPerformance, PresentationAnalyzer,
    RealTransportAnalyzer, SessionAnalyzer, TimingSource,
};

#[test]
fn session_analyzer_defaults_and_metrics() {
    let analyzer = SessionAnalyzer::new();
    assert_eq!(analyzer.simulated_delay_us, 450_000);
    let m = analyzer.analyze_layer_5(450_000);
    assert_eq!(m.session_type, "Matter_Commissioning");
    assert_eq!(m.commissioning_time_us, 450_000);
    assert_eq!(m.session_complexity, Level::High);
    assert_eq!(m.security_level, Level::High);
    assert!(m.multi_admin_support);
    assert_eq!(m.session_overhead_bytes, 342);
    assert_eq!(m.certificate_size_bytes, 350);
    assert_eq!(m.session_efficiency, 3_575);
    assert_eq!(m.timing, TimingSource::Simulated);
}

#[test]
fn session_score_drops_with_time_down_to_the_floor() {
    let analyzer = SessionAnalyzer::with_simulated_delay(10_000);
    assert_eq!(analyzer.simulated_delay_us, 10_000);
    assert_eq!(analyzer.analyze_layer_5(0).session_efficiency, 6_500);
    assert_eq!(analyzer.analyze_layer_5(10_000_000).session_efficiency, 3_250);
}

#[test]
fn presentation_analyzer_defaults_and_metrics() {
    let analyzer = PresentationAnalyzer::new();
    assert_eq!(analyzer.simulated_delay_us, 25_000);
    let m = analyzer.analyze_layer_6(25_000);
    assert_eq!(m.encoding_format, "Matter_Cluster_TLV");
    assert_eq!(m.encoding_time_us, 25_000);
    assert_eq!(m.raw_data_size_bytes, 156);
    assert_eq!(m.encoded_size_bytes, 179);
    assert_eq!(m.compression_ratio, 11_474);
    assert_eq!(m.encoding_overhead_bytes, 23);
    assert_eq!(m.encoding_efficiency, 7_500);
    assert!(m.cluster_support);
    assert_eq!(m.timing, TimingSource::Simulated);
    assert_eq!(PresentationAnalyzer::with_simulated_delay(7).simulated_delay_us, 7);
}

#[test]
fn application_analyzer_defaults_and_metrics() {
    let analyzer = ApplicationAnalyzer::new();
    assert_eq!(analyzer.simulated_delay_us, 80_000);
    let m = analyzer.analyze_layer_7(80_000);
    assert_eq!(m.application_protocol, "Matter");
    assert_eq!(m.cluster_model, "Matter_Application_Clusters");
    assert_eq!(m.supported_clusters.len(), 10);
    assert_eq!(m.supported_clusters[0], "Basic_Information_0x0028");
    assert_eq!(m.supported_clusters[3], "OnOff_0x0006");
    assert_eq!(m.supported_clusters[9], "Door_Lock_0x0101");
    assert_eq!(m.clusters_discovered, 10);
    assert_eq!(m.discovery_time_us, 80_000);
    assert_eq!(m.interoperability_score, 9_500);
    assert_eq!(m.application_overhead_bytes, 267);
    assert_eq!(m.application_efficiency, 7_980);
    assert_eq!(m.timing, TimingSource::Simulated);
    assert_eq!(ApplicationAnalyzer::with_simulated_delay(9).simulated_delay_us, 9);
}

#[test]
fn transport_analyzer_defaults() {
    let a = RealTransportAnalyzer::new();
    assert_eq!(a.service_name, "_matter._tcp.local.");
    assert_eq!((a.discovery_target.address, a.discovery_target.port), (0xe000_00fb, 5353));
    assert_eq!((a.throughput_target.address, a.throughput_target.port), (0x7f00_0001, 12345));
    assert_eq!((a.rtt_target.address, a.rtt_target.port), (0x7f00_0001, 12346));
    assert_eq!(a.probe.timeout_us, 1_000_000);
    assert_eq!(a.throughput_budget_us, 100_000);
    assert_eq!(a.throughput_payload_bytes, 1024);
}

#[test]
fn transport_metrics_from_outcomes() {
    let a = RealTransportAnalyzer::new();
    let udp = a.probe.send_udp(36, IoResult::Failed, 100);
    let tcp = a.probe.connect_tcp(IoResult::Completed(0), 200);
    let net = NetworkPerformance::from_measurements(100_000, 50);
    let m = a.analyze_transport_layer(&udp, &tcp, &net);
    assert_eq!(m.protocol, "Real_Matter_Dual_Stack");
    assert_eq!(m.udp_discovery_time_us, 100);
    assert_eq!(m.tcp_connection_time_us, 200);
    assert_eq!(m.udp_overhead_bytes, 44);
    assert_eq!(m.tcp_overhead_bytes, 52);
    assert_eq!(m.total_transport_overhead, 96);
    assert!(m.multi_transport_support);
    assert!(!m.udp_success);
    assert!(m.tcp_success);
    // 0.75 × 0.8 × 0.975 = 0.585, × 0.9997 × 0.9495
    assert_eq!(m.efficiency_score, 5_552);
    assert_eq!(m.real_network_performance, net);
    assert_eq!(m.connection_statistics.successful_connections, 95);
    assert_eq!(m.connection_statistics.failed_connections, 3);
    assert_eq!(m.connection_statistics.timeout_connections, 2);
    assert_eq!(m.connection_statistics.average_handshake_time_us, 8_500);
    assert_eq!(m.timing, TimingSource::Measured);
}
