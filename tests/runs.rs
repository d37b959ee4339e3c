use matter_analyzer::{
    Advice, AggregateReport, AnalysisOrchestrator, ApplicationAnalyzer, IoResult, Layer,
    LayerMetrics, LayerOutcome, NetworkPerformance, OutcomeRejected, Phase, PresentationAnalyzer,
    RealTransportAnalyzer, RecommendationEngine, RunConfig, SessionAnalyzer, SCORE_FLOOR,
    SCORE_SCALE,
};

fn transport_record(udp_result: IoResult) -> LayerMetrics {
    let a = RealTransportAnalyzer::new();
    let udp = a.probe.send_udp(36, udp_result, 150);
    let tcp = a.probe.connect_tcp(IoResult::Completed(0), 300);
    let net = NetworkPerformance::from_measurements(0, 60);
    LayerMetrics::Transport(a.analyze_transport_layer(&udp, &tcp, &net))
}

fn session_record(elapsed_us: u64) -> LayerMetrics {
    LayerMetrics::Session(SessionAnalyzer::new().analyze_layer_5(elapsed_us))
}

fn presentation_record(elapsed_us: u64) -> LayerMetrics {
    LayerMetrics::Presentation(PresentationAnalyzer::new().analyze_layer_6(elapsed_us))
}

fn application_record(elapsed_us: u64) -> LayerMetrics {
    LayerMetrics::Application(ApplicationAnalyzer::new().analyze_layer_7(elapsed_us))
}

fn loopback_run(o: &mut AnalysisOrchestrator) -> Option<AggregateReport> {
    assert_eq!(o.start(), Phase::Running(Layer::Transport));
    let steps = [
        (transport_record(IoResult::Failed), 101_000u64),
        (session_record(450_500), 450_700),
        (presentation_record(25_200), 25_300),
        (application_record(80_300), 80_400),
    ];
    for (record, elapsed) in steps {
        o.on_layer_outcome(LayerOutcome::Finished(record), elapsed).unwrap();
    }
    assert_eq!(o.phase(), Phase::Aggregating);
    o.finish("2025-01-07T12:00:00Z".to_string(), 660_000)
}

#[test]
fn loopback_run_completes_with_bounded_score() {
    let mut o = AnalysisOrchestrator::new(RunConfig::from_duration_secs(5));
    assert_eq!(o.config().run_budget_us, 5_000_000);
    let report = loopback_run(&mut o).unwrap();
    assert_eq!(o.phase(), Phase::Done);
    assert!(!report.transport.udp_success);
    assert!(report.overall_efficiency >= SCORE_FLOOR && report.overall_efficiency <= SCORE_SCALE);
    assert_eq!(report.transport.efficiency_score, 3_000);
    assert_eq!(report.session.session_efficiency, 3_571);
    assert_eq!(report.presentation.encoding_efficiency, 7_480);
    assert_eq!(report.application.application_efficiency, 7_974);
    assert_eq!(report.overall_efficiency, 5_506);
    assert_eq!(report.total_overhead_bytes, 728);
    assert_eq!(report.total_latency_us, 556_450);
    assert_eq!(report.total_duration_us, 660_000);
    assert_eq!(report.timestamp, "2025-01-07T12:00:00Z");
    assert_eq!(report.network, report.transport.real_network_performance);
    let expected: Vec<String> = [
        Advice::TransportConfig,
        Advice::PreProvisioning,
        Advice::DiscoveryTuning,
        Advice::SimulatedTimings,
        Advice::ConfirmOnTarget,
    ]
    .iter()
    .map(|a| a.text())
    .collect();
    assert_eq!(report.recommendations, expected);
}

#[test]
fn every_score_of_a_report_is_in_range() {
    let mut o = AnalysisOrchestrator::new(RunConfig::default_run());
    let r = loopback_run(&mut o).unwrap();
    for s in [
        r.transport.efficiency_score,
        r.session.session_efficiency,
        r.presentation.encoding_efficiency,
        r.application.application_efficiency,
        r.overall_efficiency,
    ] {
        assert!(s >= SCORE_FLOOR && s <= SCORE_SCALE);
    }
    assert!(r.application.interoperability_score <= SCORE_SCALE);
    assert!(r.network.packet_loss_ppm <= 1_000_000);
}

#[test]
fn session_timeout_fails_the_run() {
    let mut o = AnalysisOrchestrator::new(RunConfig::new(5_000_000, 1_000));
    o.start();
    assert_eq!(o.wait_limit_us(), 1_000);
    assert_eq!(
        o.on_layer_outcome(LayerOutcome::Finished(transport_record(IoResult::Failed)), 800),
        Ok(Phase::Running(Layer::Session))
    );
    assert_eq!(o.on_layer_outcome(LayerOutcome::TimedOut, 1_000), Ok(Phase::Failed(Layer::Session)));
    assert_eq!(o.phase(), Phase::Failed(Layer::Session));
    assert!(o.finish(String::new(), 0).is_none());
    assert_eq!(o.phase(), Phase::Failed(Layer::Session));
}

#[test]
fn slow_session_step_fails_the_run() {
    let mut o = AnalysisOrchestrator::new(RunConfig::new(5_000_000, 1_000));
    o.start();
    o.on_layer_outcome(LayerOutcome::Finished(transport_record(IoResult::Failed)), 800).unwrap();
    assert_eq!(
        o.on_layer_outcome(LayerOutcome::Finished(session_record(450_000)), 450_000),
        Ok(Phase::Failed(Layer::Session))
    );
    assert!(o.finish(String::new(), 0).is_none());
    assert_eq!(
        o.on_layer_outcome(LayerOutcome::Finished(presentation_record(1)), 1),
        Err(OutcomeRejected::NotRunning)
    );
}

#[test]
fn run_budget_bounds_later_steps() {
    let mut o = AnalysisOrchestrator::new(RunConfig::new(1_000, 10_000));
    o.start();
    assert_eq!(o.wait_limit_us(), 1_000);
    o.on_layer_outcome(LayerOutcome::Finished(transport_record(IoResult::Failed)), 600).unwrap();
    assert_eq!(o.wait_limit_us(), 400);
    assert_eq!(
        o.on_layer_outcome(LayerOutcome::Finished(session_record(500)), 500),
        Ok(Phase::Failed(Layer::Session))
    );
}

#[test]
fn outcomes_out_of_turn_are_rejected() {
    let mut o = AnalysisOrchestrator::new(RunConfig::default_run());
    assert_eq!(
        o.on_layer_outcome(LayerOutcome::Finished(transport_record(IoResult::Failed)), 1),
        Err(OutcomeRejected::NotRunning)
    );
    assert!(o.finish(String::new(), 0).is_none());
    assert_eq!(o.phase(), Phase::Idle);
    o.start();
    assert_eq!(
        o.on_layer_outcome(LayerOutcome::Finished(session_record(1)), 1),
        Err(OutcomeRejected::WrongLayer)
    );
    assert_eq!(o.phase(), Phase::Running(Layer::Transport));
    assert_eq!(o.start(), Phase::Running(Layer::Transport));
}

#[test]
fn records_with_scores_out_of_range_are_rejected() {
    let mut o = AnalysisOrchestrator::new(RunConfig::default_run());
    o.start();
    let mut bad = SessionAnalyzer::new().analyze_layer_5(1);
    bad.session_efficiency = 20_000;
    o.on_layer_outcome(LayerOutcome::Finished(transport_record(IoResult::Failed)), 1).unwrap();
    assert_eq!(
        o.on_layer_outcome(LayerOutcome::Finished(LayerMetrics::Session(bad)), 1),
        Err(OutcomeRejected::InvalidMetrics)
    );
    assert_eq!(o.phase(), Phase::Running(Layer::Session));
    assert!(!LayerMetrics::Session({
        let mut m = SessionAnalyzer::new().analyze_layer_5(1);
        m.session_efficiency = 100;
        m
    })
    .is_valid());
    assert!(session_record(1).is_valid());
    let mut lossy = match transport_record(IoResult::Failed) {
        LayerMetrics::Transport(m) => m,
        _ => unreachable!(),
    };
    lossy.real_network_performance.packet_loss_ppm = 2_000_000;
    let mut fresh = AnalysisOrchestrator::new(RunConfig::default_run());
    fresh.start();
    assert_eq!(
        fresh.on_layer_outcome(LayerOutcome::Finished(LayerMetrics::Transport(lossy)), 1),
        Err(OutcomeRejected::InvalidMetrics)
    );
    assert_eq!(fresh.phase(), Phase::Running(Layer::Transport));
    assert_eq!(session_record(1).layer(), Layer::Session);
}

#[test]
fn duration_in_seconds_saturates() {
    let c = RunConfig::from_duration_secs(u64::MAX);
    assert_eq!(c.run_budget_us, u64::MAX);
    assert_eq!(c.layer_timeout_us, u64::MAX);
    assert_eq!(RunConfig::default_run().run_budget_us, 60_000_000);
}

#[test]
fn slow_commissioning_gets_only_preprovisioning_advice() {
    let r = RecommendationEngine::recommend(9_000, 150_000, 10_000);
    assert_eq!(
        r,
        vec![Advice::PreProvisioning.text(), Advice::SimulatedTimings.text(), Advice::ConfirmOnTarget.text()]
    );
}

#[test]
fn every_threshold_adds_its_advice_in_order() {
    let r = RecommendationEngine::recommend(6_999, 100_001, 30_001);
    assert_eq!(r.len(), 5);
    assert_eq!(r[0], Advice::TransportConfig.text());
    assert_eq!(r[1], Advice::PreProvisioning.text());
    assert_eq!(r[2], Advice::DiscoveryTuning.text());
    let quiet = RecommendationEngine::recommend(7_000, 100_000, 30_000);
    assert_eq!(quiet, vec![Advice::SimulatedTimings.text(), Advice::ConfirmOnTarget.text()]);
    assert_eq!(RecommendationEngine::recommend(7_000, 100_000, 30_000), quiet);
}
