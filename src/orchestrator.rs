//! The run orchestrator: the four layer steps in order, each under its own
//! bound, folded into one report.
//!
//! Phases: `Idle → Running(Transport) → Running(Session) →
//! Running(Presentation) → Running(Application) → Aggregating → Done`. A
//! layer step that times out, or runs past its bound, ends the run in
//! `Failed(layer)`, from which nothing leads on: a later layer depends on
//! what the earlier ones set up, so no layer is skipped and no partial
//! report is made.
//!
//! The caller runs each layer step (sockets, sleeps, the clock) and hands
//! the outcome over; the orchestrator decides what comes next.

use vstd::prelude::*;
use crate::application::{ApplicationMetrics, texts};
use crate::network::NetworkPerformance;
use crate::presentation::PresentationMetrics;
use crate::recommend::{RecommendationEngine, recommendation_texts};
use crate::score::{SCORE_FLOOR, SCORE_SCALE};
use crate::session::SessionMetrics;
use crate::transport::TransportMetrics;

verus! {

/// The default run duration (60 s).
pub const DEFAULT_RUN_BUDGET_US: u64 = 60_000_000;

/// One layer of the stack.
#[derive(Debug, Clone, Copy, PartialEq, Eq, Structural)]
pub enum Layer {
    Transport,
    Session,
    Presentation,
    Application,
}

/// Where a run stands.
#[derive(Debug, Clone, Copy, PartialEq, Eq, Structural)]
pub enum Phase {
    Idle,
    Running(Layer),
    Aggregating,
    Done,
    Failed(Layer),
}

/// The phase that follows a completed step of layer `l`.
pub open spec fn next_phase(l: Layer) -> Phase {
    match l {
        Layer::Transport => Phase::Running(Layer::Session),
        Layer::Session => Phase::Running(Layer::Presentation),
        Layer::Presentation => Phase::Running(Layer::Application),
        Layer::Application => Phase::Aggregating,
    }
}

/// The metrics record of one layer.
#[derive(Debug)]
pub enum LayerMetrics {
    Transport(TransportMetrics),
    Session(SessionMetrics),
    Presentation(PresentationMetrics),
    Application(ApplicationMetrics),
}

/// A score that lies in `[SCORE_FLOOR, SCORE_SCALE]`.
pub open spec fn score_in_range(s: u32) -> bool {
    SCORE_FLOOR <= s <= SCORE_SCALE
}

impl LayerMetrics {
    /// The layer the record belongs to.
    pub open spec fn layer_spec(&self) -> Layer {
        match self {
            LayerMetrics::Transport(_) => Layer::Transport,
            LayerMetrics::Session(_) => Layer::Session,
            LayerMetrics::Presentation(_) => Layer::Presentation,
            LayerMetrics::Application(_) => Layer::Application,
        }
    }

    /// Whether the record's scores lie in range.
    pub open spec fn valid(&self) -> bool {
        match self {
            LayerMetrics::Transport(m) => score_in_range(m.efficiency_score)
                && m.real_network_performance.valid(),
            LayerMetrics::Session(m) => score_in_range(m.session_efficiency),
            LayerMetrics::Presentation(m) => score_in_range(m.encoding_efficiency),
            LayerMetrics::Application(m) => score_in_range(m.application_efficiency)
                && m.interoperability_score <= SCORE_SCALE,
        }
    }

    /// The layer the record belongs to.
    #[verifier::when_used_as_spec(layer_spec)]
    pub fn layer(&self) -> (r: Layer)
        ensures
            r == self.layer_spec(),
    {
        match self {
            LayerMetrics::Transport(_) => Layer::Transport,
            LayerMetrics::Session(_) => Layer::Session,
            LayerMetrics::Presentation(_) => Layer::Presentation,
            LayerMetrics::Application(_) => Layer::Application,
        }
    }

    /// Whether the record's scores lie in range.
    pub fn is_valid(&self) -> (r: bool)
        ensures
            r == self.valid(),
    {
        match self {
            LayerMetrics::Transport(m) => SCORE_FLOOR <= m.efficiency_score && m.efficiency_score <= SCORE_SCALE
                && m.real_network_performance.is_valid(),
            LayerMetrics::Session(m) => SCORE_FLOOR <= m.session_efficiency && m.session_efficiency <= SCORE_SCALE,
            LayerMetrics::Presentation(m) => SCORE_FLOOR <= m.encoding_efficiency && m.encoding_efficiency <= SCORE_SCALE,
            LayerMetrics::Application(m) => SCORE_FLOOR <= m.application_efficiency
                && m.application_efficiency <= SCORE_SCALE
                && m.interoperability_score <= SCORE_SCALE,
        }
    }
}

/// How a layer step ended.
#[derive(Debug)]
pub enum LayerOutcome {
    /// The step completed with this record.
    Finished(LayerMetrics),
    /// The step's bounded wait ran out.
    TimedOut,
}

/// Why an outcome was not taken.
#[derive(Debug, Clone, Copy, PartialEq, Eq, Structural)]
pub enum OutcomeRejected {
    /// No layer step is running.
    NotRunning,
    /// The record belongs to another layer than the running one.
    WrongLayer,
    /// A score of the record lies out of range.
    InvalidMetrics,
}

/// The bounds of a run.
#[derive(Debug, Clone, Copy, PartialEq, Eq, Structural)]
pub struct RunConfig {
    /// The bound on each layer step.
    pub layer_timeout_us: u64,
    /// The bound on the whole run.
    pub run_budget_us: u64,
}

impl RunConfig {
    /// A run of `run_budget_us` whose steps are each bounded by
    /// `layer_timeout_us`.
    pub fn new(run_budget_us: u64, layer_timeout_us: u64) -> (r: RunConfig)
        ensures
            r == (RunConfig { layer_timeout_us, run_budget_us }),
    {
        RunConfig { layer_timeout_us, run_budget_us }
    }

    /// A run of `secs` seconds (at most `u64::MAX` microseconds) whose
    /// steps are bounded by the run's duration alone.
    pub fn from_duration_secs(secs: u64) -> (r: RunConfig)
        ensures
            r.run_budget_us == (if secs * 1_000_000 <= u64::MAX { secs * 1_000_000 } else { u64::MAX as int }),
            r.layer_timeout_us == r.run_budget_us,
    {
        let budget: u64 = if secs <= u64::MAX / 1_000_000 { secs * 1_000_000 } else { u64::MAX };
        RunConfig { layer_timeout_us: budget, run_budget_us: budget }
    }

    /// The default run of 60 s.
    pub fn default_run() -> (r: RunConfig)
        ensures
            r == (RunConfig { layer_timeout_us: DEFAULT_RUN_BUDGET_US, run_budget_us: DEFAULT_RUN_BUDGET_US }),
    {
        RunConfig { layer_timeout_us: DEFAULT_RUN_BUDGET_US, run_budget_us: DEFAULT_RUN_BUDGET_US }
    }
}

/// The final report of a run.
#[derive(Debug)]
pub struct AggregateReport {
    pub transport: TransportMetrics,
    pub session: SessionMetrics,
    pub presentation: PresentationMetrics,
    pub application: ApplicationMetrics,
    pub network: NetworkPerformance,
    pub timestamp: String,
    /// Wall-clock duration of the run, in microseconds.
    pub total_duration_us: u64,
    /// Mean of the four layer scores, in ten-thousandths.
    pub overall_efficiency: u32,
    /// Sum of the layers' byte overheads.
    pub total_overhead_bytes: u128,
    /// Sum of the layers' latency figures, in microseconds.
    pub total_latency_us: u128,
    pub recommendations: Vec<String>,
}

/// The mean of four layer scores, rounded down.
pub open spec fn overall_score(t: int, s: int, p: int, a: int) -> int {
    (t + s + p + a) / 4
}

impl AggregateReport {
    /// Every score of the report lies in `[SCORE_FLOOR, SCORE_SCALE]`,
    /// within `[0, 1.0]`, and its loss rate lies in `[0, 1]`.
    pub open spec fn figures_in_range(&self) -> bool {
        &&& self.network.valid()
        &&& self.transport.real_network_performance.valid()
        &&& score_in_range(self.transport.efficiency_score)
        &&& score_in_range(self.session.session_efficiency)
        &&& score_in_range(self.presentation.encoding_efficiency)
        &&& score_in_range(self.application.application_efficiency)
        &&& self.application.interoperability_score <= SCORE_SCALE
        &&& score_in_range(self.overall_efficiency)
    }

    /// The report is built from these four records, timestamp and duration.
    pub open spec fn built_from(
        &self,
        transport: TransportMetrics,
        session: SessionMetrics,
        presentation: PresentationMetrics,
        application: ApplicationMetrics,
        timestamp: String,
        total_duration_us: u64,
    ) -> bool {
        &&& self.transport == transport
        &&& self.session == session
        &&& self.presentation == presentation
        &&& self.application == application
        &&& self.network == transport.real_network_performance
        &&& self.timestamp == timestamp
        &&& self.total_duration_us == total_duration_us
        &&& self.overall_efficiency == overall_score(
            transport.efficiency_score as int,
            session.session_efficiency as int,
            presentation.encoding_efficiency as int,
            application.application_efficiency as int,
        )
        &&& self.total_overhead_bytes == transport.total_transport_overhead
            + session.session_overhead_bytes + presentation.encoding_overhead_bytes
            + application.application_overhead_bytes
        &&& self.total_latency_us == transport.udp_discovery_time_us + transport.tcp_connection_time_us
            + session.commissioning_time_us + presentation.encoding_time_us + application.discovery_time_us
        &&& texts(self.recommendations@) == recommendation_texts(
            self.overall_efficiency as int,
            session.commissioning_time_us as int,
            application.discovery_time_us as int,
        )
    }
}

/// What a run holds: its bounds, its phase, the time its completed steps
/// took, and the records gathered so far.
pub struct RunState {
    pub config: RunConfig,
    pub phase: Phase,
    pub spent_us: u64,
    pub transport: Option<TransportMetrics>,
    pub session: Option<SessionMetrics>,
    pub presentation: Option<PresentationMetrics>,
    pub application: Option<ApplicationMetrics>,
}

impl RunState {
    /// The number of layers whose records a run in `phase` has gathered.
    pub open spec fn layers_done(self) -> int {
        match self.phase {
            Phase::Idle => 0,
            Phase::Running(Layer::Transport) => 0,
            Phase::Running(Layer::Session) => 1,
            Phase::Running(Layer::Presentation) => 2,
            Phase::Running(Layer::Application) => 3,
            _ => 4,
        }
    }

    /// The run's invariant: the time spent stays within the budget, and
    /// before the report is made, exactly the layers already completed have
    /// their records, each with its scores in range.
    pub open spec fn wf(self) -> bool {
        &&& self.spent_us <= self.config.run_budget_us
        &&& (self.phase is Idle || self.phase is Running || self.phase is Aggregating) ==> {
            &&& (self.transport is Some <==> self.layers_done() >= 1)
            &&& (self.session is Some <==> self.layers_done() >= 2)
            &&& (self.presentation is Some <==> self.layers_done() >= 3)
            &&& (self.application is Some <==> self.layers_done() >= 4)
            &&& self.transport is Some ==> LayerMetrics::Transport(self.transport->Some_0).valid()
            &&& self.session is Some ==> LayerMetrics::Session(self.session->Some_0).valid()
            &&& self.presentation is Some ==> LayerMetrics::Presentation(self.presentation->Some_0).valid()
            &&& self.application is Some ==> LayerMetrics::Application(self.application->Some_0).valid()
        }
    }

    /// How long the running step may take: its own bound, and no more than
    /// what is left of the run's budget.
    pub open spec fn wait_limit(self) -> int {
        let left = self.config.run_budget_us - self.spent_us;
        if self.config.layer_timeout_us < left { self.config.layer_timeout_us as int } else { left }
    }

    /// The state with `m` stored as its layer's record.
    pub open spec fn with_record(self, m: LayerMetrics) -> RunState {
        match m {
            LayerMetrics::Transport(t) => RunState { transport: Some(t), ..self },
            LayerMetrics::Session(t) => RunState { session: Some(t), ..self },
            LayerMetrics::Presentation(t) => RunState { presentation: Some(t), ..self },
            LayerMetrics::Application(t) => RunState { application: Some(t), ..self },
        }
    }
}

/// A run that has reached `Aggregating` holds exactly one record for each
/// of the four layers, every record's scores lie in
/// `[SCORE_FLOOR, SCORE_SCALE]`, within `[0, 1.0]`, and its loss rate lies
/// in `[0, 1]`.
pub proof fn lemma_aggregating_run_is_complete(s: RunState)
    requires
        s.wf(),
        s.phase is Aggregating,
    ensures
        s.transport is Some && score_in_range(s.transport->Some_0.efficiency_score),
        s.transport is Some && s.transport->Some_0.real_network_performance.valid(),
        s.session is Some && score_in_range(s.session->Some_0.session_efficiency),
        s.presentation is Some && score_in_range(s.presentation->Some_0.encoding_efficiency),
        s.application is Some && score_in_range(s.application->Some_0.application_efficiency),
        s.application is Some && s.application->Some_0.interoperability_score <= SCORE_SCALE,
{
}

/// Sequences the four layer steps of one run and builds its report.
pub struct AnalysisOrchestrator {
    config: RunConfig,
    phase: Phase,
    spent_us: u64,
    transport: Option<TransportMetrics>,
    session: Option<SessionMetrics>,
    presentation: Option<PresentationMetrics>,
    application: Option<ApplicationMetrics>,
}

impl View for AnalysisOrchestrator {
    type V = RunState;

    closed spec fn view(&self) -> RunState {
        RunState {
            config: self.config,
            phase: self.phase,
            spent_us: self.spent_us,
            transport: self.transport,
            session: self.session,
            presentation: self.presentation,
            application: self.application,
        }
    }
}

impl AnalysisOrchestrator {
    /// An idle run with the bounds `config`.
    pub fn new(config: RunConfig) -> (r: AnalysisOrchestrator)
        ensures
            r@.wf(),
            r@ == (RunState {
                config,
                phase: Phase::Idle,
                spent_us: 0,
                transport: None,
                session: None,
                presentation: None,
                application: None,
            }),
    {
        AnalysisOrchestrator {
            config,
            phase: Phase::Idle,
            spent_us: 0,
            transport: None,
            session: None,
            presentation: None,
            application: None,
        }
    }

    /// Where the run stands.
    pub fn phase(&self) -> (r: Phase)
        ensures
            r == self@.phase,
    {
        self.phase
    }

    /// The bounds of the run.
    pub fn config(&self) -> (r: RunConfig)
        ensures
            r == self@.config,
    {
        self.config
    }

    /// Starts an idle run with its transport step; any other run is left
    /// as it is. Returns the phase after the call.
    pub fn start(&mut self) -> (r: Phase)
        requires
            old(self)@.wf(),
        ensures
            final(self)@.wf(),
            r == final(self)@.phase,
            old(self)@.phase is Idle ==> final(self)@ == (RunState { phase: Phase::Running(Layer::Transport), ..old(self)@ }),
            !(old(self)@.phase is Idle) ==> final(self)@ == old(self)@,
    {
        if let Phase::Idle = self.phase {
            self.phase = Phase::Running(Layer::Transport);
        }
        self.phase
    }

    /// How long the running step may take, in microseconds.
    pub fn wait_limit_us(&self) -> (r: u64)
        requires
            self@.wf(),
        ensures
            r == self@.wait_limit(),
    {
        let left = self.config.run_budget_us - self.spent_us;
        if self.config.layer_timeout_us < left { self.config.layer_timeout_us } else { left }
    }

    /// Takes the outcome of the running layer step, which took
    /// `elapsed_us`. A timeout, or a step that ran past `wait_limit`, ends
    /// the run in `Failed` of that layer. A record of the running layer
    /// with its scores in range is stored and the run moves on. Anything
    /// else is rejected and leaves the run as it was.
    pub fn on_layer_outcome(&mut self, outcome: LayerOutcome, elapsed_us: u64) -> (r: Result<Phase, OutcomeRejected>)
        requires
            old(self)@.wf(),
        ensures
            final(self)@.wf(),
            match old(self)@.phase {
                Phase::Running(l) => match outcome {
                    LayerOutcome::TimedOut => r == Ok::<Phase, OutcomeRejected>(Phase::Failed(l))
                        && final(self)@ == (RunState { phase: Phase::Failed(l), ..old(self)@ }),
                    LayerOutcome::Finished(m) => if m.layer() != l {
                        r == Err::<Phase, OutcomeRejected>(OutcomeRejected::WrongLayer) && final(self)@ == old(self)@
                    } else if !m.valid() {
                        r == Err::<Phase, OutcomeRejected>(OutcomeRejected::InvalidMetrics) && final(self)@ == old(self)@
                    } else if elapsed_us > old(self)@.wait_limit() {
                        r == Ok::<Phase, OutcomeRejected>(Phase::Failed(l))
                            && final(self)@ == (RunState { phase: Phase::Failed(l), ..old(self)@ })
                    } else {
                        r == Ok::<Phase, OutcomeRejected>(next_phase(l))
                            && final(self)@ == (RunState {
                                phase: next_phase(l),
                                spent_us: (old(self)@.spent_us + elapsed_us) as u64,
                                ..old(self)@.with_record(m)
                            })
                    },
                },
                _ => r == Err::<Phase, OutcomeRejected>(OutcomeRejected::NotRunning) && final(self)@ == old(self)@,
            },
    {
        let l = match self.phase {
            Phase::Running(l) => l,
            _ => {
                return Err(OutcomeRejected::NotRunning);
            },
        };
        match outcome {
            LayerOutcome::TimedOut => {
                self.phase = Phase::Failed(l);
                Ok(self.phase)
            },
            LayerOutcome::Finished(m) => {
                if m.layer() != l {
                    return Err(OutcomeRejected::WrongLayer);
                }
                if !m.is_valid() {
                    return Err(OutcomeRejected::InvalidMetrics);
                }
                if elapsed_us > self.wait_limit_us() {
                    self.phase = Phase::Failed(l);
                    return Ok(self.phase);
                }
                self.spent_us = self.spent_us + elapsed_us;
                let next = match l {
                    Layer::Transport => Phase::Running(Layer::Session),
                    Layer::Session => Phase::Running(Layer::Presentation),
                    Layer::Presentation => Phase::Running(Layer::Application),
                    Layer::Application => Phase::Aggregating,
                };
                match m {
                    LayerMetrics::Transport(t) => self.transport = Some(t),
                    LayerMetrics::Session(t) => self.session = Some(t),
                    LayerMetrics::Presentation(t) => self.presentation = Some(t),
                    LayerMetrics::Application(t) => self.application = Some(t),
                }
                self.phase = next;
                Ok(next)
            },
        }
    }

    /// Builds the report of a run whose four steps are done, and ends the
    /// run in `Done`. The report holds the four records, the network
    /// figures of the transport record, the mean score, the summed
    /// overheads and latencies, and the advice for them. A run in any other
    /// phase gives no report and is left as it was.
    pub fn finish(&mut self, timestamp: String, total_duration_us: u64) -> (r: Option<AggregateReport>)
        requires
            old(self)@.wf(),
        ensures
            final(self)@.wf(),
            old(self)@.phase is Aggregating ==> {
                &&& r is Some
                &&& r->Some_0.built_from(
                    old(self)@.transport->Some_0,
                    old(self)@.session->Some_0,
                    old(self)@.presentation->Some_0,
                    old(self)@.application->Some_0,
                    timestamp,
                    total_duration_us,
                )
                &&& r->Some_0.figures_in_range()
                &&& final(self)@ == (RunState {
                    phase: Phase::Done,
                    transport: None,
                    session: None,
                    presentation: None,
                    application: None,
                    ..old(self)@
                })
            },
            !(old(self)@.phase is Aggregating) ==> r is None && final(self)@ == old(self)@,
    {
        if !(self.phase == Phase::Aggregating) {
            return None;
        }
        let transport = match self.transport.take() {
            Some(m) => m,
            None => {
                return None;
            },
        };
        let session = match self.session.take() {
            Some(m) => m,
            None => {
                return None;
            },
        };
        let presentation = match self.presentation.take() {
            Some(m) => m,
            None => {
                return None;
            },
        };
        let application = match self.application.take() {
            Some(m) => m,
            None => {
                return None;
            },
        };
        self.phase = Phase::Done;
        let overall: u32 = (transport.efficiency_score + session.session_efficiency
            + presentation.encoding_efficiency + application.application_efficiency) / 4;
        let overhead: u128 = transport.total_transport_overhead as u128
            + session.session_overhead_bytes as u128 + presentation.encoding_overhead_bytes as u128
            + application.application_overhead_bytes as u128;
        let latency: u128 = transport.udp_discovery_time_us as u128 + transport.tcp_connection_time_us as u128
            + session.commissioning_time_us as u128 + presentation.encoding_time_us as u128
            + application.discovery_time_us as u128;
        let recommendations = RecommendationEngine::recommend(
            overall,
            session.commissioning_time_us,
            application.discovery_time_us,
        );
        let network = transport.real_network_performance;
        Some(AggregateReport {
            transport,
            session,
            presentation,
            application,
            network,
            timestamp,
            total_duration_us,
            overall_efficiency: overall,
            total_overhead_bytes: overhead,
            total_latency_us: latency,
            recommendations,
        })
    }
}

} // verus!
