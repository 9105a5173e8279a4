//! Following a configuration change that the driver made: what is acknowledged, and the sequence of
//! effects on the engine that realises it or restores the previous pipeline.

use crate::apply::{is_previous_plan, opt_plan, plan_if_ok, previous_plan};
use crate::driver::{ConfigAnswer, ConfigResult, DriverConfig, DriverError, DriverFault};
use crate::graph::{accepts_graphs, MAX_HAL_CHANNELS};
use crate::output_device::opt_text;
use crate::pipeline::{
    after_commit, chain_plan, graph_plan_outcome, next_generation, plan_outcome, PipelinePlan,
    PlanModel, SpecModel, SupervisorModel,
};
use crate::plugins::PluginGraphConfig;
use crate::state::{restart_recovery, StateModel, SystemwideState};
use crate::text::{join2, join3};
use vstd::prelude::*;

verus! {

/// Whether the pipeline supports a sample rate.
pub open spec fn is_supported_rate(rate: u32) -> bool {
    rate == 44100 || rate == 48000 || rate == 88200 || rate == 96000 || rate == 176400 || rate
        == 192000
}

/// A rate as a signed 32-bit number. One beyond the signed range counts as negative.
pub open spec fn signed_rate(rate: u32) -> int {
    if rate <= i32::MAX {
        rate as int
    } else {
        rate - 0x1_0000_0000
    }
}

/// The distance between two rates.
pub open spec fn rate_distance(a: u32, b: u32) -> int {
    let d = signed_rate(a) - signed_rate(b);
    if d < 0 {
        -d
    } else {
        d
    }
}

/// The first of the supported rates that is nearest to the requested one.
pub open spec fn is_nearest_rate(requested: u32, rate: u32) -> bool {
    &&& is_supported_rate(rate)
    &&& forall|other: u32| #[trigger]
        is_supported_rate(other) ==> rate_distance(rate, requested) < rate_distance(other, requested)
            || (rate_distance(rate, requested) == rate_distance(other, requested) && rate <= other)
}

fn nearer(candidate: u32, best: u32, requested: u32) -> (r: bool)
    requires
        is_supported_rate(candidate),
        is_supported_rate(best),
    ensures
        r == (rate_distance(candidate, requested) < rate_distance(best, requested)),
{
    let want: i64 = if requested <= 0x7fff_ffff {
        requested as i64
    } else {
        requested as i64 - 0x1_0000_0000
    };
    let c: i64 = candidate as i64 - want;
    let b: i64 = best as i64 - want;
    let dc: i64 = if c < 0 { -c } else { c };
    let db: i64 = if b < 0 { -b } else { b };
    dc < db
}

/// The rate the pipeline runs at for a requested one: the supported rate nearest to it, the lower
/// one where two are equally near.
pub fn actual_sample_rate(requested: u32) -> (r: u32)
    ensures
        is_nearest_rate(requested, r),
        is_supported_rate(requested) ==> r == requested,
{
    let mut best: u32 = 44100;
    if nearer(48000, best, requested) {
        best = 48000;
    }
    if nearer(88200, best, requested) {
        best = 88200;
    }
    if nearer(96000, best, requested) {
        best = 96000;
    }
    if nearer(176400, best, requested) {
        best = 176400;
    }
    if nearer(192000, best, requested) {
        best = 192000;
    }
    best
}

/// How a reconfiguration came out.
#[derive(Debug, Clone, Copy, PartialEq, Eq, Structural)]
pub enum PipelineReconfigureOutcome {
    IdleUpdated,
    Restarted,
    Restored { input_channels: usize },
}

/// The channel count in use after a reconfiguration.
pub open spec fn active_channels(requested: u32, outcome: PipelineReconfigureOutcome) -> u32 {
    match outcome {
        PipelineReconfigureOutcome::Restored { input_channels } => input_channels as u32,
        _ => requested,
    }
}

/// The format in use after a reconfiguration.
pub open spec fn active_config(
    requested: DriverConfig,
    actual_rate: u32,
    outcome: PipelineReconfigureOutcome,
) -> DriverConfig {
    DriverConfig {
        sample_rate: actual_rate,
        buffer_frames: requested.buffer_frames,
        channel_count: active_channels(requested.channel_count, outcome),
    }
}

/// What the driver is told of a reconfiguration: accepted where the format in use is the requested
/// one, else negotiated.
pub open spec fn acknowledged(
    requested: DriverConfig,
    actual_rate: u32,
    outcome: PipelineReconfigureOutcome,
) -> (DriverConfig, ConfigAnswer) {
    let active = active_config(requested, actual_rate, outcome);
    (
        active,
        if active == requested {
            ConfigAnswer::Accepted
        } else {
            ConfigAnswer::Negotiated(active)
        },
    )
}

/// What the driver is told of a reconfiguration.
pub fn acknowledged_config_for_outcome(
    requested_rate: u32,
    requested_frames: u32,
    requested_channels: u32,
    actual_rate: u32,
    outcome: PipelineReconfigureOutcome,
) -> (r: (DriverConfig, ConfigResult))
    ensures
        (r.0, r.1@) == acknowledged(
            (DriverConfig {
                sample_rate: requested_rate,
                buffer_frames: requested_frames,
                channel_count: requested_channels,
            }),
            actual_rate,
            outcome,
        ),
{
    let channels: u32 = match outcome {
        PipelineReconfigureOutcome::Restored { input_channels } => #[verifier::truncate]
        (input_channels as u32),
        _ => requested_channels,
    };
    let actual = DriverConfig::new(actual_rate, requested_frames, channels);
    let result = if actual_rate != requested_rate || channels != requested_channels {
        ConfigResult::negotiated(actual_rate, requested_frames, channels)
    } else {
        ConfigResult::Accepted
    };
    (actual, result)
}

/// The answer to a request that is out of range, with the format to name in it.
pub open spec fn rejection(config: DriverConfig) -> Option<(DriverConfig, ConfigAnswer)> {
    if config.sample_rate == 0 {
        Some(
            (
                DriverConfig { sample_rate: 48000, ..config },
                ConfigAnswer::Error(
                    DriverFault::InvalidConfig("sample_rate"@, "Invalid sample rate"@),
                ),
            ),
        )
    } else if config.buffer_frames == 0 || config.buffer_frames > 65536 {
        Some(
            (
                DriverConfig { buffer_frames: 512, ..config },
                ConfigAnswer::Error(
                    DriverFault::InvalidConfig("buffer_frames"@, "Invalid buffer frames"@),
                ),
            ),
        )
    } else if config.channel_count == 0 || config.channel_count > MAX_HAL_CHANNELS {
        Some(
            (
                DriverConfig { channel_count: 2, ..config },
                ConfigAnswer::Error(
                    DriverFault::InvalidConfig("channel_count"@, "Invalid channel count"@),
                ),
            ),
        )
    } else {
        None
    }
}

/// The view of an optional acknowledgement.
pub open spec fn opt_ack(ack: Option<(DriverConfig, ConfigResult)>) -> Option<(DriverConfig, ConfigAnswer)> {
    match ack {
        Some(a) => Some((a.0, a.1@)),
        None => None,
    }
}

/// The answer to a request that is out of range.
pub fn reject_driver_config(config: DriverConfig) -> (r: Option<(DriverConfig, ConfigResult)>)
    ensures
        opt_ack(r) == rejection(config),
{
    if config.sample_rate == 0 {
        return Some(
            (
                DriverConfig::new(48000, config.buffer_frames, config.channel_count),
                ConfigResult::Error(DriverError::invalid_config("sample_rate", "Invalid sample rate")),
            ),
        );
    }
    if config.buffer_frames == 0 || config.buffer_frames > 65536 {
        return Some(
            (
                DriverConfig::new(config.sample_rate, 512, config.channel_count),
                ConfigResult::Error(
                    DriverError::invalid_config("buffer_frames", "Invalid buffer frames"),
                ),
            ),
        );
    }
    if config.channel_count == 0 || config.channel_count as usize > MAX_HAL_CHANNELS {
        return Some(
            (
                DriverConfig::new(config.sample_rate, config.buffer_frames, 2),
                ConfigResult::Error(
                    DriverError::invalid_config("channel_count", "Invalid channel count"),
                ),
            ),
        );
    }
    None
}

/// Where a change stands: what it has asked for and waits to hear of.
#[derive(Debug, Clone, Copy, PartialEq, Eq, Structural)]
pub enum ChangePhase {
    ClearingReady,
    CheckingIdle,
    Stopping,
    Starting,
    UpdatingGraph,
    StoppingGraph,
    SettingLoudness,
    Awaiting,
    Acknowledging,
    PublishingReady,
    Rejecting,
    Finished,
}

/// What a change asks of its surroundings.
#[derive(Debug)]
pub enum ChangeAction {
    /// Tell the driver whether the engine is ready.
    SetEngineReady(bool),
    /// Report whether the engine is idle.
    CheckIdle,
    /// Stop the engine.
    StopEngine,
    /// Start the engine for the current plan with this rate and buffer size.
    StartEngine { sample_rate: u32, buffer_frames: u32 },
    /// Give the engine the graph of the current plan.
    UpdateGraph,
    /// Tell the engine where the output meter is.
    SetLoudnessIndex(usize),
    /// Wait until playback runs.
    AwaitPlayback,
    /// Acknowledge the change to the driver.
    Acknowledge(DriverConfig, ConfigResult),
    /// There is nothing left to do.
    End,
}

/// What a `ChangeAction` stands for.
pub enum ChangeStep {
    SetEngineReady(bool),
    CheckIdle,
    StopEngine,
    StartEngine { sample_rate: u32, buffer_frames: u32 },
    UpdateGraph,
    SetLoudnessIndex(usize),
    AwaitPlayback,
    Acknowledge(DriverConfig, ConfigAnswer),
    End,
}

impl View for ChangeAction {
    type V = ChangeStep;

    open spec fn view(&self) -> ChangeStep {
        match *self {
            ChangeAction::SetEngineReady(ready) => ChangeStep::SetEngineReady(ready),
            ChangeAction::CheckIdle => ChangeStep::CheckIdle,
            ChangeAction::StopEngine => ChangeStep::StopEngine,
            ChangeAction::StartEngine { sample_rate, buffer_frames } => ChangeStep::StartEngine {
                sample_rate,
                buffer_frames,
            },
            ChangeAction::UpdateGraph => ChangeStep::UpdateGraph,
            ChangeAction::SetLoudnessIndex(index) => ChangeStep::SetLoudnessIndex(index),
            ChangeAction::AwaitPlayback => ChangeStep::AwaitPlayback,
            ChangeAction::Acknowledge(config, result) => ChangeStep::Acknowledge(config, result@),
            ChangeAction::End => ChangeStep::End,
        }
    }
}

/// What the surroundings answer.
#[derive(Debug)]
pub enum ChangeReply {
    /// It is done.
    Done,
    /// It worked, or why it did not.
    Outcome(Result<(), String>),
    /// Whether the engine is idle.
    Idle(bool),
}

/// What a `ChangeReply` stands for.
pub enum ChangeAnswer {
    Done,
    Outcome(Result<(), Seq<char>>),
    Idle(bool),
}

impl View for ChangeReply {
    type V = ChangeAnswer;

    open spec fn view(&self) -> ChangeAnswer {
        match *self {
            ChangeReply::Done => ChangeAnswer::Done,
            ChangeReply::Outcome(Ok(_)) => ChangeAnswer::Outcome(Ok(())),
            ChangeReply::Outcome(Err(e)) => ChangeAnswer::Outcome(Err(e@)),
            ChangeReply::Idle(idle) => ChangeAnswer::Idle(idle),
        }
    }
}

/// A change that the driver made, being followed.
#[derive(Debug)]
pub struct DriverChange {
    pub phase: ChangePhase,
    pub requested: DriverConfig,
    pub actual_rate: u32,
    /// The plan being started: the desired one, or the previous one while it is restored.
    pub plan: Option<PipelinePlan>,
    /// The plan to go back to.
    pub previous: Option<PipelinePlan>,
    pub restoring: bool,
    /// Why the desired plan did not start.
    pub error: String,
    /// Why the engine refused the graph.
    pub pending: String,
    pub outcome: PipelineReconfigureOutcome,
}

/// What a `DriverChange` stands for.
#[verifier::ext_equal]
pub struct ChangeModel {
    pub phase: ChangePhase,
    pub requested: DriverConfig,
    pub actual_rate: u32,
    pub plan: Option<PlanModel>,
    pub previous: Option<PlanModel>,
    pub restoring: bool,
    pub error: Seq<char>,
    pub pending: Seq<char>,
    pub outcome: PipelineReconfigureOutcome,
}

impl View for DriverChange {
    type V = ChangeModel;

    open spec fn view(&self) -> ChangeModel {
        ChangeModel {
            phase: self.phase,
            requested: self.requested,
            actual_rate: self.actual_rate,
            plan: opt_plan(self.plan),
            previous: opt_plan(self.previous),
            restoring: self.restoring,
            error: self.error@,
            pending: self.pending@,
            outcome: self.outcome,
        }
    }
}

/// Moves on to `phase`.
pub open spec fn change_at(c: ChangeModel, phase: ChangePhase) -> ChangeModel {
    ChangeModel { phase, ..c }
}

/// A failure is recorded and the driver is told of it.
pub open spec fn change_failed(c: ChangeModel, s: StateModel, named: DriverConfig, error: Seq<char>) -> (
    ChangeModel,
    StateModel,
    ChangeStep,
) {
    (
        change_at(c, ChangePhase::Rejecting),
        StateModel { recovery: Some(restart_recovery(error)), ..s },
        ChangeStep::Acknowledge(named, ConfigAnswer::Error(DriverFault::Other(error))),
    )
}

/// The format named where a reconfiguration failed.
pub open spec fn failed_config(c: ChangeModel) -> DriverConfig {
    DriverConfig { sample_rate: c.actual_rate, ..c.requested }
}

/// The engine is started for the current plan.
pub open spec fn change_start(c: ChangeModel) -> (ChangeModel, ChangeStep) {
    (
        change_at(c, ChangePhase::Starting),
        ChangeStep::StartEngine {
            sample_rate: c.actual_rate,
            buffer_frames: c.requested.buffer_frames,
        },
    )
}

/// The complaint about an engine that did not restart.
pub open spec fn restart_failure(error: Seq<char>) -> Seq<char> {
    "Failed to restart driver playback: "@ + error
}

/// What an engine that did not start leads to: the previous plan is tried, where there is one and
/// it was not tried yet.
pub open spec fn start_failed(c: ChangeModel, s: StateModel, error: Seq<char>) -> (
    ChangeModel,
    StateModel,
    ChangeStep,
) {
    if c.restoring {
        change_failed(
            c,
            s,
            failed_config(c),
            restart_failure(c.error) + "; pipeline recovery also failed: "@ + error,
        )
    } else {
        match c.previous {
            None => change_failed(c, s, failed_config(c), restart_failure(error)),
            Some(previous) => {
                let (next, action) = change_start(
                    ChangeModel { plan: Some(previous), previous: None, restoring: true, error, ..c },
                );
                (next, s, action)
            },
        }
    }
}

/// What a finished reconfiguration leads to: the failure record is cleared and the format in use is
/// acknowledged.
pub open spec fn change_acknowledged(c: ChangeModel, s: StateModel) -> (
    ChangeModel,
    StateModel,
    ChangeStep,
) {
    let ack = acknowledged(c.requested, c.actual_rate, c.outcome);
    (
        change_at(c, ChangePhase::Acknowledging),
        StateModel { recovery: None, ..s },
        ChangeStep::Acknowledge(ack.0, ack.1),
    )
}

/// What a started engine leads to: the desired plan is recorded as applied. A restored one already
/// is.
pub open spec fn change_started(c: ChangeModel, s: StateModel) -> (ChangeModel, StateModel, ChangeStep) {
    let plan = c.plan->0;
    if c.restoring {
        (
            ChangeModel {
                phase: ChangePhase::Awaiting,
                outcome: PipelineReconfigureOutcome::Restored {
                    input_channels: plan.spec.input_channels,
                },
                ..c
            },
            s,
            ChangeStep::AwaitPlayback,
        )
    } else {
        (
            ChangeModel {
                phase: ChangePhase::Awaiting,
                outcome: PipelineReconfigureOutcome::Restarted,
                ..c
            },
            StateModel { pipeline: after_commit(s.pipeline, plan), ..s },
            ChangeStep::AwaitPlayback,
        )
    }
}

/// Whether `reply` answers what the change asked for.
pub open spec fn change_fits(c: ChangeModel, reply: ChangeAnswer) -> bool {
    match c.phase {
        ChangePhase::CheckingIdle => reply is Idle && c.plan is Some,
        ChangePhase::Starting | ChangePhase::UpdatingGraph => reply is Outcome && c.plan is Some,
        ChangePhase::Awaiting => reply is Outcome,
        ChangePhase::SettingLoudness => reply is Done && c.plan is Some,
        ChangePhase::ClearingReady | ChangePhase::Finished => false,
        _ => reply is Done,
    }
}

/// What a reply leads to, once the plans are prepared.
pub open spec fn change_step(c: ChangeModel, s: StateModel, reply: ChangeAnswer) -> (
    ChangeModel,
    StateModel,
    ChangeStep,
) {
    match (c.phase, reply) {
        (ChangePhase::CheckingIdle, ChangeAnswer::Idle(idle)) => if idle {
            change_acknowledged(
                ChangeModel { outcome: PipelineReconfigureOutcome::IdleUpdated, ..c },
                StateModel {
                    pipeline: SupervisorModel {
                        desired: c.plan->0.spec,
                        applied: s.pipeline.applied,
                        generation: next_generation(s.pipeline.generation),
                    },
                    ..s
                },
            )
        } else {
            (change_at(c, ChangePhase::Stopping), s, ChangeStep::StopEngine)
        },
        (ChangePhase::Stopping, _) => {
            let (next, action) = change_start(c);
            (next, s, action)
        },
        (ChangePhase::Starting, ChangeAnswer::Outcome(Err(e))) => start_failed(c, s, e),
        (ChangePhase::Starting, ChangeAnswer::Outcome(Ok(_))) => if c.plan->0.runtime_graph is Some {
            (change_at(c, ChangePhase::UpdatingGraph), s, ChangeStep::UpdateGraph)
        } else {
            (
                change_at(c, ChangePhase::SettingLoudness),
                s,
                ChangeStep::SetLoudnessIndex(c.plan->0.output_loudness_index),
            )
        },
        (ChangePhase::UpdatingGraph, ChangeAnswer::Outcome(Err(e))) => (
            ChangeModel { phase: ChangePhase::StoppingGraph, pending: e, ..c },
            s,
            ChangeStep::StopEngine,
        ),
        (ChangePhase::UpdatingGraph, ChangeAnswer::Outcome(Ok(_))) => (
            change_at(c, ChangePhase::SettingLoudness),
            s,
            ChangeStep::SetLoudnessIndex(c.plan->0.output_loudness_index),
        ),
        (ChangePhase::StoppingGraph, _) => start_failed(c, s, c.pending),
        (ChangePhase::SettingLoudness, _) => change_started(c, s),
        (ChangePhase::Awaiting, ChangeAnswer::Outcome(Err(e))) => change_failed(
            c,
            s,
            active_config(c.requested, c.actual_rate, c.outcome),
            e,
        ),
        (ChangePhase::Awaiting, ChangeAnswer::Outcome(Ok(_))) => change_acknowledged(c, s),
        (ChangePhase::Acknowledging, _) => if c.outcome is IdleUpdated {
            (change_at(c, ChangePhase::Finished), s, ChangeStep::End)
        } else {
            (change_at(c, ChangePhase::PublishingReady), s, ChangeStep::SetEngineReady(true))
        },
        _ => (change_at(c, ChangePhase::Finished), s, ChangeStep::End),
    }
}

/// A change before anything was done about it.
pub open spec fn new_change(config: DriverConfig, actual_rate: u32) -> ChangeModel {
    ChangeModel {
        phase: ChangePhase::ClearingReady,
        requested: config,
        actual_rate,
        plan: None,
        previous: None,
        restoring: false,
        error: Seq::empty(),
        pending: Seq::empty(),
        outcome: PipelineReconfigureOutcome::IdleUpdated,
    }
}

/// How a change begins: a request out of range is answered at once, and otherwise the driver is
/// told first that the engine is not ready.
pub open spec fn change_begins(config: DriverConfig, first: (ChangeModel, ChangeStep)) -> bool {
    match rejection(config) {
        Some(ack) => first.1 == ChangeStep::Acknowledge(ack.0, ack.1) && first.0 == change_at(
            new_change(config, first.0.actual_rate),
            ChangePhase::Rejecting,
        ),
        None => first.1 == ChangeStep::SetEngineReady(false) && first.0 == new_change(
            config,
            first.0.actual_rate,
        ) && is_nearest_rate(config.sample_rate, first.0.actual_rate),
    }
}

/// What preparing the desired pipeline for another channel count may return.
pub open spec fn desired_plan_outcome<F: Fn(&PluginGraphConfig) -> Result<(), String>>(
    validate: F,
    desired: SpecModel,
    channels: usize,
    configured: Option<Seq<char>>,
    out: Result<PlanModel, Seq<char>>,
) -> bool {
    match desired.user_graph {
        Some(graph) => graph_plan_outcome(
            validate,
            desired,
            graph,
            channels,
            desired.output_channels,
            channels,
            configured,
            out,
        ),
        None => out == chain_plan(
            desired,
            desired.user_plugins,
            channels,
            desired.output_channels,
            channels,
            configured,
        ),
    }
}

/// What follows from prepared plans.
pub open spec fn change_prepared(
    c: ChangeModel,
    s: StateModel,
    plan: Result<PlanModel, Seq<char>>,
    previous: Option<PlanModel>,
) -> (ChangeModel, StateModel, ChangeStep) {
    match plan {
        Err(e) => change_failed(c, s, failed_config(c), e),
        Ok(p) => (
            ChangeModel { phase: ChangePhase::CheckingIdle, plan: Some(p), previous, ..c },
            s,
            ChangeStep::CheckIdle,
        ),
    }
}

/// What preparing the plans may lead to.
pub open spec fn prepares<F: Fn(&PluginGraphConfig) -> Result<(), String>>(
    validate: F,
    configured: Option<Seq<char>>,
    c: ChangeModel,
    s: StateModel,
    after: (ChangeModel, StateModel, ChangeStep),
) -> bool {
    let channels = c.requested.channel_count as usize;
    exists|plan: Result<PlanModel, Seq<char>>, previous: Option<PlanModel>|
        (#[trigger] desired_plan_outcome(validate, s.pipeline.desired, channels, configured, plan)) && (
        #[trigger] is_previous_plan(validate, s, channels, configured, previous)) && after
            == change_prepared(c, s, plan, previous)
}

impl DriverChange {
    /// Begins to follow a change.
    pub fn begin(config: DriverConfig) -> (r: (DriverChange, ChangeAction))
        ensures
            change_begins(config, (r.0@, r.1@)),
    {
        let mut change = DriverChange {
            phase: ChangePhase::ClearingReady,
            requested: config,
            actual_rate: config.sample_rate,
            plan: None,
            previous: None,
            restoring: false,
            error: String::new(),
            pending: String::new(),
            outcome: PipelineReconfigureOutcome::IdleUpdated,
        };
        proof {
            assert(change.error@ =~= Seq::<char>::empty());
            assert(change.pending@ =~= Seq::<char>::empty());
        }
        match reject_driver_config(config) {
            Some((named, result)) => {
                change.phase = ChangePhase::Rejecting;
                (change, ChangeAction::Acknowledge(named, result))
            },
            None => {
                change.actual_rate = actual_sample_rate(config.sample_rate);
                (change, ChangeAction::SetEngineReady(false))
            },
        }
    }

    fn fail(&mut self, state: &mut SystemwideState, named: DriverConfig, error: String) -> (r: ChangeAction)
        ensures
            (final(self)@, final(state)@, r@) == change_failed(old(self)@, old(state)@, named, error@),
    {
        self.phase = ChangePhase::Rejecting;
        state.mark_pipeline_recovery(error.clone());
        ChangeAction::Acknowledge(named, ConfigResult::Error(DriverError::Other { message: error }))
    }

    fn named_after_failure(&self) -> (r: DriverConfig)
        ensures
            r == failed_config(self@),
    {
        DriverConfig::new(
            self.actual_rate,
            self.requested.buffer_frames,
            self.requested.channel_count,
        )
    }

    fn start(&mut self) -> (r: ChangeAction)
        ensures
            (final(self)@, r@) == change_start(old(self)@),
    {
        self.phase = ChangePhase::Starting;
        ChangeAction::StartEngine {
            sample_rate: self.actual_rate,
            buffer_frames: self.requested.buffer_frames,
        }
    }

    /// Prepares the plan for the changed format and the one to go back to, once the driver knows
    /// that the engine is not ready.
    pub fn prepare<F: Fn(&PluginGraphConfig) -> Result<(), String>>(
        &mut self,
        state: &mut SystemwideState,
        configured: &Option<String>,
        validate: &F,
    ) -> (r: ChangeAction)
        requires
            accepts_graphs(*validate),
            old(self)@.phase == ChangePhase::ClearingReady,
        ensures
            prepares(
                *validate,
                opt_text(*configured),
                old(self)@,
                old(state)@,
                (final(self)@, final(state)@, r@),
            ),
    {
        let channels: usize = self.requested.channel_count as usize;
        let plan = match state.user_graph() {
            Some(graph) => state.prepare_graph_plan(
                graph,
                channels,
                state.output_channels(),
                channels,
                configured,
                validate,
            ),
            None => state.prepare_plan(
                state.user_plugins(),
                channels,
                state.output_channels(),
                channels,
                configured,
            ),
        };
        let previous = previous_plan(state, channels, configured, validate);
        let ghost known = opt_plan(previous);
        let ghost out = plan_outcome(plan);
        let ghost before = self@;
        let ghost state_before = state@;
        proof {
            assert(desired_plan_outcome(
                *validate,
                state@.pipeline.desired,
                channels,
                opt_text(*configured),
                out,
            ));
            assert(is_previous_plan(*validate, state@, channels, opt_text(*configured), known));
        }
        let action = match plan {
            Err(error) => {
                let named = self.named_after_failure();
                self.fail(state, named, error)
            },
            Ok(plan) => {
                self.phase = ChangePhase::CheckingIdle;
                self.plan = Some(plan);
                self.previous = previous;
                ChangeAction::CheckIdle
            },
        };
        proof {
            assert((self@, state@, action@) == change_prepared(before, state_before, out, known));
        }
        action
    }

    fn acknowledge(&mut self, state: &mut SystemwideState) -> (r: ChangeAction)
        ensures
            (final(self)@, final(state)@, r@) == change_acknowledged(old(self)@, old(state)@),
    {
        let (active, result) = acknowledged_config_for_outcome(
            self.requested.sample_rate,
            self.requested.buffer_frames,
            self.requested.channel_count,
            self.actual_rate,
            self.outcome,
        );
        state.clear_pipeline_recovery();
        self.phase = ChangePhase::Acknowledging;
        ChangeAction::Acknowledge(active, result)
    }

    fn start_failed(&mut self, state: &mut SystemwideState, error: String) -> (r: ChangeAction)
        ensures
            (final(self)@, final(state)@, r@) == start_failed(old(self)@, old(state)@, error@),
    {
        let named = self.named_after_failure();
        if self.restoring {
            let first = join2("Failed to restart driver playback: ", self.error.as_str());
            let text = join3(first.as_str(), "; pipeline recovery also failed: ", error.as_str());
            return self.fail(state, named, text);
        }
        match self.previous.take() {
            None => {
                let text = join2("Failed to restart driver playback: ", error.as_str());
                self.fail(state, named, text)
            },
            Some(previous) => {
                self.plan = Some(previous);
                self.restoring = true;
                self.error = error;
                self.start()
            },
        }
    }

    fn set_loudness(&mut self) -> (r: ChangeAction)
        requires
            old(self)@.plan is Some,
        ensures
            final(self)@ == change_at(old(self)@, ChangePhase::SettingLoudness),
            r@ == ChangeStep::SetLoudnessIndex(old(self)@.plan->0.output_loudness_index),
    {
        self.phase = ChangePhase::SettingLoudness;
        let index: usize = match &self.plan {
            Some(plan) => plan.output_loudness_index,
            None => 0,
        };
        ChangeAction::SetLoudnessIndex(index)
    }

    fn started(&mut self, state: &mut SystemwideState) -> (r: ChangeAction)
        requires
            old(self)@.plan is Some,
        ensures
            (final(self)@, final(state)@, r@) == change_started(old(self)@, old(state)@),
    {
        if let Some(plan) = &self.plan {
            if self.restoring {
                self.outcome = PipelineReconfigureOutcome::Restored {
                    input_channels: plan.spec.input_channels,
                };
            } else {
                state.commit_applied(plan);
                self.outcome = PipelineReconfigureOutcome::Restarted;
            }
        }
        self.phase = ChangePhase::Awaiting;
        ChangeAction::AwaitPlayback
    }

    fn idle_known(&mut self, state: &mut SystemwideState, idle: bool) -> (r: ChangeAction)
        requires
            old(self)@.plan is Some,
            old(self)@.phase == ChangePhase::CheckingIdle,
        ensures
            (final(self)@, final(state)@, r@) == change_step(
                old(self)@,
                old(state)@,
                ChangeAnswer::Idle(idle),
            ),
    {
        if idle {
            if let Some(plan) = &self.plan {
                state.commit_idle_reconfigure(plan);
            }
            self.outcome = PipelineReconfigureOutcome::IdleUpdated;
            self.acknowledge(state)
        } else {
            self.phase = ChangePhase::Stopping;
            ChangeAction::StopEngine
        }
    }

    fn plan_has_graph(&self) -> (r: bool)
        requires
            self@.plan is Some,
        ensures
            r == (self@.plan->0.runtime_graph is Some),
    {
        match &self.plan {
            Some(plan) => plan.runtime_graph.is_some(),
            None => false,
        }
    }

    /// Takes the answer to the last action and says what to do next.
    pub fn step(&mut self, state: &mut SystemwideState, reply: ChangeReply) -> (r: ChangeAction)
        requires
            change_fits(old(self)@, reply@),
        ensures
            (final(self)@, final(state)@, r@) == change_step(old(self)@, old(state)@, reply@),
    {
        match (self.phase, reply) {
            (ChangePhase::CheckingIdle, ChangeReply::Idle(idle)) => self.idle_known(state, idle),
            (ChangePhase::Stopping, _) => self.start(),
            (ChangePhase::Starting, ChangeReply::Outcome(Err(error))) => self.start_failed(state, error),
            (ChangePhase::Starting, _) => {
                if self.plan_has_graph() {
                    self.phase = ChangePhase::UpdatingGraph;
                    ChangeAction::UpdateGraph
                } else {
                    self.set_loudness()
                }
            },
            (ChangePhase::UpdatingGraph, ChangeReply::Outcome(Err(error))) => {
                self.pending = error;
                self.phase = ChangePhase::StoppingGraph;
                ChangeAction::StopEngine
            },
            (ChangePhase::UpdatingGraph, _) => self.set_loudness(),
            (ChangePhase::StoppingGraph, _) => {
                let error = self.pending.clone();
                self.start_failed(state, error)
            },
            (ChangePhase::SettingLoudness, _) => self.started(state),
            (ChangePhase::Awaiting, ChangeReply::Outcome(Err(error))) => {
                let (active, result) = acknowledged_config_for_outcome(
                    self.requested.sample_rate,
                    self.requested.buffer_frames,
                    self.requested.channel_count,
                    self.actual_rate,
                    self.outcome,
                );
                self.fail(state, active, error)
            },
            (ChangePhase::Awaiting, _) => self.acknowledge(state),
            (ChangePhase::Acknowledging, _) => match self.outcome {
                PipelineReconfigureOutcome::IdleUpdated => {
                    self.phase = ChangePhase::Finished;
                    ChangeAction::End
                },
                _ => {
                    self.phase = ChangePhase::PublishingReady;
                    ChangeAction::SetEngineReady(true)
                },
            },
            _ => {
                self.phase = ChangePhase::Finished;
                ChangeAction::End
            },
        }
    }
}

/// What a change has done to its surroundings.
pub struct ChangeWorld {
    /// Whether a started engine runs.
    pub started: bool,
    /// Whether playback was seen to run since the engine started.
    pub confirmed: bool,
    /// What the driver was told last about the engine.
    pub ready: bool,
    /// The format that was acknowledged without an error, if one was.
    pub acknowledged: Option<DriverConfig>,
}

/// The surroundings after an action and its answer.
pub open spec fn change_performed(w: ChangeWorld, action: ChangeStep, reply: ChangeAnswer) -> ChangeWorld {
    match (action, reply) {
        (ChangeStep::SetEngineReady(ready), _) => ChangeWorld { ready, ..w },
        (ChangeStep::StopEngine, _) => ChangeWorld { started: false, confirmed: false, ..w },
        (ChangeStep::StartEngine { .. }, ChangeAnswer::Outcome(out)) => ChangeWorld {
            started: out is Ok,
            confirmed: false,
            ..w
        },
        (ChangeStep::AwaitPlayback, ChangeAnswer::Outcome(out)) => ChangeWorld {
            confirmed: out is Ok,
            ..w
        },
        (ChangeStep::Acknowledge(config, result), _) => ChangeWorld {
            acknowledged: if result is Error { None } else { Some(config) },
            ..w
        },
        _ => w,
    }
}

/// Whether the change and the surroundings agree, with `action` asked for and not yet answered.
pub open spec fn change_in_step(c: ChangeModel, s: StateModel, w: ChangeWorld, action: ChangeStep) -> bool {
    let planned = c.plan is Some && c.plan->0.spec.input_channels <= MAX_HAL_CHANNELS;
    &&& c.requested.channel_count <= MAX_HAL_CHANNELS
    &&& c.previous is Some ==> c.previous->0.spec.input_channels <= MAX_HAL_CHANNELS
    &&& match c.phase {
        ChangePhase::ClearingReady => action == ChangeStep::SetEngineReady(false),
        ChangePhase::CheckingIdle => action == ChangeStep::CheckIdle && !w.ready && planned
            && !c.restoring && c.plan->0.spec.input_channels == c.requested.channel_count,
        ChangePhase::Stopping => action == ChangeStep::StopEngine && !w.ready && planned
            && !c.restoring && c.plan->0.spec.input_channels == c.requested.channel_count,
        ChangePhase::Starting => action is StartEngine && !w.ready && planned && (!c.restoring
            ==> c.plan->0.spec.input_channels == c.requested.channel_count),
        ChangePhase::UpdatingGraph => action == ChangeStep::UpdateGraph && !w.ready && planned
            && w.started && (!c.restoring ==> c.plan->0.spec.input_channels
            == c.requested.channel_count),
        ChangePhase::StoppingGraph => action == ChangeStep::StopEngine && !w.ready && planned,
        ChangePhase::SettingLoudness => action is SetLoudnessIndex && !w.ready && planned && w.started
            && (!c.restoring ==> c.plan->0.spec.input_channels == c.requested.channel_count),
        ChangePhase::Awaiting => action == ChangeStep::AwaitPlayback && !w.ready && planned
            && w.started && !(c.outcome is IdleUpdated) && active_channels(
            c.requested.channel_count,
            c.outcome,
        ) == c.plan->0.spec.input_channels,
        ChangePhase::Acknowledging => !w.ready && s.recovery is None && (!(c.outcome is IdleUpdated)
            ==> planned && w.started && w.confirmed && active_channels(
            c.requested.channel_count,
            c.outcome,
        ) == c.plan->0.spec.input_channels) && action == ChangeStep::Acknowledge(
            acknowledged(c.requested, c.actual_rate, c.outcome).0,
            acknowledged(c.requested, c.actual_rate, c.outcome).1,
        ),
        ChangePhase::PublishingReady => action == ChangeStep::SetEngineReady(true) && s.recovery is None
            && planned && w.started && w.confirmed && w.acknowledged == Some(
            active_config(c.requested, c.actual_rate, c.outcome),
        ) && w.acknowledged->0.channel_count == c.plan->0.spec.input_channels,
        ChangePhase::Rejecting => action is Acknowledge && !w.ready && s.recovery is Some,
        ChangePhase::Finished => action == ChangeStep::End && (w.ready ==> w.started && w.confirmed
            && s.recovery is None && w.acknowledged is Some),
    }
}

/// Every step keeps a change in step with its surroundings. So the driver is told that the engine
/// is ready only after it has acknowledged the format that the running engine consumes and playback
/// was seen, and a change that could not be followed leaves the engine not ready and a recorded
/// failure.
pub proof fn changes_stay_in_step(
    c: ChangeModel,
    s: StateModel,
    w: ChangeWorld,
    action: ChangeStep,
    reply: ChangeAnswer,
)
    requires
        change_in_step(c, s, w, action),
        change_fits(c, reply),
    ensures
        ({
            let next = change_step(c, s, reply);
            change_in_step(next.0, next.1, change_performed(w, action, reply), next.2)
        }),
{
}

/// A change that is in range begins in step with its surroundings, and so does its preparation.
pub proof fn changes_begin_in_step<F: Fn(&PluginGraphConfig) -> Result<(), String>>(
    validate: F,
    configured: Option<Seq<char>>,
    config: DriverConfig,
    first: (ChangeModel, ChangeStep),
    s: StateModel,
    w: ChangeWorld,
    after: (ChangeModel, StateModel, ChangeStep),
)
    requires
        change_begins(config, first),
        rejection(config) is None,
        prepares(validate, configured, first.0, s, after),
    ensures
        change_in_step(first.0, s, w, first.1),
        change_in_step(after.0, after.1, change_performed(w, first.1, ChangeAnswer::Done), after.2),
{
    let channels = config.channel_count as usize;
    let (plan, previous) = choose|plan: Result<PlanModel, Seq<char>>, previous: Option<PlanModel>|
        (#[trigger] desired_plan_outcome(validate, s.pipeline.desired, channels, configured, plan)) && (
        #[trigger] is_previous_plan(validate, s, channels, configured, previous)) && after
            == change_prepared(first.0, s, plan, previous);
    if plan is Ok {
        assert(plan->Ok_0.spec.input_channels == channels);
    }
    if previous is Some {
        let applied = s.pipeline.applied->0;
        let out = choose|out: Result<PlanModel, Seq<char>>|
            (#[trigger] crate::pipeline::spec_plan_outcome(validate, applied.spec, channels, configured, out))
                && previous == plan_if_ok(out);
        crate::pipeline::plans_play_to_safe_devices(
            validate,
            applied.spec,
            channels,
            configured,
            out->Ok_0,
        );
    }
}

/// The engine runs at the format that the driver is told of. Whenever a change starts the engine, it
/// is at the rate chosen for the change and at the requested buffer size, and whenever a change is
/// acknowledged without an error, the rate and the buffer size named are the same ones. The channels
/// named are those of the plan that plays: the requested ones, or the restored plan's. And a format
/// counts as accepted only if it is the requested one, else as negotiated.
pub proof fn the_engine_runs_at_the_acknowledged_format(c: ChangeModel, s: StateModel, reply: ChangeAnswer)
    requires
        change_fits(c, reply),
    ensures
        ({
            let next = change_step(c, s, reply);
            &&& next.0.requested == c.requested && next.0.actual_rate == c.actual_rate
            &&& next.2 matches ChangeStep::StartEngine { sample_rate, buffer_frames } ==> sample_rate
                == c.actual_rate && buffer_frames == c.requested.buffer_frames
            &&& next.2 matches ChangeStep::Acknowledge(named, answer) ==> {
                &&& named.sample_rate == c.actual_rate
                &&& named.buffer_frames == c.requested.buffer_frames
                &&& !(answer is Error) ==> named.channel_count == match next.0.outcome {
                    PipelineReconfigureOutcome::Restored { input_channels } => input_channels as u32,
                    _ => c.requested.channel_count,
                }
                &&& answer is Accepted ==> named == c.requested
                &&& answer matches ConfigAnswer::Negotiated(agreed) ==> agreed == named && named
                    != c.requested
            }
        }),
{
}

/// A change runs at a supported rate, the requested one where that is supported, and else one that no
/// supported rate is nearer to, the lower of two that are equally near. Formats out of range are
/// refused, each for what is wrong with it, and no others.
pub proof fn changes_choose_the_nearest_rate(config: DriverConfig, first: (ChangeModel, ChangeStep))
    requires
        change_begins(config, first),
    ensures
        ({
            let fine = config.sample_rate > 0 && 1 <= config.buffer_frames <= 65536 && 1
                <= config.channel_count <= 32;
            let rate = first.0.actual_rate;
            &&& fine <==> first.1 == ChangeStep::SetEngineReady(false)
            &&& !fine ==> (first.1 matches ChangeStep::Acknowledge(named, ConfigAnswer::Error(fault))
                && fault == if config.sample_rate == 0 {
                DriverFault::InvalidConfig("sample_rate"@, "Invalid sample rate"@)
            } else if config.buffer_frames == 0 || config.buffer_frames > 65536 {
                DriverFault::InvalidConfig("buffer_frames"@, "Invalid buffer frames"@)
            } else {
                DriverFault::InvalidConfig("channel_count"@, "Invalid channel count"@)
            })
            &&& first.0.requested == config
            &&& fine ==> {
                &&& rate == 44100 || rate == 48000 || rate == 88200 || rate == 96000 || rate == 176400
                    || rate == 192000
                &&& (config.sample_rate == 44100 || config.sample_rate == 48000 || config.sample_rate
                    == 88200 || config.sample_rate == 96000 || config.sample_rate == 176400
                    || config.sample_rate == 192000) ==> rate == config.sample_rate
                &&& config.sample_rate <= 44100 ==> rate == 44100
                &&& 192000 <= config.sample_rate <= i32::MAX ==> rate == 192000
                &&& 44100 < config.sample_rate <= 46050 ==> rate == 44100
                &&& 46050 < config.sample_rate <= 68100 ==> rate == 48000
                &&& 68100 < config.sample_rate <= 92100 ==> rate == 88200
                &&& 92100 < config.sample_rate <= 136200 ==> rate == 96000
                &&& 136200 < config.sample_rate <= 184200 ==> rate == 176400
                &&& 184200 < config.sample_rate <= 192000 ==> rate == 192000
            }
        }),
{
    assert(is_supported_rate(44100) && is_supported_rate(48000) && is_supported_rate(88200));
    assert(is_supported_rate(96000) && is_supported_rate(176400) && is_supported_rate(192000));
}

/// Where a change stands after a reply.
pub open spec fn change_replied(at: (ChangeModel, StateModel, ChangeStep), reply: ChangeAnswer) -> (
    ChangeModel,
    StateModel,
    ChangeStep,
) {
    change_step(at.0, at.1, reply)
}

/// The walk of a change that can be followed while the engine plays: the engine is stopped, started at
/// the new format, given its graph if it has one, and told where the output meter is. The plan is then
/// the desired and the applied one. Once playback was seen, the format is acknowledged, and the driver
/// is told that the engine is ready.
pub proof fn followed_changes_walk_to_readiness(c: ChangeModel, s: StateModel)
    requires
        c.phase == ChangePhase::CheckingIdle,
        c.plan is Some,
        !c.restoring,
        s.pipeline.generation < u64::MAX,
    ensures
        ({
            let plan = c.plan->0;
            let ok = ChangeAnswer::Outcome(Ok(()));
            let b1 = change_step(c, s, ChangeAnswer::Idle(false));
            let b2 = change_replied(b1, ChangeAnswer::Done);
            let b3 = change_replied(b2, ok);
            let b4 = if plan.runtime_graph is Some { change_replied(b3, ok) } else { b3 };
            let b5 = change_replied(b4, ChangeAnswer::Done);
            let b6 = change_replied(b5, ok);
            let b7 = change_replied(b6, ChangeAnswer::Done);
            let b8 = change_replied(b7, ChangeAnswer::Done);
            let active = DriverConfig { sample_rate: c.actual_rate, ..c.requested };
            &&& b1.2 == ChangeStep::StopEngine
            &&& b2.2 == (ChangeStep::StartEngine {
                sample_rate: c.actual_rate,
                buffer_frames: c.requested.buffer_frames,
            })
            &&& plan.runtime_graph is Some ==> b3.2 == ChangeStep::UpdateGraph
            &&& b4.2 == ChangeStep::SetLoudnessIndex(plan.output_loudness_index) && b4.1 == s
            &&& b5.2 == ChangeStep::AwaitPlayback
            &&& b5.1.pipeline.desired == plan.spec
            &&& b5.1.pipeline.applied is Some && b5.1.pipeline.applied->0.spec == plan.spec
            &&& b5.1.pipeline.generation == s.pipeline.generation + 1
            &&& b6.2 == ChangeStep::Acknowledge(
                active,
                if c.actual_rate == c.requested.sample_rate {
                    ConfigAnswer::Accepted
                } else {
                    ConfigAnswer::Negotiated(active)
                },
            )
            &&& b6.1.pipeline == b5.1.pipeline && b6.1.recovery is None
            &&& b7.2 == ChangeStep::SetEngineReady(true)
            &&& b8.2 == ChangeStep::End
        }),
{
}

/// While nothing plays a change is only recorded: the plan is the desired one and what was applied
/// stays as it is, no engine is started, and the driver is not told that an engine is ready.
pub proof fn idle_changes_are_only_recorded(c: ChangeModel, s: StateModel)
    requires
        c.phase == ChangePhase::CheckingIdle,
        c.plan is Some,
        s.pipeline.generation < u64::MAX,
    ensures
        ({
            let b1 = change_step(c, s, ChangeAnswer::Idle(true));
            let b2 = change_replied(b1, ChangeAnswer::Done);
            let active = DriverConfig { sample_rate: c.actual_rate, ..c.requested };
            &&& b1.2 matches ChangeStep::Acknowledge(named, answer) && named == active && !(answer is Error)
            &&& b1.1.pipeline.desired == c.plan->0.spec
            &&& b1.1.pipeline.applied == s.pipeline.applied
            &&& b1.1.pipeline.generation == s.pipeline.generation + 1
            &&& b2.2 == ChangeStep::End && b2.1 == b1.1
        }),
{
}

/// What a change that cannot be followed leads to. The previous plan is started at the new format,
/// where there is one, and when it plays its channels are acknowledged as negotiated. Without one, or
/// where that fails too or nothing is heard, the driver is told of the failure, a restart is advised,
/// and the driver is not told that the engine is ready.
pub proof fn changes_that_fail_are_recovered(c: ChangeModel, s: StateModel, e: Seq<char>, f: Seq<char>)
    requires
        c.phase == ChangePhase::Starting,
        c.plan is Some,
        !c.restoring,
    ensures
        ({
            let ok = ChangeAnswer::Outcome(Ok(()));
            let b1 = change_step(c, s, ChangeAnswer::Outcome(Err(e)));
            let told = DriverConfig { sample_rate: c.actual_rate, ..c.requested };
            let first = "Failed to restart driver playback: "@ + e;
            let both = first + "; pipeline recovery also failed: "@ + f;
            &&& c.previous is None ==> b1.2 == ChangeStep::Acknowledge(
                told,
                ConfigAnswer::Error(DriverFault::Other(first)),
            ) && b1.1.recovery is Some && b1.1.recovery->0.error == first && b1.1.recovery->0.actions
                == seq!["restart_daemon"@] && b1.1.pipeline == s.pipeline
            &&& c.previous matches Some(old) ==> {
                let lost = change_replied(b1, ChangeAnswer::Outcome(Err(f)));
                let b2 = change_replied(b1, ok);
                let b3 = if old.runtime_graph is Some { change_replied(b2, ok) } else { b2 };
                let b4 = change_replied(b3, ChangeAnswer::Done);
                let b5 = change_replied(b4, ok);
                let b6 = change_replied(b5, ChangeAnswer::Done);
                let silent = change_replied(b4, ChangeAnswer::Outcome(Err(f)));
                &&& b1.2 == (ChangeStep::StartEngine {
                    sample_rate: c.actual_rate,
                    buffer_frames: c.requested.buffer_frames,
                })
                &&& b1.0.plan == Some(old) && b1.1 == s
                &&& lost.2 == ChangeStep::Acknowledge(
                    told,
                    ConfigAnswer::Error(DriverFault::Other(both)),
                )
                &&& lost.1.pipeline == s.pipeline && lost.1.recovery is Some
                    && lost.1.recovery->0.error == both
                &&& b3.2 == ChangeStep::SetLoudnessIndex(old.output_loudness_index)
                &&& b4.2 == ChangeStep::AwaitPlayback && b4.1 == s
                &&& b5.2 matches ChangeStep::Acknowledge(named, answer) && named.channel_count
                    == old.spec.input_channels as u32 && named.sample_rate == c.actual_rate && !(
                answer is Error)
                &&& b5.1.recovery is None && b5.1.pipeline == s.pipeline
                &&& b6.2 == ChangeStep::SetEngineReady(true)
                &&& silent.2 matches ChangeStep::Acknowledge(named, ConfigAnswer::Error(fault)) && fault
                    == DriverFault::Other(f)
                &&& silent.1.recovery is Some && silent.1.recovery->0.error == f
                &&& change_replied(silent, ChangeAnswer::Done).2 == ChangeStep::End
            }
        }),
{
}

} // verus!
