//! Applying a pipeline plan as a transaction: the sequence of effects on the driver and the engine
//! and what each answer leads to. A failed change is undone by applying the previous plan with the
//! driver format it had.

use crate::driver::{
    fault_text, ConfigAnswer, ConfigResult, DriverConfig, DriverFault, DriverStatus,
};
use crate::graph::accepts_graphs;
use crate::json::{Json, JsonNum, JsonObject};
use crate::output_device::opt_text;
use crate::pipeline::{
    after_commit, pipeline_specs_match, plan_outcome, same_spec, spec_plan_outcome, PipelinePlan,
    PlanModel, SupervisorModel,
};
use crate::plugins::{
    build_driver_plugin_chain, copy_plugins, metered_chain, plugin_models, PluginConfig,
    PluginGraphConfig, PluginModel,
};
use crate::response::{done_response, err_response, ok_response, Response, ResponseModel};
use crate::state::{restart_recovery, StateModel, SystemwideState};
use crate::text::{join2, same_text};
use vstd::prelude::*;

verus! {

/// Where a transaction stands: what it has asked for and waits to hear of.
#[derive(Debug, Clone, Copy, PartialEq, Eq, Structural)]
pub enum ApplyPhase {
    /// The output is being muted.
    Muting,
    /// Muting failed and is being taken back.
    RestoringMute,
    /// The mute ramp runs out.
    Settling,
    /// The running pipeline is being looked at.
    Inspecting,
    /// The driver is being told that the engine is not ready.
    ClearingReady,
    /// The engine is being stopped.
    Stopping,
    /// The driver's format is being read.
    ReadingDriver,
    /// The driver is being asked for a format.
    Configuring,
    /// The engine is being started.
    Starting,
    /// The started engine is being given the graph.
    UpdatingGraph,
    /// The engine is being stopped because it refused the graph.
    StoppingGraph,
    /// The engine is being told where the output meter is.
    SettingLoudness,
    /// Playback is awaited.
    Awaiting,
    /// The live chain is being written to the current output profile.
    SyncingProfiles,
    /// The driver is being told that the engine is ready.
    PublishingReady,
    /// The encryption state is being published.
    SyncingEncryption,
    /// The daemon is being asked whether it still runs.
    CheckingRunning,
    /// The output is being unmuted.
    Unmuting,
    /// The transaction is over.
    Finished,
}

/// What a transaction asks of its surroundings.
#[derive(Debug)]
pub enum ApplyAction {
    /// Set the output mute.
    SetMute(bool),
    /// Wait for the mute ramp to run out.
    Settle,
    /// Report the driver's channel count and the engine's health.
    Inspect,
    /// Tell the driver whether the engine is ready.
    SetEngineReady(bool),
    /// Stop the engine.
    StopEngine,
    /// Report the driver's status.
    ReadDriver,
    /// Request a driver format.
    RequestConfig(DriverConfig),
    /// Start the engine for the current plan with this rate and buffer size.
    StartEngine { sample_rate: u32, buffer_frames: u32 },
    /// Give the engine the graph of the current plan.
    UpdateGraph,
    /// Tell the engine where the output meter is.
    SetLoudnessIndex(usize),
    /// Wait until playback runs.
    AwaitPlayback,
    /// Write the live chain to the current output profile.
    SyncProfiles,
    /// Publish the encryption state.
    SyncEncryption,
    /// Report whether the daemon still runs.
    CheckRunning,
    /// Answer the client.
    Finish(Response),
}

/// What an `ApplyAction` stands for.
pub enum ActionModel {
    SetMute(bool),
    Settle,
    Inspect,
    SetEngineReady(bool),
    StopEngine,
    ReadDriver,
    RequestConfig(DriverConfig),
    StartEngine { sample_rate: u32, buffer_frames: u32 },
    UpdateGraph,
    SetLoudnessIndex(usize),
    AwaitPlayback,
    SyncProfiles,
    SyncEncryption,
    CheckRunning,
    Finish(ResponseModel),
}

impl View for ApplyAction {
    type V = ActionModel;

    open spec fn view(&self) -> ActionModel {
        match *self {
            ApplyAction::SetMute(on) => ActionModel::SetMute(on),
            ApplyAction::Settle => ActionModel::Settle,
            ApplyAction::Inspect => ActionModel::Inspect,
            ApplyAction::SetEngineReady(ready) => ActionModel::SetEngineReady(ready),
            ApplyAction::StopEngine => ActionModel::StopEngine,
            ApplyAction::ReadDriver => ActionModel::ReadDriver,
            ApplyAction::RequestConfig(config) => ActionModel::RequestConfig(config),
            ApplyAction::StartEngine { sample_rate, buffer_frames } => ActionModel::StartEngine {
                sample_rate,
                buffer_frames,
            },
            ApplyAction::UpdateGraph => ActionModel::UpdateGraph,
            ApplyAction::SetLoudnessIndex(index) => ActionModel::SetLoudnessIndex(index),
            ApplyAction::AwaitPlayback => ActionModel::AwaitPlayback,
            ApplyAction::SyncProfiles => ActionModel::SyncProfiles,
            ApplyAction::SyncEncryption => ActionModel::SyncEncryption,
            ApplyAction::CheckRunning => ActionModel::CheckRunning,
            ApplyAction::Finish(response) => ActionModel::Finish(response@),
        }
    }
}

/// How the running pipeline looks.
#[derive(Debug)]
pub struct PipelineHealth {
    pub channel_count: u32,
    pub idle: bool,
    pub last_error: Option<String>,
    pub callback_count: u64,
}

/// What a `PipelineHealth` stands for.
pub struct HealthModel {
    pub channel_count: u32,
    pub idle: bool,
    pub last_error: Option<Seq<char>>,
    pub callback_count: u64,
}

impl View for PipelineHealth {
    type V = HealthModel;

    open spec fn view(&self) -> HealthModel {
        HealthModel {
            channel_count: self.channel_count,
            idle: self.idle,
            last_error: opt_text(self.last_error),
            callback_count: self.callback_count,
        }
    }
}

/// What the surroundings answer.
#[derive(Debug)]
pub enum ApplyReply {
    /// It is done.
    Done,
    /// It worked, or why it did not.
    Outcome(Result<(), String>),
    /// How the running pipeline looks.
    Health(PipelineHealth),
    /// The driver's status.
    Driver(DriverStatus),
    /// What the driver said to a format.
    Config(ConfigResult),
    /// Whether the daemon still runs.
    Running(bool),
}

/// What an `ApplyReply` stands for.
pub enum ReplyModel {
    Done,
    Outcome(Result<(), Seq<char>>),
    Health(HealthModel),
    Driver(DriverStatus),
    Config(ConfigAnswer),
    Running(bool),
}

impl View for ApplyReply {
    type V = ReplyModel;

    open spec fn view(&self) -> ReplyModel {
        match *self {
            ApplyReply::Done => ReplyModel::Done,
            ApplyReply::Outcome(Ok(_)) => ReplyModel::Outcome(Ok(())),
            ApplyReply::Outcome(Err(e)) => ReplyModel::Outcome(Err(e@)),
            ApplyReply::Health(health) => ReplyModel::Health(health@),
            ApplyReply::Driver(status) => ReplyModel::Driver(status),
            ApplyReply::Config(result) => ReplyModel::Config(result@),
            ApplyReply::Running(running) => ReplyModel::Running(running),
        }
    }
}

/// A pipeline change under way.
#[derive(Debug)]
pub struct ApplyTransaction {
    pub phase: ApplyPhase,
    /// The plan being applied: the requested one, or the previous one while it is restored.
    pub plan: PipelinePlan,
    /// The plan to go back to.
    pub previous: Option<PipelinePlan>,
    pub sample_rate: u32,
    pub buffer_frames: u32,
    /// Whether the driver format is requested even where the channel count already fits.
    pub force: bool,
    /// Whether the previous plan is being restored.
    pub restoring: bool,
    pub restore_rate: u32,
    pub restore_frames: u32,
    /// Whether playback counts as started only after a hardware callback.
    pub needs_callback: bool,
    /// Whether the output is to be unmuted at the end.
    pub unmute: bool,
    /// Why the requested change failed.
    pub error: String,
    /// The answer for the client.
    pub response: Response,
}

/// What an `ApplyTransaction` stands for.
#[verifier::ext_equal]
pub struct TransactionModel {
    pub phase: ApplyPhase,
    pub plan: PlanModel,
    pub previous: Option<PlanModel>,
    pub sample_rate: u32,
    pub buffer_frames: u32,
    pub force: bool,
    pub restoring: bool,
    pub restore_rate: u32,
    pub restore_frames: u32,
    pub needs_callback: bool,
    pub unmute: bool,
    pub error: Seq<char>,
    pub response: ResponseModel,
}

/// The view of an optional plan.
pub open spec fn opt_plan(plan: Option<PipelinePlan>) -> Option<PlanModel> {
    match plan {
        Some(p) => Some(p@),
        None => None,
    }
}

impl View for ApplyTransaction {
    type V = TransactionModel;

    open spec fn view(&self) -> TransactionModel {
        TransactionModel {
            phase: self.phase,
            plan: self.plan@,
            previous: opt_plan(self.previous),
            sample_rate: self.sample_rate,
            buffer_frames: self.buffer_frames,
            force: self.force,
            restoring: self.restoring,
            restore_rate: self.restore_rate,
            restore_frames: self.restore_frames,
            needs_callback: self.needs_callback,
            unmute: self.unmute,
            error: self.error@,
            response: self.response@,
        }
    }
}

/// Whether a driver's playback counts as started only after a hardware callback.
pub open spec fn callback_needed(status: DriverStatus) -> bool {
    status.platform_supported && status.driver_name@ != "Systemwide Lab Driver"@
}

/// Whether a driver's playback counts as started only after a hardware callback. Platforms without
/// a driver and the driver of the lab have none.
pub fn requires_playback_callback(status: &DriverStatus) -> (r: bool)
    ensures
        r == callback_needed(*status),
{
    status.platform_supported && !same_text(status.driver_name, "Systemwide Lab Driver")
}

/// The rate and buffer size to start with after a format request.
pub open spec fn timing_after(answer: ConfigAnswer, rate: u32, frames: u32) -> (u32, u32) {
    match answer {
        ConfigAnswer::Negotiated(config) => (config.sample_rate, config.buffer_frames),
        _ => (rate, frames),
    }
}

/// The rate and buffer size to start with after a format request: what the driver negotiated, else
/// what was requested.
pub fn pipeline_timing_after_config_request(
    result: &ConfigResult,
    requested_sample_rate: u32,
    requested_buffer_frames: u32,
) -> (r: (u32, u32))
    ensures
        r == timing_after(result@, requested_sample_rate, requested_buffer_frames),
{
    match result {
        ConfigResult::Negotiated { actual_rate, actual_frames, actual_channels } => (
            *actual_rate,
            *actual_frames,
        ),
        _ => (requested_sample_rate, requested_buffer_frames),
    }
}

/// Whether a text reports an error.
pub open spec fn reports_error(error: Option<Seq<char>>) -> bool {
    error is Some && error->0.len() > 0
}

/// Whether `plan` is exactly the pipeline that runs on a healthy engine: it is the applied one, the
/// driver has its channel count, and the engine streams without an error and with callbacks.
pub open spec fn already_applied(s: StateModel, plan: PlanModel, health: HealthModel) -> bool {
    &&& s.pipeline.applied is Some
    &&& same_spec(s.pipeline.applied->0.spec, plan.spec)
    &&& health.channel_count == plan.spec.input_channels as u32
    &&& !health.idle
    &&& !reports_error(health.last_error)
    &&& health.callback_count > 0
}

/// Whether `plan` is exactly the pipeline that runs on a healthy engine. Anything else takes the
/// cold path, so recovery is never skipped.
pub fn pipeline_plan_already_applied(
    state: &SystemwideState,
    plan: &PipelinePlan,
    health: &PipelineHealth,
) -> (r: bool)
    ensures
        r == already_applied(state@, plan@, health@),
{
    let same = match &state.pipeline.applied {
        Some(applied) => pipeline_specs_match(&applied.spec, &plan.spec),
        None => {
            return false;
        },
    };
    let clean = match &health.last_error {
        Some(error) => error.as_str().unicode_len() == 0,
        None => true,
    };
    let wanted = #[verifier::truncate]
    (plan.spec.input_channels as u32);
    same && health.channel_count == wanted && !health.idle && clean && health.callback_count > 0
}

/// Moves on to `phase`.
pub open spec fn at(t: TransactionModel, phase: ApplyPhase) -> TransactionModel {
    TransactionModel { phase, ..t }
}

/// The end of a transaction: the output is unmuted where it was muted, and the client is answered.
pub open spec fn concluded(t: TransactionModel, response: ResponseModel) -> (TransactionModel, ActionModel) {
    let next = TransactionModel { response, ..t };
    if t.unmute {
        (at(next, ApplyPhase::Unmuting), ActionModel::SetMute(false))
    } else {
        (at(next, ApplyPhase::Finished), ActionModel::Finish(response))
    }
}

/// The start of an attempt to apply the plan.
pub open spec fn attempt(t: TransactionModel) -> (TransactionModel, ActionModel) {
    if t.force {
        (at(t, ApplyPhase::ClearingReady), ActionModel::SetEngineReady(false))
    } else {
        (at(t, ApplyPhase::Inspecting), ActionModel::Inspect)
    }
}

/// The answer after a failed restoration.
pub open spec fn unrecovered_text(error: Seq<char>) -> Seq<char> {
    error + "; pipeline recovery also failed, restart the daemon"@
}

/// The answer after a successful restoration.
pub open spec fn restored_text(error: Seq<char>) -> Seq<char> {
    error + "; restored the last working pipeline; retry the requested change"@
}

/// What a failed attempt leads to.
pub open spec fn failed(t: TransactionModel, s: StateModel, error: Seq<char>) -> (
    TransactionModel,
    StateModel,
    ActionModel,
) {
    if t.restoring {
        let text = unrecovered_text(t.error);
        let (next, action) = concluded(t, err_response(text));
        (next, StateModel { recovery: Some(restart_recovery(text)), ..s }, action)
    } else {
        (
            TransactionModel { phase: ApplyPhase::CheckingRunning, error, ..t },
            s,
            ActionModel::CheckRunning,
        )
    }
}

/// What a running pipeline leads to: it is recorded as applied.
pub open spec fn committed(t: TransactionModel, s: StateModel) -> (
    TransactionModel,
    StateModel,
    ActionModel,
) {
    (
        at(t, ApplyPhase::SyncingProfiles),
        StateModel { pipeline: after_commit(s.pipeline, t.plan), ..s },
        ActionModel::SyncProfiles,
    )
}

/// The complaint about an engine that did not take the plan.
pub open spec fn load_failure(error: Seq<char>) -> Seq<char> {
    "Failed to load plugin chain: "@ + error
}

/// The previous plan takes the place of the one that failed, with the driver format it had.
pub open spec fn restoration(t: TransactionModel, previous: PlanModel) -> TransactionModel {
    TransactionModel {
        plan: previous,
        previous: None,
        sample_rate: t.restore_rate,
        buffer_frames: t.restore_frames,
        force: true,
        restoring: true,
        ..t
    }
}

/// Whether `reply` answers what the transaction asked for.
pub open spec fn fits(phase: ApplyPhase, reply: ReplyModel) -> bool {
    match phase {
        ApplyPhase::Muting | ApplyPhase::Starting | ApplyPhase::UpdatingGraph | ApplyPhase::Awaiting => reply is Outcome,
        ApplyPhase::Inspecting => reply is Health,
        ApplyPhase::ReadingDriver => reply is Driver,
        ApplyPhase::Configuring => reply is Config,
        ApplyPhase::CheckingRunning => reply is Running,
        ApplyPhase::Finished => false,
        _ => reply is Done,
    }
}

/// The driver format that the plan asks for, where it asks for one.
pub open spec fn format_request(t: TransactionModel, status: DriverStatus) -> Option<DriverConfig> {
    if status.driver_installed && (t.force || status.channel_count != t.plan.spec.input_channels as u32) {
        Some(
            DriverConfig {
                sample_rate: t.sample_rate,
                buffer_frames: t.buffer_frames,
                channel_count: t.plan.spec.input_channels as u32,
            },
        )
    } else {
        None
    }
}

/// What a reply leads to.
pub open spec fn apply_step(t: TransactionModel, s: StateModel, reply: ReplyModel) -> (
    TransactionModel,
    StateModel,
    ActionModel,
) {
    match (t.phase, reply) {
        (ApplyPhase::Muting, ReplyModel::Outcome(Err(e))) => (
            TransactionModel {
                phase: ApplyPhase::RestoringMute,
                error: "Failed to mute output before reconfiguration: "@ + e,
                ..t
            },
            s,
            ActionModel::SetMute(false),
        ),
        (ApplyPhase::Muting, ReplyModel::Outcome(Ok(_))) => (
            TransactionModel { phase: ApplyPhase::Settling, unmute: true, ..t },
            s,
            ActionModel::Settle,
        ),
        (ApplyPhase::RestoringMute, ReplyModel::Done) => {
            let (next, action) = concluded(t, err_response(t.error));
            (next, s, action)
        },
        (ApplyPhase::Settling, ReplyModel::Done) => {
            let (next, action) = attempt(t);
            (next, s, action)
        },
        (ApplyPhase::Inspecting, ReplyModel::Health(health)) => if already_applied(s, t.plan, health) {
            let (next, action) = concluded(t, ok_response(generation_json(s.pipeline.generation)));
            (next, StateModel { recovery: None, ..s }, action)
        } else {
            (at(t, ApplyPhase::ClearingReady), s, ActionModel::SetEngineReady(false))
        },
        (ApplyPhase::ClearingReady, ReplyModel::Done) => (
            at(t, ApplyPhase::Stopping),
            s,
            ActionModel::StopEngine,
        ),
        (ApplyPhase::Stopping, ReplyModel::Done) => (
            at(t, ApplyPhase::ReadingDriver),
            s,
            ActionModel::ReadDriver,
        ),
        (ApplyPhase::ReadingDriver, ReplyModel::Driver(status)) => {
            let next = TransactionModel { needs_callback: callback_needed(status), ..t };
            match format_request(t, status) {
                Some(config) => (
                    at(next, ApplyPhase::Configuring),
                    s,
                    ActionModel::RequestConfig(config),
                ),
                None => (
                    at(next, ApplyPhase::Starting),
                    s,
                    ActionModel::StartEngine {
                        sample_rate: t.sample_rate,
                        buffer_frames: t.buffer_frames,
                    },
                ),
            }
        },
        (ApplyPhase::Configuring, ReplyModel::Config(ConfigAnswer::Error(fault))) => failed(
            t,
            s,
            "Failed to set HAL input channels: "@ + fault_text(fault),
        ),
        (ApplyPhase::Configuring, ReplyModel::Config(answer)) => {
            let (sample_rate, buffer_frames) = timing_after(answer, t.sample_rate, t.buffer_frames);
            (
                at(t, ApplyPhase::Starting),
                s,
                ActionModel::StartEngine { sample_rate, buffer_frames },
            )
        },
        (ApplyPhase::Starting, ReplyModel::Outcome(Err(e))) => failed(t, s, load_failure(e)),
        (ApplyPhase::Starting, ReplyModel::Outcome(Ok(_))) => if t.plan.runtime_graph is Some {
            (at(t, ApplyPhase::UpdatingGraph), s, ActionModel::UpdateGraph)
        } else {
            (
                at(t, ApplyPhase::SettingLoudness),
                s,
                ActionModel::SetLoudnessIndex(t.plan.output_loudness_index),
            )
        },
        (ApplyPhase::UpdatingGraph, ReplyModel::Outcome(Err(e))) => (
            TransactionModel {
                phase: ApplyPhase::StoppingGraph,
                error: if t.restoring { t.error } else { load_failure(e) },
                ..t
            },
            s,
            ActionModel::StopEngine,
        ),
        (ApplyPhase::UpdatingGraph, ReplyModel::Outcome(Ok(_))) => (
            at(t, ApplyPhase::SettingLoudness),
            s,
            ActionModel::SetLoudnessIndex(t.plan.output_loudness_index),
        ),
        (ApplyPhase::StoppingGraph, ReplyModel::Done) => failed(t, s, t.error),
        (ApplyPhase::SettingLoudness, ReplyModel::Done) => if t.needs_callback {
            (at(t, ApplyPhase::Awaiting), s, ActionModel::AwaitPlayback)
        } else {
            committed(t, s)
        },
        (ApplyPhase::Awaiting, ReplyModel::Outcome(Err(e))) => failed(t, s, load_failure(e)),
        (ApplyPhase::Awaiting, ReplyModel::Outcome(Ok(_))) => committed(t, s),
        (ApplyPhase::SyncingProfiles, ReplyModel::Done) => (
            at(t, ApplyPhase::PublishingReady),
            s,
            ActionModel::SetEngineReady(true),
        ),
        (ApplyPhase::PublishingReady, ReplyModel::Done) => (
            at(t, ApplyPhase::SyncingEncryption),
            s,
            ActionModel::SyncEncryption,
        ),
        (ApplyPhase::SyncingEncryption, ReplyModel::Done) => {
            let (next, action) = concluded(
                t,
                if t.restoring { err_response(restored_text(t.error)) } else { done_response() },
            );
            (next, StateModel { recovery: None, ..s }, action)
        },
        (ApplyPhase::CheckingRunning, ReplyModel::Running(running)) => match t.previous {
            Some(previous) if running => (
                at(restoration(t, previous), ApplyPhase::ClearingReady),
                s,
                ActionModel::SetEngineReady(false),
            ),
            _ => {
                let (next, action) = concluded(t, err_response(t.error));
                (
                    next,
                    if running {
                        StateModel { recovery: Some(restart_recovery(t.error)), ..s }
                    } else {
                        s
                    },
                    action,
                )
            },
        },
        (ApplyPhase::Unmuting, ReplyModel::Done) => (
            at(t, ApplyPhase::Finished),
            s,
            ActionModel::Finish(t.response),
        ),
        _ => (at(t, ApplyPhase::Finished), s, ActionModel::Finish(t.response)),
    }
}

/// The data of an answer that names the generation.
pub open spec fn generation_json(generation: u64) -> Json {
    Json::Object(map!["generation"@ => Json::Number(JsonNum::Unsigned(generation))])
}

/// Whether `previous` is the plan to go back to: one prepared from the applied spec, where there is
/// one and it can be prepared.
pub open spec fn is_previous_plan<F: Fn(&PluginGraphConfig) -> Result<(), String>>(
    validate: F,
    s: StateModel,
    fallback: usize,
    configured: Option<Seq<char>>,
    previous: Option<PlanModel>,
) -> bool {
    match s.pipeline.applied {
        None => previous is None,
        Some(applied) => exists|out: Result<PlanModel, Seq<char>>|
            (#[trigger] spec_plan_outcome(validate, applied.spec, fallback, configured, out))
                && previous == plan_if_ok(out),
    }
}

/// The plan of a successful preparation.
pub open spec fn plan_if_ok(out: Result<PlanModel, Seq<char>>) -> Option<PlanModel> {
    match out {
        Ok(plan) => Some(plan),
        Err(_) => None,
    }
}

/// A driver setting, or another value where the driver reports none.
pub open spec fn setting_or(reported: u32, otherwise: u32) -> u32 {
    if reported > 0 {
        reported
    } else {
        otherwise
    }
}

/// The channel count that the driver reports, or stereo.
pub open spec fn fallback_channels(status: DriverStatus) -> usize {
    if status.channel_count > 0 {
        status.channel_count as usize
    } else {
        2
    }
}

/// A transaction before its first step.
pub open spec fn opening(
    plan: PlanModel,
    status: DriverStatus,
    sample_rate: u32,
    buffer_frames: u32,
    force: bool,
    previous: Option<PlanModel>,
) -> TransactionModel {
    TransactionModel {
        phase: ApplyPhase::Muting,
        plan,
        previous,
        sample_rate,
        buffer_frames,
        force,
        restoring: false,
        restore_rate: setting_or(status.sample_rate, sample_rate),
        restore_frames: setting_or(status.buffer_frames, buffer_frames),
        needs_callback: true,
        unmute: false,
        error: "pipeline apply failed"@,
        response: err_response("pipeline apply failed"@),
    }
}

/// The first step: audible output is muted, silent output needs no mute.
pub open spec fn opened(t: TransactionModel, audible: bool) -> (TransactionModel, ActionModel) {
    if audible {
        (t, ActionModel::SetMute(true))
    } else {
        attempt(t)
    }
}

/// Whether a transaction begins as `first` says.
pub open spec fn begins<F: Fn(&PluginGraphConfig) -> Result<(), String>>(
    validate: F,
    s: StateModel,
    configured: Option<Seq<char>>,
    plan: PlanModel,
    status: DriverStatus,
    sample_rate: u32,
    buffer_frames: u32,
    force: bool,
    audible: bool,
    first: (TransactionModel, ActionModel),
) -> bool {
    exists|previous: Option<PlanModel>|
        (#[trigger] is_previous_plan(validate, s, fallback_channels(status), configured, previous))
            && first == opened(
            opening(plan, status, sample_rate, buffer_frames, force, previous),
            audible,
        )
}

pub(crate) fn previous_plan<F: Fn(&PluginGraphConfig) -> Result<(), String>>(
    state: &SystemwideState,
    fallback: usize,
    configured: &Option<String>,
    validate: &F,
) -> (r: Option<PipelinePlan>)
    requires
        accepts_graphs(*validate),
    ensures
        is_previous_plan(*validate, state@, fallback, opt_text(*configured), opt_plan(r)),
{
    match &state.pipeline.applied {
        None => None,
        Some(applied) => {
            let out = state.prepare_from_spec(&applied.spec, fallback, configured, validate);
            proof {
                assert(spec_plan_outcome(
                    *validate,
                    applied.spec@,
                    fallback,
                    opt_text(*configured),
                    plan_outcome(out),
                ));
            }
            match out {
                Ok(plan) => Some(plan),
                Err(_) => None,
            }
        },
    }
}

impl ApplyTransaction {
    /// Begins a change to `plan`. `driver_status` is the driver's status before the change, and
    /// `audible` says whether output plays and is not muted.
    pub fn begin<F: Fn(&PluginGraphConfig) -> Result<(), String>>(
        state: &SystemwideState,
        plan: PipelinePlan,
        driver_status: &DriverStatus,
        sample_rate: u32,
        buffer_frames: u32,
        force: bool,
        audible: bool,
        configured: &Option<String>,
        validate: &F,
    ) -> (r: (ApplyTransaction, ApplyAction))
        requires
            accepts_graphs(*validate),
        ensures
            begins(
                *validate,
                state@,
                opt_text(*configured),
                plan@,
                *driver_status,
                sample_rate,
                buffer_frames,
                force,
                audible,
                (r.0@, r.1@),
            ),
    {
        let fallback: usize = if driver_status.channel_count > 0 {
            driver_status.channel_count as usize
        } else {
            2
        };
        let previous = previous_plan(state, fallback, configured, validate);
        let ghost known = opt_plan(previous);
        let ghost first = opening(
            plan@,
            *driver_status,
            sample_rate,
            buffer_frames,
            force,
            opt_plan(previous),
        );
        let restore_rate: u32 = if driver_status.sample_rate > 0 {
            driver_status.sample_rate
        } else {
            sample_rate
        };
        let restore_frames: u32 = if driver_status.buffer_frames > 0 {
            driver_status.buffer_frames
        } else {
            buffer_frames
        };
        let mut transaction = ApplyTransaction {
            phase: ApplyPhase::Muting,
            plan,
            previous,
            sample_rate,
            buffer_frames,
            force,
            restoring: false,
            restore_rate,
            restore_frames,
            needs_callback: true,
            unmute: false,
            error: "pipeline apply failed".to_owned(),
            response: Response::err("pipeline apply failed".to_owned()),
        };
        proof {
            assert(transaction@ =~= first);
            assert(is_previous_plan(
                *validate,
                state@,
                fallback_channels(*driver_status),
                opt_text(*configured),
                known,
            ));
        }
        let action = if audible {
            ApplyAction::SetMute(true)
        } else {
            transaction.attempt()
        };
        proof {
            assert((transaction@, action@) == opened(first, audible));
        }
        (transaction, action)
    }

    fn attempt(&mut self) -> (r: ApplyAction)
        ensures
            (final(self)@, r@) == attempt(old(self)@),
    {
        if self.force {
            self.phase = ApplyPhase::ClearingReady;
            ApplyAction::SetEngineReady(false)
        } else {
            self.phase = ApplyPhase::Inspecting;
            ApplyAction::Inspect
        }
    }

    fn conclude(&mut self, response: Response) -> (r: ApplyAction)
        ensures
            (final(self)@, r@) == concluded(old(self)@, response@),
    {
        if self.unmute {
            self.response = response;
            self.phase = ApplyPhase::Unmuting;
            ApplyAction::SetMute(false)
        } else {
            self.response = response.clone();
            self.phase = ApplyPhase::Finished;
            ApplyAction::Finish(response)
        }
    }

    fn fail(&mut self, state: &mut SystemwideState, error: String) -> (r: ApplyAction)
        ensures
            (final(self)@, final(state)@, r@) == failed(old(self)@, old(state)@, error@),
    {
        if self.restoring {
            let text = join2(
                self.error.as_str(),
                "; pipeline recovery also failed, restart the daemon",
            );
            state.mark_pipeline_recovery(text.clone());
            self.conclude(Response::err(text))
        } else {
            self.phase = ApplyPhase::CheckingRunning;
            self.error = error;
            ApplyAction::CheckRunning
        }
    }

    fn commit(&mut self, state: &mut SystemwideState) -> (r: ApplyAction)
        ensures
            (final(self)@, final(state)@, r@) == committed(old(self)@, old(state)@),
    {
        state.commit_applied(&self.plan);
        self.phase = ApplyPhase::SyncingProfiles;
        ApplyAction::SyncProfiles
    }

    fn set_loudness(&mut self) -> (r: ApplyAction)
        ensures
            final(self)@ == at(old(self)@, ApplyPhase::SettingLoudness),
            r@ == ActionModel::SetLoudnessIndex(old(self)@.plan.output_loudness_index),
    {
        self.phase = ApplyPhase::SettingLoudness;
        ApplyAction::SetLoudnessIndex(self.plan.output_loudness_index)
    }

    fn read_driver(&mut self, status: &DriverStatus) -> (r: ApplyAction)
        requires
            old(self)@.phase == ApplyPhase::ReadingDriver,
        ensures
            forall|s: StateModel|
                (final(self)@, s, r@) == #[trigger] apply_step(old(self)@, s, ReplyModel::Driver(*status)),
    {
        let wanted = #[verifier::truncate]
        (self.plan.spec.input_channels as u32);
        self.needs_callback = requires_playback_callback(status);
        if status.driver_installed && (self.force || status.channel_count != wanted) {
            self.phase = ApplyPhase::Configuring;
            ApplyAction::RequestConfig(
                DriverConfig::new(self.sample_rate, self.buffer_frames, wanted),
            )
        } else {
            self.phase = ApplyPhase::Starting;
            ApplyAction::StartEngine {
                sample_rate: self.sample_rate,
                buffer_frames: self.buffer_frames,
            }
        }
    }

    fn check_running(&mut self, state: &mut SystemwideState, running: bool) -> (r: ApplyAction)
        requires
            old(self)@.phase == ApplyPhase::CheckingRunning,
        ensures
            (final(self)@, final(state)@, r@) == apply_step(
                old(self)@,
                old(state)@,
                ReplyModel::Running(running),
            ),
    {
        if !running {
            let text = self.error.clone();
            return self.conclude(Response::err(text));
        }
        match self.previous.take() {
            Some(previous) => {
                self.plan = previous;
                self.sample_rate = self.restore_rate;
                self.buffer_frames = self.restore_frames;
                self.force = true;
                self.restoring = true;
                self.phase = ApplyPhase::ClearingReady;
                ApplyAction::SetEngineReady(false)
            },
            None => {
                let text = self.error.clone();
                state.mark_pipeline_recovery(text.clone());
                self.conclude(Response::err(text))
            },
        }
    }

    /// Takes the answer to the last action and says what to do next.
    pub fn step(&mut self, state: &mut SystemwideState, reply: ApplyReply) -> (r: ApplyAction)
        requires
            fits(old(self)@.phase, reply@),
        ensures
            (final(self)@, final(state)@, r@) == apply_step(old(self)@, old(state)@, reply@),
    {
        match (self.phase, reply) {
            (ApplyPhase::Muting, ApplyReply::Outcome(Err(error))) => {
                self.phase = ApplyPhase::RestoringMute;
                self.error = join2(
                    "Failed to mute output before reconfiguration: ",
                    error.as_str(),
                );
                ApplyAction::SetMute(false)
            },
            (ApplyPhase::Muting, _) => {
                self.phase = ApplyPhase::Settling;
                self.unmute = true;
                ApplyAction::Settle
            },
            (ApplyPhase::RestoringMute, _) => {
                let text = self.error.clone();
                self.conclude(Response::err(text))
            },
            (ApplyPhase::Settling, _) => self.attempt(),
            (ApplyPhase::Inspecting, ApplyReply::Health(health)) => {
                if pipeline_plan_already_applied(state, &self.plan, &health) {
                    let mut data = JsonObject::new();
                    data.put_unsigned("generation", state.generation());
                    state.clear_pipeline_recovery();
                    self.conclude(Response::ok(data.finish()))
                } else {
                    self.phase = ApplyPhase::ClearingReady;
                    ApplyAction::SetEngineReady(false)
                }
            },
            (ApplyPhase::ClearingReady, _) => {
                self.phase = ApplyPhase::Stopping;
                ApplyAction::StopEngine
            },
            (ApplyPhase::Stopping, _) => {
                self.phase = ApplyPhase::ReadingDriver;
                ApplyAction::ReadDriver
            },
            (ApplyPhase::ReadingDriver, ApplyReply::Driver(status)) => self.read_driver(&status),
            (ApplyPhase::Configuring, ApplyReply::Config(ConfigResult::Error(error))) => {
                let why = error.to_string();
                self.fail(state, join2("Failed to set HAL input channels: ", why.as_str()))
            },
            (ApplyPhase::Configuring, ApplyReply::Config(result)) => {
                let (sample_rate, buffer_frames) = pipeline_timing_after_config_request(
                    &result,
                    self.sample_rate,
                    self.buffer_frames,
                );
                self.phase = ApplyPhase::Starting;
                ApplyAction::StartEngine { sample_rate, buffer_frames }
            },
            (ApplyPhase::Starting, ApplyReply::Outcome(Err(error))) => self.fail(
                state,
                join2("Failed to load plugin chain: ", error.as_str()),
            ),
            (ApplyPhase::Starting, _) => {
                if self.plan.runtime_graph.is_some() {
                    self.phase = ApplyPhase::UpdatingGraph;
                    ApplyAction::UpdateGraph
                } else {
                    self.set_loudness()
                }
            },
            (ApplyPhase::UpdatingGraph, ApplyReply::Outcome(Err(error))) => {
                self.phase = ApplyPhase::StoppingGraph;
                if !self.restoring {
                    self.error = join2("Failed to load plugin chain: ", error.as_str());
                }
                ApplyAction::StopEngine
            },
            (ApplyPhase::UpdatingGraph, _) => self.set_loudness(),
            (ApplyPhase::StoppingGraph, _) => {
                let text = self.error.clone();
                self.fail(state, text)
            },
            (ApplyPhase::SettingLoudness, _) => {
                if self.needs_callback {
                    self.phase = ApplyPhase::Awaiting;
                    ApplyAction::AwaitPlayback
                } else {
                    self.commit(state)
                }
            },
            (ApplyPhase::Awaiting, ApplyReply::Outcome(Err(error))) => self.fail(
                state,
                join2("Failed to load plugin chain: ", error.as_str()),
            ),
            (ApplyPhase::Awaiting, _) => self.commit(state),
            (ApplyPhase::SyncingProfiles, _) => {
                self.phase = ApplyPhase::PublishingReady;
                ApplyAction::SetEngineReady(true)
            },
            (ApplyPhase::PublishingReady, _) => {
                self.phase = ApplyPhase::SyncingEncryption;
                ApplyAction::SyncEncryption
            },
            (ApplyPhase::SyncingEncryption, _) => {
                state.clear_pipeline_recovery();
                if self.restoring {
                    let text = join2(
                        self.error.as_str(),
                        "; restored the last working pipeline; retry the requested change",
                    );
                    self.conclude(Response::err(text))
                } else {
                    self.conclude(Response::ok_empty())
                }
            },
            (ApplyPhase::CheckingRunning, ApplyReply::Running(running)) => self.check_running(
                state,
                running,
            ),
            _ => {
                self.phase = ApplyPhase::Finished;
                ApplyAction::Finish(self.response.clone())
            },
        }
    }}

/// The plugins with which the engine starts for a plan.
pub open spec fn bootstrap_chain(plan: PlanModel) -> Seq<PluginModel> {
    if plan.runtime_graph is Some {
        metered_chain(Seq::empty())
    } else {
        plan.runtime_plugins
    }
}

/// The plugins with which the engine starts for a plan.
pub fn bootstrap_plugins_for(plan: &PipelinePlan) -> (r: Vec<PluginConfig>)
    ensures
        plugin_models(r@) == bootstrap_chain(plan@),
{
    if plan.runtime_graph.is_some() {
        let none: Vec<PluginConfig> = Vec::new();
        proof {
            assert(plugin_models(none@) =~= Seq::<PluginModel>::empty());
        }
        build_driver_plugin_chain(none).0
    } else {
        copy_plugins(&plan.runtime_plugins)
    }
}

/// What a transaction has done to its surroundings.
pub struct ApplyWorld {
    /// Whether a started engine runs.
    pub started: bool,
    /// Whether playback was seen to run since the engine started.
    pub confirmed: bool,
    /// What the driver was told last about the engine.
    pub ready: bool,
    /// Whether the driver was told that the engine is not ready since the transaction began.
    pub cleared: bool,
    /// Whether the transaction holds the output muted.
    pub muted: bool,
}

/// The surroundings after an action and its answer.
pub open spec fn performed(w: ApplyWorld, action: ActionModel, reply: ReplyModel) -> ApplyWorld {
    match (action, reply) {
        (ActionModel::SetMute(on), _) => ApplyWorld { muted: on, ..w },
        (ActionModel::SetEngineReady(ready), _) => ApplyWorld {
            ready,
            cleared: w.cleared || !ready,
            ..w
        },
        (ActionModel::StopEngine, _) => ApplyWorld { started: false, confirmed: false, ..w },
        (ActionModel::StartEngine { .. }, ReplyModel::Outcome(out)) => ApplyWorld {
            started: out is Ok,
            confirmed: false,
            ..w
        },
        (ActionModel::AwaitPlayback, ReplyModel::Outcome(out)) => ApplyWorld { confirmed: out is Ok, ..w },
        _ => w,
    }
}

/// Whether the engine runs the plan and, where the driver needs it, was seen to play.
pub open spec fn runs_plan(t: TransactionModel, s: StateModel, w: ApplyWorld) -> bool {
    &&& w.started
    &&& t.needs_callback ==> w.confirmed
    &&& s.pipeline.applied is Some
    &&& s.pipeline.applied->0.spec == t.plan.spec
    &&& s.pipeline.desired == t.plan.spec
}

/// What holds at the end of a transaction.
pub open spec fn ends_well(t: TransactionModel, s: StateModel, w: ApplyWorld) -> bool {
    if t.response.success {
        &&& s.recovery is None
        &&& s.pipeline.applied is Some
        &&& w.cleared ==> w.ready && runs_plan(t, s, w)
        &&& !w.cleared ==> same_spec(s.pipeline.applied->0.spec, t.plan.spec)
    } else {
        w.cleared ==> !w.ready || (t.restoring && s.recovery is None && runs_plan(t, s, w)
            && t.response.error == Some(restored_text(t.error)))
    }
}

/// Whether the transaction, the state and the surroundings agree, with `action` asked for and not
/// yet answered.
pub open spec fn in_step(t: TransactionModel, s: StateModel, w: ApplyWorld, action: ActionModel) -> bool {
    &&& t.restoring ==> t.force && t.sample_rate == t.restore_rate && t.buffer_frames
        == t.restore_frames && t.previous is None && w.cleared
    &&& match t.phase {
        ApplyPhase::Muting => action == ActionModel::SetMute(true) && !w.cleared && !w.muted
            && !t.unmute,
        ApplyPhase::RestoringMute => action == ActionModel::SetMute(false) && !w.cleared
            && !t.unmute,
        ApplyPhase::Settling => action == ActionModel::Settle && !w.cleared && w.muted == t.unmute,
        ApplyPhase::Inspecting => action == ActionModel::Inspect && !w.cleared && w.muted == t.unmute,
        ApplyPhase::ClearingReady => action == ActionModel::SetEngineReady(false) && w.muted
            == t.unmute,
        ApplyPhase::Stopping => action == ActionModel::StopEngine && w.cleared && !w.ready
            && w.muted == t.unmute,
        ApplyPhase::ReadingDriver => action == ActionModel::ReadDriver && w.cleared && !w.ready
            && w.muted == t.unmute,
        ApplyPhase::Configuring => action is RequestConfig && w.cleared && !w.ready && w.muted
            == t.unmute,
        ApplyPhase::Starting => action is StartEngine && w.cleared && !w.ready && w.muted
            == t.unmute,
        ApplyPhase::UpdatingGraph => action == ActionModel::UpdateGraph && w.cleared && !w.ready
            && w.started && w.muted == t.unmute,
        ApplyPhase::StoppingGraph => action == ActionModel::StopEngine && w.cleared && !w.ready
            && w.muted == t.unmute,
        ApplyPhase::SettingLoudness => action is SetLoudnessIndex && w.cleared && !w.ready
            && w.started && w.muted == t.unmute,
        ApplyPhase::Awaiting => action == ActionModel::AwaitPlayback && w.cleared && !w.ready
            && w.started && w.muted == t.unmute,
        ApplyPhase::SyncingProfiles => action == ActionModel::SyncProfiles && w.cleared && !w.ready
            && runs_plan(t, s, w) && w.muted == t.unmute,
        ApplyPhase::PublishingReady => action == ActionModel::SetEngineReady(true) && w.cleared
            && runs_plan(t, s, w) && w.muted == t.unmute,
        ApplyPhase::SyncingEncryption => action == ActionModel::SyncEncryption && w.cleared && w.ready
            && runs_plan(t, s, w) && w.muted == t.unmute,
        ApplyPhase::CheckingRunning => action == ActionModel::CheckRunning && w.cleared && !w.ready
            && !t.restoring && w.muted == t.unmute,
        ApplyPhase::Unmuting => action == ActionModel::SetMute(false) && ends_well(t, s, w),
        ApplyPhase::Finished => action == ActionModel::Finish(t.response) && !w.muted && ends_well(
            t,
            s,
            w,
        ),
    }
}

/// A transaction begins in step with its surroundings.
pub proof fn transactions_begin_in_step(
    plan: PlanModel,
    status: DriverStatus,
    sample_rate: u32,
    buffer_frames: u32,
    force: bool,
    audible: bool,
    previous: Option<PlanModel>,
    s: StateModel,
    w: ApplyWorld,
)
    requires
        !w.cleared,
        !w.muted,
    ensures
        ({
            let first = opened(
                opening(plan, status, sample_rate, buffer_frames, force, previous),
                audible,
            );
            in_step(first.0, s, w, first.1)
        }),
{
}

/// Every step keeps a transaction in step with its surroundings. So the driver is told that the
/// engine is ready only while the engine runs the plan that is recorded as applied and, where the
/// driver needs it, playback was seen. A change that fails leaves the engine not ready, or the
/// previous plan running with the driver format it had. And the output is left unmuted.
pub proof fn steps_stay_in_step(
    t: TransactionModel,
    s: StateModel,
    w: ApplyWorld,
    action: ActionModel,
    reply: ReplyModel,
)
    requires
        in_step(t, s, w, action),
        fits(t.phase, reply),
    ensures
        ({
            let next = apply_step(t, s, reply);
            in_step(next.0, next.1, performed(w, action, reply), next.2)
        }),
{
}

/// The pipelines change only where a plan was seen to run, and then to that plan in the next
/// generation.
pub proof fn only_running_plans_are_committed(
    t: TransactionModel,
    s: StateModel,
    w: ApplyWorld,
    action: ActionModel,
    reply: ReplyModel,
)
    requires
        in_step(t, s, w, action),
        fits(t.phase, reply),
    ensures
        ({
            let next = apply_step(t, s, reply);
            let after = performed(w, action, reply);
            ||| next.1.pipeline == s.pipeline
            ||| next.1.pipeline == after_commit(s.pipeline, t.plan) && after.started && (
            t.needs_callback ==> after.confirmed)
        }),
{
}

/// While the previous plan is restored, an installed driver is always asked for the format that it
/// had before the change, with the channels of the previous plan.
pub proof fn restoration_requests_the_previous_format(
    t: TransactionModel,
    s: StateModel,
    w: ApplyWorld,
    action: ActionModel,
    status: DriverStatus,
)
    requires
        in_step(t, s, w, action),
        t.phase == ApplyPhase::ReadingDriver,
        t.restoring,
        status.driver_installed,
    ensures
        apply_step(t, s, ReplyModel::Driver(status)).2 == ActionModel::RequestConfig(
            (DriverConfig {
                sample_rate: t.restore_rate,
                buffer_frames: t.restore_frames,
                channel_count: t.plan.spec.input_channels as u32,
            }),
        ),
{
}

/// How many steps a transaction is from its end, at most.
pub open spec fn steps_left(t: TransactionModel) -> nat {
    let own = match t.phase {
        ApplyPhase::Muting => 18,
        ApplyPhase::Settling => 17,
        ApplyPhase::Inspecting => 16,
        ApplyPhase::ClearingReady => 15,
        ApplyPhase::Stopping => 14,
        ApplyPhase::ReadingDriver => 13,
        ApplyPhase::Configuring => 12,
        ApplyPhase::Starting => 11,
        ApplyPhase::UpdatingGraph => 10,
        ApplyPhase::StoppingGraph => 9,
        ApplyPhase::SettingLoudness => 9,
        ApplyPhase::Awaiting => 8,
        ApplyPhase::SyncingProfiles => 7,
        ApplyPhase::PublishingReady => 6,
        ApplyPhase::SyncingEncryption => 5,
        ApplyPhase::CheckingRunning => 4,
        ApplyPhase::RestoringMute => 3,
        ApplyPhase::Unmuting => 2,
        ApplyPhase::Finished => 0nat,
    };
    if t.restoring || t.phase == ApplyPhase::Finished {
        own
    } else {
        own + 20
    }
}

/// Every step brings a transaction nearer to its end, so every change is answered.
pub proof fn transactions_end(
    t: TransactionModel,
    s: StateModel,
    w: ApplyWorld,
    action: ActionModel,
    reply: ReplyModel,
)
    requires
        in_step(t, s, w, action),
        fits(t.phase, reply),
    ensures
        steps_left(apply_step(t, s, reply).0) < steps_left(t),
        apply_step(t, s, reply).2 is Finish <==> apply_step(t, s, reply).0.phase == ApplyPhase::Finished,
{
}

/// Whether replies answer, one after the other, what a transaction asks for.
pub open spec fn replies_fit(t: TransactionModel, s: StateModel, replies: Seq<ReplyModel>) -> bool
    decreases replies.len(),
{
    replies.len() > 0 ==> {
        let next = apply_step(t, s, replies[0]);
        fits(t.phase, replies[0]) && replies_fit(next.0, next.1, replies.drop_first())
    }
}

/// A transaction and the state after some replies.
pub open spec fn after_replies(t: TransactionModel, s: StateModel, replies: Seq<ReplyModel>) -> (
    TransactionModel,
    StateModel,
)
    decreases replies.len(),
{
    if replies.len() == 0 {
        (t, s)
    } else {
        let next = apply_step(t, s, replies[0]);
        after_replies(next.0, next.1, replies.drop_first())
    }
}

/// How far a transaction that began with `plan`, `previous` and the pipelines `before` has come: it
/// works on the plan or on the previous one, and nothing has changed before its commit.
pub open spec fn on_course(
    t: TransactionModel,
    s: StateModel,
    plan: PlanModel,
    previous: Option<PlanModel>,
    before: SupervisorModel,
) -> bool {
    &&& t.restoring ==> previous == Some(t.plan) && t.previous is None && t.force && t.phase
        != ApplyPhase::Inspecting
    &&& !t.restoring ==> t.plan == plan && t.previous == previous
    &&& match t.phase {
        ApplyPhase::SyncingProfiles | ApplyPhase::PublishingReady | ApplyPhase::SyncingEncryption => s.pipeline
            == after_commit(before, t.plan),
        ApplyPhase::Unmuting | ApplyPhase::Finished => whole_or_not_at_all(t, s, plan, previous, before),
        _ => s.pipeline == before,
    }
}

/// What a transaction may have made of the pipelines at its end.
pub open spec fn whole_or_not_at_all(
    t: TransactionModel,
    s: StateModel,
    plan: PlanModel,
    previous: Option<PlanModel>,
    before: SupervisorModel,
) -> bool {
    if t.response.success {
        ||| s.pipeline == after_commit(before, plan)
        ||| s.pipeline == before && before.applied is Some && same_spec(
            before.applied->0.spec,
            plan.spec,
        )
    } else {
        ||| s.pipeline == before
        ||| previous is Some && s.pipeline == after_commit(before, previous->0)
    }
}

proof fn lemma_stays_on_course(
    t: TransactionModel,
    s: StateModel,
    replies: Seq<ReplyModel>,
    plan: PlanModel,
    previous: Option<PlanModel>,
    before: SupervisorModel,
)
    requires
        on_course(t, s, plan, previous, before),
        replies_fit(t, s, replies),
    ensures
        ({
            let last = after_replies(t, s, replies);
            on_course(last.0, last.1, plan, previous, before)
        }),
    decreases replies.len(),
{
    if replies.len() > 0 {
        let next = apply_step(t, s, replies[0]);
        lemma_stays_on_course(next.0, next.1, replies.drop_first(), plan, previous, before);
    }
}

/// A change takes effect as a whole or not at all. When it is answered with success, its plan is
/// the applied one, in the next generation unless it was applied before. When it is answered with a
/// failure, the pipelines are what they were, or the previous plan is applied again.
pub proof fn changes_take_effect_whole_or_not_at_all(
    plan: PlanModel,
    status: DriverStatus,
    sample_rate: u32,
    buffer_frames: u32,
    force: bool,
    audible: bool,
    previous: Option<PlanModel>,
    s: StateModel,
    replies: Seq<ReplyModel>,
)
    requires
        ({
            let first = opened(
                opening(plan, status, sample_rate, buffer_frames, force, previous),
                audible,
            );
            &&& replies_fit(first.0, s, replies)
            &&& after_replies(first.0, s, replies).0.phase == ApplyPhase::Finished
        }),
    ensures
        ({
            let first = opened(
                opening(plan, status, sample_rate, buffer_frames, force, previous),
                audible,
            );
            let last = after_replies(first.0, s, replies);
            whole_or_not_at_all(last.0, last.1, plan, previous, s.pipeline)
        }),
{
    let first = opened(opening(plan, status, sample_rate, buffer_frames, force, previous), audible);
    lemma_stays_on_course(first.0, s, replies, plan, previous, s.pipeline);
}

proof fn lemma_forced_changes_commit(
    t: TransactionModel,
    s: StateModel,
    replies: Seq<ReplyModel>,
    plan: PlanModel,
    previous: Option<PlanModel>,
    before: SupervisorModel,
)
    requires
        on_course(t, s, plan, previous, before),
        t.force,
        t.phase != ApplyPhase::Inspecting,
        (t.phase == ApplyPhase::Unmuting || t.phase == ApplyPhase::Finished) && t.response.success
            ==> s.pipeline == after_commit(before, plan),
        replies_fit(t, s, replies),
    ensures
        ({
            let last = after_replies(t, s, replies);
            last.0.phase == ApplyPhase::Finished && last.0.response.success ==> last.1.pipeline
                == after_commit(before, plan)
        }),
    decreases replies.len(),
{
    if replies.len() > 0 {
        let next = apply_step(t, s, replies[0]);
        lemma_forced_changes_commit(next.0, next.1, replies.drop_first(), plan, previous, before);
    }
}

/// A forced change is never skipped: when it is answered with success, its plan was started anew and
/// is applied in the next generation, even where it was applied and healthy before.
pub proof fn forced_changes_start_anew(
    plan: PlanModel,
    status: DriverStatus,
    sample_rate: u32,
    buffer_frames: u32,
    audible: bool,
    previous: Option<PlanModel>,
    s: StateModel,
    replies: Seq<ReplyModel>,
)
    requires
        ({
            let first = opened(
                opening(plan, status, sample_rate, buffer_frames, true, previous),
                audible,
            );
            &&& replies_fit(first.0, s, replies)
            &&& after_replies(first.0, s, replies).0.phase == ApplyPhase::Finished
        }),
    ensures
        ({
            let first = opened(
                opening(plan, status, sample_rate, buffer_frames, true, previous),
                audible,
            );
            let last = after_replies(first.0, s, replies);
            last.0.response.success ==> last.1.pipeline == after_commit(s.pipeline, plan)
        }),
{
    let first = opened(opening(plan, status, sample_rate, buffer_frames, true, previous), audible);
    lemma_forced_changes_commit(first.0, s, replies, plan, previous, s.pipeline);
}

/// Where a change stands: the transaction, the state, and what the transaction asks for.
pub open spec fn begun(
    plan: PlanModel,
    status: DriverStatus,
    sample_rate: u32,
    buffer_frames: u32,
    force: bool,
    audible: bool,
    previous: Option<PlanModel>,
    s: StateModel,
) -> (TransactionModel, StateModel, ActionModel) {
    let first = opened(opening(plan, status, sample_rate, buffer_frames, force, previous), audible);
    (first.0, s, first.1)
}

/// Where a change stands after a reply.
pub open spec fn replied(at: (TransactionModel, StateModel, ActionModel), reply: ReplyModel) -> (
    TransactionModel,
    StateModel,
    ActionModel,
) {
    apply_step(at.0, at.1, reply)
}

/// Whether a transaction still works towards the formats it began with: the requested one, or while
/// it restores the previous plan the one that the driver had.
spec fn keeps_formats(
    t: TransactionModel,
    sample_rate: u32,
    buffer_frames: u32,
    had_rate: u32,
    had_frames: u32,
) -> bool {
    &&& t.restore_rate == had_rate && t.restore_frames == had_frames
    &&& t.sample_rate == if t.restoring { had_rate } else { sample_rate }
    &&& t.buffer_frames == if t.restoring { had_frames } else { buffer_frames }
}

proof fn lemma_keeps_formats(
    t: TransactionModel,
    s: StateModel,
    replies: Seq<ReplyModel>,
    sample_rate: u32,
    buffer_frames: u32,
    had_rate: u32,
    had_frames: u32,
)
    requires
        keeps_formats(t, sample_rate, buffer_frames, had_rate, had_frames),
        replies_fit(t, s, replies),
    ensures
        keeps_formats(
            after_replies(t, s, replies).0,
            sample_rate,
            buffer_frames,
            had_rate,
            had_frames,
        ),
    decreases replies.len(),
{
    if replies.len() > 0 {
        let next = apply_step(t, s, replies[0]);
        lemma_keeps_formats(
            next.0,
            next.1,
            replies.drop_first(),
            sample_rate,
            buffer_frames,
            had_rate,
            had_frames,
        );
    }
}

/// The engine is started at the format that the driver runs at. Where the driver negotiated a format
/// right before, it is that one. Else it is the format that the change was asked for with, or, while
/// the previous plan is restored, the one that the driver reported before the change. And the driver
/// is asked for no other format than that, with the channels of the plan that is started.
pub proof fn the_engine_starts_at_the_format_of_the_driver(
    plan: PlanModel,
    status: DriverStatus,
    sample_rate: u32,
    buffer_frames: u32,
    force: bool,
    audible: bool,
    previous: Option<PlanModel>,
    s: StateModel,
    replies: Seq<ReplyModel>,
    reply: ReplyModel,
)
    requires
        ({
            let first = begun(
                plan,
                status,
                sample_rate,
                buffer_frames,
                force,
                audible,
                previous,
                s,
            );
            replies_fit(first.0, s, replies) && fits(
                after_replies(first.0, s, replies).0.phase,
                reply,
            )
        }),
    ensures
        ({
            let first = begun(
                plan,
                status,
                sample_rate,
                buffer_frames,
                force,
                audible,
                previous,
                s,
            );
            let now = after_replies(first.0, s, replies);
            let action = apply_step(now.0, now.1, reply).2;
            let rate = if !now.0.restoring {
                sample_rate
            } else if status.sample_rate > 0 {
                status.sample_rate
            } else {
                sample_rate
            };
            let frames = if !now.0.restoring {
                buffer_frames
            } else if status.buffer_frames > 0 {
                status.buffer_frames
            } else {
                buffer_frames
            };
            &&& action matches ActionModel::StartEngine { sample_rate: r, buffer_frames: f }
                ==> match reply {
                ReplyModel::Config(ConfigAnswer::Negotiated(agreed)) => r == agreed.sample_rate && f
                    == agreed.buffer_frames,
                _ => r == rate && f == frames,
            }
            &&& action matches ActionModel::RequestConfig(config) ==> config.sample_rate == rate
                && config.buffer_frames == frames && config.channel_count
                == now.0.plan.spec.input_channels as u32
            &&& now.0.plan == if now.0.restoring { previous->0 } else { plan }
        }),
{
    let first = begun(plan, status, sample_rate, buffer_frames, force, audible, previous, s);
    lemma_keeps_formats(
        first.0,
        s,
        replies,
        sample_rate,
        buffer_frames,
        if status.sample_rate > 0 { status.sample_rate } else { sample_rate },
        if status.buffer_frames > 0 { status.buffer_frames } else { buffer_frames },
    );
    lemma_stays_on_course(first.0, s, replies, plan, previous, s.pipeline);
}

/// A load whose channel count an installed driver already has leaves the driver's format alone and
/// starts the engine at it.
pub proof fn fitting_loads_start_at_the_reported_format(t: TransactionModel, s: StateModel, status: DriverStatus)
    requires
        t.phase == ApplyPhase::ReadingDriver,
        !t.force,
        status.channel_count == t.plan.spec.input_channels,
        t.sample_rate == status.sample_rate,
        t.buffer_frames == status.buffer_frames,
    ensures
        apply_step(t, s, ReplyModel::Driver(status)).2 == (ActionModel::StartEngine {
            sample_rate: status.sample_rate,
            buffer_frames: status.buffer_frames,
        }),
{
}

/// An installed driver is asked for a format exactly where the change is forced or its channel count
/// is not the plan's. A driver that is not installed is never asked.
pub proof fn drivers_are_asked_only_where_needed(t: TransactionModel, s: StateModel, status: DriverStatus)
    requires
        t.phase == ApplyPhase::ReadingDriver,
    ensures
        ({
            let action = apply_step(t, s, ReplyModel::Driver(status)).2;
            &&& action is RequestConfig <==> status.driver_installed && (t.force
                || status.channel_count != t.plan.spec.input_channels as u32)
            &&& action is StartEngine <==> !(action is RequestConfig)
        }),
{
}

/// The walk of a change up to the start of the engine. Audible output is muted first. A change that
/// is not forced looks at the running pipeline. The driver is told that the engine is not ready, the
/// engine is stopped, the driver takes the format where it has to, and the engine is started at it.
/// Nothing is changed on the way.
pub proof fn changes_walk_to_the_start_of_the_engine(
    plan: PlanModel,
    status: DriverStatus,
    sample_rate: u32,
    buffer_frames: u32,
    force: bool,
    audible: bool,
    previous: Option<PlanModel>,
    s: StateModel,
    health: HealthModel,
    found: DriverStatus,
    answer: ConfigAnswer,
)
    requires
        !(answer is Error),
        s.pipeline.applied is None || health.idle || health.callback_count == 0 || health.channel_count
            != plan.spec.input_channels as u32 || (health.last_error is Some
            && health.last_error->0.len() > 0),
    ensures
        ({
            let a0 = begun(
                plan,
                status,
                sample_rate,
                buffer_frames,
                force,
                audible,
                previous,
                s,
            );
            let a1 = if audible { replied(a0, ReplyModel::Outcome(Ok(()))) } else { a0 };
            let a2 = if audible { replied(a1, ReplyModel::Done) } else { a1 };
            let a3 = if force { a2 } else { replied(a2, ReplyModel::Health(health)) };
            let a4 = replied(a3, ReplyModel::Done);
            let a5 = replied(a4, ReplyModel::Done);
            let a6 = replied(a5, ReplyModel::Driver(found));
            let asked = found.driver_installed && (force || found.channel_count
                != plan.spec.input_channels as u32);
            let a7 = if asked { replied(a6, ReplyModel::Config(answer)) } else { a6 };
            &&& audible ==> a0.2 == ActionModel::SetMute(true) && a1.2 == ActionModel::Settle
            &&& !force ==> a2.2 == ActionModel::Inspect
            &&& a3.2 == ActionModel::SetEngineReady(false)
            &&& a4.2 == ActionModel::StopEngine
            &&& a5.2 == ActionModel::ReadDriver
            &&& asked ==> a6.2 == ActionModel::RequestConfig(
                (DriverConfig {
                    sample_rate,
                    buffer_frames,
                    channel_count: plan.spec.input_channels as u32,
                }),
            )
            &&& a7.2 == match answer {
                ConfigAnswer::Negotiated(agreed) if asked => ActionModel::StartEngine {
                    sample_rate: agreed.sample_rate,
                    buffer_frames: agreed.buffer_frames,
                },
                _ => ActionModel::StartEngine { sample_rate, buffer_frames },
            }
            &&& a7.1 == s
            &&& a7.0.phase == ApplyPhase::Starting && a7.0.plan == plan && a7.0.unmute == audible
            &&& a7.0.needs_callback == (found.platform_supported && found.driver_name@
                != "Systemwide Lab Driver"@)
            &&& !a7.0.restoring && a7.0.previous == previous
        }),
{
}

/// The walk of a change from the start of the engine to the answer. The engine takes its graph if the
/// plan has one and learns where the output meter is. Where the driver needs it, playback is awaited.
/// Then the plan is the applied one, in the next generation, profiles are written, the driver is told
/// that the engine is ready, and output that was muted is unmuted.
pub proof fn started_changes_walk_to_success(t: TransactionModel, s: StateModel)
    requires
        t.phase == ApplyPhase::Starting,
        !t.restoring,
    ensures
        ({
            let a8 = apply_step(t, s, ReplyModel::Outcome(Ok(())));
            let a9 = if t.plan.runtime_graph is Some {
                replied(a8, ReplyModel::Outcome(Ok(())))
            } else {
                a8
            };
            let a10 = replied(a9, ReplyModel::Done);
            let a11 = if t.needs_callback { replied(a10, ReplyModel::Outcome(Ok(()))) } else { a10 };
            let a12 = replied(a11, ReplyModel::Done);
            let a13 = replied(a12, ReplyModel::Done);
            let a14 = replied(a13, ReplyModel::Done);
            let a15 = if t.unmute { replied(a14, ReplyModel::Done) } else { a14 };
            &&& t.plan.runtime_graph is Some ==> a8.2 == ActionModel::UpdateGraph
            &&& a9.2 == ActionModel::SetLoudnessIndex(t.plan.output_loudness_index)
            &&& t.needs_callback ==> a10.2 == ActionModel::AwaitPlayback && a10.1 == s
            &&& a11.2 == ActionModel::SyncProfiles
            &&& a11.1.pipeline.desired == t.plan.spec
            &&& a11.1.pipeline.applied is Some && a11.1.pipeline.applied->0.spec == t.plan.spec
            &&& a11.1.pipeline.applied->0.output_loudness_index == t.plan.output_loudness_index
            &&& a11.1.pipeline.applied->0.input_loudness_index == t.plan.input_loudness_index
            &&& s.pipeline.generation < u64::MAX ==> a11.1.pipeline.generation
                == s.pipeline.generation + 1
            &&& a11.1.pipeline.applied->0.generation == a11.1.pipeline.generation
            &&& a12.2 == ActionModel::SetEngineReady(true)
            &&& a13.2 == ActionModel::SyncEncryption
            &&& t.unmute ==> a14.2 == ActionModel::SetMute(false)
            &&& a15.2 == ActionModel::Finish(
                (ResponseModel { success: true, data: None, error: None }),
            )
            &&& a15.1.pipeline == a11.1.pipeline && a15.1.recovery is None
        }),
{
}

/// A change to exactly the pipeline that plays in good health changes nothing: it is answered with
/// the generation, and the engine is neither stopped nor started. Whatever differs, idles, reports an
/// error or plays nothing is not taken for it.
pub proof fn healthy_pipelines_are_left_alone(t: TransactionModel, s: StateModel, health: HealthModel)
    requires
        t.phase == ApplyPhase::Inspecting,
    ensures
        ({
            let next = apply_step(t, s, ReplyModel::Health(health));
            let left_alone = s.pipeline.applied is Some && same_spec(
                s.pipeline.applied->0.spec,
                t.plan.spec,
            ) && health.channel_count == t.plan.spec.input_channels as u32 && !health.idle && (
            health.last_error is None || health.last_error->0.len() == 0) && health.callback_count > 0;
            &&& left_alone <==> next.0.phase != ApplyPhase::ClearingReady
            &&& left_alone ==> next.0.response.success && next.0.response.data == Some(
                Json::Object(
                    map!["generation"@ => Json::Number(JsonNum::Unsigned(s.pipeline.generation))],
                ),
            ) && next.1.pipeline == s.pipeline && next.1.recovery is None && (next.2
                == ActionModel::SetMute(false) || next.2 == ActionModel::Finish(next.0.response))
            &&& !left_alone ==> next.1 == s && next.2 == ActionModel::SetEngineReady(false)
        }),
{
}

/// What is said of each failure, and that nothing was changed by it: the first attempt then asks
/// whether the daemon still runs.
pub proof fn failures_are_told_and_change_nothing(t: TransactionModel, s: StateModel, e: Seq<char>, fault: DriverFault)
    requires
        !t.restoring,
    ensures
        ({
            let refused = apply_step(
                at(t, ApplyPhase::Configuring),
                s,
                ReplyModel::Config(ConfigAnswer::Error(fault)),
            );
            let bad = ReplyModel::Outcome(Err(e));
            let unstarted = apply_step(at(t, ApplyPhase::Starting), s, bad);
            let rejected = apply_step(at(t, ApplyPhase::UpdatingGraph), s, bad);
            let stopped = apply_step(rejected.0, rejected.1, ReplyModel::Done);
            let silent = apply_step(at(t, ApplyPhase::Awaiting), s, bad);
            let unmuted = apply_step(at(t, ApplyPhase::Muting), s, bad);
            &&& refused.0.error == "Failed to set HAL input channels: "@ + fault_text(fault)
            &&& unstarted.0.error == "Failed to load plugin chain: "@ + e
            &&& rejected.2 == ActionModel::StopEngine
            &&& stopped.0.error == "Failed to load plugin chain: "@ + e
            &&& silent.0.error == "Failed to load plugin chain: "@ + e
            &&& unmuted.0.error == "Failed to mute output before reconfiguration: "@ + e
            &&& unmuted.2 == ActionModel::SetMute(false)
            &&& refused.2 == ActionModel::CheckRunning && unstarted.2 == ActionModel::CheckRunning
            &&& stopped.2 == ActionModel::CheckRunning && silent.2 == ActionModel::CheckRunning
            &&& refused.1 == s && unstarted.1 == s && stopped.1 == s && silent.1 == s && unmuted.1 == s
        }),
{
}

/// What a failed change leads to. A daemon that shuts down answers with the failure and records
/// nothing. With no plan to go back to, the failure is answered and a restart is advised. Else the
/// previous plan is applied, at the format that the driver had before the change: the driver is told
/// that the engine is not ready, and asked for that format if it is installed. When that plan plays it
/// is the applied one and nothing is advised any more; when it does not, a restart is advised.
pub proof fn failed_changes_are_recovered(
    t: TransactionModel,
    s: StateModel,
    found: DriverStatus,
    e: Seq<char>,
)
    requires
        t.phase == ApplyPhase::CheckingRunning,
        !t.restoring,
        !t.unmute,
    ensures
        ({
            let stop = apply_step(t, s, ReplyModel::Running(false));
            let go = apply_step(t, s, ReplyModel::Running(true));
            let done = ReplyModel::Done;
            let told = ResponseModel { success: false, data: None, error: Some(t.error) };
            &&& stop.1 == s && stop.2 == ActionModel::Finish(told)
            &&& t.previous is None ==> go.2 == ActionModel::Finish(told) && go.1.pipeline == s.pipeline
                && go.1.recovery is Some && go.1.recovery->0.error == t.error
                && go.1.recovery->0.actions == seq!["restart_daemon"@]
            &&& t.previous is Some ==> {
                let old = t.previous->0;
                let b1 = replied(go, done);
                let b2 = replied(b1, done);
                let b3 = replied(b2, ReplyModel::Driver(found));
                let b4 = if found.driver_installed {
                    replied(b3, ReplyModel::Config(ConfigAnswer::Accepted))
                } else {
                    b3
                };
                let lost = replied(b4, ReplyModel::Outcome(Err(e)));
                let b5 = replied(b4, ReplyModel::Outcome(Ok(())));
                let b6 = if old.runtime_graph is Some {
                    replied(b5, ReplyModel::Outcome(Ok(())))
                } else {
                    b5
                };
                let b7 = replied(b6, done);
                let waits = found.platform_supported && found.driver_name@
                    != "Systemwide Lab Driver"@;
                let b8 = if waits { replied(b7, ReplyModel::Outcome(Ok(()))) } else { b7 };
                let b9 = replied(replied(replied(b8, done), done), done);
                &&& go.2 == ActionModel::SetEngineReady(false) && go.1 == s
                &&& b1.2 == ActionModel::StopEngine && b2.2 == ActionModel::ReadDriver
                &&& found.driver_installed ==> b3.2 == ActionModel::RequestConfig(
                    (DriverConfig {
                        sample_rate: t.restore_rate,
                        buffer_frames: t.restore_frames,
                        channel_count: old.spec.input_channels as u32,
                    }),
                )
                &&& b4.2 == (ActionModel::StartEngine {
                    sample_rate: t.restore_rate,
                    buffer_frames: t.restore_frames,
                })
                &&& lost.2 == ActionModel::Finish(
                    (ResponseModel {
                        success: false,
                        data: None,
                        error: Some(t.error + "; pipeline recovery also failed, restart the daemon"@),
                    }),
                )
                &&& lost.1.pipeline == s.pipeline && lost.1.recovery is Some
                &&& lost.1.recovery->0.error == t.error
                    + "; pipeline recovery also failed, restart the daemon"@
                &&& lost.1.recovery->0.actions == seq!["restart_daemon"@]
                &&& b6.2 == ActionModel::SetLoudnessIndex(old.output_loudness_index)
                &&& b9.2 == ActionModel::Finish(
                    (ResponseModel {
                        success: false,
                        data: None,
                        error: Some(
                            t.error
                                + "; restored the last working pipeline; retry the requested change"@,
                        ),
                    }),
                )
                &&& b9.1.recovery is None && b9.1.pipeline.desired == old.spec
                &&& b9.1.pipeline.applied is Some && b9.1.pipeline.applied->0.spec == old.spec
            }
        }),
{
}

/// The engine starts with the plugins of the plan, and with the meters alone where a graph takes their
/// place.
pub proof fn engines_start_with_the_chain_of_the_plan(plan: PlanModel)
    ensures
        plan.runtime_graph is None ==> bootstrap_chain(plan) == plan.runtime_plugins,
        plan.runtime_graph is Some ==> bootstrap_chain(plan).len() == 2 && bootstrap_chain(
            plan,
        )[0].plugin_type == "loudness_monitor"@ && bootstrap_chain(plan)[1].plugin_type
            == "loudness_monitor"@,
{
}

/// Playback must be confirmed by a hardware callback exactly where the platform has a driver other than
/// that of the lab.
pub proof fn real_drivers_confirm_playback(status: DriverStatus, needed: bool)
    requires
        call_ensures(requires_playback_callback, (&status,), needed),
    ensures
        needed <==> status.platform_supported && status.driver_name@ != "Systemwide Lab Driver"@,
{
}

/// The format after a request is what the driver negotiated, and what was requested where it negotiated
/// nothing.
pub proof fn negotiated_formats_are_used(result: ConfigResult, rate: u32, frames: u32, timing: (u32, u32))
    requires
        call_ensures(pipeline_timing_after_config_request, (&result, rate, frames), timing),
    ensures
        result@ matches ConfigAnswer::Negotiated(config) ==> timing == (
            config.sample_rate,
            config.buffer_frames,
        ),
        !(result@ is Negotiated) ==> timing == (rate, frames),
{
}

/// A transaction opens with the plan and the format that it was given, and goes back to the format that
/// the driver reports, or to the given one where it reports none. Until it has heard otherwise it waits
/// for a hardware callback. Audible output is muted first.
pub proof fn transactions_open_with_what_they_were_given(
    plan: PlanModel,
    status: DriverStatus,
    sample_rate: u32,
    buffer_frames: u32,
    force: bool,
    previous: Option<PlanModel>,
)
    ensures
        ({
            let t = opening(plan, status, sample_rate, buffer_frames, force, previous);
            &&& t.plan == plan && t.previous == previous && t.force == force
            &&& t.sample_rate == sample_rate && t.buffer_frames == buffer_frames
            &&& t.restore_rate == if status.sample_rate > 0 { status.sample_rate } else { sample_rate }
            &&& t.restore_frames == if status.buffer_frames > 0 {
                status.buffer_frames
            } else {
                buffer_frames
            }
            &&& t.needs_callback && !t.unmute && !t.restoring
            &&& opened(t, true) == (t, ActionModel::SetMute(true))
            &&& opened(t, false).1 != ActionModel::SetMute(true)
            &&& !t.response.success
        }),
{
}

} // verus!
