//! Changing the chain of a running engine without a restart, and falling back to one where that is
//! not possible.

use crate::apply::{generation_json, setting_or};
use crate::driver::DriverStatus;
use crate::graph::accepts_graphs;
use crate::json::{
    json_member, json_of, members_of, names_ascend, same_json, Json, JsonMember, JsonNum,
    JsonObject, JsonValue,
};
use crate::output_device::opt_text;
use crate::pipeline::{
    after_commit, chain_plan, count_json, graph_plan_outcome, plan_outcome, PipelinePlan, PlanModel,
    SpecModel,
};
use crate::plugins::{kept_plugins, plugin_models, PluginConfig, PluginGraphConfig, PluginModel};
use crate::rack::{
    changed_members, changed_plugin_parameters, encode_plugin_param_value, graph_active_message,
    graph_active_text, none_removed, out_of_range_message, out_of_range_text, parameter_text,
};
use crate::response::{err_response, ok_response, Response, ResponseModel};
use crate::state::{StateModel, SystemwideState};
use crate::text::join2;
use vstd::prelude::*;

verus! {

/// Where an update stands: what it has asked for and waits to hear of.
#[derive(Debug, Clone, Copy, PartialEq, Eq, Structural)]
pub enum UpdatePhase {
    CheckingIdle,
    SettingParameter,
    UpdatingChain,
    UpdatingGraph,
    SettingLoudness,
    SyncingProfiles,
    ReadingDriver,
    Applying,
    Finished,
}

/// What an update asks of its surroundings.
#[derive(Debug)]
pub enum UpdateAction {
    /// Report whether the engine is idle.
    CheckIdle,
    /// Set a parameter of the plugin at a position of the running chain.
    SetParameter { position: usize, name: String, text: String },
    /// Give the engine the runtime chain of the plan.
    UpdateChain,
    /// Give the engine the runtime graph of the plan.
    UpdateGraph,
    /// Tell the engine where the output meter is.
    SetLoudnessIndex(usize),
    /// Write the live chain to the current output profile, and save the profiles if asked to.
    SyncProfiles { save: bool },
    /// Report the driver's status.
    ReadDriver,
    /// Apply the plan.
    Apply { plan: PipelinePlan, status: DriverStatus, sample_rate: u32, buffer_frames: u32 },
    /// Answer the client.
    Finish(Response),
}

/// What an `UpdateAction` stands for.
pub enum UpdateAct {
    CheckIdle,
    SetParameter { position: usize, name: Seq<char>, text: Seq<char> },
    UpdateChain,
    UpdateGraph,
    SetLoudnessIndex(usize),
    SyncProfiles { save: bool },
    ReadDriver,
    Apply { plan: PlanModel, status: DriverStatus, sample_rate: u32, buffer_frames: u32 },
    Finish(ResponseModel),
}

impl View for UpdateAction {
    type V = UpdateAct;

    open spec fn view(&self) -> UpdateAct {
        match *self {
            UpdateAction::CheckIdle => UpdateAct::CheckIdle,
            UpdateAction::SetParameter { position, name, text } => UpdateAct::SetParameter {
                position,
                name: name@,
                text: text@,
            },
            UpdateAction::UpdateChain => UpdateAct::UpdateChain,
            UpdateAction::UpdateGraph => UpdateAct::UpdateGraph,
            UpdateAction::SetLoudnessIndex(index) => UpdateAct::SetLoudnessIndex(index),
            UpdateAction::SyncProfiles { save } => UpdateAct::SyncProfiles { save },
            UpdateAction::ReadDriver => UpdateAct::ReadDriver,
            UpdateAction::Apply { plan, status, sample_rate, buffer_frames } => UpdateAct::Apply {
                plan: plan@,
                status,
                sample_rate,
                buffer_frames,
            },
            UpdateAction::Finish(response) => UpdateAct::Finish(response@),
        }
    }
}

/// What the surroundings answer.
#[derive(Debug)]
pub enum UpdateReply {
    /// It is done.
    Done,
    /// It worked, or why it did not.
    Outcome(Result<(), String>),
    /// Whether the engine is idle.
    Idle(bool),
    /// The driver's status.
    Driver(DriverStatus),
    /// How applying the plan came out.
    Applied(Response),
}

/// What an `UpdateReply` stands for.
pub enum UpdateAnswer {
    Done,
    Outcome(Result<(), Seq<char>>),
    Idle(bool),
    Driver(DriverStatus),
    Applied(ResponseModel),
}

impl View for UpdateReply {
    type V = UpdateAnswer;

    open spec fn view(&self) -> UpdateAnswer {
        match *self {
            UpdateReply::Done => UpdateAnswer::Done,
            UpdateReply::Outcome(Ok(_)) => UpdateAnswer::Outcome(Ok(())),
            UpdateReply::Outcome(Err(e)) => UpdateAnswer::Outcome(Err(e@)),
            UpdateReply::Idle(idle) => UpdateAnswer::Idle(idle),
            UpdateReply::Driver(status) => UpdateAnswer::Driver(status),
            UpdateReply::Applied(response) => UpdateAnswer::Applied(response@),
        }
    }
}

/// An update under way.
#[derive(Debug)]
pub struct ChainUpdate {
    pub phase: UpdatePhase,
    pub plan: PipelinePlan,
    /// The runtime position of the plugin whose parameters change.
    pub position: usize,
    /// The parameters to set while the engine runs. Without any the chain is rebuilt.
    pub changed: Option<Vec<JsonMember>>,
    /// How many of them are set.
    pub done: usize,
    /// Whether the profiles are saved afterwards.
    pub save: bool,
}

/// What an update changes, as a sequence of named values.
pub open spec fn change_models(changed: Seq<JsonMember>) -> Seq<(Seq<char>, Json)> {
    changed.map_values(|m: JsonMember| (m.name@, json_of(m.value)))
}

/// The view of optional changes.
pub open spec fn opt_changes(changed: Option<Vec<JsonMember>>) -> Option<Seq<(Seq<char>, Json)>> {
    match changed {
        Some(list) => Some(change_models(list@)),
        None => None,
    }
}

/// What a `ChainUpdate` stands for.
#[verifier::ext_equal]
pub struct UpdateModel {
    pub phase: UpdatePhase,
    pub plan: PlanModel,
    pub position: usize,
    pub changed: Option<Seq<(Seq<char>, Json)>>,
    pub done: usize,
    pub save: bool,
}

impl View for ChainUpdate {
    type V = UpdateModel;

    open spec fn view(&self) -> UpdateModel {
        UpdateModel {
            phase: self.phase,
            plan: self.plan@,
            position: self.position,
            changed: opt_changes(self.changed),
            done: self.done,
            save: self.save,
        }
    }
}

/// Moves on to `phase`.
pub open spec fn update_at(u: UpdateModel, phase: UpdatePhase) -> UpdateModel {
    UpdateModel { phase, ..u }
}

/// The end of an update.
pub open spec fn update_done(u: UpdateModel, response: ResponseModel) -> (UpdateModel, UpdateAct) {
    (update_at(u, UpdatePhase::Finished), UpdateAct::Finish(response))
}

/// The engine runs the new chain and is told where the output meter is.
pub open spec fn update_landed(u: UpdateModel, save: bool) -> (UpdateModel, UpdateAct) {
    (
        UpdateModel { phase: UpdatePhase::SettingLoudness, save, ..u },
        UpdateAct::SetLoudnessIndex(u.plan.output_loudness_index),
    )
}

/// The next parameter is set, or all are.
pub open spec fn next_parameter(u: UpdateModel) -> (UpdateModel, UpdateAct) {
    let changed = u.changed->0;
    if u.done < changed.len() {
        (
            update_at(u, UpdatePhase::SettingParameter),
            UpdateAct::SetParameter {
                position: u.position,
                name: changed[u.done as int].0,
                text: parameter_text(changed[u.done as int].1),
            },
        )
    } else {
        update_landed(u, false)
    }
}

/// The plan is applied by a restart.
pub open spec fn update_apply(u: UpdateModel, status: DriverStatus) -> (UpdateModel, UpdateAct) {
    (
        update_at(u, UpdatePhase::Applying),
        UpdateAct::Apply {
            plan: u.plan,
            status,
            sample_rate: setting_or(status.sample_rate, 48000),
            buffer_frames: setting_or(status.buffer_frames, 512),
        },
    )
}

/// The answer to an update that landed.
pub open spec fn landed_json(plan: PlanModel, generation: u64) -> Json {
    match plan.spec.user_graph {
        Some(graph) => Json::Object(
            map![
                "topology"@ => Json::Text("graph"@),
                "nodes"@ => count_json(graph.nodes.len() as int),
                "edges"@ => count_json(graph.edges.len() as int),
                "generation"@ => count_json(generation as int),
            ],
        ),
        None => generation_json(generation),
    }
}

/// Whether `reply` answers what the update asked for.
pub open spec fn update_fits(u: UpdateModel, reply: UpdateAnswer) -> bool {
    match u.phase {
        UpdatePhase::CheckingIdle => reply is Idle,
        UpdatePhase::SettingParameter => reply is Outcome && u.changed is Some && u.done
            < u.changed->0.len(),
        UpdatePhase::UpdatingChain | UpdatePhase::UpdatingGraph => reply is Outcome,
        UpdatePhase::SettingLoudness | UpdatePhase::SyncingProfiles => reply is Done,
        UpdatePhase::ReadingDriver => reply is Driver,
        UpdatePhase::Applying => reply is Applied,
        UpdatePhase::Finished => false,
    }
}

/// What a reply leads to.
pub open spec fn update_step(u: UpdateModel, s: StateModel, reply: UpdateAnswer) -> (
    UpdateModel,
    StateModel,
    UpdateAct,
) {
    match (u.phase, reply) {
        (UpdatePhase::CheckingIdle, UpdateAnswer::Idle(idle)) => {
            let (next, act) = if idle {
                (update_at(u, UpdatePhase::ReadingDriver), UpdateAct::ReadDriver)
            } else if u.plan.runtime_graph is Some {
                (update_at(u, UpdatePhase::UpdatingGraph), UpdateAct::UpdateGraph)
            } else if u.changed is Some {
                next_parameter(u)
            } else {
                (update_at(u, UpdatePhase::UpdatingChain), UpdateAct::UpdateChain)
            };
            (next, s, act)
        },
        (UpdatePhase::SettingParameter, UpdateAnswer::Outcome(Ok(_))) => {
            let (next, act) = next_parameter(UpdateModel { done: (u.done + 1) as usize, ..u });
            (next, s, act)
        },
        (UpdatePhase::SettingParameter, _) => (
            UpdateModel { phase: UpdatePhase::CheckingIdle, changed: None, ..u },
            s,
            UpdateAct::CheckIdle,
        ),
        (UpdatePhase::UpdatingChain, UpdateAnswer::Outcome(Err(e))) => {
            let (next, act) = update_done(u, err_response("Failed to update plugin chain: "@ + e));
            (next, s, act)
        },
        (UpdatePhase::UpdatingGraph, UpdateAnswer::Outcome(Err(e))) => {
            let (next, act) = update_done(
                u,
                err_response(
                    "Failed to apply plugin graph; previous pipeline remains active: "@ + e,
                ),
            );
            (next, s, act)
        },
        (UpdatePhase::UpdatingChain, _) | (UpdatePhase::UpdatingGraph, _) => {
            let (next, act) = update_landed(u, true);
            (next, s, act)
        },
        (UpdatePhase::SettingLoudness, _) => (
            update_at(u, UpdatePhase::SyncingProfiles),
            StateModel { pipeline: after_commit(s.pipeline, u.plan), ..s },
            UpdateAct::SyncProfiles { save: u.save },
        ),
        (UpdatePhase::SyncingProfiles, _) => {
            let (next, act) = update_done(
                u,
                ok_response(landed_json(u.plan, s.pipeline.generation)),
            );
            (next, s, act)
        },
        (UpdatePhase::ReadingDriver, UpdateAnswer::Driver(status)) => {
            let (next, act) = update_apply(u, status);
            (next, s, act)
        },
        (UpdatePhase::Applying, UpdateAnswer::Applied(response)) => {
            let (next, act) = update_done(u, response);
            (next, s, act)
        },
        _ => (u, s, UpdateAct::CheckIdle),
    }
}

/// An update that has just begun.
pub open spec fn new_update(plan: PlanModel, position: usize, changed: Option<Seq<(Seq<char>, Json)>>) -> UpdateModel {
    UpdateModel { phase: UpdatePhase::CheckingIdle, plan, position, changed, done: 0, save: true }
}

/// The plan for the desired pipeline with another chain.
pub open spec fn reload_plan(s: StateModel, plugins: Seq<PluginModel>, configured: Option<Seq<char>>) -> Result<
    PlanModel,
    Seq<char>,
> {
    chain_plan(
        s.pipeline.desired,
        plugins,
        s.pipeline.desired.input_channels,
        s.pipeline.desired.output_channels,
        s.pipeline.desired.input_channels,
        configured,
    )
}

fn plan_reload(state: &SystemwideState, plugins: Vec<PluginConfig>, configured: &Option<String>) -> (r: Result<
    PipelinePlan,
    String,
>)
    ensures
        plan_outcome(r) == reload_plan(state@, plugin_models(plugins@), opt_text(*configured)),
{
    state.prepare_plan(
        plugins,
        state.input_channels(),
        state.output_channels(),
        state.input_channels(),
        configured,
    )
}

/// Whether changes are those between two parameter sets, in the order of their names.
pub open spec fn is_change_list(before: Json, after: Json, changed: Option<Seq<(Seq<char>, Json)>>) -> bool {
    match (before, after) {
        (Json::Object(x), Json::Object(y)) => if none_removed(x, y) {
            exists|list: Seq<JsonMember>|
                names_ascend(list) && #[trigger] members_of(list) == changed_members(x, y) && changed
                    == Some(change_models(list))
        } else {
            changed is None
        },
        _ => changed is None,
    }
}

/// How a parameter update begins or is answered at once.
pub open spec fn parameter_update_begins(
    s: StateModel,
    index: usize,
    parameters: Json,
    configured: Option<Seq<char>>,
    first: Result<UpdateModel, ResponseModel>,
) -> bool {
    let plugins = s.pipeline.desired.user_plugins;
    if s.pipeline.desired.user_graph is Some {
        first == Err::<UpdateModel, ResponseModel>(err_response(graph_active_text()))
    } else if index >= plugins.len() {
        first == Err::<UpdateModel, ResponseModel>(
            err_response(out_of_range_text(index, plugins.len())),
        )
    } else if same_json(plugins[index as int].parameters, parameters) {
        first == Err::<UpdateModel, ResponseModel>(
            ok_response(generation_json(s.pipeline.generation)),
        )
    } else {
        let edited = plugins.update(
            index as int,
            PluginModel { parameters, ..plugins[index as int] },
        );
        match reload_plan(s, edited, configured) {
            Err(e) => first == Err::<UpdateModel, ResponseModel>(err_response(e)),
            Ok(plan) => first is Ok && is_change_list(
                plugins[index as int].parameters,
                parameters,
                first->Ok_0.changed,
            ) && first->Ok_0 == new_update(plan, (index + 1) as usize, first->Ok_0.changed),
        }
    }
}

/// The view of how an update begins.
pub open spec fn update_beginning(r: Result<(ChainUpdate, UpdateAction), Response>) -> Result<
    UpdateModel,
    ResponseModel,
> {
    match r {
        Ok(started) => Ok(started.0@),
        Err(response) => Err(response@),
    }
}

/// What preparing a graph leads to: a restart where the channel counts change, else an update of
/// the running engine.
pub open spec fn graph_update_from(
    desired: SpecModel,
    input_channels: usize,
    output_channels: usize,
    status: DriverStatus,
    out: Result<PlanModel, Seq<char>>,
    first: Result<(UpdateModel, UpdateAct), ResponseModel>,
) -> bool {
    match out {
        Err(e) => first == Err::<(UpdateModel, UpdateAct), ResponseModel>(err_response(e)),
        Ok(plan) => {
            let fresh = new_update(plan, 0, None);
            first == if input_channels != desired.input_channels || output_channels
                != desired.output_channels {
                Ok::<(UpdateModel, UpdateAct), ResponseModel>(update_apply(fresh, status))
            } else {
                Ok((fresh, UpdateAct::CheckIdle))
            }
        },
    }
}

/// The channel count that a graph falls back to.
pub open spec fn graph_fallback(status: DriverStatus, desired: usize) -> usize {
    if status.channel_count > 0 {
        status.channel_count as usize
    } else if desired > 2 {
        desired
    } else {
        2
    }
}

/// How a graph update may begin or be answered at once.
pub open spec fn graph_update_begins<F: Fn(&PluginGraphConfig) -> Result<(), String>>(
    validate: F,
    s: StateModel,
    graph: crate::plugins::GraphModel,
    input_channels: usize,
    output_channels: usize,
    status: DriverStatus,
    configured: Option<Seq<char>>,
    first: Result<(UpdateModel, UpdateAct), ResponseModel>,
) -> bool {
    exists|out: Result<PlanModel, Seq<char>>|
        (#[trigger] graph_plan_outcome(
            validate,
            s.pipeline.desired,
            graph,
            input_channels,
            output_channels,
            graph_fallback(status, s.pipeline.desired.input_channels),
            configured,
            out,
        )) && graph_update_from(
            s.pipeline.desired,
            input_channels,
            output_channels,
            status,
            out,
            first,
        )
}

/// The view of how an update begins, with its first action.
pub open spec fn update_opening(r: Result<(ChainUpdate, UpdateAction), Response>) -> Result<
    (UpdateModel, UpdateAct),
    ResponseModel,
> {
    match r {
        Ok(started) => Ok((started.0@, started.1@)),
        Err(response) => Err(response@),
    }
}

impl ChainUpdate {
    /// Begins to replace the chain of the desired pipeline.
    pub fn reload(state: &SystemwideState, plugins: Vec<PluginConfig>, configured: &Option<String>) -> (r: Result<
        (ChainUpdate, UpdateAction),
        Response,
    >)
        ensures
            match reload_plan(state@, plugin_models(plugins@), opt_text(*configured)) {
                Err(e) => r matches Err(response) && response@ == err_response(e),
                Ok(plan) => r matches Ok(started) && started.0@ == new_update(plan, 0, None)
                    && started.1@ == UpdateAct::CheckIdle,
            },
    {
        match plan_reload(state, plugins, configured) {
            Err(error) => Err(Response::err(error)),
            Ok(plan) => Ok(
                (
                    ChainUpdate {
                        phase: UpdatePhase::CheckingIdle,
                        plan,
                        position: 0,
                        changed: None,
                        done: 0,
                        save: true,
                    },
                    UpdateAction::CheckIdle,
                ),
            ),
        }
    }

    /// Begins to change the parameters of a plugin. Parameters that are equal already are answered
    /// at once.
    pub fn update_plugin(
        state: &SystemwideState,
        index: usize,
        parameters: JsonValue,
        configured: &Option<String>,
    ) -> (r: Result<(ChainUpdate, UpdateAction), Response>)
        ensures
            parameter_update_begins(
                state@,
                index,
                parameters@,
                opt_text(*configured),
                update_beginning(r),
            ),
            r matches Ok(started) ==> started.1@ == UpdateAct::CheckIdle,
    {
        if state.pipeline.desired.user_graph.is_some() {
            return Err(Response::err(graph_active_message()));
        }
        let mut plugins = state.user_plugins();
        if index >= plugins.len() {
            return Err(Response::err(out_of_range_message(index, plugins.len())));
        }
        let ghost models = plugin_models(plugins@);
        let ghost wanted = parameters@;
        if plugins[index].parameters.matches(&parameters) {
            let mut data = JsonObject::new();
            data.put_unsigned("generation", state.generation());
            return Err(Response::ok(data.finish()));
        }
        let position: usize = index + 1;
        let before = plugins[index].parameters.clone();
        let changed = changed_plugin_parameters(&before, &parameters);
        let edited = PluginConfig { plugin_type: plugins[index].plugin_type.clone(), parameters };
        let ghost replaced = plugins@.update(index as int, edited);
        plugins.set(index, edited);
        proof {
            assert(plugin_models(plugins@) =~= models.update(
                index as int,
                PluginModel { parameters: wanted, ..models[index as int] },
            ));
            if changed is Some {
                assert(members_of(changed->0@) == changed_members(
                    models[index as int].parameters->Object_0,
                    wanted->Object_0,
                ));
            }
        }
        match plan_reload(state, plugins, configured) {
            Err(error) => Err(Response::err(error)),
            Ok(plan) => Ok(
                (
                    ChainUpdate {
                        phase: UpdatePhase::CheckingIdle,
                        plan,
                        position,
                        changed,
                        done: 0,
                        save: true,
                    },
                    UpdateAction::CheckIdle,
                ),
            ),
        }
    }

    /// Begins to load a graph.
    pub fn load_graph<F: Fn(&PluginGraphConfig) -> Result<(), String>>(
        state: &SystemwideState,
        graph: PluginGraphConfig,
        input_channels: usize,
        output_channels: usize,
        status: DriverStatus,
        configured: &Option<String>,
        validate: &F,
    ) -> (r: Result<(ChainUpdate, UpdateAction), Response>)
        requires
            accepts_graphs(*validate),
        ensures
            graph_update_begins(
                *validate,
                state@,
                graph@,
                input_channels,
                output_channels,
                status,
                opt_text(*configured),
                update_opening(r),
            ),
    {
        let desired: usize = state.input_channels();
        let fallback: usize = if status.channel_count > 0 {
            status.channel_count as usize
        } else if desired > 2 {
            desired
        } else {
            2
        };
        let geometry_changed = input_channels != desired || output_channels != state.output_channels();
        let planned = state.prepare_graph_plan(
            graph,
            input_channels,
            output_channels,
            fallback,
            configured,
            validate,
        );
        let ghost out = plan_outcome(planned);
        proof {
            assert(graph_plan_outcome(
                *validate,
                state@.pipeline.desired,
                graph@,
                input_channels,
                output_channels,
                graph_fallback(status, state@.pipeline.desired.input_channels),
                opt_text(*configured),
                out,
            ));
        }
        let r = match planned {
            Err(error) => Err(Response::err(error)),
            Ok(plan) => {
                let mut update = ChainUpdate {
                    phase: UpdatePhase::CheckingIdle,
                    plan,
                    position: 0,
                    changed: None,
                    done: 0,
                    save: true,
                };
                if geometry_changed {
                    let action = update.apply(status);
                    Ok((update, action))
                } else {
                    Ok((update, UpdateAction::CheckIdle))
                }
            },
        };
        proof {
            assert(graph_update_from(
                state@.pipeline.desired,
                input_channels,
                output_channels,
                status,
                out,
                update_opening(r),
            ));
        }
        r
    }

    fn finish(&mut self, response: Response) -> (r: UpdateAction)
        ensures
            (final(self)@, r@) == update_done(old(self)@, response@),
    {
        self.phase = UpdatePhase::Finished;
        UpdateAction::Finish(response)
    }

    fn land(&mut self, save: bool) -> (r: UpdateAction)
        ensures
            (final(self)@, r@) == update_landed(old(self)@, save),
    {
        self.phase = UpdatePhase::SettingLoudness;
        self.save = save;
        UpdateAction::SetLoudnessIndex(self.plan.output_loudness_index)
    }

    fn apply(&mut self, status: DriverStatus) -> (r: UpdateAction)
        ensures
            (final(self)@, r@) == update_apply(old(self)@, status),
    {
        self.phase = UpdatePhase::Applying;
        UpdateAction::Apply {
            plan: self.plan.clone(),
            status,
            sample_rate: if status.sample_rate > 0 { status.sample_rate } else { 48000 },
            buffer_frames: if status.buffer_frames > 0 { status.buffer_frames } else { 512 },
        }
    }

    fn set_next(&mut self) -> (r: UpdateAction)
        requires
            old(self)@.changed is Some,
        ensures
            (final(self)@, r@) == next_parameter(old(self)@),
    {
        if let Some(changed) = &self.changed {
            if self.done < changed.len() {
                let name = changed[self.done].name.clone();
                let text = encode_plugin_param_value(&changed[self.done].value);
                self.phase = UpdatePhase::SettingParameter;
                return UpdateAction::SetParameter { position: self.position, name, text };
            }
        }
        self.land(false)
    }

    fn idle_known(&mut self, idle: bool) -> (r: UpdateAction)
        requires
            old(self)@.phase == UpdatePhase::CheckingIdle,
        ensures
            forall|s: StateModel|
                (final(self)@, s, r@) == #[trigger] update_step(old(self)@, s, UpdateAnswer::Idle(idle)),
    {
        if idle {
            self.phase = UpdatePhase::ReadingDriver;
            UpdateAction::ReadDriver
        } else if self.plan.runtime_graph.is_some() {
            self.phase = UpdatePhase::UpdatingGraph;
            UpdateAction::UpdateGraph
        } else if self.changed.is_some() {
            self.set_next()
        } else {
            self.phase = UpdatePhase::UpdatingChain;
            UpdateAction::UpdateChain
        }
    }

    fn answer(&mut self, state: &SystemwideState) -> (r: UpdateAction)
        ensures
            (final(self)@, r@) == update_done(
                old(self)@,
                ok_response(landed_json(old(self)@.plan, state@.pipeline.generation)),
            ),
    {
        let mut data = JsonObject::new();
        match &self.plan.spec.user_graph {
            Some(graph) => {
                data.put_text("topology", "graph");
                data.put_unsigned("nodes", graph.nodes.len() as u64);
                data.put_unsigned("edges", graph.edges.len() as u64);
                data.put_unsigned("generation", state.generation());
            },
            None => {
                data.put_unsigned("generation", state.generation());
            },
        }
        self.finish(Response::ok(data.finish()))
    }

    /// Takes the answer to the last action and says what to do next.
    pub fn step(&mut self, state: &mut SystemwideState, reply: UpdateReply) -> (r: UpdateAction)
        requires
            update_fits(old(self)@, reply@),
        ensures
            (final(self)@, final(state)@, r@) == update_step(old(self)@, old(state)@, reply@),
    {
        match (self.phase, reply) {
            (UpdatePhase::CheckingIdle, UpdateReply::Idle(idle)) => self.idle_known(idle),
            (UpdatePhase::SettingParameter, UpdateReply::Outcome(Ok(_))) => {
                let total: usize = match &self.changed {
                    Some(changed) => changed.len(),
                    None => 0,
                };
                proof {
                    assert(self.done < total);
                }
                self.done = self.done + 1;
                self.set_next()
            },
            (UpdatePhase::SettingParameter, _) => {
                self.phase = UpdatePhase::CheckingIdle;
                self.changed = None;
                UpdateAction::CheckIdle
            },
            (UpdatePhase::UpdatingChain, UpdateReply::Outcome(Err(error))) => self.finish(
                Response::err(join2("Failed to update plugin chain: ", error.as_str())),
            ),
            (UpdatePhase::UpdatingGraph, UpdateReply::Outcome(Err(error))) => self.finish(
                Response::err(
                    join2(
                        "Failed to apply plugin graph; previous pipeline remains active: ",
                        error.as_str(),
                    ),
                ),
            ),
            (UpdatePhase::UpdatingChain, _) => self.land(true),
            (UpdatePhase::UpdatingGraph, _) => self.land(true),
            (UpdatePhase::SettingLoudness, _) => {
                state.commit_applied(&self.plan);
                self.phase = UpdatePhase::SyncingProfiles;
                UpdateAction::SyncProfiles { save: self.save }
            },
            (UpdatePhase::SyncingProfiles, _) => self.answer(state),
            (UpdatePhase::ReadingDriver, UpdateReply::Driver(status)) => self.apply(status),
            (UpdatePhase::Applying, UpdateReply::Applied(response)) => self.finish(response),
            _ => {
                proof {
                    assert(false);
                }
                UpdateAction::CheckIdle
            },
        }
    }
}

proof fn lemma_kept_again(plugins: Seq<PluginModel>)
    ensures
        kept_plugins(kept_plugins(plugins)) == kept_plugins(plugins),
    decreases plugins.len(),
{
    reveal(Seq::filter);
    let keep = |p: PluginModel| !crate::plugins::is_stripped_type(p.plugin_type);
    if plugins.len() > 0 {
        lemma_kept_again(plugins.drop_last());
        let front = kept_plugins(plugins.drop_last());
        if keep(plugins.last()) {
            assert(front.push(plugins.last()).drop_last() =~= front);
        }
    }
}

/// A plan that was prepared for the running pipeline serves for a cold start as it is: preparing
/// its chain once more, with whatever channel count the driver has, gives the same plan.
pub proof fn prepared_chains_need_no_second_plan(
    s: StateModel,
    plugins: Seq<PluginModel>,
    configured: Option<Seq<char>>,
    fallback: usize,
)
    requires
        reload_plan(s, plugins, configured) is Ok,
    ensures
        ({
            let plan = reload_plan(s, plugins, configured)->Ok_0;
            chain_plan(
                s.pipeline.desired,
                plan.spec.user_plugins,
                plan.spec.input_channels,
                plan.spec.output_channels,
                fallback,
                configured,
            ) == Ok::<PlanModel, Seq<char>>(plan)
        }),
{
    lemma_kept_again(plugins);
}

/// A parameter is set on the plugin that the client named: in a chain that holds nothing of the
/// daemon's, the plugin at `index` runs one position later, behind the input meter.
pub proof fn parameters_reach_their_plugin(s: StateModel, index: usize, parameters: Json, configured: Option<Seq<char>>, first: Result<UpdateModel, ResponseModel>)
    requires
        parameter_update_begins(s, index, parameters, configured, first),
        first is Ok,
        kept_plugins(s.pipeline.desired.user_plugins) == s.pipeline.desired.user_plugins,
        s.pipeline.desired.user_plugins.len() < usize::MAX,
    ensures
        ({
            let running = first->Ok_0.plan.runtime_plugins[first->Ok_0.position as int];
            &&& running.plugin_type == s.pipeline.desired.user_plugins[index as int].plugin_type
            &&& running.parameters == parameters
        }),
{
    let plugins = s.pipeline.desired.user_plugins;
    let edited = plugins.update(index as int, PluginModel { parameters, ..plugins[index as int] });
    lemma_kept_update(plugins, index as int, edited);
}

/// A chain that loses nothing when it is cleaned holds only plugins that are kept.
proof fn lemma_kept_all(plugins: Seq<PluginModel>)
    requires
        kept_plugins(plugins).len() == plugins.len(),
    ensures
        kept_plugins(plugins) == plugins,
        forall|i: int|
            0 <= i < plugins.len() ==> !crate::plugins::is_stripped_type((#[trigger] plugins[i]).plugin_type),
    decreases plugins.len(),
{
    reveal(Seq::filter);
    let keep = |p: PluginModel| !crate::plugins::is_stripped_type(p.plugin_type);
    if plugins.len() > 0 {
        let front = plugins.drop_last();
        front.lemma_filter_len(keep);
        lemma_kept_all(front);
        assert(plugins =~= front.push(plugins.last()));
        assert forall|i: int| 0 <= i < plugins.len() implies !crate::plugins::is_stripped_type(
            (#[trigger] plugins[i]).plugin_type,
        ) by {
            if i < front.len() {
                assert(front[i] == plugins[i]);
            }
        }
    }
}

proof fn lemma_all_kept(plugins: Seq<PluginModel>)
    requires
        forall|i: int|
            0 <= i < plugins.len() ==> !crate::plugins::is_stripped_type((#[trigger] plugins[i]).plugin_type),
    ensures
        kept_plugins(plugins) == plugins,
    decreases plugins.len(),
{
    reveal(Seq::filter);
    if plugins.len() > 0 {
        let front = plugins.drop_last();
        lemma_all_kept(front);
        assert(plugins =~= front.push(plugins.last()));
    } else {
        assert(kept_plugins(plugins) =~= plugins);
    }
}

proof fn lemma_kept_update(plugins: Seq<PluginModel>, index: int, edited: Seq<PluginModel>)
    requires
        kept_plugins(plugins) == plugins,
        0 <= index < plugins.len(),
        edited == plugins.update(
            index,
            (PluginModel { parameters: edited[index].parameters, ..plugins[index] }),
        ),
    ensures
        kept_plugins(edited) == edited,
{
    lemma_kept_all(plugins);
    assert forall|i: int| 0 <= i < edited.len() implies !crate::plugins::is_stripped_type(
        (#[trigger] edited[i]).plugin_type,
    ) by {
        assert(!crate::plugins::is_stripped_type(plugins[i].plugin_type));
    }
    lemma_all_kept(edited);
}

/// The text in which the engine takes a value: a text as it is, any other value as JSON.
pub open spec fn engine_text(value: Json) -> Seq<char> {
    match value {
        Json::Text(text) => text,
        _ => crate::json::compact_text(value),
    }
}

/// An update after the engine was found playing and took so many parameters.
pub open spec fn after_parameters(u: UpdateModel, s: StateModel, count: nat) -> (
    UpdateModel,
    StateModel,
    UpdateAct,
)
    decreases count,
{
    if count == 0 {
        update_step(u, s, UpdateAnswer::Idle(false))
    } else {
        let before = after_parameters(u, s, (count - 1) as nat);
        update_step(before.0, before.1, UpdateAnswer::Outcome(Ok(())))
    }
}

/// Every changed parameter is set before a parameter update lands: while the engine plays and takes
/// what it is given, the changes are set one after the other, each with its own name and text and on
/// the plugin that was named, and only after the last one is the engine told where its meter is. Until
/// then nothing is recorded.
pub proof fn every_changed_parameter_is_set(u: UpdateModel, s: StateModel, i: nat)
    requires
        u.phase == UpdatePhase::CheckingIdle,
        u.plan.runtime_graph is None,
        u.changed is Some,
        u.done == 0,
        u.changed->0.len() <= usize::MAX,
        i <= u.changed->0.len(),
    ensures
        ({
            let now = after_parameters(u, s, i);
            let list = u.changed->0;
            &&& now.1 == s
            &&& now.0.changed == u.changed && now.0.position == u.position && now.0.plan == u.plan
            &&& now.0.done == i
            &&& i < list.len() ==> now.0.phase == UpdatePhase::SettingParameter && now.2 == (
            UpdateAct::SetParameter {
                position: u.position,
                name: list[i as int].0,
                text: engine_text(list[i as int].1),
            })
            &&& i == list.len() ==> now.2 == UpdateAct::SetLoudnessIndex(u.plan.output_loudness_index)
                && !now.0.save
        }),
    decreases i,
{
    if i > 0 {
        every_changed_parameter_is_set(u, s, (i - 1) as nat);
    }
}

/// An update that sets parameters lands only when the last of them was taken, and a parameter that the
/// engine does not take has the whole chain replaced instead.
pub proof fn updates_land_after_the_last_parameter(u: UpdateModel, s: StateModel, reply: UpdateAnswer)
    requires
        u.phase == UpdatePhase::SettingParameter,
        update_fits(u, reply),
        u.changed->0.len() <= usize::MAX,
    ensures
        ({
            let next = update_step(u, s, reply);
            &&& next.1 == s
            &&& next.2 is SetLoudnessIndex <==> reply->Outcome_0 is Ok && u.done + 1
                == u.changed->0.len()
            &&& reply->Outcome_0 is Err ==> next.2 == UpdateAct::CheckIdle && next.0.changed is None
                && next.0.phase == UpdatePhase::CheckingIdle && next.0.plan == u.plan
            &&& reply->Outcome_0 is Err && u.plan.runtime_graph is None ==> update_step(
                next.0,
                next.1,
                UpdateAnswer::Idle(false),
            ).2 == UpdateAct::UpdateChain
        }),
{
}

/// What the changes are: the parameters that are new or have another value, each once and with its new
/// value, and all of them.
pub proof fn changes_are_what_differs(before: Json, after: Json, changed: Option<Seq<(Seq<char>, Json)>>)
    requires
        is_change_list(before, after, changed),
        changed is Some,
    ensures
        before is Object && after is Object,
        before->Object_0.dom().subset_of(after->Object_0.dom()),
        forall|i: int|
            0 <= i < changed->0.len() ==> {
                let entry = #[trigger] changed->0[i];
                &&& after->Object_0.contains_key(entry.0) && after->Object_0[entry.0] == entry.1
                &&& before->Object_0.contains_key(entry.0) ==> !same_json(
                    before->Object_0[entry.0],
                    entry.1,
                )
            },
        forall|k: Seq<char>|
            after->Object_0.contains_key(k) && (!before->Object_0.contains_key(k) || !same_json(
                before->Object_0[k],
                after->Object_0[k],
            )) ==> exists|i: int| 0 <= i < changed->0.len() && (#[trigger] changed->0[i]).0 == k,
{
    let x = before->Object_0;
    let y = after->Object_0;
    let list = choose|list: Seq<JsonMember>|
        names_ascend(list) && #[trigger] members_of(list) == changed_members(x, y) && changed == Some(
            change_models(list),
        );
    crate::json::lemma_ascend_distinct(list);
    crate::json::lemma_distinct_lookup(list);
    assert forall|i: int| 0 <= i < changed->0.len() implies ({
        let entry = #[trigger] changed->0[i];
        &&& y.contains_key(entry.0) && y[entry.0] == entry.1
        &&& x.contains_key(entry.0) ==> !same_json(x[entry.0], entry.1)
    }) by {
        assert(changed_members(x, y).contains_key(list[i].name@));
    }
    assert forall|k: Seq<char>|
        y.contains_key(k) && (!x.contains_key(k) || !same_json(x[k], y[k])) implies exists|i: int|
        0 <= i < changed->0.len() && (#[trigger] changed->0[i]).0 == k by {
        assert(changed_members(x, y).contains_key(k));
        let i = choose|i: int| 0 <= i < list.len() && #[trigger] list[i].name@ == k;
        assert(changed->0[i].0 == k);
    }
}

/// The walk of an update while the engine plays and takes it: a graph is given to the engine as a
/// graph, a chain as a chain, the engine learns where its meter is, and the plan is then the desired
/// and the applied one, in the next generation, which is the answer. Profiles are written, and saved
/// unless only parameters changed.
pub proof fn taken_updates_walk_to_success(u: UpdateModel, s: StateModel)
    requires
        u.phase == UpdatePhase::CheckingIdle,
        u.changed is None || u.plan.runtime_graph is Some,
        s.pipeline.generation < u64::MAX,
    ensures
        ({
            let b1 = update_step(u, s, UpdateAnswer::Idle(false));
            let b2 = update_step(b1.0, b1.1, UpdateAnswer::Outcome(Ok(())));
            let b3 = update_step(b2.0, b2.1, UpdateAnswer::Done);
            let b4 = update_step(b3.0, b3.1, UpdateAnswer::Done);
            &&& b1.2 == if u.plan.runtime_graph is Some {
                UpdateAct::UpdateGraph
            } else {
                UpdateAct::UpdateChain
            }
            &&& b2.2 == UpdateAct::SetLoudnessIndex(u.plan.output_loudness_index) && b2.1 == s
            &&& b3.2 == (UpdateAct::SyncProfiles { save: true })
            &&& b3.1.recovery == s.recovery
            &&& b3.1.pipeline.desired == u.plan.spec
            &&& b3.1.pipeline.applied is Some && b3.1.pipeline.applied->0.spec == u.plan.spec
            &&& b3.1.pipeline.generation == s.pipeline.generation + 1
            &&& b4.1 == b3.1
            &&& b4.2 is Finish && b4.2->Finish_0.success && b4.2->Finish_0.data is Some
            &&& crate::json::json_member(b4.2->Finish_0.data->0, "generation"@) == Some(
                Json::Number(crate::json::JsonNum::Unsigned((s.pipeline.generation + 1) as u64)),
            )
        }),
{
    reveal_strlit("nodes");
    assert("nodes"@.len() == 5);
    assert("nodes"@[0] == 'n');
    reveal_strlit("edges");
    assert("edges"@.len() == 5);
    assert("edges"@[0] == 'e');
    reveal_strlit("topology");
    assert("topology"@.len() == 8);
    reveal_strlit("generation");
    assert("generation"@.len() == 10);
}

/// An update that finds the engine idle is applied by a restart, with its own plan, at the format that
/// the driver reports, and answered with how that came out. One that the engine does not take changes
/// nothing.
pub proof fn idle_and_refused_updates(
    u: UpdateModel,
    s: StateModel,
    status: DriverStatus,
    response: ResponseModel,
    e: Seq<char>,
)
    requires
        u.phase == UpdatePhase::CheckingIdle,
    ensures
        ({
            let b1 = update_step(u, s, UpdateAnswer::Idle(true));
            let b2 = update_step(b1.0, b1.1, UpdateAnswer::Driver(status));
            let b3 = update_step(b2.0, b2.1, UpdateAnswer::Applied(response));
            let chain = update_step(
                update_at(u, UpdatePhase::UpdatingChain),
                s,
                UpdateAnswer::Outcome(Err(e)),
            );
            let graph = update_step(
                update_at(u, UpdatePhase::UpdatingGraph),
                s,
                UpdateAnswer::Outcome(Err(e)),
            );
            &&& b1.2 == UpdateAct::ReadDriver && b1.1 == s
            &&& b2.2 == (UpdateAct::Apply {
                plan: u.plan,
                status,
                sample_rate: if status.sample_rate > 0 { status.sample_rate } else { 48000 },
                buffer_frames: if status.buffer_frames > 0 { status.buffer_frames } else { 512 },
            }) && b2.1 == s
            &&& b3.2 == UpdateAct::Finish(response) && b3.1 == s
            &&& chain.1 == s && chain.2 == UpdateAct::Finish(
                (ResponseModel {
                    success: false,
                    data: None,
                    error: Some("Failed to update plugin chain: "@ + e),
                }),
            )
            &&& graph.1 == s && graph.2 == UpdateAct::Finish(
                (ResponseModel {
                    success: false,
                    data: None,
                    error: Some(
                        "Failed to apply plugin graph; previous pipeline remains active: "@ + e,
                    ),
                }),
            )
        }),
{
}

/// A parameter update replaces the parameters of the plugin that was named and nothing else of the
/// chain. One that would change nothing, names no plugin or meets a graph is answered at once.
pub proof fn parameter_updates_touch_one_plugin(
    s: StateModel,
    index: usize,
    parameters: Json,
    configured: Option<Seq<char>>,
    first: Result<UpdateModel, ResponseModel>,
)
    requires
        parameter_update_begins(s, index, parameters, configured, first),
        kept_plugins(s.pipeline.desired.user_plugins) == s.pipeline.desired.user_plugins,
        s.pipeline.desired.user_plugins.len() < usize::MAX,
    ensures
        s.pipeline.desired.user_graph is Some ==> first is Err && !first->Err_0.success,
        s.pipeline.desired.user_graph is None && index >= s.pipeline.desired.user_plugins.len()
            ==> first is Err && !first->Err_0.success,
        s.pipeline.desired.user_graph is None && index < s.pipeline.desired.user_plugins.len()
            && same_json(s.pipeline.desired.user_plugins[index as int].parameters, parameters) ==> first
            is Err && first->Err_0.success,
        first matches Ok(u) ==> {
            let plugins = s.pipeline.desired.user_plugins;
            let chain = u.plan.spec.user_plugins;
            &&& index < plugins.len() && chain.len() == plugins.len()
            &&& chain[index as int].parameters == parameters
            &&& chain[index as int].plugin_type == plugins[index as int].plugin_type
            &&& forall|i: int|
                0 <= i < plugins.len() && i != index ==> #[trigger] chain[i] == plugins[i]
            &&& u.position == index + 1
            &&& u.plan.spec.output_channels == s.pipeline.desired.output_channels
            &&& s.pipeline.desired.input_channels > 0 ==> u.plan.spec.input_channels
                == s.pipeline.desired.input_channels
        },
{
    if first is Ok {
        let plugins = s.pipeline.desired.user_plugins;
        let edited = plugins.update(
            index as int,
            PluginModel { parameters, ..plugins[index as int] },
        );
        lemma_kept_update(plugins, index as int, edited);
    }
}

/// A chain that is loaded again keeps the desired channels, begins with whether the engine is idle, and
/// is saved.
pub proof fn reloads_keep_the_channels(
    state: SystemwideState,
    plugins: Vec<PluginConfig>,
    configured: Option<String>,
    begun: Result<(ChainUpdate, UpdateAction), Response>,
)
    requires
        call_ensures(ChainUpdate::reload, (&state, plugins, &configured), begun),
    ensures
        begun matches Ok(started) ==> {
            let update = started.0@;
            let desired = state@.pipeline.desired;
            &&& started.1@ is CheckIdle && update.phase == UpdatePhase::CheckingIdle && update.save
            &&& update.changed is None && update.done == 0
            &&& update.plan.spec.user_plugins == kept_plugins(plugin_models(plugins@))
            &&& update.plan.spec.user_graph is None
            &&& desired.input_channels > 0 ==> update.plan.spec.input_channels == desired.input_channels
            &&& update.plan.spec.output_channels == desired.output_channels
        },
        1 <= state@.pipeline.desired.input_channels <= 32 && 1 <= state@.pipeline.desired.output_channels
            <= 32 ==> begun is Ok,
        begun matches Err(response) ==> !response@.success,
{
}

/// An update that landed is answered with its generation, and with the size of its graph where it is
/// one.
pub proof fn landed_updates_tell_their_generation(plan: PlanModel, generation: u64)
    ensures
        ({
            let told = landed_json(plan, generation);
            &&& json_member(told, "generation"@) == Some(Json::Number(JsonNum::Unsigned(generation)))
            &&& plan.spec.user_graph matches Some(graph) ==> {
                &&& json_member(told, "topology"@) == Some(Json::Text("graph"@))
                &&& json_member(told, "nodes"@) == Some(
                    Json::Number(JsonNum::Unsigned(graph.nodes.len() as u64)),
                )
                &&& json_member(told, "edges"@) == Some(
                    Json::Number(JsonNum::Unsigned(graph.edges.len() as u64)),
                )
            }
            &&& plan.spec.user_graph is None ==> json_member(told, "topology"@) is None
        }),
{
    reveal_strlit("nodes");
    assert("nodes"@.len() == 5);
    assert("nodes"@[0] == 'n');
    reveal_strlit("edges");
    assert("edges"@.len() == 5);
    assert("edges"@[0] == 'e');
    reveal_strlit("topology");
    assert("topology"@.len() == 8);
    reveal_strlit("generation");
    assert("generation"@.len() == 10);
}

/// A graph falls back to the channels of the driver, then to the desired ones, and never to fewer than
/// two.
pub proof fn graphs_fall_back_to_the_driver(status: DriverStatus, desired: usize)
    ensures
        status.channel_count > 0 ==> graph_fallback(status, desired) == status.channel_count,
        status.channel_count == 0 && desired >= 2 ==> graph_fallback(status, desired) == desired,
        status.channel_count == 0 && desired < 2 ==> graph_fallback(status, desired) == 2,
{
}

/// A graph with other channels than the desired ones restarts the engine; with the same channels it is
/// handed to the running one. One that cannot be prepared is refused with the reason.
pub proof fn graphs_with_other_channels_restart_the_engine(
    desired: SpecModel,
    input_channels: usize,
    output_channels: usize,
    status: DriverStatus,
    plan: PlanModel,
    first: Result<(UpdateModel, UpdateAct), ResponseModel>,
)
    requires
        graph_update_from(desired, input_channels, output_channels, status, Ok(plan), first),
    ensures
        first is Ok,
        first->Ok_0.0.plan == plan,
        input_channels == desired.input_channels && output_channels == desired.output_channels ==> first->Ok_0.1
            is CheckIdle && first->Ok_0.0.phase == UpdatePhase::CheckingIdle,
        input_channels != desired.input_channels || output_channels != desired.output_channels ==> first->Ok_0.1
            is Apply && first->Ok_0.0.phase == UpdatePhase::Applying,
{
}

} // verus!
