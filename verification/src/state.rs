//! The daemon's control-plane state: the pipelines and a failure that needs recovery.

use crate::graph::accepts_graphs;
use crate::output_device::{is_safe_device, opt_text};
use crate::pipeline::{
    after_commit, chain_plan, graph_plan_outcome, next_generation, opt_spec, plan_outcome,
    spec_plan_outcome, virtual_device_text, PipelinePlan, PipelineSpec, PipelineSupervisor,
    SpecModel, SupervisorModel,
};
use crate::plugins::{opt_graph, plugin_models, PluginConfig, PluginGraphConfig};
use vstd::prelude::*;

verus! {

/// A transition that left the engine stopped, with what can be done about it.
#[derive(Debug)]
pub struct PipelineRecovery {
    pub error: String,
    pub actions: Vec<String>,
}

/// What a `PipelineRecovery` stands for.
#[verifier::ext_equal]
pub struct RecoveryModel {
    pub error: Seq<char>,
    pub actions: Seq<Seq<char>>,
}

/// What a sequence of texts stands for.
pub open spec fn text_models(texts: Seq<String>) -> Seq<Seq<char>> {
    texts.map_values(|s: String| s@)
}

impl View for PipelineRecovery {
    type V = RecoveryModel;

    open spec fn view(&self) -> RecoveryModel {
        RecoveryModel { error: self.error@, actions: text_models(self.actions@) }
    }
}

/// The recovery that a failure asks for.
pub open spec fn restart_recovery(error: Seq<char>) -> RecoveryModel {
    RecoveryModel { error, actions: seq!["restart_daemon"@] }
}

/// The view of an optional recovery.
pub open spec fn opt_recovery(recovery: Option<PipelineRecovery>) -> Option<RecoveryModel> {
    match recovery {
        Some(r) => Some(r@),
        None => None,
    }
}

/// The daemon's state. The last applied plan stays authoritative even where a later transition
/// could neither be applied nor undone, which `pipeline_recovery` records.
#[derive(Debug)]
pub struct SystemwideState {
    pub pipeline: PipelineSupervisor,
    pub pipeline_recovery: Option<PipelineRecovery>,
}

/// What a `SystemwideState` stands for.
#[verifier::ext_equal]
pub struct StateModel {
    pub pipeline: SupervisorModel,
    pub recovery: Option<RecoveryModel>,
}

impl View for SystemwideState {
    type V = StateModel;

    open spec fn view(&self) -> StateModel {
        StateModel { pipeline: self.pipeline@, recovery: opt_recovery(self.pipeline_recovery) }
    }
}

/// A copy of some texts.
pub fn copy_texts(texts: &Vec<String>) -> (r: Vec<String>)
    ensures
        text_models(r@) == text_models(texts@),
{
    let mut out: Vec<String> = Vec::new();
    let mut i: usize = 0;
    while i < texts.len()
        invariant
            i <= texts.len(),
            out.len() == i,
            forall|k: int| 0 <= k < i ==> (#[trigger] out@[k])@ == texts@[k]@,
        decreases texts.len() - i,
    {
        out.push(texts[i].clone());
        i = i + 1;
    }
    proof {
        assert(text_models(out@) =~= text_models(texts@));
    }
    out
}

impl Clone for PipelineRecovery {
    fn clone(&self) -> (r: PipelineRecovery)
        ensures
            r@ == self@,
    {
        PipelineRecovery { error: self.error.clone(), actions: copy_texts(&self.actions) }
    }
}

impl Default for SystemwideState {
    fn default() -> (r: SystemwideState)
        ensures
            r@.recovery is None,
            r@.pipeline == (SupervisorModel {
                desired: crate::pipeline::default_spec(),
                applied: None,
                generation: 0,
            }),
    {
        SystemwideState { pipeline: PipelineSupervisor::default(), pipeline_recovery: None }
    }
}

impl SystemwideState {
    /// The output device of the desired pipeline.
    pub fn selected_output_device(&self) -> (r: Option<String>)
        ensures
            opt_text(r) == self@.pipeline.desired.output_device,
    {
        self.pipeline.selected_output_device()
    }

    /// The user plugins of the desired pipeline.
    pub fn user_plugins(&self) -> (r: Vec<PluginConfig>)
        ensures
            plugin_models(r@) == self@.pipeline.desired.user_plugins,
    {
        self.pipeline.user_plugins()
    }

    /// The user graph of the desired pipeline.
    pub fn user_graph(&self) -> (r: Option<PluginGraphConfig>)
        ensures
            opt_graph(r) == self@.pipeline.desired.user_graph,
    {
        self.pipeline.user_graph()
    }

    /// The input channels of the desired pipeline.
    pub fn input_channels(&self) -> (r: usize)
        ensures
            r == self@.pipeline.desired.input_channels,
    {
        self.pipeline.input_channels()
    }

    /// The output channels of the desired pipeline.
    pub fn output_channels(&self) -> (r: usize)
        ensures
            r == self@.pipeline.desired.output_channels,
    {
        self.pipeline.output_channels()
    }

    /// The position of the input meter of the applied pipeline.
    pub fn input_loudness_index(&self) -> (r: Option<usize>)
        ensures
            r == match self@.pipeline.applied {
                Some(a) => Some(a.input_loudness_index),
                None => None,
            },
    {
        self.pipeline.input_loudness_index()
    }

    /// The position of the output meter of the applied pipeline.
    pub fn output_loudness_index(&self) -> (r: Option<usize>)
        ensures
            r == match self@.pipeline.applied {
                Some(a) => Some(a.output_loudness_index),
                None => None,
            },
    {
        self.pipeline.output_loudness_index()
    }

    /// The generation in which the applied pipeline was applied.
    pub fn applied_generation(&self) -> (r: Option<u64>)
        ensures
            r == match self@.pipeline.applied {
                Some(a) => Some(a.generation),
                None => None,
            },
    {
        self.pipeline.applied_generation()
    }

    /// The current generation.
    pub fn generation(&self) -> (r: u64)
        ensures
            r == self@.pipeline.generation,
    {
        self.pipeline.generation()
    }

    /// The output device of the applied pipeline.
    pub fn applied_output_device(&self) -> (r: Option<String>)
        ensures
            opt_text(r) == match self@.pipeline.applied {
                Some(a) => a.spec.output_device,
                None => None,
            },
    {
        self.pipeline.applied_output_device()
    }

    /// The desired pipeline.
    pub fn desired_spec(&self) -> (r: PipelineSpec)
        ensures
            r@ == self@.pipeline.desired,
    {
        self.pipeline.desired_spec()
    }

    /// The applied pipeline.
    pub fn applied_spec(&self) -> (r: Option<PipelineSpec>)
        ensures
            opt_spec(r) == match self@.pipeline.applied {
                Some(a) => Some(a.spec),
                None => None,
            },
    {
        self.pipeline.applied_spec()
    }

    /// The failure that needs recovery, if there is one.
    pub fn pipeline_recovery(&self) -> (r: Option<PipelineRecovery>)
        ensures
            opt_recovery(r) == self@.recovery,
    {
        match &self.pipeline_recovery {
            Some(recovery) => Some(recovery.clone()),
            None => None,
        }
    }

    /// Records a failure that only a restart of the daemon recovers.
    pub fn mark_pipeline_recovery(&mut self, error: String)
        ensures
            final(self)@ == (StateModel {
                recovery: Some(restart_recovery(error@)),
                ..old(self)@
            }),
    {
        let mut actions: Vec<String> = Vec::new();
        actions.push("restart_daemon".to_owned());
        proof {
            assert(text_models(actions@) =~= seq!["restart_daemon"@]);
        }
        self.pipeline_recovery = Some(PipelineRecovery { error, actions });
    }

    /// Forgets a recorded failure.
    pub fn clear_pipeline_recovery(&mut self)
        ensures
            final(self)@ == (StateModel { recovery: None, ..old(self)@ }),
    {
        self.pipeline_recovery = None;
    }

    /// The plan for a chain of plugins.
    pub fn prepare_plan(
        &self,
        user_plugins: Vec<PluginConfig>,
        input_channels: usize,
        output_channels: usize,
        driver_input_fallback_channels: usize,
        configured: &Option<String>,
    ) -> (r: Result<PipelinePlan, String>)
        ensures
            plan_outcome(r) == chain_plan(
                self@.pipeline.desired,
                plugin_models(user_plugins@),
                input_channels,
                output_channels,
                driver_input_fallback_channels,
                opt_text(*configured),
            ),
    {
        self.pipeline.prepare_plan(
            user_plugins,
            input_channels,
            output_channels,
            driver_input_fallback_channels,
            configured,
        )
    }

    /// The plan for a graph.
    pub fn prepare_graph_plan<F: Fn(&PluginGraphConfig) -> Result<(), String>>(
        &self,
        user_graph: PluginGraphConfig,
        input_channels: usize,
        output_channels: usize,
        driver_input_fallback_channels: usize,
        configured: &Option<String>,
        validate: &F,
    ) -> (r: Result<PipelinePlan, String>)
        requires
            accepts_graphs(*validate),
        ensures
            graph_plan_outcome(
                *validate,
                self@.pipeline.desired,
                user_graph@,
                input_channels,
                output_channels,
                driver_input_fallback_channels,
                opt_text(*configured),
                plan_outcome(r),
            ),
    {
        self.pipeline.prepare_graph_plan(
            user_graph,
            input_channels,
            output_channels,
            driver_input_fallback_channels,
            configured,
            validate,
        )
    }

    /// The plan for the desired pipeline on another device.
    pub fn prepare_with_selected_device<F: Fn(&PluginGraphConfig) -> Result<(), String>>(
        &self,
        output_device: String,
        configured: &Option<String>,
        validate: &F,
    ) -> (r: Result<PipelinePlan, String>)
        requires
            accepts_graphs(*validate),
        ensures
            spec_plan_outcome(
                *validate,
                (SpecModel { output_device: Some(output_device@), ..self@.pipeline.desired }),
                self@.pipeline.desired.input_channels,
                opt_text(*configured),
                plan_outcome(r),
            ),
    {
        self.pipeline.prepare_with_selected_device(output_device, configured, validate)
    }

    /// The plan for a given spec.
    pub fn prepare_from_spec<F: Fn(&PluginGraphConfig) -> Result<(), String>>(
        &self,
        spec: &PipelineSpec,
        driver_input_fallback_channels: usize,
        configured: &Option<String>,
        validate: &F,
    ) -> (r: Result<PipelinePlan, String>)
        requires
            accepts_graphs(*validate),
        ensures
            spec_plan_outcome(
                *validate,
                spec@,
                driver_input_fallback_channels,
                opt_text(*configured),
                plan_outcome(r),
            ),
    {
        self.pipeline.prepare_from_spec(spec, driver_input_fallback_channels, configured, validate)
    }

    /// Records that a plan runs.
    pub fn commit_applied(&mut self, plan: &PipelinePlan)
        ensures
            final(self)@ == (StateModel {
                pipeline: after_commit(old(self)@.pipeline, plan@),
                ..old(self)@
            }),
    {
        self.pipeline.commit_applied(plan);
    }

    /// Chooses the output device of the desired pipeline. A virtual device is refused.
    pub fn set_desired_output_device(&mut self, output_device: Option<String>) -> (r: Result<(), String>)
        ensures
            match opt_text(output_device) {
                Some(device) => if is_safe_device(device) {
                    r is Ok
                } else {
                    r matches Err(e) && e@ == virtual_device_text(device)
                },
                None => r is Ok,
            },
            r is Ok ==> final(self)@ == (StateModel {
                pipeline: SupervisorModel {
                    desired: SpecModel {
                        output_device: opt_text(output_device),
                        ..old(self)@.pipeline.desired
                    },
                    applied: old(self)@.pipeline.applied,
                    generation: next_generation(old(self)@.pipeline.generation),
                },
                ..old(self)@
            }),
            r is Err ==> final(self)@ == old(self)@,
    {
        self.pipeline.set_desired_output_device(output_device)
    }

    /// Records a plan as desired while nothing runs.
    pub fn commit_idle_reconfigure(&mut self, plan: &PipelinePlan)
        ensures
            final(self)@ == (StateModel {
                pipeline: SupervisorModel {
                    desired: plan@.spec,
                    applied: old(self)@.pipeline.applied,
                    generation: next_generation(old(self)@.pipeline.generation),
                },
                ..old(self)@
            }),
    {
        self.pipeline.commit_idle_reconfigure(plan);
    }
}

/// What needs a restart says why, and asks for the restart and nothing else.
pub proof fn restarts_are_asked_for_with_a_reason(error: Seq<char>)
    ensures
        restart_recovery(error).error == error,
        restart_recovery(error).actions.len() == 1,
        restart_recovery(error).actions[0] == "restart_daemon"@,
{
}

/// A safe device that is chosen is the desired one, under a new generation, and nothing else changes; a
/// virtual one is refused, and none may be chosen.
pub proof fn chosen_devices_are_desired(state: &mut SystemwideState, device: Option<String>, out: Result<(), String>)
    requires
        call_ensures(SystemwideState::set_desired_output_device, (state, device), out),
    ensures
        out is Ok <==> device is None || is_safe_device(device->0@),
        out is Err ==> final(state)@ == old(state)@,
        out is Ok ==> {
            let before = old(state)@.pipeline;
            let after = final(state)@.pipeline;
            &&& after.desired.output_device == opt_text(device)
            &&& after.desired.user_plugins == before.desired.user_plugins && after.desired.user_graph
                == before.desired.user_graph
            &&& after.desired.input_channels == before.desired.input_channels
            &&& after.desired.output_channels == before.desired.output_channels
            &&& after.applied == before.applied
            &&& before.generation < u64::MAX ==> after.generation == before.generation + 1
            &&& final(state)@.recovery == old(state)@.recovery
        },
{
}

/// What was applied is what the state tells afterwards; what was only recorded is desired and not
/// applied.
pub proof fn committed_plans_are_told(
    state: &mut SystemwideState,
    plan: PipelinePlan,
    generation: Option<u64>,
    device: Option<String>,
    input: Option<usize>,
    output: Option<usize>,
)
    requires
        call_ensures(SystemwideState::commit_applied, (state, &plan), ()),
        call_ensures(SystemwideState::applied_generation, (final(state),), generation),
        call_ensures(SystemwideState::applied_output_device, (final(state),), device),
        call_ensures(SystemwideState::input_loudness_index, (final(state),), input),
        call_ensures(SystemwideState::output_loudness_index, (final(state),), output),
    ensures
        generation == Some(final(state)@.pipeline.generation),
        old(state)@.pipeline.generation < u64::MAX ==> final(state)@.pipeline.generation == old(state)@.pipeline.generation + 1,
        opt_text(device) == plan@.spec.output_device,
        input == Some(plan@.input_loudness_index),
        output == Some(plan@.output_loudness_index),
        final(state)@.pipeline.desired == plan@.spec,
        final(state)@.recovery == old(state)@.recovery,
{
}

/// A change while nothing plays is desired, under a new generation, and what is applied stays.
pub proof fn idle_changes_are_desired_only(state: &mut SystemwideState, plan: PipelinePlan)
    requires
        call_ensures(SystemwideState::commit_idle_reconfigure, (state, &plan), ()),
    ensures
        final(state)@.pipeline.desired == plan@.spec,
        final(state)@.pipeline.applied == old(state)@.pipeline.applied,
        old(state)@.pipeline.generation < u64::MAX ==> final(state)@.pipeline.generation == old(state)@.pipeline.generation + 1,
        final(state)@.recovery == old(state)@.recovery,
{
}

/// A recovery that is asked for is told with its reason until it is cleared, and neither touches the
/// pipeline.
pub proof fn recoveries_are_told_until_cleared(state: &mut SystemwideState, cleared: &mut SystemwideState, error: String)
    requires
        call_ensures(SystemwideState::mark_pipeline_recovery, (state, error), ()),
        call_ensures(SystemwideState::clear_pipeline_recovery, (cleared,), ()),
    ensures
        final(state)@.recovery matches Some(r) && r.error == error@ && r.actions.len() == 1 && r.actions[0]
            == "restart_daemon"@,
        final(state)@.pipeline == old(state)@.pipeline,
        final(cleared)@.recovery is None,
        final(cleared)@.pipeline == old(cleared)@.pipeline,
{
}

} // verus!
