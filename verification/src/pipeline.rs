//! The pipeline the user wants, the plan that realises it, and the pipeline that runs.

use crate::graph::{accepts_graphs, MAX_HAL_CHANNELS};
use crate::graph_meter::{build_driver_plugin_graph, metered_outcome, monitored_outcome};
use crate::json::{json_equals_itself, json_member, same_json, Json, JsonNum, JsonObject, JsonValue};
use crate::output_device::{copy_opt_text, is_safe_device, is_safe_output_device_name, opt_text};
use crate::plugins::{
    build_driver_plugin_chain, copy_plugins, kept_plugins, metered_chain, opt_graph, plugin_models,
    sanitize_user_plugins, GraphModel, NodeModel, PluginConfig, PluginGraphConfig, PluginModel,
};
use crate::text::{decimal, decimal_text, join3, same_text};
use vstd::prelude::*;

verus! {

/// What a pipeline is to play, and where.
#[derive(Debug)]
pub struct PipelineSpec {
    pub output_device: Option<String>,
    pub user_plugins: Vec<PluginConfig>,
    pub user_graph: Option<PluginGraphConfig>,
    pub input_channels: usize,
    pub output_channels: usize,
}

/// What a `PipelineSpec` stands for.
#[verifier::ext_equal]
pub struct SpecModel {
    pub output_device: Option<Seq<char>>,
    pub user_plugins: Seq<PluginModel>,
    pub user_graph: Option<GraphModel>,
    pub input_channels: usize,
    pub output_channels: usize,
}

impl View for PipelineSpec {
    type V = SpecModel;

    open spec fn view(&self) -> SpecModel {
        SpecModel {
            output_device: opt_text(self.output_device),
            user_plugins: plugin_models(self.user_plugins@),
            user_graph: opt_graph(self.user_graph),
            input_channels: self.input_channels,
            output_channels: self.output_channels,
        }
    }
}

/// A spec together with what the engine is to run for it.
#[derive(Debug)]
pub struct PipelinePlan {
    pub spec: PipelineSpec,
    pub runtime_plugins: Vec<PluginConfig>,
    pub runtime_graph: Option<PluginGraphConfig>,
    pub input_loudness_index: usize,
    pub output_loudness_index: usize,
}

/// What a `PipelinePlan` stands for.
#[verifier::ext_equal]
pub struct PlanModel {
    pub spec: SpecModel,
    pub runtime_plugins: Seq<PluginModel>,
    pub runtime_graph: Option<GraphModel>,
    pub input_loudness_index: usize,
    pub output_loudness_index: usize,
}

impl View for PipelinePlan {
    type V = PlanModel;

    open spec fn view(&self) -> PlanModel {
        PlanModel {
            spec: self.spec@,
            runtime_plugins: plugin_models(self.runtime_plugins@),
            runtime_graph: opt_graph(self.runtime_graph),
            input_loudness_index: self.input_loudness_index,
            output_loudness_index: self.output_loudness_index,
        }
    }
}

/// The pipeline that was applied last.
#[derive(Debug)]
pub struct AppliedPipeline {
    pub spec: PipelineSpec,
    pub input_loudness_index: usize,
    pub output_loudness_index: usize,
    pub generation: u64,
}

/// What an `AppliedPipeline` stands for.
#[verifier::ext_equal]
pub struct AppliedModel {
    pub spec: SpecModel,
    pub input_loudness_index: usize,
    pub output_loudness_index: usize,
    pub generation: u64,
}

impl View for AppliedPipeline {
    type V = AppliedModel;

    open spec fn view(&self) -> AppliedModel {
        AppliedModel {
            spec: self.spec@,
            input_loudness_index: self.input_loudness_index,
            output_loudness_index: self.output_loudness_index,
            generation: self.generation,
        }
    }
}

/// The view of an optional applied pipeline.
pub open spec fn opt_applied(applied: Option<AppliedPipeline>) -> Option<AppliedModel> {
    match applied {
        Some(a) => Some(a@),
        None => None,
    }
}

/// The view of an optional spec.
pub open spec fn opt_spec(spec: Option<PipelineSpec>) -> Option<SpecModel> {
    match spec {
        Some(s) => Some(s@),
        None => None,
    }
}

/// The view of a plan or an error.
pub open spec fn plan_outcome(r: Result<PipelinePlan, String>) -> Result<PlanModel, Seq<char>> {
    match r {
        Ok(plan) => Ok(plan@),
        Err(e) => Err(e@),
    }
}

fn copy_opt_graph(graph: &Option<PluginGraphConfig>) -> (r: Option<PluginGraphConfig>)
    ensures
        opt_graph(r) == opt_graph(*graph),
{
    match graph {
        Some(g) => Some(g.clone()),
        None => None,
    }
}

impl Clone for PipelineSpec {
    fn clone(&self) -> (r: PipelineSpec)
        ensures
            r@ == self@,
    {
        PipelineSpec {
            output_device: copy_opt_text(&self.output_device),
            user_plugins: copy_plugins(&self.user_plugins),
            user_graph: copy_opt_graph(&self.user_graph),
            input_channels: self.input_channels,
            output_channels: self.output_channels,
        }
    }
}

impl Clone for PipelinePlan {
    fn clone(&self) -> (r: PipelinePlan)
        ensures
            r@ == self@,
    {
        PipelinePlan {
            spec: self.spec.clone(),
            runtime_plugins: copy_plugins(&self.runtime_plugins),
            runtime_graph: copy_opt_graph(&self.runtime_graph),
            input_loudness_index: self.input_loudness_index,
            output_loudness_index: self.output_loudness_index,
        }
    }
}

impl Clone for AppliedPipeline {
    fn clone(&self) -> (r: AppliedPipeline)
        ensures
            r@ == self@,
    {
        AppliedPipeline {
            spec: self.spec.clone(),
            input_loudness_index: self.input_loudness_index,
            output_loudness_index: self.output_loudness_index,
            generation: self.generation,
        }
    }
}

/// A stereo pipeline without plugins on no particular device.
pub open spec fn default_spec() -> SpecModel {
    SpecModel {
        output_device: None,
        user_plugins: Seq::empty(),
        user_graph: None,
        input_channels: 2,
        output_channels: 2,
    }
}

impl Default for PipelineSpec {
    fn default() -> (r: PipelineSpec)
        ensures
            r@ == default_spec(),
    {
        let user_plugins: Vec<PluginConfig> = Vec::new();
        proof {
            assert(plugin_models(user_plugins@) =~= Seq::<PluginModel>::empty());
        }
        PipelineSpec {
            output_device: None,
            user_plugins,
            user_graph: None,
            input_channels: 2,
            output_channels: 2,
        }
    }
}

/// The plugin types of a chain, in order.
pub open spec fn type_list(plugins: Seq<PluginModel>) -> Seq<Json> {
    plugins.map_values(|p: PluginModel| Json::Text(p.plugin_type))
}

/// The value that names a device, or null.
pub open spec fn device_json(device: Option<Seq<char>>) -> Json {
    match device {
        Some(name) => Json::Text(name),
        None => Json::Null,
    }
}

/// A number as a JSON value.
pub open spec fn count_json(n: int) -> Json {
    Json::Number(JsonNum::Unsigned(n as u64))
}

/// How clients see a spec.
pub open spec fn spec_json(spec: SpecModel) -> Json {
    Json::Object(
        map![
            "output_device"@ => device_json(spec.output_device),
            "input_channels"@ => count_json(spec.input_channels as int),
            "output_channels"@ => count_json(spec.output_channels as int),
            "user_plugin_count"@ => count_json(spec.user_plugins.len() as int),
            "user_plugin_types"@ => Json::List(type_list(spec.user_plugins)),
        ],
    )
}

/// The value that names a device, or null.
pub fn device_value(device: &Option<String>) -> (r: JsonValue)
    ensures
        r@ == device_json(opt_text(*device)),
{
    match device {
        Some(name) => JsonValue::Text(name.clone()),
        None => JsonValue::Null,
    }
}

fn type_values(plugins: &Vec<PluginConfig>) -> (r: JsonValue)
    ensures
        r@ == Json::List(type_list(plugin_models(plugins@))),
{
    let mut out: Vec<JsonValue> = Vec::new();
    let mut i: usize = 0;
    while i < plugins.len()
        invariant
            i <= plugins.len(),
            out.len() == i,
            forall|k: int| 0 <= k < i ==> (#[trigger] out@[k])@ == Json::Text(plugins@[k].plugin_type@),
        decreases plugins.len() - i,
    {
        out.push(JsonValue::Text(plugins[i].plugin_type.clone()));
        i = i + 1;
    }
    let r = JsonValue::List(out);
    proof {
        assert(crate::json::list_of(out@) =~= type_list(plugin_models(plugins@)));
    }
    r
}

/// How clients see a spec.
pub fn pipeline_spec_to_json(spec: &PipelineSpec) -> (r: JsonValue)
    ensures
        r@ == spec_json(spec@),
{
    let mut out = JsonObject::new();
    out.put("output_device", device_value(&spec.output_device));
    out.put_unsigned("input_channels", spec.input_channels as u64);
    out.put_unsigned("output_channels", spec.output_channels as u64);
    out.put_unsigned("user_plugin_count", spec.user_plugins.len() as u64);
    out.put("user_plugin_types", type_values(&spec.user_plugins));
    out.finish()
}

/// Whether two chains are the same, with parameters compared as JSON.
pub open spec fn same_chain(a: Seq<PluginModel>, b: Seq<PluginModel>) -> bool {
    a.len() == b.len() && forall|i: int|
        0 <= i < a.len() ==> (#[trigger] a[i]).plugin_type == b[i].plugin_type && same_json(
            a[i].parameters,
            b[i].parameters,
        )
}

/// Whether two nodes are the same, with parameters compared as JSON.
pub open spec fn same_node(a: NodeModel, b: NodeModel) -> bool {
    a.id == b.id && a.plugin_type == b.plugin_type && same_json(a.parameters, b.parameters)
        && a.input_channels == b.input_channels && a.bypassed == b.bypassed
}

/// Whether two graphs are the same, with parameters compared as JSON.
pub open spec fn same_graph(a: GraphModel, b: GraphModel) -> bool {
    a.edges == b.edges && a.nodes.len() == b.nodes.len() && forall|i: int|
        0 <= i < a.nodes.len() ==> same_node(#[trigger] a.nodes[i], b.nodes[i])
}

/// Whether two optional graphs are both absent or the same.
pub open spec fn same_opt_graph(a: Option<GraphModel>, b: Option<GraphModel>) -> bool {
    match (a, b) {
        (Some(x), Some(y)) => same_graph(x, y),
        (None, None) => true,
        _ => false,
    }
}

/// Whether two specs describe the same pipeline.
pub open spec fn same_spec(a: SpecModel, b: SpecModel) -> bool {
    &&& a.output_device == b.output_device
    &&& same_chain(a.user_plugins, b.user_plugins)
    &&& same_opt_graph(a.user_graph, b.user_graph)
    &&& a.input_channels == b.input_channels
    &&& a.output_channels == b.output_channels
}

fn chains_match(a: &Vec<PluginConfig>, b: &Vec<PluginConfig>) -> (r: bool)
    ensures
        r == same_chain(plugin_models(a@), plugin_models(b@)),
{
    if a.len() != b.len() {
        return false;
    }
    let ghost p = plugin_models(a@);
    let ghost q = plugin_models(b@);
    let mut i: usize = 0;
    while i < a.len()
        invariant
            i <= a.len() == b.len(),
            p == plugin_models(a@),
            q == plugin_models(b@),
            forall|k: int|
                0 <= k < i ==> (#[trigger] p[k]).plugin_type == q[k].plugin_type && same_json(
                    p[k].parameters,
                    q[k].parameters,
                ),
        decreases a.len() - i,
    {
        if !same_text(a[i].plugin_type.as_str(), b[i].plugin_type.as_str())
            || !a[i].parameters.matches(&b[i].parameters) {
            proof {
                assert(!(p[i as int].plugin_type == q[i as int].plugin_type && same_json(
                    p[i as int].parameters,
                    q[i as int].parameters,
                )));
            }
            return false;
        }
        i = i + 1;
    }
    true
}

fn graphs_match(a: &PluginGraphConfig, b: &PluginGraphConfig) -> (r: bool)
    ensures
        r == same_graph(a@, b@),
{
    if a.nodes.len() != b.nodes.len() || a.edges.len() != b.edges.len() {
        return false;
    }
    let mut i: usize = 0;
    while i < a.edges.len()
        invariant
            i <= a.edges.len() == b.edges.len(),
            forall|k: int| 0 <= k < i ==> a.edges@[k] == b.edges@[k],
        decreases a.edges.len() - i,
    {
        if a.edges[i].from_node != b.edges[i].from_node || a.edges[i].to_node != b.edges[i].to_node {
            return false;
        }
        i = i + 1;
    }
    proof {
        assert(a.edges@ =~= b.edges@);
    }
    let ghost p = a@.nodes;
    let ghost q = b@.nodes;
    let mut j: usize = 0;
    while j < a.nodes.len()
        invariant
            j <= a.nodes.len() == b.nodes.len(),
            p == a@.nodes,
            q == b@.nodes,
            forall|k: int| 0 <= k < j ==> same_node(#[trigger] p[k], q[k]),
        decreases a.nodes.len() - j,
    {
        let x = &a.nodes[j];
        let y = &b.nodes[j];
        if x.id != y.id || !same_text(x.plugin_type.as_str(), y.plugin_type.as_str())
            || !x.parameters.matches(&y.parameters) || x.input_channels != y.input_channels
            || x.bypassed != y.bypassed {
            proof {
                assert(!same_node(p[j as int], q[j as int]));
            }
            return false;
        }
        j = j + 1;
    }
    true
}

fn texts_match(a: &Option<String>, b: &Option<String>) -> (r: bool)
    ensures
        r == (opt_text(*a) == opt_text(*b)),
{
    match (a, b) {
        (Some(x), Some(y)) => same_text(x.as_str(), y.as_str()),
        (None, None) => true,
        _ => false,
    }
}

/// Whether two specs describe the same pipeline. The order of parameter keys has no part in it.
pub fn pipeline_specs_match(a: &PipelineSpec, b: &PipelineSpec) -> (r: bool)
    ensures
        r == same_spec(a@, b@),
{
    let graphs = match (&a.user_graph, &b.user_graph) {
        (Some(x), Some(y)) => graphs_match(x, y),
        (None, None) => true,
        _ => false,
    };
    graphs && texts_match(&a.output_device, &b.output_device) && chains_match(
        &a.user_plugins,
        &b.user_plugins,
    ) && a.input_channels == b.input_channels && a.output_channels == b.output_channels
}

/// Holds the desired and the applied pipeline, and numbers every change of either.
#[derive(Debug)]
pub struct PipelineSupervisor {
    pub desired: PipelineSpec,
    pub applied: Option<AppliedPipeline>,
    pub generation: u64,
}

/// What a `PipelineSupervisor` stands for.
#[verifier::ext_equal]
pub struct SupervisorModel {
    pub desired: SpecModel,
    pub applied: Option<AppliedModel>,
    pub generation: u64,
}

impl View for PipelineSupervisor {
    type V = SupervisorModel;

    open spec fn view(&self) -> SupervisorModel {
        SupervisorModel {
            desired: self.desired@,
            applied: opt_applied(self.applied),
            generation: self.generation,
        }
    }
}

/// The next generation. The last one repeats.
pub open spec fn next_generation(generation: u64) -> u64 {
    if generation == u64::MAX {
        generation
    } else {
        (generation + 1) as u64
    }
}

/// The channel count a plan takes from the driver side: the requested one, else the driver's, else
/// the desired one.
pub open spec fn plan_input_channels(desired: usize, requested: usize, fallback: usize) -> usize {
    if requested > 0 {
        requested
    } else if fallback > 0 {
        fallback
    } else if desired > 1 {
        desired
    } else {
        1
    }
}

/// The device a plan plays to: the desired one, else the configured one, and none where that is not
/// a safe device.
pub open spec fn plan_device(desired: Option<Seq<char>>, configured: Option<Seq<char>>) -> Option<Seq<char>> {
    let chosen = if desired is Some { desired } else { configured };
    if chosen is Some && is_safe_device(chosen->0) {
        chosen
    } else {
        None
    }
}

/// The complaint about a channel count.
pub open spec fn channel_text(lead: Seq<char>, channels: usize) -> Seq<char> {
    lead + decimal(channels as nat) + ". Must be between 1 and "@ + decimal(MAX_HAL_CHANNELS as nat)
        + "."@
}

/// The plan for a chain of plugins, or why there is none.
pub open spec fn chain_plan(
    desired: SpecModel,
    user_plugins: Seq<PluginModel>,
    input_channels: usize,
    output_channels: usize,
    fallback: usize,
    configured: Option<Seq<char>>,
) -> Result<PlanModel, Seq<char>> {
    let kept = kept_plugins(user_plugins);
    let inputs = plan_input_channels(desired.input_channels, input_channels, fallback);
    if !(1 <= inputs <= MAX_HAL_CHANNELS) {
        Err(channel_text("Invalid HAL input channel count: "@, inputs))
    } else if !(1 <= output_channels <= MAX_HAL_CHANNELS) {
        Err(channel_text("Invalid output channel count: "@, output_channels))
    } else {
        Ok(
            PlanModel {
                spec: SpecModel {
                    output_device: plan_device(desired.output_device, configured),
                    user_plugins: kept,
                    user_graph: None,
                    input_channels: inputs,
                    output_channels,
                },
                runtime_plugins: metered_chain(kept),
                runtime_graph: None,
                input_loudness_index: 0,
                output_loudness_index: (kept.len() + 1) as usize,
            },
        )
    }
}

/// The plan for a metered graph, from the plan for no plugins at all.
pub open spec fn with_graph(base: PlanModel, user_graph: GraphModel, runtime: GraphModel) -> PlanModel {
    PlanModel {
        spec: SpecModel { user_graph: Some(user_graph), ..base.spec },
        runtime_plugins: Seq::empty(),
        runtime_graph: Some(runtime),
        input_loudness_index: 0,
        output_loudness_index: (user_graph.nodes.len() + 1) as usize,
    }
}

/// Whether `out` follows for a graph from a metered graph or an error.
pub open spec fn graph_plan_from(
    base: PlanModel,
    user_graph: GraphModel,
    metered: Result<GraphModel, Seq<char>>,
    out: Result<PlanModel, Seq<char>>,
) -> bool {
    match metered {
        Err(e) => out == Err::<PlanModel, Seq<char>>(e),
        Ok(m) => out == Ok::<PlanModel, Seq<char>>(with_graph(base, user_graph, m)),
    }
}

/// What preparing a plan for a graph may return.
pub open spec fn graph_plan_outcome<F: Fn(&PluginGraphConfig) -> Result<(), String>>(
    validate: F,
    desired: SpecModel,
    user_graph: GraphModel,
    input_channels: usize,
    output_channels: usize,
    fallback: usize,
    configured: Option<Seq<char>>,
    out: Result<PlanModel, Seq<char>>,
) -> bool {
    match chain_plan(desired, Seq::empty(), input_channels, output_channels, fallback, configured) {
        Err(e) => out == Err::<PlanModel, Seq<char>>(e),
        Ok(base) => exists|metered: Result<GraphModel, Seq<char>>|
            monitored_outcome(
                validate,
                user_graph,
                base.spec.input_channels,
                base.spec.output_channels,
                metered,
            ) && #[trigger] graph_plan_from(base, user_graph, metered, out),
    }
}

/// What preparing a plan for a spec may return.
pub open spec fn spec_plan_outcome<F: Fn(&PluginGraphConfig) -> Result<(), String>>(
    validate: F,
    spec: SpecModel,
    fallback: usize,
    configured: Option<Seq<char>>,
    out: Result<PlanModel, Seq<char>>,
) -> bool {
    match spec.user_graph {
        Some(graph) => graph_plan_outcome(
            validate,
            spec,
            graph,
            spec.input_channels,
            spec.output_channels,
            fallback,
            configured,
            out,
        ),
        None => out == chain_plan(
            spec,
            spec.user_plugins,
            spec.input_channels,
            spec.output_channels,
            fallback,
            configured,
        ),
    }
}

/// The supervisor after a plan was applied.
pub open spec fn after_commit(s: SupervisorModel, plan: PlanModel) -> SupervisorModel {
    SupervisorModel {
        desired: plan.spec,
        applied: Some(
            AppliedModel {
                spec: plan.spec,
                input_loudness_index: plan.input_loudness_index,
                output_loudness_index: plan.output_loudness_index,
                generation: next_generation(s.generation),
            },
        ),
        generation: next_generation(s.generation),
    }
}

fn channel_message(lead: &str, channels: usize) -> (r: String)
    ensures
        r@ == channel_text(lead@, channels),
{
    let have = decimal_text(channels as u64);
    let most = decimal_text(MAX_HAL_CHANNELS as u64);
    let text = join3(lead, have.as_str(), ". Must be between 1 and ");
    join3(text.as_str(), most.as_str(), ".")
}

fn prepare_chain(
    desired: &PipelineSpec,
    user_plugins: Vec<PluginConfig>,
    input_channels: usize,
    output_channels: usize,
    driver_input_fallback_channels: usize,
    configured: &Option<String>,
) -> (r: Result<PipelinePlan, String>)
    ensures
        plan_outcome(r) == chain_plan(
            desired@,
            plugin_models(user_plugins@),
            input_channels,
            output_channels,
            driver_input_fallback_channels,
            opt_text(*configured),
        ),
{
    let user_plugins = sanitize_user_plugins(user_plugins);
    let inputs: usize = if input_channels > 0 {
        input_channels
    } else if driver_input_fallback_channels > 0 {
        driver_input_fallback_channels
    } else if desired.input_channels > 1 {
        desired.input_channels
    } else {
        1
    };
    if inputs < 1 || inputs > MAX_HAL_CHANNELS {
        return Err(channel_message("Invalid HAL input channel count: ", inputs));
    }
    if output_channels < 1 || output_channels > MAX_HAL_CHANNELS {
        return Err(channel_message("Invalid output channel count: ", output_channels));
    }
    let chosen = match &desired.output_device {
        Some(device) => Some(device.clone()),
        None => copy_opt_text(configured),
    };
    let output_device = match chosen {
        Some(device) => if is_safe_output_device_name(device.as_str()) {
            Some(device)
        } else {
            None
        },
        None => None,
    };
    let (runtime_plugins, input_loudness_index, output_loudness_index) = build_driver_plugin_chain(
        copy_plugins(&user_plugins),
    );
    proof {
        assert(plugin_models(user_plugins@).len() == user_plugins@.len());
    }
    Ok(
        PipelinePlan {
            spec: PipelineSpec {
                output_device,
                user_plugins,
                user_graph: None,
                input_channels: inputs,
                output_channels,
            },
            runtime_plugins,
            runtime_graph: None,
            input_loudness_index,
            output_loudness_index,
        },
    )
}

fn prepare_graph<F: Fn(&PluginGraphConfig) -> Result<(), String>>(
    desired: &PipelineSpec,
    user_graph: PluginGraphConfig,
    input_channels: usize,
    output_channels: usize,
    driver_input_fallback_channels: usize,
    configured: &Option<String>,
    validate: &F,
) -> (r: Result<PipelinePlan, String>)
    requires
        accepts_graphs(*validate),
    ensures
        graph_plan_outcome(
            *validate,
            desired@,
            user_graph@,
            input_channels,
            output_channels,
            driver_input_fallback_channels,
            opt_text(*configured),
            plan_outcome(r),
        ),
{
    let none: Vec<PluginConfig> = Vec::new();
    proof {
        assert(plugin_models(none@) =~= Seq::<PluginModel>::empty());
    }
    let base = match prepare_chain(
        desired,
        none,
        input_channels,
        output_channels,
        driver_input_fallback_channels,
        configured,
    ) {
        Ok(base) => base,
        Err(error) => {
            return Err(error);
        },
    };
    let ghost model = base@;
    let metered = build_driver_plugin_graph(
        user_graph.clone(),
        base.spec.input_channels,
        base.spec.output_channels,
        validate,
    );
    let ghost settled = metered_outcome(metered);
    let r = match metered {
        Err(error) => Err(error),
        Ok((runtime_graph, input_loudness_index, output_loudness_index)) => {
            let runtime_plugins: Vec<PluginConfig> = Vec::new();
            proof {
                assert(plugin_models(runtime_plugins@) =~= Seq::<PluginModel>::empty());
            }
            let old_spec = base.spec;
            Ok(
                PipelinePlan {
                    spec: PipelineSpec {
                        output_device: old_spec.output_device,
                        user_plugins: old_spec.user_plugins,
                        user_graph: Some(user_graph),
                        input_channels: old_spec.input_channels,
                        output_channels: old_spec.output_channels,
                    },
                    runtime_plugins,
                    runtime_graph: Some(runtime_graph),
                    input_loudness_index,
                    output_loudness_index,
                },
            )
        },
    };
    proof {
        assert(graph_plan_from(model, user_graph@, settled, plan_outcome(r)));
    }
    r
}

/// The plan for a spec. `configured` is the device that the environment or the state file names.
pub fn prepare_spec<F: Fn(&PluginGraphConfig) -> Result<(), String>>(
    spec: &PipelineSpec,
    driver_input_fallback_channels: usize,
    configured: &Option<String>,
    validate: &F,
) -> (r: Result<PipelinePlan, String>)
    requires
        accepts_graphs(*validate),
    ensures
        spec_plan_outcome(
            *validate,
            spec@,
            driver_input_fallback_channels,
            opt_text(*configured),
            plan_outcome(r),
        ),
{
    match &spec.user_graph {
        Some(graph) => prepare_graph(
            spec,
            graph.clone(),
            spec.input_channels,
            spec.output_channels,
            driver_input_fallback_channels,
            configured,
            validate,
        ),
        None => prepare_chain(
            spec,
            copy_plugins(&spec.user_plugins),
            spec.input_channels,
            spec.output_channels,
            driver_input_fallback_channels,
            configured,
        ),
    }
}

impl PipelineSupervisor {
    /// The output device of the desired pipeline.
    pub fn selected_output_device(&self) -> (r: Option<String>)
        ensures
            opt_text(r) == self@.desired.output_device,
    {
        copy_opt_text(&self.desired.output_device)
    }

    /// The user plugins of the desired pipeline.
    pub fn user_plugins(&self) -> (r: Vec<PluginConfig>)
        ensures
            plugin_models(r@) == self@.desired.user_plugins,
    {
        copy_plugins(&self.desired.user_plugins)
    }

    /// The user graph of the desired pipeline.
    pub fn user_graph(&self) -> (r: Option<PluginGraphConfig>)
        ensures
            opt_graph(r) == self@.desired.user_graph,
    {
        match &self.desired.user_graph {
            Some(graph) => Some(graph.clone()),
            None => None,
        }
    }

    /// The input channels of the desired pipeline.
    pub fn input_channels(&self) -> (r: usize)
        ensures
            r == self@.desired.input_channels,
    {
        self.desired.input_channels
    }

    /// The output channels of the desired pipeline.
    pub fn output_channels(&self) -> (r: usize)
        ensures
            r == self@.desired.output_channels,
    {
        self.desired.output_channels
    }

    /// The position of the input meter of the applied pipeline.
    pub fn input_loudness_index(&self) -> (r: Option<usize>)
        ensures
            r == match self@.applied {
                Some(a) => Some(a.input_loudness_index),
                None => None,
            },
    {
        match &self.applied {
            Some(applied) => Some(applied.input_loudness_index),
            None => None,
        }
    }

    /// The position of the output meter of the applied pipeline.
    pub fn output_loudness_index(&self) -> (r: Option<usize>)
        ensures
            r == match self@.applied {
                Some(a) => Some(a.output_loudness_index),
                None => None,
            },
    {
        match &self.applied {
            Some(applied) => Some(applied.output_loudness_index),
            None => None,
        }
    }

    /// The generation in which the applied pipeline was applied.
    pub fn applied_generation(&self) -> (r: Option<u64>)
        ensures
            r == match self@.applied {
                Some(a) => Some(a.generation),
                None => None,
            },
    {
        match &self.applied {
            Some(applied) => Some(applied.generation),
            None => None,
        }
    }

    /// The current generation.
    pub fn generation(&self) -> (r: u64)
        ensures
            r == self@.generation,
    {
        self.generation
    }

    /// The output device of the applied pipeline.
    pub fn applied_output_device(&self) -> (r: Option<String>)
        ensures
            opt_text(r) == match self@.applied {
                Some(a) => a.spec.output_device,
                None => None,
            },
    {
        match &self.applied {
            Some(applied) => copy_opt_text(&applied.spec.output_device),
            None => None,
        }
    }

    /// The desired pipeline.
    pub fn desired_spec(&self) -> (r: PipelineSpec)
        ensures
            r@ == self@.desired,
    {
        self.desired.clone()
    }

    /// The applied pipeline.
    pub fn applied_spec(&self) -> (r: Option<PipelineSpec>)
        ensures
            opt_spec(r) == match self@.applied {
                Some(a) => Some(a.spec),
                None => None,
            },
    {
        match &self.applied {
            Some(applied) => Some(applied.spec.clone()),
            None => None,
        }
    }

}

impl PipelineSupervisor {
    /// The plan for a chain of plugins. `configured` is the device that the environment or the
    /// state file names.
    pub fn prepare_plan(
        &self,
        user_plugins: Vec<PluginConfig>,
        input_channels: usize,
        output_channels: usize,
        driver_input_fallback_channels: usize,
        configured: &Option<String>,
    ) -> (r: Result<PipelinePlan, String>)
        ensures
            plan_outcome(r) == chain_plan(
                self@.desired,
                plugin_models(user_plugins@),
                input_channels,
                output_channels,
                driver_input_fallback_channels,
                opt_text(*configured),
            ),
    {
        prepare_chain(
            &self.desired,
            user_plugins,
            input_channels,
            output_channels,
            driver_input_fallback_channels,
            configured,
        )
    }

    /// The plan for a graph.
    pub fn prepare_graph_plan<F: Fn(&PluginGraphConfig) -> Result<(), String>>(
        &self,
        user_graph: PluginGraphConfig,
        input_channels: usize,
        output_channels: usize,
        driver_input_fallback_channels: usize,
        configured: &Option<String>,
        validate: &F,
    ) -> (r: Result<PipelinePlan, String>)
        requires
            accepts_graphs(*validate),
        ensures
            graph_plan_outcome(
                *validate,
                self@.desired,
                user_graph@,
                input_channels,
                output_channels,
                driver_input_fallback_channels,
                opt_text(*configured),
                plan_outcome(r),
            ),
    {
        prepare_graph(
            &self.desired,
            user_graph,
            input_channels,
            output_channels,
            driver_input_fallback_channels,
            configured,
            validate,
        )
    }

    /// The plan for the desired pipeline on another device.
    pub fn prepare_with_selected_device<F: Fn(&PluginGraphConfig) -> Result<(), String>>(
        &self,
        output_device: String,
        configured: &Option<String>,
        validate: &F,
    ) -> (r: Result<PipelinePlan, String>)
        requires
            accepts_graphs(*validate),
        ensures
            spec_plan_outcome(
                *validate,
                (SpecModel { output_device: Some(output_device@), ..self@.desired }),
                self@.desired.input_channels,
                opt_text(*configured),
                plan_outcome(r),
            ),
    {
        let desired = self.desired.clone();
        let next = PipelineSpec {
            output_device: Some(output_device),
            user_plugins: desired.user_plugins,
            user_graph: desired.user_graph,
            input_channels: desired.input_channels,
            output_channels: desired.output_channels,
        };
        prepare_spec(&next, self.desired.input_channels, configured, validate)
    }

    /// The plan for a given spec.
    pub fn prepare_from_spec<F: Fn(&PluginGraphConfig) -> Result<(), String>>(
        &self,
        spec: &PipelineSpec,
        driver_input_fallback_channels: usize,
        configured: &Option<String>,
        validate: &F,
    ) -> (r: Result<PipelinePlan, String>)
        requires
            accepts_graphs(*validate),
        ensures
            spec_plan_outcome(
                *validate,
                spec@,
                driver_input_fallback_channels,
                opt_text(*configured),
                plan_outcome(r),
            ),
    {
        prepare_spec(spec, driver_input_fallback_channels, configured, validate)
    }

    /// Records that a plan runs: it is the desired and the applied pipeline of a new generation.
    pub fn commit_applied(&mut self, plan: &PipelinePlan)
        ensures
            final(self)@ == after_commit(old(self)@, plan@),
    {
        self.generation = self.generation.saturating_add(1);
        self.desired = plan.spec.clone();
        self.applied = Some(
            AppliedPipeline {
                spec: plan.spec.clone(),
                input_loudness_index: plan.input_loudness_index,
                output_loudness_index: plan.output_loudness_index,
                generation: self.generation,
            },
        );
    }

    /// Chooses the output device of the desired pipeline. A virtual device is refused.
    pub fn set_desired_output_device(&mut self, output_device: Option<String>) -> (r: Result<(), String>)
        ensures
            match opt_text(output_device) {
                Some(device) => if is_safe_device(device) {
                    r is Ok
                } else {
                    r matches Err(e) && e@ == virtual_device_text(device)
                },
                None => r is Ok,
            },
            r is Ok ==> final(self)@ == (SupervisorModel {
                desired: SpecModel { output_device: opt_text(output_device), ..old(self)@.desired },
                applied: old(self)@.applied,
                generation: next_generation(old(self)@.generation),
            }),
            r is Err ==> final(self)@ == old(self)@,
    {
        if let Some(device) = &output_device {
            if !is_safe_output_device_name(device.as_str()) {
                return Err(virtual_device_message(device.as_str()));
            }
        }
        self.desired.output_device = output_device;
        self.generation = self.generation.saturating_add(1);
        Ok(())
    }

    /// Records a plan as desired while nothing runs.
    pub fn commit_idle_reconfigure(&mut self, plan: &PipelinePlan)
        ensures
            final(self)@ == (SupervisorModel {
                desired: plan@.spec,
                applied: old(self)@.applied,
                generation: next_generation(old(self)@.generation),
            }),
    {
        self.generation = self.generation.saturating_add(1);
        self.desired = plan.spec.clone();
    }
}

/// The complaint about a virtual device.
pub open spec fn virtual_device_text(device: Seq<char>) -> Seq<char> {
    "'"@ + device
        + "' is a virtual/loopback device and cannot be used as Systemwide speaker output."@
}

/// The complaint about a virtual device.
pub fn virtual_device_message(device: &str) -> (r: String)
    ensures
        r@ == virtual_device_text(device@),
{
    join3(
        "'",
        device,
        "' is a virtual/loopback device and cannot be used as Systemwide speaker output.",
    )
}

impl Default for PipelineSupervisor {
    fn default() -> (r: PipelineSupervisor)
        ensures
            r@ == (SupervisorModel { desired: default_spec(), applied: None, generation: 0 }),
    {
        PipelineSupervisor { desired: PipelineSpec::default(), applied: None, generation: 0 }
    }
}

/// A plan never plays to a virtual device, whatever device is desired or configured.
pub proof fn plans_play_to_safe_devices<F: Fn(&PluginGraphConfig) -> Result<(), String>>(
    validate: F,
    spec: SpecModel,
    fallback: usize,
    configured: Option<Seq<char>>,
    plan: PlanModel,
)
    requires
        spec_plan_outcome(validate, spec, fallback, configured, Ok(plan)),
    ensures
        plan.spec.output_device is Some ==> is_safe_device(plan.spec.output_device->0),
        1 <= plan.spec.input_channels <= MAX_HAL_CHANNELS,
        1 <= plan.spec.output_channels <= MAX_HAL_CHANNELS,
{
}

/// Metering encloses the user chain of every plan: the first and the last runtime plugin are the
/// monitors, at the recorded positions, and the user's plugins stand between them.
pub proof fn plan_meters_enclose_the_chain(
    desired: SpecModel,
    user_plugins: Seq<PluginModel>,
    input_channels: usize,
    output_channels: usize,
    fallback: usize,
    configured: Option<Seq<char>>,
)
    requires
        chain_plan(desired, user_plugins, input_channels, output_channels, fallback, configured) is Ok,
        user_plugins.len() + 2 <= usize::MAX,
    ensures
        ({
            let plan = chain_plan(
                desired,
                user_plugins,
                input_channels,
                output_channels,
                fallback,
                configured,
            )->Ok_0;
            &&& plan.runtime_plugins[plan.input_loudness_index as int]
                == crate::plugins::monitor_plugin()
            &&& plan.runtime_plugins[plan.output_loudness_index as int]
                == crate::plugins::monitor_plugin()
            &&& plan.output_loudness_index == plan.runtime_plugins.len() - 1
            &&& plan.runtime_plugins.subrange(1, plan.output_loudness_index as int)
                == plan.spec.user_plugins
            &&& forall|i: int|
                0 <= i < plan.spec.user_plugins.len() ==> !crate::plugins::is_stripped_type(
                    (#[trigger] plan.spec.user_plugins[i]).plugin_type,
                )
        }),
{
    let plan = chain_plan(
        desired,
        user_plugins,
        input_channels,
        output_channels,
        fallback,
        configured,
    )->Ok_0;
    let keep = |p: PluginModel| !crate::plugins::is_stripped_type(p.plugin_type);
    user_plugins.lemma_filter_len(keep);
    assert(plan.runtime_plugins.subrange(1, plan.output_loudness_index as int)
        =~= plan.spec.user_plugins);
    assert forall|i: int| 0 <= i < plan.spec.user_plugins.len() implies !crate::plugins::is_stripped_type(
        (#[trigger] plan.spec.user_plugins[i]).plugin_type,
    ) by {
        user_plugins.lemma_filter_pred(keep, i);
    }
}

/// A plan plays what it was asked for. It has the requested output channels and the requested input
/// channels, or the driver's where none were requested. It plays to the requested device where that is
/// safe, to the configured one where none was requested, and to no particular one where that is not
/// safe. It runs the requested graph, or of the requested plugins, in their order, those that are the
/// user's own. And a request is refused only for a channel count or by the graph.
pub proof fn plans_play_what_they_were_asked_for<F: Fn(&PluginGraphConfig) -> Result<(), String>>(
    validate: F,
    spec: SpecModel,
    fallback: usize,
    configured: Option<Seq<char>>,
    out: Result<PlanModel, Seq<char>>,
)
    requires
        spec_plan_outcome(validate, spec, fallback, configured, out),
    ensures
        out matches Ok(plan) ==> {
            &&& plan.spec.output_channels == spec.output_channels
            &&& spec.input_channels > 0 ==> plan.spec.input_channels == spec.input_channels
            &&& spec.input_channels == 0 && fallback > 0 ==> plan.spec.input_channels == fallback
            &&& spec.output_device matches Some(device) ==> plan.spec.output_device == if is_safe_device(
                device,
            ) {
                Some(device)
            } else {
                None
            }
            &&& spec.output_device is None && configured is None ==> plan.spec.output_device is None
            &&& spec.output_device is None ==> (configured matches Some(device) ==> plan.spec.output_device
                == if is_safe_device(device) {
                Some(device)
            } else {
                None
            })
            &&& plan.spec.user_graph == spec.user_graph
            &&& plan.runtime_graph is Some <==> spec.user_graph is Some
            &&& spec.user_graph is Some ==> plan.spec.user_plugins.len() == 0
                && plan.runtime_plugins.len() == 0 && plan.input_loudness_index == 0
            &&& spec.user_graph is None ==> plan.spec.user_plugins == spec.user_plugins.filter(
                |p: PluginModel|
                    p.plugin_type != "hal_input"@ && p.plugin_type != "hal_output"@ && p.plugin_type
                        != "loudness_monitor"@,
            )
        },
        spec.user_graph is None && 1 <= spec.input_channels <= 32 && 1 <= spec.output_channels <= 32
            ==> out is Ok,
        spec.input_channels > 32 || spec.output_channels < 1 || spec.output_channels > 32 ==> out is Err,
{
    let mine = |p: PluginModel|
        p.plugin_type != "hal_input"@ && p.plugin_type != "hal_output"@ && p.plugin_type
            != "loudness_monitor"@;
    let theirs = |p: PluginModel| !crate::plugins::is_stripped_type(p.plugin_type);
    assert(mine =~= theirs);
    reveal(Seq::filter);
}

/// A recorded plan is the desired and the applied one, with its meters, and has a generation of its
/// own, which the state then has too.
pub proof fn commits_apply_the_plan(s: SupervisorModel, plan: PlanModel)
    requires
        s.generation < u64::MAX,
    ensures
        ({
            let after = after_commit(s, plan);
            &&& after.desired == plan.spec
            &&& after.applied matches Some(applied) && applied.spec == plan.spec
                && applied.input_loudness_index == plan.input_loudness_index
                && applied.output_loudness_index == plan.output_loudness_index && applied.generation
                == after.generation
            &&& after.generation == s.generation + 1
        }),
{
}

/// Pipelines that count as the same play the same: they have the same device, channels, and plugin
/// types in the same order, or graphs with the same nodes, edges, channels and bypasses. And a
/// pipeline is the same as itself.
pub proof fn same_pipelines_play_the_same(a: SpecModel, b: SpecModel)
    ensures
        same_spec(a, a),
        same_spec(a, b) ==> {
            &&& a.output_device == b.output_device
            &&& a.input_channels == b.input_channels
            &&& a.output_channels == b.output_channels
            &&& a.user_plugins.len() == b.user_plugins.len()
            &&& forall|i: int|
                0 <= i < a.user_plugins.len() ==> (#[trigger] a.user_plugins[i]).plugin_type
                    == b.user_plugins[i].plugin_type && same_json(
                    a.user_plugins[i].parameters,
                    b.user_plugins[i].parameters,
                )
            &&& a.user_graph is Some <==> b.user_graph is Some
            &&& a.user_graph matches Some(g) ==> {
                let h = b.user_graph->0;
                &&& g.edges == h.edges && g.nodes.len() == h.nodes.len()
                &&& forall|i: int|
                    0 <= i < g.nodes.len() ==> (#[trigger] g.nodes[i]).id == h.nodes[i].id
                        && g.nodes[i].plugin_type == h.nodes[i].plugin_type
                        && g.nodes[i].input_channels == h.nodes[i].input_channels
                        && g.nodes[i].bypassed == h.nodes[i].bypassed && same_json(
                        g.nodes[i].parameters,
                        h.nodes[i].parameters,
                    )
            }
        },
{
    assert forall|i: int| 0 <= i < a.user_plugins.len() implies same_json(
        (#[trigger] a.user_plugins[i]).parameters,
        a.user_plugins[i].parameters,
    ) by {
        json_equals_itself(a.user_plugins[i].parameters);
    }
    if a.user_graph is Some {
        let g = a.user_graph->0;
        assert forall|i: int| 0 <= i < g.nodes.len() implies same_node(#[trigger] g.nodes[i], g.nodes[i]) by {
            json_equals_itself(g.nodes[i].parameters);
        }
    }
}

/// Clients see a pipeline as it is: its device, its channels, and the types of its plugins in order.
pub proof fn clients_see_the_pipeline_as_it_is(spec: SpecModel)
    ensures
        ({
            let seen = spec_json(spec);
            &&& json_member(seen, "output_device"@) == Some(
                match spec.output_device {
                    Some(name) => Json::Text(name),
                    None => Json::Null,
                },
            )
            &&& json_member(seen, "input_channels"@) == Some(
                Json::Number(JsonNum::Unsigned(spec.input_channels as u64)),
            )
            &&& json_member(seen, "output_channels"@) == Some(
                Json::Number(JsonNum::Unsigned(spec.output_channels as u64)),
            )
            &&& json_member(seen, "user_plugin_count"@) == Some(
                Json::Number(JsonNum::Unsigned(spec.user_plugins.len() as u64)),
            )
            &&& json_member(seen, "user_plugin_types"@) matches Some(Json::List(types)) && types.len()
                == spec.user_plugins.len() && forall|i: int|
                0 <= i < types.len() ==> #[trigger] types[i] == Json::Text(
                    spec.user_plugins[i].plugin_type,
                )
        }),
{
    reveal_strlit("output_device");
    assert("output_device"@.len() == 13);
    reveal_strlit("input_channels");
    assert("input_channels"@.len() == 14);
    reveal_strlit("output_channels");
    assert("output_channels"@.len() == 15);
    reveal_strlit("user_plugin_count");
    assert("user_plugin_count"@.len() == 17);
    assert("user_plugin_count"@[12] == 'c');
    reveal_strlit("user_plugin_types");
    assert("user_plugin_types"@.len() == 17);
    assert("user_plugin_types"@[12] == 't');
}

/// A plan takes the input channels that are asked for, then those that it falls back to, then the
/// desired ones, and one at least.
pub proof fn input_channels_are_chosen_in_turn(desired: usize, requested: usize, fallback: usize)
    ensures
        ({
            let inputs = plan_input_channels(desired, requested, fallback);
            &&& requested > 0 ==> inputs == requested
            &&& requested == 0 && fallback > 0 ==> inputs == fallback
            &&& requested == 0 && fallback == 0 && desired > 0 ==> inputs == desired
            &&& requested == 0 && fallback == 0 && desired == 0 ==> inputs == 1
        }),
{
}

} // verus!
