//! Plugin chains and plugin graphs, and the metering that the daemon puts around them.

use crate::json::{Json, JsonObject, JsonValue};
use crate::text::same_text;
use vstd::prelude::*;

verus! {

/// One plugin of a chain.
#[derive(Debug)]
pub struct PluginConfig {
    pub plugin_type: String,
    pub parameters: JsonValue,
}

/// What a `PluginConfig` stands for.
#[verifier::ext_equal]
pub struct PluginModel {
    pub plugin_type: Seq<char>,
    pub parameters: Json,
}

/// One node of a plugin graph.
#[derive(Debug)]
pub struct PluginGraphNodeConfig {
    pub id: usize,
    pub plugin_type: String,
    pub parameters: JsonValue,
    pub input_channels: usize,
    pub bypassed: bool,
}

/// What a `PluginGraphNodeConfig` stands for.
#[verifier::ext_equal]
pub struct NodeModel {
    pub id: usize,
    pub plugin_type: Seq<char>,
    pub parameters: Json,
    pub input_channels: usize,
    pub bypassed: bool,
}

/// A connection from one node to another, by node id.
#[derive(Clone, Copy, Debug, PartialEq, Eq, Structural)]
pub struct PluginGraphEdgeConfig {
    pub from_node: usize,
    pub to_node: usize,
}

/// A plugin graph: nodes and the connections between them.
#[derive(Debug)]
pub struct PluginGraphConfig {
    pub nodes: Vec<PluginGraphNodeConfig>,
    pub edges: Vec<PluginGraphEdgeConfig>,
}

/// What a `PluginGraphConfig` stands for.
#[verifier::ext_equal]
pub struct GraphModel {
    pub nodes: Seq<NodeModel>,
    pub edges: Seq<PluginGraphEdgeConfig>,
}

impl View for PluginConfig {
    type V = PluginModel;

    open spec fn view(&self) -> PluginModel {
        PluginModel { plugin_type: self.plugin_type@, parameters: self.parameters@ }
    }
}

impl View for PluginGraphNodeConfig {
    type V = NodeModel;

    open spec fn view(&self) -> NodeModel {
        NodeModel {
            id: self.id,
            plugin_type: self.plugin_type@,
            parameters: self.parameters@,
            input_channels: self.input_channels,
            bypassed: self.bypassed,
        }
    }
}

impl PluginConfig {
    /// A plugin with its parameters.
    pub fn new(plugin_type: &str, parameters: JsonValue) -> (r: PluginConfig)
        ensures
            r@ == (PluginModel { plugin_type: plugin_type@, parameters: parameters@ }),
    {
        PluginConfig { plugin_type: plugin_type.to_owned(), parameters }
    }
}

impl PluginGraphEdgeConfig {
    /// A connection from one node to another.
    pub fn new(from_node: usize, to_node: usize) -> (r: PluginGraphEdgeConfig)
        ensures
            r == (PluginGraphEdgeConfig { from_node, to_node }),
    {
        PluginGraphEdgeConfig { from_node, to_node }
    }
}

/// What a sequence of plugins stands for.
pub open spec fn plugin_models(plugins: Seq<PluginConfig>) -> Seq<PluginModel> {
    plugins.map_values(|p: PluginConfig| p@)
}

/// What a sequence of nodes stands for.
pub open spec fn node_models(nodes: Seq<PluginGraphNodeConfig>) -> Seq<NodeModel> {
    nodes.map_values(|n: PluginGraphNodeConfig| n@)
}

impl View for PluginGraphConfig {
    type V = GraphModel;

    open spec fn view(&self) -> GraphModel {
        GraphModel { nodes: node_models(self.nodes@), edges: self.edges@ }
    }
}

/// The model of an optional graph.
pub open spec fn opt_graph(graph: Option<PluginGraphConfig>) -> Option<GraphModel> {
    match graph {
        Some(g) => Some(g@),
        None => None,
    }
}

impl Clone for PluginConfig {
    fn clone(&self) -> (r: PluginConfig)
        ensures
            r@ == self@,
    {
        PluginConfig { plugin_type: self.plugin_type.clone(), parameters: self.parameters.clone() }
    }
}

impl Clone for PluginGraphNodeConfig {
    fn clone(&self) -> (r: PluginGraphNodeConfig)
        ensures
            r@ == self@,
    {
        PluginGraphNodeConfig {
            id: self.id,
            plugin_type: self.plugin_type.clone(),
            parameters: self.parameters.clone(),
            input_channels: self.input_channels,
            bypassed: self.bypassed,
        }
    }
}

/// A copy of a plugin chain.
pub fn copy_plugins(plugins: &Vec<PluginConfig>) -> (r: Vec<PluginConfig>)
    ensures
        plugin_models(r@) == plugin_models(plugins@),
{
    let mut out: Vec<PluginConfig> = Vec::new();
    let mut i: usize = 0;
    while i < plugins.len()
        invariant
            i <= plugins.len(),
            out.len() == i,
            forall|k: int| 0 <= k < i ==> (#[trigger] out@[k])@ == plugins@[k]@,
        decreases plugins.len() - i,
    {
        out.push(plugins[i].clone());
        i = i + 1;
    }
    proof {
        assert(plugin_models(out@) =~= plugin_models(plugins@));
    }
    out
}

impl Clone for PluginGraphConfig {
    fn clone(&self) -> (r: PluginGraphConfig)
        ensures
            r@ == self@,
    {
        let mut nodes: Vec<PluginGraphNodeConfig> = Vec::new();
        let mut i: usize = 0;
        while i < self.nodes.len()
            invariant
                i <= self.nodes.len(),
                nodes.len() == i,
                forall|k: int| 0 <= k < i ==> (#[trigger] nodes@[k])@ == self.nodes@[k]@,
            decreases self.nodes.len() - i,
        {
            nodes.push(self.nodes[i].clone());
            i = i + 1;
        }
        let mut edges: Vec<PluginGraphEdgeConfig> = Vec::new();
        let mut j: usize = 0;
        while j < self.edges.len()
            invariant
                j <= self.edges.len(),
                edges.len() == j,
                forall|k: int| 0 <= k < j ==> #[trigger] edges@[k] == self.edges@[k],
            decreases self.edges.len() - j,
        {
            edges.push(self.edges[j]);
            j = j + 1;
        }
        proof {
            assert(node_models(nodes@) =~= node_models(self.nodes@));
            assert(edges@ =~= self.edges@);
        }
        PluginGraphConfig { nodes, edges }
    }
}

/// The plugin that measures loudness for the daemon.
pub open spec fn monitor_plugin() -> PluginModel {
    PluginModel {
        plugin_type: "loudness_monitor"@,
        parameters: Json::Object(Map::<Seq<char>, Json>::empty()),
    }
}

/// Plugin types that a user chain never keeps: the driver moves the samples, and the daemon puts
/// its own metering around the chain.
pub open spec fn is_stripped_type(plugin_type: Seq<char>) -> bool {
    plugin_type == "hal_input"@ || plugin_type == "hal_output"@ || plugin_type
        == "loudness_monitor"@
}

/// Plugin types that belong to the daemon and may not stand in a user graph.
pub open spec fn is_system_type(plugin_type: Seq<char>) -> bool {
    plugin_type == "hal_input"@ || plugin_type == "hal_output"@ || plugin_type
        == "loudness_monitor"@ || plugin_type == "spectrum_analyzer"@
}

/// The user plugins that stay in a chain, in their order.
pub open spec fn kept_plugins(plugins: Seq<PluginModel>) -> Seq<PluginModel> {
    plugins.filter(|p: PluginModel| !is_stripped_type(p.plugin_type))
}

/// Whether a plugin type belongs to the daemon.
pub fn is_system_plugin_type(plugin_type: &str) -> (r: bool)
    ensures
        r == is_system_type(plugin_type@),
{
    same_text(plugin_type, "hal_input") || same_text(plugin_type, "hal_output") || same_text(
        plugin_type,
        "loudness_monitor",
    ) || same_text(plugin_type, "spectrum_analyzer")
}

/// Removes from a user chain what the daemon supplies itself.
pub fn sanitize_user_plugins(plugins: Vec<PluginConfig>) -> (r: Vec<PluginConfig>)
    ensures
        plugin_models(r@) == kept_plugins(plugin_models(plugins@)),
{
    let ghost models = plugin_models(plugins@);
    let ghost keep = |p: PluginModel| !is_stripped_type(p.plugin_type);
    let mut out: Vec<PluginConfig> = Vec::new();
    let mut i: usize = 0;
    proof {
        assert(models.take(0) =~= Seq::<PluginModel>::empty());
        reveal(Seq::filter);
        assert(plugin_models(out@) =~= models.take(0).filter(keep));
    }
    while i < plugins.len()
        invariant
            i <= plugins.len(),
            models == plugin_models(plugins@),
            keep == (|p: PluginModel| !is_stripped_type(p.plugin_type)),
            plugin_models(out@) == models.take(i as int).filter(keep),
        decreases plugins.len() - i,
    {
        let kind = plugins[i].plugin_type.as_str();
        let strip = same_text(kind, "hal_input") || same_text(kind, "hal_output") || same_text(
            kind,
            "loudness_monitor",
        );
        let ghost before = out@;
        proof {
            reveal(Seq::filter);
            assert(models.take(i + 1).drop_last() =~= models.take(i as int));
            assert(models.take(i + 1).last() == models[i as int]);
        }
        if !strip {
            out.push(plugins[i].clone());
            proof {
                assert(plugin_models(out@) =~= plugin_models(before).push(models[i as int]));
            }
        }
        i = i + 1;
    }
    proof {
        assert(models.take(i as int) =~= models);
    }
    out
}

fn monitor_config() -> (r: PluginConfig)
    ensures
        r@ == monitor_plugin(),
{
    PluginConfig {
        plugin_type: "loudness_monitor".to_owned(),
        parameters: JsonObject::new().finish(),
    }
}

/// The chain with metering in front and at the end.
pub open spec fn metered_chain(plugins: Seq<PluginModel>) -> Seq<PluginModel> {
    seq![monitor_plugin()] + plugins + seq![monitor_plugin()]
}

/// Puts the daemon's metering around a user chain. Returns the chain with the positions of the
/// input and the output meter.
pub fn build_driver_plugin_chain(plugins: Vec<PluginConfig>) -> (r: (Vec<PluginConfig>, usize, usize))
    ensures
        plugin_models(r.0@) == metered_chain(plugin_models(plugins@)),
        r.1 == 0,
        r.2 == plugins@.len() + 1,
{
    let ghost whole = plugins@;
    let mut user = plugins;
    let mut chain: Vec<PluginConfig> = Vec::new();
    chain.push(monitor_config());
    chain.append(&mut user);
    let output_monitor_index: usize = chain.len();
    chain.push(monitor_config());
    proof {
        assert(plugin_models(chain@) =~= metered_chain(plugin_models(whole)));
    }
    (chain, 0, output_monitor_index)
}

/// A chain is metered at both ends, and what is between stays as it is.
pub proof fn chains_are_metered_at_both_ends(plugins: Seq<PluginModel>, i: int)
    ensures
        ({
            let chain = metered_chain(plugins);
            &&& chain.len() == plugins.len() + 2
            &&& chain[0].plugin_type == "loudness_monitor"@ && chain.last().plugin_type
                == "loudness_monitor"@
            &&& chain[0].parameters is Object && chain[0].parameters->Object_0.dom().is_empty()
            &&& chain.last().parameters is Object && chain.last().parameters->Object_0.dom().is_empty()
            &&& 0 <= i < plugins.len() ==> chain[i + 1] == plugins[i]
        }),
{
}

/// What a user may not bring is taken out of a chain, and everything else stays in its order.
pub proof fn user_chains_lose_only_system_plugins(plugins: Seq<PluginModel>, last: PluginModel)
    ensures
        kept_plugins(Seq::empty()) == Seq::<PluginModel>::empty(),
        ({
            let system = last.plugin_type == "hal_input"@ || last.plugin_type == "hal_output"@
                || last.plugin_type == "loudness_monitor"@;
            &&& system ==> kept_plugins(plugins.push(last)) == kept_plugins(plugins)
            &&& !system ==> kept_plugins(plugins.push(last)) == kept_plugins(plugins).push(last)
        }),
        is_system_type(last.plugin_type) <==> last.plugin_type == "hal_input"@ || last.plugin_type
            == "hal_output"@ || last.plugin_type == "loudness_monitor"@ || last.plugin_type
            == "spectrum_analyzer"@,
{
    reveal(Seq::filter);
    assert(plugins.push(last).drop_last() =~= plugins);
}

/// The meters of a chain stand at its first and at its last place.
pub proof fn meters_stand_at_the_ends(plugins: Vec<PluginConfig>, built: (Vec<PluginConfig>, usize, usize))
    requires
        call_ensures(build_driver_plugin_chain, (plugins,), built),
    ensures
        built.0@.len() == plugins@.len() + 2,
        built.1 == 0 && built.2 == built.0@.len() - 1,
        plugin_models(built.0@)[built.1 as int].plugin_type == "loudness_monitor"@,
        plugin_models(built.0@)[built.2 as int].plugin_type == "loudness_monitor"@,
{
    chains_are_metered_at_both_ends(plugin_models(plugins@), 0);
    assert(plugin_models(built.0@).len() == metered_chain(plugin_models(plugins@)).len());
}

} // verus!
