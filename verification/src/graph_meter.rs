//! Metering around a plugin graph: one monitor in front of every root, one behind every leaf.

use crate::graph::{
    accepts_graphs, answer_of, edge_sources, edge_targets, has_id, ids_of, node_ids, settle_graph,
    settled_outcome, sources, targets, validates,
};
use crate::json::JsonObject;
use crate::plugins::{
    is_system_plugin_type, is_system_type, monitor_plugin, node_models, GraphModel, NodeModel,
    PluginGraphConfig, PluginGraphEdgeConfig, PluginGraphNodeConfig,
};
use crate::text::{decimal, decimal_text, join2, join3};
use vstd::prelude::*;

verus! {

/// The node that measures loudness, under the id `id`.
pub open spec fn monitor_node(id: usize, channels: usize) -> NodeModel {
    NodeModel {
        id,
        plugin_type: monitor_plugin().plugin_type,
        parameters: monitor_plugin().parameters,
        input_channels: channels,
        bypassed: false,
    }
}

/// The ids, in node order, without an incoming edge.
pub open spec fn roots(g: GraphModel) -> Seq<usize> {
    node_ids(g).filter(|id: usize| !targets(g.edges).contains(id))
}

/// The ids, in node order, without an outgoing edge.
pub open spec fn leaves(g: GraphModel) -> Seq<usize> {
    node_ids(g).filter(|id: usize| !sources(g.edges).contains(id))
}

/// The largest of some ids, or 0 where there is none.
pub open spec fn largest(ids: Seq<usize>) -> usize
    decreases ids.len(),
{
    if ids.len() == 0 {
        0
    } else if ids.last() > largest(ids.drop_last()) {
        ids.last()
    } else {
        largest(ids.drop_last())
    }
}

/// The first position from `from` on whose node has a plugin type of the daemon, or the number of
/// nodes.
pub open spec fn first_system_node(nodes: Seq<NodeModel>, from: int) -> int
    decreases nodes.len() - from,
{
    if from >= nodes.len() || is_system_type(nodes[from].plugin_type) {
        from
    } else {
        first_system_node(nodes, from + 1)
    }
}

/// The edges from `id` to each of `ids`.
pub open spec fn fan_out(id: usize, ids: Seq<usize>) -> Seq<PluginGraphEdgeConfig> {
    ids.map_values(|other: usize| PluginGraphEdgeConfig { from_node: id, to_node: other })
}

/// The edges from each of `ids` to `id`.
pub open spec fn fan_in(ids: Seq<usize>, id: usize) -> Seq<PluginGraphEdgeConfig> {
    ids.map_values(|other: usize| PluginGraphEdgeConfig { from_node: other, to_node: id })
}

/// The graph with a monitor under the id `id` in front and one under `id + 1` behind.
pub open spec fn monitored(g: GraphModel, id: usize, input_channels: usize, output_channels: usize) -> GraphModel {
    GraphModel {
        nodes: seq![monitor_node(id, input_channels)] + g.nodes + seq![
            monitor_node((id + 1) as usize, output_channels),
        ],
        edges: g.edges + fan_out(id, roots(g)) + fan_in(leaves(g), (id + 1) as usize),
    }
}

/// The complaint about a node of a user graph whose type belongs to the daemon.
pub open spec fn system_node_text(lead: Seq<char>, node: NodeModel) -> Seq<char> {
    lead + decimal(node.id as nat) + " uses daemon-owned system plugin type '"@ + node.plugin_type
        + "'"@
}

/// The metered graph, or why there is none.
pub open spec fn monitored_candidate(g: GraphModel, input_channels: usize, output_channels: usize) -> Result<
    GraphModel,
    Seq<char>,
> {
    let system = first_system_node(g.nodes, 0);
    if g.nodes.len() == 0 {
        Err("Plugin graph must contain at least one user node"@)
    } else if system < g.nodes.len() {
        Err(system_node_text("Plugin graph node "@, g.nodes[system]))
    } else if roots(g).len() == 0 || leaves(g).len() == 0 {
        Err("Plugin graph must have at least one input and output path"@)
    } else if largest(node_ids(g)) + 2 > usize::MAX {
        Err("Plugin graph node id space exhausted"@)
    } else {
        Ok(monitored(g, (largest(node_ids(g)) + 1) as usize, input_channels, output_channels))
    }
}

/// What metering a graph may return: the engine validates the graph before and the result after.
pub open spec fn monitored_outcome<F: Fn(&PluginGraphConfig) -> Result<(), String>>(
    validate: F,
    g: GraphModel,
    input_channels: usize,
    output_channels: usize,
    out: Result<GraphModel, Seq<char>>,
) -> bool {
    exists|before: Result<(), Seq<char>>|
        (#[trigger] validates(validate, g, before)) && match before {
            Err(e) => out == Err::<GraphModel, Seq<char>>("Invalid plugin graph: "@ + e),
            Ok(_) => match monitored_candidate(g, input_channels, output_channels) {
                Err(e) => out == Err::<GraphModel, Seq<char>>(e),
                Ok(candidate) => settled_outcome(
                    validate,
                    candidate,
                    "Invalid monitored plugin graph: "@,
                    out,
                ),
            },
        }
}

fn ids_outside(ids: &Vec<usize>, excluded: &Vec<usize>) -> (r: Vec<usize>)
    ensures
        r@ == ids@.filter(|id: usize| !excluded@.contains(id)),
{
    let ghost keep = |id: usize| !excluded@.contains(id);
    let mut out: Vec<usize> = Vec::new();
    let mut i: usize = 0;
    proof {
        reveal(Seq::filter);
        assert(ids@.take(0).filter(keep) =~= out@);
    }
    while i < ids.len()
        invariant
            i <= ids.len(),
            keep == (|id: usize| !excluded@.contains(id)),
            out@ == ids@.take(i as int).filter(keep),
        decreases ids.len() - i,
    {
        proof {
            reveal(Seq::filter);
            assert(ids@.take(i + 1).drop_last() =~= ids@.take(i as int));
        }
        if !has_id(excluded, ids[i]) {
            out.push(ids[i]);
        }
        i = i + 1;
    }
    proof {
        assert(ids@.take(i as int) =~= ids@);
    }
    out
}

fn largest_id(ids: &Vec<usize>) -> (r: usize)
    ensures
        r == largest(ids@),
{
    let mut best: usize = 0;
    let mut i: usize = 0;
    while i < ids.len()
        invariant
            i <= ids.len(),
            best == largest(ids@.take(i as int)),
        decreases ids.len() - i,
    {
        proof {
            assert(ids@.take(i + 1).drop_last() =~= ids@.take(i as int));
        }
        if ids[i] > best {
            best = ids[i];
        }
        i = i + 1;
    }
    proof {
        assert(ids@.take(i as int) =~= ids@);
    }
    best
}

/// The position of the first node whose type belongs to the daemon, or the number of nodes.
pub fn find_system_node(nodes: &Vec<PluginGraphNodeConfig>) -> (r: usize)
    ensures
        r == first_system_node(node_models(nodes@), 0),
        r <= nodes@.len(),
{
    let mut i: usize = 0;
    while i < nodes.len()
        invariant
            i <= nodes.len(),
            first_system_node(node_models(nodes@), 0) == first_system_node(node_models(nodes@), i as int),
        decreases nodes.len() - i,
    {
        if is_system_plugin_type(nodes[i].plugin_type.as_str()) {
            return i;
        }
        i = i + 1;
    }
    i
}

/// The complaint about a node whose type belongs to the daemon.
pub fn system_node_message(lead: &str, node: &PluginGraphNodeConfig) -> (r: String)
    ensures
        r@ == system_node_text(lead@, node@),
{
    let id = decimal_text(node.id as u64);
    let text = join3(lead, id.as_str(), " uses daemon-owned system plugin type '");
    join3(text.as_str(), node.plugin_type.as_str(), "'")
}

fn monitor_config_node(id: usize, channels: usize) -> (r: PluginGraphNodeConfig)
    ensures
        r@ == monitor_node(id, channels),
{
    PluginGraphNodeConfig {
        id,
        plugin_type: "loudness_monitor".to_owned(),
        parameters: JsonObject::new().finish(),
        input_channels: channels,
        bypassed: false,
    }
}

fn push_fan_out(edges: &mut Vec<PluginGraphEdgeConfig>, id: usize, ids: &Vec<usize>)
    ensures
        final(edges)@ == old(edges)@ + fan_out(id, ids@),
{
    let ghost before = edges@;
    let mut i: usize = 0;
    while i < ids.len()
        invariant
            i <= ids.len(),
            edges@ =~= before + fan_out(id, ids@).take(i as int),
        decreases ids.len() - i,
    {
        edges.push(PluginGraphEdgeConfig { from_node: id, to_node: ids[i] });
        i = i + 1;
    }
    proof {
        assert(fan_out(id, ids@).take(i as int) =~= fan_out(id, ids@));
    }
}

fn push_fan_in(edges: &mut Vec<PluginGraphEdgeConfig>, ids: &Vec<usize>, id: usize)
    ensures
        final(edges)@ == old(edges)@ + fan_in(ids@, id),
{
    let ghost before = edges@;
    let mut i: usize = 0;
    while i < ids.len()
        invariant
            i <= ids.len(),
            edges@ =~= before + fan_in(ids@, id).take(i as int),
        decreases ids.len() - i,
    {
        edges.push(PluginGraphEdgeConfig { from_node: ids[i], to_node: id });
        i = i + 1;
    }
    proof {
        assert(fan_in(ids@, id).take(i as int) =~= fan_in(ids@, id));
    }
}

/// The model of a metered graph with its two monitor positions, or of an error.
pub open spec fn metered_outcome(r: Result<(PluginGraphConfig, usize, usize), String>) -> Result<
    GraphModel,
    Seq<char>,
> {
    match r {
        Ok(m) => Ok(m.0@),
        Err(e) => Err(e@),
    }
}

/// Puts the daemon's metering around a user graph. Returns the graph with the positions of the
/// input and the output meter among its nodes.
pub fn build_driver_plugin_graph<F: Fn(&PluginGraphConfig) -> Result<(), String>>(
    graph: PluginGraphConfig,
    input_channels: usize,
    output_channels: usize,
    validate: &F,
) -> (r: Result<(PluginGraphConfig, usize, usize), String>)
    requires
        accepts_graphs(*validate),
    ensures
        monitored_outcome(*validate, graph@, input_channels, output_channels, metered_outcome(r)),
        r matches Ok(m) ==> m.1 == 0 && m.2 == graph@.nodes.len() + 1,
{
    let before = validate(&graph);
    proof {
        assert(call_ensures(*validate, (&graph,), before));
        assert(validates(*validate, graph@, answer_of(before)));
    }
    if let Err(error) = before {
        return Err(join2("Invalid plugin graph: ", error.as_str()));
    }
    if graph.nodes.len() == 0 {
        return Err("Plugin graph must contain at least one user node".to_owned());
    }
    let system = find_system_node(&graph.nodes);
    if system < graph.nodes.len() {
        return Err(system_node_message("Plugin graph node ", &graph.nodes[system]));
    }
    let ids = ids_of(&graph);
    let tos = edge_targets(&graph.edges);
    let froms = edge_sources(&graph.edges);
    let roots_here = ids_outside(&ids, &tos);
    let leaves_here = ids_outside(&ids, &froms);
    proof {
        assert(roots_here@ == roots(graph@));
        assert(leaves_here@ == leaves(graph@));
    }
    if roots_here.len() == 0 || leaves_here.len() == 0 {
        return Err("Plugin graph must have at least one input and output path".to_owned());
    }
    let top: usize = largest_id(&ids);
    if top >= usize::MAX - 1 {
        return Err("Plugin graph node id space exhausted".to_owned());
    }
    let input_id: usize = top + 1;
    let output_id: usize = top + 2;
    let ghost user = graph@;
    let mut nodes = graph.nodes;
    let mut edges = graph.edges;
    nodes.insert(0, monitor_config_node(input_id, input_channels));
    let output_index: usize = nodes.len();
    nodes.push(monitor_config_node(output_id, output_channels));
    push_fan_out(&mut edges, input_id, &roots_here);
    push_fan_in(&mut edges, &leaves_here, output_id);
    let candidate = PluginGraphConfig { nodes, edges };
    proof {
        assert(candidate@.nodes =~= monitored(user, input_id, input_channels, output_channels).nodes);
        assert(candidate@ == monitored(user, input_id, input_channels, output_channels));
    }
    match settle_graph(candidate, "Invalid monitored plugin graph: ", validate) {
        Ok(graph) => Ok((graph, 0, output_index)),
        Err(error) => Err(error),
    }
}

proof fn lemma_largest(ids: Seq<usize>)
    ensures
        forall|k: int| 0 <= k < ids.len() ==> #[trigger] ids[k] <= largest(ids),
    decreases ids.len(),
{
    if ids.len() > 0 {
        lemma_largest(ids.drop_last());
        assert forall|k: int| 0 <= k < ids.len() implies #[trigger] ids[k] <= largest(ids) by {
            if k < ids.len() - 1 {
                assert(ids.drop_last()[k] == ids[k]);
            }
        }
    }
}

/// A metered graph keeps the user's nodes and edges. Its first and last node are monitors under ids
/// of their own, and no node of the user's is a root or a leaf any more.
pub proof fn monitors_enclose_the_graph(g: GraphModel, input_channels: usize, output_channels: usize)
    requires
        monitored_candidate(g, input_channels, output_channels) is Ok,
    ensures
        ({
            let m = monitored_candidate(g, input_channels, output_channels)->Ok_0;
            let first = m.nodes[0].id;
            let last = m.nodes.last().id;
            &&& m.nodes.subrange(1, m.nodes.len() - 1) == g.nodes
            &&& m.edges.take(g.edges.len() as int) == g.edges
            &&& m.nodes[0] == monitor_node(first, input_channels)
            &&& m.nodes.last() == monitor_node(last, output_channels)
            &&& first != last && !node_ids(g).contains(first) && !node_ids(g).contains(last)
            &&& forall|k: int|
                0 < k < m.nodes.len() - 1 ==> targets(m.edges).contains((#[trigger] m.nodes[k]).id)
                    && sources(m.edges).contains(m.nodes[k].id)
        }),
{
    let m = monitored_candidate(g, input_channels, output_channels)->Ok_0;
    let ids = node_ids(g);
    let first = m.nodes[0].id;
    let last = m.nodes.last().id;
    lemma_largest(ids);
    assert(m.nodes.subrange(1, m.nodes.len() - 1) =~= g.nodes);
    assert(m.edges.take(g.edges.len() as int) =~= g.edges);
    let keep_root = |id: usize| !targets(g.edges).contains(id);
    let keep_leaf = |id: usize| !sources(g.edges).contains(id);
    assert forall|k: int| 0 < k < m.nodes.len() - 1 implies targets(m.edges).contains(
        (#[trigger] m.nodes[k]).id,
    ) && sources(m.edges).contains(m.nodes[k].id) by {
        let id = m.nodes[k].id;
        assert(m.nodes[k] == g.nodes[k - 1]);
        assert(ids[k - 1] == id);
        if targets(g.edges).contains(id) {
            let j = choose|j: int| 0 <= j < g.edges.len() && targets(g.edges)[j] == id;
            assert(targets(m.edges)[j] == id);
        } else {
            ids.lemma_filter_contains(keep_root, k - 1);
            assert(roots(g).contains(id));
            let j = choose|j: int| 0 <= j < roots(g).len() && roots(g)[j] == id;
            assert(targets(m.edges)[g.edges.len() + j] == id);
        }
        if sources(g.edges).contains(id) {
            let j = choose|j: int| 0 <= j < g.edges.len() && sources(g.edges)[j] == id;
            assert(sources(m.edges)[j] == id);
        } else {
            ids.lemma_filter_contains(keep_leaf, k - 1);
            assert(leaves(g).contains(id));
            let j = choose|j: int| 0 <= j < leaves(g).len() && leaves(g)[j] == id;
            assert(sources(m.edges)[g.edges.len() + roots(g).len() + j] == id);
        }
    }
}

/// A monitored graph has a monitor before everything that starts it and one behind everything that ends
/// it, with the channels of their side, and is otherwise the graph that it was.
pub proof fn monitored_graphs_keep_the_graph(g: GraphModel, input_channels: usize, output_channels: usize, i: int)
    ensures
        monitored_candidate(g, input_channels, output_channels) matches Ok(m) ==> {
            let head = m.nodes[0];
            let tail = m.nodes.last();
            &&& m.nodes.len() == g.nodes.len() + 2
            &&& head.plugin_type == "loudness_monitor"@ && tail.plugin_type == "loudness_monitor"@
            &&& head.input_channels == input_channels && tail.input_channels == output_channels
            &&& !head.bypassed && !tail.bypassed
            &&& 0 <= i < g.nodes.len() ==> m.nodes[i + 1] == g.nodes[i]
            &&& 0 <= i < g.nodes.len() ==> head.id > g.nodes[i].id && tail.id > g.nodes[i].id
            &&& tail.id == head.id + 1
            &&& 0 <= i < g.edges.len() ==> m.edges[i] == g.edges[i]
            &&& g.edges.len() <= i < m.edges.len() ==> m.edges[i].from_node == head.id
                || m.edges[i].to_node == tail.id
            &&& 0 <= i < g.nodes.len() && !targets(g.edges).contains(g.nodes[i].id) ==> m.edges.contains(
                PluginGraphEdgeConfig { from_node: head.id, to_node: g.nodes[i].id },
            )
            &&& 0 <= i < g.nodes.len() && !sources(g.edges).contains(g.nodes[i].id) ==> m.edges.contains(
                PluginGraphEdgeConfig { from_node: g.nodes[i].id, to_node: tail.id },
            )
        },
{
    if monitored_candidate(g, input_channels, output_channels) is Ok {
        let id = (largest(node_ids(g)) + 1) as usize;
        let out = fan_out(id, roots(g));
        let back = fan_in(leaves(g), (id + 1) as usize);
        let m = monitored(g, id, input_channels, output_channels);
        if 0 <= i < g.nodes.len() {
            let own = g.nodes[i].id;
            assert(node_ids(g)[i] == own);
            lemma_largest_bounds(node_ids(g), i);
            broadcast use vstd::seq_lib::group_filter_ensures;
            if !targets(g.edges).contains(own) {
                assert(roots(g).contains(own));
                let j = choose|j: int| 0 <= j < roots(g).len() && roots(g)[j] == own;
                assert(out[j] == PluginGraphEdgeConfig { from_node: id, to_node: own });
                assert(m.edges[g.edges.len() + j] == out[j]);
            }
            if !sources(g.edges).contains(own) {
                assert(leaves(g).contains(own));
                let j = choose|j: int| 0 <= j < leaves(g).len() && leaves(g)[j] == own;
                assert(back[j] == PluginGraphEdgeConfig { from_node: own, to_node: (id + 1) as usize });
                assert(m.edges[g.edges.len() + out.len() + j] == back[j]);
            }
        }
    }
}

proof fn lemma_largest_bounds(ids: Seq<usize>, i: int)
    requires
        0 <= i < ids.len(),
    ensures
        ids[i] <= largest(ids),
    decreases ids.len(),
{
    if i < ids.len() - 1 {
        lemma_largest_bounds(ids.drop_last(), i);
    }
}

/// A graph cannot be monitored exactly where it has no node, holds a node of the system, has no start or
/// no end, or leaves no ids.
pub proof fn graphs_without_ends_are_refused(g: GraphModel, input_channels: usize, output_channels: usize)
    ensures
        ({
            let out = monitored_candidate(g, input_channels, output_channels);
            &&& g.nodes.len() == 0 ==> out == Err::<GraphModel, Seq<char>>(
                "Plugin graph must contain at least one user node"@,
            )
            &&& out is Ok ==> forall|i: int|
                0 <= i < g.nodes.len() ==> (#[trigger] g.nodes[i]).plugin_type != "hal_input"@
                    && g.nodes[i].plugin_type != "hal_output"@ && g.nodes[i].plugin_type
                    != "loudness_monitor"@ && g.nodes[i].plugin_type != "spectrum_analyzer"@
            &&& out is Ok ==> roots(g).len() > 0 && leaves(g).len() > 0
        }),
{
    lemma_no_system_before(g.nodes, 0);
}

proof fn lemma_no_system_before(nodes: Seq<NodeModel>, from: int)
    requires
        0 <= from <= nodes.len(),
    ensures
        from <= first_system_node(nodes, from) <= nodes.len(),
        forall|i: int|
            from <= i < first_system_node(nodes, from) ==> !is_system_type(
                (#[trigger] nodes[i]).plugin_type,
            ),
    decreases nodes.len() - from,
{
    if from < nodes.len() && !is_system_type(nodes[from].plugin_type) {
        lemma_no_system_before(nodes, from + 1);
    }
}

/// A graph is monitored only where the engine accepts it with and without its monitors, and is then the
/// graph between its monitors.
pub proof fn accepted_graphs_are_monitored<F: Fn(&PluginGraphConfig) -> Result<(), String>>(
    validate: F,
    g: GraphModel,
    input_channels: usize,
    output_channels: usize,
    out: Result<GraphModel, Seq<char>>,
)
    requires
        monitored_outcome(validate, g, input_channels, output_channels, out),
    ensures
        out matches Ok(after) ==> {
            &&& monitored_candidate(g, input_channels, output_channels) == Ok::<GraphModel, Seq<char>>(
                after,
            )
            &&& validates(validate, g, Ok(()))
            &&& validates(validate, after, Ok(()))
        },
{
}

} // verus!
