//! Linear plugin graphs: recognising them, reordering them, and metering graphs of any shape.

use crate::plugins::{
    plugin_models, GraphModel, NodeModel, PluginConfig, PluginGraphConfig, PluginGraphEdgeConfig,
    PluginGraphNodeConfig, PluginModel,
};
use crate::text::{decimal, decimal_text, join2, join3};
use vstd::prelude::*;

verus! {

/// The node ids in the order in which the nodes stand.
pub open spec fn node_ids(g: GraphModel) -> Seq<usize> {
    g.nodes.map_values(|n: NodeModel| n.id)
}

/// The edges that lead along `order`, one from each id to the next.
pub open spec fn chain_edges(order: Seq<usize>) -> Seq<PluginGraphEdgeConfig> {
    Seq::new(
        if order.len() == 0 { 0 } else { (order.len() - 1) as nat },
        |i: int| PluginGraphEdgeConfig { from_node: order[i], to_node: order[i + 1] },
    )
}

/// Whether the graph is exactly the chain of its nodes in the order `order`: every node stands in
/// `order` once, and the edges are those from each node to the next, each once.
pub open spec fn is_chain_order(g: GraphModel, order: Seq<usize>) -> bool {
    &&& order.no_duplicates()
    &&& node_ids(g).no_duplicates()
    &&& node_ids(g).to_set() == order.to_set()
    &&& g.edges.no_duplicates()
    &&& g.edges.to_set() == chain_edges(order).to_set()
}

/// Whether the graph is one linear chain.
pub open spec fn is_linear_graph(g: GraphModel) -> bool {
    exists|order: Seq<usize>| is_chain_order(g, order)
}

pub(crate) fn has_id(ids: &Vec<usize>, id: usize) -> (r: bool)
    ensures
        r == ids@.contains(id),
{
    let mut i: usize = 0;
    while i < ids.len()
        invariant
            i <= ids.len(),
            forall|k: int| 0 <= k < i ==> ids@[k] != id,
        decreases ids.len() - i,
    {
        if ids[i] == id {
            return true;
        }
        i = i + 1;
    }
    false
}

fn all_distinct(ids: &Vec<usize>) -> (r: bool)
    ensures
        r == ids@.no_duplicates(),
{
    let mut seen: Vec<usize> = Vec::new();
    let mut i: usize = 0;
    while i < ids.len()
        invariant
            i <= ids.len(),
            seen@ =~= ids@.take(i as int),
            ids@.take(i as int).no_duplicates(),
        decreases ids.len() - i,
    {
        if has_id(&seen, ids[i]) {
            proof {
                let j = choose|j: int| 0 <= j < seen@.len() && seen@[j] == ids@[i as int];
                assert(ids@[j] == ids@[i as int]);
            }
            return false;
        }
        proof {
            let grown = ids@.take(i + 1);
            assert forall|p: int, q: int|
                0 <= p < i + 1 && 0 <= q < i + 1 && p != q implies #[trigger] grown[p]
                != #[trigger] grown[q] by {
                if p == i {
                    assert(seen@[q] == ids@[q]);
                    assert(seen@.contains(ids@[q]));
                } else if q == i {
                    assert(seen@[p] == ids@[p]);
                    assert(seen@.contains(ids@[p]));
                } else {
                    assert(ids@.take(i as int)[p] != ids@.take(i as int)[q]);
                }
            }
        }
        seen.push(ids[i]);
        i = i + 1;
    }
    proof {
        assert(ids@.take(i as int) =~= ids@);
    }
    true
}

/// The sources of the edges, in order.
pub open spec fn sources(edges: Seq<PluginGraphEdgeConfig>) -> Seq<usize> {
    edges.map_values(|e: PluginGraphEdgeConfig| e.from_node)
}

/// The targets of the edges, in order.
pub open spec fn targets(edges: Seq<PluginGraphEdgeConfig>) -> Seq<usize> {
    edges.map_values(|e: PluginGraphEdgeConfig| e.to_node)
}

pub(crate) fn edge_sources(edges: &Vec<PluginGraphEdgeConfig>) -> (r: Vec<usize>)
    ensures
        r@ == sources(edges@),
{
    let mut out: Vec<usize> = Vec::new();
    let mut i: usize = 0;
    while i < edges.len()
        invariant
            i <= edges.len(),
            out.len() == i,
            forall|k: int| 0 <= k < i ==> out@[k] == edges@[k].from_node,
        decreases edges.len() - i,
    {
        out.push(edges[i].from_node);
        i = i + 1;
    }
    proof {
        assert(out@ =~= sources(edges@));
    }
    out
}

pub(crate) fn edge_targets(edges: &Vec<PluginGraphEdgeConfig>) -> (r: Vec<usize>)
    ensures
        r@ == targets(edges@),
{
    let mut out: Vec<usize> = Vec::new();
    let mut i: usize = 0;
    while i < edges.len()
        invariant
            i <= edges.len(),
            out.len() == i,
            forall|k: int| 0 <= k < i ==> out@[k] == edges@[k].to_node,
        decreases edges.len() - i,
    {
        out.push(edges[i].to_node);
        i = i + 1;
    }
    proof {
        assert(out@ =~= targets(edges@));
    }
    out
}

pub(crate) fn ids_of(graph: &PluginGraphConfig) -> (r: Vec<usize>)
    ensures
        r@ == node_ids(graph@),
{
    let mut out: Vec<usize> = Vec::new();
    let mut i: usize = 0;
    while i < graph.nodes.len()
        invariant
            i <= graph.nodes.len(),
            out.len() == i,
            forall|k: int| 0 <= k < i ==> out@[k] == graph.nodes@[k].id,
        decreases graph.nodes.len() - i,
    {
        out.push(graph.nodes[i].id);
        i = i + 1;
    }
    proof {
        assert(out@ =~= node_ids(graph@));
    }
    out
}

proof fn lemma_chain_edges_distinct(order: Seq<usize>)
    requires
        order.no_duplicates(),
    ensures
        chain_edges(order).no_duplicates(),
{
    let c = chain_edges(order);
    assert forall|i: int, j: int| 0 <= i < c.len() && 0 <= j < c.len() && i != j implies c[i]
        != c[j] by {
        assert(order[i] != order[j]);
    }
}

proof fn lemma_chain_facts(g: GraphModel, order: Seq<usize>)
    requires
        is_chain_order(g, order),
    ensures
        order.len() == g.nodes.len(),
        g.edges.len() == chain_edges(order).len(),
        forall|i: int| 0 <= i < chain_edges(order).len() ==> g.edges.contains(#[trigger] chain_edges(order)[i]),
        forall|k: int| 0 <= k < g.edges.len() ==> chain_edges(order).contains(#[trigger] g.edges[k]),
        forall|k: int| 0 <= k < g.nodes.len() ==> order.contains(#[trigger] node_ids(g)[k]),
        forall|i: int| 0 <= i < order.len() ==> node_ids(g).contains(#[trigger] order[i]),
{
    let ids = node_ids(g);
    let c = chain_edges(order);
    lemma_chain_edges_distinct(order);
    ids.unique_seq_to_set();
    order.unique_seq_to_set();
    g.edges.unique_seq_to_set();
    c.unique_seq_to_set();
    assert forall|i: int| 0 <= i < c.len() implies g.edges.contains(#[trigger] c[i]) by {
        assert(c.to_set().contains(c[i]));
        assert(g.edges.to_set().contains(c[i]));
    }
    assert forall|k: int| 0 <= k < g.edges.len() implies c.contains(#[trigger] g.edges[k]) by {
        assert(g.edges.to_set().contains(g.edges[k]));
        assert(c.to_set().contains(g.edges[k]));
    }
    assert forall|k: int| 0 <= k < g.nodes.len() implies order.contains(#[trigger] ids[k]) by {
        assert(ids.to_set().contains(ids[k]));
        assert(order.to_set().contains(ids[k]));
    }
    assert forall|i: int| 0 <= i < order.len() implies ids.contains(#[trigger] order[i]) by {
        assert(order.to_set().contains(order[i]));
        assert(ids.to_set().contains(order[i]));
    }
}

/// A graph is the chain of at most one order.
pub proof fn chain_order_is_unique(g: GraphModel, a: Seq<usize>, b: Seq<usize>)
    requires
        is_chain_order(g, a),
        is_chain_order(g, b),
    ensures
        a == b,
{
    lemma_chain_facts(g, a);
    lemma_chain_facts(g, b);
    assert forall|i: int| 0 <= i < a.len() implies a[i] == b[i] by {
        lemma_same_prefix(g, a, b, i);
    }
    assert(a =~= b);
}

proof fn lemma_same_prefix(g: GraphModel, a: Seq<usize>, b: Seq<usize>, i: int)
    requires
        is_chain_order(g, a),
        is_chain_order(g, b),
        0 <= i < a.len(),
    ensures
        i < b.len(),
        a[i] == b[i],
    decreases i,
{
    lemma_chain_facts(g, a);
    lemma_chain_facts(g, b);
    let ca = chain_edges(a);
    let cb = chain_edges(b);
    if i == 0 {
        let k = choose|k: int| 0 <= k < node_ids(g).len() && node_ids(g)[k] == a[0];
        assert(b.contains(a[0]));
        let j = choose|j: int| 0 <= j < b.len() && b[j] == a[0];
        if j > 0 {
            assert(cb[j - 1].to_node == a[0]);
            assert(g.edges.contains(cb[j - 1]));
            let m = choose|m: int| 0 <= m < g.edges.len() && g.edges[m] == cb[j - 1];
            assert(ca.contains(g.edges[m]));
            let p = choose|p: int| 0 <= p < ca.len() && ca[p] == g.edges[m];
            assert(a[p + 1] == a[0]);
        }
    } else {
        lemma_same_prefix(g, a, b, i - 1);
        assert(g.edges.contains(ca[i - 1]));
        let m = choose|m: int| 0 <= m < g.edges.len() && g.edges[m] == ca[i - 1];
        assert(cb.contains(g.edges[m]));
        let p = choose|p: int| 0 <= p < cb.len() && cb[p] == g.edges[m];
        assert(b[p] == b[i - 1]);
    }
}

/// Whether `id` has no incoming edge.
pub open spec fn is_root(edges: Seq<PluginGraphEdgeConfig>, id: usize) -> bool {
    !targets(edges).contains(id)
}

proof fn lemma_chain_shape(g: GraphModel, order: Seq<usize>)
    requires
        is_chain_order(g, order),
    ensures
        sources(g.edges).no_duplicates(),
        forall|k: int| 0 <= k < g.edges.len() ==> node_ids(g).contains((#[trigger] g.edges[k]).from_node)
            && node_ids(g).contains(g.edges[k].to_node),
        order.len() > 0 ==> is_root(g.edges, order[0]),
        forall|i: int| 0 < i < order.len() ==> !is_root(g.edges, #[trigger] order[i]),
{
    lemma_chain_facts(g, order);
    let c = chain_edges(order);
    assert forall|k: int| 0 <= k < g.edges.len() implies node_ids(g).contains(
        (#[trigger] g.edges[k]).from_node,
    ) && node_ids(g).contains(g.edges[k].to_node) by {
        assert(c.contains(g.edges[k]));
        let p = choose|p: int| 0 <= p < c.len() && c[p] == g.edges[k];
        assert(node_ids(g).contains(order[p]));
        assert(node_ids(g).contains(order[p + 1]));
    }
    let s = sources(g.edges);
    assert forall|i: int, j: int| 0 <= i < s.len() && 0 <= j < s.len() && i != j implies s[i] != s[j] by {
        assert(c.contains(g.edges[i]) && c.contains(g.edges[j]));
        let p = choose|p: int| 0 <= p < c.len() && c[p] == g.edges[i];
        let q = choose|q: int| 0 <= q < c.len() && c[q] == g.edges[j];
        if s[i] == s[j] {
            assert(order[p] == order[q]);
            assert(g.edges[i] == g.edges[j]);
        }
    }
    if order.len() > 0 && targets(g.edges).contains(order[0]) {
        let k = choose|k: int| 0 <= k < g.edges.len() && targets(g.edges)[k] == order[0];
        assert(c.contains(g.edges[k]));
        let p = choose|p: int| 0 <= p < c.len() && c[p] == g.edges[k];
        assert(order[p + 1] == order[0]);
    }
    assert forall|i: int| 0 < i < order.len() implies !is_root(g.edges, #[trigger] order[i]) by {
        assert(g.edges.contains(c[i - 1]));
        let k = choose|k: int| 0 <= k < g.edges.len() && g.edges[k] == c[i - 1];
        assert(targets(g.edges)[k] == order[i]);
    }
}

proof fn lemma_targets_distinct(ids: Seq<usize>, targets: Seq<usize>, root: usize)
    requires
        ids.no_duplicates(),
        ids.contains(root),
        targets.len() + 1 == ids.len(),
        forall|k: int| 0 <= k < ids.len() && ids[k] != root ==> targets.contains(#[trigger] ids[k]),
    ensures
        targets.no_duplicates(),
{
    let rest = ids.to_set().remove(root);
    ids.unique_seq_to_set();
    assert(ids.to_set().contains(root));
    assert(rest.len() == targets.len());
    assert forall|x: usize| rest.contains(x) implies #[trigger] targets.to_set().contains(x) by {
        assert(ids.contains(x));
        let k = choose|k: int| 0 <= k < ids.len() && ids[k] == x;
        assert(targets.contains(ids[k]));
    }
    targets.lemma_cardinality_of_set();
    vstd::set_lib::lemma_len_subset(rest, targets.to_set());
    targets.lemma_no_dup_set_cardinality();
}

proof fn lemma_ids_bound(part: Seq<usize>, ids: Seq<usize>)
    requires
        part.no_duplicates(),
        forall|k: int| 0 <= k < part.len() ==> ids.contains(#[trigger] part[k]),
    ensures
        part.len() <= ids.len(),
{
    part.unique_seq_to_set();
    ids.lemma_cardinality_of_set();
    assert forall|x: usize| part.to_set().contains(x) implies #[trigger] ids.to_set().contains(x) by {
        let k = choose|k: int| 0 <= k < part.len() && part[k] == x;
        assert(ids.contains(part[k]));
    }
    vstd::set_lib::lemma_len_subset(part.to_set(), ids.to_set());
}

/// Whether `order` is a walk along edges that starts at `root` and meets no node twice.
pub open spec fn is_walk(g: GraphModel, root: usize, order: Seq<usize>) -> bool {
    &&& order.len() > 0
    &&& order[0] == root
    &&& order.no_duplicates()
    &&& forall|k: int| 0 <= k < order.len() ==> node_ids(g).contains(#[trigger] order[k])
    &&& forall|k: int| 0 <= k < chain_edges(order).len() ==> g.edges.contains(#[trigger] chain_edges(order)[k])
}

proof fn lemma_walk_step(g: GraphModel, root: usize, order: Seq<usize>, at: int)
    requires
        is_walk(g, root, order),
        is_root(g.edges, root),
        targets(g.edges).no_duplicates(),
        0 <= at < g.edges.len(),
        g.edges[at].from_node == order.last(),
        node_ids(g).contains(g.edges[at].to_node),
    ensures
        is_walk(g, root, order.push(g.edges[at].to_node)),
{
    let next = g.edges[at].to_node;
    let grown = order.push(next);
    let c = chain_edges(order);
    assert(targets(g.edges)[at] == next);
    assert forall|i: int| 0 <= i < order.len() implies order[i] != next by {
        if order[i] == next && i > 0 {
            assert(g.edges.contains(c[i - 1]));
            let k = choose|k: int| 0 <= k < g.edges.len() && g.edges[k] == c[i - 1];
            assert(targets(g.edges)[k] == next);
            assert(k == at);
            assert(order[i - 1] == order[order.len() - 1]);
        }
    }
    let cg = chain_edges(grown);
    assert forall|k: int| 0 <= k < cg.len() implies g.edges.contains(#[trigger] cg[k]) by {
        if k < c.len() {
            assert(cg[k] == c[k]);
        } else {
            assert(cg[k] == g.edges[at]);
        }
    }
}

proof fn lemma_walk_is_chain(g: GraphModel, root: usize, order: Seq<usize>)
    requires
        is_walk(g, root, order),
        node_ids(g).no_duplicates(),
        sources(g.edges).no_duplicates(),
        order.len() == g.nodes.len(),
        g.edges.len() + 1 == g.nodes.len(),
    ensures
        is_chain_order(g, order),
{
    let ids = node_ids(g);
    let c = chain_edges(order);
    lemma_chain_edges_distinct(order);
    assert forall|i: int, j: int| 0 <= i < g.edges.len() && 0 <= j < g.edges.len() && i != j implies g.edges[i]
        != g.edges[j] by {
        assert(sources(g.edges)[i] != sources(g.edges)[j]);
    }
    ids.unique_seq_to_set();
    order.unique_seq_to_set();
    g.edges.unique_seq_to_set();
    c.unique_seq_to_set();
    assert forall|x: usize| order.to_set().contains(x) implies #[trigger] ids.to_set().contains(x) by {
        let k = choose|k: int| 0 <= k < order.len() && order[k] == x;
        assert(ids.contains(order[k]));
    }
    vstd::set_lib::lemma_subset_equality(order.to_set(), ids.to_set());
    assert forall|x: PluginGraphEdgeConfig| c.to_set().contains(x) implies #[trigger] g.edges.to_set().contains(x) by {
        let k = choose|k: int| 0 <= k < c.len() && c[k] == x;
        assert(g.edges.contains(c[k]));
    }
    vstd::set_lib::lemma_subset_equality(c.to_set(), g.edges.to_set());
}

fn outgoing_edge(edges: &Vec<PluginGraphEdgeConfig>, id: usize) -> (r: Option<usize>)
    ensures
        match r {
            Some(k) => k < edges@.len() && edges@[k as int].from_node == id,
            None => forall|k: int| 0 <= k < edges@.len() ==> (#[trigger] edges@[k]).from_node != id,
        },
{
    let mut i: usize = 0;
    while i < edges.len()
        invariant
            i <= edges.len(),
            forall|k: int| 0 <= k < i ==> (#[trigger] edges@[k]).from_node != id,
        decreases edges.len() - i,
    {
        if edges[i].from_node == id {
            return Some(i);
        }
        i = i + 1;
    }
    None
}

fn endpoints_known(edges: &Vec<PluginGraphEdgeConfig>, ids: &Vec<usize>) -> (r: bool)
    ensures
        r == (forall|k: int|
            0 <= k < edges@.len() ==> ids@.contains((#[trigger] edges@[k]).from_node) && ids@.contains(
                edges@[k].to_node,
            )),
{
    let mut i: usize = 0;
    while i < edges.len()
        invariant
            i <= edges.len(),
            forall|k: int|
                0 <= k < i ==> ids@.contains((#[trigger] edges@[k]).from_node) && ids@.contains(
                    edges@[k].to_node,
                ),
        decreases edges.len() - i,
    {
        if !has_id(ids, edges[i].from_node) || !has_id(ids, edges[i].to_node) {
            return false;
        }
        i = i + 1;
    }
    true
}

/// The only id in `ids` that is not in `targets`, where there is exactly one.
fn only_root(ids: &Vec<usize>, targets: &Vec<usize>) -> (r: Option<usize>)
    requires
        ids@.no_duplicates(),
    ensures
        match r {
            Some(root) => ids@.contains(root) && !targets@.contains(root) && forall|k: int|
                0 <= k < ids@.len() && ids@[k] != root ==> targets@.contains(#[trigger] ids@[k]),
            None => forall|id: usize|
                ids@.contains(id) && !targets@.contains(id) ==> exists|other: usize|
                    other != id && ids@.contains(other) && !(#[trigger] targets@.contains(other)),
        },
{
    let mut found: Option<usize> = None;
    let mut i: usize = 0;
    while i < ids.len()
        invariant
            i <= ids.len(),
            ids@.no_duplicates(),
            match found {
                Some(root) => ids@.take(i as int).contains(root) && !targets@.contains(root) && forall|k: int|
                    0 <= k < i && ids@[k] != root ==> targets@.contains(#[trigger] ids@[k]),
                None => forall|k: int| 0 <= k < i ==> targets@.contains(#[trigger] ids@[k]),
            },
        decreases ids.len() - i,
    {
        proof {
            assert(ids@.take(i + 1) =~= ids@.take(i as int).push(ids@[i as int]));
        }
        if !has_id(targets, ids[i]) {
            match found {
                Some(root) => {
                    proof {
                        let j = choose|j: int| 0 <= j < i && ids@.take(i as int)[j] == root;
                        assert(ids@[j] == root);
                        let second = ids@[i as int];
                        assert(second != root);
                        assert forall|id: usize| ids@.contains(id) && !targets@.contains(id) implies exists|other: usize|
                            other != id && ids@.contains(other) && !(#[trigger] targets@.contains(other)) by {
                            if id == root {
                                assert(!targets@.contains(second));
                            } else {
                                assert(!targets@.contains(root));
                            }
                        }
                    }
                    return None;
                },
                None => {
                    found = Some(ids[i]);
                    proof {
                        assert(ids@.take(i + 1)[i as int] == ids@[i as int]);
                    }
                },
            }
        } else {
            proof {
                if let Some(root) = found {
                    let j = choose|j: int| 0 <= j < i && ids@.take(i as int)[j] == root;
                    assert(ids@.take(i + 1)[j] == root);
                }
            }
        }
        i = i + 1;
    }
    proof {
        assert(ids@.take(i as int) =~= ids@);
    }
    found
}

/// The node ids of a graph in chain order, where the graph is exactly one linear chain.
pub fn linear_graph_node_ids(graph: &PluginGraphConfig) -> (r: Option<Vec<usize>>)
    ensures
        match r {
            Some(order) => is_chain_order(graph@, order@),
            None => !is_linear_graph(graph@),
        },
{
    let ghost g = graph@;
    proof {
        assert forall|o: Seq<usize>| is_chain_order(g, o) implies g.edges.len() == chain_edges(o).len()
            && o.len() == g.nodes.len() by {
            lemma_chain_facts(g, o);
        }
    }
    if graph.nodes.len() == 0 {
        if graph.edges.len() == 0 {
            let order: Vec<usize> = Vec::new();
            proof {
                assert(node_ids(g) =~= order@);
                assert(g.edges =~= chain_edges(order@));
            }
            return Some(order);
        }
        return None;
    }
    if graph.edges.len() != graph.nodes.len() - 1 {
        return None;
    }
    let ids = ids_of(graph);
    if !all_distinct(&ids) {
        return None;
    }
    let froms = edge_sources(&graph.edges);
    let tos = edge_targets(&graph.edges);
    proof {
        assert forall|o: Seq<usize>| is_chain_order(g, o) implies froms@.no_duplicates() && (forall|k: int|
            0 <= k < g.edges.len() ==> ids@.contains((#[trigger] g.edges[k]).from_node) && ids@.contains(
                g.edges[k].to_node,
            )) by {
            lemma_chain_shape(g, o);
        }
    }
    if !endpoints_known(&graph.edges, &ids) || !all_distinct(&froms) {
        return None;
    }
    let root = match only_root(&ids, &tos) {
        Some(root) => root,
        None => {
            proof {
                assert forall|o: Seq<usize>| is_chain_order(g, o) implies false by {
                    lemma_chain_facts(g, o);
                    lemma_chain_shape(g, o);
                    assert(ids@.contains(o[0]));
                    let other = choose|other: usize|
                        other != o[0] && ids@.contains(other) && !(#[trigger] tos@.contains(other));
                    let k = choose|k: int| 0 <= k < ids@.len() && ids@[k] == other;
                    assert(o.contains(node_ids(g)[k]));
                    let i = choose|i: int| 0 <= i < o.len() && o[i] == other;
                    assert(!is_root(g.edges, o[i]));
                }
            }
            return None;
        },
    };
    let mut order: Vec<usize> = Vec::new();
    order.push(root);
    proof {
        lemma_targets_distinct(ids@, tos@, root);
        assert forall|o: Seq<usize>| is_chain_order(g, o) implies #[trigger] o.len() >= 1 && order@ =~= o.take(1) by {
            lemma_chain_facts(g, o);
            lemma_chain_shape(g, o);
            assert(ids@.contains(o[0]));
            let k = choose|k: int| 0 <= k < ids@.len() && ids@[k] == o[0];
            assert(is_root(g.edges, ids@[k]));
        }
    }
    let mut current: usize = root;
    loop
        invariant
            g == graph@,
            ids@ == node_ids(g),
            ids@.no_duplicates(),
            tos@ == targets(g.edges),
            froms@ == sources(g.edges),
            froms@.no_duplicates(),
            tos@.no_duplicates(),
            is_root(g.edges, root),
            g.edges.len() + 1 == g.nodes.len(),
            forall|k: int|
                0 <= k < g.edges.len() ==> ids@.contains((#[trigger] g.edges[k]).from_node)
                    && ids@.contains(g.edges[k].to_node),
            is_walk(g, root, order@),
            current == order@.last(),
            forall|o: Seq<usize>|
                is_chain_order(g, o) ==> #[trigger] o.len() >= order@.len() && order@ == o.take(
                    order@.len() as int,
                ),
        ensures
            is_walk(g, root, order@),
            forall|o: Seq<usize>| is_chain_order(g, o) ==> #[trigger] o.len() == order@.len(),
        decreases g.nodes.len() - order@.len(),
    {
        proof {
            lemma_ids_bound(order@, ids@);
        }
        match outgoing_edge(&graph.edges, current) {
            Some(at) => {
                let next: usize = graph.edges[at].to_node;
                proof {
                    lemma_walk_step(g, root, order@, at as int);
                    lemma_ids_bound(order@.push(next), ids@);
                    let n = order@.len() as int;
                    assert forall|o: Seq<usize>| is_chain_order(g, o) implies #[trigger] o.len() >= n + 1
                        && order@.push(next) =~= o.take(n + 1) by {
                        lemma_chain_facts(g, o);
                        let c = chain_edges(o);
                        assert(c.contains(g.edges[at as int]));
                        let p = choose|p: int| 0 <= p < c.len() && c[p] == g.edges[at as int];
                        assert(o[p] == o.take(n)[n - 1]);
                        assert(o[n - 1] == o[p]);
                    }
                }
                order.push(next);
                current = next;
            },
            None => {
                proof {
                    let n = order@.len() as int;
                    assert forall|o: Seq<usize>| is_chain_order(g, o) implies #[trigger] o.len() == n by {
                        lemma_chain_facts(g, o);
                        if o.len() > n {
                            let c = chain_edges(o);
                            assert(o[n - 1] == o.take(n)[n - 1]);
                            assert(g.edges.contains(c[n - 1]));
                            let k = choose|k: int| 0 <= k < g.edges.len() && g.edges[k] == c[n - 1];
                            assert(g.edges[k].from_node == current);
                        }
                    }
                }
                break;
            },
        }
    }
    if order.len() == graph.nodes.len() {
        proof {
            lemma_walk_is_chain(g, root, order@);
        }
        Some(order)
    } else {
        None
    }
}

/// The texts of a validation answer.
pub open spec fn answer_of(r: Result<(), String>) -> Result<(), Seq<char>> {
    match r {
        Ok(_) => Ok(()),
        Err(e) => Err(e@),
    }
}

/// The model of a graph or an error.
pub open spec fn graph_outcome(r: Result<PluginGraphConfig, String>) -> Result<GraphModel, Seq<char>> {
    match r {
        Ok(g) => Ok(g@),
        Err(e) => Err(e@),
    }
}

/// Whether `answer` is one that the engine's validation may give for the graph `g`.
pub open spec fn validates<F: Fn(&PluginGraphConfig) -> Result<(), String>>(
    validate: F,
    g: GraphModel,
    answer: Result<(), Seq<char>>,
) -> bool {
    exists|graph: PluginGraphConfig, out: Result<(), String>|
        graph@ == g && #[trigger] call_ensures(validate, (&graph,), out) && answer_of(out) == answer
}

/// Whether the engine's validation can be asked about any graph.
pub open spec fn accepts_graphs<F: Fn(&PluginGraphConfig) -> Result<(), String>>(validate: F) -> bool {
    forall|graph: &PluginGraphConfig| #[trigger] call_requires(validate, (graph,))
}

/// The node with the id `id`.
pub open spec fn node_by_id(g: GraphModel, id: usize) -> NodeModel {
    g.nodes[node_ids(g).index_of(id)]
}

/// The chain of the nodes of `g` in the order `order`. The nodes themselves are unchanged.
pub open spec fn reordered(g: GraphModel, order: Seq<usize>) -> GraphModel {
    GraphModel {
        nodes: Seq::new(order.len(), |i: int| node_by_id(g, order[i])),
        edges: chain_edges(order),
    }
}

/// Whether the id at `i` is unknown or stands earlier in `order`.
pub open spec fn misplaced(g: GraphModel, order: Seq<usize>, i: int) -> bool {
    !node_ids(g).contains(order[i]) || order.take(i).contains(order[i])
}

/// The first position from `from` on with a misplaced id, or the length of `order`.
pub open spec fn first_misplaced(g: GraphModel, order: Seq<usize>, from: int) -> int
    decreases order.len() - from,
{
    if from >= order.len() || misplaced(g, order, from) {
        from
    } else {
        first_misplaced(g, order, from + 1)
    }
}

/// The reordered chain, or why there is none.
pub open spec fn reorder_candidate(g: GraphModel, order: Seq<usize>) -> Result<GraphModel, Seq<char>> {
    if !is_linear_graph(g) {
        Err("Graph reorder requires a single linear graph"@)
    } else if order.len() != g.nodes.len() {
        Err(
            "Order length "@ + decimal(order.len()) + " doesn't match graph node count "@ + decimal(
                g.nodes.len(),
            ),
        )
    } else if first_misplaced(g, order, 0) < order.len() {
        Err(
            "Invalid graph order: duplicate or unknown node ID "@ + decimal(
                order[first_misplaced(g, order, 0)] as nat,
            ),
        )
    } else {
        Ok(reordered(g, order))
    }
}

/// What reordering may return: the engine validates the graph before and the candidate after.
pub open spec fn reorder_outcome<F: Fn(&PluginGraphConfig) -> Result<(), String>>(
    validate: F,
    g: GraphModel,
    order: Seq<usize>,
    out: Result<GraphModel, Seq<char>>,
) -> bool {
    exists|before: Result<(), Seq<char>>|
        (#[trigger] validates(validate, g, before)) && match before {
            Err(e) => out == Err::<GraphModel, Seq<char>>("Invalid plugin graph: "@ + e),
            Ok(_) => match reorder_candidate(g, order) {
                Err(e) => out == Err::<GraphModel, Seq<char>>(e),
                Ok(candidate) => settled_outcome(
                    validate,
                    candidate,
                    "Reordered graph is invalid: "@,
                    out,
                ),
            },
        }
}

/// What remains of a candidate graph once the engine has validated it.
pub open spec fn settled_outcome<F: Fn(&PluginGraphConfig) -> Result<(), String>>(
    validate: F,
    candidate: GraphModel,
    complaint: Seq<char>,
    out: Result<GraphModel, Seq<char>>,
) -> bool {
    exists|answer: Result<(), Seq<char>>|
        (#[trigger] validates(validate, candidate, answer)) && match answer {
            Err(e) => out == Err::<GraphModel, Seq<char>>(complaint + e),
            Ok(_) => out == Ok::<GraphModel, Seq<char>>(candidate),
        }
}

fn find_misplaced(ids: &Vec<usize>, order: &Vec<usize>, Ghost(g): Ghost<GraphModel>) -> (r: usize)
    requires
        ids@ == node_ids(g),
    ensures
        r == first_misplaced(g, order@, 0),
        r <= order@.len(),
        forall|k: int| 0 <= k < r ==> !misplaced(g, order@, k),
{
    let mut seen: Vec<usize> = Vec::new();
    let mut i: usize = 0;
    while i < order.len()
        invariant
            i <= order.len(),
            ids@ == node_ids(g),
            seen@ =~= order@.take(i as int),
            first_misplaced(g, order@, 0) == first_misplaced(g, order@, i as int),
            forall|k: int| 0 <= k < i ==> !misplaced(g, order@, k),
        decreases order.len() - i,
    {
        if !has_id(ids, order[i]) || has_id(&seen, order[i]) {
            return i;
        }
        seen.push(order[i]);
        i = i + 1;
    }
    i
}

fn find_node(graph: &PluginGraphConfig, id: usize) -> (r: &PluginGraphNodeConfig)
    requires
        node_ids(graph@).contains(id),
        node_ids(graph@).no_duplicates(),
    ensures
        r@ == node_by_id(graph@, id),
{
    let mut i: usize = 0;
    while i < graph.nodes.len()
        invariant
            i <= graph.nodes.len(),
            node_ids(graph@).no_duplicates(),
            forall|k: int| 0 <= k < i ==> node_ids(graph@)[k] != id,
        decreases graph.nodes.len() - i,
    {
        if graph.nodes[i].id == id {
            proof {
                assert(node_ids(graph@)[i as int] == id);
                let at = node_ids(graph@).index_of(id);
                assert(node_ids(graph@).contains(id));
                assert(node_ids(graph@)[at] == id);
                assert(at == i);
            }
            return &graph.nodes[i];
        }
        i = i + 1;
    }
    proof {
        let k = choose|k: int| 0 <= k < node_ids(graph@).len() && node_ids(graph@)[k] == id;
        assert(false);
    }
    &graph.nodes[0]
}

fn chain_along(order: &Vec<usize>) -> (r: Vec<PluginGraphEdgeConfig>)
    ensures
        r@ == chain_edges(order@),
{
    let mut edges: Vec<PluginGraphEdgeConfig> = Vec::new();
    if order.len() == 0 {
        proof {
            assert(edges@ =~= chain_edges(order@));
        }
        return edges;
    }
    let mut i: usize = 1;
    while i < order.len()
        invariant
            1 <= i <= order.len(),
            edges.len() == i - 1,
            forall|k: int| 0 <= k < i - 1 ==> #[trigger] edges@[k] == chain_edges(order@)[k],
        decreases order.len() - i,
    {
        edges.push(PluginGraphEdgeConfig { from_node: order[i - 1], to_node: order[i] });
        i = i + 1;
    }
    proof {
        assert(edges@ =~= chain_edges(order@));
    }
    edges
}

/// Reorders a linear graph without changing node ids, parameters, channel counts or bypass state.
/// The order is expressed as node ids, not positions.
pub fn reorder_linear_graph<F: Fn(&PluginGraphConfig) -> Result<(), String>>(
    graph: &PluginGraphConfig,
    order: &Vec<usize>,
    validate: &F,
) -> (r: Result<PluginGraphConfig, String>)
    requires
        accepts_graphs(*validate),
    ensures
        reorder_outcome(*validate, graph@, order@, graph_outcome(r)),
{
    let before = validate(graph);
    proof {
        assert(call_ensures(*validate, (graph,), before));
        assert(validates(*validate, graph@, answer_of(before)));
    }
    if let Err(error) = before {
        return Err(join2("Invalid plugin graph: ", error.as_str()));
    }
    let current = match linear_graph_node_ids(graph) {
        Some(current) => current,
        None => {
            return Err("Graph reorder requires a single linear graph".to_owned());
        },
    };
    proof {
        assert(is_linear_graph(graph@));
        lemma_chain_facts(graph@, current@);
    }
    if order.len() != current.len() {
        let have = decimal_text(order.len() as u64);
        let want = decimal_text(current.len() as u64);
        let text = join3("Order length ", have.as_str(), " doesn't match graph node count ");
        return Err(join2(text.as_str(), want.as_str()));
    }
    let ids = ids_of(graph);
    let bad = find_misplaced(&ids, order, Ghost(graph@));
    if bad < order.len() {
        let id = decimal_text(order[bad] as u64);
        return Err(join2("Invalid graph order: duplicate or unknown node ID ", id.as_str()));
    }
    let mut nodes: Vec<PluginGraphNodeConfig> = Vec::new();
    let mut i: usize = 0;
    while i < order.len()
        invariant
            i <= order.len() == bad,
            nodes.len() == i,
            node_ids(graph@).no_duplicates(),
            forall|k: int| 0 <= k < bad ==> !misplaced(graph@, order@, k),
            forall|k: int| 0 <= k < i ==> (#[trigger] nodes@[k])@ == node_by_id(graph@, order@[k]),
        decreases order.len() - i,
    {
        proof {
            assert(!misplaced(graph@, order@, i as int));
        }
        nodes.push(find_node(graph, order[i]).clone());
        i = i + 1;
    }
    let candidate = PluginGraphConfig { nodes, edges: chain_along(order) };
    proof {
        assert(candidate@ =~= reordered(graph@, order@));
    }
    settle_graph(candidate, "Reordered graph is invalid: ", validate)
}

pub(crate) fn settle_graph<F: Fn(&PluginGraphConfig) -> Result<(), String>>(
    candidate: PluginGraphConfig,
    complaint: &str,
    validate: &F,
) -> (r: Result<PluginGraphConfig, String>)
    requires
        accepts_graphs(*validate),
    ensures
        settled_outcome(*validate, candidate@, complaint@, graph_outcome(r)),
{
    let answer = validate(&candidate);
    proof {
        assert(call_ensures(*validate, (&candidate,), answer));
        assert(validates(*validate, candidate@, answer_of(answer)));
    }
    match answer {
        Err(error) => Err(join2(complaint, error.as_str())),
        Ok(_) => Ok(candidate),
    }
}

/// Reordering changes no node, and the result is the chain in the order asked for.
pub proof fn reorder_keeps_nodes(g: GraphModel, order: Seq<usize>)
    requires
        reorder_candidate(g, order) is Ok,
    ensures
        is_chain_order(reorder_candidate(g, order)->Ok_0, order),
        reorder_candidate(g, order)->Ok_0.nodes.to_multiset() == g.nodes.to_multiset(),
        forall|id: usize| node_ids(g).contains(id) ==> #[trigger] node_by_id(
            reorder_candidate(g, order)->Ok_0,
            id,
        ) == node_by_id(g, id),
{
    let c = reordered(g, order);
    let ids = node_ids(g);
    let current = choose|o: Seq<usize>| is_chain_order(g, o);
    lemma_chain_facts(g, current);
    lemma_first_misplaced(g, order, 0);
    assert forall|i: int| 0 <= i < order.len() implies ids.contains(#[trigger] order[i]) by {
        assert(!misplaced(g, order, i));
    }
    assert forall|i: int, j: int| 0 <= i < order.len() && 0 <= j < order.len() && i != j implies order[i]
        != order[j] by {
        assert(!misplaced(g, order, i) && !misplaced(g, order, j));
        if order[i] == order[j] {
            if i < j {
                assert(order.take(j)[i] == order[j]);
            } else {
                assert(order.take(i)[j] == order[i]);
            }
        }
    }
    assert forall|i: int| 0 <= i < order.len() implies node_ids(c)[i] == order[i] by {
        assert(ids.contains(order[i]));
    }
    assert(node_ids(c) =~= order);
    order.unique_seq_to_set();
    ids.unique_seq_to_set();
    lemma_chain_edges_distinct(order);
    assert forall|id: usize| ids.contains(id) implies #[trigger] node_by_id(c, id) == node_by_id(g, id) by {
        assert forall|x: usize| order.to_set().contains(x) implies #[trigger] ids.to_set().contains(x) by {
            let k = choose|k: int| 0 <= k < order.len() && order[k] == x;
            assert(ids.contains(order[k]));
        }
        vstd::set_lib::lemma_subset_equality(order.to_set(), ids.to_set());
        assert(ids.to_set().contains(id));
        assert(order.to_set().contains(id));
        assert(order.contains(id));
        let i = order.index_of(id);
        assert(order[i] == id);
    }
    lemma_same_nodes(g, order);
}

proof fn lemma_first_misplaced(g: GraphModel, order: Seq<usize>, from: int)
    requires
        0 <= from <= order.len(),
    ensures
        from <= first_misplaced(g, order, from) <= order.len(),
        first_misplaced(g, order, from) < order.len() ==> misplaced(
            g,
            order,
            first_misplaced(g, order, from),
        ),
        forall|k: int| from <= k < first_misplaced(g, order, from) ==> !(#[trigger] misplaced(g, order, k)),
    decreases order.len() - from,
{
    if from < order.len() && !misplaced(g, order, from) {
        lemma_first_misplaced(g, order, from + 1);
    }
}

proof fn lemma_same_nodes(g: GraphModel, order: Seq<usize>)
    requires
        node_ids(g).no_duplicates(),
        order.no_duplicates(),
        order.len() == g.nodes.len(),
        forall|i: int| 0 <= i < order.len() ==> node_ids(g).contains(#[trigger] order[i]),
    ensures
        reordered(g, order).nodes.to_multiset() == g.nodes.to_multiset(),
    decreases order.len(),
{
    let c = reordered(g, order);
    let ids = node_ids(g);
    if order.len() == 0 {
        assert(c.nodes =~= g.nodes);
    } else {
        let at = ids.index_of(order.last());
        assert(ids.contains(order[order.len() - 1]));
        let smaller = GraphModel { nodes: g.nodes.remove(at), edges: g.edges };
        let rest = order.drop_last();
        assert(node_ids(smaller) =~= ids.remove(at));
        assert forall|i: int| 0 <= i < rest.len() implies node_ids(smaller).contains(#[trigger] rest[i])
            && node_by_id(smaller, rest[i]) == node_by_id(g, rest[i]) by {
            assert(ids.contains(order[i]));
            let k = ids.index_of(order[i]);
            assert(ids[k] == order[i]);
            assert(order[i] != order.last());
            let nk = if k < at { k } else { k - 1 };
            assert(ids.remove(at)[nk] == order[i]);
            let found = node_ids(smaller).index_of(rest[i]);
            assert(ids.remove(at)[found] == rest[i]);
            let back = if found < at { found } else { found + 1 };
            assert(ids[back] == order[i]);
            assert(found == nk);
        }
        assert(node_ids(smaller).no_duplicates());
        lemma_same_nodes(smaller, rest);
        assert(reordered(smaller, rest).nodes =~= c.nodes.drop_last());
        assert(c.nodes =~= c.nodes.drop_last().push(g.nodes[at]));
        assert(g.nodes =~= smaller.nodes.insert(at, g.nodes[at]));
        vstd::seq_lib::to_multiset_build(c.nodes.drop_last(), g.nodes[at]);
        vstd::seq_lib::to_multiset_insert(smaller.nodes, at, g.nodes[at]);
        assert(g.nodes.to_multiset() =~= smaller.nodes.to_multiset().insert(g.nodes[at]));
    }
}

/// The largest channel count of the driver transport.
pub const MAX_HAL_CHANNELS: usize = 32;

/// The ids 0, 1, 2 and so on.
pub open spec fn positions(n: nat) -> Seq<usize> {
    Seq::new(n, |i: int| i as usize)
}

/// The node that stands for the rack plugin at `index`.
pub open spec fn rack_node(
    plugin: PluginModel,
    index: int,
    default_channels: usize,
    selected: usize,
    input_channels: Option<usize>,
    bypassed: Option<bool>,
) -> NodeModel {
    NodeModel {
        id: index as usize,
        plugin_type: plugin.plugin_type,
        parameters: plugin.parameters,
        input_channels: if index == selected && input_channels is Some {
            input_channels->0
        } else {
            default_channels
        },
        bypassed: index == selected && bypassed == Some(true),
    }
}

/// The linear graph that stands for a rack with the state of one plugin changed, or why there is
/// none.
pub open spec fn rack_candidate(
    plugins: Seq<PluginModel>,
    pipeline_input_channels: usize,
    selected: usize,
    input_channels: Option<usize>,
    bypassed: Option<bool>,
) -> Result<GraphModel, Seq<char>> {
    let default_channels = if pipeline_input_channels > 1 { pipeline_input_channels } else { 1 };
    if input_channels is None && bypassed is None {
        Err("set_rack_plugin_state requires input_channels or bypassed"@)
    } else if selected >= plugins.len() {
        Err(
            "Plugin index "@ + decimal(selected as nat) + " out of range (have "@ + decimal(
                plugins.len(),
            ) + ")"@,
        )
    } else if input_channels is Some && !(1 <= input_channels->0 <= MAX_HAL_CHANNELS) {
        Err(
            "Invalid plugin input channel count "@ + decimal(input_channels->0 as nat)
                + ". Must be between 1 and "@ + decimal(MAX_HAL_CHANNELS as nat) + "."@,
        )
    } else {
        Ok(
            GraphModel {
                nodes: Seq::new(
                    plugins.len(),
                    |i: int|
                        rack_node(plugins[i], i, default_channels, selected, input_channels, bypassed),
                ),
                edges: chain_edges(positions(plugins.len())),
            },
        )
    }
}

/// Turns a rack into a linear graph so that the channel and bypass state of each node has a
/// durable owner. Rack order and plugin parameters are kept. State that is not given is the
/// pipeline's input geometry and not bypassed.
pub fn rack_plugins_to_linear_graph<F: Fn(&PluginGraphConfig) -> Result<(), String>>(
    plugins: &Vec<PluginConfig>,
    pipeline_input_channels: usize,
    selected_index: usize,
    input_channels: Option<usize>,
    bypassed: Option<bool>,
    validate: &F,
) -> (r: Result<PluginGraphConfig, String>)
    requires
        accepts_graphs(*validate),
    ensures
        match rack_candidate(
            plugin_models(plugins@),
            pipeline_input_channels,
            selected_index,
            input_channels,
            bypassed,
        ) {
            Err(e) => graph_outcome(r) == Err::<GraphModel, Seq<char>>(e),
            Ok(candidate) => settled_outcome(
                *validate,
                candidate,
                "Rack state cannot be represented as a graph: "@,
                graph_outcome(r),
            ),
        },
{
    if input_channels.is_none() && bypassed.is_none() {
        return Err("set_rack_plugin_state requires input_channels or bypassed".to_owned());
    }
    if selected_index >= plugins.len() {
        let at = decimal_text(selected_index as u64);
        let have = decimal_text(plugins.len() as u64);
        let text = join3("Plugin index ", at.as_str(), " out of range (have ");
        return Err(join3(text.as_str(), have.as_str(), ")"));
    }
    if let Some(channels) = input_channels {
        if channels < 1 || channels > MAX_HAL_CHANNELS {
            let have = decimal_text(channels as u64);
            let most = decimal_text(MAX_HAL_CHANNELS as u64);
            let text = join3(
                "Invalid plugin input channel count ",
                have.as_str(),
                ". Must be between 1 and ",
            );
            return Err(join3(text.as_str(), most.as_str(), "."));
        }
    }
    let default_channels: usize = if pipeline_input_channels > 1 { pipeline_input_channels } else { 1 };
    let ghost models = plugin_models(plugins@);
    let mut nodes: Vec<PluginGraphNodeConfig> = Vec::new();
    let mut order: Vec<usize> = Vec::new();
    let mut i: usize = 0;
    while i < plugins.len()
        invariant
            i <= plugins.len(),
            nodes.len() == i,
            order.len() == i,
            models == plugin_models(plugins@),
            forall|k: int| 0 <= k < i ==> #[trigger] order@[k] == k,
            forall|k: int|
                0 <= k < i ==> (#[trigger] nodes@[k])@ == rack_node(
                    models[k],
                    k,
                    default_channels,
                    selected_index,
                    input_channels,
                    bypassed,
                ),
        decreases plugins.len() - i,
    {
        let channels: usize = if i == selected_index {
            match input_channels {
                Some(channels) => channels,
                None => default_channels,
            }
        } else {
            default_channels
        };
        let bypass = if i == selected_index {
            match bypassed {
                Some(bypass) => bypass,
                None => false,
            }
        } else {
            false
        };
        nodes.push(
            PluginGraphNodeConfig {
                id: i,
                plugin_type: plugins[i].plugin_type.clone(),
                parameters: plugins[i].parameters.clone(),
                input_channels: channels,
                bypassed: bypass,
            },
        );
        order.push(i);
        i = i + 1;
    }
    proof {
        assert(order@ =~= positions(plugins@.len()));
    }
    let candidate = PluginGraphConfig { nodes, edges: chain_along(&order) };
    proof {
        let want = rack_candidate(
            models,
            pipeline_input_channels,
            selected_index,
            input_channels,
            bypassed,
        )->Ok_0;
        assert(candidate@.nodes =~= want.nodes);
        assert(candidate@ == want);
    }
    settle_graph(candidate, "Rack state cannot be represented as a graph: ", validate)
}

/// A rack becomes the chain of its plugins in rack order, with types and parameters kept and only
/// the selected plugin's state changed.
pub proof fn rack_graph_is_the_rack(
    plugins: Seq<PluginModel>,
    pipeline_input_channels: usize,
    selected: usize,
    input_channels: Option<usize>,
    bypassed: Option<bool>,
)
    requires
        plugins.len() <= usize::MAX,
        rack_candidate(plugins, pipeline_input_channels, selected, input_channels, bypassed) is Ok,
    ensures
        ({
            let g = rack_candidate(plugins, pipeline_input_channels, selected, input_channels, bypassed)->Ok_0;
            &&& is_chain_order(g, positions(plugins.len()))
            &&& g.nodes.len() == plugins.len()
            &&& forall|i: int|
                0 <= i < plugins.len() ==> (#[trigger] g.nodes[i]).plugin_type == plugins[i].plugin_type
                    && g.nodes[i].parameters == plugins[i].parameters
            &&& forall|i: int|
                0 <= i < plugins.len() && i != selected ==> !(#[trigger] g.nodes[i]).bypassed
            &&& input_channels is Some ==> g.nodes[selected as int].input_channels
                == input_channels->0
            &&& bypassed is Some ==> g.nodes[selected as int].bypassed == bypassed->0
        }),
{
    let g = rack_candidate(plugins, pipeline_input_channels, selected, input_channels, bypassed)->Ok_0;
    let order = positions(plugins.len());
    assert(node_ids(g) =~= order);
    lemma_chain_edges_distinct(order);
}

/// Changing one plugin of a rack changes that plugin alone: it takes the channels and the bypass that
/// are given, and every other plugin keeps the channels of the pipeline and is not bypassed.
pub proof fn rack_changes_touch_one_plugin(
    plugins: Seq<PluginModel>,
    pipeline_input_channels: usize,
    selected: usize,
    input_channels: Option<usize>,
    bypassed: Option<bool>,
    i: int,
)
    ensures
        ({
            let out = rack_candidate(plugins, pipeline_input_channels, selected, input_channels, bypassed);
            &&& out is Ok <==> (input_channels is Some || bypassed is Some) && selected < plugins.len() && (
            input_channels is Some ==> 1 <= input_channels->0 <= 32)
            &&& out is Ok && 0 <= i < plugins.len() ==> {
                let g = out->Ok_0;
                let usual = if pipeline_input_channels == 0 { 1 } else { pipeline_input_channels };
                &&& g.nodes.len() == plugins.len()
                &&& i <= usize::MAX ==> g.nodes[i].id == i
                &&& g.nodes[i].plugin_type == plugins[i].plugin_type
                &&& g.nodes[i].parameters == plugins[i].parameters
                &&& i != selected ==> g.nodes[i].input_channels == usual && !g.nodes[i].bypassed
                &&& i == selected && input_channels is Some ==> g.nodes[i].input_channels
                    == input_channels->0
                &&& i == selected && input_channels is None ==> g.nodes[i].input_channels == usual
                &&& i == selected ==> (g.nodes[i].bypassed <==> bypassed == Some(true))
                &&& g.edges.len() == plugins.len() - 1
                &&& i < plugins.len() - 1 && plugins.len() <= usize::MAX ==> g.edges[i].from_node == i
                    && g.edges[i].to_node == i + 1
            }
        }),
{
}

/// A reordered graph runs through its nodes in the given order, each node as it was. The order is
/// refused exactly where the graph is no chain or the order does not name every node once.
pub proof fn reordered_graphs_run_in_order(g: GraphModel, order: Seq<usize>, i: int)
    ensures
        ({
            let out = reorder_candidate(g, order);
            let fits = order.len() == g.nodes.len() && order.no_duplicates() && forall|k: int|
                0 <= k < order.len() ==> node_ids(g).contains(#[trigger] order[k]);
            &&& out is Ok <==> is_linear_graph(g) && fits
            &&& out matches Ok(after) ==> {
                &&& after.nodes.len() == order.len()
                &&& 0 <= i < order.len() ==> after.nodes[i].id == order[i] && g.nodes.contains(
                    after.nodes[i],
                )
                &&& order.len() > 0 ==> after.edges.len() == order.len() - 1
                &&& 0 <= i < order.len() - 1 ==> after.edges[i].from_node == order[i]
                    && after.edges[i].to_node == order[i + 1]
            }
        }),
{
    lemma_first_misplaced(g, order, 0);
    let bad = first_misplaced(g, order, 0);
    if bad < order.len() {
        if node_ids(g).contains(order[bad]) {
            let j = choose|j: int| 0 <= j < bad && order.take(bad)[j] == order[bad];
            assert(order[j] == order[bad]);
        }
    } else {
        assert forall|a: int, b: int| 0 <= a < order.len() && 0 <= b < order.len() && a != b implies order[a]
            != order[b] by {
            let (low, high) = if a < b { (a, b) } else { (b, a) };
            assert(!misplaced(g, order, high));
            assert(order.take(high)[low] == order[low]);
        }
        assert forall|k: int| 0 <= k < order.len() implies node_ids(g).contains(#[trigger] order[k]) by {
            assert(!misplaced(g, order, k));
        }
        if 0 <= i < order.len() {
            let at = node_ids(g).index_of(order[i]);
            assert(node_ids(g).contains(order[i]));
            assert(node_ids(g)[at] == order[i]);
            assert(g.nodes[at].id == order[i]);
        }
    }
}

/// A graph that the engine accepts is handed on as it is; one that it refuses is refused with its
/// reason.
pub proof fn settled_graphs_are_unchanged<F: Fn(&PluginGraphConfig) -> Result<(), String>>(
    validate: F,
    candidate: GraphModel,
    complaint: Seq<char>,
    out: Result<GraphModel, Seq<char>>,
)
    requires
        settled_outcome(validate, candidate, complaint, out),
    ensures
        out matches Ok(g) ==> g == candidate && validates(validate, candidate, Ok(())),
        out matches Err(text) ==> exists|e: Seq<char>| text == complaint + e && #[trigger] validates(
            validate,
            candidate,
            Err(e),
        ),
{
}

/// A graph is reordered only where the engine accepts it before and after, and is then the graph in the
/// new order.
pub proof fn accepted_orders_are_the_new_graph<F: Fn(&PluginGraphConfig) -> Result<(), String>>(
    validate: F,
    g: GraphModel,
    order: Seq<usize>,
    out: Result<GraphModel, Seq<char>>,
)
    requires
        reorder_outcome(validate, g, order, out),
    ensures
        out matches Ok(after) ==> {
            &&& reorder_candidate(g, order) == Ok::<GraphModel, Seq<char>>(after)
            &&& validates(validate, g, Ok(()))
            &&& validates(validate, after, Ok(()))
        },
        out matches Err(e) ==> {
            ||| exists|why: Seq<char>|
                e == "Invalid plugin graph: "@ + why && #[trigger] validates(validate, g, Err(why))
            ||| reorder_candidate(g, order) == Err::<GraphModel, Seq<char>>(e)
            ||| reorder_candidate(g, order) is Ok && exists|why: Seq<char>|
                e == "Reordered graph is invalid: "@ + why && #[trigger] validates(
                    validate,
                    reorder_candidate(g, order)->Ok_0,
                    Err(why),
                )
        },
{
}

} // verus!
