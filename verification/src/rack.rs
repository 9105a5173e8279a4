//! Edits of a plugin rack, and the differences between two parameter sets.

use crate::json::{
    compact_text, find_last, json_of, last_named, lemma_ascend_distinct, lemma_distinct_lookup,
    lemma_last_named, members_of, names_ascend, render_json, same_json, sort_json_value, Json,
    JsonMember, JsonValue,
};
use crate::plugins::{plugin_models, PluginConfig, PluginModel};
use crate::state::{StateModel, SystemwideState};
use crate::text::{decimal, decimal_text, join2, join3};
use vstd::prelude::*;

verus! {

/// The text in which the engine takes a parameter: a text as it is, any other value as JSON.
pub open spec fn parameter_text(value: Json) -> Seq<char> {
    match value {
        Json::Text(text) => text,
        _ => compact_text(value),
    }
}

/// The text in which the engine takes a parameter.
pub fn encode_plugin_param_value(value: &JsonValue) -> (r: String)
    ensures
        r@ == parameter_text(value@),
{
    match value {
        JsonValue::Text(text) => text.clone(),
        _ => render_json(value),
    }
}

/// Whether a member has another value than before, or is new.
pub open spec fn is_changed(before: Map<Seq<char>, Json>, name: Seq<char>, value: Json) -> bool {
    !(before.dom().contains(name) && same_json(before[name], value))
}

/// The members that have another value than before, or are new.
pub open spec fn changed_members(before: Map<Seq<char>, Json>, after: Map<Seq<char>, Json>) -> Map<
    Seq<char>,
    Json,
> {
    Map::new(
        |k: Seq<char>| after.dom().contains(k) && is_changed(before, k, after[k]),
        |k: Seq<char>| after[k],
    )
}

/// Whether every member of `before` is still there.
pub open spec fn none_removed(before: Map<Seq<char>, Json>, after: Map<Seq<char>, Json>) -> bool {
    forall|k: Seq<char>| #[trigger] before.dom().contains(k) ==> after.dom().contains(k)
}

fn all_names_kept(before: &Vec<JsonMember>, after: &Vec<JsonMember>) -> (r: bool)
    ensures
        r == none_removed(members_of(before@), members_of(after@)),
{
    let ghost old_map = members_of(before@);
    let ghost new_map = members_of(after@);
    let mut i: usize = 0;
    while i < before.len()
        invariant
            i <= before.len(),
            old_map == members_of(before@),
            new_map == members_of(after@),
            forall|k: int| 0 <= k < i ==> new_map.dom().contains((#[trigger] before@[k]).name@),
        decreases before.len() - i,
    {
        let ghost name = before@[i as int].name@;
        proof {
            lemma_last_named(before@, name);
            lemma_last_named(after@, name);
        }
        if find_last(after, before[i].name.as_str()).is_none() {
            proof {
                assert(old_map.dom().contains(name) && !new_map.dom().contains(name));
            }
            return false;
        }
        i = i + 1;
    }
    proof {
        assert forall|k: Seq<char>| #[trigger] old_map.dom().contains(k) implies new_map.dom().contains(k) by {
            lemma_last_named(before@, k);
            assert(before@[last_named(before@, k)].name@ == k);
        }
    }
    true
}

fn changed_list(before: &Vec<JsonMember>, after: &Vec<JsonMember>) -> (r: Vec<JsonMember>)
    requires
        names_ascend(after@),
    ensures
        names_ascend(r@),
        members_of(r@) == changed_members(members_of(before@), members_of(after@)),
{
    let ghost old_map = members_of(before@);
    let mut out: Vec<JsonMember> = Vec::new();
    let mut i: usize = 0;
    proof {
        assert(after@.take(0) =~= Seq::<JsonMember>::empty());
        assert(changed_members(old_map, members_of(after@.take(0))) =~= Map::<Seq<char>, Json>::empty());
    }
    while i < after.len()
        invariant
            i <= after.len(),
            names_ascend(after@),
            old_map == members_of(before@),
            names_ascend(out@),
            members_of(out@) == changed_members(old_map, members_of(after@.take(i as int))),
            forall|k: int|
                0 <= k < out@.len() ==> exists|j: int|
                    0 <= j < i && (#[trigger] out@[k]).name@ == (#[trigger] after@[j]).name@,
        decreases after.len() - i,
    {
        let ghost name = after@[i as int].name@;
        let ghost value = json_of(after@[i as int].value);
        let ghost seen = members_of(after@.take(i as int));
        proof {
            lemma_last_named(before@, name);
            assert(after@.take(i + 1).drop_last() =~= after@.take(i as int));
            assert(members_of(after@.take(i + 1)) == seen.insert(name, value));
            assert(names_ascend(after@.take(i as int)));
            lemma_ascend_distinct(after@);
            lemma_ascend_distinct(after@.take(i as int));
            lemma_distinct_lookup(after@.take(i as int));
            if seen.contains_key(name) {
                let j = choose|j: int|
                    0 <= j < after@.take(i as int).len() && #[trigger] after@.take(i as int)[j].name@ == name;
                assert(after@[j].name@ == after@[i as int].name@);
            }
        }
        let same = match find_last(before, after[i].name.as_str()) {
            Some(at) => before[at].value.matches(&after[i].value),
            None => false,
        };
        let ghost grown = changed_members(old_map, seen.insert(name, value));
        let ghost shrunk = changed_members(old_map, seen);
        if same {
            proof {
                assert(grown =~= shrunk);
            }
        } else {
            let m = JsonMember {
                name: after[i].name.clone(),
                value: after[i].value.clone(),
            };
            proof {
                assert(grown =~= shrunk.insert(name, value));
                assert(out@.push(m).drop_last() =~= out@);
                assert forall|p: int, q: int| 0 <= p < q < out@.push(m).len() implies crate::text::text_before(
                    #[trigger] out@.push(m)[p].name@,
                    #[trigger] out@.push(m)[q].name@,
                ) by {
                    if q == out@.len() {
                        let j = choose|j: int|
                            0 <= j < i && out@[p].name@ == (#[trigger] after@[j]).name@;
                        assert(crate::text::text_before(after@[j].name@, after@[i as int].name@));
                    } else {
                        assert(crate::text::text_before(out@[p].name@, out@[q].name@));
                    }
                }
            }
            let ghost prior = out@;
            out.push(m);
            proof {
                assert forall|k: int| 0 <= k < out@.len() implies exists|j: int|
                    0 <= j < i + 1 && (#[trigger] out@[k]).name@ == (#[trigger] after@[j]).name@ by {
                    if k == prior.len() {
                        assert(out@[k].name@ == after@[i as int].name@);
                    } else {
                        assert(out@[k] == prior[k]);
                        let j = choose|j: int|
                            0 <= j < i && prior[k].name@ == (#[trigger] after@[j]).name@;
                        assert(out@[k].name@ == after@[j].name@);
                    }
                }
            }
        }
        i = i + 1;
    }
    proof {
        assert(after@.take(i as int) =~= after@);
    }
    out
}

/// The parameters that changed, by name, where both sides are objects and none was removed. In any
/// other case the chain has to be rebuilt.
pub fn changed_plugin_parameters(old_value: &JsonValue, new_value: &JsonValue) -> (r: Option<Vec<JsonMember>>)
    ensures
        match (old_value@, new_value@) {
            (Json::Object(before), Json::Object(after)) => if none_removed(before, after) {
                r matches Some(list) && names_ascend(list@) && members_of(list@) == changed_members(
                    before,
                    after,
                )
            } else {
                r is None
            },
            _ => r is None,
        },
{
    let sorted = sort_json_value(new_value);
    match (old_value, new_value) {
        (JsonValue::Object(before), JsonValue::Object(_)) => {
            match &sorted {
                JsonValue::Object(after) => {
                    if all_names_kept(before, after) {
                        Some(changed_list(before, after))
                    } else {
                        None
                    }
                },
                _ => {
                    proof {
                        assert(false);
                    }
                    None
                },
            }
        },
        _ => None,
    }
}

/// The view of a chain or an error.
pub open spec fn chain_outcome(r: Result<Vec<PluginConfig>, String>) -> Result<Seq<PluginModel>, Seq<char>> {
    match r {
        Ok(plugins) => Ok(plugin_models(plugins@)),
        Err(e) => Err(e@),
    }
}

/// The answer to a rack command while a graph is active.
pub open spec fn graph_active_text() -> Seq<char> {
    "A graph pipeline is active; edit and reload the graph artifact instead of using rack mutation commands."@
}

pub(crate) fn graph_active_message() -> (r: String)
    ensures
        r@ == graph_active_text(),
{
    "A graph pipeline is active; edit and reload the graph artifact instead of using rack mutation commands.".to_owned()
}

/// The complaint about a position beyond the chain.
pub open spec fn out_of_range_text(index: usize, count: nat) -> Seq<char> {
    "Plugin index "@ + decimal(index as nat) + " out of range (have "@ + decimal(count) + ")"@
}

pub(crate) fn out_of_range_message(index: usize, count: usize) -> (r: String)
    ensures
        r@ == out_of_range_text(index, count as nat),
{
    let at = decimal_text(index as u64);
    let have = decimal_text(count as u64);
    let text = join3("Plugin index ", at.as_str(), " out of range (have ");
    join3(text.as_str(), have.as_str(), ")")
}

/// The rack with a plugin added at a position, or at the end where the position is none of the
/// rack's.
pub open spec fn rack_with(s: StateModel, plugin: PluginModel, index: Option<usize>) -> Result<
    Seq<PluginModel>,
    Seq<char>,
> {
    let plugins = s.pipeline.desired.user_plugins;
    if s.pipeline.desired.user_graph is Some {
        Err(graph_active_text())
    } else if index is Some && index->0 <= plugins.len() {
        Ok(plugins.insert(index->0 as int, plugin))
    } else {
        Ok(plugins.push(plugin))
    }
}

/// The rack with a plugin added.
pub fn add_plugin(state: &SystemwideState, plugin: PluginConfig, index: Option<usize>) -> (r: Result<
    Vec<PluginConfig>,
    String,
>)
    ensures
        chain_outcome(r) == rack_with(state@, plugin@, index),
{
    if state.pipeline.desired.user_graph.is_some() {
        return Err(graph_active_message());
    }
    let mut plugins = state.user_plugins();
    let ghost before = plugins@;
    match index {
        Some(i) if i <= plugins.len() => {
            plugins.insert(i, plugin);
            proof {
                assert(plugin_models(plugins@) =~= plugin_models(before).insert(i as int, plugin@));
            }
        },
        _ => {
            plugins.push(plugin);
            proof {
                assert(plugin_models(plugins@) =~= plugin_models(before).push(plugin@));
            }
        },
    }
    Ok(plugins)
}

/// The rack without the plugin at a position.
pub open spec fn rack_without(s: StateModel, index: usize) -> Result<Seq<PluginModel>, Seq<char>> {
    let plugins = s.pipeline.desired.user_plugins;
    if s.pipeline.desired.user_graph is Some {
        Err(graph_active_text())
    } else if index >= plugins.len() {
        Err(out_of_range_text(index, plugins.len()))
    } else {
        Ok(plugins.remove(index as int))
    }
}

/// The rack without the plugin at a position.
pub fn remove_plugin(state: &SystemwideState, index: usize) -> (r: Result<Vec<PluginConfig>, String>)
    ensures
        chain_outcome(r) == rack_without(state@, index),
{
    if state.pipeline.desired.user_graph.is_some() {
        return Err(graph_active_message());
    }
    let mut plugins = state.user_plugins();
    let ghost before = plugins@;
    if index >= plugins.len() {
        return Err(out_of_range_message(index, plugins.len()));
    }
    plugins.remove(index);
    proof {
        assert(plugin_models(plugins@) =~= plugin_models(before).remove(index as int));
    }
    Ok(plugins)
}

/// Whether the position at `i` is beyond `n` or stands earlier in `order`.
pub open spec fn bad_position(order: Seq<usize>, n: nat, i: int) -> bool {
    order[i] >= n || order.take(i).contains(order[i])
}

/// The first place from `from` on that holds a bad position, or the length of `order`.
pub open spec fn first_bad_position(order: Seq<usize>, n: nat, from: int) -> int
    decreases order.len() - from,
{
    if from >= order.len() || bad_position(order, n, from) {
        from
    } else {
        first_bad_position(order, n, from + 1)
    }
}

/// The rack in another order. The order names the old positions.
pub open spec fn rack_reordered(s: StateModel, order: Seq<usize>) -> Result<Seq<PluginModel>, Seq<char>> {
    let plugins = s.pipeline.desired.user_plugins;
    let bad = first_bad_position(order, plugins.len(), 0);
    if s.pipeline.desired.user_graph is Some {
        Err(graph_active_text())
    } else if order.len() != plugins.len() {
        Err(
            "Order length "@ + decimal(order.len()) + " doesn't match plugin count "@ + decimal(
                plugins.len(),
            ),
        )
    } else if bad < order.len() {
        Err("Invalid order: duplicate or out-of-range index "@ + decimal(order[bad] as nat))
    } else {
        Ok(Seq::new(order.len(), |i: int| plugins[order[i] as int]))
    }
}

fn find_bad_position(order: &Vec<usize>, n: usize) -> (r: usize)
    ensures
        r == first_bad_position(order@, n as nat, 0),
        r <= order@.len(),
        forall|k: int| 0 <= k < r ==> (#[trigger] order@[k]) < n,
{
    let mut seen: Vec<bool> = Vec::new();
    let mut j: usize = 0;
    while j < n
        invariant
            j <= n,
            seen@.len() == j,
            forall|k: int| 0 <= k < j ==> !(#[trigger] seen@[k]),
        decreases n - j,
    {
        seen.push(false);
        j = j + 1;
    }
    let mut i: usize = 0;
    while i < order.len()
        invariant
            i <= order.len(),
            seen@.len() == n,
            first_bad_position(order@, n as nat, 0) == first_bad_position(order@, n as nat, i as int),
            forall|k: int| 0 <= k < i ==> (#[trigger] order@[k]) < n,
            forall|k: int| 0 <= k < n ==> #[trigger] seen@[k] == order@.take(i as int).contains(k as usize),
        decreases order.len() - i,
    {
        let at: usize = order[i];
        if at >= n || seen[at] {
            return i;
        }
        let ghost before = order@.take(i as int);
        seen.set(at, true);
        proof {
            let after = order@.take(i + 1);
            assert(after =~= before.push(at));
            assert forall|k: int| 0 <= k < n implies #[trigger] seen@[k] == after.contains(k as usize) by {
                if k == at {
                    assert(after[i as int] == at);
                } else {
                    if before.contains(k as usize) {
                        let m = choose|m: int| 0 <= m < before.len() && before[m] == k as usize;
                        assert(after[m] == k as usize);
                    }
                    if after.contains(k as usize) {
                        let m = choose|m: int| 0 <= m < after.len() && after[m] == k as usize;
                        assert(before[m] == k as usize);
                    }
                }
            }
        }
        i = i + 1;
    }
    i
}

/// The rack in another order.
pub fn reorder_plugins(state: &SystemwideState, order: &Vec<usize>) -> (r: Result<Vec<PluginConfig>, String>)
    ensures
        chain_outcome(r) == rack_reordered(state@, order@),
{
    if state.pipeline.desired.user_graph.is_some() {
        return Err(graph_active_message());
    }
    let plugins = state.user_plugins();
    let ghost models = plugin_models(plugins@);
    if order.len() != plugins.len() {
        let have = decimal_text(order.len() as u64);
        let want = decimal_text(plugins.len() as u64);
        let text = join3("Order length ", have.as_str(), " doesn't match plugin count ");
        return Err(join2(text.as_str(), want.as_str()));
    }
    let bad = find_bad_position(order, plugins.len());
    if bad < order.len() {
        let index = decimal_text(order[bad] as u64);
        return Err(
            join2("Invalid order: duplicate or out-of-range index ", index.as_str()),
        );
    }
    let mut out: Vec<PluginConfig> = Vec::new();
    let mut i: usize = 0;
    while i < order.len()
        invariant
            i <= order.len(),
            out@.len() == i,
            models == plugin_models(plugins@),
            forall|k: int| 0 <= k < order@.len() ==> (#[trigger] order@[k]) < plugins@.len(),
            forall|k: int| 0 <= k < i ==> (#[trigger] out@[k])@ == models[order@[k] as int],
        decreases order.len() - i,
    {
        out.push(plugins[order[i]].clone());
        i = i + 1;
    }
    proof {
        assert(plugin_models(out@) =~= Seq::new(order@.len(), |k: int| models[order@[k] as int]));
    }
    Ok(out)
}

proof fn lemma_positions_good(order: Seq<usize>, n: nat, from: int)
    requires
        0 <= from <= order.len(),
        first_bad_position(order, n, from) >= order.len(),
    ensures
        forall|k: int| from <= k < order.len() ==> !(#[trigger] bad_position(order, n, k)),
    decreases order.len() - from,
{
    if from < order.len() {
        lemma_positions_good(order, n, from + 1);
    }
}

/// Reordering keeps the plugins: the result holds the same plugins, each as often as before.
pub proof fn reordering_keeps_plugins(s: StateModel, order: Seq<usize>)
    requires
        rack_reordered(s, order) is Ok,
        order.len() <= usize::MAX,
    ensures
        rack_reordered(s, order)->Ok_0.to_multiset() == s.pipeline.desired.user_plugins.to_multiset(),
{
    let plugins = s.pipeline.desired.user_plugins;
    lemma_positions_good(order, plugins.len(), 0);
    assert forall|i: int, j: int| 0 <= i < order.len() && 0 <= j < order.len() && i != j implies order[i]
        != order[j] by {
        assert(!bad_position(order, plugins.len(), i) && !bad_position(order, plugins.len(), j));
        if order[i] == order[j] {
            if i < j {
                assert(order.take(j)[i] == order[j]);
            } else {
                assert(order.take(i)[j] == order[i]);
            }
        }
    }
    assert forall|i: int| 0 <= i < order.len() implies (#[trigger] order[i]) < plugins.len() by {
        assert(!bad_position(order, plugins.len(), i));
    }
    lemma_permuted(plugins, order);
}

/// Choosing every position once keeps the elements.
proof fn lemma_permuted(plugins: Seq<PluginModel>, order: Seq<usize>)
    requires
        order.len() == plugins.len() <= usize::MAX,
        order.no_duplicates(),
        forall|i: int| 0 <= i < order.len() ==> (#[trigger] order[i]) < plugins.len(),
    ensures
        Seq::new(order.len(), |i: int| plugins[order[i] as int]).to_multiset() == plugins.to_multiset(),
    decreases plugins.len(),
{
    let out = Seq::new(order.len(), |i: int| plugins[order[i] as int]);
    if plugins.len() == 0 {
        assert(out =~= plugins);
    } else {
        let last = (plugins.len() - 1) as usize;
        assert(order.contains(last)) by {
            lemma_position_present(order, plugins.len(), last);
        }
        let at = order.index_of(last);
        let rest = order.remove(at);
        let front = plugins.drop_last();
        assert forall|i: int| 0 <= i < rest.len() implies (#[trigger] rest[i]) < front.len() by {
            let p = if i < at { i } else { i + 1 };
            assert(rest[i] == order[p]);
            assert(order[p] != order[at]);
        }
        assert(rest.no_duplicates());
        lemma_permuted(front, rest);
        let inner = Seq::new(rest.len(), |i: int| front[rest[i] as int]);
        assert(out =~= inner.insert(at, plugins.last())) by {
            assert forall|i: int| 0 <= i < out.len() implies out[i] == inner.insert(at, plugins.last())[i] by {
                if i < at {
                    assert(rest[i] == order[i]);
                } else if i > at {
                    assert(rest[i - 1] == order[i]);
                }
            }
        }
        vstd::seq_lib::to_multiset_insert(inner, at, plugins.last());
        assert(plugins =~= front.push(plugins.last()));
        vstd::seq_lib::to_multiset_build(front, plugins.last());
    }
}

proof fn lemma_position_present(order: Seq<usize>, n: nat, x: usize)
    requires
        order.len() == n,
        order.no_duplicates(),
        forall|i: int| 0 <= i < order.len() ==> (#[trigger] order[i]) < n,
        x < n,
    ensures
        order.contains(x),
{
    if !order.contains(x) {
        let all = Set::new(|u: usize| u < n);
        let bounds = vstd::set_lib::set_int_range(0, n as int);
        let present = order.to_set();
        let lifted = present.map(|u: usize| u as int);
        order.unique_seq_to_set();
        assert(vstd::relations::injective_on(|u: usize| u as int, present)) by {
            assert forall|a: usize, b: usize|
                present.contains(a) && present.contains(b) && (a as int) == (b as int) implies a == b by {}
        }
        vstd::set_lib::lemma_map_size(present, lifted, |u: usize| u as int);
        vstd::set_lib::lemma_int_range(0, n as int);
        assert(lifted.subset_of(bounds.remove(x as int))) by {
            assert forall|y: int| lifted.contains(y) implies bounds.remove(x as int).contains(y) by {
                let u = choose|u: usize| present.contains(u) && (u as int) == y;
                let k = choose|k: int| 0 <= k < order.len() && order[k] == u;
                assert(order[k] < n);
                assert(order.contains(u));
            }
        }
        vstd::set_lib::lemma_len_subset(lifted, bounds.remove(x as int));
    }
}

/// A plugin that is added stands at its place, or at the end where no usable place is given, and every
/// other plugin keeps its order. Taking it out again gives the rack that was there before.
pub proof fn added_plugins_stand_at_their_place(s: StateModel, plugin: PluginModel, index: Option<usize>)
    requires
        s.pipeline.desired.user_graph is None,
    ensures
        ({
            let before = s.pipeline.desired.user_plugins;
            let at = if index is Some && index->0 <= before.len() { index->0 as int } else { before.len() as int };
            &&& rack_with(s, plugin, index) is Ok
            &&& {
                let after = rack_with(s, plugin, index)->Ok_0;
                &&& after.len() == before.len() + 1
                &&& after[at] == plugin
                &&& forall|i: int| 0 <= i < at ==> #[trigger] after[i] == before[i]
                &&& forall|i: int| at <= i < before.len() ==> after[i + 1] == #[trigger] before[i]
                &&& after.remove(at) == before
            }
        }),
{
    let before = s.pipeline.desired.user_plugins;
    let at = if index is Some && index->0 <= before.len() { index->0 as int } else { before.len() as int };
    assert(rack_with(s, plugin, index)->Ok_0.remove(at) =~= before);
}

/// Taking a plugin out leaves every other one in its order, and is refused exactly where there is none
/// at that place.
pub proof fn removal_takes_one_plugin(s: StateModel, index: usize)
    requires
        s.pipeline.desired.user_graph is None,
    ensures
        ({
            let before = s.pipeline.desired.user_plugins;
            &&& rack_without(s, index) is Ok <==> index < before.len()
            &&& rack_without(s, index) matches Ok(after) ==> {
                &&& after.len() == before.len() - 1
                &&& after.insert(index as int, before[index as int]) == before
            }
        }),
{
    let before = s.pipeline.desired.user_plugins;
    if index < before.len() {
        assert(before.remove(index as int).insert(index as int, before[index as int]) =~= before);
    }
}

/// Reordering puts at each place the plugin that the order names for it. It is refused exactly where
/// the order does not name every plugin once.
pub proof fn orders_name_what_comes_where(s: StateModel, order: Seq<usize>)
    requires
        s.pipeline.desired.user_graph is None,
    ensures
        ({
            let before = s.pipeline.desired.user_plugins;
            let fits = order.len() == before.len() && order.no_duplicates() && forall|i: int|
                0 <= i < order.len() ==> #[trigger] order[i] < before.len();
            &&& rack_reordered(s, order) is Ok <==> fits
            &&& rack_reordered(s, order) matches Ok(after) ==> {
                &&& after.len() == before.len()
                &&& forall|i: int|
                    0 <= i < order.len() ==> #[trigger] after[i] == before[order[i] as int]
            }
        }),
{
    let before = s.pipeline.desired.user_plugins;
    lemma_first_bad(order, before.len(), 0);
    let bad = first_bad_position(order, before.len(), 0);
    if bad < order.len() {
        if order[bad] < before.len() {
            let j = choose|j: int| 0 <= j < bad && order.take(bad)[j] == order[bad];
            assert(order[j] == order[bad]);
        }
    } else {
        assert forall|i: int, j: int| 0 <= i < order.len() && 0 <= j < order.len() && i != j implies order[i]
            != order[j] by {
            let (low, high) = if i < j { (i, j) } else { (j, i) };
            assert(!bad_position(order, before.len(), high));
            assert(order.take(high)[low] == order[low]);
        }
        assert forall|i: int| 0 <= i < order.len() implies #[trigger] order[i] < before.len() by {
            assert(!bad_position(order, before.len(), i));
        }
    }
}

proof fn lemma_first_bad(order: Seq<usize>, n: nat, from: int)
    requires
        0 <= from <= order.len(),
    ensures
        ({
            let bad = first_bad_position(order, n, from);
            &&& from <= bad <= order.len()
            &&& bad < order.len() ==> bad_position(order, n, bad)
            &&& forall|i: int| from <= i < bad ==> !#[trigger] bad_position(order, n, i)
        }),
    decreases order.len() - from,
{
    if from < order.len() && !bad_position(order, n, from) {
        lemma_first_bad(order, n, from + 1);
    }
}

/// No rack command changes a graph: each is refused while one is active.
pub proof fn graphs_refuse_rack_commands(s: StateModel, plugin: PluginModel, index: Option<usize>, at: usize, order: Seq<usize>)
    requires
        s.pipeline.desired.user_graph is Some,
    ensures
        rack_with(s, plugin, index) is Err,
        rack_without(s, at) is Err,
        rack_reordered(s, order) is Err,
{
}

/// Applying the changed parameters over the old ones gives the new ones, where none was dropped; a
/// parameter that is alike is not among them.
pub proof fn changes_lead_to_the_new_parameters(before: Map<Seq<char>, Json>, after: Map<Seq<char>, Json>)
    requires
        none_removed(before, after),
    ensures
        ({
            let merged = before.union_prefer_right(changed_members(before, after));
            forall|k: Seq<char>| #[trigger]
                after.dom().contains(k) ==> merged.dom().contains(k) && (merged[k] == after[k]
                    || same_json(merged[k], after[k]))
        }),
        forall|k: Seq<char>|
            #[trigger] changed_members(before, after).dom().contains(k) ==> after.dom().contains(k)
                && changed_members(before, after)[k] == after[k] && !(before.dom().contains(k)
                && same_json(before[k], after[k])),
        forall|k: Seq<char>| #[trigger] before.dom().contains(k) ==> after.dom().contains(k),
{
}

/// A text parameter reaches the engine as its text, without quotes.
pub proof fn texts_reach_the_engine_bare(text: Seq<char>)
    ensures
        parameter_text(Json::Text(text)) == text,
        parameter_text(Json::Null) == compact_text(Json::Null),
        forall|b: bool| #[trigger] parameter_text(Json::Bool(b)) == compact_text(Json::Bool(b)),
        forall|n: crate::json::JsonNum|
            #[trigger] parameter_text(Json::Number(n)) == compact_text(Json::Number(n)),
{
}

} // verus!
