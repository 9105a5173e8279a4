//! Plugin artifacts: telling racks from graphs, and what is loaded for each.

use crate::driver::DriverStatus;
use crate::graph::{accepts_graphs, answer_of, graph_outcome, validates};
use crate::graph_meter::{
    find_system_node, first_system_node, system_node_message, system_node_text,
};
use crate::ipc::{conflict_text, refuse_outdated};
use crate::json::{
    find_last, json_complaint, json_of, lemma_last_named, list_of, members_of, parse_json,
    parsed_json, Json, JsonMember, JsonValue,
};
use crate::output_device::{copy_opt_text, opt_text};
use crate::plugins::{
    is_system_plugin_type, is_system_type, plugin_models, GraphModel, NodeModel, PluginConfig,
    PluginGraphConfig, PluginModel,
};
use crate::response::{err_response, Response, ResponseModel};
use crate::state::{StateModel, SystemwideState};
use crate::text::{decimal, decimal_text, join2, join3};
use vstd::prelude::*;

verus! {

/// What an artifact holds.
#[derive(Debug)]
pub enum PluginArtifactPlan {
    RackChain { plugins: Vec<PluginConfig> },
    Graph { graph: PluginGraphConfig },
    UnsupportedGraph { reason: String },
}

/// What a `PluginArtifactPlan` stands for.
pub enum ArtifactModel {
    RackChain(Seq<PluginModel>),
    Graph(GraphModel),
    UnsupportedGraph(Seq<char>),
}

impl View for PluginArtifactPlan {
    type V = ArtifactModel;

    open spec fn view(&self) -> ArtifactModel {
        match *self {
            PluginArtifactPlan::RackChain { plugins } => ArtifactModel::RackChain(plugin_models(plugins@)),
            PluginArtifactPlan::Graph { graph } => ArtifactModel::Graph(graph@),
            PluginArtifactPlan::UnsupportedGraph { reason } => ArtifactModel::UnsupportedGraph(reason@),
        }
    }
}

/// The view of what an artifact holds or of an error.
pub open spec fn artifact_of(r: Result<PluginArtifactPlan, String>) -> Result<ArtifactModel, Seq<char>> {
    match r {
        Ok(plan) => Ok(plan@),
        Err(e) => Err(e@),
    }
}

/// Whether `answer` is one that decoding may give for a value.
pub open spec fn decodes<D: Fn(JsonValue) -> Result<PluginGraphConfig, String>>(
    decode: D,
    value: Json,
    answer: Result<GraphModel, Seq<char>>,
) -> bool {
    exists|given: JsonValue, out: Result<PluginGraphConfig, String>|
        given@ == value && #[trigger] call_ensures(decode, (given,), out) && graph_outcome(out) == answer
}

/// Whether any value can be given to decoding.
pub open spec fn accepts_values<D: Fn(JsonValue) -> Result<PluginGraphConfig, String>>(decode: D) -> bool {
    forall|value: JsonValue| #[trigger] call_requires(decode, (value,))
}

/// A plugin entry without the member that named its type.
pub open spec fn entry_rest(entry: Map<Seq<char>, Json>) -> Map<Seq<char>, Json> {
    if entry.dom().contains("plugin_type"@) {
        entry.remove("plugin_type"@)
    } else {
        entry.remove("type"@)
    }
}

/// The member of a plugin entry that names its type.
pub open spec fn entry_type(entry: Map<Seq<char>, Json>) -> Option<Json> {
    if entry.dom().contains("plugin_type"@) {
        Some(entry["plugin_type"@])
    } else if entry.dom().contains("type"@) {
        Some(entry["type"@])
    } else {
        None
    }
}

/// The plugin of an entry: none where the daemon supplies it, and the parameters under their own
/// name or, without one, the rest of the entry.
pub open spec fn plugin_entry(item: Json) -> Result<Option<PluginModel>, Seq<char>> {
    match item {
        Json::Object(entry) => match entry_type(entry) {
            Some(Json::Text(plugin_type)) => if is_system_type(plugin_type) {
                Ok(None)
            } else {
                let rest = entry_rest(entry);
                Ok(
                    Some(
                        PluginModel {
                            plugin_type,
                            parameters: if rest.dom().contains("parameters"@) {
                                rest["parameters"@]
                            } else {
                                Json::Object(rest)
                            },
                        },
                    ),
                )
            },
            _ => Err("plugin entry is missing plugin_type/type"@),
        },
        _ => Err("plugin entries must be objects"@),
    }
}

/// The plugins of some entries, or the first complaint.
pub open spec fn plugin_entries(items: Seq<Json>) -> Result<Seq<PluginModel>, Seq<char>>
    decreases items.len(),
{
    if items.len() == 0 {
        Ok(Seq::empty())
    } else {
        match plugin_entries(items.drop_last()) {
            Err(e) => Err(e),
            Ok(front) => match plugin_entry(items.last()) {
                Err(e) => Err(e),
                Ok(None) => Ok(front),
                Ok(Some(plugin)) => Ok(front.push(plugin)),
            },
        }
    }
}

/// The rack of some entries. A rack has at least one plugin of the user's.
pub open spec fn rack_chain(items: Seq<Json>) -> Result<ArtifactModel, Seq<char>> {
    match plugin_entries(items) {
        Err(e) => Err(e),
        Ok(plugins) => if plugins.len() == 0 {
            Err("rack-compatible artifact did not contain any user plugins"@)
        } else {
            Ok(ArtifactModel::RackChain(plugins))
        },
    }
}

/// The rack of a member that must be a list.
pub open spec fn rack_member(value: Json, field: Seq<char>) -> Result<ArtifactModel, Seq<char>> {
    match value {
        Json::List(items) => rack_chain(items),
        _ => Err(field + " must be an array"@),
    }
}

/// A graph that was decoded and found valid, or why it is not loaded.
pub open spec fn user_graph(g: GraphModel) -> Result<ArtifactModel, Seq<char>> {
    let system = first_system_node(g.nodes, 0);
    if g.nodes.len() == 0 {
        Err("plugin graph must contain at least one node"@)
    } else if system < g.nodes.len() {
        Err(system_node_text("plugin graph node "@, g.nodes[system]))
    } else {
        Ok(ArtifactModel::Graph(g))
    }
}

/// What validating a decoded graph may lead to.
pub open spec fn valid_graph_outcome<F: Fn(&PluginGraphConfig) -> Result<(), String>>(
    validate: F,
    g: GraphModel,
    out: Result<ArtifactModel, Seq<char>>,
) -> bool {
    exists|answer: Result<(), Seq<char>>|
        (#[trigger] validates(validate, g, answer)) && match answer {
            Err(e) => out == Err::<ArtifactModel, Seq<char>>("invalid plugin graph: "@ + e),
            Ok(_) => out == user_graph(g),
        }
}

/// What a graph value may lead to.
pub open spec fn graph_value_outcome<
    D: Fn(JsonValue) -> Result<PluginGraphConfig, String>,
    F: Fn(&PluginGraphConfig) -> Result<(), String>,
>(decode: D, validate: F, value: Json, out: Result<ArtifactModel, Seq<char>>) -> bool {
    exists|decoded: Result<GraphModel, Seq<char>>|
        (#[trigger] decodes(decode, value, decoded)) && match decoded {
            Err(e) => out == Err::<ArtifactModel, Seq<char>>("invalid plugin graph: "@ + e),
            Ok(g) => valid_graph_outcome(validate, g, out),
        }
}

/// What an artifact that is an object holds where it is no graph of the engine's.
pub open spec fn object_artifact(object: Map<Seq<char>, Json>) -> Result<ArtifactModel, Seq<char>> {
    if object.dom().contains("routes"@) || object.dom().contains("routing"@) || object.dom().contains(
        "buses"@,
    ) {
        Ok(
            ArtifactModel::UnsupportedGraph(
                "artifact uses a graph representation without engine nodes/edges"@,
            ),
        )
    } else if object.dom().contains("channels"@) {
        Ok(ArtifactModel::UnsupportedGraph("artifact contains per-channel plugin topology"@))
    } else if object.dom().contains("plugins"@) {
        rack_member(object["plugins"@], "plugins"@)
    } else if object.dom().contains("global_plugins"@) {
        rack_member(object["global_plugins"@], "global_plugins"@)
    } else {
        Err("plugin artifact must be an array or contain a plugins/global_plugins array"@)
    }
}

/// What an artifact may come to.
pub open spec fn artifact_outcome<
    D: Fn(JsonValue) -> Result<PluginGraphConfig, String>,
    F: Fn(&PluginGraphConfig) -> Result<(), String>,
>(decode: D, validate: F, artifact: Json, out: Result<ArtifactModel, Seq<char>>) -> bool {
    match artifact {
        Json::List(items) => out == rack_chain(items),
        Json::Object(object) => if object.dom().contains("graph"@) {
            graph_value_outcome(decode, validate, object["graph"@], out)
        } else if object.dom().contains("nodes"@) || object.dom().contains("edges"@) {
            graph_value_outcome(decode, validate, artifact, out)
        } else {
            out == object_artifact(object)
        },
        _ => out == Err::<ArtifactModel, Seq<char>>("plugin artifact must be an array or object"@),
    }
}

fn has_member(members: &Vec<JsonMember>, name: &str) -> (r: bool)
    ensures
        r == members_of(members@).dom().contains(name@),
{
    proof {
        lemma_last_named(members@, name@);
    }
    find_last(members, name).is_some()
}

fn member_value(members: &Vec<JsonMember>, name: &str) -> (r: Option<JsonValue>)
    ensures
        match r {
            Some(value) => members_of(members@).dom().contains(name@) && value@ == members_of(
                members@,
            )[name@],
            None => !members_of(members@).dom().contains(name@),
        },
{
    proof {
        lemma_last_named(members@, name@);
    }
    match find_last(members, name) {
        Some(at) => Some(members[at].value.clone()),
        None => None,
    }
}

fn without_member(members: &Vec<JsonMember>, name: &str) -> (r: Vec<JsonMember>)
    ensures
        members_of(r@) == members_of(members@).remove(name@),
{
    let mut out: Vec<JsonMember> = Vec::new();
    let mut i: usize = 0;
    proof {
        assert(members@.take(0) =~= Seq::<JsonMember>::empty());
        assert(Map::<Seq<char>, Json>::empty().remove(name@) =~= Map::<Seq<char>, Json>::empty());
    }
    while i < members.len()
        invariant
            i <= members.len(),
            members_of(out@) == members_of(members@.take(i as int)).remove(name@),
        decreases members.len() - i,
    {
        let ghost before = members_of(members@.take(i as int));
        let ghost key = members@[i as int].name@;
        let ghost value = json_of(members@[i as int].value);
        proof {
            assert(members@.take(i + 1).drop_last() =~= members@.take(i as int));
        }
        if crate::text::same_text(members[i].name.as_str(), name) {
            proof {
                assert(before.insert(key, value).remove(name@) =~= before.remove(name@));
            }
        } else {
            let kept = JsonMember {
                name: members[i].name.clone(),
                value: members[i].value.clone(),
            };
            proof {
                assert(out@.push(kept).drop_last() =~= out@);
                assert(before.insert(key, value).remove(name@) =~= before.remove(name@).insert(
                    key,
                    value,
                ));
            }
            out.push(kept);
        }
        i = i + 1;
    }
    proof {
        assert(members@.take(i as int) =~= members@);
    }
    out
}

/// The view of an entry's plugin or of an error.
pub open spec fn entry_outcome(r: Result<Option<PluginConfig>, String>) -> Result<
    Option<PluginModel>,
    Seq<char>,
> {
    match r {
        Ok(Some(plugin)) => Ok(Some(plugin@)),
        Ok(None) => Ok(None),
        Err(e) => Err(e@),
    }
}

fn parse_plugin_entry(item: &JsonValue) -> (r: Result<Option<PluginConfig>, String>)
    ensures
        entry_outcome(r) == plugin_entry(item@),
{
    let entry = match item {
        JsonValue::Object(entry) => entry,
        _ => {
            return Err("plugin entries must be objects".to_owned());
        },
    };
    let by_plugin_type = has_member(entry, "plugin_type");
    let named = if by_plugin_type {
        member_value(entry, "plugin_type")
    } else {
        member_value(entry, "type")
    };
    let plugin_type = match named {
        Some(JsonValue::Text(text)) => text,
        _ => {
            return Err("plugin entry is missing plugin_type/type".to_owned());
        },
    };
    if is_system_plugin_type(plugin_type.as_str()) {
        return Ok(None);
    }
    let rest = if by_plugin_type {
        without_member(entry, "plugin_type")
    } else {
        without_member(entry, "type")
    };
    let parameters = match member_value(&rest, "parameters") {
        Some(parameters) => parameters,
        None => JsonValue::Object(rest),
    };
    Ok(Some(PluginConfig { plugin_type, parameters }))
}

proof fn lemma_entries_fail_early(items: Seq<Json>, n: int)
    requires
        0 <= n <= items.len(),
        plugin_entries(items.take(n)) is Err,
    ensures
        plugin_entries(items) == plugin_entries(items.take(n)),
    decreases items.len() - n,
{
    if n < items.len() {
        assert(items.take(n + 1).drop_last() =~= items.take(n));
        lemma_entries_fail_early(items, n + 1);
    } else {
        assert(items.take(n) =~= items);
    }
}

fn parse_rack_chain(items: &Vec<JsonValue>) -> (r: Result<PluginArtifactPlan, String>)
    ensures
        artifact_of(r) == rack_chain(list_of(items@)),
{
    let ghost models = list_of(items@);
    let mut plugins: Vec<PluginConfig> = Vec::new();
    let mut i: usize = 0;
    proof {
        assert(models.take(0) =~= Seq::<Json>::empty());
        assert(plugin_models(plugins@) =~= Seq::<PluginModel>::empty());
    }
    while i < items.len()
        invariant
            i <= items.len(),
            models == list_of(items@),
            plugin_entries(models.take(i as int)) == Ok::<Seq<PluginModel>, Seq<char>>(
                plugin_models(plugins@),
            ),
        decreases items.len() - i,
    {
        proof {
            assert(models.take(i + 1).drop_last() =~= models.take(i as int));
            assert(models.take(i + 1).last() == items@[i as int]@);
        }
        match parse_plugin_entry(&items[i]) {
            Err(error) => {
                proof {
                    lemma_entries_fail_early(models, i + 1);
                }
                return Err(error);
            },
            Ok(None) => {},
            Ok(Some(plugin)) => {
                let ghost before = plugins@;
                plugins.push(plugin);
                proof {
                    assert(plugin_models(plugins@) =~= plugin_models(before).push(plugin@));
                }
            },
        }
        i = i + 1;
    }
    proof {
        assert(models.take(i as int) =~= models);
        assert(plugin_models(plugins@).len() == plugins@.len());
    }
    if plugins.len() == 0 {
        return Err("rack-compatible artifact did not contain any user plugins".to_owned());
    }
    Ok(PluginArtifactPlan::RackChain { plugins })
}

fn parse_plugin_array_value(value: &JsonValue, field: &str) -> (r: Result<PluginArtifactPlan, String>)
    ensures
        artifact_of(r) == rack_member(value@, field@),
{
    match value {
        JsonValue::List(items) => parse_rack_chain(items),
        _ => Err(join2(field, " must be an array")),
    }
}

fn parse_graph_value<
    D: Fn(JsonValue) -> Result<PluginGraphConfig, String>,
    F: Fn(&PluginGraphConfig) -> Result<(), String>,
>(value: JsonValue, decode: &D, validate: &F) -> (r: Result<PluginArtifactPlan, String>)
    requires
        accepts_values(*decode),
        accepts_graphs(*validate),
    ensures
        graph_value_outcome(*decode, *validate, value@, artifact_of(r)),
{
    let ghost given = value@;
    let ghost handed = value;
    let decoded = decode(value);
    let ghost answer = graph_outcome(decoded);
    proof {
        assert(call_ensures(*decode, (handed,), decoded));
        assert(decodes(*decode, given, answer));
    }
    let graph = match decoded {
        Err(error) => {
            return Err(join2("invalid plugin graph: ", error.as_str()));
        },
        Ok(graph) => graph,
    };
    let ghost model = graph@;
    let valid = validate(&graph);
    proof {
        assert(call_ensures(*validate, (&graph,), valid));
        assert(validates(*validate, model, answer_of(valid)));
    }
    let r = match valid {
        Err(error) => Err(join2("invalid plugin graph: ", error.as_str())),
        Ok(_) => {
            if graph.nodes.len() == 0 {
                Err("plugin graph must contain at least one node".to_owned())
            } else {
                let system = find_system_node(&graph.nodes);
                if system < graph.nodes.len() {
                    Err(system_node_message("plugin graph node ", &graph.nodes[system]))
                } else {
                    Ok(PluginArtifactPlan::Graph { graph })
                }
            }
        },
    };
    proof {
        assert(valid_graph_outcome(*validate, model, artifact_of(r)));
    }
    r
}

fn plan_object(object: &Vec<JsonMember>) -> (r: Result<PluginArtifactPlan, String>)
    ensures
        artifact_of(r) == object_artifact(members_of(object@)),
{
    if has_member(object, "routes") || has_member(object, "routing") || has_member(object, "buses") {
        return Ok(
            PluginArtifactPlan::UnsupportedGraph {
                reason: "artifact uses a graph representation without engine nodes/edges".to_owned(),
            },
        );
    }
    if has_member(object, "channels") {
        return Ok(
            PluginArtifactPlan::UnsupportedGraph {
                reason: "artifact contains per-channel plugin topology".to_owned(),
            },
        );
    }
    if let Some(plugins) = member_value(object, "plugins") {
        return parse_plugin_array_value(&plugins, "plugins");
    }
    if let Some(plugins) = member_value(object, "global_plugins") {
        return parse_plugin_array_value(&plugins, "global_plugins");
    }
    Err("plugin artifact must be an array or contain a plugins/global_plugins array".to_owned())
}

/// What an artifact holds. `decode` reads a graph from a value and `validate` is the engine's
/// judgement of it.
pub fn plan_plugin_artifact<
    D: Fn(JsonValue) -> Result<PluginGraphConfig, String>,
    F: Fn(&PluginGraphConfig) -> Result<(), String>,
>(artifact: JsonValue, decode: &D, validate: &F) -> (r: Result<PluginArtifactPlan, String>)
    requires
        accepts_values(*decode),
        accepts_graphs(*validate),
    ensures
        artifact_outcome(*decode, *validate, artifact@, artifact_of(r)),
{
    match &artifact {
        JsonValue::List(items) => parse_rack_chain(items),
        JsonValue::Object(object) => {
            if let Some(graph) = member_value(object, "graph") {
                return parse_graph_value(graph, decode, validate);
            }
            if has_member(object, "nodes") || has_member(object, "edges") {
                return parse_graph_value(artifact.clone(), decode, validate);
            }
            plan_object(object)
        },
        _ => Err("plugin artifact must be an array or object".to_owned()),
    }
}

/// What an artifact file holds.
#[derive(Debug)]
pub struct PluginArtifactFilePlan {
    pub plan: PluginArtifactPlan,
    pub required_channels: Option<usize>,
}

/// The largest artifact file that is read.
pub const MAX_PLUGIN_ARTIFACT_FILE_BYTES: u64 = 67108864;

/// Why an artifact file is not read, or that it is.
pub open spec fn file_refusal(shown: Seq<char>, is_file: bool, len: u64) -> Option<Seq<char>> {
    if !is_file {
        Some("configuration '"@ + shown + "' is not a regular file"@)
    } else if len > MAX_PLUGIN_ARTIFACT_FILE_BYTES {
        Some(
            "configuration is too large ("@ + decimal((len / 1048576) as nat) + " MiB; maximum is "@
                + decimal((MAX_PLUGIN_ARTIFACT_FILE_BYTES / 1048576) as nat) + " MiB)"@,
        )
    } else {
        None
    }
}

/// Why an artifact file is not read.
pub fn refuse_artifact_file(shown_path: &str, is_file: bool, len: u64) -> (r: Option<String>)
    ensures
        opt_text(r) == file_refusal(shown_path@, is_file, len),
{
    if !is_file {
        return Some(join3("configuration '", shown_path, "' is not a regular file"));
    }
    if len > MAX_PLUGIN_ARTIFACT_FILE_BYTES {
        let have = decimal_text(len / 1048576);
        let most = decimal_text(MAX_PLUGIN_ARTIFACT_FILE_BYTES / 1048576);
        let head = join3("configuration is too large (", have.as_str(), " MiB; maximum is ");
        return Some(join3(head.as_str(), most.as_str(), " MiB)"));
    }
    None
}

/// The sample rate that an artifact file is planned for: the driver's, where it reports one.
pub fn artifact_sample_rate(status: &DriverStatus) -> (r: u32)
    ensures
        r == if status.sample_rate > 0 {
            status.sample_rate
        } else {
            48_000
        },
{
    if status.sample_rate > 0 {
        status.sample_rate
    } else {
        48_000
    }
}

/// The largest input channel count of some nodes, where there is one.
pub open spec fn widest(nodes: Seq<NodeModel>) -> Option<usize>
    decreases nodes.len(),
{
    if nodes.len() == 0 {
        None
    } else {
        let front = widest(nodes.drop_last());
        if front is Some && front->0 >= nodes.last().input_channels {
            front
        } else {
            Some(nodes.last().input_channels)
        }
    }
}

/// The plan of a room correction: its graph, and the channels that the graph needs.
pub fn room_eq_plan(graph: PluginGraphConfig, output_channels: usize) -> (r: PluginArtifactFilePlan)
    ensures
        r.plan@ == ArtifactModel::Graph(graph@),
        r.required_channels == Some(
            match widest(graph@.nodes) {
                Some(channels) => channels,
                None => output_channels,
            },
        ),
{
    let mut best: Option<usize> = None;
    let ghost nodes = graph@.nodes;
    let mut i: usize = 0;
    while i < graph.nodes.len()
        invariant
            i <= graph.nodes.len(),
            nodes == graph@.nodes,
            best == widest(nodes.take(i as int)),
        decreases graph.nodes.len() - i,
    {
        proof {
            assert(nodes.take(i + 1).drop_last() =~= nodes.take(i as int));
            assert(nodes.take(i + 1).last() == graph.nodes@[i as int]@);
        }
        let channels: usize = graph.nodes[i].input_channels;
        let wider = match best {
            Some(most) => channels > most,
            None => true,
        };
        if wider {
            best = Some(channels);
        }
        i = i + 1;
    }
    proof {
        assert(nodes.take(i as int) =~= nodes);
    }
    let required: usize = match best {
        Some(channels) => channels,
        None => output_channels,
    };
    PluginArtifactFilePlan {
        plan: PluginArtifactPlan::Graph { graph },
        required_channels: Some(required),
    }
}

/// The room correction that a file may hold: its graph and how many channels it has, or why the
/// graph cannot be built.
pub open spec fn room_eq_outcome(
    room_eq: Result<(PluginGraphConfig, usize), String>,
    out: Result<PluginArtifactFilePlan, String>,
) -> bool {
    match (room_eq, out) {
        (Ok((graph, channels)), Ok(plan)) => plan.plan@ == ArtifactModel::Graph(graph@)
            && plan.required_channels == Some(
            match widest(graph@.nodes) {
                Some(most) => most,
                None => channels,
            },
        ),
        (Err(e), Err(text)) => text@ == "invalid RoomEQ configuration: "@ + e@,
        _ => false,
    }
}

/// The artifact of a file's plan.
pub open spec fn file_artifact_of(out: Result<PluginArtifactFilePlan, String>) -> Result<ArtifactModel, Seq<char>> {
    match out {
        Ok(plan) => Ok(plan.plan@),
        Err(e) => Err(e@),
    }
}

/// Plans the artifact that the text of a file holds. A room correction comes first, where the text
/// holds one; any other text is read as JSON.
pub fn plan_plugin_artifact_text<
    D: Fn(JsonValue) -> Result<PluginGraphConfig, String>,
    F: Fn(&PluginGraphConfig) -> Result<(), String>,
>(
    text: &str,
    room_eq: Option<Result<(PluginGraphConfig, usize), String>>,
    decode: &D,
    validate: &F,
) -> (r: Result<PluginArtifactFilePlan, String>)
    requires
        accepts_values(*decode),
        accepts_graphs(*validate),
    ensures
        match room_eq {
            Some(found) => room_eq_outcome(found, r),
            None => match parsed_json(text@) {
                Some(artifact) => artifact_outcome(*decode, *validate, artifact, file_artifact_of(r))
                    && (r is Ok ==> r->Ok_0.required_channels is None),
                None => r is Err && r->Err_0@ == "invalid JSON configuration: "@ + json_complaint(
                    text@,
                ),
            },
        },
{
    match room_eq {
        Some(Ok((graph, channels))) => Ok(room_eq_plan(graph, channels)),
        Some(Err(error)) => Err(join2("invalid RoomEQ configuration: ", error.as_str())),
        None => match parse_json(text) {
            Err(complaint) => Err(join2("invalid JSON configuration: ", complaint.as_str())),
            Ok(artifact) => match plan_plugin_artifact(artifact, decode, validate) {
                Ok(plan) => Ok(PluginArtifactFilePlan { plan, required_channels: None }),
                Err(error) => Err(error),
            },
        },
    }
}

/// What is loaded for an artifact.
#[derive(Debug)]
pub enum ArtifactIntent {
    LoadChain { plugins: Vec<PluginConfig>, input_channels: usize, output_channels: usize },
    LoadGraph { graph: PluginGraphConfig, input_channels: usize, output_channels: usize },
    Refuse(Response),
}

/// What an `ArtifactIntent` stands for.
pub enum IntentModel {
    LoadChain { plugins: Seq<PluginModel>, input_channels: usize, output_channels: usize },
    LoadGraph { graph: GraphModel, input_channels: usize, output_channels: usize },
    Refuse(ResponseModel),
}

impl View for ArtifactIntent {
    type V = IntentModel;

    open spec fn view(&self) -> IntentModel {
        match *self {
            ArtifactIntent::LoadChain { plugins, input_channels, output_channels } => IntentModel::LoadChain {
                plugins: plugin_models(plugins@),
                input_channels,
                output_channels,
            },
            ArtifactIntent::LoadGraph { graph, input_channels, output_channels } => IntentModel::LoadGraph {
                graph: graph@,
                input_channels,
                output_channels,
            },
            ArtifactIntent::Refuse(response) => IntentModel::Refuse(response@),
        }
    }
}

/// What is loaded for an artifact: a rack or a graph with the channels of the desired pipeline, or,
/// where a graph needs channels of its own, with those.
pub open spec fn artifact_intent(
    s: StateModel,
    planned: Result<ArtifactModel, Seq<char>>,
    required: Option<usize>,
    place: Seq<char>,
) -> IntentModel {
    let desired = s.pipeline.desired;
    match planned {
        Err(e) => IntentModel::Refuse(err_response("Invalid plugin artifact: "@ + e)),
        Ok(ArtifactModel::RackChain(plugins)) => IntentModel::LoadChain {
            plugins,
            input_channels: desired.input_channels,
            output_channels: desired.output_channels,
        },
        Ok(ArtifactModel::Graph(graph)) => IntentModel::LoadGraph {
            graph,
            input_channels: if required is Some { required->0 } else { desired.input_channels },
            output_channels: if required is Some { required->0 } else { desired.output_channels },
        },
        Ok(ArtifactModel::UnsupportedGraph(reason)) => IntentModel::Refuse(
            err_response(
                "Unsupported graph plugin artifact: "@ + reason
                    + ". Use a graph-aware loader instead of flattening it into "@ + place + "."@,
            ),
        ),
    }
}

fn intend(
    state: &SystemwideState,
    planned: Result<PluginArtifactPlan, String>,
    required: Option<usize>,
    place: &str,
) -> (r: ArtifactIntent)
    ensures
        r@ == artifact_intent(state@, artifact_of(planned), required, place@),
{
    match planned {
        Err(error) => ArtifactIntent::Refuse(
            Response::err(join2("Invalid plugin artifact: ", error.as_str())),
        ),
        Ok(PluginArtifactPlan::RackChain { plugins }) => ArtifactIntent::LoadChain {
            plugins,
            input_channels: state.input_channels(),
            output_channels: state.output_channels(),
        },
        Ok(PluginArtifactPlan::Graph { graph }) => {
            let (inputs, outputs) = match required {
                Some(channels) => (channels, channels),
                None => (state.input_channels(), state.output_channels()),
            };
            ArtifactIntent::LoadGraph { graph, input_channels: inputs, output_channels: outputs }
        },
        Ok(PluginArtifactPlan::UnsupportedGraph { reason }) => {
            let head = join3(
                "Unsupported graph plugin artifact: ",
                reason.as_str(),
                ". Use a graph-aware loader instead of flattening it into ",
            );
            ArtifactIntent::Refuse(Response::err(join3(head.as_str(), place, ".")))
        },
    }
}

/// The refusal of an artifact that was edited against an outdated pipeline.
pub fn refuse_outdated_artifact(base_generation: Option<u64>, current: u64) -> (r: Option<Response>)
    ensures
        match base_generation {
            Some(base) => if base != current {
                r is Some && r->0@ == err_response(
                    conflict_text(
                        "Plugin artifact generation conflict: editor based on generation "@,
                        base,
                        current,
                        ". Refresh before applying."@,
                    ),
                )
            } else {
                r is None
            },
            None => r is None,
        },
{
    refuse_outdated(
        "Plugin artifact generation conflict: editor based on generation ",
        base_generation,
        current,
        ". Refresh before applying.",
    )
}

/// What is loaded for an artifact that came with a command.
pub fn load_plugin_artifact(state: &SystemwideState, planned: Result<PluginArtifactPlan, String>) -> (r:
    ArtifactIntent)
    ensures
        r@ == artifact_intent(state@, artifact_of(planned), None, "the rack"@),
{
    intend(state, planned, None, "the rack")
}

/// What is loaded for an artifact from a file. A graph without a channel count of its own gets the
/// desired output channels on both sides.
pub fn load_plugin_artifact_file(state: &SystemwideState, planned: Result<PluginArtifactFilePlan, String>) -> (r:
    ArtifactIntent)
    ensures
        match planned {
            Err(e) => r@ == artifact_intent(state@, Err(e@), None, "a rack"@),
            Ok(file) => r@ == artifact_intent(
                state@,
                Ok(file.plan@),
                match file.required_channels {
                    Some(channels) => Some(channels),
                    None => Some(state@.pipeline.desired.output_channels),
                },
                "a rack"@,
            ),
        },
{
    match planned {
        Err(error) => intend(state, Err(error), None, "a rack"),
        Ok(file) => {
            let required: usize = match file.required_channels {
                Some(channels) => channels,
                None => state.output_channels(),
            };
            intend(state, Ok(file.plan), Some(required), "a rack")
        },
    }
}

/// The device whose channels an artifact has to fit: the selected one, else the one that plays.
pub fn device_to_inspect(state: &SystemwideState, playback_device: &Option<String>) -> (r: Option<String>)
    ensures
        opt_text(r) == if state@.pipeline.desired.output_device is Some {
            state@.pipeline.desired.output_device
        } else {
            opt_text(*playback_device)
        },
{
    match state.selected_output_device() {
        Some(device) => Some(device),
        None => copy_opt_text(playback_device),
    }
}

/// The complaint about a device with too few channels for an artifact.
pub open spec fn too_narrow_text(required: usize, device: Seq<char>, most: usize, rate: u32) -> Seq<char> {
    "This RoomEQ configuration requires "@ + decimal(required as nat) + " output channels, but '"@
        + device + "' supports at most "@ + decimal(most as nat) + " channels at "@ + decimal(
        rate as nat,
    ) + " Hz. Select a compatible audio device before loading it."@
}

/// Whether a device has the channels that an artifact needs, from what it was found to play.
pub fn validate_output_device_channels(
    required_channels: usize,
    device_name: &str,
    max_channels: Result<usize, String>,
    sample_rate: u32,
) -> (r: Result<(), String>)
    ensures
        match max_channels {
            Err(e) => r matches Err(text) && text@ == e@,
            Ok(most) => if required_channels > most {
                r matches Err(text) && text@ == too_narrow_text(
                    required_channels,
                    device_name@,
                    most,
                    sample_rate,
                )
            } else {
                r is Ok
            },
        },
{
    match max_channels {
        Err(error) => Err(error),
        Ok(most) => {
            if required_channels <= most {
                return Ok(());
            }
            let need = decimal_text(required_channels as u64);
            let have = decimal_text(most as u64);
            let rate = decimal_text(sample_rate as u64);
            let a = join3(
                "This RoomEQ configuration requires ",
                need.as_str(),
                " output channels, but '",
            );
            let b = join3(a.as_str(), device_name, "' supports at most ");
            let c = join3(b.as_str(), have.as_str(), " channels at ");
            Err(
                join3(
                    c.as_str(),
                    rate.as_str(),
                    " Hz. Select a compatible audio device before loading it.",
                ),
            )
        },
    }
}

proof fn lemma_entries_are_users(items: Seq<Json>)
    requires
        plugin_entries(items) is Ok,
    ensures
        forall|i: int|
            0 <= i < plugin_entries(items)->Ok_0.len() ==> !is_system_type(
                (#[trigger] plugin_entries(items)->Ok_0[i]).plugin_type,
            ),
    decreases items.len(),
{
    if items.len() > 0 {
        let front = plugin_entries(items.drop_last())->Ok_0;
        lemma_entries_are_users(items.drop_last());
        assert forall|i: int| 0 <= i < plugin_entries(items)->Ok_0.len() implies !is_system_type(
            (#[trigger] plugin_entries(items)->Ok_0[i]).plugin_type,
        ) by {
            if i < front.len() {
                assert(front[i] == plugin_entries(items)->Ok_0[i]);
            }
        }
    }
}

/// Nothing that belongs to the daemon gets in by way of an artifact: the plugins of a rack and the
/// nodes of a graph are the user's, and there is at least one of them.
pub proof fn artifacts_hold_only_user_plugins<
    D: Fn(JsonValue) -> Result<PluginGraphConfig, String>,
    F: Fn(&PluginGraphConfig) -> Result<(), String>,
>(decode: D, validate: F, artifact: Json, plan: ArtifactModel)
    requires
        artifact_outcome(decode, validate, artifact, Ok(plan)),
    ensures
        match plan {
            ArtifactModel::RackChain(plugins) => plugins.len() > 0 && forall|i: int|
                0 <= i < plugins.len() ==> !is_system_type((#[trigger] plugins[i]).plugin_type),
            ArtifactModel::Graph(g) => g.nodes.len() > 0 && forall|i: int|
                0 <= i < g.nodes.len() ==> !is_system_type((#[trigger] g.nodes[i]).plugin_type),
            ArtifactModel::UnsupportedGraph(_) => true,
        },
{
    match plan {
        ArtifactModel::RackChain(plugins) => {
            match artifact {
                Json::List(items) => lemma_entries_are_users(items),
                Json::Object(object) => {
                    if object.dom().contains("graph"@) {
                        lemma_graph_values_give_graphs(decode, validate, object["graph"@], plan);
                    } else if object.dom().contains("nodes"@) || object.dom().contains("edges"@) {
                        lemma_graph_values_give_graphs(decode, validate, artifact, plan);
                    } else if object.dom().contains("plugins"@) {
                        lemma_entries_are_users(object["plugins"@]->List_0);
                    } else {
                        lemma_entries_are_users(object["global_plugins"@]->List_0);
                    }
                },
                _ => {},
            }
        },
        ArtifactModel::Graph(g) => {
            match artifact {
                Json::Object(object) => {
                    if object.dom().contains("graph"@) {
                        lemma_graph_values_give_graphs(decode, validate, object["graph"@], plan);
                    } else if object.dom().contains("nodes"@) || object.dom().contains("edges"@) {
                        lemma_graph_values_give_graphs(decode, validate, artifact, plan);
                    }
                },
                _ => {},
            }
        },
        _ => {},
    }
}

proof fn lemma_graph_values_give_graphs<
    D: Fn(JsonValue) -> Result<PluginGraphConfig, String>,
    F: Fn(&PluginGraphConfig) -> Result<(), String>,
>(decode: D, validate: F, value: Json, plan: ArtifactModel)
    requires
        graph_value_outcome(decode, validate, value, Ok(plan)),
    ensures
        plan is Graph,
        plan->Graph_0.nodes.len() > 0,
        forall|i: int|
            0 <= i < plan->Graph_0.nodes.len() ==> !is_system_type(
                (#[trigger] plan->Graph_0.nodes[i]).plugin_type,
            ),
{
    let decoded = choose|decoded: Result<GraphModel, Seq<char>>|
        (#[trigger] decodes(decode, value, decoded)) && match decoded {
            Err(e) => Ok::<ArtifactModel, Seq<char>>(plan) == Err::<ArtifactModel, Seq<char>>(
                "invalid plugin graph: "@ + e,
            ),
            Ok(g) => valid_graph_outcome(validate, g, Ok(plan)),
        };
    let g = decoded->Ok_0;
    lemma_no_system_node(g.nodes, 0);
}

proof fn lemma_no_system_node(nodes: Seq<NodeModel>, from: int)
    requires
        0 <= from <= nodes.len(),
    ensures
        first_system_node(nodes, from) <= nodes.len(),
        forall|i: int|
            from <= i < first_system_node(nodes, from) ==> !is_system_type(
                (#[trigger] nodes[i]).plugin_type,
            ),
    decreases nodes.len() - from,
{
    if from < nodes.len() && !is_system_type(nodes[from].plugin_type) {
        lemma_no_system_node(nodes, from + 1);
    }
}

/// A rack entry becomes the plugin that it names, with the parameters under that name, or with the rest
/// of its members where there are none.
pub proof fn entries_become_the_plugins_they_name(entry: Map<Seq<char>, Json>, plugin: PluginModel)
    requires
        plugin_entry(Json::Object(entry)) == Ok::<Option<PluginModel>, Seq<char>>(Some(plugin)),
    ensures
        entry.dom().contains("plugin_type"@) ==> entry["plugin_type"@] == Json::Text(plugin.plugin_type),
        !entry.dom().contains("plugin_type"@) ==> entry.dom().contains("type"@) && entry["type"@]
            == Json::Text(plugin.plugin_type),
        entry.dom().contains("parameters"@) ==> plugin.parameters == entry["parameters"@],
        !entry.dom().contains("parameters"@) ==> {
            &&& plugin.parameters is Object
            &&& entry.dom().contains("plugin_type"@) ==> plugin.parameters->Object_0 == entry.remove(
                "plugin_type"@,
            )
            &&& !entry.dom().contains("plugin_type"@) ==> plugin.parameters->Object_0 == entry.remove(
                "type"@,
            )
        },
        !is_system_type(plugin.plugin_type),
{
    reveal_strlit("type");
    assert("type"@.len() == 4);
    reveal_strlit("parameters");
    assert("parameters"@.len() == 10);
    reveal_strlit("plugin_type");
    assert("plugin_type"@.len() == 11);
}

/// The plugins of a rack come in the order of its entries: an entry at the end adds its plugin behind
/// those of the entries before it, and a system plugin adds nothing.
pub proof fn plugins_come_in_the_order_of_their_entries(items: Seq<Json>, last: Json)
    ensures
        plugin_entries(Seq::empty()) == Ok::<Seq<PluginModel>, Seq<char>>(Seq::empty()),
        plugin_entries(items) is Err ==> plugin_entries(items.push(last)) == plugin_entries(items),
        plugin_entries(items) matches Ok(front) ==> {
            let all = plugin_entries(items.push(last));
            &&& plugin_entry(last) matches Err(e) ==> all == Err::<Seq<PluginModel>, Seq<char>>(e)
            &&& plugin_entry(last) matches Ok(Some(plugin)) ==> all == Ok::<Seq<PluginModel>, Seq<char>>(
                front.push(plugin),
            )
            &&& plugin_entry(last) == Ok::<Option<PluginModel>, Seq<char>>(None) ==> all == Ok::<
                Seq<PluginModel>,
                Seq<char>,
            >(front)
        },
{
    assert(items.push(last).drop_last() =~= items);
}

/// An entry is left out exactly where it names a plugin of the system, and is refused exactly where it
/// names none.
pub proof fn entries_need_a_type(item: Json)
    ensures
        plugin_entry(item) is Err <==> !(item is Object && (entry_type(item->Object_0) matches Some(
            Json::Text(_),
        ))),
        plugin_entry(item) == Ok::<Option<PluginModel>, Seq<char>>(None) <==> item is Object && (
        entry_type(item->Object_0) matches Some(Json::Text(name)) && is_system_type(name)),
        plugin_entry(item) is Err && !(item is Object) ==> plugin_entry(item)->Err_0
            == "plugin entries must be objects"@,
        plugin_entry(item) is Err && item is Object ==> plugin_entry(item)->Err_0
            == "plugin entry is missing plugin_type/type"@,
{
}

/// A list is a rack, and so is an object with plugins. Topologies that a rack cannot hold are told as
/// such and never flattened.
pub proof fn artifacts_are_what_they_hold(object: Map<Seq<char>, Json>)
    ensures
        ({
            let routed = object.dom().contains("routes"@) || object.dom().contains("routing"@)
                || object.dom().contains("buses"@);
            let out = object_artifact(object);
            &&& routed || object.dom().contains("channels"@) ==> (out matches Ok(
                ArtifactModel::UnsupportedGraph(_),
            ))
            &&& !routed && !object.dom().contains("channels"@) ==> !(out matches Ok(
                ArtifactModel::UnsupportedGraph(_),
            ))
            &&& !routed && !object.dom().contains("channels"@) && object.dom().contains("plugins"@) ==> {
                &&& object["plugins"@] matches Json::List(items) ==> out == rack_chain(items)
                &&& !(object["plugins"@] is List) ==> out is Err
            }
            &&& !routed && !object.dom().contains("channels"@) && !object.dom().contains("plugins"@)
                && object.dom().contains("global_plugins"@) ==> {
                &&& object["global_plugins"@] matches Json::List(items) ==> out == rack_chain(items)
                &&& !(object["global_plugins"@] is List) ==> out is Err
            }
            &&& !routed && !object.dom().contains("channels"@) && !object.dom().contains("plugins"@)
                && !object.dom().contains("global_plugins"@) ==> out is Err
        }),
{
}

/// A rack holds at least one plugin, and exactly those of its entries.
pub proof fn racks_hold_the_plugins_of_their_entries(items: Seq<Json>)
    ensures
        rack_chain(items) is Ok <==> plugin_entries(items) is Ok && plugin_entries(items)->Ok_0.len() > 0,
        rack_chain(items) matches Ok(artifact) ==> artifact == ArtifactModel::RackChain(
            plugin_entries(items)->Ok_0,
        ),
{
}

/// A file is refused exactly where it is no regular file or larger than 64 MiB.
pub proof fn large_files_are_refused(shown: Seq<char>, is_file: bool, len: u64)
    ensures
        file_refusal(shown, is_file, len) is None <==> is_file && len <= 67_108_864,
        !is_file ==> file_refusal(shown, is_file, len) == Some(
            "configuration '"@ + shown + "' is not a regular file"@,
        ),
        is_file && len > 67_108_864 ==> file_refusal(shown, is_file, len) == Some(
            "configuration is too large ("@ + decimal((len as int / 1_048_576) as nat)
                + " MiB; maximum is "@ + decimal(64) + " MiB)"@,
        ),
{
}

/// A graph needs as many channels as its widest node takes.
pub proof fn graphs_need_their_widest_node(nodes: Seq<NodeModel>)
    ensures
        nodes.len() == 0 <==> widest(nodes) is None,
        widest(nodes) matches Some(most) ==> {
            &&& forall|i: int| 0 <= i < nodes.len() ==> #[trigger] nodes[i].input_channels <= most
            &&& exists|i: int| 0 <= i < nodes.len() && #[trigger] nodes[i].input_channels == most
        },
    decreases nodes.len(),
{
    if nodes.len() > 0 {
        let front = nodes.drop_last();
        graphs_need_their_widest_node(front);
        let last = nodes.len() - 1;
        assert forall|i: int| 0 <= i < last implies front[i] == #[trigger] nodes[i] by {}
        let most = widest(nodes)->0;
        assert forall|i: int| 0 <= i < nodes.len() implies #[trigger] nodes[i].input_channels <= most by {
            if i < last {
                assert(front[i].input_channels <= widest(front)->0);
            }
        }
        if widest(front) is Some && widest(front)->0 >= nodes.last().input_channels {
            let i = choose|i: int| 0 <= i < front.len() && #[trigger] front[i].input_channels == most;
            assert(nodes[i].input_channels == most);
        } else {
            assert(nodes[last].input_channels == most);
        }
    }
}

/// A rack that is loaded keeps the desired channels. A graph takes the channels that it needs on both
/// sides, where that is known. Anything else is refused with its reason.
pub proof fn artifacts_load_with_their_channels(
    s: StateModel,
    planned: Result<ArtifactModel, Seq<char>>,
    required: Option<usize>,
    place: Seq<char>,
)
    ensures
        ({
            let intent = artifact_intent(s, planned, required, place);
            let desired = s.pipeline.desired;
            &&& planned matches Ok(ArtifactModel::RackChain(chain)) ==> (intent matches
                IntentModel::LoadChain { plugins, input_channels, output_channels } && plugins == chain
                && input_channels == desired.input_channels && output_channels
                == desired.output_channels)
            &&& planned matches Ok(ArtifactModel::Graph(given)) ==> (intent matches
                IntentModel::LoadGraph { graph, input_channels, output_channels } && graph == given && (
            required is Some ==> input_channels == required->0 && output_channels == required->0) && (
            required is None ==> input_channels == desired.input_channels && output_channels
                == desired.output_channels))
            &&& planned matches Err(e) ==> (intent matches IntentModel::Refuse(response)
                && !response.success && response.error == Some("Invalid plugin artifact: "@ + e))
            &&& planned matches Ok(ArtifactModel::UnsupportedGraph(reason)) ==> (intent matches
                IntentModel::Refuse(response) && !response.success && response.error == Some(
                "Unsupported graph plugin artifact: "@ + reason
                    + ". Use a graph-aware loader instead of flattening it into "@ + place + "."@,
            ))
        }),
{
}

/// An artifact is laid out for the rate that the driver runs at.
pub proof fn artifacts_are_laid_out_at_the_rate_of_the_driver(status: DriverStatus, rate: u32)
    requires
        call_ensures(artifact_sample_rate, (&status,), rate),
    ensures
        status.sample_rate > 0 ==> rate == status.sample_rate,
        status.sample_rate == 0 ==> rate == 48000,
{
}

/// A room correction is loaded as the graph that was computed, with the channels of its widest node.
pub proof fn room_corrections_need_their_widest_node(
    graph: PluginGraphConfig,
    output_channels: usize,
    plan: PluginArtifactFilePlan,
    i: int,
)
    requires
        call_ensures(room_eq_plan, (graph, output_channels), plan),
    ensures
        plan.plan@ == ArtifactModel::Graph(graph@),
        plan.required_channels is Some,
        0 <= i < graph@.nodes.len() ==> graph@.nodes[i].input_channels <= plan.required_channels->0,
        graph@.nodes.len() == 0 ==> plan.required_channels == Some(output_channels),
        graph@.nodes.len() > 0 ==> exists|k: int|
            0 <= k < graph@.nodes.len() && #[trigger] graph@.nodes[k].input_channels
                == plan.required_channels->0,
{
    graphs_need_their_widest_node(graph@.nodes);
}

/// A file with a room correction is loaded as such; any other file is loaded as the artifact that its
/// text holds, without a demand on the channels.
pub proof fn files_are_room_corrections_or_artifacts(
    room_eq: Result<(PluginGraphConfig, usize), String>,
    out: Result<PluginArtifactFilePlan, String>,
)
    requires
        room_eq_outcome(room_eq, out),
    ensures
        out is Ok <==> room_eq is Ok,
        room_eq matches Ok((graph, channels)) ==> out->Ok_0.plan@ == ArtifactModel::Graph(graph@) && (
        graph@.nodes.len() == 0 ==> out->Ok_0.required_channels == Some(channels)),
        room_eq matches Err(e) ==> out->Err_0@ == "invalid RoomEQ configuration: "@ + e@,
{
    if room_eq is Ok {
        graphs_need_their_widest_node(room_eq->Ok_0.0@.nodes);
    }
}

/// An artifact that was edited on an older generation is refused, and names both generations.
pub proof fn outdated_artifacts_are_refused(base: Option<u64>, current: u64, refusal: Option<Response>)
    requires
        call_ensures(refuse_outdated_artifact, (base, current), refusal),
    ensures
        refusal is Some <==> base is Some && base->0 != current,
        refusal matches Some(response) ==> !response@.success && response@.error == Some(
            "Plugin artifact generation conflict: editor based on generation "@ + decimal(base->0 as nat)
                + ", current generation is "@ + decimal(current as nat) + ". Refresh before applying."@,
        ),
{
}

/// A graph from a file that demands no channels takes the desired output channels on both sides.
pub proof fn graphs_from_files_take_the_output_channels(
    state: SystemwideState,
    file: PluginArtifactFilePlan,
    given: GraphModel,
    intent: ArtifactIntent,
)
    requires
        call_ensures(load_plugin_artifact_file, (&state, Ok(file)), intent),
        file.plan@ == ArtifactModel::Graph(given),
    ensures
        intent@ matches IntentModel::LoadGraph { graph, input_channels, output_channels } && graph == given
            && input_channels == output_channels && output_channels == match file.required_channels {
            Some(channels) => channels,
            None => state@.pipeline.desired.output_channels,
        },
{
}

/// The device that must be wide enough is the desired one, else the one in use.
pub proof fn desired_devices_are_inspected_first(
    state: SystemwideState,
    playback_device: Option<String>,
    device: Option<String>,
)
    requires
        call_ensures(device_to_inspect, (&state, &playback_device), device),
    ensures
        state@.pipeline.desired.output_device is Some ==> opt_text(device)
            == state@.pipeline.desired.output_device,
        state@.pipeline.desired.output_device is None ==> opt_text(device) == opt_text(playback_device),
{
}

/// A device is wide enough exactly where it has as many channels as are required.
pub proof fn narrow_devices_are_refused(
    required: usize,
    device: &str,
    most: Result<usize, String>,
    rate: u32,
    out: Result<(), String>,
)
    requires
        call_ensures(validate_output_device_channels, (required, device, most, rate), out),
    ensures
        out is Ok <==> most is Ok && required <= most->Ok_0,
        most matches Err(e) ==> out->Err_0@ == e@,
        most is Ok && required > most->Ok_0 ==> out->Err_0@ == "This RoomEQ configuration requires "@
            + decimal(required as nat) + " output channels, but '"@ + device@ + "' supports at most "@
            + decimal(most->Ok_0 as nat) + " channels at "@ + decimal(rate as nat)
            + " Hz. Select a compatible audio device before loading it."@,
{
}

/// A graph artifact is the graph that was read, where the engine accepts it and it holds user plugins
/// alone. It is refused with the reason of whoever refused it.
pub proof fn graph_artifacts_are_the_graph_that_was_read<F: Fn(&PluginGraphConfig) -> Result<(), String>>(
    validate: F,
    g: GraphModel,
    out: Result<ArtifactModel, Seq<char>>,
)
    requires
        valid_graph_outcome(validate, g, out),
    ensures
        out matches Ok(artifact) ==> artifact == ArtifactModel::Graph(g) && g.nodes.len() > 0 && validates(
            validate,
            g,
            Ok(()),
        ),
        forall|e: Seq<char>|
            (forall|answer: Result<(), Seq<char>>| #[trigger]
                validates(validate, g, answer) ==> answer == Err::<(), Seq<char>>(e)) ==> out == Err::<
                ArtifactModel,
                Seq<char>,
            >(#[trigger] ("invalid plugin graph: "@ + e)),
{
}

/// A graph in an artifact is what the decoder made of the value that it was given.
pub proof fn graphs_are_what_the_decoder_made<D: Fn(JsonValue) -> Result<PluginGraphConfig, String>>(
    decode: D,
    value: Json,
    answer: Result<GraphModel, Seq<char>>,
)
    requires
        decodes(decode, value, answer),
    ensures
        answer matches Ok(g) ==> exists|given: JsonValue, graph: PluginGraphConfig|
            given@ == value && graph@ == g && #[trigger] call_ensures(
                decode,
                (given,),
                Ok::<PluginGraphConfig, String>(graph),
            ),
        answer matches Err(e) ==> exists|given: JsonValue, text: String|
            given@ == value && text@ == e && #[trigger] call_ensures(
                decode,
                (given,),
                Err::<PluginGraphConfig, String>(text),
            ),
{
    let (given, out) = choose|given: JsonValue, out: Result<PluginGraphConfig, String>|
        given@ == value && #[trigger] call_ensures(decode, (given,), out) && graph_outcome(out) == answer;
    match out {
        Ok(graph) => {
            assert(call_ensures(decode, (given,), Ok::<PluginGraphConfig, String>(graph)));
        },
        Err(text) => {
            assert(call_ensures(decode, (given,), Err::<PluginGraphConfig, String>(text)));
        },
    }
}

} // verus!
