//! Commands on output profiles, with the saves that go with them.

use crate::apply::generation_json;
use crate::json::{json_member, list_of, Json, JsonObject, JsonValue};
use crate::output_device::opt_text;
use crate::output_profiles::{
    assigned, assignment_verdict, in_listing_order, lists_all, numbered, profile_models,
    profile_verdict, removal_verdict, stamped, without_profile, OutputProfile, OutputProfileStore,
    ProfileModel, StoreModel,
};
use crate::pipeline::{count_json, device_json, device_value};
use crate::response::{err_response, ok_response, Response, ResponseModel};
use crate::route::{adopted, ensure_default_profile};
use crate::state::SystemwideState;
use crate::status::{graph_json, graph_value, rack_json, rack_value};
use crate::text::{decimal, join2, trimmed};
use crate::text_map::{entry_pairs, pairs_map, TextMap};
use crate::transport::{tells_count, tells_text};
use vstd::prelude::*;

verus! {

/// A profile as clients see it. A graph profile shows no rack, and a rack profile no graph.
pub open spec fn profile_json(p: ProfileModel) -> Json {
    let graph = p.topology == "graph"@;
    Json::Object(
        map![
            "id"@ => Json::Text(p.id),
            "name"@ => Json::Text(p.name),
            "topology"@ => Json::Text(p.topology),
            "plugins"@ => if graph {
                Json::List(Seq::empty())
            } else {
                rack_json(p.plugins, p.input_channels)
            },
            "graph"@ => match p.graph {
                Some(g) if graph => graph_json(g),
                _ => Json::Null,
            },
            "input_channels"@ => count_json(p.input_channels as int),
            "output_channels"@ => count_json(p.output_channels as int),
            "updated_at_unix_ms"@ => count_json(p.updated_at_unix_ms as int),
        ],
    )
}

/// A profile as clients see it.
pub fn output_profile_wire(profile: &OutputProfile) -> (r: JsonValue)
    ensures
        r@ == profile_json(profile@),
{
    let is_graph = profile.is_graph();
    let plugins = if is_graph {
        let none: Vec<JsonValue> = Vec::new();
        proof {
            assert(list_of(none@) =~= Seq::<Json>::empty());
        }
        JsonValue::List(none)
    } else {
        rack_value(&profile.plugins, profile.input_channels)
    };
    let graph = match &profile.graph {
        Some(graph) if is_graph => graph_value(graph),
        _ => JsonValue::Null,
    };
    let mut out = JsonObject::new();
    out.put_text("id", profile.id.as_str());
    out.put_text("name", profile.name.as_str());
    out.put_text("topology", profile.topology.as_str());
    out.put("plugins", plugins);
    out.put("graph", graph);
    out.put_unsigned("input_channels", profile.input_channels as u64);
    out.put_unsigned("output_channels", profile.output_channels as u64);
    out.put_unsigned("updated_at_unix_ms", profile.updated_at_unix_ms);
    out.finish()
}

/// Assignments as clients see them.
pub open spec fn assignments_json(assignments: Map<Seq<char>, Seq<char>>) -> Json {
    Json::Object(assignments.map_values(|id: Seq<char>| Json::Text(id)))
}

fn assignments_value(assignments: &TextMap) -> (r: JsonValue)
    ensures
        r@ == assignments_json(assignments@),
{
    let ghost pairs = entry_pairs(assignments.entries@);
    let ghost show = |id: Seq<char>| Json::Text(id);
    let mut out = JsonObject::new();
    let mut i: usize = 0;
    proof {
        assert(pairs.take(0) =~= Seq::empty());
        assert(pairs_map(pairs.take(0)).map_values(show) =~= Map::<Seq<char>, Json>::empty());
    }
    while i < assignments.entries.len()
        invariant
            i <= assignments.entries.len(),
            pairs == entry_pairs(assignments.entries@),
            show == (|id: Seq<char>| Json::Text(id)),
            out@ == pairs_map(pairs.take(i as int)).map_values(show),
        decreases assignments.entries.len() - i,
    {
        let ghost before = pairs_map(pairs.take(i as int));
        proof {
            assert(pairs.take(i + 1).drop_last() =~= pairs.take(i as int));
            assert(before.insert(pairs[i as int].0, pairs[i as int].1).map_values(show)
                =~= before.map_values(show).insert(pairs[i as int].0, Json::Text(pairs[i as int].1)));
        }
        out.put_text(
            assignments.entries[i].key.as_str(),
            assignments.entries[i].value.as_str(),
        );
        i = i + 1;
    }
    proof {
        assert(pairs.take(i as int) =~= pairs);
    }
    out.finish()
}

/// The store as clients see it, with the profiles in a given order.
pub open spec fn store_json(list: Seq<ProfileModel>, store: StoreModel, generation: u64) -> Json {
    Json::Object(
        map![
            "profiles"@ => Json::List(list.map_values(|p: ProfileModel| profile_json(p))),
            "assignments"@ => assignments_json(store.assignments),
            "current"@ => Json::Object(
                map![
                    "profile_id"@ => device_json(store.current_profile_id),
                    "device_uid"@ => device_json(store.current_device_uid),
                    "device_name"@ => device_json(store.current_device_name),
                ],
            ),
            "generation"@ => count_json(generation as int),
        ],
    )
}

/// Whether an answer shows the store, with the profiles by name.
pub open spec fn shows_store(response: ResponseModel, store: StoreModel, generation: u64) -> bool {
    exists|list: Seq<ProfileModel>|
        (#[trigger] in_listing_order(true, list)) && lists_all(list, store.profiles) && response
            == ok_response(store_json(list, store, generation))
}

/// The store as clients see it.
pub fn output_profiles_response(store: &OutputProfileStore, generation: u64) -> (r: Response)
    requires
        store.wf(),
    ensures
        shows_store(r@, store@, generation),
{
    let sorted = store.profiles_sorted();
    let ghost list = profile_models(sorted@);
    let mut profiles: Vec<JsonValue> = Vec::new();
    let mut i: usize = 0;
    while i < sorted.len()
        invariant
            i <= sorted.len(),
            profiles.len() == i,
            list == profile_models(sorted@),
            forall|k: int| 0 <= k < i ==> (#[trigger] profiles@[k])@ == profile_json(list[k]),
        decreases sorted.len() - i,
    {
        profiles.push(output_profile_wire(&sorted[i]));
        i = i + 1;
    }
    proof {
        assert(list_of(profiles@) =~= list.map_values(|p: ProfileModel| profile_json(p)));
        assert(in_listing_order(true, list));
    }
    let mut current = JsonObject::new();
    current.put("profile_id", device_value(&store.current_profile_id));
    current.put("device_uid", device_value(&store.current_device_uid));
    current.put("device_name", device_value(&store.current_device_name));
    let mut out = JsonObject::new();
    out.put("profiles", JsonValue::List(profiles));
    out.put("assignments", assignments_value(&store.assignments));
    out.put("current", current.finish());
    out.put_unsigned("generation", generation);
    Response::ok(out.finish())
}

/// What a client wants of the profiles.
#[derive(Debug)]
pub enum ProfileEdit {
    List,
    Upsert(OutputProfile),
    Delete(String),
    Assign { device_uid: Option<String>, device_name: String, profile_id: String },
}

/// What a `ProfileEdit` stands for.
pub enum EditModel {
    List,
    Upsert(ProfileModel),
    Delete(Seq<char>),
    Assign { device_uid: Option<Seq<char>>, device_name: Seq<char>, profile_id: Seq<char> },
}

impl View for ProfileEdit {
    type V = EditModel;

    open spec fn view(&self) -> EditModel {
        match *self {
            ProfileEdit::List => EditModel::List,
            ProfileEdit::Upsert(profile) => EditModel::Upsert(profile@),
            ProfileEdit::Delete(id) => EditModel::Delete(id@),
            ProfileEdit::Assign { device_uid, device_name, profile_id } => EditModel::Assign {
                device_uid: opt_text(device_uid),
                device_name: device_name@,
                profile_id: profile_id@,
            },
        }
    }
}

/// Where a command stands.
#[derive(Debug, Clone, Copy, PartialEq, Eq, Structural)]
pub enum ProfilePhase {
    SavingDefault,
    SavingEdit,
    Finished,
}

/// What a command asks of its surroundings.
#[derive(Debug)]
pub enum ProfileAction {
    /// Save the profile store.
    SaveProfiles,
    /// Answer the client.
    Finish(Response),
}

/// A command on the profiles under way.
#[derive(Debug)]
pub struct ProfileCommand {
    pub phase: ProfilePhase,
    /// What is still to be done.
    pub edit: ProfileEdit,
    /// The profile that was written.
    pub written: Option<String>,
}

/// The answer to an edit.
pub open spec fn edit_response(written: Option<Seq<char>>, generation: u64) -> ResponseModel {
    match written {
        Some(id) => ok_response(
            Json::Object(
                map![
                    "profile_id"@ => Json::Text(id),
                    "generation"@ => count_json(generation as int),
                ],
            ),
        ),
        None => ok_response(generation_json(generation)),
    }
}

/// What an edit does to the store: the store after it, and the profile that was written or why
/// nothing was done.
pub open spec fn edited(store: StoreModel, edit: EditModel, now: u64) -> (
    StoreModel,
    Result<Option<Seq<char>>, Seq<char>>,
) {
    match edit {
        EditModel::List => (store, Ok(None)),
        EditModel::Upsert(profile) => {
            let kept = stamped(store, profile, now);
            let base = numbered(store, profile);
            match profile_verdict(kept) {
                Err(e) => (base, Err(e)),
                Ok(_) => (
                    StoreModel { profiles: base.profiles.insert(kept.id, kept), ..base },
                    Ok(Some(kept.id)),
                ),
            }
        },
        EditModel::Delete(id) => match removal_verdict(store, id) {
            Err(e) => (store, Err(e)),
            Ok(_) => (without_profile(store, id), Ok(None)),
        },
        EditModel::Assign { device_uid, device_name, profile_id } => match assignment_verdict(
            store,
            device_name,
            profile_id,
        ) {
            Err(e) => (store, Err(e)),
            Ok(_) => (
                StoreModel {
                    assignments: assigned(store.assignments, device_uid, device_name, profile_id),
                    ..store
                },
                Ok(None),
            ),
        },
    }
}

/// What carrying out an edit leads to: a list is answered at once, a refusal too, and a change is
/// saved first.
pub open spec fn performs(
    store: StoreModel,
    edit: EditModel,
    generation: u64,
    now: u64,
    command: ProfileCommand,
    store_after: StoreModel,
    action: ProfileAction,
) -> bool {
    let (after, out) = edited(store, edit, now);
    &&& store_after == after
    &&& match out {
        Err(e) => command.phase == ProfilePhase::Finished && (action matches ProfileAction::Finish(
            response,
        ) && response@ == err_response(e)),
        Ok(written) => if edit is List {
            command.phase == ProfilePhase::Finished && (action matches ProfileAction::Finish(response)
                && shows_store(response@, store, generation))
        } else {
            command.phase == ProfilePhase::SavingEdit && action is SaveProfiles && opt_text(
                command.written,
            ) == written
        },
    }
}

fn carry_out(store: &mut OutputProfileStore, edit: ProfileEdit, generation: u64, now_unix_ms: u64) -> (r: (
    ProfileCommand,
    ProfileAction,
))
    requires
        old(store).wf(),
    ensures
        final(store).wf(),
        performs(old(store)@, edit@, generation, now_unix_ms, r.0, final(store)@, r.1),
{
    let listing = matches!(&edit, ProfileEdit::List);
    if listing {
        let response = output_profiles_response(store, generation);
        return (
            ProfileCommand { phase: ProfilePhase::Finished, edit: ProfileEdit::List, written: None },
            ProfileAction::Finish(response),
        );
    }
    let outcome: Result<Option<String>, String> = match edit {
        ProfileEdit::List => Ok(None),
        ProfileEdit::Upsert(profile) => match store.upsert(profile, now_unix_ms) {
            Ok(id) => Ok(Some(id)),
            Err(error) => Err(error),
        },
        ProfileEdit::Delete(id) => match store.remove(id.as_str()) {
            Ok(_) => Ok(None),
            Err(error) => Err(error),
        },
        ProfileEdit::Assign { device_uid, device_name, profile_id } => {
            let uid = match &device_uid {
                Some(uid) => Some(uid.as_str()),
                None => None,
            };
            match store.assign(uid, device_name.as_str(), profile_id.as_str()) {
                Ok(_) => Ok(None),
                Err(error) => Err(error),
            }
        },
    };
    match outcome {
        Err(error) => (
            ProfileCommand { phase: ProfilePhase::Finished, edit: ProfileEdit::List, written: None },
            ProfileAction::Finish(Response::err(error)),
        ),
        Ok(written) => (
            ProfileCommand { phase: ProfilePhase::SavingEdit, edit: ProfileEdit::List, written },
            ProfileAction::SaveProfiles,
        ),
    }
}

impl ProfileCommand {
    /// Begins a command. A store without profiles adopts the live chain first.
    pub fn begin(
        state: &SystemwideState,
        store: &mut OutputProfileStore,
        edit: ProfileEdit,
        now_unix_ms: u64,
    ) -> (r: (ProfileCommand, ProfileAction))
        requires
            old(store).wf(),
        ensures
            final(store).wf(),
            if old(store)@.profiles.dom().len() == 0 {
                final(store)@ == adopted(state@, old(store)@, now_unix_ms) && r.0.phase
                    == ProfilePhase::SavingDefault && r.0.edit@ == edit@ && r.1 is SaveProfiles
            } else {
                performs(
                    old(store)@,
                    edit@,
                    state@.pipeline.generation,
                    now_unix_ms,
                    r.0,
                    final(store)@,
                    r.1,
                )
            },
    {
        if ensure_default_profile(state, store, now_unix_ms) {
            (
                ProfileCommand { phase: ProfilePhase::SavingDefault, edit, written: None },
                ProfileAction::SaveProfiles,
            )
        } else {
            carry_out(store, edit, state.generation(), now_unix_ms)
        }
    }

    /// Takes how saving came out and says what to do next.
    pub fn saved(
        self,
        state: &SystemwideState,
        store: &mut OutputProfileStore,
        outcome: Result<bool, String>,
        now_unix_ms: u64,
    ) -> (r: (ProfileCommand, ProfileAction))
        requires
            old(store).wf(),
            self.phase != ProfilePhase::Finished,
        ensures
            final(store).wf(),
            match (self.phase, outcome) {
                (ProfilePhase::SavingDefault, Err(e)) => final(store)@ == old(store)@ && r.0.phase
                    == ProfilePhase::Finished && (r.1 matches ProfileAction::Finish(response)
                    && response@ == err_response("Failed to adopt default output profile: "@ + e@)),
                (ProfilePhase::SavingDefault, Ok(_)) => performs(
                    old(store)@,
                    self.edit@,
                    state@.pipeline.generation,
                    now_unix_ms,
                    r.0,
                    final(store)@,
                    r.1,
                ),
                (_, Err(e)) => final(store)@ == old(store)@ && r.0.phase == ProfilePhase::Finished && (
                r.1 matches ProfileAction::Finish(response) && response@ == err_response(e@)),
                (_, Ok(_)) => final(store)@ == old(store)@ && r.0.phase == ProfilePhase::Finished && (
                r.1 matches ProfileAction::Finish(response) && response@ == edit_response(
                    opt_text(self.written),
                    state@.pipeline.generation,
                )),
            },
    {
        match (self.phase, outcome) {
            (ProfilePhase::SavingDefault, Err(error)) => (
                ProfileCommand {
                    phase: ProfilePhase::Finished,
                    edit: ProfileEdit::List,
                    written: None,
                },
                ProfileAction::Finish(
                    Response::err(
                        join2("Failed to adopt default output profile: ", error.as_str()),
                    ),
                ),
            ),
            (ProfilePhase::SavingDefault, Ok(_)) => carry_out(
                store,
                self.edit,
                state.generation(),
                now_unix_ms,
            ),
            (_, Err(error)) => (
                ProfileCommand {
                    phase: ProfilePhase::Finished,
                    edit: ProfileEdit::List,
                    written: None,
                },
                ProfileAction::Finish(Response::err(error)),
            ),
            (_, Ok(_)) => {
                let mut data = JsonObject::new();
                if let Some(id) = &self.written {
                    data.put_text("profile_id", id.as_str());
                }
                data.put_unsigned("generation", state.generation());
                (
                    ProfileCommand {
                        phase: ProfilePhase::Finished,
                        edit: ProfileEdit::List,
                        written: None,
                    },
                    ProfileAction::Finish(Response::ok(data.finish())),
                )
            },
        }
    }
}

/// A profile is shown with its own members, and with the chain that its topology says: a graph without
/// a rack, or a rack without a graph.
pub proof fn profiles_are_shown_with_their_chain(p: ProfileModel)
    ensures
        ({
            let report = profile_json(p);
            &&& json_member(report, "id"@) == Some(Json::Text(p.id))
            &&& json_member(report, "name"@) == Some(Json::Text(p.name))
            &&& json_member(report, "topology"@) == Some(Json::Text(p.topology))
            &&& tells_count(json_member(report, "input_channels"@), p.input_channels as int)
            &&& tells_count(json_member(report, "output_channels"@), p.output_channels as int)
            &&& tells_count(json_member(report, "updated_at_unix_ms"@), p.updated_at_unix_ms as int)
            &&& p.topology == "graph"@ ==> {
                &&& json_member(report, "plugins"@) == Some(Json::List(Seq::empty()))
                &&& p.graph matches Some(g) ==> json_member(report, "graph"@) == Some(graph_json(g))
                &&& p.graph is None ==> json_member(report, "graph"@) == Some(Json::Null)
            }
            &&& p.topology != "graph"@ ==> {
                &&& json_member(report, "plugins"@) == Some(rack_json(p.plugins, p.input_channels))
                &&& json_member(report, "graph"@) == Some(Json::Null)
            }
        }),
{
    reveal_strlit("id");
    assert("id"@.len() == 2);
    reveal_strlit("name");
    assert("name"@.len() == 4);
    reveal_strlit("graph");
    assert("graph"@.len() == 5);
    reveal_strlit("plugins");
    assert("plugins"@.len() == 7);
    reveal_strlit("topology");
    assert("topology"@.len() == 8);
    reveal_strlit("input_channels");
    assert("input_channels"@.len() == 14);
    reveal_strlit("output_channels");
    assert("output_channels"@.len() == 15);
    reveal_strlit("updated_at_unix_ms");
    assert("updated_at_unix_ms"@.len() == 18);
}

/// A listing shows every profile in its place, every assignment, and what is in use.
pub proof fn listings_show_the_store(list: Seq<ProfileModel>, store: StoreModel, generation: u64, i: int, key: Seq<char>)
    ensures
        ({
            let report = store_json(list, store, generation);
            let profiles = json_member(report, "profiles"@);
            let assignments = json_member(report, "assignments"@);
            let current = json_member(report, "current"@)->0;
            &&& profiles matches Some(Json::List(shown)) && shown.len() == list.len() && (0 <= i
                < list.len() ==> shown[i] == profile_json(list[i]))
            &&& assignments is Some
            &&& store.assignments.contains_key(key) ==> json_member(assignments->0, key) == Some(
                Json::Text(store.assignments[key]),
            )
            &&& !store.assignments.contains_key(key) ==> json_member(assignments->0, key) is None
            &&& json_member(report, "current"@) is Some
            &&& tells_text(json_member(current, "profile_id"@), store.current_profile_id)
            &&& tells_text(json_member(current, "device_uid"@), store.current_device_uid)
            &&& tells_text(json_member(current, "device_name"@), store.current_device_name)
            &&& tells_count(json_member(report, "generation"@), generation as int)
        }),
{
    reveal_strlit("current");
    assert("current"@.len() == 7);
    reveal_strlit("profiles");
    assert("profiles"@.len() == 8);
    reveal_strlit("profile_id");
    assert("profile_id"@.len() == 10);
    assert("profile_id"@[0] == 'p');
    reveal_strlit("device_uid");
    assert("device_uid"@.len() == 10);
    assert("device_uid"@[0] == 'd');
    reveal_strlit("generation");
    assert("generation"@.len() == 10);
    assert("generation"@[0] == 'g');
    reveal_strlit("device_name");
    assert("device_name"@.len() == 11);
    assert("device_name"@[0] == 'd');
    reveal_strlit("assignments");
    assert("assignments"@.len() == 11);
    assert("assignments"@[0] == 'a');
}

/// An edit that is written down is answered with the generation, and with the profile where one was
/// written.
pub proof fn edits_are_answered_with_what_was_written(written: Option<Seq<char>>, generation: u64)
    ensures
        ({
            let response = edit_response(written, generation);
            &&& response.success && response.error is None && response.data is Some
            &&& tells_count(json_member(response.data->0, "generation"@), generation as int)
            &&& written matches Some(id) ==> json_member(response.data->0, "profile_id"@) == Some(
                Json::Text(id),
            )
            &&& written is None ==> json_member(response.data->0, "profile_id"@) is None
        }),
{
    reveal_strlit("generation");
    assert("generation"@.len() == 10);
    assert("generation"@[0] == 'g');
    reveal_strlit("profile_id");
    assert("profile_id"@.len() == 10);
    assert("profile_id"@[0] == 'p');
}

/// Each edit changes what it names and nothing else; an edit that is refused changes no profile and no
/// assignment.
pub proof fn edits_change_what_they_name(store: StoreModel, edit: EditModel, now: u64)
    ensures
        ({
            let (after, out) = edited(store, edit, now);
            &&& out is Err ==> after.profiles == store.profiles && after.assignments == store.assignments
            &&& after.current_device_uid == store.current_device_uid && after.current_device_name
                == store.current_device_name
            &&& edit is List ==> after == store && out is Ok
            &&& edit matches EditModel::Upsert(profile) ==> {
                &&& after.assignments == store.assignments && after.current_profile_id
                    == store.current_profile_id
                &&& out matches Ok(written) ==> {
                    let id = if trimmed(profile.id).len() == 0 {
                        "profile-"@ + decimal(store.next_id as nat)
                    } else {
                        profile.id
                    };
                    &&& written == Some(id) && after.profiles.contains_key(id)
                    &&& after.profiles[id].id == id && after.profiles[id].name == profile.name
                    &&& after.profiles[id].topology == profile.topology
                    &&& after.profiles[id].plugins == profile.plugins && after.profiles[id].graph
                        == profile.graph
                    &&& after.profiles[id].input_channels == profile.input_channels
                    &&& after.profiles[id].output_channels == profile.output_channels
                    &&& after.profiles[id].updated_at_unix_ms == now
                    &&& forall|other: Seq<char>|
                        other != id ==> (#[trigger] after.profiles.contains_key(other)
                            <==> store.profiles.contains_key(other)) && after.profiles[other]
                            == store.profiles[other]
                }
            }
            &&& edit matches EditModel::Delete(id) ==> {
                &&& out is Ok <==> id != "default"@ && store.profiles.contains_key(id)
                &&& out is Ok ==> after.profiles == store.profiles.remove(id)
                &&& out is Ok ==> forall|key: Seq<char>| #[trigger]
                    after.assignments.contains_key(key) <==> store.assignments.contains_key(key)
                        && store.assignments[key] != id
            }
            &&& edit matches EditModel::Assign { device_uid, device_name, profile_id } ==> {
                &&& out is Ok <==> store.profiles.contains_key(profile_id) && trimmed(device_name).len() > 0
                &&& after.profiles == store.profiles
                &&& out is Ok ==> after.assignments.contains_key("name:"@ + trimmed(device_name))
                    && after.assignments["name:"@ + trimmed(device_name)] == profile_id
            }
        }),
{
}

/// An edit is saved before it is answered, and a refused one is answered without being saved.
pub proof fn edits_are_saved_before_they_are_answered(
    store: StoreModel,
    edit: EditModel,
    generation: u64,
    now: u64,
    command: ProfileCommand,
    store_after: StoreModel,
    action: ProfileAction,
)
    requires
        performs(store, edit, generation, now, command, store_after, action),
    ensures
        action is SaveProfiles <==> !(edit is List) && edited(store, edit, now).1 is Ok,
        action is SaveProfiles ==> command.phase == ProfilePhase::SavingEdit && store_after == edited(
            store,
            edit,
            now,
        ).0,
        action matches ProfileAction::Finish(response) ==> (response@.success <==> edit is List),
        edit is Upsert && action is SaveProfiles ==> opt_text(command.written) is Some && edited(
            store,
            edit,
            now,
        ).1 == Ok::<Option<Seq<char>>, Seq<char>>(opt_text(command.written)),
        edit is List ==> store_after == store,
{
}

/// A store without profiles takes over the live chain and saves that before the edit is carried out.
pub proof fn first_commands_adopt_the_live_chain(
    state: SystemwideState,
    store: &mut OutputProfileStore,
    edit: ProfileEdit,
    now: u64,
    begun: (ProfileCommand, ProfileAction),
)
    requires
        call_ensures(ProfileCommand::begin, (&state, store, edit, now), begun),
    ensures
        old(store)@.profiles.dom().len() == 0 ==> begun.1 is SaveProfiles && begun.0.phase
            == ProfilePhase::SavingDefault && begun.0.edit@ == edit@,
        old(store)@.profiles.dom().len() > 0 && edit@ is List ==> begun.1 is Finish && final(store)@ == old(store)@,
        old(store)@.profiles.dom().len() > 0 && !(edit@ is List) && edited(old(store)@, edit@, now).1
            is Ok ==> begun.1 is SaveProfiles && final(store)@ == edited(old(store)@, edit@, now).0,
{
}

/// What could not be saved is answered with the reason. What was saved is answered with the generation;
/// after the live chain was taken over, the edit follows.
pub proof fn saved_edits_are_answered(
    command: ProfileCommand,
    state: SystemwideState,
    store: &mut OutputProfileStore,
    outcome: Result<bool, String>,
    now: u64,
    next: (ProfileCommand, ProfileAction),
)
    requires
        call_ensures(ProfileCommand::saved, (command, &state, store, outcome, now), next),
        command.phase != ProfilePhase::Finished,
    ensures
        outcome matches Err(e) ==> final(store)@ == old(store)@ && (next.1 matches ProfileAction::Finish(
            response,
        ) && !response@.success && response@.error == Some(
            if command.phase == ProfilePhase::SavingDefault {
                "Failed to adopt default output profile: "@ + e@
            } else {
                e@
            },
        )),
        outcome is Ok && command.phase == ProfilePhase::SavingEdit ==> final(store)@ == old(store)@ && (
        next.1 matches ProfileAction::Finish(response) && response@.success && response@.data is Some
            && tells_count(
            json_member(response@.data->0, "generation"@),
            state@.pipeline.generation as int,
        )),
        outcome is Ok && command.phase == ProfilePhase::SavingDefault && !(command.edit@ is List) && edited(
            old(store)@,
            command.edit@,
            now,
        ).1 is Ok ==> next.1 is SaveProfiles && final(store)@ == edited(old(store)@, command.edit@, now).0,
{
    edits_are_answered_with_what_was_written(opt_text(command.written), state@.pipeline.generation);
}

} // verus!
