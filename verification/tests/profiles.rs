//! Output profiles: keys, resolution, edits, persistence and the commands on them.

use sotf_daemon::json::JsonValue;
use sotf_daemon::output_profiles::{
    OutputProfile, OutputProfileStore, PersistedOutputProfiles, StartupChain, PROFILES_VERSION,
};
use sotf_daemon::plugins::{PluginConfig, PluginGraphConfig, PluginGraphNodeConfig};
use sotf_daemon::profile_commands::{ProfileAction, ProfileCommand, ProfileEdit};
use sotf_daemon::response::Response;
use sotf_daemon::startup::{recall_startup_chain, recall_startup_route};
use sotf_daemon::state::SystemwideState;

const DEFAULT_PROFILE_ID: &str = "default";

fn json(text: &str) -> JsonValue {
    JsonValue::parse(text).expect("valid JSON")
}

fn at<'a>(value: &'a JsonValue, path: &[&str]) -> &'a JsonValue {
    path.iter().fold(value, |value, name| {
        value.member(name).unwrap_or_else(|| panic!("no member {name}"))
    })
}

fn list(value: &JsonValue) -> &Vec<JsonValue> {
    match value {
        JsonValue::List(items) => items,
        other => panic!("expected a list, got {other:?}"),
    }
}

fn rack_profile(id: &str) -> OutputProfile {
    OutputProfile {
        id: id.to_string(),
        name: format!("name-{id}"),
        topology: "rack".to_string(),
        plugins: vec![PluginConfig::new("gain", json(r#"{"gain_db": -3.0}"#))],
        graph: None,
        input_channels: 2,
        output_channels: 2,
        updated_at_unix_ms: 0,
    }
}

#[test]
fn device_key_prefers_uid_over_name() {
    assert_eq!(
        OutputProfileStore::device_key(Some("  abc "), "Speakers"),
        "uid:abc"
    );
    assert_eq!(
        OutputProfileStore::device_key(Some(""), "Speakers"),
        "name:Speakers"
    );
    assert_eq!(
        OutputProfileStore::device_key(None, "Speakers"),
        "name:Speakers"
    );
}

#[test]
fn resolve_prefers_uid_then_name_then_default() {
    let mut store = OutputProfileStore::default();
    store.profiles.push(rack_profile(DEFAULT_PROFILE_ID));
    store.profiles.push(rack_profile("p-head"));
    store.profiles.push(rack_profile("p-name"));
    store.assignments.insert("uid:AAA", "p-head");
    store.assignments.insert("name:Speakers", "p-name");
    store.assignments.insert("uid:STALE", "p-deleted");

    assert_eq!(
        store.resolve_profile_id(Some("AAA"), "Whatever"),
        Some("p-head".to_string())
    );
    assert_eq!(
        store.resolve_profile_id(None, "Speakers"),
        Some("p-name".to_string())
    );
    assert_eq!(
        store.resolve_profile_id(Some("STALE"), "Unknown Device"),
        Some(DEFAULT_PROFILE_ID.to_string())
    );
    assert_eq!(
        store.resolve_profile_id(None, "Unknown Device"),
        Some(DEFAULT_PROFILE_ID.to_string())
    );
}

#[test]
fn upsert_allocates_ids_and_rejects_bad_topology() {
    let mut store = OutputProfileStore::default();
    let mut profile = rack_profile("");
    profile.name = "Headphones".to_string();
    let id = store.upsert(profile, 7).unwrap();
    assert_eq!(id, "profile-1");
    assert!(store.get(&id).is_some());
    assert_eq!(store.get(&id).unwrap().updated_at_unix_ms, 7);

    let mut bad = rack_profile("bad");
    bad.topology = "mesh".to_string();
    assert!(store.upsert(bad, 7).is_err());

    let mut graphless = rack_profile("graphless");
    graphless.topology = "graph".to_string();
    assert!(store.upsert(graphless, 7).is_err());
}

#[test]
fn profiles_name_what_is_wrong() {
    let verdict = |edit: fn(&mut OutputProfile)| {
        let mut profile = rack_profile("p");
        edit(&mut profile);
        profile.validate().unwrap_err()
    };
    assert!(rack_profile("p").validate().is_ok());
    assert_eq!(
        verdict(|p| p.id = "  ".to_string()),
        "output profile id must not be empty"
    );
    assert_eq!(
        verdict(|p| p.id = "é".repeat(33)),
        "output profile id must not exceed 64 characters"
    );
    assert_eq!(
        verdict(|p| p.name = String::new()),
        "output profile name must not be empty"
    );
    assert_eq!(
        verdict(|p| p.name = "n".repeat(81)),
        "output profile name must not exceed 80 characters"
    );
    assert_eq!(
        verdict(|p| p.topology = "mesh".to_string()),
        "output profile topology must be \"rack\" or \"graph\", got \"mesh\""
    );
    assert_eq!(
        verdict(|p| p.topology = "graph".to_string()),
        "graph profiles must carry a graph"
    );
}

#[test]
fn remove_reassigns_and_protects_default() {
    let mut store = OutputProfileStore::default();
    store.profiles.push(rack_profile(DEFAULT_PROFILE_ID));
    store.profiles.push(rack_profile("p-x"));
    store.assignments.insert("uid:1", "p-x");
    store.current_profile_id = Some("p-x".to_string());

    assert!(store.remove(DEFAULT_PROFILE_ID).is_err());
    assert!(store.remove("p-x").is_ok());
    assert!(store.assignments.entries.is_empty());
    assert_eq!(
        store.current_profile_id.as_deref(),
        Some(DEFAULT_PROFILE_ID)
    );
    assert!(store.remove("p-x").is_err());
}

#[test]
fn sync_live_chain_updates_current_profile_only() {
    let mut store = OutputProfileStore::default();
    store.profiles.push(rack_profile(DEFAULT_PROFILE_ID));
    store.profiles.push(rack_profile("p-head"));
    store.current_profile_id = Some("p-head".to_string());

    let live = vec![PluginConfig::new("gain", json(r#"{"gain_db": 6.0}"#))];
    store.sync_live_chain(live.clone(), None, 2, 2, 9);

    let head = store.get("p-head").expect("head");
    assert_eq!(head.plugins.len(), 1);
    assert!(head.plugins[0].parameters.matches(&live[0].parameters));
    assert_eq!(head.topology, "rack");
    assert_eq!(head.name, "name-p-head");
    let untouched = store.get(DEFAULT_PROFILE_ID).expect("default");
    assert!(!untouched.plugins[0].parameters.matches(&head.plugins[0].parameters));
}

#[test]
fn routes_recall_the_profile_of_each_device() {
    let mut store = OutputProfileStore::default();
    store.profiles.push(rack_profile("a"));
    store.profiles.push(rack_profile("b"));
    store.record_route(Some(" UID-1 "), "Twin", "a");
    store.record_route(Some("UID-2"), "Twin", "b");
    assert_eq!(store.resolve_profile_id(Some("UID-1"), "Twin").as_deref(), Some("a"));
    assert_eq!(store.resolve_profile_id(Some("UID-2"), "Twin").as_deref(), Some("b"));
    assert_eq!(store.resolve_profile_id(None, " Twin ").as_deref(), Some("b"));
    let (profile, uid, name) = store.current();
    assert_eq!(profile.as_deref(), Some("b"));
    assert_eq!(uid.as_deref(), Some("UID-2"));
    assert_eq!(name.as_deref(), Some("Twin"));

    store.remove("b").unwrap();
    assert_eq!(store.resolve_profile_id(Some("UID-2"), "Twin"), None);
}

#[test]
fn profiles_are_listed_by_name_and_saved_by_id() {
    let mut store = OutputProfileStore::default();
    for (id, name) in [("c", "Alpha"), ("a", "Beta"), ("b", "Alpha")] {
        let mut profile = rack_profile(id);
        profile.name = name.to_string();
        store.upsert(profile, 1).unwrap();
    }
    let ids = |profiles: &[OutputProfile]| {
        profiles.iter().map(|p| p.id.clone()).collect::<Vec<_>>()
    };
    assert_eq!(ids(&store.profiles_sorted()), vec!["b", "c", "a"]);
    assert_eq!(ids(&store.snapshot().profiles), vec!["a", "b", "c"]);
}

#[test]
fn profiles_save_and_load_round_trip() {
    let mut store = OutputProfileStore::default();
    let id = store.upsert(rack_profile(""), 5).unwrap();
    store.assign(Some("UID-1"), "Headphones", &id).unwrap();
    store.record_route(Some("UID-1"), "Headphones", &id);

    let reloaded = OutputProfileStore::restore(Some(store.snapshot()));
    assert_eq!(reloaded.profiles.len(), 1);
    assert_eq!(reloaded.assignments.get("uid:UID-1"), Some(id.as_str()));
    assert_eq!(reloaded.current_device_uid.as_deref(), Some("UID-1"));
    assert_eq!(reloaded.current_profile_id.as_deref(), Some(id.as_str()));
    assert_eq!(reloaded.next_id, 2);

    let wrong_version = PersistedOutputProfiles {
        version: PROFILES_VERSION + 1,
        ..store.snapshot()
    };
    assert!(OutputProfileStore::restore(Some(wrong_version)).profiles.is_empty());
    let mut invalid = store.snapshot();
    invalid.profiles[0].topology = "mesh".to_string();
    assert!(OutputProfileStore::restore(Some(invalid)).profiles.is_empty());
    assert!(OutputProfileStore::restore(None).profiles.is_empty());
}

#[test]
fn cold_start_recalls_the_chain_of_the_last_route() {
    let mut store = OutputProfileStore::default();
    store.profiles.push(rack_profile(DEFAULT_PROFILE_ID));
    let mut graph_profile = rack_profile("g");
    graph_profile.topology = "graph".to_string();
    graph_profile.graph = Some(PluginGraphConfig {
        nodes: vec![PluginGraphNodeConfig {
            id: 5,
            plugin_type: "gain".to_string(),
            parameters: json("{}"),
            input_channels: 2,
            bypassed: false,
        }],
        edges: vec![],
    });
    store.profiles.push(graph_profile);
    assert!(recall_startup_route(&store, None).is_none());

    store.record_route(Some("UID-1"), "EVO8", "g");
    let (uid, device) = recall_startup_route(&store, None).unwrap();
    assert_eq!(uid.as_deref(), Some("UID-1"));
    assert_eq!(device, "EVO8");
    assert!(matches!(
        recall_startup_chain(&mut store, uid, device),
        StartupChain::Graph(graph) if graph.nodes[0].id == 5
    ));

    let (uid, device) = recall_startup_route(&store, Some(" Built-in Output ")).unwrap();
    assert_eq!(uid, None);
    assert_eq!(device, "Built-in Output");
    assert!(matches!(
        recall_startup_chain(&mut store, uid, device),
        StartupChain::Rack(plugins) if plugins.len() == 1
    ));
    assert_eq!(store.current_profile_id.as_deref(), Some(DEFAULT_PROFILE_ID));
}

fn test_output_profile(id: &str, name: &str, plugins: Vec<PluginConfig>) -> OutputProfile {
    OutputProfile {
        id: id.to_string(),
        name: name.to_string(),
        topology: "rack".to_string(),
        plugins,
        graph: None,
        input_channels: 2,
        output_channels: 2,
        updated_at_unix_ms: 0,
    }
}

/// Carries a command out with a disk that always works.
fn run(state: &SystemwideState, store: &mut OutputProfileStore, edit: ProfileEdit) -> Response {
    let (mut command, mut action) = ProfileCommand::begin(state, store, edit, 11);
    loop {
        match action {
            ProfileAction::Finish(response) => return response,
            ProfileAction::SaveProfiles => {
                (command, action) = command.saved(state, store, Ok(false), 11);
            }
        }
    }
}

fn assign(device_name: &str, profile_id: &str) -> ProfileEdit {
    ProfileEdit::Assign {
        device_uid: None,
        device_name: device_name.to_string(),
        profile_id: profile_id.to_string(),
    }
}

#[test]
fn handle_get_output_profiles_adopts_default_from_live_chain() {
    let state = SystemwideState::default();
    let mut store = OutputProfileStore::default();
    let resp = run(&state, &mut store, ProfileEdit::List);
    assert!(resp.success);
    let data = resp.data.expect("output profiles data");
    let profiles = list(at(&data, &["profiles"]));
    assert_eq!(profiles.len(), 1);
    assert_eq!(at(&profiles[0], &["id"]).as_text(), Some("default"));
    assert_eq!(at(&profiles[0], &["topology"]).as_text(), Some("rack"));
    assert!(list(at(&profiles[0], &["plugins"])).is_empty());
    assert!(profiles[0].member("input_channels").is_some());
    assert!(profiles[0].member("updated_at_unix_ms").is_some());
    assert!(matches!(at(&data, &["assignments"]), JsonValue::Object(_)));
    assert!(at(&data, &["current"]).member("profile_id").is_some());
    assert!(at(&data, &["generation"]).as_unsigned().is_some());
}

#[test]
fn output_profile_crud_round_trip_on_one_daemon() {
    let state = SystemwideState::default();
    let mut store = OutputProfileStore::default();

    let created = run(
        &state,
        &mut store,
        ProfileEdit::Upsert(test_output_profile(
            "",
            "Headphones",
            vec![PluginConfig::new("eq", json("{}"))],
        )),
    );
    assert!(created.success);
    let created_data = created.data.expect("profile id");
    let profile_id = at(&created_data, &["profile_id"])
        .as_text()
        .expect("profile id string")
        .to_string();
    assert_eq!(profile_id, "profile-1");

    let assigned = run(&state, &mut store, assign("Desk Speakers", &profile_id));
    assert!(assigned.success);

    let fetched = run(&state, &mut store, ProfileEdit::List);
    assert!(fetched.success);
    let data = fetched.data.expect("profiles data");
    assert_eq!(list(at(&data, &["profiles"])).len(), 2);
    assert_eq!(
        at(&data, &["assignments", "name:Desk Speakers"]).as_text(),
        Some(profile_id.as_str())
    );

    let renamed = run(
        &state,
        &mut store,
        ProfileEdit::Upsert(test_output_profile(
            &profile_id,
            "Headphones v2",
            vec![PluginConfig::new("gain", json("{}"))],
        )),
    );
    assert!(renamed.success);
    assert_eq!(
        at(&renamed.data.expect("rename data"), &["profile_id"]).as_text(),
        Some(profile_id.as_str())
    );

    let delete_unknown = run(&state, &mut store, ProfileEdit::Delete("profile-9".to_string()));
    assert!(!delete_unknown.success);
    let delete_default = run(&state, &mut store, ProfileEdit::Delete("default".to_string()));
    assert!(!delete_default.success);

    let deleted = run(&state, &mut store, ProfileEdit::Delete(profile_id));
    assert!(deleted.success);
    let refetched = run(&state, &mut store, ProfileEdit::List);
    let data = refetched.data.expect("refetch data");
    assert_eq!(list(at(&data, &["profiles"])).len(), 1);
    assert!(at(&data, &["assignments"]).matches(&json("{}")));
}

#[test]
fn output_profile_mutations_reject_invalid_input() {
    let state = SystemwideState::default();
    let mut store = OutputProfileStore::default();

    let mut bad_topology = test_output_profile("bad", "Bad", vec![]);
    bad_topology.topology = "mesh".to_string();
    assert!(!run(&state, &mut store, ProfileEdit::Upsert(bad_topology)).success);

    assert!(!run(&state, &mut store, assign("Ghost", "profile-9")).success);
    assert!(!run(&state, &mut store, assign("   ", "default")).success);
}

#[test]
fn failed_saves_are_reported() {
    let state = SystemwideState::default();
    let mut store = OutputProfileStore::default();
    let (command, action) = ProfileCommand::begin(&state, &mut store, ProfileEdit::List, 11);
    assert!(matches!(action, ProfileAction::SaveProfiles));
    let (_, action) = command.saved(&state, &mut store, Err("disk full".to_string()), 11);
    assert!(matches!(
        action,
        ProfileAction::Finish(response)
            if response.error.as_deref() == Some("Failed to adopt default output profile: disk full")
    ));

    let edit = ProfileEdit::Upsert(test_output_profile("", "X", vec![]));
    let (command, action) = ProfileCommand::begin(&state, &mut store, edit, 11);
    assert!(matches!(action, ProfileAction::SaveProfiles));
    let (_, action) = command.saved(&state, &mut store, Err("disk full".to_string()), 11);
    assert!(matches!(
        action,
        ProfileAction::Finish(response) if response.error.as_deref() == Some("disk full")
    ));
    assert!(store.get("profile-1").is_some());
}
