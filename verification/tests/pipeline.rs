//! Plugin chains and graphs, rack edits, artifacts and the pipeline supervisor.

use sotf_daemon::apply::pipeline_timing_after_config_request;
use sotf_daemon::artifact::{
    artifact_sample_rate, load_plugin_artifact, plan_plugin_artifact, plan_plugin_artifact_text,
    refuse_artifact_file, room_eq_plan, validate_output_device_channels, ArtifactIntent,
    PluginArtifactPlan, MAX_PLUGIN_ARTIFACT_FILE_BYTES,
};
use sotf_daemon::driver::{ConfigResult, DriverConfig, DriverStatus};
use sotf_daemon::graph::{linear_graph_node_ids, rack_plugins_to_linear_graph, reorder_linear_graph};
use sotf_daemon::graph_meter::build_driver_plugin_graph;
use sotf_daemon::json::JsonValue;
use sotf_daemon::pipeline::{
    pipeline_spec_to_json, pipeline_specs_match, PipelineSpec, PipelineSupervisor,
};
use sotf_daemon::plugins::{
    build_driver_plugin_chain, sanitize_user_plugins, PluginConfig, PluginGraphConfig,
    PluginGraphEdgeConfig, PluginGraphNodeConfig,
};
use sotf_daemon::rack::{
    add_plugin, changed_plugin_parameters, encode_plugin_param_value, remove_plugin,
    reorder_plugins,
};
use sotf_daemon::reconfigure::{
    acknowledged_config_for_outcome, actual_sample_rate, PipelineReconfigureOutcome,
};
use sotf_daemon::state::SystemwideState;

fn json(text: &str) -> JsonValue {
    JsonValue::parse(text).expect("valid JSON")
}

fn test_plugin(plugin_type: &str) -> PluginConfig {
    PluginConfig::new(plugin_type, json("{}"))
}

fn node(id: usize, plugin_type: &str, parameters: &str, input_channels: usize) -> PluginGraphNodeConfig {
    PluginGraphNodeConfig {
        id,
        plugin_type: plugin_type.to_string(),
        parameters: json(parameters),
        input_channels,
        bypassed: false,
    }
}

fn graph(nodes: Vec<PluginGraphNodeConfig>, edges: &[(usize, usize)]) -> PluginGraphConfig {
    PluginGraphConfig {
        nodes,
        edges: edges
            .iter()
            .map(|(from, to)| PluginGraphEdgeConfig::new(*from, *to))
            .collect(),
    }
}

/// Stands for the engine's judgement: ids are unique, edges lead between nodes, and there is no
/// cycle.
fn validate(graph: &PluginGraphConfig) -> Result<(), String> {
    let mut ids: Vec<usize> = graph.nodes.iter().map(|node| node.id).collect();
    ids.sort();
    ids.dedup();
    if ids.len() != graph.nodes.len() {
        return Err("node ids must be unique".to_string());
    }
    let mut edges = graph.edges.clone();
    if edges
        .iter()
        .any(|edge| !ids.contains(&edge.from_node) || !ids.contains(&edge.to_node))
    {
        return Err("edges must lead between nodes".to_string());
    }
    let mut open = ids;
    while !open.is_empty() {
        let Some(at) = open
            .iter()
            .position(|id| edges.iter().all(|edge| edge.to_node != *id))
        else {
            return Err("graph must be acyclic".to_string());
        };
        let id = open.remove(at);
        edges.retain(|edge| edge.from_node != id);
    }
    Ok(())
}

/// Stands for the engine's reading of a graph.
fn decode(value: JsonValue) -> Result<PluginGraphConfig, String> {
    let list = |name: &str| match value.member(name) {
        Some(JsonValue::List(items)) => Ok(items.clone()),
        _ => Err(format!("missing field `{name}`")),
    };
    let number = |item: &JsonValue, name: &str| {
        item.member(name)
            .and_then(|n| n.as_unsigned())
            .map(|n| n as usize)
            .ok_or_else(|| format!("missing field `{name}`"))
    };
    let mut nodes = Vec::new();
    for item in list("nodes")? {
        nodes.push(PluginGraphNodeConfig {
            id: number(&item, "id")?,
            plugin_type: item
                .member("plugin_type")
                .and_then(|t| t.as_text())
                .ok_or("missing field `plugin_type`")?
                .to_string(),
            parameters: item.member("parameters").cloned().unwrap_or(json("{}")),
            input_channels: number(&item, "input_channels")?,
            bypassed: matches!(item.member("bypassed"), Some(JsonValue::Bool(true))),
        });
    }
    let mut edges = Vec::new();
    for item in list("edges")? {
        edges.push(PluginGraphEdgeConfig::new(
            number(&item, "from_node")?,
            number(&item, "to_node")?,
        ));
    }
    Ok(PluginGraphConfig { nodes, edges })
}

fn types(plugins: &[PluginConfig]) -> Vec<&str> {
    plugins.iter().map(|p| p.plugin_type.as_str()).collect()
}

#[test]
fn sanitize_user_plugins_strips_daemon_owned_types() {
    let plugins = vec![
        test_plugin("hal_input"),
        test_plugin("eq"),
        test_plugin("loudness_monitor"),
        test_plugin("gain"),
        test_plugin("hal_output"),
    ];
    let sanitized = sanitize_user_plugins(plugins);
    assert_eq!(types(&sanitized), vec!["eq", "gain"]);
}

#[test]
fn build_driver_plugin_chain_wraps_user_plugins_with_monitors() {
    let (runtime, input_idx, output_idx) =
        build_driver_plugin_chain(vec![test_plugin("eq"), test_plugin("gain")]);

    assert_eq!(input_idx, 0);
    assert_eq!(output_idx, 3);
    assert_eq!(
        types(&runtime),
        vec!["loudness_monitor", "eq", "gain", "loudness_monitor"]
    );
}

#[test]
fn build_driver_plugin_graph_preserves_topology_and_adds_monitor_boundaries() {
    let user = graph(
        vec![
            node(10, "gain", "{}", 2),
            node(20, "eq", r#"{"filters": []}"#, 2),
            node(30, "gain", "{}", 2),
        ],
        &[(10, 20), (10, 30)],
    );

    let (runtime, input_idx, output_idx) = build_driver_plugin_graph(user, 2, 2, &validate).unwrap();

    assert_eq!(input_idx, 0);
    assert_eq!(output_idx, 4);
    assert_eq!(runtime.nodes.len(), 5);
    assert_eq!(runtime.edges.len(), 5);
    assert_eq!(runtime.nodes[0].plugin_type, "loudness_monitor");
    assert_eq!(runtime.nodes[4].plugin_type, "loudness_monitor");
    assert!(runtime.nodes.iter().any(|node| node.id == 10));
    assert!(runtime
        .edges
        .iter()
        .any(|edge| edge.from_node == 10 && edge.to_node == 20));
    validate(&runtime).unwrap();
    assert_eq!(runtime.nodes[0].id, 31);
    assert_eq!(runtime.nodes[4].id, 32);
}

#[test]
fn metered_graphs_are_refused_with_a_reason() {
    let refused = |user: PluginGraphConfig| build_driver_plugin_graph(user, 2, 2, &validate).unwrap_err();
    assert_eq!(
        refused(graph(vec![], &[])),
        "Plugin graph must contain at least one user node"
    );
    assert_eq!(
        refused(graph(vec![node(4, "spectrum_analyzer", "{}", 2)], &[])),
        "Plugin graph node 4 uses daemon-owned system plugin type 'spectrum_analyzer'"
    );
    assert_eq!(
        refused(graph(vec![node(1, "gain", "{}", 2)], &[(1, 2)])),
        "Invalid plugin graph: edges must lead between nodes"
    );
    assert_eq!(
        refused(graph(vec![node(usize::MAX, "gain", "{}", 2)], &[])),
        "Plugin graph node id space exhausted"
    );
    let ring = graph(
        vec![node(1, "gain", "{}", 2), node(2, "gain", "{}", 2)],
        &[(1, 2), (2, 1)],
    );
    assert_eq!(
        build_driver_plugin_graph(ring, 2, 2, &|_: &PluginGraphConfig| Ok(())).unwrap_err(),
        "Plugin graph must have at least one input and output path"
    );
    let picky = |candidate: &PluginGraphConfig| {
        if candidate.nodes.len() > 1 {
            Err("too wide".to_string())
        } else {
            Ok(())
        }
    };
    assert_eq!(
        build_driver_plugin_graph(graph(vec![node(1, "gain", "{}", 2)], &[]), 2, 2, &picky)
            .unwrap_err(),
        "Invalid monitored plugin graph: too wide"
    );
}

#[test]
fn linear_graphs_are_told_from_others() {
    let chain = graph(
        vec![
            node(3, "a", "{}", 2),
            node(1, "b", "{}", 2),
            node(2, "c", "{}", 2),
        ],
        &[(2, 3), (1, 2)],
    );
    assert_eq!(linear_graph_node_ids(&chain), Some(vec![1, 2, 3]));
    assert_eq!(linear_graph_node_ids(&graph(vec![], &[])), Some(vec![]));
    assert_eq!(linear_graph_node_ids(&graph(vec![], &[(1, 2)])), None);

    let nodes = || {
        vec![
            node(1, "a", "{}", 2),
            node(2, "b", "{}", 2),
            node(3, "c", "{}", 2),
        ]
    };
    assert_eq!(linear_graph_node_ids(&graph(nodes(), &[(2, 3), (3, 2)])), None);
    assert_eq!(linear_graph_node_ids(&graph(nodes(), &[(1, 2), (1, 3)])), None);
    assert_eq!(linear_graph_node_ids(&graph(nodes(), &[(1, 3), (2, 3)])), None);
    assert_eq!(linear_graph_node_ids(&graph(nodes(), &[(1, 2), (2, 2)])), None);
    assert_eq!(linear_graph_node_ids(&graph(nodes(), &[(1, 2)])), None);
}

#[test]
fn reorder_linear_graph_preserves_node_state_and_rebuilds_edges() {
    let mut first = node(10, "gain", r#"{"gain_db": -3.0}"#, 2);
    first.bypassed = true;
    let second = node(20, "eq", r#"{"filters": [1, 2]}"#, 6);
    let user = graph(vec![first.clone(), second.clone()], &[(10, 20)]);

    let reordered = reorder_linear_graph(&user, &vec![20, 10], &validate).unwrap();
    assert_eq!(
        reordered
            .nodes
            .iter()
            .map(|node| node.id)
            .collect::<Vec<_>>(),
        vec![20, 10]
    );
    assert_eq!(reordered.edges.len(), 1);
    assert_eq!(reordered.edges[0].from_node, 20);
    assert_eq!(reordered.edges[0].to_node, 10);
    assert!(reordered.nodes[0].parameters.matches(&second.parameters));
    assert_eq!(reordered.nodes[0].input_channels, second.input_channels);
    assert_eq!(reordered.nodes[0].bypassed, second.bypassed);
    assert!(reordered.nodes[1].parameters.matches(&first.parameters));
    assert_eq!(reordered.nodes[1].input_channels, first.input_channels);
    assert_eq!(reordered.nodes[1].bypassed, first.bypassed);
}

#[test]
fn reorder_linear_graph_rejects_invalid_order_and_nonlinear_graphs() {
    let user = graph(
        vec![node(1, "gain", "{}", 2), node(2, "gain", "{}", 2)],
        &[(1, 2)],
    );
    assert!(reorder_linear_graph(&user, &vec![1, 1], &validate).is_err());
    assert!(reorder_linear_graph(&user, &vec![1], &validate).is_err());
    assert_eq!(
        reorder_linear_graph(&user, &vec![1, 7], &validate).unwrap_err(),
        "Invalid graph order: duplicate or unknown node ID 7"
    );
    assert_eq!(
        reorder_linear_graph(&user, &vec![1], &validate).unwrap_err(),
        "Order length 1 doesn't match graph node count 2"
    );

    let nonlinear = graph(
        vec![
            node(1, "gain", "{}", 2),
            node(2, "gain", "{}", 2),
            node(3, "gain", "{}", 2),
        ],
        &[(1, 2), (1, 3)],
    );
    assert!(reorder_linear_graph(&nonlinear, &vec![1, 2, 3], &validate).is_err());
    let never = |_: &PluginGraphConfig| Err::<(), String>("no".to_string());
    assert_eq!(
        reorder_linear_graph(&user, &vec![2, 1], &never).unwrap_err(),
        "Invalid plugin graph: no"
    );
    let forward_only = |g: &PluginGraphConfig| {
        if g.edges.iter().all(|e| e.from_node < e.to_node) {
            Ok(())
        } else {
            Err("backward".to_string())
        }
    };
    assert_eq!(
        reorder_linear_graph(&user, &vec![2, 1], &forward_only).unwrap_err(),
        "Reordered graph is invalid: backward"
    );
}

#[test]
fn rack_state_promotion_preserves_order_and_parameters() {
    let plugins = vec![
        test_plugin("gain"),
        PluginConfig::new("eq", json(r#"{"filters": [1]}"#)),
    ];
    let graph =
        rack_plugins_to_linear_graph(&plugins, 2, 1, Some(6), Some(true), &validate).unwrap();
    assert_eq!(graph.nodes.len(), 2);
    assert_eq!(graph.edges.len(), 1);
    assert_eq!(graph.edges[0].from_node, 0);
    assert_eq!(graph.edges[0].to_node, 1);
    assert_eq!(graph.nodes[0].plugin_type, "gain");
    assert!(graph.nodes[0].parameters.matches(&plugins[0].parameters));
    assert_eq!(graph.nodes[0].input_channels, 2);
    assert!(!graph.nodes[0].bypassed);
    assert_eq!(graph.nodes[1].plugin_type, "eq");
    assert!(graph.nodes[1].parameters.matches(&plugins[1].parameters));
    assert_eq!(graph.nodes[1].input_channels, 6);
    assert!(graph.nodes[1].bypassed);
}

#[test]
fn rack_state_promotion_names_what_is_wrong() {
    let plugins = vec![test_plugin("gain")];
    let promote = |index: usize, channels: Option<usize>, bypassed: Option<bool>| {
        rack_plugins_to_linear_graph(&plugins, 0, index, channels, bypassed, &validate)
    };
    assert_eq!(
        promote(0, None, None).unwrap_err(),
        "set_rack_plugin_state requires input_channels or bypassed"
    );
    assert_eq!(
        promote(1, None, Some(true)).unwrap_err(),
        "Plugin index 1 out of range (have 1)"
    );
    assert_eq!(
        promote(0, Some(33), None).unwrap_err(),
        "Invalid plugin input channel count 33. Must be between 1 and 32."
    );
    assert_eq!(promote(0, None, Some(true)).unwrap().nodes[0].input_channels, 1);
}

#[test]
fn pipeline_spec_to_json_reports_plugin_types_and_count() {
    let spec = PipelineSpec {
        output_device: Some("ADAM Audio D3V".to_string()),
        user_plugins: vec![test_plugin("eq"), test_plugin("gain")],
        user_graph: None,
        input_channels: 2,
        output_channels: 6,
    };
    let shown = pipeline_spec_to_json(&spec);
    assert!(shown.matches(&json(
        r#"{"output_device":"ADAM Audio D3V","input_channels":2,"output_channels":6,
            "user_plugin_count":2,"user_plugin_types":["eq","gain"]}"#
    )));
}

#[test]
fn pipeline_supervisor_builds_runtime_chain_without_committing_until_success() {
    let supervisor = PipelineSupervisor::default();

    let plan = supervisor
        .prepare_plan(
            vec![
                test_plugin("hal_input"),
                test_plugin("eq"),
                test_plugin("loudness_monitor"),
                test_plugin("gain"),
                test_plugin("hal_output"),
            ],
            2,
            6,
            2,
            &None,
        )
        .expect("valid pipeline plan");

    assert_eq!(plan.spec.input_channels, 2);
    assert_eq!(plan.spec.output_channels, 6);
    assert_eq!(types(&plan.spec.user_plugins), vec!["eq", "gain"]);
    assert_eq!(plan.input_loudness_index, 0);
    assert_eq!(plan.output_loudness_index, 3);
    assert_eq!(
        types(&plan.runtime_plugins),
        vec!["loudness_monitor", "eq", "gain", "loudness_monitor"]
    );
    assert!(supervisor.input_loudness_index().is_none());
    assert!(supervisor.output_loudness_index().is_none());
}

#[test]
fn negotiated_driver_timing_overrides_requested_pipeline_timing() {
    let result = ConfigResult::negotiated(44_100, 256, 6);

    assert_eq!(
        pipeline_timing_after_config_request(&result, 48_000, 512),
        (44_100, 256)
    );
    assert_eq!(
        pipeline_timing_after_config_request(&ConfigResult::Accepted, 48_000, 512),
        (48_000, 512)
    );
}

#[test]
fn pipeline_supervisor_commit_atomically_updates_desired_and_applied_state() {
    let mut supervisor = PipelineSupervisor::default();
    let plan = supervisor
        .prepare_plan(vec![test_plugin("eq")], 4, 8, 2, &None)
        .expect("valid pipeline plan");

    supervisor.commit_applied(&plan);

    assert_eq!(supervisor.input_channels(), 4);
    assert_eq!(supervisor.output_channels(), 8);
    assert_eq!(supervisor.input_loudness_index(), Some(0));
    assert_eq!(supervisor.output_loudness_index(), Some(2));
    assert_eq!(supervisor.applied_generation(), Some(1));
}

#[test]
fn pipeline_supervisor_rejects_invalid_channels_before_state_mutation() {
    let supervisor = PipelineSupervisor::default();
    let result = supervisor.prepare_plan(vec![test_plugin("eq")], 0, 64, 2, &None);

    assert!(result.unwrap_err().contains("Invalid output channel count"));
    assert_eq!(supervisor.input_channels(), 2);
    assert_eq!(supervisor.output_channels(), 2);
    assert_eq!(
        supervisor
            .prepare_plan(vec![], 40, 2, 2, &None)
            .unwrap_err(),
        "Invalid HAL input channel count: 40. Must be between 1 and 32."
    );
}

#[test]
fn pipeline_supervisor_reducer_methods_control_desired_mutation() {
    let mut supervisor = PipelineSupervisor::default();

    supervisor
        .set_desired_output_device(Some("ADAM Audio D3V".to_string()))
        .expect("safe device should be accepted");
    assert_eq!(
        supervisor.selected_output_device().as_deref(),
        Some("ADAM Audio D3V")
    );

    let result = supervisor.set_desired_output_device(Some("SotF Virtual Audio".to_string()));
    assert!(result.unwrap_err().contains("virtual/loopback"));
    assert_eq!(
        supervisor.selected_output_device().as_deref(),
        Some("ADAM Audio D3V")
    );

    let plan = supervisor
        .prepare_plan(vec![test_plugin("eq")], 10, 4, 10, &None)
        .expect("valid idle reconfigure plan");
    supervisor.commit_idle_reconfigure(&plan);
    assert_eq!(supervisor.input_channels(), 10);
    assert_eq!(supervisor.output_channels(), 4);
    assert_eq!(supervisor.generation(), 2);
    assert!(supervisor.applied_generation().is_none());
}

#[test]
fn plans_fall_back_on_channels_and_devices() {
    let supervisor = PipelineSupervisor::default();
    let plan = |input: usize, fallback: usize, configured: Option<&str>| {
        supervisor
            .prepare_plan(vec![], input, 2, fallback, &configured.map(str::to_string))
            .unwrap()
            .spec
    };
    assert_eq!(plan(4, 8, None).input_channels, 4);
    assert_eq!(plan(0, 8, None).input_channels, 8);
    assert_eq!(plan(0, 0, None).input_channels, 2);
    assert_eq!(plan(2, 2, Some("EVO8")).output_device.as_deref(), Some("EVO8"));
    assert_eq!(plan(2, 2, Some("BlackHole 2ch")).output_device, None);
}

#[test]
fn pipeline_supervisor_preserves_graph_when_output_device_changes() {
    let user = graph(vec![node(42, "gain", "{}", 2)], &[]);
    let mut supervisor = PipelineSupervisor::default();
    let initial = supervisor
        .prepare_graph_plan(user, 2, 2, 2, &None, &validate)
        .unwrap();
    supervisor.commit_applied(&initial);

    let next = supervisor
        .prepare_with_selected_device("Built-in Output".to_string(), &None, &validate)
        .unwrap();

    assert!(next.spec.user_plugins.is_empty());
    let retained = next.spec.user_graph.as_ref().expect("retained graph");
    assert_eq!(retained.nodes[0].id, 42);
    assert!(next.runtime_graph.is_some());
    assert_eq!(supervisor.applied_generation(), Some(1));
}

#[test]
fn pipeline_specs_match_ignores_key_order_but_catches_real_differences() {
    let gain = |parameters: &str| vec![PluginConfig::new("gain", json(parameters))];
    let base = PipelineSpec {
        output_device: Some("Speakers".to_string()),
        user_plugins: gain(r#"{"b": 1, "a": 2.0}"#),
        user_graph: None,
        input_channels: 2,
        output_channels: 2,
    };
    let reordered_keys = PipelineSpec {
        user_plugins: vec![PluginConfig::new(
            "gain",
            JsonValue::Object(match json(r#"{"a": 2.0, "b": 1}"#) {
                JsonValue::Object(mut members) => {
                    members.reverse();
                    members
                }
                other => panic!("unexpected {other:?}"),
            }),
        )],
        ..base.clone()
    };
    assert!(pipeline_specs_match(&base, &reordered_keys));

    for different in [
        PipelineSpec {
            input_channels: 8,
            ..base.clone()
        },
        PipelineSpec {
            output_channels: 6,
            ..base.clone()
        },
        PipelineSpec {
            output_device: None,
            ..base.clone()
        },
        PipelineSpec {
            user_plugins: gain(r#"{"a": 3.0, "b": 1}"#),
            ..base.clone()
        },
        PipelineSpec {
            user_plugins: Vec::new(),
            ..base.clone()
        },
        PipelineSpec {
            user_graph: Some(graph(vec![node(1, "gain", "{}", 2)], &[])),
            ..base.clone()
        },
    ] {
        assert!(
            !pipeline_specs_match(&base, &different),
            "diverged spec must take the cold restart path"
        );
    }
}

#[test]
fn restored_driver_pipeline_acknowledges_restored_channel_geometry() {
    let (actual, result) = acknowledged_config_for_outcome(
        48_000,
        512,
        10,
        48_000,
        PipelineReconfigureOutcome::Restored { input_channels: 2 },
    );

    assert_eq!(actual, DriverConfig::new(48_000, 512, 2));
    assert_eq!(result, ConfigResult::negotiated(48_000, 512, 2));
    let (_, accepted) = acknowledged_config_for_outcome(
        48_000,
        512,
        10,
        48_000,
        PipelineReconfigureOutcome::Restarted,
    );
    assert_eq!(accepted, ConfigResult::Accepted);
}

#[test]
fn unsupported_rates_fall_to_the_nearest_supported_one() {
    assert_eq!(actual_sample_rate(48_000), 48_000);
    assert_eq!(actual_sample_rate(1), 44_100);
    assert_eq!(actual_sample_rate(46_050), 44_100);
    assert_eq!(actual_sample_rate(46_051), 48_000);
    assert_eq!(actual_sample_rate(100_000), 96_000);
    assert_eq!(actual_sample_rate(1_000_000), 192_000);
    assert_eq!(actual_sample_rate(u32::MAX), 44_100);
}

#[test]
fn plugin_param_value_encoding_matches_engine_string_contract() {
    assert_eq!(encode_plugin_param_value(&json(r#""raw""#)), "raw");
    assert_eq!(encode_plugin_param_value(&json("1.5")), "1.5");
    assert_eq!(encode_plugin_param_value(&json("true")), "true");
    assert_eq!(
        encode_plugin_param_value(&json(r#"{"a": [1, 2]}"#)),
        r#"{"a":[1,2]}"#
    );
}

#[test]
fn changed_plugin_parameters_reports_only_changed_keys() {
    let old = json(r#"{"gain_db": 0.0, "mute": false}"#);
    let new = json(r#"{"gain_db": 3.0, "mute": false}"#);

    let changed = changed_plugin_parameters(&old, &new).expect("diffable objects");
    assert_eq!(changed.len(), 1);
    assert_eq!(changed[0].name, "gain_db");
    assert!(changed[0].value.matches(&json("3.0")));

    let unchanged = changed_plugin_parameters(&old, &old).expect("identical objects diff cleanly");
    assert!(unchanged.is_empty());

    assert!(changed_plugin_parameters(&old, &json("[1, 2]")).is_none());
    assert!(
        changed_plugin_parameters(
            &json(r#"{"gain_db": 0.0, "mute": false}"#),
            &json(r#"{"gain_db": 0.0}"#),
        )
        .is_none(),
        "removed keys must fall back to a full rebuild"
    );
    assert!(
        changed_plugin_parameters(&json(r#"{"a": 0.0}"#), &json(r#"{"a": -0.0}"#))
            .unwrap()
            .is_empty()
    );
}

#[test]
fn rack_edits_keep_to_the_rack() {
    let mut state = SystemwideState::default();
    let plan = state
        .prepare_plan(vec![test_plugin("a"), test_plugin("b")], 2, 2, 2, &None)
        .unwrap();
    state.commit_applied(&plan);

    let added = |index: Option<usize>| add_plugin(&state, test_plugin("x"), index).unwrap();
    assert_eq!(types(&added(None)), vec!["a", "b", "x"]);
    assert_eq!(types(&added(Some(0))), vec!["x", "a", "b"]);
    assert_eq!(types(&added(Some(9))), vec!["a", "b", "x"]);
    assert_eq!(types(&remove_plugin(&state, 0).unwrap()), vec!["b"]);
    assert_eq!(
        remove_plugin(&state, 2).unwrap_err(),
        "Plugin index 2 out of range (have 2)"
    );
    assert_eq!(
        types(&reorder_plugins(&state, &vec![1, 0]).unwrap()),
        vec!["b", "a"]
    );
    assert_eq!(
        reorder_plugins(&state, &vec![1]).unwrap_err(),
        "Order length 1 doesn't match plugin count 2"
    );
    assert_eq!(
        reorder_plugins(&state, &vec![1, 1]).unwrap_err(),
        "Invalid order: duplicate or out-of-range index 1"
    );
    assert_eq!(
        reorder_plugins(&state, &vec![0, 5]).unwrap_err(),
        "Invalid order: duplicate or out-of-range index 5"
    );

    let plan = state
        .prepare_graph_plan(
            graph(vec![node(1, "gain", "{}", 2)], &[]),
            2,
            2,
            2,
            &None,
            &validate,
        )
        .unwrap();
    state.commit_applied(&plan);
    assert!(add_plugin(&state, test_plugin("x"), None)
        .unwrap_err()
        .contains("A graph pipeline is active"));
    assert!(remove_plugin(&state, 0).is_err());
    assert!(reorder_plugins(&state, &vec![]).is_err());
}

#[test]
fn array_artifact_plans_as_rack_chain() {
    let artifact = json(
        r#"[
            { "plugin_type": "eq", "parameters": { "gain_db": 1.0 } },
            { "type": "gain", "parameters": { "gain_db": -3.0 } }
        ]"#,
    );

    let plan = plan_plugin_artifact(artifact, &decode, &validate).expect("valid rack artifact");
    match plan {
        PluginArtifactPlan::RackChain { plugins } => {
            assert_eq!(plugins.len(), 2);
            assert_eq!(plugins[0].plugin_type, "eq");
            assert_eq!(plugins[1].plugin_type, "gain");
        }
        PluginArtifactPlan::Graph { .. } => panic!("unexpected graph artifact"),
        PluginArtifactPlan::UnsupportedGraph { reason } => {
            panic!("unexpected graph artifact: {}", reason)
        }
    }
}

#[test]
fn graph_topology_is_not_flattened_into_rack_chain() {
    let artifact = json(
        r#"{
            "global_plugins": [{ "plugin_type": "eq", "parameters": {} }],
            "channels": {
                "L": { "plugins": [{ "plugin_type": "gain", "parameters": {} }] }
            }
        }"#,
    );

    let plan = plan_plugin_artifact(artifact, &decode, &validate).expect("recognized graph artifact");
    match plan {
        PluginArtifactPlan::UnsupportedGraph { reason } => {
            assert!(reason.contains("per-channel"));
        }
        PluginArtifactPlan::Graph { .. } => {
            panic!("per-channel artifact is not an engine graph")
        }
        PluginArtifactPlan::RackChain { .. } => panic!("graph artifact was flattened"),
    }
}

#[test]
fn engine_graph_artifact_preserves_nodes_edges_and_parameters() {
    let artifact = json(
        r#"{
            "graph": {
                "nodes": [
                    {
                        "id": 10,
                        "plugin_type": "gain",
                        "parameters": {"gain_db": -3.0},
                        "input_channels": 2,
                        "bypassed": true
                    },
                    {
                        "id": 20,
                        "plugin_type": "eq",
                        "parameters": {"filters": []},
                        "input_channels": 2
                    }
                ],
                "edges": [{"from_node": 10, "to_node": 20}]
            }
        }"#,
    );

    let plan = plan_plugin_artifact(artifact, &decode, &validate).unwrap();
    let PluginArtifactPlan::Graph { graph } = plan else {
        panic!("expected graph plan");
    };
    assert_eq!(graph.nodes.len(), 2);
    assert_eq!(graph.edges.len(), 1);
    assert_eq!(graph.nodes[0].id, 10);
    assert!(graph.nodes[0]
        .parameters
        .member("gain_db")
        .unwrap()
        .matches(&json("-3.0")));
    assert!(graph.nodes[0].bypassed);
    assert_eq!(graph.edges[0].from_node, 10);
    assert_eq!(graph.edges[0].to_node, 20);
}

#[test]
fn engine_graph_artifact_rejects_cycles_and_daemon_owned_nodes() {
    let cycle = json(
        r#"{
            "nodes": [
                {"id": 1, "plugin_type": "gain", "parameters": {}, "input_channels": 2},
                {"id": 2, "plugin_type": "gain", "parameters": {}, "input_channels": 2}
            ],
            "edges": [
                {"from_node": 1, "to_node": 2},
                {"from_node": 2, "to_node": 1}
            ]
        }"#,
    );
    assert!(plan_plugin_artifact(cycle, &decode, &validate)
        .unwrap_err()
        .contains("acyclic"));

    let system_node = json(
        r#"{
            "nodes": [{
                "id": 1,
                "plugin_type": "loudness_monitor",
                "parameters": {},
                "input_channels": 2
            }],
            "edges": []
        }"#,
    );
    assert!(plan_plugin_artifact(system_node, &decode, &validate)
        .unwrap_err()
        .contains("daemon-owned"));
}

#[test]
fn artifacts_name_what_is_wrong() {
    let refused = |text: &str| plan_plugin_artifact(json(text), &decode, &validate).unwrap_err();
    assert_eq!(refused("3"), "plugin artifact must be an array or object");
    assert_eq!(
        refused("{}"),
        "plugin artifact must be an array or contain a plugins/global_plugins array"
    );
    assert_eq!(refused(r#"{"plugins":{}}"#), "plugins must be an array");
    assert_eq!(refused("[3]"), "plugin entries must be objects");
    assert_eq!(
        refused(r#"[{"plugin_type":3,"type":"eq"}]"#),
        "plugin entry is missing plugin_type/type"
    );
    assert_eq!(
        refused(r#"[{"type":"hal_input"}]"#),
        "rack-compatible artifact did not contain any user plugins"
    );
    assert_eq!(
        refused(r#"{"graph":3}"#),
        "invalid plugin graph: missing field `nodes`"
    );
    assert_eq!(
        refused(r#"{"nodes":[],"edges":[]}"#),
        "plugin graph must contain at least one node"
    );
    let PluginArtifactPlan::RackChain { plugins } = plan_plugin_artifact(
        json(r#"{"global_plugins":[{"type":"gain","gain_db":1.0},{"type":"spectrum_analyzer"}]}"#),
        &decode,
        &validate,
    )
    .unwrap() else {
        panic!("expected a rack");
    };
    assert_eq!(plugins.len(), 1);
    assert!(plugins[0].parameters.matches(&json(r#"{"gain_db":1.0}"#)));
    let PluginArtifactPlan::UnsupportedGraph { reason } =
        plan_plugin_artifact(json(r#"{"routing":[]}"#), &decode, &validate).unwrap()
    else {
        panic!("expected an unsupported graph");
    };
    assert_eq!(
        reason,
        "artifact uses a graph representation without engine nodes/edges"
    );
}

#[test]
fn artifact_files_are_bounded_and_room_corrections_say_their_width() {
    assert!(refuse_artifact_file("/a", true, MAX_PLUGIN_ARTIFACT_FILE_BYTES).is_none());
    assert_eq!(
        refuse_artifact_file("/a", true, MAX_PLUGIN_ARTIFACT_FILE_BYTES + 1_048_576).unwrap(),
        "configuration is too large (65 MiB; maximum is 64 MiB)"
    );
    assert_eq!(
        refuse_artifact_file("/a", false, 1).unwrap(),
        "configuration '/a' is not a regular file"
    );
    let wide = graph(vec![node(1, "gain", "{}", 2), node(2, "gain", "{}", 6)], &[]);
    assert_eq!(room_eq_plan(wide, 3).required_channels, Some(6));
    assert_eq!(room_eq_plan(graph(vec![], &[]), 3).required_channels, Some(3));
}

#[test]
fn room_eq_channel_validation_rejects_incompatible_selected_device() {
    let error = validate_output_device_channels(6, "Fake Speakers", Ok(2), 48_000)
        .expect_err("six-channel RoomEQ config must be rejected on stereo device");

    assert!(error.contains("requires 6 output channels"));
    assert!(error.contains("supports at most 2 channels"));
    assert!(error.contains("Fake Speakers"));
    assert!(validate_output_device_channels(2, "Fake Speakers", Ok(2), 48_000).is_ok());
}

#[test]
fn testkit_load_plugin_artifact_graph_plan_preserves_topology() {
    let artifact = json(
        r#"{"graph":{"nodes":[{"id":7,"plugin_type":"gain","parameters":{"gain_db":-3.0},"input_channels":2}],"edges":[]}}"#,
    );
    let PluginArtifactPlan::Graph { graph } =
        plan_plugin_artifact(artifact, &decode, &validate).unwrap()
    else {
        panic!("graph artifact must remain graph-shaped");
    };

    let state = SystemwideState::default();
    let plan = state
        .prepare_graph_plan(graph, 2, 2, 2, &None, &validate)
        .expect("graph plan");
    assert!(plan.spec.user_plugins.is_empty());
    let graph = plan.spec.user_graph.expect("graph desired state");
    assert_eq!(graph.nodes.len(), 1);
    assert_eq!(graph.nodes[0].id, 7);
    assert!(graph.nodes[0]
        .parameters
        .member("gain_db")
        .unwrap()
        .matches(&json("-3.0")));
    assert!(plan.runtime_graph.is_some());
}

#[test]
fn testkit_load_plugin_artifact_rejects_graph_shape_instead_of_flattening() {
    let state = SystemwideState::default();
    let planned = plan_plugin_artifact(
        json(
            r#"{"global_plugins":[{"plugin_type":"eq","parameters":{}}],"channels":{"L":{"plugins":[{"plugin_type":"gain","parameters":{}}]}}}"#,
        ),
        &decode,
        &validate,
    );
    let ArtifactIntent::Refuse(response) = load_plugin_artifact(&state, planned) else {
        panic!("a per-channel artifact must not be loaded");
    };
    assert!(!response.success);
    assert!(response
        .error
        .as_deref()
        .is_some_and(|e| e.contains("Unsupported graph plugin artifact")));
    assert!(state.user_plugins().is_empty());
}

#[test]
fn artifact_texts_are_planned_from_what_they_hold() {
    let rack = plan_plugin_artifact_text(
        r#" {"plugins":[{"plugin_type":"eq","parameters":{}}]} "#,
        None,
        &decode,
        &|_: &PluginGraphConfig| Ok(()),
    )
    .expect("a rack");
    assert_eq!(rack.required_channels, None);
    assert!(matches!(
        rack.plan,
        PluginArtifactPlan::RackChain { plugins } if types(&plugins) == vec!["eq"]
    ));

    let broken = plan_plugin_artifact_text("{", None, &decode, &|_: &PluginGraphConfig| Ok(()));
    assert_eq!(
        broken.unwrap_err(),
        "invalid JSON configuration: EOF while parsing an object at line 1 column 1"
    );

    let refused = plan_plugin_artifact_text(
        "{}",
        Some(Err("no channels".to_string())),
        &decode,
        &|_: &PluginGraphConfig| Ok(()),
    );
    assert_eq!(refused.unwrap_err(), "invalid RoomEQ configuration: no channels");

    let room = plan_plugin_artifact_text(
        "{}",
        Some(Ok((graph(vec![], &[]), 3))),
        &decode,
        &|_: &PluginGraphConfig| Ok(()),
    )
    .expect("a graph");
    assert_eq!(room.required_channels, Some(3));
    assert!(matches!(room.plan, PluginArtifactPlan::Graph { .. }));

    let mut status = DriverStatus::new(true, true, true, 96_000, 2, 512, "Driver", true);
    assert_eq!(artifact_sample_rate(&status), 96_000);
    status.sample_rate = 0;
    assert_eq!(artifact_sample_rate(&status), 48_000);
}
