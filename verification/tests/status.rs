//! What clients are told: levels, transport, status, snapshots and listings.

use sotf_daemon::catalog::{
    handle_get_available_plugins, is_excluded_type, parameter_descriptor_to_json,
    plugin_parameter_descriptors, plugin_type_category, ParamSpec, ParamType, PluginDefaults,
    PluginListing, PluginType, UpdateMode,
};
use sotf_daemon::commands::Command;
use sotf_daemon::driver::DriverStatus;
use sotf_daemon::graph::MAX_HAL_CHANNELS;
use sotf_daemon::ipc::{refuse_command, session_step, LineReader, SessionStep};
use sotf_daemon::json::JsonValue;
use sotf_daemon::metering::{
    empty_loudness_json, loudness_data_to_json, loudness_info_to_json, loudness_response,
    metering_response, metering_snapshot, metering_source_json, LoudnessData, LoudnessInfo,
};
use sotf_daemon::plugins::{PluginConfig, PluginGraphConfig, PluginGraphNodeConfig};
use sotf_daemon::response::{response_line, serialize_response_safely, Response};
use sotf_daemon::security::{EncryptionStatus, PeerClass};
use sotf_daemon::state::SystemwideState;
use sotf_daemon::status::{
    device_list_response, engine_response, handle_driver_status, handle_dump_state,
    handle_get_driver_config, handle_get_plugins, handle_status, snapshot, CurrentRoute,
};
use sotf_daemon::telemetry::RuntimeTelemetry;
use sotf_daemon::transport::{
    health, push_fault, push_metering_faults, transport_snapshot_and_faults, EngineObservation,
};

fn json(text: &str) -> JsonValue {
    JsonValue::parse(text).expect("valid JSON")
}

fn at<'a>(value: &'a JsonValue, path: &[&str]) -> &'a JsonValue {
    path.iter().fold(value, |value, name| {
        value.member(name).unwrap_or_else(|| panic!("no member {name}"))
    })
}

fn text<'a>(value: &'a JsonValue, path: &[&str]) -> &'a str {
    at(value, path).as_text().expect("text")
}

fn number(value: &JsonValue, path: &[&str]) -> u64 {
    at(value, path).as_unsigned().expect("unsigned number")
}

fn list<'a>(value: &'a JsonValue, path: &[&str]) -> &'a Vec<JsonValue> {
    match at(value, path) {
        JsonValue::List(items) => items,
        other => panic!("expected a list, got {other:?}"),
    }
}

fn is(value: &JsonValue, path: &[&str], expected: &str) -> bool {
    at(value, path).matches(&json(expected))
}

fn fault_codes(faults: &[JsonValue]) -> Vec<&str> {
    faults.iter().map(|fault| text(fault, &["code"])).collect()
}

fn healthy_driver_status() -> DriverStatus {
    DriverStatus::new(true, true, true, 48_000, 2, 512, "Fake HAL", true)
}

fn engine(state: &str) -> EngineObservation {
    EngineObservation {
        state: state.to_string(),
        volume: json("1.0"),
        muted: false,
        sample_rate: 48_000,
        num_channels: 2,
        underruns: 0,
        playback_output_device: None,
        playback_callback_count: 0,
        playback_buffer_fill_percent: json("0.0"),
        playback_stream_error_count: 0,
        playback_frames_received: 0,
        playback_frames_written: 0,
        playback_frames_dropped: 0,
        playback_effective_sample_rate: 0,
        last_error: None,
    }
}

fn streaming_engine() -> EngineObservation {
    EngineObservation {
        playback_frames_received: 1024,
        playback_callback_count: 8,
        playback_frames_written: 1024,
        playback_output_device: Some("ADAM Audio D3V".to_string()),
        playback_effective_sample_rate: 48_000,
        ..engine("Playing")
    }
}

fn encryption() -> EncryptionStatus {
    EncryptionStatus {
        enabled: false,
        fingerprint: "00000000".to_string(),
        key_path: "/tmp/key".to_string(),
    }
}

fn no_route() -> CurrentRoute {
    CurrentRoute {
        profile_id: None,
        device_uid: None,
        device_name: None,
    }
}

fn silent_metering() -> JsonValue {
    metering_snapshot(&None, &None, 2, 2)
}

fn test_loudness() -> LoudnessData {
    LoudnessData {
        momentary_lufs: json("-18.5"),
        shortterm_lufs: json("-17.25"),
        integrated_lufs: json("-20.0"),
        peak: json("0.75"),
        channel_peaks: json("[0.5, 0.75]"),
        true_peaks_dbtp: json("[-2.0, -1.0]"),
        correlation_lr: json("0.42"),
        measurement_valid: true,
        measurement_enabled: true,
        query_error_generation: 0,
        channel_layout_is_compliant: true,
        true_peak_is_compliant: true,
        integrated_window_seconds: 3_600,
    }
}

#[test]
fn loudness_data_json_includes_meter_fields() {
    let report = loudness_data_to_json(&test_loudness());
    assert!(is(&report, &["momentary"], "-18.5"));
    assert!(is(&report, &["short_term"], "-17.25"));
    assert!(is(&report, &["integrated"], "-20.0"));
    assert!(is(&report, &["peak"], "0.75"));
    assert!(is(&report, &["channel_peaks"], "[0.5, 0.75]"));
    assert!(is(&report, &["true_peaks_dbtp"], "[-2.0, -1.0]"));
    assert!(is(&report, &["correlation_lr"], "0.42"));
    assert!(is(&report, &["measurement_valid"], "true"));
    assert!(is(&report, &["measurement_enabled"], "true"));
    assert!(is(&report, &["query_error_generation"], "0"));
    assert!(is(&report, &["channel_layout_is_compliant"], "true"));
    assert!(is(&report, &["true_peak_is_compliant"], "true"));
    assert!(is(&report, &["integrated_window_seconds"], "3600"));
}

#[test]
fn empty_loudness_json_clamps_channels_and_shapes_defaults() {
    let zero = empty_loudness_json(0);
    assert!(is(&zero, &["momentary"], "-60.0"));
    assert!(is(&zero, &["short_term"], "-60.0"));
    assert!(is(&zero, &["integrated"], "-60.0"));
    assert!(is(&zero, &["peak"], "0.0"));
    assert_eq!(list(&zero, &["channel_peaks"]).len(), 1);
    assert_eq!(list(&zero, &["true_peaks_dbtp"]).len(), 1);
    assert!(is(&zero, &["correlation_lr"], "null"));

    let many = empty_loudness_json(64);
    assert_eq!(list(&many, &["channel_peaks"]).len(), MAX_HAL_CHANNELS);
    assert_eq!(list(&many, &["true_peaks_dbtp"]).len(), MAX_HAL_CHANNELS);
}

#[test]
fn metering_source_json_reflects_data_presence() {
    let present = metering_source_json(true, 2);
    assert_eq!(text(&present, &["status"]), "available");
    assert_eq!(text(&present, &["source"]), "loudness_monitor");
    assert_eq!(number(&present, &["channels"]), 2);

    let fallback = metering_source_json(false, 6);
    assert_eq!(text(&fallback, &["status"]), "fallback_zero");
    assert_eq!(text(&fallback, &["source"]), "channel_sized_fallback");
    assert_eq!(number(&fallback, &["channels"]), 6);
}

#[test]
fn loudness_info_to_json_shapes_empty_channel_arrays() {
    let info = LoudnessInfo {
        momentary_lufs: json("-20.0"),
        shortterm_lufs: json("-19.0"),
        integrated_lufs: json("-21.0"),
        peak: json("0.5"),
    };
    let report = loudness_info_to_json(&info);
    assert!(is(&report, &["momentary"], "-20.0"));
    assert!(is(&report, &["integrated"], "-21.0"));
    assert_eq!(list(&report, &["channel_peaks"]).len(), 0);
    assert_eq!(list(&report, &["true_peaks_dbtp"]).len(), 0);
    assert!(is(&report, &["correlation_lr"], "null"));
}

#[test]
fn daemon_metering_returns_channel_sized_fallbacks() {
    let metering = metering_snapshot(&None, &None, 4, 6);
    assert!(is(&metering, &["input", "channel_peaks"], "[0.0, 0.0, 0.0, 0.0]"));
    assert!(is(
        &metering,
        &["output", "channel_peaks"],
        "[0.0, 0.0, 0.0, 0.0, 0.0, 0.0]"
    ));
    assert_eq!(list(&metering, &["output", "true_peaks_dbtp"]).len(), 6);
    assert_eq!(number(&metering, &["sources", "input", "channels"]), 4);
    assert_eq!(number(&metering, &["sources", "output", "channels"]), 6);
}

#[test]
fn handle_get_metering_returns_metering() {
    let resp = metering_response(&Some(test_loudness()), &None, 2, 3, 7);
    assert!(resp.success);
    let data = resp.data.expect("metering data");
    assert!(is(&data, &["input", "momentary"], "-18.5"));
    assert!(is(&data, &["output", "channel_peaks"], "[0.0, 0.0, 0.0]"));
    assert_eq!(number(&data, &["generation"]), 7);
    assert_eq!(text(&data, &["sources", "input", "status"]), "available");
    assert_eq!(text(&data, &["sources", "output", "status"]), "fallback_zero");
}

#[test]
fn handle_get_loudness_returns_valid_response() {
    let none = loudness_response(&None);
    assert_eq!(none.error.as_deref(), Some("Loudness monitoring not enabled"));
    let some = loudness_response(&Some(LoudnessInfo {
        momentary_lufs: json("-20.0"),
        shortterm_lufs: json("-19.0"),
        integrated_lufs: json("-21.0"),
        peak: json("0.5"),
    }));
    assert!(some.success);
    assert!(is(&some.data.unwrap(), &["momentary"], "-20.0"));
}

#[test]
fn transport_snapshot_reports_all_playing_faults_without_hiding_secondary_causes() {
    let (transport, faults) =
        transport_snapshot_and_faults(&healthy_driver_status(), &engine("Playing"));

    assert_eq!(text(&transport, &["input", "status"]), "input_frames_missing");
    assert_eq!(
        text(&transport, &["output", "status"]),
        "output_callbacks_missing"
    );
    let codes = fault_codes(&faults);
    assert!(codes.contains(&"input_frames_missing"));
    assert!(codes.contains(&"output_callbacks_missing"));
    assert!(codes.contains(&"output_device_unresolved"));
}

#[test]
fn transport_snapshot_reports_flowing_when_input_and_output_are_observed() {
    let (transport, faults) =
        transport_snapshot_and_faults(&healthy_driver_status(), &streaming_engine());

    assert_eq!(text(&transport, &["input", "status"]), "flowing");
    assert_eq!(text(&transport, &["output", "status"]), "flowing");
    assert_eq!(text(&transport, &["output", "device"]), "ADAM Audio D3V");
    assert!(faults.is_empty());
}

#[test]
fn transport_faults_name_every_cause() {
    let mut driver = healthy_driver_status();
    driver.driver_ready = false;
    let (transport, faults) = transport_snapshot_and_faults(&driver, &streaming_engine());
    assert_eq!(text(&transport, &["input", "status"]), "driver_unavailable");
    assert_eq!(fault_codes(&faults), vec!["driver_unavailable"]);

    let mut driver = healthy_driver_status();
    driver.capture_active = false;
    let (transport, faults) = transport_snapshot_and_faults(&driver, &streaming_engine());
    assert_eq!(text(&transport, &["input", "status"]), "hal_stream_inactive");
    assert_eq!(fault_codes(&faults), vec!["hal_stream_inactive"]);

    let mut stuck = streaming_engine();
    stuck.playback_frames_written = 0;
    let (transport, faults) = transport_snapshot_and_faults(&healthy_driver_status(), &stuck);
    assert_eq!(text(&transport, &["output", "status"]), "output_frames_missing");
    assert_eq!(fault_codes(&faults), vec!["output_frames_missing"]);

    let (transport, faults) =
        transport_snapshot_and_faults(&healthy_driver_status(), &engine("Paused"));
    assert_eq!(text(&transport, &["input", "status"]), "idle");
    assert!(faults.is_empty());
}

#[test]
fn metering_faults_only_apply_to_playing_fallback_sources() {
    let metering = json(
        r#"{"sources": {"input": {"status": "fallback_zero"}, "output": {"status": "available"}}}"#,
    );

    let mut faults = Vec::new();
    push_metering_faults("Idle", &metering, &mut faults);
    assert!(faults.is_empty());

    push_metering_faults("Playing", &metering, &mut faults);
    assert_eq!(fault_codes(&faults), vec!["input_metering_unavailable"]);
}

#[test]
fn health_is_the_worst_fault() {
    let mut faults = Vec::new();
    assert_eq!(health(&faults), "ok");
    push_fault(&mut faults, false, "never", "error", "Never");
    assert_eq!(health(&faults), "ok");
    push_fault(&mut faults, true, "minor", "warning", "Minor");
    assert_eq!(health(&faults), "warning");
    push_fault(&mut faults, true, "major", "error", "Major");
    assert_eq!(health(&faults), "fault");
    assert!(faults[0].matches(&json(
        r#"{"code":"minor","severity":"warning","message":"Minor"}"#
    )));
}

#[test]
fn testkit_driver_status_uses_injected_driver() {
    let mut driver = healthy_driver_status();
    driver.channel_count = 10;
    let response = handle_driver_status(&driver);
    assert!(response.success);
    let data = response.data.expect("driver_status data");
    assert_eq!(text(&data, &["driver_name"]), "Fake HAL");
    assert_eq!(number(&data, &["channel_count"]), 10);
    assert!(is(&data, &["ready"], "true"));
}

#[test]
fn testkit_driver_status_wire_matches_serde_status_fields() {
    let data = handle_driver_status(&healthy_driver_status())
        .data
        .expect("driver status data");
    for (field, expected) in [
        ("platform_supported", "true"),
        ("driver_installed", "true"),
        ("capture_active", "true"),
        ("sample_rate", "48000"),
        ("channel_count", "2"),
        ("buffer_frames", "512"),
        ("driver_name", "\"Fake HAL\""),
        ("driver_ready", "true"),
    ] {
        assert!(is(&data, &[field], expected), "wire field {field}");
    }
    assert!(is(&data, &["ready"], "true"));
    assert!(is(&data, &["buffer_initialized"], "true"));
}

#[test]
fn handle_driver_status_returns_driver_info() {
    let resp = handle_driver_status(&DriverStatus::new(
        false, false, false, 44_100, 2, 256, "None", false,
    ));
    assert!(resp.success);
    let data = resp.data.expect("driver_status data");
    for field in [
        "platform_supported",
        "driver_installed",
        "sample_rate",
        "channel_count",
        "buffer_frames",
        "driver_name",
        "ready",
    ] {
        assert!(data.member(field).is_some(), "{field}");
    }
    assert!(is(&data, &["ready"], "false"));
    assert!(is(&data, &["buffer_initialized"], "false"));
}

#[test]
fn handle_get_driver_config_returns_config() {
    let resp = handle_get_driver_config(&healthy_driver_status());
    assert!(resp.success);
    let data = resp.data.expect("get_driver_config data");
    for field in [
        "sample_rate",
        "buffer_frames",
        "channel_count",
        "driver_installed",
        "platform_supported",
    ] {
        assert!(data.member(field).is_some(), "{field}");
    }
}

#[test]
fn get_driver_config_wire_preserves_canonical_fields_and_legacy_aliases() {
    let data = handle_get_driver_config(&healthy_driver_status())
        .data
        .expect("get_driver_config data");
    assert!(data.matches(&json(
        r#"{"sample_rate": 48000, "actual_sample_rate": 48000, "buffer_frames": 512,
            "actual_buffer_frames": 512, "channel_count": 2, "active": true,
            "driver_name": "Fake HAL", "driver_installed": true, "driver_ready": true,
            "platform_supported": true}"#
    )));
}

fn status_of(state: &mut SystemwideState, observed: &EngineObservation) -> (JsonValue, bool) {
    let (response, healed) =
        handle_status(state, observed, &healthy_driver_status(), &encryption());
    assert!(response.success);
    (response.data.expect("status data"), healed)
}

#[test]
fn handle_status_returns_expected_fields() {
    let mut state = SystemwideState::default();
    let (data, _) = status_of(&mut state, &engine("Idle"));
    assert_eq!(text(&data, &["consistency"]), "best_effort");
    for field in [
        "state",
        "volume",
        "selected_device",
        "input_channels",
        "output_channels",
        "playback_output_device",
    ] {
        assert!(data.member(field).is_some(), "{field}");
    }
    for field in ["installed", "ready", "capture_active", "frame_size"] {
        assert!(at(&data, &["driver"]).member(field).is_some(), "{field}");
    }
    assert!(is(&data, &["encryption", "enabled"], "false"));
    for field in [
        "desired_output_device",
        "applied_output_device",
        "playback_output_device",
        "capture_active",
    ] {
        assert!(at(&data, &["active_route"]).member(field).is_some(), "{field}");
    }
    assert!(is(&data, &["recovery_actions"], r#"["select_output_device"]"#));
}

#[test]
fn daemon_status_exposes_toolbar_device_and_playback_diagnostics() {
    let mut state = SystemwideState::default();
    state
        .set_desired_output_device(Some("ADAM Audio D3V".to_string()))
        .expect("safe device");
    let mut observed = streaming_engine();
    observed.num_channels = 6;
    observed.playback_buffer_fill_percent = json("12.5");
    let (data, _) = status_of(&mut state, &observed);
    assert_eq!(text(&data, &["selected_device"]), "ADAM Audio D3V");
    assert_eq!(number(&data, &["input_channels"]), 2);
    assert_eq!(number(&data, &["output_channels"]), 2);
    assert_eq!(number(&data, &["channels"]), 6);
    assert_eq!(text(&data, &["playback_output_device"]), "ADAM Audio D3V");
    assert_eq!(number(&data, &["playback_callback_count"]), 8);
    assert!(is(&data, &["playback_buffer_fill_percent"], "12.5"));
    assert_eq!(number(&data, &["playback_frames_written"]), 1024);
}

#[test]
fn status_heals_a_recorded_failure_once_audio_flows() {
    let mut state = SystemwideState::default();
    state.mark_pipeline_recovery("boom".to_string());
    let (data, healed) = status_of(&mut state, &engine("Idle"));
    assert!(!healed);
    assert!(!list(&data, &["recovery_actions"]).is_empty());

    let (data, healed) = status_of(&mut state, &streaming_engine());
    assert!(healed);
    assert!(list(&data, &["recovery_actions"]).is_empty());
    assert!(state.pipeline_recovery().is_none());
}

#[test]
fn testkit_snapshot_separates_desired_observed_and_diagnostics() {
    let mut driver = healthy_driver_status();
    driver.channel_count = 6;
    let mut state = SystemwideState::default();
    state
        .set_desired_output_device(Some("ADAM Audio D3V".to_string()))
        .expect("safe device");

    let data = snapshot(
        &state,
        &engine("Idle"),
        &driver,
        &encryption(),
        &no_route(),
        silent_metering(),
    );
    assert_eq!(number(&data, &["schema_version"]), 1);
    assert_eq!(text(&data, &["desired", "output_device"]), "ADAM Audio D3V");
    assert_eq!(number(&data, &["observed", "driver", "channel_count"]), 6);
    assert_eq!(
        text(&data, &["observed", "metering", "sources", "input", "status"]),
        "fallback_zero"
    );
    assert_eq!(text(&data, &["observed", "transport", "input", "status"]), "idle");
    assert_eq!(text(&data, &["observed", "transport", "output", "status"]), "idle");
    assert_eq!(text(&data, &["diagnostics", "health"]), "ok");
    assert!(list(&data, &["diagnostics", "faults"]).is_empty());
}

#[test]
fn handle_get_snapshot_returns_expected_fields() {
    let data = snapshot(
        &SystemwideState::default(),
        &engine("Idle"),
        &healthy_driver_status(),
        &encryption(),
        &no_route(),
        silent_metering(),
    );
    assert_eq!(number(&data, &["schema_version"]), 1);
    assert!(data.member("desired").is_some());
    assert!(data.member("observed").is_some());
    assert!(at(&data, &["diagnostics"]).member("health").is_some());
    assert!(list(&data, &["diagnostics", "faults"]).is_empty());
}

#[test]
fn snapshot_exposes_output_route_for_per_output_dsp() {
    let route = CurrentRoute {
        profile_id: Some("profile-3".to_string()),
        device_uid: Some("UID-1".to_string()),
        device_name: Some("EVO8".to_string()),
    };
    let data = snapshot(
        &SystemwideState::default(),
        &engine("Idle"),
        &healthy_driver_status(),
        &encryption(),
        &route,
        silent_metering(),
    );
    assert_eq!(text(&data, &["applied", "profile_id"]), "profile-3");
    assert_eq!(text(&data, &["applied", "output_device_uid"]), "UID-1");
}

#[test]
fn snapshot_reports_a_feedback_risk() {
    let mut observed = streaming_engine();
    observed.playback_output_device = Some("SotF Virtual Audio".to_string());
    let data = snapshot(
        &SystemwideState::default(),
        &observed,
        &healthy_driver_status(),
        &encryption(),
        &no_route(),
        metering_snapshot(&Some(test_loudness()), &Some(test_loudness()), 2, 2),
    );
    assert_eq!(text(&data, &["diagnostics", "health"]), "fault");
}

#[test]
fn testkit_dump_state_includes_snapshot_and_plugins() {
    let state = SystemwideState::default();
    let shown = snapshot(
        &state,
        &engine("Idle"),
        &healthy_driver_status(),
        &encryption(),
        &no_route(),
        silent_metering(),
    );
    let response = handle_dump_state(&state, shown, RuntimeTelemetry::default().snapshot());
    assert!(response.success);
    let data = response.data.unwrap();
    assert_eq!(number(&data, &["snapshot", "schema_version"]), 1);
    assert!(list(&data, &["plugins"]).is_empty());
    assert!(matches!(
        at(&data, &["runtime_telemetry", "budgets"]),
        JsonValue::Object(_)
    ));
}

#[test]
fn handle_dump_state_returns_snapshot_and_plugins() {
    let mut state = SystemwideState::default();
    let plan = state
        .prepare_plan(vec![PluginConfig::new("eq", json("{}"))], 2, 2, 2, &None)
        .expect("plan");
    state.commit_applied(&plan);
    let resp = handle_dump_state(
        &state,
        json(r#"{"schema_version":1}"#),
        RuntimeTelemetry::default().snapshot(),
    );
    assert!(resp.success);
    let data = resp.data.expect("dump_state data");
    assert_eq!(number(&data, &["snapshot", "schema_version"]), 1);
    assert!(is(
        &data,
        &["plugins"],
        r#"[{"plugin_type":"eq","parameters":{}}]"#
    ));
}

#[test]
fn handle_get_plugins_returns_plugins_array() {
    let resp = handle_get_plugins(&SystemwideState::default());
    assert!(resp.success);
    let data = resp.data.expect("get_plugins data");
    assert!(list(&data, &["plugins"]).is_empty());
    assert_eq!(text(&data, &["topology"]), "rack");
}

#[test]
fn get_plugins_shows_graphs_with_node_state() {
    let mut state = SystemwideState::default();
    let graph = PluginGraphConfig {
        nodes: vec![PluginGraphNodeConfig {
            id: 9,
            plugin_type: "gain".to_string(),
            parameters: json("{}"),
            input_channels: 2,
            bypassed: true,
        }],
        edges: vec![],
    };
    let plan = state
        .prepare_graph_plan(graph, 2, 2, 2, &None, &|_: &PluginGraphConfig| Ok(()))
        .expect("plan");
    state.commit_applied(&plan);
    let data = handle_get_plugins(&state).data.unwrap();
    assert_eq!(text(&data, &["topology"]), "graph");
    let nodes = list(&data, &["graph", "nodes"]);
    assert_eq!(number(&nodes[0], &["id"]), 9);
    assert!(is(&nodes[0], &["bypassed"], "true"));
    assert!(list(&data, &["plugins"]).is_empty());
    assert_eq!(number(&data, &["generation"]), 1);
}

#[test]
fn handle_list_devices_returns_valid_response() {
    let listed = device_list_response(Ok((4, vec![json(r#"{"name":"EVO8"}"#)])));
    assert!(listed.success);
    let data = listed.data.unwrap();
    assert_eq!(number(&data, &["generation"]), 4);
    assert_eq!(list(&data, &["devices"]).len(), 1);
    let failed = device_list_response(Err("no host".to_string()));
    assert_eq!(failed.error.as_deref(), Some("Failed to list devices: no host"));
}

#[test]
fn handle_set_volume_succeeds() {
    let done = engine_response("Set volume failed: ", Ok(()));
    assert!(done.success, "{:?}", done.error);
    let failed = engine_response("Set volume failed: ", Err("no engine".to_string()));
    assert_eq!(failed.error.as_deref(), Some("Set volume failed: no engine"));
}

fn gain_spec() -> ParamSpec {
    ParamSpec {
        engine_key: "gain_db".to_string(),
        name: "Gain".to_string(),
        unit: "dB".to_string(),
        group: "Level".to_string(),
        doc: "Gain in dB".to_string(),
        update_mode: UpdateMode::Realtime,
        param_type: ParamType::Float {
            default: json("0.0"),
            min: json("-60.0"),
            max: json("12.0"),
            step: json("0.1"),
        },
    }
}

#[test]
fn parameter_descriptor_to_json_maps_float_spec() {
    let descriptor = parameter_descriptor_to_json(&gain_spec());
    assert_eq!(text(&descriptor, &["key"]), "gain_db");
    assert_eq!(text(&descriptor, &["name"]), "Gain");
    assert_eq!(text(&descriptor, &["unit"]), "dB");
    assert_eq!(text(&descriptor, &["group"]), "Level");
    assert_eq!(text(&descriptor, &["doc"]), "Gain in dB");
    assert_eq!(text(&descriptor, &["type"]), "float");
    assert!(is(&descriptor, &["default"], "0.0"));
    assert!(is(&descriptor, &["min"], "-60.0"));
    assert!(is(&descriptor, &["max"], "12.0"));
    assert!(is(&descriptor, &["step"], "0.1"));
    assert_eq!(text(&descriptor, &["update_mode"]), "realtime");
}

#[test]
fn parameter_descriptors_show_every_kind() {
    let of = |param_type: ParamType| {
        parameter_descriptor_to_json(&ParamSpec {
            update_mode: UpdateMode::Rebuild,
            param_type,
            ..gain_spec()
        })
    };
    let whole = of(ParamType::Int {
        default: json("3"),
        min: json("1"),
        max: json("8"),
        step: json("1"),
    });
    assert_eq!(text(&whole, &["type"]), "int");
    assert_eq!(number(&whole, &["max"]), 8);
    assert_eq!(text(&whole, &["update_mode"]), "structural");
    let switch = of(ParamType::Bool {
        default_on: true,
        true_label: "On".to_string(),
        false_label: "Off".to_string(),
    });
    assert_eq!(text(&switch, &["type"]), "bool");
    assert!(is(&switch, &["default"], "true"));
    let choice = of(ParamType::Choice {
        default_index: 1,
        labels: vec!["A".to_string(), "B".to_string()],
    });
    assert_eq!(text(&choice, &["type"]), "choice");
    let path = of(ParamType::FilePath);
    assert_eq!(text(&path, &["type"]), "file_path");
    assert!(matches!(
        plugin_parameter_descriptors(&vec![gain_spec()]),
        JsonValue::List(items) if items.len() == 1
    ));
}

#[test]
fn plugin_type_category_groups_are_consistent() {
    assert_eq!(plugin_type_category(&PluginType::EQ), "EQ & Tone");
    assert_eq!(plugin_type_category(&PluginType::Gain), "Utility");
    assert_eq!(plugin_type_category(&PluginType::Compressor), "Dynamics");
    assert_eq!(plugin_type_category(&PluginType::Upmixer), "Spatial & Routing");
    assert_eq!(plugin_type_category(&PluginType::Convolution), "Effects");
    assert_eq!(plugin_type_category(&PluginType::Denoiser), "Restoration");
    assert_eq!(plugin_type_category(&PluginType::LoudnessMonitor), "Monitoring");
    assert_eq!(plugin_type_category(&PluginType::External), "External");
    assert_eq!(plugin_type_category(&PluginType::Dither), "Utility");
}

fn listing(plugin_type: PluginType, engine_type: &str, with_defaults: bool) -> PluginListing {
    PluginListing {
        plugin_type,
        engine_type: engine_type.to_string(),
        name: engine_type.to_uppercase(),
        description: "A plugin".to_string(),
        maturity: "Stable".to_string(),
        defaults: with_defaults.then_some(PluginDefaults {
            default_parameters: json(r#"{"gain_db":0.0}"#),
            parameters: vec![gain_spec()],
        }),
    }
}

#[test]
fn handle_get_available_plugins_returns_plugins_array() {
    let resp = handle_get_available_plugins(&vec![
        listing(PluginType::LoudnessMonitor, "loudness_monitor", true),
        listing(PluginType::EQ, "eq", false),
        listing(PluginType::Gain, "gain", true),
    ]);
    assert!(resp.success);
    let data = resp.data.expect("get_available_plugins data");
    let plugins = list(&data, &["plugins"]);
    assert_eq!(plugins.len(), 1);
    assert_eq!(text(&plugins[0], &["type"]), "gain");
    assert_eq!(text(&plugins[0], &["category"]), "Utility");
    assert!(is(&plugins[0], &["default_parameters"], r#"{"gain_db":0.0}"#));
    assert_eq!(list(&plugins[0], &["parameters"]).len(), 1);
    assert!(is_excluded_type("resampler"));
    assert!(!is_excluded_type("gain"));
}

/// Carries out one line as the owner's session does, against a state at rest.
fn send_owner_ipc_command(driver: &DriverStatus, raw: &str) -> serde_json::Value {
    let mut reader = LineReader::new();
    let (_, line) = reader.feed(format!("{raw}\n").as_bytes());
    let SessionStep::Execute(text) = session_step(line.expect("a whole line")) else {
        panic!("expected a command");
    };
    let name = json(&text);
    let command = Command::named(name.member("command").and_then(|n| n.as_text()).expect("a name"))
        .expect("a known command");
    assert!(refuse_command(PeerClass::Owner, command.name()).is_none());
    let mut state = SystemwideState::default();
    let response = match command {
        Command::Ping => Response::ok_empty(),
        Command::Status => handle_status(&mut state, &engine("Idle"), driver, &encryption()).0,
        Command::GetPlugins => handle_get_plugins(&state),
        Command::GetAvailablePlugins => {
            handle_get_available_plugins(&vec![listing(PluginType::Gain, "gain", true)])
        }
        Command::GetMetering => metering_response(&None, &None, 2, 2, state.generation()),
        Command::DriverStatus => handle_driver_status(driver),
        Command::GetDriverConfig => handle_get_driver_config(driver),
        other => panic!("unexpected {other:?}"),
    };
    serde_json::from_str(response_line(&response).trim_end()).expect("valid JSON response")
}

#[test]
fn testkit_unix_ipc_driver_status_uses_injected_driver() {
    let mut driver = healthy_driver_status();
    driver.channel_count = 12;
    let response = send_owner_ipc_command(&driver, r#"{"command":"driver_status"}"#);
    assert_eq!(response["success"], true);
    assert_eq!(response["data"]["driver_name"], "Fake HAL");
    assert_eq!(response["data"]["channel_count"], 12);
}

#[test]
fn testkit_unix_ipc_status_roundtrip() {
    let response = send_owner_ipc_command(&healthy_driver_status(), r#"{"command":"status"}"#);
    assert_eq!(response["success"], true);
    assert!(response["data"]["state"].is_string());
    assert!(response["data"]["volume"].is_number());
}

#[test]
fn testkit_unix_ipc_get_plugins_roundtrip() {
    let response = send_owner_ipc_command(&healthy_driver_status(), r#"{"command":"get_plugins"}"#);
    assert_eq!(response["success"], true);
    assert!(response["data"]["plugins"].is_array());
}

#[test]
fn testkit_unix_ipc_get_available_plugins_roundtrip() {
    let response = send_owner_ipc_command(
        &healthy_driver_status(),
        r#"{"command":"get_available_plugins"}"#,
    );
    assert_eq!(response["success"], true);
    let plugins = response["data"]["plugins"].as_array().expect("plugins array");
    assert!(!plugins.is_empty());
    assert!(plugins[0]["type"].is_string());
}

#[test]
fn testkit_unix_ipc_get_metering_roundtrip() {
    let response =
        send_owner_ipc_command(&healthy_driver_status(), r#"{"command":"get_metering"}"#);
    assert_eq!(response["success"], true);
    assert!(response["data"]["input"].is_object());
    assert!(response["data"]["output"].is_object());
    assert!(response["data"]["sources"]["input"].is_object());
    assert!(response["data"]["sources"]["output"].is_object());
    assert_eq!(response["data"]["generation"], 0);
}

#[test]
fn testkit_unix_ipc_get_driver_config_roundtrip() {
    let response =
        send_owner_ipc_command(&healthy_driver_status(), r#"{"command":"get_driver_config"}"#);
    assert_eq!(response["success"], true);
    assert!(response["data"]["sample_rate"].is_number());
    assert!(response["data"]["buffer_frames"].is_number());
    assert!(response["data"]["channel_count"].is_number());
}

#[test]
fn ping_returns_without_runtime_snapshot() {
    let response = send_owner_ipc_command(&healthy_driver_status(), r#"{"command":"ping"}"#);
    assert_eq!(response["success"], true);
    assert!(response.get("data").is_none());
}

#[test]
fn snapshot_response_ok_with_payload() {
    let response = Response::ok(json(r#"{"x": 1, "name": "test"}"#));
    assert_eq!(
        serialize_response_safely(&response),
        r#"{"success":true,"data":{"name":"test","x":1}}"#
    );
}

#[test]
fn snapshot_response_error() {
    let response = Response::err("something went wrong".to_string());
    assert_eq!(
        serialize_response_safely(&response),
        r#"{"success":false,"error":"something went wrong"}"#
    );
}

#[test]
fn snapshot_list_devices_response_shape() {
    let devices = r#"[{"name":"Built-in Output","is_default":true},{"name":"ADAM Audio D3V","is_default":false,"channels":2,"sample_rate":48000}]"#;
    let JsonValue::List(listed) = json(devices) else {
        panic!("expected a list");
    };
    let response = device_list_response(Ok((0, listed)));
    assert!(response.success);
    assert!(is(&response.data.unwrap(), &["devices"], devices));
}
