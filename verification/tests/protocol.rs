//! The line protocol: reading lines, answers, commands, admission and telemetry.

use sotf_daemon::artifact::refuse_outdated_artifact;
use sotf_daemon::commands::{
    default_input_channels, default_output_channels, handle_set_pipeline_channels,
    refuse_outdated_pipeline_intent, Command,
};
use sotf_daemon::ipc::{
    base_generation, refuse_command, session_step, try_acquire_client_slot, IpcLine, LineReader,
    SessionStep, MAX_IPC_CLIENTS, MAX_IPC_COMMAND_BYTES,
};
use sotf_daemon::json::{sort_json_value, JsonMember, JsonNumber, JsonValue};
use sotf_daemon::response::{
    response_line, serialize_response_safely, written_or_fallback, Response,
};
use sotf_daemon::security::PeerClass;
use sotf_daemon::telemetry::{
    RuntimeTelemetry, METERING_LATENCY_BUDGET_MICROS, PIPELINE_RESPONSE_BUDGET_BYTES,
};
use std::io::{BufRead, BufReader, Cursor};

fn json(text: &str) -> JsonValue {
    JsonValue::parse(text).expect("valid JSON")
}

fn at<'a>(value: &'a JsonValue, path: &[&str]) -> &'a JsonValue {
    path.iter().fold(value, |value, name| {
        value.member(name).unwrap_or_else(|| panic!("no member {name}"))
    })
}

/// Reads one line the way a client session does.
fn read_line<R: BufRead>(reader: &mut R) -> IpcLine {
    let mut line = LineReader::new();
    loop {
        let (used, known) = {
            let available = reader.fill_buf().expect("readable");
            line.feed(available)
        };
        reader.consume(used);
        if let Some(known) = known {
            return known;
        }
    }
}

fn is_line(line: &IpcLine, text: &str) -> bool {
    matches!(line, IpcLine::Line(found) if found == text)
}

#[test]
fn read_ipc_line_bounded_returns_eof_on_empty_input() {
    let mut reader = BufReader::new(Cursor::new(b""));
    assert!(matches!(read_line(&mut reader), IpcLine::Eof));
}

#[test]
fn read_ipc_line_bounded_returns_invalid_utf8() {
    let mut reader = BufReader::new(Cursor::new(vec![0xc0, 0x80, b'\n']));
    assert!(matches!(read_line(&mut reader), IpcLine::InvalidUtf8));
}

#[test]
fn read_ipc_line_bounded_accepts_normal_command() {
    let mut reader = BufReader::new(Cursor::new(b"  {\"command\":\"status\"}  \n"));
    assert!(is_line(&read_line(&mut reader), r#"{"command":"status"}"#));
}

#[test]
fn read_ipc_line_bounded_handles_crlf_and_empty_lines() {
    let mut reader = BufReader::new(Cursor::new(b"\r\n{\"command\":\"status\"}\r\n"));
    assert!(matches!(read_line(&mut reader), IpcLine::Empty));
    assert!(is_line(&read_line(&mut reader), r#"{"command":"status"}"#));
}

#[test]
fn read_ipc_line_bounded_rejects_oversized_line() {
    let mut input = vec![b'a'; MAX_IPC_COMMAND_BYTES + 1];
    input.push(b'\n');
    let mut reader = BufReader::new(Cursor::new(input));
    assert!(matches!(read_line(&mut reader), IpcLine::TooLarge));
}

#[test]
fn read_ipc_line_bounded_rejects_oversized_unterminated_line() {
    let input = vec![b'a'; MAX_IPC_COMMAND_BYTES + 1];
    let mut reader = BufReader::new(Cursor::new(input));
    assert!(matches!(read_line(&mut reader), IpcLine::TooLarge));
}

#[test]
fn lines_are_read_alike_whatever_the_chunks() {
    let text = "{\"command\":\"pläy\"}\u{a0}\n{}";
    for size in 1..text.len() + 1 {
        let mut reader = BufReader::with_capacity(size, Cursor::new(text.as_bytes()));
        assert!(is_line(&read_line(&mut reader), "{\"command\":\"pläy\"}"));
        assert!(is_line(&read_line(&mut reader), "{}"));
        assert!(matches!(read_line(&mut reader), IpcLine::Eof));
    }
    let mut longest = vec![b'a'; MAX_IPC_COMMAND_BYTES - 1];
    longest.push(b'\n');
    for size in [7, 4096, 100_000] {
        let mut reader = BufReader::with_capacity(size, Cursor::new(longest.clone()));
        assert!(matches!(read_line(&mut reader), IpcLine::Line(_)));
    }
}

#[test]
fn sessions_answer_bad_lines_and_close_on_oversized_ones() {
    assert!(matches!(session_step(IpcLine::Eof), SessionStep::Close));
    assert!(matches!(session_step(IpcLine::Empty), SessionStep::Skip));
    assert!(matches!(
        session_step(IpcLine::TooLarge),
        SessionStep::Reply { response, close: true } if response.error.as_deref() == Some("Request too large")
    ));
    assert!(matches!(
        session_step(IpcLine::InvalidUtf8),
        SessionStep::Reply { response, close: false } if response.error.as_deref() == Some("Invalid UTF-8 in command")
    ));
    assert!(matches!(
        session_step(IpcLine::Line("x".to_string())),
        SessionStep::Execute(text) if text == "x"
    ));
}

#[test]
fn ipc_client_admission_is_bounded() {
    let active = try_acquire_client_slot(MAX_IPC_CLIENTS - 1);
    assert_eq!(active, Some(MAX_IPC_CLIENTS));
    assert_eq!(try_acquire_client_slot(MAX_IPC_CLIENTS), None);
    assert_eq!(try_acquire_client_slot(0), Some(1));
}

#[test]
fn base_generation_is_read_from_any_command() {
    assert_eq!(base_generation(r#"{"command":"x","base_generation":99}"#), Some(99));
    assert_eq!(base_generation(r#"{"command":"x"}"#), None);
    assert_eq!(base_generation(r#"{"base_generation":-1}"#), None);
    assert_eq!(base_generation(r#"{"base_generation":1.5}"#), None);
    assert_eq!(base_generation(r#"[1]"#), None);
    assert_eq!(base_generation("not json"), None);
}

#[test]
fn outdated_intents_and_foreign_commands_are_refused() {
    let conflict = refuse_outdated_pipeline_intent(&Command::SetDevice, Some(0), 1).unwrap();
    assert_eq!(
        conflict.error.unwrap(),
        "Pipeline generation conflict: intent was based on generation 0, current generation is 1. Refresh and retry."
    );
    assert!(refuse_outdated_pipeline_intent(&Command::SetDevice, Some(1), 1).is_none());
    assert!(refuse_outdated_pipeline_intent(&Command::SetDevice, None, 1).is_none());
    assert!(refuse_outdated_pipeline_intent(&Command::Status, Some(0), 1).is_none());

    let denied = refuse_command(PeerClass::CoreAudioD, "shutdown").unwrap();
    assert_eq!(
        denied.error.unwrap(),
        "Command 'shutdown' not permitted for this peer"
    );
    assert!(refuse_command(PeerClass::Owner, "shutdown").is_none());
}

#[test]
fn response_constructors_build_expected_shape() {
    let ok = Response::ok(json(r#"{"x": 1}"#));
    assert!(ok.success);
    assert_eq!(at(&ok.data.unwrap(), &["x"]).as_unsigned(), Some(1));
    assert!(ok.error.is_none());

    let empty = Response::ok_empty();
    assert!(empty.success);
    assert!(empty.data.is_none());

    let err = Response::err("bad".to_string());
    assert!(!err.success);
    assert_eq!(err.error.unwrap(), "bad");
}

#[test]
fn serialize_response_safely_round_trips_ok_response() {
    let r = Response::ok(json(r#"{"index": 7, "name": "test plugin"}"#));
    let out = serialize_response_safely(&r);
    let parsed: serde_json::Value = serde_json::from_str(&out).expect("ok-path output must parse");
    assert_eq!(parsed["success"], serde_json::Value::Bool(true));
    assert_eq!(parsed["data"]["index"], serde_json::Value::from(7));
    assert_eq!(
        out,
        r#"{"success":true,"data":{"index":7,"name":"test plugin"}}"#
    );
}

#[test]
fn serialize_response_safely_handles_err_response() {
    let r = Response::err("something failed".to_string());
    let out = serialize_response_safely(&r);
    let parsed: serde_json::Value = serde_json::from_str(&out).expect("err-path output must parse");
    assert_eq!(parsed["success"], serde_json::Value::Bool(false));
    assert_eq!(parsed["error"], serde_json::Value::from("something failed"));
}

#[test]
fn responses_are_one_line_each() {
    let r = Response::err("first\nsecond \"quoted\"".to_string());
    assert_eq!(
        response_line(&r),
        "{\"success\":false,\"error\":\"first\\nsecond \\\"quoted\\\"\"}\n"
    );
}

#[test]
fn json_is_compared_and_sorted_by_content() {
    let value = JsonValue::Object(vec![
        JsonMember {
            name: "b".to_string(),
            value: json(r#"[{"z":1,"y":2}]"#),
        },
        JsonMember {
            name: "a".to_string(),
            value: JsonValue::Number(JsonNumber::Negative(-4)),
        },
        JsonMember {
            name: "b".to_string(),
            value: json(r#"[{"z":3,"y":2}]"#),
        },
    ]);
    let sorted = sort_json_value(&value);
    assert!(sorted.matches(&value));
    let JsonValue::Object(members) = &sorted else {
        panic!("expected an object");
    };
    assert_eq!(
        members.iter().map(|m| m.name.as_str()).collect::<Vec<_>>(),
        vec!["a", "b"]
    );
    assert_eq!(sorted.render(), r#"{"a":-4,"b":[{"y":2,"z":3}]}"#);
    assert_eq!(value.clone().render(), sorted.render());

    assert!(json("1").matches(&json("1")));
    assert!(!json("1").matches(&json("1.0")));
    assert!(json("-0.0").matches(&json("0.0")));
    assert!(!json("[1,2]").matches(&json("[2,1]")));
    assert!(!json(r#"{"a":1}"#).matches(&json(r#"{"a":1,"b":2}"#)));
    assert!(JsonValue::parse("{").is_none());
    assert_eq!(json("1e3").render(), "1000.0");
}

#[test]
fn command_name_covers_all_variants() {
    let cases: Vec<(Command, &str)> = vec![
        (Command::Pause, "pause"),
        (Command::Stop, "stop"),
        (Command::Seek, "seek"),
        (Command::SetVolume, "set_volume"),
        (Command::ListDevices, "list_devices"),
        (Command::SetDevice, "set_device"),
        (Command::ApplyConfiguration, "apply_configuration"),
        (Command::SetInputChannels, "set_input_channels"),
        (Command::GetLoudness, "get_loudness"),
        (Command::GetMetering, "get_metering"),
        (Command::GetPlugins, "get_plugins"),
        (Command::GetAvailablePlugins, "get_available_plugins"),
        (Command::AddPlugin, "add_plugin"),
        (Command::RemovePlugin, "remove_plugin"),
        (Command::ReorderPlugins, "reorder_plugins"),
        (Command::ReorderGraph, "reorder_graph"),
        (Command::SetRackPluginState, "set_rack_plugin_state"),
        (Command::SetEncryption, "set_encryption"),
        (Command::EncryptionStatus, "encryption_status"),
        (Command::RotateEncryptionKey, "rotate_encryption_key"),
        (Command::SetSampleRate, "set_sample_rate"),
        (Command::SetBufferFrames, "set_buffer_frames"),
        (Command::GetDriverConfig, "get_driver_config"),
    ];
    for (cmd, expected) in cases {
        assert_eq!(cmd.name(), expected, "{cmd:?}");
    }
}

#[test]
fn command_name_matches_wire_tag() {
    assert_eq!(Command::Status.name(), "status");
    assert_eq!(Command::GetSnapshot.name(), "get_snapshot");
    assert_eq!(Command::DumpState.name(), "dump_state");
    assert_eq!(Command::DriverStatus.name(), "driver_status");
    assert_eq!(Command::UpdatePlugin.name(), "update_plugin");
    assert_eq!(Command::SetInputChannels.name(), "set_input_channels");
    assert_eq!(Command::SetOutputChannels.name(), "set_output_channels");
    assert_eq!(Command::SetPipelineChannels.name(), "set_pipeline_channels");
    assert_eq!(Command::LoadPluginArtifact.name(), "load_plugin_artifact");
    assert_eq!(
        Command::LoadPluginArtifactPath.name(),
        "load_plugin_artifact_path"
    );
    assert_eq!(Command::Shutdown.name(), "shutdown");
}

fn parse(text: &str) -> Option<Command> {
    Command::named(json(text).member("command")?.as_text()?)
}

#[test]
fn parse_all_command_variants() {
    // Each line with its command, and what some of its fields hold.
    let cases: Vec<(&str, Command, Vec<(&str, &str)>)> = vec![
        (r#"{"command":"ping"}"#, Command::Ping, vec![]),
        (r#"{"command":"status"}"#, Command::Status, vec![]),
        (r#"{"command":"get_snapshot"}"#, Command::GetSnapshot, vec![]),
        (r#"{"command":"snapshot"}"#, Command::GetSnapshot, vec![]),
        (r#"{"command":"dump_state"}"#, Command::DumpState, vec![]),
        (
            r#"{"command":"load","path":"/tmp/test.wav"}"#,
            Command::Load,
            vec![("path", r#""/tmp/test.wav""#)],
        ),
        (r#"{"command":"play"}"#, Command::Play, vec![]),
        (r#"{"command":"pause"}"#, Command::Pause, vec![]),
        (r#"{"command":"stop"}"#, Command::Stop, vec![]),
        (
            r#"{"command":"seek","position":12.5}"#,
            Command::Seek,
            vec![("position", "12.5")],
        ),
        (
            r#"{"command":"set_volume","volume":0.5}"#,
            Command::SetVolume,
            vec![("volume", "0.5")],
        ),
        (r#"{"command":"list_devices"}"#, Command::ListDevices, vec![]),
        (
            r#"{"command":"set_device","device":"Built-in Output"}"#,
            Command::SetDevice,
            vec![("device", r#""Built-in Output""#)],
        ),
        (
            r#"{"command":"load_plugins","plugins":[{"plugin_type":"eq","parameters":{}}],"input_channels":2,"output_channels":2}"#,
            Command::LoadPlugins,
            vec![
                ("plugins", r#"[{"plugin_type":"eq","parameters":{}}]"#),
                ("input_channels", "2"),
                ("output_channels", "2"),
            ],
        ),
        (
            r#"{"command":"load_plugin_artifact","artifact":{"plugins":[]}}"#,
            Command::LoadPluginArtifact,
            vec![("artifact", r#"{"plugins":[]}"#)],
        ),
        (
            r#"{"command":"set_input_channels","channels":4}"#,
            Command::SetInputChannels,
            vec![("channels", "4")],
        ),
        (
            r#"{"command":"set_output_channels","channels":6}"#,
            Command::SetOutputChannels,
            vec![("channels", "6")],
        ),
        (
            r#"{"command":"set_pipeline_channels","input_channels":4,"output_channels":6}"#,
            Command::SetPipelineChannels,
            vec![("input_channels", "4"), ("output_channels", "6")],
        ),
        (r#"{"command":"get_loudness"}"#, Command::GetLoudness, vec![]),
        (r#"{"command":"get_metering"}"#, Command::GetMetering, vec![]),
        (r#"{"command":"get_plugins"}"#, Command::GetPlugins, vec![]),
        (
            r#"{"command":"get_available_plugins"}"#,
            Command::GetAvailablePlugins,
            vec![],
        ),
        (
            r#"{"command":"add_plugin","plugin":{"plugin_type":"eq","parameters":{}}}"#,
            Command::AddPlugin,
            vec![("plugin", r#"{"plugin_type":"eq","parameters":{}}"#)],
        ),
        (
            r#"{"command":"add_plugin","plugin":{"plugin_type":"eq","parameters":{}},"index":1}"#,
            Command::AddPlugin,
            vec![("index", "1")],
        ),
        (
            r#"{"command":"remove_plugin","index":0}"#,
            Command::RemovePlugin,
            vec![("index", "0")],
        ),
        (
            r#"{"command":"update_plugin","index":0,"parameters":{"gain_db":3.0}}"#,
            Command::UpdatePlugin,
            vec![("index", "0"), ("parameters", r#"{"gain_db":3.0}"#)],
        ),
        (
            r#"{"command":"reorder_plugins","order":[1,0]}"#,
            Command::ReorderPlugins,
            vec![("order", "[1,0]")],
        ),
        (r#"{"command":"driver_status"}"#, Command::DriverStatus, vec![]),
        (r#"{"command":"hal_status"}"#, Command::DriverStatus, vec![]),
        (r#"{"command":"shutdown"}"#, Command::Shutdown, vec![]),
        (
            r#"{"command":"set_encryption","enabled":true}"#,
            Command::SetEncryption,
            vec![("enabled", "true")],
        ),
        (r#"{"command":"encryption_status"}"#, Command::EncryptionStatus, vec![]),
        (
            r#"{"command":"rotate_encryption_key"}"#,
            Command::RotateEncryptionKey,
            vec![],
        ),
        (
            r#"{"command":"set_sample_rate","rate":48000}"#,
            Command::SetSampleRate,
            vec![("rate", "48000")],
        ),
        (
            r#"{"command":"set_buffer_frames","frames":512}"#,
            Command::SetBufferFrames,
            vec![("frames", "512")],
        ),
        (r#"{"command":"get_driver_config"}"#, Command::GetDriverConfig, vec![]),
        (r#"{"command":"get_hal_config"}"#, Command::GetDriverConfig, vec![]),
    ];
    for (text, command, fields) in cases {
        assert_eq!(parse(text), Some(command), "{text}");
        let line = json(text);
        for (name, value) in fields {
            assert!(at(&line, &[name]).matches(&json(value)), "{name} of {text}");
        }
    }
    let without_index = json(r#"{"command":"add_plugin","plugin":{"plugin_type":"eq","parameters":{}}}"#);
    assert!(without_index.member("index").is_none());
    assert_eq!(parse(r#"{"command":"explode"}"#), None);
}

#[test]
fn output_profile_commands_are_registered() {
    for (command, name) in [
        (Command::GetOutputProfiles, "get_output_profiles"),
        (Command::SetOutputProfile, "set_output_profile"),
        (Command::DeleteOutputProfile, "delete_output_profile"),
        (Command::AssignOutputProfile, "assign_output_profile"),
        (Command::SetOutputRoute, "set_output_route"),
    ] {
        assert_eq!(command.name(), name, "output profile command must be registered");
    }
}

#[test]
fn default_channel_counts_match_definitions() {
    assert_eq!(default_input_channels(), 0);
    assert_eq!(default_output_channels(), 2);
}

#[test]
fn testkit_pipeline_channel_patch_requires_a_field() {
    let response = handle_set_pipeline_channels(None, None).unwrap_err();
    assert!(!response.success);
    assert!(response
        .error
        .as_deref()
        .is_some_and(|e| e.contains("requires input_channels or output_channels")));
    let patch = handle_set_pipeline_channels(Some(4), Some(6)).unwrap();
    assert_eq!(patch.input_channels, Some(4));
    assert_eq!(patch.output_channels, Some(6));
}

#[test]
fn runtime_telemetry_records_latency_and_response_budget_regressions() {
    let mut telemetry = RuntimeTelemetry::default();
    telemetry.record_command("get_metering", METERING_LATENCY_BUDGET_MICROS + 1, 128);
    telemetry.record_command("load_plugins", 10, PIPELINE_RESPONSE_BUDGET_BYTES + 1);

    let snapshot = telemetry.snapshot();
    assert_eq!(at(&snapshot, &["metering", "requests"]).as_unsigned(), Some(1));
    assert_eq!(
        at(&snapshot, &["metering", "budget_exceeded"]).as_unsigned(),
        Some(1)
    );
    assert_eq!(
        at(&snapshot, &["pipeline_reload", "requests"]).as_unsigned(),
        Some(1)
    );
    assert_eq!(
        at(&snapshot, &["pipeline_reload", "budget_exceeded"]).as_unsigned(),
        Some(1)
    );
}

#[test]
fn runtime_telemetry_classifies_every_pipeline_mutation_wire_name() {
    let mut telemetry = RuntimeTelemetry::default();
    let commands = [
        "load_plugins",
        "load_plugin_artifact",
        "load_plugin_artifact_path",
        "add_plugin",
        "remove_plugin",
        "update_plugin",
        "reorder_plugins",
        "reorder_graph",
        "set_input_channels",
        "set_output_channels",
        "set_pipeline_channels",
    ];
    for command in commands {
        telemetry.record_command(command, 0, 0);
    }

    assert_eq!(
        at(&telemetry.snapshot(), &["pipeline_reload", "requests"]).as_unsigned(),
        Some(commands.len() as u64)
    );
}

#[test]
fn runtime_telemetry_keeps_averages_and_maxima() {
    let mut telemetry = RuntimeTelemetry::default();
    telemetry.record_command("get_loudness", 10, 100);
    telemetry.record_command("get_metering", 21, 50);
    telemetry.record_command("ping", 1_000_000, 1_000_000);
    assert!(at(&telemetry.snapshot(), &["metering"]).matches(&json(
        r#"{"requests":2,"average_micros":15,"max_micros":21,"max_response_bytes":100,"budget_exceeded":0}"#
    )));
    assert!(at(&telemetry.snapshot(), &["budgets"]).matches(&json(
        r#"{"metering_latency_micros":5000,"metering_response_bytes":65536,
            "pipeline_latency_micros":1000000,"pipeline_response_bytes":262144}"#
    )));
}

#[test]
fn answers_come_back_when_their_line_is_read() {
    let data = json(r#"{"list":[1,-2,{"deep":"tab\there"}],"name":"caf\u00e9 \"x\""}"#);
    let answer = Response {
        success: false,
        data: Some(data.clone()),
        error: Some("first\\second\u{7}".to_string()),
    };
    let line = serialize_response_safely(&answer);
    assert!(!line.contains('\n'));
    assert!(line.starts_with("{\"success\":false,\"data\":{"));
    let read = JsonValue::parse(&line).expect("one JSON object");
    assert!(at(&read, &["data"]).matches(&data));
    assert_eq!(at(&read, &["error"]).as_text(), Some("first\\second\u{7}"));
    assert!(at(&read, &["success"]).matches(&JsonValue::Bool(false)));
    assert_eq!(
        serialize_response_safely(&Response::ok_empty()),
        "{\"success\":true}"
    );
}

#[test]
fn only_some_commands_replace_the_pipeline() {
    assert!(Command::Play.changes_pipeline());
    assert!(Command::SetOutputRoute.changes_pipeline());
    assert!(!Command::Shutdown.changes_pipeline());
    for name in ["status", "get_snapshot", "driver_status", "encryption_status", "get_driver_config"] {
        assert!(refuse_command(PeerClass::CoreAudioD, name).is_none());
        assert!(!Command::named(name).unwrap().changes_pipeline());
    }
}

#[test]
fn outdated_artifacts_are_refused() {
    assert!(refuse_outdated_artifact(Some(4), 4).is_none());
    assert!(refuse_outdated_artifact(None, 4).is_none());
    assert_eq!(
        refuse_outdated_artifact(Some(3), 4).unwrap().error.unwrap(),
        "Plugin artifact generation conflict: editor based on generation 3, current generation is 4. Refresh before applying."
    );
}

#[test]
fn serialize_response_safely_fallback_is_valid_json() {
    let fallback = written_or_fallback(None);
    let parsed: serde_json::Value =
        serde_json::from_str(&fallback).expect("fallback must be valid JSON");
    assert_eq!(parsed["success"], serde_json::Value::Bool(false));
    assert!(parsed["error"].is_string());
    assert_eq!(
        fallback,
        r#"{"success":false,"error":"internal error: response serialization failed"}"#
    );
    assert_eq!(written_or_fallback(Some("{}".to_string())), "{}");
}

#[test]
fn decimals_are_written_as_numbers_or_null() {
    let decimal = |text: &str| JsonValue::Number(JsonNumber::Decimal(text.to_string()));
    assert_eq!(decimal("-3.5").render(), "-3.5");
    assert_eq!(decimal("1e2").render(), "100.0");
    let brackets = format!("{}{}", "[".repeat(127), "]".repeat(127));
    for text in ["abc", "\"x\"", "[1]", "null", "", brackets.as_str()] {
        assert_eq!(decimal(text).render(), "null", "{text}");
    }
    let line = serialize_response_safely(&Response::ok(decimal(&brackets)));
    assert_eq!(line, r#"{"success":true,"data":null}"#);
}

#[test]
fn nesting_is_read_back_up_to_its_limit() {
    let nested = |levels: usize| {
        (0..levels).fold(JsonValue::Null, |inner, _| JsonValue::List(vec![inner]))
    };
    let line = serialize_response_safely(&Response::ok(nested(126)));
    let read = JsonValue::parse(&line).expect("126 levels inside the answer");
    assert!(at(&read, &["data"]).matches(&nested(126)));
    assert!(JsonValue::parse(&serialize_response_safely(&Response::ok(nested(127)))).is_none());
    assert!(JsonValue::parse(&nested(127).render()).is_some());
    assert!(JsonValue::parse(&nested(128).render()).is_none());
}
