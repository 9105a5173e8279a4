//! What clients are told about the daemon: its status, a full snapshot, and the state of the chain
//! and the driver.

use crate::driver::DriverStatus;
use crate::json::{add_entry, json_member, list_of, Json, JsonNumber, JsonObject, JsonValue};
use crate::output_device::{is_safe_device, is_safe_output_device_name, opt_text};
use crate::pipeline::{count_json, device_json, device_value, pipeline_spec_to_json, spec_json};
use crate::plugins::{
    plugin_models, GraphModel, NodeModel, PluginConfig, PluginGraphConfig, PluginGraphEdgeConfig,
    PluginGraphNodeConfig, PluginModel,
};
use crate::response::{err_response, ok_response, Response};
use crate::security::EncryptionStatus;
use crate::startup::{playback_startup_observation, playback_state, should_heal_stale_readiness};
use crate::state::{
    opt_recovery, text_models, PipelineRecovery, RecoveryModel, StateModel, SystemwideState,
};
use crate::text::{join2, same_text};
use crate::transport::{
    fault_if, health, health_of, lemma_fault_if, lemma_joined, metering_faults, one_if, push_fault,
    push_metering_faults, says_fault, tells_count, tells_text, text_list, text_values,
    transport_faults, transport_json, transport_snapshot_and_faults, EngineObservation,
};
use vstd::prelude::*;

verus! {

/// An optional number as a JSON value.
pub open spec fn opt_count_json(n: Option<u64>) -> Json {
    match n {
        Some(x) => count_json(x as int),
        None => Json::Null,
    }
}

fn opt_count_value(n: Option<u64>) -> (r: JsonValue)
    ensures
        r@ == opt_count_json(n),
{
    match n {
        Some(x) => JsonValue::Number(JsonNumber::Unsigned(x)),
        None => JsonValue::Null,
    }
}

/// A recorded failure as clients see it.
pub open spec fn recovery_json(recovery: Option<RecoveryModel>) -> Json {
    match recovery {
        Some(r) => Json::Object(
            map!["error"@ => Json::Text(r.error), "actions"@ => text_list(r.actions)],
        ),
        None => Json::Null,
    }
}

fn recovery_value(recovery: &Option<PipelineRecovery>) -> (r: JsonValue)
    ensures
        r@ == recovery_json(opt_recovery(*recovery)),
{
    match recovery {
        Some(recovery) => {
            let mut out = JsonObject::new();
            out.put_text("error", recovery.error.as_str());
            out.put("actions", text_values(&recovery.actions));
            out.finish()
        },
        None => JsonValue::Null,
    }
}

/// What is proposed where a condition holds.
pub open spec fn action_if(present: bool, action: Seq<char>) -> Seq<Seq<char>> {
    if present {
        seq![action]
    } else {
        Seq::empty()
    }
}

/// Some actions with others added that are not among them yet.
pub open spec fn with_actions(actions: Seq<Seq<char>>, more: Seq<Seq<char>>) -> Seq<Seq<char>>
    decreases more.len(),
{
    if more.len() == 0 {
        actions
    } else {
        let front = with_actions(actions, more.drop_last());
        if front.contains(more.last()) {
            front
        } else {
            front.push(more.last())
        }
    }
}

/// What the user can do about the state of the daemon.
pub open spec fn recovery_actions(
    s: StateModel,
    recovery: Option<RecoveryModel>,
    e: EngineObservation,
    d: DriverStatus,
    key: EncryptionStatus,
) -> Seq<Seq<char>> {
    let applied_device = match s.pipeline.applied {
        Some(a) => a.spec.output_device,
        None => None,
    };
    let found = Seq::empty() + action_if(!d.platform_supported, "driver_not_supported"@) + action_if(
        !d.driver_installed,
        "reinstall_driver"@,
    ) + action_if(d.driver_installed && !d.driver_ready, "restart_daemon"@) + action_if(
        s.pipeline.desired.output_device is None && applied_device is None
            && e.playback_output_device is None,
        "select_output_device"@,
    ) + action_if(
        key.enabled && vstd::utf8::encode_utf8(key.fingerprint@).len() < 16,
        "rotate_encryption_key"@,
    );
    match recovery {
        Some(r) => with_actions(found, r.actions),
        None => found,
    }
}

fn add_action(actions: &mut Vec<String>, present: bool, action: &str)
    ensures
        text_models(final(actions)@) == text_models(old(actions)@) + action_if(present, action@),
{
    let ghost before = text_models(actions@);
    if present {
        let text = action.to_owned();
        let ghost list = actions@;
        actions.push(text);
        proof {
            assert(text_models(actions@) =~= text_models(list).push(action@));
            assert(text_models(actions@) =~= before + seq![action@]);
        }
    } else {
        proof {
            assert(before + Seq::<Seq<char>>::empty() =~= before);
        }
    }
}

fn holds_action(actions: &Vec<String>, action: &str) -> (r: bool)
    ensures
        r == text_models(actions@).contains(action@),
{
    let mut i: usize = 0;
    while i < actions.len()
        invariant
            i <= actions.len(),
            forall|k: int| 0 <= k < i ==> #[trigger] text_models(actions@)[k] != action@,
        decreases actions.len() - i,
    {
        if same_text(actions[i].as_str(), action) {
            proof {
                assert(text_models(actions@)[i as int] == action@);
            }
            return true;
        }
        i = i + 1;
    }
    false
}

fn add_missing(actions: &mut Vec<String>, more: &Vec<String>)
    ensures
        text_models(final(actions)@) == with_actions(text_models(old(actions)@), text_models(more@)),
{
    let ghost start = text_models(actions@);
    let ghost extra = text_models(more@);
    let mut i: usize = 0;
    proof {
        assert(extra.take(0) =~= Seq::<Seq<char>>::empty());
    }
    while i < more.len()
        invariant
            i <= more.len(),
            extra == text_models(more@),
            text_models(actions@) == with_actions(start, extra.take(i as int)),
        decreases more.len() - i,
    {
        proof {
            assert(extra.take(i + 1).drop_last() =~= extra.take(i as int));
            assert(extra.take(i + 1).last() == more@[i as int]@);
        }
        if !holds_action(actions, more[i].as_str()) {
            let ghost before = actions@;
            actions.push(more[i].clone());
            proof {
                assert(text_models(actions@) =~= text_models(before).push(more@[i as int]@));
            }
        }
        i = i + 1;
    }
    proof {
        assert(extra.take(i as int) =~= extra);
    }
}

fn list_recovery_actions(
    state: &SystemwideState,
    recovery: &Option<PipelineRecovery>,
    engine: &EngineObservation,
    driver_status: &DriverStatus,
    key_status: &EncryptionStatus,
) -> (r: Vec<String>)
    ensures
        text_models(r@) == recovery_actions(
            state@,
            opt_recovery(*recovery),
            *engine,
            *driver_status,
            *key_status,
        ),
{
    let mut actions: Vec<String> = Vec::new();
    proof {
        assert(text_models(actions@) =~= Seq::<Seq<char>>::empty());
    }
    add_action(&mut actions, !driver_status.platform_supported, "driver_not_supported");
    add_action(&mut actions, !driver_status.driver_installed, "reinstall_driver");
    add_action(
        &mut actions,
        driver_status.driver_installed && !driver_status.driver_ready,
        "restart_daemon",
    );
    add_action(
        &mut actions,
        state.pipeline.desired.output_device.is_none() && state.applied_output_device().is_none()
            && engine.playback_output_device.is_none(),
        "select_output_device",
    );
    let short = key_status.fingerprint.as_str().as_bytes().len() < 16;
    add_action(&mut actions, key_status.enabled && short, "rotate_encryption_key");
    if let Some(recovery) = recovery {
        add_missing(&mut actions, &recovery.actions);
    }
    actions
}

/// The status as clients see it.
pub open spec fn status_json(
    s: StateModel,
    recovery: Option<RecoveryModel>,
    e: EngineObservation,
    d: DriverStatus,
    key: EncryptionStatus,
) -> Json {
    let selected = device_json(s.pipeline.desired.output_device);
    let applied = device_json(
        match s.pipeline.applied {
            Some(a) => a.spec.output_device,
            None => None,
        },
    );
    let playback = device_json(opt_text(e.playback_output_device));
    Json::Object(
        map![
            "consistency"@ => Json::Text("best_effort"@),
            "state"@ => Json::Text(e.state@),
            "volume"@ => e.volume@,
            "muted"@ => Json::Bool(e.muted),
            "selected_device"@ => selected,
            "pipeline_generation"@ => opt_count_json(
                match s.pipeline.applied {
                    Some(a) => Some(a.generation),
                    None => None,
                },
            ),
            "pipeline_applied_output_device"@ => applied,
            "sample_rate"@ => count_json(e.sample_rate as int),
            "input_channels"@ => count_json(s.pipeline.desired.input_channels as int),
            "output_channels"@ => count_json(s.pipeline.desired.output_channels as int),
            "channels"@ => count_json(e.num_channels as int),
            "underruns"@ => count_json(e.underruns as int),
            "playback_output_device"@ => playback,
            "playback_callback_count"@ => count_json(e.playback_callback_count as int),
            "playback_buffer_fill_percent"@ => e.playback_buffer_fill_percent@,
            "playback_stream_error_count"@ => count_json(e.playback_stream_error_count as int),
            "playback_frames_received"@ => count_json(e.playback_frames_received as int),
            "playback_frames_written"@ => count_json(e.playback_frames_written as int),
            "playback_frames_dropped"@ => count_json(e.playback_frames_dropped as int),
            "playback_effective_sample_rate"@ => count_json(e.playback_effective_sample_rate as int),
            "last_error"@ => device_json(opt_text(e.last_error)),
            "driver"@ => Json::Object(
                map![
                    "installed"@ => Json::Bool(d.driver_installed),
                    "ready"@ => Json::Bool(d.driver_ready),
                    "capture_active"@ => Json::Bool(d.capture_active),
                    "frame_size"@ => count_json(d.buffer_frames as int),
                    "sample_rate"@ => count_json(d.sample_rate as int),
                    "channel_count"@ => count_json(d.channel_count as int),
                ],
            ),
            "encryption"@ => Json::Object(
                map![
                    "enabled"@ => Json::Bool(key.enabled),
                    "fingerprint"@ => Json::Text(key.fingerprint@),
                ],
            ),
            "active_route"@ => Json::Object(
                map![
                    "desired_output_device"@ => selected,
                    "applied_output_device"@ => applied,
                    "playback_output_device"@ => playback,
                    "capture_active"@ => Json::Bool(d.capture_active),
                ],
            ),
            "pipeline_recovery"@ => recovery_json(recovery),
            "recovery_actions"@ => text_list(recovery_actions(s, recovery, e, d, key)),
        ],
    )
}

/// Whether a recorded failure is healed: the engine recovered by itself and the driver is ready.
pub open spec fn heals(s: StateModel, e: EngineObservation, d: DriverStatus) -> bool {
    s.recovery is Some && d.driver_ready && playback_state(
        opt_text(e.last_error),
        e.playback_callback_count,
    ) == Ok::<bool, Seq<char>>(true)
}

fn driver_value(d: &DriverStatus) -> (r: JsonValue)
    ensures
        r@ == Json::Object(
            map![
                "installed"@ => Json::Bool(d.driver_installed),
                "ready"@ => Json::Bool(d.driver_ready),
                "capture_active"@ => Json::Bool(d.capture_active),
                "frame_size"@ => count_json(d.buffer_frames as int),
                "sample_rate"@ => count_json(d.sample_rate as int),
                "channel_count"@ => count_json(d.channel_count as int),
            ],
        ),
{
    let mut out = JsonObject::new();
    out.put_bool("installed", d.driver_installed);
    out.put_bool("ready", d.driver_ready);
    out.put_bool("capture_active", d.capture_active);
    out.put_unsigned("frame_size", d.buffer_frames as u64);
    out.put_unsigned("sample_rate", d.sample_rate as u64);
    out.put_unsigned("channel_count", d.channel_count as u64);
    out.finish()
}

fn route_value(selected: &Option<String>, applied: &Option<String>, playback: &Option<String>, capture: bool) -> (r:
    JsonValue)
    ensures
        r@ == Json::Object(
            map![
                "desired_output_device"@ => device_json(opt_text(*selected)),
                "applied_output_device"@ => device_json(opt_text(*applied)),
                "playback_output_device"@ => device_json(opt_text(*playback)),
                "capture_active"@ => Json::Bool(capture),
            ],
        ),
{
    let mut out = JsonObject::new();
    out.put("desired_output_device", device_value(selected));
    out.put("applied_output_device", device_value(applied));
    out.put("playback_output_device", device_value(playback));
    out.put_bool("capture_active", capture);
    out.finish()
}

fn status_value(
    state: &SystemwideState,
    recovery: &Option<PipelineRecovery>,
    engine: &EngineObservation,
    driver_status: &DriverStatus,
    key_status: &EncryptionStatus,
) -> (r: JsonValue)
    ensures
        r@ == status_json(state@, opt_recovery(*recovery), *engine, *driver_status, *key_status),
{
    let selected = state.selected_output_device();
    let applied = state.applied_output_device();
    let actions = list_recovery_actions(state, recovery, engine, driver_status, key_status);
    let mut encryption = JsonObject::new();
    encryption.put_bool("enabled", key_status.enabled);
    encryption.put_text("fingerprint", key_status.fingerprint.as_str());
    let mut out = JsonObject::new();
    out.put_text("consistency", "best_effort");
    out.put_text("state", engine.state.as_str());
    out.put("volume", engine.volume.clone());
    out.put_bool("muted", engine.muted);
    out.put("selected_device", device_value(&selected));
    out.put("pipeline_generation", opt_count_value(state.applied_generation()));
    out.put("pipeline_applied_output_device", device_value(&applied));
    out.put_unsigned("sample_rate", engine.sample_rate as u64);
    out.put_unsigned("input_channels", state.input_channels() as u64);
    out.put_unsigned("output_channels", state.output_channels() as u64);
    out.put_unsigned("channels", engine.num_channels as u64);
    out.put_unsigned("underruns", engine.underruns);
    out.put("playback_output_device", device_value(&engine.playback_output_device));
    out.put_unsigned("playback_callback_count", engine.playback_callback_count);
    out.put("playback_buffer_fill_percent", engine.playback_buffer_fill_percent.clone());
    out.put_unsigned("playback_stream_error_count", engine.playback_stream_error_count);
    out.put_unsigned("playback_frames_received", engine.playback_frames_received);
    out.put_unsigned("playback_frames_written", engine.playback_frames_written);
    out.put_unsigned("playback_frames_dropped", engine.playback_frames_dropped);
    out.put_unsigned("playback_effective_sample_rate", engine.playback_effective_sample_rate as u64);
    out.put("last_error", device_value(&engine.last_error));
    out.put("driver", driver_value(driver_status));
    out.put("encryption", encryption.finish());
    out.put(
        "active_route",
        route_value(
            &selected,
            &applied,
            &engine.playback_output_device,
            driver_status.capture_active,
        ),
    );
    out.put("pipeline_recovery", recovery_value(recovery));
    out.put("recovery_actions", text_values(&actions));
    out.finish()
}

/// The status, and whether to tell the driver that the engine is ready again. A failure that the
/// engine has recovered from by itself is forgotten, so it does not ask for a restart for ever.
pub fn handle_status(
    state: &mut SystemwideState,
    engine: &EngineObservation,
    driver_status: &DriverStatus,
    key_status: &EncryptionStatus,
) -> (r: (Response, bool))
    ensures
        r.1 == heals(old(state)@, *engine, *driver_status),
        final(state)@ == if r.1 {
            StateModel { recovery: None, ..old(state)@ }
        } else {
            old(state)@
        },
        r.0@ == ok_response(
            status_json(
                old(state)@,
                final(state)@.recovery,
                *engine,
                *driver_status,
                *key_status,
            ),
        ),
{
    let seen = playback_startup_observation(&engine.last_error, engine.playback_callback_count);
    let recorded = state.pipeline_recovery.is_some();
    let healed = should_heal_stale_readiness(recorded, driver_status.driver_ready, &seen);
    if healed {
        state.clear_pipeline_recovery();
    }
    let recovery = state.pipeline_recovery();
    let value = status_value(state, &recovery, engine, driver_status, key_status);
    (Response::ok(value), healed)
}

/// The fault of a recorded failure.
pub open spec fn recovery_fault(recovery: Option<RecoveryModel>) -> Seq<Json> {
    match recovery {
        Some(r) => seq![
            Json::Object(
                map![
                    "code"@ => Json::Text("pipeline_recovery_required"@),
                    "severity"@ => Json::Text("error"@),
                    "message"@ => Json::Text(r.error),
                    "actions"@ => text_list(r.actions),
                ],
            ),
        ],
        None => Seq::empty(),
    }
}

fn push_recovery_fault(faults: &mut Vec<JsonValue>, recovery: &Option<PipelineRecovery>)
    ensures
        list_of(final(faults)@) == list_of(old(faults)@) + recovery_fault(opt_recovery(*recovery)),
{
    let ghost before = list_of(faults@);
    match recovery {
        Some(recovery) => {
            let mut out = JsonObject::new();
            out.put_text("code", "pipeline_recovery_required");
            out.put_text("severity", "error");
            out.put_text("message", recovery.error.as_str());
            out.put("actions", text_values(&recovery.actions));
            add_entry(faults, out.finish());
            proof {
                assert(list_of(faults@) =~= before + recovery_fault(Some(recovery@)));
            }
        },
        None => {
            proof {
                assert(before + Seq::<Json>::empty() =~= before);
            }
        },
    }
}

/// Whether a device is known and not safe to play to.
pub open spec fn is_unsafe(device: Option<Seq<char>>) -> bool {
    device is Some && !is_safe_device(device->0)
}

fn unsafe_device(device: &Option<String>) -> (r: bool)
    ensures
        r == is_unsafe(opt_text(*device)),
{
    match device {
        Some(name) => !is_safe_output_device_name(name.as_str()),
        None => false,
    }
}

/// Everything that is wrong.
pub open spec fn snapshot_faults(s: StateModel, e: EngineObservation, d: DriverStatus, metering: Json) -> Seq<Json> {
    transport_faults(e, d) + fault_if(
        is_unsafe(s.pipeline.desired.output_device),
        "unsafe_desired_output_device"@,
        "error"@,
        "Desired output device is virtual/loopback and would create a feedback risk."@,
    ) + fault_if(
        is_unsafe(opt_text(e.playback_output_device)),
        "unsafe_observed_output_device"@,
        "error"@,
        "Observed playback output device is virtual/loopback and risks feedback."@,
    ) + recovery_fault(s.recovery) + metering_faults(e.state@, metering)
}

/// The engine as the snapshot shows it.
pub open spec fn engine_json(e: EngineObservation) -> Json {
    Json::Object(
        map![
            "state"@ => Json::Text(e.state@),
            "volume"@ => e.volume@,
            "muted"@ => Json::Bool(e.muted),
            "sample_rate"@ => count_json(e.sample_rate as int),
            "channels"@ => count_json(e.num_channels as int),
            "underruns"@ => count_json(e.underruns as int),
            "playback_output_device"@ => device_json(opt_text(e.playback_output_device)),
            "playback_callback_count"@ => count_json(e.playback_callback_count as int),
            "playback_buffer_fill_percent"@ => e.playback_buffer_fill_percent@,
            "playback_stream_error_count"@ => count_json(e.playback_stream_error_count as int),
            "playback_frames_received"@ => count_json(e.playback_frames_received as int),
            "playback_frames_written"@ => count_json(e.playback_frames_written as int),
            "playback_frames_dropped"@ => count_json(e.playback_frames_dropped as int),
            "playback_effective_sample_rate"@ => count_json(e.playback_effective_sample_rate as int),
            "last_error"@ => device_json(opt_text(e.last_error)),
        ],
    )
}

fn engine_value(e: &EngineObservation) -> (r: JsonValue)
    ensures
        r@ == engine_json(*e),
{
    let mut out = JsonObject::new();
    out.put_text("state", e.state.as_str());
    out.put("volume", e.volume.clone());
    out.put_bool("muted", e.muted);
    out.put_unsigned("sample_rate", e.sample_rate as u64);
    out.put_unsigned("channels", e.num_channels as u64);
    out.put_unsigned("underruns", e.underruns);
    out.put("playback_output_device", device_value(&e.playback_output_device));
    out.put_unsigned("playback_callback_count", e.playback_callback_count);
    out.put("playback_buffer_fill_percent", e.playback_buffer_fill_percent.clone());
    out.put_unsigned("playback_stream_error_count", e.playback_stream_error_count);
    out.put_unsigned("playback_frames_received", e.playback_frames_received);
    out.put_unsigned("playback_frames_written", e.playback_frames_written);
    out.put_unsigned("playback_frames_dropped", e.playback_frames_dropped);
    out.put_unsigned("playback_effective_sample_rate", e.playback_effective_sample_rate as u64);
    out.put("last_error", device_value(&e.last_error));
    out.finish()
}

/// The driver's status as the snapshot shows it, member by member.
pub open spec fn driver_map(d: DriverStatus) -> Map<Seq<char>, Json> {
    map![
        "platform_supported"@ => Json::Bool(d.platform_supported),
        "driver_installed"@ => Json::Bool(d.driver_installed),
        "driver_ready"@ => Json::Bool(d.driver_ready),
        "capture_active"@ => Json::Bool(d.capture_active),
        "sample_rate"@ => count_json(d.sample_rate as int),
        "channel_count"@ => count_json(d.channel_count as int),
        "buffer_frames"@ => count_json(d.buffer_frames as int),
        "driver_name"@ => Json::Text(d.driver_name@),
    ]
}

fn driver_object(d: &DriverStatus) -> (r: JsonObject)
    ensures
        r@ == driver_map(*d),
{
    let mut out = JsonObject::new();
    out.put_bool("platform_supported", d.platform_supported);
    out.put_bool("driver_installed", d.driver_installed);
    out.put_bool("driver_ready", d.driver_ready);
    out.put_bool("capture_active", d.capture_active);
    out.put_unsigned("sample_rate", d.sample_rate as u64);
    out.put_unsigned("channel_count", d.channel_count as u64);
    out.put_unsigned("buffer_frames", d.buffer_frames as u64);
    out.put_text("driver_name", d.driver_name);
    out
}

/// The encryption state as the snapshot shows it.
pub open spec fn encryption_json(key: EncryptionStatus) -> Json {
    Json::Object(
        map![
            "enabled"@ => Json::Bool(key.enabled),
            "fingerprint"@ => Json::Text(key.fingerprint@),
            "key_path"@ => Json::Text(key.key_path@),
        ],
    )
}

fn encryption_value(key: &EncryptionStatus) -> (r: JsonValue)
    ensures
        r@ == encryption_json(*key),
{
    let mut out = JsonObject::new();
    out.put_bool("enabled", key.enabled);
    out.put_text("fingerprint", key.fingerprint.as_str());
    out.put_text("key_path", key.key_path.as_str());
    out.finish()
}

/// The current route.
#[derive(Debug)]
pub struct CurrentRoute {
    pub profile_id: Option<String>,
    pub device_uid: Option<String>,
    pub device_name: Option<String>,
}

/// The applied pipeline as the snapshot shows it.
pub open spec fn applied_json(s: StateModel, route: CurrentRoute) -> Json {
    Json::Object(
        map![
            "generation"@ => opt_count_json(
                match s.pipeline.applied {
                    Some(a) => Some(a.generation),
                    None => None,
                },
            ),
            "output_device"@ => device_json(
                match s.pipeline.applied {
                    Some(a) => a.spec.output_device,
                    None => None,
                },
            ),
            "output_device_uid"@ => device_json(opt_text(route.device_uid)),
            "output_device_name"@ => device_json(opt_text(route.device_name)),
            "profile_id"@ => device_json(opt_text(route.profile_id)),
            "spec"@ => match s.pipeline.applied {
                Some(a) => spec_json(a.spec),
                None => Json::Null,
            },
        ],
    )
}

fn applied_value(state: &SystemwideState, route: &CurrentRoute) -> (r: JsonValue)
    ensures
        r@ == applied_json(state@, *route),
{
    let spec = match &state.pipeline.applied {
        Some(applied) => pipeline_spec_to_json(&applied.spec),
        None => JsonValue::Null,
    };
    let mut out = JsonObject::new();
    out.put("generation", opt_count_value(state.applied_generation()));
    out.put("output_device", device_value(&state.applied_output_device()));
    out.put("output_device_uid", device_value(&route.device_uid));
    out.put("output_device_name", device_value(&route.device_name));
    out.put("profile_id", device_value(&route.profile_id));
    out.put("spec", spec);
    out.finish()
}

/// The whole state of the daemon.
pub open spec fn snapshot_json(
    s: StateModel,
    e: EngineObservation,
    d: DriverStatus,
    key: EncryptionStatus,
    route: CurrentRoute,
    metering: Json,
) -> Json {
    let faults = snapshot_faults(s, e, d, metering);
    Json::Object(
        map![
            "schema_version"@ => count_json(1),
            "generation"@ => count_json(s.pipeline.generation as int),
            "desired"@ => spec_json(s.pipeline.desired),
            "applied"@ => applied_json(s, route),
            "observed"@ => Json::Object(
                map![
                    "engine"@ => engine_json(e),
                    "driver"@ => Json::Object(driver_map(d)),
                    "encryption"@ => encryption_json(key),
                    "transport"@ => transport_json(e, d),
                    "metering"@ => metering,
                ],
            ),
            "diagnostics"@ => Json::Object(
                map![
                    "health"@ => Json::Text(health_of(faults)),
                    "faults"@ => Json::List(faults),
                    "pipeline_recovery"@ => recovery_json(s.recovery),
                ],
            ),
        ],
    )
}

/// The whole state of the daemon, from observations that belong together.
pub fn snapshot(
    state: &SystemwideState,
    engine: &EngineObservation,
    driver_status: &DriverStatus,
    key_status: &EncryptionStatus,
    route: &CurrentRoute,
    metering: JsonValue,
) -> (r: JsonValue)
    ensures
        r@ == snapshot_json(state@, *engine, *driver_status, *key_status, *route, metering@),
{
    let (transport, found) = transport_snapshot_and_faults(driver_status, engine);
    let mut faults = found;
    push_fault(
        &mut faults,
        unsafe_device(&state.pipeline.desired.output_device),
        "unsafe_desired_output_device",
        "error",
        "Desired output device is virtual/loopback and would create a feedback risk.",
    );
    push_fault(
        &mut faults,
        unsafe_device(&engine.playback_output_device),
        "unsafe_observed_output_device",
        "error",
        "Observed playback output device is virtual/loopback and risks feedback.",
    );
    push_recovery_fault(&mut faults, &state.pipeline_recovery);
    push_metering_faults(engine.state.as_str(), &metering, &mut faults);
    let overall = health(&faults);
    let mut observed = JsonObject::new();
    observed.put("engine", engine_value(engine));
    observed.put("driver", driver_object(driver_status).finish());
    observed.put("encryption", encryption_value(key_status));
    observed.put("transport", transport);
    observed.put("metering", metering);
    let mut diagnostics = JsonObject::new();
    diagnostics.put_text("health", overall);
    diagnostics.put("faults", JsonValue::List(faults));
    diagnostics.put("pipeline_recovery", recovery_value(&state.pipeline_recovery));
    let mut out = JsonObject::new();
    out.put_unsigned("schema_version", 1);
    out.put_unsigned("generation", state.generation());
    out.put("desired", pipeline_spec_to_json(&state.pipeline.desired));
    out.put("applied", applied_value(state, route));
    out.put("observed", observed.finish());
    out.put("diagnostics", diagnostics.finish());
    out.finish()
}

/// A node as clients see it.
pub open spec fn node_json(n: NodeModel) -> Json {
    Json::Object(
        map![
            "id"@ => count_json(n.id as int),
            "plugin_type"@ => Json::Text(n.plugin_type),
            "parameters"@ => n.parameters,
            "input_channels"@ => count_json(n.input_channels as int),
            "bypassed"@ => Json::Bool(n.bypassed),
        ],
    )
}

/// An edge as clients see it.
pub open spec fn edge_json(e: PluginGraphEdgeConfig) -> Json {
    Json::Object(
        map![
            "from_node"@ => count_json(e.from_node as int),
            "to_node"@ => count_json(e.to_node as int),
        ],
    )
}

/// A graph as clients see it.
pub open spec fn graph_json(g: GraphModel) -> Json {
    Json::Object(
        map![
            "nodes"@ => Json::List(g.nodes.map_values(|n: NodeModel| node_json(n))),
            "edges"@ => Json::List(g.edges.map_values(|e: PluginGraphEdgeConfig| edge_json(e))),
        ],
    )
}

fn node_value(n: &PluginGraphNodeConfig) -> (r: JsonValue)
    ensures
        r@ == node_json(n@),
{
    let mut out = JsonObject::new();
    out.put_unsigned("id", n.id as u64);
    out.put_text("plugin_type", n.plugin_type.as_str());
    out.put("parameters", n.parameters.clone());
    out.put_unsigned("input_channels", n.input_channels as u64);
    out.put_bool("bypassed", n.bypassed);
    out.finish()
}

/// A graph as clients see it.
pub fn graph_value(graph: &PluginGraphConfig) -> (r: JsonValue)
    ensures
        r@ == graph_json(graph@),
{
    let mut nodes: Vec<JsonValue> = Vec::new();
    let mut i: usize = 0;
    while i < graph.nodes.len()
        invariant
            i <= graph.nodes.len(),
            nodes.len() == i,
            forall|k: int| 0 <= k < i ==> (#[trigger] nodes@[k])@ == node_json(graph.nodes@[k]@),
        decreases graph.nodes.len() - i,
    {
        nodes.push(node_value(&graph.nodes[i]));
        i = i + 1;
    }
    let mut edges: Vec<JsonValue> = Vec::new();
    let mut j: usize = 0;
    while j < graph.edges.len()
        invariant
            j <= graph.edges.len(),
            edges.len() == j,
            forall|k: int| 0 <= k < j ==> (#[trigger] edges@[k])@ == edge_json(graph.edges@[k]),
        decreases graph.edges.len() - j,
    {
        let mut edge = JsonObject::new();
        edge.put_unsigned("from_node", graph.edges[j].from_node as u64);
        edge.put_unsigned("to_node", graph.edges[j].to_node as u64);
        edges.push(edge.finish());
        j = j + 1;
    }
    proof {
        assert(list_of(nodes@) =~= graph@.nodes.map_values(|n: NodeModel| node_json(n)));
        assert(list_of(edges@) =~= graph@.edges.map_values(|e: PluginGraphEdgeConfig| edge_json(e)));
    }
    let mut out = JsonObject::new();
    out.put("nodes", JsonValue::List(nodes));
    out.put("edges", JsonValue::List(edges));
    out.finish()
}

/// A rack entry as clients see it: with the state that a graph node would have.
pub open spec fn rack_entry(p: PluginModel, index: int, channels: usize) -> Json {
    Json::Object(
        map![
            "index"@ => count_json(index),
            "plugin_type"@ => Json::Text(p.plugin_type),
            "parameters"@ => p.parameters,
            "input_channels"@ => count_json(if channels > 1 { channels as int } else { 1 }),
            "bypassed"@ => Json::Bool(false),
        ],
    )
}

/// A rack as clients see it.
pub open spec fn rack_json(plugins: Seq<PluginModel>, channels: usize) -> Json {
    Json::List(Seq::new(plugins.len(), |i: int| rack_entry(plugins[i], i, channels)))
}

/// A rack as clients see it.
pub fn rack_value(plugins: &Vec<PluginConfig>, channels: usize) -> (r: JsonValue)
    ensures
        r@ == rack_json(plugin_models(plugins@), channels),
{
    let shown: u64 = if channels > 1 { channels as u64 } else { 1 };
    let ghost models = plugin_models(plugins@);
    let mut out: Vec<JsonValue> = Vec::new();
    let mut i: usize = 0;
    while i < plugins.len()
        invariant
            i <= plugins.len(),
            out.len() == i,
            models == plugin_models(plugins@),
            shown == if channels > 1 { channels as int } else { 1 },
            forall|k: int| 0 <= k < i ==> (#[trigger] out@[k])@ == rack_entry(models[k], k, channels),
        decreases plugins.len() - i,
    {
        let mut entry = JsonObject::new();
        entry.put_unsigned("index", i as u64);
        entry.put_text("plugin_type", plugins[i].plugin_type.as_str());
        entry.put("parameters", plugins[i].parameters.clone());
        entry.put_unsigned("input_channels", shown);
        entry.put_bool("bypassed", false);
        out.push(entry.finish());
        i = i + 1;
    }
    proof {
        assert(list_of(out@) =~= Seq::new(models.len(), |k: int| rack_entry(models[k], k, channels)));
    }
    JsonValue::List(out)
}

fn empty_list() -> (r: JsonValue)
    ensures
        r@ == Json::List(Seq::empty()),
{
    let none: Vec<JsonValue> = Vec::new();
    proof {
        assert(list_of(none@) =~= Seq::<Json>::empty());
    }
    JsonValue::List(none)
}

/// The live chain as clients see it.
pub open spec fn plugins_json(s: StateModel) -> Json {
    let desired = s.pipeline.desired;
    match desired.user_graph {
        Some(graph) => Json::Object(
            map![
                "topology"@ => Json::Text("graph"@),
                "graph"@ => graph_json(graph),
                "plugins"@ => Json::List(Seq::empty()),
                "generation"@ => count_json(s.pipeline.generation as int),
            ],
        ),
        None => Json::Object(
            map![
                "topology"@ => Json::Text("rack"@),
                "plugins"@ => rack_json(desired.user_plugins, desired.input_channels),
                "generation"@ => count_json(s.pipeline.generation as int),
            ],
        ),
    }
}

/// The live chain as clients see it.
pub fn handle_get_plugins(state: &SystemwideState) -> (r: Response)
    ensures
        r@ == ok_response(plugins_json(state@)),
{
    let mut out = JsonObject::new();
    match &state.pipeline.desired.user_graph {
        Some(graph) => {
            out.put_text("topology", "graph");
            out.put("graph", graph_value(graph));
            out.put("plugins", empty_list());
            out.put_unsigned("generation", state.generation());
        },
        None => {
            out.put_text("topology", "rack");
            out.put(
                "plugins",
                rack_value(&state.pipeline.desired.user_plugins, state.input_channels()),
            );
            out.put_unsigned("generation", state.generation());
        },
    }
    Response::ok(out.finish())
}

/// The plugins of a chain with their parameters.
pub open spec fn chain_json(plugins: Seq<PluginModel>) -> Json {
    Json::List(
        plugins.map_values(
            |p: PluginModel|
                Json::Object(
                    map![
                        "plugin_type"@ => Json::Text(p.plugin_type),
                        "parameters"@ => p.parameters,
                    ],
                ),
        ),
    )
}

fn chain_value(plugins: &Vec<PluginConfig>) -> (r: JsonValue)
    ensures
        r@ == chain_json(plugin_models(plugins@)),
{
    let ghost models = plugin_models(plugins@);
    let ghost show = |p: PluginModel|
        Json::Object(
            map!["plugin_type"@ => Json::Text(p.plugin_type), "parameters"@ => p.parameters],
        );
    let mut out: Vec<JsonValue> = Vec::new();
    let mut i: usize = 0;
    while i < plugins.len()
        invariant
            i <= plugins.len(),
            out.len() == i,
            models == plugin_models(plugins@),
            show == (|p: PluginModel|
                Json::Object(
                    map!["plugin_type"@ => Json::Text(p.plugin_type), "parameters"@ => p.parameters],
                )),
            forall|k: int| 0 <= k < i ==> (#[trigger] out@[k])@ == show(models[k]),
        decreases plugins.len() - i,
    {
        let mut entry = JsonObject::new();
        entry.put_text("plugin_type", plugins[i].plugin_type.as_str());
        entry.put("parameters", plugins[i].parameters.clone());
        out.push(entry.finish());
        i = i + 1;
    }
    proof {
        assert(list_of(out@) =~= models.map_values(show));
    }
    JsonValue::List(out)
}

/// The dump for diagnosis: the snapshot, the live chain as it is stored, and the telemetry.
pub open spec fn dump_json(s: StateModel, snapshot: Json, telemetry: Json) -> Json {
    let desired = s.pipeline.desired;
    Json::Object(
        map![
            "snapshot"@ => snapshot,
            "topology"@ => Json::Text(if desired.user_graph is Some { "graph"@ } else { "rack"@ }),
            "plugins"@ => chain_json(desired.user_plugins),
            "graph"@ => match desired.user_graph {
                Some(graph) => graph_json(graph),
                None => Json::Null,
            },
            "runtime_telemetry"@ => telemetry,
        ],
    )
}

/// The dump for diagnosis.
pub fn handle_dump_state(state: &SystemwideState, snapshot: JsonValue, telemetry: JsonValue) -> (r: Response)
    ensures
        r@ == ok_response(dump_json(state@, snapshot@, telemetry@)),
{
    let mut out = JsonObject::new();
    out.put("snapshot", snapshot);
    match &state.pipeline.desired.user_graph {
        Some(graph) => {
            out.put_text("topology", "graph");
            out.put("plugins", chain_value(&state.pipeline.desired.user_plugins));
            out.put("graph", graph_value(graph));
        },
        None => {
            out.put_text("topology", "rack");
            out.put("plugins", chain_value(&state.pipeline.desired.user_plugins));
            out.put("graph", JsonValue::Null);
        },
    }
    out.put("runtime_telemetry", telemetry);
    Response::ok(out.finish())
}

/// The driver's status as clients see it, with what follows from it.
pub open spec fn driver_status_json(d: DriverStatus) -> Json {
    Json::Object(
        driver_map(d).insert(
            "buffer_initialized"@,
            Json::Bool(d.capture_active || d.driver_installed),
        ).insert(
            "ready"@,
            Json::Bool(d.platform_supported && d.driver_installed && d.driver_ready),
        ),
    )
}

/// The driver's status as clients see it.
pub fn handle_driver_status(d: &DriverStatus) -> (r: Response)
    ensures
        r@ == ok_response(driver_status_json(*d)),
{
    let mut out = driver_object(d);
    out.put_bool("buffer_initialized", d.capture_active || d.driver_installed);
    out.put_bool("ready", d.platform_supported && d.driver_installed && d.driver_ready);
    Response::ok(out.finish())
}

/// The driver's configuration as clients see it.
pub open spec fn driver_config_json(d: DriverStatus) -> Json {
    Json::Object(
        map![
            "sample_rate"@ => count_json(d.sample_rate as int),
            "actual_sample_rate"@ => count_json(d.sample_rate as int),
            "buffer_frames"@ => count_json(d.buffer_frames as int),
            "actual_buffer_frames"@ => count_json(d.buffer_frames as int),
            "channel_count"@ => count_json(d.channel_count as int),
            "active"@ => Json::Bool(d.capture_active),
            "driver_name"@ => Json::Text(d.driver_name@),
            "driver_installed"@ => Json::Bool(d.driver_installed),
            "driver_ready"@ => Json::Bool(d.driver_ready),
            "platform_supported"@ => Json::Bool(d.platform_supported),
        ],
    )
}

/// The driver's configuration as clients see it.
pub fn handle_get_driver_config(d: &DriverStatus) -> (r: Response)
    ensures
        r@ == ok_response(driver_config_json(*d)),
{
    let mut out = JsonObject::new();
    out.put_unsigned("sample_rate", d.sample_rate as u64);
    out.put_unsigned("actual_sample_rate", d.sample_rate as u64);
    out.put_unsigned("buffer_frames", d.buffer_frames as u64);
    out.put_unsigned("actual_buffer_frames", d.buffer_frames as u64);
    out.put_unsigned("channel_count", d.channel_count as u64);
    out.put_bool("active", d.capture_active);
    out.put_text("driver_name", d.driver_name);
    out.put_bool("driver_installed", d.driver_installed);
    out.put_bool("driver_ready", d.driver_ready);
    out.put_bool("platform_supported", d.platform_supported);
    Response::ok(out.finish())
}

/// The answer to a question for the devices, from how listing them came out.
pub fn device_list_response(listed: Result<(u64, Vec<JsonValue>), String>) -> (r: Response)
    ensures
        match listed {
            Ok(found) => r@ == ok_response(
                Json::Object(
                    map![
                        "generation"@ => count_json(found.0 as int),
                        "devices"@ => Json::List(list_of(found.1@)),
                    ],
                ),
            ),
            Err(e) => r@ == err_response("Failed to list devices: "@ + e@),
        },
{
    match listed {
        Ok((generation, devices)) => {
            let mut out = JsonObject::new();
            out.put_unsigned("generation", generation);
            out.put("devices", JsonValue::List(devices));
            Response::ok(out.finish())
        },
        Err(error) => Response::err(join2("Failed to list devices: ", error.as_str())),
    }
}

/// The answer to a command that the engine carries out, from how it came out.
pub fn engine_response(complaint: &str, outcome: Result<(), String>) -> (r: Response)
    ensures
        r@ == match outcome {
            Ok(_) => crate::response::done_response(),
            Err(e) => err_response(complaint@ + e@),
        },
{
    match outcome {
        Ok(_) => Response::ok_empty(),
        Err(error) => Response::err(join2(complaint, error.as_str())),
    }
}

proof fn lemma_error_is_error(code: Seq<char>, message: Seq<char>)
    ensures
        crate::transport::is_error(crate::transport::fault(code, "error"@, message)),
{
    reveal_strlit("severity");
    reveal_strlit("message");
    assert("severity"@.len() == 8 && "message"@.len() == 7);
}

/// A feedback risk never goes unnoticed: a snapshot with a virtual device, desired or observed, or
/// with a recorded failure, reports a fault.
pub proof fn feedback_risks_are_reported(s: StateModel, e: EngineObservation, d: DriverStatus, metering: Json)
    requires
        is_unsafe(s.pipeline.desired.output_device) || is_unsafe(opt_text(e.playback_output_device))
            || s.recovery is Some,
    ensures
        health_of(snapshot_faults(s, e, d, metering)) == "fault"@,
{
    let faults = snapshot_faults(s, e, d, metering);
    let base = transport_faults(e, d);
    let desired = fault_if(
        is_unsafe(s.pipeline.desired.output_device),
        "unsafe_desired_output_device"@,
        "error"@,
        "Desired output device is virtual/loopback and would create a feedback risk."@,
    );
    let observed = fault_if(
        is_unsafe(opt_text(e.playback_output_device)),
        "unsafe_observed_output_device"@,
        "error"@,
        "Observed playback output device is virtual/loopback and risks feedback."@,
    );
    if is_unsafe(s.pipeline.desired.output_device) {
        lemma_error_is_error(
            "unsafe_desired_output_device"@,
            "Desired output device is virtual/loopback and would create a feedback risk."@,
        );
        assert(faults[base.len() as int] == desired[0]);
    } else if is_unsafe(opt_text(e.playback_output_device)) {
        lemma_error_is_error(
            "unsafe_observed_output_device"@,
            "Observed playback output device is virtual/loopback and risks feedback."@,
        );
        assert(faults[(base.len() + desired.len()) as int] == observed[0]);
    } else {
        let at = base.len() + desired.len() + observed.len();
        assert(faults[at as int] == recovery_fault(s.recovery)[0]);
        reveal_strlit("severity");
        reveal_strlit("message");
        reveal_strlit("actions");
        assert("severity"@.len() == 8 && "message"@.len() == 7 && "actions"@.len() == 7);
        assert(crate::transport::is_error(faults[at as int]));
    }
}

/// The status shows what the engine reports, what is desired and what is applied, each under its name.
pub proof fn status_shows_engine_and_pipeline(
    s: StateModel,
    recovery: Option<RecoveryModel>,
    e: EngineObservation,
    d: DriverStatus,
    key: EncryptionStatus,
)
    ensures
        ({
            let report = status_json(s, recovery, e, d, key);
            let applied_device = match s.pipeline.applied {
                Some(a) => a.spec.output_device,
                None => None,
            };
            &&& json_member(report, "consistency"@) == Some(Json::Text("best_effort"@))
            &&& json_member(report, "state"@) == Some(Json::Text(e.state@))
            &&& json_member(report, "volume"@) == Some(e.volume@)
            &&& json_member(report, "muted"@) == Some(Json::Bool(e.muted))
            &&& tells_count(json_member(report, "sample_rate"@), e.sample_rate as int)
            &&& tells_count(json_member(report, "channels"@), e.num_channels as int)
            &&& tells_count(json_member(report, "underruns"@), e.underruns as int)
            &&& tells_text(json_member(report, "playback_output_device"@), opt_text(e.playback_output_device))
            &&& tells_count(json_member(report, "playback_callback_count"@), e.playback_callback_count as int)
            &&& json_member(report, "playback_buffer_fill_percent"@) == Some(e.playback_buffer_fill_percent@)
            &&& tells_count(json_member(report, "playback_stream_error_count"@), e.playback_stream_error_count as int)
            &&& tells_count(json_member(report, "playback_frames_received"@), e.playback_frames_received as int)
            &&& tells_count(json_member(report, "playback_frames_written"@), e.playback_frames_written as int)
            &&& tells_count(json_member(report, "playback_frames_dropped"@), e.playback_frames_dropped as int)
            &&& tells_count(json_member(report, "playback_effective_sample_rate"@), e.playback_effective_sample_rate as int)
            &&& tells_text(json_member(report, "last_error"@), opt_text(e.last_error))
            &&& tells_text(json_member(report, "selected_device"@), s.pipeline.desired.output_device)
            &&& tells_count(json_member(report, "input_channels"@), s.pipeline.desired.input_channels as int)
            &&& tells_count(json_member(report, "output_channels"@), s.pipeline.desired.output_channels as int)
            &&& tells_text(json_member(report, "pipeline_applied_output_device"@), applied_device)
            &&& s.pipeline.applied matches Some(a) ==> tells_count(
                json_member(report, "pipeline_generation"@),
                a.generation as int,
            )
            &&& s.pipeline.applied is None ==> json_member(report, "pipeline_generation"@) == Some(Json::Null)
        }),
{
    reveal_strlit("state");
    assert("state"@.len() == 5);
    assert("state"@[0] == 's');
    reveal_strlit("muted");
    assert("muted"@.len() == 5);
    assert("muted"@[0] == 'm');
    reveal_strlit("volume");
    assert("volume"@.len() == 6);
    assert("volume"@[0] == 'v');
    reveal_strlit("driver");
    assert("driver"@.len() == 6);
    assert("driver"@[0] == 'd');
    reveal_strlit("channels");
    assert("channels"@.len() == 8);
    reveal_strlit("underruns");
    assert("underruns"@.len() == 9);
    reveal_strlit("last_error");
    assert("last_error"@.len() == 10);
    assert("last_error"@[0] == 'l');
    reveal_strlit("encryption");
    assert("encryption"@.len() == 10);
    assert("encryption"@[0] == 'e');
    reveal_strlit("consistency");
    assert("consistency"@.len() == 11);
    assert("consistency"@[0] == 'c');
    reveal_strlit("sample_rate");
    assert("sample_rate"@.len() == 11);
    assert("sample_rate"@[0] == 's');
    reveal_strlit("active_route");
    assert("active_route"@.len() == 12);
    reveal_strlit("input_channels");
    assert("input_channels"@.len() == 14);
    reveal_strlit("selected_device");
    assert("selected_device"@.len() == 15);
    assert("selected_device"@[0] == 's');
    reveal_strlit("output_channels");
    assert("output_channels"@.len() == 15);
    assert("output_channels"@[0] == 'o');
    reveal_strlit("recovery_actions");
    assert("recovery_actions"@.len() == 16);
    reveal_strlit("pipeline_recovery");
    assert("pipeline_recovery"@.len() == 17);
    reveal_strlit("pipeline_generation");
    assert("pipeline_generation"@.len() == 19);
    reveal_strlit("playback_output_device");
    assert("playback_output_device"@.len() == 22);
    reveal_strlit("playback_callback_count");
    assert("playback_callback_count"@.len() == 23);
    assert("playback_callback_count"@[16] == 'k');
    reveal_strlit("playback_frames_written");
    assert("playback_frames_written"@.len() == 23);
    assert("playback_frames_written"@[16] == 'w');
    reveal_strlit("playback_frames_dropped");
    assert("playback_frames_dropped"@.len() == 23);
    assert("playback_frames_dropped"@[16] == 'd');
    reveal_strlit("playback_frames_received");
    assert("playback_frames_received"@.len() == 24);
    reveal_strlit("playback_stream_error_count");
    assert("playback_stream_error_count"@.len() == 27);
    reveal_strlit("playback_buffer_fill_percent");
    assert("playback_buffer_fill_percent"@.len() == 28);
    reveal_strlit("playback_effective_sample_rate");
    assert("playback_effective_sample_rate"@.len() == 30);
    assert("playback_effective_sample_rate"@[1] == 'l');
    reveal_strlit("pipeline_applied_output_device");
    assert("pipeline_applied_output_device"@.len() == 30);
    assert("pipeline_applied_output_device"@[1] == 'i');
}

/// The status shows the driver, the key and the route, and what recovery asks for.
pub proof fn status_shows_driver_key_and_route(
    s: StateModel,
    recovery: Option<RecoveryModel>,
    e: EngineObservation,
    d: DriverStatus,
    key: EncryptionStatus,
)
    ensures
        ({
            let report = status_json(s, recovery, e, d, key);
            let applied_device = match s.pipeline.applied {
                Some(a) => a.spec.output_device,
                None => None,
            };
            let driver = json_member(report, "driver"@)->0;
            let encryption = json_member(report, "encryption"@)->0;
            let route = json_member(report, "active_route"@)->0;
            &&& json_member(report, "driver"@) is Some && json_member(report, "encryption"@) is Some
                && json_member(report, "active_route"@) is Some
            &&& json_member(driver, "installed"@) == Some(Json::Bool(d.driver_installed))
            &&& json_member(driver, "ready"@) == Some(Json::Bool(d.driver_ready))
            &&& json_member(driver, "capture_active"@) == Some(Json::Bool(d.capture_active))
            &&& tells_count(json_member(driver, "frame_size"@), d.buffer_frames as int)
            &&& tells_count(json_member(driver, "sample_rate"@), d.sample_rate as int)
            &&& tells_count(json_member(driver, "channel_count"@), d.channel_count as int)
            &&& json_member(encryption, "enabled"@) == Some(Json::Bool(key.enabled))
            &&& json_member(encryption, "fingerprint"@) == Some(Json::Text(key.fingerprint@))
            &&& tells_text(json_member(route, "desired_output_device"@), s.pipeline.desired.output_device)
            &&& tells_text(json_member(route, "applied_output_device"@), applied_device)
            &&& tells_text(json_member(route, "playback_output_device"@), opt_text(e.playback_output_device))
            &&& json_member(route, "capture_active"@) == Some(Json::Bool(d.capture_active))
            &&& recovery is None ==> json_member(report, "pipeline_recovery"@) == Some(Json::Null)
            &&& recovery matches Some(r) ==> {
                let told = json_member(report, "pipeline_recovery"@);
                &&& told is Some
                &&& json_member(told->0, "error"@) == Some(Json::Text(r.error))
                &&& json_member(told->0, "actions"@) == Some(text_list(r.actions))
            }
            &&& json_member(report, "recovery_actions"@) == Some(
                text_list(recovery_actions(s, recovery, e, d, key)),
            )
        }),
{
    reveal_strlit("state");
    assert("state"@.len() == 5);
    assert("state"@[0] == 's');
    reveal_strlit("muted");
    assert("muted"@.len() == 5);
    assert("muted"@[0] == 'm');
    reveal_strlit("ready");
    assert("ready"@.len() == 5);
    assert("ready"@[0] == 'r');
    reveal_strlit("error");
    assert("error"@.len() == 5);
    assert("error"@[0] == 'e');
    reveal_strlit("volume");
    assert("volume"@.len() == 6);
    assert("volume"@[0] == 'v');
    reveal_strlit("driver");
    assert("driver"@.len() == 6);
    assert("driver"@[0] == 'd');
    reveal_strlit("enabled");
    assert("enabled"@.len() == 7);
    assert("enabled"@[0] == 'e');
    reveal_strlit("actions");
    assert("actions"@.len() == 7);
    assert("actions"@[0] == 'a');
    reveal_strlit("channels");
    assert("channels"@.len() == 8);
    reveal_strlit("underruns");
    assert("underruns"@.len() == 9);
    assert("underruns"@[0] == 'u');
    reveal_strlit("installed");
    assert("installed"@.len() == 9);
    assert("installed"@[0] == 'i');
    reveal_strlit("last_error");
    assert("last_error"@.len() == 10);
    assert("last_error"@[0] == 'l');
    reveal_strlit("frame_size");
    assert("frame_size"@.len() == 10);
    assert("frame_size"@[0] == 'f');
    reveal_strlit("encryption");
    assert("encryption"@.len() == 10);
    assert("encryption"@[0] == 'e');
    reveal_strlit("consistency");
    assert("consistency"@.len() == 11);
    assert("consistency"@[0] == 'c');
    reveal_strlit("sample_rate");
    assert("sample_rate"@.len() == 11);
    assert("sample_rate"@[0] == 's');
    reveal_strlit("fingerprint");
    assert("fingerprint"@.len() == 11);
    assert("fingerprint"@[0] == 'f');
    reveal_strlit("active_route");
    assert("active_route"@.len() == 12);
    reveal_strlit("channel_count");
    assert("channel_count"@.len() == 13);
    reveal_strlit("input_channels");
    assert("input_channels"@.len() == 14);
    assert("input_channels"@[0] == 'i');
    reveal_strlit("capture_active");
    assert("capture_active"@.len() == 14);
    assert("capture_active"@[0] == 'c');
    reveal_strlit("selected_device");
    assert("selected_device"@.len() == 15);
    assert("selected_device"@[0] == 's');
    reveal_strlit("output_channels");
    assert("output_channels"@.len() == 15);
    assert("output_channels"@[0] == 'o');
    reveal_strlit("recovery_actions");
    assert("recovery_actions"@.len() == 16);
    reveal_strlit("pipeline_recovery");
    assert("pipeline_recovery"@.len() == 17);
    reveal_strlit("pipeline_generation");
    assert("pipeline_generation"@.len() == 19);
    reveal_strlit("desired_output_device");
    assert("desired_output_device"@.len() == 21);
    assert("desired_output_device"@[0] == 'd');
    reveal_strlit("applied_output_device");
    assert("applied_output_device"@.len() == 21);
    assert("applied_output_device"@[0] == 'a');
    reveal_strlit("playback_output_device");
    assert("playback_output_device"@.len() == 22);
    reveal_strlit("playback_callback_count");
    assert("playback_callback_count"@.len() == 23);
    assert("playback_callback_count"@[16] == 'k');
    reveal_strlit("playback_frames_written");
    assert("playback_frames_written"@.len() == 23);
    assert("playback_frames_written"@[16] == 'w');
    reveal_strlit("playback_frames_dropped");
    assert("playback_frames_dropped"@.len() == 23);
    assert("playback_frames_dropped"@[16] == 'd');
    reveal_strlit("playback_frames_received");
    assert("playback_frames_received"@.len() == 24);
    reveal_strlit("playback_stream_error_count");
    assert("playback_stream_error_count"@.len() == 27);
    reveal_strlit("playback_buffer_fill_percent");
    assert("playback_buffer_fill_percent"@.len() == 28);
    reveal_strlit("playback_effective_sample_rate");
    assert("playback_effective_sample_rate"@.len() == 30);
    assert("playback_effective_sample_rate"@[1] == 'l');
    reveal_strlit("pipeline_applied_output_device");
    assert("pipeline_applied_output_device"@.len() == 30);
    assert("pipeline_applied_output_device"@[1] == 'i');
}

/// The engine, the driver and the key are shown as they report themselves.
pub proof fn reports_show_engine_driver_and_key(e: EngineObservation, d: DriverStatus, key: EncryptionStatus)
    ensures
        ({
            let engine = engine_json(e);
            let driver = Json::Object(driver_map(d));
            let encryption = encryption_json(key);
            &&& json_member(engine, "state"@) == Some(Json::Text(e.state@))
            &&& json_member(engine, "volume"@) == Some(e.volume@)
            &&& json_member(engine, "muted"@) == Some(Json::Bool(e.muted))
            &&& tells_count(json_member(engine, "sample_rate"@), e.sample_rate as int)
            &&& tells_count(json_member(engine, "channels"@), e.num_channels as int)
            &&& tells_count(json_member(engine, "underruns"@), e.underruns as int)
            &&& tells_text(json_member(engine, "playback_output_device"@), opt_text(e.playback_output_device))
            &&& tells_count(json_member(engine, "playback_callback_count"@), e.playback_callback_count as int)
            &&& json_member(engine, "playback_buffer_fill_percent"@) == Some(e.playback_buffer_fill_percent@)
            &&& tells_count(json_member(engine, "playback_stream_error_count"@), e.playback_stream_error_count as int)
            &&& tells_count(json_member(engine, "playback_frames_received"@), e.playback_frames_received as int)
            &&& tells_count(json_member(engine, "playback_frames_written"@), e.playback_frames_written as int)
            &&& tells_count(json_member(engine, "playback_frames_dropped"@), e.playback_frames_dropped as int)
            &&& tells_count(json_member(engine, "playback_effective_sample_rate"@), e.playback_effective_sample_rate as int)
            &&& tells_text(json_member(engine, "last_error"@), opt_text(e.last_error))
            &&& json_member(driver, "platform_supported"@) == Some(Json::Bool(d.platform_supported))
            &&& json_member(driver, "driver_installed"@) == Some(Json::Bool(d.driver_installed))
            &&& json_member(driver, "driver_ready"@) == Some(Json::Bool(d.driver_ready))
            &&& json_member(driver, "capture_active"@) == Some(Json::Bool(d.capture_active))
            &&& tells_count(json_member(driver, "sample_rate"@), d.sample_rate as int)
            &&& tells_count(json_member(driver, "channel_count"@), d.channel_count as int)
            &&& tells_count(json_member(driver, "buffer_frames"@), d.buffer_frames as int)
            &&& json_member(driver, "driver_name"@) == Some(Json::Text(d.driver_name@))
            &&& json_member(encryption, "enabled"@) == Some(Json::Bool(key.enabled))
            &&& json_member(encryption, "fingerprint"@) == Some(Json::Text(key.fingerprint@))
            &&& json_member(encryption, "key_path"@) == Some(Json::Text(key.key_path@))
        }),
{
    reveal_strlit("state");
    assert("state"@.len() == 5);
    assert("state"@[0] == 's');
    reveal_strlit("muted");
    assert("muted"@.len() == 5);
    assert("muted"@[0] == 'm');
    reveal_strlit("volume");
    assert("volume"@.len() == 6);
    reveal_strlit("enabled");
    assert("enabled"@.len() == 7);
    reveal_strlit("channels");
    assert("channels"@.len() == 8);
    assert("channels"@[0] == 'c');
    reveal_strlit("key_path");
    assert("key_path"@.len() == 8);
    assert("key_path"@[0] == 'k');
    reveal_strlit("underruns");
    assert("underruns"@.len() == 9);
    reveal_strlit("last_error");
    assert("last_error"@.len() == 10);
    reveal_strlit("sample_rate");
    assert("sample_rate"@.len() == 11);
    assert("sample_rate"@[0] == 's');
    reveal_strlit("driver_name");
    assert("driver_name"@.len() == 11);
    assert("driver_name"@[0] == 'd');
    reveal_strlit("fingerprint");
    assert("fingerprint"@.len() == 11);
    assert("fingerprint"@[0] == 'f');
    reveal_strlit("driver_ready");
    assert("driver_ready"@.len() == 12);
    reveal_strlit("channel_count");
    assert("channel_count"@.len() == 13);
    assert("channel_count"@[0] == 'c');
    reveal_strlit("buffer_frames");
    assert("buffer_frames"@.len() == 13);
    assert("buffer_frames"@[0] == 'b');
    reveal_strlit("capture_active");
    assert("capture_active"@.len() == 14);
    reveal_strlit("driver_installed");
    assert("driver_installed"@.len() == 16);
    reveal_strlit("platform_supported");
    assert("platform_supported"@.len() == 18);
    reveal_strlit("playback_output_device");
    assert("playback_output_device"@.len() == 22);
    reveal_strlit("playback_callback_count");
    assert("playback_callback_count"@.len() == 23);
    assert("playback_callback_count"@[16] == 'k');
    reveal_strlit("playback_frames_written");
    assert("playback_frames_written"@.len() == 23);
    assert("playback_frames_written"@[16] == 'w');
    reveal_strlit("playback_frames_dropped");
    assert("playback_frames_dropped"@.len() == 23);
    assert("playback_frames_dropped"@[16] == 'd');
    reveal_strlit("playback_frames_received");
    assert("playback_frames_received"@.len() == 24);
    reveal_strlit("playback_stream_error_count");
    assert("playback_stream_error_count"@.len() == 27);
    reveal_strlit("playback_buffer_fill_percent");
    assert("playback_buffer_fill_percent"@.len() == 28);
    reveal_strlit("playback_effective_sample_rate");
    assert("playback_effective_sample_rate"@.len() == 30);
}

/// The driver's status adds whether it can be used at all: it is ready only where the platform has it,
/// it is installed, and it says so. Its configuration shows the format that it runs at.
pub proof fn drivers_are_ready_only_when_installed(d: DriverStatus)
    ensures
        ({
            let status = driver_status_json(d);
            let config = driver_config_json(d);
            &&& json_member(status, "platform_supported"@) == Some(Json::Bool(d.platform_supported))
            &&& json_member(status, "driver_installed"@) == Some(Json::Bool(d.driver_installed))
            &&& json_member(status, "driver_ready"@) == Some(Json::Bool(d.driver_ready))
            &&& json_member(status, "capture_active"@) == Some(Json::Bool(d.capture_active))
            &&& tells_count(json_member(status, "sample_rate"@), d.sample_rate as int)
            &&& tells_count(json_member(status, "channel_count"@), d.channel_count as int)
            &&& tells_count(json_member(status, "buffer_frames"@), d.buffer_frames as int)
            &&& json_member(status, "driver_name"@) == Some(Json::Text(d.driver_name@))
            &&& json_member(status, "ready"@) == Some(
                Json::Bool(d.platform_supported && d.driver_installed && d.driver_ready),
            )
            &&& json_member(status, "buffer_initialized"@) == Some(
                Json::Bool(d.capture_active || d.driver_installed),
            )
            &&& tells_count(json_member(config, "sample_rate"@), d.sample_rate as int)
            &&& tells_count(json_member(config, "actual_sample_rate"@), d.sample_rate as int)
            &&& tells_count(json_member(config, "buffer_frames"@), d.buffer_frames as int)
            &&& tells_count(json_member(config, "actual_buffer_frames"@), d.buffer_frames as int)
            &&& tells_count(json_member(config, "channel_count"@), d.channel_count as int)
            &&& json_member(config, "active"@) == Some(Json::Bool(d.capture_active))
            &&& json_member(config, "driver_name"@) == Some(Json::Text(d.driver_name@))
            &&& json_member(config, "driver_installed"@) == Some(Json::Bool(d.driver_installed))
            &&& json_member(config, "driver_ready"@) == Some(Json::Bool(d.driver_ready))
            &&& json_member(config, "platform_supported"@) == Some(Json::Bool(d.platform_supported))
        }),
{
    reveal_strlit("ready");
    assert("ready"@.len() == 5);
    reveal_strlit("active");
    assert("active"@.len() == 6);
    reveal_strlit("sample_rate");
    assert("sample_rate"@.len() == 11);
    assert("sample_rate"@[0] == 's');
    reveal_strlit("driver_name");
    assert("driver_name"@.len() == 11);
    assert("driver_name"@[0] == 'd');
    reveal_strlit("driver_ready");
    assert("driver_ready"@.len() == 12);
    reveal_strlit("channel_count");
    assert("channel_count"@.len() == 13);
    assert("channel_count"@[0] == 'c');
    reveal_strlit("buffer_frames");
    assert("buffer_frames"@.len() == 13);
    assert("buffer_frames"@[0] == 'b');
    reveal_strlit("capture_active");
    assert("capture_active"@.len() == 14);
    reveal_strlit("driver_installed");
    assert("driver_installed"@.len() == 16);
    reveal_strlit("platform_supported");
    assert("platform_supported"@.len() == 18);
    assert("platform_supported"@[0] == 'p');
    reveal_strlit("actual_sample_rate");
    assert("actual_sample_rate"@.len() == 18);
    assert("actual_sample_rate"@[0] == 'a');
    reveal_strlit("buffer_initialized");
    assert("buffer_initialized"@.len() == 18);
    assert("buffer_initialized"@[0] == 'b');
    reveal_strlit("actual_buffer_frames");
    assert("actual_buffer_frames"@.len() == 20);
}

/// The snapshot shows the generation, what is desired and applied, what was observed, and the faults with
/// the health that follows from them.
pub proof fn snapshots_show_the_whole_state(
    s: StateModel,
    e: EngineObservation,
    d: DriverStatus,
    key: EncryptionStatus,
    route: CurrentRoute,
    metering: Json,
)
    ensures
        ({
            let report = snapshot_json(s, e, d, key, route, metering);
            let observed = json_member(report, "observed"@)->0;
            let diagnostics = json_member(report, "diagnostics"@)->0;
            let faults = snapshot_faults(s, e, d, metering);
            &&& json_member(report, "observed"@) is Some && json_member(report, "diagnostics"@) is Some
            &&& tells_count(json_member(report, "schema_version"@), 1)
            &&& tells_count(json_member(report, "generation"@), s.pipeline.generation as int)
            &&& json_member(report, "desired"@) == Some(spec_json(s.pipeline.desired))
            &&& json_member(report, "applied"@) == Some(applied_json(s, route))
            &&& json_member(observed, "engine"@) == Some(engine_json(e))
            &&& json_member(observed, "driver"@) == Some(Json::Object(driver_map(d)))
            &&& json_member(observed, "encryption"@) == Some(encryption_json(key))
            &&& json_member(observed, "transport"@) == Some(transport_json(e, d))
            &&& json_member(observed, "metering"@) == Some(metering)
            &&& json_member(diagnostics, "health"@) == Some(Json::Text(health_of(faults)))
            &&& json_member(diagnostics, "faults"@) == Some(Json::List(faults))
            &&& s.recovery is None ==> json_member(diagnostics, "pipeline_recovery"@) == Some(Json::Null)
            &&& s.recovery matches Some(r) ==> {
                let told = json_member(diagnostics, "pipeline_recovery"@);
                &&& told is Some
                &&& json_member(told->0, "error"@) == Some(Json::Text(r.error))
                &&& json_member(told->0, "actions"@) == Some(text_list(r.actions))
            }
        }),
{
    reveal_strlit("error");
    assert("error"@.len() == 5);
    reveal_strlit("engine");
    assert("engine"@.len() == 6);
    assert("engine"@[0] == 'e');
    reveal_strlit("driver");
    assert("driver"@.len() == 6);
    assert("driver"@[0] == 'd');
    reveal_strlit("health");
    assert("health"@.len() == 6);
    assert("health"@[0] == 'h');
    reveal_strlit("faults");
    assert("faults"@.len() == 6);
    assert("faults"@[0] == 'f');
    reveal_strlit("desired");
    assert("desired"@.len() == 7);
    assert("desired"@[1] == 'e');
    reveal_strlit("applied");
    assert("applied"@.len() == 7);
    assert("applied"@[1] == 'p');
    reveal_strlit("actions");
    assert("actions"@.len() == 7);
    assert("actions"@[1] == 'c');
    reveal_strlit("observed");
    assert("observed"@.len() == 8);
    assert("observed"@[0] == 'o');
    reveal_strlit("metering");
    assert("metering"@.len() == 8);
    assert("metering"@[0] == 'm');
    reveal_strlit("transport");
    assert("transport"@.len() == 9);
    reveal_strlit("generation");
    assert("generation"@.len() == 10);
    assert("generation"@[0] == 'g');
    reveal_strlit("encryption");
    assert("encryption"@.len() == 10);
    assert("encryption"@[0] == 'e');
    reveal_strlit("diagnostics");
    assert("diagnostics"@.len() == 11);
    reveal_strlit("schema_version");
    assert("schema_version"@.len() == 14);
    reveal_strlit("pipeline_recovery");
    assert("pipeline_recovery"@.len() == 17);
}

/// What is applied is shown with its own generation and device, and with the route that was recorded.
pub proof fn applied_pipelines_are_shown(s: StateModel, route: CurrentRoute)
    ensures
        ({
            let report = applied_json(s, route);
            let applied_device = match s.pipeline.applied {
                Some(a) => a.spec.output_device,
                None => None,
            };
            &&& tells_text(json_member(report, "output_device_uid"@), opt_text(route.device_uid))
            &&& tells_text(json_member(report, "output_device_name"@), opt_text(route.device_name))
            &&& tells_text(json_member(report, "profile_id"@), opt_text(route.profile_id))
            &&& tells_text(json_member(report, "output_device"@), applied_device)
            &&& s.pipeline.applied matches Some(a) ==> {
                &&& tells_count(json_member(report, "generation"@), a.generation as int)
                &&& json_member(report, "spec"@) == Some(spec_json(a.spec))
            }
            &&& s.pipeline.applied is None ==> {
                &&& json_member(report, "generation"@) == Some(Json::Null)
                &&& json_member(report, "spec"@) == Some(Json::Null)
            }
        }),
{
    reveal_strlit("spec");
    assert("spec"@.len() == 4);
    reveal_strlit("profile_id");
    assert("profile_id"@.len() == 10);
    assert("profile_id"@[0] == 'p');
    reveal_strlit("generation");
    assert("generation"@.len() == 10);
    assert("generation"@[0] == 'g');
    reveal_strlit("output_device");
    assert("output_device"@.len() == 13);
    reveal_strlit("output_device_uid");
    assert("output_device_uid"@.len() == 17);
    reveal_strlit("output_device_name");
    assert("output_device_name"@.len() == 18);
}

/// A snapshot reports every fault of the transport and of the meters, an unsafe device that is desired
/// or in use, and a recovery that is needed; nothing else.
pub proof fn snapshots_report_every_fault(
    s: StateModel,
    e: EngineObservation,
    d: DriverStatus,
    metering: Json,
    x: Json,
)
    ensures
        ({
            let faults = snapshot_faults(s, e, d, metering);
            let desired = s.pipeline.desired.output_device;
            let observed = opt_text(e.playback_output_device);
            let desired_risk = desired is Some && !is_safe_device(desired->0);
            let observed_risk = observed is Some && !is_safe_device(observed->0);
            &&& faults.contains(x) <==> {
                ||| transport_faults(e, d).contains(x)
                ||| desired_risk && says_fault(
                    x,
                    "unsafe_desired_output_device"@,
                    "error"@,
                    "Desired output device is virtual/loopback and would create a feedback risk."@,
                )
                ||| observed_risk && says_fault(
                    x,
                    "unsafe_observed_output_device"@,
                    "error"@,
                    "Observed playback output device is virtual/loopback and risks feedback."@,
                )
                ||| recovery_fault(s.recovery).contains(x)
                ||| metering_faults(e.state@, metering).contains(x)
            }
            &&& faults.len() == transport_faults(e, d).len() + one_if(desired_risk) + one_if(observed_risk)
                + one_if(s.recovery is Some) + metering_faults(e.state@, metering).len()
        }),
{
    let desired = s.pipeline.desired.output_device;
    let observed = opt_text(e.playback_output_device);
    let f1 = transport_faults(e, d);
    let f2 = fault_if(
        is_unsafe(desired),
        "unsafe_desired_output_device"@,
        "error"@,
        "Desired output device is virtual/loopback and would create a feedback risk."@,
    );
    let f3 = fault_if(
        is_unsafe(observed),
        "unsafe_observed_output_device"@,
        "error"@,
        "Observed playback output device is virtual/loopback and risks feedback."@,
    );
    let f4 = recovery_fault(s.recovery);
    let f5 = metering_faults(e.state@, metering);
    lemma_joined(f1, f2, x);
    lemma_joined(f1 + f2, f3, x);
    lemma_joined(f1 + f2 + f3, f4, x);
    lemma_joined(f1 + f2 + f3 + f4, f5, x);
    lemma_fault_if(
        is_unsafe(desired),
        "unsafe_desired_output_device"@,
        "error"@,
        "Desired output device is virtual/loopback and would create a feedback risk."@,
        x,
    );
    lemma_fault_if(
        is_unsafe(observed),
        "unsafe_observed_output_device"@,
        "error"@,
        "Observed playback output device is virtual/loopback and risks feedback."@,
        x,
    );
}

/// A recovery that is needed is an error, with its own message and actions.
pub proof fn recoveries_are_errors(recovery: Option<RecoveryModel>)
    ensures
        recovery is None ==> recovery_fault(recovery).len() == 0,
        recovery matches Some(r) ==> {
            let faults = recovery_fault(recovery);
            &&& faults.len() == 1
            &&& json_member(faults[0], "code"@) == Some(Json::Text("pipeline_recovery_required"@))
            &&& json_member(faults[0], "severity"@) == Some(Json::Text("error"@))
            &&& json_member(faults[0], "message"@) == Some(Json::Text(r.error))
            &&& json_member(faults[0], "actions"@) == Some(text_list(r.actions))
        },
{
    reveal_strlit("code");
    assert("code"@.len() == 4);
    reveal_strlit("message");
    assert("message"@.len() == 7);
    assert("message"@[0] == 'm');
    reveal_strlit("actions");
    assert("actions"@.len() == 7);
    assert("actions"@[0] == 'a');
    reveal_strlit("severity");
    assert("severity"@.len() == 8);
}

/// An action is asked for exactly where its cause is there, or where the recovery asks for it.
pub proof fn actions_are_what_helps(
    s: StateModel,
    recovery: Option<RecoveryModel>,
    e: EngineObservation,
    d: DriverStatus,
    key: EncryptionStatus,
    x: Seq<char>,
)
    ensures
        ({
            let no_device = s.pipeline.desired.output_device is None && e.playback_output_device is None && (
            s.pipeline.applied matches Some(a) ==> a.spec.output_device is None);
            recovery_actions(s, recovery, e, d, key).contains(x) <==> {
                ||| !d.platform_supported && x == "driver_not_supported"@
                ||| !d.driver_installed && x == "reinstall_driver"@
                ||| d.driver_installed && !d.driver_ready && x == "restart_daemon"@
                ||| no_device && x == "select_output_device"@
                ||| key.enabled && vstd::utf8::encode_utf8(key.fingerprint@).len() < 16 && x
                    == "rotate_encryption_key"@
                ||| recovery is Some && recovery->0.actions.contains(x)
            }
        }),
{
    let applied_device = match s.pipeline.applied {
        Some(a) => a.spec.output_device,
        None => None,
    };
    let a1 = action_if(!d.platform_supported, "driver_not_supported"@);
    let a2 = action_if(!d.driver_installed, "reinstall_driver"@);
    let a3 = action_if(d.driver_installed && !d.driver_ready, "restart_daemon"@);
    let a4 = action_if(
        s.pipeline.desired.output_device is None && applied_device is None
            && e.playback_output_device is None,
        "select_output_device"@,
    );
    let a5 = action_if(
        key.enabled && vstd::utf8::encode_utf8(key.fingerprint@).len() < 16,
        "rotate_encryption_key"@,
    );
    let s1 = Seq::<Seq<char>>::empty() + a1;
    lemma_joined(Seq::empty(), a1, x);
    lemma_joined(s1, a2, x);
    lemma_joined(s1 + a2, a3, x);
    lemma_joined(s1 + a2 + a3, a4, x);
    lemma_joined(s1 + a2 + a3 + a4, a5, x);
    lemma_action_if(!d.platform_supported, "driver_not_supported"@, x);
    lemma_action_if(!d.driver_installed, "reinstall_driver"@, x);
    lemma_action_if(d.driver_installed && !d.driver_ready, "restart_daemon"@, x);
    lemma_action_if(
        s.pipeline.desired.output_device is None && applied_device is None
            && e.playback_output_device is None,
        "select_output_device"@,
        x,
    );
    lemma_action_if(
        key.enabled && vstd::utf8::encode_utf8(key.fingerprint@).len() < 16,
        "rotate_encryption_key"@,
        x,
    );
    if recovery is Some {
        actions_are_added_once(s1 + a2 + a3 + a4 + a5, recovery->0.actions, x);
    }
}

proof fn lemma_action_if(present: bool, action: Seq<char>, x: Seq<char>)
    ensures
        action_if(present, action).contains(x) <==> present && x == action,
{
    if present {
        assert(action_if(present, action)[0] == action);
    }
}

/// Adding actions keeps those that are there, in their order, and adds each of the others; where none
/// was there twice, none is there twice afterwards.
pub proof fn actions_are_added_once(actions: Seq<Seq<char>>, more: Seq<Seq<char>>, x: Seq<char>)
    ensures
        with_actions(actions, more).contains(x) <==> actions.contains(x) || more.contains(x),
        actions.is_prefix_of(with_actions(actions, more)),
        actions.no_duplicates() ==> with_actions(actions, more).no_duplicates(),
    decreases more.len(),
{
    if more.len() > 0 {
        let front = more.drop_last();
        let last = more.last();
        let before = with_actions(actions, front);
        actions_are_added_once(actions, front, x);
        actions_are_added_once(actions, front, last);
        assert(more =~= front + seq![last]);
        lemma_joined(front, seq![last], x);
        assert(seq![last].contains(x) <==> x == last) by {
            assert(seq![last][0] == last);
        }
        if !before.contains(last) {
            assert(before.push(last) =~= before + seq![last]);
            lemma_joined(before, seq![last], x);
        }
    }
}

/// A recovery is over exactly where one was needed, the driver is ready, and playback runs without an
/// error.
pub proof fn recoveries_end_when_playback_runs(s: StateModel, e: EngineObservation, d: DriverStatus)
    ensures
        ({
            let error = opt_text(e.last_error);
            heals(s, e, d) <==> s.recovery is Some && d.driver_ready && e.playback_callback_count > 0 && (
            error is None || error->0.len() == 0)
        }),
{
}

/// Nodes, edges and rack entries are shown with their own members, each at its own place.
pub proof fn chains_are_shown_in_order(
    g: GraphModel,
    plugins: Seq<PluginModel>,
    channels: usize,
    n: NodeModel,
    edge: PluginGraphEdgeConfig,
    i: int,
)
    ensures
        ({
            let node = node_json(n);
            &&& tells_count(json_member(node, "id"@), n.id as int)
            &&& json_member(node, "plugin_type"@) == Some(Json::Text(n.plugin_type))
            &&& json_member(node, "parameters"@) == Some(n.parameters)
            &&& tells_count(json_member(node, "input_channels"@), n.input_channels as int)
            &&& json_member(node, "bypassed"@) == Some(Json::Bool(n.bypassed))
            &&& tells_count(json_member(edge_json(edge), "from_node"@), edge.from_node as int)
            &&& tells_count(json_member(edge_json(edge), "to_node"@), edge.to_node as int)
        }),
        ({
            let nodes = json_member(graph_json(g), "nodes"@);
            let edges = json_member(graph_json(g), "edges"@);
            &&& nodes matches Some(Json::List(list)) && list.len() == g.nodes.len() && (0 <= i < list.len()
                ==> list[i] == node_json(g.nodes[i]))
            &&& edges matches Some(Json::List(list)) && list.len() == g.edges.len() && (0 <= i < list.len()
                ==> list[i] == edge_json(g.edges[i]))
        }),
        ({
            &&& rack_json(plugins, channels) matches Json::List(list) && list.len() == plugins.len() && (0
                <= i < list.len() ==> {
                &&& tells_count(json_member(list[i], "index"@), i)
                &&& json_member(list[i], "plugin_type"@) == Some(Json::Text(plugins[i].plugin_type))
                &&& json_member(list[i], "parameters"@) == Some(plugins[i].parameters)
                &&& tells_count(
                    json_member(list[i], "input_channels"@),
                    if channels == 0 { 1 } else { channels as int },
                )
                &&& json_member(list[i], "bypassed"@) == Some(Json::Bool(false))
            })
        }),
        ({
            &&& chain_json(plugins) matches Json::List(list) && list.len() == plugins.len() && (0 <= i
                < list.len() ==> {
                &&& json_member(list[i], "plugin_type"@) == Some(Json::Text(plugins[i].plugin_type))
                &&& json_member(list[i], "parameters"@) == Some(plugins[i].parameters)
            })
        }),
{
    reveal_strlit("id");
    assert("id"@.len() == 2);
    reveal_strlit("nodes");
    assert("nodes"@.len() == 5);
    assert("nodes"@[0] == 'n');
    reveal_strlit("edges");
    assert("edges"@.len() == 5);
    assert("edges"@[0] == 'e');
    reveal_strlit("index");
    assert("index"@.len() == 5);
    assert("index"@[0] == 'i');
    reveal_strlit("to_node");
    assert("to_node"@.len() == 7);
    reveal_strlit("bypassed");
    assert("bypassed"@.len() == 8);
    reveal_strlit("from_node");
    assert("from_node"@.len() == 9);
    reveal_strlit("parameters");
    assert("parameters"@.len() == 10);
    reveal_strlit("plugin_type");
    assert("plugin_type"@.len() == 11);
    reveal_strlit("input_channels");
    assert("input_channels"@.len() == 14);
}

/// The chain is told as what it is, a graph or a rack, with the generation that an edit is based on.
pub proof fn chains_are_told_as_what_they_are(s: StateModel, snapshot: Json, telemetry: Json)
    ensures
        ({
            let told = plugins_json(s);
            let dump = dump_json(s, snapshot, telemetry);
            let desired = s.pipeline.desired;
            &&& tells_count(json_member(told, "generation"@), s.pipeline.generation as int)
            &&& desired.user_graph matches Some(graph) ==> {
                &&& json_member(told, "topology"@) == Some(Json::Text("graph"@))
                &&& json_member(told, "graph"@) == Some(graph_json(graph))
                &&& json_member(told, "plugins"@) == Some(Json::List(Seq::empty()))
                &&& json_member(dump, "topology"@) == Some(Json::Text("graph"@))
                &&& json_member(dump, "graph"@) == Some(graph_json(graph))
            }
            &&& desired.user_graph is None ==> {
                &&& json_member(told, "topology"@) == Some(Json::Text("rack"@))
                &&& json_member(told, "graph"@) is None
                &&& json_member(told, "plugins"@) == Some(
                    rack_json(desired.user_plugins, desired.input_channels),
                )
                &&& json_member(dump, "topology"@) == Some(Json::Text("rack"@))
                &&& json_member(dump, "graph"@) == Some(Json::Null)
            }
            &&& json_member(dump, "plugins"@) == Some(chain_json(desired.user_plugins))
            &&& json_member(dump, "snapshot"@) == Some(snapshot)
            &&& json_member(dump, "runtime_telemetry"@) == Some(telemetry)
        }),
{
    reveal_strlit("graph");
    assert("graph"@.len() == 5);
    reveal_strlit("plugins");
    assert("plugins"@.len() == 7);
    reveal_strlit("topology");
    assert("topology"@.len() == 8);
    assert("topology"@[0] == 't');
    reveal_strlit("snapshot");
    assert("snapshot"@.len() == 8);
    assert("snapshot"@[0] == 's');
    reveal_strlit("generation");
    assert("generation"@.len() == 10);
    reveal_strlit("runtime_telemetry");
    assert("runtime_telemetry"@.len() == 17);
}

/// A list of devices is answered with the generation that it belongs to, and a failure with its reason.
pub proof fn device_lists_are_answered_with_their_generation(
    listed: Result<(u64, Vec<JsonValue>), String>,
    response: Response,
)
    requires
        call_ensures(device_list_response, (listed,), response),
    ensures
        response@.success <==> listed is Ok,
        listed matches Ok(found) ==> response@.data is Some && tells_count(
            json_member(response@.data->0, "generation"@),
            found.0 as int,
        ) && json_member(response@.data->0, "devices"@) == Some(Json::List(list_of(found.1@))),
        listed matches Err(e) ==> response@.error == Some("Failed to list devices: "@ + e@),
{
    reveal_strlit("devices");
    assert("devices"@.len() == 7);
    reveal_strlit("generation");
    assert("generation"@.len() == 10);
}

/// What the engine was asked to do is answered with success, or with the complaint and the reason.
pub proof fn engine_outcomes_are_told(complaint: &str, outcome: Result<(), String>, response: Response)
    requires
        call_ensures(engine_response, (complaint, outcome), response),
    ensures
        response@.success <==> outcome is Ok,
        outcome matches Err(e) ==> response@.error == Some(complaint@ + e@),
{
}

/// A status that finds playback running again clears the recovery and says so; any other leaves the
/// state as it was.
pub proof fn statuses_clear_a_recovery_that_is_over(
    state: &mut SystemwideState,
    engine: EngineObservation,
    driver: DriverStatus,
    key: EncryptionStatus,
    out: (Response, bool),
)
    requires
        call_ensures(handle_status, (state, &engine, &driver, &key), out),
    ensures
        out.1 <==> old(state)@.recovery is Some && driver.driver_ready && engine.playback_callback_count > 0
            && (engine.last_error is None || engine.last_error->0@.len() == 0),
        out.1 ==> final(state)@.recovery is None && final(state)@.pipeline == old(state)@.pipeline,
        !out.1 ==> final(state)@ == old(state)@,
        out.0@.success && out.0@.data is Some,
{
}

} // verus!
