//! How audio moves through the daemon: what the input and output sides do, and what is wrong.

use crate::driver::DriverStatus;
use crate::json::{add_entry, json_member, json_text, list_of, Json, JsonNum, JsonObject, JsonValue};
use crate::output_device::opt_text;
use crate::pipeline::{count_json, device_json, device_value};
use crate::state::text_models;
use crate::text::same_text;
use vstd::prelude::*;

verus! {

/// What the engine reports. Levels are JSON values.
#[derive(Debug)]
pub struct EngineObservation {
    /// The name of the engine's state.
    pub state: String,
    pub volume: JsonValue,
    pub muted: bool,
    pub sample_rate: u32,
    pub num_channels: usize,
    pub underruns: u64,
    pub playback_output_device: Option<String>,
    pub playback_callback_count: u64,
    pub playback_buffer_fill_percent: JsonValue,
    pub playback_stream_error_count: u64,
    pub playback_frames_received: u64,
    pub playback_frames_written: u64,
    pub playback_frames_dropped: u64,
    pub playback_effective_sample_rate: u32,
    pub last_error: Option<String>,
}

/// Whether the engine is said to play.
pub open spec fn is_playing(state: Seq<char>) -> bool {
    state == "Playing"@
}

/// Whether the engine plays while the driver is not there or not ready.
pub open spec fn driver_unavailable(e: EngineObservation, d: DriverStatus) -> bool {
    is_playing(e.state@) && (!d.driver_installed || !d.driver_ready)
}

/// Whether the engine plays while the driver captures nothing.
pub open spec fn stream_inactive(e: EngineObservation, d: DriverStatus) -> bool {
    is_playing(e.state@) && !driver_unavailable(e, d) && !d.capture_active
}

/// Whether the engine plays and no frames have come in.
pub open spec fn input_missing(e: EngineObservation, d: DriverStatus) -> bool {
    is_playing(e.state@) && !driver_unavailable(e, d) && e.playback_frames_received == 0
}

/// Whether the engine plays and the hardware asked for nothing.
pub open spec fn callbacks_missing(e: EngineObservation) -> bool {
    is_playing(e.state@) && e.playback_callback_count == 0
}

/// Whether frames came in and none went out.
pub open spec fn output_missing(e: EngineObservation) -> bool {
    is_playing(e.state@) && e.playback_frames_received > 0 && e.playback_frames_written == 0
}

/// Whether the engine plays to no known device.
pub open spec fn device_unresolved(e: EngineObservation) -> bool {
    is_playing(e.state@) && e.playback_output_device is None
}

/// What the input side does.
pub open spec fn input_status(e: EngineObservation, d: DriverStatus) -> Seq<char> {
    if !is_playing(e.state@) {
        "idle"@
    } else if driver_unavailable(e, d) {
        "driver_unavailable"@
    } else if stream_inactive(e, d) {
        "hal_stream_inactive"@
    } else if input_missing(e, d) {
        "input_frames_missing"@
    } else {
        "flowing"@
    }
}

/// What the output side does.
pub open spec fn output_status(e: EngineObservation) -> Seq<char> {
    if !is_playing(e.state@) {
        "idle"@
    } else if callbacks_missing(e) {
        "output_callbacks_missing"@
    } else if output_missing(e) {
        "output_frames_missing"@
    } else if device_unresolved(e) {
        "output_device_unresolved"@
    } else {
        "flowing"@
    }
}

/// A fault as clients see it.
pub open spec fn fault(code: Seq<char>, severity: Seq<char>, message: Seq<char>) -> Json {
    Json::Object(
        map![
            "code"@ => Json::Text(code),
            "severity"@ => Json::Text(severity),
            "message"@ => Json::Text(message),
        ],
    )
}

/// A fault where it is one.
pub open spec fn fault_if(present: bool, code: Seq<char>, severity: Seq<char>, message: Seq<char>) -> Seq<Json> {
    if present {
        seq![fault(code, severity, message)]
    } else {
        Seq::empty()
    }
}

/// What is wrong with the transport.
pub open spec fn transport_faults(e: EngineObservation, d: DriverStatus) -> Seq<Json> {
    Seq::empty() + fault_if(
        driver_unavailable(e, d),
        "driver_unavailable"@,
        "error"@,
        "Playback is marked Playing but the HAL driver is not ready."@,
    ) + fault_if(
        stream_inactive(e, d),
        "hal_stream_inactive"@,
        "warning"@,
        "Playback is marked Playing but the HAL stream is not active."@,
    ) + fault_if(
        input_missing(e, d),
        "input_frames_missing"@,
        "error"@,
        "Playback is marked Playing but no frames have reached the playback thread."@,
    ) + fault_if(
        callbacks_missing(e),
        "output_callbacks_missing"@,
        "error"@,
        "Playback is marked Playing but no hardware output callbacks have been observed."@,
    ) + fault_if(
        output_missing(e),
        "output_frames_missing"@,
        "error"@,
        "The playback thread received frames but has not written any to the hardware ring."@,
    ) + fault_if(
        device_unresolved(e),
        "output_device_unresolved"@,
        "warning"@,
        "Playback is active but no hardware output device has been resolved yet."@,
    )
}

/// The transport as clients see it.
pub open spec fn transport_json(e: EngineObservation, d: DriverStatus) -> Json {
    let received = count_json(e.playback_frames_received as int);
    let callbacks = count_json(e.playback_callback_count as int);
    let written = count_json(e.playback_frames_written as int);
    let dropped = count_json(e.playback_frames_dropped as int);
    Json::Object(
        map![
            "input_status"@ => Json::Text(input_status(e, d)),
            "output_status"@ => Json::Text(output_status(e)),
            "input"@ => Json::Object(
                map![
                    "status"@ => Json::Text(input_status(e, d)),
                    "frames_received"@ => received,
                    "hal_capture_active"@ => Json::Bool(d.capture_active),
                    "driver_installed"@ => Json::Bool(d.driver_installed),
                    "driver_ready"@ => Json::Bool(d.driver_ready),
                ],
            ),
            "output"@ => Json::Object(
                map![
                    "status"@ => Json::Text(output_status(e)),
                    "callbacks"@ => callbacks,
                    "frames_written"@ => written,
                    "frames_dropped"@ => dropped,
                    "device"@ => device_json(opt_text(e.playback_output_device)),
                    "effective_sample_rate"@ => count_json(e.playback_effective_sample_rate as int),
                ],
            ),
            "input_frames_received"@ => received,
            "output_callbacks"@ => callbacks,
            "output_frames_written"@ => written,
            "frames_dropped"@ => dropped,
            "hal_capture_active"@ => Json::Bool(d.capture_active),
        ],
    )
}

/// Adds a fault where it is one.
pub fn push_fault(faults: &mut Vec<JsonValue>, present: bool, code: &str, severity: &str, message: &str)
    ensures
        list_of(final(faults)@) == list_of(old(faults)@) + fault_if(present, code@, severity@, message@),
{
    if present {
        let mut entry = JsonObject::new();
        entry.put_text("code", code);
        entry.put_text("severity", severity);
        entry.put_text("message", message);
        let ghost before = list_of(faults@);
        add_entry(faults, entry.finish());
        proof {
            assert(list_of(faults@) =~= before + seq![fault(code@, severity@, message@)]);
        }
    } else {
        proof {
            assert(list_of(faults@) =~= list_of(faults@) + Seq::<Json>::empty());
        }
    }
}

fn input_object(e: &EngineObservation, d: &DriverStatus, status: &str) -> (r: JsonValue)
    ensures
        r@ == Json::Object(
            map![
                "status"@ => Json::Text(status@),
                "frames_received"@ => count_json(e.playback_frames_received as int),
                "hal_capture_active"@ => Json::Bool(d.capture_active),
                "driver_installed"@ => Json::Bool(d.driver_installed),
                "driver_ready"@ => Json::Bool(d.driver_ready),
            ],
        ),
{
    let mut out = JsonObject::new();
    out.put_text("status", status);
    out.put_unsigned("frames_received", e.playback_frames_received);
    out.put_bool("hal_capture_active", d.capture_active);
    out.put_bool("driver_installed", d.driver_installed);
    out.put_bool("driver_ready", d.driver_ready);
    out.finish()
}

fn output_object(e: &EngineObservation, status: &str) -> (r: JsonValue)
    ensures
        r@ == Json::Object(
            map![
                "status"@ => Json::Text(status@),
                "callbacks"@ => count_json(e.playback_callback_count as int),
                "frames_written"@ => count_json(e.playback_frames_written as int),
                "frames_dropped"@ => count_json(e.playback_frames_dropped as int),
                "device"@ => device_json(opt_text(e.playback_output_device)),
                "effective_sample_rate"@ => count_json(e.playback_effective_sample_rate as int),
            ],
        ),
{
    let mut out = JsonObject::new();
    out.put_text("status", status);
    out.put_unsigned("callbacks", e.playback_callback_count);
    out.put_unsigned("frames_written", e.playback_frames_written);
    out.put_unsigned("frames_dropped", e.playback_frames_dropped);
    out.put("device", device_value(&e.playback_output_device));
    out.put_unsigned("effective_sample_rate", e.playback_effective_sample_rate as u64);
    out.finish()
}

/// The transport as clients see it, and what is wrong with it.
pub fn transport_snapshot_and_faults(driver_status: &DriverStatus, engine: &EngineObservation) -> (r: (
    JsonValue,
    Vec<JsonValue>,
))
    ensures
        r.0@ == transport_json(*engine, *driver_status),
        list_of(r.1@) == transport_faults(*engine, *driver_status),
{
    let playing = same_text(engine.state.as_str(), "Playing");
    let unavailable = playing && (!driver_status.driver_installed || !driver_status.driver_ready);
    let inactive = playing && !unavailable && !driver_status.capture_active;
    let no_input = playing && !unavailable && engine.playback_frames_received == 0;
    let no_callbacks = playing && engine.playback_callback_count == 0;
    let no_output = playing && engine.playback_frames_received > 0 && engine.playback_frames_written
        == 0;
    let no_device = playing && engine.playback_output_device.is_none();
    let input_text = if !playing {
        "idle"
    } else if unavailable {
        "driver_unavailable"
    } else if inactive {
        "hal_stream_inactive"
    } else if no_input {
        "input_frames_missing"
    } else {
        "flowing"
    };
    let output_text = if !playing {
        "idle"
    } else if no_callbacks {
        "output_callbacks_missing"
    } else if no_output {
        "output_frames_missing"
    } else if no_device {
        "output_device_unresolved"
    } else {
        "flowing"
    };
    let mut faults: Vec<JsonValue> = Vec::new();
    proof {
        assert(list_of(faults@) =~= Seq::<Json>::empty());
    }
    push_fault(
        &mut faults,
        unavailable,
        "driver_unavailable",
        "error",
        "Playback is marked Playing but the HAL driver is not ready.",
    );
    push_fault(
        &mut faults,
        inactive,
        "hal_stream_inactive",
        "warning",
        "Playback is marked Playing but the HAL stream is not active.",
    );
    push_fault(
        &mut faults,
        no_input,
        "input_frames_missing",
        "error",
        "Playback is marked Playing but no frames have reached the playback thread.",
    );
    push_fault(
        &mut faults,
        no_callbacks,
        "output_callbacks_missing",
        "error",
        "Playback is marked Playing but no hardware output callbacks have been observed.",
    );
    push_fault(
        &mut faults,
        no_output,
        "output_frames_missing",
        "error",
        "The playback thread received frames but has not written any to the hardware ring.",
    );
    push_fault(
        &mut faults,
        no_device,
        "output_device_unresolved",
        "warning",
        "Playback is active but no hardware output device has been resolved yet.",
    );
    let mut out = JsonObject::new();
    out.put_text("input_status", input_text);
    out.put_text("output_status", output_text);
    out.put("input", input_object(engine, driver_status, input_text));
    out.put("output", output_object(engine, output_text));
    out.put_unsigned("input_frames_received", engine.playback_frames_received);
    out.put_unsigned("output_callbacks", engine.playback_callback_count);
    out.put_unsigned("output_frames_written", engine.playback_frames_written);
    out.put_unsigned("frames_dropped", engine.playback_frames_dropped);
    out.put_bool("hal_capture_active", driver_status.capture_active);
    (out.finish(), faults)
}

/// Whether a metering report says that the values of one side are a fallback.
pub open spec fn side_is_fallback(metering: Json, side: Seq<char>) -> bool {
    match json_member(metering, "sources"@) {
        Some(sources) => match json_member(sources, side) {
            Some(source) => match json_member(source, "status"@) {
                Some(status) => json_text(status) == Some("fallback_zero"@),
                None => false,
            },
            None => false,
        },
        None => false,
    }
}

/// What is wrong with the meters.
pub open spec fn metering_faults(state: Seq<char>, metering: Json) -> Seq<Json> {
    Seq::empty() + fault_if(
        is_playing(state) && side_is_fallback(metering, "input"@),
        "input_metering_unavailable"@,
        "warning"@,
        "Input meters are channel-shaped fallback zeros, not analyzer data."@,
    ) + fault_if(
        is_playing(state) && side_is_fallback(metering, "output"@),
        "output_metering_unavailable"@,
        "warning"@,
        "Output meters are channel-shaped fallback zeros, not analyzer data."@,
    )
}

fn falls_back(metering: &JsonValue, side: &str) -> (r: bool)
    ensures
        r == side_is_fallback(metering@, side@),
{
    match metering.member("sources") {
        Some(sources) => match sources.member(side) {
            Some(source) => match source.member("status") {
                Some(status) => match status.as_text() {
                    Some(text) => same_text(text, "fallback_zero"),
                    None => false,
                },
                None => false,
            },
            None => false,
        },
        None => false,
    }
}

/// Adds what is wrong with the meters.
pub fn push_metering_faults(state_name: &str, metering: &JsonValue, faults: &mut Vec<JsonValue>)
    ensures
        list_of(final(faults)@) == list_of(old(faults)@) + metering_faults(state_name@, metering@),
{
    let playing = same_text(state_name, "Playing");
    let input = playing && falls_back(metering, "input");
    let output = playing && falls_back(metering, "output");
    let ghost before = list_of(faults@);
    push_fault(
        faults,
        input,
        "input_metering_unavailable",
        "warning",
        "Input meters are channel-shaped fallback zeros, not analyzer data.",
    );
    push_fault(
        faults,
        output,
        "output_metering_unavailable",
        "warning",
        "Output meters are channel-shaped fallback zeros, not analyzer data.",
    );
    proof {
        assert(list_of(faults@) =~= before + metering_faults(state_name@, metering@));
    }
}

/// The texts of a list.
pub open spec fn text_list(texts: Seq<Seq<char>>) -> Json {
    Json::List(texts.map_values(|t: Seq<char>| Json::Text(t)))
}

/// The texts of a list.
pub fn text_values(texts: &Vec<String>) -> (r: JsonValue)
    ensures
        r@ == text_list(text_models(texts@)),
{
    let mut out: Vec<JsonValue> = Vec::new();
    let mut i: usize = 0;
    while i < texts.len()
        invariant
            i <= texts.len(),
            out.len() == i,
            forall|k: int| 0 <= k < i ==> (#[trigger] out@[k])@ == Json::Text(texts@[k]@),
        decreases texts.len() - i,
    {
        out.push(JsonValue::Text(texts[i].clone()));
        i = i + 1;
    }
    proof {
        assert(list_of(out@) =~= text_models(texts@).map_values(|t: Seq<char>| Json::Text(t)));
    }
    JsonValue::List(out)
}

/// Whether any of the faults is an error.
pub open spec fn has_error(faults: Seq<Json>) -> bool {
    exists|i: int| 0 <= i < faults.len() && is_error(#[trigger] faults[i])
}

/// Whether a fault is an error.
pub open spec fn is_error(fault: Json) -> bool {
    match json_member(fault, "severity"@) {
        Some(severity) => json_text(severity) == Some("error"@),
        None => false,
    }
}

/// The overall health.
pub open spec fn health_of(faults: Seq<Json>) -> Seq<char> {
    if has_error(faults) {
        "fault"@
    } else if faults.len() == 0 {
        "ok"@
    } else {
        "warning"@
    }
}

/// The overall health: a fault where any is an error, else a warning where there is any.
pub fn health(faults: &Vec<JsonValue>) -> (r: &'static str)
    ensures
        r@ == health_of(list_of(faults@)),
{
    let mut i: usize = 0;
    while i < faults.len()
        invariant
            i <= faults.len(),
            forall|k: int| 0 <= k < i ==> !is_error(#[trigger] list_of(faults@)[k]),
        decreases faults.len() - i,
    {
        let error = match faults[i].member("severity") {
            Some(severity) => match severity.as_text() {
                Some(text) => same_text(text, "error"),
                None => false,
            },
            None => false,
        };
        if error {
            proof {
                assert(is_error(list_of(faults@)[i as int]));
            }
            return "fault";
        }
        i = i + 1;
    }
    if faults.len() == 0 {
        "ok"
    } else {
        "warning"
    }
}

/// A transport that is not said to play has no faults of its own, and one that flows on both sides
/// has none either.
pub proof fn quiet_transports_have_no_faults(e: EngineObservation, d: DriverStatus)
    requires
        !is_playing(e.state@) || (input_status(e, d) == "flowing"@ && output_status(e) == "flowing"@),
    ensures
        transport_faults(e, d).len() == 0,
{
    reveal_strlit("flowing");
    reveal_strlit("driver_unavailable");
    reveal_strlit("hal_stream_inactive");
    reveal_strlit("input_frames_missing");
    reveal_strlit("output_callbacks_missing");
    reveal_strlit("output_frames_missing");
    reveal_strlit("output_device_unresolved");
    assert("flowing"@.len() == 7);
    assert("driver_unavailable"@.len() == 18);
    assert("hal_stream_inactive"@.len() == 19);
    assert("input_frames_missing"@.len() == 20);
    assert("output_callbacks_missing"@.len() == 24);
    assert("output_frames_missing"@.len() == 21);
    assert("output_device_unresolved"@.len() == 24);
}

/// Whether a member of a report is a number.
pub open spec fn tells_count(member: Option<Json>, n: int) -> bool {
    member == Some(Json::Number(JsonNum::Unsigned(n as u64)))
}

/// Whether a member of a report is a text, or null where there is none.
pub open spec fn tells_text(member: Option<Json>, text: Option<Seq<char>>) -> bool {
    match text {
        Some(t) => member == Some(Json::Text(t)),
        None => member == Some(Json::Null),
    }
}

/// The report shows each side's own counters, once in short and once in full.
pub proof fn transport_shows_its_counters(e: EngineObservation, d: DriverStatus)
    ensures
        ({
            let report = transport_json(e, d);
            let input = json_member(report, "input"@)->0;
            let output = json_member(report, "output"@)->0;
            &&& json_member(report, "input"@) is Some && json_member(report, "output"@) is Some
            &&& json_member(report, "input_status"@) == json_member(input, "status"@)
            &&& json_member(report, "output_status"@) == json_member(output, "status"@)
            &&& json_member(input, "status"@) == Some(Json::Text(input_status(e, d)))
            &&& json_member(output, "status"@) == Some(Json::Text(output_status(e)))
            &&& tells_count(json_member(input, "frames_received"@), e.playback_frames_received as int)
            &&& json_member(input, "hal_capture_active"@) == Some(Json::Bool(d.capture_active))
            &&& json_member(input, "driver_installed"@) == Some(Json::Bool(d.driver_installed))
            &&& json_member(input, "driver_ready"@) == Some(Json::Bool(d.driver_ready))
            &&& tells_count(json_member(output, "callbacks"@), e.playback_callback_count as int)
            &&& tells_count(json_member(output, "frames_written"@), e.playback_frames_written as int)
            &&& tells_count(json_member(output, "frames_dropped"@), e.playback_frames_dropped as int)
            &&& tells_text(json_member(output, "device"@), opt_text(e.playback_output_device))
            &&& tells_count(json_member(output, "effective_sample_rate"@), e.playback_effective_sample_rate as int)
            &&& tells_count(json_member(report, "input_frames_received"@), e.playback_frames_received as int)
            &&& tells_count(json_member(report, "output_callbacks"@), e.playback_callback_count as int)
            &&& tells_count(json_member(report, "output_frames_written"@), e.playback_frames_written as int)
            &&& tells_count(json_member(report, "frames_dropped"@), e.playback_frames_dropped as int)
            &&& json_member(report, "hal_capture_active"@) == Some(Json::Bool(d.capture_active))
        }),
{
    reveal_strlit("input");
    assert("input"@.len() == 5);
    reveal_strlit("device");
    assert("device"@.len() == 6);
    assert("device"@[0] == 'd');
    reveal_strlit("output");
    assert("output"@.len() == 6);
    assert("output"@[0] == 'o');
    reveal_strlit("status");
    assert("status"@.len() == 6);
    assert("status"@[0] == 's');
    reveal_strlit("callbacks");
    assert("callbacks"@.len() == 9);
    reveal_strlit("driver_ready");
    assert("driver_ready"@.len() == 12);
    assert("driver_ready"@[0] == 'd');
    reveal_strlit("input_status");
    assert("input_status"@.len() == 12);
    assert("input_status"@[0] == 'i');
    reveal_strlit("output_status");
    assert("output_status"@.len() == 13);
    reveal_strlit("frames_written");
    assert("frames_written"@.len() == 14);
    assert("frames_written"@[7] == 'w');
    reveal_strlit("frames_dropped");
    assert("frames_dropped"@.len() == 14);
    assert("frames_dropped"@[7] == 'd');
    reveal_strlit("frames_received");
    assert("frames_received"@.len() == 15);
    reveal_strlit("driver_installed");
    assert("driver_installed"@.len() == 16);
    assert("driver_installed"@[0] == 'd');
    reveal_strlit("output_callbacks");
    assert("output_callbacks"@.len() == 16);
    assert("output_callbacks"@[0] == 'o');
    reveal_strlit("hal_capture_active");
    assert("hal_capture_active"@.len() == 18);
    reveal_strlit("effective_sample_rate");
    assert("effective_sample_rate"@.len() == 21);
    assert("effective_sample_rate"@[0] == 'e');
    reveal_strlit("input_frames_received");
    assert("input_frames_received"@.len() == 21);
    assert("input_frames_received"@[0] == 'i');
    reveal_strlit("output_frames_written");
    assert("output_frames_written"@.len() == 21);
    assert("output_frames_written"@[0] == 'o');
}

/// Input flows exactly where playback runs, the driver is ready and captures, and frames came in. Else
/// the first of these that fails is named.
pub proof fn input_flows_from_a_ready_driver(e: EngineObservation, d: DriverStatus)
    ensures
        ({
            let playing = e.state@ == "Playing"@;
            let ready = d.driver_installed && d.driver_ready;
            let received = e.playback_frames_received > 0;
            &&& !playing ==> input_status(e, d) == "idle"@
            &&& playing && !ready ==> input_status(e, d) == "driver_unavailable"@
            &&& playing && ready && !d.capture_active ==> input_status(e, d) == "hal_stream_inactive"@
            &&& playing && ready && d.capture_active && !received ==> input_status(e, d)
                == "input_frames_missing"@
            &&& playing && ready && d.capture_active && received ==> input_status(e, d) == "flowing"@
        }),
{
}

/// Output flows exactly where playback runs, the hardware calls back, what came in is written, and the
/// device is known. Else the first of these that fails is named.
pub proof fn output_flows_to_a_known_device(e: EngineObservation)
    ensures
        ({
            let playing = e.state@ == "Playing"@;
            let called = e.playback_callback_count > 0;
            let stuck = e.playback_frames_received > 0 && e.playback_frames_written == 0;
            let known = e.playback_output_device is Some;
            &&& !playing ==> output_status(e) == "idle"@
            &&& playing && !called ==> output_status(e) == "output_callbacks_missing"@
            &&& playing && called && stuck ==> output_status(e) == "output_frames_missing"@
            &&& playing && called && !stuck && !known ==> output_status(e) == "output_device_unresolved"@
            &&& playing && called && !stuck && known ==> output_status(e) == "flowing"@
        }),
{
}

/// A fault is reported exactly where it is there, once, and nothing else is reported.
pub proof fn faults_are_what_is_wrong(e: EngineObservation, d: DriverStatus, x: Json)
    ensures
        ({
            let playing = e.state@ == "Playing"@;
            let ready = d.driver_installed && d.driver_ready;
            let unready = playing && !ready;
            let inactive = playing && ready && !d.capture_active;
            let starved = playing && ready && e.playback_frames_received == 0;
            let uncalled = playing && e.playback_callback_count == 0;
            let stuck = playing && e.playback_frames_received > 0 && e.playback_frames_written == 0;
            let unresolved = playing && e.playback_output_device is None;
            let faults = transport_faults(e, d);
            &&& faults.contains(x) <==> {
                ||| unready && says_fault(
                    x,
                    "driver_unavailable"@,
                    "error"@,
                    "Playback is marked Playing but the HAL driver is not ready."@,
                )
                ||| inactive && says_fault(
                    x,
                    "hal_stream_inactive"@,
                    "warning"@,
                    "Playback is marked Playing but the HAL stream is not active."@,
                )
                ||| starved && says_fault(
                    x,
                    "input_frames_missing"@,
                    "error"@,
                    "Playback is marked Playing but no frames have reached the playback thread."@,
                )
                ||| uncalled && says_fault(
                    x,
                    "output_callbacks_missing"@,
                    "error"@,
                    "Playback is marked Playing but no hardware output callbacks have been observed."@,
                )
                ||| stuck && says_fault(
                    x,
                    "output_frames_missing"@,
                    "error"@,
                    "The playback thread received frames but has not written any to the hardware ring."@,
                )
                ||| unresolved && says_fault(
                    x,
                    "output_device_unresolved"@,
                    "warning"@,
                    "Playback is active but no hardware output device has been resolved yet."@,
                )
            }
            &&& faults.len() == one_if(unready) + one_if(inactive) + one_if(starved) + one_if(uncalled)
                + one_if(stuck) + one_if(unresolved)
        }),
{
    let f1 = fault_if(
        driver_unavailable(e, d),
        "driver_unavailable"@,
        "error"@,
        "Playback is marked Playing but the HAL driver is not ready."@,
    );
    let f2 = fault_if(
        stream_inactive(e, d),
        "hal_stream_inactive"@,
        "warning"@,
        "Playback is marked Playing but the HAL stream is not active."@,
    );
    let f3 = fault_if(
        input_missing(e, d),
        "input_frames_missing"@,
        "error"@,
        "Playback is marked Playing but no frames have reached the playback thread."@,
    );
    let f4 = fault_if(
        callbacks_missing(e),
        "output_callbacks_missing"@,
        "error"@,
        "Playback is marked Playing but no hardware output callbacks have been observed."@,
    );
    let f5 = fault_if(
        output_missing(e),
        "output_frames_missing"@,
        "error"@,
        "The playback thread received frames but has not written any to the hardware ring."@,
    );
    let f6 = fault_if(
        device_unresolved(e),
        "output_device_unresolved"@,
        "warning"@,
        "Playback is active but no hardware output device has been resolved yet."@,
    );
    let s1 = Seq::<Json>::empty() + f1;
    let s2 = s1 + f2;
    let s3 = s2 + f3;
    let s4 = s3 + f4;
    let s5 = s4 + f5;
    lemma_joined(Seq::empty(), f1, x);
    lemma_joined(s1, f2, x);
    lemma_joined(s2, f3, x);
    lemma_joined(s3, f4, x);
    lemma_joined(s4, f5, x);
    lemma_joined(s5, f6, x);
    lemma_fault_if(
        driver_unavailable(e, d),
        "driver_unavailable"@,
        "error"@,
        "Playback is marked Playing but the HAL driver is not ready."@,
        x,
    );
    lemma_fault_if(
        stream_inactive(e, d),
        "hal_stream_inactive"@,
        "warning"@,
        "Playback is marked Playing but the HAL stream is not active."@,
        x,
    );
    lemma_fault_if(
        input_missing(e, d),
        "input_frames_missing"@,
        "error"@,
        "Playback is marked Playing but no frames have reached the playback thread."@,
        x,
    );
    lemma_fault_if(
        callbacks_missing(e),
        "output_callbacks_missing"@,
        "error"@,
        "Playback is marked Playing but no hardware output callbacks have been observed."@,
        x,
    );
    lemma_fault_if(
        output_missing(e),
        "output_frames_missing"@,
        "error"@,
        "The playback thread received frames but has not written any to the hardware ring."@,
        x,
    );
    lemma_fault_if(
        device_unresolved(e),
        "output_device_unresolved"@,
        "warning"@,
        "Playback is active but no hardware output device has been resolved yet."@,
        x,
    );
}

/// Whether a value is a fault with a code, a severity and a message, and nothing more.
pub open spec fn says_fault(x: Json, code: Seq<char>, severity: Seq<char>, message: Seq<char>) -> bool {
    &&& x is Object && x->Object_0.dom() == set!["code"@, "severity"@, "message"@]
    &&& json_member(x, "code"@) == Some(Json::Text(code))
    &&& json_member(x, "severity"@) == Some(Json::Text(severity))
    &&& json_member(x, "message"@) == Some(Json::Text(message))
}

/// One where a condition holds, else zero.
pub open spec fn one_if(condition: bool) -> int {
    if condition {
        1
    } else {
        0
    }
}

/// A value is in two joined lists exactly where it is in one of them.
pub proof fn lemma_joined<T>(a: Seq<T>, b: Seq<T>, x: T)
    ensures
        (a + b).contains(x) <==> a.contains(x) || b.contains(x),
{
    if a.contains(x) {
        let i = choose|i: int| 0 <= i < a.len() && a[i] == x;
        assert((a + b)[i] == x);
    }
    if b.contains(x) {
        let i = choose|i: int| 0 <= i < b.len() && b[i] == x;
        assert((a + b)[a.len() + i] == x);
    }
    if (a + b).contains(x) {
        let i = choose|i: int| 0 <= i < (a + b).len() && (a + b)[i] == x;
        if i < a.len() {
            assert(a[i] == x);
        } else {
            assert(b[i - a.len()] == x);
        }
    }
}

/// A fault that is there stands alone in its list.
pub proof fn lemma_fault_if(present: bool, code: Seq<char>, severity: Seq<char>, message: Seq<char>, x: Json)
    ensures
        fault_if(present, code, severity, message).contains(x) <==> present && says_fault(
            x,
            code,
            severity,
            message,
        ),
        fault_if(present, code, severity, message).len() == one_if(present),
{
    reveal_strlit("code");
    assert("code"@.len() == 4);
    reveal_strlit("message");
    assert("message"@.len() == 7);
    reveal_strlit("severity");
    assert("severity"@.len() == 8);
    let f = fault(code, severity, message);
    assert(f->Object_0.dom() =~= set!["code"@, "severity"@, "message"@]);
    assert(says_fault(f, code, severity, message));
    if present {
        assert(fault_if(present, code, severity, message)[0] == f);
        if says_fault(x, code, severity, message) {
            assert(x->Object_0 =~= f->Object_0);
        }
    }
}

/// The health is `ok` without faults, `fault` with one that is an error, and `warning` otherwise.
pub proof fn health_is_the_worst_fault(faults: Seq<Json>)
    ensures
        ({
            let severe = exists|i: int|
                0 <= i < faults.len() && json_member(#[trigger] faults[i], "severity"@) == Some(
                    Json::Text("error"@),
                );
            &&& faults.len() == 0 ==> health_of(faults) == "ok"@
            &&& severe ==> health_of(faults) == "fault"@
            &&& faults.len() > 0 && !severe ==> health_of(faults) == "warning"@
        }),
{
    if exists|i: int|
        0 <= i < faults.len() && json_member(#[trigger] faults[i], "severity"@) == Some(
            Json::Text("error"@),
        ) {
        let i = choose|i: int|
            0 <= i < faults.len() && json_member(#[trigger] faults[i], "severity"@) == Some(
                Json::Text("error"@),
            );
        assert(is_error(faults[i]));
    }
    if has_error(faults) {
        let i = choose|i: int| 0 <= i < faults.len() && is_error(#[trigger] faults[i]);
        assert(json_member(faults[i], "severity"@) == Some(Json::Text("error"@)));
    }
}

/// While playback runs, meters that only hold zeros in place of data are reported, each side for
/// itself.
pub proof fn empty_meters_are_reported(state: Seq<char>, metering: Json, x: Json)
    ensures
        ({
            let playing = state == "Playing"@;
            let faults = metering_faults(state, metering);
            let input = playing && side_is_fallback(metering, "input"@);
            let output = playing && side_is_fallback(metering, "output"@);
            &&& faults.contains(x) <==> {
                ||| input && says_fault(
                    x,
                    "input_metering_unavailable"@,
                    "warning"@,
                    "Input meters are channel-shaped fallback zeros, not analyzer data."@,
                )
                ||| output && says_fault(
                    x,
                    "output_metering_unavailable"@,
                    "warning"@,
                    "Output meters are channel-shaped fallback zeros, not analyzer data."@,
                )
            }
            &&& faults.len() == one_if(input) + one_if(output)
        }),
{
    let f1 = fault_if(
        is_playing(state) && side_is_fallback(metering, "input"@),
        "input_metering_unavailable"@,
        "warning"@,
        "Input meters are channel-shaped fallback zeros, not analyzer data."@,
    );
    let f2 = fault_if(
        is_playing(state) && side_is_fallback(metering, "output"@),
        "output_metering_unavailable"@,
        "warning"@,
        "Output meters are channel-shaped fallback zeros, not analyzer data."@,
    );
    lemma_joined(Seq::empty(), f1, x);
    lemma_joined(Seq::<Json>::empty() + f1, f2, x);
    lemma_fault_if(
        is_playing(state) && side_is_fallback(metering, "input"@),
        "input_metering_unavailable"@,
        "warning"@,
        "Input meters are channel-shaped fallback zeros, not analyzer data."@,
        x,
    );
    lemma_fault_if(
        is_playing(state) && side_is_fallback(metering, "output"@),
        "output_metering_unavailable"@,
        "warning"@,
        "Output meters are channel-shaped fallback zeros, not analyzer data."@,
        x,
    );
}

/// A side counts as empty exactly where its source says so.
pub proof fn sides_say_when_they_are_empty(metering: Json, side: Seq<char>, sources: Json, source: Json, status: Json)
    requires
        json_member(metering, "sources"@) == Some(sources),
        json_member(sources, side) == Some(source),
        json_member(source, "status"@) == Some(status),
    ensures
        side_is_fallback(metering, side) <==> status == Json::Text("fallback_zero"@),
{
}

} // verus!
