//! Loudness meters as clients see them.

use crate::graph::MAX_HAL_CHANNELS;
use crate::json::{json_member, json_of, list_of, Json, JsonNum, JsonNumber, JsonObject, JsonValue};
use crate::pipeline::count_json;
use vstd::prelude::*;

verus! {

/// What a loudness meter measured. Levels are JSON numbers, or null where a level is not finite.
#[derive(Debug)]
pub struct LoudnessData {
    pub momentary_lufs: JsonValue,
    pub shortterm_lufs: JsonValue,
    pub integrated_lufs: JsonValue,
    pub peak: JsonValue,
    pub channel_peaks: JsonValue,
    pub true_peaks_dbtp: JsonValue,
    pub correlation_lr: JsonValue,
    pub measurement_valid: bool,
    pub measurement_enabled: bool,
    pub query_error_generation: u64,
    pub channel_layout_is_compliant: bool,
    pub true_peak_is_compliant: bool,
    pub integrated_window_seconds: u64,
}

/// The shape of every loudness report.
pub open spec fn loudness_json(
    momentary: Json,
    short_term: Json,
    integrated: Json,
    peak: Json,
    channel_peaks: Json,
    true_peaks: Json,
    correlation: Json,
    valid: bool,
    enabled: bool,
    query_error_generation: u64,
    layout_compliant: bool,
    true_peak_compliant: bool,
    window_seconds: u64,
) -> Json {
    Json::Object(
        map![
            "momentary"@ => momentary,
            "short_term"@ => short_term,
            "integrated"@ => integrated,
            "peak"@ => peak,
            "channel_peaks"@ => channel_peaks,
            "true_peaks_dbtp"@ => true_peaks,
            "correlation_lr"@ => correlation,
            "measurement_valid"@ => Json::Bool(valid),
            "measurement_enabled"@ => Json::Bool(enabled),
            "query_error_generation"@ => count_json(query_error_generation as int),
            "channel_layout_is_compliant"@ => Json::Bool(layout_compliant),
            "true_peak_is_compliant"@ => Json::Bool(true_peak_compliant),
            "integrated_window_seconds"@ => count_json(window_seconds as int),
        ],
    )
}

/// The report of a meter.
pub open spec fn loudness_data_json(info: LoudnessData) -> Json {
    loudness_json(
        info.momentary_lufs@,
        info.shortterm_lufs@,
        info.integrated_lufs@,
        info.peak@,
        info.channel_peaks@,
        info.true_peaks_dbtp@,
        info.correlation_lr@,
        info.measurement_valid,
        info.measurement_enabled,
        info.query_error_generation,
        info.channel_layout_is_compliant,
        info.true_peak_is_compliant,
        info.integrated_window_seconds,
    )
}

/// The report of a meter.
pub fn loudness_data_to_json(info: &LoudnessData) -> (r: JsonValue)
    ensures
        r@ == loudness_data_json(*info),
{
    let mut out = JsonObject::new();
    out.put("momentary", info.momentary_lufs.clone());
    out.put("short_term", info.shortterm_lufs.clone());
    out.put("integrated", info.integrated_lufs.clone());
    out.put("peak", info.peak.clone());
    out.put("channel_peaks", info.channel_peaks.clone());
    out.put("true_peaks_dbtp", info.true_peaks_dbtp.clone());
    out.put("correlation_lr", info.correlation_lr.clone());
    out.put_bool("measurement_valid", info.measurement_valid);
    out.put_bool("measurement_enabled", info.measurement_enabled);
    out.put_unsigned("query_error_generation", info.query_error_generation);
    out.put_bool("channel_layout_is_compliant", info.channel_layout_is_compliant);
    out.put_bool("true_peak_is_compliant", info.true_peak_is_compliant);
    out.put_unsigned("integrated_window_seconds", info.integrated_window_seconds);
    out.finish()
}

/// The overall loudness, without levels per channel.
#[derive(Debug)]
pub struct LoudnessInfo {
    pub momentary_lufs: JsonValue,
    pub shortterm_lufs: JsonValue,
    pub integrated_lufs: JsonValue,
    pub peak: JsonValue,
}

/// The report of an overall loudness.
pub open spec fn loudness_info_json(info: LoudnessInfo) -> Json {
    loudness_json(
        info.momentary_lufs@,
        info.shortterm_lufs@,
        info.integrated_lufs@,
        info.peak@,
        Json::List(Seq::empty()),
        Json::List(Seq::empty()),
        Json::Null,
        false,
        true,
        0,
        false,
        false,
        3600,
    )
}

/// The report of an overall loudness.
pub fn loudness_info_to_json(info: &LoudnessInfo) -> (r: JsonValue)
    ensures
        r@ == loudness_info_json(*info),
{
    let none: Vec<JsonValue> = Vec::new();
    let nothing: Vec<JsonValue> = Vec::new();
    proof {
        assert(list_of(none@) =~= Seq::<Json>::empty());
        assert(list_of(nothing@) =~= Seq::<Json>::empty());
    }
    let mut out = JsonObject::new();
    out.put("momentary", info.momentary_lufs.clone());
    out.put("short_term", info.shortterm_lufs.clone());
    out.put("integrated", info.integrated_lufs.clone());
    out.put("peak", info.peak.clone());
    out.put("channel_peaks", JsonValue::List(none));
    out.put("true_peaks_dbtp", JsonValue::List(nothing));
    out.put("correlation_lr", JsonValue::Null);
    out.put_bool("measurement_valid", false);
    out.put_bool("measurement_enabled", true);
    out.put_unsigned("query_error_generation", 0);
    out.put_bool("channel_layout_is_compliant", false);
    out.put_bool("true_peak_is_compliant", false);
    out.put_unsigned("integrated_window_seconds", 3600);
    out.finish()
}

/// A channel count within the range of the transport.
pub open spec fn meter_channels(channels: usize) -> usize {
    if channels < 1 {
        1
    } else if channels > MAX_HAL_CHANNELS {
        MAX_HAL_CHANNELS
    } else {
        channels
    }
}

fn clamp_channels(channels: usize) -> (r: usize)
    ensures
        r == meter_channels(channels),
{
    if channels < 1 {
        1
    } else if channels > MAX_HAL_CHANNELS {
        MAX_HAL_CHANNELS
    } else {
        channels
    }
}

/// A decimal number.
pub open spec fn decimal_json(text: Seq<char>) -> Json {
    Json::Number(JsonNum::Decimal(text))
}

/// The same value for every channel.
pub open spec fn level_list(text: Seq<char>, channels: nat) -> Json {
    Json::List(Seq::new(channels, |i: int| decimal_json(text)))
}

fn decimal_value(text: &str) -> (r: JsonValue)
    ensures
        r@ == decimal_json(text@),
{
    JsonValue::Number(JsonNumber::Decimal(text.to_owned()))
}

fn levels(text: &str, channels: usize) -> (r: JsonValue)
    ensures
        r@ == level_list(text@, channels as nat),
{
    let mut out: Vec<JsonValue> = Vec::new();
    let mut i: usize = 0;
    while i < channels
        invariant
            i <= channels,
            out.len() == i,
            forall|k: int| 0 <= k < i ==> json_of(#[trigger] out@[k]) == decimal_json(text@),
        decreases channels - i,
    {
        out.push(decimal_value(text));
        i = i + 1;
    }
    proof {
        assert(list_of(out@) =~= Seq::new(channels as nat, |i: int| decimal_json(text@)));
    }
    JsonValue::List(out)
}

/// The report of a meter that is not there: silence in the shape of the channels.
pub open spec fn empty_loudness(channels: usize) -> Json {
    let n = meter_channels(channels);
    loudness_json(
        decimal_json("-60.0"@),
        decimal_json("-60.0"@),
        decimal_json("-60.0"@),
        decimal_json("0.0"@),
        level_list("0.0"@, n as nat),
        level_list("-120.0"@, n as nat),
        Json::Null,
        false,
        false,
        0,
        n <= 2,
        false,
        3600,
    )
}

/// The report of a meter that is not there.
pub fn empty_loudness_json(channels: usize) -> (r: JsonValue)
    ensures
        r@ == empty_loudness(channels),
{
    let n: usize = clamp_channels(channels);
    let mut out = JsonObject::new();
    out.put("momentary", decimal_value("-60.0"));
    out.put("short_term", decimal_value("-60.0"));
    out.put("integrated", decimal_value("-60.0"));
    out.put("peak", decimal_value("0.0"));
    out.put("channel_peaks", levels("0.0", n));
    out.put("true_peaks_dbtp", levels("-120.0", n));
    out.put("correlation_lr", JsonValue::Null);
    out.put_bool("measurement_valid", false);
    out.put_bool("measurement_enabled", false);
    out.put_unsigned("query_error_generation", 0);
    out.put_bool("channel_layout_is_compliant", n <= 2);
    out.put_bool("true_peak_is_compliant", false);
    out.put_unsigned("integrated_window_seconds", 3600);
    out.finish()
}

/// Where the values of a meter come from.
pub open spec fn metering_source(data_present: bool, channels: usize) -> Json {
    Json::Object(
        map![
            "status"@ => Json::Text(if data_present { "available"@ } else { "fallback_zero"@ }),
            "source"@ => Json::Text(
                if data_present { "loudness_monitor"@ } else { "channel_sized_fallback"@ },
            ),
            "channels"@ => count_json(meter_channels(channels) as int),
        ],
    )
}

/// Where the values of a meter come from.
pub fn metering_source_json(data_present: bool, channels: usize) -> (r: JsonValue)
    ensures
        r@ == metering_source(data_present, channels),
{
    let n: usize = clamp_channels(channels);
    let mut out = JsonObject::new();
    if data_present {
        out.put_text("status", "available");
        out.put_text("source", "loudness_monitor");
    } else {
        out.put_text("status", "fallback_zero");
        out.put_text("source", "channel_sized_fallback");
    }
    out.put_unsigned("channels", n as u64);
    out.finish()
}

/// The report of a meter, or of its absence.
pub open spec fn meter_report(data: Option<LoudnessData>, channels: usize) -> Json {
    match data {
        Some(info) => loudness_data_json(info),
        None => empty_loudness(channels),
    }
}

fn meter_value(data: &Option<LoudnessData>, channels: usize) -> (r: JsonValue)
    ensures
        r@ == meter_report(*data, channels),
{
    match data {
        Some(info) => loudness_data_to_json(info),
        None => empty_loudness_json(channels),
    }
}

/// Both meters, with where their values come from. A meter that is not there is as wide as its side
/// of the pipeline.
pub open spec fn metering_json(
    input: Option<LoudnessData>,
    output: Option<LoudnessData>,
    input_channels: usize,
    output_channels: usize,
) -> Json {
    Json::Object(
        map![
            "input"@ => meter_report(input, input_channels),
            "output"@ => meter_report(output, output_channels),
            "sources"@ => Json::Object(
                map![
                    "input"@ => metering_source(input is Some, input_channels),
                    "output"@ => metering_source(output is Some, output_channels),
                ],
            ),
        ],
    )
}

fn metering_object(
    input: &Option<LoudnessData>,
    output: &Option<LoudnessData>,
    input_channels: usize,
    output_channels: usize,
) -> (r: JsonObject)
    ensures
        Json::Object(r@) == metering_json(*input, *output, input_channels, output_channels),
{
    let mut sources = JsonObject::new();
    sources.put("input", metering_source_json(input.is_some(), input_channels));
    sources.put("output", metering_source_json(output.is_some(), output_channels));
    let mut out = JsonObject::new();
    out.put("input", meter_value(input, input_channels));
    out.put("output", meter_value(output, output_channels));
    out.put("sources", sources.finish());
    out
}

/// Both meters, with where their values come from.
pub fn metering_snapshot(
    input: &Option<LoudnessData>,
    output: &Option<LoudnessData>,
    input_channels: usize,
    output_channels: usize,
) -> (r: JsonValue)
    ensures
        r@ == metering_json(*input, *output, input_channels, output_channels),
{
    metering_object(input, output, input_channels, output_channels).finish()
}

/// Both meters, with the generation of the pipeline that they belong to.
pub fn metering_response(
    input: &Option<LoudnessData>,
    output: &Option<LoudnessData>,
    input_channels: usize,
    output_channels: usize,
    generation: u64,
) -> (r: crate::response::Response)
    ensures
        r@ == crate::response::ok_response(
            Json::Object(
                metering_json(*input, *output, input_channels, output_channels)->Object_0.insert(
                    "generation"@,
                    count_json(generation as int),
                ),
            ),
        ),
{
    let mut out = metering_object(input, output, input_channels, output_channels);
    out.put_unsigned("generation", generation);
    crate::response::Response::ok(out.finish())
}

/// The answer to a question for the loudness.
pub fn loudness_response(loudness: &Option<LoudnessInfo>) -> (r: crate::response::Response)
    ensures
        r@ == match *loudness {
            Some(info) => crate::response::ok_response(loudness_info_json(info)),
            None => crate::response::err_response("Loudness monitoring not enabled"@),
        },
{
    match loudness {
        Some(info) => crate::response::Response::ok(loudness_info_to_json(info)),
        None => crate::response::Response::err("Loudness monitoring not enabled".to_owned()),
    }
}

/// Meters always have the shape of the pipeline: a meter that is not there reports one silent level
/// per channel, and says that it is a fallback.
pub proof fn absent_meters_keep_their_shape(channels: usize)
    requires
        1 <= channels <= MAX_HAL_CHANNELS,
    ensures
        ({
            let report = meter_report(None, channels)->Object_0;
            let source = metering_source(false, channels)->Object_0;
            &&& report["channel_peaks"@]->List_0.len() == channels
            &&& report["true_peaks_dbtp"@]->List_0.len() == channels
            &&& report["measurement_valid"@] == Json::Bool(false)
            &&& source["status"@] == Json::Text("fallback_zero"@)
            &&& source["channels"@] == count_json(channels as int)
        }),
{
    lemma_loudness_names_differ();
}

proof fn lemma_loudness_names_differ()
    ensures
        "channel_peaks"@ != "true_peaks_dbtp"@,
        "channel_peaks"@ != "correlation_lr"@,
        "channel_peaks"@ != "measurement_valid"@,
        "channel_peaks"@ != "measurement_enabled"@,
        "channel_peaks"@ != "query_error_generation"@,
        "channel_peaks"@ != "channel_layout_is_compliant"@,
        "channel_peaks"@ != "true_peak_is_compliant"@,
        "channel_peaks"@ != "integrated_window_seconds"@,
        "true_peaks_dbtp"@ != "correlation_lr"@,
        "true_peaks_dbtp"@ != "measurement_valid"@,
        "true_peaks_dbtp"@ != "measurement_enabled"@,
        "true_peaks_dbtp"@ != "query_error_generation"@,
        "true_peaks_dbtp"@ != "channel_layout_is_compliant"@,
        "true_peaks_dbtp"@ != "true_peak_is_compliant"@,
        "true_peaks_dbtp"@ != "integrated_window_seconds"@,
        "measurement_valid"@ != "measurement_enabled"@,
        "measurement_valid"@ != "query_error_generation"@,
        "measurement_valid"@ != "channel_layout_is_compliant"@,
        "measurement_valid"@ != "true_peak_is_compliant"@,
        "measurement_valid"@ != "integrated_window_seconds"@,
        "status"@ != "source"@,
        "status"@ != "channels"@,
        "source"@ != "channels"@,
{
    reveal_strlit("channel_peaks");
    reveal_strlit("true_peaks_dbtp");
    reveal_strlit("correlation_lr");
    reveal_strlit("measurement_valid");
    reveal_strlit("measurement_enabled");
    reveal_strlit("query_error_generation");
    reveal_strlit("channel_layout_is_compliant");
    reveal_strlit("true_peak_is_compliant");
    reveal_strlit("integrated_window_seconds");
    reveal_strlit("status");
    reveal_strlit("source");
    reveal_strlit("channels");
    assert("channel_peaks"@.len() == 13);
    assert("true_peaks_dbtp"@.len() == 15);
    assert("correlation_lr"@.len() == 14);
    assert("measurement_valid"@.len() == 17);
    assert("measurement_enabled"@.len() == 19);
    assert("query_error_generation"@.len() == 22);
    assert("channel_layout_is_compliant"@.len() == 27);
    assert("true_peak_is_compliant"@.len() == 22);
    assert("integrated_window_seconds"@.len() == 25);
    assert("channels"@.len() == 8);
    assert("status"@.len() == 6 && "source"@.len() == 6);
    assert("status"@[1] == 't' && "source"@[1] == 'o');
}

/// Whether a report shows the levels of a meter.
pub open spec fn shows_meter(report: Json, info: LoudnessData) -> bool {
    &&& json_member(report, "momentary"@) == Some(info.momentary_lufs@)
    &&& json_member(report, "short_term"@) == Some(info.shortterm_lufs@)
    &&& json_member(report, "integrated"@) == Some(info.integrated_lufs@)
    &&& json_member(report, "peak"@) == Some(info.peak@)
    &&& json_member(report, "channel_peaks"@) == Some(info.channel_peaks@)
    &&& json_member(report, "true_peaks_dbtp"@) == Some(info.true_peaks_dbtp@)
    &&& json_member(report, "correlation_lr"@) == Some(info.correlation_lr@)
    &&& json_member(report, "measurement_valid"@) == Some(Json::Bool(info.measurement_valid))
    &&& json_member(report, "measurement_enabled"@) == Some(Json::Bool(info.measurement_enabled))
    &&& json_member(report, "query_error_generation"@) == Some(
        Json::Number(JsonNum::Unsigned(info.query_error_generation)),
    )
    &&& json_member(report, "channel_layout_is_compliant"@) == Some(
        Json::Bool(info.channel_layout_is_compliant),
    )
    &&& json_member(report, "true_peak_is_compliant"@) == Some(
        Json::Bool(info.true_peak_is_compliant),
    )
    &&& json_member(report, "integrated_window_seconds"@) == Some(
        Json::Number(JsonNum::Unsigned(info.integrated_window_seconds)),
    )
}

/// Whether a report shows silence on so many channels.
pub open spec fn shows_silence(report: Json, channels: int) -> bool {
    let quiet = Json::Number(JsonNum::Decimal("-60.0"@));
    &&& json_member(report, "momentary"@) == Some(quiet)
    &&& json_member(report, "short_term"@) == Some(quiet)
    &&& json_member(report, "integrated"@) == Some(quiet)
    &&& json_member(report, "peak"@) == Some(Json::Number(JsonNum::Decimal("0.0"@)))
    &&& json_member(report, "channel_peaks"@) matches Some(Json::List(peaks)) && peaks.len() == channels
        && forall|i: int|
        0 <= i < channels ==> #[trigger] peaks[i] == Json::Number(JsonNum::Decimal("0.0"@))
    &&& json_member(report, "true_peaks_dbtp"@) matches Some(Json::List(peaks)) && peaks.len()
        == channels && forall|i: int|
        0 <= i < channels ==> #[trigger] peaks[i] == Json::Number(JsonNum::Decimal("-120.0"@))
    &&& json_member(report, "correlation_lr"@) == Some(Json::Null)
    &&& json_member(report, "measurement_valid"@) == Some(Json::Bool(false))
    &&& json_member(report, "measurement_enabled"@) == Some(Json::Bool(false))
    &&& json_member(report, "query_error_generation"@) == Some(Json::Number(JsonNum::Unsigned(0)))
    &&& json_member(report, "channel_layout_is_compliant"@) == Some(Json::Bool(channels <= 2))
    &&& json_member(report, "true_peak_is_compliant"@) == Some(Json::Bool(false))
    &&& json_member(report, "integrated_window_seconds"@) == Some(
        Json::Number(JsonNum::Unsigned(3600)),
    )
}

proof fn lemma_meter_report(data: Option<LoudnessData>, channels: usize)
    ensures
        data matches Some(info) ==> shows_meter(meter_report(data, channels), info),
        data is None && 1 <= channels <= 32 ==> shows_silence(
            meter_report(data, channels),
            channels as int,
        ),
        data is None && channels < 1 ==> shows_silence(meter_report(data, channels), 1),
        data is None && channels > 32 ==> shows_silence(meter_report(data, channels), 32),
{
    reveal_strlit("peak");
    assert("peak"@.len() == 4);
    reveal_strlit("momentary");
    assert("momentary"@.len() == 9);
    reveal_strlit("short_term");
    assert("short_term"@.len() == 10);
    assert("short_term"@[0] == 's');
    reveal_strlit("integrated");
    assert("integrated"@.len() == 10);
    assert("integrated"@[0] == 'i');
    reveal_strlit("channel_peaks");
    assert("channel_peaks"@.len() == 13);
    reveal_strlit("correlation_lr");
    assert("correlation_lr"@.len() == 14);
    reveal_strlit("true_peaks_dbtp");
    assert("true_peaks_dbtp"@.len() == 15);
    reveal_strlit("measurement_valid");
    assert("measurement_valid"@.len() == 17);
    reveal_strlit("measurement_enabled");
    assert("measurement_enabled"@.len() == 19);
    reveal_strlit("query_error_generation");
    assert("query_error_generation"@.len() == 22);
    assert("query_error_generation"@[0] == 'q');
    reveal_strlit("true_peak_is_compliant");
    assert("true_peak_is_compliant"@.len() == 22);
    assert("true_peak_is_compliant"@[0] == 't');
    reveal_strlit("integrated_window_seconds");
    assert("integrated_window_seconds"@.len() == 25);
    reveal_strlit("channel_layout_is_compliant");
    assert("channel_layout_is_compliant"@.len() == 27);
}

/// Each side of the metering report shows its own meter: where the input meter has data, `input` shows
/// the levels of that meter and of no other, and likewise `output`. Where a meter has none, its side
/// shows silence, as wide as that side of the pipeline. The sources say which of the two it is.
pub proof fn each_side_shows_its_own_meter(
    input: Option<LoudnessData>,
    output: Option<LoudnessData>,
    input_channels: usize,
    output_channels: usize,
)
    requires
        1 <= input_channels <= 32,
        1 <= output_channels <= 32,
    ensures
        ({
            let report = metering_json(input, output, input_channels, output_channels);
            let inward = json_member(report, "input"@);
            let outward = json_member(report, "output"@);
            let sources = json_member(report, "sources"@);
            &&& inward is Some && outward is Some && sources is Some
            &&& input matches Some(info) ==> shows_meter(inward->0, info)
            &&& input is None ==> shows_silence(inward->0, input_channels as int)
            &&& output matches Some(info) ==> shows_meter(outward->0, info)
            &&& output is None ==> shows_silence(outward->0, output_channels as int)
            &&& json_member(sources->0, "input"@) is Some && says_source(
                json_member(sources->0, "input"@)->0,
                input is Some,
                input_channels as int,
            )
            &&& json_member(sources->0, "output"@) is Some && says_source(
                json_member(sources->0, "output"@)->0,
                output is Some,
                output_channels as int,
            )
        }),
{
    reveal_strlit("input");
    assert("input"@.len() == 5);
    reveal_strlit("output");
    assert("output"@.len() == 6);
    reveal_strlit("sources");
    assert("sources"@.len() == 7);
    lemma_meter_report(input, input_channels);
    lemma_meter_report(output, output_channels);
    lemma_source(input is Some, input_channels);
    lemma_source(output is Some, output_channels);
}

/// Whether a source says that there is a meter, or that silence stands in for it.
pub open spec fn says_source(source: Json, present: bool, channels: int) -> bool {
    &&& json_member(source, "status"@) == Some(
        Json::Text(if present { "available"@ } else { "fallback_zero"@ }),
    )
    &&& json_member(source, "source"@) == Some(
        Json::Text(if present { "loudness_monitor"@ } else { "channel_sized_fallback"@ }),
    )
    &&& json_member(source, "channels"@) == Some(Json::Number(JsonNum::Unsigned(channels as u64)))
}

proof fn lemma_source(present: bool, channels: usize)
    requires
        1 <= channels <= 32,
    ensures
        says_source(metering_source(present, channels), present, channels as int),
{
    reveal_strlit("status");
    assert("status"@.len() == 6);
    assert("status"@[1] == 't');
    reveal_strlit("source");
    assert("source"@.len() == 6);
    assert("source"@[1] == 'o');
    reveal_strlit("channels");
    assert("channels"@.len() == 8);
}

/// The overall loudness shows its four levels, no channels and nothing that was not measured.
pub proof fn overall_loudness_shows_its_levels(info: LoudnessInfo)
    ensures
        ({
            let report = loudness_info_json(info);
            &&& json_member(report, "momentary"@) == Some(info.momentary_lufs@)
            &&& json_member(report, "short_term"@) == Some(info.shortterm_lufs@)
            &&& json_member(report, "integrated"@) == Some(info.integrated_lufs@)
            &&& json_member(report, "peak"@) == Some(info.peak@)
            &&& json_member(report, "channel_peaks"@) == Some(Json::List(Seq::empty()))
            &&& json_member(report, "true_peaks_dbtp"@) == Some(Json::List(Seq::empty()))
            &&& json_member(report, "correlation_lr"@) == Some(Json::Null)
            &&& json_member(report, "measurement_valid"@) == Some(Json::Bool(false))
            &&& json_member(report, "measurement_enabled"@) == Some(Json::Bool(true))
            &&& json_member(report, "query_error_generation"@) == Some(Json::Number(JsonNum::Unsigned(0)))
            &&& json_member(report, "channel_layout_is_compliant"@) == Some(Json::Bool(false))
            &&& json_member(report, "true_peak_is_compliant"@) == Some(Json::Bool(false))
            &&& json_member(report, "integrated_window_seconds"@) == Some(
                Json::Number(JsonNum::Unsigned(3600)),
            )
        }),
{
    reveal_strlit("peak");
    assert("peak"@.len() == 4);
    reveal_strlit("momentary");
    assert("momentary"@.len() == 9);
    reveal_strlit("short_term");
    assert("short_term"@.len() == 10);
    assert("short_term"@[0] == 's');
    reveal_strlit("integrated");
    assert("integrated"@.len() == 10);
    assert("integrated"@[0] == 'i');
    reveal_strlit("channel_peaks");
    assert("channel_peaks"@.len() == 13);
    reveal_strlit("correlation_lr");
    assert("correlation_lr"@.len() == 14);
    reveal_strlit("true_peaks_dbtp");
    assert("true_peaks_dbtp"@.len() == 15);
    reveal_strlit("measurement_valid");
    assert("measurement_valid"@.len() == 17);
    reveal_strlit("measurement_enabled");
    assert("measurement_enabled"@.len() == 19);
    reveal_strlit("query_error_generation");
    assert("query_error_generation"@.len() == 22);
    assert("query_error_generation"@[0] == 'q');
    reveal_strlit("true_peak_is_compliant");
    assert("true_peak_is_compliant"@.len() == 22);
    assert("true_peak_is_compliant"@[0] == 't');
    reveal_strlit("integrated_window_seconds");
    assert("integrated_window_seconds"@.len() == 25);
    reveal_strlit("channel_layout_is_compliant");
    assert("channel_layout_is_compliant"@.len() == 27);
}

/// The metering answer carries both meters and the generation, and the loudness answer the overall
/// levels, or that there are none.
pub proof fn metering_answers_carry_the_meters(
    input: Option<LoudnessData>,
    output: Option<LoudnessData>,
    input_channels: usize,
    output_channels: usize,
    generation: u64,
    response: crate::response::Response,
)
    requires
        call_ensures(
            metering_response,
            (&input, &output, input_channels, output_channels, generation),
            response,
        ),
    ensures
        ({
            let data = response@.data->0;
            let meters = metering_json(input, output, input_channels, output_channels);
            &&& response@.success && response@.data is Some
            &&& json_member(data, "generation"@) == Some(Json::Number(JsonNum::Unsigned(generation)))
            &&& json_member(data, "input"@) == json_member(meters, "input"@)
            &&& json_member(data, "output"@) == json_member(meters, "output"@)
            &&& json_member(data, "sources"@) == json_member(meters, "sources"@)
        }),
{
    reveal_strlit("input");
    assert("input"@.len() == 5);
    reveal_strlit("output");
    assert("output"@.len() == 6);
    reveal_strlit("sources");
    assert("sources"@.len() == 7);
    reveal_strlit("generation");
    assert("generation"@.len() == 10);
}

/// The loudness answer carries the overall levels, or says that there are none.
pub proof fn loudness_answers_carry_the_levels(loudness: Option<LoudnessInfo>, response: crate::response::Response)
    requires
        call_ensures(loudness_response, (&loudness,), response),
    ensures
        response@.success <==> loudness is Some,
        loudness matches Some(info) ==> response@.data == Some(loudness_info_json(info)),
        loudness is None ==> response@.error == Some("Loudness monitoring not enabled"@),
{
}

} // verus!
