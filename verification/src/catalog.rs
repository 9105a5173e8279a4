//! The plugins that clients can choose from, with their categories and parameters.

use crate::json::{add_entry, json_member, list_of, Json, JsonObject, JsonValue};
use crate::pipeline::count_json;
use crate::response::{ok_response, Response};
use crate::state::text_models;
use crate::text::same_text;
use crate::transport::{tells_count, text_list, text_values};
use vstd::prelude::*;

verus! {

/// The types of plugins that the engine has.
#[derive(Debug, Clone, Copy, PartialEq, Eq, Structural)]
pub enum PluginType {
    EQ,
    FletcherMunson,
    LoudnessCompensation,
    Gain,
    Dither,
    Compressor,
    Limiter,
    Gate,
    Expander,
    MultibandCompressor,
    MultibandExpander,
    AAE,
    Upmixer,
    Downmix,
    MonoToStereo,
    Matrix,
    ChannelMuteSolo,
    BinauralDecoder,
    XTC,
    Convolution,
    Denoiser,
    Declick,
    HissReducer,
    SpeechDenoiser,
    Pnd,
    LoudnessMonitor,
    SpectrumAnalyzer,
    ABCompare,
    Crossover,
    BandSplit,
    BandMerge,
    Crossfeed,
    Delay,
    Aec,
    Beamformer,
    AmbisonicsDecoder,
    StereoImager,
    DeEsser,
    TransientShaper,
    Saturation,
    DynamicEq,
    LinearPhaseEq,
    SpectralCompressor,
    External,
}

/// The category under which a picker shows a type.
pub open spec fn category_of(pt: PluginType) -> Seq<char> {
    match pt {
        PluginType::EQ | PluginType::FletcherMunson | PluginType::LoudnessCompensation => "EQ & Tone"@,
        PluginType::LinearPhaseEq => "EQ"@,
        PluginType::Gain | PluginType::Dither | PluginType::ABCompare | PluginType::Crossover
        | PluginType::BandSplit | PluginType::BandMerge | PluginType::Crossfeed => "Utility"@,
        PluginType::Compressor | PluginType::Limiter | PluginType::Gate | PluginType::Expander
        | PluginType::MultibandCompressor | PluginType::MultibandExpander | PluginType::DeEsser
        | PluginType::TransientShaper | PluginType::DynamicEq | PluginType::SpectralCompressor => "Dynamics"@,
        PluginType::AAE | PluginType::Upmixer | PluginType::Downmix | PluginType::MonoToStereo
        | PluginType::Matrix | PluginType::ChannelMuteSolo | PluginType::BinauralDecoder
        | PluginType::XTC | PluginType::Beamformer | PluginType::AmbisonicsDecoder
        | PluginType::StereoImager => "Spatial & Routing"@,
        PluginType::Convolution | PluginType::Delay | PluginType::Saturation => "Effects"@,
        PluginType::Denoiser | PluginType::Declick | PluginType::HissReducer
        | PluginType::SpeechDenoiser | PluginType::Pnd | PluginType::Aec => "Restoration"@,
        PluginType::LoudnessMonitor | PluginType::SpectrumAnalyzer => "Monitoring"@,
        PluginType::External => "External"@,
    }
}

/// The category under which a picker shows a type.
pub fn plugin_type_category(pt: &PluginType) -> (r: &'static str)
    ensures
        r@ == category_of(*pt),
{
    match pt {
        PluginType::EQ | PluginType::FletcherMunson | PluginType::LoudnessCompensation => "EQ & Tone",
        PluginType::LinearPhaseEq => "EQ",
        PluginType::Gain | PluginType::Dither | PluginType::ABCompare | PluginType::Crossover
        | PluginType::BandSplit | PluginType::BandMerge | PluginType::Crossfeed => "Utility",
        PluginType::Compressor | PluginType::Limiter | PluginType::Gate | PluginType::Expander
        | PluginType::MultibandCompressor | PluginType::MultibandExpander | PluginType::DeEsser
        | PluginType::TransientShaper | PluginType::DynamicEq | PluginType::SpectralCompressor => "Dynamics",
        PluginType::AAE | PluginType::Upmixer | PluginType::Downmix | PluginType::MonoToStereo
        | PluginType::Matrix | PluginType::ChannelMuteSolo | PluginType::BinauralDecoder
        | PluginType::XTC | PluginType::Beamformer | PluginType::AmbisonicsDecoder
        | PluginType::StereoImager => "Spatial & Routing",
        PluginType::Convolution | PluginType::Delay | PluginType::Saturation => "Effects",
        PluginType::Denoiser | PluginType::Declick | PluginType::HissReducer
        | PluginType::SpeechDenoiser | PluginType::Pnd | PluginType::Aec => "Restoration",
        PluginType::LoudnessMonitor | PluginType::SpectrumAnalyzer => "Monitoring",
        PluginType::External => "External",
    }
}

/// When a parameter change takes effect.
#[derive(Debug, Clone, Copy, PartialEq, Eq, Structural)]
pub enum UpdateMode {
    Realtime,
    Rebuild,
}

/// The kind and the range of a parameter. Numbers are JSON values.
#[derive(Debug)]
pub enum ParamType {
    Float { default: JsonValue, min: JsonValue, max: JsonValue, step: JsonValue },
    Int { default: JsonValue, min: JsonValue, max: JsonValue, step: JsonValue },
    Bool { default_on: bool, true_label: String, false_label: String },
    Choice { default_index: usize, labels: Vec<String> },
    FilePath,
}

/// A parameter of a plugin.
#[derive(Debug)]
pub struct ParamSpec {
    pub engine_key: String,
    pub name: String,
    pub unit: String,
    pub group: String,
    pub doc: String,
    pub update_mode: UpdateMode,
    pub param_type: ParamType,
}

/// What every descriptor says.
pub open spec fn descriptor_head(spec: ParamSpec) -> Map<Seq<char>, Json> {
    map![
        "key"@ => Json::Text(spec.engine_key@),
        "name"@ => Json::Text(spec.name@),
        "unit"@ => Json::Text(spec.unit@),
        "group"@ => Json::Text(spec.group@),
        "doc"@ => Json::Text(spec.doc@),
        "update_mode"@ => Json::Text(
            match spec.update_mode {
                UpdateMode::Realtime => "realtime"@,
                UpdateMode::Rebuild => "structural"@,
            },
        ),
    ]
}

/// A descriptor with a numeric range.
pub open spec fn with_range(
    head: Map<Seq<char>, Json>,
    kind: Seq<char>,
    default: Json,
    min: Json,
    max: Json,
    step: Json,
) -> Map<Seq<char>, Json> {
    head.insert("type"@, Json::Text(kind)).insert("default"@, default).insert("min"@, min).insert(
        "max"@,
        max,
    ).insert("step"@, step)
}

/// A parameter as clients see it.
pub open spec fn descriptor_json(spec: ParamSpec) -> Json {
    let head = descriptor_head(spec);
    Json::Object(
        match spec.param_type {
            ParamType::Float { default, min, max, step } => with_range(
                head,
                "float"@,
                default@,
                min@,
                max@,
                step@,
            ),
            ParamType::Int { default, min, max, step } => with_range(
                head,
                "int"@,
                default@,
                min@,
                max@,
                step@,
            ),
            ParamType::Bool { default_on, true_label, false_label } => head.insert(
                "type"@,
                Json::Text("bool"@),
            ).insert("default"@, Json::Bool(default_on)).insert("true_label"@, Json::Text(true_label@)).insert(
                "false_label"@,
                Json::Text(false_label@),
            ),
            ParamType::Choice { default_index, labels } => head.insert(
                "type"@,
                Json::Text("choice"@),
            ).insert("default"@, count_json(default_index as int)).insert(
                "choices"@,
                text_list(text_models(labels@)),
            ),
            ParamType::FilePath => head.insert("type"@, Json::Text("file_path"@)),
        },
    )
}

fn put_range(
    out: &mut JsonObject,
    kind: &str,
    default: &JsonValue,
    min: &JsonValue,
    max: &JsonValue,
    step: &JsonValue,
)
    ensures
        final(out)@ == with_range(old(out)@, kind@, default@, min@, max@, step@),
{
    out.put_text("type", kind);
    out.put("default", default.clone());
    out.put("min", min.clone());
    out.put("max", max.clone());
    out.put("step", step.clone());
}

/// A parameter as clients see it.
pub fn parameter_descriptor_to_json(spec: &ParamSpec) -> (r: JsonValue)
    ensures
        r@ == descriptor_json(*spec),
{
    let mut out = JsonObject::new();
    out.put_text("key", spec.engine_key.as_str());
    out.put_text("name", spec.name.as_str());
    out.put_text("unit", spec.unit.as_str());
    out.put_text("group", spec.group.as_str());
    out.put_text("doc", spec.doc.as_str());
    out.put_text(
        "update_mode",
        match spec.update_mode {
            UpdateMode::Realtime => "realtime",
            UpdateMode::Rebuild => "structural",
        },
    );
    match &spec.param_type {
        ParamType::Float { default, min, max, step } => {
            put_range(&mut out, "float", default, min, max, step);
        },
        ParamType::Int { default, min, max, step } => {
            put_range(&mut out, "int", default, min, max, step);
        },
        ParamType::Bool { default_on, true_label, false_label } => {
            out.put_text("type", "bool");
            out.put_bool("default", *default_on);
            out.put_text("true_label", true_label.as_str());
            out.put_text("false_label", false_label.as_str());
        },
        ParamType::Choice { default_index, labels } => {
            out.put_text("type", "choice");
            out.put_unsigned("default", *default_index as u64);
            out.put("choices", text_values(labels));
        },
        ParamType::FilePath => {
            out.put_text("type", "file_path");
        },
    }
    out.finish()
}

/// The parameters of a plugin as clients see them.
pub open spec fn descriptors_json(specs: Seq<ParamSpec>) -> Json {
    Json::List(specs.map_values(|s: ParamSpec| descriptor_json(s)))
}

/// The parameters of a plugin as clients see them.
pub fn plugin_parameter_descriptors(specs: &Vec<ParamSpec>) -> (r: JsonValue)
    ensures
        r@ == descriptors_json(specs@),
{
    let mut out: Vec<JsonValue> = Vec::new();
    let mut i: usize = 0;
    while i < specs.len()
        invariant
            i <= specs.len(),
            out.len() == i,
            forall|k: int| 0 <= k < i ==> (#[trigger] out@[k])@ == descriptor_json(specs@[k]),
        decreases specs.len() - i,
    {
        out.push(parameter_descriptor_to_json(&specs[i]));
        i = i + 1;
    }
    proof {
        assert(list_of(out@) =~= specs@.map_values(|s: ParamSpec| descriptor_json(s)));
    }
    JsonValue::List(out)
}

/// The default settings of a plugin.
#[derive(Debug)]
pub struct PluginDefaults {
    pub default_parameters: JsonValue,
    pub parameters: Vec<ParamSpec>,
}

/// A plugin of the engine. Without default settings it cannot be offered.
#[derive(Debug)]
pub struct PluginListing {
    pub plugin_type: PluginType,
    pub engine_type: String,
    pub name: String,
    pub description: String,
    pub maturity: String,
    pub defaults: Option<PluginDefaults>,
}

/// Whether a type is not for users to choose: it belongs to the daemon, or to the inside of the
/// engine.
pub open spec fn is_internal_type(engine_type: Seq<char>) -> bool {
    ||| engine_type == "loudness_monitor"@
    ||| engine_type == "spectrum_analyzer"@
    ||| engine_type == "resampler"@
    ||| engine_type == "hal_input"@
    ||| engine_type == "hal_output"@
    ||| engine_type == "band_split"@
    ||| engine_type == "band_merge"@
    ||| engine_type == "ab_compare"@
    ||| engine_type == "fletcher_munson"@
}

/// Whether a type is not for users to choose.
pub fn is_excluded_type(engine_type: &str) -> (r: bool)
    ensures
        r == is_internal_type(engine_type@),
{
    same_text(engine_type, "loudness_monitor") || same_text(engine_type, "spectrum_analyzer")
        || same_text(engine_type, "resampler") || same_text(engine_type, "hal_input") || same_text(
        engine_type,
        "hal_output",
    ) || same_text(engine_type, "band_split") || same_text(engine_type, "band_merge") || same_text(
        engine_type,
        "ab_compare",
    ) || same_text(engine_type, "fletcher_munson")
}

/// Whether a plugin is offered to users.
pub open spec fn is_offered(listing: PluginListing) -> bool {
    !is_internal_type(listing.engine_type@) && listing.defaults is Some
}

/// A plugin as a picker shows it.
pub open spec fn listing_json(listing: PluginListing) -> Json {
    let defaults = listing.defaults->0;
    Json::Object(
        map![
            "type"@ => Json::Text(listing.engine_type@),
            "name"@ => Json::Text(listing.name@),
            "description"@ => Json::Text(listing.description@),
            "category"@ => Json::Text(category_of(listing.plugin_type)),
            "maturity"@ => Json::Text(listing.maturity@),
            "default_parameters"@ => defaults.default_parameters@,
            "parameters"@ => descriptors_json(defaults.parameters@),
        ],
    )
}

/// The plugins that users can choose from.
pub open spec fn offered(listings: Seq<PluginListing>) -> Seq<Json> {
    listings.filter(|l: PluginListing| is_offered(l)).map_values(|l: PluginListing| listing_json(l))
}

/// The plugins that users can choose from.
pub fn handle_get_available_plugins(listings: &Vec<PluginListing>) -> (r: Response)
    ensures
        r@ == ok_response(Json::Object(map!["plugins"@ => Json::List(offered(listings@))])),
{
    let ghost keep = |l: PluginListing| is_offered(l);
    let ghost show = |l: PluginListing| listing_json(l);
    let mut list: Vec<JsonValue> = Vec::new();
    let mut i: usize = 0;
    proof {
        reveal(Seq::filter);
        assert(list_of(list@) =~= listings@.take(0).filter(keep).map_values(show));
    }
    while i < listings.len()
        invariant
            i <= listings.len(),
            keep == (|l: PluginListing| is_offered(l)),
            show == (|l: PluginListing| listing_json(l)),
            list_of(list@) == listings@.take(i as int).filter(keep).map_values(show),
        decreases listings.len() - i,
    {
        let listing = &listings[i];
        let ghost so_far = listings@.take(i as int).filter(keep);
        proof {
            reveal(Seq::filter);
            assert(listings@.take(i + 1).drop_last() =~= listings@.take(i as int));
            assert(listings@.take(i + 1).last() == listings@[i as int]);
        }
        if !is_excluded_type(listing.engine_type.as_str()) {
            if let Some(defaults) = &listing.defaults {
                let mut out = JsonObject::new();
                out.put_text("type", listing.engine_type.as_str());
                out.put_text("name", listing.name.as_str());
                out.put_text("description", listing.description.as_str());
                out.put_text("category", plugin_type_category(&listing.plugin_type));
                out.put_text("maturity", listing.maturity.as_str());
                out.put("default_parameters", defaults.default_parameters.clone());
                out.put("parameters", plugin_parameter_descriptors(&defaults.parameters));
                add_entry(&mut list, out.finish());
                proof {
                    assert(so_far.push(listings@[i as int]).map_values(show) =~= so_far.map_values(
                        show,
                    ).push(listing_json(listings@[i as int])));
                }
            }
        }
        i = i + 1;
    }
    proof {
        assert(listings@.take(i as int) =~= listings@);
    }
    let mut out = JsonObject::new();
    out.put("plugins", JsonValue::List(list));
    Response::ok(out.finish())
}

/// A parameter is described with its own texts, and with the range, the labels or the choices of its
/// type.
pub proof fn parameters_are_described_by_their_type(spec: ParamSpec)
    ensures
        ({
            let shown = descriptor_json(spec);
            &&& json_member(shown, "key"@) == Some(Json::Text(spec.engine_key@))
            &&& json_member(shown, "name"@) == Some(Json::Text(spec.name@))
            &&& json_member(shown, "unit"@) == Some(Json::Text(spec.unit@))
            &&& json_member(shown, "group"@) == Some(Json::Text(spec.group@))
            &&& json_member(shown, "doc"@) == Some(Json::Text(spec.doc@))
            &&& spec.update_mode is Realtime ==> json_member(shown, "update_mode"@) == Some(
                Json::Text("realtime"@),
            )
            &&& spec.update_mode is Rebuild ==> json_member(shown, "update_mode"@) == Some(
                Json::Text("structural"@),
            )
            &&& spec.param_type matches ParamType::Float { default, min, max, step } ==> {
                &&& json_member(shown, "type"@) == Some(Json::Text("float"@))
                &&& json_member(shown, "default"@) == Some(default@)
                &&& json_member(shown, "min"@) == Some(min@)
                &&& json_member(shown, "max"@) == Some(max@)
                &&& json_member(shown, "step"@) == Some(step@)
            }
            &&& spec.param_type matches ParamType::Int { default, min, max, step } ==> {
                &&& json_member(shown, "type"@) == Some(Json::Text("int"@))
                &&& json_member(shown, "default"@) == Some(default@)
                &&& json_member(shown, "min"@) == Some(min@)
                &&& json_member(shown, "max"@) == Some(max@)
                &&& json_member(shown, "step"@) == Some(step@)
            }
            &&& spec.param_type matches ParamType::Bool { default_on, true_label, false_label } ==> {
                &&& json_member(shown, "type"@) == Some(Json::Text("bool"@))
                &&& json_member(shown, "default"@) == Some(Json::Bool(default_on))
                &&& json_member(shown, "true_label"@) == Some(Json::Text(true_label@))
                &&& json_member(shown, "false_label"@) == Some(Json::Text(false_label@))
            }
            &&& spec.param_type matches ParamType::Choice { default_index, labels } ==> {
                &&& json_member(shown, "type"@) == Some(Json::Text("choice"@))
                &&& tells_count(json_member(shown, "default"@), default_index as int)
                &&& json_member(shown, "choices"@) == Some(text_list(text_models(labels@)))
            }
            &&& spec.param_type is FilePath ==> {
                &&& json_member(shown, "type"@) == Some(Json::Text("file_path"@))
                &&& json_member(shown, "default"@) is None
            }
        }),
{
    reveal_strlit("key");
    assert("key"@.len() == 3);
    assert("key"@[1] == 'e');
    reveal_strlit("doc");
    assert("doc"@.len() == 3);
    assert("doc"@[1] == 'o');
    reveal_strlit("min");
    assert("min"@.len() == 3);
    assert("min"@[1] == 'i');
    reveal_strlit("max");
    assert("max"@.len() == 3);
    assert("max"@[1] == 'a');
    reveal_strlit("name");
    assert("name"@.len() == 4);
    assert("name"@[0] == 'n');
    reveal_strlit("unit");
    assert("unit"@.len() == 4);
    assert("unit"@[0] == 'u');
    reveal_strlit("type");
    assert("type"@.len() == 4);
    assert("type"@[0] == 't');
    reveal_strlit("step");
    assert("step"@.len() == 4);
    assert("step"@[0] == 's');
    reveal_strlit("group");
    assert("group"@.len() == 5);
    reveal_strlit("default");
    assert("default"@.len() == 7);
    assert("default"@[0] == 'd');
    reveal_strlit("choices");
    assert("choices"@.len() == 7);
    assert("choices"@[0] == 'c');
    reveal_strlit("true_label");
    assert("true_label"@.len() == 10);
    reveal_strlit("update_mode");
    assert("update_mode"@.len() == 11);
    assert("update_mode"@[0] == 'u');
    reveal_strlit("false_label");
    assert("false_label"@.len() == 11);
    assert("false_label"@[0] == 'f');
}

/// A plugin is listed with its own texts and with its parameters in their order.
pub proof fn plugins_are_listed_with_their_parameters(listing: PluginListing, defaults: PluginDefaults, i: int)
    requires
        listing.defaults == Some(defaults),
    ensures
        ({
            let shown = listing_json(listing);
            let parameters = json_member(shown, "parameters"@);
            &&& json_member(shown, "type"@) == Some(Json::Text(listing.engine_type@))
            &&& json_member(shown, "name"@) == Some(Json::Text(listing.name@))
            &&& json_member(shown, "description"@) == Some(Json::Text(listing.description@))
            &&& json_member(shown, "category"@) == Some(Json::Text(category_of(listing.plugin_type)))
            &&& json_member(shown, "maturity"@) == Some(Json::Text(listing.maturity@))
            &&& json_member(shown, "default_parameters"@) == Some(defaults.default_parameters@)
            &&& parameters matches Some(Json::List(list)) && list.len() == defaults.parameters@.len() && (0
                <= i < list.len() ==> list[i] == descriptor_json(defaults.parameters@[i]))
        }),
{
    reveal_strlit("type");
    assert("type"@.len() == 4);
    assert("type"@[0] == 't');
    reveal_strlit("name");
    assert("name"@.len() == 4);
    assert("name"@[0] == 'n');
    reveal_strlit("category");
    assert("category"@.len() == 8);
    assert("category"@[0] == 'c');
    reveal_strlit("maturity");
    assert("maturity"@.len() == 8);
    assert("maturity"@[0] == 'm');
    reveal_strlit("parameters");
    assert("parameters"@.len() == 10);
    reveal_strlit("description");
    assert("description"@.len() == 11);
    reveal_strlit("default_parameters");
    assert("default_parameters"@.len() == 18);
}

/// The catalog holds exactly the plugins that users may add, and those that have defaults.
pub proof fn catalogs_hold_what_users_may_add(listings: Seq<PluginListing>, listing: PluginListing)
    ensures
        is_offered(listing) ==> listing.defaults is Some && listing.engine_type@ != "hal_input"@
            && listing.engine_type@ != "hal_output"@ && listing.engine_type@ != "loudness_monitor"@
            && listing.engine_type@ != "spectrum_analyzer"@ && listing.engine_type@ != "resampler"@
            && listing.engine_type@ != "band_split"@ && listing.engine_type@ != "band_merge"@
            && listing.engine_type@ != "ab_compare"@ && listing.engine_type@ != "fletcher_munson"@,
        listing.defaults is Some && !is_offered(listing) ==> listing.engine_type@ == "hal_input"@
            || listing.engine_type@ == "hal_output"@ || listing.engine_type@ == "loudness_monitor"@
            || listing.engine_type@ == "spectrum_analyzer"@ || listing.engine_type@ == "resampler"@
            || listing.engine_type@ == "band_split"@ || listing.engine_type@ == "band_merge"@
            || listing.engine_type@ == "ab_compare"@ || listing.engine_type@ == "fletcher_munson"@,
        offered(Seq::empty()) == Seq::<Json>::empty(),
        is_offered(listing) ==> offered(listings.push(listing)) == offered(listings).push(
            listing_json(listing),
        ),
        !is_offered(listing) ==> offered(listings.push(listing)) == offered(listings),
{
    let keep = |l: PluginListing| is_offered(l);
    reveal(Seq::filter);
    assert(listings.push(listing).drop_last() =~= listings);
    assert(offered(Seq::empty()) =~= Seq::<Json>::empty());
    assert(offered(listings.push(listing)) =~= if is_offered(listing) {
        offered(listings).push(listing_json(listing))
    } else {
        offered(listings)
    });
}

/// Every plugin stands under a heading that fits it.
pub proof fn plugins_stand_under_their_heading(pt: PluginType)
    ensures
        pt is EQ || pt is FletcherMunson || pt is LoudnessCompensation ==> category_of(pt)
            == "EQ & Tone"@,
        pt is LinearPhaseEq ==> category_of(pt) == "EQ"@,
        pt is Gain || pt is Dither || pt is ABCompare || pt is Crossover || pt is BandSplit
            || pt is BandMerge || pt is Crossfeed ==> category_of(pt) == "Utility"@,
        pt is Compressor || pt is Limiter || pt is Gate || pt is Expander || pt is MultibandCompressor
            || pt is MultibandExpander || pt is DeEsser || pt is TransientShaper || pt is DynamicEq
            || pt is SpectralCompressor ==> category_of(pt) == "Dynamics"@,
        pt is AAE || pt is Upmixer || pt is Downmix || pt is MonoToStereo || pt is Matrix
            || pt is ChannelMuteSolo || pt is BinauralDecoder || pt is XTC || pt is Beamformer
            || pt is AmbisonicsDecoder || pt is StereoImager ==> category_of(pt) == "Spatial & Routing"@,
        pt is Convolution || pt is Delay || pt is Saturation ==> category_of(pt) == "Effects"@,
        pt is Denoiser || pt is Declick || pt is HissReducer || pt is SpeechDenoiser || pt is Pnd
            || pt is Aec ==> category_of(pt) == "Restoration"@,
        pt is LoudnessMonitor || pt is SpectrumAnalyzer ==> category_of(pt) == "Monitoring"@,
        pt is External ==> category_of(pt) == "External"@,
{
}

} // verus!
