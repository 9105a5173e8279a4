//! Applying a configuration patch: what is refused, what the patch comes to, and the order of the
//! effects.

use crate::apply::{fallback_channels, generation_json, opt_plan, setting_or};
use crate::driver::DriverStatus;
use crate::graph::{accepts_graphs, MAX_HAL_CHANNELS};
use crate::json::{json_member, Json, JsonNum, JsonObject, JsonValue};
use crate::output_device::{copy_opt_text, is_safe_device, opt_text};
use crate::output_profiles::{
    resolved, with_route, OutputProfile, OutputProfileStore, ProfileModel, StoreModel,
};
use crate::pipeline::{
    channel_text, count_json, device_json, device_value, plan_outcome, spec_plan_outcome,
    PipelinePlan, PipelineSpec, PlanModel, SpecModel,
};
use crate::plugins::PluginGraphConfig;
use crate::reconfigure::is_supported_rate;
use crate::response::{err_response, ok_response, Response, ResponseModel};
use crate::route::{
    adopted, ensure_default_profile, resolve_route_profile, resolve_usable_device, route_profile,
    usable_device, DeviceSearch, SearchModel,
};
use crate::state::{StateModel, SystemwideState};
use crate::text::{decimal, decimal_text, is_blank, join2, join3, same_text, trimmed};
use vstd::prelude::*;

verus! {

/// The settings that a client wants changed.
#[derive(Debug)]
pub struct ConfigurationPatch {
    pub sample_rate: Option<u32>,
    pub buffer_frames: Option<u32>,
    pub input_channels: Option<usize>,
    pub output_channels: Option<usize>,
    pub output_device: Option<String>,
}

/// What a `ConfigurationPatch` stands for.
#[verifier::ext_equal]
pub struct PatchModel {
    pub sample_rate: Option<u32>,
    pub buffer_frames: Option<u32>,
    pub input_channels: Option<usize>,
    pub output_channels: Option<usize>,
    pub output_device: Option<Seq<char>>,
}

impl View for ConfigurationPatch {
    type V = PatchModel;

    open spec fn view(&self) -> PatchModel {
        PatchModel {
            sample_rate: self.sample_rate,
            buffer_frames: self.buffer_frames,
            input_channels: self.input_channels,
            output_channels: self.output_channels,
            output_device: opt_text(self.output_device),
        }
    }
}

/// The complaint about a channel count of one side.
pub open spec fn side_channel_text(side: Seq<char>, channels: usize) -> Seq<char> {
    channel_text("Invalid "@ + side + " channel count: "@, channels)
}

/// Whether a channel count that was given is out of range.
pub open spec fn bad_channels(channels: Option<usize>) -> bool {
    channels is Some && !(1 <= channels->0 <= MAX_HAL_CHANNELS)
}

/// Why a patch is refused at once, or that it is not.
pub open spec fn patch_refusal(p: PatchModel) -> Option<Seq<char>> {
    if p.sample_rate is None && p.buffer_frames is None && p.input_channels is None
        && p.output_channels is None && p.output_device is None {
        Some("Configuration patch must contain at least one field"@)
    } else if p.sample_rate is Some && !is_supported_rate(p.sample_rate->0) {
        Some(
            "Unsupported sample rate: "@ + decimal(p.sample_rate->0 as nat)
                + ". Supported: [44100, 48000, 88200, 96000, 176400, 192000]"@,
        )
    } else if p.buffer_frames is Some && !(64 <= p.buffer_frames->0 <= 4096) {
        Some(
            "Buffer frames must be between 64 and 4096, got: "@ + decimal(
                p.buffer_frames->0 as nat,
            ),
        )
    } else if bad_channels(p.input_channels) {
        Some(side_channel_text("input"@, p.input_channels->0))
    } else if bad_channels(p.output_channels) {
        Some(side_channel_text("output"@, p.output_channels->0))
    } else {
        None
    }
}

fn side_channel_message(side: &str, channels: usize) -> (r: String)
    ensures
        r@ == side_channel_text(side@, channels),
{
    let lead = join3("Invalid ", side, " channel count: ");
    let have = decimal_text(channels as u64);
    let most = decimal_text(MAX_HAL_CHANNELS as u64);
    let text = join3(lead.as_str(), have.as_str(), ". Must be between 1 and ");
    join3(text.as_str(), most.as_str(), ".")
}

fn supported_rate(rate: u32) -> (r: bool)
    ensures
        r == is_supported_rate(rate),
{
    rate == 44100 || rate == 48000 || rate == 88200 || rate == 96000 || rate == 176400 || rate
        == 192000
}

/// Why a patch is refused at once.
pub fn refuse_patch(patch: &ConfigurationPatch) -> (r: Option<String>)
    ensures
        opt_text(r) == patch_refusal(patch@),
{
    if patch.sample_rate.is_none() && patch.buffer_frames.is_none() && patch.input_channels.is_none()
        && patch.output_channels.is_none() && patch.output_device.is_none() {
        return Some("Configuration patch must contain at least one field".to_owned());
    }
    if let Some(rate) = patch.sample_rate {
        if !supported_rate(rate) {
            let have = decimal_text(rate as u64);
            return Some(
                join3(
                    "Unsupported sample rate: ",
                    have.as_str(),
                    ". Supported: [44100, 48000, 88200, 96000, 176400, 192000]",
                ),
            );
        }
    }
    if let Some(frames) = patch.buffer_frames {
        if frames < 64 || frames > 4096 {
            let have = decimal_text(frames as u64);
            return Some(
                join2("Buffer frames must be between 64 and 4096, got: ", have.as_str()),
            );
        }
    }
    if let Some(channels) = patch.input_channels {
        if channels < 1 || channels > MAX_HAL_CHANNELS {
            return Some(side_channel_message("input", channels));
        }
    }
    if let Some(channels) = patch.output_channels {
        if channels < 1 || channels > MAX_HAL_CHANNELS {
            return Some(side_channel_message("output", channels));
        }
    }
    None
}

/// Where a change stands: what it has asked for and waits to hear of.
#[derive(Debug, Clone, Copy, PartialEq, Eq, Structural)]
pub enum ConfigurationPhase {
    ReadingDriver,
    Finding,
    SavingDefault,
    Probing,
    Applying,
    Persisting,
    SavingRoute,
    ReadingApplied,
    Finished,
}

/// What a change asks of its surroundings.
#[derive(Debug)]
pub enum ConfigurationAction {
    /// Report the driver's status.
    ReadDriver,
    /// Search for a device.
    FindDevice(String),
    /// Save the profile store.
    SaveProfiles,
    /// Report how many channels a device plays at a rate.
    ProbeChannels { device: String, sample_rate: u32 },
    /// Apply a plan.
    Apply {
        plan: PipelinePlan,
        status: DriverStatus,
        sample_rate: u32,
        buffer_frames: u32,
        force: bool,
    },
    /// Remember the device for the next start of the daemon.
    PersistDevice(String),
    /// Answer the client.
    Finish(Response),
}

/// What a `ConfigurationAction` stands for.
pub enum ConfigurationAct {
    ReadDriver,
    FindDevice(Seq<char>),
    SaveProfiles,
    ProbeChannels { device: Seq<char>, sample_rate: u32 },
    Apply {
        plan: PlanModel,
        status: DriverStatus,
        sample_rate: u32,
        buffer_frames: u32,
        force: bool,
    },
    PersistDevice(Seq<char>),
    Finish(ResponseModel),
}

impl View for ConfigurationAction {
    type V = ConfigurationAct;

    open spec fn view(&self) -> ConfigurationAct {
        match *self {
            ConfigurationAction::ReadDriver => ConfigurationAct::ReadDriver,
            ConfigurationAction::FindDevice(device) => ConfigurationAct::FindDevice(device@),
            ConfigurationAction::SaveProfiles => ConfigurationAct::SaveProfiles,
            ConfigurationAction::ProbeChannels { device, sample_rate } => ConfigurationAct::ProbeChannels {
                device: device@,
                sample_rate,
            },
            ConfigurationAction::Apply { plan, status, sample_rate, buffer_frames, force } => ConfigurationAct::Apply {
                plan: plan@,
                status,
                sample_rate,
                buffer_frames,
                force,
            },
            ConfigurationAction::PersistDevice(device) => ConfigurationAct::PersistDevice(device@),
            ConfigurationAction::Finish(response) => ConfigurationAct::Finish(response@),
        }
    }
}

/// What the surroundings answer.
#[derive(Debug)]
pub enum ConfigurationReply {
    /// It is done.
    Done,
    /// The driver's status.
    Driver(DriverStatus),
    /// What the search gave.
    Search(DeviceSearch),
    /// Whether the store reached the disk, or why it could not be saved.
    Saved(Result<bool, String>),
    /// How many channels the device plays, and the name to show for it.
    Probed { channels: Result<usize, String>, shown: String },
    /// How applying the plan came out.
    Applied(Response),
}

/// What a `ConfigurationReply` stands for.
pub enum ConfigurationReport {
    Done,
    Driver(DriverStatus),
    Search(SearchModel),
    Saved(Result<bool, Seq<char>>),
    Probed { channels: Result<usize, Seq<char>>, shown: Seq<char> },
    Applied(ResponseModel),
}

impl View for ConfigurationReply {
    type V = ConfigurationReport;

    open spec fn view(&self) -> ConfigurationReport {
        match *self {
            ConfigurationReply::Done => ConfigurationReport::Done,
            ConfigurationReply::Driver(status) => ConfigurationReport::Driver(status),
            ConfigurationReply::Search(search) => ConfigurationReport::Search(search@),
            ConfigurationReply::Saved(Ok(on_disk)) => ConfigurationReport::Saved(Ok(on_disk)),
            ConfigurationReply::Saved(Err(e)) => ConfigurationReport::Saved(Err(e@)),
            ConfigurationReply::Probed { channels: Ok(n), shown } => ConfigurationReport::Probed {
                channels: Ok(n),
                shown: shown@,
            },
            ConfigurationReply::Probed { channels: Err(e), shown } => ConfigurationReport::Probed {
                channels: Err(e@),
                shown: shown@,
            },
            ConfigurationReply::Applied(response) => ConfigurationReport::Applied(response@),
        }
    }
}

/// A configuration change under way.
#[derive(Debug)]
pub struct ConfigurationChange {
    pub phase: ConfigurationPhase,
    pub patch: ConfigurationPatch,
    /// The driver's status before the change.
    pub status: DriverStatus,
    pub sample_rate: u32,
    pub buffer_frames: u32,
    /// The name that the new device is selected under.
    pub device: Option<String>,
    /// The profile whose chain goes with the new device.
    pub profile: Option<String>,
    pub plan: Option<PipelinePlan>,
}

/// What a `ConfigurationChange` stands for.
#[verifier::ext_equal]
pub struct ConfigurationModel {
    pub phase: ConfigurationPhase,
    pub patch: PatchModel,
    pub status: DriverStatus,
    pub sample_rate: u32,
    pub buffer_frames: u32,
    pub device: Option<Seq<char>>,
    pub profile: Option<Seq<char>>,
    pub plan: Option<PlanModel>,
}

impl View for ConfigurationChange {
    type V = ConfigurationModel;

    open spec fn view(&self) -> ConfigurationModel {
        ConfigurationModel {
            phase: self.phase,
            patch: self.patch@,
            status: self.status,
            sample_rate: self.sample_rate,
            buffer_frames: self.buffer_frames,
            device: opt_text(self.device),
            profile: opt_text(self.profile),
            plan: opt_plan(self.plan),
        }
    }
}

/// The end of a change.
pub open spec fn configuration_done(c: ConfigurationModel, response: ResponseModel) -> (
    ConfigurationModel,
    ConfigurationAct,
) {
    (
        ConfigurationModel { phase: ConfigurationPhase::Finished, ..c },
        ConfigurationAct::Finish(response),
    )
}

/// The pipeline that a patch asks for.
pub open spec fn patched_spec(desired: SpecModel, c: ConfigurationModel, profile: Option<ProfileModel>) -> SpecModel {
    SpecModel {
        output_device: if c.device is Some { c.device } else { desired.output_device },
        user_plugins: match profile {
            Some(p) => p.plugins,
            None => desired.user_plugins,
        },
        user_graph: match profile {
            Some(p) => p.graph,
            None => desired.user_graph,
        },
        input_channels: match c.patch.input_channels {
            Some(channels) => channels,
            None => desired.input_channels,
        },
        output_channels: match c.patch.output_channels {
            Some(channels) => channels,
            None => desired.output_channels,
        },
    }
}

/// The plan is applied. The driver format is requested in any case where the patch names a part of
/// it.
pub open spec fn configuration_apply(c: ConfigurationModel) -> (ConfigurationModel, ConfigurationAct) {
    (
        ConfigurationModel { phase: ConfigurationPhase::Applying, ..c },
        ConfigurationAct::Apply {
            plan: c.plan->0,
            status: c.status,
            sample_rate: c.sample_rate,
            buffer_frames: c.buffer_frames,
            force: c.patch.sample_rate is Some || c.patch.buffer_frames is Some,
        },
    )
}

/// What follows from the plan for a patch: the device's channels are looked at first.
pub open spec fn configuration_planned(
    c: ConfigurationModel,
    profile: Option<ProfileModel>,
    out: Result<PlanModel, Seq<char>>,
) -> (ConfigurationModel, ConfigurationAct) {
    match out {
        Err(e) => configuration_done(c, err_response(e)),
        Ok(plan) => {
            let next = ConfigurationModel {
                profile: match profile {
                    Some(p) => Some(p.id),
                    None => None,
                },
                plan: Some(plan),
                ..c
            };
            match plan.spec.output_device {
                Some(device) => (
                    ConfigurationModel { phase: ConfigurationPhase::Probing, ..next },
                    ConfigurationAct::ProbeChannels { device, sample_rate: c.sample_rate },
                ),
                None => configuration_apply(next),
            }
        },
    }
}

/// What preparing the plan may lead to.
pub open spec fn configuration_plans<F: Fn(&PluginGraphConfig) -> Result<(), String>>(
    validate: F,
    configured: Option<Seq<char>>,
    c: ConfigurationModel,
    s: StateModel,
    profile: Option<ProfileModel>,
    after: (ConfigurationModel, ConfigurationAct),
) -> bool {
    exists|out: Result<PlanModel, Seq<char>>|
        (#[trigger] spec_plan_outcome(
            validate,
            patched_spec(s.pipeline.desired, c, profile),
            fallback_channels(c.status),
            configured,
            out,
        )) && after == configuration_planned(c, profile, out)
}

/// What choosing the profile of the new device and preparing the plan may lead to.
pub open spec fn configuration_routes<F: Fn(&PluginGraphConfig) -> Result<(), String>>(
    validate: F,
    configured: Option<Seq<char>>,
    c: ConfigurationModel,
    s: StateModel,
    store: StoreModel,
    after: (ConfigurationModel, ConfigurationAct),
) -> bool {
    match route_profile(store, None, c.device->0, None) {
        Err(e) => after == configuration_done(c, err_response(e)),
        Ok(profile) => configuration_plans(validate, configured, c, s, Some(profile), after),
    }
}

/// What the device of a patch was meant for.
pub open spec fn patch_role() -> Seq<char> {
    "' is a virtual/loopback device and cannot be used as the Systemwide speaker output"@
}

/// The complaint about a device with too few channels.
pub open spec fn narrow_device_text(shown: Seq<char>, most: usize, rate: u32, wanted: usize) -> Seq<char> {
    "Output device '"@ + shown + "' supports at most "@ + decimal(most as nat) + " channels at "@
        + decimal(rate as nat) + "Hz, but configuration requires "@ + decimal(wanted as nat)
}

fn narrow_device_message(shown: &str, most: usize, rate: u32, wanted: usize) -> (r: String)
    ensures
        r@ == narrow_device_text(shown@, most, rate, wanted),
{
    let most_text = decimal_text(most as u64);
    let rate_text = decimal_text(rate as u64);
    let want_text = decimal_text(wanted as u64);
    let a = join3("Output device '", shown, "' supports at most ");
    let b = join3(a.as_str(), most_text.as_str(), " channels at ");
    let c = join3(b.as_str(), rate_text.as_str(), "Hz, but configuration requires ");
    join2(c.as_str(), want_text.as_str())
}

/// The route is recorded where the patch brought a new device and profile, and then the driver's
/// format is read once more.
pub open spec fn configuration_recorded(c: ConfigurationModel, store: StoreModel) -> (
    ConfigurationModel,
    StoreModel,
    ConfigurationAct,
) {
    match (c.profile, c.plan->0.spec.output_device) {
        (Some(profile), Some(device)) => (
            ConfigurationModel { phase: ConfigurationPhase::SavingRoute, ..c },
            with_route(store, None, device, profile),
            ConfigurationAct::SaveProfiles,
        ),
        _ => (
            ConfigurationModel { phase: ConfigurationPhase::ReadingApplied, ..c },
            store,
            ConfigurationAct::ReadDriver,
        ),
    }
}

/// What applying the plan leads to.
pub open spec fn configuration_applied(
    c: ConfigurationModel,
    s: StateModel,
    store: StoreModel,
    response: ResponseModel,
) -> (ConfigurationModel, StoreModel, ConfigurationAct) {
    if !response.success {
        let (next, act) = configuration_done(
            c,
            ResponseModel { data: Some(generation_json(s.pipeline.generation)), ..response },
        );
        (next, store, act)
    } else {
        match c.plan->0.spec.output_device {
            Some(device) if c.patch.output_device is Some => (
                ConfigurationModel { phase: ConfigurationPhase::Persisting, ..c },
                store,
                ConfigurationAct::PersistDevice(device),
            ),
            _ => configuration_recorded(c, store),
        }
    }
}

/// A format as clients see it.
pub open spec fn format_json(
    sample_rate: u32,
    buffer_frames: u32,
    input_channels: int,
    output_channels: int,
    device: Option<Seq<char>>,
) -> Json {
    Json::Object(
        map![
            "sample_rate"@ => count_json(sample_rate as int),
            "buffer_frames"@ => count_json(buffer_frames as int),
            "input_channels"@ => count_json(input_channels),
            "output_channels"@ => count_json(output_channels),
            "output_device"@ => device_json(device),
        ],
    )
}

/// The answer to a patch that was applied: what was requested, what the driver runs at, and whether
/// they differ.
pub open spec fn configuration_json(c: ConfigurationModel, generation: u64, applied: DriverStatus) -> Json {
    let spec = c.plan->0.spec;
    Json::Object(
        map![
            "generation"@ => count_json(generation as int),
            "sample_rate"@ => count_json(c.sample_rate as int),
            "buffer_frames"@ => count_json(c.buffer_frames as int),
            "requested"@ => format_json(
                c.sample_rate,
                c.buffer_frames,
                spec.input_channels as int,
                spec.output_channels as int,
                spec.output_device,
            ),
            "applied"@ => format_json(
                applied.sample_rate,
                applied.buffer_frames,
                applied.channel_count as int,
                spec.output_channels as int,
                spec.output_device,
            ),
            "negotiated"@ => Json::Bool(
                applied.sample_rate != c.sample_rate || applied.buffer_frames != c.buffer_frames
                    || applied.channel_count != spec.input_channels,
            ),
        ],
    )
}

/// Whether `reply` answers what the change asked for.
pub open spec fn configuration_fits(c: ConfigurationModel, reply: ConfigurationReport) -> bool {
    match c.phase {
        ConfigurationPhase::ReadingDriver => reply is Driver,
        ConfigurationPhase::Finding => reply is Search && c.patch.output_device is Some,
        ConfigurationPhase::SavingDefault => reply is Saved && c.device is Some,
        ConfigurationPhase::Probing => reply is Probed && c.plan is Some,
        ConfigurationPhase::Applying => reply is Applied && c.plan is Some,
        ConfigurationPhase::Persisting => reply is Done && c.plan is Some,
        ConfigurationPhase::SavingRoute => reply is Saved && c.plan is Some,
        ConfigurationPhase::ReadingApplied => reply is Driver && c.plan is Some,
        ConfigurationPhase::Finished => false,
    }
}

/// The change once the driver's status is known: what the patch leaves open is as it is.
pub open spec fn configuration_from(c: ConfigurationModel, status: DriverStatus) -> ConfigurationModel {
    ConfigurationModel {
        status,
        sample_rate: match c.patch.sample_rate {
            Some(rate) => rate,
            None => setting_or(status.sample_rate, 48000),
        },
        buffer_frames: match c.patch.buffer_frames {
            Some(frames) => frames,
            None => setting_or(status.buffer_frames, 512),
        },
        ..c
    }
}

/// What a reply may lead to.
pub open spec fn configuration_steps<F: Fn(&PluginGraphConfig) -> Result<(), String>>(
    validate: F,
    configured: Option<Seq<char>>,
    now: u64,
    c: ConfigurationModel,
    s: StateModel,
    store: StoreModel,
    reply: ConfigurationReport,
    after: ConfigurationModel,
    store_after: StoreModel,
    act: ConfigurationAct,
) -> bool {
    match (c.phase, reply) {
        (ConfigurationPhase::ReadingDriver, ConfigurationReport::Driver(status)) => {
            let known = configuration_from(c, status);
            store_after == store && match c.patch.output_device {
                Some(device) => if trimmed(device).len() == 0 {
                    (after, act) == configuration_done(
                        known,
                        err_response("Output device must not be empty"@),
                    )
                } else {
                    after == (ConfigurationModel { phase: ConfigurationPhase::Finding, ..known }) && act
                        == ConfigurationAct::FindDevice(device)
                },
                None => configuration_plans(validate, configured, known, s, None, (after, act)),
            }
        },
        (ConfigurationPhase::Finding, ConfigurationReport::Search(search)) => match usable_device(
            c.patch.output_device->0,
            search,
            patch_role(),
        ) {
            Err(e) => store_after == store && (after, act) == configuration_done(c, err_response(e)),
            Ok(names) => {
                let found = ConfigurationModel { device: Some(names.1), ..c };
                if s.pipeline.desired.output_device == Some(names.1) {
                    store_after == store && configuration_plans(
                        validate,
                        configured,
                        found,
                        s,
                        None,
                        (after, act),
                    )
                } else if store.profiles.dom().len() == 0 {
                    store_after == adopted(s, store, now) && after == (ConfigurationModel {
                        phase: ConfigurationPhase::SavingDefault,
                        ..found
                    }) && act == ConfigurationAct::SaveProfiles
                } else {
                    store_after == store && configuration_routes(
                        validate,
                        configured,
                        found,
                        s,
                        store,
                        (after, act),
                    )
                }
            },
        },
        (ConfigurationPhase::SavingDefault, ConfigurationReport::Saved(Err(e))) => store_after == store && (
        after,
        act,
        ) == configuration_done(c, err_response(e)),
        (ConfigurationPhase::SavingDefault, _) => store_after == store && configuration_routes(
            validate,
            configured,
            c,
            s,
            store,
            (after, act),
        ),
        (ConfigurationPhase::Probing, ConfigurationReport::Probed { channels: Err(e), shown }) => store_after
            == store && (after, act) == configuration_done(c, err_response(e)),
        (ConfigurationPhase::Probing, ConfigurationReport::Probed { channels: Ok(most), shown }) => store_after
            == store && (after, act) == if c.plan->0.spec.output_channels > most {
            configuration_done(
                c,
                err_response(
                    narrow_device_text(shown, most, c.sample_rate, c.plan->0.spec.output_channels),
                ),
            )
        } else {
            configuration_apply(c)
        },
        (ConfigurationPhase::Applying, ConfigurationReport::Applied(response)) => (
            after,
            store_after,
            act,
        ) == configuration_applied(c, s, store, response),
        (ConfigurationPhase::Persisting, _) => (after, store_after, act) == configuration_recorded(c, store),
        (ConfigurationPhase::SavingRoute, _) => store_after == store && after == (ConfigurationModel {
            phase: ConfigurationPhase::ReadingApplied,
            ..c
        }) && act == ConfigurationAct::ReadDriver,
        (ConfigurationPhase::ReadingApplied, ConfigurationReport::Driver(status)) => store_after == store && (
        after,
        act,
        ) == configuration_done(
            c,
            ok_response(configuration_json(c, s.pipeline.generation, status)),
        ),
        _ => false,
    }
}

fn format_value(
    sample_rate: u32,
    buffer_frames: u32,
    input_channels: u64,
    output_channels: u64,
    device: &Option<String>,
) -> (r: JsonValue)
    ensures
        r@ == format_json(
            sample_rate,
            buffer_frames,
            input_channels as int,
            output_channels as int,
            opt_text(*device),
        ),
{
    let mut out = JsonObject::new();
    out.put_unsigned("sample_rate", sample_rate as u64);
    out.put_unsigned("buffer_frames", buffer_frames as u64);
    out.put_unsigned("input_channels", input_channels);
    out.put_unsigned("output_channels", output_channels);
    out.put("output_device", device_value(device));
    out.finish()
}

impl ConfigurationChange {
    /// Begins a change, or says why the patch is refused.
    pub fn begin(patch: ConfigurationPatch) -> (r: Result<(ConfigurationChange, ConfigurationAction), Response>)
        ensures
            match patch_refusal(patch@) {
                Some(error) => r matches Err(response) && response@ == err_response(error),
                None => r matches Ok(started) && started.1@ == ConfigurationAct::ReadDriver
                    && started.0@.phase == ConfigurationPhase::ReadingDriver && started.0@.patch
                    == patch@ && started.0@.device is None && started.0@.profile is None
                    && started.0@.plan is None,
            },
    {
        if let Some(error) = refuse_patch(&patch) {
            return Err(Response::err(error));
        }
        let change = ConfigurationChange {
            phase: ConfigurationPhase::ReadingDriver,
            patch,
            status: DriverStatus::new(false, false, false, 0, 0, 0, "", false),
            sample_rate: 0,
            buffer_frames: 0,
            device: None,
            profile: None,
            plan: None,
        };
        Ok((change, ConfigurationAction::ReadDriver))
    }

    fn done(&mut self, response: Response) -> (r: ConfigurationAction)
        ensures
            (final(self)@, r@) == configuration_done(old(self)@, response@),
    {
        self.phase = ConfigurationPhase::Finished;
        ConfigurationAction::Finish(response)
    }

    fn apply(&mut self) -> (r: ConfigurationAction)
        requires
            old(self)@.plan is Some,
        ensures
            (final(self)@, r@) == configuration_apply(old(self)@),
    {
        self.phase = ConfigurationPhase::Applying;
        let plan = match &self.plan {
            Some(plan) => plan.clone(),
            None => {
                proof {
                    assert(false);
                }
                return ConfigurationAction::ReadDriver;
            },
        };
        ConfigurationAction::Apply {
            plan,
            status: self.status,
            sample_rate: self.sample_rate,
            buffer_frames: self.buffer_frames,
            force: self.patch.sample_rate.is_some() || self.patch.buffer_frames.is_some(),
        }
    }

    fn plan_change<F: Fn(&PluginGraphConfig) -> Result<(), String>>(
        &mut self,
        state: &SystemwideState,
        profile: Option<OutputProfile>,
        configured: &Option<String>,
        validate: &F,
    ) -> (r: ConfigurationAction)
        requires
            accepts_graphs(*validate),
        ensures
            configuration_plans(
                *validate,
                opt_text(*configured),
                old(self)@,
                state@,
                opt_profile(profile),
                (final(self)@, r@),
            ),
    {
        let ghost before = self@;
        let ghost kept = opt_profile(profile);
        let desired = state.desired_spec();
        let fallback: usize = if self.status.channel_count > 0 {
            self.status.channel_count as usize
        } else {
            2
        };
        let (chain, graph, profile_id) = match profile {
            Some(p) => (p.plugins, p.graph, Some(p.id)),
            None => (desired.user_plugins, desired.user_graph, None),
        };
        let next = PipelineSpec {
            output_device: match &self.device {
                Some(device) => Some(device.clone()),
                None => desired.output_device,
            },
            user_plugins: chain,
            user_graph: graph,
            input_channels: match self.patch.input_channels {
                Some(channels) => channels,
                None => desired.input_channels,
            },
            output_channels: match self.patch.output_channels {
                Some(channels) => channels,
                None => desired.output_channels,
            },
        };
        proof {
            assert(next@ =~= patched_spec(state@.pipeline.desired, before, kept));
        }
        let planned = state.prepare_from_spec(&next, fallback, configured, validate);
        let ghost out = plan_outcome(planned);
        proof {
            assert(spec_plan_outcome(
                *validate,
                patched_spec(state@.pipeline.desired, before, kept),
                fallback_channels(before.status),
                opt_text(*configured),
                out,
            ));
        }
        let action = match planned {
            Err(error) => self.done(Response::err(error)),
            Ok(plan) => {
                let device = copy_opt_text(&plan.spec.output_device);
                self.profile = profile_id;
                self.plan = Some(plan);
                match device {
                    Some(device) => {
                        self.phase = ConfigurationPhase::Probing;
                        ConfigurationAction::ProbeChannels { device, sample_rate: self.sample_rate }
                    },
                    None => self.apply(),
                }
            },
        };
        proof {
            assert((self@, action@) == configuration_planned(before, kept, out));
        }
        action
    }

    fn route<F: Fn(&PluginGraphConfig) -> Result<(), String>>(
        &mut self,
        state: &SystemwideState,
        store: &OutputProfileStore,
        configured: &Option<String>,
        validate: &F,
    ) -> (r: ConfigurationAction)
        requires
            accepts_graphs(*validate),
            store.wf(),
            old(self)@.device is Some,
        ensures
            configuration_routes(
                *validate,
                opt_text(*configured),
                old(self)@,
                state@,
                store@,
                (final(self)@, r@),
            ),
    {
        let device = match &self.device {
            Some(device) => device.clone(),
            None => {
                proof {
                    assert(false);
                }
                return ConfigurationAction::ReadDriver;
            },
        };
        match resolve_route_profile(store, &None, device.as_str(), &None) {
            Err(error) => self.done(Response::err(error)),
            Ok(profile) => self.plan_change(state, Some(profile), configured, validate),
        }
    }

    fn driver_known<F: Fn(&PluginGraphConfig) -> Result<(), String>>(
        &mut self,
        state: &SystemwideState,
        status: DriverStatus,
        configured: &Option<String>,
        validate: &F,
    ) -> (r: ConfigurationAction)
        requires
            accepts_graphs(*validate),
            old(self)@.phase == ConfigurationPhase::ReadingDriver,
        ensures
            forall|now: u64, store: StoreModel| #[trigger]
                configuration_steps(
                    *validate,
                    opt_text(*configured),
                    now,
                    old(self)@,
                    state@,
                    store,
                    ConfigurationReport::Driver(status),
                    final(self)@,
                    store,
                    r@,
                ),
    {
        self.status = status;
        self.sample_rate = match self.patch.sample_rate {
            Some(rate) => rate,
            None => if status.sample_rate > 0 { status.sample_rate } else { 48000 },
        };
        self.buffer_frames = match self.patch.buffer_frames {
            Some(frames) => frames,
            None => if status.buffer_frames > 0 { status.buffer_frames } else { 512 },
        };
        proof {
            assert(self@ =~= configuration_from(old(self)@, status));
        }
        let wanted = copy_opt_text(&self.patch.output_device);
        match wanted {
            Some(device) => {
                if is_blank(device.as_str()) {
                    self.done(Response::err("Output device must not be empty".to_owned()))
                } else {
                    self.phase = ConfigurationPhase::Finding;
                    ConfigurationAction::FindDevice(device)
                }
            },
            None => self.plan_change(state, None, configured, validate),
        }
    }

    fn searched<F: Fn(&PluginGraphConfig) -> Result<(), String>>(
        &mut self,
        state: &SystemwideState,
        store: &mut OutputProfileStore,
        search: DeviceSearch,
        configured: &Option<String>,
        validate: &F,
        now_unix_ms: u64,
    ) -> (r: ConfigurationAction)
        requires
            accepts_graphs(*validate),
            old(store).wf(),
            old(self)@.phase == ConfigurationPhase::Finding,
            old(self)@.patch.output_device is Some,
        ensures
            final(store).wf(),
            configuration_steps(
                *validate,
                opt_text(*configured),
                now_unix_ms,
                old(self)@,
                state@,
                old(store)@,
                ConfigurationReport::Search(search@),
                final(self)@,
                final(store)@,
                r@,
            ),
    {
        let requested = match &self.patch.output_device {
            Some(device) => device.clone(),
            None => {
                proof {
                    assert(false);
                }
                return ConfigurationAction::ReadDriver;
            },
        };
        match resolve_usable_device(
            requested.as_str(),
            search,
            "' is a virtual/loopback device and cannot be used as the Systemwide speaker output",
        ) {
            Err(error) => self.done(Response::err(error)),
            Ok((resolved_name, stored_as)) => {
                let same = match state.selected_output_device() {
                    Some(selected) => same_text(selected.as_str(), stored_as.as_str()),
                    None => false,
                };
                self.device = Some(stored_as);
                if same {
                    self.plan_change(state, None, configured, validate)
                } else if ensure_default_profile(state, store, now_unix_ms) {
                    self.phase = ConfigurationPhase::SavingDefault;
                    ConfigurationAction::SaveProfiles
                } else {
                    self.route(state, store, configured, validate)
                }
            },
        }
    }

    fn probed(&mut self, channels: Result<usize, String>, shown: String) -> (r: ConfigurationAction)
        requires
            old(self)@.plan is Some,
        ensures
            match channels {
                Err(e) => (final(self)@, r@) == configuration_done(old(self)@, err_response(e@)),
                Ok(most) => (final(self)@, r@) == if old(self)@.plan->0.spec.output_channels > most {
                    configuration_done(
                        old(self)@,
                        err_response(
                            narrow_device_text(
                                shown@,
                                most,
                                old(self)@.sample_rate,
                                old(self)@.plan->0.spec.output_channels,
                            ),
                        ),
                    )
                } else {
                    configuration_apply(old(self)@)
                },
            },
    {
        let wanted: usize = match &self.plan {
            Some(plan) => plan.spec.output_channels,
            None => 0,
        };
        match channels {
            Err(error) => self.done(Response::err(error)),
            Ok(most) => {
                if wanted > most {
                    let text = narrow_device_message(shown.as_str(), most, self.sample_rate, wanted);
                    self.done(Response::err(text))
                } else {
                    self.apply()
                }
            },
        }
    }

    fn plan_device(&self) -> (r: Option<String>)
        requires
            self@.plan is Some,
        ensures
            opt_text(r) == self@.plan->0.spec.output_device,
    {
        match &self.plan {
            Some(plan) => copy_opt_text(&plan.spec.output_device),
            None => None,
        }
    }

    fn record(&mut self, store: &mut OutputProfileStore) -> (r: ConfigurationAction)
        requires
            old(store).wf(),
            old(self)@.plan is Some,
        ensures
            final(store).wf(),
            (final(self)@, final(store)@, r@) == configuration_recorded(old(self)@, old(store)@),
    {
        let device = self.plan_device();
        match (&self.profile, device) {
            (Some(profile), Some(device)) => {
                store.record_route(None, device.as_str(), profile.as_str());
                self.phase = ConfigurationPhase::SavingRoute;
                ConfigurationAction::SaveProfiles
            },
            _ => {
                self.phase = ConfigurationPhase::ReadingApplied;
                ConfigurationAction::ReadDriver
            },
        }
    }

    fn applied(&mut self, state: &SystemwideState, store: &mut OutputProfileStore, response: Response) -> (r:
        ConfigurationAction)
        requires
            old(store).wf(),
            old(self)@.plan is Some,
        ensures
            final(store).wf(),
            (final(self)@, final(store)@, r@) == configuration_applied(
                old(self)@,
                state@,
                old(store)@,
                response@,
            ),
    {
        if !response.success {
            let mut data = JsonObject::new();
            data.put_unsigned("generation", state.generation());
            return self.done(
                Response {
                    success: response.success,
                    data: Some(data.finish()),
                    error: response.error,
                },
            );
        }
        let device = self.plan_device();
        match device {
            Some(device) if self.patch.output_device.is_some() => {
                self.phase = ConfigurationPhase::Persisting;
                ConfigurationAction::PersistDevice(device)
            },
            _ => self.record(store),
        }
    }

    fn answer(&mut self, state: &SystemwideState, applied: DriverStatus) -> (r: ConfigurationAction)
        requires
            old(self)@.plan is Some,
        ensures
            (final(self)@, r@) == configuration_done(
                old(self)@,
                ok_response(configuration_json(old(self)@, state@.pipeline.generation, applied)),
            ),
    {
        let device = self.plan_device();
        let (inputs, outputs) = match &self.plan {
            Some(plan) => (plan.spec.input_channels, plan.spec.output_channels),
            None => (0, 0),
        };
        let mut out = JsonObject::new();
        out.put_unsigned("generation", state.generation());
        out.put_unsigned("sample_rate", self.sample_rate as u64);
        out.put_unsigned("buffer_frames", self.buffer_frames as u64);
        out.put(
            "requested",
            format_value(
                self.sample_rate,
                self.buffer_frames,
                inputs as u64,
                outputs as u64,
                &device,
            ),
        );
        out.put(
            "applied",
            format_value(
                applied.sample_rate,
                applied.buffer_frames,
                applied.channel_count as u64,
                outputs as u64,
                &device,
            ),
        );
        out.put_bool(
            "negotiated",
            applied.sample_rate != self.sample_rate || applied.buffer_frames != self.buffer_frames
                || applied.channel_count as usize != inputs,
        );
        self.done(Response::ok(out.finish()))
    }

    /// Takes the answer to the last action and says what to do next.
    pub fn step<F: Fn(&PluginGraphConfig) -> Result<(), String>>(
        &mut self,
        state: &SystemwideState,
        store: &mut OutputProfileStore,
        reply: ConfigurationReply,
        configured: &Option<String>,
        validate: &F,
        now_unix_ms: u64,
    ) -> (r: ConfigurationAction)
        requires
            accepts_graphs(*validate),
            old(store).wf(),
            configuration_fits(old(self)@, reply@),
        ensures
            final(store).wf(),
            configuration_steps(
                *validate,
                opt_text(*configured),
                now_unix_ms,
                old(self)@,
                state@,
                old(store)@,
                reply@,
                final(self)@,
                final(store)@,
                r@,
            ),
    {
        match (self.phase, reply) {
            (ConfigurationPhase::ReadingDriver, ConfigurationReply::Driver(status)) => self.driver_known(
                state,
                status,
                configured,
                validate,
            ),
            (ConfigurationPhase::Finding, ConfigurationReply::Search(search)) => self.searched(
                state,
                store,
                search,
                configured,
                validate,
                now_unix_ms,
            ),
            (ConfigurationPhase::SavingDefault, ConfigurationReply::Saved(Err(error))) => self.done(
                Response::err(error),
            ),
            (ConfigurationPhase::SavingDefault, _) => self.route(state, store, configured, validate),
            (ConfigurationPhase::Probing, ConfigurationReply::Probed { channels, shown }) => self.probed(
                channels,
                shown,
            ),
            (ConfigurationPhase::Applying, ConfigurationReply::Applied(response)) => self.applied(
                state,
                store,
                response,
            ),
            (ConfigurationPhase::Persisting, _) => self.record(store),
            (ConfigurationPhase::SavingRoute, _) => {
                self.phase = ConfigurationPhase::ReadingApplied;
                ConfigurationAction::ReadDriver
            },
            (ConfigurationPhase::ReadingApplied, ConfigurationReply::Driver(status)) => self.answer(
                state,
                status,
            ),
            _ => {
                proof {
                    assert(false);
                }
                ConfigurationAction::ReadDriver
            },
        }
    }
}

/// The view of an optional profile.
pub open spec fn opt_profile(profile: Option<OutputProfile>) -> Option<ProfileModel> {
    match profile {
        Some(p) => Some(p@),
        None => None,
    }
}

/// A patch that leaves the device as it is keeps the live chain, and a patch that brings a device
/// takes over that device's profile: the plan carries the chain of the one or the other.
pub proof fn patches_keep_or_bring_a_chain<F: Fn(&PluginGraphConfig) -> Result<(), String>>(
    validate: F,
    configured: Option<Seq<char>>,
    c: ConfigurationModel,
    s: StateModel,
    profile: Option<ProfileModel>,
    after: (ConfigurationModel, ConfigurationAct),
)
    requires
        configuration_plans(validate, configured, c, s, profile, after),
        after.0.phase != ConfigurationPhase::Finished,
    ensures
        after.0.plan is Some,
        ({
            let plan = after.0.plan->0.spec;
            let graph = match profile {
                Some(p) => p.graph,
                None => s.pipeline.desired.user_graph,
            };
            let plugins = match profile {
                Some(p) => p.plugins,
                None => s.pipeline.desired.user_plugins,
            };
            &&& plan.user_graph == graph
            &&& graph is None ==> plan.user_plugins == crate::plugins::kept_plugins(plugins)
            &&& plan.output_device is Some ==> is_safe_device(plan.output_device->0)
        }),
{
    let out = choose|out: Result<PlanModel, Seq<char>>|
        (#[trigger] spec_plan_outcome(
            validate,
            patched_spec(s.pipeline.desired, c, profile),
            fallback_channels(c.status),
            configured,
            out,
        )) && after == configuration_planned(c, profile, out);
    crate::pipeline::plans_play_to_safe_devices(
        validate,
        patched_spec(s.pipeline.desired, c, profile),
        fallback_channels(c.status),
        configured,
        out->Ok_0,
    );
}

/// A patch changes what is remembered of routes only after its plan was applied, never applies a
/// plan that is wider than what the device was found to play, and answers a failed application with
/// the generation that the state has then.
pub proof fn only_fitting_patches_take_effect<F: Fn(&PluginGraphConfig) -> Result<(), String>>(
    validate: F,
    configured: Option<Seq<char>>,
    now: u64,
    c: ConfigurationModel,
    s: StateModel,
    store: StoreModel,
    reply: ConfigurationReport,
    after: ConfigurationModel,
    store_after: StoreModel,
    act: ConfigurationAct,
)
    requires
        configuration_fits(c, reply),
        configuration_steps(validate, configured, now, c, s, store, reply, after, store_after, act),
    ensures
        store_after.assignments != store.assignments ==> c.phase == ConfigurationPhase::Persisting || (
        c.phase == ConfigurationPhase::Applying && reply->Applied_0.success),
        c.phase == ConfigurationPhase::Probing && act is Apply ==> reply->channels is Ok
            && c.plan->0.spec.output_channels <= reply->channels->Ok_0,
        c.phase == ConfigurationPhase::Applying && !reply->Applied_0.success ==> (act matches
            ConfigurationAct::Finish(response) && !response.success && response.error
            == reply->Applied_0.error && response.data == Some(
            generation_json(s.pipeline.generation),
        )),
{
}

/// Whether a change knows the format that it asks for: what the patch names, and for the rest what the
/// driver reports, or the usual value where it reports none.
pub open spec fn knows_format(c: ConfigurationModel) -> bool {
    &&& c.sample_rate == match c.patch.sample_rate {
        Some(rate) => rate,
        None => if c.status.sample_rate > 0 {
            c.status.sample_rate
        } else {
            48000
        },
    }
    &&& c.buffer_frames == match c.patch.buffer_frames {
        Some(frames) => frames,
        None => if c.status.buffer_frames > 0 {
            c.status.buffer_frames
        } else {
            512
        },
    }
}

/// A patch that names a rate or a buffer size, either alone, has the driver asked for it: its plan is
/// applied with force, and one that names neither is not. The plan is applied at the rate and the
/// buffer size that the patch names, and at those that the driver reports where it names none.
pub proof fn patches_of_the_format_are_forced<F: Fn(&PluginGraphConfig) -> Result<(), String>>(
    validate: F,
    configured: Option<Seq<char>>,
    now: u64,
    c: ConfigurationModel,
    s: StateModel,
    store: StoreModel,
    reply: ConfigurationReport,
    after: ConfigurationModel,
    store_after: StoreModel,
    act: ConfigurationAct,
)
    requires
        configuration_fits(c, reply),
        configuration_steps(validate, configured, now, c, s, store, reply, after, store_after, act),
        c.phase == ConfigurationPhase::ReadingDriver || knows_format(c),
    ensures
        after.patch == c.patch,
        knows_format(after),
        c.phase != ConfigurationPhase::ReadingDriver ==> after.status == c.status,
        c.phase == ConfigurationPhase::ReadingDriver ==> after.status == reply->Driver_0,
        act matches ConfigurationAct::Apply { plan, status, sample_rate, buffer_frames, force } ==> {
            &&& force <==> c.patch.sample_rate is Some || c.patch.buffer_frames is Some
            &&& sample_rate == after.sample_rate && buffer_frames == after.buffer_frames
            &&& status == after.status
            &&& Some(plan) == after.plan
            &&& c.patch.sample_rate matches Some(rate) ==> sample_rate == rate
            &&& c.patch.buffer_frames matches Some(frames) ==> buffer_frames == frames
        },
        act matches ConfigurationAct::ProbeChannels { device, sample_rate } ==> sample_rate
            == after.sample_rate && after.plan is Some && after.plan->0.spec.output_device == Some(
            device,
        ),
        act matches ConfigurationAct::FindDevice(device) ==> c.patch.output_device == Some(device),
        act matches ConfigurationAct::PersistDevice(device) ==> c.patch.output_device is Some
            && c.plan->0.spec.output_device == Some(device),
{
}

/// A patch changes what it names and nothing else: the plan has the channels that the patch names, and
/// otherwise those of the desired pipeline, and plays to the device that was found for it, or to the
/// desired one.
pub proof fn patches_change_what_they_name<F: Fn(&PluginGraphConfig) -> Result<(), String>>(
    validate: F,
    configured: Option<Seq<char>>,
    c: ConfigurationModel,
    s: StateModel,
    profile: Option<ProfileModel>,
    after: (ConfigurationModel, ConfigurationAct),
)
    requires
        configuration_plans(validate, configured, c, s, profile, after),
        after.0.phase != ConfigurationPhase::Finished,
    ensures
        after.0.plan is Some,
        ({
            let spec = after.0.plan->0.spec;
            let desired = s.pipeline.desired;
            &&& c.patch.output_channels matches Some(n) ==> spec.output_channels == n
            &&& c.patch.output_channels is None ==> spec.output_channels == desired.output_channels
            &&& c.patch.input_channels matches Some(n) ==> n > 0 ==> spec.input_channels == n
            &&& c.patch.input_channels is None && desired.input_channels > 0 ==> spec.input_channels
                == desired.input_channels
            &&& c.device matches Some(device) ==> is_safe_device(device) ==> spec.output_device == Some(
                device,
            )
            &&& c.device is None ==> (desired.output_device matches Some(device) ==> is_safe_device(
                device,
            ) ==> spec.output_device == Some(device))
            &&& after.0.profile == match profile {
                Some(p) => Some(p.id),
                None => None,
            }
            &&& spec.output_device is Some <==> after.1 is ProbeChannels
            &&& spec.output_device is None <==> after.1 is Apply
        }),
{
    let asked = patched_spec(s.pipeline.desired, c, profile);
    let out = choose|out: Result<PlanModel, Seq<char>>|
        (#[trigger] spec_plan_outcome(validate, asked, fallback_channels(c.status), configured, out))
            && after == configuration_planned(c, profile, out);
    crate::pipeline::plans_play_what_they_were_asked_for(
        validate,
        asked,
        fallback_channels(c.status),
        configured,
        out,
    );
}

/// A patch is accepted exactly if it names something, and what it names is in range: a supported rate,
/// 64 to 4096 frames, 1 to 32 channels.
pub proof fn patches_are_refused_only_out_of_range(p: PatchModel)
    ensures
        patch_refusal(p) is None <==> {
            &&& p.sample_rate is Some || p.buffer_frames is Some || p.input_channels is Some
                || p.output_channels is Some || p.output_device is Some
            &&& p.sample_rate matches Some(rate) ==> rate == 44100 || rate == 48000 || rate == 88200
                || rate == 96000 || rate == 176400 || rate == 192000
            &&& p.buffer_frames matches Some(frames) ==> 64 <= frames <= 4096
            &&& p.input_channels matches Some(n) ==> 1 <= n <= 32
            &&& p.output_channels matches Some(n) ==> 1 <= n <= 32
        },
        p.sample_rate is None && p.buffer_frames is None && p.input_channels is None && p.output_channels
            is None && p.output_device is None ==> patch_refusal(p) == Some(
            "Configuration patch must contain at least one field"@,
        ),
        p.sample_rate is Some && p.sample_rate->0 == 0 ==> patch_refusal(p) == Some(
            "Unsupported sample rate: "@ + decimal(0)
                + ". Supported: [44100, 48000, 88200, 96000, 176400, 192000]"@,
        ),
        p.sample_rate is None ==> (p.buffer_frames matches Some(frames) ==> frames < 64 || frames > 4096
            ==> patch_refusal(p) == Some(
            "Buffer frames must be between 64 and 4096, got: "@ + decimal(frames as nat),
        )),
        p.sample_rate is None && p.buffer_frames is None ==> (p.input_channels matches Some(n) ==> n < 1
            || n > 32 ==> patch_refusal(p) == Some(
            "Invalid "@ + "input"@ + " channel count: "@ + decimal(n as nat) + ". Must be between 1 and "@
                + decimal(32) + "."@,
        )),
        p.sample_rate is None && p.buffer_frames is None && p.input_channels is None ==> (
        p.output_channels matches Some(n) ==> n < 1 || n > 32 ==> patch_refusal(p) == Some(
            "Invalid "@ + "output"@ + " channel count: "@ + decimal(n as nat) + ". Must be between 1 and "@
                + decimal(32) + "."@,
        )),
{
}

/// A device that the patch names is used only if it was found and is safe, under the name that it is
/// selected by. The chain changes only where the device does.
pub proof fn patches_bring_safe_devices<F: Fn(&PluginGraphConfig) -> Result<(), String>>(
    validate: F,
    configured: Option<Seq<char>>,
    now: u64,
    c: ConfigurationModel,
    s: StateModel,
    store: StoreModel,
    reply: ConfigurationReport,
    after: ConfigurationModel,
    store_after: StoreModel,
    act: ConfigurationAct,
)
    requires
        configuration_fits(c, reply),
        configuration_steps(validate, configured, now, c, s, store, reply, after, store_after, act),
        c.phase == ConfigurationPhase::Finding,
    ensures
        reply->Search_0.found is Err ==> (act matches ConfigurationAct::Finish(response)
            && !response.success),
        reply->Search_0.found matches Ok(name) ==> {
            &&& !is_safe_device(name) ==> (act matches ConfigurationAct::Finish(response)
                && !response.success)
            &&& is_safe_device(name) ==> after.device == Some(
                match reply->Search_0.asio_prefix {
                    Some(prefix) => prefix + name,
                    None => name,
                },
            )
            &&& is_safe_device(name) && s.pipeline.desired.output_device == after.device
                && after.phase != ConfigurationPhase::Finished ==> after.profile == c.profile
                || after.profile is None
        },
        store.profiles.dom().len() > 0 ==> store_after == store,
{
}

/// The walk of a patch once its plan is applied: the device that it named is remembered, a route with a
/// profile of its own is recorded and saved, the driver's format is read once more, and the answer
/// names what was requested and what the driver runs at.
pub proof fn applied_patches_walk_to_the_answer<F: Fn(&PluginGraphConfig) -> Result<(), String>>(
    validate: F,
    configured: Option<Seq<char>>,
    now: u64,
    c: ConfigurationModel,
    s: StateModel,
    store: StoreModel,
    reply: ConfigurationReport,
    after: ConfigurationModel,
    store_after: StoreModel,
    act: ConfigurationAct,
)
    requires
        configuration_fits(c, reply),
        configuration_steps(validate, configured, now, c, s, store, reply, after, store_after, act),
    ensures
        c.phase == ConfigurationPhase::Applying && reply->Applied_0.success ==> {
            let device = c.plan->0.spec.output_device;
            &&& c.patch.output_device is Some && device is Some ==> act
                == ConfigurationAct::PersistDevice(device->0) && after.phase
                == ConfigurationPhase::Persisting && store_after == store
            &&& !(c.patch.output_device is Some && device is Some) && c.profile is Some && device is Some
                ==> act == ConfigurationAct::SaveProfiles && resolved(store_after, None, device->0)
                == resolved(with_route(store, None, device->0, c.profile->0), None, device->0)
            &&& !(c.profile is Some && device is Some) && c.patch.output_device is None ==> act
                == ConfigurationAct::ReadDriver && store_after == store
        },
        c.phase == ConfigurationPhase::Persisting ==> {
            let device = c.plan->0.spec.output_device;
            &&& c.profile is Some && device is Some ==> act == ConfigurationAct::SaveProfiles
                && store_after.current_profile_id == c.profile && store_after.current_device_name
                == device && store_after.current_device_uid is None && store_after.profiles
                == store.profiles
            &&& !(c.profile is Some && device is Some) ==> act == ConfigurationAct::ReadDriver
                && store_after == store
        },
        c.phase == ConfigurationPhase::SavingRoute ==> act == ConfigurationAct::ReadDriver
            && store_after == store && after.phase == ConfigurationPhase::ReadingApplied,
        c.phase == ConfigurationPhase::ReadingApplied ==> store_after == store && (act matches
            ConfigurationAct::Finish(response) && response.success),
{
}

/// The answer to a patch tells what was requested and what the driver runs at, each under its own name,
/// and whether they differ.
pub proof fn answers_tell_requested_and_applied(c: ConfigurationModel, generation: u64, applied: DriverStatus)
    requires
        c.plan is Some,
    ensures
        ({
            let answer = configuration_json(c, generation, applied);
            let spec = c.plan->0.spec;
            let requested = json_member(answer, "requested"@);
            let used = json_member(answer, "applied"@);
            let number = |n: int| Some(Json::Number(JsonNum::Unsigned(n as u64)));
            let device = Some(
                match spec.output_device {
                    Some(name) => Json::Text(name),
                    None => Json::Null,
                },
            );
            &&& json_member(answer, "generation"@) == number(generation as int)
            &&& json_member(answer, "sample_rate"@) == number(c.sample_rate as int)
            &&& json_member(answer, "buffer_frames"@) == number(c.buffer_frames as int)
            &&& requested is Some && used is Some
            &&& json_member(requested->0, "sample_rate"@) == number(c.sample_rate as int)
            &&& json_member(requested->0, "buffer_frames"@) == number(c.buffer_frames as int)
            &&& json_member(requested->0, "input_channels"@) == number(spec.input_channels as int)
            &&& json_member(requested->0, "output_channels"@) == number(spec.output_channels as int)
            &&& json_member(requested->0, "output_device"@) == device
            &&& json_member(used->0, "sample_rate"@) == number(applied.sample_rate as int)
            &&& json_member(used->0, "buffer_frames"@) == number(applied.buffer_frames as int)
            &&& json_member(used->0, "input_channels"@) == number(applied.channel_count as int)
            &&& json_member(used->0, "output_channels"@) == number(spec.output_channels as int)
            &&& json_member(used->0, "output_device"@) == device
            &&& json_member(answer, "negotiated"@) == Some(
                Json::Bool(
                    !(applied.sample_rate == c.sample_rate && applied.buffer_frames == c.buffer_frames
                        && applied.channel_count == spec.input_channels),
                ),
            )
        }),
{
    reveal_strlit("applied");
    assert("applied"@.len() == 7);
    reveal_strlit("requested");
    assert("requested"@.len() == 9);
    reveal_strlit("generation");
    assert("generation"@.len() == 10);
    assert("generation"@[0] == 'g');
    reveal_strlit("negotiated");
    assert("negotiated"@.len() == 10);
    assert("negotiated"@[0] == 'n');
    reveal_strlit("sample_rate");
    assert("sample_rate"@.len() == 11);
    reveal_strlit("buffer_frames");
    assert("buffer_frames"@.len() == 13);
    assert("buffer_frames"@[0] == 'b');
    reveal_strlit("output_device");
    assert("output_device"@.len() == 13);
    assert("output_device"@[0] == 'o');
    reveal_strlit("input_channels");
    assert("input_channels"@.len() == 14);
    reveal_strlit("output_channels");
    assert("output_channels"@.len() == 15);
}

/// A patch that is not refused begins by reading the driver, with the patch as it was given and nothing
/// chosen yet.
pub proof fn patches_begin_with_the_driver(
    patch: ConfigurationPatch,
    begun: Result<(ConfigurationChange, ConfigurationAction), Response>,
)
    requires
        call_ensures(ConfigurationChange::begin, (patch,), begun),
    ensures
        begun is Ok <==> patch_refusal(patch@) is None,
        begun matches Ok(started) ==> started.1@ is ReadDriver && started.0@.phase
            == ConfigurationPhase::ReadingDriver && started.0@.patch == patch@ && started.0@.device is None
            && started.0@.profile is None && started.0@.plan is None,
        begun matches Err(response) ==> !response@.success && response@.error == patch_refusal(patch@),
{
}

} // verus!
