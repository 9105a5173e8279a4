//! Switching the output route: the device, its DSP profile and the plan for both, in the order in
//! which the effects happen.

use crate::apply::setting_or;
use crate::driver::DriverStatus;
use crate::graph::accepts_graphs;
use crate::json::{json_member, Json, JsonNum, JsonObject};
use crate::output_device::{
    is_safe_device, is_safe_output_device_name, named_device, opt_str, opt_text,
};
use crate::output_profiles::{
    resolved, unknown_profile_message, unknown_profile_text, with_default, with_route,
    OutputProfile, OutputProfileStore, ProfileModel, StoreModel,
};
use crate::pipeline::{
    plan_outcome, spec_plan_outcome, PipelinePlan, PipelineSpec, PlanModel, SpecModel,
};
use crate::plugins::{copy_plugins, PluginGraphConfig};
use crate::response::{done_response, err_response, ok_response, Response, ResponseModel};
use crate::state::{StateModel, SystemwideState};
use crate::text::{decimal, decimal_text, join2, join3, trim_text, trimmed};
use vstd::prelude::*;

verus! {

/// What a search for an output device found.
#[derive(Debug)]
pub struct DeviceSearch {
    /// The name of the device, or why there is none.
    pub found: Result<String, String>,
    /// The prefix of the device's name where it is an ASIO device.
    pub asio_prefix: Option<String>,
}

/// What a `DeviceSearch` stands for.
pub struct SearchModel {
    pub found: Result<Seq<char>, Seq<char>>,
    pub asio_prefix: Option<Seq<char>>,
}

impl View for DeviceSearch {
    type V = SearchModel;

    open spec fn view(&self) -> SearchModel {
        SearchModel {
            found: match self.found {
                Ok(name) => Ok(name@),
                Err(e) => Err(e@),
            },
            asio_prefix: opt_text(self.asio_prefix),
        }
    }
}

/// The name under which a device is selected: its own, with the prefix of its kind.
pub open spec fn stored_name(name: Seq<char>, asio_prefix: Option<Seq<char>>) -> Seq<char> {
    match asio_prefix {
        Some(prefix) => prefix + name,
        None => name,
    }
}

/// The complaint about a device that was not found.
pub open spec fn missing_device_text(requested: Seq<char>, error: Seq<char>) -> Seq<char> {
    "Device '"@ + requested + "' not found. "@ + error
}

/// The complaint about a virtual device, with what to do instead. `role` is what it was meant for.
pub open spec fn feedback_text(name: Seq<char>, role: Seq<char>) -> Seq<char> {
    "'"@ + name + role
        + ". Select hardware speakers/headphones here, and select SotF Virtual Audio in macOS Sound Output."@
}

/// The device that a search gave, by its own name and the name it is selected under, or why it
/// cannot be used.
pub open spec fn usable_device(requested: Seq<char>, search: SearchModel, role: Seq<char>) -> Result<
    (Seq<char>, Seq<char>),
    Seq<char>,
> {
    match search.found {
        Err(e) => Err(missing_device_text(requested, e)),
        Ok(name) => if is_safe_device(name) {
            Ok((name, stored_name(name, search.asio_prefix)))
        } else {
            Err(feedback_text(name, role))
        },
    }
}

/// The view of a usable device or an error.
pub open spec fn device_outcome(r: Result<(String, String), String>) -> Result<
    (Seq<char>, Seq<char>),
    Seq<char>,
> {
    match r {
        Ok(names) => Ok((names.0@, names.1@)),
        Err(e) => Err(e@),
    }
}

/// The device that a search gave, or why it cannot be used.
pub fn resolve_usable_device(requested: &str, search: DeviceSearch, role: &str) -> (r: Result<
    (String, String),
    String,
>)
    ensures
        device_outcome(r) == usable_device(requested@, search@, role@),
{
    match search.found {
        Err(error) => {
            let head = join3("Device '", requested, "' not found. ");
            Err(join2(head.as_str(), error.as_str()))
        },
        Ok(name) => {
            if !is_safe_output_device_name(name.as_str()) {
                let head = join3("'", name.as_str(), role);
                return Err(
                    join2(
                        head.as_str(),
                        ". Select hardware speakers/headphones here, and select SotF Virtual Audio in macOS Sound Output.",
                    ),
                );
            }
            let stored = match search.asio_prefix {
                Some(prefix) => join2(prefix.as_str(), name.as_str()),
                None => name.clone(),
            };
            Ok((name, stored))
        },
    }
}

/// The profile for a route: the requested one, else the one of the device.
pub open spec fn route_profile(
    store: StoreModel,
    device_uid: Option<Seq<char>>,
    device_name: Seq<char>,
    profile_id: Option<Seq<char>>,
) -> Result<ProfileModel, Seq<char>> {
    match named_device(profile_id) {
        Some(id) => if store.profiles.contains_key(id) {
            Ok(store.profiles[id])
        } else {
            Err(unknown_profile_text(id))
        },
        None => match resolved(store, device_uid, device_name) {
            Some(id) => Ok(store.profiles[id]),
            None => Err("no output profile available for this device"@),
        },
    }
}

/// The view of a profile or an error.
pub open spec fn profile_outcome(r: Result<OutputProfile, String>) -> Result<ProfileModel, Seq<char>> {
    match r {
        Ok(p) => Ok(p@),
        Err(e) => Err(e@),
    }
}

fn given(value: &Option<String>) -> (r: Option<String>)
    ensures
        opt_text(r) == named_device(opt_text(*value)),
{
    match value {
        Some(text) => {
            let trimmed_text = trim_text(text.as_str());
            if trimmed_text.as_str().unicode_len() > 0 {
                Some(trimmed_text)
            } else {
                None
            }
        },
        None => None,
    }
}

fn borrowed(value: &Option<String>) -> (r: Option<&str>)
    ensures
        opt_str(r) == opt_text(*value),
{
    match value {
        Some(text) => Some(text.as_str()),
        None => None,
    }
}

/// The profile for a route, from a store that has adopted the live chain.
pub fn resolve_route_profile(
    store: &OutputProfileStore,
    device_uid: &Option<String>,
    device_name: &str,
    profile_id: &Option<String>,
) -> (r: Result<OutputProfile, String>)
    requires
        store.wf(),
    ensures
        profile_outcome(r) == route_profile(
            store@,
            opt_text(*device_uid),
            device_name@,
            opt_text(*profile_id),
        ),
{
    if let Some(id) = given(profile_id) {
        return match store.get(id.as_str()) {
            Some(profile) => Ok(profile.clone()),
            None => Err(unknown_profile_message(id.as_str())),
        };
    }
    match store.resolve_profile_id(borrowed(device_uid), device_name) {
        Some(id) => match store.get(id.as_str()) {
            Some(profile) => Ok(profile.clone()),
            None => Err("no output profile available for this device".to_owned()),
        },
        None => Err("no output profile available for this device".to_owned()),
    }
}

/// The store after the live chain was adopted where it was empty.
pub open spec fn adopted(s: StateModel, store: StoreModel, now: u64) -> StoreModel {
    with_default(
        store,
        s.pipeline.desired.user_plugins,
        s.pipeline.desired.user_graph,
        s.pipeline.desired.input_channels,
        s.pipeline.desired.output_channels,
        now,
    )
}

/// Adopts the live chain as the default profile where the store is empty. Returns whether it did,
/// in which case the store is to be saved.
pub fn ensure_default_profile(state: &SystemwideState, store: &mut OutputProfileStore, now_unix_ms: u64) -> (r:
    bool)
    requires
        old(store).wf(),
    ensures
        final(store).wf(),
        r == (old(store)@.profiles.dom().len() == 0),
        final(store)@ == adopted(state@, old(store)@, now_unix_ms),
{
    store.ensure_default(
        state.user_plugins(),
        state.user_graph(),
        state.input_channels(),
        state.output_channels(),
        now_unix_ms,
    )
}

/// What a client asks for with a route.
#[derive(Debug)]
pub struct RouteRequest {
    pub device: String,
    pub device_uid: Option<String>,
    pub profile_id: Option<String>,
    pub input_channels: Option<usize>,
    pub output_channels: Option<usize>,
    /// Whether the answer names the route.
    pub detailed: bool,
}

/// What a `RouteRequest` stands for.
#[verifier::ext_equal]
pub struct RequestModel {
    pub device: Seq<char>,
    pub device_uid: Option<Seq<char>>,
    pub profile_id: Option<Seq<char>>,
    pub input_channels: Option<usize>,
    pub output_channels: Option<usize>,
    pub detailed: bool,
}

impl View for RouteRequest {
    type V = RequestModel;

    open spec fn view(&self) -> RequestModel {
        RequestModel {
            device: self.device@,
            device_uid: opt_text(self.device_uid),
            profile_id: opt_text(self.profile_id),
            input_channels: self.input_channels,
            output_channels: self.output_channels,
            detailed: self.detailed,
        }
    }
}

/// Where a switch stands: what it has asked for and waits to hear of.
#[derive(Debug, Clone, Copy, PartialEq, Eq, Structural)]
pub enum RoutePhase {
    Finding,
    Invalidating,
    SavingDefault,
    ReadingDriver,
    Applying,
    Persisting,
    SavingRoute,
    Finished,
}

/// What a switch asks of its surroundings.
#[derive(Debug)]
pub enum RouteAction {
    /// Search for the device.
    FindDevice,
    /// Forget the cached device list.
    InvalidateDevices,
    /// Save the profile store.
    SaveProfiles,
    /// Report the driver's status.
    ReadDriver,
    /// Apply a plan.
    Apply { plan: PipelinePlan, status: DriverStatus, sample_rate: u32, buffer_frames: u32 },
    /// Remember the device for the next start of the daemon.
    PersistDevice(String),
    /// Answer the client.
    Finish(Response),
}

/// What a `RouteAction` stands for.
pub enum RouteAct {
    FindDevice,
    InvalidateDevices,
    SaveProfiles,
    ReadDriver,
    Apply { plan: PlanModel, status: DriverStatus, sample_rate: u32, buffer_frames: u32 },
    PersistDevice(Seq<char>),
    Finish(ResponseModel),
}

impl View for RouteAction {
    type V = RouteAct;

    open spec fn view(&self) -> RouteAct {
        match *self {
            RouteAction::FindDevice => RouteAct::FindDevice,
            RouteAction::InvalidateDevices => RouteAct::InvalidateDevices,
            RouteAction::SaveProfiles => RouteAct::SaveProfiles,
            RouteAction::ReadDriver => RouteAct::ReadDriver,
            RouteAction::Apply { plan, status, sample_rate, buffer_frames } => RouteAct::Apply {
                plan: plan@,
                status,
                sample_rate,
                buffer_frames,
            },
            RouteAction::PersistDevice(device) => RouteAct::PersistDevice(device@),
            RouteAction::Finish(response) => RouteAct::Finish(response@),
        }
    }
}

/// What the surroundings answer.
#[derive(Debug)]
pub enum RouteReply {
    /// It is done.
    Done,
    /// What the search gave.
    Search(DeviceSearch),
    /// Whether the store reached the disk, or why it could not be saved.
    Saved(Result<bool, String>),
    /// The driver's status.
    Driver(DriverStatus),
    /// How applying the plan came out.
    Applied(Response),
}

/// What a `RouteReply` stands for.
pub enum RouteAnswer {
    Done,
    Search(SearchModel),
    Saved(Result<bool, Seq<char>>),
    Driver(DriverStatus),
    Applied(ResponseModel),
}

impl View for RouteReply {
    type V = RouteAnswer;

    open spec fn view(&self) -> RouteAnswer {
        match *self {
            RouteReply::Done => RouteAnswer::Done,
            RouteReply::Search(search) => RouteAnswer::Search(search@),
            RouteReply::Saved(Ok(on_disk)) => RouteAnswer::Saved(Ok(on_disk)),
            RouteReply::Saved(Err(e)) => RouteAnswer::Saved(Err(e@)),
            RouteReply::Driver(status) => RouteAnswer::Driver(status),
            RouteReply::Applied(response) => RouteAnswer::Applied(response@),
        }
    }
}

/// A route switch under way.
#[derive(Debug)]
pub struct RouteSwitch {
    pub phase: RoutePhase,
    pub request: RouteRequest,
    /// The device's own name.
    pub resolved: String,
    /// The name that the device is selected under.
    pub stored: String,
    /// The profile whose chain goes with the device.
    pub chosen: String,
    pub plan: Option<PipelinePlan>,
    /// Why the device cannot be used.
    pub error: String,
}

/// What a `RouteSwitch` stands for.
#[verifier::ext_equal]
pub struct SwitchModel {
    pub phase: RoutePhase,
    pub request: RequestModel,
    pub resolved: Seq<char>,
    pub stored: Seq<char>,
    pub chosen: Seq<char>,
    pub plan: Option<PlanModel>,
    pub error: Seq<char>,
}

impl View for RouteSwitch {
    type V = SwitchModel;

    open spec fn view(&self) -> SwitchModel {
        SwitchModel {
            phase: self.phase,
            request: self.request@,
            resolved: self.resolved@,
            stored: self.stored@,
            chosen: self.chosen@,
            plan: crate::apply::opt_plan(self.plan),
            error: self.error@,
        }
    }
}

/// The end of a switch.
pub open spec fn switch_done(w: SwitchModel, response: ResponseModel) -> (SwitchModel, RouteAct) {
    (SwitchModel { phase: RoutePhase::Finished, ..w }, RouteAct::Finish(response))
}

/// The pipeline that a route asks for: the desired one on another device, with another chain and
/// the channel counts that were given.
pub open spec fn routed_spec(desired: SpecModel, w: SwitchModel, profile: ProfileModel) -> SpecModel {
    SpecModel {
        output_device: Some(w.stored),
        user_plugins: profile.plugins,
        user_graph: profile.graph,
        input_channels: match w.request.input_channels {
            Some(channels) => channels,
            None => desired.input_channels,
        },
        output_channels: match w.request.output_channels {
            Some(channels) => channels,
            None => desired.output_channels,
        },
    }
}

/// What follows from the plan for a route.
pub open spec fn switch_planned(w: SwitchModel, profile: ProfileModel, out: Result<PlanModel, Seq<char>>) -> (
    SwitchModel,
    RouteAct,
) {
    match out {
        Err(e) => switch_done(w, err_response(e)),
        Ok(plan) => (
            SwitchModel {
                phase: RoutePhase::ReadingDriver,
                chosen: profile.id,
                plan: Some(plan),
                ..w
            },
            RouteAct::ReadDriver,
        ),
    }
}

/// What choosing the profile and preparing the plan may lead to.
pub open spec fn switch_plans<F: Fn(&PluginGraphConfig) -> Result<(), String>>(
    validate: F,
    configured: Option<Seq<char>>,
    w: SwitchModel,
    s: StateModel,
    store: StoreModel,
    after: (SwitchModel, RouteAct),
) -> bool {
    match route_profile(store, w.request.device_uid, w.resolved, w.request.profile_id) {
        Err(e) => after == switch_done(w, err_response(e)),
        Ok(profile) => exists|out: Result<PlanModel, Seq<char>>|
            (#[trigger] spec_plan_outcome(
                validate,
                routed_spec(s.pipeline.desired, w, profile),
                s.pipeline.desired.input_channels,
                configured,
                out,
            )) && after == switch_planned(w, profile, out),
    }
}

/// The answer to a switch that worked.
pub open spec fn route_response(w: SwitchModel, generation: u64) -> ResponseModel {
    if w.request.detailed {
        ok_response(
            Json::Object(
                map![
                    "generation"@ => Json::Number(JsonNum::Unsigned(generation)),
                    "profile_id"@ => Json::Text(w.chosen),
                    "output_device"@ => Json::Text(w.stored),
                ],
            ),
        )
    } else {
        done_response()
    }
}

/// What the device of a switch was meant for.
pub open spec fn speaker_role() -> Seq<char> {
    "' is a virtual/loopback device and cannot be used as Systemwide speaker output"@
}

/// Whether `reply` answers what the switch asked for.
pub open spec fn switch_fits(w: SwitchModel, reply: RouteAnswer) -> bool {
    match w.phase {
        RoutePhase::Finding => reply is Search,
        RoutePhase::SavingDefault | RoutePhase::SavingRoute => reply is Saved,
        RoutePhase::ReadingDriver => reply is Driver && w.plan is Some,
        RoutePhase::Applying => reply is Applied,
        RoutePhase::Finished => false,
        _ => reply is Done,
    }
}

/// What a reply may lead to.
pub open spec fn switch_steps<F: Fn(&PluginGraphConfig) -> Result<(), String>>(
    validate: F,
    configured: Option<Seq<char>>,
    now: u64,
    w: SwitchModel,
    s: StateModel,
    store: StoreModel,
    reply: RouteAnswer,
    after: SwitchModel,
    store_after: StoreModel,
    act: RouteAct,
) -> bool {
    match (w.phase, reply) {
        (RoutePhase::Finding, RouteAnswer::Search(search)) => match usable_device(
            w.request.device,
            search,
            speaker_role(),
        ) {
            Err(e) => store_after == store && if search.found is Err {
                after == (SwitchModel { phase: RoutePhase::Invalidating, error: e, ..w }) && act
                    == RouteAct::InvalidateDevices
            } else {
                (after, act) == switch_done(w, err_response(e))
            },
            Ok(names) => {
                let named = SwitchModel { resolved: names.0, stored: names.1, ..w };
                store_after == adopted(s, store, now) && if store.profiles.dom().len() == 0 {
                    after == (SwitchModel { phase: RoutePhase::SavingDefault, ..named }) && act
                        == RouteAct::SaveProfiles
                } else {
                    switch_plans(validate, configured, named, s, store_after, (after, act))
                }
            },
        },
        (RoutePhase::Invalidating, _) => store_after == store && (after, act) == switch_done(
            w,
            err_response(w.error),
        ),
        (RoutePhase::SavingDefault, RouteAnswer::Saved(Err(e))) => store_after == store && (after, act)
            == switch_done(w, err_response(e)),
        (RoutePhase::SavingDefault, _) => store_after == store && switch_plans(
            validate,
            configured,
            w,
            s,
            store,
            (after, act),
        ),
        (RoutePhase::ReadingDriver, RouteAnswer::Driver(status)) => store_after == store && after == (
        SwitchModel { phase: RoutePhase::Applying, ..w }) && act == (RouteAct::Apply {
            plan: w.plan->0,
            status,
            sample_rate: setting_or(status.sample_rate, 48000),
            buffer_frames: setting_or(status.buffer_frames, 512),
        }),
        (RoutePhase::Applying, RouteAnswer::Applied(response)) => store_after == store
            && if response.success {
            after == (SwitchModel { phase: RoutePhase::Persisting, ..w }) && act
                == RouteAct::PersistDevice(w.stored)
        } else {
            (after, act) == switch_done(w, response)
        },
        (RoutePhase::Persisting, _) => store_after == with_route(
            store,
            w.request.device_uid,
            w.resolved,
            w.chosen,
        ) && after == (SwitchModel { phase: RoutePhase::SavingRoute, ..w }) && act
            == RouteAct::SaveProfiles,
        _ => store_after == store && (after, act) == switch_done(
            w,
            route_response(w, s.pipeline.generation),
        ),
    }
}

/// A switch that has just begun.
pub open spec fn new_switch(request: RequestModel) -> SwitchModel {
    SwitchModel {
        phase: RoutePhase::Finding,
        request,
        resolved: Seq::empty(),
        stored: Seq::empty(),
        chosen: Seq::empty(),
        plan: None,
        error: Seq::empty(),
    }
}

/// The complaint about a route that was based on an outdated state.
pub open spec fn route_conflict_text(base: u64, current: u64) -> Seq<char> {
    "Output route generation conflict: intent was based on generation "@ + decimal(base as nat)
        + ", current generation is "@ + decimal(current as nat) + ". Refresh and retry."@
}

/// Why a route request is refused at once, or that it is not.
pub open spec fn route_refusal(generation: u64, base_generation: Option<u64>, device: Seq<char>) -> Option<
    Seq<char>,
> {
    if base_generation is Some && base_generation->0 != generation {
        Some(route_conflict_text(base_generation->0, generation))
    } else if trimmed(device).len() == 0 {
        Some("Output device must not be empty"@)
    } else {
        None
    }
}

impl RouteSwitch {
    /// Begins a switch.
    pub fn begin(request: RouteRequest) -> (r: (RouteSwitch, RouteAction))
        ensures
            r.0@ == new_switch(request@),
            r.1@ == RouteAct::FindDevice,
    {
        let switch = RouteSwitch {
            phase: RoutePhase::Finding,
            request,
            resolved: String::new(),
            stored: String::new(),
            chosen: String::new(),
            plan: None,
            error: String::new(),
        };
        proof {
            assert(switch@ =~= new_switch(request@));
        }
        (switch, RouteAction::FindDevice)
    }

    /// Begins a switch to a device, whose profile goes with it. Nothing more is asked for and the
    /// answer carries no data.
    pub fn set_device(device: &str) -> (r: (RouteSwitch, RouteAction))
        ensures
            r.0@ == new_switch(
                (RequestModel {
                    device: device@,
                    device_uid: None,
                    profile_id: None,
                    input_channels: None,
                    output_channels: None,
                    detailed: false,
                }),
            ),
            r.1@ == RouteAct::FindDevice,
    {
        RouteSwitch::begin(
            RouteRequest {
                device: device.to_owned(),
                device_uid: None,
                profile_id: None,
                input_channels: None,
                output_channels: None,
                detailed: false,
            },
        )
    }

    /// Begins a switch to a route, or says why it is refused: an intent based on an outdated
    /// generation, or no device.
    pub fn set_output_route(
        state: &SystemwideState,
        output_device: &str,
        output_device_uid: Option<String>,
        profile_id: Option<String>,
        input_channels: Option<usize>,
        output_channels: Option<usize>,
        base_generation: Option<u64>,
    ) -> (r: Result<(RouteSwitch, RouteAction), Response>)
        ensures
            match route_refusal(state@.pipeline.generation, base_generation, output_device@) {
                Some(error) => r matches Err(response) && response@ == err_response(error),
                None => r matches Ok(started) && started.1@ == RouteAct::FindDevice && started.0@
                    == new_switch(
                    (RequestModel {
                        device: trimmed(output_device@),
                        device_uid: opt_text(output_device_uid),
                        profile_id: opt_text(profile_id),
                        input_channels,
                        output_channels,
                        detailed: true,
                    }),
                ),
            },
    {
        let generation: u64 = state.generation();
        if let Some(base) = base_generation {
            if base != generation {
                let based = decimal_text(base);
                let now = decimal_text(generation);
                let head = join3(
                    "Output route generation conflict: intent was based on generation ",
                    based.as_str(),
                    ", current generation is ",
                );
                return Err(
                    Response::err(join3(head.as_str(), now.as_str(), ". Refresh and retry.")),
                );
            }
        }
        let device = trim_text(output_device);
        if device.as_str().unicode_len() == 0 {
            return Err(Response::err("Output device must not be empty".to_owned()));
        }
        Ok(
            RouteSwitch::begin(
                RouteRequest {
                    device,
                    device_uid: output_device_uid,
                    profile_id,
                    input_channels,
                    output_channels,
                    detailed: true,
                },
            ),
        )
    }

    fn done(&mut self, response: Response) -> (r: RouteAction)
        ensures
            (final(self)@, r@) == switch_done(old(self)@, response@),
    {
        self.phase = RoutePhase::Finished;
        RouteAction::Finish(response)
    }

    fn plan_route<F: Fn(&PluginGraphConfig) -> Result<(), String>>(
        &mut self,
        state: &SystemwideState,
        store: &OutputProfileStore,
        configured: &Option<String>,
        validate: &F,
    ) -> (r: RouteAction)
        requires
            accepts_graphs(*validate),
            store.wf(),
        ensures
            switch_plans(
                *validate,
                opt_text(*configured),
                old(self)@,
                state@,
                store@,
                (final(self)@, r@),
            ),
    {
        let profile = match resolve_route_profile(
            store,
            &self.request.device_uid,
            self.resolved.as_str(),
            &self.request.profile_id,
        ) {
            Ok(profile) => profile,
            Err(error) => {
                return self.done(Response::err(error));
            },
        };
        let ghost before = self@;
        let next = PipelineSpec {
            output_device: Some(self.stored.clone()),
            user_plugins: copy_plugins(&profile.plugins),
            user_graph: match &profile.graph {
                Some(graph) => Some(graph.clone()),
                None => None,
            },
            input_channels: match self.request.input_channels {
                Some(channels) => channels,
                None => state.input_channels(),
            },
            output_channels: match self.request.output_channels {
                Some(channels) => channels,
                None => state.output_channels(),
            },
        };
        proof {
            assert(next@ =~= routed_spec(state@.pipeline.desired, before, profile@));
        }
        let planned = state.prepare_from_spec(&next, state.input_channels(), configured, validate);
        let ghost out = plan_outcome(planned);
        proof {
            assert(spec_plan_outcome(
                *validate,
                routed_spec(state@.pipeline.desired, before, profile@),
                state@.pipeline.desired.input_channels,
                opt_text(*configured),
                out,
            ));
        }
        let ghost kept = profile@;
        let action = match planned {
            Err(error) => self.done(Response::err(error)),
            Ok(plan) => {
                self.phase = RoutePhase::ReadingDriver;
                self.chosen = profile.id;
                self.plan = Some(plan);
                RouteAction::ReadDriver
            },
        };
        proof {
            assert((self@, action@) == switch_planned(before, kept, out));
        }
        action
    }

    fn searched<F: Fn(&PluginGraphConfig) -> Result<(), String>>(
        &mut self,
        state: &SystemwideState,
        store: &mut OutputProfileStore,
        search: DeviceSearch,
        configured: &Option<String>,
        validate: &F,
        now_unix_ms: u64,
    ) -> (r: RouteAction)
        requires
            accepts_graphs(*validate),
            old(store).wf(),
            old(self)@.phase == RoutePhase::Finding,
        ensures
            final(store).wf(),
            switch_steps(
                *validate,
                opt_text(*configured),
                now_unix_ms,
                old(self)@,
                state@,
                old(store)@,
                RouteAnswer::Search(search@),
                final(self)@,
                final(store)@,
                r@,
            ),
    {
        let absent = search.found.is_err();
        match resolve_usable_device(
            self.request.device.as_str(),
            search,
            "' is a virtual/loopback device and cannot be used as Systemwide speaker output",
        ) {
            Err(error) => {
                if absent {
                    self.error = error;
                    self.phase = RoutePhase::Invalidating;
                    RouteAction::InvalidateDevices
                } else {
                    self.done(Response::err(error))
                }
            },
            Ok((resolved_name, stored_as)) => {
                self.resolved = resolved_name;
                self.stored = stored_as;
                if ensure_default_profile(state, store, now_unix_ms) {
                    self.phase = RoutePhase::SavingDefault;
                    RouteAction::SaveProfiles
                } else {
                    self.plan_route(state, store, configured, validate)
                }
            },
        }
    }

    fn driver_known(&mut self, status: DriverStatus) -> (r: RouteAction)
        requires
            old(self)@.plan is Some,
        ensures
            final(self)@ == (SwitchModel { phase: RoutePhase::Applying, ..old(self)@ }),
            r@ == (RouteAct::Apply {
                plan: old(self)@.plan->0,
                status,
                sample_rate: setting_or(status.sample_rate, 48000),
                buffer_frames: setting_or(status.buffer_frames, 512),
            }),
    {
        let sample_rate: u32 = if status.sample_rate > 0 { status.sample_rate } else { 48000 };
        let buffer_frames: u32 = if status.buffer_frames > 0 { status.buffer_frames } else { 512 };
        self.phase = RoutePhase::Applying;
        let plan = match &self.plan {
            Some(plan) => plan.clone(),
            None => {
                proof {
                    assert(false);
                }
                return RouteAction::ReadDriver;
            },
        };
        RouteAction::Apply { plan, status, sample_rate, buffer_frames }
    }

    fn answer(&mut self, state: &SystemwideState) -> (r: RouteAction)
        ensures
            (final(self)@, r@) == switch_done(
                old(self)@,
                route_response(old(self)@, state@.pipeline.generation),
            ),
    {
        if self.request.detailed {
            let mut data = JsonObject::new();
            data.put_unsigned("generation", state.generation());
            data.put_text("profile_id", self.chosen.as_str());
            data.put_text("output_device", self.stored.as_str());
            self.done(Response::ok(data.finish()))
        } else {
            self.done(Response::ok_empty())
        }
    }

    /// Takes the answer to the last action and says what to do next.
    pub fn step<F: Fn(&PluginGraphConfig) -> Result<(), String>>(
        &mut self,
        state: &SystemwideState,
        store: &mut OutputProfileStore,
        reply: RouteReply,
        configured: &Option<String>,
        validate: &F,
        now_unix_ms: u64,
    ) -> (r: RouteAction)
        requires
            accepts_graphs(*validate),
            old(store).wf(),
            switch_fits(old(self)@, reply@),
        ensures
            final(store).wf(),
            switch_steps(
                *validate,
                opt_text(*configured),
                now_unix_ms,
                old(self)@,
                state@,
                old(store)@,
                reply@,
                final(self)@,
                final(store)@,
                r@,
            ),
    {
        match (self.phase, reply) {
            (RoutePhase::Finding, RouteReply::Search(search)) => self.searched(
                state,
                store,
                search,
                configured,
                validate,
                now_unix_ms,
            ),
            (RoutePhase::Invalidating, _) => {
                let text = self.error.clone();
                self.done(Response::err(text))
            },
            (RoutePhase::SavingDefault, RouteReply::Saved(Err(error))) => self.done(
                Response::err(error),
            ),
            (RoutePhase::SavingDefault, _) => self.plan_route(state, store, configured, validate),
            (RoutePhase::ReadingDriver, RouteReply::Driver(status)) => self.driver_known(status),
            (RoutePhase::Applying, RouteReply::Applied(response)) => {
                if response.success {
                    self.phase = RoutePhase::Persisting;
                    RouteAction::PersistDevice(self.stored.clone())
                } else {
                    self.done(response)
                }
            },
            (RoutePhase::Persisting, _) => {
                store.record_route(
                    borrowed(&self.request.device_uid),
                    self.resolved.as_str(),
                    self.chosen.as_str(),
                );
                self.phase = RoutePhase::SavingRoute;
                RouteAction::SaveProfiles
            },
            _ => self.answer(state),
        }
    }
}

/// Whether every profile is stored under its own id.
pub open spec fn ids_match(store: StoreModel) -> bool {
    forall|k: Seq<char>| #[trigger] store.profiles.contains_key(k) ==> store.profiles[k].id == k
}

/// A route is recorded with the profile whose chain it plays: the plan carries that profile's graph
/// or its plugins, on a device that is safe to play to.
pub proof fn routes_play_the_profile_they_record<F: Fn(&PluginGraphConfig) -> Result<(), String>>(
    validate: F,
    configured: Option<Seq<char>>,
    w: SwitchModel,
    s: StateModel,
    store: StoreModel,
    after: (SwitchModel, RouteAct),
)
    requires
        switch_plans(validate, configured, w, s, store, after),
        after.1 is ReadDriver,
        ids_match(store),
    ensures
        after.0.plan is Some,
        store.profiles.contains_key(after.0.chosen),
        ({
            let spec = after.0.plan->0.spec;
            let profile = store.profiles[after.0.chosen];
            &&& spec.user_graph == profile.graph
            &&& profile.graph is None ==> spec.user_plugins == crate::plugins::kept_plugins(profile.plugins)
            &&& spec.output_device is Some ==> is_safe_device(spec.output_device->0)
        }),
{
    let profile = route_profile(store, w.request.device_uid, w.resolved, w.request.profile_id)->Ok_0;
    let out = choose|out: Result<PlanModel, Seq<char>>|
        (#[trigger] spec_plan_outcome(
            validate,
            routed_spec(s.pipeline.desired, w, profile),
            s.pipeline.desired.input_channels,
            configured,
            out,
        )) && after == switch_planned(w, profile, out);
    crate::pipeline::plans_play_to_safe_devices(
        validate,
        routed_spec(s.pipeline.desired, w, profile),
        s.pipeline.desired.input_channels,
        configured,
        out->Ok_0,
    );
}

/// A switch records its route only after the plan was applied: until then it may adopt the live
/// chain into an empty store and changes nothing else in it, and a switch that fails to apply ends
/// with the answer that the application gave.
pub proof fn only_applied_routes_are_recorded<F: Fn(&PluginGraphConfig) -> Result<(), String>>(
    validate: F,
    configured: Option<Seq<char>>,
    now: u64,
    w: SwitchModel,
    s: StateModel,
    store: StoreModel,
    reply: RouteAnswer,
    after: SwitchModel,
    store_after: StoreModel,
    act: RouteAct,
)
    requires
        switch_steps(validate, configured, now, w, s, store, reply, after, store_after, act),
        switch_fits(w, reply),
    ensures
        w.phase != RoutePhase::Persisting ==> store_after.assignments == store.assignments
            && store_after.current_profile_id == store.current_profile_id && (store_after.profiles
            == store.profiles || store.profiles.dom().len() == 0),
        after.phase == RoutePhase::Persisting ==> w.phase == RoutePhase::Applying && reply is Applied
            && reply->Applied_0.success,
        w.phase == RoutePhase::Applying && !reply->Applied_0.success ==> act == RouteAct::Finish(
            reply->Applied_0,
        ),
{
}

/// The plan of a route plays to the device that was found, with the chain of the profile that was
/// chosen, and with the channels that were asked for or else those of the desired pipeline. The profile
/// is the one that was asked for, or else the one that the device has.
pub proof fn routes_play_to_the_device_that_was_found<F: Fn(&PluginGraphConfig) -> Result<(), String>>(
    validate: F,
    configured: Option<Seq<char>>,
    w: SwitchModel,
    s: StateModel,
    store: StoreModel,
    after: (SwitchModel, RouteAct),
)
    requires
        switch_plans(validate, configured, w, s, store, after),
        after.1 is ReadDriver,
        ids_match(store),
    ensures
        after.0.plan is Some,
        after.0.stored == w.stored && after.0.resolved == w.resolved && after.0.request == w.request,
        ({
            let spec = after.0.plan->0.spec;
            let desired = s.pipeline.desired;
            &&& is_safe_device(w.stored) ==> spec.output_device == Some(w.stored)
            &&& w.request.output_channels matches Some(n) ==> spec.output_channels == n
            &&& w.request.output_channels is None ==> spec.output_channels == desired.output_channels
            &&& w.request.input_channels matches Some(n) ==> n > 0 ==> spec.input_channels == n
            &&& w.request.input_channels is None && desired.input_channels > 0 ==> spec.input_channels
                == desired.input_channels
            &&& w.request.profile_id is None ==> resolved(store, w.request.device_uid, w.resolved)
                == Some(after.0.chosen)
            &&& w.request.profile_id matches Some(id) ==> crate::text::trimmed(id).len() > 0
                ==> after.0.chosen == crate::text::trimmed(id)
        }),
{
    let profile = route_profile(store, w.request.device_uid, w.resolved, w.request.profile_id)->Ok_0;
    let asked = routed_spec(s.pipeline.desired, w, profile);
    let out = choose|out: Result<PlanModel, Seq<char>>|
        (#[trigger] spec_plan_outcome(
            validate,
            asked,
            s.pipeline.desired.input_channels,
            configured,
            out,
        )) && after == switch_planned(w, profile, out);
    crate::pipeline::plans_play_what_they_were_asked_for(
        validate,
        asked,
        s.pipeline.desired.input_channels,
        configured,
        out,
    );
}

/// The walk of a route. A device that is not found is answered after the device list was forgotten, a
/// virtual one at once. The plan is applied at the format that the driver reports. Only when that
/// worked is the device remembered, the route recorded with the profile that plays, and saved.
pub proof fn routes_walk_to_the_answer<F: Fn(&PluginGraphConfig) -> Result<(), String>>(
    validate: F,
    configured: Option<Seq<char>>,
    now: u64,
    w: SwitchModel,
    s: StateModel,
    store: StoreModel,
    reply: RouteAnswer,
    after: SwitchModel,
    store_after: StoreModel,
    act: RouteAct,
)
    requires
        switch_steps(validate, configured, now, w, s, store, reply, after, store_after, act),
        switch_fits(w, reply),
    ensures
        after.request == w.request,
        w.phase == RoutePhase::Finding ==> {
            let search = reply->Search_0;
            &&& search.found matches Err(e) ==> act == RouteAct::InvalidateDevices && after.error
                == "Device '"@ + w.request.device + "' not found. "@ + e && store_after == store
            &&& search.found matches Ok(name) ==> {
                &&& !is_safe_device(name) ==> store_after == store && (act matches RouteAct::Finish(r)
                    && !r.success && r.error is Some)
                &&& is_safe_device(name) ==> after.resolved == name && after.stored
                    == match search.asio_prefix {
                    Some(prefix) => prefix + name,
                    None => name,
                }
                &&& is_safe_device(name) && store.profiles.dom().len() == 0 ==> act
                    == RouteAct::SaveProfiles
            }
        },
        w.phase == RoutePhase::Invalidating ==> act == RouteAct::Finish(
            (ResponseModel { success: false, data: None, error: Some(w.error) }),
        ),
        w.phase == RoutePhase::SavingDefault ==> (reply->Saved_0 matches Err(e) ==> act
            == RouteAct::Finish((ResponseModel { success: false, data: None, error: Some(e) }))),
        w.phase == RoutePhase::ReadingDriver ==> {
            let status = reply->Driver_0;
            act == (RouteAct::Apply {
                plan: w.plan->0,
                status,
                sample_rate: if status.sample_rate > 0 { status.sample_rate } else { 48000 },
                buffer_frames: if status.buffer_frames > 0 { status.buffer_frames } else { 512 },
            }) && store_after == store
        },
        w.phase == RoutePhase::Applying && reply->Applied_0.success ==> act == RouteAct::PersistDevice(
            w.stored,
        ) && after.phase == RoutePhase::Persisting && store_after == store,
        w.phase == RoutePhase::Persisting ==> {
            &&& act == RouteAct::SaveProfiles && after.phase == RoutePhase::SavingRoute
            &&& store_after.profiles == store.profiles
            &&& store_after.current_profile_id == Some(w.chosen)
            &&& store_after.current_device_name == Some(w.resolved)
            &&& store.profiles.contains_key(w.chosen) ==> resolved(
                store_after,
                w.request.device_uid,
                w.resolved,
            ) == Some(w.chosen)
        },
        w.phase == RoutePhase::SavingRoute ==> {
            &&& store_after == store
            &&& act is Finish && act->Finish_0.success && act->Finish_0.error is None
            &&& !w.request.detailed ==> act->Finish_0.data is None
            &&& w.request.detailed ==> {
                let data = act->Finish_0.data;
                &&& data is Some
                &&& json_member(data->0, "generation"@) == Some(
                    Json::Number(JsonNum::Unsigned(s.pipeline.generation)),
                )
                &&& json_member(data->0, "profile_id"@) == Some(Json::Text(w.chosen))
                &&& json_member(data->0, "output_device"@) == Some(Json::Text(w.stored))
            }
        },
{
    if w.phase == RoutePhase::Persisting && store.profiles.contains_key(w.chosen) {
        crate::output_profiles::assigned_profiles_are_recalled(
            store,
            w.request.device_uid,
            w.resolved,
            w.chosen,
        );
    }
    reveal_strlit("generation");
    assert("generation"@.len() == 10);
    assert("generation"@[0] == 'g');
    reveal_strlit("profile_id");
    assert("profile_id"@.len() == 10);
    assert("profile_id"@[0] == 'p');
    reveal_strlit("output_device");
    assert("output_device"@.len() == 13);
}

/// A route that was asked for against another generation, or for no device, is refused at once.
pub proof fn outdated_and_empty_routes_are_refused(generation: u64, base: Option<u64>, device: Seq<char>)
    ensures
        route_refusal(generation, base, device) is Some <==> (base is Some && base->0 != generation)
            || trimmed(device).len() == 0,
{
}

/// Choosing a device asks for that device alone, and a route for all that it names; either begins by
/// looking for the device.
pub proof fn requests_ask_for_what_they_name(
    state: SystemwideState,
    device: &str,
    uid: Option<String>,
    profile_id: Option<String>,
    inputs: Option<usize>,
    outputs: Option<usize>,
    base: Option<u64>,
    plain: (RouteSwitch, RouteAction),
    full: Result<(RouteSwitch, RouteAction), Response>,
)
    requires
        call_ensures(RouteSwitch::set_device, (device,), plain),
        call_ensures(
            RouteSwitch::set_output_route,
            (&state, device, uid, profile_id, inputs, outputs, base),
            full,
        ),
    ensures
        plain.1@ is FindDevice && plain.0@.phase == RoutePhase::Finding && plain.0@.request.device
            == device@ && plain.0@.request.device_uid is None && plain.0@.request.profile_id is None
            && plain.0@.request.input_channels is None && plain.0@.request.output_channels is None
            && !plain.0@.request.detailed,
        full is Ok <==> (base is None || base->0 == state@.pipeline.generation) && trimmed(device@).len()
            > 0,
        full matches Ok(started) ==> {
            let request = started.0@.request;
            &&& started.1@ is FindDevice && started.0@.phase == RoutePhase::Finding
            &&& request.device == trimmed(device@) && request.device_uid == opt_text(uid)
            &&& request.profile_id == opt_text(profile_id)
            &&& request.input_channels == inputs && request.output_channels == outputs
            &&& request.detailed
        },
        full matches Err(response) ==> !response@.success && response@.error == Some(
            if base is Some && base->0 != state@.pipeline.generation {
                "Output route generation conflict: intent was based on generation "@ + decimal(
                    base->0 as nat,
                ) + ", current generation is "@ + decimal(state@.pipeline.generation as nat)
                    + ". Refresh and retry."@
            } else {
                "Output device must not be empty"@
            },
        ),
{
}

/// A store without profiles takes over the desired chain with its channels as the default profile; any
/// other store stays as it is.
pub proof fn empty_stores_adopt_the_desired_chain(s: StateModel, store: StoreModel, now: u64)
    ensures
        ({
            let after = adopted(s, store, now);
            let desired = s.pipeline.desired;
            &&& store.profiles.dom().len() > 0 ==> after == store
            &&& store.profiles.dom().len() == 0 ==> {
                let profile = after.profiles["default"@];
                &&& after.profiles.contains_key("default"@)
                &&& profile.id == "default"@ && profile.name == "Default"@
                &&& profile.plugins == desired.user_plugins && profile.graph == desired.user_graph
                &&& desired.input_channels > 0 ==> profile.input_channels == desired.input_channels
                &&& desired.output_channels > 0 ==> profile.output_channels == desired.output_channels
                &&& profile.updated_at_unix_ms == now
                &&& after.assignments == store.assignments
            }
        }),
{
}

} // verus!
