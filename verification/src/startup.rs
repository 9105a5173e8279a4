//! Cold start: the chain and the geometry to start with, when to try again, and when playback
//! counts as running.

use crate::apply::reports_error;
use crate::graph::MAX_HAL_CHANNELS;
use crate::output_device::{
    configured_output_device_from_value, is_availability_error, named_device, opt_str, opt_text,
    startup_error_is_device_availability,
};
use crate::output_profiles::{OutputProfileStore, ProfileModel, StartupChain, StoreModel};
use crate::plugins::{plugin_models, GraphModel, PluginConfig, PluginModel};
use crate::route::{resolve_route_profile, route_profile};
use crate::text::{decimal, decimal_text, is_blank, join2, join3, same_text, trimmed};
use vstd::prelude::*;

verus! {

/// The channels to start with: the driver's where they are usable, else stereo, and the desired
/// output channels within the range of the transport.
pub open spec fn startup_geometry(hal_channels: u32, desired_output: usize) -> (usize, usize) {
    (
        if 1 <= hal_channels <= MAX_HAL_CHANNELS { hal_channels as usize } else { 2 },
        if desired_output < 1 {
            1
        } else if desired_output > MAX_HAL_CHANNELS {
            MAX_HAL_CHANNELS
        } else {
            desired_output
        },
    )
}

/// The channels to start with. Capture starts at the driver's channel count, so a start does not
/// force a restart right away.
pub fn startup_channel_geometry(hal_channel_count: u32, desired_output_channels: usize) -> (r: (usize, usize))
    ensures
        r == startup_geometry(hal_channel_count, desired_output_channels),
{
    let inputs: usize = if hal_channel_count >= 1 && hal_channel_count as usize <= MAX_HAL_CHANNELS {
        hal_channel_count as usize
    } else {
        2
    };
    let outputs: usize = if desired_output_channels < 1 {
        1
    } else if desired_output_channels > MAX_HAL_CHANNELS {
        MAX_HAL_CHANNELS
    } else {
        desired_output_channels
    };
    (inputs, outputs)
}

/// How often a cold start is tried.
pub const COLD_START_MAX_ATTEMPTS: u32 = 4;

/// How long one attempt waits for its device, in nanoseconds.
pub const COLD_START_DEVICE_WAIT: u64 = 10_000_000_000;

/// What follows an attempt to start.
#[derive(Debug)]
pub enum StartupNext {
    /// Playback runs.
    Started,
    /// It failed for good.
    Failed,
    /// Another change of the pipeline came first.
    StandDown,
    /// Wait for the device and try again once it is there.
    AwaitDevice(String),
    /// Pause and try again.
    Pause,
}

/// What a `StartupNext` stands for.
pub enum StartupStep {
    Started,
    Failed,
    StandDown,
    AwaitDevice(Seq<char>),
    Pause,
}

impl View for StartupNext {
    type V = StartupStep;

    open spec fn view(&self) -> StartupStep {
        match *self {
            StartupNext::Started => StartupStep::Started,
            StartupNext::Failed => StartupStep::Failed,
            StartupNext::StandDown => StartupStep::StandDown,
            StartupNext::AwaitDevice(device) => StartupStep::AwaitDevice(device@),
            StartupNext::Pause => StartupStep::Pause,
        }
    }
}

/// What follows an attempt to start. Only a failure that looks like a device that is not there yet
/// is tried again, a bounded number of times, and never over another change of the pipeline.
pub open spec fn startup_step(
    attempt: u32,
    success: bool,
    error: Option<Seq<char>>,
    generation_before: u64,
    generation: u64,
    selected: Option<Seq<char>>,
) -> StartupStep {
    if success {
        StartupStep::Started
    } else if attempt >= COLD_START_MAX_ATTEMPTS {
        StartupStep::Failed
    } else if generation != generation_before {
        StartupStep::StandDown
    } else if !is_availability_error(error) {
        StartupStep::Failed
    } else {
        match selected {
            Some(device) => StartupStep::AwaitDevice(device),
            None => StartupStep::Pause,
        }
    }
}

fn borrowed_text(value: &Option<String>) -> (r: Option<&str>)
    ensures
        opt_str(r) == opt_text(*value),
{
    match value {
        Some(text) => Some(text.as_str()),
        None => None,
    }
}

/// What follows an attempt to start.
pub fn after_startup_attempt(
    attempt: u32,
    success: bool,
    error: &Option<String>,
    generation_before: u64,
    generation: u64,
    selected: Option<String>,
) -> (r: StartupNext)
    ensures
        r@ == startup_step(
            attempt,
            success,
            opt_text(*error),
            generation_before,
            generation,
            opt_text(selected),
        ),
{
    if success {
        return StartupNext::Started;
    }
    if attempt >= COLD_START_MAX_ATTEMPTS {
        return StartupNext::Failed;
    }
    if generation != generation_before {
        return StartupNext::StandDown;
    }
    if !startup_error_is_device_availability(borrowed_text(error)) {
        return StartupNext::Failed;
    }
    match selected {
        Some(device) => StartupNext::AwaitDevice(device),
        None => StartupNext::Pause,
    }
}

/// Whether the first `n` attempts all failed and each asked for another one.
pub open spec fn all_retried(
    successes: Seq<bool>,
    errors: Seq<Option<Seq<char>>>,
    before: Seq<u64>,
    after: Seq<u64>,
    selected: Seq<Option<Seq<char>>>,
    n: int,
) -> bool {
    forall|i: int|
        0 <= i < n ==> {
            let step = #[trigger] startup_step((i + 1) as u32, successes[i], errors[i], before[i], after[i], selected[i]);
            step is AwaitDevice || step is Pause
        }
}

/// A cold start is tried only so often: after the last attempt nothing is tried again, whatever the
/// attempts came to.
pub proof fn cold_starts_are_bounded(
    successes: Seq<bool>,
    errors: Seq<Option<Seq<char>>>,
    before: Seq<u64>,
    after: Seq<u64>,
    selected: Seq<Option<Seq<char>>>,
    n: int,
)
    requires
        0 <= n <= u32::MAX,
        all_retried(successes, errors, before, after, selected, n),
    ensures
        n < COLD_START_MAX_ATTEMPTS,
{
    if n >= COLD_START_MAX_ATTEMPTS {
        let i = COLD_START_MAX_ATTEMPTS - 1;
        let step = startup_step(
            (i + 1) as u32,
            successes[i],
            errors[i],
            before[i],
            after[i],
            selected[i],
        );
        assert(step is AwaitDevice || step is Pause);
    }
}

/// The route to recall at a cold start: the device's UID where it is the one used last, and its
/// name.
pub open spec fn startup_route(store: StoreModel, configured: Option<Seq<char>>) -> Option<
    (Option<Seq<char>>, Seq<char>),
> {
    let name = if named_device(configured) is Some {
        named_device(configured)
    } else {
        store.current_device_name
    };
    match name {
        None => None,
        Some(device) => {
            let uid = if store.current_device_name == Some(device) && store.current_device_uid is Some
                && trimmed(store.current_device_uid->0).len() > 0 {
                store.current_device_uid
            } else {
                None
            };
            Some((uid, device))
        },
    }
}

/// The view of an optional route.
pub open spec fn opt_route(route: Option<(Option<String>, String)>) -> Option<
    (Option<Seq<char>>, Seq<char>),
> {
    match route {
        Some(r) => Some((opt_text(r.0), r.1@)),
        None => None,
    }
}

/// The route to recall at a cold start.
pub fn recall_startup_route(store: &OutputProfileStore, configured_device: Option<&str>) -> (r: Option<
    (Option<String>, String),
>)
    ensures
        opt_route(r) == startup_route(store@, opt_str(configured_device)),
{
    let named = configured_output_device_from_value(configured_device);
    let device = match named {
        Some(device) => device,
        None => match &store.current_device_name {
            Some(device) => device.clone(),
            None => {
                return None;
            },
        },
    };
    let same_device = match &store.current_device_name {
        Some(current) => same_text(current.as_str(), device.as_str()),
        None => false,
    };
    let uid = match &store.current_device_uid {
        Some(uid) => if same_device && !is_blank(uid.as_str()) {
            Some(uid.clone())
        } else {
            None
        },
        None => None,
    };
    Some((uid, device))
}

/// What a `StartupChain` stands for.
pub enum StartupModel {
    Rack(Seq<PluginModel>),
    Graph(GraphModel),
}

impl View for StartupChain {
    type V = StartupModel;

    open spec fn view(&self) -> StartupModel {
        match *self {
            StartupChain::Rack(plugins) => StartupModel::Rack(plugin_models(plugins@)),
            StartupChain::Graph(graph) => StartupModel::Graph(graph@),
        }
    }
}

/// The chain of a profile.
pub open spec fn profile_chain(profile: ProfileModel) -> StartupModel {
    match profile.graph {
        Some(graph) if profile.topology == "graph"@ => StartupModel::Graph(graph),
        _ => StartupModel::Rack(profile.plugins),
    }
}

/// What a cold start recalls: the chain of the route's profile, and the store with that route
/// current. Without a profile the chain is empty and the store is unchanged.
pub open spec fn recalled(store: StoreModel, uid: Option<Seq<char>>, device: Seq<char>) -> (
    StartupModel,
    StoreModel,
) {
    match route_profile(store, uid, device, None) {
        Err(_) => (StartupModel::Rack(Seq::empty()), store),
        Ok(profile) => (
            profile_chain(profile),
            StoreModel {
                current_device_uid: uid,
                current_device_name: Some(device),
                current_profile_id: Some(profile.id),
                ..store
            },
        ),
    }
}

/// Recalls the chain of a route from a store that has adopted the live chain.
pub fn recall_startup_chain(store: &mut OutputProfileStore, uid: Option<String>, device: String) -> (r: StartupChain)
    requires
        old(store).wf(),
    ensures
        final(store).wf(),
        (r@, final(store)@) == recalled(old(store)@, opt_text(uid), device@),
{
    let profile = match resolve_route_profile(store, &uid, device.as_str(), &None) {
        Ok(profile) => profile,
        Err(_) => {
            let none: Vec<PluginConfig> = Vec::new();
            proof {
                assert(plugin_models(none@) =~= Seq::<PluginModel>::empty());
            }
            return StartupChain::Rack(none);
        },
    };
    let is_graph = profile.is_graph();
    store.set_current_in_memory(uid, Some(device), Some(profile.id));
    match profile.graph {
        Some(graph) if is_graph => StartupChain::Graph(graph),
        _ => StartupChain::Rack(profile.plugins),
    }
}

/// Whether playback runs, or why it cannot.
pub open spec fn playback_state(last_error: Option<Seq<char>>, callbacks: u64) -> Result<bool, Seq<char>> {
    if reports_error(last_error) {
        Err("Playback startup failed: "@ + last_error->0)
    } else {
        Ok(callbacks > 0)
    }
}

/// The view of an observation.
pub open spec fn observation_of(r: Result<bool, String>) -> Result<bool, Seq<char>> {
    match r {
        Ok(b) => Ok(b),
        Err(e) => Err(e@),
    }
}

/// Whether playback runs, which hardware callbacks show, or why it cannot.
pub fn playback_startup_observation(last_error: &Option<String>, callback_count: u64) -> (r: Result<bool, String>)
    ensures
        observation_of(r) == playback_state(opt_text(*last_error), callback_count),
{
    if let Some(error) = last_error {
        if error.as_str().unicode_len() > 0 {
            return Err(join2("Playback startup failed: ", error.as_str()));
        }
    }
    Ok(callback_count > 0)
}

/// What to do while waiting for playback.
#[derive(Debug)]
pub enum PlaybackWait {
    /// The wait is over.
    Settled(Result<(), String>),
    /// Look again after a pause.
    Again,
}

/// What a `PlaybackWait` stands for.
pub enum WaitStep {
    Settled(Result<(), Seq<char>>),
    Again,
}

impl View for PlaybackWait {
    type V = WaitStep;

    open spec fn view(&self) -> WaitStep {
        match *self {
            PlaybackWait::Settled(Ok(_)) => WaitStep::Settled(Ok(())),
            PlaybackWait::Settled(Err(e)) => WaitStep::Settled(Err(e@)),
            PlaybackWait::Again => WaitStep::Again,
        }
    }
}

/// One look while waiting for playback: a shutdown comes first, then what was seen, then the time.
pub open spec fn wait_step(
    running: bool,
    seen: Result<bool, Seq<char>>,
    expired: bool,
    timeout_millis: u64,
    context: Seq<char>,
) -> WaitStep {
    if !running {
        WaitStep::Settled(Err("Daemon shutdown requested during "@ + context))
    } else {
        match seen {
            Err(e) => WaitStep::Settled(Err(e)),
            Ok(true) => WaitStep::Settled(Ok(())),
            Ok(false) => if expired {
                WaitStep::Settled(
                    Err(
                        "Playback did not reach a hardware callback within "@ + decimal(
                            timeout_millis as nat,
                        ) + "ms"@,
                    ),
                )
            } else {
                WaitStep::Again
            },
        }
    }
}

/// One look while waiting for playback.
pub fn wait_for_playback_step(
    running: bool,
    seen: Result<bool, String>,
    expired: bool,
    timeout_millis: u64,
    shutdown_context: &str,
) -> (r: PlaybackWait)
    ensures
        r@ == wait_step(running, observation_of(seen), expired, timeout_millis, shutdown_context@),
{
    if !running {
        return PlaybackWait::Settled(
            Err(join2("Daemon shutdown requested during ", shutdown_context)),
        );
    }
    match seen {
        Err(error) => PlaybackWait::Settled(Err(error)),
        Ok(true) => PlaybackWait::Settled(Ok(())),
        Ok(false) => {
            if expired {
                let limit = decimal_text(timeout_millis);
                PlaybackWait::Settled(
                    Err(
                        join3(
                            "Playback did not reach a hardware callback within ",
                            limit.as_str(),
                            "ms",
                        ),
                    ),
                )
            } else {
                PlaybackWait::Again
            }
        },
    }
}

/// Whether a recorded failure may be healed without a restart: the driver is ready and playback
/// meets the bar of a start.
pub fn should_heal_stale_readiness(
    recovery_recorded: bool,
    driver_ready: bool,
    startup_observation: &Result<bool, String>,
) -> (r: bool)
    ensures
        r == (recovery_recorded && driver_ready && observation_of(*startup_observation)
            == Ok::<bool, Seq<char>>(true)),
{
    let healthy = match startup_observation {
        Ok(running) => *running,
        Err(_) => false,
    };
    recovery_recorded && driver_ready && healthy
}

/// A cold start takes the channels that the driver reports where it can carry them, and stereo where it
/// cannot, and the desired output channels, brought into range.
pub proof fn cold_starts_fit_the_driver(hal_channels: u32, desired_output: usize)
    ensures
        ({
            let (inputs, outputs) = startup_geometry(hal_channels, desired_output);
            &&& 1 <= hal_channels <= 32 ==> inputs == hal_channels
            &&& hal_channels < 1 || hal_channels > 32 ==> inputs == 2
            &&& 1 <= desired_output <= 32 ==> outputs == desired_output
            &&& desired_output < 1 ==> outputs == 1
            &&& desired_output > 32 ==> outputs == 32
        }),
{
}

/// A cold start is tried again exactly where it failed for a device that is not there yet, fewer than
/// four attempts were made, and nobody changed the pipeline meanwhile. It then waits for the selected
/// device where one is selected.
pub proof fn cold_starts_are_retried_for_missing_devices(
    attempt: u32,
    success: bool,
    error: Option<Seq<char>>,
    before: u64,
    after: u64,
    selected: Option<Seq<char>>,
)
    ensures
        ({
            let step = startup_step(attempt, success, error, before, after, selected);
            let again = !success && attempt < 4 && before == after && is_availability_error(error);
            &&& step is Started <==> success
            &&& again <==> step is AwaitDevice || step is Pause
            &&& again ==> (selected matches Some(device) ==> step == StartupStep::AwaitDevice(device))
            &&& again && selected is None ==> step is Pause
            &&& !success && attempt < 4 && before != after ==> step is StandDown
            &&& !success && attempt >= 4 ==> step is Failed
            &&& !success && attempt < 4 && before == after && !is_availability_error(error) ==> step
                is Failed
        }),
{
}

/// A cold start goes back to the configured device, or to the one that was used last. The UID that is
/// remembered belongs to the device that was used last, and is used for no other.
pub proof fn cold_starts_go_back_to_the_last_device(store: StoreModel, configured: Option<Seq<char>>)
    ensures
        ({
            let route = startup_route(store, configured);
            let named = configured is Some && trimmed(configured->0).len() > 0;
            &&& route is Some <==> named || store.current_device_name is Some
            &&& named ==> (route->0).1 == trimmed(configured->0)
            &&& !named && route is Some ==> Some((route->0).1) == store.current_device_name
            &&& route is Some && (route->0).0 is Some ==> (route->0).0 == store.current_device_uid
                && store.current_device_name == Some((route->0).1)
            &&& !named && route is Some && store.current_device_uid is Some && trimmed(
                store.current_device_uid->0,
            ).len() > 0 ==> (route->0).0 == store.current_device_uid
        }),
{
}

/// The chain that a cold start plays is that of the profile which the device has, as a graph where the
/// profile is one. The profile is then the current one, and the device the current device. Without a
/// profile nothing is played and nothing is changed.
pub proof fn cold_starts_play_the_profile_of_the_device(store: StoreModel, uid: Option<Seq<char>>, device: Seq<char>)
    ensures
        ({
            let (chain, after) = recalled(store, uid, device);
            let id = crate::output_profiles::resolved(store, uid, device);
            &&& id is None ==> chain == StartupModel::Rack(Seq::empty()) && after == store
            &&& id is Some ==> {
                let profile = store.profiles[id->0];
                &&& profile.topology == "graph"@ && profile.graph is Some ==> chain
                    == StartupModel::Graph(profile.graph->0)
                &&& profile.topology != "graph"@ || profile.graph is None ==> chain
                    == StartupModel::Rack(profile.plugins)
                &&& after.current_profile_id == Some(profile.id) && after.current_device_name == Some(device)
                &&& after.current_device_uid == uid
                &&& after.profiles == store.profiles && after.assignments == store.assignments
            }
        }),
{
}

/// Playback counts as running only after a hardware callback and without an error. A wait for it ends
/// well only then, while the daemon runs, and goes on only while the daemon runs, nothing is wrong and
/// there is time left.
pub proof fn waits_end_well_only_when_playback_runs(
    running: bool,
    error: Option<Seq<char>>,
    callbacks: u64,
    expired: bool,
    timeout: u64,
    context: Seq<char>,
)
    ensures
        ({
            let seen = playback_state(error, callbacks);
            let step = wait_step(running, seen, expired, timeout, context);
            let wrong = error is Some && error->0.len() > 0;
            &&& seen == Ok::<bool, Seq<char>>(true) <==> !wrong && callbacks > 0
            &&& seen is Err <==> wrong
            &&& wrong ==> seen == Err::<bool, Seq<char>>("Playback startup failed: "@ + error->0)
            &&& step == WaitStep::Settled(Ok(())) <==> running && !wrong && callbacks > 0
            &&& step is Again <==> running && !wrong && callbacks == 0 && !expired
            &&& !running ==> step == WaitStep::Settled(
                Err("Daemon shutdown requested during "@ + context),
            )
            &&& running && wrong ==> step == WaitStep::Settled(
                Err("Playback startup failed: "@ + error->0),
            )
            &&& running && !wrong && callbacks == 0 && expired ==> step == WaitStep::Settled(
                Err(
                    "Playback did not reach a hardware callback within "@ + decimal(timeout as nat)
                        + "ms"@,
                ),
            )
        }),
{
}

} // verus!
