//! The commands that clients send, and what those that change the pipeline are turned into.

use crate::apply::{fallback_channels, setting_or};
use crate::configuration::{ConfigurationPatch, PatchModel};
use crate::driver::DriverStatus;
use crate::graph::{
    accepts_graphs, graph_outcome, rack_candidate, rack_plugins_to_linear_graph,
    reorder_linear_graph, reorder_outcome, settled_outcome,
};
use crate::ipc::{conflict_text, refuse_outdated};
use crate::output_device::opt_text;
use crate::pipeline::{
    chain_plan, plan_outcome, spec_plan_outcome, PipelinePlan, PlanModel, SpecModel,
};
use crate::plugins::{plugin_models, GraphModel, PluginConfig, PluginGraphConfig, PluginModel};
use crate::response::{err_response, Response};
use crate::security::{allows, PeerClass};
use crate::state::{StateModel, SystemwideState};
use crate::text::{decimal, join2, same_text};
use vstd::prelude::*;

verus! {

/// The commands of the protocol.
#[derive(Debug, Clone, Copy, PartialEq, Eq, Structural)]
pub enum Command {
    Ping,
    Status,
    GetSnapshot,
    DumpState,
    Load,
    Play,
    Pause,
    Stop,
    Seek,
    SetVolume,
    ListDevices,
    SetDevice,
    ApplyConfiguration,
    LoadPlugins,
    LoadPluginArtifact,
    LoadPluginArtifactPath,
    ReorderGraph,
    SetInputChannels,
    SetOutputChannels,
    SetPipelineChannels,
    GetLoudness,
    GetMetering,
    GetPlugins,
    GetAvailablePlugins,
    AddPlugin,
    RemovePlugin,
    UpdatePlugin,
    ReorderPlugins,
    SetRackPluginState,
    GetOutputProfiles,
    SetOutputProfile,
    DeleteOutputProfile,
    AssignOutputProfile,
    SetOutputRoute,
    DriverStatus,
    Shutdown,
    SetEncryption,
    EncryptionStatus,
    RotateEncryptionKey,
    SetSampleRate,
    SetBufferFrames,
    GetDriverConfig,
}

/// The name of a command on the wire.
pub open spec fn command_name(c: Command) -> Seq<char> {
    match c {
        Command::Ping => "ping"@,
        Command::Status => "status"@,
        Command::GetSnapshot => "get_snapshot"@,
        Command::DumpState => "dump_state"@,
        Command::Load => "load"@,
        Command::Play => "play"@,
        Command::Pause => "pause"@,
        Command::Stop => "stop"@,
        Command::Seek => "seek"@,
        Command::SetVolume => "set_volume"@,
        Command::ListDevices => "list_devices"@,
        Command::SetDevice => "set_device"@,
        Command::ApplyConfiguration => "apply_configuration"@,
        Command::LoadPlugins => "load_plugins"@,
        Command::LoadPluginArtifact => "load_plugin_artifact"@,
        Command::LoadPluginArtifactPath => "load_plugin_artifact_path"@,
        Command::ReorderGraph => "reorder_graph"@,
        Command::SetInputChannels => "set_input_channels"@,
        Command::SetOutputChannels => "set_output_channels"@,
        Command::SetPipelineChannels => "set_pipeline_channels"@,
        Command::GetLoudness => "get_loudness"@,
        Command::GetMetering => "get_metering"@,
        Command::GetPlugins => "get_plugins"@,
        Command::GetAvailablePlugins => "get_available_plugins"@,
        Command::AddPlugin => "add_plugin"@,
        Command::RemovePlugin => "remove_plugin"@,
        Command::UpdatePlugin => "update_plugin"@,
        Command::ReorderPlugins => "reorder_plugins"@,
        Command::SetRackPluginState => "set_rack_plugin_state"@,
        Command::GetOutputProfiles => "get_output_profiles"@,
        Command::SetOutputProfile => "set_output_profile"@,
        Command::DeleteOutputProfile => "delete_output_profile"@,
        Command::AssignOutputProfile => "assign_output_profile"@,
        Command::SetOutputRoute => "set_output_route"@,
        Command::DriverStatus => "driver_status"@,
        Command::Shutdown => "shutdown"@,
        Command::SetEncryption => "set_encryption"@,
        Command::EncryptionStatus => "encryption_status"@,
        Command::RotateEncryptionKey => "rotate_encryption_key"@,
        Command::SetSampleRate => "set_sample_rate"@,
        Command::SetBufferFrames => "set_buffer_frames"@,
        Command::GetDriverConfig => "get_driver_config"@,
    }
}

/// Whether a command goes by a name: its own, or one that older clients use.
pub open spec fn answers_to(c: Command, name: Seq<char>) -> bool {
    ||| name == command_name(c)
    ||| c == Command::GetSnapshot && name == "snapshot"@
    ||| c == Command::DriverStatus && name == "hal_status"@
    ||| c == Command::GetDriverConfig && name == "get_hal_config"@
}

/// Whether carrying out a command can replace the applied pipeline.
pub open spec fn replaces_pipeline(c: Command) -> bool {
    ||| c == Command::Play
    ||| c == Command::SetDevice
    ||| c == Command::ApplyConfiguration
    ||| c == Command::LoadPlugins
    ||| c == Command::LoadPluginArtifact
    ||| c == Command::LoadPluginArtifactPath
    ||| c == Command::ReorderGraph
    ||| c == Command::SetInputChannels
    ||| c == Command::SetOutputChannels
    ||| c == Command::SetPipelineChannels
    ||| c == Command::AddPlugin
    ||| c == Command::RemovePlugin
    ||| c == Command::UpdatePlugin
    ||| c == Command::ReorderPlugins
    ||| c == Command::SetRackPluginState
    ||| c == Command::SetOutputRoute
    ||| c == Command::SetSampleRate
    ||| c == Command::SetBufferFrames
}

impl Command {
    /// The name of the command on the wire.
    pub fn name(&self) -> (r: &'static str)
        ensures
            r@ == command_name(*self),
    {
        match self {
            Command::Ping => "ping",
            Command::Status => "status",
            Command::GetSnapshot => "get_snapshot",
            Command::DumpState => "dump_state",
            Command::Load => "load",
            Command::Play => "play",
            Command::Pause => "pause",
            Command::Stop => "stop",
            Command::Seek => "seek",
            Command::SetVolume => "set_volume",
            Command::ListDevices => "list_devices",
            Command::SetDevice => "set_device",
            Command::ApplyConfiguration => "apply_configuration",
            Command::LoadPlugins => "load_plugins",
            Command::LoadPluginArtifact => "load_plugin_artifact",
            Command::LoadPluginArtifactPath => "load_plugin_artifact_path",
            Command::ReorderGraph => "reorder_graph",
            Command::SetInputChannels => "set_input_channels",
            Command::SetOutputChannels => "set_output_channels",
            Command::SetPipelineChannels => "set_pipeline_channels",
            Command::GetLoudness => "get_loudness",
            Command::GetMetering => "get_metering",
            Command::GetPlugins => "get_plugins",
            Command::GetAvailablePlugins => "get_available_plugins",
            Command::AddPlugin => "add_plugin",
            Command::RemovePlugin => "remove_plugin",
            Command::UpdatePlugin => "update_plugin",
            Command::ReorderPlugins => "reorder_plugins",
            Command::SetRackPluginState => "set_rack_plugin_state",
            Command::GetOutputProfiles => "get_output_profiles",
            Command::SetOutputProfile => "set_output_profile",
            Command::DeleteOutputProfile => "delete_output_profile",
            Command::AssignOutputProfile => "assign_output_profile",
            Command::SetOutputRoute => "set_output_route",
            Command::DriverStatus => "driver_status",
            Command::Shutdown => "shutdown",
            Command::SetEncryption => "set_encryption",
            Command::EncryptionStatus => "encryption_status",
            Command::RotateEncryptionKey => "rotate_encryption_key",
            Command::SetSampleRate => "set_sample_rate",
            Command::SetBufferFrames => "set_buffer_frames",
            Command::GetDriverConfig => "get_driver_config",
        }
    }

    /// Whether carrying out the command can replace the applied pipeline.
    pub fn changes_pipeline(&self) -> (r: bool)
        ensures
            r == replaces_pipeline(*self),
    {
        match self {
            Command::Play | Command::SetDevice | Command::ApplyConfiguration | Command::LoadPlugins
            | Command::LoadPluginArtifact | Command::LoadPluginArtifactPath | Command::ReorderGraph
            | Command::SetInputChannels | Command::SetOutputChannels | Command::SetPipelineChannels
            | Command::AddPlugin | Command::RemovePlugin | Command::UpdatePlugin
            | Command::ReorderPlugins | Command::SetRackPluginState | Command::SetOutputRoute
            | Command::SetSampleRate | Command::SetBufferFrames => true,
            _ => false,
        }
    }

    /// The command that a name on the wire stands for.
    pub fn named(name: &str) -> (r: Option<Command>)
        ensures
            r is Some ==> answers_to(r->0, name@),
            r is None ==> forall|c: Command| !#[trigger] answers_to(c, name@),
    {
        if same_text(name, "ping") {
            Some(Command::Ping)
        } else if same_text(name, "status") {
            Some(Command::Status)
        } else if same_text(name, "get_snapshot") || same_text(name, "snapshot") {
            Some(Command::GetSnapshot)
        } else if same_text(name, "dump_state") {
            Some(Command::DumpState)
        } else if same_text(name, "load") {
            Some(Command::Load)
        } else if same_text(name, "play") {
            Some(Command::Play)
        } else if same_text(name, "pause") {
            Some(Command::Pause)
        } else if same_text(name, "stop") {
            Some(Command::Stop)
        } else if same_text(name, "seek") {
            Some(Command::Seek)
        } else if same_text(name, "set_volume") {
            Some(Command::SetVolume)
        } else if same_text(name, "list_devices") {
            Some(Command::ListDevices)
        } else if same_text(name, "set_device") {
            Some(Command::SetDevice)
        } else if same_text(name, "apply_configuration") {
            Some(Command::ApplyConfiguration)
        } else if same_text(name, "load_plugins") {
            Some(Command::LoadPlugins)
        } else if same_text(name, "load_plugin_artifact") {
            Some(Command::LoadPluginArtifact)
        } else if same_text(name, "load_plugin_artifact_path") {
            Some(Command::LoadPluginArtifactPath)
        } else if same_text(name, "reorder_graph") {
            Some(Command::ReorderGraph)
        } else if same_text(name, "set_input_channels") {
            Some(Command::SetInputChannels)
        } else if same_text(name, "set_output_channels") {
            Some(Command::SetOutputChannels)
        } else if same_text(name, "set_pipeline_channels") {
            Some(Command::SetPipelineChannels)
        } else if same_text(name, "get_loudness") {
            Some(Command::GetLoudness)
        } else if same_text(name, "get_metering") {
            Some(Command::GetMetering)
        } else if same_text(name, "get_plugins") {
            Some(Command::GetPlugins)
        } else if same_text(name, "get_available_plugins") {
            Some(Command::GetAvailablePlugins)
        } else if same_text(name, "add_plugin") {
            Some(Command::AddPlugin)
        } else if same_text(name, "remove_plugin") {
            Some(Command::RemovePlugin)
        } else if same_text(name, "update_plugin") {
            Some(Command::UpdatePlugin)
        } else if same_text(name, "reorder_plugins") {
            Some(Command::ReorderPlugins)
        } else if same_text(name, "set_rack_plugin_state") {
            Some(Command::SetRackPluginState)
        } else if same_text(name, "get_output_profiles") {
            Some(Command::GetOutputProfiles)
        } else if same_text(name, "set_output_profile") {
            Some(Command::SetOutputProfile)
        } else if same_text(name, "delete_output_profile") {
            Some(Command::DeleteOutputProfile)
        } else if same_text(name, "assign_output_profile") {
            Some(Command::AssignOutputProfile)
        } else if same_text(name, "set_output_route") {
            Some(Command::SetOutputRoute)
        } else if same_text(name, "driver_status") || same_text(name, "hal_status") {
            Some(Command::DriverStatus)
        } else if same_text(name, "shutdown") {
            Some(Command::Shutdown)
        } else if same_text(name, "set_encryption") {
            Some(Command::SetEncryption)
        } else if same_text(name, "encryption_status") {
            Some(Command::EncryptionStatus)
        } else if same_text(name, "rotate_encryption_key") {
            Some(Command::RotateEncryptionKey)
        } else if same_text(name, "set_sample_rate") {
            Some(Command::SetSampleRate)
        } else if same_text(name, "set_buffer_frames") {
            Some(Command::SetBufferFrames)
        } else if same_text(name, "get_driver_config") || same_text(name, "get_hal_config") {
            Some(Command::GetDriverConfig)
        } else {
            None
        }
    }
}

/// The refusal of a command that can replace the pipeline and was based on an outdated one, before
/// any of its effects.
pub fn refuse_outdated_pipeline_intent(command: &Command, base_generation: Option<u64>, current: u64) -> (r: Option<
    Response,
>)
    ensures
        if replaces_pipeline(*command) && base_generation is Some && base_generation->0 != current {
            r is Some && r->0@ == err_response(
                conflict_text(
                    "Pipeline generation conflict: intent was based on generation "@,
                    base_generation->0,
                    current,
                    ". Refresh and retry."@,
                ),
            )
        } else {
            r is None
        },
{
    if !command.changes_pipeline() {
        return None;
    }
    refuse_outdated(
        "Pipeline generation conflict: intent was based on generation ",
        base_generation,
        current,
        ". Refresh and retry.",
    )
}

/// No two commands go by the same name.
pub proof fn names_tell_commands_apart(a: Command, b: Command, name: Seq<char>)
    requires
        answers_to(a, name),
        answers_to(b, name),
    ensures
        a == b,
{
    reveal_strlit("ping");
    assert("ping"@.len() == 4);
    assert("ping"@[1] == 'i');
    reveal_strlit("load");
    assert("load"@.len() == 4);
    assert("load"@[1] == 'o');
    reveal_strlit("play");
    assert("play"@.len() == 4);
    assert("play"@[1] == 'l');
    reveal_strlit("stop");
    assert("stop"@.len() == 4);
    assert("stop"@[1] == 't');
    reveal_strlit("seek");
    assert("seek"@.len() == 4);
    assert("seek"@[1] == 'e');
    reveal_strlit("pause");
    assert("pause"@.len() == 5);
    reveal_strlit("status");
    assert("status"@.len() == 6);
    reveal_strlit("shutdown");
    assert("shutdown"@.len() == 8);
    assert("shutdown"@[1] == 'h');
    reveal_strlit("snapshot");
    assert("snapshot"@.len() == 8);
    assert("snapshot"@[1] == 'n');
    reveal_strlit("dump_state");
    assert("dump_state"@.len() == 10);
    assert("dump_state"@[4] == '_');
    reveal_strlit("set_volume");
    assert("set_volume"@.len() == 10);
    assert("set_volume"@[4] == 'v');
    reveal_strlit("set_device");
    assert("set_device"@.len() == 10);
    assert("set_device"@[4] == 'd');
    reveal_strlit("add_plugin");
    assert("add_plugin"@.len() == 10);
    assert("add_plugin"@[4] == 'p');
    reveal_strlit("hal_status");
    assert("hal_status"@.len() == 10);
    assert("hal_status"@[4] == 's');
    reveal_strlit("get_plugins");
    assert("get_plugins"@.len() == 11);
    reveal_strlit("get_snapshot");
    assert("get_snapshot"@.len() == 12);
    assert("get_snapshot"@[5] == 'n');
    reveal_strlit("list_devices");
    assert("list_devices"@.len() == 12);
    assert("list_devices"@[5] == 'd');
    reveal_strlit("load_plugins");
    assert("load_plugins"@.len() == 12);
    assert("load_plugins"@[5] == 'p');
    reveal_strlit("get_loudness");
    assert("get_loudness"@.len() == 12);
    assert("get_loudness"@[5] == 'o');
    reveal_strlit("get_metering");
    assert("get_metering"@.len() == 12);
    assert("get_metering"@[5] == 'e');
    reveal_strlit("reorder_graph");
    assert("reorder_graph"@.len() == 13);
    assert("reorder_graph"@[2] == 'o');
    reveal_strlit("remove_plugin");
    assert("remove_plugin"@.len() == 13);
    assert("remove_plugin"@[2] == 'm');
    reveal_strlit("update_plugin");
    assert("update_plugin"@.len() == 13);
    assert("update_plugin"@[2] == 'd');
    reveal_strlit("driver_status");
    assert("driver_status"@.len() == 13);
    assert("driver_status"@[2] == 'i');
    reveal_strlit("set_encryption");
    assert("set_encryption"@.len() == 14);
    assert("set_encryption"@[0] == 's');
    reveal_strlit("get_hal_config");
    assert("get_hal_config"@.len() == 14);
    assert("get_hal_config"@[0] == 'g');
    reveal_strlit("reorder_plugins");
    assert("reorder_plugins"@.len() == 15);
    assert("reorder_plugins"@[0] == 'r');
    reveal_strlit("set_sample_rate");
    assert("set_sample_rate"@.len() == 15);
    assert("set_sample_rate"@[0] == 's');
    reveal_strlit("set_output_route");
    assert("set_output_route"@.len() == 16);
    reveal_strlit("encryption_status");
    assert("encryption_status"@.len() == 17);
    assert("encryption_status"@[0] == 'e');
    reveal_strlit("set_buffer_frames");
    assert("set_buffer_frames"@.len() == 17);
    assert("set_buffer_frames"@[0] == 's');
    reveal_strlit("get_driver_config");
    assert("get_driver_config"@.len() == 17);
    assert("get_driver_config"@[0] == 'g');
    reveal_strlit("set_input_channels");
    assert("set_input_channels"@.len() == 18);
    assert("set_input_channels"@[4] == 'i');
    reveal_strlit("set_output_profile");
    assert("set_output_profile"@.len() == 18);
    assert("set_output_profile"@[4] == 'o');
    reveal_strlit("apply_configuration");
    assert("apply_configuration"@.len() == 19);
    assert("apply_configuration"@[0] == 'a');
    reveal_strlit("set_output_channels");
    assert("set_output_channels"@.len() == 19);
    assert("set_output_channels"@[0] == 's');
    reveal_strlit("get_output_profiles");
    assert("get_output_profiles"@.len() == 19);
    assert("get_output_profiles"@[0] == 'g');
    reveal_strlit("load_plugin_artifact");
    assert("load_plugin_artifact"@.len() == 20);
    reveal_strlit("set_pipeline_channels");
    assert("set_pipeline_channels"@.len() == 21);
    assert("set_pipeline_channels"@[0] == 's');
    assert("set_pipeline_channels"@[4] == 'p');
    reveal_strlit("get_available_plugins");
    assert("get_available_plugins"@.len() == 21);
    assert("get_available_plugins"@[0] == 'g');
    assert("get_available_plugins"@[4] == 'a');
    reveal_strlit("set_rack_plugin_state");
    assert("set_rack_plugin_state"@.len() == 21);
    assert("set_rack_plugin_state"@[0] == 's');
    assert("set_rack_plugin_state"@[4] == 'r');
    reveal_strlit("delete_output_profile");
    assert("delete_output_profile"@.len() == 21);
    assert("delete_output_profile"@[0] == 'd');
    assert("delete_output_profile"@[4] == 't');
    reveal_strlit("assign_output_profile");
    assert("assign_output_profile"@.len() == 21);
    assert("assign_output_profile"@[0] == 'a');
    assert("assign_output_profile"@[4] == 'g');
    reveal_strlit("rotate_encryption_key");
    assert("rotate_encryption_key"@.len() == 21);
    assert("rotate_encryption_key"@[0] == 'r');
    assert("rotate_encryption_key"@[4] == 't');
    reveal_strlit("load_plugin_artifact_path");
    assert("load_plugin_artifact_path"@.len() == 25);
}

/// The audio server may ask for five reports, and so it never changes the pipeline.
pub proof fn drivers_never_change_the_pipeline(c: Command)
    ensures
        allows(PeerClass::CoreAudioD, command_name(c)) <==> {
            ||| c == Command::Status
            ||| c == Command::GetSnapshot
            ||| c == Command::DriverStatus
            ||| c == Command::EncryptionStatus
            ||| c == Command::GetDriverConfig
        },
        allows(PeerClass::CoreAudioD, command_name(c)) ==> !replaces_pipeline(c),
{
    let name = command_name(c);
    assert(answers_to(c, name));
    if name == "status"@ {
        names_tell_commands_apart(c, Command::Status, name);
    }
    if name == "get_snapshot"@ || name == "snapshot"@ {
        names_tell_commands_apart(c, Command::GetSnapshot, name);
    }
    if name == "driver_status"@ || name == "hal_status"@ {
        names_tell_commands_apart(c, Command::DriverStatus, name);
    }
    if name == "encryption_status"@ {
        names_tell_commands_apart(c, Command::EncryptionStatus, name);
    }
    if name == "get_driver_config"@ || name == "get_hal_config"@ {
        names_tell_commands_apart(c, Command::GetDriverConfig, name);
    }
}

/// The input channels that a chain gets where it names none.
pub fn default_input_channels() -> (r: usize)
    ensures
        r == 0,
{
    0
}

/// The output channels that a chain gets where it names none.
pub fn default_output_channels() -> (r: usize)
    ensures
        r == 2,
{
    2
}

/// A plan to apply at a format.
#[derive(Debug)]
pub struct ApplyRequest {
    pub plan: PipelinePlan,
    pub sample_rate: u32,
    pub buffer_frames: u32,
}

/// A plan, or an error with a complaint in front.
pub open spec fn complained(planned: Result<PlanModel, Seq<char>>, complaint: Seq<char>) -> Result<
    PlanModel,
    Seq<char>,
> {
    match planned {
        Ok(plan) => Ok(plan),
        Err(e) => Err(complaint + e),
    }
}

/// Whether a request applies a plan at the driver's format, or is refused with its error.
pub open spec fn request_matches(
    r: Result<ApplyRequest, Response>,
    planned: Result<PlanModel, Seq<char>>,
    status: DriverStatus,
) -> bool {
    match (r, planned) {
        (Ok(request), Ok(plan)) => request.plan@ == plan && request.sample_rate == setting_or(
            status.sample_rate,
            48000,
        ) && request.buffer_frames == setting_or(status.buffer_frames, 512),
        (Err(response), Err(e)) => response@ == err_response(e),
        _ => false,
    }
}

fn at_driver_format(planned: Result<PipelinePlan, String>, status: &DriverStatus) -> (r: Result<
    ApplyRequest,
    Response,
>)
    ensures
        request_matches(r, plan_outcome(planned), *status),
{
    match planned {
        Ok(plan) => Ok(
            ApplyRequest {
                plan,
                sample_rate: if status.sample_rate > 0 { status.sample_rate } else { 48000 },
                buffer_frames: if status.buffer_frames > 0 { status.buffer_frames } else { 512 },
            },
        ),
        Err(error) => Err(Response::err(error)),
    }
}

/// What starting playback may ask for: the desired pipeline at the driver's format.
pub open spec fn play_outcome<F: Fn(&PluginGraphConfig) -> Result<(), String>>(
    validate: F,
    s: StateModel,
    status: DriverStatus,
    configured: Option<Seq<char>>,
    r: Result<ApplyRequest, Response>,
) -> bool {
    exists|planned: Result<PlanModel, Seq<char>>|
        (#[trigger] spec_plan_outcome(
            validate,
            s.pipeline.desired,
            fallback_channels(status),
            configured,
            planned,
        )) && request_matches(
            r,
            complained(planned, "Failed to prepare playback pipeline: "@),
            status,
        )
}

/// What starting playback asks for.
pub fn handle_play<F: Fn(&PluginGraphConfig) -> Result<(), String>>(
    state: &SystemwideState,
    status: &DriverStatus,
    configured: &Option<String>,
    validate: &F,
) -> (r: Result<ApplyRequest, Response>)
    requires
        accepts_graphs(*validate),
    ensures
        play_outcome(*validate, state@, *status, opt_text(*configured), r),
{
    let fallback: usize = if status.channel_count > 0 {
        status.channel_count as usize
    } else {
        2
    };
    let planned = state.prepare_from_spec(&state.pipeline.desired, fallback, configured, validate);
    let ghost out = plan_outcome(planned);
    proof {
        assert(spec_plan_outcome(
            *validate,
            state@.pipeline.desired,
            fallback_channels(*status),
            opt_text(*configured),
            out,
        ));
    }
    let planned = match planned {
        Ok(plan) => Ok(plan),
        Err(error) => Err(join2("Failed to prepare playback pipeline: ", error.as_str())),
    };
    proof {
        assert(plan_outcome(planned) == complained(out, "Failed to prepare playback pipeline: "@));
    }
    at_driver_format(planned, status)
}

/// The channel count that a chain falls back to: the driver's, else the desired one, else stereo.
pub open spec fn load_fallback(status: DriverStatus, desired: usize) -> usize {
    if status.channel_count > 0 {
        status.channel_count as usize
    } else if desired > 0 {
        desired
    } else {
        2
    }
}

/// What loading a chain asks for.
pub fn handle_load_plugins_with_channels(
    state: &SystemwideState,
    plugins: Vec<PluginConfig>,
    input_channels: usize,
    output_channels: usize,
    status: &DriverStatus,
    configured: &Option<String>,
) -> (r: Result<ApplyRequest, Response>)
    ensures
        request_matches(
            r,
            chain_plan(
                state@.pipeline.desired,
                plugin_models(plugins@),
                input_channels,
                output_channels,
                load_fallback(*status, state@.pipeline.desired.input_channels),
                opt_text(*configured),
            ),
            *status,
        ),
{
    let desired: usize = state.input_channels();
    let fallback: usize = if status.channel_count > 0 {
        status.channel_count as usize
    } else if desired > 0 {
        desired
    } else {
        2
    };
    let planned = state.prepare_plan(plugins, input_channels, output_channels, fallback, configured);
    at_driver_format(planned, status)
}

/// A graph to load with the channels of the desired pipeline.
#[derive(Debug)]
pub struct GraphRequest {
    pub graph: PluginGraphConfig,
    pub input_channels: usize,
    pub output_channels: usize,
}

/// Whether a request loads a graph with the channels of the desired pipeline, or is refused.
pub open spec fn graph_request_matches(
    r: Result<GraphRequest, Response>,
    out: Result<GraphModel, Seq<char>>,
    desired: SpecModel,
) -> bool {
    match (r, out) {
        (Ok(request), Ok(g)) => request.graph@ == g && request.input_channels
            == desired.input_channels && request.output_channels == desired.output_channels,
        (Err(response), Err(e)) => response@ == err_response(e),
        _ => false,
    }
}

/// Whether a request is refused with a text.
pub open spec fn graph_refused(r: Result<GraphRequest, Response>, text: Seq<char>) -> bool {
    r matches Err(response) && response@ == err_response(text)
}

/// Whether an intent was based on another generation than the current one.
pub open spec fn is_outdated(base: Option<u64>, current: u64) -> bool {
    base is Some && base->0 != current
}

/// What reordering the active graph may ask for.
pub open spec fn reorder_request<F: Fn(&PluginGraphConfig) -> Result<(), String>>(
    validate: F,
    s: StateModel,
    order: Seq<usize>,
    base: Option<u64>,
    r: Result<GraphRequest, Response>,
) -> bool {
    if is_outdated(base, s.pipeline.generation) {
        graph_refused(
            r,
            conflict_text(
                "Graph generation conflict: editor based on generation "@,
                base->0,
                s.pipeline.generation,
                ". Refresh before reordering."@,
            ),
        )
    } else {
        match s.pipeline.desired.user_graph {
            None => graph_refused(
                r,
                "Graph reorder requires an active graph pipeline; use reorder_plugins for a rack."@,
            ),
            Some(graph) => reorder_settles(validate, graph, order, s.pipeline.desired, r),
        }
    }
}

/// What reordering a graph may ask for.
pub open spec fn reorder_settles<F: Fn(&PluginGraphConfig) -> Result<(), String>>(
    validate: F,
    graph: GraphModel,
    order: Seq<usize>,
    desired: SpecModel,
    r: Result<GraphRequest, Response>,
) -> bool {
    exists|out: Result<GraphModel, Seq<char>>|
        reorder_outcome(validate, graph, order, out) && #[trigger] graph_request_matches(r, out, desired)
}

fn with_desired_channels(state: &SystemwideState, outcome: Result<PluginGraphConfig, String>) -> (r: Result<
    GraphRequest,
    Response,
>)
    ensures
        graph_request_matches(r, graph_outcome(outcome), state@.pipeline.desired),
{
    match outcome {
        Ok(graph) => Ok(
            GraphRequest {
                graph,
                input_channels: state.input_channels(),
                output_channels: state.output_channels(),
            },
        ),
        Err(error) => Err(Response::err(error)),
    }
}

/// What reordering the active graph asks for.
pub fn handle_reorder_graph<F: Fn(&PluginGraphConfig) -> Result<(), String>>(
    state: &SystemwideState,
    order: &Vec<usize>,
    base_generation: Option<u64>,
    validate: &F,
) -> (r: Result<GraphRequest, Response>)
    requires
        accepts_graphs(*validate),
    ensures
        reorder_request(*validate, state@, order@, base_generation, r),
{
    if let Some(refusal) = refuse_outdated(
        "Graph generation conflict: editor based on generation ",
        base_generation,
        state.generation(),
        ". Refresh before reordering.",
    ) {
        return Err(refusal);
    }
    match &state.pipeline.desired.user_graph {
        None => Err(
            Response::err(
                "Graph reorder requires an active graph pipeline; use reorder_plugins for a rack.".to_owned(),
            ),
        ),
        Some(graph) => {
            let outcome = reorder_linear_graph(graph, order, validate);
            let ghost out = graph_outcome(outcome);
            proof {
                assert(reorder_outcome(*validate, graph@, order@, out));
            }
            let r = with_desired_channels(state, outcome);
            proof {
                assert(state@.pipeline.desired.user_graph == Some(graph@));
                assert(graph_request_matches(r, out, state@.pipeline.desired));
                assert(reorder_settles(*validate, graph@, order@, state@.pipeline.desired, r));
            }
            r
        },
    }
}

/// What changing the state of a rack plugin may ask for.
pub open spec fn rack_state_request<F: Fn(&PluginGraphConfig) -> Result<(), String>>(
    validate: F,
    s: StateModel,
    index: usize,
    input_channels: Option<usize>,
    bypassed: Option<bool>,
    base: Option<u64>,
    r: Result<GraphRequest, Response>,
) -> bool {
    let desired = s.pipeline.desired;
    if is_outdated(base, s.pipeline.generation) {
        graph_refused(
            r,
            conflict_text(
                "Rack generation conflict: editor based on generation "@,
                base->0,
                s.pipeline.generation,
                ". Refresh before changing plugin state."@,
            ),
        )
    } else if desired.user_graph is Some {
        graph_refused(
            r,
            "Rack plugin state requires a rack pipeline; use graph commands for graph nodes."@,
        )
    } else {
        match rack_candidate(
            desired.user_plugins,
            desired.input_channels,
            index,
            input_channels,
            bypassed,
        ) {
            Err(e) => graph_refused(r, e),
            Ok(candidate) => exists|out: Result<GraphModel, Seq<char>>|
                (#[trigger] settled_outcome(
                    validate,
                    candidate,
                    "Rack state cannot be represented as a graph: "@,
                    out,
                )) && graph_request_matches(r, out, desired),
        }
    }
}

/// What changing the state of a rack plugin asks for: the rack as a graph, whose nodes hold such
/// state.
pub fn handle_set_rack_plugin_state<F: Fn(&PluginGraphConfig) -> Result<(), String>>(
    state: &SystemwideState,
    index: usize,
    input_channels: Option<usize>,
    bypassed: Option<bool>,
    base_generation: Option<u64>,
    validate: &F,
) -> (r: Result<GraphRequest, Response>)
    requires
        accepts_graphs(*validate),
    ensures
        rack_state_request(
            *validate,
            state@,
            index,
            input_channels,
            bypassed,
            base_generation,
            r,
        ),
{
    if let Some(refusal) = refuse_outdated(
        "Rack generation conflict: editor based on generation ",
        base_generation,
        state.generation(),
        ". Refresh before changing plugin state.",
    ) {
        return Err(refusal);
    }
    if state.pipeline.desired.user_graph.is_some() {
        return Err(
            Response::err(
                "Rack plugin state requires a rack pipeline; use graph commands for graph nodes.".to_owned(),
            ),
        );
    }
    let outcome = rack_plugins_to_linear_graph(
        &state.pipeline.desired.user_plugins,
        state.input_channels(),
        index,
        input_channels,
        bypassed,
        validate,
    );
    let ghost out = graph_outcome(outcome);
    let r = with_desired_channels(state, outcome);
    proof {
        let desired = state@.pipeline.desired;
        let candidate = rack_candidate(
            desired.user_plugins,
            desired.input_channels,
            index,
            input_channels,
            bypassed,
        );
        if candidate is Ok {
            assert(settled_outcome(
                *validate,
                candidate->Ok_0,
                "Rack state cannot be represented as a graph: "@,
                out,
            ));
        }
    }
    r
}

/// The configuration patch that changes the channels of the pipeline.
pub fn handle_set_pipeline_channels(input_channels: Option<usize>, output_channels: Option<usize>) -> (r: Result<
    ConfigurationPatch,
    Response,
>)
    ensures
        if input_channels is None && output_channels is None {
            r matches Err(response) && response@ == err_response(
                "set_pipeline_channels requires input_channels or output_channels"@,
            )
        } else {
            r matches Ok(patch) && patch@ == (PatchModel {
                sample_rate: None,
                buffer_frames: None,
                input_channels,
                output_channels,
                output_device: None,
            })
        },
{
    if input_channels.is_none() && output_channels.is_none() {
        return Err(
            Response::err(
                "set_pipeline_channels requires input_channels or output_channels".to_owned(),
            ),
        );
    }
    Ok(
        ConfigurationPatch {
            sample_rate: None,
            buffer_frames: None,
            input_channels,
            output_channels,
            output_device: None,
        },
    )
}

/// The configuration patch that changes the sample rate.
pub fn handle_set_sample_rate(rate: u32) -> (r: ConfigurationPatch)
    ensures
        r@ == (PatchModel {
            sample_rate: Some(rate),
            buffer_frames: None,
            input_channels: None,
            output_channels: None,
            output_device: None,
        }),
{
    ConfigurationPatch {
        sample_rate: Some(rate),
        buffer_frames: None,
        input_channels: None,
        output_channels: None,
        output_device: None,
    }
}

/// The configuration patch that changes the buffer size.
pub fn handle_set_buffer_frames(frames: u32) -> (r: ConfigurationPatch)
    ensures
        r@ == (PatchModel {
            sample_rate: None,
            buffer_frames: Some(frames),
            input_channels: None,
            output_channels: None,
            output_device: None,
        }),
{
    ConfigurationPatch {
        sample_rate: None,
        buffer_frames: Some(frames),
        input_channels: None,
        output_channels: None,
        output_device: None,
    }
}

/// A change is requested at the format that the driver runs at, and at the defaults where it reports
/// none. What it plays is what was desired.
pub proof fn playing_requests_the_desired_pipeline<F: Fn(&PluginGraphConfig) -> Result<(), String>>(
    validate: F,
    s: StateModel,
    status: DriverStatus,
    configured: Option<Seq<char>>,
    request: ApplyRequest,
)
    requires
        play_outcome(validate, s, status, configured, Ok(request)),
    ensures
        status.sample_rate > 0 ==> request.sample_rate == status.sample_rate,
        status.sample_rate == 0 ==> request.sample_rate == 48000,
        status.buffer_frames > 0 ==> request.buffer_frames == status.buffer_frames,
        status.buffer_frames == 0 ==> request.buffer_frames == 512,
        request.plan@.spec.user_graph == s.pipeline.desired.user_graph,
        request.plan@.spec.output_channels == s.pipeline.desired.output_channels,
        s.pipeline.desired.input_channels > 0 ==> request.plan@.spec.input_channels
            == s.pipeline.desired.input_channels,
{
    let planned = choose|planned: Result<PlanModel, Seq<char>>|
        (#[trigger] spec_plan_outcome(
            validate,
            s.pipeline.desired,
            fallback_channels(status),
            configured,
            planned,
        )) && request_matches(
            Ok(request),
            complained(planned, "Failed to prepare playback pipeline: "@),
            status,
        );
    crate::pipeline::plans_play_what_they_were_asked_for(
        validate,
        s.pipeline.desired,
        fallback_channels(status),
        configured,
        planned,
    );
}

/// Playback that cannot be prepared is refused with the reason.
pub proof fn unprepared_playback_is_refused<F: Fn(&PluginGraphConfig) -> Result<(), String>>(
    validate: F,
    s: StateModel,
    status: DriverStatus,
    configured: Option<Seq<char>>,
    response: Response,
)
    requires
        play_outcome(validate, s, status, configured, Err(response)),
    ensures
        !response@.success,
        exists|e: Seq<char>|
            response@.error == Some(#[trigger] ("Failed to prepare playback pipeline: "@ + e))
                && spec_plan_outcome(
                validate,
                s.pipeline.desired,
                fallback_channels(status),
                configured,
                Err(e),
            ),
{
    let planned = choose|planned: Result<PlanModel, Seq<char>>|
        (#[trigger] spec_plan_outcome(
            validate,
            s.pipeline.desired,
            fallback_channels(status),
            configured,
            planned,
        )) && request_matches(
            Err(response),
            complained(planned, "Failed to prepare playback pipeline: "@),
            status,
        );
    let e = planned->Err_0;
    assert(response@.error == Some("Failed to prepare playback pipeline: "@ + e));
}

/// A chain is loaded with the channels of the driver, then with those that are desired, then as stereo.
pub proof fn loads_use_the_channels_of_the_driver(status: DriverStatus, desired: usize)
    ensures
        status.channel_count > 0 ==> load_fallback(status, desired) == status.channel_count,
        status.channel_count == 0 && desired > 0 ==> load_fallback(status, desired) == desired,
        status.channel_count == 0 && desired == 0 ==> load_fallback(status, desired) == 2,
{
}

/// An edit that is based on another generation than the current one is refused and names both; one that
/// names no generation is never outdated.
pub proof fn outdated_edits_are_refused<F: Fn(&PluginGraphConfig) -> Result<(), String>>(
    validate: F,
    s: StateModel,
    order: Seq<usize>,
    index: usize,
    input_channels: Option<usize>,
    bypassed: Option<bool>,
    base: u64,
    reordered: Result<GraphRequest, Response>,
    changed: Result<GraphRequest, Response>,
)
    requires
        base != s.pipeline.generation,
        reorder_request(validate, s, order, Some(base), reordered),
        rack_state_request(validate, s, index, input_channels, bypassed, Some(base), changed),
    ensures
        reordered matches Err(response) && !response@.success && response@.error == Some(
            "Graph generation conflict: editor based on generation "@ + decimal(base as nat)
                + ", current generation is "@ + decimal(s.pipeline.generation as nat)
                + ". Refresh before reordering."@,
        ),
        changed matches Err(response) && !response@.success && response@.error == Some(
            "Rack generation conflict: editor based on generation "@ + decimal(base as nat)
                + ", current generation is "@ + decimal(s.pipeline.generation as nat)
                + ". Refresh before changing plugin state."@,
        ),
{
}

/// Reordering needs a graph and a change of the rack needs a rack. Either keeps the desired channels.
pub proof fn edits_keep_the_channels<F: Fn(&PluginGraphConfig) -> Result<(), String>>(
    validate: F,
    s: StateModel,
    order: Seq<usize>,
    index: usize,
    input_channels: Option<usize>,
    bypassed: Option<bool>,
    base: Option<u64>,
    reordered: Result<GraphRequest, Response>,
    changed: Result<GraphRequest, Response>,
)
    requires
        reorder_request(validate, s, order, base, reordered),
        rack_state_request(validate, s, index, input_channels, bypassed, base, changed),
    ensures
        s.pipeline.desired.user_graph is None ==> reordered is Err,
        s.pipeline.desired.user_graph is Some ==> changed is Err,
        reordered matches Ok(request) ==> request.input_channels == s.pipeline.desired.input_channels
            && request.output_channels == s.pipeline.desired.output_channels,
        changed matches Ok(request) ==> request.input_channels == s.pipeline.desired.input_channels
            && request.output_channels == s.pipeline.desired.output_channels,
{
}

/// The older names of three commands are still understood, and mean the commands of the present names.
pub proof fn older_names_are_understood(c: Command)
    ensures
        answers_to(Command::GetSnapshot, "get_snapshot"@) && answers_to(Command::GetSnapshot, "snapshot"@),
        answers_to(Command::DriverStatus, "driver_status"@) && answers_to(
            Command::DriverStatus,
            "hal_status"@,
        ),
        answers_to(Command::GetDriverConfig, "get_driver_config"@) && answers_to(
            Command::GetDriverConfig,
            "get_hal_config"@,
        ),
        answers_to(c, command_name(c)),
{
}

/// An intent is refused exactly where it replaces the pipeline and is based on another generation.
pub proof fn outdated_intents_are_refused(
    command: Command,
    base: Option<u64>,
    current: u64,
    refusal: Option<Response>,
)
    requires
        call_ensures(refuse_outdated_pipeline_intent, (&command, base, current), refusal),
    ensures
        refusal is Some <==> replaces_pipeline(command) && base is Some && base->0 != current,
        refusal matches Some(response) ==> !response@.success && response@.error == Some(
            "Pipeline generation conflict: intent was based on generation "@ + decimal(base->0 as nat)
                + ", current generation is "@ + decimal(current as nat) + ". Refresh and retry."@,
        ),
        command is Ping || command is Status || command is GetSnapshot || command is DumpState || command
            is Pause || command is Stop || command is Seek || command is SetVolume || command is ListDevices
            || command is GetLoudness || command is GetMetering || command is GetPlugins || command
            is GetAvailablePlugins || command is GetOutputProfiles || command is DriverStatus || command
            is Shutdown || command is EncryptionStatus || command is GetDriverConfig ==> refusal is None,
{
}

/// Each setting becomes a patch of that setting alone.
pub proof fn settings_become_patches_of_their_own(
    rate: u32,
    frames: u32,
    inputs: Option<usize>,
    outputs: Option<usize>,
    of_rate: ConfigurationPatch,
    of_frames: ConfigurationPatch,
    of_channels: Result<ConfigurationPatch, Response>,
)
    requires
        call_ensures(handle_set_sample_rate, (rate,), of_rate),
        call_ensures(handle_set_buffer_frames, (frames,), of_frames),
        call_ensures(handle_set_pipeline_channels, (inputs, outputs), of_channels),
    ensures
        of_rate@.sample_rate == Some(rate) && of_rate@.buffer_frames is None && of_rate@.input_channels
            is None && of_rate@.output_channels is None && of_rate@.output_device is None,
        of_frames@.buffer_frames == Some(frames) && of_frames@.sample_rate is None
            && of_frames@.input_channels is None && of_frames@.output_channels is None
            && of_frames@.output_device is None,
        of_channels is Ok <==> inputs is Some || outputs is Some,
        of_channels matches Ok(patch) ==> patch@.input_channels == inputs && patch@.output_channels
            == outputs && patch@.sample_rate is None && patch@.buffer_frames is None
            && patch@.output_device is None,
        of_channels matches Err(response) ==> !response@.success && response@.error == Some(
            "set_pipeline_channels requires input_channels or output_channels"@,
        ),
{
}

/// A chain is loaded with the given channels, at the format of the driver, and is refused with the
/// reason of the plan.
pub proof fn chains_load_with_their_channels(
    r: Result<ApplyRequest, Response>,
    desired: SpecModel,
    plugins: Seq<PluginModel>,
    input_channels: usize,
    output_channels: usize,
    status: DriverStatus,
    configured: Option<Seq<char>>,
)
    requires
        request_matches(
            r,
            chain_plan(
                desired,
                plugins,
                input_channels,
                output_channels,
                load_fallback(status, desired.input_channels),
                configured,
            ),
            status,
        ),
    ensures
        r matches Ok(request) ==> {
            let spec = request.plan@.spec;
            &&& spec.user_graph is None && spec.output_channels == output_channels
            &&& input_channels > 0 ==> spec.input_channels == input_channels
            &&& status.sample_rate > 0 ==> request.sample_rate == status.sample_rate
            &&& status.sample_rate == 0 ==> request.sample_rate == 48000
            &&& status.buffer_frames > 0 ==> request.buffer_frames == status.buffer_frames
            &&& status.buffer_frames == 0 ==> request.buffer_frames == 512
        },
        output_channels == 0 || output_channels > 32 ==> r is Err,
        r matches Err(response) ==> !response@.success && response@.error is Some,
{
}

} // verus!
