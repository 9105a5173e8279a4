//! The machines that change the pipeline, run against a driver and an engine in memory.

use sotf_daemon::apply::{
    requires_playback_callback, ApplyAction, ApplyReply, ApplyTransaction, PipelineHealth,
};
use sotf_daemon::artifact::{load_plugin_artifact, plan_plugin_artifact, ArtifactIntent};
use sotf_daemon::capture::{begin_playback_rebuild, plan_playback_rebuild};
use sotf_daemon::chain_update::{ChainUpdate, UpdateAction, UpdateReply};
use sotf_daemon::commands::{
    handle_load_plugins_with_channels, handle_play, handle_reorder_graph, handle_set_buffer_frames,
    handle_set_pipeline_channels, handle_set_rack_plugin_state, handle_set_sample_rate,
    refuse_outdated_pipeline_intent, Command, GraphRequest,
};
use sotf_daemon::configuration::{
    ConfigurationAction, ConfigurationChange, ConfigurationPatch, ConfigurationReply,
};
use sotf_daemon::conformance::assert_audio_driver_contract;
use sotf_daemon::driver::{AudioDriver, ConfigResult, DriverConfig, DriverError, DriverStatus};
use sotf_daemon::graph::MAX_HAL_CHANNELS;
use sotf_daemon::ipc::base_generation;
use sotf_daemon::json::JsonValue;
use sotf_daemon::output_profiles::{OutputProfile, OutputProfileStore};
use sotf_daemon::pipeline::PipelinePlan;
use sotf_daemon::plugins::{PluginConfig, PluginGraphConfig, PluginGraphNodeConfig};
use sotf_daemon::rack::{add_plugin, remove_plugin};
use sotf_daemon::reconfigure::{ChangeAction, ChangePhase, ChangeReply, DriverChange};
use sotf_daemon::response::Response;
use sotf_daemon::route::{
    ensure_default_profile, DeviceSearch, RouteAction, RouteReply, RouteSwitch,
};
use sotf_daemon::security::EncryptionStatus;
use sotf_daemon::state::SystemwideState;
use sotf_daemon::status::{handle_status, snapshot, CurrentRoute};
use sotf_daemon::transport::EngineObservation;

fn json(text: &str) -> JsonValue {
    JsonValue::parse(text).expect("valid JSON")
}

fn at<'a>(value: &'a JsonValue, path: &[&str]) -> &'a JsonValue {
    path.iter().fold(value, |value, name| {
        value.member(name).unwrap_or_else(|| panic!("no member {name}"))
    })
}

fn number(value: &JsonValue, path: &[&str]) -> u64 {
    at(value, path).as_unsigned().expect("unsigned number")
}

fn data(response: &Response) -> &JsonValue {
    response.data.as_ref().expect("data")
}

fn error(response: &Response) -> &str {
    response.error.as_deref().expect("an error")
}

fn test_plugin(plugin_type: &str) -> PluginConfig {
    PluginConfig::new(plugin_type, json("{}"))
}

fn any_graph(_: &PluginGraphConfig) -> Result<(), String> {
    Ok(())
}

fn node(id: usize, gain_db: &str) -> PluginGraphNodeConfig {
    PluginGraphNodeConfig {
        id,
        plugin_type: "gain".to_string(),
        parameters: json(&format!(r#"{{"gain_db": {gain_db}}}"#)),
        input_channels: 2,
        bypassed: false,
    }
}

/// Reads a graph of nodes without edges.
fn decode(value: JsonValue) -> Result<PluginGraphConfig, String> {
    let Some(JsonValue::List(items)) = value.member("nodes") else {
        return Err("missing field `nodes`".to_string());
    };
    let nodes = items
        .iter()
        .map(|item| PluginGraphNodeConfig {
            id: number(item, &["id"]) as usize,
            plugin_type: at(item, &["plugin_type"]).as_text().expect("a type").to_string(),
            parameters: at(item, &["parameters"]).clone(),
            input_channels: number(item, &["input_channels"]) as usize,
            bypassed: false,
        })
        .collect();
    Ok(PluginGraphConfig {
        nodes,
        edges: vec![],
    })
}

struct FakeDriver {
    status: DriverStatus,
    engine_ready: bool,
    requested_configs: Vec<DriverConfig>,
    acks: Vec<(DriverConfig, ConfigResult)>,
    config_failures_remaining: usize,
    negotiate: Option<(u32, u32, u32)>,
}

fn fake_driver() -> FakeDriver {
    FakeDriver {
        status: DriverStatus::new(true, true, true, 48_000, 2, 512, "Systemwide Lab Driver", true),
        engine_ready: false,
        requested_configs: Vec::new(),
        acks: Vec::new(),
        config_failures_remaining: 0,
        negotiate: None,
    }
}

impl AudioDriver for FakeDriver {
    fn initialize(&mut self) -> Result<(), DriverError> {
        Ok(())
    }

    fn shutdown(&mut self) {}

    fn status(&self) -> DriverStatus {
        self.status.clone()
    }

    fn read_audio(&mut self, buffer: &mut [u32]) -> usize {
        buffer.fill(0.0f32.to_bits());
        0
    }

    fn available_frames(&self) -> usize {
        0
    }

    fn sample_rate(&self) -> u32 {
        self.status.sample_rate
    }

    fn channel_count(&self) -> u32 {
        self.status.channel_count
    }

    fn request_config(&mut self, config: DriverConfig) -> ConfigResult {
        self.requested_configs.push(config);
        if self.config_failures_remaining > 0 {
            self.config_failures_remaining -= 1;
            return ConfigResult::error("queued config failure");
        }
        if let Some((rate, frames, channels)) = self.negotiate {
            self.status.sample_rate = rate;
            self.status.buffer_frames = frames;
            self.status.channel_count = channels;
            return ConfigResult::negotiated(rate, frames, channels);
        }
        if config.sample_rate > 0 {
            self.status.sample_rate = config.sample_rate;
        }
        if config.buffer_frames > 0 {
            self.status.buffer_frames = config.buffer_frames;
        }
        if config.channel_count > 0 {
            self.status.channel_count = config.channel_count;
        }
        ConfigResult::Accepted
    }

    fn poll_config_change(&mut self) -> Option<DriverConfig> {
        None
    }

    fn acknowledge_config_change(&mut self, actual: DriverConfig, result: ConfigResult) {
        self.acks.push((actual, result));
    }

    fn set_engine_ready(&mut self, ready: bool) {
        self.engine_ready = ready;
    }
}

#[derive(Default)]
struct FakeEngine {
    running: bool,
    muted: bool,
    starts: Vec<(u32, u32)>,
    chain: Vec<String>,
    graph: Option<PluginGraphConfig>,
    chain_updates: usize,
    parameters: Vec<(usize, String, String)>,
    loudness_index: Option<usize>,
    mute_fails: bool,
    graph_fails: bool,
    silent: bool,
}

impl FakeEngine {
    fn start(&mut self, plan: &PipelinePlan, rate: u32, frames: u32) -> Result<(), String> {
        self.starts.push((rate, frames));
        if let Some(device) = &plan.spec.output_device {
            if device.contains("Missing") {
                return Err(format!("Device '{device}' not found"));
            }
        }
        for plugin in &plan.runtime_plugins {
            if plugin.plugin_type.contains("invalid") {
                return Err(format!("Unknown plugin '{}'", plugin.plugin_type));
            }
        }
        self.running = true;
        self.chain = types(&plan.runtime_plugins);
        Ok(())
    }

    fn update_graph(&mut self, plan: &PipelinePlan) -> Result<(), String> {
        if self.graph_fails {
            return Err("graph refused".to_string());
        }
        self.graph = plan.runtime_graph.clone();
        Ok(())
    }

    fn await_playback(&self) -> Result<(), String> {
        if self.silent {
            Err("Playback did not reach hardware callback".to_string())
        } else {
            Ok(())
        }
    }
}

fn types(plugins: &[PluginConfig]) -> Vec<String> {
    plugins.iter().map(|p| p.plugin_type.clone()).collect()
}

struct World {
    driver: FakeDriver,
    engine: FakeEngine,
    state: SystemwideState,
    store: OutputProfileStore,
    running: bool,
    devices: Vec<(&'static str, usize)>,
    saved: usize,
    synced: usize,
    persisted: Option<String>,
}

fn world() -> World {
    World {
        driver: fake_driver(),
        engine: FakeEngine::default(),
        state: SystemwideState::default(),
        store: OutputProfileStore::default(),
        running: true,
        devices: vec![("Built-in Output", 2), ("EVO8", 8)],
        saved: 0,
        synced: 0,
        persisted: None,
    }
}

impl World {
    fn seed(&mut self, plugins: Vec<PluginConfig>) {
        let plan = self
            .state
            .prepare_plan(plugins, 2, 2, 2, &None)
            .expect("valid baseline plan");
        self.state.commit_applied(&plan);
    }

    fn apply(
        &mut self,
        plan: PipelinePlan,
        status: DriverStatus,
        rate: u32,
        frames: u32,
        force: bool,
    ) -> Response {
        let audible = self.engine.running && !self.engine.muted;
        let begun = ApplyTransaction::begin(
            &self.state,
            plan,
            &status,
            rate,
            frames,
            force,
            audible,
            &None,
            &any_graph,
        );
        self.carry_out(begun)
    }

    fn carry_out(&mut self, begun: (ApplyTransaction, ApplyAction)) -> Response {
        let (mut tx, mut action) = begun;
        loop {
            let reply = match action {
                ApplyAction::SetMute(muted) => {
                    if muted && self.engine.mute_fails {
                        ApplyReply::Outcome(Err("no engine".to_string()))
                    } else {
                        self.engine.muted = muted;
                        if muted {
                            ApplyReply::Outcome(Ok(()))
                        } else {
                            ApplyReply::Done
                        }
                    }
                }
                ApplyAction::Settle => ApplyReply::Done,
                ApplyAction::Inspect => ApplyReply::Health(PipelineHealth {
                    channel_count: self.driver.status.channel_count,
                    idle: !self.engine.running,
                    last_error: None,
                    callback_count: u64::from(self.engine.running),
                }),
                ApplyAction::SetEngineReady(ready) => {
                    self.driver.set_engine_ready(ready);
                    ApplyReply::Done
                }
                ApplyAction::StopEngine => {
                    self.engine.running = false;
                    ApplyReply::Done
                }
                ApplyAction::ReadDriver => ApplyReply::Driver(self.driver.status()),
                ApplyAction::RequestConfig(config) => {
                    ApplyReply::Config(self.driver.request_config(config))
                }
                ApplyAction::StartEngine {
                    sample_rate,
                    buffer_frames,
                } => ApplyReply::Outcome(self.engine.start(&tx.plan, sample_rate, buffer_frames)),
                ApplyAction::UpdateGraph => {
                    ApplyReply::Outcome(self.engine.update_graph(&tx.plan))
                }
                ApplyAction::SetLoudnessIndex(index) => {
                    self.engine.loudness_index = Some(index);
                    ApplyReply::Done
                }
                ApplyAction::AwaitPlayback => ApplyReply::Outcome(self.engine.await_playback()),
                ApplyAction::SyncProfiles => {
                    self.synced += 1;
                    ApplyReply::Done
                }
                ApplyAction::SyncEncryption => ApplyReply::Done,
                ApplyAction::CheckRunning => ApplyReply::Running(self.running),
                ApplyAction::Finish(response) => return response,
            };
            action = tx.step(&mut self.state, reply);
        }
    }

    fn load(&mut self, plugins: Vec<PluginConfig>, input: usize, output: usize) -> Response {
        let status = self.driver.status();
        match handle_load_plugins_with_channels(
            &self.state,
            plugins,
            input,
            output,
            &status,
            &None,
        ) {
            Err(response) => response,
            Ok(request) => self.apply(
                request.plan,
                status,
                request.sample_rate,
                request.buffer_frames,
                false,
            ),
        }
    }

    fn search(&self, name: &str) -> DeviceSearch {
        DeviceSearch {
            found: if self.devices.iter().any(|(device, _)| *device == name) {
                Ok(name.to_string())
            } else {
                Err(format!("Device '{name}' not found"))
            },
            asio_prefix: None,
        }
    }

    fn configure(&mut self, patch: ConfigurationPatch) -> Response {
        let (mut change, mut action) = match ConfigurationChange::begin(patch) {
            Ok(begun) => begun,
            Err(response) => return response,
        };
        loop {
            let reply = match action {
                ConfigurationAction::ReadDriver => ConfigurationReply::Driver(self.driver.status()),
                ConfigurationAction::FindDevice(device) => {
                    ConfigurationReply::Search(self.search(&device))
                }
                ConfigurationAction::SaveProfiles => {
                    self.saved += 1;
                    ConfigurationReply::Saved(Ok(true))
                }
                ConfigurationAction::ProbeChannels { device, .. } => ConfigurationReply::Probed {
                    channels: self
                        .devices
                        .iter()
                        .find(|(name, _)| *name == device)
                        .map(|(_, channels)| *channels)
                        .ok_or("no such device".to_string()),
                    shown: device,
                },
                ConfigurationAction::Apply {
                    plan,
                    status,
                    sample_rate,
                    buffer_frames,
                    force,
                } => ConfigurationReply::Applied(self.apply(
                    plan,
                    status,
                    sample_rate,
                    buffer_frames,
                    force,
                )),
                ConfigurationAction::PersistDevice(device) => {
                    self.persisted = Some(device);
                    ConfigurationReply::Done
                }
                ConfigurationAction::Finish(response) => return response,
            };
            action = change.step(&self.state, &mut self.store, reply, &None, &any_graph, 1);
        }
    }

    fn set_channels(&mut self, input: Option<usize>, output: Option<usize>) -> Response {
        match handle_set_pipeline_channels(input, output) {
            Ok(patch) => self.configure(patch),
            Err(response) => response,
        }
    }

    fn route(&mut self, begun: Result<(RouteSwitch, RouteAction), Response>) -> Response {
        let (mut switch, mut action) = match begun {
            Ok(begun) => begun,
            Err(response) => return response,
        };
        loop {
            let reply = match action {
                RouteAction::FindDevice => RouteReply::Search(self.search(&switch.request.device)),
                RouteAction::InvalidateDevices => RouteReply::Done,
                RouteAction::SaveProfiles => {
                    self.saved += 1;
                    RouteReply::Saved(Ok(true))
                }
                RouteAction::ReadDriver => RouteReply::Driver(self.driver.status()),
                RouteAction::Apply {
                    plan,
                    status,
                    sample_rate,
                    buffer_frames,
                } => RouteReply::Applied(self.apply(plan, status, sample_rate, buffer_frames, false)),
                RouteAction::PersistDevice(device) => {
                    self.persisted = Some(device);
                    RouteReply::Done
                }
                RouteAction::Finish(response) => return response,
            };
            action = switch.step(&self.state, &mut self.store, reply, &None, &any_graph, 1);
        }
    }

    fn set_output_route(
        &mut self,
        device: &str,
        uid: Option<&str>,
        profile: Option<&str>,
        base: Option<u64>,
    ) -> Response {
        let begun = RouteSwitch::set_output_route(
            &self.state,
            device,
            uid.map(str::to_string),
            profile.map(str::to_string),
            None,
            None,
            base,
        );
        self.route(begun)
    }

    fn update(&mut self, begun: Result<(ChainUpdate, UpdateAction), Response>) -> Response {
        let (mut update, mut action) = match begun {
            Ok(begun) => begun,
            Err(response) => return response,
        };
        loop {
            let reply = match action {
                UpdateAction::CheckIdle => UpdateReply::Idle(!self.engine.running),
                UpdateAction::SetParameter {
                    position,
                    name,
                    text,
                } => {
                    self.engine.parameters.push((position, name, text));
                    UpdateReply::Outcome(Ok(()))
                }
                UpdateAction::UpdateChain => {
                    self.engine.chain_updates += 1;
                    self.engine.chain = types(&update.plan.runtime_plugins);
                    UpdateReply::Outcome(Ok(()))
                }
                UpdateAction::UpdateGraph => {
                    UpdateReply::Outcome(self.engine.update_graph(&update.plan))
                }
                UpdateAction::SetLoudnessIndex(index) => {
                    self.engine.loudness_index = Some(index);
                    UpdateReply::Done
                }
                UpdateAction::SyncProfiles { save } => {
                    self.synced += 1;
                    self.saved += usize::from(save);
                    UpdateReply::Done
                }
                UpdateAction::ReadDriver => UpdateReply::Driver(self.driver.status()),
                UpdateAction::Apply {
                    plan,
                    status,
                    sample_rate,
                    buffer_frames,
                } => {
                    UpdateReply::Applied(self.apply(plan, status, sample_rate, buffer_frames, false))
                }
                UpdateAction::Finish(response) => return response,
            };
            action = update.step(&mut self.state, reply);
        }
    }

    /// Carries a command out unless it was based on an outdated pipeline.
    fn at_generation(
        &mut self,
        command: Command,
        base: Option<u64>,
        carry_out: impl FnOnce(&mut World) -> Response,
    ) -> Response {
        match refuse_outdated_pipeline_intent(&command, base, self.state.generation()) {
            Some(refusal) => refusal,
            None => carry_out(self),
        }
    }

    fn load_artifact(&mut self, artifact: JsonValue) -> Response {
        let planned = plan_plugin_artifact(artifact, &decode, &any_graph);
        match load_plugin_artifact(&self.state, planned) {
            ArtifactIntent::LoadChain {
                plugins,
                input_channels,
                output_channels,
            } => self.load(plugins, input_channels, output_channels),
            ArtifactIntent::LoadGraph {
                graph,
                input_channels,
                output_channels,
            } => self.load_graph(Ok(GraphRequest {
                graph,
                input_channels,
                output_channels,
            })),
            ArtifactIntent::Refuse(response) => response,
        }
    }

    fn reload(&mut self, plugins: Vec<PluginConfig>) -> Response {
        let begun = ChainUpdate::reload(&self.state, plugins, &None);
        self.update(begun)
    }

    fn update_plugin(&mut self, index: usize, parameters: &str) -> Response {
        let begun = ChainUpdate::update_plugin(&self.state, index, json(parameters), &None);
        self.update(begun)
    }

    fn load_graph(&mut self, request: Result<GraphRequest, Response>) -> Response {
        match request {
            Err(response) => response,
            Ok(request) => {
                let begun = ChainUpdate::load_graph(
                    &self.state,
                    request.graph,
                    request.input_channels,
                    request.output_channels,
                    self.driver.status(),
                    &None,
                    &any_graph,
                );
                self.update(begun)
            }
        }
    }

    fn change_driver(&mut self, config: DriverConfig) {
        let (mut change, mut action) = DriverChange::begin(config);
        loop {
            let reply = match action {
                ChangeAction::SetEngineReady(ready) => {
                    self.driver.set_engine_ready(ready);
                    if matches!(change.phase, ChangePhase::ClearingReady) {
                        action = change.prepare(&mut self.state, &None, &any_graph);
                        continue;
                    }
                    ChangeReply::Done
                }
                ChangeAction::CheckIdle => ChangeReply::Idle(!self.engine.running),
                ChangeAction::StopEngine => {
                    self.engine.running = false;
                    ChangeReply::Done
                }
                ChangeAction::StartEngine {
                    sample_rate,
                    buffer_frames,
                } => {
                    let plan = change.plan.as_ref().expect("a plan to start");
                    ChangeReply::Outcome(self.engine.start(plan, sample_rate, buffer_frames))
                }
                ChangeAction::UpdateGraph => {
                    let plan = change.plan.as_ref().expect("a plan to start");
                    ChangeReply::Outcome(self.engine.update_graph(plan))
                }
                ChangeAction::SetLoudnessIndex(index) => {
                    self.engine.loudness_index = Some(index);
                    ChangeReply::Done
                }
                ChangeAction::AwaitPlayback => ChangeReply::Outcome(self.engine.await_playback()),
                ChangeAction::Acknowledge(actual, result) => {
                    self.driver.acknowledge_config_change(actual, result);
                    ChangeReply::Done
                }
                ChangeAction::End => return,
            };
            action = change.step(&mut self.state, reply);
        }
    }

    fn observed(&self) -> EngineObservation {
        EngineObservation {
            state: if self.engine.running { "Playing" } else { "Idle" }.to_string(),
            volume: json("1.0"),
            muted: self.engine.muted,
            sample_rate: 48_000,
            num_channels: 2,
            underruns: 0,
            playback_output_device: None,
            playback_callback_count: 0,
            playback_buffer_fill_percent: json("0.0"),
            playback_stream_error_count: 0,
            playback_frames_received: 0,
            playback_frames_written: 0,
            playback_frames_dropped: 0,
            playback_effective_sample_rate: 0,
            last_error: None,
        }
    }
}

fn patch() -> ConfigurationPatch {
    ConfigurationPatch {
        sample_rate: None,
        buffer_frames: None,
        input_channels: None,
        output_channels: None,
        output_device: None,
    }
}

#[test]
fn playback_callback_policy_only_bypasses_explicit_test_drivers() {
    let of = |name: &'static str| DriverStatus::new(true, true, true, 48_000, 2, 512, name, true);
    assert!(requires_playback_callback(&of("macOS CoreAudio HAL")));
    assert!(!requires_playback_callback(&of("Systemwide Lab Driver")));
    let null = DriverStatus::new(false, false, false, 0, 0, 0, "None", false);
    assert!(!requires_playback_callback(&null));
    assert!(requires_playback_callback(&of("PipeWire")));
}

#[test]
fn fake_driver_conforms_to_audio_driver_contract() {
    assert_audio_driver_contract(fake_driver()).expect("FakeDriver contract");
}

#[test]
fn driver_reconfigure_preserves_daemon_selected_output_device_when_idle() {
    let mut world = world();
    let plan = world
        .state
        .prepare_with_selected_device("ADAM Audio D3V".to_string(), &None, &any_graph)
        .expect("valid device plan");
    world.state.commit_applied(&plan);

    world.change_driver(DriverConfig::new(48_000, 512, 6));

    assert_eq!(
        world.state.selected_output_device().as_deref(),
        Some("ADAM Audio D3V")
    );
    assert_eq!(world.state.input_channels(), 6);
    assert_eq!(world.state.output_channels(), 2);
}

#[test]
fn testkit_idle_driver_config_change_updates_spec_without_engine_ready() {
    let mut world = world();
    let plan = world
        .state
        .prepare_with_selected_device("ADAM Audio D3V".to_string(), &None, &any_graph)
        .expect("valid device plan");
    world.state.commit_applied(&plan);

    world.change_driver(DriverConfig::new(48_000, 512, 10));

    assert_eq!(world.state.input_channels(), 10);
    assert_eq!(
        world.state.selected_output_device().as_deref(),
        Some("ADAM Audio D3V")
    );
    assert!(
        !world.driver.engine_ready,
        "idle reconfigure must not mark engine ready"
    );
    let (actual, result) = world.driver.acks.last().expect("config ack");
    assert_eq!(actual.channel_count, 10);
    assert!(matches!(result, ConfigResult::Accepted));
}

#[test]
fn restarted_reconfiguration_waits_for_callback_before_publishing_ready() {
    let mut world = world();
    world.seed(vec![]);
    world.engine.running = true;
    world.engine.silent = true;

    world.change_driver(DriverConfig::new(48_000, 512, 2));
    assert!(!world.driver.engine_ready);
    assert!(matches!(
        world.driver.acks.last().expect("timeout must be acknowledged").1,
        ConfigResult::Error(_)
    ));
    let recovery = world.state.pipeline_recovery().expect("recorded recovery");
    assert!(recovery.error.contains("hardware callback"));

    world.state.clear_pipeline_recovery();
    world.engine.running = true;
    world.engine.silent = false;
    world.change_driver(DriverConfig::new(48_000, 512, 2));
    assert!(world.driver.engine_ready);
    assert!(world.state.pipeline_recovery().is_none());
}

#[test]
fn a_driver_change_that_fails_restores_the_previous_geometry() {
    let mut world = world();
    world.seed(vec![]);
    world.engine.running = true;
    world
        .state
        .set_desired_output_device(Some("Missing Speakers".to_string()))
        .expect("safe name");
    world.change_driver(DriverConfig::new(48_000, 512, 6));
    let (actual, result) = world.driver.acks.last().expect("config ack");
    assert_eq!(actual.channel_count, 2);
    assert_eq!(*result, ConfigResult::negotiated(48_000, 512, 2));
    assert!(world.engine.running);
    assert!(world.driver.engine_ready);
}

#[test]
fn driver_changes_with_impossible_formats_are_refused() {
    for config in [
        DriverConfig::new(48_000, 512, 0),
        DriverConfig::new(48_000, 512, 64),
    ] {
        let mut world = world();
        world.change_driver(config);
        assert!(matches!(world.driver.acks[0].1, ConfigResult::Error(_)));
        assert_eq!(world.state.generation(), 0);
    }
}

#[test]
fn stale_pipeline_intent_is_rejected_before_handler_side_effects() {
    let mut world = world();
    world.seed(vec![]);
    let response = world.at_generation(Command::SetOutputChannels, Some(0), |world| {
        world.set_channels(None, Some(6))
    });
    assert!(!response.success);
    assert!(error(&response).contains("generation conflict"));
    assert_eq!(world.state.applied_generation(), Some(1));
    assert_eq!(world.state.output_channels(), 2);

    let current = world.at_generation(Command::SetOutputChannels, Some(1), |world| {
        world.set_channels(None, Some(6))
    });
    assert!(current.success);
    assert_eq!(world.state.output_channels(), 6);
}

#[test]
fn update_plugin_rejects_stale_generation_without_side_effects() {
    let mut world = world();
    world.seed(vec![test_plugin("gain")]);
    let response = world.at_generation(Command::UpdatePlugin, Some(0), |world| {
        world.update_plugin(0, r#"{"gain_db": 3.0}"#)
    });
    assert!(!response.success);
    assert!(error(&response).contains("generation conflict"));
    assert!(world.state.user_plugins()[0].parameters.matches(&json("{}")));

    let current = world.at_generation(Command::UpdatePlugin, Some(1), |world| {
        world.update_plugin(0, r#"{"gain_db": 3.0}"#)
    });
    assert!(current.success);
    assert!(world.state.user_plugins()[0].parameters.matches(&json(r#"{"gain_db": 3.0}"#)));
}

#[test]
fn update_plugin_identical_parameters_is_noop_without_generation_bump() {
    let mut world = world();
    world.seed(vec![test_plugin("gain")]);
    let baseline_generation = world.state.generation();

    let response = world.update_plugin(0, "{}");

    assert!(response.success);
    assert_eq!(number(data(&response), &["generation"]), baseline_generation);
    assert_eq!(world.state.generation(), baseline_generation);
}

#[test]
fn update_plugin_adopted_generation_allows_successive_edits() {
    let mut world = world();
    world.seed(vec![test_plugin("gain")]);
    let baseline = world.state.generation();
    let first = world.at_generation(Command::UpdatePlugin, Some(baseline), |world| {
        world.update_plugin(0, "{}")
    });
    assert!(first.success);
    let adopted = number(data(&first), &["generation"]);
    let second = world.at_generation(Command::UpdatePlugin, Some(adopted), |world| {
        world.update_plugin(0, "{}")
    });
    assert!(second.success);
}

#[test]
fn parameter_edits_reach_the_running_plugin() {
    let mut world = world();
    assert!(world
        .load(
            vec![
                test_plugin("eq"),
                PluginConfig::new("gain", json(r#"{"gain_db": 0.0, "mute": false}"#)),
            ],
            2,
            2
        )
        .success);
    let response = world.update_plugin(1, r#"{"gain_db": 3.5, "mute": false}"#);
    assert!(response.success);
    assert_eq!(
        world.engine.parameters,
        vec![(2, "gain_db".to_string(), "3.5".to_string())]
    );
    assert_eq!(world.engine.chain_updates, 0);
    assert_eq!(number(data(&response), &["generation"]), 2);
    assert!(at(&world.state.user_plugins()[1].parameters, &["gain_db"]).matches(&json("3.5")));

    assert!(world.update_plugin(1, "[1]").success);
    assert_eq!(world.engine.chain_updates, 1);
    assert!(!world.update_plugin(9, "{}").success);
}

#[test]
fn daemon_plugin_reload_uses_hot_update_path() {
    let mut world = world();
    assert!(world.load(vec![test_plugin("eq")], 2, 2).success);
    let starts = world.engine.starts.len();

    let plugins = add_plugin(&world.state, test_plugin("gain"), None).unwrap();
    let response = world.reload(plugins);
    assert!(response.success);
    assert_eq!(world.engine.chain_updates, 1);
    assert_eq!(world.engine.starts.len(), starts);
    assert_eq!(
        world.engine.chain,
        vec!["loudness_monitor", "eq", "gain", "loudness_monitor"]
    );
    assert_eq!(world.engine.loudness_index, Some(3));

    world.engine.running = false;
    let plugins = remove_plugin(&world.state, 0).unwrap();
    let response = world.reload(plugins);
    assert!(response.success);
    assert_eq!(world.engine.chain_updates, 1);
    assert_eq!(world.engine.starts.len(), starts + 1);
}

#[test]
fn daemon_load_plugins_carries_hal_input_channels() {
    assert_eq!(MAX_HAL_CHANNELS, 32);
    let mut world = world();
    world.driver.status.driver_name = "macOS CoreAudio HAL";
    let response = world.load(vec![test_plugin("eq")], 10, 2);
    assert!(response.success);
    assert_eq!(
        world.driver.requested_configs,
        vec![DriverConfig::new(48_000, 512, 10)]
    );
    assert_eq!(world.engine.starts, vec![(48_000, 512)]);
    assert_eq!(world.state.input_channels(), 10);
    assert!(world.driver.engine_ready);
    assert_eq!(world.synced, 1);
}

#[test]
fn negotiated_formats_are_what_the_engine_starts_with() {
    let mut world = world();
    world.driver.negotiate = Some((44_100, 256, 10));
    assert!(world.load(vec![], 10, 2).success);
    assert_eq!(world.engine.starts, vec![(44_100, 256)]);
}

#[test]
fn loading_the_applied_chain_again_changes_nothing() {
    let mut world = world();
    assert!(world.load(vec![test_plugin("eq")], 2, 2).success);
    let generation = world.state.generation();
    let again = world.load(vec![test_plugin("eq")], 2, 2);
    assert!(again.success);
    assert_eq!(number(data(&again), &["generation"]), generation);
    assert_eq!(world.engine.starts.len(), 1);
    assert!(!world.engine.muted);
}

#[test]
fn failed_mutes_leave_the_pipeline_alone() {
    let mut world = world();
    assert!(world.load(vec![test_plugin("eq")], 2, 2).success);
    world.engine.mute_fails = true;
    let response = world.load(vec![test_plugin("gain")], 2, 2);
    assert!(!response.success);
    assert!(world.engine.running);
    assert_eq!(world.state.user_plugins()[0].plugin_type, "eq");
    assert_eq!(world.engine.starts.len(), 1);
}

#[test]
fn shutdown_during_an_apply_is_not_recovered() {
    let mut world = world();
    assert!(world.load(vec![test_plugin("eq")], 2, 2).success);
    world.running = false;
    world.engine.silent = true;
    world.driver.status.driver_name = "PipeWire";
    let response = world.load(vec![test_plugin("gain")], 2, 2);
    assert!(!response.success);
    assert_eq!(world.engine.starts.len(), 2);
    assert_eq!(world.state.user_plugins()[0].plugin_type, "eq");
}

#[test]
fn testkit_invalid_plugin_load_does_not_mutate_pipeline_state() {
    let mut world = world();
    let response = world.load(vec![test_plugin("eq")], 2, 64);
    assert!(!response.success);
    assert!(error(&response).contains("Invalid output channel count"));
    assert_eq!(world.state.output_channels(), 2);
    assert!(world.state.output_loudness_index().is_none());
}

#[test]
fn testkit_unix_ipc_invalid_plugin_load_preserves_pipeline_state() {
    let mut world = world();
    let response = world.load(vec![test_plugin("eq")], 2, 64);
    assert!(!response.success);
    assert!(error(&response).contains("Invalid output channel count"));
    assert_eq!(world.state.input_channels(), 2);
    assert_eq!(world.state.output_channels(), 2);
    assert!(world.state.applied_generation().is_none());
}

#[test]
fn testkit_patch_channel_command_preserves_daemon_owned_plugins_and_input_channels() {
    let mut world = world();
    assert!(world.load(vec![test_plugin("eq")], 10, 2).success);

    let response = world.set_channels(None, Some(6));

    assert!(response.success, "{response:?}");
    assert_eq!(world.state.input_channels(), 10);
    assert_eq!(world.state.output_channels(), 6);
    assert_eq!(world.state.user_plugins().len(), 1);
}

#[test]
fn testkit_atomic_configuration_requires_a_field() {
    let response = world().configure(patch());
    assert!(!response.success);
    assert!(error(&response).contains("at least one field"));
}

#[test]
fn testkit_stale_atomic_configuration_is_rejected_before_driver_mutation() {
    let mut world = world();
    let base = base_generation(
        r#"{"command":"apply_configuration","base_generation":99,"sample_rate":96000,"buffer_frames":256,"input_channels":4}"#,
    );
    assert_eq!(base, Some(99));
    let response = world.at_generation(Command::ApplyConfiguration, base, |world| {
        world.configure(ConfigurationPatch {
            sample_rate: Some(96_000),
            buffer_frames: Some(256),
            input_channels: Some(4),
            ..patch()
        })
    });
    assert!(!response.success);
    assert!(error(&response).contains("generation conflict"));
    assert!(world.driver.requested_configs.is_empty());
}

#[test]
fn testkit_atomic_configuration_applies_one_coherent_driver_format() {
    let mut world = world();
    let response = world.configure(ConfigurationPatch {
        sample_rate: Some(96_000),
        buffer_frames: Some(256),
        input_channels: Some(4),
        output_channels: Some(2),
        ..patch()
    });

    assert!(response.success, "atomic apply failed: {response:?}");
    let result = data(&response);
    assert_eq!(number(result, &["requested", "sample_rate"]), 96_000);
    assert_eq!(number(result, &["requested", "buffer_frames"]), 256);
    assert_eq!(number(result, &["requested", "input_channels"]), 4);
    assert_eq!(number(result, &["applied", "sample_rate"]), 96_000);
    assert_eq!(number(result, &["applied", "buffer_frames"]), 256);
    assert_eq!(number(result, &["applied", "input_channels"]), 4);
    assert!(at(result, &["negotiated"]).matches(&json("false")));
    assert_eq!(
        world.driver.requested_configs,
        vec![DriverConfig::new(96_000, 256, 4)],
        "one atomic command must produce one HAL format request"
    );
}

#[test]
fn configuration_switches_devices_with_their_profile() {
    let mut world = world();
    assert!(world.load(vec![test_plugin("eq")], 2, 2).success);
    let response = world.configure(ConfigurationPatch {
        output_device: Some("EVO8".to_string()),
        output_channels: Some(8),
        ..patch()
    });
    assert!(response.success, "{response:?}");
    assert_eq!(world.state.applied_output_device().as_deref(), Some("EVO8"));
    assert_eq!(world.state.output_channels(), 8);
    assert_eq!(world.state.user_plugins()[0].plugin_type, "eq");
    assert_eq!(world.persisted.as_deref(), Some("EVO8"));
    assert_eq!(world.store.current_profile_id.as_deref(), Some("default"));
    assert_eq!(world.store.current_device_name.as_deref(), Some("EVO8"));

    let too_many = world.configure(ConfigurationPatch {
        output_device: Some("Built-in Output".to_string()),
        output_channels: Some(6),
        ..patch()
    });
    assert!(!too_many.success);
    assert_eq!(world.state.applied_output_device().as_deref(), Some("EVO8"));
    assert_eq!(world.persisted.as_deref(), Some("EVO8"));

    for bad in [
        ConfigurationPatch { sample_rate: Some(0), ..patch() },
        ConfigurationPatch { buffer_frames: Some(0), ..patch() },
        ConfigurationPatch { input_channels: Some(0), ..patch() },
        ConfigurationPatch { output_channels: Some(33), ..patch() },
        ConfigurationPatch { output_device: Some("  ".to_string()), ..patch() },
        ConfigurationPatch { output_device: Some("Nowhere".to_string()), ..patch() },
        ConfigurationPatch { output_device: Some("BlackHole 2ch".to_string()), ..patch() },
    ] {
        assert!(!world.configure(bad).success);
    }
}

#[test]
fn testkit_load_plugin_artifact_accepts_rack_chain_without_ui_flattening() {
    let mut world = world();
    let response =
        world.load_artifact(json(r#"{"plugins":[{"plugin_type":"eq","parameters":{}}]}"#));
    assert!(response.success);
    assert_eq!(world.state.user_plugins().len(), 1);
    assert_eq!(world.state.user_plugins()[0].plugin_type, "eq");
}

#[test]
fn testkit_stale_graph_generation_is_rejected_without_overwrite() {
    let mut world = world();
    let graph = PluginGraphConfig {
        nodes: vec![node(7, "-3.0")],
        edges: vec![],
    };
    let plan = world
        .state
        .prepare_graph_plan(graph, 2, 2, 2, &None, &any_graph)
        .unwrap();
    world.state.commit_applied(&plan);

    let line = r#"{"command":"load_plugin_artifact","base_generation":0,"artifact":{"graph":{"nodes":[{"id":99,"plugin_type":"gain","parameters":{"gain_db":6.0},"input_channels":2}],"edges":[]}}}"#;
    let artifact = at(&json(line), &["artifact"]).clone();
    let stale = world.at_generation(Command::LoadPluginArtifact, base_generation(line), |world| {
        world.load_artifact(artifact.clone())
    });
    assert!(!stale.success);
    assert!(error(&stale).contains("generation conflict"));
    assert_eq!(world.state.applied_generation(), Some(1));
    let graph = world.state.user_graph().unwrap();
    assert_eq!(graph.nodes[0].id, 7);
    assert!(at(&graph.nodes[0].parameters, &["gain_db"]).matches(&json("-3.0")));

    let current = world.at_generation(Command::LoadPluginArtifact, Some(1), |world| {
        world.load_artifact(artifact.clone())
    });
    assert!(current.success, "{current:?}");
    assert_eq!(world.state.user_graph().unwrap().nodes[0].id, 99);
}

#[test]
fn testkit_live_rack_state_promotion_and_graph_reorder_preserve_node_state() {
    let mut world = world();
    let seed = world.load(
        vec![
            PluginConfig::new("gain", json(r#"{"gain_db": -3.0}"#)),
            PluginConfig::new("eq", json(r#"{"filters": []}"#)),
        ],
        2,
        2,
    );
    assert!(seed.success, "failed to seed rack pipeline: {seed:?}");
    let rack_generation = world.state.applied_generation().unwrap();

    let request = handle_set_rack_plugin_state(
        &world.state,
        1,
        Some(4),
        Some(true),
        Some(rack_generation),
        &any_graph,
    );
    let promoted = world.load_graph(request);
    assert!(promoted.success, "failed to promote rack state: {promoted:?}");
    let graph = world
        .state
        .user_graph()
        .expect("rack state mutation must retain a graph owner");
    assert_eq!(graph.nodes.len(), 2);
    assert_eq!(graph.nodes[0].id, 0);
    assert!(at(&graph.nodes[0].parameters, &["gain_db"]).matches(&json("-3.0")));
    assert_eq!(graph.nodes[1].id, 1);
    assert!(at(&graph.nodes[1].parameters, &["filters"]).matches(&json("[]")));
    assert_eq!(graph.nodes[1].input_channels, 4);
    assert!(graph.nodes[1].bypassed);
    assert_eq!(graph.edges.len(), 1);
    let graph_generation = world.state.applied_generation().unwrap();

    let request =
        handle_reorder_graph(&world.state, &vec![1, 0], Some(graph_generation), &any_graph);
    let reordered = world.load_graph(request);
    assert!(reordered.success, "failed to reorder graph: {reordered:?}");
    let graph = world.state.user_graph().expect("graph must remain active");
    assert_eq!(
        graph.nodes.iter().map(|node| node.id).collect::<Vec<_>>(),
        vec![1, 0]
    );
    assert!(at(&graph.nodes[0].parameters, &["filters"]).matches(&json("[]")));
    assert_eq!(graph.nodes[0].input_channels, 4);
    assert!(graph.nodes[0].bypassed);
    assert!(at(&graph.nodes[1].parameters, &["gain_db"]).matches(&json("-3.0")));
    assert_eq!(graph.edges[0].from_node, 1);
    assert_eq!(graph.edges[0].to_node, 0);
    assert_eq!(world.state.applied_generation(), Some(graph_generation + 1));

    let request =
        handle_reorder_graph(&world.state, &vec![0, 1], Some(graph_generation), &any_graph);
    let stale = world.load_graph(request);
    assert!(!stale.success);
    assert!(error(&stale).contains("generation conflict"));
}

#[test]
fn testkit_failed_pipeline_apply_restores_last_working_plan() {
    let mut world = world();
    let seed = world.load(vec![test_plugin("eq")], 2, 2);
    assert!(seed.success, "failed to seed pipeline: {seed:?}");

    world.driver.config_failures_remaining = 1;
    let response = world.set_channels(Some(4), None);

    assert!(!response.success);
    assert!(
        error(&response).contains("restored the last working pipeline"),
        "unexpected recovery response: {response:?}"
    );
    assert_eq!(
        number(data(&response), &["generation"]),
        2,
        "a recovered failure must return the replacement pipeline generation"
    );
    assert_eq!(world.state.input_channels(), 2);
    assert_eq!(world.state.output_channels(), 2);
    assert_eq!(world.state.user_plugins().len(), 1);
    assert_eq!(world.state.applied_generation(), Some(2));
}

#[test]
fn testkit_failed_atomic_configuration_restores_driver_timing_and_channels() {
    let mut world = world();
    let seed = world.load(vec![test_plugin("eq")], 2, 2);
    assert!(seed.success, "failed to seed pipeline: {seed:?}");

    world.driver.config_failures_remaining = 1;
    let response = world.configure(ConfigurationPatch {
        sample_rate: Some(96_000),
        buffer_frames: Some(256),
        input_channels: Some(4),
        ..patch()
    });

    assert!(!response.success);
    assert_eq!(
        number(data(&response), &["generation"]),
        2,
        "atomic rollback must return the replacement pipeline generation"
    );
    assert_eq!(
        world.driver.requested_configs,
        vec![
            DriverConfig::new(96_000, 256, 4),
            DriverConfig::new(48_000, 512, 2),
        ],
        "rollback must restore the complete pre-transaction HAL format"
    );
    assert_eq!(world.driver.status.sample_rate, 48_000);
    assert_eq!(world.driver.status.buffer_frames, 512);
    assert_eq!(world.driver.status.channel_count, 2);
}

#[test]
fn testkit_failed_first_pipeline_apply_exposes_restart_recovery() {
    let mut world = world();
    world.driver.config_failures_remaining = 1;
    let response = world.load(vec![], 4, 2);

    assert!(!response.success);
    assert!(error(&response).contains("Failed to set HAL input channels"));
    assert!(!world.driver.engine_ready);
    assert_eq!(world.state.applied_generation(), None);
    let recovery = world
        .state
        .pipeline_recovery()
        .expect("first apply failure must remain observable");
    assert!(recovery.error.contains("Failed to set HAL input channels"));
    assert_eq!(recovery.actions, vec!["restart_daemon"]);
}

#[test]
fn testkit_double_pipeline_failure_marks_restart_recovery() {
    let mut world = world();
    let seed = world.load(vec![test_plugin("eq")], 2, 2);
    assert!(seed.success, "failed to seed pipeline: {seed:?}");
    world.driver.status.channel_count = 8;
    world.driver.config_failures_remaining = 2;

    let response = world.set_channels(Some(4), None);
    assert!(!response.success);
    assert!(error(&response).contains("recovery also failed"));
    assert!(!world.driver.engine_ready);

    let key_status = EncryptionStatus {
        enabled: false,
        fingerprint: "0000000000000000".to_string(),
        key_path: String::new(),
    };
    let observed = world.observed();
    let driver = world.driver.status();
    let (status, _) = handle_status(&mut world.state, &observed, &driver, &key_status);
    let shown = data(&status);
    assert!(at(shown, &["pipeline_recovery", "actions"]).matches(&json(r#"["restart_daemon"]"#)));
    let JsonValue::List(actions) = at(shown, &["recovery_actions"]) else {
        panic!("expected a list");
    };
    assert!(actions.iter().any(|action| action.as_text() == Some("restart_daemon")));

    let shown = snapshot(
        &world.state,
        &observed,
        &driver,
        &key_status,
        &CurrentRoute {
            profile_id: None,
            device_uid: None,
            device_name: None,
        },
        json("{}"),
    );
    let JsonValue::List(faults) = at(&shown, &["diagnostics", "faults"]) else {
        panic!("expected a list");
    };
    assert!(faults
        .iter()
        .any(|fault| at(fault, &["code"]).as_text() == Some("pipeline_recovery_required")));
}

#[test]
fn ipc_pipeline_rollback_requests_previous_hal_geometry() {
    let mut world = world();
    world.driver.status.driver_name = "Fake HAL With Callback";
    let previous = world
        .state
        .prepare_with_selected_device(
            "Definitely Missing Physical Output".to_string(),
            &None,
            &any_graph,
        )
        .expect("safe explicit output name");
    world.state.commit_applied(&previous);
    let requested = world
        .state
        .prepare_plan(vec![test_plugin("definitely_invalid_plugin")], 6, 2, 6, &None)
        .expect("valid requested geometry");
    let status = world.driver.status();

    let response = world.apply(requested, status, 48_000, 512, false);

    assert!(!response.success, "invalid plugin must fail the requested start");
    let requested_channels: Vec<u32> = world
        .driver
        .requested_configs
        .iter()
        .map(|config| config.channel_count)
        .collect();
    assert_eq!(
        requested_channels,
        vec![6, 2],
        "rollback must restore HAL to the previous graph's input geometry"
    );
    assert!(!world.driver.engine_ready);
}

#[test]
fn refused_graphs_restore_the_rack() {
    let mut world = world();
    assert!(world.load(vec![test_plugin("eq")], 2, 2).success);
    let graph = PluginGraphConfig {
        nodes: vec![node(7, "-3.0")],
        edges: vec![],
    };
    let plan = world
        .state
        .prepare_graph_plan(graph, 2, 2, 2, &None, &any_graph)
        .unwrap();
    let status = world.driver.status();
    world.engine.graph_fails = true;
    let response = world.apply(plan, status, 48_000, 512, false);
    assert!(!response.success);
    assert!(error(&response).contains("graph refused"));
    assert!(world.state.user_graph().is_none());
    assert_eq!(world.state.user_plugins()[0].plugin_type, "eq");
    assert!(world.engine.running);
}

fn profile(id: &str, plugin_type: &str) -> OutputProfile {
    OutputProfile {
        id: id.to_string(),
        name: id.to_string(),
        topology: "rack".to_string(),
        plugins: vec![test_plugin(plugin_type)],
        graph: None,
        input_channels: 2,
        output_channels: 2,
        updated_at_unix_ms: 0,
    }
}

#[test]
fn routes_recall_each_outputs_chain() {
    let mut world = world();
    assert!(world.load(vec![test_plugin("eq")], 2, 2).success);
    assert!(ensure_default_profile(&world.state, &mut world.store, 1));
    world.store.upsert(profile("studio", "gain"), 1).unwrap();

    let response = world.set_output_route("EVO8", Some("UID-8"), Some("studio"), None);
    assert!(response.success, "{response:?}");
    assert_eq!(at(data(&response), &["profile_id"]).as_text(), Some("studio"));
    assert_eq!(world.state.user_plugins()[0].plugin_type, "gain");
    assert_eq!(world.state.applied_output_device().as_deref(), Some("EVO8"));
    assert_eq!(world.persisted.as_deref(), Some("EVO8"));

    let back = world.route(Ok(RouteSwitch::set_device("Built-in Output")));
    assert!(back.success, "{back:?}");
    assert_eq!(world.state.user_plugins()[0].plugin_type, "eq");

    let again = world.set_output_route("EVO8", Some("UID-8"), None, None);
    assert!(again.success, "{again:?}");
    assert_eq!(world.state.user_plugins()[0].plugin_type, "gain");
    assert_eq!(world.store.current_profile_id.as_deref(), Some("studio"));

    let unknown = world.set_output_route("EVO8", None, Some("nope"), None);
    assert!(!unknown.success);
    assert_eq!(world.store.current_profile_id.as_deref(), Some("studio"));
}

#[test]
fn handle_set_output_route_rejects_stale_generation_before_touching_audio() {
    let mut world = world();
    let current = world.state.generation();
    let resp = world.set_output_route(
        "Definitely Missing Physical Output",
        None,
        None,
        Some(current + 1),
    );
    assert!(!resp.success);
    assert!(error(&resp).contains("generation conflict"));
}

#[test]
fn handle_set_output_route_rejects_empty_and_unknown_devices() {
    let mut world = world();
    assert!(!world.set_output_route("   ", None, None, None).success);
    let missing = world.set_output_route("Definitely Missing Physical Output", None, None, None);
    assert!(!missing.success);
    assert!(error(&missing).contains("not found"));
}

fn lab_world() -> World {
    let mut world = world();
    world.driver.status.driver_name = "Systemwide Lab Driver";
    world
}

#[test]
fn handle_set_input_channels_succeeds() {
    let resp = lab_world().set_channels(Some(4), None);
    assert!(resp.success, "{:?}", resp.error);
}

#[test]
fn handle_set_output_channels_succeeds() {
    let resp = lab_world().set_channels(None, Some(6));
    assert!(resp.success, "{:?}", resp.error);
}

#[test]
fn handle_set_pipeline_channels_succeeds() {
    let resp = lab_world().set_channels(Some(4), Some(6));
    assert!(resp.success, "{:?}", resp.error);
}

#[test]
fn handle_set_sample_rate_succeeds() {
    let resp = lab_world().configure(handle_set_sample_rate(48_000));
    assert!(resp.success, "{:?}", resp.error);
    assert_eq!(number(data(&resp), &["sample_rate"]), 48_000);
}

#[test]
fn handle_set_buffer_frames_succeeds() {
    let resp = lab_world().configure(handle_set_buffer_frames(512));
    assert!(resp.success, "{:?}", resp.error);
    assert_eq!(number(data(&resp), &["buffer_frames"]), 512);
}

#[test]
fn handle_load_plugins_empty_succeeds() {
    let resp = lab_world().load(vec![], 2, 2);
    assert!(resp.success, "{:?}", resp.error);
}

#[test]
fn playing_starts_the_desired_chain() {
    let mut world = world();
    world.seed(vec![test_plugin("gain")]);
    let status = world.driver.status();
    let request = handle_play(&world.state, &status, &None, &any_graph).expect("a request");
    let response = world.apply(
        request.plan,
        status,
        request.sample_rate,
        request.buffer_frames,
        false,
    );
    assert!(response.success);
    assert_eq!(
        world.engine.chain,
        vec!["loudness_monitor", "gain", "loudness_monitor"]
    );
}

#[test]
fn commands_are_found_by_every_name_they_answer_to() {
    assert_eq!(Command::named("ping"), Some(Command::Ping));
    assert_eq!(Command::named("snapshot"), Some(Command::GetSnapshot));
    assert_eq!(Command::named("hal_status"), Some(Command::DriverStatus));
    assert_eq!(Command::named("get_hal_config"), Some(Command::GetDriverConfig));
    assert_eq!(Command::named("explode"), None);
    assert_eq!(
        Command::named(Command::SetOutputRoute.name()),
        Some(Command::SetOutputRoute)
    );
}

#[test]
fn resumed_capture_restarts_a_healthy_pipeline() {
    let mut world = world();
    assert!(world.load(vec![test_plugin("eq")], 2, 2).success);
    let generation = world.state.generation();
    let status = world.driver.status();
    let rebuild = plan_playback_rebuild(&world.state, generation, &status, &None, &any_graph)
        .expect("an applied pipeline");
    let begun =
        begin_playback_rebuild(&world.state, rebuild, &status, true, &None, &any_graph);
    assert!(matches!(begun.1, ApplyAction::SetMute(true)));
    let response = world.carry_out(begun);
    assert!(response.success, "{response:?}");
    assert_eq!(world.engine.starts.len(), 2);
    assert_eq!(world.state.generation(), generation + 1);
    assert_eq!(world.state.user_plugins()[0].plugin_type, "eq");
    assert!(world.driver.engine_ready && !world.engine.muted);

    let rebuild =
        plan_playback_rebuild(&world.state, generation + 1, &status, &None, &any_graph).unwrap();
    let (_, action) =
        begin_playback_rebuild(&world.state, rebuild, &status, false, &None, &any_graph);
    assert!(matches!(action, ApplyAction::SetEngineReady(false)));
    assert!(
        plan_playback_rebuild(&world.state, generation, &status, &None, &any_graph).is_none(),
        "a change that was made meanwhile is not undone"
    );
}
