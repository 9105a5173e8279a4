//! Output devices: which are safe, which is configured, what is cached, and cold start.

use sotf_daemon::capture::{CaptureResumeTracker, PLAYBACK_IDLE_REBUILD_THRESHOLD};
use sotf_daemon::devices::{
    device_wait_step, list_audio_devices, max_channels_for_rate, Cached, DeviceRegistry, DeviceWait,
    OutputDeviceInfo, OutputFormat, DEVICE_CACHE_TTL,
};
use sotf_daemon::json::JsonValue;
use sotf_daemon::output_device::{
    configured_output_device_from_sources, configured_output_device_from_value,
    is_safe_output_device_name, load_output_device, persisted_output_device,
    startup_error_is_device_availability, state_file_is_readable, PersistedSystemwideState,
    MAX_STATE_FILE_BYTES,
};
use sotf_daemon::startup::{
    after_startup_attempt, playback_startup_observation, should_heal_stale_readiness,
    startup_channel_geometry, wait_for_playback_step, PlaybackWait, StartupNext,
    COLD_START_MAX_ATTEMPTS,
};

fn json(text: &str) -> JsonValue {
    JsonValue::parse(text).expect("valid JSON")
}

#[test]
fn configured_output_device_uses_non_empty_value() {
    assert_eq!(
        configured_output_device_from_value(Some(" ADAM Audio D3V ")),
        Some("ADAM Audio D3V".to_string())
    );
    assert_eq!(configured_output_device_from_value(Some("   ")), None);
    assert_eq!(configured_output_device_from_value(None), None);
}

#[test]
fn virtual_output_device_names_are_rejected() {
    for name in [
        "SotF Virtual Audio",
        "BlackHole 2ch",
        "Loopback Audio",
        "Soundflower (2ch)",
        "Background Music",
        "Audio Bridge",
        "ZoomAudioDevice",
        "Generic Virtual Device",
    ] {
        assert!(!is_safe_output_device_name(name), "{name} should be unsafe");
    }

    for name in ["Built-in Output", "ADAM Audio D3V", "MacBook Pro Speakers"] {
        assert!(is_safe_output_device_name(name), "{name} should be safe");
    }
}

#[test]
fn persisted_output_device_round_trips() {
    let state = persisted_output_device(" EVO8 ").unwrap();
    assert_eq!(load_output_device(&state).as_deref(), Some("EVO8"));
    assert_eq!(
        persisted_output_device("  ").unwrap_err(),
        "output device name must not be empty"
    );
}

#[test]
fn cold_start_uses_persisted_output_unless_environment_overrides_it() {
    let stored = Some(persisted_output_device("EVO8").unwrap());

    assert_eq!(
        configured_output_device_from_sources(None, &stored).as_deref(),
        Some("EVO8")
    );
    assert_eq!(
        configured_output_device_from_sources(Some("Built-in Output"), &stored).as_deref(),
        Some("Built-in Output")
    );
    assert_eq!(
        configured_output_device_from_sources(Some("BlackHole 2ch"), &stored),
        None
    );
}

#[test]
fn persisted_output_device_rejects_other_versions_and_oversized_state() {
    let newer = PersistedSystemwideState {
        version: 2,
        output_device: "EVO8".to_string(),
    };
    assert_eq!(load_output_device(&newer), None);
    assert!(state_file_is_readable(true, MAX_STATE_FILE_BYTES));
    assert!(!state_file_is_readable(true, MAX_STATE_FILE_BYTES + 1));
    assert!(!state_file_is_readable(false, 10));
}

#[test]
fn startup_retry_triggers_only_on_device_availability_errors() {
    assert!(startup_error_is_device_availability(Some(
        "Selected output device 'EVO8' is not available: Audio device 'EVO8' not found"
    )));
    assert!(startup_error_is_device_availability(Some(
        "Audio device 'EVO8' needs playback stream recovery: stream error reported by CoreAudio (1 total)"
    )));
    assert!(startup_error_is_device_availability(Some(
        "CoreAudio device id changed for 'EVO8' (Some(120) -> Some(286))"
    )));
    assert!(!startup_error_is_device_availability(None));
    assert!(!startup_error_is_device_availability(Some("")));
    assert!(!startup_error_is_device_availability(Some(
        "Failed to load plugin chain: Playback did not reach a hardware callback within 12000ms"
    )));
    assert!(!startup_error_is_device_availability(Some(
        "Failed to parse loudness compensation params: invalid type"
    )));
}

#[test]
fn cached_observation_expires_at_the_device_ttl() {
    let now: u64 = 10_000_000_000;
    let fresh = Cached {
        observed_at: now,
        value: 2,
    };
    let stale = Cached {
        observed_at: now - DEVICE_CACHE_TTL - 1_000_000,
        value: 2,
    };

    assert!(fresh.is_fresh(now));
    assert!(!stale.is_fresh(now));
}

#[test]
fn registry_serves_recent_observations_and_forgets_on_request() {
    let mut registry = DeviceRegistry::default();
    let devices = vec![json(r#"{"name":"EVO8","is_default":true}"#)];
    assert!(registry.cached_devices(5).is_none());
    assert_eq!(registry.store_devices(5, &devices), 1);
    let (generation, list) = registry.cached_devices(5 + DEVICE_CACHE_TTL).unwrap();
    assert_eq!(generation, 1);
    assert!(list[0].matches(&devices[0]));
    assert!(registry.cached_devices(6 + DEVICE_CACHE_TTL).is_none());

    registry.store_max_output_channels("EVO8", 48_000, 8, 5);
    registry.store_max_output_channels("EVO8", 96_000, 4, 5);
    registry.store_max_output_channels("EVO8", 48_000, 2, 6);
    assert_eq!(registry.cached_max_output_channels("EVO8", 48_000, 7), Some(2));
    assert_eq!(registry.cached_max_output_channels("EVO8", 96_000, 7), Some(4));
    assert_eq!(registry.cached_max_output_channels("EVO4", 48_000, 7), None);
    assert_eq!(
        registry.cached_max_output_channels("EVO8", 48_000, 7 + DEVICE_CACHE_TTL),
        None
    );

    registry.invalidate();
    assert!(registry.cached_devices(5).is_none());
    assert_eq!(registry.cached_max_output_channels("EVO8", 96_000, 5), None);
    assert_eq!(registry.store_devices(7, &devices), 3);
}

#[test]
fn device_list_names_the_default_device_once() {
    let devices = vec![
        OutputDeviceInfo {
            name: "EVO8".to_string(),
            format: Some((8, 48_000)),
        },
        OutputDeviceInfo {
            name: "Built-in Output".to_string(),
            format: Some((2, 44_100)),
        },
        OutputDeviceInfo {
            name: "HDMI".to_string(),
            format: None,
        },
    ];
    let list = list_audio_devices(
        &Some("EVO8".to_string()),
        &devices,
        &vec!["ASIO Device".to_string()],
    )
    .unwrap();
    let expected = [
        r#"{"name":"EVO8","is_default":true}"#,
        r#"{"name":"Built-in Output","is_default":false,"channels":2,"sample_rate":44100}"#,
        r#"{"name":"HDMI","is_default":false}"#,
        r#"{"name":"ASIO Device","is_default":false,"backend":"ASIO"}"#,
    ];
    assert_eq!(list.len(), expected.len());
    for (entry, want) in list.iter().zip(expected) {
        assert!(entry.matches(&json(want)), "{entry:?}");
    }
    assert_eq!(
        list_audio_devices(&None, &vec![], &vec![]).unwrap_err(),
        "No audio devices found"
    );
}

#[test]
fn channel_probe_prefers_formats_that_cover_the_rate() {
    let format = |min: u32, max: u32, channels: u16| OutputFormat {
        min_sample_rate: min,
        max_sample_rate: max,
        channels,
    };
    let formats = vec![
        format(44_100, 48_000, 2),
        format(44_100, 48_000, 8),
        format(88_200, 96_000, 4),
    ];
    assert_eq!(max_channels_for_rate("EVO8", &formats, 48_000, Some(2)), Ok(8));
    assert_eq!(max_channels_for_rate("EVO8", &formats, 96_000, Some(2)), Ok(4));
    assert_eq!(max_channels_for_rate("EVO8", &formats, 192_000, Some(2)), Ok(2));
    assert_eq!(
        max_channels_for_rate("EVO8", &formats, 192_000, None).unwrap_err(),
        "Output device 'EVO8' does not report a usable channel layout"
    );
}

#[test]
fn wait_for_output_device_times_out_on_absent_device() {
    let listed = Ok(vec![json(r#"{"name":"EVO8","is_default":true}"#)]);
    let name = "definitely-not-a-real-device-xyz";
    assert_eq!(
        device_wait_step(name, &listed, true, 0, 600_000_000),
        DeviceWait::Sleep(500_000_000)
    );
    assert_eq!(
        device_wait_step(name, &listed, true, 500_000_000, 600_000_000),
        DeviceWait::Sleep(100_000_000)
    );
    assert_eq!(
        device_wait_step(name, &listed, true, 600_000_000, 600_000_000),
        DeviceWait::GiveUp
    );
    assert_eq!(
        device_wait_step("EVO8", &listed, true, 600_000_000, 600_000_000),
        DeviceWait::Found
    );
    assert_eq!(
        device_wait_step("EVO8", &Err("busy".to_string()), true, 0, 100),
        DeviceWait::Sleep(100)
    );
}

#[test]
fn wait_for_output_device_aborts_on_shutdown() {
    let listed = Ok(vec![json(
        r#"{"name":"definitely-not-a-real-device-xyz","is_default":false}"#,
    )]);
    assert_eq!(
        device_wait_step(
            "definitely-not-a-real-device-xyz",
            &listed,
            false,
            0,
            30_000_000_000
        ),
        DeviceWait::GiveUp
    );
}

#[test]
fn startup_adopts_hal_input_geometry_with_safe_fallbacks() {
    assert_eq!(startup_channel_geometry(8, 2), (8, 2));
    assert_eq!(startup_channel_geometry(2, 6), (2, 6));
    assert_eq!(startup_channel_geometry(0, 2), (2, 2));
    assert_eq!(startup_channel_geometry(64, 2), (2, 2));
    assert_eq!(startup_channel_geometry(2, 0), (2, 1));
    assert_eq!(startup_channel_geometry(2, 99), (2, 32));
}

#[test]
fn cold_start_retries_only_absent_devices_and_only_so_often() {
    let absent = Some("Audio device 'EVO8' not found".to_string());
    let broken = Some("invalid plugin".to_string());
    let device = || Some("EVO8".to_string());
    assert!(matches!(
        after_startup_attempt(1, true, &None, 3, 4, device()),
        StartupNext::Started
    ));
    assert!(matches!(
        after_startup_attempt(1, false, &absent, 3, 3, device()),
        StartupNext::AwaitDevice(name) if name == "EVO8"
    ));
    assert!(matches!(
        after_startup_attempt(1, false, &absent, 3, 3, None),
        StartupNext::Pause
    ));
    assert!(matches!(
        after_startup_attempt(1, false, &absent, 3, 4, device()),
        StartupNext::StandDown
    ));
    assert!(matches!(
        after_startup_attempt(1, false, &broken, 3, 3, device()),
        StartupNext::Failed
    ));
    assert!(matches!(
        after_startup_attempt(COLD_START_MAX_ATTEMPTS, false, &absent, 3, 3, device()),
        StartupNext::Failed
    ));
}

#[test]
fn stale_readiness_heals_only_for_healthy_streaming_engine() {
    let healthy: Result<bool, String> = Ok(true);
    let idle: Result<bool, String> = Ok(false);
    let failed: Result<bool, String> = Err("boom".to_string());
    assert!(should_heal_stale_readiness(true, true, &healthy));
    assert!(!should_heal_stale_readiness(false, true, &healthy));
    assert!(!should_heal_stale_readiness(true, false, &healthy));
    assert!(!should_heal_stale_readiness(true, true, &idle));
    assert!(!should_heal_stale_readiness(true, true, &failed));
}

#[test]
fn playback_readiness_requires_callback_and_surfaces_startup_error() {
    assert_eq!(playback_startup_observation(&None, 0), Ok(false));
    assert_eq!(playback_startup_observation(&None, 1), Ok(true));
    assert_eq!(
        playback_startup_observation(&Some("device failed".to_string()), 1),
        Err("Playback startup failed: device failed".to_string())
    );
    assert_eq!(
        playback_startup_observation(&Some(String::new()), 1),
        Ok(true)
    );
}

#[test]
fn playback_readiness_wait_policy_covers_success_and_timeout() {
    let mut polls = 0;
    let settled = loop {
        polls += 1;
        match wait_for_playback_step(true, Ok(polls == 3), false, 100, "test startup") {
            PlaybackWait::Settled(outcome) => break outcome,
            PlaybackWait::Again => continue,
        }
    };
    settled.expect("third observation should publish readiness");
    assert_eq!(polls, 3);

    let timeout = match wait_for_playback_step(true, Ok(false), true, 0, "test startup") {
        PlaybackWait::Settled(outcome) => outcome.expect_err("missing callback must time out"),
        PlaybackWait::Again => panic!("an expired wait must settle"),
    };
    assert!(timeout.contains("hardware callback"), "{timeout}");
    assert_eq!(
        timeout,
        "Playback did not reach a hardware callback within 0ms"
    );
}

#[test]
fn reconfigured_playback_readiness_is_cancelled_by_daemon_shutdown() {
    let error = match wait_for_playback_step(false, Ok(true), false, 200, "driver reconfiguration") {
        PlaybackWait::Settled(outcome) => {
            outcome.expect_err("shutdown must prevent readiness publication")
        }
        PlaybackWait::Again => panic!("a shutdown must settle the wait"),
    };
    assert!(error.contains("shutdown requested"), "{error}");
}

#[test]
fn capture_resume_rebuilds_once_only_after_long_idle() {
    let started: u64 = 0;
    let mut tracker = CaptureResumeTracker::new(started, 3, false);

    assert!(!tracker.observe(
        started + PLAYBACK_IDLE_REBUILD_THRESHOLD - 1_000_000,
        3,
        false,
    ));
    assert!(tracker.observe(started + PLAYBACK_IDLE_REBUILD_THRESHOLD, 3, true));
    assert!(!tracker.observe(
        started + PLAYBACK_IDLE_REBUILD_THRESHOLD + 1_000_000_000,
        3,
        true,
    ));
}

#[test]
fn capture_resume_does_not_rebuild_after_explicit_pipeline_change() {
    let started: u64 = 0;
    let mut tracker = CaptureResumeTracker::new(started, 3, false);

    assert!(!tracker.observe(started + PLAYBACK_IDLE_REBUILD_THRESHOLD, 4, true));
}

#[test]
fn capture_resume_ignores_short_silence() {
    let mut tracker = CaptureResumeTracker::new(0, 1, true);
    assert!(!tracker.observe(1_000, 1, false));
    assert!(!tracker.observe(PLAYBACK_IDLE_REBUILD_THRESHOLD, 1, true));
    assert!(!tracker.observe(PLAYBACK_IDLE_REBUILD_THRESHOLD + 1, 1, false));
    assert!(tracker.observe(2 * PLAYBACK_IDLE_REBUILD_THRESHOLD + 1, 1, true));
}
