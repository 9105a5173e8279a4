//! Drivers: configuration requests, errors, the fallback driver and the conformance trial.

use sotf_daemon::conformance::{
    assert_audio_driver_contract, check_read_result, judge_trial, SENTINEL,
};
use sotf_daemon::driver::{
    driver_error_for_io, AudioDriver, ConfigResult, DriverConfig, DriverError, DriverStatus,
    IoErrorClass, NullDriver,
};
use std::sync::{Arc, Mutex};

struct BadSampleCountDriver;

impl AudioDriver for BadSampleCountDriver {
    fn initialize(&mut self) -> Result<(), DriverError> {
        Ok(())
    }

    fn shutdown(&mut self) {}

    fn status(&self) -> DriverStatus {
        DriverStatus::new(true, true, true, 48_000, 2, 512, "bad-sample-count", true)
    }

    fn read_audio(&mut self, buffer: &mut [u32]) -> usize {
        buffer.fill(0.0f32.to_bits());
        buffer.len()
    }

    fn available_frames(&self) -> usize {
        3
    }

    fn sample_rate(&self) -> u32 {
        48_000
    }

    fn channel_count(&self) -> u32 {
        2
    }

    fn request_config(&mut self, _config: DriverConfig) -> ConfigResult {
        ConfigResult::Accepted
    }

    fn poll_config_change(&mut self) -> Option<DriverConfig> {
        None
    }

    fn acknowledge_config_change(&mut self, _actual: DriverConfig, _result: ConfigResult) {}

    fn set_engine_ready(&mut self, _ready: bool) {}
}

struct BadPartialTailDriver;

impl AudioDriver for BadPartialTailDriver {
    fn initialize(&mut self) -> Result<(), DriverError> {
        Ok(())
    }

    fn shutdown(&mut self) {}

    fn status(&self) -> DriverStatus {
        DriverStatus::new(true, true, true, 48_000, 2, 512, "bad-partial-tail", true)
    }

    fn read_audio(&mut self, buffer: &mut [u32]) -> usize {
        buffer.fill(0.0f32.to_bits());
        3
    }

    fn available_frames(&self) -> usize {
        3
    }

    fn sample_rate(&self) -> u32 {
        48_000
    }

    fn channel_count(&self) -> u32 {
        2
    }

    fn request_config(&mut self, _config: DriverConfig) -> ConfigResult {
        ConfigResult::Accepted
    }

    fn poll_config_change(&mut self) -> Option<DriverConfig> {
        None
    }

    fn acknowledge_config_change(&mut self, _actual: DriverConfig, _result: ConfigResult) {}

    fn set_engine_ready(&mut self, _ready: bool) {}
}

struct BadReadFramesAliasDriver;

impl AudioDriver for BadReadFramesAliasDriver {
    fn initialize(&mut self) -> Result<(), DriverError> {
        Ok(())
    }

    fn shutdown(&mut self) {}

    fn status(&self) -> DriverStatus {
        DriverStatus::new(true, true, true, 48_000, 2, 512, "bad-read-frames", true)
    }

    fn read_audio(&mut self, buffer: &mut [u32]) -> usize {
        buffer[..6].fill(0.0f32.to_bits());
        3
    }

    fn read_frames(&mut self, buffer: &mut [u32]) -> usize {
        buffer.fill(0.0f32.to_bits());
        buffer.len()
    }

    fn available_frames(&self) -> usize {
        3
    }

    fn sample_rate(&self) -> u32 {
        48_000
    }

    fn channel_count(&self) -> u32 {
        2
    }

    fn request_config(&mut self, _config: DriverConfig) -> ConfigResult {
        ConfigResult::Accepted
    }

    fn poll_config_change(&mut self) -> Option<DriverConfig> {
        None
    }

    fn acknowledge_config_change(&mut self, _actual: DriverConfig, _result: ConfigResult) {}

    fn set_engine_ready(&mut self, _ready: bool) {}
}

struct RestlessDriver {
    fails: bool,
}

impl AudioDriver for RestlessDriver {
    fn initialize(&mut self) -> Result<(), DriverError> {
        if self.fails {
            Err(DriverError::not_installed("no driver"))
        } else {
            Ok(())
        }
    }

    fn shutdown(&mut self) {}

    fn status(&self) -> DriverStatus {
        DriverStatus::new(true, true, true, 48_000, 2, 512, "restless", true)
    }

    fn read_audio(&mut self, _buffer: &mut [u32]) -> usize {
        0
    }

    fn available_frames(&self) -> usize {
        0
    }

    fn sample_rate(&self) -> u32 {
        48_000
    }

    fn channel_count(&self) -> u32 {
        2
    }

    fn request_config(&mut self, _config: DriverConfig) -> ConfigResult {
        ConfigResult::Accepted
    }

    fn poll_config_change(&mut self) -> Option<DriverConfig> {
        Some(DriverConfig::with_channel_count(4))
    }

    fn acknowledge_config_change(&mut self, _actual: DriverConfig, _result: ConfigResult) {}

    fn set_engine_ready(&mut self, _ready: bool) {}
}

#[test]
fn test_null_driver_status() {
    let driver = NullDriver::new();
    let status = driver.status();
    assert!(!status.platform_supported);
    assert!(!status.driver_installed);
    assert!(!status.capture_active);
    assert_eq!(status.driver_name, "None");
}

#[test]
fn test_null_driver_initialize() {
    let mut driver = NullDriver::new();
    assert!(driver.initialize().is_ok());
}

#[test]
fn test_null_driver_reads_zero() {
    let mut driver = NullDriver::new();
    let mut buf = vec![1.0f32.to_bits(); 1024];
    let read = driver.read_audio(&mut buf);
    assert_eq!(read, 0);
    assert_eq!(driver.read_frames(&mut buf), 0);
}

#[test]
fn test_null_driver_available_frames() {
    let driver = NullDriver::new();
    assert_eq!(driver.available_frames(), 0);
}

#[test]
fn test_null_driver_request_config_is_a_noop() {
    let mut driver = NullDriver::new();
    let result = driver.request_config(DriverConfig::new(48000, 1024, 0));
    assert_eq!(result, ConfigResult::Accepted);
}

#[test]
fn test_null_driver_no_config_changes() {
    let mut driver = NullDriver::new();
    assert!(driver.poll_config_change().is_none());
}

#[test]
fn test_null_driver_is_send() {
    fn assert_send<T: Send>() {}
    assert_send::<NullDriver>();
}

#[test]
fn test_audio_driver_object_safety() {
    let driver: Box<dyn AudioDriver> = Box::new(NullDriver::new());
    let status = driver.status();
    assert!(!status.platform_supported);
}

#[test]
fn test_driver_config_keep_current_helpers() {
    let keep = DriverConfig::default();
    assert_eq!(keep, DriverConfig::keep_current());
    assert_eq!(keep.sample_rate_or(48_000), 48_000);
    assert_eq!(keep.buffer_frames_or(512), 512);
    assert_eq!(keep.channel_count_or(2), 2);

    let channels = DriverConfig::with_channel_count(8);
    assert_eq!(channels.sample_rate_or(44_100), 44_100);
    assert_eq!(channels.buffer_frames_or(256), 256);
    assert_eq!(channels.channel_count_or(2), 8);
}

#[test]
fn test_driver_error_display_for_invalid_config() {
    let error = DriverError::invalid_config("channel_count", "must be 1..=32");
    assert_eq!(error.to_string(), "channel_count: must be 1..=32");
}

#[test]
fn test_driver_error_display_all_variants() {
    assert_eq!(DriverError::not_available("na").to_string(), "na");
    assert_eq!(DriverError::not_installed("ni").to_string(), "ni");
    assert_eq!(DriverError::permission_denied("pd").to_string(), "pd");
    assert_eq!(DriverError::timeout("to").to_string(), "to");
    assert_eq!(DriverError::io("io").to_string(), "io");
    assert_eq!(DriverError::other("ot").to_string(), "ot");
}

#[test]
fn test_driver_error_from_string_and_str_and_io() {
    let from_string: DriverError = String::from("msg").into();
    assert_eq!(from_string.to_string(), "msg");

    let from_str: DriverError = "slice".into();
    assert_eq!(from_str.to_string(), "slice");

    let io = std::io::Error::new(std::io::ErrorKind::NotFound, "gone");
    let from_io: DriverError = io.into();
    assert_eq!(from_io.to_string(), "gone");

    let permission = std::io::Error::new(std::io::ErrorKind::PermissionDenied, "blocked");
    assert!(matches!(
        DriverError::from(permission),
        DriverError::PermissionDenied { .. }
    ));
}

#[test]
fn io_errors_keep_their_category() {
    let slow = std::io::Error::new(std::io::ErrorKind::TimedOut, "slow");
    assert_eq!(DriverError::from(slow), DriverError::timeout("slow"));
    let gone = std::io::Error::new(std::io::ErrorKind::NotFound, "gone");
    assert_eq!(DriverError::from(gone), DriverError::io("gone"));
    assert_eq!(
        driver_error_for_io(IoErrorClass::PermissionDenied, "no"),
        DriverError::permission_denied("no")
    );
}

#[test]
fn driver_errors_compare_by_category_and_text() {
    let a = DriverError::timeout("slow");
    let b = DriverError::timeout("slow");
    let c = DriverError::timeout("fast");
    assert_eq!(a, b);
    assert_ne!(a, c);
    assert_ne!(a, DriverError::io("slow"));
    assert_eq!(a.clone(), b);
    assert_ne!(
        DriverError::invalid_config("a", "x"),
        DriverError::invalid_config("b", "x")
    );
}

#[test]
fn config_results_compare_by_content() {
    assert_eq!(ConfigResult::Accepted, ConfigResult::Accepted);
    assert_ne!(ConfigResult::Accepted, ConfigResult::error("boom"));
    assert_eq!(ConfigResult::error("boom"), ConfigResult::error("boom"));

    let neg = ConfigResult::negotiated(48_000, 512, 2);
    assert!(matches!(neg, ConfigResult::Negotiated { .. }));
    assert_ne!(neg, ConfigResult::negotiated(48_000, 512, 4));
}

#[test]
fn test_driver_config_with_helpers() {
    let sr = DriverConfig::with_sample_rate(96_000);
    assert_eq!(sr.sample_rate, 96_000);
    assert_eq!(sr.buffer_frames, 0);
    assert_eq!(sr.channel_count, 0);
    assert_eq!(sr.sample_rate_or(48_000), 96_000);
    assert_eq!(sr.buffer_frames_or(512), 512);

    let bf = DriverConfig::with_buffer_frames(256);
    assert_eq!(bf.sample_rate, 0);
    assert_eq!(bf.buffer_frames, 256);
    assert_eq!(bf.buffer_frames_or(512), 256);

    let cc = DriverConfig::with_channel_count(8);
    assert_eq!(cc.sample_rate, 0);
    assert_eq!(cc.channel_count, 8);
    assert_eq!(cc.channel_count_or(2), 8);
}

#[test]
fn test_driver_config_default_and_new() {
    assert_eq!(DriverConfig::default(), DriverConfig::keep_current());
    let full = DriverConfig::new(48_000, 512, 2);
    assert_eq!(full.sample_rate_or(44_100), 48_000);
    assert_eq!(full.buffer_frames_or(256), 512);
    assert_eq!(full.channel_count_or(1), 2);
}

#[test]
fn test_null_driver_default_and_acknowledges() {
    let mut driver: NullDriver = Default::default();
    driver.shutdown();
    driver.set_engine_ready(true);
    driver.acknowledge_config_change(DriverConfig::keep_current(), ConfigResult::Accepted);
    assert_eq!(driver.available_frames(), 0);
}

#[test]
fn test_null_driver_read_frames_preserves_channels() {
    let mut driver = NullDriver::new();
    let mut buf = vec![1.0f32.to_bits(); 10];
    assert_eq!(driver.read_frames(&mut buf), 0);
}

#[test]
fn test_null_driver_conforms_to_audio_driver_contract() {
    assert_audio_driver_contract(NullDriver::new()).expect("NullDriver contract");
}

#[test]
fn conformance_rejects_sample_count_returned_as_frames() {
    let error = assert_audio_driver_contract(BadSampleCountDriver)
        .expect_err("a sample-count driver must violate the frame contract");
    assert!(error.contains("read_audio returned 7 frames"), "{error}");
}

#[test]
fn conformance_rejects_partial_interleaved_tail_writes() {
    let error = assert_audio_driver_contract(BadPartialTailDriver)
        .expect_err("a driver writing past its reported frames must fail");
    assert!(error.contains("partial-frame tail"), "{error}");
}

#[test]
fn conformance_rejects_a_non_frame_based_read_frames_alias() {
    let error = assert_audio_driver_contract(BadReadFramesAliasDriver)
        .expect_err("read_frames must use the same frame-based contract as read_audio");
    assert!(error.contains("read_frames returned 7 frames"), "{error}");
}

#[test]
fn conformance_reports_drivers_that_fail_or_change_by_themselves() {
    let error = assert_audio_driver_contract(RestlessDriver { fails: true }).unwrap_err();
    assert_eq!(
        error,
        "audio driver contract fixture must initialize: no driver"
    );
    let error = assert_audio_driver_contract(RestlessDriver { fails: false }).unwrap_err();
    assert_eq!(error, "poll_config_change reported a change that nobody made");
}

#[test]
fn read_results_are_judged_by_the_mark() {
    assert_eq!(SENTINEL, 123_456.75f32.to_bits());
    let silence = 0.0f32.to_bits();
    let mark = SENTINEL;
    assert!(check_read_result("read_audio", &vec![silence, silence, mark], 2, 1).is_ok());
    assert!(check_read_result("read_audio", &vec![silence; 3], 2, 0).is_ok());
    assert_eq!(
        check_read_result("read_audio", &vec![silence, mark, mark], 2, 1).unwrap_err(),
        "read_audio reported frames without writing the complete interleaved frame data"
    );
    assert_eq!(
        check_read_result("read_audio", &vec![silence; 3], 2, 1).unwrap_err(),
        "read_audio modified the partial-frame tail after reporting 1 frames"
    );
    assert_eq!(
        check_read_result("read_audio", &vec![mark; 5], 0, 1).unwrap_err(),
        "read_audio returned 1 frames for 5 samples and 0 channels"
    );
}

#[test]
fn trials_report_the_first_complaint() {
    let marked = vec![SENTINEL; 7];
    let written = {
        let mut buffer = vec![0u32; 6];
        buffer.push(SENTINEL);
        buffer
    };
    let silent = vec![0u32; 7];
    assert_eq!(judge_trial(Ok(()), 2, &written, 3, &written, 3, false), Ok(()));
    assert_eq!(judge_trial(Ok(()), 2, &silent, 0, &marked, 0, false), Ok(()));
    assert_eq!(
        judge_trial(Err("off".to_string()), 2, &silent, 9, &marked, 9, true),
        Err("audio driver contract fixture must initialize: off".to_string())
    );
    assert_eq!(
        judge_trial(Ok(()), 2, &written, 4, &marked, 9, true),
        Err("read_audio returned 4 frames for 7 samples and 2 channels".to_string())
    );
    assert_eq!(
        judge_trial(Ok(()), 2, &written, 3, &silent, 3, true),
        Err("read_frames modified the partial-frame tail after reporting 3 frames".to_string())
    );
    assert_eq!(
        judge_trial(Ok(()), 2, &written, 3, &marked, 1, true),
        Err("read_frames reported frames without writing the complete interleaved frame data"
            .to_string())
    );
    assert_eq!(
        judge_trial(Ok(()), 2, &written, 3, &written, 3, true),
        Err("poll_config_change reported a change that nobody made".to_string())
    );
}

/// A driver that notes its calls and reports `frames` read frames without writing any.
struct NotingDriver {
    calls: Arc<Mutex<Vec<String>>>,
    frames: usize,
}

impl NotingDriver {
    fn note(&self, call: String) {
        self.calls.lock().unwrap().push(call);
    }
}

impl AudioDriver for NotingDriver {
    fn initialize(&mut self) -> Result<(), DriverError> {
        self.note("initialize".to_string());
        Ok(())
    }

    fn shutdown(&mut self) {
        self.note("shutdown".to_string());
    }

    fn status(&self) -> DriverStatus {
        DriverStatus::new(true, true, true, 48_000, 2, 512, "noting", true)
    }

    fn read_audio(&mut self, buffer: &mut [u32]) -> usize {
        assert!(buffer.iter().all(|sample| f32::from_bits(*sample) == 123_456.75));
        self.note(format!("read_audio {}", buffer.len()));
        self.frames
    }

    fn read_frames(&mut self, buffer: &mut [u32]) -> usize {
        assert!(buffer.iter().all(|sample| f32::from_bits(*sample) == 123_456.75));
        self.note(format!("read_frames {}", buffer.len()));
        self.frames
    }

    fn available_frames(&self) -> usize {
        0
    }

    fn sample_rate(&self) -> u32 {
        48_000
    }

    fn channel_count(&self) -> u32 {
        2
    }

    fn request_config(&mut self, _config: DriverConfig) -> ConfigResult {
        ConfigResult::Accepted
    }

    fn poll_config_change(&mut self) -> Option<DriverConfig> {
        self.note("poll".to_string());
        None
    }

    fn acknowledge_config_change(&mut self, _actual: DriverConfig, _result: ConfigResult) {}

    fn set_engine_ready(&mut self, ready: bool) {
        self.note(format!("ready {ready}"));
    }
}

#[test]
fn trials_call_the_driver_in_order() {
    let trial = |frames: usize| {
        let calls = Arc::new(Mutex::new(Vec::new()));
        let driver = NotingDriver {
            calls: Arc::clone(&calls),
            frames,
        };
        let verdict = assert_audio_driver_contract(driver);
        let noted = calls.lock().unwrap().clone();
        (verdict.is_ok(), noted)
    };
    assert_eq!(
        trial(0),
        (
            true,
            [
                "initialize", "ready true", "ready true", "read_audio 7", "read_frames 7", "poll",
                "ready false", "ready false", "shutdown",
            ]
            .map(str::to_string)
            .to_vec()
        )
    );
    assert_eq!(
        trial(1),
        (
            false,
            ["initialize", "ready true", "ready true", "read_audio 7"]
                .map(str::to_string)
                .to_vec()
        )
    );
}
