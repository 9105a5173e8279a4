//! The audio driver abstraction: status, configuration requests, errors, and the driver trait.

use crate::text::{join3, same_text};
use vstd::prelude::*;

verus! {

/// Status information from the audio driver.
#[derive(Debug, Clone, Copy)]
#[non_exhaustive]
pub struct DriverStatus {
    /// Whether the current platform has a supported driver implementation.
    pub platform_supported: bool,
    /// Whether the driver is installed on this system.
    pub driver_installed: bool,
    /// Whether audio capture is currently active.
    pub capture_active: bool,
    /// Current sample rate in Hz.
    pub sample_rate: u32,
    /// Current channel count.
    pub channel_count: u32,
    /// Current buffer size in frames.
    pub buffer_frames: u32,
    /// Human-readable driver name, a static platform label.
    pub driver_name: &'static str,
    /// Whether the platform driver itself reports that it is ready.
    pub driver_ready: bool,
}

impl DriverStatus {
    /// A status snapshot from its parts.
    #[allow(clippy::too_many_arguments)]
    pub fn new(
        platform_supported: bool,
        driver_installed: bool,
        capture_active: bool,
        sample_rate: u32,
        channel_count: u32,
        buffer_frames: u32,
        driver_name: &'static str,
        driver_ready: bool,
    ) -> (r: DriverStatus)
        ensures
            r == (DriverStatus {
                platform_supported,
                driver_installed,
                capture_active,
                sample_rate,
                channel_count,
                buffer_frames,
                driver_name,
                driver_ready,
            }),
    {
        DriverStatus {
            platform_supported,
            driver_installed,
            capture_active,
            sample_rate,
            channel_count,
            buffer_frames,
            driver_name,
            driver_ready,
        }
    }
}

/// Configuration request for the audio driver. In each field 0 means "keep current".
#[derive(Debug, Clone, Copy, PartialEq, Eq, Structural)]
#[non_exhaustive]
pub struct DriverConfig {
    /// Requested sample rate in Hz.
    pub sample_rate: u32,
    /// Requested buffer size in frames.
    pub buffer_frames: u32,
    /// Requested driver channel count.
    pub channel_count: u32,
}

/// A requested value against the current one.
pub open spec fn requested_or(requested: u32, current: u32) -> u32 {
    if requested == 0 {
        current
    } else {
        requested
    }
}

impl DriverConfig {
    /// A request that leaves every driver setting unchanged.
    pub fn keep_current() -> (r: DriverConfig)
        ensures
            r == (DriverConfig { sample_rate: 0, buffer_frames: 0, channel_count: 0 }),
    {
        DriverConfig { sample_rate: 0, buffer_frames: 0, channel_count: 0 }
    }

    /// A complete configuration request.
    pub fn new(sample_rate: u32, buffer_frames: u32, channel_count: u32) -> (r: DriverConfig)
        ensures
            r == (DriverConfig { sample_rate, buffer_frames, channel_count }),
    {
        DriverConfig { sample_rate, buffer_frames, channel_count }
    }

    /// A request for a sample rate that preserves all other settings.
    pub fn with_sample_rate(sample_rate: u32) -> (r: DriverConfig)
        ensures
            r == (DriverConfig { sample_rate, buffer_frames: 0, channel_count: 0 }),
    {
        DriverConfig { sample_rate, buffer_frames: 0, channel_count: 0 }
    }

    /// A request for a buffer size that preserves all other settings.
    pub fn with_buffer_frames(buffer_frames: u32) -> (r: DriverConfig)
        ensures
            r == (DriverConfig { sample_rate: 0, buffer_frames, channel_count: 0 }),
    {
        DriverConfig { sample_rate: 0, buffer_frames, channel_count: 0 }
    }

    /// A request for a channel count that preserves all other settings.
    pub fn with_channel_count(channel_count: u32) -> (r: DriverConfig)
        ensures
            r == (DriverConfig { sample_rate: 0, buffer_frames: 0, channel_count }),
    {
        DriverConfig { sample_rate: 0, buffer_frames: 0, channel_count }
    }

    /// The sample rate that the request comes to, given the current one.
    pub fn sample_rate_or(self, current: u32) -> (r: u32)
        ensures
            r == requested_or(self.sample_rate, current),
    {
        if self.sample_rate == 0 {
            current
        } else {
            self.sample_rate
        }
    }

    /// The buffer size that the request comes to, given the current one.
    pub fn buffer_frames_or(self, current: u32) -> (r: u32)
        ensures
            r == requested_or(self.buffer_frames, current),
    {
        if self.buffer_frames == 0 {
            current
        } else {
            self.buffer_frames
        }
    }

    /// The channel count that the request comes to, given the current one.
    pub fn channel_count_or(self, current: u32) -> (r: u32)
        ensures
            r == requested_or(self.channel_count, current),
    {
        if self.channel_count == 0 {
            current
        } else {
            self.channel_count
        }
    }
}

impl Default for DriverConfig {
    fn default() -> (r: DriverConfig)
        ensures
            r == (DriverConfig { sample_rate: 0, buffer_frames: 0, channel_count: 0 }),
    {
        DriverConfig::keep_current()
    }
}

/// Structured driver error. It holds displayable details, so callers need no string matching.
#[derive(Debug)]
#[non_exhaustive]
pub enum DriverError {
    /// No driver implementation or shared transport is available.
    NotAvailable { message: String },
    /// The platform driver is not installed.
    NotInstalled { message: String },
    /// The current process lacks permission to use the driver.
    PermissionDenied { message: String },
    /// A requested driver setting is invalid.
    InvalidConfig { field: String, message: String },
    /// The requested operation timed out.
    Timeout { message: String },
    /// Filesystem or device I/O failed.
    Io { message: String },
    /// Fallback for errors that do not have a stable category yet.
    Other { message: String },
}

/// What a `DriverError` stands for.
pub enum DriverFault {
    NotAvailable(Seq<char>),
    NotInstalled(Seq<char>),
    PermissionDenied(Seq<char>),
    InvalidConfig(Seq<char>, Seq<char>),
    Timeout(Seq<char>),
    Io(Seq<char>),
    Other(Seq<char>),
}

impl View for DriverError {
    type V = DriverFault;

    open spec fn view(&self) -> DriverFault {
        match *self {
            DriverError::NotAvailable { message } => DriverFault::NotAvailable(message@),
            DriverError::NotInstalled { message } => DriverFault::NotInstalled(message@),
            DriverError::PermissionDenied { message } => DriverFault::PermissionDenied(message@),
            DriverError::InvalidConfig { field, message } => DriverFault::InvalidConfig(field@, message@),
            DriverError::Timeout { message } => DriverFault::Timeout(message@),
            DriverError::Io { message } => DriverFault::Io(message@),
            DriverError::Other { message } => DriverFault::Other(message@),
        }
    }
}

/// The text that shows an error.
pub open spec fn fault_text(fault: DriverFault) -> Seq<char> {
    match fault {
        DriverFault::NotAvailable(message) => message,
        DriverFault::NotInstalled(message) => message,
        DriverFault::PermissionDenied(message) => message,
        DriverFault::InvalidConfig(field, message) => field + ": "@ + message,
        DriverFault::Timeout(message) => message,
        DriverFault::Io(message) => message,
        DriverFault::Other(message) => message,
    }
}

impl DriverError {
    /// No driver or transport is available.
    pub fn not_available(message: &str) -> (r: DriverError)
        ensures
            r@ == DriverFault::NotAvailable(message@),
    {
        DriverError::NotAvailable { message: message.to_owned() }
    }

    /// The driver is not installed.
    pub fn not_installed(message: &str) -> (r: DriverError)
        ensures
            r@ == DriverFault::NotInstalled(message@),
    {
        DriverError::NotInstalled { message: message.to_owned() }
    }

    /// Permission to use the driver is missing.
    pub fn permission_denied(message: &str) -> (r: DriverError)
        ensures
            r@ == DriverFault::PermissionDenied(message@),
    {
        DriverError::PermissionDenied { message: message.to_owned() }
    }

    /// A requested setting is invalid.
    pub fn invalid_config(field: &str, message: &str) -> (r: DriverError)
        ensures
            r@ == DriverFault::InvalidConfig(field@, message@),
    {
        DriverError::InvalidConfig { field: field.to_owned(), message: message.to_owned() }
    }

    /// The operation timed out.
    pub fn timeout(message: &str) -> (r: DriverError)
        ensures
            r@ == DriverFault::Timeout(message@),
    {
        DriverError::Timeout { message: message.to_owned() }
    }

    /// Filesystem or device I/O failed.
    pub fn io(message: &str) -> (r: DriverError)
        ensures
            r@ == DriverFault::Io(message@),
    {
        DriverError::Io { message: message.to_owned() }
    }

    /// An error without a category.
    pub fn other(message: &str) -> (r: DriverError)
        ensures
            r@ == DriverFault::Other(message@),
    {
        DriverError::Other { message: message.to_owned() }
    }

    /// The text that shows the error.
    pub fn to_string(&self) -> (r: String)
        ensures
            r@ == fault_text(self@),
    {
        match self {
            DriverError::NotAvailable { message } => message.clone(),
            DriverError::NotInstalled { message } => message.clone(),
            DriverError::PermissionDenied { message } => message.clone(),
            DriverError::InvalidConfig { field, message } => join3(field.as_str(), ": ", message.as_str()),
            DriverError::Timeout { message } => message.clone(),
            DriverError::Io { message } => message.clone(),
            DriverError::Other { message } => message.clone(),
        }
    }
}

impl Clone for DriverError {
    fn clone(&self) -> (r: DriverError)
        ensures
            r@ == self@,
    {
        match self {
            DriverError::NotAvailable { message } => DriverError::NotAvailable { message: message.clone() },
            DriverError::NotInstalled { message } => DriverError::NotInstalled { message: message.clone() },
            DriverError::PermissionDenied { message } => DriverError::PermissionDenied {
                message: message.clone(),
            },
            DriverError::InvalidConfig { field, message } => DriverError::InvalidConfig {
                field: field.clone(),
                message: message.clone(),
            },
            DriverError::Timeout { message } => DriverError::Timeout { message: message.clone() },
            DriverError::Io { message } => DriverError::Io { message: message.clone() },
            DriverError::Other { message } => DriverError::Other { message: message.clone() },
        }
    }
}

impl PartialEq for DriverError {
    fn eq(&self, other: &DriverError) -> (r: bool) {
        match (self, other) {
            (DriverError::NotAvailable { message: a }, DriverError::NotAvailable { message: b }) => same_text(
                a.as_str(),
                b.as_str(),
            ),
            (DriverError::NotInstalled { message: a }, DriverError::NotInstalled { message: b }) => same_text(
                a.as_str(),
                b.as_str(),
            ),
            (
                DriverError::PermissionDenied { message: a },
                DriverError::PermissionDenied { message: b },
            ) => same_text(a.as_str(), b.as_str()),
            (
                DriverError::InvalidConfig { field: f, message: a },
                DriverError::InvalidConfig { field: g, message: b },
            ) => same_text(f.as_str(), g.as_str()) && same_text(a.as_str(), b.as_str()),
            (DriverError::Timeout { message: a }, DriverError::Timeout { message: b }) => same_text(
                a.as_str(),
                b.as_str(),
            ),
            (DriverError::Io { message: a }, DriverError::Io { message: b }) => same_text(
                a.as_str(),
                b.as_str(),
            ),
            (DriverError::Other { message: a }, DriverError::Other { message: b }) => same_text(
                a.as_str(),
                b.as_str(),
            ),
            _ => false,
        }
    }
}

impl vstd::std_specs::cmp::PartialEqSpecImpl for DriverError {
    open spec fn obeys_eq_spec() -> bool {
        true
    }

    open spec fn eq_spec(&self, other: &DriverError) -> bool {
        self@ == other@
    }
}

/// The error that a plain message stands for.
pub open spec fn plain_error(message: String) -> DriverError {
    DriverError::Other { message }
}

impl From<String> for DriverError {
    fn from(message: String) -> (r: DriverError) {
        DriverError::Other { message }
    }
}

impl vstd::std_specs::convert::FromSpecImpl<String> for DriverError {
    open spec fn obeys_from_spec() -> bool {
        true
    }

    open spec fn from_spec(message: String) -> DriverError {
        plain_error(message)
    }
}

impl<'a> From<&'a str> for DriverError {
    fn from(message: &'a str) -> (r: DriverError)
        ensures
            r@ == DriverFault::Other(message@),
    {
        DriverError::other(message)
    }
}

impl<'a> vstd::std_specs::convert::FromSpecImpl<&'a str> for DriverError {
    open spec fn obeys_from_spec() -> bool {
        false
    }

    open spec fn from_spec(message: &'a str) -> DriverError {
        arbitrary()
    }
}

/// The error type of `std::io`, carried from the system to the category it belongs to.
#[verifier::external_type_specification]
#[verifier::external_body]
pub struct ExIoError(std::io::Error);

/// The categories of I/O errors that the daemon tells apart.
#[derive(Debug, Clone, Copy, PartialEq, Eq, Structural)]
pub enum IoErrorClass {
    PermissionDenied,
    TimedOut,
    Other,
}

/// Calls `to_string` of `std::io::Error`. What the text says rests on the system, so nothing is
/// stated of it.
#[verifier::external_body]
fn io_error_text(error: &std::io::Error) -> (r: String) {
    error.to_string()
}

/// Calls `kind` of `std::io::Error` and tells the kinds apart that have a category of their own.
/// Which kind an error has rests on the system, so nothing is stated of it.
#[verifier::external_body]
fn io_error_class(error: &std::io::Error) -> (r: IoErrorClass) {
    match error.kind() {
        std::io::ErrorKind::PermissionDenied => IoErrorClass::PermissionDenied,
        std::io::ErrorKind::TimedOut => IoErrorClass::TimedOut,
        _ => IoErrorClass::Other,
    }
}

/// The driver error for an I/O error of a category.
pub open spec fn io_fault(class: IoErrorClass, message: Seq<char>) -> DriverFault {
    match class {
        IoErrorClass::PermissionDenied => DriverFault::PermissionDenied(message),
        IoErrorClass::TimedOut => DriverFault::Timeout(message),
        IoErrorClass::Other => DriverFault::Io(message),
    }
}

/// The driver error for an I/O error of a category.
pub fn driver_error_for_io(class: IoErrorClass, message: &str) -> (r: DriverError)
    ensures
        r@ == io_fault(class, message@),
{
    match class {
        IoErrorClass::PermissionDenied => DriverError::permission_denied(message),
        IoErrorClass::TimedOut => DriverError::timeout(message),
        IoErrorClass::Other => DriverError::io(message),
    }
}

/// Whether a category and a text are what was read from an I/O error.
pub closed spec fn reads_as(error: std::io::Error, class: IoErrorClass, text: String) -> bool {
    call_ensures(io_error_class, (&error,), class) && call_ensures(io_error_text, (&error,), text)
}

impl From<std::io::Error> for DriverError {
    fn from(error: std::io::Error) -> (r: DriverError)
        ensures
            exists|class: IoErrorClass, text: String| #[trigger]
                reads_as(error, class, text) && r@ == io_fault(class, text@),
    {
        let text = io_error_text(&error);
        let class = io_error_class(&error);
        proof {
            assert(reads_as(error, class, text));
        }
        driver_error_for_io(class, text.as_str())
    }
}

impl vstd::std_specs::convert::FromSpecImpl<std::io::Error> for DriverError {
    open spec fn obeys_from_spec() -> bool {
        false
    }

    open spec fn from_spec(error: std::io::Error) -> DriverError {
        arbitrary()
    }
}

/// Result of a configuration request.
#[derive(Debug)]
#[non_exhaustive]
pub enum ConfigResult {
    /// The exact requested configuration was accepted.
    Accepted,
    /// The driver negotiated different values than requested.
    Negotiated { actual_rate: u32, actual_frames: u32, actual_channels: u32 },
    /// The configuration request failed.
    Error(DriverError),
}

/// What a `ConfigResult` stands for.
pub enum ConfigAnswer {
    Accepted,
    Negotiated(DriverConfig),
    Error(DriverFault),
}

impl View for ConfigResult {
    type V = ConfigAnswer;

    open spec fn view(&self) -> ConfigAnswer {
        match *self {
            ConfigResult::Accepted => ConfigAnswer::Accepted,
            ConfigResult::Negotiated { actual_rate, actual_frames, actual_channels } => ConfigAnswer::Negotiated(
                DriverConfig {
                    sample_rate: actual_rate,
                    buffer_frames: actual_frames,
                    channel_count: actual_channels,
                },
            ),
            ConfigResult::Error(error) => ConfigAnswer::Error(error@),
        }
    }
}

impl ConfigResult {
    /// A negotiated result.
    pub fn negotiated(actual_rate: u32, actual_frames: u32, actual_channels: u32) -> (r: ConfigResult)
        ensures
            r@ == ConfigAnswer::Negotiated(
                (DriverConfig {
                    sample_rate: actual_rate,
                    buffer_frames: actual_frames,
                    channel_count: actual_channels,
                }),
            ),
    {
        ConfigResult::Negotiated { actual_rate, actual_frames, actual_channels }
    }

    /// A failed request.
    pub fn error<E: Into<DriverError>>(error: E) -> (r: ConfigResult)
        ensures
            r matches ConfigResult::Error(e) && call_ensures(E::into, (error,), e),
    {
        ConfigResult::Error(error.into())
    }
}

impl Clone for ConfigResult {
    fn clone(&self) -> (r: ConfigResult)
        ensures
            r@ == self@,
    {
        match self {
            ConfigResult::Accepted => ConfigResult::Accepted,
            ConfigResult::Negotiated { actual_rate, actual_frames, actual_channels } => ConfigResult::Negotiated {
                actual_rate: *actual_rate,
                actual_frames: *actual_frames,
                actual_channels: *actual_channels,
            },
            ConfigResult::Error(error) => ConfigResult::Error(error.clone()),
        }
    }
}

impl PartialEq for ConfigResult {
    fn eq(&self, other: &ConfigResult) -> (r: bool) {
        match (self, other) {
            (ConfigResult::Accepted, ConfigResult::Accepted) => true,
            (
                ConfigResult::Negotiated { actual_rate: a, actual_frames: b, actual_channels: c },
                ConfigResult::Negotiated { actual_rate: x, actual_frames: y, actual_channels: z },
            ) => *a == *x && *b == *y && *c == *z,
            (ConfigResult::Error(a), ConfigResult::Error(b)) => *a == *b,
            _ => false,
        }
    }
}

impl vstd::std_specs::cmp::PartialEqSpecImpl for ConfigResult {
    open spec fn obeys_eq_spec() -> bool {
        true
    }

    open spec fn eq_spec(&self, other: &ConfigResult) -> bool {
        self@ == other@
    }
}

/// Platform audio capture abstraction.
///
/// The daemon owns one driver and uses it in the same way on every platform. Samples are the bit
/// patterns of 32-bit floats: the daemon moves them and compares them with a mark, and computes
/// nothing from them.
pub trait AudioDriver: Send + 'static {
    /// Initializes the driver and connects to the audio source. A driver that is merely not
    /// installed still returns `Ok(())` and reports so in its status.
    fn initialize(&mut self) -> Result<(), DriverError>;

    /// Shuts the driver down and releases its resources.
    fn shutdown(&mut self);

    /// The current driver status.
    fn status(&self) -> DriverStatus;

    /// Reads interleaved samples into `buffer` and returns the number of complete frames read. A
    /// partial frame is never consumed. The buffer keeps its length, as every slice does.
    fn read_audio(&mut self, buffer: &mut [u32]) -> (r: usize)
        ensures
            final(buffer)@.len() == old(buffer)@.len(),
    ;

    /// Reads interleaved samples and returns complete frames, as `read_audio` does.
    fn read_frames(&mut self, buffer: &mut [u32]) -> (r: usize)
        ensures
            final(buffer)@.len() == old(buffer)@.len(),
    {
        self.read_audio(buffer)
    }

    /// The number of complete frames that can be read without blocking.
    fn available_frames(&self) -> usize;

    /// The current sample rate.
    fn sample_rate(&self) -> u32;

    /// The current channel count.
    fn channel_count(&self) -> u32;

    /// Requests a configuration change.
    fn request_config(&mut self, config: DriverConfig) -> ConfigResult;

    /// A configuration change that the driver made by itself, if there is one.
    fn poll_config_change(&mut self) -> Option<DriverConfig>;

    /// Acknowledges a change that the driver made, with the values in use.
    fn acknowledge_config_change(&mut self, actual: DriverConfig, result: ConfigResult);

    /// Tells the driver whether the engine is ready to process audio.
    fn set_engine_ready(&mut self, ready: bool);
}

/// Fallback driver where no platform driver is available: it supports nothing and reads no frames,
/// so the daemon still runs.
#[derive(Debug)]
pub struct NullDriver;

impl NullDriver {
    /// The fallback driver.
    pub fn new() -> (r: NullDriver)
        ensures
            r == NullDriver,
    {
        NullDriver
    }
}

impl Default for NullDriver {
    fn default() -> (r: NullDriver)
        ensures
            r == NullDriver,
    {
        NullDriver::new()
    }
}

impl AudioDriver for NullDriver {
    fn initialize(&mut self) -> (r: Result<(), DriverError>)
        ensures
            r is Ok,
            *final(self) == *old(self),
    {
        Ok(())
    }

    fn shutdown(&mut self)
        ensures
            *final(self) == *old(self),
    {
    }

    fn status(&self) -> (r: DriverStatus)
        ensures
            !r.platform_supported && !r.driver_installed && !r.capture_active && !r.driver_ready,
            r.sample_rate == 0 && r.channel_count == 0 && r.buffer_frames == 0,
            r.driver_name@ == "None"@,
    {
        DriverStatus::new(false, false, false, 0, 0, 0, "None", false)
    }

    fn read_audio(&mut self, buffer: &mut [u32]) -> (r: usize)
        ensures
            r == 0,
            final(buffer)@ == old(buffer)@,
    {
        0
    }

    fn available_frames(&self) -> (r: usize)
        ensures
            r == 0,
    {
        0
    }

    fn sample_rate(&self) -> (r: u32)
        ensures
            r == 0,
    {
        0
    }

    fn channel_count(&self) -> (r: u32)
        ensures
            r == 0,
    {
        0
    }

    fn request_config(&mut self, config: DriverConfig) -> (r: ConfigResult)
        ensures
            r@ == ConfigAnswer::Accepted,
    {
        ConfigResult::Accepted
    }

    fn poll_config_change(&mut self) -> (r: Option<DriverConfig>)
        ensures
            r is None,
    {
        None
    }

    fn acknowledge_config_change(&mut self, actual: DriverConfig, result: ConfigResult)
        ensures
            *final(self) == *old(self),
    {
    }

    fn set_engine_ready(&mut self, ready: bool)
        ensures
            *final(self) == *old(self),
    {
    }
}

/// A request keeps what it leaves open: zero stands for the current setting, any other value for
/// itself.
pub proof fn requests_keep_what_they_leave_open(requested: u32, current: u32)
    ensures
        requested_or(0, current) == current,
        requested != 0 ==> requested_or(requested, current) == requested,
{
}

/// An I/O error is told as what it is: a lack of permission, a timeout, or an I/O error, always with
/// its own message. And every error says its message, with the setting that it is about.
pub proof fn errors_say_their_message(message: Seq<char>, field: Seq<char>)
    ensures
        io_fault(IoErrorClass::PermissionDenied, message) == DriverFault::PermissionDenied(message),
        io_fault(IoErrorClass::TimedOut, message) == DriverFault::Timeout(message),
        io_fault(IoErrorClass::Other, message) == DriverFault::Io(message),
        fault_text(DriverFault::NotAvailable(message)) == message,
        fault_text(DriverFault::NotInstalled(message)) == message,
        fault_text(DriverFault::PermissionDenied(message)) == message,
        fault_text(DriverFault::Timeout(message)) == message,
        fault_text(DriverFault::Io(message)) == message,
        fault_text(DriverFault::Other(message)) == message,
        fault_text(DriverFault::InvalidConfig(field, message)) == field + ": "@ + message,
{
}

/// A driver's answer is what it negotiated.
pub proof fn negotiated_formats_are_kept(rate: u32, frames: u32, channels: u32, answer: ConfigResult)
    requires
        call_ensures(ConfigResult::negotiated, (rate, frames, channels), answer),
    ensures
        answer@ matches ConfigAnswer::Negotiated(config) && config.sample_rate == rate
            && config.buffer_frames == frames && config.channel_count == channels,
{
}

} // verus!
