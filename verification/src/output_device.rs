//! Which output device the daemon may play to, and where the choice comes from.

use crate::text::{
    ascii_lower, chars_contain, contains_text, lower_chars, trim_is_idempotent, trim_text, trimmed,
};
use vstd::prelude::*;

verus! {

/// Whether a name in lower case points to a virtual or loopback device.
pub open spec fn has_virtual_marker(lower: Seq<char>) -> bool {
    ||| contains_text(lower, "sotf"@)
    ||| contains_text(lower, "blackhole"@)
    ||| contains_text(lower, "zoomaudio"@)
    ||| contains_text(lower, "loopback"@)
    ||| contains_text(lower, "virtual"@)
    ||| contains_text(lower, "soundflower"@)
    ||| contains_text(lower, "background music"@)
    ||| contains_text(lower, "audio bridge"@)
}

/// Whether a device name is safe to play to: no virtual or loopback marker occurs in it, in any
/// ASCII case.
pub open spec fn is_safe_device(name: Seq<char>) -> bool {
    !has_virtual_marker(ascii_lower(name))
}

/// Whether a device may be used as speaker output. Virtual and loopback devices would feed the
/// daemon its own output.
pub fn is_safe_output_device_name(name: &str) -> (r: bool)
    ensures
        r == is_safe_device(name@),
{
    let lower = lower_chars(name);
    !(chars_contain(&lower, "sotf") || chars_contain(&lower, "blackhole") || chars_contain(
        &lower,
        "zoomaudio",
    ) || chars_contain(&lower, "loopback") || chars_contain(&lower, "virtual") || chars_contain(
        &lower,
        "soundflower",
    ) || chars_contain(&lower, "background music") || chars_contain(&lower, "audio bridge"))
}

/// Whether an error text in lower case is one of the engine's reports of an absent device.
pub open spec fn has_absence_marker(lower: Seq<char>) -> bool {
    ||| contains_text(lower, "not available"@)
    ||| contains_text(lower, "not found"@)
    ||| contains_text(lower, "needs playback stream recovery"@)
    ||| contains_text(lower, "stream error reported"@)
    ||| contains_text(lower, "device id changed"@)
}

/// Whether a startup failure looks like a device-availability race.
pub open spec fn is_availability_error(error: Option<Seq<char>>) -> bool {
    error is Some && has_absence_marker(ascii_lower(error->0))
}

/// Whether a startup failure looks like a device-availability race rather than a permanent
/// configuration error. Unknown failures are never retried.
pub fn startup_error_is_device_availability(error: Option<&str>) -> (r: bool)
    ensures
        r == (error is Some && has_absence_marker(ascii_lower(error->0@))),
{
    match error {
        None => false,
        Some(message) => {
            let lower = lower_chars(message);
            chars_contain(&lower, "not available") || chars_contain(&lower, "not found")
                || chars_contain(&lower, "needs playback stream recovery") || chars_contain(
                &lower,
                "stream error reported",
            ) || chars_contain(&lower, "device id changed")
        },
    }
}

/// The device that a configured value names: the value without surrounding white space, where
/// anything is left.
pub open spec fn named_device(value: Option<Seq<char>>) -> Option<Seq<char>> {
    match value {
        Some(text) => if trimmed(text).len() > 0 {
            Some(trimmed(text))
        } else {
            None
        },
        None => None,
    }
}

/// The view of an optional text.
pub open spec fn opt_text(value: Option<String>) -> Option<Seq<char>> {
    match value {
        Some(text) => Some(text@),
        None => None,
    }
}

/// The view of an optional borrowed text.
pub open spec fn opt_str(value: Option<&str>) -> Option<Seq<char>> {
    match value {
        Some(text) => Some(text@),
        None => None,
    }
}

/// A copy of an optional text.
pub fn copy_opt_text(value: &Option<String>) -> (r: Option<String>)
    ensures
        opt_text(r) == opt_text(*value),
{
    match value {
        Some(text) => Some(text.clone()),
        None => None,
    }
}

/// The device that a configured value names.
pub fn configured_output_device_from_value(value: Option<&str>) -> (r: Option<String>)
    ensures
        opt_text(r) == named_device(opt_str(value)),
{
    match value {
        Some(text) => {
            let device = trim_text(text);
            if device.as_str().unicode_len() > 0 {
                Some(device)
            } else {
                None
            }
        },
        None => None,
    }
}

/// The version of the state file that this daemon reads and writes.
pub const STATE_VERSION: u32 = 1;

/// The largest state file that is read.
pub const MAX_STATE_FILE_BYTES: u64 = 16384;

/// What the state file holds.
#[derive(Debug)]
pub struct PersistedSystemwideState {
    pub version: u32,
    pub output_device: String,
}

/// The device that a decoded state file names.
pub open spec fn stored_device(state: Option<PersistedSystemwideState>) -> Option<Seq<char>> {
    match state {
        Some(s) => if s.version == STATE_VERSION {
            named_device(Some(s.output_device@))
        } else {
            None
        },
        None => None,
    }
}

/// Whether a state file may be read: a regular file within the size limit.
pub fn state_file_is_readable(is_file: bool, len: u64) -> (r: bool)
    ensures
        r == (is_file && len <= MAX_STATE_FILE_BYTES),
{
    is_file && len <= MAX_STATE_FILE_BYTES
}

/// The device that a decoded state file names, where its version is known.
pub fn load_output_device(state: &PersistedSystemwideState) -> (r: Option<String>)
    ensures
        opt_text(r) == stored_device(Some(*state)),
{
    if state.version != STATE_VERSION {
        return None;
    }
    configured_output_device_from_value(Some(state.output_device.as_str()))
}

/// What to write to the state file for a chosen device.
pub fn persisted_output_device(device: &str) -> (r: Result<PersistedSystemwideState, String>)
    ensures
        match named_device(Some(device@)) {
            Some(name) => r matches Ok(state) && state.version == STATE_VERSION
                && state.output_device@ == name,
            None => r matches Err(e) && e@ == "output device name must not be empty"@,
        },
{
    match configured_output_device_from_value(Some(device)) {
        Some(output_device) => Ok(PersistedSystemwideState { version: STATE_VERSION, output_device }),
        None => Err("output device name must not be empty".to_owned()),
    }
}

/// Reading back a written state file gives the trimmed device name.
pub proof fn persisted_device_round_trips(device: Seq<char>, state: PersistedSystemwideState)
    requires
        named_device(Some(device)) == Some(state.output_device@),
        state.version == STATE_VERSION,
    ensures
        stored_device(Some(state)) == Some(trimmed(device)),
{
    trim_is_idempotent(device);
}

/// The device configured for playback: the environment's choice, else that of the state file, and
/// none where that is not a safe device.
pub open spec fn configured_device(
    environment: Option<Seq<char>>,
    stored: Option<PersistedSystemwideState>,
) -> Option<Seq<char>> {
    let chosen = if named_device(environment) is Some {
        named_device(environment)
    } else {
        stored_device(stored)
    };
    if chosen is Some && is_safe_device(chosen->0) {
        chosen
    } else {
        None
    }
}

/// The device configured for playback by the environment or the state file.
pub fn configured_output_device_from_sources(
    environment_value: Option<&str>,
    stored: &Option<PersistedSystemwideState>,
) -> (r: Option<String>)
    ensures
        opt_text(r) == configured_device(opt_str(environment_value), *stored),
{
    let from_environment = configured_output_device_from_value(environment_value);
    let chosen = match from_environment {
        Some(device) => Some(device),
        None => match stored {
            Some(state) => load_output_device(state),
            None => None,
        },
    };
    match chosen {
        Some(device) => if is_safe_output_device_name(device.as_str()) {
            Some(device)
        } else {
            None
        },
        None => None,
    }
}

/// A device whose name says that it is virtual is never safe, however the name is written.
pub proof fn virtual_devices_are_unsafe(name: Seq<char>)
    ensures
        contains_text(ascii_lower(name), "sotf"@) ==> !is_safe_device(name),
        contains_text(ascii_lower(name), "blackhole"@) ==> !is_safe_device(name),
        contains_text(ascii_lower(name), "zoomaudio"@) ==> !is_safe_device(name),
        contains_text(ascii_lower(name), "loopback"@) ==> !is_safe_device(name),
        contains_text(ascii_lower(name), "virtual"@) ==> !is_safe_device(name),
        contains_text(ascii_lower(name), "soundflower"@) ==> !is_safe_device(name),
        contains_text(ascii_lower(name), "background music"@) ==> !is_safe_device(name),
        contains_text(ascii_lower(name), "audio bridge"@) ==> !is_safe_device(name),
        !is_safe_device(name) ==> contains_text(ascii_lower(name), "sotf"@) || contains_text(
            ascii_lower(name),
            "blackhole"@,
        ) || contains_text(ascii_lower(name), "zoomaudio"@) || contains_text(
            ascii_lower(name),
            "loopback"@,
        ) || contains_text(ascii_lower(name), "virtual"@) || contains_text(
            ascii_lower(name),
            "soundflower"@,
        ) || contains_text(ascii_lower(name), "background music"@) || contains_text(
            ascii_lower(name),
            "audio bridge"@,
        ),
{
}

/// An error counts as a missing device exactly where it says so.
pub proof fn missing_devices_are_named_in_the_error(error: Seq<char>)
    ensures
        is_availability_error(Some(error)) <==> contains_text(ascii_lower(error), "not available"@)
            || contains_text(ascii_lower(error), "not found"@) || contains_text(
            ascii_lower(error),
            "needs playback stream recovery"@,
        ) || contains_text(ascii_lower(error), "stream error reported"@) || contains_text(
            ascii_lower(error),
            "device id changed"@,
        ),
        !is_availability_error(None),
{
}

/// The configured device is the one of the environment where it names one, else the stored one; it is
/// used only where it is safe, and a stored state of another version is not read.
pub proof fn configured_devices_are_named_and_safe(
    environment: Option<Seq<char>>,
    stored: Option<PersistedSystemwideState>,
)
    ensures
        ({
            let device = configured_device(environment, stored);
            let named = environment is Some && trimmed(environment->0).len() > 0;
            &&& device is Some ==> is_safe_device(device->0) && device->0.len() > 0
            &&& named && device is Some ==> device->0 == trimmed(environment->0)
            &&& named && is_safe_device(trimmed(environment->0)) ==> device is Some
            &&& !named && device is Some ==> stored is Some && stored->0.version == 1 && device->0
                == trimmed(stored->0.output_device@)
            &&& !named && stored is Some && stored->0.version == 1 && trimmed(
                stored->0.output_device@,
            ).len() > 0 && is_safe_device(trimmed(stored->0.output_device@)) ==> device is Some
        }),
{
}

/// A device is kept by its trimmed name in the current version; a blank one is refused.
pub proof fn kept_devices_have_a_name(device: &str, out: Result<PersistedSystemwideState, String>)
    requires
        call_ensures(persisted_output_device, (device,), out),
    ensures
        out is Ok <==> trimmed(device@).len() > 0,
        out matches Ok(state) ==> state.version == 1 && state.output_device@ == trimmed(device@),
        out matches Err(e) ==> e@ == "output device name must not be empty"@,
{
}

} // verus!
