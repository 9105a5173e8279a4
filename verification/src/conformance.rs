//! What every audio driver must keep to, checked without a real audio device.

use crate::driver::{fault_text, AudioDriver, DriverConfig, DriverError, DriverStatus};
use crate::text::{decimal, decimal_text, join2, join3};
use vstd::prelude::*;

verus! {

/// The bit pattern of the 32-bit float 123456.75, which marks samples that a driver has not
/// written.
pub const SENTINEL: u32 = 0x47f1_2060;

/// The number of whole frames in a buffer.
pub open spec fn whole_frames(samples: nat, channels: nat) -> nat {
    if channels == 0 {
        0
    } else {
        samples / channels
    }
}

/// What a read comes to, given the buffer after it and the frame count that it reported. A driver
/// that reports no frames may fill the buffer with silence. One that reports frames must have
/// written exactly those.
pub open spec fn read_verdict(
    method: Seq<char>,
    buffer: Seq<u32>,
    channels: nat,
    frames: nat,
) -> Result<(), Seq<char>> {
    let consumed = (frames * channels) as int;
    if frames > whole_frames(buffer.len(), channels) {
        Err(
            method + " returned "@ + decimal(frames) + " frames for "@ + decimal(buffer.len())
                + " samples and "@ + decimal(channels) + " channels"@,
        )
    } else if frames == 0 {
        Ok(())
    } else if exists|i: int| 0 <= i < consumed && buffer[i] == SENTINEL {
        Err(
            method
                + " reported frames without writing the complete interleaved frame data"@,
        )
    } else if exists|i: int| consumed <= i < buffer.len() && buffer[i] != SENTINEL {
        Err(
            method + " modified the partial-frame tail after reporting "@ + decimal(frames)
                + " frames"@,
        )
    } else {
        Ok(())
    }
}

/// The view of a verdict.
pub open spec fn verdict_of(r: Result<(), String>) -> Result<(), Seq<char>> {
    match r {
        Ok(_) => Ok(()),
        Err(e) => Err(e@),
    }
}

fn holds_sentinel(buffer: &Vec<u32>, to: usize) -> (r: bool)
    requires
        to <= buffer@.len(),
    ensures
        r == (exists|i: int| 0 <= i < to && buffer@[i] == SENTINEL),
{
    let mut i: usize = 0;
    while i < to
        invariant
            i <= to <= buffer@.len(),
            forall|k: int| 0 <= k < i ==> buffer@[k] != SENTINEL,
        decreases to - i,
    {
        if buffer[i] == SENTINEL {
            return true;
        }
        i = i + 1;
    }
    false
}

fn tail_touched(buffer: &Vec<u32>, from: usize) -> (r: bool)
    requires
        from <= buffer@.len(),
    ensures
        r == (exists|i: int| from <= i < buffer@.len() && buffer@[i] != SENTINEL),
{
    let mut i: usize = from;
    while i < buffer.len()
        invariant
            from <= i <= buffer@.len(),
            forall|k: int| from <= k < i ==> buffer@[k] == SENTINEL,
        decreases buffer@.len() - i,
    {
        if buffer[i] != SENTINEL {
            return true;
        }
        i = i + 1;
    }
    false
}

/// Judges one read by the buffer after it and the frame count that it reported.
pub fn check_read_result(method: &str, buffer: &Vec<u32>, channels: usize, frames: usize) -> (r: Result<
    (),
    String,
>)
    ensures
        verdict_of(r) == read_verdict(method@, buffer@, channels as nat, frames as nat),
{
    let max_frames: usize = if channels == 0 {
        0
    } else {
        buffer.len() / channels
    };
    if frames > max_frames {
        let have = decimal_text(frames as u64);
        let samples = decimal_text(buffer.len() as u64);
        let wide = decimal_text(channels as u64);
        let a = join3(method, " returned ", have.as_str());
        let b = join3(a.as_str(), " frames for ", samples.as_str());
        let c = join3(b.as_str(), " samples and ", wide.as_str());
        return Err(join2(c.as_str(), " channels"));
    }
    if frames == 0 {
        return Ok(());
    }
    proof {
        let n = buffer@.len() as int;
        assert(frames * channels <= n) by (nonlinear_arith)
            requires
                frames <= n / (channels as int),
                channels > 0,
                n >= 0,
        ;
    }
    let consumed: usize = frames * channels;
    if holds_sentinel(buffer, consumed) {
        return Err(
            join2(
                method,
                " reported frames without writing the complete interleaved frame data",
            ),
        );
    }
    if tail_touched(buffer, consumed) {
        let have = decimal_text(frames as u64);
        let a = join3(
            method,
            " modified the partial-frame tail after reporting ",
            have.as_str(),
        );
        return Err(join2(a.as_str(), " frames"));
    }
    Ok(())
}

/// The number of samples with which a driver is tried: three frames and one sample more.
pub open spec fn trial_samples(channels: nat) -> nat {
    if channels * 3 + 1 > usize::MAX {
        usize::MAX as nat
    } else {
        channels * 3 + 1
    }
}

fn trial_size(channels: usize) -> (r: usize)
    ensures
        r == trial_samples(channels as nat),
{
    if channels > (usize::MAX - 1) / 3 {
        usize::MAX
    } else {
        channels * 3 + 1
    }
}

/// What a driver showed while it was tried.
pub struct Trial {
    pub initialized: Result<(), Seq<char>>,
    pub channels: nat,
    pub audio: Seq<u32>,
    pub audio_frames: nat,
    pub frames: Seq<u32>,
    pub frames_read: nat,
    pub changed: bool,
}

/// What a trial comes to: the first complaint, in the order of the calls.
pub open spec fn trial_verdict(t: Trial) -> Result<(), Seq<char>> {
    match t.initialized {
        Err(e) => Err("audio driver contract fixture must initialize: "@ + e),
        Ok(_) => match read_verdict("read_audio"@, t.audio, t.channels, t.audio_frames) {
            Err(e) => Err(e),
            Ok(_) => match read_verdict("read_frames"@, t.frames, t.channels, t.frames_read) {
                Err(e) => Err(e),
                Ok(_) => if t.changed {
                    Err("poll_config_change reported a change that nobody made"@)
                } else {
                    Ok(())
                },
            },
        },
    }
}

/// Judges a trial by what the driver showed: how it initialized, the buffer and the reported frame
/// count of each read, and whether it reported a configuration change of its own.
pub fn judge_trial(
    initialized: Result<(), String>,
    channels: usize,
    audio: &Vec<u32>,
    audio_frames: usize,
    frames: &Vec<u32>,
    frames_read: usize,
    changed: bool,
) -> (r: Result<(), String>)
    ensures
        verdict_of(r) == trial_verdict(
            (Trial {
                initialized: verdict_of(initialized),
                channels: channels as nat,
                audio: audio@,
                audio_frames: audio_frames as nat,
                frames: frames@,
                frames_read: frames_read as nat,
                changed,
            }),
        ),
{
    match initialized {
        Ok(_) => {},
        Err(error) => {
            return Err(
                join2("audio driver contract fixture must initialize: ", error.as_str()),
            );
        },
    }
    match check_read_result("read_audio", audio, channels, audio_frames) {
        Ok(_) => {},
        Err(error) => {
            return Err(error);
        },
    }
    match check_read_result("read_frames", frames, channels, frames_read) {
        Ok(_) => {},
        Err(error) => {
            return Err(error);
        },
    }
    if changed {
        Err("poll_config_change reported a change that nobody made".to_owned())
    } else {
        Ok(())
    }
}

/// What was not tried yet adds no complaint: before the reads the verdict is that of the
/// initialization, and between them that of the first read.
pub proof fn early_verdicts_stand(t: Trial)
    ensures
        trial_verdict(Trial { audio_frames: 0, frames_read: 0, changed: false, ..t }) is Err
            <==> t.initialized is Err,
        trial_verdict(Trial { audio_frames: 0, frames_read: 0, changed: false, ..t }) is Err
            ==> trial_verdict(t) == trial_verdict(
            Trial { audio_frames: 0, frames_read: 0, changed: false, ..t },
        ),
        trial_verdict(Trial { frames_read: 0, changed: false, ..t }) is Err ==> trial_verdict(t)
            == trial_verdict(Trial { frames_read: 0, changed: false, ..t }),
        trial_verdict(t) is Ok <==> t.initialized is Ok && read_verdict(
            "read_audio"@,
            t.audio,
            t.channels,
            t.audio_frames,
        ) is Ok && read_verdict("read_frames"@, t.frames, t.channels, t.frames_read) is Ok
            && !t.changed,
{
}

fn marked_buffer(samples: usize) -> (r: Vec<u32>)
    ensures
        r@.len() == samples,
        forall|i: int| 0 <= i < samples ==> r@[i] == SENTINEL,
{
    let mut out: Vec<u32> = Vec::new();
    let mut i: usize = 0;
    while i < samples
        invariant
            i <= samples,
            out@.len() == i,
            forall|k: int| 0 <= k < i ==> out@[k] == SENTINEL,
        decreases samples - i,
    {
        out.push(SENTINEL);
        i = i + 1;
    }
    out
}

/// What a driver was asked and what it showed, call by call, with the driver after each call that
/// may change it. What belongs to calls that were not made means nothing.
pub struct TrialCalls<D> {
    pub initialized: Result<(), DriverError>,
    pub after_initialize: D,
    pub after_ready: D,
    pub after_ready_again: D,
    pub channels: u32,
    pub audio: Seq<u32>,
    pub audio_frames: usize,
    pub after_audio: D,
    pub frames: Seq<u32>,
    pub frames_read: usize,
    pub after_frames: D,
    pub polled: Option<DriverConfig>,
    pub after_poll: D,
    pub after_rest: D,
    pub after_rest_again: D,
    pub after_shutdown: D,
}

/// What the driver showed.
pub open spec fn trial_of<D>(c: TrialCalls<D>) -> Trial {
    Trial {
        initialized: match c.initialized {
            Ok(_) => Ok(()),
            Err(error) => Err(fault_text(error@)),
        },
        channels: c.channels as nat,
        audio: c.audio,
        audio_frames: c.audio_frames as nat,
        frames: c.frames,
        frames_read: c.frames_read as nat,
        changed: c.polled is Some,
    }
}

/// Whether the first read was good.
pub open spec fn audio_is_good(t: Trial) -> bool {
    t.initialized is Ok && read_verdict("read_audio"@, t.audio, t.channels, t.audio_frames) is Ok
}

/// Whether both reads were good.
pub open spec fn frames_are_good(t: Trial) -> bool {
    audio_is_good(t) && read_verdict("read_frames"@, t.frames, t.channels, t.frames_read) is Ok
}

/// The buffer that a read is given: three frames and one sample, marked all over.
pub open spec fn trial_buffer(channels: u32) -> Seq<u32> {
    Seq::new(trial_samples(channels as nat), |i: int| SENTINEL)
}

/// Tries the invariants of a driver that need no real audio device: it initializes, takes repeated
/// readiness calls, reads whole frames by either entry point, and reports no configuration change
/// of its own. Each read gets a buffer of its own. After every call `judge_trial` gives the verdict
/// on what was seen so far, and the first complaint ends the trial. A trial without a complaint ends
/// with repeated calls that the engine is not ready, and with the shutdown.
pub fn assert_audio_driver_contract<D: AudioDriver>(driver: D) -> (r: Result<(), String>)
    ensures
        exists|c: TrialCalls<D>|
            {
                let t = #[trigger] trial_of(c);
                &&& verdict_of(r) == trial_verdict(t)
                &&& exists|m: &mut D|
                    *m == driver && *final(m) == c.after_initialize && #[trigger] call_ensures(
                        D::initialize,
                        (m,),
                        c.initialized,
                    )
                &&& t.initialized is Ok ==> {
                    &&& exists|m: &mut D|
                        *m == c.after_initialize && *final(m) == c.after_ready
                            && #[trigger] call_ensures(D::set_engine_ready, (m, true), ())
                    &&& exists|m: &mut D|
                        *m == c.after_ready && *final(m) == c.after_ready_again
                            && #[trigger] call_ensures(D::set_engine_ready, (m, true), ())
                    &&& call_ensures(D::channel_count, (&c.after_ready_again,), c.channels)
                    &&& c.audio.len() == trial_samples(c.channels as nat)
                    &&& exists|m: &mut D, b: &mut [u32]|
                        *m == c.after_ready_again && *final(m) == c.after_audio && b@
                            == trial_buffer(c.channels) && final(b)@ == c.audio
                            && #[trigger] call_ensures(D::read_audio, (m, b), c.audio_frames)
                }
                &&& audio_is_good(t) ==> {
                    &&& c.frames.len() == trial_samples(c.channels as nat)
                    &&& exists|m: &mut D, b: &mut [u32]|
                        *m == c.after_audio && *final(m) == c.after_frames && b@ == trial_buffer(
                            c.channels,
                        ) && final(b)@ == c.frames && #[trigger] call_ensures(
                            D::read_frames,
                            (m, b),
                            c.frames_read,
                        )
                }
                &&& frames_are_good(t) ==> {
                    &&& exists|n: usize|
                        #[trigger] call_ensures(D::available_frames, (&c.after_frames,), n)
                    &&& exists|n: u32| #[trigger] call_ensures(D::sample_rate, (&c.after_frames,), n)
                    &&& exists|s: DriverStatus|
                        #[trigger] call_ensures(D::status, (&c.after_frames,), s)
                    &&& exists|m: &mut D|
                        *m == c.after_frames && *final(m) == c.after_poll && #[trigger] call_ensures(
                            D::poll_config_change,
                            (m,),
                            c.polled,
                        )
                }
                &&& r is Ok ==> {
                    &&& exists|m: &mut D|
                        *m == c.after_poll && *final(m) == c.after_rest && #[trigger] call_ensures(
                            D::set_engine_ready,
                            (m, false),
                            (),
                        )
                    &&& exists|m: &mut D|
                        *m == c.after_rest && *final(m) == c.after_rest_again
                            && #[trigger] call_ensures(D::set_engine_ready, (m, false), ())
                    &&& exists|m: &mut D|
                        *m == c.after_rest_again && *final(m) == c.after_shutdown
                            && #[trigger] call_ensures(D::shutdown, (m,), ())
                }
            },
{
    let mut driver = driver;
    let untried: Vec<u32> = Vec::new();
    let outcome = driver.initialize();
    let ghost mut calls = TrialCalls {
        initialized: outcome,
        after_initialize: driver,
        after_ready: driver,
        after_ready_again: driver,
        channels: 0,
        audio: Seq::empty(),
        audio_frames: 0,
        after_audio: driver,
        frames: Seq::empty(),
        frames_read: 0,
        after_frames: driver,
        polled: None,
        after_poll: driver,
        after_rest: driver,
        after_rest_again: driver,
        after_shutdown: driver,
    };
    let initialized = match &outcome {
        Ok(_) => Ok(()),
        Err(error) => Err(error.to_string()),
    };
    let begun = judge_trial(initialized, 0, &untried, 0, &untried, 0, false);
    if begun.is_err() {
        proof {
            assert(verdict_of(begun) == trial_verdict(trial_of(calls)));
        }
        return begun;
    }
    driver.set_engine_ready(true);
    proof {
        calls.after_ready = driver;
    }
    driver.set_engine_ready(true);
    proof {
        calls.after_ready_again = driver;
    }
    let count: u32 = driver.channel_count();
    let channels: usize = count as usize;
    let sample_count: usize = trial_size(channels);
    let mut audio_buffer = marked_buffer(sample_count);
    proof {
        assert(audio_buffer@ =~= trial_buffer(count));
    }
    let audio_frames: usize = driver.read_audio(audio_buffer.as_mut_slice());
    proof {
        calls.channels = count;
        calls.audio = audio_buffer@;
        calls.audio_frames = audio_frames;
        calls.after_audio = driver;
    }
    let audio = judge_trial(Ok(()), channels, &audio_buffer, audio_frames, &untried, 0, false);
    if audio.is_err() {
        proof {
            assert(verdict_of(audio) == trial_verdict(trial_of(calls)));
        }
        return audio;
    }
    let mut frames_buffer = marked_buffer(sample_count);
    proof {
        assert(frames_buffer@ =~= trial_buffer(count));
    }
    let frames_read: usize = driver.read_frames(frames_buffer.as_mut_slice());
    proof {
        calls.frames = frames_buffer@;
        calls.frames_read = frames_read;
        calls.after_frames = driver;
    }
    let frames = judge_trial(
        Ok(()),
        channels,
        &audio_buffer,
        audio_frames,
        &frames_buffer,
        frames_read,
        false,
    );
    if frames.is_err() {
        proof {
            assert(verdict_of(frames) == trial_verdict(trial_of(calls)));
        }
        return frames;
    }
    let available: usize = driver.available_frames();
    let rate: u32 = driver.sample_rate();
    let status = driver.status();
    let polled = driver.poll_config_change();
    proof {
        calls.polled = polled;
        calls.after_poll = driver;
    }
    let verdict = judge_trial(
        Ok(()),
        channels,
        &audio_buffer,
        audio_frames,
        &frames_buffer,
        frames_read,
        polled.is_some(),
    );
    if verdict.is_ok() {
        driver.set_engine_ready(false);
        proof {
            calls.after_rest = driver;
        }
        driver.set_engine_ready(false);
        proof {
            calls.after_rest_again = driver;
        }
        driver.shutdown();
        proof {
            calls.after_shutdown = driver;
        }
    }
    proof {
        assert(verdict_of(verdict) == trial_verdict(trial_of(calls)));
    }
    verdict
}

/// A read is good exactly where it fits the buffer, wrote every sample of the frames that it reports, and
/// left the rest of the buffer alone. A read that reports nothing is good.
pub proof fn good_reads_write_whole_frames(method: Seq<char>, buffer: Seq<u32>, channels: nat, frames: nat)
    requires
        channels > 0,
    ensures
        ({
            let good = read_verdict(method, buffer, channels, frames) is Ok;
            let fits = frames * channels <= buffer.len();
            let written = forall|i: int|
                0 <= i < frames * channels ==> #[trigger] buffer[i] != 0x47f1_2060u32;
            let alone = forall|i: int|
                frames * channels <= i < buffer.len() ==> #[trigger] buffer[i] == 0x47f1_2060u32;
            &&& frames == 0 ==> good
            &&& frames > 0 ==> (good <==> fits && written && alone)
        }),
{
    vstd::arithmetic::div_mod::lemma_fundamental_div_mod(buffer.len() as int, channels as int);
    vstd::arithmetic::div_mod::lemma_mod_bound(buffer.len() as int, channels as int);
    let whole = buffer.len() / channels;
    assert(frames <= whole ==> frames * channels <= buffer.len()) by (nonlinear_arith)
        requires
            buffer.len() as int == channels * (buffer.len() / channels) + buffer.len() % channels,
            whole == buffer.len() / channels,
            buffer.len() % channels >= 0,
    ;
    assert(frames > whole ==> frames * channels > buffer.len()) by (nonlinear_arith)
        requires
            buffer.len() as int == channels * (buffer.len() / channels) + buffer.len() % channels,
            whole == buffer.len() / channels,
            0 <= buffer.len() % channels < channels,
    ;
    assert(0 <= frames * channels) by (nonlinear_arith);
}

/// A trial is read with more than three frames' worth of samples, so that a partial frame is left over.
pub proof fn trials_leave_a_partial_frame(channels: nat)
    requires
        channels * 3 + 1 <= usize::MAX,
    ensures
        trial_samples(channels) == 3 * channels + 1,
        channels > 1 ==> trial_samples(channels) % channels == 1,
{
    if channels > 1 {
        vstd::arithmetic::div_mod::lemma_mod_multiples_vanish(3, 1, channels as int);
        vstd::arithmetic::div_mod::lemma_small_mod(1, channels);
        vstd::arithmetic::mul::lemma_mul_is_commutative(3, channels as int);
    }
}

/// A driver passes exactly where it starts, both ways of reading are good, and no change is reported that
/// nobody made.
pub proof fn drivers_pass_when_every_part_does(t: Trial)
    ensures
        trial_verdict(t) is Ok <==> t.initialized is Ok && read_verdict(
            "read_audio"@,
            t.audio,
            t.channels,
            t.audio_frames,
        ) is Ok && read_verdict("read_frames"@, t.frames, t.channels, t.frames_read) is Ok && !t.changed,
        t.initialized matches Err(e) ==> trial_verdict(t) == Err::<(), Seq<char>>(
            "audio driver contract fixture must initialize: "@ + e,
        ),
{
}

} // verus!
