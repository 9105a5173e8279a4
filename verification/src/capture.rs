//! Rebuilding playback when capture resumes after a long silence.

use crate::apply::{
    apply_step, begins, fallback_channels, is_previous_plan, opt_plan, previous_plan, setting_or,
    ActionModel, ApplyAction, ApplyTransaction, ReplyModel, TransactionModel,
};
use crate::driver::DriverStatus;
use crate::graph::accepts_graphs;
use crate::output_device::opt_text;
use crate::pipeline::{PipelinePlan, PlanModel};
use crate::plugins::PluginGraphConfig;
use crate::state::{StateModel, SystemwideState};
use vstd::prelude::*;

verus! {

/// How long capture has to be silent before playback is rebuilt, in nanoseconds.
pub const PLAYBACK_IDLE_REBUILD_THRESHOLD: u64 = 30_000_000_000;

/// Follows whether capture is active. Times are nanoseconds on a clock that does not run backwards.
#[derive(Debug, Clone, Copy, PartialEq, Eq, Structural)]
pub struct CaptureResumeTracker {
    pub generation: u64,
    pub capture_active: bool,
    pub inactive_since: Option<u64>,
}

/// A tracker that starts at `now`.
pub open spec fn tracking_from(now: u64, generation: u64, capture_active: bool) -> CaptureResumeTracker {
    CaptureResumeTracker {
        generation,
        capture_active,
        inactive_since: if capture_active { None } else { Some(now) },
    }
}

/// The time from `earlier` to `later`, or none where `later` is earlier.
pub open spec fn elapsed(earlier: u64, later: u64) -> u64 {
    if later >= earlier {
        (later - earlier) as u64
    } else {
        0
    }
}

/// Whether capture resumes after a long silence.
pub open spec fn resumes(t: CaptureResumeTracker, now: u64, generation: u64, capture_active: bool) -> bool {
    &&& generation == t.generation
    &&& capture_active
    &&& !t.capture_active
    &&& t.inactive_since is Some
    &&& elapsed(t.inactive_since->0, now) >= PLAYBACK_IDLE_REBUILD_THRESHOLD
}

/// The tracker after an observation. A change of the pipeline starts it anew.
pub open spec fn observed(t: CaptureResumeTracker, now: u64, generation: u64, capture_active: bool) -> CaptureResumeTracker {
    if generation != t.generation {
        tracking_from(now, generation, capture_active)
    } else {
        CaptureResumeTracker {
            generation,
            capture_active,
            inactive_since: if capture_active {
                None
            } else if t.capture_active || t.inactive_since is None {
                Some(now)
            } else {
                t.inactive_since
            },
        }
    }
}

impl CaptureResumeTracker {
    /// A tracker that starts at `now`.
    pub fn new(now: u64, generation: u64, capture_active: bool) -> (r: CaptureResumeTracker)
        ensures
            r == tracking_from(now, generation, capture_active),
    {
        CaptureResumeTracker {
            generation,
            capture_active,
            inactive_since: if capture_active { None } else { Some(now) },
        }
    }

    /// Whether capture resumes after a long silence. A change of the pipeline rebuilds playback by
    /// itself and starts the tracker anew.
    pub fn observe(&mut self, now: u64, generation: u64, capture_active: bool) -> (r: bool)
        ensures
            r == resumes(*old(self), now, generation, capture_active),
            *final(self) == observed(*old(self), now, generation, capture_active),
    {
        if generation != self.generation {
            self.generation = generation;
            self.capture_active = capture_active;
            self.inactive_since = if capture_active { None } else { Some(now) };
            return false;
        }
        let long_silence = match self.inactive_since {
            Some(since) => now >= since && now - since >= PLAYBACK_IDLE_REBUILD_THRESHOLD,
            None => false,
        };
        let resumed = capture_active && !self.capture_active && long_silence;
        if capture_active {
            self.inactive_since = None;
        } else if self.capture_active || self.inactive_since.is_none() {
            self.inactive_since = Some(now);
        }
        self.capture_active = capture_active;
        resumed
    }
}

/// Once capture resumed, it does not resume again before it was silent and long so, whatever the
/// pipeline does; and an observation right after a change of the pipeline never rebuilds playback.
pub proof fn resumption_fires_once(
    t: CaptureResumeTracker,
    now: u64,
    generation: u64,
    later: u64,
    later_generation: u64,
    active: bool,
)
    requires
        resumes(t, now, generation, true),
    ensures
        !resumes(observed(t, now, generation, true), later, later_generation, active),
        generation != later_generation ==> !resumes(
            observed(t, now, generation, active),
            later,
            later_generation,
            true,
        ),
{
}

/// A silence shorter than the threshold rebuilds nothing.
pub proof fn short_silences_rebuild_nothing(
    t: CaptureResumeTracker,
    silent_from: u64,
    now: u64,
    generation: u64,
)
    requires
        t.capture_active,
        silent_from <= now,
        now - silent_from < PLAYBACK_IDLE_REBUILD_THRESHOLD,
    ensures
        !resumes(observed(t, silent_from, generation, false), now, generation, true),
{
}

/// What to rebuild playback with.
#[derive(Debug)]
pub struct PlaybackRebuild {
    pub plan: PipelinePlan,
    pub sample_rate: u32,
    pub buffer_frames: u32,
}

/// Whether a rebuild is the applied pipeline at the driver's format, where nothing changed since
/// capture was seen to resume and there is an applied pipeline that can be prepared.
pub open spec fn is_rebuild<F: Fn(&PluginGraphConfig) -> Result<(), String>>(
    validate: F,
    s: StateModel,
    seen_generation: u64,
    status: DriverStatus,
    configured: Option<Seq<char>>,
    rebuild: Option<PlaybackRebuild>,
) -> bool {
    if s.pipeline.generation != seen_generation || !status.capture_active {
        rebuild is None
    } else {
        exists|plan: Option<PlanModel>|
            (#[trigger] is_previous_plan(validate, s, fallback_channels(status), configured, plan))
                && rebuild_matches(rebuild, plan, status)
    }
}

/// Whether a rebuild is for a plan at the driver's format.
pub open spec fn rebuild_matches(rebuild: Option<PlaybackRebuild>, plan: Option<PlanModel>, status: DriverStatus) -> bool {
    match rebuild {
        Some(b) => plan == Some(b.plan@) && b.sample_rate == setting_or(status.sample_rate, 48000)
            && b.buffer_frames == setting_or(status.buffer_frames, 512),
        None => plan is None,
    }
}

/// What to rebuild playback with after capture resumed, if nothing changed meanwhile. The check of
/// the generation keeps a change that was made meanwhile from being undone.
pub fn plan_playback_rebuild<F: Fn(&PluginGraphConfig) -> Result<(), String>>(
    state: &SystemwideState,
    seen_generation: u64,
    status: &DriverStatus,
    configured: &Option<String>,
    validate: &F,
) -> (r: Option<PlaybackRebuild>)
    requires
        accepts_graphs(*validate),
    ensures
        is_rebuild(*validate, state@, seen_generation, *status, opt_text(*configured), r),
{
    if state.generation() != seen_generation || !status.capture_active {
        return None;
    }
    let fallback: usize = if status.channel_count > 0 {
        status.channel_count as usize
    } else {
        2
    };
    let plan = previous_plan(state, fallback, configured, validate);
    let ghost known = opt_plan(plan);
    proof {
        assert(is_previous_plan(
            *validate,
            state@,
            fallback_channels(*status),
            opt_text(*configured),
            known,
        ));
    }
    let r = match plan {
        Some(plan) => Some(
            PlaybackRebuild {
                plan,
                sample_rate: if status.sample_rate > 0 { status.sample_rate } else { 48000 },
                buffer_frames: if status.buffer_frames > 0 { status.buffer_frames } else { 512 },
            },
        ),
        None => None,
    };
    proof {
        assert(rebuild_matches(r, known, *status));
    }
    r
}

/// Whether a transaction that begins as `first` says turns at once to restarting playback: the first
/// thing after muting is that the driver is told that the engine is not ready.
pub open spec fn restarts_at_once(first: (TransactionModel, ActionModel), audible: bool) -> bool {
    if audible {
        &&& first.1 == ActionModel::SetMute(true)
        &&& forall|s: StateModel|
            {
                let muted = #[trigger] apply_step(first.0, s, ReplyModel::Outcome(Ok(())));
                &&& muted.2 == ActionModel::Settle
                &&& apply_step(muted.0, muted.1, ReplyModel::Done).2 == ActionModel::SetEngineReady(
                    false,
                )
            }
    } else {
        first.1 == ActionModel::SetEngineReady(false)
    }
}

/// Begins to rebuild playback. The applied pipeline is started anew, however healthy it looks: a
/// stream that was idle for long may take frames and play silence. `audible` says whether output
/// plays and is not muted.
pub fn begin_playback_rebuild<F: Fn(&PluginGraphConfig) -> Result<(), String>>(
    state: &SystemwideState,
    rebuild: PlaybackRebuild,
    status: &DriverStatus,
    audible: bool,
    configured: &Option<String>,
    validate: &F,
) -> (r: (ApplyTransaction, ApplyAction))
    requires
        accepts_graphs(*validate),
    ensures
        begins(
            *validate,
            state@,
            opt_text(*configured),
            rebuild.plan@,
            *status,
            rebuild.sample_rate,
            rebuild.buffer_frames,
            true,
            audible,
            (r.0@, r.1@),
        ),
        restarts_at_once((r.0@, r.1@), audible),
{
    ApplyTransaction::begin(
        state,
        rebuild.plan,
        status,
        rebuild.sample_rate,
        rebuild.buffer_frames,
        true,
        audible,
        configured,
        validate,
    )
}

/// Playback is rebuilt when capture resumes after thirty seconds of silence or more, whenever the
/// silence was watched from its beginning and the pipeline was left alone.
pub proof fn long_silences_rebuild_playback(t: CaptureResumeTracker, silent_from: u64, between: u64, now: u64)
    requires
        t.capture_active,
        silent_from <= between <= now,
        now - silent_from >= 30_000_000_000,
    ensures
        ({
            let quiet = observed(t, silent_from, t.generation, false);
            let still = observed(quiet, between, t.generation, false);
            &&& resumes(quiet, now, t.generation, true)
            &&& resumes(still, now, t.generation, true)
            &&& !resumes(still, now, t.generation, false)
        }),
{
}

/// A tracker that starts in silence counts the silence from its start, and a change of the pipeline has
/// it start over.
pub proof fn changes_restart_the_silence(now: u64, generation: u64, later: u64, active: bool)
    requires
        now <= later,
    ensures
        resumes(tracking_from(now, generation, false), later, generation, true) <==> later - now
            >= 30_000_000_000,
        !resumes(tracking_from(now, generation, true), later, generation, true),
        forall|t: CaptureResumeTracker|
            t.generation != generation ==> #[trigger] observed(t, now, generation, active)
                == tracking_from(now, generation, active),
{
}

/// A rebuild plays the applied pipeline again, at the format that the driver reports, and only where
/// nothing changed since and capture is active.
pub proof fn rebuilds_play_the_applied_pipeline<F: Fn(&PluginGraphConfig) -> Result<(), String>>(
    validate: F,
    s: StateModel,
    seen_generation: u64,
    status: DriverStatus,
    configured: Option<Seq<char>>,
    rebuild: PlaybackRebuild,
)
    requires
        is_rebuild(validate, s, seen_generation, status, configured, Some(rebuild)),
    ensures
        s.pipeline.generation == seen_generation,
        status.capture_active,
        s.pipeline.applied is Some,
        ({
            let applied = s.pipeline.applied->0.spec;
            let plan = rebuild.plan@.spec;
            &&& plan.user_graph == applied.user_graph
            &&& plan.output_channels == applied.output_channels
            &&& applied.input_channels > 0 ==> plan.input_channels == applied.input_channels
            &&& rebuild.sample_rate == if status.sample_rate > 0 { status.sample_rate } else { 48000 }
            &&& rebuild.buffer_frames == if status.buffer_frames > 0 { status.buffer_frames } else { 512 }
        }),
{
    let plan = choose|plan: Option<PlanModel>|
        (#[trigger] is_previous_plan(validate, s, fallback_channels(status), configured, plan))
            && rebuild_matches(Some(rebuild), plan, status);
    let applied = s.pipeline.applied->0.spec;
    let out = choose|out: Result<PlanModel, Seq<char>>|
        (#[trigger] crate::pipeline::spec_plan_outcome(
            validate,
            applied,
            fallback_channels(status),
            configured,
            out,
        )) && plan == crate::apply::plan_if_ok(out);
    crate::pipeline::plans_play_what_they_were_asked_for(
        validate,
        applied,
        fallback_channels(status),
        configured,
        out,
    );
}

/// A rebuild restarts playback even where the pipeline is the one that runs.
pub proof fn rebuilds_are_forced<F: Fn(&PluginGraphConfig) -> Result<(), String>>(
    state: SystemwideState,
    rebuild: PlaybackRebuild,
    status: DriverStatus,
    audible: bool,
    configured: Option<String>,
    validate: F,
    begun: (ApplyTransaction, ApplyAction),
)
    requires
        call_ensures(
            begin_playback_rebuild::<F>,
            (&state, rebuild, &status, audible, &configured, &validate),
            begun,
        ),
    ensures
        begun.0@.plan == rebuild.plan@,
        begun.0@.sample_rate == rebuild.sample_rate,
        begun.0@.buffer_frames == rebuild.buffer_frames,
        begun.0@.force,
{
}

} // verus!
