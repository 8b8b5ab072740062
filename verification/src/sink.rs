//! Playback sinks: transport control and position bookkeeping.
//!
//! A sink owns a generator, registers itself with a playback backend, and
//! answers the backend's callback by rendering samples in bounded chunks.
//! The backend itself (device enumeration, stream opening) is a black box
//! outside this core; what is verified here is everything the sink
//! decides: the transport state machine, the exact conversion from a seek
//! position to a sample offset, and the rollback discipline when
//! construction fails half-way.

use vstd::prelude::*;
use vstd::wrapping::u64_specs;

verus! {

/// The sample offset that a seek position denotes: the position in
/// seconds (`secs` plus `nanos` billionths) times the sample rate,
/// rounded to the nearest sample, halves away from zero. Since
/// `secs * sample_rate` is already whole, only the fractional part
/// `nanos * sample_rate / 1_000_000_000` needs rounding.
pub open spec fn duration_to_offset(secs: u64, nanos: u32, sample_rate: u32) -> int {
    secs * sample_rate + (nanos * sample_rate + 500_000_000) / 1_000_000_000
}

/// Converts a seek position to its sample offset, exactly as
/// [`duration_to_offset`] states.
pub fn duration_to_sample_offset(secs: u64, nanos: u32, sample_rate: u32) -> (offset: u64)
    requires
        nanos < 1_000_000_000,
        duration_to_offset(secs, nanos, sample_rate) <= u64::MAX,
    ensures
        offset == duration_to_offset(secs, nanos, sample_rate),
{
    let rate = sample_rate as u64;
    assert((nanos as int) * (rate as int) < 0x4000_0000_0000_0000) by (nonlinear_arith)
        requires
            nanos < 1_000_000_000,
            rate < 0x1_0000_0000,
    ;
    let frac = ((nanos as u64) * rate + 500_000_000) / 1_000_000_000;
    assert(frac >= 0);
    let base = secs * rate;
    base + frac
}

/// The state every sink keeps, whichever backend it drives: the absolute
/// sample offset the next render starts at (monotonic, wrapping on
/// overflow), the sample rate fixed for the session, and whether the
/// transport is running.
#[derive(Clone, Copy, Debug, PartialEq, Eq, Structural)]
pub struct SinkCore {
    /// Absolute sample offset of the next sample to render.
    pub sample_offset: u64,
    /// Samples per second, fixed at construction.
    pub sample_rate: u32,
    /// Whether the transport is running.
    pub playing: bool,
}

impl SinkCore {
    /// The state after a resume: running, offset untouched.
    pub open spec fn started_spec(&self) -> SinkCore {
        SinkCore { playing: true, ..*self }
    }

    /// The state after a pause: halted, offset untouched.
    pub open spec fn paused_spec(&self) -> SinkCore {
        SinkCore { playing: false, ..*self }
    }

    /// The state after a seek: the next render starts at `offset`.
    pub open spec fn sought_spec(&self, offset: u64) -> SinkCore {
        SinkCore { sample_offset: offset, ..*self }
    }

    /// The state after rendering `n` samples: the offset advances by `n`,
    /// wrapping on overflow.
    pub open spec fn advanced_spec(&self, n: u64) -> SinkCore {
        SinkCore { sample_offset: u64_specs::wrapping_add(self.sample_offset, n), ..*self }
    }

    /// Fresh transport state: offset zero, halted.
    pub fn new(sample_rate: u32) -> (core: SinkCore)
        ensures
            core == (SinkCore { sample_offset: 0, sample_rate, playing: false }),
    {
        SinkCore { sample_offset: 0, sample_rate, playing: false }
    }

    /// Resumes at the current offset; idempotent if already running.
    pub fn play(&mut self)
        ensures
            *final(self) == old(self).started_spec(),
    {
        self.playing = true;
    }

    /// Halts at the current offset; idempotent if already halted. Does
    /// not reset the offset.
    pub fn pause(&mut self)
        ensures
            *final(self) == old(self).paused_spec(),
    {
        self.playing = false;
    }

    /// Seeks: the given position, converted at the session's sample rate,
    /// becomes the next render start point, and the transport runs.
    pub fn play_at(&mut self, secs: u64, nanos: u32)
        requires
            nanos < 1_000_000_000,
            duration_to_offset(secs, nanos, old(self).sample_rate) <= u64::MAX,
        ensures
            *final(self) == old(self).sought_spec(
                duration_to_offset(secs, nanos, old(self).sample_rate) as u64,
            ).started_spec(),
    {
        let offset = duration_to_sample_offset(secs, nanos, self.sample_rate);
        self.sample_offset = offset;
        self.playing = true;
    }

    /// Advances the offset past `n` just-rendered samples, wrapping on
    /// overflow.
    pub fn advance(&mut self, n: u64)
        ensures
            *final(self) == old(self).advanced_spec(n),
    {
        self.sample_offset = self.sample_offset.wrapping_add(n);
    }
}

/// Pausing and then resuming replays nothing and skips nothing: the
/// transport comes back running at exactly the offset at which it was
/// paused, at the same rate.
pub proof fn lemma_pause_then_play_resumes_exactly(core: SinkCore)
    ensures
        core.paused_spec().started_spec().sample_offset == core.sample_offset,
        core.paused_spec().started_spec().sample_rate == core.sample_rate,
        core.paused_spec().started_spec().playing,
{
}

/// Seeking and then resuming begins rendering at exactly the sample
/// offset the position rounds to at the session's rate.
pub proof fn lemma_seek_then_play_starts_at_offset(core: SinkCore, secs: u64, nanos: u32)
    requires
        duration_to_offset(secs, nanos, core.sample_rate) <= u64::MAX,
    ensures
        core.sought_spec(duration_to_offset(secs, nanos, core.sample_rate) as u64)
            .started_spec().sample_offset
            == duration_to_offset(secs, nanos, core.sample_rate),
{
}

/// A sink's transport controls, exposed to application code. All three
/// are non-blocking; a backend failure surfaces as a descriptive error,
/// and the sink stays usable for a retry. A seek position is given as
/// whole seconds plus billionths, the two plain fields of a duration.
pub trait Sink: Sized {
    /// The absolute sample offset the next render starts at. The default
    /// leaves it unspecified, so that backends outside the verified world
    /// can implement the trait without a model; a verified sink overrides
    /// it, and only then do the contracts below say anything.
    open spec fn position(&self) -> u64 {
        arbitrary()
    }

    /// Whether the transport is running. Unspecified by default; see
    /// [`Sink::position`].
    open spec fn is_playing(&self) -> bool {
        arbitrary()
    }

    /// The session's fixed sample rate. Unspecified by default; see
    /// [`Sink::position`].
    open spec fn sample_rate(&self) -> u32 {
        arbitrary()
    }

    /// Resumes from the current position, or from zero if never started;
    /// idempotent if already playing.
    fn play(&mut self) -> (r: Result<(), String>)
        ensures
            final(self).position() == old(self).position(),
            final(self).sample_rate() == old(self).sample_rate(),
            r is Ok ==> final(self).is_playing(),
    ;

    /// Makes the given position (relative to the epoch) the next render
    /// start point, then behaves as [`Sink::play`]. The position is set
    /// whether or not resuming succeeds.
    fn play_at(&mut self, secs: u64, nanos: u32) -> (r: Result<(), String>)
        requires
            nanos < 1_000_000_000,
            duration_to_offset(secs, nanos, old(self).sample_rate()) <= u64::MAX,
        ensures
            final(self).position()
                == duration_to_offset(secs, nanos, old(self).sample_rate()),
            final(self).sample_rate() == old(self).sample_rate(),
            r is Ok ==> final(self).is_playing(),
    ;

    /// Halts delivery at the current position; idempotent if already
    /// paused. Does not reset the position.
    fn pause(&mut self) -> (r: Result<(), String>)
        ensures
            final(self).position() == old(self).position(),
            final(self).sample_rate() == old(self).sample_rate(),
            r is Ok ==> !final(self).is_playing(),
    ;
}

/// Why constructing a sink failed.
#[derive(Clone, Copy, Debug, PartialEq, Eq, Structural)]
pub enum SinkBuildError {
    /// The backend reported the audio subsystem unavailable.
    SubsystemUnavailable,
    /// The sample rate does not fit the backend's signed 32-bit rate field.
    SampleRateTooLarge,
    /// The backend could not open a device stream.
    StreamOpenFailed,
}

/// What a sink constructor must do after probing the backend: either give
/// up, releasing exactly what was acquired, or go ahead with a fresh
/// transport state.
#[derive(Clone, Copy, Debug, PartialEq, Eq, Structural)]
pub enum ConstructPlan {
    /// Construction fails: report `error`; release the subsystem first
    /// exactly when `release_subsystem` says it was acquired.
    Fail { error: SinkBuildError, release_subsystem: bool },
    /// Construction succeeds: keep the subsystem and the stream, and
    /// start with this transport state.
    Ready { core: SinkCore },
}

/// The constructor's decision, given what the backend reported: whether
/// the subsystem came up, the requested rate, and whether the device
/// stream opened. Checks run in that order, and the first failure wins.
pub open spec fn construction_plan(
    subsystem_ok: bool,
    sample_rate: u32,
    stream_ok: bool,
) -> ConstructPlan {
    if !subsystem_ok {
        ConstructPlan::Fail {
            error: SinkBuildError::SubsystemUnavailable,
            release_subsystem: false,
        }
    } else if sample_rate > 0x7FFF_FFFF {
        ConstructPlan::Fail { error: SinkBuildError::SampleRateTooLarge, release_subsystem: true }
    } else if !stream_ok {
        ConstructPlan::Fail { error: SinkBuildError::StreamOpenFailed, release_subsystem: true }
    } else {
        ConstructPlan::Ready {
            core: SinkCore { sample_offset: 0, sample_rate, playing: false },
        }
    }
}

/// Decides how a sink constructor proceeds; see [`construction_plan`].
/// The caller performs the probes in order (subsystem first, then the
/// stream, which is only attempted when the earlier checks passed) and
/// carries out exactly what the plan says.
pub fn plan_construction(subsystem_ok: bool, sample_rate: u32, stream_ok: bool) -> (plan:
    ConstructPlan)
    ensures
        plan == construction_plan(subsystem_ok, sample_rate, stream_ok),
{
    if !subsystem_ok {
        ConstructPlan::Fail {
            error: SinkBuildError::SubsystemUnavailable,
            release_subsystem: false,
        }
    } else if sample_rate > 0x7FFF_FFFF {
        ConstructPlan::Fail { error: SinkBuildError::SampleRateTooLarge, release_subsystem: true }
    } else if !stream_ok {
        ConstructPlan::Fail { error: SinkBuildError::StreamOpenFailed, release_subsystem: true }
    } else {
        ConstructPlan::Ready {
            core: SinkCore { sample_offset: 0, sample_rate, playing: false },
        }
    }
}

/// Construction never leaks: a failing plan releases the subsystem
/// exactly when it was acquired (and a stream that never opened is never
/// held), while a successful plan starts halted at offset zero with the
/// requested rate.
pub proof fn lemma_construction_leak_free(subsystem_ok: bool, sample_rate: u32, stream_ok: bool)
    ensures
        match construction_plan(subsystem_ok, sample_rate, stream_ok) {
            ConstructPlan::Fail { error, release_subsystem } => release_subsystem == subsystem_ok,
            ConstructPlan::Ready { core } => subsystem_ok && stream_ok && core.sample_offset == 0
                && !core.playing && core.sample_rate == sample_rate,
        },
{
}

} // verus!
