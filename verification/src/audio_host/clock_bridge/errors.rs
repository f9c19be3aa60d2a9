//! Failure classes of one clock-bridge attempt.

use crate::audio_host::clock_bridge::observation::ClockAttemptEpoch;
use crate::audio_host::clock_bridge::spsc::{RingPeekError, RingPushError, RingSequenceError};
use crate::audio_host::pcm::PackedS24Error;
use vstd::prelude::*;

verus! {

/// One of the three independent frame-position domains.
#[derive(Clone, Copy, Debug, Eq, PartialEq, Structural)]
pub enum BridgeClockDomain {
    WaveCapture,
    PipeWireGraph,
    WavePlayback,
}

/// The explicit lifecycle of one bridge attempt.
#[derive(Clone, Copy, Debug, Eq, PartialEq, Structural)]
pub enum BridgeState {
    Allocated,
    CapturePriming,
    CaptureFilterDelay,
    CaptureEstimatorPriming,
    PlaybackPriming,
    PlaybackFilterDelay,
    PlaybackEstimatorPriming,
    PlaybackStabilizing,
    PrimingCheck,
    Primed,
    Active,
    Faulted,
    Quiescing,
    Stopped,
}

impl BridgeState {
    /// The stable number of this state.
    pub open spec fn raw(self) -> int {
        match self {
            BridgeState::Allocated => 0,
            BridgeState::CapturePriming => 1,
            BridgeState::CaptureFilterDelay => 2,
            BridgeState::CaptureEstimatorPriming => 3,
            BridgeState::PlaybackPriming => 4,
            BridgeState::PlaybackFilterDelay => 5,
            BridgeState::PlaybackEstimatorPriming => 6,
            BridgeState::PlaybackStabilizing => 7,
            BridgeState::PrimingCheck => 8,
            BridgeState::Primed => 9,
            BridgeState::Active => 10,
            BridgeState::Faulted => 11,
            BridgeState::Quiescing => 12,
            BridgeState::Stopped => 13,
        }
    }

    /// The state with the number `raw`; an unknown number means `Stopped`.
    pub fn from_raw(raw: u8) -> (state: BridgeState)
        ensures
            state.raw() == if raw <= 13 {
                raw as int
            } else {
                13
            },
    {
        match raw {
            0 => BridgeState::Allocated,
            1 => BridgeState::CapturePriming,
            2 => BridgeState::CaptureFilterDelay,
            3 => BridgeState::CaptureEstimatorPriming,
            4 => BridgeState::PlaybackPriming,
            5 => BridgeState::PlaybackFilterDelay,
            6 => BridgeState::PlaybackEstimatorPriming,
            7 => BridgeState::PlaybackStabilizing,
            8 => BridgeState::PrimingCheck,
            9 => BridgeState::Primed,
            10 => BridgeState::Active,
            11 => BridgeState::Faulted,
            12 => BridgeState::Quiescing,
            _ => BridgeState::Stopped,
        }
    }
}

/// A failure of the rate matcher, by its code.
#[derive(Clone, Copy, Debug, Eq, PartialEq, Structural)]
pub struct RateMatchError {
    pub code: u32,
}

/// A failure of the rate controller, by its code.
#[derive(Clone, Copy, Debug, Eq, PartialEq, Structural)]
pub struct RateMatchControllerError {
    pub code: u32,
}

/// A failure of the clock-rate estimator.
#[derive(Clone, Copy, Debug, Eq, PartialEq, Structural)]
pub enum ClockRateEstimatorError {
    /// Two samples lie too far apart in time.
    ObservationSkew { actual_nanoseconds: u64, maximum_nanoseconds: u64 },
    /// Any other failure, by its code.
    Other { code: u32 },
}

/// A failure of the mixer engine, by its code.
#[derive(Clone, Copy, Debug, Eq, PartialEq, Structural)]
pub struct ProcessError {
    pub code: u32,
}

/// A refusal of a mixer profile, by its code.
#[derive(Clone, Copy, Debug, Eq, PartialEq, Structural)]
pub struct MixerProfileError {
    pub code: u32,
}

/// A refusal of a staged control update, by its code.
#[derive(Clone, Copy, Debug, Eq, PartialEq, Structural)]
pub struct StageError {
    pub code: u32,
}

/// Why a bridge could not be built.
#[derive(Clone, Copy, Debug, Eq, PartialEq, Structural)]
pub enum BridgeBuildError {
    ZeroFifoCapacity,
    ZeroMaximumGraphQuantum,
    RatioBoundsDiffer,
    EstimatorRatioBoundsDiffer,
    InvalidStartupGuard {
        target_fill_frames: usize,
        startup_guard_frames: usize,
        fifo_capacity_frames: usize,
    },
    MatcherChannels { domain: BridgeClockDomain, expected: usize, actual: usize },
    MatcherOutputCapacity { domain: BridgeClockDomain, required: usize, actual: usize },
    FifoCapacity { domain: BridgeClockDomain, required: usize, actual: usize },
    FifoOperatingRange {
        domain: BridgeClockDomain,
        minimum_fill: usize,
        maximum_input_frames: usize,
    },
    FifoProducerHeadroom {
        domain: BridgeClockDomain,
        required_free_frames: usize,
        available_free_frames: usize,
    },
    PhysicalGeometry,
    Profile(MixerProfileError),
    EngineConfig,
    ControlMapping,
    RateMatcher { domain: BridgeClockDomain, error: RateMatchError },
    Allocation,
}

/// Why a complete mixer profile could not be staged.
#[derive(Clone, Copy, Debug, Eq, PartialEq, Structural)]
pub enum BridgeControlError {
    Profile(MixerProfileError),
    Stage(StageError),
}

/// Stable playback-submission failure classes.
#[derive(Clone, Copy, Debug, Eq, PartialEq, Structural)]
pub enum PlaybackWriteError {
    AgainRetryLimit { accepted_frames: usize },
    InterruptedRetryLimit { accepted_frames: usize },
    Xrun { accepted_frames: usize },
    Suspended { accepted_frames: usize },
    Disconnected { accepted_frames: usize },
    Stopped { accepted_frames: usize },
    InvalidProgress { accepted_frames: usize },
    Failed { accepted_frames: usize, errno: i32 },
}

impl PlaybackWriteError {
    /// The frames the device took before this failure.
    pub open spec fn accepted(self) -> usize {
        match self {
            PlaybackWriteError::AgainRetryLimit { accepted_frames } => accepted_frames,
            PlaybackWriteError::InterruptedRetryLimit { accepted_frames } => accepted_frames,
            PlaybackWriteError::Xrun { accepted_frames } => accepted_frames,
            PlaybackWriteError::Suspended { accepted_frames } => accepted_frames,
            PlaybackWriteError::Disconnected { accepted_frames } => accepted_frames,
            PlaybackWriteError::Stopped { accepted_frames } => accepted_frames,
            PlaybackWriteError::InvalidProgress { accepted_frames } => accepted_frames,
            PlaybackWriteError::Failed { accepted_frames, errno } => accepted_frames,
        }
    }

    pub fn accepted_frames(self) -> (frames: usize)
        ensures
            frames == self.accepted(),
    {
        match self {
            PlaybackWriteError::AgainRetryLimit { accepted_frames } => accepted_frames,
            PlaybackWriteError::InterruptedRetryLimit { accepted_frames } => accepted_frames,
            PlaybackWriteError::Xrun { accepted_frames } => accepted_frames,
            PlaybackWriteError::Suspended { accepted_frames } => accepted_frames,
            PlaybackWriteError::Disconnected { accepted_frames } => accepted_frames,
            PlaybackWriteError::Stopped { accepted_frames } => accepted_frames,
            PlaybackWriteError::InvalidProgress { accepted_frames } => accepted_frames,
            PlaybackWriteError::Failed { accepted_frames, errno: _ } => accepted_frames,
        }
    }
}

/// Why a bridge boundary failed.
#[allow(inconsistent_fields)]
#[derive(Clone, Copy, Debug, Eq, PartialEq, Structural)]
pub enum BridgeError {
    AttemptFaulted,
    State { actual: BridgeState },
    ActivationNotQuiescent { capture: usize, graph: usize, playback: usize },
    Teardown,
    TeardownNotQuiescent { capture: usize, graph: usize, playback: usize },
    FrameCount { domain: BridgeClockDomain, actual: usize, maximum: usize },
    FrameCountMismatch { domain: BridgeClockDomain, declared: usize, encoded: usize },
    PositionOverflow { domain: BridgeClockDomain, start: u64, frames: usize },
    Discontinuity { domain: BridgeClockDomain, expected: u64, actual: u64 },
    ObservationEpoch {
        domain: BridgeClockDomain,
        expected: ClockAttemptEpoch,
        actual: ClockAttemptEpoch,
    },
    RepeatedClockObservation { domain: BridgeClockDomain },
    MonotonicTimeDiscontinuity { domain: BridgeClockDomain, previous: u64, actual: u64 },
    InvalidQuantum { actual: usize, maximum: usize },
    InvalidPeriod { actual: usize, expected: usize },
    FixedQuantumChanged { expected: usize, actual: usize },
    Packed(PackedS24Error),
    MissingSystemBuffer,
    SystemLength { expected: usize, left: usize, right: usize },
    NonFinite { domain: BridgeClockDomain, sample_index: usize },
    OutputLength { expected: usize, actual: usize },
    Overflow { domain: BridgeClockDomain, requested: usize, remaining: usize, capacity: usize },
    Shortage { domain: BridgeClockDomain, required: usize, available: usize },
    FifoSequence { domain: BridgeClockDomain },
    Controller { domain: BridgeClockDomain, error: RateMatchControllerError },
    Estimator { domain: BridgeClockDomain, error: ClockRateEstimatorError },
    ObservationUnavailable { domain: BridgeClockDomain },
    PlaybackApplicationPosition { expected: u64, actual: u64 },
    CaptureApplicationPosition { expected: u64, actual: u64 },
    PlaybackHardwareAhead { hardware: u64, application: u64 },
    CaptureHardwareBehindApplication { hardware: u64, application: u64 },
    Asrc { domain: BridgeClockDomain, error: RateMatchError },
    Engine(ProcessError),
    Playback(PlaybackWriteError),
    PlaybackSubmission { expected_frames: usize, actual_frames: usize },
}

/// The interleaved channel count of a domain's FIFO.
pub open spec fn domain_channels(domain: BridgeClockDomain) -> usize {
    match domain {
        BridgeClockDomain::WaveCapture => 1,
        _ => 2,
    }
}

/// The boundary failure that a refused push means in `domain`.
pub open spec fn push_failure(error: RingPushError, domain: BridgeClockDomain) -> BridgeError {
    match error {
        RingPushError::PartialFrame { samples, channels } => BridgeError::Packed(
            PackedS24Error::PartialFrame { samples, channels: domain_channels(domain) },
        ),
        RingPushError::NonFinite { sample_index } => BridgeError::NonFinite {
            domain,
            sample_index,
        },
        RingPushError::Overflow { requested, remaining, capacity } => BridgeError::Overflow {
            domain,
            requested,
            remaining,
            capacity,
        },
        RingPushError::Sequence(_) => BridgeError::FifoSequence { domain },
    }
}

/// Translates a refused push into a boundary failure.
pub fn map_push(error: RingPushError, domain: BridgeClockDomain) -> (failure: BridgeError)
    ensures
        failure == push_failure(error, domain),
{
    match error {
        RingPushError::PartialFrame { samples, channels: _ } => {
            let channels: usize = match domain {
                BridgeClockDomain::WaveCapture => 1,
                BridgeClockDomain::PipeWireGraph => 2,
                BridgeClockDomain::WavePlayback => 2,
            };
            BridgeError::Packed(PackedS24Error::PartialFrame { samples, channels })
        },
        RingPushError::NonFinite { sample_index } => BridgeError::NonFinite {
            domain,
            sample_index,
        },
        RingPushError::Overflow { requested, remaining, capacity } => BridgeError::Overflow {
            domain,
            requested,
            remaining,
            capacity,
        },
        RingPushError::Sequence(error) => map_sequence(error, domain),
    }
}

/// The boundary failure that a refused peek means in `domain`.
pub open spec fn peek_failure(error: RingPeekError, domain: BridgeClockDomain) -> BridgeError {
    match error {
        RingPeekError::Shortage { required, available } => BridgeError::Shortage {
            domain,
            required,
            available,
        },
        RingPeekError::PartialFrame { samples, channels } => BridgeError::Packed(
            PackedS24Error::PartialFrame { samples, channels },
        ),
        RingPeekError::PeekPending => BridgeError::FifoSequence { domain },
        RingPeekError::Sequence(_) => BridgeError::FifoSequence { domain },
    }
}

/// Translates a refused peek into a boundary failure.
pub fn map_peek(error: RingPeekError, domain: BridgeClockDomain) -> (failure: BridgeError)
    ensures
        failure == peek_failure(error, domain),
{
    match error {
        RingPeekError::Shortage { required, available } => BridgeError::Shortage {
            domain,
            required,
            available,
        },
        RingPeekError::PartialFrame { samples, channels } => BridgeError::Packed(
            PackedS24Error::PartialFrame { samples, channels },
        ),
        RingPeekError::PeekPending => BridgeError::FifoSequence { domain },
        RingPeekError::Sequence(error) => map_sequence(error, domain),
    }
}

/// Translates a broken frame sequence into a boundary failure.
pub fn map_sequence(_error: RingSequenceError, domain: BridgeClockDomain) -> (failure: BridgeError)
    ensures
        failure == (BridgeError::FifoSequence { domain }),
{
    BridgeError::FifoSequence { domain }
}

/// A refused push or peek is reported in the domain of its FIFO with the numbers
/// of the refusal; a partial frame is counted in that domain's channels.
pub proof fn law_fifo_refusals_keep_their_numbers(
    push: RingPushError,
    peek: RingPeekError,
    domain: BridgeClockDomain,
)
    ensures
        match push {
            RingPushError::Overflow { requested, remaining, capacity } => push_failure(push, domain)
                == (BridgeError::Overflow { domain, requested, remaining, capacity }),
            RingPushError::NonFinite { sample_index } => push_failure(push, domain) == (
            BridgeError::NonFinite { domain, sample_index }),
            RingPushError::PartialFrame { samples, channels } => match push_failure(push, domain) {
                BridgeError::Packed(PackedS24Error::PartialFrame {
                    samples: named,
                    channels: counted,
                }) => {
                    &&& named == samples
                    &&& domain == BridgeClockDomain::WaveCapture ==> counted == 1
                    &&& domain != BridgeClockDomain::WaveCapture ==> counted == 2
                },
                _ => false,
            },
            RingPushError::Sequence(_) => push_failure(push, domain) == (
            BridgeError::FifoSequence { domain }),
        },
        match peek {
            RingPeekError::Shortage { required, available } => peek_failure(peek, domain) == (
            BridgeError::Shortage { domain, required, available }),
            RingPeekError::PartialFrame { samples, channels } => peek_failure(peek, domain)
                == BridgeError::Packed(PackedS24Error::PartialFrame { samples, channels }),
            RingPeekError::PeekPending => peek_failure(peek, domain) == (
            BridgeError::FifoSequence { domain }),
            RingPeekError::Sequence(_) => peek_failure(peek, domain) == (
            BridgeError::FifoSequence { domain }),
        },
{
}

/// Whatever ended a write, the frames that it names as accepted are the ones that
/// count.
pub proof fn law_every_write_error_names_its_frames(accepted_frames: usize, errno: i32)
    ensures
        (PlaybackWriteError::AgainRetryLimit { accepted_frames }).accepted() == accepted_frames,
        (PlaybackWriteError::InterruptedRetryLimit { accepted_frames }).accepted()
            == accepted_frames,
        (PlaybackWriteError::Xrun { accepted_frames }).accepted() == accepted_frames,
        (PlaybackWriteError::Suspended { accepted_frames }).accepted() == accepted_frames,
        (PlaybackWriteError::Disconnected { accepted_frames }).accepted() == accepted_frames,
        (PlaybackWriteError::Stopped { accepted_frames }).accepted() == accepted_frames,
        (PlaybackWriteError::InvalidProgress { accepted_frames }).accepted() == accepted_frames,
        (PlaybackWriteError::Failed { accepted_frames, errno }).accepted() == accepted_frames,
{
}

/// Every state has a number of its own, in the order of the lifecycle.
pub proof fn law_state_numbers_are_distinct(left: BridgeState, right: BridgeState)
    ensures
        left.raw() == right.raw() <==> left == right,
        0 <= left.raw() <= 13,
        BridgeState::Allocated.raw() < BridgeState::CapturePriming.raw()
            < BridgeState::CaptureFilterDelay.raw() < BridgeState::CaptureEstimatorPriming.raw()
            < BridgeState::PlaybackPriming.raw() < BridgeState::PlaybackFilterDelay.raw()
            < BridgeState::PlaybackEstimatorPriming.raw() < BridgeState::PlaybackStabilizing.raw()
            < BridgeState::PrimingCheck.raw() < BridgeState::Primed.raw()
            < BridgeState::Active.raw() < BridgeState::Faulted.raw() < BridgeState::Quiescing.raw()
            < BridgeState::Stopped.raw(),
{
}

} // verus!
