//! The state that the single owners of one bridge attempt share.

use crate::audio_host::clock_bridge::errors::{
    map_sequence, BridgeClockDomain, BridgeControlError, BridgeError, BridgeState,
    ClockRateEstimatorError, MixerProfileError, StageError,
};
use crate::audio_host::clock_bridge::observation::{
    CaptureClockObservation, ClockAttemptEpoch, ClockObservation, CopySlot, GraphClockObservation,
};
use crate::audio_host::clock_bridge::spsc::FrameRing;
use vstd::prelude::*;

verus! {

/// The lifecycle, activity counters and startup ranges of one attempt.
#[derive(Clone, Copy, Debug, Eq, PartialEq, Structural)]
pub struct SharedAttempt {
    pub attempt_epoch: ClockAttemptEpoch,
    pub state: BridgeState,
    pub capture_delay_remaining: usize,
    pub playback_delay_remaining: usize,
    pub capture_in_flight: usize,
    pub graph_in_flight: usize,
    pub playback_in_flight: usize,
    pub capture_target: usize,
    pub capture_guard: usize,
    pub playback_target: usize,
    pub playback_guard: usize,
}

/// Whether `fill` lies within `guard` frames of `target`.
pub open spec fn guarded(fill: int, target: int, guard: int) -> bool {
    -guard <= fill - target <= guard
}

/// Tests whether `fill` lies within `guard` frames of `target`.
pub fn within_guard(fill: usize, target: usize, guard: usize) -> (within: bool)
    ensures
        within == guarded(fill as int, target as int, guard as int),
{
    if fill >= target {
        fill - target <= guard
    } else {
        target - fill <= guard
    }
}

impl SharedAttempt {
    /// The attempt after a terminal failure: teardown is never undone by one.
    pub open spec fn faulted(self) -> Self {
        if self.state == BridgeState::Quiescing || self.state == BridgeState::Stopped {
            self
        } else {
            SharedAttempt { state: BridgeState::Faulted, ..self }
        }
    }

    /// The attempt after moving from `from` to `to`, unless it has left `from`.
    pub open spec fn moved(self, from: BridgeState, to: BridgeState) -> Self {
        if self.state == from {
            SharedAttempt { state: to, ..self }
        } else {
            self
        }
    }

    /// The attempt with one more boundary of `role` in flight.
    pub open spec fn entered(self, role: BridgeClockDomain) -> Self {
        match role {
            BridgeClockDomain::WaveCapture => SharedAttempt {
                capture_in_flight: self.capture_in_flight.wrapping_add(1),
                ..self
            },
            BridgeClockDomain::PipeWireGraph => SharedAttempt {
                graph_in_flight: self.graph_in_flight.wrapping_add(1),
                ..self
            },
            BridgeClockDomain::WavePlayback => SharedAttempt {
                playback_in_flight: self.playback_in_flight.wrapping_add(1),
                ..self
            },
        }
    }

    /// The attempt with one boundary of `role` fewer in flight.
    pub open spec fn left(self, role: BridgeClockDomain) -> Self {
        match role {
            BridgeClockDomain::WaveCapture => SharedAttempt {
                capture_in_flight: self.capture_in_flight.wrapping_sub(1),
                ..self
            },
            BridgeClockDomain::PipeWireGraph => SharedAttempt {
                graph_in_flight: self.graph_in_flight.wrapping_sub(1),
                ..self
            },
            BridgeClockDomain::WavePlayback => SharedAttempt {
                playback_in_flight: self.playback_in_flight.wrapping_sub(1),
                ..self
            },
        }
    }

    /// Whether no boundary of any role is in flight.
    pub open spec fn quiescent(self) -> bool {
        self.capture_in_flight == 0 && self.graph_in_flight == 0 && self.playback_in_flight == 0
    }

    /// Whether both fills lie in their startup ranges.
    pub open spec fn in_startup_guards(self, capture_fill: int, playback_fill: int) -> bool {
        guarded(capture_fill, self.capture_target as int, self.capture_guard as int) && guarded(
            playback_fill,
            self.playback_target as int,
            self.playback_guard as int,
        )
    }

    pub fn state(&self) -> (state: BridgeState)
        ensures
            state == self.state,
    {
        self.state
    }

    /// Moves from `from` to `to`; tells whether the attempt was in `from`.
    pub fn transition(&mut self, from: BridgeState, to: BridgeState) -> (moved: bool)
        ensures
            moved == (old(self).state == from),
            *final(self) == old(self).moved(from, to),
    {
        if self.state == from {
            self.state = to;
            true
        } else {
            false
        }
    }

    /// Marks the attempt faulted unless it is being torn down.
    pub fn fault(&mut self)
        ensures
            *final(self) == old(self).faulted(),
    {
        if self.state != BridgeState::Quiescing && self.state != BridgeState::Stopped {
            self.state = BridgeState::Faulted;
        }
    }

    pub fn within_startup_guards(&self, capture_fill: usize, playback_fill: usize) -> (within: bool)
        ensures
            within == self.in_startup_guards(capture_fill as int, playback_fill as int),
    {
        within_guard(capture_fill, self.capture_target, self.capture_guard) && within_guard(
            playback_fill,
            self.playback_target,
            self.playback_guard,
        )
    }

    /// Counts one more boundary of `role` in flight.
    pub fn enter(&mut self, role: BridgeClockDomain)
        ensures
            *final(self) == old(self).entered(role),
    {
        match role {
            BridgeClockDomain::WaveCapture => {
                self.capture_in_flight = self.capture_in_flight.wrapping_add(1);
            },
            BridgeClockDomain::PipeWireGraph => {
                self.graph_in_flight = self.graph_in_flight.wrapping_add(1);
            },
            BridgeClockDomain::WavePlayback => {
                self.playback_in_flight = self.playback_in_flight.wrapping_add(1);
            },
        }
    }

    /// Counts one boundary of `role` as finished.
    pub fn leave(&mut self, role: BridgeClockDomain)
        ensures
            *final(self) == old(self).left(role),
    {
        match role {
            BridgeClockDomain::WaveCapture => {
                self.capture_in_flight = self.capture_in_flight.wrapping_sub(1);
            },
            BridgeClockDomain::PipeWireGraph => {
                self.graph_in_flight = self.graph_in_flight.wrapping_sub(1);
            },
            BridgeClockDomain::WavePlayback => {
                self.playback_in_flight = self.playback_in_flight.wrapping_sub(1);
            },
        }
    }

    /// Ends a boundary of `role` with a terminal failure.
    pub fn fail(&mut self, role: BridgeClockDomain, error: BridgeError) -> (failure: BridgeError)
        ensures
            failure == error,
            *final(self) == old(self).faulted().left(role),
    {
        self.fault();
        self.leave(role);
        error
    }
}

/// Why the attempt admits no boundary at all in `state`, if it does not.
pub open spec fn state_refusal(state: BridgeState) -> Option<BridgeError> {
    match state {
        BridgeState::Faulted => Some(BridgeError::AttemptFaulted),
        BridgeState::Quiescing => Some(BridgeError::Teardown),
        BridgeState::Stopped => Some(BridgeError::Teardown),
        BridgeState::PrimingCheck => Some(BridgeError::State { actual: state }),
        _ => None,
    }
}

/// Reads the state of an attempt that admits boundaries.
pub fn attempt_state(shared: &SharedAttempt) -> (result: Result<BridgeState, BridgeError>)
    ensures
        result == match state_refusal(shared.state) {
            Some(error) => Err::<BridgeState, BridgeError>(error),
            None => Ok::<BridgeState, BridgeError>(shared.state),
        },
{
    match shared.state {
        BridgeState::Faulted => Err(BridgeError::AttemptFaulted),
        BridgeState::Quiescing => Err(BridgeError::Teardown),
        BridgeState::Stopped => Err(BridgeError::Teardown),
        BridgeState::PrimingCheck => Err(BridgeError::State { actual: shared.state }),
        _ => Ok(shared.state),
    }
}

/// Why a sample of another attempt is refused, if it is.
pub open spec fn epoch_refusal(
    expected: ClockAttemptEpoch,
    domain: BridgeClockDomain,
    observation: ClockObservation,
) -> Option<BridgeError> {
    if observation.epoch != expected {
        Some(BridgeError::ObservationEpoch { domain, expected, actual: observation.epoch })
    } else {
        None
    }
}

/// Checks that a sample belongs to this attempt.
pub fn validate_observation_epoch(
    expected: ClockAttemptEpoch,
    domain: BridgeClockDomain,
    observation: ClockObservation,
) -> (result: Result<(), BridgeError>)
    ensures
        result == match epoch_refusal(expected, domain, observation) {
            Some(error) => Err::<(), BridgeError>(error),
            None => Ok::<(), BridgeError>(()),
        },
{
    if observation.epoch != expected {
        return Err(
            BridgeError::ObservationEpoch { domain, expected, actual: observation.epoch },
        );
    }
    Ok(())
}

/// Why a sample does not continue the previous one, if it does not.
pub open spec fn progress_refusal(
    domain: BridgeClockDomain,
    previous: Option<ClockObservation>,
    actual: ClockObservation,
    reject_repeated: bool,
) -> Option<BridgeError> {
    match previous {
        None => None,
        Some(previous) => {
            let previous_frame = previous.frame_position.frames;
            let actual_frame = actual.frame_position.frames;
            let previous_time = previous.monotonic_time.nanoseconds;
            let actual_time = actual.monotonic_time.nanoseconds;
            if actual_frame < previous_frame {
                Some(
                    BridgeError::Discontinuity {
                        domain,
                        expected: previous_frame,
                        actual: actual_frame,
                    },
                )
            } else if actual_frame == previous_frame && reject_repeated {
                Some(BridgeError::RepeatedClockObservation { domain })
            } else if actual_time <= previous_time && actual_frame != previous_frame {
                Some(
                    BridgeError::MonotonicTimeDiscontinuity {
                        domain,
                        previous: previous_time,
                        actual: actual_time,
                    },
                )
            } else {
                None
            }
        },
    }
}

/// Checks that a sample continues the previous one.
pub fn validate_clock_progress(
    domain: BridgeClockDomain,
    previous: Option<ClockObservation>,
    actual: ClockObservation,
    reject_repeated: bool,
) -> (result: Result<(), BridgeError>)
    ensures
        result == match progress_refusal(domain, previous, actual, reject_repeated) {
            Some(error) => Err::<(), BridgeError>(error),
            None => Ok::<(), BridgeError>(()),
        },
{
    let previous = match previous {
        Some(previous) => previous,
        None => {
            return Ok(());
        },
    };
    let previous_frame: u64 = previous.frame_position.frames;
    let actual_frame: u64 = actual.frame_position.frames;
    if actual_frame < previous_frame {
        return Err(
            BridgeError::Discontinuity { domain, expected: previous_frame, actual: actual_frame },
        );
    }
    if actual_frame == previous_frame && reject_repeated {
        return Err(BridgeError::RepeatedClockObservation { domain });
    }
    let previous_time: u64 = previous.monotonic_time.nanoseconds;
    let actual_time: u64 = actual.monotonic_time.nanoseconds;
    if actual_time <= previous_time && (actual_frame != previous_frame || reject_repeated) {
        return Err(
            BridgeError::MonotonicTimeDiscontinuity {
                domain,
                previous: previous_time,
                actual: actual_time,
            },
        );
    }
    Ok(())
}

/// The position `frames` after `start`, or overflow.
pub open spec fn end_frame(domain: BridgeClockDomain, start: u64, frames: usize) -> Result<
    u64,
    BridgeError,
> {
    if start + frames <= u64::MAX {
        Ok((start + frames) as u64)
    } else {
        Err(BridgeError::PositionOverflow { domain, start, frames })
    }
}

/// Advances a position by `frames`.
pub fn checked_end(domain: BridgeClockDomain, start: u64, frames: usize) -> (result: Result<
    u64,
    BridgeError,
>)
    ensures
        result == end_frame(domain, start, frames),
{
    match start.checked_add(frames as u64) {
        Some(end) => Ok(end),
        None => Err(BridgeError::PositionOverflow { domain, start, frames }),
    }
}

/// Why the newest accepted estimator input is too old, if it is.
pub open spec fn freshness_refusal(
    latest_input: Option<ClockObservation>,
    maximum_nanoseconds: u64,
    current_output: ClockObservation,
) -> Option<ClockRateEstimatorError> {
    match latest_input {
        None => None,
        Some(latest) => {
            let skew = latest.monotonic_time.nanoseconds
                - current_output.monotonic_time.nanoseconds;
            let actual = if skew < 0 {
                -skew
            } else {
                skew
            };
            if actual > maximum_nanoseconds {
                Some(
                    ClockRateEstimatorError::ObservationSkew {
                        actual_nanoseconds: actual as u64,
                        maximum_nanoseconds,
                    },
                )
            } else {
                None
            }
        },
    }
}

/// Checks that the newest accepted estimator input is recent enough.
pub fn validate_estimator_freshness(
    latest_input: Option<ClockObservation>,
    maximum_nanoseconds: u64,
    current_output: ClockObservation,
) -> (result: Result<(), ClockRateEstimatorError>)
    ensures
        result == match freshness_refusal(latest_input, maximum_nanoseconds, current_output) {
            Some(error) => Err::<(), ClockRateEstimatorError>(error),
            None => Ok::<(), ClockRateEstimatorError>(()),
        },
{
    let latest = match latest_input {
        Some(latest) => latest,
        None => {
            return Ok(());
        },
    };
    let input: u64 = latest.monotonic_time.nanoseconds;
    let output: u64 = current_output.monotonic_time.nanoseconds;
    let actual: u64 = if input >= output {
        input - output
    } else {
        output - input
    };
    if actual > maximum_nanoseconds {
        return Err(
            ClockRateEstimatorError::ObservationSkew {
                actual_nanoseconds: actual,
                maximum_nanoseconds,
            },
        );
    }
    Ok(())
}

/// Everything the roles of one attempt hand to each other.
#[derive(Debug)]
pub struct SharedBridge {
    pub attempt: SharedAttempt,
    pub capture_ring: FrameRing<1>,
    pub playback_ring: FrameRing<2>,
    pub capture_observation: CopySlot<CaptureClockObservation>,
    pub graph_observation: CopySlot<GraphClockObservation>,
}

impl SharedBridge {
    /// Both rings are valid.
    pub open spec fn wf(self) -> bool {
        self.capture_ring.wf() && self.playback_ring.wf()
    }

    /// Whether `self` hands over exactly what `other` does, whatever the
    /// lifecycle of the two.
    pub open spec fn same_handover(self, other: Self) -> bool {
        &&& self.capture_ring == other.capture_ring
        &&& self.playback_ring == other.playback_ring
        &&& self.capture_observation == other.capture_observation
        &&& self.graph_observation == other.graph_observation
    }
}

/// Control-side ownership for the lifecycle of one attempt.
#[derive(Clone, Copy, Debug, Eq, PartialEq, Structural)]
pub struct ClockBridgeControl {
    pub attempt_epoch: ClockAttemptEpoch,
}

/// What activation makes of an attempt.
pub open spec fn activated(bridge: SharedBridge) -> (Result<(), BridgeError>, SharedAttempt) {
    let attempt = bridge.attempt;
    if attempt.state != BridgeState::Primed {
        (Err(BridgeError::State { actual: attempt.state }), attempt)
    } else if !attempt.quiescent() {
        (
            Err(
                BridgeError::ActivationNotQuiescent {
                    capture: attempt.capture_in_flight,
                    graph: attempt.graph_in_flight,
                    playback: attempt.playback_in_flight,
                },
            ),
            attempt,
        )
    } else if !attempt.in_startup_guards(
        bridge.capture_ring.fill(),
        bridge.playback_ring.fill(),
    ) {
        (
            Err(BridgeError::State { actual: BridgeState::PlaybackStabilizing }),
            SharedAttempt { state: BridgeState::PlaybackStabilizing, ..attempt },
        )
    } else {
        (Ok(()), SharedAttempt { state: BridgeState::Active, ..attempt })
    }
}

/// What the end of teardown makes of an attempt.
pub open spec fn torn_down(attempt: SharedAttempt) -> (Result<(), BridgeError>, SharedAttempt) {
    if attempt.state == BridgeState::Stopped {
        (Ok(()), attempt)
    } else if attempt.state != BridgeState::Quiescing {
        (Err(BridgeError::State { actual: attempt.state }), attempt)
    } else if !attempt.quiescent() {
        (
            Err(
                BridgeError::TeardownNotQuiescent {
                    capture: attempt.capture_in_flight,
                    graph: attempt.graph_in_flight,
                    playback: attempt.playback_in_flight,
                },
            ),
            attempt,
        )
    } else {
        (Ok(()), SharedAttempt { state: BridgeState::Stopped, ..attempt })
    }
}

impl ClockBridgeControl {
    pub fn state(&self, bridge: &SharedBridge) -> (state: BridgeState)
        ensures
            state == bridge.attempt.state,
    {
        bridge.attempt.state()
    }

    /// Returns the attempt epoch that workers stamp on their samples.
    pub fn worker_attempt_epoch(&self) -> (epoch: ClockAttemptEpoch)
        ensures
            epoch == self.attempt_epoch,
    {
        self.attempt_epoch
    }

    /// Starts the capture-first priming sequence.
    pub fn start_capture(&self, bridge: &mut SharedBridge) -> (result: Result<(), BridgeError>)
        ensures
            result == if old(bridge).attempt.state == BridgeState::Allocated {
                Ok::<(), BridgeError>(())
            } else {
                Err::<(), BridgeError>(BridgeError::State { actual: old(bridge).attempt.state })
            },
            *final(bridge) == (SharedBridge {
                attempt: old(bridge).attempt.moved(
                    BridgeState::Allocated,
                    BridgeState::CapturePriming,
                ),
                ..*old(bridge)
            }),
    {
        if bridge.attempt.transition(BridgeState::Allocated, BridgeState::CapturePriming) {
            Ok(())
        } else {
            Err(BridgeError::State { actual: bridge.attempt.state() })
        }
    }

    /// Enables delivery after all priming work completes.
    pub fn activate(&self, bridge: &mut SharedBridge) -> (result: Result<(), BridgeError>)
        requires
            old(bridge).wf(),
        ensures
            result == activated(*old(bridge)).0,
            *final(bridge) == (SharedBridge { attempt: activated(*old(bridge)).1, ..*old(bridge) }),
    {
        if !bridge.attempt.transition(BridgeState::Primed, BridgeState::PrimingCheck) {
            return Err(BridgeError::State { actual: bridge.attempt.state() });
        }
        let capture: usize = bridge.attempt.capture_in_flight;
        let graph: usize = bridge.attempt.graph_in_flight;
        let playback: usize = bridge.attempt.playback_in_flight;
        if capture != 0 || graph != 0 || playback != 0 {
            let _ = bridge.attempt.transition(BridgeState::PrimingCheck, BridgeState::Primed);
            return Err(BridgeError::ActivationNotQuiescent { capture, graph, playback });
        }
        let capture_fill: usize = match bridge.capture_ring.available_frames() {
            Ok(fill) => fill,
            Err(error) => {
                bridge.attempt.fault();
                return Err(map_sequence(error, BridgeClockDomain::WaveCapture));
            },
        };
        let playback_fill: usize = match bridge.playback_ring.available_frames() {
            Ok(fill) => fill,
            Err(error) => {
                bridge.attempt.fault();
                return Err(map_sequence(error, BridgeClockDomain::WavePlayback));
            },
        };
        if !bridge.attempt.within_startup_guards(capture_fill, playback_fill) {
            let _ = bridge.attempt.transition(
                BridgeState::PrimingCheck,
                BridgeState::PlaybackStabilizing,
            );
            return Err(BridgeError::State { actual: BridgeState::PlaybackStabilizing });
        }
        if bridge.attempt.transition(BridgeState::PrimingCheck, BridgeState::Active) {
            Ok(())
        } else {
            Err(BridgeError::State { actual: bridge.attempt.state() })
        }
    }

    /// Reports the staging of one complete mixer profile: first whether the
    /// profile is valid, then whether the control handoff took it.
    pub fn try_stage_profile(
        &self,
        profile: Result<(), MixerProfileError>,
        staged: Result<(), StageError>,
    ) -> (result: Result<(), BridgeControlError>)
        ensures
            result == match profile {
                Err(error) => Err::<(), BridgeControlError>(BridgeControlError::Profile(error)),
                Ok(()) => match staged {
                    Err(error) => Err::<(), BridgeControlError>(BridgeControlError::Stage(error)),
                    Ok(()) => Ok::<(), BridgeControlError>(()),
                },
            },
    {
        match profile {
            Err(error) => Err(BridgeControlError::Profile(error)),
            Ok(()) => match staged {
                Err(error) => Err(BridgeControlError::Stage(error)),
                Ok(()) => Ok(()),
            },
        }
    }

    /// Stops admitting boundaries.
    pub fn begin_teardown(&self, bridge: &mut SharedBridge)
        ensures
            *final(bridge) == (SharedBridge {
                attempt: SharedAttempt {
                    state: if old(bridge).attempt.state == BridgeState::Stopped {
                        BridgeState::Stopped
                    } else {
                        BridgeState::Quiescing
                    },
                    ..old(bridge).attempt
                },
                ..*old(bridge)
            }),
    {
        if bridge.attempt.state() != BridgeState::Stopped {
            bridge.attempt.state = BridgeState::Quiescing;
        }
    }

    /// Marks teardown complete after every processing owner has quiesced.
    pub fn finish_teardown(&self, bridge: &mut SharedBridge) -> (result: Result<(), BridgeError>)
        ensures
            result == torn_down(old(bridge).attempt).0,
            *final(bridge) == (SharedBridge {
                attempt: torn_down(old(bridge).attempt).1,
                ..*old(bridge)
            }),
    {
        let state = bridge.attempt.state();
        if state == BridgeState::Stopped {
            return Ok(());
        }
        if state != BridgeState::Quiescing {
            return Err(BridgeError::State { actual: state });
        }
        let capture: usize = bridge.attempt.capture_in_flight;
        let graph: usize = bridge.attempt.graph_in_flight;
        let playback: usize = bridge.attempt.playback_in_flight;
        if capture != 0 || graph != 0 || playback != 0 {
            return Err(BridgeError::TeardownNotQuiescent { capture, graph, playback });
        }
        bridge.attempt.state = BridgeState::Stopped;
        Ok(())
    }
}

/// A boundary that enters and then leaves changes no activity counter.
pub proof fn law_activity_is_balanced(attempt: SharedAttempt, role: BridgeClockDomain)
    ensures
        attempt.entered(role).left(role) == attempt,
        attempt.entered(role).faulted().left(role) == attempt.faulted(),
{
}

/// A terminal failure is final: once faulted, an attempt admits no boundary,
/// cannot be activated and cannot finish teardown before it is told to quiesce.
/// An attempt that is being torn down stays so.
pub proof fn law_fault_is_terminal(bridge: SharedBridge)
    ensures
        bridge.attempt.faulted().faulted() == bridge.attempt.faulted(),
        state_refusal(bridge.attempt.faulted().state) is Some,
        activated(SharedBridge { attempt: bridge.attempt.faulted(), ..bridge }).0 is Err,
        bridge.attempt.state == BridgeState::Quiescing ==> bridge.attempt.faulted().state
            == BridgeState::Quiescing,
        bridge.attempt.state == BridgeState::Stopped ==> bridge.attempt.faulted().state
            == BridgeState::Stopped,
        bridge.attempt.faulted().state == BridgeState::Faulted ==> torn_down(
            bridge.attempt.faulted(),
        ).0 is Err,
{
}

/// Delivery starts only from a primed, quiescent attempt whose two fills lie in
/// their startup ranges; every other activation changes no state but to send a
/// drifted attempt back to stabilizing.
pub proof fn law_activation_is_guarded(bridge: SharedBridge)
    ensures
        activated(bridge).0 is Ok <==> (bridge.attempt.state == BridgeState::Primed
            && bridge.attempt.quiescent() && bridge.attempt.in_startup_guards(
            bridge.capture_ring.fill(),
            bridge.playback_ring.fill(),
        )),
        activated(bridge).0 is Ok <==> activated(bridge).1.state == BridgeState::Active
            && bridge.attempt.state != BridgeState::Active,
        activated(bridge).0 is Err ==> activated(bridge).1.state == bridge.attempt.state
            || activated(bridge).1.state == BridgeState::PlaybackStabilizing,
{
}

/// Teardown completes exactly when nothing is in flight, and completing it
/// again changes nothing.
pub proof fn law_teardown_is_idempotent(attempt: SharedAttempt)
    requires
        attempt.state == BridgeState::Quiescing,
    ensures
        torn_down(attempt).0 is Ok <==> attempt.quiescent(),
        attempt.quiescent() ==> torn_down(torn_down(attempt).1) == (
            Ok::<(), BridgeError>(()),
            torn_down(attempt).1,
        ),
{
}

/// Each role counts its own boundaries: entering raises, and leaving lowers, the
/// counter of that role by one and touches nothing else.
pub proof fn law_each_role_counts_its_own_boundaries(attempt: SharedAttempt)
    ensures
        attempt.capture_in_flight < usize::MAX ==> attempt.entered(BridgeClockDomain::WaveCapture)
            == (SharedAttempt {
            capture_in_flight: (attempt.capture_in_flight + 1) as usize,
            ..attempt
        }),
        attempt.graph_in_flight < usize::MAX ==> attempt.entered(BridgeClockDomain::PipeWireGraph)
            == (SharedAttempt {
            graph_in_flight: (attempt.graph_in_flight + 1) as usize,
            ..attempt
        }),
        attempt.playback_in_flight < usize::MAX ==> attempt.entered(BridgeClockDomain::WavePlayback)
            == (SharedAttempt {
            playback_in_flight: (attempt.playback_in_flight + 1) as usize,
            ..attempt
        }),
        attempt.capture_in_flight > 0 ==> attempt.left(BridgeClockDomain::WaveCapture) == (
        SharedAttempt { capture_in_flight: (attempt.capture_in_flight - 1) as usize, ..attempt }),
        attempt.graph_in_flight > 0 ==> attempt.left(BridgeClockDomain::PipeWireGraph) == (
        SharedAttempt { graph_in_flight: (attempt.graph_in_flight - 1) as usize, ..attempt }),
        attempt.playback_in_flight > 0 ==> attempt.left(BridgeClockDomain::WavePlayback) == (
        SharedAttempt { playback_in_flight: (attempt.playback_in_flight - 1) as usize, ..attempt }),
{
}

/// A failure keeps every counter, delay and range of the attempt, and changes the
/// state of every attempt that is not being torn down to faulted.
pub proof fn law_fault_changes_only_the_state(attempt: SharedAttempt)
    ensures
        attempt.faulted() == (SharedAttempt { state: attempt.faulted().state, ..attempt }),
        attempt.faulted().state == BridgeState::Faulted || attempt.faulted().state
            == BridgeState::Quiescing || attempt.faulted().state == BridgeState::Stopped,
        attempt.faulted().state != BridgeState::Faulted ==> attempt.faulted().state
            == attempt.state,
        attempt.state != BridgeState::Quiescing && attempt.state != BridgeState::Stopped
            ==> attempt.faulted().state == BridgeState::Faulted,
{
}

/// Both fills are compared with the target and the guard of their own FIFO: each
/// may lie at most its guard below or above its target.
pub proof fn law_each_fifo_has_its_own_startup_range(
    attempt: SharedAttempt,
    capture_fill: int,
    playback_fill: int,
)
    ensures
        attempt.in_startup_guards(capture_fill, playback_fill) <==> (attempt.capture_target
            - attempt.capture_guard <= capture_fill <= attempt.capture_target
            + attempt.capture_guard && attempt.playback_target - attempt.playback_guard
            <= playback_fill <= attempt.playback_target + attempt.playback_guard),
{
}

/// Which states refuse every boundary, and with what: a faulted attempt names its
/// fault, one being torn down the teardown, and one being checked its state.
pub proof fn law_ended_attempts_admit_nothing(state: BridgeState)
    ensures
        state == BridgeState::Faulted <==> state_refusal(state) == Some(
            BridgeError::AttemptFaulted,
        ),
        (state == BridgeState::Quiescing || state == BridgeState::Stopped) <==> state_refusal(state)
            == Some(BridgeError::Teardown),
        state == BridgeState::PrimingCheck <==> state_refusal(state) == Some(
            BridgeError::State { actual: state },
        ),
        state_refusal(state) is None <==> (state == BridgeState::Allocated || state
            == BridgeState::CapturePriming || state == BridgeState::CaptureFilterDelay || state
            == BridgeState::CaptureEstimatorPriming || state == BridgeState::PlaybackPriming
            || state == BridgeState::PlaybackFilterDelay || state
            == BridgeState::PlaybackEstimatorPriming || state == BridgeState::PlaybackStabilizing
            || state == BridgeState::Primed || state == BridgeState::Active),
{
}

/// A sample is taken only from the running attempt; the refusal names both epochs.
pub proof fn law_samples_of_other_attempts_are_refused(
    expected: ClockAttemptEpoch,
    domain: BridgeClockDomain,
    observation: ClockObservation,
)
    ensures
        epoch_refusal(expected, domain, observation) is None <==> observation.epoch == expected,
        observation.epoch != expected ==> epoch_refusal(expected, domain, observation) == Some(
            BridgeError::ObservationEpoch { domain, expected, actual: observation.epoch },
        ),
{
}

/// The samples of one clock move forward: the position never falls, the time
/// rises whenever the position does, and where repetition is refused the position
/// rises every time. The first sample is always taken.
pub proof fn law_clock_samples_move_forward(
    domain: BridgeClockDomain,
    previous: ClockObservation,
    actual: ClockObservation,
    reject_repeated: bool,
)
    ensures
        progress_refusal(domain, None, actual, reject_repeated) is None,
        progress_refusal(domain, Some(previous), actual, reject_repeated) is None <==> ((
        actual.frame_position.frames > previous.frame_position.frames
            && actual.monotonic_time.nanoseconds > previous.monotonic_time.nanoseconds) || (
        actual.frame_position.frames == previous.frame_position.frames && !reject_repeated)),
        actual.frame_position.frames < previous.frame_position.frames ==> progress_refusal(
            domain,
            Some(previous),
            actual,
            reject_repeated,
        ) == Some(
            BridgeError::Discontinuity {
                domain,
                expected: previous.frame_position.frames,
                actual: actual.frame_position.frames,
            },
        ),
        actual.frame_position.frames == previous.frame_position.frames && reject_repeated
            ==> progress_refusal(domain, Some(previous), actual, reject_repeated) == Some(
            BridgeError::RepeatedClockObservation { domain },
        ),
        actual.frame_position.frames > previous.frame_position.frames
            && actual.monotonic_time.nanoseconds <= previous.monotonic_time.nanoseconds
            ==> progress_refusal(domain, Some(previous), actual, reject_repeated) == Some(
            BridgeError::MonotonicTimeDiscontinuity {
                domain,
                previous: previous.monotonic_time.nanoseconds,
                actual: actual.monotonic_time.nanoseconds,
            },
        ),
{
}

/// A position advances by exactly the frames it is moved by, and only a sum past
/// the largest position is refused.
pub proof fn law_positions_advance_by_their_frames(
    domain: BridgeClockDomain,
    start: u64,
    frames: usize,
)
    ensures
        match end_frame(domain, start, frames) {
            Ok(end) => end == start + frames,
            Err(error) => start + frames > u64::MAX && error == (BridgeError::PositionOverflow {
                domain,
                start,
                frames,
            }),
        },
{
}

/// An estimator input is recent enough exactly if its time lies within the
/// allowed distance of the output sample, on either side; the refusal names that
/// distance. Before the first input nothing is refused.
pub proof fn law_estimator_inputs_are_recent(
    latest: ClockObservation,
    maximum_nanoseconds: u64,
    current_output: ClockObservation,
)
    ensures
        freshness_refusal(None, maximum_nanoseconds, current_output) is None,
        freshness_refusal(Some(latest), maximum_nanoseconds, current_output) is None <==> (
        latest.monotonic_time.nanoseconds <= current_output.monotonic_time.nanoseconds
            + maximum_nanoseconds && current_output.monotonic_time.nanoseconds
            <= latest.monotonic_time.nanoseconds + maximum_nanoseconds),
        match freshness_refusal(Some(latest), maximum_nanoseconds, current_output) {
            Some(ClockRateEstimatorError::ObservationSkew {
                actual_nanoseconds,
                maximum_nanoseconds: named,
            }) => {
                &&& named == maximum_nanoseconds
                &&& actual_nanoseconds + latest.monotonic_time.nanoseconds
                    == current_output.monotonic_time.nanoseconds || actual_nanoseconds
                    + current_output.monotonic_time.nanoseconds
                    == latest.monotonic_time.nanoseconds
            },
            Some(_) => false,
            None => true,
        },
{
}

/// A refused activation says why: the state that is not primed, or the boundaries
/// of each role that are still in flight. Neither refusal changes the attempt.
pub proof fn law_refused_activation_says_why(bridge: SharedBridge)
    ensures
        bridge.attempt.state != BridgeState::Primed ==> activated(bridge) == (
            Err::<(), BridgeError>(BridgeError::State { actual: bridge.attempt.state }),
            bridge.attempt,
        ),
        bridge.attempt.state == BridgeState::Primed && (bridge.attempt.capture_in_flight != 0
            || bridge.attempt.graph_in_flight != 0 || bridge.attempt.playback_in_flight != 0)
            ==> activated(bridge) == (
            Err::<(), BridgeError>(
                BridgeError::ActivationNotQuiescent {
                    capture: bridge.attempt.capture_in_flight,
                    graph: bridge.attempt.graph_in_flight,
                    playback: bridge.attempt.playback_in_flight,
                },
            ),
            bridge.attempt,
        ),
        activated(bridge).1 == (SharedAttempt {
            state: activated(bridge).1.state,
            ..bridge.attempt
        }),
{
}

/// A refused end of teardown says why, and ending it changes only the state.
pub proof fn law_refused_teardown_says_why(attempt: SharedAttempt)
    ensures
        attempt.state != BridgeState::Quiescing && attempt.state != BridgeState::Stopped
            ==> torn_down(attempt) == (
            Err::<(), BridgeError>(BridgeError::State { actual: attempt.state }),
            attempt,
        ),
        attempt.state == BridgeState::Quiescing && (attempt.capture_in_flight != 0
            || attempt.graph_in_flight != 0 || attempt.playback_in_flight != 0) ==> torn_down(
            attempt,
        ) == (
            Err::<(), BridgeError>(
                BridgeError::TeardownNotQuiescent {
                    capture: attempt.capture_in_flight,
                    graph: attempt.graph_in_flight,
                    playback: attempt.playback_in_flight,
                },
            ),
            attempt,
        ),
        torn_down(attempt).0 is Ok ==> torn_down(attempt).1 == (SharedAttempt {
            state: BridgeState::Stopped,
            ..attempt
        }),
{
}

} // verus!
