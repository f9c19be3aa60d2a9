//! The playback-worker side of the bridge.

use crate::audio_host::clock_bridge::attempt::{
    attempt_state, checked_end, end_frame, epoch_refusal, progress_refusal, state_refusal,
    validate_clock_progress, validate_observation_epoch, SharedAttempt, SharedBridge,
};
use crate::audio_host::clock_bridge::errors::{
    map_peek, map_sequence, peek_failure, BridgeClockDomain, BridgeError, BridgeState,
    PlaybackWriteError, RateMatchError,
};
use crate::audio_host::clock_bridge::observation::{
    ClockAttemptEpoch, ClockObservation, CopySlot, PlaybackClockObservation,
};
use crate::audio_host::clock_bridge::rate::{
    map_rate, rate_failure, RateCycle, RateFailure, RateRequest,
};
use crate::audio_host::pcm::{encode_refusal, encode_s24_3le, encoded_s24};
use vstd::prelude::*;

verus! {

/// Playback application progress reported after one worker submission.
#[derive(Clone, Copy, Debug, Eq, PartialEq, Structural)]
pub struct PlaybackSubmissionProgress {
    pub frames_submitted: usize,
}

/// The delivery boundary used by the playback worker.
pub trait PlaybackPeriodSubmitter {
    /// Every period offered so far, oldest first: its frame count, its bytes and
    /// the submitter's answer. A verified submitter says how it keeps this record.
    closed spec fn offered_periods(&self) -> Seq<
        (usize, Seq<u8>, Result<PlaybackSubmissionProgress, PlaybackWriteError>),
    > {
        Seq::empty()
    }

    /// Submits one complete packed period to ALSA's application side.
    ///
    /// Returns a classified worker failure if the period was not delivered.
    fn submit_packed_s24_3le(&mut self, complete_frame_count: usize, bytes: &[u8]) -> (result:
        Result<PlaybackSubmissionProgress, PlaybackWriteError>)
        ensures
            final(self).offered_periods() == old(self).offered_periods().push(
                (complete_frame_count, bytes@, result),
            ),
    ;
}

/// One successful playback-domain period.
#[derive(Clone, Copy, Debug, Eq, PartialEq, Structural)]
pub struct PlaybackProcessReport {
    pub application_start_frame: u64,
    pub application_end_frame: u64,
    pub hardware_frame_position: u64,
    pub output_frames: usize,
    pub input_frames: usize,
    pub delivery: PlaybackBoundaryDelivery,
}

/// How one state-driven playback boundary handled its output period.
#[derive(Clone, Copy, Debug, Eq, PartialEq, Structural)]
pub enum PlaybackBoundaryDelivery {
    DiscardedFilterDelay,
    SubmittedEstimatorPriming,
    SubmittedStabilizing,
    SubmittedActive,
}

/// How a boundary admitted in `state` handles its output period.
pub open spec fn playback_delivery_in(state: BridgeState) -> PlaybackBoundaryDelivery {
    match state {
        BridgeState::PlaybackEstimatorPriming =>
            PlaybackBoundaryDelivery::SubmittedEstimatorPriming,
        BridgeState::PlaybackStabilizing => PlaybackBoundaryDelivery::SubmittedStabilizing,
        BridgeState::Active => PlaybackBoundaryDelivery::SubmittedActive,
        _ => PlaybackBoundaryDelivery::DiscardedFilterDelay,
    }
}

/// Tells how a boundary admitted in `state` handles its output period.
pub fn playback_delivery(state: BridgeState) -> (delivery: PlaybackBoundaryDelivery)
    ensures
        delivery == playback_delivery_in(state),
{
    match state {
        BridgeState::PlaybackEstimatorPriming =>
            PlaybackBoundaryDelivery::SubmittedEstimatorPriming,
        BridgeState::PlaybackStabilizing => PlaybackBoundaryDelivery::SubmittedStabilizing,
        BridgeState::Active => PlaybackBoundaryDelivery::SubmittedActive,
        _ => PlaybackBoundaryDelivery::DiscardedFilterDelay,
    }
}

/// How the hardware position moved since the last accepted sample.
#[derive(Clone, Copy, Debug, Eq, PartialEq, Structural)]
pub enum HardwareProgress {
    First,
    Repeated,
    Advanced,
}

/// How a hardware sample continues the previous one, or why it does not.
pub open spec fn hardware_progress(
    domain: BridgeClockDomain,
    previous: Option<ClockObservation>,
    actual: ClockObservation,
    active: bool,
) -> Result<HardwareProgress, BridgeError> {
    match previous {
        None => Ok(HardwareProgress::First),
        Some(last) => match progress_refusal(domain, previous, actual, active) {
            Some(error) => Err(error),
            None => if actual.frame_position == last.frame_position {
                Ok(HardwareProgress::Repeated)
            } else {
                Ok(HardwareProgress::Advanced)
            },
        },
    }
}

/// Classifies a hardware sample against the previous one. Only an active
/// attempt refuses a position that did not move.
pub fn playback_hardware_progress(
    domain: BridgeClockDomain,
    previous: Option<ClockObservation>,
    actual: ClockObservation,
    active: bool,
) -> (result: Result<HardwareProgress, BridgeError>)
    ensures
        result == hardware_progress(domain, previous, actual, active),
{
    let last = match previous {
        Some(last) => last,
        None => {
            return Ok(HardwareProgress::First);
        },
    };
    validate_clock_progress(domain, previous, actual, active)?;
    if actual.frame_position == last.frame_position {
        Ok(HardwareProgress::Repeated)
    } else {
        Ok(HardwareProgress::Advanced)
    }
}

/// The application position after a partial submission, or why the device
/// cannot have accepted that much.
pub open spec fn accepted_position(start: u64, accepted_frames: usize, period_frames: usize)
    -> Result<u64, BridgeError> {
    if accepted_frames > period_frames {
        Err(
            BridgeError::PlaybackSubmission {
                expected_frames: period_frames,
                actual_frames: accepted_frames,
            },
        )
    } else {
        end_frame(BridgeClockDomain::WavePlayback, start, accepted_frames)
    }
}

/// Advances the application position by what the device accepted.
pub fn accepted_application_position(
    application_start_frame: u64,
    accepted_frames: usize,
    period_frames: usize,
) -> (result: Result<u64, BridgeError>)
    ensures
        result == accepted_position(application_start_frame, accepted_frames, period_frames),
{
    if accepted_frames > period_frames {
        return Err(
            BridgeError::PlaybackSubmission {
                expected_frames: period_frames,
                actual_frames: accepted_frames,
            },
        );
    }
    checked_end(BridgeClockDomain::WavePlayback, application_start_frame, accepted_frames)
}

/// One admitted playback boundary.
#[derive(Clone, Copy, Debug, Eq, PartialEq, Structural)]
pub struct PlaybackCycle {
    pub rate: RateCycle,
    pub progress: HardwareProgress,
    pub application_start_frame: u64,
    pub application_end_frame: u64,
}

impl PlaybackCycle {
    /// Whether this boundary hands its period to the device.
    pub open spec fn submits(self) -> bool {
        self.rate.state != BridgeState::PlaybackFilterDelay
    }

    /// Tells whether this boundary hands its period to the device.
    pub fn submits_period(&self) -> (submits: bool)
        ensures
            submits == self.submits(),
    {
        self.rate.state != BridgeState::PlaybackFilterDelay
    }
}

/// The playback-worker owner of the stereo output period and the FIFO consumer.
///
/// One boundary runs through [`begin`](Self::begin), an estimator reading
/// ([`RateCycle::estimate`]), [`take_input`](Self::take_input), the rate matcher
/// from `input` to `output`, [`encode_period`](Self::encode_period), and
/// [`submit`](Self::submit).
#[derive(Debug)]
pub struct PlaybackEgress {
    pub input: Vec<u32>,
    pub output: Vec<u32>,
    pub encoded: Vec<u8>,
    pub period_frames: usize,
    pub submitted_position: u64,
    pub last_hardware_observation: Option<ClockObservation>,
}

/// Why the lifecycle admits no playback boundary in `state`, if it does not.
pub open spec fn playback_state_refusal(state: BridgeState) -> Option<BridgeError> {
    if state_refusal(state) is Some {
        state_refusal(state)
    } else if state == BridgeState::PlaybackFilterDelay || state
        == BridgeState::PlaybackEstimatorPriming || state == BridgeState::PlaybackStabilizing
        || state == BridgeState::Active {
        None
    } else {
        Some(BridgeError::State { actual: state })
    }
}

/// Where the submission of one period leads.
pub enum SubmissionStep {
    /// The whole period was taken, or none was due.
    Delivered,
    /// The boundary failed with the device at the given position.
    Failed { error: BridgeError, position: u64, terminal: bool },
}

/// The consequence of what the device answered to one period.
pub open spec fn submission_step(
    start: u64,
    period_frames: usize,
    submission: Result<PlaybackSubmissionProgress, PlaybackWriteError>,
) -> SubmissionStep {
    match submission {
        Err(error) => match accepted_position(start, error.accepted(), period_frames) {
            Err(failure) => SubmissionStep::Failed {
                error: failure,
                position: start,
                terminal: true,
            },
            Ok(position) => SubmissionStep::Failed {
                error: BridgeError::Playback(error),
                position,
                terminal: error != (PlaybackWriteError::Stopped { accepted_frames: 0 }),
            },
        },
        Ok(progress) => if progress.frames_submitted == period_frames {
            SubmissionStep::Delivered
        } else {
            match accepted_position(start, progress.frames_submitted, period_frames) {
                Err(failure) => SubmissionStep::Failed {
                    error: failure,
                    position: start,
                    terminal: true,
                },
                Ok(position) => SubmissionStep::Failed {
                    error: BridgeError::PlaybackSubmission {
                        expected_frames: period_frames,
                        actual_frames: progress.frames_submitted,
                    },
                    position,
                    terminal: true,
                },
            }
        },
    }
}

/// Judges what the device answered to one period.
pub fn judge_submission(
    start: u64,
    period_frames: usize,
    submission: Result<PlaybackSubmissionProgress, PlaybackWriteError>,
) -> (step: SubmissionStep)
    ensures
        step == submission_step(start, period_frames, submission),
{
    match submission {
        Err(error) => match accepted_application_position(
            start,
            error.accepted_frames(),
            period_frames,
        ) {
            Err(failure) => SubmissionStep::Failed {
                error: failure,
                position: start,
                terminal: true,
            },
            Ok(position) => {
                let terminal = match error {
                    PlaybackWriteError::Stopped { accepted_frames } => accepted_frames != 0,
                    _ => true,
                };
                SubmissionStep::Failed { error: BridgeError::Playback(error), position, terminal }
            },
        },
        Ok(progress) => {
            if progress.frames_submitted == period_frames {
                return SubmissionStep::Delivered;
            }
            match accepted_application_position(start, progress.frames_submitted, period_frames) {
                Err(failure) => SubmissionStep::Failed {
                    error: failure,
                    position: start,
                    terminal: true,
                },
                Ok(position) => SubmissionStep::Failed {
                    error: BridgeError::PlaybackSubmission {
                        expected_frames: period_frames,
                        actual_frames: progress.frames_submitted,
                    },
                    position,
                    terminal: true,
                },
            }
        },
    }
}

/// The state that an advanced stabilizing boundary leads to.
pub open spec fn priming_gate(attempt: SharedAttempt, capture_fill: int, playback_fill: int)
    -> BridgeState {
    if attempt.capture_in_flight == 0 && attempt.graph_in_flight == 0 && attempt.in_startup_guards(
        capture_fill,
        playback_fill,
    ) {
        BridgeState::Primed
    } else {
        BridgeState::PlaybackStabilizing
    }
}

/// Keeps other owners out and decides where stabilizing leads.
///
/// Activity counters rise before their owner reads the state. This step
/// therefore either sees an earlier owner in flight or makes that owner see
/// `PrimingCheck` and stop before it can publish a frame.
pub fn prepare_priming_gate(bridge: &mut SharedBridge, playback_fill: usize) -> (result: Result<
    BridgeState,
    BridgeError,
>)
    requires
        old(bridge).wf(),
    ensures
        final(bridge).same_handover(*old(bridge)),
        if old(bridge).attempt.state == BridgeState::PlaybackStabilizing {
            &&& result == Ok::<BridgeState, BridgeError>(
                priming_gate(
                    old(bridge).attempt,
                    old(bridge).capture_ring.fill(),
                    playback_fill as int,
                ),
            )
            &&& final(bridge).attempt == (SharedAttempt {
                state: BridgeState::PrimingCheck,
                ..old(bridge).attempt
            })
        } else {
            &&& result == Err::<BridgeState, BridgeError>(
                BridgeError::State { actual: old(bridge).attempt.state },
            )
            &&& final(bridge).attempt == old(bridge).attempt
        },
{
    if !bridge.attempt.transition(BridgeState::PlaybackStabilizing, BridgeState::PrimingCheck) {
        return Err(BridgeError::State { actual: bridge.attempt.state() });
    }
    if bridge.attempt.capture_in_flight != 0 || bridge.attempt.graph_in_flight != 0 {
        return Ok(BridgeState::PlaybackStabilizing);
    }
    let capture_fill: usize = match bridge.capture_ring.available_frames() {
        Ok(fill) => fill,
        Err(error) => {
            bridge.attempt.fault();
            return Err(map_sequence(error, BridgeClockDomain::WaveCapture));
        },
    };
    if bridge.attempt.within_startup_guards(capture_fill, playback_fill) {
        Ok(BridgeState::Primed)
    } else {
        Ok(BridgeState::PlaybackStabilizing)
    }
}

/// The attempt after a delivered playback boundary.
pub open spec fn playback_finished(
    bridge: SharedBridge,
    cycle: PlaybackCycle,
    period_frames: usize,
    measured: bool,
) -> SharedAttempt {
    let attempt = bridge.attempt;
    let state = cycle.rate.state;
    if state == BridgeState::PlaybackFilterDelay {
        let delay = attempt.playback_delay_remaining;
        let remaining = if delay >= period_frames {
            (delay - period_frames) as usize
        } else {
            0
        };
        let waited = SharedAttempt { playback_delay_remaining: remaining, ..attempt };
        if remaining == 0 {
            waited.moved(BridgeState::PlaybackFilterDelay, BridgeState::PlaybackEstimatorPriming)
        } else {
            waited
        }
    } else if state == BridgeState::PlaybackEstimatorPriming && measured {
        attempt.moved(BridgeState::PlaybackEstimatorPriming, BridgeState::PlaybackStabilizing)
    } else if state == BridgeState::PlaybackStabilizing && cycle.progress
        == HardwareProgress::Advanced {
        SharedAttempt {
            state: priming_gate(
                attempt,
                bridge.capture_ring.fill(),
                cycle.rate.fill - bridge.playback_ring.pending(),
            ),
            ..attempt
        }
    } else {
        attempt
    }
}

/// Whether a boundary reaches the priming gate after the attempt has already
/// left stabilizing.
pub open spec fn gate_refuses(bridge: SharedBridge, cycle: PlaybackCycle) -> bool {
    &&& cycle.rate.state == BridgeState::PlaybackStabilizing
    &&& cycle.progress == HardwareProgress::Advanced
    &&& bridge.attempt.state != BridgeState::PlaybackStabilizing
}

impl PlaybackEgress {
    /// The output buffers hold exactly one period.
    pub open spec fn wf(self) -> bool {
        &&& self.output@.len() == 2 * self.period_frames
        &&& self.encoded@.len() == 6 * self.period_frames
    }

    /// What a boundary needs of the egress that admitted it.
    pub open spec fn holds(self, cycle: PlaybackCycle) -> bool {
        &&& cycle.rate.role == BridgeClockDomain::WavePlayback
        &&& cycle.rate.domain == BridgeClockDomain::WavePlayback
        &&& cycle.application_start_frame == self.submitted_position
        &&& cycle.application_end_frame == if cycle.submits() {
            cycle.application_start_frame + self.period_frames
        } else {
            cycle.application_start_frame as int
        }
    }

    /// Why a hardware sample ends the attempt, if it does.
    pub open spec fn begin_failure(
        self,
        attempt: SharedAttempt,
        observation: PlaybackClockObservation,
    ) -> Option<BridgeError> {
        let domain = BridgeClockDomain::WavePlayback;
        let hardware = observation.hardware;
        let active = attempt.state == BridgeState::Active;
        if epoch_refusal(attempt.attempt_epoch, domain, hardware) is Some {
            epoch_refusal(attempt.attempt_epoch, domain, hardware)
        } else if observation.application_frame_position.frames != self.submitted_position {
            Some(
                BridgeError::PlaybackApplicationPosition {
                    expected: self.submitted_position,
                    actual: observation.application_frame_position.frames,
                },
            )
        } else if hardware.frame_position.frames > self.submitted_position {
            Some(
                BridgeError::PlaybackHardwareAhead {
                    hardware: hardware.frame_position.frames,
                    application: self.submitted_position,
                },
            )
        } else {
            match hardware_progress(domain, self.last_hardware_observation, hardware, active) {
                Err(error) => Some(error),
                Ok(_) => if attempt.state == BridgeState::PlaybackFilterDelay {
                    None
                } else {
                    match end_frame(domain, self.submitted_position, self.period_frames) {
                        Err(error) => Some(error),
                        Ok(_) => None,
                    }
                },
            }
        }
    }

    /// The boundary that is admitted for a hardware sample.
    pub open spec fn cycle(self, bridge: SharedBridge, observation: PlaybackClockObservation)
        -> PlaybackCycle {
        let state = bridge.attempt.state;
        let progress = hardware_progress(
            BridgeClockDomain::WavePlayback,
            self.last_hardware_observation,
            observation.hardware,
            state == BridgeState::Active,
        )->Ok_0;
        PlaybackCycle {
            rate: RateCycle {
                role: BridgeClockDomain::WavePlayback,
                domain: BridgeClockDomain::WavePlayback,
                state,
                output_clock: observation.hardware,
                input_clock: if state != BridgeState::PlaybackFilterDelay && progress
                    != HardwareProgress::Repeated {
                    match bridge.graph_observation.value {
                        Some(sample) => Some(sample.clock),
                        None => None,
                    }
                } else {
                    None
                },
                fill: bridge.playback_ring.fill() as usize,
            },
            progress,
            application_start_frame: self.submitted_position,
            application_end_frame: if state == BridgeState::PlaybackFilterDelay {
                self.submitted_position
            } else {
                (self.submitted_position + self.period_frames) as u64
            },
        }
    }

    pub fn worker_application_position(&self) -> (position: u64)
        ensures
            position == self.submitted_position,
    {
        self.submitted_position
    }

    pub fn worker_attempt_epoch(&self, bridge: &SharedBridge) -> (epoch: ClockAttemptEpoch)
        ensures
            epoch == bridge.attempt.attempt_epoch,
    {
        bridge.attempt.attempt_epoch
    }

    /// Marks the attempt faulted on behalf of the playback worker.
    pub fn worker_fault(&self, bridge: &mut SharedBridge)
        ensures
            *final(bridge) == (SharedBridge {
                attempt: old(bridge).attempt.faulted(),
                ..*old(bridge)
            }),
    {
        bridge.attempt.fault();
    }

    pub fn worker_state(&self, bridge: &SharedBridge) -> (state: BridgeState)
        ensures
            state == bridge.attempt.state,
    {
        bridge.attempt.state()
    }

    fn validate_hardware(
        &self,
        attempt: &SharedAttempt,
        observation: PlaybackClockObservation,
    ) -> (result: Result<(HardwareProgress, u64), BridgeError>)
        ensures
            match self.begin_failure(*attempt, observation) {
                Some(error) => result == Err::<(HardwareProgress, u64), BridgeError>(error),
                None => {
                    &&& result is Ok
                    &&& hardware_progress(
                        BridgeClockDomain::WavePlayback,
                        self.last_hardware_observation,
                        observation.hardware,
                        attempt.state == BridgeState::Active,
                    ) == Ok::<HardwareProgress, BridgeError>(result->Ok_0.0)
                    &&& result->Ok_0.1 == if attempt.state == BridgeState::PlaybackFilterDelay {
                        self.submitted_position as int
                    } else {
                        self.submitted_position + self.period_frames
                    }
                },
            },
    {
        let domain = BridgeClockDomain::WavePlayback;
        let hardware = observation.hardware();
        validate_observation_epoch(attempt.attempt_epoch, domain, hardware)?;
        let observed: u64 = observation.application_frame_position().frames;
        if observed != self.submitted_position {
            return Err(
                BridgeError::PlaybackApplicationPosition {
                    expected: self.submitted_position,
                    actual: observed,
                },
            );
        }
        let hardware_position: u64 = hardware.frame_position.frames;
        if hardware_position > self.submitted_position {
            return Err(
                BridgeError::PlaybackHardwareAhead {
                    hardware: hardware_position,
                    application: self.submitted_position,
                },
            );
        }
        let progress = playback_hardware_progress(
            domain,
            self.last_hardware_observation,
            hardware,
            attempt.state == BridgeState::Active,
        )?;
        let end: u64 = if attempt.state == BridgeState::PlaybackFilterDelay {
            self.submitted_position
        } else {
            checked_end(domain, self.submitted_position, self.period_frames)?
        };
        Ok((progress, end))
    }

    /// Admits one observed playback boundary.
    pub fn begin(&self, bridge: &mut SharedBridge, observation: PlaybackClockObservation) -> (result:
        Result<PlaybackCycle, BridgeError>)
        requires
            old(bridge).wf(),
        ensures
            final(bridge).same_handover(*old(bridge)),
            match playback_state_refusal(old(bridge).attempt.state) {
                Some(error) => {
                    &&& result == Err::<PlaybackCycle, BridgeError>(error)
                    &&& final(bridge).attempt == old(bridge).attempt
                },
                None => match self.begin_failure(old(bridge).attempt, observation) {
                    Some(error) => {
                        &&& result == Err::<PlaybackCycle, BridgeError>(error)
                        &&& final(bridge).attempt == old(bridge).attempt.faulted()
                    },
                    None => {
                        &&& result == Ok::<PlaybackCycle, BridgeError>(
                            self.cycle(*old(bridge), observation),
                        )
                        &&& self.holds(result->Ok_0)
                        &&& final(bridge).attempt == old(bridge).attempt.entered(
                            BridgeClockDomain::WavePlayback,
                        )
                    },
                },
            },
    {
        let role = BridgeClockDomain::WavePlayback;
        bridge.attempt.enter(role);
        let state = match attempt_state(&bridge.attempt) {
            Ok(state) => state,
            Err(error) => {
                bridge.attempt.leave(role);
                return Err(error);
            },
        };
        let admitted = match state {
            BridgeState::PlaybackFilterDelay => true,
            BridgeState::PlaybackEstimatorPriming => true,
            BridgeState::PlaybackStabilizing => true,
            BridgeState::Active => true,
            _ => false,
        };
        if !admitted {
            bridge.attempt.leave(role);
            return Err(BridgeError::State { actual: state });
        }
        let (progress, application_end_frame) = match self.validate_hardware(
            &bridge.attempt,
            observation,
        ) {
            Ok(validated) => validated,
            Err(error) => {
                return Err(bridge.attempt.fail(role, error));
            },
        };
        let fill: usize = match bridge.playback_ring.available_frames() {
            Ok(fill) => fill,
            Err(error) => {
                return Err(bridge.attempt.fail(role, map_sequence(error, role)));
            },
        };
        let input_clock = if state != BridgeState::PlaybackFilterDelay && progress
            != HardwareProgress::Repeated {
            match bridge.graph_observation.peek() {
                Ok(sample) => Some(sample.clock()),
                Err(_) => None,
            }
        } else {
            None
        };
        Ok(
            PlaybackCycle {
                rate: RateCycle {
                    role,
                    domain: role,
                    state,
                    output_clock: observation.hardware(),
                    input_clock,
                    fill,
                },
                progress,
                application_start_frame: self.submitted_position,
                application_end_frame,
            },
        )
    }

    /// Why no playback input can be taken for a boundary, if it cannot.
    pub open spec fn input_failure(
        self,
        bridge: SharedBridge,
        cycle: PlaybackCycle,
        prepared: Result<usize, RateFailure>,
    ) -> Option<BridgeError> {
        let domain = BridgeClockDomain::WavePlayback;
        match prepared {
            Err(failure) => Some(rate_failure(failure, domain)),
            Ok(input_frames) => if 2 * input_frames > usize::MAX {
                Some(
                    BridgeError::InvalidPeriod {
                        actual: input_frames,
                        expected: self.period_frames,
                    },
                )
            } else if input_frames > cycle.rate.fill {
                Some(
                    BridgeError::Shortage {
                        domain,
                        required: input_frames,
                        available: cycle.rate.fill,
                    },
                )
            } else {
                match bridge.playback_ring.peek_refusal(2 * input_frames as nat) {
                    Some(error) => Some(peek_failure(error, domain)),
                    None => None,
                }
            },
        }
    }

    /// Reads ahead the mixed frames that the matcher asked for; `prepared` is the
    /// outcome of the controller and of preparing the matcher.
    pub fn take_input(
        &mut self,
        bridge: &mut SharedBridge,
        cycle: PlaybackCycle,
        prepared: Result<usize, RateFailure>,
    ) -> (result: Result<usize, BridgeError>)
        requires
            old(self).wf(),
            old(self).holds(cycle),
            old(bridge).wf(),
            prepared is Ok && prepared->Ok_0 <= cycle.rate.fill ==> 2 * prepared->Ok_0 <= old(
                self,
            ).input@.len(),
        ensures
            final(self).input@.len() == old(self).input@.len(),
            *final(self) == (PlaybackEgress { input: final(self).input, ..*old(self) }),
            final(bridge).wf(),
            match old(self).input_failure(*old(bridge), cycle, prepared) {
                Some(error) => {
                    &&& result == Err::<usize, BridgeError>(error)
                    &&& final(bridge).attempt == old(bridge).attempt.faulted().left(
                        BridgeClockDomain::WavePlayback,
                    )
                    &&& final(bridge).same_handover(*old(bridge))
                },
                None => {
                    let frames = prepared->Ok_0;
                    &&& result == Ok::<usize, BridgeError>(frames)
                    &&& frames <= cycle.rate.fill
                    &&& frames <= old(bridge).playback_ring.fill()
                    &&& final(self).input@.take(2 * frames as int) == old(
                        bridge,
                    ).playback_ring.queued().take(2 * frames as int)
                    &&& *final(bridge) == (SharedBridge {
                        playback_ring: old(bridge).playback_ring.reading_ahead(frames),
                        ..*old(bridge)
                    })
                    &&& final(bridge).playback_ring.queued() == old(bridge).playback_ring.queued()
                },
            },
    {
        let domain = BridgeClockDomain::WavePlayback;
        let input_frames: usize = match prepared {
            Ok(input_frames) => input_frames,
            Err(failure) => {
                return Err(bridge.attempt.fail(domain, map_rate(failure, domain)));
            },
        };
        let input_samples: usize = match input_frames.checked_mul(2) {
            Some(samples) => samples,
            None => {
                let error = BridgeError::InvalidPeriod {
                    actual: input_frames,
                    expected: self.period_frames,
                };
                return Err(bridge.attempt.fail(domain, error));
            },
        };
        if input_frames > cycle.rate.fill {
            let error = BridgeError::Shortage {
                domain,
                required: input_frames,
                available: cycle.rate.fill,
            };
            return Err(bridge.attempt.fail(domain, error));
        }
        let (input, _rest) = self.input.as_mut_slice().split_at_mut(input_samples);
        let peeked = bridge.playback_ring.peek_exact(input);
        if let Err(error) = peeked {
            proof {
                assert(self.input@ =~= old(self).input@);
            }
            return Err(bridge.attempt.fail(domain, map_peek(error, domain)));
        }
        proof {
            assert(self.input@.take(2 * input_frames as int) =~= old(
                bridge,
            ).playback_ring.queued().take(2 * input_frames as int));
        }
        Ok(input_frames)
    }

    /// Why the matched period cannot be packed, if it cannot.
    pub open spec fn encode_failure(self, matched: Result<(), RateMatchError>) -> Option<
        BridgeError,
    > {
        match matched {
            Err(error) => Some(
                BridgeError::Asrc { domain: BridgeClockDomain::WavePlayback, error },
            ),
            Ok(()) => match encode_refusal(self.output@, 2, self.encoded@.len()) {
                Some(error) => Some(BridgeError::Packed(error)),
                None => None,
            },
        }
    }

    /// Packs the matched output period for the device.
    pub fn encode_period(
        &mut self,
        bridge: &mut SharedBridge,
        matched: Result<(), RateMatchError>,
    ) -> (result: Result<(), BridgeError>)
        requires
            old(self).wf(),
            old(bridge).wf(),
        ensures
            final(self).wf(),
            final(bridge).wf(),
            *final(self) == (PlaybackEgress { encoded: final(self).encoded, ..*old(self) }),
            match old(self).encode_failure(matched) {
                Some(error) => {
                    &&& result == Err::<(), BridgeError>(error)
                    &&& Self::undelivered(*old(bridge), *final(bridge), true)
                },
                None => {
                    &&& result == Ok::<(), BridgeError>(())
                    &&& final(self).encoded@ == encoded_s24(old(self).output@)
                    &&& *final(bridge) == *old(bridge)
                },
            },
    {
        let domain = BridgeClockDomain::WavePlayback;
        if let Err(error) = matched {
            bridge.playback_ring.cancel_peek();
            return Err(bridge.attempt.fail(domain, BridgeError::Asrc { domain, error }));
        }
        let packed = encode_s24_3le(self.output.as_slice(), 2, self.encoded.as_mut_slice());
        if let Err(error) = packed {
            bridge.playback_ring.cancel_peek();
            return Err(bridge.attempt.fail(domain, BridgeError::Packed(error)));
        }
        Ok(())
    }

    /// The egress after a delivered boundary.
    pub open spec fn advanced(self, cycle: PlaybackCycle) -> Self {
        PlaybackEgress {
            submitted_position: cycle.application_end_frame,
            last_hardware_observation: if cycle.progress == HardwareProgress::Repeated {
                self.last_hardware_observation
            } else {
                Some(cycle.rate.output_clock)
            },
            ..self
        }
    }

    /// Whether `after` is what a delivered boundary makes of the bridge.
    pub open spec fn delivered(
        self,
        before: SharedBridge,
        after: SharedBridge,
        cycle: PlaybackCycle,
        measured: bool,
    ) -> bool {
        &&& after.attempt == playback_finished(before, cycle, self.period_frames, measured).left(
            BridgeClockDomain::WavePlayback,
        )
        &&& after.playback_ring.released_from(before.playback_ring)
        &&& after.capture_ring == before.capture_ring
        &&& after.capture_observation == before.capture_observation
        &&& after.graph_observation == (if cycle.rate.input_clock is Some {
            CopySlot { value: None }
        } else {
            before.graph_observation
        })
    }

    /// Whether `after` is what an undelivered boundary makes of the bridge: the
    /// queued frames and every handover stay as they were.
    pub open spec fn undelivered(before: SharedBridge, after: SharedBridge, terminal: bool) -> bool {
        &&& after == (SharedBridge {
            attempt: if terminal {
                before.attempt.faulted().left(BridgeClockDomain::WavePlayback)
            } else {
                before.attempt.left(BridgeClockDomain::WavePlayback)
            },
            playback_ring: before.playback_ring.settled(),
            ..before
        })
        &&& after.playback_ring.queued() == before.playback_ring.queued()
    }

    /// Where the device's answer leads; a boundary that submits nothing goes on.
    pub open spec fn step(
        self,
        cycle: PlaybackCycle,
        submission: Option<Result<PlaybackSubmissionProgress, PlaybackWriteError>>,
    ) -> SubmissionStep {
        match submission {
            Some(answer) => submission_step(
                cycle.application_start_frame,
                self.period_frames,
                answer,
            ),
            None => SubmissionStep::Delivered,
        }
    }

    /// The report of a delivered boundary.
    pub open spec fn report(self, bridge: SharedBridge, cycle: PlaybackCycle)
        -> PlaybackProcessReport {
        PlaybackProcessReport {
            application_start_frame: cycle.application_start_frame,
            application_end_frame: cycle.application_end_frame,
            hardware_frame_position: cycle.rate.output_clock.frame_position.frames,
            output_frames: self.period_frames,
            input_frames: bridge.playback_ring.pending_frames->Some_0,
            delivery: playback_delivery_in(cycle.rate.state),
        }
    }

    /// The complete outcome of a boundary for one answer of the device.
    pub open spec fn finished(
        self,
        after: Self,
        before_bridge: SharedBridge,
        after_bridge: SharedBridge,
        cycle: PlaybackCycle,
        measured: bool,
        submission: Option<Result<PlaybackSubmissionProgress, PlaybackWriteError>>,
        result: Result<PlaybackProcessReport, BridgeError>,
    ) -> bool {
        match self.step(cycle, submission) {
            SubmissionStep::Failed { error, position, terminal } => {
                &&& result == Err::<PlaybackProcessReport, BridgeError>(error)
                &&& after == (PlaybackEgress { submitted_position: position, ..self })
                &&& Self::undelivered(before_bridge, after_bridge, terminal)
            },
            SubmissionStep::Delivered => if gate_refuses(before_bridge, cycle) {
                &&& result == Err::<PlaybackProcessReport, BridgeError>(
                    BridgeError::State { actual: before_bridge.attempt.state },
                )
                &&& after == self
                &&& Self::undelivered(before_bridge, after_bridge, false)
            } else {
                &&& result == Ok::<PlaybackProcessReport, BridgeError>(
                    self.report(before_bridge, cycle),
                )
                &&& after == self.advanced(cycle)
                &&& self.delivered(before_bridge, after_bridge, cycle, measured)
            },
        }
    }

    /// Commits every handover of a delivered boundary, or records how far an
    /// undelivered one got; `submission` is the device's answer to the period,
    /// where the boundary submits one.
    pub fn finish(
        &mut self,
        bridge: &mut SharedBridge,
        cycle: PlaybackCycle,
        request: RateRequest,
        submission: Option<Result<PlaybackSubmissionProgress, PlaybackWriteError>>,
    ) -> (result: Result<PlaybackProcessReport, BridgeError>)
        requires
            old(self).wf(),
            old(self).holds(cycle),
            old(bridge).wf(),
            old(bridge).playback_ring.pending_frames is Some,
            old(bridge).playback_ring.pending() <= cycle.rate.fill,
            (submission is Some) == cycle.submits(),
        ensures
            final(self).wf(),
            final(bridge).wf(),
            old(self).finished(
                *final(self),
                *old(bridge),
                *final(bridge),
                cycle,
                request.measured,
                submission,
                result,
            ),
    {
        let role = BridgeClockDomain::WavePlayback;
        if let Some(answer) = submission {
            match judge_submission(cycle.application_start_frame, self.period_frames, answer) {
                SubmissionStep::Delivered => {},
                SubmissionStep::Failed { error, position, terminal } => {
                    self.submitted_position = position;
                    bridge.playback_ring.cancel_peek();
                    if terminal {
                        bridge.attempt.fault();
                    }
                    bridge.attempt.leave(role);
                    return Err(error);
                },
            }
        }
        let state = cycle.rate.state;
        let input_frames: usize = match bridge.playback_ring.pending_frames {
            Some(frames) => frames,
            None => 0,
        };
        let gate = if state == BridgeState::PlaybackStabilizing && cycle.progress
            == HardwareProgress::Advanced {
            match prepare_priming_gate(bridge, cycle.rate.fill - input_frames) {
                Ok(next) => Some(next),
                Err(error) => {
                    bridge.playback_ring.cancel_peek();
                    bridge.attempt.leave(role);
                    return Err(error);
                },
            }
        } else {
            None
        };
        let _ = bridge.playback_ring.commit_peek();
        if cycle.rate.input_clock.is_some() {
            let _ = bridge.graph_observation.try_take();
        }
        if cycle.progress != HardwareProgress::Repeated {
            self.last_hardware_observation = Some(cycle.rate.output_clock);
        }
        self.submitted_position = cycle.application_end_frame;
        if state == BridgeState::PlaybackFilterDelay {
            let delay: usize = bridge.attempt.playback_delay_remaining;
            bridge.attempt.playback_delay_remaining = delay.saturating_sub(self.period_frames);
            if delay <= self.period_frames {
                let _ = bridge.attempt.transition(
                    BridgeState::PlaybackFilterDelay,
                    BridgeState::PlaybackEstimatorPriming,
                );
            }
        } else if state == BridgeState::PlaybackEstimatorPriming && request.measured {
            let _ = bridge.attempt.transition(
                BridgeState::PlaybackEstimatorPriming,
                BridgeState::PlaybackStabilizing,
            );
        } else if let Some(next) = gate {
            let _ = bridge.attempt.transition(BridgeState::PrimingCheck, next);
        }
        bridge.attempt.leave(role);
        Ok(
            PlaybackProcessReport {
                application_start_frame: cycle.application_start_frame,
                application_end_frame: cycle.application_end_frame,
                hardware_frame_position: cycle.rate.output_clock.frame_position.frames,
                output_frames: self.period_frames,
                input_frames,
                delivery: playback_delivery(state),
            },
        )
    }

    /// Hands the packed period to the device where the boundary submits one, and
    /// finishes the boundary with its answer.
    pub fn submit<S: PlaybackPeriodSubmitter>(
        &mut self,
        bridge: &mut SharedBridge,
        cycle: PlaybackCycle,
        request: RateRequest,
        submitter: &mut S,
    ) -> (result: Result<PlaybackProcessReport, BridgeError>)
        requires
            old(self).wf(),
            old(self).holds(cycle),
            old(bridge).wf(),
            old(bridge).playback_ring.pending_frames is Some,
            old(bridge).playback_ring.pending() <= cycle.rate.fill,
        ensures
            final(self).wf(),
            final(bridge).wf(),
            ({
                let before = old(submitter).offered_periods();
                let after = final(submitter).offered_periods();
                let submission = if cycle.submits() {
                    Some(after.last().2)
                } else {
                    None
                };
                &&& after == (if cycle.submits() {
                    before.push((old(self).period_frames, old(self).encoded@, after.last().2))
                } else {
                    before
                })
                &&& old(self).finished(
                    *final(self),
                    *old(bridge),
                    *final(bridge),
                    cycle,
                    request.measured,
                    submission,
                    result,
                )
            }),
    {
        let submission = if cycle.submits_period() {
            Some(submitter.submit_packed_s24_3le(self.period_frames, self.encoded.as_slice()))
        } else {
            None
        };
        self.finish(bridge, cycle, request, submission)
    }
}

/// A refused or short submission moves the application position by exactly what
/// the device accepted, never past one period.
pub proof fn law_position_follows_acceptance(
    start: u64,
    period_frames: usize,
    submission: Result<PlaybackSubmissionProgress, PlaybackWriteError>,
)
    ensures
        match submission_step(start, period_frames, submission) {
            SubmissionStep::Delivered => submission is Ok
                && submission->Ok_0.frames_submitted == period_frames,
            SubmissionStep::Failed { error, position, terminal } => {
                let accepted = match submission {
                    Ok(progress) => progress.frames_submitted,
                    Err(failure) => failure.accepted(),
                };
                &&& start <= position <= start + period_frames
                &&& position == start || position == start + accepted
            },
        },
{
}

/// Stopping before a period was touched is the only failed submission that
/// leaves the attempt usable.
pub proof fn law_only_untouched_stop_is_recoverable(
    start: u64,
    period_frames: usize,
    submission: Result<PlaybackSubmissionProgress, PlaybackWriteError>,
)
    ensures
        (submission_step(start, period_frames, submission) is Failed && !submission_step(
            start,
            period_frames,
            submission,
        )->terminal) <==> submission == Err::<PlaybackSubmissionProgress, PlaybackWriteError>(
            PlaybackWriteError::Stopped { accepted_frames: 0 },
        ),
{
}

/// What a delivered boundary does, told by its inputs and results alone: the
/// device took the whole period where one was due, the application position moved
/// to the end of the boundary, the frames read ahead left the FIFO and nothing
/// else of it, the graph sample was used up exactly where one was paired, and the
/// report names the same positions and frames.
pub proof fn law_delivered_playback_moves_everything_together(
    egress: PlaybackEgress,
    after: PlaybackEgress,
    before_bridge: SharedBridge,
    after_bridge: SharedBridge,
    cycle: PlaybackCycle,
    measured: bool,
    submission: Option<Result<PlaybackSubmissionProgress, PlaybackWriteError>>,
    result: Result<PlaybackProcessReport, BridgeError>,
)
    requires
        egress.finished(
            after,
            before_bridge,
            after_bridge,
            cycle,
            measured,
            submission,
            result,
        ),
        before_bridge.playback_ring.pending_frames is Some,
        result is Ok,
    ensures
        match submission {
            Some(Ok(progress)) => progress.frames_submitted == egress.period_frames,
            Some(Err(_)) => false,
            None => true,
        },
        after.submitted_position == cycle.application_end_frame,
        after.last_hardware_observation == (if cycle.progress == HardwareProgress::Repeated {
            egress.last_hardware_observation
        } else {
            Some(cycle.rate.output_clock)
        }),
        after.input == egress.input,
        after.output == egress.output,
        after.encoded == egress.encoded,
        after.period_frames == egress.period_frames,
        after_bridge.playback_ring.queued() == before_bridge.playback_ring.queued().skip(
            2 * before_bridge.playback_ring.pending_frames->Some_0 as int,
        ),
        after_bridge.playback_ring.pending_frames is None,
        after_bridge.capture_ring == before_bridge.capture_ring,
        after_bridge.capture_observation == before_bridge.capture_observation,
        cycle.rate.input_clock is Some ==> after_bridge.graph_observation.value is None,
        cycle.rate.input_clock is None ==> after_bridge.graph_observation
            == before_bridge.graph_observation,
        result->Ok_0.application_start_frame == cycle.application_start_frame,
        result->Ok_0.application_end_frame == cycle.application_end_frame,
        result->Ok_0.hardware_frame_position == cycle.rate.output_clock.frame_position.frames,
        result->Ok_0.output_frames == egress.period_frames,
        result->Ok_0.input_frames == before_bridge.playback_ring.pending_frames->Some_0,
        cycle.rate.state == BridgeState::Active <==> result->Ok_0.delivery
            == PlaybackBoundaryDelivery::SubmittedActive,
        cycle.rate.state == BridgeState::PlaybackStabilizing <==> result->Ok_0.delivery
            == PlaybackBoundaryDelivery::SubmittedStabilizing,
        cycle.rate.state == BridgeState::PlaybackEstimatorPriming <==> result->Ok_0.delivery
            == PlaybackBoundaryDelivery::SubmittedEstimatorPriming,
{
    let frames = before_bridge.playback_ring.pending_frames->Some_0 as int;
    assert(frames * 2 == 2 * frames);
}

/// What a failed submission leaves: the queued frames, both samples and every
/// buffer are as they were, and the position stands where the device stopped.
pub proof fn law_failed_playback_keeps_the_queued_frames(
    egress: PlaybackEgress,
    after: PlaybackEgress,
    before_bridge: SharedBridge,
    after_bridge: SharedBridge,
    cycle: PlaybackCycle,
    measured: bool,
    submission: Option<Result<PlaybackSubmissionProgress, PlaybackWriteError>>,
    result: Result<PlaybackProcessReport, BridgeError>,
)
    requires
        egress.finished(
            after,
            before_bridge,
            after_bridge,
            cycle,
            measured,
            submission,
            result,
        ),
        result is Err,
    ensures
        after_bridge.playback_ring.queued() == before_bridge.playback_ring.queued(),
        after_bridge.playback_ring.pending_frames is None,
        after_bridge.capture_ring == before_bridge.capture_ring,
        after_bridge.capture_observation == before_bridge.capture_observation,
        after_bridge.graph_observation == before_bridge.graph_observation,
        after.last_hardware_observation == egress.last_hardware_observation,
        after.output == egress.output,
        after.encoded == egress.encoded,
        match submission {
            Some(Err(error)) => {
                &&& error.accepted() <= egress.period_frames && cycle.application_start_frame
                    + error.accepted() <= u64::MAX ==> {
                    &&& result == Err::<PlaybackProcessReport, BridgeError>(
                        BridgeError::Playback(error),
                    )
                    &&& after.submitted_position == cycle.application_start_frame
                        + error.accepted()
                }
                &&& error.accepted() > egress.period_frames ==> {
                    &&& result == Err::<PlaybackProcessReport, BridgeError>(
                        BridgeError::PlaybackSubmission {
                            expected_frames: egress.period_frames,
                            actual_frames: error.accepted(),
                        },
                    )
                    &&& after.submitted_position == cycle.application_start_frame
                }
            },
            Some(Ok(progress)) => progress.frames_submitted != egress.period_frames ==> {
                &&& progress.frames_submitted < egress.period_frames
                    && cycle.application_start_frame + progress.frames_submitted <= u64::MAX
                    ==> after.submitted_position == cycle.application_start_frame
                    + progress.frames_submitted
                &&& cycle.application_start_frame + progress.frames_submitted <= u64::MAX
                    ==> result == Err::<PlaybackProcessReport, BridgeError>(
                    BridgeError::PlaybackSubmission {
                        expected_frames: egress.period_frames,
                        actual_frames: progress.frames_submitted,
                    },
                )
            },
            None => after.submitted_position == egress.submitted_position,
        },
{
    assert(before_bridge.playback_ring.settled().queued()
        =~= before_bridge.playback_ring.queued());
}

/// How the startup of playback proceeds, in terms of the attempt before and after
/// a delivered boundary: the filter delay runs down by one period at a time, a
/// measured ratio ends estimator priming, and an advanced stabilizing boundary
/// primes the attempt exactly if no other role is in flight and both fills lie
/// within their guards.
pub proof fn law_playback_startup_follows_delay_measure_and_fill(
    bridge: SharedBridge,
    cycle: PlaybackCycle,
    period_frames: usize,
    measured: bool,
)
    requires
        bridge.attempt.state == cycle.rate.state,
    ensures
        ({
            let before = bridge.attempt;
            let after = playback_finished(bridge, cycle, period_frames, measured);
            let capture_fill = bridge.capture_ring.fill();
            let playback_fill = cycle.rate.fill - bridge.playback_ring.pending();
            &&& before.state == BridgeState::PlaybackFilterDelay ==> {
                &&& before.playback_delay_remaining > period_frames ==> after == (SharedAttempt {
                    playback_delay_remaining: (before.playback_delay_remaining
                        - period_frames) as usize,
                    ..before
                })
                &&& before.playback_delay_remaining <= period_frames ==> after == (SharedAttempt {
                    playback_delay_remaining: 0,
                    state: BridgeState::PlaybackEstimatorPriming,
                    ..before
                })
            }
            &&& before.state == BridgeState::PlaybackEstimatorPriming ==> after == (SharedAttempt {
                state: if measured {
                    BridgeState::PlaybackStabilizing
                } else {
                    BridgeState::PlaybackEstimatorPriming
                },
                ..before
            })
            &&& before.state == BridgeState::PlaybackStabilizing ==> {
                &&& after == (SharedAttempt { state: after.state, ..before })
                &&& after.state == BridgeState::Primed <==> {
                    &&& cycle.progress == HardwareProgress::Advanced
                    &&& before.capture_in_flight == 0
                    &&& before.graph_in_flight == 0
                    &&& before.capture_target - before.capture_guard <= capture_fill
                        <= before.capture_target + before.capture_guard
                    &&& before.playback_target - before.playback_guard <= playback_fill
                        <= before.playback_target + before.playback_guard
                }
                &&& after.state != BridgeState::Primed ==> after.state
                    == BridgeState::PlaybackStabilizing
            }
            &&& before.state == BridgeState::Active ==> after == before
        }),
{
}

/// Hardware progress is what the two positions say: the first sample has none, an
/// equal position repeats, a larger one advances, and only an active attempt
/// refuses a repeated one.
pub proof fn law_hardware_progress_compares_positions(
    domain: BridgeClockDomain,
    last: ClockObservation,
    actual: ClockObservation,
    active: bool,
)
    ensures
        hardware_progress(domain, None, actual, active) == Ok::<HardwareProgress, BridgeError>(
            HardwareProgress::First,
        ),
        match hardware_progress(domain, Some(last), actual, active) {
            Ok(HardwareProgress::First) => false,
            Ok(HardwareProgress::Repeated) => !active && actual.frame_position.frames
                == last.frame_position.frames,
            Ok(HardwareProgress::Advanced) => actual.frame_position.frames
                > last.frame_position.frames && actual.monotonic_time.nanoseconds
                > last.monotonic_time.nanoseconds,
            Err(_) => actual.frame_position.frames < last.frame_position.frames || (active
                && actual.frame_position.frames == last.frame_position.frames) || (
            actual.frame_position.frames > last.frame_position.frames
                && actual.monotonic_time.nanoseconds <= last.monotonic_time.nanoseconds),
        },
{
}

/// A hardware sample is admitted exactly if it is of this attempt, names the
/// submitted position, has not overtaken it, continues the last sample and leaves
/// room for one more period where one is submitted.
pub proof fn law_admitted_playback_sample_is_consistent(
    egress: PlaybackEgress,
    attempt: SharedAttempt,
    observation: PlaybackClockObservation,
)
    ensures
        egress.begin_failure(attempt, observation) is None <==> {
            &&& observation.hardware.epoch == attempt.attempt_epoch
            &&& observation.application_frame_position.frames == egress.submitted_position
            &&& observation.hardware.frame_position.frames <= egress.submitted_position
            &&& match egress.last_hardware_observation {
                None => true,
                Some(last) => {
                    ||| observation.hardware.frame_position.frames > last.frame_position.frames
                        && observation.hardware.monotonic_time.nanoseconds
                        > last.monotonic_time.nanoseconds
                    ||| observation.hardware.frame_position.frames == last.frame_position.frames
                        && attempt.state != BridgeState::Active
                },
            }
            &&& attempt.state != BridgeState::PlaybackFilterDelay ==> egress.submitted_position
                + egress.period_frames <= u64::MAX
        },
{
}

/// An admitted boundary starts where the last submission ended, submits one
/// period everywhere but in the filter delay, measures the FIFO towards the
/// device, and is paired with the graph's sample exactly where the hardware moved
/// and a period is submitted.
pub proof fn law_playback_boundary_pairs_the_graph_clock(
    egress: PlaybackEgress,
    bridge: SharedBridge,
    observation: PlaybackClockObservation,
)
    requires
        bridge.wf(),
        egress.begin_failure(bridge.attempt, observation) is None,
    ensures
        ({
            let cycle = egress.cycle(bridge, observation);
            &&& cycle.rate.role == BridgeClockDomain::WavePlayback
            &&& cycle.rate.domain == BridgeClockDomain::WavePlayback
            &&& cycle.rate.state == bridge.attempt.state
            &&& cycle.rate.output_clock == observation.hardware
            &&& cycle.rate.fill == bridge.playback_ring.write_sequence
                - bridge.playback_ring.read_sequence
            &&& cycle.application_start_frame == egress.submitted_position
            &&& bridge.attempt.state == BridgeState::PlaybackFilterDelay ==> {
                &&& cycle.application_end_frame == egress.submitted_position
                &&& cycle.rate.input_clock is None
                &&& !cycle.submits()
            }
            &&& bridge.attempt.state != BridgeState::PlaybackFilterDelay ==> {
                &&& cycle.application_end_frame == egress.submitted_position
                    + egress.period_frames
                &&& cycle.submits()
                &&& cycle.progress == HardwareProgress::Repeated ==> cycle.rate.input_clock is None
                &&& cycle.progress != HardwareProgress::Repeated ==> match (
                    bridge.graph_observation.value,
                    cycle.rate.input_clock,
                ) {
                    (Some(sample), Some(clock)) => clock == sample.clock,
                    (None, None) => true,
                    _ => false,
                }
            }
        }),
{
}

/// The states in which playback boundaries run, and the refusal in every other.
pub proof fn law_playback_runs_from_its_filter_delay_on(state: BridgeState)
    ensures
        playback_state_refusal(state) is None <==> (state == BridgeState::PlaybackFilterDelay
            || state == BridgeState::PlaybackEstimatorPriming || state
            == BridgeState::PlaybackStabilizing || state == BridgeState::Active),
        state == BridgeState::Faulted ==> playback_state_refusal(state) == Some(
            BridgeError::AttemptFaulted,
        ),
        state == BridgeState::Quiescing || state == BridgeState::Stopped ==> playback_state_refusal(
            state,
        ) == Some(BridgeError::Teardown),
        state == BridgeState::Allocated || state == BridgeState::CapturePriming || state
            == BridgeState::Primed || state == BridgeState::PrimingCheck ==> playback_state_refusal(
            state,
        ) == Some(BridgeError::State { actual: state }),
{
}

} // verus!
