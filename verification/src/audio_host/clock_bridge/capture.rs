//! The capture-worker side of the bridge.

use crate::audio_host::clock_bridge::attempt::{
    attempt_state, checked_end, end_frame, epoch_refusal, progress_refusal, state_refusal,
    validate_clock_progress, validate_observation_epoch, SharedAttempt, SharedBridge,
};
use crate::audio_host::clock_bridge::errors::{
    map_push, push_failure, BridgeClockDomain, BridgeError, BridgeState,
};
use crate::audio_host::clock_bridge::observation::{
    CaptureClockObservation, ClockAttemptEpoch, ClockObservation, CopySlot,
};
use crate::audio_host::pcm::{
    decode_s24_3le, decoded_s24, law_packed_round_trip, packed_frame_count, packed_frames,
};
use vstd::prelude::*;
use vstd::slice::slice_subrange;

verus! {

/// The capture-worker owner of the mono capture FIFO producer.
#[derive(Debug)]
pub struct CaptureIngress {
    pub decode: Vec<u32>,
    pub maximum_frames: usize,
    pub application_position: u64,
    pub last_observation: Option<ClockObservation>,
}

/// Whether a checked clock sample entered its no-overwrite handoff.
#[derive(Clone, Copy, Debug, Eq, PartialEq, Structural)]
pub enum ObservationPublication {
    Published,
    NotPublishedHandoffFull,
}

/// How a handoff slot answers a sample offered to it.
pub open spec fn publication_into<T: Copy>(slot: CopySlot<T>) -> ObservationPublication {
    match slot.value {
        Some(_) => ObservationPublication::NotPublishedHandoffFull,
        None => ObservationPublication::Published,
    }
}

/// A handoff slot after `value` was offered to it.
pub open spec fn offered<T: Copy>(slot: CopySlot<T>, value: T) -> CopySlot<T> {
    match slot.value {
        Some(_) => slot,
        None => CopySlot { value: Some(value) },
    }
}

/// Offers `value` to a handoff slot; a full slot keeps what it holds.
pub fn offer<T: Copy>(slot: &mut CopySlot<T>, value: T) -> (publication: ObservationPublication)
    ensures
        publication == publication_into(*old(slot)),
        *final(slot) == offered(*old(slot), value),
{
    if slot.try_publish(value).is_ok() {
        ObservationPublication::Published
    } else {
        ObservationPublication::NotPublishedHandoffFull
    }
}

/// One accepted capture-domain publication.
#[derive(Clone, Copy, Debug, Eq, PartialEq, Structural)]
pub struct CapturePublishReport {
    pub application_start_frame: u64,
    pub application_end_frame: u64,
    pub hardware_frame_position: u64,
    pub frames: usize,
    pub fifo_fill_frames: usize,
    pub observation_publication: ObservationPublication,
}

/// One in-flight capture boundary from completed-read accounting through
/// publication. Each must end in [`publish`](Self::publish) or
/// [`abandon`](Self::abandon).
#[derive(Debug)]
pub struct CaptureReadBoundary {
    pub attempt_epoch: ClockAttemptEpoch,
    pub application_start_frame: u64,
    pub application_end_frame: u64,
    pub frames: usize,
}

/// Why a completed read is refused by the lifecycle, if it is.
pub open spec fn read_state_refusal(state: BridgeState) -> Option<BridgeError> {
    if state_refusal(state) is Some {
        state_refusal(state)
    } else if state == BridgeState::Allocated || state == BridgeState::Primed {
        Some(BridgeError::State { actual: state })
    } else {
        None
    }
}

impl CaptureIngress {
    /// Whether only the decode buffer's samples may differ from another ingress.
    pub open spec fn keeps_all_but_scratch(self, other: Self) -> bool {
        &&& self.decode@.len() == other.decode@.len()
        &&& self.maximum_frames == other.maximum_frames
        &&& self.application_position == other.application_position
        &&& self.last_observation == other.last_observation
    }

    /// The decode buffer holds the largest admitted read.
    pub open spec fn wf(self) -> bool {
        self.decode@.len() == self.maximum_frames
    }

    /// Why a completed read of `frames` frames ends the attempt, if it does.
    pub open spec fn read_failure(self, frames: usize) -> Option<BridgeError> {
        if frames == 0 || frames > self.maximum_frames {
            Some(
                BridgeError::FrameCount {
                    domain: BridgeClockDomain::WaveCapture,
                    actual: frames,
                    maximum: self.maximum_frames,
                },
            )
        } else {
            match end_frame(BridgeClockDomain::WaveCapture, self.application_position, frames) {
                Err(error) => Some(error),
                Ok(_) => None,
            }
        }
    }

    /// Marks the attempt faulted on behalf of the capture worker.
    pub fn worker_fault(&self, bridge: &mut SharedBridge)
        ensures
            *final(bridge) == (SharedBridge {
                attempt: old(bridge).attempt.faulted(),
                ..*old(bridge)
            }),
    {
        bridge.attempt.fault();
    }

    pub fn worker_state(&self, bridge: &SharedBridge) -> (state: BridgeState)
        ensures
            state == bridge.attempt.state,
    {
        bridge.attempt.state()
    }

    pub fn worker_application_position(&self) -> (position: u64)
        ensures
            position == self.application_position,
    {
        self.application_position
    }

    /// Records one completed ALSA read before its status sample is obtained.
    pub fn record_completed_read(
        &mut self,
        bridge: &mut SharedBridge,
        complete_frame_count: usize,
    ) -> (result: Result<CaptureReadBoundary, BridgeError>)
        ensures
            final(bridge).same_handover(*old(bridge)),
            match read_state_refusal(old(bridge).attempt.state) {
                Some(error) => {
                    &&& result == Err::<CaptureReadBoundary, BridgeError>(error)
                    &&& final(bridge).attempt == old(bridge).attempt
                    &&& *final(self) == *old(self)
                },
                None => match old(self).read_failure(complete_frame_count) {
                    Some(error) => {
                        &&& result == Err::<CaptureReadBoundary, BridgeError>(error)
                        &&& final(bridge).attempt == old(bridge).attempt.faulted()
                        &&& *final(self) == *old(self)
                    },
                    None => {
                        let end = (old(self).application_position + complete_frame_count) as u64;
                        &&& result == Ok::<CaptureReadBoundary, BridgeError>(
                            (CaptureReadBoundary {
                                attempt_epoch: old(bridge).attempt.attempt_epoch,
                                application_start_frame: old(self).application_position,
                                application_end_frame: end,
                                frames: complete_frame_count,
                            }),
                        )
                        &&& final(bridge).attempt == old(bridge).attempt.entered(
                            BridgeClockDomain::WaveCapture,
                        )
                        &&& *final(self) == (CaptureIngress {
                            application_position: end,
                            ..*old(self)
                        })
                    },
                },
            },
    {
        bridge.attempt.enter(BridgeClockDomain::WaveCapture);
        let state = match attempt_state(&bridge.attempt) {
            Ok(state) => state,
            Err(error) => {
                bridge.attempt.leave(BridgeClockDomain::WaveCapture);
                return Err(error);
            },
        };
        if state == BridgeState::Allocated || state == BridgeState::Primed {
            bridge.attempt.leave(BridgeClockDomain::WaveCapture);
            return Err(BridgeError::State { actual: state });
        }
        if complete_frame_count == 0 || complete_frame_count > self.maximum_frames {
            let error = BridgeError::FrameCount {
                domain: BridgeClockDomain::WaveCapture,
                actual: complete_frame_count,
                maximum: self.maximum_frames,
            };
            return Err(bridge.attempt.fail(BridgeClockDomain::WaveCapture, error));
        }
        let application_start_frame: u64 = self.application_position;
        let application_end_frame: u64 = match checked_end(
            BridgeClockDomain::WaveCapture,
            application_start_frame,
            complete_frame_count,
        ) {
            Ok(position) => position,
            Err(error) => {
                return Err(bridge.attempt.fail(BridgeClockDomain::WaveCapture, error));
            },
        };
        self.application_position = application_end_frame;
        Ok(
            CaptureReadBoundary {
                attempt_epoch: bridge.attempt.attempt_epoch,
                application_start_frame,
                application_end_frame,
                frames: complete_frame_count,
            },
        )
    }
}

impl CaptureReadBoundary {
    /// Why publishing this boundary ends the attempt, if it does.
    pub open spec fn publish_failure(
        self,
        ingress: CaptureIngress,
        bridge: SharedBridge,
        observation: CaptureClockObservation,
        packed: Seq<u8>,
    ) -> Option<BridgeError> {
        let domain = BridgeClockDomain::WaveCapture;
        let clock = observation.clock;
        let hardware = clock.frame_position.frames;
        if self.application_end_frame != ingress.application_position {
            Some(
                BridgeError::CaptureApplicationPosition {
                    expected: ingress.application_position,
                    actual: self.application_end_frame,
                },
            )
        } else if epoch_refusal(bridge.attempt.attempt_epoch, domain, clock) is Some {
            epoch_refusal(bridge.attempt.attempt_epoch, domain, clock)
        } else if progress_refusal(domain, ingress.last_observation, clock, true) is Some {
            progress_refusal(domain, ingress.last_observation, clock, true)
        } else if hardware < self.application_end_frame {
            Some(
                BridgeError::CaptureHardwareBehindApplication {
                    hardware,
                    application: self.application_end_frame,
                },
            )
        } else {
            match packed_frames(packed.len(), 1) {
                Err(error) => Some(BridgeError::Packed(error)),
                Ok(encoded) => if encoded != self.frames {
                    Some(
                        BridgeError::FrameCountMismatch { domain, declared: self.frames, encoded },
                    )
                } else {
                    match bridge.capture_ring.push_refusal(decoded_s24(packed)) {
                        Some(error) => Some(push_failure(error, domain)),
                        None => None,
                    }
                },
            }
        }
    }

    /// The attempt after this boundary was published with `fill` frames queued.
    pub open spec fn published_attempt(attempt: SharedAttempt, fill: int) -> SharedAttempt {
        let moved = if fill >= attempt.capture_target {
            attempt.moved(BridgeState::CapturePriming, BridgeState::CaptureFilterDelay)
        } else {
            attempt
        };
        moved.left(BridgeClockDomain::WaveCapture)
    }

    /// Returns the attempt epoch used by the status validator.
    pub fn attempt_epoch(&self) -> (epoch: ClockAttemptEpoch)
        ensures
            epoch == self.attempt_epoch,
    {
        self.attempt_epoch
    }

    /// Returns the application position immediately after the completed read.
    pub fn application_end_frame(&self) -> (position: u64)
        ensures
            position == self.application_end_frame,
    {
        self.application_end_frame
    }

    /// Ends this boundary without a publication.
    pub fn abandon(self, bridge: &mut SharedBridge)
        ensures
            *final(bridge) == (SharedBridge {
                attempt: old(bridge).attempt.left(BridgeClockDomain::WaveCapture),
                ..*old(bridge)
            }),
    {
        bridge.attempt.leave(BridgeClockDomain::WaveCapture);
    }

    /// Publishes the complete captured prefix and ends this capture boundary.
    pub fn publish(
        self,
        ingress: &mut CaptureIngress,
        bridge: &mut SharedBridge,
        observation: CaptureClockObservation,
        packed_s24_3le: &[u8],
    ) -> (result: Result<CapturePublishReport, BridgeError>)
        requires
            old(ingress).wf(),
            old(bridge).wf(),
            self.frames <= old(ingress).maximum_frames,
        ensures
            final(ingress).wf(),
            final(bridge).wf(),
            final(ingress).maximum_frames == old(ingress).maximum_frames,
            final(ingress).application_position == old(ingress).application_position,
            match self.publish_failure(*old(ingress), *old(bridge), observation, packed_s24_3le@) {
                Some(error) => {
                    &&& result == Err::<CapturePublishReport, BridgeError>(error)
                    &&& final(bridge).attempt == old(bridge).attempt.faulted().left(
                        BridgeClockDomain::WaveCapture,
                    )
                    &&& final(bridge).same_handover(*old(bridge))
                    &&& final(ingress).last_observation == old(ingress).last_observation
                },
                None => {
                    let fill = old(bridge).capture_ring.fill() + self.frames;
                    &&& result == Ok::<CapturePublishReport, BridgeError>(
                        (CapturePublishReport {
                            application_start_frame: self.application_start_frame,
                            application_end_frame: self.application_end_frame,
                            hardware_frame_position: observation.clock.frame_position.frames,
                            frames: self.frames,
                            fifo_fill_frames: fill as usize,
                            observation_publication: publication_into(
                                old(bridge).capture_observation,
                            ),
                        }),
                    )
                    &&& final(bridge).capture_ring.pushed_from(
                        old(bridge).capture_ring,
                        decoded_s24(packed_s24_3le@),
                    )
                    &&& final(bridge).capture_observation == offered(
                        old(bridge).capture_observation,
                        observation,
                    )
                    &&& final(bridge).playback_ring == old(bridge).playback_ring
                    &&& final(bridge).graph_observation == old(bridge).graph_observation
                    &&& final(bridge).attempt == Self::published_attempt(old(bridge).attempt, fill)
                    &&& final(ingress).last_observation == Some(observation.clock)
                },
            },
    {
        let role = BridgeClockDomain::WaveCapture;
        if self.application_end_frame != ingress.application_position {
            let error = BridgeError::CaptureApplicationPosition {
                expected: ingress.application_position,
                actual: self.application_end_frame,
            };
            return Err(bridge.attempt.fail(role, error));
        }
        let clock = observation.clock();
        if let Err(error) = validate_observation_epoch(bridge.attempt.attempt_epoch, role, clock) {
            return Err(bridge.attempt.fail(role, error));
        }
        if let Err(error) = validate_clock_progress(role, ingress.last_observation, clock, true) {
            return Err(bridge.attempt.fail(role, error));
        }
        let hardware_frame_position: u64 = clock.frame_position.frames;
        if hardware_frame_position < self.application_end_frame {
            let error = BridgeError::CaptureHardwareBehindApplication {
                hardware: hardware_frame_position,
                application: self.application_end_frame,
            };
            return Err(bridge.attempt.fail(role, error));
        }
        let encoded_frames: usize = match packed_frame_count(packed_s24_3le.len(), 1) {
            Ok(frames) => frames,
            Err(error) => {
                return Err(bridge.attempt.fail(role, BridgeError::Packed(error)));
            },
        };
        if encoded_frames != self.frames {
            let error = BridgeError::FrameCountMismatch {
                domain: role,
                declared: self.frames,
                encoded: encoded_frames,
            };
            return Err(bridge.attempt.fail(role, error));
        }
        let (decoded, _rest) = ingress.decode.as_mut_slice().split_at_mut(self.frames);
        if let Err(error) = decode_s24_3le(packed_s24_3le, 1, decoded) {
            return Err(bridge.attempt.fail(role, BridgeError::Packed(error)));
        }
        let samples = slice_subrange(ingress.decode.as_slice(), 0, self.frames);
        proof {
            law_packed_round_trip(packed_s24_3le@);
            assert(samples@ =~= decoded_s24(packed_s24_3le@));
        }
        let fill: usize = match bridge.capture_ring.prepare_push(samples) {
            Ok(fill) => fill,
            Err(error) => {
                return Err(bridge.attempt.fail(role, map_push(error, role)));
            },
        };
        let _ = bridge.capture_ring.try_push(samples);
        let observation_publication = offer(&mut bridge.capture_observation, observation);
        ingress.last_observation = Some(clock);
        if bridge.attempt.state() == BridgeState::CapturePriming && fill
            >= bridge.attempt.capture_target {
            let _ = bridge.attempt.transition(
                BridgeState::CapturePriming,
                BridgeState::CaptureFilterDelay,
            );
        }
        bridge.attempt.leave(role);
        Ok(
            CapturePublishReport {
                application_start_frame: self.application_start_frame,
                application_end_frame: self.application_end_frame,
                hardware_frame_position,
                frames: self.frames,
                fifo_fill_frames: fill,
                observation_publication,
            },
        )
    }
}

/// A captured block is published exactly if it is the newest completed read, its
/// sample is newer than the last one and of this attempt, the hardware has reached
/// its end, its bytes are the declared frames, and they fit the FIFO.
pub proof fn law_published_capture_is_current_and_complete(
    boundary: CaptureReadBoundary,
    ingress: CaptureIngress,
    bridge: SharedBridge,
    observation: CaptureClockObservation,
    packed: Seq<u8>,
)
    requires
        bridge.wf(),
        packed.len() <= usize::MAX,
    ensures
        boundary.publish_failure(ingress, bridge, observation, packed) is None <==> {
            &&& boundary.application_end_frame == ingress.application_position
            &&& observation.clock.epoch == bridge.attempt.attempt_epoch
            &&& match ingress.last_observation {
                None => true,
                Some(last) => {
                    &&& observation.clock.frame_position.frames > last.frame_position.frames
                    &&& observation.clock.monotonic_time.nanoseconds
                        > last.monotonic_time.nanoseconds
                },
            }
            &&& observation.clock.frame_position.frames >= boundary.application_end_frame
            &&& packed.len() == 3 * boundary.frames
            &&& bridge.capture_ring.fill() + boundary.frames <= bridge.capture_ring.capacity_frames
            &&& bridge.capture_ring.write_sequence + boundary.frames <= u64::MAX
        },
{
    if packed.len() % 3 == 0 {
        law_packed_round_trip(packed);
    }
    assert(decoded_s24(packed).len() == packed.len() / 3);
}

/// A completed read ends the attempt exactly if it is empty, larger than the
/// largest admitted one, or past the last position; an admitted one moves the
/// application position by its frames.
pub proof fn law_completed_reads_are_bounded(ingress: CaptureIngress, frames: usize)
    ensures
        ingress.read_failure(frames) is None <==> 0 < frames <= ingress.maximum_frames
            && ingress.application_position + frames <= u64::MAX,
        frames == 0 || frames > ingress.maximum_frames ==> ingress.read_failure(frames) == Some(
            BridgeError::FrameCount {
                domain: BridgeClockDomain::WaveCapture,
                actual: frames,
                maximum: ingress.maximum_frames,
            },
        ),
{
}

/// Reads are completed in every state but those before capture starts, between
/// priming and activation, and after the attempt has ended.
pub proof fn law_capture_reads_run_from_priming_on(state: BridgeState)
    ensures
        read_state_refusal(state) is None <==> (state == BridgeState::CapturePriming || state
            == BridgeState::CaptureFilterDelay || state == BridgeState::CaptureEstimatorPriming
            || state == BridgeState::PlaybackPriming || state == BridgeState::PlaybackFilterDelay
            || state == BridgeState::PlaybackEstimatorPriming || state
            == BridgeState::PlaybackStabilizing || state == BridgeState::Active),
        state == BridgeState::Faulted ==> read_state_refusal(state) == Some(
            BridgeError::AttemptFaulted,
        ),
        state == BridgeState::Quiescing || state == BridgeState::Stopped ==> read_state_refusal(
            state,
        ) == Some(BridgeError::Teardown),
        state == BridgeState::Allocated || state == BridgeState::Primed || state
            == BridgeState::PrimingCheck ==> read_state_refusal(state) == Some(
            BridgeError::State { actual: state },
        ),
{
}

/// Publishing ends the capture boundary and changes nothing else of the attempt
/// but its state.
pub proof fn law_publishing_ends_one_capture_boundary(attempt: SharedAttempt, fill: int)
    requires
        attempt.capture_in_flight > 0,
    ensures
        CaptureReadBoundary::published_attempt(attempt, fill) == (SharedAttempt {
            state: if attempt.state == BridgeState::CapturePriming && fill
                >= attempt.capture_target {
                BridgeState::CaptureFilterDelay
            } else {
                attempt.state
            },
            capture_in_flight: (attempt.capture_in_flight - 1) as usize,
            ..attempt
        }),
{
}

/// A sample is handed over only into an empty slot: a full one keeps its older
/// sample, and the publication says which happened.
pub proof fn law_handover_keeps_the_older_sample<T: Copy>(slot: CopySlot<T>, value: T)
    ensures
        slot.value is Some ==> offered(slot, value) == slot && publication_into(slot)
            == ObservationPublication::NotPublishedHandoffFull,
        slot.value is None ==> offered(slot, value).value == Some(value) && publication_into(slot)
            == ObservationPublication::Published,
{
}

} // verus!
