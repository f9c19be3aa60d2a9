//! The `PipeWire` graph side of the bridge.

use crate::audio_host::clock_bridge::attempt::{
    attempt_state, checked_end, end_frame, epoch_refusal, progress_refusal, state_refusal,
    validate_clock_progress, validate_observation_epoch, SharedAttempt, SharedBridge,
};
use crate::audio_host::clock_bridge::capture::{
    offer, offered, publication_into, ObservationPublication,
};
use crate::audio_host::clock_bridge::errors::{
    map_peek, map_push, map_sequence, peek_failure, push_failure, BridgeClockDomain, BridgeError,
    BridgeState, ProcessError, RateMatchError,
};
use crate::audio_host::clock_bridge::observation::{
    ClockObservation, CopySlot, GraphClockObservation,
};
use crate::audio_host::clock_bridge::rate::{
    map_rate, rate_failure, RateCycle, RateFailure, RateRequest,
};
use crate::audio_host::sample::{all_finite, find_nonfinite, finite, finite_prefix, is_finite};
use vstd::prelude::*;
use vstd::slice::slice_subrange;

verus! {

/// Raw graph-side System buffers and their explicit connection state.
#[derive(Clone, Copy, Debug)]
pub struct GraphSystemInput<'a> {
    pub connected: bool,
    pub left: Option<&'a [u32]>,
    pub right: Option<&'a [u32]>,
}

impl<'a> GraphSystemInput<'a> {
    pub fn unconnected() -> (input: Self)
        ensures
            input == (GraphSystemInput { connected: false, left: None, right: None }),
    {
        GraphSystemInput { connected: false, left: None, right: None }
    }

    pub fn connected(left: &'a [u32], right: &'a [u32]) -> (input: Self)
        ensures
            input == (GraphSystemInput { connected: true, left: Some(left), right: Some(right) }),
    {
        GraphSystemInput { connected: true, left: Some(left), right: Some(right) }
    }

    pub fn from_raw(connected: bool, left: Option<&'a [u32]>, right: Option<&'a [u32]>) -> (input:
        Self)
        ensures
            input == (GraphSystemInput { connected, left, right }),
    {
        GraphSystemInput { connected, left, right }
    }
}

/// Two channels, one sample of each in turn.
pub open spec fn interleaved(left: Seq<u32>, right: Seq<u32>) -> Seq<u32> {
    Seq::new(
        2 * left.len(),
        |i: int|
            if i % 2 == 0 {
                left[i / 2]
            } else {
                right[i / 2]
            },
    )
}

/// One channel of an interleaved pair.
pub open spec fn channel_of(samples: Seq<u32>, channel: int) -> Seq<u32> {
    Seq::new(samples.len() / 2, |i: int| samples[2 * i + channel])
}

/// `length` zero samples.
pub open spec fn silence(length: nat) -> Seq<u32> {
    Seq::new(length, |i: int| 0u32)
}

/// Why the System buffers of one boundary end the attempt, if they do.
pub open spec fn system_failure(system: GraphSystemInput<'_>, frames: usize) -> Option<BridgeError> {
    if !system.connected {
        if system.left is Some || system.right is Some {
            Some(BridgeError::MissingSystemBuffer)
        } else {
            None
        }
    } else if system.left is None || system.right is None {
        Some(BridgeError::MissingSystemBuffer)
    } else {
        let left = system.left->Some_0@;
        let right = system.right->Some_0@;
        let samples = interleaved(left, right);
        if left.len() != frames || right.len() != frames {
            Some(
                BridgeError::SystemLength {
                    expected: frames,
                    left: left.len() as usize,
                    right: right.len() as usize,
                },
            )
        } else if !all_finite(samples) {
            Some(
                BridgeError::NonFinite {
                    domain: BridgeClockDomain::PipeWireGraph,
                    sample_index: finite_prefix(samples) as usize,
                },
            )
        } else {
            None
        }
    }
}

/// The interleaved System samples of one boundary.
pub open spec fn system_samples(system: GraphSystemInput<'_>, frames: usize) -> Seq<u32> {
    if system.connected {
        interleaved(system.left->Some_0@, system.right->Some_0@)
    } else {
        silence(2 * frames as nat)
    }
}

/// Interleaves the System buffers of one boundary, or silence without a
/// connection.
pub fn prepare_system_input(
    system: GraphSystemInput<'_>,
    frames: usize,
    output: &mut [u32],
) -> (result: Result<(), BridgeError>)
    requires
        old(output)@.len() == 2 * frames,
    ensures
        final(output)@.len() == old(output)@.len(),
        match system_failure(system, frames) {
            Some(error) => result == Err::<(), BridgeError>(error),
            None => result == Ok::<(), BridgeError>(()) && final(output)@ == system_samples(
                system,
                frames,
            ),
        },
        result is Ok && system.connected ==> forall|i: int|
            0 <= i < frames ==> final(output)@[2 * i] == #[trigger] system.left->Some_0@[i],
        result is Ok && system.connected ==> forall|i: int|
            0 <= i < frames ==> final(output)@[2 * i + 1] == #[trigger] system.right->Some_0@[i],
        result is Ok && !system.connected ==> forall|i: int|
            0 <= i < 2 * frames ==> #[trigger] final(output)@[i] == 0,
{
    if !system.connected {
        if system.left.is_some() || system.right.is_some() {
            return Err(BridgeError::MissingSystemBuffer);
        }
        fill_silence(output);
        return Ok(());
    }
    let left = match system.left {
        Some(left) => left,
        None => {
            return Err(BridgeError::MissingSystemBuffer);
        },
    };
    let right = match system.right {
        Some(right) => right,
        None => {
            return Err(BridgeError::MissingSystemBuffer);
        },
    };
    if left.len() != frames || right.len() != frames {
        return Err(
            BridgeError::SystemLength { expected: frames, left: left.len(), right: right.len() },
        );
    }
    let ghost samples = interleaved(left@, right@);
    let length: usize = output.len();
    for index in 0..frames
        invariant
            length == 2 * frames,
            old(output)@.len() == length,
            output@.len() == length,
            left@.len() == frames,
            right@.len() == frames,
            samples == interleaved(left@, right@),
            forall|i: int| 0 <= i < 2 * index ==> finite(#[trigger] samples[i]),
            forall|i: int| 0 <= i < 2 * index ==> #[trigger] output@[i] == samples[i],
            system_failure(system, frames) == if all_finite(samples) {
                None
            } else {
                Some(
                    BridgeError::NonFinite {
                        domain: BridgeClockDomain::PipeWireGraph,
                        sample_index: finite_prefix(samples) as usize,
                    },
                )
            },
    {
        assert(samples[2 * index as int] == left@[index as int]);
        assert(samples[2 * index + 1] == right@[index as int]);
        if !is_finite(left[index]) {
            proof {
                crate::audio_host::sample::lemma_finite_prefix(samples, (2 * index) as nat);
            }
            return Err(
                BridgeError::NonFinite {
                    domain: BridgeClockDomain::PipeWireGraph,
                    sample_index: index * 2,
                },
            );
        }
        if !is_finite(right[index]) {
            proof {
                crate::audio_host::sample::lemma_finite_prefix(samples, (2 * index + 1) as nat);
            }
            return Err(
                BridgeError::NonFinite {
                    domain: BridgeClockDomain::PipeWireGraph,
                    sample_index: index * 2 + 1,
                },
            );
        }
        output[index * 2] = left[index];
        output[index * 2 + 1] = right[index];
    }
    proof {
        assert(all_finite(samples));
        assert(output@ =~= samples);
        assert forall|i: int| 0 <= i < frames implies output@[2 * i] == #[trigger] left@[i] by {
            assert(samples[2 * i] == left@[i]);
        }
        assert forall|i: int| 0 <= i < frames implies output@[2 * i + 1]
            == #[trigger] right@[i] by {
            assert(samples[2 * i + 1] == right@[i]);
        }
    }
    Ok(())
}

/// Overwrites a buffer with zero samples.
pub fn fill_silence(output: &mut [u32])
    ensures
        final(output)@ == silence(old(output)@.len()),
{
    let length: usize = output.len();
    for index in 0..length
        invariant
            output@.len() == length,
            forall|i: int| 0 <= i < index ==> #[trigger] output@[i] == 0,
    {
        output[index] = 0;
    }
    proof {
        assert(output@ =~= silence(length as nat));
    }
}

/// The first buffer length that differs from `expected`, if one does.
pub open spec fn wrong_length(lengths: Seq<usize>, expected: usize) -> Option<usize>
    decreases lengths.len(),
{
    if lengths.len() == 0 {
        None
    } else if lengths[0] != expected {
        Some(lengths[0])
    } else {
        wrong_length(lengths.drop_first(), expected)
    }
}

/// Checks that every output buffer holds one graph quantum.
pub fn validate_output_lengths(lengths: &[usize], frames: usize) -> (result: Result<(), BridgeError>)
    ensures
        result == match wrong_length(lengths@, frames) {
            Some(actual) => Err::<(), BridgeError>(
                BridgeError::OutputLength { expected: frames, actual },
            ),
            None => Ok::<(), BridgeError>(()),
        },
{
    proof {
        assert(lengths@.skip(0) =~= lengths@);
    }
    for index in 0..lengths.len()
        invariant
            wrong_length(lengths@, frames) == wrong_length(lengths@.skip(index as int), frames),
    {
        proof {
            assert(lengths@.skip(index as int).drop_first() =~= lengths@.skip(index + 1));
        }
        if lengths[index] != frames {
            return Err(BridgeError::OutputLength { expected: frames, actual: lengths[index] });
        }
    }
    Ok(())
}

/// Direct graph-time output buffers for the three mixer endpoints.
pub struct GraphOutputBuffers<'a> {
    pub microphone_left: &'a mut [u32],
    pub microphone_right: &'a mut [u32],
    pub monitor_left: &'a mut [u32],
    pub monitor_right: &'a mut [u32],
    pub stream_left: &'a mut [u32],
    pub stream_right: &'a mut [u32],
}

/// One successful graph-domain boundary.
#[derive(Clone, Copy, Debug, Eq, PartialEq, Structural)]
pub struct GraphProcessReport {
    pub start_frame: u64,
    pub end_frame: u64,
    pub frames: usize,
    pub capture_input_frames: usize,
    pub control_update_applied: bool,
    pub delivery: GraphBoundaryDelivery,
    pub observation_publication: ObservationPublication,
}

/// How one state-driven graph boundary treated its public outputs.
#[derive(Clone, Copy, Debug, Eq, PartialEq, Structural)]
pub enum GraphBoundaryDelivery {
    DiscardedFilterDelay,
    DiscardedEstimatorPriming,
    DiscardedStartup,
    Delivered,
}

/// How a boundary admitted in `state` treats its public outputs.
pub open spec fn delivery_in(state: BridgeState) -> GraphBoundaryDelivery {
    match state {
        BridgeState::CaptureFilterDelay => GraphBoundaryDelivery::DiscardedFilterDelay,
        BridgeState::CaptureEstimatorPriming => GraphBoundaryDelivery::DiscardedEstimatorPriming,
        BridgeState::Active => GraphBoundaryDelivery::Delivered,
        _ => GraphBoundaryDelivery::DiscardedStartup,
    }
}

/// Tells how a boundary admitted in `state` treats its public outputs.
pub fn graph_delivery(state: BridgeState) -> (delivery: GraphBoundaryDelivery)
    ensures
        delivery == delivery_in(state),
{
    match state {
        BridgeState::CaptureFilterDelay => GraphBoundaryDelivery::DiscardedFilterDelay,
        BridgeState::CaptureEstimatorPriming => GraphBoundaryDelivery::DiscardedEstimatorPriming,
        BridgeState::Active => GraphBoundaryDelivery::Delivered,
        _ => GraphBoundaryDelivery::DiscardedStartup,
    }
}

/// One admitted graph boundary.
#[derive(Clone, Copy, Debug, Eq, PartialEq, Structural)]
pub struct GraphCycle {
    pub rate: RateCycle,
    pub observation: GraphClockObservation,
    pub start_frame: u64,
    pub end_frame: u64,
}

/// The `PipeWire` data-loop owner of the mixer buffers and the capture FIFO
/// consumer.
///
/// One boundary runs through [`begin`](Self::begin), an estimator reading
/// ([`RateCycle::estimate`]), [`take_input`](Self::take_input), the rate matcher
/// on `capture_input`, [`spread_microphone`](Self::spread_microphone), the mixer,
/// and [`finish`](Self::finish).
#[derive(Debug)]
pub struct GraphClockProcessor {
    pub capture_input: Vec<u32>,
    pub capture_matched: Vec<u32>,
    pub microphone_input: Vec<u32>,
    pub system_input: Vec<u32>,
    pub microphone_output: Vec<u32>,
    pub monitor_output: Vec<u32>,
    pub stream_output: Vec<u32>,
    pub maximum_quantum: usize,
    pub last_observation: Option<ClockObservation>,
    pub fixed_quantum: Option<usize>,
}

/// Why the lifecycle admits no graph boundary in `state`, if it does not.
pub open spec fn graph_state_refusal(state: BridgeState) -> Option<BridgeError> {
    if state_refusal(state) is Some {
        state_refusal(state)
    } else if state == BridgeState::CaptureFilterDelay || state
        == BridgeState::CaptureEstimatorPriming || state == BridgeState::PlaybackPriming || state
        == BridgeState::PlaybackFilterDelay || state == BridgeState::PlaybackEstimatorPriming
        || state == BridgeState::PlaybackStabilizing || state == BridgeState::Active {
        None
    } else {
        Some(BridgeError::State { actual: state })
    }
}

/// The attempt after a finished graph boundary that was admitted in
/// `starting_state`.
pub open spec fn graph_finished(
    attempt: SharedAttempt,
    starting_state: BridgeState,
    quantum_frames: usize,
    playback_fill: int,
    measured: bool,
) -> SharedAttempt {
    if starting_state == BridgeState::CaptureFilterDelay {
        let remaining = if attempt.capture_delay_remaining >= quantum_frames {
            (attempt.capture_delay_remaining - quantum_frames) as usize
        } else {
            0
        };
        let waited = SharedAttempt { capture_delay_remaining: remaining, ..attempt };
        if remaining != 0 {
            waited
        } else if measured {
            waited.moved(BridgeState::CaptureFilterDelay, BridgeState::PlaybackPriming)
        } else {
            waited.moved(BridgeState::CaptureFilterDelay, BridgeState::CaptureEstimatorPriming)
        }
    } else if starting_state == BridgeState::CaptureEstimatorPriming && measured {
        attempt.moved(BridgeState::CaptureEstimatorPriming, BridgeState::PlaybackPriming)
    } else if starting_state == BridgeState::PlaybackPriming && playback_fill
        >= attempt.playback_target {
        attempt.moved(BridgeState::PlaybackPriming, BridgeState::PlaybackFilterDelay)
    } else {
        attempt
    }
}

/// Whether `after` is what a failed boundary makes of the bridge: the queued
/// frames and every handover stay as they were, and the attempt has ended.
pub open spec fn graph_abandoned(before: SharedBridge, after: SharedBridge) -> bool {
    &&& after == (SharedBridge {
        attempt: before.attempt.faulted().left(BridgeClockDomain::PipeWireGraph),
        capture_ring: before.capture_ring.settled(),
        ..before
    })
    &&& after.capture_ring.queued() == before.capture_ring.queued()
}

/// Whether the two channels of a public output went from `before` to `after`: a
/// failed boundary leaves them alone, and only an active attempt fills them with
/// anything but silence.
pub open spec fn output_after(
    cycle: GraphCycle,
    committed: bool,
    mixed: Seq<u32>,
    before: (Seq<u32>, Seq<u32>),
    after: (Seq<u32>, Seq<u32>),
) -> bool {
    let frames = cycle.observation.quantum_frames;
    let samples = mixed.take(2 * frames as int);
    if !committed {
        after == before
    } else if cycle.rate.state == BridgeState::Active {
        after == (channel_of(samples, 0), channel_of(samples, 1))
    } else {
        after == (silence(frames as nat), silence(frames as nat))
    }
}

impl GraphClockProcessor {
    /// Every buffer holds the largest admitted quantum.
    pub open spec fn wf(self) -> bool {
        &&& self.maximum_quantum * 2 <= usize::MAX
        &&& self.capture_matched@.len() == self.maximum_quantum
        &&& self.microphone_input@.len() == 2 * self.maximum_quantum
        &&& self.system_input@.len() == 2 * self.maximum_quantum
        &&& self.microphone_output@.len() == 2 * self.maximum_quantum
        &&& self.monitor_output@.len() == 2 * self.maximum_quantum
        &&& self.stream_output@.len() == 2 * self.maximum_quantum
    }

    /// What a boundary needs of the processor: one quantum within the ceiling.
    pub open spec fn holds(self, cycle: GraphCycle) -> bool {
        &&& 0 < cycle.observation.quantum_frames <= self.maximum_quantum
        &&& cycle.rate.role == BridgeClockDomain::PipeWireGraph
        &&& cycle.rate.domain == BridgeClockDomain::WaveCapture
    }

    /// Why the clock sample of a boundary ends the attempt, if it does.
    pub open spec fn clock_failure(self, attempt: SharedAttempt, observation: GraphClockObservation)
        -> Option<BridgeError> {
        let domain = BridgeClockDomain::PipeWireGraph;
        let clock = observation.clock;
        let quantum = observation.quantum_frames;
        let start = clock.frame_position.frames;
        if quantum == 0 || quantum > self.maximum_quantum {
            Some(BridgeError::InvalidQuantum { actual: quantum, maximum: self.maximum_quantum })
        } else if self.fixed_quantum is Some && self.fixed_quantum->Some_0 != quantum {
            Some(
                BridgeError::FixedQuantumChanged {
                    expected: self.fixed_quantum->Some_0,
                    actual: quantum,
                },
            )
        } else if epoch_refusal(attempt.attempt_epoch, domain, clock) is Some {
            epoch_refusal(attempt.attempt_epoch, domain, clock)
        } else if progress_refusal(domain, self.last_observation, clock, true) is Some {
            progress_refusal(domain, self.last_observation, clock, true)
        } else if self.last_observation is Some && end_frame(
            domain,
            self.last_observation->Some_0.frame_position.frames,
            quantum,
        ) is Err {
            Some(
                end_frame(
                    domain,
                    self.last_observation->Some_0.frame_position.frames,
                    quantum,
                )->Err_0,
            )
        } else if self.last_observation is Some && end_frame(
            domain,
            self.last_observation->Some_0.frame_position.frames,
            quantum,
        )->Ok_0 != start {
            Some(
                BridgeError::Discontinuity {
                    domain,
                    expected: end_frame(
                        domain,
                        self.last_observation->Some_0.frame_position.frames,
                        quantum,
                    )->Ok_0,
                    actual: start,
                },
            )
        } else {
            match end_frame(domain, start, quantum) {
                Err(error) => Some(error),
                Ok(_) => None,
            }
        }
    }

    /// Why a boundary ends the attempt before any rate work, if it does.
    pub open spec fn begin_failure(
        self,
        attempt: SharedAttempt,
        observation: GraphClockObservation,
        system: GraphSystemInput<'_>,
        output_lengths: Seq<usize>,
    ) -> Option<BridgeError> {
        let quantum = observation.quantum_frames;
        if self.clock_failure(attempt, observation) is Some {
            self.clock_failure(attempt, observation)
        } else if system_failure(system, quantum) is Some {
            system_failure(system, quantum)
        } else {
            match wrong_length(output_lengths, quantum) {
                Some(actual) => Some(BridgeError::OutputLength { expected: quantum, actual }),
                None => None,
            }
        }
    }

    /// The boundary that is admitted for a clock sample.
    pub open spec fn cycle(bridge: SharedBridge, observation: GraphClockObservation) -> GraphCycle {
        let start = observation.clock.frame_position.frames;
        GraphCycle {
            rate: RateCycle {
                role: BridgeClockDomain::PipeWireGraph,
                domain: BridgeClockDomain::WaveCapture,
                state: bridge.attempt.state,
                output_clock: observation.clock,
                input_clock: match bridge.capture_observation.value {
                    Some(sample) => Some(sample.clock),
                    None => None,
                },
                fill: bridge.capture_ring.fill() as usize,
            },
            observation,
            start_frame: start,
            end_frame: (start + observation.quantum_frames) as u64,
        }
    }

    fn validate_clock(&self, attempt: &SharedAttempt, observation: GraphClockObservation) -> (result:
        Result<u64, BridgeError>)
        ensures
            result == match self.clock_failure(*attempt, observation) {
                Some(error) => Err::<u64, BridgeError>(error),
                None => Ok::<u64, BridgeError>(
                    (observation.clock.frame_position.frames + observation.quantum_frames) as u64,
                ),
            },
    {
        let domain = BridgeClockDomain::PipeWireGraph;
        let clock = observation.clock();
        let quantum_frames: usize = observation.quantum_frames();
        let start_frame: u64 = clock.frame_position.frames;
        if quantum_frames == 0 || quantum_frames > self.maximum_quantum {
            return Err(
                BridgeError::InvalidQuantum {
                    actual: quantum_frames,
                    maximum: self.maximum_quantum,
                },
            );
        }
        if let Some(expected) = self.fixed_quantum {
            if expected != quantum_frames {
                return Err(BridgeError::FixedQuantumChanged { expected, actual: quantum_frames });
            }
        }
        validate_observation_epoch(attempt.attempt_epoch, domain, clock)?;
        validate_clock_progress(domain, self.last_observation, clock, true)?;
        if let Some(previous) = self.last_observation {
            let expected: u64 = checked_end(
                domain,
                previous.frame_position.frames,
                quantum_frames,
            )?;
            if expected != start_frame {
                return Err(
                    BridgeError::Discontinuity { domain, expected, actual: start_frame },
                );
            }
        }
        checked_end(domain, start_frame, quantum_frames)
    }

    /// Admits one graph boundary and prepares its System input.
    ///
    /// `output_lengths` are the lengths of the six public output buffers.
    pub fn begin(
        &mut self,
        bridge: &mut SharedBridge,
        observation: GraphClockObservation,
        system: GraphSystemInput<'_>,
        output_lengths: &[usize],
    ) -> (result: Result<GraphCycle, BridgeError>)
        requires
            old(self).wf(),
            old(bridge).wf(),
        ensures
            final(self).wf(),
            *final(self) == (GraphClockProcessor {
                system_input: final(self).system_input,
                ..*old(self)
            }),
            final(bridge).same_handover(*old(bridge)),
            match graph_state_refusal(old(bridge).attempt.state) {
                Some(error) => {
                    &&& result == Err::<GraphCycle, BridgeError>(error)
                    &&& final(bridge).attempt == old(bridge).attempt
                },
                None => match old(self).begin_failure(
                    old(bridge).attempt,
                    observation,
                    system,
                    output_lengths@,
                ) {
                    Some(error) => {
                        &&& result == Err::<GraphCycle, BridgeError>(error)
                        &&& final(bridge).attempt == old(bridge).attempt.faulted()
                    },
                    None => {
                        &&& result == Ok::<GraphCycle, BridgeError>(
                            Self::cycle(*old(bridge), observation),
                        )
                        &&& final(self).holds(result->Ok_0)
                        &&& final(bridge).attempt == old(bridge).attempt.entered(
                            BridgeClockDomain::PipeWireGraph,
                        )
                        &&& final(self).system_input@.take(2 * observation.quantum_frames as int)
                            == system_samples(system, observation.quantum_frames)
                    },
                },
            },
    {
        let role = BridgeClockDomain::PipeWireGraph;
        bridge.attempt.enter(role);
        let state = match attempt_state(&bridge.attempt) {
            Ok(state) => state,
            Err(error) => {
                bridge.attempt.leave(role);
                return Err(error);
            },
        };
        let admitted = match state {
            BridgeState::CaptureFilterDelay => true,
            BridgeState::CaptureEstimatorPriming => true,
            BridgeState::PlaybackPriming => true,
            BridgeState::PlaybackFilterDelay => true,
            BridgeState::PlaybackEstimatorPriming => true,
            BridgeState::PlaybackStabilizing => true,
            BridgeState::Active => true,
            _ => false,
        };
        if !admitted {
            bridge.attempt.leave(role);
            return Err(BridgeError::State { actual: state });
        }
        let end_frame: u64 = match self.validate_clock(&bridge.attempt, observation) {
            Ok(end_frame) => end_frame,
            Err(error) => {
                return Err(bridge.attempt.fail(role, error));
            },
        };
        let quantum_frames: usize = observation.quantum_frames();
        let sample_count: usize = quantum_frames * 2;
        let (samples, _rest) = self.system_input.as_mut_slice().split_at_mut(sample_count);
        let prepared = prepare_system_input(system, quantum_frames, samples);
        if let Err(error) = prepared {
            return Err(bridge.attempt.fail(role, error));
        }
        proof {
            if system_failure(system, quantum_frames) is None {
                assert(self.system_input@.take(2 * quantum_frames as int) =~= system_samples(
                    system,
                    quantum_frames,
                ));
            }
        }
        if let Err(error) = validate_output_lengths(output_lengths, quantum_frames) {
            return Err(bridge.attempt.fail(role, error));
        }
        let fill: usize = match bridge.capture_ring.available_frames() {
            Ok(fill) => fill,
            Err(error) => {
                return Err(
                    bridge.attempt.fail(role, map_sequence(error, BridgeClockDomain::WaveCapture)),
                );
            },
        };
        let input_clock = match bridge.capture_observation.peek() {
            Ok(sample) => Some(sample.clock()),
            Err(_) => None,
        };
        Ok(
            GraphCycle {
                rate: RateCycle {
                    role,
                    domain: BridgeClockDomain::WaveCapture,
                    state,
                    output_clock: observation.clock(),
                    input_clock,
                    fill,
                },
                observation,
                start_frame: observation.clock().frame_position.frames,
                end_frame,
            },
        )
    }

    /// Why no capture input can be taken for a boundary, if it cannot.
    pub open spec fn input_failure(bridge: SharedBridge, prepared: Result<usize, RateFailure>)
        -> Option<BridgeError> {
        match prepared {
            Err(failure) => Some(rate_failure(failure, BridgeClockDomain::WaveCapture)),
            Ok(input_frames) => match bridge.capture_ring.peek_refusal(input_frames as nat) {
                Some(error) => Some(peek_failure(error, BridgeClockDomain::WaveCapture)),
                None => None,
            },
        }
    }

    /// Reads ahead the capture frames that the matcher asked for; `prepared` is
    /// the outcome of the controller and of preparing the matcher.
    pub fn take_input(
        &mut self,
        bridge: &mut SharedBridge,
        cycle: GraphCycle,
        prepared: Result<usize, RateFailure>,
    ) -> (result: Result<usize, BridgeError>)
        requires
            old(self).wf(),
            old(self).holds(cycle),
            old(bridge).wf(),
            prepared is Ok ==> prepared->Ok_0 <= old(self).capture_input@.len(),
        ensures
            final(self).wf(),
            final(self).capture_input@.len() == old(self).capture_input@.len(),
            *final(self) == (GraphClockProcessor {
                capture_input: final(self).capture_input,
                ..*old(self)
            }),
            final(bridge).wf(),
            match Self::input_failure(*old(bridge), prepared) {
                Some(error) => {
                    &&& result == Err::<usize, BridgeError>(error)
                    &&& final(bridge).attempt == old(bridge).attempt.faulted().left(
                        BridgeClockDomain::PipeWireGraph,
                    )
                    &&& final(bridge).same_handover(*old(bridge))
                },
                None => {
                    let frames = prepared->Ok_0;
                    &&& result == Ok::<usize, BridgeError>(frames)
                    &&& frames <= old(bridge).capture_ring.fill()
                    &&& final(self).capture_input@.take(frames as int) == old(
                        bridge,
                    ).capture_ring.queued().take(frames as int)
                    &&& *final(bridge) == (SharedBridge {
                        capture_ring: old(bridge).capture_ring.reading_ahead(frames),
                        ..*old(bridge)
                    })
                    &&& final(bridge).capture_ring.queued() == old(bridge).capture_ring.queued()
                },
            },
    {
        let domain = BridgeClockDomain::WaveCapture;
        let input_frames: usize = match prepared {
            Ok(input_frames) => input_frames,
            Err(failure) => {
                return Err(bridge.attempt.fail(cycle.rate.role, map_rate(failure, domain)));
            },
        };
        let (input, _rest) = self.capture_input.as_mut_slice().split_at_mut(input_frames);
        let peeked = bridge.capture_ring.peek_exact(input);
        if let Err(error) = peeked {
            return Err(bridge.attempt.fail(cycle.rate.role, map_peek(error, domain)));
        }
        proof {
            assert(self.capture_input@.take(input_frames as int) =~= old(
                bridge,
            ).capture_ring.queued().take(input_frames as int));
        }
        Ok(input_frames)
    }

    /// Gives up a boundary whose matcher failed.
    pub fn abandon(&self, bridge: &mut SharedBridge, cycle: GraphCycle, error: RateMatchError)
        -> (failure: BridgeError)
        requires
            old(bridge).wf(),
            self.holds(cycle),
        ensures
            final(bridge).wf(),
            failure == (BridgeError::Asrc { domain: BridgeClockDomain::WaveCapture, error }),
            graph_abandoned(*old(bridge), *final(bridge)),
    {
        bridge.capture_ring.cancel_peek();
        let failure = BridgeError::Asrc { domain: BridgeClockDomain::WaveCapture, error };
        bridge.attempt.fail(cycle.rate.role, failure)
    }

    /// Copies each matched mono sample to both microphone channels.
    pub fn spread_microphone(&mut self, cycle: GraphCycle)
        requires
            old(self).wf(),
            old(self).holds(cycle),
        ensures
            final(self).wf(),
            *final(self) == (GraphClockProcessor {
                microphone_input: final(self).microphone_input,
                ..*old(self)
            }),
            final(self).microphone_input@.take(2 * cycle.observation.quantum_frames as int)
                == interleaved(
                old(self).capture_matched@.take(cycle.observation.quantum_frames as int),
                old(self).capture_matched@.take(cycle.observation.quantum_frames as int),
            ),
            forall|i: int|
                0 <= i < cycle.observation.quantum_frames ==> final(self).microphone_input@[2 * i]
                    == #[trigger] old(self).capture_matched@[i],
            forall|i: int|
                0 <= i < cycle.observation.quantum_frames ==> final(self).microphone_input@[2 * i
                    + 1] == #[trigger] old(self).capture_matched@[i],
    {
        let quantum_frames: usize = cycle.observation.quantum_frames();
        let ghost matched = self.capture_matched@.take(quantum_frames as int);
        for frame in 0..quantum_frames
            invariant
                self.wf(),
                quantum_frames <= self.maximum_quantum,
                matched == old(self).capture_matched@.take(quantum_frames as int),
                *self == (GraphClockProcessor {
                    microphone_input: self.microphone_input,
                    ..*old(self)
                }),
                forall|i: int|
                    0 <= i < 2 * frame ==> #[trigger] self.microphone_input@[i] == interleaved(
                        matched,
                        matched,
                    )[i],
        {
            let sample: u32 = self.capture_matched[frame];
            self.microphone_input[frame * 2] = sample;
            self.microphone_input[frame * 2 + 1] = sample;
        }
        proof {
            assert(self.microphone_input@.take(2 * quantum_frames as int) =~= interleaved(
                matched,
                matched,
            ));
            assert forall|i: int| 0 <= i < quantum_frames implies self.microphone_input@[2 * i]
                == #[trigger] old(self).capture_matched@[i] && self.microphone_input@[2 * i + 1]
                == old(self).capture_matched@[i] by {
                assert(interleaved(matched, matched)[2 * i] == matched[i]);
                assert(interleaved(matched, matched)[2 * i + 1] == matched[i]);
            }
        }
    }

    /// Why the mixed output of a boundary ends the attempt, if it does.
    pub open spec fn finish_failure(
        self,
        bridge: SharedBridge,
        cycle: GraphCycle,
        mixed: Result<bool, ProcessError>,
    ) -> Option<BridgeError> {
        let samples = 2 * cycle.observation.quantum_frames as int;
        let microphone = self.microphone_output@.take(samples);
        let monitor = self.monitor_output@.take(samples);
        let stream = self.stream_output@.take(samples);
        let domain = BridgeClockDomain::PipeWireGraph;
        match mixed {
            Err(error) => Some(BridgeError::Engine(error)),
            Ok(_) => if !all_finite(microphone) {
                Some(
                    BridgeError::NonFinite {
                        domain,
                        sample_index: finite_prefix(microphone) as usize,
                    },
                )
            } else if !all_finite(monitor) {
                Some(
                    BridgeError::NonFinite {
                        domain,
                        sample_index: finite_prefix(monitor) as usize,
                    },
                )
            } else if !all_finite(stream) {
                Some(
                    BridgeError::NonFinite { domain, sample_index: finite_prefix(stream) as usize },
                )
            } else {
                match bridge.playback_ring.push_refusal(monitor) {
                    Some(error) => Some(push_failure(error, BridgeClockDomain::WavePlayback)),
                    None => None,
                }
            },
        }
    }

    /// The complete outcome of a boundary for one outcome of the mixer.
    pub open spec fn finished(
        self,
        after: Self,
        before_bridge: SharedBridge,
        after_bridge: SharedBridge,
        cycle: GraphCycle,
        measured: bool,
        mixed: Result<bool, ProcessError>,
        result: Result<GraphProcessReport, BridgeError>,
    ) -> bool {
        match self.finish_failure(before_bridge, cycle, mixed) {
            Some(error) => {
                &&& result == Err::<GraphProcessReport, BridgeError>(error)
                &&& after == self
                &&& graph_abandoned(before_bridge, after_bridge)
            },
            None => {
                let frames = cycle.observation.quantum_frames;
                let samples = 2 * frames as int;
                let playback_fill = before_bridge.playback_ring.fill() + frames;
                &&& result == Ok::<GraphProcessReport, BridgeError>(
                    (GraphProcessReport {
                        start_frame: cycle.start_frame,
                        end_frame: cycle.end_frame,
                        frames,
                        capture_input_frames: before_bridge.capture_ring.pending_frames->Some_0,
                        control_update_applied: mixed->Ok_0,
                        delivery: delivery_in(cycle.rate.state),
                        observation_publication: publication_into(
                            before_bridge.graph_observation,
                        ),
                    }),
                )
                &&& after == (GraphClockProcessor {
                    last_observation: Some(cycle.observation.clock),
                    fixed_quantum: Some(frames),
                    ..self
                })
                &&& after_bridge.attempt == graph_finished(
                    before_bridge.attempt,
                    cycle.rate.state,
                    frames,
                    playback_fill,
                    measured,
                ).left(BridgeClockDomain::PipeWireGraph)
                &&& after_bridge.capture_ring.released_from(before_bridge.capture_ring)
                &&& after_bridge.playback_ring.pushed_from(
                    before_bridge.playback_ring,
                    self.monitor_output@.take(samples),
                )
                &&& after_bridge.capture_observation == (if cycle.rate.input_clock is Some {
                    CopySlot { value: None }
                } else {
                    before_bridge.capture_observation
                })
                &&& after_bridge.graph_observation == offered(
                    before_bridge.graph_observation,
                    cycle.observation,
                )
            },
        }
    }

    fn validate_mix(
        &self,
        bridge: &SharedBridge,
        cycle: GraphCycle,
        mixed: Result<bool, ProcessError>,
    ) -> (result: Result<bool, BridgeError>)
        requires
            self.wf(),
            self.holds(cycle),
            bridge.wf(),
        ensures
            result == match self.finish_failure(*bridge, cycle, mixed) {
                Some(error) => Err::<bool, BridgeError>(error),
                None => Ok::<bool, BridgeError>(mixed->Ok_0),
            },
    {
        let control_update_applied: bool = match mixed {
            Ok(applied) => applied,
            Err(error) => {
                return Err(BridgeError::Engine(error));
            },
        };
        let sample_count: usize = cycle.observation.quantum_frames() * 2;
        validate_finite_output(
            slice_subrange(self.microphone_output.as_slice(), 0, sample_count),
        )?;
        validate_finite_output(slice_subrange(self.monitor_output.as_slice(), 0, sample_count))?;
        validate_finite_output(slice_subrange(self.stream_output.as_slice(), 0, sample_count))?;
        let monitor = slice_subrange(self.monitor_output.as_slice(), 0, sample_count);
        match bridge.playback_ring.prepare_push(monitor) {
            Ok(_) => Ok(control_update_applied),
            Err(error) => Err(map_push(error, BridgeClockDomain::WavePlayback)),
        }
    }

    /// Delivers or discards the mixed output and commits every handover of the
    /// boundary, or commits nothing; `mixed` tells whether a control update was
    /// applied, or why the mixer gave no output.
    pub fn finish(
        &mut self,
        bridge: &mut SharedBridge,
        cycle: GraphCycle,
        request: RateRequest,
        mixed: Result<bool, ProcessError>,
        outputs: GraphOutputBuffers<'_>,
    ) -> (result: Result<GraphProcessReport, BridgeError>)
        requires
            old(self).wf(),
            old(self).holds(cycle),
            old(bridge).wf(),
            old(bridge).capture_ring.pending_frames is Some,
            old(outputs.microphone_left)@.len() == cycle.observation.quantum_frames,
            old(outputs.microphone_right)@.len() == cycle.observation.quantum_frames,
            old(outputs.monitor_left)@.len() == cycle.observation.quantum_frames,
            old(outputs.monitor_right)@.len() == cycle.observation.quantum_frames,
            old(outputs.stream_left)@.len() == cycle.observation.quantum_frames,
            old(outputs.stream_right)@.len() == cycle.observation.quantum_frames,
        ensures
            final(self).wf(),
            final(bridge).wf(),
            old(self).finished(
                *final(self),
                *old(bridge),
                *final(bridge),
                cycle,
                request.measured,
                mixed,
                result,
            ),
            output_after(
                cycle,
                result is Ok,
                old(self).microphone_output@,
                (old(outputs.microphone_left)@, old(outputs.microphone_right)@),
                (final(outputs.microphone_left)@, final(outputs.microphone_right)@),
            ),
            output_after(
                cycle,
                result is Ok,
                old(self).monitor_output@,
                (old(outputs.monitor_left)@, old(outputs.monitor_right)@),
                (final(outputs.monitor_left)@, final(outputs.monitor_right)@),
            ),
            output_after(
                cycle,
                result is Ok,
                old(self).stream_output@,
                (old(outputs.stream_left)@, old(outputs.stream_right)@),
                (final(outputs.stream_left)@, final(outputs.stream_right)@),
            ),
            result is Ok ==> heard_after(
                old(bridge).playback_ring.queued(),
                final(bridge).playback_ring.queued(),
                old(self).monitor_output@,
                cycle.observation.quantum_frames,
            ),
            result is Ok ==> final(bridge).capture_ring.queued() == old(
                bridge,
            ).capture_ring.queued().skip(old(bridge).capture_ring.pending_frames->Some_0 as int),
            result is Ok && cycle.rate.state == BridgeState::Active ==> forall|i: int|
                #![trigger final(outputs.microphone_left)@[i]]
                #![trigger final(outputs.microphone_right)@[i]]
                0 <= i < cycle.observation.quantum_frames ==> {
                    &&& final(outputs.microphone_left)@[i] == old(self).microphone_output@[2 * i]
                    &&& final(outputs.microphone_right)@[i] == old(self).microphone_output@[2 * i
                        + 1]
                },
            result is Ok && cycle.rate.state == BridgeState::Active ==> forall|i: int|
                #![trigger final(outputs.monitor_left)@[i]]
                #![trigger final(outputs.monitor_right)@[i]]
                0 <= i < cycle.observation.quantum_frames ==> {
                    let tail = old(bridge).playback_ring.queued().len();
                    let heard = final(bridge).playback_ring.queued();
                    &&& final(outputs.monitor_left)@[i] == old(self).monitor_output@[2 * i]
                    &&& final(outputs.monitor_right)@[i] == old(self).monitor_output@[2 * i + 1]
                    &&& heard[tail + 2 * i] == final(outputs.monitor_left)@[i]
                    &&& heard[tail + 2 * i + 1] == final(outputs.monitor_right)@[i]
                },
            result is Ok && cycle.rate.state == BridgeState::Active ==> forall|i: int|
                #![trigger final(outputs.stream_left)@[i]]
                #![trigger final(outputs.stream_right)@[i]]
                0 <= i < cycle.observation.quantum_frames ==> {
                    &&& final(outputs.stream_left)@[i] == old(self).stream_output@[2 * i]
                    &&& final(outputs.stream_right)@[i] == old(self).stream_output@[2 * i + 1]
                },
            result is Ok && cycle.rate.state != BridgeState::Active ==> forall|i: int|
                #![trigger final(outputs.microphone_left)@[i]]
                #![trigger final(outputs.monitor_left)@[i]]
                #![trigger final(outputs.stream_left)@[i]]
                0 <= i < cycle.observation.quantum_frames ==> {
                    &&& final(outputs.microphone_left)@[i] == 0
                    &&& final(outputs.microphone_right)@[i] == 0
                    &&& final(outputs.monitor_left)@[i] == 0
                    &&& final(outputs.monitor_right)@[i] == 0
                    &&& final(outputs.stream_left)@[i] == 0
                    &&& final(outputs.stream_right)@[i] == 0
                },
    {
        let control_update_applied: bool = match self.validate_mix(bridge, cycle, mixed) {
            Ok(applied) => applied,
            Err(error) => {
                bridge.capture_ring.cancel_peek();
                return Err(bridge.attempt.fail(cycle.rate.role, error));
            },
        };
        let quantum_frames: usize = cycle.observation.quantum_frames();
        let sample_count: usize = quantum_frames * 2;
        let delivery = graph_delivery(cycle.rate.state);
        let microphone = slice_subrange(self.microphone_output.as_slice(), 0, sample_count);
        let monitor = slice_subrange(self.monitor_output.as_slice(), 0, sample_count);
        let stream = slice_subrange(self.stream_output.as_slice(), 0, sample_count);
        if delivery == GraphBoundaryDelivery::Delivered {
            deinterleave(microphone, outputs.microphone_left, outputs.microphone_right);
            deinterleave(monitor, outputs.monitor_left, outputs.monitor_right);
            deinterleave(stream, outputs.stream_left, outputs.stream_right);
        } else {
            fill_silence(outputs.microphone_left);
            fill_silence(outputs.microphone_right);
            fill_silence(outputs.monitor_left);
            fill_silence(outputs.monitor_right);
            fill_silence(outputs.stream_left);
            fill_silence(outputs.stream_right);
        }
        let capture_input_frames: usize = match bridge.capture_ring.pending_frames {
            Some(frames) => frames,
            None => 0,
        };
        let _ = bridge.capture_ring.commit_peek();
        let _ = bridge.playback_ring.try_push(monitor);
        let playback_fill: usize = match bridge.playback_ring.available_frames() {
            Ok(fill) => fill,
            Err(_) => 0,
        };
        if cycle.rate.input_clock.is_some() {
            let _ = bridge.capture_observation.try_take();
        }
        let observation_publication = offer(&mut bridge.graph_observation, cycle.observation);
        self.last_observation = Some(cycle.observation.clock());
        self.fixed_quantum = Some(quantum_frames);
        finish_boundary(
            &mut bridge.attempt,
            cycle.rate.state,
            quantum_frames,
            playback_fill,
            request.measured,
        );
        bridge.attempt.leave(cycle.rate.role);
        Ok(
            GraphProcessReport {
                start_frame: cycle.start_frame,
                end_frame: cycle.end_frame,
                frames: quantum_frames,
                capture_input_frames,
                control_update_applied,
                delivery,
                observation_publication,
            },
        )
    }
}

/// Advances the lifecycle after a finished graph boundary.
pub fn finish_boundary(
    attempt: &mut SharedAttempt,
    starting_state: BridgeState,
    quantum_frames: usize,
    playback_fill: usize,
    estimator_measured: bool,
)
    ensures
        *final(attempt) == graph_finished(
            *old(attempt),
            starting_state,
            quantum_frames,
            playback_fill as int,
            estimator_measured,
        ),
{
    if starting_state == BridgeState::CaptureFilterDelay {
        let remaining: usize = attempt.capture_delay_remaining.saturating_sub(quantum_frames);
        attempt.capture_delay_remaining = remaining;
        if remaining == 0 {
            let next = if estimator_measured {
                BridgeState::PlaybackPriming
            } else {
                BridgeState::CaptureEstimatorPriming
            };
            let _ = attempt.transition(BridgeState::CaptureFilterDelay, next);
        }
    } else if starting_state == BridgeState::CaptureEstimatorPriming && estimator_measured {
        let _ = attempt.transition(
            BridgeState::CaptureEstimatorPriming,
            BridgeState::PlaybackPriming,
        );
    } else if starting_state == BridgeState::PlaybackPriming && playback_fill
        >= attempt.playback_target {
        let _ = attempt.transition(
            BridgeState::PlaybackPriming,
            BridgeState::PlaybackFilterDelay,
        );
    }
}

/// Checks that a mixed block is finite.
pub fn validate_finite_output(samples: &[u32]) -> (result: Result<(), BridgeError>)
    ensures
        result == if all_finite(samples@) {
            Ok::<(), BridgeError>(())
        } else {
            Err::<(), BridgeError>(
                BridgeError::NonFinite {
                    domain: BridgeClockDomain::PipeWireGraph,
                    sample_index: finite_prefix(samples@) as usize,
                },
            )
        },
{
    proof {
        crate::audio_host::sample::lemma_all_finite(samples@);
    }
    match find_nonfinite(samples) {
        Some(sample_index) => Err(
            BridgeError::NonFinite { domain: BridgeClockDomain::PipeWireGraph, sample_index },
        ),
        None => Ok(()),
    }
}

/// Splits interleaved stereo into its two channels.
pub fn deinterleave(samples: &[u32], left: &mut [u32], right: &mut [u32])
    requires
        samples@.len() == 2 * old(left)@.len(),
        old(left)@.len() == old(right)@.len(),
    ensures
        final(left)@ == channel_of(samples@, 0),
        final(right)@ == channel_of(samples@, 1),
        forall|i: int| 0 <= i < final(left)@.len() ==> #[trigger] final(left)@[i] == samples@[2 * i],
        forall|i: int|
            0 <= i < final(right)@.len() ==> #[trigger] final(right)@[i] == samples@[2 * i + 1],
{
    let frames: usize = left.len();
    let length: usize = samples.len();
    for index in 0..frames
        invariant
            length == 2 * frames,
            samples@.len() == length,
            left@.len() == frames,
            right@.len() == frames,
            forall|i: int| 0 <= i < index ==> #[trigger] left@[i] == samples@[2 * i],
            forall|i: int| 0 <= i < index ==> #[trigger] right@[i] == samples@[2 * i + 1],
    {
        left[index] = samples[index * 2];
        right[index] = samples[index * 2 + 1];
    }
    proof {
        assert(left@ =~= channel_of(samples@, 0));
        assert(right@ =~= channel_of(samples@, 1));
    }
}

/// Whether the frames queued for the headphones grew from `before` to `after` by
/// exactly one quantum of the interleaved Monitor Mix.
pub open spec fn heard_after(
    before: Seq<u32>,
    after: Seq<u32>,
    monitor: Seq<u32>,
    frames: usize,
) -> bool {
    &&& after.len() == before.len() + 2 * frames
    &&& forall|i: int| 0 <= i < before.len() ==> #[trigger] after[i] == before[i]
    &&& forall|i: int|
        before.len() <= i < after.len() ==> #[trigger] after[i] == monitor[i - before.len()]
}

/// The headphones hear the Monitor Mix and nothing else: a committed boundary
/// appends the mixer's monitor samples, in order, to the playback FIFO; what an
/// active attempt puts into the public monitor channels is the same audio, the
/// left channel in the even and the right one in the odd samples. The capture
/// frames that were read ahead are gone.
pub proof fn law_headphones_hear_the_monitor_mix(
    processor: GraphClockProcessor,
    after: GraphClockProcessor,
    before_bridge: SharedBridge,
    after_bridge: SharedBridge,
    cycle: GraphCycle,
    measured: bool,
    mixed: Result<bool, ProcessError>,
    report: GraphProcessReport,
    before_monitor: (Seq<u32>, Seq<u32>),
    monitor: (Seq<u32>, Seq<u32>),
)
    requires
        processor.wf(),
        processor.holds(cycle),
        before_bridge.wf(),
        before_bridge.capture_ring.pending_frames is Some,
        processor.finished(
            after,
            before_bridge,
            after_bridge,
            cycle,
            measured,
            mixed,
            Ok(report),
        ),
        output_after(cycle, true, processor.monitor_output@, before_monitor, monitor),
    ensures
        heard_after(
            before_bridge.playback_ring.queued(),
            after_bridge.playback_ring.queued(),
            processor.monitor_output@,
            cycle.observation.quantum_frames,
        ),
        cycle.rate.state == BridgeState::Active ==> {
            let tail = before_bridge.playback_ring.queued().len();
            &&& monitor.0.len() == cycle.observation.quantum_frames
            &&& monitor.1.len() == cycle.observation.quantum_frames
            &&& forall|i: int|
                #![trigger monitor.0[i]]
                #![trigger monitor.1[i]]
                0 <= i < cycle.observation.quantum_frames ==> {
                    &&& after_bridge.playback_ring.queued()[tail + 2 * i] == monitor.0[i]
                    &&& after_bridge.playback_ring.queued()[tail + 2 * i + 1] == monitor.1[i]
                }
        },
        report.frames == cycle.observation.quantum_frames,
        report.capture_input_frames == before_bridge.capture_ring.pending(),
        after_bridge.capture_ring.queued() == before_bridge.capture_ring.queued().skip(
            before_bridge.capture_ring.pending(),
        ),
{
}

/// Interleaving puts the left channel into the even and the right channel into the
/// odd samples.
pub proof fn law_interleaving_alternates_the_channels(left: Seq<u32>, right: Seq<u32>)
    requires
        left.len() == right.len(),
    ensures
        interleaved(left, right).len() == 2 * left.len(),
        forall|i: int|
            #![trigger left[i]]
            #![trigger right[i]]
            0 <= i < left.len() ==> {
                &&& interleaved(left, right)[2 * i] == left[i]
                &&& interleaved(left, right)[2 * i + 1] == right[i]
            },
{
}

/// Splitting what was interleaved gives both channels back.
pub proof fn law_deinterleave_undoes_interleave(left: Seq<u32>, right: Seq<u32>)
    requires
        left.len() == right.len(),
    ensures
        channel_of(interleaved(left, right), 0) == left,
        channel_of(interleaved(left, right), 1) == right,
{
    assert(channel_of(interleaved(left, right), 0) =~= left);
    assert(channel_of(interleaved(left, right), 1) =~= right);
}

/// Only an active attempt delivers audio; every earlier boundary is silent.
pub proof fn law_only_active_delivers(state: BridgeState)
    ensures
        delivery_in(state) == GraphBoundaryDelivery::Delivered <==> state == BridgeState::Active,
{
}

/// What a committed boundary does besides the audio, told by its inputs and
/// results alone: it remembers its sample and quantum, uses up the capture sample
/// exactly where one was paired, offers its own sample to playback, and reports the
/// frames, positions and the mixer's answer.
pub proof fn law_committed_graph_boundary_moves_everything_together(
    processor: GraphClockProcessor,
    after: GraphClockProcessor,
    before_bridge: SharedBridge,
    after_bridge: SharedBridge,
    cycle: GraphCycle,
    measured: bool,
    mixed: Result<bool, ProcessError>,
    report: GraphProcessReport,
)
    requires
        processor.finished(
            after,
            before_bridge,
            after_bridge,
            cycle,
            measured,
            mixed,
            Ok::<GraphProcessReport, BridgeError>(report),
        ),
        before_bridge.capture_ring.pending_frames is Some,
    ensures
        mixed == Ok::<bool, ProcessError>(report.control_update_applied),
        report.start_frame == cycle.start_frame,
        report.end_frame == cycle.end_frame,
        report.frames == cycle.observation.quantum_frames,
        report.capture_input_frames == before_bridge.capture_ring.pending_frames->Some_0,
        cycle.rate.state == BridgeState::Active <==> report.delivery
            == GraphBoundaryDelivery::Delivered,
        cycle.rate.state == BridgeState::CaptureFilterDelay <==> report.delivery
            == GraphBoundaryDelivery::DiscardedFilterDelay,
        cycle.rate.state == BridgeState::CaptureEstimatorPriming <==> report.delivery
            == GraphBoundaryDelivery::DiscardedEstimatorPriming,
        after.last_observation == Some(cycle.observation.clock),
        after.fixed_quantum == Some(cycle.observation.quantum_frames),
        after.maximum_quantum == processor.maximum_quantum,
        after.microphone_output == processor.microphone_output,
        after.monitor_output == processor.monitor_output,
        after.stream_output == processor.stream_output,
        cycle.rate.input_clock is Some ==> after_bridge.capture_observation.value is None,
        cycle.rate.input_clock is None ==> after_bridge.capture_observation
            == before_bridge.capture_observation,
        before_bridge.graph_observation.value is None ==> after_bridge.graph_observation.value
            == Some(cycle.observation) && report.observation_publication
            == ObservationPublication::Published,
        before_bridge.graph_observation.value is Some ==> after_bridge.graph_observation
            == before_bridge.graph_observation && report.observation_publication
            == ObservationPublication::NotPublishedHandoffFull,
        after_bridge.capture_ring.pending_frames is None,
        after_bridge.playback_ring.pending_frames == before_bridge.playback_ring.pending_frames,
        after_bridge.attempt.playback_in_flight == before_bridge.attempt.playback_in_flight,
        after_bridge.attempt.capture_in_flight == before_bridge.attempt.capture_in_flight,
{
}

/// How the startup of capture proceeds, in terms of the attempt before and after
/// a finished boundary: the filter delay runs down by one quantum at a time, its
/// end leads on to playback once a ratio has been measured, a measured ratio ends
/// estimator priming, and playback priming ends at the playback target.
pub proof fn law_graph_startup_follows_delay_measure_and_fill(
    attempt: SharedAttempt,
    quantum_frames: usize,
    playback_fill: int,
    measured: bool,
)
    ensures
        ({
            let after = graph_finished(
                attempt,
                attempt.state,
                quantum_frames,
                playback_fill,
                measured,
            );
            &&& attempt.state == BridgeState::CaptureFilterDelay && attempt.capture_delay_remaining
                > quantum_frames ==> after == (SharedAttempt {
                capture_delay_remaining: (attempt.capture_delay_remaining
                    - quantum_frames) as usize,
                ..attempt
            })
            &&& attempt.state == BridgeState::CaptureFilterDelay && attempt.capture_delay_remaining
                <= quantum_frames ==> after == (SharedAttempt {
                capture_delay_remaining: 0,
                state: if measured {
                    BridgeState::PlaybackPriming
                } else {
                    BridgeState::CaptureEstimatorPriming
                },
                ..attempt
            })
            &&& attempt.state == BridgeState::CaptureEstimatorPriming ==> after == (SharedAttempt {
                state: if measured {
                    BridgeState::PlaybackPriming
                } else {
                    BridgeState::CaptureEstimatorPriming
                },
                ..attempt
            })
            &&& attempt.state == BridgeState::PlaybackPriming ==> after == (SharedAttempt {
                state: if playback_fill >= attempt.playback_target {
                    BridgeState::PlaybackFilterDelay
                } else {
                    BridgeState::PlaybackPriming
                },
                ..attempt
            })
            &&& attempt.state != BridgeState::CaptureFilterDelay && attempt.state
                != BridgeState::CaptureEstimatorPriming && attempt.state
                != BridgeState::PlaybackPriming ==> after == attempt
        }),
{
}

/// A clock sample is admitted exactly if its quantum is positive, within the
/// ceiling and the one fixed by the first boundary, it is of this attempt, it
/// starts where the last one ended, later than it, and its end is a position.
pub proof fn law_admitted_graph_sample_is_contiguous(
    processor: GraphClockProcessor,
    attempt: SharedAttempt,
    observation: GraphClockObservation,
)
    ensures
        processor.clock_failure(attempt, observation) is None <==> {
            &&& 0 < observation.quantum_frames <= processor.maximum_quantum
            &&& match processor.fixed_quantum {
                Some(quantum) => quantum == observation.quantum_frames,
                None => true,
            }
            &&& observation.clock.epoch == attempt.attempt_epoch
            &&& match processor.last_observation {
                Some(last) => {
                    &&& observation.clock.frame_position.frames == last.frame_position.frames
                        + observation.quantum_frames
                    &&& observation.clock.monotonic_time.nanoseconds
                        > last.monotonic_time.nanoseconds
                },
                None => true,
            }
            &&& observation.clock.frame_position.frames + observation.quantum_frames <= u64::MAX
        },
{
}

/// An admitted boundary is paired with the capture sample and the capture FIFO,
/// and covers exactly its own quantum.
pub proof fn law_graph_boundary_pairs_the_capture_clock(
    processor: GraphClockProcessor,
    bridge: SharedBridge,
    observation: GraphClockObservation,
)
    requires
        bridge.wf(),
        processor.clock_failure(bridge.attempt, observation) is None,
    ensures
        ({
            let cycle = GraphClockProcessor::cycle(bridge, observation);
            &&& cycle.rate.role == BridgeClockDomain::PipeWireGraph
            &&& cycle.rate.domain == BridgeClockDomain::WaveCapture
            &&& cycle.rate.state == bridge.attempt.state
            &&& cycle.rate.output_clock == observation.clock
            &&& cycle.rate.fill == bridge.capture_ring.write_sequence
                - bridge.capture_ring.read_sequence
            &&& match (bridge.capture_observation.value, cycle.rate.input_clock) {
                (Some(sample), Some(clock)) => clock == sample.clock,
                (None, None) => true,
                _ => false,
            }
            &&& cycle.observation == observation
            &&& cycle.start_frame == observation.clock.frame_position.frames
            &&& cycle.end_frame == cycle.start_frame + observation.quantum_frames
        }),
{
}

/// System buffers are admitted exactly if both are there with one quantum of
/// finite samples each where System is connected, and neither where it is not.
pub proof fn law_system_buffers_come_in_pairs(system: GraphSystemInput<'_>, frames: usize)
    ensures
        system_failure(system, frames) is None <==> if system.connected {
            &&& system.left is Some
            &&& system.right is Some
            &&& system.left->Some_0@.len() == frames
            &&& system.right->Some_0@.len() == frames
            &&& all_finite(system.left->Some_0@)
            &&& all_finite(system.right->Some_0@)
        } else {
            system.left is None && system.right is None
        },
{
    if system.connected && system.left is Some && system.right is Some {
        let left = system.left->Some_0@;
        let right = system.right->Some_0@;
        let samples = interleaved(left, right);
        if left.len() == frames && right.len() == frames {
            if all_finite(samples) {
                assert forall|i: int| 0 <= i < left.len() implies finite(#[trigger] left[i]) by {
                    assert(samples[2 * i] == left[i]);
                }
                assert forall|i: int| 0 <= i < right.len() implies finite(#[trigger] right[i]) by {
                    assert(samples[2 * i + 1] == right[i]);
                }
            }
        }
    }
}

/// An output buffer of any other length than the quantum is found, and only such
/// a one.
pub proof fn law_every_output_holds_one_quantum(lengths: Seq<usize>, expected: usize)
    ensures
        wrong_length(lengths, expected) is None <==> forall|i: int|
            0 <= i < lengths.len() ==> #[trigger] lengths[i] == expected,
        match wrong_length(lengths, expected) {
            Some(actual) => actual != expected && exists|i: int|
                0 <= i < lengths.len() && #[trigger] lengths[i] == actual && forall|j: int|
                    0 <= j < i ==> #[trigger] lengths[j] == expected,
            None => true,
        },
    decreases lengths.len(),
{
    if lengths.len() > 0 {
        let rest = lengths.drop_first();
        law_every_output_holds_one_quantum(rest, expected);
        if lengths[0] == expected {
            match wrong_length(rest, expected) {
                Some(actual) => {
                    let k = choose|k: int|
                        0 <= k < rest.len() && #[trigger] rest[k] == actual && forall|j: int|
                            0 <= j < k ==> #[trigger] rest[j] == expected;
                    assert(lengths[k + 1] == actual);
                    assert forall|j: int| 0 <= j < k + 1 implies #[trigger] lengths[j]
                        == expected by {
                        if j > 0 {
                            assert(rest[j - 1] == expected);
                        }
                    }
                },
                None => {
                    assert forall|i: int| 0 <= i < lengths.len() implies #[trigger] lengths[i]
                        == expected by {
                        if i > 0 {
                            assert(rest[i - 1] == expected);
                        }
                    }
                },
            }
        }
    }
}

/// The states in which graph boundaries run, and the refusal in every other.
pub proof fn law_graph_runs_from_the_capture_delay_on(state: BridgeState)
    ensures
        graph_state_refusal(state) is None <==> (state == BridgeState::CaptureFilterDelay || state
            == BridgeState::CaptureEstimatorPriming || state == BridgeState::PlaybackPriming
            || state == BridgeState::PlaybackFilterDelay || state
            == BridgeState::PlaybackEstimatorPriming || state == BridgeState::PlaybackStabilizing
            || state == BridgeState::Active),
        state == BridgeState::Faulted ==> graph_state_refusal(state) == Some(
            BridgeError::AttemptFaulted,
        ),
        state == BridgeState::Quiescing || state == BridgeState::Stopped ==> graph_state_refusal(
            state,
        ) == Some(BridgeError::Teardown),
        state == BridgeState::Allocated || state == BridgeState::CapturePriming || state
            == BridgeState::Primed || state == BridgeState::PrimingCheck ==> graph_state_refusal(
            state,
        ) == Some(BridgeError::State { actual: state }),
{
}

/// A mixed quantum is refused exactly if the mixer failed, one of its three
/// outputs is not finite, or the playback FIFO has no room for it.
pub proof fn law_mixed_quantum_is_finite_and_fits(
    processor: GraphClockProcessor,
    bridge: SharedBridge,
    cycle: GraphCycle,
    mixed: Result<bool, ProcessError>,
)
    requires
        processor.wf(),
        processor.holds(cycle),
        bridge.wf(),
    ensures
        processor.finish_failure(bridge, cycle, mixed) is None <==> {
            let samples = 2 * cycle.observation.quantum_frames as int;
            &&& mixed is Ok
            &&& all_finite(processor.microphone_output@.take(samples))
            &&& all_finite(processor.monitor_output@.take(samples))
            &&& all_finite(processor.stream_output@.take(samples))
            &&& bridge.playback_ring.fill() + cycle.observation.quantum_frames
                <= bridge.playback_ring.capacity_frames
            &&& bridge.playback_ring.write_sequence + cycle.observation.quantum_frames <= u64::MAX
        },
        mixed is Err ==> processor.finish_failure(bridge, cycle, mixed) == Some(
            BridgeError::Engine(mixed->Err_0),
        ),
{
    let samples = 2 * cycle.observation.quantum_frames as int;
    assert(processor.monitor_output@.take(samples).len() == samples);
}

/// What the mixer made is refused for the first sample that is not finite: of the
/// microphone, else of the monitor, else of the stream output.
pub proof fn law_unusable_mix_names_its_sample(
    processor: GraphClockProcessor,
    bridge: SharedBridge,
    cycle: GraphCycle,
    applied: bool,
)
    requires
        processor.wf(),
        processor.holds(cycle),
    ensures
        ({
            let samples = 2 * cycle.observation.quantum_frames as int;
            let microphone = processor.microphone_output@.take(samples);
            let monitor = processor.monitor_output@.take(samples);
            let stream = processor.stream_output@.take(samples);
            let failure = processor.finish_failure(bridge, cycle, Ok(applied));
            let bad = |output: Seq<u32>| BridgeError::NonFinite {
                domain: BridgeClockDomain::PipeWireGraph,
                sample_index: finite_prefix(output) as usize,
            };
            &&& !all_finite(microphone) ==> failure == Some(bad(microphone))
            &&& all_finite(microphone) && !all_finite(monitor) ==> failure == Some(bad(monitor))
            &&& all_finite(microphone) && all_finite(monitor) && !all_finite(stream) ==> failure
                == Some(bad(stream))
        }),
{
}

} // verus!
