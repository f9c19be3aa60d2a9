//! Bounded capture-clock transport between Linux audio and the portable engine.

use crate::audio_host::clock_bridge::errors::{MixerProfileError, ProcessError, StageError};
use crate::audio_host::clock_bridge::graph::{fill_silence, silence};
use crate::audio_host::clock_bridge::spsc::{allocate_filled, allocate_silence};
use crate::audio_host::endpoints::EndpointId;
use crate::audio_host::sample::{
    all_finite, dequantize, find_nonfinite, finite, finite_prefix,
    law_finite_prefix_ends_at_the_first_bad_sample, lemma_all_finite, quantize, quantized,
    sample_of,
};
use crate::text::{decimal, decimal_text};
use vstd::arithmetic::power2::lemma2_to64;
use vstd::prelude::*;
use vstd::slice::slice_subrange;
use vstd::string::*;

pub mod boundary;

verus! {

/// A refusal of an engine layout, by its code.
#[derive(Clone, Copy, Debug, Eq, PartialEq, Structural)]
pub struct ConfigError {
    pub code: u32,
}

/// Why the current mixer profile could not be staged.
#[derive(Clone, Copy, Debug, Eq, PartialEq, Structural)]
pub enum TransportControlError {
    Profile(MixerProfileError),
    Stage(StageError),
}

impl TransportControlError {
    /// The text of this error, around the text of the error it carries.
    pub open spec fn text(self, detail: Seq<char>) -> Seq<char> {
        match self {
            TransportControlError::Profile(_) => "invalid mixer profile: "@ + detail,
            TransportControlError::Stage(_) => "mixer controls were not staged: "@ + detail,
        }
    }

    /// Describes this error to a person, around the text of the error it carries.
    pub fn message(&self, detail: &str) -> (message: String)
        ensures
            message@ == self.text(detail@),
    {
        match *self {
            TransportControlError::Profile(_) => {
                String::from_str("invalid mixer profile: ").concat(detail)
            },
            TransportControlError::Stage(_) => {
                String::from_str("mixer controls were not staged: ").concat(detail)
            },
        }
    }
}

/// Reports the staging of the current product profile: first whether the profile
/// is valid, then whether the control handoff took it.
pub fn try_stage_profile(
    profile: Result<(), MixerProfileError>,
    staged: Result<(), StageError>,
) -> (result: Result<(), TransportControlError>)
    ensures
        result == match profile {
            Err(error) => Err::<(), TransportControlError>(TransportControlError::Profile(error)),
            Ok(()) => match staged {
                Err(error) => Err::<(), TransportControlError>(
                    TransportControlError::Stage(error),
                ),
                Ok(()) => Ok::<(), TransportControlError>(()),
            },
        },
{
    match profile {
        Err(error) => Err(TransportControlError::Profile(error)),
        Ok(()) => match staged {
            Err(error) => Err(TransportControlError::Stage(error)),
            Ok(()) => Ok(()),
        },
    }
}

/// Why a System ingress operation was rejected.
#[derive(Clone, Copy, Debug, Eq, PartialEq, Structural)]
pub enum SystemIngressError {
    Idle,
    EmptyActivation,
    AlreadyActive,
    Faulted,
    PartialFrame { samples: usize },
    NonFinite { sample_index: usize },
    Overflow { requested_frames: usize, remaining_frames: usize, capacity_frames: usize },
}

impl SystemIngressError {
    /// The text of this error.
    pub open spec fn text(self) -> Seq<char> {
        match self {
            SystemIngressError::Idle => "the System endpoint stream is idle"@,
            SystemIngressError::EmptyActivation =>
                "System activation requires at least one complete frame"@,
            SystemIngressError::AlreadyActive => "the System endpoint stream is active"@,
            SystemIngressError::Faulted => "the System endpoint stream has failed"@,
            SystemIngressError::PartialFrame { samples } => "System ingress has "@ + decimal(
                samples as nat,
            ) + " samples, not complete stereo frames"@,
            SystemIngressError::NonFinite { sample_index } => "System ingress sample "@ + decimal(
                sample_index as nat,
            ) + " is not finite"@,
            SystemIngressError::Overflow { requested_frames, remaining_frames, capacity_frames } =>
            "System ingress requested "@ + decimal(requested_frames as nat) + " frames; "@
                + decimal(remaining_frames as nat) + " of "@ + decimal(capacity_frames as nat)
                + " FIFO frames remained"@,
        }
    }

    /// Describes this error to a person.
    pub fn message(&self) -> (message: String)
        ensures
            message@ == self.text(),
    {
        match *self {
            SystemIngressError::Idle => String::from_str("the System endpoint stream is idle"),
            SystemIngressError::EmptyActivation => String::from_str(
                "System activation requires at least one complete frame",
            ),
            SystemIngressError::AlreadyActive => String::from_str(
                "the System endpoint stream is active",
            ),
            SystemIngressError::Faulted => String::from_str(
                "the System endpoint stream has failed",
            ),
            SystemIngressError::PartialFrame { samples } => {
                let mut message = String::from_str("System ingress has ");
                message.append(decimal_text(samples as u64).as_str());
                message.append(" samples, not complete stereo frames");
                message
            },
            SystemIngressError::NonFinite { sample_index } => {
                let mut message = String::from_str("System ingress sample ");
                message.append(decimal_text(sample_index as u64).as_str());
                message.append(" is not finite");
                message
            },
            SystemIngressError::Overflow { requested_frames, remaining_frames, capacity_frames } => {
                let mut message = String::from_str("System ingress requested ");
                message.append(decimal_text(requested_frames as u64).as_str());
                message.append(" frames; ");
                message.append(decimal_text(remaining_frames as u64).as_str());
                message.append(" of ");
                message.append(decimal_text(capacity_frames as u64).as_str());
                message.append(" FIFO frames remained");
                message
            },
        }
    }
}

/// The lifecycle of the System source.
#[derive(Clone, Copy, Debug, Eq, PartialEq, Structural)]
pub enum SystemState {
    Idle,
    Active,
    Faulted,
}

/// The System source's bounded stereo frame FIFO. One slot stays free, so that
/// equal indices always mean an empty FIFO.
#[derive(Debug)]
pub struct SystemRing {
    pub frames: Vec<(u32, u32)>,
    pub write_index: usize,
    pub read_index: usize,
    pub state: SystemState,
    pub overflows: u64,
}

/// Stereo frames as interleaved samples.
pub open spec fn stereo_samples(frames: Seq<(u32, u32)>) -> Seq<u32> {
    Seq::new(
        2 * frames.len(),
        |i: int|
            if i % 2 == 0 {
                frames[i / 2].0
            } else {
                frames[i / 2].1
            },
    )
}

/// Interleaved samples as stereo frames.
pub open spec fn stereo_frames(samples: Seq<u32>) -> Seq<(u32, u32)> {
    Seq::new(samples.len() / 2, |i: int| (samples[2 * i], samples[2 * i + 1]))
}

/// Why a System block is malformed, if it is.
pub open spec fn system_block_refusal(samples: Seq<u32>) -> Option<SystemIngressError> {
    if samples.len() % 2 != 0 {
        Some(SystemIngressError::PartialFrame { samples: samples.len() as usize })
    } else if !all_finite(samples) {
        Some(SystemIngressError::NonFinite { sample_index: finite_prefix(samples) as usize })
    } else {
        None
    }
}

/// Counts the frames of a well-formed System block.
pub fn validate_system_samples(samples: &[u32]) -> (result: Result<usize, SystemIngressError>)
    ensures
        result == match system_block_refusal(samples@) {
            Some(error) => Err::<usize, SystemIngressError>(error),
            None => Ok::<usize, SystemIngressError>((samples@.len() / 2) as usize),
        },
{
    if samples.len() % 2 != 0 {
        return Err(SystemIngressError::PartialFrame { samples: samples.len() });
    }
    proof {
        lemma_all_finite(samples@);
    }
    if let Some(sample_index) = find_nonfinite(samples) {
        return Err(SystemIngressError::NonFinite { sample_index });
    }
    Ok(samples.len() / 2)
}

impl SystemRing {
    /// There is at least the free slot, and both indices name slots.
    pub open spec fn wf(self) -> bool {
        &&& self.frames@.len() > 0
        &&& self.write_index < self.frames@.len()
        &&& self.read_index < self.frames@.len()
    }

    /// The frames this FIFO can hold.
    pub open spec fn capacity(self) -> int {
        self.frames@.len() - 1
    }

    /// The slot `offset` slots behind `index`.
    pub open spec fn slot_after(self, index: int, offset: int) -> int {
        if index + offset < self.frames@.len() {
            index + offset
        } else {
            index + offset - self.frames@.len()
        }
    }

    /// The number of slots from `start` to `end`.
    pub open spec fn distance_between(self, start: int, end: int) -> int {
        if end >= start {
            end - start
        } else {
            self.frames@.len() - start + end
        }
    }

    /// The number of queued frames.
    pub open spec fn fill(self) -> int {
        self.distance_between(self.read_index as int, self.write_index as int)
    }

    /// The queued frames, oldest first.
    pub open spec fn queued(self) -> Seq<(u32, u32)> {
        Seq::new(
            self.fill() as nat,
            |i: int| self.frames@[self.slot_after(self.read_index as int, i)],
        )
    }

    /// Whether this FIFO is new: idle, empty, with the given capacity.
    pub open spec fn is_new(self, capacity_frames: usize) -> bool {
        &&& self.wf()
        &&& self.capacity() == capacity_frames
        &&& self.frames@ == Seq::new((capacity_frames + 1) as nat, |i: int| (0u32, 0u32))
        &&& self.write_index == 0
        &&& self.read_index == 0
        &&& self.queued() == Seq::<(u32, u32)>::empty()
        &&& self.state == SystemState::Idle
        &&& self.overflows == 0
    }

    /// Builds an idle, empty FIFO. A capacity that leaves no room for the free
    /// slot is refused; apart from that only a failed allocation refuses one.
    pub fn try_new(capacity_frames: usize) -> (result: Result<Self, TransportBuildError>)
        ensures
            match result {
                Ok(ring) => ring.is_new(capacity_frames),
                Err(error) => error == if capacity_frames == usize::MAX {
                    TransportBuildError::SystemCapacityOverflow
                } else {
                    TransportBuildError::BufferAllocation
                },
            },
            capacity_frames == usize::MAX ==> result is Err,
    {
        let slots: usize = match capacity_frames.checked_add(1) {
            Some(slots) => slots,
            None => {
                return Err(TransportBuildError::SystemCapacityOverflow);
            },
        };
        Self::from_frames(capacity_frames, allocate_filled(slots, (0u32, 0u32)))
    }

    /// Builds an idle, empty FIFO on the slots that were allocated for it, where
    /// they were.
    pub fn from_frames(capacity_frames: usize, frames: Option<Vec<(u32, u32)>>) -> (result: Result<
        Self,
        TransportBuildError,
    >)
        requires
            match frames {
                Some(frames) => frames@ == Seq::new(
                    (capacity_frames + 1) as nat,
                    |i: int| (0u32, 0u32),
                ),
                None => true,
            },
        ensures
            match frames {
                Some(_) => result is Ok && result->Ok_0.is_new(capacity_frames),
                None => result == Err::<Self, TransportBuildError>(
                    TransportBuildError::BufferAllocation,
                ),
            },
    {
        match frames {
            Some(frames) => {
                let ring = SystemRing {
                    frames,
                    write_index: 0,
                    read_index: 0,
                    state: SystemState::Idle,
                    overflows: 0,
                };
                proof {
                    assert(ring.queued() =~= Seq::<(u32, u32)>::empty());
                }
                Ok(ring)
            },
            None => Err(TransportBuildError::BufferAllocation),
        }
    }

    pub fn capacity_frames(&self) -> (frames: usize)
        requires
            self.wf(),
        ensures
            frames == self.capacity(),
    {
        self.frames.len() - 1
    }

    /// The slot behind `index`.
    pub fn advance(&self, index: usize) -> (next: usize)
        requires
            index < self.frames@.len(),
        ensures
            next == self.slot_after(index as int, 1),
    {
        let slots: usize = self.frames.len();
        if index == slots - 1 {
            0
        } else {
            index + 1
        }
    }

    /// Counts the slots from `start` to `end`.
    pub fn distance(&self, start: usize, end: usize) -> (distance: usize)
        requires
            start < self.frames@.len(),
            end < self.frames@.len(),
        ensures
            distance == self.distance_between(start as int, end as int),
    {
        if end >= start {
            end - start
        } else {
            self.frames.len() - start + end
        }
    }

    /// The frames queued for the transport.
    pub fn available_frames(&self) -> (frames: usize)
        requires
            self.wf(),
        ensures
            frames == self.fill(),
    {
        self.distance(self.read_index, self.write_index)
    }

    /// The frames that can still be queued.
    pub fn free_frames(&self) -> (frames: usize)
        requires
            self.wf(),
        ensures
            frames == self.capacity() - self.fill(),
    {
        self.capacity_frames() - self.available_frames()
    }

    /// The FIFO after a block that does not fit: the stream has failed for good.
    pub open spec fn overflowed(self) -> Self {
        SystemRing {
            overflows: self.overflows.wrapping_add(1),
            state: SystemState::Faulted,
            ..self
        }
    }

    /// The failure of a block that does not fit.
    pub open spec fn overflow_error(self, samples: Seq<u32>) -> SystemIngressError {
        SystemIngressError::Overflow {
            requested_frames: (samples.len() / 2) as usize,
            remaining_frames: (self.capacity() - self.fill()) as usize,
            capacity_frames: self.capacity() as usize,
        }
    }

    /// Whether `samples` fit behind the queued frames.
    pub open spec fn fits(self, samples: Seq<u32>) -> bool {
        samples.len() / 2 <= self.capacity() - self.fill()
    }

    /// Whether `self` is `before` with `samples` queued behind everything else.
    pub open spec fn pushed_from(self, before: Self, samples: Seq<u32>) -> bool {
        &&& self.wf()
        &&& self.capacity() == before.capacity()
        &&& self.overflows == before.overflows
        &&& self.queued() == before.queued() + stereo_frames(samples)
    }

    fn push_validated(&mut self, samples: &[u32]) -> (result: Result<(), SystemIngressError>)
        requires
            old(self).wf(),
            samples@.len() % 2 == 0,
        ensures
            if old(self).fits(samples@) {
                &&& result == Ok::<(), SystemIngressError>(())
                &&& final(self).pushed_from(*old(self), samples@)
                &&& final(self).state == old(self).state
                &&& final(self).read_index == old(self).read_index
            } else {
                &&& result == Err::<(), SystemIngressError>(old(self).overflow_error(samples@))
                &&& *final(self) == old(self).overflowed()
            },
    {
        let frames: usize = samples.len() / 2;
        let remaining_frames: usize = self.free_frames();
        if frames > remaining_frames {
            self.overflows = self.overflows.wrapping_add(1);
            self.state = SystemState::Faulted;
            return Err(
                SystemIngressError::Overflow {
                    requested_frames: frames,
                    remaining_frames,
                    capacity_frames: self.capacity_frames(),
                },
            );
        }
        let ghost before = *self;
        let ghost queued = self.queued();
        let ghost fill = self.fill();
        let length: usize = samples.len();
        let mut index: usize = 0;
        while index < frames
            invariant
                length == samples@.len(),
                length == 2 * frames,
                index <= frames,
                before.wf(),
                self.wf(),
                queued == before.queued(),
                fill == before.fill(),
                fill + frames <= before.capacity(),
                self.frames@.len() == before.frames@.len(),
                self.read_index == before.read_index,
                self.state == before.state,
                self.overflows == before.overflows,
                self.write_index == before.slot_after(before.read_index as int, fill + index),
                forall|i: int|
                    0 <= i < fill + index ==> self.frames@[#[trigger] before.slot_after(
                        before.read_index as int,
                        i,
                    )] == (queued + stereo_frames(samples@))[i],
            decreases frames - index,
        {
            let ghost stored = self.frames@;
            let slot: usize = self.write_index;
            let frame = (samples[2 * index], samples[2 * index + 1]);
            self.frames[slot] = frame;
            self.write_index = self.advance(slot);
            proof {
                assert forall|i: int| 0 <= i < fill + index + 1 implies self.frames@[
                #[trigger] before.slot_after(before.read_index as int, i)] == (queued
                    + stereo_frames(samples@))[i] by {
                    if i < fill + index {
                        assert(before.slot_after(before.read_index as int, i) != slot);
                        assert(self.frames@[before.slot_after(before.read_index as int, i)]
                            == stored[before.slot_after(before.read_index as int, i)]);
                    }
                }
            }
            index = index + 1;
        }
        proof {
            assert(self.fill() == fill + frames);
            assert forall|i: int| 0 <= i < fill + frames implies #[trigger] self.queued()[i] == (
            queued + stereo_frames(samples@))[i] by {
                assert(self.slot_after(self.read_index as int, i) == before.slot_after(
                    before.read_index as int,
                    i,
                ));
            }
            assert(self.queued() =~= queued + stereo_frames(samples@));
        }
        Ok(())
    }

    /// Takes exactly as many frames as `output` holds, or tells how many there
    /// are.
    pub fn try_pop_exact(&mut self, output: &mut [u32]) -> (result: Result<(), usize>)
        requires
            old(self).wf(),
            old(output)@.len() % 2 == 0,
        ensures
            final(self).wf(),
            final(output)@.len() == old(output)@.len(),
            if old(output)@.len() / 2 <= old(self).fill() {
                &&& result == Ok::<(), usize>(())
                &&& final(output)@ == stereo_samples(
                    old(self).queued().take((old(output)@.len() / 2) as int),
                )
                &&& final(self).queued() == old(self).queued().skip(
                    (old(output)@.len() / 2) as int,
                )
                &&& *final(self) == (SystemRing {
                    read_index: final(self).read_index,
                    ..*old(self)
                })
            } else {
                &&& result == Err::<(), usize>(old(self).fill() as usize)
                &&& *final(self) == *old(self)
                &&& final(output)@ == old(output)@
            },
    {
        let length: usize = output.len();
        let frames: usize = length / 2;
        let available_frames: usize = self.available_frames();
        if available_frames < frames {
            return Err(available_frames);
        }
        let ghost before = *self;
        let ghost queued = self.queued();
        let mut index: usize = 0;
        while index < frames
            invariant
                index <= frames,
                length == 2 * frames,
                output@.len() == length,
                before.wf(),
                queued == before.queued(),
                frames <= before.fill(),
                *self == (SystemRing { read_index: self.read_index, ..before }),
                self.read_index == before.slot_after(before.read_index as int, index as int),
                self.wf(),
                forall|i: int|
                    0 <= i < 2 * index ==> #[trigger] output@[i] == stereo_samples(queued)[i],
            decreases frames - index,
        {
            let frame = self.frames[self.read_index];
            output[2 * index] = frame.0;
            output[2 * index + 1] = frame.1;
            self.read_index = self.advance(self.read_index);
            index = index + 1;
        }
        proof {
            assert(output@ =~= stereo_samples(queued.take(frames as int)));
            assert(self.fill() == before.fill() - frames);
            assert(self.queued() =~= queued.skip(frames as int));
        }
        Ok(())
    }
}

/// The sole producer for the System source's bounded stereo frame FIFO.
#[derive(Clone, Copy, Debug, Eq, PartialEq, Structural)]
pub struct SystemIngress;

/// Why the first System block is refused without harm, if it is.
pub open spec fn activation_refusal(state: SystemState, samples: Seq<u32>) -> Option<
    SystemIngressError,
> {
    if state == SystemState::Faulted {
        Some(SystemIngressError::Faulted)
    } else if state == SystemState::Active {
        Some(SystemIngressError::AlreadyActive)
    } else if system_block_refusal(samples) is Some {
        system_block_refusal(samples)
    } else if samples.len() == 0 {
        Some(SystemIngressError::EmptyActivation)
    } else {
        None
    }
}

/// Why a later System block is refused without harm, if it is.
pub open spec fn push_refusal(state: SystemState, samples: Seq<u32>) -> Option<SystemIngressError> {
    if state == SystemState::Idle {
        Some(SystemIngressError::Idle)
    } else if state == SystemState::Faulted {
        Some(SystemIngressError::Faulted)
    } else {
        system_block_refusal(samples)
    }
}

impl SystemIngress {
    /// Publishes the first block and marks the endpoint active.
    ///
    /// Before activation, the System source is intentionally silent. A transport
    /// underrun is possible only after activation.
    pub fn activate_with_first_block(&self, ring: &mut SystemRing, samples: &[u32]) -> (result:
        Result<(), SystemIngressError>)
        requires
            old(ring).wf(),
        ensures
            final(ring).wf(),
            match activation_refusal(old(ring).state, samples@) {
                Some(error) => result == Err::<(), SystemIngressError>(error) && *final(ring)
                    == *old(ring),
                None => if old(ring).fits(samples@) {
                    &&& result == Ok::<(), SystemIngressError>(())
                    &&& final(ring).pushed_from(*old(ring), samples@)
                    &&& final(ring).state == SystemState::Active
                } else {
                    &&& result == Err::<(), SystemIngressError>(old(ring).overflow_error(samples@))
                    &&& *final(ring) == old(ring).overflowed()
                },
            },
    {
        match ring.state {
            SystemState::Idle => {},
            SystemState::Faulted => {
                return Err(SystemIngressError::Faulted);
            },
            SystemState::Active => {
                return Err(SystemIngressError::AlreadyActive);
            },
        }
        let frames: usize = validate_system_samples(samples)?;
        if frames == 0 {
            proof {
                assert(samples.len() == 0);
            }
            return Err(SystemIngressError::EmptyActivation);
        }
        ring.push_validated(samples)?;
        let ghost pushed = *ring;
        ring.state = SystemState::Active;
        proof {
            assert(ring.queued() =~= pushed.queued());
        }
        Ok(())
    }

    /// Adds one finite stereo interleaved block without waiting.
    ///
    /// Blocks may use a different frame count from the ALSA capture period. The
    /// FIFO bridges only the block-size difference; it does not correct
    /// independent-clock drift.
    pub fn try_push_interleaved(&self, ring: &mut SystemRing, samples: &[u32]) -> (result: Result<
        (),
        SystemIngressError,
    >)
        requires
            old(ring).wf(),
        ensures
            final(ring).wf(),
            match push_refusal(old(ring).state, samples@) {
                Some(error) => result == Err::<(), SystemIngressError>(error) && *final(ring)
                    == *old(ring),
                None => if old(ring).fits(samples@) {
                    &&& result == Ok::<(), SystemIngressError>(())
                    &&& final(ring).pushed_from(*old(ring), samples@)
                    &&& final(ring).state == SystemState::Active
                } else {
                    &&& result == Err::<(), SystemIngressError>(old(ring).overflow_error(samples@))
                    &&& *final(ring) == old(ring).overflowed()
                },
            },
    {
        match ring.state {
            SystemState::Idle => {
                return Err(SystemIngressError::Idle);
            },
            SystemState::Faulted => {
                return Err(SystemIngressError::Faulted);
            },
            SystemState::Active => {},
        }
        let _ = validate_system_samples(samples)?;
        ring.push_validated(samples)
    }
}

/// The signed number that four little-endian bytes hold.
pub open spec fn s32_of_bytes(b0: u8, b1: u8, b2: u8, b3: u8) -> int {
    b0 + 0x100 * b1 + 0x1_0000 * b2 + 0x100_0000 * b3 - if b3 >= 0x80 {
        0x1_0000_0000int
    } else {
        0
    }
}

/// The byte at `position` of the four-byte two's complement form of `raw`.
pub open spec fn s32_byte(raw: int, position: int) -> u8 {
    if position == 0 {
        (raw % 0x100) as u8
    } else if position == 1 {
        (raw / 0x100 % 0x100) as u8
    } else if position == 2 {
        (raw / 0x1_0000 % 0x100) as u8
    } else {
        (raw / 0x100_0000 % 0x100) as u8
    }
}

/// The samples of a block of 32-bit little-endian integers.
pub open spec fn decoded_s32(bytes: Seq<u8>) -> Seq<u32> {
    Seq::new(
        bytes.len() / 4,
        |i: int|
            sample_of(
                s32_of_bytes(
                    bytes[4 * i],
                    bytes[4 * i + 1],
                    bytes[4 * i + 2],
                    bytes[4 * i + 3],
                ),
                31,
            ) as u32,
    )
}

/// The 32-bit little-endian bytes of a block of finite samples.
pub open spec fn encoded_s32(samples: Seq<u32>) -> Seq<u8> {
    Seq::new(4 * samples.len(), |j: int| s32_byte(quantized(samples[j / 4], 31), j % 4))
}

/// Unpacks 32-bit little-endian integers.
pub fn decode_s32le(bytes: &[u8], output: &mut [u32])
    requires
        bytes@.len() == 4 * old(output)@.len(),
    ensures
        final(output)@ == decoded_s32(bytes@),
{
    let length: usize = bytes.len();
    let samples: usize = output.len();
    for index in 0..samples
        invariant
            length == bytes@.len(),
            length == 4 * samples,
            output@.len() == samples,
            forall|i: int| 0 <= i < index ==> #[trigger] output@[i] == decoded_s32(bytes@)[i],
    {
        let b0: u8 = bytes[4 * index];
        let b1: u8 = bytes[4 * index + 1];
        let b2: u8 = bytes[4 * index + 2];
        let b3: u8 = bytes[4 * index + 3];
        let wide: i64 = b0 as i64 + 0x100 * (b1 as i64) + 0x1_0000 * (b2 as i64) + 0x100_0000 * (
        b3 as i64) - if b3 >= 0x80 {
            0x1_0000_0000
        } else {
            0
        };
        proof {
            lemma2_to64();
        }
        output[index] = dequantize(wide as i32, 31);
    }
    proof {
        assert(output@ =~= decoded_s32(bytes@));
    }
}

/// Adding `2^32` to a negative number keeps its four low bytes.
proof fn lemma_s32_wrapped(raw: int)
    requires
        -0x8000_0000 <= raw < 0,
    ensures
        raw % 0x100 == (raw + 0x1_0000_0000) % 0x100,
        raw / 0x100 % 0x100 == (raw + 0x1_0000_0000) / 0x100 % 0x100,
        raw / 0x1_0000 % 0x100 == (raw + 0x1_0000_0000) / 0x1_0000 % 0x100,
        raw / 0x100_0000 % 0x100 == (raw + 0x1_0000_0000) / 0x100_0000 % 0x100,
{
    assert((raw + 0x1_0000_0000) / 0x100 == raw / 0x100 + 0x100_0000);
    assert((raw + 0x1_0000_0000) / 0x1_0000 == raw / 0x1_0000 + 0x1_0000);
    assert((raw + 0x1_0000_0000) / 0x100_0000 == raw / 0x100_0000 + 0x100);
}

/// Packs finite samples as 32-bit little-endian integers.
pub fn encode_s32le(samples: &[u32], output: &mut [u8]) -> (result: Result<(), TransportError>)
    requires
        old(output)@.len() == 4 * samples@.len(),
    ensures
        final(output)@.len() == old(output)@.len(),
        if all_finite(samples@) {
            result == Ok::<(), TransportError>(()) && final(output)@ == encoded_s32(samples@)
        } else {
            result == Err::<(), TransportError>(
                TransportError::NonFinitePlayback { sample_index: finite_prefix(samples@) as usize },
            ) && final(output)@ == old(output)@
        },
{
    proof {
        lemma_all_finite(samples@);
    }
    if let Some(sample_index) = find_nonfinite(samples) {
        return Err(TransportError::NonFinitePlayback { sample_index });
    }
    let length: usize = output.len();
    for index in 0..samples.len()
        invariant
            all_finite(samples@),
            length == 4 * samples@.len(),
            output@.len() == length,
            forall|j: int| 0 <= j < 4 * index ==> #[trigger] output@[j] == encoded_s32(samples@)[j],
    {
        proof {
            lemma2_to64();
        }
        let raw: i64 = quantize(samples[index], 31);
        let wrapped: u64 = if raw < 0 {
            proof {
                lemma_s32_wrapped(raw as int);
            }
            (raw + 0x1_0000_0000) as u64
        } else {
            raw as u64
        };
        let ghost before = output@;
        output[4 * index] = (wrapped % 0x100) as u8;
        output[4 * index + 1] = (wrapped / 0x100 % 0x100) as u8;
        output[4 * index + 2] = (wrapped / 0x1_0000 % 0x100) as u8;
        output[4 * index + 3] = (wrapped / 0x100_0000 % 0x100) as u8;
        proof {
            assert forall|j: int| 0 <= j < 4 * (index + 1) implies #[trigger] output@[j]
                == encoded_s32(samples@)[j] by {
                if j < 4 * index {
                    assert(output@[j] == before[j]);
                } else {
                    assert(j / 4 == index);
                    assert(j % 4 == j - 4 * index);
                }
            }
        }
    }
    proof {
        assert(output@ =~= encoded_s32(samples@));
    }
    Ok(())
}

/// Stable playback failure classes for the transport seam.
#[derive(Clone, Copy, Debug, Eq, PartialEq, Structural)]
pub enum TransportPlaybackError {
    ShortWrite,
    XrunRecoveryFailed,
    Disconnected,
    Failed,
}

/// A physical playback writer owned by the capture-clock worker.
pub trait TransportPlayback {
    /// Every block offered so far, oldest first: its frame count, its bytes and
    /// the writer's answer. A verified writer says how it keeps this record.
    closed spec fn offered_blocks(&self) -> Seq<
        (usize, Seq<u8>, Result<(), TransportPlaybackError>),
    > {
        Seq::empty()
    }

    /// Writes exactly one complete stereo S32LE block.
    ///
    /// Returns a classified error unless the complete block reaches playback.
    fn write_interleaved_s32le(&mut self, frames: usize, bytes: &[u8]) -> (result: Result<
        (),
        TransportPlaybackError,
    >)
        ensures
            final(self).offered_blocks() == old(self).offered_blocks().push(
                (frames, bytes@, result),
            ),
    ;
}

/// Whether one processed capture block reached physical playback.
#[derive(Clone, Copy, Debug, Eq, PartialEq, Structural)]
pub enum ProcessedDelivery {
    /// The block proved capture, conversion, engine, and meter operation while
    /// graph readiness was false. It was not sent to physical playback or a
    /// public endpoint stream.
    Preflight,
    /// The complete Monitor Mix block reached the worker-owned playback PCM.
    PhysicalPlayback,
}

/// The accepted result for one variable-size capture block.
#[derive(Clone, Copy, Debug, Eq, PartialEq, Structural)]
pub struct ProcessedCapture {
    pub frames: usize,
    pub delivery: ProcessedDelivery,
    pub control_update_applied: bool,
}

/// Aggregate bounded-transport observations without platform identifiers.
#[derive(Clone, Copy, Debug, Eq, PartialEq, Structural)]
pub struct TransportCounters {
    pub capture_blocks: u64,
    pub processed_blocks: u64,
    pub preflight_blocks: u64,
    pub playback_blocks: u64,
    pub idle_system_silence_blocks: u64,
    pub system_underflows: u64,
    pub system_overflows: u64,
    pub meter_overflows: u64,
    pub playback_failures: u64,
}

impl Default for TransportCounters {
    fn default() -> (counters: Self)
        ensures
            counters == TransportCounters::zero(),
    {
        TransportCounters {
            capture_blocks: 0,
            processed_blocks: 0,
            preflight_blocks: 0,
            playback_blocks: 0,
            idle_system_silence_blocks: 0,
            system_underflows: 0,
            system_overflows: 0,
            meter_overflows: 0,
            playback_failures: 0,
        }
    }
}

impl TransportCounters {
    /// Counters before the first block.
    pub open spec fn zero() -> Self {
        TransportCounters {
            capture_blocks: 0,
            processed_blocks: 0,
            preflight_blocks: 0,
            playback_blocks: 0,
            idle_system_silence_blocks: 0,
            system_underflows: 0,
            system_overflows: 0,
            meter_overflows: 0,
            playback_failures: 0,
        }
    }
}

/// One more, stopping at the largest count.
pub open spec fn counted(count: u64) -> u64 {
    if count == u64::MAX {
        count
    } else {
        (count + 1) as u64
    }
}

/// Why a capture-clock transport could not be constructed.
#[derive(Clone, Copy, Debug, Eq, PartialEq, Structural)]
pub enum TransportBuildError {
    PhysicalFormat,
    SystemCapacity { minimum_frames: usize, actual_frames: usize },
    SystemCapacityOverflow,
    BufferAllocation,
    Profile(MixerProfileError),
    EngineConfig(ConfigError),
    ControlMapping,
}

impl TransportBuildError {
    /// The text of this error; `detail` is the text of the refusal it passes on.
    pub open spec fn text(self, detail: Seq<char>) -> Seq<char> {
        match self {
            TransportBuildError::PhysicalFormat => "the physical engine format is invalid"@,
            TransportBuildError::SystemCapacity { minimum_frames, actual_frames } =>
                "System FIFO capacity is "@ + decimal(actual_frames as nat)
                + " frames; at least "@ + decimal(minimum_frames as nat) + " are required"@,
            TransportBuildError::SystemCapacityOverflow =>
                "System FIFO capacity cannot reserve its boundary slot"@,
            TransportBuildError::BufferAllocation =>
                "audio transport buffers could not be allocated"@,
            TransportBuildError::Profile(_) => "invalid mixer profile: "@ + detail,
            TransportBuildError::EngineConfig(_) => "invalid engine layout: "@ + detail,
            TransportBuildError::ControlMapping => "mixer controls do not match the engine"@,
        }
    }

    /// Describes this error to a person; `detail` describes the refusal it passes
    /// on.
    pub fn message(&self, detail: &str) -> (message: String)
        ensures
            message@ == self.text(detail@),
    {
        match *self {
            TransportBuildError::PhysicalFormat => String::from_str(
                "the physical engine format is invalid",
            ),
            TransportBuildError::SystemCapacity { minimum_frames, actual_frames } => {
                let mut message = String::from_str("System FIFO capacity is ");
                message.append(decimal_text(actual_frames as u64).as_str());
                message.append(" frames; at least ");
                message.append(decimal_text(minimum_frames as u64).as_str());
                message.append(" are required");
                message
            },
            TransportBuildError::SystemCapacityOverflow => String::from_str(
                "System FIFO capacity cannot reserve its boundary slot",
            ),
            TransportBuildError::BufferAllocation => String::from_str(
                "audio transport buffers could not be allocated",
            ),
            TransportBuildError::Profile(_) => {
                String::from_str("invalid mixer profile: ").concat(detail)
            },
            TransportBuildError::EngineConfig(_) => {
                String::from_str("invalid engine layout: ").concat(detail)
            },
            TransportBuildError::ControlMapping => String::from_str(
                "mixer controls do not match the engine",
            ),
        }
    }
}

/// Why one capture-clock block was not accepted or delivered.
#[derive(Clone, Copy, Debug, Eq, PartialEq, Structural)]
pub enum TransportError {
    Failed,
    NoCaptureProgress,
    PartialCaptureFrame { bytes: usize },
    CaptureBlockTooLarge { maximum_frames: usize, actual_frames: usize },
    SystemUnderflow { required_frames: usize, available_frames: usize },
    SystemIngressFaulted,
    Engine(ProcessError),
    NonFinitePlayback { sample_index: usize },
    Playback(TransportPlaybackError),
}

impl TransportError {
    /// The text of this error; `detail` is the text of the engine failure it
    /// passes on.
    pub open spec fn text(self, detail: Seq<char>) -> Seq<char> {
        match self {
            TransportError::Failed => "the audio transport attempt has failed"@,
            TransportError::NoCaptureProgress => "capture made no progress"@,
            TransportError::PartialCaptureFrame { bytes } => "capture returned "@ + decimal(
                bytes as nat,
            ) + " bytes, not complete stereo frames"@,
            TransportError::CaptureBlockTooLarge { maximum_frames, actual_frames } =>
                "capture returned "@ + decimal(actual_frames as nat) + " frames; maximum is "@
                + decimal(maximum_frames as nat),
            TransportError::SystemUnderflow { required_frames, available_frames } =>
                "active System ingress has "@ + decimal(available_frames as nat) + " frames; "@
                + decimal(required_frames as nat) + " are required"@,
            TransportError::SystemIngressFaulted => "System ingress has failed"@,
            TransportError::Engine(_) => "engine rejected the block: "@ + detail,
            TransportError::NonFinitePlayback { sample_index } => "playback sample "@ + decimal(
                sample_index as nat,
            ) + " is not finite"@,
            TransportError::Playback(TransportPlaybackError::ShortWrite) =>
                "physical playback failed: ShortWrite"@,
            TransportError::Playback(TransportPlaybackError::XrunRecoveryFailed) =>
                "physical playback failed: XrunRecoveryFailed"@,
            TransportError::Playback(TransportPlaybackError::Disconnected) =>
                "physical playback failed: Disconnected"@,
            TransportError::Playback(TransportPlaybackError::Failed) =>
                "physical playback failed: Failed"@,
        }
    }

    /// Describes this error to a person; `detail` describes the engine failure it
    /// passes on.
    pub fn message(&self, detail: &str) -> (message: String)
        ensures
            message@ == self.text(detail@),
    {
        match *self {
            TransportError::Failed => String::from_str("the audio transport attempt has failed"),
            TransportError::NoCaptureProgress => String::from_str("capture made no progress"),
            TransportError::PartialCaptureFrame { bytes } => {
                let mut message = String::from_str("capture returned ");
                message.append(decimal_text(bytes as u64).as_str());
                message.append(" bytes, not complete stereo frames");
                message
            },
            TransportError::CaptureBlockTooLarge { maximum_frames, actual_frames } => {
                let mut message = String::from_str("capture returned ");
                message.append(decimal_text(actual_frames as u64).as_str());
                message.append(" frames; maximum is ");
                message.append(decimal_text(maximum_frames as u64).as_str());
                message
            },
            TransportError::SystemUnderflow { required_frames, available_frames } => {
                let mut message = String::from_str("active System ingress has ");
                message.append(decimal_text(available_frames as u64).as_str());
                message.append(" frames; ");
                message.append(decimal_text(required_frames as u64).as_str());
                message.append(" are required");
                message
            },
            TransportError::SystemIngressFaulted => String::from_str("System ingress has failed"),
            TransportError::Engine(_) => {
                String::from_str("engine rejected the block: ").concat(detail)
            },
            TransportError::NonFinitePlayback { sample_index } => {
                let mut message = String::from_str("playback sample ");
                message.append(decimal_text(sample_index as u64).as_str());
                message.append(" is not finite");
                message
            },
            TransportError::Playback(TransportPlaybackError::ShortWrite) => String::from_str(
                "physical playback failed: ShortWrite",
            ),
            TransportError::Playback(TransportPlaybackError::XrunRecoveryFailed) =>
                String::from_str("physical playback failed: XrunRecoveryFailed"),
            TransportError::Playback(TransportPlaybackError::Disconnected) => String::from_str(
                "physical playback failed: Disconnected",
            ),
            TransportError::Playback(TransportPlaybackError::Failed) => String::from_str(
                "physical playback failed: Failed",
            ),
        }
    }
}

/// The sample format of a physical PCM device.
#[derive(Clone, Copy, Debug, Eq, PartialEq, Structural)]
pub enum PhysicalSampleFormat {
    Signed32LittleEndian,
    PackedSigned24LittleEndian,
}

/// The mode of a physical PCM device.
#[derive(Clone, Copy, Debug, Eq, PartialEq, Structural)]
pub struct PhysicalPcmConfig {
    pub sample_format: PhysicalSampleFormat,
    pub rate: u32,
    pub channels: u32,
    pub period_frames: u32,
    pub buffer_frames: u32,
}

impl PhysicalPcmConfig {
    /// Whether this is stereo S32LE at 48 kHz with a period that fits its buffer.
    pub open spec fn is_engine_format(self) -> bool {
        &&& 0 < self.period_frames <= self.buffer_frames
        &&& self.sample_format == PhysicalSampleFormat::Signed32LittleEndian
        &&& self.rate == 48_000
        &&& self.channels == 2
    }
}

/// What preparing the mixer for a transport brought.
#[derive(Clone, Copy, Debug)]
pub struct PreparedMixer {
    /// Whether the mixer profile is valid.
    pub profile: Result<(), MixerProfileError>,
    /// Whether the engine layout is valid.
    pub layout: Result<(), ConfigError>,
    /// Whether the controls match the layout.
    pub controls_match: bool,
}

/// One admitted capture block.
#[derive(Clone, Copy, Debug, Eq, PartialEq, Structural)]
pub struct TransportBlock {
    pub frames: usize,
}

/// One capture-clock transport and its preallocated block buffers.
///
/// One block runs through [`begin`](Self::begin), the mixer on the two input
/// buffers, [`mixed`](Self::mixed), the meters, and [`deliver`](Self::deliver);
/// [`TransportBoundary`](boundary::TransportBoundary) keeps that order.
#[derive(Debug)]
pub struct CaptureClockTransport {
    pub microphone_input: Vec<u32>,
    pub system_input: Vec<u32>,
    pub microphone_output: Vec<u32>,
    pub monitor_output: Vec<u32>,
    pub stream_output: Vec<u32>,
    pub playback_bytes: Vec<u8>,
    pub max_frames: usize,
    pub last_frames: usize,
    pub failed: bool,
    pub counters: TransportCounters,
}

/// The block buffers of one transport.
#[derive(Debug)]
pub struct TransportBuffers {
    pub microphone_input: Vec<u32>,
    pub system_input: Vec<u32>,
    pub microphone_output: Vec<u32>,
    pub monitor_output: Vec<u32>,
    pub stream_output: Vec<u32>,
    pub playback_bytes: Vec<u8>,
}

impl TransportBuffers {
    /// Whether every buffer is silent and holds exactly `max_frames` frames.
    pub open spec fn fit(self, max_frames: usize) -> bool {
        &&& self.microphone_input@ == silence(2 * max_frames as nat)
        &&& self.system_input@ == silence(2 * max_frames as nat)
        &&& self.microphone_output@ == silence(2 * max_frames as nat)
        &&& self.monitor_output@ == silence(2 * max_frames as nat)
        &&& self.stream_output@ == silence(2 * max_frames as nat)
        &&& self.playback_bytes@ == Seq::new(8 * max_frames as nat, |i: int| 0u8)
    }
}

fn allocate_buffers(max_frames: usize) -> (result: Option<TransportBuffers>)
    ensures
        result is Some ==> result->Some_0.fit(max_frames),
{
    let samples: usize = max_frames.checked_mul(2)?;
    let bytes: usize = samples.checked_mul(4)?;
    Some(
        TransportBuffers {
            microphone_input: allocate_silence(samples)?,
            system_input: allocate_silence(samples)?,
            microphone_output: allocate_silence(samples)?,
            monitor_output: allocate_silence(samples)?,
            stream_output: allocate_silence(samples)?,
            playback_bytes: allocate_filled(bytes, 0u8)?,
        },
    )
}

/// Why a transport is refused before anything is allocated, if it is.
pub open spec fn transport_refusal(
    pcm: PhysicalPcmConfig,
    prepared: PreparedMixer,
    system_capacity_frames: usize,
) -> Option<TransportBuildError> {
    if !pcm.is_engine_format() {
        Some(TransportBuildError::PhysicalFormat)
    } else if system_capacity_frames < pcm.period_frames {
        Some(
            TransportBuildError::SystemCapacity {
                minimum_frames: pcm.period_frames as usize,
                actual_frames: system_capacity_frames,
            },
        )
    } else if prepared.profile is Err {
        Some(TransportBuildError::Profile(prepared.profile->Err_0))
    } else if prepared.layout is Err {
        Some(TransportBuildError::EngineConfig(prepared.layout->Err_0))
    } else if !prepared.controls_match {
        Some(TransportBuildError::ControlMapping)
    } else if system_capacity_frames == usize::MAX {
        Some(TransportBuildError::SystemCapacityOverflow)
    } else {
        None
    }
}

impl CaptureClockTransport {
    /// Every buffer holds the largest block, and the last block fitted.
    pub open spec fn wf(self) -> bool {
        &&& 8 * self.max_frames <= usize::MAX
        &&& self.microphone_input@.len() == 2 * self.max_frames
        &&& self.system_input@.len() == 2 * self.max_frames
        &&& self.microphone_output@.len() == 2 * self.max_frames
        &&& self.monitor_output@.len() == 2 * self.max_frames
        &&& self.stream_output@.len() == 2 * self.max_frames
        &&& self.playback_bytes@.len() == 8 * self.max_frames
        &&& self.last_frames <= self.max_frames
    }

    /// Whether this is a transport before its first block, with `max_frames` in
    /// the largest one.
    pub open spec fn is_new(self, max_frames: usize) -> bool {
        &&& self.wf()
        &&& self.max_frames == max_frames
        &&& self.microphone_input@ == silence(2 * max_frames as nat)
        &&& self.system_input@ == silence(2 * max_frames as nat)
        &&& self.microphone_output@ == silence(2 * max_frames as nat)
        &&& self.monitor_output@ == silence(2 * max_frames as nat)
        &&& self.stream_output@ == silence(2 * max_frames as nat)
        &&& self.playback_bytes@ == Seq::new(8 * max_frames as nat, |i: int| 0u8)
        &&& self.last_frames == 0
        &&& !self.failed
        &&& self.counters == TransportCounters::zero()
    }

    /// Creates a transport and its System FIFO with every buffer allocated up
    /// front; `prepared` is what preparing the mixer brought. Apart from the
    /// stated refusals only a machine limit refuses a transport;
    /// [`assemble`](Self::assemble) says what each outcome of the allocations
    /// leads to.
    pub fn new(
        pcm: PhysicalPcmConfig,
        prepared: PreparedMixer,
        system_capacity_frames: usize,
    ) -> (result: Result<(Self, SystemRing), TransportBuildError>)
        ensures
            match transport_refusal(pcm, prepared, system_capacity_frames) {
                Some(error) => result == Err::<(Self, SystemRing), TransportBuildError>(error),
                None => match result {
                    Ok((transport, ring)) => {
                        &&& transport.is_new(pcm.period_frames as usize)
                        &&& ring.is_new(system_capacity_frames)
                    },
                    Err(error) => error == TransportBuildError::BufferAllocation || (error
                        == TransportBuildError::PhysicalFormat && 8 * pcm.period_frames
                        > usize::MAX),
                },
            },
    {
        if pcm.period_frames == 0 || pcm.period_frames > pcm.buffer_frames {
            return Err(TransportBuildError::PhysicalFormat);
        }
        if pcm.sample_format != PhysicalSampleFormat::Signed32LittleEndian || pcm.rate != 48_000
            || pcm.channels != 2 {
            return Err(TransportBuildError::PhysicalFormat);
        }
        let max_frames: usize = pcm.period_frames as usize;
        if system_capacity_frames < max_frames {
            return Err(
                TransportBuildError::SystemCapacity {
                    minimum_frames: max_frames,
                    actual_frames: system_capacity_frames,
                },
            );
        }
        if let Err(error) = prepared.profile {
            return Err(TransportBuildError::Profile(error));
        }
        if let Err(error) = prepared.layout {
            return Err(TransportBuildError::EngineConfig(error));
        }
        if !prepared.controls_match {
            return Err(TransportBuildError::ControlMapping);
        }
        let ring = SystemRing::try_new(system_capacity_frames);
        let buffers = if ring.is_ok() {
            allocate_buffers(max_frames)
        } else {
            None
        };
        Self::assemble(pcm, system_capacity_frames, ring, buffers)
    }

    /// Puts an admitted transport together, given what allocating its System FIFO
    /// and then its buffers brought. The FIFO is judged first, then whether the
    /// machine can count the bytes of the largest block, then the buffers.
    pub fn assemble(
        pcm: PhysicalPcmConfig,
        system_capacity_frames: usize,
        ring: Result<SystemRing, TransportBuildError>,
        buffers: Option<TransportBuffers>,
    ) -> (result: Result<(Self, SystemRing), TransportBuildError>)
        requires
            ring is Ok ==> ring->Ok_0.is_new(system_capacity_frames),
            buffers is Some ==> buffers->Some_0.fit(pcm.period_frames as usize),
        ensures
            if ring is Err {
                result == Err::<(Self, SystemRing), TransportBuildError>(ring->Err_0)
            } else if 8 * pcm.period_frames > usize::MAX {
                result == Err::<(Self, SystemRing), TransportBuildError>(
                    TransportBuildError::PhysicalFormat,
                )
            } else if buffers is None {
                result == Err::<(Self, SystemRing), TransportBuildError>(
                    TransportBuildError::BufferAllocation,
                )
            } else {
                &&& result is Ok
                &&& result->Ok_0.0.is_new(pcm.period_frames as usize)
                &&& result->Ok_0.1 == ring->Ok_0
            },
    {
        let ring = ring?;
        let max_frames: usize = pcm.period_frames as usize;
        if max_frames.checked_mul(8).is_none() {
            return Err(TransportBuildError::PhysicalFormat);
        }
        let buffers = match buffers {
            Some(buffers) => buffers,
            None => {
                return Err(TransportBuildError::BufferAllocation);
            },
        };
        let transport = CaptureClockTransport {
            microphone_input: buffers.microphone_input,
            system_input: buffers.system_input,
            microphone_output: buffers.microphone_output,
            monitor_output: buffers.monitor_output,
            stream_output: buffers.stream_output,
            playback_bytes: buffers.playback_bytes,
            max_frames,
            last_frames: 0,
            failed: false,
            counters: TransportCounters::default(),
        };
        Ok((transport, ring))
    }

    fn fail(&mut self, error: TransportError) -> (failure: TransportError)
        ensures
            failure == error,
            *final(self) == (CaptureClockTransport { failed: true, ..*old(self) }),
    {
        self.failed = true;
        error
    }

    /// Why a block of `byte_length` bytes is not a capture block, if it is not.
    pub open spec fn block_refusal(self, byte_length: nat) -> Option<TransportError> {
        if self.failed {
            Some(TransportError::Failed)
        } else if byte_length == 0 {
            Some(TransportError::NoCaptureProgress)
        } else if byte_length % 8 != 0 {
            Some(TransportError::PartialCaptureFrame { bytes: byte_length as usize })
        } else if byte_length / 8 > self.max_frames {
            Some(
                TransportError::CaptureBlockTooLarge {
                    maximum_frames: self.max_frames,
                    actual_frames: (byte_length / 8) as usize,
                },
            )
        } else {
            None
        }
    }

    /// Why the System source cannot serve `frames` frames, if it cannot.
    pub open spec fn system_failure(ring: SystemRing, frames: int) -> Option<TransportError> {
        match ring.state {
            SystemState::Idle => None,
            SystemState::Active => if ring.fill() < frames {
                Some(
                    TransportError::SystemUnderflow {
                        required_frames: frames as usize,
                        available_frames: ring.fill() as usize,
                    },
                )
            } else {
                None
            },
            SystemState::Faulted => Some(TransportError::SystemIngressFaulted),
        }
    }

    /// The counters after a block was read and the System source was asked.
    pub open spec fn counted_block(self, ring: SystemRing, frames: int) -> TransportCounters {
        let counters = TransportCounters {
            capture_blocks: counted(self.counters.capture_blocks),
            ..self.counters
        };
        if ring.state == SystemState::Idle {
            TransportCounters {
                idle_system_silence_blocks: counted(counters.idle_system_silence_blocks),
                ..counters
            }
        } else if ring.state == SystemState::Active && ring.fill() < frames {
            TransportCounters { system_underflows: counted(counters.system_underflows), ..counters }
        } else {
            counters
        }
    }

    /// Whether `self` differs from `before` at most in its input buffers, its
    /// failure and its counters.
    pub open spec fn same_outputs(self, before: Self) -> bool {
        &&& self.microphone_output == before.microphone_output
        &&& self.monitor_output == before.monitor_output
        &&& self.stream_output == before.stream_output
        &&& self.playback_bytes == before.playback_bytes
        &&& self.max_frames == before.max_frames
        &&& self.last_frames == before.last_frames
    }

    /// The complete outcome of asking to admit a capture block.
    pub open spec fn begun(
        self,
        after: Self,
        ring: SystemRing,
        ring_after: SystemRing,
        capture_bytes: Seq<u8>,
        result: Result<TransportBlock, TransportError>,
    ) -> bool {
        &&& after.same_outputs(self)
        &&& match self.block_refusal(capture_bytes.len()) {
            Some(error) => {
                &&& result == Err::<TransportBlock, TransportError>(error)
                &&& after == (CaptureClockTransport {
                    failed: error != TransportError::NoCaptureProgress,
                    ..self
                })
                &&& ring_after == ring
            },
            None => {
                let frames = (capture_bytes.len() / 8) as int;
                &&& after.counters == self.counted_block(ring, frames)
                &&& after.microphone_input@.take(2 * frames) == decoded_s32(capture_bytes)
                &&& match Self::system_failure(ring, frames) {
                    Some(error) => {
                        &&& result == Err::<TransportBlock, TransportError>(error)
                        &&& after.failed
                        &&& ring_after == (SystemRing { state: SystemState::Faulted, ..ring })
                    },
                    None => {
                        &&& result == Ok::<TransportBlock, TransportError>(
                            (TransportBlock { frames: frames as usize }),
                        )
                        &&& !after.failed
                        &&& frames <= after.max_frames
                        &&& if ring.state == SystemState::Idle {
                            &&& after.system_input@.take(2 * frames) == silence(2 * frames as nat)
                            &&& ring_after == ring
                        } else {
                            &&& after.system_input@.take(2 * frames) == stereo_samples(
                                ring.queued().take(frames),
                            )
                            &&& ring_after.queued() == ring.queued().skip(frames)
                            &&& ring_after == (SystemRing {
                                read_index: ring_after.read_index,
                                ..ring
                            })
                        }
                    },
                }
            },
        }
    }

    /// Admits one complete variable-size capture block and prepares both mixer
    /// inputs.
    ///
    /// An idle System stream supplies semantic silence. An active System stream
    /// must supply the exact frame count; a shortage is a transport underrun and
    /// fails this attempt. An empty read is refused without failing the attempt.
    pub fn begin(&mut self, ring: &mut SystemRing, capture_bytes: &[u8]) -> (result: Result<
        TransportBlock,
        TransportError,
    >)
        requires
            old(self).wf(),
            old(ring).wf(),
        ensures
            final(self).wf(),
            final(ring).wf(),
            old(self).begun(*final(self), *old(ring), *final(ring), capture_bytes@, result),
    {
        if self.failed {
            return Err(TransportError::Failed);
        }
        let length: usize = capture_bytes.len();
        if length == 0 {
            return Err(TransportError::NoCaptureProgress);
        }
        if length % 8 != 0 {
            return Err(self.fail(TransportError::PartialCaptureFrame { bytes: length }));
        }
        let frames: usize = length / 8;
        if frames > self.max_frames {
            let error = TransportError::CaptureBlockTooLarge {
                maximum_frames: self.max_frames,
                actual_frames: frames,
            };
            return Err(self.fail(error));
        }
        self.counters.capture_blocks = self.counters.capture_blocks.saturating_add(1);
        let samples: usize = frames * 2;
        let (microphone, _rest) = self.microphone_input.as_mut_slice().split_at_mut(samples);
        decode_s32le(capture_bytes, microphone);
        proof {
            assert(self.microphone_input@.take(samples as int) =~= decoded_s32(capture_bytes@));
        }
        match ring.state {
            SystemState::Idle => {
                let (input, _rest) = self.system_input.as_mut_slice().split_at_mut(samples);
                fill_silence(input);
                self.counters.idle_system_silence_blocks =
                self.counters.idle_system_silence_blocks.saturating_add(1);
                proof {
                    assert(self.system_input@.take(samples as int) =~= silence(samples as nat));
                }
            },
            SystemState::Active => {
                let (input, _rest) = self.system_input.as_mut_slice().split_at_mut(samples);
                let popped = ring.try_pop_exact(input);
                if let Err(available_frames) = popped {
                    self.counters.system_underflows =
                    self.counters.system_underflows.saturating_add(1);
                    ring.state = SystemState::Faulted;
                    let error = TransportError::SystemUnderflow {
                        required_frames: frames,
                        available_frames,
                    };
                    return Err(self.fail(error));
                }
                proof {
                    assert(self.system_input@.take(samples as int) =~= stereo_samples(
                        old(ring).queued().take(frames as int),
                    ));
                }
            },
            SystemState::Faulted => {
                return Err(self.fail(TransportError::SystemIngressFaulted));
            },
        }
        Ok(TransportBlock { frames })
    }

    /// The complete outcome of mixing one block, for the outcome of the engine.
    pub open spec fn processed(
        self,
        after: Self,
        ring: SystemRing,
        block: TransportBlock,
        engine: Result<(), ProcessError>,
        result: Result<(), TransportError>,
    ) -> bool {
        let processed = CaptureClockTransport {
            last_frames: block.frames,
            counters: TransportCounters {
                processed_blocks: counted(self.counters.processed_blocks),
                ..self.counters
            },
            ..self
        };
        match engine {
            Err(error) => {
                &&& result == Err::<(), TransportError>(TransportError::Engine(error))
                &&& after == (CaptureClockTransport { failed: true, ..self })
            },
            Ok(()) => if ring.state == SystemState::Faulted {
                &&& result == Err::<(), TransportError>(TransportError::SystemIngressFaulted)
                &&& after == (CaptureClockTransport { failed: true, ..processed })
            } else {
                &&& result == Ok::<(), TransportError>(())
                &&& after == processed
            },
        }
    }

    /// Takes the outcome of the mixer for one block. A fault of the System source
    /// that is visible here suppresses meters and playback for this block.
    pub fn mixed(
        &mut self,
        ring: &SystemRing,
        block: TransportBlock,
        engine: Result<(), ProcessError>,
    ) -> (result: Result<(), TransportError>)
        requires
            old(self).wf(),
            block.frames <= old(self).max_frames,
        ensures
            final(self).wf(),
            old(self).processed(*final(self), *ring, block, engine, result),
    {
        if let Err(error) = engine {
            return Err(self.fail(TransportError::Engine(error)));
        }
        self.last_frames = block.frames;
        self.counters.processed_blocks = self.counters.processed_blocks.saturating_add(1);
        if ring.state == SystemState::Faulted {
            return Err(self.fail(TransportError::SystemIngressFaulted));
        }
        Ok(())
    }

    /// Whether the current block is behind a first one that proved capture.
    pub open spec fn confirmed(self) -> bool {
        self.counters.processed_blocks > 1
    }

    /// The transport after its meters were offered.
    pub open spec fn metered(self, meters_published: bool) -> Self {
        if meters_published {
            self
        } else {
            CaptureClockTransport {
                counters: TransportCounters {
                    meter_overflows: counted(self.counters.meter_overflows),
                    ..self.counters
                },
                ..self
            }
        }
    }

    /// The monitor samples of one block.
    pub open spec fn monitor_block(self, block: TransportBlock) -> Seq<u32> {
        self.monitor_output@.take(2 * block.frames as int)
    }

    /// The complete outcome of delivering one block, for the answer of the
    /// playback device where the block reaches one.
    pub open spec fn delivered(
        self,
        after: Self,
        block: TransportBlock,
        control_update_applied: bool,
        answer: Option<Result<(), TransportPlaybackError>>,
        result: Result<ProcessedCapture, TransportError>,
    ) -> bool {
        let accepted = |delivery: ProcessedDelivery|
            ProcessedCapture { frames: block.frames, delivery, control_update_applied };
        match answer {
            None => {
                &&& result == Ok::<ProcessedCapture, TransportError>(
                    accepted(ProcessedDelivery::Preflight),
                )
                &&& after == (CaptureClockTransport {
                    counters: TransportCounters {
                        preflight_blocks: counted(self.counters.preflight_blocks),
                        ..self.counters
                    },
                    ..self
                })
            },
            Some(Err(error)) => {
                &&& result == Err::<ProcessedCapture, TransportError>(
                    TransportError::Playback(error),
                )
                &&& after == (CaptureClockTransport {
                    failed: true,
                    playback_bytes: after.playback_bytes,
                    counters: TransportCounters {
                        playback_failures: counted(self.counters.playback_failures),
                        ..self.counters
                    },
                    ..self
                })
            },
            Some(Ok(())) => {
                &&& result == Ok::<ProcessedCapture, TransportError>(
                    accepted(ProcessedDelivery::PhysicalPlayback),
                )
                &&& after == (CaptureClockTransport {
                    playback_bytes: after.playback_bytes,
                    counters: TransportCounters {
                        playback_blocks: counted(self.counters.playback_blocks),
                        ..self.counters
                    },
                    ..self
                })
            },
        }
    }

    /// Finishes a block with the answer of the playback device where the block
    /// reached one.
    pub fn finish(
        &mut self,
        block: TransportBlock,
        control_update_applied: bool,
        answer: Option<Result<(), TransportPlaybackError>>,
    ) -> (result: Result<ProcessedCapture, TransportError>)
        requires
            old(self).wf(),
        ensures
            final(self).wf(),
            final(self).playback_bytes == old(self).playback_bytes,
            old(self).delivered(*final(self), block, control_update_applied, answer, result),
    {
        let delivery = match answer {
            None => {
                self.counters.preflight_blocks = self.counters.preflight_blocks.saturating_add(1);
                ProcessedDelivery::Preflight
            },
            Some(Err(error)) => {
                self.counters.playback_failures = self.counters.playback_failures.saturating_add(1);
                return Err(self.fail(TransportError::Playback(error)));
            },
            Some(Ok(())) => {
                self.counters.playback_blocks = self.counters.playback_blocks.saturating_add(1);
                ProcessedDelivery::PhysicalPlayback
            },
        };
        Ok(ProcessedCapture { frames: block.frames, delivery, control_update_applied })
    }

    /// Whether a playback device is handed the current block.
    pub open spec fn offers(self, block: TransportBlock) -> bool {
        self.confirmed() && all_finite(self.monitor_block(block))
    }

    /// The complete outcome of delivering one mixed block, for the answer that a
    /// playback device would give; `None` where there is no device.
    pub open spec fn delivery(
        self,
        after: Self,
        block: TransportBlock,
        control_update_applied: bool,
        meters_published: bool,
        answer: Option<Result<(), TransportPlaybackError>>,
        result: Result<ProcessedCapture, TransportError>,
    ) -> bool {
        let metered = self.metered(meters_published);
        let monitor = self.monitor_block(block);
        if answer is None || !self.confirmed() {
            metered.delivered(after, block, control_update_applied, None, result)
        } else if !all_finite(monitor) {
            &&& result == Err::<ProcessedCapture, TransportError>(
                TransportError::NonFinitePlayback {
                    sample_index: finite_prefix(monitor) as usize,
                },
            )
            &&& after == (CaptureClockTransport {
                failed: true,
                playback_bytes: after.playback_bytes,
                ..metered
            })
        } else {
            metered.delivered(after, block, control_update_applied, answer, result)
        }
    }

    /// Delivers one mixed block: the first processed block, and every block
    /// without a playback device, is a preflight; every other one is packed and
    /// handed to the device, whose answer decides.
    pub fn deliver<P: TransportPlayback>(
        &mut self,
        block: TransportBlock,
        control_update_applied: bool,
        meters_published: bool,
        playback: Option<&mut P>,
    ) -> (result: Result<ProcessedCapture, TransportError>)
        requires
            old(self).wf(),
            block.frames <= old(self).max_frames,
        ensures
            final(self).wf(),
            old(self).delivery(
                *final(self),
                block,
                control_update_applied,
                meters_published,
                match playback {
                    Some(device) => Some(final(device).offered_blocks().last().2),
                    None => None,
                },
                result,
            ),
            playback is Some ==> ({
                let before = old(playback->Some_0).offered_blocks();
                let after = final(playback->Some_0).offered_blocks();
                let monitor = old(self).monitor_block(block);
                if old(self).offers(block) {
                    after == before.push((block.frames, encoded_s32(monitor), after.last().2))
                } else {
                    after == before
                }
            }),
            playback is Some && old(self).counters.processed_blocks > 1 && all_finite(
                old(self).monitor_output@.take(2 * block.frames as int),
            ) ==> ({
                let before = old(playback->Some_0).offered_blocks();
                let after = final(playback->Some_0).offered_blocks();
                &&& after.len() == before.len() + 1
                &&& after.last().0 == block.frames
                &&& after.last().1 == encoded_s32(
                    old(self).monitor_output@.take(2 * block.frames as int),
                )
                &&& result is Ok <==> after.last().2 is Ok
                &&& result is Ok ==> result->Ok_0 == (ProcessedCapture {
                    frames: block.frames,
                    delivery: ProcessedDelivery::PhysicalPlayback,
                    control_update_applied,
                })
                &&& result is Err ==> final(self).failed && result->Err_0
                    == TransportError::Playback(after.last().2->Err_0)
            }),
            playback is None || old(self).counters.processed_blocks <= 1 ==> result == Ok::<
                ProcessedCapture,
                TransportError,
            >(
                (ProcessedCapture {
                    frames: block.frames,
                    delivery: ProcessedDelivery::Preflight,
                    control_update_applied,
                }),
            ),
            final(self).microphone_output == old(self).microphone_output,
            final(self).monitor_output == old(self).monitor_output,
            final(self).stream_output == old(self).stream_output,
            final(self).last_frames == old(self).last_frames,
    {
        if !meters_published {
            self.counters.meter_overflows = self.counters.meter_overflows.saturating_add(1);
        }
        match playback {
            None => self.finish(block, control_update_applied, None),
            Some(device) => {
                if self.counters.processed_blocks <= 1 {
                    return self.finish(block, control_update_applied, None);
                }
                let samples: usize = block.frames * 2;
                let length: usize = block.frames * 8;
                let (bytes, _rest) = self.playback_bytes.as_mut_slice().split_at_mut(length);
                let monitor = slice_subrange(self.monitor_output.as_slice(), 0, samples);
                let encoded = encode_s32le(monitor, bytes);
                if let Err(error) = encoded {
                    return Err(self.fail(error));
                }
                let block_bytes = slice_subrange(self.playback_bytes.as_slice(), 0, length);
                proof {
                    assert(block_bytes@ =~= encoded_s32(monitor@));
                }
                let answer = device.write_interleaved_s32le(block.frames, block_bytes);
                self.finish(block, control_update_applied, Some(answer))
            },
        }
    }

    /// The last mixed block of an endpoint; the System endpoint has none.
    pub fn last_output(&self, endpoint: EndpointId) -> (output: Option<&[u32]>)
        requires
            self.wf(),
        ensures
            match endpoint {
                EndpointId::System => output is None,
                EndpointId::Microphone => output is Some && output->Some_0@
                    == self.microphone_output@.take(2 * self.last_frames as int),
                EndpointId::MonitorMix => output is Some && output->Some_0@
                    == self.monitor_output@.take(2 * self.last_frames as int),
                EndpointId::StreamMix => output is Some && output->Some_0@
                    == self.stream_output@.take(2 * self.last_frames as int),
            },
    {
        let samples: usize = self.last_frames * 2;
        match endpoint {
            EndpointId::System => None,
            EndpointId::Microphone => Some(
                slice_subrange(self.microphone_output.as_slice(), 0, samples),
            ),
            EndpointId::MonitorMix => Some(
                slice_subrange(self.monitor_output.as_slice(), 0, samples),
            ),
            EndpointId::StreamMix => Some(
                slice_subrange(self.stream_output.as_slice(), 0, samples),
            ),
        }
    }

    /// The counters, with the overflows of the System FIFO.
    pub fn counters(&self, ring: &SystemRing) -> (counters: TransportCounters)
        ensures
            counters == (TransportCounters { system_overflows: ring.overflows, ..self.counters }),
    {
        TransportCounters { system_overflows: ring.overflows, ..self.counters }
    }
}

/// What goes into the System FIFO comes out unchanged and in order: the frames
/// that were queued before stay in front, and the pushed samples follow them.
pub proof fn law_system_frames_keep_their_order(
    before: SystemRing,
    after: SystemRing,
    samples: Seq<u32>,
)
    requires
        before.wf(),
        samples.len() % 2 == 0,
        after.pushed_from(before, samples),
    ensures
        after.fill() == before.fill() + samples.len() / 2,
        after.queued().take(before.fill()) == before.queued(),
        stereo_samples(after.queued().skip(before.fill())) == samples,
{
    assert(after.queued().len() == after.fill());
    assert(after.queued().take(before.fill()) =~= before.queued());
    assert(after.queued().skip(before.fill()) =~= stereo_frames(samples));
    assert(stereo_samples(stereo_frames(samples)) =~= samples);
}

/// What physical playback is handed is the Monitor Mix: the samples of a block
/// that is delivered are those of the monitor output, which is also what the last
/// output of the Monitor Mix endpoint shows.
pub proof fn law_playback_takes_the_monitor_mix(
    transport: CaptureClockTransport,
    mixed: CaptureClockTransport,
    ring: SystemRing,
    block: TransportBlock,
    engine: Result<(), ProcessError>,
    position: int,
)
    requires
        transport.wf(),
        block.frames <= transport.max_frames,
        transport.processed(mixed, ring, block, engine, Ok(())),
        0 <= position < 2 * block.frames,
    ensures
        mixed.last_frames == block.frames,
        mixed.monitor_block(block).len() == 2 * block.frames,
        mixed.monitor_block(block)[position] == transport.monitor_output@[position],
        mixed.monitor_block(block) == mixed.monitor_output@.take(2 * mixed.last_frames as int),
        mixed.microphone_output == transport.microphone_output,
        mixed.stream_output == transport.stream_output,
        engine is Ok,
        ring.state != SystemState::Faulted,
{
}

/// A failed transport refuses every later block, and only an empty read leaves
/// the attempt alive after a refusal.
pub proof fn law_transport_failure_is_sticky(transport: CaptureClockTransport, byte_length: nat)
    ensures
        transport.failed ==> transport.block_refusal(byte_length) == Some(TransportError::Failed),
        !transport.failed && transport.block_refusal(byte_length) is Some && byte_length > 0
            ==> transport.block_refusal(byte_length) != Some(TransportError::NoCaptureProgress),
{
}

/// What an admitted block prepares: each microphone sample is the number that its
/// own four capture bytes hold, and each System sample is that of the oldest queued
/// frames, left before right, or silence while System is idle. The frames taken
/// leave the FIFO, and the rest keep their order.
pub proof fn law_admitted_block_prepares_both_inputs(
    transport: CaptureClockTransport,
    after: CaptureClockTransport,
    ring: SystemRing,
    ring_after: SystemRing,
    capture_bytes: Seq<u8>,
    block: TransportBlock,
    frame: int,
)
    requires
        transport.wf(),
        after.wf(),
        ring.wf(),
        transport.begun(
            after,
            ring,
            ring_after,
            capture_bytes,
            Ok::<TransportBlock, TransportError>(block),
        ),
        0 <= frame < block.frames,
    ensures
        capture_bytes.len() == 8 * block.frames,
        block.frames <= transport.max_frames,
        !after.failed,
        after.microphone_input@[2 * frame] == sample_of(
            s32_of_bytes(
                capture_bytes[8 * frame],
                capture_bytes[8 * frame + 1],
                capture_bytes[8 * frame + 2],
                capture_bytes[8 * frame + 3],
            ),
            31,
        ) as u32,
        after.microphone_input@[2 * frame + 1] == sample_of(
            s32_of_bytes(
                capture_bytes[8 * frame + 4],
                capture_bytes[8 * frame + 5],
                capture_bytes[8 * frame + 6],
                capture_bytes[8 * frame + 7],
            ),
            31,
        ) as u32,
        ring.state != SystemState::Faulted,
        ring.state == SystemState::Idle ==> after.system_input@[2 * frame] == 0
            && after.system_input@[2 * frame + 1] == 0 && ring_after == ring,
        ring.state == SystemState::Active ==> {
            &&& after.system_input@[2 * frame] == ring.queued()[frame].0
            &&& after.system_input@[2 * frame + 1] == ring.queued()[frame].1
            &&& ring_after.queued() == ring.queued().skip(block.frames as int)
            &&& ring_after.state == SystemState::Active
        },
        after.microphone_output == transport.microphone_output,
        after.monitor_output == transport.monitor_output,
        after.stream_output == transport.stream_output,
        after.last_frames == transport.last_frames,
{
    let frames = block.frames as int;
    let microphone = after.microphone_input@.take(2 * frames);
    let system = after.system_input@.take(2 * frames);
    assert(microphone[2 * frame] == after.microphone_input@[2 * frame]);
    assert(microphone[2 * frame + 1] == after.microphone_input@[2 * frame + 1]);
    assert(system[2 * frame] == after.system_input@[2 * frame]);
    assert(system[2 * frame + 1] == after.system_input@[2 * frame + 1]);
    assert(4 * (2 * frame) == 8 * frame);
    assert(4 * (2 * frame + 1) == 8 * frame + 4);
}

/// Which capture blocks are admitted: complete stereo frames, at least one and at
/// most the largest block, of a transport that has not failed and whose System
/// source is idle or holds enough frames.
pub proof fn law_admitted_blocks_are_complete(
    transport: CaptureClockTransport,
    after: CaptureClockTransport,
    ring: SystemRing,
    ring_after: SystemRing,
    capture_bytes: Seq<u8>,
    result: Result<TransportBlock, TransportError>,
)
    requires
        transport.wf(),
        ring.wf(),
        capture_bytes.len() <= usize::MAX,
        transport.begun(after, ring, ring_after, capture_bytes, result),
    ensures
        result is Ok <==> {
            &&& !transport.failed
            &&& capture_bytes.len() > 0
            &&& capture_bytes.len() % 8 == 0
            &&& capture_bytes.len() <= 8 * transport.max_frames
            &&& ring.state == SystemState::Idle || (ring.state == SystemState::Active
                && 8 * ring.fill() >= capture_bytes.len())
        },
        capture_bytes.len() == 0 && !transport.failed ==> result == Err::<
            TransportBlock,
            TransportError,
        >(TransportError::NoCaptureProgress) && !after.failed,
        result is Err && capture_bytes.len() > 0 ==> after.failed,
        match result {
            Err(TransportError::SystemUnderflow { required_frames, available_frames }) => {
                &&& 8 * required_frames == capture_bytes.len()
                &&& available_frames == ring.fill()
                &&& available_frames < required_frames
                &&& ring_after.state == SystemState::Faulted
            },
            Err(TransportError::CaptureBlockTooLarge { maximum_frames, actual_frames }) => {
                &&& maximum_frames == transport.max_frames
                &&& 8 * actual_frames == capture_bytes.len()
                &&& actual_frames > maximum_frames
            },
            Err(TransportError::PartialCaptureFrame { bytes }) => bytes == capture_bytes.len()
                && bytes % 8 != 0,
            Err(TransportError::SystemIngressFaulted) => ring.state == SystemState::Faulted,
            _ => true,
        },
{
}

/// Each counter counts its own event, once, and stops at the largest count:
/// reading a block, serving silence for an idle System source, a System underflow,
/// a processed block, unread meters, a preflight, a played block, a failed one.
pub proof fn law_each_counter_counts_its_own_event(
    transport: CaptureClockTransport,
    ring: SystemRing,
    frames: int,
    block: TransportBlock,
    applied: bool,
    error: TransportPlaybackError,
    after: CaptureClockTransport,
    result: Result<ProcessedCapture, TransportError>,
)
    requires
        transport.counters.capture_blocks < u64::MAX,
        transport.counters.idle_system_silence_blocks < u64::MAX,
        transport.counters.system_underflows < u64::MAX,
        transport.counters.meter_overflows < u64::MAX,
        transport.counters.preflight_blocks < u64::MAX,
        transport.counters.playback_blocks < u64::MAX,
        transport.counters.playback_failures < u64::MAX,
    ensures
        ({
            let counters = transport.counted_block(ring, frames);
            &&& counters.capture_blocks == transport.counters.capture_blocks + 1
            &&& counters.idle_system_silence_blocks
                == transport.counters.idle_system_silence_blocks + if ring.state
                == SystemState::Idle {
                1int
            } else {
                0int
            }
            &&& counters.system_underflows == transport.counters.system_underflows + if ring.state
                == SystemState::Active && ring.fill() < frames {
                1int
            } else {
                0int
            }
            &&& counters.processed_blocks == transport.counters.processed_blocks
            &&& counters.preflight_blocks == transport.counters.preflight_blocks
            &&& counters.playback_blocks == transport.counters.playback_blocks
            &&& counters.system_overflows == transport.counters.system_overflows
            &&& counters.meter_overflows == transport.counters.meter_overflows
            &&& counters.playback_failures == transport.counters.playback_failures
        }),
        transport.metered(true) == transport,
        transport.metered(false).counters == (TransportCounters {
            meter_overflows: (transport.counters.meter_overflows + 1) as u64,
            ..transport.counters
        }),
        transport.delivered(after, block, applied, None, result) ==> after.counters == (
        TransportCounters {
            preflight_blocks: (transport.counters.preflight_blocks + 1) as u64,
            ..transport.counters
        }) && result is Ok && result->Ok_0.delivery == ProcessedDelivery::Preflight,
        transport.delivered(after, block, applied, Some(Ok(())), result) ==> after.counters == (
        TransportCounters {
            playback_blocks: (transport.counters.playback_blocks + 1) as u64,
            ..transport.counters
        }) && result is Ok && result->Ok_0.delivery == ProcessedDelivery::PhysicalPlayback,
        transport.delivered(after, block, applied, Some(Err(error)), result) ==> after.counters == (
        TransportCounters {
            playback_failures: (transport.counters.playback_failures + 1) as u64,
            ..transport.counters
        }) && after.failed && result == Err::<ProcessedCapture, TransportError>(
            TransportError::Playback(error),
        ),
        counted(u64::MAX) == u64::MAX,
{
}

/// A mixed block counts as processed, and is then the last one, exactly if the
/// engine took it; an engine failure, or a System fault, fails the transport.
pub proof fn law_mixed_blocks_count_once(
    transport: CaptureClockTransport,
    after: CaptureClockTransport,
    ring: SystemRing,
    block: TransportBlock,
    engine: Result<(), ProcessError>,
    result: Result<(), TransportError>,
)
    requires
        transport.processed(after, ring, block, engine, result),
        transport.counters.processed_blocks < u64::MAX,
    ensures
        match engine {
            Ok(()) => {
                &&& after.last_frames == block.frames
                &&& after.counters == (TransportCounters {
                    processed_blocks: (transport.counters.processed_blocks + 1) as u64,
                    ..transport.counters
                })
                &&& ring.state == SystemState::Faulted ==> after.failed && result == Err::<
                    (),
                    TransportError,
                >(TransportError::SystemIngressFaulted)
                &&& ring.state != SystemState::Faulted ==> after.failed == transport.failed
                    && result is Ok
            },
            Err(error) => {
                &&& after.last_frames == transport.last_frames
                &&& after.counters == transport.counters
                &&& after.failed
                &&& result == Err::<(), TransportError>(TransportError::Engine(error))
            },
        },
        after.monitor_output == transport.monitor_output,
        after.microphone_output == transport.microphone_output,
        after.stream_output == transport.stream_output,
{
}

/// The System source is activated once, by a first block of complete finite
/// frames, and takes more only while it is active; each refusal names its cause.
pub proof fn law_system_source_is_activated_once(state: SystemState, samples: Seq<u32>)
    ensures
        activation_refusal(state, samples) is None <==> state == SystemState::Idle && samples.len()
            > 0 && samples.len() % 2 == 0 && all_finite(samples),
        push_refusal(state, samples) is None <==> state == SystemState::Active && samples.len() % 2
            == 0 && all_finite(samples),
        state == SystemState::Faulted ==> activation_refusal(state, samples) == Some(
            SystemIngressError::Faulted,
        ) && push_refusal(state, samples) == Some(SystemIngressError::Faulted),
        state == SystemState::Active ==> activation_refusal(state, samples) == Some(
            SystemIngressError::AlreadyActive,
        ),
        state == SystemState::Idle ==> push_refusal(state, samples) == Some(
            SystemIngressError::Idle,
        ),
        state == SystemState::Idle && samples.len() == 0 ==> activation_refusal(state, samples)
            == Some(SystemIngressError::EmptyActivation),
{
}

/// A block that does not fit fails the System source for good, counts one
/// overflow, keeps the queued frames, and is reported with what it asked for and
/// what was left.
pub proof fn law_system_overflow_is_final(ring: SystemRing, samples: Seq<u32>)
    requires
        ring.wf(),
        ring.frames@.len() <= usize::MAX,
        samples.len() <= usize::MAX,
        !ring.fits(samples),
    ensures
        ring.overflowed().state == SystemState::Faulted,
        ring.overflows < u64::MAX ==> ring.overflowed().overflows == ring.overflows + 1,
        ring.overflowed().queued() == ring.queued(),
        match ring.overflow_error(samples) {
            SystemIngressError::Overflow { requested_frames, remaining_frames, capacity_frames } => {
                &&& requested_frames == samples.len() / 2
                &&& remaining_frames + ring.queued().len() == capacity_frames
                &&& capacity_frames + 1 == ring.frames@.len()
                &&& remaining_frames < requested_frames
            },
            _ => false,
        },
{
    assert(ring.overflowed().queued() =~= ring.queued());
}

/// Stereo frames hold the left sample first: interleaving puts it in the even
/// place, and taking frames apart finds it there.
pub proof fn law_stereo_frames_hold_left_then_right(
    frames: Seq<(u32, u32)>,
    samples: Seq<u32>,
    index: int,
)
    ensures
        stereo_samples(frames).len() == 2 * frames.len(),
        stereo_frames(samples).len() == samples.len() / 2,
        0 <= index < frames.len() ==> stereo_samples(frames)[2 * index] == frames[index].0
            && stereo_samples(frames)[2 * index + 1] == frames[index].1,
        0 <= index < samples.len() / 2 ==> stereo_frames(samples)[index].0 == samples[2 * index]
            && stereo_frames(samples)[index].1 == samples[2 * index + 1],
{
}

/// The four bytes of a number, lowest first, add up to it, and give it back.
pub proof fn law_s32_bytes_are_little_endian(raw: int)
    requires
        -0x8000_0000 <= raw <= 0x7fff_ffff,
    ensures
        s32_byte(raw, 0) + 0x100 * s32_byte(raw, 1) + 0x1_0000 * s32_byte(raw, 2) + 0x100_0000
            * s32_byte(raw, 3) == if raw < 0 {
            raw + 0x1_0000_0000
        } else {
            raw
        },
        s32_of_bytes(s32_byte(raw, 0), s32_byte(raw, 1), s32_byte(raw, 2), s32_byte(raw, 3)) == raw,
{
    let whole: int = if raw < 0 {
        lemma_s32_wrapped(raw);
        raw + 0x1_0000_0000
    } else {
        raw
    };
    let b0 = whole % 0x100;
    let b1 = whole / 0x100 % 0x100;
    let b2 = whole / 0x1_0000 % 0x100;
    let b3 = whole / 0x100_0000 % 0x100;
    assert(whole / 0x100 / 0x100 == whole / 0x1_0000);
    assert(whole / 0x1_0000 / 0x100 == whole / 0x100_0000);
    assert(whole == b0 + 0x100 * (whole / 0x100));
    assert(whole / 0x100 == b1 + 0x100 * (whole / 0x1_0000));
    assert(whole / 0x1_0000 == b2 + 0x100 * (whole / 0x100_0000));
    assert(0 <= whole / 0x100_0000 < 0x100);
    assert(b3 == whole / 0x100_0000);
}

/// Packed playback holds, for each sample, its fixed-point number in four bytes of
/// its own.
pub proof fn law_packed_playback_holds_each_sample(samples: Seq<u32>, index: int)
    requires
        0 <= index < samples.len(),
    ensures
        encoded_s32(samples).len() == 4 * samples.len(),
        forall|position: int|
            0 <= position < 4 ==> encoded_s32(samples)[4 * index + position]
                == #[trigger] s32_byte(quantized(samples[index], 31), position),
{
    assert forall|position: int| 0 <= position < 4 implies encoded_s32(samples)[4 * index
        + position] == #[trigger] s32_byte(quantized(samples[index], 31), position) by {
        assert((4 * index + position) / 4 == index);
        assert((4 * index + position) % 4 == position);
    }
}

/// A transport is admitted exactly for stereo 32-bit 48 kHz devices whose period
/// fits their buffer, with a System FIFO of at least one period, and a prepared
/// mixer.
pub proof fn law_admitted_transport_matches_the_device(
    pcm: PhysicalPcmConfig,
    prepared: PreparedMixer,
    system_capacity_frames: usize,
)
    ensures
        transport_refusal(pcm, prepared, system_capacity_frames) is None <==> {
            &&& 0 < pcm.period_frames <= pcm.buffer_frames
            &&& pcm.sample_format == PhysicalSampleFormat::Signed32LittleEndian
            &&& pcm.rate == 48_000
            &&& pcm.channels == 2
            &&& pcm.period_frames <= system_capacity_frames < usize::MAX
            &&& prepared.profile is Ok
            &&& prepared.layout is Ok
            &&& prepared.controls_match
        },
        match transport_refusal(pcm, prepared, system_capacity_frames) {
            Some(TransportBuildError::SystemCapacity { minimum_frames, actual_frames }) => {
                &&& minimum_frames == pcm.period_frames
                &&& actual_frames == system_capacity_frames
                &&& actual_frames < minimum_frames
            },
            Some(TransportBuildError::Profile(error)) => prepared.profile == Err::<
                (),
                MixerProfileError,
            >(error),
            Some(TransportBuildError::EngineConfig(error)) => prepared.layout == Err::<
                (),
                ConfigError,
            >(error),
            _ => true,
        },
{
}

/// A System block is malformed exactly if it ends within a frame or holds a sample
/// that is not finite; the refusal gives its length, or the first such sample.
pub proof fn law_malformed_system_blocks_say_why(samples: Seq<u32>)
    requires
        samples.len() <= usize::MAX,
    ensures
        match system_block_refusal(samples) {
            None => samples.len() % 2 == 0 && forall|i: int|
                0 <= i < samples.len() ==> finite(#[trigger] samples[i]),
            Some(SystemIngressError::PartialFrame { samples: counted }) => counted == samples.len()
                && samples.len() % 2 == 1,
            Some(SystemIngressError::NonFinite { sample_index }) => {
                &&& samples.len() % 2 == 0
                &&& sample_index < samples.len()
                &&& !finite(samples[sample_index as int])
                &&& forall|i: int| 0 <= i < sample_index ==> finite(#[trigger] samples[i])
            },
            Some(_) => false,
        },
{
    law_finite_prefix_ends_at_the_first_bad_sample(samples);
    lemma_all_finite(samples);
}

/// Admitting a block touches only the mixer's inputs: what was mixed and packed
/// before, its length and the room stay, whether or not the block is admitted.
pub proof fn law_admitting_a_block_keeps_the_outputs(
    transport: CaptureClockTransport,
    after: CaptureClockTransport,
    ring: SystemRing,
    ring_after: SystemRing,
    capture_bytes: Seq<u8>,
    result: Result<TransportBlock, TransportError>,
)
    requires
        transport.begun(after, ring, ring_after, capture_bytes, result),
    ensures
        after.microphone_output == transport.microphone_output,
        after.monitor_output == transport.monitor_output,
        after.stream_output == transport.stream_output,
        after.playback_bytes == transport.playback_bytes,
        after.max_frames == transport.max_frames,
        after.last_frames == transport.last_frames,
        result == Err::<TransportBlock, TransportError>(TransportError::NoCaptureProgress)
            && !transport.failed ==> after == transport && ring_after == ring,
        result is Ok ==> result->Ok_0.frames == capture_bytes.len() / 8,
{
}

} // verus!
