//! A bounded first-in first-out queue of complete audio frames.
//!
//! The ring counts frames with two absolute sequences. Their difference is the
//! only fill representation, and a frame's slot is its sequence modulo the
//! capacity.

use crate::audio_host::sample::{
    all_finite, find_nonfinite, finite, finite_prefix,
    law_finite_prefix_ends_at_the_first_bad_sample, lemma_all_finite,
};
use vstd::arithmetic::div_mod::{
    lemma_fundamental_div_mod, lemma_fundamental_div_mod_converse, lemma_truncate_middle,
};
use vstd::prelude::*;

verus! {

/// Why a ring could not be built.
#[derive(Clone, Copy, Debug, Eq, PartialEq, Structural)]
pub enum RingBuildError {
    ZeroCapacity,
    Allocation,
}

/// Why a block was not queued.
#[derive(Clone, Copy, Debug, Eq, PartialEq, Structural)]
pub enum RingPushError {
    PartialFrame { samples: usize, channels: usize },
    NonFinite { sample_index: usize },
    Overflow { requested: usize, remaining: usize, capacity: usize },
    Sequence(RingSequenceError),
}

/// Why a block could not be read ahead.
#[derive(Clone, Copy, Debug, Eq, PartialEq, Structural)]
pub enum RingPeekError {
    PartialFrame { samples: usize, channels: usize },
    PeekPending,
    Shortage { required: usize, available: usize },
    Sequence(RingSequenceError),
}

/// Why two sequences do not describe a ring, or cannot advance.
#[derive(Clone, Copy, Debug, Eq, PartialEq, Structural)]
pub enum RingSequenceError {
    Overflow,
    InvalidOrder,
    CapacityExceeded,
}

/// The frames between two absolute sequences of a ring, or why there are none.
pub open spec fn fill_between(capacity_frames: usize, write_sequence: u64, read_sequence: u64)
    -> Result<usize, RingSequenceError> {
    if write_sequence < read_sequence {
        Err(RingSequenceError::InvalidOrder)
    } else if write_sequence - read_sequence > capacity_frames {
        Err(RingSequenceError::CapacityExceeded)
    } else {
        Ok((write_sequence - read_sequence) as usize)
    }
}

/// Computes the frames between two absolute sequences of a ring.
pub fn sequence_fill(capacity_frames: usize, write_sequence: u64, read_sequence: u64) -> (result:
    Result<usize, RingSequenceError>)
    ensures
        result == fill_between(capacity_frames, write_sequence, read_sequence),
{
    if write_sequence < read_sequence {
        return Err(RingSequenceError::InvalidOrder);
    }
    let fill: u64 = write_sequence - read_sequence;
    if fill > capacity_frames as u64 {
        return Err(RingSequenceError::CapacityExceeded);
    }
    Ok(fill as usize)
}

/// A bounded queue of frames with `CHANNELS` interleaved samples each.
#[derive(Debug)]
pub struct FrameRing<const CHANNELS: usize> {
    pub samples: Vec<u32>,
    pub capacity_frames: usize,
    pub write_sequence: u64,
    pub read_sequence: u64,
    pub pending_frames: Option<usize>,
}

impl<const CHANNELS: usize> FrameRing<CHANNELS> {
    /// Storage holds the capacity, the sequences are in order and within it,
    /// and a pending peek is covered by queued frames.
    pub open spec fn wf(self) -> bool {
        &&& CHANNELS > 0
        &&& self.capacity_frames > 0
        &&& self.samples@.len() == self.capacity_frames * CHANNELS
        &&& self.read_sequence <= self.write_sequence
        &&& self.fill() <= self.capacity_frames
        &&& self.pending() <= self.fill()
    }

    /// The number of queued frames.
    pub open spec fn fill(self) -> int {
        self.write_sequence - self.read_sequence
    }

    /// The number of frames read ahead and not yet released.
    pub open spec fn pending(self) -> int {
        match self.pending_frames {
            Some(frames) => frames as int,
            None => 0,
        }
    }

    /// The queued samples, oldest first.
    pub open spec fn queued(self) -> Seq<u32> {
        Seq::new(
            (self.fill() * CHANNELS) as nat,
            |i: int|
                self.samples@[(self.read_sequence * CHANNELS + i) % (self.samples@.len() as int)],
        )
    }

    /// Why `samples` cannot be queued, if they cannot.
    pub open spec fn push_refusal(self, samples: Seq<u32>) -> Option<RingPushError> {
        let frames = samples.len() / CHANNELS as nat;
        let remaining = self.capacity_frames - self.fill();
        if samples.len() % (CHANNELS as nat) != 0 {
            Some(
                RingPushError::PartialFrame {
                    samples: samples.len() as usize,
                    channels: CHANNELS,
                },
            )
        } else if !all_finite(samples) {
            Some(RingPushError::NonFinite { sample_index: finite_prefix(samples) as usize })
        } else if frames > remaining {
            Some(
                RingPushError::Overflow {
                    requested: frames as usize,
                    remaining: remaining as usize,
                    capacity: self.capacity_frames,
                },
            )
        } else if self.write_sequence + frames > u64::MAX {
            Some(RingPushError::Sequence(RingSequenceError::Overflow))
        } else {
            None
        }
    }

    /// Why a block of `length` samples cannot be read ahead, if it cannot.
    pub open spec fn peek_refusal(self, length: nat) -> Option<RingPeekError> {
        let frames = length / CHANNELS as nat;
        if length % (CHANNELS as nat) != 0 {
            Some(RingPeekError::PartialFrame { samples: length as usize, channels: CHANNELS })
        } else if self.pending_frames is Some {
            Some(RingPeekError::PeekPending)
        } else if frames > self.fill() {
            Some(
                RingPeekError::Shortage {
                    required: frames as usize,
                    available: self.fill() as usize,
                },
            )
        } else {
            None
        }
    }

    /// This ring with `frames` frames read ahead.
    pub open spec fn reading_ahead(self, frames: usize) -> Self {
        FrameRing { pending_frames: Some(frames), ..self }
    }

    /// This ring with nothing read ahead.
    pub open spec fn settled(self) -> Self {
        FrameRing { pending_frames: None, ..self }
    }

    /// Whether `self` is `before` with `samples` queued behind everything else.
    pub open spec fn pushed_from(self, before: Self, samples: Seq<u32>) -> bool {
        &&& self.wf()
        &&& self.capacity_frames == before.capacity_frames
        &&& self.read_sequence == before.read_sequence
        &&& self.write_sequence == before.write_sequence + samples.len() / CHANNELS as nat
        &&& self.pending_frames == before.pending_frames
        &&& self.queued() == before.queued() + samples
    }

    /// Whether `self` is `before` with its pending frames released.
    pub open spec fn released_from(self, before: Self) -> bool {
        &&& self.wf()
        &&& self.capacity_frames == before.capacity_frames
        &&& self.samples@ == before.samples@
        &&& self.read_sequence == before.read_sequence + before.pending()
        &&& self.write_sequence == before.write_sequence
        &&& self.pending_frames is None
        &&& self.queued() == before.queued().skip(before.pending() * CHANNELS)
    }

    /// Whether this ring is new: empty, silent, with the given capacity.
    pub open spec fn is_new(self, capacity_frames: usize) -> bool {
        &&& self.wf()
        &&& self.capacity_frames == capacity_frames
        &&& self.write_sequence == 0
        &&& self.read_sequence == 0
        &&& self.pending_frames is None
        &&& self.queued() == Seq::<u32>::empty()
        &&& self.samples@ == Seq::new((capacity_frames * CHANNELS) as nat, |i: int| 0u32)
    }

    /// Builds an empty ring for `capacity_frames` frames. Apart from the stated
    /// refusals only a failed allocation refuses one.
    pub fn try_new(capacity_frames: usize) -> (result: Result<Self, RingBuildError>)
        requires
            CHANNELS > 0,
        ensures
            capacity_frames == 0 ==> result == Err::<Self, RingBuildError>(
                RingBuildError::ZeroCapacity,
            ),
            capacity_frames > 0 ==> match result {
                Ok(ring) => ring.is_new(capacity_frames),
                Err(error) => error == RingBuildError::Allocation,
            },
            capacity_frames * CHANNELS > usize::MAX ==> result is Err,
    {
        if capacity_frames == 0 {
            return Err(RingBuildError::ZeroCapacity);
        }
        let samples = match capacity_frames.checked_mul(CHANNELS) {
            Some(length) => allocate_silence(length),
            None => None,
        };
        Self::from_samples(capacity_frames, samples)
    }

    /// Builds an empty ring on the samples that were allocated for it, where they
    /// were.
    pub fn from_samples(capacity_frames: usize, samples: Option<Vec<u32>>) -> (result: Result<
        Self,
        RingBuildError,
    >)
        requires
            CHANNELS > 0,
            capacity_frames > 0,
            match samples {
                Some(samples) => samples@ == Seq::new(
                    (capacity_frames * CHANNELS) as nat,
                    |i: int| 0u32,
                ),
                None => true,
            },
        ensures
            match samples {
                Some(_) => result is Ok && result->Ok_0.is_new(capacity_frames),
                None => result == Err::<Self, RingBuildError>(RingBuildError::Allocation),
            },
    {
        match samples {
            Some(samples) => {
                let ring = FrameRing {
                    samples,
                    capacity_frames,
                    write_sequence: 0,
                    read_sequence: 0,
                    pending_frames: None,
                };
                proof {
                    assert(ring.queued() =~= Seq::<u32>::empty());
                }
                Ok(ring)
            },
            None => Err(RingBuildError::Allocation),
        }
    }

    pub fn capacity_frames(&self) -> (frames: usize)
        ensures
            frames == self.capacity_frames,
    {
        self.capacity_frames
    }

    /// The frames that can still be queued.
    pub fn free_frames(&self) -> (result: Result<usize, RingSequenceError>)
        requires
            self.wf(),
        ensures
            result == Ok::<usize, RingSequenceError>((self.capacity_frames - self.fill()) as usize),
    {
        let fill: usize = sequence_fill(
            self.capacity_frames,
            self.write_sequence,
            self.read_sequence,
        )?;
        Ok(self.capacity_frames - fill)
    }

    /// The frames queued for the reader.
    pub fn available_frames(&self) -> (result: Result<usize, RingSequenceError>)
        requires
            self.wf(),
        ensures
            result == Ok::<usize, RingSequenceError>(self.fill() as usize),
    {
        sequence_fill(self.capacity_frames, self.write_sequence, self.read_sequence)
    }

    /// Checks that a block can be queued, and tells the fill it would leave.
    pub fn prepare_push(&self, samples: &[u32]) -> (result: Result<usize, RingPushError>)
        requires
            self.wf(),
        ensures
            match self.push_refusal(samples@) {
                Some(error) => result == Err::<usize, RingPushError>(error),
                None => result == Ok::<usize, RingPushError>(
                    (self.fill() + samples@.len() / CHANNELS as nat) as usize,
                ),
            },
    {
        if samples.len() % CHANNELS != 0 {
            return Err(RingPushError::PartialFrame { samples: samples.len(), channels: CHANNELS });
        }
        if let Some(sample_index) = find_nonfinite(samples) {
            proof {
                lemma_all_finite(samples@);
            }
            return Err(RingPushError::NonFinite { sample_index });
        }
        let frames: usize = samples.len() / CHANNELS;
        let remaining: usize = match self.free_frames() {
            Ok(remaining) => remaining,
            Err(error) => {
                return Err(RingPushError::Sequence(error));
            },
        };
        if frames > remaining {
            return Err(
                RingPushError::Overflow {
                    requested: frames,
                    remaining,
                    capacity: self.capacity_frames,
                },
            );
        }
        if self.write_sequence.checked_add(frames as u64).is_none() {
            return Err(RingPushError::Sequence(RingSequenceError::Overflow));
        }
        Ok(self.capacity_frames - remaining + frames)
    }

    /// Queues one whole block of frames, or nothing.
    pub fn try_push(&mut self, samples: &[u32]) -> (result: Result<usize, RingPushError>)
        requires
            old(self).wf(),
        ensures
            match old(self).push_refusal(samples@) {
                Some(error) => result == Err::<usize, RingPushError>(error) && *final(self)
                    == *old(self),
                None => result == Ok::<usize, RingPushError>(
                    (samples@.len() / CHANNELS as nat) as usize,
                ) && final(self).pushed_from(*old(self), samples@),
            },
    {
        let fill_after: usize = self.prepare_push(samples)?;
        let frames: usize = samples.len() / CHANNELS;
        let total: usize = self.samples.len();
        let ghost before = *self;
        let ghost base = self.read_sequence * CHANNELS;
        let ghost queued = self.queued();
        let ghost length = queued.len();
        let slot: usize = (self.write_sequence % (self.capacity_frames as u64)) as usize;
        proof {
            let write = self.write_sequence as int;
            let capacity = self.capacity_frames as int;
            let channels = CHANNELS as int;
            lemma_truncate_middle(write, channels, capacity);
            assert(channels * write == write * channels) by (nonlinear_arith);
            assert(channels * capacity == capacity * channels) by (nonlinear_arith);
            assert(channels * slot == slot * channels) by (nonlinear_arith);
            assert(slot * channels < capacity * channels) by (nonlinear_arith)
                requires
                    slot < capacity,
                    channels > 0,
            ;
            lemma_fundamental_div_mod(samples@.len() as int, channels);
            assert(frames * channels == samples@.len()) by (nonlinear_arith)
                requires
                    samples@.len() == channels * frames + 0,
            ;
            let fill = self.fill();
            let incoming = samples@.len() as int;
            assert(fill * channels + incoming <= capacity * channels) by (nonlinear_arith)
                requires
                    frames * channels == incoming,
                    fill + frames <= capacity,
                    channels > 0,
            ;
            assert(base + length == write * channels) by (nonlinear_arith)
                requires
                    base == self.read_sequence * channels,
                    length == (write - self.read_sequence) * channels,
            ;
        }
        let mut position: usize = slot * CHANNELS;
        for index in 0..samples.len()
            invariant
                total > 0,
                self.samples@.len() == total,
                length == queued.len(),
                length + samples@.len() <= total,
                base >= 0,
                position == (base + length + index) % (total as int),
                position < total,
                self.capacity_frames == before.capacity_frames,
                self.read_sequence == before.read_sequence,
                self.write_sequence == before.write_sequence,
                self.pending_frames == before.pending_frames,
                forall|i: int|
                    0 <= i < length + index ==> self.samples@[#[trigger] ((base + i) % (
                    total as int))] == (queued + samples@)[i],
        {
            let ghost stored = self.samples@;
            self.samples[position] = samples[index];
            proof {
                assert forall|i: int| 0 <= i < length + index + 1 implies self.samples@[
                #[trigger] ((base + i) % (total as int))] == (queued + samples@)[i] by {
                    if i < length + index {
                        lemma_distinct_slots(base + i, base + length + index, total as int);
                        assert(self.samples@[(base + i) % (total as int)] == stored[(base + i) % (
                        total as int)]);
                    }
                }
                lemma_next_slot(base + length + index, total as int);
            }
            position = if position + 1 == total {
                0
            } else {
                position + 1
            };
        }
        self.write_sequence = self.write_sequence + frames as u64;
        proof {
            assert(self.fill() * CHANNELS == length + samples@.len()) by (nonlinear_arith)
                requires
                    self.fill() == before.fill() + frames,
                    length == before.fill() * CHANNELS,
                    frames * CHANNELS == samples@.len(),
            ;
            assert(self.queued() =~= queued + samples@);
        }
        Ok(frames)
    }

    /// Copies the oldest frames out without releasing them.
    pub fn peek_exact(&mut self, output: &mut [u32]) -> (result: Result<usize, RingPeekError>)
        requires
            old(self).wf(),
        ensures
            match old(self).peek_refusal(old(output)@.len()) {
                Some(error) => result == Err::<usize, RingPeekError>(error) && *final(self)
                    == *old(self) && final(output)@ == old(output)@,
                None => {
                    &&& result == Ok::<usize, RingPeekError>(
                        (old(output)@.len() / CHANNELS as nat) as usize,
                    )
                    &&& final(self).wf()
                    &&& *final(self) == (FrameRing {
                        pending_frames: Some((old(output)@.len() / CHANNELS as nat) as usize),
                        ..*old(self)
                    })
                    &&& final(self).queued() == old(self).queued()
                    &&& old(output)@.len() <= old(self).queued().len()
                    &&& final(output)@ == old(self).queued().take(old(output)@.len() as int)
                },
            },
    {
        let length: usize = output.len();
        if length % CHANNELS != 0 {
            return Err(RingPeekError::PartialFrame { samples: length, channels: CHANNELS });
        }
        if self.pending_frames.is_some() {
            return Err(RingPeekError::PeekPending);
        }
        let frames: usize = length / CHANNELS;
        let available: usize = match self.available_frames() {
            Ok(available) => available,
            Err(error) => {
                return Err(RingPeekError::Sequence(error));
            },
        };
        if frames > available {
            return Err(RingPeekError::Shortage { required: frames, available });
        }
        let total: usize = self.samples.len();
        let ghost base = self.read_sequence * CHANNELS;
        let ghost queued = self.queued();
        let slot: usize = (self.read_sequence % (self.capacity_frames as u64)) as usize;
        proof {
            let read = self.read_sequence as int;
            let capacity = self.capacity_frames as int;
            let channels = CHANNELS as int;
            lemma_truncate_middle(read, channels, capacity);
            assert(channels * read == read * channels) by (nonlinear_arith);
            assert(channels * capacity == capacity * channels) by (nonlinear_arith);
            assert(channels * slot == slot * channels) by (nonlinear_arith);
            assert(slot * channels < capacity * channels) by (nonlinear_arith)
                requires
                    slot < capacity,
                    channels > 0,
            ;
            lemma_fundamental_div_mod(length as int, channels);
            assert(length <= queued.len()) by (nonlinear_arith)
                requires
                    length == channels * frames + 0,
                    queued.len() == available * channels,
                    frames <= available,
                    channels > 0,
            ;
        }
        let mut position: usize = slot * CHANNELS;
        for index in 0..length
            invariant
                total > 0,
                self.samples@.len() == total,
                queued == self.queued(),
                base == self.read_sequence * CHANNELS,
                base >= 0,
                length <= queued.len(),
                output@.len() == length,
                position == (base + index) % (total as int),
                position < total,
                forall|i: int| 0 <= i < index ==> output@[i] == queued[i],
        {
            output[index] = self.samples[position];
            proof {
                lemma_next_slot(base + index, total as int);
            }
            position = if position + 1 == total {
                0
            } else {
                position + 1
            };
        }
        self.pending_frames = Some(frames);
        proof {
            assert(output@ =~= queued.take(length as int));
            assert(self.queued() =~= queued);
        }
        Ok(frames)
    }

    /// Releases the frames of the pending peek, if there is one.
    pub fn commit_peek(&mut self) -> (result: Result<(), RingSequenceError>)
        requires
            old(self).wf(),
        ensures
            result is Ok,
            final(self).released_from(*old(self)),
    {
        let ghost before = *self;
        let frames: usize = match self.pending_frames {
            Some(frames) => frames,
            None => {
                proof {
                    assert(self.queued() =~= before.queued().skip(0));
                }
                return Ok(());
            },
        };
        self.read_sequence = match self.read_sequence.checked_add(frames as u64) {
            Some(sequence) => sequence,
            None => {
                return Err(RingSequenceError::Overflow);
            },
        };
        self.pending_frames = None;
        proof {
            let channels = CHANNELS as int;
            assert(self.fill() * channels == before.fill() * channels - frames * channels)
                by (nonlinear_arith)
                requires
                    self.fill() == before.fill() - frames,
            ;
            assert(self.read_sequence * channels == before.read_sequence * channels + frames
                * channels) by (nonlinear_arith)
                requires
                    self.read_sequence == before.read_sequence + frames,
            ;
            assert(0 <= frames * channels <= before.fill() * channels) by (nonlinear_arith)
                requires
                    0 <= frames <= before.fill(),
                    channels > 0,
            ;
            assert(self.queued() =~= before.queued().skip(frames * channels));
        }
        Ok(())
    }

    /// Forgets the pending peek; its frames stay queued.
    pub fn cancel_peek(&mut self)
        requires
            old(self).wf(),
        ensures
            final(self).wf(),
            *final(self) == (FrameRing { pending_frames: None, ..*old(self) }),
            final(self).queued() == old(self).queued(),
    {
        let ghost before = *self;
        self.pending_frames = None;
        proof {
            assert(self.queued() =~= before.queued());
        }
    }
}

/// Allocates `length` zero samples, or nothing where memory is short. No samples
/// need no memory; whether the allocator has room for more is not stated.
pub fn allocate_silence(length: usize) -> (result: Option<Vec<u32>>)
    ensures
        length == 0 ==> result is Some,
        match result {
            Some(values) => values@ == Seq::new(length as nat, |i: int| 0u32),
            None => true,
        },
{
    allocate_filled(length, 0)
}

/// Allocates `length` copies of `value`, or nothing where memory is short. No
/// values need no memory; whether the allocator has room for more is not stated.
pub fn allocate_filled<T: Copy>(length: usize, value: T) -> (result: Option<Vec<T>>)
    ensures
        length == 0 ==> result is Some,
        match result {
            Some(values) => values@ == Seq::new(length as nat, |i: int| value),
            None => true,
        },
{
    let mut values: Vec<T> = Vec::new();
    let reserved: bool = length == 0 || values.try_reserve(length).is_ok();
    fill_reserved(values, reserved, length, value)
}

/// Fills an empty buffer with `length` copies of `value` where room for them was
/// `reserved`.
pub fn fill_reserved<T: Copy>(values: Vec<T>, reserved: bool, length: usize, value: T) -> (result:
    Option<Vec<T>>)
    requires
        values@.len() == 0,
    ensures
        match result {
            Some(filled) => reserved && filled@ == Seq::new(length as nat, |i: int| value),
            None => !reserved,
        },
{
    if !reserved {
        return None;
    }
    let mut filled = values;
    for index in 0..length
        invariant
            filled@ == Seq::new(index as nat, |i: int| value),
    {
        filled.push(value);
        proof {
            assert(filled@ =~= Seq::new((index + 1) as nat, |i: int| value));
        }
    }
    Some(filled)
}

/// Two absolute positions less than one turn apart use different slots.
proof fn lemma_distinct_slots(first: int, second: int, total: int)
    requires
        0 <= first < second < first + total,
    ensures
        first % total != second % total,
{
    lemma_fundamental_div_mod(first, total);
    lemma_fundamental_div_mod(second, total);
    if first % total == second % total {
        let turns = second / total - first / total;
        assert(total * turns == second - first) by (nonlinear_arith)
            requires
                first == total * (first / total) + first % total,
                second == total * (second / total) + second % total,
                first % total == second % total,
                turns == second / total - first / total,
        ;
        assert(false) by (nonlinear_arith)
            requires
                0 < total * turns < total,
        ;
    }
}

/// The slot after `position % total` is the next one, wrapping at the end.
proof fn lemma_next_slot(position: int, total: int)
    requires
        position >= 0,
        total > 0,
    ensures
        (position + 1) % total == if position % total + 1 == total {
            0
        } else {
            position % total + 1
        },
        0 <= position % total < total,
{
    lemma_fundamental_div_mod(position, total);
    let quotient = position / total;
    let remainder = position % total;
    assert(total * quotient == quotient * total) by (nonlinear_arith);
    if remainder + 1 == total {
        assert((quotient + 1) * total == quotient * total + total) by (nonlinear_arith);
        lemma_fundamental_div_mod_converse(position + 1, total, quotient + 1, 0);
    } else {
        lemma_fundamental_div_mod_converse(position + 1, total, quotient, remainder + 1);
    }
}

/// A block read ahead is not disturbed by a block queued before its release:
/// releasing it leaves the older rest followed by the new block.
pub proof fn law_push_keeps_pending_peek<const CHANNELS: usize>(
    before: FrameRing<CHANNELS>,
    pushed: FrameRing<CHANNELS>,
    released: FrameRing<CHANNELS>,
    samples: Seq<u32>,
)
    requires
        before.wf(),
        before.push_refusal(samples) is None,
        pushed.pushed_from(before, samples),
        released.released_from(pushed),
    ensures
        pushed.queued().take(before.pending() * CHANNELS) == before.queued().take(
            before.pending() * CHANNELS,
        ),
        released.queued() == before.queued().skip(before.pending() * CHANNELS) + samples,
        released.fill() == before.fill() - before.pending() + samples.len() / CHANNELS as nat,
{
    let skipped = before.pending() * CHANNELS;
    assert(0 <= skipped <= before.queued().len()) by (nonlinear_arith)
        requires
            0 <= before.pending() <= before.fill(),
            skipped == before.pending() * CHANNELS,
            before.queued().len() == before.fill() * CHANNELS,
    ;
    assert(pushed.queued().take(skipped) =~= before.queued().take(skipped));
    assert(released.queued() =~= before.queued().skip(skipped) + samples);
}

/// Frames come out in the order they went in: a block queued behind others leaves
/// them in front, and once they are read ahead and released it is exactly what the
/// next read of its length copies.
pub proof fn law_first_in_first_out<const CHANNELS: usize>(
    before: FrameRing<CHANNELS>,
    pushed: FrameRing<CHANNELS>,
    drained: FrameRing<CHANNELS>,
    samples: Seq<u32>,
)
    requires
        before.wf(),
        before.pending_frames is None,
        before.push_refusal(samples) is None,
        pushed.pushed_from(before, samples),
        drained.released_from(
            FrameRing { pending_frames: Some(before.fill() as usize), ..pushed },
        ),
    ensures
        pushed.peek_refusal(before.queued().len()) is None,
        pushed.queued().take(before.queued().len() as int) == before.queued(),
        drained.queued() == samples,
        drained.peek_refusal(samples.len()) is None,
        drained.queued().take(samples.len() as int) == samples,
{
    let older = before.fill() * CHANNELS;
    let read = FrameRing { pending_frames: Some(before.fill() as usize), ..pushed };
    assert(older >= 0) by (nonlinear_arith)
        requires
            before.fill() >= 0,
            CHANNELS > 0,
            older == before.fill() * CHANNELS,
    ;
    lemma_fundamental_div_mod_converse(older, CHANNELS as int, before.fill(), 0);
    lemma_fundamental_div_mod(samples.len() as int, CHANNELS as int);
    assert(read.queued() =~= pushed.queued());
    assert(pushed.queued().take(older) =~= before.queued());
    assert(drained.queued() =~= samples);
    assert(drained.queued().take(samples.len() as int) =~= samples);
}

/// The fill of a queue is what was written and not yet read; sequences in the wrong
/// order or further apart than the queue has room are refused.
pub proof fn law_fill_is_written_less_read(
    capacity_frames: usize,
    write_sequence: u64,
    read_sequence: u64,
)
    ensures
        match fill_between(capacity_frames, write_sequence, read_sequence) {
            Ok(fill) => read_sequence + fill == write_sequence && fill <= capacity_frames,
            Err(RingSequenceError::InvalidOrder) => write_sequence < read_sequence,
            Err(RingSequenceError::CapacityExceeded) => write_sequence > read_sequence
                + capacity_frames,
            Err(RingSequenceError::Overflow) => false,
        },
{
}

/// A block is queued exactly if it is complete, finite and fits into the free
/// frames; a refusal says which of these fails, with its numbers.
pub proof fn law_refused_pushes_say_why<const CHANNELS: usize>(
    ring: FrameRing<CHANNELS>,
    samples: Seq<u32>,
)
    requires
        ring.wf(),
        samples.len() <= usize::MAX,
    ensures
        match ring.push_refusal(samples) {
            None => {
                &&& samples.len() % (CHANNELS as nat) == 0
                &&& all_finite(samples)
                &&& ring.fill() + samples.len() / CHANNELS as nat <= ring.capacity_frames
            },
            Some(RingPushError::PartialFrame { samples: counted, channels }) => {
                &&& counted == samples.len()
                &&& channels == CHANNELS
                &&& samples.len() % (CHANNELS as nat) != 0
            },
            Some(RingPushError::NonFinite { sample_index }) => {
                &&& sample_index < samples.len()
                &&& !finite(samples[sample_index as int])
                &&& forall|i: int| 0 <= i < sample_index ==> finite(#[trigger] samples[i])
            },
            Some(RingPushError::Overflow { requested, remaining, capacity }) => {
                &&& requested == samples.len() / CHANNELS as nat
                &&& remaining + ring.fill() == ring.capacity_frames
                &&& capacity == ring.capacity_frames
                &&& requested > remaining
            },
            Some(RingPushError::Sequence(error)) => error == RingSequenceError::Overflow
                && ring.write_sequence + samples.len() / CHANNELS as nat > u64::MAX,
        },
{
    law_finite_prefix_ends_at_the_first_bad_sample(samples);
    lemma_all_finite(samples);
    assert(samples.len() / CHANNELS as nat <= samples.len()) by (nonlinear_arith)
        requires
            CHANNELS > 0,
    ;
}

/// A read is granted exactly if it asks for complete frames that are queued while
/// nothing is read ahead; a refusal says which of these fails, with its numbers.
pub proof fn law_refused_reads_say_why<const CHANNELS: usize>(
    ring: FrameRing<CHANNELS>,
    length: usize,
)
    requires
        ring.wf(),
    ensures
        match ring.peek_refusal(length as nat) {
            None => {
                &&& length as nat % (CHANNELS as nat) == 0
                &&& ring.pending_frames is None
                &&& length as nat / CHANNELS as nat <= ring.fill()
                &&& length <= ring.queued().len()
            },
            Some(RingPeekError::PartialFrame { samples, channels }) => {
                &&& samples == length
                &&& channels == CHANNELS
                &&& length as nat % (CHANNELS as nat) != 0
            },
            Some(RingPeekError::PeekPending) => ring.pending_frames is Some,
            Some(RingPeekError::Shortage { required, available }) => {
                &&& required == length as nat / CHANNELS as nat
                &&& available == ring.fill()
                &&& required > available
            },
            Some(RingPeekError::Sequence(_)) => false,
        },
{
    let frames = length as nat / CHANNELS as nat;
    lemma_fundamental_div_mod(length as int, CHANNELS as int);
    assert(frames <= length) by (nonlinear_arith)
        requires
            CHANNELS > 0,
            frames == length as nat / CHANNELS as nat,
    ;
    if ring.peek_refusal(length as nat) is None {
        assert(length <= ring.fill() * CHANNELS) by (nonlinear_arith)
            requires
                length == CHANNELS * frames + 0,
                frames <= ring.fill(),
                CHANNELS > 0,
        ;
    }
}

/// Queuing adds to the end and changes nothing that is queued; releasing drops
/// exactly the frames that were read ahead from the front. Neither changes the
/// room.
pub proof fn law_queue_grows_behind_and_shrinks_in_front<const CHANNELS: usize>(
    before: FrameRing<CHANNELS>,
    pushed: FrameRing<CHANNELS>,
    released: FrameRing<CHANNELS>,
    samples: Seq<u32>,
    index: int,
)
    requires
        before.wf(),
        before.push_refusal(samples) is None,
        pushed.pushed_from(before, samples),
        released.released_from(before),
        0 <= index,
    ensures
        pushed.capacity_frames == before.capacity_frames,
        released.capacity_frames == before.capacity_frames,
        pushed.queued().len() == before.queued().len() + samples.len(),
        index < before.queued().len() ==> pushed.queued()[index] == before.queued()[index],
        index < samples.len() ==> pushed.queued()[before.queued().len() + index]
            == samples[index],
        pushed.pending() == before.pending(),
        released.fill() == before.fill() - before.pending(),
        released.pending() == 0,
        index < released.queued().len() ==> released.queued()[index] == before.queued()[index
            + before.pending() * CHANNELS],
{
    assert(0 <= before.pending() * CHANNELS <= before.fill() * CHANNELS) by (nonlinear_arith)
        requires
            0 <= before.pending() <= before.fill(),
    ;
}

} // verus!
