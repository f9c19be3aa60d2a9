//! Frame rings, handoff slots and clock observations.

use librewave_platform_linux::audio_host::clock_bridge::observation::{
    ClockAttemptEpoch, ClockFramePosition, ClockObservation, CopySlot, CopySlotError,
    MonotonicNanoseconds,
};
use librewave_platform_linux::audio_host::clock_bridge::spsc::{
    allocate_silence, fill_reserved, sequence_fill, FrameRing, RingBuildError, RingPeekError,
    RingPushError, RingSequenceError,
};
use librewave_platform_linux::audio_host::{
    CaptureClockObservation, GraphClockObservation, GraphClockObservationError,
    PlaybackClockObservation,
};

fn bits(samples: &[f32]) -> Vec<u32> {
    samples.iter().map(|sample| sample.to_bits()).collect()
}

fn floats(samples: &[u32]) -> Vec<f32> {
    samples.iter().map(|sample| f32::from_bits(*sample)).collect()
}

#[test]
fn publish_is_whole_and_peek_is_transactional() {
    let mut ring = FrameRing::<2>::try_new(3).expect("test ring");
    assert_eq!(ring.try_push(&bits(&[1.0, 2.0, 3.0, 4.0])), Ok(2));
    let mut first = [0; 2];
    assert_eq!(ring.peek_exact(&mut first), Ok(1));
    assert_eq!(floats(&first), [1.0, 2.0]);
    assert_eq!(ring.available_frames(), Ok(2), "peek must not publish a read cursor");
    assert_eq!(ring.free_frames(), Ok(1));
    ring.commit_peek().expect("commit first peek");
    assert_eq!(ring.available_frames(), Ok(1));
    assert_eq!(ring.free_frames(), Ok(2));
}

#[test]
fn rejected_publish_exposes_no_partial_block() {
    let mut ring = FrameRing::<2>::try_new(2).expect("test ring");
    assert!(matches!(
        ring.try_push(&bits(&[1.0, 2.0, 3.0, 4.0, 5.0, 6.0])),
        Err(RingPushError::Overflow { .. })
    ));
    assert_eq!(ring.available_frames(), Ok(0));
    assert_eq!(
        ring.try_push(&bits(&[1.0, f32::NAN])),
        Err(RingPushError::NonFinite { sample_index: 1 })
    );
    assert_eq!(ring.available_frames(), Ok(0));
    assert_eq!(
        ring.try_push(&bits(&[1.0])),
        Err(RingPushError::PartialFrame { samples: 1, channels: 2 })
    );
}

#[test]
fn wrapped_blocks_keep_exact_sample_order() {
    let mut ring = FrameRing::<1>::try_new(4).expect("test ring");
    ring.try_push(&bits(&[1.0, 2.0, 3.0])).expect("first publish");
    let mut first = [0; 2];
    ring.peek_exact(&mut first).expect("first peek");
    ring.commit_peek().expect("first commit");
    ring.try_push(&bits(&[4.0, 5.0, 6.0])).expect("wrapped publish");
    let mut wrapped = [0; 4];
    ring.peek_exact(&mut wrapped).expect("wrapped peek");
    assert_eq!(floats(&wrapped), [3.0, 4.0, 5.0, 6.0]);
}

#[test]
fn interleaved_producer_and_consumer_completions_keep_exact_fill() {
    let mut ring = FrameRing::<1>::try_new(6).expect("test ring");
    ring.try_push(&bits(&[1.0, 2.0, 3.0])).expect("initial publish");
    let mut pending = [0; 2];
    ring.peek_exact(&mut pending).expect("transactional peek");

    ring.try_push(&bits(&[4.0, 5.0])).expect("concurrent-side publish");
    ring.commit_peek().expect("commit older peek");

    assert_eq!(ring.available_frames(), Ok(3));
    let mut remaining = [0; 3];
    ring.peek_exact(&mut remaining).expect("remaining samples");
    assert_eq!(floats(&remaining), [3.0, 4.0, 5.0]);
}

#[test]
fn absolute_write_sequence_overflow_is_rejected() {
    let mut ring = FrameRing::<1>::try_new(2).expect("test ring");
    ring.write_sequence = u64::MAX;
    ring.read_sequence = u64::MAX;

    assert_eq!(
        ring.try_push(&bits(&[1.0])),
        Err(RingPushError::Sequence(RingSequenceError::Overflow))
    );
    assert_eq!(ring.write_sequence, u64::MAX);
    assert_eq!(ring.read_sequence, u64::MAX);
}

#[test]
fn ring_refusals_are_exact() {
    assert_eq!(FrameRing::<1>::try_new(0).map(|_| ()), Err(RingBuildError::ZeroCapacity));
    assert_eq!(FrameRing::<2>::try_new(usize::MAX).map(|_| ()), Err(RingBuildError::Allocation));
    let mut ring = FrameRing::<2>::try_new(2).expect("test ring");
    assert_eq!(ring.capacity_frames(), 2);
    ring.try_push(&bits(&[1.0, 2.0])).expect("publish");
    assert_eq!(
        ring.prepare_push(&bits(&[1.0, 2.0, 3.0, 4.0])),
        Err(RingPushError::Overflow { requested: 2, remaining: 1, capacity: 2 })
    );
    assert_eq!(ring.prepare_push(&bits(&[1.0, 2.0])), Ok(2));
    let mut two = [0; 4];
    assert_eq!(
        ring.peek_exact(&mut two),
        Err(RingPeekError::Shortage { required: 2, available: 1 })
    );
    assert_eq!(
        ring.peek_exact(&mut [0; 1]),
        Err(RingPeekError::PartialFrame { samples: 1, channels: 2 })
    );
    assert_eq!(ring.peek_exact(&mut [0; 2]), Ok(1));
    assert_eq!(ring.peek_exact(&mut [0; 2]), Err(RingPeekError::PeekPending));
    ring.cancel_peek();
    assert_eq!(ring.available_frames(), Ok(1));
    assert_eq!(ring.peek_exact(&mut [0; 2]), Ok(1));
}

#[test]
fn sequences_give_the_fill() {
    assert_eq!(sequence_fill(4, 7, 5), Ok(2));
    assert_eq!(sequence_fill(4, 5, 7), Err(RingSequenceError::InvalidOrder));
    assert_eq!(sequence_fill(4, 12, 7), Err(RingSequenceError::CapacityExceeded));
    assert_eq!(allocate_silence(3), Some(vec![0, 0, 0]));
}

#[test]
fn silence_needs_reserved_room() {
    assert_eq!(allocate_silence(0), Some(Vec::new()));
    assert_eq!(allocate_silence(usize::MAX), None);
    assert_eq!(fill_reserved(Vec::new(), true, 2, 0), Some(vec![0, 0]));
    assert_eq!(fill_reserved(Vec::new(), true, 0, 0), Some(Vec::new()));
    assert_eq!(fill_reserved(Vec::new(), false, 2, 0), None);
}

#[test]
fn publication_and_consumption_are_transactional_and_do_not_overwrite() {
    let mut slot = CopySlot::<u64>::new();
    assert_eq!(slot.prepare_publish(), Ok(()));
    assert!(matches!(slot.peek(), Err(CopySlotError::Empty)));

    slot.prepare_publish().expect("second preview");
    slot.try_publish(2).expect("second publication");
    assert!(matches!(slot.prepare_publish(), Err(CopySlotError::Full)));
    assert_eq!(slot.peek(), Ok(2));
    assert!(matches!(slot.prepare_publish(), Err(CopySlotError::Full)));

    assert_eq!(slot.try_take(), Ok(2));
    slot.try_publish(3).expect("slot released");
    assert_eq!(slot.peek(), Ok(3));
}

#[test]
fn direct_publication_drops_new_values_while_full() {
    let mut slot = CopySlot::<u64>::new();
    slot.try_publish(7).expect("empty slot");
    assert_eq!(slot.try_publish(8), Err(CopySlotError::Full));
    assert_eq!(slot.try_take(), Ok(7));
    assert_eq!(slot.try_take(), Err(CopySlotError::Empty));
    slot.try_publish(9).expect("released slot");
    assert_eq!(slot.try_take(), Ok(9));
}

#[test]
fn observations_carry_their_clock() {
    let clock = ClockObservation {
        epoch: ClockAttemptEpoch { value: 4 },
        frame_position: ClockFramePosition { frames: 96 },
        monotonic_time: MonotonicNanoseconds { nanoseconds: 2_000_000 },
    };
    assert_eq!(CaptureClockObservation::new(clock).clock(), clock);
    let graph = GraphClockObservation::try_new(clock, 128).expect("quantum");
    assert_eq!((graph.clock(), graph.quantum_frames()), (clock, 128));
    assert_eq!(
        GraphClockObservation::try_new(clock, 0),
        Err(GraphClockObservationError::ZeroQuantum)
    );
    assert_eq!(
        GraphClockObservationError::ZeroQuantum.message(),
        "graph clock observation quantum must be nonzero"
    );
    let ahead = ClockFramePosition { frames: 100 };
    let playback = PlaybackClockObservation::new(clock, ahead);
    assert_eq!((playback.hardware(), playback.application_frame_position()), (clock, ahead));
}

#[test]
fn each_allocation_outcome_of_a_ring_has_its_result() {
    assert_eq!(
        FrameRing::<2>::from_samples(3, None).map(|_| ()),
        Err(RingBuildError::Allocation)
    );
    let ring = FrameRing::<2>::from_samples(3, Some(vec![0; 6])).expect("allocated samples");
    assert_eq!(ring.capacity_frames(), 3);
    assert_eq!(ring.available_frames(), Ok(0));
    assert_eq!(
        FrameRing::<2>::try_new(usize::MAX).map(|_| ()),
        Err(RingBuildError::Allocation)
    );
}

#[test]
fn a_block_behind_others_comes_out_after_them() {
    let mut ring = FrameRing::<1>::try_new(8).expect("ring");
    ring.try_push(&[1, 2, 3]).expect("older block");
    ring.try_push(&[4, 5]).expect("newer block");
    let mut older = [0; 3];
    assert_eq!(ring.peek_exact(&mut older), Ok(3));
    assert_eq!(older, [1, 2, 3]);
    ring.commit_peek().expect("release");
    let mut newer = [0; 2];
    assert_eq!(ring.peek_exact(&mut newer), Ok(2));
    assert_eq!(newer, [4, 5]);
}

#[test]
fn reading_ahead_changes_nothing_but_its_mark() {
    let mut ring = FrameRing::<1>::try_new(4).expect("ring");
    assert_eq!(ring.peek_exact(&mut []), Ok(0));
    ring.cancel_peek();
    assert_eq!(ring.capacity_frames(), 4);
    assert_eq!(ring.free_frames(), Ok(4));
    ring.try_push(&[1, 2, 3, 4]).expect("a full ring");
    assert_eq!(ring.peek_exact(&mut [0; 3]), Ok(3));
    ring.cancel_peek();
    assert_eq!((ring.capacity_frames(), ring.write_sequence, ring.read_sequence), (4, 4, 0));
}
