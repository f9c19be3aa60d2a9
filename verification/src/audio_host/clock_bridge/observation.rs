//! Clock samples and their single-value handoff.

use vstd::prelude::*;
use vstd::string::*;

verus! {

/// Identifies one attempt; samples of different attempts never mix.
#[derive(Clone, Copy, Debug, Eq, PartialEq, Structural)]
pub struct ClockAttemptEpoch {
    pub value: u64,
}

/// An absolute frame position in one clock domain.
#[derive(Clone, Copy, Debug, Eq, PartialEq, Structural)]
pub struct ClockFramePosition {
    pub frames: u64,
}

/// A monotonic timestamp in nanoseconds.
#[derive(Clone, Copy, Debug, Eq, PartialEq, Structural)]
pub struct MonotonicNanoseconds {
    pub nanoseconds: u64,
}

/// One clock's frame position at one monotonic instant of one attempt.
#[derive(Clone, Copy, Debug, Eq, PartialEq, Structural)]
pub struct ClockObservation {
    pub epoch: ClockAttemptEpoch,
    pub frame_position: ClockFramePosition,
    pub monotonic_time: MonotonicNanoseconds,
}

/// One exact Wave capture clock sample supplied by the capture worker.
#[derive(Clone, Copy, Debug, Eq, PartialEq, Structural)]
pub struct CaptureClockObservation {
    pub clock: ClockObservation,
}

impl CaptureClockObservation {
    pub fn new(clock: ClockObservation) -> (observation: Self)
        ensures
            observation.clock == clock,
    {
        CaptureClockObservation { clock }
    }

    pub fn clock(self) -> (clock: ClockObservation)
        ensures
            clock == self.clock,
    {
        self.clock
    }
}

/// One exact `PipeWire` graph position and quantum sample.
#[derive(Clone, Copy, Debug, Eq, PartialEq, Structural)]
pub struct GraphClockObservation {
    pub clock: ClockObservation,
    pub quantum_frames: usize,
}

impl GraphClockObservation {
    /// Constructs an observation. A graph quantum must contain at least one
    /// frame; the configured attempt ceiling is checked by the processor.
    pub fn try_new(clock: ClockObservation, quantum_frames: usize) -> (result: Result<
        Self,
        GraphClockObservationError,
    >)
        ensures
            result == if quantum_frames == 0 {
                Err::<Self, GraphClockObservationError>(GraphClockObservationError::ZeroQuantum)
            } else {
                Ok::<Self, GraphClockObservationError>(
                    (GraphClockObservation { clock, quantum_frames }),
                )
            },
    {
        if quantum_frames == 0 {
            return Err(GraphClockObservationError::ZeroQuantum);
        }
        Ok(GraphClockObservation { clock, quantum_frames })
    }

    pub fn clock(self) -> (clock: ClockObservation)
        ensures
            clock == self.clock,
    {
        self.clock
    }

    pub fn quantum_frames(self) -> (frames: usize)
        ensures
            frames == self.quantum_frames,
    {
        self.quantum_frames
    }
}

/// Why a graph observation was rejected before processing.
#[derive(Clone, Copy, Debug, Eq, PartialEq, Structural)]
pub enum GraphClockObservationError {
    ZeroQuantum,
}

impl GraphClockObservationError {
    /// Describes this error to a person.
    pub fn message(&self) -> (message: String)
        ensures
            message@ == "graph clock observation quantum must be nonzero"@,
    {
        String::from_str("graph clock observation quantum must be nonzero")
    }
}

/// One exact Wave playback hardware sample and its ALSA application position.
#[derive(Clone, Copy, Debug, Eq, PartialEq, Structural)]
pub struct PlaybackClockObservation {
    pub hardware: ClockObservation,
    pub application_frame_position: ClockFramePosition,
}

impl PlaybackClockObservation {
    pub fn new(
        hardware: ClockObservation,
        application_frame_position: ClockFramePosition,
    ) -> (observation: Self)
        ensures
            observation.hardware == hardware,
            observation.application_frame_position == application_frame_position,
    {
        PlaybackClockObservation { hardware, application_frame_position }
    }

    pub fn hardware(self) -> (clock: ClockObservation)
        ensures
            clock == self.hardware,
    {
        self.hardware
    }

    pub fn application_frame_position(self) -> (position: ClockFramePosition)
        ensures
            position == self.application_frame_position,
    {
        self.application_frame_position
    }
}

/// Why a handoff slot refused an operation.
#[derive(Clone, Copy, Debug, Eq, PartialEq, Structural)]
pub enum CopySlotError {
    Full,
    Empty,
}

/// Hands one value at a time from a publisher to a reader, never overwriting.
#[derive(Debug)]
pub struct CopySlot<T: Copy> {
    pub value: Option<T>,
}

impl<T: Copy> CopySlot<T> {
    /// An empty slot.
    pub fn new() -> (slot: Self)
        ensures
            slot.value is None,
    {
        CopySlot { value: None }
    }

    /// Checks that a value could be published now; nothing is published.
    pub fn prepare_publish(&self) -> (result: Result<(), CopySlotError>)
        ensures
            result == match self.value {
                Some(_) => Err::<(), CopySlotError>(CopySlotError::Full),
                None => Ok::<(), CopySlotError>(()),
            },
    {
        if self.value.is_some() {
            return Err(CopySlotError::Full);
        }
        Ok(())
    }

    /// Publishes `value` into an empty slot; a full slot keeps what it holds.
    pub fn try_publish(&mut self, value: T) -> (result: Result<(), CopySlotError>)
        ensures
            match old(self).value {
                Some(_) => result == Err::<(), CopySlotError>(CopySlotError::Full) && *final(self)
                    == *old(self),
                None => result == Ok::<(), CopySlotError>(()) && final(self).value == Some(value),
            },
    {
        self.prepare_publish()?;
        self.value = Some(value);
        Ok(())
    }

    /// Reads the published value without releasing the slot.
    pub fn peek(&self) -> (result: Result<T, CopySlotError>)
        ensures
            result == match self.value {
                Some(value) => Ok::<T, CopySlotError>(value),
                None => Err::<T, CopySlotError>(CopySlotError::Empty),
            },
    {
        match self.value {
            Some(value) => Ok(value),
            None => Err(CopySlotError::Empty),
        }
    }

    /// Reads the published value and releases the slot.
    pub fn try_take(&mut self) -> (result: Result<T, CopySlotError>)
        ensures
            result == match old(self).value {
                Some(value) => Ok::<T, CopySlotError>(value),
                None => Err::<T, CopySlotError>(CopySlotError::Empty),
            },
            final(self).value is None,
    {
        let value = self.peek()?;
        self.value = None;
        Ok(value)
    }
}

} // verus!
