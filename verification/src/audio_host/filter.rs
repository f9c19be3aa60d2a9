//! The realtime boundary of the private graph filter.

use crate::text::{signed_decimal, signed_decimal_text};
use vstd::prelude::*;
use vstd::string::*;

verus! {

/// The number of ports the filter owns.
pub const PORT_COUNT: usize = 8;

/// The number of faults that are kept.
pub const FAULT_CAPACITY: usize = 16;

/// Any filter state without a meaning of its own.
pub const FILTER_STATE_OTHER: i32 = 0;

/// The filter is connected but not processing.
pub const FILTER_STATE_PAUSED: i32 = 1;

/// The filter is processing.
pub const FILTER_STATE_STREAMING: i32 = 2;

/// The filter has failed.
pub const FILTER_STATE_ERROR: i32 = 3;

/// Why a cycle of the filter ended the attempt.
#[derive(Clone, Copy, Debug, Eq, PartialEq, Structural)]
pub enum ProcessFault {
    MissingBuffer,
    InvalidQuantum,
    RateChanged,
    DriverChanged,
    PositionDiscontinuity,
    AliasedBuffer,
    MisalignedBuffer,
    Processor,
    Panic,
    Pause,
    StaleSystemTail,
    SystemPriming,
    SystemDrain,
    SystemLatency,
    BufferExtentOverflow,
    FilterError,
    UnexpectedFilterState,
}

/// One recorded fault and the cycle it happened in.
#[derive(Clone, Copy, Debug, Eq, PartialEq, Structural)]
pub struct FaultRecord {
    pub fault: ProcessFault,
    pub driver_id: u32,
    pub position: u64,
    pub expected_position: u64,
    pub quantum: u32,
    pub missing_mask: u32,
}

/// The first faults of an attempt, and the number of later ones.
#[derive(Debug)]
pub struct FaultRecords {
    pub next: usize,
    pub dropped: u64,
    pub slots: Vec<Option<FaultRecord>>,
}

impl FaultRecords {
    /// There are exactly as many slots as faults are kept.
    pub open spec fn wf(self) -> bool {
        self.slots@.len() == 16
    }

    /// These records with one more fault.
    pub open spec fn pushed(self, after: Self, record: FaultRecord) -> bool {
        &&& after.next == self.next.wrapping_add(1)
        &&& if self.next < 16 {
            &&& after.slots@ == self.slots@.update(self.next as int, Some(record))
            &&& after.dropped == self.dropped
        } else {
            &&& after.slots@ == self.slots@
            &&& after.dropped == self.dropped.wrapping_add(1)
        }
    }

    pub fn new() -> (records: Self)
        ensures
            records.wf(),
            records.next == 0,
            records.dropped == 0,
            forall|i: int| 0 <= i < 16 ==> #[trigger] records.slots@[i] is None,
    {
        let mut slots: Vec<Option<FaultRecord>> = Vec::new();
        for index in 0..FAULT_CAPACITY
            invariant
                slots@.len() == index,
                forall|i: int| 0 <= i < index ==> #[trigger] slots@[i] is None,
        {
            slots.push(None);
        }
        FaultRecords { next: 0, dropped: 0, slots }
    }

    /// Keeps a fault where there is room, and counts it where there is none.
    pub fn push(&mut self, record: FaultRecord)
        requires
            old(self).wf(),
        ensures
            final(self).wf(),
            old(self).pushed(*final(self), record),
    {
        let index: usize = self.next;
        self.next = self.next.wrapping_add(1);
        if index < FAULT_CAPACITY {
            self.slots[index] = Some(record);
        } else {
            self.dropped = self.dropped.wrapping_add(1);
        }
    }

    /// Copies the kept faults and the number of later ones.
    pub fn snapshot(&self) -> (snapshot: (Vec<Option<FaultRecord>>, u64))
        ensures
            snapshot.0@ == self.slots@,
            snapshot.1 == self.dropped,
    {
        let mut slots: Vec<Option<FaultRecord>> = Vec::new();
        for index in 0..self.slots.len()
            invariant
                slots@ == self.slots@.take(index as int),
        {
            slots.push(self.slots[index]);
            proof {
                assert(self.slots@.take(index + 1) =~= self.slots@.take(index as int).push(
                    self.slots@[index as int],
                ));
            }
        }
        proof {
            assert(self.slots@.take(self.slots@.len() as int) =~= self.slots@);
        }
        (slots, self.dropped)
    }
}

/// The life of the System links around one cycle.
#[derive(Clone, Copy, Debug, Eq, PartialEq, Structural)]
pub enum SystemCycleState {
    Idle,
    Priming,
    Active,
    Draining,
}

/// The clock of one cycle.
#[derive(Clone, Copy, Debug, Eq, PartialEq, Structural)]
pub struct ProcessTiming {
    pub driver_id: u32,
    pub rate: u32,
    pub position: u64,
    pub quantum: u32,
}

/// Holds every cycle to one driver, one rate, one quantum and gapless positions.
#[derive(Clone, Copy, Debug, Eq, PartialEq, Structural)]
pub struct CycleValidator {
    pub expected_driver: u32,
    pub expected_quantum: u32,
    /// Where the next cycle must begin, once one has run.
    pub previous_position: Option<u64>,
}

impl CycleValidator {
    /// Why a cycle is refused, with the value that was expected, if it is.
    pub open spec fn refusal(self, timing: ProcessTiming) -> Option<(ProcessFault, u64)> {
        if timing.driver_id != self.expected_driver {
            Some((ProcessFault::DriverChanged, self.expected_driver as u64))
        } else if timing.rate != 48_000 {
            Some((ProcessFault::RateChanged, 48_000))
        } else if timing.quantum != self.expected_quantum {
            Some((ProcessFault::InvalidQuantum, self.expected_quantum as u64))
        } else if self.previous_position is Some && self.previous_position->Some_0
            != timing.position {
            Some((ProcessFault::PositionDiscontinuity, self.previous_position->Some_0))
        } else {
            None
        }
    }

    /// The validator after an accepted cycle.
    pub open spec fn after(self, timing: ProcessTiming) -> Self {
        CycleValidator {
            previous_position: if timing.position + timing.quantum <= u64::MAX {
                Some((timing.position + timing.quantum) as u64)
            } else {
                None
            },
            ..self
        }
    }

    /// Accepts the next cycle, or tells the fault and the value expected.
    pub fn validate(&mut self, timing: ProcessTiming) -> (result: Result<(), (ProcessFault, u64)>)
        ensures
            match old(self).refusal(timing) {
                Some(fault) => result == Err::<(), (ProcessFault, u64)>(fault) && *final(self)
                    == *old(self),
                None => result == Ok::<(), (ProcessFault, u64)>(()) && *final(self) == old(
                    self,
                ).after(timing),
            },
    {
        if timing.driver_id != self.expected_driver {
            return Err((ProcessFault::DriverChanged, self.expected_driver as u64));
        }
        if timing.rate != 48_000 {
            return Err((ProcessFault::RateChanged, 48_000));
        }
        if timing.quantum != self.expected_quantum {
            return Err((ProcessFault::InvalidQuantum, self.expected_quantum as u64));
        }
        if let Some(expected) = self.previous_position {
            if timing.position != expected {
                return Err((ProcessFault::PositionDiscontinuity, expected));
            }
        }
        self.previous_position = timing.position.checked_add(timing.quantum as u64);
        Ok(())
    }
}

/// Whether a sample is positive or negative zero.
pub open spec fn is_zero(bits: u32) -> bool {
    bits == 0 || bits == 0x8000_0000
}

/// Whether every sample is zero.
pub open spec fn all_zero(samples: Seq<u32>) -> bool {
    forall|i: int| 0 <= i < samples.len() ==> is_zero(#[trigger] samples[i])
}

/// Tells whether every sample is zero.
pub fn is_silent(samples: &[u32]) -> (silent: bool)
    ensures
        silent == all_zero(samples@),
{
    for index in 0..samples.len()
        invariant
            forall|i: int| 0 <= i < index ==> is_zero(#[trigger] samples@[i]),
    {
        if samples[index] != 0 && samples[index] != 0x8000_0000 {
            proof {
                assert(!is_zero(samples@[index as int]));
            }
            return false;
        }
    }
    true
}

/// Follows the System links from cycle to cycle. An odd word means that links
/// are present; every change of the links changes the word.
#[derive(Clone, Copy, Debug, Eq, PartialEq, Structural)]
pub struct SystemTracker {
    pub observed_word: u64,
    pub state: SystemCycleState,
}

impl SystemTracker {
    /// The state of the cycle that sees `link_word`.
    pub open spec fn current(self, link_word: u64) -> SystemCycleState {
        let was_present = self.observed_word % 2 == 1;
        let is_present = link_word % 2 == 1;
        if link_word == self.observed_word {
            self.state
        } else if is_present {
            if was_present {
                SystemCycleState::Active
            } else {
                SystemCycleState::Priming
            }
        } else {
            if was_present {
                SystemCycleState::Draining
            } else {
                SystemCycleState::Idle
            }
        }
    }

    /// The tracker after the cycle that saw `link_word`.
    pub open spec fn after(self, link_word: u64) -> Self {
        SystemTracker {
            observed_word: link_word,
            state: match self.current(link_word) {
                SystemCycleState::Priming => SystemCycleState::Active,
                SystemCycleState::Draining => SystemCycleState::Idle,
                other => other,
            },
        }
    }

    /// Moves on by one cycle. Sound without links is a stale tail.
    pub fn advance(&mut self, link_word: u64, left: &[u32], right: &[u32]) -> (result: Result<
        SystemCycleState,
        (),
    >)
        ensures
            *final(self) == old(self).after(link_word),
            result == if old(self).current(link_word) == SystemCycleState::Idle && !(all_zero(left@)
                && all_zero(right@)) {
                Err::<SystemCycleState, ()>(())
            } else {
                Ok::<SystemCycleState, ()>(old(self).current(link_word))
            },
    {
        if link_word != self.observed_word {
            let was_present = self.observed_word % 2 == 1;
            let is_present = link_word % 2 == 1;
            self.observed_word = link_word;
            self.state = match (was_present, is_present) {
                (false, true) => SystemCycleState::Priming,
                (true, false) => SystemCycleState::Draining,
                (true, true) => SystemCycleState::Active,
                (false, false) => SystemCycleState::Idle,
            };
        }
        let current = self.state;
        self.state = match current {
            SystemCycleState::Priming => SystemCycleState::Active,
            SystemCycleState::Draining => SystemCycleState::Idle,
            other => other,
        };
        if current == SystemCycleState::Idle && !(is_silent(left) && is_silent(right)) {
            return Err(());
        }
        Ok(current)
    }
}

/// A new link has exactly one priming cycle before it is active, and a removed
/// one exactly one draining cycle before it is idle.
pub proof fn law_links_prime_and_drain_once(tracker: SystemTracker, word: u64)
    requires
        word != tracker.observed_word,
    ensures
        tracker.observed_word % 2 == 0 && word % 2 == 1 ==> {
            &&& tracker.current(word) == SystemCycleState::Priming
            &&& tracker.after(word).current(word) == SystemCycleState::Active
            &&& tracker.after(word).after(word) == tracker.after(word)
        },
        tracker.observed_word % 2 == 1 && word % 2 == 0 ==> {
            &&& tracker.current(word) == SystemCycleState::Draining
            &&& tracker.after(word).current(word) == SystemCycleState::Idle
            &&& tracker.after(word).after(word) == tracker.after(word)
        },
{
}

/// Why a cycle's buffers cannot be used.
#[derive(Clone, Copy, Debug, Eq, PartialEq, Structural)]
pub enum BufferRangeError {
    Null,
    Misaligned,
    ExtentOverflow,
    Overlap,
}

/// The number of bytes of one buffer of `frames` samples, where a buffer can be
/// that large.
pub open spec fn extent(frames: usize) -> Option<int> {
    if 4 * frames <= isize::MAX {
        Some(4 * frames)
    } else {
        None
    }
}

/// Why one buffer cannot be used, if it cannot.
pub open spec fn buffer_refusal(address: usize, bytes: int) -> Option<BufferRangeError> {
    if address == 0 {
        Some(BufferRangeError::Null)
    } else if address % 4 != 0 {
        Some(BufferRangeError::Misaligned)
    } else if address + bytes > usize::MAX {
        Some(BufferRangeError::ExtentOverflow)
    } else {
        None
    }
}

/// Why the first unusable buffer cannot be used, if there is one.
pub open spec fn first_buffer_refusal(addresses: Seq<usize>, bytes: int) -> Option<BufferRangeError>
    decreases addresses.len(),
{
    if addresses.len() == 0 {
        None
    } else if buffer_refusal(addresses[0], bytes) is Some {
        buffer_refusal(addresses[0], bytes)
    } else {
        first_buffer_refusal(addresses.drop_first(), bytes)
    }
}

/// Whether two buffers share a byte.
pub open spec fn overlap(left: usize, right: usize, bytes: int) -> bool {
    left < right + bytes && right < left + bytes
}

/// Whether no two buffers share a byte.
pub open spec fn disjoint(addresses: Seq<usize>, bytes: int) -> bool {
    forall|i: int, j: int|
        0 <= i < j < addresses.len() ==> !overlap(
            #[trigger] addresses[i],
            #[trigger] addresses[j],
            bytes,
        )
}

/// Why a set of buffers cannot be used, if it cannot.
pub open spec fn range_refusal(addresses: Seq<usize>, frames: usize) -> Option<BufferRangeError> {
    if addresses.len() > 8 || extent(frames) is None {
        Some(BufferRangeError::ExtentOverflow)
    } else {
        let bytes = extent(frames)->Some_0;
        if first_buffer_refusal(addresses, bytes) is Some {
            first_buffer_refusal(addresses, bytes)
        } else if !disjoint(addresses, bytes) {
            Some(BufferRangeError::Overlap)
        } else {
            None
        }
    }
}

/// Checks that the buffers at `addresses` hold `frames` aligned samples each and
/// share no byte.
pub fn validate_buffer_ranges(addresses: &[usize], frames: usize) -> (result: Result<
    (),
    BufferRangeError,
>)
    ensures
        result == match range_refusal(addresses@, frames) {
            Some(error) => Err::<(), BufferRangeError>(error),
            None => Ok::<(), BufferRangeError>(()),
        },
{
    if addresses.len() > PORT_COUNT {
        return Err(BufferRangeError::ExtentOverflow);
    }
    let bytes: usize = match frames.checked_mul(4) {
        Some(bytes) => bytes,
        None => {
            return Err(BufferRangeError::ExtentOverflow);
        },
    };
    if bytes > isize::MAX as usize {
        return Err(BufferRangeError::ExtentOverflow);
    }
    proof {
        assert(addresses@.skip(0) =~= addresses@);
    }
    for index in 0..addresses.len()
        invariant
            bytes == 4 * frames,
            bytes <= isize::MAX,
            addresses@.len() <= 8,
            first_buffer_refusal(addresses@, bytes as int) == first_buffer_refusal(
                addresses@.skip(index as int),
                bytes as int,
            ),
            forall|i: int|
                0 <= i < index ==> buffer_refusal(#[trigger] addresses@[i], bytes as int) is None,
    {
        let start: usize = addresses[index];
        proof {
            assert(addresses@.skip(index as int)[0] == start);
            assert(addresses@.skip(index as int).drop_first() =~= addresses@.skip(index + 1));
        }
        if start == 0 {
            return Err(BufferRangeError::Null);
        }
        if start % 4 != 0 {
            return Err(BufferRangeError::Misaligned);
        }
        if start.checked_add(bytes).is_none() {
            return Err(BufferRangeError::ExtentOverflow);
        }
    }
    for left in 0..addresses.len()
        invariant
            bytes == 4 * frames,
            bytes <= isize::MAX,
            addresses@.len() <= 8,
            first_buffer_refusal(addresses@, bytes as int) is None,
            forall|i: int|
                0 <= i < addresses@.len() ==> buffer_refusal(
                    #[trigger] addresses@[i],
                    bytes as int,
                ) is None,
            forall|i: int, j: int|
                0 <= i < left && i < j < addresses@.len() ==> !overlap(
                    #[trigger] addresses@[i],
                    #[trigger] addresses@[j],
                    bytes as int,
                ),
    {
        for right in left + 1..addresses.len()
            invariant
                left < addresses@.len(),
                bytes == 4 * frames,
                bytes <= isize::MAX,
                addresses@.len() <= 8,
                first_buffer_refusal(addresses@, bytes as int) is None,
                forall|i: int|
                    0 <= i < addresses@.len() ==> buffer_refusal(
                        #[trigger] addresses@[i],
                        bytes as int,
                    ) is None,
                forall|i: int, j: int|
                    0 <= i < left && i < j < addresses@.len() ==> !overlap(
                        #[trigger] addresses@[i],
                        #[trigger] addresses@[j],
                        bytes as int,
                    ),
                forall|j: int|
                    left < j < right ==> !overlap(
                        addresses@[left as int],
                        #[trigger] addresses@[j],
                        bytes as int,
                    ),
        {
            let first: usize = addresses[left];
            let second: usize = addresses[right];
            proof {
                assert(buffer_refusal(addresses@[left as int], bytes as int) is None);
                assert(buffer_refusal(addresses@[right as int], bytes as int) is None);
            }
            if first < second + bytes && second < first + bytes {
                proof {
                    assert(overlap(addresses@[left as int], addresses@[right as int], bytes as int));
                }
                return Err(BufferRangeError::Overlap);
            }
        }
    }
    Ok(())
}

/// The fault that unusable buffers mean.
pub open spec fn range_fault(error: BufferRangeError) -> ProcessFault {
    match error {
        BufferRangeError::Null => ProcessFault::MissingBuffer,
        BufferRangeError::Misaligned => ProcessFault::MisalignedBuffer,
        BufferRangeError::ExtentOverflow => ProcessFault::BufferExtentOverflow,
        BufferRangeError::Overlap => ProcessFault::AliasedBuffer,
    }
}

/// The fault that a change of the filter's state means, if it means one.
pub open spec fn state_fault(previous: i32, state: i32, has_streamed: bool, stopping: bool)
    -> Option<ProcessFault> {
    if stopping {
        None
    } else if state == 3 {
        Some(ProcessFault::FilterError)
    } else if has_streamed && previous == 2 && state != 2 {
        if state == 1 {
            Some(ProcessFault::Pause)
        } else {
            Some(ProcessFault::UnexpectedFilterState)
        }
    } else {
        None
    }
}

/// Decides whether a change of the filter's state is a fault.
pub fn filter_state_fault(previous: i32, state: i32, has_streamed: bool, stopping: bool) -> (fault:
    Option<ProcessFault>)
    ensures
        fault == state_fault(previous, state, has_streamed, stopping),
{
    if stopping {
        return None;
    }
    if state == FILTER_STATE_ERROR {
        return Some(ProcessFault::FilterError);
    }
    if has_streamed && previous == FILTER_STATE_STREAMING && state != FILTER_STATE_STREAMING {
        if state == FILTER_STATE_PAUSED {
            return Some(ProcessFault::Pause);
        }
        return Some(ProcessFault::UnexpectedFilterState);
    }
    None
}

/// What the graph driver handed to one cycle.
#[derive(Clone, Copy, Debug, Eq, PartialEq, Structural)]
pub struct CycleInput {
    pub driver_id: u32,
    pub rate_num: u32,
    pub rate_denom: u32,
    pub position: u64,
    pub quantum: u32,
    pub missing_mask: u32,
}

impl CycleInput {
    /// The clock of this cycle.
    pub open spec fn spec_timing(self) -> ProcessTiming {
        ProcessTiming {
            driver_id: self.driver_id,
            rate: if self.rate_num == 1 {
                self.rate_denom
            } else {
                0
            },
            position: self.position,
            quantum: self.quantum,
        }
    }

    pub fn timing(&self) -> (timing: ProcessTiming)
        ensures
            timing == self.spec_timing(),
    {
        ProcessTiming {
            driver_id: self.driver_id,
            rate: if self.rate_num == 1 {
                self.rate_denom
            } else {
                0
            },
            position: self.position,
            quantum: self.quantum,
        }
    }

    /// The record of a fault in this cycle.
    pub open spec fn fault_record(self, fault: ProcessFault, expected_position: u64) -> FaultRecord {
        FaultRecord {
            fault,
            driver_id: self.driver_id,
            position: self.position,
            expected_position,
            quantum: self.quantum,
            missing_mask: self.missing_mask,
        }
    }
}

/// What the control thread and the filter's callbacks share.
///
/// One cycle runs through [`enter`](Self::enter), [`begin_cycle`](Self::begin_cycle),
/// [`follow_links`](Self::follow_links), the processor, and
/// [`finish_cycle`](Self::finish_cycle); a panicking processor is reported to
/// [`record_panic`](Self::record_panic). It ends with [`leave`](Self::leave).
#[derive(Debug)]
pub struct FilterCallbacks {
    pub validator: CycleValidator,
    pub system: SystemTracker,
    pub faults: FaultRecords,
    pub failed: bool,
    pub callbacks_in_flight: u32,
    pub process_cycles: u64,
    pub filter_state: i32,
    pub has_streamed: bool,
    pub stopping: bool,
}

/// What the callbacks saw so far.
#[derive(Debug)]
pub struct FilterDiagnostics {
    pub process_cycles: u64,
    pub filter_state: i32,
    pub failed: bool,
    pub faults: Vec<Option<FaultRecord>>,
    pub dropped_faults: u64,
}

impl FilterCallbacks {
    /// The fault records are valid.
    pub open spec fn wf(self) -> bool {
        self.faults.wf()
    }

    /// Whether `after` is `self` with one more fault, which has failed it.
    pub open spec fn recorded(self, after: Self, record: FaultRecord) -> bool {
        &&& self.faults.pushed(after.faults, record)
        &&& after == (FilterCallbacks { faults: after.faults, failed: true, ..self })
    }

    pub fn new(expected_driver: u32, expected_quantum: u32) -> (callbacks: Self)
        ensures
            callbacks.wf(),
            callbacks.validator == (CycleValidator {
                expected_driver,
                expected_quantum,
                previous_position: None,
            }),
            callbacks.system == (SystemTracker { observed_word: 0, state: SystemCycleState::Idle }),
            callbacks.faults.next == 0,
            callbacks.faults.dropped == 0,
            forall|i: int| 0 <= i < 16 ==> #[trigger] callbacks.faults.slots@[i] is None,
            !callbacks.failed && !callbacks.has_streamed && !callbacks.stopping,
            callbacks.callbacks_in_flight == 0,
            callbacks.process_cycles == 0,
            callbacks.filter_state == 0,
    {
        FilterCallbacks {
            validator: CycleValidator {
                expected_driver,
                expected_quantum,
                previous_position: None,
            },
            system: SystemTracker { observed_word: 0, state: SystemCycleState::Idle },
            faults: FaultRecords::new(),
            failed: false,
            callbacks_in_flight: 0,
            process_cycles: 0,
            filter_state: FILTER_STATE_OTHER,
            has_streamed: false,
            stopping: false,
        }
    }

    fn record(&mut self, record: FaultRecord)
        requires
            old(self).wf(),
        ensures
            final(self).wf(),
            old(self).recorded(*final(self), record),
    {
        self.faults.push(record);
        self.failed = true;
    }

    fn fail(&mut self, input: CycleInput, fault: ProcessFault, expected_position: u64)
        requires
            old(self).wf(),
        ensures
            final(self).wf(),
            old(self).recorded(*final(self), input.fault_record(fault, expected_position)),
    {
        self.record(
            FaultRecord {
                fault,
                driver_id: input.driver_id,
                position: input.position,
                expected_position,
                quantum: input.quantum,
                missing_mask: input.missing_mask,
            },
        );
    }

    /// Takes a change of the filter's state.
    pub fn on_state(&mut self, previous: i32, state: i32)
        requires
            old(self).wf(),
        ensures
            final(self).wf(),
            ({
                let changed = FilterCallbacks {
                    filter_state: state,
                    has_streamed: old(self).has_streamed || state == 2,
                    ..*old(self)
                };
                match state_fault(previous, state, old(self).has_streamed, old(self).stopping) {
                    Some(fault) => changed.recorded(
                        *final(self),
                        FaultRecord {
                            fault,
                            driver_id: 0,
                            position: 0,
                            expected_position: 0,
                            quantum: 0,
                            missing_mask: 0,
                        },
                    ),
                    None => *final(self) == changed,
                }
            }),
    {
        self.filter_state = state;
        if state == FILTER_STATE_STREAMING {
            self.has_streamed = true;
            return;
        }
        if let Some(fault) = filter_state_fault(previous, state, self.has_streamed, self.stopping) {
            self.record(
                FaultRecord {
                    fault,
                    driver_id: 0,
                    position: 0,
                    expected_position: 0,
                    quantum: 0,
                    missing_mask: 0,
                },
            );
        }
    }

    /// Counts a callback in; tells whether its cycle may run.
    pub fn enter(&mut self) -> (runs: bool)
        ensures
            runs == !old(self).failed,
            *final(self) == (FilterCallbacks {
                callbacks_in_flight: old(self).callbacks_in_flight.wrapping_add(1),
                ..*old(self)
            }),
    {
        self.callbacks_in_flight = self.callbacks_in_flight.wrapping_add(1);
        !self.failed
    }

    /// Counts a callback out.
    pub fn leave(&mut self)
        ensures
            *final(self) == (FilterCallbacks {
                callbacks_in_flight: old(self).callbacks_in_flight.wrapping_sub(1),
                ..*old(self)
            }),
    {
        self.callbacks_in_flight = self.callbacks_in_flight.wrapping_sub(1);
    }

    /// Why a cycle cannot begin, with the value expected, if it cannot; and
    /// whether its clock was accepted before.
    pub open spec fn cycle_refusal(
        self,
        input: CycleInput,
        buffers: Option<Seq<usize>>,
    ) -> Option<(ProcessFault, u64, bool)> {
        if input.missing_mask != 0 || buffers is None {
            Some((ProcessFault::MissingBuffer, 0, false))
        } else if input.quantum == 0 {
            Some((ProcessFault::InvalidQuantum, 0, false))
        } else if self.validator.refusal(input.spec_timing()) is Some {
            let (fault, expected) = self.validator.refusal(input.spec_timing())->Some_0;
            Some((fault, expected, false))
        } else {
            match range_refusal(buffers->Some_0, input.quantum as usize) {
                Some(error) => Some((range_fault(error), 0, true)),
                None => None,
            }
        }
    }

    /// Checks the clock and the buffer addresses of one cycle.
    pub fn begin_cycle(&mut self, input: CycleInput, buffers: Option<&[usize]>) -> (result: Result<
        ProcessTiming,
        ProcessFault,
    >)
        requires
            old(self).wf(),
        ensures
            final(self).wf(),
            ({
                let accepted = FilterCallbacks {
                    validator: old(self).validator.after(input.spec_timing()),
                    ..*old(self)
                };
                let addresses = match buffers {
                    Some(addresses) => Some(addresses@),
                    None => None,
                };
                match old(self).cycle_refusal(input, addresses) {
                    Some((fault, expected, timed)) => {
                        &&& result == Err::<ProcessTiming, ProcessFault>(fault)
                        &&& if timed {
                            accepted.recorded(*final(self), input.fault_record(fault, expected))
                        } else {
                            old(self).recorded(*final(self), input.fault_record(fault, expected))
                        }
                    },
                    None => {
                        &&& result == Ok::<ProcessTiming, ProcessFault>(input.spec_timing())
                        &&& *final(self) == accepted
                    },
                }
            }),
    {
        let addresses = match buffers {
            Some(addresses) => addresses,
            None => {
                self.fail(input, ProcessFault::MissingBuffer, 0);
                return Err(ProcessFault::MissingBuffer);
            },
        };
        if input.missing_mask != 0 {
            self.fail(input, ProcessFault::MissingBuffer, 0);
            return Err(ProcessFault::MissingBuffer);
        }
        if input.quantum == 0 {
            self.fail(input, ProcessFault::InvalidQuantum, 0);
            return Err(ProcessFault::InvalidQuantum);
        }
        let timing = input.timing();
        if let Err((fault, expected)) = self.validator.validate(timing) {
            self.fail(input, fault, expected);
            return Err(fault);
        }
        if let Err(error) = validate_buffer_ranges(addresses, input.quantum as usize) {
            let fault = match error {
                BufferRangeError::Null => ProcessFault::MissingBuffer,
                BufferRangeError::Misaligned => ProcessFault::MisalignedBuffer,
                BufferRangeError::ExtentOverflow => ProcessFault::BufferExtentOverflow,
                BufferRangeError::Overlap => ProcessFault::AliasedBuffer,
            };
            self.fail(input, fault, 0);
            return Err(fault);
        }
        Ok(timing)
    }

    /// Follows the System links into this cycle.
    pub fn follow_links(
        &mut self,
        input: CycleInput,
        link_word: u64,
        left: &[u32],
        right: &[u32],
    ) -> (result: Result<SystemCycleState, ProcessFault>)
        requires
            old(self).wf(),
        ensures
            final(self).wf(),
            ({
                let current = old(self).system.current(link_word);
                let followed = FilterCallbacks {
                    system: old(self).system.after(link_word),
                    ..*old(self)
                };
                if current == SystemCycleState::Idle && !(all_zero(left@) && all_zero(right@)) {
                    &&& result == Err::<SystemCycleState, ProcessFault>(
                        ProcessFault::StaleSystemTail,
                    )
                    &&& followed.recorded(
                        *final(self),
                        input.fault_record(ProcessFault::StaleSystemTail, 0),
                    )
                } else {
                    &&& result == Ok::<SystemCycleState, ProcessFault>(current)
                    &&& *final(self) == followed
                }
            }),
    {
        match self.system.advance(link_word, left, right) {
            Ok(state) => Ok(state),
            Err(()) => {
                self.fail(input, ProcessFault::StaleSystemTail, 0);
                Err(ProcessFault::StaleSystemTail)
            },
        }
    }

    /// Takes the outcome of the processor; tells whether the cycle failed.
    pub fn finish_cycle(&mut self, input: CycleInput, processed: Result<(), ProcessFault>) -> (failed:
        bool)
        requires
            old(self).wf(),
        ensures
            final(self).wf(),
            failed == processed is Err,
            match processed {
                Ok(()) => *final(self) == (FilterCallbacks {
                    process_cycles: old(self).process_cycles.wrapping_add(1),
                    ..*old(self)
                }),
                Err(fault) => old(self).recorded(*final(self), input.fault_record(fault, 0)),
            },
    {
        match processed {
            Ok(()) => {
                self.process_cycles = self.process_cycles.wrapping_add(1);
                false
            },
            Err(fault) => {
                self.fail(input, fault, 0);
                true
            },
        }
    }

    /// Records a panic inside a cycle.
    pub fn record_panic(&mut self, input: CycleInput)
        requires
            old(self).wf(),
        ensures
            final(self).wf(),
            old(self).recorded(*final(self), input.fault_record(ProcessFault::Panic, 0)),
    {
        self.fail(input, ProcessFault::Panic, 0);
    }

    /// Announces that the filter is being stopped, so that leaving the streaming
    /// state is no fault any more.
    pub fn begin_stop(&mut self)
        ensures
            *final(self) == (FilterCallbacks { stopping: true, ..*old(self) }),
    {
        self.stopping = true;
    }

    /// Copies what the callbacks saw so far.
    pub fn diagnostics(&self) -> (diagnostics: FilterDiagnostics)
        ensures
            diagnostics.process_cycles == self.process_cycles,
            diagnostics.filter_state == self.filter_state,
            diagnostics.failed == self.failed,
            diagnostics.faults@ == self.faults.slots@,
            diagnostics.dropped_faults == self.faults.dropped,
    {
        let (faults, dropped_faults) = self.faults.snapshot();
        FilterDiagnostics {
            process_cycles: self.process_cycles,
            filter_state: self.filter_state,
            failed: self.failed,
            faults,
            dropped_faults,
        }
    }
}

/// Why the filter refused a control operation.
#[derive(Clone, Copy, Debug, Eq, PartialEq, Structural)]
pub enum FilterControlError {
    Destroyed,
    PortIndexOutOfRange,
    PortAlreadyPresent,
    PortsMissing,
}

impl FilterControlError {
    /// Describes this refusal to a person.
    pub fn message(&self) -> (message: String)
        ensures
            message@ == match *self {
                FilterControlError::Destroyed => "filter is destroyed"@,
                FilterControlError::PortIndexOutOfRange => "filter port index is out of range"@,
                FilterControlError::PortAlreadyPresent => "filter port index is already present"@,
                FilterControlError::PortsMissing => "filter does not own all eight ports"@,
            },
    {
        match *self {
            FilterControlError::Destroyed => String::from_str("filter is destroyed"),
            FilterControlError::PortIndexOutOfRange => String::from_str(
                "filter port index is out of range",
            ),
            FilterControlError::PortAlreadyPresent => String::from_str(
                "filter port index is already present",
            ),
            FilterControlError::PortsMissing => String::from_str(
                "filter does not own all eight ports",
            ),
        }
    }
}

/// Which ports the filter owns, and how far it has been taken down.
#[derive(Debug)]
pub struct FilterPorts {
    pub added: Vec<bool>,
    pub destroyed: bool,
    pub disconnected: bool,
}

impl FilterPorts {
    /// There is one entry for each port.
    pub open spec fn wf(self) -> bool {
        self.added@.len() == 8
    }

    /// Whether every port is there.
    pub open spec fn complete(self) -> bool {
        forall|i: int| 0 <= i < 8 ==> #[trigger] self.added@[i]
    }

    pub fn new() -> (ports: Self)
        ensures
            ports.wf(),
            !ports.destroyed && !ports.disconnected,
            forall|i: int| 0 <= i < 8 ==> !(#[trigger] ports.added@[i]),
    {
        let mut added: Vec<bool> = Vec::new();
        for index in 0..PORT_COUNT
            invariant
                added@.len() == index,
                forall|i: int| 0 <= i < index ==> !(#[trigger] added@[i]),
        {
            added.push(false);
        }
        FilterPorts { added, destroyed: false, disconnected: false }
    }

    /// Why a port cannot be added, if it cannot.
    pub open spec fn add_refusal(self, index: usize) -> Option<FilterControlError> {
        if self.destroyed {
            Some(FilterControlError::Destroyed)
        } else if index >= 8 {
            Some(FilterControlError::PortIndexOutOfRange)
        } else if self.added@[index as int] {
            Some(FilterControlError::PortAlreadyPresent)
        } else {
            None
        }
    }

    /// Checks that a port can be added.
    pub fn check_add(&self, index: usize) -> (result: Result<(), FilterControlError>)
        requires
            self.wf(),
        ensures
            result == match self.add_refusal(index) {
                Some(error) => Err::<(), FilterControlError>(error),
                None => Ok::<(), FilterControlError>(()),
            },
    {
        if self.destroyed {
            return Err(FilterControlError::Destroyed);
        }
        if index >= PORT_COUNT {
            return Err(FilterControlError::PortIndexOutOfRange);
        }
        if self.added[index] {
            return Err(FilterControlError::PortAlreadyPresent);
        }
        Ok(())
    }

    /// Notes that a port was added.
    pub fn mark_added(&mut self, index: usize)
        requires
            old(self).wf(),
            old(self).add_refusal(index) is None,
        ensures
            final(self).wf(),
            final(self).added@ == old(self).added@.update(index as int, true),
            final(self).destroyed == old(self).destroyed,
            final(self).disconnected == old(self).disconnected,
    {
        self.added[index] = true;
    }

    /// Checks that the filter may be connected: it owns every port.
    pub fn check_connect(&self) -> (result: Result<(), FilterControlError>)
        requires
            self.wf(),
        ensures
            result == if self.destroyed {
                Err::<(), FilterControlError>(FilterControlError::Destroyed)
            } else if !self.complete() {
                Err::<(), FilterControlError>(FilterControlError::PortsMissing)
            } else {
                Ok::<(), FilterControlError>(())
            },
    {
        if self.destroyed {
            return Err(FilterControlError::Destroyed);
        }
        for index in 0..PORT_COUNT
            invariant
                self.wf(),
                !self.destroyed,
                forall|i: int| 0 <= i < index ==> #[trigger] self.added@[i],
        {
            if !self.added[index] {
                return Err(FilterControlError::PortsMissing);
            }
        }
        Ok(())
    }
}

/// The failure text of a negative `PipeWire` result.
pub open spec fn result_text(result: i32, operation: Seq<char>) -> Seq<char> {
    operation + " failed with PipeWire result "@ + signed_decimal(result as int)
}

/// Turns a `PipeWire` result into a failure text where it is negative.
pub fn result_code(result: i32, operation: &str) -> (outcome: Result<(), String>)
    ensures
        match outcome {
            Ok(()) => result >= 0,
            Err(message) => result < 0 && message@ == result_text(result, operation@),
        },
{
    if result >= 0 {
        return Ok(());
    }
    let mut message = String::from_str(operation);
    message.append(" failed with PipeWire result ");
    message.append(signed_decimal_text(result as i64).as_str());
    Err(message)
}

/// Once a cycle has failed, no later cycle runs.
pub proof fn law_failed_filter_stays_failed(
    callbacks: FilterCallbacks,
    after: FilterCallbacks,
    record: FaultRecord,
)
    requires
        callbacks.recorded(after, record),
    ensures
        after.failed,
        after.process_cycles == callbacks.process_cycles,
{
}

/// After any number of faults the first sixteen are kept in the order in which
/// they came, and the rest are counted. Counts are exact as long as the machine
/// can count the faults.
pub proof fn law_fault_records_keep_the_first(
    history: Seq<FaultRecords>,
    records: Seq<FaultRecord>,
)
    requires
        history.len() == records.len() + 1,
        records.len() <= usize::MAX,
        history[0].wf(),
        history[0].next == 0,
        history[0].dropped == 0,
        forall|i: int| 0 <= i < 16 ==> #[trigger] history[0].slots@[i] is None,
        forall|i: int|
            0 <= i < records.len() ==> (#[trigger] history[i]).pushed(history[i + 1], records[i]),
    ensures
        history.last().wf(),
        history.last().next == records.len(),
        history.last().dropped == if records.len() <= 16 {
            0
        } else {
            records.len() - 16
        },
        forall|i: int|
            0 <= i < 16 ==> #[trigger] history.last().slots@[i] == if i < records.len() {
                Some(records[i])
            } else {
                None
            },
    decreases records.len(),
{
    if records.len() > 0 {
        let earlier = history.drop_last();
        let earlier_records = records.drop_last();
        assert forall|i: int| 0 <= i < earlier_records.len() implies (
        #[trigger] earlier[i]).pushed(earlier[i + 1], earlier_records[i]) by {
            assert(history[i].pushed(history[i + 1], records[i]));
        }
        assert(earlier[0] == history[0]);
        law_fault_records_keep_the_first(earlier, earlier_records);
        let last = records.len() - 1;
        assert(history[last].pushed(history[last + 1], records[last]));
        assert(earlier.last() == history[last]);
        assert forall|i: int| 0 <= i < 16 implies #[trigger] history.last().slots@[i]
            == if i < records.len() {
            Some(records[i])
        } else {
            None
        } by {
            assert(earlier.last().slots@[i] == if i < earlier_records.len() {
                Some(earlier_records[i])
            } else {
                None
            });
        }
    }
}

/// A cycle is accepted exactly if it has the expected driver and quantum, runs at
/// 48 kHz and begins where the last accepted one ended; the refusal names the
/// value that was expected.
pub proof fn law_cycles_are_gapless(validator: CycleValidator, timing: ProcessTiming)
    ensures
        validator.refusal(timing) is None <==> {
            &&& timing.driver_id == validator.expected_driver
            &&& timing.rate == 48_000
            &&& timing.quantum == validator.expected_quantum
            &&& match validator.previous_position {
                Some(position) => timing.position == position,
                None => true,
            }
        },
        match validator.refusal(timing) {
            Some((ProcessFault::DriverChanged, expected)) => expected == validator.expected_driver
                && timing.driver_id != expected,
            Some((ProcessFault::RateChanged, expected)) => expected == 48_000 && timing.rate
                != expected,
            Some((ProcessFault::InvalidQuantum, expected)) => expected == validator.expected_quantum
                && timing.quantum != expected,
            Some((ProcessFault::PositionDiscontinuity, expected)) => validator.previous_position
                == Some(expected) && timing.position != expected,
            Some(_) => false,
            None => true,
        },
        timing.position + timing.quantum <= u64::MAX ==> validator.after(timing).previous_position
            == Some((timing.position + timing.quantum) as u64),
        timing.position + timing.quantum > u64::MAX ==> validator.after(
            timing,
        ).previous_position is None,
        validator.after(timing).expected_driver == validator.expected_driver,
        validator.after(timing).expected_quantum == validator.expected_quantum,
{
}

/// The clock of a cycle is what the driver said; a rate that is not a whole number
/// of frames each second counts as none.
pub proof fn law_cycle_clock_is_the_drivers(input: CycleInput)
    ensures
        input.spec_timing().driver_id == input.driver_id,
        input.spec_timing().position == input.position,
        input.spec_timing().quantum == input.quantum,
        input.rate_num == 1 ==> input.spec_timing().rate == input.rate_denom,
        input.rate_num != 1 ==> input.spec_timing().rate == 0,
{
}

proof fn lemma_first_buffer_refusal(addresses: Seq<usize>, bytes: int)
    ensures
        first_buffer_refusal(addresses, bytes) is None <==> forall|i: int|
            0 <= i < addresses.len() ==> {
                &&& #[trigger] addresses[i] != 0
                &&& addresses[i] % 4 == 0
                &&& addresses[i] + bytes <= usize::MAX
            },
    decreases addresses.len(),
{
    if addresses.len() > 0 {
        let rest = addresses.drop_first();
        lemma_first_buffer_refusal(rest, bytes);
        if first_buffer_refusal(addresses, bytes) is None {
            assert forall|i: int| 0 <= i < addresses.len() implies #[trigger] addresses[i] != 0
                && addresses[i] % 4 == 0 && addresses[i] + bytes <= usize::MAX by {
                if i > 0 {
                    assert(addresses[i] == rest[i - 1]);
                }
            }
        } else if buffer_refusal(addresses[0], bytes) is None {
            assert(exists|i: int|
                0 <= i < rest.len() && !(#[trigger] rest[i] != 0 && rest[i] % 4 == 0 && rest[i]
                    + bytes <= usize::MAX));
            let i = choose|i: int|
                0 <= i < rest.len() && !(#[trigger] rest[i] != 0 && rest[i] % 4 == 0 && rest[i]
                    + bytes <= usize::MAX);
            assert(addresses[i + 1] == rest[i]);
        }
    }
}

/// Buffers can be used exactly if there are at most eight, each is present,
/// aligned for samples and within memory, and no two of them share a byte.
pub proof fn law_usable_buffers_are_apart(addresses: Seq<usize>, frames: usize)
    ensures
        range_refusal(addresses, frames) is None <==> {
            &&& addresses.len() <= 8
            &&& 4 * frames <= isize::MAX
            &&& forall|i: int|
                0 <= i < addresses.len() ==> {
                    &&& #[trigger] addresses[i] != 0
                    &&& addresses[i] % 4 == 0
                    &&& addresses[i] + 4 * frames <= usize::MAX
                }
            &&& forall|i: int, j: int|
                0 <= i < j < addresses.len() ==> #[trigger] addresses[i] + 4 * frames
                    <= #[trigger] addresses[j] || addresses[j] + 4 * frames <= addresses[i]
        },
{
    lemma_first_buffer_refusal(addresses, 4 * frames);
    if disjoint(addresses, 4 * frames) {
        assert forall|i: int, j: int| 0 <= i < j < addresses.len() implies #[trigger] addresses[i]
            + 4 * frames <= #[trigger] addresses[j] || addresses[j] + 4 * frames
            <= addresses[i] by {
            assert(!overlap(addresses[i], addresses[j], 4 * frames));
        }
    } else {
        let (i, j) = choose|i: int, j: int|
            0 <= i < j < addresses.len() && overlap(
                #[trigger] addresses[i],
                #[trigger] addresses[j],
                4 * frames,
            );
        assert(overlap(addresses[i], addresses[j], 4 * frames));
    }
}

/// A cycle begins exactly if all its buffers are there, its quantum is positive,
/// its clock is accepted and its buffers can be used; each refusal is the fault of
/// its cause.
pub proof fn law_cycles_begin_with_everything_in_place(
    callbacks: FilterCallbacks,
    input: CycleInput,
    addresses: Seq<usize>,
)
    ensures
        callbacks.cycle_refusal(input, Some(addresses)) is None <==> {
            &&& input.missing_mask == 0
            &&& input.quantum > 0
            &&& callbacks.validator.refusal(input.spec_timing()) is None
            &&& range_refusal(addresses, input.quantum as usize) is None
        },
        callbacks.cycle_refusal(input, None) == Some((ProcessFault::MissingBuffer, 0u64, false)),
        input.missing_mask != 0 ==> callbacks.cycle_refusal(input, Some(addresses)) == Some(
            (ProcessFault::MissingBuffer, 0u64, false),
        ),
        match callbacks.cycle_refusal(input, Some(addresses)) {
            Some((fault, expected, timed)) => timed ==> {
                &&& expected == 0
                &&& match range_refusal(addresses, input.quantum as usize) {
                    Some(BufferRangeError::Null) => fault == ProcessFault::MissingBuffer,
                    Some(BufferRangeError::Misaligned) => fault == ProcessFault::MisalignedBuffer,
                    Some(BufferRangeError::ExtentOverflow) => fault
                        == ProcessFault::BufferExtentOverflow,
                    Some(BufferRangeError::Overlap) => fault == ProcessFault::AliasedBuffer,
                    None => false,
                }
            },
            None => true,
        },
{
}

/// Leaving the streaming state is a fault unless the filter is being stopped: an
/// error always, a pause and every other state once the filter has streamed.
pub proof fn law_leaving_the_stream_is_a_fault(
    previous: i32,
    state: i32,
    has_streamed: bool,
    stopping: bool,
)
    ensures
        stopping ==> state_fault(previous, state, has_streamed, stopping) is None,
        state_fault(previous, state, has_streamed, stopping) == Some(ProcessFault::FilterError)
            <==> !stopping && state == FILTER_STATE_ERROR,
        state_fault(previous, state, has_streamed, stopping) == Some(ProcessFault::Pause) <==> (
        !stopping && has_streamed && previous == FILTER_STATE_STREAMING && state
            == FILTER_STATE_PAUSED),
        state_fault(previous, state, has_streamed, stopping) == Some(
            ProcessFault::UnexpectedFilterState,
        ) <==> (!stopping && has_streamed && previous == FILTER_STATE_STREAMING && state
            != FILTER_STATE_STREAMING && state != FILTER_STATE_PAUSED && state
            != FILTER_STATE_ERROR),
        state == FILTER_STATE_STREAMING ==> state_fault(previous, state, has_streamed, stopping)
            is None,
{
}

/// What a cycle sees of the System links follows from whether they were and are
/// there; while the word stays the state stays, but for the one priming or draining
/// cycle.
pub proof fn law_cycle_state_follows_the_links(tracker: SystemTracker, word: u64)
    ensures
        word != tracker.observed_word && word % 2 == 1 && tracker.observed_word % 2 == 1
            ==> tracker.current(word) == SystemCycleState::Active && tracker.after(word).state
            == SystemCycleState::Active,
        word != tracker.observed_word && word % 2 == 0 && tracker.observed_word % 2 == 0
            ==> tracker.current(word) == SystemCycleState::Idle && tracker.after(word).state
            == SystemCycleState::Idle,
        tracker.current(tracker.observed_word) == tracker.state,
        tracker.after(word).observed_word == word,
        tracker.current(word) == SystemCycleState::Priming ==> tracker.after(word).state
            == SystemCycleState::Active,
        tracker.current(word) == SystemCycleState::Draining ==> tracker.after(word).state
            == SystemCycleState::Idle,
        tracker.current(word) == SystemCycleState::Active || tracker.current(word)
            == SystemCycleState::Idle ==> tracker.after(word).state == tracker.current(word),
{
}

/// A fault is recorded with the cycle it happened in, and nothing else of the
/// callbacks changes but that they have failed.
pub proof fn law_faults_are_recorded_with_their_cycle(
    callbacks: FilterCallbacks,
    after: FilterCallbacks,
    input: CycleInput,
    fault: ProcessFault,
    expected: u64,
)
    requires
        callbacks.wf(),
        callbacks.recorded(after, input.fault_record(fault, expected)),
        callbacks.faults.next < 16,
    ensures
        match after.faults.slots@[callbacks.faults.next as int] {
            Some(record) => {
                &&& record.fault == fault
                &&& record.driver_id == input.driver_id
                &&& record.position == input.position
                &&& record.expected_position == expected
                &&& record.quantum == input.quantum
                &&& record.missing_mask == input.missing_mask
            },
            None => false,
        },
        after.failed,
        after.validator == callbacks.validator,
        after.system == callbacks.system,
        after.callbacks_in_flight == callbacks.callbacks_in_flight,
        after.filter_state == callbacks.filter_state,
        after.has_streamed == callbacks.has_streamed,
        after.stopping == callbacks.stopping,
{
}

/// A port is added exactly once, to a filter that has not been destroyed, under
/// one of the eight indices.
pub proof fn law_ports_are_added_once(ports: FilterPorts, index: usize)
    requires
        ports.wf(),
    ensures
        ports.add_refusal(index) is None <==> !ports.destroyed && index < 8
            && !ports.added@[index as int],
        ports.destroyed ==> ports.add_refusal(index) == Some(FilterControlError::Destroyed),
        !ports.destroyed && index >= 8 ==> ports.add_refusal(index) == Some(
            FilterControlError::PortIndexOutOfRange,
        ),
        !ports.destroyed && index < 8 && ports.added@[index as int] ==> ports.add_refusal(index)
            == Some(FilterControlError::PortAlreadyPresent),
{
}

/// Silence is zero in every sample, of either sign.
pub proof fn law_silence_is_zero(samples: Seq<u32>)
    ensures
        all_zero(samples) <==> forall|i: int|
            0 <= i < samples.len() ==> #[trigger] samples[i] == 0 || samples[i] == 0x8000_0000,
{
    if all_zero(samples) {
        assert forall|i: int| 0 <= i < samples.len() implies #[trigger] samples[i] == 0
            || samples[i] == 0x8000_0000 by {
            assert(is_zero(samples[i]));
        }
    }
}

/// Unusable buffers are refused for the first cause: too many or too long ones,
/// then the first that is absent, misaligned or beyond memory, in this order, and
/// only then a shared byte.
pub proof fn law_refused_buffers_say_why(addresses: Seq<usize>, frames: usize, index: int)
    requires
        0 <= index < addresses.len(),
        addresses.len() <= 8,
        4 * frames <= isize::MAX,
        forall|j: int| 0 <= j < index ==> buffer_refusal(#[trigger] addresses[j], 4 * frames) is None,
    ensures
        addresses[index] == 0 ==> range_refusal(addresses, frames) == Some(BufferRangeError::Null),
        addresses[index] != 0 && addresses[index] % 4 != 0 ==> range_refusal(addresses, frames)
            == Some(BufferRangeError::Misaligned),
        addresses[index] != 0 && addresses[index] % 4 == 0 && addresses[index] + 4 * frames
            > usize::MAX ==> range_refusal(addresses, frames) == Some(
            BufferRangeError::ExtentOverflow,
        ),
        index == addresses.len() - 1 && buffer_refusal(addresses[index], 4 * frames) is None
            ==> range_refusal(addresses, frames) is None || range_refusal(addresses, frames)
            == Some(BufferRangeError::Overlap),
{
    lemma_first_unusable_buffer(addresses, 4 * frames, index);
}

/// The refusal of the first unusable buffer is its own.
proof fn lemma_first_unusable_buffer(addresses: Seq<usize>, bytes: int, index: int)
    requires
        0 <= index < addresses.len(),
        forall|j: int| 0 <= j < index ==> buffer_refusal(#[trigger] addresses[j], bytes) is None,
    ensures
        buffer_refusal(addresses[index], bytes) is Some ==> first_buffer_refusal(addresses, bytes)
            == buffer_refusal(addresses[index], bytes),
        index == addresses.len() - 1 && buffer_refusal(addresses[index], bytes) is None
            ==> first_buffer_refusal(addresses, bytes) is None,
    decreases addresses.len(),
{
    let rest = addresses.drop_first();
    if index > 0 {
        assert(buffer_refusal(addresses[0], bytes) is None);
        assert forall|j: int| 0 <= j < index - 1 implies buffer_refusal(
            #[trigger] rest[j],
            bytes,
        ) is None by {
            assert(rest[j] == addresses[j + 1]);
        }
        assert(rest[index - 1] == addresses[index]);
        lemma_first_unusable_buffer(rest, bytes, index - 1);
    } else if addresses.len() == 1 {
        assert(rest.len() == 0);
        assert(first_buffer_refusal(rest, bytes) is None);
    }
}

} // verus!
