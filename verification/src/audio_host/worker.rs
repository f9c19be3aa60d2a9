//! Direction-specific ALSA workers and checked runtime observations.
//!
//! The workers are state machines. Each step takes the outcome of the last PCM
//! or thread operation and names the next one.

use crate::audio_host::clock_bridge::attempt::{ClockBridgeControl, SharedBridge};
use crate::audio_host::clock_bridge::errors::BridgeState;
use crate::audio_host::clock_bridge::observation::ClockAttemptEpoch;
use crate::audio_host::pcm::{PcmDirection, PhysicalPcmParameters, WAVE3_PCM_RATE_HZ};
use vstd::prelude::*;

pub mod capture;
pub mod playback;
pub mod status;

verus! {

/// How waiting for a PCM device ended.
#[derive(Clone, Copy, Debug, Eq, PartialEq, Structural)]
pub enum PcmWait {
    Ready,
    TimedOut,
}

/// A classified PCM failure.
#[derive(Clone, Copy, Debug, Eq, PartialEq, Structural)]
pub enum PcmIoError {
    Again,
    Interrupted,
    Xrun,
    Suspended,
    Disconnected,
    Failed { errno: i32 },
}

/// Bounds on waiting and on retrying transient failures.
#[derive(Clone, Copy, Debug, Eq, PartialEq, Structural)]
pub struct WorkerIoPolicy {
    pub wait_timeout_millis: u32,
    pub transient_retry_limit: u32,
}

/// Why a worker policy is refused.
#[derive(Clone, Copy, Debug, Eq, PartialEq, Structural)]
pub enum WorkerIoPolicyError {
    ZeroWaitTimeout,
    WaitTimeoutOutsideCInt { actual: u32, maximum: u32 },
    ZeroTransientRetryLimit,
}

impl WorkerIoPolicy {
    /// Why the two bounds are refused, if they are.
    pub open spec fn refusal(wait_timeout_millis: u32, transient_retry_limit: u32) -> Option<
        WorkerIoPolicyError,
    > {
        if wait_timeout_millis == 0 {
            Some(WorkerIoPolicyError::ZeroWaitTimeout)
        } else if wait_timeout_millis > i32::MAX {
            Some(
                WorkerIoPolicyError::WaitTimeoutOutsideCInt {
                    actual: wait_timeout_millis,
                    maximum: 0x7fff_ffff,
                },
            )
        } else if transient_retry_limit == 0 {
            Some(WorkerIoPolicyError::ZeroTransientRetryLimit)
        } else {
            None
        }
    }

    /// Checks the two bounds.
    pub fn try_new(wait_timeout_millis: u32, transient_retry_limit: u32) -> (result: Result<
        Self,
        WorkerIoPolicyError,
    >)
        ensures
            result == match Self::refusal(wait_timeout_millis, transient_retry_limit) {
                Some(error) => Err::<Self, WorkerIoPolicyError>(error),
                None => Ok::<Self, WorkerIoPolicyError>(
                    (WorkerIoPolicy { wait_timeout_millis, transient_retry_limit }),
                ),
            },
    {
        if wait_timeout_millis == 0 {
            return Err(WorkerIoPolicyError::ZeroWaitTimeout);
        }
        if wait_timeout_millis > i32::MAX as u32 {
            return Err(
                WorkerIoPolicyError::WaitTimeoutOutsideCInt {
                    actual: wait_timeout_millis,
                    maximum: i32::MAX as u32,
                },
            );
        }
        if transient_retry_limit == 0 {
            return Err(WorkerIoPolicyError::ZeroTransientRetryLimit);
        }
        Ok(WorkerIoPolicy { wait_timeout_millis, transient_retry_limit })
    }

    pub fn wait_timeout_millis(self) -> (millis: u32)
        ensures
            millis == self.wait_timeout_millis,
    {
        self.wait_timeout_millis
    }

    pub fn transient_retry_limit(self) -> (limit: u32)
        ensures
            limit == self.transient_retry_limit,
    {
        self.transient_retry_limit
    }
}

/// Why a worker was not started.
#[derive(Clone, Copy, Debug, Eq, PartialEq)]
pub enum WorkerStartError {
    InvalidGeometry,
    MonitorMixNotQueued { drop_stream_result: Result<(), PcmIoError> },
    BufferAllocation,
    ThreadSpawn,
}

/// Whether `geometry` is the fixed mode of `direction`.
pub open spec fn worker_geometry(geometry: PhysicalPcmParameters, direction: PcmDirection) -> bool {
    geometry.direction == direction && geometry.rate == 48_000 && geometry.channels
        == direction.spec_channels()
}

/// Checks that `geometry` is the fixed mode of `direction`.
pub fn validate_worker_geometry(geometry: PhysicalPcmParameters, direction: PcmDirection) -> (result:
    Result<(), WorkerStartError>)
    ensures
        result == if worker_geometry(geometry, direction) {
            Ok::<(), WorkerStartError>(())
        } else {
            Err::<(), WorkerStartError>(WorkerStartError::InvalidGeometry)
        },
{
    if geometry.direction != direction || geometry.rate != WAVE3_PCM_RATE_HZ || geometry.channels
        != direction.channels() {
        return Err(WorkerStartError::InvalidGeometry);
    }
    Ok(())
}

/// How far a worker has come.
#[derive(Clone, Copy, Debug, Eq, PartialEq, Structural)]
pub enum WorkerPhase {
    Starting,
    Running,
    PrimedParked,
    Terminal,
}

impl WorkerPhase {
    /// The stable number of this phase.
    pub open spec fn raw(self) -> int {
        match self {
            WorkerPhase::Starting => 0,
            WorkerPhase::Running => 1,
            WorkerPhase::PrimedParked => 2,
            WorkerPhase::Terminal => 3,
        }
    }

    /// The phase with the number `raw`; an unknown number means `Terminal`.
    pub fn from_raw(raw: u8) -> (phase: WorkerPhase)
        ensures
            phase.raw() == if raw <= 3 {
                raw as int
            } else {
                3
            },
    {
        match raw {
            0 => WorkerPhase::Starting,
            1 => WorkerPhase::Running,
            2 => WorkerPhase::PrimedParked,
            _ => WorkerPhase::Terminal,
        }
    }
}

/// What a worker and its owner tell each other.
#[derive(Clone, Copy, Debug, Eq, PartialEq, Structural)]
pub struct WorkerSignals {
    pub stop: bool,
    pub resume_requested: bool,
    pub phase: WorkerPhase,
    pub attempt_epoch: ClockAttemptEpoch,
}

impl WorkerSignals {
    pub fn new(attempt_epoch: ClockAttemptEpoch) -> (signals: Self)
        ensures
            signals == (WorkerSignals {
                stop: false,
                resume_requested: false,
                phase: WorkerPhase::Starting,
                attempt_epoch,
            }),
    {
        WorkerSignals {
            stop: false,
            resume_requested: false,
            phase: WorkerPhase::Starting,
            attempt_epoch,
        }
    }

    /// Asks the worker to stop; the request is never withdrawn.
    pub fn request_stop(&mut self)
        ensures
            *final(self) == (WorkerSignals { stop: true, ..*old(self) }),
    {
        self.stop = true;
    }

    pub fn stopped(&self) -> (stopped: bool)
        ensures
            stopped == self.stop,
    {
        self.stop
    }

    pub fn phase(&self) -> (phase: WorkerPhase)
        ensures
            phase == self.phase,
    {
        self.phase
    }

    pub fn set_phase(&mut self, phase: WorkerPhase)
        ensures
            *final(self) == (WorkerSignals { phase, ..*old(self) }),
    {
        self.phase = phase;
    }

    /// The signals of a worker that has just parked.
    pub open spec fn parked(self) -> Self {
        WorkerSignals { resume_requested: false, phase: WorkerPhase::PrimedParked, ..self }
    }

    /// Parks the worker; an earlier resume request is forgotten.
    pub fn begin_primed_park(&mut self)
        ensures
            *final(self) == old(self).parked(),
    {
        self.resume_requested = false;
        self.phase = WorkerPhase::PrimedParked;
    }

    pub fn request_resume(&mut self)
        ensures
            *final(self) == (WorkerSignals { resume_requested: true, ..*old(self) }),
    {
        self.resume_requested = true;
    }

    /// Takes the resume request, if there is one.
    pub fn take_resume_request(&mut self) -> (requested: bool)
        ensures
            requested == old(self).resume_requested,
            *final(self) == (WorkerSignals { resume_requested: false, ..*old(self) }),
    {
        let requested = self.resume_requested;
        self.resume_requested = false;
        requested
    }
}

/// What a parked worker does after it was woken.
#[derive(Clone, Copy, Debug, Eq, PartialEq, Structural)]
pub enum ParkStep {
    Stop,
    Resume,
    ParkAgain,
}

/// What a parked worker does after it was woken in `state`.
pub open spec fn park_step(signals: WorkerSignals, state: BridgeState) -> ParkStep {
    if signals.stop {
        ParkStep::Stop
    } else if signals.resume_requested && state == BridgeState::Active {
        ParkStep::Resume
    } else {
        ParkStep::ParkAgain
    }
}

/// The signals after a parked worker was woken in `state`.
pub open spec fn park_signals(signals: WorkerSignals, state: BridgeState) -> WorkerSignals {
    match park_step(signals, state) {
        ParkStep::Stop => signals,
        ParkStep::Resume => WorkerSignals {
            resume_requested: false,
            phase: WorkerPhase::Running,
            ..signals
        },
        ParkStep::ParkAgain => WorkerSignals { resume_requested: false, ..signals },
    }
}

/// Decides whether a parked worker goes on: only a stop request, or a resume
/// request for an active bridge, ends parking.
pub fn leave_park(signals: &mut WorkerSignals, state: BridgeState) -> (step: ParkStep)
    ensures
        step == park_step(*old(signals), state),
        *final(signals) == park_signals(*old(signals), state),
{
    if signals.stopped() {
        return ParkStep::Stop;
    }
    if signals.take_resume_request() && state == BridgeState::Active {
        signals.set_phase(WorkerPhase::Running);
        return ParkStep::Resume;
    }
    ParkStep::ParkAgain
}

/// Why a parked worker may not resume.
#[derive(Clone, Copy, Debug, Eq, PartialEq, Structural)]
#[allow(inconsistent_fields)]
pub enum WorkerResumeError {
    AttemptMismatch { worker: ClockAttemptEpoch, control: ClockAttemptEpoch },
    BridgeNotActive { actual: BridgeState },
    NotPrimedParked { actual: WorkerPhase },
}

/// Why a worker may not resume, if it may not.
pub open spec fn resume_refusal(
    signals: WorkerSignals,
    control: ClockBridgeControl,
    state: BridgeState,
) -> Option<WorkerResumeError> {
    if signals.attempt_epoch != control.attempt_epoch {
        Some(
            WorkerResumeError::AttemptMismatch {
                worker: signals.attempt_epoch,
                control: control.attempt_epoch,
            },
        )
    } else if state != BridgeState::Active {
        Some(WorkerResumeError::BridgeNotActive { actual: state })
    } else if signals.phase != WorkerPhase::PrimedParked {
        Some(WorkerResumeError::NotPrimedParked { actual: signals.phase })
    } else {
        None
    }
}

/// Checks that a worker is parked in the active attempt of `control`.
pub fn verify_worker_resume(
    signals: &WorkerSignals,
    control: &ClockBridgeControl,
    bridge: &SharedBridge,
) -> (result: Result<(), WorkerResumeError>)
    ensures
        result == match resume_refusal(*signals, *control, bridge.attempt.state) {
            Some(error) => Err::<(), WorkerResumeError>(error),
            None => Ok::<(), WorkerResumeError>(()),
        },
{
    if signals.attempt_epoch != control.worker_attempt_epoch() {
        return Err(
            WorkerResumeError::AttemptMismatch {
                worker: signals.attempt_epoch,
                control: control.worker_attempt_epoch(),
            },
        );
    }
    let state = control.state(bridge);
    if state != BridgeState::Active {
        return Err(WorkerResumeError::BridgeNotActive { actual: state });
    }
    let phase = signals.phase();
    if phase != WorkerPhase::PrimedParked {
        return Err(WorkerResumeError::NotPrimedParked { actual: phase });
    }
    Ok(())
}

/// Requests that a parked worker resume in the active attempt of `control`.
pub fn resume_after_activation(
    signals: &mut WorkerSignals,
    control: &ClockBridgeControl,
    bridge: &SharedBridge,
) -> (result: Result<(), WorkerResumeError>)
    ensures
        match resume_refusal(*old(signals), *control, bridge.attempt.state) {
            Some(error) => result == Err::<(), WorkerResumeError>(error) && *final(signals) == *old(
                signals,
            ),
            None => result == Ok::<(), WorkerResumeError>(()) && *final(signals) == (
            WorkerSignals { resume_requested: true, ..*old(signals) }),
        },
{
    verify_worker_resume(signals, control, bridge)?;
    signals.request_resume();
    Ok(())
}

/// Which transient failure exhausted its budget.
#[derive(Clone, Copy, Debug, Eq, PartialEq, Structural)]
pub enum TransientKind {
    Again,
    Interrupted,
}

/// The transient kind of a failure, where it is transient.
pub open spec fn transient_kind(error: PcmIoError) -> Option<TransientKind> {
    match error {
        PcmIoError::Again => Some(TransientKind::Again),
        PcmIoError::Interrupted => Some(TransientKind::Interrupted),
        _ => None,
    }
}

/// Counts consecutive transient failures.
#[derive(Clone, Copy, Debug, Eq, PartialEq, Structural)]
pub struct TransientBudget {
    pub attempts: u32,
    pub limit: u32,
}

impl TransientBudget {
    pub fn new(limit: u32) -> (budget: Self)
        ensures
            budget == (TransientBudget { attempts: 0, limit }),
    {
        TransientBudget { attempts: 0, limit }
    }

    /// The budget after one more failure, or the kind that exhausted it. Only
    /// transient failures count.
    pub open spec fn after(self, error: PcmIoError) -> Result<Self, TransientKind> {
        match transient_kind(error) {
            None => Ok(self),
            Some(kind) => if self.attempts >= self.limit {
                Err(kind)
            } else {
                Ok(TransientBudget { attempts: (self.attempts + 1) as u32, ..self })
            },
        }
    }

    /// Counts one failure.
    pub fn record(&mut self, error: PcmIoError) -> (result: Result<(), TransientKind>)
        ensures
            match old(self).after(error) {
                Ok(budget) => result == Ok::<(), TransientKind>(()) && *final(self) == budget,
                Err(kind) => result == Err::<(), TransientKind>(kind) && *final(self) == *old(self),
            },
    {
        let kind = match error {
            PcmIoError::Again => TransientKind::Again,
            PcmIoError::Interrupted => TransientKind::Interrupted,
            _ => {
                return Ok(());
            },
        };
        if self.attempts >= self.limit {
            return Err(kind);
        }
        self.attempts = self.attempts + 1;
        Ok(())
    }

    /// Forgets the failures so far.
    pub fn reset(&mut self)
        ensures
            *final(self) == (TransientBudget { attempts: 0, ..*old(self) }),
    {
        self.attempts = 0;
    }
}

/// The budget after `count` consecutive transient failures, where it lasts.
pub open spec fn after_failures(budget: TransientBudget, error: PcmIoError, count: nat) -> Result<
    TransientBudget,
    TransientKind,
>
    decreases count,
{
    if count == 0 {
        Ok(budget)
    } else {
        match budget.after(error) {
            Err(kind) => Err(kind),
            Ok(rest) => after_failures(rest, error, (count - 1) as nat),
        }
    }
}

/// A budget admits exactly as many consecutive transient failures as its limit
/// leaves; the next one exhausts it.
pub proof fn law_budget_is_exact(budget: TransientBudget, error: PcmIoError, count: nat)
    requires
        transient_kind(error) is Some,
        budget.attempts <= budget.limit,
    ensures
        after_failures(budget, error, count) is Ok <==> budget.attempts + count <= budget.limit,
    decreases count,
{
    if count > 0 && budget.attempts < budget.limit {
        law_budget_is_exact(
            TransientBudget { attempts: (budget.attempts + 1) as u32, ..budget },
            error,
            (count - 1) as nat,
        );
    }
}

/// How a retried PCM operation ended without success.
#[derive(Clone, Copy, Debug, Eq, PartialEq, Structural)]
pub enum RetryEnd {
    Stopped,
    Exhausted(TransientKind),
    Failed(PcmIoError),
}

/// What to do next about a retried PCM operation.
#[derive(Clone, Copy, Debug, Eq, PartialEq, Structural)]
pub enum RetryStep {
    /// Perform the operation.
    Call,
    /// Give up.
    End(RetryEnd),
}

/// The budget after a failure, with the end it calls for, if it does.
pub open spec fn failure_end(retry: TransientBudget, error: PcmIoError) -> (
    Option<RetryEnd>,
    TransientBudget,
) {
    match transient_kind(error) {
        None => (Some(RetryEnd::Failed(error)), retry),
        Some(_) => match retry.after(error) {
            Ok(rest) => (None, rest),
            Err(kind) => (Some(RetryEnd::Exhausted(kind)), retry),
        },
    }
}

/// Counts a failure and tells whether it ends the operation.
pub fn count_failure(retry: &mut TransientBudget, error: PcmIoError) -> (end: Option<RetryEnd>)
    ensures
        end == failure_end(*old(retry), error).0,
        *final(retry) == failure_end(*old(retry), error).1,
{
    match error {
        PcmIoError::Again | PcmIoError::Interrupted => match retry.record(error) {
            Ok(()) => None,
            Err(kind) => Some(RetryEnd::Exhausted(kind)),
        },
        _ => Some(RetryEnd::Failed(error)),
    }
}

/// Decides whether a retried operation may be performed now.
pub fn retry_head(stopped: bool) -> (step: RetryStep)
    ensures
        step == if stopped {
            RetryStep::End(RetryEnd::Stopped)
        } else {
            RetryStep::Call
        },
{
    if stopped {
        RetryStep::End(RetryEnd::Stopped)
    } else {
        RetryStep::Call
    }
}

/// What follows the wait between two attempts of a retried operation.
pub open spec fn retry_wait_step(
    retry: TransientBudget,
    waited: Result<PcmWait, PcmIoError>,
    stopped: bool,
) -> (RetryStep, TransientBudget) {
    let (end, rest) = match waited {
        Ok(_) => (None::<RetryEnd>, retry),
        Err(error) => failure_end(retry, error),
    };
    match end {
        Some(end) => (RetryStep::End(end), rest),
        None => if stopped {
            (RetryStep::End(RetryEnd::Stopped), rest)
        } else {
            (RetryStep::Call, rest)
        },
    }
}

/// Decides what follows the wait between two attempts of a retried operation.
pub fn retry_after_wait(
    retry: &mut TransientBudget,
    waited: Result<PcmWait, PcmIoError>,
    stopped: bool,
) -> (step: RetryStep)
    ensures
        step == retry_wait_step(*old(retry), waited, stopped).0,
        *final(retry) == retry_wait_step(*old(retry), waited, stopped).1,
{
    if let Err(error) = waited {
        if let Some(end) = count_failure(retry, error) {
            return RetryStep::End(end);
        }
    }
    retry_head(stopped)
}

/// A parked worker is never woken into an inactive bridge, and never after a
/// stop request.
pub proof fn law_resume_needs_active(signals: WorkerSignals, state: BridgeState)
    ensures
        park_step(signals, state) == ParkStep::Resume ==> state == BridgeState::Active
            && !signals.stop && signals.resume_requested,
        park_signals(signals.parked(), state).phase != WorkerPhase::Running,
{
}

/// A failure that is not transient ends a retried operation at once and is
/// reported as it is; a transient one costs one attempt, and ends the operation
/// under its own kind exactly when no attempt is left.
pub proof fn law_only_transient_failures_are_retried(retry: TransientBudget, error: PcmIoError)
    ensures
        error != PcmIoError::Again && error != PcmIoError::Interrupted ==> failure_end(retry, error)
            == (Some(RetryEnd::Failed(error)), retry),
        (error == PcmIoError::Again || error == PcmIoError::Interrupted) && retry.attempts
            < retry.limit ==> failure_end(retry, error) == (
            None::<RetryEnd>,
            TransientBudget { attempts: (retry.attempts + 1) as u32, limit: retry.limit },
        ),
        error == PcmIoError::Again && retry.attempts >= retry.limit ==> failure_end(retry, error)
            == (Some(RetryEnd::Exhausted(TransientKind::Again)), retry),
        error == PcmIoError::Interrupted && retry.attempts >= retry.limit ==> failure_end(
            retry,
            error,
        ) == (Some(RetryEnd::Exhausted(TransientKind::Interrupted)), retry),
{
}

/// After a wait an operation is performed again unless the wait itself ended it or
/// a stop was requested; a wait that succeeded, or ran out of time, costs nothing.
pub proof fn law_waits_lead_back_to_the_call(
    retry: TransientBudget,
    waited: Result<PcmWait, PcmIoError>,
    stopped: bool,
)
    ensures
        waited is Ok ==> retry_wait_step(retry, waited, stopped) == (
            if stopped {
                RetryStep::End(RetryEnd::Stopped)
            } else {
                RetryStep::Call
            },
            retry,
        ),
        match waited {
            Err(error) => {
                let transient = error == PcmIoError::Again || error == PcmIoError::Interrupted;
                &&& !transient ==> retry_wait_step(retry, waited, stopped) == (
                    RetryStep::End(RetryEnd::Failed(error)),
                    retry,
                )
                &&& transient && retry.attempts < retry.limit ==> retry_wait_step(
                    retry,
                    waited,
                    stopped,
                ) == (
                    if stopped {
                        RetryStep::End(RetryEnd::Stopped)
                    } else {
                        RetryStep::Call
                    },
                    TransientBudget { attempts: (retry.attempts + 1) as u32, limit: retry.limit },
                )
                &&& transient && retry.attempts >= retry.limit ==> match retry_wait_step(
                    retry,
                    waited,
                    stopped,
                ).0 {
                    RetryStep::End(RetryEnd::Exhausted(kind)) => (kind == TransientKind::Again)
                        == (error == PcmIoError::Again),
                    _ => false,
                }
            },
            Ok(_) => true,
        },
{
}

/// What wakes a parked worker: a stop request first, else a resume request in an
/// active attempt; anything else parks it again. A resume request is used up by
/// every wake that is not a stop, and only resuming changes the phase.
pub proof fn law_parked_worker_wakes_for_stop_or_resume(signals: WorkerSignals, state: BridgeState)
    ensures
        signals.stop <==> park_step(signals, state) == ParkStep::Stop,
        !signals.stop && signals.resume_requested && state == BridgeState::Active <==> park_step(
            signals,
            state,
        ) == ParkStep::Resume,
        signals.stop ==> park_signals(signals, state) == signals,
        !signals.stop ==> !park_signals(signals, state).resume_requested,
        park_signals(signals, state).stop == signals.stop,
        park_signals(signals, state).attempt_epoch == signals.attempt_epoch,
        park_step(signals, state) == ParkStep::Resume ==> park_signals(signals, state).phase
            == WorkerPhase::Running,
        park_step(signals, state) != ParkStep::Resume ==> park_signals(signals, state).phase
            == signals.phase,
        signals.parked().phase == WorkerPhase::PrimedParked,
        !signals.parked().resume_requested,
        signals.parked().stop == signals.stop,
        signals.parked().attempt_epoch == signals.attempt_epoch,
{
}

/// A worker may be resumed exactly if it is parked in the active attempt of the
/// control that asks; the refusal names what differs.
pub proof fn law_resume_is_for_the_parked_worker_of_this_attempt(
    signals: WorkerSignals,
    control: ClockBridgeControl,
    state: BridgeState,
)
    ensures
        resume_refusal(signals, control, state) is None <==> {
            &&& signals.attempt_epoch == control.attempt_epoch
            &&& state == BridgeState::Active
            &&& signals.phase == WorkerPhase::PrimedParked
        },
        match resume_refusal(signals, control, state) {
            Some(WorkerResumeError::AttemptMismatch { worker, control: named }) => worker
                == signals.attempt_epoch && named == control.attempt_epoch && worker != named,
            Some(WorkerResumeError::BridgeNotActive { actual }) => actual == state && state
                != BridgeState::Active && signals.attempt_epoch == control.attempt_epoch,
            Some(WorkerResumeError::NotPrimedParked { actual }) => actual == signals.phase && actual
                != WorkerPhase::PrimedParked && state == BridgeState::Active,
            None => true,
        },
{
}

/// A policy is admitted exactly if both bounds are positive and the timeout fits
/// a signed 32-bit integer.
pub proof fn law_admitted_policy_is_bounded(wait_timeout_millis: u32, transient_retry_limit: u32)
    ensures
        WorkerIoPolicy::refusal(wait_timeout_millis, transient_retry_limit) is None <==> 0
            < wait_timeout_millis <= 0x7fff_ffff && transient_retry_limit > 0,
        wait_timeout_millis > 0x7fff_ffff ==> WorkerIoPolicy::refusal(
            wait_timeout_millis,
            transient_retry_limit,
        ) == Some(
            WorkerIoPolicyError::WaitTimeoutOutsideCInt {
                actual: wait_timeout_millis,
                maximum: 0x7fff_ffff,
            },
        ),
{
}

/// The fixed modes: 48 kHz mono for capture, 48 kHz stereo for playback.
pub proof fn law_worker_modes_are_fixed(geometry: PhysicalPcmParameters)
    ensures
        worker_geometry(geometry, PcmDirection::Capture) <==> geometry.direction
            == PcmDirection::Capture && geometry.rate == 48_000 && geometry.channels == 1,
        worker_geometry(geometry, PcmDirection::Playback) <==> geometry.direction
            == PcmDirection::Playback && geometry.rate == 48_000 && geometry.channels == 2,
{
}

} // verus!
