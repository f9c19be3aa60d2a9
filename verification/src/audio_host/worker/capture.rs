//! The capture worker.

use crate::audio_host::clock_bridge::attempt::{SharedAttempt, SharedBridge};
use crate::audio_host::clock_bridge::capture::{
    offer, offered, read_state_refusal, CaptureIngress, CapturePublishReport, CaptureReadBoundary,
};
use crate::audio_host::clock_bridge::errors::{BridgeClockDomain, BridgeError, BridgeState};
use crate::audio_host::clock_bridge::observation::CopySlot;
use crate::audio_host::clock_bridge::spsc::allocate_filled;
use crate::audio_host::pcm::{decoded_s24, PcmDirection, PhysicalPcmParameters};
use crate::audio_host::worker::status::{
    capture_status, validate_capture_status, PcmStatusError, PcmStatusSnapshot,
};
use crate::audio_host::worker::{
    count_failure, failure_end, leave_park, park_signals, park_step, retry_after_wait,
    retry_wait_step, validate_worker_geometry, worker_geometry, ParkStep, PcmIoError, PcmWait,
    RetryEnd, RetryStep, TransientBudget, TransientKind, WorkerIoPolicy, WorkerPhase,
    WorkerSignals, WorkerStartError,
};
use vstd::prelude::*;
use vstd::slice::slice_subrange;

verus! {

/// One published capture block and its device delay.
#[derive(Clone, Copy, Debug, Eq, PartialEq, Structural)]
pub struct CaptureWorkerProgress {
    pub report: CapturePublishReport,
    pub delay_frames: i64,
}

/// Why a capture worker ended.
#[derive(Clone, Copy, Debug, Eq, PartialEq, Structural)]
pub enum CaptureWorkerTerminal {
    Stopped,
    AgainRetryLimit,
    InterruptedRetryLimit,
    InvalidProgress { actual_frames: usize, maximum_frames: usize },
    PositionOverflow,
    Xrun,
    Suspended,
    Disconnected,
    PcmFailed { errno: i32 },
    Status(PcmStatusError),
    Bridge(BridgeError),
}

/// What a capture worker does next.
#[derive(Clone, Copy, Debug, Eq, PartialEq, Structural)]
pub enum CaptureAction {
    /// Start the PCM device, then call [`CaptureLoop::on_start`].
    Start,
    /// Wait for the PCM device, then call [`CaptureLoop::on_wait`].
    Wait,
    /// Read into the loop's bytes, then call [`CaptureLoop::on_read`].
    Read,
    /// Park the thread, then call [`CaptureLoop::on_unpark`].
    Park,
    /// Park the thread for a millisecond, then call [`CaptureLoop::on_recheck`].
    Recheck,
    /// Read the PCM status, then call [`CaptureLoop::on_status`].
    ReadStatus,
    /// Leave the thread.
    Finish(CaptureWorkerTerminal),
}

/// What a capture worker is waiting for.
#[derive(Clone, Copy, Debug, Eq, PartialEq, Structural)]
pub enum CaptureStage {
    Starting,
    StartWaiting,
    AwaitFrames,
    Reading,
    ParkedBeforeWait,
    ParkedAfterRead,
    Rechecking,
    AwaitStatus,
    StatusWaiting,
    Finished(CaptureWorkerTerminal),
}

impl CaptureStage {
    /// The operation whose outcome this stage waits for.
    pub open spec fn awaits(self) -> CaptureAction {
        match self {
            CaptureStage::Starting => CaptureAction::Start,
            CaptureStage::StartWaiting => CaptureAction::Wait,
            CaptureStage::AwaitFrames => CaptureAction::Wait,
            CaptureStage::Reading => CaptureAction::Read,
            CaptureStage::ParkedBeforeWait => CaptureAction::Park,
            CaptureStage::ParkedAfterRead => CaptureAction::Park,
            CaptureStage::Rechecking => CaptureAction::Recheck,
            CaptureStage::AwaitStatus => CaptureAction::ReadStatus,
            CaptureStage::StatusWaiting => CaptureAction::Wait,
            CaptureStage::Finished(terminal) => CaptureAction::Finish(terminal),
        }
    }

    /// Names the operation whose outcome this stage waits for.
    pub fn action(self) -> (action: CaptureAction)
        ensures
            action == self.awaits(),
    {
        match self {
            CaptureStage::Starting => CaptureAction::Start,
            CaptureStage::StartWaiting => CaptureAction::Wait,
            CaptureStage::AwaitFrames => CaptureAction::Wait,
            CaptureStage::Reading => CaptureAction::Read,
            CaptureStage::ParkedBeforeWait => CaptureAction::Park,
            CaptureStage::ParkedAfterRead => CaptureAction::Park,
            CaptureStage::Rechecking => CaptureAction::Recheck,
            CaptureStage::AwaitStatus => CaptureAction::ReadStatus,
            CaptureStage::StatusWaiting => CaptureAction::Wait,
            CaptureStage::Finished(terminal) => CaptureAction::Finish(terminal),
        }
    }

    /// Whether this stage holds a completed read.
    pub open spec fn holds_read(self) -> bool {
        self == CaptureStage::AwaitStatus || self == CaptureStage::StatusWaiting
    }

    /// Whether this stage parks the thread.
    pub open spec fn parks(self) -> bool {
        self == CaptureStage::ParkedBeforeWait || self == CaptureStage::ParkedAfterRead
    }
}

/// The terminal that a failed PCM operation means.
pub open spec fn pcm_terminal(error: PcmIoError) -> CaptureWorkerTerminal {
    match error {
        PcmIoError::Again => CaptureWorkerTerminal::AgainRetryLimit,
        PcmIoError::Interrupted => CaptureWorkerTerminal::InterruptedRetryLimit,
        PcmIoError::Xrun => CaptureWorkerTerminal::Xrun,
        PcmIoError::Suspended => CaptureWorkerTerminal::Suspended,
        PcmIoError::Disconnected => CaptureWorkerTerminal::Disconnected,
        PcmIoError::Failed { errno } => CaptureWorkerTerminal::PcmFailed { errno },
    }
}

/// Translates a failed PCM operation.
pub fn terminal_from_pcm(error: PcmIoError) -> (terminal: CaptureWorkerTerminal)
    ensures
        terminal == pcm_terminal(error),
{
    match error {
        PcmIoError::Again => CaptureWorkerTerminal::AgainRetryLimit,
        PcmIoError::Interrupted => CaptureWorkerTerminal::InterruptedRetryLimit,
        PcmIoError::Xrun => CaptureWorkerTerminal::Xrun,
        PcmIoError::Suspended => CaptureWorkerTerminal::Suspended,
        PcmIoError::Disconnected => CaptureWorkerTerminal::Disconnected,
        PcmIoError::Failed { errno } => CaptureWorkerTerminal::PcmFailed { errno },
    }
}

/// The terminal that an unsuccessful retried operation means.
pub open spec fn end_terminal(end: RetryEnd) -> CaptureWorkerTerminal {
    match end {
        RetryEnd::Stopped => CaptureWorkerTerminal::Stopped,
        RetryEnd::Exhausted(TransientKind::Again) => CaptureWorkerTerminal::AgainRetryLimit,
        RetryEnd::Exhausted(TransientKind::Interrupted) =>
            CaptureWorkerTerminal::InterruptedRetryLimit,
        RetryEnd::Failed(error) => pcm_terminal(error),
    }
}

/// Translates an unsuccessful retried operation.
pub fn terminal_from_retry(end: RetryEnd) -> (terminal: CaptureWorkerTerminal)
    ensures
        terminal == end_terminal(end),
{
    match end {
        RetryEnd::Stopped => CaptureWorkerTerminal::Stopped,
        RetryEnd::Exhausted(TransientKind::Again) => CaptureWorkerTerminal::AgainRetryLimit,
        RetryEnd::Exhausted(TransientKind::Interrupted) =>
            CaptureWorkerTerminal::InterruptedRetryLimit,
        RetryEnd::Failed(error) => terminal_from_pcm(error),
    }
}

/// Where the head of the capture cycle leads.
pub open spec fn head_stage(stopped: bool, state: BridgeState) -> CaptureStage {
    if stopped {
        CaptureStage::Finished(CaptureWorkerTerminal::Stopped)
    } else {
        match state {
            BridgeState::Primed => CaptureStage::ParkedBeforeWait,
            BridgeState::Quiescing => CaptureStage::Finished(CaptureWorkerTerminal::Stopped),
            BridgeState::Stopped => CaptureStage::Finished(CaptureWorkerTerminal::Stopped),
            _ => CaptureStage::AwaitFrames,
        }
    }
}

fn cycle_head(stopped: bool, state: BridgeState) -> (stage: CaptureStage)
    ensures
        stage == head_stage(stopped, state),
{
    if stopped {
        return CaptureStage::Finished(CaptureWorkerTerminal::Stopped);
    }
    match state {
        BridgeState::Primed => CaptureStage::ParkedBeforeWait,
        BridgeState::Quiescing => CaptureStage::Finished(CaptureWorkerTerminal::Stopped),
        BridgeState::Stopped => CaptureStage::Finished(CaptureWorkerTerminal::Stopped),
        _ => CaptureStage::AwaitFrames,
    }
}

/// Where a refused completed read leads.
pub open spec fn refused_read_stage(error: BridgeError, stopped: bool) -> CaptureStage {
    match error {
        BridgeError::State { actual: BridgeState::PrimingCheck } => if stopped {
            CaptureStage::Finished(CaptureWorkerTerminal::Stopped)
        } else {
            CaptureStage::Rechecking
        },
        BridgeError::State { actual: BridgeState::Primed } => if stopped {
            CaptureStage::Finished(CaptureWorkerTerminal::Stopped)
        } else {
            CaptureStage::ParkedAfterRead
        },
        BridgeError::Teardown => CaptureStage::Finished(CaptureWorkerTerminal::Stopped),
        BridgeError::PositionOverflow { domain, start, frames } => CaptureStage::Finished(
            CaptureWorkerTerminal::PositionOverflow,
        ),
        _ => CaptureStage::Finished(CaptureWorkerTerminal::Bridge(error)),
    }
}

fn refused_read(error: BridgeError, stopped: bool) -> (stage: CaptureStage)
    ensures
        stage == refused_read_stage(error, stopped),
{
    match error {
        BridgeError::State { actual: BridgeState::PrimingCheck } => if stopped {
            CaptureStage::Finished(CaptureWorkerTerminal::Stopped)
        } else {
            CaptureStage::Rechecking
        },
        BridgeError::State { actual: BridgeState::Primed } => if stopped {
            CaptureStage::Finished(CaptureWorkerTerminal::Stopped)
        } else {
            CaptureStage::ParkedAfterRead
        },
        BridgeError::Teardown => CaptureStage::Finished(CaptureWorkerTerminal::Stopped),
        BridgeError::PositionOverflow { domain: _, start: _, frames: _ } => CaptureStage::Finished(
            CaptureWorkerTerminal::PositionOverflow,
        ),
        _ => CaptureStage::Finished(CaptureWorkerTerminal::Bridge(error)),
    }
}

/// Where a completed read of `frames` frames leads.
pub open spec fn read_stage(
    ingress: CaptureIngress,
    frames: usize,
    stopped: bool,
    state: BridgeState,
) -> CaptureStage {
    match read_state_refusal(state) {
        Some(error) => refused_read_stage(error, stopped),
        None => match ingress.read_failure(frames) {
            Some(error) => refused_read_stage(error, stopped),
            None => if stopped {
                CaptureStage::Finished(CaptureWorkerTerminal::Stopped)
            } else {
                CaptureStage::AwaitStatus
            },
        },
    }
}

/// Whether a completed read of `frames` frames moves the application position.
pub open spec fn read_accepted(ingress: CaptureIngress, frames: usize, state: BridgeState) -> bool {
    read_state_refusal(state) is None && ingress.read_failure(frames) is None
}

/// The ingress after a completed read of `frames` frames.
pub open spec fn ingress_after_read(
    ingress: CaptureIngress,
    frames: usize,
    state: BridgeState,
) -> CaptureIngress {
    if read_accepted(ingress, frames, state) {
        CaptureIngress {
            application_position: (ingress.application_position + frames) as u64,
            ..ingress
        }
    } else {
        ingress
    }
}

/// The completed read that a worker holds after it led to `stage`.
pub open spec fn boundary_after_read(
    ingress: CaptureIngress,
    frames: usize,
    attempt: SharedAttempt,
    stage: CaptureStage,
) -> Option<CaptureReadBoundary> {
    if stage == CaptureStage::AwaitStatus {
        Some(
            CaptureReadBoundary {
                attempt_epoch: attempt.attempt_epoch,
                application_start_frame: ingress.application_position,
                application_end_frame: (ingress.application_position + frames) as u64,
                frames,
            },
        )
    } else {
        None
    }
}

/// The attempt after a worker moved to `stage`: leaving with a completed read
/// gives it up, and leaving for any reason but a stop ends the attempt.
pub open spec fn settled_attempt(attempt: SharedAttempt, held: bool, stage: CaptureStage)
    -> SharedAttempt {
    match stage {
        CaptureStage::Finished(terminal) => {
            let released = if held {
                attempt.left(BridgeClockDomain::WaveCapture)
            } else {
                attempt
            };
            if terminal == CaptureWorkerTerminal::Stopped {
                released
            } else {
                released.faulted()
            }
        },
        _ => attempt,
    }
}

/// The attempt after a completed read of `frames` frames led to `stage`.
pub open spec fn attempt_after_read(
    attempt: SharedAttempt,
    ingress: CaptureIngress,
    frames: usize,
    stopped: bool,
) -> SharedAttempt {
    let stage = read_stage(ingress, frames, stopped, attempt.state);
    if read_accepted(ingress, frames, attempt.state) {
        settled_attempt(attempt.entered(BridgeClockDomain::WaveCapture), true, stage)
    } else if read_state_refusal(attempt.state) is Some {
        settled_attempt(attempt, false, stage)
    } else {
        settled_attempt(attempt.faulted(), false, stage)
    }
}

/// The signals of a worker whose completed read is judged in `state`: a primed
/// attempt has it park, and with that forget an earlier resume request, before it
/// sees a stop.
pub open spec fn read_signals(signals: WorkerSignals, state: BridgeState) -> WorkerSignals {
    if state == BridgeState::Primed {
        signals.parked()
    } else {
        signals
    }
}

/// The signals after a worker moved to `stage`.
pub open spec fn settled_signals(signals: WorkerSignals, stage: CaptureStage) -> WorkerSignals {
    match stage {
        CaptureStage::Finished(_) => WorkerSignals { phase: WorkerPhase::Terminal, ..signals },
        _ => if stage.parks() {
            signals.parked()
        } else {
            signals
        },
    }
}

/// The capture worker's cycle: wait, read, account, sample the status, publish.
#[derive(Debug)]
pub struct CaptureLoop {
    pub ingress: CaptureIngress,
    pub geometry: PhysicalPcmParameters,
    pub period_frames: usize,
    pub bytes: Vec<u8>,
    pub policy: WorkerIoPolicy,
    pub retry: TransientBudget,
    pub frames_read: usize,
    pub boundary: Option<CaptureReadBoundary>,
    pub stage: CaptureStage,
}

impl CaptureLoop {
    /// The buffers hold one period, and exactly the status stages hold a
    /// completed read.
    pub open spec fn wf(self) -> bool {
        &&& self.ingress.wf()
        &&& self.bytes@.len() == 3 * self.period_frames
        &&& self.frames_read <= self.period_frames
        &&& self.stage.holds_read() == (self.boundary is Some)
        &&& match self.boundary {
            Some(read) => read.frames == self.frames_read && read.frames
                <= self.ingress.maximum_frames,
            None => true,
        }
    }

    /// Whether this is a worker before its first step.
    pub open spec fn is_new(
        self,
        ingress: CaptureIngress,
        geometry: PhysicalPcmParameters,
        policy: WorkerIoPolicy,
    ) -> bool {
        &&& self.wf()
        &&& self.ingress == ingress
        &&& self.geometry == geometry
        &&& self.period_frames == geometry.period_frames
        &&& self.bytes@ == Seq::new(3 * geometry.period_frames as nat, |i: int| 0u8)
        &&& self.policy == policy
        &&& self.retry == (TransientBudget { attempts: 0, limit: policy.transient_retry_limit })
        &&& self.frames_read == 0
        &&& self.boundary is None
        &&& self.stage == CaptureStage::Starting
    }

    /// Prepares a worker for one capture device; it does nothing before its
    /// first step. Apart from the stated refusal only a failed allocation refuses
    /// a worker.
    pub fn new(
        ingress: CaptureIngress,
        geometry: PhysicalPcmParameters,
        policy: WorkerIoPolicy,
    ) -> (result: Result<Self, WorkerStartError>)
        requires
            ingress.wf(),
        ensures
            !worker_geometry(geometry, PcmDirection::Capture) ==> result == Err::<
                Self,
                WorkerStartError,
            >(WorkerStartError::InvalidGeometry),
            worker_geometry(geometry, PcmDirection::Capture) ==> match result {
                Ok(worker) => worker.is_new(ingress, geometry, policy),
                Err(error) => error == WorkerStartError::BufferAllocation,
            },
    {
        validate_worker_geometry(geometry, PcmDirection::Capture)?;
        let bytes = match (geometry.period_frames as usize).checked_mul(3) {
            Some(length) => allocate_filled(length, 0u8),
            None => None,
        };
        Self::from_bytes(ingress, geometry, policy, bytes)
    }

    /// Prepares a worker on the bytes that were allocated for one period, where
    /// they were.
    pub fn from_bytes(
        ingress: CaptureIngress,
        geometry: PhysicalPcmParameters,
        policy: WorkerIoPolicy,
        bytes: Option<Vec<u8>>,
    ) -> (result: Result<Self, WorkerStartError>)
        requires
            ingress.wf(),
            match bytes {
                Some(bytes) => bytes@ == Seq::new(
                    3 * geometry.period_frames as nat,
                    |i: int| 0u8,
                ),
                None => true,
            },
        ensures
            match bytes {
                Some(_) => result is Ok && result->Ok_0.is_new(ingress, geometry, policy),
                None => result == Err::<Self, WorkerStartError>(WorkerStartError::BufferAllocation),
            },
    {
        match bytes {
            Some(bytes) => Ok(
                CaptureLoop {
                    ingress,
                    geometry,
                    period_frames: geometry.period_frames as usize,
                    bytes,
                    policy,
                    retry: TransientBudget::new(policy.transient_retry_limit()),
                    frames_read: 0,
                    boundary: None,
                    stage: CaptureStage::Starting,
                },
            ),
            None => Err(WorkerStartError::BufferAllocation),
        }
    }

    fn go(
        &mut self,
        bridge: &mut SharedBridge,
        signals: &mut WorkerSignals,
        stage: CaptureStage,
    ) -> (action: CaptureAction)
        requires
            old(self).ingress.wf(),
            old(self).bytes@.len() == 3 * old(self).period_frames,
            old(self).frames_read <= old(self).period_frames,
            stage is Finished || stage.holds_read() == (old(self).boundary is Some),
            match old(self).boundary {
                Some(read) => read.frames == old(self).frames_read && read.frames <= old(
                    self,
                ).ingress.maximum_frames,
                None => true,
            },
        ensures
            final(self).wf(),
            action == stage.awaits(),
            *final(self) == (CaptureLoop {
                stage,
                boundary: if stage is Finished {
                    None
                } else {
                    old(self).boundary
                },
                ..*old(self)
            }),
            final(bridge).same_handover(*old(bridge)),
            final(bridge).attempt == settled_attempt(
                old(bridge).attempt,
                old(self).boundary is Some,
                stage,
            ),
            *final(signals) == settled_signals(*old(signals), stage),
    {
        match stage {
            CaptureStage::Finished(terminal) => {
                if let Some(read) = self.boundary.take() {
                    read.abandon(bridge);
                }
                signals.set_phase(WorkerPhase::Terminal);
                if terminal != CaptureWorkerTerminal::Stopped {
                    self.ingress.worker_fault(bridge);
                }
            },
            CaptureStage::ParkedBeforeWait => {
                signals.begin_primed_park();
            },
            CaptureStage::ParkedAfterRead => {
                signals.begin_primed_park();
            },
            _ => {},
        }
        self.stage = stage;
        stage.action()
    }

    /// Begins the worker: its first operation starts the device, unless it was
    /// stopped before.
    pub fn begin(&mut self, bridge: &mut SharedBridge, signals: &mut WorkerSignals) -> (action:
        CaptureAction)
        requires
            old(self).wf(),
            old(self).stage == CaptureStage::Starting,
        ensures
            final(self).wf(),
            ({
                let stage = if old(signals).stop {
                    CaptureStage::Finished(CaptureWorkerTerminal::Stopped)
                } else {
                    CaptureStage::Starting
                };
                &&& action == stage.awaits()
                &&& *final(self) == (CaptureLoop { stage, ..*old(self) })
                &&& *final(bridge) == *old(bridge)
                &&& *final(signals) == settled_signals(*old(signals), stage)
            }),
    {
        let stage = if signals.stopped() {
            CaptureStage::Finished(CaptureWorkerTerminal::Stopped)
        } else {
            CaptureStage::Starting
        };
        self.go(bridge, signals, stage)
    }

    /// Where an attempt to start the device leads.
    pub open spec fn start_stage(
        self,
        started: Result<(), PcmIoError>,
        stopped: bool,
        state: BridgeState,
    ) -> CaptureStage {
        match started {
            Ok(()) => head_stage(stopped, state),
            Err(error) => match failure_end(self.retry, error).0 {
                Some(end) => CaptureStage::Finished(end_terminal(end)),
                None => CaptureStage::StartWaiting,
            },
        }
    }

    /// Takes the outcome of starting the device.
    pub fn on_start(
        &mut self,
        bridge: &mut SharedBridge,
        signals: &mut WorkerSignals,
        started: Result<(), PcmIoError>,
    ) -> (action: CaptureAction)
        requires
            old(self).wf(),
            old(self).stage == CaptureStage::Starting,
        ensures
            final(self).wf(),
            ({
                let stage = old(self).start_stage(
                    started,
                    old(signals).stop,
                    old(bridge).attempt.state,
                );
                &&& action == stage.awaits()
                &&& *final(self) == (CaptureLoop {
                    stage,
                    retry: match started {
                        Ok(()) => TransientBudget {
                            attempts: 0,
                            limit: old(self).policy.transient_retry_limit,
                        },
                        Err(error) => failure_end(old(self).retry, error).1,
                    },
                    ..*old(self)
                })
                &&& final(bridge).same_handover(*old(bridge))
                &&& final(bridge).attempt == settled_attempt(old(bridge).attempt, false, stage)
                &&& *final(signals) == settled_signals(
                    match started {
                        Ok(()) => WorkerSignals { phase: WorkerPhase::Running, ..*old(signals) },
                        Err(_) => *old(signals),
                    },
                    stage,
                )
            }),
    {
        let stage = match started {
            Ok(()) => {
                signals.set_phase(WorkerPhase::Running);
                self.retry = TransientBudget::new(self.policy.transient_retry_limit());
                cycle_head(signals.stopped(), bridge.attempt.state())
            },
            Err(error) => match count_failure(&mut self.retry, error) {
                Some(end) => CaptureStage::Finished(terminal_from_retry(end)),
                None => CaptureStage::StartWaiting,
            },
        };
        self.go(bridge, signals, stage)
    }

    /// Where a wait leads, and what it leaves of the retry budget.
    pub open spec fn wait_stage(
        self,
        waited: Result<PcmWait, PcmIoError>,
        stopped: bool,
        state: BridgeState,
    ) -> (CaptureStage, TransientBudget) {
        let (step, rest) = retry_wait_step(self.retry, waited, stopped);
        if self.stage == CaptureStage::AwaitFrames {
            match waited {
                Ok(PcmWait::TimedOut) => (head_stage(stopped, state), self.retry),
                Ok(PcmWait::Ready) => (
                    if stopped {
                        CaptureStage::Finished(CaptureWorkerTerminal::Stopped)
                    } else {
                        CaptureStage::Reading
                    },
                    self.retry,
                ),
                Err(error) => match failure_end(self.retry, error) {
                    (Some(end), rest) => (CaptureStage::Finished(end_terminal(end)), rest),
                    (None, rest) => (head_stage(stopped, state), rest),
                },
            }
        } else {
            match step {
                RetryStep::End(end) => (CaptureStage::Finished(end_terminal(end)), rest),
                _ => (
                    if self.stage == CaptureStage::StartWaiting {
                        CaptureStage::Starting
                    } else {
                        CaptureStage::AwaitStatus
                    },
                    rest,
                ),
            }
        }
    }

    /// Takes the outcome of waiting for the device.
    pub fn on_wait(
        &mut self,
        bridge: &mut SharedBridge,
        signals: &mut WorkerSignals,
        waited: Result<PcmWait, PcmIoError>,
    ) -> (action: CaptureAction)
        requires
            old(self).wf(),
            old(self).stage.awaits() == CaptureAction::Wait,
        ensures
            final(self).wf(),
            ({
                let (stage, retry) = old(self).wait_stage(
                    waited,
                    old(signals).stop,
                    old(bridge).attempt.state,
                );
                &&& action == stage.awaits()
                &&& *final(self) == (CaptureLoop {
                    stage,
                    retry,
                    boundary: if stage is Finished {
                        None
                    } else {
                        old(self).boundary
                    },
                    ..*old(self)
                })
                &&& final(bridge).same_handover(*old(bridge))
                &&& final(bridge).attempt == settled_attempt(
                    old(bridge).attempt,
                    old(self).boundary is Some,
                    stage,
                )
                &&& *final(signals) == settled_signals(*old(signals), stage)
            }),
    {
        let stopped = signals.stopped();
        let stage = if self.stage == CaptureStage::AwaitFrames {
            match waited {
                Ok(PcmWait::TimedOut) => cycle_head(stopped, bridge.attempt.state()),
                Ok(PcmWait::Ready) => if stopped {
                    CaptureStage::Finished(CaptureWorkerTerminal::Stopped)
                } else {
                    CaptureStage::Reading
                },
                Err(error) => match count_failure(&mut self.retry, error) {
                    Some(end) => CaptureStage::Finished(terminal_from_retry(end)),
                    None => cycle_head(stopped, bridge.attempt.state()),
                },
            }
        } else {
            let starting = self.stage == CaptureStage::StartWaiting;
            match retry_after_wait(&mut self.retry, waited, stopped) {
                RetryStep::End(end) => CaptureStage::Finished(terminal_from_retry(end)),
                _ => if starting {
                    CaptureStage::Starting
                } else {
                    CaptureStage::AwaitStatus
                },
            }
        };
        self.go(bridge, signals, stage)
    }

    fn account(&mut self, bridge: &mut SharedBridge, signals: &mut WorkerSignals) -> (action:
        CaptureAction)
        requires
            old(self).ingress.wf(),
            old(self).bytes@.len() == 3 * old(self).period_frames,
            old(self).frames_read <= old(self).period_frames,
            old(self).boundary is None,
        ensures
            final(self).wf(),
            ({
                let state = old(bridge).attempt.state;
                let frames = old(self).frames_read;
                let stage = read_stage(old(self).ingress, frames, old(signals).stop, state);
                &&& action == stage.awaits()
                &&& *final(self) == (CaptureLoop {
                    stage,
                    ingress: ingress_after_read(old(self).ingress, frames, state),
                    boundary: boundary_after_read(
                        old(self).ingress,
                        frames,
                        old(bridge).attempt,
                        stage,
                    ),
                    ..*old(self)
                })
                &&& final(bridge).same_handover(*old(bridge))
                &&& final(bridge).attempt == attempt_after_read(
                    old(bridge).attempt,
                    old(self).ingress,
                    frames,
                    old(signals).stop,
                )
                &&& *final(signals) == settled_signals(read_signals(*old(signals), state), stage)
            }),
    {
        let stopped = signals.stopped();
        let stage = match self.ingress.record_completed_read(bridge, self.frames_read) {
            Ok(read) => {
                self.boundary = Some(read);
                if stopped {
                    CaptureStage::Finished(CaptureWorkerTerminal::Stopped)
                } else {
                    CaptureStage::AwaitStatus
                }
            },
            Err(error) => refused_read(error, stopped),
        };
        if bridge.attempt.state() == BridgeState::Primed {
            signals.begin_primed_park();
        }
        self.go(bridge, signals, stage)
    }

    /// Where a failed or malformed read leads, if it is one.
    pub open spec fn bad_read_stage(
        self,
        read: Result<usize, PcmIoError>,
        stopped: bool,
        state: BridgeState,
    ) -> Option<CaptureStage> {
        match read {
            Ok(frames) => if frames == 0 || frames > self.period_frames {
                Some(
                    CaptureStage::Finished(
                        CaptureWorkerTerminal::InvalidProgress {
                            actual_frames: frames,
                            maximum_frames: self.period_frames,
                        },
                    ),
                )
            } else {
                None
            },
            Err(error) => match failure_end(self.retry, error).0 {
                Some(end) => Some(CaptureStage::Finished(end_terminal(end))),
                None => Some(head_stage(stopped, state)),
            },
        }
    }

    /// Takes the outcome of reading frames into the loop's bytes.
    pub fn on_read(
        &mut self,
        bridge: &mut SharedBridge,
        signals: &mut WorkerSignals,
        read: Result<usize, PcmIoError>,
    ) -> (action: CaptureAction)
        requires
            old(self).wf(),
            old(self).stage == CaptureStage::Reading,
        ensures
            final(self).wf(),
            final(bridge).same_handover(*old(bridge)),
            match old(self).bad_read_stage(read, old(signals).stop, old(bridge).attempt.state) {
                Some(stage) => {
                    &&& action == stage.awaits()
                    &&& *final(self) == (CaptureLoop {
                        stage,
                        retry: match read {
                            Ok(_) => old(self).retry,
                            Err(error) => failure_end(old(self).retry, error).1,
                        },
                        ..*old(self)
                    })
                    &&& final(bridge).attempt == settled_attempt(old(bridge).attempt, false, stage)
                    &&& *final(signals) == settled_signals(*old(signals), stage)
                },
                None => {
                    let state = old(bridge).attempt.state;
                    let frames = read->Ok_0;
                    let stage = read_stage(old(self).ingress, frames, old(signals).stop, state);
                    &&& action == stage.awaits()
                    &&& *final(self) == (CaptureLoop {
                        stage,
                        ingress: ingress_after_read(old(self).ingress, frames, state),
                        boundary: boundary_after_read(
                            old(self).ingress,
                            frames,
                            old(bridge).attempt,
                            stage,
                        ),
                        frames_read: frames,
                        retry: TransientBudget { attempts: 0, ..old(self).retry },
                        ..*old(self)
                    })
                    &&& final(bridge).attempt == attempt_after_read(
                        old(bridge).attempt,
                        old(self).ingress,
                        frames,
                        old(signals).stop,
                    )
                    &&& *final(signals) == settled_signals(read_signals(*old(signals), state), stage)
                },
            },
    {
        match read {
            Ok(frames) => {
                if frames == 0 || frames > self.period_frames {
                    let terminal = CaptureWorkerTerminal::InvalidProgress {
                        actual_frames: frames,
                        maximum_frames: self.period_frames,
                    };
                    return self.go(bridge, signals, CaptureStage::Finished(terminal));
                }
                self.retry.reset();
                self.frames_read = frames;
                self.account(bridge, signals)
            },
            Err(error) => {
                let stage = match count_failure(&mut self.retry, error) {
                    Some(end) => CaptureStage::Finished(terminal_from_retry(end)),
                    None => cycle_head(signals.stopped(), bridge.attempt.state()),
                };
                self.go(bridge, signals, stage)
            },
        }
    }

    /// Takes the end of the short pause before a completed read is offered again.
    pub fn on_recheck(&mut self, bridge: &mut SharedBridge, signals: &mut WorkerSignals) -> (action:
        CaptureAction)
        requires
            old(self).wf(),
            old(self).stage == CaptureStage::Rechecking,
        ensures
            final(self).wf(),
            ({
                let state = old(bridge).attempt.state;
                let frames = old(self).frames_read;
                let stage = read_stage(old(self).ingress, frames, old(signals).stop, state);
                &&& action == stage.awaits()
                &&& *final(self) == (CaptureLoop {
                    stage,
                    ingress: ingress_after_read(old(self).ingress, frames, state),
                    boundary: boundary_after_read(
                        old(self).ingress,
                        frames,
                        old(bridge).attempt,
                        stage,
                    ),
                    ..*old(self)
                })
                &&& final(bridge).same_handover(*old(bridge))
                &&& final(bridge).attempt == attempt_after_read(
                    old(bridge).attempt,
                    old(self).ingress,
                    frames,
                    old(signals).stop,
                )
                &&& *final(signals) == settled_signals(read_signals(*old(signals), state), stage)
            }),
    {
        self.account(bridge, signals)
    }

    /// Where waking up from a park leads.
    pub open spec fn unpark_stage(self, signals: WorkerSignals, state: BridgeState) -> CaptureStage {
        match park_step(signals, state) {
            ParkStep::Stop => CaptureStage::Finished(CaptureWorkerTerminal::Stopped),
            ParkStep::ParkAgain => self.stage,
            ParkStep::Resume => if self.stage == CaptureStage::ParkedBeforeWait {
                CaptureStage::AwaitFrames
            } else {
                read_stage(self.ingress, self.frames_read, false, state)
            },
        }
    }

    /// Takes the end of a park.
    pub fn on_unpark(&mut self, bridge: &mut SharedBridge, signals: &mut WorkerSignals) -> (action:
        CaptureAction)
        requires
            old(self).wf(),
            old(self).stage.parks(),
        ensures
            final(self).wf(),
            ({
                let state = old(bridge).attempt.state;
                let frames = old(self).frames_read;
                let step = park_step(*old(signals), state);
                let stage = old(self).unpark_stage(*old(signals), state);
                let offers = step == ParkStep::Resume && old(self).stage
                    == CaptureStage::ParkedAfterRead;
                &&& action == stage.awaits()
                &&& *final(self) == (CaptureLoop {
                    stage,
                    ingress: if offers {
                        ingress_after_read(old(self).ingress, frames, state)
                    } else {
                        old(self).ingress
                    },
                    boundary: boundary_after_read(
                        old(self).ingress,
                        frames,
                        old(bridge).attempt,
                        stage,
                    ),
                    ..*old(self)
                })
                &&& final(bridge).same_handover(*old(bridge))
                &&& final(bridge).attempt == (if offers {
                    attempt_after_read(old(bridge).attempt, old(self).ingress, frames, false)
                } else {
                    old(bridge).attempt
                })
                &&& *final(signals) == (if step == ParkStep::ParkAgain {
                    park_signals(*old(signals), state)
                } else {
                    settled_signals(park_signals(*old(signals), state), stage)
                })
            }),
    {
        let state = bridge.attempt.state();
        match leave_park(signals, state) {
            ParkStep::Stop => self.go(
                bridge,
                signals,
                CaptureStage::Finished(CaptureWorkerTerminal::Stopped),
            ),
            ParkStep::ParkAgain => CaptureAction::Park,
            ParkStep::Resume => {
                if self.stage == CaptureStage::ParkedBeforeWait {
                    self.go(bridge, signals, CaptureStage::AwaitFrames)
                } else {
                    self.account(bridge, signals)
                }
            },
        }
    }

    /// The bytes of the completed read.
    pub open spec fn read_bytes(self) -> Seq<u8> {
        self.bytes@.take(3 * self.frames_read as int)
    }

    /// Where a status that does not lead to a publication leads, if it is one.
    pub open spec fn unpublished_stage(
        self,
        bridge: SharedBridge,
        status: Result<PcmStatusSnapshot, PcmIoError>,
    ) -> Option<CaptureStage> {
        let read = self.boundary->Some_0;
        match status {
            Err(error) => match failure_end(self.retry, error).0 {
                Some(end) => Some(CaptureStage::Finished(end_terminal(end))),
                None => Some(CaptureStage::StatusWaiting),
            },
            Ok(snapshot) => match capture_status(
                read.attempt_epoch,
                read.application_end_frame,
                self.geometry,
                snapshot,
            ) {
                Err(error) => Some(CaptureStage::Finished(CaptureWorkerTerminal::Status(error))),
                Ok(checked) => match read.publish_failure(
                    self.ingress,
                    bridge,
                    checked.observation,
                    self.read_bytes(),
                ) {
                    Some(error) => Some(
                        CaptureStage::Finished(CaptureWorkerTerminal::Bridge(error)),
                    ),
                    None => None,
                },
            },
        }
    }

    /// Takes the outcome of reading the PCM status, publishes the completed read
    /// with it, and offers the worker's progress to its owner.
    pub fn on_status(
        &mut self,
        bridge: &mut SharedBridge,
        signals: &mut WorkerSignals,
        status: Result<PcmStatusSnapshot, PcmIoError>,
        progress: &mut CopySlot<CaptureWorkerProgress>,
    ) -> (action: CaptureAction)
        requires
            old(self).wf(),
            old(self).stage == CaptureStage::AwaitStatus,
            old(bridge).wf(),
        ensures
            final(self).wf(),
            final(bridge).wf(),
            match old(self).unpublished_stage(*old(bridge), status) {
                Some(stage) => {
                    &&& action == stage.awaits()
                    &&& *final(self) == (CaptureLoop {
                        stage,
                        ingress: final(self).ingress,
                        retry: match status {
                            Ok(_) => old(self).retry,
                            Err(error) => failure_end(old(self).retry, error).1,
                        },
                        boundary: if stage is Finished {
                            None
                        } else {
                            old(self).boundary
                        },
                        ..*old(self)
                    })
                    &&& final(self).ingress.keeps_all_but_scratch(old(self).ingress)
                    &&& final(bridge).same_handover(*old(bridge))
                    &&& final(bridge).attempt == settled_attempt(old(bridge).attempt, true, stage)
                    &&& *final(signals) == settled_signals(*old(signals), stage)
                    &&& *final(progress) == *old(progress)
                },
                None => {
                    let read = old(self).boundary->Some_0;
                    let checked = capture_status(
                        read.attempt_epoch,
                        read.application_end_frame,
                        old(self).geometry,
                        status->Ok_0,
                    )->Ok_0;
                    let fill = old(bridge).capture_ring.fill() + read.frames;
                    let published = CaptureReadBoundary::published_attempt(
                        old(bridge).attempt,
                        fill,
                    );
                    let stage = head_stage(old(signals).stop, published.state);
                    let report = CapturePublishReport {
                        application_start_frame: read.application_start_frame,
                        application_end_frame: read.application_end_frame,
                        hardware_frame_position: checked.observation.clock.frame_position.frames,
                        frames: read.frames,
                        fifo_fill_frames: fill as usize,
                        observation_publication:
                            crate::audio_host::clock_bridge::capture::publication_into(
                            old(bridge).capture_observation,
                        ),
                    };
                    &&& action == stage.awaits()
                    &&& *final(self) == (CaptureLoop {
                        stage,
                        ingress: final(self).ingress,
                        retry: TransientBudget { attempts: 0, ..old(self).retry },
                        boundary: None,
                        ..*old(self)
                    })
                    &&& final(self).ingress.keeps_all_but_scratch(
                        CaptureIngress {
                            last_observation: Some(checked.observation.clock),
                            ..old(self).ingress
                        },
                    )
                    &&& final(bridge).attempt == settled_attempt(published, false, stage)
                    &&& final(bridge).capture_ring.pushed_from(
                        old(bridge).capture_ring,
                        decoded_s24(old(self).read_bytes()),
                    )
                    &&& final(bridge).capture_observation == offered(
                        old(bridge).capture_observation,
                        checked.observation,
                    )
                    &&& final(bridge).playback_ring == old(bridge).playback_ring
                    &&& final(bridge).graph_observation == old(bridge).graph_observation
                    &&& *final(signals) == settled_signals(*old(signals), stage)
                    &&& *final(progress) == offered(
                        *old(progress),
                        CaptureWorkerProgress { report, delay_frames: checked.delay_frames },
                    )
                },
            },
    {
        let snapshot = match status {
            Ok(snapshot) => snapshot,
            Err(error) => {
                let stage = match count_failure(&mut self.retry, error) {
                    Some(end) => CaptureStage::Finished(terminal_from_retry(end)),
                    None => CaptureStage::StatusWaiting,
                };
                return self.go(bridge, signals, stage);
            },
        };
        let read = match self.boundary.take() {
            Some(read) => read,
            None => {
                return CaptureAction::Finish(CaptureWorkerTerminal::Stopped);
            },
        };
        let checked = match validate_capture_status(
            read.attempt_epoch(),
            read.application_end_frame(),
            self.geometry,
            snapshot,
        ) {
            Ok(checked) => checked,
            Err(error) => {
                self.boundary = Some(read);
                return self.go(
                    bridge,
                    signals,
                    CaptureStage::Finished(CaptureWorkerTerminal::Status(error)),
                );
            },
        };
        proof {
            assert(3 * self.frames_read <= self.bytes.len());
        }
        let bytes = slice_subrange(self.bytes.as_slice(), 0, 3 * self.frames_read);
        let report = match read.publish(&mut self.ingress, bridge, checked.observation, bytes) {
            Ok(report) => report,
            Err(error) => {
                return self.go(
                    bridge,
                    signals,
                    CaptureStage::Finished(CaptureWorkerTerminal::Bridge(error)),
                );
            },
        };
        self.retry.reset();
        let _ = offer(
            progress,
            CaptureWorkerProgress { report, delay_frames: checked.delay_frames },
        );
        let stage = cycle_head(signals.stopped(), bridge.attempt.state());
        self.go(bridge, signals, stage)
    }
}

/// A worker that was asked to stop neither reads nor parks again: the head of its
/// cycle and every completed read end it. Whatever ends a worker other than a stop
/// ends the attempt.
pub proof fn law_stop_ends_the_cycle(
    ingress: CaptureIngress,
    frames: usize,
    attempt: SharedAttempt,
    terminal: CaptureWorkerTerminal,
    held: bool,
)
    ensures
        head_stage(true, attempt.state) == CaptureStage::Finished(CaptureWorkerTerminal::Stopped),
        read_stage(ingress, frames, true, attempt.state) is Finished,
        terminal != CaptureWorkerTerminal::Stopped ==> {
            let state = settled_attempt(attempt, held, CaptureStage::Finished(terminal)).state;
            state == BridgeState::Faulted || state == BridgeState::Quiescing || state
                == BridgeState::Stopped
        },
{
}

/// Each failed PCM operation ends the worker as what it was; an exhausted retry
/// names the failure that exhausted it, and a stop is a stop.
pub proof fn law_capture_terminals_keep_their_cause(errno: i32)
    ensures
        end_terminal(RetryEnd::Stopped) == CaptureWorkerTerminal::Stopped,
        end_terminal(RetryEnd::Exhausted(TransientKind::Again))
            == CaptureWorkerTerminal::AgainRetryLimit,
        end_terminal(RetryEnd::Exhausted(TransientKind::Interrupted))
            == CaptureWorkerTerminal::InterruptedRetryLimit,
        end_terminal(RetryEnd::Failed(PcmIoError::Again)) == CaptureWorkerTerminal::AgainRetryLimit,
        end_terminal(RetryEnd::Failed(PcmIoError::Interrupted))
            == CaptureWorkerTerminal::InterruptedRetryLimit,
        end_terminal(RetryEnd::Failed(PcmIoError::Xrun)) == CaptureWorkerTerminal::Xrun,
        end_terminal(RetryEnd::Failed(PcmIoError::Suspended)) == CaptureWorkerTerminal::Suspended,
        end_terminal(RetryEnd::Failed(PcmIoError::Disconnected))
            == CaptureWorkerTerminal::Disconnected,
        end_terminal(RetryEnd::Failed((PcmIoError::Failed { errno }))) == (
        CaptureWorkerTerminal::PcmFailed { errno }),
{
}

/// The cycle leads to waiting for frames, except that a stop or a teardown ends it
/// and a primed attempt parks it.
pub proof fn law_capture_cycle_waits_for_frames_first(stopped: bool, state: BridgeState)
    ensures
        head_stage(stopped, state) == CaptureStage::Finished(CaptureWorkerTerminal::Stopped) <==> (
        stopped || state == BridgeState::Quiescing || state == BridgeState::Stopped),
        head_stage(stopped, state) == CaptureStage::ParkedBeforeWait <==> !stopped && state
            == BridgeState::Primed,
        head_stage(stopped, state) == CaptureStage::AwaitFrames <==> !stopped && state
            != BridgeState::Primed && state != BridgeState::Quiescing && state
            != BridgeState::Stopped,
{
}

/// Each stage asks for the one operation whose outcome it waits for.
pub proof fn law_capture_stages_ask_for_their_operation(terminal: CaptureWorkerTerminal)
    ensures
        CaptureStage::Starting.awaits() == CaptureAction::Start,
        CaptureStage::StartWaiting.awaits() == CaptureAction::Wait,
        CaptureStage::AwaitFrames.awaits() == CaptureAction::Wait,
        CaptureStage::Reading.awaits() == CaptureAction::Read,
        CaptureStage::ParkedBeforeWait.awaits() == CaptureAction::Park,
        CaptureStage::ParkedAfterRead.awaits() == CaptureAction::Park,
        CaptureStage::Rechecking.awaits() == CaptureAction::Recheck,
        CaptureStage::AwaitStatus.awaits() == CaptureAction::ReadStatus,
        CaptureStage::StatusWaiting.awaits() == CaptureAction::Wait,
        CaptureStage::Finished(terminal).awaits() == CaptureAction::Finish(terminal),
{
}

/// Where a completed read leads, by the state of the attempt: while it is being
/// checked the read is offered again, while it is primed the worker parks with it,
/// in a teardown the worker stops, in a fault it ends with it, and where reads are
/// taken its status is read next, unless a stop was requested.
pub proof fn law_completed_reads_wait_out_the_activation(
    ingress: CaptureIngress,
    frames: usize,
    stopped: bool,
    state: BridgeState,
)
    ensures
        state == BridgeState::PrimingCheck && !stopped ==> read_stage(
            ingress,
            frames,
            stopped,
            state,
        ) == CaptureStage::Rechecking,
        state == BridgeState::Primed && !stopped ==> read_stage(ingress, frames, stopped, state)
            == CaptureStage::ParkedAfterRead,
        state == BridgeState::Quiescing || state == BridgeState::Stopped ==> read_stage(
            ingress,
            frames,
            stopped,
            state,
        ) == CaptureStage::Finished(CaptureWorkerTerminal::Stopped),
        state == BridgeState::Faulted ==> read_stage(ingress, frames, stopped, state)
            == CaptureStage::Finished(CaptureWorkerTerminal::Bridge(BridgeError::AttemptFaulted)),
        read_accepted(ingress, frames, state) && !stopped ==> read_stage(
            ingress,
            frames,
            stopped,
            state,
        ) == CaptureStage::AwaitStatus,
        read_accepted(ingress, frames, state) ==> 0 < frames <= ingress.maximum_frames
            && ingress_after_read(ingress, frames, state).application_position
            == ingress.application_position + frames,
        !read_accepted(ingress, frames, state) ==> ingress_after_read(ingress, frames, state)
            == ingress,
        read_state_refusal(state) is None && 0 < frames <= ingress.maximum_frames
            && ingress.application_position + frames > u64::MAX ==> read_stage(
            ingress,
            frames,
            stopped,
            state,
        ) == CaptureStage::Finished(CaptureWorkerTerminal::PositionOverflow),
{
}

/// The read that a worker holds covers exactly the frames that were read, behind
/// the ones before, in the attempt that took it.
pub proof fn law_held_read_covers_its_frames(
    ingress: CaptureIngress,
    frames: usize,
    attempt: SharedAttempt,
    stage: CaptureStage,
)
    requires
        ingress.application_position + frames <= u64::MAX,
    ensures
        match boundary_after_read(ingress, frames, attempt, stage) {
            Some(read) => {
                &&& stage == CaptureStage::AwaitStatus
                &&& read.attempt_epoch == attempt.attempt_epoch
                &&& read.application_start_frame == ingress.application_position
                &&& read.application_end_frame == ingress.application_position + frames
                &&& read.frames == frames
            },
            None => stage != CaptureStage::AwaitStatus,
        },
{
}

/// Leaving gives up a held read and, for any reason but a stop, ends the attempt;
/// moving on changes nothing. Only leaving or parking changes what the worker
/// tells its owner.
pub proof fn law_capture_failures_end_the_attempt(
    attempt: SharedAttempt,
    signals: WorkerSignals,
    held: bool,
    stage: CaptureStage,
)
    requires
        attempt.capture_in_flight > 0,
    ensures
        ({
            let after = settled_attempt(attempt, held, stage);
            &&& after.graph_in_flight == attempt.graph_in_flight
            &&& after.playback_in_flight == attempt.playback_in_flight
            &&& match stage {
                CaptureStage::Finished(terminal) => {
                    &&& after.capture_in_flight == attempt.capture_in_flight - if held {
                        1int
                    } else {
                        0int
                    }
                    &&& terminal == CaptureWorkerTerminal::Stopped ==> after.state == attempt.state
                    &&& terminal != CaptureWorkerTerminal::Stopped && attempt.state
                        != BridgeState::Quiescing && attempt.state != BridgeState::Stopped
                        ==> after.state == BridgeState::Faulted
                },
                _ => after == attempt,
            }
        }),
        match stage {
            CaptureStage::Finished(_) => settled_signals(signals, stage).phase
                == WorkerPhase::Terminal && settled_signals(signals, stage).resume_requested
                == signals.resume_requested,
            CaptureStage::ParkedBeforeWait | CaptureStage::ParkedAfterRead => settled_signals(
                signals,
                stage,
            ).phase == WorkerPhase::PrimedParked && !settled_signals(
                signals,
                stage,
            ).resume_requested,
            _ => settled_signals(signals, stage) == signals,
        },
        settled_signals(signals, stage).stop == signals.stop,
        settled_signals(signals, stage).attempt_epoch == signals.attempt_epoch,
{
}

/// What a start, a wait, a read and a wake lead to: a started device to the head
/// of the cycle, a ready one to a read, an empty or oversized read to the end, a
/// wake from before a wait to waiting for frames, one from behind a read to
/// offering that read again, and every failure that is not transient to its end.
pub proof fn law_capture_worker_moves_on(
    worker: CaptureLoop,
    failure: PcmIoError,
    frames: usize,
    stopped: bool,
    state: BridgeState,
    signals: WorkerSignals,
)
    requires
        failure != PcmIoError::Again,
        failure != PcmIoError::Interrupted,
    ensures
        worker.start_stage(Ok(()), stopped, state) == head_stage(stopped, state),
        worker.start_stage(Err(failure), stopped, state) == CaptureStage::Finished(
            pcm_terminal(failure),
        ),
        worker.stage == CaptureStage::AwaitFrames && !stopped ==> worker.wait_stage(
            Ok(PcmWait::Ready),
            stopped,
            state,
        ) == (CaptureStage::Reading, worker.retry),
        worker.stage == CaptureStage::AwaitFrames ==> worker.wait_stage(
            Ok(PcmWait::TimedOut),
            stopped,
            state,
        ) == (head_stage(stopped, state), worker.retry),
        worker.stage == CaptureStage::StartWaiting && !stopped ==> worker.wait_stage(
            Ok(PcmWait::Ready),
            stopped,
            state,
        ) == (CaptureStage::Starting, worker.retry),
        worker.stage == CaptureStage::StatusWaiting && !stopped ==> worker.wait_stage(
            Ok(PcmWait::Ready),
            stopped,
            state,
        ) == (CaptureStage::AwaitStatus, worker.retry),
        worker.wait_stage(Err(failure), stopped, state) == (
            CaptureStage::Finished(pcm_terminal(failure)),
            worker.retry,
        ),
        worker.bad_read_stage(Err(failure), stopped, state) == Some(
            CaptureStage::Finished(pcm_terminal(failure)),
        ),
        worker.bad_read_stage(Ok(frames), stopped, state) is None <==> 0 < frames
            <= worker.period_frames,
        frames == 0 || frames > worker.period_frames ==> worker.bad_read_stage(
            Ok(frames),
            stopped,
            state,
        ) == Some(
            CaptureStage::Finished(
                CaptureWorkerTerminal::InvalidProgress {
                    actual_frames: frames,
                    maximum_frames: worker.period_frames,
                },
            ),
        ),
        signals.stop ==> worker.unpark_stage(signals, state) == CaptureStage::Finished(
            CaptureWorkerTerminal::Stopped,
        ),
        !signals.stop && !(signals.resume_requested && state == BridgeState::Active)
            ==> worker.unpark_stage(signals, state) == worker.stage,
        !signals.stop && signals.resume_requested && state == BridgeState::Active && worker.stage
            == CaptureStage::ParkedBeforeWait ==> worker.unpark_stage(signals, state)
            == CaptureStage::AwaitFrames,
        !signals.stop && signals.resume_requested && state == BridgeState::Active && worker.stage
            == CaptureStage::ParkedAfterRead ==> worker.unpark_stage(signals, state) == read_stage(
            worker.ingress,
            worker.frames_read,
            false,
            state,
        ),
{
}

/// A held read is published exactly if its status is accepted for the position
/// behind it and the bridge takes it; the bytes published are those that were
/// read, three for each frame.
pub proof fn law_held_read_is_published_with_its_status(
    worker: CaptureLoop,
    bridge: SharedBridge,
    snapshot: PcmStatusSnapshot,
)
    requires
        worker.wf(),
        worker.boundary is Some,
    ensures
        worker.read_bytes().len() == 3 * worker.boundary->Some_0.frames,
        forall|i: int|
            0 <= i < 3 * worker.boundary->Some_0.frames ==> #[trigger] worker.read_bytes()[i]
                == worker.bytes@[i],
        match capture_status(
            worker.boundary->Some_0.attempt_epoch,
            worker.boundary->Some_0.application_end_frame,
            worker.geometry,
            snapshot,
        ) {
            Err(error) => worker.unpublished_stage(bridge, Ok(snapshot)) == Some(
                CaptureStage::Finished(CaptureWorkerTerminal::Status(error)),
            ),
            Ok(status) => match worker.boundary->Some_0.publish_failure(
                worker.ingress,
                bridge,
                status.observation,
                worker.bytes@.take(3 * worker.boundary->Some_0.frames as int),
            ) {
                Some(error) => worker.unpublished_stage(bridge, Ok(snapshot)) == Some(
                    CaptureStage::Finished(CaptureWorkerTerminal::Bridge(error)),
                ),
                None => worker.unpublished_stage(bridge, Ok(snapshot)) is None,
            },
        },
{
}

/// A read that completes in a primed attempt has the worker park and forget an
/// earlier resume request; in every other state its signals stay. A stop request is
/// never lost.
pub proof fn law_primed_reads_park_the_worker(signals: WorkerSignals, state: BridgeState)
    ensures
        read_signals(signals, state).stop == signals.stop,
        state == BridgeState::Primed ==> {
            &&& !read_signals(signals, state).resume_requested
            &&& read_signals(signals, state).phase == WorkerPhase::PrimedParked
        },
        state != BridgeState::Primed ==> read_signals(signals, state) == signals,
{
}

} // verus!
