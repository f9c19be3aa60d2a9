//! The playback worker and its period submissions.

use crate::audio_host::clock_bridge::attempt::{SharedAttempt, SharedBridge};
use crate::audio_host::clock_bridge::capture::{offer, offered};
use crate::audio_host::clock_bridge::errors::{BridgeError, BridgeState, PlaybackWriteError};
use crate::audio_host::clock_bridge::observation::{
    ClockAttemptEpoch, CopySlot, PlaybackClockObservation,
};
use crate::audio_host::clock_bridge::playback::{
    PlaybackBoundaryDelivery, PlaybackProcessReport, PlaybackSubmissionProgress,
};
use crate::audio_host::pcm::{PcmDirection, PhysicalPcmParameters};
use crate::audio_host::worker::status::{
    playback_status, validate_playback_status, PcmStatusError, PcmStatusSnapshot,
    ValidatedPlaybackStatus,
};
use crate::audio_host::worker::{
    count_failure, failure_end, leave_park, park_signals, park_step, retry_after_wait,
    retry_wait_step, validate_worker_geometry, worker_geometry, ParkStep, PcmIoError, PcmWait,
    RetryEnd, RetryStep, TransientBudget, TransientKind, WorkerIoPolicy, WorkerPhase,
    WorkerSignals, WorkerStartError,
};
use vstd::prelude::*;

verus! {

/// One finished playback boundary and the device status it started from.
#[derive(Clone, Copy, Debug, Eq, PartialEq, Structural)]
pub struct PlaybackWorkerBoundary {
    pub report: PlaybackProcessReport,
    pub available_frames: u64,
    pub queued_frames: u64,
    pub delay_frames: i64,
    pub pcm_started: bool,
}

/// Why a playback worker ended.
#[derive(Clone, Copy, Debug, Eq, PartialEq, Structural)]
pub enum PlaybackWorkerTerminal {
    Stopped,
    Observe(PlaybackWriteError),
    PcmStart(PlaybackWriteError),
    Status(PcmStatusError),
    Bridge(BridgeError),
}

/// The submission failure that a failed PCM operation means.
pub open spec fn write_error(error: PcmIoError, accepted_frames: usize) -> PlaybackWriteError {
    match error {
        PcmIoError::Again => PlaybackWriteError::AgainRetryLimit { accepted_frames },
        PcmIoError::Interrupted => PlaybackWriteError::InterruptedRetryLimit { accepted_frames },
        PcmIoError::Xrun => PlaybackWriteError::Xrun { accepted_frames },
        PcmIoError::Suspended => PlaybackWriteError::Suspended { accepted_frames },
        PcmIoError::Disconnected => PlaybackWriteError::Disconnected { accepted_frames },
        PcmIoError::Failed { errno } => PlaybackWriteError::Failed { accepted_frames, errno },
    }
}

/// Translates a failed PCM operation.
pub fn playback_error(error: PcmIoError, accepted_frames: usize) -> (failure: PlaybackWriteError)
    ensures
        failure == write_error(error, accepted_frames),
{
    match error {
        PcmIoError::Again => PlaybackWriteError::AgainRetryLimit { accepted_frames },
        PcmIoError::Interrupted => PlaybackWriteError::InterruptedRetryLimit { accepted_frames },
        PcmIoError::Xrun => PlaybackWriteError::Xrun { accepted_frames },
        PcmIoError::Suspended => PlaybackWriteError::Suspended { accepted_frames },
        PcmIoError::Disconnected => PlaybackWriteError::Disconnected { accepted_frames },
        PcmIoError::Failed { errno } => PlaybackWriteError::Failed { accepted_frames, errno },
    }
}

/// The submission failure that an unsuccessful retried operation means.
pub open spec fn end_error(end: RetryEnd, accepted_frames: usize) -> PlaybackWriteError {
    match end {
        RetryEnd::Stopped => PlaybackWriteError::Stopped { accepted_frames },
        RetryEnd::Exhausted(TransientKind::Again) => PlaybackWriteError::AgainRetryLimit {
            accepted_frames,
        },
        RetryEnd::Exhausted(TransientKind::Interrupted) =>
            PlaybackWriteError::InterruptedRetryLimit { accepted_frames },
        RetryEnd::Failed(error) => write_error(error, accepted_frames),
    }
}

/// Translates an unsuccessful retried operation.
pub fn error_from_retry(end: RetryEnd, accepted_frames: usize) -> (failure: PlaybackWriteError)
    ensures
        failure == end_error(end, accepted_frames),
{
    match end {
        RetryEnd::Stopped => PlaybackWriteError::Stopped { accepted_frames },
        RetryEnd::Exhausted(TransientKind::Again) => PlaybackWriteError::AgainRetryLimit {
            accepted_frames,
        },
        RetryEnd::Exhausted(TransientKind::Interrupted) =>
            PlaybackWriteError::InterruptedRetryLimit { accepted_frames },
        RetryEnd::Failed(error) => playback_error(error, accepted_frames),
    }
}

/// What the submission of one period does next.
#[derive(Clone, Copy, Debug, Eq, PartialEq)]
pub enum SubmissionAction {
    /// Wait for the device, then call [`PeriodSubmission::on_wait`].
    Wait,
    /// Write the bytes from the offset on, then call
    /// [`PeriodSubmission::on_write`].
    Write { byte_offset: usize },
    /// The submission is over.
    Done(Result<PlaybackSubmissionProgress, PlaybackWriteError>),
}

/// The submission of one packed period.
#[derive(Clone, Copy, Debug, Eq, PartialEq, Structural)]
pub struct PeriodSubmission {
    pub complete_frames: usize,
    pub accepted_frames: usize,
    pub retry: TransientBudget,
}

impl PeriodSubmission {
    /// The device never accepted more than the period, whose bytes fit the
    /// machine.
    pub open spec fn wf(self) -> bool {
        &&& self.accepted_frames <= self.complete_frames
        &&& 6 * self.complete_frames <= usize::MAX
    }

    /// What the head of the submission cycle does.
    pub open spec fn head(self, stopped: bool) -> SubmissionAction {
        if self.accepted_frames == self.complete_frames {
            SubmissionAction::Done(
                Ok(PlaybackSubmissionProgress { frames_submitted: self.accepted_frames }),
            )
        } else if stopped {
            SubmissionAction::Done(
                Err(PlaybackWriteError::Stopped { accepted_frames: self.accepted_frames }),
            )
        } else {
            SubmissionAction::Wait
        }
    }

    fn cycle_head(&self, stopped: bool) -> (action: SubmissionAction)
        requires
            self.wf(),
        ensures
            action == self.head(stopped),
    {
        if self.accepted_frames >= self.complete_frames {
            return SubmissionAction::Done(
                Ok(PlaybackSubmissionProgress { frames_submitted: self.accepted_frames }),
            );
        }
        if stopped {
            return SubmissionAction::Done(
                Err(PlaybackWriteError::Stopped { accepted_frames: self.accepted_frames }),
            );
        }
        SubmissionAction::Wait
    }

    /// Begins the submission of a period of `complete_frame_count` frames that is
    /// `byte_count` bytes long.
    pub fn begin(
        policy: WorkerIoPolicy,
        complete_frame_count: usize,
        byte_count: usize,
        stopped: bool,
    ) -> (result: Result<(Self, SubmissionAction), PlaybackWriteError>)
        ensures
            if byte_count == 6 * complete_frame_count {
                let submission = PeriodSubmission {
                    complete_frames: complete_frame_count,
                    accepted_frames: 0,
                    retry: TransientBudget { attempts: 0, limit: policy.transient_retry_limit },
                };
                &&& result == Ok::<(Self, SubmissionAction), PlaybackWriteError>(
                    (submission, submission.head(stopped)),
                )
                &&& submission.wf()
            } else {
                result == Err::<(Self, SubmissionAction), PlaybackWriteError>(
                    PlaybackWriteError::InvalidProgress { accepted_frames: 0 },
                )
            },
    {
        let expected_bytes: usize = match complete_frame_count.checked_mul(6) {
            Some(bytes) => bytes,
            None => {
                return Err(PlaybackWriteError::InvalidProgress { accepted_frames: 0 });
            },
        };
        if byte_count != expected_bytes {
            return Err(PlaybackWriteError::InvalidProgress { accepted_frames: 0 });
        }
        let submission = PeriodSubmission {
            complete_frames: complete_frame_count,
            accepted_frames: 0,
            retry: TransientBudget::new(policy.transient_retry_limit()),
        };
        let action = submission.cycle_head(stopped);
        Ok((submission, action))
    }

    /// What a wait leads to, and what it leaves of the submission.
    pub open spec fn waited(self, waited: Result<PcmWait, PcmIoError>, stopped: bool) -> (
        SubmissionAction,
        Self,
    ) {
        match waited {
            Ok(PcmWait::TimedOut) => (self.head(stopped), self),
            Ok(PcmWait::Ready) => (
                if stopped {
                    SubmissionAction::Done(
                        Err(PlaybackWriteError::Stopped { accepted_frames: self.accepted_frames }),
                    )
                } else {
                    SubmissionAction::Write { byte_offset: (6 * self.accepted_frames) as usize }
                },
                self,
            ),
            Err(error) => {
                let (end, retry) = failure_end(self.retry, error);
                let next = PeriodSubmission { retry, ..self };
                match end {
                    Some(end) => (
                        SubmissionAction::Done(Err(end_error(end, self.accepted_frames))),
                        next,
                    ),
                    None => (next.head(stopped), next),
                }
            },
        }
    }

    /// Takes the outcome of waiting for the device.
    pub fn on_wait(&mut self, waited: Result<PcmWait, PcmIoError>, stopped: bool) -> (action:
        SubmissionAction)
        requires
            old(self).wf(),
        ensures
            final(self).wf(),
            action == old(self).waited(waited, stopped).0,
            *final(self) == old(self).waited(waited, stopped).1,
    {
        match waited {
            Ok(PcmWait::TimedOut) => self.cycle_head(stopped),
            Ok(PcmWait::Ready) => {
                if stopped {
                    return SubmissionAction::Done(
                        Err(PlaybackWriteError::Stopped { accepted_frames: self.accepted_frames }),
                    );
                }
                SubmissionAction::Write { byte_offset: 6 * self.accepted_frames }
            },
            Err(error) => match count_failure(&mut self.retry, error) {
                Some(end) => SubmissionAction::Done(
                    Err(error_from_retry(end, self.accepted_frames)),
                ),
                None => self.cycle_head(stopped),
            },
        }
    }

    /// What a write leads to, and what it leaves of the submission.
    pub open spec fn wrote(self, written: Result<usize, PcmIoError>, stopped: bool) -> (
        SubmissionAction,
        Self,
    ) {
        match written {
            Ok(frames) => if 0 < frames <= self.complete_frames - self.accepted_frames {
                let next = PeriodSubmission {
                    accepted_frames: (self.accepted_frames + frames) as usize,
                    retry: TransientBudget { attempts: 0, ..self.retry },
                    ..self
                };
                (next.head(stopped), next)
            } else {
                (
                    SubmissionAction::Done(
                        Err(
                            PlaybackWriteError::InvalidProgress {
                                accepted_frames: self.accepted_frames,
                            },
                        ),
                    ),
                    self,
                )
            },
            Err(error) => {
                let (end, retry) = failure_end(self.retry, error);
                let next = PeriodSubmission { retry, ..self };
                match end {
                    Some(end) => (
                        SubmissionAction::Done(Err(end_error(end, self.accepted_frames))),
                        next,
                    ),
                    None => (next.head(stopped), next),
                }
            },
        }
    }

    /// Takes the outcome of writing the rest of the period.
    pub fn on_write(&mut self, written: Result<usize, PcmIoError>, stopped: bool) -> (action:
        SubmissionAction)
        requires
            old(self).wf(),
        ensures
            final(self).wf(),
            action == old(self).wrote(written, stopped).0,
            *final(self) == old(self).wrote(written, stopped).1,
    {
        match written {
            Ok(frames) => {
                if frames == 0 || frames > self.complete_frames - self.accepted_frames {
                    return SubmissionAction::Done(
                        Err(
                            PlaybackWriteError::InvalidProgress {
                                accepted_frames: self.accepted_frames,
                            },
                        ),
                    );
                }
                self.accepted_frames = self.accepted_frames + frames;
                self.retry.reset();
                self.cycle_head(stopped)
            },
            Err(error) => match count_failure(&mut self.retry, error) {
                Some(end) => SubmissionAction::Done(
                    Err(error_from_retry(end, self.accepted_frames)),
                ),
                None => self.cycle_head(stopped),
            },
        }
    }
}

/// A submission succeeds only with the whole period, a failed one reports
/// exactly what the device had accepted, and each write starts right behind it.
pub proof fn law_submission_progress_is_exact(
    submission: PeriodSubmission,
    waited: Result<PcmWait, PcmIoError>,
    written: Result<usize, PcmIoError>,
    stopped: bool,
)
    requires
        submission.wf(),
    ensures
        match submission.wrote(written, stopped) {
            (SubmissionAction::Done(Ok(progress)), next) => progress.frames_submitted
                == submission.complete_frames && next.accepted_frames
                == submission.complete_frames,
            (SubmissionAction::Done(Err(error)), next) => error.accepted() == next.accepted_frames,
            (_, next) => next.accepted_frames < submission.complete_frames,
        },
        match submission.waited(waited, stopped) {
            (SubmissionAction::Done(Err(error)), next) => error.accepted()
                == submission.accepted_frames,
            (SubmissionAction::Write { byte_offset }, next) => byte_offset == 6
                * submission.accepted_frames && next == submission,
            _ => true,
        },
        submission.accepted_frames <= submission.wrote(written, stopped).1.accepted_frames
            <= submission.complete_frames,
{
}

/// What a playback worker does next.
#[derive(Clone, Copy, Debug, Eq, PartialEq, Structural)]
pub enum PlaybackAction {
    /// Read the PCM status, then call [`PlaybackLoop::on_status`].
    ReadStatus,
    /// Wait for the PCM device, then call [`PlaybackLoop::on_wait`].
    Wait,
    /// Run one boundary with the sample, then call [`PlaybackLoop::on_processed`].
    Process(PlaybackClockObservation),
    /// Start the PCM device, then call [`PlaybackLoop::on_start`].
    StartPcm,
    /// Park the thread, then call [`PlaybackLoop::on_unpark`].
    Park,
    /// Leave the thread.
    Finish(PlaybackWorkerTerminal),
}

/// What a playback worker is waiting for.
#[derive(Clone, Copy, Debug, Eq, PartialEq, Structural)]
pub enum PlaybackStage {
    AwaitStatus,
    StatusWaiting,
    Processing(ValidatedPlaybackStatus),
    Starting(PlaybackWorkerBoundary),
    StartWaiting(PlaybackWorkerBoundary),
    Parked,
    Finished(PlaybackWorkerTerminal),
}

impl PlaybackStage {
    /// The operation whose outcome this stage waits for.
    pub open spec fn awaits(self) -> PlaybackAction {
        match self {
            PlaybackStage::AwaitStatus => PlaybackAction::ReadStatus,
            PlaybackStage::StatusWaiting => PlaybackAction::Wait,
            PlaybackStage::Processing(status) => PlaybackAction::Process(status.observation),
            PlaybackStage::Starting(_) => PlaybackAction::StartPcm,
            PlaybackStage::StartWaiting(_) => PlaybackAction::Wait,
            PlaybackStage::Parked => PlaybackAction::Park,
            PlaybackStage::Finished(terminal) => PlaybackAction::Finish(terminal),
        }
    }

    /// Names the operation whose outcome this stage waits for.
    pub fn action(self) -> (action: PlaybackAction)
        ensures
            action == self.awaits(),
    {
        match self {
            PlaybackStage::AwaitStatus => PlaybackAction::ReadStatus,
            PlaybackStage::StatusWaiting => PlaybackAction::Wait,
            PlaybackStage::Processing(status) => PlaybackAction::Process(status.observation),
            PlaybackStage::Starting(_) => PlaybackAction::StartPcm,
            PlaybackStage::StartWaiting(_) => PlaybackAction::Wait,
            PlaybackStage::Parked => PlaybackAction::Park,
            PlaybackStage::Finished(terminal) => PlaybackAction::Finish(terminal),
        }
    }
}

/// Where the head of the playback cycle leads.
pub open spec fn playback_head(stopped: bool, state: BridgeState) -> PlaybackStage {
    if stopped {
        PlaybackStage::Finished(PlaybackWorkerTerminal::Stopped)
    } else {
        match state {
            BridgeState::Primed => PlaybackStage::Parked,
            BridgeState::Quiescing => PlaybackStage::Finished(PlaybackWorkerTerminal::Stopped),
            BridgeState::Stopped => PlaybackStage::Finished(PlaybackWorkerTerminal::Stopped),
            _ => PlaybackStage::AwaitStatus,
        }
    }
}

fn cycle_head(stopped: bool, state: BridgeState) -> (stage: PlaybackStage)
    ensures
        stage == playback_head(stopped, state),
{
    if stopped {
        return PlaybackStage::Finished(PlaybackWorkerTerminal::Stopped);
    }
    match state {
        BridgeState::Primed => PlaybackStage::Parked,
        BridgeState::Quiescing => PlaybackStage::Finished(PlaybackWorkerTerminal::Stopped),
        BridgeState::Stopped => PlaybackStage::Finished(PlaybackWorkerTerminal::Stopped),
        _ => PlaybackStage::AwaitStatus,
    }
}

/// The terminal of an unsuccessful status or start operation.
pub open spec fn operation_terminal(end: RetryEnd, starting: bool) -> PlaybackWorkerTerminal {
    if end == RetryEnd::Stopped {
        PlaybackWorkerTerminal::Stopped
    } else if starting {
        PlaybackWorkerTerminal::PcmStart(end_error(end, 0))
    } else {
        PlaybackWorkerTerminal::Observe(end_error(end, 0))
    }
}

fn terminal_from_retry(end: RetryEnd, starting: bool) -> (terminal: PlaybackWorkerTerminal)
    ensures
        terminal == operation_terminal(end, starting),
{
    if end == RetryEnd::Stopped {
        PlaybackWorkerTerminal::Stopped
    } else if starting {
        PlaybackWorkerTerminal::PcmStart(error_from_retry(end, 0))
    } else {
        PlaybackWorkerTerminal::Observe(error_from_retry(end, 0))
    }
}

/// The terminal of a failed boundary.
pub open spec fn boundary_terminal(error: BridgeError) -> PlaybackWorkerTerminal {
    if error == BridgeError::Teardown || error == BridgeError::Playback(
        PlaybackWriteError::Stopped { accepted_frames: 0 },
    ) {
        PlaybackWorkerTerminal::Stopped
    } else {
        PlaybackWorkerTerminal::Bridge(error)
    }
}

/// The attempt after a worker moved to `stage`: leaving for any reason but a
/// stop ends the attempt.
pub open spec fn settled_attempt(attempt: SharedAttempt, stage: PlaybackStage) -> SharedAttempt {
    match stage {
        PlaybackStage::Finished(terminal) => if terminal == PlaybackWorkerTerminal::Stopped {
            attempt
        } else {
            attempt.faulted()
        },
        _ => attempt,
    }
}

/// The signals after a worker moved to `stage`.
pub open spec fn settled_signals(signals: WorkerSignals, stage: PlaybackStage) -> WorkerSignals {
    match stage {
        PlaybackStage::Finished(_) => WorkerSignals { phase: WorkerPhase::Terminal, ..signals },
        PlaybackStage::Parked => signals.parked(),
        _ => signals,
    }
}

/// Whether the monitor mix is queued far enough in `state` for a playback thread.
pub open spec fn monitor_mix_queued_in(state: BridgeState) -> bool {
    state == BridgeState::PlaybackFilterDelay || state == BridgeState::PlaybackEstimatorPriming
        || state == BridgeState::PlaybackStabilizing || state == BridgeState::Primed || state
        == BridgeState::Active
}

/// Tells whether the monitor mix is queued far enough for a playback thread.
pub fn monitor_mix_queued(state: BridgeState) -> (queued: bool)
    ensures
        queued == monitor_mix_queued_in(state),
{
    match state {
        BridgeState::PlaybackFilterDelay => true,
        BridgeState::PlaybackEstimatorPriming => true,
        BridgeState::PlaybackStabilizing => true,
        BridgeState::Primed => true,
        BridgeState::Active => true,
        _ => false,
    }
}

/// The playback worker's cycle: sample the status, run one boundary, start the
/// device behind its first submitted period.
#[derive(Clone, Copy, Debug, Eq, PartialEq, Structural)]
pub struct PlaybackLoop {
    pub attempt_epoch: ClockAttemptEpoch,
    pub geometry: PhysicalPcmParameters,
    pub policy: WorkerIoPolicy,
    pub pcm_started: bool,
    pub retry: TransientBudget,
    pub stage: PlaybackStage,
}

impl PlaybackLoop {
    /// A budget with no failure counted yet.
    pub open spec fn fresh_retry(self) -> TransientBudget {
        TransientBudget { attempts: 0, limit: self.policy.transient_retry_limit }
    }

    /// Prepares a parked worker for one playback device.
    pub fn new(
        attempt_epoch: ClockAttemptEpoch,
        geometry: PhysicalPcmParameters,
        policy: WorkerIoPolicy,
    ) -> (result: Result<Self, WorkerStartError>)
        ensures
            result == if worker_geometry(geometry, PcmDirection::Playback) {
                Ok::<Self, WorkerStartError>(
                    (PlaybackLoop {
                        attempt_epoch,
                        geometry,
                        policy,
                        pcm_started: false,
                        retry: TransientBudget { attempts: 0, limit: policy.transient_retry_limit },
                        stage: PlaybackStage::AwaitStatus,
                    }),
                )
            } else {
                Err::<Self, WorkerStartError>(WorkerStartError::InvalidGeometry)
            },
    {
        validate_worker_geometry(geometry, PcmDirection::Playback)?;
        Ok(
            PlaybackLoop {
                attempt_epoch,
                geometry,
                policy,
                pcm_started: false,
                retry: TransientBudget::new(policy.transient_retry_limit()),
                stage: PlaybackStage::AwaitStatus,
            },
        )
    }

    fn go(
        &mut self,
        bridge: &mut SharedBridge,
        signals: &mut WorkerSignals,
        stage: PlaybackStage,
    ) -> (action: PlaybackAction)
        ensures
            action == stage.awaits(),
            *final(self) == (PlaybackLoop { stage, ..*old(self) }),
            final(bridge).same_handover(*old(bridge)),
            final(bridge).attempt == settled_attempt(old(bridge).attempt, stage),
            *final(signals) == settled_signals(*old(signals), stage),
    {
        match stage {
            PlaybackStage::Finished(terminal) => {
                signals.set_phase(WorkerPhase::Terminal);
                if terminal != PlaybackWorkerTerminal::Stopped {
                    bridge.attempt.fault();
                }
            },
            PlaybackStage::Parked => {
                signals.begin_primed_park();
            },
            _ => {},
        }
        self.stage = stage;
        stage.action()
    }

    /// Begins the worker on its own thread.
    pub fn begin(&mut self, bridge: &mut SharedBridge, signals: &mut WorkerSignals) -> (action:
        PlaybackAction)
        ensures
            ({
                let stage = playback_head(old(signals).stop, old(bridge).attempt.state);
                &&& action == stage.awaits()
                &&& *final(self) == (PlaybackLoop {
                    stage,
                    retry: old(self).fresh_retry(),
                    ..*old(self)
                })
                &&& *final(bridge) == *old(bridge)
                &&& *final(signals) == settled_signals(
                    WorkerSignals { phase: WorkerPhase::Running, ..*old(signals) },
                    stage,
                )
            }),
    {
        signals.set_phase(WorkerPhase::Running);
        self.retry = TransientBudget::new(self.policy.transient_retry_limit());
        let stage = cycle_head(signals.stopped(), bridge.attempt.state());
        self.go(bridge, signals, stage)
    }

    /// Where waking up from a park leads.
    pub open spec fn unpark_stage(signals: WorkerSignals, state: BridgeState) -> PlaybackStage {
        match park_step(signals, state) {
            ParkStep::Stop => PlaybackStage::Finished(PlaybackWorkerTerminal::Stopped),
            ParkStep::Resume => PlaybackStage::AwaitStatus,
            ParkStep::ParkAgain => PlaybackStage::Parked,
        }
    }

    /// Takes the end of a park.
    pub fn on_unpark(&mut self, bridge: &mut SharedBridge, signals: &mut WorkerSignals) -> (action:
        PlaybackAction)
        requires
            old(self).stage == PlaybackStage::Parked,
        ensures
            ({
                let state = old(bridge).attempt.state;
                let stage = Self::unpark_stage(*old(signals), state);
                &&& action == stage.awaits()
                &&& *final(self) == (PlaybackLoop { stage, ..*old(self) })
                &&& *final(bridge) == *old(bridge)
                &&& *final(signals) == (if stage == PlaybackStage::Parked {
                    park_signals(*old(signals), state)
                } else {
                    settled_signals(park_signals(*old(signals), state), stage)
                })
            }),
    {
        match leave_park(signals, bridge.attempt.state()) {
            ParkStep::Stop => self.go(
                bridge,
                signals,
                PlaybackStage::Finished(PlaybackWorkerTerminal::Stopped),
            ),
            ParkStep::Resume => self.go(bridge, signals, PlaybackStage::AwaitStatus),
            ParkStep::ParkAgain => PlaybackAction::Park,
        }
    }

    /// Where the outcome of reading the status leads.
    pub open spec fn status_stage(
        self,
        application_frames: u64,
        status: Result<PcmStatusSnapshot, PcmIoError>,
    ) -> PlaybackStage {
        match status {
            Ok(snapshot) => match playback_status(
                self.attempt_epoch,
                application_frames,
                self.geometry,
                self.pcm_started,
                snapshot,
            ) {
                Ok(checked) => PlaybackStage::Processing(checked),
                Err(error) => PlaybackStage::Finished(PlaybackWorkerTerminal::Status(error)),
            },
            Err(error) => match failure_end(self.retry, error).0 {
                Some(end) => PlaybackStage::Finished(operation_terminal(end, false)),
                None => PlaybackStage::StatusWaiting,
            },
        }
    }

    /// Takes the outcome of reading the PCM status; `application_frames` is the
    /// application position at that time.
    pub fn on_status(
        &mut self,
        bridge: &mut SharedBridge,
        signals: &mut WorkerSignals,
        application_frames: u64,
        status: Result<PcmStatusSnapshot, PcmIoError>,
    ) -> (action: PlaybackAction)
        requires
            old(self).stage == PlaybackStage::AwaitStatus,
        ensures
            ({
                let stage = old(self).status_stage(application_frames, status);
                &&& action == stage.awaits()
                &&& *final(self) == (PlaybackLoop {
                    stage,
                    retry: match status {
                        Ok(_) => old(self).retry,
                        Err(error) => failure_end(old(self).retry, error).1,
                    },
                    ..*old(self)
                })
                &&& final(bridge).same_handover(*old(bridge))
                &&& final(bridge).attempt == settled_attempt(old(bridge).attempt, stage)
                &&& *final(signals) == settled_signals(*old(signals), stage)
            }),
    {
        let stage = match status {
            Ok(snapshot) => match validate_playback_status(
                self.attempt_epoch,
                application_frames,
                self.geometry,
                self.pcm_started,
                snapshot,
            ) {
                Ok(checked) => PlaybackStage::Processing(checked),
                Err(error) => PlaybackStage::Finished(PlaybackWorkerTerminal::Status(error)),
            },
            Err(error) => match count_failure(&mut self.retry, error) {
                Some(end) => PlaybackStage::Finished(terminal_from_retry(end, false)),
                None => PlaybackStage::StatusWaiting,
            },
        };
        self.go(bridge, signals, stage)
    }

    /// Where a wait leads.
    pub open spec fn wait_stage(self, waited: Result<PcmWait, PcmIoError>, stopped: bool)
        -> PlaybackStage {
        match (self.stage, retry_wait_step(self.retry, waited, stopped).0) {
            (PlaybackStage::StartWaiting(_), RetryStep::End(end)) => PlaybackStage::Finished(
                operation_terminal(end, true),
            ),
            (PlaybackStage::StartWaiting(boundary), _) => PlaybackStage::Starting(boundary),
            (_, RetryStep::End(end)) => PlaybackStage::Finished(operation_terminal(end, false)),
            (_, _) => PlaybackStage::AwaitStatus,
        }
    }

    /// Takes the outcome of waiting for the device.
    pub fn on_wait(
        &mut self,
        bridge: &mut SharedBridge,
        signals: &mut WorkerSignals,
        waited: Result<PcmWait, PcmIoError>,
    ) -> (action: PlaybackAction)
        requires
            old(self).stage.awaits() == PlaybackAction::Wait,
        ensures
            ({
                let stage = old(self).wait_stage(waited, old(signals).stop);
                &&& action == stage.awaits()
                &&& *final(self) == (PlaybackLoop {
                    stage,
                    retry: retry_wait_step(old(self).retry, waited, old(signals).stop).1,
                    ..*old(self)
                })
                &&& final(bridge).same_handover(*old(bridge))
                &&& final(bridge).attempt == settled_attempt(old(bridge).attempt, stage)
                &&& *final(signals) == settled_signals(*old(signals), stage)
            }),
    {
        let step = retry_after_wait(&mut self.retry, waited, signals.stopped());
        let stage = match self.stage {
            PlaybackStage::StartWaiting(boundary) => match step {
                RetryStep::End(end) => PlaybackStage::Finished(terminal_from_retry(end, true)),
                _ => PlaybackStage::Starting(boundary),
            },
            _ => match step {
                RetryStep::End(end) => PlaybackStage::Finished(terminal_from_retry(end, false)),
                _ => PlaybackStage::AwaitStatus,
            },
        };
        self.go(bridge, signals, stage)
    }

    /// The boundary record of one processed period.
    pub open spec fn boundary(
        status: ValidatedPlaybackStatus,
        report: PlaybackProcessReport,
        pcm_started: bool,
    ) -> PlaybackWorkerBoundary {
        PlaybackWorkerBoundary {
            report,
            available_frames: status.available_frames,
            queued_frames: status.queued_frames,
            delay_frames: status.delay_frames,
            pcm_started,
        }
    }

    /// Whether a processed period calls for starting the device.
    pub open spec fn starts_pcm(self, report: PlaybackProcessReport) -> bool {
        report.delivery != PlaybackBoundaryDelivery::DiscardedFilterDelay && !self.pcm_started
    }

    /// Where a processed boundary leads.
    pub open spec fn processed_stage(
        self,
        processed: Result<PlaybackProcessReport, BridgeError>,
        stopped: bool,
        state: BridgeState,
    ) -> PlaybackStage {
        match processed {
            Err(error) => PlaybackStage::Finished(boundary_terminal(error)),
            Ok(report) => if self.starts_pcm(report) {
                if stopped {
                    PlaybackStage::Finished(PlaybackWorkerTerminal::Stopped)
                } else {
                    PlaybackStage::Starting(
                        Self::boundary(self.stage->Processing_0, report, true),
                    )
                }
            } else {
                playback_head(stopped, state)
            },
        }
    }

    /// Takes the outcome of running one boundary, and offers the boundary to the
    /// worker's owner unless the device has to be started first.
    pub fn on_processed(
        &mut self,
        bridge: &mut SharedBridge,
        signals: &mut WorkerSignals,
        processed: Result<PlaybackProcessReport, BridgeError>,
        boundaries: &mut CopySlot<PlaybackWorkerBoundary>,
    ) -> (action: PlaybackAction)
        requires
            old(self).stage is Processing,
        ensures
            ({
                let stage = old(self).processed_stage(
                    processed,
                    old(signals).stop,
                    old(bridge).attempt.state,
                );
                &&& action == stage.awaits()
                &&& *final(self) == (PlaybackLoop {
                    stage,
                    retry: match processed {
                        Ok(_) => old(self).fresh_retry(),
                        Err(_) => old(self).retry,
                    },
                    ..*old(self)
                })
                &&& final(bridge).same_handover(*old(bridge))
                &&& final(bridge).attempt == settled_attempt(old(bridge).attempt, stage)
                &&& *final(signals) == settled_signals(*old(signals), stage)
                &&& *final(boundaries) == (match processed {
                    Ok(report) => if old(self).starts_pcm(report) {
                        *old(boundaries)
                    } else {
                        offered(
                            *old(boundaries),
                            Self::boundary(
                                old(self).stage->Processing_0,
                                report,
                                old(self).pcm_started,
                            ),
                        )
                    },
                    Err(_) => *old(boundaries),
                })
            }),
    {
        let report = match processed {
            Ok(report) => report,
            Err(error) => {
                let terminal = match error {
                    BridgeError::Teardown => PlaybackWorkerTerminal::Stopped,
                    BridgeError::Playback(
                        PlaybackWriteError::Stopped { accepted_frames: 0 },
                    ) => PlaybackWorkerTerminal::Stopped,
                    _ => PlaybackWorkerTerminal::Bridge(error),
                };
                return self.go(bridge, signals, PlaybackStage::Finished(terminal));
            },
        };
        let status = match self.stage {
            PlaybackStage::Processing(status) => status,
            _ => {
                return self.stage.action();
            },
        };
        self.retry = TransientBudget::new(self.policy.transient_retry_limit());
        let submitted = report.delivery != PlaybackBoundaryDelivery::DiscardedFilterDelay;
        let starts = submitted && !self.pcm_started;
        let boundary = PlaybackWorkerBoundary {
            report,
            available_frames: status.available_frames,
            queued_frames: status.queued_frames,
            delay_frames: status.delay_frames,
            pcm_started: self.pcm_started || starts,
        };
        let stage = if starts {
            if signals.stopped() {
                PlaybackStage::Finished(PlaybackWorkerTerminal::Stopped)
            } else {
                PlaybackStage::Starting(boundary)
            }
        } else {
            let _ = offer(boundaries, boundary);
            cycle_head(signals.stopped(), bridge.attempt.state())
        };
        self.go(bridge, signals, stage)
    }

    /// Where an attempt to start the device leads.
    pub open spec fn start_stage(
        self,
        started: Result<(), PcmIoError>,
        stopped: bool,
        state: BridgeState,
    ) -> PlaybackStage {
        match started {
            Ok(()) => playback_head(stopped, state),
            Err(error) => match failure_end(self.retry, error).0 {
                Some(end) => PlaybackStage::Finished(operation_terminal(end, true)),
                None => PlaybackStage::StartWaiting(self.stage->Starting_0),
            },
        }
    }

    /// Takes the outcome of starting the device, and offers the boundary that
    /// was waiting for it to the worker's owner.
    pub fn on_start(
        &mut self,
        bridge: &mut SharedBridge,
        signals: &mut WorkerSignals,
        started: Result<(), PcmIoError>,
        boundaries: &mut CopySlot<PlaybackWorkerBoundary>,
    ) -> (action: PlaybackAction)
        requires
            old(self).stage is Starting,
        ensures
            ({
                let stage = old(self).start_stage(
                    started,
                    old(signals).stop,
                    old(bridge).attempt.state,
                );
                &&& action == stage.awaits()
                &&& *final(self) == (PlaybackLoop {
                    stage,
                    pcm_started: old(self).pcm_started || started is Ok,
                    retry: match started {
                        Ok(()) => old(self).fresh_retry(),
                        Err(error) => failure_end(old(self).retry, error).1,
                    },
                    ..*old(self)
                })
                &&& final(bridge).same_handover(*old(bridge))
                &&& final(bridge).attempt == settled_attempt(old(bridge).attempt, stage)
                &&& *final(signals) == settled_signals(*old(signals), stage)
                &&& *final(boundaries) == (match started {
                    Ok(()) => offered(*old(boundaries), old(self).stage->Starting_0),
                    Err(_) => *old(boundaries),
                })
            }),
    {
        let boundary = match self.stage {
            PlaybackStage::Starting(boundary) => boundary,
            _ => {
                return self.stage.action();
            },
        };
        let stage = match started {
            Ok(()) => {
                self.pcm_started = true;
                self.retry = TransientBudget::new(self.policy.transient_retry_limit());
                let _ = offer(boundaries, boundary);
                cycle_head(signals.stopped(), bridge.attempt.state())
            },
            Err(error) => match count_failure(&mut self.retry, error) {
                Some(end) => PlaybackStage::Finished(terminal_from_retry(end, true)),
                None => PlaybackStage::StartWaiting(boundary),
            },
        };
        self.go(bridge, signals, stage)
    }
}

/// The device is started at most once, and only behind a period that was handed
/// to it.
pub proof fn law_pcm_starts_behind_a_submitted_period(
    worker: PlaybackLoop,
    processed: Result<PlaybackProcessReport, BridgeError>,
    stopped: bool,
    state: BridgeState,
)
    requires
        worker.stage is Processing,
    ensures
        worker.processed_stage(processed, stopped, state) is Starting ==> !worker.pcm_started
            && processed is Ok && processed->Ok_0.delivery
            != PlaybackBoundaryDelivery::DiscardedFilterDelay,
{
}

/// Each failed PCM operation is reported as what it was, with the frames accepted
/// so far; an exhausted retry names the failure that exhausted it, and a stop is a
/// stop.
pub proof fn law_write_errors_keep_their_cause(accepted_frames: usize, errno: i32)
    ensures
        write_error(PcmIoError::Again, accepted_frames) == (PlaybackWriteError::AgainRetryLimit {
            accepted_frames,
        }),
        write_error(PcmIoError::Interrupted, accepted_frames) == (
        PlaybackWriteError::InterruptedRetryLimit { accepted_frames }),
        write_error(PcmIoError::Xrun, accepted_frames) == (PlaybackWriteError::Xrun {
            accepted_frames,
        }),
        write_error(PcmIoError::Suspended, accepted_frames) == (PlaybackWriteError::Suspended {
            accepted_frames,
        }),
        write_error(PcmIoError::Disconnected, accepted_frames) == (
        PlaybackWriteError::Disconnected { accepted_frames }),
        write_error((PcmIoError::Failed { errno }), accepted_frames) == (
        PlaybackWriteError::Failed { accepted_frames, errno }),
        end_error(RetryEnd::Stopped, accepted_frames) == (PlaybackWriteError::Stopped {
            accepted_frames,
        }),
        end_error(RetryEnd::Exhausted(TransientKind::Again), accepted_frames) == (
        PlaybackWriteError::AgainRetryLimit { accepted_frames }),
        end_error(RetryEnd::Exhausted(TransientKind::Interrupted), accepted_frames) == (
        PlaybackWriteError::InterruptedRetryLimit { accepted_frames }),
        end_error(RetryEnd::Failed(PcmIoError::Xrun), accepted_frames) == (
        PlaybackWriteError::Xrun { accepted_frames }),
        end_error(RetryEnd::Failed(PcmIoError::Suspended), accepted_frames) == (
        PlaybackWriteError::Suspended { accepted_frames }),
        end_error(RetryEnd::Failed(PcmIoError::Disconnected), accepted_frames) == (
        PlaybackWriteError::Disconnected { accepted_frames }),
        end_error(RetryEnd::Failed((PcmIoError::Failed { errno })), accepted_frames) == (
        PlaybackWriteError::Failed { accepted_frames, errno }),
{
}

/// A write adds exactly the frames that the device took and forgives the failures
/// before it; taking none or more than were left ends the submission. The period
/// is over when nothing is left, else a stop ends it, else the device is waited
/// for.
pub proof fn law_writes_add_up(submission: PeriodSubmission, frames: usize, stopped: bool)
    requires
        submission.wf(),
    ensures
        ({
            let (action, next) = submission.wrote(Ok(frames), stopped);
            let left = submission.complete_frames - submission.accepted_frames;
            &&& next.complete_frames == submission.complete_frames
            &&& next.retry.limit == submission.retry.limit
            &&& 0 < frames <= left ==> {
                &&& next.accepted_frames == submission.accepted_frames + frames
                &&& next.retry.attempts == 0
                &&& frames == left ==> action == SubmissionAction::Done(
                    Ok::<PlaybackSubmissionProgress, PlaybackWriteError>(
                        PlaybackSubmissionProgress { frames_submitted: submission.complete_frames },
                    ),
                )
                &&& frames < left && stopped ==> action == SubmissionAction::Done(
                    Err::<PlaybackSubmissionProgress, PlaybackWriteError>(
                        PlaybackWriteError::Stopped { accepted_frames: next.accepted_frames },
                    ),
                )
                &&& frames < left && !stopped ==> action == SubmissionAction::Wait
            }
            &&& (frames == 0 || frames > left) ==> {
                &&& next == submission
                &&& action == SubmissionAction::Done(
                    Err::<PlaybackSubmissionProgress, PlaybackWriteError>(
                        PlaybackWriteError::InvalidProgress {
                            accepted_frames: submission.accepted_frames,
                        },
                    ),
                )
            }
        }),
{
}

/// A device that is ready is written to right behind what it has accepted, unless
/// a stop was requested; one that is not ready is waited for again.
pub proof fn law_ready_devices_are_written_to(submission: PeriodSubmission, stopped: bool)
    requires
        submission.wf(),
        submission.accepted_frames < submission.complete_frames,
    ensures
        submission.waited(Ok(PcmWait::Ready), false) == (
            SubmissionAction::Write { byte_offset: (6 * submission.accepted_frames) as usize },
            submission,
        ),
        submission.waited(Ok(PcmWait::TimedOut), false) == (SubmissionAction::Wait, submission),
        stopped ==> submission.waited(Ok(PcmWait::Ready), stopped) == (
            SubmissionAction::Done(
                Err::<PlaybackSubmissionProgress, PlaybackWriteError>(
                    PlaybackWriteError::Stopped { accepted_frames: submission.accepted_frames },
                ),
            ),
            submission,
        ),
        stopped ==> submission.waited(Ok(PcmWait::TimedOut), stopped)
            == submission.waited(Ok(PcmWait::Ready), stopped),
{
}

/// The cycle leads to a status read, except that a stop or a teardown ends it and
/// a primed attempt parks it.
pub proof fn law_playback_cycle_reads_the_status_first(stopped: bool, state: BridgeState)
    ensures
        playback_head(stopped, state) == PlaybackStage::Finished(PlaybackWorkerTerminal::Stopped)
            <==> (stopped || state == BridgeState::Quiescing || state == BridgeState::Stopped),
        playback_head(stopped, state) == PlaybackStage::Parked <==> !stopped && state
            == BridgeState::Primed,
        playback_head(stopped, state) == PlaybackStage::AwaitStatus <==> !stopped && state
            != BridgeState::Primed && state != BridgeState::Quiescing && state
            != BridgeState::Stopped,
{
}

/// Each stage asks for the one operation whose outcome it waits for, and a
/// boundary is run with the sample of the status that was checked.
pub proof fn law_playback_stages_ask_for_their_operation(
    status: ValidatedPlaybackStatus,
    boundary: PlaybackWorkerBoundary,
    terminal: PlaybackWorkerTerminal,
)
    ensures
        PlaybackStage::AwaitStatus.awaits() == PlaybackAction::ReadStatus,
        PlaybackStage::StatusWaiting.awaits() == PlaybackAction::Wait,
        PlaybackStage::Processing(status).awaits() == PlaybackAction::Process(status.observation),
        PlaybackStage::Starting(boundary).awaits() == PlaybackAction::StartPcm,
        PlaybackStage::StartWaiting(boundary).awaits() == PlaybackAction::Wait,
        PlaybackStage::Parked.awaits() == PlaybackAction::Park,
        PlaybackStage::Finished(terminal).awaits() == PlaybackAction::Finish(terminal),
{
}

/// Leaving for any reason but a stop ends the attempt, and only leaving or parking
/// changes what the worker tells its owner.
pub proof fn law_playback_failures_end_the_attempt(
    attempt: SharedAttempt,
    signals: WorkerSignals,
    stage: PlaybackStage,
)
    ensures
        match stage {
            PlaybackStage::Finished(PlaybackWorkerTerminal::Stopped) => settled_attempt(
                attempt,
                stage,
            ) == attempt,
            PlaybackStage::Finished(_) => {
                &&& attempt.state != BridgeState::Quiescing && attempt.state
                    != BridgeState::Stopped ==> settled_attempt(attempt, stage).state
                    == BridgeState::Faulted
            },
            _ => settled_attempt(attempt, stage) == attempt,
        },
        match stage {
            PlaybackStage::Finished(_) => settled_signals(signals, stage).phase
                == WorkerPhase::Terminal && settled_signals(signals, stage).resume_requested
                == signals.resume_requested,
            PlaybackStage::Parked => settled_signals(signals, stage).phase
                == WorkerPhase::PrimedParked && !settled_signals(signals, stage).resume_requested,
            _ => settled_signals(signals, stage) == signals,
        },
        settled_signals(signals, stage).stop == signals.stop,
        settled_signals(signals, stage).attempt_epoch == signals.attempt_epoch,
{
}

/// What the status, a wait, a boundary and a start lead to: a checked status is
/// processed, a refused one ends the worker; a boundary that handed the first
/// period over starts the device, any other goes back to the head; a started
/// device goes back to the head; and what ends a retry names the operation.
pub proof fn law_playback_worker_moves_on(
    worker: PlaybackLoop,
    application_frames: u64,
    snapshot: PcmStatusSnapshot,
    report: PlaybackProcessReport,
    error: BridgeError,
    failure: PcmIoError,
    stopped: bool,
    state: BridgeState,
)
    requires
        failure != PcmIoError::Again,
        failure != PcmIoError::Interrupted,
    ensures
        match playback_status(
            worker.attempt_epoch,
            application_frames,
            worker.geometry,
            worker.pcm_started,
            snapshot,
        ) {
            Ok(status) => worker.status_stage(application_frames, Ok(snapshot))
                == PlaybackStage::Processing(status),
            Err(refusal) => worker.status_stage(application_frames, Ok(snapshot))
                == PlaybackStage::Finished(PlaybackWorkerTerminal::Status(refusal)),
        },
        worker.status_stage(application_frames, Err(failure)) == PlaybackStage::Finished(
            PlaybackWorkerTerminal::Observe(write_error(failure, 0)),
        ),
        worker.stage is Starting ==> worker.start_stage(Err(failure), stopped, state)
            == PlaybackStage::Finished(PlaybackWorkerTerminal::PcmStart(write_error(failure, 0))),
        worker.start_stage(Ok(()), stopped, state) == playback_head(stopped, state),
        worker.stage is Processing && (worker.pcm_started || report.delivery
            == PlaybackBoundaryDelivery::DiscardedFilterDelay) ==> worker.processed_stage(
            Ok(report),
            stopped,
            state,
        ) == playback_head(stopped, state),
        worker.stage is Processing && !worker.pcm_started && report.delivery
            != PlaybackBoundaryDelivery::DiscardedFilterDelay && !stopped
            ==> match worker.processed_stage(Ok(report), stopped, state) {
            PlaybackStage::Starting(boundary) => {
                let status = worker.stage->Processing_0;
                &&& boundary.report == report
                &&& boundary.available_frames == status.available_frames
                &&& boundary.queued_frames == status.queued_frames
                &&& boundary.delay_frames == status.delay_frames
                &&& boundary.pcm_started
            },
            _ => false,
        },
        match worker.processed_stage(Err(error), stopped, state) {
            PlaybackStage::Finished(PlaybackWorkerTerminal::Stopped) => error
                == BridgeError::Teardown || error == BridgeError::Playback(
                PlaybackWriteError::Stopped { accepted_frames: 0 },
            ),
            PlaybackStage::Finished(PlaybackWorkerTerminal::Bridge(named)) => named == error
                && error != BridgeError::Teardown && error != BridgeError::Playback(
                PlaybackWriteError::Stopped { accepted_frames: 0 },
            ),
            _ => false,
        },
        worker.stage == PlaybackStage::StatusWaiting && !stopped ==> worker.wait_stage(
            Ok(PcmWait::Ready),
            stopped,
        ) == PlaybackStage::AwaitStatus,
        worker.stage is StartWaiting && !stopped ==> worker.wait_stage(Ok(PcmWait::Ready), stopped)
            == PlaybackStage::Starting(worker.stage->StartWaiting_0),
        worker.stage is StartWaiting ==> worker.wait_stage(Err(failure), stopped)
            == PlaybackStage::Finished(PlaybackWorkerTerminal::PcmStart(write_error(failure, 0))),
        worker.stage == PlaybackStage::StatusWaiting ==> worker.wait_stage(Err(failure), stopped)
            == PlaybackStage::Finished(PlaybackWorkerTerminal::Observe(write_error(failure, 0))),
{
}

/// A playback thread is started only once the monitor mix is queued for it.
pub proof fn law_playback_waits_for_the_monitor_mix(state: BridgeState)
    ensures
        monitor_mix_queued_in(state) <==> (state == BridgeState::PlaybackFilterDelay || state
            == BridgeState::PlaybackEstimatorPriming || state == BridgeState::PlaybackStabilizing
            || state == BridgeState::Primed || state == BridgeState::Active),
{
}

/// A fresh budget has no failure counted and the limit of the worker's policy.
pub proof fn law_fresh_budgets_are_whole(worker: PlaybackLoop)
    ensures
        worker.fresh_retry().attempts == 0,
        worker.fresh_retry().limit == worker.policy.transient_retry_limit,
{
}

} // verus!
