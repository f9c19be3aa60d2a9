//! Checked PCM status snapshots.

use crate::audio_host::clock_bridge::observation::{
    CaptureClockObservation, ClockAttemptEpoch, ClockFramePosition, ClockObservation,
    MonotonicNanoseconds, PlaybackClockObservation,
};
use crate::audio_host::pcm::PhysicalPcmParameters;
use vstd::prelude::*;

verus! {

const NANOSECONDS_PER_SECOND: u64 = 1_000_000_000;

/// ALSA's number of the prepared state.
pub const PCM_STATE_PREPARED: i32 = 2;

/// ALSA's number of the running state.
pub const PCM_STATE_RUNNING: i32 = 3;

/// ALSA's number of the overrun or underrun state.
pub const PCM_STATE_XRUN: i32 = 4;

/// ALSA's number of the suspended state.
pub const PCM_STATE_SUSPENDED: i32 = 7;

/// ALSA's number of the disconnected state.
pub const PCM_STATE_DISCONNECTED: i32 = 8;

/// One raw status sample of a PCM device.
#[derive(Clone, Copy, Debug, Eq, PartialEq, Structural)]
pub struct PcmStatusSnapshot {
    pub timestamp_seconds: i64,
    pub timestamp_nanoseconds: i64,
    pub available_frames: i64,
    pub delay_frames: i64,
    pub state_raw: i32,
    pub geometry: PhysicalPcmParameters,
}

/// Why a status sample is refused.
#[derive(Clone, Copy, Debug, Eq, PartialEq, Structural)]
#[allow(inconsistent_fields)]
pub enum PcmStatusError {
    NegativeTimestampSeconds { actual: i64 },
    InvalidTimestampNanoseconds { actual: i64 },
    TimestampOverflow,
    Geometry { expected: PhysicalPcmParameters, actual: PhysicalPcmParameters },
    NegativeAvailability { actual: i64 },
    AvailabilityOutsideBuffer { actual: u64, buffer_frames: u64 },
    PositionOverflow,
    PlaybackPositionBeforeQueue { application: u64, queued: u64 },
    Xrun,
    Suspended,
    Disconnected,
    InvalidState { actual: i32, expected: PcmExpectedState },
}

/// The state a worker expects its PCM device to be in.
#[derive(Clone, Copy, Debug, Eq, PartialEq, Structural)]
pub enum PcmExpectedState {
    CaptureRunning,
    PlaybackPrepared,
    PlaybackRunning,
}

/// A checked capture status.
#[derive(Clone, Copy, Debug, Eq, PartialEq, Structural)]
pub struct ValidatedCaptureStatus {
    pub observation: CaptureClockObservation,
    pub available_frames: u64,
    pub delay_frames: i64,
}

/// A checked playback status.
#[derive(Clone, Copy, Debug, Eq, PartialEq, Structural)]
pub struct ValidatedPlaybackStatus {
    pub observation: PlaybackClockObservation,
    pub available_frames: u64,
    pub queued_frames: u64,
    pub delay_frames: i64,
}

/// The nanoseconds of a status timestamp, or why it is not one.
pub open spec fn timestamp(snapshot: PcmStatusSnapshot) -> Result<u64, PcmStatusError> {
    let seconds = snapshot.timestamp_seconds;
    let nanoseconds = snapshot.timestamp_nanoseconds;
    if seconds < 0 {
        Err(PcmStatusError::NegativeTimestampSeconds { actual: seconds })
    } else if nanoseconds < 0 || nanoseconds >= 1_000_000_000 {
        Err(PcmStatusError::InvalidTimestampNanoseconds { actual: nanoseconds })
    } else if seconds * 1_000_000_000 + nanoseconds > u64::MAX {
        Err(PcmStatusError::TimestampOverflow)
    } else {
        Ok((seconds * 1_000_000_000 + nanoseconds) as u64)
    }
}

/// Computes the nanoseconds of a status timestamp.
pub fn monotonic_nanoseconds(snapshot: PcmStatusSnapshot) -> (result: Result<u64, PcmStatusError>)
    ensures
        result == timestamp(snapshot),
{
    if snapshot.timestamp_seconds < 0 {
        return Err(
            PcmStatusError::NegativeTimestampSeconds { actual: snapshot.timestamp_seconds },
        );
    }
    if snapshot.timestamp_nanoseconds < 0 || snapshot.timestamp_nanoseconds
        >= NANOSECONDS_PER_SECOND as i64 {
        return Err(
            PcmStatusError::InvalidTimestampNanoseconds { actual: snapshot.timestamp_nanoseconds },
        );
    }
    let seconds: u64 = snapshot.timestamp_seconds as u64;
    let nanoseconds: u64 = snapshot.timestamp_nanoseconds as u64;
    match seconds.checked_mul(NANOSECONDS_PER_SECOND) {
        Some(value) => match value.checked_add(nanoseconds) {
            Some(total) => Ok(total),
            None => Err(PcmStatusError::TimestampOverflow),
        },
        None => Err(PcmStatusError::TimestampOverflow),
    }
}

/// The available frames of a status, or why they do not fit the buffer.
pub open spec fn available(snapshot: PcmStatusSnapshot, geometry: PhysicalPcmParameters) -> Result<
    u64,
    PcmStatusError,
> {
    if snapshot.available_frames < 0 {
        Err(PcmStatusError::NegativeAvailability { actual: snapshot.available_frames })
    } else if snapshot.available_frames > geometry.buffer_frames {
        Err(
            PcmStatusError::AvailabilityOutsideBuffer {
                actual: snapshot.available_frames as u64,
                buffer_frames: geometry.buffer_frames as u64,
            },
        )
    } else {
        Ok(snapshot.available_frames as u64)
    }
}

/// Checks the available frames of a status against the buffer.
pub fn availability(snapshot: PcmStatusSnapshot, geometry: PhysicalPcmParameters) -> (result:
    Result<u64, PcmStatusError>)
    ensures
        result == available(snapshot, geometry),
{
    if snapshot.available_frames < 0 {
        return Err(PcmStatusError::NegativeAvailability { actual: snapshot.available_frames });
    }
    let available_frames: u64 = snapshot.available_frames as u64;
    let buffer_frames: u64 = geometry.buffer_frames as u64;
    if available_frames > buffer_frames {
        return Err(
            PcmStatusError::AvailabilityOutsideBuffer { actual: available_frames, buffer_frames },
        );
    }
    Ok(available_frames)
}

/// Why a raw PCM state is not the expected one, if it is not.
pub open spec fn pcm_state_refusal(raw: i32, expected: PcmExpectedState) -> Option<PcmStatusError> {
    let wanted: i32 = match expected {
        PcmExpectedState::PlaybackPrepared => 2,
        _ => 3,
    };
    if raw == 4 {
        Some(PcmStatusError::Xrun)
    } else if raw == 7 {
        Some(PcmStatusError::Suspended)
    } else if raw == 8 {
        Some(PcmStatusError::Disconnected)
    } else if raw != wanted {
        Some(PcmStatusError::InvalidState { actual: raw, expected })
    } else {
        None
    }
}

/// Checks a raw PCM state.
pub fn validate_state(raw: i32, expected: PcmExpectedState) -> (result: Result<(), PcmStatusError>)
    ensures
        result == match pcm_state_refusal(raw, expected) {
            Some(error) => Err::<(), PcmStatusError>(error),
            None => Ok::<(), PcmStatusError>(()),
        },
{
    if raw == PCM_STATE_XRUN {
        return Err(PcmStatusError::Xrun);
    }
    if raw == PCM_STATE_SUSPENDED {
        return Err(PcmStatusError::Suspended);
    }
    if raw == PCM_STATE_DISCONNECTED {
        return Err(PcmStatusError::Disconnected);
    }
    let wanted: i32 = match expected {
        PcmExpectedState::CaptureRunning => PCM_STATE_RUNNING,
        PcmExpectedState::PlaybackRunning => PCM_STATE_RUNNING,
        PcmExpectedState::PlaybackPrepared => PCM_STATE_PREPARED,
    };
    if raw == wanted {
        Ok(())
    } else {
        Err(PcmStatusError::InvalidState { actual: raw, expected })
    }
}

/// Checks that a status describes the device that was configured.
pub fn validate_geometry(expected: PhysicalPcmParameters, actual: PhysicalPcmParameters) -> (result:
    Result<(), PcmStatusError>)
    ensures
        result == if expected == actual {
            Ok::<(), PcmStatusError>(())
        } else {
            Err::<(), PcmStatusError>(PcmStatusError::Geometry { expected, actual })
        },
{
    if expected == actual {
        Ok(())
    } else {
        Err(PcmStatusError::Geometry { expected, actual })
    }
}

/// What a capture status tells, or why it is refused: the hardware position is
/// the application position plus the frames still available.
pub open spec fn capture_status(
    epoch: ClockAttemptEpoch,
    application_frames: u64,
    expected: PhysicalPcmParameters,
    snapshot: PcmStatusSnapshot,
) -> Result<ValidatedCaptureStatus, PcmStatusError> {
    if expected != snapshot.geometry {
        Err(PcmStatusError::Geometry { expected, actual: snapshot.geometry })
    } else if pcm_state_refusal(
        snapshot.state_raw,
        PcmExpectedState::CaptureRunning,
    ) is Some {
        Err(pcm_state_refusal(snapshot.state_raw, PcmExpectedState::CaptureRunning)->Some_0)
    } else {
        match timestamp(snapshot) {
            Err(error) => Err(error),
            Ok(time) => match available(snapshot, expected) {
                Err(error) => Err(error),
                Ok(available_frames) => if application_frames + available_frames > u64::MAX {
                    Err(PcmStatusError::PositionOverflow)
                } else {
                    Ok(
                        ValidatedCaptureStatus {
                            observation: CaptureClockObservation {
                                clock: ClockObservation {
                                    epoch,
                                    frame_position: ClockFramePosition {
                                        frames: (application_frames + available_frames) as u64,
                                    },
                                    monotonic_time: MonotonicNanoseconds { nanoseconds: time },
                                },
                            },
                            available_frames,
                            delay_frames: snapshot.delay_frames,
                        },
                    )
                },
            },
        }
    }
}

/// Checks one capture status sample.
pub fn validate_capture_status(
    epoch: ClockAttemptEpoch,
    application_frames: u64,
    expected_geometry: PhysicalPcmParameters,
    snapshot: PcmStatusSnapshot,
) -> (result: Result<ValidatedCaptureStatus, PcmStatusError>)
    ensures
        result == capture_status(epoch, application_frames, expected_geometry, snapshot),
{
    validate_geometry(expected_geometry, snapshot.geometry)?;
    validate_state(snapshot.state_raw, PcmExpectedState::CaptureRunning)?;
    let nanoseconds: u64 = monotonic_nanoseconds(snapshot)?;
    let available_frames: u64 = availability(snapshot, expected_geometry)?;
    let frames: u64 = match application_frames.checked_add(available_frames) {
        Some(frames) => frames,
        None => {
            return Err(PcmStatusError::PositionOverflow);
        },
    };
    let clock = ClockObservation {
        epoch,
        frame_position: ClockFramePosition { frames },
        monotonic_time: MonotonicNanoseconds { nanoseconds },
    };
    Ok(
        ValidatedCaptureStatus {
            observation: CaptureClockObservation::new(clock),
            available_frames,
            delay_frames: snapshot.delay_frames,
        },
    )
}

/// The state a playback worker expects.
pub open spec fn expected_playback_state(pcm_started: bool) -> PcmExpectedState {
    if pcm_started {
        PcmExpectedState::PlaybackRunning
    } else {
        PcmExpectedState::PlaybackPrepared
    }
}

/// What a playback status tells, or why it is refused: the hardware position is
/// the application position less the frames still queued.
pub open spec fn playback_status(
    epoch: ClockAttemptEpoch,
    application_frames: u64,
    expected: PhysicalPcmParameters,
    pcm_started: bool,
    snapshot: PcmStatusSnapshot,
) -> Result<ValidatedPlaybackStatus, PcmStatusError> {
    let expected_state = expected_playback_state(pcm_started);
    if expected != snapshot.geometry {
        Err(PcmStatusError::Geometry { expected, actual: snapshot.geometry })
    } else if pcm_state_refusal(snapshot.state_raw, expected_state) is Some {
        Err(pcm_state_refusal(snapshot.state_raw, expected_state)->Some_0)
    } else {
        match timestamp(snapshot) {
            Err(error) => Err(error),
            Ok(time) => match available(snapshot, expected) {
                Err(error) => Err(error),
                Ok(available_frames) => {
                    let queued_frames = (expected.buffer_frames - available_frames) as u64;
                    if application_frames < queued_frames {
                        Err(
                            PcmStatusError::PlaybackPositionBeforeQueue {
                                application: application_frames,
                                queued: queued_frames,
                            },
                        )
                    } else {
                        Ok(
                            ValidatedPlaybackStatus {
                                observation: PlaybackClockObservation {
                                    hardware: ClockObservation {
                                        epoch,
                                        frame_position: ClockFramePosition {
                                            frames: (application_frames - queued_frames) as u64,
                                        },
                                        monotonic_time: MonotonicNanoseconds { nanoseconds: time },
                                    },
                                    application_frame_position: ClockFramePosition {
                                        frames: application_frames,
                                    },
                                },
                                available_frames,
                                queued_frames,
                                delay_frames: snapshot.delay_frames,
                            },
                        )
                    }
                },
            },
        }
    }
}

/// Checks one playback status sample.
pub fn validate_playback_status(
    epoch: ClockAttemptEpoch,
    application_frames: u64,
    expected_geometry: PhysicalPcmParameters,
    pcm_started: bool,
    snapshot: PcmStatusSnapshot,
) -> (result: Result<ValidatedPlaybackStatus, PcmStatusError>)
    ensures
        result == playback_status(
            epoch,
            application_frames,
            expected_geometry,
            pcm_started,
            snapshot,
        ),
{
    validate_geometry(expected_geometry, snapshot.geometry)?;
    let expected_state = if pcm_started {
        PcmExpectedState::PlaybackRunning
    } else {
        PcmExpectedState::PlaybackPrepared
    };
    validate_state(snapshot.state_raw, expected_state)?;
    let nanoseconds: u64 = monotonic_nanoseconds(snapshot)?;
    let available_frames: u64 = availability(snapshot, expected_geometry)?;
    let queued_frames: u64 = expected_geometry.buffer_frames as u64 - available_frames;
    let frames: u64 = match application_frames.checked_sub(queued_frames) {
        Some(frames) => frames,
        None => {
            return Err(
                PcmStatusError::PlaybackPositionBeforeQueue {
                    application: application_frames,
                    queued: queued_frames,
                },
            );
        },
    };
    let hardware = ClockObservation {
        epoch,
        frame_position: ClockFramePosition { frames },
        monotonic_time: MonotonicNanoseconds { nanoseconds },
    };
    Ok(
        ValidatedPlaybackStatus {
            observation: PlaybackClockObservation::new(
                hardware,
                ClockFramePosition { frames: application_frames },
            ),
            available_frames,
            queued_frames,
            delay_frames: snapshot.delay_frames,
        },
    )
}

/// An accepted status never puts the capture hardware behind the application,
/// nor the playback hardware ahead of it or more than one buffer behind.
pub proof fn law_status_positions_are_ordered(
    epoch: ClockAttemptEpoch,
    application_frames: u64,
    expected: PhysicalPcmParameters,
    pcm_started: bool,
    snapshot: PcmStatusSnapshot,
)
    ensures
        match capture_status(epoch, application_frames, expected, snapshot) {
            Ok(status) => application_frames
                <= status.observation.clock.frame_position.frames <= application_frames
                + expected.buffer_frames,
            Err(_) => true,
        },
        match playback_status(epoch, application_frames, expected, pcm_started, snapshot) {
            Ok(status) => application_frames - expected.buffer_frames
                <= status.observation.hardware.frame_position.frames <= application_frames
                && status.available_frames + status.queued_frames == expected.buffer_frames,
            Err(_) => true,
        },
{
}

/// A capture status is accepted exactly if it describes the configured device,
/// running, at a valid time, with no more frames than its buffer holds; it then
/// puts the hardware as many frames past the application as are waiting to be
/// read, at the time of the sample.
pub proof fn law_capture_status_adds_the_waiting_frames(
    epoch: ClockAttemptEpoch,
    application_frames: u64,
    expected: PhysicalPcmParameters,
    snapshot: PcmStatusSnapshot,
)
    ensures
        capture_status(epoch, application_frames, expected, snapshot) is Ok <==> {
            &&& snapshot.geometry == expected
            &&& snapshot.state_raw == PCM_STATE_RUNNING
            &&& snapshot.timestamp_seconds >= 0
            &&& 0 <= snapshot.timestamp_nanoseconds < 1_000_000_000
            &&& snapshot.timestamp_seconds * 1_000_000_000 + snapshot.timestamp_nanoseconds
                <= u64::MAX
            &&& 0 <= snapshot.available_frames <= expected.buffer_frames
            &&& application_frames + snapshot.available_frames <= u64::MAX
        },
        match capture_status(epoch, application_frames, expected, snapshot) {
            Ok(status) => {
                &&& status.observation.clock.epoch == epoch
                &&& status.observation.clock.frame_position.frames == application_frames
                    + snapshot.available_frames
                &&& status.observation.clock.monotonic_time.nanoseconds
                    == snapshot.timestamp_seconds * 1_000_000_000
                    + snapshot.timestamp_nanoseconds
                &&& status.available_frames == snapshot.available_frames
                &&& status.delay_frames == snapshot.delay_frames
            },
            Err(_) => true,
        },
{
}

/// A playback status is accepted exactly if it describes the configured device,
/// running once it was started and prepared before, at a valid time, with no more
/// room than its buffer and no more frames queued than were written; it then puts
/// the hardware as many frames behind the application as are still queued.
pub proof fn law_playback_status_subtracts_the_queued_frames(
    epoch: ClockAttemptEpoch,
    application_frames: u64,
    expected: PhysicalPcmParameters,
    pcm_started: bool,
    snapshot: PcmStatusSnapshot,
)
    ensures
        playback_status(epoch, application_frames, expected, pcm_started, snapshot) is Ok <==> {
            &&& snapshot.geometry == expected
            &&& pcm_started ==> snapshot.state_raw == PCM_STATE_RUNNING
            &&& !pcm_started ==> snapshot.state_raw == PCM_STATE_PREPARED
            &&& snapshot.timestamp_seconds >= 0
            &&& 0 <= snapshot.timestamp_nanoseconds < 1_000_000_000
            &&& snapshot.timestamp_seconds * 1_000_000_000 + snapshot.timestamp_nanoseconds
                <= u64::MAX
            &&& 0 <= snapshot.available_frames <= expected.buffer_frames
            &&& expected.buffer_frames <= application_frames + snapshot.available_frames
        },
        match playback_status(epoch, application_frames, expected, pcm_started, snapshot) {
            Ok(status) => {
                &&& status.observation.hardware.epoch == epoch
                &&& status.observation.hardware.frame_position.frames + expected.buffer_frames
                    == application_frames + snapshot.available_frames
                &&& status.observation.application_frame_position.frames == application_frames
                &&& status.observation.hardware.monotonic_time.nanoseconds
                    == snapshot.timestamp_seconds * 1_000_000_000
                    + snapshot.timestamp_nanoseconds
                &&& status.available_frames == snapshot.available_frames
                &&& status.queued_frames + snapshot.available_frames == expected.buffer_frames
                &&& status.delay_frames == snapshot.delay_frames
            },
            Err(_) => true,
        },
{
}

/// A device that left its expected state says how: an overrun or underrun, a
/// suspension and a disconnection are told apart from every other state.
pub proof fn law_device_states_stay_apart(raw: i32, expected: PcmExpectedState)
    ensures
        raw == PCM_STATE_XRUN <==> pcm_state_refusal(raw, expected) == Some(PcmStatusError::Xrun),
        raw == PCM_STATE_SUSPENDED <==> pcm_state_refusal(raw, expected) == Some(
            PcmStatusError::Suspended,
        ),
        raw == PCM_STATE_DISCONNECTED <==> pcm_state_refusal(raw, expected) == Some(
            PcmStatusError::Disconnected,
        ),
        pcm_state_refusal(raw, expected) is None <==> raw == (if expected
            == PcmExpectedState::PlaybackPrepared {
            PCM_STATE_PREPARED
        } else {
            PCM_STATE_RUNNING
        }),
        match pcm_state_refusal(raw, expected) {
            Some(PcmStatusError::InvalidState { actual, expected: named }) => actual == raw && named
                == expected,
            _ => true,
        },
        PCM_STATE_PREPARED == 2,
        PCM_STATE_RUNNING == 3,
        PCM_STATE_XRUN == 4,
        PCM_STATE_SUSPENDED == 7,
        PCM_STATE_DISCONNECTED == 8,
{
}

} // verus!
