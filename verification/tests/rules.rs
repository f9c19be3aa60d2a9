//! The smaller rules under the audio host.

use librewave_platform_linux::assoc::{has_value, IdMap, NameMap};
use librewave_platform_linux::audio_host::clock_bridge::attempt::{
    checked_end, validate_estimator_freshness, within_guard,
};
use librewave_platform_linux::audio_host::clock_bridge::errors::{
    ClockRateEstimatorError, MixerProfileError, ProcessError, StageError,
};
use librewave_platform_linux::audio_host::clock_bridge::graph::{
    deinterleave, graph_delivery, prepare_system_input,
};
use librewave_platform_linux::audio_host::clock_bridge::observation::{
    ClockAttemptEpoch, ClockFramePosition, ClockObservation, MonotonicNanoseconds,
};
use librewave_platform_linux::audio_host::clock_bridge::playback::{
    judge_submission, playback_delivery, SubmissionStep,
};
use librewave_platform_linux::audio_host::filter::{
    CycleInput, FilterCallbacks, FilterControlError, FilterPorts, ProcessFault,
    FILTER_STATE_ERROR, FILTER_STATE_OTHER, FILTER_STATE_PAUSED, FILTER_STATE_STREAMING,
};
use librewave_platform_linux::audio_host::graph::{activation_step, ActivationStep, GraphError};
use librewave_platform_linux::audio_host::pipewire::{parse_canonical_number, parse_hw_card};
use librewave_platform_linux::audio_host::sample::{dequantize, find_nonfinite, quantize};
use librewave_platform_linux::audio_host::transport::{
    TransportBuildError, TransportControlError, TransportError, TransportPlaybackError,
};
use librewave_platform_linux::audio_host::worker::{
    leave_park, retry_after_wait, ParkStep, PcmIoError, PcmWait, RetryEnd, RetryStep,
    TransientBudget, TransientKind, WorkerPhase, WorkerSignals,
};
use librewave_platform_linux::audio_host::{
    BridgeClockDomain, BridgeError, BridgeState, GraphBoundaryDelivery, GraphSystemInput,
    PlaybackBoundaryDelivery, PlaybackSubmissionProgress, PlaybackWriteError,
};

fn bits(samples: &[f32]) -> Vec<u32> {
    samples.iter().map(|sample| sample.to_bits()).collect()
}

fn clock(nanoseconds: u64) -> ClockObservation {
    ClockObservation {
        epoch: ClockAttemptEpoch { value: 1 },
        frame_position: ClockFramePosition { frames: 0 },
        monotonic_time: MonotonicNanoseconds { nanoseconds },
    }
}

#[test]
fn quantization_rounds_half_away_from_zero_and_saturates() {
    let step = 1.0_f32 / 8_388_608.0;
    assert_eq!(quantize((0.5 * step).to_bits(), 23), 1);
    assert_eq!(quantize((-0.5 * step).to_bits(), 23), -1);
    assert_eq!(quantize((0.499 * step).to_bits(), 23), 0);
    assert_eq!(quantize((1.5 * step).to_bits(), 23), 2);
    assert_eq!(quantize(3.0_f32.to_bits(), 23), 8_388_607);
    assert_eq!(quantize((-3.0_f32).to_bits(), 31), -2_147_483_648);
    assert_eq!(quantize(f32::MIN_POSITIVE.to_bits(), 31), 0);
    assert_eq!(quantize(1_u32, 31), 0);
    assert_eq!(f32::from_bits(dequantize(-8_388_608, 23)), -1.0);
    assert_eq!(f32::from_bits(dequantize(i32::MAX, 31)), 1.0);
    assert_eq!(dequantize(0, 31), 0);
    for raw in [-8_388_608_i32, -8_388_607, -3, 1, 4_194_305, 8_388_607] {
        assert_eq!(quantize(dequantize(raw, 23), 23), i64::from(raw));
    }
    assert_eq!(find_nonfinite(&bits(&[0.0, f32::NEG_INFINITY])), Some(1));
    assert_eq!(find_nonfinite(&bits(&[0.0, f32::MAX])), None);
}

#[test]
fn hardware_paths_are_canonical() {
    assert_eq!(parse_hw_card("hw:12,3"), Some(12));
    assert_eq!(parse_hw_card("hw:4294967295"), Some(u32::MAX));
    assert_eq!(parse_hw_card("hw:4294967296"), None);
    assert_eq!(parse_hw_card("hw:1,02"), None);
    assert_eq!(parse_canonical_number(&['0']), Some(0));
    assert_eq!(parse_canonical_number(&['+', '1']), None);
}

#[test]
fn interleaved_channels_come_apart_again() {
    let left = bits(&[0.1, 0.2, 0.3]);
    let right = bits(&[-0.1, -0.2, -0.3]);
    let mut samples = vec![0; 6];
    prepare_system_input(GraphSystemInput::connected(&left, &right), 3, &mut samples)
        .expect("system input");
    assert_eq!(samples, bits(&[0.1, -0.1, 0.2, -0.2, 0.3, -0.3]));
    let mut back = (vec![0; 3], vec![0; 3]);
    deinterleave(&samples, &mut back.0, &mut back.1);
    assert_eq!(back, (left, right));
    let mut silent = vec![7; 6];
    prepare_system_input(GraphSystemInput::unconnected(), 3, &mut silent).expect("silence");
    assert_eq!(silent, [0; 6]);
}

#[test]
fn startup_ranges_are_symmetric() {
    assert!(within_guard(90, 100, 10));
    assert!(within_guard(110, 100, 10));
    assert!(!within_guard(89, 100, 10));
    assert!(!within_guard(111, 100, 10));
    assert_eq!(checked_end(BridgeClockDomain::WaveCapture, 5, 6), Ok(11));
    assert!(matches!(
        checked_end(BridgeClockDomain::WaveCapture, u64::MAX, 1),
        Err(BridgeError::PositionOverflow { .. })
    ));
    assert_eq!(validate_estimator_freshness(Some(clock(50)), 10, clock(60)), Ok(()));
    assert_eq!(
        validate_estimator_freshness(Some(clock(71)), 10, clock(60)),
        Err(ClockRateEstimatorError::ObservationSkew {
            actual_nanoseconds: 11,
            maximum_nanoseconds: 10,
        })
    );
}

#[test]
fn only_an_active_attempt_delivers() {
    for raw in 0..14 {
        let state = BridgeState::from_raw(raw);
        let active = state == BridgeState::Active;
        assert_eq!(graph_delivery(state) == GraphBoundaryDelivery::Delivered, active);
        assert_eq!(
            playback_delivery(state) == PlaybackBoundaryDelivery::SubmittedActive,
            active
        );
    }
}

#[test]
fn the_position_follows_what_the_device_accepted() {
    assert!(matches!(
        judge_submission(100, 8, Ok(PlaybackSubmissionProgress { frames_submitted: 8 })),
        SubmissionStep::Delivered
    ));
    assert!(matches!(
        judge_submission(100, 8, Err(PlaybackWriteError::Xrun { accepted_frames: 3 })),
        SubmissionStep::Failed { position: 103, terminal: true, .. }
    ));
    assert!(matches!(
        judge_submission(100, 8, Err(PlaybackWriteError::Stopped { accepted_frames: 0 })),
        SubmissionStep::Failed { position: 100, terminal: false, .. }
    ));
    assert!(matches!(
        judge_submission(100, 8, Ok(PlaybackSubmissionProgress { frames_submitted: 9 })),
        SubmissionStep::Failed { position: 100, terminal: true, .. }
    ));
}

#[test]
fn a_parked_worker_resumes_only_on_an_active_attempt() {
    let mut signals = WorkerSignals::new(ClockAttemptEpoch { value: 1 });
    signals.begin_primed_park();
    assert_eq!(leave_park(&mut signals, BridgeState::Active), ParkStep::ParkAgain);
    signals.request_resume();
    assert_eq!(leave_park(&mut signals, BridgeState::Primed), ParkStep::ParkAgain);
    signals.request_resume();
    assert_eq!(leave_park(&mut signals, BridgeState::Active), ParkStep::Resume);
    assert_eq!(signals.phase(), WorkerPhase::Running);
    signals.request_stop();
    assert_eq!(leave_park(&mut signals, BridgeState::Active), ParkStep::Stop);
}

#[test]
fn a_retry_budget_is_exact() {
    let mut budget = TransientBudget::new(2);
    let again = Err(PcmIoError::Again);
    assert_eq!(retry_after_wait(&mut budget, again, false), RetryStep::Call);
    assert_eq!(retry_after_wait(&mut budget, Ok(PcmWait::TimedOut), false), RetryStep::Call);
    assert_eq!(retry_after_wait(&mut budget, again, false), RetryStep::Call);
    assert_eq!(
        retry_after_wait(&mut budget, Err(PcmIoError::Interrupted), false),
        RetryStep::End(RetryEnd::Exhausted(TransientKind::Interrupted))
    );
    assert_eq!(
        retry_after_wait(&mut budget, Err(PcmIoError::Xrun), true),
        RetryStep::End(RetryEnd::Failed(PcmIoError::Xrun))
    );
    assert_eq!(
        retry_after_wait(&mut budget, Ok(PcmWait::Ready), true),
        RetryStep::End(RetryEnd::Stopped)
    );
    budget.reset();
    assert_eq!(budget.attempts, 0);
}

#[test]
fn filter_states_and_panics_are_recorded() {
    let mut callbacks = FilterCallbacks::new(25, 128);
    callbacks.on_state(FILTER_STATE_OTHER, FILTER_STATE_PAUSED);
    callbacks.on_state(FILTER_STATE_PAUSED, FILTER_STATE_STREAMING);
    assert!(!callbacks.diagnostics().failed);
    callbacks.on_state(FILTER_STATE_STREAMING, FILTER_STATE_PAUSED);
    let seen = callbacks.diagnostics();
    assert!(seen.failed);
    assert_eq!(seen.filter_state, FILTER_STATE_PAUSED);
    assert_eq!(seen.faults[0].expect("fault").fault, ProcessFault::Pause);

    let mut callbacks = FilterCallbacks::new(25, 128);
    callbacks.on_state(FILTER_STATE_PAUSED, FILTER_STATE_STREAMING);
    callbacks.begin_stop();
    callbacks.on_state(FILTER_STATE_STREAMING, FILTER_STATE_ERROR);
    assert!(!callbacks.diagnostics().failed);
    let input = CycleInput {
        driver_id: 25,
        rate_num: 1,
        rate_denom: 48_000,
        position: 64,
        quantum: 128,
        missing_mask: 0,
    };
    callbacks.record_panic(input);
    let seen = callbacks.diagnostics();
    assert_eq!(seen.faults[0].expect("fault").fault, ProcessFault::Panic);
    assert_eq!((seen.process_cycles, seen.dropped_faults), (0, 0));
}

#[test]
fn cycle_faults_are_told_apart() {
    let input = CycleInput {
        driver_id: 25,
        rate_num: 1,
        rate_denom: 48_000,
        position: 0,
        quantum: 4,
        missing_mask: 0,
    };
    let buffers = [0x1000, 0x2000];
    let begin = |input: CycleInput, buffers: Option<&[usize]>| {
        FilterCallbacks::new(25, 4).begin_cycle(input, buffers).map(|_| ())
    };
    assert_eq!(begin(input, Some(&buffers)), Ok(()));
    assert_eq!(begin(input, None), Err(ProcessFault::MissingBuffer));
    let missing = CycleInput { missing_mask: 2, ..input };
    assert_eq!(begin(missing, Some(&buffers)), Err(ProcessFault::MissingBuffer));
    let empty = CycleInput { quantum: 0, ..input };
    assert_eq!(begin(empty, Some(&buffers)), Err(ProcessFault::InvalidQuantum));
    let ratio = CycleInput { rate_num: 2, ..input };
    assert_eq!(begin(ratio, Some(&buffers)), Err(ProcessFault::RateChanged));
    assert_eq!(begin(input, Some(&[0x1000, 0])), Err(ProcessFault::MissingBuffer));
    assert_eq!(begin(input, Some(&[0x1001])), Err(ProcessFault::MisalignedBuffer));
    assert_eq!(begin(input, Some(&[0x1000, 0x100c])), Err(ProcessFault::AliasedBuffer));
    assert_eq!(
        begin(input, Some(&[usize::MAX - 3])),
        Err(ProcessFault::BufferExtentOverflow)
    );
    let mut callbacks = FilterCallbacks::new(25, 4);
    let tail = bits(&[0.5; 4]);
    assert_eq!(
        callbacks.follow_links(input, 0, &tail, &tail),
        Err(ProcessFault::StaleSystemTail)
    );
    assert!(callbacks.finish_cycle(input, Err(ProcessFault::Processor)));
    assert_eq!(callbacks.faults.next, 2);
}

#[test]
fn a_filter_connects_only_with_all_its_ports() {
    let mut ports = FilterPorts::new();
    for index in 0..8 {
        assert_eq!(ports.check_connect(), Err(FilterControlError::PortsMissing));
        assert_eq!(ports.check_add(index), Ok(()));
        ports.mark_added(index);
        assert_eq!(ports.check_add(index), Err(FilterControlError::PortAlreadyPresent));
    }
    assert_eq!(ports.check_add(8), Err(FilterControlError::PortIndexOutOfRange));
    assert_eq!(ports.check_connect(), Ok(()));
    ports.destroyed = true;
    assert_eq!(ports.check_connect(), Err(FilterControlError::Destroyed));
    assert_eq!(FilterControlError::PortsMissing.message(), "filter does not own all eight ports");
}

#[test]
fn activation_waits_streams_or_fails() {
    let none = vec![None];
    assert!(matches!(
        activation_step(FILTER_STATE_STREAMING, true, &none, true),
        ActivationStep::Streaming
    ));
    assert!(matches!(
        activation_step(FILTER_STATE_PAUSED, false, &none, false),
        ActivationStep::Wait
    ));
    assert!(matches!(
        activation_step(FILTER_STATE_PAUSED, false, &none, true),
        ActivationStep::Failed(GraphError::RoundtripTimeout)
    ));
    assert!(matches!(
        activation_step(FILTER_STATE_PAUSED, true, &none, true),
        ActivationStep::Failed(GraphError::AttemptFault(ProcessFault::Processor))
    ));
}

#[test]
fn maps_hold_each_key_once() {
    let mut ids = IdMap::new();
    ids.insert(4, 40);
    ids.insert(5, 50);
    ids.insert(4, 41);
    assert_eq!((ids.get(4), ids.get(5), ids.get(6)), (Some(&41), Some(&50), None));
    assert!(has_value(&ids, 41));
    assert!(!has_value(&ids, 40));
    ids.remove(4);
    assert_eq!(ids.get(4), None);
    let mut names = NameMap::new();
    names.insert(String::from("a"), 1);
    names.insert(String::from("b"), 1);
    names.insert(String::from("c"), 2);
    names.remove_id(1);
    assert_eq!(names.get(&String::from("a")), None);
    assert_eq!(names.get(&String::from("c")), Some(2));
}

#[test]
fn transport_errors_describe_themselves() {
    for (error, text) in [
        (TransportError::Failed, "the audio transport attempt has failed"),
        (
            TransportError::PartialCaptureFrame { bytes: 7 },
            "capture returned 7 bytes, not complete stereo frames",
        ),
        (
            TransportError::CaptureBlockTooLarge { maximum_frames: 2, actual_frames: 30 },
            "capture returned 30 frames; maximum is 2",
        ),
        (
            TransportError::SystemUnderflow { required_frames: 2, available_frames: 1 },
            "active System ingress has 1 frames; 2 are required",
        ),
        (TransportError::Engine(ProcessError { code: 1 }), "engine rejected the block: why"),
        (
            TransportError::Playback(TransportPlaybackError::Disconnected),
            "physical playback failed: Disconnected",
        ),
    ] {
        assert_eq!(error.message("why"), text);
    }
    assert_eq!(
        TransportBuildError::SystemCapacity { minimum_frames: 4, actual_frames: 3 }.message(""),
        "System FIFO capacity is 3 frames; at least 4 are required"
    );
    assert_eq!(
        TransportControlError::Profile(MixerProfileError { code: 1 }).message("why"),
        "invalid mixer profile: why"
    );
    assert_eq!(
        TransportControlError::Stage(StageError { code: 1 }).message("full"),
        "mixer controls were not staged: full"
    );
}
