//! Clock-bridge attempts and their workers, around a simulated rate engine.

use librewave_platform_linux::audio_host::clock_bridge::boundary::{
    GraphBoundary, GraphStage, PlaybackBoundary, PlaybackBoundaryStage,
};
use librewave_platform_linux::audio_host::clock_bridge::config::{
    ClockRateEstimatorConfig, RateMatchControllerConfig, RateMatchRatioBounds, RateMatcherConfig,
};
use librewave_platform_linux::audio_host::clock_bridge::errors::{
    MixerProfileError, ProcessError, RateMatchControllerError, RateMatchError, StageError,
};
use librewave_platform_linux::audio_host::clock_bridge::graph::GraphCycle;
use librewave_platform_linux::audio_host::clock_bridge::observation::{
    ClockAttemptEpoch, ClockFramePosition, ClockObservation, CopySlot, CopySlotError,
    MonotonicNanoseconds,
};
use librewave_platform_linux::audio_host::clock_bridge::parts::{
    BridgeBuffers, BridgeRings, MixerBuildFailure, PreparedEngine,
};
use librewave_platform_linux::audio_host::clock_bridge::rate::{
    EstimatorReading, RateCycle, RateFailure,
};
use librewave_platform_linux::audio_host::clock_bridge::spsc::{FrameRing, RingBuildError};
use librewave_platform_linux::audio_host::pcm::{
    decode_s24_3le, encode_s24_3le, PhysicalPcmParameters,
};
use librewave_platform_linux::audio_host::worker::capture::{
    CaptureAction, CaptureLoop, CaptureWorkerProgress, CaptureWorkerTerminal,
};
use librewave_platform_linux::audio_host::worker::playback::{
    monitor_mix_queued, PeriodSubmission, PlaybackAction, PlaybackLoop, PlaybackWorkerBoundary,
    PlaybackWorkerTerminal, SubmissionAction,
};
use librewave_platform_linux::audio_host::worker::status::{
    validate_capture_status, validate_playback_status, PcmExpectedState, PcmStatusError,
    PcmStatusSnapshot, PCM_STATE_DISCONNECTED, PCM_STATE_PREPARED, PCM_STATE_RUNNING,
    PCM_STATE_SUSPENDED, PCM_STATE_XRUN,
};
use librewave_platform_linux::audio_host::worker::{
    resume_after_activation, validate_worker_geometry, PcmIoError, PcmWait, TransientBudget,
    TransientKind, WorkerIoPolicy, WorkerIoPolicyError, WorkerPhase, WorkerResumeError,
    WorkerSignals, WorkerStartError,
};
use librewave_platform_linux::audio_host::{
    BridgeBuildError, BridgeClockDomain, BridgeControlError, BridgeError, BridgeState,
    CaptureClockObservation, CapturePublishReport, ClockBridgeConfig, ClockBridgeParts,
    DirectionBridgeConfig, GraphBoundaryDelivery, GraphClockObservation, GraphOutputBuffers,
    GraphProcessReport, GraphSystemInput, ObservationPublication, PackedS24Error,
    PlaybackBoundaryDelivery, PlaybackClockObservation, PlaybackPeriodSubmitter,
    PlaybackProcessReport, PlaybackSubmissionProgress, PlaybackWriteError, PcmDirection,
    Wave3PhysicalIoConfig,
};
use std::collections::VecDeque;

const MAXIMUM_QUANTUM: usize = 1_024;
const CAPTURE_PERIOD: usize = 1_024;
const CAPTURE_BUFFER: u32 = 8_192;
const PLAYBACK_PERIOD: usize = 256;
const PLAYBACK_BUFFER: u32 = 2_048;
const FIFO_CAPACITY: usize = 16_384;
const TARGET_FILL: usize = 8_192;
const STARTUP_GUARD: usize = 4_096;
const MAXIMUM_SKEW: u64 = 2_000_000_000;
const TICK: u64 = 1_000_000;
const CAPTURE_DELAY: usize = 300;
const PLAYBACK_DELAY: usize = 600;
const NOT_WARMED: RateMatchError = RateMatchError { code: 7 };

fn epoch() -> ClockAttemptEpoch {
    ClockAttemptEpoch { value: 19 }
}

fn clock(frames: u64, nanoseconds: u64) -> ClockObservation {
    ClockObservation {
        epoch: epoch(),
        frame_position: ClockFramePosition { frames },
        monotonic_time: MonotonicNanoseconds { nanoseconds },
    }
}

fn bounds() -> RateMatchRatioBounds {
    RateMatchRatioBounds {
        dependency_limit_bits: 2.0_f64.to_bits(),
        minimum_bits: 0.98_f64.to_bits(),
        maximum_bits: 1.02_f64.to_bits(),
    }
}

fn matcher(channels: usize, max_output_frames: usize) -> RateMatcherConfig {
    RateMatcherConfig { max_output_frames, channels, ratio_bounds: bounds() }
}

fn controller() -> RateMatchControllerConfig {
    RateMatchControllerConfig { target_fill_frames: TARGET_FILL, ratio_bounds: bounds() }
}

fn estimator() -> ClockRateEstimatorConfig {
    ClockRateEstimatorConfig {
        maximum_observation_skew_nanoseconds: MAXIMUM_SKEW,
        ratio_bounds: bounds(),
    }
}

fn direction(channels: usize, max_output_frames: usize) -> DirectionBridgeConfig {
    DirectionBridgeConfig::try_new(
        FIFO_CAPACITY,
        STARTUP_GUARD,
        matcher(channels, max_output_frames),
        controller(),
        estimator(),
    )
    .expect("direction")
}

fn physical() -> Wave3PhysicalIoConfig {
    Wave3PhysicalIoConfig::try_new(
        CAPTURE_PERIOD as u32,
        CAPTURE_BUFFER,
        PLAYBACK_PERIOD as u32,
        PLAYBACK_BUFFER,
    )
    .expect("physical geometry")
}

fn config() -> ClockBridgeConfig {
    ClockBridgeConfig::try_new(
        epoch(),
        MAXIMUM_QUANTUM,
        direction(1, MAXIMUM_QUANTUM),
        direction(2, PLAYBACK_PERIOD),
    )
    .expect("bridge config")
}

fn prepared() -> PreparedEngine {
    PreparedEngine {
        profile: Ok(()),
        capture_matcher: Ok(1_100),
        playback_matcher: Ok(280),
        capture_warm: Ok(CAPTURE_DELAY),
        playback_warm: Ok(PLAYBACK_DELAY),
        mixer: Ok(()),
    }
}

fn simulation_parts() -> ClockBridgeParts {
    ClockBridgeParts::new(physical(), prepared(), config()).expect("bridge")
}

fn packed_mono(frames: usize, sample: f32) -> Vec<u8> {
    let samples = vec![sample.to_bits(); frames];
    let mut bytes = vec![0; frames * 3];
    encode_s24_3le(&samples, 1, &mut bytes).expect("packed capture");
    bytes
}

/// Public output buffers for one boundary.
struct Outputs {
    channels: [Vec<u32>; 6],
}

impl Outputs {
    fn new(frames: usize) -> Self {
        Outputs { channels: [0; 6].map(|_: u32| vec![0x7f80_0000; frames]) }
    }

    fn buffers(&mut self) -> GraphOutputBuffers<'_> {
        let [microphone_left, microphone_right, monitor_left, monitor_right, stream_left, stream_right] =
            &mut self.channels;
        GraphOutputBuffers {
            microphone_left,
            microphone_right,
            monitor_left,
            monitor_right,
            stream_left,
            stream_right,
        }
    }
}

struct ExactWriter {
    calls: usize,
    bytes: Vec<u8>,
}

impl ExactWriter {
    fn new() -> Self {
        ExactWriter { calls: 0, bytes: Vec::new() }
    }
}

impl PlaybackPeriodSubmitter for ExactWriter {
    fn submit_packed_s24_3le(
        &mut self,
        complete_frame_count: usize,
        bytes: &[u8],
    ) -> Result<PlaybackSubmissionProgress, PlaybackWriteError> {
        self.calls += 1;
        self.bytes = bytes.to_vec();
        Ok(PlaybackSubmissionProgress { frames_submitted: complete_frame_count })
    }
}

struct FixedWriter {
    answer: Result<PlaybackSubmissionProgress, PlaybackWriteError>,
}

impl PlaybackPeriodSubmitter for FixedWriter {
    fn submit_packed_s24_3le(
        &mut self,
        _complete_frame_count: usize,
        _bytes: &[u8],
    ) -> Result<PlaybackSubmissionProgress, PlaybackWriteError> {
        self.answer
    }
}

/// One attempt with a rate engine of ratio one: an estimator measures after two
/// samples, a matcher asks for as many frames as it gives, and the mixer copies
/// the microphone and adds the System to the monitor and stream mixes.
struct Simulation {
    parts: ClockBridgeParts,
    now: u64,
    graph_position: u64,
    hardware_position: u64,
    capture_samples: u32,
    graph_samples: u32,
    capture_failure: Option<RateFailure>,
    playback_failure: Option<RateFailure>,
    capture_conversion: Result<(), RateMatchError>,
    playback_conversion: Result<(), RateMatchError>,
    mixed: Result<bool, ProcessError>,
    engine_commits: usize,
    engine_drops: usize,
    graph_boundaries: usize,
    playback_boundaries: usize,
}

fn measured(samples: u32) -> Option<u64> {
    if samples >= 2 {
        Some(1.0_f64.to_bits())
    } else {
        None
    }
}

impl Simulation {
    fn new() -> Self {
        Simulation {
            parts: simulation_parts(),
            now: TICK,
            graph_position: 0,
            hardware_position: 0,
            capture_samples: 0,
            graph_samples: 0,
            capture_failure: None,
            playback_failure: None,
            capture_conversion: Ok(()),
            playback_conversion: Ok(()),
            mixed: Ok(false),
            engine_commits: 0,
            engine_drops: 0,
            graph_boundaries: 0,
            playback_boundaries: 0,
        }
    }

    fn tick(&mut self) -> u64 {
        self.now += TICK;
        self.now
    }

    fn state(&self) -> BridgeState {
        self.parts.control.state(&self.parts.bridge)
    }

    fn capture_at(
        &mut self,
        hardware: u64,
        frames: usize,
        bytes: &[u8],
    ) -> Result<CapturePublishReport, BridgeError> {
        let time = self.tick();
        let parts = &mut self.parts;
        let read = parts.capture_ingress.record_completed_read(&mut parts.bridge, frames)?;
        read.publish(
            &mut parts.capture_ingress,
            &mut parts.bridge,
            CaptureClockObservation::new(clock(hardware, time)),
            bytes,
        )
    }

    fn capture(&mut self, frames: usize, sample: f32) -> Result<CapturePublishReport, BridgeError> {
        let end = self.parts.capture_ingress.worker_application_position() + frames as u64;
        self.capture_at(end, frames, &packed_mono(frames, sample))
    }

    fn reading(cycle: &RateCycle, samples: &mut u32) -> EstimatorReading {
        if cycle.input_clock.is_some() {
            *samples += 1;
            EstimatorReading::Previewed(Ok(measured(*samples)))
        } else {
            EstimatorReading::Committed {
                ratio: measured(*samples),
                latest_input: None,
                maximum_skew_nanoseconds: MAXIMUM_SKEW,
            }
        }
    }

    fn mix(&mut self, cycle: GraphCycle) {
        let samples = 2 * cycle.observation.quantum_frames();
        let graph = &mut self.parts.graph;
        for index in 0..samples {
            let microphone = f32::from_bits(graph.microphone_input[index]);
            let system = f32::from_bits(graph.system_input[index]);
            graph.microphone_output[index] = microphone.to_bits();
            graph.monitor_output[index] = (microphone + system).to_bits();
            graph.stream_output[index] = (microphone + system).to_bits();
        }
    }

    fn graph_at(
        &mut self,
        position: u64,
        quantum: usize,
        system: GraphSystemInput<'_>,
        outputs: &mut Outputs,
    ) -> Result<GraphProcessReport, BridgeError> {
        let time = self.tick();
        let observation =
            GraphClockObservation { clock: clock(position, time), quantum_frames: quantum };
        let lengths: Vec<usize> = outputs.channels.iter().map(Vec::len).collect();
        let parts = &mut self.parts;
        let mut boundary = GraphBoundary::begin(
            &mut parts.graph,
            &mut parts.bridge,
            observation,
            system,
            &lengths,
        )?;
        let cycle = boundary.cycle;
        let mut stage = boundary.stage;
        loop {
            let parts = &mut self.parts;
            stage = match stage {
                GraphStage::Estimating => {
                    let reading = Simulation::reading(&cycle.rate, &mut self.capture_samples);
                    boundary.on_estimate(&parts.graph, &mut parts.bridge, reading)
                }
                GraphStage::Preparing { .. } => {
                    let prepared = match self.capture_failure {
                        Some(failure) => Err(failure),
                        None => Ok(quantum),
                    };
                    boundary.on_prepared(&mut parts.graph, &mut parts.bridge, prepared)
                }
                GraphStage::Converting { input_frames, .. } => {
                    for index in 0..input_frames {
                        parts.graph.capture_matched[index] = parts.graph.capture_input[index];
                    }
                    let converted = self.capture_conversion;
                    boundary.on_converted(&mut parts.graph, &mut parts.bridge, converted)
                }
                GraphStage::Mixing { .. } => {
                    self.mix(cycle);
                    let mixed = self.mixed;
                    let parts = &mut self.parts;
                    boundary.on_mixed(
                        &mut parts.graph,
                        &mut parts.bridge,
                        mixed,
                        outputs.buffers(),
                    )
                }
                GraphStage::Committed { report } => {
                    self.engine_commits += 1;
                    self.graph_position = report.end_frame;
                    self.graph_boundaries += 1;
                    return Ok(report);
                }
                GraphStage::Abandoned { error } => {
                    self.engine_drops += 1;
                    return Err(error);
                }
            };
        }
    }

    fn graph(&mut self, quantum: usize) -> Result<GraphProcessReport, BridgeError> {
        let position = self.graph_position;
        self.graph_at(
            position,
            quantum,
            GraphSystemInput::unconnected(),
            &mut Outputs::new(quantum),
        )
    }

    fn playback_at<S: PlaybackPeriodSubmitter>(
        &mut self,
        observation: PlaybackClockObservation,
        writer: &mut S,
    ) -> Result<PlaybackProcessReport, BridgeError> {
        let parts = &mut self.parts;
        let mut boundary =
            PlaybackBoundary::begin(&parts.playback, &mut parts.bridge, observation)?;
        let mut stage = boundary.stage;
        loop {
            let parts = &mut self.parts;
            stage = match stage {
                PlaybackBoundaryStage::Estimating => {
                    let reading =
                        Simulation::reading(&boundary.cycle.rate, &mut self.graph_samples);
                    boundary.on_estimate(&parts.playback, &mut parts.bridge, reading)
                }
                PlaybackBoundaryStage::Preparing { .. } => {
                    let prepared = match self.playback_failure {
                        Some(failure) => Err(failure),
                        None => Ok(PLAYBACK_PERIOD),
                    };
                    boundary.on_prepared(&mut parts.playback, &mut parts.bridge, prepared)
                }
                PlaybackBoundaryStage::Converting { input_frames, .. } => {
                    for index in 0..2 * input_frames {
                        parts.playback.output[index] = parts.playback.input[index];
                    }
                    let converted = self.playback_conversion;
                    boundary.on_converted(&mut parts.playback, &mut parts.bridge, converted)
                }
                PlaybackBoundaryStage::Submitting { .. } => {
                    let answer = writer.submit_packed_s24_3le(
                        parts.playback.period_frames,
                        &parts.playback.encoded,
                    );
                    boundary.on_submitted(&mut parts.playback, &mut parts.bridge, answer)
                }
                PlaybackBoundaryStage::Committed { report } => {
                    self.engine_commits += 1;
                    self.playback_boundaries += 1;
                    self.hardware_position = report.application_end_frame;
                    return Ok(report);
                }
                PlaybackBoundaryStage::Abandoned { error } => {
                    self.engine_drops += 1;
                    return Err(error);
                }
            };
        }
    }

    fn playback<S: PlaybackPeriodSubmitter>(
        &mut self,
        writer: &mut S,
    ) -> Result<PlaybackProcessReport, BridgeError> {
        let time = self.tick();
        let observation = PlaybackClockObservation::new(
            clock(self.hardware_position, time),
            ClockFramePosition { frames: self.parts.playback.worker_application_position() },
        );
        self.playback_at(observation, writer)
    }

    fn start(&mut self) {
        self.parts.control.start_capture(&mut self.parts.bridge).expect("start capture");
        while self.state() == BridgeState::CapturePriming {
            self.capture(CAPTURE_PERIOD, 0.25).expect("capture publication");
        }
    }

    fn step(&mut self) {
        self.capture(PLAYBACK_PERIOD, 0.25).expect("capture publication");
        let report = self.graph(PLAYBACK_PERIOD).expect("graph boundary");
        assert_ne!(report.delivery, GraphBoundaryDelivery::Delivered);
    }

    fn prime(&mut self) {
        self.start();
        for _ in 0..FIFO_CAPACITY {
            match self.state() {
                BridgeState::CaptureFilterDelay
                | BridgeState::CaptureEstimatorPriming
                | BridgeState::PlaybackPriming => self.step(),
                BridgeState::PlaybackFilterDelay
                | BridgeState::PlaybackEstimatorPriming
                | BridgeState::PlaybackStabilizing => {
                    self.step();
                    self.playback(&mut ExactWriter::new()).expect("playback boundary");
                }
                BridgeState::Primed => return,
                state => panic!("unexpected priming state: {state:?}"),
            }
        }
        panic!("simulation did not reach Primed")
    }

    fn activate(&mut self) {
        self.prime();
        self.parts.control.activate(&mut self.parts.bridge).expect("activate");
    }
}

fn active() -> Simulation {
    let mut simulation = Simulation::new();
    simulation.activate();
    simulation
}

#[test]
fn bridge_uses_separate_mono_capture_and_stereo_playback_matchers() {
    let config = config();
    assert_eq!(config.capture.matcher.channels, 1);
    assert_eq!(config.playback.matcher.channels, 2);
    assert_eq!(
        ClockBridgeConfig::try_new(epoch(), 64, direction(2, 64), direction(2, 64)),
        Err(BridgeBuildError::MatcherChannels {
            domain: BridgeClockDomain::WaveCapture,
            expected: 1,
            actual: 2,
        })
    );
    assert_eq!(
        ClockBridgeConfig::try_new(epoch(), 64, direction(1, 64), direction(1, 64)),
        Err(BridgeBuildError::MatcherChannels {
            domain: BridgeClockDomain::WavePlayback,
            expected: 2,
            actual: 1,
        })
    );
}

#[test]
fn configuration_refusals_are_exact() {
    assert_eq!(
        ClockBridgeConfig::try_new(epoch(), 0, direction(1, 64), direction(2, 64)),
        Err(BridgeBuildError::ZeroMaximumGraphQuantum)
    );
    assert_eq!(
        ClockBridgeConfig::try_new(epoch(), 65, direction(1, 64), direction(2, 64)),
        Err(BridgeBuildError::MatcherOutputCapacity {
            domain: BridgeClockDomain::WaveCapture,
            required: 65,
            actual: 64,
        })
    );
    let try_new = |capacity, guard, matcher, controller, estimator| {
        DirectionBridgeConfig::try_new(capacity, guard, matcher, controller, estimator)
    };
    assert_eq!(
        try_new(0, 1, matcher(1, 64), controller(), estimator()),
        Err(BridgeBuildError::ZeroFifoCapacity)
    );
    let other = RateMatchRatioBounds { maximum_bits: 1.5_f64.to_bits(), ..bounds() };
    let wide = RateMatchControllerConfig { ratio_bounds: other, ..controller() };
    assert_eq!(
        try_new(FIFO_CAPACITY, 1, matcher(1, 64), wide, estimator()),
        Err(BridgeBuildError::RatioBoundsDiffer)
    );
    let wide = ClockRateEstimatorConfig { ratio_bounds: other, ..estimator() };
    assert_eq!(
        try_new(FIFO_CAPACITY, 1, matcher(1, 64), controller(), wide),
        Err(BridgeBuildError::EstimatorRatioBoundsDiffer)
    );
    for guard in [TARGET_FILL, FIFO_CAPACITY - TARGET_FILL + 1] {
        assert_eq!(
            try_new(FIFO_CAPACITY, guard, matcher(1, 64), controller(), estimator()),
            Err(BridgeBuildError::InvalidStartupGuard {
                target_fill_frames: TARGET_FILL,
                startup_guard_frames: guard,
                fifo_capacity_frames: FIFO_CAPACITY,
            })
        );
    }
    let direction = direction(1, 64);
    assert_eq!(direction.fifo_capacity_frames(), FIFO_CAPACITY);
    assert_eq!(direction.startup_guard_frames(), STARTUP_GUARD);
}

#[test]
fn build_refusals_follow_the_engine() {
    let build = |prepared| ClockBridgeParts::new(physical(), prepared, config()).map(|_| ());
    let error = MixerProfileError { code: 3 };
    assert_eq!(
        build(PreparedEngine { profile: Err(error), ..prepared() }),
        Err(BridgeBuildError::Profile(error))
    );
    assert_eq!(
        build(PreparedEngine { capture_matcher: Err(NOT_WARMED), ..prepared() }),
        Err(BridgeBuildError::RateMatcher {
            domain: BridgeClockDomain::WaveCapture,
            error: NOT_WARMED,
        })
    );
    assert_eq!(
        build(PreparedEngine { playback_warm: Err(NOT_WARMED), ..prepared() }),
        Err(BridgeBuildError::RateMatcher {
            domain: BridgeClockDomain::WavePlayback,
            error: NOT_WARMED,
        })
    );
    assert_eq!(
        build(PreparedEngine { capture_matcher: Ok(TARGET_FILL), ..prepared() }),
        Err(BridgeBuildError::FifoOperatingRange {
            domain: BridgeClockDomain::WaveCapture,
            minimum_fill: TARGET_FILL - STARTUP_GUARD,
            maximum_input_frames: TARGET_FILL,
        })
    );
    assert_eq!(
        build(PreparedEngine { mixer: Err(MixerBuildFailure::Config), ..prepared() }),
        Err(BridgeBuildError::EngineConfig)
    );
    assert_eq!(
        build(PreparedEngine { mixer: Err(MixerBuildFailure::Controls), ..prepared() }),
        Err(BridgeBuildError::ControlMapping)
    );
    assert_eq!(build(prepared()), Ok(()));
}

fn attempt_rings() -> BridgeRings {
    BridgeRings {
        capture: FrameRing::try_new(FIFO_CAPACITY).expect("capture FIFO"),
        playback: FrameRing::try_new(FIFO_CAPACITY).expect("playback FIFO"),
    }
}

fn attempt_buffers() -> BridgeBuffers {
    BridgeBuffers {
        decode: vec![0; CAPTURE_PERIOD],
        capture_input: vec![0; 1_100],
        capture_matched: vec![0; MAXIMUM_QUANTUM],
        microphone_input: vec![0; 2 * MAXIMUM_QUANTUM],
        system_input: vec![0; 2 * MAXIMUM_QUANTUM],
        microphone_output: vec![0; 2 * MAXIMUM_QUANTUM],
        monitor_output: vec![0; 2 * MAXIMUM_QUANTUM],
        stream_output: vec![0; 2 * MAXIMUM_QUANTUM],
        playback_input: vec![0; 2 * 280],
        playback_output: vec![0; 2 * PLAYBACK_PERIOD],
        encoded: vec![0; 6 * PLAYBACK_PERIOD],
    }
}

#[test]
fn each_allocation_outcome_of_an_attempt_has_its_result() {
    let assemble = |mixer, rings, buffers| {
        let prepared = PreparedEngine { mixer, ..prepared() };
        ClockBridgeParts::assemble(physical(), prepared, config(), rings, buffers)
            .map(|parts| parts.control.state(&parts.bridge))
    };
    let no_ring = || Err(RingBuildError::Allocation);
    let refused = Err(MixerBuildFailure::Controls);
    assert_eq!(
        assemble(Ok(()), Ok(attempt_rings()), Some(attempt_buffers())),
        Ok(BridgeState::Allocated)
    );
    assert_eq!(
        assemble(Ok(()), Ok(attempt_rings()), None),
        Err(BridgeBuildError::Allocation)
    );
    assert_eq!(
        assemble(refused, Ok(attempt_rings()), None),
        Err(BridgeBuildError::ControlMapping)
    );
    assert_eq!(
        assemble(refused, no_ring(), Some(attempt_buffers())),
        Err(BridgeBuildError::Allocation)
    );
}

#[test]
fn startup_discards_only_complete_preflight_boundaries() {
    let mut simulation = Simulation::new();
    simulation.prime();
    assert_eq!(simulation.state(), BridgeState::Primed);
    assert!(simulation.graph_boundaries > 0);
    assert!(simulation.playback_boundaries > 0);
    assert_eq!(simulation.parts.bridge.attempt.capture_delay_remaining, 0);
    assert_eq!(simulation.parts.bridge.attempt.playback_delay_remaining, 0);

    simulation.parts.bridge.attempt.playback_in_flight = 1;
    assert_eq!(
        simulation.parts.control.activate(&mut simulation.parts.bridge),
        Err(BridgeError::ActivationNotQuiescent { capture: 0, graph: 0, playback: 1 })
    );
    assert_eq!(simulation.state(), BridgeState::Primed);
    simulation.parts.bridge.attempt.playback_in_flight = 0;
    simulation.parts.control.activate(&mut simulation.parts.bridge).expect("active delivery");
    simulation.capture(PLAYBACK_PERIOD, 0.25).expect("capture");
    let graph_report = simulation.graph(PLAYBACK_PERIOD).expect("active graph boundary");
    assert_eq!(graph_report.delivery, GraphBoundaryDelivery::Delivered);
    let mut writer = ExactWriter::new();
    let playback_report = simulation.playback(&mut writer).expect("active playback boundary");
    assert_eq!(playback_report.delivery, PlaybackBoundaryDelivery::SubmittedActive);
    assert_eq!(writer.calls, 1);
}

#[test]
fn filter_delay_uses_exact_nominal_boundaries_without_controller_history() {
    let mut simulation = Simulation::new();
    simulation.start();
    let mut capture_boundaries = 0;
    while simulation.state() == BridgeState::CaptureFilterDelay {
        simulation.step();
        capture_boundaries += 1;
    }
    assert_eq!(capture_boundaries, CAPTURE_DELAY.div_ceil(PLAYBACK_PERIOD));
    while simulation.state() != BridgeState::PlaybackFilterDelay {
        simulation.step();
    }
    let mut playback_boundaries = 0;
    let mut writer = ExactWriter::new();
    while simulation.state() == BridgeState::PlaybackFilterDelay {
        simulation.step();
        let report = simulation.playback(&mut writer).expect("playback delay boundary");
        assert_eq!(report.delivery, PlaybackBoundaryDelivery::DiscardedFilterDelay);
        playback_boundaries += 1;
    }
    assert_eq!(playback_boundaries, PLAYBACK_DELAY.div_ceil(PLAYBACK_PERIOD));
    assert_eq!(writer.calls, 0);
    assert_eq!(simulation.parts.playback.worker_application_position(), 0);
    assert_eq!(simulation.state(), BridgeState::PlaybackEstimatorPriming);
}

#[test]
fn primed_gate_uses_quiescent_published_cursor_sequences() {
    let mut simulation = Simulation::new();
    simulation.start();
    while simulation.state() != BridgeState::PlaybackFilterDelay {
        simulation.step();
    }
    while simulation.state() != BridgeState::PlaybackStabilizing {
        simulation.step();
        simulation.playback(&mut ExactWriter::new()).expect("playback boundary");
    }

    simulation.parts.bridge.attempt.state = BridgeState::PrimingCheck;
    let capture_fill = simulation.parts.bridge.capture_ring.available_frames();
    let playback_fill = simulation.parts.bridge.playback_ring.available_frames();
    assert_eq!(
        simulation.capture(PLAYBACK_PERIOD, 0.25),
        Err(BridgeError::State { actual: BridgeState::PrimingCheck })
    );
    assert_eq!(
        simulation.graph(PLAYBACK_PERIOD),
        Err(BridgeError::State { actual: BridgeState::PrimingCheck })
    );
    assert_eq!(simulation.parts.bridge.capture_ring.available_frames(), capture_fill);
    assert_eq!(simulation.parts.bridge.playback_ring.available_frames(), playback_fill);
    simulation.parts.bridge.attempt.state = BridgeState::PlaybackStabilizing;

    simulation.step();
    simulation.parts.bridge.attempt.graph_in_flight = 1;
    simulation.playback(&mut ExactWriter::new()).expect("boundary with graph owner present");
    assert_eq!(simulation.state(), BridgeState::PlaybackStabilizing);
    simulation.parts.bridge.attempt.graph_in_flight = 0;

    let upper_guard = TARGET_FILL + STARTUP_GUARD;
    while simulation.parts.bridge.capture_ring.available_frames().expect("fill") <= upper_guard {
        simulation.capture(CAPTURE_PERIOD, 0.25).expect("capture");
    }
    simulation.playback(&mut ExactWriter::new()).expect("boundary with high capture fill");
    assert_eq!(simulation.state(), BridgeState::PlaybackStabilizing);
}

#[test]
fn mono_capture_is_duplicated_and_playback_order_is_deterministic() {
    fn one_run() -> (Vec<u32>, Vec<u32>, Vec<u8>) {
        let mut simulation = active();
        simulation.capture(PLAYBACK_PERIOD, 0.375).expect("capture");
        let mut outputs = Outputs::new(PLAYBACK_PERIOD);
        let position = simulation.graph_position;
        simulation
            .graph_at(position, PLAYBACK_PERIOD, GraphSystemInput::unconnected(), &mut outputs)
            .expect("active graph");
        let mut writer = ExactWriter::new();
        simulation.playback(&mut writer).expect("active playback");
        (outputs.channels[0].clone(), outputs.channels[1].clone(), writer.bytes)
    }

    let first = one_run();
    let second = one_run();
    assert_eq!(first, second);
    assert_eq!(first.0, first.1, "mono capture must duplicate to both graph channels");
    assert!(first.0.iter().any(|sample| f32::from_bits(*sample).abs() > 0.01));
    let mut playback = vec![0; PLAYBACK_PERIOD * 2];
    decode_s24_3le(&first.2, 2, &mut playback).expect("decode playback");
    assert!(playback.chunks_exact(2).all(|frame| frame[0] == frame[1]));
}

#[test]
fn connected_system_requires_complete_finite_graph_time_buffers() {
    let mut simulation = active();
    simulation.capture(PLAYBACK_PERIOD, 0.25).expect("capture");
    let mut left = vec![0.0_f32.to_bits(); PLAYBACK_PERIOD];
    let right = left.clone();
    left[17] = f32::NAN.to_bits();
    let mut outputs = Outputs::new(PLAYBACK_PERIOD);
    let position = simulation.graph_position;
    assert_eq!(
        simulation.graph_at(
            position,
            PLAYBACK_PERIOD,
            GraphSystemInput::connected(&left, &right),
            &mut outputs,
        ),
        Err(BridgeError::NonFinite { domain: BridgeClockDomain::PipeWireGraph, sample_index: 34 })
    );
    assert_eq!(simulation.state(), BridgeState::Faulted);

    let mut simulation = active();
    simulation.capture(PLAYBACK_PERIOD, 0.25).expect("capture");
    assert_eq!(
        simulation.graph_at(
            position,
            PLAYBACK_PERIOD,
            GraphSystemInput::from_raw(true, Some(&left), None),
            &mut outputs,
        ),
        Err(BridgeError::MissingSystemBuffer)
    );

    let mut simulation = active();
    assert_eq!(
        simulation.graph_at(
            position,
            PLAYBACK_PERIOD,
            GraphSystemInput::connected(&right[..9], &right),
            &mut outputs,
        ),
        Err(BridgeError::SystemLength { expected: PLAYBACK_PERIOD, left: 9, right: PLAYBACK_PERIOD })
    );
}

#[test]
fn system_samples_reach_the_mixes_in_order() {
    let mut simulation = active();
    simulation.capture(PLAYBACK_PERIOD, 0.0).expect("capture");
    while simulation.parts.bridge.capture_ring.available_frames() != Ok(PLAYBACK_PERIOD) {
        simulation.graph(PLAYBACK_PERIOD).expect("drain capture");
        simulation.playback(&mut ExactWriter::new()).expect("drain playback");
    }
    let left: Vec<u32> = (0..PLAYBACK_PERIOD).map(|i| (i as f32 / 512.0).to_bits()).collect();
    let right: Vec<u32> = (0..PLAYBACK_PERIOD).map(|i| (-(i as f32) / 512.0).to_bits()).collect();
    let mut outputs = Outputs::new(PLAYBACK_PERIOD);
    let position = simulation.graph_position;
    simulation
        .graph_at(
            position,
            PLAYBACK_PERIOD,
            GraphSystemInput::connected(&left, &right),
            &mut outputs,
        )
        .expect("connected boundary");
    for index in 0..PLAYBACK_PERIOD {
        assert_eq!(f32::from_bits(outputs.channels[2][index]), index as f32 / 512.0);
        assert_eq!(f32::from_bits(outputs.channels[3][index]), -(index as f32) / 512.0);
        assert_eq!(f32::from_bits(outputs.channels[0][index]), 0.0);
    }
}

#[test]
fn each_clock_domain_faults_its_own_discontinuity_and_overflow() {
    let one = packed_mono(1, 0.0);
    let mut simulation = Simulation::new();
    simulation.parts.control.start_capture(&mut simulation.parts.bridge).expect("start");
    simulation.capture_at(10, 1, &one).expect("first capture position");
    assert_eq!(
        simulation.capture_at(9, 1, &one),
        Err(BridgeError::Discontinuity {
            domain: BridgeClockDomain::WaveCapture,
            expected: 10,
            actual: 9,
        })
    );

    let mut simulation = Simulation::new();
    simulation.parts.control.start_capture(&mut simulation.parts.bridge).expect("start");
    simulation.parts.capture_ingress.application_position = u64::MAX;
    assert!(matches!(
        simulation.capture_at(u64::MAX, 1, &one),
        Err(BridgeError::PositionOverflow { domain: BridgeClockDomain::WaveCapture, .. })
    ));

    let mut simulation = active();
    simulation.capture(PLAYBACK_PERIOD, 0.25).expect("capture");
    let position = simulation.graph_position + 1;
    assert_eq!(
        simulation.graph_at(
            position,
            PLAYBACK_PERIOD,
            GraphSystemInput::unconnected(),
            &mut Outputs::new(PLAYBACK_PERIOD),
        ),
        Err(BridgeError::Discontinuity {
            domain: BridgeClockDomain::PipeWireGraph,
            expected: position - 1,
            actual: position,
        })
    );

    let mut simulation = active();
    let application = simulation.parts.playback.worker_application_position();
    let behind = PlaybackClockObservation::new(
        clock(0, simulation.now + TICK),
        ClockFramePosition { frames: application },
    );
    assert!(matches!(
        simulation.playback_at(behind, &mut ExactWriter::new()),
        Err(BridgeError::Discontinuity { domain: BridgeClockDomain::WavePlayback, .. })
    ));
    assert_eq!(simulation.state(), BridgeState::Faulted);
}

#[test]
fn clock_samples_are_held_to_their_attempt_and_position() {
    let mut simulation = active();
    let application = simulation.parts.playback.worker_application_position();
    let time = simulation.now + TICK;
    let wrong = PlaybackClockObservation::new(
        clock(application, time),
        ClockFramePosition { frames: application + 1 },
    );
    assert_eq!(
        simulation.playback_at(wrong, &mut ExactWriter::new()),
        Err(BridgeError::PlaybackApplicationPosition {
            expected: application,
            actual: application + 1,
        })
    );
    let mut simulation = active();
    let ahead = PlaybackClockObservation::new(
        clock(application + 1, time),
        ClockFramePosition { frames: application },
    );
    assert_eq!(
        simulation.playback_at(ahead, &mut ExactWriter::new()),
        Err(BridgeError::PlaybackHardwareAhead { hardware: application + 1, application })
    );
    let mut simulation = active();
    let mut foreign = clock(application, time);
    foreign.epoch = ClockAttemptEpoch { value: 20 };
    let foreign =
        PlaybackClockObservation::new(foreign, ClockFramePosition { frames: application });
    assert_eq!(
        simulation.playback_at(foreign, &mut ExactWriter::new()),
        Err(BridgeError::ObservationEpoch {
            domain: BridgeClockDomain::WavePlayback,
            expected: epoch(),
            actual: ClockAttemptEpoch { value: 20 },
        })
    );
    let mut simulation = active();
    simulation.playback(&mut ExactWriter::new()).expect("boundary");
    simulation.hardware_position -= PLAYBACK_PERIOD as u64;
    assert_eq!(
        simulation.playback(&mut ExactWriter::new()),
        Err(BridgeError::RepeatedClockObservation { domain: BridgeClockDomain::WavePlayback })
    );
    let mut simulation = Simulation::new();
    simulation.parts.control.start_capture(&mut simulation.parts.bridge).expect("start");
    assert_eq!(
        simulation.capture_at(4, 5, &packed_mono(5, 0.0)),
        Err(BridgeError::CaptureHardwareBehindApplication { hardware: 4, application: 5 })
    );
    let mut simulation = Simulation::new();
    simulation.parts.control.start_capture(&mut simulation.parts.bridge).expect("start");
    assert_eq!(
        simulation.capture_at(5, 5, &packed_mono(4, 0.0)),
        Err(BridgeError::FrameCountMismatch {
            domain: BridgeClockDomain::WaveCapture,
            declared: 5,
            encoded: 4,
        })
    );
    let mut simulation = Simulation::new();
    simulation.parts.control.start_capture(&mut simulation.parts.bridge).expect("start");
    assert_eq!(
        simulation.capture_at(5, 5, &[0; 14]),
        Err(BridgeError::Packed(PackedS24Error::PartialSample { bytes: 14 }))
    );
}

#[test]
fn capture_and_playback_shortage_and_fifo_overflow_are_terminal() {
    let mut simulation = Simulation::new();
    simulation.parts.control.start_capture(&mut simulation.parts.bridge).expect("start");
    while simulation.parts.bridge.capture_ring.free_frames().expect("free") > 0 {
        let free = simulation.parts.bridge.capture_ring.free_frames().expect("free");
        simulation.capture(free.min(CAPTURE_PERIOD), 0.0).expect("capture");
    }
    assert!(matches!(
        simulation.capture(1, 0.0),
        Err(BridgeError::Overflow { domain: BridgeClockDomain::WaveCapture, .. })
    ));
    assert_eq!(simulation.state(), BridgeState::Faulted);

    let mut simulation = active();
    let capture_shortage = loop {
        match simulation.graph(PLAYBACK_PERIOD) {
            Ok(_) => {
                simulation.playback(&mut ExactWriter::new()).expect("drain playback");
            }
            Err(error) => break error,
        }
    };
    assert!(matches!(
        capture_shortage,
        BridgeError::Shortage { domain: BridgeClockDomain::WaveCapture, .. }
    ));

    let mut simulation = active();
    let playback_shortage = loop {
        if let Err(error) = simulation.playback(&mut ExactWriter::new()) {
            break error;
        }
    };
    assert!(matches!(
        playback_shortage,
        BridgeError::Shortage { domain: BridgeClockDomain::WavePlayback, .. }
    ));

    let mut simulation = Simulation::new();
    simulation.start();
    let playback_overflow = loop {
        simulation.capture(PLAYBACK_PERIOD, 0.0).expect("capture");
        if let Err(error) = simulation.graph(PLAYBACK_PERIOD) {
            break error;
        }
    };
    assert!(matches!(
        playback_overflow,
        BridgeError::Overflow { domain: BridgeClockDomain::WavePlayback, .. }
    ));
}

#[test]
fn failed_asrc_and_writer_boundaries_do_not_commit_controllers_or_fifos() {
    let mut simulation = active();
    simulation.capture(PLAYBACK_PERIOD, 0.25).expect("capture");
    let capture_fill = simulation.parts.bridge.capture_ring.available_frames();
    let commits = simulation.engine_commits;
    simulation.capture_failure = Some(RateFailure::Matcher(NOT_WARMED));
    assert_eq!(
        simulation.graph(PLAYBACK_PERIOD),
        Err(BridgeError::Asrc { domain: BridgeClockDomain::WaveCapture, error: NOT_WARMED })
    );
    assert_eq!((simulation.engine_commits, simulation.engine_drops), (commits, 1));
    assert_eq!(simulation.parts.bridge.capture_ring.available_frames(), capture_fill);

    let mut simulation = active();
    let playback_fill = simulation.parts.bridge.playback_ring.available_frames();
    let commits = simulation.engine_commits;
    simulation.playback_failure = Some(RateFailure::Matcher(NOT_WARMED));
    assert_eq!(
        simulation.playback(&mut ExactWriter::new()),
        Err(BridgeError::Asrc { domain: BridgeClockDomain::WavePlayback, error: NOT_WARMED })
    );
    assert_eq!((simulation.engine_commits, simulation.engine_drops), (commits, 1));
    assert_eq!(simulation.parts.bridge.playback_ring.available_frames(), playback_fill);

    let mut simulation = active();
    let playback_fill = simulation.parts.bridge.playback_ring.available_frames();
    let position = simulation.parts.playback.worker_application_position();
    let commits = simulation.engine_commits;
    let failed = PlaybackWriteError::Failed { accepted_frames: 0, errno: 5 };
    assert_eq!(
        simulation.playback(&mut FixedWriter { answer: Err(failed) }),
        Err(BridgeError::Playback(failed))
    );
    assert_eq!((simulation.engine_commits, simulation.engine_drops), (commits, 1));
    assert_eq!(simulation.parts.bridge.playback_ring.available_frames(), playback_fill);
    assert_eq!(simulation.parts.playback.worker_application_position(), position);
    assert_eq!(simulation.state(), BridgeState::Faulted);

    let mut simulation = active();
    let short = PlaybackSubmissionProgress { frames_submitted: PLAYBACK_PERIOD - 1 };
    assert_eq!(
        simulation.playback(&mut FixedWriter { answer: Ok(short) }),
        Err(BridgeError::PlaybackSubmission {
            expected_frames: PLAYBACK_PERIOD,
            actual_frames: PLAYBACK_PERIOD - 1,
        })
    );
    assert_eq!(simulation.state(), BridgeState::Faulted);
    assert_eq!(
        simulation.parts.playback.worker_application_position(),
        position + PLAYBACK_PERIOD as u64 - 1
    );
}

#[test]
fn a_stop_before_the_first_frame_leaves_the_attempt_usable() {
    let mut simulation = active();
    let stopped = PlaybackWriteError::Stopped { accepted_frames: 0 };
    assert_eq!(
        simulation.playback(&mut FixedWriter { answer: Err(stopped) }),
        Err(BridgeError::Playback(stopped))
    );
    assert_eq!(simulation.state(), BridgeState::Active);
    let partly = PlaybackWriteError::Stopped { accepted_frames: 3 };
    let mut simulation = active();
    assert_eq!(
        simulation.playback(&mut FixedWriter { answer: Err(partly) }),
        Err(BridgeError::Playback(partly))
    );
    assert_eq!(simulation.state(), BridgeState::Faulted);
}

#[test]
fn a_failed_conversion_or_mix_commits_nothing() {
    let asrc = |domain| BridgeError::Asrc { domain, error: NOT_WARMED };
    for (converted, mixed, expected) in [
        (Err(NOT_WARMED), Ok(false), asrc(BridgeClockDomain::WaveCapture)),
        (
            Ok(()),
            Err(ProcessError { code: 2 }),
            BridgeError::Engine(ProcessError { code: 2 }),
        ),
    ] {
        let mut simulation = active();
        simulation.capture(PLAYBACK_PERIOD, 0.25).expect("capture");
        let capture_fill = simulation.parts.bridge.capture_ring.available_frames();
        let playback_fill = simulation.parts.bridge.playback_ring.available_frames();
        let commits = simulation.engine_commits;
        simulation.capture_conversion = converted;
        simulation.mixed = mixed;
        let mut outputs = Outputs::new(PLAYBACK_PERIOD);
        let position = simulation.graph_position;
        assert_eq!(
            simulation.graph_at(
                position,
                PLAYBACK_PERIOD,
                GraphSystemInput::unconnected(),
                &mut outputs,
            ),
            Err(expected)
        );
        assert_eq!((simulation.engine_commits, simulation.engine_drops), (commits, 1));
        assert_eq!(simulation.parts.bridge.capture_ring.available_frames(), capture_fill);
        assert_eq!(simulation.parts.bridge.playback_ring.available_frames(), playback_fill);
        assert_eq!(outputs.channels[0][0], 0x7f80_0000);
        assert_eq!(simulation.state(), BridgeState::Faulted);
    }
    let mut simulation = active();
    simulation.playback_conversion = Err(NOT_WARMED);
    let playback_fill = simulation.parts.bridge.playback_ring.available_frames();
    assert_eq!(
        simulation.playback(&mut ExactWriter::new()),
        Err(asrc(BridgeClockDomain::WavePlayback))
    );
    assert_eq!(simulation.parts.bridge.playback_ring.available_frames(), playback_fill);
}

#[test]
fn a_mixer_update_is_reported_with_its_boundary() {
    let mut simulation = active();
    simulation.capture(PLAYBACK_PERIOD, 0.25).expect("capture");
    simulation.mixed = Ok(true);
    assert!(simulation.graph(PLAYBACK_PERIOD).expect("boundary").control_update_applied);
}

#[test]
fn an_active_boundary_needs_a_fresh_measured_ratio() {
    let mut simulation = active();
    let time = simulation.now + TICK;
    let observation = GraphClockObservation {
        clock: clock(simulation.graph_position, time),
        quantum_frames: PLAYBACK_PERIOD,
    };
    let parts = &mut simulation.parts;
    let lengths = [PLAYBACK_PERIOD; 6];
    let cycle = parts
        .graph
        .begin(&mut parts.bridge, observation, GraphSystemInput::unconnected(), &lengths)
        .expect("begin");
    assert!(cycle.rate.input_clock.is_none());
    let stale = EstimatorReading::Committed {
        ratio: Some(1.0_f64.to_bits()),
        latest_input: Some(clock(0, time + 11)),
        maximum_skew_nanoseconds: 10,
    };
    assert!(matches!(
        cycle.rate.estimate(&mut parts.bridge, stale),
        Err(BridgeError::Estimator { domain: BridgeClockDomain::WaveCapture, .. })
    ));

    let mut simulation = active();
    let parts = &mut simulation.parts;
    let cycle = parts
        .graph
        .begin(&mut parts.bridge, observation, GraphSystemInput::unconnected(), &lengths)
        .expect("begin");
    let unmeasured = EstimatorReading::Committed {
        ratio: None,
        latest_input: None,
        maximum_skew_nanoseconds: 10,
    };
    assert_eq!(
        cycle.rate.estimate(&mut parts.bridge, unmeasured),
        Err(BridgeError::ObservationUnavailable { domain: BridgeClockDomain::WaveCapture })
    );
}

#[test]
fn invalid_graph_quantum_is_terminal_before_processing() {
    let mut simulation = Simulation::new();
    simulation.start();
    assert_eq!(
        simulation.graph_at(0, 0, GraphSystemInput::unconnected(), &mut Outputs::new(0)),
        Err(BridgeError::InvalidQuantum { actual: 0, maximum: MAXIMUM_QUANTUM })
    );
    assert_eq!(simulation.state(), BridgeState::Faulted);
    let mut simulation = Simulation::new();
    simulation.start();
    assert_eq!(
        simulation.graph_at(0, 64, GraphSystemInput::unconnected(), &mut Outputs::new(63)),
        Err(BridgeError::OutputLength { expected: 64, actual: 63 })
    );
}

#[test]
fn one_attempt_keeps_its_first_quantum() {
    let mut simulation = active();
    simulation.capture(PLAYBACK_PERIOD, 0.25).expect("capture");
    assert_eq!(
        simulation.graph(128),
        Err(BridgeError::FixedQuantumChanged { expected: PLAYBACK_PERIOD, actual: 128 })
    );
    for quantum in 64..=MAXIMUM_QUANTUM {
        let mut simulation = Simulation::new();
        simulation.start();
        let report = simulation.graph(quantum).expect("first boundary");
        assert_eq!((report.frames, report.capture_input_frames), (quantum, quantum));
        let report = simulation.graph(quantum).expect("second boundary");
        assert_eq!(report.end_frame, 2 * quantum as u64);
    }
}

#[test]
fn controller_arithmetic_failure_is_terminal() {
    let mut simulation = Simulation::new();
    simulation.start();
    while simulation.state() != BridgeState::PlaybackPriming {
        simulation.step();
    }
    let error = RateMatchControllerError { code: 1 };
    simulation.capture_failure = Some(RateFailure::Controller(error));
    assert_eq!(
        simulation.graph(PLAYBACK_PERIOD),
        Err(BridgeError::Controller { domain: BridgeClockDomain::WaveCapture, error })
    );
    assert_eq!(simulation.state(), BridgeState::Faulted);
    assert_eq!(simulation.graph(PLAYBACK_PERIOD), Err(BridgeError::AttemptFaulted));
}

#[test]
fn teardown_finishes_only_after_in_flight_worker_quiescence() {
    let mut simulation = active();
    let time = simulation.tick();
    let application = simulation.parts.playback.worker_application_position();
    let observation = PlaybackClockObservation::new(
        clock(simulation.hardware_position, time),
        ClockFramePosition { frames: application },
    );
    let parts = &mut simulation.parts;
    let cycle = parts.playback.begin(&mut parts.bridge, observation).expect("begin");
    let reading = Simulation::reading(&cycle.rate, &mut simulation.graph_samples);
    let request = cycle.rate.estimate(&mut parts.bridge, reading).expect("estimate");
    parts
        .playback
        .take_input(&mut parts.bridge, cycle, Ok(PLAYBACK_PERIOD))
        .expect("input");
    parts.playback.encode_period(&mut parts.bridge, Ok(())).expect("encode");
    parts.control.begin_teardown(&mut parts.bridge);
    assert_eq!(
        parts.control.finish_teardown(&mut parts.bridge),
        Err(BridgeError::TeardownNotQuiescent { capture: 0, graph: 0, playback: 1 })
    );
    assert!(parts
        .playback
        .submit(&mut parts.bridge, cycle, request, &mut ExactWriter::new())
        .is_ok());
    parts.control.finish_teardown(&mut parts.bridge).expect("quiescent teardown");
    assert_eq!(simulation.state(), BridgeState::Stopped);
    simulation.parts.control.begin_teardown(&mut simulation.parts.bridge);
    assert_eq!(simulation.state(), BridgeState::Stopped);
}

#[test]
fn profiles_are_checked_before_they_are_staged() {
    let control = simulation_parts().control;
    let profile = MixerProfileError { code: 1 };
    let stage = StageError { code: 2 };
    assert_eq!(
        control.try_stage_profile(Err(profile), Err(stage)),
        Err(BridgeControlError::Profile(profile))
    );
    assert_eq!(
        control.try_stage_profile(Ok(()), Err(stage)),
        Err(BridgeControlError::Stage(stage))
    );
    assert_eq!(control.try_stage_profile(Ok(()), Ok(())), Ok(()));
}

#[test]
fn bridge_states_have_stable_numbers() {
    assert_eq!(BridgeState::from_raw(0), BridgeState::Allocated);
    assert_eq!(BridgeState::from_raw(9), BridgeState::Primed);
    assert_eq!(BridgeState::from_raw(13), BridgeState::Stopped);
    assert_eq!(BridgeState::from_raw(200), BridgeState::Stopped);
    assert_eq!(WorkerPhase::from_raw(2), WorkerPhase::PrimedParked);
    assert_eq!(WorkerPhase::from_raw(9), WorkerPhase::Terminal);
}

// The workers.

#[derive(Clone, Copy, Debug, Eq, PartialEq)]
enum FakeCall {
    CaptureStart,
    CaptureWait,
    CaptureRead { buffer_bytes: usize },
    CaptureStatus,
    PlaybackWait,
    PlaybackWrite { bytes: usize },
    PlaybackStatus,
    PlaybackStart,
    DropStream,
}

fn policy(retry_limit: u32) -> WorkerIoPolicy {
    WorkerIoPolicy::try_new(1, retry_limit).expect("worker policy")
}

fn small_physical() -> Wave3PhysicalIoConfig {
    Wave3PhysicalIoConfig::try_new(5, 32, 3, 24).expect("small physical geometry")
}

fn capture_geometry() -> PhysicalPcmParameters {
    small_physical().parameters(PcmDirection::Capture)
}

fn playback_geometry() -> PhysicalPcmParameters {
    small_physical().parameters(PcmDirection::Playback)
}

fn capture_status(
    timestamp_seconds: i64,
    timestamp_nanoseconds: i64,
    available_frames: i64,
    delay_frames: i64,
) -> PcmStatusSnapshot {
    PcmStatusSnapshot {
        timestamp_seconds,
        timestamp_nanoseconds,
        available_frames,
        delay_frames,
        state_raw: PCM_STATE_RUNNING,
        geometry: capture_geometry(),
    }
}

fn playback_status(
    timestamp_seconds: i64,
    timestamp_nanoseconds: i64,
    available_frames: i64,
    delay_frames: i64,
    state_raw: i32,
) -> PcmStatusSnapshot {
    PcmStatusSnapshot {
        timestamp_seconds,
        timestamp_nanoseconds,
        available_frames,
        delay_frames,
        state_raw,
        geometry: playback_geometry(),
    }
}

fn small_direction(channels: usize, maximum_output_frames: usize) -> DirectionBridgeConfig {
    DirectionBridgeConfig::try_new(
        512,
        32,
        matcher(channels, maximum_output_frames),
        RateMatchControllerConfig { target_fill_frames: 256, ratio_bounds: bounds() },
        estimator(),
    )
    .expect("small direction")
}

fn bridge_parts() -> ClockBridgeParts {
    let config =
        ClockBridgeConfig::try_new(epoch(), 4, small_direction(1, 4), small_direction(2, 3))
            .expect("small config");
    let prepared =
        PreparedEngine { capture_matcher: Ok(8), playback_matcher: Ok(8), ..prepared() };
    ClockBridgeParts::new(small_physical(), prepared, config).expect("bridge parts")
}

struct FakeCapturePcm {
    waits: VecDeque<Result<PcmWait, PcmIoError>>,
    reads: VecDeque<Result<usize, PcmIoError>>,
    statuses: VecDeque<Result<PcmStatusSnapshot, PcmIoError>>,
    calls: Vec<FakeCall>,
}

impl FakeCapturePcm {
    fn new(
        waits: &[Result<PcmWait, PcmIoError>],
        reads: &[Result<usize, PcmIoError>],
        statuses: &[Result<PcmStatusSnapshot, PcmIoError>],
    ) -> Self {
        FakeCapturePcm {
            waits: waits.iter().copied().collect(),
            reads: reads.iter().copied().collect(),
            statuses: statuses.iter().copied().collect(),
            calls: Vec::new(),
        }
    }
}

struct CaptureRun {
    parts: ClockBridgeParts,
    worker: CaptureLoop,
    signals: WorkerSignals,
    progress: CopySlot<CaptureWorkerProgress>,
    action: CaptureAction,
}

impl CaptureRun {
    fn start(mut parts: ClockBridgeParts, retry_limit: u32) -> Self {
        let ingress = std::mem::replace(&mut parts.capture_ingress, bridge_parts().capture_ingress);
        let geometry = if ingress.maximum_frames == CAPTURE_PERIOD {
            physical().parameters(PcmDirection::Capture)
        } else {
            capture_geometry()
        };
        let mut worker =
            CaptureLoop::new(ingress, geometry, policy(retry_limit)).expect("capture worker");
        let mut signals = WorkerSignals::new(epoch());
        let action = worker.begin(&mut parts.bridge, &mut signals);
        CaptureRun { parts, worker, signals, progress: CopySlot::new(), action }
    }

    /// Runs until the worker ends or parks. A fake without further waits asks the
    /// worker to stop.
    fn run(&mut self, pcm: &mut FakeCapturePcm) -> CaptureAction {
        loop {
            let bridge = &mut self.parts.bridge;
            let signals = &mut self.signals;
            self.action = match self.action {
                CaptureAction::Start => {
                    pcm.calls.push(FakeCall::CaptureStart);
                    self.worker.on_start(bridge, signals, Ok(()))
                }
                CaptureAction::Wait => {
                    pcm.calls.push(FakeCall::CaptureWait);
                    let waited = match pcm.waits.pop_front() {
                        Some(waited) => waited,
                        None => {
                            signals.request_stop();
                            Ok(PcmWait::TimedOut)
                        }
                    };
                    self.worker.on_wait(bridge, signals, waited)
                }
                CaptureAction::Read => {
                    let buffer_bytes = self.worker.bytes.len();
                    pcm.calls.push(FakeCall::CaptureRead { buffer_bytes });
                    let read =
                        pcm.reads.pop_front().unwrap_or(Err(PcmIoError::Failed { errno: 5 }));
                    if let Ok(frames) = read {
                        for index in 0..frames * 3 {
                            self.worker.bytes[index] = (index % 251) as u8;
                        }
                    }
                    self.worker.on_read(bridge, signals, read)
                }
                CaptureAction::ReadStatus => {
                    pcm.calls.push(FakeCall::CaptureStatus);
                    let status = pcm.statuses.pop_front().unwrap_or(Err(PcmIoError::Again));
                    self.worker.on_status(bridge, signals, status, &mut self.progress)
                }
                CaptureAction::Recheck => self.worker.on_recheck(bridge, signals),
                CaptureAction::Park => return self.action,
                CaptureAction::Finish(_) => {
                    pcm.calls.push(FakeCall::DropStream);
                    return self.action;
                }
            };
        }
    }

    fn state(&self) -> BridgeState {
        self.parts.control.state(&self.parts.bridge)
    }
}

fn started_capture(retry_limit: u32) -> CaptureRun {
    let mut parts = bridge_parts();
    parts.control.start_capture(&mut parts.bridge).expect("capture-first bridge start");
    CaptureRun::start(parts, retry_limit)
}

#[test]
fn a_worker_without_its_bytes_is_not_built() {
    let ingress = || bridge_parts().capture_ingress;
    assert_eq!(
        CaptureLoop::from_bytes(ingress(), capture_geometry(), policy(2), None).map(|_| ()),
        Err(WorkerStartError::BufferAllocation)
    );
    let length = 3 * capture_geometry().period_frames as usize;
    let worker =
        CaptureLoop::from_bytes(ingress(), capture_geometry(), policy(2), Some(vec![0; length]))
            .expect("capture worker");
    assert_eq!(worker.bytes.len(), length);
}

#[test]
fn a_stopped_worker_does_not_park_behind_a_completed_read() {
    for (stopped, expected) in [
        (false, CaptureAction::Park),
        (true, CaptureAction::Finish(CaptureWorkerTerminal::Stopped)),
    ] {
        let mut run = started_capture(2);
        let bridge = &mut run.parts.bridge;
        let signals = &mut run.signals;
        assert_eq!(run.worker.on_start(bridge, signals, Ok(())), CaptureAction::Wait);
        assert_eq!(run.worker.on_wait(bridge, signals, Ok(PcmWait::Ready)), CaptureAction::Read);
        bridge.attempt.state = BridgeState::PrimingCheck;
        assert_eq!(run.worker.on_read(bridge, signals, Ok(2)), CaptureAction::Recheck);
        bridge.attempt.state = BridgeState::Primed;
        signals.request_resume();
        if stopped {
            signals.request_stop();
        }
        assert_eq!(run.worker.on_recheck(bridge, signals), expected);
        assert!(!signals.resume_requested);
        let phase = if stopped { WorkerPhase::Terminal } else { WorkerPhase::PrimedParked };
        assert_eq!(signals.phase(), phase);
    }
}

#[test]
fn worker_progress_slot_is_nonallocating_and_drops_newest_while_full() {
    let first = CaptureWorkerProgress {
        report: CapturePublishReport {
            application_start_frame: 0,
            application_end_frame: 5,
            hardware_frame_position: 7,
            frames: 5,
            fifo_fill_frames: 5,
            observation_publication: ObservationPublication::Published,
        },
        delay_frames: -3,
    };
    let second = CaptureWorkerProgress { delay_frames: 4, ..first };
    let mut slot = CopySlot::new();

    assert_eq!(slot.try_publish(first), Ok(()));
    assert_eq!(slot.try_publish(second), Err(CopySlotError::Full));
    assert_eq!(slot.try_take(), Ok(first));
    assert_eq!(slot.try_take(), Err(CopySlotError::Empty));
    assert!(!std::mem::needs_drop::<CopySlot<CaptureWorkerProgress>>());
}

#[test]
fn status_validation_uses_exact_formulas_and_retains_signed_delay() {
    let capture =
        validate_capture_status(epoch(), 7, capture_geometry(), capture_status(4, 25, 3, -9))
            .expect("valid capture status");
    assert_eq!(capture.observation.clock().frame_position.frames, 10);
    assert_eq!(capture.observation.clock().monotonic_time.nanoseconds, 4_000_000_025);
    assert_eq!(capture.available_frames, 3);
    assert_eq!(capture.delay_frames, -9);

    let playback = validate_playback_status(
        epoch(),
        20,
        playback_geometry(),
        true,
        playback_status(5, 30, 9, -11, PCM_STATE_RUNNING),
    )
    .expect("valid playback status");
    assert_eq!(playback.queued_frames, 15);
    assert_eq!(playback.observation.hardware().frame_position.frames, 5);
    assert_eq!(playback.observation.application_frame_position().frames, 20);
    assert_eq!(playback.delay_frames, -11);
}

#[test]
fn status_validation_rejects_invalid_timestamps_and_overflow() {
    assert!(matches!(
        validate_capture_status(epoch(), 0, capture_geometry(), capture_status(-1, 0, 0, 0)),
        Err(PcmStatusError::NegativeTimestampSeconds { actual: -1 })
    ));
    for nanoseconds in [-1, 1_000_000_000] {
        assert!(matches!(
            validate_capture_status(
                epoch(),
                0,
                capture_geometry(),
                capture_status(0, nanoseconds, 0, 0),
            ),
            Err(PcmStatusError::InvalidTimestampNanoseconds { actual }) if actual == nanoseconds
        ));
    }
    assert_eq!(
        validate_capture_status(
            epoch(),
            0,
            capture_geometry(),
            capture_status(i64::MAX, 999_999_999, 0, 0),
        ),
        Err(PcmStatusError::TimestampOverflow)
    );
}

#[test]
fn status_validation_rejects_bad_geometry_availability_position_and_state() {
    let wrong_geometry = playback_status(0, 0, 24, 0, PCM_STATE_PREPARED);
    assert!(matches!(
        validate_capture_status(epoch(), 0, capture_geometry(), wrong_geometry),
        Err(PcmStatusError::Geometry { .. })
    ));
    for availability in [-1, 33] {
        assert!(validate_capture_status(
            epoch(),
            0,
            capture_geometry(),
            capture_status(0, 0, availability, 0),
        )
        .is_err());
    }
    assert_eq!(
        validate_capture_status(epoch(), u64::MAX, capture_geometry(), capture_status(0, 0, 1, 0)),
        Err(PcmStatusError::PositionOverflow)
    );
    assert!(matches!(
        validate_playback_status(
            epoch(),
            2,
            playback_geometry(),
            false,
            playback_status(0, 0, 0, 0, PCM_STATE_PREPARED),
        ),
        Err(PcmStatusError::PlaybackPositionBeforeQueue { application: 2, queued: 24 })
    ));

    for (state_raw, expected) in [
        (PCM_STATE_XRUN, PcmStatusError::Xrun),
        (PCM_STATE_SUSPENDED, PcmStatusError::Suspended),
        (PCM_STATE_DISCONNECTED, PcmStatusError::Disconnected),
    ] {
        assert_eq!(
            validate_capture_status(
                epoch(),
                0,
                capture_geometry(),
                PcmStatusSnapshot { state_raw, ..capture_status(0, 0, 0, 0) },
            ),
            Err(expected)
        );
    }
    assert!(matches!(
        validate_playback_status(
            epoch(),
            0,
            playback_geometry(),
            false,
            playback_status(0, 0, 24, 0, PCM_STATE_RUNNING),
        ),
        Err(PcmStatusError::InvalidState { expected: PcmExpectedState::PlaybackPrepared, .. })
    ));
}

#[test]
fn capture_worker_publishes_only_the_partial_read_and_stops_after_timeouts() {
    let mut run = started_capture(3);
    let mut pcm = FakeCapturePcm::new(
        &[
            Ok(PcmWait::TimedOut),
            Err(PcmIoError::Again),
            Err(PcmIoError::Interrupted),
            Ok(PcmWait::Ready),
        ],
        &[Ok(3)],
        &[Ok(capture_status(1, 7, 2, -4))],
    );
    let end = run.run(&mut pcm);
    let CaptureWorkerProgress { report, delay_frames } = run.progress.try_take().expect("progress");
    assert_eq!(report.application_start_frame, 0);
    assert_eq!(report.application_end_frame, 3);
    assert_eq!(report.hardware_frame_position, 5);
    assert_eq!(report.frames, 3);
    assert_eq!(delay_frames, -4);
    assert_eq!(end, CaptureAction::Finish(CaptureWorkerTerminal::Stopped));
    assert_eq!(run.worker.ingress.worker_application_position(), 3);

    assert_eq!(pcm.calls.first(), Some(&FakeCall::CaptureStart));
    assert!(pcm.calls.contains(&FakeCall::CaptureRead { buffer_bytes: 15 }));
    assert_eq!(pcm.calls.last(), Some(&FakeCall::DropStream));
}

#[test]
fn capture_worker_transient_retry_limits_are_terminal() {
    for (error, expected) in [
        (PcmIoError::Again, CaptureWorkerTerminal::AgainRetryLimit),
        (PcmIoError::Interrupted, CaptureWorkerTerminal::InterruptedRetryLimit),
    ] {
        let mut run = started_capture(2);
        let mut pcm = FakeCapturePcm::new(
            &[
                Err(error),
                Ok(PcmWait::TimedOut),
                Err(error),
                Ok(PcmWait::TimedOut),
                Err(error),
            ],
            &[],
            &[],
        );
        assert_eq!(run.run(&mut pcm), CaptureAction::Finish(expected));
        assert_eq!(pcm.calls.last(), Some(&FakeCall::DropStream));
        assert_eq!(run.state(), BridgeState::Faulted);
    }
}

#[test]
fn completed_capture_cycle_resets_status_transients_before_the_next_wait() {
    let mut run = started_capture(1);
    let mut pcm = FakeCapturePcm::new(
        &[
            Ok(PcmWait::Ready),
            Ok(PcmWait::Ready),
            Err(PcmIoError::Again),
            Ok(PcmWait::Ready),
            Ok(PcmWait::Ready),
        ],
        &[Ok(1), Ok(1), Err(PcmIoError::Xrun)],
        &[
            Err(PcmIoError::Again),
            Ok(capture_status(1, 0, 0, 0)),
            Ok(capture_status(2, 0, 0, 0)),
        ],
    );
    assert_eq!(run.run(&mut pcm), CaptureAction::Finish(CaptureWorkerTerminal::Xrun));
    assert_eq!(run.worker.ingress.worker_application_position(), 2);
}

#[test]
fn capture_worker_classifies_pcm_terminal_failures() {
    for (error, expected) in [
        (PcmIoError::Xrun, CaptureWorkerTerminal::Xrun),
        (PcmIoError::Suspended, CaptureWorkerTerminal::Suspended),
        (PcmIoError::Disconnected, CaptureWorkerTerminal::Disconnected),
        (
            PcmIoError::Failed { errno: libc::EIO },
            CaptureWorkerTerminal::PcmFailed { errno: libc::EIO },
        ),
    ] {
        let mut run = started_capture(2);
        let mut pcm = FakeCapturePcm::new(&[Ok(PcmWait::Ready)], &[Err(error)], &[]);
        assert_eq!(run.run(&mut pcm), CaptureAction::Finish(expected));
        assert_eq!(run.state(), BridgeState::Faulted);
    }
}

#[test]
fn a_capture_read_outside_the_period_is_terminal() {
    for frames in [0, 6] {
        let mut run = started_capture(2);
        run.worker.bytes.resize(18, 0);
        run.worker.bytes.truncate(15);
        let action = run.worker.on_start(&mut run.parts.bridge, &mut run.signals, Ok(()));
        assert_eq!(action, CaptureAction::Wait);
        run.worker.on_wait(&mut run.parts.bridge, &mut run.signals, Ok(PcmWait::Ready));
        assert_eq!(
            run.worker.on_read(&mut run.parts.bridge, &mut run.signals, Ok(frames)),
            CaptureAction::Finish(CaptureWorkerTerminal::InvalidProgress {
                actual_frames: frames,
                maximum_frames: 5,
            })
        );
        assert_eq!(run.signals.phase(), WorkerPhase::Terminal);
    }
}

#[test]
fn capture_worker_detects_timestamp_regression_after_a_completed_read() {
    let mut run = started_capture(2);
    let mut pcm = FakeCapturePcm::new(
        &[Ok(PcmWait::Ready), Ok(PcmWait::Ready)],
        &[Ok(1), Ok(1)],
        &[Ok(capture_status(2, 0, 0, 0)), Ok(capture_status(1, 999_999_999, 0, 0))],
    );
    let end = run.run(&mut pcm);
    assert!(run.progress.try_take().is_ok());
    assert!(matches!(
        end,
        CaptureAction::Finish(CaptureWorkerTerminal::Bridge(
            BridgeError::MonotonicTimeDiscontinuity { .. }
        ))
    ));
    assert_eq!(run.worker.ingress.worker_application_position(), 2);
    assert_eq!(run.state(), BridgeState::Faulted);
}

#[test]
fn capture_worker_shutdown_is_cancellable_without_a_sleep() {
    let mut run = started_capture(2);
    let mut pcm = FakeCapturePcm::new(&[], &[], &[]);
    assert_eq!(run.run(&mut pcm), CaptureAction::Finish(CaptureWorkerTerminal::Stopped));
    assert_eq!(pcm.calls.last(), Some(&FakeCall::DropStream));
    assert_ne!(run.state(), BridgeState::Faulted);
}

#[test]
fn capture_worker_stops_normally_when_teardown_refuses_a_new_boundary() {
    let mut run = started_capture(2);
    let mut calls = vec![FakeCall::CaptureStart, FakeCall::CaptureWait];
    run.worker.on_start(&mut run.parts.bridge, &mut run.signals, Ok(()));
    let action = run.worker.on_wait(&mut run.parts.bridge, &mut run.signals, Ok(PcmWait::Ready));
    assert_eq!(action, CaptureAction::Read);
    calls.push(FakeCall::CaptureRead { buffer_bytes: run.worker.bytes.len() });

    run.parts.control.begin_teardown(&mut run.parts.bridge);
    assert_eq!(run.state(), BridgeState::Quiescing);
    run.worker.bytes[..3].copy_from_slice(&[1, 2, 3]);
    let action = run.worker.on_read(&mut run.parts.bridge, &mut run.signals, Ok(1));
    assert_eq!(action, CaptureAction::Finish(CaptureWorkerTerminal::Stopped));
    calls.push(FakeCall::DropStream);

    assert_eq!(run.worker.ingress.worker_application_position(), 0);
    assert_eq!(
        calls,
        [
            FakeCall::CaptureStart,
            FakeCall::CaptureWait,
            FakeCall::CaptureRead { buffer_bytes: 15 },
            FakeCall::DropStream,
        ]
    );
    assert_eq!(run.state(), BridgeState::Quiescing);
    run.parts.control.finish_teardown(&mut run.parts.bridge).expect("capture worker quiesced");
    assert_eq!(run.state(), BridgeState::Stopped);
}

/// A playback worker on a primed attempt, parked before its first boundary.
struct PlaybackRun {
    simulation: Simulation,
    worker: PlaybackLoop,
    signals: WorkerSignals,
    boundaries: CopySlot<PlaybackWorkerBoundary>,
}

fn primed_playback() -> PlaybackRun {
    let mut simulation = Simulation::new();
    simulation.prime();
    assert!(monitor_mix_queued(simulation.state()));
    let geometry = physical().parameters(PcmDirection::Playback);
    let mut worker = PlaybackLoop::new(epoch(), geometry, policy(2)).expect("parked worker");
    let mut signals = WorkerSignals::new(epoch());
    let action = worker.begin(&mut simulation.parts.bridge, &mut signals);
    assert_eq!(action, PlaybackAction::Park);
    PlaybackRun { simulation, worker, signals, boundaries: CopySlot::new() }
}

fn drained_status(simulation: &Simulation, delay_frames: i64) -> PcmStatusSnapshot {
    let nanoseconds = simulation.now + TICK;
    PcmStatusSnapshot {
        timestamp_seconds: (nanoseconds / 1_000_000_000) as i64,
        timestamp_nanoseconds: (nanoseconds % 1_000_000_000) as i64,
        available_frames: i64::from(PLAYBACK_BUFFER),
        delay_frames,
        state_raw: PCM_STATE_PREPARED,
        geometry: physical().parameters(PcmDirection::Playback),
    }
}

#[test]
fn playback_worker_stops_normally_when_teardown_refuses_a_new_boundary() {
    let mut run = primed_playback();
    let application = run.simulation.parts.playback.worker_application_position();
    let control = run.simulation.parts.control;
    control.activate(&mut run.simulation.parts.bridge).expect("activate quiescent bridge");
    resume_after_activation(&mut run.signals, &control, &run.simulation.parts.bridge)
        .expect("resume playback worker");
    let mut calls = Vec::new();
    let bridge = &mut run.simulation.parts.bridge;
    assert_eq!(run.worker.on_unpark(bridge, &mut run.signals), PlaybackAction::ReadStatus);
    calls.push(FakeCall::PlaybackStatus);

    control.begin_teardown(bridge);
    assert_eq!(control.state(bridge), BridgeState::Quiescing);
    let status = Ok(drained_status(&run.simulation, 0));
    let bridge = &mut run.simulation.parts.bridge;
    let action = run.worker.on_status(bridge, &mut run.signals, application, status);
    let observation = match action {
        PlaybackAction::Process(observation) => observation,
        other => panic!("unexpected action: {other:?}"),
    };
    let processed = run.simulation.playback_at(observation, &mut ExactWriter::new());
    assert_eq!(processed, Err(BridgeError::Teardown));
    let bridge = &mut run.simulation.parts.bridge;
    let action =
        run.worker.on_processed(bridge, &mut run.signals, processed, &mut run.boundaries);
    assert_eq!(action, PlaybackAction::Finish(PlaybackWorkerTerminal::Stopped));
    calls.push(FakeCall::DropStream);

    assert_eq!(run.simulation.parts.playback.worker_application_position(), application);
    assert_eq!(calls, [FakeCall::PlaybackStatus, FakeCall::DropStream]);
    let bridge = &mut run.simulation.parts.bridge;
    assert_eq!(control.state(bridge), BridgeState::Quiescing);
    control.finish_teardown(bridge).expect("playback worker quiesced");
    assert_eq!(control.state(bridge), BridgeState::Stopped);
}

#[test]
fn primed_workers_park_activate_resume_and_continue_active_io() {
    let mut run = primed_playback();
    let control = run.simulation.parts.control;
    let playback_application = run.simulation.parts.playback.worker_application_position();
    let capture_application = run.simulation.parts.capture_ingress.worker_application_position();
    let capture_geometry = physical().parameters(PcmDirection::Capture);
    let ingress = std::mem::replace(
        &mut run.simulation.parts.capture_ingress,
        bridge_parts().capture_ingress,
    );
    let mut capture =
        CaptureLoop::new(ingress, capture_geometry, policy(2)).expect("capture worker");
    let mut capture_signals = WorkerSignals::new(epoch());
    let mut progress = CopySlot::new();
    let bridge = &mut run.simulation.parts.bridge;

    assert_eq!(capture.begin(bridge, &mut capture_signals), CaptureAction::Start);
    assert_eq!(capture.on_start(bridge, &mut capture_signals, Ok(())), CaptureAction::Park);
    assert_eq!(capture_signals.phase(), WorkerPhase::PrimedParked);
    assert_eq!(run.signals.phase(), WorkerPhase::PrimedParked);
    for signals in [&mut capture_signals, &mut run.signals] {
        assert_eq!(
            resume_after_activation(signals, &control, bridge),
            Err(WorkerResumeError::BridgeNotActive { actual: BridgeState::Primed })
        );
    }

    control.activate(bridge).expect("quiescent bridge activation");
    assert_eq!(capture_signals.phase(), WorkerPhase::PrimedParked);
    assert_eq!(capture.on_unpark(bridge, &mut capture_signals), CaptureAction::Park);
    assert_eq!(run.worker.on_unpark(bridge, &mut run.signals), PlaybackAction::Park);
    resume_after_activation(&mut capture_signals, &control, bridge).expect("resume capture");
    resume_after_activation(&mut run.signals, &control, bridge).expect("resume playback");

    assert_eq!(capture.on_unpark(bridge, &mut capture_signals), CaptureAction::Wait);
    assert_eq!(
        capture.on_wait(bridge, &mut capture_signals, Ok(PcmWait::Ready)),
        CaptureAction::Read
    );
    assert_eq!(
        capture.on_read(bridge, &mut capture_signals, Ok(5)),
        CaptureAction::ReadStatus
    );
    let nanoseconds = run.simulation.now + TICK;
    let status = PcmStatusSnapshot {
        timestamp_seconds: (nanoseconds / 1_000_000_000) as i64,
        timestamp_nanoseconds: (nanoseconds % 1_000_000_000) as i64,
        available_frames: 0,
        delay_frames: -7,
        state_raw: PCM_STATE_RUNNING,
        geometry: capture_geometry,
    };
    assert_eq!(
        capture.on_status(bridge, &mut capture_signals, Ok(status), &mut progress),
        CaptureAction::Wait
    );
    let capture_progress = progress.try_take().expect("capture progress");
    assert_eq!(capture_progress.report.application_start_frame, capture_application);
    assert_eq!(capture_progress.report.application_end_frame, capture_application + 5);
    assert_eq!(capture_progress.delay_frames, -7);

    assert_eq!(run.worker.on_unpark(bridge, &mut run.signals), PlaybackAction::ReadStatus);
    let status = Ok(drained_status(&run.simulation, -9));
    let bridge = &mut run.simulation.parts.bridge;
    let action = run.worker.on_status(bridge, &mut run.signals, playback_application, status);
    let observation = match action {
        PlaybackAction::Process(observation) => observation,
        other => panic!("unexpected action: {other:?}"),
    };
    let processed = run.simulation.playback_at(observation, &mut ExactWriter::new());
    let bridge = &mut run.simulation.parts.bridge;
    let action =
        run.worker.on_processed(bridge, &mut run.signals, processed, &mut run.boundaries);
    assert_eq!(action, PlaybackAction::StartPcm);
    assert_eq!(
        run.worker.on_start(bridge, &mut run.signals, Ok(()), &mut run.boundaries),
        PlaybackAction::ReadStatus
    );
    let boundary = run.boundaries.try_take().expect("playback boundary");
    assert_eq!(boundary.report.delivery, PlaybackBoundaryDelivery::SubmittedActive);
    assert_eq!(boundary.report.application_start_frame, playback_application);
    assert!(boundary.pcm_started);
    assert_eq!(boundary.delay_frames, -9);

    capture_signals.request_stop();
    run.signals.request_stop();
    assert_eq!(
        capture.on_wait(bridge, &mut capture_signals, Ok(PcmWait::TimedOut)),
        CaptureAction::Finish(CaptureWorkerTerminal::Stopped)
    );
    let action = run.worker.on_status(
        bridge,
        &mut run.signals,
        playback_application + PLAYBACK_PERIOD as u64,
        Err(PcmIoError::Again),
    );
    assert_eq!(action, PlaybackAction::Wait);
    assert_eq!(
        run.worker.on_wait(bridge, &mut run.signals, Ok(PcmWait::TimedOut)),
        PlaybackAction::Finish(PlaybackWorkerTerminal::Stopped)
    );
    control.begin_teardown(bridge);
    control.finish_teardown(bridge).expect("workers quiesced before teardown");
    assert_eq!(control.state(bridge), BridgeState::Stopped);
}

/// Submits one period to a fake device.
fn submit(
    waits: &[Result<PcmWait, PcmIoError>],
    writes: &[Result<usize, PcmIoError>],
    retry_limit: u32,
    frames: usize,
    bytes: &[u8],
) -> (Result<PlaybackSubmissionProgress, PlaybackWriteError>, Vec<FakeCall>) {
    let mut calls = Vec::new();
    let mut waits = waits.iter().copied();
    let mut writes = writes.iter().copied();
    let (mut submission, mut action) =
        match PeriodSubmission::begin(policy(retry_limit), frames, bytes.len(), false) {
            Ok(begun) => begun,
            Err(error) => return (Err(error), calls),
        };
    loop {
        action = match action {
            SubmissionAction::Wait => {
                calls.push(FakeCall::PlaybackWait);
                submission.on_wait(waits.next().unwrap_or(Ok(PcmWait::TimedOut)), false)
            }
            SubmissionAction::Write { byte_offset } => {
                calls.push(FakeCall::PlaybackWrite { bytes: bytes[byte_offset..].len() });
                let failed = Err(PcmIoError::Failed { errno: libc::EIO });
                submission.on_write(writes.next().unwrap_or(failed), false)
            }
            SubmissionAction::Done(result) => return (result, calls),
        };
    }
}

#[test]
fn playback_submitter_completes_partial_writes_with_exact_offsets() {
    let (result, calls) = submit(
        &[Ok(PcmWait::TimedOut), Ok(PcmWait::Ready), Ok(PcmWait::Ready), Ok(PcmWait::Ready)],
        &[Ok(2), Err(PcmIoError::Again), Ok(3)],
        2,
        5,
        &[0_u8; 5 * 2 * 3],
    );
    assert_eq!(result.expect("complete partial playback writes").frames_submitted, 5);
    let write_lengths = calls
        .iter()
        .filter_map(|call| match call {
            FakeCall::PlaybackWrite { bytes } => Some(*bytes),
            _ => None,
        })
        .collect::<Vec<_>>();
    assert_eq!(write_lengths, [30, 18, 18]);
}

#[test]
fn playback_submitter_bounds_transient_retries() {
    for (error, expected) in [
        (PcmIoError::Again, PlaybackWriteError::AgainRetryLimit { accepted_frames: 0 }),
        (PcmIoError::Interrupted, PlaybackWriteError::InterruptedRetryLimit { accepted_frames: 0 }),
    ] {
        let (result, _) = submit(
            &[Err(error), Ok(PcmWait::TimedOut), Err(error), Ok(PcmWait::TimedOut), Err(error)],
            &[],
            2,
            1,
            &[0; 6],
        );
        assert_eq!(result, Err(expected));
    }
}

#[test]
fn playback_submitter_reports_partial_progress_on_terminal_failure() {
    for (error, expected) in [
        (PcmIoError::Xrun, PlaybackWriteError::Xrun { accepted_frames: 2 }),
        (PcmIoError::Suspended, PlaybackWriteError::Suspended { accepted_frames: 2 }),
        (PcmIoError::Disconnected, PlaybackWriteError::Disconnected { accepted_frames: 2 }),
        (
            PcmIoError::Failed { errno: libc::EIO },
            PlaybackWriteError::Failed { accepted_frames: 2, errno: libc::EIO },
        ),
    ] {
        let (result, _) = submit(
            &[Ok(PcmWait::Ready), Ok(PcmWait::Ready)],
            &[Ok(2), Err(error)],
            2,
            3,
            &[0; 18],
        );
        assert_eq!(result, Err(expected));
    }
}

#[test]
fn a_submission_refuses_wrong_lengths_and_progress() {
    let invalid = PlaybackWriteError::InvalidProgress { accepted_frames: 0 };
    assert_eq!(submit(&[], &[], 2, 3, &[0; 17]).0, Err(invalid));
    assert_eq!(submit(&[Ok(PcmWait::Ready)], &[Ok(0)], 2, 3, &[0; 18]).0, Err(invalid));
    assert_eq!(submit(&[Ok(PcmWait::Ready)], &[Ok(4)], 2, 3, &[0; 18]).0, Err(invalid));
    let (mut submission, action) =
        PeriodSubmission::begin(policy(2), 3, 18, false).expect("submission");
    assert_eq!(action, SubmissionAction::Wait);
    assert_eq!(
        submission.on_wait(Ok(PcmWait::Ready), true),
        SubmissionAction::Done(Err(PlaybackWriteError::Stopped { accepted_frames: 0 }))
    );
}

#[test]
fn parked_playback_refuses_early_activation_and_drops_its_only_stream() {
    let parts = bridge_parts();
    let worker = PlaybackLoop::new(epoch(), playback_geometry(), policy(2)).expect("parked worker");
    let mut calls = Vec::new();
    let activated = if monitor_mix_queued(parts.control.state(&parts.bridge)) {
        Ok(worker)
    } else {
        calls.push(FakeCall::DropStream);
        Err(WorkerStartError::MonitorMixNotQueued { drop_stream_result: Ok(()) })
    };
    assert!(matches!(
        activated,
        Err(WorkerStartError::MonitorMixNotQueued { drop_stream_result: Ok(()) })
    ));
    assert_eq!(calls, [FakeCall::DropStream]);
}

#[test]
fn parked_playback_teardown_drops_stream_without_starting_the_pcm() {
    let parts = bridge_parts();
    let worker = PlaybackLoop::new(epoch(), playback_geometry(), policy(2)).expect("parked worker");
    assert!(!worker.pcm_started);
    assert_eq!(parts.playback.worker_application_position(), 0);
    assert_eq!(parts.control.state(&parts.bridge), BridgeState::Allocated);
}

#[test]
fn a_failed_pcm_start_is_retried_and_then_terminal() {
    let mut run = primed_playback();
    let control = run.simulation.parts.control;
    let application = run.simulation.parts.playback.worker_application_position();
    control.activate(&mut run.simulation.parts.bridge).expect("activate");
    resume_after_activation(&mut run.signals, &control, &run.simulation.parts.bridge)
        .expect("resume");
    let status = Ok(drained_status(&run.simulation, 0));
    let bridge = &mut run.simulation.parts.bridge;
    run.worker.on_unpark(bridge, &mut run.signals);
    let observation =
        match run.worker.on_status(bridge, &mut run.signals, application, status) {
            PlaybackAction::Process(observation) => observation,
            other => panic!("unexpected action: {other:?}"),
        };
    let processed = run.simulation.playback_at(observation, &mut ExactWriter::new());
    let bridge = &mut run.simulation.parts.bridge;
    run.worker.on_processed(bridge, &mut run.signals, processed, &mut run.boundaries);
    let mut calls = Vec::new();
    for _ in 0..2 {
        calls.push(FakeCall::PlaybackStart);
        let again = Err(PcmIoError::Again);
        let action = run.worker.on_start(bridge, &mut run.signals, again, &mut run.boundaries);
        assert_eq!(action, PlaybackAction::Wait);
        let action = run.worker.on_wait(bridge, &mut run.signals, Ok(PcmWait::Ready));
        assert_eq!(action, PlaybackAction::StartPcm);
    }
    assert_eq!(calls.len(), 2);
    let again = Err(PcmIoError::Again);
    let limit = PlaybackWriteError::AgainRetryLimit { accepted_frames: 0 };
    assert_eq!(
        run.worker.on_start(bridge, &mut run.signals, again, &mut run.boundaries),
        PlaybackAction::Finish(PlaybackWorkerTerminal::PcmStart(limit))
    );
    assert!(run.boundaries.try_take().is_err());
    assert_eq!(control.state(bridge), BridgeState::Faulted);
}

#[test]
fn worker_policy_rejects_invalid_wait_and_retry_limits() {
    assert_eq!(WorkerIoPolicy::try_new(0, 1), Err(WorkerIoPolicyError::ZeroWaitTimeout));
    assert!(WorkerIoPolicy::try_new(i32::MAX as u32, 1).is_ok());
    assert_eq!(
        WorkerIoPolicy::try_new(i32::MAX as u32 + 1, 1),
        Err(WorkerIoPolicyError::WaitTimeoutOutsideCInt {
            actual: i32::MAX as u32 + 1,
            maximum: i32::MAX as u32,
        })
    );
    assert_eq!(WorkerIoPolicy::try_new(1, 0), Err(WorkerIoPolicyError::ZeroTransientRetryLimit));
    assert_eq!(policy(9).wait_timeout_millis(), 1);
    assert_eq!(policy(9).transient_retry_limit(), 9);
}

#[test]
fn transient_budget_exhausts_at_u32_max_without_saturating_forever() {
    let mut budget = TransientBudget { attempts: u32::MAX - 1, limit: u32::MAX };
    assert_eq!(budget.record(PcmIoError::Again), Ok(()));
    assert_eq!(budget.attempts, u32::MAX);
    assert_eq!(budget.record(PcmIoError::Again), Err(TransientKind::Again));
}

#[test]
fn workers_refuse_foreign_geometry_and_attempts() {
    assert_eq!(
        validate_worker_geometry(capture_geometry(), PcmDirection::Playback),
        Err(WorkerStartError::InvalidGeometry)
    );
    assert_eq!(
        PlaybackLoop::new(epoch(), capture_geometry(), policy(1)),
        Err(WorkerStartError::InvalidGeometry)
    );
    let simulation = active();
    let control = simulation.parts.control;
    let mut foreign = WorkerSignals::new(ClockAttemptEpoch { value: 20 });
    assert_eq!(
        resume_after_activation(&mut foreign, &control, &simulation.parts.bridge),
        Err(WorkerResumeError::AttemptMismatch {
            worker: ClockAttemptEpoch { value: 20 },
            control: epoch(),
        })
    );
    let mut running = WorkerSignals::new(epoch());
    assert_eq!(
        resume_after_activation(&mut running, &control, &simulation.parts.bridge),
        Err(WorkerResumeError::NotPrimedParked { actual: WorkerPhase::Starting })
    );
}
