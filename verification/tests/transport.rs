//! The capture-clock transport around a simulated mixer.

use librewave_platform_linux::audio_host::clock_bridge::errors::{
    MixerProfileError, ProcessError, StageError,
};
use librewave_platform_linux::audio_host::endpoints::EndpointId;
use librewave_platform_linux::audio_host::transport::boundary::{
    TransportBoundary, TransportStage,
};
use librewave_platform_linux::audio_host::transport::{
    decode_s32le, encode_s32le, try_stage_profile, CaptureClockTransport, ConfigError,
    PhysicalPcmConfig, PhysicalSampleFormat, PreparedMixer, ProcessedCapture, ProcessedDelivery,
    SystemIngress, SystemIngressError, SystemRing, TransportBuildError, TransportControlError,
    TransportBuffers, TransportCounters, TransportError, TransportPlayback,
    TransportPlaybackError,
};

fn pcm(period_frames: u32) -> PhysicalPcmConfig {
    PhysicalPcmConfig {
        sample_format: PhysicalSampleFormat::Signed32LittleEndian,
        rate: 48_000,
        channels: 2,
        period_frames,
        buffer_frames: period_frames * 2,
    }
}

fn prepared() -> PreparedMixer {
    PreparedMixer { profile: Ok(()), layout: Ok(()), controls_match: true }
}

fn bytes(samples: &[i32]) -> Vec<u8> {
    samples.iter().flat_map(|sample| sample.to_le_bytes()).collect()
}

fn bits(samples: &[f32]) -> Vec<u32> {
    samples.iter().map(|sample| sample.to_bits()).collect()
}

fn floats(samples: &[u32]) -> Vec<f32> {
    samples.iter().map(|sample| f32::from_bits(*sample)).collect()
}

fn assert_close(actual: &[f32], expected: &[f32]) {
    assert_eq!(actual.len(), expected.len());
    for (actual, expected) in actual.iter().zip(expected) {
        assert!((actual - expected).abs() <= 1.0e-6, "expected {expected}, got {actual}");
    }
}

#[derive(Debug, Default)]
struct FakePlayback {
    bytes: Vec<u8>,
    writes: usize,
}

impl TransportPlayback for FakePlayback {
    fn write_interleaved_s32le(
        &mut self,
        _frames: usize,
        bytes: &[u8],
    ) -> Result<(), TransportPlaybackError> {
        self.bytes = bytes.to_vec();
        self.writes += 1;
        Ok(())
    }
}

#[derive(Debug)]
struct FailingPlayback {
    error: TransportPlaybackError,
    writes: usize,
}

impl TransportPlayback for FailingPlayback {
    fn write_interleaved_s32le(
        &mut self,
        _frames: usize,
        _bytes: &[u8],
    ) -> Result<(), TransportPlaybackError> {
        self.writes += 1;
        Err(self.error)
    }
}

/// A transport whose mixer copies the microphone and adds the System to the
/// monitor and stream mixes, with one meter slot.
struct Transport {
    transport: CaptureClockTransport,
    ring: SystemRing,
    ingress: SystemIngress,
    meter: Option<f32>,
    monitor_muted: bool,
    update_staged: bool,
    engine: Result<(), ProcessError>,
}

fn new_transport(maximum_frames: u32, system_capacity_frames: usize) -> Transport {
    let (transport, ring) =
        CaptureClockTransport::new(pcm(maximum_frames), prepared(), system_capacity_frames)
            .expect("valid transport");
    Transport {
        transport,
        ring,
        ingress: SystemIngress,
        meter: None,
        monitor_muted: false,
        update_staged: false,
        engine: Ok(()),
    }
}

impl Transport {
    fn process<P: TransportPlayback>(
        &mut self,
        capture: &[u8],
        playback: Option<&mut P>,
    ) -> Result<ProcessedCapture, TransportError> {
        let mut boundary =
            TransportBoundary::begin(&mut self.transport, &mut self.ring, capture)?;
        let samples = 2 * boundary.block.frames;
        for index in 0..samples {
            let microphone = f32::from_bits(self.transport.microphone_input[index]);
            let system = f32::from_bits(self.transport.system_input[index]);
            let monitored = if self.monitor_muted { 0.0 } else { microphone };
            self.transport.microphone_output[index] = microphone.to_bits();
            self.transport.monitor_output[index] = (monitored + system).to_bits();
            self.transport.stream_output[index] = (microphone + system).to_bits();
        }
        assert_eq!(boundary.stage, TransportStage::Mixing);
        let stage = boundary.on_mixed(&mut self.transport, &self.ring, self.engine);
        if let TransportStage::Failed { error } = stage {
            return Err(error);
        }
        assert_eq!(stage, TransportStage::Metering);
        let applied = std::mem::take(&mut self.update_staged);
        let published = self.meter.is_none();
        if published {
            let peak = floats(&self.transport.microphone_output[..samples])
                .iter()
                .fold(0.0_f32, |peak, sample| peak.max(sample.abs()));
            self.meter = Some(peak);
        }
        match boundary.on_metered(&mut self.transport, applied, published, playback) {
            TransportStage::Accepted { capture } => Ok(capture),
            TransportStage::Failed { error } => Err(error),
            stage => panic!("the block has not ended: {stage:?}"),
        }
    }

    fn capture(&mut self, capture: &[u8]) -> Result<ProcessedCapture, TransportError> {
        self.process::<FakePlayback>(capture, None)
    }

    fn activate(&mut self, samples: &[f32]) -> Result<(), SystemIngressError> {
        self.ingress.activate_with_first_block(&mut self.ring, &bits(samples))
    }

    fn push(&mut self, samples: &[f32]) -> Result<(), SystemIngressError> {
        self.ingress.try_push_interleaved(&mut self.ring, &bits(samples))
    }

    fn output(&self, endpoint: EndpointId) -> Option<Vec<f32>> {
        self.transport.last_output(endpoint).map(floats)
    }

    fn counters(&self) -> TransportCounters {
        self.transport.counters(&self.ring)
    }
}

#[test]
fn construction_rejects_format_capacity_and_profile_boundaries() {
    for invalid_pcm in [
        PhysicalPcmConfig { rate: 44_100, ..pcm(4) },
        PhysicalPcmConfig { channels: 1, ..pcm(4) },
    ] {
        assert!(matches!(
            CaptureClockTransport::new(invalid_pcm, prepared(), 4),
            Err(TransportBuildError::PhysicalFormat)
        ));
    }

    assert!(matches!(
        CaptureClockTransport::new(pcm(4), prepared(), 3),
        Err(TransportBuildError::SystemCapacity { minimum_frames: 4, actual_frames: 3 })
    ));

    let error = MixerProfileError { code: 1 };
    assert!(matches!(
        CaptureClockTransport::new(
            pcm(4),
            PreparedMixer { profile: Err(error), ..prepared() },
            4
        ),
        Err(TransportBuildError::Profile(actual)) if actual == error
    ));
    assert!(matches!(
        CaptureClockTransport::new(
            pcm(4),
            PreparedMixer { layout: Err(ConfigError { code: 2 }), ..prepared() },
            4
        ),
        Err(TransportBuildError::EngineConfig(ConfigError { code: 2 }))
    ));
    assert!(matches!(
        CaptureClockTransport::new(
            pcm(4),
            PreparedMixer { controls_match: false, ..prepared() },
            4
        ),
        Err(TransportBuildError::ControlMapping)
    ));
}

#[test]
fn s32le_conversion_is_deterministic_and_saturating() {
    let raw = [i32::MIN, -1_073_741_824, 0, 1_073_741_824, i32::MAX];
    let mut decoded = [0; 5];
    decode_s32le(&bytes(&raw), &mut decoded);
    assert_close(&floats(&decoded), &[-1.0, -0.5, 0.0, 0.5, 1.0]);

    let samples = [-2.0, -1.0, -0.5, 0.0, 0.5, 1.0, 2.0];
    let mut encoded = [0_u8; 28];
    encode_s32le(&bits(&samples), &mut encoded).expect("finite samples");
    assert_eq!(
        encoded.as_slice(),
        bytes(&[i32::MIN, i32::MIN, -1_073_741_824, 0, 1_073_741_824, i32::MAX, i32::MAX,])
    );
    assert_eq!(
        encode_s32le(&bits(&[f32::NAN]), &mut [0; 4]),
        Err(TransportError::NonFinitePlayback { sample_index: 0 })
    );
}

#[test]
fn s32le_conversion_follows_the_rounded_product() {
    let mut seed: u32 = 0x9e37_79b9;
    for _ in 0..5_000 {
        seed = seed.wrapping_mul(1_664_525).wrapping_add(1_013_904_223);
        let sample = f32::from_bits(seed);
        if sample.is_finite() {
            let mut encoded = [0; 4];
            encode_s32le(&[seed], &mut encoded).expect("finite sample");
            let scaled = (f64::from(sample) * 2_147_483_648.0).round();
            let expected = scaled.clamp(f64::from(i32::MIN), f64::from(i32::MAX)) as i32;
            assert_eq!(i32::from_le_bytes(encoded), expected, "sample {sample}");
        }
        let raw = seed as i32;
        let mut decoded = [0; 1];
        decode_s32le(&raw.to_le_bytes(), &mut decoded);
        let expected = (f64::from(raw) / 2_147_483_648.0) as f32;
        assert_eq!(f32::from_bits(decoded[0]), expected, "raw {raw}");
    }
}

#[test]
fn idle_system_is_semantic_silence_and_capture_reaches_all_outputs() {
    let mut transport = new_transport(4, 8);
    let capture = bytes(&[536_870_912, -536_870_912, 1_073_741_824, -1_073_741_824]);
    let result = transport.capture(&capture).expect("preflight block");
    assert_eq!(
        result,
        ProcessedCapture {
            frames: 2,
            delivery: ProcessedDelivery::Preflight,
            control_update_applied: false,
        }
    );
    let expected = vec![0.25, -0.25, 0.5, -0.5];
    assert_eq!(transport.output(EndpointId::Microphone), Some(expected.clone()));
    assert_eq!(transport.output(EndpointId::MonitorMix), Some(expected.clone()));
    assert_eq!(transport.output(EndpointId::StreamMix), Some(expected));
    assert_eq!(transport.output(EndpointId::System), None);
    assert!(transport.meter.is_some());
    assert_eq!(
        transport.counters(),
        TransportCounters {
            capture_blocks: 1,
            processed_blocks: 1,
            preflight_blocks: 1,
            idle_system_silence_blocks: 1,
            ..TransportCounters::default()
        }
    );
}

#[test]
fn system_fifo_bridges_quantum_sizes_and_active_underflow_is_sticky() {
    let mut transport = new_transport(4, 8);
    transport.activate(&[0.125, -0.125]).expect("one frame quantum");
    transport.push(&[0.25, -0.25, 0.375, -0.375]).expect("two frame quantum");
    let capture = bytes(&[0, 0, 0, 0]);
    transport.capture(&capture).expect("two frames are available");
    assert_close(
        &transport.output(EndpointId::MonitorMix).expect("monitor output"),
        &[0.125, -0.125, 0.25, -0.25],
    );
    assert_eq!(transport.output(EndpointId::Microphone), Some(vec![0.0, 0.0, 0.0, 0.0]));
    assert_close(
        &transport.output(EndpointId::StreamMix).expect("stream output"),
        &[0.125, -0.125, 0.25, -0.25],
    );

    assert_eq!(
        transport.capture(&capture),
        Err(TransportError::SystemUnderflow { required_frames: 2, available_frames: 1 })
    );
    assert_eq!(transport.capture(&capture), Err(TransportError::Failed));
    assert_eq!(transport.counters().system_underflows, 1);
}

#[test]
fn system_fifo_overflow_is_bounded_and_faults_the_attempt() {
    let mut transport = new_transport(2, 8);
    transport.activate(&[0.0; 14]).expect("activate with seven queued frames");
    let error = transport.push(&[0.0; 4]).expect_err("two frames do not fit");
    assert_eq!(
        error,
        SystemIngressError::Overflow {
            requested_frames: 2,
            remaining_frames: 1,
            capacity_frames: 8,
        }
    );
    assert_eq!(
        error.message(),
        "System ingress requested 2 frames; 1 of 8 FIFO frames remained"
    );
    assert_eq!(
        transport.capture(&bytes(&[0, 0])),
        Err(TransportError::SystemIngressFaulted)
    );
    assert_eq!(transport.counters().system_overflows, 1);
}

#[test]
fn full_meter_slot_drops_newer_observation_and_counts_overflow() {
    let mut transport = new_transport(1, 1);
    transport.capture(&bytes(&[536_870_912, -536_870_912])).expect("publish the older meter block");
    transport
        .capture(&bytes(&[1_073_741_824, -1_073_741_824]))
        .expect("drop the newer meter block without failing processing");

    assert_eq!(transport.counters().meter_overflows, 1);
    assert_eq!(transport.meter.take(), Some(0.25));
}

#[test]
fn observed_system_fault_suppresses_a_new_playback_block() {
    let mut transport = new_transport(1, 1);
    transport.capture(&bytes(&[0, 0])).expect("confirm capture with semantic System silence");
    transport.activate(&[0.0, 0.0]).expect("activate System");
    assert!(matches!(transport.push(&[0.0; 4]), Err(SystemIngressError::Overflow { .. })));

    let mut playback = FakePlayback::default();
    assert_eq!(
        transport.process(&bytes(&[0, 0]), Some(&mut playback)),
        Err(TransportError::SystemIngressFaulted)
    );
    assert_eq!(playback.writes, 0);
    assert_eq!(transport.counters().playback_blocks, 0);
}

#[test]
fn system_activation_publishes_initial_frames_before_active_state() {
    let mut transport = new_transport(1, 2);
    assert_eq!(transport.activate(&[]), Err(SystemIngressError::EmptyActivation));
    transport
        .capture(&bytes(&[0, 0]))
        .expect("rejected activation leaves semantic idle silence");

    transport.activate(&[0.25, -0.25]).expect("initial frames precede active publication");
    transport.capture(&bytes(&[0, 0])).expect("active state has its initial frame");
    assert_eq!(transport.output(EndpointId::MonitorMix), Some(vec![0.25, -0.25]));
    assert_eq!(transport.counters().system_underflows, 0);
}

#[test]
fn system_ingress_refusals_are_exact() {
    let mut transport = new_transport(1, 2);
    assert_eq!(transport.push(&[0.0, 0.0]), Err(SystemIngressError::Idle));
    assert_eq!(transport.activate(&[0.0]), Err(SystemIngressError::PartialFrame { samples: 1 }));
    assert_eq!(
        transport.activate(&[0.0, f32::INFINITY]),
        Err(SystemIngressError::NonFinite { sample_index: 1 })
    );
    transport.activate(&[0.0, 0.0]).expect("activate");
    assert_eq!(transport.activate(&[0.0, 0.0]), Err(SystemIngressError::AlreadyActive));
    assert!(transport.push(&[0.0; 6]).is_err());
    assert_eq!(transport.push(&[0.0, 0.0]), Err(SystemIngressError::Faulted));
}

#[test]
fn system_fifo_capacity_overflow_is_a_build_error() {
    assert!(matches!(
        CaptureClockTransport::new(pcm(1), prepared(), usize::MAX),
        Err(TransportBuildError::SystemCapacityOverflow)
    ));
}

#[test]
fn playback_stays_preflight_until_an_earlier_capture_block_is_confirmed() {
    let mut transport = new_transport(2, 2);
    let capture = bytes(&[536_870_912, -536_870_912]);
    let mut playback = FakePlayback::default();
    assert_eq!(
        transport.process(&capture, Some(&mut playback)),
        Ok(ProcessedCapture {
            frames: 1,
            delivery: ProcessedDelivery::Preflight,
            control_update_applied: false,
        })
    );
    assert_eq!(playback.writes, 0);
    assert_eq!(
        transport.process(&capture, Some(&mut playback)),
        Ok(ProcessedCapture {
            frames: 1,
            delivery: ProcessedDelivery::PhysicalPlayback,
            control_update_applied: false,
        })
    );
    assert_eq!(playback.writes, 1);
    assert_eq!(playback.bytes, capture);
    assert_eq!(transport.counters().preflight_blocks, 1);
    assert_eq!(transport.counters().playback_blocks, 1);
}

#[test]
fn block_already_in_playback_may_finish_when_system_faults() {
    let mut transport = new_transport(1, 1);
    transport.activate(&[0.0, 0.0]).expect("activate System");
    transport.capture(&bytes(&[0, 0])).expect("preflight block");
    transport.push(&[0.0, 0.0]).expect("next System frame");

    let block = transport.transport.begin(&mut transport.ring, &bytes(&[0, 0])).expect("block");
    transport.transport.mixed(&transport.ring, block, Ok(())).expect("mixed block");
    assert!(matches!(transport.push(&[0.0; 4]), Err(SystemIngressError::Overflow { .. })));
    let mut playback = FakePlayback::default();
    assert_eq!(
        transport.transport.deliver(block, false, true, Some(&mut playback)),
        Ok(ProcessedCapture {
            frames: 1,
            delivery: ProcessedDelivery::PhysicalPlayback,
            control_update_applied: false,
        })
    );
    assert_eq!(playback.writes, 1);
    assert_eq!(transport.counters().playback_blocks, 1);
    assert_eq!(
        transport.capture(&bytes(&[0, 0])),
        Err(TransportError::SystemIngressFaulted)
    );
    assert_eq!(transport.capture(&bytes(&[0, 0])), Err(TransportError::Failed));
}

#[test]
fn playback_failures_are_classified_and_sticky() {
    for error in [
        TransportPlaybackError::ShortWrite,
        TransportPlaybackError::XrunRecoveryFailed,
        TransportPlaybackError::Disconnected,
        TransportPlaybackError::Failed,
    ] {
        let mut transport = new_transport(1, 1);
        let capture = bytes(&[0, 0]);
        transport.capture(&capture).expect("preflight block");
        let mut playback = FailingPlayback { error, writes: 0 };

        assert_eq!(
            transport.process(&capture, Some(&mut playback)),
            Err(TransportError::Playback(error))
        );
        assert_eq!(playback.writes, 1);
        assert_eq!(transport.counters().playback_failures, 1);
        assert_eq!(transport.capture(&capture), Err(TransportError::Failed));
    }
}

#[test]
fn profile_control_update_applies_at_one_block_boundary() {
    let mut transport = new_transport(2, 2);
    try_stage_profile(Ok(()), Ok(())).expect("stage complete current profile");
    transport.monitor_muted = true;
    transport.update_staged = true;
    let result =
        transport.capture(&bytes(&[536_870_912, -536_870_912])).expect("process block");
    assert!(result.control_update_applied);
    assert_eq!(transport.output(EndpointId::Microphone), Some(vec![0.25, -0.25]));
    assert_eq!(transport.output(EndpointId::MonitorMix), Some(vec![0.0, 0.0]));
}

#[test]
fn staging_reports_the_profile_before_the_stager() {
    let profile = MixerProfileError { code: 1 };
    let stage = StageError { code: 2 };
    assert_eq!(
        try_stage_profile(Err(profile), Err(stage)),
        Err(TransportControlError::Profile(profile))
    );
    assert_eq!(try_stage_profile(Ok(()), Err(stage)), Err(TransportControlError::Stage(stage)));
}

#[test]
fn capture_lengths_are_exact_and_failed_validation_is_sticky() {
    let mut transport = new_transport(2, 2);
    assert_eq!(transport.capture(&[]), Err(TransportError::NoCaptureProgress));
    assert_eq!(
        transport.capture(&[0; 7]),
        Err(TransportError::PartialCaptureFrame { bytes: 7 })
    );
    assert_eq!(transport.capture(&bytes(&[0, 0])), Err(TransportError::Failed));

    let mut transport = new_transport(2, 2);
    assert_eq!(
        transport.capture(&bytes(&[0; 6])),
        Err(TransportError::CaptureBlockTooLarge { maximum_frames: 2, actual_frames: 3 })
    );
}

#[test]
fn an_engine_failure_is_sticky() {
    let mut transport = new_transport(2, 2);
    transport.engine = Err(ProcessError { code: 9 });
    assert_eq!(
        transport.capture(&bytes(&[0, 0])),
        Err(TransportError::Engine(ProcessError { code: 9 }))
    );
    transport.engine = Ok(());
    assert_eq!(transport.capture(&bytes(&[0, 0])), Err(TransportError::Failed));
}

fn buffers(frames: usize) -> TransportBuffers {
    TransportBuffers {
        microphone_input: vec![0; 2 * frames],
        system_input: vec![0; 2 * frames],
        microphone_output: vec![0; 2 * frames],
        monitor_output: vec![0; 2 * frames],
        stream_output: vec![0; 2 * frames],
        playback_bytes: vec![0; 8 * frames],
    }
}

#[test]
fn each_allocation_outcome_of_a_transport_has_its_result() {
    let no_memory = TransportBuildError::BufferAllocation;
    assert!(matches!(SystemRing::from_frames(4, None), Err(error) if error == no_memory));
    let ring = SystemRing::from_frames(4, Some(vec![(0, 0); 5])).expect("allocated slots");
    assert_eq!(ring.capacity_frames(), 4);
    assert_eq!(ring.available_frames(), 0);

    let assemble = |ring, buffers| {
        CaptureClockTransport::assemble(pcm(2), 4, ring, buffers)
            .map(|(transport, ring)| (transport.max_frames, ring.capacity_frames()))
    };
    let fifo = || SystemRing::try_new(4);
    assert_eq!(assemble(fifo(), Some(buffers(2))), Ok((2, 4)));
    assert_eq!(assemble(fifo(), None), Err(no_memory));
    assert_eq!(assemble(Err(no_memory), Some(buffers(2))), Err(no_memory));
    assert_eq!(
        assemble(SystemRing::try_new(usize::MAX), None),
        Err(TransportBuildError::SystemCapacityOverflow)
    );
}

#[test]
fn one_block_runs_through_its_stages_in_order() {
    let mut fixture = new_transport(2, 4);
    let capture = bytes(&[1 << 30, 0, 0, 1 << 30]);
    let accepted = fixture.capture(&capture).expect("preflight block");
    assert_eq!(accepted.delivery, ProcessedDelivery::Preflight);
    let mut device = FailingPlayback { error: TransportPlaybackError::ShortWrite, writes: 0 };
    assert_eq!(
        fixture.process(&capture, Some(&mut device)),
        Err(TransportError::Playback(TransportPlaybackError::ShortWrite))
    );
    assert_eq!(device.writes, 1);
    assert!(fixture.transport.failed);
    assert_eq!(fixture.process(&capture, Some(&mut device)), Err(TransportError::Failed));
    assert_eq!(device.writes, 1);
}
