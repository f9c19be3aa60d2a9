//! PCM geometry, packed samples, card selection and the production host.

use librewave_platform_linux::audio_host::alsa::{
    classify_alsa_read_error, classify_errno, classify_errno_with, control_name,
    finish_alsa_recovery, finish_failed_recovery, pcm_name, select_pcm_devices,
    select_revalidated_card, validate_applied_pcm, validate_applied_software, validate_card_id,
    validate_opened_pcm, validate_product, validate_selection, CaptureRead, ErrnoCodes, OpenedPcm,
    ReadFailureStep, RecoveryStep,
};
use librewave_platform_linux::audio_host::endpoints::{
    deliberate_endpoints, EndpointFlow, EndpointId,
};
use librewave_platform_linux::audio_host::host::{
    card_to_scan, scan_outcome, GraphNotReady, ResourceActivity,
};
use librewave_platform_linux::audio_host::pcm::{
    checked_audio_bytes, decode_s24_3le, encode_s24_3le, packed_frame_count, PhysicalPcmParameters,
};
use librewave_platform_linux::audio_host::pipewire::{
    is_candidate_physical_object, PhysicalObjectKind, PhysicalObjectProperties,
};
use librewave_platform_linux::audio_host::worker::PcmIoError;
use librewave_platform_linux::audio_host::{
    endpoint_plans, AudioResourceState, EndpointPlan, LinuxAudioError, LinuxAudioHost,
    PackedS24Error, PcmBufferConfig, PcmConfigError, PcmDirection, PipeWireEndpointDirection,
    Wave3PhysicalIoConfig,
};
use librewave_platform_linux::audio_lifecycle::{HiddenPhysicalNode, HIDDEN_PHYSICAL_NODES};
use librewave_platform_linux::{AlsaCardInfo, DeviceIdentity, UsbDeviceCandidate, UsbTopology};

const S24_MIN: i32 = -8_388_608;
const S24_MAX: i32 = 8_388_607;
const S24_SCALE: f64 = 8_388_608.0;

fn bytes(raw: &[i32]) -> Vec<u8> {
    raw.iter().flat_map(|sample| sample.to_le_bytes()[..3].to_vec()).collect()
}

fn bits(samples: &[f32]) -> Vec<u32> {
    samples.iter().map(|sample| sample.to_bits()).collect()
}

fn card(number: u32, id: &str) -> AlsaCardInfo {
    AlsaCardInfo { number, id: Some(id.to_owned()), name: Some("Wave:3".to_owned()) }
}

fn candidate() -> UsbDeviceCandidate {
    candidate_with("1-8.3", vec![card(7, "Wave3")])
}

fn candidate_with(topology: &str, alsa_cards: Vec<AlsaCardInfo>) -> UsbDeviceCandidate {
    UsbDeviceCandidate {
        identity: DeviceIdentity::wave3(),
        topology: UsbTopology::new(topology),
        alsa_cards,
    }
}

fn pcm_config() -> Wave3PhysicalIoConfig {
    Wave3PhysicalIoConfig::try_new(256, 1_024, 192, 768).expect("valid test PCM geometry")
}

#[test]
fn physical_geometry_is_exact_independent_and_checked() {
    let config = Wave3PhysicalIoConfig::try_new(1, 1, 3, 5).expect("valid one-period buffers");
    assert_eq!(
        config.parameters(PcmDirection::Capture),
        PhysicalPcmParameters {
            direction: PcmDirection::Capture,
            rate: 48_000,
            channels: 1,
            period_frames: 1,
            buffer_frames: 1,
        }
    );
    assert_eq!(
        config.parameters(PcmDirection::Playback),
        PhysicalPcmParameters {
            direction: PcmDirection::Playback,
            rate: 48_000,
            channels: 2,
            period_frames: 3,
            buffer_frames: 5,
        }
    );
    assert_eq!(config.capture_period_bytes(), Ok(3));
    assert_eq!(config.capture_buffer_bytes(), Ok(3));
    assert_eq!(config.playback_period_bytes(), Ok(18));
    assert_eq!(config.playback_buffer_bytes(), Ok(30));
    assert!(matches!(
        Wave3PhysicalIoConfig::try_new(2, 1, 3, 3),
        Err(PcmConfigError::PeriodExceedsBuffer { .. })
    ));
    assert_eq!(Wave3PhysicalIoConfig::try_new(0, 1, 1, 1), Err(PcmConfigError::ZeroPeriod));
    assert_eq!(Wave3PhysicalIoConfig::try_new(1, 1, 1, 0), Err(PcmConfigError::ZeroBuffer));
    assert_eq!(checked_audio_bytes(usize::MAX, 2), Err(PcmConfigError::GeometryOverflow));
}

#[test]
fn pcm_config_errors_describe_themselves() {
    assert_eq!(PcmConfigError::ZeroPeriod.message(), "PCM period frames must be nonzero");
    assert_eq!(PcmConfigError::ZeroBuffer.message(), "PCM buffer frames must be nonzero");
    assert!(PcmConfigError::PeriodExceedsBuffer { period_frames: 20, buffer_frames: 10 }
        .message()
        .contains("20"));
    let geometry = PcmBufferConfig::try_new(2, 4).expect("geometry");
    assert_eq!((geometry.period_frames(), geometry.buffer_frames()), (2, 4));
    assert_eq!(pcm_config().capture().period_frames(), 256);
    assert_eq!(pcm_config().playback().buffer_frames(), 768);
    assert_eq!(PcmDirection::Capture.channels(), 1);
    assert_eq!(PcmDirection::Playback.channels(), 2);
}

#[test]
fn s24_3le_decodes_minimum_maximum_zero_and_sign_extension() {
    let encoded = bytes(&[S24_MIN, -2, -1, 0, 1, S24_MAX]);
    let mut decoded = [0_u32; 6];
    assert_eq!(decode_s24_3le(&encoded, 1, &mut decoded), Ok(6));
    let decoded = decoded.map(f32::from_bits);
    assert_eq!(decoded[0], -1.0);
    assert_eq!(decoded[1], -2.0 / 8_388_608.0);
    assert_eq!(decoded[2], -1.0 / 8_388_608.0);
    assert_eq!(decoded[3], 0.0);
    assert_eq!(decoded[4], 1.0 / 8_388_608.0);
    assert_eq!(decoded[5], 8_388_607.0 / 8_388_608.0);
}

#[test]
fn s24_3le_encoding_rounds_and_saturates_deterministically() {
    let half_step = (0.5 / S24_SCALE) as f32;
    let samples = [-2.0, -1.0, -half_step, 0.0, half_step, 1.0, 2.0];
    let mut encoded = [0; 21];
    assert_eq!(encode_s24_3le(&bits(&samples), 1, &mut encoded), Ok(samples.len()));
    assert_eq!(encoded.as_slice(), bytes(&[S24_MIN, S24_MIN, -1, 0, 1, S24_MAX, S24_MAX]));
}

#[test]
fn s24_3le_encoding_follows_the_rounded_product() {
    let mut samples = Vec::new();
    let mut expected = Vec::new();
    let mut seed: u32 = 0x1234_5678;
    for _ in 0..20_000 {
        seed = seed.wrapping_mul(1_664_525).wrapping_add(1_013_904_223);
        let sample = f32::from_bits(seed);
        if sample.is_finite() {
            samples.push(sample.to_bits());
            let scaled = (f64::from(sample) * S24_SCALE).round();
            expected.push(scaled.clamp(f64::from(S24_MIN), f64::from(S24_MAX)) as i32);
        }
    }
    let mut encoded = vec![0; samples.len() * 3];
    assert_eq!(encode_s24_3le(&samples, 1, &mut encoded), Ok(samples.len()));
    assert_eq!(encoded, bytes(&expected));
}

#[test]
fn packed_samples_survive_a_round_trip() {
    let raw: Vec<i32> = (0..4_096).map(|step| S24_MIN + step * 4_095).collect();
    let packed = bytes(&raw);
    let mut decoded = vec![0_u32; raw.len()];
    assert_eq!(decode_s24_3le(&packed, 2, &mut decoded), Ok(raw.len() / 2));
    for (sample, value) in decoded.iter().zip(&raw) {
        assert_eq!(f64::from(f32::from_bits(*sample)), f64::from(*value) / S24_SCALE);
    }
    let mut encoded = vec![0; packed.len()];
    assert_eq!(encode_s24_3le(&decoded, 2, &mut encoded), Ok(raw.len() / 2));
    assert_eq!(encoded, packed);
}

#[test]
fn packed_blocks_reject_partial_samples_frames_and_nonfinite_values() {
    assert_eq!(packed_frame_count(1, 1), Err(PackedS24Error::PartialSample { bytes: 1 }));
    assert_eq!(
        packed_frame_count(3, 2),
        Err(PackedS24Error::PartialFrame { samples: 1, channels: 2 })
    );
    assert_eq!(
        encode_s24_3le(&bits(&[f32::NAN]), 1, &mut [0; 3]),
        Err(PackedS24Error::NonFinite { sample_index: 0 })
    );
}

#[test]
fn packed_blocks_reject_channels_and_lengths() {
    assert_eq!(packed_frame_count(3, 0), Err(PackedS24Error::InvalidChannels { actual: 0 }));
    assert_eq!(
        decode_s24_3le(&[0; 6], 1, &mut [0; 1]),
        Err(PackedS24Error::OutputLength { expected: 2, actual: 1 })
    );
    assert_eq!(
        encode_s24_3le(&bits(&[0.0, 0.0, f32::INFINITY]), 1, &mut [7; 9]),
        Err(PackedS24Error::NonFinite { sample_index: 2 })
    );
    assert_eq!(
        encode_s24_3le(&bits(&[0.0]), 1, &mut [0; 4]),
        Err(PackedS24Error::OutputLength { expected: 3, actual: 4 })
    );
    assert_eq!(
        encode_s24_3le(&bits(&[0.0]), 2, &mut [0; 3]),
        Err(PackedS24Error::PartialFrame { samples: 1, channels: 2 })
    );
    assert!(PackedS24Error::InvalidChannels { actual: 0 }.message().contains("nonzero"));
}

#[test]
fn applied_pcm_validation_has_no_format_or_geometry_fallback() {
    assert_eq!(validate_applied_pcm(PcmDirection::Capture, true, true), Ok(()));
    assert_eq!(
        validate_applied_pcm(PcmDirection::Capture, false, true),
        Err(LinuxAudioError::UnsupportedPcmFormat { direction: PcmDirection::Capture })
    );
    assert_eq!(
        validate_applied_pcm(PcmDirection::Playback, true, false),
        Err(LinuxAudioError::PcmConfigurationAdjusted { direction: PcmDirection::Playback })
    );
}

#[test]
fn exact_card_selection_rejects_renumber_id_topology_and_ambiguity() {
    let expected = candidate();
    assert_eq!(
        select_revalidated_card(&expected, &vec![candidate()]),
        Ok((card(7, "Wave3"), UsbTopology::new("1-8.3")))
    );
    for changed in [
        candidate_with("1-8.3", vec![card(8, "Wave3")]),
        candidate_with("1-8.3", vec![card(7, "Other")]),
        candidate_with("1-9", vec![card(7, "Wave3")]),
    ] {
        assert_eq!(
            select_revalidated_card(&expected, &vec![changed]),
            Err(LinuxAudioError::AlsaCardChanged)
        );
    }
    let ambiguous = || candidate_with("1-8.3", vec![card(7, "Wave3"), card(8, "Wave3_1")]);
    assert_eq!(
        select_revalidated_card(&ambiguous(), &vec![ambiguous()]),
        Err(LinuxAudioError::AmbiguousAlsaCard)
    );
}

#[test]
fn a_card_seen_twice_or_without_an_identifier_is_refused() {
    assert_eq!(
        select_revalidated_card(&candidate(), &vec![candidate(), candidate()]),
        Err(LinuxAudioError::AlsaCardChanged)
    );
    let unnamed =
        candidate_with("1-8.3", vec![AlsaCardInfo { number: 7, id: None, name: None }]);
    assert_eq!(
        select_revalidated_card(&unnamed, &vec![candidate()]),
        Err(LinuxAudioError::MissingAlsaCardId)
    );
    assert_eq!(
        select_revalidated_card(&candidate(), &vec![unnamed]),
        Err(LinuxAudioError::AlsaCardChanged)
    );
}

#[test]
fn alsa_card_id_uses_only_the_kernel_identifier_grammar() {
    for valid in ["Wave3", "Wave_3", "A1"] {
        assert_eq!(validate_card_id(valid), Ok(()));
    }
    for invalid in
        ["", "123", "1Wave", "_Wave", "Wave-3", "Wave3,DEV=9", "Wave3\0Other", "MoreThanFifteen1"]
    {
        assert_eq!(validate_card_id(invalid), Err(LinuxAudioError::InvalidAlsaCardId));
    }

    let expected = || candidate_with("1-8.3", vec![card(7, "Wave3,DEV=9")]);
    assert_eq!(
        select_revalidated_card(&expected(), &vec![expected()]),
        Err(LinuxAudioError::InvalidAlsaCardId)
    );
}

#[test]
fn one_pcm_of_each_direction_is_selected_and_revalidated() {
    let topology = || UsbTopology::new("1-8.3");
    let selected = select_pcm_devices(&candidate(), card(7, "Wave3"), topology(), &[0], &[1])
        .expect("selection");
    assert_eq!((selected.capture_device, selected.playback_device), (0, 1));
    assert_eq!((selected.card_number, selected.card_id.as_str()), (7, "Wave3"));
    let identity = DeviceIdentity::wave3();
    let now = card(7, "Wave3");
    assert_eq!(
        validate_selection(&selected, identity, &now, &topology(), &[0], &[1]),
        Ok(())
    );
    for (capture, playback) in [(&[1][..], &[1][..]), (&[0][..], &[0][..]), (&[0, 2][..], &[1][..])]
    {
        assert_eq!(
            validate_selection(&selected, identity, &now, &topology(), capture, playback),
            Err(LinuxAudioError::AlsaCardChanged)
        );
    }
    assert_eq!(
        select_pcm_devices(&candidate(), card(7, "Wave3"), topology(), &[0, 1], &[1]),
        Err(LinuxAudioError::AmbiguousPcmDirection { direction: PcmDirection::Capture })
    );
    assert_eq!(
        select_pcm_devices(&candidate(), card(7, "Wave3"), topology(), &[0], &[]),
        Err(LinuxAudioError::AmbiguousPcmDirection { direction: PcmDirection::Playback })
    );
    assert_eq!(validate_product(&candidate()), Ok(()));
}

#[test]
fn pcm_names_are_exact() {
    assert_eq!(control_name("Wave3"), Ok(String::from("hw:CARD=Wave3")));
    assert_eq!(pcm_name("Wave3", 12), Ok(String::from("hw:CARD=Wave3,DEV=12,SUBDEV=0")));
    assert_eq!(pcm_name("Wave-3", 0), Err(LinuxAudioError::InvalidAlsaCardId));
    assert_eq!(control_name(""), Err(LinuxAudioError::InvalidAlsaCardId));
}

#[test]
fn an_opened_pcm_is_the_selected_one() {
    let opened = OpenedPcm { card: 7, device: 1, subdevice: 0, direction: PcmDirection::Playback };
    assert_eq!(validate_opened_pcm(opened, 7, 1, PcmDirection::Playback), Ok(()));
    for changed in [
        OpenedPcm { card: 8, ..opened },
        OpenedPcm { device: 0, ..opened },
        OpenedPcm { subdevice: 1, ..opened },
        OpenedPcm { direction: PcmDirection::Capture, ..opened },
    ] {
        assert_eq!(
            validate_opened_pcm(changed, 7, 1, PcmDirection::Playback),
            Err(LinuxAudioError::AlsaCardChanged)
        );
    }
}

#[test]
fn errno_values_have_their_pcm_classes() {
    assert_eq!(classify_errno(libc::EAGAIN), PcmIoError::Again);
    assert_eq!(classify_errno(libc::EINTR), PcmIoError::Interrupted);
    assert_eq!(classify_errno(libc::EPIPE), PcmIoError::Xrun);
    assert_eq!(classify_errno(libc::ESTRPIPE), PcmIoError::Suspended);
    assert_eq!(classify_errno(libc::ENODEV), PcmIoError::Disconnected);
    assert_eq!(classify_errno(libc::ENXIO), PcmIoError::Disconnected);
    assert_eq!(classify_errno(libc::EIO), PcmIoError::Failed { errno: libc::EIO });
    let codes = ErrnoCodes {
        again: 1,
        interrupted: 2,
        broken_pipe: 3,
        stream_pipe: 4,
        no_device: 5,
        no_such_device: 6,
    };
    assert_eq!(classify_errno_with(4, codes), PcmIoError::Suspended);
    assert_eq!(classify_errno_with(7, codes), PcmIoError::Failed { errno: 7 });
}

#[test]
fn a_failed_read_is_retried_recovered_or_final() {
    assert_eq!(
        classify_alsa_read_error(PcmIoError::Again),
        ReadFailureStep::Done(CaptureRead::WouldBlock)
    );
    assert_eq!(classify_alsa_read_error(PcmIoError::Xrun), ReadFailureStep::Recover);
    assert_eq!(classify_alsa_read_error(PcmIoError::Suspended), ReadFailureStep::Recover);
    assert_eq!(
        classify_alsa_read_error(PcmIoError::Disconnected),
        ReadFailureStep::Done(CaptureRead::Disconnected)
    );
    assert_eq!(
        classify_alsa_read_error(PcmIoError::Failed { errno: 5 }),
        ReadFailureStep::Done(CaptureRead::Failed)
    );
    assert_eq!(finish_failed_recovery(PcmIoError::Disconnected), CaptureRead::Disconnected);
    assert_eq!(finish_failed_recovery(PcmIoError::Xrun), CaptureRead::Failed);
    assert_eq!(finish_alsa_recovery(2), RecoveryStep::Start);
    assert_eq!(finish_alsa_recovery(3), RecoveryStep::Done(CaptureRead::RecoveredXrun));
    assert_eq!(finish_alsa_recovery(8), RecoveryStep::Done(CaptureRead::Disconnected));
    assert_eq!(finish_alsa_recovery(4), RecoveryStep::Done(CaptureRead::Failed));
}

#[test]
fn endpoint_allowlist_direction_names_and_properties_are_exact() {
    let plans = endpoint_plans(&deliberate_endpoints()).expect("deliberate plans are valid");
    assert_eq!(
        plans,
        vec![
            EndpointPlan {
                endpoint: EndpointId::System,
                direction: PipeWireEndpointDirection::Input,
                node_name: "librewave.system",
                node_description: "LibreWave System",
                media_class: "Audio/Sink",
                node_virtual: true,
            },
            EndpointPlan {
                endpoint: EndpointId::Microphone,
                direction: PipeWireEndpointDirection::Output,
                node_name: "librewave.microphone",
                node_description: "LibreWave Microphone",
                media_class: "Audio/Source",
                node_virtual: true,
            },
            EndpointPlan {
                endpoint: EndpointId::MonitorMix,
                direction: PipeWireEndpointDirection::Output,
                node_name: "librewave.monitor-mix",
                node_description: "LibreWave Monitor Mix",
                media_class: "Audio/Source",
                node_virtual: true,
            },
            EndpointPlan {
                endpoint: EndpointId::StreamMix,
                direction: PipeWireEndpointDirection::Output,
                node_name: "librewave.stream-mix",
                node_description: "LibreWave Stream Mix",
                media_class: "Audio/Source",
                node_virtual: true,
            },
        ]
    );
    assert_eq!(
        endpoint_plans(&[EndpointId::Microphone, EndpointId::Microphone]),
        Err(LinuxAudioError::DuplicateEndpoint(EndpointId::Microphone))
    );
    assert_eq!(EndpointId::System.flow(), EndpointFlow::PublicSink);
}

#[test]
fn pipewire_physical_objects_match_only_the_admitted_card() {
    let exact_device = PhysicalObjectProperties {
        vendor_id: Some("0x0fd9"),
        product_id: Some("0x0070"),
        alsa_card: Some("2"),
        alsa_path: Some("hw:2"),
    };
    assert!(is_candidate_physical_object(PhysicalObjectKind::Device, exact_device, 2));
    assert!(is_candidate_physical_object(
        PhysicalObjectKind::Node,
        PhysicalObjectProperties { alsa_path: Some("hw:2"), ..PhysicalObjectProperties::default() },
        2
    ));
    assert!(is_candidate_physical_object(
        PhysicalObjectKind::Node,
        PhysicalObjectProperties {
            alsa_path: Some("hw:2,0,0"),
            ..PhysicalObjectProperties::default()
        },
        2
    ));

    for adjacent in [
        PhysicalObjectProperties { alsa_card: Some("20"), ..exact_device },
        PhysicalObjectProperties { product_id: Some("0x0071"), ..exact_device },
    ] {
        assert!(!is_candidate_physical_object(PhysicalObjectKind::Device, adjacent, 2));
    }
    assert!(!is_candidate_physical_object(
        PhysicalObjectKind::Node,
        PhysicalObjectProperties {
            alsa_path: Some("hw:20"),
            ..PhysicalObjectProperties::default()
        },
        2
    ));
    for malformed in ["", "hw:", "hw:02", "hw:2x", "hw:2,", "plughw:2", "hw:2,0,0,0"] {
        assert!(!is_candidate_physical_object(
            PhysicalObjectKind::Node,
            PhysicalObjectProperties {
                alsa_path: Some(malformed),
                ..PhysicalObjectProperties::default()
            },
            2
        ));
    }
    assert!(!is_candidate_physical_object(PhysicalObjectKind::Other, exact_device, 2));
}

#[test]
fn pipewire_scan_fails_closed_without_one_candidate_card() {
    for candidate in [
        candidate_with("1-8.3", Vec::new()),
        candidate_with("1-8.3", vec![card(2, "Wave3"), card(3, "Wave3_1")]),
    ] {
        assert_eq!(card_to_scan(&candidate), Err(LinuxAudioError::AmbiguousAlsaCard));
    }
    assert_eq!(card_to_scan(&candidate()), Ok(7));
}

#[test]
fn a_scan_passes_only_when_complete_and_clean() {
    assert_eq!(scan_outcome(None, true, false), Ok(()));
    assert_eq!(scan_outcome(None, true, true), Err(LinuxAudioError::PhysicalNodeExposed));
    assert_eq!(
        scan_outcome(None, false, false),
        Err(LinuxAudioError::PipeWire(String::from("registry roundtrip timed out")))
    );
    assert_eq!(
        scan_outcome(Some(String::from("lost")), true, true),
        Err(LinuxAudioError::PipeWire(String::from("lost")))
    );
}

#[test]
fn pcm_config_sizes_independent_checked_period_buffers() {
    let config = pcm_config();
    assert_eq!(config.capture_period_bytes(), Ok(768));
    assert_eq!(config.capture_buffer_bytes(), Ok(3_072));
    assert_eq!(config.playback_period_bytes(), Ok(1_152));
    assert_eq!(config.playback_buffer_bytes(), Ok(4_608));
    assert!(Wave3PhysicalIoConfig::try_new(1, 1, 1, 1).is_ok());
    assert_eq!(
        Wave3PhysicalIoConfig::try_new(2, 1, 1, 1),
        Err(PcmConfigError::PeriodExceedsBuffer { period_frames: 2, buffer_frames: 1 })
    );
}

#[test]
fn applied_software_validation_requires_monotonic_time_and_manual_playback_start() {
    assert_eq!(validate_applied_software(PcmDirection::Capture, true, true), Ok(()));
    assert_eq!(
        validate_applied_software(PcmDirection::Capture, false, true),
        Err(LinuxAudioError::PcmTimestampConfigurationAdjusted {
            direction: PcmDirection::Capture,
        })
    );
    assert_eq!(
        validate_applied_software(PcmDirection::Playback, true, false),
        Err(LinuxAudioError::PlaybackStartThresholdAdjusted)
    );
}

#[test]
fn host_rejects_an_unknown_hidden_node_contract() {
    let mut host = LinuxAudioHost::new();
    assert_eq!(
        host.accept_hidden_nodes(&[HiddenPhysicalNode::Capture]),
        Err(LinuxAudioError::InvalidHiddenPhysicalNodeContract)
    );
    assert_eq!(host.accept_hidden_nodes(&HIDDEN_PHYSICAL_NODES), Ok(()));
}

#[test]
fn endpoint_publication_cannot_bypass_the_stage_two_boundary() {
    let mut host = LinuxAudioHost::new();
    assert_eq!(
        host.publish_endpoints(&deliberate_endpoints()),
        Err(LinuxAudioError::EndpointStreamTransportUnavailable)
    );
    assert_eq!(
        host.resource_state(true),
        AudioResourceState {
            pipewire_connection_owned: true,
            not_ready: Some(GraphNotReady::EndpointStreamTransportUnavailable),
            ..AudioResourceState::default()
        }
    );
    assert_eq!(host.resource_state(false).capture, ResourceActivity::Closed);
}

#[test]
fn audio_errors_describe_themselves() {
    let capture = PcmDirection::Capture;
    for (error, text) in [
        (
            LinuxAudioError::AmbiguousAlsaCard,
            "the admitted USB device does not identify one ALSA card",
        ),
        (
            LinuxAudioError::AmbiguousPcmDirection { direction: PcmDirection::Playback },
            "the ALSA card does not have one playback PCM",
        ),
        (LinuxAudioError::Alsa(String::from("no")), "ALSA failed: no"),
        (
            LinuxAudioError::UnsupportedPcmFormat { direction: capture },
            "ALSA did not apply S24_3LE for Capture",
        ),
        (
            LinuxAudioError::PcmTimestampConfigurationAdjusted { direction: capture },
            "ALSA adjusted the required Capture timestamp mode",
        ),
        (
            LinuxAudioError::DuplicateEndpoint(EndpointId::MonitorMix),
            "endpoint MonitorMix appears more than once",
        ),
        (LinuxAudioError::TeardownFailed, "one or more audio resources stayed open"),
    ] {
        assert_eq!(error.message(), text);
    }
}
