//! Selecting the device, its location and its control interface.

use librewave_platform_linux::usb::{
    admission_error, admission_snapshot, config_snapshot, descriptor_error, is_reviewed_wave3,
    map_rusb_error, parse_decimal_u8, select_control_interface, select_device_at_location,
    transport_probe_error, AdmissionError, ApiVersion, DecodedConfig, DescriptorError,
    DeviceAdmissionSnapshot, FixedPointValue, InterfaceObservation, LibusbError, LocatedDevice,
    ProbedSession, SemanticValue, SessionError, TopologyError, TransportError, UsbLocation,
    UsbProbeError, VolumeSelection, Wave3ConfigSnapshot, Wave3Controls,
};

const WAVE3_CONTROL_CLASS: u8 = 0xff;
const WAVE3_CONTROL_SUBCLASS: u8 = 0xf0;
const WAVE3_CONTROL_PROTOCOL: u8 = 0x00;
const DFU_CLASS: u8 = 0xfe;
const DFU_SUBCLASS: u8 = 0x01;

fn interface(number: u8, class: u8, subclass: u8, protocol: u8) -> InterfaceObservation {
    InterfaceObservation { number, class, subclass, protocol }
}

fn located(bus: u8, ports: &[u8]) -> LocatedDevice {
    LocatedDevice { bus, ports: Some(ports.to_vec()) }
}

/// Names the variant of a libusb failure as the USB backend does.
fn libusb(error: rusb::Error) -> LibusbError {
    match error {
        rusb::Error::Io => LibusbError::Io,
        rusb::Error::InvalidParam => LibusbError::InvalidParam,
        rusb::Error::Access => LibusbError::Access,
        rusb::Error::NoDevice => LibusbError::NoDevice,
        rusb::Error::NotFound => LibusbError::NotFound,
        rusb::Error::Busy => LibusbError::Busy,
        rusb::Error::Timeout => LibusbError::Timeout,
        rusb::Error::Overflow => LibusbError::Overflow,
        rusb::Error::Pipe => LibusbError::Pipe,
        rusb::Error::Interrupted => LibusbError::Interrupted,
        rusb::Error::NoMem => LibusbError::NoMem,
        rusb::Error::NotSupported => LibusbError::NotSupported,
        rusb::Error::BadDescriptor => LibusbError::BadDescriptor,
        rusb::Error::Other => LibusbError::Other,
    }
}

fn controls() -> Wave3Controls {
    Wave3Controls {
        microphone_gain: FixedPointValue { raw: 512, fractional_bits: 8 },
        microphone_mute: false,
        clipguard_enabled: true,
        lowcut_enabled: false,
        headphone_volume: FixedPointValue { raw: -7_680, fractional_bits: 8 },
        headphone_mute: true,
        direct_monitor: FixedPointValue { raw: 12_800, fractional_bits: 8 },
        volume_select: VolumeSelection::Microphone,
        gain_lock: true,
    }
}

fn decoded() -> DecodedConfig {
    DecodedConfig {
        controls: Some(controls()),
        all_leds_off: Some(SemanticValue::Boolean(true)),
        leds_flip: Some(SemanticValue::Boolean(false)),
    }
}

#[test]
fn selects_exact_reviewed_control_interface_without_assuming_its_number() {
    let interfaces = [
        interface(0, 0x01, 0x01, 0x00),
        interface(3, 0x01, 0x02, 0x00),
        interface(7, WAVE3_CONTROL_CLASS, WAVE3_CONTROL_SUBCLASS, WAVE3_CONTROL_PROTOCOL),
    ];

    assert_eq!(select_control_interface(&interfaces), Ok(7));
}

#[test]
fn matches_only_reviewed_normal_mode_usb_identity() {
    assert!(is_reviewed_wave3(0x0fd9, 0x0070));
    assert!(!is_reviewed_wave3(0x0fd9, 0x0071));
    assert!(!is_reviewed_wave3(0x152a, 0x0070));
}

#[test]
fn parses_bus_and_port_chain_from_sysfs_topology() {
    assert_eq!(UsbLocation::parse("1-8.3"), Ok(UsbLocation { bus: 1, ports: vec![8, 3] }));
    assert_eq!(UsbLocation::parse("12-4"), Ok(UsbLocation { bus: 12, ports: vec![4] }));
}

#[test]
fn classifies_malformed_topologies_before_usb_access() {
    assert_eq!(UsbLocation::parse("1"), Err(TopologyError::InvalidFormat));
    assert_eq!(UsbLocation::parse("usb1-8"), Err(TopologyError::InvalidBus));
    assert_eq!(UsbLocation::parse("1-8:1.0"), Err(TopologyError::InvalidPortChain));
    assert_eq!(UsbLocation::parse("1-0"), Err(TopologyError::InvalidPortChain));
}

#[test]
fn topology_edges_are_exact() {
    assert_eq!(UsbLocation::parse(""), Err(TopologyError::InvalidFormat));
    assert_eq!(UsbLocation::parse("-1"), Err(TopologyError::InvalidBus));
    assert_eq!(UsbLocation::parse("0-1"), Err(TopologyError::InvalidBus));
    assert_eq!(UsbLocation::parse("256-1"), Err(TopologyError::InvalidBus));
    assert_eq!(UsbLocation::parse("+1-1"), Err(TopologyError::InvalidBus));
    assert_eq!(UsbLocation::parse("1-"), Err(TopologyError::InvalidPortChain));
    assert_eq!(UsbLocation::parse("1-8."), Err(TopologyError::InvalidPortChain));
    assert_eq!(UsbLocation::parse("1-8..3"), Err(TopologyError::InvalidPortChain));
    assert_eq!(UsbLocation::parse("1-8-3"), Err(TopologyError::InvalidPortChain));
    assert_eq!(UsbLocation::parse("1-+8"), Err(TopologyError::InvalidPortChain));
    assert_eq!(
        UsbLocation::parse("255-1.2.3.4.5.6.255"),
        Ok(UsbLocation { bus: 255, ports: vec![1, 2, 3, 4, 5, 6, 255] })
    );
    assert_eq!(UsbLocation::parse("1-1.2.3.4.5.6.7.8"), Err(TopologyError::InvalidPortChain));
    assert_eq!(UsbLocation::parse("001-08"), Ok(UsbLocation { bus: 1, ports: vec![8] }));
    assert_eq!(parse_decimal_u8(&['2', '5', '5']), Some(255));
    assert_eq!(parse_decimal_u8(&['2', '5', '6']), None);
    assert_eq!(parse_decimal_u8(&[]), None);
}

#[test]
fn selects_exact_location_when_two_identical_wave3_devices_exist() {
    let first = located(1, &[8, 2]);
    let selected = located(1, &[8, 3]);
    let devices = vec![first, selected];

    assert_eq!(
        select_device_at_location(&devices, &UsbLocation::parse("1-8.3").expect("topology")),
        Ok(1)
    );
}

#[test]
fn reports_not_found_when_exact_location_is_absent() {
    let devices = vec![located(1, &[8, 2]), LocatedDevice { bus: 1, ports: None }];

    assert_eq!(
        select_device_at_location(&devices, &UsbLocation::parse("1-8.3").expect("topology")),
        Err(UsbProbeError::NotFound)
    );
}

#[test]
fn the_first_of_two_devices_at_one_location_is_selected() {
    let devices = vec![located(2, &[8, 3]), located(1, &[8, 3]), located(1, &[8, 3])];
    assert_eq!(
        select_device_at_location(&devices, &UsbLocation::parse("1-8.3").expect("topology")),
        Ok(1)
    );
}

#[test]
fn rejects_dfu_class_interface_even_when_it_is_unclaimed() {
    assert_eq!(
        select_control_interface(&[interface(4, DFU_CLASS, DFU_SUBCLASS, 0x01)]),
        Err(DescriptorError::ControlInterfaceNotFound)
    );
    assert_eq!(
        select_control_interface(&[
            interface(3, WAVE3_CONTROL_CLASS, WAVE3_CONTROL_SUBCLASS, WAVE3_CONTROL_PROTOCOL),
            interface(4, DFU_CLASS, DFU_SUBCLASS, 0x01),
        ]),
        Ok(3)
    );
}

#[test]
fn refuses_nearby_and_ambiguous_control_interface_shapes() {
    assert_eq!(
        select_control_interface(&[
            interface(2, WAVE3_CONTROL_CLASS, 0xef, WAVE3_CONTROL_PROTOCOL),
            interface(3, WAVE3_CONTROL_CLASS, WAVE3_CONTROL_SUBCLASS, 0x01),
        ]),
        Err(DescriptorError::ControlInterfaceNotFound)
    );
    assert_eq!(
        select_control_interface(&[
            interface(4, WAVE3_CONTROL_CLASS, WAVE3_CONTROL_SUBCLASS, WAVE3_CONTROL_PROTOCOL),
            interface(9, WAVE3_CONTROL_CLASS, WAVE3_CONTROL_SUBCLASS, WAVE3_CONTROL_PROTOCOL),
        ]),
        Err(DescriptorError::MultipleControlInterfaces { first: 4, second: 9 })
    );
}

#[test]
fn alternate_settings_of_one_control_interface_are_one_interface() {
    assert_eq!(
        select_control_interface(&[
            interface(4, WAVE3_CONTROL_CLASS, WAVE3_CONTROL_SUBCLASS, WAVE3_CONTROL_PROTOCOL),
            interface(4, WAVE3_CONTROL_CLASS, WAVE3_CONTROL_SUBCLASS, WAVE3_CONTROL_PROTOCOL),
        ]),
        Ok(4)
    );
    assert_eq!(select_control_interface(&[]), Err(DescriptorError::ControlInterfaceNotFound));
}

#[test]
fn maps_libusb_failures_to_stable_transport_classes() {
    assert_eq!(map_rusb_error(libusb(rusb::Error::Access)), TransportError::PermissionDenied);
    assert_eq!(map_rusb_error(libusb(rusb::Error::Busy)), TransportError::Busy);
    assert_eq!(map_rusb_error(libusb(rusb::Error::NotFound)), TransportError::NotFound);
    assert_eq!(map_rusb_error(libusb(rusb::Error::NoDevice)), TransportError::Disconnected);
    assert_eq!(map_rusb_error(libusb(rusb::Error::Timeout)), TransportError::TimedOut);
    assert_eq!(map_rusb_error(libusb(rusb::Error::Pipe)), TransportError::Io);
}

#[test]
fn every_other_libusb_failure_is_plain_io() {
    for error in [
        rusb::Error::Io,
        rusb::Error::InvalidParam,
        rusb::Error::Overflow,
        rusb::Error::Interrupted,
        rusb::Error::NoMem,
        rusb::Error::NotSupported,
        rusb::Error::BadDescriptor,
        rusb::Error::Other,
    ] {
        assert_eq!(map_rusb_error(libusb(error)), TransportError::Io);
    }
}

#[test]
fn only_a_bad_descriptor_is_a_malformed_descriptor() {
    assert_eq!(
        descriptor_error(LibusbError::BadDescriptor),
        UsbProbeError::Descriptor(DescriptorError::Malformed)
    );
    assert_eq!(
        descriptor_error(LibusbError::Busy),
        UsbProbeError::Session(SessionError::Transport(TransportError::Busy))
    );
    assert_eq!(
        transport_probe_error(LibusbError::BadDescriptor),
        UsbProbeError::Session(SessionError::Transport(TransportError::Io))
    );
}

#[test]
fn fake_transport_produces_a_serial_free_admitted_snapshot() {
    let session = ProbedSession { api: ApiVersion { major: 5, minor: 4 }, config: decoded() };
    let admission = admission_snapshot(Ok(session));
    assert_eq!(
        admission,
        DeviceAdmissionSnapshot::Admitted {
            api: ApiVersion { major: 5, minor: 4 },
            config: Wave3ConfigSnapshot {
                input_gain: FixedPointValue { raw: 512, fractional_bits: 8 },
                input_mute: false,
                clipguard_enable: true,
                lowcut_enable: false,
                headphone_volume: FixedPointValue { raw: -7_680, fractional_bits: 8 },
                headphone_mute: true,
                direct_monitor: FixedPointValue { raw: 12_800, fractional_bits: 8 },
                volume_select: VolumeSelection::Microphone,
                all_leds_off: true,
                leds_flip: false,
                gain_lock: true,
            },
        }
    );
}

#[test]
fn a_configuration_that_cannot_be_decoded_is_malformed() {
    let mut undecoded = decoded();
    undecoded.controls = None;
    let mut no_leds = decoded();
    no_leds.all_leds_off = None;
    let mut other_flip = decoded();
    other_flip.leds_flip = Some(SemanticValue::Other);
    for config in [undecoded, no_leds, other_flip] {
        assert_eq!(config_snapshot(config), None);
        let session = ProbedSession { api: ApiVersion { major: 5, minor: 4 }, config };
        assert_eq!(
            admission_snapshot(Ok(session)),
            DeviceAdmissionSnapshot::Failed { error: AdmissionError::MalformedResponse }
        );
    }
}

#[test]
fn probe_failures_remain_explicit_in_the_portable_snapshot() {
    let cases = [
        (
            UsbProbeError::Session(SessionError::Transport(TransportError::PermissionDenied)),
            AdmissionError::PermissionDenied,
        ),
        (
            UsbProbeError::Session(SessionError::UnsupportedApi {
                api: ApiVersion { major: 5, minor: 2 },
            }),
            AdmissionError::UnsupportedApi { api: ApiVersion { major: 5, minor: 2 } },
        ),
        (
            UsbProbeError::Session(SessionError::ShortTransfer { expected: 16, actual: 15 }),
            AdmissionError::MalformedResponse,
        ),
        (
            UsbProbeError::Descriptor(DescriptorError::Malformed),
            AdmissionError::DescriptorMismatch,
        ),
        (
            UsbProbeError::Session(SessionError::Transport(TransportError::Disconnected)),
            AdmissionError::Disconnected,
        ),
    ];
    for (error, expected) in cases {
        assert_eq!(
            admission_snapshot(Err(error)),
            DeviceAdmissionSnapshot::Failed { error: expected }
        );
    }
}

#[test]
fn the_remaining_probe_failures_have_their_own_classes() {
    let cases = [
        (UsbProbeError::NotFound, AdmissionError::Disconnected),
        (
            UsbProbeError::Session(SessionError::Transport(TransportError::NotFound)),
            AdmissionError::Disconnected,
        ),
        (
            UsbProbeError::Topology(TopologyError::InvalidBus),
            AdmissionError::DescriptorMismatch,
        ),
        (
            UsbProbeError::Session(SessionError::Transport(TransportError::Busy)),
            AdmissionError::InterfaceBusy,
        ),
        (
            UsbProbeError::Session(SessionError::Transport(TransportError::TimedOut)),
            AdmissionError::TimedOut,
        ),
        (
            UsbProbeError::Session(SessionError::Transport(TransportError::Io)),
            AdmissionError::Transport,
        ),
        (
            UsbProbeError::Session(SessionError::LongTransfer { expected: 2, actual: 3 }),
            AdmissionError::MalformedResponse,
        ),
        (
            UsbProbeError::Session(SessionError::Schema { code: 4 }),
            AdmissionError::MalformedResponse,
        ),
        (
            UsbProbeError::AdmissionCleanup {
                admission: SessionError::Transport(TransportError::Busy),
                release: TransportError::Disconnected,
            },
            AdmissionError::Transport,
        ),
    ];
    for (error, expected) in cases {
        assert_eq!(admission_error(error), expected);
    }
}

#[test]
fn usb_errors_describe_themselves() {
    assert_eq!(
        DescriptorError::IdentityMismatch { vendor_id: 0x0fd9, product_id: 0x0071 }.message(),
        "USB device at the selected topology has identity 0fd9:0071"
    );
    assert_eq!(DescriptorError::Malformed.message(), "malformed USB configuration descriptor");
    assert_eq!(
        DescriptorError::ControlInterfaceNotFound.message(),
        "USB configuration has no reviewed Wave:3 control interface"
    );
    assert_eq!(
        DescriptorError::MultipleControlInterfaces { first: 7, second: 19 }.message(),
        "USB configuration has multiple reviewed Wave:3 control interfaces (7 and 19)"
    );
    assert_eq!(
        TopologyError::InvalidFormat.message(),
        "USB topology must have the form BUS-PORT[.PORT]"
    );
    assert_eq!(TopologyError::InvalidBus.message(), "USB topology has an invalid bus number");
    assert_eq!(
        UsbProbeError::Topology(TopologyError::InvalidPortChain).message("", ""),
        "USB topology has an invalid port-number chain"
    );
    assert_eq!(UsbProbeError::NotFound.message("", ""), "selected Wave:3 USB device not found");
    let busy = SessionError::Transport(TransportError::Busy);
    assert_eq!(UsbProbeError::Session(busy).message("device busy", ""), "device busy");
    assert_eq!(
        UsbProbeError::AdmissionCleanup { admission: busy, release: TransportError::Io }
            .message("device busy", "lost"),
        "Wave:3 admission failed (device busy) and releasing the control interface failed (lost)"
    );
}
