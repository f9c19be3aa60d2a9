//! Opening one device, step by step.

use librewave_platform_linux::usb::connection::{
    check_timeout, DeviceOpening, InterfaceClaim, OpenAction,
};
use librewave_platform_linux::usb::{
    ApiVersion, DescriptorError, InterfaceObservation, LocatedDevice, SessionError, TopologyError,
    TransportError, UsbProbeError,
};
use librewave_platform_linux::{DeviceIdentity, UsbDeviceCandidate, UsbTopology};

#[derive(Clone, Debug, Eq, PartialEq)]
enum Event {
    Enumerate,
    Identity { device: &'static str },
    Interfaces { device: &'static str },
    Open { device: &'static str },
    KernelDriverActive { interface: u8 },
    Claim { interface: u8 },
    Probe { interface: u8 },
    Release { interface: u8 },
    Close,
}

#[derive(Clone)]
struct FakeDevice {
    name: &'static str,
    bus: u8,
    ports: Vec<u8>,
    identity: (u16, u16),
    interfaces: Vec<InterfaceObservation>,
    kernel_active: Result<bool, TransportError>,
    claim: Result<(), TransportError>,
    probe: Result<(), SessionError>,
    release: Result<(), TransportError>,
}

fn device(name: &'static str, ports: &[u8]) -> FakeDevice {
    FakeDevice {
        name,
        bus: 1,
        ports: ports.to_vec(),
        identity: (0x0fd9, 0x0070),
        interfaces: vec![
            InterfaceObservation { number: 0, class: 0x01, subclass: 0x01, protocol: 0x00 },
            InterfaceObservation { number: 3, class: 0x01, subclass: 0x02, protocol: 0x00 },
            InterfaceObservation { number: 7, class: 0xff, subclass: 0xf0, protocol: 0x00 },
        ],
        kernel_active: Ok(false),
        claim: Ok(()),
        probe: Ok(()),
        release: Ok(()),
    }
}

fn candidate() -> UsbDeviceCandidate {
    candidate_at("1-8.3")
}

fn candidate_at(topology: &str) -> UsbDeviceCandidate {
    UsbDeviceCandidate {
        identity: DeviceIdentity::wave3(),
        topology: UsbTopology::new(topology),
        alsa_cards: Vec::new(),
    }
}

/// Performs each action on fake devices and hands the outcome back. The handle
/// closes last, once it was opened and the opening failed.
fn open_with(
    candidate: &UsbDeviceCandidate,
    devices: &[FakeDevice],
    exclusive: bool,
    events: &mut Vec<Event>,
) -> Result<InterfaceClaim, UsbProbeError> {
    let mut opening = DeviceOpening::begin(candidate, exclusive)?;
    let mut action = OpenAction::Enumerate;
    let mut opened = None;
    loop {
        action = match action {
            OpenAction::Enumerate => {
                events.push(Event::Enumerate);
                let located = devices
                    .iter()
                    .map(|device| LocatedDevice {
                        bus: device.bus,
                        ports: Some(device.ports.clone()),
                    })
                    .collect();
                opening.on_devices(Ok(located))
            }
            OpenAction::Identify { device } => {
                events.push(Event::Identity { device: devices[device].name });
                opening.on_identity(Ok(devices[device].identity))
            }
            OpenAction::ListInterfaces { device } => {
                events.push(Event::Interfaces { device: devices[device].name });
                opening.on_interfaces(Ok(devices[device].interfaces.clone()))
            }
            OpenAction::Open { device } => {
                events.push(Event::Open { device: devices[device].name });
                opened = Some(&devices[device]);
                opening.on_opened(Ok(()))
            }
            OpenAction::CheckDriver { interface } => {
                events.push(Event::KernelDriverActive { interface });
                opening.on_driver(opened.expect("opened").kernel_active)
            }
            OpenAction::Claim { interface } => {
                events.push(Event::Claim { interface });
                opening.on_claimed(opened.expect("opened").claim)
            }
            OpenAction::Probe { interface } => {
                events.push(Event::Probe { interface });
                opening.on_probed(opened.expect("opened").probe)
            }
            OpenAction::Release { interface } => {
                events.push(Event::Release { interface });
                opening.on_released(opened.expect("opened").release)
            }
            OpenAction::Admitted { interface } => {
                return Ok(InterfaceClaim::new(interface));
            }
            OpenAction::Fail(error) => {
                if opened.is_some() {
                    events.push(Event::Close);
                }
                return Err(error);
            }
        };
    }
}

/// Closes a connection as its owner does, then drops it.
fn close(
    mut claim: InterfaceClaim,
    explicit: bool,
    release: Result<(), TransportError>,
    events: &mut Vec<Event>,
) -> Result<(), TransportError> {
    let mut result = Ok(());
    if explicit {
        if let Some(interface) = claim.take() {
            events.push(Event::Release { interface });
            result = release;
        }
    }
    if let Some(interface) = claim.take() {
        events.push(Event::Release { interface });
    }
    events.push(Event::Close);
    result
}

#[test]
fn selects_revalidates_and_claims_only_the_vendor_interface_in_order() {
    let mut events = Vec::new();
    let devices = [device("other topology", &[8, 2]), device("selected", &[8, 3])];

    let claim = open_with(&candidate(), &devices, true, &mut events).expect("open selected Wave:3");

    assert_eq!(claim.claimed_interface, Some(7));
    assert_eq!(
        &events[..6],
        [
            Event::Enumerate,
            Event::Identity { device: "selected" },
            Event::Interfaces { device: "selected" },
            Event::Open { device: "selected" },
            Event::KernelDriverActive { interface: 7 },
            Event::Claim { interface: 7 },
        ]
    );
    assert_eq!(events.iter().filter(|event| matches!(event, Event::Claim { .. })).count(), 1);
}

#[test]
fn rejects_missing_topology_and_descriptor_mismatches_before_open() {
    let mut events = Vec::new();
    assert!(matches!(
        open_with(&candidate_at("2-4"), &[], true, &mut events),
        Err(UsbProbeError::NotFound)
    ));
    assert_eq!(events, [Event::Enumerate]);

    events.clear();
    let mut wrong_identity = device("wrong identity", &[8, 3]);
    wrong_identity.identity = (0x0fd9, 0x0071);
    assert!(matches!(
        open_with(&candidate(), &[wrong_identity], true, &mut events),
        Err(UsbProbeError::Descriptor(DescriptorError::IdentityMismatch {
            vendor_id: 0x0fd9,
            product_id: 0x0071,
        }))
    ));
    assert_eq!(events, [Event::Enumerate, Event::Identity { device: "wrong identity" }]);

    events.clear();
    let mut ambiguous = device("ambiguous", &[8, 3]);
    ambiguous.interfaces.push(InterfaceObservation {
        number: 9,
        class: 0xff,
        subclass: 0xf0,
        protocol: 0x00,
    });
    assert!(matches!(
        open_with(&candidate(), &[ambiguous], true, &mut events),
        Err(UsbProbeError::Descriptor(DescriptorError::MultipleControlInterfaces {
            first: 7,
            second: 9,
        }))
    ));
    assert_eq!(
        events,
        [
            Event::Enumerate,
            Event::Identity { device: "ambiguous" },
            Event::Interfaces { device: "ambiguous" },
        ]
    );
}

#[test]
fn refuses_active_kernel_driver_and_claim_failures_without_detaching() {
    for (kernel_active, claim, expected) in [
        (Ok(true), Ok(()), TransportError::Busy),
        (Ok(false), Err(TransportError::PermissionDenied), TransportError::PermissionDenied),
    ] {
        let mut events = Vec::new();
        let mut selected = device("selected", &[8, 3]);
        selected.kernel_active = kernel_active;
        selected.claim = claim;

        assert_eq!(
            open_with(&candidate(), &[selected], true, &mut events).map(|_| ()),
            Err(UsbProbeError::Session(SessionError::Transport(expected)))
        );
        assert!(!events.iter().any(|event| matches!(event, Event::Release { .. })));
        assert_eq!(events.last(), Some(&Event::Close));
    }
}

#[test]
fn admission_failure_releases_then_closes_and_reports_cleanup_failure() {
    let mut events = Vec::new();
    let unsupported = SessionError::UnsupportedApi { api: ApiVersion { major: 5, minor: 2 } };
    let mut selected = device("unsupported", &[8, 3]);
    selected.probe = Err(unsupported);
    assert_eq!(
        open_with(&candidate(), &[selected], true, &mut events).map(|_| ()),
        Err(UsbProbeError::Session(unsupported))
    );
    assert_eq!(&events[events.len() - 2..], [Event::Release { interface: 7 }, Event::Close]);

    events.clear();
    let mut short_config = device("short config", &[8, 3]);
    short_config.probe = Err(SessionError::ShortTransfer { expected: 16, actual: 15 });
    assert_eq!(
        open_with(&candidate(), &[short_config], true, &mut events).map(|_| ()),
        Err(UsbProbeError::Session(SessionError::ShortTransfer { expected: 16, actual: 15 }))
    );
    assert_eq!(&events[events.len() - 2..], [Event::Release { interface: 7 }, Event::Close]);

    events.clear();
    let mut failed_release = device("cleanup failure", &[8, 3]);
    failed_release.probe = Err(unsupported);
    failed_release.release = Err(TransportError::Disconnected);
    assert_eq!(
        open_with(&candidate(), &[failed_release], true, &mut events).map(|_| ()),
        Err(UsbProbeError::AdmissionCleanup {
            admission: unsupported,
            release: TransportError::Disconnected,
        })
    );
    assert_eq!(&events[events.len() - 2..], [Event::Release { interface: 7 }, Event::Close]);
}

#[test]
fn explicit_close_and_drop_release_once_before_handle_close() {
    for explicit in [true, false] {
        let mut events = Vec::new();
        let claim = open_with(&candidate(), &[device("selected", &[8, 3])], true, &mut events)
            .expect("admit connection");
        close(claim, explicit, Ok(()), &mut events).expect("close");
        assert_eq!(&events[events.len() - 2..], [Event::Release { interface: 7 }, Event::Close]);
        assert_eq!(events.iter().filter(|event| matches!(event, Event::Release { .. })).count(), 1);
    }
}

#[test]
fn failed_explicit_release_still_closes_without_retry() {
    let mut events = Vec::new();
    let claim = open_with(&candidate(), &[device("selected", &[8, 3])], true, &mut events)
        .expect("admit connection");

    assert_eq!(
        close(claim, true, Err(TransportError::Disconnected), &mut events),
        Err(TransportError::Disconnected)
    );
    assert_eq!(&events[events.len() - 2..], [Event::Release { interface: 7 }, Event::Close]);
    assert_eq!(events.iter().filter(|event| matches!(event, Event::Release { .. })).count(), 1);
}

#[test]
fn a_read_only_probe_claims_and_releases_nothing() {
    let mut events = Vec::new();
    open_with(&candidate(), &[device("selected", &[8, 3])], false, &mut events).expect("probe");
    assert_eq!(events.last(), Some(&Event::Probe { interface: 7 }));
    assert!(!events.iter().any(|event| matches!(event, Event::Claim { .. })));

    events.clear();
    let mut failing = device("failing", &[8, 3]);
    failing.probe = Err(SessionError::Transport(TransportError::TimedOut));
    assert_eq!(
        open_with(&candidate(), &[failing], false, &mut events).map(|_| ()),
        Err(UsbProbeError::Session(SessionError::Transport(TransportError::TimedOut)))
    );
    assert!(!events.iter().any(|event| matches!(event, Event::Release { .. })));
}

#[test]
fn a_candidate_is_refused_before_any_usb_access() {
    assert_eq!(
        DeviceOpening::begin(&candidate_at("usb1"), true).map(|_| ()),
        Err(UsbProbeError::Topology(TopologyError::InvalidFormat))
    );
}

#[test]
fn a_driver_query_failure_is_reported_as_it_is() {
    let mut events = Vec::new();
    let mut selected = device("selected", &[8, 3]);
    selected.kernel_active = Err(TransportError::NotFound);
    assert_eq!(
        open_with(&candidate(), &[selected], true, &mut events).map(|_| ()),
        Err(UsbProbeError::Session(SessionError::Transport(TransportError::NotFound)))
    );
    assert!(!events.iter().any(|event| matches!(event, Event::Claim { .. })));
}

#[test]
fn outside_failures_pass_through_each_step() {
    let failure = UsbProbeError::Session(SessionError::Transport(TransportError::Io));
    let mut opening = DeviceOpening::begin(&candidate(), true).expect("candidate");
    assert_eq!(opening.on_devices(Err(failure)), OpenAction::Fail(failure));

    let mut opening = DeviceOpening::begin(&candidate(), true).expect("candidate");
    let here = LocatedDevice { bus: 1, ports: Some(vec![8, 3]) };
    assert_eq!(opening.on_devices(Ok(vec![here])), OpenAction::Identify { device: 0 });
    assert_eq!(opening.on_identity(Err(failure)), OpenAction::Fail(failure));

    let mut opening = DeviceOpening::begin(&candidate(), true).expect("candidate");
    let here = LocatedDevice { bus: 1, ports: Some(vec![8, 3]) };
    opening.on_devices(Ok(vec![here]));
    assert_eq!(opening.on_identity(Ok((0x0fd9, 0x70))), OpenAction::ListInterfaces { device: 0 });
    assert_eq!(opening.on_interfaces(Err(failure)), OpenAction::Fail(failure));
}

#[test]
fn only_the_required_transfer_timeout_is_accepted() {
    assert_eq!(check_timeout(1_000_000_000, 1_000_000_000), Ok(()));
    assert_eq!(check_timeout(999_999_999, 1_000_000_000), Err(TransportError::Io));
}
