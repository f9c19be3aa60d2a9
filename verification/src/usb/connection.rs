//! Opening one device for a read-only probe or an exclusive connection.

use crate::device::{
    wave3_identity, wave3_usb, DeviceIdentity, DeviceModel, UsbDeviceCandidate,
};
use crate::usb::{
    control_among, is_at, is_reviewed_wave3, location_of, select_control_interface,
    select_device_at_location, DescriptorError, InterfaceObservation, LocatedDevice, SessionError,
    TransportError, UsbLocation, UsbProbeError,
};
use vstd::prelude::*;

verus! {

/// What opening a device does next.
#[derive(Clone, Copy, Debug, Eq, PartialEq, Structural)]
pub enum OpenAction {
    /// List the devices, then call [`DeviceOpening::on_devices`].
    Enumerate,
    /// Read the USB pair of a device, then call [`DeviceOpening::on_identity`].
    Identify { device: usize },
    /// Read the interfaces of a device, then call [`DeviceOpening::on_interfaces`].
    ListInterfaces { device: usize },
    /// Open a device, then call [`DeviceOpening::on_opened`].
    Open { device: usize },
    /// Ask whether a kernel driver holds an interface, then call
    /// [`DeviceOpening::on_driver`].
    CheckDriver { interface: u8 },
    /// Claim an interface, then call [`DeviceOpening::on_claimed`].
    Claim { interface: u8 },
    /// Probe the session on an interface, then call [`DeviceOpening::on_probed`].
    Probe { interface: u8 },
    /// Release an interface, then call [`DeviceOpening::on_released`].
    Release { interface: u8 },
    /// The device is admitted on an interface.
    Admitted { interface: u8 },
    /// The device cannot be opened.
    Fail(UsbProbeError),
}

/// What opening a device is waiting for.
#[derive(Clone, Copy, Debug, Eq, PartialEq, Structural)]
pub enum OpenStage {
    Enumerating,
    Identifying { device: usize },
    Listing { device: usize },
    Opening { device: usize, interface: u8 },
    CheckingDriver { interface: u8 },
    Claiming { interface: u8 },
    Probing { interface: u8 },
    Releasing { interface: u8, admission: SessionError },
    Admitted { interface: u8 },
    Failed(UsbProbeError),
}

impl OpenStage {
    /// The operation whose outcome this stage waits for.
    pub open spec fn awaits(self) -> OpenAction {
        match self {
            OpenStage::Enumerating => OpenAction::Enumerate,
            OpenStage::Identifying { device } => OpenAction::Identify { device },
            OpenStage::Listing { device } => OpenAction::ListInterfaces { device },
            OpenStage::Opening { device, interface } => OpenAction::Open { device },
            OpenStage::CheckingDriver { interface } => OpenAction::CheckDriver { interface },
            OpenStage::Claiming { interface } => OpenAction::Claim { interface },
            OpenStage::Probing { interface } => OpenAction::Probe { interface },
            OpenStage::Releasing { interface, admission } => OpenAction::Release { interface },
            OpenStage::Admitted { interface } => OpenAction::Admitted { interface },
            OpenStage::Failed(error) => OpenAction::Fail(error),
        }
    }

    /// Names the operation whose outcome this stage waits for.
    pub fn action(self) -> (action: OpenAction)
        ensures
            action == self.awaits(),
    {
        match self {
            OpenStage::Enumerating => OpenAction::Enumerate,
            OpenStage::Identifying { device } => OpenAction::Identify { device },
            OpenStage::Listing { device } => OpenAction::ListInterfaces { device },
            OpenStage::Opening { device, interface: _ } => OpenAction::Open { device },
            OpenStage::CheckingDriver { interface } => OpenAction::CheckDriver { interface },
            OpenStage::Claiming { interface } => OpenAction::Claim { interface },
            OpenStage::Probing { interface } => OpenAction::Probe { interface },
            OpenStage::Releasing { interface, admission: _ } => OpenAction::Release { interface },
            OpenStage::Admitted { interface } => OpenAction::Admitted { interface },
            OpenStage::Failed(error) => OpenAction::Fail(error),
        }
    }
}

/// The failure of a control transfer as a probe failure.
pub open spec fn transport_failure(error: TransportError) -> UsbProbeError {
    UsbProbeError::Session(SessionError::Transport(error))
}

fn session_transport_error(error: TransportError) -> (failure: UsbProbeError)
    ensures
        failure == transport_failure(error),
{
    UsbProbeError::Session(SessionError::Transport(error))
}

/// Why a candidate is refused before any USB access, if it is.
pub open spec fn candidate_refusal(candidate: UsbDeviceCandidate) -> Option<UsbProbeError> {
    if candidate.identity != wave3_identity() {
        Some(UsbProbeError::NotFound)
    } else {
        match location_of(candidate.topology.name@) {
            Err(error) => Some(UsbProbeError::Topology(error)),
            Ok(_) => None,
        }
    }
}

/// What one operation of an opening gave.
#[derive(Debug)]
pub enum OpenEvent {
    Devices(Result<Vec<LocatedDevice>, UsbProbeError>),
    Identity(Result<(u16, u16), UsbProbeError>),
    Interfaces(Result<Vec<InterfaceObservation>, UsbProbeError>),
    Opened(Result<(), UsbProbeError>),
    Driver(Result<bool, TransportError>),
    Claimed(Result<(), TransportError>),
    Probed(Result<(), SessionError>),
    Released(Result<(), TransportError>),
}

/// The position of the first device that is exactly at a location, or the number
/// of devices.
pub open spec fn first_at(devices: Seq<LocatedDevice>, bus: u8, ports: Seq<u8>) -> nat
    decreases devices.len(),
{
    if devices.len() == 0 || is_at(devices[0], bus, ports) {
        0
    } else {
        1 + first_at(devices.drop_first(), bus, ports)
    }
}

proof fn lemma_first_at(devices: Seq<LocatedDevice>, bus: u8, ports: Seq<u8>, position: nat)
    requires
        position <= devices.len(),
        forall|i: int| 0 <= i < position ==> !is_at(#[trigger] devices[i], bus, ports),
        position < devices.len() ==> is_at(devices[position as int], bus, ports),
    ensures
        first_at(devices, bus, ports) == position,
    decreases devices.len(),
{
    if position > 0 {
        let rest = devices.drop_first();
        assert(!is_at(devices[0], bus, ports));
        assert forall|i: int| 0 <= i < position - 1 implies !is_at(
            #[trigger] rest[i],
            bus,
            ports,
        ) by {
            assert(rest[i] == devices[i + 1]);
        }
        if position < devices.len() {
            assert(rest[position - 1] == devices[position as int]);
        }
        lemma_first_at(rest, bus, ports, (position - 1) as nat);
    }
}

/// Opening one candidate at its exact topology.
///
/// An exclusive opening claims the control interface before the probe and
/// releases it when the probe fails. A read-only one claims nothing. Neither
/// ever detaches a kernel driver.
#[derive(Debug)]
pub struct DeviceOpening {
    pub location: UsbLocation,
    pub exclusive: bool,
    pub stage: OpenStage,
}

impl DeviceOpening {
    /// Whether this opening waits for an event of this kind.
    pub open spec fn waits_for(self, event: OpenEvent) -> bool {
        match event {
            OpenEvent::Devices(_) => self.stage is Enumerating,
            OpenEvent::Identity(_) => self.stage is Identifying,
            OpenEvent::Interfaces(_) => self.stage is Listing,
            OpenEvent::Opened(_) => self.stage is Opening,
            OpenEvent::Driver(_) => self.stage is CheckingDriver,
            OpenEvent::Claimed(_) => self.stage is Claiming,
            OpenEvent::Probed(_) => self.stage is Probing,
            OpenEvent::Released(_) => self.stage is Releasing,
        }
    }

    /// The stage after an event.
    pub open spec fn stage_after(self, event: OpenEvent) -> OpenStage {
        match (self.stage, event) {
            (OpenStage::Enumerating, OpenEvent::Devices(Ok(devices))) => {
                let device = first_at(devices@, self.location.bus, self.location.ports@);
                if device < devices@.len() {
                    OpenStage::Identifying { device: device as usize }
                } else {
                    OpenStage::Failed(UsbProbeError::NotFound)
                }
            },
            (OpenStage::Identifying { device }, OpenEvent::Identity(Ok((vendor_id, product_id)))) =>
                if vendor_id == wave3_usb().vendor_id && product_id == wave3_usb().product_id {
                    OpenStage::Listing { device }
                } else {
                    OpenStage::Failed(
                        UsbProbeError::Descriptor(
                            DescriptorError::IdentityMismatch { vendor_id, product_id },
                        ),
                    )
                },
            (OpenStage::Listing { device }, OpenEvent::Interfaces(Ok(interfaces))) =>
                match control_among(interfaces@) {
                    Ok(interface) => OpenStage::Opening { device, interface },
                    Err(error) => OpenStage::Failed(UsbProbeError::Descriptor(error)),
                },
            (OpenStage::Opening { device, interface }, OpenEvent::Opened(Ok(()))) =>
                OpenStage::CheckingDriver { interface },
            (OpenStage::CheckingDriver { interface }, OpenEvent::Driver(Ok(active))) => if active {
                OpenStage::Failed(transport_failure(TransportError::Busy))
            } else if self.exclusive {
                OpenStage::Claiming { interface }
            } else {
                OpenStage::Probing { interface }
            },
            (OpenStage::Claiming { interface }, OpenEvent::Claimed(Ok(()))) =>
                OpenStage::Probing { interface },
            (OpenStage::Probing { interface }, OpenEvent::Probed(Ok(()))) =>
                OpenStage::Admitted { interface },
            (OpenStage::Probing { interface }, OpenEvent::Probed(Err(admission))) =>
                if self.exclusive {
                    OpenStage::Releasing { interface, admission }
                } else {
                    OpenStage::Failed(UsbProbeError::Session(admission))
                },
            (OpenStage::Releasing { interface, admission }, OpenEvent::Released(Ok(()))) =>
                OpenStage::Failed(UsbProbeError::Session(admission)),
            (OpenStage::Releasing { interface, admission }, OpenEvent::Released(Err(release))) =>
                OpenStage::Failed(UsbProbeError::AdmissionCleanup { admission, release }),
            (_, OpenEvent::Devices(Err(error))) => OpenStage::Failed(error),
            (_, OpenEvent::Identity(Err(error))) => OpenStage::Failed(error),
            (_, OpenEvent::Interfaces(Err(error))) => OpenStage::Failed(error),
            (_, OpenEvent::Opened(Err(error))) => OpenStage::Failed(error),
            (_, OpenEvent::Driver(Err(error))) => OpenStage::Failed(transport_failure(error)),
            (_, OpenEvent::Claimed(Err(error))) => OpenStage::Failed(transport_failure(error)),
            _ => self.stage,
        }
    }

    /// This opening after an event.
    pub open spec fn after(self, event: OpenEvent) -> Self {
        DeviceOpening { stage: self.stage_after(event), ..self }
    }

    /// This opening after events.
    pub open spec fn after_all(self, events: Seq<OpenEvent>) -> Self
        decreases events.len(),
    {
        if events.len() == 0 {
            self
        } else {
            self.after_all(events.drop_last()).after(events.last())
        }
    }

    /// Whether each of the events is one that this opening waits for in its turn.
    pub open spec fn takes_all(self, events: Seq<OpenEvent>) -> bool
        decreases events.len(),
    {
        events.len() == 0 || self.takes_all(events.drop_last()) && self.after_all(
            events.drop_last(),
        ).waits_for(events.last())
    }

    /// Whether this opening holds the claim of an interface.
    pub open spec fn holds_claim(self) -> bool {
        self.exclusive && (self.stage is Probing || self.stage is Releasing
            || self.stage is Admitted)
    }

    /// Begins to open a candidate.
    pub fn begin(candidate: &UsbDeviceCandidate, exclusive: bool) -> (result: Result<
        Self,
        UsbProbeError,
    >)
        ensures
            match candidate_refusal(*candidate) {
                Some(error) => result == Err::<Self, UsbProbeError>(error),
                None => {
                    &&& result is Ok
                    &&& location_of(candidate.topology.name@)->Ok_0 == (
                        result->Ok_0.location.bus,
                        result->Ok_0.location.ports@,
                    )
                    &&& result->Ok_0.exclusive == exclusive
                    &&& result->Ok_0.stage == OpenStage::Enumerating
                },
            },
    {
        if candidate.identity != DeviceIdentity::wave3() {
            return Err(UsbProbeError::NotFound);
        }
        match UsbLocation::parse(candidate.topology.as_str()) {
            Ok(location) => Ok(
                DeviceOpening { location, exclusive, stage: OpenStage::Enumerating },
            ),
            Err(error) => Err(UsbProbeError::Topology(error)),
        }
    }

    fn go(&mut self, stage: OpenStage) -> (action: OpenAction)
        ensures
            action == stage.awaits(),
            *final(self) == (DeviceOpening { stage, ..*old(self) }),
    {
        self.stage = stage;
        stage.action()
    }

    /// Takes the list of devices.
    pub fn on_devices(&mut self, devices: Result<Vec<LocatedDevice>, UsbProbeError>) -> (action:
        OpenAction)
        requires
            old(self).stage is Enumerating,
        ensures
            *final(self) == old(self).after(OpenEvent::Devices(devices)),
            action == final(self).stage.awaits(),
    {
        let stage = match devices {
            Err(error) => OpenStage::Failed(error),
            Ok(devices) => {
                let ghost bus = self.location.bus;
                let ghost ports = self.location.ports@;
                match select_device_at_location(&devices, &self.location) {
                    Ok(device) => {
                        proof {
                            lemma_first_at(devices@, bus, ports, device as nat);
                        }
                        OpenStage::Identifying { device }
                    },
                    Err(error) => {
                        proof {
                            lemma_first_at(devices@, bus, ports, devices@.len());
                        }
                        OpenStage::Failed(error)
                    },
                }
            },
        };
        self.go(stage)
    }

    /// Takes the USB pair of the selected device.
    pub fn on_identity(&mut self, identity: Result<(u16, u16), UsbProbeError>) -> (action: OpenAction)
        requires
            old(self).stage is Identifying,
        ensures
            *final(self) == old(self).after(OpenEvent::Identity(identity)),
            action == final(self).stage.awaits(),
    {
        let device: usize = match self.stage {
            OpenStage::Identifying { device } => device,
            _ => 0,
        };
        let stage = match identity {
            Err(error) => OpenStage::Failed(error),
            Ok((vendor_id, product_id)) => {
                if is_reviewed_wave3(vendor_id, product_id) {
                    OpenStage::Listing { device }
                } else {
                    OpenStage::Failed(
                        UsbProbeError::Descriptor(
                            DescriptorError::IdentityMismatch { vendor_id, product_id },
                        ),
                    )
                }
            },
        };
        self.go(stage)
    }

    /// Takes the interfaces of the selected device.
    pub fn on_interfaces(
        &mut self,
        interfaces: Result<Vec<InterfaceObservation>, UsbProbeError>,
    ) -> (action: OpenAction)
        requires
            old(self).stage is Listing,
        ensures
            *final(self) == old(self).after(OpenEvent::Interfaces(interfaces)),
            action == final(self).stage.awaits(),
    {
        let device: usize = match self.stage {
            OpenStage::Listing { device } => device,
            _ => 0,
        };
        let stage = match interfaces {
            Err(error) => OpenStage::Failed(error),
            Ok(interfaces) => match select_control_interface(interfaces.as_slice()) {
                Ok(interface) => OpenStage::Opening { device, interface },
                Err(error) => OpenStage::Failed(UsbProbeError::Descriptor(error)),
            },
        };
        self.go(stage)
    }

    /// Takes the outcome of opening the selected device.
    pub fn on_opened(&mut self, opened: Result<(), UsbProbeError>) -> (action: OpenAction)
        requires
            old(self).stage is Opening,
        ensures
            *final(self) == old(self).after(OpenEvent::Opened(opened)),
            action == final(self).stage.awaits(),
    {
        let interface: u8 = match self.stage {
            OpenStage::Opening { device: _, interface } => interface,
            _ => 0,
        };
        let stage = match opened {
            Err(error) => OpenStage::Failed(error),
            Ok(()) => OpenStage::CheckingDriver { interface },
        };
        self.go(stage)
    }

    /// Takes whether a kernel driver holds the interface: an active one is never
    /// detached.
    pub fn on_driver(&mut self, active: Result<bool, TransportError>) -> (action: OpenAction)
        requires
            old(self).stage is CheckingDriver,
        ensures
            *final(self) == old(self).after(OpenEvent::Driver(active)),
            action == final(self).stage.awaits(),
    {
        let interface: u8 = match self.stage {
            OpenStage::CheckingDriver { interface } => interface,
            _ => 0,
        };
        let stage = match active {
            Err(error) => OpenStage::Failed(session_transport_error(error)),
            Ok(active) => {
                if active {
                    OpenStage::Failed(session_transport_error(TransportError::Busy))
                } else if self.exclusive {
                    OpenStage::Claiming { interface }
                } else {
                    OpenStage::Probing { interface }
                }
            },
        };
        self.go(stage)
    }

    /// Takes the outcome of claiming the interface.
    pub fn on_claimed(&mut self, claimed: Result<(), TransportError>) -> (action: OpenAction)
        requires
            old(self).stage is Claiming,
        ensures
            *final(self) == old(self).after(OpenEvent::Claimed(claimed)),
            action == final(self).stage.awaits(),
    {
        let interface: u8 = match self.stage {
            OpenStage::Claiming { interface } => interface,
            _ => 0,
        };
        let stage = match claimed {
            Err(error) => OpenStage::Failed(session_transport_error(error)),
            Ok(()) => OpenStage::Probing { interface },
        };
        self.go(stage)
    }

    /// Takes the outcome of probing the session.
    pub fn on_probed(&mut self, probed: Result<(), SessionError>) -> (action: OpenAction)
        requires
            old(self).stage is Probing,
        ensures
            *final(self) == old(self).after(OpenEvent::Probed(probed)),
            action == final(self).stage.awaits(),
    {
        let interface: u8 = match self.stage {
            OpenStage::Probing { interface } => interface,
            _ => 0,
        };
        let stage = match probed {
            Ok(()) => OpenStage::Admitted { interface },
            Err(admission) => {
                if self.exclusive {
                    OpenStage::Releasing { interface, admission }
                } else {
                    OpenStage::Failed(UsbProbeError::Session(admission))
                }
            },
        };
        self.go(stage)
    }

    /// Takes the outcome of releasing the interface behind a failed probe.
    pub fn on_released(&mut self, released: Result<(), TransportError>) -> (action: OpenAction)
        requires
            old(self).stage is Releasing,
        ensures
            *final(self) == old(self).after(OpenEvent::Released(released)),
            action == final(self).stage.awaits(),
    {
        let stage = match self.stage {
            OpenStage::Releasing { interface: _, admission } => match released {
                Ok(()) => OpenStage::Failed(UsbProbeError::Session(admission)),
                Err(release) => OpenStage::Failed(
                    UsbProbeError::AdmissionCleanup { admission, release },
                ),
            },
            other => other,
        };
        self.go(stage)
    }
}

/// How many of the events grant a claim.
pub open spec fn claims_granted(events: Seq<OpenEvent>) -> nat
    decreases events.len(),
{
    if events.len() == 0 {
        0
    } else {
        claims_granted(events.drop_last()) + if events.last() matches OpenEvent::Claimed(Ok(_)) {
            1nat
        } else {
            0
        }
    }
}

/// How many of the events end a release.
pub open spec fn releases_made(events: Seq<OpenEvent>) -> nat
    decreases events.len(),
{
    if events.len() == 0 {
        0
    } else {
        releases_made(events.drop_last()) + if events.last() is Released {
            1nat
        } else {
            0
        }
    }
}

/// Every claim that was granted is either held or was released exactly once. At
/// most one is ever granted, and a failed opening holds none.
pub proof fn law_claims_and_releases_balance(opening: DeviceOpening, events: Seq<OpenEvent>)
    requires
        opening.stage is Enumerating,
        opening.takes_all(events),
    ensures
        claims_granted(events) == releases_made(events) + if opening.after_all(
            events,
        ).holds_claim() {
            1nat
        } else {
            0
        },
        claims_granted(events) <= 1,
        opening.after_all(events).stage is Failed ==> claims_granted(events) == releases_made(
            events,
        ),
        opening.exclusive && opening.after_all(events).stage is Admitted ==> claims_granted(events)
            == 1 && releases_made(events) == 0,
        !opening.exclusive ==> claims_granted(events) == 0 && releases_made(events) == 0,
{
    lemma_claims_and_releases_balance(opening, events);
}

proof fn lemma_claims_and_releases_balance(opening: DeviceOpening, events: Seq<OpenEvent>)
    requires
        opening.stage is Enumerating,
        opening.takes_all(events),
    ensures
        ({
            let now = opening.after_all(events);
            &&& now.exclusive == opening.exclusive
            &&& now.location == opening.location
            &&& claims_granted(events) == if now.holds_claim() {
                1nat
            } else {
                releases_made(events)
            }
            &&& now.holds_claim() ==> releases_made(events) == 0
            &&& claims_granted(events) <= 1
            &&& !(now.stage is Failed) && !now.holds_claim() ==> claims_granted(events) == 0
            &&& !opening.exclusive ==> claims_granted(events) == 0 && !(now.stage is Claiming)
                && !(now.stage is Releasing)
        }),
    decreases events.len(),
{
    if events.len() > 0 {
        let earlier = opening.after_all(events.drop_last());
        let event = events.last();
        lemma_claims_and_releases_balance(opening, events.drop_last());
        assert(earlier.waits_for(event));
        assert(opening.after_all(events) == earlier.after(event));
    }
}

/// An interface is claimed only for an exclusive connection and only when no
/// kernel driver is active on it.
pub proof fn law_claim_needs_an_inactive_driver(opening: DeviceOpening, event: OpenEvent)
    requires
        opening.waits_for(event),
        opening.stage_after(event) is Claiming,
    ensures
        opening.exclusive,
        event == OpenEvent::Driver(Ok(false)),
        opening.stage == (OpenStage::CheckingDriver {
            interface: opening.stage_after(event)->Claiming_interface,
        }),
{
}

/// A device that does not answer with the reviewed USB pair, or whose interfaces
/// do not hold exactly one reviewed control interface, is never opened.
pub proof fn law_mismatch_is_found_before_opening(opening: DeviceOpening, event: OpenEvent)
    requires
        opening.waits_for(event),
        opening.stage_after(event) is Listing || opening.stage_after(event) is Opening,
    ensures
        opening.stage_after(event) is Listing ==> event == OpenEvent::Identity(
            Ok((wave3_usb().vendor_id, wave3_usb().product_id)),
        ),
        opening.stage_after(event) is Opening ==> match event {
            OpenEvent::Interfaces(Ok(interfaces)) => control_among(interfaces@) == Ok::<
                u8,
                DescriptorError,
            >(opening.stage_after(event)->Opening_interface),
            _ => false,
        },
{
}

/// A failed probe of a claimed interface releases that interface and reports the
/// probe's failure, with the release's failure beside it where there is one.
pub proof fn law_failed_admission_releases(
    opening: DeviceOpening,
    admission: SessionError,
    released: Result<(), TransportError>,
)
    requires
        opening.exclusive,
        opening.stage is Probing,
    ensures
        ({
            let releasing = opening.after(OpenEvent::Probed(Err(admission)));
            &&& releasing.stage.awaits() == (OpenAction::Release {
                interface: opening.stage->Probing_interface,
            })
            &&& releasing.after(OpenEvent::Released(released)).stage == OpenStage::Failed(
                match released {
                    Ok(()) => UsbProbeError::Session(admission),
                    Err(release) => UsbProbeError::AdmissionCleanup { admission, release },
                },
            )
        }),
{
}

/// A claimed interface, released at most once.
#[derive(Clone, Copy, Debug, Eq, PartialEq, Structural)]
pub struct InterfaceClaim {
    pub claimed_interface: Option<u8>,
}

impl InterfaceClaim {
    pub fn new(interface: u8) -> (claim: Self)
        ensures
            claim == (InterfaceClaim { claimed_interface: Some(interface) }),
    {
        InterfaceClaim { claimed_interface: Some(interface) }
    }

    /// This claim once it was given up.
    pub open spec fn given_up(self) -> Self {
        InterfaceClaim { claimed_interface: None }
    }

    /// Gives up the claim; the interface returned is to be released now.
    pub fn take(&mut self) -> (interface: Option<u8>)
        ensures
            interface == old(self).claimed_interface,
            *final(self) == old(self).given_up(),
    {
        self.claimed_interface.take()
    }
}

/// A claim that was given up names no interface to release, so closing and then
/// dropping a connection releases once.
pub proof fn law_claim_is_released_once(claim: InterfaceClaim)
    ensures
        claim.given_up().claimed_interface is None,
        claim.given_up().given_up() == claim.given_up(),
{
}

/// Refuses a control transfer whose timeout is not the required one.
pub fn check_timeout(requested_nanoseconds: u64, required_nanoseconds: u64) -> (result: Result<
    (),
    TransportError,
>)
    ensures
        result == if requested_nanoseconds == required_nanoseconds {
            Ok::<(), TransportError>(())
        } else {
            Err::<(), TransportError>(TransportError::Io)
        },
{
    if requested_nanoseconds != required_nanoseconds {
        return Err(TransportError::Io);
    }
    Ok(())
}

/// How an opening proceeds, event by event: the device at the location is
/// identified, its interfaces are listed, it is opened, its driver is checked, the
/// interface is claimed where the opening is exclusive, and then probed. The device
/// and the interface that were selected are the ones that every later step names.
pub proof fn law_opening_goes_step_by_step(
    opening: DeviceOpening,
    devices: Vec<LocatedDevice>,
    position: int,
    interfaces: Vec<InterfaceObservation>,
    interface: u8,
    device: usize,
)
    requires
        devices@.len() <= usize::MAX,
    ensures
        opening.stage == OpenStage::Enumerating && 0 <= position < devices@.len() && is_at(
            devices@[position],
            opening.location.bus,
            opening.location.ports@,
        ) && (forall|i: int|
            0 <= i < position ==> !is_at(
                #[trigger] devices@[i],
                opening.location.bus,
                opening.location.ports@,
            )) ==> opening.stage_after(OpenEvent::Devices(Ok(devices))) == (
        OpenStage::Identifying { device: position as usize }),
        opening.stage == OpenStage::Enumerating && (forall|i: int|
            0 <= i < devices@.len() ==> !is_at(
                #[trigger] devices@[i],
                opening.location.bus,
                opening.location.ports@,
            )) ==> opening.stage_after(OpenEvent::Devices(Ok(devices))) == OpenStage::Failed(
            UsbProbeError::NotFound,
        ),
        opening.stage == (OpenStage::Listing { device }) && control_among(interfaces@) == Ok::<
            u8,
            DescriptorError,
        >(interface) ==> opening.stage_after(OpenEvent::Interfaces(Ok(interfaces))) == (
        OpenStage::Opening { device, interface }),
        opening.stage == (OpenStage::Opening { device, interface }) ==> opening.stage_after(
            OpenEvent::Opened(Ok(())),
        ) == (OpenStage::CheckingDriver { interface }),
        opening.stage == (OpenStage::CheckingDriver { interface }) ==> opening.stage_after(
            OpenEvent::Driver(Ok(true)),
        ) == OpenStage::Failed(UsbProbeError::Session(SessionError::Transport(TransportError::Busy))),
        opening.stage == (OpenStage::CheckingDriver { interface }) && opening.exclusive
            ==> opening.stage_after(OpenEvent::Driver(Ok(false))) == (OpenStage::Claiming {
            interface,
        }),
        opening.stage == (OpenStage::CheckingDriver { interface }) && !opening.exclusive
            ==> opening.stage_after(OpenEvent::Driver(Ok(false))) == (OpenStage::Probing {
            interface,
        }),
        opening.stage == (OpenStage::Claiming { interface }) ==> opening.stage_after(
            OpenEvent::Claimed(Ok(())),
        ) == (OpenStage::Probing { interface }),
        opening.stage == (OpenStage::Probing { interface }) ==> opening.stage_after(
            OpenEvent::Probed(Ok(())),
        ) == (OpenStage::Admitted { interface }),
{
    if opening.stage == OpenStage::Enumerating {
        if 0 <= position < devices@.len() && is_at(
            devices@[position],
            opening.location.bus,
            opening.location.ports@,
        ) && (forall|i: int|
            0 <= i < position ==> !is_at(
                #[trigger] devices@[i],
                opening.location.bus,
                opening.location.ports@,
            )) {
            lemma_first_at(
                devices@,
                opening.location.bus,
                opening.location.ports@,
                position as nat,
            );
        }
        if forall|i: int|
            0 <= i < devices@.len() ==> !is_at(
                #[trigger] devices@[i],
                opening.location.bus,
                opening.location.ports@,
            ) {
            lemma_first_at(
                devices@,
                opening.location.bus,
                opening.location.ports@,
                devices@.len(),
            );
        }
    }
}

/// Every failure on the way ends the opening as what it was: one found by the
/// caller is passed on, one of a control transfer becomes a failed session, and a
/// wrong product or interface a descriptor failure that names what was found.
pub proof fn law_failed_openings_say_why(
    opening: DeviceOpening,
    error: UsbProbeError,
    transport: TransportError,
    admission: SessionError,
    vendor_id: u16,
    product_id: u16,
    interfaces: Vec<InterfaceObservation>,
    descriptor: DescriptorError,
)
    ensures
        opening.stage is Enumerating ==> opening.stage_after(OpenEvent::Devices(Err(error)))
            == OpenStage::Failed(error),
        opening.stage is Identifying ==> opening.stage_after(OpenEvent::Identity(Err(error)))
            == OpenStage::Failed(error),
        opening.stage is Listing ==> opening.stage_after(OpenEvent::Interfaces(Err(error)))
            == OpenStage::Failed(error),
        opening.stage is Opening ==> opening.stage_after(OpenEvent::Opened(Err(error)))
            == OpenStage::Failed(error),
        opening.stage is CheckingDriver ==> opening.stage_after(OpenEvent::Driver(Err(transport)))
            == OpenStage::Failed(UsbProbeError::Session(SessionError::Transport(transport))),
        opening.stage is Claiming ==> opening.stage_after(OpenEvent::Claimed(Err(transport)))
            == OpenStage::Failed(UsbProbeError::Session(SessionError::Transport(transport))),
        opening.stage is Probing && !opening.exclusive ==> opening.stage_after(
            OpenEvent::Probed(Err(admission)),
        ) == OpenStage::Failed(UsbProbeError::Session(admission)),
        opening.stage is Identifying && (vendor_id != 0x0fd9 || product_id != 0x0070)
            ==> opening.stage_after(OpenEvent::Identity(Ok((vendor_id, product_id))))
            == OpenStage::Failed(
            UsbProbeError::Descriptor(
                DescriptorError::IdentityMismatch { vendor_id, product_id },
            ),
        ),
        opening.stage is Identifying ==> opening.stage_after(
            OpenEvent::Identity(Ok((0x0fd9u16, 0x0070u16))),
        ) == (OpenStage::Listing { device: opening.stage->Identifying_device }),
        opening.stage is Listing && control_among(interfaces@) == Err::<u8, DescriptorError>(
            descriptor,
        ) ==> opening.stage_after(OpenEvent::Interfaces(Ok(interfaces))) == OpenStage::Failed(
            UsbProbeError::Descriptor(descriptor),
        ),
{
}

/// Each stage asks for the one operation whose outcome it waits for, on the
/// selected device or interface.
pub proof fn law_open_stages_ask_for_their_operation(
    device: usize,
    interface: u8,
    admission: SessionError,
    error: UsbProbeError,
)
    ensures
        OpenStage::Enumerating.awaits() == OpenAction::Enumerate,
        (OpenStage::Identifying { device }).awaits() == (OpenAction::Identify { device }),
        (OpenStage::Listing { device }).awaits() == (OpenAction::ListInterfaces { device }),
        (OpenStage::Opening { device, interface }).awaits() == (OpenAction::Open { device }),
        (OpenStage::CheckingDriver { interface }).awaits() == (OpenAction::CheckDriver {
            interface,
        }),
        (OpenStage::Claiming { interface }).awaits() == (OpenAction::Claim { interface }),
        (OpenStage::Probing { interface }).awaits() == (OpenAction::Probe { interface }),
        (OpenStage::Releasing { interface, admission }).awaits() == (OpenAction::Release {
            interface,
        }),
        (OpenStage::Admitted { interface }).awaits() == (OpenAction::Admitted { interface }),
        OpenStage::Failed(error).awaits() == OpenAction::Fail(error),
{
}

/// A candidate is opened exactly if it is the reviewed product and its topology
/// names a location.
pub proof fn law_only_located_products_are_opened(candidate: UsbDeviceCandidate)
    ensures
        candidate_refusal(candidate) is None <==> {
            &&& candidate.identity.model == DeviceModel::Wave3
            &&& candidate.identity.usb.vendor_id == 0x0fd9
            &&& candidate.identity.usb.product_id == 0x0070
            &&& location_of(candidate.topology.name@) is Ok
        },
        candidate.identity != wave3_identity() ==> candidate_refusal(candidate) == Some(
            UsbProbeError::NotFound,
        ),
        candidate.identity == wave3_identity() && location_of(candidate.topology.name@) is Err
            ==> candidate_refusal(candidate) == Some(
            UsbProbeError::Topology(location_of(candidate.topology.name@)->Err_0),
        ),
{
}

} // verus!
