//! Linux endpoint-zero selection for Wave:3 admission and control.

use crate::device::{wave3_usb, DeviceIdentity};
use crate::parse::{
    all_digits, characters, find_char, first_char, is_digit, law_decimal_is_read_back,
    law_first_char_is_the_first, number_of, parse_number,
};
use crate::text::{decimal, decimal_text, hex4, hex4_text};
use vstd::prelude::*;
use vstd::slice::slice_subrange;
use vstd::string::*;

pub mod connection;

verus! {

const WAVE3_CONTROL_CLASS: u8 = 0xff;

const WAVE3_CONTROL_SUBCLASS: u8 = 0xf0;

const WAVE3_CONTROL_PROTOCOL: u8 = 0x00;

const DFU_CLASS: u8 = 0xfe;

const DFU_SUBCLASS: u8 = 0x01;

/// A USB descriptor shape that cannot select one safe control interface.
#[derive(Clone, Copy, Debug, Eq, PartialEq, Structural)]
pub enum DescriptorError {
    Malformed,
    IdentityMismatch { vendor_id: u16, product_id: u16 },
    ControlInterfaceNotFound,
    MultipleControlInterfaces { first: u8, second: u8 },
}

impl DescriptorError {
    /// The text of this error.
    pub open spec fn text(self) -> Seq<char> {
        match self {
            DescriptorError::Malformed => "malformed USB configuration descriptor"@,
            DescriptorError::IdentityMismatch { vendor_id, product_id } =>
                "USB device at the selected topology has identity "@ + hex4(vendor_id) + ":"@
                + hex4(product_id),
            DescriptorError::ControlInterfaceNotFound =>
                "USB configuration has no reviewed Wave:3 control interface"@,
            DescriptorError::MultipleControlInterfaces { first, second } =>
                "USB configuration has multiple reviewed Wave:3 control interfaces ("@ + decimal(
                first as nat,
            ) + " and "@ + decimal(second as nat) + ")"@,
        }
    }

    /// Describes this error to a person.
    pub fn message(&self) -> (message: String)
        ensures
            message@ == self.text(),
    {
        match *self {
            DescriptorError::Malformed => String::from_str(
                "malformed USB configuration descriptor",
            ),
            DescriptorError::IdentityMismatch { vendor_id, product_id } => {
                let mut message = String::from_str(
                    "USB device at the selected topology has identity ",
                );
                message.append(hex4_text(vendor_id).as_str());
                message.append(":");
                message.append(hex4_text(product_id).as_str());
                message
            },
            DescriptorError::ControlInterfaceNotFound => String::from_str(
                "USB configuration has no reviewed Wave:3 control interface",
            ),
            DescriptorError::MultipleControlInterfaces { first, second } => {
                let mut message = String::from_str(
                    "USB configuration has multiple reviewed Wave:3 control interfaces (",
                );
                message.append(decimal_text(first as u64).as_str());
                message.append(" and ");
                message.append(decimal_text(second as u64).as_str());
                message.append(")");
                message
            },
        }
    }
}

/// A sysfs USB topology name that cannot identify a libusb location.
#[derive(Clone, Copy, Debug, Eq, PartialEq, Structural)]
pub enum TopologyError {
    InvalidFormat,
    InvalidBus,
    InvalidPortChain,
}

impl TopologyError {
    /// The text of this error.
    pub open spec fn text(self) -> Seq<char> {
        match self {
            TopologyError::InvalidFormat => "USB topology must have the form BUS-PORT[.PORT]"@,
            TopologyError::InvalidBus => "USB topology has an invalid bus number"@,
            TopologyError::InvalidPortChain => "USB topology has an invalid port-number chain"@,
        }
    }

    /// Describes this error to a person.
    pub fn message(&self) -> (message: String)
        ensures
            message@ == self.text(),
    {
        match *self {
            TopologyError::InvalidFormat => String::from_str(
                "USB topology must have the form BUS-PORT[.PORT]",
            ),
            TopologyError::InvalidBus => String::from_str(
                "USB topology has an invalid bus number",
            ),
            TopologyError::InvalidPortChain => String::from_str(
                "USB topology has an invalid port-number chain",
            ),
        }
    }
}

/// A stable class of a failed control transfer.
#[derive(Clone, Copy, Debug, Eq, PartialEq, Structural)]
pub enum TransportError {
    PermissionDenied,
    Busy,
    NotFound,
    Disconnected,
    TimedOut,
    Io,
}

/// A device API version.
#[derive(Clone, Copy, Debug, Eq, PartialEq, Structural)]
pub struct ApiVersion {
    pub major: u8,
    pub minor: u8,
}

/// Why the portable session refused a device.
#[derive(Clone, Copy, Debug, Eq, PartialEq, Structural)]
pub enum SessionError {
    Transport(TransportError),
    UnsupportedApi { api: ApiVersion },
    ShortTransfer { expected: usize, actual: usize },
    LongTransfer { expected: usize, actual: usize },
    /// A response that does not match its schema, by the codec's code.
    Schema { code: u32 },
}

/// A classified Linux USB discovery, descriptor, or session failure.
#[derive(Clone, Copy, Debug, Eq, PartialEq, Structural)]
pub enum UsbProbeError {
    NotFound,
    Topology(TopologyError),
    Descriptor(DescriptorError),
    Session(SessionError),
    AdmissionCleanup { admission: SessionError, release: TransportError },
}

impl UsbProbeError {
    /// The text of this error, around the texts of the session and release
    /// failures that it carries.
    pub open spec fn text(self, session: Seq<char>, release: Seq<char>) -> Seq<char> {
        match self {
            UsbProbeError::NotFound => "selected Wave:3 USB device not found"@,
            UsbProbeError::Topology(error) => error.text(),
            UsbProbeError::Descriptor(error) => error.text(),
            UsbProbeError::Session(_) => session,
            UsbProbeError::AdmissionCleanup { .. } => "Wave:3 admission failed ("@ + session
                + ") and releasing the control interface failed ("@ + release + ")"@,
        }
    }

    /// Describes this error to a person, around the texts of the session and
    /// release failures that it carries.
    pub fn message(&self, session: &str, release: &str) -> (message: String)
        ensures
            message@ == self.text(session@, release@),
    {
        match self {
            UsbProbeError::NotFound => String::from_str("selected Wave:3 USB device not found"),
            UsbProbeError::Topology(error) => error.message(),
            UsbProbeError::Descriptor(error) => error.message(),
            UsbProbeError::Session(_) => String::from_str(session),
            UsbProbeError::AdmissionCleanup { .. } => {
                let mut message = String::from_str("Wave:3 admission failed (");
                message.append(session);
                message.append(") and releasing the control interface failed (");
                message.append(release);
                message.append(")");
                message
            },
        }
    }
}

/// Why a device was not admitted, without Linux details.
#[derive(Clone, Copy, Debug, Eq, PartialEq, Structural)]
pub enum AdmissionError {
    Disconnected,
    DescriptorMismatch,
    PermissionDenied,
    InterfaceBusy,
    TimedOut,
    Transport,
    UnsupportedApi { api: ApiVersion },
    MalformedResponse,
}

/// A raw fixed-point control value.
#[derive(Clone, Copy, Debug, Eq, PartialEq, Structural)]
pub struct FixedPointValue {
    pub raw: i16,
    pub fractional_bits: u8,
}

/// Which volume the device's dial turns.
#[derive(Clone, Copy, Debug, Eq, PartialEq, Structural)]
pub enum VolumeSelection {
    Microphone,
    Headphone,
    Mix,
}

/// The decoded hardware controls.
#[derive(Clone, Copy, Debug, Eq, PartialEq, Structural)]
pub struct Wave3Controls {
    pub microphone_gain: FixedPointValue,
    pub microphone_mute: bool,
    pub clipguard_enabled: bool,
    pub lowcut_enabled: bool,
    pub headphone_volume: FixedPointValue,
    pub headphone_mute: bool,
    pub direct_monitor: FixedPointValue,
    pub volume_select: VolumeSelection,
    pub gain_lock: bool,
}

/// One decoded configuration field.
#[derive(Clone, Copy, Debug, Eq, PartialEq, Structural)]
pub enum SemanticValue {
    Boolean(bool),
    Other,
}

/// What was decoded of a device configuration; `None` where decoding failed.
#[derive(Clone, Copy, Debug, Eq, PartialEq, Structural)]
pub struct DecodedConfig {
    pub controls: Option<Wave3Controls>,
    pub all_leds_off: Option<SemanticValue>,
    pub leds_flip: Option<SemanticValue>,
}

/// The portable configuration of an admitted device.
#[derive(Clone, Copy, Debug, Eq, PartialEq, Structural)]
pub struct Wave3ConfigSnapshot {
    pub input_gain: FixedPointValue,
    pub input_mute: bool,
    pub clipguard_enable: bool,
    pub lowcut_enable: bool,
    pub headphone_volume: FixedPointValue,
    pub headphone_mute: bool,
    pub direct_monitor: FixedPointValue,
    pub volume_select: VolumeSelection,
    pub all_leds_off: bool,
    pub leds_flip: bool,
    pub gain_lock: bool,
}

/// The portable result of one admission.
#[derive(Clone, Copy, Debug, Eq, PartialEq, Structural)]
pub enum DeviceAdmissionSnapshot {
    Admitted { api: ApiVersion, config: Wave3ConfigSnapshot },
    Failed { error: AdmissionError },
}

/// An admitted session: its API version and decoded configuration.
#[derive(Clone, Copy, Debug, Eq, PartialEq, Structural)]
pub struct ProbedSession {
    pub api: ApiVersion,
    pub config: DecodedConfig,
}

/// The portable class of a probe failure.
pub open spec fn admission_failure(error: UsbProbeError) -> AdmissionError {
    match error {
        UsbProbeError::NotFound => AdmissionError::Disconnected,
        UsbProbeError::Topology(_) => AdmissionError::DescriptorMismatch,
        UsbProbeError::Descriptor(_) => AdmissionError::DescriptorMismatch,
        UsbProbeError::Session(SessionError::Transport(transport)) => match transport {
            TransportError::NotFound => AdmissionError::Disconnected,
            TransportError::Disconnected => AdmissionError::Disconnected,
            TransportError::PermissionDenied => AdmissionError::PermissionDenied,
            TransportError::Busy => AdmissionError::InterfaceBusy,
            TransportError::TimedOut => AdmissionError::TimedOut,
            TransportError::Io => AdmissionError::Transport,
        },
        UsbProbeError::Session(SessionError::UnsupportedApi { api }) =>
            AdmissionError::UnsupportedApi { api },
        UsbProbeError::Session(_) => AdmissionError::MalformedResponse,
        UsbProbeError::AdmissionCleanup { admission, release } => AdmissionError::Transport,
    }
}

/// Classifies a probe failure without Linux details.
pub fn admission_error(error: UsbProbeError) -> (class: AdmissionError)
    ensures
        class == admission_failure(error),
{
    match error {
        UsbProbeError::NotFound => AdmissionError::Disconnected,
        UsbProbeError::Topology(_) => AdmissionError::DescriptorMismatch,
        UsbProbeError::Descriptor(_) => AdmissionError::DescriptorMismatch,
        UsbProbeError::Session(session) => match session {
            SessionError::Transport(transport) => match transport {
                TransportError::NotFound => AdmissionError::Disconnected,
                TransportError::Disconnected => AdmissionError::Disconnected,
                TransportError::PermissionDenied => AdmissionError::PermissionDenied,
                TransportError::Busy => AdmissionError::InterfaceBusy,
                TransportError::TimedOut => AdmissionError::TimedOut,
                TransportError::Io => AdmissionError::Transport,
            },
            SessionError::UnsupportedApi { api } => AdmissionError::UnsupportedApi { api },
            _ => AdmissionError::MalformedResponse,
        },
        UsbProbeError::AdmissionCleanup { admission: _, release: _ } => AdmissionError::Transport,
    }
}

/// The portable configuration of a decoded one, if all of it was decoded.
pub open spec fn snapshot_of(config: DecodedConfig) -> Option<Wave3ConfigSnapshot> {
    match (config.controls, config.all_leds_off, config.leds_flip) {
        (
            Some(controls),
            Some(SemanticValue::Boolean(all_leds_off)),
            Some(SemanticValue::Boolean(leds_flip)),
        ) => Some(
            Wave3ConfigSnapshot {
                input_gain: controls.microphone_gain,
                input_mute: controls.microphone_mute,
                clipguard_enable: controls.clipguard_enabled,
                lowcut_enable: controls.lowcut_enabled,
                headphone_volume: controls.headphone_volume,
                headphone_mute: controls.headphone_mute,
                direct_monitor: controls.direct_monitor,
                volume_select: controls.volume_select,
                all_leds_off,
                leds_flip,
                gain_lock: controls.gain_lock,
            },
        ),
        _ => None,
    }
}

fn boolean(value: Option<SemanticValue>) -> (result: Option<bool>)
    ensures
        result == match value {
            Some(SemanticValue::Boolean(value)) => Some(value),
            _ => None,
        },
{
    match value {
        Some(SemanticValue::Boolean(value)) => Some(value),
        _ => None,
    }
}

/// Converts a decoded configuration into the portable one.
pub fn config_snapshot(config: DecodedConfig) -> (snapshot: Option<Wave3ConfigSnapshot>)
    ensures
        snapshot == snapshot_of(config),
        match snapshot {
            Some(shown) => {
                let controls = config.controls->Some_0;
                &&& config.controls is Some
                &&& shown.input_gain == controls.microphone_gain
                &&& shown.input_mute == controls.microphone_mute
                &&& shown.clipguard_enable == controls.clipguard_enabled
                &&& shown.lowcut_enable == controls.lowcut_enabled
                &&& shown.headphone_volume == controls.headphone_volume
                &&& shown.headphone_mute == controls.headphone_mute
                &&& shown.direct_monitor == controls.direct_monitor
                &&& shown.volume_select == controls.volume_select
                &&& shown.gain_lock == controls.gain_lock
                &&& config.all_leds_off == Some(SemanticValue::Boolean(shown.all_leds_off))
                &&& config.leds_flip == Some(SemanticValue::Boolean(shown.leds_flip))
            },
            None => config.controls is None || !(config.all_leds_off is Some
                && config.all_leds_off->Some_0 is Boolean) || !(config.leds_flip is Some
                && config.leds_flip->Some_0 is Boolean),
        },
{
    let controls = match config.controls {
        Some(controls) => controls,
        None => {
            return None;
        },
    };
    let all_leds_off = match boolean(config.all_leds_off) {
        Some(value) => value,
        None => {
            return None;
        },
    };
    let leds_flip = match boolean(config.leds_flip) {
        Some(value) => value,
        None => {
            return None;
        },
    };
    Some(
        Wave3ConfigSnapshot {
            input_gain: controls.microphone_gain,
            input_mute: controls.microphone_mute,
            clipguard_enable: controls.clipguard_enabled,
            lowcut_enable: controls.lowcut_enabled,
            headphone_volume: controls.headphone_volume,
            headphone_mute: controls.headphone_mute,
            direct_monitor: controls.direct_monitor,
            volume_select: controls.volume_select,
            all_leds_off,
            leds_flip,
            gain_lock: controls.gain_lock,
        },
    )
}

/// The portable configuration shows each decoded control under its own name, and
/// is there exactly where everything was decoded.
pub proof fn law_snapshot_shows_each_control(config: DecodedConfig)
    ensures
        match snapshot_of(config) {
            Some(shown) => {
                let controls = config.controls->Some_0;
                &&& config.controls is Some
                &&& shown.input_gain == controls.microphone_gain
                &&& shown.input_mute == controls.microphone_mute
                &&& shown.clipguard_enable == controls.clipguard_enabled
                &&& shown.lowcut_enable == controls.lowcut_enabled
                &&& shown.headphone_volume == controls.headphone_volume
                &&& shown.headphone_mute == controls.headphone_mute
                &&& shown.direct_monitor == controls.direct_monitor
                &&& shown.volume_select == controls.volume_select
                &&& shown.gain_lock == controls.gain_lock
                &&& config.all_leds_off == Some(SemanticValue::Boolean(shown.all_leds_off))
                &&& config.leds_flip == Some(SemanticValue::Boolean(shown.leds_flip))
            },
            None => config.controls is None || !(config.all_leds_off is Some
                && config.all_leds_off->Some_0 is Boolean) || !(config.leds_flip is Some
                && config.leds_flip->Some_0 is Boolean),
        },
{
}

/// Two configurations that differ in one control differ in the snapshot.
pub proof fn law_snapshot_tells_controls_apart(left: DecodedConfig, right: DecodedConfig)
    requires
        snapshot_of(left) is Some,
        snapshot_of(left) == snapshot_of(right),
    ensures
        left == right,
{
}

/// Converts a probe result without exposing Linux topology or USB serial data.
pub fn admission_snapshot(result: Result<ProbedSession, UsbProbeError>) -> (snapshot:
    DeviceAdmissionSnapshot)
    ensures
        snapshot == match result {
            Ok(session) => match snapshot_of(session.config) {
                Some(config) => DeviceAdmissionSnapshot::Admitted { api: session.api, config },
                None => DeviceAdmissionSnapshot::Failed {
                    error: AdmissionError::MalformedResponse,
                },
            },
            Err(error) => DeviceAdmissionSnapshot::Failed { error: admission_failure(error) },
        },
{
    match result {
        Ok(session) => match config_snapshot(session.config) {
            Some(config) => DeviceAdmissionSnapshot::Admitted { api: session.api, config },
            None => DeviceAdmissionSnapshot::Failed { error: AdmissionError::MalformedResponse },
        },
        Err(error) => DeviceAdmissionSnapshot::Failed { error: admission_error(error) },
    }
}

/// One alternate setting of one USB interface.
#[derive(Clone, Copy, Debug, Eq, PartialEq, Structural)]
pub struct InterfaceObservation {
    pub number: u8,
    pub class: u8,
    pub subclass: u8,
    pub protocol: u8,
}

impl InterfaceObservation {
    /// Whether this is the reviewed vendor control interface.
    pub open spec fn is_control(self) -> bool {
        self.class == 0xff && self.subclass == 0xf0 && self.protocol == 0x00
    }
}

/// Whether the interface at `index` is the first control interface.
pub open spec fn is_first_control(interfaces: Seq<InterfaceObservation>, index: int) -> bool {
    &&& 0 <= index < interfaces.len()
    &&& interfaces[index].is_control()
    &&& forall|i: int| 0 <= i < index ==> !(#[trigger] interfaces[i]).is_control()
}

/// Whether the interface at `index` is the first control interface with a number
/// other than `number`.
pub open spec fn is_other_control(
    interfaces: Seq<InterfaceObservation>,
    number: u8,
    index: int,
) -> bool {
    &&& 0 <= index < interfaces.len()
    &&& interfaces[index].is_control()
    &&& interfaces[index].number != number
    &&& forall|i: int|
        0 <= i < index && (#[trigger] interfaces[i]).is_control() ==> interfaces[i].number
            == number
}

/// The one number that all control interfaces carry, or why there is none.
pub open spec fn control_among(interfaces: Seq<InterfaceObservation>) -> Result<
    u8,
    DescriptorError,
> {
    if !exists|i: int| #[trigger] is_first_control(interfaces, i) {
        Err(DescriptorError::ControlInterfaceNotFound)
    } else {
        let first = interfaces[choose|i: int| #[trigger] is_first_control(interfaces, i)].number;
        if !exists|i: int| #[trigger] is_other_control(interfaces, first, i) {
            Ok(first)
        } else {
            let second = interfaces[choose|i: int| #[trigger]
                is_other_control(interfaces, first, i)].number;
            Err(DescriptorError::MultipleControlInterfaces { first, second })
        }
    }
}

/// Selects the one reviewed control interface, whatever its number.
pub fn select_control_interface(interfaces: &[InterfaceObservation]) -> (result: Result<
    u8,
    DescriptorError,
>)
    ensures
        result == control_among(interfaces@),
{
    let mut selected: Option<u8> = None;
    let ghost mut first: int = 0;
    for index in 0..interfaces.len()
        invariant
            match selected {
                None => forall|i: int|
                    0 <= i < index ==> !(#[trigger] interfaces@[i]).is_control(),
                Some(number) => {
                    &&& is_first_control(interfaces@, first)
                    &&& interfaces@[first].number == number
                    &&& forall|i: int|
                        0 <= i < index && (#[trigger] interfaces@[i]).is_control()
                            ==> interfaces@[i].number == number
                },
            },
    {
        let interface = interfaces[index];
        let dfu = interface.class == DFU_CLASS && interface.subclass == DFU_SUBCLASS;
        let control = interface.class == WAVE3_CONTROL_CLASS && interface.subclass
            == WAVE3_CONTROL_SUBCLASS && interface.protocol == WAVE3_CONTROL_PROTOCOL;
        if !dfu && control {
            match selected {
                None => {
                    selected = Some(interface.number);
                    proof {
                        first = index as int;
                    }
                },
                Some(number) => {
                    if number != interface.number {
                        proof {
                            lemma_first_control(interfaces@, first);
                            assert(is_other_control(interfaces@, number, index as int));
                            lemma_other_control(interfaces@, number, index as int);
                        }
                        return Err(
                            DescriptorError::MultipleControlInterfaces {
                                first: number,
                                second: interface.number,
                            },
                        );
                    }
                },
            }
        }
    }
    match selected {
        Some(number) => {
            proof {
                lemma_first_control(interfaces@, first);
            }
            Ok(number)
        },
        None => Err(DescriptorError::ControlInterfaceNotFound),
    }
}

/// There is at most one first control interface.
proof fn lemma_first_control(interfaces: Seq<InterfaceObservation>, index: int)
    requires
        is_first_control(interfaces, index),
    ensures
        index == choose|i: int| #[trigger] is_first_control(interfaces, i),
{
    let chosen = choose|i: int| #[trigger] is_first_control(interfaces, i);
    assert(is_first_control(interfaces, chosen));
    if chosen < index {
        assert(!interfaces[chosen].is_control());
    } else if index < chosen {
        assert(!interfaces[index].is_control());
    }
}

/// There is at most one first control interface with another number.
proof fn lemma_other_control(interfaces: Seq<InterfaceObservation>, number: u8, index: int)
    requires
        is_other_control(interfaces, number, index),
    ensures
        index == choose|i: int| #[trigger] is_other_control(interfaces, number, i),
{
    let chosen = choose|i: int| #[trigger] is_other_control(interfaces, number, i);
    assert(is_other_control(interfaces, number, chosen));
    if chosen < index {
        assert(interfaces[chosen].number == number);
    } else if index < chosen {
        assert(interfaces[index].number == number);
    }
}

/// An interface is selected exactly where there is a control interface and all
/// control interfaces carry its number.
pub proof fn law_selected_interface_is_control(
    interfaces: Seq<InterfaceObservation>,
    index: int,
)
    requires
        0 <= index < interfaces.len(),
        interfaces[index].is_control(),
    ensures
        control_among(interfaces) is Ok <==> forall|i: int|
            0 <= i < interfaces.len() && (#[trigger] interfaces[i]).is_control()
                ==> interfaces[i].number == interfaces[index].number,
        control_among(interfaces) is Ok ==> control_among(interfaces)->Ok_0
            == interfaces[index].number,
        control_among(interfaces) != Err::<u8, DescriptorError>(
            DescriptorError::ControlInterfaceNotFound,
        ),
{
    lemma_a_first_control_exists(interfaces, index);
    let first = choose|i: int| #[trigger] is_first_control(interfaces, i);
    assert(is_first_control(interfaces, first));
    let number = interfaces[first].number;
    if interfaces[index].number != number {
        lemma_another_control_exists(interfaces, number, index);
    }
    if !(forall|i: int|
        0 <= i < interfaces.len() && (#[trigger] interfaces[i]).is_control()
            ==> interfaces[i].number == interfaces[index].number) {
        let other = choose|i: int|
            0 <= i < interfaces.len() && (#[trigger] interfaces[i]).is_control()
                && interfaces[i].number != interfaces[index].number;
        if interfaces[other].number != number {
            lemma_another_control_exists(interfaces, number, other);
        }
    }
}

/// Where there is a control interface, there is a first one.
proof fn lemma_a_first_control_exists(interfaces: Seq<InterfaceObservation>, index: int)
    requires
        0 <= index < interfaces.len(),
        interfaces[index].is_control(),
    ensures
        exists|i: int| #[trigger] is_first_control(interfaces, i),
    decreases index,
{
    if exists|i: int| 0 <= i < index && (#[trigger] interfaces[i]).is_control() {
        let earlier = choose|i: int| 0 <= i < index && (#[trigger] interfaces[i]).is_control();
        lemma_a_first_control_exists(interfaces, earlier);
    } else {
        assert(is_first_control(interfaces, index));
    }
}

/// Where a control interface has another number, there is a first such one.
proof fn lemma_another_control_exists(
    interfaces: Seq<InterfaceObservation>,
    number: u8,
    index: int,
)
    requires
        0 <= index < interfaces.len(),
        interfaces[index].is_control(),
        interfaces[index].number != number,
    ensures
        exists|i: int| #[trigger] is_other_control(interfaces, number, i),
    decreases index,
{
    if exists|i: int|
        0 <= i < index && (#[trigger] interfaces[i]).is_control() && interfaces[i].number
            != number {
        let earlier = choose|i: int|
            0 <= i < index && (#[trigger] interfaces[i]).is_control() && interfaces[i].number
                != number;
        lemma_another_control_exists(interfaces, number, earlier);
    } else {
        assert(is_other_control(interfaces, number, index));
    }
}

/// A libusb location: a bus and a chain of ports.
#[derive(Debug, Eq, PartialEq)]
pub struct UsbLocation {
    pub bus: u8,
    pub ports: Vec<u8>,
}

/// The number that decimal digits denote, where it fits a byte.
pub open spec fn decimal_byte(text: Seq<char>) -> Option<nat> {
    if text.len() > 0 && all_digits(text, 10) && number_of(text, 10) <= 255 {
        Some(number_of(text, 10))
    } else {
        None
    }
}

/// Parses decimal digits that fit a byte.
pub fn parse_decimal_u8(text: &[char]) -> (result: Option<u8>)
    ensures
        match result {
            Some(value) => decimal_byte(text@) == Some(value as nat),
            None => decimal_byte(text@) is None,
        },
{
    if text.len() == 0 {
        return None;
    }
    if text[0] == '+' {
        proof {
            assert(!is_digit(text@[0], 10));
        }
        return None;
    }
    match parse_number(text, 10, 255) {
        Some(value) => Some(value as u8),
        None => None,
    }
}

/// The ports of a chain of nonzero numbers with dots between them.
pub open spec fn port_chain(text: Seq<char>) -> Option<Seq<u8>>
    decreases text.len(),
{
    let dot = first_char(text, '.') as int;
    match decimal_byte(text.take(dot)) {
        None => None,
        Some(port) => if port == 0 {
            None
        } else if dot < text.len() {
            match port_chain(text.skip(dot + 1)) {
                Some(rest) => Some(seq![port as u8] + rest),
                None => None,
            }
        } else {
            Some(seq![port as u8])
        },
    }
}

/// The location that a sysfs topology name denotes, or why it denotes none.
pub open spec fn location_of(topology: Seq<char>) -> Result<(u8, Seq<u8>), TopologyError> {
    let dash = first_char(topology, '-') as int;
    let bus = decimal_byte(topology.take(dash));
    let ports = port_chain(topology.skip(dash + 1));
    if dash >= topology.len() {
        Err(TopologyError::InvalidFormat)
    } else if bus is None || bus == Some(0nat) {
        Err(TopologyError::InvalidBus)
    } else if ports is None || ports->Some_0.len() > 7 {
        Err(TopologyError::InvalidPortChain)
    } else {
        Ok((bus->Some_0 as u8, ports->Some_0))
    }
}

fn parse_port_chain(text: &[char]) -> (result: Option<Vec<u8>>)
    ensures
        match result {
            Some(ports) => port_chain(text@) == Some(ports@),
            None => port_chain(text@) is None,
        },
{
    let length: usize = text.len();
    let mut ports: Vec<u8> = Vec::new();
    let mut start: usize = 0;
    proof {
        assert(text@.skip(0) =~= text@);
        if port_chain(text@) is Some {
            assert(Seq::<u8>::empty() + port_chain(text@)->Some_0 =~= port_chain(text@)->Some_0);
        }
        assert(ports@ =~= Seq::<u8>::empty());
    }
    loop
        invariant
            length == text@.len(),
            start <= length,
            port_chain(text@) == (match port_chain(text@.skip(start as int)) {
                Some(rest) => Some(ports@ + rest),
                None => None,
            }),
        decreases length - start,
    {
        let rest = slice_subrange(text, start, length);
        let dot: usize = find_char(rest, '.');
        let numeral = slice_subrange(rest, 0, dot);
        proof {
            assert(rest@ =~= text@.skip(start as int));
            assert(numeral@ =~= rest@.take(dot as int));
        }
        let port: u8 = match parse_decimal_u8(numeral) {
            Some(port) => port,
            None => {
                return None;
            },
        };
        if port == 0 {
            return None;
        }
        let ghost held = ports@;
        ports.push(port);
        if dot == rest.len() {
            proof {
                assert(ports@ =~= held + seq![port]);
            }
            return Some(ports);
        }
        proof {
            assert(rest@.skip(dot + 1) =~= text@.skip(start + dot + 1));
            if port_chain(rest@.skip(dot + 1)) is Some {
                let tail = port_chain(rest@.skip(dot + 1))->Some_0;
                assert(held + (seq![port] + tail) =~= ports@ + tail);
            }
        }
        start = start + dot + 1;
    }
}

impl UsbLocation {
    /// Parses a sysfs topology name `BUS-PORT[.PORT]`.
    pub fn parse(topology: &str) -> (result: Result<Self, TopologyError>)
        ensures
            match result {
                Ok(location) => location_of(topology@) == Ok::<(u8, Seq<u8>), TopologyError>(
                    (location.bus, location.ports@),
                ),
                Err(error) => location_of(topology@) == Err::<(u8, Seq<u8>), TopologyError>(error),
            },
    {
        let all = characters(topology);
        let dash: usize = find_char(all.as_slice(), '-');
        if dash >= all.len() {
            return Err(TopologyError::InvalidFormat);
        }
        let head = slice_subrange(all.as_slice(), 0, dash);
        let tail = slice_subrange(all.as_slice(), dash + 1, all.len());
        proof {
            assert(head@ =~= all@.take(dash as int));
            assert(tail@ =~= all@.skip(dash + 1));
        }
        let bus: u8 = match parse_decimal_u8(head) {
            Some(bus) => bus,
            None => {
                return Err(TopologyError::InvalidBus);
            },
        };
        if bus == 0 {
            return Err(TopologyError::InvalidBus);
        }
        let ports = match parse_port_chain(tail) {
            Some(ports) => ports,
            None => {
                return Err(TopologyError::InvalidPortChain);
            },
        };
        if ports.len() > 7 {
            return Err(TopologyError::InvalidPortChain);
        }
        Ok(UsbLocation { bus, ports })
    }
}

/// Where one USB device is; the ports are unknown where they are unreadable.
#[derive(Debug, Eq, PartialEq)]
pub struct LocatedDevice {
    pub bus: u8,
    pub ports: Option<Vec<u8>>,
}

/// Whether a device is exactly at a location.
pub open spec fn is_at(device: LocatedDevice, bus: u8, ports: Seq<u8>) -> bool {
    device.bus == bus && device.ports is Some && device.ports->Some_0@ == ports
}

fn same_ports(left: &Vec<u8>, right: &Vec<u8>) -> (same: bool)
    ensures
        same == (left@ == right@),
{
    if left.len() != right.len() {
        return false;
    }
    for index in 0..left.len()
        invariant
            left@.len() == right@.len(),
            forall|i: int| 0 <= i < index ==> #[trigger] left@[i] == right@[i],
    {
        if left[index] != right[index] {
            return false;
        }
    }
    proof {
        assert(left@ =~= right@);
    }
    true
}

/// Selects the first device that is exactly at a location, by its position.
pub fn select_device_at_location(devices: &Vec<LocatedDevice>, location: &UsbLocation) -> (result:
    Result<usize, UsbProbeError>)
    ensures
        match result {
            Ok(index) => {
                &&& index < devices@.len()
                &&& is_at(devices@[index as int], location.bus, location.ports@)
                &&& forall|i: int|
                    0 <= i < index ==> !is_at(
                        #[trigger] devices@[i],
                        location.bus,
                        location.ports@,
                    )
            },
            Err(error) => {
                &&& error == UsbProbeError::NotFound
                &&& forall|i: int|
                    0 <= i < devices@.len() ==> !is_at(
                        #[trigger] devices@[i],
                        location.bus,
                        location.ports@,
                    )
            },
        },
{
    for index in 0..devices.len()
        invariant
            forall|i: int|
                0 <= i < index ==> !is_at(#[trigger] devices@[i], location.bus, location.ports@),
    {
        let device = &devices[index];
        let at_ports = match &device.ports {
            Some(ports) => same_ports(ports, &location.ports),
            None => false,
        };
        if device.bus == location.bus && at_ports {
            return Ok(index);
        }
    }
    Err(UsbProbeError::NotFound)
}

/// Tells whether a USB pair is the reviewed normal-mode product.
pub fn is_reviewed_wave3(vendor_id: u16, product_id: u16) -> (reviewed: bool)
    ensures
        reviewed == (vendor_id == wave3_usb().vendor_id && product_id == wave3_usb().product_id),
{
    let usb = DeviceIdentity::wave3().usb();
    vendor_id == usb.vendor_id && product_id == usb.product_id
}

/// The failures that libusb reports, one for each variant of `rusb::Error`.
#[derive(Clone, Copy, Debug, Eq, PartialEq, Structural)]
pub enum LibusbError {
    Io,
    InvalidParam,
    Access,
    NoDevice,
    NotFound,
    Busy,
    Timeout,
    Overflow,
    Pipe,
    Interrupted,
    NoMem,
    NotSupported,
    BadDescriptor,
    Other,
}

/// The stable class of a libusb failure.
pub open spec fn transport_class(error: LibusbError) -> TransportError {
    match error {
        LibusbError::Access => TransportError::PermissionDenied,
        LibusbError::Busy => TransportError::Busy,
        LibusbError::NotFound => TransportError::NotFound,
        LibusbError::NoDevice => TransportError::Disconnected,
        LibusbError::Timeout => TransportError::TimedOut,
        _ => TransportError::Io,
    }
}

/// Classifies a libusb failure.
pub fn map_rusb_error(error: LibusbError) -> (class: TransportError)
    ensures
        class == transport_class(error),
{
    match error {
        LibusbError::Access => TransportError::PermissionDenied,
        LibusbError::Busy => TransportError::Busy,
        LibusbError::NotFound => TransportError::NotFound,
        LibusbError::NoDevice => TransportError::Disconnected,
        LibusbError::Timeout => TransportError::TimedOut,
        _ => TransportError::Io,
    }
}

/// The probe failure of a libusb failure.
pub open spec fn probe_failure(error: LibusbError) -> UsbProbeError {
    UsbProbeError::Session(SessionError::Transport(transport_class(error)))
}

/// Turns a libusb failure into a probe failure.
pub fn transport_probe_error(error: LibusbError) -> (failure: UsbProbeError)
    ensures
        failure == probe_failure(error),
{
    UsbProbeError::Session(SessionError::Transport(map_rusb_error(error)))
}

/// Turns a libusb failure while reading a descriptor into a probe failure.
pub fn descriptor_error(error: LibusbError) -> (failure: UsbProbeError)
    ensures
        failure == if error == LibusbError::BadDescriptor {
            UsbProbeError::Descriptor(DescriptorError::Malformed)
        } else {
            probe_failure(error)
        },
{
    match error {
        LibusbError::BadDescriptor => UsbProbeError::Descriptor(DescriptorError::Malformed),
        _ => transport_probe_error(error),
    }
}

/// Each libusb failure keeps its class all the way to the portable result: refused
/// access, a busy interface, an absent device and a timeout are told apart, and
/// every other failure is one of the transport.
pub proof fn law_libusb_failures_keep_their_class(error: LibusbError)
    ensures
        admission_failure(probe_failure(error)) == AdmissionError::PermissionDenied <==> error
            == LibusbError::Access,
        admission_failure(probe_failure(error)) == AdmissionError::InterfaceBusy <==> error
            == LibusbError::Busy,
        admission_failure(probe_failure(error)) == AdmissionError::Disconnected <==> error
            == LibusbError::NotFound || error == LibusbError::NoDevice,
        admission_failure(probe_failure(error)) == AdmissionError::TimedOut <==> error
            == LibusbError::Timeout,
        admission_failure(probe_failure(error)) == AdmissionError::Transport <==> (error
            != LibusbError::Access && error != LibusbError::Busy && error != LibusbError::NotFound
            && error != LibusbError::NoDevice && error != LibusbError::Timeout),
        transport_class(error) == TransportError::NotFound <==> error == LibusbError::NotFound,
        transport_class(error) == TransportError::Disconnected <==> error == LibusbError::NoDevice,
{
}

/// How a probe failure is told to a portable client: a device that is not there is
/// disconnected, a wrong place or descriptor is a mismatch, an unsupported version
/// names the version, a wrong response is malformed, and a failed cleanup is a
/// failure of the transport.
pub proof fn law_probe_failures_keep_their_class(
    topology: TopologyError,
    descriptor: DescriptorError,
    api: ApiVersion,
    expected: usize,
    actual: usize,
    code: u32,
    admission: SessionError,
    release: TransportError,
)
    ensures
        admission_failure(UsbProbeError::NotFound) == AdmissionError::Disconnected,
        admission_failure(UsbProbeError::Topology(topology)) == AdmissionError::DescriptorMismatch,
        admission_failure(UsbProbeError::Descriptor(descriptor))
            == AdmissionError::DescriptorMismatch,
        admission_failure(UsbProbeError::Session((SessionError::UnsupportedApi { api }))) == (
        AdmissionError::UnsupportedApi { api }),
        admission_failure(
            UsbProbeError::Session((SessionError::ShortTransfer { expected, actual })),
        ) == AdmissionError::MalformedResponse,
        admission_failure(
            UsbProbeError::Session((SessionError::LongTransfer { expected, actual })),
        ) == AdmissionError::MalformedResponse,
        admission_failure(UsbProbeError::Session((SessionError::Schema { code })))
            == AdmissionError::MalformedResponse,
        admission_failure((UsbProbeError::AdmissionCleanup { admission, release }))
            == AdmissionError::Transport,
{
}

/// The control interface is the vendor one with the reviewed subclass and
/// protocol, and where two numbers carry it the refusal names the first and the
/// first other one.
pub proof fn law_ambiguous_interfaces_are_named(
    interfaces: Seq<InterfaceObservation>,
    interface: InterfaceObservation,
)
    ensures
        interface.is_control() <==> interface.class == 0xff && interface.subclass == 0xf0
            && interface.protocol == 0,
        match control_among(interfaces) {
            Ok(number) => exists|i: int|
                0 <= i < interfaces.len() && (#[trigger] interfaces[i]).is_control()
                    && interfaces[i].number == number,
            Err(DescriptorError::ControlInterfaceNotFound) => forall|i: int|
                0 <= i < interfaces.len() ==> !(#[trigger] interfaces[i]).is_control(),
            Err(DescriptorError::MultipleControlInterfaces { first, second }) => {
                &&& first != second
                &&& exists|i: int|
                    0 <= i < interfaces.len() && (#[trigger] interfaces[i]).is_control()
                        && interfaces[i].number == first && forall|j: int|
                        0 <= j < i ==> !(#[trigger] interfaces[j]).is_control()
                &&& exists|i: int|
                    0 <= i < interfaces.len() && (#[trigger] interfaces[i]).is_control()
                        && interfaces[i].number == second && forall|j: int|
                        0 <= j < i && (#[trigger] interfaces[j]).is_control()
                            ==> interfaces[j].number == first
            },
            Err(_) => false,
        },
{
    if exists|i: int| 0 <= i < interfaces.len() && (#[trigger] interfaces[i]).is_control() {
        let some = choose|i: int|
            0 <= i < interfaces.len() && (#[trigger] interfaces[i]).is_control();
        lemma_a_first_control_exists(interfaces, some);
        let first = choose|i: int| #[trigger] is_first_control(interfaces, i);
        assert(is_first_control(interfaces, first));
        assert(interfaces[first].is_control());
        let number = interfaces[first].number;
        if exists|i: int| #[trigger] is_other_control(interfaces, number, i) {
            let second = choose|i: int| #[trigger] is_other_control(interfaces, number, i);
            assert(is_other_control(interfaces, number, second));
            assert(interfaces[second].is_control());
        }
    } else {
        if exists|i: int| #[trigger] is_first_control(interfaces, i) {
            let first = choose|i: int| #[trigger] is_first_control(interfaces, i);
            assert(is_first_control(interfaces, first));
            assert(interfaces[first].is_control());
        }
    }
}

/// The numerals of a chain of ports with dots between them.
pub open spec fn chain_text(ports: Seq<u8>) -> Seq<char>
    decreases ports.len(),
{
    if ports.len() == 0 {
        Seq::empty()
    } else if ports.len() == 1 {
        decimal(ports[0] as nat)
    } else {
        decimal(ports[0] as nat) + seq!['.'] + chain_text(ports.drop_first())
    }
}

proof fn lemma_byte_is_read_back(value: u8, mark: char, rest: Seq<char>)
    requires
        !is_digit(mark, 10),
        rest.len() == 0 || rest[0] == mark,
    ensures
        decimal_byte(decimal(value as nat)) == Some(value as nat),
        first_char(decimal(value as nat) + rest, mark) == decimal(value as nat).len(),
        (decimal(value as nat) + rest).take(decimal(value as nat).len() as int) == decimal(
            value as nat,
        ),
{
    let digits = decimal(value as nat);
    let text = digits + rest;
    law_decimal_is_read_back(value as nat);
    law_first_char_is_the_first(text, mark);
    let end = first_char(text, mark) as int;
    assert(text.take(digits.len() as int) =~= digits);
    if end < digits.len() {
        assert(text[end] == digits[end]);
        assert(is_digit(digits[end], 10));
    }
    if end > digits.len() {
        assert(text[digits.len() as int] == rest[0]);
    }
}

proof fn lemma_chain_is_read_back(ports: Seq<u8>)
    requires
        ports.len() > 0,
        forall|i: int| 0 <= i < ports.len() ==> #[trigger] ports[i] != 0,
    ensures
        port_chain(chain_text(ports)) == Some(ports),
    decreases ports.len(),
{
    let digits = decimal(ports[0] as nat);
    law_decimal_is_read_back(ports[0] as nat);
    if ports.len() == 1 {
        lemma_byte_is_read_back(ports[0], '.', Seq::empty());
        assert(digits + Seq::<char>::empty() =~= digits);
        assert(seq![ports[0]] =~= ports);
    } else {
        let rest = ports.drop_first();
        assert forall|i: int| 0 <= i < rest.len() implies #[trigger] rest[i] != 0 by {
            assert(rest[i] == ports[i + 1]);
        }
        lemma_chain_is_read_back(rest);
        let tail = seq!['.'] + chain_text(rest);
        let text = chain_text(ports);
        assert(text =~= digits + tail);
        lemma_byte_is_read_back(ports[0], '.', tail);
        assert(text.skip(digits.len() as int + 1) =~= chain_text(rest));
        assert(seq![ports[0]] + rest =~= ports);
    }
}

/// Every location has a topology name that denotes it: the bus, a dash, and the
/// chain of ports with dots between them.
pub proof fn law_locations_are_named_by_bus_and_ports(bus: u8, ports: Seq<u8>)
    requires
        bus != 0,
        1 <= ports.len() <= 7,
        forall|i: int| 0 <= i < ports.len() ==> #[trigger] ports[i] != 0,
    ensures
        location_of(decimal(bus as nat) + seq!['-'] + chain_text(ports)) == Ok::<
            (u8, Seq<u8>),
            TopologyError,
        >((bus, ports)),
{
    let digits = decimal(bus as nat);
    let tail = seq!['-'] + chain_text(ports);
    let topology = digits + seq!['-'] + chain_text(ports);
    assert(topology =~= digits + tail);
    lemma_byte_is_read_back(bus, '-', tail);
    lemma_chain_is_read_back(ports);
    assert(topology.skip(digits.len() as int + 1) =~= chain_text(ports));
}

/// A location that a name denotes has a bus and one to seven ports, none of them
/// zero; a name without a dash has the wrong form.
pub proof fn law_denoted_locations_are_valid(topology: Seq<char>)
    ensures
        match location_of(topology) {
            Ok((bus, ports)) => {
                &&& bus != 0
                &&& 1 <= ports.len() <= 7
                &&& forall|i: int| 0 <= i < ports.len() ==> #[trigger] ports[i] != 0
                &&& topology.contains('-')
            },
            Err(error) => error == TopologyError::InvalidFormat <==> !topology.contains('-'),
        },
{
    law_first_char_is_the_first(topology, '-');
    let dash = first_char(topology, '-') as int;
    if dash < topology.len() {
        assert(topology[dash] == '-');
        lemma_chain_is_valid(topology.skip(dash + 1));
    }
}

proof fn lemma_chain_is_valid(text: Seq<char>)
    ensures
        match port_chain(text) {
            Some(ports) => ports.len() > 0 && forall|i: int|
                0 <= i < ports.len() ==> #[trigger] ports[i] != 0,
            None => true,
        },
    decreases text.len(),
{
    law_first_char_is_the_first(text, '.');
    let dot = first_char(text, '.') as int;
    if dot < text.len() {
        lemma_chain_is_valid(text.skip(dot + 1));
    }
}

/// A device is at a location exactly if its bus is the same and its ports are
/// known and the same, one by one.
pub proof fn law_devices_are_located_by_bus_and_ports(
    device: LocatedDevice,
    bus: u8,
    ports: Seq<u8>,
)
    ensures
        is_at(device, bus, ports) <==> {
            &&& device.bus == bus
            &&& device.ports is Some
            &&& device.ports->Some_0@.len() == ports.len()
            &&& forall|i: int|
                0 <= i < ports.len() ==> #[trigger] device.ports->Some_0@[i] == ports[i]
        },
{
    if device.ports is Some && device.ports->Some_0@.len() == ports.len() && (forall|i: int|
        0 <= i < ports.len() ==> #[trigger] device.ports->Some_0@[i] == ports[i]) {
        assert(device.ports->Some_0@ =~= ports);
    }
}

} // verus!
