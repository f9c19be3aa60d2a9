//! Host readiness, its failures, and the production host's decisions.

use crate::audio_host::endpoints::{endpoint_plans, repeated, EndpointId};
use crate::audio_host::pcm::PcmDirection;
use crate::audio_lifecycle::{hidden_nodes, CaptureConsumption, HiddenPhysicalNode};
use crate::device::{wave3_usb, DeviceIdentity, UsbDeviceCandidate};
use vstd::prelude::*;
use vstd::string::*;

verus! {

/// Coarse resource activity without ALSA card numbers or `PipeWire` object IDs.
#[derive(Clone, Copy, Debug, Eq, PartialEq, Structural)]
pub enum ResourceActivity {
    /// No resource is owned.
    Closed,
    /// The resource exists but is not ready to carry frames.
    Starting,
    /// The processing path is active.
    Active,
    /// The resource failed and requires teardown.
    Failed,
}

/// Why a graph cannot be reported as ready.
#[derive(Clone, Copy, Debug, Eq, PartialEq, Structural)]
pub enum GraphNotReady {
    /// The production adapter cannot create frame-carrying endpoint streams.
    EndpointStreamTransportUnavailable,
}

/// Inspectable production resource state for reconciliation and diagnostics.
///
/// This state contains portable endpoint identities and aggregate counters. It
/// does not expose card numbers, PCM names, USB topology, or `PipeWire` object
/// IDs.
#[derive(Clone, Debug, Eq, PartialEq)]
pub struct AudioResourceState {
    /// Whether the host owns a `PipeWire` core connection resource.
    pub pipewire_connection_owned: bool,
    /// Physical capture state.
    pub capture: ResourceActivity,
    /// Physical playback state.
    pub playback: ResourceActivity,
    /// Endpoints created by the current host attempt.
    pub published_endpoints: Vec<EndpointId>,
    /// Explicit readiness boundary, when present.
    pub not_ready: Option<GraphNotReady>,
}

impl Default for AudioResourceState {
    fn default() -> (state: Self)
        ensures
            !state.pipewire_connection_owned,
            state.capture == ResourceActivity::Closed,
            state.playback == ResourceActivity::Closed,
            state.published_endpoints@ == Seq::<EndpointId>::empty(),
            state.not_ready is None,
    {
        AudioResourceState {
            pipewire_connection_owned: false,
            capture: ResourceActivity::Closed,
            playback: ResourceActivity::Closed,
            published_endpoints: Vec::new(),
            not_ready: None,
        }
    }
}

/// A classified Linux audio host failure.
#[derive(Debug, Eq, PartialEq)]
pub enum LinuxAudioError {
    /// The admitted candidate did not identify exactly one ALSA card.
    AmbiguousAlsaCard,
    /// The candidate had no stable ALSA card identifier.
    MissingAlsaCardId,
    /// The ALSA card identifier cannot be interpolated into a safe PCM name.
    InvalidAlsaCardId,
    /// The candidate no longer resolves to the same USB topology and ALSA card.
    AlsaCardChanged,
    /// The selected ALSA card has zero or multiple PCMs for a required direction.
    AmbiguousPcmDirection { direction: PcmDirection },
    /// A safe ALSA wrapper operation failed.
    Alsa(String),
    /// ALSA did not apply packed signed `S24_3LE` for the requested direction.
    UnsupportedPcmFormat { direction: PcmDirection },
    /// ALSA adjusted the exact rate, channels, period, buffer, or access mode.
    PcmConfigurationAdjusted { direction: PcmDirection },
    /// ALSA adjusted the required monotonic timestamp configuration.
    PcmTimestampConfigurationAdjusted { direction: PcmDirection },
    /// ALSA adjusted the playback threshold that prevents automatic start.
    PlaybackStartThresholdAdjusted,
    /// A `PipeWire` wrapper operation failed.
    PipeWire(String),
    /// `PipeWire` still exposes the admitted physical card or one of its nodes.
    PhysicalNodeExposed,
    /// The lifecycle requested an unknown set of physical nodes to hide.
    InvalidHiddenPhysicalNodeContract,
    /// A requested endpoint is not part of the portable product contract.
    EndpointNotAllowed(EndpointId),
    /// An endpoint appeared more than once in one publication request.
    DuplicateEndpoint(EndpointId),
    /// The production adapter cannot create frame-carrying endpoint streams.
    EndpointStreamTransportUnavailable,
    /// One or more owned resources could not be closed.
    TeardownFailed,
}

/// The name of a PCM direction in failure texts.
pub open spec fn direction_name(direction: PcmDirection) -> Seq<char> {
    match direction {
        PcmDirection::Capture => "Capture"@,
        PcmDirection::Playback => "Playback"@,
    }
}

fn direction_text(direction: PcmDirection) -> (text: &'static str)
    ensures
        text@ == direction_name(direction),
{
    match direction {
        PcmDirection::Capture => "Capture",
        PcmDirection::Playback => "Playback",
    }
}

/// The name of an endpoint in failure texts.
pub open spec fn endpoint_name(endpoint: EndpointId) -> Seq<char> {
    match endpoint {
        EndpointId::System => "System"@,
        EndpointId::Microphone => "Microphone"@,
        EndpointId::MonitorMix => "MonitorMix"@,
        EndpointId::StreamMix => "StreamMix"@,
    }
}

fn endpoint_text(endpoint: EndpointId) -> (text: &'static str)
    ensures
        text@ == endpoint_name(endpoint),
{
    match endpoint {
        EndpointId::System => "System",
        EndpointId::Microphone => "Microphone",
        EndpointId::MonitorMix => "MonitorMix",
        EndpointId::StreamMix => "StreamMix",
    }
}

fn surround(before: &str, middle: &str, after: &str) -> (text: String)
    ensures
        text@ == before@ + middle@ + after@,
{
    let mut text = String::from_str(before);
    text.append(middle);
    text.append(after);
    text
}

impl LinuxAudioError {
    /// The text of this error.
    pub open spec fn text(self) -> Seq<char> {
        match self {
            LinuxAudioError::AmbiguousAlsaCard =>
                "the admitted USB device does not identify one ALSA card"@,
            LinuxAudioError::MissingAlsaCardId =>
                "the admitted ALSA card has no stable identifier"@,
            LinuxAudioError::InvalidAlsaCardId =>
                "the admitted ALSA card identifier is invalid"@,
            LinuxAudioError::AlsaCardChanged =>
                "the admitted USB-to-ALSA correlation changed before open"@,
            LinuxAudioError::AmbiguousPcmDirection { direction: PcmDirection::Capture } =>
                "the ALSA card does not have one capture PCM"@,
            LinuxAudioError::AmbiguousPcmDirection { direction: PcmDirection::Playback } =>
                "the ALSA card does not have one playback PCM"@,
            LinuxAudioError::Alsa(message) => "ALSA failed: "@ + message@,
            LinuxAudioError::UnsupportedPcmFormat { direction } =>
                "ALSA did not apply S24_3LE for "@ + direction_name(direction),
            LinuxAudioError::PcmConfigurationAdjusted { direction } =>
                "ALSA adjusted the required "@ + direction_name(direction)
                + " PCM configuration"@,
            LinuxAudioError::PcmTimestampConfigurationAdjusted { direction } =>
                "ALSA adjusted the required "@ + direction_name(direction) + " timestamp mode"@,
            LinuxAudioError::PlaybackStartThresholdAdjusted =>
                "ALSA adjusted the playback start threshold"@,
            LinuxAudioError::PipeWire(message) => "PipeWire failed: "@ + message@,
            LinuxAudioError::PhysicalNodeExposed =>
                "PipeWire exposes the admitted physical Wave card"@,
            LinuxAudioError::InvalidHiddenPhysicalNodeContract =>
                "the physical-node ownership contract is invalid"@,
            LinuxAudioError::EndpointNotAllowed(endpoint) => "endpoint "@ + endpoint_name(endpoint)
                + " is not in the product allowlist"@,
            LinuxAudioError::DuplicateEndpoint(endpoint) => "endpoint "@ + endpoint_name(endpoint)
                + " appears more than once"@,
            LinuxAudioError::EndpointStreamTransportUnavailable =>
                "the endpoint stream transport is unavailable"@,
            LinuxAudioError::TeardownFailed => "one or more audio resources stayed open"@,
        }
    }

    /// Describes this error to a person.
    pub fn message(&self) -> (message: String)
        ensures
            message@ == self.text(),
    {
        match self {
            LinuxAudioError::AmbiguousAlsaCard => String::from_str(
                "the admitted USB device does not identify one ALSA card",
            ),
            LinuxAudioError::MissingAlsaCardId => String::from_str(
                "the admitted ALSA card has no stable identifier",
            ),
            LinuxAudioError::InvalidAlsaCardId => String::from_str(
                "the admitted ALSA card identifier is invalid",
            ),
            LinuxAudioError::AlsaCardChanged => String::from_str(
                "the admitted USB-to-ALSA correlation changed before open",
            ),
            LinuxAudioError::AmbiguousPcmDirection { direction } => match direction {
                PcmDirection::Capture => String::from_str(
                    "the ALSA card does not have one capture PCM",
                ),
                PcmDirection::Playback => String::from_str(
                    "the ALSA card does not have one playback PCM",
                ),
            },
            LinuxAudioError::Alsa(message) => {
                String::from_str("ALSA failed: ").concat(message.as_str())
            },
            LinuxAudioError::UnsupportedPcmFormat { direction } => {
                String::from_str("ALSA did not apply S24_3LE for ").concat(
                    direction_text(*direction),
                )
            },
            LinuxAudioError::PcmConfigurationAdjusted { direction } => surround(
                "ALSA adjusted the required ",
                direction_text(*direction),
                " PCM configuration",
            ),
            LinuxAudioError::PcmTimestampConfigurationAdjusted { direction } => surround(
                "ALSA adjusted the required ",
                direction_text(*direction),
                " timestamp mode",
            ),
            LinuxAudioError::PlaybackStartThresholdAdjusted => String::from_str(
                "ALSA adjusted the playback start threshold",
            ),
            LinuxAudioError::PipeWire(message) => {
                String::from_str("PipeWire failed: ").concat(message.as_str())
            },
            LinuxAudioError::PhysicalNodeExposed => String::from_str(
                "PipeWire exposes the admitted physical Wave card",
            ),
            LinuxAudioError::InvalidHiddenPhysicalNodeContract => String::from_str(
                "the physical-node ownership contract is invalid",
            ),
            LinuxAudioError::EndpointNotAllowed(endpoint) => surround(
                "endpoint ",
                endpoint_text(*endpoint),
                " is not in the product allowlist",
            ),
            LinuxAudioError::DuplicateEndpoint(endpoint) => surround(
                "endpoint ",
                endpoint_text(*endpoint),
                " appears more than once",
            ),
            LinuxAudioError::EndpointStreamTransportUnavailable => String::from_str(
                "the endpoint stream transport is unavailable",
            ),
            LinuxAudioError::TeardownFailed => String::from_str(
                "one or more audio resources stayed open",
            ),
        }
    }
}

/// Why physical nodes of a candidate cannot even be looked for, if they cannot.
pub open spec fn scan_refusal(candidate: UsbDeviceCandidate) -> Option<LinuxAudioError> {
    if candidate.identity.usb != wave3_usb() {
        Some(LinuxAudioError::AlsaCardChanged)
    } else if candidate.alsa_cards@.len() != 1 {
        Some(LinuxAudioError::AmbiguousAlsaCard)
    } else {
        None
    }
}

/// Finds the one card whose physical nodes must be hidden.
pub fn card_to_scan(candidate: &UsbDeviceCandidate) -> (result: Result<u32, LinuxAudioError>)
    ensures
        result == match scan_refusal(*candidate) {
            Some(error) => Err::<u32, LinuxAudioError>(error),
            None => Ok::<u32, LinuxAudioError>(candidate.alsa_cards@[0].number),
        },
{
    if candidate.identity.usb() != DeviceIdentity::wave3().usb() {
        return Err(LinuxAudioError::AlsaCardChanged);
    }
    if candidate.alsa_cards.len() != 1 {
        return Err(LinuxAudioError::AmbiguousAlsaCard);
    }
    Ok(candidate.alsa_cards[0].number)
}

/// The outcome of one registry round trip.
pub fn scan_outcome(fatal: Option<String>, done: bool, exposed: bool) -> (result: Result<
    (),
    LinuxAudioError,
>)
    ensures
        match result {
            Ok(()) => fatal is None && done && !exposed,
            Err(LinuxAudioError::PipeWire(message)) => match fatal {
                Some(error) => message@ == error@,
                None => !done && message@ == "registry roundtrip timed out"@,
            },
            Err(error) => error == LinuxAudioError::PhysicalNodeExposed && fatal is None && done
                && exposed,
        },
{
    if let Some(error) = fatal {
        return Err(LinuxAudioError::PipeWire(error));
    }
    if !done {
        return Err(LinuxAudioError::PipeWire(String::from_str("registry roundtrip timed out")));
    }
    if exposed {
        Err(LinuxAudioError::PhysicalNodeExposed)
    } else {
        Ok(())
    }
}

/// The production Linux host's readiness.
///
/// It can inspect `PipeWire`, but it refuses audio startup before ALSA opens
/// until the production graph can own the clock bridge.
#[derive(Clone, Copy, Debug, Eq, PartialEq, Structural)]
pub struct LinuxAudioHost {
    pub not_ready: Option<GraphNotReady>,
}

impl Default for LinuxAudioHost {
    fn default() -> (host: Self)
        ensures
            host.not_ready is None,
    {
        LinuxAudioHost { not_ready: None }
    }
}

impl LinuxAudioHost {
    /// Creates the production host at its readiness boundary.
    pub fn new() -> (host: Self)
        ensures
            host.not_ready is None,
    {
        LinuxAudioHost { not_ready: None }
    }

    /// Returns a current snapshot of resources owned by this host.
    pub fn resource_state(&self, pipewire_connection_owned: bool) -> (state: AudioResourceState)
        ensures
            state.pipewire_connection_owned == pipewire_connection_owned,
            state.capture == ResourceActivity::Closed,
            state.playback == ResourceActivity::Closed,
            state.published_endpoints@ == Seq::<EndpointId>::empty(),
            state.not_ready == self.not_ready,
    {
        AudioResourceState {
            pipewire_connection_owned,
            capture: ResourceActivity::Closed,
            playback: ResourceActivity::Closed,
            published_endpoints: Vec::new(),
            not_ready: self.not_ready,
        }
    }

    /// Accepts the contract of physical nodes to hide before any of them is
    /// looked for.
    pub fn accept_hidden_nodes(&mut self, nodes: &[HiddenPhysicalNode]) -> (result: Result<
        (),
        LinuxAudioError,
    >)
        ensures
            if nodes@ == hidden_nodes() {
                result == Ok::<(), LinuxAudioError>(()) && final(self).not_ready is None
            } else {
                &&& result == Err::<(), LinuxAudioError>(
                    LinuxAudioError::InvalidHiddenPhysicalNodeContract,
                )
                &&& *final(self) == *old(self)
            },
    {
        if nodes.len() != 2 || nodes[0] != HiddenPhysicalNode::Capture || nodes[1]
            != HiddenPhysicalNode::Playback {
            return Err(LinuxAudioError::InvalidHiddenPhysicalNodeContract);
        }
        proof {
            assert(nodes@ =~= hidden_nodes());
        }
        self.not_ready = None;
        Ok(())
    }

    /// Refuses capture before ALSA opens.
    pub fn start_capture(&mut self) -> (result: Result<CaptureConsumption, LinuxAudioError>)
        ensures
            result == Err::<CaptureConsumption, LinuxAudioError>(
                LinuxAudioError::EndpointStreamTransportUnavailable,
            ),
            final(self).not_ready == Some(GraphNotReady::EndpointStreamTransportUnavailable),
    {
        self.not_ready = Some(GraphNotReady::EndpointStreamTransportUnavailable);
        Err(LinuxAudioError::EndpointStreamTransportUnavailable)
    }

    /// Checks a publication request, then refuses it.
    pub fn publish_endpoints(&mut self, endpoints: &[EndpointId]) -> (result: Result<
        (),
        LinuxAudioError,
    >)
        ensures
            match repeated(endpoints@) {
                Some(endpoint) => {
                    &&& result == Err::<(), LinuxAudioError>(
                        LinuxAudioError::DuplicateEndpoint(endpoint),
                    )
                    &&& *final(self) == *old(self)
                },
                None => {
                    &&& result == Err::<(), LinuxAudioError>(
                        LinuxAudioError::EndpointStreamTransportUnavailable,
                    )
                    &&& final(self).not_ready == Some(
                        GraphNotReady::EndpointStreamTransportUnavailable,
                    )
                },
            },
    {
        if let Err(error) = endpoint_plans(endpoints) {
            return Err(error);
        }
        self.not_ready = Some(GraphNotReady::EndpointStreamTransportUnavailable);
        Err(LinuxAudioError::EndpointStreamTransportUnavailable)
    }

    /// The outcome of a teardown, given whether the connection could be closed.
    pub fn teardown(&self, disconnected: bool) -> (result: Result<(), LinuxAudioError>)
        ensures
            result == if disconnected {
                Ok::<(), LinuxAudioError>(())
            } else {
                Err::<(), LinuxAudioError>(LinuxAudioError::TeardownFailed)
            },
    {
        if disconnected {
            Ok(())
        } else {
            Err(LinuxAudioError::TeardownFailed)
        }
    }
}

/// The physical nodes of a candidate are looked for exactly if it is the reviewed
/// product with one card; the product is judged first.
pub proof fn law_only_the_reviewed_card_is_scanned(candidate: UsbDeviceCandidate)
    ensures
        scan_refusal(candidate) is None <==> candidate.identity.usb == wave3_usb()
            && candidate.alsa_cards@.len() == 1,
        candidate.identity.usb != wave3_usb() <==> scan_refusal(candidate) == Some(
            LinuxAudioError::AlsaCardChanged,
        ),
        candidate.identity.usb == wave3_usb() && candidate.alsa_cards@.len() != 1
            <==> scan_refusal(candidate) == Some(LinuxAudioError::AmbiguousAlsaCard),
{
}

/// A failure text names what the failure is about: the foreign message it carries,
/// the direction, or the endpoint.
pub proof fn law_failure_texts_name_their_subject(
    message: String,
    direction: PcmDirection,
    endpoint: EndpointId,
)
    ensures
        LinuxAudioError::Alsa(message).text().skip(13) == message@,
        LinuxAudioError::PipeWire(message).text().skip(17) == message@,
        (LinuxAudioError::UnsupportedPcmFormat { direction }).text().skip(31) == direction_name(
            direction,
        ),
        direction_name(PcmDirection::Capture) == "Capture"@,
        direction_name(PcmDirection::Playback) == "Playback"@,
        endpoint_name(EndpointId::System) == "System"@,
        endpoint_name(EndpointId::Microphone) == "Microphone"@,
        endpoint_name(EndpointId::MonitorMix) == "MonitorMix"@,
        endpoint_name(EndpointId::StreamMix) == "StreamMix"@,
        LinuxAudioError::EndpointNotAllowed(endpoint).text().skip(9).take(
            endpoint_name(endpoint).len() as int,
        ) == endpoint_name(endpoint),
        LinuxAudioError::DuplicateEndpoint(endpoint).text().skip(9).take(
            endpoint_name(endpoint).len() as int,
        ) == endpoint_name(endpoint),
{
    reveal_strlit("ALSA failed: ");
    reveal_strlit("PipeWire failed: ");
    reveal_strlit("ALSA did not apply S24_3LE for ");
    reveal_strlit("endpoint ");
    assert(LinuxAudioError::Alsa(message).text().skip(13) =~= message@);
    assert(LinuxAudioError::PipeWire(message).text().skip(17) =~= message@);
    assert((LinuxAudioError::UnsupportedPcmFormat { direction }).text().skip(31)
        =~= direction_name(direction));
    assert(LinuxAudioError::EndpointNotAllowed(endpoint).text().skip(9).take(
        endpoint_name(endpoint).len() as int,
    ) =~= endpoint_name(endpoint));
    assert(LinuxAudioError::DuplicateEndpoint(endpoint).text().skip(9).take(
        endpoint_name(endpoint).len() as int,
    ) =~= endpoint_name(endpoint));
}

} // verus!
