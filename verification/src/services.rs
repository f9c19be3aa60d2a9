//! Read-only `PipeWire` and `WirePlumber` status probes.
//!
//! The caller runs the status commands; this module classifies what they
//! answered.

use crate::device::DeviceRegistry;
use crate::discovery::{
    discover_devices, discovered, AlsaObservation, DiscoveryReport, IoErrorKind, UsbEntry,
};
use crate::parse::{
    characters, find_part, first_occurrence, law_first_occurrence_is_the_first, starts_with, trim,
    trimmed,
};
use vstd::prelude::*;
use vstd::string::*;

verus! {

/// Current status of one host service.
#[derive(Clone, Copy, Debug, Eq, PartialEq, Structural)]
pub enum ServiceAvailability {
    /// The status probe succeeded.
    Available,
    /// The status probe gave an explicit unavailable result.
    Unavailable(ServiceFailure),
}

/// Reasons a host-service status cannot be reported as available.
#[derive(Clone, Copy, Debug, Eq, PartialEq, Structural)]
pub enum ServiceFailure {
    /// The status executable is not installed.
    NotInstalled,
    /// The process could not access the user/session service.
    PermissionDenied,
    /// The service is installed but not currently reachable or active.
    NotRunning,
    /// The probe returned an unexpected failure.
    ProbeFailed,
}

impl ServiceFailure {
    /// Describes this failure to a person.
    pub fn message(&self) -> (message: String)
        ensures
            message@ == match *self {
                ServiceFailure::NotInstalled => "not installed"@,
                ServiceFailure::PermissionDenied => "permission denied"@,
                ServiceFailure::NotRunning => "not running"@,
                ServiceFailure::ProbeFailed => "probe failed"@,
            },
    {
        match *self {
            ServiceFailure::NotInstalled => String::from_str("not installed"),
            ServiceFailure::PermissionDenied => String::from_str("permission denied"),
            ServiceFailure::NotRunning => String::from_str("not running"),
            ServiceFailure::ProbeFailed => String::from_str("probe failed"),
        }
    }
}

/// Read-only status of the two host audio services.
#[derive(Clone, Copy, Debug, Eq, PartialEq, Structural)]
pub struct HostAudioServices {
    /// `PipeWire` registry connectivity from `pw-cli info 0`.
    pub pipewire: ServiceAvailability,
    /// `WirePlumber` user-service state from `systemctl --user is-active`.
    pub wireplumber: ServiceAvailability,
}

/// Combined read-only inventory for the Linux host.
#[derive(Clone, Debug, Eq, PartialEq)]
pub struct HostAudioInventory {
    /// Supported USB devices and associated ALSA cards.
    pub discovery: DiscoveryReport,
    /// Current `PipeWire` and `WirePlumber` status.
    pub services: HostAudioServices,
}

/// Performs read-only Linux discovery with a fixed admission registry.
#[derive(Clone, Debug)]
pub struct LinuxInventory {
    pub registry: DeviceRegistry,
}

impl LinuxInventory {
    /// Creates an inventory reader using the default Wave:3 registry.
    pub fn new() -> (inventory: Self)
        ensures
            inventory.registry.definitions@ == seq![
                crate::device::DeviceDefinition { identity: crate::device::wave3_identity() },
            ],
    {
        LinuxInventory { registry: DeviceRegistry::default() }
    }

    /// Creates an inventory reader with an explicit, extensible registry.
    pub fn with_registry(registry: DeviceRegistry) -> (inventory: Self)
        ensures
            inventory.registry == registry,
    {
        LinuxInventory { registry }
    }

    /// Turns what was read of USB sysfs and ALSA procfs/sysfs into a report.
    pub fn discover(
        &self,
        usb: &Result<Vec<Result<UsbEntry, IoErrorKind>>, IoErrorKind>,
        alsa: &AlsaObservation,
    ) -> (report: DiscoveryReport)
        ensures
            report@ == discovered(self.registry.definitions@, *usb, *alsa),
    {
        discover_devices(&self.registry, usb, alsa)
    }
}

/// The text of bytes that may not be valid UTF-8, as `String::from_utf8_lossy`
/// gives it.
pub uninterp spec fn utf8_lossy(bytes: Seq<u8>) -> Seq<char>;

/// Whether all bytes are ASCII.
pub open spec fn all_ascii(bytes: Seq<u8>) -> bool {
    forall|i: int| 0 <= i < bytes.len() ==> #[trigger] bytes[i] < 128
}

/// The text of ASCII bytes.
pub open spec fn ascii_text(bytes: Seq<u8>) -> Seq<char> {
    Seq::new(bytes.len(), |i: int| bytes[i] as char)
}

/// The text of command output: ASCII stands for itself, anything else is decoded
/// as `String::from_utf8_lossy` does.
pub open spec fn output_text(bytes: Seq<u8>) -> Seq<char> {
    if all_ascii(bytes) {
        ascii_text(bytes)
    } else {
        utf8_lossy(bytes)
    }
}

/// Decodes bytes with `String::from_utf8_lossy`. ASCII bytes, being valid UTF-8,
/// come back as they are. What it puts in place of malformed bytes is not stated,
/// only that the same bytes give the same text.
#[verifier::external_body]
fn decode_lossy(bytes: &[u8]) -> (text: String)
    ensures
        text@ == utf8_lossy(bytes@),
        all_ascii(bytes@) ==> text@ == ascii_text(bytes@),
{
    String::from_utf8_lossy(bytes).into_owned()
}

/// `c` with ASCII capitals in lower case.
pub open spec fn lower_char(c: char) -> char {
    if 'A' <= c && c <= 'Z' {
        ((c as u8) + 32) as u8 as char
    } else {
        c
    }
}

/// `text` with ASCII capitals in lower case.
pub open spec fn lower(text: Seq<char>) -> Seq<char> {
    Seq::new(text.len(), |i: int| lower_char(text[i]))
}

fn lower_text(text: &[char]) -> (result: Vec<char>)
    ensures
        result@ == lower(text@),
{
    let mut result: Vec<char> = Vec::new();
    for index in 0..text.len()
        invariant
            result@.len() == index,
            forall|i: int| 0 <= i < index ==> #[trigger] result@[i] == lower_char(text@[i]),
    {
        let c: char = text[index];
        if 'A' <= c && c <= 'Z' {
            let code: u8 = c as u8;
            result.push((code + 32) as char);
        } else {
            result.push(c);
        }
    }
    proof {
        assert(result@ =~= lower(text@));
    }
    result
}

/// Whether `part` occurs in `text`.
pub open spec fn holds(text: Seq<char>, part: Seq<char>) -> bool {
    first_occurrence(text, part) is Some
}

fn holds_text(text: &[char], part: &str) -> (result: bool)
    ensures
        result == holds(text@, part@),
{
    let wanted = characters(part);
    find_part(text, wanted.as_slice()).is_some()
}

/// The failure that a lower-case probe output tells of.
pub open spec fn failure_in(output: Seq<char>) -> ServiceFailure {
    if holds(output, "permission denied"@) || holds(output, "operation not permitted"@) || holds(
        output,
        "access denied"@,
    ) {
        ServiceFailure::PermissionDenied
    } else if holds(output, "not found"@) || holds(output, "no such file"@) {
        ServiceFailure::NotInstalled
    } else if holds(output, "could not connect"@) || holds(output, "failed to connect"@) || holds(
        output,
        "inactive"@,
    ) || holds(output, "failed"@) {
        ServiceFailure::NotRunning
    } else {
        ServiceFailure::ProbeFailed
    }
}

/// What a probe with the given output tells of its service.
pub open spec fn probe_result(success: bool, stdout: Seq<char>, stderr: Seq<char>)
    -> ServiceAvailability {
    if success {
        ServiceAvailability::Available
    } else {
        ServiceAvailability::Unavailable(failure_in(lower(stdout + " "@ + stderr)))
    }
}

/// Classifies the decoded output of a status probe.
pub fn classify_probe_text(success: bool, stdout: &str, stderr: &str) -> (availability:
    ServiceAvailability)
    ensures
        availability == probe_result(success, stdout@, stderr@),
{
    if success {
        return ServiceAvailability::Available;
    }
    let mut joined = String::from_str(stdout);
    joined.append(" ");
    joined.append(stderr);
    let all = characters(joined.as_str());
    let lowered = lower_text(all.as_slice());
    let output = lowered.as_slice();
    let failure = if holds_text(output, "permission denied") || holds_text(
        output,
        "operation not permitted",
    ) || holds_text(output, "access denied") {
        ServiceFailure::PermissionDenied
    } else if holds_text(output, "not found") || holds_text(output, "no such file") {
        ServiceFailure::NotInstalled
    } else if holds_text(output, "could not connect") || holds_text(output, "failed to connect")
        || holds_text(output, "inactive") || holds_text(output, "failed") {
        ServiceFailure::NotRunning
    } else {
        ServiceFailure::ProbeFailed
    };
    ServiceAvailability::Unavailable(failure)
}

/// Classifies the output of a status probe.
pub fn classify_probe(success: bool, stdout: &[u8], stderr: &[u8]) -> (availability:
    ServiceAvailability)
    ensures
        availability == probe_result(success, output_text(stdout@), output_text(stderr@)),
{
    let output = decode_lossy(stdout);
    let errors = decode_lossy(stderr);
    classify_probe_text(success, output.as_str(), errors.as_str())
}

/// What the `WirePlumber` probe with the given output tells of its service: only
/// the word `active` is a success.
pub open spec fn wireplumber_result(success: bool, stdout: Seq<char>, stderr: Seq<char>)
    -> ServiceAvailability {
    if success && trimmed(stdout) == "active"@ {
        ServiceAvailability::Available
    } else {
        probe_result(false, stdout, stderr)
    }
}

fn same_text(left: &[char], right: &[char]) -> (same: bool)
    ensures
        same == (left@ == right@),
{
    if left.len() != right.len() {
        return false;
    }
    for index in 0..left.len()
        invariant
            left@.len() == right@.len(),
            forall|i: int| 0 <= i < index ==> #[trigger] left@[i] == right@[i],
    {
        if left[index] != right[index] {
            return false;
        }
    }
    proof {
        assert(left@ =~= right@);
    }
    true
}

/// Classifies the decoded output of the `WirePlumber` status probe.
pub fn classify_wireplumber_text(success: bool, stdout: &str, stderr: &str) -> (availability:
    ServiceAvailability)
    ensures
        availability == wireplumber_result(success, stdout@, stderr@),
{
    let all = characters(stdout);
    let active = characters("active");
    if success && same_text(trim(all.as_slice()), active.as_slice()) {
        ServiceAvailability::Available
    } else {
        classify_probe_text(false, stdout, stderr)
    }
}

/// Classifies the output of the `WirePlumber` status probe.
pub fn classify_wireplumber_probe(success: bool, stdout: &[u8], stderr: &[u8]) -> (availability:
    ServiceAvailability)
    ensures
        availability == wireplumber_result(success, output_text(stdout@), output_text(stderr@)),
{
    let output = decode_lossy(stdout);
    let errors = decode_lossy(stderr);
    classify_wireplumber_text(success, output.as_str(), errors.as_str())
}

/// Classifies a status command that could not be started.
pub fn classify_spawn_error(kind: IoErrorKind) -> (availability: ServiceAvailability)
    ensures
        availability == ServiceAvailability::Unavailable(
            match kind {
                IoErrorKind::NotFound => ServiceFailure::NotInstalled,
                IoErrorKind::PermissionDenied => ServiceFailure::PermissionDenied,
                _ => ServiceFailure::ProbeFailed,
            },
        ),
{
    let failure = match kind {
        IoErrorKind::NotFound => ServiceFailure::NotInstalled,
        IoErrorKind::PermissionDenied => ServiceFailure::PermissionDenied,
        _ => ServiceFailure::ProbeFailed,
    };
    ServiceAvailability::Unavailable(failure)
}

/// A denied access is reported as such whatever else the probe printed, and a
/// service is never available behind a failed command.
pub proof fn law_permission_takes_precedence(stdout: Seq<char>, stderr: Seq<char>)
    ensures
        holds(lower(stdout + " "@ + stderr), "permission denied"@) ==> probe_result(
            false,
            stdout,
            stderr,
        ) == ServiceAvailability::Unavailable(ServiceFailure::PermissionDenied),
        probe_result(false, stdout, stderr) is Unavailable,
        wireplumber_result(false, stdout, stderr) is Unavailable,
{
}

/// A part is held exactly if it stands somewhere in the text.
pub proof fn law_text_holds_what_stands_in_it(text: Seq<char>, part: Seq<char>)
    ensures
        holds(text, part) <==> exists|position: int|
            0 <= position <= text.len() && starts_with(#[trigger] text.skip(position), part),
{
    law_first_occurrence_is_the_first(text, part);
    if holds(text, part) {
        let position = first_occurrence(text, part)->Some_0 as int;
        assert(starts_with(text.skip(position), part));
    }
}

/// What a failed probe printed decides, in this order: refused access, a missing
/// program, a service that does not run, and else an unexpected failure.
pub proof fn law_probe_output_decides_in_order(output: Seq<char>)
    ensures
        ({
            let denied = holds(output, "permission denied"@) || holds(
                output,
                "operation not permitted"@,
            ) || holds(output, "access denied"@);
            let missing = holds(output, "not found"@) || holds(output, "no such file"@);
            let stopped = holds(output, "could not connect"@) || holds(output, "failed to connect"@)
                || holds(output, "inactive"@) || holds(output, "failed"@);
            &&& failure_in(output) == ServiceFailure::PermissionDenied <==> denied
            &&& failure_in(output) == ServiceFailure::NotInstalled <==> !denied && missing
            &&& failure_in(output) == ServiceFailure::NotRunning <==> !denied && !missing && stopped
            &&& failure_in(output) == ServiceFailure::ProbeFailed <==> !denied && !missing
                && !stopped
        }),
{
}

/// A service is available exactly behind a successful command, for `WirePlumber`
/// only if it also printed the one word `active`; both outputs count for a failure.
pub proof fn law_services_are_available_behind_success(
    success: bool,
    stdout: Seq<char>,
    stderr: Seq<char>,
)
    ensures
        probe_result(success, stdout, stderr) == ServiceAvailability::Available <==> success,
        wireplumber_result(success, stdout, stderr) == ServiceAvailability::Available <==> success
            && trimmed(stdout) == "active"@,
        !success ==> probe_result(success, stdout, stderr) == ServiceAvailability::Unavailable(
            failure_in(lower(stdout + " "@ + stderr)),
        ),
        wireplumber_result(success, stdout, stderr) != ServiceAvailability::Available
            ==> wireplumber_result(success, stdout, stderr) == ServiceAvailability::Unavailable(
            failure_in(lower(stdout + " "@ + stderr)),
        ),
{
}

/// Lower case changes nothing but ASCII capitals, each to its own small letter.
pub proof fn law_lower_case_changes_only_capitals(text: Seq<char>, position: int)
    requires
        0 <= position < text.len(),
    ensures
        lower(text).len() == text.len(),
        !('A' <= text[position] && text[position] <= 'Z') ==> lower(text)[position]
            == text[position],
        text[position] == 'A' ==> lower(text)[position] == 'a',
        text[position] == 'M' ==> lower(text)[position] == 'm',
        text[position] == 'Z' ==> lower(text)[position] == 'z',
{
}

} // verus!
