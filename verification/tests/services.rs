//! Classifying status probes, and the text helpers below them.

use librewave_platform_linux::discovery::IoErrorKind;
use librewave_platform_linux::parse::{characters, find_part, parse_number, text_of, trim};
use librewave_platform_linux::services::{
    classify_probe, classify_probe_text, classify_spawn_error, classify_wireplumber_probe,
};
use librewave_platform_linux::text::{decimal_text, hex4_text, signed_decimal_text};
use librewave_platform_linux::{ServiceAvailability, ServiceFailure};

const PIPEWIRE_NOT_RUNNING: &str = "Error: failed to connect: Host is down\n";
const WIREPLUMBER_ACTIVE: &str = "active\n";

#[test]
fn classifies_status_probe_failures() {
    assert_eq!(
        classify_probe(false, b"", b"Operation not permitted"),
        ServiceAvailability::Unavailable(ServiceFailure::PermissionDenied)
    );
    assert_eq!(
        classify_probe(false, b"", b"Could not connect to PipeWire"),
        ServiceAvailability::Unavailable(ServiceFailure::NotRunning)
    );
    assert_eq!(
        classify_probe(false, b"", b"No such file or directory"),
        ServiceAvailability::Unavailable(ServiceFailure::NotInstalled)
    );
    assert_eq!(classify_probe(true, b"object", b""), ServiceAvailability::Available);
}

#[test]
fn classifies_service_fixtures() {
    assert_eq!(
        classify_probe(false, b"", PIPEWIRE_NOT_RUNNING.as_bytes()),
        ServiceAvailability::Unavailable(ServiceFailure::NotRunning)
    );
    assert_eq!(
        classify_wireplumber_probe(true, WIREPLUMBER_ACTIVE.as_bytes(), b""),
        ServiceAvailability::Available
    );
}

#[test]
fn malformed_output_is_still_classified() {
    assert_eq!(
        classify_probe(false, b"\xff\xfe permission DENIED", b"could not connect"),
        ServiceAvailability::Unavailable(ServiceFailure::PermissionDenied)
    );
    assert_eq!(
        classify_probe(false, b"\xff", b"strange"),
        ServiceAvailability::Unavailable(ServiceFailure::ProbeFailed)
    );
}

#[test]
fn permission_takes_precedence_over_everything_else() {
    assert_eq!(
        classify_probe_text(false, "inactive not found", "Access Denied"),
        ServiceAvailability::Unavailable(ServiceFailure::PermissionDenied)
    );
    assert_eq!(
        classify_probe_text(false, "failed", "unit Not Found"),
        ServiceAvailability::Unavailable(ServiceFailure::NotInstalled)
    );
}

#[test]
fn an_inactive_wireplumber_is_not_running() {
    assert_eq!(
        classify_wireplumber_probe(false, b"inactive\n", b""),
        ServiceAvailability::Unavailable(ServiceFailure::NotRunning)
    );
    assert_eq!(
        classify_wireplumber_probe(true, b"activating\n", b""),
        ServiceAvailability::Unavailable(ServiceFailure::ProbeFailed)
    );
}

#[test]
fn commands_that_cannot_start_are_classified() {
    assert_eq!(
        classify_spawn_error(IoErrorKind::NotFound),
        ServiceAvailability::Unavailable(ServiceFailure::NotInstalled)
    );
    assert_eq!(
        classify_spawn_error(IoErrorKind::PermissionDenied),
        ServiceAvailability::Unavailable(ServiceFailure::PermissionDenied)
    );
    assert_eq!(
        classify_spawn_error(IoErrorKind::OutOfMemory),
        ServiceAvailability::Unavailable(ServiceFailure::ProbeFailed)
    );
}

#[test]
fn service_failures_describe_themselves() {
    assert_eq!(ServiceFailure::NotInstalled.message(), "not installed");
    assert_eq!(ServiceFailure::PermissionDenied.message(), "permission denied");
    assert_eq!(ServiceFailure::NotRunning.message(), "not running");
    assert_eq!(ServiceFailure::ProbeFailed.message(), "probe failed");
}

#[test]
fn numbers_render_as_text() {
    assert_eq!(decimal_text(0), "0");
    assert_eq!(decimal_text(u64::MAX), u64::MAX.to_string());
    assert_eq!(signed_decimal_text(i64::MIN), i64::MIN.to_string());
    assert_eq!(signed_decimal_text(-7), "-7");
    assert_eq!(hex4_text(0x0fd9), "0fd9");
    assert_eq!(hex4_text(0xabcd), format!("{:04x}", 0xabcd));
}

#[test]
fn text_is_cut_and_searched_by_characters() {
    let text = characters("\u{2003} Wave\u{e9}:3 \n");
    assert_eq!(text_of(trim(&text)), "Wave\u{e9}:3");
    assert_eq!(text_of(&characters("h\u{e9}")), "h\u{e9}");
    assert_eq!(find_part(&characters("abcabd"), &characters("abd")), Some(3));
    assert_eq!(find_part(&characters("abc"), &characters("d")), None);
    assert_eq!(parse_number(&characters("+12"), 10, 12), Some(12));
    assert_eq!(parse_number(&characters("13"), 10, 12), None);
    assert_eq!(parse_number(&characters("fF"), 16, 255), Some(255));
}
