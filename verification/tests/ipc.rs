//! The daemon socket: peers, frames, binding and the client.

use librewave_platform_linux::discovery::IoErrorKind;
use librewave_platform_linux::ipc::exchange::{
    Exchange, ExchangeError, ExchangeEvent, ExchangeStage, Reply,
};
use librewave_platform_linux::ipc::socket::{
    remove_owned_socket, BindEvent, BindStage, PathStatus, Removal, SocketBinding, SocketIdentity,
};
use librewave_platform_linux::ipc::{
    default_socket_path, encode_error, frame_length, is_stale_connection_error, map_eof,
    retries_accept, Client, ClientError, FrameError, IpcError, IpcErrorKind, PeerCredentialPolicy,
    PeerCredentials, RequestEnvelope, RequestFailure, ResponseEnvelope,
};

const IDENTITY: SocketIdentity = SocketIdentity { device: 3, inode: 77 };

fn own_socket() -> PathStatus {
    PathStatus { is_socket: true, uid: 1000, identity: IDENTITY }
}

#[test]
fn peer_policy_rejects_a_different_uid() {
    let credentials = PeerCredentials { pid: 1, uid: 42, gid: 42 };
    assert_eq!(
        PeerCredentialPolicy::for_uid(43).check(credentials),
        Err(IpcErrorKind::PermissionDenied)
    );
    assert_eq!(PeerCredentialPolicy::for_uid(42).check(credentials), Ok(()));
}

#[test]
fn rejected_peer_is_authenticated_before_request_read() {
    let mut exchange = Exchange::begin(PeerCredentialPolicy::for_uid(1), 64);
    assert_eq!(exchange.stage, ExchangeStage::Authenticating);
    let stranger = PeerCredentials { pid: 1, uid: 0, gid: 0 };
    assert_eq!(
        exchange.step(ExchangeEvent::Credentials(Ok(stranger))),
        ExchangeStage::Failed(ExchangeError::PermissionDenied)
    );
}

#[test]
fn an_admitted_peer_gets_one_reply() {
    let mut exchange = Exchange::begin(PeerCredentialPolicy::for_uid(7), 64);
    let peer = PeerCredentials { pid: 1, uid: 7, gid: 8 };
    assert_eq!(
        exchange.step(ExchangeEvent::Credentials(Ok(peer))),
        ExchangeStage::ReadingHeader
    );
    assert_eq!(
        exchange.step(ExchangeEvent::Header(Ok([0, 0, 0, 64]))),
        ExchangeStage::ReadingPayload { length: 64 }
    );
    assert_eq!(exchange.step(ExchangeEvent::Payload(Ok(()))), ExchangeStage::Decoding);
    assert_eq!(exchange.step(ExchangeEvent::Decoded(true)), ExchangeStage::Processing);
    assert_eq!(
        exchange.step(ExchangeEvent::Processed),
        ExchangeStage::Encoding { reply: Reply::Processed }
    );
    assert_eq!(exchange.step(ExchangeEvent::Encoded(true)), ExchangeStage::Writing);
    assert_eq!(exchange.step(ExchangeEvent::Written(Ok(()))), ExchangeStage::Finished);
}

#[test]
fn an_undecodable_request_is_answered_with_an_invalid_request() {
    let mut exchange = Exchange::begin(PeerCredentialPolicy::for_uid(7), 64);
    let peer = PeerCredentials { pid: 1, uid: 7, gid: 8 };
    exchange.step(ExchangeEvent::Credentials(Ok(peer)));
    exchange.step(ExchangeEvent::Header(Ok([0, 0, 0, 3])));
    exchange.step(ExchangeEvent::Payload(Ok(())));
    assert_eq!(
        exchange.step(ExchangeEvent::Decoded(false)),
        ExchangeStage::Encoding {
            reply: Reply::Undecodable { request_id: 0, kind: IpcErrorKind::InvalidRequest },
        }
    );
    assert_eq!(
        exchange.step(ExchangeEvent::Encoded(false)),
        ExchangeStage::Failed(ExchangeError::Unencodable)
    );
}

#[test]
fn exchange_failures_are_named() {
    let policy = PeerCredentialPolicy::for_uid(7);
    let peer = PeerCredentials { pid: 1, uid: 7, gid: 8 };
    let mut exchange = Exchange::begin(policy, 64);
    assert_eq!(
        exchange.step(ExchangeEvent::Credentials(Err(IoErrorKind::InvalidInput))),
        ExchangeStage::Failed(ExchangeError::Io(IoErrorKind::InvalidInput))
    );
    let mut exchange = Exchange::begin(policy, 64);
    exchange.step(ExchangeEvent::Credentials(Ok(peer)));
    assert_eq!(
        exchange.step(ExchangeEvent::Header(Ok([0, 0, 1, 0]))),
        ExchangeStage::Failed(ExchangeError::Frame(FrameError::TooLarge { length: 256 }))
    );
    let mut exchange = Exchange::begin(policy, 64);
    exchange.step(ExchangeEvent::Credentials(Ok(peer)));
    assert_eq!(
        exchange.step(ExchangeEvent::Header(Err(IoErrorKind::UnexpectedEof))),
        ExchangeStage::Failed(ExchangeError::Frame(FrameError::Truncated))
    );
    let mut exchange = Exchange::begin(policy, 64);
    exchange.step(ExchangeEvent::Credentials(Ok(peer)));
    exchange.step(ExchangeEvent::Header(Ok([0, 0, 0, 9])));
    assert_eq!(
        exchange.step(ExchangeEvent::Payload(Err(IoErrorKind::TimedOut))),
        ExchangeStage::Failed(ExchangeError::Frame(FrameError::Io(IoErrorKind::TimedOut)))
    );
    let mut exchange = Exchange { policy, maximum_frame: 64, stage: ExchangeStage::Writing };
    assert_eq!(
        exchange.step(ExchangeEvent::Written(Err(IoErrorKind::BrokenPipe))),
        ExchangeStage::Failed(ExchangeError::Io(IoErrorKind::BrokenPipe))
    );
}

#[test]
fn only_refused_or_missing_connections_are_stale() {
    assert!(is_stale_connection_error(IoErrorKind::ConnectionRefused));
    assert!(is_stale_connection_error(IoErrorKind::NotFound));
    assert!(!is_stale_connection_error(IoErrorKind::PermissionDenied));
}

#[test]
fn socket_cleanup_does_not_remove_a_non_socket_path() {
    let file = PathStatus { is_socket: false, ..own_socket() };
    assert_eq!(remove_owned_socket(Ok(file), IDENTITY), Removal::Keep);
}

#[test]
fn socket_cleanup_requires_matching_device_and_inode() {
    let wrong_device = SocketIdentity { device: 4, ..IDENTITY };
    let wrong_inode = SocketIdentity { inode: 78, ..IDENTITY };
    assert_eq!(remove_owned_socket(Ok(own_socket()), wrong_device), Removal::Keep);
    assert_eq!(remove_owned_socket(Ok(own_socket()), wrong_inode), Removal::Keep);
    assert_eq!(remove_owned_socket(Ok(own_socket()), IDENTITY), Removal::Remove);
    assert_eq!(remove_owned_socket(Err(IoErrorKind::NotFound), IDENTITY), Removal::Keep);
    assert_eq!(
        remove_owned_socket(Err(IoErrorKind::PermissionDenied), IDENTITY),
        Removal::Fail(IoErrorKind::PermissionDenied)
    );
}

#[test]
fn a_stale_socket_is_checked_again_and_removed() {
    let mut binding = SocketBinding::begin(1000);
    assert_eq!(
        binding.step(BindEvent::Bound(Err(IoErrorKind::AddrInUse))),
        BindStage::Inspecting
    );
    assert_eq!(
        binding.step(BindEvent::Status(Ok(own_socket()))),
        BindStage::Connecting { identity: IDENTITY }
    );
    assert_eq!(
        binding.step(BindEvent::Connected(Err(IoErrorKind::ConnectionRefused))),
        BindStage::Rechecking { identity: IDENTITY }
    );
    assert_eq!(
        binding.step(BindEvent::Status(Ok(own_socket()))),
        BindStage::Removing { identity: IDENTITY }
    );
    assert_eq!(binding.step(BindEvent::Removed(Ok(()))), BindStage::Rebinding);
    assert_eq!(
        binding.step(BindEvent::Bound(Err(IoErrorKind::AddrInUse))),
        BindStage::Failed(IoErrorKind::AddrInUse)
    );
}

#[test]
fn a_path_in_use_stays_in_use() {
    let foreign = PathStatus { uid: 1001, ..own_socket() };
    let file = PathStatus { is_socket: false, ..own_socket() };
    for status in [foreign, file] {
        let mut binding = SocketBinding::begin(1000);
        binding.step(BindEvent::Bound(Err(IoErrorKind::AddrInUse)));
        assert_eq!(
            binding.step(BindEvent::Status(Ok(status))),
            BindStage::Failed(IoErrorKind::AddrInUse)
        );
    }
    for connected in [Ok(()), Err(IoErrorKind::PermissionDenied)] {
        let mut binding = SocketBinding::begin(1000);
        binding.step(BindEvent::Bound(Err(IoErrorKind::AddrInUse)));
        binding.step(BindEvent::Status(Ok(own_socket())));
        assert_eq!(
            binding.step(BindEvent::Connected(connected)),
            BindStage::Failed(IoErrorKind::AddrInUse)
        );
    }
}

#[test]
fn a_replaced_or_vanished_socket_is_not_removed() {
    let replaced = PathStatus { identity: SocketIdentity { device: 3, inode: 78 }, ..own_socket() };
    for status in [Ok(replaced), Err(IoErrorKind::NotFound)] {
        let mut binding = SocketBinding::begin(1000);
        binding.step(BindEvent::Bound(Err(IoErrorKind::AddrInUse)));
        binding.step(BindEvent::Status(Ok(own_socket())));
        binding.step(BindEvent::Connected(Err(IoErrorKind::NotFound)));
        assert_eq!(binding.step(BindEvent::Status(status)), BindStage::Rebinding);
        assert_eq!(binding.step(BindEvent::Bound(Ok(()))), BindStage::Bound);
    }
    let mut binding = SocketBinding::begin(1000);
    binding.step(BindEvent::Bound(Err(IoErrorKind::AddrInUse)));
    assert_eq!(
        binding.step(BindEvent::Status(Err(IoErrorKind::NotFound))),
        BindStage::Rebinding
    );
    let mut binding = SocketBinding::begin(1000);
    assert_eq!(
        binding.step(BindEvent::Bound(Err(IoErrorKind::PermissionDenied))),
        BindStage::Failed(IoErrorKind::PermissionDenied)
    );
    let mut binding =
        SocketBinding { uid: 1000, stage: BindStage::Removing { identity: IDENTITY } };
    assert_eq!(
        binding.step(BindEvent::Removed(Err(IoErrorKind::PermissionDenied))),
        BindStage::Failed(IoErrorKind::PermissionDenied)
    );
}

#[test]
fn frame_lengths_are_big_endian_and_bounded() {
    assert_eq!(frame_length([1, 2, 3, 4], usize::MAX), Ok(0x0102_0304));
    assert_eq!(frame_length([0, 0, 0, 0], 0), Ok(0));
    assert_eq!(frame_length([0, 0, 0, 1], 0), Err(FrameError::TooLarge { length: 1 }));
    assert_eq!(frame_length([0xff; 4], 10), Err(FrameError::TooLarge { length: 0xffff_ffff }));
    assert_eq!(map_eof(IoErrorKind::UnexpectedEof), FrameError::Truncated);
    assert_eq!(map_eof(IoErrorKind::WouldBlock), FrameError::Io(IoErrorKind::WouldBlock));
    assert!(retries_accept(IoErrorKind::Interrupted));
    assert!(!retries_accept(IoErrorKind::WouldBlock));
}

#[test]
fn request_identifiers_count_up_and_saturate() {
    let mut client = Client::new(String::from("/run/user/1000/librewave.sock"));
    assert_eq!(client.socket_path(), "/run/user/1000/librewave.sock");
    let request = |request_id| RequestEnvelope { version: 2, request_id, command: "ping" };
    assert_eq!(client.begin_request(2, "ping"), request(1));
    assert_eq!(client.begin_request(2, "ping"), request(2));
    assert_eq!(client.clone().begin_request(2, "ping"), request(3));
    let mut last = Client { path: String::new(), next_request_id: u64::MAX };
    assert_eq!(last.begin_request(2, "ping"), request(u64::MAX));
    assert_eq!(last.begin_request(2, "ping"), request(u64::MAX));
}

#[test]
fn responses_are_held_to_version_request_and_verdict() {
    let envelope = |version, request_id, result| ResponseEnvelope { version, request_id, result };
    assert_eq!(Client::validate_response(envelope(2, 9, Ok("up")), 2, 9), Ok("up"));
    assert_eq!(
        Client::validate_response(envelope(3, 8, Ok("up")), 2, 9),
        Err(ClientError::VersionMismatch { expected: 2, actual: 3 })
    );
    assert_eq!(
        Client::validate_response(envelope(2, 8, Ok("up")), 2, 9),
        Err(ClientError::Protocol(String::from("response ID 8 does not match request 9")))
    );
    let denied =
        IpcError { kind: IpcErrorKind::PermissionDenied, message: String::from("not you") };
    assert_eq!(
        Client::validate_response(envelope(2, 9, Err::<&str, IpcError>(denied)), 2, 9),
        Err(ClientError::PermissionDenied)
    );
    let remote = || IpcError { kind: IpcErrorKind::Other(4), message: String::from("no device") };
    assert_eq!(
        Client::validate_response(envelope(2, 9, Err::<&str, IpcError>(remote())), 2, 9),
        Err(ClientError::Remote(remote()))
    );
}

#[test]
fn a_request_ends_with_its_reply() {
    let mut client = Client::new(String::from("/s"));
    let request_id = client.begin_request(2, "status").request_id;
    let reply = |request_id| {
        Ok(ResponseEnvelope { version: 2, request_id, result: Ok::<&str, IpcError>("up") })
    };
    assert_eq!(client.finish_request(2, request_id, reply(1)), Ok("up"));
    assert_eq!(
        client.finish_request(2, request_id, reply(2)),
        Err(ClientError::Protocol(String::from("response ID 2 does not match request 1")))
    );
    let text = || String::from("why");
    let failed = |failure| client.finish_request::<&str>(2, request_id, Err(failure));
    let connection = ClientError::Connection { path: String::from("/s"), message: text() };
    assert_eq!(
        failed(RequestFailure::Connect { kind: IoErrorKind::NotFound, message: text() }),
        Err(connection)
    );
    assert_eq!(
        failed(RequestFailure::Connect { kind: IoErrorKind::PermissionDenied, message: text() }),
        Err(ClientError::PermissionDenied)
    );
    assert_eq!(
        failed(RequestFailure::Stream { message: text() }),
        Err(ClientError::Connection { path: String::from("/s"), message: text() })
    );
    assert_eq!(
        failed(RequestFailure::Encode { reason: text() }),
        Err(ClientError::Protocol(String::from("could not encode request: why")))
    );
    assert_eq!(
        failed(RequestFailure::Decode { reason: text() }),
        Err(ClientError::Protocol(text()))
    );
}

#[test]
fn client_errors_describe_themselves() {
    let client = Client::new(String::from("/s"));
    assert_eq!(
        client.connect_error(IoErrorKind::PermissionDenied, String::from("denied")),
        ClientError::PermissionDenied
    );
    let refused = client.connect_error(IoErrorKind::ConnectionRefused, String::from("refused"));
    assert_eq!(refused.message(), "could not connect to /s: refused");
    assert_eq!(
        client.stream_error(String::from("reset")).message(),
        "could not connect to /s: reset"
    );
    assert_eq!(ClientError::PermissionDenied.message(), "the daemon denied local-user access");
    assert_eq!(
        ClientError::VersionMismatch { expected: 2, actual: 13 }.message(),
        "protocol version mismatch: client 2, daemon 13"
    );
    assert_eq!(
        encode_error("too deep").message(),
        "invalid daemon response: could not encode request: too deep"
    );
    let remote = IpcError { kind: IpcErrorKind::Other(1), message: String::from("no device") };
    assert_eq!(ClientError::Remote(remote).message(), "no device");
}

#[test]
fn the_default_socket_is_below_the_runtime_directory() {
    for directory in ["/run/user/5", "/run/user/5/", "", "runtime"] {
        let joined = std::path::PathBuf::from(directory).join("librewave.sock");
        assert_eq!(default_socket_path(Some(directory), 5), joined.to_str().expect("utf-8"));
    }
    assert_eq!(default_socket_path(None, 1000), "/run/user/1000/librewave.sock");
}
