//! The local-user policy, framing and client rules of the daemon socket.

use crate::discovery::IoErrorKind;
use crate::text::{decimal, decimal_text};
use vstd::prelude::*;
use vstd::string::*;

pub mod exchange;
pub mod socket;

verus! {

/// The class of a failure that crosses the socket.
#[derive(Clone, Copy, Debug, Eq, PartialEq, Structural)]
pub enum IpcErrorKind {
    InvalidRequest,
    PermissionDenied,
    /// Any other class, by its code.
    Other(u32),
}

/// A failure that crosses the socket.
#[derive(Debug, Eq, PartialEq)]
pub struct IpcError {
    pub kind: IpcErrorKind,
    pub message: String,
}

/// A command with its envelope.
#[derive(Clone, Copy, Debug, Eq, PartialEq)]
pub struct RequestEnvelope<C> {
    pub version: u16,
    pub request_id: u64,
    pub command: C,
}

/// A response with its envelope.
#[derive(Debug)]
pub struct ResponseEnvelope<R> {
    pub version: u16,
    pub request_id: u64,
    pub result: Result<R, IpcError>,
}

/// Errors returned by the Linux local client before or during a request.
#[derive(Debug, Eq, PartialEq)]
pub enum ClientError {
    Connection { path: String, message: String },
    PermissionDenied,
    VersionMismatch { expected: u16, actual: u16 },
    Protocol(String),
    Remote(IpcError),
}

impl ClientError {
    /// The text of this error.
    pub open spec fn text(self) -> Seq<char> {
        match self {
            ClientError::Connection { path, message } => "could not connect to "@ + path@ + ": "@
                + message@,
            ClientError::PermissionDenied => "the daemon denied local-user access"@,
            ClientError::VersionMismatch { expected, actual } =>
                "protocol version mismatch: client "@ + decimal(expected as nat) + ", daemon "@
                + decimal(actual as nat),
            ClientError::Protocol(message) => "invalid daemon response: "@ + message@,
            ClientError::Remote(error) => error.message@,
        }
    }

    /// Describes this error to a person.
    pub fn message(&self) -> (message: String)
        ensures
            message@ == self.text(),
    {
        match self {
            ClientError::Connection { path, message: reason } => {
                let mut message = String::from_str("could not connect to ");
                message.append(path.as_str());
                message.append(": ");
                message.append(reason.as_str());
                message
            },
            ClientError::PermissionDenied => String::from_str(
                "the daemon denied local-user access",
            ),
            ClientError::VersionMismatch { expected, actual } => {
                let mut message = String::from_str("protocol version mismatch: client ");
                message.append(decimal_text(*expected as u64).as_str());
                message.append(", daemon ");
                message.append(decimal_text(*actual as u64).as_str());
                message
            },
            ClientError::Protocol(reason) => {
                let mut message = String::from_str("invalid daemon response: ");
                message.append(reason.as_str());
                message
            },
            ClientError::Remote(error) => String::from_str(error.message.as_str()),
        }
    }
}

/// The text for a response to another request.
pub open spec fn wrong_response_text(response_id: u64, request_id: u64) -> Seq<char> {
    "response ID "@ + decimal(response_id as nat) + " does not match request "@ + decimal(
        request_id as nat,
    )
}

/// The response in an envelope, or why the client refuses the envelope.
pub open spec fn is_validated<R>(
    envelope: ResponseEnvelope<R>,
    protocol_version: u16,
    request_id: u64,
    result: Result<R, ClientError>,
) -> bool {
    if envelope.version != protocol_version {
        result == Err::<R, ClientError>(
            ClientError::VersionMismatch { expected: protocol_version, actual: envelope.version },
        )
    } else if envelope.request_id != request_id {
        match result {
            Err(ClientError::Protocol(message)) => message@ == wrong_response_text(
                envelope.request_id,
                request_id,
            ),
            _ => false,
        }
    } else {
        match envelope.result {
            Ok(response) => result == Ok::<R, ClientError>(response),
            Err(error) => if error.kind == IpcErrorKind::PermissionDenied {
                result == Err::<R, ClientError>(ClientError::PermissionDenied)
            } else {
                result == Err::<R, ClientError>(ClientError::Remote(error))
            },
        }
    }
}

/// Why the exchange of one request with the daemon brought no response.
#[derive(Debug, Eq, PartialEq)]
pub enum RequestFailure {
    /// No connection was made.
    Connect { kind: IoErrorKind, message: String },
    /// The open connection failed.
    Stream { message: String },
    /// The request cannot be encoded.
    Encode { reason: String },
    /// The response cannot be decoded.
    Decode { reason: String },
}

/// A synchronous Linux client for the local daemon.
#[derive(Clone, Debug)]
pub struct Client {
    pub path: String,
    pub next_request_id: u64,
}

impl Client {
    /// Creates a client for a socket path.
    pub fn new(socket_path: String) -> (client: Self)
        ensures
            client.path@ == socket_path@,
            client.next_request_id == 1,
    {
        Client { path: socket_path, next_request_id: 1 }
    }

    /// Returns the socket path used by this client.
    pub fn socket_path(&self) -> (path: &str)
        ensures
            path@ == self.path@,
    {
        self.path.as_str()
    }

    /// Whether `after` is this client once it has taken the identifier
    /// `request_id` for a request. Identifiers count up and stay at the last one.
    pub open spec fn numbered(self, after: Self, request_id: u64) -> bool {
        &&& request_id == self.next_request_id
        &&& after.path == self.path
        &&& after.next_request_id == if request_id == u64::MAX {
            u64::MAX
        } else {
            (request_id + 1) as u64
        }
    }

    /// Puts a command into its envelope, with the identifier of a new request.
    pub fn begin_request<C>(&mut self, protocol_version: u16, command: C) -> (request:
        RequestEnvelope<C>)
        ensures
            old(self).numbered(*final(self), request.request_id),
            request.version == protocol_version,
            request.command == command,
    {
        let request_id: u64 = self.next_request_id;
        self.next_request_id = self.next_request_id.saturating_add(1);
        RequestEnvelope { version: protocol_version, request_id, command }
    }

    /// Reports a failure to connect.
    pub fn connect_error(&self, kind: IoErrorKind, message: String) -> (error: ClientError)
        ensures
            match error {
                ClientError::PermissionDenied => kind == IoErrorKind::PermissionDenied,
                ClientError::Connection { path, message: reason } => kind
                    != IoErrorKind::PermissionDenied && path@ == self.path@ && reason@ == message@,
                _ => false,
            },
    {
        if kind == IoErrorKind::PermissionDenied {
            ClientError::PermissionDenied
        } else {
            self.stream_error(message)
        }
    }

    /// Reports a failure on the open connection.
    pub fn stream_error(&self, message: String) -> (error: ClientError)
        ensures
            match error {
                ClientError::Connection { path, message: reason } => path@ == self.path@ && reason@
                    == message@,
                _ => false,
            },
    {
        ClientError::Connection { path: String::from_str(self.path.as_str()), message }
    }

    /// What a request comes to: the failure of the exchange, or what the response
    /// envelope says.
    pub open spec fn concludes<R>(
        self,
        protocol_version: u16,
        request_id: u64,
        reply: Result<ResponseEnvelope<R>, RequestFailure>,
        result: Result<R, ClientError>,
    ) -> bool {
        match reply {
            Ok(envelope) => is_validated(envelope, protocol_version, request_id, result),
            Err(failure) => result is Err && match failure {
                RequestFailure::Connect { kind: IoErrorKind::PermissionDenied, message } =>
                    result->Err_0 == ClientError::PermissionDenied,
                RequestFailure::Connect { kind, message } => result->Err_0 is Connection
                    && result->Err_0->path@ == self.path@ && result->Err_0->message@ == message@,
                RequestFailure::Stream { message } => result->Err_0 is Connection
                    && result->Err_0->path@ == self.path@ && result->Err_0->message@ == message@,
                RequestFailure::Encode { reason } => result->Err_0 is Protocol
                    && result->Err_0->Protocol_0@ == "could not encode request: "@ + reason@,
                RequestFailure::Decode { reason } => result->Err_0 is Protocol
                    && result->Err_0->Protocol_0@ == reason@,
            },
        }
    }

    /// Ends the request with the identifier `request_id`, given the reply that the
    /// exchange with the daemon brought.
    pub fn finish_request<R>(
        &self,
        protocol_version: u16,
        request_id: u64,
        reply: Result<ResponseEnvelope<R>, RequestFailure>,
    ) -> (result: Result<R, ClientError>)
        ensures
            self.concludes(protocol_version, request_id, reply, result),
    {
        match reply {
            Ok(envelope) => Self::validate_response(envelope, protocol_version, request_id),
            Err(RequestFailure::Connect { kind, message }) => Err(self.connect_error(kind, message)),
            Err(RequestFailure::Stream { message }) => Err(self.stream_error(message)),
            Err(RequestFailure::Encode { reason }) => Err(encode_error(reason.as_str())),
            Err(RequestFailure::Decode { reason }) => Err(ClientError::Protocol(reason)),
        }
    }

    /// Takes the response out of its envelope: the version is judged first, then
    /// the request it answers, then the daemon's own answer.
    pub fn validate_response<R>(
        envelope: ResponseEnvelope<R>,
        protocol_version: u16,
        request_id: u64,
    ) -> (result: Result<R, ClientError>)
        ensures
            is_validated(envelope, protocol_version, request_id, result),
    {
        if envelope.version != protocol_version {
            return Err(
                ClientError::VersionMismatch {
                    expected: protocol_version,
                    actual: envelope.version,
                },
            );
        }
        if envelope.request_id != request_id {
            let mut message = String::from_str("response ID ");
            message.append(decimal_text(envelope.request_id).as_str());
            message.append(" does not match request ");
            message.append(decimal_text(request_id).as_str());
            return Err(ClientError::Protocol(message));
        }
        match envelope.result {
            Ok(response) => Ok(response),
            Err(error) => {
                if error.kind == IpcErrorKind::PermissionDenied {
                    Err(ClientError::PermissionDenied)
                } else {
                    Err(ClientError::Remote(error))
                }
            },
        }
    }
}

/// Reports a request that cannot be encoded.
pub fn encode_error(reason: &str) -> (error: ClientError)
    ensures
        match error {
            ClientError::Protocol(message) => message@ == "could not encode request: "@ + reason@,
            _ => false,
        },
{
    let mut message = String::from_str("could not encode request: ");
    message.append(reason);
    ClientError::Protocol(message)
}

/// A response is handed out only from an envelope of the client's own version
/// that answers the client's own request.
pub proof fn law_response_answers_the_request<R>(
    envelope: ResponseEnvelope<R>,
    protocol_version: u16,
    request_id: u64,
    response: R,
)
    requires
        is_validated(
            envelope,
            protocol_version,
            request_id,
            Ok::<R, ClientError>(response),
        ),
    ensures
        envelope.version == protocol_version,
        envelope.request_id == request_id,
        envelope.result == Ok::<R, IpcError>(response),
{
}

/// The requests of a new client are numbered from one, whatever became of the
/// earlier ones: the `k`-th carries the identifier `k` while there is such an
/// identifier, so that no two of them share one.
pub proof fn law_requests_are_numbered(clients: Seq<Client>, request_ids: Seq<u64>)
    requires
        clients.len() == request_ids.len() + 1,
        clients[0].next_request_id == 1,
        forall|i: int|
            0 <= i < request_ids.len() ==> (#[trigger] clients[i]).numbered(
                clients[i + 1],
                request_ids[i],
            ),
    ensures
        forall|i: int|
            0 <= i < request_ids.len() && i < u64::MAX ==> #[trigger] request_ids[i] == i + 1,
        forall|i: int, j: int|
            0 <= i < j < request_ids.len() && j < u64::MAX ==> #[trigger] request_ids[i]
                != #[trigger] request_ids[j],
        request_ids.len() < u64::MAX ==> clients.last().next_request_id == request_ids.len() + 1,
        request_ids.len() >= u64::MAX ==> clients.last().next_request_id == u64::MAX,
    decreases request_ids.len(),
{
    if request_ids.len() > 0 {
        let earlier = clients.drop_last();
        let earlier_ids = request_ids.drop_last();
        assert forall|i: int| 0 <= i < earlier_ids.len() implies (#[trigger] earlier[i]).numbered(
            earlier[i + 1],
            earlier_ids[i],
        ) by {
            assert(clients[i].numbered(clients[i + 1], request_ids[i]));
        }
        assert(earlier[0] == clients[0]);
        law_requests_are_numbered(earlier, earlier_ids);
        let last = request_ids.len() - 1;
        assert(clients[last].numbered(clients[last + 1], request_ids[last]));
        assert(earlier.last() == clients[last]);
        assert forall|i: int| 0 <= i < request_ids.len() && i < u64::MAX implies
            #[trigger] request_ids[i] == i + 1 by {
            if i < last {
                assert(earlier_ids[i] == request_ids[i]);
            }
        }
    }
}

/// The `k`-th request of a new client carries the client's version and the
/// identifier `k`, whatever became of the earlier ones. It succeeds only with the
/// response of an envelope that carries both too; another version is a version
/// mismatch, another identifier a protocol error, and a refusal of access by the
/// daemon a refusal.
pub proof fn law_request_is_numbered_and_answered<C, R>(
    clients: Seq<Client>,
    requests: Seq<RequestEnvelope<C>>,
    protocol_version: u16,
    k: int,
    envelope: ResponseEnvelope<R>,
    result: Result<R, ClientError>,
)
    requires
        clients.len() == requests.len() + 1,
        clients[0].next_request_id == 1,
        forall|i: int|
            0 <= i < requests.len() ==> (#[trigger] clients[i]).numbered(
                clients[i + 1],
                requests[i].request_id,
            ) && requests[i].version == protocol_version,
        1 <= k <= requests.len(),
        k <= u64::MAX,
        clients[k].concludes(
            protocol_version,
            requests[k - 1].request_id,
            Ok(envelope),
            result,
        ),
    ensures
        requests[k - 1].version == protocol_version,
        requests[k - 1].request_id == k,
        forall|i: int|
            0 <= i < k - 1 ==> (#[trigger] requests[i]).request_id != requests[k - 1].request_id,
        result is Ok ==> envelope.version == protocol_version && envelope.request_id == k
            && envelope.result == Ok::<R, IpcError>(result->Ok_0),
        envelope.version != protocol_version ==> result == Err::<R, ClientError>(
            ClientError::VersionMismatch { expected: protocol_version, actual: envelope.version },
        ),
        envelope.version == protocol_version && envelope.request_id != k ==> result is Err
            && result->Err_0 is Protocol,
        envelope.version == protocol_version && envelope.request_id == k
            && envelope.result is Err && envelope.result->Err_0.kind
            == IpcErrorKind::PermissionDenied ==> result == Err::<R, ClientError>(
            ClientError::PermissionDenied,
        ),
{
    let request_ids = Seq::new(requests.len(), |i: int| requests[i].request_id);
    assert forall|i: int| 0 <= i < request_ids.len() implies (#[trigger] clients[i]).numbered(
        clients[i + 1],
        request_ids[i],
    ) by {}
    law_requests_are_numbered(clients, request_ids);
    assert(clients[k - 1].numbered(clients[k], requests[k - 1].request_id));
    assert(request_ids[k - 1] == k);
    assert forall|i: int| 0 <= i < k - 1 implies (#[trigger] requests[i]).request_id != requests[k
        - 1].request_id by {
        assert(request_ids[i] != request_ids[k - 1]);
    }
}

/// A directory joined with the socket's name.
pub open spec fn socket_below(directory: Seq<char>) -> Seq<char> {
    if directory.len() == 0 || directory.last() == '/' {
        directory + "librewave.sock"@
    } else {
        directory + "/librewave.sock"@
    }
}

/// Returns the default per-user daemon socket path: below the runtime directory,
/// or below the user's own directory where there is none.
pub fn default_socket_path(runtime_dir: Option<&str>, uid: u32) -> (path: String)
    ensures
        path@ == match runtime_dir {
            Some(directory) => socket_below(directory@),
            None => "/run/user/"@ + decimal(uid as nat) + "/librewave.sock"@,
        },
{
    match runtime_dir {
        Some(directory) => {
            let mut separated = true;
            let mut path = String::new();
            for c in characters: directory.chars()
                invariant
                    characters.seq() == directory@,
                    separated == (characters.index() == 0 || directory@[characters.index() - 1]
                        == '/'),
            {
                separated = c == '/';
            }
            path.append(directory);
            if !separated {
                path.append("/");
            }
            path.append("librewave.sock");
            proof {
                reveal_strlit("/");
                reveal_strlit("librewave.sock");
                reveal_strlit("/librewave.sock");
                assert("/"@ + "librewave.sock"@ =~= "/librewave.sock"@);
                assert(path@ =~= socket_below(directory@));
            }
            path
        },
        None => {
            let mut path = String::from_str("/run/user/");
            path.append(decimal_text(uid as u64).as_str());
            path.append("/librewave.sock");
            path
        },
    }
}

/// The peer credentials observed on a Linux Unix socket.
#[derive(Clone, Copy, Debug, Eq, PartialEq, Structural)]
pub struct PeerCredentials {
    /// Process ID of the peer.
    pub pid: i32,
    /// Effective user ID of the peer.
    pub uid: u32,
    /// Effective group ID of the peer.
    pub gid: u32,
}

/// A local-user peer policy for the daemon socket.
#[derive(Clone, Copy, Debug, Eq, PartialEq, Structural)]
pub struct PeerCredentialPolicy {
    pub allowed_uid: u32,
}

impl PeerCredentialPolicy {
    /// Whether this policy admits a peer.
    pub open spec fn admits(self, credentials: PeerCredentials) -> bool {
        credentials.uid == self.allowed_uid
    }

    /// Creates a policy allowing exactly one user ID.
    pub fn for_uid(uid: u32) -> (policy: Self)
        ensures
            policy.allowed_uid == uid,
    {
        PeerCredentialPolicy { allowed_uid: uid }
    }

    /// Checks credentials against this policy; a refusal has the class
    /// [`IpcErrorKind::PermissionDenied`].
    pub fn check(self, credentials: PeerCredentials) -> (result: Result<(), IpcErrorKind>)
        ensures
            result == if self.admits(credentials) {
                Ok::<(), IpcErrorKind>(())
            } else {
                Err::<(), IpcErrorKind>(IpcErrorKind::PermissionDenied)
            },
    {
        if credentials.uid == self.allowed_uid {
            Ok(())
        } else {
            Err(IpcErrorKind::PermissionDenied)
        }
    }
}

/// Whether a failed connection shows that nothing listens on a socket.
pub open spec fn is_stale(kind: IoErrorKind) -> bool {
    kind == IoErrorKind::ConnectionRefused || kind == IoErrorKind::NotFound
}

/// Tells whether a failed connection shows that nothing listens on a socket.
pub fn is_stale_connection_error(kind: IoErrorKind) -> (stale: bool)
    ensures
        stale == is_stale(kind),
{
    kind == IoErrorKind::ConnectionRefused || kind == IoErrorKind::NotFound
}

/// The length that a big-endian frame header announces.
pub open spec fn announced_length(header: [u8; 4]) -> int {
    header[0] * 0x100_0000 + header[1] * 0x1_0000 + header[2] * 0x100 + header[3]
}

/// Why a frame cannot be read.
#[derive(Clone, Copy, Debug, Eq, PartialEq, Structural)]
pub enum FrameError {
    TooLarge { length: usize },
    Truncated,
    Io(IoErrorKind),
}

/// Reads the payload length from a frame header and holds it to the maximum.
pub fn frame_length(header: [u8; 4], maximum: usize) -> (result: Result<usize, FrameError>)
    ensures
        match result {
            Ok(length) => length == announced_length(header) && length <= maximum,
            Err(error) => announced_length(header) > maximum && error == (FrameError::TooLarge {
                length: announced_length(header) as usize,
            }),
        },
{
    let length: u32 = header[0] as u32 * 0x100_0000 + header[1] as u32 * 0x1_0000
        + header[2] as u32 * 0x100 + header[3] as u32;
    let length: usize = length as usize;
    if length > maximum {
        return Err(FrameError::TooLarge { length });
    }
    Ok(length)
}

/// Classifies a failed read inside a frame.
pub fn map_eof(kind: IoErrorKind) -> (error: FrameError)
    ensures
        error == if kind == IoErrorKind::UnexpectedEof {
            FrameError::Truncated
        } else {
            FrameError::Io(kind)
        },
{
    if kind == IoErrorKind::UnexpectedEof {
        FrameError::Truncated
    } else {
        FrameError::Io(kind)
    }
}

/// Tells whether a failed accept is retried; any other failure ends the service.
pub fn retries_accept(kind: IoErrorKind) -> (retries: bool)
    ensures
        retries == (kind == IoErrorKind::Interrupted),
{
    kind == IoErrorKind::Interrupted
}

/// The header is big-endian: each byte weighs 256 times the one behind it, so that
/// headers announce the same length only if they are the same, and a larger first
/// byte announces more.
pub proof fn law_frame_header_is_big_endian(header: [u8; 4], other: [u8; 4])
    ensures
        announced_length(header) == ((header[0] * 256 + header[1]) * 256 + header[2]) * 256
            + header[3],
        0 <= announced_length(header) <= u32::MAX,
        announced_length(header) == announced_length(other) ==> header[0] == other[0] && header[1]
            == other[1] && header[2] == other[2] && header[3] == other[3],
        header[0] < other[0] ==> announced_length(header) < announced_length(other),
{
}

/// A failed exchange is reported for what it was: a refused connection as refused
/// access, any other failure to connect and a broken stream with the socket's path
/// and the reason, and an encoding or decoding failure as one of the protocol.
pub proof fn law_failed_exchanges_say_why<R>(
    client: Client,
    protocol_version: u16,
    request_id: u64,
    failure: RequestFailure,
    result: Result<R, ClientError>,
)
    requires
        client.concludes(protocol_version, request_id, Err(failure), result),
    ensures
        result is Err,
        match failure {
            RequestFailure::Connect { kind, message } => if kind == IoErrorKind::PermissionDenied {
                result->Err_0 == ClientError::PermissionDenied
            } else {
                match result->Err_0 {
                    ClientError::Connection { path, message: reason } => path@ == client.path@
                        && reason@ == message@,
                    _ => false,
                }
            },
            RequestFailure::Stream { message } => match result->Err_0 {
                ClientError::Connection { path, message: reason } => path@ == client.path@
                    && reason@ == message@,
                _ => false,
            },
            RequestFailure::Encode { reason } => match result->Err_0 {
                ClientError::Protocol(message) => message@ == "could not encode request: "@
                    + reason@,
                _ => false,
            },
            RequestFailure::Decode { reason } => match result->Err_0 {
                ClientError::Protocol(message) => message@ == reason@,
                _ => false,
            },
        },
{
}

/// A daemon's failure reaches the caller as it is, except that a refusal of access
/// is the client's own.
pub proof fn law_remote_failures_are_passed_on<R>(
    envelope: ResponseEnvelope<R>,
    protocol_version: u16,
    request_id: u64,
    result: Result<R, ClientError>,
)
    requires
        is_validated(envelope, protocol_version, request_id, result),
        envelope.version == protocol_version,
        envelope.request_id == request_id,
    ensures
        match envelope.result {
            Ok(response) => result == Ok::<R, ClientError>(response),
            Err(error) => {
                &&& error.kind == IpcErrorKind::PermissionDenied ==> result == Err::<
                    R,
                    ClientError,
                >(ClientError::PermissionDenied)
                &&& error.kind != IpcErrorKind::PermissionDenied ==> result == Err::<
                    R,
                    ClientError,
                >(ClientError::Remote(error))
            },
        },
{
}

/// Only the allowed user is admitted, whatever the process and the group.
pub proof fn law_only_the_user_is_admitted(
    policy: PeerCredentialPolicy,
    credentials: PeerCredentials,
    pid: i32,
    gid: u32,
)
    ensures
        policy.admits(credentials) <==> credentials.uid == policy.allowed_uid,
        policy.admits((PeerCredentials { pid, gid, ..credentials })) == policy.admits(credentials),
{
}

/// A socket is stale exactly if nothing accepted the connection or nothing was
/// there.
pub proof fn law_refused_or_absent_sockets_are_stale(kind: IoErrorKind)
    ensures
        is_stale(kind) <==> kind == IoErrorKind::ConnectionRefused || kind == IoErrorKind::NotFound,
{
}

/// The socket lies right below its directory: the directory comes first, the name
/// last, and exactly the missing separator between them.
pub proof fn law_socket_lies_below_its_directory(directory: Seq<char>)
    ensures
        socket_below(directory).take(directory.len() as int) == directory,
        directory.len() > 0 && directory.last() != '/' ==> socket_below(directory) == directory
            + seq!['/'] + "librewave.sock"@,
        directory.len() > 0 && directory.last() == '/' ==> socket_below(directory) == directory
            + "librewave.sock"@,
{
    reveal_strlit("librewave.sock");
    reveal_strlit("/librewave.sock");
    assert(socket_below(directory).take(directory.len() as int) =~= directory);
    assert("/librewave.sock"@ =~= seq!['/'] + "librewave.sock"@);
    if directory.len() > 0 && directory.last() != '/' {
        assert(socket_below(directory) =~= directory + seq!['/'] + "librewave.sock"@);
    }
}

/// The refusal of a response to another request names the request that was
/// answered first, and the one that was asked last.
pub proof fn law_wrong_responses_name_both_requests(response_id: u64, request_id: u64)
    ensures
        ({
            let text = wrong_response_text(response_id, request_id);
            let answered = decimal(response_id as nat);
            let asked = decimal(request_id as nat);
            &&& text.len() >= 12 + answered.len() + asked.len()
            &&& text.subrange(12, 12 + answered.len() as int) == answered
            &&& text.subrange(text.len() - asked.len(), text.len() as int) == asked
        }),
{
    reveal_strlit("response ID ");
    let text = wrong_response_text(response_id, request_id);
    let answered = decimal(response_id as nat);
    let asked = decimal(request_id as nat);
    assert(text.subrange(12, 12 + answered.len() as int) =~= answered);
    assert(text.subrange(text.len() - asked.len(), text.len() as int) =~= asked);
}

} // verus!
