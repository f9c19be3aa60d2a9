//! One accepted connection: authentication, one request and its reply.

use crate::discovery::IoErrorKind;
use crate::ipc::{
    announced_length, frame_length, map_eof, FrameError, IpcErrorKind, PeerCredentialPolicy,
    PeerCredentials,
};
use vstd::prelude::*;

verus! {

/// The reply that an exchange sends.
#[derive(Clone, Copy, Debug, Eq, PartialEq, Structural)]
pub enum Reply {
    /// A failure for a request that could not be decoded.
    Undecodable { request_id: u64, kind: IpcErrorKind },
    /// What processing the request gave.
    Processed,
}

/// Why an exchange ended without a written reply.
#[derive(Clone, Copy, Debug, Eq, PartialEq, Structural)]
pub enum ExchangeError {
    PermissionDenied,
    Frame(FrameError),
    /// The reply cannot be encoded.
    Unencodable,
    Io(IoErrorKind),
}

/// What an exchange waits for.
#[derive(Clone, Copy, Debug, Eq, PartialEq, Structural)]
pub enum ExchangeStage {
    /// Read the peer's credentials.
    Authenticating,
    /// Read the four bytes of the frame header.
    ReadingHeader,
    /// Read the payload.
    ReadingPayload { length: usize },
    /// Decode the request.
    Decoding,
    /// Hand the request to the handler.
    Processing,
    /// Encode the reply.
    Encoding { reply: Reply },
    /// Write the reply.
    Writing,
    Finished,
    Failed(ExchangeError),
}

/// What one step of an exchange gave.
#[derive(Clone, Copy, Debug)]
pub enum ExchangeEvent {
    Credentials(Result<PeerCredentials, IoErrorKind>),
    Header(Result<[u8; 4], IoErrorKind>),
    Payload(Result<(), IoErrorKind>),
    /// Whether the payload holds a request.
    Decoded(bool),
    Processed,
    /// Whether the reply could be encoded.
    Encoded(bool),
    Written(Result<(), IoErrorKind>),
}

/// The reply to a payload that holds no request.
pub open spec fn undecodable_reply() -> Reply {
    Reply::Undecodable { request_id: 0, kind: IpcErrorKind::InvalidRequest }
}

/// Why a read inside a frame failed.
pub open spec fn read_failure(kind: IoErrorKind) -> ExchangeStage {
    ExchangeStage::Failed(
        ExchangeError::Frame(
            if kind == IoErrorKind::UnexpectedEof {
                FrameError::Truncated
            } else {
                FrameError::Io(kind)
            },
        ),
    )
}

/// One accepted connection.
#[derive(Clone, Copy, Debug, Eq, PartialEq, Structural)]
pub struct Exchange {
    pub policy: PeerCredentialPolicy,
    pub maximum_frame: usize,
    pub stage: ExchangeStage,
}

impl Exchange {
    /// Whether this exchange waits for an event of this kind.
    pub open spec fn waits_for(self, event: ExchangeEvent) -> bool {
        match event {
            ExchangeEvent::Credentials(_) => self.stage is Authenticating,
            ExchangeEvent::Header(_) => self.stage is ReadingHeader,
            ExchangeEvent::Payload(_) => self.stage is ReadingPayload,
            ExchangeEvent::Decoded(_) => self.stage is Decoding,
            ExchangeEvent::Processed => self.stage is Processing,
            ExchangeEvent::Encoded(_) => self.stage is Encoding,
            ExchangeEvent::Written(_) => self.stage is Writing,
        }
    }

    /// The stage after an event that this exchange waits for.
    pub open spec fn stage_after(self, event: ExchangeEvent) -> ExchangeStage {
        match event {
            ExchangeEvent::Credentials(Ok(credentials)) => if self.policy.admits(credentials) {
                ExchangeStage::ReadingHeader
            } else {
                ExchangeStage::Failed(ExchangeError::PermissionDenied)
            },
            ExchangeEvent::Credentials(Err(kind)) => ExchangeStage::Failed(ExchangeError::Io(kind)),
            ExchangeEvent::Header(Ok(header)) => {
                let length = announced_length(header) as usize;
                if announced_length(header) <= self.maximum_frame {
                    ExchangeStage::ReadingPayload { length }
                } else {
                    ExchangeStage::Failed(ExchangeError::Frame(FrameError::TooLarge { length }))
                }
            },
            ExchangeEvent::Header(Err(kind)) => read_failure(kind),
            ExchangeEvent::Payload(Ok(())) => ExchangeStage::Decoding,
            ExchangeEvent::Payload(Err(kind)) => read_failure(kind),
            ExchangeEvent::Decoded(true) => ExchangeStage::Processing,
            ExchangeEvent::Decoded(false) => ExchangeStage::Encoding { reply: undecodable_reply() },
            ExchangeEvent::Processed => ExchangeStage::Encoding { reply: Reply::Processed },
            ExchangeEvent::Encoded(true) => ExchangeStage::Writing,
            ExchangeEvent::Encoded(false) => ExchangeStage::Failed(ExchangeError::Unencodable),
            ExchangeEvent::Written(Ok(())) => ExchangeStage::Finished,
            ExchangeEvent::Written(Err(kind)) => ExchangeStage::Failed(ExchangeError::Io(kind)),
        }
    }

    /// This exchange after an event that it waits for.
    pub open spec fn after(self, event: ExchangeEvent) -> Self {
        Exchange { stage: self.stage_after(event), ..self }
    }

    /// This exchange after events.
    pub open spec fn after_all(self, events: Seq<ExchangeEvent>) -> Self
        decreases events.len(),
    {
        if events.len() == 0 {
            self
        } else {
            self.after_all(events.drop_last()).after(events.last())
        }
    }

    /// Whether each of the events is one that this exchange waits for in its
    /// turn.
    pub open spec fn takes_all(self, events: Seq<ExchangeEvent>) -> bool
        decreases events.len(),
    {
        events.len() == 0 || self.takes_all(events.drop_last()) && self.after_all(
            events.drop_last(),
        ).waits_for(events.last())
    }

    /// Begins an exchange with an unknown peer.
    pub fn begin(policy: PeerCredentialPolicy, maximum_frame: usize) -> (exchange: Self)
        ensures
            exchange == (Exchange { policy, maximum_frame, stage: ExchangeStage::Authenticating }),
    {
        Exchange { policy, maximum_frame, stage: ExchangeStage::Authenticating }
    }

    /// Takes one step.
    pub fn step(&mut self, event: ExchangeEvent) -> (stage: ExchangeStage)
        requires
            old(self).waits_for(event),
        ensures
            *final(self) == old(self).after(event),
            stage == final(self).stage,
    {
        let stage = match event {
            ExchangeEvent::Credentials(Ok(credentials)) => match self.policy.check(credentials) {
                Ok(()) => ExchangeStage::ReadingHeader,
                Err(_) => ExchangeStage::Failed(ExchangeError::PermissionDenied),
            },
            ExchangeEvent::Credentials(Err(kind)) => ExchangeStage::Failed(ExchangeError::Io(kind)),
            ExchangeEvent::Header(Ok(header)) => match frame_length(header, self.maximum_frame) {
                Ok(length) => ExchangeStage::ReadingPayload { length },
                Err(error) => ExchangeStage::Failed(ExchangeError::Frame(error)),
            },
            ExchangeEvent::Header(Err(kind)) => ExchangeStage::Failed(
                ExchangeError::Frame(map_eof(kind)),
            ),
            ExchangeEvent::Payload(Ok(())) => ExchangeStage::Decoding,
            ExchangeEvent::Payload(Err(kind)) => ExchangeStage::Failed(
                ExchangeError::Frame(map_eof(kind)),
            ),
            ExchangeEvent::Decoded(decoded) => {
                if decoded {
                    ExchangeStage::Processing
                } else {
                    ExchangeStage::Encoding {
                        reply: Reply::Undecodable {
                            request_id: 0,
                            kind: IpcErrorKind::InvalidRequest,
                        },
                    }
                }
            },
            ExchangeEvent::Processed => ExchangeStage::Encoding { reply: Reply::Processed },
            ExchangeEvent::Encoded(encoded) => {
                if encoded {
                    ExchangeStage::Writing
                } else {
                    ExchangeStage::Failed(ExchangeError::Unencodable)
                }
            },
            ExchangeEvent::Written(Ok(())) => ExchangeStage::Finished,
            ExchangeEvent::Written(Err(kind)) => ExchangeStage::Failed(ExchangeError::Io(kind)),
        };
        self.stage = stage;
        stage
    }
}

/// Whether an exchange admitted its peer with its first event.
pub open spec fn peer_was_admitted(
    policy: PeerCredentialPolicy,
    events: Seq<ExchangeEvent>,
) -> bool {
    events.len() > 0 && match events[0] {
        ExchangeEvent::Credentials(Ok(credentials)) => policy.admits(credentials),
        _ => false,
    }
}

/// Nothing is read from a peer, and no request of it reaches the handler, before
/// the peer was authenticated and admitted.
pub proof fn law_peer_is_authenticated_first(exchange: Exchange, events: Seq<ExchangeEvent>)
    requires
        exchange.stage is Authenticating,
        exchange.takes_all(events),
    ensures
        match exchange.after_all(events).stage {
            ExchangeStage::Authenticating => events.len() == 0,
            ExchangeStage::Failed(_) => true,
            _ => peer_was_admitted(exchange.policy, events),
        },
        exchange.after_all(events).policy == exchange.policy,
    decreases events.len(),
{
    if events.len() > 0 {
        let earlier = events.drop_last();
        law_peer_is_authenticated_first(exchange, earlier);
        if earlier.len() > 0 {
            assert(events[0] == earlier[0]);
        }
    }
}

/// A refused peer gets nothing: the exchange is over.
pub proof fn law_refused_peer_ends_the_exchange(exchange: Exchange, credentials: PeerCredentials)
    requires
        exchange.stage is Authenticating,
        !exchange.policy.admits(credentials),
    ensures
        exchange.after(ExchangeEvent::Credentials(Ok(credentials))).stage
            == ExchangeStage::Failed(ExchangeError::PermissionDenied),
        forall|event: ExchangeEvent|
            !exchange.after(
                ExchangeEvent::Credentials(Ok(credentials)),
            ).waits_for(event),
{
}

/// How an exchange proceeds, event by event: credentials, header, payload,
/// decoding, processing, encoding, writing. A payload that holds no request is
/// answered with an invalid request under the number zero; every failure ends the
/// exchange as what it was.
pub proof fn law_exchange_goes_step_by_step(
    exchange: Exchange,
    credentials: PeerCredentials,
    header: [u8; 4],
    kind: IoErrorKind,
)
    ensures
        credentials.uid == exchange.policy.allowed_uid ==> exchange.stage_after(
            ExchangeEvent::Credentials(Ok(credentials)),
        ) == ExchangeStage::ReadingHeader,
        credentials.uid != exchange.policy.allowed_uid ==> exchange.stage_after(
            ExchangeEvent::Credentials(Ok(credentials)),
        ) == ExchangeStage::Failed(ExchangeError::PermissionDenied),
        exchange.stage_after(ExchangeEvent::Credentials(Err(kind))) == ExchangeStage::Failed(
            ExchangeError::Io(kind),
        ),
        match exchange.stage_after(ExchangeEvent::Header(Ok(header))) {
            ExchangeStage::ReadingPayload { length } => length == announced_length(header) && length
                <= exchange.maximum_frame,
            ExchangeStage::Failed(ExchangeError::Frame(FrameError::TooLarge { length })) => length
                == announced_length(header) && length > exchange.maximum_frame,
            _ => false,
        },
        kind == IoErrorKind::UnexpectedEof ==> exchange.stage_after(
            ExchangeEvent::Header(Err(kind)),
        ) == ExchangeStage::Failed(ExchangeError::Frame(FrameError::Truncated)),
        kind != IoErrorKind::UnexpectedEof ==> exchange.stage_after(
            ExchangeEvent::Header(Err(kind)),
        ) == ExchangeStage::Failed(ExchangeError::Frame(FrameError::Io(kind))),
        exchange.stage_after(ExchangeEvent::Payload(Err(kind))) == exchange.stage_after(
            ExchangeEvent::Header(Err(kind)),
        ),
        exchange.stage_after(ExchangeEvent::Payload(Ok(()))) == ExchangeStage::Decoding,
        exchange.stage_after(ExchangeEvent::Decoded(true)) == ExchangeStage::Processing,
        exchange.stage_after(ExchangeEvent::Decoded(false)) == (ExchangeStage::Encoding {
            reply: Reply::Undecodable { request_id: 0, kind: IpcErrorKind::InvalidRequest },
        }),
        exchange.stage_after(ExchangeEvent::Processed) == (ExchangeStage::Encoding {
            reply: Reply::Processed,
        }),
        exchange.stage_after(ExchangeEvent::Encoded(true)) == ExchangeStage::Writing,
        exchange.stage_after(ExchangeEvent::Encoded(false)) == ExchangeStage::Failed(
            ExchangeError::Unencodable,
        ),
        exchange.stage_after(ExchangeEvent::Written(Ok(()))) == ExchangeStage::Finished,
        exchange.stage_after(ExchangeEvent::Written(Err(kind))) == ExchangeStage::Failed(
            ExchangeError::Io(kind),
        ),
{
}

} // verus!
