//! Binding the private socket, and removing only what is the daemon's own.

use crate::discovery::IoErrorKind;
use crate::ipc::{is_stale, is_stale_connection_error};
use vstd::prelude::*;

verus! {

/// What identifies one file on this machine.
#[derive(Clone, Copy, Debug, Eq, PartialEq, Structural)]
pub struct SocketIdentity {
    pub device: u64,
    pub inode: u64,
}

/// What is known of a path, without following a link.
#[derive(Clone, Copy, Debug, Eq, PartialEq, Structural)]
pub struct PathStatus {
    pub is_socket: bool,
    pub uid: u32,
    pub identity: SocketIdentity,
}

/// What becomes of a path that held the daemon's socket.
#[derive(Clone, Copy, Debug, Eq, PartialEq, Structural)]
pub enum Removal {
    /// The path holds nothing, or something else: it is left alone.
    Keep,
    Remove,
    Fail(IoErrorKind),
}

/// Whether a path holds the socket of an identity.
pub open spec fn holds_socket(status: PathStatus, identity: SocketIdentity) -> bool {
    status.is_socket && status.identity == identity
}

/// What becomes of a path that held the socket of an identity.
pub open spec fn removal_for(
    status: Result<PathStatus, IoErrorKind>,
    identity: SocketIdentity,
) -> Removal {
    match status {
        Ok(status) => if holds_socket(status, identity) {
            Removal::Remove
        } else {
            Removal::Keep
        },
        Err(IoErrorKind::NotFound) => Removal::Keep,
        Err(kind) => Removal::Fail(kind),
    }
}

/// Decides whether a path still holds the daemon's own socket and is removed.
pub fn remove_owned_socket(
    status: Result<PathStatus, IoErrorKind>,
    identity: SocketIdentity,
) -> (removal: Removal)
    ensures
        removal == removal_for(status, identity),
{
    match status {
        Ok(status) => {
            if status.is_socket && status.identity == identity {
                Removal::Remove
            } else {
                Removal::Keep
            }
        },
        Err(kind) => {
            if kind == IoErrorKind::NotFound {
                Removal::Keep
            } else {
                Removal::Fail(kind)
            }
        },
    }
}

/// What binding the private socket waits for.
#[derive(Clone, Copy, Debug, Eq, PartialEq, Structural)]
pub enum BindStage {
    /// Bind the path and make it private.
    Binding,
    /// Look at what the path holds.
    Inspecting,
    /// Connect to the path.
    Connecting { identity: SocketIdentity },
    /// Look again at what the path holds.
    Rechecking { identity: SocketIdentity },
    /// Remove the path.
    Removing { identity: SocketIdentity },
    /// Bind the path once more and make it private.
    Rebinding,
    Bound,
    Failed(IoErrorKind),
}

/// What one step of binding the private socket gave.
#[derive(Clone, Copy, Debug)]
pub enum BindEvent {
    Bound(Result<(), IoErrorKind>),
    Status(Result<PathStatus, IoErrorKind>),
    Connected(Result<(), IoErrorKind>),
    Removed(Result<(), IoErrorKind>),
}

/// Binding the private socket of a user.
#[derive(Clone, Copy, Debug, Eq, PartialEq, Structural)]
pub struct SocketBinding {
    pub uid: u32,
    pub stage: BindStage,
}

impl SocketBinding {
    /// Whether this waits for an event of this kind.
    pub open spec fn waits_for(self, event: BindEvent) -> bool {
        match event {
            BindEvent::Bound(_) => self.stage is Binding || self.stage is Rebinding,
            BindEvent::Status(_) => self.stage is Inspecting || self.stage is Rechecking,
            BindEvent::Connected(_) => self.stage is Connecting,
            BindEvent::Removed(_) => self.stage is Removing,
        }
    }

    /// The stage after an event that this waits for.
    pub open spec fn stage_after(self, event: BindEvent) -> BindStage {
        match event {
            BindEvent::Bound(Ok(())) => BindStage::Bound,
            BindEvent::Bound(Err(kind)) => if self.stage is Binding && kind
                == IoErrorKind::AddrInUse {
                BindStage::Inspecting
            } else {
                BindStage::Failed(kind)
            },
            BindEvent::Status(status) => match self.stage {
                BindStage::Rechecking { identity } => match removal_for(status, identity) {
                    Removal::Keep => BindStage::Rebinding,
                    Removal::Remove => BindStage::Removing { identity },
                    Removal::Fail(kind) => BindStage::Failed(kind),
                },
                _ => match status {
                    Ok(status) => if status.is_socket && status.uid == self.uid {
                        BindStage::Connecting { identity: status.identity }
                    } else {
                        BindStage::Failed(IoErrorKind::AddrInUse)
                    },
                    Err(IoErrorKind::NotFound) => BindStage::Rebinding,
                    Err(kind) => BindStage::Failed(kind),
                },
            },
            BindEvent::Connected(Ok(())) => BindStage::Failed(IoErrorKind::AddrInUse),
            BindEvent::Connected(Err(kind)) => if is_stale(kind) {
                BindStage::Rechecking { identity: self.stage->Connecting_identity }
            } else {
                BindStage::Failed(IoErrorKind::AddrInUse)
            },
            BindEvent::Removed(Ok(())) => BindStage::Rebinding,
            BindEvent::Removed(Err(kind)) => BindStage::Failed(kind),
        }
    }

    /// This after an event that it waits for.
    pub open spec fn after(self, event: BindEvent) -> Self {
        SocketBinding { stage: self.stage_after(event), ..self }
    }

    /// This after events.
    pub open spec fn after_all(self, events: Seq<BindEvent>) -> Self
        decreases events.len(),
    {
        if events.len() == 0 {
            self
        } else {
            self.after_all(events.drop_last()).after(events.last())
        }
    }

    /// Whether each of the events is one that this waits for in its turn.
    pub open spec fn takes_all(self, events: Seq<BindEvent>) -> bool
        decreases events.len(),
    {
        events.len() == 0 || self.takes_all(events.drop_last()) && self.after_all(
            events.drop_last(),
        ).waits_for(events.last())
    }

    /// Begins to bind the private socket of a user.
    pub fn begin(uid: u32) -> (binding: Self)
        ensures
            binding == (SocketBinding { uid, stage: BindStage::Binding }),
    {
        SocketBinding { uid, stage: BindStage::Binding }
    }

    /// Takes one step. A path in use is reclaimed only where it holds a socket of
    /// the same user on which nothing listens; otherwise it stays in use.
    pub fn step(&mut self, event: BindEvent) -> (stage: BindStage)
        requires
            old(self).waits_for(event),
        ensures
            *final(self) == old(self).after(event),
            stage == final(self).stage,
    {
        let stage = match event {
            BindEvent::Bound(Ok(())) => BindStage::Bound,
            BindEvent::Bound(Err(kind)) => {
                let first = self.stage == BindStage::Binding;
                if first && kind == IoErrorKind::AddrInUse {
                    BindStage::Inspecting
                } else {
                    BindStage::Failed(kind)
                }
            },
            BindEvent::Status(status) => match self.stage {
                BindStage::Rechecking { identity } => match remove_owned_socket(status, identity) {
                    Removal::Keep => BindStage::Rebinding,
                    Removal::Remove => BindStage::Removing { identity },
                    Removal::Fail(kind) => BindStage::Failed(kind),
                },
                _ => self.reclaim_stale_socket(status),
            },
            BindEvent::Connected(Ok(())) => BindStage::Failed(IoErrorKind::AddrInUse),
            BindEvent::Connected(Err(kind)) => match self.stage {
                BindStage::Connecting { identity } => {
                    if is_stale_connection_error(kind) {
                        BindStage::Rechecking { identity }
                    } else {
                        BindStage::Failed(IoErrorKind::AddrInUse)
                    }
                },
                other => other,
            },
            BindEvent::Removed(Ok(())) => BindStage::Rebinding,
            BindEvent::Removed(Err(kind)) => BindStage::Failed(kind),
        };
        self.stage = stage;
        stage
    }

    fn reclaim_stale_socket(&self, status: Result<PathStatus, IoErrorKind>) -> (stage: BindStage)
        requires
            !(self.stage is Rechecking),
        ensures
            stage == self.stage_after(BindEvent::Status(status)),
    {
        match status {
            Ok(status) => {
                if !status.is_socket || status.uid != self.uid {
                    return BindStage::Failed(IoErrorKind::AddrInUse);
                }
                BindStage::Connecting { identity: status.identity }
            },
            Err(kind) => {
                if kind == IoErrorKind::NotFound {
                    BindStage::Rebinding
                } else {
                    BindStage::Failed(kind)
                }
            },
        }
    }
}

/// Whether an event shows a socket of a user.
pub open spec fn shows_own_socket(event: BindEvent, uid: u32, identity: SocketIdentity) -> bool {
    match event {
        BindEvent::Status(Ok(status)) => status.uid == uid && holds_socket(status, identity),
        _ => false,
    }
}

/// Whether an event shows that nothing listens on a socket.
pub open spec fn shows_stale(event: BindEvent) -> bool {
    match event {
        BindEvent::Connected(Err(kind)) => is_stale(kind),
        _ => false,
    }
}

/// Whether an event shows that a path holds the socket of an identity.
pub open spec fn shows_socket(event: BindEvent, identity: SocketIdentity) -> bool {
    match event {
        BindEvent::Status(Ok(status)) => holds_socket(status, identity),
        _ => false,
    }
}

/// A path is removed only where it held a socket of the same user, nothing
/// listened on it, and it was still that very socket right before the removal.
pub proof fn law_only_the_users_stale_socket_is_removed(
    binding: SocketBinding,
    events: Seq<BindEvent>,
)
    requires
        binding.stage is Binding,
        binding.takes_all(events),
    ensures
        match binding.after_all(events).stage {
            BindStage::Removing { identity } => {
                let count = events.len() as int;
                &&& count >= 4
                &&& shows_own_socket(events[count - 3], binding.uid, identity)
                &&& shows_stale(events[count - 2])
                &&& shows_socket(events[count - 1], identity)
            },
            _ => true,
        },
{
    lemma_stages_are_warranted(binding, events);
}

proof fn lemma_stages_are_warranted(binding: SocketBinding, events: Seq<BindEvent>)
    requires
        binding.stage is Binding,
        binding.takes_all(events),
    ensures
        binding.after_all(events).uid == binding.uid,
        ({
            let count = events.len() as int;
            match binding.after_all(events).stage {
                BindStage::Inspecting => count >= 1,
                BindStage::Connecting { identity } => {
                    &&& count >= 2
                    &&& shows_own_socket(events[count - 1], binding.uid, identity)
                },
                BindStage::Rechecking { identity } => {
                    &&& count >= 3
                    &&& shows_own_socket(events[count - 2], binding.uid, identity)
                    &&& shows_stale(events[count - 1])
                },
                BindStage::Removing { identity } => {
                    &&& count >= 4
                    &&& shows_own_socket(events[count - 3], binding.uid, identity)
                    &&& shows_stale(events[count - 2])
                    &&& shows_socket(events[count - 1], identity)
                },
                _ => true,
            }
        }),
    decreases events.len(),
{
    if events.len() > 0 {
        let earlier = events.drop_last();
        lemma_stages_are_warranted(binding, earlier);
        assert(binding.after_all(earlier).waits_for(events.last()));
    }
}

/// A path that holds something else than the daemon's own socket is never
/// removed.
pub proof fn law_foreign_path_is_kept(status: PathStatus, identity: SocketIdentity)
    requires
        !status.is_socket || status.identity != identity,
    ensures
        removal_for(Ok(status), identity) == Removal::Keep,
{
}

/// A path is removed exactly if it still holds the very socket that was bound; an
/// absent or foreign one is kept, and any other failure is reported.
pub proof fn law_only_the_bound_socket_is_removed(
    status: PathStatus,
    kind: IoErrorKind,
    identity: SocketIdentity,
)
    ensures
        removal_for(Ok(status), identity) == Removal::Remove <==> status.is_socket
            && status.identity.device == identity.device && status.identity.inode
            == identity.inode,
        removal_for(Ok(status), identity) != Removal::Remove ==> removal_for(Ok(status), identity)
            == Removal::Keep,
        removal_for(Err(IoErrorKind::NotFound), identity) == Removal::Keep,
        kind != IoErrorKind::NotFound ==> removal_for(Err(kind), identity) == Removal::Fail(kind),
{
}

/// How binding proceeds, event by event. A path in use is inspected once; what it
/// holds is tried only if it is this user's socket; an answer means it stays in
/// use; a stale one is looked at again and removed if it is still the same; then
/// the path is bound once more.
pub proof fn law_binding_goes_step_by_step(
    binding: SocketBinding,
    status: PathStatus,
    kind: IoErrorKind,
    identity: SocketIdentity,
)
    ensures
        binding.stage_after(BindEvent::Bound(Ok(()))) == BindStage::Bound,
        binding.stage is Binding ==> binding.stage_after(
            BindEvent::Bound(Err(IoErrorKind::AddrInUse)),
        ) == BindStage::Inspecting,
        binding.stage is Binding && kind != IoErrorKind::AddrInUse ==> binding.stage_after(
            BindEvent::Bound(Err(kind)),
        ) == BindStage::Failed(kind),
        binding.stage is Rebinding ==> binding.stage_after(BindEvent::Bound(Err(kind)))
            == BindStage::Failed(kind),
        binding.stage is Inspecting && status.is_socket && status.uid == binding.uid
            ==> binding.stage_after(BindEvent::Status(Ok(status))) == (BindStage::Connecting {
            identity: status.identity,
        }),
        binding.stage is Inspecting && !(status.is_socket && status.uid == binding.uid)
            ==> binding.stage_after(BindEvent::Status(Ok(status))) == BindStage::Failed(
            IoErrorKind::AddrInUse,
        ),
        binding.stage is Inspecting ==> binding.stage_after(
            BindEvent::Status(Err(IoErrorKind::NotFound)),
        ) == BindStage::Rebinding,
        binding.stage is Inspecting && kind != IoErrorKind::NotFound ==> binding.stage_after(
            BindEvent::Status(Err(kind)),
        ) == BindStage::Failed(kind),
        binding.stage is Connecting ==> binding.stage_after(BindEvent::Connected(Ok(())))
            == BindStage::Failed(IoErrorKind::AddrInUse),
        binding.stage == (BindStage::Connecting { identity }) && (kind
            == IoErrorKind::ConnectionRefused || kind == IoErrorKind::NotFound)
            ==> binding.stage_after(BindEvent::Connected(Err(kind))) == (BindStage::Rechecking {
            identity,
        }),
        binding.stage is Connecting && kind != IoErrorKind::ConnectionRefused && kind
            != IoErrorKind::NotFound ==> binding.stage_after(BindEvent::Connected(Err(kind)))
            == BindStage::Failed(IoErrorKind::AddrInUse),
        binding.stage == (BindStage::Rechecking { identity }) && status.is_socket
            && status.identity == identity ==> binding.stage_after(BindEvent::Status(Ok(status)))
            == (BindStage::Removing { identity }),
        binding.stage == (BindStage::Rechecking { identity }) && !(status.is_socket
            && status.identity == identity) ==> binding.stage_after(BindEvent::Status(Ok(status)))
            == BindStage::Rebinding,
        binding.stage is Rechecking ==> binding.stage_after(
            BindEvent::Status(Err(IoErrorKind::NotFound)),
        ) == BindStage::Rebinding,
        binding.stage is Rechecking && kind != IoErrorKind::NotFound ==> binding.stage_after(
            BindEvent::Status(Err(kind)),
        ) == BindStage::Failed(kind),
        binding.stage is Removing ==> binding.stage_after(BindEvent::Removed(Ok(())))
            == BindStage::Rebinding,
        binding.stage is Removing ==> binding.stage_after(BindEvent::Removed(Err(kind)))
            == BindStage::Failed(kind),
        binding.after(BindEvent::Bound(Ok(()))).uid == binding.uid,
{
}

} // verus!
