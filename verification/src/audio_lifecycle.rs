//! Deterministic, host-independent capture-first audio lifecycle.

use crate::audio_host::endpoints::{deliberate, deliberate_endpoints, EndpointId};
use crate::device::UsbDeviceCandidate;
use vstd::prelude::*;

verus! {

/// A physical node owned by the daemon and hidden from ordinary desktop
/// listings.
#[derive(Clone, Copy, Debug, Eq, Hash, PartialEq, Structural)]
pub enum HiddenPhysicalNode {
    /// The raw physical capture node.
    Capture,
    /// The raw physical playback node.
    Playback,
}

/// The exact physical nodes that must be hidden before graph ownership starts.
pub const HIDDEN_PHYSICAL_NODES: [HiddenPhysicalNode; 2] = [
    HiddenPhysicalNode::Capture,
    HiddenPhysicalNode::Playback,
];

/// The hidden physical nodes as a sequence.
pub open spec fn hidden_nodes() -> Seq<HiddenPhysicalNode> {
    seq![HiddenPhysicalNode::Capture, HiddenPhysicalNode::Playback]
}

/// An internal daemon-owned capture consumer.
///
/// This is intentionally not a desktop endpoint. The host implementation may
/// associate it with an internal stream or link, but it cannot publish it as a
/// keepalive sink through this contract.
#[derive(Clone, Copy, Debug, Eq, PartialEq)]
pub struct CaptureConsumption {
    private: (),
}

impl CaptureConsumption {
    /// Creates a host-owned internal capture-consumption handle.
    pub fn new() -> Self {
        CaptureConsumption { private: () }
    }
}

impl Default for CaptureConsumption {
    fn default() -> Self {
        CaptureConsumption::new()
    }
}

/// A confirmed capture observation.
#[derive(Clone, Copy, Debug, Eq, PartialEq, Structural)]
pub struct CaptureObservation {
    /// Whether the capture stream is active at the observation boundary.
    pub active: bool,
    /// The number of frames consumed since capture started.
    pub frames_consumed: u64,
}

impl CaptureObservation {
    /// Whether capture is active and making progress.
    pub open spec fn confirmed(self) -> bool {
        self.active && self.frames_consumed > 0
    }
}

/// One operation of a host and its answer.
#[allow(inconsistent_fields)]
pub enum HostCall<E> {
    VerifyPhysicalNodesHidden {
        candidate: UsbDeviceCandidate,
        hidden: Seq<HiddenPhysicalNode>,
        answer: Result<(), E>,
    },
    StartCapture { candidate: UsbDeviceCandidate, answer: Result<CaptureConsumption, E> },
    ObserveCapture {
        candidate: UsbDeviceCandidate,
        capture: CaptureConsumption,
        answer: Result<CaptureObservation, E>,
    },
    PreparePlayback { candidate: UsbDeviceCandidate, answer: Result<(), E> },
    PublishEndpoints {
        candidate: UsbDeviceCandidate,
        endpoints: Seq<EndpointId>,
        answer: Result<(), E>,
    },
    RestoreSoftwareRouting { candidate: UsbDeviceCandidate, answer: Result<(), E> },
    Teardown { answer: Result<(), E> },
}

/// A host operation used by the lifecycle state machine.
///
/// Implementations own all host mutation. The Linux implementation opens only
/// resources that belong to the admitted candidate.
pub trait AudioHost: Sized {
    /// The host-specific error type.
    type Error;

    /// Every operation asked of this host so far, with its answer. A verified
    /// host says how it keeps this record.
    closed spec fn calls(&self) -> Seq<HostCall<Self::Error>> {
        Seq::empty()
    }

    /// Verifies that raw physical nodes are hidden and not exposed as ordinary
    /// desktop endpoints for this device.
    fn verify_physical_nodes_hidden(
        &mut self,
        candidate: &UsbDeviceCandidate,
        hidden_nodes: &[HiddenPhysicalNode],
    ) -> (result: Result<(), Self::Error>)
        ensures
            final(self).calls() == old(self).calls().push(
                HostCall::VerifyPhysicalNodesHidden {
                    candidate: *candidate,
                    hidden: hidden_nodes@,
                    answer: result,
                },
            ),
    ;

    /// Starts consuming physical capture before playback exists.
    fn start_capture(&mut self, candidate: &UsbDeviceCandidate) -> (result: Result<
        CaptureConsumption,
        Self::Error,
    >)
        ensures
            final(self).calls() == old(self).calls().push(
                HostCall::StartCapture { candidate: *candidate, answer: result },
            ),
    ;

    /// Observes whether physical capture is active and making progress.
    fn observe_capture(
        &mut self,
        candidate: &UsbDeviceCandidate,
        capture: &CaptureConsumption,
    ) -> (result: Result<CaptureObservation, Self::Error>)
        ensures
            final(self).calls() == old(self).calls().push(
                HostCall::ObserveCapture {
                    candidate: *candidate,
                    capture: *capture,
                    answer: result,
                },
            ),
    ;

    /// Opens and prepares physical playback after confirmed capture.
    fn prepare_playback(&mut self, candidate: &UsbDeviceCandidate) -> (result: Result<
        (),
        Self::Error,
    >)
        ensures
            final(self).calls() == old(self).calls().push(
                HostCall::PreparePlayback { candidate: *candidate, answer: result },
            ),
    ;

    /// Publishes only the deliberate user-facing endpoints.
    fn publish_endpoints(
        &mut self,
        candidate: &UsbDeviceCandidate,
        endpoints: &[EndpointId],
    ) -> (result: Result<(), Self::Error>)
        ensures
            final(self).calls() == old(self).calls().push(
                HostCall::PublishEndpoints {
                    candidate: *candidate,
                    endpoints: endpoints@,
                    answer: result,
                },
            ),
    ;

    /// Restores saved software routes and endpoint levels.
    fn restore_software_routing(&mut self, candidate: &UsbDeviceCandidate) -> (result: Result<
        (),
        Self::Error,
    >)
        ensures
            final(self).calls() == old(self).calls().push(
                HostCall::RestoreSoftwareRouting { candidate: *candidate, answer: result },
            ),
    ;

    /// Removes every object created by the current attempt.
    ///
    /// Implementations must make this operation idempotent. The lifecycle calls
    /// it again when a previous cleanup attempt failed.
    fn teardown(&mut self) -> (result: Result<(), Self::Error>)
        ensures
            final(self).calls() == old(self).calls().push(HostCall::Teardown { answer: result }),
    ;
}

/// A named state in which the graph cannot report ready.
#[derive(Clone, Copy, Debug, Eq, PartialEq, Structural)]
pub enum DegradedState {
    /// No admitted device was detected.
    NoAdmittedDevice,
    /// The admitted device has no usable physical ALSA card.
    PhysicalDeviceUnavailable,
    /// Raw physical nodes are exposed as ordinary desktop endpoints.
    PhysicalNodesExposed,
    /// Physical capture could not start.
    CaptureStartFailed,
    /// Capture did not produce a confirmed active observation.
    CaptureNotConfirmed,
    /// Physical playback could not be opened and prepared.
    PlaybackPrepareFailed,
    /// Deliberate endpoints could not be published.
    EndpointPublicationFailed,
    /// Saved software routing could not be restored.
    RoutingRestoreFailed,
    /// The host audio services restarted and recovery is pending.
    HostRestarted,
    /// The admitted device disconnected.
    DeviceDisconnected,
    /// Cleanup itself failed and must be retried before recovery.
    TeardownFailed,
}

/// The externally observable lifecycle state.
#[derive(Clone, Copy, Debug, Eq, PartialEq, Structural)]
pub enum LifecycleState {
    /// No graph resources are owned.
    Idle,
    /// The graph is fully started and all deliberate endpoints are restored.
    Ready,
    /// The graph is unavailable for the named reason.
    Degraded(DegradedState),
}

/// Failure returned by a lifecycle operation.
#[allow(inconsistent_fields)]
#[derive(Debug, Eq, PartialEq)]
pub enum LifecycleError<E> {
    /// No admitted device or confirmed physical graph is available.
    Unavailable(DegradedState),
    /// A graph is already active.
    AlreadyActive,
    /// A host step failed and cleanup completed.
    Host { state: DegradedState, source: E },
    /// Cleanup failed after a host step or lifecycle event.
    Cleanup { after: DegradedState, primary: CleanupPrimary<E>, teardown: E },
}

/// The primary condition that preceded a teardown failure.
#[derive(Debug, Eq, PartialEq)]
pub enum CleanupPrimary<E> {
    /// A host operation failed before teardown was attempted.
    HostStep { state: DegradedState, source: E },
    /// The lifecycle had a state-only failure and no host error to preserve.
    StateOnly { state: DegradedState },
}

/// The deterministic capture-first lifecycle coordinator.
#[derive(Clone, Copy, Debug, Eq, PartialEq, Structural)]
pub struct AudioLifecycle {
    pub state: LifecycleState,
    pub cleanup_complete: bool,
}

impl Default for AudioLifecycle {
    fn default() -> (lifecycle: Self)
        ensures
            lifecycle == AudioLifecycle::idle(),
    {
        AudioLifecycle { state: LifecycleState::Idle, cleanup_complete: true }
    }
}

/// What a lifecycle operation returns, and the lifecycle it leaves.
pub struct Outcome<E> {
    pub result: Result<(), LifecycleError<E>>,
    pub lifecycle: AudioLifecycle,
}

/// The outcome of a failed startup step, given the answer to the teardown that
/// follows it. `source` is the host error of the step, where it has one.
pub open spec fn failed_step<E>(state: DegradedState, source: Option<E>, teardown: Result<(), E>)
    -> Outcome<E> {
    match teardown {
        Ok(()) => Outcome {
            result: Err(
                match source {
                    Some(source) => LifecycleError::Host { state, source },
                    None => LifecycleError::Unavailable(state),
                },
            ),
            lifecycle: AudioLifecycle {
                state: LifecycleState::Degraded(state),
                cleanup_complete: true,
            },
        },
        Err(error) => Outcome {
            result: Err(
                LifecycleError::Cleanup {
                    after: state,
                    primary: match source {
                        Some(source) => CleanupPrimary::HostStep { state, source },
                        None => CleanupPrimary::StateOnly { state },
                    },
                    teardown: error,
                },
            ),
            lifecycle: AudioLifecycle {
                state: LifecycleState::Degraded(DegradedState::TeardownFailed),
                cleanup_complete: false,
            },
        },
    }
}

/// The candidate behind an optional reference.
pub open spec fn owned(candidate: Option<&UsbDeviceCandidate>) -> Option<UsbDeviceCandidate> {
    match candidate {
        Some(candidate) => Some(*candidate),
        None => None,
    }
}

/// Whether `calls` is one teardown and `outcome` follows from its answer.
pub open spec fn cleans_up<E>(
    calls: Seq<HostCall<E>>,
    state: DegradedState,
    source: Option<E>,
    outcome: Outcome<E>,
) -> bool {
    &&& calls.len() == 1
    &&& calls[0] is Teardown
    &&& outcome == failed_step(state, source, calls[0]->Teardown_answer)
}

/// Whether `calls` restores routing and `outcome` follows from the answers.
pub open spec fn restores<E>(
    calls: Seq<HostCall<E>>,
    candidate: UsbDeviceCandidate,
    outcome: Outcome<E>,
) -> bool {
    &&& calls.len() >= 1
    &&& match calls[0] {
        HostCall::RestoreSoftwareRouting { candidate: asked, answer } => asked == candidate
            && match answer {
            Err(source) => cleans_up(
                calls.skip(1),
                DegradedState::RoutingRestoreFailed,
                Some(source),
                outcome,
            ),
            Ok(()) => calls.len() == 1 && outcome == (Outcome::<E> {
                result: Ok(()),
                lifecycle: AudioLifecycle {
                    state: LifecycleState::Ready,
                    cleanup_complete: false,
                },
            }),
        },
        _ => false,
    }
}

/// Whether `calls` publishes the deliberate endpoints and goes on, and `outcome`
/// follows from the answers.
pub open spec fn publishes<E>(
    calls: Seq<HostCall<E>>,
    candidate: UsbDeviceCandidate,
    outcome: Outcome<E>,
) -> bool {
    &&& calls.len() >= 1
    &&& match calls[0] {
        HostCall::PublishEndpoints { candidate: asked, endpoints, answer } => asked == candidate
            && endpoints == deliberate() && match answer {
            Err(source) => cleans_up(
                calls.skip(1),
                DegradedState::EndpointPublicationFailed,
                Some(source),
                outcome,
            ),
            Ok(()) => restores(calls.skip(1), candidate, outcome),
        },
        _ => false,
    }
}

/// Whether `calls` prepares playback and goes on, and `outcome` follows from the
/// answers.
pub open spec fn prepares<E>(
    calls: Seq<HostCall<E>>,
    candidate: UsbDeviceCandidate,
    outcome: Outcome<E>,
) -> bool {
    &&& calls.len() >= 1
    &&& match calls[0] {
        HostCall::PreparePlayback { candidate: asked, answer } => asked == candidate && match answer {
            Err(source) => cleans_up(
                calls.skip(1),
                DegradedState::PlaybackPrepareFailed,
                Some(source),
                outcome,
            ),
            Ok(()) => publishes(calls.skip(1), candidate, outcome),
        },
        _ => false,
    }
}

/// Whether `calls` observes capture and goes on only behind a confirmed
/// observation, and `outcome` follows from the answers.
pub open spec fn observes<E>(
    calls: Seq<HostCall<E>>,
    candidate: UsbDeviceCandidate,
    capture: CaptureConsumption,
    outcome: Outcome<E>,
) -> bool {
    &&& calls.len() >= 1
    &&& match calls[0] {
        HostCall::ObserveCapture { candidate: asked, capture: handed, answer } => asked == candidate
            && handed == capture && match answer {
            Err(source) => cleans_up(
                calls.skip(1),
                DegradedState::CaptureNotConfirmed,
                Some(source),
                outcome,
            ),
            Ok(observation) => if observation.confirmed() {
                prepares(calls.skip(1), candidate, outcome)
            } else {
                cleans_up(calls.skip(1), DegradedState::CaptureNotConfirmed, None, outcome)
            },
        },
        _ => false,
    }
}

/// Whether `calls` starts capture and goes on, and `outcome` follows from the
/// answers.
pub open spec fn captures<E>(
    calls: Seq<HostCall<E>>,
    candidate: UsbDeviceCandidate,
    outcome: Outcome<E>,
) -> bool {
    &&& calls.len() >= 1
    &&& match calls[0] {
        HostCall::StartCapture { candidate: asked, answer } => asked == candidate && match answer {
            Err(source) => cleans_up(
                calls.skip(1),
                DegradedState::CaptureStartFailed,
                Some(source),
                outcome,
            ),
            Ok(capture) => observes(calls.skip(1), candidate, capture, outcome),
        },
        _ => false,
    }
}

/// Whether `calls` is one complete startup of `candidate`, and `outcome` follows
/// from the host's answers.
pub open spec fn starts_up<E>(
    calls: Seq<HostCall<E>>,
    candidate: UsbDeviceCandidate,
    outcome: Outcome<E>,
) -> bool {
    &&& calls.len() >= 1
    &&& match calls[0] {
        HostCall::VerifyPhysicalNodesHidden { candidate: asked, hidden, answer } => asked
            == candidate && hidden == hidden_nodes() && match answer {
            Err(source) => cleans_up(
                calls.skip(1),
                DegradedState::PhysicalNodesExposed,
                Some(source),
                outcome,
            ),
            Ok(()) => captures(calls.skip(1), candidate, outcome),
        },
        _ => false,
    }
}

impl AudioLifecycle {
    /// A lifecycle that owns nothing.
    pub open spec fn idle() -> Self {
        AudioLifecycle { state: LifecycleState::Idle, cleanup_complete: true }
    }

    /// Why startup is refused without touching the host, if it is, and the
    /// lifecycle that leaves.
    pub open spec fn start_refusal<E>(self, candidate: Option<UsbDeviceCandidate>) -> Option<
        Outcome<E>,
    > {
        if !self.cleanup_complete || self.state == LifecycleState::Ready {
            Some(Outcome { result: Err(LifecycleError::AlreadyActive), lifecycle: self })
        } else {
            let missing = match candidate {
                None => Some(DegradedState::NoAdmittedDevice),
                Some(candidate) => if candidate.alsa_cards@.len() == 0 {
                    Some(DegradedState::PhysicalDeviceUnavailable)
                } else {
                    None
                },
            };
            match missing {
                Some(state) => Some(
                    Outcome {
                        result: Err(LifecycleError::Unavailable(state)),
                        lifecycle: AudioLifecycle { state: LifecycleState::Degraded(state), ..self },
                    },
                ),
                None => None,
            }
        }
    }

    /// Whether `calls` is all that starting asks of the host, and `outcome`
    /// follows from its answers.
    pub open spec fn started<E>(
        self,
        calls: Seq<HostCall<E>>,
        candidate: Option<UsbDeviceCandidate>,
        outcome: Outcome<E>,
    ) -> bool {
        match self.start_refusal::<E>(candidate) {
            Some(refusal) => calls.len() == 0 && outcome == refusal,
            None => starts_up(calls, candidate->Some_0, outcome),
        }
    }

    /// Whether `calls` is all that teardown asks of the host, and `outcome`
    /// follows from its answer.
    pub open spec fn torn_down<E>(self, calls: Seq<HostCall<E>>, outcome: Outcome<E>) -> bool {
        if self.cleanup_complete {
            calls.len() == 0 && outcome == (Outcome::<E> {
                result: Ok(()),
                lifecycle: AudioLifecycle { state: LifecycleState::Idle, ..self },
            })
        } else {
            &&& calls.len() == 1
            &&& match calls[0] {
                HostCall::Teardown { answer } => outcome == (match answer {
                    Ok(()) => Outcome { result: Ok(()), lifecycle: Self::idle() },
                    Err(teardown) => Outcome {
                        result: Err(
                            LifecycleError::Cleanup {
                                after: DegradedState::TeardownFailed,
                                primary: CleanupPrimary::StateOnly {
                                    state: DegradedState::TeardownFailed,
                                },
                                teardown,
                            },
                        ),
                        lifecycle: AudioLifecycle {
                            state: LifecycleState::Degraded(DegradedState::TeardownFailed),
                            cleanup_complete: false,
                        },
                    },
                }),
                _ => false,
            }
        }
    }

    /// Creates an idle lifecycle coordinator.
    pub fn new() -> (lifecycle: Self)
        ensures
            lifecycle == AudioLifecycle::idle(),
    {
        AudioLifecycle::default()
    }

    /// Returns the current lifecycle state.
    pub fn state(&self) -> (state: LifecycleState)
        ensures
            state == self.state,
    {
        self.state
    }

    fn clean_up<H: AudioHost>(
        &mut self,
        host: &mut H,
        state: DegradedState,
        source: Option<H::Error>,
    ) -> (result: Result<(), LifecycleError<H::Error>>)
        requires
            !old(self).cleanup_complete,
        ensures
            final(host).calls() == old(host).calls().push(final(host).calls().last()),
            final(host).calls().last() is Teardown,
            (Outcome { result, lifecycle: *final(self) }) == failed_step(
                state,
                source,
                final(host).calls().last()->Teardown_answer,
            ),
    {
        match host.teardown() {
            Ok(()) => {
                self.cleanup_complete = true;
                self.state = LifecycleState::Degraded(state);
                let error = match source {
                    Some(source) => LifecycleError::Host { state, source },
                    None => LifecycleError::Unavailable(state),
                };
                Err(error)
            },
            Err(teardown) => {
                self.state = LifecycleState::Degraded(DegradedState::TeardownFailed);
                let primary = match source {
                    Some(source) => CleanupPrimary::HostStep { state, source },
                    None => CleanupPrimary::StateOnly { state },
                };
                Err(LifecycleError::Cleanup { after: state, primary, teardown })
            },
        }
    }

    /// Runs the one normal capture-first startup path.
    pub fn start<H: AudioHost>(&mut self, host: &mut H, candidate: Option<&UsbDeviceCandidate>)
        -> (result: Result<(), LifecycleError<H::Error>>)
        ensures
            exists|calls: Seq<HostCall<H::Error>>|
                {
                    &&& final(host).calls() == old(host).calls() + calls
                    &&& #[trigger] old(self).started(
                        calls,
                        owned(candidate),
                        Outcome { result, lifecycle: *final(self) },
                    )
                },
    {
        let ghost start = host.calls();
        let ghost asked = owned(candidate);
        let ghost none = Seq::<HostCall<H::Error>>::empty();
        proof {
            assert(start + none =~= start);
        }
        if !self.cleanup_complete || self.state == LifecycleState::Ready {
            let result = Err(LifecycleError::AlreadyActive);
            proof {
                assert(old(self).started(none, asked, Outcome { result, lifecycle: *self }));
            }
            return result;
        }
        let candidate = match candidate {
            Some(candidate) => candidate,
            None => {
                self.state = LifecycleState::Degraded(DegradedState::NoAdmittedDevice);
                let result = Err(LifecycleError::Unavailable(DegradedState::NoAdmittedDevice));
                proof {
                    assert(old(self).started(none, asked, Outcome { result, lifecycle: *self }));
                }
                return result;
            },
        };
        if candidate.alsa_cards.is_empty() {
            self.state = LifecycleState::Degraded(DegradedState::PhysicalDeviceUnavailable);
            let result = Err(LifecycleError::Unavailable(DegradedState::PhysicalDeviceUnavailable));
            proof {
                assert(old(self).started(none, asked, Outcome { result, lifecycle: *self }));
            }
            return result;
        }
        self.cleanup_complete = false;
        let result = self.start_candidate(host, candidate);
        proof {
            let calls = choose|calls: Seq<HostCall<H::Error>>|
                {
                    &&& host.calls() == start + calls
                    &&& #[trigger] starts_up(
                        calls,
                        *candidate,
                        Outcome { result, lifecycle: *self },
                    )
                };
            assert(old(self).started(calls, asked, Outcome { result, lifecycle: *self }));
        }
        result
    }

    fn start_candidate<H: AudioHost>(&mut self, host: &mut H, candidate: &UsbDeviceCandidate)
        -> (result: Result<(), LifecycleError<H::Error>>)
        requires
            !old(self).cleanup_complete,
        ensures
            exists|calls: Seq<HostCall<H::Error>>|
                {
                    &&& final(host).calls() == old(host).calls() + calls
                    &&& #[trigger] starts_up(
                        calls,
                        *candidate,
                        Outcome { result, lifecycle: *final(self) },
                    )
                },
    {
        let ghost start = host.calls();
        let nodes = HIDDEN_PHYSICAL_NODES;
        proof {
            assert(nodes@ =~= hidden_nodes());
        }
        let verified = host.verify_physical_nodes_hidden(candidate, nodes.as_slice());
        let ghost first = HostCall::VerifyPhysicalNodesHidden {
            candidate: *candidate,
            hidden: hidden_nodes(),
            answer: verified,
        };
        if let Err(source) = verified {
            let result = self.clean_up(host, DegradedState::PhysicalNodesExposed, Some(source));
            proof {
                let calls = seq![first, host.calls().last()];
                assert(host.calls() =~= start + calls);
                assert(calls.skip(1) =~= seq![host.calls().last()]);
                assert(starts_up(calls, *candidate, Outcome { result, lifecycle: *self }));
            }
            return result;
        }
        let result = self.start_verified(host, candidate);
        proof {
            let rest = choose|calls: Seq<HostCall<H::Error>>|
                {
                    &&& host.calls() == start.push(first) + calls
                    &&& #[trigger] captures(calls, *candidate, Outcome { result, lifecycle: *self })
                };
            let calls = seq![first] + rest;
            assert(host.calls() =~= start + calls);
            assert(calls.skip(1) =~= rest);
            assert(starts_up(calls, *candidate, Outcome { result, lifecycle: *self }));
        }
        result
    }

    fn start_verified<H: AudioHost>(&mut self, host: &mut H, candidate: &UsbDeviceCandidate)
        -> (result: Result<(), LifecycleError<H::Error>>)
        requires
            !old(self).cleanup_complete,
        ensures
            exists|calls: Seq<HostCall<H::Error>>|
                {
                    &&& final(host).calls() == old(host).calls() + calls
                    &&& #[trigger] captures(
                        calls,
                        *candidate,
                        Outcome { result, lifecycle: *final(self) },
                    )
                },
    {
        let ghost start = host.calls();
        let started = host.start_capture(candidate);
        let ghost first = HostCall::StartCapture { candidate: *candidate, answer: started };
        let capture = match started {
            Ok(capture) => capture,
            Err(source) => {
                let result = self.clean_up(host, DegradedState::CaptureStartFailed, Some(source));
                proof {
                    let calls = seq![first, host.calls().last()];
                    assert(host.calls() =~= start + calls);
                    assert(calls.skip(1) =~= seq![host.calls().last()]);
                    assert(captures(calls, *candidate, Outcome { result, lifecycle: *self }));
                }
                return result;
            },
        };
        let observed = host.observe_capture(candidate, &capture);
        let ghost second = HostCall::ObserveCapture {
            candidate: *candidate,
            capture,
            answer: observed,
        };
        let observation = match observed {
            Ok(observation) => observation,
            Err(source) => {
                let result = self.clean_up(host, DegradedState::CaptureNotConfirmed, Some(source));
                proof {
                    let calls = seq![first, second, host.calls().last()];
                    assert(host.calls() =~= start + calls);
                    assert(calls.skip(1) =~= seq![second, host.calls().last()]);
                    assert(calls.skip(1).skip(1) =~= seq![host.calls().last()]);
                    assert(captures(calls, *candidate, Outcome { result, lifecycle: *self }));
                }
                return result;
            },
        };
        if !observation.active || observation.frames_consumed == 0 {
            let result = self.clean_up(host, DegradedState::CaptureNotConfirmed, None);
            proof {
                let calls = seq![first, second, host.calls().last()];
                assert(host.calls() =~= start + calls);
                assert(calls.skip(1) =~= seq![second, host.calls().last()]);
                assert(calls.skip(1).skip(1) =~= seq![host.calls().last()]);
                assert(captures(calls, *candidate, Outcome { result, lifecycle: *self }));
            }
            return result;
        }
        let result = self.start_captured(host, candidate);
        proof {
            let rest = choose|calls: Seq<HostCall<H::Error>>|
                {
                    &&& host.calls() == start.push(first).push(second) + calls
                    &&& #[trigger] prepares(calls, *candidate, Outcome { result, lifecycle: *self })
                };
            let calls = seq![first, second] + rest;
            assert(host.calls() =~= start + calls);
            assert(calls.skip(1) =~= seq![second] + rest);
            assert(calls.skip(1).skip(1) =~= rest);
            assert(captures(calls, *candidate, Outcome { result, lifecycle: *self }));
        }
        result
    }

    fn start_captured<H: AudioHost>(&mut self, host: &mut H, candidate: &UsbDeviceCandidate)
        -> (result: Result<(), LifecycleError<H::Error>>)
        requires
            !old(self).cleanup_complete,
        ensures
            exists|calls: Seq<HostCall<H::Error>>|
                {
                    &&& final(host).calls() == old(host).calls() + calls
                    &&& #[trigger] prepares(
                        calls,
                        *candidate,
                        Outcome { result, lifecycle: *final(self) },
                    )
                },
    {
        let ghost start = host.calls();
        let prepared = host.prepare_playback(candidate);
        let ghost first = HostCall::PreparePlayback { candidate: *candidate, answer: prepared };
        if let Err(source) = prepared {
            let result = self.clean_up(host, DegradedState::PlaybackPrepareFailed, Some(source));
            proof {
                let calls = seq![first, host.calls().last()];
                assert(host.calls() =~= start + calls);
                assert(calls.skip(1) =~= seq![host.calls().last()]);
                assert(prepares(calls, *candidate, Outcome { result, lifecycle: *self }));
            }
            return result;
        }
        let endpoints = deliberate_endpoints();
        let published = host.publish_endpoints(candidate, endpoints.as_slice());
        let ghost second = HostCall::PublishEndpoints {
            candidate: *candidate,
            endpoints: deliberate(),
            answer: published,
        };
        if let Err(source) = published {
            let result = self.clean_up(
                host,
                DegradedState::EndpointPublicationFailed,
                Some(source),
            );
            proof {
                let calls = seq![first, second, host.calls().last()];
                assert(host.calls() =~= start + calls);
                assert(calls.skip(1) =~= seq![second, host.calls().last()]);
                assert(calls.skip(1).skip(1) =~= seq![host.calls().last()]);
                assert(prepares(calls, *candidate, Outcome { result, lifecycle: *self }));
            }
            return result;
        }
        let restored = host.restore_software_routing(candidate);
        let ghost third = HostCall::RestoreSoftwareRouting {
            candidate: *candidate,
            answer: restored,
        };
        if let Err(source) = restored {
            let result = self.clean_up(host, DegradedState::RoutingRestoreFailed, Some(source));
            proof {
                let calls = seq![first, second, third, host.calls().last()];
                assert(host.calls() =~= start + calls);
                assert(calls.skip(1) =~= seq![second, third, host.calls().last()]);
                assert(calls.skip(1).skip(1) =~= seq![third, host.calls().last()]);
                assert(calls.skip(1).skip(1).skip(1) =~= seq![host.calls().last()]);
                assert(prepares(calls, *candidate, Outcome { result, lifecycle: *self }));
            }
            return result;
        }
        self.state = LifecycleState::Ready;
        let result = Ok(());
        proof {
            let calls = seq![first, second, third];
            assert(host.calls() =~= start + calls);
            assert(calls.skip(1) =~= seq![second, third]);
            assert(calls.skip(1).skip(1) =~= seq![third]);
            assert(prepares(calls, *candidate, Outcome { result, lifecycle: *self }));
        }
        result
    }

    /// Tears down the current graph. Repeated successful calls are no-ops.
    pub fn teardown<H: AudioHost>(&mut self, host: &mut H) -> (result: Result<
        (),
        LifecycleError<H::Error>,
    >)
        ensures
            exists|calls: Seq<HostCall<H::Error>>|
                {
                    &&& final(host).calls() == old(host).calls() + calls
                    &&& #[trigger] old(self).torn_down(
                        calls,
                        Outcome { result, lifecycle: *final(self) },
                    )
                },
    {
        let ghost start = host.calls();
        if self.cleanup_complete {
            self.state = LifecycleState::Idle;
            let result = Ok(());
            proof {
                let calls = Seq::<HostCall<H::Error>>::empty();
                assert(host.calls() =~= start + calls);
                assert(old(self).torn_down(calls, Outcome { result, lifecycle: *self }));
            }
            return result;
        }
        let answer = host.teardown();
        let ghost calls = seq![HostCall::Teardown { answer }];
        let result = match answer {
            Ok(()) => {
                self.cleanup_complete = true;
                self.state = LifecycleState::Idle;
                Ok(())
            },
            Err(teardown) => {
                self.state = LifecycleState::Degraded(DegradedState::TeardownFailed);
                Err(
                    LifecycleError::Cleanup {
                        after: DegradedState::TeardownFailed,
                        primary: CleanupPrimary::StateOnly { state: DegradedState::TeardownFailed },
                        teardown,
                    },
                )
            },
        };
        proof {
            assert(host.calls() =~= start + calls);
            assert(old(self).torn_down(calls, Outcome { result, lifecycle: *self }));
        }
        result
    }

    /// Whether `calls` is all that recovery asks of the host, and `outcome`
    /// follows from its answers: a teardown of what is still owned, and behind a
    /// successful one exactly a startup.
    pub open spec fn recovered<E>(
        self,
        cleanup: Seq<HostCall<E>>,
        startup: Seq<HostCall<E>>,
        candidate: Option<UsbDeviceCandidate>,
        outcome: Outcome<E>,
    ) -> bool {
        let restarted = AudioLifecycle {
            state: LifecycleState::Degraded(DegradedState::HostRestarted),
            cleanup_complete: true,
        };
        if self.cleanup_complete {
            cleanup.len() == 0 && restarted.started(startup, candidate, outcome)
        } else {
            ||| startup.len() == 0 && outcome.result is Err && self.torn_down(cleanup, outcome)
            ||| self.torn_down(
                cleanup,
                Outcome { result: Ok(()), lifecycle: Self::idle() },
            ) && restarted.started(startup, candidate, outcome)
        }
    }

    /// Handles a `PipeWire` or `WirePlumber` restart by reusing startup exactly.
    pub fn recover_after_host_restart<H: AudioHost>(
        &mut self,
        host: &mut H,
        candidate: Option<&UsbDeviceCandidate>,
    ) -> (result: Result<(), LifecycleError<H::Error>>)
        ensures
            exists|cleanup: Seq<HostCall<H::Error>>, startup: Seq<HostCall<H::Error>>|
                {
                    &&& final(host).calls() == old(host).calls() + cleanup + startup
                    &&& #[trigger] old(self).recovered(
                        cleanup,
                        startup,
                        owned(candidate),
                        Outcome { result, lifecycle: *final(self) },
                    )
                },
    {
        let ghost start = host.calls();
        let ghost asked = owned(candidate);
        let ghost none = Seq::<HostCall<H::Error>>::empty();
        let ghost mut cleanup = none;
        proof {
            assert(start + none =~= start);
        }
        if !self.cleanup_complete {
            let torn_down = self.teardown(host);
            proof {
                cleanup = choose|calls: Seq<HostCall<H::Error>>|
                    {
                        &&& host.calls() == start + calls
                        &&& #[trigger] old(self).torn_down(
                            calls,
                            Outcome { result: torn_down, lifecycle: *self },
                        )
                    };
            }
            if torn_down.is_err() {
                proof {
                    assert(start + cleanup + none =~= start + cleanup);
                    assert(old(self).recovered(
                        cleanup,
                        none,
                        asked,
                        Outcome { result: torn_down, lifecycle: *self },
                    ));
                }
                return torn_down;
            }
        }
        self.state = LifecycleState::Degraded(DegradedState::HostRestarted);
        let ghost restarted = *self;
        let ghost middle = host.calls();
        let result = self.start(host, candidate);
        proof {
            let startup = choose|calls: Seq<HostCall<H::Error>>|
                {
                    &&& host.calls() == middle + calls
                    &&& #[trigger] restarted.started(
                        calls,
                        asked,
                        Outcome { result, lifecycle: *self },
                    )
                };
            assert(host.calls() =~= start + cleanup + startup);
            assert(old(self).recovered(
                cleanup,
                startup,
                asked,
                Outcome { result, lifecycle: *self },
            ));
        }
        result
    }

    /// Whether `calls` is all that a disconnect asks of the host, and `outcome`
    /// follows from its answer.
    pub open spec fn disconnected<E>(self, calls: Seq<HostCall<E>>, outcome: Outcome<E>) -> bool {
        let waiting = Outcome::<E> {
            result: Ok(()),
            lifecycle: AudioLifecycle {
                state: LifecycleState::Degraded(DegradedState::DeviceDisconnected),
                cleanup_complete: true,
            },
        };
        if self.cleanup_complete {
            calls.len() == 0 && outcome == waiting
        } else {
            ||| outcome.result is Err && self.torn_down(calls, outcome)
            ||| self.torn_down(calls, Outcome { result: Ok(()), lifecycle: Self::idle() })
                && outcome == waiting
        }
    }

    /// Handles device removal and leaves the lifecycle waiting for a new admitted
    /// candidate.
    pub fn handle_device_disconnect<H: AudioHost>(&mut self, host: &mut H) -> (result: Result<
        (),
        LifecycleError<H::Error>,
    >)
        ensures
            exists|calls: Seq<HostCall<H::Error>>|
                {
                    &&& final(host).calls() == old(host).calls() + calls
                    &&& #[trigger] old(self).disconnected(
                        calls,
                        Outcome { result, lifecycle: *final(self) },
                    )
                },
    {
        let ghost start = host.calls();
        let ghost mut cleanup = Seq::<HostCall<H::Error>>::empty();
        proof {
            assert(start + cleanup =~= start);
        }
        if !self.cleanup_complete {
            let torn_down = self.teardown(host);
            proof {
                cleanup = choose|calls: Seq<HostCall<H::Error>>|
                    {
                        &&& host.calls() == start + calls
                        &&& #[trigger] old(self).torn_down(
                            calls,
                            Outcome { result: torn_down, lifecycle: *self },
                        )
                    };
            }
            if torn_down.is_err() {
                proof {
                    assert(old(self).disconnected(
                        cleanup,
                        Outcome { result: torn_down, lifecycle: *self },
                    ));
                }
                return torn_down;
            }
        }
        self.state = LifecycleState::Degraded(DegradedState::DeviceDisconnected);
        let result = Ok(());
        proof {
            assert(old(self).disconnected(cleanup, Outcome { result, lifecycle: *self }));
        }
        result
    }
}

/// Startup is capture-first: playback is prepared only behind a confirmed
/// capture observation, endpoints are published only behind prepared playback,
/// and only a startup whose every step succeeded is ready.
pub proof fn law_startup_is_capture_first<E>(
    calls: Seq<HostCall<E>>,
    candidate: UsbDeviceCandidate,
    outcome: Outcome<E>,
)
    requires
        starts_up(calls, candidate, outcome),
    ensures
        2 <= calls.len() <= 7,
        calls[0] is VerifyPhysicalNodesHidden,
        forall|i: int|
            0 <= i < calls.len() && (#[trigger] calls[i]) is PreparePlayback ==> i == 3
                && calls[1] is StartCapture && calls[2] is ObserveCapture
                && calls[2]->ObserveCapture_answer is Ok
                && calls[2]->ObserveCapture_answer->Ok_0.confirmed(),
        forall|i: int|
            0 <= i < calls.len() && (#[trigger] calls[i]) is PublishEndpoints ==> i == 4
                && calls[3] is PreparePlayback && calls[3]->PreparePlayback_answer is Ok
                && calls[4]->endpoints == deliberate(),
        outcome.result is Ok <==> outcome.lifecycle.state == LifecycleState::Ready,
        outcome.result is Ok <==> calls.len() == 6 && calls[5] is RestoreSoftwareRouting
            && calls[5]->RestoreSoftwareRouting_answer is Ok,
{
    let c1 = calls.skip(1);
    let c2 = c1.skip(1);
    let c3 = c2.skip(1);
    let c4 = c3.skip(1);
    let c5 = c4.skip(1);
    assert(calls.len() > 1 ==> c1[0] == calls[1]);
    assert(calls.len() > 2 ==> c2[0] == calls[2]);
    assert(calls.len() > 3 ==> c3[0] == calls[3]);
    assert(calls.len() > 4 ==> c4[0] == calls[4]);
    assert(calls.len() > 5 ==> c5[0] == calls[5]);
    assert(calls.len() > 6 ==> c5.skip(1)[0] == calls[6]);
}

/// A startup that does not end ready ends with exactly one teardown, the last
/// operation; it owns nothing afterwards unless that teardown failed.
pub proof fn law_failed_startup_cleans_up<E>(
    calls: Seq<HostCall<E>>,
    candidate: UsbDeviceCandidate,
    outcome: Outcome<E>,
)
    requires
        starts_up(calls, candidate, outcome),
        outcome.result is Err,
    ensures
        calls.last() is Teardown,
        forall|i: int| 0 <= i < calls.len() - 1 ==> !((#[trigger] calls[i]) is Teardown),
        outcome.lifecycle.cleanup_complete <==> calls.last()->Teardown_answer is Ok,
        !outcome.lifecycle.cleanup_complete ==> outcome.lifecycle.state
            == LifecycleState::Degraded(DegradedState::TeardownFailed),
{
    let c1 = calls.skip(1);
    let c2 = c1.skip(1);
    let c3 = c2.skip(1);
    let c4 = c3.skip(1);
    let c5 = c4.skip(1);
    let c6 = c5.skip(1);
    assert(calls.len() > 1 ==> c1[0] == calls[1]);
    assert(calls.len() > 2 ==> c2[0] == calls[2]);
    assert(calls.len() > 3 ==> c3[0] == calls[3]);
    assert(calls.len() > 4 ==> c4[0] == calls[4]);
    assert(calls.len() > 5 ==> c5[0] == calls[5]);
    assert(calls.len() > 6 ==> c6[0] == calls[6]);
}

/// Tearing down twice asks the host once: behind a successful teardown another
/// one is a no-op.
pub proof fn law_teardown_is_idempotent<E>(
    lifecycle: AudioLifecycle,
    first: Seq<HostCall<E>>,
    second: Seq<HostCall<E>>,
    after_first: Outcome<E>,
    after_second: Outcome<E>,
)
    requires
        lifecycle.torn_down(first, after_first),
        after_first.result is Ok,
        after_first.lifecycle.torn_down(second, after_second),
    ensures
        second.len() == 0,
        after_second.result is Ok,
        after_second.lifecycle == after_first.lifecycle,
        after_first.lifecycle == AudioLifecycle::idle(),
{
}

/// A failed cleanup is retryable: the next teardown asks the host again, and its
/// success leaves the lifecycle idle.
pub proof fn law_cleanup_failure_is_retryable<E>(
    lifecycle: AudioLifecycle,
    first: Seq<HostCall<E>>,
    second: Seq<HostCall<E>>,
    after_first: Outcome<E>,
    after_second: Outcome<E>,
)
    requires
        lifecycle.torn_down(first, after_first),
        after_first.result is Err,
        after_first.lifecycle.torn_down(second, after_second),
    ensures
        second.len() == 1,
        second[0] is Teardown,
        second[0]->Teardown_answer is Ok ==> after_second.lifecycle == AudioLifecycle::idle(),
{
}

/// Everything that a startup asks of the host is about the admitted device: its
/// two physical nodes are to be hidden, capture is observed through the handle that
/// starting it gave, and the four endpoints are published in their order.
pub proof fn law_startup_is_about_the_admitted_device<E>(
    calls: Seq<HostCall<E>>,
    candidate: UsbDeviceCandidate,
    outcome: Outcome<E>,
    index: int,
)
    requires
        starts_up(calls, candidate, outcome),
        0 <= index < calls.len(),
    ensures
        match calls[index] {
            HostCall::VerifyPhysicalNodesHidden { candidate: asked, hidden, answer } => {
                &&& index == 0
                &&& asked == candidate
                &&& hidden.len() == 2
                &&& hidden[0] == HiddenPhysicalNode::Capture
                &&& hidden[1] == HiddenPhysicalNode::Playback
            },
            HostCall::StartCapture { candidate: asked, answer } => index == 1 && asked == candidate,
            HostCall::ObserveCapture { candidate: asked, capture, answer } => {
                &&& index == 2
                &&& asked == candidate
                &&& calls[1] is StartCapture
                &&& calls[1]->StartCapture_answer == Ok::<CaptureConsumption, E>(capture)
            },
            HostCall::PreparePlayback { candidate: asked, answer } => index == 3 && asked
                == candidate,
            HostCall::PublishEndpoints { candidate: asked, endpoints, answer } => {
                &&& index == 4
                &&& asked == candidate
                &&& endpoints.len() == 4
                &&& endpoints[0] == EndpointId::System
                &&& endpoints[1] == EndpointId::Microphone
                &&& endpoints[2] == EndpointId::MonitorMix
                &&& endpoints[3] == EndpointId::StreamMix
            },
            HostCall::RestoreSoftwareRouting { candidate: asked, answer } => index == 5 && asked
                == candidate,
            HostCall::Teardown { answer } => index == calls.len() - 1 && outcome.result is Err,
        },
{
    let c1 = calls.skip(1);
    let c2 = c1.skip(1);
    let c3 = c2.skip(1);
    let c4 = c3.skip(1);
    let c5 = c4.skip(1);
    let c6 = c5.skip(1);
    assert(calls.len() > 1 ==> c1[0] == calls[1]);
    assert(calls.len() > 2 ==> c2[0] == calls[2]);
    assert(calls.len() > 3 ==> c3[0] == calls[3]);
    assert(calls.len() > 4 ==> c4[0] == calls[4]);
    assert(calls.len() > 5 ==> c5[0] == calls[5]);
    assert(calls.len() > 6 ==> c6[0] == calls[6]);
}

/// A startup that fails says which step failed and with what: the answer of the
/// last step before the teardown, under the name of that step; behind an
/// observation without progress there is no host error. Where the teardown failed
/// too, its error stands beside the first.
pub proof fn law_failed_startup_names_its_step<E>(
    calls: Seq<HostCall<E>>,
    candidate: UsbDeviceCandidate,
    outcome: Outcome<E>,
)
    requires
        starts_up(calls, candidate, outcome),
        outcome.result is Err,
    ensures
        calls.len() >= 2,
        match calls[calls.len() - 2] {
            HostCall::VerifyPhysicalNodesHidden { candidate: asked, hidden, answer } => answer is Err
                && outcome == failed_step(
                DegradedState::PhysicalNodesExposed,
                Some(answer->Err_0),
                calls.last()->Teardown_answer,
            ),
            HostCall::StartCapture { candidate: asked, answer } => answer is Err && outcome
                == failed_step(
                DegradedState::CaptureStartFailed,
                Some(answer->Err_0),
                calls.last()->Teardown_answer,
            ),
            HostCall::ObserveCapture { candidate: asked, capture, answer } => match answer {
                Err(source) => outcome == failed_step(
                    DegradedState::CaptureNotConfirmed,
                    Some(source),
                    calls.last()->Teardown_answer,
                ),
                Ok(observation) => (!observation.active || observation.frames_consumed == 0)
                    && outcome == failed_step(
                    DegradedState::CaptureNotConfirmed,
                    None,
                    calls.last()->Teardown_answer,
                ),
            },
            HostCall::PreparePlayback { candidate: asked, answer } => answer is Err && outcome
                == failed_step(
                DegradedState::PlaybackPrepareFailed,
                Some(answer->Err_0),
                calls.last()->Teardown_answer,
            ),
            HostCall::PublishEndpoints { candidate: asked, endpoints, answer } => answer is Err
                && outcome == failed_step(
                DegradedState::EndpointPublicationFailed,
                Some(answer->Err_0),
                calls.last()->Teardown_answer,
            ),
            HostCall::RestoreSoftwareRouting { candidate: asked, answer } => answer is Err
                && outcome == failed_step(
                DegradedState::RoutingRestoreFailed,
                Some(answer->Err_0),
                calls.last()->Teardown_answer,
            ),
            HostCall::Teardown { answer } => false,
        },
{
    let c1 = calls.skip(1);
    let c2 = c1.skip(1);
    let c3 = c2.skip(1);
    let c4 = c3.skip(1);
    let c5 = c4.skip(1);
    let c6 = c5.skip(1);
    assert(calls.len() > 1 ==> c1[0] == calls[1]);
    assert(calls.len() > 2 ==> c2[0] == calls[2]);
    assert(calls.len() > 3 ==> c3[0] == calls[3]);
    assert(calls.len() > 4 ==> c4[0] == calls[4]);
    assert(calls.len() > 5 ==> c5[0] == calls[5]);
    assert(calls.len() > 6 ==> c6[0] == calls[6]);
}

/// What a failed step leaves: behind a successful teardown the step's own degraded
/// state and its host error, or the bare state where it has none; behind a failed
/// teardown both errors, and resources that are still owned.
pub proof fn law_failed_steps_keep_their_error<E>(state: DegradedState, source: E, teardown: E)
    ensures
        failed_step(state, Some(source), Ok::<(), E>(())) == (Outcome::<E> {
            result: Err((LifecycleError::Host { state, source })),
            lifecycle: AudioLifecycle {
                state: LifecycleState::Degraded(state),
                cleanup_complete: true,
            },
        }),
        failed_step::<E>(state, None, Ok::<(), E>(())) == (Outcome::<E> {
            result: Err(LifecycleError::Unavailable(state)),
            lifecycle: AudioLifecycle {
                state: LifecycleState::Degraded(state),
                cleanup_complete: true,
            },
        }),
        failed_step(state, Some(source), Err::<(), E>(teardown)) == (Outcome::<E> {
            result: Err(
                LifecycleError::Cleanup {
                    after: state,
                    primary: CleanupPrimary::HostStep { state, source },
                    teardown,
                },
            ),
            lifecycle: AudioLifecycle {
                state: LifecycleState::Degraded(DegradedState::TeardownFailed),
                cleanup_complete: false,
            },
        }),
        failed_step::<E>(state, None, Err::<(), E>(teardown)) == (Outcome::<E> {
            result: Err(
                LifecycleError::Cleanup {
                    after: state,
                    primary: CleanupPrimary::StateOnly { state },
                    teardown,
                },
            ),
            lifecycle: AudioLifecycle {
                state: LifecycleState::Degraded(DegradedState::TeardownFailed),
                cleanup_complete: false,
            },
        }),
{
}

/// When startup is refused without a word to the host: while resources are owned
/// or the graph is ready, and for want of a device or of its card.
pub proof fn law_startup_is_refused_for_want_of_a_device<E>(
    lifecycle: AudioLifecycle,
    candidate: UsbDeviceCandidate,
)
    ensures
        lifecycle.start_refusal::<E>(Some(candidate)) is None <==> lifecycle.cleanup_complete
            && lifecycle.state != LifecycleState::Ready && candidate.alsa_cards@.len() > 0,
        !lifecycle.cleanup_complete || lifecycle.state == LifecycleState::Ready ==> {
            &&& lifecycle.start_refusal::<E>(Some(candidate)) == Some(
                Outcome::<E> { result: Err(LifecycleError::AlreadyActive), lifecycle },
            )
            &&& lifecycle.start_refusal::<E>(None) == Some(
                Outcome::<E> { result: Err(LifecycleError::AlreadyActive), lifecycle },
            )
        },
        lifecycle.cleanup_complete && lifecycle.state != LifecycleState::Ready ==> {
            &&& lifecycle.start_refusal::<E>(None) == Some(
                Outcome::<E> {
                    result: Err(LifecycleError::Unavailable(DegradedState::NoAdmittedDevice)),
                    lifecycle: AudioLifecycle {
                        state: LifecycleState::Degraded(DegradedState::NoAdmittedDevice),
                        cleanup_complete: true,
                    },
                },
            )
            &&& candidate.alsa_cards@.len() == 0 ==> lifecycle.start_refusal::<E>(Some(candidate))
                == Some(
                Outcome::<E> {
                    result: Err(
                        LifecycleError::Unavailable(DegradedState::PhysicalDeviceUnavailable),
                    ),
                    lifecycle: AudioLifecycle {
                        state: LifecycleState::Degraded(DegradedState::PhysicalDeviceUnavailable),
                        cleanup_complete: true,
                    },
                },
            )
        },
{
}

/// A disconnect tears down what is owned, once, and then waits for a new device;
/// only a failed teardown is reported, and leaves the resources owned.
pub proof fn law_disconnect_releases_and_waits<E>(
    lifecycle: AudioLifecycle,
    calls: Seq<HostCall<E>>,
    outcome: Outcome<E>,
)
    requires
        lifecycle.disconnected(calls, outcome),
    ensures
        lifecycle.cleanup_complete ==> calls.len() == 0,
        !lifecycle.cleanup_complete ==> calls.len() == 1 && calls[0] is Teardown,
        outcome.result is Ok <==> lifecycle.cleanup_complete || calls[0]->Teardown_answer is Ok,
        outcome.result is Ok ==> outcome.lifecycle.state == LifecycleState::Degraded(
            DegradedState::DeviceDisconnected,
        ) && outcome.lifecycle.cleanup_complete,
        outcome.result is Err ==> outcome.lifecycle.state == LifecycleState::Degraded(
            DegradedState::TeardownFailed,
        ) && !outcome.lifecycle.cleanup_complete,
{
}

/// Recovery from a restart tears down what is owned and, behind a successful
/// teardown, runs exactly one startup of the given device; a failed teardown is
/// reported and nothing is started.
pub proof fn law_recovery_is_a_teardown_and_a_startup<E>(
    lifecycle: AudioLifecycle,
    cleanup: Seq<HostCall<E>>,
    startup: Seq<HostCall<E>>,
    candidate: UsbDeviceCandidate,
    outcome: Outcome<E>,
)
    requires
        lifecycle.recovered(cleanup, startup, Some(candidate), outcome),
        candidate.alsa_cards@.len() > 0,
    ensures
        lifecycle.cleanup_complete ==> cleanup.len() == 0 && starts_up(startup, candidate, outcome),
        !lifecycle.cleanup_complete ==> cleanup.len() == 1 && cleanup[0] is Teardown,
        !lifecycle.cleanup_complete && cleanup[0]->Teardown_answer is Ok ==> starts_up(
            startup,
            candidate,
            outcome,
        ),
        !lifecycle.cleanup_complete && cleanup[0]->Teardown_answer is Err ==> startup.len() == 0
            && outcome.result is Err && !outcome.lifecycle.cleanup_complete,
{
}

} // verus!
