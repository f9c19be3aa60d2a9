//! The audio lifecycle around fake hosts.

use librewave_platform_linux::audio_host::endpoints::{deliberate_endpoints, EndpointId};
use librewave_platform_linux::audio_host::host::GraphNotReady;
use librewave_platform_linux::audio_host::{AudioResourceState, LinuxAudioError, LinuxAudioHost};
use librewave_platform_linux::audio_lifecycle::{
    AudioHost, AudioLifecycle, CaptureConsumption, CaptureObservation, CleanupPrimary,
    DegradedState, HiddenPhysicalNode, LifecycleError, LifecycleState, HIDDEN_PHYSICAL_NODES,
};
use librewave_platform_linux::{AlsaCardInfo, DeviceIdentity, UsbDeviceCandidate, UsbTopology};

#[derive(Clone, Copy, Debug, Eq, PartialEq)]
enum Operation {
    VerifyPhysicalNodesHidden,
    StartCapture,
    ObserveCapture,
    PreparePlayback,
    PublishEndpoints,
    RestoreRouting,
    Teardown,
}

#[derive(Clone, Copy, Debug, Eq, PartialEq)]
struct FakeError(Operation);

#[derive(Debug)]
struct FakeHost {
    calls: Vec<Operation>,
    fail_at: Option<Operation>,
    fail_cleanup: bool,
    capture_observation: CaptureObservation,
}

impl Default for FakeHost {
    fn default() -> Self {
        Self {
            calls: Vec::new(),
            fail_at: None,
            fail_cleanup: false,
            capture_observation: CaptureObservation { active: true, frames_consumed: 1 },
        }
    }
}

impl FakeHost {
    fn call(&mut self, operation: Operation) -> Result<(), FakeError> {
        self.calls.push(operation);
        if self.fail_at == Some(operation) {
            Err(FakeError(operation))
        } else {
            Ok(())
        }
    }
}

impl AudioHost for FakeHost {
    type Error = FakeError;

    fn verify_physical_nodes_hidden(
        &mut self,
        _candidate: &UsbDeviceCandidate,
        hidden_nodes: &[HiddenPhysicalNode],
    ) -> Result<(), Self::Error> {
        assert_eq!(hidden_nodes, &HIDDEN_PHYSICAL_NODES);
        self.call(Operation::VerifyPhysicalNodesHidden)
    }

    fn start_capture(
        &mut self,
        _candidate: &UsbDeviceCandidate,
    ) -> Result<CaptureConsumption, Self::Error> {
        self.call(Operation::StartCapture)?;
        Ok(CaptureConsumption::new())
    }

    fn observe_capture(
        &mut self,
        _candidate: &UsbDeviceCandidate,
        _capture: &CaptureConsumption,
    ) -> Result<CaptureObservation, Self::Error> {
        self.calls.push(Operation::ObserveCapture);
        if self.fail_at == Some(Operation::ObserveCapture) {
            Err(FakeError(Operation::ObserveCapture))
        } else {
            Ok(self.capture_observation)
        }
    }

    fn prepare_playback(&mut self, _candidate: &UsbDeviceCandidate) -> Result<(), Self::Error> {
        self.call(Operation::PreparePlayback)
    }

    fn publish_endpoints(
        &mut self,
        _candidate: &UsbDeviceCandidate,
        endpoints: &[EndpointId],
    ) -> Result<(), Self::Error> {
        assert_eq!(endpoints, deliberate_endpoints());
        self.call(Operation::PublishEndpoints)
    }

    fn restore_software_routing(
        &mut self,
        _candidate: &UsbDeviceCandidate,
    ) -> Result<(), Self::Error> {
        self.call(Operation::RestoreRouting)
    }

    fn teardown(&mut self) -> Result<(), Self::Error> {
        if self.fail_cleanup {
            self.calls.push(Operation::Teardown);
            Err(FakeError(Operation::Teardown))
        } else {
            self.call(Operation::Teardown)
        }
    }
}

fn candidate() -> UsbDeviceCandidate {
    UsbDeviceCandidate {
        identity: DeviceIdentity::wave3(),
        topology: UsbTopology::new("1-8.3"),
        alsa_cards: vec![AlsaCardInfo { number: 7, id: None, name: None }],
    }
}

const STARTUP_OPERATIONS: [Operation; 6] = [
    Operation::VerifyPhysicalNodesHidden,
    Operation::StartCapture,
    Operation::ObserveCapture,
    Operation::PreparePlayback,
    Operation::PublishEndpoints,
    Operation::RestoreRouting,
];

#[test]
fn happy_path_is_capture_first_and_publishes_only_deliberate_endpoints() {
    let mut lifecycle = AudioLifecycle::new();
    let mut host = FakeHost::default();
    lifecycle.start(&mut host, Some(&candidate())).expect("startup succeeds");
    assert_eq!(lifecycle.state(), LifecycleState::Ready);
    assert_eq!(host.calls, STARTUP_OPERATIONS);
}

#[test]
fn every_host_step_failure_cleans_up_and_names_the_degraded_state() {
    let expected = [
        (Operation::VerifyPhysicalNodesHidden, DegradedState::PhysicalNodesExposed),
        (Operation::StartCapture, DegradedState::CaptureStartFailed),
        (Operation::ObserveCapture, DegradedState::CaptureNotConfirmed),
        (Operation::PreparePlayback, DegradedState::PlaybackPrepareFailed),
        (Operation::PublishEndpoints, DegradedState::EndpointPublicationFailed),
        (Operation::RestoreRouting, DegradedState::RoutingRestoreFailed),
    ];
    for (operation, state) in expected {
        let mut lifecycle = AudioLifecycle::new();
        let mut host = FakeHost { fail_at: Some(operation), ..FakeHost::default() };
        let result = lifecycle.start(&mut host, Some(&candidate()));
        assert!(
            matches!(result, Err(LifecycleError::Host { state: actual, .. }) if actual == state)
        );
        assert_eq!(lifecycle.state(), LifecycleState::Degraded(state));
        assert_eq!(host.calls.last(), Some(&Operation::Teardown));
    }
}

#[test]
fn inactive_or_stalled_capture_never_starts_playback() {
    for observation in [
        CaptureObservation { active: false, frames_consumed: 1 },
        CaptureObservation { active: true, frames_consumed: 0 },
    ] {
        let mut lifecycle = AudioLifecycle::new();
        let mut host = FakeHost { capture_observation: observation, ..FakeHost::default() };
        let result = lifecycle.start(&mut host, Some(&candidate()));
        assert!(matches!(
            result,
            Err(LifecycleError::Unavailable(DegradedState::CaptureNotConfirmed))
        ));
        assert!(!host.calls.contains(&Operation::PreparePlayback));
        assert_eq!(host.calls.last(), Some(&Operation::Teardown));
    }
}

#[test]
fn absent_or_unusable_device_does_not_touch_the_host() {
    let mut lifecycle = AudioLifecycle::new();
    let mut host = FakeHost::default();
    let result = lifecycle.start(&mut host, None);
    assert!(matches!(result, Err(LifecycleError::Unavailable(DegradedState::NoAdmittedDevice))));
    assert!(host.calls.is_empty());

    let no_alsa = UsbDeviceCandidate { alsa_cards: Vec::new(), ..candidate() };
    let result = lifecycle.start(&mut host, Some(&no_alsa));
    assert!(matches!(
        result,
        Err(LifecycleError::Unavailable(DegradedState::PhysicalDeviceUnavailable))
    ));
    assert!(host.calls.is_empty());
}

#[test]
fn teardown_is_idempotent_and_recovery_reuses_the_same_order() {
    let mut lifecycle = AudioLifecycle::new();
    let mut host = FakeHost::default();
    let device = candidate();
    lifecycle.start(&mut host, Some(&device)).expect("startup succeeds");
    lifecycle.teardown(&mut host).expect("teardown succeeds");
    lifecycle.teardown(&mut host).expect("repeated teardown succeeds");
    assert_eq!(
        host.calls,
        [
            Operation::VerifyPhysicalNodesHidden,
            Operation::StartCapture,
            Operation::ObserveCapture,
            Operation::PreparePlayback,
            Operation::PublishEndpoints,
            Operation::RestoreRouting,
            Operation::Teardown,
        ]
    );
    assert_eq!(host.calls.iter().filter(|&&call| call == Operation::Teardown).count(), 1);

    host.calls.clear();
    lifecycle.recover_after_host_restart(&mut host, Some(&device)).expect("recovery succeeds");
    assert_eq!(lifecycle.state(), LifecycleState::Ready);
    assert_eq!(host.calls, STARTUP_OPERATIONS);
}

#[test]
fn disconnect_tears_down_once_and_waits_for_reconnect() {
    let mut lifecycle = AudioLifecycle::new();
    let mut host = FakeHost::default();
    let device = candidate();
    lifecycle.start(&mut host, Some(&device)).expect("startup succeeds");
    lifecycle.handle_device_disconnect(&mut host).expect("disconnect succeeds");
    assert_eq!(lifecycle.state(), LifecycleState::Degraded(DegradedState::DeviceDisconnected));
    let calls = host.calls.len();
    lifecycle.handle_device_disconnect(&mut host).expect("repeated disconnect succeeds");
    assert_eq!(host.calls.len(), calls);
    lifecycle.start(&mut host, Some(&device)).expect("reconnect succeeds");
    assert_eq!(lifecycle.state(), LifecycleState::Ready);
}

#[test]
fn cleanup_failure_is_named_and_retryable() {
    let mut lifecycle = AudioLifecycle::new();
    let mut host = FakeHost {
        fail_at: Some(Operation::StartCapture),
        fail_cleanup: true,
        ..FakeHost::default()
    };
    let error = lifecycle.start(&mut host, Some(&candidate())).expect_err("startup fails");
    assert_eq!(
        error,
        LifecycleError::Cleanup {
            after: DegradedState::CaptureStartFailed,
            primary: CleanupPrimary::HostStep {
                state: DegradedState::CaptureStartFailed,
                source: FakeError(Operation::StartCapture),
            },
            teardown: FakeError(Operation::Teardown),
        }
    );
    assert_eq!(lifecycle.state(), LifecycleState::Degraded(DegradedState::TeardownFailed));
    host.fail_at = None;
    host.fail_cleanup = false;
    lifecycle.teardown(&mut host).expect("cleanup retry succeeds");
    assert_eq!(lifecycle.state(), LifecycleState::Idle);
}

#[test]
fn capture_not_confirmed_cleanup_failure_has_no_primary_host_error() {
    let mut lifecycle = AudioLifecycle::new();
    let mut host = FakeHost {
        fail_cleanup: true,
        capture_observation: CaptureObservation { active: false, frames_consumed: 1 },
        ..FakeHost::default()
    };
    let error = lifecycle.start(&mut host, Some(&candidate())).expect_err("startup fails");
    assert_eq!(
        error,
        LifecycleError::Cleanup {
            after: DegradedState::CaptureNotConfirmed,
            primary: CleanupPrimary::StateOnly { state: DegradedState::CaptureNotConfirmed },
            teardown: FakeError(Operation::Teardown),
        }
    );
    assert_eq!(lifecycle.state(), LifecycleState::Degraded(DegradedState::TeardownFailed));
}

#[test]
fn a_ready_lifecycle_is_not_started_twice() {
    let mut lifecycle = AudioLifecycle::new();
    let mut host = FakeHost::default();
    lifecycle.start(&mut host, Some(&candidate())).expect("startup succeeds");
    let calls = host.calls.len();
    assert_eq!(
        lifecycle.start(&mut host, Some(&candidate())),
        Err(LifecycleError::AlreadyActive)
    );
    assert_eq!(host.calls.len(), calls);
}

/// The production host's decisions with a fake `PipeWire` connection.
#[derive(Debug)]
struct ProductionHost {
    host: LinuxAudioHost,
    calls: Vec<&'static str>,
    connected: bool,
    fail_disconnect: bool,
}

impl AudioHost for ProductionHost {
    type Error = LinuxAudioError;

    fn verify_physical_nodes_hidden(
        &mut self,
        _candidate: &UsbDeviceCandidate,
        hidden_nodes: &[HiddenPhysicalNode],
    ) -> Result<(), Self::Error> {
        self.host.accept_hidden_nodes(hidden_nodes)?;
        self.calls.push("pipewire-connect");
        self.connected = true;
        Ok(())
    }

    fn start_capture(
        &mut self,
        _candidate: &UsbDeviceCandidate,
    ) -> Result<CaptureConsumption, Self::Error> {
        self.host.start_capture()
    }

    fn observe_capture(
        &mut self,
        _candidate: &UsbDeviceCandidate,
        _capture: &CaptureConsumption,
    ) -> Result<CaptureObservation, Self::Error> {
        Err(LinuxAudioError::EndpointStreamTransportUnavailable)
    }

    fn prepare_playback(&mut self, _candidate: &UsbDeviceCandidate) -> Result<(), Self::Error> {
        Err(LinuxAudioError::EndpointStreamTransportUnavailable)
    }

    fn publish_endpoints(
        &mut self,
        _candidate: &UsbDeviceCandidate,
        endpoints: &[EndpointId],
    ) -> Result<(), Self::Error> {
        self.host.publish_endpoints(endpoints)
    }

    fn restore_software_routing(
        &mut self,
        _candidate: &UsbDeviceCandidate,
    ) -> Result<(), Self::Error> {
        Err(LinuxAudioError::EndpointStreamTransportUnavailable)
    }

    fn teardown(&mut self) -> Result<(), Self::Error> {
        self.calls.push("pipewire-disconnect");
        self.connected = false;
        self.host.teardown(!self.fail_disconnect)
    }
}

fn production(fail_disconnect: bool) -> ProductionHost {
    ProductionHost {
        host: LinuxAudioHost::default(),
        calls: Vec::new(),
        connected: false,
        fail_disconnect,
    }
}

#[test]
fn production_host_refuses_before_alsa_until_graph_composition_exists() {
    let mut host = production(false);
    let mut lifecycle = AudioLifecycle::new();
    let error = lifecycle.start(&mut host, Some(&candidate())).expect_err("not ready");
    assert!(matches!(
        error,
        LifecycleError::Host {
            state: DegradedState::CaptureStartFailed,
            source: LinuxAudioError::EndpointStreamTransportUnavailable,
        }
    ));
    assert_eq!(lifecycle.state(), LifecycleState::Degraded(DegradedState::CaptureStartFailed));
    assert_eq!(
        host.host.resource_state(host.connected),
        AudioResourceState {
            not_ready: Some(GraphNotReady::EndpointStreamTransportUnavailable),
            ..AudioResourceState::default()
        }
    );
    assert_eq!(host.calls, ["pipewire-connect", "pipewire-disconnect"]);
}

#[test]
fn a_host_that_cannot_disconnect_reports_a_failed_teardown() {
    let mut host = production(true);
    let mut lifecycle = AudioLifecycle::new();
    let error = lifecycle.start(&mut host, Some(&candidate())).expect_err("not ready");
    assert!(matches!(
        error,
        LifecycleError::Cleanup { teardown: LinuxAudioError::TeardownFailed, .. }
    ));
}
