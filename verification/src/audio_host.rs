//! Checked ALSA workers and `PipeWire` graph rules for the Linux host.
//!
//! The PCM rules open only revalidated PCMs on the card correlated to the admitted
//! USB candidate. The workers feed the independent-clock bridge. The host refuses
//! to start until the `PipeWire` graph can own that composition.

pub mod alsa;
pub mod clock_bridge;
pub mod endpoints;
pub mod filter;
pub mod graph;
pub mod host;
pub mod pcm;
pub mod pipewire;
pub mod registry;
pub mod sample;
pub mod transport;
pub mod worker;

pub use clock_bridge::attempt::ClockBridgeControl;
pub use clock_bridge::capture::{
    CaptureIngress, CapturePublishReport, CaptureReadBoundary, ObservationPublication,
};
pub use clock_bridge::config::{ClockBridgeConfig, DirectionBridgeConfig};
pub use clock_bridge::errors::{
    BridgeBuildError, BridgeClockDomain, BridgeControlError, BridgeError, BridgeState,
    PlaybackWriteError,
};
pub use clock_bridge::graph::{
    GraphBoundaryDelivery, GraphClockProcessor, GraphOutputBuffers, GraphProcessReport,
    GraphSystemInput,
};
pub use clock_bridge::observation::{
    CaptureClockObservation, GraphClockObservation, GraphClockObservationError,
    PlaybackClockObservation,
};
pub use clock_bridge::parts::ClockBridgeParts;
pub use clock_bridge::playback::{
    PlaybackBoundaryDelivery, PlaybackEgress, PlaybackPeriodSubmitter, PlaybackProcessReport,
    PlaybackSubmissionProgress,
};
pub use endpoints::{endpoint_plans, EndpointPlan, PipeWireEndpointDirection};
pub use host::{AudioResourceState, LinuxAudioError, LinuxAudioHost};
pub use pcm::{
    PackedS24Error, PcmBufferConfig, PcmConfigError, PcmDirection, Wave3PhysicalIoConfig,
    PACKED_S24_SAMPLE_BYTES, WAVE3_CAPTURE_CHANNELS, WAVE3_PCM_RATE_HZ, WAVE3_PLAYBACK_CHANNELS,
};
