//! Linux USB control, discovery, and host-audio ownership.
//!
//! This crate decides how to inspect the reviewed Wave:3 normal-mode USB device
//! or to open one exclusive vendor-control connection to it. It does not claim
//! audio interfaces, detach kernel drivers, change ALSA controls, or modify
//! `WirePlumber`, udev, or systemd state. The audio host opens only a revalidated
//! physical PCM.
//!
//! Every rule here is a function from plain values to plain values. Reading the
//! machine and acting on it is left to the caller.

pub mod assoc;
pub mod audio_host;
pub mod audio_lifecycle;
pub mod audio_policy;
pub mod device;
pub mod discovery;
pub mod ipc;
pub mod parse;
pub mod services;
pub mod text;
pub mod usb;

pub use device::{
    AlsaCardInfo, DeviceDefinition, DeviceIdentity, DeviceModel, DeviceRegistry, DiscoveryPaths,
    UsbDeviceCandidate, UsbIdentity, UsbTopology,
};
pub use discovery::{DiscoveryFailure, DiscoveryFailureKind, DiscoveryReport, DiscoverySource};
pub use services::{
    HostAudioInventory, HostAudioServices, LinuxInventory, ServiceAvailability, ServiceFailure,
};
pub use usb::{
    admission_error, admission_snapshot, config_snapshot, DescriptorError, TopologyError,
    UsbProbeError,
};
