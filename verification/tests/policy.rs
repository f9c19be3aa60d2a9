//! The ownership policy and its rendered files.

use librewave_platform_linux::audio_host::endpoints::deliberate_endpoints;
use librewave_platform_linux::audio_policy::{
    ExactUsbProduct, OwnershipPrerequisite, OwnershipStep, PhysicalPcmAccess, PhysicalPcmOwner,
    PolicyArtifactKind, PolicyArtifactSpec, PolicyInstallScope, Wave3AudioPolicy,
};
use librewave_platform_linux::{DeviceIdentity, UsbIdentity};

const WIREPLUMBER_GOLDEN: &str = "monitor.alsa.rules = [
  {
    matches = [
      {
        device.vendor.id = \"0x0fd9\"
        device.product.id = \"0x0070\"
      }
    ]
    actions = {
      update-props = {
        device.disabled = true
      }
    }
  }
]
";
const UDEV_GOLDEN: &str = "SUBSYSTEM==\"usb\", ENV{DEVTYPE}==\"usb_device\", \
ATTR{idVendor}==\"0fd9\", ATTR{idProduct}==\"0070\", TAG+=\"uaccess\"\n";

#[test]
fn renderers_match_reviewed_golden_files() {
    let policy = Wave3AudioPolicy::new();
    assert_eq!(policy.render_wireplumber(), WIREPLUMBER_GOLDEN);
    assert_eq!(policy.render_udev(), UDEV_GOLDEN);
}

#[test]
fn exact_product_rejects_nearby_vendor_and_product_ids() {
    let target = ExactUsbProduct::wave3();
    assert!(target.matches(UsbIdentity::new(0x0fd9, 0x0070)));
    assert!(!target.matches(UsbIdentity::new(0x0fd8, 0x0070)));
    assert!(!target.matches(UsbIdentity::new(0x0fda, 0x0070)));
    assert!(!target.matches(UsbIdentity::new(0x0fd9, 0x006f)));
    assert!(!target.matches(UsbIdentity::new(0x0fd9, 0x0071)));
}

#[test]
fn rendered_policy_has_no_broad_or_serial_match() {
    let policy = Wave3AudioPolicy::new();
    let wireplumber = policy.render_wireplumber();
    let udev = policy.render_udev();

    assert!(!wireplumber.contains('~'));
    assert!(!wireplumber.contains("node."));
    assert!(!wireplumber.contains("serial"));
    assert!(!wireplumber.contains("script"));
    assert!(!wireplumber.contains("lua"));
    assert!(!wireplumber.contains("wireplumber.components"));
    assert!(!udev.contains("MODE="));
    assert!(!udev.contains("bDeviceClass"));
    assert!(!udev.contains("bInterface"));
    assert!(!udev.contains("serial"));
}

#[test]
fn ownership_plan_is_capture_first_and_uses_core_endpoints() {
    let plan = Wave3AudioPolicy::new().ownership_plan();
    assert_eq!(plan.physical_owner(), PhysicalPcmOwner::LibreWaveDaemon);
    assert_eq!(plan.physical_access(), PhysicalPcmAccess::DirectAlsa);
    assert_eq!(
        plan.prerequisites(),
        [
            OwnershipPrerequisite::WirePlumberSeries { major: 0, minor: 5 },
            OwnershipPrerequisite::PipeWireAvailable,
            OwnershipPrerequisite::SndUsbAudioBound,
            OwnershipPrerequisite::PolicyActive(PolicyArtifactKind::WirePlumber),
            OwnershipPrerequisite::PolicyActive(PolicyArtifactKind::Udev),
            OwnershipPrerequisite::NormalModeDeviceAccessible,
            OwnershipPrerequisite::PhysicalAlsaCardUnmanaged,
        ]
    );
    assert_eq!(
        plan.steps(),
        [
            OwnershipStep::AdmitExactProduct,
            OwnershipStep::VerifyPhysicalCardUnmanaged,
            OwnershipStep::OpenCapturePcm,
            OwnershipStep::ConsumeCaptureFrames,
            OwnershipStep::ConfirmCaptureFrames,
            OwnershipStep::OpenPlaybackPcm,
            OwnershipStep::PublishCoreEndpoints,
            OwnershipStep::RestoreSoftwareRouting,
        ]
    );
    assert_eq!(plan.endpoints(), deliberate_endpoints());
    assert_eq!(plan.target().identity(), DeviceIdentity::wave3());
}

#[test]
fn setup_artifacts_are_stable_and_scoped() {
    assert_eq!(
        Wave3AudioPolicy::new().artifacts(),
        [
            PolicyArtifactSpec {
                kind: PolicyArtifactKind::WirePlumber,
                scope: PolicyInstallScope::UserWirePlumberFragment,
                file_name: "80-librewave-wave3.conf",
            },
            PolicyArtifactSpec {
                kind: PolicyArtifactKind::Udev,
                scope: PolicyInstallScope::SystemUdevRules,
                file_name: "70-librewave-wave3.rules",
            },
        ]
    );
}

#[test]
fn the_default_policy_is_the_reviewed_one() {
    assert_eq!(Wave3AudioPolicy::default(), Wave3AudioPolicy::new());
}
