//! Exact, render-only Linux ownership policy for the admitted Wave:3.
//!
//! This module describes files that setup may install and the ownership plan
//! that an ALSA and `PipeWire` adapter must implement. Rendering a policy does
//! not inspect or change the host.

use crate::audio_host::endpoints::{deliberate, deliberate_endpoints, EndpointId};
use crate::device::{wave3_identity, DeviceIdentity, UsbIdentity};
use crate::parse::{law_hexadecimal_is_read_back, parsed_number};
use crate::text::{hex4, hex4_text};
use vstd::prelude::*;
use vstd::string::*;

verus! {

/// The `WirePlumber` 0.5 fragment installed in the user's configuration.
pub const WIREPLUMBER_POLICY_FILE_NAME: &'static str = "80-librewave-wave3.conf";

/// The udev rule installed in the system rules directory.
pub const UDEV_POLICY_FILE_NAME: &'static str = "70-librewave-wave3.rules";

/// An exact USB product match with no serial, class, or interface fields.
#[derive(Clone, Copy, Debug, Eq, PartialEq, Structural)]
pub struct ExactUsbProduct {
    pub identity: DeviceIdentity,
}

impl ExactUsbProduct {
    /// Returns the admitted Wave:3 normal-mode product.
    pub fn wave3() -> (product: Self)
        ensures
            product.identity == wave3_identity(),
    {
        ExactUsbProduct { identity: DeviceIdentity::wave3() }
    }

    /// Returns the portable admitted identity.
    pub fn identity(self) -> (identity: DeviceIdentity)
        ensures
            identity == self.identity,
    {
        self.identity
    }

    /// Tests an observed vendor and product pair for exact equality.
    pub fn matches(self, observed: UsbIdentity) -> (exact: bool)
        ensures
            exact == (observed == self.identity.usb),
    {
        let expected = self.identity.usb();
        expected.vendor_id == observed.vendor_id && expected.product_id == observed.product_id
    }
}

/// The destination class for one setup-managed policy file.
#[derive(Clone, Copy, Debug, Eq, PartialEq, Structural)]
pub enum PolicyInstallScope {
    /// A `WirePlumber` 0.5 fragment in the user's configuration.
    UserWirePlumberFragment,
    /// A system udev rules file.
    SystemUdevRules,
}

/// The two policy artifacts required for physical PCM ownership.
#[derive(Clone, Copy, Debug, Eq, PartialEq, Structural)]
pub enum PolicyArtifactKind {
    /// The declarative `WirePlumber` card-disable rule.
    WirePlumber,
    /// The normal-mode USB access rule.
    Udev,
}

/// Setup metadata for one rendered policy artifact.
#[derive(Clone, Copy, Debug, Eq, PartialEq)]
pub struct PolicyArtifactSpec {
    /// The artifact format and purpose.
    pub kind: PolicyArtifactKind,
    /// The installation scope.
    pub scope: PolicyInstallScope,
    /// The deterministic file name.
    pub file_name: &'static str,
}

/// A prerequisite that setup or the audio adapter must verify.
#[derive(Clone, Copy, Debug, Eq, PartialEq, Structural)]
pub enum OwnershipPrerequisite {
    /// `WirePlumber` must use the reviewed configuration series.
    WirePlumberSeries { major: u16, minor: u16 },
    /// `PipeWire` must be available for deliberate product endpoints.
    PipeWireAvailable,
    /// The kernel audio driver must remain bound to the device.
    SndUsbAudioBound,
    /// The named policy artifact must be installed and active.
    PolicyActive(PolicyArtifactKind),
    /// The admitted normal-mode device must grant the active user access.
    NormalModeDeviceAccessible,
    /// `WirePlumber` must not create or reserve the physical ALSA card.
    PhysicalAlsaCardUnmanaged,
}

/// The owner of the physical ALSA PCMs.
#[derive(Clone, Copy, Debug, Eq, PartialEq, Structural)]
pub enum PhysicalPcmOwner {
    /// The user-session `librewaved` process.
    LibreWaveDaemon,
}

/// How the daemon reaches the physical audio streams.
#[derive(Clone, Copy, Debug, Eq, PartialEq, Structural)]
pub enum PhysicalPcmAccess {
    /// Direct ALSA PCM access through `snd_usb_audio`.
    DirectAlsa,
}

/// One ordered operation in the physical audio ownership plan.
#[derive(Clone, Copy, Debug, Eq, PartialEq, Structural)]
pub enum OwnershipStep {
    /// Verify the exact admitted normal-mode device and ALSA card.
    AdmitExactProduct,
    /// Verify that `WirePlumber` did not create or reserve the physical card.
    VerifyPhysicalCardUnmanaged,
    /// Open the physical capture PCM before playback.
    OpenCapturePcm,
    /// Consume frames from the capture PCM inside the daemon.
    ConsumeCaptureFrames,
    /// Confirm that capture has produced at least one frame.
    ConfirmCaptureFrames,
    /// Open the physical playback PCM after capture confirmation.
    OpenPlaybackPcm,
    /// Publish only the deliberate endpoint contracts.
    PublishCoreEndpoints,
    /// Restore saved routes and software levels.
    RestoreSoftwareRouting,
}

/// The prerequisites in verification order.
pub open spec fn ownership_prerequisites() -> Seq<OwnershipPrerequisite> {
    seq![
        OwnershipPrerequisite::WirePlumberSeries { major: 0, minor: 5 },
        OwnershipPrerequisite::PipeWireAvailable,
        OwnershipPrerequisite::SndUsbAudioBound,
        OwnershipPrerequisite::PolicyActive(PolicyArtifactKind::WirePlumber),
        OwnershipPrerequisite::PolicyActive(PolicyArtifactKind::Udev),
        OwnershipPrerequisite::NormalModeDeviceAccessible,
        OwnershipPrerequisite::PhysicalAlsaCardUnmanaged,
    ]
}

/// The startup sequence.
pub open spec fn ownership_steps() -> Seq<OwnershipStep> {
    seq![
        OwnershipStep::AdmitExactProduct,
        OwnershipStep::VerifyPhysicalCardUnmanaged,
        OwnershipStep::OpenCapturePcm,
        OwnershipStep::ConsumeCaptureFrames,
        OwnershipStep::ConfirmCaptureFrames,
        OwnershipStep::OpenPlaybackPcm,
        OwnershipStep::PublishCoreEndpoints,
        OwnershipStep::RestoreSoftwareRouting,
    ]
}

/// The static direct-ALSA ownership plan for the admitted Wave:3.
#[derive(Clone, Copy, Debug, Eq, PartialEq, Structural)]
pub struct AudioOwnershipPlan {
    pub target: ExactUsbProduct,
}

impl AudioOwnershipPlan {
    /// Returns the exact product governed by this plan.
    pub fn target(self) -> (target: ExactUsbProduct)
        ensures
            target == self.target,
    {
        self.target
    }

    /// Returns the sole physical PCM owner.
    pub fn physical_owner(self) -> (owner: PhysicalPcmOwner)
        ensures
            owner == PhysicalPcmOwner::LibreWaveDaemon,
    {
        PhysicalPcmOwner::LibreWaveDaemon
    }

    /// Returns the required physical PCM access method.
    pub fn physical_access(self) -> (access: PhysicalPcmAccess)
        ensures
            access == PhysicalPcmAccess::DirectAlsa,
    {
        PhysicalPcmAccess::DirectAlsa
    }

    /// Returns the prerequisites in deterministic verification order.
    pub fn prerequisites(self) -> (prerequisites: [OwnershipPrerequisite; 7])
        ensures
            prerequisites@ == ownership_prerequisites(),
    {
        let prerequisites = [
            OwnershipPrerequisite::WirePlumberSeries { major: 0, minor: 5 },
            OwnershipPrerequisite::PipeWireAvailable,
            OwnershipPrerequisite::SndUsbAudioBound,
            OwnershipPrerequisite::PolicyActive(PolicyArtifactKind::WirePlumber),
            OwnershipPrerequisite::PolicyActive(PolicyArtifactKind::Udev),
            OwnershipPrerequisite::NormalModeDeviceAccessible,
            OwnershipPrerequisite::PhysicalAlsaCardUnmanaged,
        ];
        proof {
            assert(prerequisites@ =~= ownership_prerequisites());
        }
        prerequisites
    }

    /// Returns the one normal startup sequence.
    pub fn steps(self) -> (steps: [OwnershipStep; 8])
        ensures
            steps@ == ownership_steps(),
    {
        let steps = [
            OwnershipStep::AdmitExactProduct,
            OwnershipStep::VerifyPhysicalCardUnmanaged,
            OwnershipStep::OpenCapturePcm,
            OwnershipStep::ConsumeCaptureFrames,
            OwnershipStep::ConfirmCaptureFrames,
            OwnershipStep::OpenPlaybackPcm,
            OwnershipStep::PublishCoreEndpoints,
            OwnershipStep::RestoreSoftwareRouting,
        ];
        proof {
            assert(steps@ =~= ownership_steps());
        }
        steps
    }

    /// Returns the user-facing endpoints from the portable core contract.
    pub fn endpoints(self) -> (endpoints: [EndpointId; 4])
        ensures
            endpoints@ == deliberate(),
    {
        deliberate_endpoints()
    }
}

/// The text of the `WirePlumber` fragment for a USB pair.
pub open spec fn wireplumber_text(usb: UsbIdentity) -> Seq<char> {
    "monitor.alsa.rules = [\n  {\n    matches = [\n      {\n        device.vendor.id = \"0x"@
        + hex4(usb.vendor_id) + "\"\n        device.product.id = \"0x"@ + hex4(usb.product_id)
        + "\"\n      }\n    ]\n    actions = {\n      update-props = {\n        device.disabled = true\n      }\n    }\n  }\n]\n"@
}

/// The text of the udev rule for a USB pair.
pub open spec fn udev_text(usb: UsbIdentity) -> Seq<char> {
    "SUBSYSTEM==\"usb\", ENV{DEVTYPE}==\"usb_device\", ATTR{idVendor}==\""@ + hex4(usb.vendor_id)
        + "\", ATTR{idProduct}==\""@ + hex4(usb.product_id) + "\", TAG+=\"uaccess\"\n"@
}

/// The complete render-only Linux policy for the admitted Wave:3.
#[derive(Clone, Copy, Debug, Eq, PartialEq, Structural)]
pub struct Wave3AudioPolicy {
    pub target: ExactUsbProduct,
}

impl Wave3AudioPolicy {
    /// Creates the reviewed policy for the Wave:3 normal-mode identity.
    pub fn new() -> (policy: Self)
        ensures
            policy.target.identity == wave3_identity(),
    {
        Wave3AudioPolicy { target: ExactUsbProduct::wave3() }
    }

    /// Returns setup metadata for the two required artifacts.
    pub fn artifacts(self) -> (artifacts: [PolicyArtifactSpec; 2])
        ensures
            artifacts@[0].kind == PolicyArtifactKind::WirePlumber,
            artifacts@[0].scope == PolicyInstallScope::UserWirePlumberFragment,
            artifacts@[0].file_name@ == "80-librewave-wave3.conf"@,
            artifacts@[1].kind == PolicyArtifactKind::Udev,
            artifacts@[1].scope == PolicyInstallScope::SystemUdevRules,
            artifacts@[1].file_name@ == "70-librewave-wave3.rules"@,
    {
        [
            PolicyArtifactSpec {
                kind: PolicyArtifactKind::WirePlumber,
                scope: PolicyInstallScope::UserWirePlumberFragment,
                file_name: WIREPLUMBER_POLICY_FILE_NAME,
            },
            PolicyArtifactSpec {
                kind: PolicyArtifactKind::Udev,
                scope: PolicyInstallScope::SystemUdevRules,
                file_name: UDEV_POLICY_FILE_NAME,
            },
        ]
    }

    /// Returns the physical ownership plan tied to this policy.
    pub fn ownership_plan(self) -> (plan: AudioOwnershipPlan)
        ensures
            plan.target == self.target,
    {
        AudioOwnershipPlan { target: self.target }
    }

    /// Renders the minimal `WirePlumber` 0.5 device-disable fragment.
    pub fn render_wireplumber(self) -> (text: String)
        ensures
            text@ == wireplumber_text(self.target.identity.usb),
    {
        let usb = self.target.identity().usb();
        let mut text = String::from_str(
            "monitor.alsa.rules = [\n  {\n    matches = [\n      {\n        device.vendor.id = \"0x",
        );
        text.append(hex4_text(usb.vendor_id).as_str());
        text.append("\"\n        device.product.id = \"0x");
        text.append(hex4_text(usb.product_id).as_str());
        text.append(
            "\"\n      }\n    ]\n    actions = {\n      update-props = {\n        device.disabled = true\n      }\n    }\n  }\n]\n",
        );
        text
    }

    /// Renders the exact normal-mode USB access rule.
    pub fn render_udev(self) -> (text: String)
        ensures
            text@ == udev_text(self.target.identity.usb),
    {
        let usb = self.target.identity().usb();
        let mut text = String::from_str(
            "SUBSYSTEM==\"usb\", ENV{DEVTYPE}==\"usb_device\", ATTR{idVendor}==\"",
        );
        text.append(hex4_text(usb.vendor_id).as_str());
        text.append("\", ATTR{idProduct}==\"");
        text.append(hex4_text(usb.product_id).as_str());
        text.append("\", TAG+=\"uaccess\"\n");
        text
    }
}

impl Default for Wave3AudioPolicy {
    fn default() -> (policy: Self)
        ensures
            policy.target.identity == wave3_identity(),
    {
        Wave3AudioPolicy::new()
    }
}

/// The plan opens playback only behind confirmed capture, and publishes
/// endpoints only behind playback.
pub proof fn law_plan_is_capture_first(capture: int, playback: int, publication: int)
    requires
        0 <= capture < ownership_steps().len(),
        0 <= playback < ownership_steps().len(),
        0 <= publication < ownership_steps().len(),
        ownership_steps()[capture] == OwnershipStep::ConfirmCaptureFrames,
        ownership_steps()[playback] == OwnershipStep::OpenPlaybackPcm,
        ownership_steps()[publication] == OwnershipStep::PublishCoreEndpoints,
    ensures
        capture < playback < publication,
{
}

/// Both policies name the vendor before the product, each in four hexadecimal
/// digits that are read back as the number, and differ between any two products.
pub proof fn law_policies_name_their_product(usb: UsbIdentity)
    ensures
        ({
            let vendor_at =
                "monitor.alsa.rules = [\n  {\n    matches = [\n      {\n        device.vendor.id = \"0x"@.len() as int;
            let product_at = vendor_at + 4
                + "\"\n        device.product.id = \"0x"@.len();
            let text = wireplumber_text(usb);
            &&& product_at + 4 <= text.len()
            &&& parsed_number(text.subrange(vendor_at, vendor_at + 4), 16, 0xffff) == Some(
                usb.vendor_id as nat,
            )
            &&& parsed_number(text.subrange(product_at, product_at + 4), 16, 0xffff) == Some(
                usb.product_id as nat,
            )
        }),
        ({
            let vendor_at =
                "SUBSYSTEM==\"usb\", ENV{DEVTYPE}==\"usb_device\", ATTR{idVendor}==\""@.len() as int;
            let product_at = vendor_at + 4 + "\", ATTR{idProduct}==\""@.len();
            let text = udev_text(usb);
            &&& product_at + 4 <= text.len()
            &&& parsed_number(text.subrange(vendor_at, vendor_at + 4), 16, 0xffff) == Some(
                usb.vendor_id as nat,
            )
            &&& parsed_number(text.subrange(product_at, product_at + 4), 16, 0xffff) == Some(
                usb.product_id as nat,
            )
        }),
{
    law_hexadecimal_is_read_back(usb.vendor_id);
    law_hexadecimal_is_read_back(usb.product_id);
    let vendor = hex4(usb.vendor_id);
    let product = hex4(usb.product_id);
    let a =
        "monitor.alsa.rules = [\n  {\n    matches = [\n      {\n        device.vendor.id = \"0x"@;
    let b = "\"\n        device.product.id = \"0x"@;
    let fragment = wireplumber_text(usb);
    assert(fragment.subrange(a.len() as int, a.len() as int + 4) =~= vendor);
    let behind = a.len() as int + 4 + b.len();
    assert(fragment.subrange(behind, behind + 4) =~= product);
    let c = "SUBSYSTEM==\"usb\", ENV{DEVTYPE}==\"usb_device\", ATTR{idVendor}==\""@;
    let d = "\", ATTR{idProduct}==\""@;
    let rule = udev_text(usb);
    assert(rule.subrange(c.len() as int, c.len() as int + 4) =~= vendor);
    let further = c.len() as int + 4 + d.len();
    assert(rule.subrange(further, further + 4) =~= product);
}

/// The plan admits the device and finds its card unmanaged before it opens
/// capture, confirms capture before it opens playback, publishes behind playback,
/// and restores routing last; each step is there once.
pub proof fn law_plan_runs_in_order(first: int, second: int)
    requires
        0 <= first < second < ownership_steps().len(),
    ensures
        ownership_steps().len() == 8,
        ownership_steps()[first] != ownership_steps()[second],
        ownership_steps()[second] != OwnershipStep::AdmitExactProduct,
        ownership_steps()[first] != OwnershipStep::RestoreSoftwareRouting,
        ownership_steps()[second] == OwnershipStep::OpenCapturePcm ==> ownership_steps()[first]
            == OwnershipStep::AdmitExactProduct || ownership_steps()[first]
            == OwnershipStep::VerifyPhysicalCardUnmanaged,
        ownership_steps()[first] == OwnershipStep::OpenPlaybackPcm ==> ownership_steps()[second]
            == OwnershipStep::PublishCoreEndpoints || ownership_steps()[second]
            == OwnershipStep::RestoreSoftwareRouting,
        ownership_steps()[second] == OwnershipStep::ConfirmCaptureFrames
            ==> ownership_steps()[first] != OwnershipStep::OpenPlaybackPcm,
        ownership_steps()[second] == OwnershipStep::ConsumeCaptureFrames
            ==> ownership_steps()[first] != OwnershipStep::ConfirmCaptureFrames,
{
}

/// Ownership needs exactly seven things: the reviewed `WirePlumber` series, a
/// running `PipeWire`, the USB audio driver, both policies, access to the device,
/// and a card that no session manages.
pub proof fn law_ownership_needs_everything(prerequisite: OwnershipPrerequisite)
    ensures
        ownership_prerequisites().len() == 7,
        ownership_prerequisites().contains(prerequisite) <==> match prerequisite {
            OwnershipPrerequisite::WirePlumberSeries { major, minor } => major == 0 && minor == 5,
            OwnershipPrerequisite::PolicyActive(kind) => kind == PolicyArtifactKind::WirePlumber
                || kind == PolicyArtifactKind::Udev,
            _ => true,
        },
{
    let all = ownership_prerequisites();
    assert(all[0] == (OwnershipPrerequisite::WirePlumberSeries { major: 0, minor: 5 }));
    assert(all[1] == OwnershipPrerequisite::PipeWireAvailable);
    assert(all[2] == OwnershipPrerequisite::SndUsbAudioBound);
    assert(all[3] == OwnershipPrerequisite::PolicyActive(PolicyArtifactKind::WirePlumber));
    assert(all[4] == OwnershipPrerequisite::PolicyActive(PolicyArtifactKind::Udev));
    assert(all[5] == OwnershipPrerequisite::NormalModeDeviceAccessible);
    assert(all[6] == OwnershipPrerequisite::PhysicalAlsaCardUnmanaged);
}

} // verus!
