//! Admitted products and the devices found on this host.

use vstd::prelude::*;
use vstd::string::*;

verus! {

/// A USB vendor and product pair.
#[derive(Clone, Copy, Debug, Eq, Hash, PartialEq, Structural)]
pub struct UsbIdentity {
    pub vendor_id: u16,
    pub product_id: u16,
}

impl UsbIdentity {
    pub fn new(vendor_id: u16, product_id: u16) -> (identity: Self)
        ensures
            identity == (UsbIdentity { vendor_id, product_id }),
    {
        UsbIdentity { vendor_id, product_id }
    }
}

/// A reviewed product model.
#[derive(Clone, Copy, Debug, Eq, Hash, PartialEq, Structural)]
pub enum DeviceModel {
    Wave3,
}

/// A portable device identity. It never contains a USB serial number.
#[derive(Clone, Copy, Debug, Eq, Hash, PartialEq, Structural)]
pub struct DeviceIdentity {
    pub model: DeviceModel,
    pub usb: UsbIdentity,
}

/// The Wave:3's reviewed normal-mode USB identity.
pub open spec fn wave3_usb() -> UsbIdentity {
    UsbIdentity { vendor_id: 0x0fd9, product_id: 0x0070 }
}

/// The Wave:3's reviewed identity.
pub open spec fn wave3_identity() -> DeviceIdentity {
    DeviceIdentity { model: DeviceModel::Wave3, usb: wave3_usb() }
}

impl DeviceIdentity {
    /// The Wave:3's reviewed identity.
    pub fn wave3() -> (identity: Self)
        ensures
            identity == wave3_identity(),
    {
        DeviceIdentity {
            model: DeviceModel::Wave3,
            usb: UsbIdentity { vendor_id: 0x0fd9, product_id: 0x0070 },
        }
    }

    pub fn usb(self) -> (usb: UsbIdentity)
        ensures
            usb == self.usb,
    {
        self.usb
    }

    pub fn model(self) -> (model: DeviceModel)
        ensures
            model == self.model,
    {
        self.model
    }
}

/// Filesystem locations used by Linux discovery.
#[derive(Clone, Debug)]
pub struct DiscoveryPaths {
    /// USB device entries, normally `/sys/bus/usb/devices`.
    pub usb_devices: String,
    /// ALSA card symlinks, normally `/sys/class/sound`.
    pub sound_cards: String,
    /// ALSA card summary, normally `/proc/asound/cards`.
    pub asound_cards: String,
    /// ALSA card directory, normally `/proc/asound`.
    pub asound_root: String,
}

impl Default for DiscoveryPaths {
    fn default() -> (paths: Self)
        ensures
            paths.usb_devices@ == "/sys/bus/usb/devices"@,
            paths.sound_cards@ == "/sys/class/sound"@,
            paths.asound_cards@ == "/proc/asound/cards"@,
            paths.asound_root@ == "/proc/asound"@,
    {
        DiscoveryPaths {
            usb_devices: String::from_str("/sys/bus/usb/devices"),
            sound_cards: String::from_str("/sys/class/sound"),
            asound_cards: String::from_str("/proc/asound/cards"),
            asound_root: String::from_str("/proc/asound"),
        }
    }
}

/// A product entry in the extensible platform admission registry.
#[derive(Clone, Copy, Debug, Eq, Hash, PartialEq, Structural)]
pub struct DeviceDefinition {
    /// The sanitized identity produced when this USB pair is found.
    pub identity: DeviceIdentity,
}

impl DeviceDefinition {
    /// The first admitted Linux product.
    pub fn wave3() -> (definition: Self)
        ensures
            definition.identity == wave3_identity(),
    {
        DeviceDefinition { identity: DeviceIdentity::wave3() }
    }

    /// Returns the reviewed identity for this definition.
    pub fn identity(&self) -> (identity: DeviceIdentity)
        ensures
            identity == self.identity,
    {
        self.identity
    }
}

/// An extensible registry of exact, admitted USB product pairs.
#[derive(Clone, Debug)]
pub struct DeviceRegistry {
    pub definitions: Vec<DeviceDefinition>,
}

impl Default for DeviceRegistry {
    fn default() -> (registry: Self)
        ensures
            registry.definitions@ == seq![DeviceDefinition { identity: wave3_identity() }],
    {
        let mut definitions: Vec<DeviceDefinition> = Vec::new();
        definitions.push(DeviceDefinition::wave3());
        proof {
            assert(definitions@ =~= seq![DeviceDefinition { identity: wave3_identity() }]);
        }
        DeviceRegistry { definitions }
    }
}

/// The first definition for a USB pair, if there is one.
pub open spec fn definition_for(definitions: Seq<DeviceDefinition>, usb: UsbIdentity) -> Option<
    DeviceDefinition,
>
    decreases definitions.len(),
{
    if definitions.len() == 0 {
        None
    } else if definitions[0].identity.usb == usb {
        Some(definitions[0])
    } else {
        definition_for(definitions.drop_first(), usb)
    }
}

impl DeviceRegistry {
    /// Creates a registry from exact product definitions.
    pub fn new(definitions: Vec<DeviceDefinition>) -> (registry: Self)
        ensures
            registry.definitions@ == definitions@,
    {
        DeviceRegistry { definitions }
    }

    /// Adds another exact product definition; a known one is not added again.
    pub fn register(&mut self, definition: DeviceDefinition)
        ensures
            final(self).definitions@ == if old(self).definitions@.contains(definition) {
                old(self).definitions@
            } else {
                old(self).definitions@.push(definition)
            },
    {
        for index in 0..self.definitions.len()
            invariant
                self.definitions@ == old(self).definitions@,
                forall|i: int| 0 <= i < index ==> #[trigger] self.definitions@[i] != definition,
        {
            if self.definitions[index] == definition {
                return;
            }
        }
        self.definitions.push(definition);
    }

    /// Finds the definition for a USB pair.
    pub fn find(&self, usb: UsbIdentity) -> (definition: Option<DeviceDefinition>)
        ensures
            definition == definition_for(self.definitions@, usb),
    {
        proof {
            assert(self.definitions@.skip(0) =~= self.definitions@);
        }
        for index in 0..self.definitions.len()
            invariant
                definition_for(self.definitions@, usb) == definition_for(
                    self.definitions@.skip(index as int),
                    usb,
                ),
        {
            proof {
                assert(self.definitions@.skip(index as int).drop_first() =~= self.definitions@.skip(
                    index + 1,
                ));
            }
            if self.definitions[index].identity().usb() == usb {
                return Some(self.definitions[index]);
            }
        }
        None
    }
}

/// A found definition has exactly the USB pair that was asked for, and every
/// registered pair is found.
pub proof fn law_registry_admits_only_exact_pairs(
    definitions: Seq<DeviceDefinition>,
    usb: UsbIdentity,
)
    ensures
        match definition_for(definitions, usb) {
            Some(definition) => definition.identity.usb == usb && definitions.contains(definition),
            None => forall|i: int|
                0 <= i < definitions.len() ==> (#[trigger] definitions[i]).identity.usb != usb,
        },
    decreases definitions.len(),
{
    if definitions.len() > 0 {
        let rest = definitions.drop_first();
        law_registry_admits_only_exact_pairs(rest, usb);
        if definitions[0].identity.usb == usb {
        } else if definition_for(rest, usb) is Some {
            let found = definition_for(rest, usb)->Some_0;
            let i = choose|i: int| 0 <= i < rest.len() && rest[i] == found;
            assert(definitions[i + 1] == found);
        } else {
            assert forall|i: int| 0 <= i < definitions.len() implies (
            #[trigger] definitions[i]).identity.usb != usb by {
                if i > 0 {
                    assert(rest[i - 1] == definitions[i]);
                }
            }
        }
    }
}

/// A topology-only name from `/sys/bus/usb/devices`.
///
/// It is not a USB serial number. The adapter reads no `serial` sysfs
/// attribute. The name is retained only to correlate the USB device with its
/// ALSA card during this inventory pass.
#[derive(Clone, Debug, Eq, Hash, Ord, PartialEq, PartialOrd)]
pub struct UsbTopology {
    pub name: String,
}

impl UsbTopology {
    pub fn new(name: &str) -> (topology: Self)
        ensures
            topology.name@ == name@,
    {
        UsbTopology { name: String::from_str(name) }
    }

    /// Returns the kernel topology name.
    pub fn as_str(&self) -> (name: &str)
        ensures
            name@ == self.name@,
    {
        self.name.as_str()
    }
}

/// Information for one ALSA card associated with a USB candidate.
#[derive(Clone, Debug, Eq, PartialEq)]
pub struct AlsaCardInfo {
    /// The kernel-assigned card number. It is discovered, not configured.
    pub number: u32,
    /// The short ALSA card identifier, when readable.
    pub id: Option<String>,
    /// The human-readable name from `/proc/asound/cards`, when readable.
    pub name: Option<String>,
}

/// What an ALSA card information holds.
pub struct AlsaCardView {
    pub number: u32,
    pub id: Option<Seq<char>>,
    pub name: Option<Seq<char>>,
}

/// The characters of an optional text.
pub open spec fn optional_text(text: Option<String>) -> Option<Seq<char>> {
    match text {
        Some(text) => Some(text@),
        None => None,
    }
}

/// Copies an optional text.
pub fn copy_optional(text: &Option<String>) -> (copy: Option<String>)
    ensures
        optional_text(copy) == optional_text(*text),
{
    match text {
        Some(text) => Some(text.clone()),
        None => None,
    }
}

impl View for AlsaCardInfo {
    type V = AlsaCardView;

    open spec fn view(&self) -> AlsaCardView {
        AlsaCardView {
            number: self.number,
            id: optional_text(self.id),
            name: optional_text(self.name),
        }
    }
}

impl AlsaCardInfo {
    /// Copies this information.
    pub fn copied(&self) -> (copy: AlsaCardInfo)
        ensures
            copy@ == self@,
    {
        AlsaCardInfo {
            number: self.number,
            id: copy_optional(&self.id),
            name: copy_optional(&self.name),
        }
    }
}

/// The information of each card.
pub open spec fn card_views(cards: Seq<AlsaCardInfo>) -> Seq<AlsaCardView> {
    Seq::new(cards.len(), |i: int| cards[i]@)
}

/// A supported USB device and its currently associated host-audio cards.
#[derive(Clone, Debug, Eq, PartialEq)]
pub struct UsbDeviceCandidate {
    /// The portable identity. It never contains a USB serial number.
    pub identity: DeviceIdentity,
    /// The sysfs topology name used for this inventory correlation.
    pub topology: UsbTopology,
    /// ALSA cards whose sysfs device is below this USB device.
    pub alsa_cards: Vec<AlsaCardInfo>,
}

/// What a device candidate holds.
pub struct CandidateView {
    pub identity: DeviceIdentity,
    pub topology: Seq<char>,
    pub alsa_cards: Seq<AlsaCardView>,
}

impl View for UsbDeviceCandidate {
    type V = CandidateView;

    open spec fn view(&self) -> CandidateView {
        CandidateView {
            identity: self.identity,
            topology: self.topology.name@,
            alsa_cards: card_views(self.alsa_cards@),
        }
    }
}

/// What each candidate holds.
pub open spec fn candidate_views(candidates: Seq<UsbDeviceCandidate>) -> Seq<CandidateView> {
    Seq::new(candidates.len(), |i: int| candidates[i]@)
}

/// The definition that is found is the first one registered for its pair.
pub proof fn law_the_first_definition_is_found(
    definitions: Seq<DeviceDefinition>,
    usb: UsbIdentity,
    position: int,
)
    requires
        0 <= position < definitions.len(),
        definitions[position].identity.usb == usb,
        forall|i: int| 0 <= i < position ==> (#[trigger] definitions[i]).identity.usb != usb,
    ensures
        definition_for(definitions, usb) == Some(definitions[position]),
    decreases definitions.len(),
{
    if position > 0 {
        let rest = definitions.drop_first();
        assert(definitions[0].identity.usb != usb);
        assert forall|i: int| 0 <= i < position - 1 implies (#[trigger] rest[i]).identity.usb
            != usb by {
            assert(rest[i] == definitions[i + 1]);
        }
        assert(rest[position - 1] == definitions[position]);
        law_the_first_definition_is_found(rest, usb, position - 1);
    }
}

/// The reviewed product is the Wave:3 under its normal-mode pair.
pub proof fn law_the_reviewed_product_has_one_pair(usb: UsbIdentity)
    ensures
        usb == wave3_usb() <==> usb.vendor_id == 0x0fd9 && usb.product_id == 0x0070,
        wave3_identity().usb == wave3_usb(),
        wave3_identity().model == DeviceModel::Wave3,
{
}

} // verus!
