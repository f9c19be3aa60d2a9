//! Turning what was read of sysfs and procfs into candidates.

use librewave_platform_linux::discovery::{
    card_id_path, card_matches_usb, discover_devices, failure, find_summary, parse_alsa_summary,
    parse_card_number, parse_usb_identity, parse_usb_number, read_alsa_cards, AlsaCardObservation,
    AlsaObservation, IoErrorKind, SoundEntry, UsbEntry,
};
use librewave_platform_linux::{
    AlsaCardInfo, DeviceDefinition, DeviceIdentity, DeviceModel, DeviceRegistry,
    DiscoveryFailureKind, DiscoveryPaths, DiscoverySource, LinuxInventory, UsbIdentity,
};

const CARDS: &str = " 7 [Wave3          ]: USB-Audio - Elgato Wave:3
                      Elgato Systems Elgato Wave:3 at usb-0000:00:14.0-8.3, full speed
";

fn path(components: &[&str]) -> Vec<String> {
    components.iter().map(|component| component.to_string()).collect()
}

fn usb_target() -> Vec<String> {
    path(&["/", "sys", "devices", "pci", "usb1", "1-8.3"])
}

fn card_target() -> Vec<String> {
    path(&["/", "sys", "devices", "pci", "usb1", "1-8.3", "1-8.3:1.0", "sound", "card7"])
}

fn usb_entry(product: &str) -> UsbEntry {
    UsbEntry {
        name: String::from("1-8.3"),
        vendor: Ok(String::from("0fd9\n")),
        product: Ok(String::from(product)),
        location: Some(usb_target()),
    }
}

fn sound_entry() -> SoundEntry {
    SoundEntry {
        name: String::from("card7"),
        device: Ok(card_target()),
        id: Ok(String::from("Wave3\n")),
    }
}

fn alsa() -> AlsaObservation {
    AlsaObservation { summary: Ok(String::from(CARDS)), entries: Ok(vec![Ok(sound_entry())]) }
}

#[test]
fn discovers_wave3_and_correlates_alsa_without_card_assumption() {
    let report =
        discover_devices(&DeviceRegistry::default(), &Ok(vec![Ok(usb_entry("0070\n"))]), &alsa());
    assert!(report.failures.is_empty(), "failures: {:?}", report.failures);
    assert_eq!(report.devices.len(), 1);
    let device = &report.devices[0];
    assert_eq!(device.identity.usb(), DeviceIdentity::wave3().usb());
    assert_eq!(device.identity.model(), DeviceModel::Wave3);
    assert_eq!(device.topology.as_str(), "1-8.3");
    assert_eq!(device.alsa_cards[0].number, 7);
    assert_eq!(device.alsa_cards[0].id.as_deref(), Some("Wave3"));
    assert_eq!(device.alsa_cards[0].name.as_deref(), Some("Elgato Wave:3"));
}

#[test]
fn candidate_debug_does_not_contain_serial_attribute() {
    let mut located = usb_entry("0070\n");
    if let Some(location) = &mut located.location {
        location.push(String::from("SERIAL-MUST-NOT-LEAK"));
    }
    let malformed = usb_entry("SERIAL-MUST-NOT-LEAK\n");
    assert!(format!("{located:?} {malformed:?}").contains("SERIAL-MUST-NOT-LEAK"));
    let report = discover_devices(
        &DeviceRegistry::default(),
        &Ok(vec![Ok(located), Ok(malformed)]),
        &alsa(),
    );
    assert_eq!(report.devices.len(), 1);
    assert_eq!(report.failures.len(), 1);
    let debug = format!("{report:?}");
    assert!(!debug.contains("SERIAL-MUST-NOT-LEAK"));
}

#[test]
fn registry_admits_only_exact_reviewed_pairs() {
    let registry = DeviceRegistry::default();
    assert_eq!(
        registry.find(DeviceIdentity::wave3().usb()),
        Some(DeviceDefinition::wave3())
    );
    assert_eq!(registry.find(UsbIdentity::new(0x0fd9, 0x0071)), None);

    let report = discover_devices(&registry, &Ok(vec![Ok(usb_entry("0071\n"))]), &alsa());
    assert!(report.devices.is_empty());
    assert!(report.failures.is_empty());
}

#[test]
fn missing_interface_failure_is_explicit() {
    let report = discover_devices(&DeviceRegistry::default(), &Err(IoErrorKind::NotFound), &alsa());
    assert_eq!(report.devices.len(), 0);
    assert_eq!(report.failures.len(), 1);
    assert_eq!(report.failures[0].kind, DiscoveryFailureKind::NotFound);
}

#[test]
fn permission_failure_kind_is_explicit() {
    let failure = failure(DiscoverySource::UsbSysfs, "idVendor", IoErrorKind::PermissionDenied);
    assert_eq!(failure.kind, DiscoveryFailureKind::PermissionDenied);
}

#[test]
fn other_read_failures_keep_their_kind() {
    let failure = failure(DiscoverySource::AlsaSysfs, "card0", IoErrorKind::TimedOut);
    assert_eq!(failure.kind, DiscoveryFailureKind::Io { kind: IoErrorKind::TimedOut });
    assert_eq!(failure.path, "card0");
    assert_eq!(failure.source, DiscoverySource::AlsaSysfs);

    for kind in [IoErrorKind::NotADirectory, IoErrorKind::IsADirectory, IoErrorKind::Uncategorized] {
        let mut entry = usb_entry("0070\n");
        entry.vendor = Err(kind);
        let report = discover_devices(&DeviceRegistry::default(), &Ok(vec![Ok(entry)]), &alsa());
        assert!(report.devices.is_empty());
        assert_eq!(report.failures[0].kind, DiscoveryFailureKind::Io { kind });
    }
}

#[test]
fn parses_alsa_summary_fixture() {
    let summary = parse_alsa_summary(CARDS);
    let card = find_summary(&summary, 7).expect("card");
    assert_eq!(card.id, "Wave3");
    assert_eq!(card.name.as_deref(), Some("Elgato Wave:3"));
}

#[test]
fn the_last_summary_line_of_a_card_counts() {
    let summary = parse_alsa_summary(
        " 0 [A ]: x - First\nnoise\n 1 [B]: no separator\n 0 [C ]: x - Second - part\n",
    );
    assert_eq!(summary.len(), 3);
    let card = find_summary(&summary, 0).expect("card");
    assert_eq!((card.id.as_str(), card.name.as_deref()), ("C", Some("Second - part")));
    assert_eq!(find_summary(&summary, 1).expect("card").name, None);
    assert!(find_summary(&summary, 2).is_none());
}

#[test]
fn usb_numbers_are_hexadecimal() {
    assert_eq!(parse_usb_number("0fd9"), Some(0x0fd9));
    assert_eq!(parse_usb_number("FFFF"), Some(0xffff));
    assert_eq!(parse_usb_number("10000"), None);
    assert_eq!(parse_usb_number("wave"), None);
    assert_eq!(parse_usb_number(""), None);
    assert_eq!(parse_usb_identity("0fd9", "0070"), Ok(UsbIdentity::new(0x0fd9, 0x0070)));
    assert_eq!(parse_usb_identity("x", "y"), Err("idVendor"));
    assert_eq!(parse_usb_identity("0fd9", "y"), Err("idProduct"));
}

#[test]
fn card_entries_are_numbered() {
    assert_eq!(parse_card_number("card7"), Some(7));
    assert_eq!(parse_card_number("card"), None);
    assert_eq!(parse_card_number("controlC7"), None);
    assert_eq!(parse_card_number("card7x"), None);
    assert_eq!(parse_card_number("card4294967296"), None);
    assert_eq!(card_id_path(12), "card12/id");
}

#[test]
fn an_invalid_attribute_is_reported_by_field() {
    let registry = DeviceRegistry::default();
    let mut entry = usb_entry("zz");
    entry.name = String::from("2-1");
    let report = discover_devices(&registry, &Ok(vec![Ok(entry)]), &alsa());
    assert!(report.devices.is_empty());
    assert_eq!(report.failures.len(), 1);
    assert_eq!(report.failures[0].path, "2-1");
    assert_eq!(
        report.failures[0].kind,
        DiscoveryFailureKind::InvalidValue { field: "idProduct" }
    );
}

#[test]
fn unreadable_alsa_interfaces_do_not_hide_a_device() {
    let registry = DeviceRegistry::default();
    let silent = AlsaObservation {
        summary: Err(IoErrorKind::NotFound),
        entries: Err(IoErrorKind::PermissionDenied),
    };
    let report = discover_devices(&registry, &Ok(vec![Ok(usb_entry("0070"))]), &silent);
    assert_eq!(report.devices.len(), 1);
    assert!(report.devices[0].alsa_cards.is_empty());
    let kinds: Vec<_> =
        report.failures.iter().map(|failure| (failure.source, failure.kind)).collect();
    assert_eq!(
        kinds,
        [
            (DiscoverySource::AlsaProcfs, DiscoveryFailureKind::NotFound),
            (DiscoverySource::AlsaSysfs, DiscoveryFailureKind::PermissionDenied),
        ]
    );
}

#[test]
fn a_card_without_an_identifier_falls_back_to_the_summary() {
    let mut failures = Vec::new();
    let mut entry = sound_entry();
    entry.id = Err(IoErrorKind::NotFound);
    let observation =
        AlsaObservation { summary: Ok(String::from(CARDS)), entries: Ok(vec![Ok(entry)]) };
    let cards = read_alsa_cards(&observation, &mut failures);
    assert_eq!(cards[0].info.id.as_deref(), Some("Wave3"));
}

#[test]
fn only_cards_below_a_device_are_its_own() {
    let card = |device_path| AlsaCardObservation {
        info: AlsaCardInfo { number: 7, id: None, name: None },
        device_path,
    };
    assert!(card_matches_usb(&card(card_target()), &Some(usb_target())));
    assert!(!card_matches_usb(&card(card_target()), &None));
    let sibling = path(&["/", "sys", "devices", "pci", "usb1", "1-8.30", "sound", "card7"]);
    assert!(!card_matches_usb(&card(sibling), &Some(usb_target())));
}

#[test]
fn an_inventory_uses_its_own_registry() {
    let usb = Ok(vec![Ok(usb_entry("0070"))]);
    assert_eq!(LinuxInventory::new().discover(&usb, &alsa()).devices.len(), 1);
    let empty = LinuxInventory::with_registry(DeviceRegistry::new(Vec::new()));
    assert!(empty.discover(&usb, &alsa()).devices.is_empty());
    let mut registry = DeviceRegistry::new(Vec::new());
    registry.register(DeviceDefinition::wave3());
    let full = LinuxInventory::with_registry(registry);
    assert_eq!(full.discover(&usb, &alsa()).devices.len(), 1);
}

#[test]
fn the_default_paths_are_the_kernel_ones() {
    let paths = DiscoveryPaths::default();
    assert_eq!(paths.usb_devices, "/sys/bus/usb/devices");
    assert_eq!(paths.sound_cards, "/sys/class/sound");
    assert_eq!(paths.asound_cards, "/proc/asound/cards");
    assert_eq!(paths.asound_root, "/proc/asound");
}
