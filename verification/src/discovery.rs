//! Read-only USB, sysfs, and ALSA discovery.
//!
//! The caller reads the filesystem; this module turns what was read into a
//! report.

use crate::device::{
    card_views, candidate_views, definition_for, optional_text, AlsaCardInfo, AlsaCardView,
    CandidateView, DeviceDefinition, DeviceIdentity, DeviceRegistry, UsbDeviceCandidate,
    UsbIdentity, UsbTopology,
};
use crate::parse::{
    characters, find_char, find_part, first_char, first_occurrence, has_prefix, is_digit, is_space,
    law_decimal_is_read_back, law_first_char_is_the_first, law_hexadecimal_is_read_back,
    leading_space, parse_number, parsed_number, starts_with, text_of, trim, trim_start, trimmed,
    trimmed_start,
};
use crate::text::{decimal, decimal_text, hex4};
use vstd::prelude::*;
use vstd::slice::slice_subrange;
use vstd::string::*;

verus! {

/// The class of a failed system operation.
#[derive(Clone, Copy, Debug, Eq, PartialEq, Structural)]
pub enum IoErrorKind {
    NotFound,
    PermissionDenied,
    ConnectionRefused,
    ConnectionReset,
    ConnectionAborted,
    NotConnected,
    AddrInUse,
    BrokenPipe,
    AlreadyExists,
    WouldBlock,
    InvalidInput,
    InvalidData,
    TimedOut,
    WriteZero,
    Interrupted,
    Unsupported,
    UnexpectedEof,
    OutOfMemory,
    HostUnreachable,
    NetworkUnreachable,
    NetworkDown,
    AddrNotAvailable,
    NotADirectory,
    IsADirectory,
    DirectoryNotEmpty,
    ReadOnlyFilesystem,
    StaleNetworkFileHandle,
    StorageFull,
    NotSeekable,
    QuotaExceeded,
    FileTooLarge,
    ResourceBusy,
    ExecutableFileBusy,
    Deadlock,
    CrossesDevices,
    TooManyLinks,
    InvalidFilename,
    ArgumentListTooLong,
    Other,
    /// A class that the standard library does not name.
    Uncategorized,
}

/// The source of a discovery observation or failure.
#[derive(Clone, Copy, Debug, Eq, PartialEq, Structural)]
pub enum DiscoverySource {
    /// USB sysfs entries.
    UsbSysfs,
    /// ALSA sysfs card links.
    AlsaSysfs,
    /// ALSA procfs inventory.
    AlsaProcfs,
}

/// Failure classes are kept separate so callers can distinguish permissions
/// from absence and malformed host data.
#[derive(Clone, Copy, Debug, Eq, PartialEq)]
pub enum DiscoveryFailureKind {
    /// The process was denied access to the interface.
    PermissionDenied,
    /// The interface or attribute does not exist.
    NotFound,
    /// The kernel returned another I/O error.
    Io { kind: IoErrorKind },
    /// A readable attribute did not match the expected format.
    InvalidValue { field: &'static str },
}

/// A classified failure from a read-only discovery operation.
#[derive(Clone, Debug, Eq, PartialEq)]
pub struct DiscoveryFailure {
    /// The Linux interface that could not be read or parsed.
    pub source: DiscoverySource,
    /// A path relative to the configured interface root where possible.
    pub path: String,
    /// The explicit failure class.
    pub kind: DiscoveryFailureKind,
}

/// What a failure class holds.
pub enum FailureKindView {
    PermissionDenied,
    NotFound,
    Io { kind: IoErrorKind },
    InvalidValue { field: Seq<char> },
}

/// What a failure holds.
pub struct FailureView {
    pub source: DiscoverySource,
    pub path: Seq<char>,
    pub kind: FailureKindView,
}

impl View for DiscoveryFailureKind {
    type V = FailureKindView;

    open spec fn view(&self) -> FailureKindView {
        match *self {
            DiscoveryFailureKind::PermissionDenied => FailureKindView::PermissionDenied,
            DiscoveryFailureKind::NotFound => FailureKindView::NotFound,
            DiscoveryFailureKind::Io { kind } => FailureKindView::Io { kind },
            DiscoveryFailureKind::InvalidValue { field } => FailureKindView::InvalidValue {
                field: field@,
            },
        }
    }
}

impl View for DiscoveryFailure {
    type V = FailureView;

    open spec fn view(&self) -> FailureView {
        FailureView { source: self.source, path: self.path@, kind: self.kind@ }
    }
}

/// What each failure holds.
pub open spec fn failure_views(failures: Seq<DiscoveryFailure>) -> Seq<FailureView> {
    Seq::new(failures.len(), |i: int| failures[i]@)
}

/// Results from a filesystem discovery pass.
#[derive(Clone, Debug, Eq, PartialEq)]
pub struct DiscoveryReport {
    /// Supported devices found in sysfs.
    pub devices: Vec<UsbDeviceCandidate>,
    /// Non-fatal and root-level failures encountered while reading interfaces.
    pub failures: Vec<DiscoveryFailure>,
}

/// What a report holds.
pub struct ReportView {
    pub devices: Seq<CandidateView>,
    pub failures: Seq<FailureView>,
}

impl View for DiscoveryReport {
    type V = ReportView;

    open spec fn view(&self) -> ReportView {
        ReportView {
            devices: candidate_views(self.devices@),
            failures: failure_views(self.failures@),
        }
    }
}

impl Default for DiscoveryReport {
    fn default() -> (report: Self)
        ensures
            report.devices@ == Seq::<UsbDeviceCandidate>::empty(),
            report.failures@ == Seq::<DiscoveryFailure>::empty(),
    {
        DiscoveryReport { devices: Vec::new(), failures: Vec::new() }
    }
}

/// The failure class of a failed read.
pub open spec fn read_failure(kind: IoErrorKind) -> FailureKindView {
    match kind {
        IoErrorKind::PermissionDenied => FailureKindView::PermissionDenied,
        IoErrorKind::NotFound => FailureKindView::NotFound,
        _ => FailureKindView::Io { kind },
    }
}

/// Records a failed read of `path`, relative to its interface root.
pub fn failure(source: DiscoverySource, path: &str, kind: IoErrorKind) -> (failure:
    DiscoveryFailure)
    ensures
        failure@ == (FailureView { source, path: path@, kind: read_failure(kind) }),
{
    DiscoveryFailure {
        source,
        path: String::from_str(path),
        kind: match kind {
            IoErrorKind::PermissionDenied => DiscoveryFailureKind::PermissionDenied,
            IoErrorKind::NotFound => DiscoveryFailureKind::NotFound,
            _ => DiscoveryFailureKind::Io { kind },
        },
    }
}

/// `text` without every leading `0x`.
pub open spec fn without_hex_prefix(text: Seq<char>) -> Seq<char>
    decreases text.len(),
{
    if text.len() >= 2 && text[0] == '0' && text[1] == 'x' {
        without_hex_prefix(text.skip(2))
    } else {
        text
    }
}

/// The 16-bit number that a USB attribute holds.
pub open spec fn usb_number(text: Seq<char>) -> Option<nat> {
    parsed_number(without_hex_prefix(text), 16, 0xffff)
}

/// Parses the 16-bit hexadecimal number of a USB attribute.
pub fn parse_usb_number(text: &str) -> (result: Option<u16>)
    ensures
        match result {
            Some(value) => usb_number(text@) == Some(value as nat),
            None => usb_number(text@) is None,
        },
{
    let all = characters(text);
    let length: usize = all.len();
    let mut start: usize = 0;
    proof {
        assert(all@.skip(0) =~= all@);
    }
    while length - start >= 2 && all[start] == '0' && all[start + 1] == 'x'
        invariant
            length == all@.len(),
            start <= length,
            without_hex_prefix(all@) == without_hex_prefix(all@.skip(start as int)),
        decreases length - start,
    {
        proof {
            assert(all@.skip(start as int).skip(2) =~= all@.skip(start + 2));
        }
        start = start + 2;
    }
    let digits = slice_subrange(all.as_slice(), start, length);
    proof {
        assert(digits@ =~= all@.skip(start as int));
    }
    match parse_number(digits, 16, 0xffff) {
        Some(value) => Some(value as u16),
        None => None,
    }
}

/// The USB pair of two attributes, or the name of the malformed one.
pub open spec fn usb_identity(vendor: Seq<char>, product: Seq<char>) -> Result<
    UsbIdentity,
    Seq<char>,
> {
    match (usb_number(vendor), usb_number(product)) {
        (None, _) => Err("idVendor"@),
        (Some(_), None) => Err("idProduct"@),
        (Some(vendor_id), Some(product_id)) => Ok(
            UsbIdentity { vendor_id: vendor_id as u16, product_id: product_id as u16 },
        ),
    }
}

/// Parses the USB pair of two attributes; the error names the malformed one.
pub fn parse_usb_identity(vendor: &str, product: &str) -> (result: Result<
    UsbIdentity,
    &'static str,
>)
    ensures
        match result {
            Ok(identity) => usb_identity(vendor@, product@) == Ok::<UsbIdentity, Seq<char>>(
                identity,
            ),
            Err(field) => usb_identity(vendor@, product@) == Err::<UsbIdentity, Seq<char>>(field@),
        },
{
    let vendor_id: u16 = match parse_usb_number(vendor) {
        Some(value) => value,
        None => {
            return Err("idVendor");
        },
    };
    let product_id: u16 = match parse_usb_number(product) {
        Some(value) => value,
        None => {
            return Err("idProduct");
        },
    };
    Ok(UsbIdentity::new(vendor_id, product_id))
}

/// One card line of `/proc/asound/cards`.
#[derive(Clone, Debug, Eq, PartialEq)]
pub struct SummaryCard {
    pub number: u32,
    pub id: String,
    pub name: Option<String>,
}

/// What a card line holds.
pub struct SummaryCardView {
    pub number: u32,
    pub id: Seq<char>,
    pub name: Option<Seq<char>>,
}

impl View for SummaryCard {
    type V = SummaryCardView;

    open spec fn view(&self) -> SummaryCardView {
        SummaryCardView { number: self.number, id: self.id@, name: optional_text(self.name) }
    }
}

/// What each card line holds.
pub open spec fn summary_views(cards: Seq<SummaryCard>) -> Seq<SummaryCardView> {
    Seq::new(cards.len(), |i: int| cards[i]@)
}

/// The card that one line of `/proc/asound/cards` describes: a number, an
/// identifier in square brackets, and a name behind the first ` - `.
pub open spec fn card_line(line: Seq<char>) -> Option<SummaryCardView> {
    let text = trimmed_start(line);
    let space = first_char(text, ' ') as int;
    let number = parsed_number(text.take(space), 10, 0xffff_ffff);
    let rest = text.skip(space + 1);
    let close = first_char(rest, ']') as int;
    let behind = rest.skip(close + 1);
    if space >= text.len() || number is None || close >= rest.len() || close == 0 || rest[0] != '[' {
        None
    } else {
        Some(
            SummaryCardView {
                number: number->Some_0 as u32,
                id: trimmed(rest.subrange(1, close)),
                name: match first_occurrence(behind, " - "@) {
                    Some(dash) => Some(trimmed(behind.skip(dash as int + 3))),
                    None => None,
                },
            },
        )
    }
}

/// Parses one line of `/proc/asound/cards`.
pub fn parse_card_line(line: &[char]) -> (result: Option<SummaryCard>)
    ensures
        match result {
            Some(card) => card_line(line@) == Some(card@),
            None => card_line(line@) is None,
        },
{
    let text = trim_start(line);
    let space: usize = find_char(text, ' ');
    if space >= text.len() {
        return None;
    }
    let number: u32 = match parse_number(slice_subrange(text, 0, space), 10, 0xffff_ffff) {
        Some(number) => number as u32,
        None => {
            return None;
        },
    };
    let rest = slice_subrange(text, space + 1, text.len());
    let close: usize = find_char(rest, ']');
    if close >= rest.len() || close == 0 || rest[0] != '[' {
        return None;
    }
    let id = text_of(trim(slice_subrange(rest, 1, close)));
    let behind = slice_subrange(rest, close + 1, rest.len());
    let dash = characters(" - ");
    proof {
        reveal_strlit(" - ");
        assert(text@.take(space as int) =~= text@.subrange(0, space as int));
        assert(rest@ =~= text@.skip(space + 1));
        assert(behind@ =~= rest@.skip(close + 1));
    }
    let name = match find_part(behind, dash.as_slice()) {
        Some(position) => {
            let tail = slice_subrange(behind, position + 3, behind.len());
            proof {
                assert(tail@ =~= behind@.skip(position + 3));
            }
            Some(text_of(trim(tail)))
        },
        None => None,
    };
    Some(SummaryCard { number, id, name })
}

/// A line without the carriage return before its line feed.
pub open spec fn without_return(line: Seq<char>) -> Seq<char> {
    if line.len() > 0 && line.last() == '\r' {
        line.drop_last()
    } else {
        line
    }
}

/// The cards that the lines of `/proc/asound/cards` describe, in order.
pub open spec fn summary_cards(text: Seq<char>) -> Seq<SummaryCardView>
    decreases text.len(),
{
    let end = first_char(text, '\n') as int;
    let line = if end < text.len() {
        without_return(text.take(end))
    } else {
        text
    };
    let first = match card_line(line) {
        Some(card) => seq![card],
        None => Seq::<SummaryCardView>::empty(),
    };
    if end < text.len() {
        first + summary_cards(text.skip(end + 1))
    } else {
        first
    }
}

/// Parses `/proc/asound/cards`; lines that do not describe a card are skipped.
pub fn parse_alsa_summary(summary: &str) -> (cards: Vec<SummaryCard>)
    ensures
        summary_views(cards@) == summary_cards(summary@),
{
    let all = characters(summary);
    let length: usize = all.len();
    let mut cards: Vec<SummaryCard> = Vec::new();
    let mut start: usize = 0;
    proof {
        assert(all@.skip(0) =~= all@);
        assert(summary_views(cards@) + summary_cards(all@) =~= summary_cards(all@));
    }
    loop
        invariant
            length == all@.len(),
            all@ == summary@,
            start <= length,
            summary_cards(summary@) == summary_views(cards@) + summary_cards(
                all@.skip(start as int),
            ),
        decreases length - start,
    {
        let rest = slice_subrange(all.as_slice(), start, length);
        proof {
            assert(rest@ =~= all@.skip(start as int));
        }
        let end: usize = find_char(rest, '\n');
        let terminated = end < rest.len();
        let returned = terminated && end > 0 && rest[end - 1] == '\r';
        let line = if returned {
            slice_subrange(rest, 0, end - 1)
        } else if terminated {
            slice_subrange(rest, 0, end)
        } else {
            rest
        };
        proof {
            if terminated {
                assert(without_return(rest@.take(end as int)) =~= line@);
            }
        }
        let ghost before = summary_views(cards@);
        if let Some(card) = parse_card_line(line) {
            let ghost held = cards@;
            cards.push(card);
            proof {
                assert(summary_views(held.push(card)) =~= before + seq![card@]);
            }
        }
        proof {
            let first = match card_line(line@) {
                Some(card) => seq![card],
                None => Seq::<SummaryCardView>::empty(),
            };
            assert(summary_views(cards@) =~= before + first);
            if terminated {
                assert(rest@.skip(end + 1) =~= all@.skip(start + end + 1));
                assert(before + (first + summary_cards(rest@.skip(end + 1))) =~= (before + first)
                    + summary_cards(rest@.skip(end + 1)));
            }
        }
        if !terminated {
            return cards;
        }
        start = start + end + 1;
    }
}

/// The last line about card `number`, if there is one.
pub open spec fn summary_of(cards: Seq<SummaryCardView>, number: u32) -> Option<SummaryCardView>
    decreases cards.len(),
{
    if cards.len() == 0 {
        None
    } else if cards.last().number == number {
        Some(cards.last())
    } else {
        summary_of(cards.drop_last(), number)
    }
}

/// Finds the last line about card `number`.
pub fn find_summary(cards: &Vec<SummaryCard>, number: u32) -> (found: Option<&SummaryCard>)
    ensures
        match found {
            Some(card) => summary_of(summary_views(cards@), number) == Some(card@),
            None => summary_of(summary_views(cards@), number) is None,
        },
{
    let mut end: usize = cards.len();
    proof {
        assert(cards@.take(end as int) =~= cards@);
    }
    while end > 0
        invariant
            end <= cards@.len(),
            summary_of(summary_views(cards@), number) == summary_of(
                summary_views(cards@.take(end as int)),
                number,
            ),
        decreases end,
    {
        proof {
            let views = summary_views(cards@.take(end as int));
            assert(views.drop_last() =~= summary_views(cards@.take(end - 1)));
            assert(views.last() == cards@[end - 1]@);
        }
        if cards[end - 1].number == number {
            return Some(&cards[end - 1]);
        }
        end = end - 1;
    }
    None
}

/// What was read of one entry of the ALSA card directory.
#[derive(Debug, Eq, PartialEq)]
pub struct SoundEntry {
    /// The entry's name.
    pub name: String,
    /// The components of the resolved device path behind the entry.
    pub device: Result<Vec<String>, IoErrorKind>,
    /// The text of the card's identifier file.
    pub id: Result<String, IoErrorKind>,
}

/// What was read of the ALSA interfaces.
#[derive(Debug, Eq, PartialEq)]
pub struct AlsaObservation {
    /// The text of the card summary.
    pub summary: Result<String, IoErrorKind>,
    /// The entries of the card directory.
    pub entries: Result<Vec<Result<SoundEntry, IoErrorKind>>, IoErrorKind>,
}

/// What was read of one entry of the USB device directory.
#[derive(Debug, Eq, PartialEq)]
pub struct UsbEntry {
    /// The entry's name.
    pub name: String,
    /// The text of the vendor attribute.
    pub vendor: Result<String, IoErrorKind>,
    /// The text of the product attribute.
    pub product: Result<String, IoErrorKind>,
    /// The components of the entry's resolved path, where it resolves.
    pub location: Option<Vec<String>>,
}

/// A path as the characters of its components.
pub open spec fn path_view(path: Seq<String>) -> Seq<Seq<char>> {
    Seq::new(path.len(), |i: int| path[i]@)
}

/// An optional path as the characters of its components.
pub open spec fn optional_path(path: Option<Vec<String>>) -> Option<Seq<Seq<char>>> {
    match path {
        Some(path) => Some(path_view(path@)),
        None => None,
    }
}

/// One ALSA card and the components of its device path.
#[derive(Debug)]
pub struct AlsaCardObservation {
    pub info: AlsaCardInfo,
    pub device_path: Vec<String>,
}

/// What a card observation holds.
pub struct CardObservationView {
    pub info: AlsaCardView,
    pub device_path: Seq<Seq<char>>,
}

impl View for AlsaCardObservation {
    type V = CardObservationView;

    open spec fn view(&self) -> CardObservationView {
        CardObservationView { info: self.info@, device_path: path_view(self.device_path@) }
    }
}

/// What each card observation holds.
pub open spec fn observation_views(cards: Seq<AlsaCardObservation>) -> Seq<CardObservationView> {
    Seq::new(cards.len(), |i: int| cards[i]@)
}

/// The card number in an entry name `cardN`.
pub open spec fn card_number(name: Seq<char>) -> Option<nat> {
    if starts_with(name, "card"@) {
        parsed_number(name.skip(4), 10, 0xffff_ffff)
    } else {
        None
    }
}

/// Parses the card number in an entry name `cardN`.
pub fn parse_card_number(name: &str) -> (result: Option<u32>)
    ensures
        match result {
            Some(number) => card_number(name@) == Some(number as nat),
            None => card_number(name@) is None,
        },
{
    let all = characters(name);
    let prefix = characters("card");
    proof {
        reveal_strlit("card");
    }
    if !has_prefix(all.as_slice(), prefix.as_slice()) {
        return None;
    }
    let digits = slice_subrange(all.as_slice(), 4, all.len());
    proof {
        assert(digits@ =~= all@.skip(4));
    }
    match parse_number(digits, 10, 0xffff_ffff) {
        Some(number) => Some(number as u32),
        None => None,
    }
}

/// The path, below the ALSA card directory, of a card's identifier file.
pub open spec fn id_path(number: nat) -> Seq<char> {
    "card"@ + decimal(number) + "/id"@
}

/// Names a card's identifier file below the ALSA card directory.
pub fn card_id_path(number: u32) -> (path: String)
    ensures
        path@ == id_path(number as nat),
{
    let mut path = String::from_str("card");
    path.append(decimal_text(number as u64).as_str());
    path.append("/id");
    path
}

/// The text of an optional file: absence is no failure.
pub open spec fn file_text(read: Result<String, IoErrorKind>) -> Option<Seq<char>> {
    match read {
        Ok(text) => Some(trimmed(text@)),
        Err(_) => None,
    }
}

/// The failure of an optional file, where it is one.
pub open spec fn file_failure(
    read: Result<String, IoErrorKind>,
    source: DiscoverySource,
    path: Seq<char>,
) -> Seq<FailureView> {
    match read {
        Ok(_) => Seq::empty(),
        Err(IoErrorKind::NotFound) => Seq::empty(),
        Err(kind) => seq![FailureView { source, path, kind: read_failure(kind) }],
    }
}

/// Takes the trimmed text of an optional file and records a real failure.
pub fn take_text(
    read: &Result<String, IoErrorKind>,
    source: DiscoverySource,
    path: &str,
    failures: &mut Vec<DiscoveryFailure>,
) -> (text: Option<String>)
    ensures
        optional_text(text) == file_text(*read),
        failure_views(final(failures)@) == failure_views(old(failures)@) + file_failure(
            *read,
            source,
            path@,
        ),
{
    match read {
        Ok(text) => {
            proof {
                assert(failure_views(failures@) + Seq::<FailureView>::empty() =~= failure_views(
                    failures@,
                ));
            }
            let all = characters(text.as_str());
            Some(text_of(trim(all.as_slice())))
        },
        Err(kind) => {
            if *kind != IoErrorKind::NotFound {
                push_failure(failures, failure(source, path, *kind));
            } else {
                proof {
                    assert(failure_views(failures@) + Seq::<FailureView>::empty()
                        =~= failure_views(failures@));
                }
            }
            None
        },
    }
}

fn push_failure(failures: &mut Vec<DiscoveryFailure>, failure: DiscoveryFailure)
    ensures
        failure_views(final(failures)@) == failure_views(old(failures)@) + seq![failure@],
{
    let ghost before = failures@;
    failures.push(failure);
    proof {
        assert(failure_views(failures@) =~= failure_views(before) + seq![failure@]);
    }
}

/// The failures that one entry of the ALSA card directory causes.
pub open spec fn sound_failures(entry: Result<SoundEntry, IoErrorKind>) -> Seq<FailureView> {
    match entry {
        Err(kind) => seq![
            FailureView {
                source: DiscoverySource::AlsaSysfs,
                path: ""@,
                kind: read_failure(kind),
            },
        ],
        Ok(entry) => match card_number(entry.name@) {
            None => Seq::empty(),
            Some(number) => match entry.device {
                Err(kind) => seq![
                    FailureView {
                        source: DiscoverySource::AlsaSysfs,
                        path: entry.name@ + "/device"@,
                        kind: read_failure(kind),
                    },
                ],
                Ok(_) => file_failure(entry.id, DiscoverySource::AlsaProcfs, id_path(number)),
            },
        },
    }
}

/// The card that one entry of the ALSA card directory describes, if it does. Its
/// own identifier file takes precedence over the summary.
pub open spec fn sound_cards(
    entry: Result<SoundEntry, IoErrorKind>,
    summary: Seq<SummaryCardView>,
) -> Seq<CardObservationView> {
    match entry {
        Err(_) => Seq::empty(),
        Ok(entry) => match (card_number(entry.name@), entry.device) {
            (Some(number), Ok(device)) => {
                let line = summary_of(summary, number as u32);
                seq![
                    CardObservationView {
                        info: AlsaCardView {
                            number: number as u32,
                            id: match (file_text(entry.id), line) {
                                (Some(id), _) => Some(id),
                                (None, Some(card)) => Some(card.id),
                                (None, None) => None,
                            },
                            name: match line {
                                Some(card) => card.name,
                                None => None,
                            },
                        },
                        device_path: path_view(device@),
                    },
                ]
            },
            _ => Seq::empty(),
        },
    }
}

/// The failures of all entries of the ALSA card directory.
pub open spec fn all_sound_failures(entries: Seq<Result<SoundEntry, IoErrorKind>>) -> Seq<
    FailureView,
>
    decreases entries.len(),
{
    if entries.len() == 0 {
        Seq::empty()
    } else {
        all_sound_failures(entries.drop_last()) + sound_failures(entries.last())
    }
}

/// The cards of all entries of the ALSA card directory.
pub open spec fn all_sound_cards(
    entries: Seq<Result<SoundEntry, IoErrorKind>>,
    summary: Seq<SummaryCardView>,
) -> Seq<CardObservationView>
    decreases entries.len(),
{
    if entries.len() == 0 {
        Seq::empty()
    } else {
        all_sound_cards(entries.drop_last(), summary) + sound_cards(entries.last(), summary)
    }
}

/// The card summary that was read; an unreadable one is empty.
pub open spec fn summary_text(alsa: AlsaObservation) -> Seq<char> {
    match alsa.summary {
        Ok(text) => text@,
        Err(_) => Seq::empty(),
    }
}

/// The failures of reading the ALSA interfaces.
pub open spec fn alsa_failures(alsa: AlsaObservation) -> Seq<FailureView> {
    let first = match alsa.summary {
        Ok(_) => Seq::<FailureView>::empty(),
        Err(kind) => seq![
            FailureView {
                source: DiscoverySource::AlsaProcfs,
                path: ""@,
                kind: read_failure(kind),
            },
        ],
    };
    first + match alsa.entries {
        Err(kind) => seq![
            FailureView {
                source: DiscoverySource::AlsaSysfs,
                path: ""@,
                kind: read_failure(kind),
            },
        ],
        Ok(entries) => all_sound_failures(entries@),
    }
}

/// The cards that reading the ALSA interfaces found.
pub open spec fn alsa_cards(alsa: AlsaObservation) -> Seq<CardObservationView> {
    match alsa.entries {
        Err(_) => Seq::empty(),
        Ok(entries) => all_sound_cards(entries@, summary_cards(summary_text(alsa))),
    }
}

fn copy_path(path: &Vec<String>) -> (copy: Vec<String>)
    ensures
        path_view(copy@) == path_view(path@),
{
    let mut copy: Vec<String> = Vec::new();
    for index in 0..path.len()
        invariant
            copy@.len() == index,
            forall|i: int| 0 <= i < index ==> (#[trigger] copy@[i])@ == path@[i]@,
    {
        copy.push(path[index].clone());
    }
    proof {
        assert(path_view(copy@) =~= path_view(path@));
    }
    copy
}

fn read_sound_entry(
    entry: &Result<SoundEntry, IoErrorKind>,
    summary: &Vec<SummaryCard>,
    failures: &mut Vec<DiscoveryFailure>,
) -> (card: Option<AlsaCardObservation>)
    ensures
        failure_views(final(failures)@) == failure_views(old(failures)@) + sound_failures(*entry),
        match card {
            Some(card) => sound_cards(*entry, summary_views(summary@)) == seq![card@],
            None => sound_cards(*entry, summary_views(summary@)) == Seq::<
                CardObservationView,
            >::empty(),
        },
{
    let ghost before = failure_views(failures@);
    proof {
        assert(before + Seq::<FailureView>::empty() =~= before);
    }
    let entry = match entry {
        Ok(entry) => entry,
        Err(kind) => {
            push_failure(failures, failure(DiscoverySource::AlsaSysfs, "", *kind));
            return None;
        },
    };
    let number: u32 = match parse_card_number(entry.name.as_str()) {
        Some(number) => number,
        None => {
            return None;
        },
    };
    let device_path = match &entry.device {
        Ok(path) => copy_path(path),
        Err(kind) => {
            let mut link = entry.name.clone();
            link.append("/device");
            push_failure(failures, failure(DiscoverySource::AlsaSysfs, link.as_str(), *kind));
            return None;
        },
    };
    let path = card_id_path(number);
    let own_id = take_text(&entry.id, DiscoverySource::AlsaProcfs, path.as_str(), failures);
    let line = find_summary(summary, number);
    let id = match own_id {
        Some(id) => Some(id),
        None => match line {
            Some(card) => Some(card.id.clone()),
            None => None,
        },
    };
    let name = match line {
        Some(card) => crate::device::copy_optional(&card.name),
        None => None,
    };
    Some(AlsaCardObservation { info: AlsaCardInfo { number, id, name }, device_path })
}

/// Turns what was read of the ALSA interfaces into cards and failures.
pub fn read_alsa_cards(alsa: &AlsaObservation, failures: &mut Vec<DiscoveryFailure>) -> (cards: Vec<
    AlsaCardObservation,
>)
    ensures
        failure_views(final(failures)@) == failure_views(old(failures)@) + alsa_failures(*alsa),
        observation_views(cards@) == alsa_cards(*alsa),
        alsa.entries is Ok ==> forall|i: int|
            0 <= i < alsa.entries->Ok_0@.len() && is_card_entry(
                #[trigger] alsa.entries->Ok_0@[i],
            ) ==> exists|j: int|
                0 <= j < cards@.len() && card_number(alsa.entries->Ok_0@[i]->Ok_0.name@) == Some(
                    (#[trigger] cards@[j]).info.number as nat,
                ) && path_view(cards@[j].device_path@) == path_view(
                    alsa.entries->Ok_0@[i]->Ok_0.device->Ok_0@,
                ),
{
    let ghost start = failure_views(failures@);
    let summary = match &alsa.summary {
        Ok(text) => parse_alsa_summary(text.as_str()),
        Err(kind) => {
            push_failure(failures, failure(DiscoverySource::AlsaProcfs, "", *kind));
            let summary = parse_alsa_summary("");
            proof {
                reveal_strlit("");
                assert(""@ =~= Seq::<char>::empty());
            }
            summary
        },
    };
    let ghost first = match alsa.summary {
        Ok(_) => Seq::<FailureView>::empty(),
        Err(kind) => seq![
            FailureView {
                source: DiscoverySource::AlsaProcfs,
                path: ""@,
                kind: read_failure(kind),
            },
        ],
    };
    let ghost middle = failure_views(failures@);
    proof {
        assert(middle =~= start + first);
    }
    let mut cards: Vec<AlsaCardObservation> = Vec::new();
    let entries = match &alsa.entries {
        Ok(entries) => entries,
        Err(kind) => {
            push_failure(failures, failure(DiscoverySource::AlsaSysfs, "", *kind));
            proof {
                assert(failure_views(failures@) =~= start + alsa_failures(*alsa));
                assert(observation_views(cards@) =~= Seq::<CardObservationView>::empty());
            }
            return cards;
        },
    };
    proof {
        assert(entries@.take(0) =~= Seq::<Result<SoundEntry, IoErrorKind>>::empty());
        assert(middle + Seq::<FailureView>::empty() =~= middle);
        assert(observation_views(cards@) =~= Seq::<CardObservationView>::empty());
    }
    for index in 0..entries.len()
        invariant
            failure_views(failures@) == middle + all_sound_failures(entries@.take(index as int)),
            observation_views(cards@) == all_sound_cards(
                entries@.take(index as int),
                summary_views(summary@),
            ),
    {
        let ghost held = cards@;
        let ghost found = observation_views(cards@);
        let card = read_sound_entry(&entries[index], &summary, failures);
        proof {
            let prefix = entries@.take(index + 1);
            assert(prefix.drop_last() =~= entries@.take(index as int));
            assert(prefix.last() == entries@[index as int]);
            assert(middle + (all_sound_failures(entries@.take(index as int)) + sound_failures(
                entries@[index as int],
            )) =~= (middle + all_sound_failures(entries@.take(index as int))) + sound_failures(
                entries@[index as int],
            ));
        }
        if let Some(card) = card {
            cards.push(card);
            proof {
                assert(observation_views(held.push(card)) =~= found + seq![card@]);
            }
        } else {
            proof {
                assert(found + Seq::<CardObservationView>::empty() =~= found);
            }
        }
    }
    proof {
        assert(entries@.take(entries@.len() as int) =~= entries@);
        assert(failure_views(failures@) =~= start + alsa_failures(*alsa));
        assert forall|i: int|
            0 <= i < alsa.entries->Ok_0@.len() && is_card_entry(
                #[trigger] alsa.entries->Ok_0@[i],
            ) implies exists|j: int|
            0 <= j < cards@.len() && card_number(alsa.entries->Ok_0@[i]->Ok_0.name@) == Some(
                (#[trigger] cards@[j]).info.number as nat,
            ) && path_view(cards@[j].device_path@) == path_view(
                alsa.entries->Ok_0@[i]->Ok_0.device->Ok_0@,
            ) by {
            law_every_card_is_found(*alsa, i);
            let found = choose|j: int|
                0 <= j < alsa_cards(*alsa).len() && describes(
                    #[trigger] alsa_cards(*alsa)[j],
                    alsa.entries->Ok_0@[i]->Ok_0,
                );
            assert(observation_views(cards@)[found] == cards@[found]@);
        }
    }
    cards
}

/// Whether an entry of the ALSA card directory is a card with a readable device
/// path.
pub open spec fn is_card_entry(entry: Result<SoundEntry, IoErrorKind>) -> bool {
    entry is Ok && card_number(entry->Ok_0.name@) is Some && entry->Ok_0.device is Ok
}

/// Whether a card has the number and the device path of an entry.
pub open spec fn describes(card: CardObservationView, entry: SoundEntry) -> bool {
    &&& card_number(entry.name@) == Some(card.info.number as nat)
    &&& entry.device is Ok
    &&& card.device_path == path_view(entry.device->Ok_0@)
}

/// Every card of the directory is found: an entry that is named like a card and
/// has a readable device path is among the cards, with its number and path.
pub proof fn law_every_card_is_found(alsa: AlsaObservation, index: int)
    requires
        alsa.entries is Ok,
        0 <= index < alsa.entries->Ok_0@.len(),
        is_card_entry(alsa.entries->Ok_0@[index]),
    ensures
        exists|j: int|
            0 <= j < alsa_cards(alsa).len() && describes(
                #[trigger] alsa_cards(alsa)[j],
                alsa.entries->Ok_0@[index]->Ok_0,
            ),
{
    let entries = alsa.entries->Ok_0@;
    let summary = summary_cards(summary_text(alsa));
    lemma_card_is_found(entries, summary, index);
    let found = choose|j: int|
        0 <= j < all_sound_cards(entries, summary).len() && describes(
            #[trigger] all_sound_cards(entries, summary)[j],
            entries[index]->Ok_0,
        );
    assert(describes(alsa_cards(alsa)[found], entries[index]->Ok_0));
}

/// Every card that is found is an entry of the directory, cards keep the order of
/// their entries, and nothing is found twice: there are as many cards as entries
/// that describe one.
pub proof fn law_only_listed_cards_are_found(alsa: AlsaObservation, position: int)
    requires
        alsa.entries is Ok,
        0 <= position < alsa_cards(alsa).len(),
    ensures
        exists|i: int|
            0 <= i < alsa.entries->Ok_0@.len() && is_card_entry(
                #[trigger] alsa.entries->Ok_0@[i],
            ) && describes(alsa_cards(alsa)[position], alsa.entries->Ok_0@[i]->Ok_0),
        alsa_cards(alsa).len() <= alsa.entries->Ok_0@.len(),
{
    lemma_found_card_is_listed(
        alsa.entries->Ok_0@,
        summary_cards(summary_text(alsa)),
        position,
    );
}

proof fn lemma_card_number_fits(name: Seq<char>)
    ensures
        card_number(name) is Some ==> card_number(name)->Some_0 <= 0xffff_ffff,
{
}

proof fn lemma_card_is_found(
    entries: Seq<Result<SoundEntry, IoErrorKind>>,
    summary: Seq<SummaryCardView>,
    index: int,
)
    requires
        0 <= index < entries.len(),
        is_card_entry(entries[index]),
    ensures
        exists|j: int|
            0 <= j < all_sound_cards(entries, summary).len() && describes(
                #[trigger] all_sound_cards(entries, summary)[j],
                entries[index]->Ok_0,
            ),
    decreases entries.len(),
{
    let all = all_sound_cards(entries, summary);
    let earlier = all_sound_cards(entries.drop_last(), summary);
    if index < entries.len() - 1 {
        lemma_card_is_found(entries.drop_last(), summary, index);
        let j = choose|j: int|
            0 <= j < earlier.len() && describes(
                #[trigger] earlier[j],
                entries.drop_last()[index]->Ok_0,
            );
        assert(all[j] == earlier[j]);
        assert(describes(all[j], entries[index]->Ok_0));
    } else {
        lemma_card_number_fits(entries[index]->Ok_0.name@);
        let j = earlier.len() as int;
        assert(all[j] == sound_cards(entries.last(), summary)[0]);
        assert(describes(all[j], entries[index]->Ok_0));
    }
}

proof fn lemma_found_card_is_listed(
    entries: Seq<Result<SoundEntry, IoErrorKind>>,
    summary: Seq<SummaryCardView>,
    position: int,
)
    requires
        0 <= position < all_sound_cards(entries, summary).len(),
    ensures
        exists|i: int|
            0 <= i < entries.len() && is_card_entry(#[trigger] entries[i]) && describes(
                all_sound_cards(entries, summary)[position],
                entries[i]->Ok_0,
            ),
        all_sound_cards(entries, summary).len() <= entries.len(),
    decreases entries.len(),
{
    if entries.len() > 0 {
        let all = all_sound_cards(entries, summary);
        let earlier = all_sound_cards(entries.drop_last(), summary);
        if earlier.len() > 0 {
            lemma_found_card_is_listed(entries.drop_last(), summary, 0);
        }
        if position < earlier.len() {
            lemma_found_card_is_listed(entries.drop_last(), summary, position);
            let i = choose|i: int|
                0 <= i < entries.drop_last().len() && is_card_entry(
                    #[trigger] entries.drop_last()[i],
                ) && describes(earlier[position], entries.drop_last()[i]->Ok_0);
            assert(entries[i] == entries.drop_last()[i]);
            assert(all[position] == earlier[position]);
        } else {
            lemma_card_number_fits(entries.last()->Ok_0.name@);
            let i = entries.len() - 1;
            assert(all[position] == sound_cards(entries.last(), summary)[position
                - earlier.len()]);
            assert(is_card_entry(entries[i]));
        }
    }
}

/// Whether a card's device lies below a USB device: its path begins with all
/// components of the USB device's path.
pub open spec fn below(device: Seq<Seq<char>>, usb: Seq<Seq<char>>) -> bool {
    usb.len() <= device.len() && device.take(usb.len() as int) == usb
}

/// Tells whether a card's device lies below a USB device.
pub fn card_matches_usb(card: &AlsaCardObservation, location: &Option<Vec<String>>) -> (matches:
    bool)
    ensures
        matches == match optional_path(*location) {
            Some(path) => below(card@.device_path, path),
            None => false,
        },
{
    let path = match location {
        Some(path) => path,
        None => {
            return false;
        },
    };
    if path.len() > card.device_path.len() {
        return false;
    }
    for index in 0..path.len()
        invariant
            optional_path(*location) == Some(path_view(path@)),
            path@.len() <= card.device_path@.len(),
            forall|i: int| 0 <= i < index ==> card.device_path@[i]@ == (#[trigger] path@[i])@,
    {
        let same = card.device_path[index] == path[index];
        if !same {
            proof {
                assert(path_view(card.device_path@).take(path@.len() as int)[index as int]
                    != path_view(path@)[index as int]);
            }
            return false;
        }
    }
    proof {
        assert(path_view(card.device_path@).take(path@.len() as int) =~= path_view(path@));
    }
    true
}

/// The cards below a USB device.
pub open spec fn cards_below(
    cards: Seq<CardObservationView>,
    location: Option<Seq<Seq<char>>>,
) -> Seq<AlsaCardView>
    decreases cards.len(),
{
    if cards.len() == 0 {
        Seq::empty()
    } else {
        let rest = cards_below(cards.drop_last(), location);
        if location is Some && below(cards.last().device_path, location->Some_0) {
            rest.push(cards.last().info)
        } else {
            rest
        }
    }
}

/// The attributes of a USB entry, where both were read.
pub open spec fn usb_attributes(entry: UsbEntry) -> Option<(Seq<char>, Seq<char>)> {
    match (file_text(entry.vendor), file_text(entry.product)) {
        (Some(vendor), Some(product)) => Some((vendor, product)),
        _ => None,
    }
}

/// The failures that one entry of the USB device directory causes.
pub open spec fn usb_failures(entry: Result<UsbEntry, IoErrorKind>) -> Seq<FailureView> {
    let source = DiscoverySource::UsbSysfs;
    match entry {
        Err(kind) => seq![FailureView { source, path: ""@, kind: read_failure(kind) }],
        Ok(entry) => match entry.vendor {
            Err(_) => file_failure(entry.vendor, source, entry.name@ + "/idVendor"@),
            Ok(vendor) => match entry.product {
                Err(_) => file_failure(entry.product, source, entry.name@ + "/idProduct"@),
                Ok(product) => match usb_identity(trimmed(vendor@), trimmed(product@)) {
                    Err(field) => seq![
                        FailureView {
                            source,
                            path: entry.name@,
                            kind: FailureKindView::InvalidValue { field },
                        },
                    ],
                    Ok(_) => Seq::empty(),
                },
            },
        },
    }
}

/// The device that one entry of the USB device directory describes, if it is an
/// admitted one.
pub open spec fn usb_devices(
    entry: Result<UsbEntry, IoErrorKind>,
    definitions: Seq<DeviceDefinition>,
    cards: Seq<CardObservationView>,
) -> Seq<CandidateView> {
    match entry {
        Err(_) => Seq::empty(),
        Ok(entry) => match usb_attributes(entry) {
            None => Seq::empty(),
            Some((vendor, product)) => match usb_identity(vendor, product) {
                Err(_) => Seq::empty(),
                Ok(usb) => match definition_for(definitions, usb) {
                    None => Seq::empty(),
                    Some(definition) => seq![
                        CandidateView {
                            identity: definition.identity,
                            topology: entry.name@,
                            alsa_cards: cards_below(cards, optional_path(entry.location)),
                        },
                    ],
                },
            },
        },
    }
}

/// The failures of all entries of the USB device directory.
pub open spec fn all_usb_failures(entries: Seq<Result<UsbEntry, IoErrorKind>>) -> Seq<FailureView>
    decreases entries.len(),
{
    if entries.len() == 0 {
        Seq::empty()
    } else {
        all_usb_failures(entries.drop_last()) + usb_failures(entries.last())
    }
}

/// The devices of all entries of the USB device directory.
pub open spec fn all_usb_devices(
    entries: Seq<Result<UsbEntry, IoErrorKind>>,
    definitions: Seq<DeviceDefinition>,
    cards: Seq<CardObservationView>,
) -> Seq<CandidateView>
    decreases entries.len(),
{
    if entries.len() == 0 {
        Seq::empty()
    } else {
        all_usb_devices(entries.drop_last(), definitions, cards) + usb_devices(
            entries.last(),
            definitions,
            cards,
        )
    }
}

/// The report of one discovery pass.
pub open spec fn discovered(
    definitions: Seq<DeviceDefinition>,
    usb: Result<Vec<Result<UsbEntry, IoErrorKind>>, IoErrorKind>,
    alsa: AlsaObservation,
) -> ReportView {
    match usb {
        Err(kind) => ReportView {
            devices: Seq::empty(),
            failures: seq![
                FailureView {
                    source: DiscoverySource::UsbSysfs,
                    path: ""@,
                    kind: read_failure(kind),
                },
            ],
        },
        Ok(entries) => ReportView {
            devices: all_usb_devices(entries@, definitions, alsa_cards(alsa)),
            failures: alsa_failures(alsa) + all_usb_failures(entries@),
        },
    }
}

fn select_cards(cards: &Vec<AlsaCardObservation>, location: &Option<Vec<String>>) -> (selected: Vec<
    AlsaCardInfo,
>)
    ensures
        card_views(selected@) == cards_below(
            observation_views(cards@),
            optional_path(*location),
        ),
{
    let ghost place = optional_path(*location);
    let mut selected: Vec<AlsaCardInfo> = Vec::new();
    proof {
        assert(card_views(selected@) =~= Seq::<AlsaCardView>::empty());
        assert(observation_views(cards@).take(0) =~= Seq::<CardObservationView>::empty());
    }
    for index in 0..cards.len()
        invariant
            place == optional_path(*location),
            card_views(selected@) == cards_below(
                observation_views(cards@).take(index as int),
                place,
            ),
    {
        let ghost held = selected@;
        let ghost found = card_views(selected@);
        proof {
            let prefix = observation_views(cards@).take(index + 1);
            assert(prefix.drop_last() =~= observation_views(cards@).take(index as int));
            assert(prefix.last() == cards@[index as int]@);
        }
        if card_matches_usb(&cards[index], location) {
            let info = cards[index].info.copied();
            selected.push(info);
            proof {
                assert(card_views(held.push(info)) =~= found.push(info@));
            }
        }
    }
    proof {
        assert(observation_views(cards@).take(cards@.len() as int) =~= observation_views(cards@));
    }
    selected
}

fn read_usb_entry(
    registry: &DeviceRegistry,
    entry: &Result<UsbEntry, IoErrorKind>,
    cards: &Vec<AlsaCardObservation>,
    failures: &mut Vec<DiscoveryFailure>,
) -> (device: Option<UsbDeviceCandidate>)
    ensures
        failure_views(final(failures)@) == failure_views(old(failures)@) + usb_failures(*entry),
        usb_devices(*entry, registry.definitions@, observation_views(cards@)) == match device {
            Some(device) => seq![device@],
            None => Seq::<CandidateView>::empty(),
        },
{
    let source = DiscoverySource::UsbSysfs;
    let ghost before = failure_views(failures@);
    proof {
        assert(before + Seq::<FailureView>::empty() =~= before);
    }
    let entry = match entry {
        Ok(entry) => entry,
        Err(kind) => {
            push_failure(failures, failure(source, "", *kind));
            return None;
        },
    };
    let mut vendor_path = entry.name.clone();
    vendor_path.append("/idVendor");
    let vendor = match take_text(&entry.vendor, source, vendor_path.as_str(), failures) {
        Some(vendor) => vendor,
        None => {
            return None;
        },
    };
    proof {
        assert(failure_views(failures@) =~= before);
    }
    let mut product_path = entry.name.clone();
    product_path.append("/idProduct");
    let product = match take_text(&entry.product, source, product_path.as_str(), failures) {
        Some(product) => product,
        None => {
            return None;
        },
    };
    proof {
        assert(failure_views(failures@) =~= before);
    }
    let usb = match parse_usb_identity(vendor.as_str(), product.as_str()) {
        Ok(usb) => usb,
        Err(field) => {
            push_failure(
                failures,
                DiscoveryFailure {
                    source,
                    path: entry.name.clone(),
                    kind: DiscoveryFailureKind::InvalidValue { field },
                },
            );
            return None;
        },
    };
    let definition = match registry.find(usb) {
        Some(definition) => definition,
        None => {
            return None;
        },
    };
    Some(
        UsbDeviceCandidate {
            identity: definition.identity(),
            topology: UsbTopology::new(entry.name.as_str()),
            alsa_cards: select_cards(cards, &entry.location),
        },
    )
}

/// Turns what was read of the USB and ALSA interfaces into a report.
pub fn discover_devices(
    registry: &DeviceRegistry,
    usb: &Result<Vec<Result<UsbEntry, IoErrorKind>>, IoErrorKind>,
    alsa: &AlsaObservation,
) -> (report: DiscoveryReport)
    ensures
        report@ == discovered(registry.definitions@, *usb, *alsa),
{
    let mut report = DiscoveryReport::default();
    proof {
        assert(failure_views(report.failures@) =~= Seq::<FailureView>::empty());
        assert(candidate_views(report.devices@) =~= Seq::<CandidateView>::empty());
    }
    let entries = match usb {
        Ok(entries) => entries,
        Err(kind) => {
            push_failure(&mut report.failures, failure(DiscoverySource::UsbSysfs, "", *kind));
            proof {
                assert(report@.failures =~= discovered(
                    registry.definitions@,
                    *usb,
                    *alsa,
                ).failures);
            }
            return report;
        },
    };
    let cards = read_alsa_cards(alsa, &mut report.failures);
    let ghost first = alsa_failures(*alsa);
    proof {
        assert(failure_views(report.failures@) =~= first);
        assert(entries@.take(0) =~= Seq::<Result<UsbEntry, IoErrorKind>>::empty());
        assert(first + Seq::<FailureView>::empty() =~= first);
    }
    for index in 0..entries.len()
        invariant
            failure_views(report.failures@) == first + all_usb_failures(entries@.take(index as int)),
            candidate_views(report.devices@) == all_usb_devices(
                entries@.take(index as int),
                registry.definitions@,
                observation_views(cards@),
            ),
    {
        let ghost held = report.devices@;
        let ghost found = candidate_views(report.devices@);
        let device = read_usb_entry(registry, &entries[index], &cards, &mut report.failures);
        proof {
            let prefix = entries@.take(index + 1);
            assert(prefix.drop_last() =~= entries@.take(index as int));
            assert(prefix.last() == entries@[index as int]);
            assert(first + (all_usb_failures(entries@.take(index as int)) + usb_failures(
                entries@[index as int],
            )) =~= (first + all_usb_failures(entries@.take(index as int))) + usb_failures(
                entries@[index as int],
            ));
        }
        if let Some(device) = device {
            report.devices.push(device);
            proof {
                assert(candidate_views(held.push(device)) =~= found + seq![device@]);
            }
        } else {
            proof {
                assert(found + Seq::<CandidateView>::empty() =~= found);
            }
        }
    }
    proof {
        assert(entries@.take(entries@.len() as int) =~= entries@);
    }
    report
}

/// Whether an identity is registered.
pub open spec fn registered(definitions: Seq<DeviceDefinition>, identity: DeviceIdentity) -> bool {
    exists|i: int| 0 <= i < definitions.len() && (#[trigger] definitions[i]).identity == identity
}

/// Every device of a report is a registered one.
pub proof fn law_discovery_reports_only_registered_products(
    definitions: Seq<DeviceDefinition>,
    usb: Result<Vec<Result<UsbEntry, IoErrorKind>>, IoErrorKind>,
    alsa: AlsaObservation,
)
    ensures
        forall|i: int|
            0 <= i < discovered(definitions, usb, alsa).devices.len() ==> registered(
                definitions,
                (#[trigger] discovered(definitions, usb, alsa).devices[i]).identity,
            ),
{
    if let Ok(entries) = usb {
        lemma_devices_are_registered(entries@, definitions, alsa_cards(alsa));
    }
}

proof fn lemma_devices_are_registered(
    entries: Seq<Result<UsbEntry, IoErrorKind>>,
    definitions: Seq<DeviceDefinition>,
    cards: Seq<CardObservationView>,
)
    ensures
        forall|i: int|
            0 <= i < all_usb_devices(entries, definitions, cards).len() ==> registered(
                definitions,
                (#[trigger] all_usb_devices(entries, definitions, cards)[i]).identity,
            ),
    decreases entries.len(),
{
    if entries.len() > 0 {
        let earlier = all_usb_devices(entries.drop_last(), definitions, cards);
        let last = usb_devices(entries.last(), definitions, cards);
        lemma_devices_are_registered(entries.drop_last(), definitions, cards);
        assert forall|i: int|
            0 <= i < all_usb_devices(entries, definitions, cards).len() implies registered(
            definitions,
            (#[trigger] all_usb_devices(entries, definitions, cards)[i]).identity,
        ) by {
            if i < earlier.len() {
                assert(all_usb_devices(entries, definitions, cards)[i] == earlier[i]);
            } else {
                assert(all_usb_devices(entries, definitions, cards)[i] == last[i - earlier.len()]);
                lemma_device_is_registered(
                    entries.last(),
                    definitions,
                    cards,
                    i - earlier.len(),
                );
            }
        }
    }
}

proof fn lemma_device_is_registered(
    entry: Result<UsbEntry, IoErrorKind>,
    definitions: Seq<DeviceDefinition>,
    cards: Seq<CardObservationView>,
    position: int,
)
    requires
        0 <= position < usb_devices(entry, definitions, cards).len(),
    ensures
        registered(definitions, usb_devices(entry, definitions, cards)[position].identity),
{
    let attributes = usb_attributes(entry->Ok_0)->Some_0;
    let usb = usb_identity(attributes.0, attributes.1)->Ok_0;
    crate::device::law_registry_admits_only_exact_pairs(definitions, usb);
    let definition = definition_for(definitions, usb)->Some_0;
    let i = choose|i: int| 0 <= i < definitions.len() && definitions[i] == definition;
    assert(definitions[i].identity == usb_devices(entry, definitions, cards)[position].identity);
}

/// Every admitted device is reported with all its cards: a USB entry whose two
/// attributes hold a registered pair is in the report under its own name, with that
/// pair, and every card of the card directory whose device path lies below the
/// entry's location is among its cards.
pub proof fn law_every_admitted_device_is_reported(
    definitions: Seq<DeviceDefinition>,
    entries: Vec<Result<UsbEntry, IoErrorKind>>,
    alsa: AlsaObservation,
    index: int,
)
    requires
        0 <= index < entries@.len(),
        entries@[index] is Ok,
        entries@[index]->Ok_0.vendor is Ok,
        entries@[index]->Ok_0.product is Ok,
        usb_number(trimmed(entries@[index]->Ok_0.vendor->Ok_0@)) is Some,
        usb_number(trimmed(entries@[index]->Ok_0.product->Ok_0@)) is Some,
        exists|i: int|
            0 <= i < definitions.len() && usb_number(
                trimmed(entries@[index]->Ok_0.vendor->Ok_0@),
            ) == Some((#[trigger] definitions[i]).identity.usb.vendor_id as nat) && usb_number(
                trimmed(entries@[index]->Ok_0.product->Ok_0@),
            ) == Some(definitions[i].identity.usb.product_id as nat),
    ensures
        exists|position: int|
            0 <= position < discovered(definitions, Ok(entries), alsa).devices.len() && reports(
                entries@[index]->Ok_0,
                alsa,
                #[trigger] discovered(definitions, Ok(entries), alsa).devices[position],
            ),
{
    let cards = alsa_cards(alsa);
    let entry = entries@[index]->Ok_0;
    lemma_device_is_reported(entries@, definitions, cards, index);
    let all = all_usb_devices(entries@, definitions, cards);
    let position = choose|position: int|
        0 <= position < all.len() && #[trigger] all[position] == usb_devices(
            entries@[index],
            definitions,
            cards,
        )[0];
    let device = all[position];
    let usb = usb_identity(trimmed(entry.vendor->Ok_0@), trimmed(entry.product->Ok_0@))->Ok_0;
    crate::device::law_registry_admits_only_exact_pairs(definitions, usb);
    if alsa.entries is Ok && entry.location is Some {
        assert forall|j: int|
            0 <= j < alsa.entries->Ok_0@.len() && is_card_entry(
                #[trigger] alsa.entries->Ok_0@[j],
            ) && below(
                path_view(alsa.entries->Ok_0@[j]->Ok_0.device->Ok_0@),
                path_view(entry.location->Some_0@),
            ) implies exists|c: int|
            0 <= c < device.alsa_cards.len() && card_number(
                alsa.entries->Ok_0@[j]->Ok_0.name@,
            ) == Some((#[trigger] device.alsa_cards[c]).number as nat) by {
            law_every_card_is_found(alsa, j);
            let found = choose|k: int|
                0 <= k < cards.len() && describes(
                    #[trigger] cards[k],
                    alsa.entries->Ok_0@[j]->Ok_0,
                );
            let location = optional_path(entry.location);
            lemma_card_below_is_listed(cards, location, found);
            let c = choose|c: int|
                0 <= c < cards_below(cards, location).len() && #[trigger] cards_below(
                    cards,
                    location,
                )[c] == cards[found].info;
            assert(device.alsa_cards[c] == cards[found].info);
        }
    }
    assert(reports(entry, alsa, device));
    assert(discovered(definitions, Ok(entries), alsa).devices[position] == device);
}

/// Whether a reported device is a USB entry with every listed card below it.
pub open spec fn reports(entry: UsbEntry, alsa: AlsaObservation, device: CandidateView) -> bool {
    &&& device.topology == entry.name@
    &&& usb_number(trimmed(entry.vendor->Ok_0@)) == Some(device.identity.usb.vendor_id as nat)
    &&& usb_number(trimmed(entry.product->Ok_0@)) == Some(device.identity.usb.product_id as nat)
    &&& alsa.entries is Ok && entry.location is Some ==> forall|j: int|
        0 <= j < alsa.entries->Ok_0@.len() && is_card_entry(
            #[trigger] alsa.entries->Ok_0@[j],
        ) && below(
            path_view(alsa.entries->Ok_0@[j]->Ok_0.device->Ok_0@),
            path_view(entry.location->Some_0@),
        ) ==> exists|c: int|
            0 <= c < device.alsa_cards.len() && card_number(
                alsa.entries->Ok_0@[j]->Ok_0.name@,
            ) == Some((#[trigger] device.alsa_cards[c]).number as nat)
}

proof fn lemma_card_below_is_listed(
    cards: Seq<CardObservationView>,
    location: Option<Seq<Seq<char>>>,
    index: int,
)
    requires
        0 <= index < cards.len(),
        location is Some,
        below(cards[index].device_path, location->Some_0),
    ensures
        exists|c: int|
            0 <= c < cards_below(cards, location).len() && #[trigger] cards_below(
                cards,
                location,
            )[c] == cards[index].info,
    decreases cards.len(),
{
    let rest = cards_below(cards.drop_last(), location);
    if index < cards.len() - 1 {
        lemma_card_below_is_listed(cards.drop_last(), location, index);
        let c = choose|c: int|
            0 <= c < rest.len() && #[trigger] rest[c] == cards.drop_last()[index].info;
        assert(cards_below(cards, location)[c] == rest[c]);
    } else {
        assert(cards_below(cards, location)[rest.len() as int] == cards[index].info);
    }
}

proof fn lemma_device_is_reported(
    entries: Seq<Result<UsbEntry, IoErrorKind>>,
    definitions: Seq<DeviceDefinition>,
    cards: Seq<CardObservationView>,
    index: int,
)
    requires
        0 <= index < entries.len(),
        entries[index] is Ok,
        entries[index]->Ok_0.vendor is Ok,
        entries[index]->Ok_0.product is Ok,
        usb_number(trimmed(entries[index]->Ok_0.vendor->Ok_0@)) is Some,
        usb_number(trimmed(entries[index]->Ok_0.product->Ok_0@)) is Some,
        exists|i: int|
            0 <= i < definitions.len() && usb_number(
                trimmed(entries[index]->Ok_0.vendor->Ok_0@),
            ) == Some((#[trigger] definitions[i]).identity.usb.vendor_id as nat) && usb_number(
                trimmed(entries[index]->Ok_0.product->Ok_0@),
            ) == Some(definitions[i].identity.usb.product_id as nat),
    ensures
        usb_devices(entries[index], definitions, cards).len() == 1,
        exists|position: int|
            0 <= position < all_usb_devices(entries, definitions, cards).len()
                && #[trigger] all_usb_devices(entries, definitions, cards)[position]
                == usb_devices(entries[index], definitions, cards)[0],
    decreases entries.len(),
{
    let entry = entries[index]->Ok_0;
    let usb = usb_identity(trimmed(entry.vendor->Ok_0@), trimmed(entry.product->Ok_0@))->Ok_0;
    crate::device::law_registry_admits_only_exact_pairs(definitions, usb);
    let witness = choose|i: int|
        0 <= i < definitions.len() && usb_number(trimmed(entry.vendor->Ok_0@)) == Some(
            (#[trigger] definitions[i]).identity.usb.vendor_id as nat,
        ) && usb_number(trimmed(entry.product->Ok_0@)) == Some(
            definitions[i].identity.usb.product_id as nat,
        );
    assert(definitions[witness].identity.usb == usb);
    let all = all_usb_devices(entries, definitions, cards);
    let earlier = all_usb_devices(entries.drop_last(), definitions, cards);
    if index < entries.len() - 1 {
        assert(entries.drop_last()[index] == entries[index]);
        lemma_device_is_reported(entries.drop_last(), definitions, cards, index);
        let position = choose|position: int|
            0 <= position < earlier.len() && #[trigger] earlier[position] == usb_devices(
                entries[index],
                definitions,
                cards,
            )[0];
        assert(all[position] == earlier[position]);
    } else {
        assert(all[earlier.len() as int] == usb_devices(entries[index], definitions, cards)[0]);
    }
}

/// Whether the USB entry at `entry` is `device`, and the card observed at `card`
/// is its card `info`, which lies below it.
pub open spec fn correlates(
    entries: Seq<Result<UsbEntry, IoErrorKind>>,
    cards: Seq<CardObservationView>,
    device: CandidateView,
    info: AlsaCardView,
    entry: int,
    card: int,
) -> bool {
    &&& 0 <= entry < entries.len()
    &&& entries[entry] is Ok
    &&& entries[entry]->Ok_0.name@ == device.topology
    &&& 0 <= card < cards.len()
    &&& cards[card].info == info
    &&& optional_path(entries[entry]->Ok_0.location) is Some
    &&& below(cards[card].device_path, optional_path(entries[entry]->Ok_0.location)->Some_0)
}

/// Every card of every device of a report was observed below that device.
pub proof fn law_correlated_cards_lie_below_the_device(
    definitions: Seq<DeviceDefinition>,
    entries: Vec<Result<UsbEntry, IoErrorKind>>,
    alsa: AlsaObservation,
    position: int,
    card: int,
)
    requires
        0 <= position < discovered(definitions, Ok(entries), alsa).devices.len(),
        0 <= card < discovered(definitions, Ok(entries), alsa).devices[position].alsa_cards.len(),
    ensures
        ({
            let device = discovered(definitions, Ok(entries), alsa).devices[position];
            exists|i: int, j: int| #[trigger]
                correlates(
                    entries@,
                    alsa_cards(alsa),
                    device,
                    device.alsa_cards[card],
                    i,
                    j,
                )
        }),
{
    lemma_cards_lie_below(entries@, definitions, alsa_cards(alsa), position, card);
}

proof fn lemma_cards_lie_below(
    entries: Seq<Result<UsbEntry, IoErrorKind>>,
    definitions: Seq<DeviceDefinition>,
    cards: Seq<CardObservationView>,
    position: int,
    card: int,
)
    requires
        0 <= position < all_usb_devices(entries, definitions, cards).len(),
        0 <= card < all_usb_devices(entries, definitions, cards)[position].alsa_cards.len(),
    ensures
        ({
            let device = all_usb_devices(entries, definitions, cards)[position];
            exists|i: int, j: int| #[trigger]
                correlates(entries, cards, device, device.alsa_cards[card], i, j)
        }),
    decreases entries.len(),
{
    if entries.len() > 0 {
        let device = all_usb_devices(entries, definitions, cards)[position];
        let earlier = all_usb_devices(entries.drop_last(), definitions, cards);
        if position < earlier.len() {
            lemma_cards_lie_below(entries.drop_last(), definitions, cards, position, card);
            let (i, j) = choose|i: int, j: int| #[trigger]
                correlates(
                    entries.drop_last(),
                    cards,
                    device,
                    device.alsa_cards[card],
                    i,
                    j,
                );
            assert(entries.drop_last()[i] == entries[i]);
            assert(correlates(entries, cards, device, device.alsa_cards[card], i, j));
        } else {
            let location = optional_path(entries.last()->Ok_0.location);
            assert(device.alsa_cards == cards_below(cards, location));
            lemma_card_lies_below(cards, location, card);
            let j = choose|j: int|
                0 <= j < cards.len() && (#[trigger] cards[j]).info == cards_below(
                    cards,
                    location,
                )[card] && below(cards[j].device_path, location->Some_0);
            assert(correlates(
                entries,
                cards,
                device,
                device.alsa_cards[card],
                entries.len() - 1,
                j,
            ));
        }
    }
}

proof fn lemma_card_lies_below(
    cards: Seq<CardObservationView>,
    location: Option<Seq<Seq<char>>>,
    position: int,
)
    requires
        0 <= position < cards_below(cards, location).len(),
    ensures
        location is Some,
        exists|i: int|
            0 <= i < cards.len() && (#[trigger] cards[i]).info == cards_below(
                cards,
                location,
            )[position] && below(cards[i].device_path, location->Some_0),
    decreases cards.len(),
{
    if cards.len() > 0 {
        let rest = cards_below(cards.drop_last(), location);
        if position < rest.len() {
            lemma_card_lies_below(cards.drop_last(), location, position);
            let i = choose|i: int|
                0 <= i < cards.drop_last().len() && (#[trigger] cards.drop_last()[i]).info
                    == rest[position] && below(cards.drop_last()[i].device_path, location->Some_0);
            assert(cards[i].info == cards_below(cards, location)[position]);
        } else {
            assert(cards[cards.len() - 1].info == cards_below(cards, location)[position]);
        }
    }
}

/// A USB pair is its vendor's number and then its product's, each from its own
/// attribute; the vendor is judged first.
pub proof fn law_usb_pairs_come_from_their_attributes(vendor: Seq<char>, product: Seq<char>)
    ensures
        match usb_identity(vendor, product) {
            Ok(usb) => usb_number(vendor) == Some(usb.vendor_id as nat) && usb_number(product)
                == Some(usb.product_id as nat),
            Err(field) => {
                ||| usb_number(vendor) is None && field == "idVendor"@
                ||| usb_number(vendor) is Some && usb_number(product) is None && field
                    == "idProduct"@
            },
        },
        usb_number(vendor) is Some && usb_number(product) is Some ==> usb_identity(
            vendor,
            product,
        ) is Ok,
{
}

/// A USB attribute holds the number of its four hexadecimal digits, with or
/// without the prefix of hexadecimal numbers.
pub proof fn law_usb_numbers_are_hexadecimal(value: u16)
    ensures
        usb_number(hex4(value)) == Some(value as nat),
        usb_number(seq!['0', 'x'] + hex4(value)) == Some(value as nat),
{
    law_hexadecimal_is_read_back(value);
    let text = hex4(value);
    assert(is_digit(text[1], 16));
    assert(text[1] != 'x');
    assert(without_hex_prefix(text) == text);
    let prefixed = seq!['0', 'x'] + text;
    assert(prefixed.skip(2) =~= text);
    assert(without_hex_prefix(prefixed) == without_hex_prefix(text));
}

/// An entry of the card directory is a card's exactly by its name: `card` and the
/// card's number in decimal.
pub proof fn law_card_entries_are_named_by_number(number: u32, name: Seq<char>)
    ensures
        card_number("card"@ + decimal(number as nat)) == Some(number as nat),
        !starts_with(name, "card"@) ==> card_number(name) is None,
        starts_with(name, "card"@) ==> card_number(name) == parsed_number(
            name.skip(4),
            10,
            u32::MAX as nat,
        ),
        id_path(number as nat) == "card"@ + decimal(number as nat) + "/id"@,
{
    reveal_strlit("card");
    law_decimal_is_read_back(number as nat);
    let text = "card"@ + decimal(number as nat);
    assert(text.take(4) =~= "card"@);
    assert(text.skip(4) =~= decimal(number as nat));
}

/// The line that counts for a card is the last one with its number, and there is
/// none exactly if no line has it.
pub proof fn law_the_last_line_of_a_card_counts(cards: Seq<SummaryCardView>, number: u32)
    ensures
        match summary_of(cards, number) {
            Some(card) => exists|i: int|
                {
                    &&& 0 <= i < cards.len()
                    &&& #[trigger] cards[i] == card
                    &&& card.number == number
                    &&& forall|j: int| i < j < cards.len() ==> (#[trigger] cards[j]).number
                        != number
                },
            None => forall|i: int|
                0 <= i < cards.len() ==> (#[trigger] cards[i]).number != number,
        },
    decreases cards.len(),
{
    if cards.len() > 0 {
        let last = cards.len() - 1;
        if cards.last().number == number {
            assert(cards[last] == cards.last());
        } else {
            let start = cards.drop_last();
            law_the_last_line_of_a_card_counts(start, number);
            match summary_of(start, number) {
                Some(card) => {
                    let k = choose|k: int|
                        {
                            &&& 0 <= k < start.len()
                            &&& #[trigger] start[k] == card
                            &&& card.number == number
                            &&& forall|j: int|
                                k < j < start.len() ==> (#[trigger] start[j]).number != number
                        };
                    assert(cards[k] == card);
                    assert forall|j: int| k < j < cards.len() implies (#[trigger] cards[j]).number
                        != number by {
                        if j < last {
                            assert(start[j] == cards[j]);
                        }
                    }
                },
                None => {
                    assert forall|i: int| 0 <= i < cards.len() implies (
                    #[trigger] cards[i]).number != number by {
                        if i < last {
                            assert(start[i] == cards[i]);
                        }
                    }
                },
            }
        }
    }
}

/// A line of the summary gives the card's number, its identifier from between the
/// brackets, and its name from behind the first dash, each without outer space.
pub proof fn law_summary_lines_are_read_field_by_field(
    number: u32,
    id: Seq<char>,
    behind: Seq<char>,
)
    requires
        !id.contains(']'),
    ensures
        match card_line(
            decimal(number as nat) + seq![' ', '['] + id + seq![']'] + behind,
        ) {
            Some(card) => {
                &&& card.number == number
                &&& card.id == trimmed(id)
                &&& match first_occurrence(behind, " - "@) {
                    Some(dash) => card.name == Some(trimmed(behind.skip(dash as int + 3))),
                    None => card.name is None,
                }
            },
            None => false,
        },
{
    let digits = decimal(number as nat);
    let line = digits + seq![' ', '['] + id + seq![']'] + behind;
    law_decimal_is_read_back(number as nat);
    assert(line[0] == digits[0]);
    assert(is_digit(digits[0], 10));
    assert(!is_space(line[0]));
    assert(leading_space(line) == 0);
    assert(trimmed_start(line) =~= line);
    law_first_char_is_the_first(line, ' ');
    let space = first_char(line, ' ') as int;
    assert(line[digits.len() as int] == ' ');
    if space < digits.len() {
        assert(line[space] == digits[space]);
        assert(is_digit(digits[space], 10));
    }
    assert(space == digits.len());
    assert(line.take(space) =~= digits);
    let rest = line.skip(space + 1);
    assert(rest =~= seq!['['] + id + seq![']'] + behind);
    law_first_char_is_the_first(rest, ']');
    let close = first_char(rest, ']') as int;
    assert(rest[id.len() as int + 1] == ']');
    if close < id.len() + 1 {
        if close > 0 {
            assert(rest[close] == id[close - 1]);
        }
    }
    assert(close == id.len() + 1);
    assert(rest.subrange(1, close) =~= id);
    assert(rest.skip(close + 1) =~= behind);
}

/// The summary is read line by line, in order: a line that describes a card adds
/// it in front of the cards behind, and any other line adds nothing.
pub proof fn law_summaries_are_read_line_by_line(line: Seq<char>, rest: Seq<char>)
    requires
        !line.contains('\n'),
        line.len() == 0 || line.last() != '\r',
    ensures
        summary_cards(line + seq!['\n'] + rest) == (match card_line(line) {
            Some(card) => seq![card] + summary_cards(rest),
            None => summary_cards(rest),
        }),
        summary_cards(line + seq!['\r', '\n'] + rest) == summary_cards(line + seq!['\n'] + rest),
        summary_cards(line) == (match card_line(line) {
            Some(card) => seq![card],
            None => Seq::<SummaryCardView>::empty(),
        }),
{
    let text = line + seq!['\n'] + rest;
    law_first_char_is_the_first(text, '\n');
    let end = first_char(text, '\n') as int;
    assert(text[line.len() as int] == '\n');
    if end < line.len() {
        assert(text[end] == line[end]);
    }
    assert(end == line.len());
    assert(text.take(end) =~= line);
    assert(text.skip(end + 1) =~= rest);
    assert(Seq::<SummaryCardView>::empty() + summary_cards(rest) =~= summary_cards(rest));
    let returned = line + seq!['\r', '\n'] + rest;
    law_first_char_is_the_first(returned, '\n');
    let later = first_char(returned, '\n') as int;
    assert(returned[line.len() as int + 1] == '\n');
    assert(returned[line.len() as int] == '\r');
    if later < line.len() {
        assert(returned[later] == line[later]);
    }
    assert(later == line.len() + 1);
    assert(returned.take(later).drop_last() =~= line);
    assert(returned.take(later).last() == '\r');
    assert(returned.skip(later + 1) =~= rest);
    law_first_char_is_the_first(line, '\n');
    if first_char(line, '\n') < line.len() {
        assert(line[first_char(line, '\n') as int] == '\n');
    }
}

/// A card keeps its own identifier where it could be read, and otherwise has the
/// one of the summary. Its name is always the one of the summary.
pub proof fn law_own_identifiers_take_precedence(
    entry: SoundEntry,
    summary: Seq<SummaryCardView>,
)
    requires
        is_card_entry(Ok(entry)),
    ensures
        sound_cards(Ok(entry), summary).len() == 1,
        describes(sound_cards(Ok(entry), summary)[0], entry),
        ({
            let info = sound_cards(Ok(entry), summary)[0].info;
            let line = summary_of(summary, info.number);
            &&& entry.id is Ok ==> info.id == Some(trimmed(entry.id->Ok_0@))
            &&& entry.id is Err && line is Some ==> info.id == Some(line->Some_0.id)
            &&& entry.id is Err && line is None ==> info.id is None
            &&& line is Some ==> info.name == line->Some_0.name
            &&& line is None ==> info.name is None
        }),
{
    lemma_card_number_fits(entry.name@);
}

/// A card lies below a device exactly if its path begins with every component of
/// the device's, in order.
pub proof fn law_cards_lie_below_component_by_component(
    device: Seq<Seq<char>>,
    usb: Seq<Seq<char>>,
)
    ensures
        below(device, usb) <==> usb.len() <= device.len() && forall|i: int|
            0 <= i < usb.len() ==> #[trigger] device[i] == usb[i],
{
    if below(device, usb) {
        assert forall|i: int| 0 <= i < usb.len() implies #[trigger] device[i] == usb[i] by {
            assert(device.take(usb.len() as int)[i] == device[i]);
        }
    } else if usb.len() <= device.len() && (forall|i: int|
        0 <= i < usb.len() ==> #[trigger] device[i] == usb[i]) {
        assert(device.take(usb.len() as int) =~= usb);
    }
}

/// Cards, devices and failures keep the order in which they were read, and each is
/// there once: one more entry adds its own behind those of the earlier ones.
pub proof fn law_reports_keep_the_order_of_reading(
    cards: Seq<CardObservationView>,
    card: CardObservationView,
    location: Option<Seq<Seq<char>>>,
    sounds: Seq<Result<SoundEntry, IoErrorKind>>,
    sound: Result<SoundEntry, IoErrorKind>,
    summary: Seq<SummaryCardView>,
    entries: Seq<Result<UsbEntry, IoErrorKind>>,
    entry: Result<UsbEntry, IoErrorKind>,
    definitions: Seq<DeviceDefinition>,
)
    ensures
        cards_below(cards.push(card), location) == if location is Some && below(
            card.device_path,
            location->Some_0,
        ) {
            cards_below(cards, location).push(card.info)
        } else {
            cards_below(cards, location)
        },
        all_sound_cards(sounds.push(sound), summary) == all_sound_cards(sounds, summary)
            + sound_cards(sound, summary),
        sound_cards(sound, summary).len() == if is_card_entry(sound) {
            1int
        } else {
            0int
        },
        all_sound_failures(sounds.push(sound)) == all_sound_failures(sounds) + sound_failures(
            sound,
        ),
        all_usb_devices(entries.push(entry), definitions, cards) == all_usb_devices(
            entries,
            definitions,
            cards,
        ) + usb_devices(entry, definitions, cards),
        usb_devices(entry, definitions, cards).len() <= 1,
        all_usb_failures(entries.push(entry)) == all_usb_failures(entries) + usb_failures(entry),
{
    assert(cards.push(card).drop_last() =~= cards);
    assert(sounds.push(sound).drop_last() =~= sounds);
    assert(entries.push(entry).drop_last() =~= entries);
}

/// A failed read keeps its class: refused access and absence are told apart, and
/// every other failure is passed on. Absence of an optional file is no failure.
pub proof fn law_failed_reads_keep_their_class(
    kind: IoErrorKind,
    source: DiscoverySource,
    path: Seq<char>,
    text: String,
)
    ensures
        read_failure(kind) == FailureKindView::PermissionDenied <==> kind
            == IoErrorKind::PermissionDenied,
        read_failure(kind) == FailureKindView::NotFound <==> kind == IoErrorKind::NotFound,
        kind != IoErrorKind::PermissionDenied && kind != IoErrorKind::NotFound ==> read_failure(
            kind,
        ) == (FailureKindView::Io { kind }),
        file_failure(Ok(text), source, path).len() == 0,
        file_failure(Err(IoErrorKind::NotFound), source, path).len() == 0,
        kind != IoErrorKind::NotFound ==> file_failure(Err(kind), source, path) == seq![
            FailureView { source, path, kind: read_failure(kind) },
        ],
        file_text(Ok(text)) == Some(trimmed(text@)),
        file_text(Err(kind)) is None,
{
}

/// What each unreadable or malformed entry of either directory causes: a failure
/// of its own source that names the attribute, link or file that failed.
pub proof fn law_unreadable_entries_name_what_failed(
    usb: UsbEntry,
    sound: SoundEntry,
    kind: IoErrorKind,
)
    ensures
        usb_failures(Err(kind)) == seq![
            FailureView {
                source: DiscoverySource::UsbSysfs,
                path: ""@,
                kind: read_failure(kind),
            },
        ],
        usb.vendor == Err::<String, IoErrorKind>(kind) && kind != IoErrorKind::NotFound
            ==> usb_failures(Ok(usb)) == seq![
            FailureView {
                source: DiscoverySource::UsbSysfs,
                path: usb.name@ + "/idVendor"@,
                kind: read_failure(kind),
            },
        ],
        usb.vendor is Ok && usb.product == Err::<String, IoErrorKind>(kind) && kind
            != IoErrorKind::NotFound ==> usb_failures(Ok(usb)) == seq![
            FailureView {
                source: DiscoverySource::UsbSysfs,
                path: usb.name@ + "/idProduct"@,
                kind: read_failure(kind),
            },
        ],
        usb.vendor is Ok && usb.product is Ok && usb_number(trimmed(usb.vendor->Ok_0@)) is None
            ==> usb_failures(Ok(usb)) == seq![
            FailureView {
                source: DiscoverySource::UsbSysfs,
                path: usb.name@,
                kind: FailureKindView::InvalidValue { field: "idVendor"@ },
            },
        ],
        usb.vendor is Ok && usb.product is Ok && usb_number(trimmed(usb.vendor->Ok_0@)) is Some
            && usb_number(trimmed(usb.product->Ok_0@)) is None ==> usb_failures(Ok(usb)) == seq![
            FailureView {
                source: DiscoverySource::UsbSysfs,
                path: usb.name@,
                kind: FailureKindView::InvalidValue { field: "idProduct"@ },
            },
        ],
        usb.vendor is Ok && usb.product is Ok && usb_number(trimmed(usb.vendor->Ok_0@)) is Some
            && usb_number(trimmed(usb.product->Ok_0@)) is Some ==> usb_failures(Ok(usb)).len()
            == 0,
        sound_failures(Err(kind)) == seq![
            FailureView {
                source: DiscoverySource::AlsaSysfs,
                path: ""@,
                kind: read_failure(kind),
            },
        ],
        card_number(sound.name@) is None ==> sound_failures(Ok(sound)).len() == 0,
        card_number(sound.name@) is Some && sound.device == Err::<Vec<String>, IoErrorKind>(kind)
            ==> sound_failures(Ok(sound)) == seq![
            FailureView {
                source: DiscoverySource::AlsaSysfs,
                path: sound.name@ + "/device"@,
                kind: read_failure(kind),
            },
        ],
        is_card_entry(Ok(sound)) && sound.id == Err::<String, IoErrorKind>(kind) && kind
            != IoErrorKind::NotFound ==> sound_failures(Ok(sound)) == seq![
            FailureView {
                source: DiscoverySource::AlsaProcfs,
                path: id_path(card_number(sound.name@)->Some_0),
                kind: read_failure(kind),
            },
        ],
        is_card_entry(Ok(sound)) && sound.id is Ok ==> sound_failures(Ok(sound)).len() == 0,
{
}

/// A report holds the failures of the sound interfaces and then those of the USB
/// directory; where that directory cannot be listed it holds this failure alone and
/// no device.
pub proof fn law_reports_collect_every_failure(
    definitions: Seq<DeviceDefinition>,
    entries: Vec<Result<UsbEntry, IoErrorKind>>,
    alsa: AlsaObservation,
    kind: IoErrorKind,
)
    ensures
        discovered(definitions, Err(kind), alsa).devices.len() == 0,
        discovered(definitions, Err(kind), alsa).failures == seq![
            FailureView {
                source: DiscoverySource::UsbSysfs,
                path: ""@,
                kind: read_failure(kind),
            },
        ],
        discovered(definitions, Ok(entries), alsa).failures == alsa_failures(alsa)
            + all_usb_failures(entries@),
        alsa.summary is Ok && alsa.entries is Ok ==> alsa_failures(alsa) == all_sound_failures(
            alsa.entries->Ok_0@,
        ),
        alsa.summary == Err::<String, IoErrorKind>(kind) ==> alsa_failures(alsa).len() > 0
            && alsa_failures(alsa)[0] == (FailureView {
            source: DiscoverySource::AlsaProcfs,
            path: ""@,
            kind: read_failure(kind),
        }),
        alsa.summary is Err && alsa.entries is Ok ==> alsa_failures(alsa).skip(1)
            == all_sound_failures(alsa.entries->Ok_0@),
        alsa.entries is Err ==> alsa_cards(alsa).len() == 0 && alsa_failures(alsa).last() == (
        FailureView {
            source: DiscoverySource::AlsaSysfs,
            path: ""@,
            kind: read_failure(alsa.entries->Err_0),
        }),
{
    if alsa.entries is Ok {
        let rest = all_sound_failures(alsa.entries->Ok_0@);
        assert(Seq::<FailureView>::empty() + rest =~= rest);
        if alsa.summary is Err {
            assert(alsa_failures(alsa).skip(1) =~= rest);
        }
    }
}

} // verus!
