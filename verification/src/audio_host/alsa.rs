//! Exact ALSA card selection and applied-configuration checks.

use crate::audio_host::host::LinuxAudioError;
use crate::audio_host::pcm::PcmDirection;
use crate::audio_host::worker::status::{
    PCM_STATE_DISCONNECTED, PCM_STATE_PREPARED, PCM_STATE_RUNNING,
};
use crate::audio_host::worker::PcmIoError;
use crate::device::{
    candidate_views, wave3_usb, AlsaCardInfo, AlsaCardView,
    CandidateView, DeviceIdentity, UsbDeviceCandidate, UsbTopology,
};
use crate::parse::characters;
use crate::text::{decimal, decimal_text};
use vstd::prelude::*;
use vstd::string::*;

verus! {

/// Whether `c` is an ASCII letter.
pub open spec fn is_letter(c: char) -> bool {
    ('a' <= c && c <= 'z') || ('A' <= c && c <= 'Z')
}

/// Whether `c` may stand behind the first character of a card identifier.
pub open spec fn is_card_id_char(c: char) -> bool {
    is_letter(c) || ('0' <= c && c <= '9') || c == '_'
}

/// Whether `id` has the kernel's identifier form: one to fifteen ASCII letters,
/// digits and underscores behind a letter.
pub open spec fn valid_card_id(id: Seq<char>) -> bool {
    &&& 1 <= id.len() <= 15
    &&& is_letter(id[0])
    &&& forall|i: int| 1 <= i < id.len() ==> is_card_id_char(#[trigger] id[i])
}

/// Checks that an ALSA card identifier can be put into a PCM name.
pub fn validate_card_id(card_id: &str) -> (result: Result<(), LinuxAudioError>)
    ensures
        result == if valid_card_id(card_id@) {
            Ok::<(), LinuxAudioError>(())
        } else {
            Err::<(), LinuxAudioError>(LinuxAudioError::InvalidAlsaCardId)
        },
{
    let id = characters(card_id);
    if id.len() == 0 || id.len() > 15 {
        return Err(LinuxAudioError::InvalidAlsaCardId);
    }
    let first: char = id[0];
    if !(('a' <= first && first <= 'z') || ('A' <= first && first <= 'Z')) {
        return Err(LinuxAudioError::InvalidAlsaCardId);
    }
    let mut index: usize = 1;
    while index < id.len()
        invariant
            id@ == card_id@,
            1 <= index <= id@.len(),
            forall|i: int| 1 <= i < index ==> is_card_id_char(#[trigger] id@[i]),
        decreases id@.len() - index,
    {
        let c: char = id[index];
        if !(('a' <= c && c <= 'z') || ('A' <= c && c <= 'Z') || ('0' <= c && c <= '9') || c
            == '_') {
            return Err(LinuxAudioError::InvalidAlsaCardId);
        }
        index = index + 1;
    }
    Ok(())
}

/// Whether two candidates are the same device at the same place.
pub open spec fn same_place(left: CandidateView, right: CandidateView) -> bool {
    left.identity == right.identity && left.topology == right.topology
}

/// The positions of the current candidates that are the expected device at its
/// place.
pub open spec fn matching(expected: CandidateView, current: Seq<CandidateView>) -> Seq<int>
    decreases current.len(),
{
    if current.len() == 0 {
        Seq::empty()
    } else {
        let rest = matching(expected, current.drop_last());
        if same_place(current.last(), expected) {
            rest.push(current.len() - 1)
        } else {
            rest
        }
    }
}

/// The card that an expected candidate still resolves to, or why it does not.
pub open spec fn revalidated(expected: CandidateView, current: Seq<CandidateView>) -> Result<
    (AlsaCardView, Seq<char>),
    LinuxAudioError,
> {
    let found = matching(expected, current);
    if expected.alsa_cards.len() != 1 {
        Err(LinuxAudioError::AmbiguousAlsaCard)
    } else if expected.alsa_cards[0].id is None {
        Err(LinuxAudioError::MissingAlsaCardId)
    } else if !valid_card_id(expected.alsa_cards[0].id->Some_0) {
        Err(LinuxAudioError::InvalidAlsaCardId)
    } else if found.len() != 1 || current[found[0]].alsa_cards.len() != 1 || current[found[0]].alsa_cards[0].number
        != expected.alsa_cards[0].number || current[found[0]].alsa_cards[0].id
        != expected.alsa_cards[0].id {
        Err(LinuxAudioError::AlsaCardChanged)
    } else {
        Ok((current[found[0]].alsa_cards[0], current[found[0]].topology))
    }
}

fn is_same_place(left: &UsbDeviceCandidate, right: &UsbDeviceCandidate) -> (same: bool)
    ensures
        same == same_place(left@, right@),
{
    let same_name = left.topology.name == right.topology.name;
    left.identity == right.identity && same_name
}

/// Finds the card that an expected candidate still resolves to.
pub fn select_revalidated_card(
    expected: &UsbDeviceCandidate,
    current: &Vec<UsbDeviceCandidate>,
) -> (result: Result<(AlsaCardInfo, UsbTopology), LinuxAudioError>)
    ensures
        match revalidated(expected@, candidate_views(current@)) {
            Ok((card, topology)) => result is Ok && result->Ok_0.0@ == card
                && result->Ok_0.1.name@ == topology,
            Err(error) => result == Err::<(AlsaCardInfo, UsbTopology), LinuxAudioError>(error),
        },
{
    if expected.alsa_cards.len() != 1 {
        return Err(LinuxAudioError::AmbiguousAlsaCard);
    }
    let expected_card = &expected.alsa_cards[0];
    proof {
        assert(expected@.alsa_cards[0] == expected_card@);
    }
    let expected_id = match &expected_card.id {
        Some(id) => id,
        None => {
            return Err(LinuxAudioError::MissingAlsaCardId);
        },
    };
    validate_card_id(expected_id.as_str())?;
    let ghost views = candidate_views(current@);
    let mut found: usize = 0;
    let mut count: usize = 0;
    proof {
        assert(views.take(0) =~= Seq::<CandidateView>::empty());
    }
    for index in 0..current.len()
        invariant
            views == candidate_views(current@),
            count == matching(expected@, views.take(index as int)).len(),
            count <= index,
            count > 0 ==> found < index && matching(expected@, views.take(index as int)).last()
                == found,
    {
        proof {
            let prefix = views.take(index + 1);
            assert(prefix.drop_last() =~= views.take(index as int));
            assert(prefix.last() == current@[index as int]@);
        }
        if is_same_place(&current[index], expected) {
            found = index;
            count = count + 1;
        }
    }
    proof {
        assert(views.take(current@.len() as int) =~= views);
    }
    if count != 1 {
        return Err(LinuxAudioError::AlsaCardChanged);
    }
    let candidate = &current[found];
    if candidate.alsa_cards.len() != 1 {
        return Err(LinuxAudioError::AlsaCardChanged);
    }
    let card = &candidate.alsa_cards[0];
    proof {
        assert(views[found as int].alsa_cards[0] == card@);
    }
    let same_id = match &card.id {
        Some(id) => *id == *expected_id,
        None => false,
    };
    if card.number != expected_card.number || !same_id {
        return Err(LinuxAudioError::AlsaCardChanged);
    }
    Ok((card.copied(), UsbTopology::new(candidate.topology.as_str())))
}

/// The card and the two PCM devices that an attempt owns.
#[derive(Debug, Eq, PartialEq)]
pub struct SelectedPcmCard {
    pub identity: DeviceIdentity,
    pub topology: UsbTopology,
    pub card_number: u32,
    pub card_id: String,
    pub capture_device: u32,
    pub playback_device: u32,
}

/// Selects the one capture and the one playback device of a revalidated card.
pub fn select_pcm_devices(
    candidate: &UsbDeviceCandidate,
    card: AlsaCardInfo,
    topology: UsbTopology,
    capture: &[u32],
    playback: &[u32],
) -> (result: Result<SelectedPcmCard, LinuxAudioError>)
    ensures
        match result {
            Ok(selected) => {
                &&& card.id is Some && capture@.len() == 1 && playback@.len() == 1
                &&& selected.identity == candidate.identity
                &&& selected.topology == topology
                &&& selected.card_number == card.number
                &&& selected.card_id@ == card.id->Some_0@
                &&& selected.capture_device == capture@[0]
                &&& selected.playback_device == playback@[0]
            },
            Err(error) => error == if card.id is None {
                LinuxAudioError::MissingAlsaCardId
            } else if capture@.len() != 1 {
                LinuxAudioError::AmbiguousPcmDirection { direction: PcmDirection::Capture }
            } else {
                LinuxAudioError::AmbiguousPcmDirection { direction: PcmDirection::Playback }
            },
        },
        card.id is Some && capture@.len() == 1 && playback@.len() == 1 ==> result is Ok,
{
    let card_id = match card.id {
        Some(id) => id,
        None => {
            return Err(LinuxAudioError::MissingAlsaCardId);
        },
    };
    if capture.len() != 1 {
        return Err(LinuxAudioError::AmbiguousPcmDirection { direction: PcmDirection::Capture });
    }
    if playback.len() != 1 {
        return Err(LinuxAudioError::AmbiguousPcmDirection { direction: PcmDirection::Playback });
    }
    Ok(
        SelectedPcmCard {
            identity: candidate.identity,
            topology,
            card_number: card.number,
            card_id,
            capture_device: capture[0],
            playback_device: playback[0],
        },
    )
}

/// Whether a card and its PCM devices are still what was selected.
pub open spec fn still_selected(
    selected: SelectedPcmCard,
    identity: DeviceIdentity,
    card: AlsaCardView,
    topology: Seq<char>,
    capture: Seq<u32>,
    playback: Seq<u32>,
) -> bool {
    &&& selected.identity == identity
    &&& selected.topology.name@ == topology
    &&& selected.card_number == card.number
    &&& card.id == Some(selected.card_id@)
    &&& capture == seq![selected.capture_device]
    &&& playback == seq![selected.playback_device]
}

/// Checks that a revalidated card and its PCM devices are what was selected.
pub fn validate_selection(
    selected: &SelectedPcmCard,
    identity: DeviceIdentity,
    card: &AlsaCardInfo,
    topology: &UsbTopology,
    capture: &[u32],
    playback: &[u32],
) -> (result: Result<(), LinuxAudioError>)
    ensures
        result == if still_selected(
            *selected,
            identity,
            card@,
            topology.name@,
            capture@,
            playback@,
        ) {
            Ok::<(), LinuxAudioError>(())
        } else {
            Err::<(), LinuxAudioError>(LinuxAudioError::AlsaCardChanged)
        },
{
    let same_topology = selected.topology.name == topology.name;
    let same_id = match &card.id {
        Some(id) => *id == selected.card_id,
        None => false,
    };
    if selected.identity != identity || !same_topology || selected.card_number != card.number
        || !same_id {
        return Err(LinuxAudioError::AlsaCardChanged);
    }
    if capture.len() != 1 || capture[0] != selected.capture_device || playback.len() != 1
        || playback[0] != selected.playback_device {
        return Err(LinuxAudioError::AlsaCardChanged);
    }
    proof {
        assert(capture@ =~= seq![selected.capture_device]);
        assert(playback@ =~= seq![selected.playback_device]);
    }
    Ok(())
}

/// Checks that a candidate is the reviewed product before its card is selected.
pub fn validate_product(candidate: &UsbDeviceCandidate) -> (result: Result<(), LinuxAudioError>)
    ensures
        result == if candidate.identity.usb == wave3_usb() {
            Ok::<(), LinuxAudioError>(())
        } else {
            Err::<(), LinuxAudioError>(LinuxAudioError::AlsaCardChanged)
        },
{
    if candidate.identity.usb() != DeviceIdentity::wave3().usb() {
        return Err(LinuxAudioError::AlsaCardChanged);
    }
    Ok(())
}

/// Names the control device of a card; an invalid identifier has none.
pub fn control_name(card_id: &str) -> (result: Result<String, LinuxAudioError>)
    ensures
        match result {
            Ok(name) => valid_card_id(card_id@) && name@ == "hw:CARD="@ + card_id@,
            Err(error) => !valid_card_id(card_id@) && error == LinuxAudioError::InvalidAlsaCardId,
        },
{
    validate_card_id(card_id)?;
    Ok(String::from_str("hw:CARD=").concat(card_id))
}

/// Names one PCM device of a card; an invalid identifier has none.
pub fn pcm_name(card_id: &str, device: u32) -> (result: Result<String, LinuxAudioError>)
    ensures
        match result {
            Ok(name) => valid_card_id(card_id@) && name@ == "hw:CARD="@ + card_id@ + ",DEV="@
                + decimal(device as nat) + ",SUBDEV=0"@,
            Err(error) => !valid_card_id(card_id@) && error == LinuxAudioError::InvalidAlsaCardId,
        },
{
    validate_card_id(card_id)?;
    let mut name = String::from_str("hw:CARD=");
    name.append(card_id);
    name.append(",DEV=");
    name.append(decimal_text(device as u64).as_str());
    name.append(",SUBDEV=0");
    Ok(name)
}

/// What an opened PCM device says of itself.
#[derive(Clone, Copy, Debug, Eq, PartialEq, Structural)]
pub struct OpenedPcm {
    pub card: i32,
    pub device: u32,
    pub subdevice: u32,
    pub direction: PcmDirection,
}

/// Checks that the device that was opened is the one that was asked for.
pub fn validate_opened_pcm(
    opened: OpenedPcm,
    card_number: u32,
    device: u32,
    direction: PcmDirection,
) -> (result: Result<(), LinuxAudioError>)
    ensures
        result == if opened.card == (if card_number <= i32::MAX {
            card_number as int
        } else {
            -1
        }) && opened.device == device && opened.subdevice == 0 && opened.direction == direction {
            Ok::<(), LinuxAudioError>(())
        } else {
            Err::<(), LinuxAudioError>(LinuxAudioError::AlsaCardChanged)
        },
{
    let card: i32 = if card_number <= i32::MAX as u32 {
        card_number as i32
    } else {
        -1
    };
    if opened.card != card || opened.device != device || opened.subdevice != 0 || opened.direction
        != direction {
        return Err(LinuxAudioError::AlsaCardChanged);
    }
    Ok(())
}

/// Checks the applied hardware configuration; there is no fallback format or
/// geometry.
pub fn validate_applied_pcm(
    direction: PcmDirection,
    packed_format: bool,
    exact_geometry: bool,
) -> (result: Result<(), LinuxAudioError>)
    ensures
        result == if !packed_format {
            Err::<(), LinuxAudioError>(LinuxAudioError::UnsupportedPcmFormat { direction })
        } else if !exact_geometry {
            Err::<(), LinuxAudioError>(LinuxAudioError::PcmConfigurationAdjusted { direction })
        } else {
            Ok::<(), LinuxAudioError>(())
        },
{
    if !packed_format {
        return Err(LinuxAudioError::UnsupportedPcmFormat { direction });
    }
    if !exact_geometry {
        return Err(LinuxAudioError::PcmConfigurationAdjusted { direction });
    }
    Ok(())
}

/// Checks the applied software configuration: monotonic timestamps, and for
/// playback a start threshold that never starts the device by itself.
pub fn validate_applied_software(
    direction: PcmDirection,
    monotonic_timestamps: bool,
    exact_start_threshold: bool,
) -> (result: Result<(), LinuxAudioError>)
    ensures
        result == if !monotonic_timestamps {
            Err::<(), LinuxAudioError>(
                LinuxAudioError::PcmTimestampConfigurationAdjusted { direction },
            )
        } else if direction == PcmDirection::Playback && !exact_start_threshold {
            Err::<(), LinuxAudioError>(LinuxAudioError::PlaybackStartThresholdAdjusted)
        } else {
            Ok::<(), LinuxAudioError>(())
        },
{
    if !monotonic_timestamps {
        return Err(LinuxAudioError::PcmTimestampConfigurationAdjusted { direction });
    }
    if direction == PcmDirection::Playback && !exact_start_threshold {
        return Err(LinuxAudioError::PlaybackStartThresholdAdjusted);
    }
    Ok(())
}

/// The error numbers that PCM operations are classified by.
#[derive(Clone, Copy, Debug, Eq, PartialEq, Structural)]
pub struct ErrnoCodes {
    pub again: i32,
    pub interrupted: i32,
    pub broken_pipe: i32,
    pub stream_pipe: i32,
    pub no_device: i32,
    pub no_such_device: i32,
}

/// The error numbers of this machine: `libc`'s `EAGAIN`, `EINTR`, `EPIPE`,
/// `ESTRPIPE`, `ENODEV` and `ENXIO`. All but `ESTRPIPE` have one value on every
/// Linux machine; that one is 86 on most and 91 or 92 on the others.
#[verifier::external_body]
fn host_errno_codes() -> (codes: ErrnoCodes)
    ensures
        codes.again == 11,
        codes.interrupted == 4,
        codes.broken_pipe == 32,
        codes.stream_pipe == 86 || codes.stream_pipe == 91 || codes.stream_pipe == 92,
        codes.no_device == 19,
        codes.no_such_device == 6,
{
    ErrnoCodes {
        again: libc::EAGAIN,
        interrupted: libc::EINTR,
        broken_pipe: libc::EPIPE,
        stream_pipe: libc::ESTRPIPE,
        no_device: libc::ENODEV,
        no_such_device: libc::ENXIO,
    }
}

/// The class of a failed PCM operation.
pub open spec fn errno_class(errno: i32, codes: ErrnoCodes) -> PcmIoError {
    if errno == codes.again {
        PcmIoError::Again
    } else if errno == codes.interrupted {
        PcmIoError::Interrupted
    } else if errno == codes.broken_pipe {
        PcmIoError::Xrun
    } else if errno == codes.stream_pipe {
        PcmIoError::Suspended
    } else if errno == codes.no_device || errno == codes.no_such_device {
        PcmIoError::Disconnected
    } else {
        PcmIoError::Failed { errno }
    }
}

/// Classifies a failed PCM operation by the given error numbers.
pub fn classify_errno_with(errno: i32, codes: ErrnoCodes) -> (error: PcmIoError)
    ensures
        error == errno_class(errno, codes),
{
    if errno == codes.again {
        PcmIoError::Again
    } else if errno == codes.interrupted {
        PcmIoError::Interrupted
    } else if errno == codes.broken_pipe {
        PcmIoError::Xrun
    } else if errno == codes.stream_pipe {
        PcmIoError::Suspended
    } else if errno == codes.no_device || errno == codes.no_such_device {
        PcmIoError::Disconnected
    } else {
        PcmIoError::Failed { errno }
    }
}

/// Classifies a failed PCM operation by the error numbers of this machine.
pub fn classify_errno(errno: i32) -> (error: PcmIoError)
    ensures
        errno == 11 ==> error == PcmIoError::Again,
        errno == 4 ==> error == PcmIoError::Interrupted,
        errno == 32 ==> error == PcmIoError::Xrun,
        errno == 19 || errno == 6 ==> error == PcmIoError::Disconnected,
        errno == 86 || errno == 91 || errno == 92 ==> error == PcmIoError::Suspended || error == (
        PcmIoError::Failed { errno }),
        errno != 11 && errno != 4 && errno != 32 && errno != 19 && errno != 6 && errno != 86
            && errno != 91 && errno != 92 ==> error == (PcmIoError::Failed { errno }),
{
    classify_errno_with(errno, host_errno_codes())
}

/// How one direct capture read ended.
#[derive(Clone, Copy, Debug, Eq, PartialEq, Structural)]
pub enum CaptureRead {
    Frames(u64),
    WouldBlock,
    RecoveredXrun,
    Disconnected,
    Failed,
}

/// What a failed read calls for.
#[derive(Clone, Copy, Debug, Eq, PartialEq, Structural)]
pub enum ReadFailureStep {
    /// The read is over.
    Done(CaptureRead),
    /// Recover the stream, then call [`finish_failed_recovery`] or
    /// [`finish_alsa_recovery`].
    Recover,
}

/// What a failed read of the given class calls for.
pub open spec fn read_failure_step(error: PcmIoError) -> ReadFailureStep {
    match error {
        PcmIoError::Again => ReadFailureStep::Done(CaptureRead::WouldBlock),
        PcmIoError::Interrupted => ReadFailureStep::Done(CaptureRead::WouldBlock),
        PcmIoError::Xrun => ReadFailureStep::Recover,
        PcmIoError::Suspended => ReadFailureStep::Recover,
        PcmIoError::Disconnected => ReadFailureStep::Done(CaptureRead::Disconnected),
        PcmIoError::Failed { errno } => ReadFailureStep::Done(CaptureRead::Failed),
    }
}

/// Decides what a failed read of the given class calls for.
pub fn classify_alsa_read_error(error: PcmIoError) -> (step: ReadFailureStep)
    ensures
        step == read_failure_step(error),
{
    match error {
        PcmIoError::Again => ReadFailureStep::Done(CaptureRead::WouldBlock),
        PcmIoError::Interrupted => ReadFailureStep::Done(CaptureRead::WouldBlock),
        PcmIoError::Xrun => ReadFailureStep::Recover,
        PcmIoError::Suspended => ReadFailureStep::Recover,
        PcmIoError::Disconnected => ReadFailureStep::Done(CaptureRead::Disconnected),
        PcmIoError::Failed { errno: _ } => ReadFailureStep::Done(CaptureRead::Failed),
    }
}

/// The end of a read whose recovery, or restart behind it, failed.
pub fn finish_failed_recovery(error: PcmIoError) -> (read: CaptureRead)
    ensures
        read == if error == PcmIoError::Disconnected {
            CaptureRead::Disconnected
        } else {
            CaptureRead::Failed
        },
{
    if error == PcmIoError::Disconnected {
        CaptureRead::Disconnected
    } else {
        CaptureRead::Failed
    }
}

/// What a recovered stream calls for: a prepared one must be started.
#[derive(Clone, Copy, Debug, Eq, PartialEq, Structural)]
pub enum RecoveryStep {
    /// Start the stream; success is a recovered read.
    Start,
    /// The read is over.
    Done(CaptureRead),
}

/// Decides what a recovered stream in the given raw state calls for.
pub fn finish_alsa_recovery(state_raw: i32) -> (step: RecoveryStep)
    ensures
        step == if state_raw == 2 {
            RecoveryStep::Start
        } else if state_raw == 3 {
            RecoveryStep::Done(CaptureRead::RecoveredXrun)
        } else if state_raw == 8 {
            RecoveryStep::Done(CaptureRead::Disconnected)
        } else {
            RecoveryStep::Done(CaptureRead::Failed)
        },
{
    if state_raw == PCM_STATE_PREPARED {
        RecoveryStep::Start
    } else if state_raw == PCM_STATE_RUNNING {
        RecoveryStep::Done(CaptureRead::RecoveredXrun)
    } else if state_raw == PCM_STATE_DISCONNECTED {
        RecoveryStep::Done(CaptureRead::Disconnected)
    } else {
        RecoveryStep::Done(CaptureRead::Failed)
    }
}

/// A card that revalidates has the expected number and identifier, and its
/// identifier has the kernel's form.
pub proof fn law_revalidated_card_is_exact(expected: CandidateView, current: Seq<CandidateView>)
    ensures
        match revalidated(expected, current) {
            Ok((card, topology)) => {
                &&& expected.alsa_cards.len() == 1
                &&& card.number == expected.alsa_cards[0].number
                &&& card.id == expected.alsa_cards[0].id
                &&& card.id is Some && valid_card_id(card.id->Some_0)
                &&& topology == expected.topology
            },
            Err(_) => true,
        },
{
    lemma_matching_is_exact(expected, current);
    let found = matching(expected, current);
    if found.len() == 1 {
        assert(same_place(current[found[0]], expected));
    }
}

proof fn lemma_matching_is_exact(expected: CandidateView, current: Seq<CandidateView>)
    ensures
        forall|i: int|
            0 <= i < matching(expected, current).len() ==> {
                let position = #[trigger] matching(expected, current)[i];
                0 <= position < current.len() && same_place(current[position], expected)
            },
    decreases current.len(),
{
    if current.len() > 0 {
        lemma_matching_is_exact(expected, current.drop_last());
        let rest = matching(expected, current.drop_last());
        assert forall|i: int| 0 <= i < matching(expected, current).len() implies {
            let position = #[trigger] matching(expected, current)[i];
            0 <= position < current.len() && same_place(current[position], expected)
        } by {
            if i < rest.len() {
                assert(matching(expected, current)[i] == rest[i]);
                assert(current.drop_last()[rest[i]] == current[rest[i]]);
            }
        }
    }
}

/// A card revalidates exactly if the expected device named one card with a valid
/// identifier, and it is still at its place, once, with that one card.
pub proof fn law_unmoved_cards_revalidate(
    expected: CandidateView,
    current: Seq<CandidateView>,
    position: int,
)
    requires
        0 <= position < current.len(),
        current[position].identity == expected.identity,
        current[position].topology == expected.topology,
        forall|i: int|
            0 <= i < current.len() && i != position ==> (#[trigger] current[i]).identity
                != expected.identity || current[i].topology != expected.topology,
        expected.alsa_cards.len() == 1,
        expected.alsa_cards[0].id is Some,
        valid_card_id(expected.alsa_cards[0].id->Some_0),
    ensures
        current[position].alsa_cards.len() == 1 && current[position].alsa_cards[0].number
            == expected.alsa_cards[0].number && current[position].alsa_cards[0].id
            == expected.alsa_cards[0].id ==> revalidated(expected, current) == Ok::<
            (AlsaCardView, Seq<char>),
            LinuxAudioError,
        >((current[position].alsa_cards[0], current[position].topology)),
        !(current[position].alsa_cards.len() == 1 && current[position].alsa_cards[0].number
            == expected.alsa_cards[0].number && current[position].alsa_cards[0].id
            == expected.alsa_cards[0].id) ==> revalidated(expected, current) == Err::<
            (AlsaCardView, Seq<char>),
            LinuxAudioError,
        >(LinuxAudioError::AlsaCardChanged),
{
    lemma_one_match(expected, current, position);
}

proof fn lemma_no_match(expected: CandidateView, current: Seq<CandidateView>)
    requires
        forall|i: int| 0 <= i < current.len() ==> !same_place(#[trigger] current[i], expected),
    ensures
        matching(expected, current).len() == 0,
    decreases current.len(),
{
    if current.len() > 0 {
        assert forall|i: int| 0 <= i < current.drop_last().len() implies !same_place(
            #[trigger] current.drop_last()[i],
            expected,
        ) by {
            assert(current.drop_last()[i] == current[i]);
        }
        lemma_no_match(expected, current.drop_last());
    }
}

proof fn lemma_one_match(expected: CandidateView, current: Seq<CandidateView>, position: int)
    requires
        0 <= position < current.len(),
        same_place(current[position], expected),
        forall|i: int|
            0 <= i < current.len() && i != position ==> !same_place(
                #[trigger] current[i],
                expected,
            ),
    ensures
        matching(expected, current) == seq![position],
    decreases current.len(),
{
    let start = current.drop_last();
    if position == current.len() - 1 {
        assert forall|i: int| 0 <= i < start.len() implies !same_place(
            #[trigger] start[i],
            expected,
        ) by {
            assert(start[i] == current[i]);
        }
        lemma_no_match(expected, start);
    } else {
        assert forall|i: int| 0 <= i < start.len() && i != position implies !same_place(
            #[trigger] start[i],
            expected,
        ) by {
            assert(start[i] == current[i]);
        }
        lemma_one_match(expected, start, position);
    }
    assert(matching(expected, current) =~= seq![position]);
}

/// A card that has moved away does not revalidate, nor does one whose place is
/// taken twice.
pub proof fn law_moved_or_doubled_cards_do_not_revalidate(
    expected: CandidateView,
    current: Seq<CandidateView>,
    first: int,
    second: int,
)
    ensures
        (forall|i: int|
            0 <= i < current.len() ==> !same_place(#[trigger] current[i], expected))
            ==> revalidated(expected, current) is Err,
        0 <= first < second < current.len() && same_place(current[first], expected) && same_place(
            current[second],
            expected,
        ) ==> revalidated(expected, current) is Err,
        expected.alsa_cards.len() != 1 ==> revalidated(expected, current) == Err::<
            (AlsaCardView, Seq<char>),
            LinuxAudioError,
        >(LinuxAudioError::AmbiguousAlsaCard),
        expected.alsa_cards.len() == 1 && expected.alsa_cards[0].id is None ==> revalidated(
            expected,
            current,
        ) == Err::<(AlsaCardView, Seq<char>), LinuxAudioError>(LinuxAudioError::MissingAlsaCardId),
{
    if forall|i: int| 0 <= i < current.len() ==> !same_place(#[trigger] current[i], expected) {
        lemma_no_match(expected, current);
    }
    if 0 <= first < second < current.len() && same_place(current[first], expected) && same_place(
        current[second],
        expected,
    ) {
        lemma_matches_counted(expected, current, first);
        lemma_matches_counted(expected, current, second);
        let found = matching(expected, current);
        let a = choose|a: int| 0 <= a < found.len() && found[a] == first;
        let b = choose|b: int| 0 <= b < found.len() && found[b] == second;
        assert(a != b);
    }
}

proof fn lemma_matches_counted(expected: CandidateView, current: Seq<CandidateView>, position: int)
    requires
        0 <= position < current.len(),
        same_place(current[position], expected),
    ensures
        matching(expected, current).contains(position),
    decreases current.len(),
{
    let rest = matching(expected, current.drop_last());
    if position == current.len() - 1 {
        assert(matching(expected, current)[rest.len() as int] == position);
    } else {
        lemma_matches_counted(expected, current.drop_last(), position);
        let k = choose|k: int| 0 <= k < rest.len() && rest[k] == position;
        assert(matching(expected, current)[k] == position);
    }
}

/// A selection stands exactly if nothing about it has changed: the device, its
/// place, its card, and its one capture and one playback device.
pub proof fn law_selection_stands_only_unchanged(
    selected: SelectedPcmCard,
    identity: DeviceIdentity,
    card: AlsaCardView,
    topology: Seq<char>,
    capture: Seq<u32>,
    playback: Seq<u32>,
)
    ensures
        still_selected(selected, identity, card, topology, capture, playback) <==> {
            &&& identity == selected.identity
            &&& topology == selected.topology.name@
            &&& card.number == selected.card_number
            &&& card.id is Some && card.id->Some_0 == selected.card_id@
            &&& capture.len() == 1 && capture[0] == selected.capture_device
            &&& playback.len() == 1 && playback[0] == selected.playback_device
        },
{
    if capture.len() == 1 && capture[0] == selected.capture_device {
        assert(capture =~= seq![selected.capture_device]);
    }
    if playback.len() == 1 && playback[0] == selected.playback_device {
        assert(playback =~= seq![selected.playback_device]);
    }
}

/// Card identifiers are one letter and up to fourteen letters, digits and
/// underscores behind it.
pub proof fn law_card_identifiers_are_words(id: Seq<char>)
    ensures
        valid_card_id(id) <==> {
            &&& 1 <= id.len() <= 15
            &&& ('a' <= id[0] && id[0] <= 'z') || ('A' <= id[0] && id[0] <= 'Z')
            &&& forall|i: int|
                1 <= i < id.len() ==> ('a' <= #[trigger] id[i] && id[i] <= 'z') || ('A' <= id[i]
                    && id[i] <= 'Z') || ('0' <= id[i] && id[i] <= '9') || id[i] == '_'
        },
{
    if valid_card_id(id) {
        assert forall|i: int| 1 <= i < id.len() implies ('a' <= #[trigger] id[i] && id[i] <= 'z')
            || ('A' <= id[i] && id[i] <= 'Z') || ('0' <= id[i] && id[i] <= '9') || id[i] == '_' by {
            assert(is_card_id_char(id[i]));
        }
    }
}

/// Where the six numbers differ, each has its own class, both of a lost device
/// have one, and every other number is passed on.
pub proof fn law_error_numbers_keep_their_class(errno: i32, codes: ErrnoCodes)
    requires
        codes.again != codes.interrupted,
        codes.again != codes.broken_pipe,
        codes.again != codes.stream_pipe,
        codes.again != codes.no_device,
        codes.again != codes.no_such_device,
        codes.interrupted != codes.broken_pipe,
        codes.interrupted != codes.stream_pipe,
        codes.interrupted != codes.no_device,
        codes.interrupted != codes.no_such_device,
        codes.broken_pipe != codes.stream_pipe,
        codes.broken_pipe != codes.no_device,
        codes.broken_pipe != codes.no_such_device,
        codes.stream_pipe != codes.no_device,
        codes.stream_pipe != codes.no_such_device,
    ensures
        errno_class(errno, codes) == PcmIoError::Again <==> errno == codes.again,
        errno_class(errno, codes) == PcmIoError::Interrupted <==> errno == codes.interrupted,
        errno_class(errno, codes) == PcmIoError::Xrun <==> errno == codes.broken_pipe,
        errno_class(errno, codes) == PcmIoError::Suspended <==> errno == codes.stream_pipe,
        errno_class(errno, codes) == PcmIoError::Disconnected <==> errno == codes.no_device || errno
            == codes.no_such_device,
        errno_class(errno, codes) is Failed ==> errno_class(errno, codes) == (PcmIoError::Failed {
            errno,
        }),
{
}

/// Only a lost or suspended stream is recovered; a transient failure is an empty
/// read, a lost device is told apart, and every other failure ends the read.
pub proof fn law_only_stream_faults_are_recovered(error: PcmIoError)
    ensures
        read_failure_step(error) == ReadFailureStep::Recover <==> error == PcmIoError::Xrun || error
            == PcmIoError::Suspended,
        read_failure_step(error) == ReadFailureStep::Done(CaptureRead::WouldBlock) <==> error
            == PcmIoError::Again || error == PcmIoError::Interrupted,
        read_failure_step(error) == ReadFailureStep::Done(CaptureRead::Disconnected) <==> error
            == PcmIoError::Disconnected,
        read_failure_step(error) == ReadFailureStep::Done(CaptureRead::Failed) <==> error is Failed,
{
}

} // verus!
