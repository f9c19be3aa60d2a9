//! Physical-object inspection of the `PipeWire` registry.

use crate::parse::{
    all_digits, characters, find_char, first_char, has_prefix, is_digit, law_decimal_is_read_back,
    law_first_char_is_the_first, law_numerals_are_canonical, number_of, parse_number, starts_with,
};
use crate::text::decimal;
use vstd::prelude::*;
use vstd::slice::slice_subrange;
use vstd::string::*;

verus! {

/// The kind of a registry object.
#[derive(Clone, Copy, Debug, Eq, PartialEq, Structural)]
pub enum PhysicalObjectKind {
    Device,
    Node,
    Other,
}

/// The properties that tell whether an object belongs to a physical card.
#[derive(Clone, Copy, Debug, Eq, PartialEq)]
pub struct PhysicalObjectProperties<'a> {
    pub vendor_id: Option<&'a str>,
    pub product_id: Option<&'a str>,
    pub alsa_card: Option<&'a str>,
    pub alsa_path: Option<&'a str>,
}

impl<'a> Default for PhysicalObjectProperties<'a> {
    fn default() -> (properties: Self)
        ensures
            properties.vendor_id is None,
            properties.product_id is None,
            properties.alsa_card is None,
            properties.alsa_path is None,
    {
        PhysicalObjectProperties {
            vendor_id: None,
            product_id: None,
            alsa_card: None,
            alsa_path: None,
        }
    }
}

/// The number that a canonical decimal numeral denotes: digits only, and no
/// leading zero but for zero itself.
pub open spec fn canonical_number(text: Seq<char>) -> Option<nat> {
    if text.len() == 0 || !all_digits(text, 10) || (text.len() > 1 && text[0] == '0') || number_of(
        text,
        10,
    ) > u32::MAX {
        None
    } else {
        Some(number_of(text, 10))
    }
}

/// Parses a canonical decimal numeral.
pub fn parse_canonical_number(text: &[char]) -> (result: Option<u32>)
    ensures
        match result {
            Some(number) => canonical_number(text@) == Some(number as nat),
            None => canonical_number(text@) is None,
        },
{
    if text.len() == 0 {
        return None;
    }
    if text[0] == '+' {
        proof {
            assert(!is_digit(text@[0], 10));
        }
        return None;
    }
    if text.len() > 1 && text[0] == '0' {
        return None;
    }
    match parse_number(text, 10, 0xffff_ffff) {
        Some(number) => Some(number as u32),
        None => None,
    }
}

/// Whether up to `count` canonical numerals, each behind a comma, are all that
/// `text` holds.
pub open spec fn numeral_list(text: Seq<char>, count: nat) -> bool
    decreases count,
{
    if text.len() == 0 {
        true
    } else if text[0] != ',' || count == 0 {
        false
    } else {
        let rest = text.skip(1);
        let end = first_char(rest, ',') as int;
        canonical_number(rest.take(end)) is Some && numeral_list(rest.skip(end), (count - 1) as nat)
    }
}

/// The card number of a hardware path: `hw:`, the card, and up to two more
/// numerals, each behind a comma.
pub open spec fn hw_card(path: Seq<char>) -> Option<nat> {
    if !starts_with(path, "hw:"@) {
        None
    } else {
        let rest = path.skip(3);
        let end = first_char(rest, ',') as int;
        match canonical_number(rest.take(end)) {
            None => None,
            Some(card) => if numeral_list(rest.skip(end), 2) {
                Some(card)
            } else {
                None
            },
        }
    }
}

fn is_numeral_list(text: &[char], count: u32) -> (result: bool)
    ensures
        result == numeral_list(text@, count as nat),
    decreases count,
{
    if text.len() == 0 {
        return true;
    }
    if text[0] != ',' || count == 0 {
        return false;
    }
    let rest = slice_subrange(text, 1, text.len());
    let end: usize = find_char(rest, ',');
    let numeral = slice_subrange(rest, 0, end);
    let tail = slice_subrange(rest, end, rest.len());
    proof {
        assert(rest@ =~= text@.skip(1));
        assert(numeral@ =~= rest@.take(end as int));
        assert(tail@ =~= rest@.skip(end as int));
    }
    parse_canonical_number(numeral).is_some() && is_numeral_list(tail, count - 1)
}

/// Parses the card number of a hardware path.
pub fn parse_hw_card(path: &str) -> (result: Option<u32>)
    ensures
        match result {
            Some(card) => hw_card(path@) == Some(card as nat),
            None => hw_card(path@) is None,
        },
{
    let all = characters(path);
    let prefix = characters("hw:");
    proof {
        reveal_strlit("hw:");
    }
    if !has_prefix(all.as_slice(), prefix.as_slice()) {
        return None;
    }
    let rest = slice_subrange(all.as_slice(), 3, all.len());
    let end: usize = find_char(rest, ',');
    let numeral = slice_subrange(rest, 0, end);
    let tail = slice_subrange(rest, end, rest.len());
    proof {
        assert(rest@ =~= all@.skip(3));
        assert(numeral@ =~= rest@.take(end as int));
        assert(tail@ =~= rest@.skip(end as int));
    }
    let card: u32 = match parse_canonical_number(numeral) {
        Some(card) => card,
        None => {
            return None;
        },
    };
    if is_numeral_list(tail, 2) {
        Some(card)
    } else {
        None
    }
}

/// Whether an optional property has exactly the given text.
pub open spec fn is_text(property: Option<&str>, text: Seq<char>) -> bool {
    match property {
        Some(value) => value@ == text,
        None => false,
    }
}

fn has_text(property: Option<&str>, text: &str) -> (result: bool)
    ensures
        result == is_text(property, text@),
{
    match property {
        Some(value) => {
            let left = characters(value);
            let right = characters(text);
            if left.len() != right.len() {
                return false;
            }
            for index in 0..left.len()
                invariant
                    left@ == value@,
                    right@ == text@,
                    left@.len() == right@.len(),
                    property == Some(value),
                    forall|i: int| 0 <= i < index ==> #[trigger] left@[i] == right@[i],
            {
                if left[index] != right[index] {
                    return false;
                }
            }
            proof {
                assert(left@ =~= right@);
            }
            true
        },
        None => false,
    }
}

/// Whether a registry object exposes the physical card `expected_card`.
pub open spec fn exposes_card(
    kind: PhysicalObjectKind,
    properties: PhysicalObjectProperties<'_>,
    expected_card: u32,
) -> bool {
    match kind {
        PhysicalObjectKind::Device => {
            &&& is_text(properties.vendor_id, "0x0fd9"@)
            &&& is_text(properties.product_id, "0x0070"@)
            &&& properties.alsa_card is Some
            &&& canonical_number(properties.alsa_card->Some_0@) == Some(expected_card as nat)
        },
        PhysicalObjectKind::Node => properties.alsa_path is Some && hw_card(
            properties.alsa_path->Some_0@,
        ) == Some(expected_card as nat),
        PhysicalObjectKind::Other => false,
    }
}

/// Tells whether a registry object exposes the physical card `expected_card`.
pub fn is_candidate_physical_object(
    kind: PhysicalObjectKind,
    properties: PhysicalObjectProperties<'_>,
    expected_card: u32,
) -> (exposed: bool)
    ensures
        exposed == exposes_card(kind, properties, expected_card),
{
    match kind {
        PhysicalObjectKind::Device => {
            let card = match properties.alsa_card {
                Some(card) => {
                    let numeral = characters(card);
                    parse_canonical_number(numeral.as_slice())
                },
                None => None,
            };
            let same_card = match card {
                Some(number) => number == expected_card,
                None => false,
            };
            has_text(properties.vendor_id, "0x0fd9") && has_text(properties.product_id, "0x0070")
                && same_card
        },
        PhysicalObjectKind::Node => match properties.alsa_path {
            Some(path) => match parse_hw_card(path) {
                Some(number) => number == expected_card,
                None => false,
            },
            None => false,
        },
        PhysicalObjectKind::Other => false,
    }
}

/// A numeral is canonical exactly if it is the decimal text of a number of 32
/// bits, and it denotes that number.
pub proof fn law_canonical_numerals_are_decimal(text: Seq<char>, number: nat)
    ensures
        canonical_number(text) == Some(number) <==> text == decimal(number) && number <= u32::MAX,
{
    law_decimal_is_read_back(number);
    if canonical_number(text) == Some(number) {
        law_numerals_are_canonical(text);
    }
    if text == decimal(number) && number <= u32::MAX {
        if text.len() > 1 {
            assert(number >= 10);
        }
    }
}

/// A hardware path names its card: `hw:` and the card's decimal number, alone or
/// with a device, or with a device and a subdevice, each behind a comma.
pub proof fn law_hardware_paths_name_their_card(card: nat, device: nat, subdevice: nat)
    requires
        card <= u32::MAX,
        device <= u32::MAX,
        subdevice <= u32::MAX,
    ensures
        hw_card("hw:"@ + decimal(card)) == Some(card),
        hw_card("hw:"@ + decimal(card) + seq![','] + decimal(device)) == Some(card),
        hw_card(
            "hw:"@ + decimal(card) + seq![','] + decimal(device) + seq![','] + decimal(subdevice),
        ) == Some(card),
{
    reveal_strlit("hw:");
    law_canonical_numerals_are_decimal(decimal(card), card);
    let none = Seq::<char>::empty();
    let third = seq![','] + decimal(subdevice);
    let second = seq![','] + decimal(device);
    lemma_listed_numeral(subdevice, none, 0);
    lemma_listed_numeral(subdevice, none, 1);
    lemma_listed_numeral(device, none, 1);
    assert(third + none =~= third);
    assert(second + none =~= second);
    lemma_listed_numeral(device, third, 1);
    lemma_path_card(card, none);
    lemma_path_card(card, second);
    lemma_path_card(card, second + third);
    assert("hw:"@ + decimal(card) + none =~= "hw:"@ + decimal(card));
    assert("hw:"@ + decimal(card) + second =~= "hw:"@ + decimal(card) + seq![','] + decimal(
        device,
    ));
    assert("hw:"@ + decimal(card) + (second + third) =~= "hw:"@ + decimal(card) + seq![',']
        + decimal(device) + seq![','] + decimal(subdevice));
}

proof fn lemma_numeral_end(number: nat, rest: Seq<char>)
    requires
        rest.len() == 0 || rest[0] == ',',
    ensures
        first_char(decimal(number) + rest, ',') == decimal(number).len(),
        (decimal(number) + rest).take(decimal(number).len() as int) == decimal(number),
        (decimal(number) + rest).skip(decimal(number).len() as int) == rest,
{
    let digits = decimal(number);
    let text = digits + rest;
    law_decimal_is_read_back(number);
    law_first_char_is_the_first(text, ',');
    let end = first_char(text, ',') as int;
    assert(text.take(digits.len() as int) =~= digits);
    assert(text.skip(digits.len() as int) =~= rest);
    if end < digits.len() {
        assert(text[end] == digits[end]);
        assert(is_digit(digits[end], 10));
    }
    if end > digits.len() {
        assert(text[digits.len() as int] == rest[0]);
    }
}

proof fn lemma_listed_numeral(number: nat, rest: Seq<char>, count: nat)
    requires
        number <= u32::MAX,
        rest.len() == 0 || rest[0] == ',',
        numeral_list(rest, count),
    ensures
        numeral_list(seq![','] + decimal(number) + rest, count + 1),
{
    let text = seq![','] + decimal(number) + rest;
    assert(text.skip(1) =~= decimal(number) + rest);
    lemma_numeral_end(number, rest);
    law_canonical_numerals_are_decimal(decimal(number), number);
}

proof fn lemma_path_card(card: nat, rest: Seq<char>)
    requires
        card <= u32::MAX,
        rest.len() == 0 || rest[0] == ',',
        numeral_list(rest, 2),
    ensures
        hw_card("hw:"@ + decimal(card) + rest) == Some(card),
{
    reveal_strlit("hw:");
    let path = "hw:"@ + decimal(card) + rest;
    assert(path.take(3) =~= "hw:"@);
    assert(path.skip(3) =~= decimal(card) + rest);
    lemma_numeral_end(card, rest);
    law_canonical_numerals_are_decimal(decimal(card), card);
}

/// An object exposes a card exactly if it is the product's device with that card's
/// number, or a node whose hardware path names the card.
pub proof fn law_exposed_cards_are_devices_and_nodes(
    properties: PhysicalObjectProperties<'_>,
    expected_card: u32,
)
    ensures
        exposes_card(PhysicalObjectKind::Device, properties, expected_card) <==> {
            &&& properties.vendor_id is Some && properties.vendor_id->Some_0@ == "0x0fd9"@
            &&& properties.product_id is Some && properties.product_id->Some_0@ == "0x0070"@
            &&& properties.alsa_card is Some && properties.alsa_card->Some_0@ == decimal(
                expected_card as nat,
            )
        },
        exposes_card(PhysicalObjectKind::Node, properties, expected_card) <==> (
        properties.alsa_path is Some && hw_card(properties.alsa_path->Some_0@) == Some(
            expected_card as nat,
        )),
        !exposes_card(PhysicalObjectKind::Other, properties, expected_card),
{
    if properties.alsa_card is Some {
        law_canonical_numerals_are_decimal(
            properties.alsa_card->Some_0@,
            expected_card as nat,
        );
    }
}

} // verus!
