//! Small text scanners over characters.

use crate::text::{decimal, digit_char, hex4, signed_decimal};
use vstd::prelude::*;
use vstd::slice::slice_subrange;
use vstd::string::*;

verus! {

/// Unicode's `White_Space` property.
pub open spec fn is_space(c: char) -> bool {
    let code = c as u32;
    ||| 0x09 <= code <= 0x0d
    ||| code == 0x20
    ||| code == 0x85
    ||| code == 0xa0
    ||| code == 0x1680
    ||| 0x2000 <= code <= 0x200a
    ||| code == 0x2028
    ||| code == 0x2029
    ||| code == 0x202f
    ||| code == 0x205f
    ||| code == 0x3000
}

/// The number of white space characters at the start of `text`.
pub open spec fn leading_space(text: Seq<char>) -> nat
    decreases text.len(),
{
    if text.len() == 0 || !is_space(text[0]) {
        0
    } else {
        1 + leading_space(text.drop_first())
    }
}

/// `text` without white space at its start.
pub open spec fn trimmed_start(text: Seq<char>) -> Seq<char> {
    text.skip(leading_space(text) as int)
}

/// `text` without white space at its end.
pub open spec fn trimmed_end(text: Seq<char>) -> Seq<char>
    decreases text.len(),
{
    if text.len() == 0 || !is_space(text.last()) {
        text
    } else {
        trimmed_end(text.drop_last())
    }
}

/// `text` without white space at either end.
pub open spec fn trimmed(text: Seq<char>) -> Seq<char> {
    trimmed_end(trimmed_start(text))
}

/// The position of the first `wanted` in `text`, or its length.
pub open spec fn first_char(text: Seq<char>, wanted: char) -> nat
    decreases text.len(),
{
    if text.len() == 0 || text[0] == wanted {
        0
    } else {
        1 + first_char(text.drop_first(), wanted)
    }
}

/// Whether `text` begins with `prefix`.
pub open spec fn starts_with(text: Seq<char>, prefix: Seq<char>) -> bool {
    prefix.len() <= text.len() && text.take(prefix.len() as int) == prefix
}

/// The position of the first occurrence of `part` in `text`, if there is one.
pub open spec fn first_occurrence(text: Seq<char>, part: Seq<char>) -> Option<nat>
    decreases text.len(),
{
    if starts_with(text, part) {
        Some(0)
    } else if text.len() == 0 {
        None
    } else {
        match first_occurrence(text.drop_first(), part) {
            Some(position) => Some(position + 1),
            None => None,
        }
    }
}

/// The value of a digit in bases up to 36, in either case.
pub open spec fn digit_value(c: char) -> Option<nat> {
    let code = c as u32;
    if 0x30 <= code <= 0x39 {
        Some((code - 0x30) as nat)
    } else if 0x61 <= code <= 0x7a {
        Some((code - 0x61 + 10) as nat)
    } else if 0x41 <= code <= 0x5a {
        Some((code - 0x41 + 10) as nat)
    } else {
        None
    }
}

/// Whether `c` is a digit of base `radix`.
pub open spec fn is_digit(c: char, radix: nat) -> bool {
    match digit_value(c) {
        Some(value) => value < radix,
        None => false,
    }
}

/// Whether every character of `text` is a digit of base `radix`.
pub open spec fn all_digits(text: Seq<char>, radix: nat) -> bool {
    forall|i: int| 0 <= i < text.len() ==> is_digit(#[trigger] text[i], radix)
}

/// The number that the digits of `text` denote in base `radix`.
pub open spec fn number_of(text: Seq<char>, radix: nat) -> nat
    decreases text.len(),
{
    if text.len() == 0 {
        0
    } else {
        number_of(text.drop_last(), radix) * radix + digit_value(text.last())->Some_0
    }
}

/// The number that `text` denotes in base `radix`: at least one digit, behind an
/// optional plus sign, of a value up to `maximum`.
pub open spec fn parsed_number(text: Seq<char>, radix: nat, maximum: nat) -> Option<nat> {
    let digits = if text.len() > 0 && text[0] == '+' {
        text.skip(1)
    } else {
        text
    };
    if digits.len() > 0 && all_digits(digits, radix) && number_of(digits, radix) <= maximum {
        Some(number_of(digits, radix))
    } else {
        None
    }
}

/// Copies the characters of `text`.
pub fn characters(text: &str) -> (result: Vec<char>)
    ensures
        result@ == text@,
{
    let mut result: Vec<char> = Vec::new();
    for c in it: text.chars()
        invariant
            it.seq() == text@,
            result@ == text@.take(it.index() as int),
    {
        result.push(c);
    }
    proof {
        assert(result@ =~= text@);
    }
    result
}

/// Tests Unicode's `White_Space` property.
pub fn is_white_space(c: char) -> (result: bool)
    ensures
        result == is_space(c),
{
    let code: u32 = c as u32;
    (0x09 <= code && code <= 0x0d) || code == 0x20 || code == 0x85 || code == 0xa0 || code == 0x1680
        || (0x2000 <= code && code <= 0x200a) || code == 0x2028 || code == 0x2029 || code == 0x202f
        || code == 0x205f || code == 0x3000
}

/// Appends one character, as `String::push` documents.
#[verifier::external_body]
fn push_character(text: &mut String, c: char)
    ensures
        final(text)@ == old(text)@.push(c),
{
    text.push(c);
}

/// Makes a text of its characters.
pub fn text_of(characters: &[char]) -> (text: String)
    ensures
        text@ == characters@,
{
    let mut text = String::new();
    for index in 0..characters.len()
        invariant
            text@ == characters@.take(index as int),
    {
        push_character(&mut text, characters[index]);
        proof {
            assert(characters@.take(index + 1) =~= characters@.take(index as int).push(
                characters@[index as int],
            ));
        }
    }
    proof {
        assert(characters@.take(characters@.len() as int) =~= characters@);
    }
    text
}

/// Counts the white space characters at the start of `text`.
pub fn count_leading_space(text: &[char]) -> (count: usize)
    ensures
        count == leading_space(text@),
        count <= text@.len(),
{
    let mut count: usize = 0;
    proof {
        assert(text@.skip(0) =~= text@);
    }
    while count < text.len() && is_white_space(text[count])
        invariant
            count <= text@.len(),
            leading_space(text@) == count + leading_space(text@.skip(count as int)),
        decreases text@.len() - count,
    {
        proof {
            assert(text@.skip(count as int).drop_first() =~= text@.skip(count + 1));
        }
        count = count + 1;
    }
    count
}

/// Removes white space at the start of `text`.
pub fn trim_start(text: &[char]) -> (result: &[char])
    ensures
        result@ == trimmed_start(text@),
{
    let count: usize = count_leading_space(text);
    slice_subrange(text, count, text.len())
}

/// Removes white space at both ends of `text`.
pub fn trim(text: &[char]) -> (result: &[char])
    ensures
        result@ == trimmed(text@),
{
    let start = trim_start(text);
    let mut end: usize = start.len();
    proof {
        assert(start@.take(end as int) =~= start@);
    }
    while end > 0 && is_white_space(start[end - 1])
        invariant
            end <= start@.len(),
            trimmed_end(start@) == trimmed_end(start@.take(end as int)),
        decreases end,
    {
        proof {
            assert(start@.take(end as int).drop_last() =~= start@.take(end - 1));
        }
        end = end - 1;
    }
    slice_subrange(start, 0, end)
}

/// Finds the first `wanted` in `text`; its length where there is none.
pub fn find_char(text: &[char], wanted: char) -> (position: usize)
    ensures
        position == first_char(text@, wanted),
        position <= text@.len(),
        position < text@.len() ==> text@[position as int] == wanted,
{
    let mut position: usize = 0;
    proof {
        assert(text@.skip(0) =~= text@);
    }
    while position < text.len() && text[position] != wanted
        invariant
            position <= text@.len(),
            first_char(text@, wanted) == position + first_char(text@.skip(position as int), wanted),
        decreases text@.len() - position,
    {
        proof {
            assert(text@.skip(position as int).drop_first() =~= text@.skip(position + 1));
        }
        position = position + 1;
    }
    position
}

/// Tells whether `text` begins with `prefix`.
pub fn has_prefix(text: &[char], prefix: &[char]) -> (result: bool)
    ensures
        result == starts_with(text@, prefix@),
{
    if prefix.len() > text.len() {
        return false;
    }
    for index in 0..prefix.len()
        invariant
            prefix@.len() <= text@.len(),
            forall|i: int| 0 <= i < index ==> #[trigger] text@[i] == prefix@[i],
    {
        if text[index] != prefix[index] {
            proof {
                assert(text@.take(prefix@.len() as int)[index as int] != prefix@[index as int]);
            }
            return false;
        }
    }
    proof {
        assert(text@.take(prefix@.len() as int) =~= prefix@);
    }
    true
}

/// Finds the first occurrence of `part` in `text`.
pub fn find_part(text: &[char], part: &[char]) -> (result: Option<usize>)
    ensures
        match result {
            Some(position) => first_occurrence(text@, part@) == Some(position as nat) && position
                + part@.len() <= text@.len(),
            None => first_occurrence(text@, part@) is None,
        },
{
    let length: usize = text.len();
    let mut position: usize = 0;
    proof {
        assert(text@.skip(0) =~= text@);
    }
    loop
        invariant
            length == text@.len(),
            position <= length,
            first_occurrence(text@, part@) == (match first_occurrence(
                text@.skip(position as int),
                part@,
            ) {
                Some(rest) => Some(position as nat + rest),
                None => None,
            }),
        decreases length - position,
    {
        if has_prefix(slice_subrange(text, position, length), part) {
            return Some(position);
        }
        if position == length {
            return None;
        }
        proof {
            assert(text@.skip(position as int).drop_first() =~= text@.skip(position + 1));
        }
        position = position + 1;
    }
}

fn digit_of(c: char, radix: u32) -> (digit: Option<u64>)
    ensures
        match digit {
            Some(value) => is_digit(c, radix as nat) && digit_value(c) == Some(value as nat),
            None => !is_digit(c, radix as nat),
        },
{
    let code: u32 = c as u32;
    let value: u32 = if 0x30 <= code && code <= 0x39 {
        code - 0x30
    } else if 0x61 <= code && code <= 0x7a {
        code - 0x61 + 10
    } else if 0x41 <= code && code <= 0x5a {
        code - 0x41 + 10
    } else {
        return None;
    };
    if value < radix {
        Some(value as u64)
    } else {
        None
    }
}

/// The digits of a longer text denote at least what its start denotes.
proof fn lemma_number_grows(text: Seq<char>, count: int, radix: nat)
    requires
        0 <= count <= text.len(),
        radix >= 1,
    ensures
        number_of(text.take(count), radix) <= number_of(text, radix),
    decreases text.len(),
{
    if count == text.len() {
        assert(text.take(count) =~= text);
    } else {
        lemma_number_grows(text.drop_last(), count, radix);
        assert(text.drop_last().take(count) =~= text.take(count));
        assert(number_of(text.drop_last(), radix) * radix >= number_of(text.drop_last(), radix))
            by (nonlinear_arith)
            requires
                radix >= 1,
        ;
    }
}

/// Parses a number in base `radix`: at least one digit, behind an optional plus
/// sign, of a value up to `maximum`.
pub fn parse_number(text: &[char], radix: u32, maximum: u64) -> (result: Option<u64>)
    requires
        2 <= radix <= 36,
        maximum <= u32::MAX,
    ensures
        match result {
            Some(value) => parsed_number(text@, radix as nat, maximum as nat) == Some(value as nat)
                && value <= maximum,
            None => parsed_number(text@, radix as nat, maximum as nat) is None,
        },
{
    let signed = text.len() > 0 && text[0] == '+';
    let digits = if signed {
        slice_subrange(text, 1, text.len())
    } else {
        text
    };
    proof {
        if signed {
            assert(digits@ =~= text@.skip(1));
        }
    }
    if digits.len() == 0 {
        return None;
    }
    let mut value: u64 = 0;
    for index in 0..digits.len()
        invariant
            2 <= radix <= 36,
            maximum <= u32::MAX,
            value <= maximum,
            value == number_of(digits@.take(index as int), radix as nat),
            forall|i: int| 0 <= i < index ==> is_digit(#[trigger] digits@[i], radix as nat),
            parsed_number(text@, radix as nat, maximum as nat) == (if digits@.len() > 0
                && all_digits(digits@, radix as nat) && number_of(digits@, radix as nat)
                <= maximum {
                Some(number_of(digits@, radix as nat))
            } else {
                None
            }),
    {
        let digit: u64 = match digit_of(digits[index], radix) {
            Some(digit) => digit,
            None => {
                return None;
            },
        };
        proof {
            let prefix = digits@.take(index + 1);
            assert(prefix.drop_last() =~= digits@.take(index as int));
            assert(prefix.last() == digits@[index as int]);
            assert(value * radix <= u32::MAX * 36) by (nonlinear_arith)
                requires
                    value <= u32::MAX,
                    radix <= 36,
            ;
            lemma_number_grows(digits@, index + 1, radix as nat);
        }
        value = value * (radix as u64) + digit;
        if value > maximum {
            return None;
        }
    }
    proof {
        assert(digits@.take(digits@.len() as int) =~= digits@);
    }
    Some(value)
}

/// Trimming removes white space at the ends and nothing else: what is left is a
/// part of the text, everything before and behind it is white space, and it neither
/// begins nor ends with any.
pub proof fn law_trimming_removes_only_outer_space(text: Seq<char>)
    ensures
        leading_space(text) + trimmed(text).len() <= text.len(),
        trimmed(text) == text.subrange(
            leading_space(text) as int,
            (leading_space(text) + trimmed(text).len()) as int,
        ),
        forall|i: int| 0 <= i < leading_space(text) ==> is_space(#[trigger] text[i]),
        forall|i: int|
            leading_space(text) + trimmed(text).len() <= i < text.len() ==> is_space(
                #[trigger] text[i],
            ),
        trimmed(text).len() > 0 ==> !is_space(trimmed(text)[0]) && !is_space(trimmed(text).last()),
{
    lemma_leading_space(text);
    let start = trimmed_start(text);
    lemma_trimmed_end(start);
    let skipped = leading_space(text) as int;
    let kept = trimmed(text).len() as int;
    assert(trimmed(text) =~= text.subrange(skipped, skipped + kept));
    assert forall|i: int| skipped + kept <= i < text.len() implies is_space(#[trigger] text[i]) by {
        assert(start[i - skipped] == text[i]);
    }
}

proof fn lemma_leading_space(text: Seq<char>)
    ensures
        leading_space(text) <= text.len(),
        forall|i: int| 0 <= i < leading_space(text) ==> is_space(#[trigger] text[i]),
        leading_space(text) < text.len() ==> !is_space(text[leading_space(text) as int]),
    decreases text.len(),
{
    if text.len() > 0 && is_space(text[0]) {
        let rest = text.drop_first();
        lemma_leading_space(rest);
        assert forall|i: int| 0 <= i < leading_space(text) implies is_space(#[trigger] text[i]) by {
            if i > 0 {
                assert(is_space(rest[i - 1]));
            }
        }
        if leading_space(rest) < rest.len() {
            assert(rest[leading_space(rest) as int] == text[leading_space(rest) as int + 1]);
        }
    }
}

proof fn lemma_trimmed_end(text: Seq<char>)
    ensures
        trimmed_end(text).len() <= text.len(),
        trimmed_end(text) == text.take(trimmed_end(text).len() as int),
        forall|i: int| trimmed_end(text).len() <= i < text.len() ==> is_space(#[trigger] text[i]),
        trimmed_end(text).len() > 0 ==> !is_space(trimmed_end(text).last()),
    decreases text.len(),
{
    if text.len() == 0 || !is_space(text.last()) {
        assert(text.take(text.len() as int) =~= text);
    } else {
        let rest = text.drop_last();
        lemma_trimmed_end(rest);
        assert(trimmed_end(text) =~= text.take(trimmed_end(text).len() as int));
        assert forall|i: int| trimmed_end(text).len() <= i < text.len() implies is_space(
            #[trigger] text[i],
        ) by {
            if i < rest.len() {
                assert(is_space(rest[i]));
            }
        }
    }
}

/// The first occurrence of a character is where it stands with none before it, or
/// the end of a text without it.
pub proof fn law_first_char_is_the_first(text: Seq<char>, wanted: char)
    ensures
        first_char(text, wanted) <= text.len(),
        first_char(text, wanted) < text.len() ==> text[first_char(text, wanted) as int] == wanted,
        forall|i: int| 0 <= i < first_char(text, wanted) ==> #[trigger] text[i] != wanted,
    decreases text.len(),
{
    if text.len() > 0 && text[0] != wanted {
        let rest = text.drop_first();
        law_first_char_is_the_first(rest, wanted);
        assert forall|i: int| 0 <= i < first_char(text, wanted) implies #[trigger] text[i]
            != wanted by {
            if i > 0 {
                assert(rest[i - 1] != wanted);
            }
        }
    }
}

/// A prefix agrees with the text in every character.
pub proof fn law_prefix_agrees(text: Seq<char>, prefix: Seq<char>)
    ensures
        starts_with(text, prefix) <==> prefix.len() <= text.len() && forall|i: int|
            0 <= i < prefix.len() ==> #[trigger] text[i] == prefix[i],
{
    if starts_with(text, prefix) {
        assert forall|i: int| 0 <= i < prefix.len() implies #[trigger] text[i] == prefix[i] by {
            assert(text.take(prefix.len() as int)[i] == text[i]);
        }
    } else if prefix.len() <= text.len() && (forall|i: int|
        0 <= i < prefix.len() ==> #[trigger] text[i] == prefix[i]) {
        assert(text.take(prefix.len() as int) =~= prefix);
    }
}

/// The first occurrence of a part is where it stands with no earlier one, and none
/// is found exactly if it stands nowhere.
pub proof fn law_first_occurrence_is_the_first(text: Seq<char>, part: Seq<char>)
    ensures
        match first_occurrence(text, part) {
            Some(position) => {
                &&& position + part.len() <= text.len()
                &&& starts_with(text.skip(position as int), part)
                &&& forall|i: int|
                    0 <= i < position ==> !starts_with(#[trigger] text.skip(i), part)
            },
            None => forall|i: int|
                0 <= i <= text.len() ==> !starts_with(#[trigger] text.skip(i), part),
        },
    decreases text.len(),
{
    assert(text.skip(0) =~= text);
    if !starts_with(text, part) {
        if text.len() == 0 {
            assert forall|i: int| 0 <= i <= text.len() implies !starts_with(
                #[trigger] text.skip(i),
                part,
            ) by {
                assert(text.skip(i) =~= text);
            }
        } else {
            let rest = text.drop_first();
            law_first_occurrence_is_the_first(rest, part);
            assert forall|i: int| 0 < i <= text.len() implies #[trigger] text.skip(i) == rest.skip(
                i - 1,
            ) by {
                assert(text.skip(i) =~= rest.skip(i - 1));
            }
            match first_occurrence(rest, part) {
                Some(position) => {
                    assert(text.skip(position as int + 1) == rest.skip(position as int));
                    assert forall|i: int| 0 <= i < position + 1 implies !starts_with(
                        #[trigger] text.skip(i),
                        part,
                    ) by {
                        if i > 0 {
                            assert(text.skip(i) == rest.skip(i - 1));
                        }
                    }
                },
                None => {
                    assert forall|i: int| 0 <= i <= text.len() implies !starts_with(
                        #[trigger] text.skip(i),
                        part,
                    ) by {
                        if i > 0 {
                            assert(text.skip(i) == rest.skip(i - 1));
                        }
                    }
                },
            }
        }
    }
}

/// Every decimal numeral is read back as the number it was written for.
pub proof fn law_decimal_is_read_back(value: nat)
    ensures
        decimal(value).len() > 0,
        all_digits(decimal(value), 10),
        number_of(decimal(value), 10) == value,
        value > 0 ==> decimal(value)[0] != '0',
        decimal(value)[0] != '+',
        forall|maximum: nat|
            value <= maximum ==> #[trigger] parsed_number(decimal(value), 10, maximum) == Some(
                value,
            ),
        forall|maximum: nat|
            value > maximum ==> #[trigger] parsed_number(decimal(value), 10, maximum) is None,
    decreases value,
{
    if value < 10 {
        assert(decimal(value).drop_last() =~= Seq::<char>::empty());
        assert(number_of(decimal(value).drop_last(), 10) == 0);
        assert(decimal(value).last() == digit_char(value));
    } else {
        law_decimal_is_read_back(value / 10);
        let start = decimal(value / 10);
        let text = decimal(value);
        assert(text.drop_last() =~= start);
        assert(text[0] == start[0]);
        assert forall|i: int| 0 <= i < text.len() implies is_digit(#[trigger] text[i], 10) by {
            if i < start.len() {
                assert(is_digit(start[i], 10));
            }
        }
    }
    assert(is_digit(decimal(value)[0], 10));
}

proof fn lemma_digit_character(c: char)
    requires
        is_digit(c, 10),
    ensures
        digit_char(digit_value(c)->Some_0) == c,
{
    assert(digit_char(digit_value(c)->Some_0) as u32 == c as u32);
}

/// A text of decimal digits without a leading zero is the numeral of its number.
pub proof fn law_numerals_are_canonical(text: Seq<char>)
    requires
        text.len() > 0,
        all_digits(text, 10),
        text.len() == 1 || text[0] != '0',
    ensures
        decimal(number_of(text, 10)) == text,
        text[0] != '0' ==> number_of(text, 10) > 0,
    decreases text.len(),
{
    let digit = digit_value(text.last())->Some_0;
    assert(is_digit(text.last(), 10));
    lemma_digit_character(text.last());
    if text.len() == 1 {
        assert(text.drop_last() =~= Seq::<char>::empty());
        assert(number_of(text.drop_last(), 10) == 0);
        assert(decimal(digit) =~= text);
    } else {
        let start = text.drop_last();
        assert(start[0] == text[0]);
        assert forall|i: int| 0 <= i < start.len() implies is_digit(#[trigger] start[i], 10) by {
            assert(is_digit(text[i], 10));
        }
        law_numerals_are_canonical(start);
        let value = number_of(text, 10);
        assert(value == number_of(start, 10) * 10 + digit);
        assert(value / 10 == number_of(start, 10));
        assert(value % 10 == digit);
        assert(decimal(value) =~= text);
    }
}

proof fn lemma_written_digit(digit: nat)
    requires
        digit < 16,
    ensures
        digit_value(digit_char(digit)) == Some(digit),
        is_digit(digit_char(digit), 16),
        digit_char(digit) != '+',
{
}

proof fn lemma_pushed_digit(text: Seq<char>, digit: nat)
    requires
        digit < 16,
    ensures
        number_of(text.push(digit_char(digit)), 16) == number_of(text, 16) * 16 + digit,
{
    lemma_written_digit(digit);
    assert(text.push(digit_char(digit)).drop_last() =~= text);
}

/// Four hexadecimal digits are read back as the value they were written for.
pub proof fn law_hexadecimal_is_read_back(value: u16)
    ensures
        hex4(value).len() == 4,
        all_digits(hex4(value), 16),
        number_of(hex4(value), 16) == value,
        parsed_number(hex4(value), 16, 0xffff) == Some(value as nat),
{
    let text = hex4(value);
    let d3 = value as nat / 4096;
    let d2 = value as nat / 256 % 16;
    let d1 = value as nat / 16 % 16;
    let d0 = value as nat % 16;
    assert(d3 < 16);
    assert(value == d3 * 4096 + d2 * 256 + d1 * 16 + d0);
    lemma_written_digit(d3);
    lemma_written_digit(d2);
    lemma_written_digit(d1);
    lemma_written_digit(d0);
    let none = Seq::<char>::empty();
    let one = none.push(digit_char(d3));
    let two = one.push(digit_char(d2));
    let three = two.push(digit_char(d1));
    lemma_pushed_digit(none, d3);
    lemma_pushed_digit(one, d2);
    lemma_pushed_digit(two, d1);
    lemma_pushed_digit(three, d0);
    assert(number_of(none, 16) == 0);
    assert(text =~= three.push(digit_char(d0)));
    assert(text[0] == digit_char(d3));
    assert forall|i: int| 0 <= i < text.len() implies is_digit(#[trigger] text[i], 16) by {
        assert(i == 0 || i == 1 || i == 2 || i == 3);
    }
}

/// A number is read exactly from at least one digit of its base, behind at most
/// one plus sign, up to the maximum.
pub proof fn law_numbers_are_digits(text: Seq<char>, radix: nat, maximum: nat)
    ensures
        parsed_number(Seq::<char>::empty(), radix, maximum) is None,
        text.len() > 0 && text[0] != '+' ==> parsed_number(seq!['+'] + text, radix, maximum)
            == parsed_number(text, radix, maximum),
        text.len() > 0 && text[0] != '+' && all_digits(text, radix) && number_of(text, radix)
            <= maximum ==> parsed_number(text, radix, maximum) == Some(number_of(text, radix)),
        text.len() > 0 && text[0] != '+' && !(all_digits(text, radix)) ==> parsed_number(
            text,
            radix,
            maximum,
        ) is None,
        number_of(text, radix) > maximum && (text.len() == 0 || text[0] != '+') ==> parsed_number(
            text,
            radix,
            maximum,
        ) is None,
{
    assert((seq!['+'] + text).skip(1) =~= text);
}

/// A signed numeral is the numeral of its magnitude, behind a minus sign exactly
/// where the number is negative.
pub proof fn law_signed_numerals_are_read_back(value: int)
    ensures
        value < 0 ==> signed_decimal(value)[0] == '-' && number_of(
            signed_decimal(value).skip(1),
            10,
        ) == -value,
        value >= 0 ==> signed_decimal(value)[0] != '-' && number_of(signed_decimal(value), 10)
            == value,
{
    if value < 0 {
        law_decimal_is_read_back((-value) as nat);
        assert(signed_decimal(value).skip(1) =~= decimal((-value) as nat));
    } else {
        law_decimal_is_read_back(value as nat);
        assert(is_digit(decimal(value as nat)[0], 10));
    }
}

} // verus!
