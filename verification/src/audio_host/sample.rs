//! Audio samples as binary32 bit patterns, and their fixed-point conversions.
//!
//! Every sample travels through the library as the bit pattern of one IEEE 754
//! binary32 number. A finite pattern stands for
//! `± significand * 2^(scale - 150)`.

use vstd::arithmetic::power2::{
    lemma2_to64, lemma_pow2_adds, lemma_pow2_pos, lemma_pow2_strictly_increases, lemma_pow2_unfold,
    pow2,
};
use vstd::arithmetic::div_mod::lemma_fundamental_div_mod;
use vstd::prelude::*;

verus! {

/// The bit pattern of positive zero.
pub const SILENCE: u32 = 0;

/// The biased exponent field of `bits`.
pub open spec fn exponent(bits: u32) -> int {
    (bits as int / 0x80_0000) % 0x100
}

/// The trailing significand field of `bits`.
pub open spec fn fraction(bits: u32) -> int {
    bits as int % 0x80_0000
}

/// Whether the sign bit of `bits` is set.
pub open spec fn negative(bits: u32) -> bool {
    bits >= 0x8000_0000
}

/// Whether `bits` is neither an infinity nor a NaN.
pub open spec fn finite(bits: u32) -> bool {
    exponent(bits) != 0xff
}

/// The integer significand of a finite pattern.
pub open spec fn significand(bits: u32) -> nat {
    if exponent(bits) == 0 {
        fraction(bits) as nat
    } else {
        (0x80_0000 + fraction(bits)) as nat
    }
}

/// The biased exponent that scales the integer significand.
pub open spec fn scale(bits: u32) -> int {
    if exponent(bits) == 0 {
        1
    } else {
        exponent(bits)
    }
}

/// Whether every sample of `samples` is finite.
pub open spec fn all_finite(samples: Seq<u32>) -> bool {
    forall|i: int| 0 <= i < samples.len() ==> finite(#[trigger] samples[i])
}

/// The number of samples before the first one that is not finite.
pub open spec fn finite_prefix(samples: Seq<u32>) -> nat
    decreases samples.len(),
{
    if samples.len() == 0 || !finite(samples[0]) {
        0
    } else {
        1 + finite_prefix(samples.drop_first())
    }
}

/// The finite prefix ends exactly where finite samples end.
pub proof fn lemma_finite_prefix(samples: Seq<u32>, length: nat)
    requires
        length <= samples.len(),
        forall|i: int| 0 <= i < length ==> finite(#[trigger] samples[i]),
        length == samples.len() || !finite(samples[length as int]),
    ensures
        finite_prefix(samples) == length,
    decreases samples.len(),
{
    if length > 0 {
        assert(finite(samples[0]));
        let rest = samples.drop_first();
        assert forall|i: int| 0 <= i < length - 1 implies finite(#[trigger] rest[i]) by {
            assert(finite(samples[i + 1]));
        }
        lemma_finite_prefix(rest, (length - 1) as nat);
    }
}

/// Every sample is finite exactly when the finite prefix is the whole block.
pub proof fn lemma_all_finite(samples: Seq<u32>)
    ensures
        finite_prefix(samples) <= samples.len(),
        all_finite(samples) <==> finite_prefix(samples) == samples.len(),
    decreases samples.len(),
{
    if samples.len() > 0 {
        let rest = samples.drop_first();
        lemma_all_finite(rest);
        if all_finite(samples) {
            assert forall|i: int| 0 <= i < rest.len() implies finite(#[trigger] rest[i]) by {
                assert(finite(samples[i + 1]));
            }
        }
        if finite(samples[0]) && all_finite(rest) {
            assert forall|i: int| 0 <= i < samples.len() implies finite(#[trigger] samples[i]) by {
                if i > 0 {
                    assert(finite(rest[i - 1]));
                }
            }
        }
    }
}

/// The integer nearest to `numerator / denominator`; a tie goes up.
pub open spec fn nearest_up(numerator: nat, denominator: nat) -> nat {
    (2 * numerator + denominator) / (2 * denominator)
}

/// The integer nearest to `numerator / denominator`; a tie goes to the even one.
pub open spec fn nearest_even(numerator: nat, denominator: nat) -> nat {
    let quotient = numerator / denominator;
    let remainder = numerator % denominator;
    if 2 * remainder < denominator {
        quotient
    } else if 2 * remainder > denominator {
        quotient + 1
    } else {
        quotient + quotient % 2
    }
}

/// The magnitude of a finite sample in steps of `2^-fraction_bits`, rounded to
/// the nearest whole step with ties away from zero.
pub open spec fn magnitude_steps(bits: u32, fraction_bits: nat) -> nat {
    let shift = scale(bits) - 150 + fraction_bits;
    if shift >= 0 {
        significand(bits) * pow2(shift as nat)
    } else {
        nearest_up(significand(bits), pow2((-shift) as nat))
    }
}

/// The fixed-point number with `fraction_bits` fraction bits that stands for a
/// finite sample: rounded half away from zero, saturated at one step below one
/// and at minus one.
pub open spec fn quantized(bits: u32, fraction_bits: nat) -> int {
    let full = pow2(fraction_bits) as int;
    let steps = magnitude_steps(bits, fraction_bits) as int;
    if exponent(bits) >= 127 {
        if negative(bits) {
            -full
        } else {
            full - 1
        }
    } else if negative(bits) {
        -steps
    } else if steps >= full {
        full - 1
    } else {
        steps
    }
}

/// The number of binary digits of `value`.
pub open spec fn bit_length(value: nat) -> nat
    decreases value,
{
    if value == 0 {
        0
    } else {
        1 + bit_length(value / 2)
    }
}

/// The 24-bit significand of a positive integer, rounded to nearest even.
pub open spec fn rounded_significand(magnitude: nat) -> nat {
    let length = bit_length(magnitude);
    if length <= 24 {
        magnitude * pow2((24 - length) as nat)
    } else {
        nearest_even(magnitude, pow2((length - 24) as nat))
    }
}

/// The bit pattern of the binary32 number nearest to `raw / 2^fraction_bits`.
pub open spec fn sample_of(raw: int, fraction_bits: nat) -> int {
    if raw == 0 {
        0
    } else {
        let magnitude = (if raw < 0 { -raw } else { raw }) as nat;
        let sign: int = if raw < 0 { 0x8000_0000 } else { 0 };
        let exponent_field = bit_length(magnitude) - 1 + 127 - fraction_bits;
        sign + exponent_field * 0x80_0000 + rounded_significand(magnitude) - 0x80_0000
    }
}

/// A positive value of `n` binary digits lies in `[2^(n-1), 2^n)`.
pub proof fn lemma_bit_length_bounds(value: nat)
    ensures
        value == 0 <==> bit_length(value) == 0,
        value < pow2(bit_length(value)),
        value > 0 ==> pow2((bit_length(value) - 1) as nat) <= value,
    decreases value,
{
    if value == 0 {
        lemma_pow2_pos(0);
    } else {
        lemma_bit_length_bounds(value / 2);
        let half = bit_length(value / 2);
        lemma_pow2_unfold(half + 1);
        if value / 2 > 0 {
            lemma_pow2_unfold(half);
        } else {
            lemma2_to64();
        }
    }
}

/// A value below `2^n` has at most `n` binary digits.
pub proof fn lemma_bit_length_at_most(value: nat, n: nat)
    requires
        value < pow2(n),
    ensures
        bit_length(value) <= n,
{
    lemma_bit_length_bounds(value);
    if bit_length(value) > n {
        if bit_length(value) - 1 > n {
            lemma_pow2_strictly_increases(n, (bit_length(value) - 1) as nat);
        }
    }
}

/// Whether `bits` is neither an infinity nor a NaN.
pub fn is_finite(bits: u32) -> (result: bool)
    ensures
        result == finite(bits),
{
    (bits / 0x80_0000) % 0x100 != 0xff
}

/// The position of the first sample that is not finite.
pub fn find_nonfinite(samples: &[u32]) -> (result: Option<usize>)
    ensures
        match result {
            Some(index) => index < samples@.len() && index == finite_prefix(samples@),
            None => finite_prefix(samples@) == samples@.len() && all_finite(samples@),
        },
{
    for index in 0..samples.len()
        invariant
            forall|i: int| 0 <= i < index ==> finite(#[trigger] samples@[i]),
    {
        if !is_finite(samples[index]) {
            proof {
                lemma_finite_prefix(samples@, index as nat);
            }
            return Some(index);
        }
    }
    proof {
        lemma_finite_prefix(samples@, samples@.len());
    }
    None
}

/// Two to the power `exponent`.
fn power_of_two(exponent: u32) -> (result: u64)
    requires
        exponent < 64,
    ensures
        result == pow2(exponent as nat),
{
    let mut result: u64 = 1;
    proof {
        lemma2_to64();
    }
    for step in 0..exponent
        invariant
            exponent < 64,
            result == pow2(step as nat),
    {
        proof {
            lemma_pow2_unfold((step + 1) as nat);
            lemma2_to64();
            lemma_pow2_at_most((step + 1) as nat, 63);
            assert(pow2(63) == 0x8000_0000_0000_0000) by {
                vstd::arithmetic::power2::lemma2_to64_rest();
            }
        }
        result = result * 2;
    }
    result
}

proof fn lemma_pow2_at_most(low: nat, high: nat)
    requires
        low <= high,
    ensures
        pow2(low) <= pow2(high),
{
    if low < high {
        lemma_pow2_strictly_increases(low, high);
    }
}

fn count_bits(value: u64) -> (length: u32)
    ensures
        length == bit_length(value as nat),
        length <= 64,
{
    let mut rest: u64 = value;
    let mut length: u32 = 0;
    proof {
        vstd::arithmetic::power2::lemma2_to64_rest();
        lemma_bit_length_at_most(value as nat, 64);
    }
    while rest > 0
        invariant
            length + bit_length(rest as nat) == bit_length(value as nat),
            bit_length(value as nat) <= 64,
        decreases rest,
    {
        rest = rest / 2;
        length = length + 1;
    }
    length
}

/// Converts one finite sample to fixed point with `fraction_bits` fraction bits.
pub fn quantize(bits: u32, fraction_bits: u32) -> (raw: i64)
    requires
        finite(bits),
        23 <= fraction_bits <= 31,
    ensures
        raw == quantized(bits, fraction_bits as nat),
        -pow2(fraction_bits as nat) <= raw < pow2(fraction_bits as nat),
{
    let full: u64 = power_of_two(fraction_bits);
    proof {
        lemma2_to64();
        lemma_pow2_at_most(fraction_bits as nat, 31);
        lemma_pow2_at_most(23, fraction_bits as nat);
    }
    let negative: bool = bits >= 0x8000_0000;
    let exponent: u32 = (bits / 0x80_0000) % 0x100;
    if exponent >= 127 {
        return if negative {
            -(full as i64)
        } else {
            full as i64 - 1
        };
    }
    let significand: u64 = if exponent == 0 {
        (bits % 0x80_0000) as u64
    } else {
        0x80_0000 + (bits % 0x80_0000) as u64
    };
    let scale: u32 = if exponent == 0 { 1 } else { exponent };
    let steps: u64 = if scale + fraction_bits >= 150 {
        let shift: u32 = scale + fraction_bits - 150;
        let factor: u64 = power_of_two(shift);
        proof {
            lemma_steps_bound(significand as nat, shift as nat, fraction_bits as nat);
        }
        significand * factor
    } else {
        let shift: u32 = 150 - scale - fraction_bits;
        if shift > 24 {
            proof {
                lemma_small_rounds_to_zero(significand as nat, shift as nat);
            }
            0
        } else {
            let divisor: u64 = power_of_two(shift);
            proof {
                lemma_pow2_at_most(shift as nat, 24);
                lemma_pow2_at_most(1, shift as nat);
                assert((2 * significand + divisor) / (2 * divisor) <= 0x80_0000) by (nonlinear_arith)
                    requires
                        significand < 0x100_0000,
                        2 <= divisor,
                ;
            }
            (2 * significand + divisor) / (2 * divisor)
        }
    };
    if negative {
        -(steps as i64)
    } else if steps >= full {
        full as i64 - 1
    } else {
        steps as i64
    }
}

proof fn lemma_steps_bound(significand: nat, shift: nat, fraction_bits: nat)
    requires
        significand < 0x100_0000,
        24 + shift <= fraction_bits,
        fraction_bits <= 31,
    ensures
        significand * pow2(shift) < pow2(fraction_bits),
{
    lemma2_to64();
    lemma_pow2_adds(24, shift);
    lemma_pow2_at_most(24 + shift, fraction_bits);
    lemma_pow2_pos(shift);
    assert(significand * pow2(shift) < pow2(24) * pow2(shift)) by (nonlinear_arith)
        requires
            significand < pow2(24),
            pow2(shift) > 0,
    ;
}

proof fn lemma_small_rounds_to_zero(significand: nat, shift: nat)
    requires
        significand < 0x100_0000,
        shift > 24,
    ensures
        nearest_up(significand, pow2(shift)) == 0,
{
    lemma2_to64();
    lemma_pow2_at_most(25, shift);
    let divisor = pow2(shift);
    assert((2 * significand + divisor) / (2 * divisor) == 0) by (nonlinear_arith)
        requires
            2 * significand < divisor,
    ;
}

/// A positive magnitude keeps a significand of exactly 24 binary digits, up to
/// a carry out of rounding; a short magnitude is kept exactly.
proof fn lemma_rounded_significand(magnitude: nat)
    requires
        magnitude > 0,
    ensures
        0x80_0000 <= rounded_significand(magnitude) <= 0x100_0000,
        bit_length(magnitude) <= 24 ==> rounded_significand(magnitude) < 0x100_0000,
{
    lemma2_to64();
    lemma_bit_length_bounds(magnitude);
    let length = bit_length(magnitude);
    if length <= 24 {
        let rest = (24 - length) as nat;
        lemma_pow2_adds(length, rest);
        lemma_pow2_adds((length - 1) as nat, rest);
        lemma_pow2_pos(rest);
        let low = pow2((length - 1) as nat);
        let high = pow2(length);
        let factor = pow2(rest);
        assert(low * factor <= magnitude * factor < high * factor) by (nonlinear_arith)
            requires
                low <= magnitude < high,
                factor > 0,
        ;
    } else {
        let rest = (length - 24) as nat;
        lemma_pow2_adds(24, rest);
        lemma_pow2_adds(23, rest);
        lemma_pow2_pos(rest);
        let divisor = pow2(rest);
        assert(0x80_0000 <= magnitude / divisor < 0x100_0000) by (nonlinear_arith)
            requires
                0x80_0000 * divisor <= magnitude < 0x100_0000 * divisor,
                divisor > 0,
        ;
    }
}

/// Converts a fixed-point number with `fraction_bits` fraction bits to the
/// nearest sample.
pub fn dequantize(raw: i32, fraction_bits: u32) -> (bits: u32)
    requires
        23 <= fraction_bits <= 31,
        -pow2(fraction_bits as nat) <= raw < pow2(fraction_bits as nat),
    ensures
        bits == sample_of(raw as int, fraction_bits as nat),
        finite(bits),
{
    if raw == 0 {
        return SILENCE;
    }
    let magnitude: u64 = if raw < 0 {
        (-(raw as i64)) as u64
    } else {
        raw as u64
    };
    let length: u32 = count_bits(magnitude);
    proof {
        lemma2_to64();
        lemma_bit_length_bounds(magnitude as nat);
        lemma_rounded_significand(magnitude as nat);
        lemma_pow2_unfold((fraction_bits + 1) as nat);
        lemma_bit_length_at_most(magnitude as nat, (fraction_bits + 1) as nat);
    }
    let significand: u64 = if length <= 24 {
        let factor: u64 = power_of_two(24 - length);
        magnitude * factor
    } else {
        let divisor: u64 = power_of_two(length - 24);
        let quotient: u64 = magnitude / divisor;
        let remainder: u64 = magnitude % divisor;
        proof {
            lemma_pow2_at_most((length - 24) as nat, 8);
        }
        if 2 * remainder < divisor {
            quotient
        } else if 2 * remainder > divisor {
            quotient + 1
        } else {
            quotient + quotient % 2
        }
    };
    let sign: u64 = if raw < 0 { 0x8000_0000 } else { 0 };
    let exponent: u64 = (length + 126 - fraction_bits) as u64;
    (sign + exponent * 0x80_0000 + significand - 0x80_0000) as u32
}

/// A 24-bit fixed-point number survives the way through a sample unchanged.
pub proof fn law_s24_round_trip(raw: int)
    requires
        -0x80_0000 <= raw < 0x80_0000,
    ensures
        0 <= sample_of(raw, 23) <= u32::MAX,
        finite(sample_of(raw, 23) as u32),
        quantized(sample_of(raw, 23) as u32, 23) == raw,
{
    lemma2_to64();
    let bits = sample_of(raw, 23) as u32;
    if raw == 0 {
        let divisor = pow2(126);
        lemma_pow2_pos(126);
        assert(divisor / (2 * divisor) == 0) by (nonlinear_arith)
            requires
                divisor > 0,
        ;
    } else {
        let magnitude = (if raw < 0 { -raw } else { raw }) as nat;
        let length = bit_length(magnitude);
        lemma_bit_length_bounds(magnitude);
        lemma_bit_length_at_most(magnitude, 24);
        lemma_rounded_significand(magnitude);
        assert(exponent(bits) == length + 103);
        assert(significand(bits) == rounded_significand(magnitude));
        assert(negative(bits) == (raw < 0));
        if length == 24 {
            assert(magnitude == 0x80_0000);
        } else {
            let divisor = pow2((24 - length) as nat);
            lemma_pow2_pos((24 - length) as nat);
            assert((2 * (magnitude * divisor) + divisor) / (2 * divisor) == magnitude)
                by (nonlinear_arith)
                requires
                    divisor > 0,
            ;
        }
    }
}

/// Rounding goes to the nearest whole number: no other is closer, a tie goes up
/// for magnitudes in steps and to the even one for significands.
pub proof fn law_rounding_is_to_nearest(numerator: nat, denominator: nat)
    requires
        denominator > 0,
    ensures
        -denominator < 2 * (denominator * nearest_up(numerator, denominator) - numerator)
            <= denominator,
        -denominator <= 2 * (denominator * nearest_even(numerator, denominator) - numerator)
            <= denominator,
        2 * (denominator * nearest_even(numerator, denominator) - numerator) == denominator || 2 * (
        denominator * nearest_even(numerator, denominator) - numerator) == -denominator
            ==> nearest_even(numerator, denominator) % 2 == 0,
{
    let up = nearest_up(numerator, denominator) as int;
    let even = nearest_even(numerator, denominator) as int;
    let n = numerator as int;
    let d = denominator as int;
    let q = n / d;
    let r = n % d;
    lemma_fundamental_div_mod(2 * n + d, 2 * d);
    lemma_fundamental_div_mod(n, d);
    let rest = (2 * n + d) % (2 * d);
    assert((2 * d) * up == 2 * (d * up)) by (nonlinear_arith);
    assert(2 * (d * up) == 2 * n + d - rest);
    assert(d * (q + 1) == d * q + d) by (nonlinear_arith);
    assert(n == d * q + r);
    if 2 * r == d {
        assert(even == q + q % 2);
        if q % 2 == 1 {
            assert(even == q + 1);
        } else {
            assert(even == q);
        }
    }
}

/// Full scale saturates: magnitudes of one and more become the largest step of
/// their sign, and nothing leaves the range.
pub proof fn law_quantization_saturates(bits: u32, fraction_bits: nat)
    requires
        23 <= fraction_bits <= 31,
        exponent(bits) >= 127,
    ensures
        negative(bits) ==> quantized(bits, fraction_bits) == -pow2(fraction_bits),
        !negative(bits) ==> quantized(bits, fraction_bits) == pow2(fraction_bits) - 1,
{
}

/// A sample and its negation quantize to opposite numbers, except that only minus
/// one is reached in full.
pub proof fn law_quantization_is_symmetric(bits: u32, fraction_bits: nat)
    requires
        bits < 0x8000_0000,
        finite(bits),
    ensures
        ({
            let negated = (bits + 0x8000_0000) as u32;
            &&& negative(negated) && !negative(bits)
            &&& quantized(negated, fraction_bits) == -quantized(bits, fraction_bits) || quantized(
                bits,
                fraction_bits,
            ) == pow2(fraction_bits) - 1
        }),
{
    let negated = (bits + 0x8000_0000) as u32;
    assert(negated as int / 0x80_0000 == bits as int / 0x80_0000 + 0x100);
    assert(exponent(negated) == exponent(bits));
    assert(fraction(negated) == fraction(bits));
}

/// The first sample that is not finite is found: every sample before it is, and it
/// is not.
pub proof fn law_finite_prefix_ends_at_the_first_bad_sample(samples: Seq<u32>)
    ensures
        finite_prefix(samples) <= samples.len(),
        forall|i: int| 0 <= i < finite_prefix(samples) ==> finite(#[trigger] samples[i]),
        finite_prefix(samples) < samples.len() ==> !finite(samples[finite_prefix(samples) as int]),
        finite_prefix(samples) == samples.len() <==> all_finite(samples),
    decreases samples.len(),
{
    if samples.len() > 0 && finite(samples[0]) {
        let rest = samples.drop_first();
        law_finite_prefix_ends_at_the_first_bad_sample(rest);
        assert forall|i: int| 0 <= i < finite_prefix(samples) implies finite(
            #[trigger] samples[i],
        ) by {
            if i > 0 {
                assert(finite(rest[i - 1]));
            }
        }
        if finite_prefix(rest) < rest.len() {
            assert(!finite(rest[finite_prefix(rest) as int]));
        }
    }
}

/// A sign is read back from a decoded number, and zero decodes to silence.
pub proof fn law_decoded_numbers_keep_their_sign(raw: int, fraction_bits: nat)
    requires
        -0x8000_0000 <= raw < 0x8000_0000,
        23 <= fraction_bits <= 31,
    ensures
        sample_of(0, fraction_bits) == 0,
        raw != 0 ==> (raw < 0 <==> sample_of(raw, fraction_bits) >= 0x8000_0000),
        raw > 0 ==> sample_of(-raw, fraction_bits) == sample_of(raw, fraction_bits) + 0x8000_0000,
{
    if raw != 0 {
        let magnitude = (if raw < 0 { -raw } else { raw }) as nat;
        lemma2_to64();
        lemma_bit_length_bounds(magnitude);
        lemma_bit_length_at_most(magnitude, 32);
        lemma_rounded_significand(magnitude);
        let length = bit_length(magnitude);
        assert(1 <= length <= 32);
        let field = length - 1 + 127 - fraction_bits;
        assert(0 < field <= 136);
    }
}

/// A decoded number is the nearest one with a significand of 24 bits: a number of
/// `length` binary digits has the exponent of its first digit, up to 24 digits are
/// exact, and more are rounded to nearest, ties to even.
pub proof fn law_decoded_numbers_are_nearest(raw: nat, length: nat, fraction_bits: nat)
    requires
        0 < length,
        pow2((length - 1) as nat) <= raw < pow2(length),
    ensures
        ({
            let significand = sample_of(raw as int, fraction_bits) - (length + 125 - fraction_bits)
                * 0x80_0000;
            let step = pow2((length - 24) as nat) as int;
            &&& length <= 24 ==> significand == raw * pow2((24 - length) as nat)
            &&& length > 24 ==> {
                &&& -step <= 2 * (step * significand - raw) <= step
                &&& 2 * (step * significand - raw) == step || 2 * (step * significand - raw)
                    == -step ==> significand % 2 == 0
            }
        }),
{
    lemma_bit_length_bounds(raw);
    lemma_pow2_pos((length - 1) as nat);
    let found = bit_length(raw);
    if found < length {
        if found < length - 1 {
            lemma_pow2_strictly_increases(found, (length - 1) as nat);
        }
    } else if length < found {
        if length < found - 1 {
            lemma_pow2_strictly_increases(length, (found - 1) as nat);
        }
    }
    assert(found == length);
    if length > 24 {
        lemma_pow2_pos((length - 24) as nat);
        law_rounding_is_to_nearest(raw, pow2((length - 24) as nat));
    }
}

} // verus!
