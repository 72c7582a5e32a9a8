//! Figures shown for a download: sizes in binary megabytes and progress in
//! percent, both rounded to two decimal places.

use crate::json::JsonNumber;
use crate::text::{decimal, push_decimal, push_two_digits, two_digits};
use vstd::arithmetic::div_mod::{lemma_basic_div, lemma_small_mod};
use vstd::arithmetic::power2::{
    lemma2_to64,
    lemma2_to64_rest,
    lemma_pow2_adds,
    lemma_pow2_strictly_increases,
    lemma_pow2_unfold,
    pow2,
};
use vstd::prelude::*;

verus! {

/// Bytes in a binary megabyte.
pub const MEGABYTE: u64 = 1_048_576;

/// Hundredths of a percent in a whole: a progress of 100.00 %.
pub const FULL: u32 = 10_000;

/// `num / den` rounded to the nearest integer, a tie going to the even one.
pub open spec fn round_half_even(num: nat, den: nat) -> nat
    recommends
        den > 0,
{
    let q = num / den;
    let r = num % den;
    if 2 * r > den || (2 * r == den && q % 2 == 1) {
        q + 1
    } else {
        q
    }
}

/// A count of hundredths written with two decimal places.
pub open spec fn fixed2(h: nat) -> Seq<char> {
    decimal(h / 100) + seq!['.'] + two_digits(h % 100)
}

/// A size in hundredths of a binary megabyte.
pub open spec fn size_hundredths(bytes: u64) -> nat {
    round_half_even(bytes as nat * 100, 1_048_576)
}

/// A size as shown: binary megabytes with two decimal places.
pub open spec fn size_text(bytes: u64) -> Seq<char> {
    fixed2(size_hundredths(bytes)) + seq![' ', 'M', 'B']
}

/// The sign bit of a double.
pub open spec fn float_sign(bits: u64) -> nat {
    (bits / 0x8000_0000_0000_0000) as nat
}

/// The biased exponent of a double.
pub open spec fn float_exponent(bits: u64) -> nat {
    ((bits / 0x10_0000_0000_0000) % 2048) as nat
}

/// The stored fraction bits of a double.
pub open spec fn float_fraction(bits: u64) -> nat {
    (bits % 0x10_0000_0000_0000) as nat
}

/// A double's progress in hundredths of a percent.
///
/// A normal double with biased exponent `e` and fraction `f` is
/// `(2^52 + f) / 2^(1075 - e)`. Below one it is scaled by ten thousand and
/// rounded exactly; from one upwards it counts as complete work, and
/// anything negative, zero or subnormal as none.
pub open spec fn float_hundredths(bits: u64) -> nat {
    let e = float_exponent(bits);
    if float_sign(bits) == 1 || e == 0 {
        0
    } else if e >= 1023 {
        10_000
    } else {
        round_half_even(
            (0x10_0000_0000_0000 + float_fraction(bits)) * 10_000,
            pow2((1075 - e) as nat),
        )
    }
}

/// A number's progress in hundredths of a percent, as a fraction of one
/// held to the range from nothing to all.
pub open spec fn fraction_hundredths(n: JsonNumber) -> nat {
    match n {
        JsonNumber::PosInt(u) => if u == 0 {
            0
        } else {
            10_000
        },
        JsonNumber::NegInt(_) => 0,
        JsonNumber::Float(bits) => float_hundredths(bits),
    }
}

/// Whether a number is exactly one: the integer, or the double `1.0`. No
/// other double lies within rounding distance of it.
pub open spec fn is_one(n: JsonNumber) -> bool {
    n == JsonNumber::PosInt(1) || n == JsonNumber::Float(0x3FF0_0000_0000_0000)
}

/// Progress as shown: `100` once the fraction is exactly one, otherwise the
/// percentage with two decimal places.
pub open spec fn progress_text(n: JsonNumber) -> Seq<char> {
    if is_one(n) {
        seq!['1', '0', '0']
    } else {
        fixed2(fraction_hundredths(n))
    }
}

/// A fraction that is exactly one stands at the full ten thousand hundredths.
pub proof fn lemma_one_is_full(n: JsonNumber)
    requires
        is_one(n),
    ensures
        fraction_hundredths(n) == FULL,
{
}

/// Progress never leaves the range from 0.00 % to 100.00 %.
pub proof fn lemma_fraction_bounded(n: JsonNumber)
    ensures
        fraction_hundredths(n) <= FULL,
{
    if let JsonNumber::Float(bits) = n {
        let e = float_exponent(bits);
        if float_sign(bits) != 1 && 0 < e < 1023 {
            lemma_scaled_below_full(bits);
        }
    }
}

/// For a double between zero and one, the exact quotient stays below ten
/// thousand, so rounding it cannot pass ten thousand.
proof fn lemma_scaled_below_full(bits: u64)
    requires
        0 < float_exponent(bits) < 1023,
    ensures
        round_half_even(
            (0x10_0000_0000_0000 + float_fraction(bits)) * 10_000,
            pow2((1075 - float_exponent(bits)) as nat),
        ) <= 10_000,
{
    let k = (1075 - float_exponent(bits)) as nat;
    let x = (0x10_0000_0000_0000 + float_fraction(bits)) * 10_000;
    let den = pow2(k);
    lemma2_to64_rest();
    if k > 53 {
        lemma_pow2_strictly_increases(53, k);
    }
    assert(x / den < 10_000) by (nonlinear_arith)
        requires
            den >= 0x20_0000_0000_0000,
            0 <= x < 0x20_0000_0000_0000 * 10_000,
    {
        vstd::arithmetic::div_mod::lemma_div_by_multiple_is_strongly_ordered(
            x as int,
            (den * 10_000) as int,
            10_000,
            den as int,
        );
        vstd::arithmetic::div_mod::lemma_div_multiples_vanish(10_000, den as int);
    }
}

/// `num / den` rounded to the nearest integer, a tie going to the even one.
pub fn rounded_quotient(num: u128, den: u128) -> (r: u128)
    requires
        0 < den <= 0x1_0000_0000_0000_0000_0000,
        num <= 0x1_0000_0000_0000_0000_0000_0000,
    ensures
        r == round_half_even(num as nat, den as nat),
{
    let q = num / den;
    let r = num % den;
    if 2 * r > den || (2 * r == den && q % 2 == 1) {
        q + 1
    } else {
        q
    }
}

/// Appends a count of hundredths written with two decimal places.
pub fn push_fixed2(out: &mut String, h: u64)
    ensures
        final(out)@ == old(out)@ + fixed2(h as nat),
{
    push_decimal(out, h / 100);
    proof {
        reveal_strlit(".");
    }
    out.append(".");
    push_two_digits(out, h % 100);
}

/// A size as shown: binary megabytes with two decimal places.
pub fn size_string(bytes: u64) -> (r: String)
    ensures
        r@ == size_text(bytes),
{
    let h = rounded_quotient(bytes as u128 * 100, 1_048_576);
    let mut out = String::new();
    push_fixed2(&mut out, h as u64);
    proof {
        reveal_strlit(" MB");
    }
    out.append(" MB");
    out
}

/// Two to the eightieth, written out.
proof fn lemma_pow2_80()
    ensures
        pow2(80) == 0x1_0000_0000_0000_0000_0000,
{
    lemma2_to64();
    lemma_pow2_adds(64, 16);
}

/// Two to the `k`, for an exponent that keeps it within 128 bits.
fn power_of_two(k: u32) -> (r: u128)
    requires
        k <= 80,
    ensures
        r == pow2(k as nat),
{
    let mut r: u128 = 1;
    let mut i: u32 = 0;
    proof {
        lemma_pow2_80();
        lemma2_to64();
        lemma_pow2_strictly_increases(0, 80);
    }
    while i < k
        invariant
            i <= k <= 80,
            r == pow2(i as nat),
            r <= pow2(80),
            pow2(80) == 0x1_0000_0000_0000_0000_0000,
        decreases k - i,
    {
        proof {
            lemma_pow2_unfold((i + 1) as nat);
            if i + 1 < 80 {
                lemma_pow2_strictly_increases((i + 1) as nat, 80);
            }
        }
        r = r * 2;
        i += 1;
    }
    r
}

/// A double's progress in hundredths of a percent.
pub fn float_progress(bits: u64) -> (r: u32)
    ensures
        r == float_hundredths(bits),
{
    let sign = bits / 0x8000_0000_0000_0000;
    let e = (bits / 0x10_0000_0000_0000) % 2048;
    let f = bits % 0x10_0000_0000_0000;
    if sign == 1 || e == 0 {
        0
    } else if e >= 1023 {
        10_000
    } else {
        let k: u64 = 1075 - e;
        let x: u128 = (0x10_0000_0000_0000u128 + f as u128) * 10_000;
        if k >= 68 {
            proof {
                lemma2_to64();
                lemma_pow2_adds(64, 4);
                if k > 68 {
                    lemma_pow2_strictly_increases(68, k as nat);
                }
                let den = pow2(k as nat);
                lemma_basic_div(x as int, den as int);
                lemma_small_mod(x as nat, den);
            }
            0
        } else {
            let den = power_of_two(k as u32);
            proof {
                lemma_scaled_below_full(bits);
                lemma_pow2_80();
                lemma_pow2_strictly_increases(k as nat, 80);
                vstd::arithmetic::power2::lemma_pow2_pos(k as nat);
            }
            rounded_quotient(x, den) as u32
        }
    }
}

/// A number's progress in hundredths of a percent.
pub fn progress_hundredths(n: JsonNumber) -> (r: u32)
    ensures
        r == fraction_hundredths(n),
        r <= FULL,
{
    proof {
        lemma_fraction_bounded(n);
    }
    match n {
        JsonNumber::PosInt(u) => if u == 0 {
            0
        } else {
            10_000
        },
        JsonNumber::NegInt(_) => 0,
        JsonNumber::Float(bits) => float_progress(bits),
    }
}

/// Whether a number is exactly one.
pub fn number_is_one(n: JsonNumber) -> (r: bool)
    ensures
        r == is_one(n),
{
    match n {
        JsonNumber::PosInt(u) => u == 1,
        JsonNumber::NegInt(_) => false,
        JsonNumber::Float(bits) => bits == 0x3FF0_0000_0000_0000,
    }
}

/// Progress as shown: `100` once the fraction is exactly one, otherwise the
/// percentage with two decimal places.
pub fn progress_string(n: JsonNumber) -> (r: String)
    ensures
        r@ == progress_text(n),
{
    if number_is_one(n) {
        proof {
            reveal_strlit("100");
        }
        let r = String::from_str("100");
        r
    } else {
        let mut out = String::new();
        push_fixed2(&mut out, progress_hundredths(n) as u64);
        out
    }
}

} // verus!
