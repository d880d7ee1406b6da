//! Decimal rendering of counters: plain integers, scaled byte counts with two
//! decimal digits, and percentages in hundredths of a percent.

use vstd::prelude::*;
use vstd::string::StringExecFns;

verus! {

/// One kibibyte: the base of the binary unit ladder.
pub const KB: u64 = 1024;

/// One mebibyte.
pub const MB: u64 = KB * 1024;

/// One gibibyte.
pub const GB: u64 = MB * 1024;

/// One tebibyte.
pub const TB: u64 = GB * 1024;

/// The decimal digit `d` as a one-character string view.
pub open spec fn spec_digit_str(d: nat) -> Seq<char>
    recommends
        d < 10,
{
    if d == 0 {
        "0"@
    } else if d == 1 {
        "1"@
    } else if d == 2 {
        "2"@
    } else if d == 3 {
        "3"@
    } else if d == 4 {
        "4"@
    } else if d == 5 {
        "5"@
    } else if d == 6 {
        "6"@
    } else if d == 7 {
        "7"@
    } else if d == 8 {
        "8"@
    } else {
        "9"@
    }
}

/// The usual decimal numeral of `n`: most significant digit first, no sign,
/// no leading zero except for `n == 0` itself.
pub open spec fn spec_digits(n: nat) -> Seq<char>
    decreases n,
{
    if n < 10 {
        spec_digit_str(n)
    } else {
        spec_digits(n / 10) + spec_digit_str(n % 10)
    }
}

fn digit_str(d: u64) -> (r: &'static str)
    requires
        d < 10,
    ensures
        r@ == spec_digit_str(d as nat),
{
    if d == 0 {
        "0"
    } else if d == 1 {
        "1"
    } else if d == 2 {
        "2"
    } else if d == 3 {
        "3"
    } else if d == 4 {
        "4"
    } else if d == 5 {
        "5"
    } else if d == 6 {
        "6"
    } else if d == 7 {
        "7"
    } else if d == 8 {
        "8"
    } else {
        "9"
    }
}

/// `num / den` rounded to the nearest integer, a tie going to the even
/// neighbour — the rounding rule of fixed-precision decimal rendering.
pub open spec fn spec_round_half_even(num: nat, den: nat) -> nat
    recommends
        den > 0,
{
    let q = num / den;
    let r = num % den;
    if 2 * r < den {
        q
    } else if 2 * r > den {
        q + 1
    } else if q % 2 == 0 {
        q
    } else {
        q + 1
    }
}

/// A scaled quantity in hundredths, rendered with exactly two decimal
/// digits: `123` becomes `1.23`, `100` becomes `1.00`.
pub open spec fn spec_hundredths(h: nat) -> Seq<char> {
    spec_digits(h / 100) + "."@ + spec_digit_str((h % 100) / 10) + spec_digit_str(h % 10)
}

/// A byte count under the unit ladder of `spec_format_bytes`: scaled by its
/// unit into hundredths, rounded half-to-even.
pub open spec fn spec_scaled_hundredths(b: nat, unit: nat) -> nat
    recommends
        unit > 0,
{
    spec_round_half_even(b * 100, unit)
}

/// The human-readable rendering of a byte count: the largest unit among
/// B, KB, MB, GB, TB whose threshold the count reaches, the value scaled to
/// that unit with exactly two decimal digits (plain bytes as a bare integer),
/// a space, and the unit code.
pub open spec fn spec_format_bytes(b: nat) -> Seq<char> {
    if b >= TB {
        spec_hundredths(spec_scaled_hundredths(b, TB as nat)) + " TB"@
    } else if b >= GB {
        spec_hundredths(spec_scaled_hundredths(b, GB as nat)) + " GB"@
    } else if b >= MB {
        spec_hundredths(spec_scaled_hundredths(b, MB as nat)) + " MB"@
    } else if b >= KB {
        spec_hundredths(spec_scaled_hundredths(b, KB as nat)) + " KB"@
    } else {
        spec_digits(b) + " B"@
    }
}

/// A percentage given in hundredths of a percent, rendered with two decimal
/// digits and a `%` sign: `3333` becomes `33.33%`.
pub open spec fn spec_format_percentage(h: nat) -> Seq<char> {
    spec_hundredths(h) + "%"@
}

/// Renders `n` as its decimal numeral.
pub fn u64_to_string(n: u64) -> (r: String)
    ensures
        r@ == spec_digits(n as nat),
    decreases n,
{
    if n < 10 {
        digit_str(n).to_owned()
    } else {
        let mut s = u64_to_string(n / 10);
        s.append(digit_str(n % 10));
        s
    }
}

pub(crate) fn div_round_half_even(num: u128, den: u128) -> (q: u128)
    requires
        0 < den,
        num <= u64::MAX * 10000,
    ensures
        q == spec_round_half_even(num as nat, den as nat),
{
    let quot: u128 = num / den;
    let rem: u128 = num % den;
    proof {
        vstd::arithmetic::div_mod::lemma_fundamental_div_mod(num as int, den as int);
        vstd::arithmetic::div_mod::lemma_mod_bound(num as int, den as int);
        if quot > 0 {
            vstd::arithmetic::mul::lemma_mul_increases(den as int, quot as int);
        }
        assert(quot <= num);
    }
    if rem < den - rem {
        quot
    } else if rem > den - rem {
        quot + 1
    } else if quot % 2 == 0 {
        quot
    } else {
        quot + 1
    }
}

/// Scales a byte count into hundredths of the given unit, rounding
/// half-to-even.
fn scale_to_hundredths(b: u64, unit: u64) -> (h: u64)
    requires
        KB <= unit,
    ensures
        h == spec_scaled_hundredths(b as nat, unit as nat),
{
    let num: u128 = (b as u128) * 100;
    let q: u128 = div_round_half_even(num, unit as u128);
    proof {
        vstd::arithmetic::div_mod::lemma_div_is_ordered_by_denominator(
            num as int,
            KB as int,
            unit as int,
        );
        vstd::arithmetic::div_mod::lemma_div_is_ordered(num as int, u64::MAX * 100, KB as int);
        assert(num / (unit as u128) < u64::MAX);
    }
    q as u64
}

/// Renders hundredths with exactly two decimal digits: `123` to `"1.23"`.
fn hundredths_to_string(h: u64) -> (r: String)
    ensures
        r@ == spec_hundredths(h as nat),
{
    let mut s = u64_to_string(h / 100);
    s.append(".");
    s.append(digit_str((h % 100) / 10));
    s.append(digit_str(h % 10));
    s
}

/// Renders a byte count in the largest binary unit it reaches, with two
/// decimal digits for scaled values and a bare integer for plain bytes.
pub fn format_bytes(bytes: u64) -> (r: String)
    ensures
        r@ == spec_format_bytes(bytes as nat),
{
    if bytes >= TB {
        let mut s = hundredths_to_string(scale_to_hundredths(bytes, TB));
        s.append(" TB");
        s
    } else if bytes >= GB {
        let mut s = hundredths_to_string(scale_to_hundredths(bytes, GB));
        s.append(" GB");
        s
    } else if bytes >= MB {
        let mut s = hundredths_to_string(scale_to_hundredths(bytes, MB));
        s.append(" MB");
        s
    } else if bytes >= KB {
        let mut s = hundredths_to_string(scale_to_hundredths(bytes, KB));
        s.append(" KB");
        s
    } else {
        let mut s = u64_to_string(bytes);
        s.append(" B");
        s
    }
}

/// Renders a percentage given in hundredths of a percent: `3333` to
/// `"33.33%"`.
pub fn format_percentage(hundredths: u64) -> (r: String)
    ensures
        r@ == spec_format_percentage(hundredths as nat),
{
    let mut s = hundredths_to_string(hundredths);
    s.append("%");
    s
}

} // verus!
