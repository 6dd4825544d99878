//! View counts in short form: "1.5K views", "2.35M views", "7B views".
//!
//! The count is divided by its unit in double-precision arithmetic and
//! shown with two decimals, so what is shown is the double nearest to the
//! quotient, rounded to hundredths. The roundings are stated here over the
//! integers.

use crate::text::{decimal, digit, digit_char, push_decimal, push_decimal_wide};
use vstd::prelude::*;
use vstd::string::*;

verus! {

/// The integer nearest to `n / d`; of two that are equally near, the even
/// one.
pub open spec fn round_half_even(n: nat, d: nat) -> nat
    recommends
        d > 0,
{
    let q = n / d;
    let r = n % d;
    if 2 * r > d || (2 * r == d && q % 2 == 1) {
        q + 1
    } else {
        q
    }
}

/// Doubles carry 53 significant bits: every integer below this is a
/// double.
pub open spec fn significand_end() -> nat {
    0x20_0000_0000_0000
}

/// The least value of a full 53-bit significand.
pub open spec fn significand_start() -> nat {
    0x10_0000_0000_0000
}

/// The distance between neighbouring doubles at the integer `n`: the
/// power of two that brings `n` below 53 bits.
pub open spec fn spacing(n: nat) -> nat
    decreases n,
{
    if n < significand_end() {
        1
    } else {
        2 * spacing(n / 2)
    }
}

/// The double nearest to the integer `n`.
pub open spec fn nearest_double(n: nat) -> nat {
    round_half_even(n, spacing(n)) * spacing(n)
}

/// The power of two that scales `n / d` up to a full significand.
pub open spec fn precision(n: nat, d: nat) -> nat
    decreases
            if n < significand_start() * d {
                significand_start() * d - n
            } else {
                0
            },
{
    if n == 0 || n >= significand_start() * d {
        1
    } else {
        2 * precision(2 * n, d)
    }
}

/// A hundred times the double nearest to `n / d`, rounded to an integer:
/// the quotient in hundredths, as it is shown with two decimals.
pub open spec fn hundredths(n: nat, d: nat) -> nat {
    let p = precision(n, d);
    round_half_even(round_half_even(n * p, d) * 100, p)
}

/// A number of hundredths with up to two decimals; zeros at the end of
/// the decimals are left out, and so is the point if nothing follows it.
pub open spec fn hundredths_text(value: nat) -> Seq<char> {
    let cents = value % 100;
    decimal(value / 100) + if cents == 0 {
        Seq::<char>::empty()
    } else if cents % 10 == 0 {
        seq!['.', digit(cents / 10)]
    } else {
        seq!['.', digit(cents / 10), digit(cents % 10)]
    }
}

/// `views` in units of `unit`, as text.
pub open spec fn scaled_text(views: nat, unit: nat) -> Seq<char> {
    hundredths_text(hundredths(nearest_double(views), unit))
}

/// A view count as text: in full below a thousand, else in thousands (K),
/// millions (M) or billions (B).
pub open spec fn views_text(views: nat) -> Seq<char> {
    if views >= 1_000_000_000 {
        scaled_text(views, 1_000_000_000) + "B views"@
    } else if views >= 1_000_000 {
        scaled_text(views, 1_000_000) + "M views"@
    } else if views >= 1_000 {
        scaled_text(views, 1_000) + "K views"@
    } else {
        decimal(views) + " views"@
    }
}

proof fn lemma_quotient_at_most(n: int, d: int)
    by (nonlinear_arith)
    requires
        0 <= n,
        1 <= d,
    ensures
        0 <= n / d <= n,
{
}

fn rounded_quotient(n: u128, d: u128) -> (q: u128)
    requires
        d > 0,
        n < u128::MAX,
    ensures
        q == round_half_even(n as nat, d as nat),
        q == n / d || q == n / d + 1,
        q <= n + 1,
{
    proof {
        lemma_quotient_at_most(n as int, d as int);
    }
    let q = n / d;
    let r = n % d;
    if r > d - r || (r == d - r && q % 2 == 1) {
        q + 1
    } else {
        q
    }
}

fn double_of(views: u64) -> (count: u128)
    ensures
        count == nearest_double(views as nat),
        count <= 0x2_0000_0000_0000_0000,
        views > 0 ==> count > 0,
{
    let mut rest: u64 = views;
    let mut step: u64 = 1;
    while rest >= 0x20_0000_0000_0000
        invariant
            1 <= step <= 0x1000,
            rest * step <= views,
            step == 1 || rest >= 0x10_0000_0000_0000,
            spacing(views as nat) == step * spacing(rest as nat),
        decreases rest,
    {
        assert(step < 0x800) by (nonlinear_arith)
            requires
                rest >= 0x20_0000_0000_0000,
                rest * step <= views,
                views <= u64::MAX,
        ;
        assert((rest / 2) * (2 * step) <= rest * step) by (nonlinear_arith)
            requires
                step >= 1,
        ;
        assert(step * (2 * spacing((rest / 2) as nat)) == (2 * step) * spacing((rest / 2) as nat))
            by (nonlinear_arith);
        rest = rest / 2;
        step = step * 2;
    }
    assert(spacing(views as nat) == step) by (nonlinear_arith)
        requires
            spacing(views as nat) == step * spacing(rest as nat),
            spacing(rest as nat) == 1,
    ;
    assert(views > 0 ==> step <= views) by (nonlinear_arith)
        requires
            1 <= step,
            rest * step <= views,
            step == 1 || rest >= 0x10_0000_0000_0000,
    ;
    let q = rounded_quotient(views as u128, step as u128);
    assert(q * step <= 0x2_0000_0000_0000_0000 && (views > 0 ==> q * step > 0))
        by (nonlinear_arith)
        requires
            q == views / step || q == views / step + 1,
            1 <= step <= 0x1000,
            views <= u64::MAX,
            views > 0 ==> step <= views,
    ;
    q * (step as u128)
}

fn quotient_hundredths(count: u128, unit: u128) -> (value: u128)
    requires
        0 < count <= 0x2_0000_0000_0000_0000,
        1 <= unit <= 1_000_000_000,
    ensures
        value == hundredths(count as nat, unit as nat),
{
    let limit: u128 = 0x10_0000_0000_0000 * unit;
    let mut scaled: u128 = count;
    let mut power: u128 = 1;
    assert(count * 1 == count) by (nonlinear_arith);
    assert(1 * precision(count as nat, unit as nat) == precision(count as nat, unit as nat))
        by (nonlinear_arith);
    while scaled < limit
        invariant
            0 < count <= 0x2_0000_0000_0000_0000,
            1 <= unit <= 1_000_000_000,
            limit == 0x10_0000_0000_0000 * unit,
            scaled == count * power,
            1 <= power <= scaled,
            scaled < 2 * limit || power == 1,
            precision(count as nat, unit as nat) == power * precision(scaled as nat, unit as nat),
        decreases
                if scaled < limit {
                    limit - scaled
                } else {
                    0
                },
    {
        assert(power * (2 * precision((2 * scaled) as nat, unit as nat)) == (2 * power)
            * precision((2 * scaled) as nat, unit as nat)) by (nonlinear_arith);
        assert(2 * scaled == count * (2 * power)) by (nonlinear_arith)
            requires
                scaled == count * power,
        ;
        scaled = scaled * 2;
        power = power * 2;
    }
    assert(precision(count as nat, unit as nat) == power) by (nonlinear_arith)
        requires
            precision(count as nat, unit as nat) == power * precision(
                scaled as nat,
                unit as nat,
            ),
            precision(scaled as nat, unit as nat) == 1,
    ;
    let significand = rounded_quotient(scaled, unit);
    rounded_quotient(significand * 100, power)
}

fn push_hundredths(out: &mut String, value: u128)
    ensures
        final(out)@ == old(out)@ + hundredths_text(value as nat),
{
    push_decimal_wide(out, value / 100);
    let cents: u8 = (value % 100) as u8;
    if cents != 0 {
        out.push('.');
        out.push(digit_char(cents / 10));
        if cents % 10 != 0 {
            out.push(digit_char(cents % 10));
        }
    }
    assert(final(out)@ =~= old(out)@ + hundredths_text(value as nat));
}

fn scaled_views(views: u64, unit: u64, suffix: &str) -> (text: String)
    requires
        1 <= unit <= 1_000_000_000,
        views >= unit,
    ensures
        text@ == scaled_text(views as nat, unit as nat) + suffix@,
{
    let count = double_of(views);
    let value = quotient_hundredths(count, unit as u128);
    let mut text = String::new();
    push_hundredths(&mut text, value);
    text.append(suffix);
    text
}

/// Renders a view count in short form.
pub fn format_views(views: u64) -> (text: String)
    ensures
        text@ == views_text(views as nat),
{
    if views >= 1_000_000_000 {
        scaled_views(views, 1_000_000_000, "B views")
    } else if views >= 1_000_000 {
        scaled_views(views, 1_000_000, "M views")
    } else if views >= 1_000 {
        scaled_views(views, 1_000, "K views")
    } else {
        let mut text = String::new();
        push_decimal(&mut text, views);
        text.append(" views");
        text
    }
}

} // verus!
