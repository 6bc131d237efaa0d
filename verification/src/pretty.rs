//! Sizes and spans of time in the short form that people read.

use vstd::prelude::*;
use crate::text::{decimal_digit, decimal_digit_char, decimal_text, push_decimal};
use crate::timestamp::Timestamp;

verus! {

/// The quotient of `n` by `d` rounded to the nearest whole number, a tie
/// going to the even one.
pub open spec fn round_half_even(n: nat, d: nat) -> nat {
    let q = n / d;
    let r = n % d;
    if 2 * r > d || (2 * r == d && q % 2 == 1) {
        q + 1
    } else {
        q
    }
}

/// The distance between neighbouring numbers that have 53 significant bits,
/// at the size of `n`.
pub open spec fn spacing_at(n: nat) -> nat
    decreases n,
{
    if n < 0x20_0000_0000_0000 {
        1
    } else {
        2 * spacing_at(n / 2)
    }
}

/// The nearest number to `n` that has no more than 53 significant bits, a tie
/// going to the even one: the value that a size takes when it is measured in
/// double precision.
pub open spec fn to_53_bits(n: nat) -> nat {
    round_half_even(n, spacing_at(n)) * spacing_at(n)
}

/// The number of tenths of `unit` in `n` bytes, rounded to the nearest, a tie
/// going to the even one.
pub open spec fn tenths_of(n: nat, unit: nat) -> nat {
    round_half_even(to_53_bits(n) * 10, unit)
}

/// A number of tenths written with one decimal place.
pub open spec fn one_decimal(tenths: nat) -> Seq<char> {
    decimal_text(tenths / 10) + seq!['.', decimal_digit((tenths % 10) as int)]
}

/// A size in bytes with a binary unit: whole bytes below 1024, and above
/// that KiB, MiB or GiB with one decimal place.
pub open spec fn bytes_text(bytes: nat) -> Seq<char> {
    if bytes < 1024 {
        decimal_text(bytes) + " Bytes"@
    } else if bytes < 1_048_576 {
        one_decimal(tenths_of(bytes, 1024)) + " KiB"@
    } else if bytes < 1_073_741_824 {
        one_decimal(tenths_of(bytes, 1_048_576)) + " MiB"@
    } else {
        one_decimal(tenths_of(bytes, 1_073_741_824)) + " GiB"@
    }
}

/// Divides with rounding to the nearest, a tie going to the even quotient.
fn divide_half_even(n: u128, d: u128) -> (q: u128)
    requires
        d > 0,
        n / d < u128::MAX,
        d <= u64::MAX,
    ensures
        q == round_half_even(n as nat, d as nat),
{
    let q: u128 = n / d;
    let r: u128 = n % d;
    if 2 * r > d || (2 * r == d && q % 2 == 1) {
        q + 1
    } else {
        q
    }
}

/// The distance between neighbouring numbers of 53 significant bits at `n`.
fn spacing(n: u64) -> (u: u64)
    ensures
        u == spacing_at(n as nat),
        1 <= u < 4096,
        u == 1 || u * 0x10_0000_0000_0000 <= n,
    decreases n,
{
    if n < 0x20_0000_0000_0000 {
        1
    } else {
        2 * spacing(n / 2)
    }
}

/// Appends a number of tenths with one decimal place.
fn push_one_decimal(out: &mut String, tenths: u64)
    ensures
        final(out)@ == old(out)@ + one_decimal(tenths as nat),
{
    push_decimal(out, tenths / 10);
    out.push('.');
    out.push(decimal_digit_char((tenths % 10) as u8));
    assert(out@ =~= old(out)@ + one_decimal(tenths as nat));
}

/// The number of tenths of `unit` in `bytes`.
fn tenths(bytes: u64, unit: u64) -> (t: u64)
    requires
        unit >= 1024,
    ensures
        t == tenths_of(bytes as nat, unit as nat),
{
    let u: u64 = spacing(bytes);
    let q: u128 = divide_half_even(bytes as u128, u as u128);
    assert(q * u <= 0x1_0000_0000_0000_1000) by (nonlinear_arith)
        requires
            q <= bytes / u + 1,
            1 <= u < 4096,
            bytes <= 0xffff_ffff_ffff_ffff,
    {
        assert((bytes / u) * u <= bytes) by (nonlinear_arith)
            requires
                u >= 1,
        ;
    }
    let kept: u128 = q * (u as u128);
    let t: u128 = divide_half_even(kept * 10, unit as u128);
    assert(t <= 0xffff_ffff_ffff_ffff) by (nonlinear_arith)
        requires
            t <= (kept * 10) / (unit as int) + 1,
            kept <= 0x1_0000_0000_0000_1000,
            unit >= 1024,
    ;
    t as u64
}

/// Takes a value in bytes and pretty prints it with a binary suffix.
pub fn pretty_print_bytes(bytes: u64) -> (s: String)
    ensures
        s@ == bytes_text(bytes as nat),
{
    let mut out = String::new();
    if bytes < 1024 {
        push_decimal(&mut out, bytes);
        out.append(" Bytes");
    } else if bytes < 1_048_576 {
        push_one_decimal(&mut out, tenths(bytes, 1024));
        out.append(" KiB");
    } else if bytes < 1_073_741_824 {
        push_one_decimal(&mut out, tenths(bytes, 1_048_576));
        out.append(" MiB");
    } else {
        push_one_decimal(&mut out, tenths(bytes, 1_073_741_824));
        out.append(" GiB");
    }
    out
}

/// The whole minutes between two instants, whichever comes first.
pub open spec fn minutes_between(a: Timestamp, b: Timestamp) -> nat {
    let d = a.total_nanos() - b.total_nanos();
    if d >= 0 {
        (d / 60_000_000_000) as nat
    } else {
        ((-d) / 60_000_000_000) as nat
    }
}

/// A number with its unit behind it, or nothing for zero.
pub open spec fn span_part(value: nat, unit: char) -> Seq<char> {
    if value == 0 {
        Seq::empty()
    } else {
        decimal_text(value).push(unit)
    }
}

/// Two pieces with a space between them, or the one that is not empty.
pub open spec fn spaced(a: Seq<char>, b: Seq<char>) -> Seq<char> {
    if a.len() == 0 {
        b
    } else if b.len() == 0 {
        a
    } else {
        a + seq![' '] + b
    }
}

/// A span of whole minutes in weeks, days, hours and minutes, the parts that
/// are zero left out; `<1m` for a span of less than a minute.
pub open spec fn span_text(minutes: nat) -> Seq<char> {
    if minutes == 0 {
        "<1m"@
    } else {
        spaced(
            spaced(
                spaced(
                    span_part(minutes / 10080, 'w'),
                    span_part((minutes / 1440) % 7, 'd'),
                ),
                span_part((minutes / 60) % 24, 'h'),
            ),
            span_part(minutes % 60, 'm'),
        )
    }
}

/// Appends a part of a span, with a space before it where something stands
/// there already.
fn push_span_part(out: &mut String, value: u64, unit: char)
    ensures
        final(out)@ == spaced(old(out)@, span_part(value as nat, unit)),
{
    if value > 0 {
        if out.as_str().unicode_len() > 0 {
            out.push(' ');
        }
        let ghost with_space = out@;
        push_decimal(out, value);
        out.push(unit);
        proof {
            crate::text::lemma_decimal_text_nonempty(value as nat);
            assert(out@ =~= with_space + decimal_text(value as nat).push(unit));
            assert(out@ =~= spaced(old(out)@, span_part(value as nat, unit)));
        }
    }
}

/// The whole minutes between two instants.
fn whole_minutes(a: &Timestamp, b: &Timestamp) -> (m: u64)
    ensures
        m == minutes_between(*a, *b),
{
    let d: i128 = (a.secs as i128 - b.secs as i128) * 1_000_000_000 + (a.nanos as i128
        - b.nanos as i128);
    let magnitude: i128 = if d >= 0 {
        d
    } else {
        -d
    };
    (magnitude / 60_000_000_000) as u64
}

/// The span between two instants in the short form that people read.
pub fn pretty_print_delta(a: &Timestamp, b: &Timestamp) -> (s: String)
    ensures
        s@ == span_text(minutes_between(*a, *b)),
{
    let minutes: u64 = whole_minutes(a, b);
    if minutes == 0 {
        return "<1m".to_owned();
    }
    let mut out = String::new();
    assert(out@ =~= Seq::<char>::empty());
    push_span_part(&mut out, minutes / 10080, 'w');
    push_span_part(&mut out, (minutes / 1440) % 7, 'd');
    push_span_part(&mut out, (minutes / 60) % 24, 'h');
    push_span_part(&mut out, minutes % 60, 'm');
    out
}

} // verus!
