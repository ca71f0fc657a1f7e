//! Composition of the supplementary tooltip content: uptime rendering and
//! the ISO-week line, plus the two composed texts — the augmented native
//! tooltip text and the stand-alone overlay text.
use vstd::prelude::*;
use crate::text::{dec_digits, push_dec, push_bytes};

verus! {

/// Whole days, hours and minutes of an uptime given in milliseconds.
pub open spec fn spec_uptime_units(ms: u64) -> (int, int, int) {
    let s = ms as int / 1000;
    (s / 86400, (s % 86400) / 3600, (s % 3600) / 60)
}

/// Break a boot-relative tick count in milliseconds into days, hours and
/// minutes.
pub fn uptime_units(ms: u64) -> (u: (u64, u64, u64))
    ensures
        (u.0 as int, u.1 as int, u.2 as int) == spec_uptime_units(ms),
        u.1 < 24,
        u.2 < 60,
{
    let s: u64 = ms / 1000;
    (s / 86400, (s % 86400) / 3600, (s % 3600) / 60)
}

/// Uptime as text: the leading units are dropped while zero, so the form
/// is `Nd Nh Nm`, `Nh Nm`, or just `Nm`.
pub open spec fn spec_uptime_text(d: nat, h: nat, m: nat) -> Seq<u8> {
    if d > 0 {
        dec_digits(d) + seq!['d' as u8, ' ' as u8] + dec_digits(h) + seq!['h' as u8, ' ' as u8]
            + dec_digits(m) + seq!['m' as u8]
    } else if h > 0 {
        dec_digits(h) + seq!['h' as u8, ' ' as u8] + dec_digits(m) + seq!['m' as u8]
    } else {
        dec_digits(m) + seq!['m' as u8]
    }
}

/// Render an uptime already broken into days, hours and minutes.
pub fn format_uptime(d: u64, h: u64, m: u64) -> (out: Vec<u8>)
    ensures
        out@ == spec_uptime_text(d as nat, h as nat, m as nat),
{
    let mut out: Vec<u8> = Vec::new();
    if d > 0 {
        push_dec(&mut out, d);
        out.push('d' as u8);
        out.push(' ' as u8);
    }
    if d > 0 || h > 0 {
        push_dec(&mut out, h);
        out.push('h' as u8);
        out.push(' ' as u8);
    }
    push_dec(&mut out, m);
    out.push('m' as u8);
    proof {
        assert(out@ =~= spec_uptime_text(d as nat, h as nat, m as nat));
    }
    out
}

/// The localized week line: `Uke N`.
pub open spec fn spec_week_text(week: u32) -> Seq<u8> {
    seq!['U' as u8, 'k' as u8, 'e' as u8, ' ' as u8] + dec_digits(week as nat)
}

/// Render the localized week line.
pub fn format_week(week: u32) -> (out: Vec<u8>)
    ensures
        out@ == spec_week_text(week),
{
    let mut out: Vec<u8> = Vec::new();
    out.push('U' as u8);
    out.push('k' as u8);
    out.push('e' as u8);
    out.push(' ' as u8);
    push_dec(&mut out, week as u64);
    proof {
        assert(out@ =~= spec_week_text(week));
    }
    out
}

/// A decimal rendering with a leading minus sign for negative values.
pub open spec fn dec_signed(v: int) -> Seq<u8> {
    if v < 0 {
        seq!['-' as u8] + dec_digits((-v) as nat)
    } else {
        dec_digits(v as nat)
    }
}

/// Append the decimal rendering of a possibly negative value.
pub fn push_dec_signed(out: &mut Vec<u8>, v: i64)
    ensures
        final(out)@ == old(out)@ + dec_signed(v as int),
{
    if v < 0 {
        out.push('-' as u8);
        let mag: u64 = if v == i64::MIN {
            9223372036854775808u64
        } else {
            (-v) as u64
        };
        push_dec(out, mag);
        proof {
            assert(final(out)@ =~= old(out)@ + dec_signed(v as int));
        }
    } else {
        push_dec(out, v as u64);
    }
}

/// The in-place augmentation of a native tooltip's text: the original
/// text, then an uptime line under the `Opptid` label, then the week line.
pub open spec fn spec_augmented_text(orig: Seq<u8>, d: nat, h: nat, m: nat, week: u32) -> Seq<u8> {
    orig
        + seq!['\n' as u8, 'O' as u8, 'p' as u8, 'p' as u8, 't' as u8, 'i' as u8, 'd' as u8, ':' as u8, ' ' as u8]
        + spec_uptime_text(d, h, m) + seq!['\n' as u8] + spec_week_text(week)
}

/// Compose the replacement text for a native tooltip from its current
/// text, the uptime tick count in milliseconds, and the week number.
pub fn augment_tooltip_text(orig: &[u8], uptime_ms: u64, week: u32) -> (out: Vec<u8>)
    ensures
        ({
            let (d, h, m) = spec_uptime_units(uptime_ms);
            out@ == spec_augmented_text(orig@, d as nat, h as nat, m as nat, week)
        }),
{
    let (d, h, m) = uptime_units(uptime_ms);
    let mut out: Vec<u8> = Vec::new();
    push_bytes(&mut out, orig);
    out.push('\n' as u8);
    out.push('O' as u8);
    out.push('p' as u8);
    out.push('p' as u8);
    out.push('t' as u8);
    out.push('i' as u8);
    out.push('d' as u8);
    out.push(':' as u8);
    out.push(' ' as u8);
    let up = format_uptime(d, h, m);
    push_bytes(&mut out, up.as_slice());
    out.push('\n' as u8);
    let wk = format_week(week);
    push_bytes(&mut out, wk.as_slice());
    proof {
        let (sd, sh, sm) = spec_uptime_units(uptime_ms);
        assert(out@ =~= spec_augmented_text(orig@, sd as nat, sh as nat, sm as nat, week));
    }
    out
}

/// The stand-alone overlay text: an uptime line and a week-of-year line
/// with the ISO week year and a locale tag.
pub open spec fn spec_overlay_text(d: nat, h: nat, m: nat, week: u32, week_year: int) -> Seq<u8> {
    seq!['U' as u8, 'p' as u8, 't' as u8, 'i' as u8, 'm' as u8, 'e' as u8, ':' as u8, ' ' as u8]
        + spec_uptime_text(d, h, m)
        + seq!['\n' as u8, 'W' as u8, 'e' as u8, 'e' as u8, 'k' as u8, ' ' as u8]
        + dec_digits(week as nat) + seq![',' as u8, ' ' as u8] + dec_signed(week_year)
        + seq![' ' as u8, '(' as u8, 'N' as u8, 'O' as u8, ')' as u8]
}

/// Compose the overlay tooltip's text from the uptime tick count in
/// milliseconds, the ISO week number, and the ISO week year.
pub fn generate_tooltip_text(uptime_ms: u64, week: u32, week_year: i32) -> (out: Vec<u8>)
    ensures
        ({
            let (d, h, m) = spec_uptime_units(uptime_ms);
            out@ == spec_overlay_text(d as nat, h as nat, m as nat, week, week_year as int)
        }),
{
    let (d, h, m) = uptime_units(uptime_ms);
    let mut out: Vec<u8> = Vec::new();
    out.push('U' as u8);
    out.push('p' as u8);
    out.push('t' as u8);
    out.push('i' as u8);
    out.push('m' as u8);
    out.push('e' as u8);
    out.push(':' as u8);
    out.push(' ' as u8);
    let up = format_uptime(d, h, m);
    push_bytes(&mut out, up.as_slice());
    out.push('\n' as u8);
    out.push('W' as u8);
    out.push('e' as u8);
    out.push('e' as u8);
    out.push('k' as u8);
    out.push(' ' as u8);
    push_dec(&mut out, week as u64);
    out.push(',' as u8);
    out.push(' ' as u8);
    push_dec_signed(&mut out, week_year as i64);
    out.push(' ' as u8);
    out.push('(' as u8);
    out.push('N' as u8);
    out.push('O' as u8);
    out.push(')' as u8);
    proof {
        let (sd, sh, sm) = spec_uptime_units(uptime_ms);
        assert(out@ =~= spec_overlay_text(sd as nat, sh as nat, sm as nat, week, week_year as int));
    }
    out
}

} // verus!
