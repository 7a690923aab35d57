//! The generation timestamp stamped into the info dictionary.
//!
//! Reading the clock is the one thing this crate takes from outside;
//! turning the raw reading into the `YYYYMMDDHHMMSS±ZZZZ` text the
//! info dictionary carries is verified here.
use vstd::prelude::*;

use crate::emit::padded_bytes;
use crate::emit::push_padded;

verus! {

/// The raw fields of a local-time reading, as the `time` crate's `Tm`
/// carries them: years since 1900, zero-based month, day of month,
/// hour, minute, second, and the offset from UTC in seconds.
///
/// Relies on time::now: the current local time. Nothing can be
/// promised of a clock reading, so this has no contract; the
/// formatting that consumes it holds for every value.
#[verifier::external_body]
fn local_time_raw() -> (r: (i32, i32, i32, i32, i32, i32, i32)) {
    let t = time::now();
    (t.tm_year, t.tm_mon, t.tm_mday, t.tm_hour, t.tm_min, t.tm_sec, t.tm_utcoff)
}

/// A number, zero-padded to at least `w` digits, with a minus sign in
/// front when negative.
pub open spec fn signed_padded_bytes(v: int, w: nat) -> Seq<u8> {
    if v < 0 {
        seq![45u8] + padded_bytes((-v) as nat, w)
    } else {
        padded_bytes(v as nat, w)
    }
}

/// The timestamp text `YYYYMMDDHHMMSS±ZZZZ` for a raw local-time
/// reading: the full year, then two digits each for month, day, hour,
/// minute and second, then the UTC offset as a sign and four digits
/// (hours and minutes).
pub open spec fn timestamp_bytes(
    year: int,
    mon: int,
    mday: int,
    hour: int,
    min: int,
    sec: int,
    utcoff: int,
) -> Seq<u8> {
    let off = if utcoff < 0 {
        -utcoff
    } else {
        utcoff
    };
    signed_padded_bytes(year + 1900, 4) + signed_padded_bytes(mon + 1, 2) + signed_padded_bytes(
        mday,
        2,
    ) + signed_padded_bytes(hour, 2) + signed_padded_bytes(min, 2) + signed_padded_bytes(sec, 2) + (
    if utcoff < 0 {
        seq![45u8]
    } else {
        seq![43u8]
    }) + padded_bytes((off / 3600) as nat, 2) + padded_bytes((off % 3600 / 60) as nat, 2)
}

/// Append a value as a sign and at least `w` digits.
fn push_signed_padded(out: &mut Vec<u8>, v: i64, w: usize)
    requires
        v > i64::MIN,
    ensures
        final(out)@ == old(out)@ + signed_padded_bytes(v as int, w as nat),
{
    if v < 0 {
        out.push(45);
        push_padded(out, (-v) as u64, w);
    } else {
        push_padded(out, v as u64, w);
    }
    assert(final(out)@ =~= old(out)@ + signed_padded_bytes(v as int, w as nat));
}

/// Format a raw local-time reading as `YYYYMMDDHHMMSS±ZZZZ`.
fn format_timestamp(
    year: i32,
    mon: i32,
    mday: i32,
    hour: i32,
    min: i32,
    sec: i32,
    utcoff: i32,
) -> (r: Vec<u8>)
    ensures
        r@ == timestamp_bytes(
            year as int,
            mon as int,
            mday as int,
            hour as int,
            min as int,
            sec as int,
            utcoff as int,
        ),
{
    let mut out: Vec<u8> = Vec::new();
    push_signed_padded(&mut out, year as i64 + 1900, 4);
    push_signed_padded(&mut out, mon as i64 + 1, 2);
    push_signed_padded(&mut out, mday as i64, 2);
    push_signed_padded(&mut out, hour as i64, 2);
    push_signed_padded(&mut out, min as i64, 2);
    push_signed_padded(&mut out, sec as i64, 2);
    let off: i64 = if utcoff < 0 {
        -(utcoff as i64)
    } else {
        utcoff as i64
    };
    if utcoff < 0 {
        out.push(45);
    } else {
        out.push(43);
    }
    push_padded(&mut out, (off / 3600) as u64, 2);
    push_padded(&mut out, (off % 3600 / 60) as u64, 2);
    assert(out@ =~= timestamp_bytes(
        year as int,
        mon as int,
        mday as int,
        hour as int,
        min as int,
        sec as int,
        utcoff as int,
    ));
    out
}

/// The current local time as `YYYYMMDDHHMMSS±ZZZZ`: some reading of
/// the clock, faithfully formatted.
pub fn local_timestamp() -> (r: Vec<u8>)
    ensures
        exists|y: int, mo: int, d: int, h: int, mi: int, s: int, o: int|
            r@ == #[trigger] timestamp_bytes(y, mo, d, h, mi, s, o),
{
    let (year, mon, mday, hour, min, sec, utcoff) = local_time_raw();
    let r = format_timestamp(year, mon, mday, hour, min, sec, utcoff);
    proof {
        assert(r@ == timestamp_bytes(
            year as int,
            mon as int,
            mday as int,
            hour as int,
            min as int,
            sec as int,
            utcoff as int,
        ));
    }
    r
}

} // verus!
