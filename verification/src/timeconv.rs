//! Conversion between the credential store's native timestamp encoding
//! (microseconds since 1601-01-01) and a standard 1970-epoch second count.

use vstd::prelude::*;
use vstd::arithmetic::div_mod::{lemma_div_multiples_vanish, lemma_div_is_ordered, lemma_div_pos_is_pos};

verus! {

/// Seconds between 1601-01-01 and 1970-01-01.
pub const EPOCH_SHIFT_SECONDS: i64 = 11_644_473_600;

/// Microseconds in one second.
pub const MICROS_PER_SECOND: i64 = 1_000_000;

/// Division truncating toward zero, as `/` behaves on the machine integers.
pub open spec fn trunc_div(a: int, b: int) -> int
    recommends
        b > 0,
{
    if a >= 0 {
        a / b
    } else {
        -((-a) / b)
    }
}

/// A native 1601-epoch microsecond count, brought to 1970-epoch seconds:
/// the microseconds are divided out (truncating) and the epoch shifted.
pub open spec fn webkit_to_unix_spec(t: int) -> int {
    trunc_div(t, MICROS_PER_SECOND as int) - EPOCH_SHIFT_SECONDS as int
}

/// A 1970-epoch second count, brought back to the native 1601-epoch
/// microsecond encoding. Sub-second precision is not representable here,
/// so the result is always a whole multiple of one second.
pub open spec fn unix_to_webkit_spec(u: int) -> int {
    (u + EPOCH_SHIFT_SECONDS as int) * MICROS_PER_SECOND as int
}

/// Largest magnitude a truncated quotient of an `i64` by one million can take.
pub const MAX_WEBKIT_SECONDS: i64 = 9_223_372_036_854;

pub fn webkit_to_unix_time(webkit_time: i64) -> (r: i64)
    ensures
        r == webkit_to_unix_spec(webkit_time as int),
        -MAX_WEBKIT_SECONDS - EPOCH_SHIFT_SECONDS <= r <= MAX_WEBKIT_SECONDS - EPOCH_SHIFT_SECONDS,
{
    proof {
        lemma_quotient_magnitude_bounded(webkit_time as int);
    }
    let quotient: i64 = if webkit_time >= 0 {
        ((webkit_time as u64) / 1_000_000u64) as i64
    } else {
        // `-(t + 1)` avoids the overflow of `-t` at the minimum value; the
        // magnitude of `t` is then restored on the unsigned side.
        let magnitude: u64 = ((-(webkit_time + 1)) as u64) + 1;
        -((magnitude / 1_000_000u64) as i64)
    };
    quotient - EPOCH_SHIFT_SECONDS
}

pub fn unix_to_webkit_time(unix_seconds: i64) -> (r: i64)
    requires
        -MAX_WEBKIT_SECONDS <= unix_seconds + EPOCH_SHIFT_SECONDS <= MAX_WEBKIT_SECONDS,
    ensures
        r == unix_to_webkit_spec(unix_seconds as int),
{
    (unix_seconds + EPOCH_SHIFT_SECONDS) * MICROS_PER_SECOND
}

/// The truncated quotient of any `i64` by one million stays within
/// `MAX_WEBKIT_SECONDS`, so a converted second count can always be shifted
/// back under `unix_to_webkit_time`'s precondition.
pub proof fn lemma_quotient_magnitude_bounded(t: int)
    requires
        i64::MIN <= t <= i64::MAX,
    ensures
        -MAX_WEBKIT_SECONDS as int <= trunc_div(t, MICROS_PER_SECOND as int) <= MAX_WEBKIT_SECONDS as int,
{
    let m = MICROS_PER_SECOND as int;
    if t >= 0 {
        lemma_div_is_ordered(t, i64::MAX as int, m);
        lemma_div_pos_is_pos(t, m);
        assert(i64::MAX as int / m == MAX_WEBKIT_SECONDS as int);
    } else {
        lemma_div_is_ordered(-t, -(i64::MIN as int), m);
        lemma_div_pos_is_pos(-t, m);
        assert(-(i64::MIN as int) / m == MAX_WEBKIT_SECONDS as int);
    }
}

/// Shifting a second count into the native encoding and dividing the
/// microseconds back out recovers the count exactly: the native value is a
/// whole multiple of one second.
pub proof fn lemma_unix_webkit_inverse(u: int)
    ensures
        webkit_to_unix_spec(unix_to_webkit_spec(u)) == u,
{
    let shifted = u + EPOCH_SHIFT_SECONDS as int;
    let m = MICROS_PER_SECOND as int;
    if shifted >= 0 {
        assert(shifted * m >= 0) by (nonlinear_arith)
            requires
                shifted >= 0,
                m > 0,
        ;
        lemma_div_multiples_vanish(shifted, m);
    } else {
        assert(shifted * m < 0) by (nonlinear_arith)
            requires
                shifted < 0,
                m > 0,
        ;
        assert(-(shifted * m) == (-shifted) * m);
        lemma_div_multiples_vanish(-shifted, m);
    }
}

/// Timestamp conversion is consistent under round-trip at its own
/// resolution: converting a native value to standard time, back to native,
/// and to standard time again gives the first conversion's result, the
/// microseconds below one second having been truncated once and for all.
pub proof fn lemma_time_round_trip(t: i64)
    ensures
        -MAX_WEBKIT_SECONDS <= webkit_to_unix_spec(t as int) + EPOCH_SHIFT_SECONDS <= MAX_WEBKIT_SECONDS,
        webkit_to_unix_spec(unix_to_webkit_spec(webkit_to_unix_spec(t as int)))
            == webkit_to_unix_spec(t as int),
{
    lemma_quotient_magnitude_bounded(t as int);
    lemma_unix_webkit_inverse(webkit_to_unix_spec(t as int));
}

} // verus!
