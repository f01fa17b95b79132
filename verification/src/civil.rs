//! Calendar arithmetic for rendering a post's creation time: conversion of
//! a day count since the Unix epoch to a proleptic Gregorian civil date,
//! and the split of a timestamp's second-of-day into hours, minutes and
//! seconds.

use vstd::prelude::*;

verus! {

/// Largest timestamp the rendering covers: the last second of year 9999.
pub const MAX_RENDERABLE_TIMESTAMP: i64 = 253402300799;

/// Whether a creation time lies in the renderable range, the years 1970
/// through 9999.
pub open spec fn renderable_timestamp(ts: i64) -> bool {
    0 <= ts <= MAX_RENDERABLE_TIMESTAMP
}

/// The civil date (year, month, day) of the day `z` days after 1970-01-01,
/// by era-and-cycle division of the 146097-day Gregorian cycle. The two
/// guarded subtractions never clamp for a day count in range; the guards
/// keep the definition total.
pub open spec fn days_to_civil(z: int) -> (int, int, int) {
    let zz = z + 719468;
    let era = zz / 146097;
    let doe = zz % 146097;
    let yoe = (doe - doe / 1460 + doe / 36524 - doe / 146096) / 365;
    let yd = 365 * yoe + yoe / 4 - yoe / 100;
    let doy = if doe >= yd && doe - yd <= 365 {
        doe - yd
    } else if doe >= yd {
        365
    } else {
        0
    };
    let mp = (5 * doy + 2) / 153;
    let md = (153 * mp + 2) / 5;
    let d = if doy >= md {
        doy - md + 1
    } else {
        1
    };
    let m = if mp < 10 {
        mp + 3
    } else {
        mp - 9
    };
    (
        if m <= 2 {
            era * 400 + yoe + 1
        } else {
            era * 400 + yoe
        },
        m,
        d,
    )
}

/// Converts a day count since 1970-01-01 to its civil date.
pub fn civil_from_days(z: u64) -> (r: (u64, u64, u64))
    requires
        z <= 2932896,
    ensures
        (r.0 as int, r.1 as int, r.2 as int) == days_to_civil(z as int),
{
    let zz: u64 = z + 719468;
    let era: u64 = zz / 146097;
    let doe: u64 = zz % 146097;
    let yoe: u64 = (doe - doe / 1460 + doe / 36524 - doe / 146096) / 365;
    let yd: u64 = 365 * yoe + yoe / 4 - yoe / 100;
    let doy: u64 = if doe >= yd && doe - yd <= 365 {
        doe - yd
    } else if doe >= yd {
        365
    } else {
        0
    };
    let mp: u64 = (5 * doy + 2) / 153;
    let md: u64 = (153 * mp + 2) / 5;
    let d: u64 = if doy >= md {
        doy - md + 1
    } else {
        1
    };
    let m: u64 = if mp < 10 {
        mp + 3
    } else {
        mp - 9
    };
    let y: u64 = if m <= 2 {
        era * 400 + yoe + 1
    } else {
        era * 400 + yoe
    };
    (y, m, d)
}

/// The day count, from 1970-01-01, of a civil date: the era-and-cycle sum
/// inverse to `days_to_civil`.
pub open spec fn days_from_civil(y: int, m: int, d: int) -> int {
    let yy = if m <= 2 {
        y - 1
    } else {
        y
    };
    let era = yy / 400;
    let yoe = yy - era * 400;
    let mp = if m > 2 {
        m - 3
    } else {
        m + 9
    };
    let doy = (153 * mp + 2) / 5 + d - 1;
    let doe = yoe * 365 + yoe / 4 - yoe / 100 + doy;
    era * 146097 + doe - 719468
}

/// Converting a day count in range to its civil date and back returns the
/// same day count: the conversion loses nothing, and in particular the
/// guarded subtractions in `days_to_civil` never clamp.
#[verifier::rlimit(100)]
pub proof fn lemma_civil_round_trip(z: int)
    requires
        0 <= z <= 2932896,
    ensures
        ({
            let c = days_to_civil(z);
            days_from_civil(c.0, c.1, c.2) == z
        }),
{
    let zz = z + 719468;
    vstd::arithmetic::div_mod::lemma_fundamental_div_mod(zz, 146097);
    vstd::arithmetic::div_mod::lemma_mod_bound(zz, 146097);
    let era = zz / 146097;
    let doe = zz % 146097;
    vstd::arithmetic::div_mod::lemma_fundamental_div_mod(doe, 1460);
    vstd::arithmetic::div_mod::lemma_mod_bound(doe, 1460);
    vstd::arithmetic::div_mod::lemma_fundamental_div_mod(doe, 36524);
    vstd::arithmetic::div_mod::lemma_mod_bound(doe, 36524);
    vstd::arithmetic::div_mod::lemma_fundamental_div_mod(doe, 146096);
    vstd::arithmetic::div_mod::lemma_mod_bound(doe, 146096);
    let num = doe - doe / 1460 + doe / 36524 - doe / 146096;
    vstd::arithmetic::div_mod::lemma_fundamental_div_mod(num, 365);
    vstd::arithmetic::div_mod::lemma_mod_bound(num, 365);
    let yoe = num / 365;
    vstd::arithmetic::div_mod::lemma_fundamental_div_mod(yoe, 4);
    vstd::arithmetic::div_mod::lemma_mod_bound(yoe, 4);
    vstd::arithmetic::div_mod::lemma_fundamental_div_mod(yoe, 100);
    vstd::arithmetic::div_mod::lemma_mod_bound(yoe, 100);
    assert(0 <= yoe <= 399);
    let yd = 365 * yoe + yoe / 4 - yoe / 100;
    assert(yd <= doe);
    assert(doe - yd <= 365);
    let doy = doe - yd;
    vstd::arithmetic::div_mod::lemma_fundamental_div_mod(5 * doy + 2, 153);
    vstd::arithmetic::div_mod::lemma_mod_bound(5 * doy + 2, 153);
    let mp = (5 * doy + 2) / 153;
    vstd::arithmetic::div_mod::lemma_fundamental_div_mod(153 * mp + 2, 5);
    vstd::arithmetic::div_mod::lemma_mod_bound(153 * mp + 2, 5);
    let c = days_to_civil(z);
    let yy = if c.1 <= 2 {
        c.0 - 1
    } else {
        c.0
    };
    assert(yy == era * 400 + yoe);
    vstd::arithmetic::div_mod::lemma_fundamental_div_mod(yy, 400);
    vstd::arithmetic::div_mod::lemma_mod_bound(yy, 400);
    assert(yy / 400 == era) by {
        vstd::arithmetic::div_mod::lemma_div_multiples_vanish_fancy(era, yoe, 400);
    }
    let mp2 = if c.1 > 2 {
        c.1 - 3
    } else {
        c.1 + 9
    };
    assert(mp2 == mp);
    vstd::arithmetic::div_mod::lemma_fundamental_div_mod(153 * mp2 + 2, 5);
    vstd::arithmetic::div_mod::lemma_mod_bound(153 * mp2 + 2, 5);
    assert(days_from_civil(c.0, c.1, c.2) == z);
}

/// The month of a civil date lies in 1..=12 and the day in 1..=31.
pub proof fn lemma_civil_fields_bounded(z: int)
    ensures
        ({
            let c = days_to_civil(z);
            1 <= c.1 <= 12 && 1 <= c.2 <= 31
        }),
{
    let zz = z + 719468;
    let doe = zz % 146097;
    let yoe = (doe - doe / 1460 + doe / 36524 - doe / 146096) / 365;
    let yd = 365 * yoe + yoe / 4 - yoe / 100;
    let doy = if doe >= yd && doe - yd <= 365 {
        doe - yd
    } else if doe >= yd {
        365
    } else {
        0
    };
    let mp = (5 * doy + 2) / 153;
    let md = (153 * mp + 2) / 5;
    vstd::arithmetic::div_mod::lemma_fundamental_div_mod(5 * doy + 2, 153);
    vstd::arithmetic::div_mod::lemma_mod_bound(5 * doy + 2, 153);
    vstd::arithmetic::div_mod::lemma_fundamental_div_mod(153 * mp + 2, 5);
    vstd::arithmetic::div_mod::lemma_mod_bound(153 * mp + 2, 5);
    assert(0 <= doy <= 365);
    assert(153 * mp + (5 * doy + 2) % 153 == 5 * doy + 2);
    assert(0 <= mp <= 11);
    assert(5 * md + (153 * mp + 2) % 5 == 153 * mp + 2);
    if doy >= md {
        assert(5 * (doy - md + 1) == (5 * doy + 2) % 153 + (153 * mp + 2) % 5 + 1);
    }
}

/// The hours, minutes and seconds of a timestamp's second-of-day.
pub open spec fn time_of_day(ts: int) -> (int, int, int) {
    let sod = ts % 86400;
    (sod / 3600, (sod % 3600) / 60, sod % 60)
}

/// Splits a timestamp's second-of-day into hours, minutes and seconds.
pub fn split_time_of_day(ts: u64) -> (r: (u64, u64, u64))
    ensures
        (r.0 as int, r.1 as int, r.2 as int) == time_of_day(ts as int),
        r.0 < 24 && r.1 < 60 && r.2 < 60,
{
    let sod: u64 = ts % 86400;
    (sod / 3600, (sod % 3600) / 60, sod % 60)
}

} // verus!
