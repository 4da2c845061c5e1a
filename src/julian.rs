use vstd::prelude::*;
use vstd::arithmetic::div_mod::{
    lemma_fundamental_div_mod, lemma_fundamental_div_mod_converse, lemma_mod_pos_bound,
};
use vstd::arithmetic::mul::lemma_mul_is_commutative;
use crate::error::AstroError;

verus! {

/// October 15, 1582 (the first day of the Gregorian calendar), encoded as
/// `day + 31 * (month + 12 * year)`.
pub const GREGORIAN_START: i64 = 15 + 31 * (10 + 12 * 1582);

/// The year with the missing year zero closed up: 1 B.C. (`-1`) becomes `0`.
pub open spec fn astronomical_year(year: int) -> int {
    if year < 0 { year + 1 } else { year }
}

/// The year the formula counts in: January and February belong to the year before.
pub open spec fn formula_year(month: int, year: int) -> int {
    if month > 2 { astronomical_year(year) } else { astronomical_year(year) - 1 }
}

/// One more than the month the formula counts in: January and February are
/// months 13 and 14 of the year before.
pub open spec fn formula_month(month: int) -> int {
    if month > 2 { month + 1 } else { month + 13 }
}

/// Whether the date, as given, falls on or after the Gregorian reform.
pub open spec fn is_gregorian(month: int, day: int, year: int) -> bool {
    day + 31 * (month + 12 * year) >= GREGORIAN_START
}

/// The day count of the Julian calendar:
/// `floor(365.25 * y) + floor(30.6001 * m) + day + 1720995`.
pub open spec fn julian_calendar_day(month: int, day: int, year: int) -> int {
    (1461 * formula_year(month, year)) / 4 + (306001 * formula_month(month)) / 10000 + day
        + 1720995
}

/// The leap days that the Gregorian calendar drops:
/// `2 - c + floor(c / 4)` with `c = floor(y / 100)`.
pub open spec fn gregorian_correction(month: int, year: int) -> int {
    let century = formula_year(month, year) / 100;
    2 - century + century / 4
}

/// The Julian Day Number that begins at noon of the given date (year nonzero;
/// negative years are B.C.).
pub open spec fn julian_day(month: int, day: int, year: int) -> int {
    if is_gregorian(month, day, year) {
        julian_calendar_day(month, day, year) + gregorian_correction(month, year)
    } else {
        julian_calendar_day(month, day, year)
    }
}

/// `a` divided by `d`, rounded down.
fn floor_div(a: i64, d: i64) -> (r: i64)
    requires
        d > 0,
    ensures
        r == a as int / d as int,
{
    if a >= 0 {
        a / d
    } else {
        let b: i64 = -(a + 1);
        let q: i64 = b / d;
        proof {
            let r = b as int % d as int;
            lemma_mod_pos_bound(b as int, d as int);
            assert(b == q * d + r) by {
                lemma_fundamental_div_mod(b as int, d as int);
                lemma_mul_is_commutative(q as int, d as int);
            }
            assert(a == (-q - 1) * d + (d - 1 - r)) by (nonlinear_arith)
                requires
                    b == q * d + r,
                    a == -b - 1,
            ;
            lemma_fundamental_div_mod_converse(a as int, d as int, -q - 1, d - 1 - r);
        }
        -q - 1
    }
}

/// The Julian Day Number that begins at noon of the date `mm`/`id`/`iyyy`
/// (month, day, year). Positive years are A.D., negative years B.C.; the year
/// after 1 B.C. is 1 A.D., so year zero is refused.
pub fn julday(mm: i32, id: i32, iyyy: i32) -> (r: Result<i64, AstroError>)
    ensures
        iyyy == 0 ==> r == Err::<i64, AstroError>(AstroError::InvalidDate),
        iyyy != 0 ==> r is Ok && r->Ok_0 == julian_day(mm as int, id as int, iyyy as int),
{
    if iyyy == 0 {
        return Err(AstroError::InvalidDate);
    }
    let month: i64 = mm as i64;
    let day: i64 = id as i64;
    let year: i64 = iyyy as i64;
    let mut jy: i64 = if year < 0 { year + 1 } else { year };
    let jm: i64;
    if month > 2 {
        jm = month + 1;
    } else {
        jy = jy - 1;
        jm = month + 13;
    }
    let mut jul: i64 = floor_div(1461 * jy, 4) + floor_div(306001 * jm, 10000) + day + 1720995;
    if day + 31 * (month + 12 * year) >= GREGORIAN_START {
        let century: i64 = floor_div(jy, 100);
        jul = jul + 2 - century + floor_div(century, 4);
    }
    Ok(jul)
}

} // verus!
