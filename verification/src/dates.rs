//! Calendar days as plain numbers.
//!
//! A day is its Julian day number, so that day navigation is integer
//! arithmetic.  The bounds are those of the dates the `time` crate can
//! represent (years -9999 through 9999); the boundary with that crate is a
//! pair of trusted wrappers at the bottom of this file.
use vstd::prelude::*;

verus! {

/// Julian day number of January 1, -9999, the earliest supported date.
pub const DAY_MIN: i32 = -1930999;

/// Julian day number of December 31, 9999, the latest supported date.
pub const DAY_MAX: i32 = 5373484;

/// A day number that stands for a representable calendar date.
pub open spec fn valid_day(d: int) -> bool {
    DAY_MIN <= d <= DAY_MAX
}

/// The day `days` after `date`, saturated at the first and last
/// representable dates.
pub open spec fn spec_bound_date_offset(date: int, days: int) -> int {
    if date + days < DAY_MIN {
        DAY_MIN as int
    } else if date + days > DAY_MAX {
        DAY_MAX as int
    } else {
        date + days
    }
}

/// Move `date` by `days` calendar days, staying inside the representable
/// range.  Crossing a month boundary is allowed and not special.
pub fn bound_date_offset(date: i32, days: i64) -> (r: i32)
    requires
        valid_day(date as int),
    ensures
        r as int == spec_bound_date_offset(date as int, days as int),
        valid_day(r as int),
{
    let wide: i128 = date as i128 + days as i128;
    if wide < DAY_MIN as i128 {
        DAY_MIN
    } else if wide > DAY_MAX as i128 {
        DAY_MAX
    } else {
        wide as i32
    }
}

/// Relies on `time::OffsetDateTime::now_utc` and `time::Date::to_julian_day`:
/// whatever the clock says, the result is the Julian day number of some
/// `time::Date`, and every such date lies between `Date::MIN` and
/// `Date::MAX`, whose Julian day numbers are `DAY_MIN` and `DAY_MAX`.
#[verifier::external_body]
pub fn current_day() -> (d: i32)
    ensures
        valid_day(d as int),
{
    time::OffsetDateTime::now_utc().date().to_julian_day()
}

/// The text that the `time` crate prints for the date with Julian day
/// number `d`; it depends on the day alone.
pub uninterp spec fn day_text(d: int) -> Seq<char>;

/// Relies on `time::Date::from_julian_day`, which succeeds for every day
/// number between `DAY_MIN` and `DAY_MAX`, and on the `Display`
/// implementation of `time::Date`, whose output depends on the date alone.
#[verifier::external_body]
pub fn day_chars(d: i32) -> (v: Vec<char>)
    requires
        valid_day(d as int),
    ensures
        v@ == day_text(d as int),
{
    let date = time::Date::from_julian_day(d).unwrap();
    date.to_string().chars().collect()
}

} // verus!
