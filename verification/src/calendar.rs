//! Days: how many a holding period spans, and on which of them rewards
//! are paid.

use vstd::prelude::*;

verus! {

/// The longest simulation that is accepted, in days.
pub const MAX_DAYS: u64 = 10_000_000;

/// A year is 365.25 days, that is this many quarter days.
pub const QUARTER_DAYS_PER_YEAR: u64 = 1461;

/// `years * 365.25` rounded to the nearest whole day, a half day rounding up.
pub open spec fn rounded_days(years: nat) -> nat {
    ((QUARTER_DAYS_PER_YEAR * years + 2) / 4) as nat
}

/// The number of simulated days: day 0 and every day of the holding period.
pub open spec fn total_days_of(years: nat) -> nat {
    rounded_days(years) + 1
}

/// Whether a holding period of `years` stays within [`MAX_DAYS`].
pub open spec fn horizon_fits(years: nat) -> bool {
    total_days_of(years) <= MAX_DAYS
}

/// Whether rewards are paid on `day`, with payouts every `epoch` days.
/// Nothing is paid on day 0, and nothing at all when `epoch` is 0.
pub open spec fn is_pay_day(day: nat, epoch: nat) -> bool {
    day > 0 && epoch > 0 && day % epoch == 0
}

/// The rounding is to the nearest day: the result differs from
/// `years * 365.25` by at most half a day, and by exactly half a day only
/// upwards. Stated in quarter days, so that no fraction appears.
pub proof fn lemma_rounded_days_is_nearest(years: nat)
    ensures
        -2 < 4 * rounded_days(years) - QUARTER_DAYS_PER_YEAR * years <= 2,
{
}

/// The number of simulated days for `years_holding` years, or `None` when
/// it would exceed [`MAX_DAYS`].
pub fn total_days(years_holding: u64) -> (days: Option<u64>)
    ensures
        horizon_fits(years_holding as nat) ==> days == Some(total_days_of(years_holding as nat) as u64),
        !horizon_fits(years_holding as nat) ==> days is None,
{
    if years_holding > MAX_DAYS {
        return None;
    }
    let days: u64 = (QUARTER_DAYS_PER_YEAR * years_holding + 2) / 4 + 1;
    if days <= MAX_DAYS {
        Some(days)
    } else {
        None
    }
}

/// Whether rewards are paid on `day`.
pub fn pay_day(day: u64, epoch_in_days: u64) -> (paid: bool)
    ensures
        paid == is_pay_day(day as nat, epoch_in_days as nat),
{
    day > 0 && epoch_in_days > 0 && day % epoch_in_days == 0
}

} // verus!
