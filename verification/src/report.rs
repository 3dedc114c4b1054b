//! The figures of a run day by day, as a progress report shows them.

use vstd::prelude::*;
use crate::calendar::is_pay_day;
use crate::calendar::pay_day;
use crate::calendar::total_days_of;
use crate::engine::is_run;
use crate::laws::lemma_run_spans_total_days;
use crate::number::times_yields;
use crate::number::Number;
use crate::pool::StakedCardanoPool;
use crate::result::StakedCardanoPoolResult;

verus! {

/// The position at the end of one day.
#[derive(Clone, Copy, Debug)]
pub struct DayReport<T> {
    /// The day, counted from day 0.
    pub day: u64,
    /// ADA held at the end of the day.
    pub ada: T,
    /// Price of one ADA at the end of the day.
    pub price: T,
    /// Value of the position: amount times price.
    pub total: T,
    /// Whether rewards were paid on this day.
    pub pay_day: bool,
}

/// `report` is the report of `day`: the figures that the day ended with,
/// and whether it was a pay day of `pool`.
pub open spec fn is_report_of<T: Number>(
    pool: StakedCardanoPool<T>,
    result: StakedCardanoPoolResult<T>,
    day: int,
    report: DayReport<T>,
) -> bool {
    &&& report.day == day
    &&& report.ada == result.ada_after(day)
    &&& report.price == result.price_after(day)
    &&& times_yields(report.ada, report.price, report.total)
    &&& report.pay_day == is_pay_day(day as nat, pool.epoch_in_days as nat)
}

/// `reports` are the reports of `result`: one for every day of its
/// history, from day 0 on.
pub open spec fn are_reports_of<T: Number>(
    pool: StakedCardanoPool<T>,
    result: StakedCardanoPoolResult<T>,
    reports: Seq<DayReport<T>>,
) -> bool {
    &&& reports.len() == result.history_days()
    &&& forall|day: int|
        0 <= day < reports.len() ==> is_report_of(pool, result, day, #[trigger] reports[day])
}

/// The reports of `result`, for a caller that shows progress day by day.
/// A result without history has none.
pub fn day_reports<T: Number>(
    pool: &StakedCardanoPool<T>,
    result: &StakedCardanoPoolResult<T>,
) -> (reports: Vec<DayReport<T>>)
    ensures
        are_reports_of(*pool, *result, reports@),
{
    let mut reports: Vec<DayReport<T>> = Vec::new();
    let days: usize = result.history_len();
    let mut day: usize = 0;
    while day < days
        invariant
            days == result.history_days(),
            day <= days,
            reports@.len() == day,
            forall|d: int|
                0 <= d < reports@.len() ==> is_report_of(*pool, *result, d, #[trigger] reports@[d]),
        decreases days - day,
    {
        let ada = if day + 1 < result.amount_historical.len() {
            result.amount_historical[day + 1]
        } else {
            result.final_ada_amount
        };
        let price = if day + 1 < result.price_historical.len() {
            result.price_historical[day + 1]
        } else {
            result.final_ada_price
        };
        reports.push(
            DayReport {
                day: day as u64,
                ada,
                price,
                total: ada.times(price),
                pay_day: pay_day(day as u64, pool.epoch_in_days),
            },
        );
        day += 1;
    }
    reports
}

/// The reports of a run with history cover every simulated day, and the
/// last of them shows the final figures.
pub proof fn lemma_reports_cover_run<T: Number>(
    pool: StakedCardanoPool<T>,
    result: StakedCardanoPoolResult<T>,
    reports: Seq<DayReport<T>>,
)
    requires
        is_run(pool, true, result),
        are_reports_of(pool, result, reports),
    ensures
        reports.len() == total_days_of(pool.years_holding as nat),
        reports.last().ada == result.final_ada_amount,
        reports.last().price == result.final_ada_price,
{
    lemma_run_spans_total_days(pool, true, result);
}

} // verus!
