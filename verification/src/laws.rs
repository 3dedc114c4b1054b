//! What holds of every simulation.

use vstd::prelude::*;
use crate::calendar::is_pay_day;
use crate::calendar::total_days_of;
use crate::calendar::QUARTER_DAYS_PER_YEAR;
use crate::engine::amount_history;
use crate::engine::day_passes;
use crate::engine::epochs_per_year_yields;
use crate::engine::is_run;
use crate::engine::is_run_along;
use crate::engine::is_trajectory;
use crate::engine::price_history;
use crate::engine::year_length_yields;
use crate::engine::SimulationState;
use crate::number::count_yields;
use crate::number::counted;
use crate::number::deterministic;
use crate::number::lemma_results_are_named;
use crate::number::over_yields;
use crate::number::plus_yields;
use crate::number::product;
use crate::number::quotient;
use crate::number::sum;
use crate::number::times_yields;
use crate::number::Number;
use crate::pool::StakedCardanoPool;
use crate::result::StakedCardanoPoolResult;

verus! {

/// The price after `days` days of drift: the opening price multiplied by
/// the daily factor `days` times over, one multiplication per day.
pub open spec fn drifted_price<T: Number>(pool: StakedCardanoPool<T>, days: nat) -> T
    decreases days,
{
    if days == 0 {
        pool.initial_price
    } else {
        product(drifted_price(pool, (days - 1) as nat), pool.price_yield)
    }
}

/// The number of epochs in a year for `pool`: 365.25 over the epoch length.
pub open spec fn epochs_in_year<T: Number>(pool: StakedCardanoPool<T>) -> T {
    quotient(
        quotient(counted::<T>(QUARTER_DAYS_PER_YEAR), counted::<T>(4)),
        counted::<T>(pool.epoch_in_days),
    )
}

/// The balance after one payout on `ada`: the balance plus one epoch's
/// share of what it earns in a year.
pub open spec fn paid_out<T: Number>(pool: StakedCardanoPool<T>, ada: T) -> T {
    sum(ada, quotient(product(ada, pool.annual_yield), epochs_in_year(pool)))
}

/// The balance after `payouts` payouts, each on the balance that the one
/// before it left.
pub open spec fn compounded<T: Number>(pool: StakedCardanoPool<T>, payouts: nat) -> T
    decreases payouts,
{
    if payouts == 0 {
        pool.ada
    } else {
        paid_out(pool, compounded(pool, (payouts - 1) as nat))
    }
}

/// The day whose closing state entry `day` of a history holds: history
/// records each day as it starts, so entry `day` is the end of the day
/// before, and entry 0 the opening state.
pub open spec fn day_before(day: int) -> int {
    if day <= 0 {
        0
    } else {
        day - 1
    }
}

/// The number of pay days of `pool` among days 1 to `day`.
pub open spec fn pay_days_through<T: Number>(pool: StakedCardanoPool<T>, day: int) -> nat {
    (day / (pool.epoch_in_days as int)) as nat
}

/// The number of pay days among days 1 to `day` grows by one on a pay day
/// and not otherwise.
pub proof fn lemma_pay_days_counted(day: nat, epoch: nat)
    requires
        day > 0,
        epoch > 0,
    ensures
        is_pay_day(day, epoch) ==> day / epoch == (day - 1) / (epoch as int) + 1,
        !is_pay_day(day, epoch) ==> day / epoch == (day - 1) / (epoch as int),
{
    let d = day as int;
    let e = epoch as int;
    vstd::arithmetic::div_mod::lemma_fundamental_div_mod(d, e);
    vstd::arithmetic::div_mod::lemma_fundamental_div_mod(d - 1, e);
    vstd::arithmetic::div_mod::lemma_mod_bound(d, e);
    vstd::arithmetic::div_mod::lemma_mod_bound(d - 1, e);
    let q = d / e;
    let p = (d - 1) / e;
    assert(e * q + d % e == e * p + (d - 1) % e + 1);
    assert(q == p || q == p + 1) by (nonlinear_arith)
        requires
            e > 0,
            0 <= d % e < e,
            0 <= (d - 1) % e < e,
            e * q + d % e == e * p + (d - 1) % e + 1,
    ;
    if q == p + 1 {
        assert(d % e == 0) by (nonlinear_arith)
            requires
                e > 0,
                q == p + 1,
                0 <= d % e < e,
                0 <= (d - 1) % e < e,
                e * q + d % e == e * p + (d - 1) % e + 1,
        ;
    } else {
        assert(d % e != 0) by (nonlinear_arith)
            requires
                e > 0,
                q == p,
                0 <= d % e < e,
                0 <= (d - 1) % e < e,
                e * q + d % e == e * p + (d - 1) % e + 1,
        ;
    }
}

/// With deterministic arithmetic every day of a trajectory is given by a
/// closed form: the price by the number of days that have passed, the
/// balance by the number of pay days among them.
pub proof fn lemma_trajectory_closed_form<T: Number>(
    pool: StakedCardanoPool<T>,
    per_year: T,
    states: Seq<SimulationState<T>>,
    day: int,
)
    requires
        deterministic::<T>(),
        pool.epoch_in_days > 0,
        epochs_per_year_yields(pool.epoch_in_days, per_year),
        is_trajectory(pool, per_year, states),
        0 <= day < states.len(),
    ensures
        per_year == epochs_in_year(pool),
        states[day].price == drifted_price(pool, day as nat),
        states[day].ada == compounded(pool, pay_days_through(pool, day)),
        states[day].ada_per_year == product(states[day].ada, pool.annual_yield),
    decreases day,
{
    lemma_results_are_named::<T>();
    let (year, epoch) = choose|year: T, epoch: T|
        #![trigger over_yields(year, epoch, per_year)]
        year_length_yields(year) && count_yields(pool.epoch_in_days, epoch)
            && over_yields(year, epoch, per_year);
    assert(year == quotient(counted::<T>(QUARTER_DAYS_PER_YEAR), counted::<T>(4)));
    if day > 0 {
        lemma_trajectory_closed_form(pool, per_year, states, day - 1);
        lemma_pay_days_counted(day as nat, pool.epoch_in_days as nat);
        let before = states[day - 1];
        let after = states[day];
        assert(day_passes(pool, per_year, day as nat, before, after));
    } else {
        assert(0int / (pool.epoch_in_days as int) == 0);
    }
}

/// In a run along `states` with history kept, entry `day` of the history
/// is the state that day `day` started with, and the state it ended with
/// is the next entry, or the final figures on the last day.
pub proof fn lemma_history_is_trajectory<T: Number>(
    pool: StakedCardanoPool<T>,
    result: StakedCardanoPoolResult<T>,
    per_year: T,
    states: Seq<SimulationState<T>>,
    day: int,
)
    requires
        is_run_along(pool, true, result, per_year, states),
        0 <= day < result.days,
    ensures
        result.amount_historical@.len() == result.days,
        result.price_historical@.len() == result.days,
        result.amount_historical@[day] == (if day == 0 {
            states[0].ada
        } else {
            states[day - 1].ada
        }),
        result.price_historical@[day] == (if day == 0 {
            states[0].price
        } else {
            states[day - 1].price
        }),
        result.ada_after(day) == states[day].ada,
        result.price_after(day) == states[day].price,
{
    assert(result.amount_historical@ == amount_history(states));
    assert(result.price_historical@ == price_history(states));
}

/// On a day that is no pay day the balance at the end of the day is the
/// balance at its start.
pub proof fn lemma_balance_changes_only_on_pay_days<T: Number>(
    pool: StakedCardanoPool<T>,
    result: StakedCardanoPoolResult<T>,
    day: int,
)
    requires
        is_run(pool, true, result),
        0 <= day < result.days,
        !is_pay_day(day as nat, pool.epoch_in_days as nat),
    ensures
        result.ada_after(day) == result.amount_historical@[day],
{
    let (per_year, states) = choose|per_year: T, states: Seq<SimulationState<T>>|
        is_run_along(pool, true, result, per_year, states);
    lemma_history_is_trajectory(pool, result, per_year, states, day);
    if day > 0 {
        assert(day_passes(
            pool,
            per_year,
            day as nat,
            states[day - 1],
            states[day],
        ));
    }
}

/// `le` is transitive.
pub open spec fn is_transitive<T>(le: spec_fn(T, T) -> bool) -> bool {
    forall|a: T, b: T, c: T| #![trigger le(a, b), le(b, c)] le(a, b) && le(b, c) ==> le(a, c)
}

/// No payout lowers a balance, in the order `le`: whenever a balance that
/// `le` relates to itself receives a payout, it is at most the balance
/// that results, and that balance is again related to itself.
pub open spec fn never_lowers<T: Number>(
    pool: StakedCardanoPool<T>,
    le: spec_fn(T, T) -> bool,
) -> bool {
    forall|per_year: T, ada: T, rate: T, share: T, raised: T|
        #![trigger times_yields(ada, pool.annual_yield, rate), over_yields(rate, per_year, share), plus_yields(ada, share, raised)]
        le(ada, ada) && epochs_per_year_yields(pool.epoch_in_days, per_year) && times_yields(
            ada,
            pool.annual_yield,
            rate,
        ) && over_yields(rate, per_year, share) && plus_yields(ada, share, raised) ==> le(
            ada,
            raised,
        ) && le(raised, raised)
}

/// Along a trajectory on which no payout lowers a balance, the balance of
/// an earlier day is at most that of a later day.
pub proof fn lemma_trajectory_never_decreases<T: Number>(
    pool: StakedCardanoPool<T>,
    per_year: T,
    states: Seq<SimulationState<T>>,
    le: spec_fn(T, T) -> bool,
    earlier: int,
    later: int,
)
    requires
        epochs_per_year_yields(pool.epoch_in_days, per_year),
        is_trajectory(pool, per_year, states),
        le(pool.ada, pool.ada),
        is_transitive(le),
        never_lowers(pool, le),
        0 <= earlier <= later < states.len(),
    ensures
        le(states[earlier].ada, states[later].ada),
        times_yields(states[later].ada, pool.annual_yield, states[later].ada_per_year),
    decreases later,
{
    if later > 0 {
        let before = states[later - 1];
        let after = states[later];
        lemma_trajectory_never_decreases(pool, per_year, states, le, later - 1, later - 1);
        assert(day_passes(pool, per_year, later as nat, before, after));
        assert(le(before.ada, after.ada) && le(after.ada, after.ada));
        if earlier < later {
            lemma_trajectory_never_decreases(pool, per_year, states, le, earlier, later - 1);
        }
    }
}

/// The balance is non-decreasing day over day, provided that no payout
/// lowers a balance: the history is ordered, and the final balance is at
/// least every entry of it.
pub proof fn lemma_balance_never_decreases<T: Number>(
    pool: StakedCardanoPool<T>,
    result: StakedCardanoPoolResult<T>,
    le: spec_fn(T, T) -> bool,
    earlier: int,
    later: int,
)
    requires
        is_run(pool, true, result),
        le(pool.ada, pool.ada),
        is_transitive(le),
        never_lowers(pool, le),
        0 <= earlier <= later < result.days,
    ensures
        le(result.amount_historical@[earlier], result.amount_historical@[later]),
        le(result.amount_historical@[later], result.final_ada_amount),
{
    let (per_year, states) = choose|per_year: T, states: Seq<SimulationState<T>>|
        is_run_along(pool, true, result, per_year, states);
    lemma_history_is_trajectory(pool, result, per_year, states, earlier);
    lemma_history_is_trajectory(pool, result, per_year, states, later);
    let first = if earlier == 0 {
        0
    } else {
        earlier - 1
    };
    let second = if later == 0 {
        0
    } else {
        later - 1
    };
    lemma_trajectory_never_decreases(pool, per_year, states, le, first, second);
    lemma_trajectory_never_decreases(pool, per_year, states, le, second, result.days - 1);
}

/// The price tracks the drift alone: with deterministic arithmetic the
/// final price is the opening price multiplied by the daily factor once
/// for every day after day 0, and every entry of the price history is the
/// same product for the days before it. Neither depends on the payouts.
pub proof fn lemma_price_tracks_drift<T: Number>(
    pool: StakedCardanoPool<T>,
    keep_history: bool,
    result: StakedCardanoPoolResult<T>,
    day: int,
)
    requires
        deterministic::<T>(),
        pool.is_valid(),
        is_run(pool, keep_history, result),
        0 <= day < result.days,
    ensures
        result.final_ada_price == drifted_price(pool, (result.days - 1) as nat),
        keep_history ==> result.price_historical@[day] == drifted_price(
            pool,
            day_before(day) as nat,
        ),
{
    let (per_year, states) = choose|per_year: T, states: Seq<SimulationState<T>>|
        is_run_along(pool, keep_history, result, per_year, states);
    lemma_trajectory_closed_form(pool, per_year, states, result.days - 1);
    lemma_trajectory_closed_form(pool, per_year, states, day_before(day));
    if keep_history {
        lemma_history_is_trajectory(pool, result, per_year, states, day);
    }
}

/// The balance compounds: with deterministic arithmetic the final balance
/// is the opening balance after one payout for every pay day of the run,
/// and every entry of the balance history is the same for the pay days
/// before it.
pub proof fn lemma_balance_compounds<T: Number>(
    pool: StakedCardanoPool<T>,
    keep_history: bool,
    result: StakedCardanoPoolResult<T>,
    day: int,
)
    requires
        deterministic::<T>(),
        pool.is_valid(),
        is_run(pool, keep_history, result),
        0 <= day < result.days,
    ensures
        result.final_ada_amount == compounded(pool, pay_days_through(pool, result.days - 1)),
        keep_history ==> result.amount_historical@[day] == compounded(
            pool,
            pay_days_through(pool, day_before(day)),
        ),
{
    let (per_year, states) = choose|per_year: T, states: Seq<SimulationState<T>>|
        is_run_along(pool, keep_history, result, per_year, states);
    lemma_trajectory_closed_form(pool, per_year, states, result.days - 1);
    lemma_trajectory_closed_form(pool, per_year, states, day_before(day));
    if keep_history {
        lemma_history_is_trajectory(pool, result, per_year, states, day);
    }
}

/// Simulating the same pool twice gives the same figures, when the
/// arithmetic is deterministic.
pub proof fn lemma_runs_agree<T: Number>(
    pool: StakedCardanoPool<T>,
    keep_history: bool,
    first: StakedCardanoPoolResult<T>,
    second: StakedCardanoPoolResult<T>,
)
    requires
        deterministic::<T>(),
        pool.is_valid(),
        is_run(pool, keep_history, first),
        is_run(pool, keep_history, second),
    ensures
        first.days == second.days,
        first.final_ada_amount == second.final_ada_amount,
        first.final_ada_price == second.final_ada_price,
        first.amount_historical@ == second.amount_historical@,
        first.price_historical@ == second.price_historical@,
{
    lemma_run_spans_total_days(pool, keep_history, first);
    lemma_run_spans_total_days(pool, keep_history, second);
    lemma_price_tracks_drift(pool, keep_history, first, 0);
    lemma_price_tracks_drift(pool, keep_history, second, 0);
    lemma_balance_compounds(pool, keep_history, first, 0);
    lemma_balance_compounds(pool, keep_history, second, 0);
    if keep_history {
        assert forall|day: int| 0 <= day < first.days implies first.amount_historical@[day]
            == second.amount_historical@[day] && first.price_historical@[day]
            == second.price_historical@[day] by {
            lemma_price_tracks_drift(pool, keep_history, first, day);
            lemma_price_tracks_drift(pool, keep_history, second, day);
            lemma_balance_compounds(pool, keep_history, first, day);
            lemma_balance_compounds(pool, keep_history, second, day);
        }
    }
    assert(first.amount_historical@ =~= second.amount_historical@);
    assert(first.price_historical@ =~= second.price_historical@);
}

/// A run spans the days of the holding period, and its history, where it
/// is kept, has one entry for each of them.
pub proof fn lemma_run_spans_total_days<T: Number>(
    pool: StakedCardanoPool<T>,
    keep_history: bool,
    result: StakedCardanoPoolResult<T>,
)
    requires
        is_run(pool, keep_history, result),
    ensures
        result.days == total_days_of(pool.years_holding as nat),
        result.days >= 1,
        result.amount_historical@.len() == (if keep_history {
            result.days as nat
        } else {
            0
        }),
        result.price_historical@.len() == result.amount_historical@.len(),
{
    let (per_year, states) = choose|per_year: T, states: Seq<SimulationState<T>>|
        is_run_along(pool, keep_history, result, per_year, states);
    if keep_history {
        lemma_history_is_trajectory(pool, result, per_year, states, 0);
    }
}

/// A holding period of zero years spans day 0 alone: nothing is paid, the
/// price does not drift, and the result is the opening position.
pub proof fn lemma_zero_years_is_opening<T: Number>(
    pool: StakedCardanoPool<T>,
    keep_history: bool,
    result: StakedCardanoPoolResult<T>,
)
    requires
        pool.years_holding == 0,
        is_run(pool, keep_history, result),
    ensures
        result.days == 1,
        result.final_ada_amount == pool.ada,
        result.final_ada_price == pool.initial_price,
        keep_history ==> result.amount_historical@ == seq![pool.ada],
        keep_history ==> result.price_historical@ == seq![pool.initial_price],
{
    let (per_year, states) = choose|per_year: T, states: Seq<SimulationState<T>>|
        is_run_along(pool, keep_history, result, per_year, states);
    if keep_history {
        lemma_history_is_trajectory(pool, result, per_year, states, 0);
        assert(result.amount_historical@ =~= seq![pool.ada]);
        assert(result.price_historical@ =~= seq![pool.initial_price]);
    }
}

} // verus!
