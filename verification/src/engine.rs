//! The day-by-day simulation.
//!
//! Day 0 is the opening state. On every later day the balance first
//! receives a payout, if the day closes an epoch, and then the price
//! drifts; the two effects are independent of each other.

use vstd::prelude::*;
use crate::calendar::is_pay_day;
use crate::calendar::pay_day;
use crate::calendar::total_days_of;
use crate::calendar::QUARTER_DAYS_PER_YEAR;
use crate::number::count_yields;
use crate::number::over_yields;
use crate::number::plus_yields;
use crate::number::times_yields;
use crate::number::Number;
use crate::pool::CommandOptions;
use crate::pool::StakedCardanoPool;
use crate::pool::StakingError;
use crate::result::StakedCardanoPoolResult;

verus! {

/// The position at the end of a day.
#[derive(Clone, Copy, Debug)]
pub struct SimulationState<T> {
    /// ADA held.
    pub ada: T,
    /// Price of one ADA.
    pub price: T,
    /// Rewards that the balance earns in a year at the current rate.
    pub ada_per_year: T,
}

/// `year` is the length of a year in days, 365.25, formed as 1461 quarter
/// days over 4.
pub open spec fn year_length_yields<T: Number>(year: T) -> bool {
    exists|quarters: T, four: T|
        #![trigger count_yields(QUARTER_DAYS_PER_YEAR, quarters), count_yields(4, four)]
        count_yields(QUARTER_DAYS_PER_YEAR, quarters) && count_yields(4, four) && over_yields(
            quarters,
            four,
            year,
        )
}

/// `per_year` is the number of epochs in a year: the length of a year over
/// the length of an epoch.
pub open spec fn epochs_per_year_yields<T: Number>(epoch_in_days: u64, per_year: T) -> bool {
    exists|year: T, epoch: T|
        #![trigger over_yields(year, epoch, per_year)]
        year_length_yields(year) && count_yields(epoch_in_days, epoch) && over_yields(
            year,
            epoch,
            per_year,
        )
}

/// `state` is the position that `pool` opens with on day 0.
pub open spec fn opens<T: Number>(pool: StakedCardanoPool<T>, state: SimulationState<T>) -> bool {
    &&& state.ada == pool.ada
    &&& state.price == pool.initial_price
    &&& times_yields(pool.ada, pool.annual_yield, state.ada_per_year)
}

/// A payout takes `before` to `after`: one epoch's share of the yearly
/// rewards is added to the balance, and the yearly rewards are set anew from
/// the balance that results.
pub open spec fn pays_out<T: Number>(
    pool: StakedCardanoPool<T>,
    per_year: T,
    before: SimulationState<T>,
    after: SimulationState<T>,
) -> bool {
    &&& exists|share: T|
        #![trigger over_yields(before.ada_per_year, per_year, share)]
        over_yields(before.ada_per_year, per_year, share) && plus_yields(
            before.ada,
            share,
            after.ada,
        )
    &&& times_yields(after.ada, pool.annual_yield, after.ada_per_year)
}

/// Day `day` takes `before` to `after`: a payout if the day closes an
/// epoch, else balance and rewards unchanged; and one step of price drift
/// either way.
pub open spec fn day_passes<T: Number>(
    pool: StakedCardanoPool<T>,
    per_year: T,
    day: nat,
    before: SimulationState<T>,
    after: SimulationState<T>,
) -> bool {
    &&& if is_pay_day(day, pool.epoch_in_days as nat) {
        pays_out(pool, per_year, before, after)
    } else {
        after.ada == before.ada && after.ada_per_year == before.ada_per_year
    }
    &&& times_yields(before.price, pool.price_yield, after.price)
}

/// `states[d]` is the position at the end of day `d`, from the opening
/// state of `pool` on.
pub open spec fn is_trajectory<T: Number>(
    pool: StakedCardanoPool<T>,
    per_year: T,
    states: Seq<SimulationState<T>>,
) -> bool {
    &&& states.len() > 0
    &&& opens(pool, states[0])
    &&& forall|d: int|
        0 <= d < states.len() - 1 ==> day_passes(
            pool,
            per_year,
            (d + 1) as nat,
            #[trigger] states[d],
            states[d + 1],
        )
}

/// The balances that are kept as history: the opening balance, then for
/// every later day the balance it started with.
pub open spec fn amount_history<T>(states: Seq<SimulationState<T>>) -> Seq<T> {
    Seq::new(states.len(), |d: int| if d == 0 { states[0].ada } else { states[d - 1].ada })
}

/// The prices that are kept as history, laid out as the balances.
pub open spec fn price_history<T>(states: Seq<SimulationState<T>>) -> Seq<T> {
    Seq::new(states.len(), |d: int| if d == 0 { states[0].price } else { states[d - 1].price })
}

/// `result` is what simulating `pool` gives when the days pass as `states`
/// says, with `per_year` epochs in a year.
pub open spec fn is_run_along<T: Number>(
    pool: StakedCardanoPool<T>,
    keep_history: bool,
    result: StakedCardanoPoolResult<T>,
    per_year: T,
    states: Seq<SimulationState<T>>,
) -> bool {
    &&& epochs_per_year_yields(pool.epoch_in_days, per_year)
    &&& is_trajectory(pool, per_year, states)
    &&& states.len() == total_days_of(pool.years_holding as nat)
    &&& result.days == states.len()
    &&& result.final_ada_amount == states.last().ada
    &&& result.final_ada_price == states.last().price
    &&& if keep_history {
        &&& result.amount_historical@ == amount_history(states)
        &&& result.price_historical@ == price_history(states)
    } else {
        &&& result.amount_historical@.len() == 0
        &&& result.price_historical@.len() == 0
    }
}

/// `result` is what simulating `pool` gives.
pub open spec fn is_run<T: Number>(
    pool: StakedCardanoPool<T>,
    keep_history: bool,
    result: StakedCardanoPoolResult<T>,
) -> bool {
    exists|per_year: T, states: Seq<SimulationState<T>>|
        is_run_along(pool, keep_history, result, per_year, states)
}

/// The number of epochs in a year, 365.25 over `epoch_in_days`.
pub fn epochs_per_year<T: Number>(epoch_in_days: u64) -> (per_year: T)
    ensures
        epochs_per_year_yields(epoch_in_days, per_year),
{
    let quarters = T::from_count(QUARTER_DAYS_PER_YEAR);
    let four = T::from_count(4);
    let year = quarters.over(four);
    assert(year_length_yields(year)) by {
        assert(count_yields(QUARTER_DAYS_PER_YEAR, quarters) && count_yields(4, four));
    }
    let epoch = T::from_count(epoch_in_days);
    let per_year = year.over(epoch);
    assert(over_yields(year, epoch, per_year));
    per_year
}

impl<T: Number> SimulationState<T> {
    /// The position on day 0.
    pub fn open(pool: &StakedCardanoPool<T>) -> (state: Self)
        ensures
            opens(*pool, state),
    {
        SimulationState {
            ada: pool.ada,
            price: pool.initial_price,
            ada_per_year: pool.ada.times(pool.annual_yield),
        }
    }

    /// Lets day `day` pass and says whether it was a pay day.
    pub fn advance(&mut self, pool: &StakedCardanoPool<T>, per_year: T, day: u64) -> (paid: bool)
        ensures
            paid == is_pay_day(day as nat, pool.epoch_in_days as nat),
            day_passes(*pool, per_year, day as nat, *old(self), *final(self)),
    {
        let paid = pay_day(day, pool.epoch_in_days);
        if paid {
            let share = self.ada_per_year.over(per_year);
            assert(over_yields(old(self).ada_per_year, per_year, share));
            self.ada = self.ada.plus(share);
            self.ada_per_year = self.ada.times(pool.annual_yield);
        }
        self.price = self.price.times(pool.price_yield);
        paid
    }
}

/// Simulates `pool` from day 0 to the last day of the holding period.
///
/// Terms that cannot be simulated are rejected before the first day. The
/// daily figures are kept exactly when `args` asks for an output that is
/// made from them.
pub fn calculate_staked_pool<T: Number>(pool: &StakedCardanoPool<T>, args: &CommandOptions) -> (outcome:
    Result<StakedCardanoPoolResult<T>, StakingError>)
    ensures
        match outcome {
            Ok(result) => pool.is_valid() && is_run(*pool, args.wants_history(), result),
            Err(e) => pool.fault() matches Some(fault) && e == StakingError::InvalidConfiguration(
                fault,
            ),
        },
{
    let days: u64 = match pool.validate() {
        Ok(days) => days,
        Err(e) => {
            return Err(e);
        },
    };
    let keep_history = args.tracks_history();
    let per_year: T = epochs_per_year(pool.epoch_in_days);
    let mut state = SimulationState::open(pool);
    let mut adas: Vec<T> = Vec::new();
    let mut prices: Vec<T> = Vec::new();
    if keep_history {
        adas.push(state.ada);
        prices.push(state.price);
    }
    let ghost mut states: Seq<SimulationState<T>> = seq![state];
    let mut day: u64 = 1;
    while day < days
        invariant
            1 <= day <= days,
            is_trajectory(*pool, per_year, states),
            states.len() == day,
            states.last() == state,
            keep_history ==> adas@ == amount_history(states) && prices@ == price_history(states),
            !keep_history ==> adas@.len() == 0 && prices@.len() == 0,
        decreases days - day,
    {
        if keep_history {
            adas.push(state.ada);
            prices.push(state.price);
        }
        let ghost before = state;
        state.advance(pool, per_year, day);
        proof {
            let longer = states.push(state);
            assert forall|d: int| 0 <= d < longer.len() - 1 implies day_passes(
                *pool,
                per_year,
                (d + 1) as nat,
                #[trigger] longer[d],
                longer[d + 1],
            ) by {
                if d < states.len() - 1 {
                    assert(longer[d] == states[d] && longer[d + 1] == states[d + 1]);
                } else {
                    assert(longer[d] == before && longer[d + 1] == state);
                }
            }
            if keep_history {
                assert(adas@ =~= amount_history(longer));
                assert(prices@ =~= price_history(longer));
            }
            states = longer;
        }
        day += 1;
    }
    let result = StakedCardanoPoolResult::new(state.ada, state.price, adas, prices, days);
    assert(is_run_along(*pool, keep_history, result, per_year, states));
    Ok(result)
}

} // verus!
