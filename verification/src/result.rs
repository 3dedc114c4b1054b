//! What a simulation produces, and the figures derived from it.

use vstd::prelude::*;
use crate::number::count_yields;
use crate::number::over_yields;
use crate::number::times_yields;
use crate::number::zero_test_yields;
use crate::number::Number;
use crate::pool::StakedCardanoPool;
use crate::pool::StakingError;

verus! {

/// The position after the last simulated day, with the daily figures when
/// they were asked for.
#[derive(Clone, Debug)]
pub struct StakedCardanoPoolResult<T> {
    /// ADA held after the last day.
    pub final_ada_amount: T,
    /// Price of one ADA after the last day.
    pub final_ada_price: T,
    /// ADA held day by day: entry 0 is the opening balance, entry `d` the
    /// balance at the start of day `d`. Empty when history was not kept.
    pub amount_historical: Vec<T>,
    /// Price day by day, laid out as `amount_historical`.
    pub price_historical: Vec<T>,
    /// Number of simulated days, day 0 included.
    pub days: u64,
}

/// `pct` is `total` as a percentage of `initial`: 100 means no growth.
pub open spec fn percentage_yields<T: Number>(total: T, initial: T, pct: T) -> bool {
    exists|ratio: T, hundred: T|
        #![trigger over_yields(total, initial, ratio), count_yields(100, hundred)]
        over_yields(total, initial, ratio) && count_yields(100, hundred) && times_yields(
            ratio,
            hundred,
            pct,
        )
}

impl<T: Number> StakedCardanoPoolResult<T> {
    /// `outcome` is the growth of this result relative to the opening value
    /// of `pool`: an error when that value `initial` tests as zero, else
    /// the final value as a percentage of it.
    pub open spec fn yield_is(
        self,
        pool: StakedCardanoPool<T>,
        initial: T,
        worthless: bool,
        outcome: Result<T, StakingError>,
    ) -> bool {
        &&& times_yields(pool.initial_price, pool.ada, initial)
        &&& zero_test_yields(initial, worthless)
        &&& if worthless {
            outcome == Err::<T, StakingError>(StakingError::DegenerateYield)
        } else {
            outcome matches Ok(pct) && exists|total: T|
                #![trigger times_yields(self.final_ada_amount, self.final_ada_price, total)]
                times_yields(self.final_ada_amount, self.final_ada_price, total)
                    && percentage_yields(total, initial, pct)
        }
    }

    /// The number of days for which the history holds both a balance and
    /// a price.
    pub open spec fn history_days(self) -> nat {
        if self.amount_historical@.len() <= self.price_historical@.len() {
            self.amount_historical@.len()
        } else {
            self.price_historical@.len()
        }
    }

    /// The balance at the end of day `day`, read from the history: the
    /// balance that the next day started with, or the final balance where
    /// the history ends.
    pub open spec fn ada_after(self, day: int) -> T {
        if day + 1 < self.amount_historical@.len() {
            self.amount_historical@[day + 1]
        } else {
            self.final_ada_amount
        }
    }

    /// The price at the end of day `day`, read as `ada_after` reads the
    /// balance.
    pub open spec fn price_after(self, day: int) -> T {
        if day + 1 < self.price_historical@.len() {
            self.price_historical@[day + 1]
        } else {
            self.final_ada_price
        }
    }

    /// Puts the five parts of a result together.
    pub fn new(
        final_ada_amount: T,
        final_ada_price: T,
        amount_historical: Vec<T>,
        price_historical: Vec<T>,
        days: u64,
    ) -> (result: Self)
        ensures
            result.final_ada_amount == final_ada_amount,
            result.final_ada_price == final_ada_price,
            result.amount_historical == amount_historical,
            result.price_historical == price_historical,
            result.days == days,
    {
        StakedCardanoPoolResult {
            final_ada_amount,
            final_ada_price,
            amount_historical,
            price_historical,
            days,
        }
    }

    /// The number of days for which the history holds both a balance and
    /// a price.
    pub fn history_len(&self) -> (days: usize)
        ensures
            days == self.history_days(),
    {
        if self.amount_historical.len() <= self.price_historical.len() {
            self.amount_historical.len()
        } else {
            self.price_historical.len()
        }
    }

    /// The value of the final position: amount times price.
    pub fn total(&self) -> (value: T)
        ensures
            times_yields(self.final_ada_amount, self.final_ada_price, value),
    {
        self.final_ada_amount.times(self.final_ada_price)
    }

    /// The final value as a percentage of the opening value of `pool_info`,
    /// so that 100 means no growth. Fails with `DegenerateYield` exactly
    /// when the opening value, price times amount, tests as zero.
    pub fn yield_as_percentage(&self, pool_info: &StakedCardanoPool<T>) -> (outcome: Result<
        T,
        StakingError,
    >)
        ensures
            exists|initial: T, worthless: bool|
                #![trigger self.yield_is(*pool_info, initial, worthless, outcome)]
                self.yield_is(*pool_info, initial, worthless, outcome),
    {
        let initial = pool_info.initial_price.times(pool_info.ada);
        let worthless = initial.is_zero();
        let outcome = if worthless {
            Err(StakingError::DegenerateYield)
        } else {
            let total = self.total();
            let ratio = total.over(initial);
            let hundred = T::from_count(100);
            let pct = ratio.times(hundred);
            assert(percentage_yields(total, initial, pct)) by {
                assert(over_yields(total, initial, ratio) && count_yields(100, hundred));
            }
            Ok(pct)
        };
        assert(self.yield_is(*pool_info, initial, worthless, outcome));
        outcome
    }
}

} // verus!
