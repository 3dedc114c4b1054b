//! What a simulation is given: the pool's terms and the outputs asked for.

use vstd::prelude::*;
use crate::calendar::horizon_fits;
use crate::calendar::total_days;
use crate::calendar::total_days_of;
use crate::number::Number;

verus! {

/// The terms of a staked position.
#[derive(Clone, Copy, Debug)]
pub struct StakedCardanoPool<T> {
    /// ADA staked on day 0.
    pub ada: T,
    /// Reserved for live pricing; it has no effect on any computation.
    pub fetch_price_via_api: bool,
    /// Price of one ADA on day 0.
    pub initial_price: T,
    /// Factor by which the price changes every day.
    pub price_yield: T,
    /// Yearly reward as a fraction of the balance held.
    pub annual_yield: T,
    /// Days between two payouts.
    pub epoch_in_days: u64,
    /// Length of the holding period in years.
    pub years_holding: u64,
}

/// The outputs a caller wants besides the final figures.
#[derive(Clone, Copy, Debug, PartialEq, Eq, Structural)]
pub struct CommandOptions {
    /// Report every simulated day.
    pub verbose: bool,
    /// Export the daily figures as CSV.
    pub generate_csv: bool,
    /// Export the daily figures as a chart.
    pub generate_graph: bool,
}

/// Why a pool's terms cannot be simulated.
#[derive(Clone, Copy, Debug, PartialEq, Eq, Structural)]
pub enum ConfigFault {
    /// `epoch_in_days` is 0: there is no payout schedule.
    ZeroEpoch,
    /// The holding period spans more than `MAX_DAYS` days.
    HorizonTooLong,
}

/// What can go wrong in this library.
#[derive(Clone, Copy, Debug, PartialEq, Eq, Structural)]
pub enum StakingError {
    /// The pool's terms were rejected before any day was simulated.
    InvalidConfiguration(ConfigFault),
    /// The position was worth nothing on day 0, so growth relative to it
    /// is undefined.
    DegenerateYield,
}

impl<T: Number> StakedCardanoPool<T> {
    /// What is wrong with these terms, if anything. A zero epoch is
    /// reported before an overlong holding period.
    pub open spec fn fault(self) -> Option<ConfigFault> {
        if self.epoch_in_days == 0 {
            Some(ConfigFault::ZeroEpoch)
        } else if !horizon_fits(self.years_holding as nat) {
            Some(ConfigFault::HorizonTooLong)
        } else {
            None
        }
    }

    /// Whether these terms can be simulated.
    pub open spec fn is_valid(self) -> bool {
        self.fault() is None
    }

    /// Checks the terms and returns the number of days to simulate.
    pub fn validate(&self) -> (checked: Result<u64, StakingError>)
        ensures
            match checked {
                Ok(days) => self.is_valid() && days == total_days_of(self.years_holding as nat),
                Err(e) => self.fault() matches Some(fault) && e
                    == StakingError::InvalidConfiguration(fault),
            },
    {
        if self.epoch_in_days == 0 {
            return Err(StakingError::InvalidConfiguration(ConfigFault::ZeroEpoch));
        }
        match total_days(self.years_holding) {
            Some(days) => Ok(days),
            None => Err(StakingError::InvalidConfiguration(ConfigFault::HorizonTooLong)),
        }
    }
}

impl CommandOptions {
    /// Whether the daily figures are needed after the simulation: they are
    /// what the day reports, the CSV export and the chart are made from.
    pub open spec fn wants_history(self) -> bool {
        self.verbose || self.generate_csv || self.generate_graph
    }

    /// The three switches, in the order verbose, CSV, chart.
    pub fn new(v: bool, g: bool, gg: bool) -> (options: Self)
        ensures
            options == (CommandOptions { verbose: v, generate_csv: g, generate_graph: gg }),
    {
        CommandOptions { verbose: v, generate_csv: g, generate_graph: gg }
    }

    /// Whether the simulation has to keep the daily figures.
    pub fn tracks_history(&self) -> (kept: bool)
        ensures
            kept == self.wants_history(),
    {
        self.verbose || self.generate_csv || self.generate_graph
    }
}

} // verus!
