use ada_staking::engine::{calculate_staked_pool, epochs_per_year, SimulationState};
use ada_staking::number::Number;
use ada_staking::pool::{CommandOptions, ConfigFault, StakedCardanoPool, StakingError};
use ada_staking::result::StakedCardanoPoolResult;

/// Double precision arithmetic.
#[derive(Clone, Copy, Debug, PartialEq)]
struct Real(f64);

impl Number for Real {
    fn from_count(n: u64) -> Self {
        Real(n as f64)
    }

    fn plus(self, rhs: Self) -> Self {
        Real(self.0 + rhs.0)
    }

    fn times(self, rhs: Self) -> Self {
        Real(self.0 * rhs.0)
    }

    fn over(self, rhs: Self) -> Self {
        Real(self.0 / rhs.0)
    }

    fn is_zero(self) -> bool {
        self.0 == 0.0
    }

    fn to_text(self) -> String {
        format!("{}", self.0)
    }
}

fn pool(
    ada: f64,
    initial_price: f64,
    price_yield: f64,
    annual_yield: f64,
    epoch_in_days: u64,
    years_holding: u64,
) -> StakedCardanoPool<Real> {
    StakedCardanoPool {
        ada: Real(ada),
        fetch_price_via_api: false,
        initial_price: Real(initial_price),
        price_yield: Real(price_yield),
        annual_yield: Real(annual_yield),
        epoch_in_days,
        years_holding,
    }
}

fn quiet() -> CommandOptions {
    CommandOptions::new(false, false, false)
}

fn with_history() -> CommandOptions {
    CommandOptions::new(false, false, true)
}

/// The simulation written out with plain doubles: balance and price after
/// the last of `days` days.
fn by_hand(
    ada: f64,
    initial_price: f64,
    price_yield: f64,
    annual_yield: f64,
    epoch: u64,
    days: u64,
) -> (f64, f64) {
    let mut balance = ada;
    let mut price = initial_price;
    let epochs_per_year = 365.25 / (epoch as f64);
    let mut per_year = balance * annual_yield;
    for day in 1..days {
        if day % epoch == 0 {
            balance += per_year / epochs_per_year;
            per_year = balance * annual_yield;
        }
        price *= price_yield;
    }
    (balance, price)
}

#[test]
fn a_year_of_five_day_epochs_at_a_flat_price() {
    let terms = pool(1000.0, 1.0, 1.0, 0.05, 5, 1);
    let result = calculate_staked_pool(&terms, &with_history()).unwrap();
    assert_eq!(result.days, 366);
    assert_eq!(result.amount_historical.len(), 366);
    assert_eq!(result.price_historical.len(), 366);

    // The first payout falls on day 5; day 6 starts with it.
    let after_first = 1000.0 + (1000.0 * 0.05) / (365.25 / 5.0);
    assert_eq!(result.amount_historical[6], Real(after_first));
    assert!((result.amount_historical[6].0 - 1000.6845).abs() < 1e-4);
    for day in 0..=5 {
        assert_eq!(result.amount_historical[day], Real(1000.0));
    }

    // The price never moves.
    assert_eq!(result.final_ada_price, Real(1.0));
    for price in &result.price_historical {
        assert_eq!(*price, Real(1.0));
    }

    // So the yield is the growth of the balance alone.
    let percentage = result.yield_as_percentage(&terms).unwrap();
    assert_eq!(percentage, Real(result.final_ada_amount.0 / 1000.0 * 100.0));
    assert!(percentage.0 > 105.0 && percentage.0 < 105.2);
}

#[test]
fn final_figures_match_the_simulation_by_hand() {
    let terms = pool(1000.0, 1.0, 1.0, 0.05, 5, 1);
    let result = calculate_staked_pool(&terms, &quiet()).unwrap();
    let (balance, price) = by_hand(1000.0, 1.0, 1.0, 0.05, 5, 366);
    assert_eq!(result.final_ada_amount.0.to_bits(), balance.to_bits());
    assert_eq!(result.final_ada_price.0.to_bits(), price.to_bits());

    let terms = pool(2500.5, 0.45, 1.001, 0.046, 5, 3);
    let result = calculate_staked_pool(&terms, &quiet()).unwrap();
    assert_eq!(result.days, 1097);
    let (balance, price) = by_hand(2500.5, 0.45, 1.001, 0.046, 5, 1097);
    assert_eq!(result.final_ada_amount.0.to_bits(), balance.to_bits());
    assert_eq!(result.final_ada_price.0.to_bits(), price.to_bits());
}

#[test]
fn seventy_three_payouts_in_a_year_of_five_day_epochs() {
    let terms = pool(1000.0, 1.0, 1.0, 0.05, 5, 1);
    let result = calculate_staked_pool(&terms, &quiet()).unwrap();
    let per_year = 365.25 / 5.0;
    let mut balance = 1000.0_f64;
    for _ in 0..73 {
        balance += (balance * 0.05) / per_year;
    }
    assert_eq!(result.final_ada_amount, Real(balance));
}

#[test]
fn zero_principal_has_no_yield_to_report() {
    let terms = pool(0.0, 1.0, 1.01, 0.05, 5, 1);
    let result = calculate_staked_pool(&terms, &with_history()).unwrap();
    assert_eq!(result.final_ada_amount, Real(0.0));
    for amount in &result.amount_historical {
        assert_eq!(*amount, Real(0.0));
    }
    assert_eq!(result.total(), Real(0.0));
    assert_eq!(result.yield_as_percentage(&terms), Err(StakingError::DegenerateYield));
}

#[test]
fn zero_initial_price_has_no_yield_to_report() {
    let terms = pool(1000.0, 0.0, 1.01, 0.05, 5, 1);
    let result = calculate_staked_pool(&terms, &quiet()).unwrap();
    assert_eq!(result.final_ada_price, Real(0.0));
    assert_eq!(result.yield_as_percentage(&terms), Err(StakingError::DegenerateYield));
}

#[test]
fn zero_years_give_the_opening_position() {
    let terms = pool(1234.5, 0.75, 1.01, 0.05, 5, 0);
    let result = calculate_staked_pool(&terms, &with_history()).unwrap();
    assert_eq!(result.days, 1);
    assert_eq!(result.final_ada_amount, Real(1234.5));
    assert_eq!(result.final_ada_price, Real(0.75));
    assert_eq!(result.amount_historical, vec![Real(1234.5)]);
    assert_eq!(result.price_historical, vec![Real(0.75)]);
    assert_eq!(result.yield_as_percentage(&terms), Ok(Real(100.0)));
}

#[test]
fn a_zero_epoch_is_rejected() {
    let terms = pool(1000.0, 1.0, 1.0, 0.05, 0, 1);
    assert_eq!(
        terms.validate(),
        Err(StakingError::InvalidConfiguration(ConfigFault::ZeroEpoch))
    );
    let outcome = calculate_staked_pool(&terms, &quiet());
    assert!(matches!(
        outcome,
        Err(StakingError::InvalidConfiguration(ConfigFault::ZeroEpoch))
    ));
}

#[test]
fn an_overlong_holding_period_is_rejected() {
    let terms = pool(1000.0, 1.0, 1.0, 0.05, 5, 27_379);
    assert_eq!(
        terms.validate(),
        Err(StakingError::InvalidConfiguration(ConfigFault::HorizonTooLong))
    );
    let outcome = calculate_staked_pool(&terms, &with_history());
    assert!(matches!(
        outcome,
        Err(StakingError::InvalidConfiguration(ConfigFault::HorizonTooLong))
    ));
    let terms = pool(1000.0, 1.0, 1.0, 0.05, 5, u64::MAX);
    assert!(matches!(
        calculate_staked_pool(&terms, &quiet()),
        Err(StakingError::InvalidConfiguration(ConfigFault::HorizonTooLong))
    ));
}

#[test]
fn a_zero_epoch_is_reported_before_an_overlong_holding_period() {
    let terms = pool(1000.0, 1.0, 1.0, 0.05, 0, u64::MAX);
    assert_eq!(
        terms.validate(),
        Err(StakingError::InvalidConfiguration(ConfigFault::ZeroEpoch))
    );
}

#[test]
fn valid_terms_give_their_number_of_days() {
    assert_eq!(pool(1.0, 1.0, 1.0, 0.0, 1, 0).validate(), Ok(1));
    assert_eq!(pool(1.0, 1.0, 1.0, 0.0, 5, 1).validate(), Ok(366));
    assert_eq!(pool(1.0, 1.0, 1.0, 0.0, 5, 2).validate(), Ok(732));
    assert_eq!(pool(1.0, 1.0, 1.0, 0.0, u64::MAX, 27_378).validate(), Ok(9_999_816));
}

#[test]
fn total_days_follow_the_years_held() {
    for years in 0u64..12 {
        let terms = pool(10.0, 2.0, 1.0, 0.05, 5, years);
        let result = calculate_staked_pool(&terms, &quiet()).unwrap();
        assert_eq!(result.days, ((years as f64) * 365.25).round() as u64 + 1);
    }
}

#[test]
fn history_is_empty_unless_asked_for() {
    let terms = pool(1000.0, 1.0, 1.01, 0.05, 5, 1);
    let result = calculate_staked_pool(&terms, &quiet()).unwrap();
    assert!(result.amount_historical.is_empty());
    assert!(result.price_historical.is_empty());
    assert_eq!(result.history_len(), 0);
    assert_eq!(result.days, 366);
}

#[test]
fn every_output_made_from_history_keeps_it() {
    let terms = pool(1000.0, 1.0, 1.01, 0.05, 5, 1);
    for options in [
        CommandOptions::new(true, false, false),
        CommandOptions::new(false, true, false),
        CommandOptions::new(false, false, true),
    ] {
        let result = calculate_staked_pool(&terms, &options).unwrap();
        assert_eq!(result.amount_historical.len(), 366);
        assert_eq!(result.price_historical.len(), 366);
        assert_eq!(result.history_len(), 366);
    }
}

#[test]
fn history_does_not_change_the_final_figures() {
    let terms = pool(1000.0, 0.5, 1.002, 0.05, 5, 2);
    let plain = calculate_staked_pool(&terms, &quiet()).unwrap();
    let kept = calculate_staked_pool(&terms, &with_history()).unwrap();
    assert_eq!(plain.final_ada_amount.0.to_bits(), kept.final_ada_amount.0.to_bits());
    assert_eq!(plain.final_ada_price.0.to_bits(), kept.final_ada_price.0.to_bits());
    assert_eq!(plain.days, kept.days);
}

#[test]
fn two_runs_give_identical_figures() {
    let terms = pool(3141.59, 0.333, 1.0007, 0.0421, 5, 4);
    let first = calculate_staked_pool(&terms, &quiet()).unwrap();
    let second = calculate_staked_pool(&terms, &quiet()).unwrap();
    assert_eq!(first.final_ada_amount.0.to_bits(), second.final_ada_amount.0.to_bits());
    assert_eq!(first.final_ada_price.0.to_bits(), second.final_ada_price.0.to_bits());
    assert_eq!(first.days, second.days);

    let first = calculate_staked_pool(&terms, &with_history()).unwrap();
    let second = calculate_staked_pool(&terms, &with_history()).unwrap();
    assert_eq!(first.amount_historical, second.amount_historical);
    assert_eq!(first.price_historical, second.price_historical);
}

#[test]
fn history_starts_with_the_opening_state_twice() {
    // Entry 0 is the opening state; entry 1 is what day 1 started with,
    // which is the opening state again.
    let terms = pool(1000.0, 2.0, 1.5, 0.05, 1, 1);
    let result = calculate_staked_pool(&terms, &with_history()).unwrap();
    assert_eq!(result.amount_historical[0], Real(1000.0));
    assert_eq!(result.amount_historical[1], Real(1000.0));
    assert_eq!(result.price_historical[0], Real(2.0));
    assert_eq!(result.price_historical[1], Real(2.0));
    assert_eq!(result.price_historical[2], Real(3.0));
    assert_eq!(result.price_historical[3], Real(4.5));
}

#[test]
fn balance_never_decreases_and_changes_only_on_pay_days() {
    let epoch = 5u64;
    let terms = pool(1000.0, 1.0, 0.999, 0.05, epoch, 1);
    let result = calculate_staked_pool(&terms, &with_history()).unwrap();
    let amounts = &result.amount_historical;
    for day in 1..amounts.len() - 1 {
        // Entry `day` is the start of the day, entry `day + 1` its end.
        let before = amounts[day].0;
        let after = amounts[day + 1].0;
        assert!(after >= before);
        if (day as u64) % epoch == 0 {
            assert!(after > before, "day {} is a pay day", day);
        } else {
            assert_eq!(after.to_bits(), before.to_bits(), "day {} is no pay day", day);
        }
    }
    assert!(result.final_ada_amount.0 >= amounts[amounts.len() - 1].0);
}

#[test]
fn the_last_day_pays_when_it_closes_an_epoch() {
    // One year is days 0 to 365, and 365 is a multiple of 5.
    let terms = pool(1000.0, 1.0, 1.0, 0.05, 5, 1);
    let result = calculate_staked_pool(&terms, &with_history()).unwrap();
    assert!(result.final_ada_amount.0 > result.amount_historical[365].0);
}

#[test]
fn price_is_the_opening_price_times_the_factor_once_a_day() {
    let terms = pool(1000.0, 0.5, 1.01, 0.05, 5, 1);
    let result = calculate_staked_pool(&terms, &with_history()).unwrap();
    let mut price = 0.5_f64;
    assert_eq!(result.price_historical[0], Real(price));
    for day in 1..366 {
        assert_eq!(result.price_historical[day].0.to_bits(), price.to_bits());
        price *= 1.01;
    }
    assert_eq!(result.final_ada_price.0.to_bits(), price.to_bits());
    assert!((result.final_ada_price.0 - 0.5 * 1.01_f64.powi(365)).abs() < 1e-9);
}

#[test]
fn price_does_not_depend_on_the_payouts() {
    let slow = pool(1000.0, 0.5, 1.003, 0.05, 30, 2);
    let fast = pool(1.0, 0.5, 1.003, 0.9, 1, 2);
    let slow = calculate_staked_pool(&slow, &with_history()).unwrap();
    let fast = calculate_staked_pool(&fast, &with_history()).unwrap();
    assert_eq!(slow.price_historical, fast.price_historical);
    assert_eq!(slow.final_ada_price, fast.final_ada_price);
}

#[test]
fn a_falling_price_is_no_special_case() {
    let terms = pool(100.0, 8.0, 0.5, 0.0, 5, 1);
    let result = calculate_staked_pool(&terms, &with_history()).unwrap();
    assert_eq!(result.price_historical[1], Real(8.0));
    assert_eq!(result.price_historical[2], Real(4.0));
    assert_eq!(result.price_historical[4], Real(1.0));
    assert_eq!(result.final_ada_amount, Real(100.0));
    assert!(result.final_ada_price.0 < 1e-100);
}

#[test]
fn rewards_are_paid_on_the_balance_held() {
    // Yearly epochs would be 365.25 days; with an epoch of one day every
    // day from day 1 on pays balance * yield / 365.25.
    let terms = pool(100.0, 1.0, 1.0, 0.1, 1, 1);
    let result = calculate_staked_pool(&terms, &with_history()).unwrap();
    let first = 100.0 + (100.0 * 0.1) / (365.25 / 1.0);
    let second = first + (first * 0.1) / (365.25 / 1.0);
    assert_eq!(result.amount_historical[2], Real(first));
    assert_eq!(result.amount_historical[3], Real(second));
    assert!(second - first > first - 100.0);
}

#[test]
fn the_live_price_switch_changes_nothing() {
    let mut terms = pool(1000.0, 0.5, 1.002, 0.05, 5, 1);
    let without = calculate_staked_pool(&terms, &with_history()).unwrap();
    terms.fetch_price_via_api = true;
    let with = calculate_staked_pool(&terms, &with_history()).unwrap();
    assert_eq!(without.final_ada_amount, with.final_ada_amount);
    assert_eq!(without.final_ada_price, with.final_ada_price);
    assert_eq!(without.amount_historical, with.amount_historical);
    assert_eq!(without.price_historical, with.price_historical);
}

#[test]
fn epochs_per_year_is_the_year_over_the_epoch() {
    let per_year: Real = epochs_per_year(5);
    assert_eq!(per_year, Real(365.25 / 5.0));
    assert_eq!(per_year, Real(73.05));
    let per_year: Real = epochs_per_year(1);
    assert_eq!(per_year, Real(365.25));
}

#[test]
fn the_opening_state_holds_the_first_years_rewards() {
    let terms = pool(1000.0, 1.5, 1.01, 0.05, 5, 1);
    let state = SimulationState::open(&terms);
    assert_eq!(state.ada, Real(1000.0));
    assert_eq!(state.price, Real(1.5));
    assert_eq!(state.ada_per_year, Real(1000.0 * 0.05));
}

#[test]
fn a_day_without_payout_moves_the_price_alone() {
    let terms = pool(1000.0, 2.0, 1.5, 0.05, 5, 1);
    let mut state = SimulationState::open(&terms);
    let paid = state.advance(&terms, epochs_per_year(5), 1);
    assert!(!paid);
    assert_eq!(state.ada, Real(1000.0));
    assert_eq!(state.ada_per_year, Real(50.0));
    assert_eq!(state.price, Real(3.0));
}

#[test]
fn a_pay_day_raises_balance_and_rewards_and_moves_the_price() {
    let terms = pool(1000.0, 2.0, 1.5, 0.05, 5, 1);
    let mut state = SimulationState::open(&terms);
    let per_year: Real = epochs_per_year(5);
    let paid = state.advance(&terms, per_year, 5);
    assert!(paid);
    let balance = 1000.0 + 50.0 / (365.25 / 5.0);
    assert_eq!(state.ada, Real(balance));
    assert_eq!(state.ada_per_year, Real(balance * 0.05));
    assert_eq!(state.price, Real(3.0));
}

#[test]
fn total_is_amount_times_price() {
    let result = StakedCardanoPoolResult::new(Real(12.5), Real(4.0), Vec::new(), Vec::new(), 1);
    assert_eq!(result.total(), Real(50.0));
}

#[test]
fn yield_is_the_final_value_over_the_opening_value() {
    let terms = pool(10.0, 2.0, 1.0, 0.0, 5, 1);
    let result = StakedCardanoPoolResult::new(Real(15.0), Real(4.0), Vec::new(), Vec::new(), 366);
    // 60 over 20, as a percentage.
    assert_eq!(result.yield_as_percentage(&terms), Ok(Real(300.0)));
    let unchanged = StakedCardanoPoolResult::new(Real(10.0), Real(2.0), Vec::new(), Vec::new(), 1);
    assert_eq!(unchanged.yield_as_percentage(&terms), Ok(Real(100.0)));
}

#[test]
fn new_keeps_its_parts() {
    let result = StakedCardanoPoolResult::new(
        Real(1.0),
        Real(2.0),
        vec![Real(3.0), Real(4.0)],
        vec![Real(5.0)],
        9,
    );
    assert_eq!(result.final_ada_amount, Real(1.0));
    assert_eq!(result.final_ada_price, Real(2.0));
    assert_eq!(result.amount_historical, vec![Real(3.0), Real(4.0)]);
    assert_eq!(result.price_historical, vec![Real(5.0)]);
    assert_eq!(result.days, 9);
    assert_eq!(result.history_len(), 1);
}

/// Fixed point arithmetic in millionths, rounding towards zero.
#[derive(Clone, Copy, Debug, PartialEq)]
struct Micro(i128);

const ONE: i128 = 1_000_000;

impl Number for Micro {
    fn from_count(n: u64) -> Self {
        Micro(n as i128 * ONE)
    }

    fn plus(self, rhs: Self) -> Self {
        Micro(self.0 + rhs.0)
    }

    fn times(self, rhs: Self) -> Self {
        Micro(self.0 * rhs.0 / ONE)
    }

    fn over(self, rhs: Self) -> Self {
        if rhs.0 == 0 {
            Micro(0)
        } else {
            Micro(self.0 * ONE / rhs.0)
        }
    }

    fn is_zero(self) -> bool {
        self.0 == 0
    }

    fn to_text(self) -> String {
        format!("{}.{:06}", self.0 / ONE, self.0 % ONE)
    }
}

fn micro_pool(epoch_in_days: u64, years_holding: u64) -> StakedCardanoPool<Micro> {
    StakedCardanoPool {
        ada: Micro(1000 * ONE),
        fetch_price_via_api: false,
        initial_price: Micro(2 * ONE),
        price_yield: Micro(ONE),
        annual_yield: Micro(50_000),
        epoch_in_days,
        years_holding,
    }
}

#[test]
fn the_simulation_runs_on_any_arithmetic() {
    let per_year: Micro = epochs_per_year(5);
    // 365.25 / 5 = 73.05
    assert_eq!(per_year, Micro(73_050_000));

    let terms = micro_pool(5, 1);
    let result = calculate_staked_pool(&terms, &with_history()).unwrap();
    assert_eq!(result.days, 366);
    // 50 / 73.05 = 0.684462..., so the first payout leaves 1000.684462.
    assert_eq!(result.amount_historical[5], Micro(1_000_000_000));
    assert_eq!(result.amount_historical[6], Micro(1_000_684_462));
    // The second payout is on 1000.684462 * 0.05 = 50.034223, of which
    // one epoch's share is 0.684931.
    assert_eq!(result.amount_historical[10], Micro(1_000_684_462));
    assert_eq!(result.amount_historical[11], Micro(1_001_369_393));

    let mut balance: i128 = 1000 * ONE;
    for _ in 0..73 {
        let rate = balance * 50_000 / ONE;
        balance += rate * ONE / 73_050_000;
    }
    assert_eq!(result.final_ada_amount, Micro(balance));
    assert_eq!(result.final_ada_price, Micro(2 * ONE));
    assert_eq!(result.total(), Micro(2 * balance));
    assert_eq!(
        result.yield_as_percentage(&terms),
        Ok(Micro((2 * balance) * ONE / (2000 * ONE) * 100))
    );
}

#[test]
fn a_zero_epoch_never_pays_when_stepped_by_hand() {
    let terms = micro_pool(0, 1);
    let mut state = SimulationState::open(&terms);
    for day in 0..20 {
        assert!(!state.advance(&terms, Micro(73_050_000), day));
    }
    assert_eq!(state.ada, Micro(1000 * ONE));
    assert_eq!(state.ada_per_year, Micro(50 * ONE));
    assert_eq!(state.price, Micro(2 * ONE));
}
