//! The arithmetic that amounts and prices are computed with.

use vstd::prelude::*;

verus! {

/// A quantity of ADA, a price, or a ratio of two of them.
///
/// The methods carry no contract: an implementation may round as it likes.
/// What the library proves is which operations were applied to which
/// operands, in terms of the predicates below.
pub trait Number: Copy {
    /// The number that stands for a count of days or a small constant.
    fn from_count(n: u64) -> Self;

    /// `self + rhs`.
    fn plus(self, rhs: Self) -> Self;

    /// `self * rhs`.
    fn times(self, rhs: Self) -> Self;

    /// `self / rhs`. A zero divisor must not panic.
    fn over(self, rhs: Self) -> Self;

    /// Whether the number is zero.
    fn is_zero(self) -> bool;

    /// The number as it is written in an export.
    fn to_text(self) -> String;
}

/// `r` is what `Number::from_count(n)` may return.
pub open spec fn count_yields<T: Number>(n: u64, r: T) -> bool {
    call_ensures(T::from_count, (n,), r)
}

/// `r` is what `a.plus(b)` may return.
pub open spec fn plus_yields<T: Number>(a: T, b: T, r: T) -> bool {
    call_ensures(T::plus, (a, b), r)
}

/// `r` is what `a.times(b)` may return.
pub open spec fn times_yields<T: Number>(a: T, b: T, r: T) -> bool {
    call_ensures(T::times, (a, b), r)
}

/// `r` is what `a.over(b)` may return.
pub open spec fn over_yields<T: Number>(a: T, b: T, r: T) -> bool {
    call_ensures(T::over, (a, b), r)
}

/// `r` is what `a.is_zero()` may return.
pub open spec fn zero_test_yields<T: Number>(a: T, r: bool) -> bool {
    call_ensures(T::is_zero, (a,), r)
}

/// `text` is what `a.to_text()` may return.
pub open spec fn text_yields<T: Number>(a: T, text: String) -> bool {
    call_ensures(T::to_text, (a,), text)
}

/// Every arithmetic operation of `T` has one result for each choice of
/// operands.
pub open spec fn deterministic<T: Number>() -> bool {
    &&& forall|n: u64, r1: T, r2: T|
        #![trigger count_yields(n, r1), count_yields(n, r2)]
        count_yields(n, r1) && count_yields(n, r2) ==> r1 == r2
    &&& forall|a: T, b: T, r1: T, r2: T|
        #![trigger plus_yields(a, b, r1), plus_yields(a, b, r2)]
        plus_yields(a, b, r1) && plus_yields(a, b, r2) ==> r1 == r2
    &&& forall|a: T, b: T, r1: T, r2: T|
        #![trigger times_yields(a, b, r1), times_yields(a, b, r2)]
        times_yields(a, b, r1) && times_yields(a, b, r2) ==> r1 == r2
    &&& forall|a: T, b: T, r1: T, r2: T|
        #![trigger over_yields(a, b, r1), over_yields(a, b, r2)]
        over_yields(a, b, r1) && over_yields(a, b, r2) ==> r1 == r2
    &&& forall|a: T, r1: bool, r2: bool|
        #![trigger zero_test_yields(a, r1), zero_test_yields(a, r2)]
        zero_test_yields(a, r1) && zero_test_yields(a, r2) ==> r1 == r2
}

/// The number for `n`, where `from_count` has one result.
pub open spec fn counted<T: Number>(n: u64) -> T {
    choose|r: T| count_yields(n, r)
}

/// `a + b`, where `plus` has one result.
pub open spec fn sum<T: Number>(a: T, b: T) -> T {
    choose|r: T| plus_yields(a, b, r)
}

/// `a * b`, where `times` has one result.
pub open spec fn product<T: Number>(a: T, b: T) -> T {
    choose|r: T| times_yields(a, b, r)
}

/// `a / b`, where `over` has one result.
pub open spec fn quotient<T: Number>(a: T, b: T) -> T {
    choose|r: T| over_yields(a, b, r)
}

/// With deterministic arithmetic, whatever an operation returned is the
/// value that `counted`, `sum`, `product` and `quotient` name.
pub proof fn lemma_results_are_named<T: Number>()
    requires
        deterministic::<T>(),
    ensures
        forall|n: u64, r: T| #[trigger] count_yields(n, r) ==> r == counted::<T>(n),
        forall|a: T, b: T, r: T| #[trigger] plus_yields(a, b, r) ==> r == sum(a, b),
        forall|a: T, b: T, r: T| #[trigger] times_yields(a, b, r) ==> r == product(a, b),
        forall|a: T, b: T, r: T| #[trigger] over_yields(a, b, r) ==> r == quotient(a, b),
{
    assert forall|n: u64, r: T| #[trigger] count_yields(n, r) implies r == counted::<T>(n) by {
        assert(count_yields(n, counted::<T>(n)));
    }
    assert forall|a: T, b: T, r: T| #[trigger] plus_yields(a, b, r) implies r == sum(a, b) by {
        assert(plus_yields(a, b, sum(a, b)));
    }
    assert forall|a: T, b: T, r: T| #[trigger] times_yields(a, b, r) implies r == product(
        a,
        b,
    ) by {
        assert(times_yields(a, b, product(a, b)));
    }
    assert forall|a: T, b: T, r: T| #[trigger] over_yields(a, b, r) implies r == quotient(
        a,
        b,
    ) by {
        assert(over_yields(a, b, quotient(a, b)));
    }
}

} // verus!
