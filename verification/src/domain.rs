//! Backtest time windows and market identifiers.

use vstd::prelude::*;

verus! {

/// A backtest window length, counted either in days or in months.
///
/// A month is approximated as 30.5 days, so a window of `n` months covers
/// `floor(n * 30.5)` whole days.
#[derive(Clone, Copy, Debug, PartialEq, Eq, Structural)]
pub enum BacktestPeriod {
    Day(u64),
    Month(u64),
}

/// How many whole days a period covers: `n` for `Day(n)`,
/// `floor(n * 30.5)` for `Month(n)`.
pub open spec fn spec_period_days(p: BacktestPeriod) -> int {
    match p {
        BacktestPeriod::Day(count) => count as int,
        BacktestPeriod::Month(count) => (count as int * 61) / 2,
    }
}

/// How many seconds a period covers: 86400 seconds for each day of
/// `spec_period_days`.
pub open spec fn spec_period_secs(p: BacktestPeriod) -> int {
    86400 * spec_period_days(p)
}

/// `floor(n * 61 / 2)` splits into thirty whole days per month plus one
/// more day for every second month.
proof fn lemma_month_days(n: int)
    requires
        0 <= n,
    ensures
        (n * 61) / 2 == 30 * n + n / 2,
{
    assert((n * 61) / 2 == 30 * n + n / 2) by (nonlinear_arith)
        requires
            0 <= n,
    ;
}

impl BacktestPeriod {
    /// The length of the period in seconds.
    ///
    /// For every `Day(n)` this is `86400 * n`; for every `Month(n)` it is
    /// `86400 * floor(n * 30.5)`.
    pub fn as_secs(&self) -> (r: u64)
        requires
            spec_period_secs(*self) <= u64::MAX,
        ensures
            r == spec_period_secs(*self),
    {
        match self {
            BacktestPeriod::Day(count) => 86400 * *count,
            BacktestPeriod::Month(count) => {
                proof {
                    lemma_month_days(*count as int);
                }
                let days = 30 * *count + *count / 2;
                86400 * days
            },
        }
    }

    /// The length of the period in whole days.
    pub fn as_days(&self) -> (r: u64)
        requires
            spec_period_days(*self) <= u64::MAX,
        ensures
            r == spec_period_days(*self),
    {
        match self {
            BacktestPeriod::Day(count) => *count,
            BacktestPeriod::Month(count) => {
                proof {
                    lemma_month_days(*count as int);
                }
                30 * *count + *count / 2
            },
        }
    }
}

/// An opaque market identifier in the remote service's tag form.
pub struct MarketTag(pub String);

} // verus!
