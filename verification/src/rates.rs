//! The fixed set of statutory contribution rates.
//!
//! Every rate is a fraction of the gross salary with denominator 1000, so a
//! rate is stored as a number of thousandths (per-mille). The five rates are
//! fixed: pension insurance 10%, cash health insurance 3%, in-kind health
//! insurance 4%, personal income tax (SZJA) 15%, labor-market contribution
//! 1.5%.

use vstd::prelude::*;

verus! {

/// Pension insurance rate, in thousandths of the gross salary (10%).
pub const PENSION_RATE: i64 = 100;

/// Cash health insurance rate, in thousandths of the gross salary (3%).
pub const CASH_HEALTH_RATE: i64 = 30;

/// In-kind health insurance rate, in thousandths of the gross salary (4%).
pub const IN_KIND_HEALTH_RATE: i64 = 40;

/// Personal income tax (SZJA) rate, in thousandths of the gross salary (15%).
pub const SZJA_RATE: i64 = 150;

/// Labor-market contribution rate, in thousandths of the gross salary (1.5%).
pub const LABOR_MARKET_RATE: i64 = 15;

/// Rates are fractions of the gross salary with this denominator.
pub const RATE_DENOMINATOR: i64 = 1000;

/// One of the five statutory contributions, carrying its rate in
/// thousandths of the gross salary.
#[derive(PartialEq, Eq, Structural, Clone, Copy, Debug)]
pub enum Contribution {
    Pension(i64),
    CashHealth(i64),
    InKindHealth(i64),
    Szja(i64),
    LaborMarket(i64),
}

/// The rate carried by a contribution, in thousandths of the gross salary.
pub open spec fn rate_of(c: Contribution) -> int {
    match c {
        Contribution::Pension(r) => r as int,
        Contribution::CashHealth(r) => r as int,
        Contribution::InKindHealth(r) => r as int,
        Contribution::Szja(r) => r as int,
        Contribution::LaborMarket(r) => r as int,
    }
}

/// The fixed, ordered list of the five contributions with their rates.
pub open spec fn rate_seq() -> Seq<Contribution> {
    seq![
        Contribution::Pension(PENSION_RATE),
        Contribution::CashHealth(CASH_HEALTH_RATE),
        Contribution::InKindHealth(IN_KIND_HEALTH_RATE),
        Contribution::Szja(SZJA_RATE),
        Contribution::LaborMarket(LABOR_MARKET_RATE),
    ]
}

/// Builds the fixed list of contributions, defined once per invocation.
pub fn contribution_rates() -> (v: Vec<Contribution>)
    ensures
        v@ == rate_seq(),
{
    let mut v: Vec<Contribution> = Vec::new();
    v.push(Contribution::Pension(PENSION_RATE));
    v.push(Contribution::CashHealth(CASH_HEALTH_RATE));
    v.push(Contribution::InKindHealth(IN_KIND_HEALTH_RATE));
    v.push(Contribution::Szja(SZJA_RATE));
    v.push(Contribution::LaborMarket(LABOR_MARKET_RATE));
    proof {
        assert(v@ =~= rate_seq());
    }
    v
}

} // verus!
