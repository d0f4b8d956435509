//! The net-salary calculation: validation, the five contribution amounts,
//! and the net salary.
//!
//! The gross salary comes in as a whole number of fillér (hundredths of a
//! forint). Every computed amount is an exact integer in hundred-thousandths
//! of a forint: multiplying a fillér amount by a per-mille rate lands exactly
//! in that unit, so no rounding happens anywhere in the calculation.

use vstd::prelude::*;

use crate::rates::CASH_HEALTH_RATE;
use crate::rates::Contribution;
use crate::rates::IN_KIND_HEALTH_RATE;
use crate::rates::LABOR_MARKET_RATE;
use crate::rates::PENSION_RATE;
use crate::rates::RATE_DENOMINATOR;
use crate::rates::SZJA_RATE;
use crate::rates::rate_of;
use crate::rates::rate_seq;

verus! {

/// Fillér per forint: the gross salary is given in fillér.
pub const FILLER_PER_FORINT: i64 = 100;

/// Amount units per fillér. A computed amount is stored in units of
/// 1/100000 forint, i.e. one thousandth of a fillér.
pub const UNITS_PER_FILLER: i64 = 1000;

/// Amount units per forint.
pub const UNITS_PER_FORINT: i64 = 100000;

/// The largest accepted gross salary: 100,000,000 forints, in fillér.
pub const MAX_GROSS_FILLER: i64 = 10000000000;

/// The flat discount for the newly married: 5,000 forints, in amount units.
pub const MARRIAGE_DISCOUNT_UNITS: i64 = 500000000;

/// No computed amount leaves this range: the largest gross salary times the
/// rate denominator.
pub const MAX_AMOUNT_UNITS: i64 = MAX_GROSS_FILLER * RATE_DENOMINATOR;

/// Why a gross salary was rejected.
#[derive(PartialEq, Eq, Structural, Clone, Copy, Debug)]
pub enum ValidationError {
    /// The gross salary was zero or negative.
    TooLow,
    /// The gross salary was above 100,000,000 forints.
    TooHigh,
}

/// The computed amounts, all in units of 1/100000 forint: the five
/// contributions and the final net salary.
#[derive(PartialEq, Eq, Structural, Clone, Copy, Debug)]
pub struct Breakdown {
    /// Pension insurance contribution.
    pub pension: i64,
    /// Cash health insurance contribution.
    pub cash_health: i64,
    /// In-kind health insurance contribution.
    pub in_kind_health: i64,
    /// Personal income tax (SZJA); may be negative under the newly-married
    /// discount, and zero when tax-exempt.
    pub szja: i64,
    /// Labor-market contribution.
    pub labor_market: i64,
    /// The net monthly salary.
    pub net: i64,
}

/// A gross salary (in fillér) that the calculator accepts.
pub open spec fn valid_gross(gross_filler: int) -> bool {
    0 < gross_filler <= MAX_GROSS_FILLER
}

/// The flat discount applied when newly married, in amount units.
pub open spec fn marriage_discount(newly_married: bool) -> int {
    if newly_married {
        MARRIAGE_DISCOUNT_UNITS as int
    } else {
        0
    }
}

/// The SZJA amount in units: the rate applied to the gross salary, less the
/// flat newly-married discount; forced to zero when tax-exempt.
pub open spec fn spec_szja(gross_filler: int, newly_married: bool, tax_exempt: bool) -> int {
    if tax_exempt {
        0
    } else {
        gross_filler * SZJA_RATE - marriage_discount(newly_married)
    }
}

/// The sum of the rates that are subtracted from the gross salary, in
/// thousandths: all five rates, or all but SZJA when tax-exempt.
pub open spec fn applied_rate_sum(tax_exempt: bool) -> int {
    if tax_exempt {
        PENSION_RATE + CASH_HEALTH_RATE + IN_KIND_HEALTH_RATE + LABOR_MARKET_RATE
    } else {
        PENSION_RATE + CASH_HEALTH_RATE + IN_KIND_HEALTH_RATE + SZJA_RATE + LABOR_MARKET_RATE
    }
}

/// The net salary in units: the gross salary times one minus the applied
/// rate sum, less the flat newly-married discount.
pub open spec fn spec_net(gross_filler: int, newly_married: bool, tax_exempt: bool) -> int {
    gross_filler * (RATE_DENOMINATOR - applied_rate_sum(tax_exempt)) - marriage_discount(
        newly_married,
    )
}

/// What a correct breakdown of `gross_filler` under the two flags holds.
pub open spec fn breakdown_matches(
    b: Breakdown,
    gross_filler: int,
    newly_married: bool,
    tax_exempt: bool,
) -> bool {
    &&& b.pension == gross_filler * PENSION_RATE
    &&& b.cash_health == gross_filler * CASH_HEALTH_RATE
    &&& b.in_kind_health == gross_filler * IN_KIND_HEALTH_RATE
    &&& b.szja == spec_szja(gross_filler, newly_married, tax_exempt)
    &&& b.labor_market == gross_filler * LABOR_MARKET_RATE
    &&& b.net == spec_net(gross_filler, newly_married, tax_exempt)
}

/// The breakdown of a valid gross salary, as a value: each field is the
/// exact amount in units (all of them fit in `i64` whenever
/// `valid_gross(gross_filler)` holds).
pub open spec fn spec_breakdown(
    gross_filler: int,
    newly_married: bool,
    tax_exempt: bool,
) -> Breakdown {
    Breakdown {
        pension: (gross_filler * PENSION_RATE) as i64,
        cash_health: (gross_filler * CASH_HEALTH_RATE) as i64,
        in_kind_health: (gross_filler * IN_KIND_HEALTH_RATE) as i64,
        szja: spec_szja(gross_filler, newly_married, tax_exempt) as i64,
        labor_market: (gross_filler * LABOR_MARKET_RATE) as i64,
        net: spec_net(gross_filler, newly_married, tax_exempt) as i64,
    }
}

/// Every amount of the breakdown lies within `MAX_AMOUNT_UNITS` either way.
pub open spec fn breakdown_bounded(b: Breakdown) -> bool {
    &&& -MAX_AMOUNT_UNITS <= b.pension <= MAX_AMOUNT_UNITS
    &&& -MAX_AMOUNT_UNITS <= b.cash_health <= MAX_AMOUNT_UNITS
    &&& -MAX_AMOUNT_UNITS <= b.in_kind_health <= MAX_AMOUNT_UNITS
    &&& -MAX_AMOUNT_UNITS <= b.szja <= MAX_AMOUNT_UNITS
    &&& -MAX_AMOUNT_UNITS <= b.labor_market <= MAX_AMOUNT_UNITS
    &&& -MAX_AMOUNT_UNITS <= b.net <= MAX_AMOUNT_UNITS
}

/// Validates the gross salary (in fillér) and computes the breakdown:
/// each contribution is the gross salary times its rate; SZJA gets the flat
/// newly-married discount and is forced to zero when tax-exempt; the net
/// salary subtracts the applied rates and the flat discount.
pub fn compute(gross_filler: i64, newly_married: bool, tax_exempt: bool) -> (r: Result<
    Breakdown,
    ValidationError,
>)
    ensures
        r is Ok <==> valid_gross(gross_filler as int),
        gross_filler <= 0 ==> r == Result::<Breakdown, ValidationError>::Err(
            ValidationError::TooLow,
        ),
        gross_filler > MAX_GROSS_FILLER ==> r == Result::<Breakdown, ValidationError>::Err(
            ValidationError::TooHigh,
        ),
        r is Ok ==> breakdown_matches(r->Ok_0, gross_filler as int, newly_married, tax_exempt),
        r is Ok ==> breakdown_bounded(r->Ok_0),
        r is Ok ==> r->Ok_0 == spec_breakdown(gross_filler as int, newly_married, tax_exempt),
{
    if gross_filler <= 0 {
        return Err(ValidationError::TooLow);
    }
    if gross_filler > MAX_GROSS_FILLER {
        return Err(ValidationError::TooHigh);
    }
    let discount: i64 = if newly_married {
        MARRIAGE_DISCOUNT_UNITS
    } else {
        0
    };
    let szja: i64 = if tax_exempt {
        0
    } else {
        gross_filler * SZJA_RATE - discount
    };
    let factor: i64 = if tax_exempt {
        RATE_DENOMINATOR - (PENSION_RATE + CASH_HEALTH_RATE + IN_KIND_HEALTH_RATE
            + LABOR_MARKET_RATE)
    } else {
        RATE_DENOMINATOR - (PENSION_RATE + CASH_HEALTH_RATE + IN_KIND_HEALTH_RATE + SZJA_RATE
            + LABOR_MARKET_RATE)
    };
    assert(gross_filler * factor <= MAX_GROSS_FILLER * RATE_DENOMINATOR && 0 <= gross_filler
        * factor) by (nonlinear_arith)
        requires
            0 < gross_filler <= MAX_GROSS_FILLER,
            0 <= factor <= RATE_DENOMINATOR,
    ;
    let net: i64 = gross_filler * factor - discount;
    Ok(
        Breakdown {
            pension: gross_filler * PENSION_RATE,
            cash_health: gross_filler * CASH_HEALTH_RATE,
            in_kind_health: gross_filler * IN_KIND_HEALTH_RATE,
            szja,
            labor_market: gross_filler * LABOR_MARKET_RATE,
            net,
        },
    )
}

/// The sum of the rates of a list of contributions that are applied to the
/// gross salary: SZJA is skipped when tax-exempt.
pub open spec fn applied_sum_of(s: Seq<Contribution>, tax_exempt: bool) -> int
    decreases s.len(),
{
    if s.len() == 0 {
        0
    } else {
        (if tax_exempt && s[0] is Szja {
            0
        } else {
            rate_of(s[0])
        }) + applied_sum_of(s.drop_first(), tax_exempt)
    }
}

/// Law: the net salary is the gross salary times one minus the sum of the
/// rates of the fixed contribution list that apply (excluding SZJA when
/// tax-exempt, with `RATE_DENOMINATOR` as the unit), minus the flat
/// newly-married discount.
pub proof fn lemma_net_from_rate_list(gross_filler: int, newly_married: bool, tax_exempt: bool)
    ensures
        spec_net(gross_filler, newly_married, tax_exempt) == gross_filler * (RATE_DENOMINATOR
            - applied_sum_of(rate_seq(), tax_exempt)) - marriage_discount(newly_married),
{
    reveal_with_fuel(applied_sum_of, 7);
    assert(applied_sum_of(rate_seq(), tax_exempt) == applied_rate_sum(tax_exempt));
}

} // verus!
