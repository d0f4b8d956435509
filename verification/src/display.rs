//! Rendering of a breakdown as the multi-line text block that the window
//! shows, under localized labels.

use vstd::prelude::*;

use crate::calc::Breakdown;
use crate::calc::MAX_AMOUNT_UNITS;
use crate::calc::MAX_GROSS_FILLER;
use crate::calc::ValidationError;
use crate::calc::breakdown_bounded;
use crate::calc::compute;
use crate::calc::spec_breakdown;
use crate::calc::valid_gross;
use crate::decimal::money_string;
use crate::decimal::money_to_string;

verus! {

/// The localized texts that the rendered breakdown and the two validation
/// errors use: one label per line, fetched from a translation catalog.
pub struct Labels {
    /// Heading above the contribution lines.
    pub contributions: String,
    /// Label of the pension insurance line.
    pub pension: String,
    /// Label of the cash health insurance line.
    pub cash_health: String,
    /// Label of the in-kind health insurance line.
    pub in_kind_health: String,
    /// Label of the personal income tax line.
    pub szja: String,
    /// Label of the labor-market contribution line.
    pub labor_market: String,
    /// Label of the net salary line.
    pub net: String,
    /// Message for a gross salary at or below zero.
    pub too_low: String,
    /// Message for a gross salary above the accepted maximum.
    pub too_high: String,
}

/// One contribution line of the text block: the label, the amount to two
/// decimals, and the currency mark.
pub open spec fn spec_line(label: Seq<char>, v: int) -> Seq<char> {
    label + ": "@ + money_string(v) + " Ft\n"@
}

/// The whole text block: the heading, the five contribution lines, a blank
/// line, and the net salary line.
pub open spec fn spec_render(l: Labels, b: Breakdown) -> Seq<char> {
    l.contributions@ + ": \n\n"@ + spec_line(l.pension@, b.pension as int) + spec_line(
        l.cash_health@,
        b.cash_health as int,
    ) + spec_line(l.in_kind_health@, b.in_kind_health as int) + spec_line(l.szja@, b.szja as int)
        + spec_line(l.labor_market@, b.labor_market as int) + "\n"@ + l.net@ + ": "@
        + money_string(b.net as int) + " Ft"@
}

/// Appends one contribution line to the text block.
fn push_line(out: &mut String, label: &String, v: i64)
    requires
        -MAX_AMOUNT_UNITS <= v <= MAX_AMOUNT_UNITS,
    ensures
        final(out)@ == old(out)@ + spec_line(label@, v as int),
{
    out.append(label.as_str());
    out.append(": ");
    let m = money_to_string(v);
    out.append(m.as_str());
    out.append(" Ft\n");
    proof {
        assert(out@ =~= old(out)@ + spec_line(label@, v as int));
    }
}

/// Renders a breakdown as the displayed text block under the given labels.
pub fn render_breakdown(l: &Labels, b: &Breakdown) -> (r: String)
    requires
        breakdown_bounded(*b),
    ensures
        r@ == spec_render(*l, *b),
{
    let mut s = String::new();
    s.append(l.contributions.as_str());
    s.append(": \n\n");
    push_line(&mut s, &l.pension, b.pension);
    push_line(&mut s, &l.cash_health, b.cash_health);
    push_line(&mut s, &l.in_kind_health, b.in_kind_health);
    push_line(&mut s, &l.szja, b.szja);
    push_line(&mut s, &l.labor_market, b.labor_market);
    s.append("\n");
    s.append(l.net.as_str());
    s.append(": ");
    let m = money_to_string(b.net);
    s.append(m.as_str());
    s.append(" Ft");
    proof {
        assert(s@ =~= spec_render(*l, *b));
    }
    s
}

/// Validates and computes the breakdown, then renders it under the given
/// labels; a rejected gross salary becomes the matching error message.
pub fn calculate_with_labels(
    gross_filler: i64,
    newly_married: bool,
    tax_exempt: bool,
    labels: &Labels,
) -> (r: Result<String, String>)
    ensures
        r is Ok <==> valid_gross(gross_filler as int),
        gross_filler <= 0 ==> r is Err && r->Err_0@ == labels.too_low@,
        gross_filler > MAX_GROSS_FILLER ==> r is Err && r->Err_0@ == labels.too_high@,
        r is Ok ==> r->Ok_0@ == spec_render(
            *labels,
            spec_breakdown(gross_filler as int, newly_married, tax_exempt),
        ),
{
    match compute(gross_filler, newly_married, tax_exempt) {
        Ok(b) => Ok(render_breakdown(labels, &b)),
        Err(ValidationError::TooLow) => Err(labels.too_low.clone()),
        Err(ValidationError::TooHigh) => Err(labels.too_high.clone()),
    }
}

} // verus!
