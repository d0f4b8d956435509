//! Localized label lookup through a gettext translation catalog.
//!
//! The catalog is an opaque value holding a set of translations; its
//! contents get a name, `catalog_translations`, and every label fetched from
//! it is pinned to that name: the catalog's translation of the source string
//! where it holds one, the source string itself where it does not.

use vstd::prelude::*;

use crate::calc::MAX_GROSS_FILLER;
use crate::calc::spec_breakdown;
use crate::calc::valid_gross;
use crate::display::Labels;
use crate::display::calculate_with_labels;
use crate::display::spec_render;

verus! {

/// A set of translation strings parsed out of one MO file, from the gettext
/// crate.
#[verifier::external_type_specification]
#[verifier::external_body]
pub struct ExCatalog(gettext::Catalog);

/// The singular translations a catalog holds: the map from each message id
/// with a translation to that translation.
pub uninterp spec fn catalog_translations(c: gettext::Catalog) -> Map<Seq<char>, Seq<char>>;

/// What a lookup of `key` in catalog `c` yields: the catalog's translation
/// where it holds one, the key itself where it does not.
pub open spec fn spec_lookup(c: gettext::Catalog, key: Seq<char>) -> Seq<char> {
    if catalog_translations(c).dom().contains(key) {
        catalog_translations(c)[key]
    } else {
        key
    }
}

/// Relies on gettext::Catalog::gettext: returns the catalog's singular
/// translation of `msg_id`, or `msg_id` itself when the catalog holds none.
#[verifier::external_body]
fn lookup(catalog: &gettext::Catalog, msg_id: &str) -> (r: String)
    ensures
        r@ == spec_lookup(*catalog, msg_id@),
        catalog_translations(*catalog).dom().contains(msg_id@) ==> r@ == catalog_translations(
            *catalog,
        )[msg_id@],
{
    catalog.gettext(msg_id).to_owned()
}

/// The labels are the catalog's translations of the nine source strings.
pub open spec fn labels_match_catalog(l: Labels, c: gettext::Catalog) -> bool {
    &&& l.contributions@ == spec_lookup(c, "Contributions"@)
    &&& l.pension@ == spec_lookup(c, "Pension insurance contribution"@)
    &&& l.cash_health@ == spec_lookup(c, "Cash Health Insurance contribution"@)
    &&& l.in_kind_health@ == spec_lookup(c, "Health insurance contribution in kind"@)
    &&& l.szja@ == spec_lookup(c, "SJJA (personal income tax)"@)
    &&& l.labor_market@ == spec_lookup(c, "Labor market contribution"@)
    &&& l.net@ == spec_lookup(c, "Net monthly salary"@)
    &&& l.too_low@ == spec_lookup(c, "Given value less than one!"@)
    &&& l.too_high@ == spec_lookup(c, "Given value too high!"@)
}

/// Fetches the label for each line of the breakdown and the two error
/// messages from the catalog, keyed by the source strings.
pub fn labels_from_catalog(catalog: &gettext::Catalog) -> (r: Labels)
    ensures
        labels_match_catalog(r, *catalog),
{
    Labels {
        contributions: lookup(catalog, "Contributions"),
        pension: lookup(catalog, "Pension insurance contribution"),
        cash_health: lookup(catalog, "Cash Health Insurance contribution"),
        in_kind_health: lookup(catalog, "Health insurance contribution in kind"),
        szja: lookup(catalog, "SJJA (personal income tax)"),
        labor_market: lookup(catalog, "Labor market contribution"),
        net: lookup(catalog, "Net monthly salary"),
        too_low: lookup(catalog, "Given value less than one!"),
        too_high: lookup(catalog, "Given value too high!"),
    }
}

/// Validates and computes the breakdown of a gross salary (in fillér) and
/// renders it under the labels of the given catalog; a rejected gross
/// salary becomes the catalog's matching error message.
pub fn calculate_netto_ber(
    gross_filler: i64,
    newly_married: bool,
    tax_exempt: bool,
    catalog: &gettext::Catalog,
) -> (r: Result<String, String>)
    ensures
        r is Ok <==> valid_gross(gross_filler as int),
        gross_filler <= 0 ==> r is Err && r->Err_0@ == spec_lookup(
            *catalog,
            "Given value less than one!"@,
        ),
        gross_filler > MAX_GROSS_FILLER ==> r is Err && r->Err_0@ == spec_lookup(
            *catalog,
            "Given value too high!"@,
        ),
        r is Ok ==> exists|l: Labels|
            #[trigger] labels_match_catalog(l, *catalog) && r->Ok_0@ == spec_render(
                l,
                spec_breakdown(gross_filler as int, newly_married, tax_exempt),
            ),
{
    let labels = labels_from_catalog(catalog);
    let r = calculate_with_labels(gross_filler, newly_married, tax_exempt, &labels);
    proof {
        if r is Ok {
            assert(labels_match_catalog(labels, *catalog) && r->Ok_0@ == spec_render(
                labels,
                spec_breakdown(gross_filler as int, newly_married, tax_exempt),
            ));
        }
    }
    r
}

} // verus!
