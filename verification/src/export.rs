//! CSV export of a breakdown.
//!
//! The export is two CSV records: a header with the six field names and one
//! row with the six amounts in exact decimal form, the net salary first.
//! The record encoding itself comes from the csv crate, writing into an
//! in-memory buffer; every field here consists of characters that a CSV
//! writer passes through verbatim, so the exported text is pinned exactly.

use vstd::prelude::*;

use crate::calc::Breakdown;
use crate::calc::breakdown_bounded;
use crate::decimal::abs_of;
use crate::decimal::dec_of;
use crate::decimal::digit_char;
use crate::decimal::exact_decimal;
use crate::decimal::exact_decimal_string;
use crate::decimal::keep_count;
use crate::decimal::pad5;

verus! {

/// A character that the CSV writer never quotes or escapes: an ASCII letter
/// or digit, `'_'`, `'.'` or `'-'`.
pub open spec fn is_plain_char(c: char) -> bool {
    let u = c as u32;
    (48 <= u <= 57) || u == 46 || u == 45 || (97 <= u <= 122) || (65 <= u <= 90) || u == 95
}

/// A field of plain characters only.
pub open spec fn plain_field(s: Seq<char>) -> bool
    decreases s.len(),
{
    if s.len() == 0 {
        true
    } else {
        is_plain_char(s[0]) && plain_field(s.drop_first())
    }
}

/// Every field is nonempty and plain.
pub open spec fn all_plain(fields: Seq<Seq<char>>) -> bool {
    forall|i: int| 0 <= i < fields.len() ==> (#[trigger] fields[i]).len() > 0 && plain_field(
        fields[i],
    )
}

/// The fields of one record joined by commas and closed by a newline.
pub open spec fn joined_row(fields: Seq<Seq<char>>) -> Seq<char>
    decreases fields.len(),
{
    if fields.len() == 0 {
        Seq::empty()
    } else if fields.len() == 1 {
        fields[0] + seq!['\n']
    } else {
        fields[0] + seq![','] + joined_row(fields.drop_first())
    }
}

/// Relies on csv::Writer with its default configuration, writing into an
/// in-memory buffer: a nonempty field made of plain characters is written
/// verbatim (only a field holding a comma, a quote, or a line break is
/// quoted), fields are separated by commas, and the record is closed by a
/// single newline. Writing into a Vec cannot fail.
#[verifier::external_body]
fn csv_record_line(fields: &Vec<String>) -> (r: String)
    ensures
        fields@.len() > 0 && all_plain(fields@.map_values(|f: String| f@)) ==> r@ == joined_row(
            fields@.map_values(|f: String| f@),
        ),
{
    let mut w = csv::Writer::from_writer(Vec::new());
    w.write_record(fields.iter()).expect("writing a record into a buffer");
    let buf = w.into_inner().expect("flushing into a buffer");
    String::from_utf8(buf).expect("string fields stay valid text")
}

/// The six field names of the export, in record order.
pub open spec fn spec_header_fields() -> Seq<Seq<char>> {
    seq![
        "net_monthly_salary"@,
        "pension_insurance"@,
        "cash_health_insurance"@,
        "health_insurance"@,
        "sjja"@,
        "labor_market"@,
    ]
}

/// The six amounts of the export in exact decimal form, in record order:
/// the net salary first, then the five contributions.
pub open spec fn spec_row_fields(b: Breakdown) -> Seq<Seq<char>> {
    seq![
        exact_decimal(b.net as int),
        exact_decimal(b.pension as int),
        exact_decimal(b.cash_health as int),
        exact_decimal(b.in_kind_health as int),
        exact_decimal(b.szja as int),
        exact_decimal(b.labor_market as int),
    ]
}

/// The whole CSV export: the header record and exactly one row whose six
/// fields are the breakdown's six amounts.
pub open spec fn spec_csv_export(b: Breakdown) -> Seq<char> {
    joined_row(spec_header_fields()) + joined_row(spec_row_fields(b))
}

/// Concatenation keeps plainness, in both directions.
proof fn lemma_plain_concat(a: Seq<char>, b: Seq<char>)
    ensures
        plain_field(a + b) == (plain_field(a) && plain_field(b)),
    decreases a.len(),
{
    if a.len() == 0 {
        assert(a + b =~= b);
    } else {
        assert((a + b).drop_first() =~= a.drop_first() + b);
        lemma_plain_concat(a.drop_first(), b);
    }
}

/// A prefix of a plain field is plain.
proof fn lemma_plain_take(s: Seq<char>, k: int)
    requires
        plain_field(s),
        0 <= k <= s.len(),
    ensures
        plain_field(s.take(k)),
    decreases k,
{
    if k > 0 {
        assert(s.take(k).drop_first() =~= s.drop_first().take(k - 1));
        lemma_plain_take(s.drop_first(), k - 1);
    }
}

/// Decimal digits are plain, and there is at least one of them.
proof fn lemma_dec_of_plain(n: nat)
    ensures
        plain_field(dec_of(n)),
        dec_of(n).len() > 0,
    decreases n,
{
    if n < 10 {
        assert(plain_field(dec_of(n).drop_first()));
    } else {
        lemma_dec_of_plain(n / 10);
        assert(dec_of(n) =~= dec_of(n / 10) + seq![digit_char((n % 10) as int)]);
        assert(plain_field(seq![digit_char((n % 10) as int)].drop_first()));
        lemma_plain_concat(dec_of(n / 10), seq![digit_char((n % 10) as int)]);
    }
}

/// The exact decimal form of an amount is a nonempty plain field.
proof fn lemma_exact_decimal_plain(v: int)
    ensures
        plain_field(exact_decimal(v)),
        exact_decimal(v).len() > 0,
{
    let m = abs_of(v);
    let ip = m / 100000;
    let f = m % 100000;
    let sign: Seq<char> = if v < 0 {
        seq!['-']
    } else {
        Seq::empty()
    };
    assert(plain_field(sign)) by {
        if v < 0 {
            assert(plain_field(sign.drop_first()));
        }
    }
    lemma_dec_of_plain(ip as nat);
    lemma_plain_concat(sign, dec_of(ip as nat));
    if f != 0 {
        reveal_with_fuel(plain_field, 7);
        assert(plain_field(pad5(f as nat)));
        lemma_plain_take(pad5(f as nat), keep_count(f as nat));
        lemma_plain_concat(seq!['.'], pad5(f as nat).take(keep_count(f as nat)));
        lemma_plain_concat(
            sign + dec_of(ip as nat),
            seq!['.'] + pad5(f as nat).take(keep_count(f as nat)),
        );
        assert(exact_decimal(v) =~= (sign + dec_of(ip as nat)) + (seq!['.'] + pad5(f as nat).take(
            keep_count(f as nat),
        )));
    } else {
        assert(exact_decimal(v) =~= sign + dec_of(ip as nat));
    }
}

/// The six field names are nonempty plain fields.
proof fn lemma_header_fields_plain()
    ensures
        all_plain(spec_header_fields()),
{
    reveal_strlit("net_monthly_salary");
    reveal_strlit("pension_insurance");
    reveal_strlit("cash_health_insurance");
    reveal_strlit("health_insurance");
    reveal_strlit("sjja");
    reveal_strlit("labor_market");
    reveal_with_fuel(plain_field, 22);
    assert(plain_field("net_monthly_salary"@));
    assert(plain_field("pension_insurance"@));
    assert(plain_field("cash_health_insurance"@));
    assert(plain_field("health_insurance"@));
    assert(plain_field("sjja"@));
    assert(plain_field("labor_market"@));
    assert forall|i: int| 0 <= i < spec_header_fields().len() implies (
    #[trigger] spec_header_fields()[i]).len() > 0 && plain_field(spec_header_fields()[i]) by {
        if i == 0 {
            assert(spec_header_fields()[i] == "net_monthly_salary"@);
        } else if i == 1 {
            assert(spec_header_fields()[i] == "pension_insurance"@);
        } else if i == 2 {
            assert(spec_header_fields()[i] == "cash_health_insurance"@);
        } else if i == 3 {
            assert(spec_header_fields()[i] == "health_insurance"@);
        } else if i == 4 {
            assert(spec_header_fields()[i] == "sjja"@);
        } else {
            assert(spec_header_fields()[i] == "labor_market"@);
        }
    }
}

/// Builds the CSV export of a breakdown: the header record and exactly one
/// row whose six fields are the breakdown's six amounts in exact decimal
/// form, the net salary first.
pub fn export_csv_string(b: &Breakdown) -> (r: String)
    requires
        breakdown_bounded(*b),
    ensures
        r@ == spec_csv_export(*b),
{
    let mut header: Vec<String> = Vec::new();
    header.push(String::from_str("net_monthly_salary"));
    header.push(String::from_str("pension_insurance"));
    header.push(String::from_str("cash_health_insurance"));
    header.push(String::from_str("health_insurance"));
    header.push(String::from_str("sjja"));
    header.push(String::from_str("labor_market"));
    proof {
        lemma_header_fields_plain();
        assert(header@.map_values(|f: String| f@) =~= spec_header_fields());
    }
    let header_line = csv_record_line(&header);
    let mut row: Vec<String> = Vec::new();
    row.push(exact_decimal_string(b.net));
    row.push(exact_decimal_string(b.pension));
    row.push(exact_decimal_string(b.cash_health));
    row.push(exact_decimal_string(b.in_kind_health));
    row.push(exact_decimal_string(b.szja));
    row.push(exact_decimal_string(b.labor_market));
    proof {
        assert(row@.map_values(|f: String| f@) =~= spec_row_fields(*b));
        lemma_exact_decimal_plain(b.net as int);
        lemma_exact_decimal_plain(b.pension as int);
        lemma_exact_decimal_plain(b.cash_health as int);
        lemma_exact_decimal_plain(b.in_kind_health as int);
        lemma_exact_decimal_plain(b.szja as int);
        lemma_exact_decimal_plain(b.labor_market as int);
        assert forall|i: int| 0 <= i < spec_row_fields(*b).len() implies (
        #[trigger] spec_row_fields(*b)[i]).len() > 0 && plain_field(spec_row_fields(*b)[i]) by {
            if i == 0 {
                assert(spec_row_fields(*b)[i] == exact_decimal(b.net as int));
            } else if i == 1 {
                assert(spec_row_fields(*b)[i] == exact_decimal(b.pension as int));
            } else if i == 2 {
                assert(spec_row_fields(*b)[i] == exact_decimal(b.cash_health as int));
            } else if i == 3 {
                assert(spec_row_fields(*b)[i] == exact_decimal(b.in_kind_health as int));
            } else if i == 4 {
                assert(spec_row_fields(*b)[i] == exact_decimal(b.szja as int));
            } else {
                assert(spec_row_fields(*b)[i] == exact_decimal(b.labor_market as int));
            }
        }
    }
    let row_line = csv_record_line(&row);
    let out = header_line.concat(row_line.as_str());
    proof {
        assert(out@ =~= spec_csv_export(*b));
    }
    out
}

} // verus!
