use berkalkulator::calc::compute;
use berkalkulator::export::export_csv_string;

const HEADER: &str =
    "net_monthly_salary,pension_insurance,cash_health_insurance,health_insurance,sjja,labor_market\n";

// Gross 1,000,000 Ft, no flags: one header record and exactly one row whose
// six fields are the breakdown's six amounts, the net salary first.
#[test]
fn export_header_and_row_million() {
    let b = compute(100_000_000, false, false).unwrap();
    let out = export_csv_string(&b);
    let expected = format!("{}665000,100000,30000,40000,150000,15000\n", HEADER);
    assert_eq!(out, expected);
    assert_eq!(out.lines().count(), 2);
}

// A gross salary of 3.33 Ft gives fractional amounts; the row carries them
// exactly, with no rounding.
#[test]
fn export_fractional_amounts() {
    let b = compute(333, false, false).unwrap();
    let out = export_csv_string(&b);
    let expected = format!("{}2.21445,0.333,0.0999,0.1332,0.4995,0.04995\n", HEADER);
    assert_eq!(out, expected);
}

// Under the newly-married discount the SZJA and net amounts can be
// negative; the row carries the signs.
#[test]
fn export_negative_amounts() {
    let b = compute(100_000, true, false).unwrap();
    let out = export_csv_string(&b);
    let expected = format!("{}-4335,100,30,40,-4850,15\n", HEADER);
    assert_eq!(out, expected);
}

// Parses a decimal field back into hundred-thousandths of a forint.
fn parse_units(s: &str) -> i64 {
    let neg = s.starts_with('-');
    let body = if neg { &s[1..] } else { s };
    let (ip, frac) = match body.split_once('.') {
        Some((a, f)) => (a, f),
        None => (body, ""),
    };
    let mut units: i64 = ip.parse::<i64>().unwrap() * 100_000;
    let mut scale: i64 = 10_000;
    for c in frac.chars() {
        units += (c as i64 - '0' as i64) * scale;
        scale /= 10;
    }
    if neg { -units } else { units }
}

// The exported row can be read back: its fields, parsed as decimals in
// hundred-thousandths of a forint, equal the breakdown's amounts.
#[test]
fn export_row_reads_back() {
    let b = compute(333, true, false).unwrap();
    let out = export_csv_string(&b);
    let row = out.lines().nth(1).unwrap();
    let fields: Vec<&str> = row.split(',').collect();
    assert_eq!(fields.len(), 6);
    assert_eq!(parse_units(fields[0]), b.net);
    assert_eq!(parse_units(fields[1]), b.pension);
    assert_eq!(parse_units(fields[2]), b.cash_health);
    assert_eq!(parse_units(fields[3]), b.in_kind_health);
    assert_eq!(parse_units(fields[4]), b.szja);
    assert_eq!(parse_units(fields[5]), b.labor_market);
}
