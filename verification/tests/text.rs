use berkalkulator::calc::compute;
use berkalkulator::catalog::calculate_netto_ber;
use berkalkulator::decimal::exact_decimal_string;
use berkalkulator::decimal::money_to_string;
use berkalkulator::display::Labels;
use berkalkulator::display::calculate_with_labels;
use berkalkulator::display::render_breakdown;

fn english_labels() -> Labels {
    Labels {
        contributions: "Contributions".to_string(),
        pension: "Pension insurance contribution".to_string(),
        cash_health: "Cash Health Insurance contribution".to_string(),
        in_kind_health: "Health insurance contribution in kind".to_string(),
        szja: "SJJA (personal income tax)".to_string(),
        labor_market: "Labor market contribution".to_string(),
        net: "Net monthly salary".to_string(),
        too_low: "Given value less than one!".to_string(),
        too_high: "Given value too high!".to_string(),
    }
}

fn expected_million_block() -> String {
    [
        "Contributions: \n\n",
        "Pension insurance contribution: 100000.00 Ft\n",
        "Cash Health Insurance contribution: 30000.00 Ft\n",
        "Health insurance contribution in kind: 40000.00 Ft\n",
        "SJJA (personal income tax): 150000.00 Ft\n",
        "Labor market contribution: 15000.00 Ft\n",
        "\n",
        "Net monthly salary: 665000.00 Ft",
    ]
    .concat()
}

#[test]
fn money_display_rounds_half_away_from_zero() {
    assert_eq!(money_to_string(0), "0.00");
    assert_eq!(money_to_string(1_500), "0.02");
    assert_eq!(money_to_string(1_499), "0.01");
    assert_eq!(money_to_string(500), "0.01");
    assert_eq!(money_to_string(499), "0.00");
    assert_eq!(money_to_string(-500), "-0.01");
    assert_eq!(money_to_string(-499), "0.00");
    assert_eq!(money_to_string(123_456_789), "1234.57");
    assert_eq!(money_to_string(10_000_000_000), "100000.00");
    assert_eq!(money_to_string(-485_000_000), "-4850.00");
}

#[test]
fn exact_decimal_trims_trailing_zeros() {
    assert_eq!(exact_decimal_string(0), "0");
    assert_eq!(exact_decimal_string(123), "0.00123");
    assert_eq!(exact_decimal_string(-150), "-0.0015");
    assert_eq!(exact_decimal_string(150_000), "1.5");
    assert_eq!(exact_decimal_string(100_100), "1.001");
    assert_eq!(exact_decimal_string(66_500_000_000), "665000");
    assert_eq!(exact_decimal_string(-433_500_000), "-4335");
    assert_eq!(exact_decimal_string(99_999), "0.99999");
}

#[test]
fn render_block_million() {
    let labels = english_labels();
    let b = compute(100_000_000, false, false).unwrap();
    assert_eq!(render_breakdown(&labels, &b), expected_million_block());
}

#[test]
fn calculate_with_labels_errors() {
    let labels = english_labels();
    let low = calculate_with_labels(0, false, false, &labels);
    assert_eq!(low, Err("Given value less than one!".to_string()));
    let high = calculate_with_labels(10_000_000_001, false, false, &labels);
    assert_eq!(high, Err("Given value too high!".to_string()));
}

#[test]
fn calculate_with_labels_million() {
    let labels = english_labels();
    let r = calculate_with_labels(100_000_000, false, false, &labels);
    assert_eq!(r, Ok(expected_million_block()));
}

// An empty catalog translates nothing, so every label falls back to its
// source string.
#[test]
fn empty_catalog_uses_source_strings() {
    let catalog = gettext::Catalog::empty();
    let r = calculate_netto_ber(100_000_000, false, false, &catalog);
    assert_eq!(r, Ok(expected_million_block()));
    let low = calculate_netto_ber(-7, false, false, &catalog);
    assert_eq!(low, Err("Given value less than one!".to_string()));
    let high = calculate_netto_ber(20_000_000_000, true, true, &catalog);
    assert_eq!(high, Err("Given value too high!".to_string()));
}

fn push_u32_le(out: &mut Vec<u8>, x: u32) {
    out.push((x & 0xff) as u8);
    out.push(((x >> 8) & 0xff) as u8);
    out.push(((x >> 16) & 0xff) as u8);
    out.push(((x >> 24) & 0xff) as u8);
}

// A minimal little-endian MO file holding one translation.
fn one_entry_mo(msg_id: &str, translation: &str) -> Vec<u8> {
    let mut mo: Vec<u8> = Vec::new();
    push_u32_le(&mut mo, 0x9504_12de); // magic
    push_u32_le(&mut mo, 0); // revision
    push_u32_le(&mut mo, 1); // number of strings
    push_u32_le(&mut mo, 28); // offset of the originals table
    push_u32_le(&mut mo, 36); // offset of the translations table
    push_u32_le(&mut mo, 0); // hash table size (unused)
    push_u32_le(&mut mo, 0); // hash table offset (unused)
    let orig_off = 44;
    let trans_off = orig_off + msg_id.len() + 1;
    push_u32_le(&mut mo, msg_id.len() as u32);
    push_u32_le(&mut mo, orig_off as u32);
    push_u32_le(&mut mo, translation.len() as u32);
    push_u32_le(&mut mo, trans_off as u32);
    mo.extend_from_slice(msg_id.as_bytes());
    mo.push(0);
    mo.extend_from_slice(translation.as_bytes());
    mo.push(0);
    mo
}

// A catalog parsed from an MO file translates the label it holds; the other
// labels fall back to their source strings.
#[test]
fn mo_catalog_translates_net_label() {
    let mo = one_entry_mo("Net monthly salary", "Nett\u{f3} havi fizet\u{e9}s");
    let catalog = gettext::Catalog::parse(&mo[..]).unwrap();
    let r = calculate_netto_ber(100_000_000, false, false, &catalog).unwrap();
    let expected = expected_million_block().replace(
        "Net monthly salary: ",
        "Nett\u{f3} havi fizet\u{e9}s: ",
    );
    assert_eq!(r, expected);
}
