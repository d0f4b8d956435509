//! Net-salary calculator for Hungarian gross monthly salaries.
//!
//! A gross salary, given in fillér (hundredths of a forint), is split into
//! five statutory contributions and a net salary. All amounts are kept as
//! exact integers in hundred-thousandths of a forint, so that every
//! per-mille rate applied to a fillér amount stays exact. The breakdown can
//! be rendered as a localized multi-line text block and exported as a CSV
//! row.

pub mod calc;
pub mod catalog;
pub mod decimal;
pub mod display;
pub mod export;
pub mod rates;
