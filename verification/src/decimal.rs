//! Arbitrary-precision prices.
//!
//! A price is a `bigdecimal::BigDecimal`. The library never looks inside one:
//! it carries the value from the scraper to the record and renders it once for
//! the transport form.

use bigdecimal::BigDecimal;
use vstd::prelude::*;

verus! {

#[verifier::external_type_specification]
#[verifier::external_body]
pub struct ExBigDecimal(bigdecimal::BigDecimal);

/// The text that `BigDecimal`'s `Display` gives for `d`.
pub uninterp spec fn decimal_text(d: BigDecimal) -> Seq<char>;

/// `BigDecimal::to_string`: the decimal's `Display` text. The text depends on
/// the value alone; the thresholds for exponent notation are fixed when the
/// `bigdecimal` crate is compiled.
#[verifier::external_body]
pub(crate) fn decimal_to_string(d: &BigDecimal) -> (text: String)
    ensures
        text@ == decimal_text(*d),
{
    d.to_string()
}

/// `BigDecimal::clone`: the derived clone, which copies digits and scale
/// unchanged.
#[verifier::external_body]
pub(crate) fn decimal_clone(d: &BigDecimal) -> (copy: BigDecimal)
    ensures
        copy == *d,
{
    d.clone()
}

} // verus!
