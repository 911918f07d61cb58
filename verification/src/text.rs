//! Case mapping and number formatting of the standard library, behind
//! contracts that name their results.

use vstd::prelude::*;

verus! {

/// The text that `str::to_uppercase` gives for a text.
pub uninterp spec fn uppercase_text(text: Seq<char>) -> Seq<char>;

/// The text that `str::to_lowercase` gives for a text.
pub uninterp spec fn lowercase_text(text: Seq<char>) -> Seq<char>;

/// The text that `i64::to_string` gives for a number.
pub uninterp spec fn decimal_text(value: int) -> Seq<char>;

/// Calls `str::to_uppercase`. Nothing is claimed beyond the result being a
/// function of the text.
#[verifier::external_body]
pub(crate) fn uppercase(text: &str) -> (r: String)
    ensures
        r@ == uppercase_text(text@),
{
    text.to_uppercase()
}

/// Calls `str::to_lowercase`. Nothing is claimed beyond the result being a
/// function of the text.
#[verifier::external_body]
pub(crate) fn lowercase(text: &str) -> (r: String)
    ensures
        r@ == lowercase_text(text@),
{
    text.to_lowercase()
}

/// Calls `i64::to_string`. Nothing is claimed beyond the result being a
/// function of the number.
#[verifier::external_body]
pub(crate) fn decimal(value: i64) -> (r: String)
    ensures
        r@ == decimal_text(value as int),
{
    value.to_string()
}

} // verus!
