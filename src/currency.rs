//! The ISO 4217 lookup of alphabetic currency codes.
use vstd::prelude::*;

verus! {

/// Whether `code` is an alphabetic code of the `iso_4217` crate's currency table.
pub uninterp spec fn is_iso_4217_alpha(code: Seq<char>) -> bool;

/// Relies on `iso_4217::CurrencyCode`'s `TryFrom<&str>`: it succeeds exactly on
/// the table's alphabetic codes, each of which is three uppercase ASCII letters.
#[verifier::external_body]
pub(crate) fn known_currency(code: &str) -> (r: bool)
    ensures
        r == is_iso_4217_alpha(code@),
        r ==> code@.len() == 3 && forall|i: int| 0 <= i < 3 ==> 'A' <= #[trigger] code@[i] <= 'Z',
{
    <iso_4217::CurrencyCode as std::convert::TryFrom<&str>>::try_from(code).is_ok()
}

} // verus!
