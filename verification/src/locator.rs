//! Resource locators, as the `url` crate represents them.

use url::Url;
use vstd::prelude::*;

verus! {

/// A parsed URL of the `url` crate, carried through as an opaque value.
#[verifier::external_type_specification]
#[verifier::external_body]
pub struct ExUrl(Url);

/// The serialization of `locator`: the text that `url` displays for it.
pub uninterp spec fn locator_text(locator: Url) -> Seq<char>;

/// `Url`'s `Display`, through `to_string`: it writes the URL's serialization,
/// which depends on the URL alone and is what `locator_text` names.
#[verifier::external_body]
pub(crate) fn locator_to_string(locator: &Url) -> (text: String)
    ensures
        text@ == locator_text(*locator),
{
    locator.to_string()
}

} // verus!
