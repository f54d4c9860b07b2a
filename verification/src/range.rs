//! Version ranges and concrete versions, as the `semver` crate represents them.
//!
//! Whether a version lies within a range is decided by `semver` alone. The
//! library carries both values through unopened and rests on two facts: the
//! decision and the displayed text are functions of the values.

use semver::Version;
use semver::VersionReq;
use vstd::prelude::*;

verus! {

/// A range expression of `semver`, carried through as an opaque value.
#[verifier::external_type_specification]
#[verifier::external_body]
pub struct ExVersionReq(VersionReq);

/// A concrete version of `semver`, carried through as an opaque value.
#[verifier::external_type_specification]
#[verifier::external_body]
pub struct ExVersion(Version);

/// Whether `version` lies within `range`, as `semver` decides it.
pub uninterp spec fn range_contains(range: VersionReq, version: Version) -> bool;

/// The text that `semver` displays for `range`.
pub uninterp spec fn range_text(range: VersionReq) -> Seq<char>;

/// `VersionReq::matches` evaluates the range's comparators against the
/// version and touches nothing else: its result is what `range_contains`
/// names.
pub assume_specification[ VersionReq::matches ](range: &VersionReq, version: &Version) -> (hit: bool)
    ensures
        hit == range_contains(*range, *version),
;

/// `VersionReq`'s `Display`, through `to_string`: the text is written from
/// the range's comparators alone and is what `range_text` names.
#[verifier::external_body]
pub(crate) fn range_to_string(range: &VersionReq) -> (text: String)
    ensures
        text@ == range_text(*range),
{
    range.to_string()
}

} // verus!
