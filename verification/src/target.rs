//! What a record speaks of: a version range of a named package, or a version
//! range of the toolchain.

use crate::layout::crate_text;
use crate::layout::lay_out_crate;
use crate::layout::lay_out_rust;
use crate::layout::rust_text;
use crate::names::same_name;
use crate::range::range_contains;
use crate::range::range_text;
use crate::range::range_to_string;
use semver::Version;
use semver::VersionReq;
use vstd::prelude::*;

verus! {

/// One side of an incompatibility.
pub enum Target {
    /// A named package and a range of its versions.
    Crate(&'static str, VersionReq),
    /// A range of toolchain versions.
    Rust(VersionReq),
}

impl Target {
    /// A package target carries a name that is not empty.
    pub open spec fn well_formed(self) -> bool {
        match self {
            Target::Crate(name, _) => name@.len() > 0,
            Target::Rust(_) => true,
        }
    }

    /// The target is the package called exactly `name`.
    pub open spec fn names(self, name: Seq<char>) -> bool {
        match self {
            Target::Crate(own, _) => own@ == name,
            Target::Rust(_) => false,
        }
    }

    /// The target's version range.
    pub open spec fn range(self) -> VersionReq {
        match self {
            Target::Crate(_, range) => range,
            Target::Rust(range) => range,
        }
    }

    /// The target is the package called `name` and `version` lies within its
    /// range.
    pub open spec fn covers_crate(self, name: Seq<char>, version: Version) -> bool {
        self.names(name) && range_contains(self.range(), version)
    }

    /// The target is the toolchain and `version` lies within its range.
    pub open spec fn covers_rust(self, version: Version) -> bool {
        self is Rust && range_contains(self.range(), version)
    }

    /// The rendering: `crate(<name> <range>)` or `rust(<range>)`.
    pub open spec fn text(self) -> Seq<char> {
        match self {
            Target::Crate(name, range) => crate_text(name@, range_text(range)),
            Target::Rust(range) => rust_text(range_text(range)),
        }
    }

    /// Tests the invariant of a package target's name.
    pub fn is_well_formed(&self) -> (ok: bool)
        ensures
            ok == self.well_formed(),
    {
        match self {
            Target::Crate(name, _) => !name.is_empty(),
            Target::Rust(_) => true,
        }
    }

    /// Whether the target is the package called exactly `name`. The range
    /// plays no part.
    pub fn is_crate(&self, name: &str) -> (hit: bool)
        ensures
            hit == self.names(name@),
    {
        match self {
            Target::Crate(own, _) => same_name(own, name),
            Target::Rust(_) => false,
        }
    }

    /// Whether the target is the toolchain.
    pub fn is_rust(&self) -> (hit: bool)
        ensures
            hit == (self is Rust),
    {
        match self {
            Target::Crate(_, _) => false,
            Target::Rust(_) => true,
        }
    }

    /// The range to consult for the package called `name`: the target's own
    /// where it is that package, none otherwise.
    pub fn crate_range(&self, name: &str) -> (found: Option<&VersionReq>)
        ensures
            self.names(name@) ==> found == Some(&self.range()),
            !self.names(name@) ==> found is None,
    {
        match self {
            Target::Crate(own, range) => {
                if same_name(own, name) {
                    Some(range)
                } else {
                    None
                }
            },
            Target::Rust(_) => None,
        }
    }

    /// The range to consult for the toolchain: the target's own where it is
    /// the toolchain, none otherwise.
    pub fn rust_range(&self) -> (found: Option<&VersionReq>)
        ensures
            self is Rust ==> found == Some(&self.range()),
            self is Crate ==> found is None,
    {
        match self {
            Target::Crate(_, _) => None,
            Target::Rust(range) => Some(range),
        }
    }

    /// Whether the target is the package called `name` with `version` in its
    /// range.
    pub fn contains_crate(&self, name: &str, version: &Version) -> (hit: bool)
        ensures
            hit == self.covers_crate(name@, *version),
    {
        match self.crate_range(name) {
            Some(range) => range.matches(version),
            None => false,
        }
    }

    /// Whether the target is the toolchain with `version` in its range.
    pub fn contains_rust(&self, version: &Version) -> (hit: bool)
        ensures
            hit == self.covers_rust(*version),
    {
        match self.rust_range() {
            Some(range) => range.matches(version),
            None => false,
        }
    }

    /// Renders the target as `crate(<name> <range>)` or `rust(<range>)`.
    pub fn to_string(&self) -> (text: String)
        ensures
            text@ == self.text(),
    {
        match self {
            Target::Crate(name, range) => {
                let shown = range_to_string(range);
                lay_out_crate(name, shown.as_str())
            },
            Target::Rust(range) => {
                let shown = range_to_string(range);
                lay_out_rust(shown.as_str())
            },
        }
    }
}

} // verus!
