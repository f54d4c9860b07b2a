//! Supporting evidence for a record: a kind and a locator. References are
//! shown, never followed.

use crate::layout::lay_out_reference;
use crate::layout::reference_text;
use crate::locator::locator_text;
use crate::locator::locator_to_string;
use url::Url;
use vstd::prelude::*;

verus! {

/// A typed pointer to supporting evidence.
pub enum RefType {
    /// An issue report.
    Bug(Url),
    /// A change request.
    PullRequest(Url),
    /// One specific change.
    Commit(Url),
}

impl RefType {
    /// The label of the kind: `Bug`, `Pull` or `Commit`.
    pub open spec fn label(self) -> Seq<char> {
        match self {
            RefType::Bug(_) => "Bug"@,
            RefType::PullRequest(_) => "Pull"@,
            RefType::Commit(_) => "Commit"@,
        }
    }

    /// The locator that the reference wraps.
    pub open spec fn locator(self) -> Url {
        match self {
            RefType::Bug(locator) => locator,
            RefType::PullRequest(locator) => locator,
            RefType::Commit(locator) => locator,
        }
    }

    /// The rendering: `<Kind>: <locator>`.
    pub open spec fn text(self) -> Seq<char> {
        reference_text(self.label(), locator_text(self.locator()))
    }

    /// The label of the reference's kind.
    pub fn kind_label(&self) -> (label: &'static str)
        ensures
            label@ == self.label(),
    {
        match self {
            RefType::Bug(_) => "Bug",
            RefType::PullRequest(_) => "Pull",
            RefType::Commit(_) => "Commit",
        }
    }

    /// The locator of the reference, whatever its kind.
    pub fn url(&self) -> (locator: &Url)
        ensures
            *locator == self.locator(),
    {
        match self {
            RefType::Bug(locator) => locator,
            RefType::PullRequest(locator) => locator,
            RefType::Commit(locator) => locator,
        }
    }

    /// Renders the reference as `<Kind>: <locator>`.
    pub fn to_string(&self) -> (text: String)
        ensures
            text@ == self.text(),
    {
        let shown = locator_to_string(self.url());
        lay_out_reference(self.kind_label(), shown.as_str())
    }
}

} // verus!
