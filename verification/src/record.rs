//! The incompatibility record and its six questions.

use crate::layout::lay_out_record;
use crate::layout::line_views;
use crate::layout::reason_view;
use crate::layout::record_text;
use crate::reference::RefType;
use crate::target::Target;
use semver::Version;
use vstd::prelude::*;

verus! {

/// The statement that `target` conflicts with `conflicts`. The two sides are
/// not interchangeable: questions about what is affected read `target` only,
/// questions about what it conflicts with read `conflicts` only.
pub struct IncompatRecord {
    /// The affected side.
    pub target: Target,
    /// The conflicting side.
    pub conflicts: Target,
    /// A free-text explanation.
    pub reason: Option<&'static str>,
    /// Supporting evidence, in citation order.
    pub references: Option<Vec<RefType>>,
}

impl IncompatRecord {
    /// Both sides carry the invariant of their kind.
    pub open spec fn well_formed(self) -> bool {
        self.target.well_formed() && self.conflicts.well_formed()
    }

    /// The affected side is the package called exactly `name`.
    pub open spec fn spec_affects_crate(self, name: Seq<char>) -> bool {
        self.target.names(name)
    }

    /// The affected side is the package called exactly `name` and `version`
    /// lies within its range.
    pub open spec fn spec_affects(self, name: Seq<char>, version: Version) -> bool {
        self.target.covers_crate(name, version)
    }

    /// The conflicting side is the package called exactly `name`.
    pub open spec fn spec_has_conflicts(self, name: Seq<char>) -> bool {
        self.conflicts.names(name)
    }

    /// The conflicting side is the package called exactly `name` and
    /// `version` lies within its range.
    pub open spec fn spec_conflicts(self, name: Seq<char>, version: Version) -> bool {
        self.conflicts.covers_crate(name, version)
    }

    /// The conflicting side is the toolchain.
    pub open spec fn spec_has_rust_conflicts(self) -> bool {
        self.conflicts is Rust
    }

    /// The conflicting side is the toolchain and `version` lies within its
    /// range.
    pub open spec fn spec_rust_conflicts(self, version: Version) -> bool {
        self.conflicts.covers_rust(version)
    }

    /// The references to show, in citation order: none where the field is
    /// absent, the same as where it is empty.
    pub open spec fn cited(self) -> Seq<RefType> {
        match self.references {
            Some(references) => references@,
            None => Seq::empty(),
        }
    }

    /// The renderings of the references to show, in citation order.
    pub open spec fn cited_texts(self) -> Seq<Seq<char>> {
        self.cited().map_values(|reference: RefType| reference.text())
    }

    /// The rendering of the whole record.
    pub open spec fn text(self) -> Seq<char> {
        record_text(
            self.target.text(),
            self.conflicts.text(),
            reason_view(self.reason),
            self.cited_texts(),
        )
    }

    /// Tests the invariant of both sides.
    pub fn is_well_formed(&self) -> (ok: bool)
        ensures
            ok == self.well_formed(),
    {
        self.target.is_well_formed() && self.conflicts.is_well_formed()
    }

    /// Whether the affected side is the package called exactly
    /// `affected_crate`, in whatever range.
    pub fn affects_crate(&self, affected_crate: &str) -> (hit: bool)
        ensures
            hit == self.spec_affects_crate(affected_crate@),
    {
        self.target.is_crate(affected_crate)
    }

    /// Whether the affected side is the package called exactly
    /// `affected_crate` and `req` lies within its range.
    pub fn affects(&self, affected_crate: &str, req: Version) -> (hit: bool)
        ensures
            hit == self.spec_affects(affected_crate@, req),
    {
        self.target.contains_crate(affected_crate, &req)
    }

    /// Whether the conflicting side is the package called exactly
    /// `conflicting_crate`, in whatever range.
    pub fn has_conflicts(&self, conflicting_crate: &str) -> (hit: bool)
        ensures
            hit == self.spec_has_conflicts(conflicting_crate@),
    {
        self.conflicts.is_crate(conflicting_crate)
    }

    /// Whether the conflicting side is the package called exactly
    /// `conflicting_crate` and `req` lies within its range.
    pub fn conflicts(&self, conflicting_crate: &str, req: Version) -> (hit: bool)
        ensures
            hit == self.spec_conflicts(conflicting_crate@, req),
    {
        self.conflicts.contains_crate(conflicting_crate, &req)
    }

    /// Whether the conflicting side is the toolchain, in whatever range.
    pub fn has_rust_conflicts(&self) -> (hit: bool)
        ensures
            hit == self.spec_has_rust_conflicts(),
    {
        self.conflicts.is_rust()
    }

    /// Whether the conflicting side is the toolchain and `req` lies within
    /// its range.
    pub fn rust_conflicts(&self, req: Version) -> (hit: bool)
        ensures
            hit == self.spec_rust_conflicts(req),
    {
        self.conflicts.contains_rust(&req)
    }

    /// Renders each reference to show, in citation order.
    pub fn render_references(&self) -> (lines: Vec<String>)
        ensures
            line_views(lines@) == self.cited_texts(),
    {
        let mut lines: Vec<String> = Vec::new();
        if let Some(references) = &self.references {
            let mut i: usize = 0;
            while i < references.len()
                invariant
                    i <= references.len(),
                    self.references == Some(*references),
                    lines@.len() == i,
                    forall|k: int| 0 <= k < i ==> (#[trigger] lines@[k])@ == references@[k].text(),
                decreases references.len() - i,
            {
                lines.push(references[i].to_string());
                i += 1;
            }
        }
        lines
    }

    /// Renders the record: the line `<target> with <conflicts>`; where there
    /// is a reason, the line `- <reason>`; where there are references, the
    /// line `References:` and one line for each, in citation order.
    pub fn to_string(&self) -> (text: String)
        ensures
            text@ == self.text(),
    {
        let target = self.target.to_string();
        let conflicts = self.conflicts.to_string();
        let lines = self.render_references();
        lay_out_record(target.as_str(), conflicts.as_str(), self.reason, &lines)
    }
}

} // verus!
