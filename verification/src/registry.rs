//! Questions put to a whole collection of records.
//!
//! The collection belongs to the caller and is only read: a query returns
//! references into it, in the order in which the records stand.

use crate::record::IncompatRecord;
use semver::Version;
use vstd::prelude::*;

verus! {

/// One of the six questions that a record answers, with its arguments.
pub enum Query<'a> {
    /// Is the affected side the package of this name?
    AffectsCrate(&'a str),
    /// Is the affected side the package of this name, at this version?
    Affects(&'a str, Version),
    /// Is the conflicting side the package of this name?
    HasConflicts(&'a str),
    /// Is the conflicting side the package of this name, at this version?
    Conflicts(&'a str, Version),
    /// Is the conflicting side the toolchain?
    HasRustConflicts,
    /// Is the conflicting side the toolchain, at this version?
    RustConflicts(Version),
}

impl<'a> Query<'a> {
    /// The answer of `record` to the question.
    pub open spec fn holds(self, record: IncompatRecord) -> bool {
        match self {
            Query::AffectsCrate(name) => record.spec_affects_crate(name@),
            Query::Affects(name, version) => record.spec_affects(name@, version),
            Query::HasConflicts(name) => record.spec_has_conflicts(name@),
            Query::Conflicts(name, version) => record.spec_conflicts(name@, version),
            Query::HasRustConflicts => record.spec_has_rust_conflicts(),
            Query::RustConflicts(version) => record.spec_rust_conflicts(version),
        }
    }
}

/// The records that answer yes, in the order in which they stand.
pub open spec fn selection(records: Seq<IncompatRecord>, query: Query) -> Seq<IncompatRecord> {
    records.filter(|record: IncompatRecord| query.holds(record))
}

/// The records that a sequence of references points to.
pub open spec fn pointees(found: Seq<&IncompatRecord>) -> Seq<IncompatRecord> {
    found.map_values(|record: &IncompatRecord| *record)
}

impl IncompatRecord {
    /// Answers one question about this record.
    pub fn answers(&self, query: &Query) -> (hit: bool)
        ensures
            hit == query.holds(*self),
    {
        match query {
            Query::AffectsCrate(name) => self.target.is_crate(name),
            Query::Affects(name, version) => self.target.contains_crate(name, version),
            Query::HasConflicts(name) => self.conflicts.is_crate(name),
            Query::Conflicts(name, version) => self.conflicts.contains_crate(name, version),
            Query::HasRustConflicts => self.conflicts.is_rust(),
            Query::RustConflicts(version) => self.conflicts.contains_rust(version),
        }
    }
}

/// Where no record before `at` answers yes and the one at `at` does, that
/// record is the first of the selection.
pub proof fn lemma_first_of_selection(records: Seq<IncompatRecord>, query: Query, at: int)
    requires
        0 <= at < records.len(),
        query.holds(records[at]),
        forall|k: int| 0 <= k < at ==> !query.holds(#[trigger] records[k]),
    ensures
        selection(records, query).len() > 0,
        selection(records, query)[0] == records[at],
{
    let pred = |record: IncompatRecord| query.holds(record);
    let before = records.take(at);
    let rest = records.skip(at);
    let tail = rest.drop_first();
    assert(records =~= before + rest);
    assert(rest =~= seq![records[at]] + tail);
    before.lemma_all_neg_filter_empty(pred);
    Seq::filter_distributes_over_add(before, rest, pred);
    Seq::filter_distributes_over_add(seq![records[at]], tail, pred);
    assert(seq![records[at]].filter(pred) =~= seq![records[at]]) by {
        reveal(Seq::filter);
    }
}

/// Where no record answers yes, the selection is empty.
pub proof fn lemma_empty_selection(records: Seq<IncompatRecord>, query: Query)
    requires
        forall|k: int| 0 <= k < records.len() ==> !query.holds(#[trigger] records[k]),
    ensures
        selection(records, query).len() == 0,
{
    let pred = |record: IncompatRecord| query.holds(record);
    records.lemma_all_neg_filter_empty(pred);
}

/// Every record that answers yes to `query`, in the order of the collection.
pub fn matching<'r>(records: &'r [IncompatRecord], query: &Query) -> (found: Vec<&'r IncompatRecord>)
    ensures
        pointees(found@) == selection(records@, *query),
{
    let mut found: Vec<&'r IncompatRecord> = Vec::new();
    let mut i: usize = 0;
    proof {
        lemma_empty_selection(records@.take(0), *query);
    }
    while i < records.len()
        invariant
            i <= records.len(),
            pointees(found@) =~= selection(records@.take(i as int), *query),
        decreases records.len() - i,
    {
        let record = &records[i];
        let ghost pred = |record: IncompatRecord| query.holds(record);
        proof {
            assert(records@.take(i + 1) =~= records@.take(i as int).push(records@[i as int]));
            records@.take(i as int).lemma_filter_push(records@[i as int], pred);
        }
        if record.answers(query) {
            found.push(record);
        }
        i += 1;
    }
    assert(records@.take(i as int) =~= records@);
    found
}

/// The first record that answers yes to `query`, if there is one.
pub fn first_match<'r>(
    records: &'r [IncompatRecord],
    query: &Query,
) -> (found: Option<&'r IncompatRecord>)
    ensures
        selection(records@, *query).len() > 0 ==> found == Some(&selection(records@, *query)[0]),
        selection(records@, *query).len() == 0 ==> found is None,
{
    let mut i: usize = 0;
    while i < records.len()
        invariant
            i <= records.len(),
            forall|k: int| 0 <= k < i ==> !query.holds(#[trigger] records@[k]),
        decreases records.len() - i,
    {
        let record = &records[i];
        if record.answers(query) {
            proof {
                lemma_first_of_selection(records@, *query, i as int);
            }
            return Some(record);
        }
        i += 1;
    }
    proof {
        lemma_empty_selection(records@, *query);
    }
    None
}

} // verus!
