//! What holds of every record, stated over the models that the functions'
//! own contracts use.

use crate::layout::headline;
use crate::layout::reason_line;
use crate::layout::reason_view;
use crate::layout::reference_block;
use crate::layout::reference_lines;
use crate::range::range_contains;
use crate::record::IncompatRecord;
use crate::registry::selection;
use crate::registry::Query;
use crate::target::Target;
use semver::Version;
use semver::VersionReq;
use vstd::prelude::*;

verus! {

/// A record whose affected side is the package `name` affects the package
/// that is asked for exactly when the two names are the same string. Neither
/// the range nor any version plays a part.
pub proof fn law_affects_crate_goes_by_name(
    record: IncompatRecord,
    name: &'static str,
    range: VersionReq,
    asked: Seq<char>,
)
    requires
        record.target == Target::Crate(name, range),
    ensures
        record.spec_affects_crate(asked) <==> asked == name@,
{
}

/// A record whose affected side is the package `name` affects `name` at a
/// version exactly when the version lies within the range, and affects no
/// package of another name at any version.
pub proof fn law_affects_goes_by_range(
    record: IncompatRecord,
    name: &'static str,
    range: VersionReq,
    asked: Seq<char>,
    version: Version,
)
    requires
        record.target == Target::Crate(name, range),
    ensures
        record.spec_affects(name@, version) <==> range_contains(range, version),
        asked != name@ ==> !record.spec_affects(asked, version),
{
}

/// A record whose affected side is the toolchain affects no package, under
/// any name and at any version.
pub proof fn law_toolchain_target_affects_no_crate(
    record: IncompatRecord,
    asked: Seq<char>,
    version: Version,
)
    requires
        record.target is Rust,
    ensures
        !record.spec_affects_crate(asked),
        !record.spec_affects(asked, version),
{
}

/// Questions about the affected side read the affected side alone.
pub proof fn law_affects_reads_target_only(
    one: IncompatRecord,
    other: IncompatRecord,
    asked: Seq<char>,
    version: Version,
)
    requires
        one.target == other.target,
    ensures
        one.spec_affects_crate(asked) == other.spec_affects_crate(asked),
        one.spec_affects(asked, version) == other.spec_affects(asked, version),
{
}

/// A record whose conflicting side is the package `name` conflicts with the
/// package that is asked for exactly when the two names are the same string.
/// Neither the range nor any version plays a part.
pub proof fn law_has_conflicts_goes_by_name(
    record: IncompatRecord,
    name: &'static str,
    range: VersionReq,
    asked: Seq<char>,
)
    requires
        record.conflicts == Target::Crate(name, range),
    ensures
        record.spec_has_conflicts(asked) <==> asked == name@,
{
}

/// A record whose conflicting side is the package `name` conflicts with
/// `name` at a version exactly when the version lies within the range, and
/// with no package of another name at any version.
pub proof fn law_conflicts_goes_by_range(
    record: IncompatRecord,
    name: &'static str,
    range: VersionReq,
    asked: Seq<char>,
    version: Version,
)
    requires
        record.conflicts == Target::Crate(name, range),
    ensures
        record.spec_conflicts(name@, version) <==> range_contains(range, version),
        asked != name@ ==> !record.spec_conflicts(asked, version),
{
}

/// A record whose conflicting side is the toolchain conflicts with no
/// package, under any name and at any version.
pub proof fn law_toolchain_conflict_names_no_crate(
    record: IncompatRecord,
    asked: Seq<char>,
    version: Version,
)
    requires
        record.conflicts is Rust,
    ensures
        !record.spec_has_conflicts(asked),
        !record.spec_conflicts(asked, version),
{
}

/// Questions about the conflicting side read the conflicting side alone:
/// the affected side, the reason and the references make no difference.
pub proof fn law_conflicts_reads_conflicts_only(
    one: IncompatRecord,
    other: IncompatRecord,
    asked: Seq<char>,
    version: Version,
)
    requires
        one.conflicts == other.conflicts,
    ensures
        one.spec_has_conflicts(asked) == other.spec_has_conflicts(asked),
        one.spec_conflicts(asked, version) == other.spec_conflicts(asked, version),
        one.spec_has_rust_conflicts() == other.spec_has_rust_conflicts(),
        one.spec_rust_conflicts(version) == other.spec_rust_conflicts(version),
{
}

/// A record has a toolchain conflict exactly when its conflicting side is
/// the toolchain, in whatever range.
pub proof fn law_has_rust_conflicts_goes_by_kind(record: IncompatRecord)
    ensures
        record.spec_has_rust_conflicts() <==> record.conflicts is Rust,
        record.spec_has_rust_conflicts() <==> !(record.conflicts is Crate),
{
}

/// A record whose conflicting side is the toolchain conflicts with a
/// toolchain version exactly when the version lies within the range.
pub proof fn law_rust_conflicts_goes_by_range(
    record: IncompatRecord,
    range: VersionReq,
    version: Version,
)
    requires
        record.conflicts == Target::Rust(range),
    ensures
        record.spec_rust_conflicts(version) <==> range_contains(range, version),
{
}

/// A record whose conflicting side is a package conflicts with no toolchain
/// version.
pub proof fn law_crate_conflict_names_no_toolchain(record: IncompatRecord, version: Version)
    requires
        record.conflicts is Crate,
    ensures
        !record.spec_has_rust_conflicts(),
        !record.spec_rust_conflicts(version),
{
}

/// The rendering is a function of what the record shows: two records with
/// the same sides, the same reason and the same references to show have the
/// same text. An absent list of references and an empty one show the same.
pub proof fn law_rendering_is_determined(one: IncompatRecord, other: IncompatRecord)
    requires
        one.target == other.target,
        one.conflicts == other.conflicts,
        reason_view(one.reason) == reason_view(other.reason),
        one.cited() == other.cited(),
    ensures
        one.text() == other.text(),
{
}

/// Every rendering begins with the first line, which is made of the two
/// sides alone.
pub proof fn law_first_line_is_fixed(record: IncompatRecord)
    ensures
        headline(record.target.text(), record.conflicts.text()).is_prefix_of(record.text()),
{
}

/// The reason switches exactly its own line: of two records that differ in
/// the reason alone, the one with a reason has the line `- <reason>` between
/// the first line and the references, and the one without has nothing there.
pub proof fn law_reason_toggles_its_line(with: IncompatRecord, without: IncompatRecord)
    requires
        with.target == without.target,
        with.conflicts == without.conflicts,
        with.cited() == without.cited(),
        with.reason is Some,
        without.reason is None,
    ensures
        with.text() == headline(with.target.text(), with.conflicts.text()) + ("- "@
            + with.reason->0@ + "\n"@) + reference_block(with.cited_texts()),
        without.text() == headline(with.target.text(), with.conflicts.text()) + reference_block(
            with.cited_texts(),
        ),
{
}

/// The references switch exactly their own block: of two records that differ
/// in the references alone, the one that has some ends with the line
/// `References:` and one line for each, after all that the other shows.
pub proof fn law_references_toggle_their_block(with: IncompatRecord, without: IncompatRecord)
    requires
        with.target == without.target,
        with.conflicts == without.conflicts,
        reason_view(with.reason) == reason_view(without.reason),
        with.cited().len() > 0,
        without.cited().len() == 0,
    ensures
        without.text() == headline(with.target.text(), with.conflicts.text()) + reason_line(
            reason_view(with.reason),
        ),
        with.text() == without.text() + ("References:\n"@ + reference_lines(with.cited_texts())),
{
}

/// A query over a collection selects records of the collection that answer
/// yes, and every record of the collection that answers yes is selected.
pub proof fn law_selection_is_exact(records: Seq<IncompatRecord>, query: Query)
    ensures
        selection(records, query).len() <= records.len(),
        forall|k: int|
            0 <= k < selection(records, query).len() ==> query.holds(
                #[trigger] selection(records, query)[k],
            ) && records.contains(selection(records, query)[k]),
        forall|k: int|
            0 <= k < records.len() && query.holds(records[k]) ==> selection(
                records,
                query,
            ).contains(#[trigger] records[k]),
{
    let pred = |record: IncompatRecord| query.holds(record);
    let chosen = records.filter(pred);
    records.lemma_filter_len(pred);
    assert forall|k: int| 0 <= k < chosen.len() implies query.holds(#[trigger] chosen[k])
        && records.contains(chosen[k]) by {
        records.lemma_filter_pred(pred, k);
        records.lemma_filter_contains_rev(pred, chosen[k]);
    }
    assert forall|k: int| 0 <= k < records.len() && query.holds(records[k]) implies chosen.contains(
        #[trigger] records[k],
    ) by {
        records.lemma_filter_contains(pred, k);
    }
}

} // verus!
