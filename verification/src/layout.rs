//! The diagnostic text of targets, references and records, as a layout over
//! strings that are already rendered.
//!
//! Nothing here looks inside a range or a locator: the callers hand in their
//! texts, and these functions place them.

use vstd::prelude::*;

verus! {

/// `crate(<name> <range>)`.
pub open spec fn crate_text(name: Seq<char>, range: Seq<char>) -> Seq<char> {
    "crate("@ + name + " "@ + range + ")"@
}

/// `rust(<range>)`.
pub open spec fn rust_text(range: Seq<char>) -> Seq<char> {
    "rust("@ + range + ")"@
}

/// `<Kind>: <locator>`.
pub open spec fn reference_text(label: Seq<char>, locator: Seq<char>) -> Seq<char> {
    label + ": "@ + locator
}

/// The mandatory first line: `<target> with <conflicts>` and its terminator.
pub open spec fn headline(target: Seq<char>, conflicts: Seq<char>) -> Seq<char> {
    target + " with "@ + conflicts + "\n"@
}

/// The line `- <reason>` with its terminator, or nothing without a reason.
pub open spec fn reason_line(reason: Option<Seq<char>>) -> Seq<char> {
    match reason {
        Some(words) => "- "@ + words + "\n"@,
        None => Seq::empty(),
    }
}

/// One terminated line per reference, in the order given.
pub open spec fn reference_lines(references: Seq<Seq<char>>) -> Seq<char>
    decreases references.len(),
{
    if references.len() == 0 {
        Seq::empty()
    } else {
        reference_lines(references.drop_last()) + references.last() + "\n"@
    }
}

/// The `References:` header followed by the reference lines, or nothing where
/// there is no reference to show.
pub open spec fn reference_block(references: Seq<Seq<char>>) -> Seq<char> {
    if references.len() == 0 {
        Seq::empty()
    } else {
        "References:\n"@ + reference_lines(references)
    }
}

/// The whole text of a record: first line, reason line, reference block.
pub open spec fn record_text(
    target: Seq<char>,
    conflicts: Seq<char>,
    reason: Option<Seq<char>>,
    references: Seq<Seq<char>>,
) -> Seq<char> {
    headline(target, conflicts) + reason_line(reason) + reference_block(references)
}

/// The view of an optional string slice.
pub open spec fn reason_view(reason: Option<&str>) -> Option<Seq<char>> {
    match reason {
        Some(words) => Some(words@),
        None => None,
    }
}

/// The views of a sequence of strings, in order.
pub open spec fn line_views(lines: Seq<String>) -> Seq<Seq<char>> {
    lines.map_values(|line: String| line@)
}

pub fn lay_out_crate(name: &str, range: &str) -> (text: String)
    ensures
        text@ == crate_text(name@, range@),
{
    let mut text = String::from_str("crate(");
    text.append(name);
    text.append(" ");
    text.append(range);
    text.append(")");
    text
}

pub fn lay_out_rust(range: &str) -> (text: String)
    ensures
        text@ == rust_text(range@),
{
    let mut text = String::from_str("rust(");
    text.append(range);
    text.append(")");
    text
}

pub fn lay_out_reference(label: &str, locator: &str) -> (text: String)
    ensures
        text@ == reference_text(label@, locator@),
{
    let mut text = String::from_str(label);
    text.append(": ");
    text.append(locator);
    text
}

pub fn lay_out_record(
    target: &str,
    conflicts: &str,
    reason: Option<&str>,
    references: &Vec<String>,
) -> (text: String)
    ensures
        text@ == record_text(target@, conflicts@, reason_view(reason), line_views(references@)),
{
    let mut text = String::from_str(target);
    text.append(" with ");
    text.append(conflicts);
    text.append("\n");
    if let Some(words) = reason {
        text.append("- ");
        text.append(words);
        text.append("\n");
    }
    if references.len() > 0 {
        text.append("References:\n");
        let ghost before = text@;
        let mut i: usize = 0;
        while i < references.len()
            invariant
                i <= references.len(),
                text@ == before + reference_lines(line_views(references@.take(i as int))),
            decreases references.len() - i,
        {
            proof {
                let done = references@.take(i as int);
                let next = references@.take(i + 1);
                assert(line_views(next).drop_last() =~= line_views(done));
            }
            text.append(references[i].as_str());
            text.append("\n");
            i += 1;
        }
        assert(references@.take(i as int) =~= references@);
    }
    text
}

} // verus!
