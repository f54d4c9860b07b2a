use incompat::first_match;
use incompat::matching;
use incompat::IncompatRecord;
use incompat::Query;
use incompat::Target;
use semver::Version;
use semver::VersionReq;

fn range(text: &str) -> VersionReq {
    VersionReq::parse(text).unwrap()
}

fn version(text: &str) -> Version {
    Version::parse(text).unwrap()
}

fn record(target: Target, conflicts: Target, reason: &'static str) -> IncompatRecord {
    IncompatRecord { target, conflicts, reason: Some(reason), references: None }
}

fn collection() -> Vec<IncompatRecord> {
    vec![
        record(Target::Crate("failure_derive", range("<1.0.7")), Target::Crate("quote", range(">=1.0.3")), "zero"),
        record(Target::Crate("failure_derive", range("<1.0.7")), Target::Rust(range("<1.31")), "one"),
        record(Target::Crate("syn", range("<0.15")), Target::Crate("quote", range(">=1.0.0")), "two"),
        record(Target::Rust(range(">=1.50")), Target::Crate("quote", range("<0.6")), "three"),
        record(Target::Crate("failure_derive", range(">=2")), Target::Rust(range("<1.40")), "four"),
    ]
}

fn reasons(found: &[&IncompatRecord]) -> Vec<&'static str> {
    found.iter().map(|record| record.reason.unwrap()).collect()
}

#[test]
fn answers_agree_with_the_six_questions() {
    for record in collection() {
        assert_eq!(record.answers(&Query::AffectsCrate("syn")), record.affects_crate("syn"));
        assert_eq!(
            record.answers(&Query::Affects("failure_derive", version("1.0.3"))),
            record.affects("failure_derive", version("1.0.3"))
        );
        assert_eq!(record.answers(&Query::HasConflicts("quote")), record.has_conflicts("quote"));
        assert_eq!(
            record.answers(&Query::Conflicts("quote", version("1.0.1"))),
            record.conflicts("quote", version("1.0.1"))
        );
        assert_eq!(record.answers(&Query::HasRustConflicts), record.has_rust_conflicts());
        assert_eq!(
            record.answers(&Query::RustConflicts(version("1.35.0"))),
            record.rust_conflicts(version("1.35.0"))
        );
    }
}

#[test]
fn matching_keeps_the_order_of_the_collection() {
    let records = collection();
    assert_eq!(reasons(&matching(&records, &Query::AffectsCrate("failure_derive"))), vec!["zero", "one", "four"]);
    assert_eq!(
        reasons(&matching(&records, &Query::Affects("failure_derive", version("1.0.3")))),
        vec!["zero", "one"]
    );
    assert_eq!(reasons(&matching(&records, &Query::Affects("failure_derive", version("2.1.0")))), vec!["four"]);
    assert_eq!(reasons(&matching(&records, &Query::HasConflicts("quote"))), vec!["zero", "two", "three"]);
    assert_eq!(reasons(&matching(&records, &Query::Conflicts("quote", version("1.0.1")))), vec!["two"]);
    assert_eq!(reasons(&matching(&records, &Query::Conflicts("quote", version("1.0.3")))), vec!["zero", "two"]);
    assert_eq!(reasons(&matching(&records, &Query::HasRustConflicts)), vec!["one", "four"]);
    assert_eq!(reasons(&matching(&records, &Query::RustConflicts(version("1.35.0")))), vec!["four"]);
    assert_eq!(reasons(&matching(&records, &Query::RustConflicts(version("1.30.0")))), vec!["one", "four"]);
}

#[test]
fn matching_nothing() {
    let records = collection();
    assert!(matching(&records, &Query::AffectsCrate("quote")).is_empty());
    assert!(matching(&records, &Query::Affects("syn", version("0.15.0"))).is_empty());
    assert!(matching(&records, &Query::RustConflicts(version("1.40.0"))).is_empty());
    let empty: Vec<IncompatRecord> = Vec::new();
    assert!(matching(&empty, &Query::HasRustConflicts).is_empty());
    assert!(first_match(&empty, &Query::HasRustConflicts).is_none());
    assert!(first_match(&records, &Query::AffectsCrate("quote")).is_none());
    assert!(first_match(&records, &Query::Conflicts("quote", version("0.6.0"))).is_none());
}

#[test]
fn matching_returns_the_records_themselves() {
    let records = collection();
    let found = matching(&records, &Query::HasRustConflicts);
    assert_eq!(found.len(), 2);
    assert!(std::ptr::eq(found[0], &records[1]));
    assert!(std::ptr::eq(found[1], &records[4]));
    let first = first_match(&records, &Query::HasConflicts("quote")).unwrap();
    assert!(std::ptr::eq(first, &records[0]));
    assert_eq!(records.len(), 5);
}

#[test]
fn first_match_is_the_first_of_the_matching() {
    let records = collection();
    let queries = [
        Query::AffectsCrate("failure_derive"),
        Query::AffectsCrate("syn"),
        Query::AffectsCrate("nothing"),
        Query::Affects("failure_derive", version("2.0.0")),
        Query::HasConflicts("quote"),
        Query::Conflicts("quote", version("0.5.0")),
        Query::Conflicts("quote", version("1.0.0")),
        Query::HasRustConflicts,
        Query::RustConflicts(version("1.39.0")),
        Query::RustConflicts(version("1.60.0")),
    ];
    for query in &queries {
        let all = matching(&records, query);
        let first = first_match(&records, query);
        assert_eq!(first.map(|record| record.reason), all.first().map(|record| record.reason));
    }
    assert_eq!(first_match(&records, &Query::AffectsCrate("syn")).unwrap().reason, Some("two"));
    assert_eq!(first_match(&records, &Query::Conflicts("quote", version("0.5.0"))).unwrap().reason, Some("three"));
    assert_eq!(first_match(&records, &Query::RustConflicts(version("1.39.0"))).unwrap().reason, Some("four"));
    assert_eq!(first_match(&records, &Query::HasRustConflicts).unwrap().reason, Some("one"));
}
