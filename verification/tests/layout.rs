use spec_core::family::error::XtaskError;
use spec_core::family::layout::{
    check_bucket_root_entries, check_candidate_mentions, check_case_count, check_fixture_directory_set,
    classify_units_entry, expected_suffix_for_bucket, is_ignored_derived_units_artifact, packet_name, UnitsEntry,
};

fn message<T>(r: Result<T, XtaskError>) -> String {
    match r {
        Err(XtaskError::InvalidInput(m)) => m,
        Err(other) => panic!("unexpected error {other:?}"),
        Ok(_) => panic!("expected an error"),
    }
}

#[test]
fn buckets_have_their_suffixes() {
    assert_eq!(expected_suffix_for_bucket("aligned"), "_aligned.unit.spec");
    assert_eq!(expected_suffix_for_bucket("unsupported_near_miss"), "_unsupported_near_miss.unit.spec");
    assert_eq!(expected_suffix_for_bucket("other"), ".unit.spec");
}

#[test]
fn packet_names_sit_below_the_family_root() {
    assert_eq!(packet_name("/ws/semantic-families/fam.v1/fixtures/aligned"), "fam.v1");
    assert_eq!(packet_name("semantic-families/fam.v1"), "fam.v1");
    assert_eq!(packet_name("/ws/other/fam.v1"), "<unknown>");
    assert_eq!(packet_name("semantic-families/.."), "<unknown>");
}

#[test]
fn derived_units_artifacts_are_ignored() {
    assert!(is_ignored_derived_units_artifact(5, ".gitignore"));
    assert!(is_ignored_derived_units_artifact(2, "x.spec.passport.json"));
    assert!(is_ignored_derived_units_artifact(2, "x.test.evidence.json"));
    assert!(!is_ignored_derived_units_artifact(3, "x.spec.passport.json"));
    assert!(!is_ignored_derived_units_artifact(2, "x.unit.spec"));
}

#[test]
fn fixture_directories_must_be_the_required_buckets() {
    let dirs = |names: &[&str]| names.iter().map(|n| (n.to_string(), true)).collect::<Vec<_>>();
    assert!(check_fixture_directory_set(
        "fx",
        &dirs(&["drift", "aligned", "unsupported_near_miss", "under_specified"])
    )
    .is_ok());
    assert_eq!(
        message(check_fixture_directory_set("fx", &dirs(&["aligned", "drift"]))),
        "fixtures directory `fx` must contain exactly [\"aligned\", \"drift\", \"under_specified\", \"unsupported_near_miss\"]"
    );
    assert_eq!(
        message(check_fixture_directory_set(
            "fx",
            &vec![("aligned".to_string(), true), ("notes.md".to_string(), false)]
        )),
        "fixtures directory `fx` must contain only bucket directories; found `notes.md`"
    );
}

#[test]
fn bucket_roots_hold_exactly_three_entries() {
    let names = |v: &[&str]| v.iter().map(|n| n.to_string()).collect::<Vec<_>>();
    assert!(check_bucket_root_entries("b", &names(&["units", "src", "Cargo.toml"])).is_ok());
    assert_eq!(
        message(check_bucket_root_entries("b", &names(&["units", "src", "Cargo.toml", "x"]))),
        "bucket `b` must contain exactly Cargo.toml, src/, and units/"
    );
}

fn entry(path: &str, count: usize, name: Option<&str>) -> UnitsEntry {
    UnitsEntry { path: path.to_string(), component_count: count, file_name: name.map(|n| n.to_string()) }
}

#[test]
fn units_entries_are_classified() {
    let mut seen = Vec::new();
    let suffix = "_aligned.unit.spec";
    assert!(classify_units_entry(&entry("u/p/a_aligned.unit.spec", 2, Some("a_aligned.unit.spec")), suffix, "pk", &mut seen)
        .unwrap());
    assert_eq!(seen, vec!["a_aligned.unit.spec".to_string()]);
    assert!(!classify_units_entry(&entry("u/p/b_drift.unit.spec", 2, Some("b_drift.unit.spec")), suffix, "pk", &mut seen)
        .unwrap());
    assert!(!classify_units_entry(&entry("u/p/.gitignore", 2, Some(".gitignore")), suffix, "pk", &mut seen).unwrap());
    assert_eq!(
        message(classify_units_entry(&entry("u/p/a_aligned.unit.spec", 2, Some("a_aligned.unit.spec")), suffix, "pk", &mut seen)),
        "duplicate fixture filename `a_aligned.unit.spec` found across packet `pk`"
    );
    assert_eq!(
        message(classify_units_entry(&entry("u/a.unit.spec", 1, Some("a.unit.spec")), suffix, "pk", &mut seen)),
        "units entry `u/a.unit.spec` must match units/<namespace>/<case>.unit.spec"
    );
    assert_eq!(
        message(classify_units_entry(&entry("u/p/a.txt", 2, Some("a.txt")), suffix, "pk", &mut seen)),
        "units entry `u/p/a.txt` must end with `.unit.spec`"
    );
    assert_eq!(
        message(classify_units_entry(&entry("u/p/?", 2, None), suffix, "pk", &mut seen)),
        "units entry `u/p/?` has a non-UTF-8 filename"
    );
}

#[test]
fn buckets_need_enough_cases() {
    assert!(check_case_count("aligned", 1, 1).is_ok());
    assert_eq!(
        message(check_case_count("aligned", 2, 1)),
        "bucket `aligned` must contain at least 2 `.unit.spec` file(s)"
    );
}

#[test]
fn candidate_notes_name_each_case_once() {
    let cases = vec!["fixtures/a.unit.spec".to_string(), "fixtures/b.unit.spec".to_string()];
    assert!(check_candidate_mentions("- `fixtures/a.unit.spec`\n- `fixtures/b.unit.spec`\n", "pk", &cases).is_ok());
    assert_eq!(
        message(check_candidate_mentions("fixtures/a.unit.spec fixtures/a.unit.spec", "pk", &cases)),
        "candidate.md for `pk` must mention locked starter case `fixtures/a.unit.spec` exactly once, found 2"
    );
    assert_eq!(
        message(check_candidate_mentions("fixtures/a.unit.spec", "pk", &cases)),
        "candidate.md for `pk` must mention locked starter case `fixtures/b.unit.spec` exactly once, found 0"
    );
    assert!(check_candidate_mentions("aaa", "pk", &vec!["aa".to_string()]).is_ok());
    assert_eq!(
        message(check_candidate_mentions("aaaa", "pk", &vec!["aa".to_string()])),
        "candidate.md for `pk` must mention locked starter case `aa` exactly once, found 2"
    );
}
