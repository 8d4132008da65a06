use spec_core::family::error::XtaskError;
use spec_core::family::report::{fixture_digests_from, FixtureFile};

fn file(relative_to_fixtures: &str, bytes: &[u8]) -> FixtureFile {
    FixtureFile {
        path: format!("/work/semantic-families/demo/fixtures/{relative_to_fixtures}"),
        relative_to_packet: format!("fixtures\\{}", relative_to_fixtures.replace('/', "\\")),
        relative_to_fixtures: relative_to_fixtures.to_string(),
        bytes: bytes.to_vec(),
    }
}

#[test]
fn fixture_digests_are_sorted_by_path_with_hex_sha256() {
    let files = vec![
        file("real_examples/b.rs", b"abc"),
        file("boundary/a.rs", b""),
        file("real_examples/a.rs", b"abc"),
    ];
    let digests = fixture_digests_from(&files).unwrap();
    let paths: Vec<&str> = digests.iter().map(|d| d.path.as_str()).collect();
    assert_eq!(paths, vec!["fixtures/boundary/a.rs", "fixtures/real_examples/a.rs", "fixtures/real_examples/b.rs"]);
    assert_eq!(digests[0].bucket, "boundary");
    assert_eq!(digests[0].sha256, "e3b0c44298fc1c149afbf4c8996fb92427ae41e4649b934ca495991b7852b855");
    assert_eq!(digests[1].bucket, "real_examples");
    assert_eq!(digests[1].sha256, "ba7816bf8f01cfea414140de5dae2223b00361a396177a9cb410ff61f20015ad");
}

#[test]
fn fixture_digests_of_no_files_are_empty() {
    assert!(fixture_digests_from(&Vec::new()).unwrap().is_empty());
}

#[test]
fn fixture_without_bucket_component_is_refused() {
    let files = vec![file("real_examples/a.rs", b"abc"), file("", b"x")];
    match fixture_digests_from(&files) {
        Err(XtaskError::WriteFailure(m)) => {
            assert_eq!(m, "fixture path `/work/semantic-families/demo/fixtures/` is missing a bucket component")
        }
        other => panic!("unexpected {other:?}"),
    }
}
