use spec_core::family::attestation::{
    attest_suite_output, parse_libtest_attestations, parse_libtest_line, CommandOutput, LibtestResult,
    SuiteDefinition,
};
use spec_core::family::error::XtaskError;
use spec_core::family::language::{validate_target_language, FamilyTargetLanguage, TargetLanguage};
use spec_core::family::paths::{FamilyId, PacketPaths};
use spec_core::family::report::{
    artifact_kind_for_path, certification_report_path, certify_attempt_path, failed_suite_names, first_line_or,
    hex_string, looks_like_utc_timestamp, normalize_path, normalize_report_for_write, prove_artifact_path,
    report_from_command_outputs, set_gates, set_overall, suite_report_from_output, validate_report_artifact,
    ArtifactKind, CertificationReport, FixtureDigest, GateId, PassFail, SuiteReport, PROVE_ARTIFACT_NAME,
};

fn output(exit_code: i32, stdout: &str, stderr: &str) -> CommandOutput {
    CommandOutput { exit_code, stdout: stdout.to_string(), stderr: stderr.to_string() }
}

#[test]
fn attestation_extracts_exact_sorted_libtest_names() {
    let suite = SuiteDefinition {
        name: "suite",
        command: &[],
        expected_tests: &["alpha::test_b", "alpha::test_a"],
    };
    let output = CommandOutput {
        exit_code: 0,
        stdout: [
            "Compiling crate v0.1.0",
            "test alpha::test_b ... ok",
            "random cargo noise",
            "test alpha::test_a ... ok",
            "test result: ok. 2 passed; 0 failed; 0 ignored; 0 measured; 0 filtered out",
        ]
        .join("\n"),
        stderr: String::new(),
    };

    let attested = attest_suite_output(suite, &output).unwrap();

    assert_eq!(attested, vec!["alpha::test_a".to_string(), "alpha::test_b".to_string()]);
}

#[test]
fn attestation_rejects_extra_or_ignored_tests() {
    let suite = SuiteDefinition {
        name: "suite",
        command: &[],
        expected_tests: &["alpha::test_a"],
    };
    let output = CommandOutput {
        exit_code: 0,
        stdout: ["test alpha::test_a ... ok", "test alpha::test_b ... ignored"].join("\n"),
        stderr: String::new(),
    };

    let failure = attest_suite_output(suite, &output).unwrap_err();

    assert_eq!(failure.attested_tests, vec!["alpha::test_a".to_string(), "alpha::test_b".to_string()]);
}

#[test]
fn normalize_report_for_write_derives_phase_and_overall_by_artifact_kind() {
    let family = FamilyId::parse("function.wrapper.pipeline.chain3.v1").unwrap();
    let mut report = CertificationReport::new(
        &family,
        FamilyTargetLanguage::Rust,
        "abc123".to_string(),
        "rustc 1.89.0".to_string(),
        "2026-04-27T18:00:00Z".to_string(),
    );
    set_gates(&mut report, true, true, true, false);

    let prove_report = normalize_report_for_write(PROVE_ARTIFACT_NAME, &report).unwrap();
    assert_eq!(prove_report.artifact_kind, ArtifactKind::ProveLatest);
    assert_eq!(prove_report.required_gates, vec![GateId::GateA, GateId::GateB, GateId::GateC]);
    assert_eq!(prove_report.phase_status, PassFail::Pass);
    assert_eq!(prove_report.overall_status, PassFail::Pass);

    let certify_report = normalize_report_for_write("attempt-20260427.json", &report).unwrap();
    assert_eq!(certify_report.artifact_kind, ArtifactKind::CertifyAttempt);
    assert_eq!(certify_report.required_gates, vec![GateId::GateA, GateId::GateB, GateId::GateC, GateId::GateD]);
    assert_eq!(certify_report.phase_status, PassFail::Fail);
    assert_eq!(certify_report.overall_status, PassFail::Fail);
}

fn sample_report() -> CertificationReport {
    let family = FamilyId::parse("function.wrapper.pipeline.v1").unwrap();
    let mut report = CertificationReport::new(
        &family,
        FamilyTargetLanguage::Rust,
        "abc123".to_string(),
        "rustc 1.89.0".to_string(),
        "2026-04-27T18:00:00Z".to_string(),
    );
    report.suites.push(SuiteReport {
        name: "unit".to_string(),
        command: vec!["cargo".to_string(), "test".to_string()],
        exit_code: 0,
        status: PassFail::Pass,
        attested_tests: vec!["b".to_string(), "a".to_string()],
    });
    set_gates(&mut report, true, true, true, true);
    report
}

#[test]
fn libtest_line_parses_each_result_word() {
    let ok = parse_libtest_line("  test a::b ... ok  ").unwrap();
    assert_eq!(ok.name, "a::b");
    assert_eq!(ok.result, LibtestResult::Passed);
    assert_eq!(parse_libtest_line("test c ... FAILED").unwrap().result, LibtestResult::Failed);
    assert_eq!(parse_libtest_line("test d ... ignored").unwrap().result, LibtestResult::Ignored);
    assert!(parse_libtest_line("test e ... bench").is_none());
    assert!(parse_libtest_line("tests e ... ok").is_none());
    assert!(parse_libtest_line("test e ok").is_none());
    assert!(parse_libtest_line("").is_none());
}

#[test]
fn libtest_line_splits_at_first_separator() {
    assert!(parse_libtest_line("test x ... y ... ok").is_none());
    assert!(parse_libtest_line("test x ... ok ... ok").is_none());
    let spaced = parse_libtest_line("test my test  ... ok").unwrap();
    assert_eq!(spaced.name, "my test");
}

#[test]
fn attestations_read_stdout_then_stderr_with_crlf() {
    let out = output(0, "test a ... ok\r\nnoise\r\n", "test b ... FAILED\n");
    let attested = parse_libtest_attestations(&out);
    assert_eq!(attested.len(), 2);
    assert_eq!(attested[0].name, "a");
    assert_eq!(attested[1].name, "b");
    assert_eq!(attested[1].result, LibtestResult::Failed);
}

#[test]
fn attestation_rejects_nonzero_exit_empty_output_duplicates_and_missing() {
    let suite = SuiteDefinition { name: "s", command: &["cargo", "test"], expected_tests: &["a", "b"] };
    let failed_exit = attest_suite_output(suite, &output(1, "test b ... ok\ntest a ... ok", "")).unwrap_err();
    assert_eq!(failed_exit.attested_tests, vec!["a".to_string(), "b".to_string()]);
    assert!(attest_suite_output(suite, &output(0, "nothing", "")).unwrap_err().attested_tests.is_empty());
    let dup = attest_suite_output(suite, &output(0, "test a ... ok\ntest b ... ok\ntest a ... ok", "")).unwrap_err();
    assert_eq!(dup.attested_tests, vec!["a".to_string(), "a".to_string(), "b".to_string()]);
    assert!(attest_suite_output(suite, &output(0, "test a ... ok", "")).is_err());
    assert!(attest_suite_output(suite, &output(0, "test a ... ok\ntest b ... FAILED", "")).is_err());
    assert_eq!(
        attest_suite_output(suite, &output(0, "test a ... ok", "test b ... ok")).unwrap(),
        vec!["a".to_string(), "b".to_string()]
    );
}

#[test]
fn suite_report_records_command_status_and_sorted_tests() {
    let suite = SuiteDefinition { name: "s", command: &["cargo", "test"], expected_tests: &["a", "b"] };
    let report = suite_report_from_output(suite, &output(0, "test b ... ok\ntest a ... ok", ""));
    assert_eq!(report.name, "s");
    assert_eq!(report.command, vec!["cargo".to_string(), "test".to_string()]);
    assert_eq!(report.status, PassFail::Pass);
    assert_eq!(report.attested_tests, vec!["a".to_string(), "b".to_string()]);
    let failing = suite_report_from_output(suite, &output(101, "test b ... ok", ""));
    assert_eq!(failing.exit_code, 101);
    assert_eq!(failing.status, PassFail::Fail);
}

#[test]
fn artifact_kind_follows_the_file_name() {
    assert_eq!(artifact_kind_for_path("a/b/prove.latest.json").unwrap(), ArtifactKind::ProveLatest);
    assert_eq!(artifact_kind_for_path("a/certification.report.json/").unwrap(), ArtifactKind::Certification);
    assert_eq!(artifact_kind_for_path("x/attempt-1.json/.").unwrap(), ArtifactKind::CertifyAttempt);
    match artifact_kind_for_path("a/prove.latest.json/..") {
        Err(XtaskError::WriteFailure(m)) => {
            assert_eq!(m, "failed to infer artifact kind from report path `a/prove.latest.json/..`")
        }
        other => panic!("unexpected {other:?}"),
    }
    assert!(artifact_kind_for_path("/").is_err());
    assert!(artifact_kind_for_path("report.json").is_err());
}

#[test]
fn normalize_sorts_attested_tests_and_refuses_unknown_paths() {
    let report = sample_report();
    let normalized = normalize_report_for_write("out/certification.report.json", &report).unwrap();
    assert_eq!(normalized.suites[0].attested_tests, vec!["a".to_string(), "b".to_string()]);
    assert_eq!(normalized.artifact_kind, ArtifactKind::Certification);
    assert_eq!(normalized.phase_status, PassFail::Pass);
    assert_eq!(normalized.generated_at, "2026-04-27T18:00:00Z");
    assert!(normalize_report_for_write("out/other.json", &report).is_err());
}

#[test]
fn set_overall_rederives_from_gates() {
    let mut report = sample_report();
    report.overall_status = PassFail::Fail;
    set_overall(&mut report, false);
    assert_eq!(report.overall_status, PassFail::Pass);
}

fn invalid_message(result: Result<(), XtaskError>) -> String {
    match result {
        Err(XtaskError::InvalidInput(m)) => m,
        other => panic!("unexpected {other:?}"),
    }
}

#[test]
fn validate_report_accepts_consistent_report() {
    let report = sample_report();
    let normalized = normalize_report_for_write("prove.latest.json", &report).unwrap();
    assert!(validate_report_artifact("artifacts/prove.latest.json", &normalized).is_ok());
}

#[test]
fn validate_report_names_each_problem() {
    let base = normalize_report_for_write("prove.latest.json", &sample_report()).unwrap();

    let mut r = base.clone();
    r.schema_version = 7;
    assert_eq!(invalid_message(validate_report_artifact("prove.latest.json", &r)), "report schema_version must be 3, found 7");

    let r = base.clone();
    assert_eq!(
        invalid_message(validate_report_artifact("certification.report.json", &r)),
        "report artifact_kind `prove_latest` does not match path `certification.report.json`"
    );

    let mut r = base.clone();
    r.family = "Bad".to_string();
    assert!(invalid_message(validate_report_artifact("prove.latest.json", &r)).starts_with("family id `Bad`"));

    let mut r = base.clone();
    r.target_language = TargetLanguage::Typescript;
    r.family = "function.other.v1".to_string();
    assert!(invalid_message(validate_report_artifact("prove.latest.json", &r)).starts_with("report target_language supports"));

    let mut r = base.clone();
    r.required_gates = vec![GateId::GateA];
    assert_eq!(
        invalid_message(validate_report_artifact("prove.latest.json", &r)),
        "report required_gates do not match artifact kind `prove_latest`"
    );

    let mut r = base.clone();
    r.generated_at = "2026-04-27 18:00:00Z".to_string();
    assert_eq!(
        invalid_message(validate_report_artifact("prove.latest.json", &r)),
        "report generated_at must be a UTC RFC3339 timestamp"
    );

    let mut r = base.clone();
    r.overall_status = PassFail::Fail;
    assert!(invalid_message(validate_report_artifact("prove.latest.json", &r)).starts_with("report phase_status"));

    let mut r = base.clone();
    r.suites.clear();
    assert_eq!(invalid_message(validate_report_artifact("prove.latest.json", &r)), "report suites[] must not be empty");

    let mut r = base.clone();
    r.suites[0].name = "  ".to_string();
    assert_eq!(
        invalid_message(validate_report_artifact("prove.latest.json", &r)),
        "report suites[] must include non-empty name and command"
    );

    let mut r = base.clone();
    r.fixture_digests.push(FixtureDigest {
        bucket: "aligned".to_string(),
        path: "fixtures/aligned/x".to_string(),
        sha256: "g".repeat(64),
    });
    assert!(invalid_message(validate_report_artifact("prove.latest.json", &r)).starts_with("report fixture_digests[]"));

    let mut r = base.clone();
    r.fixture_digests.push(FixtureDigest {
        bucket: "aligned".to_string(),
        path: "fixtures/aligned/x".to_string(),
        sha256: "aB".repeat(32),
    });
    assert!(validate_report_artifact("prove.latest.json", &r).is_ok());

    assert!(matches!(validate_report_artifact("prove.json", &base), Err(XtaskError::WriteFailure(_))));
}

#[test]
fn utc_timestamp_shape() {
    assert!(looks_like_utc_timestamp("2026-04-27T18:00:00Z"));
    assert!(!looks_like_utc_timestamp("2026-04-27T18:00:00"));
    assert!(!looks_like_utc_timestamp("2026-04-27t18:00:00Z"));
    assert!(!looks_like_utc_timestamp("2026-0a-27T18:00:00Z"));
}

#[test]
fn first_line_or_falls_back() {
    assert_eq!(first_line_or(&output(0, "  abc  \nnext", ""), "x".to_string()), "abc");
    assert_eq!(first_line_or(&output(1, "abc", ""), "x".to_string()), "x");
    assert_eq!(first_line_or(&output(0, "   \nabc", ""), "x".to_string()), "x");
    assert_eq!(first_line_or(&output(0, "", ""), "x".to_string()), "x");
}

#[test]
fn report_from_outputs_uses_fallbacks() {
    let family = FamilyId::parse("function.wrapper.pipeline.v1").unwrap();
    let report = report_from_command_outputs(
        &family,
        FamilyTargetLanguage::Typescript,
        &output(0, "deadbeef\n", ""),
        &output(127, "", "not found"),
        &output(1, "", ""),
    );
    assert_eq!(report.git_commit_sha, "deadbeef");
    assert_eq!(report.rust_toolchain, "unknown");
    assert_eq!(report.generated_at, "1970-01-01T00:00:00Z");
    assert_eq!(report.target_language, TargetLanguage::Typescript);
    assert_eq!(report.phase_status, PassFail::Fail);
}

#[test]
fn failed_suites_are_joined() {
    let mut report = sample_report();
    let mut failing = report.suites[0].clone();
    failing.name = "b".to_string();
    failing.status = PassFail::Fail;
    report.suites.push(failing.clone());
    failing.name = "c".to_string();
    report.suites.push(failing);
    assert_eq!(failed_suite_names(&report.suites), "b, c");
    assert_eq!(failed_suite_names(&report.suites[..1].to_vec()), "");
}

#[test]
fn artifact_paths_join_the_artifacts_directory() {
    let family = FamilyId::parse("function.wrapper.pipeline.v1").unwrap();
    let paths = PacketPaths::new("/ws", family);
    assert_eq!(
        prove_artifact_path(&paths),
        "/ws/.semantic-family-artifacts/semantic-families/function.wrapper.pipeline.v1/prove.latest.json"
    );
    assert!(certification_report_path(&paths).ends_with("/certification.report.json"));
    assert!(certify_attempt_path(&paths, "2026-04-27T18:00:00Z").ends_with("/attempt-20260427T180000Z.json"));
}

#[test]
fn hex_and_path_helpers() {
    assert_eq!(hex_string(&vec![0u8, 15, 16, 255]), "000f10ff");
    assert_eq!(normalize_path("a\\b/c"), "a/b/c");
}

#[test]
fn typescript_target_only_for_supported_families() {
    let supported = FamilyId::parse("function.wrapper.pipeline.v1").unwrap();
    let other = FamilyId::parse("function.wrapper.pipeline.chain3.v1").unwrap();
    assert!(validate_target_language(&supported, FamilyTargetLanguage::Typescript, "prove").is_ok());
    assert!(validate_target_language(&other, FamilyTargetLanguage::Rust, "prove").is_ok());
    match validate_target_language(&other, FamilyTargetLanguage::Typescript, "prove") {
        Err(XtaskError::InvalidInput(m)) => assert_eq!(
            m,
            "prove supports --target-language typescript only for function.arithmetic_leaf.monotone_up.v1 and function.wrapper.pipeline.v1"
        ),
        other => panic!("unexpected {other:?}"),
    }
}
