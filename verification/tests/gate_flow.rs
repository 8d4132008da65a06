use spec_core::family::gate_flow::{prove_step, ProveStage, ProveStep};
use spec_core::family::attestation::SuiteDefinition;
use spec_core::family::error::XtaskError;
use spec_core::family::gate_flow::{
    certify_result, finish_for_prove, prove_refused, record_certify_suites, record_prove_suites,
    validate_suite_ownership, GateResults, ProveOutcome,
};
use spec_core::family::language::FamilyTargetLanguage;
use spec_core::family::paths::FamilyId;
use spec_core::family::report::{ArtifactKind, CertificationReport, GateId, PassFail, SuiteReport};

fn report() -> CertificationReport {
    let family = FamilyId::parse("function.wrapper.pipeline.chain3.v1").unwrap();
    CertificationReport::new(
        &family,
        FamilyTargetLanguage::Rust,
        "abc".to_string(),
        "rustc".to_string(),
        "2026-04-27T18:00:00Z".to_string(),
    )
}

fn suite(name: &str, status: PassFail) -> SuiteReport {
    SuiteReport {
        name: name.to_string(),
        command: vec!["cargo".to_string()],
        exit_code: if status == PassFail::Pass { 0 } else { 1 },
        status,
        attested_tests: Vec::new(),
    }
}

#[test]
fn gate_results_set_and_satisfy() {
    let mut gates = GateResults { gate_a: true, gate_b: true, gate_c: true, gate_d: false };
    assert!(gates.satisfies(ArtifactKind::ProveLatest));
    assert!(!gates.satisfies(ArtifactKind::Certification));
    gates.set(GateId::GateD, true);
    assert!(gates.is_pass(GateId::GateD));
    assert!(gates.satisfies(ArtifactKind::CertifyAttempt));
    gates.set(GateId::GateB, false);
    assert!(!gates.satisfies(ArtifactKind::ProveLatest));
    let from = GateResults::from_report(&report());
    assert!(!from.gate_a && !from.gate_d);
}

#[test]
fn suite_ownership_requires_slug() {
    let owned = vec![SuiteDefinition {
        name: "m21_chain3_unit",
        command: &["cargo", "test"],
        expected_tests: &["m21_chain3_a", "tests::m21_chain3_b"],
    }];
    assert!(validate_suite_ownership("function.wrapper.pipeline.chain3.v1", "m21_chain3_", &owned, "family prove").is_ok());

    let foreign = vec![SuiteDefinition { name: "other", command: &[], expected_tests: &[] }];
    match validate_suite_ownership("fam", "m21_chain3_", &foreign, "family prove") {
        Err(XtaskError::InvalidInput(m)) => assert_eq!(
            m,
            "family prove suite `other` is not owned by family `fam`; suite names must include `m21_chain3_`"
        ),
        other => panic!("unexpected {other:?}"),
    }

    let stray_test = vec![SuiteDefinition {
        name: "m21_chain3_unit",
        command: &[],
        expected_tests: &["m21_chain3_a", "stray", "also_stray"],
    }];
    match validate_suite_ownership("fam", "m21_chain3_", &stray_test, "family certify") {
        Err(XtaskError::InvalidInput(m)) => assert_eq!(
            m,
            "family certify suite `m21_chain3_unit` includes expected test `stray` that is not owned by family `fam`; expected test names must include `m21_chain3_`"
        ),
        other => panic!("unexpected {other:?}"),
    }
}

#[test]
fn prove_suites_decide_gates_and_outcome() {
    let mut r = report();
    let outcome = record_prove_suites(
        &mut r,
        vec![
            (GateId::GateA, suite("a", PassFail::Pass)),
            (GateId::GateB, suite("b", PassFail::Pass)),
            (GateId::GateC, suite("c", PassFail::Pass)),
        ],
    );
    assert!(matches!(outcome, ProveOutcome::Passed));
    assert_eq!(r.phase_status, PassFail::Pass);
    assert_eq!(r.suites.len(), 3);

    let mut r = report();
    let outcome = record_prove_suites(
        &mut r,
        vec![
            (GateId::GateA, suite("a", PassFail::Pass)),
            (GateId::GateB, suite("b", PassFail::Fail)),
            (GateId::GateC, suite("c", PassFail::Pass)),
            (GateId::GateC, suite("c2", PassFail::Fail)),
        ],
    );
    match outcome {
        ProveOutcome::SuiteFailure(m) => assert_eq!(m, "prove suite failure: b, c2"),
        other => panic!("unexpected {other:?}"),
    }
    assert_eq!(r.gates.gate_c.status, PassFail::Fail);
    assert_eq!(r.overall_status, PassFail::Fail);
}

#[test]
fn refused_prove_fails_every_gate() {
    let mut r = report();
    let outcome = prove_refused(&mut r, "packet missing".to_string());
    assert!(matches!(outcome, ProveOutcome::InvalidInput(ref m) if m == "packet missing"));
    assert_eq!(r.gates.gate_a.status, PassFail::Fail);
    assert!(matches!(finish_for_prove(outcome), Err(XtaskError::InvalidInput(_))));
    assert!(matches!(
        finish_for_prove(ProveOutcome::SuiteFailure("x".to_string())),
        Err(XtaskError::ProveSuiteFailure(_))
    ));
    assert!(finish_for_prove(ProveOutcome::Passed).is_ok());
}

fn proved_report() -> CertificationReport {
    let mut r = report();
    record_prove_suites(
        &mut r,
        vec![
            (GateId::GateA, suite("a", PassFail::Pass)),
            (GateId::GateB, suite("b", PassFail::Pass)),
            (GateId::GateC, suite("c", PassFail::Pass)),
        ],
    );
    r.artifact_kind = ArtifactKind::CertifyAttempt;
    r
}

#[test]
fn certify_suites_decide_gate_d() {
    let mut r = proved_report();
    assert!(record_certify_suites(&mut r, vec![suite("d", PassFail::Pass)], None).is_none());
    assert_eq!(r.gates.gate_d.status, PassFail::Pass);
    assert_eq!(r.suites.len(), 4);
    assert_eq!(r.required_gates.len(), 4);

    let mut r = proved_report();
    match record_certify_suites(&mut r, vec![suite("d", PassFail::Fail), suite("e", PassFail::Fail)], None) {
        Some(XtaskError::CertifySuiteFailure(m)) => assert_eq!(m, "certify suite failure: d, e"),
        other => panic!("unexpected {other:?}"),
    }

    let mut r = proved_report();
    match record_certify_suites(&mut r, vec![suite("d", PassFail::Pass)], Some("precedence drift".to_string())) {
        Some(XtaskError::CertifySuiteFailure(m)) => assert_eq!(m, "certify gate failure: gate_d (precedence drift)"),
        other => panic!("unexpected {other:?}"),
    }
    assert_eq!(r.overall_status, PassFail::Fail);
}

#[test]
fn certify_result_prefers_certify_failure() {
    assert!(certify_result(None, ProveOutcome::Passed).is_ok());
    assert!(matches!(
        certify_result(Some(XtaskError::Internal("x".to_string())), ProveOutcome::Passed),
        Err(XtaskError::Internal(_))
    ));
    assert!(matches!(
        certify_result(None, ProveOutcome::SuiteFailure("p".to_string())),
        Err(XtaskError::CertifyProveFailure(_))
    ));
}

#[test]
fn prove_checks_run_in_order_and_refuse_or_fail_by_stage() {
    assert!(matches!(prove_step(ProveStage::FamilyId, Ok(())), ProveStep::Next(ProveStage::TargetLanguage)));
    assert!(matches!(prove_step(ProveStage::PacketPath, Ok(())), ProveStep::Next(ProveStage::FixtureDigests)));
    assert!(matches!(prove_step(ProveStage::Layout, Ok(())), ProveStep::RunSuites));
    let bad = || XtaskError::InvalidInput("bad".to_string());
    assert!(matches!(prove_step(ProveStage::FamilyId, Err(bad())), ProveStep::Fail(XtaskError::InvalidInput(m)) if m == "bad"));
    assert!(matches!(prove_step(ProveStage::FixtureDigests, Err(bad())), ProveStep::Fail(_)));
    assert!(matches!(prove_step(ProveStage::Manifest, Err(bad())), ProveStep::Refuse(m) if m == "bad"));
    assert!(matches!(prove_step(ProveStage::PacketPath, Err(bad())), ProveStep::Refuse(_)));
}
