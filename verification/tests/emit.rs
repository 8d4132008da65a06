use spec_core::family::artifacts::{
    DecisionReason, DecisionStatus, DecisionSummary, EvidenceState, EvidenceSummary,
    FamilyRecommendationAnalysisArtifact, PromotionArtifactKind, RecommendationDelta, RecommendationStatus,
};
use spec_core::family::emit::{
    changed_paths, check_emit_request, command_records_for_execution, family_recommendation_artifact,
    format_run_id, latest_attempt_name, latest_attempt_relative_path, machine_evidence_kind,
    promotion_blocker_artifact, promotion_execution_artifact, ranked_candidate_for_family, BlockerRequest,
};
use spec_core::family::error::XtaskError;
use spec_core::family::execution_checks::{
    ApprovalStatus, BlockerKind, BlockingStep, ExecutionStatus, MachineEvidenceKind,
};
use spec_core::family::language::{FamilyTargetLanguage, TargetLanguage};
use spec_core::family::paths::FamilyId;

fn message<T>(r: Result<T, XtaskError>) -> String {
    match r {
        Err(XtaskError::InvalidInput(m)) => m,
        Err(other) => panic!("unexpected error {other:?}"),
        Ok(_) => panic!("expected an error"),
    }
}

fn basis() -> FamilyRecommendationAnalysisArtifact {
    FamilyRecommendationAnalysisArtifact {
        schema_version: 4,
        artifact_kind: PromotionArtifactKind::FamilyRecommendationAnalysis,
        generated_at: "2026-05-06T03:00:00Z".to_string(),
        coverage_path: "artifacts/coverage.json".to_string(),
        coverage_sha256: "ab".repeat(32),
        recommendation_status: RecommendationStatus::NoStrongCandidate,
        ranked_candidates: vec![],
        decision_summary: DecisionSummary {
            decision_status: DecisionStatus::BlockedForNow,
            top_candidate_id: None,
            open_blockers: vec![DecisionReason::HardDifficulty],
            warnings: vec![],
            summary: "s".to_string(),
        },
        evidence_summary: EvidenceSummary {
            missing_evidence: vec![EvidenceState::ThinRegressionSupport],
            stale_evidence: vec![EvidenceState::StaleEvidence],
            warnings: vec![],
            summary: "e".to_string(),
        },
        delta_from_previous: RecommendationDelta::no_previous_artifact(),
    }
}

#[test]
fn run_ids_keep_the_time_letters_and_digits() {
    assert_eq!(
        format_run_id("2026-05-06T03:04:05Z", "function.wrapper.pipeline.v1").unwrap(),
        "20260506T030405Z-function.wrapper.pipeline.v1"
    );
    assert_eq!(
        message(format_run_id("yesterday", "x")),
        "generated_at `yesterday` must be a UTC RFC3339 timestamp"
    );
}

#[test]
fn ranked_candidates_exist_for_pilot_families_only() {
    let up = FamilyId::parse("function.arithmetic_leaf.monotone_up.v1").unwrap();
    let c = ranked_candidate_for_family(&up).unwrap();
    assert_eq!(c.family, "function.arithmetic_leaf.monotone_up.v1");
    assert_eq!(c.evidence.len(), 3);
    assert_eq!(c.evidence[0], "examples/ecommerce/units/pricing/apply_tax.unit.spec");
    let wrapper = FamilyId::parse("function.wrapper.pipeline.v1").unwrap();
    assert_eq!(
        ranked_candidate_for_family(&wrapper).unwrap().evidence[0],
        "examples/ecommerce/units/pricing/calculate_total.unit.spec"
    );
    let other = FamilyId::parse("function.wrapper.pipeline.chain3.v1").unwrap();
    assert_eq!(
        message(ranked_candidate_for_family(&other)),
        "family refresh-promotion-recommendation does not support `function.wrapper.pipeline.chain3.v1`"
    );
}

#[test]
fn execution_commands_follow_the_target_language() {
    let family = FamilyId::parse("function.wrapper.pipeline.v1").unwrap();
    let rust = command_records_for_execution(&family, FamilyTargetLanguage::Rust, "2026-05-06T03:00:00Z");
    assert_eq!(rust.len(), 2);
    assert_eq!(rust[0].step, "rust_prove");
    assert_eq!(rust[0].command, "cargo xtask family prove function.wrapper.pipeline.v1");
    assert_eq!(
        rust[0].artifact_path,
        Some(".semantic-family-artifacts/semantic-families/function.wrapper.pipeline.v1/prove.latest.json".to_string())
    );
    assert_eq!(rust[1].command, "cargo xtask family certify function.wrapper.pipeline.v1");
    let ts = command_records_for_execution(&family, FamilyTargetLanguage::Typescript, "t");
    assert_eq!(ts.len(), 4);
    assert_eq!(ts[2].step, "typescript_prove");
    assert_eq!(
        ts[3].command,
        "cargo xtask family certify function.wrapper.pipeline.v1 --target-language typescript"
    );
    assert_eq!(ts[3].started_at, "t");
    assert_eq!(ts[3].exit_code, 0);
}

#[test]
fn the_latest_attempt_sorts_last() {
    let names = vec![
        "prove.latest.json".to_string(),
        "attempt-20260506T030000Z.json".to_string(),
        "attempt-20260507T010000Z.json".to_string(),
        "attempt-2026.txt".to_string(),
    ];
    assert_eq!(latest_attempt_name(&names), Some(2));
    assert_eq!(
        latest_attempt_relative_path("dir", &names).unwrap(),
        "dir/attempt-20260507T010000Z.json"
    );
    assert_eq!(
        message(latest_attempt_relative_path("dir", &vec!["prove.latest.json".to_string()])),
        "no attempt-*.json artifact exists under `dir`"
    );
}

#[test]
fn changed_paths_are_trimmed_sorted_and_unique() {
    assert_eq!(
        changed_paths("b.rs\n  a.rs \n\nb.rs\r\n"),
        vec!["a.rs".to_string(), "b.rs".to_string()]
    );
    assert!(changed_paths("").is_empty());
}

#[test]
fn emit_requests_check_language_then_run_id() {
    let chain3 = FamilyId::parse("function.wrapper.pipeline.chain3.v1").unwrap();
    assert_eq!(
        message(check_emit_request(&chain3, FamilyTargetLanguage::Typescript, "x", "family emit-promotion-blocker")),
        "family emit-promotion-blocker supports --target-language typescript only for function.arithmetic_leaf.monotone_up.v1 and function.wrapper.pipeline.v1"
    );
    assert_eq!(
        message(check_emit_request(&chain3, FamilyTargetLanguage::Rust, "bad", "cmd")),
        "run_id `bad` must match `{UTC-basic-timestamp}-function.wrapper.pipeline.chain3.v1`"
    );
    assert!(check_emit_request(
        &chain3,
        FamilyTargetLanguage::Rust,
        "20260506T030405Z-function.wrapper.pipeline.chain3.v1",
        "cmd"
    )
    .is_ok());
}

#[test]
fn execution_records_carry_the_basis_and_proofs() {
    let family = FamilyId::parse("function.wrapper.pipeline.v1").unwrap();
    let a = promotion_execution_artifact(
        &family,
        "20260506T030405Z-function.wrapper.pipeline.v1",
        "rec.json",
        FamilyTargetLanguage::Typescript,
        &basis(),
        "cd".repeat(32),
        vec!["src/lib.rs".to_string()],
        "2026-05-06T03:04:05Z",
        "dir/attempt-1.json",
    );
    assert_eq!(a.schema_version, 2);
    assert_eq!(a.status, ExecutionStatus::Green);
    assert_eq!(a.target_language, TargetLanguage::Typescript);
    assert_eq!(a.open_blockers_at_start, vec![DecisionReason::HardDifficulty]);
    assert_eq!(
        a.missing_or_stale_evidence_at_start,
        vec![EvidenceState::ThinRegressionSupport, EvidenceState::StaleEvidence]
    );
    assert_eq!(a.approvals.target_family.status, ApprovalStatus::Approved);
    assert_eq!(a.approvals.final_output.status, ApprovalStatus::Pending);
    assert_eq!(a.commands.len(), 4);
    assert_eq!(a.referenced_proof_artifacts[1], "dir/attempt-1.json");
    assert_eq!(
        a.referenced_proof_artifacts[2],
        ".semantic-family-artifacts/semantic-families/function.wrapper.pipeline.v1/certification.report.json"
    );
    assert_eq!(a.analysis_basis_path, ".semantic-family-artifacts/family-promotion/analysis/recommendation.latest.json");
    assert_eq!(a.iterations, 1);
}

#[test]
fn blocker_evidence_kind_follows_what_was_given() {
    assert_eq!(machine_evidence_kind(true, false), MachineEvidenceKind::Artifact);
    assert_eq!(machine_evidence_kind(true, true), MachineEvidenceKind::Diff);
    assert_eq!(machine_evidence_kind(false, true), MachineEvidenceKind::Command);
    assert_eq!(machine_evidence_kind(false, false), MachineEvidenceKind::Command);
    let family = FamilyId::parse("function.wrapper.pipeline.v1").unwrap();
    let b = promotion_blocker_artifact(
        &family,
        "20260506T030405Z-function.wrapper.pipeline.v1",
        FamilyTargetLanguage::Rust,
        &basis(),
        "cd".repeat(32),
        BlockerRequest {
            blocking_step: BlockingStep::Prove,
            blocker_kind: BlockerKind::ProveSuiteFailure,
            summary: "prove failed".to_string(),
            required_human_action: "look".to_string(),
            safe_next_actions: vec!["rerun".to_string()],
            evidence_command: None,
            evidence_exit_code: None,
            evidence_path: Some("out.json".to_string()),
            evidence_note: "note".to_string(),
        },
        "2026-05-06T03:04:05Z".to_string(),
    );
    assert_eq!(b.machine_evidence.len(), 1);
    assert_eq!(b.machine_evidence[0].kind, MachineEvidenceKind::Artifact);
    assert_eq!(b.machine_evidence[0].path, Some("out.json".to_string()));
    assert_eq!(b.blocking_step, BlockingStep::Prove);
    assert_eq!(b.safe_next_actions, vec!["rerun".to_string()]);
    assert_eq!(b.schema_version, 2);
}

#[test]
fn family_recommendations_need_a_candidate() {
    let family = FamilyId::parse("function.arithmetic_leaf.monotone_up.v1").unwrap();
    let r = family_recommendation_artifact(
        &family,
        FamilyTargetLanguage::Typescript,
        "2026-05-06T03:04:05Z".to_string(),
        "inv\\1.json",
        "ef".repeat(32),
        &basis(),
        "cd".repeat(32),
    )
    .unwrap();
    assert_eq!(r.schema_version, 2);
    assert_eq!(r.inventory_path, "inv/1.json");
    assert_eq!(r.ranked_candidates.len(), 1);
    assert_eq!(r.decision_status, Some(DecisionStatus::BlockedForNow));
    let chain3 = FamilyId::parse("function.wrapper.pipeline.chain3.v1").unwrap();
    assert!(family_recommendation_artifact(
        &chain3,
        FamilyTargetLanguage::Rust,
        String::new(),
        "x",
        String::new(),
        &basis(),
        String::new()
    )
    .is_err());
}
