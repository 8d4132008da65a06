use spec_core::family::analysis_checks::{
    candidate_qualifies_for_ranked_status, expected_decision_status, expected_missing_evidence,
    expected_open_blockers, expected_warnings, sha256_hex, validate_overlap_family, validate_repo_relative_path,
    validate_sha_bound_path, WorkspaceFile,
};
use spec_core::family::artifacts::{
    ConfidenceLevel, DecisionReason, DecisionStatus, DecisionSummary, DifficultyTier, EvidenceState, EvidenceSummary,
    FamilyRecommendationAnalysisArtifact, HoldReason, NextStepDetail, NextStepStatus, PromotionArtifactKind,
    PromotionReadiness, RecommendationCandidateEntry, RecommendationConfidence, RecommendationDelta,
    RecommendationDifficulty, RecommendationLeverage, RecommendationStatus, UnsupportedFunctionReasonCode,
    RECOMMENDATION_ANALYSIS_SCHEMA_VERSION,
};
use spec_core::family::error::XtaskError;
use spec_core::family::helper_surface::durable_non_promotable_helper_surface_candidate_tuple;
use spec_core::family::paths::FAMILY_COVERAGE_LATEST_PATH;

const COVERAGE_BYTES: &[u8] = b"{\"schema_version\":1}\n";

fn message(result: Result<(), XtaskError>) -> String {
    match result {
        Err(XtaskError::InvalidInput(m)) => m,
        other => panic!("unexpected {other:?}"),
    }
}

fn coverage_file() -> WorkspaceFile {
    WorkspaceFile::Bytes(COVERAGE_BYTES.to_vec())
}

fn held_candidate() -> RecommendationCandidateEntry {
    let tuple = durable_non_promotable_helper_surface_candidate_tuple();
    RecommendationCandidateEntry {
        candidate_id: "fixture".to_string(),
        cluster_ids: vec!["cluster".to_string()],
        primary_reason_code: UnsupportedFunctionReasonCode::UnsupportedFunctionSurface,
        overlap_family: "unknown".to_string(),
        promotion_readiness: tuple.promotion_readiness,
        hold_reasons: vec![tuple.hold_reason],
        next_step_status: tuple.next_step_status,
        next_step_detail: tuple.next_step_detail,
        leverage: RecommendationLeverage {
            real_example_hits: 2,
            promotion_relevant_regression_hits: 1,
            boundary_only_hits: 0,
            total_units_in_cluster: 3,
        },
        difficulty: RecommendationDifficulty { tier: DifficultyTier::Hard, why: "fixture".to_string() },
        confidence: RecommendationConfidence { level: ConfidenceLevel::Low, why: "fixture".to_string() },
        rationale: "fixture".to_string(),
    }
}

fn ready_candidate() -> RecommendationCandidateEntry {
    RecommendationCandidateEntry {
        promotion_readiness: PromotionReadiness::Ready,
        hold_reasons: Vec::new(),
        next_step_status: NextStepStatus::Promote,
        next_step_detail: NextStepDetail::ReadyForPromotion,
        overlap_family: "function.wrapper.pipeline*".to_string(),
        confidence: RecommendationConfidence { level: ConfidenceLevel::High, why: "fixture".to_string() },
        ..held_candidate()
    }
}

fn valid_analysis() -> FamilyRecommendationAnalysisArtifact {
    FamilyRecommendationAnalysisArtifact {
        schema_version: RECOMMENDATION_ANALYSIS_SCHEMA_VERSION,
        artifact_kind: PromotionArtifactKind::FamilyRecommendationAnalysis,
        generated_at: "2026-05-05T02:00:00Z".to_string(),
        coverage_path: FAMILY_COVERAGE_LATEST_PATH.to_string(),
        coverage_sha256: sha256_hex(&COVERAGE_BYTES.to_vec()),
        recommendation_status: RecommendationStatus::NoStrongCandidate,
        ranked_candidates: vec![held_candidate()],
        decision_summary: DecisionSummary {
            decision_status: DecisionStatus::NotRecommended,
            top_candidate_id: Some("fixture".to_string()),
            open_blockers: vec![DecisionReason::HelperSurfaceNotPromotable],
            warnings: vec![DecisionReason::RegressionWarning],
            summary: "fixture".to_string(),
        },
        evidence_summary: EvidenceSummary {
            missing_evidence: Vec::new(),
            stale_evidence: Vec::new(),
            warnings: vec![DecisionReason::RegressionWarning],
            summary: "fixture".to_string(),
        },
        delta_from_previous: RecommendationDelta::no_previous_artifact(),
    }
}

#[test]
fn sha256_hex_matches_known_digest() {
    assert_eq!(
        sha256_hex(&b"abc".to_vec()),
        "ba7816bf8f01cfea414140de5dae2223b00361a396177a9cb410ff61f20015ad"
    );
    assert_eq!(sha256_hex(&Vec::new()).len(), 64);
}

#[test]
fn repo_relative_paths() {
    assert!(validate_repo_relative_path("a/b.json", "f").is_ok());
    assert!(validate_repo_relative_path("a/./b", "f").is_ok());
    assert_eq!(message(validate_repo_relative_path("", "f")), "f `` must be a non-empty repo-relative path");
    assert_eq!(message(validate_repo_relative_path("/a", "f")), "f `/a` must be a non-empty repo-relative path");
    assert_eq!(message(validate_repo_relative_path("./a", "f")), "f `./a` must contain only normal path components");
    assert_eq!(message(validate_repo_relative_path("a/../b", "f")), "f `a/../b` must contain only normal path components");
}

#[test]
fn sha_bound_path_checks_in_order() {
    let bytes = b"payload".to_vec();
    let sha = sha256_hex(&bytes);
    let file = WorkspaceFile::Bytes(bytes.clone());
    assert!(validate_sha_bound_path("root/x.json", "root/", &sha, "field", &file).is_ok());
    assert!(validate_sha_bound_path("root/", "root/", &sha, "field", &file).is_ok());
    assert_eq!(
        message(validate_sha_bound_path("other/x.json", "root/", &sha, "field", &file)),
        "field `other/x.json` must stay under or equal `root/`"
    );
    let wrong = message(validate_sha_bound_path("root/x.json", "root/", "abc", "field", &file));
    assert_eq!(wrong, format!("field sha `abc` does not match the exact bytes at `root/x.json` (expected `{sha}`)"));
    let missing = WorkspaceFile::Missing(XtaskError::InvalidInput("gone".to_string()));
    assert_eq!(message(validate_sha_bound_path("other/x.json", "root/", &sha, "field", &missing)), "gone");
    let unreadable = WorkspaceFile::ReadFailed(XtaskError::WriteFailure("unreadable".to_string()));
    assert!(matches!(
        validate_sha_bound_path("root/x.json", "root/", &sha, "field", &unreadable),
        Err(XtaskError::WriteFailure(_))
    ));
    assert!(validate_sha_bound_path("../x", "root/", &sha, "field", &missing).is_err());
}

#[test]
fn overlap_families() {
    assert!(validate_overlap_family("unknown").is_ok());
    assert!(validate_overlap_family("function.arithmetic_leaf.monotone_*").is_ok());
    assert_eq!(
        message(validate_overlap_family("other")),
        "overlap_family `other` must be `function.arithmetic_leaf.monotone_*`, `function.wrapper.pipeline*`, or `unknown`"
    );
}

#[test]
fn candidate_checks() {
    assert!(held_candidate().validate().is_ok());
    assert!(ready_candidate().validate().is_ok());
    let mut c = held_candidate();
    c.rationale = "two\nlines".to_string();
    assert!(message(c.validate()).starts_with("recommendation candidates require"));
    let mut c = ready_candidate();
    c.hold_reasons = vec![HoldReason::HardDifficulty];
    assert_eq!(message(c.validate()), "recommendation candidates marked `ready` must have empty hold_reasons");
    let mut c = held_candidate();
    c.hold_reasons.clear();
    assert!(message(c.validate()).contains("must include at least one hold_reasons entry"));
    let mut c = ready_candidate();
    c.next_step_status = NextStepStatus::DurableHold;
    assert!(message(c.validate()).contains("must use next_step_status `promote`"));
    let mut c = held_candidate();
    c.next_step_status = NextStepStatus::Promote;
    assert!(message(c.validate()).contains("must not use ready-for-promotion"));
    let mut c = held_candidate();
    c.next_step_status = NextStepStatus::TargetedEvidenceGap;
    assert!(message(c.validate()).contains("helper-surface durable-hold tuple"));
    let mut c = held_candidate();
    c.difficulty.why = " ".to_string();
    assert_eq!(message(c.validate()), "recommendation difficulty.why must be a single non-empty line");
    let mut c = held_candidate();
    c.confidence.why = String::new();
    assert_eq!(message(c.validate()), "recommendation confidence.why must be a single non-empty line");
    assert!(candidate_qualifies_for_ranked_status(&ready_candidate()));
    assert!(!candidate_qualifies_for_ranked_status(&held_candidate()));
}

#[test]
fn expected_summaries_follow_first_candidate() {
    let mut c = held_candidate();
    c.hold_reasons = vec![
        HoldReason::ThinRegressionSupport,
        HoldReason::HardDifficulty,
        HoldReason::ThinRegressionSupport,
        HoldReason::ThinRealExampleSupport,
    ];
    c.next_step_status = NextStepStatus::TargetedEvidenceGap;
    c.next_step_detail = NextStepDetail::TargetedEvidenceGap;
    assert_eq!(
        expected_open_blockers(Some(&c)),
        vec![DecisionReason::ThinRegressionSupport, DecisionReason::HardDifficulty, DecisionReason::ThinRealExampleSupport]
    );
    assert_eq!(
        expected_missing_evidence(Some(&c)),
        vec![EvidenceState::ThinRegressionSupport, EvidenceState::ThinRealExampleSupport]
    );
    assert_eq!(expected_warnings(Some(&c)), vec![DecisionReason::RegressionWarning]);
    assert!(expected_open_blockers(None).is_empty());
    assert!(expected_warnings(None).is_empty());
    let evidence = valid_analysis().evidence_summary;
    assert_eq!(
        expected_decision_status(RecommendationStatus::Ranked, Some(&ready_candidate()), &evidence),
        DecisionStatus::Recommended
    );
    assert_eq!(
        expected_decision_status(RecommendationStatus::NoStrongCandidate, Some(&c), &evidence),
        DecisionStatus::BlockedForNow
    );
    assert_eq!(
        expected_decision_status(RecommendationStatus::InsufficientRealCorpus, Some(&c), &evidence),
        DecisionStatus::NotRecommended
    );
    assert_eq!(
        expected_decision_status(RecommendationStatus::NoStrongCandidate, Some(&held_candidate()), &evidence),
        DecisionStatus::NotRecommended
    );
    assert_eq!(expected_decision_status(RecommendationStatus::Ranked, None, &evidence), DecisionStatus::NotRecommended);
}

#[test]
fn analysis_validate_accepts_consistent_artifact() {
    assert!(valid_analysis().validate(&coverage_file()).is_ok());
}

#[test]
fn analysis_validate_reports_each_problem() {
    let mut a = valid_analysis();
    a.schema_version = 3;
    assert_eq!(message(a.validate(&coverage_file())), "recommendation analysis schema_version must be 4, found 3");

    let mut a = valid_analysis();
    a.artifact_kind = PromotionArtifactKind::FamilyRecommendation;
    assert!(message(a.validate(&coverage_file())).contains("artifact_kind must be `family_recommendation_analysis`"));

    let mut a = valid_analysis();
    a.generated_at = "yesterday".to_string();
    assert!(message(a.validate(&coverage_file())).contains("generated_at"));

    let a = valid_analysis();
    assert!(message(a.validate(&WorkspaceFile::Bytes(b"changed".to_vec()))).contains("does not match the exact bytes"));

    let mut a = valid_analysis();
    a.decision_summary.summary = String::new();
    assert_eq!(message(a.validate(&coverage_file())), "decision_summary.summary must be a single non-empty line");

    let mut a = valid_analysis();
    a.evidence_summary.warnings = vec![DecisionReason::HardDifficulty];
    assert_eq!(message(a.validate(&coverage_file())), "evidence_summary.warnings may only contain `regression_warning`");

    let mut a = valid_analysis();
    a.delta_from_previous.previous_generated_at = Some("then".to_string());
    assert!(message(a.validate(&coverage_file())).starts_with("delta_from_previous.previous_generated_at"));

    let mut a = valid_analysis();
    a.recommendation_status = RecommendationStatus::Ranked;
    assert!(message(a.validate(&coverage_file())).contains("ranked status requires the first candidate"));

    let mut a = valid_analysis();
    a.recommendation_status = RecommendationStatus::InsufficientRealCorpus;
    assert!(message(a.validate(&coverage_file())).contains("insufficient_real_corpus status requires"));

    let mut a = valid_analysis();
    a.ranked_candidates[0].leverage.real_example_hits = 0;
    assert!(message(a.validate(&coverage_file())).contains("no_strong_candidate status requires"));

    let mut a = valid_analysis();
    a.decision_summary.open_blockers.clear();
    assert!(message(a.validate(&coverage_file())).contains("open_blockers must match"));

    let mut a = valid_analysis();
    a.evidence_summary.stale_evidence = vec![EvidenceState::ThinRegressionSupport];
    assert!(message(a.validate(&coverage_file())).contains("stale_evidence may only contain"));

    let mut a = valid_analysis();
    a.decision_summary.warnings.clear();
    assert!(message(a.validate(&coverage_file())).contains("warnings must match"));

    let mut a = valid_analysis();
    a.decision_summary.decision_status = DecisionStatus::BlockedForNow;
    assert!(message(a.validate(&coverage_file())).contains("decision_status does not match"));

    let mut a = valid_analysis();
    a.decision_summary.top_candidate_id = Some("other".to_string());
    assert!(message(a.validate(&coverage_file())).contains("top_candidate_id must match"));
}
