use spec_core::family::analysis_checks::{sha256_hex, WorkspaceFile};
use spec_core::family::artifacts::{
    ConfidenceLevel, CorpusProgramDecisionArtifact, CorpusProgramDecisionBasisCode, DecisionReason, DecisionStatus,
    DecisionSummary, DifficultyTier, EvidenceState, EvidenceSummary, FamilyRecommendationAnalysisArtifact, HoldReason,
    NextStepDetail, NextStepStatus, PromotionArtifactKind, PromotionReadiness, RecommendationCandidateEntry,
    RecommendationConfidence, RecommendationDelta, RecommendationDifficulty, RecommendationLeverage,
    RecommendationStatus, UnsupportedFunctionReasonCode, RECOMMENDATION_ANALYSIS_SCHEMA_VERSION,
};
use spec_core::family::decision::{corpus_program_basis_snapshot, derive_corpus_program_decision_contract};
use spec_core::family::error::XtaskError;
use spec_core::family::paths::{FAMILY_COVERAGE_LATEST_PATH, FAMILY_RECOMMENDATION_ANALYSIS_LATEST_PATH};
use spec_core::family::verify::{
    build_report, check_verify_format, collect_failure_reasons, verdict_result, ArtifactLoad, CheckStatus,
    FailureReason, OverallVerdict, VerificationReport,
};

const COVERAGE_BYTES: &[u8] = b"{\"fixture\":\"coverage\"}\n";
const DECISION_PATH: &str = ".semantic-family-artifacts/corpus-program/decision.latest.json";

fn fixture_analysis_artifact() -> FamilyRecommendationAnalysisArtifact {
    FamilyRecommendationAnalysisArtifact {
        schema_version: RECOMMENDATION_ANALYSIS_SCHEMA_VERSION,
        artifact_kind: PromotionArtifactKind::FamilyRecommendationAnalysis,
        generated_at: "2026-05-06T00:00:00Z".to_string(),
        coverage_path: FAMILY_COVERAGE_LATEST_PATH.to_string(),
        coverage_sha256: sha256_hex(&COVERAGE_BYTES.to_vec()),
        recommendation_status: RecommendationStatus::NoStrongCandidate,
        ranked_candidates: vec![RecommendationCandidateEntry {
            candidate_id: "fixture/helper_surface".to_string(),
            cluster_ids: vec!["cluster".to_string()],
            primary_reason_code: UnsupportedFunctionReasonCode::UnsupportedFunctionSurface,
            overlap_family: "unknown".to_string(),
            promotion_readiness: PromotionReadiness::Hold,
            hold_reasons: vec![HoldReason::HelperSurfaceNotPromotable],
            next_step_status: NextStepStatus::DurableHold,
            next_step_detail: NextStepDetail::HelperSurfaceNotPromotable,
            leverage: RecommendationLeverage {
                real_example_hits: 2,
                promotion_relevant_regression_hits: 1,
                boundary_only_hits: 0,
                total_units_in_cluster: 3,
            },
            difficulty: RecommendationDifficulty { tier: DifficultyTier::Hard, why: "fixture".to_string() },
            confidence: RecommendationConfidence { level: ConfidenceLevel::Low, why: "fixture".to_string() },
            rationale: "fixture".to_string(),
        }],
        decision_summary: DecisionSummary {
            decision_status: DecisionStatus::NotRecommended,
            top_candidate_id: Some("fixture/helper_surface".to_string()),
            open_blockers: vec![DecisionReason::HelperSurfaceNotPromotable],
            warnings: vec![DecisionReason::RegressionWarning],
            summary: "fixture".to_string(),
        },
        evidence_summary: EvidenceSummary {
            missing_evidence: Vec::new(),
            stale_evidence: Vec::new(),
            warnings: vec![DecisionReason::RegressionWarning],
            summary: "fixture".to_string(),
        },
        delta_from_previous: RecommendationDelta::no_previous_artifact(),
    }
}

fn decision_for(analysis: &FamilyRecommendationAnalysisArtifact) -> CorpusProgramDecisionArtifact {
    let derived = derive_corpus_program_decision_contract(analysis).unwrap();
    CorpusProgramDecisionArtifact {
        schema_version: 1,
        artifact_kind: PromotionArtifactKind::CorpusProgramDecision,
        generated_at: "2026-05-06T00:00:00Z".to_string(),
        analysis_basis_path: FAMILY_RECOMMENDATION_ANALYSIS_LATEST_PATH.to_string(),
        analysis_basis_sha256: "0".repeat(64),
        basis_snapshot: corpus_program_basis_snapshot(analysis),
        decision_action: derived.decision_action,
        decision_basis_code: derived.decision_basis_code,
        pivot_target_class: derived.pivot_target_class,
        required_next_action: derived.required_next_action,
        summary: derived.summary,
    }
}

/// Loads the analysis as a workspace would: it is ready when it holds its own contract.
fn load_analysis(analysis: FamilyRecommendationAnalysisArtifact) -> ArtifactLoad<FamilyRecommendationAnalysisArtifact> {
    match analysis.validate(&WorkspaceFile::Bytes(COVERAGE_BYTES.to_vec())) {
        Ok(()) => ArtifactLoad::Ready(analysis),
        Err(error) => ArtifactLoad::InvalidContract {
            path: FAMILY_RECOMMENDATION_ANALYSIS_LATEST_PATH.to_string(),
            error: error.message(),
        },
    }
}

fn report_for(
    analysis: ArtifactLoad<FamilyRecommendationAnalysisArtifact>,
    decision: ArtifactLoad<CorpusProgramDecisionArtifact>,
) -> VerificationReport {
    build_report(&analysis, &decision, &Ok(()), DECISION_PATH)
}

fn seeded_report() -> VerificationReport {
    let analysis = fixture_analysis_artifact();
    let decision = decision_for(&analysis);
    report_for(load_analysis(analysis), ArtifactLoad::Ready(decision))
}

fn failing_report(report: VerificationReport) -> VerificationReport {
    assert_eq!(report.overall_verdict, OverallVerdict::Fail);
    assert!(matches!(verdict_result(&report), Err(XtaskError::InvalidInput(_))));
    report
}

#[test]
fn verifier_passes_on_frozen_helper_surface_floor() {
    let report = seeded_report();

    assert_eq!(report.overall_verdict, OverallVerdict::Pass);
    assert!(report.failure_reasons.is_empty());
    assert_eq!(report.checks.recommendation_analysis_validation.status, CheckStatus::Pass);
    assert_eq!(report.checks.corpus_program_decision_validation.status, CheckStatus::Pass);
    assert_eq!(report.checks.basis_snapshot_parity.status, CheckStatus::Pass);
    assert_eq!(report.checks.derived_decision_parity.status, CheckStatus::Pass);
    assert_eq!(report.checks.frozen_helper_surface_floor.status, CheckStatus::Pass);
    assert!(verdict_result(&report).is_ok());
}

#[test]
fn verifier_reports_missing_recommendation_artifact() {
    let analysis = fixture_analysis_artifact();
    let decision = decision_for(&analysis);
    let report = failing_report(report_for(
        ArtifactLoad::Missing(FAMILY_RECOMMENDATION_ANALYSIS_LATEST_PATH.to_string()),
        ArtifactLoad::Ready(decision),
    ));
    assert!(report.failure_reasons.contains(&FailureReason::MissingRecommendationAnalysisArtifact));
}

#[test]
fn verifier_reports_missing_decision_artifact() {
    let analysis = fixture_analysis_artifact();
    let report = failing_report(report_for(
        load_analysis(analysis),
        ArtifactLoad::Missing(DECISION_PATH.to_string()),
    ));
    assert!(report.failure_reasons.contains(&FailureReason::MissingCorpusProgramDecisionArtifact));
}

#[test]
fn verifier_reports_invalid_json_for_analysis_artifact() {
    let analysis = fixture_analysis_artifact();
    let decision = decision_for(&analysis);
    let report = failing_report(report_for(
        ArtifactLoad::InvalidJson {
            path: FAMILY_RECOMMENDATION_ANALYSIS_LATEST_PATH.to_string(),
            error: "EOF while parsing an object at line 1 column 1".to_string(),
        },
        ArtifactLoad::Ready(decision),
    ));
    assert!(report.failure_reasons.contains(&FailureReason::InvalidArtifactJson));
}

#[test]
fn verifier_reports_invalid_json_for_decision_artifact() {
    let analysis = fixture_analysis_artifact();
    let report = failing_report(report_for(
        load_analysis(analysis),
        ArtifactLoad::InvalidJson {
            path: DECISION_PATH.to_string(),
            error: "EOF while parsing an object at line 1 column 1".to_string(),
        },
    ));
    assert!(report.failure_reasons.contains(&FailureReason::InvalidArtifactJson));
}

#[test]
fn verifier_reports_invalid_artifact_contract() {
    let mut analysis = fixture_analysis_artifact();
    let decision = decision_for(&analysis);
    analysis.schema_version += 1;

    let report = failing_report(report_for(load_analysis(analysis), ArtifactLoad::Ready(decision)));
    assert!(report.failure_reasons.contains(&FailureReason::InvalidArtifactContract));
}

#[test]
fn verifier_reports_basis_snapshot_mismatch() {
    let analysis = fixture_analysis_artifact();
    let mut decision = decision_for(&analysis);
    decision.basis_snapshot.top_candidate_id = Some("drifted".to_string());

    let report = failing_report(report_for(load_analysis(analysis), ArtifactLoad::Ready(decision)));
    assert!(report.failure_reasons.contains(&FailureReason::BasisSnapshotMismatch));
}

#[test]
fn verifier_reports_derived_decision_mismatch() {
    let analysis = fixture_analysis_artifact();
    let mut decision = decision_for(&analysis);
    decision.summary.push_str(" drift");

    let report = failing_report(report_for(load_analysis(analysis), ArtifactLoad::Ready(decision)));
    assert!(report.failure_reasons.contains(&FailureReason::DerivedDecisionMismatch));
}

#[test]
fn verifier_reports_non_current_helper_surface_evidence() {
    let mut analysis = fixture_analysis_artifact();
    analysis.evidence_summary.stale_evidence = vec![EvidenceState::StaleEvidence];
    let decision = decision_for(&analysis);

    let report = failing_report(report_for(ArtifactLoad::Ready(analysis), ArtifactLoad::Ready(decision)));
    assert!(report.failure_reasons.contains(&FailureReason::FrozenHelperSurfaceEvidenceNotCurrent));
}

#[test]
fn verifier_reports_frozen_helper_surface_floor_mismatch() {
    let analysis = fixture_analysis_artifact();
    let mut decision = decision_for(&analysis);
    decision.decision_basis_code = CorpusProgramDecisionBasisCode::NoActionableCandidate;

    let report = failing_report(report_for(load_analysis(analysis), ArtifactLoad::Ready(decision)));
    assert!(report.failure_reasons.contains(&FailureReason::FrozenHelperSurfaceFloorMismatch));
}

#[test]
fn verifier_rejects_non_json_format() {
    let error = check_verify_format("yaml").unwrap_err();
    assert!(matches!(error, XtaskError::InvalidInput(message)
        if message.contains("only supports `--format json`")));
    assert!(check_verify_format("json").is_ok());
}

#[test]
fn verifier_reports_decision_contract_failure_as_invalid_contract() {
    let analysis = fixture_analysis_artifact();
    let decision = decision_for(&analysis);
    let report = build_report(
        &load_analysis(analysis),
        &ArtifactLoad::Ready(decision),
        &Err(XtaskError::InvalidInput("analysis_basis_sha256 drifted".to_string())),
        DECISION_PATH,
    );
    assert_eq!(report.overall_verdict, OverallVerdict::Fail);
    assert_eq!(report.checks.corpus_program_decision_validation.status, CheckStatus::Fail);
    assert_eq!(
        report.checks.corpus_program_decision_validation.detail,
        Some(format!("artifact contract failed for `{DECISION_PATH}`: analysis_basis_sha256 drifted"))
    );
    assert_eq!(report.failure_reasons, vec![FailureReason::InvalidArtifactContract]);
}

#[test]
fn failure_reasons_are_collected_once_in_order() {
    let report = report_for(
        ArtifactLoad::Missing(FAMILY_RECOMMENDATION_ANALYSIS_LATEST_PATH.to_string()),
        ArtifactLoad::InvalidJson { path: DECISION_PATH.to_string(), error: "bad".to_string() },
    );
    let reasons = collect_failure_reasons(&report.checks);
    assert_eq!(reasons, report.failure_reasons);
    assert_eq!(
        reasons,
        vec![FailureReason::MissingRecommendationAnalysisArtifact, FailureReason::InvalidArtifactJson]
    );
}
