use spec_core::family::artifacts::{
    DecisionReason, DecisionStatus, DecisionSummary, EvidenceState, EvidenceSummary,
    FamilyRecommendationAnalysisArtifact, PromotionArtifactKind, RecommendationDelta, RecommendationStatus,
};
use spec_core::family::delta::{
    delta_from_previous, diff_evidence, evidence_changes, normalized_recommendation_for_determinism, reasons_added,
};

fn analysis(
    generated_at: &str,
    status: DecisionStatus,
    top: Option<&str>,
    blockers: Vec<DecisionReason>,
    missing: Vec<EvidenceState>,
) -> FamilyRecommendationAnalysisArtifact {
    FamilyRecommendationAnalysisArtifact {
        schema_version: 4,
        artifact_kind: PromotionArtifactKind::FamilyRecommendationAnalysis,
        generated_at: generated_at.to_string(),
        coverage_path: "artifacts/coverage.json".to_string(),
        coverage_sha256: "ab".repeat(32),
        recommendation_status: RecommendationStatus::NoStrongCandidate,
        ranked_candidates: vec![],
        decision_summary: DecisionSummary {
            decision_status: status,
            top_candidate_id: top.map(|s| s.to_string()),
            open_blockers: blockers,
            warnings: vec![],
            summary: "s".to_string(),
        },
        evidence_summary: EvidenceSummary {
            missing_evidence: missing,
            stale_evidence: vec![],
            warnings: vec![],
            summary: "e".to_string(),
        },
        delta_from_previous: RecommendationDelta::no_previous_artifact(),
    }
}

#[test]
fn reason_differences_are_sets_in_sort_order() {
    let a = vec![DecisionReason::RegressionWarning, DecisionReason::HardDifficulty, DecisionReason::HardDifficulty];
    let b = vec![DecisionReason::RegressionWarning];
    assert_eq!(reasons_added(&a, &b), vec![DecisionReason::HardDifficulty]);
    assert_eq!(reasons_added(&b, &a), vec![]);
    let c = vec![DecisionReason::ThinRegressionSupport, DecisionReason::UnknownOverlapFamily];
    assert_eq!(
        reasons_added(&c, &vec![]),
        vec![DecisionReason::UnknownOverlapFamily, DecisionReason::ThinRegressionSupport]
    );
}

#[test]
fn evidence_lines_list_gains_then_losses() {
    let previous = vec![EvidenceState::ThinRegressionSupport];
    let current = vec![EvidenceState::StaleEvidence, EvidenceState::ThinRealExampleSupport];
    assert_eq!(
        diff_evidence("missing_evidence", &previous, &current),
        vec![
            "missing_evidence:+thin_real_example_support".to_string(),
            "missing_evidence:+stale_evidence".to_string(),
            "missing_evidence:-thin_regression_support".to_string(),
        ]
    );
}

#[test]
fn delta_without_previous_is_the_fixed_record() {
    let current = analysis("2026-05-06T03:00:00Z", DecisionStatus::BlockedForNow, Some("a"), vec![], vec![]);
    let delta = delta_from_previous(None, &current);
    assert_eq!(delta.previous_generated_at, None);
    assert!(!delta.decision_changed);
    assert_eq!(delta.summary, "No previous validated analysis artifact existed at this path.");
}

#[test]
fn delta_of_unchanged_surface() {
    let previous = analysis("2026-05-04T03:00:00Z", DecisionStatus::BlockedForNow, Some("a"), vec![], vec![]);
    let current = analysis("2026-05-06T03:00:00Z", DecisionStatus::BlockedForNow, Some("a"), vec![], vec![]);
    let delta = delta_from_previous(Some(&previous), &current);
    assert_eq!(delta.previous_generated_at, Some("2026-05-04T03:00:00Z".to_string()));
    assert_eq!(delta.previous_decision_status, Some(DecisionStatus::BlockedForNow));
    assert_eq!(delta.previous_recommendation_status, Some(RecommendationStatus::NoStrongCandidate));
    assert!(!delta.decision_changed);
    assert!(!delta.top_candidate_changed);
    assert_eq!(delta.summary, "Decision surface unchanged from the previous validated analysis artifact.");
}

#[test]
fn delta_of_changed_surface() {
    let previous = analysis(
        "2026-05-04T03:00:00Z",
        DecisionStatus::BlockedForNow,
        Some("a"),
        vec![DecisionReason::HardDifficulty],
        vec![],
    );
    let current = analysis(
        "2026-05-06T03:00:00Z",
        DecisionStatus::NotRecommended,
        None,
        vec![DecisionReason::ThinRegressionSupport],
        vec![EvidenceState::ThinRealExampleSupport],
    );
    let delta = delta_from_previous(Some(&previous), &current);
    assert!(delta.decision_changed);
    assert!(delta.top_candidate_changed);
    assert_eq!(delta.reasons_added, vec![DecisionReason::ThinRegressionSupport]);
    assert_eq!(delta.reasons_cleared, vec![DecisionReason::HardDifficulty]);
    assert_eq!(delta.evidence_changes, vec!["missing_evidence:+thin_real_example_support".to_string()]);
    assert_eq!(evidence_changes(&previous, &current), delta.evidence_changes);
    assert_eq!(
        delta.summary,
        "Decision delta: decision_changed=true, top_candidate_changed=true, reasons_added=thin_regression_support, reasons_cleared=hard_difficulty, evidence_changes=missing_evidence:+thin_real_example_support."
    );
}

#[test]
fn normalization_drops_time_and_delta() {
    let a = analysis("2026-05-06T03:00:00Z", DecisionStatus::Recommended, Some("a"), vec![], vec![]);
    let n = normalized_recommendation_for_determinism(a);
    assert_eq!(n.generated_at, "");
    assert_eq!(n.delta_from_previous.summary, "");
    assert_eq!(n.delta_from_previous.previous_generated_at, None);
    assert_eq!(n.coverage_path, "artifacts/coverage.json");
    assert_eq!(n.decision_summary.decision_status, DecisionStatus::Recommended);
    let placeholder = RecommendationDelta::normalized_placeholder();
    assert!(placeholder.evidence_changes.is_empty());
}
