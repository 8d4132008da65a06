use spec_core::family::artifacts::{
    ConfidenceLevel, DecisionReason, DecisionStatus, DifficultyTier, EvidenceState, HoldReason, NextStepDetail,
    NextStepStatus, PromotionArtifactKind, PromotionReadiness, RecommendationStatus, UnsupportedFunctionReasonCode,
};
use spec_core::family::coverage_checks::{CandidateStatus, UnsupportedClusterEntry};
use spec_core::family::helper_surface::HELPER_SURFACE_FINGERPRINT;
use spec_core::family::recommend::{
    build_recommendation_analysis_artifact, candidate_from_cluster, candidate_id, confidence_for,
    decision_summary_for, difficulty_for, evidence_summary_for, hold_reasons_for, join_blockers, join_evidence,
    ranked_cluster_order, recommendation_status_for,
};

fn cluster(
    id: &str,
    reason: UnsupportedFunctionReasonCode,
    overlap: &str,
    real: usize,
    regression: usize,
    boundary: usize,
) -> UnsupportedClusterEntry {
    UnsupportedClusterEntry {
        cluster_id: id.to_string(),
        reason_code: reason,
        shape_fingerprint: "{\"schema_version\":1}".to_string(),
        representative_unit_ids: vec!["unit-a".to_string(), "unit-b".to_string()],
        source_ids: vec!["src-a".to_string()],
        real_example_hits: real,
        promotion_relevant_regression_hits: regression,
        boundary_only_hits: boundary,
        overlap_family: overlap.to_string(),
        candidate_status: CandidateStatus::Rankable,
    }
}

#[test]
fn candidate_id_lowercases_reason_and_cluster() {
    let c = cluster("ABC-1", UnsupportedFunctionReasonCode::UnsupportedFunctionSurface, "unknown", 0, 0, 0);
    assert_eq!(candidate_id(&c), "z-unsupportedfunctionsurface-abc-1");
    let known = cluster("Arith_X", UnsupportedFunctionReasonCode::UnsupportedArithmeticShape, "arith", 3, 0, 0);
    assert_eq!(candidate_id(&known), "a-unsupportedarithmeticshape-arith_x");
}

#[test]
fn difficulty_tiers_follow_reason_codes() {
    assert_eq!(difficulty_for(UnsupportedFunctionReasonCode::UnsupportedArithmeticShape).tier, DifficultyTier::Adjacent);
    assert_eq!(difficulty_for(UnsupportedFunctionReasonCode::UnsupportedWrapperBodyShape).tier, DifficultyTier::Adjacent);
    assert_eq!(
        difficulty_for(UnsupportedFunctionReasonCode::UnsupportedRequiredArgumentExpression).tier,
        DifficultyTier::Moderate
    );
    let hard = difficulty_for(UnsupportedFunctionReasonCode::UnsupportedControlFlow);
    assert_eq!(hard.tier, DifficultyTier::Hard);
    assert!(hard.why.starts_with("This unsupported demand expands"));
}

#[test]
fn confidence_levels_need_a_known_family() {
    assert_eq!(confidence_for("arith", DifficultyTier::Adjacent, 3, 0).level, ConfidenceLevel::High);
    assert_eq!(confidence_for("unknown", DifficultyTier::Adjacent, 5, 5).level, ConfidenceLevel::Low);
    assert_eq!(confidence_for("arith", DifficultyTier::Adjacent, 2, 0).level, ConfidenceLevel::Medium);
    assert_eq!(confidence_for("arith", DifficultyTier::Adjacent, 1, 3).level, ConfidenceLevel::Medium);
    assert_eq!(confidence_for("arith", DifficultyTier::Hard, 1, 3).level, ConfidenceLevel::Low);
    assert_eq!(
        confidence_for("arith", DifficultyTier::Hard, 0, 0).why,
        "The cluster is visible, but the current real-example support is still thin."
    );
}

#[test]
fn hold_reasons_come_in_order() {
    assert_eq!(
        hold_reasons_for("unknown", DifficultyTier::Hard, 0, 0),
        vec![
            HoldReason::UnknownOverlapFamily,
            HoldReason::HardDifficulty,
            HoldReason::ThinRealExampleSupport,
            HoldReason::ThinRegressionSupport,
        ]
    );
    assert_eq!(hold_reasons_for("arith", DifficultyTier::Adjacent, 2, 0), vec![]);
    assert_eq!(hold_reasons_for("arith", DifficultyTier::Adjacent, 1, 3), vec![]);
    assert_eq!(
        hold_reasons_for("arith", DifficultyTier::Adjacent, 1, 2),
        vec![HoldReason::ThinRealExampleSupport]
    );
}

#[test]
fn candidate_from_ready_cluster_promotes() {
    let c = cluster("c1", UnsupportedFunctionReasonCode::UnsupportedArithmeticShape, "arith", 3, 2, 1);
    let cand = candidate_from_cluster(&c);
    assert_eq!(cand.candidate_id, "a-unsupportedarithmeticshape-c1");
    assert_eq!(cand.cluster_ids, vec!["c1".to_string()]);
    assert_eq!(cand.promotion_readiness, PromotionReadiness::Ready);
    assert!(cand.hold_reasons.is_empty());
    assert_eq!(cand.next_step_status, NextStepStatus::Promote);
    assert_eq!(cand.next_step_detail, NextStepDetail::ReadyForPromotion);
    assert_eq!(cand.leverage.total_units_in_cluster, 2);
    assert_eq!(cand.confidence.level, ConfidenceLevel::High);
    assert_eq!(
        cand.rationale,
        "Rankable cluster with 3 real-example hit(s), 2 promotion-relevant regression hit(s), and 1 boundary-only hit(s)."
    );
}

#[test]
fn candidate_from_helper_surface_cluster_is_durable_hold() {
    let mut c = cluster("helper", UnsupportedFunctionReasonCode::UnsupportedFunctionSurface, "unknown", 4, 0, 0);
    c.shape_fingerprint = HELPER_SURFACE_FINGERPRINT.to_string();
    let cand = candidate_from_cluster(&c);
    assert_eq!(cand.promotion_readiness, PromotionReadiness::Hold);
    assert_eq!(cand.hold_reasons, vec![HoldReason::HelperSurfaceNotPromotable]);
    assert_eq!(cand.next_step_status, NextStepStatus::DurableHold);
    assert_eq!(cand.next_step_detail, NextStepDetail::HelperSurfaceNotPromotable);
}

#[test]
fn ranking_puts_ready_first_then_hits_then_ids() {
    let mut boundary = cluster("skip", UnsupportedFunctionReasonCode::UnsupportedArithmeticShape, "arith", 9, 9, 0);
    boundary.candidate_status = CandidateStatus::BoundaryOnly;
    let clusters = vec![
        cluster("held", UnsupportedFunctionReasonCode::UnsupportedControlFlow, "unknown", 9, 9, 0),
        cluster("b", UnsupportedFunctionReasonCode::UnsupportedArithmeticShape, "arith", 3, 0, 0),
        boundary,
        cluster("a", UnsupportedFunctionReasonCode::UnsupportedArithmeticShape, "arith", 3, 0, 0),
        cluster("more", UnsupportedFunctionReasonCode::UnsupportedArithmeticShape, "arith", 4, 0, 0),
    ];
    assert_eq!(ranked_cluster_order(&clusters), vec![4, 3, 1, 0]);
}

#[test]
fn ranking_prefers_easier_then_fewer_boundary_hits() {
    let clusters = vec![
        cluster("x", UnsupportedFunctionReasonCode::UnsupportedRequiredArgumentExpression, "arith", 3, 1, 0),
        cluster("y", UnsupportedFunctionReasonCode::UnsupportedWrapperBodyShape, "arith", 3, 1, 5),
        cluster("z", UnsupportedFunctionReasonCode::UnsupportedWrapperBodyShape, "arith", 3, 1, 2),
    ];
    assert_eq!(ranked_cluster_order(&clusters), vec![2, 1, 0]);
}

#[test]
fn join_labels_are_comma_separated_or_none() {
    assert_eq!(join_blockers(&vec![]), "none");
    assert_eq!(
        join_blockers(&vec![DecisionReason::HardDifficulty, DecisionReason::RegressionWarning]),
        "hard_difficulty, regression_warning"
    );
    assert_eq!(join_evidence(&vec![EvidenceState::StaleEvidence]), "stale_evidence");
}

#[test]
fn empty_clusters_give_insufficient_corpus_and_no_recommendation() {
    let artifact = build_recommendation_analysis_artifact(
        "2026-05-06T03:00:00Z".to_string(),
        "artifacts/coverage.json".to_string(),
        "ab".repeat(32),
        &vec![],
    );
    assert_eq!(artifact.artifact_kind, PromotionArtifactKind::FamilyRecommendationAnalysis);
    assert!(artifact.ranked_candidates.is_empty());
    assert_eq!(artifact.recommendation_status, RecommendationStatus::InsufficientRealCorpus);
    assert_eq!(artifact.decision_summary.decision_status, DecisionStatus::NotRecommended);
    assert_eq!(artifact.decision_summary.top_candidate_id, None);
    assert_eq!(
        artifact.decision_summary.summary,
        "No plausible next-family action is recommended from the current analysis surface."
    );
    assert_eq!(artifact.evidence_summary.summary, "No candidate-specific evidence obligations are recorded.");
    assert_eq!(
        artifact.delta_from_previous.summary,
        "No previous validated analysis artifact existed at this path."
    );
}

#[test]
fn ready_leader_is_recommended() {
    let clusters = vec![cluster("lead", UnsupportedFunctionReasonCode::UnsupportedArithmeticShape, "arith", 3, 2, 0)];
    let artifact = build_recommendation_analysis_artifact(
        "2026-05-06T03:00:00Z".to_string(),
        "artifacts/coverage.json".to_string(),
        "ab".repeat(32),
        &clusters,
    );
    assert_eq!(artifact.recommendation_status, RecommendationStatus::Ranked);
    assert_eq!(artifact.decision_summary.decision_status, DecisionStatus::Recommended);
    assert_eq!(
        artifact.decision_summary.top_candidate_id,
        Some("a-unsupportedarithmeticshape-lead".to_string())
    );
    assert_eq!(
        artifact.decision_summary.summary,
        "Recommend promoting `a-unsupportedarithmeticshape-lead` now; no missing or stale evidence is recorded."
    );
    assert_eq!(artifact.evidence_summary.summary, "No missing or stale evidence is recorded.");
}

#[test]
fn held_leader_is_blocked_with_missing_evidence() {
    let clusters = vec![cluster("thin", UnsupportedFunctionReasonCode::UnsupportedArithmeticShape, "arith", 1, 0, 0)];
    let ranked = vec![candidate_from_cluster(&clusters[0])];
    let status = recommendation_status_for(&ranked);
    assert_eq!(status, RecommendationStatus::NoStrongCandidate);
    let evidence = evidence_summary_for(&ranked);
    assert_eq!(
        evidence.missing_evidence,
        vec![EvidenceState::ThinRealExampleSupport, EvidenceState::ThinRegressionSupport]
    );
    assert_eq!(
        evidence.summary,
        "Missing evidence `thin_real_example_support, thin_regression_support`; stale evidence `none`."
    );
    let decision = decision_summary_for(status, &ranked);
    assert_eq!(decision.decision_status, DecisionStatus::BlockedForNow);
    assert_eq!(
        decision.summary,
        "Do not promote `a-unsupportedarithmeticshape-thin` yet; blockers `thin_real_example_support, thin_regression_support` and the current evidence state keep it held."
    );
}

#[test]
fn helper_surface_leader_is_not_recommended() {
    let mut c = cluster("helper", UnsupportedFunctionReasonCode::UnsupportedFunctionSurface, "unknown", 4, 0, 0);
    c.shape_fingerprint = HELPER_SURFACE_FINGERPRINT.to_string();
    let artifact = build_recommendation_analysis_artifact(
        "2026-05-06T03:00:00Z".to_string(),
        "artifacts/coverage.json".to_string(),
        "ab".repeat(32),
        &vec![c],
    );
    assert_eq!(artifact.decision_summary.decision_status, DecisionStatus::NotRecommended);
    assert_eq!(
        artifact.decision_summary.summary,
        "Do not treat `z-unsupportedfunctionsurface-helper` as the next family move; `helper_surface_not_promotable` remains visible but helper surfaces are not promotable."
    );
}
