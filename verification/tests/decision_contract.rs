use spec_core::family::artifacts::{
    ConfidenceLevel, CorpusProgramBasisSnapshot, CorpusProgramDecisionAction, CorpusProgramDecisionBasisCode,
    DecisionReason, DecisionStatus, DecisionSummary, DifficultyTier, EvidenceState, EvidenceSummary,
    FamilyRecommendationAnalysisArtifact, PromotionArtifactKind, RecommendationCandidateEntry, RecommendationConfidence,
    RecommendationDelta, RecommendationDifficulty, RecommendationLeverage, RecommendationStatus, RequiredNextAction,
    UnsupportedFunctionReasonCode, RECOMMENDATION_ANALYSIS_SCHEMA_VERSION,
};
use spec_core::family::decision::{
    basis_activates_helper_surface_follow_on, basis_snapshot_requires_helper_surface_follow_on,
    corpus_program_basis_snapshot, decision_contract_stop_state_tuple, derive_corpus_program_decision_contract,
};
use spec_core::family::helper_surface::durable_non_promotable_helper_surface_candidate_tuple;


#[test]
fn helper_surface_follow_on_requires_exact_basis_snapshot() {
    let snapshot = CorpusProgramBasisSnapshot {
        recommendation_status: RecommendationStatus::NoStrongCandidate,
        decision_status: DecisionStatus::NotRecommended,
        top_candidate_id: Some("fixture".to_string()),
        open_blockers: vec![DecisionReason::HelperSurfaceNotPromotable],
        missing_evidence: Vec::new(),
        stale_evidence: Vec::new(),
    };

    assert!(basis_snapshot_requires_helper_surface_follow_on(&snapshot));

    let contradictory_snapshot = CorpusProgramBasisSnapshot {
        stale_evidence: vec![EvidenceState::StaleEvidence],
        ..snapshot
    };
    assert!(!basis_snapshot_requires_helper_surface_follow_on(
        &contradictory_snapshot
    ));
}

#[test]
fn helper_surface_follow_on_activation_uses_validated_basis_truth() {
    let basis = helper_surface_follow_on_basis_fixture();

    let snapshot = corpus_program_basis_snapshot(&basis);
    assert!(basis_snapshot_requires_helper_surface_follow_on(&snapshot));
    assert!(basis_activates_helper_surface_follow_on(&basis));
}

#[test]
fn stop_state_tuple_matches_locked_truth() {
    let tuple = decision_contract_stop_state_tuple();

    assert_eq!(
        tuple.recommendation_status,
        RecommendationStatus::InsufficientRealCorpus
    );
    assert_eq!(tuple.decision_status, DecisionStatus::NotRecommended);
    assert!(tuple.open_blockers.is_empty());
    assert!(tuple.missing_evidence.is_empty());
    assert!(tuple.stale_evidence.is_empty());
    assert_eq!(
        tuple.decision_action,
        CorpusProgramDecisionAction::Stop
    );
    assert_eq!(
        tuple.decision_basis_code,
        CorpusProgramDecisionBasisCode::NoActionableCandidate
    );
    assert_eq!(
        tuple.required_next_action,
        RequiredNextAction::RecordStopWithoutNewMilestone
    );
}

#[test]
fn stop_state_tuple_matches_kernel_stop_decision() {
    let basis = stop_basis_fixture();

    let tuple = decision_contract_stop_state_tuple();
    let derived = derive_corpus_program_decision_contract(&basis).unwrap();
    let snapshot = corpus_program_basis_snapshot(&basis);

    assert_eq!(snapshot.recommendation_status, tuple.recommendation_status);
    assert_eq!(snapshot.decision_status, tuple.decision_status);
    assert_eq!(snapshot.open_blockers, tuple.open_blockers);
    assert_eq!(snapshot.missing_evidence, tuple.missing_evidence);
    assert_eq!(snapshot.stale_evidence, tuple.stale_evidence);
    assert_eq!(derived.decision_action, tuple.decision_action);
    assert_eq!(derived.decision_basis_code, tuple.decision_basis_code);
    assert_eq!(derived.required_next_action, tuple.required_next_action);
}

#[test]
fn decision_contract_exposes_promotion_ready_branch() {
    let basis = FamilyRecommendationAnalysisArtifact {
        recommendation_status: RecommendationStatus::Ranked,
        decision_summary: DecisionSummary {
            decision_status: DecisionStatus::Recommended,
            top_candidate_id: Some("fixture".to_string()),
            open_blockers: Vec::new(),
            warnings: Vec::new(),
            summary: "fixture".to_string(),
        },
        ranked_candidates: vec![helper_surface_candidate_fixture()],
        ..analysis_basis_fixture()
    };

    let derived = derive_corpus_program_decision_contract(&basis).unwrap();
    assert_eq!(
        derived.decision_action,
        CorpusProgramDecisionAction::PivotToFamilyPromotionRun
    );
    assert_eq!(
        derived.decision_basis_code,
        CorpusProgramDecisionBasisCode::PromotionReadyCandidate
    );
    assert_eq!(
        derived.required_next_action,
        RequiredNextAction::AuthorFamilyPromotionPlan
    );
}

#[test]
fn decision_contract_exposes_blocked_on_evidence_branch() {
    let basis = FamilyRecommendationAnalysisArtifact {
        recommendation_status: RecommendationStatus::NoStrongCandidate,
        decision_summary: DecisionSummary {
            decision_status: DecisionStatus::BlockedForNow,
            top_candidate_id: Some("fixture".to_string()),
            open_blockers: vec![DecisionReason::ThinRealExampleSupport],
            warnings: Vec::new(),
            summary: "fixture".to_string(),
        },
        evidence_summary: EvidenceSummary {
            missing_evidence: vec![EvidenceState::ThinRealExampleSupport],
            stale_evidence: Vec::new(),
            warnings: Vec::new(),
            summary: "fixture".to_string(),
        },
        ..analysis_basis_fixture()
    };

    let derived = derive_corpus_program_decision_contract(&basis).unwrap();
    assert_eq!(
        derived.decision_action,
        CorpusProgramDecisionAction::SpendCorpusRun1
    );
    assert_eq!(
        derived.decision_basis_code,
        CorpusProgramDecisionBasisCode::PlausibleCandidateMissingEvidence
    );
    assert_eq!(
        derived.required_next_action,
        RequiredNextAction::AuthorCorpusExpansionPlan
    );
}

#[test]
fn decision_contract_exposes_helper_surface_follow_on_branch() {
    let basis = helper_surface_follow_on_basis_fixture();

    let derived = derive_corpus_program_decision_contract(&basis).unwrap();
    assert_eq!(
        derived.decision_action,
        CorpusProgramDecisionAction::PivotToArchitectureSharedCoreFollowOn
    );
    assert_eq!(
        derived.decision_basis_code,
        CorpusProgramDecisionBasisCode::DurableNonPromotableHelperSurface
    );
    assert_eq!(
        derived.required_next_action,
        RequiredNextAction::AuthorArchitectureFollowOnPlan
    );
}

#[test]
fn decision_contract_exposes_policy_interpretation_blocker_branch() {
    let basis = FamilyRecommendationAnalysisArtifact {
        recommendation_status: RecommendationStatus::NoStrongCandidate,
        decision_summary: DecisionSummary {
            decision_status: DecisionStatus::BlockedForNow,
            top_candidate_id: Some("fixture".to_string()),
            open_blockers: vec![DecisionReason::RegressionWarning],
            warnings: Vec::new(),
            summary: "fixture".to_string(),
        },
        evidence_summary: EvidenceSummary {
            missing_evidence: Vec::new(),
            stale_evidence: Vec::new(),
            warnings: Vec::new(),
            summary: "fixture".to_string(),
        },
        ..analysis_basis_fixture()
    };

    let derived = derive_corpus_program_decision_contract(&basis).unwrap();
    assert_eq!(
        derived.decision_action,
        CorpusProgramDecisionAction::PivotToRecommendationPolicyRun
    );
    assert_eq!(
        derived.decision_basis_code,
        CorpusProgramDecisionBasisCode::PolicyInterpretationBlocker
    );
    assert_eq!(
        derived.required_next_action,
        RequiredNextAction::AuthorRecommendationPolicyPlan
    );
}

fn analysis_basis_fixture() -> FamilyRecommendationAnalysisArtifact {
    FamilyRecommendationAnalysisArtifact {
        schema_version: RECOMMENDATION_ANALYSIS_SCHEMA_VERSION,
        artifact_kind: PromotionArtifactKind::FamilyRecommendationAnalysis,
        generated_at: "2026-05-05T00:00:00Z".to_string(),
        coverage_path: "coverage.json".to_string(),
        coverage_sha256: "sha".to_string(),
        recommendation_status: RecommendationStatus::NoStrongCandidate,
        ranked_candidates: Vec::new(),
        decision_summary: DecisionSummary {
            decision_status: DecisionStatus::NotRecommended,
            top_candidate_id: None,
            open_blockers: Vec::new(),
            warnings: Vec::new(),
            summary: "fixture".to_string(),
        },
        evidence_summary: EvidenceSummary {
            missing_evidence: Vec::new(),
            stale_evidence: Vec::new(),
            warnings: Vec::new(),
            summary: "fixture".to_string(),
        },
        delta_from_previous: RecommendationDelta::no_previous_artifact(),
    }
}

fn helper_surface_follow_on_basis_fixture() -> FamilyRecommendationAnalysisArtifact {
    FamilyRecommendationAnalysisArtifact {
        recommendation_status: RecommendationStatus::NoStrongCandidate,
        ranked_candidates: vec![helper_surface_candidate_fixture()],
        decision_summary: DecisionSummary {
            decision_status: DecisionStatus::NotRecommended,
            top_candidate_id: Some("fixture".to_string()),
            open_blockers: vec![DecisionReason::HelperSurfaceNotPromotable],
            warnings: vec![DecisionReason::RegressionWarning],
            summary: "fixture".to_string(),
        },
        evidence_summary: EvidenceSummary {
            missing_evidence: Vec::new(),
            stale_evidence: Vec::new(),
            warnings: vec![DecisionReason::RegressionWarning],
            summary: "fixture".to_string(),
        },
        ..analysis_basis_fixture()
    }
}

fn helper_surface_candidate_fixture() -> RecommendationCandidateEntry {
    let tuple = durable_non_promotable_helper_surface_candidate_tuple();
    RecommendationCandidateEntry {
        candidate_id: "fixture".to_string(),
        cluster_ids: vec!["cluster".to_string()],
        primary_reason_code: UnsupportedFunctionReasonCode::UnsupportedFunctionSurface,
        overlap_family: "unknown".to_string(),
        promotion_readiness: tuple.promotion_readiness,
        hold_reasons: vec![tuple.hold_reason],
        next_step_status: tuple.next_step_status,
        next_step_detail: tuple.next_step_detail,
        leverage: RecommendationLeverage {
            real_example_hits: 2,
            promotion_relevant_regression_hits: 1,
            boundary_only_hits: 0,
            total_units_in_cluster: 3,
        },
        difficulty: RecommendationDifficulty {
            tier: DifficultyTier::Hard,
            why: "fixture".to_string(),
        },
        confidence: RecommendationConfidence {
            level: ConfidenceLevel::Low,
            why: "fixture".to_string(),
        },
        rationale: "fixture".to_string(),
    }
}

fn stop_basis_fixture() -> FamilyRecommendationAnalysisArtifact {
    FamilyRecommendationAnalysisArtifact {
        recommendation_status: RecommendationStatus::InsufficientRealCorpus,
        ..analysis_basis_fixture()
    }
}

