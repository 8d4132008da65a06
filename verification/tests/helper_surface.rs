use spec_core::family::artifacts::{
    ConfidenceLevel, CorpusProgramBasisSnapshot, CorpusProgramDecisionAction, CorpusProgramDecisionArtifact,
    CorpusProgramDecisionBasisCode, DecisionReason, DecisionStatus, DifficultyTier, NextStepDetail, PivotTargetClass,
    PromotionArtifactKind, RecommendationCandidateEntry, RecommendationConfidence, RecommendationDifficulty,
    RecommendationLeverage, RecommendationStatus, RequiredNextAction, UnsupportedFunctionReasonCode,
};
use spec_core::family::helper_surface::{
    classify_helper_surface, decision_matches_helper_surface_follow_on_tuple,
    durable_non_promotable_helper_surface_candidate_tuple, recommendation_matches_helper_surface_durable_hold_tuple,
    recommendation_uses_helper_surface_durable_hold_tuple, HelperSurfaceDisposition, HelperSurfaceSignal,
    HELPER_SURFACE_FINGERPRINT,
};


#[test]
fn helper_surface_classifies_durable_non_promotable_helper_surface() {
    assert_eq!(
        classify_helper_surface(&helper_surface_signal_fixture()),
        Some(HelperSurfaceDisposition::DurableNonPromotableHelperSurface)
    );
}

#[test]
fn helper_surface_rejects_wrong_primary_reason() {
    let signal = HelperSurfaceSignal {
        primary_reason_code: UnsupportedFunctionReasonCode::UnsupportedControlFlow,
        ..helper_surface_signal_fixture()
    };

    assert_eq!(classify_helper_surface(&signal), None);
}

#[test]
fn helper_surface_rejects_non_unknown_overlap() {
    let signal = HelperSurfaceSignal {
        overlap_family: "function.wrapper.pipeline*",
        ..helper_surface_signal_fixture()
    };

    assert_eq!(classify_helper_surface(&signal), None);
}

#[test]
fn helper_surface_rejects_zero_real_example_hits() {
    let signal = HelperSurfaceSignal {
        real_example_hits: 0,
        ..helper_surface_signal_fixture()
    };

    assert_eq!(classify_helper_surface(&signal), None);
}

#[test]
fn helper_surface_rejects_malformed_shape_fingerprint() {
    let signal = HelperSurfaceSignal {
        shape_fingerprint: "{not-json",
        ..helper_surface_signal_fixture()
    };

    assert_eq!(classify_helper_surface(&signal), None);
}

#[test]
fn helper_surface_rejects_semantically_wrong_shape_fingerprint() {
    let signal = HelperSurfaceSignal {
        shape_fingerprint: "{\"schema_version\":1,\"function_dep_arity\":0,\"callable_dep_topology_class\":\"no_deps_or_helper\",\"contract_input_count\":2,\"has_return\":true,\"authored_body_kind\":\"neither\"}",
        ..helper_surface_signal_fixture()
    };

    assert_eq!(classify_helper_surface(&signal), None);
}

#[test]
fn helper_surface_candidate_tuple_matches_exact_frozen_contract() {
    let candidate = helper_surface_candidate_fixture();

    assert!(recommendation_matches_helper_surface_durable_hold_tuple(
        &candidate
    ));
    assert!(recommendation_uses_helper_surface_durable_hold_tuple(
        &candidate
    ));
}

#[test]
fn helper_surface_candidate_tuple_rejects_contradictory_hold_state() {
    let candidate = RecommendationCandidateEntry {
        next_step_detail: NextStepDetail::ReadyForPromotion,
        ..helper_surface_candidate_fixture()
    };

    assert!(recommendation_uses_helper_surface_durable_hold_tuple(
        &candidate
    ));
    assert!(!recommendation_matches_helper_surface_durable_hold_tuple(
        &candidate
    ));
}

#[test]
fn helper_surface_follow_on_decision_tuple_matches_exact_frozen_contract() {
    let artifact = CorpusProgramDecisionArtifact {
        schema_version: 1,
        artifact_kind: PromotionArtifactKind::CorpusProgramDecision,
        generated_at: "2026-05-05T02:00:00Z".to_string(),
        analysis_basis_path: "analysis.json".to_string(),
        analysis_basis_sha256: "sha".to_string(),
        basis_snapshot: CorpusProgramBasisSnapshot {
            recommendation_status: RecommendationStatus::NoStrongCandidate,
            decision_status: DecisionStatus::NotRecommended,
            top_candidate_id: Some("fixture".to_string()),
            open_blockers: vec![DecisionReason::HelperSurfaceNotPromotable],
            missing_evidence: Vec::new(),
            stale_evidence: Vec::new(),
        },
        decision_action: CorpusProgramDecisionAction::PivotToArchitectureSharedCoreFollowOn,
        decision_basis_code: CorpusProgramDecisionBasisCode::DurableNonPromotableHelperSurface,
        pivot_target_class: Some(PivotTargetClass::ArchitectureSharedCoreFollowOn),
        required_next_action: RequiredNextAction::AuthorArchitectureFollowOnPlan,
        summary: "fixture".to_string(),
    };

    assert!(decision_matches_helper_surface_follow_on_tuple(&artifact));

    let contradictory_artifact = CorpusProgramDecisionArtifact {
        required_next_action: RequiredNextAction::AuthorCorpusExpansionPlan,
        ..artifact
    };
    assert!(!decision_matches_helper_surface_follow_on_tuple(
        &contradictory_artifact
    ));
}

fn helper_surface_signal_fixture() -> HelperSurfaceSignal<'static> {
    HelperSurfaceSignal {
        primary_reason_code: UnsupportedFunctionReasonCode::UnsupportedFunctionSurface,
        overlap_family: "unknown",
        real_example_hits: 2,
        shape_fingerprint: HELPER_SURFACE_FINGERPRINT,
    }
}

fn helper_surface_candidate_fixture() -> RecommendationCandidateEntry {
    let tuple = durable_non_promotable_helper_surface_candidate_tuple();
    RecommendationCandidateEntry {
        candidate_id: "fixture".to_string(),
        cluster_ids: vec!["cluster".to_string()],
        primary_reason_code: UnsupportedFunctionReasonCode::UnsupportedFunctionSurface,
        overlap_family: "unknown".to_string(),
        promotion_readiness: tuple.promotion_readiness,
        hold_reasons: vec![tuple.hold_reason],
        next_step_status: tuple.next_step_status,
        next_step_detail: tuple.next_step_detail,
        leverage: RecommendationLeverage {
            real_example_hits: 2,
            promotion_relevant_regression_hits: 1,
            boundary_only_hits: 0,
            total_units_in_cluster: 3,
        },
        difficulty: RecommendationDifficulty {
            tier: DifficultyTier::Hard,
            why: "fixture".to_string(),
        },
        confidence: RecommendationConfidence {
            level: ConfidenceLevel::Low,
            why: "fixture".to_string(),
        },
        rationale: "fixture".to_string(),
    }
}



const HELPER_FINGERPRINT: &str = "{\"schema_version\":1,\"function_dep_arity\":0,\"callable_dep_topology_class\":\"no_deps_or_helper\",\"contract_input_count\":1,\"has_return\":true,\"authored_body_kind\":\"neither\"}";

#[test]
fn helper_surface_helper_surface_classifies_durable_non_promotable_helper_surface() {
    let signal = HelperSurfaceSignal {
        primary_reason_code: UnsupportedFunctionReasonCode::UnsupportedFunctionSurface,
        overlap_family: "unknown",
        real_example_hits: 2,
        shape_fingerprint: HELPER_FINGERPRINT,
    };

    assert_eq!(
        classify_helper_surface(&signal),
        Some(HelperSurfaceDisposition::DurableNonPromotableHelperSurface)
    );
}

#[test]
fn helper_surface_rejects_non_matching_signal() {
    let signal = HelperSurfaceSignal {
        primary_reason_code: UnsupportedFunctionReasonCode::UnsupportedFunctionSurface,
        overlap_family: "function.wrapper.pipeline*",
        real_example_hits: 2,
        shape_fingerprint: HELPER_FINGERPRINT,
    };

    assert_eq!(classify_helper_surface(&signal), None);
}


#[test]
fn helper_surface_rejects_fingerprint_that_repeats_a_key() {
    let signal = HelperSurfaceSignal {
        shape_fingerprint: "{\"schema_version\":7,\"schema_version\":1,\"function_dep_arity\":0,\"callable_dep_topology_class\":\"no_deps_or_helper\",\"contract_input_count\":1,\"has_return\":true,\"authored_body_kind\":\"neither\"}",
        ..helper_surface_signal_fixture()
    };

    assert_eq!(classify_helper_surface(&signal), None);
}

#[test]
fn helper_surface_accepts_reordered_spaced_fingerprint() {
    let signal = HelperSurfaceSignal {
        shape_fingerprint: "{ \"authored_body_kind\" : \"neither\", \"has_return\": true, \"contract_input_count\": 1,\n \"callable_dep_topology_class\": \"no_deps_or_helper\", \"function_dep_arity\": 0, \"schema_version\": 1 }",
        ..helper_surface_signal_fixture()
    };

    assert_eq!(
        classify_helper_surface(&signal),
        Some(HelperSurfaceDisposition::DurableNonPromotableHelperSurface)
    );
}

#[test]
fn helper_surface_accepts_fingerprint_as_array_in_field_order() {
    let signal = HelperSurfaceSignal {
        shape_fingerprint: "[1, 0, \"no_deps_or_helper\", 1, true, \"neither\"]",
        ..helper_surface_signal_fixture()
    };
    assert_eq!(
        classify_helper_surface(&signal),
        Some(HelperSurfaceDisposition::DurableNonPromotableHelperSurface)
    );
}

#[test]
fn helper_surface_rejects_array_fingerprint_of_wrong_length_or_values() {
    for text in [
        "[1, 0, \"no_deps_or_helper\", 1, true, \"neither\", 7]",
        "[1, 0, \"no_deps_or_helper\", 1, true]",
        "[0, 1, \"no_deps_or_helper\", 1, true, \"neither\"]",
    ] {
        let signal = HelperSurfaceSignal { shape_fingerprint: text, ..helper_surface_signal_fixture() };
        assert_eq!(classify_helper_surface(&signal), None, "{text}");
    }
}
