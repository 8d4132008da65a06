use spec_core::family::analysis_checks::{sha256_hex, WorkspaceFile};
use spec_core::family::artifacts::{
    ConfidenceLevel, CorpusProgramBasisSnapshot, CorpusProgramDecisionAction, CorpusProgramDecisionArtifact,
    CorpusProgramDecisionBasisCode, DecisionReason, DecisionStatus, DecisionSummary, DifficultyTier, EvidenceState,
    EvidenceSummary, FamilyRecommendationAnalysisArtifact, PivotTargetClass, PromotionArtifactKind,
    RecommendationCandidateEntry, RecommendationConfidence, RecommendationDelta, RecommendationDifficulty,
    RecommendationLeverage, RecommendationStatus, RequiredNextAction, UnsupportedFunctionReasonCode,
    RECOMMENDATION_ANALYSIS_SCHEMA_VERSION,
};
use spec_core::family::basis_checks::{
    decision_uses_helper_surface_follow_on_tuple, missing_or_stale_evidence, BasisLookup,
};
use spec_core::family::coverage_checks::{
    CandidateStatus, CorpusSourceEntry, CoverageWorkspace, FamilyCoverageArtifact, FamilyCoverageEntry,
    FunctionCoverageTotals, NonFunctionCoverageTotals, SourceKind, UnsupportedClusterEntry,
};
use spec_core::family::error::XtaskError;
use spec_core::family::execution_checks::{
    ensure_repo_relative_paths_sorted, looks_like_run_id, validate_family_and_run_id, ApprovalRecord,
    ApprovalStatus, BlockerKind, BlockingStep, CommandRecord, ExecutionStatus, GateSummary, MachineEvidence,
    MachineEvidenceKind, PromotionApprovals, PromotionBlockerArtifact, PromotionExecutionArtifact, RunWorkspace,
    StepGateStatus,
};
use spec_core::family::helper_surface::durable_non_promotable_helper_surface_candidate_tuple;
use spec_core::family::language::TargetLanguage;
use spec_core::family::paths::{FAMILY_COVERAGE_LATEST_PATH, FAMILY_RECOMMENDATION_ANALYSIS_LATEST_PATH};
use spec_core::family::recommendation_checks::{
    validate_existing_repo_relative_path, FamilyRecommendationArtifact, RankedCandidate, RecommendationWorkspace,
};

const COVERAGE_BYTES: &[u8] = b"coverage bytes";
const ANALYSIS_BYTES: &[u8] = b"analysis bytes";
const INVENTORY_BYTES: &[u8] = b"inventory bytes";
const FAMILY: &str = "function.wrapper.pipeline.v1";
const RUN_ID: &str = "20260505T030000Z-function.wrapper.pipeline.v1";

fn message(result: Result<(), XtaskError>) -> String {
    match result {
        Err(XtaskError::InvalidInput(m)) => m,
        other => panic!("unexpected {other:?}"),
    }
}

fn held_candidate() -> RecommendationCandidateEntry {
    let tuple = durable_non_promotable_helper_surface_candidate_tuple();
    RecommendationCandidateEntry {
        candidate_id: "fixture".to_string(),
        cluster_ids: vec!["cluster".to_string()],
        primary_reason_code: UnsupportedFunctionReasonCode::UnsupportedFunctionSurface,
        overlap_family: "unknown".to_string(),
        promotion_readiness: tuple.promotion_readiness,
        hold_reasons: vec![tuple.hold_reason],
        next_step_status: tuple.next_step_status,
        next_step_detail: tuple.next_step_detail,
        leverage: RecommendationLeverage {
            real_example_hits: 2,
            promotion_relevant_regression_hits: 1,
            boundary_only_hits: 0,
            total_units_in_cluster: 3,
        },
        difficulty: RecommendationDifficulty { tier: DifficultyTier::Hard, why: "fixture".to_string() },
        confidence: RecommendationConfidence { level: ConfidenceLevel::Low, why: "fixture".to_string() },
        rationale: "fixture".to_string(),
    }
}

fn analysis() -> FamilyRecommendationAnalysisArtifact {
    FamilyRecommendationAnalysisArtifact {
        schema_version: RECOMMENDATION_ANALYSIS_SCHEMA_VERSION,
        artifact_kind: PromotionArtifactKind::FamilyRecommendationAnalysis,
        generated_at: "2026-05-05T02:00:00Z".to_string(),
        coverage_path: FAMILY_COVERAGE_LATEST_PATH.to_string(),
        coverage_sha256: sha256_hex(&COVERAGE_BYTES.to_vec()),
        recommendation_status: RecommendationStatus::NoStrongCandidate,
        ranked_candidates: vec![held_candidate()],
        decision_summary: DecisionSummary {
            decision_status: DecisionStatus::NotRecommended,
            top_candidate_id: Some("fixture".to_string()),
            open_blockers: vec![DecisionReason::HelperSurfaceNotPromotable],
            warnings: vec![DecisionReason::RegressionWarning],
            summary: "fixture".to_string(),
        },
        evidence_summary: EvidenceSummary {
            missing_evidence: Vec::new(),
            stale_evidence: Vec::new(),
            warnings: vec![DecisionReason::RegressionWarning],
            summary: "fixture".to_string(),
        },
        delta_from_previous: RecommendationDelta::no_previous_artifact(),
    }
}

fn basis() -> BasisLookup {
    BasisLookup {
        file: WorkspaceFile::Bytes(ANALYSIS_BYTES.to_vec()),
        parsed: Ok(analysis()),
        coverage: WorkspaceFile::Bytes(COVERAGE_BYTES.to_vec()),
    }
}

fn analysis_sha() -> String {
    sha256_hex(&ANALYSIS_BYTES.to_vec())
}

fn decision() -> CorpusProgramDecisionArtifact {
    CorpusProgramDecisionArtifact {
        schema_version: 1,
        artifact_kind: PromotionArtifactKind::CorpusProgramDecision,
        generated_at: "2026-05-05T03:00:00Z".to_string(),
        analysis_basis_path: FAMILY_RECOMMENDATION_ANALYSIS_LATEST_PATH.to_string(),
        analysis_basis_sha256: analysis_sha(),
        basis_snapshot: CorpusProgramBasisSnapshot {
            recommendation_status: RecommendationStatus::NoStrongCandidate,
            decision_status: DecisionStatus::NotRecommended,
            top_candidate_id: Some("fixture".to_string()),
            open_blockers: vec![DecisionReason::HelperSurfaceNotPromotable],
            missing_evidence: Vec::new(),
            stale_evidence: Vec::new(),
        },
        decision_action: CorpusProgramDecisionAction::PivotToArchitectureSharedCoreFollowOn,
        decision_basis_code: CorpusProgramDecisionBasisCode::DurableNonPromotableHelperSurface,
        pivot_target_class: Some(PivotTargetClass::ArchitectureSharedCoreFollowOn),
        required_next_action: RequiredNextAction::AuthorArchitectureFollowOnPlan,
        summary: "fixture".to_string(),
    }
}

#[test]
fn corpus_decision_accepts_follow_on_over_matching_basis() {
    assert!(decision().validate(&basis()).is_ok());
    assert!(decision_uses_helper_surface_follow_on_tuple(&decision()));
}

#[test]
fn corpus_decision_reports_each_problem() {
    let mut d = decision();
    d.schema_version = 2;
    assert_eq!(message(d.validate(&basis())), "corpus-program decision schema_version must be 1, found 2");

    let mut d = decision();
    d.summary = "a\nb".to_string();
    assert!(message(d.validate(&basis())).contains("summary must be a single non-empty line"));

    let mut d = decision();
    d.analysis_basis_sha256 = "00".to_string();
    assert!(message(d.validate(&basis())).starts_with("corpus-program decision analysis_basis_path sha `00`"));

    let bad_parse = BasisLookup { parsed: Err(XtaskError::InvalidInput("unparsable".to_string())), ..basis() };
    assert_eq!(message(decision().validate(&bad_parse)), "unparsable");

    let mut d = decision();
    d.basis_snapshot.top_candidate_id = None;
    assert!(message(d.validate(&basis())).contains("basis_snapshot must exactly match"));

    let mut d = decision();
    d.decision_action = CorpusProgramDecisionAction::Stop;
    d.decision_basis_code = CorpusProgramDecisionBasisCode::NoActionableCandidate;
    d.pivot_target_class = None;
    d.required_next_action = RequiredNextAction::RecordStopWithoutNewMilestone;
    assert!(message(d.validate(&basis())).contains("must stay aligned"));

    let mut d = decision();
    d.required_next_action = RequiredNextAction::AuthorCorpusExpansionPlan;
    assert!(message(d.validate(&basis())).contains("must use the frozen action"));
}

#[test]
fn missing_or_stale_evidence_keeps_order_without_repeats() {
    let mut a = analysis();
    a.evidence_summary.missing_evidence = vec![EvidenceState::ThinRegressionSupport];
    a.evidence_summary.stale_evidence =
        vec![EvidenceState::StaleEvidence, EvidenceState::ThinRegressionSupport, EvidenceState::StaleEvidence];
    assert_eq!(
        missing_or_stale_evidence(&a),
        vec![EvidenceState::ThinRegressionSupport, EvidenceState::StaleEvidence]
    );
}

fn recommendation() -> FamilyRecommendationArtifact {
    FamilyRecommendationArtifact {
        schema_version: 1,
        artifact_kind: PromotionArtifactKind::FamilyRecommendation,
        generated_at: "2026-05-05T04:00:00Z".to_string(),
        inventory_path: ".semantic-family-artifacts/family-promotion/inventory/current.json".to_string(),
        inventory_sha256: sha256_hex(&INVENTORY_BYTES.to_vec()),
        target_language: TargetLanguage::Rust,
        ranked_candidates: vec![RankedCandidate {
            family: FAMILY.to_string(),
            evidence: vec!["docs/evidence.md".to_string()],
            expected_leverage: "high".to_string(),
            expected_risks: Vec::new(),
        }],
        analysis_basis_path: None,
        analysis_basis_sha256: None,
        decision_status: None,
        open_blockers: None,
        missing_or_stale_evidence: None,
    }
}

fn scoped_recommendation() -> FamilyRecommendationArtifact {
    FamilyRecommendationArtifact {
        schema_version: 2,
        analysis_basis_path: Some(FAMILY_RECOMMENDATION_ANALYSIS_LATEST_PATH.to_string()),
        analysis_basis_sha256: Some(analysis_sha()),
        decision_status: Some(DecisionStatus::NotRecommended),
        open_blockers: Some(vec![DecisionReason::HelperSurfaceNotPromotable]),
        missing_or_stale_evidence: Some(Vec::new()),
        ..recommendation()
    }
}

fn recommendation_workspace() -> RecommendationWorkspace {
    RecommendationWorkspace {
        inventory: WorkspaceFile::Bytes(INVENTORY_BYTES.to_vec()),
        refused_paths: Vec::new(),
        analysis_basis: basis(),
    }
}

#[test]
fn recommendation_accepts_global_and_scoped_forms() {
    assert!(recommendation().validate(None, &recommendation_workspace()).is_ok());
    assert!(scoped_recommendation().validate(Some(FAMILY), &recommendation_workspace()).is_ok());
}

#[test]
fn recommendation_reports_each_problem() {
    let ws = recommendation_workspace();
    assert_eq!(
        message(recommendation().validate(Some(FAMILY), &ws)),
        "recommendation schema_version must be 2, found 1"
    );

    let mut r = recommendation();
    r.target_language = TargetLanguage::Typescript;
    assert_eq!(message(r.validate(None, &ws)), "global recommendation target_language must be `rust`");

    let mut r = recommendation();
    r.ranked_candidates.clear();
    assert_eq!(message(r.validate(None, &ws)), "recommendation must include at least one ranked candidate");

    let mut r = recommendation();
    r.inventory_path = "elsewhere/current.json".to_string();
    assert!(message(r.validate(None, &ws)).contains("must stay under `.semantic-family-artifacts/family-promotion/inventory`"));

    let mut r = recommendation();
    r.inventory_sha256 = "0".to_string();
    assert!(message(r.validate(None, &ws)).starts_with("recommendation inventory_sha256 `0` does not match"));

    let refused = RecommendationWorkspace {
        refused_paths: vec![("docs/evidence.md".to_string(), XtaskError::InvalidInput("not here".to_string()))],
        ..recommendation_workspace()
    };
    assert_eq!(message(recommendation().validate(None, &refused)), "not here");

    let mut r = recommendation();
    r.ranked_candidates[0].evidence.clear();
    assert!(message(r.validate(None, &ws)).contains("must cite at least one repo path in evidence[]"));

    let mut r = recommendation();
    r.decision_status = Some(DecisionStatus::Recommended);
    assert_eq!(
        message(r.validate(None, &ws)),
        "global recommendation artifacts must not include M33 analysis-basis fields"
    );

    let mut r = scoped_recommendation();
    r.open_blockers = None;
    assert_eq!(message(r.validate(Some(FAMILY), &ws)), "family-scoped recommendation must include open_blockers");

    let mut r = scoped_recommendation();
    r.decision_status = Some(DecisionStatus::Recommended);
    assert!(message(r.validate(Some(FAMILY), &ws)).contains("decision_status must match the analysis basis"));

    let mut r = scoped_recommendation();
    r.missing_or_stale_evidence = Some(vec![EvidenceState::StaleEvidence]);
    assert!(message(r.validate(Some(FAMILY), &ws)).contains("missing_or_stale_evidence must match"));

    assert!(message(scoped_recommendation().validate(Some("function.other.v1"), &ws)).contains("must match ranked candidate"));
}

#[test]
fn existing_paths_follow_refusals() {
    let refusals = vec![("a/b".to_string(), XtaskError::InvalidInput("gone".to_string()))];
    assert_eq!(message(validate_existing_repo_relative_path("a/b", "f", &refusals)), "gone");
    assert!(validate_existing_repo_relative_path("a/c", "f", &refusals).is_ok());
    assert!(message(validate_existing_repo_relative_path("../a", "f", &refusals)).contains("normal path components"));
}

#[test]
fn run_ids() {
    assert!(looks_like_run_id(RUN_ID, FAMILY));
    assert!(!looks_like_run_id("20260505T030000-function.wrapper.pipeline.v1", FAMILY));
    assert!(!looks_like_run_id("2026050aT030000Z-function.wrapper.pipeline.v1", FAMILY));
    assert!(!looks_like_run_id(RUN_ID, "function.other.v1"));
    assert!(validate_family_and_run_id(FAMILY, RUN_ID, FAMILY, RUN_ID).is_ok());
    assert_eq!(
        message(validate_family_and_run_id(FAMILY, RUN_ID, "function.other.v1", RUN_ID)),
        "artifact family `function.wrapper.pipeline.v1` does not match artifact path family `function.other.v1`"
    );
    assert_eq!(
        message(validate_family_and_run_id(FAMILY, "x", FAMILY, "x")),
        "artifact run_id `x` must match `{UTC-basic-timestamp}-function.wrapper.pipeline.v1`"
    );
}

#[test]
fn sorted_paths() {
    assert!(ensure_repo_relative_paths_sorted(&vec!["a".to_string(), "b".to_string()], "f").is_ok());
    assert_eq!(
        message(ensure_repo_relative_paths_sorted(&vec!["b".to_string(), "a".to_string()], "f")),
        "f must be sorted lexicographically"
    );
}

fn execution() -> PromotionExecutionArtifact {
    PromotionExecutionArtifact {
        schema_version: 2,
        artifact_kind: PromotionArtifactKind::PromotionExecution,
        run_id: RUN_ID.to_string(),
        family: FAMILY.to_string(),
        target_language: TargetLanguage::Rust,
        status: ExecutionStatus::Green,
        recommendation_path: ".semantic-family-artifacts/family-promotion/recommendation.latest.json".to_string(),
        analysis_basis_path: FAMILY_RECOMMENDATION_ANALYSIS_LATEST_PATH.to_string(),
        analysis_basis_sha256: analysis_sha(),
        decision_status_at_start: DecisionStatus::NotRecommended,
        open_blockers_at_start: vec![DecisionReason::HelperSurfaceNotPromotable],
        missing_or_stale_evidence_at_start: Vec::new(),
        approvals: PromotionApprovals {
            target_family: ApprovalRecord { status: ApprovalStatus::Approved },
            final_output: ApprovalRecord { status: ApprovalStatus::Pending },
        },
        files_changed: vec!["a.rs".to_string(), "b.rs".to_string()],
        commands: vec![CommandRecord {
            step: "prove".to_string(),
            command: "cargo xtask family prove".to_string(),
            exit_code: 0,
            started_at: "2026-05-05T03:00:00Z".to_string(),
            finished_at: "2026-05-05T03:01:00Z".to_string(),
            artifact_path: None,
        }],
        referenced_proof_artifacts: vec![
            "out/prove.latest.json".to_string(),
            "out/attempt-1.json".to_string(),
            "out/certification.report.json".to_string(),
        ],
        iterations: 1,
        gate_summary: GateSummary {
            smoke: StepGateStatus::Pass,
            prove: StepGateStatus::Pass,
            certify: StepGateStatus::Pass,
        },
        notes: vec!["done".to_string()],
    }
}

fn run_workspace() -> RunWorkspace {
    RunWorkspace { refused_paths: Vec::new(), analysis_basis: basis() }
}

#[test]
fn execution_record_accepts_complete_run() {
    assert!(execution().validate(FAMILY, RUN_ID, &run_workspace()).is_ok());
}

#[test]
fn execution_record_reports_each_problem() {
    let ws = run_workspace();
    let mut x = execution();
    x.schema_version = 1;
    assert_eq!(message(x.validate(FAMILY, RUN_ID, &ws)), "promotion execution schema_version must be 2, found 1");

    let mut x = execution();
    x.open_blockers_at_start.clear();
    assert_eq!(
        message(x.validate(FAMILY, RUN_ID, &ws)),
        "promotion execution open_blockers_at_start must match the analysis basis"
    );

    let mut x = execution();
    x.recommendation_path = "out/recommendation.json".to_string();
    assert!(message(x.validate(FAMILY, RUN_ID, &ws)).contains("must reference `recommendation.latest.json`"));

    let mut x = execution();
    x.approvals.target_family.status = ApprovalStatus::Pending;
    assert!(message(x.validate(FAMILY, RUN_ID, &ws)).contains("approvals.target_family.status"));

    let mut x = execution();
    x.files_changed.reverse();
    assert_eq!(
        message(x.validate(FAMILY, RUN_ID, &ws)),
        "promotion execution files_changed must be sorted lexicographically"
    );

    let mut x = execution();
    x.commands[0].finished_at = "later".to_string();
    assert!(message(x.validate(FAMILY, RUN_ID, &ws)).contains("commands[] must include"));

    let mut x = execution();
    x.referenced_proof_artifacts.pop();
    assert!(message(x.validate(FAMILY, RUN_ID, &ws)).contains("must include prove.latest.json"));

    let mut x = execution();
    x.notes.push(String::new());
    assert!(message(x.validate(FAMILY, RUN_ID, &ws)).contains("notes[]"));

    let mut x = execution();
    x.target_language = TargetLanguage::Typescript;
    x.family = "function.wrapper.pipeline.chain3.v1".to_string();
    x.run_id = "20260505T030000Z-function.wrapper.pipeline.chain3.v1".to_string();
    assert!(message(x.validate(&x.family.clone(), &x.run_id.clone(), &ws)).starts_with("promotion execution target_language supports"));
}

fn blocker() -> PromotionBlockerArtifact {
    PromotionBlockerArtifact {
        schema_version: 2,
        artifact_kind: PromotionArtifactKind::PromotionBlocker,
        run_id: RUN_ID.to_string(),
        family: FAMILY.to_string(),
        target_language: TargetLanguage::Rust,
        analysis_basis_path: FAMILY_RECOMMENDATION_ANALYSIS_LATEST_PATH.to_string(),
        analysis_basis_sha256: analysis_sha(),
        decision_status_at_start: DecisionStatus::NotRecommended,
        open_blockers_at_start: vec![DecisionReason::HelperSurfaceNotPromotable],
        missing_or_stale_evidence_at_start: Vec::new(),
        blocking_step: BlockingStep::Prove,
        blocker_kind: BlockerKind::ProveSuiteFailure,
        summary: "prove failed".to_string(),
        machine_evidence: vec![MachineEvidence {
            kind: MachineEvidenceKind::Command,
            path: None,
            command: Some("cargo test".to_string()),
            exit_code: Some(101),
            observed_at: "2026-05-05T03:00:00Z".to_string(),
            note: "suite failed".to_string(),
        }],
        required_human_action: "fix the suite".to_string(),
        safe_next_actions: vec!["rerun prove".to_string()],
    }
}

#[test]
fn blocker_report_checks() {
    let ws = run_workspace();
    assert!(blocker().validate(FAMILY, RUN_ID, &ws).is_ok());

    let mut b = blocker();
    b.machine_evidence[0].exit_code = None;
    assert_eq!(
        message(b.validate(FAMILY, RUN_ID, &ws)),
        "command machine_evidence entries must include command and exit_code"
    );

    let mut b = blocker();
    b.machine_evidence[0].kind = MachineEvidenceKind::Artifact;
    assert_eq!(
        message(b.validate(FAMILY, RUN_ID, &ws)),
        "artifact and diff machine_evidence entries must include path"
    );

    let mut b = blocker();
    b.machine_evidence[0].kind = MachineEvidenceKind::Diff;
    b.machine_evidence[0].path = Some("diffs/x.patch".to_string());
    assert!(b.validate(FAMILY, RUN_ID, &ws).is_ok());

    let mut b = blocker();
    b.safe_next_actions.clear();
    assert_eq!(message(b.validate(FAMILY, RUN_ID, &ws)), "blocker report safe_next_actions[] must not be empty");

    let mut b = blocker();
    b.decision_status_at_start = DecisionStatus::Recommended;
    assert_eq!(
        message(b.validate(FAMILY, RUN_ID, &ws)),
        "blocker report decision_status_at_start must match the analysis basis"
    );

    assert!(message(blocker().validate(FAMILY, "other", &ws)).contains("does not match artifact path run id"));
}

fn coverage() -> FamilyCoverageArtifact {
    FamilyCoverageArtifact {
        schema_version: 1,
        artifact_kind: PromotionArtifactKind::FamilyCoverageSnapshot,
        generated_at: "2026-05-05T00:00:00Z".to_string(),
        inventory_path: ".semantic-family-artifacts/family-promotion/inventory/current.json".to_string(),
        inventory_sha256: sha256_hex(&INVENTORY_BYTES.to_vec()),
        corpus_manifest_path: "semantic-families/corpus/rust-function.toml".to_string(),
        corpus_manifest_sha256: sha256_hex(&b"manifest".to_vec()),
        sources: vec![CorpusSourceEntry {
            id: "real".to_string(),
            path: "fixtures/real".to_string(),
            kind: SourceKind::RealExample,
            counts_toward_recommendation: true,
            note: "fixture".to_string(),
            unit_count: 2,
        }],
        function_coverage: FunctionCoverageTotals {
            total_units: 2,
            promoted_family_units: 0,
            supported_unpromoted_family_units: 0,
            unsupported_function_units: 2,
        },
        non_function_coverage: NonFunctionCoverageTotals {
            total_units: 0,
            supported_sum_units: 0,
            supported_data_units: 0,
            other_units: 0,
        },
        family_coverage: vec![FamilyCoverageEntry {
            family: FAMILY.to_string(),
            unit_count: 1,
            unit_ids: vec!["real::pricing/calculate_total".to_string()],
            source_ids: vec!["real".to_string()],
        }],
        unsupported_clusters: vec![UnsupportedClusterEntry {
            cluster_id: "unsupported_function_surface-e40675da6fa0".to_string(),
            reason_code: UnsupportedFunctionReasonCode::UnsupportedFunctionSurface,
            shape_fingerprint: "{\"schema_version\":1}".to_string(),
            representative_unit_ids: vec!["real::pricing/helper".to_string()],
            source_ids: vec!["real".to_string()],
            real_example_hits: 2,
            promotion_relevant_regression_hits: 1,
            boundary_only_hits: 0,
            overlap_family: "unknown".to_string(),
            candidate_status: CandidateStatus::Rankable,
        }],
    }
}

fn coverage_workspace() -> CoverageWorkspace {
    CoverageWorkspace {
        inventory: WorkspaceFile::Bytes(INVENTORY_BYTES.to_vec()),
        corpus_manifest: WorkspaceFile::Bytes(b"manifest".to_vec()),
        refused_paths: Vec::new(),
    }
}

#[test]
fn coverage_snapshot_checks() {
    let ws = coverage_workspace();
    assert!(coverage().validate(&ws).is_ok());

    let mut c = coverage();
    c.sources[0].unit_count = 0;
    assert_eq!(message(c.validate(&ws)), "coverage source `real` must report at least one unit");

    let mut c = coverage();
    c.family_coverage[0].unit_ids.clear();
    assert!(message(c.validate(&ws)).contains("must include unit_count, unit_ids, and source_ids"));

    let mut c = coverage();
    c.unsupported_clusters[0].overlap_family = "function.other*".to_string();
    assert!(message(c.validate(&ws)).starts_with("overlap_family `function.other*`"));

    let mut c = coverage();
    c.corpus_manifest_path = "semantic-families/corpus/other.toml".to_string();
    assert!(message(c.validate(&ws)).contains("must stay under or equal `semantic-families/corpus/rust-function.toml`"));

    let missing = CoverageWorkspace {
        inventory: WorkspaceFile::Missing(XtaskError::InvalidInput("no inventory".to_string())),
        ..coverage_workspace()
    };
    assert_eq!(message(coverage().validate(&missing)), "no inventory");
}
