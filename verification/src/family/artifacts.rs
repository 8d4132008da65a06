//! The promotion-analysis artifacts that family decisions read, as plain values.
use vstd::prelude::*;

verus! {

pub const RECOMMENDATION_ANALYSIS_SCHEMA_VERSION: u64 = 4;

#[derive(Debug, Clone, Copy, PartialEq, Eq, Structural)]
pub enum PromotionArtifactKind {
    FamilyRecommendation,
    FamilyCoverageSnapshot,
    FamilyRecommendationAnalysis,
    CorpusProgramDecision,
    PromotionExecution,
    PromotionBlocker,
}

/// Why the semantic review left a function unsupported.
#[derive(Debug, Clone, Copy, PartialEq, Eq, Structural)]
pub enum UnsupportedFunctionReasonCode {
    UnsupportedFunctionSurface,
    UnsupportedControlFlow,
    UnsupportedDepTopology,
    UnsupportedArithmeticShape,
    UnsupportedRequiredArgumentExpression,
    UnsupportedWrapperBodyShape,
}

#[derive(Debug, Clone, Copy, PartialEq, Eq, Structural)]
pub enum RecommendationStatus {
    Ranked,
    NoStrongCandidate,
    InsufficientRealCorpus,
}

#[derive(Debug, Clone, Copy, PartialEq, Eq, Structural)]
pub enum DecisionStatus {
    Recommended,
    BlockedForNow,
    NotRecommended,
}

#[derive(Debug, Clone, Copy, PartialEq, Eq, Structural)]
pub enum DecisionReason {
    UnknownOverlapFamily,
    HardDifficulty,
    ThinRealExampleSupport,
    ThinRegressionSupport,
    HelperSurfaceNotPromotable,
    RegressionWarning,
}

#[derive(Debug, Clone, Copy, PartialEq, Eq, Structural)]
pub enum EvidenceState {
    ThinRealExampleSupport,
    ThinRegressionSupport,
    StaleEvidence,
}

#[derive(Debug, Clone, Copy, PartialEq, Eq, Structural)]
pub enum DifficultyTier {
    Adjacent,
    Moderate,
    Hard,
}

#[derive(Debug, Clone, Copy, PartialEq, Eq, Structural)]
pub enum ConfidenceLevel {
    Low,
    Medium,
    High,
}

#[derive(Debug, Clone, Copy, PartialEq, Eq, Structural)]
pub enum CorpusProgramDecisionAction {
    Stop,
    SpendCorpusRun1,
    PivotToFamilyPromotionRun,
    PivotToRecommendationPolicyRun,
    PivotToArchitectureSharedCoreFollowOn,
}

#[derive(Debug, Clone, Copy, PartialEq, Eq, Structural)]
pub enum CorpusProgramDecisionBasisCode {
    PromotionReadyCandidate,
    PlausibleCandidateMissingEvidence,
    DurableNonPromotableHelperSurface,
    NoActionableCandidate,
    PolicyInterpretationBlocker,
}

#[derive(Debug, Clone, Copy, PartialEq, Eq, Structural)]
pub enum RequiredNextAction {
    RecordStopWithoutNewMilestone,
    AuthorCorpusExpansionPlan,
    AuthorFamilyPromotionPlan,
    AuthorRecommendationPolicyPlan,
    AuthorArchitectureFollowOnPlan,
}

#[derive(Debug, Clone, Copy, PartialEq, Eq, Structural)]
pub enum PivotTargetClass {
    FamilyPromotionRun,
    RecommendationPolicyRun,
    ArchitectureSharedCoreFollowOn,
}

#[derive(Debug, Clone, Copy, PartialEq, Eq, Structural)]
pub enum PromotionReadiness {
    Ready,
    Hold,
}

#[derive(Debug, Clone, Copy, PartialEq, Eq, Structural)]
pub enum HoldReason {
    UnknownOverlapFamily,
    HardDifficulty,
    ThinRealExampleSupport,
    ThinRegressionSupport,
    HelperSurfaceNotPromotable,
}

#[derive(Debug, Clone, Copy, PartialEq, Eq, Structural)]
pub enum NextStepStatus {
    Promote,
    TargetedEvidenceGap,
    DurableHold,
}

#[derive(Debug, Clone, Copy, PartialEq, Eq, Structural)]
pub enum NextStepDetail {
    ReadyForPromotion,
    TargetedEvidenceGap,
    HelperSurfaceNotPromotable,
}

#[derive(Debug, Clone)]
pub struct CorpusProgramBasisSnapshot {
    pub recommendation_status: RecommendationStatus,
    pub decision_status: DecisionStatus,
    pub top_candidate_id: Option<String>,
    pub open_blockers: Vec<DecisionReason>,
    pub missing_evidence: Vec<EvidenceState>,
    pub stale_evidence: Vec<EvidenceState>,
}

#[derive(Debug, Clone)]
pub struct DecisionSummary {
    pub decision_status: DecisionStatus,
    pub top_candidate_id: Option<String>,
    pub open_blockers: Vec<DecisionReason>,
    pub warnings: Vec<DecisionReason>,
    pub summary: String,
}

#[derive(Debug, Clone)]
pub struct EvidenceSummary {
    pub missing_evidence: Vec<EvidenceState>,
    pub stale_evidence: Vec<EvidenceState>,
    pub warnings: Vec<DecisionReason>,
    pub summary: String,
}

#[derive(Debug, Clone)]
pub struct RecommendationDelta {
    pub previous_generated_at: Option<String>,
    pub previous_decision_status: Option<DecisionStatus>,
    pub previous_recommendation_status: Option<RecommendationStatus>,
    pub decision_changed: bool,
    pub top_candidate_changed: bool,
    pub reasons_added: Vec<DecisionReason>,
    pub reasons_cleared: Vec<DecisionReason>,
    pub evidence_changes: Vec<String>,
    pub summary: String,
}

impl RecommendationDelta {
    /// The delta recorded when no earlier analysis artifact existed.
    pub fn no_previous_artifact() -> (r: RecommendationDelta)
        ensures
            r.previous_generated_at is None,
            r.previous_decision_status is None,
            r.previous_recommendation_status is None,
            !r.decision_changed,
            !r.top_candidate_changed,
            r.reasons_added@.len() == 0,
            r.reasons_cleared@.len() == 0,
            r.evidence_changes@.len() == 0,
            r.summary@ == "No previous validated analysis artifact existed at this path."@,
    {
        RecommendationDelta {
            previous_generated_at: None,
            previous_decision_status: None,
            previous_recommendation_status: None,
            decision_changed: false,
            top_candidate_changed: false,
            reasons_added: Vec::new(),
            reasons_cleared: Vec::new(),
            evidence_changes: Vec::new(),
            summary: crate::text::owned("No previous validated analysis artifact existed at this path."),
        }
    }
}

#[derive(Debug, Clone)]
pub struct RecommendationLeverage {
    pub real_example_hits: usize,
    pub promotion_relevant_regression_hits: usize,
    pub boundary_only_hits: usize,
    pub total_units_in_cluster: usize,
}

#[derive(Debug, Clone)]
pub struct RecommendationDifficulty {
    pub tier: DifficultyTier,
    pub why: String,
}

#[derive(Debug, Clone)]
pub struct RecommendationConfidence {
    pub level: ConfidenceLevel,
    pub why: String,
}

#[derive(Debug, Clone)]
pub struct RecommendationCandidateEntry {
    pub candidate_id: String,
    pub cluster_ids: Vec<String>,
    pub primary_reason_code: UnsupportedFunctionReasonCode,
    pub overlap_family: String,
    pub promotion_readiness: PromotionReadiness,
    pub hold_reasons: Vec<HoldReason>,
    pub next_step_status: NextStepStatus,
    pub next_step_detail: NextStepDetail,
    pub leverage: RecommendationLeverage,
    pub difficulty: RecommendationDifficulty,
    pub confidence: RecommendationConfidence,
    pub rationale: String,
}

#[derive(Debug, Clone)]
pub struct FamilyRecommendationAnalysisArtifact {
    pub schema_version: u64,
    pub artifact_kind: PromotionArtifactKind,
    pub generated_at: String,
    pub coverage_path: String,
    pub coverage_sha256: String,
    pub recommendation_status: RecommendationStatus,
    pub ranked_candidates: Vec<RecommendationCandidateEntry>,
    pub decision_summary: DecisionSummary,
    pub evidence_summary: EvidenceSummary,
    pub delta_from_previous: RecommendationDelta,
}

#[derive(Debug, Clone)]
pub struct CorpusProgramDecisionArtifact {
    pub schema_version: u64,
    pub artifact_kind: PromotionArtifactKind,
    pub generated_at: String,
    pub analysis_basis_path: String,
    pub analysis_basis_sha256: String,
    pub basis_snapshot: CorpusProgramBasisSnapshot,
    pub decision_action: CorpusProgramDecisionAction,
    pub decision_basis_code: CorpusProgramDecisionBasisCode,
    pub pivot_target_class: Option<PivotTargetClass>,
    pub required_next_action: RequiredNextAction,
    pub summary: String,
}

} // verus!
