//! The corpus-program decision: what the repo does next, derived from an analysis basis.
use vstd::prelude::*;
use crate::family::artifacts::{
    CorpusProgramBasisSnapshot, CorpusProgramDecisionAction, CorpusProgramDecisionBasisCode, DecisionReason,
    DecisionStatus, EvidenceState, FamilyRecommendationAnalysisArtifact, PivotTargetClass, RecommendationCandidateEntry,
    RecommendationStatus, RequiredNextAction, UnsupportedFunctionReasonCode,
};
use crate::family::error::XtaskError;
use crate::family::helper_surface::{
    follow_on, helper_surface_follow_on_decision_tuple, matches_durable_hold,
    recommendation_matches_helper_surface_durable_hold_tuple,
};
use crate::text::{owned, str_eq};
use crate::unit_ref::opt_view;

verus! {

/// The decision derived from a basis, with the sentence that explains it.
#[derive(Debug, Clone)]
pub struct DerivedCorpusProgramDecision {
    pub decision_action: CorpusProgramDecisionAction,
    pub decision_basis_code: CorpusProgramDecisionBasisCode,
    pub pivot_target_class: Option<PivotTargetClass>,
    pub required_next_action: RequiredNextAction,
    pub summary: String,
}

/// The locked state in which the corpus program stops.
#[derive(Debug, Clone)]
pub struct DecisionContractStopStateTuple {
    pub recommendation_status: RecommendationStatus,
    pub decision_status: DecisionStatus,
    pub open_blockers: Vec<DecisionReason>,
    pub missing_evidence: Vec<EvidenceState>,
    pub stale_evidence: Vec<EvidenceState>,
    pub decision_action: CorpusProgramDecisionAction,
    pub decision_basis_code: CorpusProgramDecisionBasisCode,
    pub required_next_action: RequiredNextAction,
}

pub fn decision_contract_stop_state_tuple() -> (r: DecisionContractStopStateTuple)
    ensures
        r.recommendation_status == RecommendationStatus::InsufficientRealCorpus,
        r.decision_status == DecisionStatus::NotRecommended,
        r.open_blockers@.len() == 0,
        r.missing_evidence@.len() == 0,
        r.stale_evidence@.len() == 0,
        r.decision_action == CorpusProgramDecisionAction::Stop,
        r.decision_basis_code == CorpusProgramDecisionBasisCode::NoActionableCandidate,
        r.required_next_action == RequiredNextAction::RecordStopWithoutNewMilestone,
{
    DecisionContractStopStateTuple {
        recommendation_status: RecommendationStatus::InsufficientRealCorpus,
        decision_status: DecisionStatus::NotRecommended,
        open_blockers: Vec::new(),
        missing_evidence: Vec::new(),
        stale_evidence: Vec::new(),
        decision_action: CorpusProgramDecisionAction::Stop,
        decision_basis_code: CorpusProgramDecisionBasisCode::NoActionableCandidate,
        required_next_action: RequiredNextAction::RecordStopWithoutNewMilestone,
    }
}

pub(crate) fn copy_reasons(v: &Vec<DecisionReason>) -> (r: Vec<DecisionReason>)
    ensures
        r@ == v@,
{
    let mut out: Vec<DecisionReason> = Vec::new();
    let mut i: usize = 0;
    while i < v.len()
        invariant
            i <= v@.len(),
            out@ == v@.take(i as int),
        decreases v@.len() - i,
    {
        out.push(v[i]);
        proof {
            assert(out@ =~= v@.take(i + 1));
        }
        i = i + 1;
    }
    proof {
        assert(v@.take(v@.len() as int) =~= v@);
    }
    out
}

pub(crate) fn copy_evidence(v: &Vec<EvidenceState>) -> (r: Vec<EvidenceState>)
    ensures
        r@ == v@,
{
    let mut out: Vec<EvidenceState> = Vec::new();
    let mut i: usize = 0;
    while i < v.len()
        invariant
            i <= v@.len(),
            out@ == v@.take(i as int),
        decreases v@.len() - i,
    {
        out.push(v[i]);
        proof {
            assert(out@ =~= v@.take(i + 1));
        }
        i = i + 1;
    }
    proof {
        assert(v@.take(v@.len() as int) =~= v@);
    }
    out
}

/// The snapshot `s` holds what the basis says of its decision and evidence.
pub open spec fn is_snapshot_of(s: CorpusProgramBasisSnapshot, a: FamilyRecommendationAnalysisArtifact) -> bool {
    &&& s.recommendation_status == a.recommendation_status
    &&& s.decision_status == a.decision_summary.decision_status
    &&& opt_view(s.top_candidate_id) == opt_view(a.decision_summary.top_candidate_id)
    &&& s.open_blockers@ == a.decision_summary.open_blockers@
    &&& s.missing_evidence@ == a.evidence_summary.missing_evidence@
    &&& s.stale_evidence@ == a.evidence_summary.stale_evidence@
}

pub fn corpus_program_basis_snapshot(artifact: &FamilyRecommendationAnalysisArtifact) -> (r: CorpusProgramBasisSnapshot)
    ensures
        is_snapshot_of(r, *artifact),
{
    CorpusProgramBasisSnapshot {
        recommendation_status: artifact.recommendation_status,
        decision_status: artifact.decision_summary.decision_status,
        top_candidate_id: match &artifact.decision_summary.top_candidate_id {
            Some(t) => Some(t.clone()),
            None => None,
        },
        open_blockers: copy_reasons(&artifact.decision_summary.open_blockers),
        missing_evidence: copy_evidence(&artifact.evidence_summary.missing_evidence),
        stale_evidence: copy_evidence(&artifact.evidence_summary.stale_evidence),
    }
}

/// A snapshot that holds exactly the helper-surface blocker and no evidence gaps.
pub open spec fn requires_follow_on(decision_status: DecisionStatus, open_blockers: Seq<DecisionReason>, missing: Seq<EvidenceState>, stale: Seq<EvidenceState>) -> bool {
    &&& decision_status == DecisionStatus::NotRecommended
    &&& open_blockers == seq![DecisionReason::HelperSurfaceNotPromotable]
    &&& missing.len() == 0
    &&& stale.len() == 0
}

pub fn basis_snapshot_requires_helper_surface_follow_on(snapshot: &CorpusProgramBasisSnapshot) -> (r: bool)
    ensures
        r == requires_follow_on(snapshot.decision_status, snapshot.open_blockers@, snapshot.missing_evidence@, snapshot.stale_evidence@),
{
    let single = snapshot.open_blockers.len() == 1 && snapshot.open_blockers[0] == DecisionReason::HelperSurfaceNotPromotable;
    proof {
        if snapshot.open_blockers@.len() == 1 && snapshot.open_blockers@[0] == DecisionReason::HelperSurfaceNotPromotable {
            assert(snapshot.open_blockers@ =~= seq![DecisionReason::HelperSurfaceNotPromotable]);
        }
    }
    snapshot.decision_status == DecisionStatus::NotRecommended && single && snapshot.missing_evidence.len() == 0
        && snapshot.stale_evidence.len() == 0
}

/// The top candidate holds the helper surface: an unsupported function surface of no
/// known family, seen in real examples, under exactly the durable hold.
pub open spec fn candidate_is_follow_on(c: RecommendationCandidateEntry) -> bool {
    &&& c.primary_reason_code == UnsupportedFunctionReasonCode::UnsupportedFunctionSurface
    &&& c.overlap_family@ == "unknown"@
    &&& c.leverage.real_example_hits > 0
    &&& matches_durable_hold(c)
}

fn basis_candidate_is_helper_surface_follow_on(candidate: &RecommendationCandidateEntry) -> (r: bool)
    ensures
        r == candidate_is_follow_on(*candidate),
{
    candidate.primary_reason_code == UnsupportedFunctionReasonCode::UnsupportedFunctionSurface && str_eq(
        candidate.overlap_family.as_str(),
        "unknown",
    ) && candidate.leverage.real_example_hits > 0 && recommendation_matches_helper_surface_durable_hold_tuple(candidate)
}

/// The basis activates the helper-surface follow-on.
pub open spec fn activates_follow_on(a: FamilyRecommendationAnalysisArtifact) -> bool {
    &&& a.ranked_candidates@.len() > 0
    &&& candidate_is_follow_on(a.ranked_candidates@[0])
    &&& requires_follow_on(
        a.decision_summary.decision_status,
        a.decision_summary.open_blockers@,
        a.evidence_summary.missing_evidence@,
        a.evidence_summary.stale_evidence@,
    )
}

pub fn basis_activates_helper_surface_follow_on(basis: &FamilyRecommendationAnalysisArtifact) -> (r: bool)
    ensures
        r == activates_follow_on(*basis),
{
    if basis.ranked_candidates.len() == 0 {
        return false;
    }
    basis_candidate_is_helper_surface_follow_on(&basis.ranked_candidates[0]) && basis_snapshot_requires_helper_surface_follow_on(
        &corpus_program_basis_snapshot(basis),
    )
}

/// The top candidate's id, or a stand-in.
pub open spec fn top_name(a: FamilyRecommendationAnalysisArtifact) -> Seq<char> {
    match opt_view(a.decision_summary.top_candidate_id) {
        Some(t) => t,
        None => "the current top candidate"@,
    }
}

/// The decision a basis leads to, as (action, basis code, pivot, next action, summary).
pub open spec fn decision_for(a: FamilyRecommendationAnalysisArtifact) -> (
    CorpusProgramDecisionAction,
    CorpusProgramDecisionBasisCode,
    Option<PivotTargetClass>,
    RequiredNextAction,
    Seq<char>,
) {
    let status = a.decision_summary.decision_status;
    let gaps = a.evidence_summary.missing_evidence@.len() > 0 || a.evidence_summary.stale_evidence@.len() > 0;
    if status == DecisionStatus::Recommended {
        (
            CorpusProgramDecisionAction::PivotToFamilyPromotionRun,
            CorpusProgramDecisionBasisCode::PromotionReadyCandidate,
            Some(PivotTargetClass::FamilyPromotionRun),
            RequiredNextAction::AuthorFamilyPromotionPlan,
            "Recommendation basis is `recommended`, so corpus run 1 stays unspent and the repo should pivot to a bounded family-promotion run for `"@
                + top_name(a) + "`."@,
        )
    } else if status == DecisionStatus::BlockedForNow && gaps {
        (
            CorpusProgramDecisionAction::SpendCorpusRun1,
            CorpusProgramDecisionBasisCode::PlausibleCandidateMissingEvidence,
            None,
            RequiredNextAction::AuthorCorpusExpansionPlan,
            "Recommendation basis is blocked by missing or stale evidence for `"@ + top_name(a)
                + "`, so corpus run 1 should be spent on bounded corpus expansion rather than a promotion run."@,
        )
    } else if activates_follow_on(a) {
        (
            follow_on().decision_action,
            follow_on().decision_basis_code,
            Some(follow_on().pivot_target_class),
            follow_on().required_next_action,
            "Recommendation basis holds `"@ + top_name(a)
                + "` as a durable non-promotable helper surface, so corpus run 1 stays unspent and the repo should pivot to an architecture shared-core follow-on plan."@,
        )
    } else if status == DecisionStatus::BlockedForNow {
        (
            CorpusProgramDecisionAction::PivotToRecommendationPolicyRun,
            CorpusProgramDecisionBasisCode::PolicyInterpretationBlocker,
            Some(PivotTargetClass::RecommendationPolicyRun),
            RequiredNextAction::AuthorRecommendationPolicyPlan,
            "Recommendation basis is blocked without a bounded evidence-spend path, so the repo should pivot to a recommendation-policy follow-on before spending corpus run 1."@,
        )
    } else {
        (
            CorpusProgramDecisionAction::Stop,
            CorpusProgramDecisionBasisCode::NoActionableCandidate,
            None,
            RequiredNextAction::RecordStopWithoutNewMilestone,
            "Recommendation basis exposes no actionable next family move, so corpus run 1 remains unspent and no new milestone is authorized from this basis."@,
        )
    }
}

pub open spec fn decision_view(d: DerivedCorpusProgramDecision) -> (
    CorpusProgramDecisionAction,
    CorpusProgramDecisionBasisCode,
    Option<PivotTargetClass>,
    RequiredNextAction,
    Seq<char>,
) {
    (d.decision_action, d.decision_basis_code, d.pivot_target_class, d.required_next_action, d.summary@)
}

fn top_name_string(basis: &FamilyRecommendationAnalysisArtifact) -> (r: String)
    ensures
        r@ == top_name(*basis),
{
    match &basis.decision_summary.top_candidate_id {
        Some(t) => t.clone(),
        None => owned("the current top candidate"),
    }
}

fn wrap(prefix: &str, middle: &String, suffix: &str) -> (r: String)
    ensures
        r@ == prefix@ + middle@ + suffix@,
{
    let mut s = owned(prefix);
    s.append(middle.as_str());
    s.append(suffix);
    s
}

/// Derives what the corpus program does next from an analysis basis: promote, spend the
/// corpus run on missing evidence, follow on from a helper surface, revisit the policy,
/// or stop.
pub fn derive_corpus_program_decision_contract(basis: &FamilyRecommendationAnalysisArtifact) -> (r: Result<
    DerivedCorpusProgramDecision,
    XtaskError,
>)
    ensures
        r matches Ok(d) && decision_view(d) == decision_for(*basis),
{
    let status = basis.decision_summary.decision_status;
    let gaps = basis.evidence_summary.missing_evidence.len() > 0 || basis.evidence_summary.stale_evidence.len() > 0;
    if status == DecisionStatus::Recommended {
        let top = top_name_string(basis);
        return Ok(DerivedCorpusProgramDecision {
            decision_action: CorpusProgramDecisionAction::PivotToFamilyPromotionRun,
            decision_basis_code: CorpusProgramDecisionBasisCode::PromotionReadyCandidate,
            pivot_target_class: Some(PivotTargetClass::FamilyPromotionRun),
            required_next_action: RequiredNextAction::AuthorFamilyPromotionPlan,
            summary: wrap(
                "Recommendation basis is `recommended`, so corpus run 1 stays unspent and the repo should pivot to a bounded family-promotion run for `",
                &top,
                "`.",
            ),
        });
    }
    if status == DecisionStatus::BlockedForNow && gaps {
        let top = top_name_string(basis);
        return Ok(DerivedCorpusProgramDecision {
            decision_action: CorpusProgramDecisionAction::SpendCorpusRun1,
            decision_basis_code: CorpusProgramDecisionBasisCode::PlausibleCandidateMissingEvidence,
            pivot_target_class: None,
            required_next_action: RequiredNextAction::AuthorCorpusExpansionPlan,
            summary: wrap(
                "Recommendation basis is blocked by missing or stale evidence for `",
                &top,
                "`, so corpus run 1 should be spent on bounded corpus expansion rather than a promotion run.",
            ),
        });
    }
    if basis_activates_helper_surface_follow_on(basis) {
        let f = helper_surface_follow_on_decision_tuple();
        let top = top_name_string(basis);
        return Ok(DerivedCorpusProgramDecision {
            decision_action: f.decision_action,
            decision_basis_code: f.decision_basis_code,
            pivot_target_class: Some(f.pivot_target_class),
            required_next_action: f.required_next_action,
            summary: wrap(
                "Recommendation basis holds `",
                &top,
                "` as a durable non-promotable helper surface, so corpus run 1 stays unspent and the repo should pivot to an architecture shared-core follow-on plan.",
            ),
        });
    }
    if status == DecisionStatus::BlockedForNow {
        return Ok(DerivedCorpusProgramDecision {
            decision_action: CorpusProgramDecisionAction::PivotToRecommendationPolicyRun,
            decision_basis_code: CorpusProgramDecisionBasisCode::PolicyInterpretationBlocker,
            pivot_target_class: Some(PivotTargetClass::RecommendationPolicyRun),
            required_next_action: RequiredNextAction::AuthorRecommendationPolicyPlan,
            summary: owned(
                "Recommendation basis is blocked without a bounded evidence-spend path, so the repo should pivot to a recommendation-policy follow-on before spending corpus run 1.",
            ),
        });
    }
    Ok(DerivedCorpusProgramDecision {
        decision_action: CorpusProgramDecisionAction::Stop,
        decision_basis_code: CorpusProgramDecisionBasisCode::NoActionableCandidate,
        pivot_target_class: None,
        required_next_action: RequiredNextAction::RecordStopWithoutNewMilestone,
        summary: owned(
            "Recommendation basis exposes no actionable next family move, so corpus run 1 remains unspent and no new milestone is authorized from this basis.",
        ),
    })
}

/// A basis that is blocked for now and lacks evidence, whether that evidence is missing
/// or only stale, spends corpus run 1 on corpus expansion: no pivot target, and the next
/// action is a corpus-expansion plan.
pub proof fn lemma_blocked_with_evidence_gap_spends_corpus_run(basis: FamilyRecommendationAnalysisArtifact)
    requires
        basis.decision_summary.decision_status == DecisionStatus::BlockedForNow,
        basis.evidence_summary.missing_evidence@.len() > 0 || basis.evidence_summary.stale_evidence@.len() > 0,
    ensures
        decision_for(basis).0 == CorpusProgramDecisionAction::SpendCorpusRun1,
        decision_for(basis).1 == CorpusProgramDecisionBasisCode::PlausibleCandidateMissingEvidence,
        decision_for(basis).2 is None,
        decision_for(basis).3 == RequiredNextAction::AuthorCorpusExpansionPlan,
{
}

/// A recommended basis pivots to a family-promotion run; a basis blocked for now with no
/// evidence gap and no helper-surface follow-on pivots to a recommendation-policy run; a
/// basis neither recommended nor blocked, with no follow-on, stops with no new milestone.
pub proof fn lemma_decision_by_status(basis: FamilyRecommendationAnalysisArtifact)
    ensures
        basis.decision_summary.decision_status == DecisionStatus::Recommended ==> decision_for(basis).0
            == CorpusProgramDecisionAction::PivotToFamilyPromotionRun && decision_for(basis).1
            == CorpusProgramDecisionBasisCode::PromotionReadyCandidate && decision_for(basis).2 == Some(
            PivotTargetClass::FamilyPromotionRun,
        ) && decision_for(basis).3 == RequiredNextAction::AuthorFamilyPromotionPlan,
        basis.decision_summary.decision_status == DecisionStatus::BlockedForNow
            && basis.evidence_summary.missing_evidence@.len() == 0 && basis.evidence_summary.stale_evidence@.len()
            == 0 && !activates_follow_on(basis) ==> decision_for(basis).0
            == CorpusProgramDecisionAction::PivotToRecommendationPolicyRun && decision_for(basis).1
            == CorpusProgramDecisionBasisCode::PolicyInterpretationBlocker && decision_for(basis).2 == Some(
            PivotTargetClass::RecommendationPolicyRun,
        ) && decision_for(basis).3 == RequiredNextAction::AuthorRecommendationPolicyPlan,
        basis.decision_summary.decision_status != DecisionStatus::Recommended
            && basis.decision_summary.decision_status != DecisionStatus::BlockedForNow && !activates_follow_on(basis)
            ==> decision_for(basis).0 == CorpusProgramDecisionAction::Stop && decision_for(basis).1
            == CorpusProgramDecisionBasisCode::NoActionableCandidate && decision_for(basis).2 is None
            && decision_for(basis).3 == RequiredNextAction::RecordStopWithoutNewMilestone,
{
}

} // verus!
