//! Verifying the decision contract: that the recommendation analysis and the corpus
//! program decision both hold, agree on their basis, agree on the derived decision, and
//! still sit on the frozen helper-surface floor.
use vstd::prelude::*;
use crate::family::artifacts::{
    CorpusProgramDecisionAction, CorpusProgramDecisionArtifact, CorpusProgramDecisionBasisCode, DecisionReason,
    DecisionStatus, EvidenceState, FamilyRecommendationAnalysisArtifact, PivotTargetClass, RecommendationStatus,
    RequiredNextAction,
};
use crate::family::decision::{decision_for, derive_corpus_program_decision_contract};
use crate::family::decision::{copy_evidence, copy_reasons};
use crate::family::error::{XtaskError, XtaskErrorView};
use crate::family::paths::FAMILY_RECOMMENDATION_ANALYSIS_LATEST_PATH;
use crate::text::{owned, str_eq};
use crate::unit_ref::opt_view;

verus! {

pub const COMMAND_NAME: &'static str = "family verify-decision-contract";

#[derive(Debug, Clone, Copy, PartialEq, Eq, Structural)]
pub enum CheckStatus {
    Pass,
    Fail,
}

#[derive(Debug, Clone, Copy, PartialEq, Eq, Structural)]
pub enum OverallVerdict {
    Pass,
    Fail,
}

#[derive(Debug, Clone, Copy, PartialEq, Eq, Structural)]
pub enum FailureReason {
    MissingRecommendationAnalysisArtifact,
    MissingCorpusProgramDecisionArtifact,
    InvalidArtifactJson,
    InvalidArtifactContract,
    BasisSnapshotMismatch,
    DerivedDecisionMismatch,
    FrozenHelperSurfaceEvidenceNotCurrent,
    FrozenHelperSurfaceFloorMismatch,
}

/// A value a mismatch reports, by the field it came from.
#[derive(Debug, Clone)]
pub enum MismatchValue {
    RecommendationStatus(RecommendationStatus),
    DecisionStatus(DecisionStatus),
    CandidateId(Option<String>),
    Reasons(Vec<DecisionReason>),
    Evidence(Vec<EvidenceState>),
    Action(CorpusProgramDecisionAction),
    BasisCode(CorpusProgramDecisionBasisCode),
    PivotTarget(Option<PivotTargetClass>),
    NextAction(RequiredNextAction),
    Text(String),
}

pub enum MismatchValueView {
    RecommendationStatus(RecommendationStatus),
    DecisionStatus(DecisionStatus),
    CandidateId(Option<Seq<char>>),
    Reasons(Seq<DecisionReason>),
    Evidence(Seq<EvidenceState>),
    Action(CorpusProgramDecisionAction),
    BasisCode(CorpusProgramDecisionBasisCode),
    PivotTarget(Option<PivotTargetClass>),
    NextAction(RequiredNextAction),
    Text(Seq<char>),
}

pub open spec fn value_view(v: MismatchValue) -> MismatchValueView {
    match v {
        MismatchValue::RecommendationStatus(x) => MismatchValueView::RecommendationStatus(x),
        MismatchValue::DecisionStatus(x) => MismatchValueView::DecisionStatus(x),
        MismatchValue::CandidateId(x) => MismatchValueView::CandidateId(opt_view(x)),
        MismatchValue::Reasons(x) => MismatchValueView::Reasons(x@),
        MismatchValue::Evidence(x) => MismatchValueView::Evidence(x@),
        MismatchValue::Action(x) => MismatchValueView::Action(x),
        MismatchValue::BasisCode(x) => MismatchValueView::BasisCode(x),
        MismatchValue::PivotTarget(x) => MismatchValueView::PivotTarget(x),
        MismatchValue::NextAction(x) => MismatchValueView::NextAction(x),
        MismatchValue::Text(x) => MismatchValueView::Text(x@),
    }
}

/// A field whose observed value differs from the expected one.
#[derive(Debug, Clone)]
pub struct FieldMismatch {
    pub field: String,
    pub expected: MismatchValue,
    pub observed: MismatchValue,
}

pub open spec fn mismatch_view(m: FieldMismatch) -> (Seq<char>, MismatchValueView, MismatchValueView) {
    (m.field@, value_view(m.expected), value_view(m.observed))
}

/// The outcome of one check.
#[derive(Debug, Clone)]
pub struct CheckResult {
    pub status: CheckStatus,
    pub failure_reasons: Vec<FailureReason>,
    pub detail: Option<String>,
    pub mismatches: Vec<FieldMismatch>,
}

pub struct CheckView {
    pub status: CheckStatus,
    pub failure_reasons: Seq<FailureReason>,
    pub detail: Option<Seq<char>>,
    pub mismatches: Seq<(Seq<char>, MismatchValueView, MismatchValueView)>,
}

pub open spec fn check_view(c: CheckResult) -> CheckView {
    CheckView {
        status: c.status,
        failure_reasons: c.failure_reasons@,
        detail: opt_view(c.detail),
        mismatches: c.mismatches@.map_values(|m: FieldMismatch| mismatch_view(m)),
    }
}

pub open spec fn pass_view() -> CheckView {
    CheckView { status: CheckStatus::Pass, failure_reasons: Seq::empty(), detail: None, mismatches: Seq::empty() }
}

pub open spec fn fail_view(
    reasons: Seq<FailureReason>,
    detail: Seq<char>,
    mismatches: Seq<(Seq<char>, MismatchValueView, MismatchValueView)>,
) -> CheckView {
    CheckView { status: CheckStatus::Fail, failure_reasons: reasons, detail: Some(detail), mismatches }
}

fn pass() -> (r: CheckResult)
    ensures
        check_view(r) == pass_view(),
{
    let r = CheckResult { status: CheckStatus::Pass, failure_reasons: Vec::new(), detail: None, mismatches: Vec::new() };
    proof {
        assert(check_view(r).mismatches =~= Seq::<(Seq<char>, MismatchValueView, MismatchValueView)>::empty());
    }
    r
}

fn fail_with(reasons: Vec<FailureReason>, detail: String, mismatches: Vec<FieldMismatch>) -> (r: CheckResult)
    ensures
        check_view(r) == fail_view(
            reasons@,
            detail@,
            mismatches@.map_values(|m: FieldMismatch| mismatch_view(m)),
        ),
{
    CheckResult { status: CheckStatus::Fail, failure_reasons: reasons, detail: Some(detail), mismatches }
}

fn fail_one(reason: FailureReason, detail: String) -> (r: CheckResult)
    ensures
        check_view(r) == fail_view(seq![reason], detail@, Seq::empty()),
{
    let reasons = vec![reason];
    let r = fail_with(reasons, detail, Vec::new());
    proof {
        assert(reasons@ =~= seq![reason]);
        assert(check_view(r).mismatches =~= Seq::<(Seq<char>, MismatchValueView, MismatchValueView)>::empty());
    }
    r
}

/// What came of reading an artifact.
#[derive(Debug)]
pub enum ArtifactLoad<T> {
    Ready(T),
    Missing(String),
    InvalidJson { path: String, error: String },
    InvalidContract { path: String, error: String },
}

/// The check that an artifact loaded and validated.
pub open spec fn load_check<T>(load: ArtifactLoad<T>, missing_reason: FailureReason, label: Seq<char>) -> CheckView {
    match load {
        ArtifactLoad::Ready(_) => pass_view(),
        ArtifactLoad::Missing(p) => fail_view(seq![missing_reason], "missing "@ + label + " at `"@ + p@ + "`"@, Seq::empty()),
        ArtifactLoad::InvalidJson { path, error } => fail_view(
            seq![FailureReason::InvalidArtifactJson],
            "failed to deserialize `"@ + path@ + "`: "@ + error@,
            Seq::empty(),
        ),
        ArtifactLoad::InvalidContract { path, error } => fail_view(
            seq![FailureReason::InvalidArtifactContract],
            "artifact contract failed for `"@ + path@ + "`: "@ + error@,
            Seq::empty(),
        ),
    }
}

pub fn artifact_check_result<T>(load: &ArtifactLoad<T>, missing_reason: FailureReason, artifact_label: &str) -> (r:
    CheckResult)
    ensures
        check_view(r) == load_check(*load, missing_reason, artifact_label@),
{
    match load {
        ArtifactLoad::Ready(_) => pass(),
        ArtifactLoad::Missing(path) => {
            let mut m = owned("missing ");
            m.append(artifact_label);
            m.append(" at `");
            m.append(path.as_str());
            m.append("`");
            fail_one(missing_reason, m)
        },
        ArtifactLoad::InvalidJson { path, error } => {
            let mut m = owned("failed to deserialize `");
            m.append(path.as_str());
            m.append("`: ");
            m.append(error.as_str());
            fail_one(FailureReason::InvalidArtifactJson, m)
        },
        ArtifactLoad::InvalidContract { path, error } => {
            let mut m = owned("artifact contract failed for `");
            m.append(path.as_str());
            m.append("`: ");
            m.append(error.as_str());
            fail_one(FailureReason::InvalidArtifactContract, m)
        },
    }
}

/// Why a check that needs the analysis cannot run, from how the analysis loaded.
pub open spec fn prerequisite_reasons<T>(load: ArtifactLoad<T>) -> Seq<FailureReason> {
    match load {
        ArtifactLoad::Ready(_) => Seq::empty(),
        ArtifactLoad::Missing(_) => seq![FailureReason::MissingRecommendationAnalysisArtifact],
        ArtifactLoad::InvalidJson { .. } => seq![FailureReason::InvalidArtifactJson],
        ArtifactLoad::InvalidContract { .. } => seq![FailureReason::InvalidArtifactContract],
    }
}

pub fn prerequisite_reasons_from_analysis(load: &ArtifactLoad<FamilyRecommendationAnalysisArtifact>) -> (r: Vec<
    FailureReason,
>)
    ensures
        r@ == prerequisite_reasons(*load),
{
    let r = match load {
        ArtifactLoad::Ready(_) => Vec::new(),
        ArtifactLoad::Missing(_) => vec![FailureReason::MissingRecommendationAnalysisArtifact],
        ArtifactLoad::InvalidJson { .. } => vec![FailureReason::InvalidArtifactJson],
        ArtifactLoad::InvalidContract { .. } => vec![FailureReason::InvalidArtifactContract],
    };
    proof {
        assert(r@ =~= prerequisite_reasons(*load));
    }
    r
}

/// The check that the decision artifact holds its contract; `contract` is the outcome of
/// its contract check, consulted only when both artifacts are ready.
pub open spec fn decision_check(
    analysis: ArtifactLoad<FamilyRecommendationAnalysisArtifact>,
    decision: ArtifactLoad<CorpusProgramDecisionArtifact>,
    contract: Result<(), XtaskError>,
    decision_path: Seq<char>,
) -> CheckView {
    match decision {
        ArtifactLoad::Missing(p) => fail_view(
            seq![FailureReason::MissingCorpusProgramDecisionArtifact],
            "missing corpus program decision artifact at `"@ + p@ + "`"@,
            Seq::empty(),
        ),
        ArtifactLoad::InvalidJson { path, error } => fail_view(
            seq![FailureReason::InvalidArtifactJson],
            "failed to deserialize `"@ + path@ + "`: "@ + error@,
            Seq::empty(),
        ),
        ArtifactLoad::InvalidContract { path, error } => fail_view(
            seq![FailureReason::InvalidArtifactContract],
            "artifact contract failed for `"@ + path@ + "`: "@ + error@,
            Seq::empty(),
        ),
        ArtifactLoad::Ready(_) => match analysis {
            ArtifactLoad::Ready(_) => match contract {
                Ok(()) => pass_view(),
                Err(e) => fail_view(
                    seq![FailureReason::InvalidArtifactContract],
                    "artifact contract failed for `"@ + decision_path + "`: "@ + e@.message(),
                    Seq::empty(),
                ),
            },
            _ => fail_view(
                prerequisite_reasons(analysis),
                "recommendation analysis artifact must validate before the corpus program decision contract can be verified"@,
                Seq::empty(),
            ),
        },
    }
}

pub fn decision_validation_result(
    analysis_load: &ArtifactLoad<FamilyRecommendationAnalysisArtifact>,
    decision_load: &ArtifactLoad<CorpusProgramDecisionArtifact>,
    contract: &Result<(), XtaskError>,
    decision_path: &str,
) -> (r: CheckResult)
    ensures
        check_view(r) == decision_check(*analysis_load, *decision_load, *contract, decision_path@),
{
    match decision_load {
        ArtifactLoad::Missing(path) => {
            let mut m = owned("missing corpus program decision artifact at `");
            m.append(path.as_str());
            m.append("`");
            fail_one(FailureReason::MissingCorpusProgramDecisionArtifact, m)
        },
        ArtifactLoad::InvalidJson { path, error } => {
            let mut m = owned("failed to deserialize `");
            m.append(path.as_str());
            m.append("`: ");
            m.append(error.as_str());
            fail_one(FailureReason::InvalidArtifactJson, m)
        },
        ArtifactLoad::InvalidContract { path, error } => {
            let mut m = owned("artifact contract failed for `");
            m.append(path.as_str());
            m.append("`: ");
            m.append(error.as_str());
            fail_one(FailureReason::InvalidArtifactContract, m)
        },
        ArtifactLoad::Ready(_) => match analysis_load {
            ArtifactLoad::Ready(_) => match contract {
                Ok(()) => pass(),
                Err(e) => {
                    let mut m = owned("artifact contract failed for `");
                    m.append(decision_path);
                    m.append("`: ");
                    let text = e.message();
                    m.append(text.as_str());
                    fail_one(FailureReason::InvalidArtifactContract, m)
                },
            },
            _ => {
                let reasons = prerequisite_reasons_from_analysis(analysis_load);
                let r = fail_with(
                    reasons,
                    owned(
                        "recommendation analysis artifact must validate before the corpus program decision contract can be verified",
                    ),
                    Vec::new(),
                );
                proof {
                    assert(check_view(r).mismatches =~= Seq::<(Seq<char>, MismatchValueView, MismatchValueView)>::empty());
                }
                r
            },
        },
    }
}

/// Whether both artifacts can be compared; otherwise the failure the comparison reports.
pub open spec fn readiness(
    analysis: ArtifactLoad<FamilyRecommendationAnalysisArtifact>,
    decision: ArtifactLoad<CorpusProgramDecisionArtifact>,
    validation: CheckView,
    label: Seq<char>,
    decision_path: Seq<char>,
) -> Option<CheckView> {
    match analysis {
        ArtifactLoad::Ready(_) => if validation.status == CheckStatus::Fail {
            Some(
                fail_view(
                    validation.failure_reasons,
                    "cannot evaluate "@ + label + " because the corpus program decision contract did not validate"@,
                    Seq::empty(),
                ),
            )
        } else {
            match decision {
                ArtifactLoad::Ready(_) => None,
                ArtifactLoad::Missing(_) => Some(
                    fail_view(
                        seq![FailureReason::MissingCorpusProgramDecisionArtifact],
                        "cannot evaluate "@ + label + " because `"@ + decision_path + "` is missing"@,
                        Seq::empty(),
                    ),
                ),
                ArtifactLoad::InvalidJson { path, error } => Some(
                    fail_view(
                        seq![FailureReason::InvalidArtifactJson],
                        "cannot evaluate "@ + label + " because `"@ + path@ + "` is invalid JSON: "@ + error@,
                        Seq::empty(),
                    ),
                ),
                ArtifactLoad::InvalidContract { path, error } => Some(
                    fail_view(
                        seq![FailureReason::InvalidArtifactContract],
                        "cannot evaluate "@ + label + " because `"@ + path@ + "` failed contract validation: "@
                            + error@,
                        Seq::empty(),
                    ),
                ),
            }
        },
        _ => Some(
            fail_view(
                prerequisite_reasons(analysis),
                "cannot evaluate "@ + label + " because the recommendation analysis artifact is unavailable"@,
                Seq::empty(),
            ),
        ),
    }
}

fn copy_failure_reasons(v: &Vec<FailureReason>) -> (r: Vec<FailureReason>)
    ensures
        r@ == v@,
{
    let mut out: Vec<FailureReason> = Vec::new();
    let mut i: usize = 0;
    while i < v.len()
        invariant
            i <= v@.len(),
            out@ == v@.take(i as int),
        decreases v@.len() - i,
    {
        out.push(v[i]);
        proof {
            assert(out@ =~= v@.take(i + 1));
        }
        i = i + 1;
    }
    proof {
        assert(v@.take(v@.len() as int) =~= v@);
    }
    out
}

fn unready_result(
    analysis_load: &ArtifactLoad<FamilyRecommendationAnalysisArtifact>,
    decision_load: &ArtifactLoad<CorpusProgramDecisionArtifact>,
    validation: &CheckResult,
    label: &str,
    decision_path: &str,
) -> (r: Option<CheckResult>)
    ensures
        match readiness(*analysis_load, *decision_load, check_view(*validation), label@, decision_path@) {
            None => r is None,
            Some(v) => r matches Some(c) && check_view(c) == v,
        },
{
    match analysis_load {
        ArtifactLoad::Ready(_) => {},
        _ => {
            let mut m = owned("cannot evaluate ");
            m.append(label);
            m.append(" because the recommendation analysis artifact is unavailable");
            let reasons = prerequisite_reasons_from_analysis(analysis_load);
            let r = fail_with(reasons, m, Vec::new());
            proof {
                assert(check_view(r).mismatches =~= Seq::<(Seq<char>, MismatchValueView, MismatchValueView)>::empty());
            }
            return Some(r);
        },
    }
    if validation.status == CheckStatus::Fail {
        let mut m = owned("cannot evaluate ");
        m.append(label);
        m.append(" because the corpus program decision contract did not validate");
        let r = fail_with(copy_failure_reasons(&validation.failure_reasons), m, Vec::new());
        proof {
            assert(check_view(r).mismatches =~= Seq::<(Seq<char>, MismatchValueView, MismatchValueView)>::empty());
        }
        return Some(r);
    }
    match decision_load {
        ArtifactLoad::Ready(_) => None,
        ArtifactLoad::Missing(_) => {
            let mut m = owned("cannot evaluate ");
            m.append(label);
            m.append(" because `");
            m.append(decision_path);
            m.append("` is missing");
            Some(fail_one(FailureReason::MissingCorpusProgramDecisionArtifact, m))
        },
        ArtifactLoad::InvalidJson { path, error } => {
            let mut m = owned("cannot evaluate ");
            m.append(label);
            m.append(" because `");
            m.append(path.as_str());
            m.append("` is invalid JSON: ");
            m.append(error.as_str());
            Some(fail_one(FailureReason::InvalidArtifactJson, m))
        },
        ArtifactLoad::InvalidContract { path, error } => {
            let mut m = owned("cannot evaluate ");
            m.append(label);
            m.append(" because `");
            m.append(path.as_str());
            m.append("` failed contract validation: ");
            m.append(error.as_str());
            Some(fail_one(FailureReason::InvalidArtifactContract, m))
        },
    }
}

/// The mismatch of one field: none when the values agree.
pub open spec fn mismatch_if(field: Seq<char>, expected: MismatchValueView, observed: MismatchValueView) -> Seq<
    (Seq<char>, MismatchValueView, MismatchValueView),
> {
    if expected == observed {
        Seq::empty()
    } else {
        seq![(field, expected, observed)]
    }
}

fn reasons_equal(a: &Vec<DecisionReason>, b: &Vec<DecisionReason>) -> (r: bool)
    ensures
        r == (a@ == b@),
{
    if a.len() != b.len() {
        return false;
    }
    let mut i: usize = 0;
    while i < a.len()
        invariant
            i <= a@.len(),
            a@.len() == b@.len(),
            forall|k: int| 0 <= k < i ==> a@[k] == b@[k],
        decreases a@.len() - i,
    {
        if a[i] != b[i] {
            return false;
        }
        i = i + 1;
    }
    proof {
        assert(a@ =~= b@);
    }
    true
}

fn evidence_equal(a: &Vec<EvidenceState>, b: &Vec<EvidenceState>) -> (r: bool)
    ensures
        r == (a@ == b@),
{
    if a.len() != b.len() {
        return false;
    }
    let mut i: usize = 0;
    while i < a.len()
        invariant
            i <= a@.len(),
            a@.len() == b@.len(),
            forall|k: int| 0 <= k < i ==> a@[k] == b@[k],
        decreases a@.len() - i,
    {
        if a[i] != b[i] {
            return false;
        }
        i = i + 1;
    }
    proof {
        assert(a@ =~= b@);
    }
    true
}

fn copy_value(v: &MismatchValue) -> (r: MismatchValue)
    ensures
        value_view(r) == value_view(*v),
{
    match v {
        MismatchValue::RecommendationStatus(x) => MismatchValue::RecommendationStatus(*x),
        MismatchValue::DecisionStatus(x) => MismatchValue::DecisionStatus(*x),
        MismatchValue::CandidateId(x) => MismatchValue::CandidateId(
            match x {
                Some(s) => Some(owned(s.as_str())),
                None => None,
            },
        ),
        MismatchValue::Reasons(x) => MismatchValue::Reasons(copy_reasons(x)),
        MismatchValue::Evidence(x) => MismatchValue::Evidence(copy_evidence(x)),
        MismatchValue::Action(x) => MismatchValue::Action(*x),
        MismatchValue::BasisCode(x) => MismatchValue::BasisCode(*x),
        MismatchValue::PivotTarget(x) => MismatchValue::PivotTarget(*x),
        MismatchValue::NextAction(x) => MismatchValue::NextAction(*x),
        MismatchValue::Text(x) => MismatchValue::Text(owned(x.as_str())),
    }
}

fn values_equal(a: &MismatchValue, b: &MismatchValue) -> (r: bool)
    ensures
        r == (value_view(*a) == value_view(*b)),
{
    match (a, b) {
        (MismatchValue::RecommendationStatus(x), MismatchValue::RecommendationStatus(y)) => *x == *y,
        (MismatchValue::DecisionStatus(x), MismatchValue::DecisionStatus(y)) => *x == *y,
        (MismatchValue::CandidateId(x), MismatchValue::CandidateId(y)) => match (x, y) {
            (Some(s), Some(t)) => str_eq(s.as_str(), t.as_str()),
            (None, None) => true,
            _ => false,
        },
        (MismatchValue::Reasons(x), MismatchValue::Reasons(y)) => reasons_equal(x, y),
        (MismatchValue::Evidence(x), MismatchValue::Evidence(y)) => evidence_equal(x, y),
        (MismatchValue::Action(x), MismatchValue::Action(y)) => *x == *y,
        (MismatchValue::BasisCode(x), MismatchValue::BasisCode(y)) => *x == *y,
        (MismatchValue::PivotTarget(x), MismatchValue::PivotTarget(y)) => match (x, y) {
            (Some(s), Some(t)) => *s == *t,
            (None, None) => true,
            _ => false,
        },
        (MismatchValue::NextAction(x), MismatchValue::NextAction(y)) => *x == *y,
        (MismatchValue::Text(x), MismatchValue::Text(y)) => str_eq(x.as_str(), y.as_str()),
        _ => false,
    }
}

/// Records a mismatch of `field` when the values differ.
fn push_mismatch(mismatches: &mut Vec<FieldMismatch>, field: &str, expected: MismatchValue, observed: MismatchValue)
    ensures
        final(mismatches)@.map_values(|m: FieldMismatch| mismatch_view(m)) == old(mismatches)@.map_values(
            |m: FieldMismatch| mismatch_view(m),
        ) + mismatch_if(field@, value_view(expected), value_view(observed)),
{
    let ghost before = mismatches@;
    if values_equal(&expected, &observed) {
        proof {
            assert(before.map_values(|m: FieldMismatch| mismatch_view(m)) + mismatch_if(
                field@,
                value_view(expected),
                value_view(observed),
            ) =~= before.map_values(|m: FieldMismatch| mismatch_view(m)));
        }
        return;
    }
    mismatches.push(FieldMismatch { field: owned(field), expected, observed });
    proof {
        assert(mismatches@.map_values(|m: FieldMismatch| mismatch_view(m)) =~= before.map_values(
            |m: FieldMismatch| mismatch_view(m),
        ) + mismatch_if(field@, value_view(expected), value_view(observed)));
    }
}

/// What the decision's basis snapshot must repeat of the analysis, field by field.
pub open spec fn snapshot_mismatches(a: FamilyRecommendationAnalysisArtifact, d: CorpusProgramDecisionArtifact) -> Seq<
    (Seq<char>, MismatchValueView, MismatchValueView),
> {
    let s = d.basis_snapshot;
    mismatch_if(
        "basis_snapshot.recommendation_status"@,
        MismatchValueView::RecommendationStatus(a.recommendation_status),
        MismatchValueView::RecommendationStatus(s.recommendation_status),
    ) + mismatch_if(
        "basis_snapshot.decision_status"@,
        MismatchValueView::DecisionStatus(a.decision_summary.decision_status),
        MismatchValueView::DecisionStatus(s.decision_status),
    ) + mismatch_if(
        "basis_snapshot.top_candidate_id"@,
        MismatchValueView::CandidateId(opt_view(a.decision_summary.top_candidate_id)),
        MismatchValueView::CandidateId(opt_view(s.top_candidate_id)),
    ) + mismatch_if(
        "basis_snapshot.open_blockers"@,
        MismatchValueView::Reasons(a.decision_summary.open_blockers@),
        MismatchValueView::Reasons(s.open_blockers@),
    ) + mismatch_if(
        "basis_snapshot.missing_evidence"@,
        MismatchValueView::Evidence(a.evidence_summary.missing_evidence@),
        MismatchValueView::Evidence(s.missing_evidence@),
    ) + mismatch_if(
        "basis_snapshot.stale_evidence"@,
        MismatchValueView::Evidence(a.evidence_summary.stale_evidence@),
        MismatchValueView::Evidence(s.stale_evidence@),
    )
}

/// The basis-snapshot parity check.
pub open spec fn snapshot_check(
    analysis: ArtifactLoad<FamilyRecommendationAnalysisArtifact>,
    decision: ArtifactLoad<CorpusProgramDecisionArtifact>,
    validation: CheckView,
    decision_path: Seq<char>,
) -> CheckView {
    match readiness(analysis, decision, validation, "basis snapshot parity"@, decision_path) {
        Some(v) => v,
        None => {
            let ms = snapshot_mismatches(analysis->Ready_0, decision->Ready_0);
            if ms.len() == 0 {
                pass_view()
            } else {
                fail_view(
                    seq![FailureReason::BasisSnapshotMismatch],
                    "corpus program decision basis_snapshot drifted from the validated recommendation analysis"@,
                    ms,
                )
            }
        },
    }
}

fn opt_copy(o: &Option<String>) -> (r: Option<String>)
    ensures
        opt_view(r) == opt_view(*o),
{
    match o {
        Some(s) => Some(owned(s.as_str())),
        None => None,
    }
}

#[verifier::spinoff_prover]
#[verifier::rlimit(40)]
pub fn basis_snapshot_parity_result(
    analysis_load: &ArtifactLoad<FamilyRecommendationAnalysisArtifact>,
    decision_load: &ArtifactLoad<CorpusProgramDecisionArtifact>,
    validation: &CheckResult,
    decision_path: &str,
) -> (r: CheckResult)
    ensures
        check_view(r) == snapshot_check(*analysis_load, *decision_load, check_view(*validation), decision_path@),
{
    match unready_result(analysis_load, decision_load, validation, "basis snapshot parity", decision_path) {
        Some(r) => {
            return r;
        },
        None => {},
    }
    let (analysis, decision) = match (analysis_load, decision_load) {
        (ArtifactLoad::Ready(a), ArtifactLoad::Ready(d)) => (a, d),
        _ => {
            proof {
                assert(false);
            }
            return pass();
        },
    };
    let s = &decision.basis_snapshot;
    let mut mismatches: Vec<FieldMismatch> = Vec::new();
    push_mismatch(
        &mut mismatches,
        "basis_snapshot.recommendation_status",
        MismatchValue::RecommendationStatus(analysis.recommendation_status),
        MismatchValue::RecommendationStatus(s.recommendation_status),
    );
    push_mismatch(
        &mut mismatches,
        "basis_snapshot.decision_status",
        MismatchValue::DecisionStatus(analysis.decision_summary.decision_status),
        MismatchValue::DecisionStatus(s.decision_status),
    );
    push_mismatch(
        &mut mismatches,
        "basis_snapshot.top_candidate_id",
        MismatchValue::CandidateId(opt_copy(&analysis.decision_summary.top_candidate_id)),
        MismatchValue::CandidateId(opt_copy(&s.top_candidate_id)),
    );
    push_mismatch(
        &mut mismatches,
        "basis_snapshot.open_blockers",
        MismatchValue::Reasons(copy_reasons(&analysis.decision_summary.open_blockers)),
        MismatchValue::Reasons(copy_reasons(&s.open_blockers)),
    );
    push_mismatch(
        &mut mismatches,
        "basis_snapshot.missing_evidence",
        MismatchValue::Evidence(copy_evidence(&analysis.evidence_summary.missing_evidence)),
        MismatchValue::Evidence(copy_evidence(&s.missing_evidence)),
    );
    push_mismatch(
        &mut mismatches,
        "basis_snapshot.stale_evidence",
        MismatchValue::Evidence(copy_evidence(&analysis.evidence_summary.stale_evidence)),
        MismatchValue::Evidence(copy_evidence(&s.stale_evidence)),
    );
    proof {
        assert(mismatches@.map_values(|m: FieldMismatch| mismatch_view(m)) =~= snapshot_mismatches(
            *analysis,
            *decision,
        ));
    }
    if mismatches.len() == 0 {
        pass()
    } else {
        let reasons = vec![FailureReason::BasisSnapshotMismatch];
        proof {
            assert(reasons@ =~= seq![FailureReason::BasisSnapshotMismatch]);
        }
        fail_with(
            reasons,
            owned("corpus program decision basis_snapshot drifted from the validated recommendation analysis"),
            mismatches,
        )
    }
}

/// What the decision must repeat of the decision derived from the analysis.
pub open spec fn derived_mismatches(a: FamilyRecommendationAnalysisArtifact, d: CorpusProgramDecisionArtifact) -> Seq<
    (Seq<char>, MismatchValueView, MismatchValueView),
> {
    let e = decision_for(a);
    mismatch_if("decision_action"@, MismatchValueView::Action(e.0), MismatchValueView::Action(d.decision_action))
        + mismatch_if(
        "decision_basis_code"@,
        MismatchValueView::BasisCode(e.1),
        MismatchValueView::BasisCode(d.decision_basis_code),
    ) + mismatch_if(
        "pivot_target_class"@,
        MismatchValueView::PivotTarget(e.2),
        MismatchValueView::PivotTarget(d.pivot_target_class),
    ) + mismatch_if(
        "required_next_action"@,
        MismatchValueView::NextAction(e.3),
        MismatchValueView::NextAction(d.required_next_action),
    ) + mismatch_if("summary"@, MismatchValueView::Text(e.4), MismatchValueView::Text(d.summary@))
}

/// The derived-decision parity check.
pub open spec fn derived_check(
    analysis: ArtifactLoad<FamilyRecommendationAnalysisArtifact>,
    decision: ArtifactLoad<CorpusProgramDecisionArtifact>,
    validation: CheckView,
    decision_path: Seq<char>,
) -> CheckView {
    match readiness(analysis, decision, validation, "derived decision parity"@, decision_path) {
        Some(v) => v,
        None => {
            let ms = derived_mismatches(analysis->Ready_0, decision->Ready_0);
            if ms.len() == 0 {
                pass_view()
            } else {
                fail_view(
                    seq![FailureReason::DerivedDecisionMismatch],
                    "corpus program decision semantic fields drifted from the kernel-derived contract"@,
                    ms,
                )
            }
        },
    }
}

pub fn derived_decision_parity_result(
    analysis_load: &ArtifactLoad<FamilyRecommendationAnalysisArtifact>,
    decision_load: &ArtifactLoad<CorpusProgramDecisionArtifact>,
    validation: &CheckResult,
    decision_path: &str,
) -> (r: CheckResult)
    ensures
        check_view(r) == derived_check(*analysis_load, *decision_load, check_view(*validation), decision_path@),
{
    match unready_result(analysis_load, decision_load, validation, "derived decision parity", decision_path) {
        Some(r) => {
            return r;
        },
        None => {},
    }
    let (analysis, decision) = match (analysis_load, decision_load) {
        (ArtifactLoad::Ready(a), ArtifactLoad::Ready(d)) => (a, d),
        _ => {
            proof {
                assert(false);
            }
            return pass();
        },
    };
    let expected = match derive_corpus_program_decision_contract(analysis) {
        Ok(e) => e,
        Err(error) => {
            proof {
                assert(false);
            }
            let mut m = owned("failed to derive decision contract from validated analysis artifact: ");
            let text = error.message();
            m.append(text.as_str());
            return fail_one(FailureReason::InvalidArtifactContract, m);
        },
    };
    let mut mismatches: Vec<FieldMismatch> = Vec::new();
    push_mismatch(
        &mut mismatches,
        "decision_action",
        MismatchValue::Action(expected.decision_action),
        MismatchValue::Action(decision.decision_action),
    );
    push_mismatch(
        &mut mismatches,
        "decision_basis_code",
        MismatchValue::BasisCode(expected.decision_basis_code),
        MismatchValue::BasisCode(decision.decision_basis_code),
    );
    push_mismatch(
        &mut mismatches,
        "pivot_target_class",
        MismatchValue::PivotTarget(expected.pivot_target_class),
        MismatchValue::PivotTarget(decision.pivot_target_class),
    );
    push_mismatch(
        &mut mismatches,
        "required_next_action",
        MismatchValue::NextAction(expected.required_next_action),
        MismatchValue::NextAction(decision.required_next_action),
    );
    push_mismatch(
        &mut mismatches,
        "summary",
        MismatchValue::Text(owned(expected.summary.as_str())),
        MismatchValue::Text(owned(decision.summary.as_str())),
    );
    proof {
        assert(mismatches@.map_values(|m: FieldMismatch| mismatch_view(m)) =~= derived_mismatches(
            *analysis,
            *decision,
        ));
    }
    if mismatches.len() == 0 {
        pass()
    } else {
        let reasons = vec![FailureReason::DerivedDecisionMismatch];
        proof {
            assert(reasons@ =~= seq![FailureReason::DerivedDecisionMismatch]);
        }
        fail_with(
            reasons,
            owned("corpus program decision semantic fields drifted from the kernel-derived contract"),
            mismatches,
        )
    }
}

/// How the analysis and decision depart from the frozen helper-surface floor.
pub open spec fn floor_mismatches(a: FamilyRecommendationAnalysisArtifact, d: CorpusProgramDecisionArtifact) -> Seq<
    (Seq<char>, MismatchValueView, MismatchValueView),
> {
    mismatch_if(
        "recommendation_status"@,
        MismatchValueView::RecommendationStatus(RecommendationStatus::NoStrongCandidate),
        MismatchValueView::RecommendationStatus(a.recommendation_status),
    ) + mismatch_if(
        "decision_summary.decision_status"@,
        MismatchValueView::DecisionStatus(DecisionStatus::NotRecommended),
        MismatchValueView::DecisionStatus(a.decision_summary.decision_status),
    ) + mismatch_if(
        "decision_summary.open_blockers"@,
        MismatchValueView::Reasons(seq![DecisionReason::HelperSurfaceNotPromotable]),
        MismatchValueView::Reasons(a.decision_summary.open_blockers@),
    ) + mismatch_if(
        "evidence_summary.missing_evidence"@,
        MismatchValueView::Evidence(Seq::empty()),
        MismatchValueView::Evidence(a.evidence_summary.missing_evidence@),
    ) + mismatch_if(
        "evidence_summary.stale_evidence"@,
        MismatchValueView::Evidence(Seq::empty()),
        MismatchValueView::Evidence(a.evidence_summary.stale_evidence@),
    ) + mismatch_if(
        "decision_action"@,
        MismatchValueView::Action(CorpusProgramDecisionAction::PivotToArchitectureSharedCoreFollowOn),
        MismatchValueView::Action(d.decision_action),
    ) + mismatch_if(
        "decision_basis_code"@,
        MismatchValueView::BasisCode(CorpusProgramDecisionBasisCode::DurableNonPromotableHelperSurface),
        MismatchValueView::BasisCode(d.decision_basis_code),
    ) + mismatch_if(
        "required_next_action"@,
        MismatchValueView::NextAction(RequiredNextAction::AuthorArchitectureFollowOnPlan),
        MismatchValueView::NextAction(d.required_next_action),
    )
}

/// The frozen helper-surface floor check: the evidence must be current and every floor
/// field must hold.
pub open spec fn floor_check(
    analysis: ArtifactLoad<FamilyRecommendationAnalysisArtifact>,
    decision: ArtifactLoad<CorpusProgramDecisionArtifact>,
    validation: CheckView,
    decision_path: Seq<char>,
) -> CheckView {
    match readiness(analysis, decision, validation, "frozen helper-surface floor"@, decision_path) {
        Some(v) => v,
        None => {
            let a = analysis->Ready_0;
            let ms = floor_mismatches(a, decision->Ready_0);
            let stale = a.evidence_summary.missing_evidence@.len() > 0 || a.evidence_summary.stale_evidence@.len() > 0;
            let reasons = (if stale {
                seq![FailureReason::FrozenHelperSurfaceEvidenceNotCurrent]
            } else {
                Seq::empty()
            }) + (if ms.len() > 0 {
                seq![FailureReason::FrozenHelperSurfaceFloorMismatch]
            } else {
                Seq::empty()
            });
            if reasons.len() == 0 {
                pass_view()
            } else {
                fail_view(reasons, "the validated artifacts no longer satisfy the frozen helper-surface floor"@, ms)
            }
        },
    }
}

pub fn frozen_helper_surface_floor_result(
    analysis_load: &ArtifactLoad<FamilyRecommendationAnalysisArtifact>,
    decision_load: &ArtifactLoad<CorpusProgramDecisionArtifact>,
    validation: &CheckResult,
    decision_path: &str,
) -> (r: CheckResult)
    ensures
        check_view(r) == floor_check(*analysis_load, *decision_load, check_view(*validation), decision_path@),
{
    match unready_result(analysis_load, decision_load, validation, "frozen helper-surface floor", decision_path) {
        Some(r) => {
            return r;
        },
        None => {},
    }
    let (analysis, decision) = match (analysis_load, decision_load) {
        (ArtifactLoad::Ready(a), ArtifactLoad::Ready(d)) => (a, d),
        _ => {
            proof {
                assert(false);
            }
            return pass();
        },
    };
    let mut reasons: Vec<FailureReason> = Vec::new();
    let stale = analysis.evidence_summary.missing_evidence.len() > 0 || analysis.evidence_summary.stale_evidence.len()
        > 0;
    if stale {
        reasons.push(FailureReason::FrozenHelperSurfaceEvidenceNotCurrent);
    }
    let mut mismatches: Vec<FieldMismatch> = Vec::new();
    push_mismatch(
        &mut mismatches,
        "recommendation_status",
        MismatchValue::RecommendationStatus(RecommendationStatus::NoStrongCandidate),
        MismatchValue::RecommendationStatus(analysis.recommendation_status),
    );
    push_mismatch(
        &mut mismatches,
        "decision_summary.decision_status",
        MismatchValue::DecisionStatus(DecisionStatus::NotRecommended),
        MismatchValue::DecisionStatus(analysis.decision_summary.decision_status),
    );
    let floor_blockers = vec![DecisionReason::HelperSurfaceNotPromotable];
    proof {
        assert(floor_blockers@ =~= seq![DecisionReason::HelperSurfaceNotPromotable]);
    }
    push_mismatch(
        &mut mismatches,
        "decision_summary.open_blockers",
        MismatchValue::Reasons(floor_blockers),
        MismatchValue::Reasons(copy_reasons(&analysis.decision_summary.open_blockers)),
    );
    push_mismatch(
        &mut mismatches,
        "evidence_summary.missing_evidence",
        MismatchValue::Evidence(Vec::new()),
        MismatchValue::Evidence(copy_evidence(&analysis.evidence_summary.missing_evidence)),
    );
    push_mismatch(
        &mut mismatches,
        "evidence_summary.stale_evidence",
        MismatchValue::Evidence(Vec::new()),
        MismatchValue::Evidence(copy_evidence(&analysis.evidence_summary.stale_evidence)),
    );
    push_mismatch(
        &mut mismatches,
        "decision_action",
        MismatchValue::Action(CorpusProgramDecisionAction::PivotToArchitectureSharedCoreFollowOn),
        MismatchValue::Action(decision.decision_action),
    );
    push_mismatch(
        &mut mismatches,
        "decision_basis_code",
        MismatchValue::BasisCode(CorpusProgramDecisionBasisCode::DurableNonPromotableHelperSurface),
        MismatchValue::BasisCode(decision.decision_basis_code),
    );
    push_mismatch(
        &mut mismatches,
        "required_next_action",
        MismatchValue::NextAction(RequiredNextAction::AuthorArchitectureFollowOnPlan),
        MismatchValue::NextAction(decision.required_next_action),
    );
    proof {
        assert(mismatches@.map_values(|m: FieldMismatch| mismatch_view(m)) =~= floor_mismatches(*analysis, *decision));
    }
    if mismatches.len() > 0 {
        reasons.push(FailureReason::FrozenHelperSurfaceFloorMismatch);
    }
    proof {
        let ms = floor_mismatches(*analysis, *decision);
        assert(reasons@ =~= (if stale {
            seq![FailureReason::FrozenHelperSurfaceEvidenceNotCurrent]
        } else {
            Seq::empty()
        }) + (if ms.len() > 0 {
            seq![FailureReason::FrozenHelperSurfaceFloorMismatch]
        } else {
            Seq::empty()
        }));
    }
    if reasons.len() == 0 {
        pass()
    } else {
        fail_with(reasons, owned("the validated artifacts no longer satisfy the frozen helper-surface floor"), mismatches)
    }
}

/// `acc` followed by the reasons of `rs` it does not hold yet, each once, in order.
pub open spec fn add_reasons(acc: Seq<FailureReason>, rs: Seq<FailureReason>) -> Seq<FailureReason>
    decreases rs.len(),
{
    if rs.len() == 0 {
        acc
    } else {
        let prev = add_reasons(acc, rs.drop_last());
        if prev.contains(rs.last()) {
            prev
        } else {
            prev.push(rs.last())
        }
    }
}

fn push_new_reasons(acc: &mut Vec<FailureReason>, rs: &Vec<FailureReason>)
    ensures
        final(acc)@ == add_reasons(old(acc)@, rs@),
{
    let ghost start = acc@;
    let mut i: usize = 0;
    while i < rs.len()
        invariant
            i <= rs@.len(),
            acc@ == add_reasons(start, rs@.take(i as int)),
        decreases rs@.len() - i,
    {
        proof {
            assert(rs@.take(i + 1).drop_last() =~= rs@.take(i as int));
        }
        let r = rs[i];
        let mut found = false;
        let mut k: usize = 0;
        while k < acc.len()
            invariant
                k <= acc@.len(),
                found == (exists|j: int| 0 <= j < k && acc@[j] == r),
            decreases acc@.len() - k,
        {
            if acc[k] == r {
                found = true;
            }
            k = k + 1;
        }
        proof {
            if found {
                let j = choose|j: int| 0 <= j < acc@.len() && acc@[j] == r;
                assert(acc@.contains(r));
            } else {
                assert(!acc@.contains(r));
            }
        }
        if !found {
            acc.push(r);
        }
        i = i + 1;
    }
    proof {
        assert(rs@.take(rs@.len() as int) =~= rs@);
    }
}

/// The five checks of a verification, in the order they run.
#[derive(Debug, Clone)]
pub struct VerificationChecks {
    pub recommendation_analysis_validation: CheckResult,
    pub corpus_program_decision_validation: CheckResult,
    pub basis_snapshot_parity: CheckResult,
    pub derived_decision_parity: CheckResult,
    pub frozen_helper_surface_floor: CheckResult,
}

/// The failure reasons of the checks, each once, in the order they first appear.
pub open spec fn all_reasons(c: VerificationChecks) -> Seq<FailureReason> {
    add_reasons(
        add_reasons(
            add_reasons(
                add_reasons(
                    add_reasons(Seq::empty(), c.recommendation_analysis_validation.failure_reasons@),
                    c.corpus_program_decision_validation.failure_reasons@,
                ),
                c.basis_snapshot_parity.failure_reasons@,
            ),
            c.derived_decision_parity.failure_reasons@,
        ),
        c.frozen_helper_surface_floor.failure_reasons@,
    )
}

pub fn collect_failure_reasons(checks: &VerificationChecks) -> (r: Vec<FailureReason>)
    ensures
        r@ == all_reasons(*checks),
{
    let mut reasons: Vec<FailureReason> = Vec::new();
    push_new_reasons(&mut reasons, &checks.recommendation_analysis_validation.failure_reasons);
    push_new_reasons(&mut reasons, &checks.corpus_program_decision_validation.failure_reasons);
    push_new_reasons(&mut reasons, &checks.basis_snapshot_parity.failure_reasons);
    push_new_reasons(&mut reasons, &checks.derived_decision_parity.failure_reasons);
    push_new_reasons(&mut reasons, &checks.frozen_helper_surface_floor.failure_reasons);
    reasons
}

/// The report of a verification.
#[derive(Debug, Clone)]
pub struct VerificationReport {
    pub command: String,
    pub format: String,
    pub recommendation_analysis_path: String,
    pub corpus_program_decision_path: String,
    pub checks: VerificationChecks,
    pub overall_verdict: OverallVerdict,
    pub failure_reasons: Vec<FailureReason>,
}

/// Verifies the decision contract from how the two artifacts loaded; `contract` is the
/// outcome of the decision's own contract check and `decision_path` where it was read.
pub fn build_report(
    analysis_load: &ArtifactLoad<FamilyRecommendationAnalysisArtifact>,
    decision_load: &ArtifactLoad<CorpusProgramDecisionArtifact>,
    contract: &Result<(), XtaskError>,
    decision_path: &str,
) -> (r: VerificationReport)
    ensures
        r.command@ == COMMAND_NAME@,
        r.format@ == "json"@,
        r.recommendation_analysis_path@ == FAMILY_RECOMMENDATION_ANALYSIS_LATEST_PATH@,
        r.corpus_program_decision_path@ == decision_path@,
        check_view(r.checks.recommendation_analysis_validation) == load_check(
            *analysis_load,
            FailureReason::MissingRecommendationAnalysisArtifact,
            "recommendation analysis artifact"@,
        ),
        check_view(r.checks.corpus_program_decision_validation) == decision_check(
            *analysis_load,
            *decision_load,
            *contract,
            decision_path@,
        ),
        check_view(r.checks.basis_snapshot_parity) == snapshot_check(
            *analysis_load,
            *decision_load,
            check_view(r.checks.corpus_program_decision_validation),
            decision_path@,
        ),
        check_view(r.checks.derived_decision_parity) == derived_check(
            *analysis_load,
            *decision_load,
            check_view(r.checks.corpus_program_decision_validation),
            decision_path@,
        ),
        check_view(r.checks.frozen_helper_surface_floor) == floor_check(
            *analysis_load,
            *decision_load,
            check_view(r.checks.corpus_program_decision_validation),
            decision_path@,
        ),
        r.failure_reasons@ == all_reasons(r.checks),
        r.overall_verdict == if r.failure_reasons@.len() == 0 {
            OverallVerdict::Pass
        } else {
            OverallVerdict::Fail
        },
{
    let recommendation_analysis_validation = artifact_check_result(
        analysis_load,
        FailureReason::MissingRecommendationAnalysisArtifact,
        "recommendation analysis artifact",
    );
    let corpus_program_decision_validation = decision_validation_result(
        analysis_load,
        decision_load,
        contract,
        decision_path,
    );
    let basis_snapshot_parity = basis_snapshot_parity_result(
        analysis_load,
        decision_load,
        &corpus_program_decision_validation,
        decision_path,
    );
    let derived_decision_parity = derived_decision_parity_result(
        analysis_load,
        decision_load,
        &corpus_program_decision_validation,
        decision_path,
    );
    let frozen_helper_surface_floor = frozen_helper_surface_floor_result(
        analysis_load,
        decision_load,
        &corpus_program_decision_validation,
        decision_path,
    );
    let checks = VerificationChecks {
        recommendation_analysis_validation,
        corpus_program_decision_validation,
        basis_snapshot_parity,
        derived_decision_parity,
        frozen_helper_surface_floor,
    };
    let failure_reasons = collect_failure_reasons(&checks);
    let overall_verdict = if failure_reasons.len() == 0 {
        OverallVerdict::Pass
    } else {
        OverallVerdict::Fail
    };
    VerificationReport {
        command: owned(COMMAND_NAME),
        format: owned("json"),
        recommendation_analysis_path: owned(FAMILY_RECOMMENDATION_ANALYSIS_LATEST_PATH),
        corpus_program_decision_path: owned(decision_path),
        checks,
        overall_verdict,
        failure_reasons,
    }
}

/// The command succeeds only on a passing verdict.
pub fn verdict_result(report: &VerificationReport) -> (r: Result<(), XtaskError>)
    ensures
        report.overall_verdict == OverallVerdict::Pass ==> r is Ok,
        report.overall_verdict == OverallVerdict::Fail ==> (r matches Err(e) && e@ == XtaskErrorView::InvalidInput(
            "family verify-decision-contract detected contract drift"@,
        )),
{
    if report.overall_verdict == OverallVerdict::Pass {
        Ok(())
    } else {
        Err(XtaskError::InvalidInput(owned("family verify-decision-contract detected contract drift")))
    }
}

/// The verification is reported as JSON only.
pub fn check_verify_format(format: &str) -> (r: Result<(), XtaskError>)
    ensures
        format@ == "json"@ ==> r is Ok,
        format@ != "json"@ ==> (r matches Err(e) && e@ == XtaskErrorView::InvalidInput(
            "family verify-decision-contract only supports `--format json`, found `"@ + format@ + "`"@,
        )),
{
    if str_eq(format, "json") {
        Ok(())
    } else {
        let mut m = owned("family verify-decision-contract only supports `--format json`, found `");
        m.append(format);
        m.append("`");
        Err(XtaskError::InvalidInput(m))
    }
}

} // verus!
