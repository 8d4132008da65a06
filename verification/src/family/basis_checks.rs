//! Checks of artifacts that cite the recommendation analysis as their basis.
use vstd::prelude::*;
use crate::family::analysis_checks::{
    add_once, analysis_issue, same_reasons, same_states, repo_relative_issue, sha_bound_issue, single_line, is_single_line,
    validate_repo_relative_path, validate_sha_bound_path, WorkspaceFile,
};
use crate::family::artifacts::{
    CorpusProgramBasisSnapshot, CorpusProgramDecisionAction, CorpusProgramDecisionArtifact,
    CorpusProgramDecisionBasisCode, EvidenceState, FamilyRecommendationAnalysisArtifact, PivotTargetClass,
    PromotionArtifactKind, RequiredNextAction,
};
use crate::family::decision::{basis_snapshot_requires_helper_surface_follow_on, requires_follow_on};
use crate::family::error::{XtaskError, XtaskErrorView};
use crate::family::helper_surface::{decision_matches_helper_surface_follow_on_tuple, follow_on};
use crate::family::paths::FAMILY_RECOMMENDATION_ANALYSIS_LATEST_PATH;
use crate::family::report::{looks_like_utc_timestamp, utc_timestamp};
use crate::seam::{decimal, decimal_u64_string};
use crate::text::{concat, owned, str_eq};
use crate::unit_ref::opt_view;

verus! {

pub const CORPUS_PROGRAM_DECISION_SCHEMA_VERSION: u64 = 1;

/// What the workspace holds for a cited analysis basis: the bytes at the cited path, the
/// artifact those bytes parse to (or the refusal), and the bytes at that artifact's own
/// coverage path.
#[derive(Debug)]
pub struct BasisLookup {
    pub file: WorkspaceFile,
    pub parsed: Result<FamilyRecommendationAnalysisArtifact, XtaskError>,
    pub coverage: WorkspaceFile,
}

/// The first problem with a cited analysis basis: its path and digest binding, its parse,
/// or the basis artifact's own checks. `prefix` names the citing artifact.
pub open spec fn basis_reference_issue(
    path: Seq<char>,
    sha: Seq<char>,
    prefix: Seq<char>,
    basis: BasisLookup,
) -> Option<XtaskErrorView> {
    let bound = sha_bound_issue(
        path,
        FAMILY_RECOMMENDATION_ANALYSIS_LATEST_PATH@,
        sha,
        prefix + " analysis_basis_path"@,
        basis.file,
    );
    if bound is Some {
        bound
    } else {
        match basis.parsed {
            Err(e) => Some(e@),
            Ok(a) => analysis_issue(a, basis.coverage),
        }
    }
}

fn clone_error(e: &XtaskError) -> (r: XtaskError)
    ensures
        r@ == e@,
{
    match e {
        XtaskError::InvalidInput(m) => XtaskError::InvalidInput(owned(m.as_str())),
        XtaskError::NotImplemented(m) => XtaskError::NotImplemented(owned(m.as_str())),
        XtaskError::WriteFailure(m) => XtaskError::WriteFailure(owned(m.as_str())),
        XtaskError::AlreadyExists(m) => XtaskError::AlreadyExists(owned(m.as_str())),
        XtaskError::Internal(m) => XtaskError::Internal(owned(m.as_str())),
        XtaskError::ProveSuiteFailure(m) => XtaskError::ProveSuiteFailure(owned(m.as_str())),
        XtaskError::CertifyProveFailure(m) => XtaskError::CertifyProveFailure(owned(m.as_str())),
        XtaskError::CertifySuiteFailure(m) => XtaskError::CertifySuiteFailure(owned(m.as_str())),
        XtaskError::CertifyArtifactWriteFailure(m) => XtaskError::CertifyArtifactWriteFailure(owned(m.as_str())),
    }
}

/// Checks a cited analysis basis; on success the basis parsed and passed its own checks.
pub fn validate_analysis_basis_reference(
    path: &str,
    sha: &str,
    prefix: &str,
    basis: &BasisLookup,
) -> (r: Result<(), XtaskError>)
    ensures
        match basis_reference_issue(path@, sha@, prefix@, *basis) {
            None => r is Ok && basis.parsed is Ok,
            Some(e) => r matches Err(x) && x@ == e,
        },
{
    let field = concat(prefix, " analysis_basis_path");
    match validate_sha_bound_path(path, FAMILY_RECOMMENDATION_ANALYSIS_LATEST_PATH, sha, field.as_str(), &basis.file) {
        Ok(()) => {},
        Err(e) => {
            return Err(e);
        },
    }
    match &basis.parsed {
        Err(e) => Err(clone_error(e)),
        Ok(a) => a.validate(&basis.coverage),
    }
}

/// The evidence an analysis is missing or holds stale: the missing entries, then each
/// stale entry not already listed.
pub open spec fn missing_then_stale(missing: Seq<EvidenceState>, stale: Seq<EvidenceState>) -> Seq<EvidenceState>
    decreases stale.len(),
{
    if stale.len() == 0 {
        missing
    } else {
        add_once(missing_then_stale(missing, stale.drop_last()), stale.last())
    }
}

pub fn missing_or_stale_evidence(artifact: &FamilyRecommendationAnalysisArtifact) -> (r: Vec<EvidenceState>)
    ensures
        r@ == missing_then_stale(artifact.evidence_summary.missing_evidence@, artifact.evidence_summary.stale_evidence@),
{
    let missing = &artifact.evidence_summary.missing_evidence;
    let stale = &artifact.evidence_summary.stale_evidence;
    let mut out: Vec<EvidenceState> = Vec::new();
    let mut i: usize = 0;
    while i < missing.len()
        invariant
            i <= missing@.len(),
            out@ == missing@.take(i as int),
        decreases missing@.len() - i,
    {
        out.push(missing[i]);
        i = i + 1;
        proof {
            assert(out@ =~= missing@.take(i as int));
        }
    }
    proof {
        assert(missing@.take(missing@.len() as int) =~= missing@);
    }
    let mut j: usize = 0;
    while j < stale.len()
        invariant
            j <= stale@.len(),
            out@ == missing_then_stale(missing@, stale@.take(j as int)),
        decreases stale@.len() - j,
    {
        proof {
            assert(stale@.take(j + 1).drop_last() =~= stale@.take(j as int));
        }
        let s = stale[j];
        let mut found = false;
        let mut k: usize = 0;
        while k < out.len()
            invariant
                k <= out@.len(),
                found == exists|t: int| 0 <= t < k && out@[t] == s,
            decreases out@.len() - k,
        {
            if out[k] == s {
                found = true;
            }
            k = k + 1;
        }
        proof {
            if out@.contains(s) {
                let t = choose|t: int| 0 <= t < out@.len() && out@[t] == s;
                assert(found);
            }
        }
        if !found {
            out.push(s);
        }
        j = j + 1;
    }
    proof {
        assert(stale@.take(stale@.len() as int) =~= stale@);
    }
    out
}

/// The decision shows any part of the helper-surface follow-on: its action, basis code,
/// pivot target or next action.
pub open spec fn uses_follow_on(d: CorpusProgramDecisionArtifact) -> bool {
    ||| d.decision_action == follow_on().decision_action
    ||| d.decision_basis_code == follow_on().decision_basis_code
    ||| d.pivot_target_class == Some(follow_on().pivot_target_class)
    ||| d.required_next_action == follow_on().required_next_action
}

pub fn decision_uses_helper_surface_follow_on_tuple(artifact: &CorpusProgramDecisionArtifact) -> (r: bool)
    ensures
        r == uses_follow_on(*artifact),
{
    let pivot = match artifact.pivot_target_class {
        Some(p) => p == PivotTargetClass::ArchitectureSharedCoreFollowOn,
        None => false,
    };
    artifact.decision_action == CorpusProgramDecisionAction::PivotToArchitectureSharedCoreFollowOn
        || artifact.decision_basis_code == CorpusProgramDecisionBasisCode::DurableNonPromotableHelperSurface || pivot
        || artifact.required_next_action == RequiredNextAction::AuthorArchitectureFollowOnPlan
}

/// The snapshot a decision records equals what the basis says.
pub open spec fn snapshot_equals_basis(s: CorpusProgramBasisSnapshot, a: FamilyRecommendationAnalysisArtifact) -> bool {
    &&& s.recommendation_status == a.recommendation_status
    &&& s.decision_status == a.decision_summary.decision_status
    &&& opt_view(s.top_candidate_id) == opt_view(a.decision_summary.top_candidate_id)
    &&& s.open_blockers@ == a.decision_summary.open_blockers@
    &&& s.missing_evidence@ == a.evidence_summary.missing_evidence@
    &&& s.stale_evidence@ == a.evidence_summary.stale_evidence@
}

pub open spec fn follow_on_matches(d: CorpusProgramDecisionArtifact) -> bool {
    &&& d.decision_action == follow_on().decision_action
    &&& d.decision_basis_code == follow_on().decision_basis_code
    &&& d.pivot_target_class == Some(follow_on().pivot_target_class)
    &&& d.required_next_action == follow_on().required_next_action
}

/// The first problem with a corpus-program decision, in the order the checks run, given
/// what the workspace holds for its basis.
pub open spec fn decision_issue(d: CorpusProgramDecisionArtifact, basis: BasisLookup) -> Option<XtaskErrorView> {
    let reference = basis_reference_issue(
        d.analysis_basis_path@,
        d.analysis_basis_sha256@,
        "corpus-program decision"@,
        basis,
    );
    let s = d.basis_snapshot;
    let needs_follow_on = requires_follow_on(s.decision_status, s.open_blockers@, s.missing_evidence@, s.stale_evidence@);
    if d.schema_version != CORPUS_PROGRAM_DECISION_SCHEMA_VERSION {
        Some(
            XtaskErrorView::InvalidInput(
                "corpus-program decision schema_version must be 1, found "@ + decimal(d.schema_version as nat),
            ),
        )
    } else if d.artifact_kind != PromotionArtifactKind::CorpusProgramDecision {
        Some(XtaskErrorView::InvalidInput("corpus-program decision artifact_kind must be `corpus_program_decision`"@))
    } else if !utc_timestamp(d.generated_at@) {
        Some(XtaskErrorView::InvalidInput("corpus-program decision generated_at must be a UTC RFC3339 timestamp"@))
    } else if !single_line(d.summary@) {
        Some(XtaskErrorView::InvalidInput("corpus-program decision summary must be a single non-empty line"@))
    } else if reference is Some {
        reference
    } else if !(basis.parsed matches Ok(a) && snapshot_equals_basis(s, a)) {
        Some(
            XtaskErrorView::InvalidInput(
                "corpus-program decision basis_snapshot must exactly match the validated analysis basis"@,
            ),
        )
    } else if needs_follow_on != uses_follow_on(d) {
        Some(
            XtaskErrorView::InvalidInput(
                "corpus-program decision helper-surface follow-on tuple must stay aligned with the validated analysis basis"@,
            ),
        )
    } else if uses_follow_on(d) && !follow_on_matches(d) {
        Some(
            XtaskErrorView::InvalidInput(
                "corpus-program decision helper-surface follow-on tuple must use the frozen action, basis code, pivot target, and next action"@,
            ),
        )
    } else {
        None
    }
}

fn invalid(m: &str) -> (r: XtaskError)
    ensures
        r@ == XtaskErrorView::InvalidInput(m@),
{
    XtaskError::InvalidInput(owned(m))
}

fn same_option_string(a: &Option<String>, b: &Option<String>) -> (r: bool)
    ensures
        r == (opt_view(*a) == opt_view(*b)),
{
    match (a, b) {
        (None, None) => true,
        (Some(x), Some(y)) => str_eq(x.as_str(), y.as_str()),
        _ => false,
    }
}

impl CorpusProgramDecisionArtifact {
    /// Accepts the decision exactly when [`decision_issue`] finds nothing wrong with it,
    /// given what the workspace holds for its basis.
    pub fn validate(&self, basis: &BasisLookup) -> (r: Result<(), XtaskError>)
        ensures
            match decision_issue(*self, *basis) {
                None => r is Ok,
                Some(e) => r matches Err(x) && x@ == e,
            },
    {
        if self.schema_version != CORPUS_PROGRAM_DECISION_SCHEMA_VERSION {
            let mut m = owned("corpus-program decision schema_version must be 1, found ");
            let n = decimal_u64_string(self.schema_version);
            m.append(n.as_str());
            return Err(XtaskError::InvalidInput(m));
        }
        if self.artifact_kind != PromotionArtifactKind::CorpusProgramDecision {
            return Err(invalid("corpus-program decision artifact_kind must be `corpus_program_decision`"));
        }
        if !looks_like_utc_timestamp(self.generated_at.as_str()) {
            return Err(invalid("corpus-program decision generated_at must be a UTC RFC3339 timestamp"));
        }
        if !is_single_line(self.summary.as_str()) {
            return Err(invalid("corpus-program decision summary must be a single non-empty line"));
        }
        match validate_analysis_basis_reference(
            self.analysis_basis_path.as_str(),
            self.analysis_basis_sha256.as_str(),
            "corpus-program decision",
            basis,
        ) {
            Ok(()) => {},
            Err(e) => {
                return Err(e);
            },
        }
        let a = match &basis.parsed {
            Ok(a) => a,
            Err(e) => {
                return Err(clone_error(e));
            },
        };
        let s = &self.basis_snapshot;
        let same = s.recommendation_status == a.recommendation_status && s.decision_status
            == a.decision_summary.decision_status && same_option_string(
            &s.top_candidate_id,
            &a.decision_summary.top_candidate_id,
        ) && same_reasons(&s.open_blockers, &a.decision_summary.open_blockers) && same_states(
            &s.missing_evidence,
            &a.evidence_summary.missing_evidence,
        ) && same_states(&s.stale_evidence, &a.evidence_summary.stale_evidence);
        if !same {
            return Err(invalid("corpus-program decision basis_snapshot must exactly match the validated analysis basis"));
        }
        let needs_follow_on = basis_snapshot_requires_helper_surface_follow_on(s);
        let uses = decision_uses_helper_surface_follow_on_tuple(self);
        if needs_follow_on != uses {
            return Err(
                invalid(
                    "corpus-program decision helper-surface follow-on tuple must stay aligned with the validated analysis basis",
                ),
            );
        }
        if uses && !decision_matches_helper_surface_follow_on_tuple(self) {
            return Err(
                invalid(
                    "corpus-program decision helper-surface follow-on tuple must use the frozen action, basis code, pivot target, and next action",
                ),
            );
        }
        Ok(())
    }
}

} // verus!
