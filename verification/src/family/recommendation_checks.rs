//! Checks of the family recommendation artifact, global or scoped to one family.
use vstd::prelude::*;
use crate::family::analysis_checks::{
    is_single_line, repo_relative_issue, same_reasons, same_states, single_line, validate_repo_relative_path,
    sha256_hex, sha256_of, WorkspaceFile,
};
use crate::family::artifacts::{DecisionReason, DecisionStatus, EvidenceState, PromotionArtifactKind};
use crate::family::basis_checks::{
    basis_reference_issue, missing_or_stale_evidence, missing_then_stale, validate_analysis_basis_reference,
    BasisLookup,
};
use crate::family::error::{XtaskError, XtaskErrorView};
use crate::family::language::TargetLanguage;
use crate::family::paths::{family_id_ok, family_id_pattern_message, FamilyId, FAMILY_PROMOTION_INVENTORY_DIR};
use crate::family::report::{hex_of, looks_like_utc_timestamp, utc_timestamp};
use crate::seam::{decimal, decimal_u64_string};
use crate::text::{chars_of, concat, owned, starts_with, starts_with_exec, str_eq};

verus! {

pub const RECOMMENDATION_SCHEMA_VERSION: u64 = 1;

pub const FAMILY_RECOMMENDATION_SCHEMA_VERSION: u64 = 2;

/// One family a recommendation ranks, with the repo paths that support it.
#[derive(Debug, Clone)]
pub struct RankedCandidate {
    pub family: String,
    pub evidence: Vec<String>,
    pub expected_leverage: String,
    pub expected_risks: Vec<String>,
}

/// The recommendation of which families to promote; a family-scoped one also records the
/// analysis it was derived from.
#[derive(Debug, Clone)]
pub struct FamilyRecommendationArtifact {
    pub schema_version: u64,
    pub artifact_kind: PromotionArtifactKind,
    pub generated_at: String,
    pub inventory_path: String,
    pub inventory_sha256: String,
    pub target_language: TargetLanguage,
    pub ranked_candidates: Vec<RankedCandidate>,
    pub analysis_basis_path: Option<String>,
    pub analysis_basis_sha256: Option<String>,
    pub decision_status: Option<DecisionStatus>,
    pub open_blockers: Option<Vec<DecisionReason>>,
    pub missing_or_stale_evidence: Option<Vec<EvidenceState>>,
}

/// What the workspace holds for the paths a recommendation cites: the inventory snapshot,
/// the cited paths that do not resolve to an existing entry (each with its refusal), and
/// the analysis basis, which only a family-scoped recommendation consults.
#[derive(Debug)]
pub struct RecommendationWorkspace {
    pub inventory: WorkspaceFile,
    pub refused_paths: Vec<(String, XtaskError)>,
    pub analysis_basis: BasisLookup,
}

/// The refusal recorded for `raw`, the first one listed.
pub open spec fn refusal_for(refusals: Seq<(String, XtaskError)>, raw: Seq<char>) -> Option<XtaskErrorView>
    decreases refusals.len(),
{
    if refusals.len() == 0 {
        None
    } else if refusals[0].0@ == raw {
        Some(refusals[0].1@)
    } else {
        refusal_for(refusals.drop_first(), raw)
    }
}

/// A cited path must be repo-relative and resolve to an existing entry of the workspace.
pub open spec fn existing_path_issue(
    raw: Seq<char>,
    field: Seq<char>,
    refusals: Seq<(String, XtaskError)>,
) -> Option<XtaskErrorView> {
    if repo_relative_issue(raw, field) is Some {
        repo_relative_issue(raw, field)
    } else {
        refusal_for(refusals, raw)
    }
}

fn clone_error(e: &XtaskError) -> (r: XtaskError)
    ensures
        r@ == e@,
{
    match e {
        XtaskError::InvalidInput(m) => XtaskError::InvalidInput(owned(m.as_str())),
        XtaskError::NotImplemented(m) => XtaskError::NotImplemented(owned(m.as_str())),
        XtaskError::WriteFailure(m) => XtaskError::WriteFailure(owned(m.as_str())),
        XtaskError::AlreadyExists(m) => XtaskError::AlreadyExists(owned(m.as_str())),
        XtaskError::Internal(m) => XtaskError::Internal(owned(m.as_str())),
        XtaskError::ProveSuiteFailure(m) => XtaskError::ProveSuiteFailure(owned(m.as_str())),
        XtaskError::CertifyProveFailure(m) => XtaskError::CertifyProveFailure(owned(m.as_str())),
        XtaskError::CertifySuiteFailure(m) => XtaskError::CertifySuiteFailure(owned(m.as_str())),
        XtaskError::CertifyArtifactWriteFailure(m) => XtaskError::CertifyArtifactWriteFailure(owned(m.as_str())),
    }
}

/// Checks that a cited path is repo-relative and exists, given the workspace's refusals.
pub fn validate_existing_repo_relative_path(
    raw: &str,
    field: &str,
    refusals: &Vec<(String, XtaskError)>,
) -> (r: Result<(), XtaskError>)
    ensures
        match existing_path_issue(raw@, field@, refusals@) {
            None => r is Ok,
            Some(e) => r matches Err(x) && x@ == e,
        },
{
    match validate_repo_relative_path(raw, field) {
        Ok(()) => {},
        Err(e) => {
            return Err(e);
        },
    }
    let mut i: usize = 0;
    proof {
        assert(refusals@.skip(0) =~= refusals@);
    }
    while i < refusals.len()
        invariant
            i <= refusals@.len(),
            refusal_for(refusals@, raw@) == refusal_for(refusals@.skip(i as int), raw@),
            repo_relative_issue(raw@, field@) is None,
        decreases refusals@.len() - i,
    {
        proof {
            assert(refusals@.skip(i as int)[0] == refusals@[i as int]);
            assert(refusals@.skip(i as int).drop_first() =~= refusals@.skip(i + 1));
        }
        if str_eq(refusals[i].0.as_str(), raw) {
            return Err(clone_error(&refusals[i].1));
        }
        i = i + 1;
    }
    Ok(())
}

/// The first problem among `paths`, taken in order.
pub open spec fn first_existing_issue(
    paths: Seq<String>,
    field: Seq<char>,
    refusals: Seq<(String, XtaskError)>,
) -> Option<XtaskErrorView>
    decreases paths.len(),
{
    if paths.len() == 0 {
        None
    } else if existing_path_issue(paths[0]@, field, refusals) is Some {
        existing_path_issue(paths[0]@, field, refusals)
    } else {
        first_existing_issue(paths.drop_first(), field, refusals)
    }
}

pub open spec fn family_issue(family: Seq<char>) -> Option<XtaskErrorView> {
    if family.len() == 0 {
        Some(XtaskErrorView::InvalidInput("family id must not be empty"@))
    } else if !family_id_ok(family) {
        Some(XtaskErrorView::InvalidInput(family_id_pattern_message(family)))
    } else {
        None
    }
}

/// The first problem with one ranked candidate.
pub open spec fn ranked_candidate_issue(c: RankedCandidate, refusals: Seq<(String, XtaskError)>) -> Option<XtaskErrorView> {
    if family_issue(c.family@) is Some {
        family_issue(c.family@)
    } else if !single_line(c.expected_leverage@) {
        Some(
            XtaskErrorView::InvalidInput(
                "recommendation expected_leverage for `"@ + c.family@ + "` must be a single non-empty line"@,
            ),
        )
    } else if c.evidence@.len() == 0 {
        Some(
            XtaskErrorView::InvalidInput(
                "recommendation candidate `"@ + c.family@ + "` must cite at least one repo path in evidence[]"@,
            ),
        )
    } else {
        first_existing_issue(c.evidence@, "recommendation evidence path"@, refusals)
    }
}

pub open spec fn first_ranked_issue(cs: Seq<RankedCandidate>, refusals: Seq<(String, XtaskError)>) -> Option<XtaskErrorView>
    decreases cs.len(),
{
    if cs.len() == 0 {
        None
    } else if ranked_candidate_issue(cs[0], refusals) is Some {
        ranked_candidate_issue(cs[0], refusals)
    } else {
        first_ranked_issue(cs.drop_first(), refusals)
    }
}

/// The inventory snapshot must exist, lie under the inventory directory, be readable and
/// hold bytes whose digest is the recorded one.
pub open spec fn inventory_issue(r: FamilyRecommendationArtifact, ws: RecommendationWorkspace) -> Option<XtaskErrorView> {
    let field = "recommendation inventory_path"@;
    if repo_relative_issue(r.inventory_path@, field) is Some {
        repo_relative_issue(r.inventory_path@, field)
    } else {
        match ws.inventory {
            WorkspaceFile::Missing(e) => Some(e@),
            _ => if !starts_with(r.inventory_path@, FAMILY_PROMOTION_INVENTORY_DIR@) {
                Some(
                    XtaskErrorView::InvalidInput(
                        "recommendation inventory_path `"@ + r.inventory_path@ + "` must stay under `"@
                            + FAMILY_PROMOTION_INVENTORY_DIR@ + "`"@,
                    ),
                )
            } else {
                match ws.inventory {
                    WorkspaceFile::Bytes(b) => if r.inventory_sha256@ != hex_of(sha256_of(b@)) {
                        Some(
                            XtaskErrorView::InvalidInput(
                                "recommendation inventory_sha256 `"@ + r.inventory_sha256@
                                    + "` does not match the exact bytes at `"@ + r.inventory_path@ + "` (expected `"@
                                    + hex_of(sha256_of(b@)) + "`)"@,
                            ),
                        )
                    } else {
                        None
                    },
                    WorkspaceFile::ReadFailed(e) => Some(e@),
                    WorkspaceFile::Missing(e) => Some(e@),
                }
            },
        }
    }
}

/// The checks only a family-scoped recommendation gets, for the family `p` of its path.
pub open spec fn scoped_issue(r: FamilyRecommendationArtifact, p: Seq<char>, ws: RecommendationWorkspace) -> Option<XtaskErrorView> {
    let cs = r.ranked_candidates@;
    if family_issue(p) is Some {
        family_issue(p)
    } else if cs.len() != 1 {
        Some(
            XtaskErrorView::InvalidInput(
                "family-scoped recommendation for `"@ + p + "` must contain exactly one ranked candidate"@,
            ),
        )
    } else if cs[0].family@ != p {
        Some(
            XtaskErrorView::InvalidInput(
                "family-scoped recommendation path family `"@ + p + "` must match ranked candidate `"@ + cs[0].family@
                    + "`"@,
            ),
        )
    } else if r.analysis_basis_path is None {
        Some(XtaskErrorView::InvalidInput("family-scoped recommendation must include analysis_basis_path"@))
    } else if r.analysis_basis_sha256 is None {
        Some(XtaskErrorView::InvalidInput("family-scoped recommendation must include analysis_basis_sha256"@))
    } else if r.decision_status is None {
        Some(XtaskErrorView::InvalidInput("family-scoped recommendation must include decision_status"@))
    } else if r.open_blockers is None {
        Some(XtaskErrorView::InvalidInput("family-scoped recommendation must include open_blockers"@))
    } else if r.missing_or_stale_evidence is None {
        Some(XtaskErrorView::InvalidInput("family-scoped recommendation must include missing_or_stale_evidence"@))
    } else {
        let reference = basis_reference_issue(
            r.analysis_basis_path->0@,
            r.analysis_basis_sha256->0@,
            "family-scoped recommendation"@,
            ws.analysis_basis,
        );
        if reference is Some {
            reference
        } else {
            match ws.analysis_basis.parsed {
                Ok(a) => if r.decision_status->0 != a.decision_summary.decision_status {
                    Some(
                        XtaskErrorView::InvalidInput(
                            "family-scoped recommendation decision_status must match the analysis basis"@,
                        ),
                    )
                } else if r.open_blockers->0@ != a.decision_summary.open_blockers@ {
                    Some(
                        XtaskErrorView::InvalidInput(
                            "family-scoped recommendation open_blockers must match the analysis basis"@,
                        ),
                    )
                } else if r.missing_or_stale_evidence->0@ != missing_then_stale(
                    a.evidence_summary.missing_evidence@,
                    a.evidence_summary.stale_evidence@,
                ) {
                    Some(
                        XtaskErrorView::InvalidInput(
                            "family-scoped recommendation missing_or_stale_evidence must match the analysis basis"@,
                        ),
                    )
                } else {
                    None
                },
                Err(e) => Some(e@),
            }
        }
    }
}

/// The first problem with a recommendation, in the order the checks run; `path_family` is
/// the family its path names, for a family-scoped recommendation.
pub open spec fn recommendation_issue(
    r: FamilyRecommendationArtifact,
    path_family: Option<Seq<char>>,
    ws: RecommendationWorkspace,
) -> Option<XtaskErrorView> {
    let expected_schema = if path_family is Some {
        FAMILY_RECOMMENDATION_SCHEMA_VERSION
    } else {
        RECOMMENDATION_SCHEMA_VERSION
    };
    if r.schema_version != expected_schema {
        Some(
            XtaskErrorView::InvalidInput(
                "recommendation schema_version must be "@ + decimal(expected_schema as nat) + ", found "@ + decimal(
                    r.schema_version as nat,
                ),
            ),
        )
    } else if r.artifact_kind != PromotionArtifactKind::FamilyRecommendation {
        Some(XtaskErrorView::InvalidInput("recommendation artifact_kind must be `family_recommendation`"@))
    } else if !utc_timestamp(r.generated_at@) {
        Some(XtaskErrorView::InvalidInput("recommendation generated_at must be a UTC RFC3339 timestamp"@))
    } else if path_family is None && r.target_language != TargetLanguage::Rust {
        Some(XtaskErrorView::InvalidInput("global recommendation target_language must be `rust`"@))
    } else if r.ranked_candidates@.len() == 0 {
        Some(XtaskErrorView::InvalidInput("recommendation must include at least one ranked candidate"@))
    } else if inventory_issue(r, ws) is Some {
        inventory_issue(r, ws)
    } else if first_ranked_issue(r.ranked_candidates@, ws.refused_paths@) is Some {
        first_ranked_issue(r.ranked_candidates@, ws.refused_paths@)
    } else {
        match path_family {
            Some(p) => scoped_issue(r, p, ws),
            None => if r.analysis_basis_path is Some || r.analysis_basis_sha256 is Some || r.decision_status is Some
                || r.open_blockers is Some || r.missing_or_stale_evidence is Some {
                Some(
                    XtaskErrorView::InvalidInput(
                        "global recommendation artifacts must not include M33 analysis-basis fields"@,
                    ),
                )
            } else {
                None
            },
        }
    }
}

fn invalid(m: &str) -> (r: XtaskError)
    ensures
        r@ == XtaskErrorView::InvalidInput(m@),
{
    XtaskError::InvalidInput(owned(m))
}

fn parse_family(raw: &str) -> (r: Result<(), XtaskError>)
    ensures
        match family_issue(raw@) {
            None => r is Ok,
            Some(e) => r matches Err(x) && x@ == e,
        },
{
    match FamilyId::parse(raw) {
        Ok(_) => Ok(()),
        Err(e) => Err(e),
    }
}

fn check_inventory(r: &FamilyRecommendationArtifact, ws: &RecommendationWorkspace) -> (res: Result<(), XtaskError>)
    ensures
        match inventory_issue(*r, *ws) {
            None => res is Ok,
            Some(e) => res matches Err(x) && x@ == e,
        },
{
    match validate_repo_relative_path(r.inventory_path.as_str(), "recommendation inventory_path") {
        Ok(()) => {},
        Err(e) => {
            return Err(e);
        },
    }
    if let WorkspaceFile::Missing(e) = &ws.inventory {
        return Err(clone_error(e));
    }
    let cs = chars_of(r.inventory_path.as_str());
    if !starts_with_exec(&cs, FAMILY_PROMOTION_INVENTORY_DIR) {
        let mut m = owned("recommendation inventory_path `");
        m.append(r.inventory_path.as_str());
        m.append("` must stay under `");
        m.append(FAMILY_PROMOTION_INVENTORY_DIR);
        m.append("`");
        return Err(XtaskError::InvalidInput(m));
    }
    match &ws.inventory {
        WorkspaceFile::Bytes(b) => {
            let observed = sha256_hex(b);
            if !str_eq(r.inventory_sha256.as_str(), observed.as_str()) {
                let mut m = owned("recommendation inventory_sha256 `");
                m.append(r.inventory_sha256.as_str());
                m.append("` does not match the exact bytes at `");
                m.append(r.inventory_path.as_str());
                m.append("` (expected `");
                m.append(observed.as_str());
                m.append("`)");
                return Err(XtaskError::InvalidInput(m));
            }
            Ok(())
        },
        WorkspaceFile::ReadFailed(e) => Err(clone_error(e)),
        WorkspaceFile::Missing(e) => Err(clone_error(e)),
    }
}

fn check_ranked_candidate(c: &RankedCandidate, refusals: &Vec<(String, XtaskError)>) -> (r: Result<(), XtaskError>)
    ensures
        match ranked_candidate_issue(*c, refusals@) {
            None => r is Ok,
            Some(e) => r matches Err(x) && x@ == e,
        },
{
    match parse_family(c.family.as_str()) {
        Ok(()) => {},
        Err(e) => {
            return Err(e);
        },
    }
    if !is_single_line(c.expected_leverage.as_str()) {
        let mut m = owned("recommendation expected_leverage for `");
        m.append(c.family.as_str());
        m.append("` must be a single non-empty line");
        return Err(XtaskError::InvalidInput(m));
    }
    if c.evidence.len() == 0 {
        let mut m = owned("recommendation candidate `");
        m.append(c.family.as_str());
        m.append("` must cite at least one repo path in evidence[]");
        return Err(XtaskError::InvalidInput(m));
    }
    let ps = &c.evidence;
    let mut i: usize = 0;
    proof {
        assert(ps@.skip(0) =~= ps@);
    }
    while i < ps.len()
        invariant
            i <= ps@.len(),
            first_existing_issue(ps@, "recommendation evidence path"@, refusals@) == first_existing_issue(
                ps@.skip(i as int),
                "recommendation evidence path"@,
                refusals@,
            ),
            ps@ == c.evidence@,
            family_issue(c.family@) is None,
            single_line(c.expected_leverage@),
            c.evidence@.len() > 0,
        decreases ps@.len() - i,
    {
        proof {
            assert(ps@.skip(i as int)[0] == ps@[i as int]);
            assert(ps@.skip(i as int).drop_first() =~= ps@.skip(i + 1));
        }
        match validate_existing_repo_relative_path(ps[i].as_str(), "recommendation evidence path", refusals) {
            Ok(()) => {},
            Err(e) => {
                return Err(e);
            },
        }
        i = i + 1;
    }
    Ok(())
}

fn check_scoped(r: &FamilyRecommendationArtifact, p: &str, ws: &RecommendationWorkspace) -> (res: Result<(), XtaskError>)
    ensures
        match scoped_issue(*r, p@, *ws) {
            None => res is Ok,
            Some(e) => res matches Err(x) && x@ == e,
        },
{
    match parse_family(p) {
        Ok(()) => {},
        Err(e) => {
            return Err(e);
        },
    }
    if r.ranked_candidates.len() != 1 {
        let mut m = owned("family-scoped recommendation for `");
        m.append(p);
        m.append("` must contain exactly one ranked candidate");
        return Err(XtaskError::InvalidInput(m));
    }
    if !str_eq(r.ranked_candidates[0].family.as_str(), p) {
        let mut m = owned("family-scoped recommendation path family `");
        m.append(p);
        m.append("` must match ranked candidate `");
        m.append(r.ranked_candidates[0].family.as_str());
        m.append("`");
        return Err(XtaskError::InvalidInput(m));
    }
    let basis_path = match &r.analysis_basis_path {
        Some(x) => x,
        None => {
            return Err(invalid("family-scoped recommendation must include analysis_basis_path"));
        },
    };
    let basis_sha = match &r.analysis_basis_sha256 {
        Some(x) => x,
        None => {
            return Err(invalid("family-scoped recommendation must include analysis_basis_sha256"));
        },
    };
    let decision_status = match r.decision_status {
        Some(x) => x,
        None => {
            return Err(invalid("family-scoped recommendation must include decision_status"));
        },
    };
    let open_blockers = match &r.open_blockers {
        Some(x) => x,
        None => {
            return Err(invalid("family-scoped recommendation must include open_blockers"));
        },
    };
    let evidence = match &r.missing_or_stale_evidence {
        Some(x) => x,
        None => {
            return Err(invalid("family-scoped recommendation must include missing_or_stale_evidence"));
        },
    };
    match validate_analysis_basis_reference(
        basis_path.as_str(),
        basis_sha.as_str(),
        "family-scoped recommendation",
        &ws.analysis_basis,
    ) {
        Ok(()) => {},
        Err(e) => {
            return Err(e);
        },
    }
    let a = match &ws.analysis_basis.parsed {
        Ok(a) => a,
        Err(e) => {
            return Err(clone_error(e));
        },
    };
    if decision_status != a.decision_summary.decision_status {
        return Err(invalid("family-scoped recommendation decision_status must match the analysis basis"));
    }
    if !same_reasons(open_blockers, &a.decision_summary.open_blockers) {
        return Err(invalid("family-scoped recommendation open_blockers must match the analysis basis"));
    }
    let expected = missing_or_stale_evidence(a);
    if !same_states(evidence, &expected) {
        return Err(invalid("family-scoped recommendation missing_or_stale_evidence must match the analysis basis"));
    }
    Ok(())
}

impl FamilyRecommendationArtifact {
    /// Accepts the recommendation exactly when [`recommendation_issue`] finds nothing wrong
    /// with it, given the family its path names (for a family-scoped one) and what the
    /// workspace holds for the paths it cites.
    pub fn validate(&self, path_family: Option<&str>, workspace: &RecommendationWorkspace) -> (r: Result<(), XtaskError>)
        ensures
            match recommendation_issue(
                *self,
                match path_family {
                    Some(p) => Some(p@),
                    None => None,
                },
                *workspace,
            ) {
                None => r is Ok,
                Some(e) => r matches Err(x) && x@ == e,
            },
    {
        let expected_schema = if path_family.is_some() {
            FAMILY_RECOMMENDATION_SCHEMA_VERSION
        } else {
            RECOMMENDATION_SCHEMA_VERSION
        };
        if self.schema_version != expected_schema {
            let mut m = owned("recommendation schema_version must be ");
            let e = decimal_u64_string(expected_schema);
            m.append(e.as_str());
            m.append(", found ");
            let n = decimal_u64_string(self.schema_version);
            m.append(n.as_str());
            return Err(XtaskError::InvalidInput(m));
        }
        if self.artifact_kind != PromotionArtifactKind::FamilyRecommendation {
            return Err(invalid("recommendation artifact_kind must be `family_recommendation`"));
        }
        if !looks_like_utc_timestamp(self.generated_at.as_str()) {
            return Err(invalid("recommendation generated_at must be a UTC RFC3339 timestamp"));
        }
        if path_family.is_none() && self.target_language != TargetLanguage::Rust {
            return Err(invalid("global recommendation target_language must be `rust`"));
        }
        if self.ranked_candidates.len() == 0 {
            return Err(invalid("recommendation must include at least one ranked candidate"));
        }
        match check_inventory(self, workspace) {
            Ok(()) => {},
            Err(e) => {
                return Err(e);
            },
        }
        let cs = &self.ranked_candidates;
        let mut i: usize = 0;
        proof {
            assert(cs@.skip(0) =~= cs@);
        }
        while i < cs.len()
            invariant
                i <= cs@.len(),
                cs@ == self.ranked_candidates@,
                first_ranked_issue(cs@, workspace.refused_paths@) == first_ranked_issue(
                    cs@.skip(i as int),
                    workspace.refused_paths@,
                ),
                recommendation_issue(
                    *self,
                    match path_family {
                        Some(p) => Some(p@),
                        None => None,
                    },
                    *workspace,
                ) == (if first_ranked_issue(cs@, workspace.refused_paths@) is Some {
                    first_ranked_issue(cs@, workspace.refused_paths@)
                } else {
                    match path_family {
                        Some(p) => scoped_issue(*self, p@, *workspace),
                        None => if self.analysis_basis_path is Some || self.analysis_basis_sha256 is Some
                            || self.decision_status is Some || self.open_blockers is Some
                            || self.missing_or_stale_evidence is Some {
                            Some(
                                XtaskErrorView::InvalidInput(
                                    "global recommendation artifacts must not include M33 analysis-basis fields"@,
                                ),
                            )
                        } else {
                            None
                        },
                    }
                }),
            decreases cs@.len() - i,
        {
            proof {
                assert(cs@.skip(i as int)[0] == cs@[i as int]);
                assert(cs@.skip(i as int).drop_first() =~= cs@.skip(i + 1));
            }
            match check_ranked_candidate(&cs[i], &workspace.refused_paths) {
                Ok(()) => {},
                Err(e) => {
                    return Err(e);
                },
            }
            i = i + 1;
        }
        match path_family {
            Some(p) => check_scoped(self, p, workspace),
            None => {
                if self.analysis_basis_path.is_some() || self.analysis_basis_sha256.is_some() || self.decision_status.is_some()
                    || self.open_blockers.is_some() || self.missing_or_stale_evidence.is_some() {
                    return Err(invalid("global recommendation artifacts must not include M33 analysis-basis fields"));
                }
                Ok(())
            },
        }
    }
}

} // verus!
