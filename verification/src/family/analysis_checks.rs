//! The checks a recommendation-analysis artifact must pass before anything reads it.
use vstd::prelude::*;
use crate::family::artifacts::{
    FamilyRecommendationAnalysisArtifact, PromotionArtifactKind, RecommendationStatus,
    RECOMMENDATION_ANALYSIS_SCHEMA_VERSION, ConfidenceLevel, DecisionReason, DecisionStatus, DecisionSummary, EvidenceState, EvidenceSummary, HoldReason,
    NextStepDetail, NextStepStatus, PromotionReadiness, RecommendationCandidateEntry, RecommendationConfidence,
    RecommendationDelta, RecommendationDifficulty,
};
use crate::family::error::{XtaskError, XtaskErrorView};
use crate::family::helper_surface::{
    matches_durable_hold, recommendation_matches_helper_surface_durable_hold_tuple,
    recommendation_uses_helper_surface_durable_hold_tuple, uses_durable_hold,
};
use crate::family::paths::FAMILY_COVERAGE_LATEST_PATH;
use crate::seam::{decimal, decimal_u64_string};
use crate::family::report::{hex_of, hex_string, looks_like_utc_timestamp, utc_timestamp};
use crate::text::{
    chars_of, concat, has_char, has_char_exec, owned, split_chars, split_seq, starts_with, starts_with_exec,
    str_eq, trim_chars, trim_seq, views,
};

verus! {

/// The SHA-256 digest of some bytes.
pub uninterp spec fn sha256_of(bytes: Seq<u8>) -> Seq<u8>;

/// `sha2::Sha256::digest`: the 32-byte SHA-256 digest of `bytes`.
#[verifier::external_body]
pub(crate) fn sha256_digest(bytes: &Vec<u8>) -> (r: Vec<u8>)
    ensures
        r@ == sha256_of(bytes@),
        r@.len() == 32,
{
    <sha2::Sha256 as sha2::Digest>::digest(bytes.as_slice()).to_vec()
}

/// The SHA-256 digest of `bytes` in lowercase hex, as inventories record it.
pub fn sha256_hex(bytes: &Vec<u8>) -> (r: String)
    ensures
        r@ == hex_of(sha256_of(bytes@)),
{
    let d = sha256_digest(bytes);
    hex_string(&d)
}

/// What the workspace holds at a path an artifact refers to.
#[derive(Debug)]
pub enum WorkspaceFile {
    /// The path does not name an existing file inside the workspace (with the refusal).
    Missing(XtaskError),
    /// The path names such a file, but reading it failed (with the refusal).
    ReadFailed(XtaskError),
    /// The bytes read at the path.
    Bytes(Vec<u8>),
}

/// `s` is one line that is not blank.
pub open spec fn single_line(s: Seq<char>) -> bool {
    trim_seq(s).len() > 0 && !has_char(s, '\n')
}

pub fn is_single_line(s: &str) -> (r: bool)
    ensures
        r == single_line(s@),
{
    let cs = chars_of(s);
    let t = trim_chars(&cs);
    t.len() > 0 && !has_char_exec(&cs, '\n')
}

pub open spec fn field_message(field: Seq<char>, raw: Seq<char>, rest: Seq<char>) -> Seq<char> {
    field + " `"@ + raw + "` "@ + rest
}

/// A repo-relative path is not empty, does not start at the root, does not start with `.`
/// and holds no `..`; other empty and `.` components are skipped, as `Path::components` does.
pub open spec fn repo_relative_issue(raw: Seq<char>, field: Seq<char>) -> Option<XtaskErrorView> {
    let segs = split_seq(raw, '/');
    if raw.len() == 0 || raw[0] == '/' {
        Some(XtaskErrorView::InvalidInput(field_message(field, raw, "must be a non-empty repo-relative path"@)))
    } else if segs[0] == "."@ || exists|i: int| 0 <= i < segs.len() && segs[i] == ".."@ {
        Some(XtaskErrorView::InvalidInput(field_message(field, raw, "must contain only normal path components"@)))
    } else {
        None
    }
}

fn field_error(field: &str, raw: &str, rest: &str) -> (r: XtaskError)
    ensures
        r@ == XtaskErrorView::InvalidInput(field_message(field@, raw@, rest@)),
{
    let mut m = concat(field, " `");
    m.append(raw);
    m.append("` ");
    m.append(rest);
    XtaskError::InvalidInput(m)
}

/// Refuses a path that is not repo-relative, as [`repo_relative_issue`] says.
pub fn validate_repo_relative_path(raw: &str, field: &str) -> (r: Result<(), XtaskError>)
    ensures
        match repo_relative_issue(raw@, field@) {
            None => r is Ok,
            Some(e) => r matches Err(x) && x@ == e,
        },
{
    proof {
        reveal_strlit(".");
        reveal_strlit("..");
    }
    let cs = chars_of(raw);
    if cs.len() == 0 || cs[0] == '/' {
        return Err(field_error(field, raw, "must be a non-empty repo-relative path"));
    }
    let segs = split_chars(&cs, '/');
    proof {
        crate::text::lemma_split_nonempty(raw@, '/');
    }
    let ghost ss = split_seq(raw@, '/');
    if segs[0].len() == 1 && segs[0][0] == '.' {
        proof {
            assert(ss[0] =~= "."@);
        }
        return Err(field_error(field, raw, "must contain only normal path components"));
    }
    proof {
        assert(ss[0] == segs@[0]@);
        if ss[0] == "."@ {
            assert(ss[0][0] == '.');
        }
    }
    let mut i: usize = 0;
    while i < segs.len()
        invariant
            i <= segs@.len(),
            views(segs@) == ss,
            ss == split_seq(raw@, '/'),
            raw@.len() > 0 && raw@[0] != '/',
            ss[0] != "."@,
            forall|k: int| 0 <= k < i ==> ss[k] != ".."@,
        decreases segs@.len() - i,
    {
        proof {
            reveal_strlit("..");
        }
        if segs[i].len() == 2 && segs[i][0] == '.' && segs[i][1] == '.' {
            proof {
                assert(ss[i as int] =~= ".."@);
                assert(repo_relative_issue(raw@, field@) == Some(
                    XtaskErrorView::InvalidInput(field_message(field@, raw@, "must contain only normal path components"@)),
                ));
            }
            return Err(field_error(field, raw, "must contain only normal path components"));
        }
        proof {
            assert(ss[i as int] == segs@[i as int]@);
            if ss[i as int] == ".."@ {
                assert(ss[i as int][0] == '.' && ss[i as int][1] == '.');
            }
        }
        i = i + 1;
    }
    Ok(())
}

/// The first problem with a path that an artifact binds to a digest: the path is not
/// repo-relative, names no file in the workspace, does not lie under `prefix`, cannot be
/// read, or holds bytes whose digest differs from `sha`.
pub open spec fn sha_bound_issue(
    raw: Seq<char>,
    prefix: Seq<char>,
    sha: Seq<char>,
    field: Seq<char>,
    file: WorkspaceFile,
) -> Option<XtaskErrorView> {
    match repo_relative_issue(raw, field) {
        Some(e) => Some(e),
        None => match file {
            WorkspaceFile::Missing(e) => Some(e@),
            _ => if raw != prefix && !starts_with(raw, prefix) {
                Some(
                    XtaskErrorView::InvalidInput(
                        field_message(field, raw, "must stay under or equal `"@ + prefix + "`"@),
                    ),
                )
            } else {
                match file {
                    WorkspaceFile::ReadFailed(e) => Some(e@),
                    WorkspaceFile::Bytes(b) => if hex_of(sha256_of(b@)) != sha {
                        Some(
                            XtaskErrorView::InvalidInput(
                                field + " sha `"@ + sha + "` does not match the exact bytes at `"@ + raw
                                    + "` (expected `"@ + hex_of(sha256_of(b@)) + "`)"@,
                            ),
                        )
                    } else {
                        None
                    },
                    WorkspaceFile::Missing(e) => Some(e@),
                }
            },
        },
    }
}

fn clone_error(e: &XtaskError) -> (r: XtaskError)
    ensures
        r@ == e@,
{
    match e {
        XtaskError::InvalidInput(m) => XtaskError::InvalidInput(owned(m.as_str())),
        XtaskError::NotImplemented(m) => XtaskError::NotImplemented(owned(m.as_str())),
        XtaskError::WriteFailure(m) => XtaskError::WriteFailure(owned(m.as_str())),
        XtaskError::AlreadyExists(m) => XtaskError::AlreadyExists(owned(m.as_str())),
        XtaskError::Internal(m) => XtaskError::Internal(owned(m.as_str())),
        XtaskError::ProveSuiteFailure(m) => XtaskError::ProveSuiteFailure(owned(m.as_str())),
        XtaskError::CertifyProveFailure(m) => XtaskError::CertifyProveFailure(owned(m.as_str())),
        XtaskError::CertifySuiteFailure(m) => XtaskError::CertifySuiteFailure(owned(m.as_str())),
        XtaskError::CertifyArtifactWriteFailure(m) => XtaskError::CertifyArtifactWriteFailure(owned(m.as_str())),
    }
}

/// Checks a path bound to a digest, given what the workspace holds there.
pub fn validate_sha_bound_path(
    raw: &str,
    prefix: &str,
    sha: &str,
    field: &str,
    file: &WorkspaceFile,
) -> (r: Result<(), XtaskError>)
    ensures
        match sha_bound_issue(raw@, prefix@, sha@, field@, *file) {
            None => r is Ok,
            Some(e) => r matches Err(x) && x@ == e,
        },
{
    match validate_repo_relative_path(raw, field) {
        Ok(()) => {},
        Err(e) => {
            return Err(e);
        },
    }
    if let WorkspaceFile::Missing(e) = file {
        return Err(clone_error(e));
    }
    let cs = chars_of(raw);
    if !str_eq(raw, prefix) && !starts_with_exec(&cs, prefix) {
        let mut rest = owned("must stay under or equal `");
        rest.append(prefix);
        rest.append("`");
        return Err(field_error(field, raw, rest.as_str()));
    }
    match file {
        WorkspaceFile::ReadFailed(e) => Err(clone_error(e)),
        WorkspaceFile::Missing(e) => Err(clone_error(e)),
        WorkspaceFile::Bytes(b) => {
            let observed = sha256_hex(b);
            if !str_eq(observed.as_str(), sha) {
                let mut m = concat(field, " sha `");
                m.append(sha);
                m.append("` does not match the exact bytes at `");
                m.append(raw);
                m.append("` (expected `");
                m.append(observed.as_str());
                m.append("`)");
                Err(XtaskError::InvalidInput(m))
            } else {
                Ok(())
            }
        },
    }
}

fn invalid(m: &str) -> (r: XtaskError)
    ensures
        r@ == XtaskErrorView::InvalidInput(m@),
{
    XtaskError::InvalidInput(owned(m))
}

fn all_regression_warnings(ws: &Vec<DecisionReason>) -> (r: bool)
    ensures
        r == forall|i: int| 0 <= i < ws@.len() ==> #[trigger] ws@[i] == DecisionReason::RegressionWarning,
{
    let mut i: usize = 0;
    while i < ws.len()
        invariant
            i <= ws@.len(),
            forall|k: int| 0 <= k < i ==> #[trigger] ws@[k] == DecisionReason::RegressionWarning,
        decreases ws@.len() - i,
    {
        if ws[i] != DecisionReason::RegressionWarning {
            return false;
        }
        i = i + 1;
    }
    true
}

pub open spec fn only_regression_warnings(ws: Seq<DecisionReason>) -> bool {
    forall|i: int| 0 <= i < ws.len() ==> #[trigger] ws[i] == DecisionReason::RegressionWarning
}

pub open spec fn decision_summary_issue(d: DecisionSummary) -> Option<XtaskErrorView> {
    if !only_regression_warnings(d.warnings@) {
        Some(XtaskErrorView::InvalidInput("decision_summary.warnings may only contain `regression_warning`"@))
    } else if !single_line(d.summary@) {
        Some(XtaskErrorView::InvalidInput("decision_summary.summary must be a single non-empty line"@))
    } else {
        None
    }
}

pub open spec fn evidence_summary_issue(d: EvidenceSummary) -> Option<XtaskErrorView> {
    if !only_regression_warnings(d.warnings@) {
        Some(XtaskErrorView::InvalidInput("evidence_summary.warnings may only contain `regression_warning`"@))
    } else if !single_line(d.summary@) {
        Some(XtaskErrorView::InvalidInput("evidence_summary.summary must be a single non-empty line"@))
    } else {
        None
    }
}

pub open spec fn delta_issue(d: RecommendationDelta) -> Option<XtaskErrorView> {
    if d.previous_generated_at matches Some(t) && !utc_timestamp(t@) {
        Some(
            XtaskErrorView::InvalidInput(
                "delta_from_previous.previous_generated_at must be a UTC RFC3339 timestamp when present"@,
            ),
        )
    } else if !single_line(d.summary@) {
        Some(XtaskErrorView::InvalidInput("delta_from_previous.summary must be a single non-empty line"@))
    } else if exists|i: int| 0 <= i < d.evidence_changes@.len() && !single_line(#[trigger] d.evidence_changes@[i]@) {
        Some(XtaskErrorView::InvalidInput("delta_from_previous.evidence_changes[] must contain single-line entries"@))
    } else {
        None
    }
}

impl DecisionSummary {
    /// Refuses warnings other than the regression warning and a summary that is not one line.
    pub fn validate(&self) -> (r: Result<(), XtaskError>)
        ensures
            match decision_summary_issue(*self) {
                None => r is Ok,
                Some(e) => r matches Err(x) && x@ == e,
            },
    {
        if !all_regression_warnings(&self.warnings) {
            return Err(invalid("decision_summary.warnings may only contain `regression_warning`"));
        }
        if !is_single_line(self.summary.as_str()) {
            return Err(invalid("decision_summary.summary must be a single non-empty line"));
        }
        Ok(())
    }
}

impl EvidenceSummary {
    /// Refuses warnings other than the regression warning and a summary that is not one line.
    pub fn validate(&self) -> (r: Result<(), XtaskError>)
        ensures
            match evidence_summary_issue(*self) {
                None => r is Ok,
                Some(e) => r matches Err(x) && x@ == e,
            },
    {
        if !all_regression_warnings(&self.warnings) {
            return Err(invalid("evidence_summary.warnings may only contain `regression_warning`"));
        }
        if !is_single_line(self.summary.as_str()) {
            return Err(invalid("evidence_summary.summary must be a single non-empty line"));
        }
        Ok(())
    }
}

impl RecommendationDelta {
    /// Refuses a previous time that is not UTC, and a summary or evidence change that is not one line.
    pub fn validate(&self) -> (r: Result<(), XtaskError>)
        ensures
            match delta_issue(*self) {
                None => r is Ok,
                Some(e) => r matches Err(x) && x@ == e,
            },
    {
        if let Some(t) = &self.previous_generated_at {
            if !looks_like_utc_timestamp(t.as_str()) {
                return Err(
                    invalid("delta_from_previous.previous_generated_at must be a UTC RFC3339 timestamp when present"),
                );
            }
        }
        if !is_single_line(self.summary.as_str()) {
            return Err(invalid("delta_from_previous.summary must be a single non-empty line"));
        }
        let mut i: usize = 0;
        while i < self.evidence_changes.len()
            invariant
                i <= self.evidence_changes@.len(),
                forall|k: int| 0 <= k < i ==> single_line(#[trigger] self.evidence_changes@[k]@),
                delta_issue(*self) == (if exists|k: int|
                    0 <= k < self.evidence_changes@.len() && !single_line(#[trigger] self.evidence_changes@[k]@) {
                    Some(XtaskErrorView::InvalidInput("delta_from_previous.evidence_changes[] must contain single-line entries"@))
                } else {
                    None
                }),
            decreases self.evidence_changes@.len() - i,
        {
            if !is_single_line(self.evidence_changes[i].as_str()) {
                return Err(invalid("delta_from_previous.evidence_changes[] must contain single-line entries"));
            }
            i = i + 1;
        }
        Ok(())
    }
}

pub open spec fn difficulty_issue(d: RecommendationDifficulty) -> Option<XtaskErrorView> {
    if !single_line(d.why@) {
        Some(XtaskErrorView::InvalidInput("recommendation difficulty.why must be a single non-empty line"@))
    } else {
        None
    }
}

pub open spec fn confidence_issue(c: RecommendationConfidence) -> Option<XtaskErrorView> {
    if !single_line(c.why@) {
        Some(XtaskErrorView::InvalidInput("recommendation confidence.why must be a single non-empty line"@))
    } else {
        None
    }
}

impl RecommendationDifficulty {
    pub fn validate(&self) -> (r: Result<(), XtaskError>)
        ensures
            match difficulty_issue(*self) {
                None => r is Ok,
                Some(e) => r matches Err(x) && x@ == e,
            },
    {
        if !is_single_line(self.why.as_str()) {
            return Err(invalid("recommendation difficulty.why must be a single non-empty line"));
        }
        Ok(())
    }
}

impl RecommendationConfidence {
    pub fn validate(&self) -> (r: Result<(), XtaskError>)
        ensures
            match confidence_issue(*self) {
                None => r is Ok,
                Some(e) => r matches Err(x) && x@ == e,
            },
    {
        if !is_single_line(self.why.as_str()) {
            return Err(invalid("recommendation confidence.why must be a single non-empty line"));
        }
        Ok(())
    }
}

/// An overlap family is one of the two family patterns or `unknown`.
pub open spec fn overlap_family_issue(v: Seq<char>) -> Option<XtaskErrorView> {
    if v == "function.arithmetic_leaf.monotone_*"@ || v == "function.wrapper.pipeline*"@ || v == "unknown"@ {
        None
    } else {
        Some(
            XtaskErrorView::InvalidInput(
                "overlap_family `"@ + v
                    + "` must be `function.arithmetic_leaf.monotone_*`, `function.wrapper.pipeline*`, or `unknown`"@,
            ),
        )
    }
}

pub fn validate_overlap_family(value: &str) -> (r: Result<(), XtaskError>)
    ensures
        match overlap_family_issue(value@) {
            None => r is Ok,
            Some(e) => r matches Err(x) && x@ == e,
        },
{
    if str_eq(value, "function.arithmetic_leaf.monotone_*") || str_eq(value, "function.wrapper.pipeline*") || str_eq(
        value,
        "unknown",
    ) {
        Ok(())
    } else {
        let mut m = owned("overlap_family `");
        m.append(value);
        m.append("` must be `function.arithmetic_leaf.monotone_*`, `function.wrapper.pipeline*`, or `unknown`");
        Err(XtaskError::InvalidInput(m))
    }
}

/// The first problem with a ranked candidate, in the order the checks run.
pub open spec fn candidate_issue(c: RecommendationCandidateEntry) -> Option<XtaskErrorView> {
    if trim_seq(c.candidate_id@).len() == 0 || c.cluster_ids@.len() == 0 || !single_line(c.rationale@) {
        Some(
            XtaskErrorView::InvalidInput(
                "recommendation candidates require non-empty candidate_id, cluster_ids, and single-line rationale"@,
            ),
        )
    } else if c.promotion_readiness == PromotionReadiness::Ready && c.hold_reasons@.len() > 0 {
        Some(XtaskErrorView::InvalidInput("recommendation candidates marked `ready` must have empty hold_reasons"@))
    } else if c.promotion_readiness == PromotionReadiness::Hold && c.hold_reasons@.len() == 0 {
        Some(
            XtaskErrorView::InvalidInput(
                "recommendation candidates marked `hold` must include at least one hold_reasons entry"@,
            ),
        )
    } else if c.promotion_readiness == PromotionReadiness::Ready && (c.next_step_status != NextStepStatus::Promote
        || c.next_step_detail != NextStepDetail::ReadyForPromotion) {
        Some(
            XtaskErrorView::InvalidInput(
                "recommendation candidates marked `ready` must use next_step_status `promote` and next_step_detail `ready_for_promotion`"@,
            ),
        )
    } else if c.promotion_readiness == PromotionReadiness::Hold && (c.next_step_status == NextStepStatus::Promote
        || c.next_step_detail == NextStepDetail::ReadyForPromotion) {
        Some(
            XtaskErrorView::InvalidInput(
                "recommendation candidates marked `hold` must not use ready-for-promotion next-step fields"@,
            ),
        )
    } else if uses_durable_hold(c) && !matches_durable_hold(c) {
        Some(
            XtaskErrorView::InvalidInput(
                "recommendation candidates using the helper-surface durable-hold tuple must keep `promotion_readiness`, `hold_reasons`, `next_step_status`, and `next_step_detail` aligned to the frozen helper-surface contract"@,
            ),
        )
    } else if overlap_family_issue(c.overlap_family@) is Some {
        overlap_family_issue(c.overlap_family@)
    } else if difficulty_issue(c.difficulty) is Some {
        difficulty_issue(c.difficulty)
    } else {
        confidence_issue(c.confidence)
    }
}

impl RecommendationCandidateEntry {
    /// Accepts a candidate exactly when [`candidate_issue`] finds nothing wrong with it.
    pub fn validate(&self) -> (r: Result<(), XtaskError>)
        ensures
            match candidate_issue(*self) {
                None => r is Ok,
                Some(e) => r matches Err(x) && x@ == e,
            },
    {
        let id = chars_of(self.candidate_id.as_str());
        let tid = trim_chars(&id);
        if tid.len() == 0 || self.cluster_ids.len() == 0 || !is_single_line(self.rationale.as_str()) {
            return Err(
                invalid("recommendation candidates require non-empty candidate_id, cluster_ids, and single-line rationale"),
            );
        }
        match self.promotion_readiness {
            PromotionReadiness::Ready => {
                if self.hold_reasons.len() > 0 {
                    return Err(invalid("recommendation candidates marked `ready` must have empty hold_reasons"));
                }
            },
            PromotionReadiness::Hold => {
                if self.hold_reasons.len() == 0 {
                    return Err(invalid("recommendation candidates marked `hold` must include at least one hold_reasons entry"));
                }
            },
        }
        match self.promotion_readiness {
            PromotionReadiness::Ready => {
                if self.next_step_status != NextStepStatus::Promote || self.next_step_detail != NextStepDetail::ReadyForPromotion {
                    return Err(
                        invalid(
                            "recommendation candidates marked `ready` must use next_step_status `promote` and next_step_detail `ready_for_promotion`",
                        ),
                    );
                }
            },
            PromotionReadiness::Hold => {
                if self.next_step_status == NextStepStatus::Promote || self.next_step_detail == NextStepDetail::ReadyForPromotion {
                    return Err(invalid("recommendation candidates marked `hold` must not use ready-for-promotion next-step fields"));
                }
            },
        }
        if recommendation_uses_helper_surface_durable_hold_tuple(self) && !recommendation_matches_helper_surface_durable_hold_tuple(
            self,
        ) {
            return Err(
                invalid(
                    "recommendation candidates using the helper-surface durable-hold tuple must keep `promotion_readiness`, `hold_reasons`, `next_step_status`, and `next_step_detail` aligned to the frozen helper-surface contract",
                ),
            );
        }
        match validate_overlap_family(self.overlap_family.as_str()) {
            Ok(()) => {},
            Err(e) => {
                return Err(e);
            },
        }
        match self.difficulty.validate() {
            Ok(()) => {},
            Err(e) => {
                return Err(e);
            },
        }
        self.confidence.validate()
    }
}

/// A candidate can lead a ranked recommendation: it is ready and held with medium or high confidence.
pub open spec fn qualifies_for_ranked(c: RecommendationCandidateEntry) -> bool {
    c.promotion_readiness == PromotionReadiness::Ready && (c.confidence.level == ConfidenceLevel::Medium
        || c.confidence.level == ConfidenceLevel::High)
}

pub fn candidate_qualifies_for_ranked_status(candidate: &RecommendationCandidateEntry) -> (r: bool)
    ensures
        r == qualifies_for_ranked(*candidate),
{
    candidate.promotion_readiness == PromotionReadiness::Ready && (candidate.confidence.level == ConfidenceLevel::Medium
        || candidate.confidence.level == ConfidenceLevel::High)
}

/// `acc` with `x` added at the end unless it is already there.
pub open spec fn add_once<A>(acc: Seq<A>, x: A) -> Seq<A> {
    if acc.contains(x) {
        acc
    } else {
        acc.push(x)
    }
}

pub open spec fn blocker_for(h: HoldReason) -> DecisionReason {
    match h {
        HoldReason::UnknownOverlapFamily => DecisionReason::UnknownOverlapFamily,
        HoldReason::HardDifficulty => DecisionReason::HardDifficulty,
        HoldReason::ThinRealExampleSupport => DecisionReason::ThinRealExampleSupport,
        HoldReason::ThinRegressionSupport => DecisionReason::ThinRegressionSupport,
        HoldReason::HelperSurfaceNotPromotable => DecisionReason::HelperSurfaceNotPromotable,
    }
}

/// The decision reasons that hold reasons block on, each once, in order of first mention.
pub open spec fn blockers_from(hs: Seq<HoldReason>) -> Seq<DecisionReason>
    decreases hs.len(),
{
    if hs.len() == 0 {
        Seq::empty()
    } else {
        add_once(blockers_from(hs.drop_last()), blocker_for(hs.last()))
    }
}

pub open spec fn evidence_gap_for(h: HoldReason) -> Option<EvidenceState> {
    match h {
        HoldReason::ThinRealExampleSupport => Some(EvidenceState::ThinRealExampleSupport),
        HoldReason::ThinRegressionSupport => Some(EvidenceState::ThinRegressionSupport),
        _ => None,
    }
}

/// The evidence gaps that hold reasons name, each once, in order of first mention.
pub open spec fn gaps_from(hs: Seq<HoldReason>) -> Seq<EvidenceState>
    decreases hs.len(),
{
    if hs.len() == 0 {
        Seq::empty()
    } else {
        match evidence_gap_for(hs.last()) {
            Some(g) => add_once(gaps_from(hs.drop_last()), g),
            None => gaps_from(hs.drop_last()),
        }
    }
}

pub open spec fn first_candidate(cs: Seq<RecommendationCandidateEntry>) -> Option<RecommendationCandidateEntry> {
    if cs.len() > 0 {
        Some(cs[0])
    } else {
        None
    }
}

pub open spec fn expected_blockers(first: Option<RecommendationCandidateEntry>) -> Seq<DecisionReason> {
    match first {
        Some(c) => blockers_from(c.hold_reasons@),
        None => Seq::empty(),
    }
}

pub open spec fn expected_gaps(first: Option<RecommendationCandidateEntry>) -> Seq<EvidenceState> {
    match first {
        Some(c) => gaps_from(c.hold_reasons@),
        None => Seq::empty(),
    }
}

/// The regression warning, exactly when the leading candidate has promotion-relevant regression hits.
pub open spec fn expected_warning_set(first: Option<RecommendationCandidateEntry>) -> Seq<DecisionReason> {
    match first {
        Some(c) => if c.leverage.promotion_relevant_regression_hits > 0 {
            seq![DecisionReason::RegressionWarning]
        } else {
            Seq::empty()
        },
        None => Seq::empty(),
    }
}

/// The decision an analysis must record for its leading candidate and evidence.
pub open spec fn expected_status(
    status: RecommendationStatus,
    first: Option<RecommendationCandidateEntry>,
    evidence: EvidenceSummary,
) -> DecisionStatus {
    let gaps = evidence.missing_evidence@.len() > 0 || evidence.stale_evidence@.len() > 0;
    match first {
        Some(c) => if c.promotion_readiness == PromotionReadiness::Ready && (c.confidence.level == ConfidenceLevel::Medium
            || c.confidence.level == ConfidenceLevel::High) && !gaps {
            DecisionStatus::Recommended
        } else if c.next_step_status == NextStepStatus::DurableHold && c.next_step_detail
            == NextStepDetail::HelperSurfaceNotPromotable {
            DecisionStatus::NotRecommended
        } else if status == RecommendationStatus::InsufficientRealCorpus {
            DecisionStatus::NotRecommended
        } else {
            DecisionStatus::BlockedForNow
        },
        None => DecisionStatus::NotRecommended,
    }
}

fn blocker_for_exec(h: HoldReason) -> (r: DecisionReason)
    ensures
        r == blocker_for(h),
{
    match h {
        HoldReason::UnknownOverlapFamily => DecisionReason::UnknownOverlapFamily,
        HoldReason::HardDifficulty => DecisionReason::HardDifficulty,
        HoldReason::ThinRealExampleSupport => DecisionReason::ThinRealExampleSupport,
        HoldReason::ThinRegressionSupport => DecisionReason::ThinRegressionSupport,
        HoldReason::HelperSurfaceNotPromotable => DecisionReason::HelperSurfaceNotPromotable,
    }
}

fn has_reason(v: &Vec<DecisionReason>, x: DecisionReason) -> (r: bool)
    ensures
        r == v@.contains(x),
{
    let mut i: usize = 0;
    while i < v.len()
        invariant
            i <= v@.len(),
            forall|k: int| 0 <= k < i ==> v@[k] != x,
        decreases v@.len() - i,
    {
        if v[i] == x {
            return true;
        }
        i = i + 1;
    }
    false
}

fn has_state(v: &Vec<EvidenceState>, x: EvidenceState) -> (r: bool)
    ensures
        r == v@.contains(x),
{
    let mut i: usize = 0;
    while i < v.len()
        invariant
            i <= v@.len(),
            forall|k: int| 0 <= k < i ==> v@[k] != x,
        decreases v@.len() - i,
    {
        if v[i] == x {
            return true;
        }
        i = i + 1;
    }
    false
}

/// The open blockers an analysis must record for its leading candidate.
pub fn expected_open_blockers(candidate: Option<&RecommendationCandidateEntry>) -> (r: Vec<DecisionReason>)
    ensures
        r@ == match candidate {
            Some(c) => blockers_from(c.hold_reasons@),
            None => Seq::empty(),
        },
{
    let mut out: Vec<DecisionReason> = Vec::new();
    match candidate {
        None => out,
        Some(c) => {
            let mut i: usize = 0;
            while i < c.hold_reasons.len()
                invariant
                    i <= c.hold_reasons@.len(),
                    out@ == blockers_from(c.hold_reasons@.take(i as int)),
                decreases c.hold_reasons@.len() - i,
            {
                proof {
                    assert(c.hold_reasons@.take(i + 1).drop_last() =~= c.hold_reasons@.take(i as int));
                }
                let reason = blocker_for_exec(c.hold_reasons[i]);
                if !has_reason(&out, reason) {
                    out.push(reason);
                }
                i = i + 1;
            }
            proof {
                assert(c.hold_reasons@.take(c.hold_reasons@.len() as int) =~= c.hold_reasons@);
            }
            out
        },
    }
}

/// The missing evidence an analysis must record for its leading candidate.
pub fn expected_missing_evidence(candidate: Option<&RecommendationCandidateEntry>) -> (r: Vec<EvidenceState>)
    ensures
        r@ == match candidate {
            Some(c) => gaps_from(c.hold_reasons@),
            None => Seq::empty(),
        },
{
    let mut out: Vec<EvidenceState> = Vec::new();
    match candidate {
        None => out,
        Some(c) => {
            let mut i: usize = 0;
            while i < c.hold_reasons.len()
                invariant
                    i <= c.hold_reasons@.len(),
                    out@ == gaps_from(c.hold_reasons@.take(i as int)),
                decreases c.hold_reasons@.len() - i,
            {
                proof {
                    assert(c.hold_reasons@.take(i + 1).drop_last() =~= c.hold_reasons@.take(i as int));
                }
                let gap = match c.hold_reasons[i] {
                    HoldReason::ThinRealExampleSupport => Some(EvidenceState::ThinRealExampleSupport),
                    HoldReason::ThinRegressionSupport => Some(EvidenceState::ThinRegressionSupport),
                    _ => None,
                };
                if let Some(g) = gap {
                    if !has_state(&out, g) {
                        out.push(g);
                    }
                }
                i = i + 1;
            }
            proof {
                assert(c.hold_reasons@.take(c.hold_reasons@.len() as int) =~= c.hold_reasons@);
            }
            out
        },
    }
}

/// The warnings an analysis must record for its leading candidate.
pub fn expected_warnings(candidate: Option<&RecommendationCandidateEntry>) -> (r: Vec<DecisionReason>)
    ensures
        r@ == match candidate {
            Some(c) => if c.leverage.promotion_relevant_regression_hits > 0 {
                seq![DecisionReason::RegressionWarning]
            } else {
                Seq::empty()
            },
            None => Seq::empty(),
        },
{
    match candidate {
        Some(c) => if c.leverage.promotion_relevant_regression_hits > 0 {
            let r = vec![DecisionReason::RegressionWarning];
            proof {
                assert(r@ =~= seq![DecisionReason::RegressionWarning]);
            }
            r
        } else {
            Vec::new()
        },
        None => Vec::new(),
    }
}

/// The decision status an analysis must record, as [`expected_status`] derives it.
pub fn expected_decision_status(
    recommendation_status: RecommendationStatus,
    candidate: Option<&RecommendationCandidateEntry>,
    evidence_summary: &EvidenceSummary,
) -> (r: DecisionStatus)
    ensures
        r == expected_status(
            recommendation_status,
            match candidate {
                Some(c) => Some(*c),
                None => None,
            },
            *evidence_summary,
        ),
{
    let gaps = evidence_summary.missing_evidence.len() > 0 || evidence_summary.stale_evidence.len() > 0;
    match candidate {
        Some(c) => if c.promotion_readiness == PromotionReadiness::Ready && (c.confidence.level == ConfidenceLevel::Medium
            || c.confidence.level == ConfidenceLevel::High) && !gaps {
            DecisionStatus::Recommended
        } else if c.next_step_status == NextStepStatus::DurableHold && c.next_step_detail
            == NextStepDetail::HelperSurfaceNotPromotable {
            DecisionStatus::NotRecommended
        } else if recommendation_status == RecommendationStatus::InsufficientRealCorpus {
            DecisionStatus::NotRecommended
        } else {
            DecisionStatus::BlockedForNow
        },
        None => DecisionStatus::NotRecommended,
    }
}

/// The first problem among the candidates, taken in order.
pub open spec fn first_candidate_issue(cs: Seq<RecommendationCandidateEntry>) -> Option<XtaskErrorView>
    decreases cs.len(),
{
    if cs.len() == 0 {
        None
    } else if candidate_issue(cs[0]) is Some {
        candidate_issue(cs[0])
    } else {
        first_candidate_issue(cs.drop_first())
    }
}

pub open spec fn top_id_matches(top: Option<String>, first: Option<RecommendationCandidateEntry>) -> bool {
    match (top, first) {
        (None, None) => true,
        (Some(t), Some(c)) => t@ == c.candidate_id@,
        _ => false,
    }
}

/// What the recorded summaries must agree with, once the recommendation status is consistent.
pub open spec fn summary_agreement_issue(a: FamilyRecommendationAnalysisArtifact) -> Option<XtaskErrorView> {
    let first = first_candidate(a.ranked_candidates@);
    let stale = a.evidence_summary.stale_evidence@;
    if a.decision_summary.open_blockers@ != expected_blockers(first) {
        Some(
            XtaskErrorView::InvalidInput(
                "recommendation analysis decision_summary.open_blockers must match the first candidate hold reasons"@,
            ),
        )
    } else if a.evidence_summary.missing_evidence@ != expected_gaps(first) {
        Some(
            XtaskErrorView::InvalidInput(
                "recommendation analysis evidence_summary.missing_evidence must match the first candidate evidence gaps"@,
            ),
        )
    } else if stale.len() > 0 && exists|i: int| 0 <= i < stale.len() && #[trigger] stale[i] != EvidenceState::StaleEvidence {
        Some(
            XtaskErrorView::InvalidInput(
                "recommendation analysis evidence_summary.stale_evidence may only contain `stale_evidence` entries"@,
            ),
        )
    } else if a.decision_summary.warnings@ != expected_warning_set(first) || a.evidence_summary.warnings@
        != expected_warning_set(first) {
        Some(
            XtaskErrorView::InvalidInput(
                "recommendation analysis warnings must match the derived regression warning set"@,
            ),
        )
    } else if a.decision_summary.decision_status != expected_status(a.recommendation_status, first, a.evidence_summary) {
        Some(
            XtaskErrorView::InvalidInput(
                "recommendation analysis decision_summary.decision_status does not match the ranked candidate and evidence state"@,
            ),
        )
    } else if !top_id_matches(a.decision_summary.top_candidate_id, first) {
        Some(
            XtaskErrorView::InvalidInput(
                "recommendation analysis decision_summary.top_candidate_id must match the first ranked candidate"@,
            ),
        )
    } else {
        None
    }
}

pub open spec fn non_ranked_ready_message() -> Seq<char> {
    "recommendation analysis non-ranked statuses must not include `ready` candidates"@
}

/// Whether the candidates fit the recommendation status, and then the summaries.
pub open spec fn status_issue(a: FamilyRecommendationAnalysisArtifact) -> Option<XtaskErrorView> {
    let cs = a.ranked_candidates@;
    let any_ready = exists|i: int| 0 <= i < cs.len() && (#[trigger] cs[i]).promotion_readiness == PromotionReadiness::Ready;
    let all_hold = forall|i: int| 0 <= i < cs.len() ==> (#[trigger] cs[i]).promotion_readiness == PromotionReadiness::Hold;
    let all_zero_real = forall|i: int| 0 <= i < cs.len() ==> (#[trigger] cs[i]).leverage.real_example_hits == 0;
    let any_positive_real = exists|i: int| 0 <= i < cs.len() && (#[trigger] cs[i]).leverage.real_example_hits > 0;
    match a.recommendation_status {
        RecommendationStatus::Ranked => if cs.len() == 0 {
            Some(
                XtaskErrorView::InvalidInput(
                    "recommendation analysis ranked status must include ranked_candidates[]"@,
                ),
            )
        } else if !qualifies_for_ranked(cs[0]) {
            Some(
                XtaskErrorView::InvalidInput(
                    "recommendation analysis ranked status requires the first candidate to be `ready` with confidence `medium` or `high`"@,
                ),
            )
        } else if exists|i: int| 0 <= i < cs.len() && (#[trigger] cs[i]).next_step_status == NextStepStatus::DurableHold {
            Some(
                XtaskErrorView::InvalidInput(
                    "recommendation analysis ranked status must not include `durable_hold` candidates"@,
                ),
            )
        } else {
            summary_agreement_issue(a)
        },
        RecommendationStatus::InsufficientRealCorpus => if any_ready {
            Some(XtaskErrorView::InvalidInput(non_ranked_ready_message()))
        } else if !(cs.len() == 0 || (all_hold && all_zero_real)) {
            Some(
                XtaskErrorView::InvalidInput(
                    "recommendation analysis insufficient_real_corpus status requires either no candidates or only held candidates with zero real_example_hits"@,
                ),
            )
        } else {
            summary_agreement_issue(a)
        },
        RecommendationStatus::NoStrongCandidate => if any_ready {
            Some(XtaskErrorView::InvalidInput(non_ranked_ready_message()))
        } else if cs.len() == 0 || !all_hold || !any_positive_real {
            Some(
                XtaskErrorView::InvalidInput(
                    "recommendation analysis no_strong_candidate status requires non-empty held candidates with at least one real_example_hits > 0"@,
                ),
            )
        } else {
            summary_agreement_issue(a)
        },
    }
}

/// The first problem with a recommendation-analysis artifact, in the order the checks run,
/// given what the workspace holds at its coverage path.
pub open spec fn analysis_issue(a: FamilyRecommendationAnalysisArtifact, coverage: WorkspaceFile) -> Option<XtaskErrorView> {
    let bound = sha_bound_issue(
        a.coverage_path@,
        FAMILY_COVERAGE_LATEST_PATH@,
        a.coverage_sha256@,
        "recommendation analysis coverage_path"@,
        coverage,
    );
    if a.schema_version != RECOMMENDATION_ANALYSIS_SCHEMA_VERSION {
        Some(
            XtaskErrorView::InvalidInput(
                "recommendation analysis schema_version must be 4, found "@ + decimal(a.schema_version as nat),
            ),
        )
    } else if a.artifact_kind != PromotionArtifactKind::FamilyRecommendationAnalysis {
        Some(
            XtaskErrorView::InvalidInput(
                "recommendation analysis artifact_kind must be `family_recommendation_analysis`"@,
            ),
        )
    } else if !utc_timestamp(a.generated_at@) {
        Some(XtaskErrorView::InvalidInput("recommendation analysis generated_at must be a UTC RFC3339 timestamp"@))
    } else if bound is Some {
        bound
    } else if first_candidate_issue(a.ranked_candidates@) is Some {
        first_candidate_issue(a.ranked_candidates@)
    } else if decision_summary_issue(a.decision_summary) is Some {
        decision_summary_issue(a.decision_summary)
    } else if evidence_summary_issue(a.evidence_summary) is Some {
        evidence_summary_issue(a.evidence_summary)
    } else if delta_issue(a.delta_from_previous) is Some {
        delta_issue(a.delta_from_previous)
    } else {
        status_issue(a)
    }
}

pub(crate) fn same_reasons(a: &Vec<DecisionReason>, b: &Vec<DecisionReason>) -> (r: bool)
    ensures
        r == (a@ == b@),
{
    if a.len() != b.len() {
        return false;
    }
    let mut i: usize = 0;
    while i < a.len()
        invariant
            i <= a@.len(),
            a@.len() == b@.len(),
            forall|k: int| 0 <= k < i ==> a@[k] == b@[k],
        decreases a@.len() - i,
    {
        if a[i] != b[i] {
            return false;
        }
        i = i + 1;
    }
    proof {
        assert(a@ =~= b@);
    }
    true
}

pub(crate) fn same_states(a: &Vec<EvidenceState>, b: &Vec<EvidenceState>) -> (r: bool)
    ensures
        r == (a@ == b@),
{
    if a.len() != b.len() {
        return false;
    }
    let mut i: usize = 0;
    while i < a.len()
        invariant
            i <= a@.len(),
            a@.len() == b@.len(),
            forall|k: int| 0 <= k < i ==> a@[k] == b@[k],
        decreases a@.len() - i,
    {
        if a[i] != b[i] {
            return false;
        }
        i = i + 1;
    }
    proof {
        assert(a@ =~= b@);
    }
    true
}

fn first_of(cs: &Vec<RecommendationCandidateEntry>) -> (r: Option<&RecommendationCandidateEntry>)
    ensures
        match r {
            Some(c) => first_candidate(cs@) == Some(*c),
            None => first_candidate(cs@) is None,
        },
{
    if cs.len() > 0 {
        Some(&cs[0])
    } else {
        None
    }
}

fn summary_agreement(a: &FamilyRecommendationAnalysisArtifact) -> (r: Result<(), XtaskError>)
    ensures
        match summary_agreement_issue(*a) {
            None => r is Ok,
            Some(e) => r matches Err(x) && x@ == e,
        },
{
    let first = first_of(&a.ranked_candidates);
    let blockers = expected_open_blockers(first);
    if !same_reasons(&a.decision_summary.open_blockers, &blockers) {
        return Err(
            invalid("recommendation analysis decision_summary.open_blockers must match the first candidate hold reasons"),
        );
    }
    let gaps = expected_missing_evidence(first);
    if !same_states(&a.evidence_summary.missing_evidence, &gaps) {
        return Err(
            invalid("recommendation analysis evidence_summary.missing_evidence must match the first candidate evidence gaps"),
        );
    }
    let stale = &a.evidence_summary.stale_evidence;
    let mut i: usize = 0;
    while i < stale.len()
        invariant
            i <= stale@.len(),
            forall|k: int| 0 <= k < i ==> #[trigger] stale@[k] == EvidenceState::StaleEvidence,
            stale@ == a.evidence_summary.stale_evidence@,
            a.decision_summary.open_blockers@ == expected_blockers(first_candidate(a.ranked_candidates@)),
            a.evidence_summary.missing_evidence@ == expected_gaps(first_candidate(a.ranked_candidates@)),
        decreases stale@.len() - i,
    {
        if stale[i] != EvidenceState::StaleEvidence {
            return Err(
                invalid("recommendation analysis evidence_summary.stale_evidence may only contain `stale_evidence` entries"),
            );
        }
        i = i + 1;
    }
    let warnings = expected_warnings(first);
    if !same_reasons(&a.decision_summary.warnings, &warnings) || !same_reasons(&a.evidence_summary.warnings, &warnings) {
        return Err(invalid("recommendation analysis warnings must match the derived regression warning set"));
    }
    let status = expected_decision_status(a.recommendation_status, first, &a.evidence_summary);
    if a.decision_summary.decision_status != status {
        return Err(
            invalid(
                "recommendation analysis decision_summary.decision_status does not match the ranked candidate and evidence state",
            ),
        );
    }
    let top_ok = match (&a.decision_summary.top_candidate_id, first) {
        (None, None) => true,
        (Some(t), Some(c)) => str_eq(t.as_str(), c.candidate_id.as_str()),
        _ => false,
    };
    if !top_ok {
        return Err(invalid("recommendation analysis decision_summary.top_candidate_id must match the first ranked candidate"));
    }
    Ok(())
}

fn status_check(a: &FamilyRecommendationAnalysisArtifact) -> (r: Result<(), XtaskError>)
    ensures
        match status_issue(*a) {
            None => r is Ok,
            Some(e) => r matches Err(x) && x@ == e,
        },
{
    let cs = &a.ranked_candidates;
    let ghost s = cs@;
    let mut any_ready = false;
    let mut all_hold = true;
    let mut all_zero_real = true;
    let mut any_positive_real = false;
    let mut any_durable = false;
    let mut i: usize = 0;
    while i < cs.len()
        invariant
            i <= s.len(),
            s == cs@,
            any_ready == exists|k: int| 0 <= k < i && (#[trigger] s[k]).promotion_readiness == PromotionReadiness::Ready,
            all_hold == forall|k: int| 0 <= k < i ==> (#[trigger] s[k]).promotion_readiness == PromotionReadiness::Hold,
            all_zero_real == forall|k: int| 0 <= k < i ==> (#[trigger] s[k]).leverage.real_example_hits == 0,
            any_positive_real == exists|k: int| 0 <= k < i && (#[trigger] s[k]).leverage.real_example_hits > 0,
            any_durable == exists|k: int| 0 <= k < i && (#[trigger] s[k]).next_step_status == NextStepStatus::DurableHold,
        decreases s.len() - i,
    {
        let c = &cs[i];
        proof {
            assert(s[i as int] == *c);
        }
        if c.promotion_readiness == PromotionReadiness::Ready {
            any_ready = true;
        } else {
            proof {
                assert(c.promotion_readiness == PromotionReadiness::Hold);
            }
        }
        if c.promotion_readiness != PromotionReadiness::Hold {
            all_hold = false;
        }
        if c.leverage.real_example_hits != 0 {
            all_zero_real = false;
            any_positive_real = true;
        }
        if c.next_step_status == NextStepStatus::DurableHold {
            any_durable = true;
        }
        i = i + 1;
    }
    match a.recommendation_status {
        RecommendationStatus::Ranked => {
            if cs.len() == 0 {
                return Err(invalid("recommendation analysis ranked status must include ranked_candidates[]"));
            }
            if !candidate_qualifies_for_ranked_status(&cs[0]) {
                return Err(
                    invalid(
                        "recommendation analysis ranked status requires the first candidate to be `ready` with confidence `medium` or `high`",
                    ),
                );
            }
            if any_durable {
                return Err(invalid("recommendation analysis ranked status must not include `durable_hold` candidates"));
            }
        },
        RecommendationStatus::InsufficientRealCorpus => {
            if any_ready {
                return Err(invalid("recommendation analysis non-ranked statuses must not include `ready` candidates"));
            }
            if !(cs.len() == 0 || (all_hold && all_zero_real)) {
                return Err(
                    invalid(
                        "recommendation analysis insufficient_real_corpus status requires either no candidates or only held candidates with zero real_example_hits",
                    ),
                );
            }
        },
        RecommendationStatus::NoStrongCandidate => {
            if any_ready {
                return Err(invalid("recommendation analysis non-ranked statuses must not include `ready` candidates"));
            }
            if cs.len() == 0 || !all_hold || !any_positive_real {
                return Err(
                    invalid(
                        "recommendation analysis no_strong_candidate status requires non-empty held candidates with at least one real_example_hits > 0",
                    ),
                );
            }
        },
    }
    summary_agreement(a)
}

impl FamilyRecommendationAnalysisArtifact {
    /// Accepts the artifact exactly when [`analysis_issue`] finds nothing wrong with it,
    /// given what the workspace holds at its coverage path; otherwise returns the first issue.
    pub fn validate(&self, coverage: &WorkspaceFile) -> (r: Result<(), XtaskError>)
        ensures
            match analysis_issue(*self, *coverage) {
                None => r is Ok,
                Some(e) => r matches Err(x) && x@ == e,
            },
    {
        if self.schema_version != RECOMMENDATION_ANALYSIS_SCHEMA_VERSION {
            let mut m = owned("recommendation analysis schema_version must be 4, found ");
            let n = decimal_u64_string(self.schema_version);
            m.append(n.as_str());
            return Err(XtaskError::InvalidInput(m));
        }
        if self.artifact_kind != PromotionArtifactKind::FamilyRecommendationAnalysis {
            return Err(invalid("recommendation analysis artifact_kind must be `family_recommendation_analysis`"));
        }
        if !looks_like_utc_timestamp(self.generated_at.as_str()) {
            return Err(invalid("recommendation analysis generated_at must be a UTC RFC3339 timestamp"));
        }
        match validate_sha_bound_path(
            self.coverage_path.as_str(),
            FAMILY_COVERAGE_LATEST_PATH,
            self.coverage_sha256.as_str(),
            "recommendation analysis coverage_path",
            coverage,
        ) {
            Ok(()) => {},
            Err(e) => {
                return Err(e);
            },
        }
        let cs = &self.ranked_candidates;
        let mut i: usize = 0;
        proof {
            assert(cs@.skip(0) =~= cs@);
        }
        while i < cs.len()
            invariant
                i <= cs@.len(),
                cs@ == self.ranked_candidates@,
                first_candidate_issue(cs@) == first_candidate_issue(cs@.skip(i as int)),
                self.schema_version == RECOMMENDATION_ANALYSIS_SCHEMA_VERSION,
                self.artifact_kind == PromotionArtifactKind::FamilyRecommendationAnalysis,
                utc_timestamp(self.generated_at@),
                sha_bound_issue(
                    self.coverage_path@,
                    FAMILY_COVERAGE_LATEST_PATH@,
                    self.coverage_sha256@,
                    "recommendation analysis coverage_path"@,
                    *coverage,
                ) is None,
            decreases cs@.len() - i,
        {
            proof {
                assert(cs@.skip(i as int)[0] == cs@[i as int]);
                assert(cs@.skip(i as int).drop_first() =~= cs@.skip(i + 1));
            }
            match cs[i].validate() {
                Ok(()) => {},
                Err(e) => {
                    return Err(e);
                },
            }
            i = i + 1;
        }
        match self.decision_summary.validate() {
            Ok(()) => {},
            Err(e) => {
                return Err(e);
            },
        }
        match self.evidence_summary.validate() {
            Ok(()) => {},
            Err(e) => {
                return Err(e);
            },
        }
        match self.delta_from_previous.validate() {
            Ok(()) => {},
            Err(e) => {
                return Err(e);
            },
        }
        status_check(self)
    }
}

} // verus!
