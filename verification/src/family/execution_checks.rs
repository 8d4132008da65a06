//! Checks of the records a promotion run leaves: its execution record or its blocker report.
use vstd::prelude::*;
use crate::family::analysis_checks::{is_single_line, repo_relative_issue, same_reasons, same_states, single_line, validate_repo_relative_path};
use crate::family::artifacts::{DecisionReason, DecisionStatus, EvidenceState, PromotionArtifactKind};
use crate::family::basis_checks::{
    basis_reference_issue, missing_or_stale_evidence, missing_then_stale, validate_analysis_basis_reference,
    BasisLookup,
};
use crate::family::error::{XtaskError, XtaskErrorView};
use crate::family::language::{typescript_family, typescript_refusal, validate_target_language, TargetLanguage};
use crate::family::order::{in_string_order, sort_strings};
use crate::family::paths::{views_of, FamilyId};
use crate::family::recommendation_checks::{
    existing_path_issue, family_issue, first_existing_issue, validate_existing_repo_relative_path,
};
use crate::family::attestation::{find_first, first_occurrence};
use crate::family::report::{file_name_of, looks_like_utc_timestamp, path_file_name, utc_timestamp};
use crate::seam::{decimal, decimal_u64_string};
use crate::text::{
    chars_of, concat, ends_with, ends_with_exec, owned, split_chars, str_eq, trim_chars, trim_seq,
};

verus! {

pub const PROMOTION_EXECUTION_SCHEMA_VERSION: u64 = 2;

pub const PROMOTION_BLOCKER_SCHEMA_VERSION: u64 = 2;

#[derive(Debug, Clone, Copy, PartialEq, Eq, Structural)]
pub enum ExecutionStatus {
    Green,
    Blocked,
}

#[derive(Debug, Clone, Copy, PartialEq, Eq, Structural)]
pub enum ApprovalStatus {
    Pending,
    Approved,
    Rejected,
}

#[derive(Debug, Clone, Copy, PartialEq, Eq, Structural)]
pub enum StepGateStatus {
    Pass,
    Fail,
}

#[derive(Debug, Clone, Copy, PartialEq, Eq, Structural)]
pub enum BlockingStep {
    Inventory,
    Scaffold,
    Smoke,
    Prove,
    Certify,
}

#[derive(Debug, Clone, Copy, PartialEq, Eq, Structural)]
pub enum BlockerKind {
    InventoryProjectionMismatch,
    InventoryNoSupportedCandidate,
    ScaffoldContractMismatch,
    SmokeContractFailure,
    ProveSuiteFailure,
    CertifySuiteFailure,
    CertifyRoutingConflict,
    ProofArtifactMissing,
    HumanDecisionRequired,
}

#[derive(Debug, Clone, Copy, PartialEq, Eq, Structural)]
pub enum MachineEvidenceKind {
    Command,
    Artifact,
    Diff,
}

#[derive(Debug, Clone, Copy, PartialEq, Eq, Structural)]
pub struct ApprovalRecord {
    pub status: ApprovalStatus,
}

#[derive(Debug, Clone, Copy, PartialEq, Eq, Structural)]
pub struct PromotionApprovals {
    pub target_family: ApprovalRecord,
    pub final_output: ApprovalRecord,
}

/// One command a promotion run executed.
#[derive(Debug, Clone)]
pub struct CommandRecord {
    pub step: String,
    pub command: String,
    pub exit_code: i32,
    pub started_at: String,
    pub finished_at: String,
    pub artifact_path: Option<String>,
}

#[derive(Debug, Clone, Copy, PartialEq, Eq, Structural)]
pub struct GateSummary {
    pub smoke: StepGateStatus,
    pub prove: StepGateStatus,
    pub certify: StepGateStatus,
}

/// The record of one promotion run.
#[derive(Debug, Clone)]
pub struct PromotionExecutionArtifact {
    pub schema_version: u64,
    pub artifact_kind: PromotionArtifactKind,
    pub run_id: String,
    pub family: String,
    pub target_language: TargetLanguage,
    pub status: ExecutionStatus,
    pub recommendation_path: String,
    pub analysis_basis_path: String,
    pub analysis_basis_sha256: String,
    pub decision_status_at_start: DecisionStatus,
    pub open_blockers_at_start: Vec<DecisionReason>,
    pub missing_or_stale_evidence_at_start: Vec<EvidenceState>,
    pub approvals: PromotionApprovals,
    pub files_changed: Vec<String>,
    pub commands: Vec<CommandRecord>,
    pub referenced_proof_artifacts: Vec<String>,
    pub iterations: u64,
    pub gate_summary: GateSummary,
    pub notes: Vec<String>,
}

/// One piece of machine evidence behind a blocker.
#[derive(Debug, Clone)]
pub struct MachineEvidence {
    pub kind: MachineEvidenceKind,
    pub path: Option<String>,
    pub command: Option<String>,
    pub exit_code: Option<i32>,
    pub observed_at: String,
    pub note: String,
}

/// The report a promotion run leaves when it stops on a blocker.
#[derive(Debug, Clone)]
pub struct PromotionBlockerArtifact {
    pub schema_version: u64,
    pub artifact_kind: PromotionArtifactKind,
    pub run_id: String,
    pub family: String,
    pub target_language: TargetLanguage,
    pub analysis_basis_path: String,
    pub analysis_basis_sha256: String,
    pub decision_status_at_start: DecisionStatus,
    pub open_blockers_at_start: Vec<DecisionReason>,
    pub missing_or_stale_evidence_at_start: Vec<EvidenceState>,
    pub blocking_step: BlockingStep,
    pub blocker_kind: BlockerKind,
    pub summary: String,
    pub machine_evidence: Vec<MachineEvidence>,
    pub required_human_action: String,
    pub safe_next_actions: Vec<String>,
}

/// What the workspace holds for the paths a run record cites: the cited paths that do not
/// resolve to an existing entry (each with its refusal) and the analysis basis.
#[derive(Debug)]
pub struct RunWorkspace {
    pub refused_paths: Vec<(String, XtaskError)>,
    pub analysis_basis: BasisLookup,
}

/// A run id is a basic UTC timestamp `YYYYMMDDTHHMMSSZ`, a `-`, and the family id (the
/// timestamp holds no `-`, so this `-` is the first).
pub open spec fn run_id_ok(run_id: Seq<char>, family: Seq<char>) -> bool {
    &&& run_id.len() > 16
    &&& run_id[16] == '-'
    &&& run_id.skip(17) == family
    &&& run_id[8] == 'T'
    &&& run_id[15] == 'Z'
    &&& forall|j: int| 0 <= j < 16 && j != 8 && j != 15 ==> '0' <= #[trigger] run_id[j] <= '9'
}

pub fn looks_like_run_id(run_id: &str, family: &str) -> (r: bool)
    ensures
        r == run_id_ok(run_id@, family@),
{
    let cs = chars_of(run_id);
    if cs.len() <= 16 || cs[16] != '-' || cs[8] != 'T' || cs[15] != 'Z' {
        return false;
    }
    let suffix = crate::text::tail_from(&cs, 17);
    let fam = chars_of(family);
    if !crate::text::seq_eq(&suffix, &fam) {
        return false;
    }
    let mut i: usize = 0;
    while i < 16
        invariant
            i <= 16,
            cs@ == run_id@,
            cs@.len() > 16,
            forall|j: int| 0 <= j < i && j != 8 && j != 15 ==> '0' <= #[trigger] cs@[j] <= '9',
        decreases 16 - i,
    {
        if i != 8 && i != 15 && !('0' <= cs[i] && cs[i] <= '9') {
            return false;
        }
        i = i + 1;
    }
    true
}

/// The family and run id a record states must be valid and equal those its path names.
pub open spec fn family_and_run_issue(
    family: Seq<char>,
    run_id: Seq<char>,
    path_family: Seq<char>,
    path_run_id: Seq<char>,
) -> Option<XtaskErrorView> {
    if family_issue(family) is Some {
        family_issue(family)
    } else if family != path_family {
        Some(
            XtaskErrorView::InvalidInput(
                "artifact family `"@ + family + "` does not match artifact path family `"@ + path_family + "`"@,
            ),
        )
    } else if run_id != path_run_id {
        Some(
            XtaskErrorView::InvalidInput(
                "artifact run_id `"@ + run_id + "` does not match artifact path run id `"@ + path_run_id + "`"@,
            ),
        )
    } else if !run_id_ok(run_id, family) {
        Some(
            XtaskErrorView::InvalidInput(
                "artifact run_id `"@ + run_id + "` must match `{UTC-basic-timestamp}-"@ + family + "`"@,
            ),
        )
    } else {
        None
    }
}

pub fn validate_family_and_run_id(
    family: &str,
    run_id: &str,
    path_family: &str,
    path_run_id: &str,
) -> (r: Result<(), XtaskError>)
    ensures
        match family_and_run_issue(family@, run_id@, path_family@, path_run_id@) {
            None => r is Ok,
            Some(e) => r matches Err(x) && x@ == e,
        },
{
    match FamilyId::parse(family) {
        Ok(_) => {},
        Err(e) => {
            return Err(e);
        },
    }
    if !str_eq(family, path_family) {
        let mut m = owned("artifact family `");
        m.append(family);
        m.append("` does not match artifact path family `");
        m.append(path_family);
        m.append("`");
        return Err(XtaskError::InvalidInput(m));
    }
    if !str_eq(run_id, path_run_id) {
        let mut m = owned("artifact run_id `");
        m.append(run_id);
        m.append("` does not match artifact path run id `");
        m.append(path_run_id);
        m.append("`");
        return Err(XtaskError::InvalidInput(m));
    }
    if !looks_like_run_id(run_id, family) {
        let mut m = owned("artifact run_id `");
        m.append(run_id);
        m.append("` must match `{UTC-basic-timestamp}-");
        m.append(family);
        m.append("`");
        return Err(XtaskError::InvalidInput(m));
    }
    Ok(())
}

/// A record's target language must be one its family supports.
pub open spec fn language_issue(family: Seq<char>, language: TargetLanguage, field: Seq<char>) -> Option<XtaskErrorView> {
    if family_issue(family) is Some {
        family_issue(family)
    } else if language == TargetLanguage::Typescript && !typescript_family(family) {
        Some(XtaskErrorView::InvalidInput(typescript_refusal(field)))
    } else {
        None
    }
}

pub fn validate_target_language_matches_family(
    family: &str,
    target_language: TargetLanguage,
    field: &str,
) -> (r: Result<(), XtaskError>)
    ensures
        match language_issue(family@, target_language, field@) {
            None => r is Ok,
            Some(e) => r matches Err(x) && x@ == e,
        },
{
    let id = match FamilyId::parse(family) {
        Ok(id) => id,
        Err(e) => {
            return Err(e);
        },
    };
    validate_target_language(&id, target_language.to_family_target_language(), field)
}

/// Paths must be listed in string order.
pub open spec fn sorted_issue(paths: Seq<String>, field: Seq<char>) -> Option<XtaskErrorView> {
    if views_of(paths) != in_string_order(views_of(paths)) {
        Some(XtaskErrorView::InvalidInput(field + " must be sorted lexicographically"@))
    } else {
        None
    }
}

pub fn ensure_repo_relative_paths_sorted(paths: &Vec<String>, field: &str) -> (r: Result<(), XtaskError>)
    ensures
        match sorted_issue(paths@, field@) {
            None => r is Ok,
            Some(e) => r matches Err(x) && x@ == e,
        },
{
    let sorted = sort_strings(paths);
    if paths.len() != sorted.len() {
        proof {
            assert(views_of(paths@).len() != views_of(sorted@).len());
        }
        return Err(XtaskError::InvalidInput(concat(field, " must be sorted lexicographically")));
    }
    let mut i: usize = 0;
    while i < paths.len()
        invariant
            i <= paths@.len(),
            paths@.len() == sorted@.len(),
            views_of(sorted@) == in_string_order(views_of(paths@)),
            forall|k: int| 0 <= k < i ==> paths@[k]@ == sorted@[k]@,
        decreases paths@.len() - i,
    {
        if !str_eq(paths[i].as_str(), sorted[i].as_str()) {
            proof {
                assert(views_of(paths@)[i as int] != views_of(sorted@)[i as int]);
            }
            return Err(XtaskError::InvalidInput(concat(field, " must be sorted lexicographically")));
        }
        i = i + 1;
    }
    proof {
        assert(views_of(paths@) =~= views_of(sorted@));
    }
    Ok(())
}

fn invalid(m: &str) -> (r: XtaskError)
    ensures
        r@ == XtaskErrorView::InvalidInput(m@),
{
    XtaskError::InvalidInput(owned(m))
}

fn clone_error(e: &XtaskError) -> (r: XtaskError)
    ensures
        r@ == e@,
{
    match e {
        XtaskError::InvalidInput(m) => XtaskError::InvalidInput(owned(m.as_str())),
        XtaskError::NotImplemented(m) => XtaskError::NotImplemented(owned(m.as_str())),
        XtaskError::WriteFailure(m) => XtaskError::WriteFailure(owned(m.as_str())),
        XtaskError::AlreadyExists(m) => XtaskError::AlreadyExists(owned(m.as_str())),
        XtaskError::Internal(m) => XtaskError::Internal(owned(m.as_str())),
        XtaskError::ProveSuiteFailure(m) => XtaskError::ProveSuiteFailure(owned(m.as_str())),
        XtaskError::CertifyProveFailure(m) => XtaskError::CertifyProveFailure(owned(m.as_str())),
        XtaskError::CertifySuiteFailure(m) => XtaskError::CertifySuiteFailure(owned(m.as_str())),
        XtaskError::CertifyArtifactWriteFailure(m) => XtaskError::CertifyArtifactWriteFailure(owned(m.as_str())),
    }
}

/// What a run record states of its start must equal what its validated basis says.
pub open spec fn start_state_issue(
    decision_status: DecisionStatus,
    open_blockers: Seq<DecisionReason>,
    missing_or_stale: Seq<EvidenceState>,
    prefix: Seq<char>,
    basis: BasisLookup,
) -> Option<XtaskErrorView> {
    match basis.parsed {
        Err(e) => Some(e@),
        Ok(a) => if decision_status != a.decision_summary.decision_status {
            Some(XtaskErrorView::InvalidInput(prefix + " decision_status_at_start must match the analysis basis"@))
        } else if open_blockers != a.decision_summary.open_blockers@ {
            Some(XtaskErrorView::InvalidInput(prefix + " open_blockers_at_start must match the analysis basis"@))
        } else if missing_or_stale != missing_then_stale(
            a.evidence_summary.missing_evidence@,
            a.evidence_summary.stale_evidence@,
        ) {
            Some(
                XtaskErrorView::InvalidInput(
                    prefix + " missing_or_stale_evidence_at_start must match the analysis basis"@,
                ),
            )
        } else {
            None
        },
    }
}

fn check_start_state(
    decision_status: DecisionStatus,
    open_blockers: &Vec<DecisionReason>,
    missing_or_stale: &Vec<EvidenceState>,
    prefix: &str,
    basis: &BasisLookup,
) -> (r: Result<(), XtaskError>)
    ensures
        match start_state_issue(decision_status, open_blockers@, missing_or_stale@, prefix@, *basis) {
            None => r is Ok,
            Some(e) => r matches Err(x) && x@ == e,
        },
{
    let a = match &basis.parsed {
        Ok(a) => a,
        Err(e) => {
            return Err(clone_error(e));
        },
    };
    if decision_status != a.decision_summary.decision_status {
        return Err(XtaskError::InvalidInput(concat(prefix, " decision_status_at_start must match the analysis basis")));
    }
    if !same_reasons(open_blockers, &a.decision_summary.open_blockers) {
        return Err(XtaskError::InvalidInput(concat(prefix, " open_blockers_at_start must match the analysis basis")));
    }
    let expected = missing_or_stale_evidence(a);
    if !same_states(missing_or_stale, &expected) {
        return Err(
            XtaskError::InvalidInput(concat(prefix, " missing_or_stale_evidence_at_start must match the analysis basis")),
        );
    }
    Ok(())
}

/// The first path of `paths` that is not repo-relative.
pub open spec fn first_relative_issue(paths: Seq<String>, field: Seq<char>) -> Option<XtaskErrorView>
    decreases paths.len(),
{
    if paths.len() == 0 {
        None
    } else if repo_relative_issue(paths[0]@, field) is Some {
        repo_relative_issue(paths[0]@, field)
    } else {
        first_relative_issue(paths.drop_first(), field)
    }
}

fn check_relative_paths(paths: &Vec<String>, field: &str) -> (r: Result<(), XtaskError>)
    ensures
        match first_relative_issue(paths@, field@) {
            None => r is Ok,
            Some(e) => r matches Err(x) && x@ == e,
        },
{
    let mut i: usize = 0;
    proof {
        assert(paths@.skip(0) =~= paths@);
    }
    while i < paths.len()
        invariant
            i <= paths@.len(),
            first_relative_issue(paths@, field@) == first_relative_issue(paths@.skip(i as int), field@),
        decreases paths@.len() - i,
    {
        proof {
            assert(paths@.skip(i as int)[0] == paths@[i as int]);
            assert(paths@.skip(i as int).drop_first() =~= paths@.skip(i + 1));
        }
        match validate_repo_relative_path(paths[i].as_str(), field) {
            Ok(()) => {},
            Err(e) => {
                return Err(e);
            },
        }
        i = i + 1;
    }
    Ok(())
}

fn check_existing_paths(
    paths: &Vec<String>,
    field: &str,
    refusals: &Vec<(String, XtaskError)>,
) -> (r: Result<(), XtaskError>)
    ensures
        match first_existing_issue(paths@, field@, refusals@) {
            None => r is Ok,
            Some(e) => r matches Err(x) && x@ == e,
        },
{
    let mut i: usize = 0;
    proof {
        assert(paths@.skip(0) =~= paths@);
    }
    while i < paths.len()
        invariant
            i <= paths@.len(),
            first_existing_issue(paths@, field@, refusals@) == first_existing_issue(
                paths@.skip(i as int),
                field@,
                refusals@,
            ),
        decreases paths@.len() - i,
    {
        proof {
            assert(paths@.skip(i as int)[0] == paths@[i as int]);
            assert(paths@.skip(i as int).drop_first() =~= paths@.skip(i + 1));
        }
        match validate_existing_repo_relative_path(paths[i].as_str(), field, refusals) {
            Ok(()) => {},
            Err(e) => {
                return Err(e);
            },
        }
        i = i + 1;
    }
    Ok(())
}

/// A recorded command needs a step, a command and UTC start and finish times, and an
/// artifact path it cites must exist.
pub open spec fn command_issue(c: CommandRecord, refusals: Seq<(String, XtaskError)>) -> Option<XtaskErrorView> {
    if trim_seq(c.step@).len() == 0 || trim_seq(c.command@).len() == 0 || !utc_timestamp(c.started_at@)
        || !utc_timestamp(c.finished_at@) {
        Some(
            XtaskErrorView::InvalidInput(
                "promotion execution commands[] must include non-empty step/command and UTC timestamps"@,
            ),
        )
    } else {
        match c.artifact_path {
            Some(p) => existing_path_issue(p@, "promotion execution command artifact_path"@, refusals),
            None => None,
        }
    }
}

pub open spec fn first_command_issue(cs: Seq<CommandRecord>, refusals: Seq<(String, XtaskError)>) -> Option<XtaskErrorView>
    decreases cs.len(),
{
    if cs.len() == 0 {
        None
    } else if command_issue(cs[0], refusals) is Some {
        command_issue(cs[0], refusals)
    } else {
        first_command_issue(cs.drop_first(), refusals)
    }
}

fn is_blank(s: &str) -> (r: bool)
    ensures
        r == (trim_seq(s@).len() == 0),
{
    let cs = chars_of(s);
    let t = trim_chars(&cs);
    t.len() == 0
}

fn check_commands(cs: &Vec<CommandRecord>, refusals: &Vec<(String, XtaskError)>) -> (r: Result<(), XtaskError>)
    ensures
        match first_command_issue(cs@, refusals@) {
            None => r is Ok,
            Some(e) => r matches Err(x) && x@ == e,
        },
{
    let mut i: usize = 0;
    proof {
        assert(cs@.skip(0) =~= cs@);
    }
    while i < cs.len()
        invariant
            i <= cs@.len(),
            first_command_issue(cs@, refusals@) == first_command_issue(cs@.skip(i as int), refusals@),
        decreases cs@.len() - i,
    {
        proof {
            assert(cs@.skip(i as int)[0] == cs@[i as int]);
            assert(cs@.skip(i as int).drop_first() =~= cs@.skip(i + 1));
        }
        let c = &cs[i];
        if is_blank(c.step.as_str()) || is_blank(c.command.as_str()) || !looks_like_utc_timestamp(c.started_at.as_str())
            || !looks_like_utc_timestamp(c.finished_at.as_str()) {
            return Err(invalid("promotion execution commands[] must include non-empty step/command and UTC timestamps"));
        }
        if let Some(p) = &c.artifact_path {
            match validate_existing_repo_relative_path(p.as_str(), "promotion execution command artifact_path", refusals) {
                Ok(()) => {},
                Err(e) => {
                    return Err(e);
                },
            }
        }
        i = i + 1;
    }
    Ok(())
}

pub open spec fn mentions(s: Seq<char>, pat: Seq<char>) -> bool {
    first_occurrence(s, pat) is Some
}

/// The proof artifacts cite a prove run, at least one certify attempt and the certification.
pub open spec fn proofs_complete(ps: Seq<String>) -> bool {
    &&& exists|i: int| 0 <= i < ps.len() && ends_with(#[trigger] ps[i]@, "prove.latest.json"@)
    &&& exists|i: int| 0 <= i < ps.len() && mentions(#[trigger] ps[i]@, "/attempt-"@) && ends_with(ps[i]@, ".json"@)
    &&& exists|i: int| 0 <= i < ps.len() && ends_with(#[trigger] ps[i]@, "certification.report.json"@)
}

fn check_proofs_complete(ps: &Vec<String>) -> (r: bool)
    ensures
        r == proofs_complete(ps@),
{
    let attempt = chars_of("/attempt-");
    let mut has_prove = false;
    let mut has_attempt = false;
    let mut has_cert = false;
    let mut i: usize = 0;
    while i < ps.len()
        invariant
            i <= ps@.len(),
            attempt@ == "/attempt-"@,
            has_prove == exists|k: int| 0 <= k < i && ends_with(#[trigger] ps@[k]@, "prove.latest.json"@),
            has_attempt == exists|k: int|
                0 <= k < i && mentions(#[trigger] ps@[k]@, "/attempt-"@) && ends_with(ps@[k]@, ".json"@),
            has_cert == exists|k: int| 0 <= k < i && ends_with(#[trigger] ps@[k]@, "certification.report.json"@),
        decreases ps@.len() - i,
    {
        let cs = chars_of(ps[i].as_str());
        if ends_with_exec(&cs, "prove.latest.json") {
            has_prove = true;
        }
        let found = find_first(&cs, &attempt);
        if found.is_some() && ends_with_exec(&cs, ".json") {
            has_attempt = true;
        }
        if ends_with_exec(&cs, "certification.report.json") {
            has_cert = true;
        }
        i = i + 1;
    }
    has_prove && has_attempt && has_cert
}

pub open spec fn first_line_issue(lines: Seq<String>, message: Seq<char>) -> Option<XtaskErrorView> {
    if exists|i: int| 0 <= i < lines.len() && !single_line(#[trigger] lines[i]@) {
        Some(XtaskErrorView::InvalidInput(message))
    } else {
        None
    }
}

fn check_single_lines(lines: &Vec<String>, message: &str) -> (r: Result<(), XtaskError>)
    ensures
        match first_line_issue(lines@, message@) {
            None => r is Ok,
            Some(e) => r matches Err(x) && x@ == e,
        },
{
    let mut i: usize = 0;
    while i < lines.len()
        invariant
            i <= lines@.len(),
            forall|k: int| 0 <= k < i ==> single_line(#[trigger] lines@[k]@),
        decreases lines@.len() - i,
    {
        if !is_single_line(lines[i].as_str()) {
            return Err(invalid(message));
        }
        i = i + 1;
    }
    Ok(())
}

/// The checks of the paths, approvals, commands, proofs and notes a run records.
pub open spec fn execution_body_issue(x: PromotionExecutionArtifact, refusals: Seq<(String, XtaskError)>) -> Option<XtaskErrorView> {
    let rec = existing_path_issue(x.recommendation_path@, "promotion execution recommendation_path"@, refusals);
    if rec is Some {
        rec
    } else if path_file_name(x.recommendation_path@) != Some("recommendation.latest.json"@) {
        Some(
            XtaskErrorView::InvalidInput(
                "promotion execution recommendation_path `"@ + x.recommendation_path@
                    + "` must reference `recommendation.latest.json`"@,
            ),
        )
    } else if x.approvals.target_family.status != ApprovalStatus::Approved {
        Some(XtaskErrorView::InvalidInput("promotion execution approvals.target_family.status must be `approved`"@))
    } else if sorted_issue(x.files_changed@, "promotion execution files_changed"@) is Some {
        sorted_issue(x.files_changed@, "promotion execution files_changed"@)
    } else if first_relative_issue(x.files_changed@, "promotion execution files_changed entry"@) is Some {
        first_relative_issue(x.files_changed@, "promotion execution files_changed entry"@)
    } else if x.commands@.len() == 0 {
        Some(XtaskErrorView::InvalidInput("promotion execution must record at least one command"@))
    } else if first_command_issue(x.commands@, refusals) is Some {
        first_command_issue(x.commands@, refusals)
    } else if x.referenced_proof_artifacts@.len() == 0 {
        Some(XtaskErrorView::InvalidInput("promotion execution must reference proof artifacts"@))
    } else if first_existing_issue(
        x.referenced_proof_artifacts@,
        "promotion execution referenced_proof_artifacts entry"@,
        refusals,
    ) is Some {
        first_existing_issue(
            x.referenced_proof_artifacts@,
            "promotion execution referenced_proof_artifacts entry"@,
            refusals,
        )
    } else if !proofs_complete(x.referenced_proof_artifacts@) {
        Some(
            XtaskErrorView::InvalidInput(
                "promotion execution referenced_proof_artifacts must include prove.latest.json, at least one attempt-*.json, and certification.report.json"@,
            ),
        )
    } else {
        first_line_issue(x.notes@, "promotion execution notes[] must contain single-line factual notes"@)
    }
}

/// The first problem with a run's execution record, in the order the checks run, given
/// the family and run id its path names and what the workspace holds for what it cites.
pub open spec fn execution_issue(
    x: PromotionExecutionArtifact,
    path_family: Seq<char>,
    path_run_id: Seq<char>,
    ws: RunWorkspace,
) -> Option<XtaskErrorView> {
    let fr = family_and_run_issue(x.family@, x.run_id@, path_family, path_run_id);
    let lang = language_issue(x.family@, x.target_language, "promotion execution target_language"@);
    let reference = basis_reference_issue(
        x.analysis_basis_path@,
        x.analysis_basis_sha256@,
        "promotion execution"@,
        ws.analysis_basis,
    );
    let start = start_state_issue(
        x.decision_status_at_start,
        x.open_blockers_at_start@,
        x.missing_or_stale_evidence_at_start@,
        "promotion execution"@,
        ws.analysis_basis,
    );
    if x.schema_version != PROMOTION_EXECUTION_SCHEMA_VERSION {
        Some(
            XtaskErrorView::InvalidInput(
                "promotion execution schema_version must be 2, found "@ + decimal(x.schema_version as nat),
            ),
        )
    } else if x.artifact_kind != PromotionArtifactKind::PromotionExecution {
        Some(XtaskErrorView::InvalidInput("promotion execution artifact_kind must be `promotion_execution`"@))
    } else if fr is Some {
        fr
    } else if lang is Some {
        lang
    } else if reference is Some {
        reference
    } else if start is Some {
        start
    } else {
        execution_body_issue(x, ws.refused_paths@)
    }
}

fn check_execution_body(x: &PromotionExecutionArtifact, refusals: &Vec<(String, XtaskError)>) -> (r: Result<(), XtaskError>)
    ensures
        match execution_body_issue(*x, refusals@) {
            None => r is Ok,
            Some(e) => r matches Err(x) && x@ == e,
        },
{
    proof {
        reveal_strlit("recommendation.latest.json");
    }
    match validate_existing_repo_relative_path(
        x.recommendation_path.as_str(),
        "promotion execution recommendation_path",
        refusals,
    ) {
        Ok(()) => {},
        Err(e) => {
            return Err(e);
        },
    }
    let name_ok = match file_name_of(x.recommendation_path.as_str()) {
        Some(n) => {
            let expected = chars_of("recommendation.latest.json");
            crate::text::seq_eq(&n, &expected)
        },
        None => false,
    };
    if !name_ok {
        let mut m = owned("promotion execution recommendation_path `");
        m.append(x.recommendation_path.as_str());
        m.append("` must reference `recommendation.latest.json`");
        return Err(XtaskError::InvalidInput(m));
    }
    if x.approvals.target_family.status != ApprovalStatus::Approved {
        return Err(invalid("promotion execution approvals.target_family.status must be `approved`"));
    }
    match ensure_repo_relative_paths_sorted(&x.files_changed, "promotion execution files_changed") {
        Ok(()) => {},
        Err(e) => {
            return Err(e);
        },
    }
    match check_relative_paths(&x.files_changed, "promotion execution files_changed entry") {
        Ok(()) => {},
        Err(e) => {
            return Err(e);
        },
    }
    if x.commands.len() == 0 {
        return Err(invalid("promotion execution must record at least one command"));
    }
    match check_commands(&x.commands, refusals) {
        Ok(()) => {},
        Err(e) => {
            return Err(e);
        },
    }
    if x.referenced_proof_artifacts.len() == 0 {
        return Err(invalid("promotion execution must reference proof artifacts"));
    }
    match check_existing_paths(
        &x.referenced_proof_artifacts,
        "promotion execution referenced_proof_artifacts entry",
        refusals,
    ) {
        Ok(()) => {},
        Err(e) => {
            return Err(e);
        },
    }
    if !check_proofs_complete(&x.referenced_proof_artifacts) {
        return Err(
            invalid(
                "promotion execution referenced_proof_artifacts must include prove.latest.json, at least one attempt-*.json, and certification.report.json",
            ),
        );
    }
    check_single_lines(&x.notes, "promotion execution notes[] must contain single-line factual notes")
}

impl PromotionExecutionArtifact {
    /// Accepts the record exactly when [`execution_issue`] finds nothing wrong with it.
    pub fn validate(&self, path_family: &str, path_run_id: &str, workspace: &RunWorkspace) -> (r: Result<(), XtaskError>)
        ensures
            match execution_issue(*self, path_family@, path_run_id@, *workspace) {
                None => r is Ok,
                Some(e) => r matches Err(x) && x@ == e,
            },
    {
        if self.schema_version != PROMOTION_EXECUTION_SCHEMA_VERSION {
            let mut m = owned("promotion execution schema_version must be 2, found ");
            let n = decimal_u64_string(self.schema_version);
            m.append(n.as_str());
            return Err(XtaskError::InvalidInput(m));
        }
        if self.artifact_kind != PromotionArtifactKind::PromotionExecution {
            return Err(invalid("promotion execution artifact_kind must be `promotion_execution`"));
        }
        match validate_family_and_run_id(self.family.as_str(), self.run_id.as_str(), path_family, path_run_id) {
            Ok(()) => {},
            Err(e) => {
                return Err(e);
            },
        }
        match validate_target_language_matches_family(
            self.family.as_str(),
            self.target_language,
            "promotion execution target_language",
        ) {
            Ok(()) => {},
            Err(e) => {
                return Err(e);
            },
        }
        match validate_analysis_basis_reference(
            self.analysis_basis_path.as_str(),
            self.analysis_basis_sha256.as_str(),
            "promotion execution",
            &workspace.analysis_basis,
        ) {
            Ok(()) => {},
            Err(e) => {
                return Err(e);
            },
        }
        match check_start_state(
            self.decision_status_at_start,
            &self.open_blockers_at_start,
            &self.missing_or_stale_evidence_at_start,
            "promotion execution",
            &workspace.analysis_basis,
        ) {
            Ok(()) => {},
            Err(e) => {
                return Err(e);
            },
        }
        check_execution_body(self, &workspace.refused_paths)
    }
}

/// One piece of machine evidence needs a UTC time and a one-line note; a command needs
/// its command line and exit code, and an artifact or diff needs an existing path.
pub open spec fn evidence_issue(e: MachineEvidence, refusals: Seq<(String, XtaskError)>) -> Option<XtaskErrorView> {
    if !utc_timestamp(e.observed_at@) {
        Some(
            XtaskErrorView::InvalidInput(
                "blocker report machine_evidence[].observed_at must be a UTC RFC3339 timestamp"@,
            ),
        )
    } else if !single_line(e.note@) {
        Some(XtaskErrorView::InvalidInput("blocker report machine_evidence[].note must be a single non-empty line"@))
    } else {
        match e.kind {
            MachineEvidenceKind::Command => if (match e.command {
                Some(c) => trim_seq(c@).len() == 0,
                None => true,
            }) || e.exit_code is None {
                Some(
                    XtaskErrorView::InvalidInput(
                        "command machine_evidence entries must include command and exit_code"@,
                    ),
                )
            } else {
                None
            },
            _ => match e.path {
                None => Some(
                    XtaskErrorView::InvalidInput("artifact and diff machine_evidence entries must include path"@),
                ),
                Some(p) => existing_path_issue(p@, "blocker report machine_evidence path"@, refusals),
            },
        }
    }
}

impl MachineEvidence {
    pub fn validate(&self, refusals: &Vec<(String, XtaskError)>) -> (r: Result<(), XtaskError>)
        ensures
            match evidence_issue(*self, refusals@) {
                None => r is Ok,
                Some(e) => r matches Err(x) && x@ == e,
            },
    {
        if !looks_like_utc_timestamp(self.observed_at.as_str()) {
            return Err(invalid("blocker report machine_evidence[].observed_at must be a UTC RFC3339 timestamp"));
        }
        if !is_single_line(self.note.as_str()) {
            return Err(invalid("blocker report machine_evidence[].note must be a single non-empty line"));
        }
        match self.kind {
            MachineEvidenceKind::Command => {
                let blank = match &self.command {
                    Some(c) => is_blank(c.as_str()),
                    None => true,
                };
                if blank || self.exit_code.is_none() {
                    return Err(invalid("command machine_evidence entries must include command and exit_code"));
                }
                Ok(())
            },
            _ => match &self.path {
                None => Err(invalid("artifact and diff machine_evidence entries must include path")),
                Some(p) => validate_existing_repo_relative_path(p.as_str(), "blocker report machine_evidence path", refusals),
            },
        }
    }
}

pub open spec fn first_evidence_issue(es: Seq<MachineEvidence>, refusals: Seq<(String, XtaskError)>) -> Option<XtaskErrorView>
    decreases es.len(),
{
    if es.len() == 0 {
        None
    } else if evidence_issue(es[0], refusals) is Some {
        evidence_issue(es[0], refusals)
    } else {
        first_evidence_issue(es.drop_first(), refusals)
    }
}

fn check_evidence(es: &Vec<MachineEvidence>, refusals: &Vec<(String, XtaskError)>) -> (r: Result<(), XtaskError>)
    ensures
        match first_evidence_issue(es@, refusals@) {
            None => r is Ok,
            Some(e) => r matches Err(x) && x@ == e,
        },
{
    let mut i: usize = 0;
    proof {
        assert(es@.skip(0) =~= es@);
    }
    while i < es.len()
        invariant
            i <= es@.len(),
            first_evidence_issue(es@, refusals@) == first_evidence_issue(es@.skip(i as int), refusals@),
        decreases es@.len() - i,
    {
        proof {
            assert(es@.skip(i as int)[0] == es@[i as int]);
            assert(es@.skip(i as int).drop_first() =~= es@.skip(i + 1));
        }
        match es[i].validate(refusals) {
            Ok(()) => {},
            Err(e) => {
                return Err(e);
            },
        }
        i = i + 1;
    }
    Ok(())
}

/// The checks of a blocker report's own statements.
pub open spec fn blocker_body_issue(b: PromotionBlockerArtifact, refusals: Seq<(String, XtaskError)>) -> Option<XtaskErrorView> {
    if !single_line(b.summary@) {
        Some(XtaskErrorView::InvalidInput("blocker report summary must be a single non-empty line"@))
    } else if b.machine_evidence@.len() == 0 {
        Some(XtaskErrorView::InvalidInput("blocker report machine_evidence[] must not be empty"@))
    } else if first_evidence_issue(b.machine_evidence@, refusals) is Some {
        first_evidence_issue(b.machine_evidence@, refusals)
    } else if !single_line(b.required_human_action@) {
        Some(XtaskErrorView::InvalidInput("blocker report required_human_action must be a single non-empty line"@))
    } else if b.safe_next_actions@.len() == 0 {
        Some(XtaskErrorView::InvalidInput("blocker report safe_next_actions[] must not be empty"@))
    } else {
        first_line_issue(b.safe_next_actions@, "blocker report safe_next_actions[] must contain single-line entries"@)
    }
}

/// The first problem with a blocker report, in the order the checks run, given the family
/// and run id its path names and what the workspace holds for what it cites.
pub open spec fn blocker_issue(
    b: PromotionBlockerArtifact,
    path_family: Seq<char>,
    path_run_id: Seq<char>,
    ws: RunWorkspace,
) -> Option<XtaskErrorView> {
    let fr = family_and_run_issue(b.family@, b.run_id@, path_family, path_run_id);
    let lang = language_issue(b.family@, b.target_language, "blocker report target_language"@);
    let reference = basis_reference_issue(
        b.analysis_basis_path@,
        b.analysis_basis_sha256@,
        "blocker report"@,
        ws.analysis_basis,
    );
    let start = start_state_issue(
        b.decision_status_at_start,
        b.open_blockers_at_start@,
        b.missing_or_stale_evidence_at_start@,
        "blocker report"@,
        ws.analysis_basis,
    );
    if b.schema_version != PROMOTION_BLOCKER_SCHEMA_VERSION {
        Some(
            XtaskErrorView::InvalidInput(
                "blocker report schema_version must be 2, found "@ + decimal(b.schema_version as nat),
            ),
        )
    } else if b.artifact_kind != PromotionArtifactKind::PromotionBlocker {
        Some(XtaskErrorView::InvalidInput("blocker report artifact_kind must be `promotion_blocker`"@))
    } else if fr is Some {
        fr
    } else if lang is Some {
        lang
    } else if reference is Some {
        reference
    } else if start is Some {
        start
    } else {
        blocker_body_issue(b, ws.refused_paths@)
    }
}

fn check_blocker_body(b: &PromotionBlockerArtifact, refusals: &Vec<(String, XtaskError)>) -> (r: Result<(), XtaskError>)
    ensures
        match blocker_body_issue(*b, refusals@) {
            None => r is Ok,
            Some(e) => r matches Err(x) && x@ == e,
        },
{
    if !is_single_line(b.summary.as_str()) {
        return Err(invalid("blocker report summary must be a single non-empty line"));
    }
    if b.machine_evidence.len() == 0 {
        return Err(invalid("blocker report machine_evidence[] must not be empty"));
    }
    match check_evidence(&b.machine_evidence, refusals) {
        Ok(()) => {},
        Err(e) => {
            return Err(e);
        },
    }
    if !is_single_line(b.required_human_action.as_str()) {
        return Err(invalid("blocker report required_human_action must be a single non-empty line"));
    }
    if b.safe_next_actions.len() == 0 {
        return Err(invalid("blocker report safe_next_actions[] must not be empty"));
    }
    check_single_lines(&b.safe_next_actions, "blocker report safe_next_actions[] must contain single-line entries")
}

impl PromotionBlockerArtifact {
    /// Accepts the report exactly when [`blocker_issue`] finds nothing wrong with it.
    pub fn validate(&self, path_family: &str, path_run_id: &str, workspace: &RunWorkspace) -> (r: Result<(), XtaskError>)
        ensures
            match blocker_issue(*self, path_family@, path_run_id@, *workspace) {
                None => r is Ok,
                Some(e) => r matches Err(x) && x@ == e,
            },
    {
        if self.schema_version != PROMOTION_BLOCKER_SCHEMA_VERSION {
            let mut m = owned("blocker report schema_version must be 2, found ");
            let n = decimal_u64_string(self.schema_version);
            m.append(n.as_str());
            return Err(XtaskError::InvalidInput(m));
        }
        if self.artifact_kind != PromotionArtifactKind::PromotionBlocker {
            return Err(invalid("blocker report artifact_kind must be `promotion_blocker`"));
        }
        match validate_family_and_run_id(self.family.as_str(), self.run_id.as_str(), path_family, path_run_id) {
            Ok(()) => {},
            Err(e) => {
                return Err(e);
            },
        }
        match validate_target_language_matches_family(self.family.as_str(), self.target_language, "blocker report target_language") {
            Ok(()) => {},
            Err(e) => {
                return Err(e);
            },
        }
        match validate_analysis_basis_reference(
            self.analysis_basis_path.as_str(),
            self.analysis_basis_sha256.as_str(),
            "blocker report",
            &workspace.analysis_basis,
        ) {
            Ok(()) => {},
            Err(e) => {
                return Err(e);
            },
        }
        match check_start_state(
            self.decision_status_at_start,
            &self.open_blockers_at_start,
            &self.missing_or_stale_evidence_at_start,
            "blocker report",
            &workspace.analysis_basis,
        ) {
            Ok(()) => {},
            Err(e) => {
                return Err(e);
            },
        }
        check_blocker_body(self, &workspace.refused_paths)
    }
}

} // verus!
