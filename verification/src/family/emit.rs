//! The records that the family promotion commands emit: run ids, the recommended
//! candidate, the commands a run executed, and the execution and blocker reports.
use vstd::prelude::*;
use crate::errors::views_of_strings;
use crate::family::artifacts::{FamilyRecommendationAnalysisArtifact, PromotionArtifactKind};
use crate::family::basis_checks::{missing_or_stale_evidence, missing_then_stale};
use crate::family::decision::copy_reasons;
use crate::family::error::{XtaskError, XtaskErrorView};
use crate::family::execution_checks::{
    looks_like_run_id, run_id_ok, ApprovalRecord, ApprovalStatus, BlockerKind, BlockingStep, CommandRecord,
    ExecutionStatus, GateSummary, MachineEvidence, MachineEvidenceKind, PromotionApprovals, PromotionBlockerArtifact,
    PromotionExecutionArtifact, StepGateStatus, PROMOTION_BLOCKER_SCHEMA_VERSION, PROMOTION_EXECUTION_SCHEMA_VERSION,
};
use crate::family::language::{recorded_language, typescript_family, typescript_refusal, validate_target_language, FamilyTargetLanguage, TargetLanguage};
use crate::family::order::{lemma_lex_total, lex_less, lex_lt};
use crate::family::paths::{views_of, FamilyId, FAMILY_RECOMMENDATION_ANALYSIS_LATEST_PATH};
use crate::family::recommendation_checks::{FamilyRecommendationArtifact, RankedCandidate, FAMILY_RECOMMENDATION_SCHEMA_VERSION};
use crate::family::report::{alnum_only, copy_strings, forward_slashes, looks_like_utc_timestamp, normalize_path, utc_timestamp};
use crate::family::attestation::{lines_of, text_lines};
use crate::family::tally::{insert_sorted, sorted_set_of};
use crate::text::{
    chars_of, ends_with, ends_with_exec, owned, push_char, starts_with, starts_with_exec, str_eq, string_of, trim_chars, trim_seq,
    views,
};
use crate::unit_ref::opt_view;

verus! {

/// The run id of a run started at `generated_at`: its letters and digits, `-`, the family.
pub open spec fn run_id_of(generated_at: Seq<char>, family: Seq<char>) -> Seq<char> {
    alnum_only(generated_at) + "-"@ + family
}

fn alnum_string(s: &str) -> (r: String)
    ensures
        r@ == alnum_only(s@),
{
    let cs = chars_of(s);
    let mut out = String::new();
    let mut i: usize = 0;
    while i < cs.len()
        invariant
            i <= cs@.len(),
            cs@ == s@,
            out@ == alnum_only(cs@.take(i as int)),
        decreases cs@.len() - i,
    {
        let c = cs[i];
        proof {
            assert(cs@.take(i + 1).drop_last() =~= cs@.take(i as int));
        }
        if ('a' <= c && c <= 'z') || ('A' <= c && c <= 'Z') || ('0' <= c && c <= '9') {
            push_char(&mut out, c);
        }
        i = i + 1;
    }
    proof {
        assert(cs@.take(cs@.len() as int) =~= cs@);
    }
    out
}

/// The run id for a run started at `generated_at`, which must be a UTC timestamp.
pub fn format_run_id(generated_at: &str, family: &str) -> (r: Result<String, XtaskError>)
    ensures
        utc_timestamp(generated_at@) ==> (r matches Ok(id) && id@ == run_id_of(generated_at@, family@)),
        !utc_timestamp(generated_at@) ==> (r matches Err(e) && e@ == XtaskErrorView::InvalidInput(
            "generated_at `"@ + generated_at@ + "` must be a UTC RFC3339 timestamp"@,
        )),
{
    if !looks_like_utc_timestamp(generated_at) {
        let mut m = owned("generated_at `");
        m.append(generated_at);
        m.append("` must be a UTC RFC3339 timestamp");
        return Err(XtaskError::InvalidInput(m));
    }
    let mut id = alnum_string(generated_at);
    id.append("-");
    id.append(family);
    Ok(id)
}

pub open spec fn monotone_up_candidate(c: RankedCandidate) -> bool {
    &&& c.family@ == "function.arithmetic_leaf.monotone_up.v1"@
    &&& views_of(c.evidence@) == seq![
        "examples/ecommerce/units/pricing/apply_tax.unit.spec"@,
        "semantic-families/function.arithmetic_leaf.monotone_up.v1/candidate.md"@,
        "spec-cli/tests/m14_regressions.rs"@,
    ]
    &&& c.expected_leverage@
        == "Proves one bounded second-language promotion path on an already-supported monotone-up leaf family."@
    &&& views_of(c.expected_risks@) == seq![
        "Read-side truth and promotion artifacts must stay explicit about TypeScript being bounded to this pilot."@,
    ]
}

pub open spec fn wrapper_pipeline_candidate(c: RankedCandidate) -> bool {
    &&& c.family@ == "function.wrapper.pipeline.v1"@
    &&& views_of(c.evidence@) == seq![
        "examples/ecommerce/units/pricing/calculate_total.unit.spec"@,
        "semantic-families/function.wrapper.pipeline.v1/candidate.md"@,
        "spec-cli/tests/m14_regressions.rs"@,
    ]
    &&& c.expected_leverage@
        == "Extends proof pressure from leaf math to a wrapper family without changing the public command surface."@
    &&& views_of(c.expected_risks@) == seq![
        "Routing order and comparator-family expectations must remain stable while packet truth shifts."@,
    ]
}

fn strings3(a: &str, b: &str, c: &str) -> (r: Vec<String>)
    ensures
        views_of(r@) == seq![a@, b@, c@],
{
    let r = vec![owned(a), owned(b), owned(c)];
    proof {
        assert(views_of(r@) =~= seq![a@, b@, c@]);
    }
    r
}

fn strings1(a: &str) -> (r: Vec<String>)
    ensures
        views_of(r@) == seq![a@],
{
    let r = vec![owned(a)];
    proof {
        assert(views_of(r@) =~= seq![a@]);
    }
    r
}

/// The candidate a family-scoped recommendation ranks; only the two families with a
/// second-language pilot have one.
pub fn ranked_candidate_for_family(family: &FamilyId) -> (r: Result<RankedCandidate, XtaskError>)
    ensures
        family@ == "function.arithmetic_leaf.monotone_up.v1"@ ==> (r matches Ok(c) && monotone_up_candidate(c)),
        family@ == "function.wrapper.pipeline.v1"@ ==> (r matches Ok(c) && wrapper_pipeline_candidate(c)),
        family@ != "function.arithmetic_leaf.monotone_up.v1"@ && family@ != "function.wrapper.pipeline.v1"@ ==> (r matches Err(
            e,
        ) && e@ == XtaskErrorView::InvalidInput(
            "family refresh-promotion-recommendation does not support `"@ + family@ + "`"@,
        )),
{
    let id = family.as_str();
    proof {
        reveal_strlit("function.arithmetic_leaf.monotone_up.v1");
        reveal_strlit("function.wrapper.pipeline.v1");
        assert("function.arithmetic_leaf.monotone_up.v1"@.len() != "function.wrapper.pipeline.v1"@.len());
    }
    if str_eq(id, "function.arithmetic_leaf.monotone_up.v1") {
        Ok(RankedCandidate {
            family: owned(id),
            evidence: strings3(
                "examples/ecommerce/units/pricing/apply_tax.unit.spec",
                "semantic-families/function.arithmetic_leaf.monotone_up.v1/candidate.md",
                "spec-cli/tests/m14_regressions.rs",
            ),
            expected_leverage: owned(
                "Proves one bounded second-language promotion path on an already-supported monotone-up leaf family.",
            ),
            expected_risks: strings1(
                "Read-side truth and promotion artifacts must stay explicit about TypeScript being bounded to this pilot.",
            ),
        })
    } else if str_eq(id, "function.wrapper.pipeline.v1") {
        Ok(RankedCandidate {
            family: owned(id),
            evidence: strings3(
                "examples/ecommerce/units/pricing/calculate_total.unit.spec",
                "semantic-families/function.wrapper.pipeline.v1/candidate.md",
                "spec-cli/tests/m14_regressions.rs",
            ),
            expected_leverage: owned(
                "Extends proof pressure from leaf math to a wrapper family without changing the public command surface.",
            ),
            expected_risks: strings1(
                "Routing order and comparator-family expectations must remain stable while packet truth shifts.",
            ),
        })
    } else {
        let mut m = owned("family refresh-promotion-recommendation does not support `");
        m.append(id);
        m.append("`");
        Err(XtaskError::InvalidInput(m))
    }
}

/// Where a family's prove and certify outputs are kept.
pub open spec fn proof_artifact_dir(family: Seq<char>) -> Seq<char> {
    ".semantic-family-artifacts/semantic-families/"@ + family
}

pub fn proof_artifact_dir_string(family: &FamilyId) -> (r: String)
    ensures
        r@ == proof_artifact_dir(family@),
{
    let mut out = owned(".semantic-family-artifacts/semantic-families/");
    out.append(family.packet_dir_name());
    out
}

/// `c` records the step `step` run as `command`, exiting 0, at `ts`, leaving `path`.
pub open spec fn command_record_is(c: CommandRecord, step: Seq<char>, command: Seq<char>, ts: Seq<char>, path: Seq<char>) -> bool {
    &&& c.step@ == step
    &&& c.command@ == command
    &&& c.exit_code == 0
    &&& c.started_at@ == ts
    &&& c.finished_at@ == ts
    &&& opt_view(c.artifact_path) == Some(path)
}

/// The commands a green promotion run records: the Rust prove and certify, and the
/// TypeScript ones when TypeScript is the target.
pub open spec fn execution_commands(cs: Seq<CommandRecord>, family: Seq<char>, target: FamilyTargetLanguage, ts: Seq<char>) -> bool {
    let prove = proof_artifact_dir(family) + "/prove.latest.json"@;
    let cert = proof_artifact_dir(family) + "/certification.report.json"@;
    &&& cs.len() == if target == FamilyTargetLanguage::Typescript {
        4int
    } else {
        2int
    }
    &&& command_record_is(cs[0], "rust_prove"@, "cargo xtask family prove "@ + family, ts, prove)
    &&& command_record_is(cs[1], "rust_certify"@, "cargo xtask family certify "@ + family, ts, cert)
    &&& target == FamilyTargetLanguage::Typescript ==> {
        &&& command_record_is(
            cs[2],
            "typescript_prove"@,
            "cargo xtask family prove "@ + family + " --target-language typescript"@,
            ts,
            prove,
        )
        &&& command_record_is(
            cs[3],
            "typescript_certify"@,
            "cargo xtask family certify "@ + family + " --target-language typescript"@,
            ts,
            cert,
        )
    }
}

fn command_record(step: &str, verb: &str, family: &str, suffix: &str, ts: &str, path: &str) -> (c: CommandRecord)
    ensures
        command_record_is(c, step@, "cargo xtask family "@ + verb@ + " "@ + family@ + suffix@, ts@, path@),
{
    let mut command = owned("cargo xtask family ");
    command.append(verb);
    command.append(" ");
    command.append(family);
    command.append(suffix);
    CommandRecord {
        step: owned(step),
        command,
        exit_code: 0,
        started_at: owned(ts),
        finished_at: owned(ts),
        artifact_path: Some(owned(path)),
    }
}

pub fn command_records_for_execution(family: &FamilyId, target_language: FamilyTargetLanguage, timestamp: &str) -> (r: Vec<
    CommandRecord,
>)
    ensures
        execution_commands(r@, family@, target_language, timestamp@),
{
    let dir = proof_artifact_dir_string(family);
    let mut prove_path = owned(dir.as_str());
    prove_path.append("/prove.latest.json");
    let mut certification_path = owned(dir.as_str());
    certification_path.append("/certification.report.json");
    let id = family.as_str();
    let mut commands: Vec<CommandRecord> = Vec::new();
    commands.push(command_record("rust_prove", "prove", id, "", timestamp, prove_path.as_str()));
    commands.push(command_record("rust_certify", "certify", id, "", timestamp, certification_path.as_str()));
    if target_language == FamilyTargetLanguage::Typescript {
        commands.push(
            command_record(
                "typescript_prove",
                "prove",
                id,
                " --target-language typescript",
                timestamp,
                prove_path.as_str(),
            ),
        );
        commands.push(
            command_record(
                "typescript_certify",
                "certify",
                id,
                " --target-language typescript",
                timestamp,
                certification_path.as_str(),
            ),
        );
    }
    proof {
        reveal_strlit("");
        reveal_strlit("prove");
        reveal_strlit("certify");
        reveal_strlit(" ");
        reveal_strlit("cargo xtask family ");
        reveal_strlit("cargo xtask family prove ");
        reveal_strlit("cargo xtask family certify ");
        assert("cargo xtask family "@ + "prove"@ + " "@ + id@ + ""@ =~= "cargo xtask family prove "@ + family@);
        assert("cargo xtask family "@ + "certify"@ + " "@ + id@ + ""@ =~= "cargo xtask family certify "@ + family@);
        assert("cargo xtask family "@ + "prove"@ + " "@ + id@ + " --target-language typescript"@ =~= "cargo xtask family prove "@
            + family@ + " --target-language typescript"@);
        assert("cargo xtask family "@ + "certify"@ + " "@ + id@ + " --target-language typescript"@
            =~= "cargo xtask family certify "@ + family@ + " --target-language typescript"@);
    }
    commands
}

/// A file name of a certify attempt record.
pub open spec fn is_attempt_name(name: Seq<char>) -> bool {
    starts_with(name, "attempt-"@) && ends_with(name, ".json"@)
}

/// `i` is the attempt name that sorts last among `names`.
pub open spec fn is_latest_attempt(names: Seq<Seq<char>>, i: int) -> bool {
    &&& 0 <= i < names.len()
    &&& is_attempt_name(names[i])
    &&& forall|j: int| 0 <= j < names.len() && is_attempt_name(#[trigger] names[j]) ==> !lex_lt(names[i], names[j])
}

/// The latest certify attempt among the file names of a directory: the attempt name that
/// sorts last; `None` when there is none.
pub fn latest_attempt_name(names: &Vec<String>) -> (r: Option<usize>)
    ensures
        match r {
            Some(i) => is_latest_attempt(views_of(names@), i as int),
            None => forall|j: int| 0 <= j < names@.len() ==> !is_attempt_name(#[trigger] views_of(names@)[j]),
        },
{
    let ghost ns = views_of(names@);
    let mut best: Option<usize> = None;
    let mut i: usize = 0;
    while i < names.len()
        invariant
            i <= names@.len(),
            ns == views_of(names@),
            match best {
                Some(b) => b < i && is_attempt_name(ns[b as int]) && forall|j: int|
                    0 <= j < i && is_attempt_name(#[trigger] ns[j]) ==> !lex_lt(ns[b as int], ns[j]),
                None => forall|j: int| 0 <= j < i ==> !is_attempt_name(#[trigger] ns[j]),
            },
        decreases names@.len() - i,
    {
        let cs = chars_of(names[i].as_str());
        proof {
            assert(ns[i as int] == names@[i as int]@);
        }
        if starts_with_exec(&cs, "attempt-") && ends_with_exec(&cs, ".json") {
            match best {
                None => {
                    best = Some(i);
                    proof {
                        crate::family::order::lemma_lex_irreflexive(ns[i as int]);
                    }
                },
                Some(b) => {
                    let bs = chars_of(names[b].as_str());
                    proof {
                        assert(ns[b as int] == names@[b as int]@);
                    }
                    if !lex_less(&cs, &bs) {
                        proof {
                            lemma_lex_total(ns[i as int], ns[b as int]);
                            assert forall|j: int| 0 <= j < i + 1 && is_attempt_name(#[trigger] ns[j]) implies !lex_lt(
                                ns[i as int],
                                ns[j],
                            ) by {
                                lemma_lex_total(ns[i as int], ns[j]);
                                if j < i && lex_lt(ns[i as int], ns[j]) {
                                    lemma_lex_total(ns[b as int], ns[j]);
                                    if ns[b as int] != ns[i as int] {
                                        crate::family::order::lemma_lex_transitive(ns[b as int], ns[i as int], ns[j]);
                                    }
                                }
                                if j == i {
                                    crate::family::order::lemma_lex_irreflexive(ns[i as int]);
                                }
                            }
                        }
                        best = Some(i);
                    } else {
                        proof {
                            lemma_lex_total(ns[i as int], ns[b as int]);
                        }
                    }
                },
            }
        }
        i = i + 1;
    }
    best
}

/// The path of the latest certify attempt in `prove_dir`, given the file names it holds.
pub fn latest_attempt_relative_path(prove_dir: &str, names: &Vec<String>) -> (r: Result<String, XtaskError>)
    ensures
        match r {
            Ok(p) => exists|i: int|
                is_latest_attempt(views_of(names@), i) && p@ == prove_dir@ + "/"@ + #[trigger] views_of(names@)[i],
            Err(e) => e@ == XtaskErrorView::InvalidInput(
                "no attempt-*.json artifact exists under `"@ + prove_dir@ + "`"@,
            ) && forall|j: int| 0 <= j < names@.len() ==> !is_attempt_name(#[trigger] views_of(names@)[j]),
        },
{
    match latest_attempt_name(names) {
        Some(i) => {
            let mut p = owned(prove_dir);
            p.append("/");
            p.append(names[i].as_str());
            proof {
                assert(views_of(names@)[i as int] == names@[i as int]@);
            }
            Ok(p)
        },
        None => {
            let mut m = owned("no attempt-*.json artifact exists under `");
            m.append(prove_dir);
            m.append("`");
            Err(XtaskError::InvalidInput(m))
        },
    }
}

/// What an emit command checks before it reads anything: the target language suits the
/// family and the run id has the family's shape.
pub open spec fn emit_request_issue(
    family: Seq<char>,
    target: FamilyTargetLanguage,
    run_id: Seq<char>,
    command: Seq<char>,
) -> Option<XtaskErrorView> {
    if !(target == FamilyTargetLanguage::Rust || typescript_family(family)) {
        Some(XtaskErrorView::InvalidInput(typescript_refusal(command)))
    } else if !run_id_ok(run_id, family) {
        Some(
            XtaskErrorView::InvalidInput(
                "run_id `"@ + run_id + "` must match `{UTC-basic-timestamp}-"@ + family + "`"@,
            ),
        )
    } else {
        None
    }
}

pub fn check_emit_request(
    family: &FamilyId,
    target_language: FamilyTargetLanguage,
    run_id: &str,
    command: &str,
) -> (r: Result<(), XtaskError>)
    ensures
        match emit_request_issue(family@, target_language, run_id@, command@) {
            None => r is Ok,
            Some(e) => r matches Err(x) && x@ == e,
        },
{
    match validate_target_language(family, target_language, command) {
        Err(e) => {
            return Err(e);
        },
        Ok(()) => {},
    }
    if !looks_like_run_id(run_id, family.as_str()) {
        let mut m = owned("run_id `");
        m.append(run_id);
        m.append("` must match `{UTC-basic-timestamp}-");
        m.append(family.as_str());
        m.append("`");
        return Err(XtaskError::InvalidInput(m));
    }
    Ok(())
}

/// The record of a green promotion run, built from what the run found: the changed files,
/// the time, the analysis basis and its digest, and the latest certify attempt.
pub fn promotion_execution_artifact(
    family: &FamilyId,
    run_id: &str,
    recommendation_path: &str,
    target_language: FamilyTargetLanguage,
    analysis_basis: &FamilyRecommendationAnalysisArtifact,
    analysis_basis_sha256: String,
    files_changed: Vec<String>,
    timestamp: &str,
    latest_attempt: &str,
) -> (r: PromotionExecutionArtifact)
    ensures
        r.schema_version == PROMOTION_EXECUTION_SCHEMA_VERSION,
        r.artifact_kind == PromotionArtifactKind::PromotionExecution,
        r.run_id@ == run_id@,
        r.family@ == family@,
        r.target_language == recorded_language(target_language),
        r.status == ExecutionStatus::Green,
        r.recommendation_path@ == recommendation_path@,
        r.analysis_basis_path@ == FAMILY_RECOMMENDATION_ANALYSIS_LATEST_PATH@,
        r.analysis_basis_sha256 == analysis_basis_sha256,
        r.decision_status_at_start == analysis_basis.decision_summary.decision_status,
        r.open_blockers_at_start@ == analysis_basis.decision_summary.open_blockers@,
        r.missing_or_stale_evidence_at_start@ == missing_then_stale(
            analysis_basis.evidence_summary.missing_evidence@,
            analysis_basis.evidence_summary.stale_evidence@,
        ),
        r.approvals == (PromotionApprovals {
            target_family: ApprovalRecord { status: ApprovalStatus::Approved },
            final_output: ApprovalRecord { status: ApprovalStatus::Pending },
        }),
        r.files_changed == files_changed,
        execution_commands(r.commands@, family@, target_language, timestamp@),
        views_of(r.referenced_proof_artifacts@) == seq![
            forward_slashes(proof_artifact_dir(family@) + "/prove.latest.json"@),
            forward_slashes(latest_attempt@),
            forward_slashes(proof_artifact_dir(family@) + "/certification.report.json"@),
        ],
        r.iterations == 1,
        r.gate_summary == (GateSummary {
            smoke: StepGateStatus::Pass,
            prove: StepGateStatus::Pass,
            certify: StepGateStatus::Pass,
        }),
        views_of(r.notes@) == seq![
            "Rust-default and requested target-language proof loops were rerun before artifact emission."@,
            "Referenced proof artifacts point at the latest merged-state prove, attempt, and certification outputs."@,
        ],
{
    let dir = proof_artifact_dir_string(family);
    let mut prove_latest = owned(dir.as_str());
    prove_latest.append("/prove.latest.json");
    let mut certification = owned(dir.as_str());
    certification.append("/certification.report.json");
    let referenced = vec![
        normalize_path(prove_latest.as_str()),
        normalize_path(latest_attempt),
        normalize_path(certification.as_str()),
    ];
    let notes = vec![
        owned("Rust-default and requested target-language proof loops were rerun before artifact emission."),
        owned("Referenced proof artifacts point at the latest merged-state prove, attempt, and certification outputs."),
    ];
    proof {
        assert(views_of(referenced@) =~= seq![
            forward_slashes(proof_artifact_dir(family@) + "/prove.latest.json"@),
            forward_slashes(latest_attempt@),
            forward_slashes(proof_artifact_dir(family@) + "/certification.report.json"@),
        ]);
        assert(views_of(notes@) =~= seq![
            "Rust-default and requested target-language proof loops were rerun before artifact emission."@,
            "Referenced proof artifacts point at the latest merged-state prove, attempt, and certification outputs."@,
        ]);
    }
    PromotionExecutionArtifact {
        schema_version: PROMOTION_EXECUTION_SCHEMA_VERSION,
        artifact_kind: PromotionArtifactKind::PromotionExecution,
        run_id: owned(run_id),
        family: owned(family.as_str()),
        target_language: TargetLanguage::from_family_target_language(target_language),
        status: ExecutionStatus::Green,
        recommendation_path: owned(recommendation_path),
        analysis_basis_path: owned(FAMILY_RECOMMENDATION_ANALYSIS_LATEST_PATH),
        analysis_basis_sha256,
        decision_status_at_start: analysis_basis.decision_summary.decision_status,
        open_blockers_at_start: copy_reasons(&analysis_basis.decision_summary.open_blockers),
        missing_or_stale_evidence_at_start: missing_or_stale_evidence(analysis_basis),
        approvals: PromotionApprovals {
            target_family: ApprovalRecord { status: ApprovalStatus::Approved },
            final_output: ApprovalRecord { status: ApprovalStatus::Pending },
        },
        files_changed,
        commands: command_records_for_execution(family, target_language, timestamp),
        referenced_proof_artifacts: referenced,
        iterations: 1,
        gate_summary: GateSummary { smoke: StepGateStatus::Pass, prove: StepGateStatus::Pass, certify: StepGateStatus::Pass },
        notes,
    }
}

/// The kind of the machine evidence behind a blocker: an artifact when only a path is
/// given, a diff when a path and a command are, a command otherwise.
pub open spec fn evidence_kind_of(has_path: bool, has_command: bool) -> MachineEvidenceKind {
    if has_path && !has_command {
        MachineEvidenceKind::Artifact
    } else if has_path {
        MachineEvidenceKind::Diff
    } else {
        MachineEvidenceKind::Command
    }
}

pub fn machine_evidence_kind(has_path: bool, has_command: bool) -> (r: MachineEvidenceKind)
    ensures
        r == evidence_kind_of(has_path, has_command),
{
    if has_path && !has_command {
        MachineEvidenceKind::Artifact
    } else if has_path {
        MachineEvidenceKind::Diff
    } else {
        MachineEvidenceKind::Command
    }
}

/// What a blocker report records beyond the run and its basis.
#[derive(Debug, Clone)]
pub struct BlockerRequest {
    pub blocking_step: BlockingStep,
    pub blocker_kind: BlockerKind,
    pub summary: String,
    pub required_human_action: String,
    pub safe_next_actions: Vec<String>,
    pub evidence_command: Option<String>,
    pub evidence_exit_code: Option<i32>,
    pub evidence_path: Option<String>,
    pub evidence_note: String,
}

/// The report of a promotion run that stopped on a blocker, observed at `observed_at`.
pub fn promotion_blocker_artifact(
    family: &FamilyId,
    run_id: &str,
    target_language: FamilyTargetLanguage,
    analysis_basis: &FamilyRecommendationAnalysisArtifact,
    analysis_basis_sha256: String,
    request: BlockerRequest,
    observed_at: String,
) -> (r: PromotionBlockerArtifact)
    ensures
        r.schema_version == PROMOTION_BLOCKER_SCHEMA_VERSION,
        r.artifact_kind == PromotionArtifactKind::PromotionBlocker,
        r.run_id@ == run_id@,
        r.family@ == family@,
        r.target_language == recorded_language(target_language),
        r.analysis_basis_path@ == FAMILY_RECOMMENDATION_ANALYSIS_LATEST_PATH@,
        r.analysis_basis_sha256 == analysis_basis_sha256,
        r.decision_status_at_start == analysis_basis.decision_summary.decision_status,
        r.open_blockers_at_start@ == analysis_basis.decision_summary.open_blockers@,
        r.missing_or_stale_evidence_at_start@ == missing_then_stale(
            analysis_basis.evidence_summary.missing_evidence@,
            analysis_basis.evidence_summary.stale_evidence@,
        ),
        r.blocking_step == request.blocking_step,
        r.blocker_kind == request.blocker_kind,
        r.summary == request.summary,
        r.machine_evidence@.len() == 1,
        r.machine_evidence@[0].kind == evidence_kind_of(
            request.evidence_path is Some,
            request.evidence_command is Some,
        ),
        r.machine_evidence@[0].path == request.evidence_path,
        r.machine_evidence@[0].command == request.evidence_command,
        r.machine_evidence@[0].exit_code == request.evidence_exit_code,
        r.machine_evidence@[0].observed_at == observed_at,
        r.machine_evidence@[0].note == request.evidence_note,
        r.required_human_action == request.required_human_action,
        r.safe_next_actions == request.safe_next_actions,
{
    let kind = machine_evidence_kind(request.evidence_path.is_some(), request.evidence_command.is_some());
    let evidence = MachineEvidence {
        kind,
        path: request.evidence_path,
        command: request.evidence_command,
        exit_code: request.evidence_exit_code,
        observed_at,
        note: request.evidence_note,
    };
    PromotionBlockerArtifact {
        schema_version: PROMOTION_BLOCKER_SCHEMA_VERSION,
        artifact_kind: PromotionArtifactKind::PromotionBlocker,
        run_id: owned(run_id),
        family: owned(family.as_str()),
        target_language: TargetLanguage::from_family_target_language(target_language),
        analysis_basis_path: owned(FAMILY_RECOMMENDATION_ANALYSIS_LATEST_PATH),
        analysis_basis_sha256,
        decision_status_at_start: analysis_basis.decision_summary.decision_status,
        open_blockers_at_start: copy_reasons(&analysis_basis.decision_summary.open_blockers),
        missing_or_stale_evidence_at_start: missing_or_stale_evidence(analysis_basis),
        blocking_step: request.blocking_step,
        blocker_kind: request.blocker_kind,
        summary: request.summary,
        machine_evidence: vec![evidence],
        required_human_action: request.required_human_action,
        safe_next_actions: request.safe_next_actions,
    }
}

/// A family-scoped recommendation of the family's ranked candidate, tied to the analysis
/// basis it was derived from; refused for families without a candidate.
pub fn family_recommendation_artifact(
    family: &FamilyId,
    target_language: FamilyTargetLanguage,
    generated_at: String,
    inventory_path: &str,
    inventory_sha256: String,
    analysis_basis: &FamilyRecommendationAnalysisArtifact,
    analysis_basis_sha256: String,
) -> (r: Result<FamilyRecommendationArtifact, XtaskError>)
    ensures
        match r {
            Ok(a) => {
                &&& a.schema_version == FAMILY_RECOMMENDATION_SCHEMA_VERSION
                &&& a.artifact_kind == PromotionArtifactKind::FamilyRecommendation
                &&& a.generated_at == generated_at
                &&& a.inventory_path@ == forward_slashes(inventory_path@)
                &&& a.inventory_sha256 == inventory_sha256
                &&& a.target_language == recorded_language(target_language)
                &&& a.ranked_candidates@.len() == 1
                &&& (monotone_up_candidate(a.ranked_candidates@[0]) || wrapper_pipeline_candidate(a.ranked_candidates@[0]))
                &&& a.ranked_candidates@[0].family@ == family@
                &&& opt_view(a.analysis_basis_path) == Some(FAMILY_RECOMMENDATION_ANALYSIS_LATEST_PATH@)
                &&& a.analysis_basis_sha256 == Some(analysis_basis_sha256)
                &&& a.decision_status == Some(analysis_basis.decision_summary.decision_status)
                &&& a.open_blockers matches Some(b) && b@ == analysis_basis.decision_summary.open_blockers@
                &&& a.missing_or_stale_evidence matches Some(m) && m@ == missing_then_stale(
                    analysis_basis.evidence_summary.missing_evidence@,
                    analysis_basis.evidence_summary.stale_evidence@,
                )
            },
            Err(e) => e@ == XtaskErrorView::InvalidInput(
                "family refresh-promotion-recommendation does not support `"@ + family@ + "`"@,
            ),
        },
        (family@ == "function.arithmetic_leaf.monotone_up.v1"@ || family@ == "function.wrapper.pipeline.v1"@) <==> r is Ok,
{
    let candidate = match ranked_candidate_for_family(family) {
        Ok(c) => c,
        Err(e) => {
            return Err(e);
        },
    };
    Ok(FamilyRecommendationArtifact {
        schema_version: FAMILY_RECOMMENDATION_SCHEMA_VERSION,
        artifact_kind: PromotionArtifactKind::FamilyRecommendation,
        generated_at,
        inventory_path: normalize_path(inventory_path),
        inventory_sha256,
        target_language: TargetLanguage::from_family_target_language(target_language),
        ranked_candidates: vec![candidate],
        analysis_basis_path: Some(owned(FAMILY_RECOMMENDATION_ANALYSIS_LATEST_PATH)),
        analysis_basis_sha256: Some(analysis_basis_sha256),
        decision_status: Some(analysis_basis.decision_summary.decision_status),
        open_blockers: Some(copy_reasons(&analysis_basis.decision_summary.open_blockers)),
        missing_or_stale_evidence: Some(missing_or_stale_evidence(analysis_basis)),
    })
}

/// Line `i` of `lines`, trimmed, is the non-empty path `p`.
pub open spec fn lists_path(lines: Seq<Seq<char>>, i: int, p: Seq<char>) -> bool {
    0 <= i < lines.len() && trim_seq(lines[i]) == p && p.len() > 0
}

/// The paths a `git diff --name-only` listing names: its lines, trimmed, blank ones left out.
pub open spec fn listed_paths(stdout: Seq<char>) -> Set<Seq<char>> {
    Set::new(|p: Seq<char>| exists|i: int| #[trigger] lists_path(text_lines(stdout), i, p))
}

/// The changed paths of a `git diff --name-only` listing, each once, in string order.
pub fn changed_paths(stdout: &str) -> (r: Vec<String>)
    ensures
        sorted_set_of(views_of(r@), listed_paths(stdout@)),
{
    let lines = lines_of(stdout);
    let ghost ls = text_lines(stdout@);
    let mut out: Vec<String> = Vec::new();
    let mut i: usize = 0;
    proof {
        assert(views_of(out@).to_set() =~= Set::new(|p: Seq<char>| exists|w: int| #[trigger] lists_path(ls.take(0), w, p)));
    }
    while i < lines.len()
        invariant
            i <= lines@.len(),
            views(lines@) == ls,
            ls == text_lines(stdout@),
            sorted_set_of(
                views_of(out@),
                Set::new(|p: Seq<char>| exists|w: int| #[trigger] lists_path(ls.take(i as int), w, p)),
            ),
        decreases lines@.len() - i,
    {
        let t = trim_chars(&lines[i]);
        let ghost l0 = ls.take(i as int);
        let ghost l1 = ls.take(i + 1);
        let ghost before = views_of(out@).to_set();
        proof {
            assert(ls[i as int] == lines@[i as int]@);
            assert(l1[i as int] == ls[i as int]);
        }
        if t.len() > 0 {
            let path = string_of(&t);
            insert_sorted(&mut out, path.as_str());
            proof {
                let s1 = Set::new(|p: Seq<char>| exists|w: int| #[trigger] lists_path(l1, w, p));
                assert(s1 =~= before.insert(t@)) by {
                    assert forall|p: Seq<char>| s1.contains(p) implies before.insert(t@).contains(p) by {
                        let w = choose|w: int| lists_path(l1, w, p);
                        if w < i {
                            assert(l0[w] == l1[w]);
                            assert(lists_path(l0, w, p));
                        }
                    }
                    assert forall|p: Seq<char>| before.insert(t@).contains(p) implies s1.contains(p) by {
                        if p == t@ {
                            assert(lists_path(l1, i as int, p));
                        } else {
                            let w = choose|w: int| lists_path(l0, w, p);
                            assert(l0[w] == l1[w]);
                            assert(lists_path(l1, w, p));
                        }
                    }
                }
            }
        } else {
            proof {
                let s1 = Set::new(|p: Seq<char>| exists|w: int| #[trigger] lists_path(l1, w, p));
                assert(s1 =~= before) by {
                    assert forall|p: Seq<char>| s1.contains(p) implies before.contains(p) by {
                        let w = choose|w: int| lists_path(l1, w, p);
                        assert(l0[w] == l1[w]);
                        assert(lists_path(l0, w, p));
                    }
                    assert forall|p: Seq<char>| before.contains(p) implies s1.contains(p) by {
                        let w = choose|w: int| lists_path(l0, w, p);
                        assert(l0[w] == l1[w]);
                        assert(lists_path(l1, w, p));
                    }
                }
            }
        }
        i = i + 1;
    }
    proof {
        assert(ls.take(lines@.len() as int) =~= ls);
    }
    out
}

} // verus!
