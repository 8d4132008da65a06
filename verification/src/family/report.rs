//! Certification reports: gates, suites, and the report written for each artifact kind.
use vstd::prelude::*;
use crate::family::attestation::{
    attest_suite_output, attestation_passes, chars_are, lines_of, names_of, output_attestations, str_views,
    text_lines, CommandOutput, SuiteDefinition,
};
use crate::errors::views_of_strings;
use crate::seam::{join_commas, join_commas_string};
use crate::text::{is_ascii_alnum, push_char};
use crate::family::paths::{join_path, join_path_string, PacketPaths};
use crate::family::order::{
    in_string_order, lemma_lex_total, lemma_lex_transitive, lex_le, lex_less, lex_lt, sort_strings,
};
use crate::family::analysis_checks::{sha256_digest, sha256_of};
use vstd::relations::sorted_by;
use crate::family::error::{XtaskError, XtaskErrorView};
use crate::family::paths::{family_id_ok, family_id_pattern_message, views_of, FamilyId};
use crate::family::language::{
    recorded_language, typescript_family, typescript_refusal, validate_target_language,
    FamilyTargetLanguage, TargetLanguage,
};
use crate::seam::{decimal, decimal_u64_string};
use crate::text::{
    chars_of, concat, first_match, lemma_split_nonempty, owned, split_chars, split_seq, starts_with,
    starts_with_exec, string_of, tail_from, trim_chars, trim_seq, views,
};

verus! {

pub const REPORT_SCHEMA_VERSION: u64 = 3;

pub const MANIFEST_SCHEMA_VERSION: u64 = 2;

pub const PROVE_ARTIFACT_NAME: &'static str = "prove.latest.json";

pub const CERTIFY_ARTIFACT_NAME: &'static str = "certification.report.json";

/// Whether a gate, a phase or a suite passed.
#[derive(Debug, Clone, Copy, PartialEq, Eq, Structural)]
pub enum PassFail {
    Pass,
    Fail,
}

impl PassFail {
    pub fn from_passed(passed: bool) -> (r: PassFail)
        ensures
            r == pass_fail(passed),
    {
        if passed {
            PassFail::Pass
        } else {
            PassFail::Fail
        }
    }

    pub fn is_pass(&self) -> (r: bool)
        ensures
            r == (*self == PassFail::Pass),
    {
        match self {
            PassFail::Pass => true,
            PassFail::Fail => false,
        }
    }
}

pub open spec fn pass_fail(passed: bool) -> PassFail {
    if passed {
        PassFail::Pass
    } else {
        PassFail::Fail
    }
}

#[derive(Debug, Clone, Copy, PartialEq, Eq, Structural)]
pub struct GateStatus {
    pub status: PassFail,
}

/// The outcome of each of the four certification gates.
#[derive(Debug, Clone, Copy, PartialEq, Eq, Structural)]
pub struct GateStatuses {
    pub gate_a: GateStatus,
    pub gate_b: GateStatus,
    pub gate_c: GateStatus,
    pub gate_d: GateStatus,
}

#[derive(Debug, Clone, Copy, PartialEq, Eq, Structural, PartialOrd, Ord)]
pub enum GateId {
    GateA,
    GateB,
    GateC,
    GateD,
}

/// Which report a file holds: the latest prove run, one certify attempt, or the certification.
#[derive(Debug, Clone, Copy, PartialEq, Eq, Structural)]
pub enum ArtifactKind {
    ProveLatest,
    CertifyAttempt,
    Certification,
}

pub open spec fn gate_status(g: GateStatuses, gate: GateId) -> PassFail {
    match gate {
        GateId::GateA => g.gate_a.status,
        GateId::GateB => g.gate_b.status,
        GateId::GateC => g.gate_c.status,
        GateId::GateD => g.gate_d.status,
    }
}

/// The gates an artifact kind requires: A to C for a prove run, all four for certification.
pub open spec fn required_gate_list(kind: ArtifactKind) -> Seq<GateId> {
    match kind {
        ArtifactKind::ProveLatest => seq![GateId::GateA, GateId::GateB, GateId::GateC],
        _ => seq![GateId::GateA, GateId::GateB, GateId::GateC, GateId::GateD],
    }
}

pub open spec fn artifact_kind_name(kind: ArtifactKind) -> Seq<char> {
    match kind {
        ArtifactKind::ProveLatest => "prove_latest"@,
        ArtifactKind::CertifyAttempt => "certify_attempt"@,
        ArtifactKind::Certification => "certification"@,
    }
}

/// A phase passes when every gate it requires passed.
pub open spec fn phase_of(g: GateStatuses, required: Seq<GateId>) -> PassFail {
    pass_fail(forall|i: int| 0 <= i < required.len() ==> gate_status(g, #[trigger] required[i]) == PassFail::Pass)
}

impl GateStatuses {
    pub fn status(&self, gate: GateId) -> (r: PassFail)
        ensures
            r == gate_status(*self, gate),
    {
        match gate {
            GateId::GateA => self.gate_a.status,
            GateId::GateB => self.gate_b.status,
            GateId::GateC => self.gate_c.status,
            GateId::GateD => self.gate_d.status,
        }
    }

    /// Every gate failed.
    pub fn all_failed() -> (r: GateStatuses)
        ensures
            r == gates_from(false, false, false, false),
    {
        GateStatuses::from_outcomes(false, false, false, false)
    }

    pub fn from_outcomes(gate_a: bool, gate_b: bool, gate_c: bool, gate_d: bool) -> (r: GateStatuses)
        ensures
            r == gates_from(gate_a, gate_b, gate_c, gate_d),
    {
        GateStatuses {
            gate_a: GateStatus { status: PassFail::from_passed(gate_a) },
            gate_b: GateStatus { status: PassFail::from_passed(gate_b) },
            gate_c: GateStatus { status: PassFail::from_passed(gate_c) },
            gate_d: GateStatus { status: PassFail::from_passed(gate_d) },
        }
    }

    /// Whether every gate in `required` passed.
    pub fn phase(&self, required: &Vec<GateId>) -> (r: PassFail)
        ensures
            r == phase_of(*self, required@),
    {
        let mut i: usize = 0;
        while i < required.len()
            invariant
                i <= required@.len(),
                forall|k: int| 0 <= k < i ==> gate_status(*self, #[trigger] required@[k]) == PassFail::Pass,
            decreases required@.len() - i,
        {
            if !self.status(required[i]).is_pass() {
                return PassFail::Fail;
            }
            i = i + 1;
        }
        PassFail::Pass
    }
}

pub open spec fn gates_from(gate_a: bool, gate_b: bool, gate_c: bool, gate_d: bool) -> GateStatuses {
    GateStatuses {
        gate_a: GateStatus { status: pass_fail(gate_a) },
        gate_b: GateStatus { status: pass_fail(gate_b) },
        gate_c: GateStatus { status: pass_fail(gate_c) },
        gate_d: GateStatus { status: pass_fail(gate_d) },
    }
}

impl ArtifactKind {
    pub fn required_gates(self) -> (r: Vec<GateId>)
        ensures
            r@ == required_gate_list(self),
    {
        let r = match self {
            ArtifactKind::ProveLatest => vec![GateId::GateA, GateId::GateB, GateId::GateC],
            _ => vec![GateId::GateA, GateId::GateB, GateId::GateC, GateId::GateD],
        };
        proof {
            assert(r@ =~= required_gate_list(self));
        }
        r
    }

    pub fn as_str(self) -> (r: &'static str)
        ensures
            r@ == artifact_kind_name(self),
    {
        match self {
            ArtifactKind::ProveLatest => "prove_latest",
            ArtifactKind::CertifyAttempt => "certify_attempt",
            ArtifactKind::Certification => "certification",
        }
    }
}

/// How one suite ran: its command, exit code, verdict and the tests it reported.
#[derive(Debug, Clone)]
pub struct SuiteReport {
    pub name: String,
    pub command: Vec<String>,
    pub exit_code: i32,
    pub status: PassFail,
    pub attested_tests: Vec<String>,
}

/// The digest of one fixture file.
#[derive(Debug, Clone)]
pub struct FixtureDigest {
    pub bucket: String,
    pub path: String,
    pub sha256: String,
}

/// A certification report, as the prove and certify commands write it.
#[derive(Debug, Clone)]
pub struct CertificationReport {
    pub schema_version: u64,
    pub family: String,
    pub target_language: TargetLanguage,
    pub manifest_schema_version: u64,
    pub git_commit_sha: String,
    pub rust_toolchain: String,
    pub generated_at: String,
    pub artifact_kind: ArtifactKind,
    pub required_gates: Vec<GateId>,
    pub phase_status: PassFail,
    pub overall_status: PassFail,
    pub gates: GateStatuses,
    pub suites: Vec<SuiteReport>,
    pub fixture_digests: Vec<FixtureDigest>,
}

/// What a report keeps whatever its kind: the derived fields (schema version, required
/// gates, phase and overall status) agree with its artifact kind and gates.
pub open spec fn report_consistent(r: CertificationReport) -> bool {
    &&& r.schema_version == REPORT_SCHEMA_VERSION
    &&& r.required_gates@ == required_gate_list(r.artifact_kind)
    &&& r.phase_status == phase_of(r.gates, r.required_gates@)
    &&& r.overall_status == r.phase_status
}

impl CertificationReport {
    /// A fresh prove-run report for `family` in which every gate failed and no suite ran.
    pub fn new(
        family: &FamilyId,
        target_language: FamilyTargetLanguage,
        git_commit_sha: String,
        rust_toolchain: String,
        generated_at: String,
    ) -> (r: CertificationReport)
        ensures
            r.schema_version == REPORT_SCHEMA_VERSION,
            r.family@ == family@,
            r.target_language == recorded_language(target_language),
            r.manifest_schema_version == MANIFEST_SCHEMA_VERSION,
            r.git_commit_sha@ == git_commit_sha@,
            r.rust_toolchain@ == rust_toolchain@,
            r.generated_at@ == generated_at@,
            r.artifact_kind == ArtifactKind::ProveLatest,
            r.required_gates@ == required_gate_list(ArtifactKind::ProveLatest),
            r.phase_status == PassFail::Fail,
            r.overall_status == PassFail::Fail,
            r.gates == gates_from(false, false, false, false),
            r.suites@.len() == 0,
            r.fixture_digests@.len() == 0,
    {
        CertificationReport {
            schema_version: REPORT_SCHEMA_VERSION,
            family: owned(family.as_str()),
            target_language: TargetLanguage::from_family_target_language(target_language),
            manifest_schema_version: MANIFEST_SCHEMA_VERSION,
            git_commit_sha,
            rust_toolchain,
            generated_at,
            artifact_kind: ArtifactKind::ProveLatest,
            required_gates: ArtifactKind::ProveLatest.required_gates(),
            phase_status: PassFail::Fail,
            overall_status: PassFail::Fail,
            gates: GateStatuses::all_failed(),
            suites: Vec::new(),
            fixture_digests: Vec::new(),
        }
    }

    /// Re-derives the schema version, required gates and phase and overall status from the
    /// artifact kind and gates; nothing else changes.
    pub fn apply_runtime_invariants(&mut self)
        ensures
            report_consistent(*final(self)),
            final(self).artifact_kind == old(self).artifact_kind,
            final(self).gates == old(self).gates,
            same_recorded_fields(*final(self), *old(self)),
    {
        self.schema_version = REPORT_SCHEMA_VERSION;
        self.required_gates = self.artifact_kind.required_gates();
        self.phase_status = self.gates.phase(&self.required_gates);
        self.overall_status = self.phase_status;
    }
}

/// The same identity and provenance: family, language, manifest version, commit,
/// toolchain and time, and the same fixture digests.
pub open spec fn same_provenance(a: CertificationReport, b: CertificationReport) -> bool {
    &&& a.family@ == b.family@
    &&& a.target_language == b.target_language
    &&& a.manifest_schema_version == b.manifest_schema_version
    &&& a.git_commit_sha@ == b.git_commit_sha@
    &&& a.rust_toolchain@ == b.rust_toolchain@
    &&& a.generated_at@ == b.generated_at@
    &&& digest_views(a.fixture_digests@) == digest_views(b.fixture_digests@)
}

/// The same provenance and the very same suites.
pub open spec fn same_recorded_fields(a: CertificationReport, b: CertificationReport) -> bool {
    &&& same_provenance(a, b)
    &&& a.suites@ == b.suites@
}

pub open spec fn digest_view(d: FixtureDigest) -> (Seq<char>, Seq<char>, Seq<char>) {
    (d.bucket@, d.path@, d.sha256@)
}

pub open spec fn digest_views(v: Seq<FixtureDigest>) -> Seq<(Seq<char>, Seq<char>, Seq<char>)> {
    v.map_values(|d: FixtureDigest| digest_view(d))
}

pub open spec fn suite_view(s: SuiteReport) -> (Seq<char>, Seq<Seq<char>>, i32, PassFail, Seq<Seq<char>>) {
    (s.name@, views_of(s.command@), s.exit_code, s.status, views_of(s.attested_tests@))
}

/// `n` is `s` with its attested test names sorted.
pub open spec fn suite_sorted_from(n: SuiteReport, s: SuiteReport) -> bool {
    &&& n.name@ == s.name@
    &&& views_of(n.command@) == views_of(s.command@)
    &&& n.exit_code == s.exit_code
    &&& n.status == s.status
    &&& views_of(n.attested_tests@) == in_string_order(views_of(s.attested_tests@))
}

/// Records the four gate outcomes and re-derives the phase and overall status.
pub fn set_gates(report: &mut CertificationReport, gate_a: bool, gate_b: bool, gate_c: bool, gate_d: bool)
    ensures
        final(report).gates == gates_from(gate_a, gate_b, gate_c, gate_d),
        report_consistent(*final(report)),
        final(report).artifact_kind == old(report).artifact_kind,
        same_recorded_fields(*final(report), *old(report)),
{
    report.gates = GateStatuses::from_outcomes(gate_a, gate_b, gate_c, gate_d);
    report.apply_runtime_invariants();
}

/// Re-derives the overall status from the gates; the flag it is given does not decide it.
pub fn set_overall(report: &mut CertificationReport, _passed: bool)
    ensures
        report_consistent(*final(report)),
        final(report).artifact_kind == old(report).artifact_kind,
        final(report).gates == old(report).gates,
        same_recorded_fields(*final(report), *old(report)),
{
    report.apply_runtime_invariants();
}

/// The last path component that names something: empty and `.` components are skipped.
pub open spec fn last_named(parts: Seq<Seq<char>>) -> Option<Seq<char>>
    decreases parts.len(),
{
    if parts.len() == 0 {
        None
    } else if parts.last().len() == 0 || parts.last() == "."@ {
        last_named(parts.drop_last())
    } else {
        Some(parts.last())
    }
}

/// The file name of a `/`-separated path, as `Path::file_name` reads it: the last
/// component, unless there is none or it is `..`.
pub open spec fn path_file_name(path: Seq<char>) -> Option<Seq<char>> {
    match last_named(split_seq(path, '/')) {
        Some(n) => if n == ".."@ { None } else { Some(n) },
        None => None,
    }
}

/// The artifact kind a report's file name declares.
pub open spec fn file_name_artifact_kind(name: Seq<char>) -> Option<ArtifactKind> {
    if name == PROVE_ARTIFACT_NAME@ {
        Some(ArtifactKind::ProveLatest)
    } else if name == CERTIFY_ARTIFACT_NAME@ {
        Some(ArtifactKind::Certification)
    } else if starts_with(name, "attempt-"@) && crate::text::ends_with(name, ".json"@) {
        Some(ArtifactKind::CertifyAttempt)
    } else {
        None
    }
}

pub open spec fn path_artifact_kind(path: Seq<char>) -> Option<ArtifactKind> {
    match path_file_name(path) {
        Some(n) => file_name_artifact_kind(n),
        None => None,
    }
}

pub open spec fn unknown_artifact_path_message(path: Seq<char>) -> Seq<char> {
    "failed to infer artifact kind from report path `"@ + path + "`"@
}

/// The file name of a `/`-separated path.
pub fn file_name_of(path: &str) -> (r: Option<Vec<char>>)
    ensures
        match r {
            Some(n) => path_file_name(path@) == Some(n@),
            None => path_file_name(path@) is None,
        },
{
    proof {
        reveal_strlit(".");
        reveal_strlit("..");
    }
    let cs = chars_of(path);
    let parts = split_chars(&cs, '/');
    let ghost ps = split_seq(path@, '/');
    let mut n: usize = parts.len();
    proof {
        assert(ps.take(n as int) =~= ps);
    }
    while n > 0 && (parts[n - 1].len() == 0 || (parts[n - 1].len() == 1 && parts[n - 1][0] == '.'))
        invariant
            n <= parts@.len(),
            views(parts@) == ps,
            last_named(ps) == last_named(ps.take(n as int)),
        decreases n,
    {
        proof {
            assert(ps.take(n as int).drop_last() =~= ps.take(n - 1));
            assert(ps.take(n as int).last() == parts@[n - 1]@);
            reveal_strlit(".");
            if parts@[n - 1]@.len() == 1 {
                assert(parts@[n - 1]@ =~= "."@);
            }
        }
        n = n - 1;
    }
    if n == 0 {
        return None;
    }
    let last = &parts[n - 1];
    proof {
        assert(ps.take(n as int).last() == last@);
        assert(last@.len() != 0);
        if last@ == "."@ {
            assert(last@[0] == '.');
        }
    }
    if last.len() == 2 && last[0] == '.' && last[1] == '.' {
        proof {
            assert(last@ =~= ".."@);
        }
        return None;
    }
    proof {
        if last@ == ".."@ {
            assert(last@[0] == '.' && last@[1] == '.');
        }
    }
    Some(tail_from(last, 0))
}

/// The artifact kind a report path declares by its file name.
pub fn artifact_kind_for_path(path: &str) -> (r: Result<ArtifactKind, XtaskError>)
    ensures
        match path_artifact_kind(path@) {
            Some(k) => r matches Ok(got) && got == k,
            None => r matches Err(e) && e@ == XtaskErrorView::WriteFailure(unknown_artifact_path_message(path@)),
        },
{
    let kind = match file_name_of(path) {
        Some(name) => {
            proof {
                assert(name@.skip(0) =~= name@);
            }
            if chars_are(&name, PROVE_ARTIFACT_NAME) {
                Some(ArtifactKind::ProveLatest)
            } else if chars_are(&name, CERTIFY_ARTIFACT_NAME) {
                Some(ArtifactKind::Certification)
            } else if starts_with_exec(&name, "attempt-") && crate::text::ends_with_exec(&name, ".json") {
                Some(ArtifactKind::CertifyAttempt)
            } else {
                None
            }
        },
        None => None,
    };
    match kind {
        Some(k) => Ok(k),
        None => {
            let mut m = owned("failed to infer artifact kind from report path `");
            m.append(path);
            m.append("`");
            Err(XtaskError::WriteFailure(m))
        },
    }
}

pub(crate) fn copy_strings(v: &Vec<String>) -> (r: Vec<String>)
    ensures
        views_of(r@) == views_of(v@),
{
    let mut out: Vec<String> = Vec::new();
    let mut i: usize = 0;
    while i < v.len()
        invariant
            i <= v@.len(),
            views_of(out@) == views_of(v@).take(i as int),
        decreases v@.len() - i,
    {
        let x = owned(v[i].as_str());
        let ghost before = out@;
        out.push(x);
        proof {
            assert(out@ == before.push(x));
            assert(views_of(out@) =~= views_of(before).push(x@));
            assert(views_of(v@).take(i + 1) =~= views_of(v@).take(i as int).push(v@[i as int]@));
        }
        i = i + 1;
    }
    proof {
        assert(views_of(v@).take(v@.len() as int) =~= views_of(v@));
    }
    out
}

fn copy_digests(v: &Vec<FixtureDigest>) -> (r: Vec<FixtureDigest>)
    ensures
        digest_views(r@) == digest_views(v@),
{
    let mut out: Vec<FixtureDigest> = Vec::new();
    let mut i: usize = 0;
    while i < v.len()
        invariant
            i <= v@.len(),
            digest_views(out@) == digest_views(v@).take(i as int),
        decreases v@.len() - i,
    {
        let d = &v[i];
        let x = FixtureDigest {
            bucket: owned(d.bucket.as_str()),
            path: owned(d.path.as_str()),
            sha256: owned(d.sha256.as_str()),
        };
        let ghost before = out@;
        out.push(x);
        proof {
            assert(out@ == before.push(x));
            assert(digest_views(out@) =~= digest_views(before).push(digest_view(x)));
            assert(digest_views(v@).take(i + 1) =~= digest_views(v@).take(i as int).push(digest_view(v@[i as int])));
        }
        i = i + 1;
    }
    proof {
        assert(digest_views(v@).take(v@.len() as int) =~= digest_views(v@));
    }
    out
}

/// The report to write at `path`: its artifact kind is the one the path declares, the
/// derived fields follow from that kind and the gates, and each suite lists its attested
/// tests in sorted order; everything else is kept. A path that declares no kind is refused.
pub fn normalize_report_for_write(path: &str, report: &CertificationReport) -> (r: Result<CertificationReport, XtaskError>)
    ensures
        match path_artifact_kind(path@) {
            Some(k) => r matches Ok(n) && {
                &&& n.artifact_kind == k
                &&& report_consistent(n)
                &&& n.gates == report.gates
                &&& same_provenance(n, *report)
                &&& n.suites@.len() == report.suites@.len()
                &&& forall|i: int| 0 <= i < n.suites@.len() ==> suite_sorted_from(#[trigger] n.suites@[i], report.suites@[i])
            },
            None => r matches Err(e) && e@ == XtaskErrorView::WriteFailure(unknown_artifact_path_message(path@)),
        },
{
    let kind = match artifact_kind_for_path(path) {
        Ok(k) => k,
        Err(e) => {
            return Err(e);
        },
    };
    let mut suites: Vec<SuiteReport> = Vec::new();
    let mut i: usize = 0;
    while i < report.suites.len()
        invariant
            i <= report.suites@.len(),
            suites@.len() == i,
            forall|k: int| 0 <= k < i ==> suite_sorted_from(#[trigger] suites@[k], report.suites@[k]),
        decreases report.suites@.len() - i,
    {
        let s = &report.suites[i];
        suites.push(
            SuiteReport {
                name: owned(s.name.as_str()),
                command: copy_strings(&s.command),
                exit_code: s.exit_code,
                status: s.status,
                attested_tests: sort_strings(&s.attested_tests),
            },
        );
        i = i + 1;
    }
    let required = kind.required_gates();
    let phase = report.gates.phase(&required);
    Ok(
        CertificationReport {
            schema_version: REPORT_SCHEMA_VERSION,
            family: owned(report.family.as_str()),
            target_language: report.target_language,
            manifest_schema_version: report.manifest_schema_version,
            git_commit_sha: owned(report.git_commit_sha.as_str()),
            rust_toolchain: owned(report.rust_toolchain.as_str()),
            generated_at: owned(report.generated_at.as_str()),
            artifact_kind: kind,
            required_gates: required,
            phase_status: phase,
            overall_status: phase,
            gates: report.gates,
            suites,
            fixture_digests: copy_digests(&report.fixture_digests),
        },
    )
}

/// A UTC RFC 3339 time to the second, `YYYY-MM-DDTHH:MM:SSZ`: twenty ASCII characters
/// (byte and character counts agree on such a string).
pub open spec fn utc_timestamp(v: Seq<char>) -> bool {
    &&& v.len() == 20
    &&& v[4] == '-' && v[7] == '-' && v[10] == 'T' && v[13] == ':' && v[16] == ':' && v[19] == 'Z'
    &&& forall|i: int|
        0 <= i < 20 && i != 4 && i != 7 && i != 10 && i != 13 && i != 16 && i != 19 ==> '0' <= #[trigger] v[i] <= '9'
}

pub fn looks_like_utc_timestamp(value: &str) -> (r: bool)
    ensures
        r == utc_timestamp(value@),
{
    let v = chars_of(value);
    if v.len() != 20 {
        return false;
    }
    if !(v[4] == '-' && v[7] == '-' && v[10] == 'T' && v[13] == ':' && v[16] == ':' && v[19] == 'Z') {
        return false;
    }
    let mut i: usize = 0;
    while i < 20
        invariant
            i <= 20,
            v@ == value@,
            v@.len() == 20,
            forall|k: int|
                0 <= k < i && k != 4 && k != 7 && k != 10 && k != 13 && k != 16 && k != 19 ==> '0' <= #[trigger] v@[k] <= '9',
        decreases 20 - i,
    {
        if i != 4 && i != 7 && i != 10 && i != 13 && i != 16 && i != 19 && !('0' <= v[i] && v[i] <= '9') {
            return false;
        }
        i = i + 1;
    }
    true
}

pub open spec fn is_hex_digit(c: char) -> bool {
    ('0' <= c && c <= '9') || ('a' <= c && c <= 'f') || ('A' <= c && c <= 'F')
}

/// A suite entry needs a name that is not blank and a command.
pub open spec fn suite_entry_bad(s: SuiteReport) -> bool {
    trim_seq(s.name@).len() == 0 || s.command@.len() == 0
}

/// A digest entry needs a bucket and a path that are not blank and a 64-digit hex sha256
/// (a hex string has as many bytes as characters).
pub open spec fn digest_entry_bad(d: FixtureDigest) -> bool {
    ||| trim_seq(d.bucket@).len() == 0
    ||| trim_seq(d.path@).len() == 0
    ||| d.sha256@.len() != 64
    ||| exists|k: int| 0 <= k < d.sha256@.len() && !is_hex_digit(#[trigger] d.sha256@[k])
}

/// The first thing wrong with the report at `path`, in the order the checks run, or none.
pub open spec fn report_issue(path: Seq<char>, r: CertificationReport) -> Option<XtaskErrorView> {
    match path_artifact_kind(path) {
        None => Some(XtaskErrorView::WriteFailure(unknown_artifact_path_message(path))),
        Some(kind) => if r.schema_version != REPORT_SCHEMA_VERSION {
            Some(
                XtaskErrorView::InvalidInput(
                    "report schema_version must be 3, found "@ + decimal(r.schema_version as nat),
                ),
            )
        } else if r.family@.len() == 0 {
            Some(XtaskErrorView::InvalidInput("family id must not be empty"@))
        } else if !family_id_ok(r.family@) {
            Some(XtaskErrorView::InvalidInput(family_id_pattern_message(r.family@)))
        } else if r.target_language == TargetLanguage::Typescript && !typescript_family(r.family@) {
            Some(XtaskErrorView::InvalidInput(typescript_refusal("report target_language"@)))
        } else if r.artifact_kind != kind {
            Some(
                XtaskErrorView::InvalidInput(
                    "report artifact_kind `"@ + artifact_kind_name(r.artifact_kind) + "` does not match path `"@ + path
                        + "`"@,
                ),
            )
        } else if r.required_gates@ != required_gate_list(kind) {
            Some(
                XtaskErrorView::InvalidInput(
                    "report required_gates do not match artifact kind `"@ + artifact_kind_name(kind) + "`"@,
                ),
            )
        } else if !utc_timestamp(r.generated_at@) {
            Some(XtaskErrorView::InvalidInput("report generated_at must be a UTC RFC3339 timestamp"@))
        } else if r.phase_status != phase_of(r.gates, r.required_gates@) || r.overall_status != phase_of(
            r.gates,
            r.required_gates@,
        ) {
            Some(
                XtaskErrorView::InvalidInput(
                    "report phase_status and overall_status must match the required gate outcomes"@,
                ),
            )
        } else if r.suites@.len() == 0 {
            Some(XtaskErrorView::InvalidInput("report suites[] must not be empty"@))
        } else {
            entries_issue(r)
        },
    }
}

/// The first bad suite or digest entry of a report, suites first.
pub open spec fn entries_issue(r: CertificationReport) -> Option<XtaskErrorView> {
    if exists|i: int| 0 <= i < r.suites@.len() && suite_entry_bad(#[trigger] r.suites@[i]) {
        Some(XtaskErrorView::InvalidInput("report suites[] must include non-empty name and command"@))
    } else if exists|i: int| 0 <= i < r.fixture_digests@.len() && digest_entry_bad(#[trigger] r.fixture_digests@[i]) {
        Some(
            XtaskErrorView::InvalidInput(
                "report fixture_digests[] entries must include bucket/path and a 64-character hex sha256"@,
            ),
        )
    } else {
        None
    }
}

fn all_hex(s: &Vec<char>) -> (r: bool)
    ensures
        r == forall|k: int| 0 <= k < s@.len() ==> is_hex_digit(#[trigger] s@[k]),
{
    let mut i: usize = 0;
    while i < s.len()
        invariant
            i <= s@.len(),
            forall|k: int| 0 <= k < i ==> is_hex_digit(#[trigger] s@[k]),
        decreases s@.len() - i,
    {
        let c = s[i];
        if !(('0' <= c && c <= '9') || ('a' <= c && c <= 'f') || ('A' <= c && c <= 'F')) {
            return false;
        }
        i = i + 1;
    }
    true
}

fn same_gates(a: &Vec<GateId>, b: &Vec<GateId>) -> (r: bool)
    ensures
        r == (a@ == b@),
{
    if a.len() != b.len() {
        return false;
    }
    let mut i: usize = 0;
    while i < a.len()
        invariant
            i <= a@.len(),
            a@.len() == b@.len(),
            forall|k: int| 0 <= k < i ==> a@[k] == b@[k],
        decreases a@.len() - i,
    {
        if a[i] != b[i] {
            return false;
        }
        i = i + 1;
    }
    proof {
        assert(a@ =~= b@);
    }
    true
}

fn invalid(m: &str) -> (r: XtaskError)
    ensures
        r@ == XtaskErrorView::InvalidInput(m@),
{
    XtaskError::InvalidInput(owned(m))
}

/// Accepts the report at `path` exactly when [`report_issue`] finds nothing wrong with it,
/// and otherwise returns the first issue.
pub fn validate_report_artifact(path: &str, report: &CertificationReport) -> (r: Result<(), XtaskError>)
    ensures
        match report_issue(path@, *report) {
            None => r is Ok,
            Some(e) => r matches Err(x) && x@ == e,
        },
{
    let kind = match artifact_kind_for_path(path) {
        Ok(k) => k,
        Err(e) => {
            return Err(e);
        },
    };
    if report.schema_version != REPORT_SCHEMA_VERSION {
        let mut m = owned("report schema_version must be 3, found ");
        let n = decimal_u64_string(report.schema_version);
        m.append(n.as_str());
        return Err(XtaskError::InvalidInput(m));
    }
    let family = match FamilyId::parse(report.family.as_str()) {
        Ok(f) => f,
        Err(e) => {
            return Err(e);
        },
    };
    match validate_target_language(&family, report.target_language.to_family_target_language(), "report target_language") {
        Ok(()) => {},
        Err(e) => {
            return Err(e);
        },
    }
    if report.artifact_kind != kind {
        let mut m = owned("report artifact_kind `");
        m.append(report.artifact_kind.as_str());
        m.append("` does not match path `");
        m.append(path);
        m.append("`");
        return Err(XtaskError::InvalidInput(m));
    }
    let required = kind.required_gates();
    if !same_gates(&report.required_gates, &required) {
        let mut m = owned("report required_gates do not match artifact kind `");
        m.append(kind.as_str());
        m.append("`");
        return Err(XtaskError::InvalidInput(m));
    }
    if !looks_like_utc_timestamp(report.generated_at.as_str()) {
        return Err(invalid("report generated_at must be a UTC RFC3339 timestamp"));
    }
    let phase = report.gates.phase(&report.required_gates);
    if report.phase_status != phase || report.overall_status != phase {
        return Err(invalid("report phase_status and overall_status must match the required gate outcomes"));
    }
    if report.suites.len() == 0 {
        return Err(invalid("report suites[] must not be empty"));
    }
    let mut i: usize = 0;
    while i < report.suites.len()
        invariant
            i <= report.suites@.len(),
            forall|k: int| 0 <= k < i ==> !suite_entry_bad(#[trigger] report.suites@[k]),
            report_issue(path@, *report) == entries_issue(*report),
        decreases report.suites@.len() - i,
    {
        let s = &report.suites[i];
        let name = chars_of(s.name.as_str());
        let trimmed = trim_chars(&name);
        if trimmed.len() == 0 || s.command.len() == 0 {
            proof {
                assert(suite_entry_bad(report.suites@[i as int]));
            }
            return Err(invalid("report suites[] must include non-empty name and command"));
        }
        i = i + 1;
    }
    let mut j: usize = 0;
    while j < report.fixture_digests.len()
        invariant
            j <= report.fixture_digests@.len(),
            forall|k: int| 0 <= k < j ==> !digest_entry_bad(#[trigger] report.fixture_digests@[k]),
            forall|k: int| 0 <= k < report.suites@.len() ==> !suite_entry_bad(#[trigger] report.suites@[k]),
            report_issue(path@, *report) == entries_issue(*report),
        decreases report.fixture_digests@.len() - j,
    {
        let d = &report.fixture_digests[j];
        let bucket = chars_of(d.bucket.as_str());
        let dpath = chars_of(d.path.as_str());
        let sha = chars_of(d.sha256.as_str());
        let tb = trim_chars(&bucket);
        let tp = trim_chars(&dpath);
        if tb.len() == 0 || tp.len() == 0 || sha.len() != 64 || !all_hex(&sha) {
            proof {
                assert(digest_entry_bad(report.fixture_digests@[j as int]));
            }
            return Err(invalid("report fixture_digests[] entries must include bucket/path and a 64-character hex sha256"));
        }
        proof {
            assert(!digest_entry_bad(report.fixture_digests@[j as int]));
        }
        j = j + 1;
    }
    Ok(())
}

/// The first line a command printed, trimmed, when it exited with 0 and that line is not
/// blank; `fallback` otherwise.
pub open spec fn first_line_or_spec(exit_code: i32, stdout: Seq<char>, fallback: Seq<char>) -> Seq<char> {
    let ls = text_lines(stdout);
    if exit_code != 0 || ls.len() == 0 || trim_seq(ls[0]).len() == 0 {
        fallback
    } else {
        trim_seq(ls[0])
    }
}

pub fn first_line_or(output: &CommandOutput, fallback: String) -> (r: String)
    ensures
        r@ == first_line_or_spec(output.exit_code, output.stdout@, fallback@),
{
    if output.exit_code != 0 {
        return fallback;
    }
    let ls = lines_of(output.stdout.as_str());
    if ls.len() == 0 {
        return fallback;
    }
    proof {
        assert(views(ls@)[0] == ls@[0]@);
    }
    let t = trim_chars(&ls[0]);
    if t.len() == 0 {
        return fallback;
    }
    crate::text::string_of(&t)
}

/// The report a prove run starts from: commit, toolchain and time are the first lines the
/// three commands printed, or `unknown`, `unknown` and the epoch where they printed none.
pub fn report_from_command_outputs(
    family: &FamilyId,
    target_language: FamilyTargetLanguage,
    git_output: &CommandOutput,
    rustc_output: &CommandOutput,
    date_output: &CommandOutput,
) -> (r: CertificationReport)
    ensures
        r.schema_version == REPORT_SCHEMA_VERSION,
        r.family@ == family@,
        r.target_language == recorded_language(target_language),
        r.manifest_schema_version == MANIFEST_SCHEMA_VERSION,
        r.git_commit_sha@ == first_line_or_spec(git_output.exit_code, git_output.stdout@, "unknown"@),
        r.rust_toolchain@ == first_line_or_spec(rustc_output.exit_code, rustc_output.stdout@, "unknown"@),
        r.generated_at@ == first_line_or_spec(date_output.exit_code, date_output.stdout@, "1970-01-01T00:00:00Z"@),
        r.artifact_kind == ArtifactKind::ProveLatest,
        report_consistent(r),
        r.gates == gates_from(false, false, false, false),
        r.suites@.len() == 0,
        r.fixture_digests@.len() == 0,
{
    let git = first_line_or(git_output, owned("unknown"));
    let rustc = first_line_or(rustc_output, owned("unknown"));
    let date = first_line_or(date_output, owned("1970-01-01T00:00:00Z"));
    let r = CertificationReport::new(family, target_language, git, rustc, date);
    proof {
        reveal_strlit("prove_latest");
        assert(!(forall|i: int|
            0 <= i < r.required_gates@.len() ==> gate_status(r.gates, #[trigger] r.required_gates@[i]) == PassFail::Pass)) by {
            assert(gate_status(r.gates, r.required_gates@[0]) == PassFail::Fail);
        }
    }
    r
}

/// Takes the report's time from the date command's first line, keeping the old time when
/// the command printed none; nothing else changes.
pub fn refresh_generated_at(report: &mut CertificationReport, date_output: &CommandOutput)
    ensures
        final(report).generated_at@ == first_line_or_spec(date_output.exit_code, date_output.stdout@, old(report).generated_at@),
        final(report).schema_version == old(report).schema_version,
        final(report).family == old(report).family,
        final(report).target_language == old(report).target_language,
        final(report).git_commit_sha == old(report).git_commit_sha,
        final(report).rust_toolchain == old(report).rust_toolchain,
        final(report).artifact_kind == old(report).artifact_kind,
        final(report).required_gates == old(report).required_gates,
        final(report).phase_status == old(report).phase_status,
        final(report).overall_status == old(report).overall_status,
        final(report).gates == old(report).gates,
        final(report).suites == old(report).suites,
        final(report).fixture_digests == old(report).fixture_digests,
{
    let current = owned(report.generated_at.as_str());
    report.generated_at = first_line_or(date_output, current);
}

/// How a suite ran, given what its command printed: it passes exactly when the output
/// attests its expected tests, and it lists the tests the output reported, sorted.
pub fn suite_report_from_output(suite: SuiteDefinition, output: &CommandOutput) -> (r: SuiteReport)
    ensures
        r.name@ == suite.name@,
        views_of(r.command@) == str_views(suite.command@),
        r.exit_code == output.exit_code,
        r.status == pass_fail(
            attestation_passes(str_views(suite.expected_tests@), output.exit_code, output_attestations(output.stdout@, output.stderr@)),
        ),
        views_of(r.attested_tests@) == in_string_order(names_of(output_attestations(output.stdout@, output.stderr@))),
{
    let mut command: Vec<String> = Vec::new();
    let mut i: usize = 0;
    while i < suite.command.len()
        invariant
            i <= suite.command@.len(),
            views_of(command@) == str_views(suite.command@).take(i as int),
        decreases suite.command@.len() - i,
    {
        let part = owned(suite.command[i]);
        let ghost before = command@;
        command.push(part);
        proof {
            assert(views_of(command@) =~= views_of(before).push(part@));
            assert(str_views(suite.command@).take(i + 1) =~= str_views(suite.command@).take(i as int).push(suite.command@[i as int]@));
        }
        i = i + 1;
    }
    proof {
        assert(str_views(suite.command@).take(suite.command@.len() as int) =~= str_views(suite.command@));
    }
    let attestation = attest_suite_output(suite, output);
    let (status, attested_tests) = match attestation {
        Ok(tests) => (PassFail::Pass, tests),
        Err(failure) => (PassFail::Fail, failure.attested_tests),
    };
    SuiteReport { name: owned(suite.name), command, exit_code: output.exit_code, status, attested_tests }
}

/// The names of the failed suites, joined by `, `.
pub open spec fn failed_names(suites: Seq<SuiteReport>) -> Seq<Seq<char>>
    decreases suites.len(),
{
    if suites.len() == 0 {
        Seq::empty()
    } else if suites.last().status == PassFail::Pass {
        failed_names(suites.drop_last())
    } else {
        failed_names(suites.drop_last()).push(suites.last().name@)
    }
}

pub fn failed_suite_names(suites: &Vec<SuiteReport>) -> (r: String)
    ensures
        r@ == join_commas(failed_names(suites@)),
{
    let mut names: Vec<String> = Vec::new();
    let mut i: usize = 0;
    while i < suites.len()
        invariant
            i <= suites@.len(),
            views_of_strings(names@) == failed_names(suites@.take(i as int)),
        decreases suites@.len() - i,
    {
        proof {
            assert(suites@.take(i + 1).drop_last() =~= suites@.take(i as int));
        }
        if !suites[i].status.is_pass() {
            let n = owned(suites[i].name.as_str());
            let ghost before = names@;
            names.push(n);
            proof {
                assert(views_of_strings(names@) =~= views_of_strings(before).push(n@));
            }
        }
        i = i + 1;
    }
    proof {
        assert(suites@.take(suites@.len() as int) =~= suites@);
    }
    join_commas_string(&names)
}

/// Where a prove run's report goes.
pub fn prove_artifact_path(paths: &PacketPaths) -> (r: String)
    ensures
        r@ == join_path(paths.artifacts@, PROVE_ARTIFACT_NAME@),
{
    join_path_string(paths.artifacts.as_str(), PROVE_ARTIFACT_NAME)
}

/// Where the certification report goes.
pub fn certification_report_path(paths: &PacketPaths) -> (r: String)
    ensures
        r@ == join_path(paths.artifacts@, CERTIFY_ARTIFACT_NAME@),
{
    join_path_string(paths.artifacts.as_str(), CERTIFY_ARTIFACT_NAME)
}

/// The ASCII letters and digits of `s`, in order.
pub open spec fn alnum_only(s: Seq<char>) -> Seq<char>
    decreases s.len(),
{
    if s.len() == 0 {
        Seq::empty()
    } else if is_ascii_alnum(s.last()) {
        alnum_only(s.drop_last()).push(s.last())
    } else {
        alnum_only(s.drop_last())
    }
}

/// Where the certify attempt made at `generated_at` is recorded: `attempt-<letters and
/// digits of the time>.json` in the artifacts directory.
pub fn certify_attempt_path(paths: &PacketPaths, generated_at: &str) -> (r: String)
    ensures
        r@ == join_path(paths.artifacts@, "attempt-"@ + alnum_only(generated_at@) + ".json"@),
{
    let cs = chars_of(generated_at);
    let mut name = owned("attempt-");
    let mut i: usize = 0;
    while i < cs.len()
        invariant
            i <= cs@.len(),
            cs@ == generated_at@,
            name@ == "attempt-"@ + alnum_only(cs@.take(i as int)),
        decreases cs@.len() - i,
    {
        let c = cs[i];
        proof {
            assert(cs@.take(i + 1).drop_last() =~= cs@.take(i as int));
        }
        if ('a' <= c && c <= 'z') || ('A' <= c && c <= 'Z') || ('0' <= c && c <= '9') {
            push_char(&mut name, c);
            proof {
                assert(name@ =~= "attempt-"@ + alnum_only(cs@.take(i + 1)));
            }
        }
        i = i + 1;
    }
    proof {
        assert(cs@.take(cs@.len() as int) =~= cs@);
    }
    name.append(".json");
    join_path_string(paths.artifacts.as_str(), name.as_str())
}

pub open spec fn hex_digit(n: int) -> char {
    if n < 10 {
        ((n + 48) as u8) as char
    } else {
        ((n + 87) as u8) as char
    }
}

/// Each byte as two lowercase hex digits.
pub open spec fn hex_of(bytes: Seq<u8>) -> Seq<char>
    decreases bytes.len(),
{
    if bytes.len() == 0 {
        Seq::empty()
    } else {
        hex_of(bytes.drop_last()).push(hex_digit((bytes.last() / 16) as int)).push(hex_digit((bytes.last() % 16) as int))
    }
}

fn hex_digit_exec(n: u8) -> (c: char)
    requires
        n < 16,
    ensures
        c == hex_digit(n as int),
{
    if n < 10 {
        (n + 48) as char
    } else {
        (n + 87) as char
    }
}

/// The bytes in lowercase hex.
pub fn hex_string(bytes: &Vec<u8>) -> (r: String)
    ensures
        r@ == hex_of(bytes@),
{
    let mut out = String::new();
    let mut i: usize = 0;
    while i < bytes.len()
        invariant
            i <= bytes@.len(),
            out@ == hex_of(bytes@.take(i as int)),
        decreases bytes@.len() - i,
    {
        let b = bytes[i];
        proof {
            assert(bytes@.take(i + 1).drop_last() =~= bytes@.take(i as int));
        }
        push_char(&mut out, hex_digit_exec(b / 16));
        push_char(&mut out, hex_digit_exec(b % 16));
        i = i + 1;
    }
    proof {
        assert(bytes@.take(bytes@.len() as int) =~= bytes@);
    }
    out
}

/// `s` with every `\\` turned into `/`.
pub open spec fn forward_slashes(s: Seq<char>) -> Seq<char> {
    s.map_values(|c: char| if c == '\\' { '/' } else { c })
}

pub fn normalize_path(path: &str) -> (r: String)
    ensures
        r@ == forward_slashes(path@),
{
    let cs = chars_of(path);
    let mut out = String::new();
    let mut i: usize = 0;
    while i < cs.len()
        invariant
            i <= cs@.len(),
            cs@ == path@,
            out@ == forward_slashes(cs@.take(i as int)),
        decreases cs@.len() - i,
    {
        let c = if cs[i] == '\\' { '/' } else { cs[i] };
        push_char(&mut out, c);
        i = i + 1;
        proof {
            assert(out@ =~= forward_slashes(cs@.take(i as int)));
        }
    }
    proof {
        assert(cs@.take(cs@.len() as int) =~= cs@);
    }
    out
}


/// A file found under a packet's fixtures: where it lies, and what it holds.
#[derive(Debug, Clone)]
pub struct FixtureFile {
    /// The file's path, as it is shown in messages.
    pub path: String,
    /// The file's path relative to the packet root.
    pub relative_to_packet: String,
    /// The file's path relative to the fixtures root, its components joined by `/`.
    pub relative_to_fixtures: String,
    pub bytes: Vec<u8>,
}

/// The bucket of a fixture file: the first component of its path under the fixtures.
pub open spec fn fixture_bucket(f: FixtureFile) -> Seq<char> {
    split_seq(f.relative_to_fixtures@, '/')[0]
}

/// The digest recorded for a fixture file: its bucket, its packet path with `/`
/// separators, and the SHA-256 of its bytes in lowercase hex.
pub open spec fn file_digest(f: FixtureFile) -> (Seq<char>, Seq<char>, Seq<char>) {
    (fixture_bucket(f), forward_slashes(f.relative_to_packet@), hex_of(sha256_of(f.bytes@)))
}

pub open spec fn file_digests(files: Seq<FixtureFile>) -> Seq<(Seq<char>, Seq<char>, Seq<char>)> {
    files.map_values(|f: FixtureFile| file_digest(f))
}

/// Digests ordered by their paths in string order.
pub open spec fn by_path() -> spec_fn((Seq<char>, Seq<char>, Seq<char>), (Seq<char>, Seq<char>, Seq<char>)) -> bool {
    |a: (Seq<char>, Seq<char>, Seq<char>), b: (Seq<char>, Seq<char>, Seq<char>)| lex_le(a.1, b.1)
}

pub open spec fn bucketless() -> spec_fn(FixtureFile) -> bool {
    |f: FixtureFile| fixture_bucket(f).len() == 0
}

fn bucket_chars(relative: &str) -> (r: Vec<char>)
    ensures
        r@ == split_seq(relative@, '/')[0],
{
    let mut parts = split_chars(&chars_of(relative), '/');
    proof {
        lemma_split_nonempty(relative@, '/');
        assert(views(parts@)[0] == parts@[0]@);
    }
    parts.swap_remove(0)
}

fn digest_of(f: &FixtureFile) -> (r: FixtureDigest)
    ensures
        digest_view(r) == file_digest(*f),
{
    let bucket = bucket_chars(f.relative_to_fixtures.as_str());
    let digest = sha256_digest(&f.bytes);
    FixtureDigest {
        bucket: string_of(&bucket),
        path: normalize_path(f.relative_to_packet.as_str()),
        sha256: hex_string(&digest),
    }
}

/// The digests of a packet's fixture files, ordered by path; a file whose path under the
/// fixtures has no first component is refused.
pub fn fixture_digests_from(files: &Vec<FixtureFile>) -> (r: Result<Vec<FixtureDigest>, XtaskError>)
    ensures
        match first_match(files@, bucketless(), 0) {
            Some(k) => r matches Err(e) && e@ == XtaskErrorView::WriteFailure(
                "fixture path `"@ + files@[k].path@ + "` is missing a bucket component"@,
            ),
            None => r matches Ok(v) && sorted_by(digest_views(v@), by_path()) && digest_views(v@).to_multiset()
                == file_digests(files@).to_multiset(),
        },
{
    broadcast use vstd::seq_lib::group_to_multiset_ensures;

    let mut i: usize = 0;
    while i < files.len()
        invariant
            i <= files@.len(),
            first_match(files@, bucketless(), 0) == first_match(files@, bucketless(), i as int),
        decreases files@.len() - i,
    {
        let b = bucket_chars(files[i].relative_to_fixtures.as_str());
        if b.len() == 0 {
            let mut m = owned("fixture path `");
            m.append(files[i].path.as_str());
            m.append("` is missing a bucket component");
            return Err(XtaskError::WriteFailure(m));
        }
        i = i + 1;
    }
    let mut out: Vec<FixtureDigest> = Vec::new();
    let mut j: usize = 0;
    proof {
        assert(digest_views(out@) =~= Seq::<(Seq<char>, Seq<char>, Seq<char>)>::empty());
        assert(file_digests(files@.take(0)) =~= Seq::<(Seq<char>, Seq<char>, Seq<char>)>::empty());
    }
    while j < files.len()
        invariant
            j <= files@.len(),
            sorted_by(digest_views(out@), by_path()),
            digest_views(out@).to_multiset() == file_digests(files@.take(j as int)).to_multiset(),
        decreases files@.len() - j,
    {
        let d = digest_of(&files[j]);
        let pc = chars_of(d.path.as_str());
        let mut p: usize = 0;
        while p < out.len() && !lex_less(&pc, &chars_of(out[p].path.as_str()))
            invariant
                p <= out@.len(),
                pc@ == d.path@,
                forall|k: int| 0 <= k < p ==> !lex_lt(pc@, #[trigger] out@[k].path@),
            decreases out@.len() - p,
        {
            p = p + 1;
        }
        let ghost before = digest_views(out@);
        let ghost x = digest_view(d);
        proof {
            assert forall|k: int| 0 <= k < p implies !lex_lt(x.1, #[trigger] before[k].1) by {
                assert(before[k].1 == out@[k].path@);
            }
            if p < out@.len() {
                assert(lex_lt(x.1, before[p as int].1));
            }
        }
        out.insert(p, d);
        proof {
            assert(digest_views(out@) =~= before.insert(p as int, x));
            assert(file_digests(files@.take(j + 1)) =~= file_digests(files@.take(j as int)).push(
                file_digest(files@[j as int]),
            ));
            vstd::seq_lib::to_multiset_insert(before, p as int, x);
            vstd::seq_lib::to_multiset_build(file_digests(files@.take(j as int)), file_digest(files@[j as int]));
            assert forall|a: int, b: int| 0 <= a < b < digest_views(out@).len() implies #[trigger] by_path()(
                digest_views(out@)[a],
                digest_views(out@)[b],
            ) by {
                let o = digest_views(out@);
                if a < p && b < p {
                    assert(o[a] == before[a] && o[b] == before[b]);
                    assert(by_path()(before[a], before[b]));
                } else if a < p && b == p {
                    assert(o[a] == before[a] && o[b] == x);
                } else if a < p {
                    assert(o[a] == before[a] && o[b] == before[b - 1]);
                    assert(by_path()(before[a], before[b - 1]));
                } else if a == p {
                    assert(o[a] == x && o[b] == before[b - 1]);
                    lemma_lex_total(x.1, before[p as int].1);
                    if lex_lt(before[b - 1].1, x.1) {
                        if p < b - 1 {
                            assert(by_path()(before[p as int], before[b - 1]));
                            lemma_lex_transitive(before[b - 1].1, x.1, before[p as int].1);
                        }
                    }
                } else {
                    assert(o[a] == before[a - 1] && o[b] == before[b - 1]);
                    assert(by_path()(before[a - 1], before[b - 1]));
                }
            }
        }
        j = j + 1;
    }
    proof {
        assert(files@.take(files@.len() as int) =~= files@);
    }
    Ok(out)
}

} // verus!
