//! The decisions of the prove and certify workflows: which gates passed, whether suites
//! belong to their family, and what a run reports.
use vstd::prelude::*;
use crate::family::attestation::{first_occurrence, find_first, str_views, SuiteDefinition};
use crate::family::error::{XtaskError, XtaskErrorView};
use crate::family::report::{
    failed_names, failed_suite_names, gates_from, report_consistent, required_gate_list, same_provenance, set_gates,
    set_overall, ArtifactKind, CertificationReport, GateId, PassFail, SuiteReport,
};
use crate::seam::join_commas;
use crate::text::{chars_of, concat, owned};

verus! {

/// Which of the four gates passed.
#[derive(Debug, Clone, Copy, PartialEq, Eq, Structural)]
pub struct GateResults {
    pub gate_a: bool,
    pub gate_b: bool,
    pub gate_c: bool,
    pub gate_d: bool,
}

pub open spec fn gate_passed(g: GateResults, gate: GateId) -> bool {
    match gate {
        GateId::GateA => g.gate_a,
        GateId::GateB => g.gate_b,
        GateId::GateC => g.gate_c,
        GateId::GateD => g.gate_d,
    }
}

/// Every gate an artifact kind requires passed.
pub open spec fn satisfies_kind(g: GateResults, kind: ArtifactKind) -> bool {
    forall|i: int| 0 <= i < required_gate_list(kind).len() ==> gate_passed(g, #[trigger] required_gate_list(kind)[i])
}

impl GateResults {
    /// What a report says of each gate.
    pub fn from_report(report: &CertificationReport) -> (r: GateResults)
        ensures
            r.gate_a == (report.gates.gate_a.status == PassFail::Pass),
            r.gate_b == (report.gates.gate_b.status == PassFail::Pass),
            r.gate_c == (report.gates.gate_c.status == PassFail::Pass),
            r.gate_d == (report.gates.gate_d.status == PassFail::Pass),
    {
        GateResults {
            gate_a: report.gates.gate_a.status.is_pass(),
            gate_b: report.gates.gate_b.status.is_pass(),
            gate_c: report.gates.gate_c.status.is_pass(),
            gate_d: report.gates.gate_d.status.is_pass(),
        }
    }

    /// Records one gate's outcome; the others stay.
    pub fn set(&mut self, gate: GateId, passed: bool)
        ensures
            gate_passed(*final(self), gate) == passed,
            forall|other: GateId| other != gate ==> gate_passed(*final(self), other) == gate_passed(*old(self), other),
    {
        match gate {
            GateId::GateA => self.gate_a = passed,
            GateId::GateB => self.gate_b = passed,
            GateId::GateC => self.gate_c = passed,
            GateId::GateD => self.gate_d = passed,
        }
    }

    pub fn is_pass(self, gate: GateId) -> (r: bool)
        ensures
            r == gate_passed(self, gate),
    {
        match gate {
            GateId::GateA => self.gate_a,
            GateId::GateB => self.gate_b,
            GateId::GateC => self.gate_c,
            GateId::GateD => self.gate_d,
        }
    }

    /// Whether every gate the artifact kind requires passed.
    pub fn satisfies(self, artifact_kind: ArtifactKind) -> (r: bool)
        ensures
            r == satisfies_kind(self, artifact_kind),
    {
        let required = artifact_kind.required_gates();
        let mut i: usize = 0;
        while i < required.len()
            invariant
                i <= required@.len(),
                required@ == required_gate_list(artifact_kind),
                forall|k: int| 0 <= k < i ==> gate_passed(self, #[trigger] required@[k]),
            decreases required@.len() - i,
        {
            if !self.is_pass(required[i]) {
                return false;
            }
            i = i + 1;
        }
        true
    }
}

pub open spec fn contains_text(s: Seq<char>, pat: Seq<char>) -> bool {
    first_occurrence(s, pat) is Some
}

fn contains_str(s: &str, pat: &str) -> (r: bool)
    ensures
        r == contains_text(s@, pat@),
{
    let cs = chars_of(s);
    let ps = chars_of(pat);
    find_first(&cs, &ps).is_some()
}

/// The first suite, or expected test of a suite, whose name lacks the family's slug.
pub open spec fn ownership_issue(
    family: Seq<char>,
    slug: Seq<char>,
    suites: Seq<SuiteDefinition>,
    workflow: Seq<char>,
) -> Option<XtaskErrorView>
    decreases suites.len(),
{
    if suites.len() == 0 {
        None
    } else {
        let s = suites[0];
        let tests = str_views(s.expected_tests@);
        if !contains_text(s.name@, slug) {
            Some(
                XtaskErrorView::InvalidInput(
                    workflow + " suite `"@ + s.name@ + "` is not owned by family `"@ + family
                        + "`; suite names must include `"@ + slug + "`"@,
                ),
            )
        } else if exists|i: int| 0 <= i < tests.len() && !contains_text(#[trigger] tests[i], slug) {
            let i = choose|i: int| 0 <= i < tests.len() && !contains_text(#[trigger] tests[i], slug) && forall|j: int|
                0 <= j < i ==> contains_text(#[trigger] tests[j], slug);
            Some(
                XtaskErrorView::InvalidInput(
                    workflow + " suite `"@ + s.name@ + "` includes expected test `"@ + tests[i]
                        + "` that is not owned by family `"@ + family + "`; expected test names must include `"@ + slug
                        + "`"@,
                ),
            )
        } else {
            ownership_issue(family, slug, suites.drop_first(), workflow)
        }
    }
}

/// Refuses suites of a workflow that do not belong to the family: each suite name and each
/// expected test name must include the family's suite slug.
pub fn validate_suite_ownership(
    family: &str,
    suite_slug: &str,
    suites: &Vec<SuiteDefinition>,
    workflow: &str,
) -> (r: Result<(), XtaskError>)
    ensures
        match ownership_issue(family@, suite_slug@, suites@, workflow@) {
            None => r is Ok,
            Some(e) => r matches Err(x) && x@ == e,
        },
{
    let mut i: usize = 0;
    proof {
        assert(suites@.skip(0) =~= suites@);
    }
    while i < suites.len()
        invariant
            i <= suites@.len(),
            ownership_issue(family@, suite_slug@, suites@, workflow@) == ownership_issue(
                family@,
                suite_slug@,
                suites@.skip(i as int),
                workflow@,
            ),
        decreases suites@.len() - i,
    {
        proof {
            assert(suites@.skip(i as int)[0] == suites@[i as int]);
            assert(suites@.skip(i as int).drop_first() =~= suites@.skip(i + 1));
        }
        let s = suites[i];
        if !contains_str(s.name, suite_slug) {
            let mut m = concat(workflow, " suite `");
            m.append(s.name);
            m.append("` is not owned by family `");
            m.append(family);
            m.append("`; suite names must include `");
            m.append(suite_slug);
            m.append("`");
            return Err(XtaskError::InvalidInput(m));
        }
        let ghost tests = str_views(s.expected_tests@);
        let mut k: usize = 0;
        while k < s.expected_tests.len()
            invariant
                k <= s.expected_tests@.len(),
                tests == str_views(s.expected_tests@),
                i < suites@.len(),
                s == suites@[i as int],
                suites@.skip(i as int)[0] == s,
                contains_text(s.name@, suite_slug@),
                ownership_issue(family@, suite_slug@, suites@, workflow@) == ownership_issue(
                    family@,
                    suite_slug@,
                    suites@.skip(i as int),
                    workflow@,
                ),
                forall|j: int| 0 <= j < k ==> contains_text(#[trigger] tests[j], suite_slug@),
            decreases s.expected_tests@.len() - k,
        {
            let t = s.expected_tests[k];
            if !contains_str(t, suite_slug) {
                proof {
                    assert(tests[k as int] == t@);
                    let i0 = choose|i: int| 0 <= i < tests.len() && !contains_text(#[trigger] tests[i], suite_slug@)
                        && forall|j: int| 0 <= j < i ==> contains_text(#[trigger] tests[j], suite_slug@);
                    if i0 < k {
                        assert(contains_text(tests[i0], suite_slug@));
                    }
                    if i0 > k {
                        assert(contains_text(tests[k as int], suite_slug@));
                    }
                }
                let mut m = concat(workflow, " suite `");
                m.append(s.name);
                m.append("` includes expected test `");
                m.append(t);
                m.append("` that is not owned by family `");
                m.append(family);
                m.append("`; expected test names must include `");
                m.append(suite_slug);
                m.append("`");
                return Err(XtaskError::InvalidInput(m));
            }
            proof {
                assert(tests[k as int] == t@);
            }
            k = k + 1;
        }
        i = i + 1;
    }
    Ok(())
}

/// How a prove run ended.
#[derive(Debug, Clone)]
pub enum ProveOutcome {
    Passed,
    InvalidInput(String),
    SuiteFailure(String),
}

/// What a prove run returns for its outcome.
pub fn finish_for_prove(outcome: ProveOutcome) -> (r: Result<(), XtaskError>)
    ensures
        match outcome {
            ProveOutcome::Passed => r is Ok,
            ProveOutcome::InvalidInput(m) => r matches Err(e) && e@ == XtaskErrorView::InvalidInput(m@),
            ProveOutcome::SuiteFailure(m) => r matches Err(e) && e@ == XtaskErrorView::ProveSuiteFailure(m@),
        },
{
    match outcome {
        ProveOutcome::Passed => Ok(()),
        ProveOutcome::InvalidInput(m) => Err(XtaskError::InvalidInput(m)),
        ProveOutcome::SuiteFailure(m) => Err(XtaskError::ProveSuiteFailure(m)),
    }
}

/// A prove run stopped before its suites ran: every gate failed, and the run reports the refusal.
pub fn prove_refused(report: &mut CertificationReport, message: String) -> (r: ProveOutcome)
    ensures
        final(report).gates == gates_from(false, false, false, false),
        report_consistent(*final(report)),
        final(report).artifact_kind == old(report).artifact_kind,
        same_provenance(*final(report), *old(report)),
        final(report).suites@ == old(report).suites@,
        r matches ProveOutcome::InvalidInput(m) && m@ == message@,
{
    set_gates(report, false, false, false, false);
    set_overall(report, false);
    ProveOutcome::InvalidInput(message)
}

/// Whether the last run recorded for `gate` passed; a gate no run covers fails.
pub open spec fn gate_after(runs: Seq<(GateId, SuiteReport)>, gate: GateId) -> bool
    decreases runs.len(),
{
    if runs.len() == 0 {
        false
    } else if runs.last().0 == gate {
        runs.last().1.status == PassFail::Pass
    } else {
        gate_after(runs.drop_last(), gate)
    }
}

pub open spec fn suites_of(runs: Seq<(GateId, SuiteReport)>) -> Seq<SuiteReport> {
    runs.map_values(|r: (GateId, SuiteReport)| r.1)
}

/// Keeps the prove suites in the report and sets each gate from the last suite that covers
/// it; the run passes when the first three gates passed and otherwise names its failed suites.
pub fn record_prove_suites(report: &mut CertificationReport, runs: Vec<(GateId, SuiteReport)>) -> (r: ProveOutcome)
    ensures
        final(report).suites@ == suites_of(runs@),
        final(report).gates == gates_from(
            gate_after(runs@, GateId::GateA),
            gate_after(runs@, GateId::GateB),
            gate_after(runs@, GateId::GateC),
            gate_after(runs@, GateId::GateD),
        ),
        report_consistent(*final(report)),
        final(report).artifact_kind == old(report).artifact_kind,
        same_provenance(*final(report), *old(report)),
        (gate_after(runs@, GateId::GateA) && gate_after(runs@, GateId::GateB) && gate_after(runs@, GateId::GateC))
            ==> r is Passed,
        !(gate_after(runs@, GateId::GateA) && gate_after(runs@, GateId::GateB) && gate_after(runs@, GateId::GateC))
            ==> (r matches ProveOutcome::SuiteFailure(m) && m@ == "prove suite failure: "@ + join_commas(
            failed_names(suites_of(runs@)),
        )),
{
    let mut gates = GateResults { gate_a: false, gate_b: false, gate_c: false, gate_d: false };
    let mut suites: Vec<SuiteReport> = Vec::new();
    let mut runs = runs;
    let ghost all = runs@;
    let mut i: usize = 0;
    proof {
        assert(all.skip(0) =~= all);
        assert(all.len() == runs.len());
    }
    while runs.len() > 0
        invariant
            i <= all.len(),
            all.len() <= usize::MAX,
            i + runs@.len() == all.len(),
            runs@ == all.skip(i as int),
            suites@ == suites_of(all.take(i as int)),
            gates.gate_a == gate_after(all.take(i as int), GateId::GateA),
            gates.gate_b == gate_after(all.take(i as int), GateId::GateB),
            gates.gate_c == gate_after(all.take(i as int), GateId::GateC),
            gates.gate_d == gate_after(all.take(i as int), GateId::GateD),
        decreases runs@.len(),
    {
        let (gate, suite) = runs.remove(0);
        proof {
            assert(all[i as int] == (gate, suite));
            assert(all.take(i + 1).drop_last() =~= all.take(i as int));
            assert(all.take(i + 1).last() == (gate, suite));
            assert(suites_of(all.take(i + 1)) =~= suites_of(all.take(i as int)).push(suite));
            assert(all.skip(i as int).remove(0) =~= all.skip(i + 1));
        }
        let ghost before = gates;
        gates.set(gate, suite.status.is_pass());
        proof {
            assert(gate_passed(gates, GateId::GateA) == gates.gate_a);
            assert(gate_passed(gates, GateId::GateB) == gates.gate_b);
            assert(gate_passed(gates, GateId::GateC) == gates.gate_c);
            assert(gate_passed(gates, GateId::GateD) == gates.gate_d);
            assert(gate_passed(before, GateId::GateA) == before.gate_a);
            assert(gate_passed(before, GateId::GateB) == before.gate_b);
            assert(gate_passed(before, GateId::GateC) == before.gate_c);
            assert(gate_passed(before, GateId::GateD) == before.gate_d);
        }
        suites.push(suite);
        i = i + 1;
    }
    proof {
        assert(i == all.len());
    }
    proof {
        assert(all.take(all.len() as int) =~= all);
    }
    report.suites = suites;
    set_gates(report, gates.gate_a, gates.gate_b, gates.gate_c, gates.gate_d);
    let prove_passed = gates.satisfies(ArtifactKind::ProveLatest);
    proof {
        assert(required_gate_list(ArtifactKind::ProveLatest)[0] == GateId::GateA);
        assert(required_gate_list(ArtifactKind::ProveLatest)[1] == GateId::GateB);
        assert(required_gate_list(ArtifactKind::ProveLatest)[2] == GateId::GateC);
    }
    set_overall(report, prove_passed);
    if prove_passed {
        ProveOutcome::Passed
    } else {
        let names = failed_suite_names(&report.suites);
        ProveOutcome::SuiteFailure(concat("prove suite failure: ", names.as_str()))
    }
}

/// Gate D passes when every certify suite passed and the manifest's routing matched.
pub open spec fn certify_gate_d(extra: Seq<SuiteReport>, routing_mismatch: Option<String>) -> bool {
    (forall|i: int| 0 <= i < extra.len() ==> (#[trigger] extra[i]).status == PassFail::Pass) && routing_mismatch is None
}

/// Why a certify attempt failed: its failed suites when any failed, else gate D with the
/// routing mismatch.
pub open spec fn certify_failure_message(extra: Seq<SuiteReport>, routing_mismatch: Option<String>) -> Seq<char> {
    if exists|i: int| 0 <= i < extra.len() && (#[trigger] extra[i]).status != PassFail::Pass {
        "certify suite failure: "@ + join_commas(failed_names(extra))
    } else {
        "certify gate failure: gate_d"@ + match routing_mismatch {
            Some(m) => " ("@ + m@ + ")"@,
            None => Seq::empty(),
        }
    }
}

/// Records the certify suites after the prove suites and decides gate D and the attempt;
/// a failed attempt is reported as a certify suite failure.
pub fn record_certify_suites(
    report: &mut CertificationReport,
    extra_suites: Vec<SuiteReport>,
    routing_mismatch: Option<String>,
) -> (r: Option<XtaskError>)
    ensures
        final(report).suites@ == old(report).suites@ + extra_suites@,
        final(report).gates == gates_from(
            old(report).gates.gate_a.status == PassFail::Pass,
            old(report).gates.gate_b.status == PassFail::Pass,
            old(report).gates.gate_c.status == PassFail::Pass,
            certify_gate_d(extra_suites@, routing_mismatch),
        ),
        report_consistent(*final(report)),
        final(report).artifact_kind == old(report).artifact_kind,
        same_provenance(*final(report), *old(report)),
        ({
            let passed = old(report).gates.gate_a.status == PassFail::Pass && old(report).gates.gate_b.status
                == PassFail::Pass && old(report).gates.gate_c.status == PassFail::Pass && certify_gate_d(
                extra_suites@,
                routing_mismatch,
            );
            &&& passed ==> r is None
            &&& !passed ==> (r matches Some(e) && e@ == XtaskErrorView::CertifySuiteFailure(
                certify_failure_message(extra_suites@, routing_mismatch),
            ))
        }),
{
    let mut all_pass = true;
    let mut i: usize = 0;
    while i < extra_suites.len()
        invariant
            i <= extra_suites@.len(),
            all_pass == forall|k: int| 0 <= k < i ==> (#[trigger] extra_suites@[k]).status == PassFail::Pass,
        decreases extra_suites@.len() - i,
    {
        if !extra_suites[i].status.is_pass() {
            all_pass = false;
        }
        i = i + 1;
    }
    let gate_d = all_pass && routing_mismatch.is_none();
    let mut gates = GateResults::from_report(report);
    let ghost before = gates;
    gates.set(GateId::GateD, gate_d);
    proof {
        assert(gate_passed(gates, GateId::GateA) == gate_passed(before, GateId::GateA));
        assert(gate_passed(gates, GateId::GateB) == gate_passed(before, GateId::GateB));
        assert(gate_passed(gates, GateId::GateC) == gate_passed(before, GateId::GateC));
        assert(gate_passed(gates, GateId::GateD) == gate_d);
    }
    let failure_text = if all_pass {
        let mut m = owned("certify gate failure: gate_d");
        if let Some(msg) = &routing_mismatch {
            m.append(" (");
            m.append(msg.as_str());
            m.append(")");
            proof {
                assert(m@ =~= "certify gate failure: gate_d"@ + (" ("@ + msg@ + ")"@));
            }
        } else {
            proof {
                assert(m@ =~= "certify gate failure: gate_d"@ + Seq::<char>::empty());
            }
        }
        m
    } else {
        let names = failed_suite_names(&extra_suites);
        concat("certify suite failure: ", names.as_str())
    };
    let mut extra = extra_suites;
    report.suites.append(&mut extra);
    set_gates(report, gates.gate_a, gates.gate_b, gates.gate_c, gates.gate_d);
    let passed = gates.satisfies(ArtifactKind::CertifyAttempt);
    proof {
        assert(required_gate_list(ArtifactKind::CertifyAttempt)[0] == GateId::GateA);
        assert(required_gate_list(ArtifactKind::CertifyAttempt)[1] == GateId::GateB);
        assert(required_gate_list(ArtifactKind::CertifyAttempt)[2] == GateId::GateC);
        assert(required_gate_list(ArtifactKind::CertifyAttempt)[3] == GateId::GateD);
        assert(gate_passed(gates, GateId::GateD) == gates.gate_d);
    }
    set_overall(report, passed);
    if passed {
        None
    } else {
        Some(XtaskError::CertifySuiteFailure(failure_text))
    }
}

/// What a certify attempt returns once its attempt report is written: its own failure if
/// it had one, else the prove run's failure, else success.
pub fn certify_result(certify_error: Option<XtaskError>, prove_outcome: ProveOutcome) -> (r: Result<(), XtaskError>)
    ensures
        match certify_error {
            Some(e) => r matches Err(x) && x@ == e@,
            None => match prove_outcome {
                ProveOutcome::Passed => r is Ok,
                ProveOutcome::InvalidInput(m) => r matches Err(x) && x@ == XtaskErrorView::InvalidInput(m@),
                ProveOutcome::SuiteFailure(m) => r matches Err(x) && x@ == XtaskErrorView::CertifyProveFailure(m@),
            },
        },
{
    if let Some(e) = certify_error {
        return Err(e);
    }
    match prove_outcome {
        ProveOutcome::Passed => Ok(()),
        ProveOutcome::InvalidInput(m) => Err(XtaskError::InvalidInput(m)),
        ProveOutcome::SuiteFailure(m) => Err(XtaskError::CertifyProveFailure(m)),
    }
}


/// The checks a prove run makes before it runs its suites, in order.
#[derive(Debug, Clone, Copy, PartialEq, Eq, Structural)]
pub enum ProveStage {
    FamilyId,
    TargetLanguage,
    Harness,
    PacketPath,
    FixtureDigests,
    SuiteOwnership,
    Manifest,
    Layout,
}

/// What a prove run does after one of its checks.
#[derive(Debug)]
pub enum ProveStep {
    /// Go on to this check.
    Next(ProveStage),
    /// Every check passed: run the suites.
    RunSuites,
    /// Stop with this error, writing no report.
    Fail(XtaskError),
    /// Stop with every gate failed and this invalid-input refusal as the outcome.
    Refuse(String),
}

/// The check after `stage`, if any.
pub open spec fn next_stage(stage: ProveStage) -> Option<ProveStage> {
    match stage {
        ProveStage::FamilyId => Some(ProveStage::TargetLanguage),
        ProveStage::TargetLanguage => Some(ProveStage::Harness),
        ProveStage::Harness => Some(ProveStage::PacketPath),
        ProveStage::PacketPath => Some(ProveStage::FixtureDigests),
        ProveStage::FixtureDigests => Some(ProveStage::SuiteOwnership),
        ProveStage::SuiteOwnership => Some(ProveStage::Manifest),
        ProveStage::Manifest => Some(ProveStage::Layout),
        ProveStage::Layout => None,
    }
}

/// Checks whose failure is reported through the run's report rather than as an error:
/// from packet-path safety on, once a report exists (fixture digests excepted).
pub open spec fn refuses_in_report(stage: ProveStage) -> bool {
    stage == ProveStage::PacketPath || stage == ProveStage::SuiteOwnership || stage == ProveStage::Manifest || stage
        == ProveStage::Layout
}

/// One step of a prove run's checks: a passed check leads to the next (the suites after
/// the layout); the family id, target language, harness and fixture-digest checks fail
/// the run with their error; the packet-path, suite-ownership, manifest and layout checks
/// refuse it, with the error's text, and every gate failed.
pub fn prove_step(stage: ProveStage, check: Result<(), XtaskError>) -> (r: ProveStep)
    ensures
        match check {
            Ok(()) => match next_stage(stage) {
                Some(n) => r matches ProveStep::Next(x) && x == n,
                None => r is RunSuites,
            },
            Err(e) => if refuses_in_report(stage) {
                r matches ProveStep::Refuse(m) && m@ == e@.message()
            } else {
                r matches ProveStep::Fail(x) && x@ == e@
            },
        },
{
    match check {
        Ok(()) => match stage {
            ProveStage::FamilyId => ProveStep::Next(ProveStage::TargetLanguage),
            ProveStage::TargetLanguage => ProveStep::Next(ProveStage::Harness),
            ProveStage::Harness => ProveStep::Next(ProveStage::PacketPath),
            ProveStage::PacketPath => ProveStep::Next(ProveStage::FixtureDigests),
            ProveStage::FixtureDigests => ProveStep::Next(ProveStage::SuiteOwnership),
            ProveStage::SuiteOwnership => ProveStep::Next(ProveStage::Manifest),
            ProveStage::Manifest => ProveStep::Next(ProveStage::Layout),
            ProveStage::Layout => ProveStep::RunSuites,
        },
        Err(e) => {
            if stage == ProveStage::PacketPath || stage == ProveStage::SuiteOwnership || stage == ProveStage::Manifest
                || stage == ProveStage::Layout {
                ProveStep::Refuse(e.message())
            } else {
                ProveStep::Fail(e)
            }
        },
    }
}

} // verus!
