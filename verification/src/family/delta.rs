//! How a recommendation analysis differs from the one validated before it.
use vstd::prelude::*;
use crate::errors::views_of_strings;
use crate::family::artifacts::{
    DecisionReason, EvidenceState, FamilyRecommendationAnalysisArtifact, RecommendationDelta,
};
use crate::family::recommend::{evidence_label, join_blockers, join_labels, reason_label};
use crate::seam::join_commas_string;
use crate::text::owned;
use crate::unit_ref::opt_view;

verus! {

/// Every decision reason, in the order reasons sort in.
pub open spec fn all_reasons() -> Seq<DecisionReason> {
    seq![
        DecisionReason::UnknownOverlapFamily,
        DecisionReason::HardDifficulty,
        DecisionReason::ThinRealExampleSupport,
        DecisionReason::ThinRegressionSupport,
        DecisionReason::HelperSurfaceNotPromotable,
        DecisionReason::RegressionWarning,
    ]
}

/// Every evidence state, in the order states sort in.
pub open spec fn all_evidence() -> Seq<EvidenceState> {
    seq![EvidenceState::ThinRealExampleSupport, EvidenceState::ThinRegressionSupport, EvidenceState::StaleEvidence]
}

/// The reasons among `cands` that `a` holds and `b` does not, in the order of `cands`.
pub open spec fn reasons_between(cands: Seq<DecisionReason>, a: Seq<DecisionReason>, b: Seq<DecisionReason>) -> Seq<
    DecisionReason,
>
    decreases cands.len(),
{
    if cands.len() == 0 {
        Seq::empty()
    } else {
        let prev = reasons_between(cands.drop_last(), a, b);
        if a.contains(cands.last()) && !b.contains(cands.last()) {
            prev.push(cands.last())
        } else {
            prev
        }
    }
}

/// The set difference `a \ b` of two lists of reasons, each once, in sort order.
pub open spec fn reason_difference(a: Seq<DecisionReason>, b: Seq<DecisionReason>) -> Seq<DecisionReason> {
    reasons_between(all_reasons(), a, b)
}

/// The states among `cands` that `a` holds and `b` does not, in the order of `cands`.
pub open spec fn states_between(cands: Seq<EvidenceState>, a: Seq<EvidenceState>, b: Seq<EvidenceState>) -> Seq<
    EvidenceState,
>
    decreases cands.len(),
{
    if cands.len() == 0 {
        Seq::empty()
    } else {
        let prev = states_between(cands.drop_last(), a, b);
        if a.contains(cands.last()) && !b.contains(cands.last()) {
            prev.push(cands.last())
        } else {
            prev
        }
    }
}

/// The set difference `a \ b` of two lists of evidence states, each once, in sort order.
pub open spec fn state_difference(a: Seq<EvidenceState>, b: Seq<EvidenceState>) -> Seq<EvidenceState> {
    states_between(all_evidence(), a, b)
}

/// The evidence lines of one kind: `kind:+state` for each state gained, then
/// `kind:-state` for each state lost.
pub open spec fn diff_lines(kind: Seq<char>, previous: Seq<EvidenceState>, current: Seq<EvidenceState>) -> Seq<
    Seq<char>,
> {
    state_difference(current, previous).map_values(|s: EvidenceState| kind + ":+"@ + evidence_label(s))
        + state_difference(previous, current).map_values(|s: EvidenceState| kind + ":-"@ + evidence_label(s))
}

/// All evidence lines between two analyses: missing evidence first, then stale evidence.
pub open spec fn evidence_change_lines(
    previous: FamilyRecommendationAnalysisArtifact,
    current: FamilyRecommendationAnalysisArtifact,
) -> Seq<Seq<char>> {
    diff_lines(
        "missing_evidence"@,
        previous.evidence_summary.missing_evidence@,
        current.evidence_summary.missing_evidence@,
    ) + diff_lines(
        "stale_evidence"@,
        previous.evidence_summary.stale_evidence@,
        current.evidence_summary.stale_evidence@,
    )
}

pub open spec fn bool_text(b: bool) -> Seq<char> {
    if b {
        "true"@
    } else {
        "false"@
    }
}

/// The delta's summary line.
pub open spec fn delta_summary(
    decision_changed: bool,
    top_candidate_changed: bool,
    added: Seq<DecisionReason>,
    cleared: Seq<DecisionReason>,
    changes: Seq<Seq<char>>,
) -> Seq<char> {
    if !decision_changed && !top_candidate_changed && added.len() == 0 && cleared.len() == 0 && changes.len() == 0 {
        "Decision surface unchanged from the previous validated analysis artifact."@
    } else {
        "Decision delta: decision_changed="@ + bool_text(decision_changed) + ", top_candidate_changed="@
            + bool_text(top_candidate_changed) + ", reasons_added="@ + join_labels(
            added.map_values(|r: DecisionReason| reason_label(r)),
        ) + ", reasons_cleared="@ + join_labels(cleared.map_values(|r: DecisionReason| reason_label(r)))
            + ", evidence_changes="@ + join_labels(changes) + "."@
    }
}

fn contains_reason(v: &Vec<DecisionReason>, r: DecisionReason) -> (b: bool)
    ensures
        b == v@.contains(r),
{
    let mut i: usize = 0;
    while i < v.len()
        invariant
            i <= v@.len(),
            forall|k: int| 0 <= k < i ==> v@[k] != r,
        decreases v@.len() - i,
    {
        if v[i] == r {
            return true;
        }
        i = i + 1;
    }
    false
}

fn contains_state(v: &Vec<EvidenceState>, s: EvidenceState) -> (b: bool)
    ensures
        b == v@.contains(s),
{
    let mut i: usize = 0;
    while i < v.len()
        invariant
            i <= v@.len(),
            forall|k: int| 0 <= k < i ==> v@[k] != s,
        decreases v@.len() - i,
    {
        if v[i] == s {
            return true;
        }
        i = i + 1;
    }
    false
}

fn all_reasons_vec() -> (r: Vec<DecisionReason>)
    ensures
        r@ == all_reasons(),
{
    let r = vec![
        DecisionReason::UnknownOverlapFamily,
        DecisionReason::HardDifficulty,
        DecisionReason::ThinRealExampleSupport,
        DecisionReason::ThinRegressionSupport,
        DecisionReason::HelperSurfaceNotPromotable,
        DecisionReason::RegressionWarning,
    ];
    proof {
        assert(r@ =~= all_reasons());
    }
    r
}

fn all_evidence_vec() -> (r: Vec<EvidenceState>)
    ensures
        r@ == all_evidence(),
{
    let r = vec![EvidenceState::ThinRealExampleSupport, EvidenceState::ThinRegressionSupport, EvidenceState::StaleEvidence];
    proof {
        assert(r@ =~= all_evidence());
    }
    r
}

/// The reasons `a` records and `b` does not, each once, in sort order.
pub fn reasons_added(a: &Vec<DecisionReason>, b: &Vec<DecisionReason>) -> (r: Vec<DecisionReason>)
    ensures
        r@ == reason_difference(a@, b@),
{
    let all = all_reasons_vec();
    let mut out: Vec<DecisionReason> = Vec::new();
    let mut i: usize = 0;
    while i < all.len()
        invariant
            i <= all@.len(),
            all@ == all_reasons(),
            out@ == reasons_between(all@.take(i as int), a@, b@),
        decreases all@.len() - i,
    {
        proof {
            assert(all@.take(i + 1).drop_last() =~= all@.take(i as int));
        }
        let r = all[i];
        if contains_reason(a, r) && !contains_reason(b, r) {
            out.push(r);
        }
        i = i + 1;
    }
    proof {
        assert(all@.take(all@.len() as int) =~= all@);
    }
    out
}

/// The states `a` records and `b` does not, each once, in sort order.
pub fn states_added(a: &Vec<EvidenceState>, b: &Vec<EvidenceState>) -> (r: Vec<EvidenceState>)
    ensures
        r@ == state_difference(a@, b@),
{
    let all = all_evidence_vec();
    let mut out: Vec<EvidenceState> = Vec::new();
    let mut i: usize = 0;
    while i < all.len()
        invariant
            i <= all@.len(),
            all@ == all_evidence(),
            out@ == states_between(all@.take(i as int), a@, b@),
        decreases all@.len() - i,
    {
        proof {
            assert(all@.take(i + 1).drop_last() =~= all@.take(i as int));
        }
        let s = all[i];
        if contains_state(a, s) && !contains_state(b, s) {
            out.push(s);
        }
        i = i + 1;
    }
    proof {
        assert(all@.take(all@.len() as int) =~= all@);
    }
    out
}

fn evidence_label_str(s: EvidenceState) -> (r: &'static str)
    ensures
        r@ == evidence_label(s),
{
    match s {
        EvidenceState::ThinRealExampleSupport => "thin_real_example_support",
        EvidenceState::ThinRegressionSupport => "thin_regression_support",
        EvidenceState::StaleEvidence => "stale_evidence",
    }
}

/// Appends `kind` + `marker` + the label of each state to `out`.
fn push_lines(out: &mut Vec<String>, kind: &str, marker: &str, states: &Vec<EvidenceState>)
    ensures
        views_of_strings(final(out)@) == views_of_strings(old(out)@) + states@.map_values(
            |s: EvidenceState| kind@ + marker@ + evidence_label(s),
        ),
{
    let ghost start = views_of_strings(out@);
    let mut i: usize = 0;
    while i < states.len()
        invariant
            i <= states@.len(),
            views_of_strings(out@) == start + states@.take(i as int).map_values(
                |s: EvidenceState| kind@ + marker@ + evidence_label(s),
            ),
        decreases states@.len() - i,
    {
        let mut line = owned(kind);
        line.append(marker);
        line.append(evidence_label_str(states[i]));
        let ghost before = out@;
        out.push(line);
        proof {
            assert(views_of_strings(out@) =~= views_of_strings(before).push(line@));
            assert(states@.take(i + 1).map_values(|s: EvidenceState| kind@ + marker@ + evidence_label(s))
                =~= states@.take(i as int).map_values(|s: EvidenceState| kind@ + marker@ + evidence_label(s)).push(
                kind@ + marker@ + evidence_label(states@[i as int]),
            ));
        }
        i = i + 1;
    }
    proof {
        assert(states@.take(states@.len() as int) =~= states@);
    }
}

/// The evidence lines of one kind between two lists of states.
pub fn diff_evidence(kind: &str, previous: &Vec<EvidenceState>, current: &Vec<EvidenceState>) -> (r: Vec<String>)
    ensures
        views_of_strings(r@) == diff_lines(kind@, previous@, current@),
{
    let gained = states_added(current, previous);
    let lost = states_added(previous, current);
    let mut out: Vec<String> = Vec::new();
    push_lines(&mut out, kind, ":+", &gained);
    push_lines(&mut out, kind, ":-", &lost);
    proof {
        reveal_strlit(":+");
        reveal_strlit(":-");
        assert(views_of_strings(Seq::<String>::empty()) =~= Seq::<Seq<char>>::empty());
        assert(gained@.map_values(|s: EvidenceState| kind@ + ":+"@ + evidence_label(s)) =~= state_difference(
            current@,
            previous@,
        ).map_values(|s: EvidenceState| kind@ + ":+"@ + evidence_label(s)));
        assert(views_of_strings(out@) =~= diff_lines(kind@, previous@, current@));
    }
    out
}

/// The evidence lines between two analyses: missing evidence first, then stale evidence.
pub fn evidence_changes(
    previous: &FamilyRecommendationAnalysisArtifact,
    current: &FamilyRecommendationAnalysisArtifact,
) -> (r: Vec<String>)
    ensures
        views_of_strings(r@) == evidence_change_lines(*previous, *current),
{
    let mut changes = diff_evidence(
        "missing_evidence",
        &previous.evidence_summary.missing_evidence,
        &current.evidence_summary.missing_evidence,
    );
    let mut stale = diff_evidence(
        "stale_evidence",
        &previous.evidence_summary.stale_evidence,
        &current.evidence_summary.stale_evidence,
    );
    let ghost a = views_of_strings(changes@);
    let ghost b = views_of_strings(stale@);
    changes.append(&mut stale);
    proof {
        reveal_strlit("missing_evidence");
        reveal_strlit("stale_evidence");
        assert(views_of_strings(changes@) =~= a + b);
    }
    changes
}

fn bool_string(b: bool) -> (r: String)
    ensures
        r@ == bool_text(b),
{
    if b {
        owned("true")
    } else {
        owned("false")
    }
}

fn same_top(a: &Option<String>, b: &Option<String>) -> (r: bool)
    ensures
        r == (opt_view(*a) == opt_view(*b)),
{
    match (a, b) {
        (Some(x), Some(y)) => crate::text::str_eq(x.as_str(), y.as_str()),
        (None, None) => true,
        _ => false,
    }
}

/// What changed from the previous validated analysis to the current one; the fixed
/// no-previous delta when there was none.
pub fn delta_from_previous(
    previous: Option<&FamilyRecommendationAnalysisArtifact>,
    current: &FamilyRecommendationAnalysisArtifact,
) -> (r: RecommendationDelta)
    ensures
        match previous {
            None => {
                &&& r.previous_generated_at is None
                &&& r.previous_decision_status is None
                &&& r.previous_recommendation_status is None
                &&& !r.decision_changed
                &&& !r.top_candidate_changed
                &&& r.reasons_added@.len() == 0
                &&& r.reasons_cleared@.len() == 0
                &&& r.evidence_changes@.len() == 0
                &&& r.summary@ == "No previous validated analysis artifact existed at this path."@
            },
            Some(p) => {
                &&& opt_view(r.previous_generated_at) == Some(p.generated_at@)
                &&& r.previous_decision_status == Some(p.decision_summary.decision_status)
                &&& r.previous_recommendation_status == Some(p.recommendation_status)
                &&& r.decision_changed == (current.decision_summary.decision_status
                    != p.decision_summary.decision_status)
                &&& r.top_candidate_changed == (opt_view(current.decision_summary.top_candidate_id) != opt_view(
                    p.decision_summary.top_candidate_id,
                ))
                &&& r.reasons_added@ == reason_difference(
                    current.decision_summary.open_blockers@,
                    p.decision_summary.open_blockers@,
                )
                &&& r.reasons_cleared@ == reason_difference(
                    p.decision_summary.open_blockers@,
                    current.decision_summary.open_blockers@,
                )
                &&& views_of_strings(r.evidence_changes@) == evidence_change_lines(*p, *current)
                &&& r.summary@ == delta_summary(
                    r.decision_changed,
                    r.top_candidate_changed,
                    r.reasons_added@,
                    r.reasons_cleared@,
                    views_of_strings(r.evidence_changes@),
                )
            },
        },
{
    let previous = match previous {
        None => {
            return RecommendationDelta::no_previous_artifact();
        },
        Some(p) => p,
    };
    let reasons_added_v = reasons_added(
        &current.decision_summary.open_blockers,
        &previous.decision_summary.open_blockers,
    );
    let reasons_cleared_v = reasons_added(
        &previous.decision_summary.open_blockers,
        &current.decision_summary.open_blockers,
    );
    let changes = evidence_changes(previous, current);
    let decision_changed = current.decision_summary.decision_status != previous.decision_summary.decision_status;
    let top_candidate_changed = !same_top(
        &current.decision_summary.top_candidate_id,
        &previous.decision_summary.top_candidate_id,
    );
    let summary = if !decision_changed && !top_candidate_changed && reasons_added_v.len() == 0
        && reasons_cleared_v.len() == 0 && changes.len() == 0 {
        owned("Decision surface unchanged from the previous validated analysis artifact.")
    } else {
        let mut m = owned("Decision delta: decision_changed=");
        let b1 = bool_string(decision_changed);
        m.append(b1.as_str());
        m.append(", top_candidate_changed=");
        let b2 = bool_string(top_candidate_changed);
        m.append(b2.as_str());
        m.append(", reasons_added=");
        let j1 = join_blockers(&reasons_added_v);
        m.append(j1.as_str());
        m.append(", reasons_cleared=");
        let j2 = join_blockers(&reasons_cleared_v);
        m.append(j2.as_str());
        m.append(", evidence_changes=");
        let j3 = if changes.len() == 0 {
            owned("none")
        } else {
            join_commas_string(&changes)
        };
        m.append(j3.as_str());
        m.append(".");
        m
    };
    proof {
        assert(summary@ =~= delta_summary(
            decision_changed,
            top_candidate_changed,
            reasons_added_v@,
            reasons_cleared_v@,
            views_of_strings(changes@),
        ));
    }
    RecommendationDelta {
        previous_generated_at: Some(owned(previous.generated_at.as_str())),
        previous_decision_status: Some(previous.decision_summary.decision_status),
        previous_recommendation_status: Some(previous.recommendation_status),
        decision_changed,
        top_candidate_changed,
        reasons_added: reasons_added_v,
        reasons_cleared: reasons_cleared_v,
        evidence_changes: changes,
        summary,
    }
}

impl RecommendationDelta {
    /// The delta that stands in for any other when analyses are compared.
    pub fn normalized_placeholder() -> (r: RecommendationDelta)
        ensures
            r.previous_generated_at is None,
            r.previous_decision_status is None,
            r.previous_recommendation_status is None,
            !r.decision_changed,
            !r.top_candidate_changed,
            r.reasons_added@.len() == 0,
            r.reasons_cleared@.len() == 0,
            r.evidence_changes@.len() == 0,
            r.summary@.len() == 0,
    {
        RecommendationDelta {
            previous_generated_at: None,
            previous_decision_status: None,
            previous_recommendation_status: None,
            decision_changed: false,
            top_candidate_changed: false,
            reasons_added: Vec::new(),
            reasons_cleared: Vec::new(),
            evidence_changes: Vec::new(),
            summary: String::new(),
        }
    }
}

/// An analysis as successive runs compare it: without the time it was generated and with
/// the placeholder delta.
pub fn normalized_recommendation_for_determinism(artifact: FamilyRecommendationAnalysisArtifact) -> (r:
    FamilyRecommendationAnalysisArtifact)
    ensures
        r.generated_at@.len() == 0,
        r.delta_from_previous.previous_generated_at is None,
        r.delta_from_previous.previous_decision_status is None,
        r.delta_from_previous.previous_recommendation_status is None,
        !r.delta_from_previous.decision_changed,
        !r.delta_from_previous.top_candidate_changed,
        r.delta_from_previous.reasons_added@.len() == 0,
        r.delta_from_previous.reasons_cleared@.len() == 0,
        r.delta_from_previous.evidence_changes@.len() == 0,
        r.delta_from_previous.summary@.len() == 0,
        r.schema_version == artifact.schema_version,
        r.artifact_kind == artifact.artifact_kind,
        r.coverage_path == artifact.coverage_path,
        r.coverage_sha256 == artifact.coverage_sha256,
        r.recommendation_status == artifact.recommendation_status,
        r.ranked_candidates == artifact.ranked_candidates,
        r.decision_summary == artifact.decision_summary,
        r.evidence_summary == artifact.evidence_summary,
{
    FamilyRecommendationAnalysisArtifact {
        generated_at: String::new(),
        delta_from_previous: RecommendationDelta::normalized_placeholder(),
        ..artifact
    }
}

} // verus!
