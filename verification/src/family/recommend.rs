//! Building the recommendation analysis from the unsupported clusters of a coverage snapshot.
use vstd::prelude::*;
use crate::family::artifacts::{
    DecisionReason, DecisionStatus, DecisionSummary, EvidenceState, EvidenceSummary,
    FamilyRecommendationAnalysisArtifact, PromotionArtifactKind, RecommendationDelta, RecommendationStatus,
    RECOMMENDATION_ANALYSIS_SCHEMA_VERSION, ConfidenceLevel, DifficultyTier, HoldReason, NextStepDetail, NextStepStatus, PromotionReadiness,
    RecommendationCandidateEntry, RecommendationConfidence, RecommendationDifficulty, RecommendationLeverage,
    UnsupportedFunctionReasonCode,
};
use crate::family::coverage_checks::{CandidateStatus, UnsupportedClusterEntry};
use crate::family::order::{lemma_lex_irreflexive, lemma_lex_total, lemma_lex_transitive, lex_less, lex_lt};
use crate::family::helper_surface::{classify_helper_surface, is_helper_fingerprint, HelperSurfaceSignal};
use crate::family::paths::views_of;
use crate::family::analysis_checks::{
    blockers_from, candidate_qualifies_for_ranked_status, expected_decision_status, expected_missing_evidence,
    expected_open_blockers, expected_status, expected_warning_set, expected_warnings, first_candidate, gaps_from,
    qualifies_for_ranked,
};
use crate::seam::{decimal, decimal_string, join_commas_string};
use crate::text::{chars_of, owned, push_char, str_eq};

verus! {

/// `c` in ASCII lowercase; other characters stay.
pub open spec fn lower(c: char) -> char {
    if 'A' <= c && c <= 'Z' {
        ((c as u32) + 32) as char
    } else {
        c
    }
}

pub open spec fn ascii_lower(s: Seq<char>) -> Seq<char> {
    s.map_values(|c: char| lower(c))
}

fn lower_exec(c: char) -> (r: char)
    ensures
        r == lower(c),
{
    if 'A' <= c && c <= 'Z' {
        let b: u8 = c as u8;
        let u: u8 = b + 32;
        u as char
    } else {
        c
    }
}

/// The name of a reason code, lowercased.
pub open spec fn reason_name(code: UnsupportedFunctionReasonCode) -> Seq<char> {
    match code {
        UnsupportedFunctionReasonCode::UnsupportedFunctionSurface => "unsupportedfunctionsurface"@,
        UnsupportedFunctionReasonCode::UnsupportedControlFlow => "unsupportedcontrolflow"@,
        UnsupportedFunctionReasonCode::UnsupportedDepTopology => "unsupporteddeptopology"@,
        UnsupportedFunctionReasonCode::UnsupportedArithmeticShape => "unsupportedarithmeticshape"@,
        UnsupportedFunctionReasonCode::UnsupportedRequiredArgumentExpression => "unsupportedrequiredargumentexpression"@,
        UnsupportedFunctionReasonCode::UnsupportedWrapperBodyShape => "unsupportedwrapperbodyshape"@,
    }
}

fn reason_name_str(code: UnsupportedFunctionReasonCode) -> (r: &'static str)
    ensures
        r@ == reason_name(code),
{
    match code {
        UnsupportedFunctionReasonCode::UnsupportedFunctionSurface => "unsupportedfunctionsurface",
        UnsupportedFunctionReasonCode::UnsupportedControlFlow => "unsupportedcontrolflow",
        UnsupportedFunctionReasonCode::UnsupportedDepTopology => "unsupporteddeptopology",
        UnsupportedFunctionReasonCode::UnsupportedArithmeticShape => "unsupportedarithmeticshape",
        UnsupportedFunctionReasonCode::UnsupportedRequiredArgumentExpression => "unsupportedrequiredargumentexpression",
        UnsupportedFunctionReasonCode::UnsupportedWrapperBodyShape => "unsupportedwrapperbodyshape",
    }
}

/// A candidate's id: `z` for a cluster of no known family (`a` otherwise), its reason and
/// its cluster id, all in ASCII lowercase.
pub open spec fn candidate_id_of(cl: UnsupportedClusterEntry) -> Seq<char> {
    (if cl.overlap_family@ == "unknown"@ {
        "z"@
    } else {
        "a"@
    }) + "-"@ + reason_name(cl.reason_code) + "-"@ + ascii_lower(cl.cluster_id@)
}

pub fn candidate_id(cluster: &UnsupportedClusterEntry) -> (r: String)
    ensures
        r@ == candidate_id_of(*cluster),
{
    let mut out = if str_eq(cluster.overlap_family.as_str(), "unknown") {
        owned("z-")
    } else {
        owned("a-")
    };
    out.append(reason_name_str(cluster.reason_code));
    out.append("-");
    let ghost head = out@;
    proof {
        reveal_strlit("z-");
        reveal_strlit("a-");
        reveal_strlit("z");
        reveal_strlit("a");
        reveal_strlit("-");
        assert(head =~= (if cluster.overlap_family@ == "unknown"@ {
            "z"@
        } else {
            "a"@
        }) + "-"@ + reason_name(cluster.reason_code) + "-"@);
    }
    let cs = chars_of(cluster.cluster_id.as_str());
    let mut i: usize = 0;
    while i < cs.len()
        invariant
            i <= cs@.len(),
            cs@ == cluster.cluster_id@,
            out@ == head + ascii_lower(cs@.take(i as int)),
        decreases cs@.len() - i,
    {
        push_char(&mut out, lower_exec(cs[i]));
        i = i + 1;
        proof {
            assert(ascii_lower(cs@.take(i as int)) =~= ascii_lower(cs@.take(i - 1)).push(lower(cs@[i - 1])));
        }
    }
    proof {
        assert(cs@.take(cs@.len() as int) =~= cs@);
        assert(out@ =~= candidate_id_of(*cluster));
    }
    out
}

pub open spec fn tier_of(code: UnsupportedFunctionReasonCode) -> DifficultyTier {
    match code {
        UnsupportedFunctionReasonCode::UnsupportedArithmeticShape => DifficultyTier::Adjacent,
        UnsupportedFunctionReasonCode::UnsupportedWrapperBodyShape => DifficultyTier::Adjacent,
        UnsupportedFunctionReasonCode::UnsupportedRequiredArgumentExpression => DifficultyTier::Moderate,
        _ => DifficultyTier::Hard,
    }
}

pub open spec fn difficulty_why(code: UnsupportedFunctionReasonCode) -> Seq<char> {
    match code {
        UnsupportedFunctionReasonCode::UnsupportedArithmeticShape =>
            "Arithmetic-shaped unsupported demand is adjacent to the promoted arithmetic leaf families."@,
        UnsupportedFunctionReasonCode::UnsupportedWrapperBodyShape =>
            "Wrapper-body unsupported demand is adjacent to the promoted wrapper pipeline families."@,
        UnsupportedFunctionReasonCode::UnsupportedRequiredArgumentExpression =>
            "Required-argument expression support needs broader wrapper argument handling."@,
        _ =>
            "This unsupported demand expands the semantic analysis beyond the currently promoted family boundaries."@,
    }
}

/// How hard supporting a reason code would be, and why.
pub fn difficulty_for(reason_code: UnsupportedFunctionReasonCode) -> (r: RecommendationDifficulty)
    ensures
        r.tier == tier_of(reason_code),
        r.why@ == difficulty_why(reason_code),
{
    match reason_code {
        UnsupportedFunctionReasonCode::UnsupportedArithmeticShape => RecommendationDifficulty {
            tier: DifficultyTier::Adjacent,
            why: owned("Arithmetic-shaped unsupported demand is adjacent to the promoted arithmetic leaf families."),
        },
        UnsupportedFunctionReasonCode::UnsupportedWrapperBodyShape => RecommendationDifficulty {
            tier: DifficultyTier::Adjacent,
            why: owned("Wrapper-body unsupported demand is adjacent to the promoted wrapper pipeline families."),
        },
        UnsupportedFunctionReasonCode::UnsupportedRequiredArgumentExpression => RecommendationDifficulty {
            tier: DifficultyTier::Moderate,
            why: owned("Required-argument expression support needs broader wrapper argument handling."),
        },
        _ => RecommendationDifficulty {
            tier: DifficultyTier::Hard,
            why: owned(
                "This unsupported demand expands the semantic analysis beyond the currently promoted family boundaries.",
            ),
        },
    }
}

/// Confidence: high for a known family with three or more real-example hits, medium for a
/// known family with two real hits, or one real hit and three or more regression hits
/// short of hard difficulty, low otherwise.
pub open spec fn confidence_level(overlap: Seq<char>, tier: DifficultyTier, real_hits: int, reg_hits: int) -> ConfidenceLevel {
    let known = overlap != "unknown"@;
    let medium = real_hits >= 2 || (real_hits == 1 && reg_hits >= 3 && tier != DifficultyTier::Hard);
    if known && real_hits >= 3 {
        ConfidenceLevel::High
    } else if known && medium {
        ConfidenceLevel::Medium
    } else {
        ConfidenceLevel::Low
    }
}

pub open spec fn confidence_why(level: ConfidenceLevel) -> Seq<char> {
    match level {
        ConfidenceLevel::High => "Multiple real-example hits demonstrate repeated unsupported demand."@,
        ConfidenceLevel::Medium =>
            "The cluster is backed by at least one real example or a concentrated regression signal."@,
        ConfidenceLevel::Low => "The cluster is visible, but the current real-example support is still thin."@,
    }
}

pub fn confidence_for(
    overlap_family: &str,
    difficulty_tier: DifficultyTier,
    real_example_hits: usize,
    promotion_relevant_regression_hits: usize,
) -> (r: RecommendationConfidence)
    ensures
        r.level == confidence_level(
            overlap_family@,
            difficulty_tier,
            real_example_hits as int,
            promotion_relevant_regression_hits as int,
        ),
        r.why@ == confidence_why(r.level),
{
    let known = !str_eq(overlap_family, "unknown");
    let medium = real_example_hits >= 2 || (real_example_hits == 1 && promotion_relevant_regression_hits >= 3
        && difficulty_tier != DifficultyTier::Hard);
    let level = if known && real_example_hits >= 3 {
        ConfidenceLevel::High
    } else if known && medium {
        ConfidenceLevel::Medium
    } else {
        ConfidenceLevel::Low
    };
    let why = match level {
        ConfidenceLevel::High => owned("Multiple real-example hits demonstrate repeated unsupported demand."),
        ConfidenceLevel::Medium => owned(
            "The cluster is backed by at least one real example or a concentrated regression signal.",
        ),
        ConfidenceLevel::Low => owned("The cluster is visible, but the current real-example support is still thin."),
    };
    RecommendationConfidence { level, why }
}

pub open spec fn when(cond: bool, r: HoldReason) -> Seq<HoldReason> {
    if cond {
        seq![r]
    } else {
        Seq::empty()
    }
}

/// Why a candidate is held: no known family; hard difficulty with fewer than two real_hits
/// hits; thin real-example support; thin regression support; in that order.
pub open spec fn hold_reasons_spec(overlap: Seq<char>, tier: DifficultyTier, real_hits: int, reg_hits: int) -> Seq<HoldReason> {
    when(overlap == "unknown"@, HoldReason::UnknownOverlapFamily) + when(
        tier == DifficultyTier::Hard && real_hits < 2,
        HoldReason::HardDifficulty,
    ) + when(real_hits == 0 || (real_hits == 1 && reg_hits < 3), HoldReason::ThinRealExampleSupport) + when(
        reg_hits <= 1 && real_hits <= 1,
        HoldReason::ThinRegressionSupport,
    )
}

pub fn hold_reasons_for(
    overlap_family: &str,
    difficulty_tier: DifficultyTier,
    real_example_hits: usize,
    promotion_relevant_regression_hits: usize,
) -> (r: Vec<HoldReason>)
    ensures
        r@ == hold_reasons_spec(
            overlap_family@,
            difficulty_tier,
            real_example_hits as int,
            promotion_relevant_regression_hits as int,
        ),
{
    let real_hits = real_example_hits;
    let reg_hits = promotion_relevant_regression_hits;
    let mut r: Vec<HoldReason> = Vec::new();
    let unknown = str_eq(overlap_family, "unknown");
    if unknown {
        r.push(HoldReason::UnknownOverlapFamily);
    }
    let ghost a = r@;
    if difficulty_tier == DifficultyTier::Hard && real_hits < 2 {
        r.push(HoldReason::HardDifficulty);
    }
    let ghost b = r@;
    if real_hits == 0 || (real_hits == 1 && reg_hits < 3) {
        r.push(HoldReason::ThinRealExampleSupport);
    }
    let ghost c = r@;
    if reg_hits <= 1 && real_hits <= 1 {
        r.push(HoldReason::ThinRegressionSupport);
    }
    proof {
        assert(a =~= when(overlap_family@ == "unknown"@, HoldReason::UnknownOverlapFamily));
        assert(b =~= a + when(difficulty_tier == DifficultyTier::Hard && real_hits < 2, HoldReason::HardDifficulty));
        assert(c =~= b + when(real_hits == 0 || (real_hits == 1 && reg_hits < 3), HoldReason::ThinRealExampleSupport));
        assert(r@ =~= c + when(reg_hits <= 1 && real_hits <= 1, HoldReason::ThinRegressionSupport));
    }
    r
}

/// The cluster is the durable helper surface: an unsupported function surface of no known
/// family, seen in real examples, with the helper-surface fingerprint.
pub open spec fn cluster_is_helper_surface(cl: UnsupportedClusterEntry) -> bool {
    &&& cl.reason_code == UnsupportedFunctionReasonCode::UnsupportedFunctionSurface
    &&& cl.overlap_family@ == "unknown"@
    &&& cl.real_example_hits > 0
    &&& is_helper_fingerprint(cl.shape_fingerprint@)
}

pub open spec fn cluster_holds(cl: UnsupportedClusterEntry) -> Seq<HoldReason> {
    hold_reasons_spec(
        cl.overlap_family@,
        tier_of(cl.reason_code),
        cl.real_example_hits as int,
        cl.promotion_relevant_regression_hits as int,
    )
}

/// How a candidate is resolved: the durable helper-surface hold; ready when nothing holds
/// it; otherwise held on its evidence gaps.
pub open spec fn resolution_of(cl: UnsupportedClusterEntry) -> (PromotionReadiness, Seq<HoldReason>, NextStepStatus, NextStepDetail) {
    if cluster_is_helper_surface(cl) {
        (
            PromotionReadiness::Hold,
            seq![HoldReason::HelperSurfaceNotPromotable],
            NextStepStatus::DurableHold,
            NextStepDetail::HelperSurfaceNotPromotable,
        )
    } else if cluster_holds(cl).len() == 0 {
        (PromotionReadiness::Ready, Seq::empty(), NextStepStatus::Promote, NextStepDetail::ReadyForPromotion)
    } else {
        (
            PromotionReadiness::Hold,
            cluster_holds(cl),
            NextStepStatus::TargetedEvidenceGap,
            NextStepDetail::TargetedEvidenceGap,
        )
    }
}

pub open spec fn rationale_of(cl: UnsupportedClusterEntry) -> Seq<char> {
    "Rankable cluster with "@ + decimal(cl.real_example_hits as nat) + " real-example hit(s), "@ + decimal(
        cl.promotion_relevant_regression_hits as nat,
    ) + " promotion-relevant regression hit(s), and "@ + decimal(cl.boundary_only_hits as nat)
        + " boundary-only hit(s)."@
}

/// `c` is the candidate the cluster `cl` projects to.
pub open spec fn is_candidate_of(c: RecommendationCandidateEntry, cl: UnsupportedClusterEntry) -> bool {
    let (readiness, holds, status, detail) = resolution_of(cl);
    &&& c.candidate_id@ == candidate_id_of(cl)
    &&& views_of(c.cluster_ids@) == seq![cl.cluster_id@]
    &&& c.primary_reason_code == cl.reason_code
    &&& c.overlap_family@ == cl.overlap_family@
    &&& c.promotion_readiness == readiness
    &&& c.hold_reasons@ == holds
    &&& c.next_step_status == status
    &&& c.next_step_detail == detail
    &&& c.leverage.real_example_hits == cl.real_example_hits
    &&& c.leverage.promotion_relevant_regression_hits == cl.promotion_relevant_regression_hits
    &&& c.leverage.boundary_only_hits == cl.boundary_only_hits
    &&& c.leverage.total_units_in_cluster == cl.representative_unit_ids@.len()
    &&& c.difficulty.tier == tier_of(cl.reason_code)
    &&& c.difficulty.why@ == difficulty_why(cl.reason_code)
    &&& c.confidence.level == confidence_level(
        cl.overlap_family@,
        tier_of(cl.reason_code),
        cl.real_example_hits as int,
        cl.promotion_relevant_regression_hits as int,
    )
    &&& c.confidence.why@ == confidence_why(c.confidence.level)
    &&& c.rationale@ == rationale_of(cl)
}

/// The candidate a cluster projects to, adjudicated.
pub fn candidate_from_cluster(cluster: &UnsupportedClusterEntry) -> (r: RecommendationCandidateEntry)
    ensures
        is_candidate_of(r, *cluster),
{
    let signal = HelperSurfaceSignal {
        primary_reason_code: cluster.reason_code,
        overlap_family: cluster.overlap_family.as_str(),
        real_example_hits: cluster.real_example_hits,
        shape_fingerprint: cluster.shape_fingerprint.as_str(),
    };
    let durable = classify_helper_surface(&signal).is_some();
    let difficulty = difficulty_for(cluster.reason_code);
    let holds = hold_reasons_for(
        cluster.overlap_family.as_str(),
        difficulty.tier,
        cluster.real_example_hits,
        cluster.promotion_relevant_regression_hits,
    );
    let (readiness, hold_reasons, status, detail) = if durable {
        let h = vec![HoldReason::HelperSurfaceNotPromotable];
        proof {
            assert(h@ =~= seq![HoldReason::HelperSurfaceNotPromotable]);
        }
        (PromotionReadiness::Hold, h, NextStepStatus::DurableHold, NextStepDetail::HelperSurfaceNotPromotable)
    } else if holds.len() == 0 {
        (PromotionReadiness::Ready, holds, NextStepStatus::Promote, NextStepDetail::ReadyForPromotion)
    } else {
        (PromotionReadiness::Hold, holds, NextStepStatus::TargetedEvidenceGap, NextStepDetail::TargetedEvidenceGap)
    };
    let confidence = confidence_for(
        cluster.overlap_family.as_str(),
        difficulty.tier,
        cluster.real_example_hits,
        cluster.promotion_relevant_regression_hits,
    );
    let mut rationale = owned("Rankable cluster with ");
    let n1 = decimal_string(cluster.real_example_hits);
    rationale.append(n1.as_str());
    rationale.append(" real-example hit(s), ");
    let n2 = decimal_string(cluster.promotion_relevant_regression_hits);
    rationale.append(n2.as_str());
    rationale.append(" promotion-relevant regression hit(s), and ");
    let n3 = decimal_string(cluster.boundary_only_hits);
    rationale.append(n3.as_str());
    rationale.append(" boundary-only hit(s).");
    let cluster_ids = vec![owned(cluster.cluster_id.as_str())];
    proof {
        assert(views_of(cluster_ids@) =~= seq![cluster.cluster_id@]);
        assert(rationale@ =~= rationale_of(*cluster));
    }
    RecommendationCandidateEntry {
        candidate_id: candidate_id(cluster),
        cluster_ids,
        primary_reason_code: cluster.reason_code,
        overlap_family: owned(cluster.overlap_family.as_str()),
        promotion_readiness: readiness,
        hold_reasons,
        next_step_status: status,
        next_step_detail: detail,
        leverage: RecommendationLeverage {
            real_example_hits: cluster.real_example_hits,
            promotion_relevant_regression_hits: cluster.promotion_relevant_regression_hits,
            boundary_only_hits: cluster.boundary_only_hits,
            total_units_in_cluster: cluster.representative_unit_ids.len(),
        },
        difficulty,
        confidence,
        rationale,
    }
}

pub open spec fn readiness_rank(r: PromotionReadiness) -> int {
    match r {
        PromotionReadiness::Ready => 0,
        PromotionReadiness::Hold => 1,
    }
}

pub open spec fn tier_rank(t: DifficultyTier) -> int {
    match t {
        DifficultyTier::Adjacent => 0,
        DifficultyTier::Moderate => 1,
        DifficultyTier::Hard => 2,
    }
}

/// The cluster's candidate ranks strictly before the other's: ready before held, then more
/// real-example hits, more regression hits, easier difficulty, fewer boundary-only hits,
/// and the smaller candidate id.
pub open spec fn cluster_before(a: UnsupportedClusterEntry, b: UnsupportedClusterEntry) -> bool {
    let ra = readiness_rank(resolution_of(a).0);
    let rb = readiness_rank(resolution_of(b).0);
    if ra != rb {
        ra < rb
    } else if a.real_example_hits != b.real_example_hits {
        a.real_example_hits > b.real_example_hits
    } else if a.promotion_relevant_regression_hits != b.promotion_relevant_regression_hits {
        a.promotion_relevant_regression_hits > b.promotion_relevant_regression_hits
    } else if tier_rank(tier_of(a.reason_code)) != tier_rank(tier_of(b.reason_code)) {
        tier_rank(tier_of(a.reason_code)) < tier_rank(tier_of(b.reason_code))
    } else if a.boundary_only_hits != b.boundary_only_hits {
        a.boundary_only_hits < b.boundary_only_hits
    } else {
        lex_lt(candidate_id_of(a), candidate_id_of(b))
    }
}

/// The two clusters' candidates tie on every ranking key.
pub open spec fn same_rank(a: UnsupportedClusterEntry, b: UnsupportedClusterEntry) -> bool {
    &&& readiness_rank(resolution_of(a).0) == readiness_rank(resolution_of(b).0)
    &&& a.real_example_hits == b.real_example_hits
    &&& a.promotion_relevant_regression_hits == b.promotion_relevant_regression_hits
    &&& tier_rank(tier_of(a.reason_code)) == tier_rank(tier_of(b.reason_code))
    &&& a.boundary_only_hits == b.boundary_only_hits
    &&& candidate_id_of(a) == candidate_id_of(b)
}

proof fn lemma_cluster_order(a: UnsupportedClusterEntry, b: UnsupportedClusterEntry, c: UnsupportedClusterEntry)
    ensures
        !cluster_before(a, a),
        !(cluster_before(a, b) && cluster_before(b, a)),
        !cluster_before(a, b) && !cluster_before(b, a) ==> same_rank(a, b),
        cluster_before(a, b) && cluster_before(b, c) ==> cluster_before(a, c),
        cluster_before(a, b) && same_rank(b, c) ==> cluster_before(a, c),
        same_rank(a, b) && cluster_before(b, c) ==> cluster_before(a, c),
        same_rank(a, b) ==> !cluster_before(a, b),
{
    lemma_lex_irreflexive(candidate_id_of(a));
    lemma_lex_total(candidate_id_of(a), candidate_id_of(b));
    lemma_lex_total(candidate_id_of(b), candidate_id_of(c));
    if lex_lt(candidate_id_of(a), candidate_id_of(b)) && lex_lt(candidate_id_of(b), candidate_id_of(c)) {
        lemma_lex_transitive(candidate_id_of(a), candidate_id_of(b), candidate_id_of(c));
    }
}

/// Cluster `i` is ranked before cluster `j`: its candidate ranks before, or ties and comes first.
pub open spec fn index_before(clusters: Seq<UnsupportedClusterEntry>, i: int, j: int) -> bool {
    cluster_before(clusters[i], clusters[j]) || (same_rank(clusters[i], clusters[j]) && i < j)
}

/// The indices of the rankable clusters, in cluster order.
pub open spec fn rankable_indices(clusters: Seq<UnsupportedClusterEntry>) -> Seq<int>
    decreases clusters.len(),
{
    if clusters.len() == 0 {
        Seq::empty()
    } else {
        let prev = rankable_indices(clusters.drop_last());
        if clusters.last().candidate_status == CandidateStatus::Rankable {
            prev.push(clusters.len() - 1)
        } else {
            prev
        }
    }
}

/// `order` ranks exactly the rankable clusters, each once, best first.
pub open spec fn ranked_order(clusters: Seq<UnsupportedClusterEntry>, order: Seq<int>) -> bool {
    &&& order.to_multiset() == rankable_indices(clusters).to_multiset()
    &&& forall|a: int, b: int| 0 <= a < b < order.len() ==> index_before(clusters, #[trigger] order[a], #[trigger] order[b])
}

proof fn lemma_rankable_indices(clusters: Seq<UnsupportedClusterEntry>)
    ensures
        forall|v: int|
            rankable_indices(clusters).contains(v) <==> 0 <= v < clusters.len() && clusters[v].candidate_status
                == CandidateStatus::Rankable,
    decreases clusters.len(),
{
    if clusters.len() > 0 {
        let prev = rankable_indices(clusters.drop_last());
        lemma_rankable_indices(clusters.drop_last());
        assert forall|v: int|
            rankable_indices(clusters).contains(v) <==> 0 <= v < clusters.len() && clusters[v].candidate_status
                == CandidateStatus::Rankable by {
            if clusters.last().candidate_status == CandidateStatus::Rankable {
                if rankable_indices(clusters).contains(v) && v != clusters.len() - 1 {
                    let full = prev.push(clusters.len() - 1);
                    let t = choose|t: int| 0 <= t < full.len() && #[trigger] full[t] == v;
                    assert(prev[t] == v);
                }
                if v == clusters.len() - 1 {
                    assert(prev.push(v)[prev.len() as int] == v);
                }
                if v < clusters.len() - 1 && prev.contains(v) {
                    let t = choose|t: int| 0 <= t < prev.len() && #[trigger] prev[t] == v;
                    assert(prev.push(clusters.len() - 1)[t] == v);
                }
            }
            if 0 <= v < clusters.len() - 1 {
                assert(clusters.drop_last()[v] == clusters[v]);
            }
        }
    }
}

/// A ranked order holds exactly the rankable clusters: every cluster it names is
/// rankable, and every rankable cluster stands in it.
pub proof fn lemma_ranked_order_holds_rankable(clusters: Seq<UnsupportedClusterEntry>, order: Seq<int>)
    requires
        ranked_order(clusters, order),
    ensures
        forall|x: int|
            0 <= x < order.len() ==> 0 <= #[trigger] order[x] < clusters.len() && clusters[order[x]].candidate_status
                == CandidateStatus::Rankable,
        forall|v: int|
            0 <= v < clusters.len() && #[trigger] clusters[v].candidate_status == CandidateStatus::Rankable
                ==> order.contains(v),
{
    broadcast use vstd::seq_lib::group_to_multiset_ensures;

    lemma_rankable_indices(clusters);
    assert forall|x: int| 0 <= x < order.len() implies 0 <= #[trigger] order[x] < clusters.len()
        && clusters[order[x]].candidate_status == CandidateStatus::Rankable by {
        assert(order.contains(order[x]));
        assert(order.to_multiset().count(order[x]) > 0);
        assert(rankable_indices(clusters).contains(order[x]));
    }
    assert forall|v: int|
        0 <= v < clusters.len() && #[trigger] clusters[v].candidate_status == CandidateStatus::Rankable
            implies order.contains(v) by {
        assert(rankable_indices(clusters).contains(v));
        assert(rankable_indices(clusters).to_multiset().count(v) > 0);
    }
}

/// In a ranked order, a candidate comes before another when it is ready and the other is
/// held; else, at equal readiness, when it has more real-example hits; else, tied on both,
/// when it has strictly more promotion-relevant regression hits; else, tied on those too,
/// when it is of easier difficulty (adjacent before moderate before hard); else, tied on
/// difficulty too, when it has fewer boundary-only hits.
pub proof fn lemma_ranked_order_follows_keys(clusters: Seq<UnsupportedClusterEntry>, order: Seq<int>, x: int, y: int)
    requires
        ranked_order(clusters, order),
        0 <= x < order.len(),
        0 <= y < order.len(),
        0 <= order[x] < clusters.len(),
        0 <= order[y] < clusters.len(),
    ensures
        ({
            let a = clusters[order[x]];
            let b = clusters[order[y]];
            let ra = resolution_of(a).0;
            let rb = resolution_of(b).0;
            let ta = tier_of(a.reason_code);
            let tb = tier_of(b.reason_code);
            let easier = (ta == DifficultyTier::Adjacent && tb != DifficultyTier::Adjacent) || (ta
                == DifficultyTier::Moderate && tb == DifficultyTier::Hard);
            &&& ra == PromotionReadiness::Ready && rb == PromotionReadiness::Hold ==> x < y
            &&& ra == rb && a.real_example_hits > b.real_example_hits ==> x < y
            &&& ra == rb && a.real_example_hits == b.real_example_hits && a.promotion_relevant_regression_hits
                > b.promotion_relevant_regression_hits ==> x < y
            &&& ra == rb && a.real_example_hits == b.real_example_hits && a.promotion_relevant_regression_hits
                == b.promotion_relevant_regression_hits && easier ==> x < y
            &&& ra == rb && a.real_example_hits == b.real_example_hits && a.promotion_relevant_regression_hits
                == b.promotion_relevant_regression_hits && ta == tb && a.boundary_only_hits
                < b.boundary_only_hits ==> x < y
        }),
{
    if y < x {
        assert(index_before(clusters, order[y], order[x]));
    }
}

fn readiness_rank_exec(r: PromotionReadiness) -> (n: u8)
    ensures
        n as int == readiness_rank(r),
{
    match r {
        PromotionReadiness::Ready => 0,
        PromotionReadiness::Hold => 1,
    }
}

fn tier_rank_exec(t: DifficultyTier) -> (n: u8)
    ensures
        n as int == tier_rank(t),
{
    match t {
        DifficultyTier::Adjacent => 0,
        DifficultyTier::Moderate => 1,
        DifficultyTier::Hard => 2,
    }
}

/// Whether the candidate of one cluster ranks strictly before that of another.
fn candidate_before(
    a: &RecommendationCandidateEntry,
    b: &RecommendationCandidateEntry,
    Ghost(ca): Ghost<UnsupportedClusterEntry>,
    Ghost(cb): Ghost<UnsupportedClusterEntry>,
) -> (r: bool)
    requires
        is_candidate_of(*a, ca),
        is_candidate_of(*b, cb),
    ensures
        r == cluster_before(ca, cb),
{
    let ra = readiness_rank_exec(a.promotion_readiness);
    let rb = readiness_rank_exec(b.promotion_readiness);
    if ra != rb {
        return ra < rb;
    }
    if a.leverage.real_example_hits != b.leverage.real_example_hits {
        return a.leverage.real_example_hits > b.leverage.real_example_hits;
    }
    if a.leverage.promotion_relevant_regression_hits != b.leverage.promotion_relevant_regression_hits {
        return a.leverage.promotion_relevant_regression_hits > b.leverage.promotion_relevant_regression_hits;
    }
    let ta = tier_rank_exec(a.difficulty.tier);
    let tb = tier_rank_exec(b.difficulty.tier);
    if ta != tb {
        return ta < tb;
    }
    if a.leverage.boundary_only_hits != b.leverage.boundary_only_hits {
        return a.leverage.boundary_only_hits < b.leverage.boundary_only_hits;
    }
    let ia = chars_of(a.candidate_id.as_str());
    let ib = chars_of(b.candidate_id.as_str());
    lex_less(&ia, &ib)
}

/// The rankable clusters' indices, best candidate first; ties keep cluster order.
pub fn ranked_cluster_order(clusters: &Vec<UnsupportedClusterEntry>) -> (r: Vec<usize>)
    ensures
        ranked_order(clusters@, r@.map_values(|i: usize| i as int)),
        forall|k: int| 0 <= k < r@.len() ==> r@[k] < clusters@.len(),
{
    broadcast use vstd::seq_lib::group_to_multiset_ensures;

    let ghost cl = clusters@;
    let mut cands: Vec<RecommendationCandidateEntry> = Vec::new();
    let mut out: Vec<usize> = Vec::new();
    let mut i: usize = 0;
    proof {
        assert(out@.map_values(|x: usize| x as int) =~= Seq::<int>::empty());
        assert(rankable_indices(cl.take(0)) =~= Seq::<int>::empty());
    }
    while i < clusters.len()
        invariant
            i <= cl.len(),
            cl == clusters@,
            cands@.len() == cl.len() || cands@.len() <= i,
            forall|k: int| 0 <= k < cands@.len() ==> k < i && is_candidate_of(#[trigger] cands@[k], cl[k]),
            cands@.len() == i,
            forall|k: int| 0 <= k < out@.len() ==> (#[trigger] out@[k]) < i,
            out@.map_values(|x: usize| x as int).to_multiset() == rankable_indices(cl.take(i as int)).to_multiset(),
            forall|a: int, b: int|
                0 <= a < b < out@.len() ==> index_before(cl, #[trigger] out@[a] as int, #[trigger] out@[b] as int),
        decreases cl.len() - i,
    {
        let c = candidate_from_cluster(&clusters[i]);
        cands.push(c);
        proof {
            assert(cl.take(i + 1).drop_last() =~= cl.take(i as int));
            assert(cl.take(i + 1).last() == cl[i as int]);
        }
        if clusters[i].candidate_status == CandidateStatus::Rankable {
            let mut p: usize = 0;
            while p < out.len()
                invariant
                    p <= out@.len(),
                    i < cl.len(),
                    cl == clusters@,
                    cands@.len() == i + 1,
                    forall|k: int| 0 <= k < cands@.len() ==> is_candidate_of(#[trigger] cands@[k], cl[k]),
                    forall|k: int| 0 <= k < out@.len() ==> (#[trigger] out@[k]) < i,
                    forall|k: int| 0 <= k < p ==> !cluster_before(cl[i as int], cl[#[trigger] out@[k] as int]),
                ensures
                    p <= out@.len(),
                    forall|k: int| 0 <= k < p ==> !cluster_before(cl[i as int], cl[#[trigger] out@[k] as int]),
                    p < out@.len() ==> cluster_before(cl[i as int], cl[out@[p as int] as int]),
                decreases out@.len() - p,
            {
                let q = out[p];
                if candidate_before(&cands[i], &cands[q], Ghost(cl[i as int]), Ghost(cl[q as int])) {
                    break;
                }
                p = p + 1;
            }
            let ghost before = out@;
            out.insert(p, i);
            proof {
                assert(out@ == before.insert(p as int, i));
                assert(out@.map_values(|x: usize| x as int) =~= before.map_values(|x: usize| x as int).insert(p as int, i as int));
                vstd::seq_lib::to_multiset_insert(before.map_values(|x: usize| x as int), p as int, i as int);
                vstd::seq_lib::to_multiset_build(rankable_indices(cl.take(i as int)), i as int);
                assert(rankable_indices(cl.take(i + 1)) == rankable_indices(cl.take(i as int)).push(i as int));
                assert forall|a: int, b: int| 0 <= a < b < out@.len() implies index_before(
                    cl,
                    #[trigger] out@[a] as int,
                    #[trigger] out@[b] as int,
                ) by {
                    let x = i as int;
                    if b < p {
                        assert(out@[a] == before[a] && out@[b] == before[b]);
                    } else if a < p && b == p {
                        let y = before[a] as int;
                        assert(out@[a] == before[a]);
                        lemma_cluster_order(cl[x], cl[y], cl[y]);
                        assert(!cluster_before(cl[x], cl[y]));
                    } else if a < p {
                        let y = before[a] as int;
                        let z = before[b - 1] as int;
                        assert(out@[a] == before[a] && out@[b] == before[b - 1]);
                        assert(index_before(cl, y, z));
                    } else if a == p {
                        let z = before[b - 1] as int;
                        let w = before[p as int] as int;
                        assert(out@[b] == before[b - 1]);
                        assert(cluster_before(cl[x], cl[w]));
                        if b - 1 > p {
                            assert(index_before(cl, w, z));
                            lemma_cluster_order(cl[x], cl[w], cl[z]);
                        }
                    } else {
                        assert(out@[a] == before[a - 1] && out@[b] == before[b - 1]);
                    }
                }
            }
        } else {
            proof {
                assert(rankable_indices(cl.take(i + 1)) == rankable_indices(cl.take(i as int)));
            }
        }
        i = i + 1;
    }
    proof {
        assert(cl.take(cl.len() as int) =~= cl);
    }
    out
}

/// The recommendation status of ranked candidates: ranked when the first can lead;
/// insufficient real corpus when there are none or all are held without real-example
/// hits; no strong candidate otherwise.
pub open spec fn status_of(cs: Seq<RecommendationCandidateEntry>) -> RecommendationStatus {
    if cs.len() > 0 && qualifies_for_ranked(cs[0]) {
        RecommendationStatus::Ranked
    } else if forall|i: int|
        0 <= i < cs.len() ==> (#[trigger] cs[i]).promotion_readiness == PromotionReadiness::Hold
            && cs[i].leverage.real_example_hits == 0 {
        RecommendationStatus::InsufficientRealCorpus
    } else {
        RecommendationStatus::NoStrongCandidate
    }
}

pub fn recommendation_status_for(ranked_candidates: &Vec<RecommendationCandidateEntry>) -> (r: RecommendationStatus)
    ensures
        r == status_of(ranked_candidates@),
{
    if ranked_candidates.len() > 0 && candidate_qualifies_for_ranked_status(&ranked_candidates[0]) {
        return RecommendationStatus::Ranked;
    }
    let mut i: usize = 0;
    while i < ranked_candidates.len()
        invariant
            i <= ranked_candidates@.len(),
            forall|k: int|
                0 <= k < i ==> (#[trigger] ranked_candidates@[k]).promotion_readiness == PromotionReadiness::Hold
                    && ranked_candidates@[k].leverage.real_example_hits == 0,
            !(ranked_candidates@.len() > 0 && qualifies_for_ranked(ranked_candidates@[0])),
        decreases ranked_candidates@.len() - i,
    {
        let c = &ranked_candidates[i];
        if !(c.promotion_readiness == PromotionReadiness::Hold && c.leverage.real_example_hits == 0) {
            return RecommendationStatus::NoStrongCandidate;
        }
        i = i + 1;
    }
    RecommendationStatus::InsufficientRealCorpus
}

pub open spec fn reason_label(r: DecisionReason) -> Seq<char> {
    match r {
        DecisionReason::UnknownOverlapFamily => "unknown_overlap_family"@,
        DecisionReason::HardDifficulty => "hard_difficulty"@,
        DecisionReason::ThinRealExampleSupport => "thin_real_example_support"@,
        DecisionReason::ThinRegressionSupport => "thin_regression_support"@,
        DecisionReason::HelperSurfaceNotPromotable => "helper_surface_not_promotable"@,
        DecisionReason::RegressionWarning => "regression_warning"@,
    }
}

pub open spec fn evidence_label(s: EvidenceState) -> Seq<char> {
    match s {
        EvidenceState::ThinRealExampleSupport => "thin_real_example_support"@,
        EvidenceState::ThinRegressionSupport => "thin_regression_support"@,
        EvidenceState::StaleEvidence => "stale_evidence"@,
    }
}

/// The labels joined by `, `, or `none` when there are none.
pub open spec fn join_labels(labels: Seq<Seq<char>>) -> Seq<char> {
    if labels.len() == 0 {
        "none"@
    } else {
        crate::seam::join_commas(labels)
    }
}

fn reason_label_str(r: DecisionReason) -> (s: &'static str)
    ensures
        s@ == reason_label(r),
{
    match r {
        DecisionReason::UnknownOverlapFamily => "unknown_overlap_family",
        DecisionReason::HardDifficulty => "hard_difficulty",
        DecisionReason::ThinRealExampleSupport => "thin_real_example_support",
        DecisionReason::ThinRegressionSupport => "thin_regression_support",
        DecisionReason::HelperSurfaceNotPromotable => "helper_surface_not_promotable",
        DecisionReason::RegressionWarning => "regression_warning",
    }
}

fn evidence_label_str(s: EvidenceState) -> (r: &'static str)
    ensures
        r@ == evidence_label(s),
{
    match s {
        EvidenceState::ThinRealExampleSupport => "thin_real_example_support",
        EvidenceState::ThinRegressionSupport => "thin_regression_support",
        EvidenceState::StaleEvidence => "stale_evidence",
    }
}

pub fn join_blockers(blockers: &Vec<DecisionReason>) -> (r: String)
    ensures
        r@ == join_labels(blockers@.map_values(|b: DecisionReason| reason_label(b))),
{
    let mut labels: Vec<String> = Vec::new();
    let mut i: usize = 0;
    while i < blockers.len()
        invariant
            i <= blockers@.len(),
            crate::errors::views_of_strings(labels@) == blockers@.take(i as int).map_values(
                |b: DecisionReason| reason_label(b),
            ),
        decreases blockers@.len() - i,
    {
        let l = owned(reason_label_str(blockers[i]));
        let ghost before = labels@;
        labels.push(l);
        proof {
            assert(crate::errors::views_of_strings(labels@) =~= crate::errors::views_of_strings(before).push(l@));
            assert(blockers@.take(i + 1).map_values(|b: DecisionReason| reason_label(b)) =~= blockers@.take(
                i as int,
            ).map_values(|b: DecisionReason| reason_label(b)).push(reason_label(blockers@[i as int])));
        }
        i = i + 1;
    }
    proof {
        assert(blockers@.take(blockers@.len() as int) =~= blockers@);
    }
    if labels.len() == 0 {
        owned("none")
    } else {
        join_commas_string(&labels)
    }
}

pub fn join_evidence(evidence: &Vec<EvidenceState>) -> (r: String)
    ensures
        r@ == join_labels(evidence@.map_values(|s: EvidenceState| evidence_label(s))),
{
    let mut labels: Vec<String> = Vec::new();
    let mut i: usize = 0;
    while i < evidence.len()
        invariant
            i <= evidence@.len(),
            crate::errors::views_of_strings(labels@) == evidence@.take(i as int).map_values(
                |s: EvidenceState| evidence_label(s),
            ),
        decreases evidence@.len() - i,
    {
        let l = owned(evidence_label_str(evidence[i]));
        let ghost before = labels@;
        labels.push(l);
        proof {
            assert(crate::errors::views_of_strings(labels@) =~= crate::errors::views_of_strings(before).push(l@));
            assert(evidence@.take(i + 1).map_values(|s: EvidenceState| evidence_label(s)) =~= evidence@.take(
                i as int,
            ).map_values(|s: EvidenceState| evidence_label(s)).push(evidence_label(evidence@[i as int])));
        }
        i = i + 1;
    }
    proof {
        assert(evidence@.take(evidence@.len() as int) =~= evidence@);
    }
    if labels.len() == 0 {
        owned("none")
    } else {
        join_commas_string(&labels)
    }
}

pub open spec fn gaps_of_first(cs: Seq<RecommendationCandidateEntry>) -> Seq<EvidenceState> {
    match first_candidate(cs) {
        Some(c) => gaps_from(c.hold_reasons@),
        None => Seq::empty(),
    }
}

/// The evidence summary text: no obligations without a candidate, none missing, or the
/// missing and (never recorded) stale evidence.
pub open spec fn evidence_summary_text(cs: Seq<RecommendationCandidateEntry>) -> Seq<char> {
    if cs.len() == 0 {
        "No candidate-specific evidence obligations are recorded."@
    } else if gaps_of_first(cs).len() == 0 {
        "No missing or stale evidence is recorded."@
    } else {
        "Missing evidence `"@ + join_labels(gaps_of_first(cs).map_values(|s: EvidenceState| evidence_label(s)))
            + "`; stale evidence `none`."@
    }
}

/// The evidence a recommendation records for its leading candidate.
pub fn evidence_summary_for(ranked_candidates: &Vec<RecommendationCandidateEntry>) -> (r: EvidenceSummary)
    ensures
        r.missing_evidence@ == gaps_of_first(ranked_candidates@),
        r.stale_evidence@.len() == 0,
        r.warnings@ == expected_warning_set(first_candidate(ranked_candidates@)),
        r.summary@ == evidence_summary_text(ranked_candidates@),
{
    let first = if ranked_candidates.len() > 0 {
        Some(&ranked_candidates[0])
    } else {
        None
    };
    let missing_evidence = expected_missing_evidence(first);
    let stale_evidence: Vec<EvidenceState> = Vec::new();
    let warnings = expected_warnings(first);
    let summary = if first.is_none() {
        owned("No candidate-specific evidence obligations are recorded.")
    } else if missing_evidence.len() == 0 {
        owned("No missing or stale evidence is recorded.")
    } else {
        let mut m = owned("Missing evidence `");
        let joined = join_evidence(&missing_evidence);
        m.append(joined.as_str());
        m.append("`; stale evidence `");
        let stale = join_evidence(&stale_evidence);
        proof {
            reveal_strlit("none");
            assert(stale_evidence@.map_values(|s: EvidenceState| evidence_label(s)) =~= Seq::<Seq<char>>::empty());
        }
        m.append(stale.as_str());
        m.append("`.");
        proof {
            reveal_strlit("`; stale evidence `");
            reveal_strlit("`.");
            reveal_strlit("`; stale evidence `none`.");
            assert(m@ =~= "Missing evidence `"@ + joined@ + "`; stale evidence `none`."@);
        }
        m
    };
    EvidenceSummary { missing_evidence, stale_evidence, warnings, summary }
}

/// The decision for the leading candidate: recommended when it is ready with medium or
/// high confidence and no evidence is missing; not recommended for the durable helper
/// surface, for an insufficient corpus, or without a candidate; blocked for now otherwise.
pub open spec fn decision_status_of(status: RecommendationStatus, cs: Seq<RecommendationCandidateEntry>) -> DecisionStatus {
    let gaps = gaps_of_first(cs).len() > 0;
    match first_candidate(cs) {
        Some(c) => if c.promotion_readiness == PromotionReadiness::Ready && (c.confidence.level == ConfidenceLevel::Medium
            || c.confidence.level == ConfidenceLevel::High) && !gaps {
            DecisionStatus::Recommended
        } else if c.next_step_status == NextStepStatus::DurableHold && c.next_step_detail
            == NextStepDetail::HelperSurfaceNotPromotable {
            DecisionStatus::NotRecommended
        } else if status == RecommendationStatus::InsufficientRealCorpus {
            DecisionStatus::NotRecommended
        } else {
            DecisionStatus::BlockedForNow
        },
        None => DecisionStatus::NotRecommended,
    }
}

/// The decision summary text for the decision and the leading candidate.
pub open spec fn decision_summary_text(
    status: DecisionStatus,
    cs: Seq<RecommendationCandidateEntry>,
    blockers: Seq<DecisionReason>,
) -> Seq<char> {
    let joined = join_labels(blockers.map_values(|b: DecisionReason| reason_label(b)));
    match first_candidate(cs) {
        Some(c) => match status {
            DecisionStatus::Recommended => "Recommend promoting `"@ + c.candidate_id@
                + "` now; no missing or stale evidence is recorded."@,
            DecisionStatus::BlockedForNow => "Do not promote `"@ + c.candidate_id@ + "` yet; blockers `"@ + joined
                + "` and the current evidence state keep it held."@,
            DecisionStatus::NotRecommended => if c.next_step_status == NextStepStatus::DurableHold {
                "Do not treat `"@ + c.candidate_id@ + "` as the next family move; `"@ + joined
                    + "` remains visible but helper surfaces are not promotable."@
            } else {
                "The current surface does not justify promoting `"@ + c.candidate_id@ + "` as the next family move."@
            },
        },
        None => match status {
            DecisionStatus::NotRecommended =>
                "No plausible next-family action is recommended from the current analysis surface."@,
            _ => "Decision summary could not identify a top candidate."@,
        },
    }
}

/// The decision a recommendation records for its status and leading candidate.
pub fn decision_summary_for(
    recommendation_status: RecommendationStatus,
    ranked_candidates: &Vec<RecommendationCandidateEntry>,
) -> (r: DecisionSummary)
    ensures
        r.open_blockers@ == crate::family::analysis_checks::expected_blockers(first_candidate(ranked_candidates@)),
        r.warnings@ == expected_warning_set(first_candidate(ranked_candidates@)),
        r.decision_status == decision_status_of(recommendation_status, ranked_candidates@),
        crate::unit_ref::opt_view(r.top_candidate_id) == match first_candidate(ranked_candidates@) {
            Some(c) => Some(c.candidate_id@),
            None => None::<Seq<char>>,
        },
        r.summary@ == decision_summary_text(r.decision_status, ranked_candidates@, r.open_blockers@),
{
    let first = if ranked_candidates.len() > 0 {
        Some(&ranked_candidates[0])
    } else {
        None
    };
    let open_blockers = expected_open_blockers(first);
    let warnings = expected_warnings(first);
    let evidence = evidence_summary_for(ranked_candidates);
    let decision_status = expected_decision_status(recommendation_status, first, &evidence);
    let joined = join_blockers(&open_blockers);
    let summary = match first {
        Some(c) => match decision_status {
            DecisionStatus::Recommended => {
                let mut m = owned("Recommend promoting `");
                m.append(c.candidate_id.as_str());
                m.append("` now; no missing or stale evidence is recorded.");
                m
            },
            DecisionStatus::BlockedForNow => {
                let mut m = owned("Do not promote `");
                m.append(c.candidate_id.as_str());
                m.append("` yet; blockers `");
                m.append(joined.as_str());
                m.append("` and the current evidence state keep it held.");
                m
            },
            DecisionStatus::NotRecommended => if c.next_step_status == NextStepStatus::DurableHold {
                let mut m = owned("Do not treat `");
                m.append(c.candidate_id.as_str());
                m.append("` as the next family move; `");
                m.append(joined.as_str());
                m.append("` remains visible but helper surfaces are not promotable.");
                m
            } else {
                let mut m = owned("The current surface does not justify promoting `");
                m.append(c.candidate_id.as_str());
                m.append("` as the next family move.");
                m
            },
        },
        None => match decision_status {
            DecisionStatus::NotRecommended => owned(
                "No plausible next-family action is recommended from the current analysis surface.",
            ),
            _ => owned("Decision summary could not identify a top candidate."),
        },
    };
    let top_candidate_id = match first {
        Some(c) => Some(owned(c.candidate_id.as_str())),
        None => None,
    };
    proof {
        assert(summary@ =~= decision_summary_text(decision_status, ranked_candidates@, open_blockers@));
    }
    DecisionSummary { decision_status, top_candidate_id, open_blockers, warnings, summary }
}

/// The ranked candidates are the rankable clusters' candidates, best first.
pub open spec fn ranks_clusters(cs: Seq<RecommendationCandidateEntry>, clusters: Seq<UnsupportedClusterEntry>) -> bool {
    exists|order: Seq<int>|
        {
            &&& ranked_order(clusters, order)
            &&& cs.len() == order.len()
            &&& forall|k: int| 0 <= k < cs.len() ==> is_candidate_of(#[trigger] cs[k], clusters[order[k]])
        }
}

/// The recommendation analysis of the unsupported clusters of a coverage snapshot: the
/// rankable clusters' candidates best first, the status they support, the evidence and
/// decision summaries of the leading candidate, and no previous delta.
pub fn build_recommendation_analysis_artifact(
    generated_at: String,
    coverage_path: String,
    coverage_sha256: String,
    unsupported_clusters: &Vec<UnsupportedClusterEntry>,
) -> (r: FamilyRecommendationAnalysisArtifact)
    ensures
        r.schema_version == RECOMMENDATION_ANALYSIS_SCHEMA_VERSION,
        r.artifact_kind == PromotionArtifactKind::FamilyRecommendationAnalysis,
        r.generated_at@ == generated_at@,
        r.coverage_path@ == coverage_path@,
        r.coverage_sha256@ == coverage_sha256@,
        ranks_clusters(r.ranked_candidates@, unsupported_clusters@),
        r.recommendation_status == status_of(r.ranked_candidates@),
        r.evidence_summary.missing_evidence@ == gaps_of_first(r.ranked_candidates@),
        r.evidence_summary.stale_evidence@.len() == 0,
        r.evidence_summary.warnings@ == expected_warning_set(first_candidate(r.ranked_candidates@)),
        r.evidence_summary.summary@ == evidence_summary_text(r.ranked_candidates@),
        r.decision_summary.open_blockers@ == crate::family::analysis_checks::expected_blockers(
            first_candidate(r.ranked_candidates@),
        ),
        r.decision_summary.warnings@ == expected_warning_set(first_candidate(r.ranked_candidates@)),
        r.decision_summary.decision_status == decision_status_of(r.recommendation_status, r.ranked_candidates@),
        crate::unit_ref::opt_view(r.decision_summary.top_candidate_id) == match first_candidate(r.ranked_candidates@) {
            Some(c) => Some(c.candidate_id@),
            None => None::<Seq<char>>,
        },
        r.decision_summary.summary@ == decision_summary_text(
            r.decision_summary.decision_status,
            r.ranked_candidates@,
            r.decision_summary.open_blockers@,
        ),
        r.delta_from_previous.previous_generated_at is None,
        r.delta_from_previous.previous_decision_status is None,
        r.delta_from_previous.previous_recommendation_status is None,
        !r.delta_from_previous.decision_changed,
        !r.delta_from_previous.top_candidate_changed,
        r.delta_from_previous.reasons_added@.len() == 0,
        r.delta_from_previous.reasons_cleared@.len() == 0,
        r.delta_from_previous.evidence_changes@.len() == 0,
        r.delta_from_previous.summary@ == "No previous validated analysis artifact existed at this path."@,
{
    let order = ranked_cluster_order(unsupported_clusters);
    let ghost ord = order@.map_values(|i: usize| i as int);
    let mut ranked: Vec<RecommendationCandidateEntry> = Vec::new();
    let mut k: usize = 0;
    while k < order.len()
        invariant
            k <= order@.len(),
            ord == order@.map_values(|i: usize| i as int),
            forall|j: int| 0 <= j < order@.len() ==> order@[j] < unsupported_clusters@.len(),
            ranked@.len() == k,
            forall|j: int| 0 <= j < k ==> is_candidate_of(#[trigger] ranked@[j], unsupported_clusters@[ord[j]]),
        decreases order@.len() - k,
    {
        let c = candidate_from_cluster(&unsupported_clusters[order[k]]);
        ranked.push(c);
        k = k + 1;
    }
    proof {
        assert(ranked_order(unsupported_clusters@, ord));
        assert(ranks_clusters(ranked@, unsupported_clusters@));
    }
    let recommendation_status = recommendation_status_for(&ranked);
    let evidence_summary = evidence_summary_for(&ranked);
    let decision_summary = decision_summary_for(recommendation_status, &ranked);
    FamilyRecommendationAnalysisArtifact {
        schema_version: RECOMMENDATION_ANALYSIS_SCHEMA_VERSION,
        artifact_kind: PromotionArtifactKind::FamilyRecommendationAnalysis,
        generated_at,
        coverage_path,
        coverage_sha256,
        recommendation_status,
        ranked_candidates: ranked,
        decision_summary,
        evidence_summary,
        delta_from_previous: RecommendationDelta::no_previous_artifact(),
    }
}

} // verus!
