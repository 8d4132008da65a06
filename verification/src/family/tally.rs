//! Tallying reviewed corpus units into the coverage snapshot's totals, family coverage and
//! unsupported clusters.
use vstd::prelude::*;
use crate::family::artifacts::UnsupportedFunctionReasonCode;
use crate::family::coverage::{
    bucket_for_spec_path, bucket_of_path, candidate_status_of, classify_candidate_status, cluster_id, cluster_id_of,
    leverage_bucket, leverage_of, overlap_family_for_cluster, overlap_family_of, qualified_unit_id, qualify_unit_id,
    LeverageBucket, LoadedUnitContext, ManifestSource,
};
use crate::family::artifacts::PromotionArtifactKind;
use crate::family::paths::M27_CORPUS_MANIFEST_PATH;
use crate::family::coverage_checks::{
    FamilyCoverageArtifact, COVERAGE_SCHEMA_VERSION, CandidateStatus, CorpusSourceEntry, FamilyCoverageEntry, FunctionCoverageTotals, NonFunctionCoverageTotals,
    UnsupportedClusterEntry,
};
use crate::family::error::{XtaskError, XtaskErrorView};
use crate::family::order::{lemma_lex_irreflexive, lemma_lex_total, lemma_lex_transitive, lex_less, lex_lt, lex_sorted};
use crate::family::paths::views_of;
use crate::model::UnitKind;
use crate::text::{chars_of, first_match, owned, str_eq};

verus! {

/// `v` holds each string of `s` once, in string order.
pub open spec fn sorted_set_of(v: Seq<Seq<char>>, s: Set<Seq<char>>) -> bool {
    lex_sorted(v) && v.to_set() == s
}

proof fn lemma_insert_to_set<T>(s: Seq<T>, i: int, x: T)
    requires
        0 <= i <= s.len(),
    ensures
        s.insert(i, x).to_set() == s.to_set().insert(x),
{
    let t = s.insert(i, x);
    assert forall|a: T| t.to_set().contains(a) implies s.to_set().insert(x).contains(a) by {
        let k = choose|k: int| 0 <= k < t.len() && t[k] == a;
        if k < i {
            assert(s[k] == a);
        } else if k > i {
            assert(s[k - 1] == a);
        }
    }
    assert forall|a: T| s.to_set().insert(x).contains(a) implies t.to_set().contains(a) by {
        if a == x {
            assert(t[i] == x);
        } else {
            let k = choose|k: int| 0 <= k < s.len() && s[k] == a;
            if k < i {
                assert(t[k] == a);
            } else {
                assert(t[k + 1] == a);
            }
        }
    }
    assert(t.to_set() =~= s.to_set().insert(x));
}

/// Adds `x` to the ordered set `v`.
pub fn insert_sorted(v: &mut Vec<String>, x: &str)
    requires
        lex_sorted(views_of(old(v)@)),
    ensures
        lex_sorted(views_of(final(v)@)),
        views_of(final(v)@).to_set() == views_of(old(v)@).to_set().insert(x@),
{
    let xs = chars_of(x);
    let ghost vs = views_of(v@);
    let mut i: usize = 0;
    while i < v.len()
        invariant
            i <= v@.len(),
            vs == views_of(v@),
            xs@ == x@,
            lex_sorted(vs),
            forall|k: int| 0 <= k < i ==> lex_lt(#[trigger] vs[k], x@),
        ensures
            i <= v@.len(),
            vs == views_of(v@),
            forall|k: int| 0 <= k < i ==> lex_lt(#[trigger] vs[k], x@),
            i < v@.len() ==> !lex_lt(vs[i as int], x@),
        decreases v@.len() - i,
    {
        let cur = chars_of(v[i].as_str());
        proof {
            assert(vs[i as int] == v@[i as int]@);
        }
        if !lex_less(&cur, &xs) {
            break;
        }
        i = i + 1;
    }
    proof {
        if i < v@.len() {
            assert(vs[i as int] == v@[i as int]@);
        }
    }
    if i < v.len() && str_eq(v[i].as_str(), x) {
        proof {
            assert(vs[i as int] == x@);
            assert(vs.to_set().insert(x@) =~= vs.to_set());
        }
        return;
    }
    proof {
        if i < vs.len() {
            lemma_lex_total(vs[i as int], x@);
        }
    }
    let ghost before = v@;
    v.insert(i, owned(x));
    proof {
        let ws = views_of(v@);
        assert(ws =~= vs.insert(i as int, x@));
        lemma_insert_to_set(vs, i as int, x@);
        assert forall|a: int, b: int| 0 <= a < b < ws.len() implies lex_lt(#[trigger] ws[a], #[trigger] ws[b]) by {
            if b < i {
            } else if b == i {
            } else if a < i {
                assert(ws[b] == vs[b - 1]);
                if b - 1 > i {
                    lemma_lex_transitive(x@, vs[i as int], vs[b - 1]);
                }
                lemma_lex_transitive(ws[a], x@, ws[b]);
            } else if a == i {
                if b - 1 > i {
                    lemma_lex_transitive(x@, vs[i as int], vs[b - 1]);
                }
            } else {
                assert(ws[a] == vs[a - 1]);
                assert(ws[b] == vs[b - 1]);
            }
        }
    }
}

/// The surface the semantic review placed a unit on.
#[derive(Debug, Clone, Copy, PartialEq, Eq, Structural)]
pub enum EvaluatorScope {
    SupportedFunctionSurface,
    SupportedSumSurface,
    SupportedDataSurface,
    OtherSurface,
}

/// A corpus unit with what its semantic review concluded.
#[derive(Debug, Clone)]
pub struct ReviewedUnit {
    pub unit_id: String,
    pub file_path: String,
    pub kind: UnitKind,
    /// The review's effective support status is `supported`.
    pub supported: bool,
    pub scope: EvaluatorScope,
    pub compatibility_key: String,
    /// The review's first unsupported reason, if it gave one.
    pub unsupported_reason: Option<UnsupportedFunctionReasonCode>,
    /// The unsupported-shape fingerprint of the unit, where one could be formed.
    pub shape_fingerprint: Option<String>,
}

/// A corpus source of the manifest with its reviewed units.
#[derive(Debug, Clone)]
pub struct ReviewedSource {
    pub source: ManifestSource,
    pub units: Vec<ReviewedUnit>,
}

/// Every unit of the corpus with its source, sources in order, units in order.
pub open spec fn flat_units(srcs: Seq<ReviewedSource>) -> Seq<(ManifestSource, ReviewedUnit)>
    decreases srcs.len(),
{
    if srcs.len() == 0 {
        Seq::empty()
    } else {
        flat_units(srcs.drop_last()) + srcs.last().units@.map_values(
            |u: ReviewedUnit| (srcs.last().source, u),
        )
    }
}

/// `idx` gives, for each unit of `flat_units(srcs)`, the place of its source and of it.
pub open spec fn indexes(srcs: Seq<ReviewedSource>, idx: Seq<(usize, usize)>) -> bool {
    &&& idx.len() == flat_units(srcs).len()
    &&& forall|k: int|
        0 <= k < idx.len() ==> {
            &&& (#[trigger] idx[k]).0 < srcs.len()
            &&& idx[k].1 < srcs[idx[k].0 as int].units@.len()
            &&& flat_units(srcs)[k] == (srcs[idx[k].0 as int].source, srcs[idx[k].0 as int].units@[idx[k].1 as int])
        }
}

fn flat_index(srcs: &Vec<ReviewedSource>) -> (idx: Vec<(usize, usize)>)
    ensures
        indexes(srcs@, idx@),
{
    let mut idx: Vec<(usize, usize)> = Vec::new();
    let mut i: usize = 0;
    while i < srcs.len()
        invariant
            i <= srcs@.len(),
            idx@.len() == flat_units(srcs@.take(i as int)).len(),
            forall|k: int|
                0 <= k < idx@.len() ==> {
                    &&& (#[trigger] idx@[k]).0 < i
                    &&& idx@[k].1 < srcs@[idx@[k].0 as int].units@.len()
                    &&& flat_units(srcs@.take(i as int))[k] == (
                        srcs@[idx@[k].0 as int].source,
                        srcs@[idx@[k].0 as int].units@[idx@[k].1 as int],
                    )
                },
        decreases srcs@.len() - i,
    {
        let ghost head = flat_units(srcs@.take(i as int));
        let ghost tail = srcs@[i as int].units@.map_values(|u: ReviewedUnit| (srcs@[i as int].source, u));
        proof {
            assert(srcs@.take(i + 1).drop_last() =~= srcs@.take(i as int));
            assert(flat_units(srcs@.take(i + 1)) == head + tail);
        }
        let mut j: usize = 0;
        while j < srcs[i].units.len()
            invariant
                i < srcs@.len(),
                j <= srcs@[i as int].units@.len(),
                head == flat_units(srcs@.take(i as int)),
                tail == srcs@[i as int].units@.map_values(|u: ReviewedUnit| (srcs@[i as int].source, u)),
                idx@.len() == head.len() + j,
                forall|k: int|
                    0 <= k < idx@.len() ==> {
                        &&& (#[trigger] idx@[k]).0 <= i
                        &&& idx@[k].1 < srcs@[idx@[k].0 as int].units@.len()
                        &&& (head + tail)[k] == (
                            srcs@[idx@[k].0 as int].source,
                            srcs@[idx@[k].0 as int].units@[idx@[k].1 as int],
                        )
                    },
            decreases srcs@[i as int].units@.len() - j,
        {
            idx.push((i, j));
            j = j + 1;
        }
        i = i + 1;
    }
    proof {
        assert(srcs@.take(srcs@.len() as int) =~= srcs@);
    }
    idx
}

pub open spec fn is_function(p: (ManifestSource, ReviewedUnit)) -> bool {
    p.1.kind == UnitKind::Function
}

/// The unit lies on the supported function surface, in the family its review names.
pub open spec fn in_family(p: (ManifestSource, ReviewedUnit)) -> bool {
    p.1.kind == UnitKind::Function && p.1.supported && p.1.scope == EvaluatorScope::SupportedFunctionSurface
}

pub open spec fn unsupported_function(p: (ManifestSource, ReviewedUnit)) -> bool {
    p.1.kind == UnitKind::Function && !in_family(p)
}

/// The reason an unsupported function is clustered under: its first reason, else the
/// unsupported function surface.
pub open spec fn reason_of(p: (ManifestSource, ReviewedUnit)) -> UnsupportedFunctionReasonCode {
    match p.1.unsupported_reason {
        Some(r) => r,
        None => UnsupportedFunctionReasonCode::UnsupportedFunctionSurface,
    }
}

pub open spec fn fingerprint_of(p: (ManifestSource, ReviewedUnit)) -> Seq<char> {
    match p.1.shape_fingerprint {
        Some(f) => f@,
        None => Seq::empty(),
    }
}

pub open spec fn leverage_of_unit(p: (ManifestSource, ReviewedUnit)) -> LeverageBucket {
    leverage_of(p.0.counts_toward_recommendation, p.0.kind, bucket_of_path(p.1.file_path@))
}

/// Which units a list of ids is drawn from.
#[derive(Debug, Clone, Copy)]
pub enum Members<'a> {
    /// The units on the supported function surface.
    Supported,
    /// The units of a family.
    Family(&'a String),
    /// The unsupported functions of a cluster.
    Cluster(UnsupportedFunctionReasonCode, &'a String),
    /// The unsupported functions of a cluster that count as regression hits.
    ClusterRegression(UnsupportedFunctionReasonCode, &'a String),
}

pub open spec fn is_member(m: Members, p: (ManifestSource, ReviewedUnit)) -> bool {
    match m {
        Members::Supported => in_family(p),
        Members::Family(f) => in_family(p) && p.1.compatibility_key@ == f@,
        Members::Cluster(r, f) => unsupported_function(p) && reason_of(p) == r && fingerprint_of(p) == f@,
        Members::ClusterRegression(r, f) => unsupported_function(p) && reason_of(p) == r && fingerprint_of(p) == f@
            && leverage_of_unit(p) == LeverageBucket::PromotionRelevantRegression,
    }
}

/// Which id of a unit is listed.
#[derive(Debug, Clone, Copy, PartialEq, Eq, Structural)]
pub enum IdKind {
    /// The unit's id qualified by its source.
    Unit,
    /// Its source's id.
    Source,
    /// The family its review names.
    Key,
}

pub open spec fn id_of(k: IdKind, p: (ManifestSource, ReviewedUnit)) -> Seq<char> {
    match k {
        IdKind::Unit => qualified_unit_id(p.0.id@, p.1.unit_id@),
        IdKind::Source => p.0.id@,
        IdKind::Key => p.1.compatibility_key@,
    }
}

/// The ids of kind `k` of the members `m` of `recs`.
pub open spec fn member_ids(recs: Seq<(ManifestSource, ReviewedUnit)>, m: Members, k: IdKind) -> Set<Seq<char>> {
    Set::new(|x: Seq<char>| exists|w: int| #[trigger] lists_id(recs, m, k, w, x))
}

/// Unit `w` of `recs` is a member and has id `x`.
pub open spec fn lists_id(recs: Seq<(ManifestSource, ReviewedUnit)>, m: Members, k: IdKind, w: int, x: Seq<char>) -> bool {
    0 <= w < recs.len() && is_member(m, recs[w]) && id_of(k, recs[w]) == x
}

fn in_family_exec(u: &ReviewedUnit) -> (r: bool)
    ensures
        forall|s: ManifestSource| r == in_family((s, *u)),
{
    u.kind == UnitKind::Function && u.supported && u.scope == EvaluatorScope::SupportedFunctionSurface
}

fn reason_exec(u: &ReviewedUnit) -> (r: UnsupportedFunctionReasonCode)
    ensures
        forall|s: ManifestSource| r == reason_of((s, *u)),
{
    match u.unsupported_reason {
        Some(r) => r,
        None => UnsupportedFunctionReasonCode::UnsupportedFunctionSurface,
    }
}

fn fingerprint_is(u: &ReviewedUnit, f: &str) -> (r: bool)
    ensures
        forall|s: ManifestSource| r == (fingerprint_of((s, *u)) == f@),
{
    match &u.shape_fingerprint {
        Some(g) => str_eq(g.as_str(), f),
        None => {
            proof {
                assert(f@.len() == 0 ==> f@ =~= Seq::<char>::empty());
            }
            f.is_empty()
        },
    }
}

fn leverage_exec(s: &ManifestSource, u: &ReviewedUnit) -> (r: LeverageBucket)
    ensures
        r == leverage_of_unit((*s, *u)),
{
    let context = LoadedUnitContext {
        source_id: owned(s.id.as_str()),
        source_kind: s.kind,
        counts_toward_recommendation: s.counts_toward_recommendation,
        bucket: bucket_for_spec_path(u.file_path.as_str()),
    };
    leverage_bucket(&context)
}

fn is_member_exec(m: Members, s: &ManifestSource, u: &ReviewedUnit) -> (r: bool)
    ensures
        r == is_member(m, (*s, *u)),
{
    match m {
        Members::Supported => in_family_exec(u),
        Members::Family(f) => in_family_exec(u) && str_eq(u.compatibility_key.as_str(), f.as_str()),
        Members::Cluster(r, f) => u.kind == UnitKind::Function && !in_family_exec(u) && reason_exec(u) == r
            && fingerprint_is(u, f.as_str()),
        Members::ClusterRegression(r, f) => u.kind == UnitKind::Function && !in_family_exec(u) && reason_exec(u) == r
            && fingerprint_is(u, f.as_str()) && leverage_exec(s, u) == LeverageBucket::PromotionRelevantRegression,
    }
}

fn id_exec(k: IdKind, s: &ManifestSource, u: &ReviewedUnit) -> (r: String)
    ensures
        r@ == id_of(k, (*s, *u)),
{
    match k {
        IdKind::Unit => qualify_unit_id(s.id.as_str(), u.unit_id.as_str()),
        IdKind::Source => owned(s.id.as_str()),
        IdKind::Key => owned(u.compatibility_key.as_str()),
    }
}

/// The ids of kind `k` of the members `m` of the corpus, each once, in string order.
pub fn collect_ids(srcs: &Vec<ReviewedSource>, idx: &Vec<(usize, usize)>, m: Members, k: IdKind) -> (r: Vec<String>)
    requires
        indexes(srcs@, idx@),
    ensures
        sorted_set_of(views_of(r@), member_ids(flat_units(srcs@), m, k)),
{
    let ghost recs = flat_units(srcs@);
    let mut out: Vec<String> = Vec::new();
    let mut i: usize = 0;
    proof {
        assert(views_of(out@).to_set() =~= member_ids(recs.take(0), m, k));
    }
    while i < idx.len()
        invariant
            indexes(srcs@, idx@),
            recs == flat_units(srcs@),
            i <= idx@.len(),
            sorted_set_of(views_of(out@), member_ids(recs.take(i as int), m, k)),
        decreases idx@.len() - i,
    {
        let (a, b) = idx[i];
        let s = &srcs[a].source;
        let u = &srcs[a].units[b];
        proof {
            assert(recs[i as int] == (*s, *u));
        }
        let ghost before = views_of(out@).to_set();
        let ghost r0 = recs.take(i as int);
        let ghost r1 = recs.take(i + 1);
        if is_member_exec(m, s, u) {
            let id = id_exec(k, s, u);
            insert_sorted(&mut out, id.as_str());
            proof {
                assert(member_ids(r1, m, k) =~= before.insert(id@)) by {
                    assert forall|x: Seq<char>| member_ids(r1, m, k).contains(x) implies before.insert(
                        x,
                    ).contains(x) && (x == id@ || before.contains(x)) by {
                        let w = choose|w: int| lists_id(r1, m, k, w, x);
                        if w < i {
                            assert(r0[w] == r1[w]);
                            assert(lists_id(r0, m, k, w, x));
                        }
                    }
                    assert forall|x: Seq<char>| before.insert(id@).contains(x) implies member_ids(
                        r1,
                        m,
                        k,
                    ).contains(x) by {
                        if x == id@ {
                            assert(r1[i as int] == recs[i as int]);
                            assert(lists_id(r1, m, k, i as int, x));
                        } else {
                            let w = choose|w: int| lists_id(r0, m, k, w, x);
                            assert(r1[w] == r0[w]);
                            assert(lists_id(r1, m, k, w, x));
                        }
                    }
                }
            }
        } else {
            proof {
                assert(member_ids(r1, m, k) =~= before) by {
                    assert forall|x: Seq<char>| member_ids(r1, m, k).contains(x) implies before.contains(
                        x,
                    ) by {
                        let w = choose|w: int| lists_id(r1, m, k, w, x);
                        assert(r0[w] == r1[w]);
                        assert(lists_id(r0, m, k, w, x));
                    }
                    assert forall|x: Seq<char>| before.contains(x) implies member_ids(r1, m, k).contains(
                        x,
                    ) by {
                        let w = choose|w: int| lists_id(r0, m, k, w, x);
                        assert(r1[w] == r0[w]);
                        assert(lists_id(r1, m, k, w, x));
                    }
                }
            }
        }
        i = i + 1;
    }
    proof {
        assert(recs.take(idx@.len() as int) =~= recs);
    }
    out
}

/// Which units a total counts.
#[derive(Debug, Clone, Copy)]
pub enum Counted<'a> {
    Functions,
    /// Supported functions whose family is promoted.
    Promoted(&'a Vec<String>),
    /// Supported functions whose family is not promoted.
    Unpromoted(&'a Vec<String>),
    UnsupportedFunctions,
    NonFunctions,
    SupportedSums,
    SupportedData,
    OtherNonFunctions,
    /// The unsupported functions of a cluster that add a hit of one kind.
    ClusterHits(UnsupportedFunctionReasonCode, &'a String, LeverageBucket),
}

pub open spec fn is_counted(c: Counted, p: (ManifestSource, ReviewedUnit)) -> bool {
    match c {
        Counted::Functions => is_function(p),
        Counted::Promoted(fams) => in_family(p) && views_of(fams@).contains(p.1.compatibility_key@),
        Counted::Unpromoted(fams) => in_family(p) && !views_of(fams@).contains(p.1.compatibility_key@),
        Counted::UnsupportedFunctions => unsupported_function(p),
        Counted::NonFunctions => !is_function(p),
        Counted::SupportedSums => !is_function(p) && p.1.supported && p.1.scope == EvaluatorScope::SupportedSumSurface,
        Counted::SupportedData => !is_function(p) && p.1.supported && p.1.scope == EvaluatorScope::SupportedDataSurface,
        Counted::OtherNonFunctions => !is_function(p) && !(p.1.supported && (p.1.scope
            == EvaluatorScope::SupportedSumSurface || p.1.scope == EvaluatorScope::SupportedDataSurface)),
        Counted::ClusterHits(r, f, l) => unsupported_function(p) && reason_of(p) == r && fingerprint_of(p) == f@
            && leverage_of_unit(p) == l,
    }
}

/// How many units of `recs` the total counts.
pub open spec fn count_of(recs: Seq<(ManifestSource, ReviewedUnit)>, c: Counted) -> nat
    decreases recs.len(),
{
    if recs.len() == 0 {
        0
    } else {
        count_of(recs.drop_last(), c) + if is_counted(c, recs.last()) {
            1nat
        } else {
            0nat
        }
    }
}

pub(crate) fn contains_string(v: &Vec<String>, x: &str) -> (r: bool)
    ensures
        r == views_of(v@).contains(x@),
{
    let mut i: usize = 0;
    while i < v.len()
        invariant
            i <= v@.len(),
            forall|k: int| 0 <= k < i ==> views_of(v@)[k] != x@,
        decreases v@.len() - i,
    {
        if str_eq(v[i].as_str(), x) {
            proof {
                assert(views_of(v@)[i as int] == x@);
            }
            return true;
        }
        i = i + 1;
    }
    false
}

fn is_counted_exec(c: Counted, s: &ManifestSource, u: &ReviewedUnit) -> (r: bool)
    ensures
        r == is_counted(c, (*s, *u)),
{
    match c {
        Counted::Functions => u.kind == UnitKind::Function,
        Counted::Promoted(fams) => in_family_exec(u) && contains_string(fams, u.compatibility_key.as_str()),
        Counted::Unpromoted(fams) => in_family_exec(u) && !contains_string(fams, u.compatibility_key.as_str()),
        Counted::UnsupportedFunctions => u.kind == UnitKind::Function && !in_family_exec(u),
        Counted::NonFunctions => u.kind != UnitKind::Function,
        Counted::SupportedSums => u.kind != UnitKind::Function && u.supported && u.scope
            == EvaluatorScope::SupportedSumSurface,
        Counted::SupportedData => u.kind != UnitKind::Function && u.supported && u.scope
            == EvaluatorScope::SupportedDataSurface,
        Counted::OtherNonFunctions => u.kind != UnitKind::Function && !(u.supported && (u.scope
            == EvaluatorScope::SupportedSumSurface || u.scope == EvaluatorScope::SupportedDataSurface)),
        Counted::ClusterHits(r, f, l) => u.kind == UnitKind::Function && !in_family_exec(u) && reason_exec(u) == r
            && fingerprint_is(u, f.as_str()) && leverage_exec(s, u) == l,
    }
}

/// How many units of the corpus the total counts.
pub fn count_units(srcs: &Vec<ReviewedSource>, idx: &Vec<(usize, usize)>, c: Counted) -> (r: usize)
    requires
        indexes(srcs@, idx@),
    ensures
        r == count_of(flat_units(srcs@), c),
{
    let ghost recs = flat_units(srcs@);
    let mut n: usize = 0;
    let mut i: usize = 0;
    while i < idx.len()
        invariant
            indexes(srcs@, idx@),
            recs == flat_units(srcs@),
            i <= idx@.len(),
            n <= i,
            n == count_of(recs.take(i as int), c),
        decreases idx@.len() - i,
    {
        let (a, b) = idx[i];
        let s = &srcs[a].source;
        let u = &srcs[a].units[b];
        proof {
            assert(recs[i as int] == (*s, *u));
            assert(recs.take(i + 1).drop_last() =~= recs.take(i as int));
        }
        if is_counted_exec(c, s, u) {
            n = n + 1;
        }
        i = i + 1;
    }
    proof {
        assert(recs.take(idx@.len() as int) =~= recs);
    }
    n
}

pub open spec fn reason_rank(r: UnsupportedFunctionReasonCode) -> int {
    match r {
        UnsupportedFunctionReasonCode::UnsupportedFunctionSurface => 0,
        UnsupportedFunctionReasonCode::UnsupportedControlFlow => 1,
        UnsupportedFunctionReasonCode::UnsupportedDepTopology => 2,
        UnsupportedFunctionReasonCode::UnsupportedArithmeticShape => 3,
        UnsupportedFunctionReasonCode::UnsupportedRequiredArgumentExpression => 4,
        UnsupportedFunctionReasonCode::UnsupportedWrapperBodyShape => 5,
    }
}

fn reason_rank_exec(r: UnsupportedFunctionReasonCode) -> (n: u8)
    ensures
        n == reason_rank(r),
{
    match r {
        UnsupportedFunctionReasonCode::UnsupportedFunctionSurface => 0,
        UnsupportedFunctionReasonCode::UnsupportedControlFlow => 1,
        UnsupportedFunctionReasonCode::UnsupportedDepTopology => 2,
        UnsupportedFunctionReasonCode::UnsupportedArithmeticShape => 3,
        UnsupportedFunctionReasonCode::UnsupportedRequiredArgumentExpression => 4,
        UnsupportedFunctionReasonCode::UnsupportedWrapperBodyShape => 5,
    }
}

/// Cluster keys sort by reason, then by fingerprint.
pub open spec fn key_lt(a: (UnsupportedFunctionReasonCode, Seq<char>), b: (UnsupportedFunctionReasonCode, Seq<char>)) -> bool {
    reason_rank(a.0) < reason_rank(b.0) || (a.0 == b.0 && lex_lt(a.1, b.1))
}

pub open spec fn key_sorted(s: Seq<(UnsupportedFunctionReasonCode, Seq<char>)>) -> bool {
    forall|i: int, j: int| 0 <= i < j < s.len() ==> key_lt(#[trigger] s[i], #[trigger] s[j])
}

pub open spec fn key_views(v: Seq<(UnsupportedFunctionReasonCode, String)>) -> Seq<(UnsupportedFunctionReasonCode, Seq<char>)> {
    v.map_values(|p: (UnsupportedFunctionReasonCode, String)| (p.0, p.1@))
}

proof fn lemma_key_order(
    a: (UnsupportedFunctionReasonCode, Seq<char>),
    b: (UnsupportedFunctionReasonCode, Seq<char>),
    c: (UnsupportedFunctionReasonCode, Seq<char>),
)
    ensures
        !key_lt(a, a),
        a != b ==> key_lt(a, b) || key_lt(b, a),
        key_lt(a, b) && key_lt(b, c) ==> key_lt(a, c),
{
    lemma_lex_irreflexive(a.1);
    lemma_lex_total(a.1, b.1);
    if lex_lt(a.1, b.1) && lex_lt(b.1, c.1) {
        lemma_lex_transitive(a.1, b.1, c.1);
    }
    if a.0 != b.0 {
        assert(reason_rank(a.0) != reason_rank(b.0));
    }
}

/// Adds the key `(r, f)` to the ordered set of keys `v`.
fn insert_key(v: &mut Vec<(UnsupportedFunctionReasonCode, String)>, r: UnsupportedFunctionReasonCode, f: &str)
    requires
        key_sorted(key_views(old(v)@)),
    ensures
        key_sorted(key_views(final(v)@)),
        key_views(final(v)@).to_set() == key_views(old(v)@).to_set().insert((r, f@)),
{
    let fs = chars_of(f);
    let ghost vs = key_views(v@);
    let ghost x = (r, f@);
    let rank = reason_rank_exec(r);
    let mut i: usize = 0;
    while i < v.len()
        invariant
            i <= v@.len(),
            vs == key_views(v@),
            fs@ == f@,
            x == (r, f@),
            rank == reason_rank(r),
            key_sorted(vs),
            forall|k: int| 0 <= k < i ==> key_lt(#[trigger] vs[k], x),
        ensures
            i <= v@.len(),
            vs == key_views(v@),
            forall|k: int| 0 <= k < i ==> key_lt(#[trigger] vs[k], x),
            i < v@.len() ==> !key_lt(vs[i as int], x),
        decreases v@.len() - i,
    {
        proof {
            assert(vs[i as int] == (v@[i as int].0, v@[i as int].1@));
        }
        let other = reason_rank_exec(v[i].0);
        let cur = chars_of(v[i].1.as_str());
        let less = other < rank || (v[i].0 == r && lex_less(&cur, &fs));
        if !less {
            break;
        }
        i = i + 1;
    }
    proof {
        if i < v@.len() {
            assert(vs[i as int] == (v@[i as int].0, v@[i as int].1@));
        }
    }
    if i < v.len() && v[i].0 == r && str_eq(v[i].1.as_str(), f) {
        proof {
            assert(vs[i as int] == x);
            assert(vs.to_set().insert(x) =~= vs.to_set());
        }
        return;
    }
    proof {
        if i < vs.len() {
            lemma_key_order(vs[i as int], x, x);
        }
    }
    v.insert(i, (r, owned(f)));
    proof {
        let ws = key_views(v@);
        assert(ws =~= vs.insert(i as int, x));
        lemma_insert_to_set(vs, i as int, x);
        assert forall|a: int, b: int| 0 <= a < b < ws.len() implies key_lt(#[trigger] ws[a], #[trigger] ws[b]) by {
            if b < i {
            } else if b == i {
            } else if a < i {
                assert(ws[b] == vs[b - 1]);
                if b - 1 > i {
                    lemma_key_order(x, vs[i as int], vs[b - 1]);
                }
                lemma_key_order(ws[a], x, ws[b]);
            } else if a == i {
                if b - 1 > i {
                    lemma_key_order(x, vs[i as int], vs[b - 1]);
                }
            } else {
                assert(ws[a] == vs[a - 1]);
                assert(ws[b] == vs[b - 1]);
            }
        }
    }
}

/// The keys of the clusters the unsupported functions of `recs` form.
pub open spec fn cluster_keys(recs: Seq<(ManifestSource, ReviewedUnit)>) -> Set<(UnsupportedFunctionReasonCode, Seq<char>)> {
    Set::new(|x: (UnsupportedFunctionReasonCode, Seq<char>)| exists|w: int| #[trigger] keyed_at(recs, w, x))
}

/// Unit `w` of `recs` is an unsupported function with cluster key `x`.
pub open spec fn keyed_at(recs: Seq<(ManifestSource, ReviewedUnit)>, w: int, x: (UnsupportedFunctionReasonCode, Seq<char>)) -> bool {
    0 <= w < recs.len() && unsupported_function(recs[w]) && (reason_of(recs[w]), fingerprint_of(recs[w])) == x
}

fn fingerprint_exec(u: &ReviewedUnit) -> (r: String)
    ensures
        forall|s: ManifestSource| r@ == fingerprint_of((s, *u)),
{
    match &u.shape_fingerprint {
        Some(g) => owned(g.as_str()),
        None => String::new(),
    }
}

/// The cluster keys of the corpus, each once, in key order.
pub fn collect_cluster_keys(srcs: &Vec<ReviewedSource>, idx: &Vec<(usize, usize)>) -> (r: Vec<(UnsupportedFunctionReasonCode, String)>)
    requires
        indexes(srcs@, idx@),
    ensures
        key_sorted(key_views(r@)),
        key_views(r@).to_set() == cluster_keys(flat_units(srcs@)),
{
    let ghost recs = flat_units(srcs@);
    let mut out: Vec<(UnsupportedFunctionReasonCode, String)> = Vec::new();
    let mut i: usize = 0;
    proof {
        assert(key_views(out@).to_set() =~= cluster_keys(recs.take(0)));
    }
    while i < idx.len()
        invariant
            indexes(srcs@, idx@),
            recs == flat_units(srcs@),
            i <= idx@.len(),
            key_sorted(key_views(out@)),
            key_views(out@).to_set() == cluster_keys(recs.take(i as int)),
        decreases idx@.len() - i,
    {
        let (a, b) = idx[i];
        let s = &srcs[a].source;
        let u = &srcs[a].units[b];
        proof {
            assert(recs[i as int] == (*s, *u));
        }
        let ghost before = key_views(out@).to_set();
        let ghost r0 = recs.take(i as int);
        let ghost r1 = recs.take(i + 1);
        if u.kind == UnitKind::Function && !in_family_exec(u) {
            let r = reason_exec(u);
            let f = fingerprint_exec(u);
            insert_key(&mut out, r, f.as_str());
            proof {
                let key = (r, f@);
                assert(cluster_keys(r1) =~= before.insert(key)) by {
                    assert forall|x: (UnsupportedFunctionReasonCode, Seq<char>)| cluster_keys(r1).contains(x) implies before.insert(
                        key,
                    ).contains(x) by {
                        let w = choose|w: int| keyed_at(r1, w, x);
                        if w < i {
                            assert(r0[w] == r1[w]);
                            assert(keyed_at(r0, w, x));
                        }
                    }
                    assert forall|x: (UnsupportedFunctionReasonCode, Seq<char>)| before.insert(key).contains(x) implies cluster_keys(
                        r1,
                    ).contains(x) by {
                        if x == key {
                            assert(r1[i as int] == recs[i as int]);
                            assert(keyed_at(r1, i as int, x));
                        } else {
                            let w = choose|w: int| keyed_at(r0, w, x);
                            assert(r1[w] == r0[w]);
                            assert(keyed_at(r1, w, x));
                        }
                    }
                }
            }
        } else {
            proof {
                assert(cluster_keys(r1) =~= before) by {
                    assert forall|x: (UnsupportedFunctionReasonCode, Seq<char>)| cluster_keys(r1).contains(x) implies before.contains(
                        x,
                    ) by {
                        let w = choose|w: int| keyed_at(r1, w, x);
                        assert(r0[w] == r1[w]);
                        assert(keyed_at(r0, w, x));
                    }
                    assert forall|x: (UnsupportedFunctionReasonCode, Seq<char>)| before.contains(x) implies cluster_keys(r1).contains(
                        x,
                    ) by {
                        let w = choose|w: int| keyed_at(r0, w, x);
                        assert(r1[w] == r0[w]);
                        assert(keyed_at(r1, w, x));
                    }
                }
            }
        }
        i = i + 1;
    }
    proof {
        assert(recs.take(idx@.len() as int) =~= recs);
    }
    out
}

/// Units `a` and `b` of the list share one id.
pub open spec fn same_unit_id(units: Seq<ReviewedUnit>, a: int, b: int) -> bool {
    0 <= a < b < units.len() && units[a].unit_id@ == units[b].unit_id@
}

pub open spec fn has_duplicate_ids(units: Seq<ReviewedUnit>) -> bool {
    exists|a: int, b: int| #[trigger] same_unit_id(units, a, b)
}

/// An unsupported function whose shape could not be fingerprinted.
pub open spec fn lacks_fingerprint(u: ReviewedUnit) -> bool {
    u.kind == UnitKind::Function && !(u.supported && u.scope == EvaluatorScope::SupportedFunctionSurface)
        && u.shape_fingerprint is None
}

/// What stops a source from being tallied: duplicate unit ids, or else its first
/// unsupported function without a fingerprint.
pub open spec fn source_problem(s: ReviewedSource) -> Option<XtaskErrorView> {
    if has_duplicate_ids(s.units@) {
        Some(XtaskErrorView::InvalidInput("corpus source `"@ + s.source.id@ + "` contains duplicate unit ids"@))
    } else {
        match first_match(s.units@, |u: ReviewedUnit| lacks_fingerprint(u), 0) {
            Some(i) => Some(
                XtaskErrorView::InvalidInput(
                    "unsupported function `"@ + s.units@[i].unit_id@ + "` did not produce a stable shape fingerprint"@,
                ),
            ),
            None => None,
        }
    }
}

/// The problem of the first source that has one.
pub open spec fn corpus_problem(srcs: Seq<ReviewedSource>) -> Option<XtaskErrorView>
    decreases srcs.len(),
{
    if srcs.len() == 0 {
        None
    } else if source_problem(srcs[0]) is Some {
        source_problem(srcs[0])
    } else {
        corpus_problem(srcs.drop_first())
    }
}

fn invalid_input(m: String) -> (r: XtaskError)
    ensures
        r@ == XtaskErrorView::InvalidInput(m@),
{
    XtaskError::InvalidInput(m)
}

fn find_source_problem(s: &ReviewedSource) -> (r: Result<(), XtaskError>)
    ensures
        match source_problem(*s) {
            None => r is Ok,
            Some(e) => r matches Err(x) && x@ == e,
        },
{
    let units = &s.units;
    let mut a: usize = 0;
    while a < units.len()
        invariant
            a <= units@.len(),
            units@ == s.units@,
            forall|x: int, y: int| x < a ==> !#[trigger] same_unit_id(units@, x, y),
        decreases units@.len() - a,
    {
        let mut b: usize = a + 1;
        while b < units.len()
            invariant
                a < units@.len(),
                a + 1 <= b <= units@.len(),
                units@ == s.units@,
                forall|x: int, y: int| x < a ==> !#[trigger] same_unit_id(units@, x, y),
                forall|y: int| y < b ==> !#[trigger] same_unit_id(units@, a as int, y),
            decreases units@.len() - b,
        {
            if str_eq(units[a].unit_id.as_str(), units[b].unit_id.as_str()) {
                proof {
                    assert(same_unit_id(units@, a as int, b as int));
                }
                let mut m = owned("corpus source `");
                m.append(s.source.id.as_str());
                m.append("` contains duplicate unit ids");
                return Err(invalid_input(m));
            }
            b = b + 1;
        }
        a = a + 1;
    }
    proof {
        assert(!has_duplicate_ids(units@));
    }
    let ghost p = |u: ReviewedUnit| lacks_fingerprint(u);
    let mut i: usize = 0;
    while i < units.len()
        invariant
            i <= units@.len(),
            units@ == s.units@,
            !has_duplicate_ids(units@),
            p == (|u: ReviewedUnit| lacks_fingerprint(u)),
            first_match(units@, p, 0) == first_match(units@, p, i as int),
        decreases units@.len() - i,
    {
        let u = &units[i];
        let lacks = u.kind == UnitKind::Function && !(u.supported && u.scope == EvaluatorScope::SupportedFunctionSurface)
            && u.shape_fingerprint.is_none();
        proof {
            assert(lacks == p(units@[i as int]));
            assert(first_match(units@, p, i as int) == if p(units@[i as int]) {
                Some(i as int)
            } else {
                first_match(units@, p, i + 1)
            });
        }
        if lacks {
            let mut m = owned("unsupported function `");
            m.append(u.unit_id.as_str());
            m.append("` did not produce a stable shape fingerprint");
            return Err(invalid_input(m));
        }
        i = i + 1;
    }
    Ok(())
}

fn find_corpus_problem(srcs: &Vec<ReviewedSource>) -> (r: Result<(), XtaskError>)
    ensures
        match corpus_problem(srcs@) {
            None => r is Ok,
            Some(e) => r matches Err(x) && x@ == e,
        },
{
    let mut i: usize = 0;
    proof {
        assert(srcs@.skip(0) =~= srcs@);
    }
    while i < srcs.len()
        invariant
            i <= srcs@.len(),
            corpus_problem(srcs@) == corpus_problem(srcs@.skip(i as int)),
        decreases srcs@.len() - i,
    {
        proof {
            assert(srcs@.skip(i as int)[0] == srcs@[i as int]);
            assert(srcs@.skip(i as int).drop_first() =~= srcs@.skip(i + 1));
        }
        match find_source_problem(&srcs[i]) {
            Err(e) => {
                return Err(e);
            },
            Ok(()) => {},
        }
        i = i + 1;
    }
    Ok(())
}

/// The totals, family coverage and unsupported clusters of a corpus.
#[derive(Debug, Clone)]
pub struct CorpusTally {
    pub sources: Vec<CorpusSourceEntry>,
    pub function_coverage: FunctionCoverageTotals,
    pub non_function_coverage: NonFunctionCoverageTotals,
    pub family_coverage: Vec<FamilyCoverageEntry>,
    pub unsupported_clusters: Vec<UnsupportedClusterEntry>,
}

/// `e` records the manifest source `s` and how many units it holds.
pub open spec fn source_entry_of(e: CorpusSourceEntry, s: ReviewedSource) -> bool {
    &&& e.id@ == s.source.id@
    &&& e.path@ == s.source.path@
    &&& e.kind == s.source.kind
    &&& e.counts_toward_recommendation == s.source.counts_toward_recommendation
    &&& e.note@ == s.source.note@
    &&& e.unit_count == s.units@.len()
}

/// `e` lists the units of its family in `recs` and the sources they come from.
pub open spec fn family_entry_of(e: FamilyCoverageEntry, recs: Seq<(ManifestSource, ReviewedUnit)>) -> bool {
    &&& sorted_set_of(views_of(e.unit_ids@), member_ids(recs, Members::Family(&e.family), IdKind::Unit))
    &&& sorted_set_of(views_of(e.source_ids@), member_ids(recs, Members::Family(&e.family), IdKind::Source))
    &&& e.unit_count == e.unit_ids@.len()
}

/// `c` describes the cluster of its key in `recs`.
pub open spec fn cluster_entry_of(c: UnsupportedClusterEntry, recs: Seq<(ManifestSource, ReviewedUnit)>) -> bool {
    let r = c.reason_code;
    let f = &c.shape_fingerprint;
    &&& c.cluster_id@ == cluster_id_of(r, f@)
    &&& sorted_set_of(views_of(c.representative_unit_ids@), member_ids(recs, Members::Cluster(r, f), IdKind::Unit))
    &&& sorted_set_of(views_of(c.source_ids@), member_ids(recs, Members::Cluster(r, f), IdKind::Source))
    &&& c.real_example_hits == count_of(recs, Counted::ClusterHits(r, f, LeverageBucket::RealExample))
    &&& c.promotion_relevant_regression_hits == count_of(
        recs,
        Counted::ClusterHits(r, f, LeverageBucket::PromotionRelevantRegression),
    )
    &&& c.boundary_only_hits == count_of(recs, Counted::ClusterHits(r, f, LeverageBucket::BoundaryOnly))
    &&& c.overlap_family@ == overlap_family_of(r, f@)
    &&& c.candidate_status == candidate_status_of(
        c.real_example_hits as int,
        c.promotion_relevant_regression_hits as int,
        c.boundary_only_hits as int,
        member_ids(recs, Members::ClusterRegression(r, f), IdKind::Source).len() as int,
    )
}

/// `t` is the tally of the sources `srcs` against the promoted families.
pub open spec fn tally_of(t: CorpusTally, srcs: Seq<ReviewedSource>, promoted: &Vec<String>) -> bool {
    let recs = flat_units(srcs);
    let families = t.family_coverage@.map_values(|e: FamilyCoverageEntry| e.family@);
    let keys = t.unsupported_clusters@.map_values(
        |c: UnsupportedClusterEntry| (c.reason_code, c.shape_fingerprint@),
    );
    &&& t.sources@.len() == srcs.len()
    &&& forall|k: int| 0 <= k < srcs.len() ==> source_entry_of(#[trigger] t.sources@[k], srcs[k])
    &&& t.function_coverage.total_units == count_of(recs, Counted::Functions)
    &&& t.function_coverage.promoted_family_units == count_of(recs, Counted::Promoted(promoted))
    &&& t.function_coverage.supported_unpromoted_family_units == count_of(recs, Counted::Unpromoted(promoted))
    &&& t.function_coverage.unsupported_function_units == count_of(recs, Counted::UnsupportedFunctions)
    &&& t.non_function_coverage.total_units == count_of(recs, Counted::NonFunctions)
    &&& t.non_function_coverage.supported_sum_units == count_of(recs, Counted::SupportedSums)
    &&& t.non_function_coverage.supported_data_units == count_of(recs, Counted::SupportedData)
    &&& t.non_function_coverage.other_units == count_of(recs, Counted::OtherNonFunctions)
    &&& sorted_set_of(families, member_ids(recs, Members::Supported, IdKind::Key))
    &&& forall|k: int| 0 <= k < families.len() ==> family_entry_of(#[trigger] t.family_coverage@[k], recs)
    &&& key_sorted(keys)
    &&& keys.to_set() == cluster_keys(recs)
    &&& forall|k: int| 0 <= k < keys.len() ==> cluster_entry_of(#[trigger] t.unsupported_clusters@[k], recs)
}

fn source_entry(s: &ReviewedSource) -> (e: CorpusSourceEntry)
    ensures
        source_entry_of(e, *s),
{
    CorpusSourceEntry {
        id: owned(s.source.id.as_str()),
        path: owned(s.source.path.as_str()),
        kind: s.source.kind,
        counts_toward_recommendation: s.source.counts_toward_recommendation,
        note: owned(s.source.note.as_str()),
        unit_count: s.units.len(),
    }
}

proof fn lemma_sorted_set_len(v: Seq<Seq<char>>)
    requires
        lex_sorted(v),
    ensures
        v.to_set().len() == v.len(),
{
    assert forall|i: int, j: int| 0 <= i < v.len() && 0 <= j < v.len() && i != j implies v[i] != v[j] by {
        if i < j {
            lemma_lex_irreflexive(v[i]);
        } else {
            lemma_lex_irreflexive(v[j]);
        }
    }
    v.unique_seq_to_set();
}

fn family_entry(srcs: &Vec<ReviewedSource>, idx: &Vec<(usize, usize)>, family: String) -> (e: FamilyCoverageEntry)
    requires
        indexes(srcs@, idx@),
    ensures
        family_entry_of(e, flat_units(srcs@)),
        e.family == family,
{
    let unit_ids = collect_ids(srcs, idx, Members::Family(&family), IdKind::Unit);
    let source_ids = collect_ids(srcs, idx, Members::Family(&family), IdKind::Source);
    FamilyCoverageEntry { unit_count: unit_ids.len(), family, unit_ids, source_ids }
}

fn cluster_entry(
    srcs: &Vec<ReviewedSource>,
    idx: &Vec<(usize, usize)>,
    reason_code: UnsupportedFunctionReasonCode,
    shape_fingerprint: String,
) -> (c: UnsupportedClusterEntry)
    requires
        indexes(srcs@, idx@),
    ensures
        cluster_entry_of(c, flat_units(srcs@)),
        c.reason_code == reason_code,
        c.shape_fingerprint == shape_fingerprint,
{
    let f = &shape_fingerprint;
    let representative_unit_ids = collect_ids(srcs, idx, Members::Cluster(reason_code, f), IdKind::Unit);
    let source_ids = collect_ids(srcs, idx, Members::Cluster(reason_code, f), IdKind::Source);
    let regression_sources = collect_ids(srcs, idx, Members::ClusterRegression(reason_code, f), IdKind::Source);
    let real_example_hits = count_units(srcs, idx, Counted::ClusterHits(reason_code, f, LeverageBucket::RealExample));
    let promotion_relevant_regression_hits = count_units(
        srcs,
        idx,
        Counted::ClusterHits(reason_code, f, LeverageBucket::PromotionRelevantRegression),
    );
    let boundary_only_hits = count_units(srcs, idx, Counted::ClusterHits(reason_code, f, LeverageBucket::BoundaryOnly));
    proof {
        lemma_sorted_set_len(views_of(regression_sources@));
    }
    let candidate_status = classify_candidate_status(
        real_example_hits,
        promotion_relevant_regression_hits,
        boundary_only_hits,
        regression_sources.len(),
    );
    let cluster_id = cluster_id(reason_code, f.as_str());
    let overlap_family = overlap_family_for_cluster(reason_code, f.as_str());
    UnsupportedClusterEntry {
        cluster_id,
        reason_code,
        shape_fingerprint,
        representative_unit_ids,
        source_ids,
        real_example_hits,
        promotion_relevant_regression_hits,
        boundary_only_hits,
        overlap_family,
        candidate_status,
    }
}

/// Tallies the reviewed units of a corpus: the sources it counted, the totals of function
/// and other units, the units of each family on the supported function surface (families
/// in string order), and the clusters of unsupported functions by reason and shape (in
/// key order). Fails on the first source with duplicate unit ids or with an unsupported
/// function that has no shape fingerprint.
pub fn tally_corpus(sources: &Vec<ReviewedSource>, promoted_families: &Vec<String>) -> (r: Result<CorpusTally, XtaskError>)
    ensures
        match corpus_problem(sources@) {
            Some(e) => r matches Err(x) && x@ == e,
            None => r matches Ok(t) && tally_of(t, sources@, promoted_families),
        },
{
    match find_corpus_problem(sources) {
        Err(e) => {
            return Err(e);
        },
        Ok(()) => {},
    }
    let idx = flat_index(sources);
    let mut source_entries: Vec<CorpusSourceEntry> = Vec::new();
    let mut i: usize = 0;
    while i < sources.len()
        invariant
            i <= sources@.len(),
            source_entries@.len() == i,
            forall|k: int| 0 <= k < i ==> source_entry_of(#[trigger] source_entries@[k], sources@[k]),
        decreases sources@.len() - i,
    {
        source_entries.push(source_entry(&sources[i]));
        i = i + 1;
    }
    let function_coverage = FunctionCoverageTotals {
        total_units: count_units(sources, &idx, Counted::Functions),
        promoted_family_units: count_units(sources, &idx, Counted::Promoted(promoted_families)),
        supported_unpromoted_family_units: count_units(sources, &idx, Counted::Unpromoted(promoted_families)),
        unsupported_function_units: count_units(sources, &idx, Counted::UnsupportedFunctions),
    };
    let non_function_coverage = NonFunctionCoverageTotals {
        total_units: count_units(sources, &idx, Counted::NonFunctions),
        supported_sum_units: count_units(sources, &idx, Counted::SupportedSums),
        supported_data_units: count_units(sources, &idx, Counted::SupportedData),
        other_units: count_units(sources, &idx, Counted::OtherNonFunctions),
    };
    let ghost recs = flat_units(sources@);
    let families = collect_ids(sources, &idx, Members::Supported, IdKind::Key);
    let mut family_coverage: Vec<FamilyCoverageEntry> = Vec::new();
    let mut k: usize = 0;
    while k < families.len()
        invariant
            indexes(sources@, idx@),
            recs == flat_units(sources@),
            k <= families@.len(),
            family_coverage@.len() == k,
            forall|j: int| 0 <= j < k ==> (#[trigger] family_coverage@[j]).family@ == families@[j]@,
            forall|j: int| 0 <= j < k ==> family_entry_of(#[trigger] family_coverage@[j], recs),
        decreases families@.len() - k,
    {
        let e = family_entry(sources, &idx, owned(families[k].as_str()));
        family_coverage.push(e);
        k = k + 1;
    }
    proof {
        assert(family_coverage@.map_values(|e: FamilyCoverageEntry| e.family@) =~= views_of(families@));
    }
    let keys = collect_cluster_keys(sources, &idx);
    let mut unsupported_clusters: Vec<UnsupportedClusterEntry> = Vec::new();
    let mut k: usize = 0;
    while k < keys.len()
        invariant
            indexes(sources@, idx@),
            recs == flat_units(sources@),
            k <= keys@.len(),
            unsupported_clusters@.len() == k,
            forall|j: int|
                0 <= j < k ==> ((#[trigger] unsupported_clusters@[j]).reason_code, unsupported_clusters@[j].shape_fingerprint@)
                    == key_views(keys@)[j],
            forall|j: int| 0 <= j < k ==> cluster_entry_of(#[trigger] unsupported_clusters@[j], recs),
        decreases keys@.len() - k,
    {
        proof {
            assert(key_views(keys@)[k as int] == (keys@[k as int].0, keys@[k as int].1@));
        }
        let c = cluster_entry(sources, &idx, keys[k].0, owned(keys[k].1.as_str()));
        unsupported_clusters.push(c);
        k = k + 1;
    }
    proof {
        assert(unsupported_clusters@.map_values(
            |c: UnsupportedClusterEntry| (c.reason_code, c.shape_fingerprint@),
        ) =~= key_views(keys@));
    }
    Ok(CorpusTally {
        sources: source_entries,
        function_coverage,
        non_function_coverage,
        family_coverage,
        unsupported_clusters,
    })
}

proof fn lemma_counts_partition(recs: Seq<(ManifestSource, ReviewedUnit)>, promoted: &Vec<String>)
    ensures
        count_of(recs, Counted::Functions) == count_of(recs, Counted::Promoted(promoted)) + count_of(
            recs,
            Counted::Unpromoted(promoted),
        ) + count_of(recs, Counted::UnsupportedFunctions),
        count_of(recs, Counted::NonFunctions) == count_of(recs, Counted::SupportedSums) + count_of(
            recs,
            Counted::SupportedData,
        ) + count_of(recs, Counted::OtherNonFunctions),
        count_of(recs, Counted::Functions) + count_of(recs, Counted::NonFunctions) == recs.len(),
    decreases recs.len(),
{
    if recs.len() > 0 {
        lemma_counts_partition(recs.drop_last(), promoted);
    }
}

/// Every unit of a tallied corpus is counted once: each function is promoted, supported
/// but unpromoted, or unsupported; each other unit is a supported sum, supported data, or
/// other; and the two totals add up to the number of units.
pub proof fn lemma_tally_partitions_units(t: CorpusTally, srcs: Seq<ReviewedSource>, promoted: &Vec<String>)
    requires
        tally_of(t, srcs, promoted),
    ensures
        t.function_coverage.total_units == t.function_coverage.promoted_family_units
            + t.function_coverage.supported_unpromoted_family_units + t.function_coverage.unsupported_function_units,
        t.non_function_coverage.total_units == t.non_function_coverage.supported_sum_units
            + t.non_function_coverage.supported_data_units + t.non_function_coverage.other_units,
        t.function_coverage.total_units + t.non_function_coverage.total_units == flat_units(srcs).len(),
{
    lemma_counts_partition(flat_units(srcs), promoted);
}

/// The coverage snapshot of a tallied corpus, generated at `generated_at` against the
/// inventory at `inventory_path`.
pub fn coverage_artifact(
    generated_at: String,
    inventory_path: String,
    inventory_sha256: String,
    corpus_manifest_sha256: String,
    tally: CorpusTally,
) -> (r: FamilyCoverageArtifact)
    ensures
        r.schema_version == COVERAGE_SCHEMA_VERSION,
        r.artifact_kind == PromotionArtifactKind::FamilyCoverageSnapshot,
        r.generated_at == generated_at,
        r.inventory_path == inventory_path,
        r.inventory_sha256 == inventory_sha256,
        r.corpus_manifest_path@ == M27_CORPUS_MANIFEST_PATH@,
        r.corpus_manifest_sha256 == corpus_manifest_sha256,
        r.sources == tally.sources,
        r.function_coverage == tally.function_coverage,
        r.non_function_coverage == tally.non_function_coverage,
        r.family_coverage == tally.family_coverage,
        r.unsupported_clusters == tally.unsupported_clusters,
{
    FamilyCoverageArtifact {
        schema_version: COVERAGE_SCHEMA_VERSION,
        artifact_kind: PromotionArtifactKind::FamilyCoverageSnapshot,
        generated_at,
        inventory_path,
        inventory_sha256,
        corpus_manifest_path: owned(M27_CORPUS_MANIFEST_PATH),
        corpus_manifest_sha256,
        sources: tally.sources,
        function_coverage: tally.function_coverage,
        non_function_coverage: tally.non_function_coverage,
        family_coverage: tally.family_coverage,
        unsupported_clusters: tally.unsupported_clusters,
    }
}

/// A coverage snapshot as recommendations compare it: without the time it was generated
/// and without the inventory it was taken against.
pub fn normalized_for_recommend_determinism(artifact: FamilyCoverageArtifact) -> (r: FamilyCoverageArtifact)
    ensures
        r.generated_at@.len() == 0,
        r.inventory_path@.len() == 0,
        r.inventory_sha256@.len() == 0,
        r.schema_version == artifact.schema_version,
        r.artifact_kind == artifact.artifact_kind,
        r.corpus_manifest_path == artifact.corpus_manifest_path,
        r.corpus_manifest_sha256 == artifact.corpus_manifest_sha256,
        r.sources == artifact.sources,
        r.function_coverage == artifact.function_coverage,
        r.non_function_coverage == artifact.non_function_coverage,
        r.family_coverage == artifact.family_coverage,
        r.unsupported_clusters == artifact.unsupported_clusters,
{
    FamilyCoverageArtifact {
        generated_at: String::new(),
        inventory_path: String::new(),
        inventory_sha256: String::new(),
        ..artifact
    }
}

} // verus!
