//! The bounded TypeScript execution lane: which units may be lowered to TypeScript.
//! A target is a function unit whose reachable closure is made of reviewed, supported
//! helper, arithmetic-leaf and wrapper-pipeline units, each authoring `body.typescript`,
//! with the dependency contracts of its family.
use vstd::prelude::*;
use crate::errors::{SpecError, SpecErrorView};
use crate::model::{LoadedSpec, UnitKind};
use crate::text::{chars_of, concat, first_index, lemma_first_index, owned, str_eq, string_of, trim_chars, trim_seq};
use crate::rust_syntax::{check_expect_expr, expect_issue};
use crate::unit_ref::{authored_form, callable_name, callable_of, opt_view, parse_dep, dep_failure_text, DepFailure, DepRef, QualifiedUnitRef};
use crate::validator::{contains_string, kind_of, or_else, outcome_is, semantic_error, unit_kind, unknown_kind_text};
use crate::errors::views_of_strings;
use crate::seam::{decimal, decimal_string};

verus! {

pub type UnitKey = (Option<Seq<char>>, Seq<char>);

/// What semantic review concluded of a unit, reviewed among the units of its
/// library: the compatibility key it classified the unit under, and whether that
/// classification is supported.
#[derive(Debug, Clone)]
pub struct SemanticReviewOutcome {
    pub compatibility_key: String,
    pub supported: bool,
}

/// The review of one unit of the loaded set; `None` when semantic review gave none.
#[derive(Debug, Clone)]
pub struct UnitReview {
    pub unit: QualifiedUnitRef,
    pub review: Option<SemanticReviewOutcome>,
}

/// An entry of the loaded unit set: the key it is looked up by, and the unit.
pub open spec fn entry_qid(e: (String, LoadedSpec)) -> UnitKey {
    match parse_dep(e.0@) {
        Ok(p) => p,
        Err(_) => (None, e.0@),
    }
}

pub open spec fn sem(spec: LoadedSpec, message: Seq<char>) -> SpecErrorView {
    SpecErrorView::SemanticValidation { message, path: spec.source.file_path@ }
}

/// How a qualified unit is shown in messages: `lib::id` or `id`.
pub open spec fn shown(q: UnitKey) -> Seq<char> {
    authored_form(q.0, q.1)
}

/// The last entry before `n` looked up as `q`.
pub open spec fn last_before(es: Seq<(String, LoadedSpec)>, q: UnitKey, n: int) -> Option<int>
    decreases n,
{
    if n <= 0 {
        None
    } else if entry_qid(es[n - 1]) == q {
        Some(n - 1)
    } else {
        last_before(es, q, n - 1)
    }
}

pub proof fn lemma_last_before(es: Seq<(String, LoadedSpec)>, q: UnitKey, n: int)
    requires
        n <= es.len(),
    ensures
        last_before(es, q, n) matches Some(j) ==> 0 <= j < n && entry_qid(es[j]) == q,
        last_before(es, q, n) is None ==> forall|j: int| 0 <= j < n ==> entry_qid(#[trigger] es[j]) != q,
    decreases n,
{
    if n > 0 {
        lemma_last_before(es, q, n - 1);
    }
}

/// What refuses entry `i` of the set: a key that is no dependency reference, a key
/// naming another unit, or a key that an earlier entry from another file also took.
pub open spec fn entry_issue(es: Seq<(String, LoadedSpec)>, i: int) -> Option<SpecErrorView> {
    let (key, spec) = es[i];
    match parse_dep(key@) {
        Err(f) => Some(sem(spec, dep_failure_text(key@, f))),
        Ok(p) => if p.1 != spec.spec.id@ {
            Some(
                sem(
                    spec,
                    "TypeScript target lookup key '"@ + key@ + "' does not match unit id '"@ + spec.spec.id@ + "'"@,
                ),
            )
        } else {
            match last_before(es, p, i) {
                Some(j) => if es[j].1.source.file_path@ != spec.source.file_path@ {
                    Some(
                        sem(
                            spec,
                            "TypeScript target lookup for '"@ + shown(p) + "' collided across '"@
                                + es[j].1.source.file_path@ + "' and '"@ + spec.source.file_path@ + "'"@,
                        ),
                    )
                } else {
                    None
                },
                None => None,
            }
        },
    }
}

pub open spec fn entry_bad(es: Seq<(String, LoadedSpec)>) -> spec_fn(int) -> bool {
    |i: int| entry_issue(es, i) is Some
}

/// Why the loaded set cannot be indexed: the first refused entry.
pub open spec fn index_issue(es: Seq<(String, LoadedSpec)>) -> Option<SpecErrorView> {
    match first_index(es.len() as int, entry_bad(es), 0) {
        Some(i) => entry_issue(es, i),
        None => None,
    }
}

pub open spec fn keys_of(qs: Seq<QualifiedUnitRef>) -> Seq<UnitKey> {
    qs.map_values(|q: QualifiedUnitRef| q.key())
}

fn last_key_before(qids: &Vec<QualifiedUnitRef>, q: &QualifiedUnitRef, n: usize) -> (r: Option<usize>)
    requires
        n <= qids@.len(),
    ensures
        match r {
            Some(j) => j < n && qids@[j as int].key() == q.key() && forall|k: int| j < k < n ==> qids@[k].key() != q.key(),
            None => forall|k: int| 0 <= k < n ==> qids@[k].key() != q.key(),
        },
{
    let mut k = n;
    while k > 0
        invariant
            k <= n,
            n <= qids@.len(),
            forall|t: int| k <= t < n ==> qids@[t].key() != q.key(),
        decreases k,
    {
        if qids[k - 1].same_as(q) {
            return Some(k - 1);
        }
        k = k - 1;
    }
    None
}

proof fn lemma_last_before_keys(es: Seq<(String, LoadedSpec)>, ks: Seq<UnitKey>, q: UnitKey, n: int)
    requires
        n <= ks.len(),
        n <= es.len(),
        forall|t: int| 0 <= t < n ==> ks[t] == entry_qid(#[trigger] es[t]),
    ensures
        match last_before(es, q, n) {
            Some(j) => 0 <= j < n && ks[j] == q && forall|t: int| j < t < n ==> ks[t] != q,
            None => forall|t: int| 0 <= t < n ==> ks[t] != q,
        },
    decreases n,
{
    if n > 0 {
        lemma_last_before_keys(es, ks, q, n - 1);
    }
}

/// Indexes the loaded set: the qualified id of each entry, in order, or the first refusal.
fn build_index(es: &Vec<(String, LoadedSpec)>) -> (r: Result<Vec<QualifiedUnitRef>, SpecError>)
    ensures
        match index_issue(es@) {
            Some(e) => r matches Err(x) && x@ == e,
            None => r matches Ok(qs) && qs@.len() == es@.len() && forall|i: int| 0 <= i < es@.len() ==> #[trigger] qs@[i].key() == entry_qid(es@[i]),
        },
{
    let mut qids: Vec<QualifiedUnitRef> = Vec::new();
    let mut i: usize = 0;
    while i < es.len()
        invariant
            i <= es@.len(),
            qids@.len() == i,
            forall|t: int| 0 <= t < i ==> #[trigger] qids@[t].key() == entry_qid(es@[t]),
            first_index(es@.len() as int, entry_bad(es@), 0) == first_index(es@.len() as int, entry_bad(es@), i as int),
        decreases es@.len() - i,
    {
        let key = &es[i].0;
        let spec = &es[i].1;
        proof {
            lemma_first_index(es@.len() as int, entry_bad(es@), i as int);
        }
        match DepRef::parse(key.as_str()) {
            Err(e) => {
                proof {
                    assert(entry_bad(es@)(i as int));
                }
                return Err(semantic_error(spec, e.message()));
            },
            Ok(parsed) => {
                if !str_eq(parsed.unit_id.as_str(), spec.spec.id.as_str()) {
                    proof {
                        assert(entry_bad(es@)(i as int));
                    }
                    let mut m = owned("TypeScript target lookup key '");
                    m.append(key.as_str());
                    m.append("' does not match unit id '");
                    m.append(spec.spec.id.as_str());
                    m.append("'");
                    return Err(semantic_error(spec, m));
                }
                let q = parsed.to_qualified(&None);
                proof {
                    assert(q.key() == entry_qid(es@[i as int]));
                    lemma_last_before_keys(es@, keys_of(qids@), q.key(), i as int);
                }
                match last_key_before(&qids, &q, i) {
                    Some(j) => {
                        proof {
                            assert(last_before(es@, q.key(), i as int) == Some(j as int)) by {
                                lemma_last_before_keys(es@, keys_of(qids@), q.key(), i as int);
                                lemma_last_before(es@, q.key(), i as int);
                                if last_before(es@, q.key(), i as int) != Some(j as int) {
                                    match last_before(es@, q.key(), i as int) {
                                        Some(jj) => {
                                            assert(keys_of(qids@)[jj] == qids@[jj].key());
                                            assert(keys_of(qids@)[j as int] == qids@[j as int].key());
                                        },
                                        None => {
                                            assert(keys_of(qids@)[j as int] == qids@[j as int].key());
                                        },
                                    }
                                }
                            }
                        }
                        if !str_eq(es[j].1.source.file_path.as_str(), spec.source.file_path.as_str()) {
                            proof {
                                assert(entry_bad(es@)(i as int));
                            }
                            let mut m = owned("TypeScript target lookup for '");
                            let shown_q = q.authored();
                            m.append(shown_q.as_str());
                            m.append("' collided across '");
                            m.append(es[j].1.source.file_path.as_str());
                            m.append("' and '");
                            m.append(spec.source.file_path.as_str());
                            m.append("'");
                            return Err(semantic_error(spec, m));
                        }
                    },
                    None => {
                        proof {
                            lemma_last_before(es@, q.key(), i as int);
                            if last_before(es@, q.key(), i as int) is Some {
                                let jj = last_before(es@, q.key(), i as int)->0;
                                assert(keys_of(qids@)[jj] == qids@[jj].key());
                            }
                        }
                    },
                }
                proof {
                    assert(!entry_bad(es@)(i as int));
                }
                qids.push(q);
            },
        }
        i = i + 1;
    }
    proof {
        lemma_first_index(es@.len() as int, entry_bad(es@), es@.len() as int);
    }
    Ok(qids)
}


pub const TYPESCRIPT_MONOTONE_UP_TARGET_COMPATIBILITY_KEY: &'static str = "function.arithmetic_leaf.monotone_up.v1";
pub const TYPESCRIPT_MONOTONE_DOWN_TARGET_COMPATIBILITY_KEY: &'static str = "function.arithmetic_leaf.monotone_down_nonnegative.v1";
pub const TYPESCRIPT_WRAPPER_TARGET_COMPATIBILITY_KEY: &'static str = "function.wrapper.pipeline.v1";
pub const TYPESCRIPT_NORMALIZED_REQUIRED_ARG_WRAPPER_TARGET_COMPATIBILITY_KEY: &'static str = "function.wrapper.pipeline.normalized_required_arg.v1";
pub const TYPESCRIPT_CHAIN3_TARGET_COMPATIBILITY_KEY: &'static str = "function.wrapper.pipeline.chain3.v1";
pub const TYPESCRIPT_HELPER_COMPATIBILITY_KEY: &'static str = "function.helper.identity_passthrough.v1";
pub const TYPESCRIPT_KIND_UNSUPPORTED_MESSAGE: &'static str = "TypeScript target currently supports only kind:function units in M52";
pub const TYPESCRIPT_DEP_ARITY_UNSUPPORTED_MESSAGE: &'static str = "TypeScript monotone-up target requires deps: [] or exactly one direct helper dep in M55";
pub const TYPESCRIPT_MISSING_HELPER_UNSUPPORTED_MESSAGE: &'static str = "TypeScript target requires the direct helper dep to resolve from the loaded unit set in M55";
pub const TYPESCRIPT_HELPER_FAMILY_UNSUPPORTED_MESSAGE: &'static str = "TypeScript target requires the direct helper dep to classify as function.helper.identity_passthrough.v1 in M55";
pub const TYPESCRIPT_HELPER_TYPESCRIPT_BODY_UNSUPPORTED_MESSAGE: &'static str = "TypeScript target requires the direct helper dep to author body.typescript in M55";
pub const TYPESCRIPT_WRAPPER_DEP_ARITY_UNSUPPORTED_MESSAGE: &'static str = "TypeScript wrapper target requires exactly two direct deps in M56";
pub const TYPESCRIPT_WRAPPER_MISSING_DEP_UNSUPPORTED_MESSAGE: &'static str = "TypeScript wrapper target requires every direct dep to resolve from the loaded unit set in M56";
pub const TYPESCRIPT_WRAPPER_DEP_FAMILY_UNSUPPORTED_MESSAGE: &'static str = "TypeScript wrapper target requires direct deps to classify as function.arithmetic_leaf.monotone_down_nonnegative.v1 then function.arithmetic_leaf.monotone_up.v1 in M56";
pub const TYPESCRIPT_WRAPPER_DEP_TYPESCRIPT_BODY_UNSUPPORTED_MESSAGE: &'static str = "TypeScript wrapper target requires direct deps to author body.typescript in M56";
pub const TYPESCRIPT_CHAIN3_DEP_ARITY_UNSUPPORTED_MESSAGE: &'static str = "TypeScript chain3 target requires exactly three direct deps in M56";
pub const TYPESCRIPT_CHAIN3_MISSING_DEP_UNSUPPORTED_MESSAGE: &'static str = "TypeScript chain3 target requires every direct dep to resolve from the loaded unit set in M56";
pub const TYPESCRIPT_CHAIN3_DEP_FAMILY_UNSUPPORTED_MESSAGE: &'static str = "TypeScript chain3 target requires direct deps to classify as function.wrapper.pipeline.v1, function.wrapper.pipeline.normalized_required_arg.v1, or function.wrapper.pipeline.chain3.v1 then function.arithmetic_leaf.monotone_up.v1 then function.arithmetic_leaf.monotone_down_nonnegative.v1 in M61";
pub const TYPESCRIPT_CHAIN3_DEP_TYPESCRIPT_BODY_UNSUPPORTED_MESSAGE: &'static str = "TypeScript chain3 target requires direct deps to author body.typescript in M56";
pub const TYPESCRIPT_LOCAL_GRAPH_MISSING_DEP_UNSUPPORTED_MESSAGE: &'static str = "TypeScript same-tree local target requires every reachable dep to resolve from the loaded unit set in M59";
pub const TYPESCRIPT_LOCAL_GRAPH_SEMANTIC_UNSUPPORTED_MESSAGE: &'static str = "TypeScript same-tree local target requires every reachable unit to classify to a supported semantic review in M59";
pub const TYPESCRIPT_LOCAL_GRAPH_TYPESCRIPT_BODY_UNSUPPORTED_MESSAGE: &'static str = "TypeScript same-tree local target requires every reachable unit to author body.typescript in M59";

/// The unit the set holds under `q`: the last entry looked up as `q`.
fn lookup(es: &Vec<(String, LoadedSpec)>, qids: &Vec<QualifiedUnitRef>, q: &QualifiedUnitRef) -> (r: Option<usize>)
    requires
        qids@.len() == es@.len(),
        forall|i: int| 0 <= i < es@.len() ==> #[trigger] qids@[i].key() == entry_qid(es@[i]),
    ensures
        match last_before(es@, q.key(), es@.len() as int) {
            Some(j) => r == Some(j as usize),
            None => r is None,
        },
{
    let r = last_key_before(qids, q, qids.len());
    proof {
        lemma_last_before_keys(es@, keys_of(qids@), q.key(), es@.len() as int);
        match last_before(es@, q.key(), es@.len() as int) {
            Some(jj) => {
                assert(keys_of(qids@)[jj] == qids@[jj].key());
                if let Some(j) = r {
                    assert(keys_of(qids@)[j as int] == qids@[j as int].key());
                }
            },
            None => {
                if let Some(j) = r {
                    assert(keys_of(qids@)[j as int] == qids@[j as int].key());
                }
            },
        }
    }
    r
}

pub open spec fn same_source(e: (String, LoadedSpec), spec: LoadedSpec) -> bool {
    e.1.source.file_path@ == spec.source.file_path@ && e.1.spec.id@ == spec.spec.id@
}

pub open spec fn local_candidate(es: Seq<(String, LoadedSpec)>, spec: LoadedSpec) -> spec_fn(int) -> bool {
    |i: int| same_source(es[i], spec) && entry_qid(es[i]).0 is None
}

pub open spec fn any_candidate(es: Seq<(String, LoadedSpec)>, spec: LoadedSpec) -> spec_fn(int) -> bool {
    |i: int| same_source(es[i], spec)
}

/// The qualified identity a unit goes by in the set: among the entries loaded from its
/// file under its id, the first local one, else the first; refused when there is none.
pub open spec fn target_entry(es: Seq<(String, LoadedSpec)>, spec: LoadedSpec) -> Result<int, SpecErrorView> {
    match first_index(es.len() as int, local_candidate(es, spec), 0) {
        Some(i) => Ok(i),
        None => match first_index(es.len() as int, any_candidate(es, spec), 0) {
            Some(i) => Ok(i),
            None => Err(sem(spec, "TypeScript target '"@ + spec.spec.id@ + "' was not present in the loaded unit set"@)),
        },
    }
}

fn first_candidate(es: &Vec<(String, LoadedSpec)>, qids: &Vec<QualifiedUnitRef>, spec: &LoadedSpec, local_only: bool) -> (r: Option<usize>)
    requires
        qids@.len() == es@.len(),
        forall|i: int| 0 <= i < es@.len() ==> #[trigger] qids@[i].key() == entry_qid(es@[i]),
    ensures
        match (if local_only {
            first_index(es@.len() as int, local_candidate(es@, *spec), 0)
        } else {
            first_index(es@.len() as int, any_candidate(es@, *spec), 0)
        }) {
            Some(i) => r == Some(i as usize),
            None => r is None,
        },
{
    let ghost p = if local_only { local_candidate(es@, *spec) } else { any_candidate(es@, *spec) };
    let mut i: usize = 0;
    while i < es.len()
        invariant
            i <= es@.len(),
            qids@.len() == es@.len(),
            forall|t: int| 0 <= t < es@.len() ==> #[trigger] qids@[t].key() == entry_qid(es@[t]),
            p == (if local_only { local_candidate(es@, *spec) } else { any_candidate(es@, *spec) }),
            first_index(es@.len() as int, p, 0) == first_index(es@.len() as int, p, i as int),
        decreases es@.len() - i,
    {
        let hit = str_eq(es[i].1.source.file_path.as_str(), spec.source.file_path.as_str()) && str_eq(
            es[i].1.spec.id.as_str(),
            spec.spec.id.as_str(),
        ) && (!local_only || qids[i].library.is_none());
        proof {
            assert(qids@[i as int].key() == entry_qid(es@[i as int]));
            assert(hit == p(i as int));
        }
        if hit {
            return Some(i);
        }
        i = i + 1;
    }
    None
}

fn target_entry_exec(es: &Vec<(String, LoadedSpec)>, qids: &Vec<QualifiedUnitRef>, spec: &LoadedSpec) -> (r: Result<usize, SpecError>)
    requires
        qids@.len() == es@.len(),
        forall|i: int| 0 <= i < es@.len() ==> #[trigger] qids@[i].key() == entry_qid(es@[i]),
    ensures
        match target_entry(es@, *spec) {
            Ok(i) => r == Ok::<usize, SpecError>(i as usize),
            Err(e) => r matches Err(x) && x@ == e,
        },
{
    match first_candidate(es, qids, spec, true) {
        Some(i) => Ok(i),
        None => match first_candidate(es, qids, spec, false) {
            Some(i) => Ok(i),
            None => {
                let mut m = owned("TypeScript target '");
                m.append(spec.spec.id.as_str());
                m.append("' was not present in the loaded unit set");
                Err(semantic_error(spec, m))
            },
        },
    }
}

/// A dep of `spec` (owned by `owner`) resolved in the set: its qualified id and the
/// entry that holds it, or the refusal for a malformed or missing dep.
pub open spec fn resolve(
    es: Seq<(String, LoadedSpec)>,
    spec: LoadedSpec,
    owner: Option<Seq<char>>,
    dep: Seq<char>,
    missing: Seq<char>,
) -> Result<(UnitKey, int), SpecErrorView> {
    match parse_dep(dep) {
        Err(f) => Err(sem(spec, dep_failure_text(dep, f))),
        Ok(p) => {
            let q = (if p.0 is Some { p.0 } else { owner }, p.1);
            match last_before(es, q, es.len() as int) {
                None => Err(sem(spec, missing + ": '"@ + authored_form(p.0, p.1) + "'"@)),
                Some(j) => Ok((q, j)),
            }
        },
    }
}

fn resolve_exec(
    es: &Vec<(String, LoadedSpec)>,
    qids: &Vec<QualifiedUnitRef>,
    spec: &LoadedSpec,
    owner: &Option<String>,
    dep: &str,
    missing: &str,
) -> (r: Result<(QualifiedUnitRef, usize), SpecError>)
    requires
        qids@.len() == es@.len(),
        forall|i: int| 0 <= i < es@.len() ==> #[trigger] qids@[i].key() == entry_qid(es@[i]),
    ensures
        match resolve(es@, *spec, opt_view(*owner), dep@, missing@) {
            Ok((q, j)) => r matches Ok((x, k)) && x.key() == q && k == j && j < es@.len(),
            Err(e) => r matches Err(x) && x@ == e,
        },
{
    match DepRef::parse(dep) {
        Err(e) => Err(semantic_error(spec, e.message())),
        Ok(parsed) => {
            let q = parsed.to_qualified(owner);
            proof {
                let p = parse_dep(dep@)->Ok_0;
                assert(p == parsed.view_pair());
                assert(q.key() == (if p.0 is Some { p.0 } else { opt_view(*owner) }, p.1));
            }
            match lookup(es, qids, &q) {
                None => {
                    let mut m = owned(missing);
                    m.append(": '");
                    let a = parsed.authored();
                    m.append(a.as_str());
                    m.append("'");
                    Err(semantic_error(spec, m))
                },
                Some(j) => {
                    let n = es.len();
                    proof {
                        lemma_last_before(es@, q.key(), es@.len() as int);
                        assert(0 <= last_before(es@, q.key(), es@.len() as int)->0 < n);
                        let jj = last_before(es@, q.key(), es@.len() as int)->0;
                        assert(j == jj as usize);
                        assert(j as int == jj);
                    }
                    Ok((q, j))
                },
            }
        },
    }
}

/// The semantic review recorded for the unit `q`: the first one recorded for it.
pub open spec fn review_for(rs: Seq<UnitReview>, q: UnitKey) -> Option<(Seq<char>, bool)>
    decreases rs.len(),
{
    if rs.len() == 0 {
        None
    } else if rs[0].unit.key() == q {
        match rs[0].review {
            Some(o) => Some((o.compatibility_key@, o.supported)),
            None => None,
        }
    } else {
        review_for(rs.drop_first(), q)
    }
}

fn review_exec(rs: &Vec<UnitReview>, q: &QualifiedUnitRef) -> (r: Option<(String, bool)>)
    ensures
        match review_for(rs@, q.key()) {
            Some((k, s)) => r matches Some((x, t)) && x@ == k && t == s,
            None => r is None,
        },
{
    let mut i: usize = 0;
    proof {
        assert(rs@.skip(0) =~= rs@);
    }
    while i < rs.len()
        invariant
            i <= rs@.len(),
            review_for(rs@, q.key()) == review_for(rs@.skip(i as int), q.key()),
        decreases rs@.len() - i,
    {
        proof {
            assert(rs@.skip(i as int)[0] == rs@[i as int]);
            assert(rs@.skip(i as int).drop_first() =~= rs@.skip(i + 1));
        }
        if rs[i].unit.same_as(q) {
            return match &rs[i].review {
                Some(o) => Some((o.compatibility_key.clone(), o.supported)),
                None => None,
            };
        }
        i = i + 1;
    }
    None
}

/// The unit authors a non-blank `body.typescript`.
pub open spec fn has_ts_body(spec: LoadedSpec) -> bool {
    match spec.spec.body.typescript {
        Some(t) => trim_seq(t@).len() > 0,
        None => false,
    }
}

fn has_ts_body_exec(spec: &LoadedSpec) -> (r: bool)
    ensures
        r == has_ts_body(*spec),
{
    match &spec.spec.body.typescript {
        Some(t) => trim_chars(&chars_of(t.as_str())).len() > 0,
        None => false,
    }
}


/// Why a direct dep of `spec` does not meet its family contract: it does not resolve,
/// it has no review, its review is unsupported or under a key not `accepted`, or it
/// authors no `body.typescript`. `plain` drops the note on a missing review.
pub open spec fn dep_family_issue(
    es: Seq<(String, LoadedSpec)>,
    rs: Seq<UnitReview>,
    spec: LoadedSpec,
    owner: Option<Seq<char>>,
    dep: Seq<char>,
    missing: Seq<char>,
    family: Seq<char>,
    body: Seq<char>,
    accepted: Seq<Seq<char>>,
    plain: bool,
) -> Option<SpecErrorView> {
    match resolve(es, spec, owner, dep, missing) {
        Err(e) => Some(e),
        Ok((q, j)) => match review_for(rs, q) {
            None => Some(
                sem(
                    spec,
                    family + ": '"@ + shown(q) + "'"@ + if plain {
                        Seq::<char>::empty()
                    } else {
                        " is missing supported semantic review"@
                    },
                ),
            ),
            Some((key, supported)) => if !supported || !accepted.contains(key) {
                Some(sem(spec, family + ": '"@ + shown(q) + "' resolved to "@ + key))
            } else if !has_ts_body(es[j].1) {
                Some(sem(spec, body + ": '"@ + shown(q) + "'"@))
            } else {
                None
            },
        },
    }
}

fn check_dep_family(
    es: &Vec<(String, LoadedSpec)>,
    qids: &Vec<QualifiedUnitRef>,
    rs: &Vec<UnitReview>,
    spec: &LoadedSpec,
    owner: &Option<String>,
    dep: &str,
    missing: &str,
    family: &str,
    body: &str,
    accepted: &Vec<String>,
    plain: bool,
) -> (r: Result<(), SpecError>)
    requires
        qids@.len() == es@.len(),
        forall|i: int| 0 <= i < es@.len() ==> #[trigger] qids@[i].key() == entry_qid(es@[i]),
    ensures
        outcome_is(
            r,
            dep_family_issue(
                es@,
                rs@,
                *spec,
                opt_view(*owner),
                dep@,
                missing@,
                family@,
                body@,
                views_of_strings(accepted@),
                plain,
            ),
        ),
{
    let (q, j) = match resolve_exec(es, qids, spec, owner, dep, missing) {
        Err(e) => {
            return Err(e);
        },
        Ok(x) => x,
    };
    let shown_q = q.authored();
    match review_exec(rs, &q) {
        None => {
            let mut m = owned(family);
            m.append(": '");
            m.append(shown_q.as_str());
            m.append("'");
            if !plain {
                m.append(" is missing supported semantic review");
            }
            proof {
                if plain {
                    assert(m@ =~= family@ + ": '"@ + shown(q.key()) + "'"@ + Seq::<char>::empty());
                }
            }
            Err(semantic_error(spec, m))
        },
        Some((key, supported)) => {
            if !supported || !contains_string(accepted, &key) {
                let mut m = owned(family);
                m.append(": '");
                m.append(shown_q.as_str());
                m.append("' resolved to ");
                m.append(key.as_str());
                return Err(semantic_error(spec, m));
            }
            if !has_ts_body_exec(&es[j].1) {
                let mut m = owned(body);
                m.append(": '");
                m.append(shown_q.as_str());
                m.append("'");
                return Err(semantic_error(spec, m));
            }
            Ok(())
        },
    }
}

fn keys_vec(a: &str) -> (r: Vec<String>)
    ensures
        views_of_strings(r@) == seq![a@],
{
    let r = vec![owned(a)];
    proof {
        assert(views_of_strings(r@) =~= seq![a@]);
    }
    r
}

/// The keys a chain3 target's first dep may classify under.
pub open spec fn chain3_first_keys() -> Seq<Seq<char>> {
    seq![
        TYPESCRIPT_WRAPPER_TARGET_COMPATIBILITY_KEY@,
        TYPESCRIPT_NORMALIZED_REQUIRED_ARG_WRAPPER_TARGET_COMPATIBILITY_KEY@,
        TYPESCRIPT_CHAIN3_TARGET_COMPATIBILITY_KEY@,
    ]
}

fn chain3_first_keys_vec() -> (r: Vec<String>)
    ensures
        views_of_strings(r@) == chain3_first_keys(),
{
    let r = vec![
        owned(TYPESCRIPT_WRAPPER_TARGET_COMPATIBILITY_KEY),
        owned(TYPESCRIPT_NORMALIZED_REQUIRED_ARG_WRAPPER_TARGET_COMPATIBILITY_KEY),
        owned(TYPESCRIPT_CHAIN3_TARGET_COMPATIBILITY_KEY),
    ];
    proof {
        assert(views_of_strings(r@) =~= chain3_first_keys());
    }
    r
}

pub open spec fn arity_issue(spec: LoadedSpec, message: Seq<char>) -> SpecErrorView {
    sem(spec, message + "; found "@ + decimal(spec.spec.deps@.len()) + " direct deps"@)
}

fn arity_error(spec: &LoadedSpec, message: &str) -> (r: SpecError)
    ensures
        r@ == arity_issue(*spec, message@),
{
    let mut m = owned(message);
    m.append("; found ");
    let n = decimal_string(spec.spec.deps.len());
    m.append(n.as_str());
    m.append(" direct deps");
    semantic_error(spec, m)
}

/// A monotone leaf's dep contract: no deps, or one helper dep that classifies as the
/// identity-passthrough helper and authors `body.typescript`.
pub open spec fn helper_contract_issue(
    es: Seq<(String, LoadedSpec)>,
    rs: Seq<UnitReview>,
    spec: LoadedSpec,
    owner: Option<Seq<char>>,
) -> Option<SpecErrorView> {
    let ds = spec.spec.deps@;
    if ds.len() == 0 {
        None
    } else if ds.len() == 1 {
        dep_family_issue(
            es,
            rs,
            spec,
            owner,
            ds[0]@,
            TYPESCRIPT_MISSING_HELPER_UNSUPPORTED_MESSAGE@,
            TYPESCRIPT_HELPER_FAMILY_UNSUPPORTED_MESSAGE@,
            TYPESCRIPT_HELPER_TYPESCRIPT_BODY_UNSUPPORTED_MESSAGE@,
            seq![TYPESCRIPT_HELPER_COMPATIBILITY_KEY@],
            true,
        )
    } else {
        Some(arity_issue(spec, TYPESCRIPT_DEP_ARITY_UNSUPPORTED_MESSAGE@))
    }
}

/// A wrapper pipeline's dep contract: exactly two deps, the nonnegative monotone-down
/// leaf then the monotone-up leaf.
pub open spec fn wrapper_contract_issue(
    es: Seq<(String, LoadedSpec)>,
    rs: Seq<UnitReview>,
    spec: LoadedSpec,
    owner: Option<Seq<char>>,
) -> Option<SpecErrorView> {
    let ds = spec.spec.deps@;
    if ds.len() != 2 {
        Some(arity_issue(spec, TYPESCRIPT_WRAPPER_DEP_ARITY_UNSUPPORTED_MESSAGE@))
    } else {
        or_else(
            dep_family_issue(
                es,
                rs,
                spec,
                owner,
                ds[0]@,
                TYPESCRIPT_WRAPPER_MISSING_DEP_UNSUPPORTED_MESSAGE@,
                TYPESCRIPT_WRAPPER_DEP_FAMILY_UNSUPPORTED_MESSAGE@,
                TYPESCRIPT_WRAPPER_DEP_TYPESCRIPT_BODY_UNSUPPORTED_MESSAGE@,
                seq![TYPESCRIPT_MONOTONE_DOWN_TARGET_COMPATIBILITY_KEY@],
                false,
            ),
            dep_family_issue(
                es,
                rs,
                spec,
                owner,
                ds[1]@,
                TYPESCRIPT_WRAPPER_MISSING_DEP_UNSUPPORTED_MESSAGE@,
                TYPESCRIPT_WRAPPER_DEP_FAMILY_UNSUPPORTED_MESSAGE@,
                TYPESCRIPT_WRAPPER_DEP_TYPESCRIPT_BODY_UNSUPPORTED_MESSAGE@,
                seq![TYPESCRIPT_MONOTONE_UP_TARGET_COMPATIBILITY_KEY@],
                false,
            ),
        )
    }
}

/// A chain3 pipeline's dep contract: exactly three deps, a wrapper pipeline (plain,
/// normalized or chain3), then the monotone-up leaf, then the nonnegative monotone-down leaf.
pub open spec fn chain3_contract_issue(
    es: Seq<(String, LoadedSpec)>,
    rs: Seq<UnitReview>,
    spec: LoadedSpec,
    owner: Option<Seq<char>>,
) -> Option<SpecErrorView> {
    let ds = spec.spec.deps@;
    if ds.len() != 3 {
        Some(arity_issue(spec, TYPESCRIPT_CHAIN3_DEP_ARITY_UNSUPPORTED_MESSAGE@))
    } else {
        or_else(
            dep_family_issue(
                es,
                rs,
                spec,
                owner,
                ds[0]@,
                TYPESCRIPT_CHAIN3_MISSING_DEP_UNSUPPORTED_MESSAGE@,
                TYPESCRIPT_CHAIN3_DEP_FAMILY_UNSUPPORTED_MESSAGE@,
                TYPESCRIPT_CHAIN3_DEP_TYPESCRIPT_BODY_UNSUPPORTED_MESSAGE@,
                chain3_first_keys(),
                false,
            ),
            or_else(
                dep_family_issue(
                    es,
                    rs,
                    spec,
                    owner,
                    ds[1]@,
                    TYPESCRIPT_CHAIN3_MISSING_DEP_UNSUPPORTED_MESSAGE@,
                    TYPESCRIPT_CHAIN3_DEP_FAMILY_UNSUPPORTED_MESSAGE@,
                    TYPESCRIPT_CHAIN3_DEP_TYPESCRIPT_BODY_UNSUPPORTED_MESSAGE@,
                    seq![TYPESCRIPT_MONOTONE_UP_TARGET_COMPATIBILITY_KEY@],
                    false,
                ),
                dep_family_issue(
                    es,
                    rs,
                    spec,
                    owner,
                    ds[2]@,
                    TYPESCRIPT_CHAIN3_MISSING_DEP_UNSUPPORTED_MESSAGE@,
                    TYPESCRIPT_CHAIN3_DEP_FAMILY_UNSUPPORTED_MESSAGE@,
                    TYPESCRIPT_CHAIN3_DEP_TYPESCRIPT_BODY_UNSUPPORTED_MESSAGE@,
                    seq![TYPESCRIPT_MONOTONE_DOWN_TARGET_COMPATIBILITY_KEY@],
                    false,
                ),
            ),
        )
    }
}

fn check_helper_contract(
    es: &Vec<(String, LoadedSpec)>,
    qids: &Vec<QualifiedUnitRef>,
    rs: &Vec<UnitReview>,
    spec: &LoadedSpec,
    owner: &Option<String>,
) -> (r: Result<(), SpecError>)
    requires
        qids@.len() == es@.len(),
        forall|i: int| 0 <= i < es@.len() ==> #[trigger] qids@[i].key() == entry_qid(es@[i]),
    ensures
        outcome_is(r, helper_contract_issue(es@, rs@, *spec, opt_view(*owner))),
{
    let ds = &spec.spec.deps;
    if ds.len() == 0 {
        Ok(())
    } else if ds.len() == 1 {
        check_dep_family(
            es,
            qids,
            rs,
            spec,
            owner,
            ds[0].as_str(),
            TYPESCRIPT_MISSING_HELPER_UNSUPPORTED_MESSAGE,
            TYPESCRIPT_HELPER_FAMILY_UNSUPPORTED_MESSAGE,
            TYPESCRIPT_HELPER_TYPESCRIPT_BODY_UNSUPPORTED_MESSAGE,
            &keys_vec(TYPESCRIPT_HELPER_COMPATIBILITY_KEY),
            true,
        )
    } else {
        Err(arity_error(spec, TYPESCRIPT_DEP_ARITY_UNSUPPORTED_MESSAGE))
    }
}

fn check_wrapper_contract(
    es: &Vec<(String, LoadedSpec)>,
    qids: &Vec<QualifiedUnitRef>,
    rs: &Vec<UnitReview>,
    spec: &LoadedSpec,
    owner: &Option<String>,
) -> (r: Result<(), SpecError>)
    requires
        qids@.len() == es@.len(),
        forall|i: int| 0 <= i < es@.len() ==> #[trigger] qids@[i].key() == entry_qid(es@[i]),
    ensures
        outcome_is(r, wrapper_contract_issue(es@, rs@, *spec, opt_view(*owner))),
{
    let ds = &spec.spec.deps;
    if ds.len() != 2 {
        return Err(arity_error(spec, TYPESCRIPT_WRAPPER_DEP_ARITY_UNSUPPORTED_MESSAGE));
    }
    match check_dep_family(
        es,
        qids,
        rs,
        spec,
        owner,
        ds[0].as_str(),
        TYPESCRIPT_WRAPPER_MISSING_DEP_UNSUPPORTED_MESSAGE,
        TYPESCRIPT_WRAPPER_DEP_FAMILY_UNSUPPORTED_MESSAGE,
        TYPESCRIPT_WRAPPER_DEP_TYPESCRIPT_BODY_UNSUPPORTED_MESSAGE,
        &keys_vec(TYPESCRIPT_MONOTONE_DOWN_TARGET_COMPATIBILITY_KEY),
        false,
    ) {
        Err(e) => {
            return Err(e);
        },
        Ok(()) => {},
    }
    check_dep_family(
        es,
        qids,
        rs,
        spec,
        owner,
        ds[1].as_str(),
        TYPESCRIPT_WRAPPER_MISSING_DEP_UNSUPPORTED_MESSAGE,
        TYPESCRIPT_WRAPPER_DEP_FAMILY_UNSUPPORTED_MESSAGE,
        TYPESCRIPT_WRAPPER_DEP_TYPESCRIPT_BODY_UNSUPPORTED_MESSAGE,
        &keys_vec(TYPESCRIPT_MONOTONE_UP_TARGET_COMPATIBILITY_KEY),
        false,
    )
}

fn check_chain3_contract(
    es: &Vec<(String, LoadedSpec)>,
    qids: &Vec<QualifiedUnitRef>,
    rs: &Vec<UnitReview>,
    spec: &LoadedSpec,
    owner: &Option<String>,
) -> (r: Result<(), SpecError>)
    requires
        qids@.len() == es@.len(),
        forall|i: int| 0 <= i < es@.len() ==> #[trigger] qids@[i].key() == entry_qid(es@[i]),
    ensures
        outcome_is(r, chain3_contract_issue(es@, rs@, *spec, opt_view(*owner))),
{
    let ds = &spec.spec.deps;
    if ds.len() != 3 {
        return Err(arity_error(spec, TYPESCRIPT_CHAIN3_DEP_ARITY_UNSUPPORTED_MESSAGE));
    }
    match check_dep_family(
        es,
        qids,
        rs,
        spec,
        owner,
        ds[0].as_str(),
        TYPESCRIPT_CHAIN3_MISSING_DEP_UNSUPPORTED_MESSAGE,
        TYPESCRIPT_CHAIN3_DEP_FAMILY_UNSUPPORTED_MESSAGE,
        TYPESCRIPT_CHAIN3_DEP_TYPESCRIPT_BODY_UNSUPPORTED_MESSAGE,
        &chain3_first_keys_vec(),
        false,
    ) {
        Err(e) => {
            return Err(e);
        },
        Ok(()) => {},
    }
    match check_dep_family(
        es,
        qids,
        rs,
        spec,
        owner,
        ds[1].as_str(),
        TYPESCRIPT_CHAIN3_MISSING_DEP_UNSUPPORTED_MESSAGE,
        TYPESCRIPT_CHAIN3_DEP_FAMILY_UNSUPPORTED_MESSAGE,
        TYPESCRIPT_CHAIN3_DEP_TYPESCRIPT_BODY_UNSUPPORTED_MESSAGE,
        &keys_vec(TYPESCRIPT_MONOTONE_UP_TARGET_COMPATIBILITY_KEY),
        false,
    ) {
        Err(e) => {
            return Err(e);
        },
        Ok(()) => {},
    }
    check_dep_family(
        es,
        qids,
        rs,
        spec,
        owner,
        ds[2].as_str(),
        TYPESCRIPT_CHAIN3_MISSING_DEP_UNSUPPORTED_MESSAGE,
        TYPESCRIPT_CHAIN3_DEP_FAMILY_UNSUPPORTED_MESSAGE,
        TYPESCRIPT_CHAIN3_DEP_TYPESCRIPT_BODY_UNSUPPORTED_MESSAGE,
        &keys_vec(TYPESCRIPT_MONOTONE_DOWN_TARGET_COMPATIBILITY_KEY),
        false,
    )
}


/// The root families a TypeScript target may classify under.
#[derive(Debug, Clone, Copy, PartialEq, Eq, Structural)]
pub enum TypescriptTargetRootFamily {
    MonotoneDown,
    MonotoneUp,
    Helper,
    WrapperPipeline,
    NormalizedRequiredArgWrapperPipeline,
    Chain3WrapperPipeline,
}

pub open spec fn family_of(key: Seq<char>) -> Option<TypescriptTargetRootFamily> {
    if key == TYPESCRIPT_HELPER_COMPATIBILITY_KEY@ {
        Some(TypescriptTargetRootFamily::Helper)
    } else if key == TYPESCRIPT_MONOTONE_DOWN_TARGET_COMPATIBILITY_KEY@ {
        Some(TypescriptTargetRootFamily::MonotoneDown)
    } else if key == TYPESCRIPT_MONOTONE_UP_TARGET_COMPATIBILITY_KEY@ {
        Some(TypescriptTargetRootFamily::MonotoneUp)
    } else if key == TYPESCRIPT_WRAPPER_TARGET_COMPATIBILITY_KEY@ {
        Some(TypescriptTargetRootFamily::WrapperPipeline)
    } else if key == TYPESCRIPT_NORMALIZED_REQUIRED_ARG_WRAPPER_TARGET_COMPATIBILITY_KEY@ {
        Some(TypescriptTargetRootFamily::NormalizedRequiredArgWrapperPipeline)
    } else if key == TYPESCRIPT_CHAIN3_TARGET_COMPATIBILITY_KEY@ {
        Some(TypescriptTargetRootFamily::Chain3WrapperPipeline)
    } else {
        None
    }
}

fn family_of_exec(key: &str) -> (r: Option<TypescriptTargetRootFamily>)
    ensures
        r == family_of(key@),
{
    if str_eq(key, TYPESCRIPT_HELPER_COMPATIBILITY_KEY) {
        Some(TypescriptTargetRootFamily::Helper)
    } else if str_eq(key, TYPESCRIPT_MONOTONE_DOWN_TARGET_COMPATIBILITY_KEY) {
        Some(TypescriptTargetRootFamily::MonotoneDown)
    } else if str_eq(key, TYPESCRIPT_MONOTONE_UP_TARGET_COMPATIBILITY_KEY) {
        Some(TypescriptTargetRootFamily::MonotoneUp)
    } else if str_eq(key, TYPESCRIPT_WRAPPER_TARGET_COMPATIBILITY_KEY) {
        Some(TypescriptTargetRootFamily::WrapperPipeline)
    } else if str_eq(key, TYPESCRIPT_NORMALIZED_REQUIRED_ARG_WRAPPER_TARGET_COMPATIBILITY_KEY) {
        Some(TypescriptTargetRootFamily::NormalizedRequiredArgWrapperPipeline)
    } else if str_eq(key, TYPESCRIPT_CHAIN3_TARGET_COMPATIBILITY_KEY) {
        Some(TypescriptTargetRootFamily::Chain3WrapperPipeline)
    } else {
        None
    }
}

pub open spec fn any_family_message(key: Seq<char>) -> Seq<char> {
    "TypeScript target requires compatibility key "@ + TYPESCRIPT_HELPER_COMPATIBILITY_KEY@ + ", "@
        + TYPESCRIPT_MONOTONE_DOWN_TARGET_COMPATIBILITY_KEY@ + ", "@ + TYPESCRIPT_MONOTONE_UP_TARGET_COMPATIBILITY_KEY@
        + ", "@ + TYPESCRIPT_WRAPPER_TARGET_COMPATIBILITY_KEY@ + ", "@
        + TYPESCRIPT_NORMALIZED_REQUIRED_ARG_WRAPPER_TARGET_COMPATIBILITY_KEY@ + ", or "@
        + TYPESCRIPT_CHAIN3_TARGET_COMPATIBILITY_KEY@ + " in M61; found "@ + key
}

pub open spec fn root_family_message(key: Seq<char>) -> Seq<char> {
    "TypeScript target requires compatibility key "@ + TYPESCRIPT_MONOTONE_DOWN_TARGET_COMPATIBILITY_KEY@ + ", "@
        + TYPESCRIPT_MONOTONE_UP_TARGET_COMPATIBILITY_KEY@ + ", "@ + TYPESCRIPT_WRAPPER_TARGET_COMPATIBILITY_KEY@
        + ", "@ + TYPESCRIPT_NORMALIZED_REQUIRED_ARG_WRAPPER_TARGET_COMPATIBILITY_KEY@ + ", or "@
        + TYPESCRIPT_CHAIN3_TARGET_COMPATIBILITY_KEY@ + " in M61; found "@ + key
}

fn any_family_error(spec: &LoadedSpec, key: &str) -> (r: SpecError)
    ensures
        r@ == sem(*spec, any_family_message(key@)),
{
    let mut m = owned("TypeScript target requires compatibility key ");
    m.append(TYPESCRIPT_HELPER_COMPATIBILITY_KEY);
    m.append(", ");
    m.append(TYPESCRIPT_MONOTONE_DOWN_TARGET_COMPATIBILITY_KEY);
    m.append(", ");
    m.append(TYPESCRIPT_MONOTONE_UP_TARGET_COMPATIBILITY_KEY);
    m.append(", ");
    m.append(TYPESCRIPT_WRAPPER_TARGET_COMPATIBILITY_KEY);
    m.append(", ");
    m.append(TYPESCRIPT_NORMALIZED_REQUIRED_ARG_WRAPPER_TARGET_COMPATIBILITY_KEY);
    m.append(", or ");
    m.append(TYPESCRIPT_CHAIN3_TARGET_COMPATIBILITY_KEY);
    m.append(" in M61; found ");
    m.append(key);
    semantic_error(spec, m)
}

fn root_family_error(spec: &LoadedSpec, key: &str) -> (r: SpecError)
    ensures
        r@ == sem(*spec, root_family_message(key@)),
{
    let mut m = owned("TypeScript target requires compatibility key ");
    m.append(TYPESCRIPT_MONOTONE_DOWN_TARGET_COMPATIBILITY_KEY);
    m.append(", ");
    m.append(TYPESCRIPT_MONOTONE_UP_TARGET_COMPATIBILITY_KEY);
    m.append(", ");
    m.append(TYPESCRIPT_WRAPPER_TARGET_COMPATIBILITY_KEY);
    m.append(", ");
    m.append(TYPESCRIPT_NORMALIZED_REQUIRED_ARG_WRAPPER_TARGET_COMPATIBILITY_KEY);
    m.append(", or ");
    m.append(TYPESCRIPT_CHAIN3_TARGET_COMPATIBILITY_KEY);
    m.append(" in M61; found ");
    m.append(key);
    semantic_error(spec, m)
}

/// The dep contract a closure member of family `f` keeps; a helper may be no root.
pub open spec fn family_contract_issue(
    es: Seq<(String, LoadedSpec)>,
    rs: Seq<UnitReview>,
    spec: LoadedSpec,
    owner: Option<Seq<char>>,
    f: TypescriptTargetRootFamily,
    key: Seq<char>,
    is_root: bool,
) -> Option<SpecErrorView> {
    match f {
        TypescriptTargetRootFamily::Helper => if is_root {
            Some(sem(spec, root_family_message(key)))
        } else if spec.spec.deps@.len() != 0 {
            Some(sem(spec, "TypeScript helper closure members must have deps: [] in M52"@))
        } else {
            None
        },
        TypescriptTargetRootFamily::MonotoneDown => helper_contract_issue(es, rs, spec, owner),
        TypescriptTargetRootFamily::MonotoneUp => helper_contract_issue(es, rs, spec, owner),
        TypescriptTargetRootFamily::WrapperPipeline => wrapper_contract_issue(es, rs, spec, owner),
        TypescriptTargetRootFamily::NormalizedRequiredArgWrapperPipeline => wrapper_contract_issue(es, rs, spec, owner),
        TypescriptTargetRootFamily::Chain3WrapperPipeline => chain3_contract_issue(es, rs, spec, owner),
    }
}

/// The entries of the set not yet visited, counted among the first `n`.
pub open spec fn pending(es: Seq<(String, LoadedSpec)>, v: Seq<UnitKey>, n: int) -> int
    decreases n,
{
    if n <= 0 {
        0
    } else {
        pending(es, v, n - 1) + if v.contains(entry_qid(es[n - 1])) {
            0int
        } else {
            1int
        }
    }
}

proof fn lemma_pending_shrinks(es: Seq<(String, LoadedSpec)>, v1: Seq<UnitKey>, v2: Seq<UnitKey>, n: int, x: int)
    requires
        forall|k: UnitKey| v1.contains(k) ==> v2.contains(k),
    ensures
        0 <= pending(es, v2, n) <= pending(es, v1, n),
        0 <= x < n && !v1.contains(entry_qid(es[x])) && v2.contains(entry_qid(es[x])) ==> pending(es, v2, n) < pending(
            es,
            v1,
            n,
        ),
    decreases n,
{
    if n > 0 {
        lemma_pending_shrinks(es, v1, v2, n - 1, x);
    }
}

/// The size of the member `q` names: one more than its dep count.
pub open spec fn member_size(es: Seq<(String, LoadedSpec)>, q: UnitKey) -> int {
    match last_before(es, q, es.len() as int) {
        Some(j) => es[j].1.spec.deps@.len() as int + 1,
        None => 0,
    }
}

/// The walk of a closure member `q` with the units visited so far `v`, `m` bounding what
/// is left: the unit must be in the set and a function; a visited unit passes; otherwise
/// it is visited, must author `body.typescript`, carry a supported review under one of the
/// lane's keys, keep its family's dep contract, and then each dep, in authored order, must
/// resolve and pass the walk. The issue found, if any, and the units visited after it.
pub open spec fn member_walk(
    es: Seq<(String, LoadedSpec)>,
    rs: Seq<UnitReview>,
    q: UnitKey,
    v: Seq<UnitKey>,
    is_root: bool,
    m: int,
) -> (Option<SpecErrorView>, Seq<UnitKey>)
    decreases m, member_size(es, q),
{
    match last_before(es, q, es.len() as int) {
        None => (
            Some(
                SpecErrorView::SemanticValidation {
                    message: "TypeScript target '"@ + shown(q) + "' was not present in the loaded unit set"@,
                    path: "<typescript-qualified-lookup>"@,
                },
            ),
            v,
        ),
        Some(j) => {
            let spec = es[j].1;
            match kind_of(spec.spec.kind@) {
                None => (Some(sem(spec, unknown_kind_text(spec.spec.kind@))), v),
                Some(k) => if k != UnitKind::Function {
                    (Some(sem(spec, TYPESCRIPT_KIND_UNSUPPORTED_MESSAGE@)), v)
                } else if v.contains(q) {
                    (None, v)
                } else {
                    let v1 = v.push(q);
                    if !has_ts_body(spec) {
                        (Some(sem(spec, TYPESCRIPT_LOCAL_GRAPH_TYPESCRIPT_BODY_UNSUPPORTED_MESSAGE@ + ": '"@ + shown(q) + "'"@)), v1)
                    } else {
                        match review_for(rs, q) {
                            None => (
                                Some(
                                    sem(
                                        spec,
                                        TYPESCRIPT_LOCAL_GRAPH_SEMANTIC_UNSUPPORTED_MESSAGE@ + ": '"@ + shown(q)
                                            + "' is missing supported semantic review"@,
                                    ),
                                ),
                                v1,
                            ),
                            Some((key, supported)) => if !supported {
                                (
                                    Some(
                                        sem(
                                            spec,
                                            TYPESCRIPT_LOCAL_GRAPH_SEMANTIC_UNSUPPORTED_MESSAGE@ + ": '"@ + shown(q)
                                                + "' resolved to "@ + key,
                                        ),
                                    ),
                                    v1,
                                )
                            } else {
                                match family_of(key) {
                                    None => (Some(sem(spec, any_family_message(key))), v1),
                                    Some(f) => match family_contract_issue(es, rs, spec, q.0, f, key, is_root) {
                                        Some(e) => (Some(e), v1),
                                        None => deps_walk(es, rs, spec, q, 0, v1, m),
                                    },
                                }
                            },
                        }
                    }
                },
            }
        },
    }
}

/// The walk over the deps of `spec` (the unit `q`) from the `d`-th on.
pub open spec fn deps_walk(
    es: Seq<(String, LoadedSpec)>,
    rs: Seq<UnitReview>,
    spec: LoadedSpec,
    q: UnitKey,
    d: int,
    v: Seq<UnitKey>,
    m: int,
) -> (Option<SpecErrorView>, Seq<UnitKey>)
    decreases m, spec.spec.deps@.len() - d,
{
    if d < 0 || d >= spec.spec.deps@.len() {
        (None, v)
    } else {
        match resolve(es, spec, q.0, spec.spec.deps@[d]@, TYPESCRIPT_LOCAL_GRAPH_MISSING_DEP_UNSUPPORTED_MESSAGE@) {
            Err(e) => (Some(e), v),
            Ok((dq, _)) => {
                let m2 = pending(es, v, es.len() as int);
                if 0 <= m2 < m {
                    let r = member_walk(es, rs, dq, v, false, m2);
                    if r.0 is Some {
                        r
                    } else {
                        deps_walk(es, rs, spec, q, d + 1, r.1, m)
                    }
                } else {
                    (None, v)
                }
            },
        }
    }
}

fn contains_key(vs: &Vec<QualifiedUnitRef>, q: &QualifiedUnitRef) -> (r: bool)
    ensures
        r == keys_of(vs@).contains(q.key()),
{
    let mut i: usize = 0;
    while i < vs.len()
        invariant
            i <= vs@.len(),
            forall|t: int| 0 <= t < i ==> vs@[t].key() != q.key(),
        decreases vs@.len() - i,
    {
        if vs[i].same_as(q) {
            proof {
                assert(keys_of(vs@)[i as int] == q.key());
            }
            return true;
        }
        i = i + 1;
    }
    proof {
        if keys_of(vs@).contains(q.key()) {
            let t = choose|t: int| 0 <= t < keys_of(vs@).len() && keys_of(vs@)[t] == q.key();
            assert(vs@[t].key() == q.key());
        }
    }
    false
}

fn check_family_contract(
    es: &Vec<(String, LoadedSpec)>,
    qids: &Vec<QualifiedUnitRef>,
    rs: &Vec<UnitReview>,
    spec: &LoadedSpec,
    owner: &Option<String>,
    f: TypescriptTargetRootFamily,
    key: &str,
    is_root: bool,
) -> (r: Result<(), SpecError>)
    requires
        qids@.len() == es@.len(),
        forall|i: int| 0 <= i < es@.len() ==> #[trigger] qids@[i].key() == entry_qid(es@[i]),
    ensures
        outcome_is(r, family_contract_issue(es@, rs@, *spec, opt_view(*owner), f, key@, is_root)),
{
    match f {
        TypescriptTargetRootFamily::Helper => if is_root {
            Err(root_family_error(spec, key))
        } else if spec.spec.deps.len() != 0 {
            Err(semantic_error(spec, owned("TypeScript helper closure members must have deps: [] in M52")))
        } else {
            Ok(())
        },
        TypescriptTargetRootFamily::MonotoneDown => check_helper_contract(es, qids, rs, spec, owner),
        TypescriptTargetRootFamily::MonotoneUp => check_helper_contract(es, qids, rs, spec, owner),
        TypescriptTargetRootFamily::WrapperPipeline => check_wrapper_contract(es, qids, rs, spec, owner),
        TypescriptTargetRootFamily::NormalizedRequiredArgWrapperPipeline => check_wrapper_contract(
            es,
            qids,
            rs,
            spec,
            owner,
        ),
        TypescriptTargetRootFamily::Chain3WrapperPipeline => check_chain3_contract(es, qids, rs, spec, owner),
    }
}


/// The walk only ever adds to the visited units.
proof fn lemma_walk_grows(
    es: Seq<(String, LoadedSpec)>,
    rs: Seq<UnitReview>,
    q: UnitKey,
    v: Seq<UnitKey>,
    is_root: bool,
    m: int,
)
    ensures
        forall|k: UnitKey| v.contains(k) ==> member_walk(es, rs, q, v, is_root, m).1.contains(k),
    decreases m, member_size(es, q), 1int,
{
    match last_before(es, q, es.len() as int) {
        None => {},
        Some(j) => {
            let spec = es[j].1;
            if kind_of(spec.spec.kind@) == Some(UnitKind::Function) && !v.contains(q) {
                let v1 = v.push(q);
                assert forall|k: UnitKey| v.contains(k) implies v1.contains(k) by {
                    let t = choose|t: int| 0 <= t < v.len() && v[t] == k;
                    assert(v1[t] == k);
                }
                lemma_deps_walk_grows(es, rs, spec, q, 0, v1, m);
            }
        },
    }
}

proof fn lemma_deps_walk_grows(
    es: Seq<(String, LoadedSpec)>,
    rs: Seq<UnitReview>,
    spec: LoadedSpec,
    q: UnitKey,
    d: int,
    v: Seq<UnitKey>,
    m: int,
)
    ensures
        forall|k: UnitKey| v.contains(k) ==> deps_walk(es, rs, spec, q, d, v, m).1.contains(k),
    decreases m, spec.spec.deps@.len() - d, 0int,
{
    if 0 <= d < spec.spec.deps@.len() {
        match resolve(es, spec, q.0, spec.spec.deps@[d]@, TYPESCRIPT_LOCAL_GRAPH_MISSING_DEP_UNSUPPORTED_MESSAGE@) {
            Err(_) => {},
            Ok((dq, _)) => {
                let m2 = pending(es, v, es.len() as int);
                if 0 <= m2 < m {
                    lemma_walk_grows(es, rs, dq, v, false, m2);
                    let r = member_walk(es, rs, dq, v, false, m2);
                    if r.0 is None {
                        lemma_deps_walk_grows(es, rs, spec, q, d + 1, r.1, m);
                    }
                }
            },
        }
    }
}

/// Walks the closure member `q`, marking what it visits in `visited`.
fn walk_member(
    es: &Vec<(String, LoadedSpec)>,
    qids: &Vec<QualifiedUnitRef>,
    rs: &Vec<UnitReview>,
    q: &QualifiedUnitRef,
    visited: &mut Vec<QualifiedUnitRef>,
    is_root: bool,
) -> (r: Result<(), SpecError>)
    requires
        qids@.len() == es@.len(),
        forall|i: int| 0 <= i < es@.len() ==> #[trigger] qids@[i].key() == entry_qid(es@[i]),
    ensures
        ({
            let w = member_walk(
                es@,
                rs@,
                q.key(),
                keys_of(old(visited)@),
                is_root,
                pending(es@, keys_of(old(visited)@), es@.len() as int),
            );
            outcome_is(r, w.0) && keys_of(final(visited)@) == w.1
        }),
    decreases pending(es@, keys_of(old(visited)@), es@.len() as int),
{
    let ghost v0 = keys_of(visited@);
    let ghost m0 = pending(es@, v0, es@.len() as int);
    let j = match lookup(es, qids, q) {
        None => {
            let mut m = owned("TypeScript target '");
            let a = q.authored();
            m.append(a.as_str());
            m.append("' was not present in the loaded unit set");
            return Err(SpecError::SemanticValidation { message: m, path: owned("<typescript-qualified-lookup>") });
        },
        Some(j) => j,
    };
    let n = es.len();
    proof {
        lemma_last_before(es@, q.key(), es@.len() as int);
        assert(j < n);
    }
    let spec = &es[j].1;
    match unit_kind(spec) {
        Err(m) => {
            return Err(semantic_error(spec, m));
        },
        Ok(k) => {
            if k != UnitKind::Function {
                return Err(semantic_error(spec, owned(TYPESCRIPT_KIND_UNSUPPORTED_MESSAGE)));
            }
        },
    }
    if contains_key(visited, q) {
        return Ok(());
    }
    let ghost before = visited@;
    visited.push(q.duplicate());
    let ghost v1 = keys_of(visited@);
    proof {
        assert(v1 =~= v0.push(q.key()));
    }
    let shown_q = q.authored();
    if !has_ts_body_exec(spec) {
        let mut m = owned(TYPESCRIPT_LOCAL_GRAPH_TYPESCRIPT_BODY_UNSUPPORTED_MESSAGE);
        m.append(": '");
        m.append(shown_q.as_str());
        m.append("'");
        return Err(semantic_error(spec, m));
    }
    let (key, supported) = match review_exec(rs, q) {
        None => {
            let mut m = owned(TYPESCRIPT_LOCAL_GRAPH_SEMANTIC_UNSUPPORTED_MESSAGE);
            m.append(": '");
            m.append(shown_q.as_str());
            m.append("' is missing supported semantic review");
            return Err(semantic_error(spec, m));
        },
        Some(x) => x,
    };
    if !supported {
        let mut m = owned(TYPESCRIPT_LOCAL_GRAPH_SEMANTIC_UNSUPPORTED_MESSAGE);
        m.append(": '");
        m.append(shown_q.as_str());
        m.append("' resolved to ");
        m.append(key.as_str());
        return Err(semantic_error(spec, m));
    }
    let f = match family_of_exec(key.as_str()) {
        None => {
            return Err(any_family_error(spec, key.as_str()));
        },
        Some(f) => f,
    };
    match check_family_contract(es, qids, rs, spec, &q.library, f, key.as_str(), is_root) {
        Err(e) => {
            return Err(e);
        },
        Ok(()) => {},
    }
    let deps = &spec.spec.deps;
    let mut d: usize = 0;
    proof {
        assert(member_walk(es@, rs@, q.key(), v0, is_root, m0) == deps_walk(es@, rs@, *spec, q.key(), 0, v1, m0));
    }
    while d < deps.len()
        invariant
            v0 == keys_of(old(visited)@),
            member_walk(es@, rs@, q.key(), v0, is_root, m0) == deps_walk(es@, rs@, *spec, q.key(), 0, v1, m0),
            qids@.len() == es@.len(),
            forall|i: int| 0 <= i < es@.len() ==> #[trigger] qids@[i].key() == entry_qid(es@[i]),
            j < es@.len(),
            spec == es@[j as int].1,
            deps == spec.spec.deps,
            d <= deps@.len(),
            last_before(es@, q.key(), es@.len() as int) == Some(j as int),
            !v0.contains(q.key()),
            m0 == pending(es@, v0, es@.len() as int),
            v1 == v0.push(q.key()),
            forall|k: UnitKey| v1.contains(k) ==> keys_of(visited@).contains(k),
            deps_walk(es@, rs@, *spec, q.key(), 0, v1, m0) == deps_walk(
                es@,
                rs@,
                *spec,
                q.key(),
                d as int,
                keys_of(visited@),
                m0,
            ),
        decreases deps@.len() - d,
    {
        let ghost vd = keys_of(visited@);
        let (dq, _) = match resolve_exec(
            es,
            qids,
            spec,
            &q.library,
            deps[d].as_str(),
            TYPESCRIPT_LOCAL_GRAPH_MISSING_DEP_UNSUPPORTED_MESSAGE,
        ) {
            Err(e) => {
                return Err(e);
            },
            Ok(x) => x,
        };
        proof {
            assert(v1[v1.len() - 1] == q.key());
            assert(v1.contains(q.key()));
            assert(vd.contains(q.key()));
            lemma_last_before(es@, q.key(), es@.len() as int);
            assert forall|k: UnitKey| v0.contains(k) implies vd.contains(k) by {
                let t = choose|t: int| 0 <= t < v0.len() && v0[t] == k;
                assert(v1[t] == k);
                assert(v1.contains(k));
            }
            lemma_pending_shrinks(es@, v0, vd, es@.len() as int, j as int);
            assert(pending(es@, vd, es@.len() as int) < m0);
        }
        match walk_member(es, qids, rs, &dq, visited, false) {
            Err(e) => {
                return Err(e);
            },
            Ok(()) => {},
        }
        proof {
            let w = member_walk(es@, rs@, dq.key(), vd, false, pending(es@, vd, es@.len() as int));
            assert(keys_of(visited@) == w.1);
            assert(forall|k: UnitKey| vd.contains(k) ==> w.1.contains(k)) by {
                lemma_walk_grows(es@, rs@, dq.key(), vd, false, pending(es@, vd, es@.len() as int));
            }
            assert forall|k: UnitKey| v1.contains(k) implies keys_of(visited@).contains(k) by {
                assert(vd.contains(k));
            }
        }
        d = d + 1;
    }
    Ok(())
}


/// The closure walk from the unit `spec` goes by in the loaded set `es`, reviews `rs`.
pub open spec fn closure_issue(
    spec: LoadedSpec,
    es: Seq<(String, LoadedSpec)>,
    rs: Seq<UnitReview>,
    is_root: bool,
) -> Option<SpecErrorView> {
    match index_issue(es) {
        Some(e) => Some(e),
        None => match target_entry(es, spec) {
            Err(e) => Some(e),
            Ok(i) => member_walk(
                es,
                rs,
                entry_qid(es[i]),
                Seq::empty(),
                is_root,
                pending(es, Seq::empty(), es.len() as int),
            ).0,
        },
    }
}

fn check_closure(
    spec: &LoadedSpec,
    specs: &Vec<(String, LoadedSpec)>,
    reviews: &Vec<UnitReview>,
    is_root: bool,
) -> (r: Result<(), SpecError>)
    ensures
        outcome_is(r, closure_issue(*spec, specs@, reviews@, is_root)),
{
    let qids = match build_index(specs) {
        Err(e) => {
            return Err(e);
        },
        Ok(q) => q,
    };
    let i = match target_entry_exec(specs, &qids, spec) {
        Err(e) => {
            return Err(e);
        },
        Ok(i) => i,
    };
    proof {
        match target_entry(specs@, *spec) {
            Ok(t) => {
                lemma_first_index(specs@.len() as int, local_candidate(specs@, *spec), 0);
                lemma_first_index(specs@.len() as int, any_candidate(specs@, *spec), 0);
            },
            Err(_) => {},
        }
    }
    let root = qids[i].duplicate();
    let mut visited: Vec<QualifiedUnitRef> = Vec::new();
    proof {
        assert(keys_of(visited@) =~= Seq::<UnitKey>::empty());
    }
    walk_member(specs, &qids, reviews, &root, &mut visited, is_root)
}

/// Whether a unit may stand in the TypeScript lane as a closure member (not a root):
/// the loaded set (each entry with the key it is looked up by) must index, the unit
/// must be in it, and the walk from it must pass. `reviews` holds the semantic
/// semantic review of each unit of the set, reviewed among the units of its library.
pub fn validate_typescript_closure_member_spec_with_specs(
    spec: &LoadedSpec,
    specs: &Vec<(String, LoadedSpec)>,
    reviews: &Vec<UnitReview>,
) -> (r: Result<(), SpecError>)
    ensures
        outcome_is(r, closure_issue(*spec, specs@, reviews@, false)),
{
    check_closure(spec, specs, reviews, false)
}


pub const TYPESCRIPT_EXPECT_UNSUPPORTED_MESSAGE: &'static str = "TypeScript target requires local_tests.expect to match `<current_unit>(Decimal::new(int, scale), ...) == Decimal::new(int, scale)` in M52";

/// A token of an expect expression: a word (an identifier or a number) or any other
/// single non-blank character.
#[derive(Debug, Clone)]
pub enum Token {
    Word(Vec<char>),
    Punct(char),
}

pub enum TokenView {
    Word(Seq<char>),
    Punct(char),
}

pub open spec fn token_view(t: Token) -> TokenView {
    match t {
        Token::Word(w) => TokenView::Word(w@),
        Token::Punct(c) => TokenView::Punct(c),
    }
}

pub open spec fn token_views(ts: Seq<Token>) -> Seq<TokenView> {
    ts.map_values(|t: Token| token_view(t))
}

/// Characters that continue a word.
pub open spec fn is_wordish(c: char) -> bool {
    ('a' <= c && c <= 'z') || ('A' <= c && c <= 'Z') || ('0' <= c && c <= '9') || c == '_' || (c > '\x7f'
        && !crate::text::is_space(c))
}

/// Where the tokenizer stands: in code, after a `/`, in a line comment, or in a block
/// comment (nested to a depth, possibly just after a `*` or a `/`).
#[derive(Debug, Clone, Copy, PartialEq, Eq, Structural)]
pub enum TokMode {
    Code,
    Slash,
    Line,
    Block(usize),
    BlockStar(usize),
    BlockSlash(usize),
}

pub open spec fn flush(w: Seq<char>, ts: Seq<TokenView>) -> Seq<TokenView> {
    if w.len() == 0 {
        ts
    } else {
        ts.push(TokenView::Word(w))
    }
}

pub open spec fn tok_code(w: Seq<char>, ts: Seq<TokenView>, c: char) -> (TokMode, Seq<char>, Seq<TokenView>) {
    if is_wordish(c) {
        (TokMode::Code, w.push(c), ts)
    } else if crate::text::is_space(c) {
        (TokMode::Code, Seq::empty(), flush(w, ts))
    } else if c == '/' {
        (TokMode::Slash, Seq::empty(), flush(w, ts))
    } else {
        (TokMode::Code, Seq::empty(), flush(w, ts).push(TokenView::Punct(c)))
    }
}

pub open spec fn tok_char(st: (TokMode, Seq<char>, Seq<TokenView>), c: char) -> (TokMode, Seq<char>, Seq<TokenView>) {
    let (m, w, ts) = st;
    let e = Seq::<char>::empty();
    match m {
        TokMode::Code => tok_code(w, ts, c),
        TokMode::Slash => if c == '/' {
            (TokMode::Line, e, ts)
        } else if c == '*' {
            (TokMode::Block(1), e, ts)
        } else {
            tok_code(e, ts.push(TokenView::Punct('/')), c)
        },
        TokMode::Line => if c == '\n' {
            (TokMode::Code, e, ts)
        } else {
            st
        },
        TokMode::Block(d) => if c == '*' {
            (TokMode::BlockStar(d), e, ts)
        } else if c == '/' {
            (TokMode::BlockSlash(d), e, ts)
        } else {
            st
        },
        TokMode::BlockStar(d) => if c == '/' {
            if d <= 1 {
                (TokMode::Code, e, ts)
            } else {
                (TokMode::Block((d - 1) as usize), e, ts)
            }
        } else if c == '*' {
            st
        } else {
            (TokMode::Block(d), e, ts)
        },
        TokMode::BlockSlash(d) => if c == '*' {
            (TokMode::Block((d + 1) as usize), e, ts)
        } else if c == '/' {
            st
        } else {
            (TokMode::Block(d), e, ts)
        },
    }
}

pub open spec fn tok_scan(s: Seq<char>) -> (TokMode, Seq<char>, Seq<TokenView>)
    decreases s.len(),
{
    if s.len() == 0 {
        (TokMode::Code, Seq::empty(), Seq::empty())
    } else {
        tok_char(tok_scan(s.drop_last()), s.last())
    }
}

/// The tokens of a text, comments and white space dropped.
pub open spec fn tokens_of(s: Seq<char>) -> Seq<TokenView> {
    let (m, w, ts) = tok_scan(s);
    if m == TokMode::Slash {
        ts.push(TokenView::Punct('/'))
    } else {
        flush(w, ts)
    }
}

pub open spec fn tok_depth(m: TokMode) -> int {
    match m {
        TokMode::Block(d) => d as int,
        TokMode::BlockStar(d) => d as int,
        TokMode::BlockSlash(d) => d as int,
        _ => 0,
    }
}

fn is_wordish_exec(c: char) -> (r: bool)
    ensures
        r == is_wordish(c),
{
    ('a' <= c && c <= 'z') || ('A' <= c && c <= 'Z') || ('0' <= c && c <= '9') || c == '_' || (c > '\x7f'
        && !crate::text::is_space_exec(c))
}

fn flush_exec(w: Vec<char>, ts: &mut Vec<Token>)
    ensures
        token_views(final(ts)@) == flush(w@, token_views(old(ts)@)),
{
    if w.len() > 0 {
        let ghost before = ts@;
        ts.push(Token::Word(w));
        proof {
            assert(token_views(ts@) =~= token_views(before).push(TokenView::Word(w@)));
        }
    }
}

fn push_punct(ts: &mut Vec<Token>, c: char)
    ensures
        token_views(final(ts)@) == token_views(old(ts)@).push(TokenView::Punct(c)),
{
    let ghost before = ts@;
    ts.push(Token::Punct(c));
    proof {
        assert(token_views(ts@) =~= token_views(before).push(TokenView::Punct(c)));
    }
}

fn tok_code_exec(w: Vec<char>, ts: &mut Vec<Token>, c: char) -> (r: (TokMode, Vec<char>))
    ensures
        (r.0, r.1@, token_views(final(ts)@)) == tok_code(w@, token_views(old(ts)@), c),
{
    let e: Vec<char> = Vec::new();
    proof {
        assert(e@ =~= Seq::<char>::empty());
    }
    if is_wordish_exec(c) {
        let mut w = w;
        w.push(c);
        (TokMode::Code, w)
    } else if crate::text::is_space_exec(c) {
        flush_exec(w, ts);
        (TokMode::Code, e)
    } else if c == '/' {
        flush_exec(w, ts);
        (TokMode::Slash, e)
    } else {
        flush_exec(w, ts);
        push_punct(ts, c);
        (TokMode::Code, e)
    }
}

/// The tokens of `text`.
pub fn tokenize(text: &str) -> (r: Vec<Token>)
    ensures
        token_views(r@) == tokens_of(text@),
{
    let cs = chars_of(text);
    let mut m = TokMode::Code;
    let mut w: Vec<char> = Vec::new();
    let mut ts: Vec<Token> = Vec::new();
    let mut i: usize = 0;
    proof {
        assert(w@ =~= Seq::<char>::empty());
        assert(token_views(ts@) =~= Seq::<TokenView>::empty());
    }
    while i < cs.len()
        invariant
            i <= cs@.len(),
            cs@ == text@,
            0 <= tok_depth(m) <= i,
            tok_scan(cs@.take(i as int)) == (m, w@, token_views(ts@)),
        decreases cs@.len() - i,
    {
        proof {
            assert(cs@.take(i + 1).drop_last() =~= cs@.take(i as int));
        }
        let c = cs[i];
        let e: Vec<char> = Vec::new();
        proof {
            assert(e@ =~= Seq::<char>::empty());
        }
        match m {
            TokMode::Code => {
                let r = tok_code_exec(w, &mut ts, c);
                m = r.0;
                w = r.1;
            },
            TokMode::Slash => {
                if c == '/' {
                    m = TokMode::Line;
                    w = e;
                } else if c == '*' {
                    m = TokMode::Block(1);
                    w = e;
                } else {
                    push_punct(&mut ts, '/');
                    let r = tok_code_exec(e, &mut ts, c);
                    m = r.0;
                    w = r.1;
                }
            },
            TokMode::Line => {
                if c == '\n' {
                    m = TokMode::Code;
                    w = e;
                }
            },
            TokMode::Block(d) => {
                if c == '*' {
                    m = TokMode::BlockStar(d);
                    w = e;
                } else if c == '/' {
                    m = TokMode::BlockSlash(d);
                    w = e;
                }
            },
            TokMode::BlockStar(d) => {
                if c == '/' {
                    if d <= 1 {
                        m = TokMode::Code;
                    } else {
                        m = TokMode::Block(d - 1);
                    }
                    w = e;
                } else if c != '*' {
                    m = TokMode::Block(d);
                    w = e;
                }
            },
            TokMode::BlockSlash(d) => {
                if c == '*' {
                    m = TokMode::Block(d + 1);
                    w = e;
                } else if c != '/' {
                    m = TokMode::Block(d);
                    w = e;
                }
            },
        }
        i = i + 1;
    }
    proof {
        assert(cs@.take(cs@.len() as int) =~= cs@);
    }
    if m == TokMode::Slash {
        push_punct(&mut ts, '/');
    } else {
        flush_exec(w, &mut ts);
    }
    ts
}


pub open spec fn tok_is(t: Seq<TokenView>, i: int, x: TokenView) -> bool {
    0 <= i < t.len() && t[i] == x
}

pub open spec fn lead_digits(w: Seq<char>) -> nat
    decreases w.len(),
{
    if w.len() > 0 && (('0' <= w[0] && w[0] <= '9') || w[0] == '_') {
        1 + lead_digits(w.drop_first())
    } else {
        0
    }
}

/// A word that Rust reads as an integer literal: a digit first, and then either a
/// `0x`/`0o`/`0b` prefix, or digits followed by no exponent and no float suffix.
pub open spec fn is_int_word(w: Seq<char>) -> bool {
    &&& w.len() > 0
    &&& '0' <= w[0] && w[0] <= '9'
    &&& {
        ||| (w.len() >= 2 && w[0] == '0' && (w[1] == 'x' || w[1] == 'o' || w[1] == 'b'))
        ||| {
            let rest = w.skip(lead_digits(w) as int);
            &&& !(rest.len() > 0 && (rest[0] == 'e' || rest[0] == 'E'))
            &&& rest != "f32"@
            &&& rest != "f64"@
        }
    }
}

/// An integer literal at `i`, negated when `neg` allows it; the position after it.
pub open spec fn int_at(t: Seq<TokenView>, i: int, neg: bool) -> Option<int> {
    if neg && tok_is(t, i, TokenView::Punct('-')) {
        if 0 <= i + 1 < t.len() && (t[i + 1] matches TokenView::Word(w) && is_int_word(w)) {
            Some(i + 2)
        } else {
            None
        }
    } else if 0 <= i < t.len() && (t[i] matches TokenView::Word(w) && is_int_word(w)) {
        Some(i + 1)
    } else {
        None
    }
}

/// `Decimal::new(int, scale)` at `i` (a leading `::` allowed, a trailing comma too);
/// the position after it.
pub open spec fn dec_at(t: Seq<TokenView>, i: int) -> Option<int> {
    let i0 = if tok_is(t, i, TokenView::Punct(':')) && tok_is(t, i + 1, TokenView::Punct(':')) {
        i + 2
    } else {
        i
    };
    if tok_is(t, i0, TokenView::Word("Decimal"@)) && tok_is(t, i0 + 1, TokenView::Punct(':')) && tok_is(
        t,
        i0 + 2,
        TokenView::Punct(':'),
    ) && tok_is(t, i0 + 3, TokenView::Word("new"@)) && tok_is(t, i0 + 4, TokenView::Punct('(')) {
        match int_at(t, i0 + 5, true) {
            None => None,
            Some(a) => if tok_is(t, a, TokenView::Punct(',')) {
                match int_at(t, a + 1, false) {
                    None => None,
                    Some(b) => if tok_is(t, b, TokenView::Punct(',')) && tok_is(t, b + 1, TokenView::Punct(')')) {
                        Some(b + 2)
                    } else if tok_is(t, b, TokenView::Punct(')')) {
                        Some(b + 1)
                    } else {
                        None
                    },
                }
            } else {
                None
            },
        }
    } else {
        None
    }
}

/// A comma-separated list of decimals from `i` up to its closing bracket (a trailing
/// comma allowed); the position of the bracket.
pub open spec fn args_at(t: Seq<TokenView>, i: int) -> Option<int>
    decreases t.len() - i,
{
    if i < 0 || i >= t.len() {
        None
    } else if t[i] == TokenView::Punct(')') {
        Some(i)
    } else {
        match dec_at(t, i) {
            None => None,
            Some(j) => if j <= i {
                None
            } else if tok_is(t, j, TokenView::Punct(')')) {
                Some(j)
            } else if tok_is(t, j, TokenView::Punct(',')) {
                args_at(t, j + 1)
            } else {
                None
            },
        }
    }
}

/// The tokens read `f(Decimal::new(int, scale), ...) == Decimal::new(int, scale)`.
pub open spec fn shape_ok(t: Seq<TokenView>, f: Seq<char>) -> bool {
    &&& tok_is(t, 0, TokenView::Word(f))
    &&& tok_is(t, 1, TokenView::Punct('('))
    &&& match args_at(t, 2) {
        Some(k) => tok_is(t, k + 1, TokenView::Punct('=')) && tok_is(t, k + 2, TokenView::Punct('=')) && dec_at(t, k + 3)
            == Some(t.len() as int),
        None => false,
    }
}

proof fn lemma_args_at_range(t: Seq<TokenView>, i: int)
    ensures
        args_at(t, i) matches Some(j) ==> i <= j < t.len(),
    decreases t.len() - i,
{
    if 0 <= i < t.len() && t[i] != TokenView::Punct(')') {
        match dec_at(t, i) {
            Some(j) => if j > i && !tok_is(t, j, TokenView::Punct(')')) && tok_is(t, j, TokenView::Punct(',')) {
                lemma_args_at_range(t, j + 1);
            },
            None => {},
        }
    }
}

fn tok_is_punct(t: &Vec<Token>, i: usize, c: char) -> (r: bool)
    ensures
        r == tok_is(token_views(t@), i as int, TokenView::Punct(c)),
{
    if i < t.len() {
        match &t[i] {
            Token::Punct(x) => *x == c,
            Token::Word(_) => false,
        }
    } else {
        false
    }
}

fn tok_is_word(t: &Vec<Token>, i: usize, w: &Vec<char>) -> (r: bool)
    ensures
        r == tok_is(token_views(t@), i as int, TokenView::Word(w@)),
{
    if i < t.len() {
        match &t[i] {
            Token::Word(x) => crate::text::seq_eq(x, w),
            Token::Punct(_) => false,
        }
    } else {
        false
    }
}

fn is_int_word_exec(w: &Vec<char>) -> (r: bool)
    ensures
        r == is_int_word(w@),
{
    if w.len() == 0 || !('0' <= w[0] && w[0] <= '9') {
        return false;
    }
    if w.len() >= 2 && w[0] == '0' && (w[1] == 'x' || w[1] == 'o' || w[1] == 'b') {
        return true;
    }
    let mut k: usize = 0;
    proof {
        assert(w@.skip(0) =~= w@);
    }
    while k < w.len() && (('0' <= w[k] && w[k] <= '9') || w[k] == '_')
        invariant
            k <= w@.len(),
            lead_digits(w@) == k + lead_digits(w@.skip(k as int)),
        decreases w@.len() - k,
    {
        proof {
            assert(w@.skip(k as int).drop_first() =~= w@.skip(k + 1));
        }
        k = k + 1;
    }
    let rest = crate::text::tail_from(w, k);
    proof {
        assert(lead_digits(w@.skip(k as int)) == 0);
        assert(rest@ == w@.skip(k as int));
    }
    !(rest.len() > 0 && (rest[0] == 'e' || rest[0] == 'E')) && !crate::text::seq_eq(&rest, &chars_of("f32"))
        && !crate::text::seq_eq(&rest, &chars_of("f64"))
}

fn int_at_exec(t: &Vec<Token>, i: usize, neg: bool) -> (r: Option<usize>)
    requires
        i <= t@.len(),
    ensures
        match int_at(token_views(t@), i as int, neg) {
            Some(j) => r == Some(j as usize) && j <= t@.len(),
            None => r is None,
        },
{
    if i >= t.len() {
        return None;
    }
    if neg && tok_is_punct(t, i, '-') {
        if i + 1 < t.len() {
            match &t[i + 1] {
                Token::Word(w) => if is_int_word_exec(w) {
                    return Some(i + 2);
                },
                Token::Punct(_) => {},
            }
        }
        return None;
    }
    match &t[i] {
        Token::Word(w) => if is_int_word_exec(w) {
            return Some(i + 1);
        },
        Token::Punct(_) => {},
    }
    None
}

fn dec_at_exec(t: &Vec<Token>, i: usize) -> (r: Option<usize>)
    requires
        i <= t@.len(),
    ensures
        match dec_at(token_views(t@), i as int) {
            Some(j) => r == Some(j as usize) && j <= t@.len(),
            None => r is None,
        },
{
    let n = t.len();
    let i0 = if i < n && i + 1 < n && tok_is_punct(t, i, ':') && tok_is_punct(t, i + 1, ':') {
        i + 2
    } else {
        i
    };
    proof {
        assert(i0 as int == (if tok_is(token_views(t@), i as int, TokenView::Punct(':')) && tok_is(
            token_views(t@),
            i + 1,
            TokenView::Punct(':'),
        ) {
            i + 2
        } else {
            i as int
        }));
    }
    if !(i0 < n && n - i0 > 4) {
        return None;
    }
    if !(tok_is_word(t, i0, &chars_of("Decimal")) && tok_is_punct(t, i0 + 1, ':') && tok_is_punct(t, i0 + 2, ':')
        && tok_is_word(t, i0 + 3, &chars_of("new")) && tok_is_punct(t, i0 + 4, '(')) {
        return None;
    }
    let a = match int_at_exec(t, i0 + 5, true) {
        None => {
            return None;
        },
        Some(a) => a,
    };
    if !(a < n && tok_is_punct(t, a, ',')) {
        return None;
    }
    let b = match int_at_exec(t, a + 1, false) {
        None => {
            return None;
        },
        Some(b) => b,
    };
    if b < n && b + 1 < n && tok_is_punct(t, b, ',') && tok_is_punct(t, b + 1, ')') {
        Some(b + 2)
    } else if b < n && tok_is_punct(t, b, ')') {
        Some(b + 1)
    } else {
        None
    }
}

fn args_at_exec(t: &Vec<Token>, i: usize) -> (r: Option<usize>)
    requires
        i <= t@.len(),
    ensures
        match args_at(token_views(t@), i as int) {
            Some(j) => r == Some(j as usize) && j < t@.len(),
            None => r is None,
        },
    decreases t@.len() - i,
{
    if i >= t.len() {
        return None;
    }
    if tok_is_punct(t, i, ')') {
        return Some(i);
    }
    match dec_at_exec(t, i) {
        None => None,
        Some(j) => if j <= i {
            None
        } else if tok_is_punct(t, j, ')') {
            Some(j)
        } else if tok_is_punct(t, j, ',') {
            args_at_exec(t, j + 1)
        } else {
            None
        },
    }
}

fn shape_ok_exec(t: &Vec<Token>, f: &Vec<char>) -> (r: bool)
    ensures
        r == shape_ok(token_views(t@), f@),
{
    if !(tok_is_word(t, 0, f) && tok_is_punct(t, 1, '(')) {
        return false;
    }
    proof {
        lemma_args_at_range(token_views(t@), 2);
    }
    match args_at_exec(t, 2) {
        None => false,
        Some(k) => k < t.len() && t.len() - k > 2 && tok_is_punct(t, k + 1, '=') && tok_is_punct(t, k + 2, '=') && match dec_at_exec(
            t,
            k + 3,
        ) {
            Some(e) => e == t.len(),
            None => false,
        },
    }
}


pub open spec fn ts_expect_bad(spec: LoadedSpec) -> spec_fn(int) -> bool {
    |i: int|
        {
            let e = trim_seq(spec.spec.local_tests@[i].expect@);
            expect_issue(e, false) is Some || !shape_ok(tokens_of(e), callable_of(spec.spec.id@))
        }
}

/// The first local test whose expect, trimmed, is no bounded expression, or does not
/// read `<unit>(Decimal::new(int, scale), ...) == Decimal::new(int, scale)`.
pub open spec fn typescript_expect_shape_issue(spec: LoadedSpec) -> Option<SpecErrorView> {
    let tests = spec.spec.local_tests@;
    match first_index(tests.len() as int, ts_expect_bad(spec), 0) {
        None => None,
        Some(i) => {
            let e = trim_seq(tests[i].expect@);
            match expect_issue(e, false) {
                Some(issue) => Some(
                    SpecErrorView::LocalTestExpectNotExpr {
                        id: tests[i].id@,
                        message: issue.text(),
                        path: spec.source.file_path@,
                    },
                ),
                None => Some(sem(spec, TYPESCRIPT_EXPECT_UNSUPPORTED_MESSAGE@)),
            }
        },
    }
}

/// Checks that every local test of a TypeScript target compares a call of the unit on
/// decimals with a decimal.
pub fn validate_typescript_local_test_expect_shape(spec: &LoadedSpec) -> (r: Result<(), SpecError>)
    ensures
        outcome_is(r, typescript_expect_shape_issue(*spec)),
{
    let unit_fn = chars_of(callable_name(spec.spec.id.as_str()).as_str());
    let tests = &spec.spec.local_tests;
    let mut i: usize = 0;
    while i < tests.len()
        invariant
            i <= tests@.len(),
            tests == spec.spec.local_tests,
            unit_fn@ == callable_of(spec.spec.id@),
            first_index(tests@.len() as int, ts_expect_bad(*spec), 0) == first_index(
                tests@.len() as int,
                ts_expect_bad(*spec),
                i as int,
            ),
        decreases tests@.len() - i,
    {
        let trimmed = string_of(&trim_chars(&chars_of(tests[i].expect.as_str())));
        match check_expect_expr(trimmed.as_str(), false) {
            Some(issue) => {
                return Err(
                    SpecError::LocalTestExpectNotExpr {
                        id: owned(tests[i].id.as_str()),
                        message: issue.message(),
                        path: owned(spec.source.file_path.as_str()),
                    },
                );
            },
            None => {},
        }
        let toks = tokenize(trimmed.as_str());
        if !shape_ok_exec(&toks, &unit_fn) {
            return Err(semantic_error(spec, owned(TYPESCRIPT_EXPECT_UNSUPPORTED_MESSAGE)));
        }
        i = i + 1;
    }
    Ok(())
}

/// Why a unit may not be a TypeScript target: it is no function; the loaded set (each
/// entry with the key it is looked up by) does not index or lacks it; the walk from it,
/// as the root, fails; or a local test's expect has the wrong shape.
pub open spec fn ts_target_issue(spec: LoadedSpec, es: Seq<(String, LoadedSpec)>, rs: Seq<UnitReview>) -> Option<
    SpecErrorView,
> {
    match kind_of(spec.spec.kind@) {
        None => Some(sem(spec, unknown_kind_text(spec.spec.kind@))),
        Some(k) => if k != UnitKind::Function {
            Some(sem(spec, TYPESCRIPT_KIND_UNSUPPORTED_MESSAGE@))
        } else {
            or_else(closure_issue(spec, es, rs, true), typescript_expect_shape_issue(spec))
        },
    }
}

/// Whether `spec` may be lowered to TypeScript, with the loaded set `specs` and the
/// semantic reviews `reviews` of its units.
pub fn validate_typescript_execution_target_spec_with_specs(
    spec: &LoadedSpec,
    specs: &Vec<(String, LoadedSpec)>,
    reviews: &Vec<UnitReview>,
) -> (r: Result<(), SpecError>)
    ensures
        outcome_is(r, ts_target_issue(*spec, specs@, reviews@)),
{
    match unit_kind(spec) {
        Err(m) => {
            return Err(semantic_error(spec, m));
        },
        Ok(k) => {
            if k != UnitKind::Function {
                return Err(semantic_error(spec, owned(TYPESCRIPT_KIND_UNSUPPORTED_MESSAGE)));
            }
        },
    }
    match check_closure(spec, specs, reviews, true) {
        Err(e) => {
            return Err(e);
        },
        Ok(()) => {},
    }
    validate_typescript_local_test_expect_shape(spec)
}

/// [`validate_typescript_execution_target_spec_with_specs`] with the unit alone as the
/// loaded set, under its own id.
pub fn validate_typescript_execution_target_spec(spec: LoadedSpec, reviews: &Vec<UnitReview>) -> (r: Result<
    (),
    SpecError,
>)
    ensures
        exists|k: String| k@ == spec.spec.id@ && outcome_is(r, ts_target_issue(spec, seq![(k, spec)], reviews@)),
{
    let key = owned(spec.spec.id.as_str());
    let ghost k = key;
    let specs = vec![(key, spec)];
    proof {
        assert(specs@ =~= seq![(k, spec)]);
    }
    let r = validate_typescript_execution_target_spec_with_specs(&specs[0].1, &specs, reviews);
    proof {
        assert(specs@[0].1 == spec);
    }
    r
}

proof fn lemma_reveal_keys()
    ensures
        TYPESCRIPT_HELPER_COMPATIBILITY_KEY@ != TYPESCRIPT_MONOTONE_DOWN_TARGET_COMPATIBILITY_KEY@,
        TYPESCRIPT_HELPER_COMPATIBILITY_KEY@ != TYPESCRIPT_MONOTONE_UP_TARGET_COMPATIBILITY_KEY@,
        TYPESCRIPT_HELPER_COMPATIBILITY_KEY@ != TYPESCRIPT_WRAPPER_TARGET_COMPATIBILITY_KEY@,
        TYPESCRIPT_HELPER_COMPATIBILITY_KEY@ != TYPESCRIPT_NORMALIZED_REQUIRED_ARG_WRAPPER_TARGET_COMPATIBILITY_KEY@,
        TYPESCRIPT_HELPER_COMPATIBILITY_KEY@ != TYPESCRIPT_CHAIN3_TARGET_COMPATIBILITY_KEY@,
        TYPESCRIPT_MONOTONE_DOWN_TARGET_COMPATIBILITY_KEY@ != TYPESCRIPT_MONOTONE_UP_TARGET_COMPATIBILITY_KEY@,
        TYPESCRIPT_MONOTONE_DOWN_TARGET_COMPATIBILITY_KEY@ != TYPESCRIPT_WRAPPER_TARGET_COMPATIBILITY_KEY@,
        TYPESCRIPT_MONOTONE_DOWN_TARGET_COMPATIBILITY_KEY@
            != TYPESCRIPT_NORMALIZED_REQUIRED_ARG_WRAPPER_TARGET_COMPATIBILITY_KEY@,
        TYPESCRIPT_MONOTONE_DOWN_TARGET_COMPATIBILITY_KEY@ != TYPESCRIPT_CHAIN3_TARGET_COMPATIBILITY_KEY@,
        TYPESCRIPT_MONOTONE_UP_TARGET_COMPATIBILITY_KEY@ != TYPESCRIPT_WRAPPER_TARGET_COMPATIBILITY_KEY@,
        TYPESCRIPT_MONOTONE_UP_TARGET_COMPATIBILITY_KEY@
            != TYPESCRIPT_NORMALIZED_REQUIRED_ARG_WRAPPER_TARGET_COMPATIBILITY_KEY@,
        TYPESCRIPT_MONOTONE_UP_TARGET_COMPATIBILITY_KEY@ != TYPESCRIPT_CHAIN3_TARGET_COMPATIBILITY_KEY@,
        TYPESCRIPT_WRAPPER_TARGET_COMPATIBILITY_KEY@ != TYPESCRIPT_NORMALIZED_REQUIRED_ARG_WRAPPER_TARGET_COMPATIBILITY_KEY@,
        TYPESCRIPT_WRAPPER_TARGET_COMPATIBILITY_KEY@ != TYPESCRIPT_CHAIN3_TARGET_COMPATIBILITY_KEY@,
        TYPESCRIPT_NORMALIZED_REQUIRED_ARG_WRAPPER_TARGET_COMPATIBILITY_KEY@ != TYPESCRIPT_CHAIN3_TARGET_COMPATIBILITY_KEY@,
{
    reveal_strlit("function.helper.identity_passthrough.v1");
    reveal_strlit("function.arithmetic_leaf.monotone_down_nonnegative.v1");
    reveal_strlit("function.arithmetic_leaf.monotone_up.v1");
    reveal_strlit("function.wrapper.pipeline.v1");
    reveal_strlit("function.wrapper.pipeline.normalized_required_arg.v1");
    reveal_strlit("function.wrapper.pipeline.chain3.v1");
    assert(TYPESCRIPT_HELPER_COMPATIBILITY_KEY@[9] != TYPESCRIPT_MONOTONE_UP_TARGET_COMPATIBILITY_KEY@[9]);
    assert(TYPESCRIPT_MONOTONE_DOWN_TARGET_COMPATIBILITY_KEY@.len() == 53);
    assert(TYPESCRIPT_MONOTONE_UP_TARGET_COMPATIBILITY_KEY@.len() == 39);
    assert(TYPESCRIPT_WRAPPER_TARGET_COMPATIBILITY_KEY@.len() == 28);
    assert(TYPESCRIPT_NORMALIZED_REQUIRED_ARG_WRAPPER_TARGET_COMPATIBILITY_KEY@.len() == 52);
    assert(TYPESCRIPT_CHAIN3_TARGET_COMPATIBILITY_KEY@.len() == 35);
}

/// What the walk from an accepted target shows of its root: the unit its key names in the
/// set is a function that authors `body.typescript`, is reviewed as supported under a key
/// of the lane, and keeps that family's dep contract.
proof fn lemma_accepted_root(spec: LoadedSpec, es: Seq<(String, LoadedSpec)>, rs: Seq<UnitReview>)
    requires
        ts_target_issue(spec, es, rs) is None,
    ensures
        target_entry(es, spec) matches Ok(i) && last_before(es, entry_qid(es[i]), es.len() as int) matches Some(j)
            && review_for(rs, entry_qid(es[i])) matches Some((key, supported)) && family_of(key) matches Some(f) && (0
            <= i < es.len() && 0 <= j < es.len() && kind_of(es[j].1.spec.kind@) == Some(UnitKind::Function)
            && has_ts_body(es[j].1) && supported && family_contract_issue(
            es,
            rs,
            es[j].1,
            entry_qid(es[i]).0,
            f,
            key,
            true,
        ) is None),
{
    assert(closure_issue(spec, es, rs, true) is None);
    let i = target_entry(es, spec)->Ok_0;
    lemma_first_index(es.len() as int, local_candidate(es, spec), 0);
    lemma_first_index(es.len() as int, any_candidate(es, spec), 0);
    let q = entry_qid(es[i]);
    let walk = member_walk(es, rs, q, Seq::empty(), true, pending(es, Seq::empty(), es.len() as int));
    assert(walk.0 is None);
    lemma_last_before(es, q, es.len() as int);
    assert(!Seq::<UnitKey>::empty().contains(q));
}

/// What a dep that meets its family contract resolves to: a unit of the set, reviewed as
/// supported under an accepted key, that authors `body.typescript`.
proof fn lemma_dep_accepted(
    es: Seq<(String, LoadedSpec)>,
    rs: Seq<UnitReview>,
    spec: LoadedSpec,
    owner: Option<Seq<char>>,
    dep: Seq<char>,
    missing: Seq<char>,
    family: Seq<char>,
    body: Seq<char>,
    accepted: Seq<Seq<char>>,
    plain: bool,
)
    requires
        dep_family_issue(es, rs, spec, owner, dep, missing, family, body, accepted, plain) is None,
    ensures
        resolve(es, spec, owner, dep, missing) matches Ok((dq, k)) && review_for(rs, dq) matches Some((key, supported))
            && (0 <= k < es.len() && supported && accepted.contains(key) && has_ts_body(es[k].1)),
{
    match resolve(es, spec, owner, dep, missing) {
        Ok((dq, k)) => {
            lemma_last_before(es, dq, es.len() as int);
        },
        Err(_) => {},
    }
}

/// The lane accepts as a target only a function that authors `body.typescript` and whose
/// unit in the set is reviewed as supported under the monotone-down, monotone-up,
/// wrapper-pipeline, normalized wrapper-pipeline or chain3 key: never under the helper key.
pub proof fn lemma_accepted_target_root(spec: LoadedSpec, es: Seq<(String, LoadedSpec)>, rs: Seq<UnitReview>)
    requires
        ts_target_issue(spec, es, rs) is None,
    ensures
        kind_of(spec.spec.kind@) == Some(UnitKind::Function),
        target_entry(es, spec) matches Ok(i) && last_before(es, entry_qid(es[i]), es.len() as int) matches Some(j)
            && review_for(rs, entry_qid(es[i])) matches Some((key, supported)) && has_ts_body(es[j].1) && supported && (
        key == TYPESCRIPT_MONOTONE_DOWN_TARGET_COMPATIBILITY_KEY@ || key == TYPESCRIPT_MONOTONE_UP_TARGET_COMPATIBILITY_KEY@
            || key == TYPESCRIPT_WRAPPER_TARGET_COMPATIBILITY_KEY@ || key
            == TYPESCRIPT_NORMALIZED_REQUIRED_ARG_WRAPPER_TARGET_COMPATIBILITY_KEY@ || key
            == TYPESCRIPT_CHAIN3_TARGET_COMPATIBILITY_KEY@),
{
    lemma_accepted_root(spec, es, rs);
}

/// A monotone-leaf target (down or up) that the lane accepts has, in the unit its key
/// names in the set, at most one direct dep, and that dep resolves to a unit reviewed as
/// supported under the identity-passthrough helper key that authors `body.typescript`.
pub proof fn lemma_accepted_monotone_target_deps(spec: LoadedSpec, es: Seq<(String, LoadedSpec)>, rs: Seq<UnitReview>)
    requires
        ts_target_issue(spec, es, rs) is None,
        target_entry(es, spec) matches Ok(i) && review_for(rs, entry_qid(es[i])) matches Some((key, _)) && (key
            == TYPESCRIPT_MONOTONE_DOWN_TARGET_COMPATIBILITY_KEY@ || key == TYPESCRIPT_MONOTONE_UP_TARGET_COMPATIBILITY_KEY@),
    ensures
        target_entry(es, spec) matches Ok(i) && last_before(es, entry_qid(es[i]), es.len() as int) matches Some(j) && {
            let owner = entry_qid(es[i]).0;
            let ds = es[j].1.spec.deps@;
            &&& ds.len() <= 1
            &&& ds.len() == 1 ==> (resolve(es, es[j].1, owner, ds[0]@, TYPESCRIPT_MISSING_HELPER_UNSUPPORTED_MESSAGE@)
                matches Ok((dq, k)) && review_for(rs, dq) == Some((TYPESCRIPT_HELPER_COMPATIBILITY_KEY@, true)) && 0 <= k
                < es.len() && has_ts_body(es[k].1))
        },
{
    lemma_reveal_keys();
    lemma_accepted_root(spec, es, rs);
    let i = target_entry(es, spec)->Ok_0;
    let q = entry_qid(es[i]);
    let j = last_before(es, q, es.len() as int)->Some_0;
    let u = es[j].1;
    let ds = u.spec.deps@;
    assert(helper_contract_issue(es, rs, u, q.0) is None);
    if ds.len() == 1 {
        let acc = seq![TYPESCRIPT_HELPER_COMPATIBILITY_KEY@];
        lemma_dep_accepted(
            es,
            rs,
            u,
            q.0,
            ds[0]@,
            TYPESCRIPT_MISSING_HELPER_UNSUPPORTED_MESSAGE@,
            TYPESCRIPT_HELPER_FAMILY_UNSUPPORTED_MESSAGE@,
            TYPESCRIPT_HELPER_TYPESCRIPT_BODY_UNSUPPORTED_MESSAGE@,
            acc,
            true,
        );
        let dq = resolve(es, u, q.0, ds[0]@, TYPESCRIPT_MISSING_HELPER_UNSUPPORTED_MESSAGE@)->Ok_0.0;
        assert(review_for(rs, dq)->Some_0.0 == acc[0]);
    }
}

/// A wrapper-pipeline target (plain or with a normalized required argument) that the lane
/// accepts has, in the unit its key names in the loaded set, exactly two direct deps: the
/// first resolves to a unit reviewed as supported under the nonnegative monotone-down key,
/// the second to a unit reviewed as supported under the monotone-up key, and both author
/// `body.typescript`.
pub proof fn lemma_accepted_wrapper_target_deps(spec: LoadedSpec, es: Seq<(String, LoadedSpec)>, rs: Seq<UnitReview>)
    requires
        ts_target_issue(spec, es, rs) is None,
        target_entry(es, spec) matches Ok(i) && review_for(rs, entry_qid(es[i])) matches Some((key, _)) && (key
            == TYPESCRIPT_WRAPPER_TARGET_COMPATIBILITY_KEY@ || key
            == TYPESCRIPT_NORMALIZED_REQUIRED_ARG_WRAPPER_TARGET_COMPATIBILITY_KEY@),
    ensures
        target_entry(es, spec) matches Ok(i) && last_before(es, entry_qid(es[i]), es.len() as int) matches Some(j) && {
            let owner = entry_qid(es[i]).0;
            let ds = es[j].1.spec.deps@;
            &&& ds.len() == 2
            &&& resolve(es, es[j].1, owner, ds[0]@, TYPESCRIPT_WRAPPER_MISSING_DEP_UNSUPPORTED_MESSAGE@) matches Ok(
                (dq, k),
            ) && review_for(rs, dq) == Some((TYPESCRIPT_MONOTONE_DOWN_TARGET_COMPATIBILITY_KEY@, true)) && 0 <= k
                < es.len() && has_ts_body(es[k].1)
            &&& resolve(es, es[j].1, owner, ds[1]@, TYPESCRIPT_WRAPPER_MISSING_DEP_UNSUPPORTED_MESSAGE@) matches Ok(
                (dq, k),
            ) && review_for(rs, dq) == Some((TYPESCRIPT_MONOTONE_UP_TARGET_COMPATIBILITY_KEY@, true)) && 0 <= k
                < es.len() && has_ts_body(es[k].1)
        },
{
    lemma_reveal_keys();
    lemma_accepted_root(spec, es, rs);
    let i = target_entry(es, spec)->Ok_0;
    let q = entry_qid(es[i]);
    let j = last_before(es, q, es.len() as int)->Some_0;
    let u = es[j].1;
    let ds = u.spec.deps@;
    assert(wrapper_contract_issue(es, rs, u, q.0) is None);
    let down = seq![TYPESCRIPT_MONOTONE_DOWN_TARGET_COMPATIBILITY_KEY@];
    let up = seq![TYPESCRIPT_MONOTONE_UP_TARGET_COMPATIBILITY_KEY@];
    lemma_dep_accepted(
        es,
        rs,
        u,
        q.0,
        ds[0]@,
        TYPESCRIPT_WRAPPER_MISSING_DEP_UNSUPPORTED_MESSAGE@,
        TYPESCRIPT_WRAPPER_DEP_FAMILY_UNSUPPORTED_MESSAGE@,
        TYPESCRIPT_WRAPPER_DEP_TYPESCRIPT_BODY_UNSUPPORTED_MESSAGE@,
        down,
        false,
    );
    lemma_dep_accepted(
        es,
        rs,
        u,
        q.0,
        ds[1]@,
        TYPESCRIPT_WRAPPER_MISSING_DEP_UNSUPPORTED_MESSAGE@,
        TYPESCRIPT_WRAPPER_DEP_FAMILY_UNSUPPORTED_MESSAGE@,
        TYPESCRIPT_WRAPPER_DEP_TYPESCRIPT_BODY_UNSUPPORTED_MESSAGE@,
        up,
        false,
    );
    let q0 = resolve(es, u, q.0, ds[0]@, TYPESCRIPT_WRAPPER_MISSING_DEP_UNSUPPORTED_MESSAGE@)->Ok_0.0;
    let q1 = resolve(es, u, q.0, ds[1]@, TYPESCRIPT_WRAPPER_MISSING_DEP_UNSUPPORTED_MESSAGE@)->Ok_0.0;
    assert(review_for(rs, q0)->Some_0.0 == down[0]);
    assert(review_for(rs, q1)->Some_0.0 == up[0]);
}

/// A chain3 target that the lane accepts has, in the unit its key names in the set,
/// exactly three direct deps: a wrapper pipeline (plain, normalized or chain3), then the
/// monotone-up leaf, then the nonnegative monotone-down leaf, each reviewed as supported
/// under that key and authoring `body.typescript`.
pub proof fn lemma_accepted_chain3_target_deps(spec: LoadedSpec, es: Seq<(String, LoadedSpec)>, rs: Seq<UnitReview>)
    requires
        ts_target_issue(spec, es, rs) is None,
        target_entry(es, spec) matches Ok(i) && review_for(rs, entry_qid(es[i])) matches Some((key, _)) && key
            == TYPESCRIPT_CHAIN3_TARGET_COMPATIBILITY_KEY@,
    ensures
        target_entry(es, spec) matches Ok(i) && last_before(es, entry_qid(es[i]), es.len() as int) matches Some(j) && {
            let owner = entry_qid(es[i]).0;
            let ds = es[j].1.spec.deps@;
            &&& ds.len() == 3
            &&& resolve(es, es[j].1, owner, ds[0]@, TYPESCRIPT_CHAIN3_MISSING_DEP_UNSUPPORTED_MESSAGE@) matches Ok(
                (dq, k),
            ) && review_for(rs, dq) matches Some((key0, true)) && (key0 == TYPESCRIPT_WRAPPER_TARGET_COMPATIBILITY_KEY@
                || key0 == TYPESCRIPT_NORMALIZED_REQUIRED_ARG_WRAPPER_TARGET_COMPATIBILITY_KEY@ || key0
                == TYPESCRIPT_CHAIN3_TARGET_COMPATIBILITY_KEY@) && 0 <= k < es.len() && has_ts_body(es[k].1)
            &&& resolve(es, es[j].1, owner, ds[1]@, TYPESCRIPT_CHAIN3_MISSING_DEP_UNSUPPORTED_MESSAGE@) matches Ok(
                (dq, k),
            ) && review_for(rs, dq) == Some((TYPESCRIPT_MONOTONE_UP_TARGET_COMPATIBILITY_KEY@, true)) && 0 <= k
                < es.len() && has_ts_body(es[k].1)
            &&& resolve(es, es[j].1, owner, ds[2]@, TYPESCRIPT_CHAIN3_MISSING_DEP_UNSUPPORTED_MESSAGE@) matches Ok(
                (dq, k),
            ) && review_for(rs, dq) == Some((TYPESCRIPT_MONOTONE_DOWN_TARGET_COMPATIBILITY_KEY@, true)) && 0 <= k
                < es.len() && has_ts_body(es[k].1)
        },
{
    lemma_reveal_keys();
    lemma_accepted_root(spec, es, rs);
    let i = target_entry(es, spec)->Ok_0;
    let q = entry_qid(es[i]);
    let j = last_before(es, q, es.len() as int)->Some_0;
    let u = es[j].1;
    let ds = u.spec.deps@;
    assert(chain3_contract_issue(es, rs, u, q.0) is None);
    let up = seq![TYPESCRIPT_MONOTONE_UP_TARGET_COMPATIBILITY_KEY@];
    let down = seq![TYPESCRIPT_MONOTONE_DOWN_TARGET_COMPATIBILITY_KEY@];
    let m = TYPESCRIPT_CHAIN3_MISSING_DEP_UNSUPPORTED_MESSAGE@;
    let f = TYPESCRIPT_CHAIN3_DEP_FAMILY_UNSUPPORTED_MESSAGE@;
    let b = TYPESCRIPT_CHAIN3_DEP_TYPESCRIPT_BODY_UNSUPPORTED_MESSAGE@;
    lemma_dep_accepted(es, rs, u, q.0, ds[0]@, m, f, b, chain3_first_keys(), false);
    lemma_dep_accepted(es, rs, u, q.0, ds[1]@, m, f, b, up, false);
    lemma_dep_accepted(es, rs, u, q.0, ds[2]@, m, f, b, down, false);
    let q0 = resolve(es, u, q.0, ds[0]@, m)->Ok_0.0;
    let q1 = resolve(es, u, q.0, ds[1]@, m)->Ok_0.0;
    let q2 = resolve(es, u, q.0, ds[2]@, m)->Ok_0.0;
    let key0 = review_for(rs, q0)->Some_0.0;
    assert(chain3_first_keys().contains(key0));
    let t = choose|t: int| 0 <= t < chain3_first_keys().len() && chain3_first_keys()[t] == key0;
    assert(t == 0 || t == 1 || t == 2);
    assert(review_for(rs, q1)->Some_0.0 == up[0]);
    assert(review_for(rs, q2)->Some_0.0 == down[0]);
}

} // verus!
