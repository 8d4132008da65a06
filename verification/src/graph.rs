//! The dependency graph of a unit set: identities, duplicates, missing deps and cycles.
use vstd::prelude::*;
use crate::errors::{views_of_strings, SpecError, SpecErrorView, SpecWarning, SpecWarningView};
use crate::model::{LoadedSpec, AUTHORED_SPEC_VERSION};
use crate::text::owned;
use crate::unit_ref::{authored_form, parse_dep, DepRef, DepRefParseError, QualifiedUnitRef};
use crate::validator::{dep_invalid_pred, failure_of, parse_dep_refs, parsed_of, ValidationOptions};
use crate::text::{first_match, lemma_first_match_bounds};
use crate::unit_ref::dep_failure_text;

verus! {

/// A library and unit id, each by its characters; `None` is the local library.
pub type UnitKey = (Option<Seq<char>>, Seq<char>);

/// The keys of a sequence of qualified references.
pub open spec fn keys_of(refs: Seq<QualifiedUnitRef>) -> Seq<UnitKey> {
    refs.map_values(|q: QualifiedUnitRef| q.key())
}

/// A unit scoped to its library, with its dependencies scoped the same way.
pub struct QualifiedLoadedSpec<'a> {
    pub loaded: &'a LoadedSpec,
    pub qualified_id: QualifiedUnitRef,
    pub qualified_deps: Vec<QualifiedUnitRef>,
}

/// Every dependency that a unit's generated code calls, each once, in first-authored
/// order: the top-level deps, then the deps of each method.
pub open spec fn top_level_dep_seq(spec: LoadedSpec) -> Seq<Seq<char>> {
    ordered_unique(
        views_of_strings(spec.spec.deps@) + method_dep_seq(spec.spec.extensions.methods@.map_values(
            |m: crate::model::AuthoredMethod| views_of_strings(m.deps@),
        )),
    )
}

/// The method dep lists, concatenated in order.
pub open spec fn method_dep_seq(lists: Seq<Seq<Seq<char>>>) -> Seq<Seq<char>>
    decreases lists.len(),
{
    if lists.len() == 0 {
        Seq::empty()
    } else {
        method_dep_seq(lists.drop_last()) + lists.last()
    }
}

/// `s` keeping only the first occurrence of each element.
pub open spec fn ordered_unique(s: Seq<Seq<char>>) -> Seq<Seq<char>>
    decreases s.len(),
{
    if s.len() == 0 {
        Seq::empty()
    } else {
        let prev = ordered_unique(s.drop_last());
        if prev.contains(s.last()) {
            prev
        } else {
            prev.push(s.last())
        }
    }
}

fn push_unique(out: &mut Vec<String>, item: &String)
    ensures
        views_of_strings(final(out)@) == (if views_of_strings(old(out)@).contains(item@) {
            views_of_strings(old(out)@)
        } else {
            views_of_strings(old(out)@).push(item@)
        }),
{
    let mut i: usize = 0;
    while i < out.len()
        invariant
            i <= out.len(),
            forall|k: int| 0 <= k < i ==> out@[k]@ != item@,
        decreases out.len() - i,
    {
        if out[i] == *item {
            proof {
                assert(views_of_strings(out@)[i as int] == item@);
            }
            return;
        }
        i = i + 1;
    }
    proof {
        if views_of_strings(out@).contains(item@) {
            let k = choose|k: int| 0 <= k < out@.len() && views_of_strings(out@)[k] == item@;
            assert(out@[k]@ == item@);
        }
    }
    let ghost before = out@;
    out.push(item.clone());
    proof {
        assert(views_of_strings(out@) =~= views_of_strings(before).push(item@));
    }
}

pub(crate) fn push_all_unique(out: &mut Vec<String>, items: &Vec<String>)
    ensures
        views_of_strings(final(out)@) == unique_extend(views_of_strings(old(out)@), views_of_strings(items@)),
{
    let ghost start = views_of_strings(out@);
    let mut i: usize = 0;
    while i < items.len()
        invariant
            i <= items.len(),
            views_of_strings(out@) == unique_extend(start, views_of_strings(items@).take(i as int)),
        decreases items.len() - i,
    {
        push_unique(out, &items[i]);
        proof {
            assert(views_of_strings(items@).take(i + 1).drop_last() =~= views_of_strings(items@).take(i as int));
        }
        i = i + 1;
    }
    proof {
        assert(views_of_strings(items@).take(items@.len() as int) =~= views_of_strings(items@));
    }
}

/// `acc` extended with each element of `s` that it does not hold yet.
pub open spec fn unique_extend(acc: Seq<Seq<char>>, s: Seq<Seq<char>>) -> Seq<Seq<char>>
    decreases s.len(),
{
    if s.len() == 0 {
        acc
    } else {
        let prev = unique_extend(acc, s.drop_last());
        if prev.contains(s.last()) {
            prev
        } else {
            prev.push(s.last())
        }
    }
}

pub proof fn lemma_unique_extend_append(acc: Seq<Seq<char>>, a: Seq<Seq<char>>, b: Seq<Seq<char>>)
    ensures
        unique_extend(unique_extend(acc, a), b) == unique_extend(acc, a + b),
    decreases b.len(),
{
    if b.len() == 0 {
        assert(a + b =~= a);
    } else {
        lemma_unique_extend_append(acc, a, b.drop_last());
        assert((a + b).drop_last() =~= a + b.drop_last());
        assert((a + b).last() == b.last());
    }
}

pub proof fn lemma_unique_extend_empty(s: Seq<Seq<char>>)
    ensures
        unique_extend(Seq::empty(), s) == ordered_unique(s),
    decreases s.len(),
{
    if s.len() > 0 {
        lemma_unique_extend_empty(s.drop_last());
    }
}

/// The deps of a unit as the dependency graph sees them.
pub fn top_level_deps(spec: &LoadedSpec) -> (r: Vec<String>)
    ensures
        views_of_strings(r@) == top_level_dep_seq(*spec),
{
    let ghost lists = spec.spec.extensions.methods@.map_values(
        |m: crate::model::AuthoredMethod| views_of_strings(m.deps@),
    );
    let mut out: Vec<String> = Vec::new();
    proof {
        assert(views_of_strings(out@) =~= Seq::<Seq<char>>::empty());
    }
    push_all_unique(&mut out, &spec.spec.deps);
    proof {
        assert(lists.take(0) =~= Seq::<Seq<Seq<char>>>::empty());
        assert(views_of_strings(spec.spec.deps@) + method_dep_seq(lists.take(0)) =~= views_of_strings(spec.spec.deps@));
    }
    let methods = &spec.spec.extensions.methods;
    let mut i: usize = 0;
    while i < methods.len()
        invariant
            i <= methods.len(),
            methods == spec.spec.extensions.methods,
            lists == methods@.map_values(|m: crate::model::AuthoredMethod| views_of_strings(m.deps@)),
            views_of_strings(out@) == unique_extend(
                Seq::empty(),
                views_of_strings(spec.spec.deps@) + method_dep_seq(lists.take(i as int)),
            ),
        decreases methods.len() - i,
    {
        let ghost before = views_of_strings(out@);
        push_all_unique(&mut out, &methods[i].deps);
        proof {
            let d = views_of_strings(spec.spec.deps@);
            assert(lists.take(i + 1).drop_last() =~= lists.take(i as int));
            assert(lists.take(i + 1).last() == views_of_strings(methods@[i as int].deps@));
            lemma_unique_extend_append(Seq::empty(), d + method_dep_seq(lists.take(i as int)), views_of_strings(methods@[i as int].deps@));
            assert(d + method_dep_seq(lists.take(i + 1)) =~= (d + method_dep_seq(lists.take(i as int))) + views_of_strings(methods@[i as int].deps@));
        }
        i = i + 1;
    }
    proof {
        assert(lists.take(methods@.len() as int) =~= lists);
        lemma_unique_extend_empty(views_of_strings(spec.spec.deps@) + method_dep_seq(lists));
    }
    out
}

} // verus!

verus! {

/// A node of the dependency graph: its key, the keys it depends on, and its file.
pub type GraphNode = (UnitKey, Seq<UnitKey>, Seq<char>);

impl<'a> QualifiedLoadedSpec<'a> {
    /// The unit as a node of the dependency graph.
    pub open spec fn node(&self) -> GraphNode {
        (self.qualified_id.key(), keys_of(self.qualified_deps@), self.loaded.source.file_path@)
    }

    /// The unit under its local identity, with no dependencies.
    pub fn local_identity(loaded: &'a LoadedSpec) -> (r: Self)
        ensures
            r.loaded == loaded,
            r.qualified_id.key() == (None::<Seq<char>>, loaded.spec.id@),
            r.qualified_deps@.len() == 0,
    {
        QualifiedLoadedSpec {
            loaded,
            qualified_id: QualifiedUnitRef::local(loaded.spec.id.as_str()),
            qualified_deps: Vec::new(),
        }
    }

    /// The unit in the local library, its deps parsed and scoped; the first dep that
    /// does not parse is the error.
    pub fn local(loaded: &'a LoadedSpec) -> (r: Result<Self, DepRefParseError>)
        ensures
            match first_match(top_level_dep_seq(*loaded), dep_invalid_pred(), 0) {
                Some(i) => r matches Err(e) && e.dep@ == top_level_dep_seq(*loaded)[i]
                    && e.reason.failure() == failure_of(top_level_dep_seq(*loaded)[i]),
                None => r matches Ok(q) && q.loaded == loaded
                    && q.qualified_id.key() == (None::<Seq<char>>, loaded.spec.id@)
                    && keys_of(q.qualified_deps@) == top_level_dep_seq(*loaded).map_values(|d: Seq<char>| parsed_of(d)),
            },
    {
        let deps = top_level_deps(loaded);
        let refs = match parse_dep_refs(&deps) {
            Ok(v) => v,
            Err(e) => {
                proof {
                    lemma_first_match_bounds(views_of_strings(deps@), dep_invalid_pred(), 0);
                    let i = first_match(views_of_strings(deps@), dep_invalid_pred(), 0)->0;
                    assert(views_of_strings(deps@)[i] == deps@[i]@);
                }
                return Err(e);
            },
        };
        let mut qualified_deps: Vec<QualifiedUnitRef> = Vec::new();
        let mut i: usize = 0;
        while i < refs.len()
            invariant
                i <= refs.len(),
                refs@.len() == deps@.len(),
                forall|k: int| 0 <= k < refs@.len() ==> #[trigger] refs@[k].view_pair() == parsed_of(deps@[k]@),
                keys_of(qualified_deps@) == views_of_strings(deps@).take(i as int).map_values(|d: Seq<char>| parsed_of(d)),
            decreases refs.len() - i,
        {
            let q = refs[i].to_qualified(&None);
            let ghost before = qualified_deps@;
            qualified_deps.push(q);
            proof {
                assert(q.key() == refs@[i as int].view_pair());
                assert(q.key() == parsed_of(deps@[i as int]@));
                assert(keys_of(qualified_deps@) =~= keys_of(before).push(q.key()));
                assert(views_of_strings(deps@).take(i + 1) =~= views_of_strings(deps@).take(i as int).push(deps@[i as int]@));
                assert(views_of_strings(deps@).take(i + 1).map_values(|d: Seq<char>| parsed_of(d))
                    =~= views_of_strings(deps@).take(i as int).map_values(|d: Seq<char>| parsed_of(d)).push(parsed_of(deps@[i as int]@)));
            }
            i = i + 1;
        }
        proof {
            assert(views_of_strings(deps@).take(deps@.len() as int) =~= views_of_strings(deps@));
        }
        Ok(QualifiedLoadedSpec {
            loaded,
            qualified_id: QualifiedUnitRef::local(loaded.spec.id.as_str()),
            qualified_deps,
        })
    }
}

/// The views of a sequence of errors.
pub open spec fn error_views(v: Seq<SpecError>) -> Seq<SpecErrorView> {
    v.map_values(|e: SpecError| e@)
}

pub open spec fn warning_views(v: Seq<SpecWarning>) -> Seq<SpecWarningView> {
    v.map_values(|w: SpecWarning| w@)
}

/// The graph nodes of a qualified unit set.
pub open spec fn graph_of<'a>(s: Seq<QualifiedLoadedSpec<'a>>) -> Seq<GraphNode> {
    s.map_values(|q: QualifiedLoadedSpec<'a>| q.node())
}

pub open spec fn key_pred(k: UnitKey) -> spec_fn(GraphNode) -> bool {
    |n: GraphNode| n.0 == k
}

/// One `DuplicateId` per unit whose key an earlier unit already has, citing the first
/// unit that had it.
pub open spec fn duplicate_errors(g: Seq<GraphNode>) -> Seq<SpecErrorView>
    decreases g.len(),
{
    if g.len() == 0 {
        Seq::empty()
    } else {
        let prev = duplicate_errors(g.drop_last());
        let n = g.last();
        match first_match(g.drop_last(), key_pred(n.0), 0) {
            Some(j) => prev.push(SpecErrorView::DuplicateId {
                id: authored_form(n.0.0, n.0.1),
                file1: g[j].2,
                file2: n.2,
            }),
            None => prev,
        }
    }
}

fn first_with_key(specs: &[QualifiedLoadedSpec<'_>], key: &QualifiedUnitRef, end: usize) -> (r: Option<usize>)
    requires
        end <= specs@.len(),
    ensures
        r is None <==> first_match(graph_of(specs@).take(end as int), key_pred(key.key()), 0) is None,
        r matches Some(j) ==> first_match(graph_of(specs@).take(end as int), key_pred(key.key()), 0) == Some(j as int),
{
    let ghost g = graph_of(specs@).take(end as int);
    let mut j: usize = 0;
    while j < end
        invariant
            j <= end <= specs@.len(),
            g == graph_of(specs@).take(end as int),
            first_match(g, key_pred(key.key()), 0) == first_match(g, key_pred(key.key()), j as int),
        decreases end - j,
    {
        proof {
            assert(g[j as int] == specs@[j as int].node());
        }
        if specs[j].qualified_id.same_as(key) {
            return Some(j);
        }
        j = j + 1;
    }
    None
}

/// One error per unit whose library-qualified id an earlier unit already has.
pub fn validate_no_duplicate_qualified_ids(specs: &[QualifiedLoadedSpec<'_>]) -> (r: Vec<SpecError>)
    ensures
        error_views(r@) == duplicate_errors(graph_of(specs@)),
{
    let mut errors: Vec<SpecError> = Vec::new();
    let mut i: usize = 0;
    while i < specs.len()
        invariant
            i <= specs@.len(),
            error_views(errors@) == duplicate_errors(graph_of(specs@).take(i as int)),
        decreases specs@.len() - i,
    {
        let spec = &specs[i];
        let ghost g = graph_of(specs@).take(i + 1);
        proof {
            assert(g.drop_last() =~= graph_of(specs@).take(i as int));
            assert(g.last() == spec.node());
        }
        match first_with_key(specs, &spec.qualified_id, i) {
            Some(j) => {
                proof {
                    lemma_first_match_bounds(graph_of(specs@).take(i as int), key_pred(spec.qualified_id.key()), 0);
                    assert(g[j as int] == specs@[j as int].node());
                }
                let e = SpecError::DuplicateId {
                    id: spec.qualified_id.authored(),
                    file1: specs[j].loaded.source.file_path.clone(),
                    file2: spec.loaded.source.file_path.clone(),
                };
                let ghost before = errors@;
                errors.push(e);
                proof {
                    assert(error_views(errors@) =~= error_views(before).push(e@));
                }
            },
            None => {},
        }
        i = i + 1;
    }
    proof {
        assert(graph_of(specs@).take(specs@.len() as int) =~= graph_of(specs@));
    }
    errors
}

/// The local graph nodes of a plain unit set: no library, no deps.
pub open spec fn identity_graph(s: Seq<LoadedSpec>) -> Seq<GraphNode> {
    s.map_values(|l: LoadedSpec| ((None::<Seq<char>>, l.spec.id@), Seq::<UnitKey>::empty(), l.source.file_path@))
}

/// One error per unit whose id an earlier unit already has, citing the first one.
pub fn validate_no_duplicate_ids(specs: &[LoadedSpec]) -> (r: Vec<SpecError>)
    ensures
        error_views(r@) == duplicate_errors(identity_graph(specs@)),
{
    let mut scoped: Vec<QualifiedLoadedSpec> = Vec::new();
    let mut i: usize = 0;
    while i < specs.len()
        invariant
            i <= specs@.len(),
            graph_of(scoped@) == identity_graph(specs@).take(i as int),
        decreases specs@.len() - i,
    {
        let q = QualifiedLoadedSpec::local_identity(&specs[i]);
        let ghost before = scoped@;
        scoped.push(q);
        proof {
            assert(keys_of(q.qualified_deps@) =~= Seq::<UnitKey>::empty());
            assert(graph_of(scoped@) =~= graph_of(before).push(q.node()));
            assert(identity_graph(specs@).take(i + 1) =~= identity_graph(specs@).take(i as int).push(q.node()));
        }
        i = i + 1;
    }
    proof {
        assert(identity_graph(specs@).take(specs@.len() as int) =~= identity_graph(specs@));
    }
    validate_no_duplicate_qualified_ids(scoped.as_slice())
}

/// One warning per unit, in order, that does not declare `spec_version`.
pub open spec fn version_warnings(s: Seq<LoadedSpec>) -> Seq<SpecWarningView>
    decreases s.len(),
{
    if s.len() == 0 {
        Seq::empty()
    } else {
        let prev = version_warnings(s.drop_last());
        if s.last().spec.spec_version is None {
            prev.push(SpecWarningView::MissingSpecVersion { path: s.last().source.file_path@, version: AUTHORED_SPEC_VERSION@ })
        } else {
            prev
        }
    }
}

/// Warns for each unit that lacks `spec_version`.
pub fn check_spec_versions(specs: &[LoadedSpec]) -> (r: Vec<SpecWarning>)
    ensures
        warning_views(r@) == version_warnings(specs@),
{
    let mut warnings: Vec<SpecWarning> = Vec::new();
    let mut i: usize = 0;
    while i < specs.len()
        invariant
            i <= specs@.len(),
            warning_views(warnings@) == version_warnings(specs@.take(i as int)),
        decreases specs@.len() - i,
    {
        proof {
            assert(specs@.take(i + 1).drop_last() =~= specs@.take(i as int));
        }
        if specs[i].spec.spec_version.is_none() {
            let w = SpecWarning::MissingSpecVersion {
                path: specs[i].source.file_path.clone(),
                version: owned(AUTHORED_SPEC_VERSION),
            };
            let ghost before = warnings@;
            warnings.push(w);
            proof {
                assert(warning_views(warnings@) =~= warning_views(before).push(w@));
            }
        }
        i = i + 1;
    }
    proof {
        assert(specs@.take(specs@.len() as int) =~= specs@);
    }
    warnings
}

} // verus!

verus! {

/// Some unit of the graph has key `k`.
pub open spec fn is_node(g: Seq<GraphNode>, k: UnitKey) -> bool {
    exists|i: int| 0 <= i < g.len() && #[trigger] g[i].0 == k
}

/// The last index below `n` whose key is `k`, or -1.
pub open spec fn last_with_key(g: Seq<GraphNode>, k: UnitKey, n: int) -> int
    decreases n,
{
    if n <= 0 {
        -1
    } else if g[n - 1].0 == k {
        n - 1
    } else {
        last_with_key(g, k, n - 1)
    }
}

/// The unit that speaks for key `k`: the last one with that key, as a map built
/// from the units in order keeps it.
pub open spec fn owner(g: Seq<GraphNode>, k: UnitKey) -> int {
    last_with_key(g, k, g.len() as int)
}

pub proof fn lemma_last_with_key(g: Seq<GraphNode>, k: UnitKey, n: int)
    requires
        n <= g.len(),
    ensures
        (exists|i: int| 0 <= i < n && #[trigger] g[i].0 == k) ==> 0 <= last_with_key(g, k, n) < n && g[last_with_key(g, k, n)].0 == k,
        last_with_key(g, k, n) >= 0 ==> forall|i: int| last_with_key(g, k, n) < i < n ==> #[trigger] g[i].0 != k,
        last_with_key(g, k, n) < 0 ==> forall|i: int| 0 <= i < n ==> #[trigger] g[i].0 != k,
    decreases n,
{
    if n > 0 {
        lemma_last_with_key(g, k, n - 1);
    }
}

/// `u` depends on `v`, and both are units of the graph (deps outside it are skipped).
pub open spec fn edge(g: Seq<GraphNode>, u: UnitKey, v: UnitKey) -> bool {
    is_node(g, u) && is_node(g, v) && g[owner(g, u)].1.contains(v)
}

/// Step `k` of walk `qs` follows a dependency edge.
pub open spec fn step(g: Seq<GraphNode>, qs: Seq<UnitKey>, k: int) -> bool {
    edge(g, qs[k], qs[k + 1])
}

/// A closed walk along dependency edges.
pub open spec fn is_cycle(g: Seq<GraphNode>, qs: Seq<UnitKey>) -> bool {
    &&& qs.len() >= 2
    &&& qs[0] == qs.last()
    &&& forall|k: int| 0 <= k < qs.len() - 1 ==> #[trigger] step(g, qs, k)
}

pub open spec fn acyclic(g: Seq<GraphNode>) -> bool {
    forall|qs: Seq<UnitKey>| !#[trigger] is_cycle(g, qs)
}

/// Some unit on the walk lives in another library than the first.
pub open spec fn spans_libraries(qs: Seq<UnitKey>) -> bool {
    exists|k: int| 0 <= k < qs.len() && #[trigger] qs[k].0 != qs[0].0
}

pub open spec fn authored_path(qs: Seq<UnitKey>) -> Seq<Seq<char>> {
    qs.map_values(|k: UnitKey| authored_form(k.0, k.1))
}

/// The error for walk `qs` reported in `file`: cross-library when it leaves its first library.
pub open spec fn cycle_error_in(qs: Seq<UnitKey>, file: Seq<char>) -> SpecErrorView {
    if spans_libraries(qs) {
        SpecErrorView::CrossLibraryCycle { cycle_path: authored_path(qs), path: file }
    } else {
        SpecErrorView::CyclicDep { cycle_path: authored_path(qs), path: file }
    }
}

/// The error that reports cycle `qs`, in the file of the unit that closes it.
pub open spec fn cycle_error(g: Seq<GraphNode>, qs: Seq<UnitKey>) -> SpecErrorView {
    cycle_error_in(qs, g[owner(g, qs[qs.len() - 2])].2)
}

/// `e` reports a real cycle of the graph.
pub open spec fn reports_cycle(g: Seq<GraphNode>, e: SpecErrorView) -> bool {
    exists|qs: Seq<UnitKey>| is_cycle(g, qs) && e == cycle_error(g, qs)
}

pub open spec fn all_report_cycles(g: Seq<GraphNode>, es: Seq<SpecErrorView>) -> bool {
    forall|k: int| 0 <= k < es.len() ==> reports_cycle(g, #[trigger] es[k])
}

/// Every unit finished before, and only before, the units that depend on it.
pub open spec fn finish_order(g: Seq<GraphNode>, v: Seq<UnitKey>) -> bool {
    forall|i: int, w: UnitKey| 0 <= i < v.len() && #[trigger] edge(g, v[i], w) ==> v.take(i).contains(w)
}

/// Units of the graph that are neither finished nor on the walk.
pub open spec fn pending_count(g: Seq<GraphNode>, v: Seq<UnitKey>, s: Seq<UnitKey>, n: int) -> int
    decreases n,
{
    if n <= 0 {
        0
    } else {
        pending_count(g, v, s, n - 1) + if !v.contains(g[n - 1].0) && !s.contains(g[n - 1].0) {
            1int
        } else {
            0int
        }
    }
}

proof fn lemma_pending_shrinks(
    g: Seq<GraphNode>,
    v1: Seq<UnitKey>,
    s1: Seq<UnitKey>,
    v2: Seq<UnitKey>,
    s2: Seq<UnitKey>,
    n: int,
    x: int,
)
    requires
        forall|k: UnitKey| v1.contains(k) ==> v2.contains(k),
        forall|k: UnitKey| s1.contains(k) ==> s2.contains(k) || v2.contains(k),
    ensures
        pending_count(g, v2, s2, n) <= pending_count(g, v1, s1, n),
        0 <= x < n && !v1.contains(g[x].0) && !s1.contains(g[x].0) && (v2.contains(g[x].0) || s2.contains(g[x].0))
            ==> pending_count(g, v2, s2, n) < pending_count(g, v1, s1, n),
        pending_count(g, v2, s2, n) >= 0,
    decreases n,
{
    if n > 0 {
        lemma_pending_shrinks(g, v1, s1, v2, s2, n - 1, x);
    }
}

/// A finish order that covers every unit leaves no room for a cycle.
pub proof fn lemma_finish_order_acyclic(g: Seq<GraphNode>, v: Seq<UnitKey>)
    requires
        finish_order(g, v),
        v.no_duplicates(),
        forall|k: UnitKey| is_node(g, k) ==> v.contains(k),
    ensures
        acyclic(g),
{
    assert forall|qs: Seq<UnitKey>| !#[trigger] is_cycle(g, qs) by {
        if is_cycle(g, qs) {
            lemma_cycle_descends(g, v, qs, (qs.len() - 1) as int);
            assert(step(g, qs, 0));
            let i0 = v.index_of(qs[0]);
            let il = v.index_of(qs.last());
            assert(i0 == il);
        }
    }
}

proof fn lemma_cycle_descends(g: Seq<GraphNode>, v: Seq<UnitKey>, qs: Seq<UnitKey>, m: int)
    requires
        finish_order(g, v),
        v.no_duplicates(),
        forall|k: UnitKey| is_node(g, k) ==> v.contains(k),
        is_cycle(g, qs),
        0 <= m < qs.len(),
    ensures
        v.contains(qs[m]),
        v[v.index_of(qs[m])] == qs[m],
        0 <= v.index_of(qs[m]) < v.len(),
        v.index_of(qs[m]) <= v.index_of(qs[0]) - m,
    decreases m,
{
    if m == 0 {
        assert(step(g, qs, 0));
    } else {
        lemma_cycle_descends(g, v, qs, m - 1);
        assert(step(g, qs, m - 1));
        let i = v.index_of(qs[m - 1]);
        assert(v.take(i).contains(qs[m]));
        let j = choose|j: int| 0 <= j < v.take(i).len() && v.take(i)[j] == qs[m];
        assert(v[j] == qs[m]);
        assert(v.contains(qs[m]));
        assert(v.index_of(qs[m]) == j);
    }
}

} // verus!

verus! {

/// The walk `s` follows dependency edges.
pub open spec fn walk_ok(g: Seq<GraphNode>, s: Seq<UnitKey>) -> bool {
    forall|k: int| 0 <= k < s.len() - 1 ==> #[trigger] step(g, s, k)
}

/// Finished units and the current walk: each without repeats, apart, and in the graph.
pub open spec fn state_ok(g: Seq<GraphNode>, v: Seq<UnitKey>, s: Seq<UnitKey>) -> bool {
    &&& v.no_duplicates()
    &&& s.no_duplicates()
    &&& forall|x: UnitKey| #[trigger] v.contains(x) ==> is_node(g, x) && !s.contains(x)
    &&& forall|x: UnitKey| #[trigger] s.contains(x) ==> is_node(g, x)
}

fn same_library(a: &QualifiedUnitRef, b: &QualifiedUnitRef) -> (r: bool)
    ensures
        r == (a.key().0 == b.key().0),
{
    match (&a.library, &b.library) {
        (None, None) => true,
        (Some(x), Some(y)) => *x == *y,
        _ => false,
    }
}

/// The unit that speaks for `key`: the last one with that key.
fn find_owner(specs: &[QualifiedLoadedSpec<'_>], key: &QualifiedUnitRef) -> (r: Option<usize>)
    ensures
        r is None <==> !is_node(graph_of(specs@), key.key()),
        r matches Some(i) ==> i == owner(graph_of(specs@), key.key()) && i < specs@.len(),
{
    let ghost g = graph_of(specs@);
    let mut i: usize = specs.len();
    while i > 0
        invariant
            i <= specs@.len(),
            g == graph_of(specs@),
            owner(g, key.key()) == last_with_key(g, key.key(), i as int),
        decreases i,
    {
        proof {
            assert(g[i - 1] == specs@[i - 1].node());
        }
        if specs[i - 1].qualified_id.same_as(key) {
            return Some(i - 1);
        }
        i = i - 1;
    }
    proof {
        lemma_last_with_key(g, key.key(), g.len() as int);
        if is_node(g, key.key()) {
            let j = choose|j: int| 0 <= j < g.len() && #[trigger] g[j].0 == key.key();
            assert(g[j].0 == key.key());
        }
    }
    None
}

/// The first position of `w` in `s` at or after `from`, or -1.
pub open spec fn first_pos(s: Seq<UnitKey>, w: UnitKey, from: int) -> int
    decreases s.len() - from,
{
    if from < 0 || from >= s.len() {
        -1
    } else if s[from] == w {
        from
    } else {
        first_pos(s, w, from + 1)
    }
}

/// The first position of `key` in `refs`.
fn position_of(refs: &Vec<QualifiedUnitRef>, key: &QualifiedUnitRef) -> (r: Option<usize>)
    ensures
        r is None <==> !keys_of(refs@).contains(key.key()),
        r matches Some(p) ==> p < refs@.len() && keys_of(refs@)[p as int] == key.key() && p == first_pos(
            keys_of(refs@),
            key.key(),
            0,
        ),
{
    let mut i: usize = 0;
    while i < refs.len()
        invariant
            i <= refs@.len(),
            forall|k: int| 0 <= k < i ==> keys_of(refs@)[k] != key.key(),
            first_pos(keys_of(refs@), key.key(), 0) == first_pos(keys_of(refs@), key.key(), i as int),
        decreases refs@.len() - i,
    {
        if refs[i].same_as(key) {
            proof {
                assert(keys_of(refs@)[i as int] == key.key());
            }
            return Some(i);
        }
        i = i + 1;
    }
    None
}

/// The cycle error for the walk from `stack[pos]` to the end of the stack and back to `dep`.
fn cycle_report(stack: &Vec<QualifiedUnitRef>, pos: usize, dep: &QualifiedUnitRef, file: &String) -> (r: SpecError)
    requires
        pos < stack@.len(),
        keys_of(stack@)[pos as int] == dep.key(),
    ensures
        r@ == cycle_error_in(keys_of(stack@).skip(pos as int).push(dep.key()), file@),
{
    let ghost qs = keys_of(stack@).skip(pos as int).push(dep.key());
    let mut path: Vec<String> = Vec::new();
    let mut spans = false;
    let mut k: usize = pos;
    while k < stack.len()
        invariant
            pos <= k <= stack@.len(),
            pos < stack@.len(),
            qs == keys_of(stack@).skip(pos as int).push(dep.key()),
            views_of_strings(path@) == authored_path(qs.take(k - pos)),
            spans == exists|j: int| 0 <= j < k - pos && #[trigger] qs[j].0 != qs[0].0,
        decreases stack@.len() - k,
    {
        let a = stack[k].authored();
        let differs = !same_library(&stack[k], &stack[pos]);
        let ghost before = path@;
        path.push(a);
        proof {
            assert(qs[k - pos] == stack@[k as int].key());
            assert(qs[0] == stack@[pos as int].key());
            assert(views_of_strings(path@) =~= views_of_strings(before).push(a@));
            assert(qs.take(k + 1 - pos) =~= qs.take(k - pos).push(qs[k - pos]));
            assert(authored_path(qs.take(k + 1 - pos)) =~= authored_path(qs.take(k - pos)).push(authored_form(qs[k - pos].0, qs[k - pos].1)));
            if differs {
                assert(qs[k - pos].0 != qs[0].0);
            }
        }
        spans = spans || differs;
        k = k + 1;
    }
    let a = dep.authored();
    let ghost before = path@;
    path.push(a);
    proof {
        let n = qs.len() - 1;
        assert(qs[n] == dep.key());
        assert(qs[0] == dep.key());
        assert(views_of_strings(path@) =~= views_of_strings(before).push(a@));
        assert(qs.take(n + 1) =~= qs.take(n).push(qs[n]));
        assert(qs.take(n + 1) =~= qs);
        assert(authored_path(qs) =~= authored_path(qs.take(n)).push(authored_form(qs[n].0, qs[n].1)));
        assert(spans == spans_libraries(qs));
    }
    if spans {
        SpecError::CrossLibraryCycle { cycle_path: path, path: file.clone() }
    } else {
        SpecError::CyclicDep { cycle_path: path, path: file.clone() }
    }
}

} // verus!

verus! {

/// Depth-first search over the deps of `u`, from the `d`-th on, in authored order: `v`
/// holds the finished units, `s` the walk (ending in `u`), `es` the errors so far, and `m`
/// bounds what is left to visit. A dep that is no unit is skipped; a dep on the walk is a
/// back edge and gives one cycle error, the walk from that dep's place, closed by the dep,
/// reported in the file of `u`; a finished dep is skipped; any other dep is visited.
pub open spec fn dfs_deps(
    g: Seq<GraphNode>,
    u: UnitKey,
    d: int,
    v: Seq<UnitKey>,
    s: Seq<UnitKey>,
    es: Seq<SpecErrorView>,
    m: int,
) -> (Seq<UnitKey>, Seq<SpecErrorView>)
    decreases m, g[owner(g, u)].1.len() - d,
{
    let deps = g[owner(g, u)].1;
    if d < 0 || d >= deps.len() {
        (v, es)
    } else {
        let w = deps[d];
        if !is_node(g, w) {
            dfs_deps(g, u, d + 1, v, s, es, m)
        } else if s.contains(w) {
            let p = first_pos(s, w, 0);
            dfs_deps(g, u, d + 1, v, s, es.push(cycle_error_in(s.skip(p).push(w), g[owner(g, u)].2)), m)
        } else if v.contains(w) {
            dfs_deps(g, u, d + 1, v, s, es, m)
        } else {
            let m2 = pending_count(g, v, s, g.len() as int);
            if 0 <= m2 < m {
                let r = dfs_node(g, w, v, s, es, m2);
                dfs_deps(g, u, d + 1, r.0, s, r.1, m)
            } else {
                (v, es)
            }
        }
    }
}

/// Depth-first visit of unit `u` from the walk `s`: `u` joins the walk, its deps are
/// searched in authored order, and `u` is finished after them.
pub open spec fn dfs_node(
    g: Seq<GraphNode>,
    u: UnitKey,
    v: Seq<UnitKey>,
    s: Seq<UnitKey>,
    es: Seq<SpecErrorView>,
    m: int,
) -> (Seq<UnitKey>, Seq<SpecErrorView>)
    decreases m, g[owner(g, u)].1.len() + 1,
{
    if !is_node(g, u) {
        (v, es)
    } else {
        let r = dfs_deps(g, u, 0, v, s.push(u), es, m);
        (r.0.push(u), r.1)
    }
}

/// The search from the `i`-th unit on: each unit not yet finished starts a fresh walk.
pub open spec fn dfs_from(g: Seq<GraphNode>, i: int, v: Seq<UnitKey>, es: Seq<SpecErrorView>) -> (
    Seq<UnitKey>,
    Seq<SpecErrorView>,
)
    decreases g.len() - i,
{
    if i < 0 || i >= g.len() {
        (v, es)
    } else if v.contains(g[i].0) {
        dfs_from(g, i + 1, v, es)
    } else {
        let r = dfs_node(g, g[i].0, v, Seq::empty(), es, pending_count(g, v, Seq::empty(), g.len() as int));
        dfs_from(g, i + 1, r.0, r.1)
    }
}

/// The cycle errors of a depth-first search that starts at the units in order: one
/// error for each back edge it meets.
pub open spec fn dfs_cycle_errors(g: Seq<GraphNode>) -> Seq<SpecErrorView> {
    dfs_from(g, 0, Seq::empty(), Seq::empty()).1
}

/// Depth-first visit of `node`: walks its deps that are units of the graph, reports
/// each dep already on the walk as a cycle, and finishes `node` after its deps.
fn visit(
    node: &QualifiedUnitRef,
    specs: &[QualifiedLoadedSpec<'_>],
    visited: &mut Vec<QualifiedUnitRef>,
    stack: &mut Vec<QualifiedUnitRef>,
    errors: &mut Vec<SpecError>,
)
    requires
        is_node(graph_of(specs@), node.key()),
        !keys_of(old(visited)@).contains(node.key()),
        !keys_of(old(stack)@).contains(node.key()),
        walk_ok(graph_of(specs@), keys_of(old(stack)@)),
        old(stack)@.len() > 0 ==> edge(graph_of(specs@), keys_of(old(stack)@).last(), node.key()),
        state_ok(graph_of(specs@), keys_of(old(visited)@), keys_of(old(stack)@)),
        all_report_cycles(graph_of(specs@), error_views(old(errors)@)),
        old(errors)@.len() == 0 ==> finish_order(graph_of(specs@), keys_of(old(visited)@)),
    ensures
        keys_of(final(stack)@) == keys_of(old(stack)@),
        final(visited)@.len() >= old(visited)@.len(),
        keys_of(final(visited)@).take(old(visited)@.len() as int) == keys_of(old(visited)@),
        keys_of(final(visited)@).contains(node.key()),
        forall|i: int| old(visited)@.len() <= i < final(visited)@.len()
            ==> !keys_of(old(stack)@).contains(#[trigger] keys_of(final(visited)@)[i]),
        state_ok(graph_of(specs@), keys_of(final(visited)@), keys_of(old(stack)@)),
        final(errors)@.len() >= old(errors)@.len(),
        all_report_cycles(graph_of(specs@), error_views(final(errors)@)),
        final(errors)@.len() == 0 ==> finish_order(graph_of(specs@), keys_of(final(visited)@)),
        (keys_of(final(visited)@), error_views(final(errors)@)) == dfs_node(
            graph_of(specs@),
            node.key(),
            keys_of(old(visited)@),
            keys_of(old(stack)@),
            error_views(old(errors)@),
            pending_count(graph_of(specs@), keys_of(old(visited)@), keys_of(old(stack)@), specs@.len() as int),
        ),
    decreases pending_count(graph_of(specs@), keys_of(old(visited)@), keys_of(old(stack)@), specs@.len() as int),
{
    let ghost g = graph_of(specs@);
    let ghost u = node.key();
    let ghost v0 = keys_of(visited@);
    let ghost s0 = keys_of(stack@);
    let ghost e0 = errors@.len();
    let ghost ev0 = error_views(errors@);
    let ghost m0 = pending_count(g, v0, s0, specs@.len() as int);
    let owner_idx = match find_owner(specs, node) {
        Some(i) => i,
        None => {
            return;
        },
    };
    let ghost s1 = s0.push(u);
    let ghost before_stack = stack@;
    stack.push(node.duplicate());
    proof {
        assert(keys_of(stack@) =~= keys_of(before_stack).push(u));
        assert forall|k: int| 0 <= k < s1.len() - 1 implies #[trigger] step(g, s1, k) by {
            if k < s0.len() - 1 {
                assert(step(g, s0, k));
            }
        }
        assert forall|x: UnitKey| #[trigger] s1.contains(x) implies is_node(g, x) by {
            if x != u {
                let j = choose|j: int| 0 <= j < s1.len() && s1[j] == x;
                if j == s0.len() {
                    assert(s1[j] == u);
                }
                assert(s0[j] == x);
                assert(s0.contains(x));
            }
        }
        assert(s1.no_duplicates()) by {
            assert forall|i: int, j: int| 0 <= i < s1.len() && 0 <= j < s1.len() && i != j implies s1[i] != s1[j] by {
                if i == s0.len() {
                    assert(s0.contains(s1[j]) || j == s0.len());
                } else if j == s0.len() {
                    assert(s0.contains(s1[i]));
                }
            }
        }
        assert forall|x: UnitKey| #[trigger] v0.contains(x) implies is_node(g, x) && !s1.contains(x) by {
            if s1.contains(x) {
                let j = choose|j: int| 0 <= j < s1.len() && s1[j] == x;
                if j < s0.len() {
                    assert(s0.contains(x));
                }
            }
        }
        assert(g[owner_idx as int] == specs@[owner_idx as int].node());
    }
    let deps = &specs[owner_idx].qualified_deps;
    let mut d: usize = 0;
    while d < deps.len()
        invariant
            g == graph_of(specs@),
            is_node(g, u),
            u == node.key(),
            !v0.contains(u),
            !s0.contains(u),
            s1 == s0.push(u),
            owner_idx == owner(g, u),
            owner_idx < specs@.len(),
            deps@ == specs@[owner_idx as int].qualified_deps@,
            g[owner_idx as int].1 == keys_of(deps@),
            d <= deps@.len(),
            keys_of(stack@) == s1,
            walk_ok(g, s1),
            visited@.len() >= v0.len(),
            keys_of(visited@).take(v0.len() as int) == v0,
            forall|i: int| v0.len() <= i < visited@.len() ==> !s1.contains(#[trigger] keys_of(visited@)[i]),
            state_ok(g, keys_of(visited@), s1),
            errors@.len() >= e0,
            all_report_cycles(g, error_views(errors@)),
            errors@.len() == 0 ==> finish_order(g, keys_of(visited@)),
            errors@.len() == 0 ==> forall|j: int| 0 <= j < d && is_node(g, #[trigger] keys_of(deps@)[j])
                ==> keys_of(visited@).contains(keys_of(deps@)[j]),
            m0 == pending_count(g, v0, s0, specs@.len() as int),
            v0 == keys_of(old(visited)@),
            s0 == keys_of(old(stack)@),
            specs@.len() == g.len(),
            dfs_deps(g, u, 0, v0, s1, ev0, m0) == dfs_deps(g, u, d as int, keys_of(visited@), s1, error_views(errors@), m0),
        decreases deps@.len() - d,
    {
        let dep = &deps[d];
        let ghost w = dep.key();
        let ghost vd = keys_of(visited@);
        let ghost ed = errors@.len();
        let ghost edv = error_views(errors@);
        proof {
            assert(keys_of(deps@)[d as int] == w);
            assert(g[owner(g, u)].1 == keys_of(deps@));
        }
        match find_owner(specs, dep) {
            None => {
                proof {
                    assert(dfs_deps(g, u, d as int, vd, s1, edv, m0) == dfs_deps(g, u, d + 1, vd, s1, edv, m0));
                }
            },
            Some(_) => {
                match position_of(stack, dep) {
                    Some(pos) => {
                        let e = cycle_report(stack, pos, dep, &specs[owner_idx].loaded.source.file_path);
                        proof {
                            let qs = s1.skip(pos as int).push(w);
                            let n = qs.len();
                            assert(qs[0] == w);
                            assert(qs[n - 1] == w);
                            assert forall|k: int| 0 <= k < n - 1 implies #[trigger] step(g, qs, k) by {
                                if k < n - 2 {
                                    assert(step(g, s1, pos + k));
                                    assert(qs[k] == s1[pos + k]);
                                    assert(qs[k + 1] == s1[pos + k + 1]);
                                } else {
                                    assert(qs[k] == s1[s1.len() - 1]);
                                    assert(qs[k] == u);
                                    assert(keys_of(deps@).contains(w));
                                }
                            }
                            assert(is_cycle(g, qs));
                            assert(qs[n - 2] == u);
                            assert(e@ == cycle_error(g, qs));
                        }
                        let ghost before = errors@;
                        errors.push(e);
                        proof {
                            assert(error_views(errors@) =~= error_views(before).push(e@));
                            assert(keys_of(stack@) == s1);
                            assert(s1.contains(w)) by {
                                assert(s1[pos as int] == w);
                            }
                            assert(g[owner_idx as int].2 == specs@[owner_idx as int].loaded.source.file_path@);
                            assert(dfs_deps(g, u, d as int, vd, s1, edv, m0) == dfs_deps(
                                g,
                                u,
                                d + 1,
                                vd,
                                s1,
                                edv.push(e@),
                                m0,
                            ));
                            assert forall|k: int| 0 <= k < error_views(errors@).len() implies reports_cycle(g, #[trigger] error_views(errors@)[k]) by {
                                if k < before.len() {
                                    assert(error_views(before)[k] == error_views(errors@)[k]);
                                }
                            }
                        }
                    },
                    None => {
                        let seen = position_of(visited, dep);
                        if seen.is_some() {
                            proof {
                                assert(!s1.contains(w));
                                assert(vd.contains(w)) by {
                                    let p = seen.unwrap();
                                    assert(vd[p as int] == w);
                                }
                                assert(dfs_deps(g, u, d as int, vd, s1, edv, m0) == dfs_deps(g, u, d + 1, vd, s1, edv, m0));
                            }
                        }
                        if seen.is_none() {
                            proof {
                                assert(keys_of(stack@).last() == u);
                                assert(keys_of(deps@).contains(w));
                                assert(edge(g, u, w));
                                lemma_last_with_key(g, u, g.len() as int);
                                assert forall|x: UnitKey| #[trigger] v0.contains(x) implies vd.contains(x) by {
                                    let j = choose|j: int| 0 <= j < v0.len() && v0[j] == x;
                                    assert(vd.take(v0.len() as int)[j] == x);
                                }
                                assert forall|x: UnitKey| #[trigger] s0.contains(x) implies s1.contains(x) by {
                                    let j = choose|j: int| 0 <= j < s0.len() && s0[j] == x;
                                    assert(s1[j] == x);
                                }
                                assert(s1[s0.len() as int] == u);
                                assert(s1.contains(u));
                                assert(g[owner_idx as int].0 == u);
                                lemma_pending_shrinks(g, v0, s0, vd, s1, specs@.len() as int, owner_idx as int);
                                assert(pending_count(g, vd, s1, specs@.len() as int) < m0);
                                assert(keys_of(visited@) == vd);
                                assert(keys_of(stack@) == s1);
                            }
                            proof {
                                lemma_pending_shrinks(g, vd, s1, vd, s1, specs@.len() as int, 0);
                            }
                            visit(dep, specs, visited, stack, errors);
                            proof {
                                let vn = keys_of(visited@);
                                assert(!s1.contains(w));
                                assert(!vd.contains(w));
                                assert(dfs_deps(g, u, d as int, vd, s1, edv, m0) == dfs_deps(
                                    g,
                                    u,
                                    d + 1,
                                    vn,
                                    s1,
                                    error_views(errors@),
                                    m0,
                                ));
                                assert forall|i: int| v0.len() <= i < visited@.len() implies !s1.contains(#[trigger] keys_of(visited@)[i]) by {
                                    if i < vd.len() {
                                        assert(vn.take(vd.len() as int)[i] == vn[i]);
                                    }
                                }
                                assert(vn.take(v0.len() as int) =~= vd.take(v0.len() as int)) by {
                                    assert forall|i: int| 0 <= i < v0.len() implies vn[i] == vd[i] by {
                                        assert(vn.take(vd.len() as int)[i] == vn[i]);
                                    }
                                }
                                if errors@.len() == 0 {
                                    assert forall|j: int| 0 <= j <= d && is_node(g, #[trigger] keys_of(deps@)[j])
                                        implies vn.contains(keys_of(deps@)[j]) by {
                                        if j < d {
                                            let x = keys_of(deps@)[j];
                                            let t = choose|t: int| 0 <= t < vd.len() && vd[t] == x;
                                            assert(vn.take(vd.len() as int)[t] == x);
                                        }
                                    }
                                }
                            }
                        }
                    },
                }
            },
        }
        d = d + 1;
    }
    let ghost vl = keys_of(visited@);
    proof {
        assert(dfs_deps(g, u, d as int, vl, s1, error_views(errors@), m0) == (vl, error_views(errors@)));
    }
    let ghost before_pop = stack@;
    stack.pop();
    proof {
        assert(keys_of(stack@) =~= keys_of(before_pop).drop_last());
        assert(keys_of(stack@) =~= s0);
    }
    let ghost before_push = visited@;
    visited.push(node.duplicate());
    proof {
        let vf = keys_of(visited@);
        assert(vf =~= vl.push(u));
        assert(vf.take(v0.len() as int) =~= vl.take(v0.len() as int));
        assert(s1[s0.len() as int] == u);
        assert(s1.contains(u));
        assert(vl.contains(u) == false);
        assert(vf.no_duplicates()) by {
            assert forall|i: int, j: int| 0 <= i < vf.len() && 0 <= j < vf.len() && i != j implies vf[i] != vf[j] by {
                if i == vl.len() {
                    assert(vl.contains(vf[j]) || j == vl.len());
                } else if j == vl.len() {
                    assert(vl.contains(vf[i]));
                }
            }
        }
        assert forall|x: UnitKey| #[trigger] vf.contains(x) implies is_node(g, x) && !s0.contains(x) by {
            if x != u {
                let j = choose|j: int| 0 <= j < vf.len() && vf[j] == x;
                assert(vl[j] == x);
                assert(vl.contains(x));
                if s0.contains(x) {
                    assert(s1.contains(x));
                }
            }
        }
        assert forall|i: int| v0.len() <= i < vf.len() implies !s0.contains(#[trigger] vf[i]) by {
            if i < vl.len() {
                assert(vf[i] == vl[i]);
                assert(!s1.contains(vl[i]));
                if s0.contains(vl[i]) {
                    assert(s1.contains(vl[i]));
                }
            }
        }
        assert(vf[vl.len() as int] == u);
        if errors@.len() == 0 {
            assert forall|i: int, x: UnitKey| 0 <= i < vf.len() && #[trigger] edge(g, vf[i], x) implies vf.take(i).contains(x) by {
                if i < vl.len() {
                    assert(vf.take(i) =~= vl.take(i));
                    assert(vf[i] == vl[i]);
                } else {
                    assert(vf.take(i) =~= vl);
                    let j = choose|j: int| 0 <= j < keys_of(deps@).len() && keys_of(deps@)[j] == x;
                    assert(keys_of(deps@)[j] == x);
                }
            }
        }
    }
}

/// Finds the cycles of a qualified unit set by depth-first search, in unit order, deps in
/// authored order, one error per back edge. Deps that are not units of the set are
/// skipped. Each reported walk is a real cycle, and none is reported exactly when the
/// graph has no cycle.
pub fn detect_qualified_cycles(specs: &[QualifiedLoadedSpec<'_>]) -> (r: Vec<SpecError>)
    ensures
        error_views(r@) == dfs_cycle_errors(graph_of(specs@)),
        all_report_cycles(graph_of(specs@), error_views(r@)),
        r@.len() == 0 <==> acyclic(graph_of(specs@)),
{
    let ghost g = graph_of(specs@);
    let mut visited: Vec<QualifiedUnitRef> = Vec::new();
    let mut errors: Vec<SpecError> = Vec::new();
    let mut i: usize = 0;
    proof {
        assert(keys_of(visited@) =~= Seq::<UnitKey>::empty());
        assert(error_views(errors@) =~= Seq::<SpecErrorView>::empty());
    }
    while i < specs.len()
        invariant
            i <= specs@.len(),
            g == graph_of(specs@),
            state_ok(g, keys_of(visited@), Seq::<UnitKey>::empty()),
            all_report_cycles(g, error_views(errors@)),
            errors@.len() == 0 ==> finish_order(g, keys_of(visited@)),
            forall|j: int| 0 <= j < i ==> keys_of(visited@).contains(#[trigger] g[j].0),
            dfs_from(g, 0, Seq::empty(), Seq::empty()) == dfs_from(g, i as int, keys_of(visited@), error_views(errors@)),
            specs@.len() == g.len(),
        decreases specs@.len() - i,
    {
        let id = &specs[i].qualified_id;
        let ghost vb = keys_of(visited@);
        let ghost eb = error_views(errors@);
        proof {
            assert(g[i as int] == specs@[i as int].node());
        }
        let found = position_of(&visited, id);
        if found.is_some() {
            proof {
                assert(vb[found.unwrap() as int] == g[i as int].0);
                assert(dfs_from(g, i as int, vb, eb) == dfs_from(g, i + 1, vb, eb));
            }
        }
        if found.is_none() {
            let mut stack: Vec<QualifiedUnitRef> = Vec::new();
            proof {
                assert(keys_of(stack@) =~= Seq::<UnitKey>::empty());
                assert(g[i as int].0 == id.key());
            }
            visit(id, specs, &mut visited, &mut stack, &mut errors);
            proof {
                let vn = keys_of(visited@);
                assert(dfs_from(g, i as int, vb, eb) == dfs_from(g, i + 1, vn, error_views(errors@)));
                assert forall|j: int| 0 <= j < i implies vn.contains(#[trigger] g[j].0) by {
                    let t = choose|t: int| 0 <= t < vb.len() && vb[t] == g[j].0;
                    assert(vn.take(vb.len() as int)[t] == g[j].0);
                }
            }
        }
        i = i + 1;
    }
    proof {
        assert(dfs_from(g, i as int, keys_of(visited@), error_views(errors@)) == (keys_of(visited@), error_views(errors@)));
        if errors@.len() == 0 {
            assert forall|k: UnitKey| is_node(g, k) implies keys_of(visited@).contains(k) by {
                let j = choose|j: int| 0 <= j < g.len() && #[trigger] g[j].0 == k;
            }
            lemma_finish_order_acyclic(g, keys_of(visited@));
        } else {
            assert(reports_cycle(g, error_views(errors@)[0]));
            let qs = choose|qs: Seq<UnitKey>| is_cycle(g, qs) && error_views(errors@)[0] == cycle_error(g, qs);
            assert(!acyclic(g));
        }
    }
    errors
}

} // verus!

verus! {

/// The error for a unit whose top-level deps do not all parse, if any.
pub open spec fn local_error(l: LoadedSpec) -> Option<SpecErrorView> {
    let ds = top_level_dep_seq(l);
    match first_match(ds, dep_invalid_pred(), 0) {
        Some(i) => Some(SpecErrorView::SemanticValidation {
            message: dep_failure_text(ds[i], failure_of(ds[i])),
            path: l.source.file_path@,
        }),
        None => None,
    }
}

/// The local graph node of a unit whose deps parse.
pub open spec fn local_node(l: LoadedSpec) -> GraphNode {
    (
        (None::<Seq<char>>, l.spec.id@),
        top_level_dep_seq(l).map_values(|d: Seq<char>| parsed_of(d)),
        l.source.file_path@,
    )
}

/// The dep errors of the units that cannot be placed in the local graph.
pub open spec fn local_errors(s: Seq<LoadedSpec>) -> Seq<SpecErrorView>
    decreases s.len(),
{
    if s.len() == 0 {
        Seq::empty()
    } else {
        match local_error(s.last()) {
            Some(e) => local_errors(s.drop_last()).push(e),
            None => local_errors(s.drop_last()),
        }
    }
}

/// The local graph of the units whose deps parse, in order.
pub open spec fn local_graph(s: Seq<LoadedSpec>) -> Seq<GraphNode>
    decreases s.len(),
{
    if s.len() == 0 {
        Seq::empty()
    } else {
        match local_error(s.last()) {
            Some(_) => local_graph(s.drop_last()),
            None => local_graph(s.drop_last()).push(local_node(s.last())),
        }
    }
}

/// Scopes every unit locally; those whose deps do not parse become errors.
fn scope_locally<'a>(specs: &'a [LoadedSpec]) -> (r: (Vec<QualifiedLoadedSpec<'a>>, Vec<SpecError>))
    ensures
        graph_of(r.0@) == local_graph(specs@),
        error_views(r.1@) == local_errors(specs@),
{
    let mut scoped: Vec<QualifiedLoadedSpec<'a>> = Vec::new();
    let mut errors: Vec<SpecError> = Vec::new();
    let mut i: usize = 0;
    while i < specs.len()
        invariant
            i <= specs@.len(),
            graph_of(scoped@) == local_graph(specs@.take(i as int)),
            error_views(errors@) == local_errors(specs@.take(i as int)),
        decreases specs@.len() - i,
    {
        proof {
            assert(specs@.take(i + 1).drop_last() =~= specs@.take(i as int));
            assert(specs@.take(i + 1).last() == specs@[i as int]);
        }
        match QualifiedLoadedSpec::local(&specs[i]) {
            Ok(q) => {
                let ghost before = scoped@;
                scoped.push(q);
                proof {
                    assert(graph_of(scoped@) =~= graph_of(before).push(q.node()));
                    assert(q.node() == local_node(specs@[i as int]));
                }
            },
            Err(e) => {
                let err = SpecError::SemanticValidation { message: e.message(), path: specs[i].source.file_path.clone() };
                let ghost before = errors@;
                errors.push(err);
                proof {
                    assert(error_views(errors@) =~= error_views(before).push(err@));
                }
            },
        }
        i = i + 1;
    }
    proof {
        assert(specs@.take(specs@.len() as int) =~= specs@);
    }
    (scoped, errors)
}

fn append_errors(out: &mut Vec<SpecError>, more: Vec<SpecError>)
    ensures
        error_views(final(out)@) == error_views(old(out)@) + error_views(more@),
{
    let mut more = more;
    let ghost a = error_views(out@);
    let ghost b = error_views(more@);
    out.append(&mut more);
    proof {
        assert(error_views(out@) =~= a + b);
    }
}

/// Cycle detection over the local graph of a plain unit set. Units whose deps do
/// not parse are reported first and left out of the graph.
pub fn detect_cycles(specs: &[LoadedSpec]) -> (r: Vec<SpecError>)
    ensures
        error_views(r@) == local_errors(specs@) + dfs_cycle_errors(local_graph(specs@)),
        r@.len() >= local_errors(specs@).len(),
        error_views(r@).take(local_errors(specs@).len() as int) == local_errors(specs@),
        all_report_cycles(local_graph(specs@), error_views(r@).skip(local_errors(specs@).len() as int)),
        r@.len() == local_errors(specs@).len() <==> acyclic(local_graph(specs@)),
{
    let (scoped, mut errors) = scope_locally(specs);
    let ghost pre = error_views(errors@);
    let cycles = detect_qualified_cycles(scoped.as_slice());
    let ghost c = error_views(cycles@);
    append_errors(&mut errors, cycles);
    proof {
        assert(error_views(errors@).take(pre.len() as int) =~= pre);
        assert(error_views(errors@).skip(pre.len() as int) =~= c);
        assert(error_views(errors@) =~= pre + c);
    }
    errors
}

} // verus!

verus! {

/// The deps among `deps` that are no unit of `g`, each with the file that names it.
pub open spec fn missing_in(g: Seq<GraphNode>, deps: Seq<UnitKey>, file: Seq<char>) -> Seq<(UnitKey, Seq<char>)>
    decreases deps.len(),
{
    if deps.len() == 0 {
        Seq::empty()
    } else {
        let prev = missing_in(g, deps.drop_last(), file);
        if is_node(g, deps.last()) {
            prev
        } else {
            prev.push((deps.last(), file))
        }
    }
}

/// Every missing dep of the first `n` units, in unit order, then dep order.
pub open spec fn missing_refs(g: Seq<GraphNode>, n: int) -> Seq<(UnitKey, Seq<char>)>
    decreases n,
{
    if n <= 0 {
        Seq::empty()
    } else {
        missing_refs(g, n - 1) + missing_in(g, g[n - 1].1, g[n - 1].2)
    }
}

/// A missing dep as an error: cross-library when it names a library.
pub open spec fn missing_error(m: (UnitKey, Seq<char>)) -> SpecErrorView {
    if m.0.0 is Some {
        SpecErrorView::CrossLibraryDepNotFound { dep: authored_form(m.0.0, m.0.1), path: m.1 }
    } else {
        SpecErrorView::MissingDep { dep: authored_form(m.0.0, m.0.1), path: m.1 }
    }
}

pub open spec fn missing_warning(m: (UnitKey, Seq<char>)) -> SpecWarningView {
    SpecWarningView::MissingDep { dep: authored_form(m.0.0, m.0.1), path: m.1 }
}

fn missing_of_unit(
    specs: &[QualifiedLoadedSpec<'_>],
    i: usize,
    strict: bool,
    errors: &mut Vec<SpecError>,
    warnings: &mut Vec<SpecWarning>,
)
    requires
        i < specs@.len(),
    ensures
        error_views(final(errors)@) == error_views(old(errors)@) + (if strict {
            missing_in(graph_of(specs@), graph_of(specs@)[i as int].1, graph_of(specs@)[i as int].2).map_values(
                |m: (UnitKey, Seq<char>)| missing_error(m),
            )
        } else {
            Seq::empty()
        }),
        warning_views(final(warnings)@) == warning_views(old(warnings)@) + (if strict {
            Seq::empty()
        } else {
            missing_in(graph_of(specs@), graph_of(specs@)[i as int].1, graph_of(specs@)[i as int].2).map_values(
                |m: (UnitKey, Seq<char>)| missing_warning(m),
            )
        }),
{
    let ghost g = graph_of(specs@);
    let ghost e0 = error_views(errors@);
    let ghost w0 = warning_views(warnings@);
    let spec = &specs[i];
    let deps = &spec.qualified_deps;
    proof {
        assert(g[i as int] == spec.node());
    }
    let mut d: usize = 0;
    while d < deps.len()
        invariant
            d <= deps@.len(),
            g == graph_of(specs@),
            g[i as int] == spec.node(),
            deps == spec.qualified_deps,
            error_views(errors@) == e0 + (if strict {
                missing_in(g, keys_of(deps@).take(d as int), spec.loaded.source.file_path@).map_values(
                    |m: (UnitKey, Seq<char>)| missing_error(m),
                )
            } else {
                Seq::empty()
            }),
            warning_views(warnings@) == w0 + (if strict {
                Seq::empty()
            } else {
                missing_in(g, keys_of(deps@).take(d as int), spec.loaded.source.file_path@).map_values(
                    |m: (UnitKey, Seq<char>)| missing_warning(m),
                )
            }),
        decreases deps@.len() - d,
    {
        let dep = &deps[d];
        let ghost file = spec.loaded.source.file_path@;
        let ghost mprev = missing_in(g, keys_of(deps@).take(d as int), file);
        proof {
            assert(keys_of(deps@).take(d + 1).drop_last() =~= keys_of(deps@).take(d as int));
            assert(keys_of(deps@).take(d + 1).last() == dep.key());
        }
        if find_owner(specs, dep).is_none() {
            if strict {
                let e = if dep.library.is_some() {
                    SpecError::CrossLibraryDepNotFound { dep: dep.authored(), path: spec.loaded.source.file_path.clone() }
                } else {
                    SpecError::MissingDep { dep: dep.authored(), path: spec.loaded.source.file_path.clone() }
                };
                let ghost before = errors@;
                errors.push(e);
                proof {
                    assert(e@ == missing_error((dep.key(), file)));
                    assert(error_views(errors@) =~= error_views(before).push(e@));
                    assert(mprev.push((dep.key(), file)).map_values(|m: (UnitKey, Seq<char>)| missing_error(m))
                        =~= mprev.map_values(|m: (UnitKey, Seq<char>)| missing_error(m)).push(missing_error((dep.key(), file))));
                }
            } else {
                let w = SpecWarning::MissingDep { dep: dep.authored(), path: spec.loaded.source.file_path.clone() };
                let ghost before = warnings@;
                warnings.push(w);
                proof {
                    assert(warning_views(warnings@) =~= warning_views(before).push(w@));
                    assert(mprev.push((dep.key(), file)).map_values(|m: (UnitKey, Seq<char>)| missing_warning(m))
                        =~= mprev.map_values(|m: (UnitKey, Seq<char>)| missing_warning(m)).push(missing_warning((dep.key(), file))));
                }
            }
        }
        d = d + 1;
    }
    proof {
        assert(keys_of(deps@).take(deps@.len() as int) =~= keys_of(deps@));
    }
}

/// Reports deps that name no unit of the set: errors when deps are strict, else
/// warnings; then every dependency cycle, as [`detect_qualified_cycles`] finds them.
pub fn validate_qualified_deps_exist_with_options(
    specs: &[QualifiedLoadedSpec<'_>],
    options: &ValidationOptions,
) -> (r: (Vec<SpecError>, Vec<SpecWarning>))
    ensures
        ({
            let g = graph_of(specs@);
            let missing = missing_refs(g, g.len() as int);
            let pre = if options.strict_deps {
                missing.map_values(|m: (UnitKey, Seq<char>)| missing_error(m))
            } else {
                Seq::empty()
            };
            &&& r.0@.len() >= pre.len()
            &&& error_views(r.0@).take(pre.len() as int) == pre
            &&& error_views(r.0@) == pre + dfs_cycle_errors(g)
            &&& all_report_cycles(g, error_views(r.0@).skip(pre.len() as int))
            &&& (r.0@.len() == pre.len() <==> acyclic(g))
            &&& warning_views(r.1@) == if options.strict_deps {
                Seq::empty()
            } else {
                missing.map_values(|m: (UnitKey, Seq<char>)| missing_warning(m))
            }
        }),
{
    let ghost g = graph_of(specs@);
    let strict = options.strict_deps;
    let mut errors: Vec<SpecError> = Vec::new();
    let mut warnings: Vec<SpecWarning> = Vec::new();
    let mut i: usize = 0;
    proof {
        assert(error_views(errors@) =~= Seq::<SpecErrorView>::empty());
        assert(warning_views(warnings@) =~= Seq::<SpecWarningView>::empty());
    }
    while i < specs.len()
        invariant
            i <= specs@.len(),
            g == graph_of(specs@),
            strict == options.strict_deps,
            error_views(errors@) == (if strict {
                missing_refs(g, i as int).map_values(|m: (UnitKey, Seq<char>)| missing_error(m))
            } else {
                Seq::empty()
            }),
            warning_views(warnings@) == (if strict {
                Seq::empty()
            } else {
                missing_refs(g, i as int).map_values(|m: (UnitKey, Seq<char>)| missing_warning(m))
            }),
        decreases specs@.len() - i,
    {
        missing_of_unit(specs, i, strict, &mut errors, &mut warnings);
        proof {
            let a = missing_refs(g, i as int);
            let b = missing_in(g, g[i as int].1, g[i as int].2);
            assert((a + b).map_values(|m: (UnitKey, Seq<char>)| missing_error(m))
                =~= a.map_values(|m: (UnitKey, Seq<char>)| missing_error(m)) + b.map_values(|m: (UnitKey, Seq<char>)| missing_error(m)));
            assert((a + b).map_values(|m: (UnitKey, Seq<char>)| missing_warning(m))
                =~= a.map_values(|m: (UnitKey, Seq<char>)| missing_warning(m)) + b.map_values(|m: (UnitKey, Seq<char>)| missing_warning(m)));
            assert(Seq::<SpecErrorView>::empty() + Seq::<SpecErrorView>::empty() =~= Seq::<SpecErrorView>::empty());
            assert(Seq::<SpecWarningView>::empty() + Seq::<SpecWarningView>::empty() =~= Seq::<SpecWarningView>::empty());
        }
        i = i + 1;
    }
    let ghost pre = error_views(errors@);
    let cycles = detect_qualified_cycles(specs);
    let ghost c = error_views(cycles@);
    append_errors(&mut errors, cycles);
    proof {
        assert(error_views(errors@).take(pre.len() as int) =~= pre);
        assert(error_views(errors@).skip(pre.len() as int) =~= c);
        assert(error_views(errors@) =~= pre + c);
    }
    (errors, warnings)
}

/// [`validate_qualified_deps_exist_with_options`] over the local graph of a plain unit
/// set; units whose deps do not parse are reported first.
pub fn validate_deps_exist_with_options(specs: &[LoadedSpec], options: &ValidationOptions) -> (r: (
    Vec<SpecError>,
    Vec<SpecWarning>,
))
    ensures
        ({
            let g = local_graph(specs@);
            let missing = missing_refs(g, g.len() as int);
            let pre = local_errors(specs@) + if options.strict_deps {
                missing.map_values(|m: (UnitKey, Seq<char>)| missing_error(m))
            } else {
                Seq::empty()
            };
            &&& r.0@.len() >= pre.len()
            &&& error_views(r.0@).take(pre.len() as int) == pre
            &&& error_views(r.0@) == pre + dfs_cycle_errors(g)
            &&& all_report_cycles(g, error_views(r.0@).skip(pre.len() as int))
            &&& (r.0@.len() == pre.len() <==> acyclic(g))
            &&& warning_views(r.1@) == if options.strict_deps {
                Seq::empty()
            } else {
                missing.map_values(|m: (UnitKey, Seq<char>)| missing_warning(m))
            }
        }),
{
    let (scoped, mut errors) = scope_locally(specs);
    let ghost a = error_views(errors@);
    let (more, warnings) = validate_qualified_deps_exist_with_options(scoped.as_slice(), options);
    let ghost b = error_views(more@);
    append_errors(&mut errors, more);
    proof {
        let g = local_graph(specs@);
        let missing = missing_refs(g, g.len() as int);
        let p2 = if options.strict_deps {
            missing.map_values(|m: (UnitKey, Seq<char>)| missing_error(m))
        } else {
            Seq::empty()
        };
        assert(error_views(errors@) =~= a + b);
        assert(b.take(p2.len() as int) == p2);
        assert(error_views(errors@).take((a + p2).len() as int) =~= a + p2) by {
            assert forall|k: int| 0 <= k < (a + p2).len() implies error_views(errors@)[k] == (a + p2)[k] by {
                if k >= a.len() {
                    assert(b.take(p2.len() as int)[k - a.len()] == b[k - a.len()]);
                }
            }
        }
        assert(error_views(errors@).skip((a + p2).len() as int) =~= b.skip(p2.len() as int));
        assert(b =~= p2 + dfs_cycle_errors(g));
        assert(error_views(errors@) =~= (a + p2) + dfs_cycle_errors(g));
    }
    (errors, warnings)
}

/// [`validate_deps_exist_with_options`] with strict deps.
pub fn validate_deps_exist(specs: &[LoadedSpec]) -> (r: (Vec<SpecError>, Vec<SpecWarning>))
    ensures
        ({
            let g = local_graph(specs@);
            let pre = local_errors(specs@) + missing_refs(g, g.len() as int).map_values(
                |m: (UnitKey, Seq<char>)| missing_error(m),
            );
            &&& r.0@.len() >= pre.len()
            &&& error_views(r.0@).take(pre.len() as int) == pre
            &&& error_views(r.0@) == pre + dfs_cycle_errors(g)
            &&& all_report_cycles(g, error_views(r.0@).skip(pre.len() as int))
            &&& (r.0@.len() == pre.len() <==> acyclic(g))
            &&& r.1@.len() == 0
        }),
{
    let r = validate_deps_exist_with_options(specs, &ValidationOptions::strict());
    proof {
        assert(warning_views(r.1@).len() == 0);
    }
    r
}

} // verus!
