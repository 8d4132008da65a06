//! The locked routing order of registered families, and how manifests must match it.
use vstd::prelude::*;
use crate::family::manifest::{strings_equal, Routing};
use crate::family::paths::{views_of, FamilyId};
use crate::text::{owned, str_eq};

verus! {

/// The family that catches every function no registered family claims.
pub const TERMINAL_UNSUPPORTED_CATCH_ALL: &'static str = "unsupported.function.v1";

pub const CHAIN3_PRECEDENCE: u64 = 1;

pub const MONOTONE_DOWN_NONNEGATIVE_PRECEDENCE: u64 = 3;

/// Where a family routes: its precedence (lower wins) and the families it must not shadow.
#[derive(Debug, Clone)]
pub struct LockedManifestRouting {
    pub precedence: u64,
    pub must_not_shadow: Vec<String>,
}

/// A registered family and its locked routing.
#[derive(Debug, Clone)]
pub struct FamilyRoute {
    pub family: String,
    pub routing: LockedManifestRouting,
}

pub open spec fn chain3_family() -> Seq<char> {
    "function.wrapper.pipeline.chain3.v1"@
}

pub open spec fn monotone_down_family() -> Seq<char> {
    "function.arithmetic_leaf.monotone_down_nonnegative.v1"@
}

pub open spec fn chain3_must_not_shadow() -> Seq<Seq<char>> {
    seq![
        "function.wrapper.pipeline.v1"@,
        "function.arithmetic_leaf.monotone_down_nonnegative.v1"@,
        "function.arithmetic_leaf.monotone_up.v1"@,
    ]
}

pub open spec fn monotone_down_must_not_shadow() -> Seq<Seq<char>> {
    seq!["function.arithmetic_leaf.monotone_up.v1"@]
}

/// A route as plain values: family, precedence, families it must not shadow.
pub open spec fn route_view(r: FamilyRoute) -> (Seq<char>, u64, Seq<Seq<char>>) {
    (r.family@, r.routing.precedence, views_of(r.routing.must_not_shadow@))
}

pub open spec fn routes_view(rs: Seq<FamilyRoute>) -> Seq<(Seq<char>, u64, Seq<Seq<char>>)> {
    rs.map_values(|r: FamilyRoute| route_view(r))
}

/// The registry, in registration order.
pub open spec fn registry() -> Seq<(Seq<char>, u64, Seq<Seq<char>>)> {
    seq![
        (chain3_family(), CHAIN3_PRECEDENCE, chain3_must_not_shadow()),
        (monotone_down_family(), MONOTONE_DOWN_NONNEGATIVE_PRECEDENCE, monotone_down_must_not_shadow()),
    ]
}

/// The registered families with their locked routing.
pub fn registered_family_routes() -> (r: Vec<FamilyRoute>)
    ensures
        routes_view(r@) == registry(),
{
    let chain3 = FamilyRoute {
        family: owned("function.wrapper.pipeline.chain3.v1"),
        routing: LockedManifestRouting {
            precedence: CHAIN3_PRECEDENCE,
            must_not_shadow: vec![
                owned("function.wrapper.pipeline.v1"),
                owned("function.arithmetic_leaf.monotone_down_nonnegative.v1"),
                owned("function.arithmetic_leaf.monotone_up.v1"),
            ],
        },
    };
    let down = FamilyRoute {
        family: owned("function.arithmetic_leaf.monotone_down_nonnegative.v1"),
        routing: LockedManifestRouting {
            precedence: MONOTONE_DOWN_NONNEGATIVE_PRECEDENCE,
            must_not_shadow: vec![owned("function.arithmetic_leaf.monotone_up.v1")],
        },
    };
    proof {
        assert(views_of(chain3.routing.must_not_shadow@) =~= chain3_must_not_shadow());
        assert(views_of(down.routing.must_not_shadow@) =~= monotone_down_must_not_shadow());
    }
    let r = vec![chain3, down];
    proof {
        assert(routes_view(r@) =~= registry());
    }
    r
}

/// `a` routes before `b`: lower precedence first, registration order among equals.
pub open spec fn routes_before(reg: Seq<(Seq<char>, u64, Seq<Seq<char>>)>, a: int, b: int) -> bool {
    reg[a].1 < reg[b].1 || (reg[a].1 == reg[b].1 && a < b)
}

/// `order` lists every registry index once, in routing order: the stable sort by precedence.
pub open spec fn is_routing_order(reg: Seq<(Seq<char>, u64, Seq<Seq<char>>)>, order: Seq<int>) -> bool {
    &&& order.len() == reg.len()
    &&& forall|k: int| 0 <= k < order.len() ==> 0 <= #[trigger] order[k] < reg.len()
    &&& forall|a: int, b: int| 0 <= a < b < order.len() ==> routes_before(reg, #[trigger] order[a], #[trigger] order[b])
}

pub open spec fn usize_ints(v: Seq<usize>) -> Seq<int> {
    v.map_values(|x: usize| x as int)
}

/// The registry indices in routing order (a stable insertion sort by precedence).
pub fn routing_order(registry: &Vec<FamilyRoute>) -> (r: Vec<usize>)
    ensures
        is_routing_order(routes_view(registry@), usize_ints(r@)),
{
    let ghost reg = routes_view(registry@);
    let mut order: Vec<usize> = Vec::new();
    let mut i: usize = 0;
    while i < registry.len()
        invariant
            i <= registry@.len(),
            reg == routes_view(registry@),
            order@.len() == i,
            forall|k: int| 0 <= k < order@.len() ==> #[trigger] order@[k] < i,
            forall|a: int, b: int| 0 <= a < b < order@.len() ==> routes_before(reg, #[trigger] order@[a] as int, #[trigger] order@[b] as int),
        decreases registry@.len() - i,
    {
        let p = registry[i].routing.precedence;
        let mut pos: usize = 0;
        while pos < order.len() && registry[order[pos]].routing.precedence <= p
            invariant
                pos <= order@.len(),
                order@.len() == i,
                i < registry@.len(),
                p == reg[i as int].1,
                reg == routes_view(registry@),
                forall|k: int| 0 <= k < order@.len() ==> #[trigger] order@[k] < i,
                forall|k: int| 0 <= k < pos ==> reg[#[trigger] order@[k] as int].1 <= p,
            decreases order@.len() - pos,
        {
            proof {
                assert(reg[order@[pos as int] as int] == route_view(registry@[order@[pos as int] as int]));
            }
            pos = pos + 1;
        }
        proof {
            if pos < order@.len() {
                assert(reg[order@[pos as int] as int] == route_view(registry@[order@[pos as int] as int]));
            }
        }
        let ghost before = order@;
        order.insert(pos, i);
        proof {
            assert(order@ == before.insert(pos as int, i));
            assert forall|a: int, b: int| 0 <= a < b < order@.len() implies routes_before(
                reg,
                #[trigger] order@[a] as int,
                #[trigger] order@[b] as int,
            ) by {
                if a < pos && b < pos {
                    assert(order@[a] == before[a] && order@[b] == before[b]);
                } else if a < pos && b == pos {
                    assert(order@[a] == before[a]);
                    assert(reg[before[a] as int].1 <= p);
                } else if a < pos {
                    assert(order@[a] == before[a] && order@[b] == before[b - 1]);
                } else if a == pos {
                    assert(order@[b] == before[b - 1]);
                    if reg[before[b - 1] as int].1 <= p {
                        assert(pos < before.len());
                        if b - 1 == pos {
                        } else {
                            assert(routes_before(reg, before[pos as int] as int, before[b - 1] as int));
                        }
                    }
                } else {
                    assert(order@[a] == before[a - 1] && order@[b] == before[b - 1]);
                }
            }
        }
        i = i + 1;
    }
    proof {
        assert forall|a: int, b: int| 0 <= a < b < usize_ints(order@).len() implies routes_before(
            reg,
            #[trigger] usize_ints(order@)[a],
            #[trigger] usize_ints(order@)[b],
        ) by {
            assert(routes_before(reg, order@[a] as int, order@[b] as int));
        }
    }
    order
}

} // verus!

verus! {

pub open spec fn terminal_family() -> Seq<char> {
    TERMINAL_UNSUPPORTED_CATCH_ALL@
}

/// The families of `reg` in the given order, then the terminal catch-all.
pub open spec fn families_in(reg: Seq<(Seq<char>, u64, Seq<Seq<char>>)>, order: Seq<int>) -> Seq<Seq<char>> {
    order.map_values(|k: int| reg[k].0).push(terminal_family())
}

/// The registered families in routing order, then the terminal catch-all.
pub fn locked_routing_order_with_terminal_from(registry: &Vec<FamilyRoute>) -> (r: Vec<String>)
    ensures
        exists|order: Seq<int>| is_routing_order(routes_view(registry@), order) && views_of(r@) == families_in(routes_view(registry@), order),
{
    let ghost reg = routes_view(registry@);
    let order = routing_order(registry);
    let mut out: Vec<String> = Vec::new();
    let mut k: usize = 0;
    while k < order.len()
        invariant
            k <= order@.len(),
            reg == routes_view(registry@),
            is_routing_order(reg, usize_ints(order@)),
            views_of(out@) == usize_ints(order@).take(k as int).map_values(|j: int| reg[j].0),
        decreases order@.len() - k,
    {
        let idx = order[k];
        proof {
            assert(usize_ints(order@)[k as int] == idx as int);
            assert(0 <= idx < registry@.len());
            assert(reg[idx as int] == route_view(registry@[idx as int]));
        }
        let ghost before = out@;
        out.push(registry[idx].family.clone());
        proof {
            assert(views_of(out@) =~= views_of(before).push(reg[idx as int].0));
            assert(usize_ints(order@).take(k + 1) =~= usize_ints(order@).take(k as int).push(idx as int));
            assert(usize_ints(order@).take(k + 1).map_values(|j: int| reg[j].0)
                =~= usize_ints(order@).take(k as int).map_values(|j: int| reg[j].0).push(reg[idx as int].0));
        }
        k = k + 1;
    }
    let ghost before = out@;
    out.push(owned(TERMINAL_UNSUPPORTED_CATCH_ALL));
    proof {
        assert(usize_ints(order@).take(order@.len() as int) =~= usize_ints(order@));
        assert(views_of(out@) =~= families_in(reg, usize_ints(order@)));
    }
    out
}

/// The locked routing order of the registry, ending in the terminal catch-all.
pub fn locked_routing_order_with_terminal() -> (r: Vec<String>)
    ensures
        views_of(r@) == seq![chain3_family(), monotone_down_family(), terminal_family()],
{
    let reg = registered_family_routes();
    let r = locked_routing_order_with_terminal_from(&reg);
    proof {
        let order = choose|order: Seq<int>| is_routing_order(routes_view(reg@), order) && views_of(r@) == families_in(routes_view(reg@), order);
        assert(routes_before(registry(), order[0], order[1]));
        assert(order[0] == 0 && order[1] == 1);
        assert(families_in(registry(), order) =~= seq![chain3_family(), monotone_down_family(), terminal_family()]);
    }
    r
}

pub open spec fn family_pred(fam: Seq<char>) -> spec_fn((Seq<char>, u64, Seq<Seq<char>>)) -> bool {
    |e: (Seq<char>, u64, Seq<Seq<char>>)| e.0 == fam
}

/// The routing of the first registered entry for `family`.
pub open spec fn locked_routing_of(reg: Seq<(Seq<char>, u64, Seq<Seq<char>>)>, family: Seq<char>) -> Option<(u64, Seq<Seq<char>>)> {
    match crate::text::first_match(reg, family_pred(family), 0) {
        Some(i) => Some((reg[i].1, reg[i].2)),
        None => None,
    }
}

pub open spec fn routing_view(r: LockedManifestRouting) -> (u64, Seq<Seq<char>>) {
    (r.precedence, views_of(r.must_not_shadow@))
}

/// The locked routing that `registry` holds for `family`.
pub fn locked_manifest_routing_in(registry: &Vec<FamilyRoute>, family: &FamilyId) -> (r: Option<LockedManifestRouting>)
    ensures
        match locked_routing_of(routes_view(registry@), family@) {
            Some(v) => r matches Some(x) && routing_view(x) == v,
            None => r is None,
        },
{
    let ghost reg = routes_view(registry@);
    let mut i: usize = 0;
    while i < registry.len()
        invariant
            i <= registry@.len(),
            reg == routes_view(registry@),
            crate::text::first_match(reg, family_pred(family@), 0) == crate::text::first_match(reg, family_pred(family@), i as int),
        decreases registry@.len() - i,
    {
        proof {
            assert(reg[i as int] == route_view(registry@[i as int]));
        }
        if str_eq(registry[i].family.as_str(), family.as_str()) {
            let routing = LockedManifestRouting {
                precedence: registry[i].routing.precedence,
                must_not_shadow: registry[i].routing.must_not_shadow.clone(),
            };
            return Some(routing);
        }
        i = i + 1;
    }
    None
}

/// The locked routing that the registry holds for `family`, if it is registered.
pub fn locked_manifest_routing(family: &FamilyId) -> (r: Option<LockedManifestRouting>)
    ensures
        match locked_routing_of(registry(), family@) {
            Some(v) => r matches Some(x) && routing_view(x) == v,
            None => r is None,
        },
{
    let reg = registered_family_routes();
    locked_manifest_routing_in(&reg, family)
}

/// A manifest's routing matches the locked one: same precedence, same families not to shadow.
pub open spec fn routing_matches(expected: Option<(u64, Seq<Seq<char>>)>, routing: Routing) -> bool {
    match expected {
        Some(e) => e.0 == routing.precedence && e.1 == views_of(routing.must_not_shadow@),
        None => false,
    }
}

pub fn manifest_matches_locked_routing_in(registry: &Vec<FamilyRoute>, family: &FamilyId, routing: &Routing) -> (r: bool)
    ensures
        r == routing_matches(locked_routing_of(routes_view(registry@), family@), *routing),
{
    match locked_manifest_routing_in(registry, family) {
        None => false,
        Some(expected) => routing.precedence == expected.precedence && strings_equal(
            &routing.must_not_shadow,
            &expected.must_not_shadow,
        ),
    }
}

/// Whether a manifest's routing is the one the registry locks for `family`.
pub fn manifest_matches_locked_routing(family: &FamilyId, routing: &Routing) -> (r: bool)
    ensures
        r == routing_matches(locked_routing_of(registry(), family@), *routing),
{
    let reg = registered_family_routes();
    manifest_matches_locked_routing_in(&reg, family, routing)
}

/// Why a manifest's routing does not match the locked one.
#[derive(Debug, Clone)]
pub enum ManifestRoutingIssue {
    UnknownFamily,
    PrecedenceMismatch { expected: u64, found: u64 },
    MustNotShadowMismatch { expected: Vec<String>, found: Vec<String> },
}

#[derive(Debug, Clone)]
pub struct ManifestRoutingDiagnostic {
    pub passed: bool,
    pub issue: Option<ManifestRoutingIssue>,
}

pub enum ManifestRoutingIssueView {
    UnknownFamily,
    PrecedenceMismatch { expected: u64, found: u64 },
    MustNotShadowMismatch { expected: Seq<Seq<char>>, found: Seq<Seq<char>> },
}

pub open spec fn issue_view(i: ManifestRoutingIssue) -> ManifestRoutingIssueView {
    match i {
        ManifestRoutingIssue::UnknownFamily => ManifestRoutingIssueView::UnknownFamily,
        ManifestRoutingIssue::PrecedenceMismatch { expected, found } => ManifestRoutingIssueView::PrecedenceMismatch {
            expected,
            found,
        },
        ManifestRoutingIssue::MustNotShadowMismatch { expected, found } => ManifestRoutingIssueView::MustNotShadowMismatch {
            expected: views_of(expected@),
            found: views_of(found@),
        },
    }
}

/// The first way a manifest's routing differs from the locked one.
pub open spec fn manifest_routing_issue(expected: Option<(u64, Seq<Seq<char>>)>, routing: Routing) -> Option<ManifestRoutingIssueView> {
    match expected {
        None => Some(ManifestRoutingIssueView::UnknownFamily),
        Some(e) => if routing.precedence != e.0 {
            Some(ManifestRoutingIssueView::PrecedenceMismatch { expected: e.0, found: routing.precedence })
        } else if views_of(routing.must_not_shadow@) != e.1 {
            Some(ManifestRoutingIssueView::MustNotShadowMismatch { expected: e.1, found: views_of(routing.must_not_shadow@) })
        } else {
            None
        },
    }
}

/// Reports whether a manifest's routing matches the locked one, and the first difference.
pub fn manifest_routing_diagnostic_in(registry: &Vec<FamilyRoute>, family: &FamilyId, routing: &Routing) -> (r: ManifestRoutingDiagnostic)
    ensures
        r.passed == (manifest_routing_issue(locked_routing_of(routes_view(registry@), family@), *routing) is None),
        match manifest_routing_issue(locked_routing_of(routes_view(registry@), family@), *routing) {
            Some(v) => r.issue matches Some(i) && issue_view(i) == v,
            None => r.issue is None,
        },
{
    let expected = match locked_manifest_routing_in(registry, family) {
        None => {
            return ManifestRoutingDiagnostic { passed: false, issue: Some(ManifestRoutingIssue::UnknownFamily) };
        },
        Some(e) => e,
    };
    if routing.precedence != expected.precedence {
        return ManifestRoutingDiagnostic {
            passed: false,
            issue: Some(ManifestRoutingIssue::PrecedenceMismatch { expected: expected.precedence, found: routing.precedence }),
        };
    }
    if !strings_equal(&routing.must_not_shadow, &expected.must_not_shadow) {
        return ManifestRoutingDiagnostic {
            passed: false,
            issue: Some(ManifestRoutingIssue::MustNotShadowMismatch {
                expected: expected.must_not_shadow.clone(),
                found: routing.must_not_shadow.clone(),
            }),
        };
    }
    ManifestRoutingDiagnostic { passed: true, issue: None }
}

} // verus!

verus! {

/// What the registry's routing breaks.
#[derive(Debug, Clone)]
pub enum RegistryRoutingIssue {
    DuplicateRegisteredFamilyId { family: String },
    DuplicatePrecedence { precedence: u64, families: Vec<String> },
    MissingRegisteredSuccessor { family: String, successor: String },
    DuplicateRegisteredSuccessor { family: String, successor: String },
    RegisteredSuccessorsOutOfOrder { family: String, expected: Vec<String>, found: Vec<String> },
    UnsupportedBeforeRegisteredSuccessor { family: String },
    DuplicateUnsupportedTerminal { family: String },
}

pub enum RegistryRoutingIssueView {
    DuplicateRegisteredFamilyId { family: Seq<char> },
    DuplicatePrecedence { precedence: u64, families: Seq<Seq<char>> },
    MissingRegisteredSuccessor { family: Seq<char>, successor: Seq<char> },
    DuplicateRegisteredSuccessor { family: Seq<char>, successor: Seq<char> },
    RegisteredSuccessorsOutOfOrder { family: Seq<char>, expected: Seq<Seq<char>>, found: Seq<Seq<char>> },
    UnsupportedBeforeRegisteredSuccessor { family: Seq<char> },
    DuplicateUnsupportedTerminal { family: Seq<char> },
}

impl View for RegistryRoutingIssue {
    type V = RegistryRoutingIssueView;

    open spec fn view(&self) -> RegistryRoutingIssueView {
        match self {
            RegistryRoutingIssue::DuplicateRegisteredFamilyId { family } => RegistryRoutingIssueView::DuplicateRegisteredFamilyId {
                family: family@,
            },
            RegistryRoutingIssue::DuplicatePrecedence { precedence, families } => RegistryRoutingIssueView::DuplicatePrecedence {
                precedence: *precedence,
                families: views_of(families@),
            },
            RegistryRoutingIssue::MissingRegisteredSuccessor { family, successor } => RegistryRoutingIssueView::MissingRegisteredSuccessor {
                family: family@,
                successor: successor@,
            },
            RegistryRoutingIssue::DuplicateRegisteredSuccessor { family, successor } => RegistryRoutingIssueView::DuplicateRegisteredSuccessor {
                family: family@,
                successor: successor@,
            },
            RegistryRoutingIssue::RegisteredSuccessorsOutOfOrder { family, expected, found } => RegistryRoutingIssueView::RegisteredSuccessorsOutOfOrder {
                family: family@,
                expected: views_of(expected@),
                found: views_of(found@),
            },
            RegistryRoutingIssue::UnsupportedBeforeRegisteredSuccessor { family } => RegistryRoutingIssueView::UnsupportedBeforeRegisteredSuccessor {
                family: family@,
            },
            RegistryRoutingIssue::DuplicateUnsupportedTerminal { family } => RegistryRoutingIssueView::DuplicateUnsupportedTerminal {
                family: family@,
            },
        }
    }
}

pub open spec fn issue_views(v: Seq<RegistryRoutingIssue>) -> Seq<RegistryRoutingIssueView> {
    v.map_values(|i: RegistryRoutingIssue| i@)
}

/// How many of the first `n` entries register family `f`.
pub open spec fn count_family(reg: Seq<(Seq<char>, u64, Seq<Seq<char>>)>, f: Seq<char>, n: int) -> nat
    decreases n,
{
    if n <= 0 {
        0
    } else {
        count_family(reg, f, n - 1) + if reg[n - 1].0 == f {
            1nat
        } else {
            0nat
        }
    }
}

/// The families of the first `n` entries with precedence `p`, in registry order.
pub open spec fn families_at(reg: Seq<(Seq<char>, u64, Seq<Seq<char>>)>, p: u64, n: int) -> Seq<Seq<char>>
    decreases n,
{
    if n <= 0 {
        Seq::empty()
    } else if reg[n - 1].1 == p {
        families_at(reg, p, n - 1).push(reg[n - 1].0)
    } else {
        families_at(reg, p, n - 1)
    }
}

pub open spec fn dup_family(reg: Seq<(Seq<char>, u64, Seq<Seq<char>>)>, f: Seq<char>) -> bool {
    count_family(reg, f, reg.len() as int) > 1
}

pub open spec fn dup_precedence(reg: Seq<(Seq<char>, u64, Seq<Seq<char>>)>, p: u64) -> bool {
    families_at(reg, p, reg.len() as int).len() > 1
}

/// The duplicated family ids, once each, in string order, as issues.
pub open spec fn family_issues_as(ds: Seq<Seq<char>>) -> Seq<RegistryRoutingIssueView> {
    ds.map_values(|f: Seq<char>| RegistryRoutingIssueView::DuplicateRegisteredFamilyId { family: f })
}

/// `ds` lists exactly the duplicated families, in string order.
pub open spec fn lists_duplicate_families(reg: Seq<(Seq<char>, u64, Seq<Seq<char>>)>, ds: Seq<Seq<char>>) -> bool {
    &&& crate::family::order::lex_sorted(ds)
    &&& forall|f: Seq<char>| ds.contains(f) <==> dup_family(reg, f)
}

/// `ps` lists exactly the shared precedences, in increasing order.
pub open spec fn lists_duplicate_precedences(reg: Seq<(Seq<char>, u64, Seq<Seq<char>>)>, ps: Seq<u64>) -> bool {
    &&& crate::family::order::increasing(ps)
    &&& forall|p: u64| ps.contains(p) <==> dup_precedence(reg, p)
}

pub open spec fn precedence_issues_as(reg: Seq<(Seq<char>, u64, Seq<Seq<char>>)>, ps: Seq<u64>) -> Seq<RegistryRoutingIssueView> {
    ps.map_values(|p: u64| RegistryRoutingIssueView::DuplicatePrecedence { precedence: p, families: families_at(reg, p, reg.len() as int) })
}

proof fn lemma_count_positive(reg: Seq<(Seq<char>, u64, Seq<Seq<char>>)>, f: Seq<char>, n: int)
    requires
        n <= reg.len(),
    ensures
        count_family(reg, f, n) > 0 <==> exists|k: int| 0 <= k < n && #[trigger] reg[k].0 == f,
    decreases n,
{
    if n > 0 {
        lemma_count_positive(reg, f, n - 1);
        if reg[n - 1].0 == f {
            assert(reg[n - 1].0 == f);
        } else {
            if exists|k: int| 0 <= k < n && #[trigger] reg[k].0 == f {
                let k = choose|k: int| 0 <= k < n && #[trigger] reg[k].0 == f;
                assert(k < n - 1);
            }
        }
    }
}

proof fn lemma_families_at_nonempty(reg: Seq<(Seq<char>, u64, Seq<Seq<char>>)>, p: u64, n: int)
    requires
        n <= reg.len(),
    ensures
        families_at(reg, p, n).len() > 0 <==> exists|k: int| 0 <= k < n && #[trigger] reg[k].1 == p,
    decreases n,
{
    if n > 0 {
        lemma_families_at_nonempty(reg, p, n - 1);
        if reg[n - 1].1 != p {
            if exists|k: int| 0 <= k < n && #[trigger] reg[k].1 == p {
                let k = choose|k: int| 0 <= k < n && #[trigger] reg[k].1 == p;
                assert(k < n - 1);
            }
        }
    }
}

fn count_family_exec(registry: &Vec<FamilyRoute>, f: &String) -> (r: u64)
    ensures
        r as nat == count_family(routes_view(registry@), f@, registry@.len() as int) || (r == u64::MAX
            && count_family(routes_view(registry@), f@, registry@.len() as int) >= u64::MAX),
{
    let ghost reg = routes_view(registry@);
    let mut c: u64 = 0;
    let mut i: usize = 0;
    while i < registry.len()
        invariant
            i <= registry@.len(),
            reg == routes_view(registry@),
            c as nat == count_family(reg, f@, i as int) || (c == u64::MAX && count_family(reg, f@, i as int) >= u64::MAX),
        decreases registry@.len() - i,
    {
        proof {
            assert(reg[i as int] == route_view(registry@[i as int]));
        }
        if registry[i].family == *f && c < u64::MAX {
            c = c + 1;
        }
        i = i + 1;
    }
    c
}

/// The duplicated family ids in string order.
fn duplicate_families(registry: &Vec<FamilyRoute>) -> (r: Vec<String>)
    ensures
        lists_duplicate_families(routes_view(registry@), views_of(r@)),
{
    let ghost reg = routes_view(registry@);
    let mut ds: Vec<String> = Vec::new();
    let mut i: usize = 0;
    while i < registry.len()
        invariant
            i <= registry@.len(),
            reg == routes_view(registry@),
            crate::family::order::lex_sorted(views_of(ds@)),
            forall|f: Seq<char>| #[trigger] views_of(ds@).contains(f) ==> dup_family(reg, f),
            forall|k: int| 0 <= k < i && dup_family(reg, #[trigger] reg[k].0) ==> views_of(ds@).contains(reg[k].0),
        decreases registry@.len() - i,
    {
        let f = &registry[i].family;
        proof {
            assert(reg[i as int] == route_view(registry@[i as int]));
        }
        let c = count_family_exec(registry, f);
        if c > 1 && !crate::validator::contains_string(&ds, f) {
            let fc = crate::text::chars_of(f.as_str());
            let mut pos: usize = 0;
            while pos < ds.len() && !crate::family::order::lex_less(&fc, &crate::text::chars_of(ds[pos].as_str()))
                invariant
                    pos <= ds@.len(),
                    fc@ == f@,
                    !views_of(ds@).contains(f@),
                    crate::family::order::lex_sorted(views_of(ds@)),
                    forall|k: int| 0 <= k < pos ==> crate::family::order::lex_lt(#[trigger] views_of(ds@)[k], f@),
                decreases ds@.len() - pos,
            {
                proof {
                    crate::family::order::lemma_lex_total(f@, ds@[pos as int]@);
                    assert(views_of(ds@)[pos as int] == ds@[pos as int]@);
                    if views_of(ds@)[pos as int] == f@ {
                        assert(views_of(ds@).contains(f@));
                    }
                }
                pos = pos + 1;
            }
            let ghost before = views_of(ds@);
            ds.insert(pos, f.clone());
            proof {
                let after = views_of(ds@);
                assert(after =~= before.insert(pos as int, f@));
                assert forall|a: int, b: int| 0 <= a < b < after.len() implies crate::family::order::lex_lt(#[trigger] after[a], #[trigger] after[b]) by {
                    if b < pos {
                    } else if a < pos && b == pos {
                    } else if a < pos {
                        assert(after[b] == before[b - 1]);
                        crate::family::order::lemma_lex_transitive(before[a], f@, before[pos as int]);
                        if b - 1 > pos {
                            crate::family::order::lemma_lex_transitive(before[a], before[pos as int], before[b - 1]);
                        }
                    } else if a == pos {
                        assert(after[b] == before[b - 1]);
                        assert(crate::family::order::lex_lt(f@, before[pos as int]));
                        if b - 1 > pos {
                            crate::family::order::lemma_lex_transitive(f@, before[pos as int], before[b - 1]);
                        }
                    } else {
                        assert(after[a] == before[a - 1] && after[b] == before[b - 1]);
                    }
                }
                assert forall|g: Seq<char>| #[trigger] after.contains(g) implies dup_family(reg, g) by {
                    let t = choose|t: int| 0 <= t < after.len() && after[t] == g;
                    if t < pos {
                        assert(before[t] == g);
                        assert(before.contains(g));
                    } else if t > pos {
                        assert(before[t - 1] == g);
                        assert(before.contains(g));
                    } else {
                        assert(g == f@);
                        assert(f@ == reg[i as int].0);
                        assert(dup_family(reg, f@));
                    }
                }
                assert forall|k: int| 0 <= k < i + 1 && dup_family(reg, #[trigger] reg[k].0) implies after.contains(reg[k].0) by {
                    if k < i {
                        let t = choose|t: int| 0 <= t < before.len() && before[t] == reg[k].0;
                        if t < pos {
                            assert(after[t] == reg[k].0);
                        } else {
                            assert(after[t + 1] == reg[k].0);
                        }
                    } else {
                        assert(after[pos as int] == f@);
                    }
                }
            }
        } else {
            proof {
                assert forall|k: int| 0 <= k < i + 1 && dup_family(reg, #[trigger] reg[k].0) implies views_of(ds@).contains(reg[k].0) by {
                    if k == i {
                        if c <= 1 {
                            assert(!dup_family(reg, reg[k].0));
                        }
                    }
                }
            }
        }
        i = i + 1;
    }
    proof {
        assert forall|f: Seq<char>| dup_family(reg, f) implies views_of(ds@).contains(f) by {
            lemma_count_positive(reg, f, reg.len() as int);
            let k = choose|k: int| 0 <= k < reg.len() && #[trigger] reg[k].0 == f;
        }
    }
    ds
}

} // verus!

verus! {

fn families_at_exec(registry: &Vec<FamilyRoute>, p: u64) -> (r: Vec<String>)
    ensures
        views_of(r@) == families_at(routes_view(registry@), p, registry@.len() as int),
{
    let ghost reg = routes_view(registry@);
    let mut out: Vec<String> = Vec::new();
    let mut i: usize = 0;
    while i < registry.len()
        invariant
            i <= registry@.len(),
            reg == routes_view(registry@),
            views_of(out@) == families_at(reg, p, i as int),
        decreases registry@.len() - i,
    {
        proof {
            assert(reg[i as int] == route_view(registry@[i as int]));
        }
        if registry[i].routing.precedence == p {
            let ghost before = out@;
            out.push(registry[i].family.clone());
            proof {
                assert(views_of(out@) =~= views_of(before).push(reg[i as int].0));
            }
        }
        i = i + 1;
    }
    out
}

/// The precedences that more than one family shares, in increasing order.
fn duplicate_precedences(registry: &Vec<FamilyRoute>) -> (r: Vec<u64>)
    ensures
        lists_duplicate_precedences(routes_view(registry@), r@),
{
    let ghost reg = routes_view(registry@);
    let mut ps: Vec<u64> = Vec::new();
    let mut i: usize = 0;
    while i < registry.len()
        invariant
            i <= registry@.len(),
            reg == routes_view(registry@),
            crate::family::order::increasing(ps@),
            forall|p: u64| #[trigger] ps@.contains(p) ==> dup_precedence(reg, p),
            forall|k: int| 0 <= k < i && dup_precedence(reg, #[trigger] reg[k].1) ==> ps@.contains(reg[k].1),
        decreases registry@.len() - i,
    {
        let p = registry[i].routing.precedence;
        proof {
            assert(reg[i as int] == route_view(registry@[i as int]));
        }
        let fams = families_at_exec(registry, p);
        let mut known = false;
        let mut j: usize = 0;
        while j < ps.len()
            invariant
                j <= ps@.len(),
                known == exists|t: int| 0 <= t < j && ps@[t] == p,
            decreases ps@.len() - j,
        {
            if ps[j] == p {
                known = true;
            }
            j = j + 1;
        }
        if fams.len() > 1 && !known {
            let mut pos: usize = 0;
            while pos < ps.len() && ps[pos] < p
                invariant
                    pos <= ps@.len(),
                    forall|k: int| 0 <= k < pos ==> #[trigger] ps@[k] < p,
                decreases ps@.len() - pos,
            {
                pos = pos + 1;
            }
            let ghost before = ps@;
            ps.insert(pos, p);
            proof {
                let after = ps@;
                assert(after =~= before.insert(pos as int, p));
                assert(!before.contains(p));
                assert forall|a: int, b: int| 0 <= a < b < after.len() implies #[trigger] after[a] < #[trigger] after[b] by {
                    if b < pos {
                    } else if a < pos && b == pos {
                    } else if a < pos {
                        assert(after[b] == before[b - 1]);
                        assert(before[pos as int] != p);
                    } else if a == pos {
                        assert(after[b] == before[b - 1]);
                        assert(before[pos as int] != p);
                        assert(before[pos as int] >= p);
                        if b - 1 > pos {
                            assert(before[pos as int] < before[b - 1]);
                        }
                    } else {
                        assert(after[a] == before[a - 1] && after[b] == before[b - 1]);
                    }
                }
                assert forall|q: u64| #[trigger] after.contains(q) implies dup_precedence(reg, q) by {
                    let t = choose|t: int| 0 <= t < after.len() && after[t] == q;
                    if t < pos {
                        assert(before[t] == q);
                        assert(before.contains(q));
                    } else if t > pos {
                        assert(before[t - 1] == q);
                        assert(before.contains(q));
                    }
                }
                assert forall|k: int| 0 <= k < i + 1 && dup_precedence(reg, #[trigger] reg[k].1) implies after.contains(reg[k].1) by {
                    if k < i {
                        let t = choose|t: int| 0 <= t < before.len() && before[t] == reg[k].1;
                        if t < pos {
                            assert(after[t] == reg[k].1);
                        } else {
                            assert(after[t + 1] == reg[k].1);
                        }
                    } else {
                        assert(after[pos as int] == p);
                    }
                }
            }
        } else {
            proof {
                assert forall|k: int| 0 <= k < i + 1 && dup_precedence(reg, #[trigger] reg[k].1) implies ps@.contains(reg[k].1) by {
                    if k == i && known {
                        let t = choose|t: int| 0 <= t < ps@.len() && ps@[t] == p;
                        assert(ps@[t] == p);
                    }
                }
            }
        }
        i = i + 1;
    }
    proof {
        assert forall|p: u64| dup_precedence(reg, p) implies ps@.contains(p) by {
            lemma_families_at_nonempty(reg, p, reg.len() as int);
            let k = choose|k: int| 0 <= k < reg.len() && #[trigger] reg[k].1 == p;
        }
    }
    ps
}

} // verus!

verus! {

/// Some entry of the registry registers `f`.
pub open spec fn registered(reg: Seq<(Seq<char>, u64, Seq<Seq<char>>)>, f: Seq<char>) -> bool {
    exists|k: int| 0 <= k < reg.len() && #[trigger] reg[k].0 == f
}

/// The entries of `mns` that name registered families, in order.
pub open spec fn observed(reg: Seq<(Seq<char>, u64, Seq<Seq<char>>)>, mns: Seq<Seq<char>>) -> Seq<Seq<char>>
    decreases mns.len(),
{
    if mns.len() == 0 {
        Seq::empty()
    } else if registered(reg, mns.last()) {
        observed(reg, mns.drop_last()).push(mns.last())
    } else {
        observed(reg, mns.drop_last())
    }
}

/// Every entry of `s` that repeats an earlier one, in order.
pub open spec fn repeated(s: Seq<Seq<char>>) -> Seq<Seq<char>>
    decreases s.len(),
{
    if s.len() == 0 {
        Seq::empty()
    } else if s.drop_last().contains(s.last()) {
        repeated(s.drop_last()).push(s.last())
    } else {
        repeated(s.drop_last())
    }
}

/// The entries of `expected` that `obs` lacks, in order.
pub open spec fn lacking(expected: Seq<Seq<char>>, obs: Seq<Seq<char>>) -> Seq<Seq<char>>
    decreases expected.len(),
{
    if expected.len() == 0 {
        Seq::empty()
    } else if obs.contains(expected.last()) {
        lacking(expected.drop_last(), obs)
    } else {
        lacking(expected.drop_last(), obs).push(expected.last())
    }
}

pub open spec fn terminal_count(mns: Seq<Seq<char>>) -> nat
    decreases mns.len(),
{
    if mns.len() == 0 {
        0
    } else {
        terminal_count(mns.drop_last()) + if mns.last() == terminal_family() {
            1nat
        } else {
            0nat
        }
    }
}

pub open spec fn registered_after(reg: Seq<(Seq<char>, u64, Seq<Seq<char>>)>, mns: Seq<Seq<char>>, p: int) -> bool {
    exists|q: int| p < q < mns.len() && registered(reg, #[trigger] mns[q])
}

/// The families that route after position `k` of `order`.
pub open spec fn successors(reg: Seq<(Seq<char>, u64, Seq<Seq<char>>)>, order: Seq<int>, k: int) -> Seq<Seq<char>> {
    order.skip(k + 1).map_values(|j: int| reg[j].0)
}

/// What the routing of the family at position `k` of `order` breaks, in checking order.
pub open spec fn harness_issues(reg: Seq<(Seq<char>, u64, Seq<Seq<char>>)>, order: Seq<int>, k: int) -> Seq<RegistryRoutingIssueView> {
    let e = reg[order[k]];
    let fam = e.0;
    let mns = e.2;
    let expected = successors(reg, order, k);
    let obs = observed(reg, mns);
    let uniq = crate::graph::ordered_unique(obs);
    repeated(obs).map_values(|s: Seq<char>| RegistryRoutingIssueView::DuplicateRegisteredSuccessor { family: fam, successor: s })
        + lacking(expected, obs).map_values(
        |s: Seq<char>| RegistryRoutingIssueView::MissingRegisteredSuccessor { family: fam, successor: s },
    ) + if uniq != expected {
        seq![RegistryRoutingIssueView::RegisteredSuccessorsOutOfOrder { family: fam, expected, found: uniq }]
    } else {
        Seq::empty()
    } + terminal_issues(reg, fam, mns)
}

pub open spec fn all_harness_issues(reg: Seq<(Seq<char>, u64, Seq<Seq<char>>)>, order: Seq<int>, n: int) -> Seq<RegistryRoutingIssueView>
    decreases n,
{
    if n <= 0 {
        Seq::empty()
    } else {
        all_harness_issues(reg, order, n - 1) + harness_issues(reg, order, n - 1)
    }
}

fn registered_exec(registry: &Vec<FamilyRoute>, f: &String) -> (r: bool)
    ensures
        r == registered(routes_view(registry@), f@),
{
    let ghost reg = routes_view(registry@);
    let mut i: usize = 0;
    while i < registry.len()
        invariant
            i <= registry@.len(),
            reg == routes_view(registry@),
            forall|k: int| 0 <= k < i ==> reg[k].0 != f@,
        decreases registry@.len() - i,
    {
        proof {
            assert(reg[i as int] == route_view(registry@[i as int]));
        }
        if registry[i].family == *f {
            proof {
                assert(reg[i as int].0 == f@);
            }
            return true;
        }
        i = i + 1;
    }
    false
}

fn push_issue(out: &mut Vec<RegistryRoutingIssue>, issue: RegistryRoutingIssue)
    ensures
        issue_views(final(out)@) == issue_views(old(out)@).push(issue@),
{
    let ghost before = out@;
    out.push(issue);
    proof {
        assert(issue_views(out@) =~= issue_views(before).push(issue@));
    }
}

fn observed_exec(registry: &Vec<FamilyRoute>, mns: &Vec<String>) -> (r: Vec<String>)
    ensures
        views_of(r@) == observed(routes_view(registry@), views_of(mns@)),
{
    let ghost reg = routes_view(registry@);
    let ghost m = views_of(mns@);
    let mut obs: Vec<String> = Vec::new();
    let mut i: usize = 0;
    while i < mns.len()
        invariant
            i <= mns@.len(),
            reg == routes_view(registry@),
            m == views_of(mns@),
            views_of(obs@) == observed(reg, m.take(i as int)),
        decreases mns@.len() - i,
    {
        proof {
            assert(m.take(i + 1).drop_last() =~= m.take(i as int));
            assert(m.take(i + 1).last() == mns@[i as int]@);
        }
        if registered_exec(registry, &mns[i]) {
            let ghost before = obs@;
            obs.push(mns[i].clone());
            proof {
                assert(views_of(obs@) =~= views_of(before).push(mns@[i as int]@));
            }
        }
        i = i + 1;
    }
    proof {
        assert(m.take(m.len() as int) =~= m);
    }
    obs
}

fn push_repeated(family: &String, obs: &Vec<String>, out: &mut Vec<RegistryRoutingIssue>)
    ensures
        issue_views(final(out)@) == issue_views(old(out)@) + repeated(views_of(obs@)).map_values(
            |s: Seq<char>| RegistryRoutingIssueView::DuplicateRegisteredSuccessor { family: family@, successor: s },
        ),
{
    let ghost ob = views_of(obs@);
    let ghost fam = family@;
    let ghost start = issue_views(out@);
    let mut seen: Vec<String> = Vec::new();
    let mut j: usize = 0;
    proof {
        assert(views_of(seen@) =~= ob.take(0));
        assert(repeated(ob.take(0)).map_values(
            |s: Seq<char>| RegistryRoutingIssueView::DuplicateRegisteredSuccessor { family: fam, successor: s },
        ) =~= Seq::<RegistryRoutingIssueView>::empty());
    }
    while j < obs.len()
        invariant
            j <= obs@.len(),
            ob == views_of(obs@),
            views_of(seen@) == ob.take(j as int),
            fam == family@,
            issue_views(out@) == start + repeated(ob.take(j as int)).map_values(
                |s: Seq<char>| RegistryRoutingIssueView::DuplicateRegisteredSuccessor { family: fam, successor: s },
            ),
        decreases obs@.len() - j,
    {
        proof {
            assert(ob.take(j + 1).drop_last() =~= ob.take(j as int));
            assert(ob.take(j + 1).last() == obs@[j as int]@);
            assert(crate::errors::views_of_strings(seen@) == views_of(seen@));
        }
        if crate::validator::contains_string(&seen, &obs[j]) {
            push_issue(out, RegistryRoutingIssue::DuplicateRegisteredSuccessor { family: family.clone(), successor: obs[j].clone() });
            proof {
                let rep = repeated(ob.take(j as int));
                assert(repeated(ob.take(j + 1)) == rep.push(obs@[j as int]@));
                assert(rep.push(obs@[j as int]@).map_values(
                    |s: Seq<char>| RegistryRoutingIssueView::DuplicateRegisteredSuccessor { family: fam, successor: s },
                ) =~= rep.map_values(
                    |s: Seq<char>| RegistryRoutingIssueView::DuplicateRegisteredSuccessor { family: fam, successor: s },
                ).push(RegistryRoutingIssueView::DuplicateRegisteredSuccessor { family: fam, successor: obs@[j as int]@ }));
            }
        }
        let ghost bs = seen@;
        seen.push(obs[j].clone());
        proof {
            assert(views_of(seen@) =~= views_of(bs).push(obs@[j as int]@));
        }
        j = j + 1;
    }
    proof {
        assert(ob.take(ob.len() as int) =~= ob);
    }
}

fn successors_exec(registry: &Vec<FamilyRoute>, order: &Vec<usize>, k: usize) -> (r: Vec<String>)
    requires
        is_routing_order(routes_view(registry@), usize_ints(order@)),
        k < order@.len(),
    ensures
        views_of(r@) == successors(routes_view(registry@), usize_ints(order@), k as int),
{
    let ghost reg = routes_view(registry@);
    let ghost o = usize_ints(order@);
    let n = order.len();
    let mut expected: Vec<String> = Vec::new();
    let mut t: usize = k + 1;
    proof {
        assert(o.subrange(k + 1, k + 1).map_values(|jj: int| reg[jj].0) =~= Seq::<Seq<char>>::empty());
        assert(views_of(expected@) =~= Seq::<Seq<char>>::empty());
    }
    while t < n
        invariant
            k + 1 <= t <= order@.len(),
            n == order@.len(),
            reg == routes_view(registry@),
            o == usize_ints(order@),
            is_routing_order(reg, o),
            views_of(expected@) == o.subrange(k + 1, t as int).map_values(|jj: int| reg[jj].0),
        decreases order@.len() - t,
    {
        let jdx = order[t];
        proof {
            assert(o[t as int] == jdx as int);
            assert(0 <= jdx < registry@.len());
            assert(reg[jdx as int] == route_view(registry@[jdx as int]));
        }
        let ghost b = expected@;
        expected.push(registry[jdx].family.clone());
        proof {
            assert(views_of(expected@) =~= views_of(b).push(reg[jdx as int].0));
            assert(o.subrange(k + 1, t + 1) =~= o.subrange(k + 1, t as int).push(jdx as int));
            assert(o.subrange(k + 1, t + 1).map_values(|jj: int| reg[jj].0)
                =~= o.subrange(k + 1, t as int).map_values(|jj: int| reg[jj].0).push(reg[jdx as int].0));
        }
        t = t + 1;
    }
    proof {
        assert(o.subrange(k + 1, o.len() as int) =~= o.skip(k + 1));
    }
    expected
}

fn push_lacking(family: &String, expected: &Vec<String>, obs: &Vec<String>, out: &mut Vec<RegistryRoutingIssue>)
    ensures
        issue_views(final(out)@) == issue_views(old(out)@) + lacking(views_of(expected@), views_of(obs@)).map_values(
            |s: Seq<char>| RegistryRoutingIssueView::MissingRegisteredSuccessor { family: family@, successor: s },
        ),
{
    let ghost ex = views_of(expected@);
    let ghost ob = views_of(obs@);
    let ghost fam = family@;
    let ghost s1 = issue_views(out@);
    let mut e: usize = 0;
    proof {
        assert(lacking(ex.take(0), ob).map_values(
            |s: Seq<char>| RegistryRoutingIssueView::MissingRegisteredSuccessor { family: fam, successor: s },
        ) =~= Seq::<RegistryRoutingIssueView>::empty());
    }
    while e < expected.len()
        invariant
            e <= expected@.len(),
            ex == views_of(expected@),
            ob == views_of(obs@),
            fam == family@,
            issue_views(out@) == s1 + lacking(ex.take(e as int), ob).map_values(
                |s: Seq<char>| RegistryRoutingIssueView::MissingRegisteredSuccessor { family: fam, successor: s },
            ),
        decreases expected@.len() - e,
    {
        proof {
            assert(ex.take(e + 1).drop_last() =~= ex.take(e as int));
            assert(ex.take(e + 1).last() == expected@[e as int]@);
            assert(crate::errors::views_of_strings(obs@) == ob);
        }
        if !crate::validator::contains_string(obs, &expected[e]) {
            push_issue(out, RegistryRoutingIssue::MissingRegisteredSuccessor { family: family.clone(), successor: expected[e].clone() });
            proof {
                let lk = lacking(ex.take(e as int), ob);
                assert(lk.push(expected@[e as int]@).map_values(
                    |s: Seq<char>| RegistryRoutingIssueView::MissingRegisteredSuccessor { family: fam, successor: s },
                ) =~= lk.map_values(
                    |s: Seq<char>| RegistryRoutingIssueView::MissingRegisteredSuccessor { family: fam, successor: s },
                ).push(RegistryRoutingIssueView::MissingRegisteredSuccessor { family: fam, successor: expected@[e as int]@ }));
            }
        }
        e = e + 1;
    }
    proof {
        assert(ex.take(ex.len() as int) =~= ex);
    }
}

/// The issues of the terminal catch-all in a family's `must_not_shadow`: listed twice,
/// or listed before a registered family.
pub open spec fn terminal_issues(reg: Seq<(Seq<char>, u64, Seq<Seq<char>>)>, fam: Seq<char>, mns: Seq<Seq<char>>) -> Seq<RegistryRoutingIssueView> {
    (if terminal_count(mns) > 1 {
        seq![RegistryRoutingIssueView::DuplicateUnsupportedTerminal { family: fam }]
    } else {
        Seq::empty()
    }) + match crate::text::first_match(mns, crate::validator::eq_pred(terminal_family()), 0) {
        Some(p) => if registered_after(reg, mns, p) {
            seq![RegistryRoutingIssueView::UnsupportedBeforeRegisteredSuccessor { family: fam }]
        } else {
            Seq::empty()
        },
        None => Seq::empty(),
    }
}

fn push_terminal_issues(registry: &Vec<FamilyRoute>, family: &String, mns: &Vec<String>, out: &mut Vec<RegistryRoutingIssue>)
    ensures
        issue_views(final(out)@) == issue_views(old(out)@) + terminal_issues(routes_view(registry@), family@, views_of(mns@)),
{
    let ghost reg = routes_view(registry@);
    let ghost m = views_of(mns@);
    let ghost start = issue_views(out@);
    let ghost fm = crate::text::first_match(m, crate::validator::eq_pred(terminal_family()), 0);
    let mut count: usize = 0;
    let mut first: Option<usize> = None;
    let mut q: usize = 0;
    let terminal = owned(TERMINAL_UNSUPPORTED_CATCH_ALL);
    while q < mns.len()
        invariant
            q <= mns@.len(),
            m == views_of(mns@),
            terminal@ == terminal_family(),
            count <= q,
            count as nat == terminal_count(m.take(q as int)),
            fm == crate::text::first_match(m, crate::validator::eq_pred(terminal_family()), 0),
            first is None ==> fm == crate::text::first_match(m, crate::validator::eq_pred(terminal_family()), q as int),
            first matches Some(fp) ==> fp < q && fm == Some(fp as int),
        decreases mns@.len() - q,
    {
        proof {
            assert(m.take(q + 1).drop_last() =~= m.take(q as int));
            assert(m.take(q + 1).last() == mns@[q as int]@);
            assert(m[q as int] == mns@[q as int]@);
        }
        if mns[q] == terminal {
            count = count + 1;
            if first.is_none() {
                first = Some(q);
            }
        }
        q = q + 1;
    }
    proof {
        assert(m.take(m.len() as int) =~= m);
    }
    if count > 1 {
        push_issue(out, RegistryRoutingIssue::DuplicateUnsupportedTerminal { family: family.clone() });
    }
    let ghost s4 = issue_views(out@);
    match first {
        Some(fp) => {
            let mut after = false;
            let mut w: usize = fp + 1;
            while w < mns.len()
                invariant
                    fp < w,
                    w <= mns@.len() || w == fp + 1,
                    fp < mns@.len(),
                    m == views_of(mns@),
                    reg == routes_view(registry@),
                    after == exists|qq: int| fp < qq < w && qq < m.len() && registered(reg, #[trigger] m[qq]),
                decreases mns@.len() - w,
            {
                proof {
                    assert(m[w as int] == mns@[w as int]@);
                }
                if registered_exec(registry, &mns[w]) {
                    after = true;
                }
                w = w + 1;
            }
            if after {
                push_issue(out, RegistryRoutingIssue::UnsupportedBeforeRegisteredSuccessor { family: family.clone() });
            }
        },
        None => {},
    }
    proof {
        assert(issue_views(out@) =~= start + terminal_issues(reg, family@, m));
    }
}

/// Appends the issues of the family at position `k` of the routing order.
fn push_harness_issues(registry: &Vec<FamilyRoute>, order: &Vec<usize>, k: usize, out: &mut Vec<RegistryRoutingIssue>)
    requires
        is_routing_order(routes_view(registry@), usize_ints(order@)),
        k < order@.len(),
    ensures
        issue_views(final(out)@) == issue_views(old(out)@) + harness_issues(routes_view(registry@), usize_ints(order@), k as int),
{
    let ghost reg = routes_view(registry@);
    let ghost o = usize_ints(order@);
    let ghost start = issue_views(out@);
    let idx = order[k];
    proof {
        assert(o[k as int] == idx as int);
        assert(reg[idx as int] == route_view(registry@[idx as int]));
    }
    let family = &registry[idx].family;
    let mns = &registry[idx].routing.must_not_shadow;
    let obs = observed_exec(registry, mns);
    push_repeated(family, &obs, out);
    let expected = successors_exec(registry, order, k);
    push_lacking(family, &expected, &obs, out);
    let mut uniq: Vec<String> = Vec::new();
    proof {
        assert(crate::errors::views_of_strings(uniq@) =~= Seq::<Seq<char>>::empty());
    }
    crate::graph::push_all_unique(&mut uniq, &obs);
    proof {
        crate::graph::lemma_unique_extend_empty(views_of(obs@));
        assert(crate::errors::views_of_strings(uniq@) == views_of(uniq@));
        assert(crate::errors::views_of_strings(obs@) == views_of(obs@));
    }
    let ghost s2 = issue_views(out@);
    if !crate::family::manifest::strings_equal(&uniq, &expected) {
        push_issue(out, RegistryRoutingIssue::RegisteredSuccessorsOutOfOrder {
            family: family.clone(),
            expected: expected.clone(),
            found: uniq,
        });
    }
    push_terminal_issues(registry, family, mns, out);
    proof {
        assert(issue_views(out@) =~= start + harness_issues(reg, o, k as int));
    }
}

} // verus!

verus! {

/// Whether the registry's routing is consistent, and every way it is not.
#[derive(Debug, Clone)]
pub struct RegistryRoutingDiagnostic {
    pub passed: bool,
    pub issues: Vec<RegistryRoutingIssue>,
}

/// Checks the registry: family ids registered once, precedences unique, and each family's
/// `must_not_shadow` naming exactly the registered families that route after it, in
/// routing order, with the terminal catch-all at most once and after them.
pub fn registry_routing_diagnostic_in(registry: &Vec<FamilyRoute>) -> (r: RegistryRoutingDiagnostic)
    ensures
        r.passed == (r.issues@.len() == 0),
        exists|ds: Seq<Seq<char>>, ps: Seq<u64>, order: Seq<int>|
            lists_duplicate_families(routes_view(registry@), ds) && lists_duplicate_precedences(routes_view(registry@), ps)
                && is_routing_order(routes_view(registry@), order) && issue_views(r.issues@) == family_issues_as(ds)
                + precedence_issues_as(routes_view(registry@), ps) + all_harness_issues(
                routes_view(registry@),
                order,
                registry@.len() as int,
            ),
{
    let ghost reg = routes_view(registry@);
    let mut issues: Vec<RegistryRoutingIssue> = Vec::new();
    let ds = duplicate_families(registry);
    let mut i: usize = 0;
    proof {
        assert(issue_views(issues@) =~= Seq::<RegistryRoutingIssueView>::empty());
    }
    while i < ds.len()
        invariant
            i <= ds@.len(),
            issue_views(issues@) == family_issues_as(views_of(ds@).take(i as int)),
        decreases ds@.len() - i,
    {
        push_issue(&mut issues, RegistryRoutingIssue::DuplicateRegisteredFamilyId { family: ds[i].clone() });
        proof {
            assert(views_of(ds@).take(i + 1) =~= views_of(ds@).take(i as int).push(ds@[i as int]@));
            assert(family_issues_as(views_of(ds@).take(i + 1)) =~= family_issues_as(views_of(ds@).take(i as int)).push(
                RegistryRoutingIssueView::DuplicateRegisteredFamilyId { family: ds@[i as int]@ },
            ));
        }
        i = i + 1;
    }
    proof {
        assert(views_of(ds@).take(ds@.len() as int) =~= views_of(ds@));
    }
    let ghost a = issue_views(issues@);
    let ps = duplicate_precedences(registry);
    let mut j: usize = 0;
    while j < ps.len()
        invariant
            j <= ps@.len(),
            reg == routes_view(registry@),
            issue_views(issues@) == a + precedence_issues_as(reg, ps@.take(j as int)),
        decreases ps@.len() - j,
    {
        let fams = families_at_exec(registry, ps[j]);
        push_issue(&mut issues, RegistryRoutingIssue::DuplicatePrecedence { precedence: ps[j], families: fams });
        proof {
            assert(ps@.take(j + 1) =~= ps@.take(j as int).push(ps@[j as int]));
            assert(precedence_issues_as(reg, ps@.take(j + 1)) =~= precedence_issues_as(reg, ps@.take(j as int)).push(
                RegistryRoutingIssueView::DuplicatePrecedence {
                    precedence: ps@[j as int],
                    families: families_at(reg, ps@[j as int], reg.len() as int),
                },
            ));
        }
        j = j + 1;
    }
    proof {
        assert(ps@.take(ps@.len() as int) =~= ps@);
    }
    let ghost b = issue_views(issues@);
    let order = routing_order(registry);
    let mut k: usize = 0;
    while k < order.len()
        invariant
            k <= order@.len(),
            order@.len() == registry@.len(),
            reg == routes_view(registry@),
            is_routing_order(reg, usize_ints(order@)),
            issue_views(issues@) == b + all_harness_issues(reg, usize_ints(order@), k as int),
        decreases order@.len() - k,
    {
        push_harness_issues(registry, &order, k, &mut issues);
        k = k + 1;
    }
    proof {
        assert(b + all_harness_issues(reg, usize_ints(order@), registry@.len() as int) =~= family_issues_as(views_of(ds@))
            + precedence_issues_as(reg, ps@) + all_harness_issues(reg, usize_ints(order@), registry@.len() as int));
    }
    let passed = issues.len() == 0;
    RegistryRoutingDiagnostic { passed, issues }
}

} // verus!
