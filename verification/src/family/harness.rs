//! The registered family harnesses: what each family's packet is scaffolded with, how it
//! routes, and which suites prove and certify it.
use vstd::prelude::*;
use crate::family::attestation::SuiteDefinition;
use crate::family::error::{XtaskError, XtaskErrorView};
use crate::family::paths::{views_of, FamilyId};
use crate::family::report::GateId;
use crate::family::routing::{
    chain3_family, chain3_must_not_shadow, is_routing_order, monotone_down_family, monotone_down_must_not_shadow,
    registry, route_view, routes_view, routing_order, usize_ints, FamilyRoute, LockedManifestRouting, CHAIN3_PRECEDENCE,
    MONOTONE_DOWN_NONNEGATIVE_PRECEDENCE,
};
use crate::text::{owned, str_eq};

verus! {

pub const CHAIN3_SUITE_SLUG: &'static str = "m21_chain3_";

pub const MONOTONE_DOWN_NONNEGATIVE_SUITE_SLUG: &'static str = "monotone_down_nonnegative_";

/// A starter fixture a packet is scaffolded with, by bucket and path within the packet.
#[derive(Debug, Clone)]
pub struct StarterCaseDefinition {
    pub bucket: String,
    pub path: String,
}

/// How a family's starter fixtures are written.
#[derive(Debug, Clone, Copy, PartialEq, Eq, Structural)]
pub enum StarterTemplate {
    GenericPlaceholder,
    ArithmeticLeafMonotoneDownNonnegative,
}

#[derive(Debug, Clone)]
pub struct ScaffoldDefinition {
    pub unit_namespace: String,
    pub template: StarterTemplate,
    pub starter_cases: Vec<StarterCaseDefinition>,
}

/// The function shape a family's manifest locks.
#[derive(Debug, Clone)]
pub struct LockedManifestShape {
    pub dep_min: u64,
    pub dep_max: u64,
    pub control_flow: String,
    pub return_style: String,
    pub loops: bool,
    pub branching: bool,
    pub requires_supported_function_deps: bool,
}

/// How a family's manifest locks argument threading.
#[derive(Debug, Clone)]
pub struct LockedManifestArgs {
    pub threading: String,
    pub allow_nested_argument_expressions: bool,
    pub allow_literal_only_extra_args: bool,
}

/// One suite of the prove step, with its gate.
#[derive(Debug, Clone, Copy)]
pub struct ProveSuiteDefinition {
    pub suite: SuiteDefinition,
    pub gate: GateId,
}

/// Everything the tooling knows of a registered family.
#[derive(Debug, Clone)]
pub struct FamilyHarness {
    pub family: String,
    pub summary: String,
    pub suite_slug: String,
    pub scaffold: ScaffoldDefinition,
    pub routing: LockedManifestRouting,
    pub shape: LockedManifestShape,
    pub args: LockedManifestArgs,
    pub prove_suites: Vec<ProveSuiteDefinition>,
    pub certify_suites: Vec<SuiteDefinition>,
}

pub open spec fn case_views(cs: Seq<StarterCaseDefinition>) -> Seq<(Seq<char>, Seq<char>)> {
    cs.map_values(|c: StarterCaseDefinition| (c.bucket@, c.path@))
}

pub open spec fn chain3_starter_cases() -> Seq<(Seq<char>, Seq<char>)> {
    seq![
        ("aligned"@, "fixtures/aligned/units/pricing/pricing_discount_leaf_aligned.unit.spec"@),
        ("aligned"@, "fixtures/aligned/units/pricing/pricing_tax_leaf_aligned.unit.spec"@),
        ("aligned"@, "fixtures/aligned/units/pricing/pricing_total_wrapper_aligned.unit.spec"@),
        ("aligned"@, "fixtures/aligned/units/pricing/checkout_chain3_aligned.unit.spec"@),
        ("drift"@, "fixtures/drift/units/pricing/pricing_discount_leaf_drift.unit.spec"@),
        ("drift"@, "fixtures/drift/units/pricing/pricing_tax_leaf_drift.unit.spec"@),
        ("drift"@, "fixtures/drift/units/pricing/pricing_total_wrapper_drift.unit.spec"@),
        ("drift"@, "fixtures/drift/units/pricing/checkout_chain3_drift.unit.spec"@),
        ("under_specified"@, "fixtures/under_specified/units/pricing/pricing_discount_leaf_under_specified.unit.spec"@),
        ("under_specified"@, "fixtures/under_specified/units/pricing/pricing_tax_leaf_under_specified.unit.spec"@),
        ("under_specified"@, "fixtures/under_specified/units/pricing/pricing_total_wrapper_under_specified.unit.spec"@),
        ("under_specified"@, "fixtures/under_specified/units/pricing/checkout_chain3_under_specified.unit.spec"@),
        ("unsupported_near_miss"@, "fixtures/unsupported_near_miss/units/pricing/pricing_discount_leaf_unsupported_near_miss.unit.spec"@),
        ("unsupported_near_miss"@, "fixtures/unsupported_near_miss/units/pricing/pricing_tax_leaf_unsupported_near_miss.unit.spec"@),
        ("unsupported_near_miss"@, "fixtures/unsupported_near_miss/units/pricing/pricing_total_wrapper_unsupported_near_miss.unit.spec"@),
        ("unsupported_near_miss"@, "fixtures/unsupported_near_miss/units/pricing/checkout_chain3_unsupported_near_miss.unit.spec"@),
    ]
}

pub open spec fn monotone_down_starter_cases() -> Seq<(Seq<char>, Seq<char>)> {
    seq![
        ("aligned"@, "fixtures/aligned/units/pricing/apply_discount_aligned.unit.spec"@),
        ("drift"@, "fixtures/drift/units/pricing/apply_discount_drift.unit.spec"@),
        ("under_specified"@, "fixtures/under_specified/units/pricing/apply_discount_under_specified.unit.spec"@),
        ("unsupported_near_miss"@, "fixtures/unsupported_near_miss/units/pricing/apply_discount_control_flow_unsupported_near_miss.unit.spec"@),
    ]
}

fn case(bucket: &str, path: &str) -> (c: StarterCaseDefinition)
    ensures
        c.bucket@ == bucket@,
        c.path@ == path@,
{
    StarterCaseDefinition { bucket: owned(bucket), path: owned(path) }
}

fn chain3_cases() -> (r: Vec<StarterCaseDefinition>)
    ensures
        case_views(r@) == chain3_starter_cases(),
{
    let r = vec![
        case("aligned", "fixtures/aligned/units/pricing/pricing_discount_leaf_aligned.unit.spec"),
        case("aligned", "fixtures/aligned/units/pricing/pricing_tax_leaf_aligned.unit.spec"),
        case("aligned", "fixtures/aligned/units/pricing/pricing_total_wrapper_aligned.unit.spec"),
        case("aligned", "fixtures/aligned/units/pricing/checkout_chain3_aligned.unit.spec"),
        case("drift", "fixtures/drift/units/pricing/pricing_discount_leaf_drift.unit.spec"),
        case("drift", "fixtures/drift/units/pricing/pricing_tax_leaf_drift.unit.spec"),
        case("drift", "fixtures/drift/units/pricing/pricing_total_wrapper_drift.unit.spec"),
        case("drift", "fixtures/drift/units/pricing/checkout_chain3_drift.unit.spec"),
        case("under_specified", "fixtures/under_specified/units/pricing/pricing_discount_leaf_under_specified.unit.spec"),
        case("under_specified", "fixtures/under_specified/units/pricing/pricing_tax_leaf_under_specified.unit.spec"),
        case("under_specified", "fixtures/under_specified/units/pricing/pricing_total_wrapper_under_specified.unit.spec"),
        case("under_specified", "fixtures/under_specified/units/pricing/checkout_chain3_under_specified.unit.spec"),
        case("unsupported_near_miss", "fixtures/unsupported_near_miss/units/pricing/pricing_discount_leaf_unsupported_near_miss.unit.spec"),
        case("unsupported_near_miss", "fixtures/unsupported_near_miss/units/pricing/pricing_tax_leaf_unsupported_near_miss.unit.spec"),
        case("unsupported_near_miss", "fixtures/unsupported_near_miss/units/pricing/pricing_total_wrapper_unsupported_near_miss.unit.spec"),
        case("unsupported_near_miss", "fixtures/unsupported_near_miss/units/pricing/checkout_chain3_unsupported_near_miss.unit.spec"),
    ];
    proof {
        assert(case_views(r@) =~= chain3_starter_cases());
    }
    r
}

fn monotone_down_cases() -> (r: Vec<StarterCaseDefinition>)
    ensures
        case_views(r@) == monotone_down_starter_cases(),
{
    let r = vec![
        case("aligned", "fixtures/aligned/units/pricing/apply_discount_aligned.unit.spec"),
        case("drift", "fixtures/drift/units/pricing/apply_discount_drift.unit.spec"),
        case("under_specified", "fixtures/under_specified/units/pricing/apply_discount_under_specified.unit.spec"),
        case("unsupported_near_miss", "fixtures/unsupported_near_miss/units/pricing/apply_discount_control_flow_unsupported_near_miss.unit.spec"),
    ];
    proof {
        assert(case_views(r@) =~= monotone_down_starter_cases());
    }
    r
}

fn chain3_prove_suites() -> (r: Vec<ProveSuiteDefinition>)
    ensures
        r@.len() == 3,
{
    vec![
        ProveSuiteDefinition {
            suite: SuiteDefinition {
                name: "spec-core:m21_chain3_classifier_",
                command: &["cargo", "test", "-p", "spec-core", "--lib", "m21_chain3_classifier_", "--", "--color", "never"],
                expected_tests: &[
                    "semantic_review::tests::m21_chain3_classifier_aligned_fixture_routes_to_chain3",
                    "semantic_review::tests::m21_chain3_classifier_drift_fixture_reports_semantic_drift",
                    "semantic_review::tests::m21_chain3_classifier_runtime_order_is_explicit",
                    "semantic_review::tests::m21_chain3_classifier_under_specified_fixture_reports_vague_truth",
                    "semantic_review::tests::m21_chain3_classifier_unsupported_near_miss_stays_unsupported",
                ],
            },
            gate: GateId::GateA,
        },
        ProveSuiteDefinition {
            suite: SuiteDefinition {
                name: "spec-cli:m21_chain3_truth_surface_",
                command: &[
                    "cargo",
                    "test",
                    "-p",
                    "spec-cli",
                    "--test",
                    "cli",
                    "m21_chain3_truth_surface_",
                    "--",
                    "--color",
                    "never",
                ],
                expected_tests: &[
                    "m21_chain3_truth_surface_command_matrix_preserves_until_spec_test_refresh",
                    "m21_chain3_truth_surface_stale_status_and_export_preserve_last_proven_review",
                ],
            },
            gate: GateId::GateC,
        },
        ProveSuiteDefinition {
            suite: SuiteDefinition {
                name: "spec-cli:m21_chain3_corpus_",
                command: &[
                    "cargo",
                    "test",
                    "-p",
                    "spec-cli",
                    "--test",
                    "m14_regressions",
                    "m21_chain3_corpus_",
                    "--",
                    "--color",
                    "never",
                ],
                expected_tests: &[
                    "m21_chain3_corpus_aligned_fixture_projects_valid_state",
                    "m21_chain3_corpus_drift_fixture_projects_failing_state",
                    "m21_chain3_corpus_under_specified_fixture_projects_incomplete_state",
                    "m21_chain3_corpus_unsupported_near_miss_stays_additive_only_and_neutral",
                ],
            },
            gate: GateId::GateB,
        },
    ]
}

fn chain3_certify_suites() -> (r: Vec<SuiteDefinition>)
    ensures
        r@.len() == 2,
{
    vec![
        SuiteDefinition {
            name: "spec-core:m21_chain3_regression_",
            command: &["cargo", "test", "-p", "spec-core", "--lib", "m21_chain3_regression_", "--", "--color", "never"],
            expected_tests: &[
                "semantic_review::tests::m21_chain3_regression_family_a_variants_are_not_shadowed",
                "semantic_review::tests::m21_chain3_regression_family_b_is_not_shadowed",
                "semantic_review::tests::m21_chain3_regression_runtime_order_matches_locked_precedence",
            ],
        },
        SuiteDefinition {
            name: "spec-cli:m21_chain3_regression_",
            command: &[
                "cargo",
                "test",
                "-p",
                "spec-cli",
                "--test",
                "m14_regressions",
                "m21_chain3_regression_",
                "--",
                "--color",
                "never",
            ],
            expected_tests: &[
                "m21_chain3_regression_family_b_read_side_surfaces_are_not_shadowed",
                "m21_chain3_regression_unsupported_near_miss_stays_additive_only_and_neutral",
            ],
        },
    ]
}

fn monotone_down_prove_suites() -> (r: Vec<ProveSuiteDefinition>)
    ensures
        r@.len() == 3,
{
    vec![
        ProveSuiteDefinition {
            suite: SuiteDefinition {
                name: "spec-core:monotone_down_nonnegative_classifier_",
                command: &[
                    "cargo",
                    "test",
                    "-p",
                    "spec-core",
                    "--lib",
                    "monotone_down_nonnegative_classifier_",
                    "--",
                    "--color",
                    "never",
                ],
                expected_tests: &[
                    "semantic_review::tests::monotone_down_nonnegative_classifier_aligned_fixture_routes_to_promoted_leaf",
                    "semantic_review::tests::monotone_down_nonnegative_classifier_drift_fixture_reports_semantic_drift",
                    "semantic_review::tests::monotone_down_nonnegative_classifier_under_specified_fixture_reports_vague_truth",
                    "semantic_review::tests::monotone_down_nonnegative_classifier_unsupported_near_miss_stays_unsupported",
                ],
            },
            gate: GateId::GateA,
        },
        ProveSuiteDefinition {
            suite: SuiteDefinition {
                name: "spec-cli:monotone_down_nonnegative_truth_surface_",
                command: &[
                    "cargo",
                    "test",
                    "-p",
                    "spec-cli",
                    "--test",
                    "m14_regressions",
                    "monotone_down_nonnegative_truth_surface_",
                    "--",
                    "--color",
                    "never",
                ],
                expected_tests: &[
                    "monotone_down_nonnegative_truth_surface_command_matrix_preserves_until_spec_test_refresh",
                    "monotone_down_nonnegative_truth_surface_stale_status_and_export_preserve_last_proven_review",
                ],
            },
            gate: GateId::GateC,
        },
        ProveSuiteDefinition {
            suite: SuiteDefinition {
                name: "spec-cli:monotone_down_nonnegative_corpus_",
                command: &[
                    "cargo",
                    "test",
                    "-p",
                    "spec-cli",
                    "--test",
                    "m14_regressions",
                    "monotone_down_nonnegative_corpus_",
                    "--",
                    "--color",
                    "never",
                ],
                expected_tests: &[
                    "monotone_down_nonnegative_corpus_aligned_fixture_projects_valid_state",
                    "monotone_down_nonnegative_corpus_drift_fixture_projects_failing_state",
                    "monotone_down_nonnegative_corpus_under_specified_fixture_projects_incomplete_state",
                    "monotone_down_nonnegative_corpus_unsupported_near_miss_stays_additive_only_and_neutral",
                ],
            },
            gate: GateId::GateB,
        },
    ]
}

fn monotone_down_certify_suites() -> (r: Vec<SuiteDefinition>)
    ensures
        r@.len() == 2,
{
    vec![
        SuiteDefinition {
            name: "spec-core:monotone_down_nonnegative_regression_",
            command: &[
                "cargo",
                "test",
                "-p",
                "spec-core",
                "--lib",
                "monotone_down_nonnegative_regression_",
                "--",
                "--color",
                "never",
            ],
            expected_tests: &[
                "semantic_review::tests::monotone_down_nonnegative_regression_chain3_is_not_shadowed",
                "semantic_review::tests::monotone_down_nonnegative_regression_monotone_up_is_not_shadowed",
            ],
        },
        SuiteDefinition {
            name: "spec-cli:monotone_down_nonnegative_regression_",
            command: &[
                "cargo",
                "test",
                "-p",
                "spec-cli",
                "--test",
                "m14_regressions",
                "monotone_down_nonnegative_regression_",
                "--",
                "--color",
                "never",
            ],
            expected_tests: &[
                "monotone_down_nonnegative_regression_read_side_surfaces_are_not_shadowed",
                "monotone_down_nonnegative_regression_unsupported_near_miss_stays_additive_only_and_neutral",
            ],
        },
    ]
}

/// The harness as the routing registry sees it.
pub open spec fn harness_route(h: FamilyHarness) -> (Seq<char>, u64, Seq<Seq<char>>) {
    (h.family@, h.routing.precedence, views_of(h.routing.must_not_shadow@))
}

pub open spec fn harness_routes(hs: Seq<FamilyHarness>) -> Seq<(Seq<char>, u64, Seq<Seq<char>>)> {
    hs.map_values(|h: FamilyHarness| harness_route(h))
}

pub open spec fn chain3_harness_is(h: FamilyHarness) -> bool {
    &&& harness_route(h) == (chain3_family(), CHAIN3_PRECEDENCE, chain3_must_not_shadow())
    &&& h.summary@ == "Straight-line three-call wrapper pipeline over supported function deps."@
    &&& h.suite_slug@ == CHAIN3_SUITE_SLUG@
    &&& h.scaffold.unit_namespace@ == "pricing"@
    &&& h.scaffold.template == StarterTemplate::GenericPlaceholder
    &&& case_views(h.scaffold.starter_cases@) == chain3_starter_cases()
    &&& h.shape.dep_min == 3 && h.shape.dep_max == 3
    &&& h.shape.control_flow@ == "straight_line_only"@
    &&& h.shape.return_style@ == "let_then_return_or_direct_return"@
    &&& !h.shape.loops && !h.shape.branching && h.shape.requires_supported_function_deps
    &&& h.args.threading@ == "ordered_passthrough"@
    &&& !h.args.allow_nested_argument_expressions && !h.args.allow_literal_only_extra_args
    &&& h.prove_suites@.len() == 3 && h.certify_suites@.len() == 2
}

pub open spec fn monotone_down_harness_is(h: FamilyHarness) -> bool {
    &&& harness_route(h) == (monotone_down_family(), MONOTONE_DOWN_NONNEGATIVE_PRECEDENCE, monotone_down_must_not_shadow())
    &&& h.summary@ == "Straight-line arithmetic leaf with zero-or-one helper dep and nonnegative clamp semantics."@
    &&& h.suite_slug@ == MONOTONE_DOWN_NONNEGATIVE_SUITE_SLUG@
    &&& h.scaffold.unit_namespace@ == "pricing"@
    &&& h.scaffold.template == StarterTemplate::ArithmeticLeafMonotoneDownNonnegative
    &&& case_views(h.scaffold.starter_cases@) == monotone_down_starter_cases()
    &&& h.shape.dep_min == 0 && h.shape.dep_max == 1
    &&& h.shape.control_flow@ == "straight_line_only"@
    &&& h.shape.return_style@ == "let_then_return_or_direct_return"@
    &&& !h.shape.loops && !h.shape.branching && !h.shape.requires_supported_function_deps
    &&& h.args.threading@ == "ordered_passthrough"@
    &&& !h.args.allow_nested_argument_expressions && !h.args.allow_literal_only_extra_args
    &&& h.prove_suites@.len() == 3 && h.certify_suites@.len() == 2
}

/// The registered family harnesses, in registration order.
pub fn registered_family_harnesses() -> (r: Vec<FamilyHarness>)
    ensures
        harness_routes(r@) == registry(),
        r@.len() == 2,
        chain3_harness_is(r@[0]),
        monotone_down_harness_is(r@[1]),
{
    let routes = crate::family::routing::registered_family_routes();
    proof {
        assert(routes@.len() == routes_view(routes@).len());
        assert(routes_view(routes@)[0] == route_view(routes@[0]));
        assert(routes_view(routes@)[1] == route_view(routes@[1]));
    }
    let chain3_routing = LockedManifestRouting {
        precedence: routes[0].routing.precedence,
        must_not_shadow: crate::family::report::copy_strings(&routes[0].routing.must_not_shadow),
    };
    let down_routing = LockedManifestRouting {
        precedence: routes[1].routing.precedence,
        must_not_shadow: crate::family::report::copy_strings(&routes[1].routing.must_not_shadow),
    };
    let chain3 = FamilyHarness {
        family: owned("function.wrapper.pipeline.chain3.v1"),
        summary: owned("Straight-line three-call wrapper pipeline over supported function deps."),
        suite_slug: owned(CHAIN3_SUITE_SLUG),
        scaffold: ScaffoldDefinition {
            unit_namespace: owned("pricing"),
            template: StarterTemplate::GenericPlaceholder,
            starter_cases: chain3_cases(),
        },
        routing: chain3_routing,
        shape: LockedManifestShape {
            dep_min: 3,
            dep_max: 3,
            control_flow: owned("straight_line_only"),
            return_style: owned("let_then_return_or_direct_return"),
            loops: false,
            branching: false,
            requires_supported_function_deps: true,
        },
        args: LockedManifestArgs {
            threading: owned("ordered_passthrough"),
            allow_nested_argument_expressions: false,
            allow_literal_only_extra_args: false,
        },
        prove_suites: chain3_prove_suites(),
        certify_suites: chain3_certify_suites(),
    };
    let down = FamilyHarness {
        family: owned("function.arithmetic_leaf.monotone_down_nonnegative.v1"),
        summary: owned("Straight-line arithmetic leaf with zero-or-one helper dep and nonnegative clamp semantics."),
        suite_slug: owned(MONOTONE_DOWN_NONNEGATIVE_SUITE_SLUG),
        scaffold: ScaffoldDefinition {
            unit_namespace: owned("pricing"),
            template: StarterTemplate::ArithmeticLeafMonotoneDownNonnegative,
            starter_cases: monotone_down_cases(),
        },
        routing: down_routing,
        shape: LockedManifestShape {
            dep_min: 0,
            dep_max: 1,
            control_flow: owned("straight_line_only"),
            return_style: owned("let_then_return_or_direct_return"),
            loops: false,
            branching: false,
            requires_supported_function_deps: false,
        },
        args: LockedManifestArgs {
            threading: owned("ordered_passthrough"),
            allow_nested_argument_expressions: false,
            allow_literal_only_extra_args: false,
        },
        prove_suites: monotone_down_prove_suites(),
        certify_suites: monotone_down_certify_suites(),
    };
    let r = vec![chain3, down];
    proof {
        assert(harness_routes(r@) =~= registry());
    }
    r
}

/// The position of `family`'s harness in `registry`, the first one that names it.
pub open spec fn harness_position(registry: Seq<FamilyHarness>, family: Seq<char>) -> Option<int> {
    crate::text::first_match(registry, |h: FamilyHarness| h.family@ == family, 0)
}

pub fn family_harness_in(registry: &Vec<FamilyHarness>, family: &FamilyId) -> (r: Option<usize>)
    ensures
        match r {
            Some(i) => harness_position(registry@, family@) == Some(i as int),
            None => harness_position(registry@, family@) is None,
        },
{
    let ghost p = |h: FamilyHarness| h.family@ == family@;
    let mut i: usize = 0;
    while i < registry.len()
        invariant
            i <= registry@.len(),
            p == (|h: FamilyHarness| h.family@ == family@),
            crate::text::first_match(registry@, p, 0) == crate::text::first_match(registry@, p, i as int),
        decreases registry@.len() - i,
    {
        if str_eq(registry[i].family.as_str(), family.as_str()) {
            return Some(i);
        }
        i = i + 1;
    }
    None
}

/// The harness of `family`, which must be registered for `workflow`.
pub fn require_family_harness_in(registry: &Vec<FamilyHarness>, family: &FamilyId, workflow: &str) -> (r: Result<
    usize,
    XtaskError,
>)
    ensures
        match harness_position(registry@, family@) {
            Some(i) => r matches Ok(j) && j == i,
            None => r matches Err(e) && e@ == XtaskErrorView::NotImplemented(
                "family `"@ + family@ + "` is not registered for `"@ + workflow@
                    + "`; add an entry to `xtask/src/family/harness.rs` before running family new/smoke/prove/certify"@,
            ),
        },
{
    match family_harness_in(registry, family) {
        Some(i) => Ok(i),
        None => {
            let mut m = owned("family `");
            m.append(family.as_str());
            m.append("` is not registered for `");
            m.append(workflow);
            m.append("`; add an entry to `xtask/src/family/harness.rs` before running family new/smoke/prove/certify");
            Err(XtaskError::NotImplemented(m))
        },
    }
}

fn route_of(h: &FamilyHarness) -> (r: FamilyRoute)
    ensures
        route_view(r) == harness_route(*h),
{
    FamilyRoute {
        family: owned(h.family.as_str()),
        routing: LockedManifestRouting {
            precedence: h.routing.precedence,
            must_not_shadow: crate::family::report::copy_strings(&h.routing.must_not_shadow),
        },
    }
}

/// The registry positions in routing order: by precedence, registration order among equals.
pub fn registered_harnesses_in_routing_order_from(registry: &Vec<FamilyHarness>) -> (r: Vec<usize>)
    ensures
        is_routing_order(harness_routes(registry@), usize_ints(r@)),
{
    let mut routes: Vec<FamilyRoute> = Vec::new();
    let mut i: usize = 0;
    while i < registry.len()
        invariant
            i <= registry@.len(),
            routes_view(routes@) == harness_routes(registry@).take(i as int),
        decreases registry@.len() - i,
    {
        let ghost before = routes@;
        routes.push(route_of(&registry[i]));
        proof {
            assert(routes_view(routes@) =~= routes_view(before).push(harness_route(registry@[i as int])));
            assert(harness_routes(registry@).take(i + 1) =~= harness_routes(registry@).take(i as int).push(
                harness_route(registry@[i as int]),
            ));
        }
        i = i + 1;
    }
    proof {
        assert(harness_routes(registry@).take(registry@.len() as int) =~= harness_routes(registry@));
    }
    routing_order(&routes)
}

/// The starter cases of `bucket`, in the harness's order.
pub open spec fn cases_in_bucket(cases: Seq<(Seq<char>, Seq<char>)>, bucket: Seq<char>) -> Seq<(Seq<char>, Seq<char>)> {
    cases.filter(|c: (Seq<char>, Seq<char>)| c.0 == bucket)
}

impl FamilyHarness {
    pub fn starter_cases_for_bucket(&self, bucket: &str) -> (r: Vec<StarterCaseDefinition>)
        ensures
            case_views(r@) == cases_in_bucket(case_views(self.scaffold.starter_cases@), bucket@),
    {
        let cases = &self.scaffold.starter_cases;
        let ghost cv = case_views(cases@);
        let mut out: Vec<StarterCaseDefinition> = Vec::new();
        let mut i: usize = 0;
        while i < cases.len()
            invariant
                i <= cases@.len(),
                cv == case_views(cases@),
                case_views(out@) == cases_in_bucket(cv.take(i as int), bucket@),
            decreases cases@.len() - i,
        {
            proof {
                assert(cv.take(i + 1).drop_last() =~= cv.take(i as int));
                assert(cv[i as int] == (cases@[i as int].bucket@, cases@[i as int].path@));
                reveal(Seq::filter);
            }
            if str_eq(cases[i].bucket.as_str(), bucket) {
                let ghost before = out@;
                out.push(case(cases[i].bucket.as_str(), cases[i].path.as_str()));
                proof {
                    assert(case_views(out@) =~= case_views(before).push(cv[i as int]));
                }
            }
            i = i + 1;
        }
        proof {
            assert(cv.take(cases@.len() as int) =~= cv);
        }
        out
    }
}

} // verus!
