use spec_core::errors::SpecError;
use spec_core::model::{Body, Intent, LoadedSpec, LocalTest, SpecSource, SpecStruct, UnitExtensions};
use spec_core::typescript::{
    validate_typescript_closure_member_spec_with_specs, validate_typescript_execution_target_spec,
    validate_typescript_execution_target_spec_with_specs, validate_typescript_local_test_expect_shape,
    SemanticReviewOutcome, UnitReview, TYPESCRIPT_CHAIN3_TARGET_COMPATIBILITY_KEY, TYPESCRIPT_EXPECT_UNSUPPORTED_MESSAGE,
    TYPESCRIPT_HELPER_COMPATIBILITY_KEY, TYPESCRIPT_HELPER_TYPESCRIPT_BODY_UNSUPPORTED_MESSAGE,
    TYPESCRIPT_KIND_UNSUPPORTED_MESSAGE, TYPESCRIPT_LOCAL_GRAPH_SEMANTIC_UNSUPPORTED_MESSAGE,
    TYPESCRIPT_MISSING_HELPER_UNSUPPORTED_MESSAGE, TYPESCRIPT_MONOTONE_DOWN_TARGET_COMPATIBILITY_KEY,
    TYPESCRIPT_MONOTONE_UP_TARGET_COMPATIBILITY_KEY, TYPESCRIPT_WRAPPER_DEP_FAMILY_UNSUPPORTED_MESSAGE,
    TYPESCRIPT_WRAPPER_TARGET_COMPATIBILITY_KEY,
};
use spec_core::unit_ref::QualifiedUnitRef;

fn unit(id: &str, deps: &[&str], expect: &str) -> LoadedSpec {
    let name = id.rsplit('/').next().unwrap();
    LoadedSpec {
        source: SpecSource { file_path: format!("units/{id}.unit.spec"), id: id.to_string() },
        spec: SpecStruct {
            id: id.to_string(),
            kind: "function".to_string(),
            intent: Intent { why: format!("{name} fixture") },
            contract: None,
            deps: deps.iter().map(|d| d.to_string()).collect(),
            imports: vec![],
            body: Body { rust: "{ subtotal }".to_string(), typescript: Some("return subtotal;".to_string()) },
            local_tests: vec![LocalTest { id: "t1".to_string(), expect: expect.to_string() }],
            links: None,
            spec_version: None,
            extensions: UnitExtensions::default(),
        },
    }
}

fn tax() -> LoadedSpec {
    unit("pricing/apply_tax", &[], "apply_tax(Decimal::new(1000, 2), Decimal::new(7, 2)) == Decimal::new(1070, 2)")
}

fn discount() -> LoadedSpec {
    unit("pricing/apply_discount", &[], "apply_discount(Decimal::new(1000, 2), Decimal::new(7, 2)) == Decimal::new(930, 2)")
}

fn helper() -> LoadedSpec {
    unit("money/round", &[], "round(Decimal::new(1005, 3)) == Decimal::new(101, 2)")
}

fn review(library: Option<&str>, id: &str, key: &str, supported: bool) -> UnitReview {
    UnitReview {
        unit: QualifiedUnitRef { library: library.map(str::to_string), unit_id: id.to_string() },
        review: Some(SemanticReviewOutcome { compatibility_key: key.to_string(), supported }),
    }
}

fn reviews() -> Vec<UnitReview> {
    vec![
        review(None, "pricing/apply_tax", TYPESCRIPT_MONOTONE_UP_TARGET_COMPATIBILITY_KEY, true),
        review(None, "pricing/apply_discount", TYPESCRIPT_MONOTONE_DOWN_TARGET_COMPATIBILITY_KEY, true),
        review(None, "money/round", TYPESCRIPT_HELPER_COMPATIBILITY_KEY, true),
        review(Some("shared"), "money/round", TYPESCRIPT_HELPER_COMPATIBILITY_KEY, true),
        review(None, "pricing/checkout", TYPESCRIPT_WRAPPER_TARGET_COMPATIBILITY_KEY, true),
        review(None, "pricing/chain", TYPESCRIPT_CHAIN3_TARGET_COMPATIBILITY_KEY, true),
    ]
}

fn entries(specs: Vec<LoadedSpec>) -> Vec<(String, LoadedSpec)> {
    specs.into_iter().map(|s| (s.spec.id.clone(), s)).collect()
}

fn message(result: Result<(), SpecError>) -> String {
    result.unwrap_err().message()
}

#[test]
fn typescript_target_accepts_monotone_up_leaf_with_bounded_expect() {
    validate_typescript_execution_target_spec(tax(), &reviews()).expect("bounded monotone-up spec should be eligible");
}

#[test]
fn typescript_target_rejects_helper_root() {
    let err = message(validate_typescript_execution_target_spec(helper(), &reviews()));
    assert!(err.contains(TYPESCRIPT_HELPER_COMPATIBILITY_KEY), "unexpected error: {err}");
}

#[test]
fn typescript_target_accepts_one_local_helper_dep_with_context() {
    let mut spec = tax();
    spec.spec.deps = vec!["money/round".to_string()];
    let specs = entries(vec![spec.clone(), helper()]);
    validate_typescript_execution_target_spec_with_specs(&spec, &specs, &reviews()).expect("one local helper dep");
}

#[test]
fn typescript_target_accepts_cross_library_helper_dep_with_loaded_helper() {
    let mut spec = tax();
    spec.spec.deps = vec!["shared::money/round".to_string()];
    let specs = vec![(spec.spec.id.clone(), spec.clone()), ("shared::money/round".to_string(), helper())];
    validate_typescript_execution_target_spec_with_specs(&spec, &specs, &reviews()).expect("loaded shared helper");
}

#[test]
fn typescript_target_rejects_missing_local_helper_dep() {
    let mut spec = tax();
    spec.spec.deps = vec!["money/round".to_string()];
    let err = message(validate_typescript_execution_target_spec(spec, &reviews()));
    assert!(err.contains(TYPESCRIPT_MISSING_HELPER_UNSUPPORTED_MESSAGE), "unexpected error: {err}");
}

#[test]
fn typescript_target_rejects_shared_helper_missing_typescript_body() {
    let mut spec = tax();
    spec.spec.deps = vec!["shared::money/round".to_string()];
    let mut h = helper();
    h.spec.body.typescript = None;
    let specs = vec![(spec.spec.id.clone(), spec.clone()), ("shared::money/round".to_string(), h)];
    let err = message(validate_typescript_execution_target_spec_with_specs(&spec, &specs, &reviews()));
    assert!(err.contains(TYPESCRIPT_HELPER_TYPESCRIPT_BODY_UNSUPPORTED_MESSAGE), "unexpected error: {err}");
    assert!(err.contains("'shared::money/round'"), "unexpected error: {err}");
}

#[test]
fn typescript_target_accepts_wrapper_root_with_exact_local_dep_tuple() {
    let spec = unit(
        "pricing/checkout",
        &["pricing/apply_discount", "pricing/apply_tax"],
        "checkout(Decimal::new(1000, 2), Decimal::new(7, 2), Decimal::new(7, 2)) == Decimal::new(995, 2)",
    );
    let specs = entries(vec![spec.clone(), discount(), tax()]);
    validate_typescript_execution_target_spec_with_specs(&spec, &specs, &reviews()).expect("wrapper root");
}

#[test]
fn typescript_target_rejects_wrapper_with_reordered_direct_deps() {
    let spec = unit(
        "pricing/checkout",
        &["pricing/apply_tax", "pricing/apply_discount"],
        "checkout(Decimal::new(1000, 2)) == Decimal::new(995, 2)",
    );
    let specs = entries(vec![spec.clone(), discount(), tax()]);
    let err = message(validate_typescript_execution_target_spec_with_specs(&spec, &specs, &reviews()));
    assert!(err.contains(TYPESCRIPT_WRAPPER_DEP_FAMILY_UNSUPPORTED_MESSAGE), "unexpected error: {err}");
    assert!(err.contains("'pricing/apply_tax' resolved to function.arithmetic_leaf.monotone_up.v1"), "{err}");
}

#[test]
fn typescript_target_accepts_chain3_root_with_exact_local_dep_tuple() {
    let wrapper = unit("pricing/checkout", &["pricing/apply_discount", "pricing/apply_tax"], "checkout() == Decimal::new(0, 0)");
    let spec = unit(
        "pricing/chain",
        &["pricing/checkout", "pricing/apply_tax", "pricing/apply_discount"],
        "chain(Decimal::new(1000, 2),) == Decimal::new(-5, 2)",
    );
    let specs = entries(vec![spec.clone(), wrapper, discount(), tax()]);
    validate_typescript_execution_target_spec_with_specs(&spec, &specs, &reviews()).expect("chain3 root");
}

#[test]
fn typescript_local_graph_target_rejects_reachable_unsupported_semantic_member() {
    let mut spec = tax();
    spec.spec.deps = vec!["money/round".to_string()];
    let specs = entries(vec![spec.clone(), helper()]);
    let mut rs = reviews();
    rs.insert(0, review(None, "money/round", "unsupported.function.v1", false));
    let err = message(validate_typescript_execution_target_spec_with_specs(&spec, &specs, &rs));
    assert!(err.contains("unsupported.function.v1"), "unexpected error: {err}");
}

#[test]
fn typescript_target_rejects_root_without_supported_review() {
    let rs: Vec<UnitReview> = vec![];
    let err = message(validate_typescript_execution_target_spec(tax(), &rs));
    assert!(err.contains(TYPESCRIPT_LOCAL_GRAPH_SEMANTIC_UNSUPPORTED_MESSAGE), "{err}");
    assert!(err.contains("is missing supported semantic review"), "{err}");
}

#[test]
fn typescript_target_rejects_non_function_kind() {
    let mut spec = tax();
    spec.spec.kind = "data".to_string();
    let err = message(validate_typescript_execution_target_spec(spec, &reviews()));
    assert!(err.contains(TYPESCRIPT_KIND_UNSUPPORTED_MESSAGE), "{err}");
}

#[test]
fn typescript_target_rejects_expect_outside_bounded_ast() {
    let mut spec = tax();
    spec.spec.local_tests[0].expect = "apply_tax(1, 2) == Decimal::new(3, 0)".to_string();
    let err = message(validate_typescript_execution_target_spec(spec, &reviews()));
    assert!(err.contains(TYPESCRIPT_EXPECT_UNSUPPORTED_MESSAGE), "{err}");
}

#[test]
fn typescript_expect_shape_accepts_comments_leading_colons_and_suffixes() {
    let mut spec = tax();
    spec.spec.local_tests[0].expect =
        "  apply_tax( ::Decimal::new(1_000u64, 2) /* subtotal */, Decimal :: new(0x7, 2,) ) == Decimal::new(-1070, 2) // total\n"
            .to_string();
    assert!(validate_typescript_local_test_expect_shape(&spec).is_ok());
}

#[test]
fn typescript_expect_shape_rejects_floats_other_callees_and_negative_scale() {
    for expect in [
        "apply_tax(Decimal::new(1.5, 2)) == Decimal::new(1, 2)",
        "apply_tax(Decimal::new(1e5, 2)) == Decimal::new(1, 2)",
        "other(Decimal::new(1, 2)) == Decimal::new(1, 2)",
        "apply_tax(Decimal::new(1, -2)) == Decimal::new(1, 2)",
        "apply_tax(Decimal::new(1, 2)) != Decimal::new(1, 2)",
    ] {
        let mut spec = tax();
        spec.spec.local_tests[0].expect = expect.to_string();
        assert!(validate_typescript_local_test_expect_shape(&spec).is_err(), "{expect}");
    }
}

#[test]
fn typescript_closure_member_accepts_helper_member() {
    let specs = entries(vec![helper()]);
    validate_typescript_closure_member_spec_with_specs(&helper(), &specs, &reviews()).expect("helper member");
}

#[test]
fn typescript_index_refuses_lookup_collision_across_files() {
    let a = helper();
    let mut b = helper();
    b.source.file_path = "units/other/round.unit.spec".to_string();
    let specs = vec![("money/round".to_string(), a.clone()), ("money/round".to_string(), b)];
    let err = message(validate_typescript_closure_member_spec_with_specs(&a, &specs, &reviews()));
    assert!(err.contains("TypeScript target lookup for 'money/round' collided across"), "{err}");
}
