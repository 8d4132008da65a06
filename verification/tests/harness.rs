use spec_core::family::error::XtaskError;
use spec_core::family::harness::{
    family_harness_in, registered_family_harnesses, registered_harnesses_in_routing_order_from,
    require_family_harness_in, StarterTemplate,
};
use spec_core::family::paths::FamilyId;

#[test]
fn registry_holds_chain3_and_monotone_down() {
    let registry = registered_family_harnesses();
    assert_eq!(registry.len(), 2);
    assert_eq!(registry[0].family, "function.wrapper.pipeline.chain3.v1");
    assert_eq!(registry[0].routing.precedence, 1);
    assert_eq!(registry[0].scaffold.starter_cases.len(), 16);
    assert_eq!(registry[1].scaffold.template, StarterTemplate::ArithmeticLeafMonotoneDownNonnegative);
    assert_eq!(registry[1].routing.must_not_shadow, vec!["function.arithmetic_leaf.monotone_up.v1".to_string()]);
    assert_eq!(registry[1].prove_suites.len(), 3);
    assert_eq!(registry[1].certify_suites[0].name, "spec-core:monotone_down_nonnegative_regression_");
}

#[test]
fn harness_lookup_and_refusal() {
    let registry = registered_family_harnesses();
    let down = FamilyId::parse("function.arithmetic_leaf.monotone_down_nonnegative.v1").unwrap();
    assert_eq!(family_harness_in(&registry, &down), Some(1));
    let up = FamilyId::parse("function.arithmetic_leaf.monotone_up.v1").unwrap();
    assert_eq!(family_harness_in(&registry, &up), None);
    match require_family_harness_in(&registry, &up, "family new") {
        Err(XtaskError::NotImplemented(m)) => assert_eq!(
            m,
            "family `function.arithmetic_leaf.monotone_up.v1` is not registered for `family new`; add an entry to `xtask/src/family/harness.rs` before running family new/smoke/prove/certify"
        ),
        other => panic!("unexpected {other:?}"),
    }
}

#[test]
fn routing_order_sorts_by_precedence() {
    let mut registry = registered_family_harnesses();
    assert_eq!(registered_harnesses_in_routing_order_from(&registry), vec![0, 1]);
    registry.swap(0, 1);
    assert_eq!(registered_harnesses_in_routing_order_from(&registry), vec![1, 0]);
}

#[test]
fn starter_cases_filter_by_bucket() {
    let registry = registered_family_harnesses();
    let drift = registry[0].starter_cases_for_bucket("drift");
    assert_eq!(drift.len(), 4);
    assert!(drift.iter().all(|c| c.bucket == "drift"));
    assert_eq!(drift[0].path, "fixtures/drift/units/pricing/pricing_discount_leaf_drift.unit.spec");
    assert!(registry[1].starter_cases_for_bucket("other").is_empty());
}
