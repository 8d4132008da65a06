use spec_core::family::error::XtaskError;
use spec_core::family::inventory::{
    inventory_from, inventory_metadata, nonblank_output, runtime_supported_families, INVENTORY_SCHEMA_VERSION,
};

fn message<T>(r: Result<T, XtaskError>) -> String {
    match r {
        Err(XtaskError::InvalidInput(m)) => m,
        Err(other) => panic!("unexpected error {other:?}"),
        Ok(_) => panic!("expected an error"),
    }
}

const SOURCE: &str = "use x;\n\nconst SUPPORTED_FUNCTION_ROUTING_ORDER: [SupportedFunctionRoute; 4] = [\n    SupportedFunctionRoute::WrapperPipelineChain3,\n    SupportedFunctionRoute::WrapperPipeline,\n    // comment\n    SupportedFunctionRoute::ArithmeticLeafMonotoneDownNonnegative,\n    SupportedFunctionRoute::ArithmeticLeafMonotoneUp,,\n];\n\nfn later() { let v = [1]; }\n";

#[test]
fn runtime_routes_are_read_in_order() {
    let families = runtime_supported_families(SOURCE, "spec-core/src/semantic_review.rs").unwrap();
    assert_eq!(
        families,
        vec![
            "function.wrapper.pipeline.chain3.v1".to_string(),
            "function.wrapper.pipeline.v1".to_string(),
            "function.arithmetic_leaf.monotone_down_nonnegative.v1".to_string(),
            "function.arithmetic_leaf.monotone_up.v1".to_string(),
        ]
    );
}

#[test]
fn runtime_route_errors_name_the_problem() {
    assert_eq!(
        message(runtime_supported_families("nothing here", "p.rs")),
        "inventory projection mismatch: `const SUPPORTED_FUNCTION_ROUTING_ORDER` is missing from `p.rs`"
    );
    assert_eq!(
        message(runtime_supported_families("const SUPPORTED_FUNCTION_ROUTING_ORDER: x;", "p.rs")),
        "inventory projection mismatch: failed to parse runtime routing order in `p.rs`"
    );
    assert_eq!(
        message(runtime_supported_families("const SUPPORTED_FUNCTION_ROUTING_ORDER = [ a", "p.rs")),
        "inventory projection mismatch: failed to locate the end of runtime routing order in `p.rs`"
    );
    assert_eq!(
        message(runtime_supported_families(
            "const SUPPORTED_FUNCTION_ROUTING_ORDER = [\n  SupportedFunctionRoute::Mystery,\n];",
            "p.rs"
        )),
        "inventory projection mismatch: runtime route `Mystery` is not mapped in xtask inventory"
    );
    assert_eq!(
        message(runtime_supported_families("const SUPPORTED_FUNCTION_ROUTING_ORDER = [\n];", "p.rs")),
        "inventory projection mismatch: runtime routing order in `p.rs` is empty"
    );
}

#[test]
fn metadata_is_known_for_routed_families() {
    let m = inventory_metadata("function.wrapper.pipeline.v1").unwrap();
    assert_eq!(m.canonical_seed_paths, vec!["examples/ecommerce/units/pricing/calculate_total.unit.spec".to_string()]);
    assert_eq!(m.supporting_packet_paths.len(), 6);
    assert!(inventory_metadata("function.unknown.v1").is_none());
}

fn routes() -> Vec<String> {
    vec![
        "function.wrapper.pipeline.chain3.v1".to_string(),
        "function.wrapper.pipeline.v1".to_string(),
        "function.arithmetic_leaf.monotone_down_nonnegative.v1".to_string(),
        "function.arithmetic_leaf.monotone_up.v1".to_string(),
    ]
}

#[test]
fn inventory_lists_unpromoted_routes_with_neighbours() {
    let promoted = vec![
        "function.wrapper.pipeline.chain3.v1".to_string(),
        "function.arithmetic_leaf.monotone_down_nonnegative.v1".to_string(),
    ];
    let inv = inventory_from(promoted.clone(), routes(), "2026-05-06T03:00:00Z".to_string(), &vec![]).unwrap();
    assert_eq!(inv.schema_version, INVENTORY_SCHEMA_VERSION);
    assert_eq!(inv.promoted_families, promoted);
    assert_eq!(inv.supported_unpromoted_families.len(), 2);
    let wrapper = &inv.supported_unpromoted_families[0];
    assert_eq!(wrapper.family, "function.wrapper.pipeline.v1");
    assert_eq!(wrapper.routing_predecessor, Some("function.wrapper.pipeline.chain3.v1".to_string()));
    assert_eq!(
        wrapper.routing_successors,
        vec![
            "function.arithmetic_leaf.monotone_down_nonnegative.v1".to_string(),
            "function.arithmetic_leaf.monotone_up.v1".to_string(),
            "unsupported.function.v1".to_string(),
        ]
    );
    let mut sorted = wrapper.supporting_packet_paths.clone();
    sorted.sort();
    assert_eq!(wrapper.supporting_packet_paths, sorted);
    let up = &inv.supported_unpromoted_families[1];
    assert_eq!(up.family, "function.arithmetic_leaf.monotone_up.v1");
    assert_eq!(up.routing_successors, vec!["unsupported.function.v1".to_string()]);
}

#[test]
fn inventory_refuses_unrouted_promotions_and_missing_paths() {
    assert_eq!(
        message(inventory_from(vec!["function.other.v1".to_string()], routes(), String::new(), &vec![])),
        "inventory projection mismatch: promoted family `function.other.v1` is not present in runtime-supported routing truth"
    );
    assert_eq!(
        message(inventory_from(
            vec![],
            routes(),
            String::new(),
            &vec!["spec-core/src/semantic_review.rs".to_string()]
        )),
        "inventory metadata path `spec-core/src/semantic_review.rs` does not exist in the workspace"
    );
    assert_eq!(
        message(inventory_from(vec![], vec!["function.other.v1".to_string()], String::new(), &vec![])),
        "inventory metadata missing for runtime-supported family `function.other.v1`"
    );
}

#[test]
fn blank_outputs_fall_back() {
    assert_eq!(nonblank_output(Some(" 1714000000\n")), Some("1714000000".to_string()));
    assert_eq!(nonblank_output(Some("  \n")), None);
    assert_eq!(nonblank_output(None), None);
}
