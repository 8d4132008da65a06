use spec_core::family::harness::registered_family_harnesses;
use spec_core::family::paths::FamilyId;
use spec_core::family::scaffold::{
    bucket_cargo_toml, bucket_main_rs, candidate_template, manifest_template, render_markdown_path_list,
    render_toml_string_array, starter_paths_for_bucket, starter_unit_spec,
};

#[test]
fn lists_render_one_item_per_line() {
    assert_eq!(render_markdown_path_list(&vec!["a".to_string(), "b".to_string()]), "- `a`\n- `b`");
    assert_eq!(render_markdown_path_list(&vec![]), "");
    assert_eq!(render_toml_string_array(&vec!["x".to_string(), "y".to_string()]), "  \"x\",\n  \"y\",");
}

#[test]
fn bucket_crates_are_named_after_the_family() {
    let family = FamilyId::parse("function.wrapper.pipeline.chain3.v1").unwrap();
    assert_eq!(
        bucket_cargo_toml(&family, "under_specified"),
        "[package]\nname = \"function-wrapper-pipeline-chain3-under-specified\"\nversion = \"0.1.0\"\nedition = \"2024\"\n\n[workspace]\n"
    );
    assert_eq!(bucket_main_rs(), "mod generated;\npub use generated::*;\n\nfn main() {}\n");
}

#[test]
fn candidate_notes_list_starter_cases_by_bucket() {
    let registry = registered_family_harnesses();
    let family = FamilyId::parse("function.arithmetic_leaf.monotone_down_nonnegative.v1").unwrap();
    let text = candidate_template(&family, &registry[1]);
    assert_eq!(
        text,
        "# function.arithmetic_leaf.monotone_down_nonnegative.v1\n\nSummary: Straight-line arithmetic leaf with zero-or-one helper dep and nonnegative clamp semantics.\n\n## Aligned\n\n- `fixtures/aligned/units/pricing/apply_discount_aligned.unit.spec`\n\n## Drift\n\n- `fixtures/drift/units/pricing/apply_discount_drift.unit.spec`\n\n## Under Specified\n\n- `fixtures/under_specified/units/pricing/apply_discount_under_specified.unit.spec`\n\n## Unsupported Near Miss\n\n- `fixtures/unsupported_near_miss/units/pricing/apply_discount_control_flow_unsupported_near_miss.unit.spec`\n"
    );
    assert_eq!(starter_paths_for_bucket(&registry[0], "aligned").len(), 4);
}

#[test]
fn manifests_lock_the_harness_routing() {
    let registry = registered_family_harnesses();
    let family = FamilyId::parse("function.wrapper.pipeline.chain3.v1").unwrap();
    let text = manifest_template(&family, &registry[0]);
    assert!(text.starts_with(
        "schema_version = 2\nfamily = \"function.wrapper.pipeline.chain3.v1\"\nkind = \"function\"\ncompatibility_key = \"function.wrapper.pipeline.chain3.v1\"\n"
    ));
    assert!(text.contains(
        "[routing]\nprecedence = 1\nmust_not_shadow = [\n  \"function.wrapper.pipeline.v1\",\n  \"function.arithmetic_leaf.monotone_down_nonnegative.v1\",\n  \"function.arithmetic_leaf.monotone_up.v1\",\n]\n"
    ));
    assert!(text.contains("[shape]\ndep_min = 3\ndep_max = 3\ncontrol_flow = \"straight_line_only\"\n"));
    assert!(text.contains("requires_supported_function_deps = true\n\n[args]\nthreading = \"ordered_passthrough\"\n"));
    assert!(text.ends_with("gate_c = true\ngate_d = true\n"));
}

#[test]
fn starter_specs_use_the_case_file_name() {
    let registry = registered_family_harnesses();
    let aligned = &registry[1].scaffold.starter_cases[0];
    let text = starter_unit_spec(&registry[1], aligned);
    assert!(text.starts_with("id: pricing/apply_discount_aligned\nkind: function\n"));
    assert!(text.contains("  - id: apply_discount_aligned_happy_path\n"));
    assert!(text.contains("let discounted = subtotal - subtotal * rate;"));
    let drift = &registry[1].scaffold.starter_cases[1];
    assert!(starter_unit_spec(&registry[1], drift).contains("let discounted = subtotal + subtotal * rate;"));
    let generic = &registry[0].scaffold.starter_cases[0];
    let text = starter_unit_spec(&registry[0], generic);
    assert!(text.starts_with("id: pricing/pricing_discount_leaf_aligned\n"));
    assert!(text.contains("  - id: pricing_discount_leaf_aligned_placeholder\n"));
}
