use spec_core::errors::SpecError;
use spec_core::model::{Body, Intent, LoadedMoleculeTest, MoleculeTestSource, MoleculeTestStruct};
use spec_core::molecule::validate_molecule_test_semantic;

fn create_molecule_test_spec(id: &str, covers: Vec<&str>) -> LoadedMoleculeTest {
    let mut test = make_molecule_test(id, "{ assert!(true); }");
    test.test.covers = covers.into_iter().map(str::to_string).collect();
    test
}

fn make_molecule_test(id: &str, body: &str) -> LoadedMoleculeTest {
    LoadedMoleculeTest {
        source: MoleculeTestSource { file_path: format!("test/{}.test.spec", id), id: id.to_string() },
        test: MoleculeTestStruct {
            id: id.to_string(),
            intent: Intent { why: "test".to_string() },
            covers: vec![],
            imports: None,
            body: Body { rust: body.to_string(), typescript: None },
            spec_version: None,
        },
    }
}

fn refusal(test: &LoadedMoleculeTest) -> String {
    validate_molecule_test_semantic(test).unwrap_err().message()
}

#[test]
fn reserved_molecule_test_name_molecule_tests_is_rejected() {
    let test = create_molecule_test_spec("pricing/molecule_tests", vec!["money/round"]);
    let err = refusal(&test);
    assert!(err.contains("reserved"), "expected 'reserved' in error, got: {err}");
    assert!(err.contains("molecule_tests"), "expected segment name in error, got: {err}");
}

#[test]
fn reserved_molecule_test_name_namespace_molecule_tests_is_rejected() {
    let test = create_molecule_test_spec("qa/molecule_tests/foo", vec!["money/round"]);
    let err = refusal(&test);
    assert!(err.contains("reserved"), "expected 'reserved' in error, got: {err}");
    assert!(err.contains("molecule_tests"), "expected segment name in error, got: {err}");
}

#[test]
fn reserved_molecule_test_name_deep_namespace_molecule_tests_is_rejected() {
    let test = create_molecule_test_spec("qa/sub/molecule_tests/foo", vec!["money/round"]);
    let err = refusal(&test);
    assert!(err.contains("reserved"), "expected 'reserved' in error, got: {err}");
}

#[test]
fn non_reserved_similar_molecule_test_name_passes() {
    let test = create_molecule_test_spec("qa/molecule_test_helpers/foo", vec!["money/round"]);
    assert!(validate_molecule_test_semantic(&test).is_ok());
}

#[test]
fn molecule_body_with_unsafe_block_is_rejected() {
    let test = make_molecule_test("pricing/checkout_flow", "{ unsafe { let x = 1; } }");
    let err = refusal(&test);
    assert!(err.contains("unsafe"), "expected 'unsafe' in error, got: {err}");
}

#[test]
fn molecule_body_with_nested_unsafe_is_rejected() {
    let test = make_molecule_test("pricing/checkout_flow", "{ let x = if true { unsafe { 1 } else { 2 } }; }");
    let result = validate_molecule_test_semantic(&test);
    assert!(result.is_err(), "expected rejection of nested unsafe");
}

#[test]
fn molecule_body_with_unsafe_in_array_index_expr_is_rejected() {
    let test = make_molecule_test("pricing/checkout_flow", "{ let _x = [unsafe { std::mem::zeroed::<u8>() }][0]; }");
    let err = refusal(&test);
    assert!(err.contains("unsafe"), "expected 'unsafe' in error, got: {err}");
}

#[test]
fn molecule_body_with_typescript_is_rejected() {
    let mut test = make_molecule_test("pricing/checkout_flow", "{ true }");
    test.test.body.typescript = Some("return true;".to_string());
    let err = refusal(&test);
    assert!(err.contains("body.typescript is not supported in .test.spec"), "{err}");
}

#[test]
fn molecule_body_with_unsafe_fn_item_is_rejected() {
    let test = make_molecule_test("pricing/checkout_flow", "{ unsafe fn helper() {} helper(); }");
    let err = refusal(&test);
    assert!(err.contains("unsafe"), "expected 'unsafe' in error, got: {err}");
}

#[test]
fn molecule_body_with_unsafe_inside_macro_body_is_rejected() {
    let test = make_molecule_test("pricing/checkout_flow", "{ m!(unsafe { 1 }); }");
    let err = refusal(&test);
    assert!(err.contains("unsafe"), "expected 'unsafe' in error, got: {err}");
}

#[test]
fn molecule_body_with_unsafe_string_literal_passes() {
    let test = make_molecule_test("pricing/checkout_flow", r#"{ let label = "unsafe"; assert_eq!(label, "unsafe"); }"#);
    assert!(validate_molecule_test_semantic(&test).is_ok());
}

#[test]
fn molecule_body_without_unsafe_passes() {
    let test = make_molecule_test("pricing/checkout_flow", "{ let x = apply_discount(100, 10); assert_eq!(x, 90); }");
    assert!(validate_molecule_test_semantic(&test).is_ok());
}

#[test]
fn molecule_body_bare_expression_is_rejected() {
    let test = make_molecule_test("pricing/checkout_flow", "true");
    let result = validate_molecule_test_semantic(&test);
    assert!(result.is_err(), "bare expression should be rejected");
    let err = result.unwrap_err().message();
    assert!(err.contains("block") || err.contains("Block"), "expected block error, got: {err}");
}

#[test]
fn molecule_body_unsafe_in_comments_raw_strings_and_raw_idents_passes() {
    let body = "{ // unsafe here\n /* unsafe /* nested unsafe */ */ let s = r#\"unsafe \"# ; let c = 'u'; let r#unsafe = 1; let unsafe_count = r#unsafe; }";
    let test = make_molecule_test("pricing/checkout_flow", body);
    assert!(validate_molecule_test_semantic(&test).is_ok());
}

#[test]
fn molecule_body_with_keyword_segment_is_rejected() {
    let test = make_molecule_test("pricing/fn/flow", "{ }");
    match validate_molecule_test_semantic(&test) {
        Err(SpecError::RustKeyword { segment, .. }) => assert_eq!(segment, "fn"),
        other => panic!("unexpected {other:?}"),
    }
}
