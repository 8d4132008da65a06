use spec_core::errors::{SpecError, SpecWarning};
use spec_core::graph::{
    check_spec_versions, detect_cycles, detect_qualified_cycles, validate_deps_exist, validate_no_duplicate_ids,
    validate_no_duplicate_qualified_ids, QualifiedLoadedSpec,
};
use spec_core::model::{
    AuthoredBackends, AuthoredConstructor, AuthoredDataShape, AuthoredField, AuthoredMethod, AuthoredMethodLowering,
    AuthoredRustBackend, AuthoredRustMethodLowering, AuthoredSumShape, AuthoredSumVariant, Body, Contract, Intent,
    LoadedMoleculeTest, LoadedSpec, LocalTest, MoleculeTestSource, MoleculeTestStruct, SpecSource, SpecStruct,
    UnitExtensions, AUTHORED_SPEC_VERSION,
};
use spec_core::molecule::{validate_molecule_test_covers, validate_no_duplicate_molecule_test_ids};
use spec_core::unit_ref::QualifiedUnitRef;
use spec_core::validator::{
    validate_full, validate_rust_keywords, validate_semantic, validate_semantic_with_options,
    validate_typescript_molecule_target, ValidationOptions,
};

fn create_sum_spec(id: &str) -> LoadedSpec {
    LoadedSpec {
        source: SpecSource {
            file_path: format!("test/{}.unit.spec", id),
            id: id.to_string(),
        },
        spec: SpecStruct {
            id: id.to_string(),
            kind: "sum".to_string(),
            intent: Intent {
                why: format!("Test sum seam for {}", id),
            },
            contract: None,
            deps: vec![],
            imports: vec![],
            body: Body::default(),
            local_tests: vec![],
            links: None,
            spec_version: None,
            extensions: UnitExtensions {
                sum: Some(AuthoredSumShape {
                    variants: vec![
                        (
                            "pending".to_string(),
                            AuthoredSumVariant {
                                fields: Vec::new(),
                            },
                        ),
                        (
                            "quoted_total".to_string(),
                            AuthoredSumVariant {
                                fields: vec![(
                                    "subtotal".to_string(),
                                    AuthoredField {
                                        type_: "Decimal".to_string(),
                                    },
                                )],
                            },
                        ),
                    ],
                }),
                methods: vec![AuthoredMethod {
                    id: "label".to_string(),
                    intent: Intent {
                        why: "Return a stable label".to_string(),
                    },
                    receiver: "shared_ref".to_string(),
                    contract: Some(Contract {
                        inputs: None,
                        returns: Some("&'static str".to_string()),
                        invariants: vec![],
                    }),
                    deps: vec![],
                    lowering: Some(AuthoredMethodLowering {
                        rust: Some(AuthoredRustMethodLowering {
                            body: "{ match self { Self::Pending => \"pending\", Self::QuotedTotal { .. } => \"quoted_total\" } }".to_string(),
                        }),
                    }),
                }],
                backends: Some(AuthoredBackends {
                    rust: Some(AuthoredRustBackend {
                        derives: vec!["Clone".to_string(), "Debug".to_string()],
                    }),
                }),
                ..UnitExtensions::default()
            },
        },
    }
}

fn create_data_spec(id: &str) -> LoadedSpec {
    LoadedSpec {
        source: SpecSource {
            file_path: format!("test/{}.unit.spec", id),
            id: id.to_string(),
        },
        spec: SpecStruct {
            id: id.to_string(),
            kind: "data".to_string(),
            intent: Intent {
                why: format!("Test data seam for {}", id),
            },
            contract: None,
            deps: vec![],
            imports: vec![],
            body: Body {
                rust: String::new(),
                typescript: None,
            },
            local_tests: vec![],
            links: None,
            spec_version: None,
            extensions: UnitExtensions {
                data: Some(AuthoredDataShape {
                    fields: vec![
                        (
                            "subtotal".to_string(),
                            AuthoredField {
                                type_: "Decimal".to_string(),
                            },
                        ),
                        (
                            "tax_rate".to_string(),
                            AuthoredField {
                                type_: "Decimal".to_string(),
                            },
                        ),
                    ],
                }),
                constructors: vec![AuthoredConstructor {
                    id: "new".to_string(),
                    intent: Intent {
                        why: "Create a data seam".to_string(),
                    },
                    contract: Some(Contract {
                        inputs: Some(vec![
                            ("subtotal".to_string(), "Decimal".to_string()),
                            ("tax_rate".to_string(), "Decimal".to_string()),
                        ]),
                        returns: None,
                        invariants: vec![],
                    }),
                    initializes: vec![
                        ("subtotal".to_string(), "subtotal".to_string()),
                        ("tax_rate".to_string(), "tax_rate".to_string()),
                    ],
                }],
                methods: vec![AuthoredMethod {
                    id: "total".to_string(),
                    intent: Intent {
                        why: "Return the total".to_string(),
                    },
                    receiver: "shared_ref".to_string(),
                    contract: Some(Contract {
                        inputs: None,
                        returns: Some("Decimal".to_string()),
                        invariants: vec![],
                    }),
                    deps: vec!["pricing/apply_tax".to_string()],
                    lowering: Some(AuthoredMethodLowering {
                        rust: Some(AuthoredRustMethodLowering {
                            body: "{ apply_tax(self.subtotal, self.tax_rate) }".to_string(),
                        }),
                    }),
                }],
                backends: Some(AuthoredBackends {
                    rust: Some(AuthoredRustBackend {
                        derives: vec!["Clone".to_string(), "Debug".to_string()],
                    }),
                }),
                sum: None,
            },
        },
    }
}

fn create_molecule_test_spec(id: &str, covers: Vec<&str>) -> LoadedMoleculeTest {
    LoadedMoleculeTest {
        source: MoleculeTestSource {
            file_path: format!("test/{}.test.spec", id),
            id: id.to_string(),
        },
        test: MoleculeTestStruct {
            id: id.to_string(),
            intent: Intent {
                why: format!("Test molecule spec for {}", id),
            },
            covers: covers.into_iter().map(str::to_string).collect(),
            imports: None,
            body: Body {
                rust: "{ assert!(true); }".to_string(),
                typescript: None,
            },
            spec_version: None,
        },
    }
}

fn create_test_spec(id: &str, rust_body: &str) -> LoadedSpec {
    LoadedSpec {
        source: SpecSource {
            file_path: format!("test/{}.unit.spec", id),
            id: id.to_string(),
        },
        spec: SpecStruct {
            id: id.to_string(),
            kind: "function".to_string(),
            intent: Intent {
                why: format!("Test spec for {}", id),
            },
            contract: None,
            deps: vec![],
            imports: vec![],
            body: Body {
                rust: rust_body.to_string(),
                typescript: None,
            },
            local_tests: vec![],
            links: None,
            spec_version: None,
            extensions: UnitExtensions::default(),
        },
    }
}

#[test]
fn test_validate_rust_keywords_in_id() {
    let result = validate_rust_keywords("pricing/type", "test.unit.spec");
    assert!(result.is_err());
    let err = result.unwrap_err();
    assert!(err.message().contains("Rust reserved keyword"));
    assert!(err.message().contains("type"));
}

#[test]
fn test_validate_valid_id() {
    let result = validate_rust_keywords("pricing/apply_discount", "test.unit.spec");
    assert!(result.is_ok());
}

#[test]
fn test_validate_no_duplicate_ids() {
    let specs = vec![
        create_test_spec("pricing/apply_discount", "{ }"),
        create_test_spec("utils/round", "{ }"),
    ];

    let errors = validate_no_duplicate_ids(&specs);
    assert!(errors.is_empty());
}

#[test]
fn test_validate_duplicate_ids() {
    let specs = vec![
        create_test_spec("pricing/apply_discount", "{ }"),
        create_test_spec("pricing/apply_discount", "{ }"),
    ];

    let errors = validate_no_duplicate_ids(&specs);
    assert_eq!(errors.len(), 1);
    assert!(errors[0].message().contains("Duplicate ID"));
    assert!(errors[0].message().contains("pricing/apply_discount"));
}

#[test]
fn test_validate_duplicate_ids_all_reported() {
    let specs = vec![
        create_test_spec("pricing/apply_discount", "{ }"),
        create_test_spec("pricing/apply_discount", "{ }"),
        create_test_spec("pricing/apply_discount", "{ }"),
    ];

    let errors = validate_no_duplicate_ids(&specs);
    assert_eq!(errors.len(), 2, "all duplicate pairs should be reported");
}

#[test]
fn test_validate_dep_collision() {
    let mut spec = create_test_spec("pricing/calculate_total", "{ round(1.5) }");
    spec.spec.deps = vec!["money/round".to_string(), "utils/round".to_string()];

    let result = validate_semantic(&spec);
    assert!(result.is_err());
    let err = result.unwrap_err();
    assert!(err.message().contains("collision"));
    assert!(err.message().contains("round"));
}

#[test]
fn test_validate_dep_collision_with_unit_callable_name() {
    let mut spec = create_test_spec("money/round", "{ round(value) }");
    spec.spec.deps = vec!["shared::money/round".to_string()];

    let err = validate_semantic(&spec).unwrap_err();
    match err {
        SpecError::DepCollision {
            dep1,
            dep2,
            fn_name,
            path,
        } => {
            assert_eq!(dep1, "shared::money/round");
            assert_eq!(dep2, "money/round");
            assert_eq!(fn_name, "round");
            assert_eq!(path, "test/money/round.unit.spec");
        }
        other => panic!("expected DepCollision, got {other:?}"),
    }
}

#[test]
fn test_validate_semantic_accepts_external_dep_syntax() {
    let mut spec = create_test_spec("pricing/calculate_total", "{ round(1.5) }");
    spec.spec.deps = vec!["shared::money/round".to_string()];

    let result = validate_semantic(&spec);
    assert!(result.is_ok(), "{result:?}");
}

#[test]
fn test_validate_semantic_rejects_invalid_external_dep_syntax() {
    let mut spec = create_test_spec("pricing/calculate_total", "{ round(1.5) }");
    spec.spec.deps = vec!["shared::Money/round".to_string()];

    let err = validate_semantic(&spec).unwrap_err().message();
    assert!(err.contains("invalid segment 'Money'"), "{err}");
}

#[test]
fn test_validate_molecule_test_covers_collision() {
    let molecule_test =
        create_molecule_test_spec("pricing/rounding_flow", vec!["money/round", "utils/round"]);
    let unit_ids: Vec<String> = ["money/round", "utils/round"].into_iter().map(String::from).collect();

    let (errors, warnings) = validate_molecule_test_covers(&molecule_test, &unit_ids);

    assert_eq!(warnings.len(), 1);
    assert!(matches!(
        warnings[0],
        SpecWarning::MoleculeImplicitImportsDeprecated { .. }
    ));
    assert_eq!(errors.len(), 1);
    match &errors[0] {
        SpecError::MoleculeCoversCollision {
            cover1,
            cover2,
            fn_name,
            test_id,
            test_path,
        } => {
            assert_eq!(cover1, "money/round");
            assert_eq!(cover2, "utils/round");
            assert_eq!(fn_name, "round");
            assert_eq!(test_id, "pricing/rounding_flow");
            assert_eq!(test_path, "test/pricing/rounding_flow.test.spec");
        }
        other => panic!("expected MoleculeCoversCollision, got {other:?}"),
    }
}

#[test]
fn test_validate_molecule_test_covers_allows_collision_with_explicit_imports() {
    let mut molecule_test =
        create_molecule_test_spec("pricing/rounding_flow", vec!["money/round", "utils/round"]);
    molecule_test.test.imports = Some(vec![]);
    let unit_ids: Vec<String> = ["money/round", "utils/round"].into_iter().map(String::from).collect();

    let (errors, warnings) = validate_molecule_test_covers(&molecule_test, &unit_ids);

    assert!(
        errors.is_empty(),
        "explicit imports should disable cover collision errors"
    );
    assert!(
        warnings.iter().all(|warning| !matches!(
            warning,
            SpecWarning::MoleculeImplicitImportsDeprecated { .. }
        )),
        "explicit imports should suppress implicit-import deprecation warnings"
    );
}

#[test]
fn test_validate_molecule_test_covers_rejects_cross_library_cover_without_collision() {
    let molecule_test = create_molecule_test_spec(
        "pricing/rounding_flow",
        vec!["shared::money/round", "money/round"],
    );
    let unit_ids: Vec<String> = ["money/round"].into_iter().map(String::from).collect();

    let (errors, warnings) = validate_molecule_test_covers(&molecule_test, &unit_ids);

    assert_eq!(warnings.len(), 1);
    assert!(matches!(
        warnings[0],
        SpecWarning::MoleculeImplicitImportsDeprecated { .. }
    ));
    assert_eq!(errors.len(), 1);
    match &errors[0] {
        SpecError::CrossLibraryMoleculeCoverUnsupported {
            cover_id,
            test_id,
            test_path,
        } => {
            assert_eq!(cover_id, "shared::money/round");
            assert_eq!(test_id, "pricing/rounding_flow");
            assert_eq!(test_path, "test/pricing/rounding_flow.test.spec");
        }
        other => panic!("expected CrossLibraryMoleculeCoverUnsupported, got {other:?}"),
    }
}

#[test]
fn test_validate_use_statement_in_body() {
    let spec = LoadedSpec {
        source: SpecSource {
            file_path: "test.unit.spec".to_string(),
            id: "test/test".to_string(),
        },
        spec: SpecStruct {
            id: "test/test".to_string(),
            kind: "function".to_string(),
            intent: Intent {
                why: "Test spec".to_string(),
            },
            contract: None,
            deps: vec![],
            imports: vec![],
            body: Body {
                rust: "use std::collections::HashMap; pub fn test() {}".to_string(),
                typescript: None,
            },
            local_tests: vec![],
            links: None,
            spec_version: None,
            extensions: UnitExtensions::default(),
        },
    };

    let result = validate_semantic(&spec);
    assert!(result.is_err());
    let err = result.unwrap_err();
    assert!(
        err.message()
            .contains("body.rust must not contain use statements")
    );
}

#[test]
fn test_validate_qualified_duplicate_ids_allow_same_unit_in_different_libraries() {
    let local = create_test_spec("money/round", "{ }");
    let shared = create_test_spec("money/round", "{ }");

    let scoped_specs = vec![
        QualifiedLoadedSpec {
            loaded: &local,
            qualified_id: QualifiedUnitRef::new(Some("root".to_string()), "money/round"),
            qualified_deps: Vec::new(),
        },
        QualifiedLoadedSpec {
            loaded: &shared,
            qualified_id: QualifiedUnitRef::new(Some("shared".to_string()), "money/round"),
            qualified_deps: Vec::new(),
        },
    ];

    let errors = validate_no_duplicate_qualified_ids(&scoped_specs);
    assert!(errors.is_empty(), "{errors:?}");
}

#[test]
fn test_validate_deps_exist_local_wrapper_still_passes_local_graph() {
    let mut calculate_total = create_test_spec("pricing/calculate_total", "{ round(1.5) }");
    calculate_total.spec.deps = vec!["money/round".to_string()];
    let round = create_test_spec("money/round", "{ amount }");

    let (errors, warnings) = validate_deps_exist(&[calculate_total, round]);
    assert!(errors.is_empty(), "{errors:?}");
    assert!(warnings.is_empty(), "{warnings:?}");
}

#[test]
fn test_validate_deps_exist_local_wrapper_reports_external_missing_dep() {
    let mut calculate_total = create_test_spec("pricing/calculate_total", "{ round(1.5) }");
    calculate_total.spec.deps = vec!["shared::money/round".to_string()];

    let (errors, warnings) = validate_deps_exist(&[calculate_total]);
    assert_eq!(errors.len(), 1, "{errors:?}");
    assert!(warnings.is_empty(), "{warnings:?}");
    match &errors[0] {
        SpecError::CrossLibraryDepNotFound { dep, .. } => {
            assert_eq!(dep, "shared::money/round")
        }
        other => panic!("expected CrossLibraryDepNotFound, got {other:?}"),
    }
}

#[test]
fn test_validate_semantic_valid_spec() {
    let spec = create_test_spec("pricing/apply_discount", "{ subtotal - subtotal * rate }");
    let result = validate_semantic(&spec);
    assert!(result.is_ok());
}

#[test]
fn test_validate_semantic_allows_additive_function_typescript_body() {
    let mut spec = create_test_spec("pricing/apply_tax", "{ subtotal + subtotal * rate }");
    spec.spec.body.typescript = Some("return subtotal + subtotal * rate;".to_string());

    let result = validate_semantic(&spec);
    assert!(result.is_ok(), "{result:?}");
}

#[test]
fn test_validate_full() {
    let spec = create_test_spec("utils/round", "{ x.floor() }");
    let result = validate_full(&spec);
    assert!(result.is_ok(), "Full validation should pass: {:?}", result);
}

#[test]
fn test_validate_use_statement_pub_use_in_body() {
    let spec = LoadedSpec {
        source: SpecSource {
            file_path: "test.unit.spec".to_string(),
            id: "test/func".to_string(),
        },
        spec: SpecStruct {
            id: "test/func".to_string(),
            kind: "function".to_string(),
            intent: Intent {
                why: "Test pub use".to_string(),
            },
            contract: None,
            deps: vec![],
            imports: vec![],
            body: Body {
                rust: "pub use std::collections::HashMap;\npub fn func() {}".to_string(),
                typescript: None,
            },
            local_tests: vec![],
            links: None,
            spec_version: None,
            extensions: UnitExtensions::default(),
        },
    };
    let result = validate_semantic(&spec);
    assert!(result.is_err());
    assert!(
        result
            .unwrap_err()
            .message()
            .contains("body.rust must not contain use statements")
    );
}

#[test]
fn test_validate_rust_keyword_try_in_id() {
    // `try` is reserved since Rust 2018 and was previously missing from the list
    let result = validate_rust_keywords("pricing/try", "test.unit.spec");
    assert!(result.is_err());
    assert!(
        result
            .unwrap_err()
            .message()
            .contains("Rust reserved keyword")
    );
}

#[test]
fn validate_body_fn_declaration_emits_migration_error() {
    let spec = create_test_spec("pricing/apply_discount", "pub fn apply_discount() {}");
    let err = validate_semantic(&spec).unwrap_err().message();
    assert!(
        err.contains("looks like a full function declaration"),
        "{err}"
    );
}

#[test]
fn validate_body_fn_declaration_with_args_emits_migration_error() {
    let spec = create_test_spec(
        "pricing/apply_discount",
        "pub fn apply_discount(subtotal: Decimal, rate: Decimal) -> Decimal { subtotal }",
    );
    let err = validate_semantic(&spec).unwrap_err().message();
    assert!(
        err.contains("looks like a full function declaration"),
        "{err}"
    );
}

#[test]
fn validate_body_rust_block_valid() {
    let spec = create_test_spec("pricing/apply_discount", "{ subtotal - subtotal * rate }");
    let result = validate_semantic(&spec);
    assert!(result.is_ok(), "{result:?}");
}

#[test]
fn validate_body_rust_invalid_block() {
    let spec = create_test_spec("pricing/apply_discount", "not valid rust at all !!!");
    let err = validate_semantic(&spec).unwrap_err().message();
    assert!(
        err.contains("body.rust must be a Rust block expression"),
        "{err}"
    );
}

#[test]
fn validate_body_with_macros_in_block_passes() {
    let spec = create_test_spec(
        "pricing/apply_discount",
        r#"{
let _v = vec![1, 2, 3];
assert!(true);
todo!()
}"#,
    );
    let result = validate_semantic(&spec);
    assert!(result.is_ok(), "{result:?}");
}

#[test]
fn validate_local_test_expect_rejects_non_expression() {
    let spec = LoadedSpec {
        source: SpecSource {
            file_path: "test.unit.spec".to_string(),
            id: "pricing/apply_discount".to_string(),
        },
        spec: SpecStruct {
            id: "pricing/apply_discount".to_string(),
            kind: "function".to_string(),
            intent: Intent {
                why: "Apply a discount.".to_string(),
            },
            contract: None,
            deps: vec![],
            imports: vec![],
            body: Body {
                rust: "{ }".to_string(),
                typescript: None,
            },
            local_tests: vec![LocalTest {
                id: "injection_attempt".to_string(),
                expect: "true\u{29}; \u{7d} } mod evil { fn steal() {}".to_string(),
            }],
            links: None,
            spec_version: None,
            extensions: UnitExtensions::default(),
        },
    };
    let err = validate_semantic(&spec).unwrap_err().message();
    assert!(
        err.contains("not a valid Rust expression"),
        "expected injection to be rejected: {err}"
    );
}

#[test]
fn validate_local_test_expect_accepts_valid_expression() {
    let spec = LoadedSpec {
        source: SpecSource {
            file_path: "test.unit.spec".to_string(),
            id: "pricing/apply_discount".to_string(),
        },
        spec: SpecStruct {
            id: "pricing/apply_discount".to_string(),
            kind: "function".to_string(),
            intent: Intent {
                why: "Apply a discount.".to_string(),
            },
            contract: None,
            deps: vec![],
            imports: vec![],
            body: Body {
                rust: "{ true }".to_string(),
                typescript: None,
            },
            local_tests: vec![LocalTest {
                id: "happy_path".to_string(),
                expect: "apply_discount() == true".to_string(),
            }],
            links: None,
            spec_version: None,
            extensions: UnitExtensions::default(),
        },
    };
    assert!(validate_semantic(&spec).is_ok());
}

#[test]
fn validate_local_test_expect_allows_block_expr_when_configured() {
    let spec = LoadedSpec {
        source: SpecSource {
            file_path: "test.unit.spec".to_string(),
            id: "pricing/apply_discount".to_string(),
        },
        spec: SpecStruct {
            id: "pricing/apply_discount".to_string(),
            kind: "function".to_string(),
            intent: Intent {
                why: "Apply a discount.".to_string(),
            },
            contract: None,
            deps: vec![],
            imports: vec![],
            body: Body {
                rust: "{ true }".to_string(),
                typescript: None,
            },
            local_tests: vec![LocalTest {
                id: "block_allowed".to_string(),
                expect: "{ let ok = apply_discount(); ok }".to_string(),
            }],
            links: None,
            spec_version: None,
            extensions: UnitExtensions::default(),
        },
    };

    let options = ValidationOptions {
        strict_deps: true,
        allow_unsafe_local_test_expect: true,
    };
    assert!(validate_semantic_with_options(&spec, &options).is_ok());
}

#[test]
fn validate_local_test_duplicate_ids_are_rejected() {
    let spec = LoadedSpec {
        source: SpecSource {
            file_path: "test.unit.spec".to_string(),
            id: "pricing/apply_discount".to_string(),
        },
        spec: SpecStruct {
            id: "pricing/apply_discount".to_string(),
            kind: "function".to_string(),
            intent: Intent {
                why: "Apply a discount.".to_string(),
            },
            contract: None,
            deps: vec![],
            imports: vec![],
            body: Body {
                rust: "{ true }".to_string(),
                typescript: None,
            },
            local_tests: vec![
                LocalTest {
                    id: "happy_path".to_string(),
                    expect: "apply_discount()".to_string(),
                },
                LocalTest {
                    id: "happy_path".to_string(),
                    expect: "apply_discount()".to_string(),
                },
            ],
            links: None,
            spec_version: None,
            extensions: UnitExtensions::default(),
        },
    };

    let err = validate_semantic(&spec).unwrap_err().message();
    assert!(
        err.contains("duplicate local_tests id 'happy_path'"),
        "{err}"
    );
}

#[test]
fn validate_local_test_expect_rejects_block_expression() {
    let spec = LoadedSpec {
        source: SpecSource {
            file_path: "test.unit.spec".to_string(),
            id: "pricing/apply_discount".to_string(),
        },
        spec: SpecStruct {
            id: "pricing/apply_discount".to_string(),
            kind: "function".to_string(),
            intent: Intent {
                why: "Apply a discount.".to_string(),
            },
            contract: None,
            deps: vec![],
            imports: vec![],
            body: Body {
                rust: "{ true }".to_string(),
                typescript: None,
            },
            local_tests: vec![LocalTest {
                id: "block_attempt".to_string(),
                expect: "{ std::process::exit(1); true }".to_string(),
            }],
            links: None,
            spec_version: None,
            extensions: UnitExtensions::default(),
        },
    };
    let err = validate_semantic(&spec).unwrap_err().message();
    assert!(
        err.contains("block, unsafe, closure"),
        "expected block expression to be rejected: {err}"
    );
}

#[test]
fn expect_with_unsafe_block_in_call_arg_is_rejected() {
    let spec = LoadedSpec {
        source: SpecSource {
            file_path: "test.unit.spec".to_string(),
            id: "pricing/apply_discount".to_string(),
        },
        spec: SpecStruct {
            id: "pricing/apply_discount".to_string(),
            kind: "function".to_string(),
            intent: Intent {
                why: "Apply a discount.".to_string(),
            },
            contract: None,
            deps: vec![],
            imports: vec![],
            body: Body {
                rust: "{ true }".to_string(),
                typescript: None,
            },
            local_tests: vec![LocalTest {
                id: "unsafe_in_call_arg".to_string(),
                expect: "f(unsafe { true })".to_string(),
            }],
            links: None,
            spec_version: None,
            extensions: UnitExtensions::default(),
        },
    };

    let err = validate_semantic(&spec).unwrap_err().message();
    assert!(
        err.contains("block, unsafe, closure"),
        "expected unsafe block in call arg to be rejected: {err}"
    );
}

#[test]
fn expect_with_block_in_binary_operand_is_rejected() {
    let spec = LoadedSpec {
        source: SpecSource {
            file_path: "test.unit.spec".to_string(),
            id: "pricing/apply_discount".to_string(),
        },
        spec: SpecStruct {
            id: "pricing/apply_discount".to_string(),
            kind: "function".to_string(),
            intent: Intent {
                why: "Apply a discount.".to_string(),
            },
            contract: None,
            deps: vec![],
            imports: vec![],
            body: Body {
                rust: "{ true }".to_string(),
                typescript: None,
            },
            local_tests: vec![LocalTest {
                id: "block_in_binary_operand".to_string(),
                expect: "true && { false }".to_string(),
            }],
            links: None,
            spec_version: None,
            extensions: UnitExtensions::default(),
        },
    };

    let err = validate_semantic(&spec).unwrap_err().message();
    assert!(
        err.contains("block, unsafe, closure"),
        "expected block expression in binary operand to be rejected: {err}"
    );
}

#[test]
fn expect_with_unsafe_block_in_method_call_arg_is_rejected() {
    let spec = LoadedSpec {
        source: SpecSource {
            file_path: "test.unit.spec".to_string(),
            id: "pricing/apply_discount".to_string(),
        },
        spec: SpecStruct {
            id: "pricing/apply_discount".to_string(),
            kind: "function".to_string(),
            intent: Intent {
                why: "Apply a discount.".to_string(),
            },
            contract: None,
            deps: vec![],
            imports: vec![],
            body: Body {
                rust: "{ true }".to_string(),
                typescript: None,
            },
            local_tests: vec![LocalTest {
                id: "unsafe_in_method_arg".to_string(),
                expect: "foo.bar(unsafe { true })".to_string(),
            }],
            links: None,
            spec_version: None,
            extensions: UnitExtensions::default(),
        },
    };

    let err = validate_semantic(&spec).unwrap_err().message();
    assert!(
        err.contains("block, unsafe, closure"),
        "expected unsafe block in method call arg to be rejected: {err}"
    );
}

#[test]
fn expect_with_unsafe_block_in_field_base_is_rejected() {
    let spec = LoadedSpec {
        source: SpecSource {
            file_path: "test.unit.spec".to_string(),
            id: "pricing/apply_discount".to_string(),
        },
        spec: SpecStruct {
            id: "pricing/apply_discount".to_string(),
            kind: "function".to_string(),
            intent: Intent {
                why: "Apply a discount.".to_string(),
            },
            contract: None,
            deps: vec![],
            imports: vec![],
            body: Body {
                rust: "{ true }".to_string(),
                typescript: None,
            },
            local_tests: vec![LocalTest {
                id: "unsafe_in_field_base".to_string(),
                expect: "(unsafe { foo }).field".to_string(),
            }],
            links: None,
            spec_version: None,
            extensions: UnitExtensions::default(),
        },
    };

    let err = validate_semantic(&spec).unwrap_err().message();
    assert!(
        err.contains("block, unsafe, closure"),
        "expected unsafe block in field base to be rejected: {err}"
    );
}

#[test]
fn expect_with_unsafe_block_in_index_is_rejected() {
    let spec = LoadedSpec {
        source: SpecSource {
            file_path: "test.unit.spec".to_string(),
            id: "pricing/apply_discount".to_string(),
        },
        spec: SpecStruct {
            id: "pricing/apply_discount".to_string(),
            kind: "function".to_string(),
            intent: Intent {
                why: "Apply a discount.".to_string(),
            },
            contract: None,
            deps: vec![],
            imports: vec![],
            body: Body {
                rust: "{ true }".to_string(),
                typescript: None,
            },
            local_tests: vec![LocalTest {
                id: "unsafe_in_index".to_string(),
                expect: "arr[unsafe { 0 }]".to_string(),
            }],
            links: None,
            spec_version: None,
            extensions: UnitExtensions::default(),
        },
    };

    let err = validate_semantic(&spec).unwrap_err().message();
    assert!(
        err.contains("block, unsafe, closure"),
        "expected unsafe block in index to be rejected: {err}"
    );
}

#[test]
fn expect_with_unsafe_block_in_unary_is_rejected() {
    let spec = LoadedSpec {
        source: SpecSource {
            file_path: "test.unit.spec".to_string(),
            id: "pricing/apply_discount".to_string(),
        },
        spec: SpecStruct {
            id: "pricing/apply_discount".to_string(),
            kind: "function".to_string(),
            intent: Intent {
                why: "Apply a discount.".to_string(),
            },
            contract: None,
            deps: vec![],
            imports: vec![],
            body: Body {
                rust: "{ true }".to_string(),
                typescript: None,
            },
            local_tests: vec![LocalTest {
                id: "unsafe_in_unary".to_string(),
                expect: "!(unsafe { true })".to_string(),
            }],
            links: None,
            spec_version: None,
            extensions: UnitExtensions::default(),
        },
    };

    let err = validate_semantic(&spec).unwrap_err().message();
    assert!(
        err.contains("block, unsafe, closure"),
        "expected unsafe block in unary operand to be rejected: {err}"
    );
}

#[test]
fn expect_with_unsafe_block_in_cast_is_rejected() {
    let spec = LoadedSpec {
        source: SpecSource {
            file_path: "test.unit.spec".to_string(),
            id: "pricing/apply_discount".to_string(),
        },
        spec: SpecStruct {
            id: "pricing/apply_discount".to_string(),
            kind: "function".to_string(),
            intent: Intent {
                why: "Apply a discount.".to_string(),
            },
            contract: None,
            deps: vec![],
            imports: vec![],
            body: Body {
                rust: "{ true }".to_string(),
                typescript: None,
            },
            local_tests: vec![LocalTest {
                id: "unsafe_in_cast".to_string(),
                expect: "(unsafe { 0 }) as u64".to_string(),
            }],
            links: None,
            spec_version: None,
            extensions: UnitExtensions::default(),
        },
    };

    let err = validate_semantic(&spec).unwrap_err().message();
    assert!(
        err.contains("block, unsafe, closure"),
        "expected unsafe block in cast to be rejected: {err}"
    );
}

#[test]
fn contract_type_validation_passes_with_no_contract() {
    let spec = create_test_spec("money/round", "{ () }");
    assert!(validate_semantic(&spec).is_ok());
}

#[test]
fn test_detect_cycles_no_cycle() {
    // A → B → C (no cycle)
    let mut a = create_test_spec("a/foo", "{ }");
    a.spec.deps = vec!["b/bar".to_string()];
    let mut b = create_test_spec("b/bar", "{ }");
    b.spec.deps = vec!["c/baz".to_string()];
    let c = create_test_spec("c/baz", "{ }");
    let errors = detect_cycles(&[a, b, c]);
    assert!(errors.is_empty(), "expected no cycle errors: {:?}", errors);
}

#[test]
fn test_detect_cycles_simple_cycle() {
    // A → B → A
    let mut a = create_test_spec("a/foo", "{ }");
    a.spec.deps = vec!["b/bar".to_string()];
    let mut b = create_test_spec("b/bar", "{ }");
    b.spec.deps = vec!["a/foo".to_string()];
    let errors = detect_cycles(&[a, b]);
    assert_eq!(
        errors.len(),
        1,
        "expected exactly one cycle error: {:?}",
        errors
    );
    match &errors[0] {
        SpecError::CyclicDep { cycle_path, .. } => {
            assert_eq!(cycle_path, &["a/foo", "b/bar", "a/foo"]);
        }
        other => panic!("expected CyclicDep, got {:?}", other),
    }
}

#[test]
fn test_detect_cycles_self_loop() {
    // A → A
    let mut a = create_test_spec("a/foo", "{ }");
    a.spec.deps = vec!["a/foo".to_string()];
    let errors = detect_cycles(&[a]);
    assert_eq!(
        errors.len(),
        1,
        "expected exactly one cycle error: {:?}",
        errors
    );
    match &errors[0] {
        SpecError::CyclicDep { cycle_path, .. } => {
            assert_eq!(cycle_path, &["a/foo", "a/foo"]);
        }
        other => panic!("expected CyclicDep, got {:?}", other),
    }
}

#[test]
fn test_detect_cycles_longer_cycle() {
    // A → B → C → A
    let mut a = create_test_spec("a/foo", "{ }");
    a.spec.deps = vec!["b/bar".to_string()];
    let mut b = create_test_spec("b/bar", "{ }");
    b.spec.deps = vec!["c/baz".to_string()];
    let mut c = create_test_spec("c/baz", "{ }");
    c.spec.deps = vec!["a/foo".to_string()];
    let errors = detect_cycles(&[a, b, c]);
    assert_eq!(
        errors.len(),
        1,
        "expected exactly one cycle error: {:?}",
        errors
    );
    match &errors[0] {
        SpecError::CyclicDep { cycle_path, .. } => {
            assert_eq!(cycle_path, &["a/foo", "b/bar", "c/baz", "a/foo"]);
        }
        other => panic!("expected CyclicDep, got {:?}", other),
    }
}

#[test]
fn test_detect_cycles_missing_dep_skipped() {
    // A deps B but B is not in the set — no cycle, just a missing dep
    let mut a = create_test_spec("a/foo", "{ }");
    a.spec.deps = vec!["b/bar".to_string()];
    let errors = detect_cycles(&[a]);
    assert!(
        errors.is_empty(),
        "expected no cycle errors for missing dep: {:?}",
        errors
    );
}

#[test]
fn test_detect_cycles_multiple_cycles() {
    // (A → B → A) and (C → D → C)
    let mut a = create_test_spec("a/foo", "{ }");
    a.spec.deps = vec!["b/bar".to_string()];
    let mut b = create_test_spec("b/bar", "{ }");
    b.spec.deps = vec!["a/foo".to_string()];
    let mut c = create_test_spec("c/baz", "{ }");
    c.spec.deps = vec!["d/qux".to_string()];
    let mut d = create_test_spec("d/qux", "{ }");
    d.spec.deps = vec!["c/baz".to_string()];
    let errors = detect_cycles(&[a, b, c, d]);
    assert_eq!(errors.len(), 2, "expected two cycle errors: {:?}", errors);
    for err in &errors {
        assert!(
            matches!(err, SpecError::CyclicDep { .. }),
            "expected CyclicDep, got {:?}",
            err
        );
    }
}

#[test]
fn test_detect_cycles_error_message_format() {
    let mut a = create_test_spec("money/round", "{ }");
    a.spec.deps = vec!["currency/convert".to_string()];
    let mut b = create_test_spec("currency/convert", "{ }");
    b.spec.deps = vec!["money/round".to_string()];
    let errors = detect_cycles(&[a, b]);
    assert_eq!(errors.len(), 1);
    assert!(
        errors[0].message().contains("cycle detected"),
        "{:?}",
        errors[0]
    );
    assert!(
        errors[0].message().contains("money/round"),
        "{:?}",
        errors[0]
    );
    assert!(
        errors[0].message().contains("currency/convert"),
        "{:?}",
        errors[0]
    );
}

#[test]
fn test_detect_qualified_cycles_supports_cross_library_shapes() {
    let local = create_test_spec("pricing/calculate_total", "{ }");
    let shared = create_test_spec("money/round", "{ }");
    let scoped_specs = vec![
        QualifiedLoadedSpec {
            loaded: &local,
            qualified_id: QualifiedUnitRef::new(
                Some("root".to_string()),
                "pricing/calculate_total",
            ),
            qualified_deps: vec![QualifiedUnitRef::new(
                Some("shared".to_string()),
                "money/round",
            )],
        },
        QualifiedLoadedSpec {
            loaded: &shared,
            qualified_id: QualifiedUnitRef::new(Some("shared".to_string()), "money/round"),
            qualified_deps: vec![QualifiedUnitRef::new(
                Some("root".to_string()),
                "pricing/calculate_total",
            )],
        },
    ];

    let errors = detect_qualified_cycles(&scoped_specs);
    assert_eq!(errors.len(), 1, "{errors:?}");
    match &errors[0] {
        SpecError::CrossLibraryCycle { cycle_path, .. } => {
            assert_eq!(
                cycle_path,
                &[
                    "root::pricing/calculate_total".to_string(),
                    "shared::money/round".to_string(),
                    "root::pricing/calculate_total".to_string(),
                ]
            );
        }
        other => panic!("expected CrossLibraryCycle, got {other:?}"),
    }
}

#[test]
fn test_detect_qualified_cycles_classifies_root_and_imported_cycle_as_cross_library() {
    let local = create_test_spec("pricing/apply_discount", "{ }");
    let shared = create_test_spec("money/round", "{ }");
    let scoped_specs = vec![
        QualifiedLoadedSpec {
            loaded: &local,
            qualified_id: QualifiedUnitRef::local("pricing/apply_discount"),
            qualified_deps: vec![QualifiedUnitRef::new(
                Some("shared".to_string()),
                "money/round",
            )],
        },
        QualifiedLoadedSpec {
            loaded: &shared,
            qualified_id: QualifiedUnitRef::new(Some("shared".to_string()), "money/round"),
            qualified_deps: vec![QualifiedUnitRef::local("pricing/apply_discount")],
        },
    ];

    let errors = detect_qualified_cycles(&scoped_specs);
    assert_eq!(errors.len(), 1, "{errors:?}");
    match &errors[0] {
        SpecError::CrossLibraryCycle { cycle_path, .. } => {
            assert_eq!(
                cycle_path,
                &[
                    "pricing/apply_discount".to_string(),
                    "shared::money/round".to_string(),
                    "pricing/apply_discount".to_string(),
                ]
            );
        }
        other => panic!("expected CrossLibraryCycle, got {other:?}"),
    }
}

#[test]
fn check_spec_versions_warns_on_missing() {
    let spec = create_test_spec("pricing/apply_discount", "{ }");
    assert!(spec.spec.spec_version.is_none());
    let warnings = check_spec_versions(&[spec]);
    assert_eq!(warnings.len(), 1);
    assert!(
        warnings[0].message().contains("spec_version not set"),
        "{:?}",
        warnings[0]
    );
    assert!(
        warnings[0]
            .message()
            .contains(&format!("spec_version: \"{AUTHORED_SPEC_VERSION}\"")),
        "{:?}",
        warnings[0]
    );
}

#[test]
fn check_spec_versions_no_warning_when_set() {
    let mut spec = create_test_spec("pricing/apply_discount", "{ }");
    spec.spec.spec_version = Some("0.3.0".to_string());
    let warnings = check_spec_versions(&[spec]);
    assert!(warnings.is_empty(), "expected no warnings: {:?}", warnings);
}

#[test]
fn check_spec_versions_partial_warning() {
    let spec_with = {
        let mut s = create_test_spec("pricing/apply_discount", "{ }");
        s.spec.spec_version = Some("0.3.0".to_string());
        s
    };
    let spec_without = create_test_spec("money/round", "{ }");
    let warnings = check_spec_versions(&[spec_with, spec_without]);
    assert_eq!(warnings.len(), 1);
    assert!(warnings[0].message().contains("money/round"));
}

#[test]
fn expect_deeply_nested_parens_are_rejected_at_depth_cap() {
    let nested = format!("{}true{}", "(".repeat(200), ")".repeat(200));
    let err = validate_semantic(&LoadedSpec {
        source: SpecSource {
            file_path: "test.unit.spec".to_string(),
            id: "pricing/apply_discount".to_string(),
        },
        spec: SpecStruct {
            id: "pricing/apply_discount".to_string(),
            kind: "function".to_string(),
            intent: Intent {
                why: "Apply a discount.".to_string(),
            },
            contract: None,
            deps: vec![],
            imports: vec![],
            body: Body {
                rust: "{ true }".to_string(),
                typescript: None,
            },
            local_tests: vec![LocalTest {
                id: "deep".to_string(),
                expect: nested,
            }],
            links: None,
            spec_version: None,
            extensions: UnitExtensions::default(),
        },
    })
    .unwrap_err();

    assert!(err.message().contains("maximum depth of 128"));
}

#[test]
fn reserved_unit_name_molecule_tests_is_rejected() {
    let spec = create_test_spec("pricing/molecule_tests", "{ }");
    let err = validate_semantic(&spec).unwrap_err().message();
    assert!(
        err.contains("reserved"),
        "expected 'reserved' in error, got: {err}"
    );
    assert!(
        err.contains("molecule_tests"),
        "expected segment name in error, got: {err}"
    );
}

#[test]
fn reserved_unit_name_nested_molecule_tests_is_rejected() {
    let spec = create_test_spec("pricing/sub/molecule_tests", "{ }");
    let err = validate_semantic(&spec).unwrap_err().message();
    assert!(
        err.contains("reserved"),
        "expected 'reserved' in error, got: {err}"
    );
}

#[test]
fn reserved_unit_name_namespace_molecule_tests_is_rejected() {
    let spec = create_test_spec("qa/molecule_tests/foo", "{ }");
    let err = validate_semantic(&spec).unwrap_err().message();
    assert!(
        err.contains("reserved"),
        "expected 'reserved' in error, got: {err}"
    );
    assert!(
        err.contains("molecule_tests"),
        "expected segment name in error, got: {err}"
    );
}

#[test]
fn reserved_unit_name_deep_namespace_molecule_tests_is_rejected() {
    let spec = create_test_spec("qa/sub/molecule_tests/foo", "{ }");
    let err = validate_semantic(&spec).unwrap_err().message();
    assert!(
        err.contains("reserved"),
        "expected 'reserved' in error, got: {err}"
    );
}

#[test]
fn non_reserved_similar_unit_name_passes() {
    let spec = create_test_spec("qa/molecule_test_helpers/foo", "{ }");
    assert!(validate_semantic(&spec).is_ok());
}

#[test]
fn non_reserved_unit_name_passes() {
    let spec = create_test_spec("pricing/apply_discount", "{ }");
    assert!(validate_semantic(&spec).is_ok());
}

#[test]
fn typescript_target_rejects_molecule_specs_before_execution() {
    let test =
        create_molecule_test_spec("pricing/discount_plus_tax", vec!["pricing/apply_tax"]);
    let err = validate_typescript_molecule_target(&test).unwrap_err();
    assert!(
        err.message()
            .contains(".test.spec is not supported for --target-language typescript in M52"),
        "unexpected error: {err:?}"
    );
}

#[test]
fn covers_unknown_unit_id_returns_covers_not_found_error() {
    let mut molecule_test = create_molecule_test_spec(
        "pricing/checkout_flow",
        vec!["pricing/apply_discount", "pricing/unknown_unit"],
    );
    molecule_test.test.imports = Some(vec![]);
    let unit_ids: Vec<String> = ["pricing/apply_discount"].into_iter().map(String::from).collect();

    let (errors, warnings) = validate_molecule_test_covers(&molecule_test, &unit_ids);

    assert!(warnings.is_empty());
    assert_eq!(errors.len(), 1);
    match &errors[0] {
        SpecError::MoleculeCoversNotFound {
            cover_id,
            test_id,
            test_path,
        } => {
            assert_eq!(cover_id, "pricing/unknown_unit");
            assert_eq!(test_id, "pricing/checkout_flow");
            assert!(test_path.ends_with("checkout_flow.test.spec"));
        }
        other => panic!("expected MoleculeCoversNotFound, got {other:?}"),
    }
}

#[test]
fn covers_all_known_unit_ids_returns_no_errors() {
    let mut molecule_test = create_molecule_test_spec(
        "pricing/checkout_flow",
        vec!["pricing/apply_discount", "pricing/apply_tax"],
    );
    molecule_test.test.imports = Some(vec![]);
    let unit_ids: Vec<String> = ["pricing/apply_discount", "pricing/apply_tax"]
        .into_iter()
        .map(String::from)
        .collect();

    let (errors, warnings) = validate_molecule_test_covers(&molecule_test, &unit_ids);

    assert!(errors.is_empty());
    assert!(warnings.is_empty());
}

#[test]
fn covers_empty_list_emits_warning_not_error() {
    let molecule_test = create_molecule_test_spec("pricing/checkout_flow", vec![]);
    let unit_ids: Vec<String> = ["pricing/apply_discount"].into_iter().map(String::from).collect();

    let (errors, warnings) = validate_molecule_test_covers(&molecule_test, &unit_ids);

    assert!(errors.is_empty(), "empty covers should not be an error");
    assert_eq!(
        warnings.len(),
        2,
        "expected empty-covers and implicit-import warnings"
    );
    assert!(
        warnings
            .iter()
            .any(|warning| matches!(warning, SpecWarning::MoleculeTestNoCoveredUnits { .. }))
    );
    assert!(warnings.iter().any(|warning| matches!(
        warning,
        SpecWarning::MoleculeImplicitImportsDeprecated { .. }
    )));
}

#[test]
fn duplicate_molecule_test_ids_returns_error() {
    let test_a = create_molecule_test_spec("pricing/checkout_flow", vec!["money/round"]);
    let test_b = create_molecule_test_spec("pricing/checkout_flow", vec!["pricing/apply_tax"]);

    let errors = validate_no_duplicate_molecule_test_ids(&[test_a, test_b]);

    assert_eq!(errors.len(), 1);
    match &errors[0] {
        SpecError::DuplicateMoleculeTestId { id, .. } => {
            assert_eq!(id, "pricing/checkout_flow");
        }
        other => panic!("expected DuplicateMoleculeTestId, got {other:?}"),
    }
}

#[test]
fn unique_molecule_test_ids_returns_no_errors() {
    let test_a = create_molecule_test_spec("pricing/checkout_flow", vec!["money/round"]);
    let test_b = create_molecule_test_spec("pricing/discount_flow", vec!["money/round"]);

    let errors = validate_no_duplicate_molecule_test_ids(&[test_a, test_b]);

    assert!(errors.is_empty());
}

#[test]
fn empty_molecule_test_slice_returns_no_errors() {
    let errors = validate_no_duplicate_molecule_test_ids(&[]);
    assert!(errors.is_empty());
}

/// `IndexMap::insert` on an ordered list of pairs: replaces in place, or appends.
fn index_insert<V>(map: &mut Vec<(String, V)>, key: String, value: V) {
    if let Some(entry) = map.iter_mut().find(|entry| entry.0 == key) {
        entry.1 = value;
    } else {
        map.push((key, value));
    }
}

/// `IndexMap::shift_remove` on an ordered list of pairs.
fn shift_remove<V>(map: &mut Vec<(String, V)>, key: &str) -> Option<V> {
    let position = map.iter().position(|entry| entry.0 == key)?;
    Some(map.remove(position).1)
}

fn make_spec_with_contract(inputs: Option<Vec<(String, String)>>, returns: Option<&str>) -> LoadedSpec {
    LoadedSpec {
        source: SpecSource {
            file_path: "test/pricing/apply_tax.unit.spec".to_string(),
            id: "pricing/apply_tax".to_string(),
        },
        spec: SpecStruct {
            id: "pricing/apply_tax".to_string(),
            kind: "function".to_string(),
            intent: Intent {
                why: "Apply tax.".to_string(),
            },
            contract: Some(Contract {
                inputs,
                returns: returns.map(String::from),
                invariants: vec![],
            }),
            deps: vec![],
            imports: vec![],
            body: Body {
                rust: "{ () }".to_string(),
                typescript: None,
            },
            local_tests: vec![],
            links: None,
            spec_version: None,
            extensions: UnitExtensions::default(),
        },
    }
}

#[test]
fn test_validate_data_semantic_valid_spec() {
    let spec = create_data_spec("pricing/checkout_quote");
    let result = validate_semantic(&spec);
    assert!(result.is_ok(), "{result:?}");
}

#[test]
fn test_validate_data_semantic_valid_spec_with_empty_placeholder_body() {
    let mut spec = create_data_spec("pricing/checkout_quote");
    spec.spec.body = Body::default();

    let result = validate_semantic(&spec);
    assert!(result.is_ok(), "{result:?}");
}

#[test]
fn test_validate_sum_semantic_valid_spec() {
    let spec = create_sum_spec("pricing/checkout_status");
    let result = validate_semantic(&spec);
    assert!(result.is_ok(), "{result:?}");
}

#[test]
fn test_validate_sum_semantic_rejects_projected_variant_name_collision() {
    let mut spec = create_sum_spec("pricing/checkout_status");
    index_insert(
        &mut spec.spec.extensions.sum.as_mut().unwrap().variants,
        "quoted__total".to_string(),
        AuthoredSumVariant {
            fields: Vec::new(),
        },
    );

    let err = validate_semantic(&spec).unwrap_err().message();
    assert!(
        err.contains("projects to Rust variant name 'QuotedTotal'"),
        "{err}"
    );
    assert!(err.contains("quoted_total"), "{err}");
    assert!(err.contains("quoted__total"), "{err}");
}

#[test]
fn test_validate_sum_semantic_rejects_projected_invalid_rust_identifier() {
    let mut spec = create_sum_spec("pricing/checkout_status");
    let sum = spec.spec.extensions.sum.as_mut().unwrap();
    let variant = shift_remove(&mut sum.variants, "pending").unwrap();
    index_insert(&mut sum.variants, "self_".to_string(), variant);

    let err = validate_semantic(&spec).unwrap_err().message();
    assert!(err.contains("sum.variants[1].id"), "{err}");
    assert!(err.contains("'self_'"), "{err}");
    assert!(err.contains("'Self'"), "{err}");
}

#[test]
fn test_validate_sum_semantic_allows_projected_pascal_case_keyword_like_name() {
    let mut spec = create_sum_spec("pricing/checkout_status");
    let sum = spec.spec.extensions.sum.as_mut().unwrap();
    let variant = shift_remove(&mut sum.variants, "pending").unwrap();
    index_insert(&mut sum.variants, "super_".to_string(), variant);

    let result = validate_semantic(&spec);
    assert!(result.is_ok(), "{result:?}");
}

#[test]
fn test_validate_sum_semantic_rejects_variant_name_collision_with_enum_name() {
    let mut spec = create_sum_spec("pricing/checkout_status");
    let sum = spec.spec.extensions.sum.as_mut().unwrap();
    let variant = shift_remove(&mut sum.variants, "pending").unwrap();
    index_insert(&mut sum.variants, "checkout_status".to_string(), variant);

    let err = validate_semantic(&spec).unwrap_err().message();
    assert!(
        err.contains("conflicts with the emitted enum name 'CheckoutStatus'"),
        "{err}"
    );
}

#[test]
fn test_validate_sum_semantic_rejects_top_level_typescript_body() {
    let mut spec = create_sum_spec("pricing/checkout_status");
    spec.spec.body.typescript = Some("return \"pending\";".to_string());

    let err = validate_semantic(&spec).unwrap_err().message();
    assert!(
        err.contains("kind:sum must not declare top-level body.typescript"),
        "{err}"
    );
}

#[test]
fn test_validate_data_semantic_rejects_missing_constructor_behavior() {
    let mut spec = create_data_spec("pricing/checkout_quote");
    spec.spec.extensions.constructors.clear();

    let err = validate_semantic(&spec).unwrap_err().message();
    assert!(
        err.contains("kind:data requires at least one constructor"),
        "{err}"
    );
}

#[test]
fn test_validate_data_semantic_rejects_missing_method_behavior() {
    let mut spec = create_data_spec("pricing/checkout_quote");
    spec.spec.extensions.methods.clear();

    let err = validate_semantic(&spec).unwrap_err().message();
    assert!(
        err.contains("kind:data requires at least one method"),
        "{err}"
    );
}

#[test]
fn test_validate_data_semantic_allows_identical_cross_method_dep_reuse() {
    let mut spec = create_data_spec("pricing/checkout_quote");
    spec.spec
        .extensions
        .methods
        .push(spec.spec.extensions.methods[0].clone());
    spec.spec.extensions.methods[1].id = "tax_preview".to_string();

    let result = validate_semantic(&spec);
    assert!(result.is_ok(), "{result:?}");
}

#[test]
fn test_validate_data_semantic_rejects_invalid_rust_backend_derive() {
    let mut spec = create_data_spec("pricing/checkout_quote");
    spec.spec
        .extensions
        .backends
        .as_mut()
        .unwrap()
        .rust
        .as_mut()
        .unwrap()
        .derives = vec!["not valid rust".to_string()];

    let err = validate_semantic(&spec).unwrap_err().message();
    assert!(
        err.contains("backends.rust.derives[0] must be a valid Rust path"),
        "{err}"
    );
    assert!(err.contains("not valid rust"), "{err}");
}

#[test]
fn test_validate_data_semantic_accepts_multi_segment_rust_backend_derive() {
    let mut spec = create_data_spec("pricing/checkout_quote");
    spec.spec
        .extensions
        .backends
        .as_mut()
        .unwrap()
        .rust
        .as_mut()
        .unwrap()
        .derives
        .push("serde::Serialize".to_string());

    let result = validate_semantic(&spec);
    assert!(result.is_ok(), "{result:?}");
}

#[test]
fn test_validate_data_semantic_rejects_duplicate_constructor_ids() {
    let mut spec = create_data_spec("pricing/checkout_quote");
    spec.spec
        .extensions
        .constructors
        .push(spec.spec.extensions.constructors[0].clone());

    let err = validate_semantic(&spec).unwrap_err().message();
    assert!(err.contains("duplicate constructor id 'new'"), "{err}");
}

#[test]
fn test_validate_data_semantic_rejects_duplicate_method_ids() {
    let mut spec = create_data_spec("pricing/checkout_quote");
    spec.spec
        .extensions
        .methods
        .push(spec.spec.extensions.methods[0].clone());

    let err = validate_semantic(&spec).unwrap_err().message();
    assert!(err.contains("duplicate method id 'total'"), "{err}");
}

#[test]
fn test_validate_data_semantic_rejects_constructor_method_id_collision() {
    let mut spec = create_data_spec("pricing/checkout_quote");
    spec.spec.extensions.methods[0].id = "new".to_string();

    let err = validate_semantic(&spec).unwrap_err().message();
    assert!(
        err.contains("constructors[0].id 'new' conflicts with methods[0].id 'new'"),
        "{err}"
    );
}

#[test]
fn test_validate_data_semantic_rejects_unsupported_receiver_mode() {
    let mut spec = create_data_spec("pricing/checkout_quote");
    spec.spec.extensions.methods[0].receiver = "shared_mut".to_string();

    let err = validate_semantic(&spec).unwrap_err().message();
    assert!(err.contains("unsupported mode 'shared_mut'"), "{err}");
}

#[test]
fn test_validate_data_semantic_rejects_missing_required_constructor_fields() {
    let mut spec = create_data_spec("pricing/checkout_quote");
    shift_remove(&mut spec.spec.extensions.constructors[0].initializes, "tax_rate");

    let err = validate_semantic(&spec).unwrap_err().message();
    assert!(
        err.contains("omits required field initialization for"),
        "{err}"
    );
    assert!(err.contains("tax_rate"), "{err}");
}

#[test]
fn test_validate_data_semantic_rejects_shared_semantic_escape_hatch() {
    let mut spec = create_data_spec("pricing/checkout_quote");
    spec.spec.body.rust = "{ unreachable!(\"escape hatch\") }".to_string();

    let err = validate_semantic(&spec).unwrap_err().message();
    assert!(
        err.contains("kind:data must leave top-level body.rust empty"),
        "{err}"
    );
}

#[test]
fn test_validate_data_semantic_rejects_top_level_typescript_body() {
    let mut spec = create_data_spec("pricing/checkout_quote");
    spec.spec.body.typescript = Some("return unreachable();".to_string());

    let err = validate_semantic(&spec).unwrap_err().message();
    assert!(
        err.contains("kind:data must not declare top-level body.typescript"),
        "{err}"
    );
}

#[test]
fn test_validate_data_semantic_rejects_constructor_return_override() {
    let mut spec = create_data_spec("pricing/checkout_quote");
    spec.spec.extensions.constructors[0]
        .contract
        .as_mut()
        .unwrap()
        .returns = Some("CheckoutQuote".to_string());

    let err = validate_semantic(&spec).unwrap_err().message();
    assert!(
        err.contains("constructors[0].contract.returns is not allowed"),
        "{err}"
    );
}

#[test]
fn test_validate_data_semantic_rejects_missing_method_contract() {
    let mut spec = create_data_spec("pricing/checkout_quote");
    spec.spec.extensions.methods[0].contract = None;

    let err = validate_semantic(&spec).unwrap_err().message();
    assert!(
        err.contains("methods[0].contract is required for kind:data"),
        "{err}"
    );
}

#[test]
fn test_validate_data_semantic_rejects_invalid_method_dep() {
    let mut spec = create_data_spec("pricing/checkout_quote");
    spec.spec.extensions.methods[0].deps = vec!["not a dep".to_string()];

    let err = validate_semantic(&spec).unwrap_err().message();
    assert!(
        err.contains("methods[0].deps contains invalid dep"),
        "{err}"
    );
}

#[test]
fn test_validate_data_semantic_rejects_cross_method_dep_callable_collision() {
    let mut spec = create_data_spec("pricing/checkout_quote");
    spec.spec.extensions.methods[0].deps = vec!["demo/foo".to_string()];
    spec.spec
        .extensions
        .methods
        .push(spec.spec.extensions.methods[0].clone());
    spec.spec.extensions.methods[1].id = "discount_preview".to_string();
    spec.spec.extensions.methods[1].deps = vec!["util/foo".to_string()];

    let err = validate_semantic(&spec).unwrap_err();
    match err {
        SpecError::DepCollision {
            dep1,
            dep2,
            fn_name,
            path,
        } => {
            assert_eq!(dep1, "demo/foo");
            assert_eq!(dep2, "util/foo");
            assert_eq!(fn_name, "foo");
            assert_eq!(path, "test/pricing/checkout_quote.unit.spec");
        }
        other => panic!("expected DepCollision, got {other:?}"),
    }
}

#[test]
fn test_validate_deps_exist_reports_missing_data_method_dep() {
    let spec = create_data_spec("pricing/checkout_quote");

    let (errors, warnings) = validate_deps_exist(&[spec]);
    assert_eq!(errors.len(), 1, "{errors:?}");
    assert!(warnings.is_empty(), "{warnings:?}");
    match &errors[0] {
        SpecError::MissingDep { dep, .. } => assert_eq!(dep, "pricing/apply_tax"),
        other => panic!("expected MissingDep, got {other:?}"),
    }
}

#[test]
fn test_detect_cycles_reports_data_method_cycle() {
    let mut alpha = create_data_spec("pricing/alpha");
    alpha.spec.extensions.methods[0].deps = vec!["pricing/beta".to_string()];

    let mut beta = create_data_spec("pricing/beta");
    beta.spec.extensions.methods[0].deps = vec!["pricing/alpha".to_string()];

    let errors = detect_cycles(&[alpha, beta]);
    assert_eq!(errors.len(), 1, "{errors:?}");
    match &errors[0] {
        SpecError::CyclicDep { cycle_path, .. } => {
            assert_eq!(
                cycle_path,
                &["pricing/alpha", "pricing/beta", "pricing/alpha"]
            );
        }
        other => panic!("expected CyclicDep, got {other:?}"),
    }
}

#[test]
fn contract_type_validation_passes_for_valid_types() {
    let mut inputs: Vec<(String, String)> = Vec::new();
    index_insert(&mut inputs, "subtotal".to_string(), "Decimal".to_string());
    index_insert(&mut inputs, "rate".to_string(), "Decimal".to_string());
    let spec = make_spec_with_contract(Some(inputs), Some("Decimal"));
    assert!(validate_semantic(&spec).is_ok());
}

#[test]
fn contract_type_validation_rejects_invalid_input_type() {
    let mut inputs: Vec<(String, String)> = Vec::new();
    index_insert(&mut inputs, "amount".to_string(), "Strinng".to_string());
    // "Strinng" is a valid identifier so syn parses it fine as a Type::Path.
    // Use something syntactically invalid to verify the error path:
    index_insert(&mut inputs, "rate".to_string(), "Vec<".to_string());
    let spec = make_spec_with_contract(Some(inputs), Some("Decimal"));
    let err = validate_semantic(&spec).unwrap_err().message();
    assert!(
        err.contains("contract.inputs.rate") && err.contains("invalid Rust type"),
        "expected ContractTypeInvalid for inputs.rate: {err}"
    );
}

#[test]
fn contract_type_validation_rejects_invalid_return_type() {
    let mut inputs: Vec<(String, String)> = Vec::new();
    index_insert(&mut inputs, "subtotal".to_string(), "Decimal".to_string());
    let spec = make_spec_with_contract(Some(inputs), Some("Vec<"));
    let err = validate_semantic(&spec).unwrap_err().message();
    assert!(
        err.contains("contract.returns") && err.contains("invalid Rust type"),
        "expected ContractTypeInvalid for returns: {err}"
    );
}

#[test]
fn contract_type_validation_rejects_keyword_input_name() {
    let mut inputs: Vec<(String, String)> = Vec::new();
    index_insert(&mut inputs, "type".to_string(), "Decimal".to_string());
    let spec = make_spec_with_contract(Some(inputs), None);
    let err = validate_semantic(&spec).unwrap_err().message();
    assert!(
        err.contains("'type'") && err.contains("not a valid Rust identifier"),
        "expected ContractInputNameInvalid for keyword key: {err}"
    );
}

#[test]
fn contract_type_validation_rejects_hyphenated_input_name() {
    let mut inputs: Vec<(String, String)> = Vec::new();
    index_insert(&mut inputs, "bad-name".to_string(), "Decimal".to_string());
    let spec = make_spec_with_contract(Some(inputs), None);
    let err = validate_semantic(&spec).unwrap_err().message();
    assert!(
        err.contains("'bad-name'") && err.contains("snake_case"),
        "expected ContractInputNameInvalid for hyphenated key: {err}"
    );
}

#[test]
fn detect_cycles_reports_each_back_edge_in_the_closing_file() {
    let mut a = create_test_spec("a/foo", "{ }");
    a.spec.deps = vec!["b/bar".to_string()];
    let mut b = create_test_spec("b/bar", "{ }");
    b.spec.deps = vec!["a/foo".to_string()];
    let mut c = create_test_spec("c/baz", "{ }");
    c.spec.deps = vec!["c/baz".to_string()];
    let errors = detect_cycles(&[a, b, c]);
    assert_eq!(errors.len(), 2, "{:?}", errors);
    match &errors[0] {
        SpecError::CyclicDep { cycle_path, path } => {
            assert_eq!(cycle_path, &["a/foo", "b/bar", "a/foo"]);
            assert_eq!(path, "test/b/bar.unit.spec");
        }
        other => panic!("expected CyclicDep, got {:?}", other),
    }
    match &errors[1] {
        SpecError::CyclicDep { cycle_path, path } => {
            assert_eq!(cycle_path, &["c/baz", "c/baz"]);
            assert_eq!(path, "test/c/baz.unit.spec");
        }
        other => panic!("expected CyclicDep, got {:?}", other),
    }
}

fn spec_with_expect(expect: &str) -> LoadedSpec {
    let mut spec = create_test_spec("pricing/apply_discount", "{ }");
    spec.spec.local_tests = vec![LocalTest { id: "t1".to_string(), expect: expect.to_string() }];
    spec
}

#[test]
fn local_test_expect_is_trimmed_before_it_is_checked() {
    assert!(validate_semantic(&spec_with_expect("  apply_discount(100, 10) == 90 \n")).is_ok());
}

#[test]
fn local_test_expect_closure_after_unicode_space_is_refused() {
    let err = validate_semantic(&spec_with_expect("f(\u{a0}|x| x)")).unwrap_err();
    assert!(matches!(err, SpecError::LocalTestExpectNotExpr { .. }), "{err:?}");
}

#[test]
fn use_behind_unicode_visibility_word_is_refused() {
    let spec = create_test_spec("pricing/apply_discount", "{\npub\u{e9} use x;\n}");
    let err = validate_semantic(&spec).unwrap_err();
    assert!(matches!(err, SpecError::UseStatementInBody { .. }), "{err:?}");
}
