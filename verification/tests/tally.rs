use sha2::{Digest, Sha256};
use spec_core::family::artifacts::{PromotionArtifactKind, UnsupportedFunctionReasonCode};
use spec_core::family::coverage::ManifestSource;
use spec_core::family::coverage_checks::{CandidateStatus, SourceKind};
use spec_core::family::error::XtaskError;
use spec_core::family::tally::{
    coverage_artifact, normalized_for_recommend_determinism, tally_corpus, EvaluatorScope, ReviewedSource, ReviewedUnit,
};
use spec_core::model::UnitKind;

fn source(id: &str, kind: SourceKind, counts: bool, units: Vec<ReviewedUnit>) -> ReviewedSource {
    ReviewedSource {
        source: ManifestSource {
            id: id.to_string(),
            path: format!("corpus/{id}"),
            kind,
            counts_toward_recommendation: counts,
            note: format!("{id} note"),
        },
        units,
    }
}

fn supported(id: &str, key: &str) -> ReviewedUnit {
    ReviewedUnit {
        unit_id: id.to_string(),
        file_path: format!("corpus/{id}.unit.spec"),
        kind: UnitKind::Function,
        supported: true,
        scope: EvaluatorScope::SupportedFunctionSurface,
        compatibility_key: key.to_string(),
        unsupported_reason: None,
        shape_fingerprint: None,
    }
}

fn unsupported(id: &str, file: &str, reason: Option<UnsupportedFunctionReasonCode>, fp: Option<&str>) -> ReviewedUnit {
    ReviewedUnit {
        unit_id: id.to_string(),
        file_path: file.to_string(),
        kind: UnitKind::Function,
        supported: false,
        scope: EvaluatorScope::OtherSurface,
        compatibility_key: String::new(),
        unsupported_reason: reason,
        shape_fingerprint: fp.map(|s| s.to_string()),
    }
}

fn other(id: &str, kind: UnitKind, supported: bool, scope: EvaluatorScope) -> ReviewedUnit {
    ReviewedUnit {
        unit_id: id.to_string(),
        file_path: format!("corpus/{id}.unit.spec"),
        kind,
        supported,
        scope,
        compatibility_key: String::new(),
        unsupported_reason: None,
        shape_fingerprint: None,
    }
}

fn corpus() -> Vec<ReviewedSource> {
    vec![
        source(
            "real",
            SourceKind::RealExample,
            true,
            vec![
                supported("a/f1", "fam.b"),
                supported("a/f2", "fam.a"),
                unsupported(
                    "a/g",
                    "corpus/real/g.unit.spec",
                    Some(UnsupportedFunctionReasonCode::UnsupportedArithmeticShape),
                    Some("{x}"),
                ),
                other("a/d", UnitKind::Data, true, EvaluatorScope::SupportedDataSurface),
            ],
        ),
        source(
            "reg",
            SourceKind::RegressionUnsupported,
            true,
            vec![
                unsupported(
                    "b/g",
                    "corpus/reg/g_under_specified.unit.spec",
                    Some(UnsupportedFunctionReasonCode::UnsupportedArithmeticShape),
                    Some("{x}"),
                ),
                unsupported("b/h", "corpus/reg/h_unsupported_near_miss.unit.spec", None, Some("{y}")),
                other("b/s", UnitKind::Sum, false, EvaluatorScope::OtherSurface),
            ],
        ),
    ]
}

fn short_sha(text: &str) -> String {
    format!("{:x}", Sha256::digest(text.as_bytes()))[..12].to_string()
}

fn message<T>(r: Result<T, XtaskError>) -> String {
    match r {
        Err(XtaskError::InvalidInput(m)) => m,
        Err(other) => panic!("unexpected error {other:?}"),
        Ok(_) => panic!("expected an error"),
    }
}

#[test]
fn tally_counts_every_unit_once() {
    let tally = tally_corpus(&corpus(), &vec!["fam.a".to_string()]).unwrap();
    assert_eq!(tally.function_coverage.total_units, 5);
    assert_eq!(tally.function_coverage.promoted_family_units, 1);
    assert_eq!(tally.function_coverage.supported_unpromoted_family_units, 1);
    assert_eq!(tally.function_coverage.unsupported_function_units, 3);
    assert_eq!(tally.non_function_coverage.total_units, 2);
    assert_eq!(tally.non_function_coverage.supported_sum_units, 0);
    assert_eq!(tally.non_function_coverage.supported_data_units, 1);
    assert_eq!(tally.non_function_coverage.other_units, 1);
    assert_eq!(
        tally.function_coverage.promoted_family_units
            + tally.function_coverage.supported_unpromoted_family_units
            + tally.function_coverage.unsupported_function_units,
        tally.function_coverage.total_units
    );
}

#[test]
fn tally_lists_sources_in_manifest_order() {
    let tally = tally_corpus(&corpus(), &vec![]).unwrap();
    assert_eq!(tally.sources.len(), 2);
    assert_eq!(tally.sources[0].id, "real");
    assert_eq!(tally.sources[0].path, "corpus/real");
    assert_eq!(tally.sources[0].unit_count, 4);
    assert_eq!(tally.sources[1].id, "reg");
    assert_eq!(tally.sources[1].unit_count, 3);
    assert_eq!(tally.sources[1].note, "reg note");
}

#[test]
fn tally_groups_families_in_string_order() {
    let tally = tally_corpus(&corpus(), &vec!["fam.a".to_string()]).unwrap();
    let families: Vec<&str> = tally.family_coverage.iter().map(|e| e.family.as_str()).collect();
    assert_eq!(families, vec!["fam.a", "fam.b"]);
    assert_eq!(tally.family_coverage[0].unit_ids, vec!["real::a/f2".to_string()]);
    assert_eq!(tally.family_coverage[0].source_ids, vec!["real".to_string()]);
    assert_eq!(tally.family_coverage[0].unit_count, 1);
    assert_eq!(tally.family_coverage[1].unit_ids, vec!["real::a/f1".to_string()]);
}

#[test]
fn tally_clusters_unsupported_functions_by_reason_then_shape() {
    let tally = tally_corpus(&corpus(), &vec![]).unwrap();
    assert_eq!(tally.unsupported_clusters.len(), 2);
    let first = &tally.unsupported_clusters[0];
    assert_eq!(first.reason_code, UnsupportedFunctionReasonCode::UnsupportedFunctionSurface);
    assert_eq!(first.shape_fingerprint, "{y}");
    assert_eq!(
        first.cluster_id,
        format!("unsupported_function_surface-{}", short_sha("UnsupportedFunctionSurface:{y}"))
    );
    assert_eq!(first.representative_unit_ids, vec!["reg::b/h".to_string()]);
    assert_eq!(first.boundary_only_hits, 1);
    assert_eq!(first.real_example_hits, 0);
    assert_eq!(first.candidate_status, CandidateStatus::BoundaryOnly);
    assert_eq!(first.overlap_family, "unknown");

    let second = &tally.unsupported_clusters[1];
    assert_eq!(second.reason_code, UnsupportedFunctionReasonCode::UnsupportedArithmeticShape);
    assert_eq!(
        second.cluster_id,
        format!("unsupported_arithmetic_shape-{}", short_sha("UnsupportedArithmeticShape:{x}"))
    );
    assert_eq!(second.representative_unit_ids, vec!["real::a/g".to_string(), "reg::b/g".to_string()]);
    assert_eq!(second.source_ids, vec!["real".to_string(), "reg".to_string()]);
    assert_eq!(second.real_example_hits, 1);
    assert_eq!(second.promotion_relevant_regression_hits, 1);
    assert_eq!(second.boundary_only_hits, 0);
    assert_eq!(second.overlap_family, "function.arithmetic_leaf.monotone_*");
    assert_eq!(second.candidate_status, CandidateStatus::Rankable);
}

#[test]
fn tally_refuses_duplicate_unit_ids() {
    let dup = vec![source(
        "real",
        SourceKind::RealExample,
        true,
        vec![supported("a/f", "fam.a"), supported("a/f", "fam.b")],
    )];
    assert_eq!(message(tally_corpus(&dup, &vec![])), "corpus source `real` contains duplicate unit ids");
}

#[test]
fn tally_refuses_unsupported_function_without_fingerprint() {
    let missing = vec![source(
        "real",
        SourceKind::RealExample,
        true,
        vec![unsupported("a/g", "corpus/real/g.unit.spec", None, None)],
    )];
    assert_eq!(
        message(tally_corpus(&missing, &vec![])),
        "unsupported function `a/g` did not produce a stable shape fingerprint"
    );
}

#[test]
fn tally_reports_the_first_problem_in_source_order() {
    let srcs = vec![
        source(
            "first",
            SourceKind::RealExample,
            true,
            vec![unsupported("a/g", "corpus/first/g.unit.spec", None, None)],
        ),
        source("second", SourceKind::RealExample, true, vec![supported("b/f", "x"), supported("b/f", "y")]),
    ];
    assert_eq!(
        message(tally_corpus(&srcs, &vec![])),
        "unsupported function `a/g` did not produce a stable shape fingerprint"
    );
}

#[test]
fn regression_sources_decide_low_value_clusters() {
    let srcs = vec![source(
        "reg",
        SourceKind::RegressionUnsupported,
        true,
        vec![
            unsupported("r/a", "corpus/reg/a_drift.unit.spec", None, Some("{z}")),
            unsupported("r/b", "corpus/reg/b_drift.unit.spec", None, Some("{z}")),
        ],
    )];
    let tally = tally_corpus(&srcs, &vec![]).unwrap();
    assert_eq!(tally.unsupported_clusters.len(), 1);
    assert_eq!(tally.unsupported_clusters[0].promotion_relevant_regression_hits, 2);
    assert_eq!(tally.unsupported_clusters[0].candidate_status, CandidateStatus::LowValue);
}

#[test]
fn coverage_artifact_carries_the_tally_and_normalizes_churn() {
    let tally = tally_corpus(&corpus(), &vec!["fam.a".to_string()]).unwrap();
    let artifact = coverage_artifact(
        "2026-05-06T03:00:00Z".to_string(),
        ".semantic-family-artifacts/family-promotion/inventory/1.json".to_string(),
        "ab".repeat(32),
        "cd".repeat(32),
        tally,
    );
    assert_eq!(artifact.schema_version, 1);
    assert_eq!(artifact.artifact_kind, PromotionArtifactKind::FamilyCoverageSnapshot);
    assert_eq!(artifact.corpus_manifest_path, "semantic-families/corpus/rust-function.toml");
    assert_eq!(artifact.unsupported_clusters.len(), 2);
    let normalized = normalized_for_recommend_determinism(artifact);
    assert_eq!(normalized.generated_at, "");
    assert_eq!(normalized.inventory_path, "");
    assert_eq!(normalized.inventory_sha256, "");
    assert_eq!(normalized.corpus_manifest_sha256, "cd".repeat(32));
    assert_eq!(normalized.family_coverage.len(), 2);
}
