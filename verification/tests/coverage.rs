use sha2::{Digest, Sha256};
use spec_core::family::artifacts::UnsupportedFunctionReasonCode;
use spec_core::family::coverage::{
    bucket_for_spec_path, check_manifest_source, classify_candidate_status, cluster_id, leverage_bucket,
    overlap_family_for_cluster, path_is_semantic_family_fixture, qualify_unit_id, validate_manifest_header,
    CorpusBucket, CorpusManifestHeader, LeverageBucket, LoadedUnitContext, ManifestSource,
};
use spec_core::family::coverage_checks::{CandidateStatus, SourceKind};
use spec_core::family::error::XtaskError;

fn message<T>(r: Result<T, XtaskError>) -> String {
    match r {
        Err(XtaskError::InvalidInput(m)) => m,
        Err(other) => panic!("unexpected error {other:?}"),
        Ok(_) => panic!("expected an error"),
    }
}

#[test]
fn buckets_follow_file_name_suffixes() {
    assert_eq!(bucket_for_spec_path("a/b/x_unsupported_near_miss.unit.spec"), CorpusBucket::UnsupportedNearMiss);
    assert_eq!(bucket_for_spec_path("a/b/x_under_specified.unit.spec"), CorpusBucket::UnderSpecified);
    assert_eq!(bucket_for_spec_path("x_drift.unit.spec"), CorpusBucket::Drift);
    assert_eq!(bucket_for_spec_path("a/x_aligned.unit.spec"), CorpusBucket::AlignedOrReal);
    assert_eq!(bucket_for_spec_path("a/x_drift.unit.spec/.."), CorpusBucket::AlignedOrReal);
}

fn context(kind: SourceKind, counts: bool, bucket: CorpusBucket) -> LoadedUnitContext {
    LoadedUnitContext { source_id: "s".to_string(), source_kind: kind, counts_toward_recommendation: counts, bucket }
}

#[test]
fn leverage_depends_on_source_and_bucket() {
    assert_eq!(
        leverage_bucket(&context(SourceKind::RealExample, false, CorpusBucket::AlignedOrReal)),
        LeverageBucket::BoundaryOnly
    );
    assert_eq!(
        leverage_bucket(&context(SourceKind::RealExample, true, CorpusBucket::Drift)),
        LeverageBucket::RealExample
    );
    assert_eq!(
        leverage_bucket(&context(SourceKind::RegressionUnsupported, true, CorpusBucket::UnsupportedNearMiss)),
        LeverageBucket::BoundaryOnly
    );
    assert_eq!(
        leverage_bucket(&context(SourceKind::RegressionUnsupported, true, CorpusBucket::Drift)),
        LeverageBucket::PromotionRelevantRegression
    );
    assert_eq!(
        leverage_bucket(&context(SourceKind::ProofOnly, true, CorpusBucket::AlignedOrReal)),
        LeverageBucket::BoundaryOnly
    );
}

#[test]
fn candidate_status_thresholds() {
    assert_eq!(classify_candidate_status(0, 0, 3, 0), CandidateStatus::BoundaryOnly);
    assert_eq!(classify_candidate_status(0, 1, 0, 1), CandidateStatus::InsufficientEvidence);
    assert_eq!(classify_candidate_status(0, 0, 0, 0), CandidateStatus::InsufficientEvidence);
    assert_eq!(classify_candidate_status(0, 2, 0, 1), CandidateStatus::LowValue);
    assert_eq!(classify_candidate_status(0, 2, 0, 2), CandidateStatus::Rankable);
    assert_eq!(classify_candidate_status(1, 0, 0, 0), CandidateStatus::Rankable);
}

#[test]
fn overlap_family_from_reason_or_shape() {
    assert_eq!(
        overlap_family_for_cluster(UnsupportedFunctionReasonCode::UnsupportedArithmeticShape, "{}"),
        "function.arithmetic_leaf.monotone_*"
    );
    assert_eq!(
        overlap_family_for_cluster(
            UnsupportedFunctionReasonCode::UnsupportedControlFlow,
            "{\"authored_body_kind\":\"arithmetic_like\"}"
        ),
        "function.arithmetic_leaf.monotone_*"
    );
    assert_eq!(
        overlap_family_for_cluster(UnsupportedFunctionReasonCode::UnsupportedDepTopology, "{}"),
        "function.wrapper.pipeline*"
    );
    assert_eq!(
        overlap_family_for_cluster(
            UnsupportedFunctionReasonCode::UnsupportedFunctionSurface,
            "{\"authored_body_kind\":\"wrapper_like\"}"
        ),
        "function.wrapper.pipeline*"
    );
    assert_eq!(
        overlap_family_for_cluster(UnsupportedFunctionReasonCode::UnsupportedControlFlow, "{}"),
        "unknown"
    );
}

#[test]
fn cluster_ids_hash_the_variant_and_shape() {
    let digest = format!("{:x}", Sha256::digest("UnsupportedControlFlow:{\"a\":1}".as_bytes()));
    assert_eq!(
        cluster_id(UnsupportedFunctionReasonCode::UnsupportedControlFlow, "{\"a\":1}"),
        format!("unsupported_control_flow-{}", &digest[..12])
    );
    assert_eq!(
        cluster_id(UnsupportedFunctionReasonCode::UnsupportedWrapperBodyShape, "").len(),
        "unsupported_wrapper_body_shape-".len() + 12
    );
}

#[test]
fn unit_ids_are_qualified_by_source() {
    assert_eq!(qualify_unit_id("real", "pricing/apply_tax"), "real::pricing/apply_tax");
}

fn header(schema: u64, language: &str, lane: &str, sources: usize) -> CorpusManifestHeader {
    CorpusManifestHeader {
        schema_version: schema,
        target_language: language.to_string(),
        target_lane: lane.to_string(),
        source_count: sources,
    }
}

#[test]
fn manifest_header_checks_in_order() {
    assert!(validate_manifest_header(&header(1, "rust", "function", 2)).is_ok());
    assert_eq!(
        message(validate_manifest_header(&header(2, "typescript", "function", 0))),
        "corpus manifest schema_version must be 1, found 2"
    );
    assert_eq!(
        message(validate_manifest_header(&header(1, "typescript", "function", 0))),
        "corpus manifest target_language must be `rust`, found `typescript`"
    );
    assert_eq!(
        message(validate_manifest_header(&header(1, "rust", "data", 0))),
        "corpus manifest target_lane must be `function`, found `data`"
    );
    assert_eq!(
        message(validate_manifest_header(&header(1, "rust", "function", 0))),
        "corpus manifest must include at least one source"
    );
}

#[test]
fn semantic_family_fixtures_are_recognized() {
    assert!(path_is_semantic_family_fixture("semantic-families/x.v1/fixtures"));
    assert!(path_is_semantic_family_fixture("semantic-families/x.v1/fixtures/aligned"));
    assert!(path_is_semantic_family_fixture("semantic-families//a/./fixtures"));
    assert!(!path_is_semantic_family_fixture("semantic-families/fixtures"));
    assert!(!path_is_semantic_family_fixture("corpus/semantic-families/fixtures/x"));
    assert!(!path_is_semantic_family_fixture("semantic-families/x.v1/units"));
}

fn manifest_source(id: &str, path: &str, note: &str) -> ManifestSource {
    ManifestSource {
        id: id.to_string(),
        path: path.to_string(),
        kind: SourceKind::RealExample,
        counts_toward_recommendation: true,
        note: note.to_string(),
    }
}

#[test]
fn manifest_sources_are_checked_before_reading() {
    let mut seen = Vec::new();
    assert!(check_manifest_source(&manifest_source("real", "examples/units", "examples"), &mut seen).is_ok());
    assert_eq!(seen, vec!["real".to_string()]);
    assert_eq!(
        message(check_manifest_source(&manifest_source("real", "examples/other", "again"), &mut seen)),
        "corpus manifest source id `real` must be unique"
    );
    assert_eq!(
        message(check_manifest_source(&manifest_source(" ", "examples", "note"), &mut seen)),
        "corpus manifest sources require non-empty single-line id and note"
    );
    assert_eq!(
        message(check_manifest_source(&manifest_source("two", "examples", "a\nb"), &mut seen)),
        "corpus manifest sources require non-empty single-line id and note"
    );
    assert_eq!(
        message(check_manifest_source(&manifest_source("abs", "/examples", "note"), &mut seen)),
        "corpus source path `/examples` must be a non-empty repo-relative path"
    );
    assert_eq!(
        message(check_manifest_source(
            &manifest_source("fix", "semantic-families/x.v1/fixtures/aligned", "note"),
            &mut seen
        )),
        "corpus source path `semantic-families/x.v1/fixtures/aligned` must not reference semantic-family packet fixtures"
    );
}
