use spec_core::family::artifact_path::{classify_artifact_path, ArtifactPath, PathComponent};
use spec_core::family::error::XtaskError;

const DECISION_PATH: &str = ".semantic-family-artifacts/corpus-program/decision.latest.json";

fn components(path: &str) -> Vec<PathComponent> {
    path.split('/')
        .map(|name| if name == "." || name == ".." { PathComponent::Other } else { PathComponent::Normal(name.to_string()) })
        .collect()
}

fn classify(path: &str) -> Result<ArtifactPath, XtaskError> {
    classify_artifact_path(path, &components(path), DECISION_PATH)
}

fn message(result: Result<ArtifactPath, XtaskError>) -> String {
    match result {
        Err(XtaskError::InvalidInput(m)) => m,
        other => panic!("unexpected {other:?}"),
    }
}

#[test]
fn fixed_artifact_paths_are_recognized() {
    assert_eq!(
        classify(".semantic-family-artifacts/family-promotion/recommendation.latest.json").unwrap(),
        ArtifactPath::Recommendation
    );
    assert_eq!(
        classify(".semantic-family-artifacts/family-promotion/analysis/coverage.latest.json").unwrap(),
        ArtifactPath::Coverage
    );
    assert_eq!(
        classify(".semantic-family-artifacts/family-promotion/analysis/recommendation.latest.json").unwrap(),
        ArtifactPath::RecommendationAnalysis
    );
    assert_eq!(classify(DECISION_PATH).unwrap(), ArtifactPath::CorpusProgramDecision);
}

#[test]
fn semantic_family_reports_are_recognized() {
    for file in ["prove.latest.json", "certification.report.json", "attempt-20260505T000000Z.json"] {
        let path = format!(".semantic-family-artifacts/semantic-families/function.wrapper.pipeline.chain3.v1/{file}");
        assert_eq!(classify(&path).unwrap(), ArtifactPath::SemanticFamilyReport);
    }
}

#[test]
fn semantic_family_report_requires_a_valid_family_id() {
    let path = ".semantic-family-artifacts/semantic-families/Bad/prove.latest.json";
    assert_eq!(message(classify(path)), "family id `Bad` must match ^[a-z0-9]+(\\.[a-z0-9_]+)+\\.v[0-9]+$");
}

#[test]
fn per_family_and_per_run_artifacts_are_recognized() {
    assert_eq!(
        classify(".semantic-family-artifacts/family-promotion/function.demo.v1/recommendation.latest.json").unwrap(),
        ArtifactPath::RecommendationByFamily { family: "function.demo.v1".to_string() }
    );
    assert_eq!(
        classify(".semantic-family-artifacts/family-promotion/function.demo.v1/run-1/promotion.execution.json").unwrap(),
        ArtifactPath::PromotionExecution { family: "function.demo.v1".to_string(), run_id: "run-1".to_string() }
    );
    assert_eq!(
        classify(".semantic-family-artifacts/family-promotion/function.demo.v1/run-1/blocker.report.json").unwrap(),
        ArtifactPath::PromotionBlocker { family: "function.demo.v1".to_string(), run_id: "run-1".to_string() }
    );
}

#[test]
fn other_paths_are_refused() {
    assert_eq!(
        message(classify(".semantic-family-artifacts/family-promotion/function.demo.v1/run-1/notes.json")),
        "artifact path `.semantic-family-artifacts/family-promotion/function.demo.v1/run-1/notes.json` is not a supported promotion artifact path"
    );
    assert_eq!(
        message(classify("elsewhere/file.json")),
        "artifact path `elsewhere/file.json` is not a supported promotion artifact path"
    );
    assert_eq!(
        message(classify("./.semantic-family-artifacts/family-promotion/recommendation.latest.json")),
        "artifact path `./.semantic-family-artifacts/family-promotion/recommendation.latest.json` must contain only normal UTF-8 path components"
    );
}
