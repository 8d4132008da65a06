//! Which promotion artifact a repo-relative path names.
use vstd::prelude::*;
use crate::family::error::{XtaskError, XtaskErrorView};
use crate::family::paths::{
    family_id_ok, family_id_pattern_message, views_of, FamilyId, FAMILY_COVERAGE_LATEST_PATH,
    FAMILY_RECOMMENDATION_ANALYSIS_LATEST_PATH,
};
use crate::text::{
    chars_of, ends_with, ends_with_exec, owned, seq_eq, split_chars, split_seq, starts_with, starts_with_exec, str_eq,
    views,
};

verus! {

pub const FAMILY_RECOMMENDATION_LATEST_PATH: &'static str = ".semantic-family-artifacts/family-promotion/recommendation.latest.json";

/// One component of a path, as the platform's path parser reads it.
#[derive(Debug, Clone)]
pub enum PathComponent {
    /// A name in UTF-8.
    Normal(String),
    /// A root, a prefix, `.`, `..`, or a name that is not UTF-8.
    Other,
}

/// The promotion artifact a path names.
#[derive(Debug, Clone, PartialEq, Eq)]
pub enum ArtifactPath {
    SemanticFamilyReport,
    Recommendation,
    RecommendationByFamily { family: String },
    Coverage,
    RecommendationAnalysis,
    CorpusProgramDecision,
    PromotionExecution { family: String, run_id: String },
    PromotionBlocker { family: String, run_id: String },
}

pub enum ArtifactPathView {
    SemanticFamilyReport,
    Recommendation,
    RecommendationByFamily(Seq<char>),
    Coverage,
    RecommendationAnalysis,
    CorpusProgramDecision,
    PromotionExecution(Seq<char>, Seq<char>),
    PromotionBlocker(Seq<char>, Seq<char>),
}

impl View for ArtifactPath {
    type V = ArtifactPathView;

    open spec fn view(&self) -> ArtifactPathView {
        match self {
            ArtifactPath::SemanticFamilyReport => ArtifactPathView::SemanticFamilyReport,
            ArtifactPath::Recommendation => ArtifactPathView::Recommendation,
            ArtifactPath::RecommendationByFamily { family } => ArtifactPathView::RecommendationByFamily(family@),
            ArtifactPath::Coverage => ArtifactPathView::Coverage,
            ArtifactPath::RecommendationAnalysis => ArtifactPathView::RecommendationAnalysis,
            ArtifactPath::CorpusProgramDecision => ArtifactPathView::CorpusProgramDecision,
            ArtifactPath::PromotionExecution { family, run_id } => ArtifactPathView::PromotionExecution(
                family@,
                run_id@,
            ),
            ArtifactPath::PromotionBlocker { family, run_id } => ArtifactPathView::PromotionBlocker(family@, run_id@),
        }
    }
}

pub open spec fn component_name(c: PathComponent) -> Seq<char> {
    match c {
        PathComponent::Normal(s) => s@,
        PathComponent::Other => Seq::empty(),
    }
}

/// The names of the components, when every one of them is a UTF-8 name.
pub open spec fn names_of(cs: Seq<PathComponent>) -> Option<Seq<Seq<char>>> {
    if forall|k: int| 0 <= k < cs.len() ==> #[trigger] cs[k] is Normal {
        Some(cs.map_values(|c: PathComponent| component_name(c)))
    } else {
        None
    }
}

/// What refusing a family id says, if it is refused.
pub open spec fn family_id_issue(raw: Seq<char>) -> Option<XtaskErrorView> {
    if raw.len() == 0 {
        Some(XtaskErrorView::InvalidInput("family id must not be empty"@))
    } else if !family_id_ok(raw) {
        Some(XtaskErrorView::InvalidInput(family_id_pattern_message(raw)))
    } else {
        None
    }
}

/// The file names a semantic-family report is written under.
pub open spec fn is_report_file(name: Seq<char>) -> bool {
    ||| name == "prove.latest.json"@
    ||| name == "certification.report.json"@
    ||| (starts_with(name, "attempt-"@) && ends_with(name, ".json"@))
}

pub open spec fn unsupported_path(text: Seq<char>) -> XtaskErrorView {
    XtaskErrorView::InvalidInput("artifact path `"@ + text + "` is not a supported promotion artifact path"@)
}

/// What a path of names only, none of the fixed artifact paths, names.
pub open spec fn classify_names(n: Seq<Seq<char>>, text: Seq<char>) -> Result<ArtifactPathView, XtaskErrorView> {
    let root = ".semantic-family-artifacts"@;
    if n.len() == 4 && n[0] == root && n[1] == "semantic-families"@ && family_id_issue(n[2]) is Some {
        Err(family_id_issue(n[2])->0)
    } else if n.len() == 4 && n[0] == root && n[1] == "semantic-families"@ && is_report_file(n[3]) {
        Ok(ArtifactPathView::SemanticFamilyReport)
    } else if n.len() == 4 && n[0] == root && n[1] == "family-promotion"@ && n[3] == "recommendation.latest.json"@ {
        Ok(ArtifactPathView::RecommendationByFamily(n[2]))
    } else if n.len() != 5 || n[0] != root || n[1] != "family-promotion"@ {
        Err(unsupported_path(text))
    } else if n[4] == "promotion.execution.json"@ {
        Ok(ArtifactPathView::PromotionExecution(n[2], n[3]))
    } else if n[4] == "blocker.report.json"@ {
        Ok(ArtifactPathView::PromotionBlocker(n[2], n[3]))
    } else {
        Err(unsupported_path(text))
    }
}

/// What the path with components `cs`, shown as `text`, names; the corpus program
/// decision is read at the `/`-separated path `decision_path`.
pub open spec fn classify(cs: Seq<PathComponent>, text: Seq<char>, decision_path: Seq<char>) -> Result<
    ArtifactPathView,
    XtaskErrorView,
> {
    match names_of(cs) {
        None => Err(
            XtaskErrorView::InvalidInput(
                "artifact path `"@ + text + "` must contain only normal UTF-8 path components"@,
            ),
        ),
        Some(n) => if n == split_seq(FAMILY_RECOMMENDATION_LATEST_PATH@, '/') {
            Ok(ArtifactPathView::Recommendation)
        } else if n == split_seq(FAMILY_COVERAGE_LATEST_PATH@, '/') {
            Ok(ArtifactPathView::Coverage)
        } else if n == split_seq(FAMILY_RECOMMENDATION_ANALYSIS_LATEST_PATH@, '/') {
            Ok(ArtifactPathView::RecommendationAnalysis)
        } else if n == split_seq(decision_path, '/') {
            Ok(ArtifactPathView::CorpusProgramDecision)
        } else {
            classify_names(n, text)
        },
    }
}

pub open spec fn outcome(r: Result<ArtifactPath, XtaskError>) -> Result<ArtifactPathView, XtaskErrorView> {
    match r {
        Ok(a) => Ok(a@),
        Err(e) => Err(e@),
    }
}

fn names_of_components(cs: &Vec<PathComponent>) -> (r: Option<Vec<String>>)
    ensures
        match names_of(cs@) {
            None => r is None,
            Some(n) => r matches Some(v) && views_of(v@) == n,
        },
{
    let mut out: Vec<String> = Vec::new();
    let mut i: usize = 0;
    while i < cs.len()
        invariant
            i <= cs@.len(),
            out@.len() == i,
            forall|k: int| 0 <= k < i ==> #[trigger] cs@[k] is Normal,
            forall|k: int| 0 <= k < i ==> #[trigger] out@[k]@ == component_name(cs@[k]),
        decreases cs@.len() - i,
    {
        match &cs[i] {
            PathComponent::Normal(s) => {
                out.push(owned(s.as_str()));
            },
            PathComponent::Other => {
                return None;
            },
        }
        i = i + 1;
    }
    proof {
        assert(views_of(out@) =~= cs@.map_values(|c: PathComponent| component_name(c)));
    }
    Some(out)
}

fn names_equal_path(names: &Vec<String>, p: &str) -> (r: bool)
    ensures
        r == (views_of(names@) == split_seq(p@, '/')),
{
    let parts = split_chars(&chars_of(p), '/');
    proof {
        assert(views(parts@) == split_seq(p@, '/'));
    }
    if parts.len() != names.len() {
        proof {
            assert(views(parts@).len() != views_of(names@).len());
        }
        return false;
    }
    let mut i: usize = 0;
    while i < names.len()
        invariant
            i <= names@.len(),
            parts@.len() == names@.len(),
            views(parts@) == split_seq(p@, '/'),
            forall|k: int| 0 <= k < i ==> #[trigger] names@[k]@ == parts@[k]@,
        decreases names@.len() - i,
    {
        if !seq_eq(&chars_of(names[i].as_str()), &parts[i]) {
            proof {
                assert(views_of(names@)[i as int] != views(parts@)[i as int]);
            }
            return false;
        }
        i = i + 1;
    }
    proof {
        assert(views_of(names@) =~= views(parts@));
    }
    true
}

fn unsupported_error(text: &str) -> (r: XtaskError)
    ensures
        r@ == unsupported_path(text@),
{
    let mut m = owned("artifact path `");
    m.append(text);
    m.append("` is not a supported promotion artifact path");
    XtaskError::InvalidInput(m)
}

fn classify_name_list(n: &Vec<String>, text: &str) -> (r: Result<ArtifactPath, XtaskError>)
    ensures
        outcome(r) == classify_names(views_of(n@), text@),
{
    let ghost v = views_of(n@);
    let len = n.len();
    let rooted = len >= 2 && str_eq(n[0].as_str(), ".semantic-family-artifacts");
    proof {
        if len >= 2 {
            assert(v[0] == n@[0]@ && v[1] == n@[1]@);
        }
    }
    if len == 4 && rooted && str_eq(n[1].as_str(), "semantic-families") {
        proof {
            assert(v[2] == n@[2]@ && v[3] == n@[3]@);
        }
        match FamilyId::parse(n[2].as_str()) {
            Err(e) => {
                return Err(e);
            },
            Ok(_) => {},
        }
        let name = chars_of(n[3].as_str());
        if str_eq(n[3].as_str(), "prove.latest.json") || str_eq(n[3].as_str(), "certification.report.json") || (
        starts_with_exec(&name, "attempt-") && ends_with_exec(&name, ".json")) {
            return Ok(ArtifactPath::SemanticFamilyReport);
        }
    }
    if len == 4 && rooted && str_eq(n[1].as_str(), "family-promotion") && str_eq(
        n[3].as_str(),
        "recommendation.latest.json",
    ) {
        proof {
            assert(v[2] == n@[2]@ && v[3] == n@[3]@);
        }
        return Ok(ArtifactPath::RecommendationByFamily { family: owned(n[2].as_str()) });
    }
    if len != 5 || !rooted || !str_eq(n[1].as_str(), "family-promotion") {
        return Err(unsupported_error(text));
    }
    proof {
        assert(v[2] == n@[2]@ && v[3] == n@[3]@ && v[4] == n@[4]@);
    }
    let family = owned(n[2].as_str());
    let run_id = owned(n[3].as_str());
    if str_eq(n[4].as_str(), "promotion.execution.json") {
        Ok(ArtifactPath::PromotionExecution { family, run_id })
    } else if str_eq(n[4].as_str(), "blocker.report.json") {
        Ok(ArtifactPath::PromotionBlocker { family, run_id })
    } else {
        Err(unsupported_error(text))
    }
}

/// Names the promotion artifact at the path with components `components`, shown as
/// `path_text`: one of the fixed artifact paths, the corpus program decision at the
/// `/`-separated `decision_path`, a semantic-family report, a per-family recommendation,
/// or a run's execution or blocker record; any other path is refused.
pub fn classify_artifact_path(path_text: &str, components: &Vec<PathComponent>, decision_path: &str) -> (r: Result<
    ArtifactPath,
    XtaskError,
>)
    ensures
        outcome(r) == classify(components@, path_text@, decision_path@),
{
    let names = match names_of_components(components) {
        None => {
            let mut m = owned("artifact path `");
            m.append(path_text);
            m.append("` must contain only normal UTF-8 path components");
            return Err(XtaskError::InvalidInput(m));
        },
        Some(n) => n,
    };
    if names_equal_path(&names, FAMILY_RECOMMENDATION_LATEST_PATH) {
        return Ok(ArtifactPath::Recommendation);
    }
    if names_equal_path(&names, FAMILY_COVERAGE_LATEST_PATH) {
        return Ok(ArtifactPath::Coverage);
    }
    if names_equal_path(&names, FAMILY_RECOMMENDATION_ANALYSIS_LATEST_PATH) {
        return Ok(ArtifactPath::RecommendationAnalysis);
    }
    if names_equal_path(&names, decision_path) {
        return Ok(ArtifactPath::CorpusProgramDecision);
    }
    classify_name_list(&names, path_text)
}

} // verus!
