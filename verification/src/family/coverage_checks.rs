//! The corpus coverage snapshot and the checks it must pass.
use vstd::prelude::*;
use crate::family::analysis_checks::{
    is_single_line, overlap_family_issue, sha_bound_issue, single_line, validate_overlap_family, validate_sha_bound_path,
    WorkspaceFile,
};
use crate::family::artifacts::{PromotionArtifactKind, UnsupportedFunctionReasonCode};
use crate::family::error::{XtaskError, XtaskErrorView};
use crate::family::paths::{FamilyId, FAMILY_PROMOTION_INVENTORY_DIR, M27_CORPUS_MANIFEST_PATH};
use crate::family::recommendation_checks::{existing_path_issue, family_issue, validate_existing_repo_relative_path};
use crate::family::report::{looks_like_utc_timestamp, utc_timestamp};
use crate::seam::{decimal, decimal_u64_string};
use crate::text::{chars_of, owned, trim_chars, trim_seq};

verus! {

pub const COVERAGE_SCHEMA_VERSION: u64 = 1;

#[derive(Debug, Clone, Copy, PartialEq, Eq, Structural)]
pub enum SourceKind {
    RealExample,
    RegressionUnsupported,
    ProofOnly,
}

#[derive(Debug, Clone, Copy, PartialEq, Eq, Structural)]
pub enum CandidateStatus {
    Rankable,
    BoundaryOnly,
    LowValue,
    InsufficientEvidence,
}

/// One corpus source the snapshot counted.
#[derive(Debug, Clone)]
pub struct CorpusSourceEntry {
    pub id: String,
    pub path: String,
    pub kind: SourceKind,
    pub counts_toward_recommendation: bool,
    pub note: String,
    pub unit_count: usize,
}

#[derive(Debug, Clone, Copy, PartialEq, Eq, Structural)]
pub struct FunctionCoverageTotals {
    pub total_units: usize,
    pub promoted_family_units: usize,
    pub supported_unpromoted_family_units: usize,
    pub unsupported_function_units: usize,
}

#[derive(Debug, Clone, Copy, PartialEq, Eq, Structural)]
pub struct NonFunctionCoverageTotals {
    pub total_units: usize,
    pub supported_sum_units: usize,
    pub supported_data_units: usize,
    pub other_units: usize,
}

/// The units of the corpus one promoted family covers.
#[derive(Debug, Clone)]
pub struct FamilyCoverageEntry {
    pub family: String,
    pub unit_count: usize,
    pub unit_ids: Vec<String>,
    pub source_ids: Vec<String>,
}

/// Unsupported functions that share one shape.
#[derive(Debug, Clone)]
pub struct UnsupportedClusterEntry {
    pub cluster_id: String,
    pub reason_code: UnsupportedFunctionReasonCode,
    pub shape_fingerprint: String,
    pub representative_unit_ids: Vec<String>,
    pub source_ids: Vec<String>,
    pub real_example_hits: usize,
    pub promotion_relevant_regression_hits: usize,
    pub boundary_only_hits: usize,
    pub overlap_family: String,
    pub candidate_status: CandidateStatus,
}

/// What the corpus covers and which unsupported shapes it holds.
#[derive(Debug, Clone)]
pub struct FamilyCoverageArtifact {
    pub schema_version: u64,
    pub artifact_kind: PromotionArtifactKind,
    pub generated_at: String,
    pub inventory_path: String,
    pub inventory_sha256: String,
    pub corpus_manifest_path: String,
    pub corpus_manifest_sha256: String,
    pub sources: Vec<CorpusSourceEntry>,
    pub function_coverage: FunctionCoverageTotals,
    pub non_function_coverage: NonFunctionCoverageTotals,
    pub family_coverage: Vec<FamilyCoverageEntry>,
    pub unsupported_clusters: Vec<UnsupportedClusterEntry>,
}

/// What the workspace holds for the paths a coverage snapshot cites: the inventory, the
/// corpus manifest, and the cited paths that do not resolve (each with its refusal).
#[derive(Debug)]
pub struct CoverageWorkspace {
    pub inventory: WorkspaceFile,
    pub corpus_manifest: WorkspaceFile,
    pub refused_paths: Vec<(String, XtaskError)>,
}

pub open spec fn source_issue(s: CorpusSourceEntry, refusals: Seq<(String, XtaskError)>) -> Option<XtaskErrorView> {
    if trim_seq(s.id@).len() == 0 || !single_line(s.note@) {
        Some(XtaskErrorView::InvalidInput("coverage sources[] entries require non-empty single-line id and note"@))
    } else if existing_path_issue(s.path@, "coverage source path"@, refusals) is Some {
        existing_path_issue(s.path@, "coverage source path"@, refusals)
    } else if s.unit_count == 0 {
        Some(XtaskErrorView::InvalidInput("coverage source `"@ + s.id@ + "` must report at least one unit"@))
    } else {
        None
    }
}

pub open spec fn family_entry_issue(e: FamilyCoverageEntry) -> Option<XtaskErrorView> {
    if family_issue(e.family@) is Some {
        family_issue(e.family@)
    } else if e.unit_count == 0 || e.unit_ids@.len() == 0 || e.source_ids@.len() == 0 {
        Some(
            XtaskErrorView::InvalidInput(
                "family coverage entry `"@ + e.family@ + "` must include unit_count, unit_ids, and source_ids"@,
            ),
        )
    } else {
        None
    }
}

pub open spec fn cluster_issue(c: UnsupportedClusterEntry) -> Option<XtaskErrorView> {
    if trim_seq(c.cluster_id@).len() == 0 || trim_seq(c.shape_fingerprint@).len() == 0
        || c.representative_unit_ids@.len() == 0 || c.source_ids@.len() == 0 {
        Some(
            XtaskErrorView::InvalidInput(
                "unsupported cluster entries must include cluster_id, shape_fingerprint, representative_unit_ids, and source_ids"@,
            ),
        )
    } else {
        overlap_family_issue(c.overlap_family@)
    }
}

pub open spec fn first_source_issue(ss: Seq<CorpusSourceEntry>, refusals: Seq<(String, XtaskError)>) -> Option<XtaskErrorView>
    decreases ss.len(),
{
    if ss.len() == 0 {
        None
    } else if source_issue(ss[0], refusals) is Some {
        source_issue(ss[0], refusals)
    } else {
        first_source_issue(ss.drop_first(), refusals)
    }
}

pub open spec fn first_family_entry_issue(es: Seq<FamilyCoverageEntry>) -> Option<XtaskErrorView>
    decreases es.len(),
{
    if es.len() == 0 {
        None
    } else if family_entry_issue(es[0]) is Some {
        family_entry_issue(es[0])
    } else {
        first_family_entry_issue(es.drop_first())
    }
}

pub open spec fn first_cluster_issue(cs: Seq<UnsupportedClusterEntry>) -> Option<XtaskErrorView>
    decreases cs.len(),
{
    if cs.len() == 0 {
        None
    } else if cluster_issue(cs[0]) is Some {
        cluster_issue(cs[0])
    } else {
        first_cluster_issue(cs.drop_first())
    }
}

/// The first problem with a coverage snapshot, in the order the checks run, given what
/// the workspace holds for the paths it cites.
pub open spec fn coverage_issue(c: FamilyCoverageArtifact, ws: CoverageWorkspace) -> Option<XtaskErrorView> {
    let inventory = sha_bound_issue(
        c.inventory_path@,
        FAMILY_PROMOTION_INVENTORY_DIR@,
        c.inventory_sha256@,
        "coverage inventory_path"@,
        ws.inventory,
    );
    let manifest = sha_bound_issue(
        c.corpus_manifest_path@,
        M27_CORPUS_MANIFEST_PATH@,
        c.corpus_manifest_sha256@,
        "coverage corpus_manifest_path"@,
        ws.corpus_manifest,
    );
    if c.schema_version != COVERAGE_SCHEMA_VERSION {
        Some(XtaskErrorView::InvalidInput("coverage schema_version must be 1, found "@ + decimal(c.schema_version as nat)))
    } else if c.artifact_kind != PromotionArtifactKind::FamilyCoverageSnapshot {
        Some(XtaskErrorView::InvalidInput("coverage artifact_kind must be `family_coverage_snapshot`"@))
    } else if !utc_timestamp(c.generated_at@) {
        Some(XtaskErrorView::InvalidInput("coverage generated_at must be a UTC RFC3339 timestamp"@))
    } else if inventory is Some {
        inventory
    } else if manifest is Some {
        manifest
    } else if c.sources@.len() == 0 {
        Some(XtaskErrorView::InvalidInput("coverage sources[] must not be empty"@))
    } else if first_source_issue(c.sources@, ws.refused_paths@) is Some {
        first_source_issue(c.sources@, ws.refused_paths@)
    } else if first_family_entry_issue(c.family_coverage@) is Some {
        first_family_entry_issue(c.family_coverage@)
    } else {
        first_cluster_issue(c.unsupported_clusters@)
    }
}

fn invalid(m: &str) -> (r: XtaskError)
    ensures
        r@ == XtaskErrorView::InvalidInput(m@),
{
    XtaskError::InvalidInput(owned(m))
}

fn is_blank(s: &str) -> (r: bool)
    ensures
        r == (trim_seq(s@).len() == 0),
{
    let cs = chars_of(s);
    let t = trim_chars(&cs);
    t.len() == 0
}

impl CorpusSourceEntry {
    pub fn validate(&self, refusals: &Vec<(String, XtaskError)>) -> (r: Result<(), XtaskError>)
        ensures
            match source_issue(*self, refusals@) {
                None => r is Ok,
                Some(e) => r matches Err(x) && x@ == e,
            },
    {
        if is_blank(self.id.as_str()) || !is_single_line(self.note.as_str()) {
            return Err(invalid("coverage sources[] entries require non-empty single-line id and note"));
        }
        match validate_existing_repo_relative_path(self.path.as_str(), "coverage source path", refusals) {
            Ok(()) => {},
            Err(e) => {
                return Err(e);
            },
        }
        if self.unit_count == 0 {
            let mut m = owned("coverage source `");
            m.append(self.id.as_str());
            m.append("` must report at least one unit");
            return Err(XtaskError::InvalidInput(m));
        }
        Ok(())
    }
}

impl FamilyCoverageEntry {
    pub fn validate(&self) -> (r: Result<(), XtaskError>)
        ensures
            match family_entry_issue(*self) {
                None => r is Ok,
                Some(e) => r matches Err(x) && x@ == e,
            },
    {
        match FamilyId::parse(self.family.as_str()) {
            Ok(_) => {},
            Err(e) => {
                return Err(e);
            },
        }
        if self.unit_count == 0 || self.unit_ids.len() == 0 || self.source_ids.len() == 0 {
            let mut m = owned("family coverage entry `");
            m.append(self.family.as_str());
            m.append("` must include unit_count, unit_ids, and source_ids");
            return Err(XtaskError::InvalidInput(m));
        }
        Ok(())
    }
}

impl UnsupportedClusterEntry {
    pub fn validate(&self) -> (r: Result<(), XtaskError>)
        ensures
            match cluster_issue(*self) {
                None => r is Ok,
                Some(e) => r matches Err(x) && x@ == e,
            },
    {
        if is_blank(self.cluster_id.as_str()) || is_blank(self.shape_fingerprint.as_str())
            || self.representative_unit_ids.len() == 0 || self.source_ids.len() == 0 {
            return Err(
                invalid(
                    "unsupported cluster entries must include cluster_id, shape_fingerprint, representative_unit_ids, and source_ids",
                ),
            );
        }
        validate_overlap_family(self.overlap_family.as_str())
    }
}

impl FamilyCoverageArtifact {
    /// Accepts the snapshot exactly when [`coverage_issue`] finds nothing wrong with it.
    pub fn validate(&self, workspace: &CoverageWorkspace) -> (r: Result<(), XtaskError>)
        ensures
            match coverage_issue(*self, *workspace) {
                None => r is Ok,
                Some(e) => r matches Err(x) && x@ == e,
            },
    {
        if self.schema_version != COVERAGE_SCHEMA_VERSION {
            let mut m = owned("coverage schema_version must be 1, found ");
            let n = decimal_u64_string(self.schema_version);
            m.append(n.as_str());
            return Err(XtaskError::InvalidInput(m));
        }
        if self.artifact_kind != PromotionArtifactKind::FamilyCoverageSnapshot {
            return Err(invalid("coverage artifact_kind must be `family_coverage_snapshot`"));
        }
        if !looks_like_utc_timestamp(self.generated_at.as_str()) {
            return Err(invalid("coverage generated_at must be a UTC RFC3339 timestamp"));
        }
        match validate_sha_bound_path(
            self.inventory_path.as_str(),
            FAMILY_PROMOTION_INVENTORY_DIR,
            self.inventory_sha256.as_str(),
            "coverage inventory_path",
            &workspace.inventory,
        ) {
            Ok(()) => {},
            Err(e) => {
                return Err(e);
            },
        }
        match validate_sha_bound_path(
            self.corpus_manifest_path.as_str(),
            M27_CORPUS_MANIFEST_PATH,
            self.corpus_manifest_sha256.as_str(),
            "coverage corpus_manifest_path",
            &workspace.corpus_manifest,
        ) {
            Ok(()) => {},
            Err(e) => {
                return Err(e);
            },
        }
        if self.sources.len() == 0 {
            return Err(invalid("coverage sources[] must not be empty"));
        }
        let ss = &self.sources;
        let mut i: usize = 0;
        proof {
            assert(ss@.skip(0) =~= ss@);
        }
        while i < ss.len()
            invariant
                i <= ss@.len(),
                first_source_issue(ss@, workspace.refused_paths@) == first_source_issue(
                    ss@.skip(i as int),
                    workspace.refused_paths@,
                ),
                ss@ == self.sources@,
                coverage_issue(*self, *workspace) == (if first_source_issue(ss@, workspace.refused_paths@) is Some {
                    first_source_issue(ss@, workspace.refused_paths@)
                } else if first_family_entry_issue(self.family_coverage@) is Some {
                    first_family_entry_issue(self.family_coverage@)
                } else {
                    first_cluster_issue(self.unsupported_clusters@)
                }),
            decreases ss@.len() - i,
        {
            proof {
                assert(ss@.skip(i as int)[0] == ss@[i as int]);
                assert(ss@.skip(i as int).drop_first() =~= ss@.skip(i + 1));
            }
            match ss[i].validate(&workspace.refused_paths) {
                Ok(()) => {},
                Err(e) => {
                    return Err(e);
                },
            }
            i = i + 1;
        }
        let es = &self.family_coverage;
        let mut j: usize = 0;
        proof {
            assert(es@.skip(0) =~= es@);
        }
        while j < es.len()
            invariant
                j <= es@.len(),
                first_family_entry_issue(es@) == first_family_entry_issue(es@.skip(j as int)),
                es@ == self.family_coverage@,
                coverage_issue(*self, *workspace) == (if first_family_entry_issue(es@) is Some {
                    first_family_entry_issue(es@)
                } else {
                    first_cluster_issue(self.unsupported_clusters@)
                }),
            decreases es@.len() - j,
        {
            proof {
                assert(es@.skip(j as int)[0] == es@[j as int]);
                assert(es@.skip(j as int).drop_first() =~= es@.skip(j + 1));
            }
            match es[j].validate() {
                Ok(()) => {},
                Err(e) => {
                    return Err(e);
                },
            }
            j = j + 1;
        }
        let cs = &self.unsupported_clusters;
        let mut k: usize = 0;
        proof {
            assert(cs@.skip(0) =~= cs@);
        }
        while k < cs.len()
            invariant
                k <= cs@.len(),
                first_cluster_issue(cs@) == first_cluster_issue(cs@.skip(k as int)),
                coverage_issue(*self, *workspace) == first_cluster_issue(cs@),
            decreases cs@.len() - k,
        {
            proof {
                assert(cs@.skip(k as int)[0] == cs@[k as int]);
                assert(cs@.skip(k as int).drop_first() =~= cs@.skip(k + 1));
            }
            match cs[k].validate() {
                Ok(()) => {},
                Err(e) => {
                    return Err(e);
                },
            }
            k = k + 1;
        }
        Ok(())
    }
}

} // verus!
