//! Counting the corpus: where each reviewed unit lands, how unsupported functions cluster,
//! and what the corpus manifest must declare.
use vstd::prelude::*;
use crate::family::analysis_checks::{repo_relative_issue, sha256_of, validate_repo_relative_path};
use crate::family::artifacts::UnsupportedFunctionReasonCode;
use crate::family::attestation::{find_first, first_occurrence};
use crate::family::coverage_checks::{CandidateStatus, SourceKind};
use crate::family::error::{XtaskError, XtaskErrorView};
use crate::family::report::{file_name_of, hex_of, hex_string, path_file_name};
use crate::seam::decimal;
use crate::text::{
    chars_of, ends_with, ends_with_exec, has_char, has_char_exec, owned, push_char, split_chars, split_seq, str_eq,
    trim_chars, trim_seq,
};

verus! {

/// Where a unit's file name files it within its corpus source.
#[derive(Debug, Clone, Copy, PartialEq, Eq, Structural)]
pub enum CorpusBucket {
    UnsupportedNearMiss,
    UnderSpecified,
    Drift,
    AlignedOrReal,
}

/// Which kind of hit an unsupported unit adds to its cluster.
#[derive(Debug, Clone, Copy, PartialEq, Eq, Structural)]
pub enum LeverageBucket {
    RealExample,
    PromotionRelevantRegression,
    BoundaryOnly,
}

/// The corpus bucket a file name declares by its suffix.
pub open spec fn bucket_of_name(name: Seq<char>) -> CorpusBucket {
    if ends_with(name, "_unsupported_near_miss.unit.spec"@) {
        CorpusBucket::UnsupportedNearMiss
    } else if ends_with(name, "_under_specified.unit.spec"@) {
        CorpusBucket::UnderSpecified
    } else if ends_with(name, "_drift.unit.spec"@) {
        CorpusBucket::Drift
    } else {
        CorpusBucket::AlignedOrReal
    }
}

/// The corpus bucket of a spec path: that of its file name, or of the empty name when it
/// has none.
pub open spec fn bucket_of_path(path: Seq<char>) -> CorpusBucket {
    match path_file_name(path) {
        Some(n) => bucket_of_name(n),
        None => bucket_of_name(Seq::empty()),
    }
}

pub fn bucket_for_spec_path(path: &str) -> (r: CorpusBucket)
    ensures
        r == bucket_of_path(path@),
{
    let name = match file_name_of(path) {
        Some(n) => n,
        None => Vec::new(),
    };
    proof {
        assert(path_file_name(path@) is None ==> name@ =~= Seq::<char>::empty());
    }
    if ends_with_exec(&name, "_unsupported_near_miss.unit.spec") {
        CorpusBucket::UnsupportedNearMiss
    } else if ends_with_exec(&name, "_under_specified.unit.spec") {
        CorpusBucket::UnderSpecified
    } else if ends_with_exec(&name, "_drift.unit.spec") {
        CorpusBucket::Drift
    } else {
        CorpusBucket::AlignedOrReal
    }
}

/// What a unit's source says of it.
#[derive(Debug, Clone)]
pub struct LoadedUnitContext {
    pub source_id: String,
    pub source_kind: SourceKind,
    pub counts_toward_recommendation: bool,
    pub bucket: CorpusBucket,
}

/// The kind of hit a unit adds: boundary-only unless its source counts toward the
/// recommendation; real examples count as such; regression sources count unless the unit
/// is a near miss; proof-only sources never count.
pub open spec fn leverage_of(counts: bool, kind: SourceKind, bucket: CorpusBucket) -> LeverageBucket {
    if !counts {
        LeverageBucket::BoundaryOnly
    } else {
        match kind {
            SourceKind::RealExample => LeverageBucket::RealExample,
            SourceKind::RegressionUnsupported => if bucket == CorpusBucket::UnsupportedNearMiss {
                LeverageBucket::BoundaryOnly
            } else {
                LeverageBucket::PromotionRelevantRegression
            },
            SourceKind::ProofOnly => LeverageBucket::BoundaryOnly,
        }
    }
}

pub fn leverage_bucket(context: &LoadedUnitContext) -> (r: LeverageBucket)
    ensures
        r == leverage_of(context.counts_toward_recommendation, context.source_kind, context.bucket),
{
    if !context.counts_toward_recommendation {
        return LeverageBucket::BoundaryOnly;
    }
    match context.source_kind {
        SourceKind::RealExample => LeverageBucket::RealExample,
        SourceKind::RegressionUnsupported => match context.bucket {
            CorpusBucket::UnsupportedNearMiss => LeverageBucket::BoundaryOnly,
            _ => LeverageBucket::PromotionRelevantRegression,
        },
        SourceKind::ProofOnly => LeverageBucket::BoundaryOnly,
    }
}

/// The status of a cluster with these hits: boundary-only when only boundary hits exist;
/// insufficient evidence without real examples and with at most one regression hit; low
/// value when its regression hits come from one source only; rankable otherwise.
pub open spec fn candidate_status_of(real_hits: int, regression: int, boundary: int, sources: int) -> CandidateStatus {
    if real_hits == 0 && regression == 0 && boundary > 0 {
        CandidateStatus::BoundaryOnly
    } else if real_hits == 0 && regression <= 1 {
        CandidateStatus::InsufficientEvidence
    } else if real_hits == 0 && sources == 1 {
        CandidateStatus::LowValue
    } else {
        CandidateStatus::Rankable
    }
}

pub fn classify_candidate_status(
    real_example_hits: usize,
    promotion_relevant_regression_hits: usize,
    boundary_only_hits: usize,
    promotion_relevant_source_count: usize,
) -> (r: CandidateStatus)
    ensures
        r == candidate_status_of(
            real_example_hits as int,
            promotion_relevant_regression_hits as int,
            boundary_only_hits as int,
            promotion_relevant_source_count as int,
        ),
{
    if real_example_hits == 0 && promotion_relevant_regression_hits == 0 && boundary_only_hits > 0 {
        CandidateStatus::BoundaryOnly
    } else if real_example_hits == 0 && promotion_relevant_regression_hits <= 1 {
        CandidateStatus::InsufficientEvidence
    } else if real_example_hits == 0 && promotion_relevant_source_count == 1 {
        CandidateStatus::LowValue
    } else {
        CandidateStatus::Rankable
    }
}

/// `s` contains `pat`.
pub open spec fn contains_text(s: Seq<char>, pat: Seq<char>) -> bool {
    first_occurrence(s, pat) is Some
}

/// The promoted family a cluster sits next to: the arithmetic leaves for arithmetic
/// shapes, the wrapper pipelines for wrapper-like shapes, `unknown` otherwise.
pub open spec fn overlap_family_of(code: UnsupportedFunctionReasonCode, fingerprint: Seq<char>) -> Seq<char> {
    if code == UnsupportedFunctionReasonCode::UnsupportedArithmeticShape || contains_text(
        fingerprint,
        "\"authored_body_kind\":\"arithmetic_like\""@,
    ) {
        "function.arithmetic_leaf.monotone_*"@
    } else if code == UnsupportedFunctionReasonCode::UnsupportedWrapperBodyShape || code
        == UnsupportedFunctionReasonCode::UnsupportedRequiredArgumentExpression || code
        == UnsupportedFunctionReasonCode::UnsupportedDepTopology || contains_text(
        fingerprint,
        "\"authored_body_kind\":\"wrapper_like\""@,
    ) {
        "function.wrapper.pipeline*"@
    } else {
        "unknown"@
    }
}

/// Every arithmetic-shape cluster, and every cluster whose fingerprint marks an
/// arithmetic-like body, sits next to the arithmetic leaves; every other cluster whose
/// reason is a wrapper body shape, a required-argument expression or a dep topology, or
/// whose fingerprint marks a wrapper-like body, sits next to the wrapper pipelines; any
/// other cluster sits next to no known family (`unknown`).
pub proof fn lemma_overlap_family_by_reason(code: UnsupportedFunctionReasonCode, fingerprint: Seq<char>)
    ensures
        code == UnsupportedFunctionReasonCode::UnsupportedArithmeticShape ==> overlap_family_of(code, fingerprint)
            == "function.arithmetic_leaf.monotone_*"@,
        (code == UnsupportedFunctionReasonCode::UnsupportedWrapperBodyShape || code
            == UnsupportedFunctionReasonCode::UnsupportedRequiredArgumentExpression || code
            == UnsupportedFunctionReasonCode::UnsupportedDepTopology) && !contains_text(
            fingerprint,
            "\"authored_body_kind\":\"arithmetic_like\""@,
        ) ==> overlap_family_of(code, fingerprint) == "function.wrapper.pipeline*"@,
        contains_text(fingerprint, "\"authored_body_kind\":\"arithmetic_like\""@) ==> overlap_family_of(code, fingerprint)
            == "function.arithmetic_leaf.monotone_*"@,
        code != UnsupportedFunctionReasonCode::UnsupportedArithmeticShape && !contains_text(
            fingerprint,
            "\"authored_body_kind\":\"arithmetic_like\""@,
        ) && contains_text(fingerprint, "\"authored_body_kind\":\"wrapper_like\""@) ==> overlap_family_of(
            code,
            fingerprint,
        ) == "function.wrapper.pipeline*"@,
        code != UnsupportedFunctionReasonCode::UnsupportedArithmeticShape && code
            != UnsupportedFunctionReasonCode::UnsupportedWrapperBodyShape && code
            != UnsupportedFunctionReasonCode::UnsupportedRequiredArgumentExpression && code
            != UnsupportedFunctionReasonCode::UnsupportedDepTopology && !contains_text(
            fingerprint,
            "\"authored_body_kind\":\"arithmetic_like\""@,
        ) && !contains_text(fingerprint, "\"authored_body_kind\":\"wrapper_like\""@) ==> overlap_family_of(
            code,
            fingerprint,
        ) == "unknown"@,
{
}

fn contains_str(s: &str, pat: &str) -> (r: bool)
    ensures
        r == contains_text(s@, pat@),
{
    let cs = chars_of(s);
    let ps = chars_of(pat);
    find_first(&cs, &ps).is_some()
}

pub fn overlap_family_for_cluster(reason_code: UnsupportedFunctionReasonCode, shape_fingerprint: &str) -> (r: String)
    ensures
        r@ == overlap_family_of(reason_code, shape_fingerprint@),
{
    if reason_code == UnsupportedFunctionReasonCode::UnsupportedArithmeticShape || contains_str(
        shape_fingerprint,
        "\"authored_body_kind\":\"arithmetic_like\"",
    ) {
        owned("function.arithmetic_leaf.monotone_*")
    } else if reason_code == UnsupportedFunctionReasonCode::UnsupportedWrapperBodyShape || reason_code
        == UnsupportedFunctionReasonCode::UnsupportedRequiredArgumentExpression || reason_code
        == UnsupportedFunctionReasonCode::UnsupportedDepTopology || contains_str(
        shape_fingerprint,
        "\"authored_body_kind\":\"wrapper_like\"",
    ) {
        owned("function.wrapper.pipeline*")
    } else {
        owned("unknown")
    }
}

/// A reason code's variant name.
pub open spec fn variant_name(code: UnsupportedFunctionReasonCode) -> Seq<char> {
    match code {
        UnsupportedFunctionReasonCode::UnsupportedFunctionSurface => "UnsupportedFunctionSurface"@,
        UnsupportedFunctionReasonCode::UnsupportedControlFlow => "UnsupportedControlFlow"@,
        UnsupportedFunctionReasonCode::UnsupportedDepTopology => "UnsupportedDepTopology"@,
        UnsupportedFunctionReasonCode::UnsupportedArithmeticShape => "UnsupportedArithmeticShape"@,
        UnsupportedFunctionReasonCode::UnsupportedRequiredArgumentExpression => "UnsupportedRequiredArgumentExpression"@,
        UnsupportedFunctionReasonCode::UnsupportedWrapperBodyShape => "UnsupportedWrapperBodyShape"@,
    }
}

/// A reason code's name in artifacts.
pub open spec fn snake_name(code: UnsupportedFunctionReasonCode) -> Seq<char> {
    match code {
        UnsupportedFunctionReasonCode::UnsupportedFunctionSurface => "unsupported_function_surface"@,
        UnsupportedFunctionReasonCode::UnsupportedControlFlow => "unsupported_control_flow"@,
        UnsupportedFunctionReasonCode::UnsupportedDepTopology => "unsupported_dep_topology"@,
        UnsupportedFunctionReasonCode::UnsupportedArithmeticShape => "unsupported_arithmetic_shape"@,
        UnsupportedFunctionReasonCode::UnsupportedRequiredArgumentExpression => "unsupported_required_argument_expression"@,
        UnsupportedFunctionReasonCode::UnsupportedWrapperBodyShape => "unsupported_wrapper_body_shape"@,
    }
}

fn variant_name_str(code: UnsupportedFunctionReasonCode) -> (r: &'static str)
    ensures
        r@ == variant_name(code),
{
    match code {
        UnsupportedFunctionReasonCode::UnsupportedFunctionSurface => "UnsupportedFunctionSurface",
        UnsupportedFunctionReasonCode::UnsupportedControlFlow => "UnsupportedControlFlow",
        UnsupportedFunctionReasonCode::UnsupportedDepTopology => "UnsupportedDepTopology",
        UnsupportedFunctionReasonCode::UnsupportedArithmeticShape => "UnsupportedArithmeticShape",
        UnsupportedFunctionReasonCode::UnsupportedRequiredArgumentExpression => "UnsupportedRequiredArgumentExpression",
        UnsupportedFunctionReasonCode::UnsupportedWrapperBodyShape => "UnsupportedWrapperBodyShape",
    }
}

fn snake_name_str(code: UnsupportedFunctionReasonCode) -> (r: &'static str)
    ensures
        r@ == snake_name(code),
{
    match code {
        UnsupportedFunctionReasonCode::UnsupportedFunctionSurface => "unsupported_function_surface",
        UnsupportedFunctionReasonCode::UnsupportedControlFlow => "unsupported_control_flow",
        UnsupportedFunctionReasonCode::UnsupportedDepTopology => "unsupported_dep_topology",
        UnsupportedFunctionReasonCode::UnsupportedArithmeticShape => "unsupported_arithmetic_shape",
        UnsupportedFunctionReasonCode::UnsupportedRequiredArgumentExpression => "unsupported_required_argument_expression",
        UnsupportedFunctionReasonCode::UnsupportedWrapperBodyShape => "unsupported_wrapper_body_shape",
    }
}

proof fn lemma_hex_len(b: Seq<u8>)
    ensures
        hex_of(b).len() == 2 * b.len(),
    decreases b.len(),
{
    if b.len() > 0 {
        lemma_hex_len(b.drop_last());
    }
}

/// A cluster's id: the reason's artifact name, `-`, and the first twelve hex digits of the
/// SHA-256 of the UTF-8 text `Variant:fingerprint`.
pub open spec fn cluster_id_of(code: UnsupportedFunctionReasonCode, fingerprint: Seq<char>) -> Seq<char> {
    snake_name(code) + "-"@ + hex_of(sha256_of(vstd::utf8::encode_utf8(variant_name(code) + ":"@ + fingerprint))).take(
        12,
    )
}

pub fn cluster_id(reason_code: UnsupportedFunctionReasonCode, shape_fingerprint: &str) -> (r: String)
    ensures
        r@ == cluster_id_of(reason_code, shape_fingerprint@),
{
    let mut keyed = owned(variant_name_str(reason_code));
    keyed.append(":");
    keyed.append(shape_fingerprint);
    let bytes = keyed.as_str().as_bytes_vec();
    let hex = hex_string(&crate::family::analysis_checks::sha256_digest(&bytes));
    let hs = chars_of(hex.as_str());
    proof {
        reveal_strlit(":");
        assert(keyed@ =~= variant_name(reason_code) + ":"@ + shape_fingerprint@);
        lemma_hex_len(sha256_of(bytes@));
    }
    let mut out = owned(snake_name_str(reason_code));
    out.append("-");
    let ghost head = out@;
    let mut i: usize = 0;
    while i < 12
        invariant
            i <= 12,
            hs@.len() == 64,
            out@ == head + hs@.take(i as int),
        decreases 12 - i,
    {
        push_char(&mut out, hs[i]);
        i = i + 1;
        proof {
            assert(hs@.take(i as int) =~= hs@.take(i - 1).push(hs@[i - 1]));
        }
    }
    proof {
        reveal_strlit("-");
    }
    out
}

/// A unit's id qualified by its corpus source.
pub open spec fn qualified_unit_id(source_id: Seq<char>, unit_id: Seq<char>) -> Seq<char> {
    source_id + "::"@ + unit_id
}

pub fn qualify_unit_id(source_id: &str, unit_id: &str) -> (r: String)
    ensures
        r@ == qualified_unit_id(source_id@, unit_id@),
{
    let mut out = owned(source_id);
    out.append("::");
    out.append(unit_id);
    out
}

/// What the corpus manifest declares of itself.
#[derive(Debug, Clone)]
pub struct CorpusManifestHeader {
    pub schema_version: u64,
    pub target_language: String,
    pub target_lane: String,
    pub source_count: usize,
}

/// The first problem with a manifest header.
pub open spec fn manifest_header_issue(h: CorpusManifestHeader) -> Option<XtaskErrorView> {
    if h.schema_version != 1 {
        Some(XtaskErrorView::InvalidInput("corpus manifest schema_version must be 1, found "@ + decimal(h.schema_version as nat)))
    } else if h.target_language@ != "rust"@ {
        Some(XtaskErrorView::InvalidInput("corpus manifest target_language must be `rust`, found `"@ + h.target_language@ + "`"@))
    } else if h.target_lane@ != "function"@ {
        Some(XtaskErrorView::InvalidInput("corpus manifest target_lane must be `function`, found `"@ + h.target_lane@ + "`"@))
    } else if h.source_count == 0 {
        Some(XtaskErrorView::InvalidInput("corpus manifest must include at least one source"@))
    } else {
        None
    }
}

fn invalid_input(m: String) -> (r: XtaskError)
    ensures
        r@ == XtaskErrorView::InvalidInput(m@),
{
    XtaskError::InvalidInput(m)
}

pub fn validate_manifest_header(manifest: &CorpusManifestHeader) -> (r: Result<(), XtaskError>)
    ensures
        match manifest_header_issue(*manifest) {
            None => r is Ok,
            Some(e) => r matches Err(x) && x@ == e,
        },
{
    if manifest.schema_version != 1 {
        let mut m = owned("corpus manifest schema_version must be 1, found ");
        let n = crate::seam::decimal_u64_string(manifest.schema_version);
        m.append(n.as_str());
        return Err(invalid_input(m));
    }
    if !str_eq(manifest.target_language.as_str(), "rust") {
        let mut m = owned("corpus manifest target_language must be `rust`, found `");
        m.append(manifest.target_language.as_str());
        m.append("`");
        return Err(invalid_input(m));
    }
    if !str_eq(manifest.target_lane.as_str(), "function") {
        let mut m = owned("corpus manifest target_lane must be `function`, found `");
        m.append(manifest.target_lane.as_str());
        m.append("`");
        return Err(invalid_input(m));
    }
    if manifest.source_count == 0 {
        return Err(invalid_input(owned("corpus manifest must include at least one source")));
    }
    Ok(())
}

/// The normal components of a `/`-separated path, as `Path::components` yields them.
pub open spec fn normal_components(parts: Seq<Seq<char>>) -> Seq<Seq<char>>
    decreases parts.len(),
{
    if parts.len() == 0 {
        Seq::empty()
    } else {
        let prev = normal_components(parts.drop_last());
        let p = parts.last();
        if p.len() == 0 || p == "."@ || p == ".."@ {
            prev
        } else {
            prev.push(p)
        }
    }
}

/// The path lies under the semantic-family packet fixtures: at least three components,
/// the first `semantic-families`, one of them `fixtures`.
pub open spec fn is_semantic_family_fixture(path: Seq<char>) -> bool {
    let cs = normal_components(split_seq(path, '/'));
    &&& cs.len() >= 3
    &&& cs[0] == "semantic-families"@
    &&& cs.contains("fixtures"@)
}

proof fn lemma_push_contains(s: Seq<Seq<char>>, x: Seq<char>, y: Seq<char>)
    ensures
        s.push(x).contains(y) == (s.contains(y) || x == y),
{
    if s.push(x).contains(y) {
        let k = choose|k: int| 0 <= k < s.push(x).len() && s.push(x)[k] == y;
        if k < s.len() {
            assert(s[k] == y);
        }
    }
    if s.contains(y) {
        let k = choose|k: int| 0 <= k < s.len() && s[k] == y;
        assert(s.push(x)[k] == y);
    }
    if x == y {
        assert(s.push(x)[s.len() as int] == y);
    }
}

fn chars_equal(p: &Vec<char>, lit: &str) -> (r: bool)
    ensures
        r == (p@ == lit@),
{
    let l = chars_of(lit);
    crate::text::seq_eq(p, &l)
}

pub fn path_is_semantic_family_fixture(relative: &str) -> (r: bool)
    ensures
        r == is_semantic_family_fixture(relative@),
{
    proof {
        reveal_strlit(".");
        reveal_strlit("..");
        reveal_strlit("semantic-families");
        reveal_strlit("fixtures");
    }
    let cs = chars_of(relative);
    let parts = split_chars(&cs, '/');
    let ghost ps = split_seq(relative@, '/');
    let mut count: usize = 0;
    let mut first_ok = false;
    let mut has_fixtures = false;
    let mut i: usize = 0;
    while i < parts.len()
        invariant
            i <= parts@.len(),
            crate::text::views(parts@) == ps,
            count == normal_components(ps.take(i as int)).len(),
            count <= i,
            count > 0 ==> (first_ok == (normal_components(ps.take(i as int))[0] == "semantic-families"@)),
            has_fixtures == normal_components(ps.take(i as int)).contains("fixtures"@),
        decreases parts@.len() - i,
    {
        proof {
            assert(ps.take(i + 1).drop_last() =~= ps.take(i as int));
            assert(ps.take(i + 1).last() == parts@[i as int]@);
        }
        let p = &parts[i];
        let skip = p.len() == 0 || chars_equal(p, ".") || chars_equal(p, "..");
        let ghost prev = normal_components(ps.take(i as int));
        if !skip {
            proof {
                assert(normal_components(ps.take(i + 1)) == prev.push(p@));
                lemma_push_contains(prev, p@, "fixtures"@);
            }
            if count == 0 {
                first_ok = chars_equal(p, "semantic-families");
            }
            if chars_equal(p, "fixtures") {
                has_fixtures = true;
            }
            count = count + 1;
        } else {
            proof {
                assert(normal_components(ps.take(i + 1)) == prev);
            }
        }
        i = i + 1;
    }
    proof {
        assert(ps.take(parts@.len() as int) =~= ps);
    }
    count >= 3 && first_ok && has_fixtures
}

/// One source a corpus manifest lists.
#[derive(Debug, Clone)]
pub struct ManifestSource {
    pub id: String,
    pub path: String,
    pub kind: SourceKind,
    pub counts_toward_recommendation: bool,
    pub note: String,
}

/// The first problem with a manifest source that can be seen without the disk, given the
/// ids of the sources before it.
pub open spec fn manifest_source_issue(s: ManifestSource, seen: Seq<Seq<char>>) -> Option<XtaskErrorView> {
    if trim_seq(s.id@).len() == 0 || trim_seq(s.note@).len() == 0 || has_char(s.note@, '\n') {
        Some(XtaskErrorView::InvalidInput("corpus manifest sources require non-empty single-line id and note"@))
    } else if seen.contains(s.id@) {
        Some(XtaskErrorView::InvalidInput("corpus manifest source id `"@ + s.id@ + "` must be unique"@))
    } else if repo_relative_issue(s.path@, "corpus source path"@) is Some {
        repo_relative_issue(s.path@, "corpus source path"@)
    } else if is_semantic_family_fixture(s.path@) {
        Some(
            XtaskErrorView::InvalidInput(
                "corpus source path `"@ + s.path@ + "` must not reference semantic-family packet fixtures"@,
            ),
        )
    } else {
        None
    }
}

/// Checks a manifest source before its directory is read; `seen_ids` holds the ids of the
/// sources before it and gains this one when it is unique.
pub fn check_manifest_source(source: &ManifestSource, seen_ids: &mut Vec<String>) -> (r: Result<(), XtaskError>)
    ensures
        match manifest_source_issue(*source, crate::errors::views_of_strings(old(seen_ids)@)) {
            None => r is Ok,
            Some(e) => r matches Err(x) && x@ == e,
        },
        !(trim_seq(source.id@).len() == 0 || trim_seq(source.note@).len() == 0 || has_char(source.note@, '\n'))
            && !crate::errors::views_of_strings(old(seen_ids)@).contains(source.id@)
            ==> crate::errors::views_of_strings(final(seen_ids)@) == crate::errors::views_of_strings(
            old(seen_ids)@,
        ).push(source.id@),
        (trim_seq(source.id@).len() == 0 || trim_seq(source.note@).len() == 0 || has_char(source.note@, '\n'))
            || crate::errors::views_of_strings(old(seen_ids)@).contains(source.id@) ==> final(seen_ids)@ == old(
            seen_ids,
        )@,
{
    let id_chars = chars_of(source.id.as_str());
    let note_chars = chars_of(source.note.as_str());
    if trim_chars(&id_chars).len() == 0 || trim_chars(&note_chars).len() == 0 || has_char_exec(&note_chars, '\n') {
        return Err(invalid_input(owned("corpus manifest sources require non-empty single-line id and note")));
    }
    let ghost seen = crate::errors::views_of_strings(seen_ids@);
    let mut i: usize = 0;
    while i < seen_ids.len()
        invariant
            i <= seen_ids@.len(),
            seen == crate::errors::views_of_strings(seen_ids@),
            seen_ids@ == old(seen_ids)@,
            !(trim_seq(source.id@).len() == 0 || trim_seq(source.note@).len() == 0 || has_char(source.note@, '\n')),
            forall|k: int| 0 <= k < i ==> seen[k] != source.id@,
        decreases seen_ids@.len() - i,
    {
        if str_eq(seen_ids[i].as_str(), source.id.as_str()) {
            proof {
                assert(seen[i as int] == source.id@);
                assert(seen.contains(source.id@));
            }
            let mut m = owned("corpus manifest source id `");
            m.append(source.id.as_str());
            m.append("` must be unique");
            return Err(invalid_input(m));
        }
        i = i + 1;
    }
    proof {
        assert(!seen.contains(source.id@)) by {
            if seen.contains(source.id@) {
                let k = choose|k: int| 0 <= k < seen.len() && seen[k] == source.id@;
                assert(seen[k] != source.id@);
            }
        }
    }
    let ghost before = seen_ids@;
    seen_ids.push(owned(source.id.as_str()));
    proof {
        assert(crate::errors::views_of_strings(seen_ids@) =~= crate::errors::views_of_strings(before).push(source.id@));
    }
    match validate_repo_relative_path(source.path.as_str(), "corpus source path") {
        Err(e) => {
            return Err(e);
        },
        Ok(()) => {},
    }
    if path_is_semantic_family_fixture(source.path.as_str()) {
        let mut m = owned("corpus source path `");
        m.append(source.path.as_str());
        m.append("` must not reference semantic-family packet fixtures");
        return Err(invalid_input(m));
    }
    Ok(())
}

} // verus!
