//! The durable non-promotable helper surface: how a signal is classified as one, and
//! the frozen tuples that recommendation and decision artifacts carry for it.
use vstd::prelude::*;
use crate::family::artifacts::{
    CorpusProgramDecisionAction, CorpusProgramDecisionArtifact, CorpusProgramDecisionBasisCode, HoldReason,
    NextStepDetail, NextStepStatus, PivotTargetClass, PromotionReadiness, RecommendationCandidateEntry,
    RequiredNextAction, UnsupportedFunctionReasonCode,
};
use crate::family::paths::views_of;
use crate::text::{chars_of, owned, str_eq};

verus! {

/// What the unsupported-function analysis observed of one candidate cluster.
#[derive(Debug, Clone, Copy, PartialEq, Eq)]
pub struct HelperSurfaceSignal<'a> {
    pub primary_reason_code: UnsupportedFunctionReasonCode,
    pub overlap_family: &'a str,
    pub real_example_hits: usize,
    pub shape_fingerprint: &'a str,
}

#[derive(Debug, Clone, Copy, PartialEq, Eq, Structural)]
pub enum HelperSurfaceDisposition {
    DurableNonPromotableHelperSurface,
}

#[derive(Debug, Clone, Copy, PartialEq, Eq, Structural)]
pub struct HelperSurfaceCandidateTuple {
    pub promotion_readiness: PromotionReadiness,
    pub hold_reason: HoldReason,
    pub next_step_status: NextStepStatus,
    pub next_step_detail: NextStepDetail,
}

#[derive(Debug, Clone, Copy, PartialEq, Eq, Structural)]
pub struct HelperSurfaceFollowOnDecisionTuple {
    pub decision_action: CorpusProgramDecisionAction,
    pub decision_basis_code: CorpusProgramDecisionBasisCode,
    pub pivot_target_class: PivotTargetClass,
    pub required_next_action: RequiredNextAction,
}

/// The shape fingerprint of a helper surface, in its canonical JSON form.
pub const HELPER_SURFACE_FINGERPRINT: &'static str = "{\"schema_version\":1,\"function_dep_arity\":0,\"callable_dep_topology_class\":\"no_deps_or_helper\",\"contract_input_count\":1,\"has_return\":true,\"authored_body_kind\":\"neither\"}";

/// The keys of the JSON object that `text` parses to, in serde_json's map order;
/// `None` when `text` is no JSON object.
pub uninterp spec fn json_top_level_keys(text: Seq<char>) -> Option<Seq<Seq<char>>>;

/// The unsigned integer under `key` of the JSON object `text`, if there is one.
pub uninterp spec fn json_u64_field(text: Seq<char>, key: Seq<char>) -> Option<u64>;

/// The string under `key` of the JSON object `text`, if there is one.
pub uninterp spec fn json_str_field(text: Seq<char>, key: Seq<char>) -> Option<Seq<char>>;

/// The boolean under `key` of the JSON object `text`, if there is one.
pub uninterp spec fn json_bool_field(text: Seq<char>, key: Seq<char>) -> Option<bool>;

/// Parses `text` with `serde_json::from_str::<serde_json::Value>` and lists the keys
/// of the object it holds. serde_json keeps the last of repeated keys, so a text that
/// repeats a key is read by its last occurrence.
#[verifier::external_body]
fn json_object_keys(text: &str) -> (r: Option<Vec<String>>)
    ensures
        match json_top_level_keys(text@) {
            Some(ks) => r matches Some(v) && views_of(v@) == ks,
            None => r is None,
        },
{
    match serde_json::from_str::<serde_json::Value>(text) {
        Ok(serde_json::Value::Object(map)) => Some(map.keys().cloned().collect()),
        _ => None,
    }
}

/// `serde_json::from_str::<serde_json::Value>`, then `Value::get(key)` and `Value::as_u64`.
#[verifier::external_body]
fn json_u64_at(text: &str, key: &str) -> (r: Option<u64>)
    ensures
        r == json_u64_field(text@, key@),
{
    match serde_json::from_str::<serde_json::Value>(text) {
        Ok(value) => match value.get(key) {
            Some(field) => field.as_u64(),
            None => None,
        },
        Err(_) => None,
    }
}

/// `serde_json::from_str::<serde_json::Value>`, then `Value::get(key)` and `Value::as_str`.
#[verifier::external_body]
fn json_str_at(text: &str, key: &str) -> (r: Option<String>)
    ensures
        match json_str_field(text@, key@) {
            Some(s) => r matches Some(x) && x@ == s,
            None => r is None,
        },
{
    match serde_json::from_str::<serde_json::Value>(text) {
        Ok(value) => match value.get(key) {
            Some(field) => field.as_str().map(String::from),
            None => None,
        },
        Err(_) => None,
    }
}

/// `serde_json::from_str::<serde_json::Value>`, then `Value::get(key)` and `Value::as_bool`.
#[verifier::external_body]
fn json_bool_at(text: &str, key: &str) -> (r: Option<bool>)
    ensures
        r == json_bool_field(text@, key@),
{
    match serde_json::from_str::<serde_json::Value>(text) {
        Ok(value) => match value.get(key) {
            Some(field) => field.as_bool(),
            None => None,
        },
        Err(_) => None,
    }
}

/// Where a left-to-right scan of JSON text stands: brackets opened and closed, whether it
/// is inside a string and just after a backslash there, and the `:` it has met directly
/// inside the outermost bracket, outside strings.
pub struct JsonScan {
    pub opens: nat,
    pub closes: nat,
    pub in_string: bool,
    pub escaped: bool,
    pub members: nat,
}

pub open spec fn scan_char(st: JsonScan, c: char) -> JsonScan {
    if st.in_string {
        if st.escaped {
            JsonScan { opens: st.opens, closes: st.closes, in_string: true, escaped: false, members: st.members }
        } else if c == '\\' {
            JsonScan { opens: st.opens, closes: st.closes, in_string: true, escaped: true, members: st.members }
        } else if c == '"' {
            JsonScan { opens: st.opens, closes: st.closes, in_string: false, escaped: false, members: st.members }
        } else {
            st
        }
    } else if c == '"' {
        JsonScan { opens: st.opens, closes: st.closes, in_string: true, escaped: false, members: st.members }
    } else if c == '{' || c == '[' {
        JsonScan { opens: st.opens + 1, closes: st.closes, in_string: false, escaped: st.escaped, members: st.members }
    } else if c == '}' || c == ']' {
        JsonScan { opens: st.opens, closes: st.closes + 1, in_string: false, escaped: st.escaped, members: st.members }
    } else if c == ':' && st.opens == st.closes + 1 {
        JsonScan { opens: st.opens, closes: st.closes, in_string: false, escaped: st.escaped, members: st.members + 1 }
    } else {
        st
    }
}

pub open spec fn json_scan(t: Seq<char>) -> JsonScan
    decreases t.len(),
{
    if t.len() == 0 {
        JsonScan { opens: 0, closes: 0, in_string: false, escaped: false, members: 0 }
    } else {
        scan_char(json_scan(t.drop_last()), t.last())
    }
}

/// The members the outermost object of a JSON text writes, repeated keys counted each
/// time: in well-formed JSON each member has exactly one `:` directly inside that object.
pub open spec fn top_level_member_count(t: Seq<char>) -> nat {
    json_scan(t).members
}

fn count_top_level_members(text: &str) -> (r: usize)
    ensures
        r == top_level_member_count(text@),
{
    let cs = chars_of(text);
    let mut opens: usize = 0;
    let mut closes: usize = 0;
    let mut in_string = false;
    let mut escaped = false;
    let mut members: usize = 0;
    let mut i: usize = 0;
    while i < cs.len()
        invariant
            i <= cs@.len(),
            cs@ == text@,
            opens <= i && closes <= i && members <= i,
            json_scan(cs@.take(i as int)) == (JsonScan {
                opens: opens as nat,
                closes: closes as nat,
                in_string,
                escaped,
                members: members as nat,
            }),
        decreases cs@.len() - i,
    {
        proof {
            assert(cs@.take(i + 1).drop_last() =~= cs@.take(i as int));
        }
        let c = cs[i];
        if in_string {
            if escaped {
                escaped = false;
            } else if c == '\\' {
                escaped = true;
            } else if c == '"' {
                in_string = false;
            }
        } else if c == '"' {
            in_string = true;
            escaped = false;
        } else if c == '{' || c == '[' {
            opens = opens + 1;
        } else if c == '}' || c == ']' {
            closes = closes + 1;
        } else if c == ':' && opens == closes + 1 {
            members = members + 1;
        }
        i = i + 1;
    }
    proof {
        assert(cs@.take(cs@.len() as int) =~= cs@);
    }
    members
}

/// A JSON array element as the fingerprint reads it: an unsigned integer, a string,
/// a boolean, or anything else.
#[derive(Debug, Clone)]
pub enum JsonItem {
    U64(u64),
    Str(String),
    Bool(bool),
    Other,
}

pub enum JsonItemView {
    U64(u64),
    Str(Seq<char>),
    Bool(bool),
    Other,
}

pub open spec fn item_view(i: JsonItem) -> JsonItemView {
    match i {
        JsonItem::U64(n) => JsonItemView::U64(n),
        JsonItem::Str(s) => JsonItemView::Str(s@),
        JsonItem::Bool(b) => JsonItemView::Bool(b),
        JsonItem::Other => JsonItemView::Other,
    }
}

/// The elements of the JSON array that `text` parses to; `None` when `text` is no JSON array.
pub uninterp spec fn json_array_items(text: Seq<char>) -> Option<Seq<JsonItemView>>;

/// Parses `text` with `serde_json::from_str::<serde_json::Value>` and, for an array,
/// hands back each element: `Value::as_u64` of a number where it has one, the string, the
/// boolean, or `Other`.
#[verifier::external_body]
fn json_array_elements(text: &str) -> (r: Option<Vec<JsonItem>>)
    ensures
        match json_array_items(text@) {
            Some(items) => r matches Some(v) && v@.map_values(|i: JsonItem| item_view(i)) == items,
            None => r is None,
        },
{
    match serde_json::from_str::<serde_json::Value>(text) {
        Ok(serde_json::Value::Array(items)) => Some(items.into_iter().map(|v| match v {
            serde_json::Value::Number(n) => n.as_u64().map_or(JsonItem::Other, JsonItem::U64),
            serde_json::Value::String(s) => JsonItem::Str(s),
            serde_json::Value::Bool(b) => JsonItem::Bool(b),
            _ => JsonItem::Other,
        }).collect()),
        _ => None,
    }
}

/// The helper surface's fingerprint values in the fields' declared order, as a JSON
/// array that serde reads into the fingerprint struct gives them.
pub open spec fn helper_fingerprint_items() -> Seq<JsonItemView> {
    seq![
        JsonItemView::U64(1),
        JsonItemView::U64(0),
        JsonItemView::Str("no_deps_or_helper"@),
        JsonItemView::U64(1),
        JsonItemView::Bool(true),
        JsonItemView::Str("neither"@),
    ]
}

fn item_is_u64(i: &JsonItem, n: u64) -> (r: bool)
    ensures
        r == (item_view(*i) == JsonItemView::U64(n)),
{
    match i {
        JsonItem::U64(m) => *m == n,
        _ => false,
    }
}

fn item_is_str(i: &JsonItem, t: &str) -> (r: bool)
    ensures
        r == (item_view(*i) == JsonItemView::Str(t@)),
{
    match i {
        JsonItem::Str(s) => str_eq(s.as_str(), t),
        _ => false,
    }
}

fn item_is_true(i: &JsonItem) -> (r: bool)
    ensures
        r == (item_view(*i) == JsonItemView::Bool(true)),
{
    match i {
        JsonItem::Bool(b) => *b,
        _ => false,
    }
}

fn matches_fingerprint_array(text: &str) -> (r: bool)
    ensures
        r == (json_array_items(text@) == Some(helper_fingerprint_items())),
{
    let items = match json_array_elements(text) {
        Some(v) => v,
        None => {
            return false;
        },
    };
    let ghost w = items@.map_values(|i: JsonItem| item_view(i));
    if items.len() != 6 {
        proof {
            assert(w.len() != helper_fingerprint_items().len());
        }
        return false;
    }
    let ok = item_is_u64(&items[0], 1) && item_is_u64(&items[1], 0) && item_is_str(&items[2], "no_deps_or_helper")
        && item_is_u64(&items[3], 1) && item_is_true(&items[4]) && item_is_str(&items[5], "neither");
    proof {
        if ok {
            assert(w =~= helper_fingerprint_items());
        } else {
            if w == helper_fingerprint_items() {
                assert(w[0] == item_view(items@[0]));
                assert(w[1] == item_view(items@[1]));
                assert(w[2] == item_view(items@[2]));
                assert(w[3] == item_view(items@[3]));
                assert(w[4] == item_view(items@[4]));
                assert(w[5] == item_view(items@[5]));
            }
        }
    }
    ok
}

/// The fields of a shape fingerprint.
pub open spec fn fingerprint_keys() -> Seq<Seq<char>> {
    seq![
        "schema_version"@,
        "function_dep_arity"@,
        "callable_dep_topology_class"@,
        "contract_input_count"@,
        "has_return"@,
        "authored_body_kind"@,
    ]
}

/// `text` is the helper-surface fingerprint: the canonical form, or a JSON object that
/// writes each of the fingerprint's fields exactly once, and no other, with the helper
/// surface's values (a text that repeats a key writes more members than it has keys),
/// or a JSON array of exactly those values in the fields' declared order.
pub open spec fn is_helper_fingerprint(text: Seq<char>) -> bool {
    ||| text == HELPER_SURFACE_FINGERPRINT@
    ||| json_array_items(text) == Some(helper_fingerprint_items())
    ||| {
        &&& json_top_level_keys(text) matches Some(ks) && (forall|k: Seq<char>| ks.contains(k) <==> fingerprint_keys().contains(k))
        &&& top_level_member_count(text) == 6
        &&& json_u64_field(text, "schema_version"@) == Some(1u64)
        &&& json_u64_field(text, "function_dep_arity"@) == Some(0u64)
        &&& json_str_field(text, "callable_dep_topology_class"@) == Some("no_deps_or_helper"@)
        &&& json_u64_field(text, "contract_input_count"@) == Some(1u64)
        &&& json_bool_field(text, "has_return"@) == Some(true)
        &&& json_str_field(text, "authored_body_kind"@) == Some("neither"@)
    }
}

fn fingerprint_key_names() -> (r: Vec<String>)
    ensures
        views_of(r@) == fingerprint_keys(),
{
    let r = vec![
        owned("schema_version"),
        owned("function_dep_arity"),
        owned("callable_dep_topology_class"),
        owned("contract_input_count"),
        owned("has_return"),
        owned("authored_body_kind"),
    ];
    proof {
        assert(views_of(r@) =~= fingerprint_keys());
    }
    r
}

fn same_key_set(ks: &Vec<String>, want: &Vec<String>) -> (r: bool)
    ensures
        r == (forall|k: Seq<char>| views_of(ks@).contains(k) <==> views_of(want@).contains(k)),
{
    let mut i: usize = 0;
    while i < ks.len()
        invariant
            i <= ks@.len(),
            forall|t: int| 0 <= t < i ==> views_of(want@).contains(#[trigger] views_of(ks@)[t]),
        decreases ks@.len() - i,
    {
        proof {
            assert(crate::errors::views_of_strings(want@) == views_of(want@));
            assert(views_of(ks@)[i as int] == ks@[i as int]@);
        }
        if !crate::validator::contains_string(want, &ks[i]) {
            proof {
                assert(views_of(ks@).contains(ks@[i as int]@));
            }
            return false;
        }
        i = i + 1;
    }
    let mut j: usize = 0;
    while j < want.len()
        invariant
            j <= want@.len(),
            forall|t: int| 0 <= t < ks@.len() ==> views_of(want@).contains(#[trigger] views_of(ks@)[t]),
            forall|t: int| 0 <= t < j ==> views_of(ks@).contains(#[trigger] views_of(want@)[t]),
        decreases want@.len() - j,
    {
        proof {
            assert(crate::errors::views_of_strings(ks@) == views_of(ks@));
            assert(views_of(want@)[j as int] == want@[j as int]@);
        }
        if !crate::validator::contains_string(ks, &want[j]) {
            proof {
                assert(views_of(want@).contains(want@[j as int]@));
            }
            return false;
        }
        j = j + 1;
    }
    proof {
        assert forall|k: Seq<char>| views_of(ks@).contains(k) <==> views_of(want@).contains(k) by {
            if views_of(ks@).contains(k) {
                let t = choose|t: int| 0 <= t < views_of(ks@).len() && views_of(ks@)[t] == k;
                assert(views_of(want@).contains(views_of(ks@)[t]));
            }
            if views_of(want@).contains(k) {
                let t = choose|t: int| 0 <= t < views_of(want@).len() && views_of(want@)[t] == k;
                assert(views_of(ks@).contains(views_of(want@)[t]));
            }
        }
    }
    true
}

fn matches_helper_surface_fingerprint(text: &str) -> (r: bool)
    ensures
        r == is_helper_fingerprint(text@),
{
    if str_eq(text, HELPER_SURFACE_FINGERPRINT) || matches_fingerprint_array(text) {
        return true;
    }
    let keys = match json_object_keys(text) {
        Some(k) => k,
        None => {
            return false;
        },
    };
    let want = fingerprint_key_names();
    if !same_key_set(&keys, &want) || count_top_level_members(text) != 6 {
        return false;
    }
    json_u64_at(text, "schema_version") == Some(1u64) && json_u64_at(text, "function_dep_arity") == Some(0u64)
        && match json_str_at(text, "callable_dep_topology_class") {
        Some(s) => str_eq(s.as_str(), "no_deps_or_helper"),
        None => false,
    } && json_u64_at(text, "contract_input_count") == Some(1u64) && json_bool_at(text, "has_return") == Some(true)
        && match json_str_at(text, "authored_body_kind") {
        Some(s) => str_eq(s.as_str(), "neither"),
        None => false,
    }
}

/// The signal of a durable non-promotable helper surface: an unsupported function
/// surface with no known overlapping family, seen in real examples, with the helper
/// surface's shape fingerprint.
pub open spec fn is_helper_surface(signal: HelperSurfaceSignal) -> bool {
    &&& signal.primary_reason_code == UnsupportedFunctionReasonCode::UnsupportedFunctionSurface
    &&& signal.overlap_family@ == "unknown"@
    &&& signal.real_example_hits > 0
    &&& is_helper_fingerprint(signal.shape_fingerprint@)
}

/// Classifies a signal as a durable non-promotable helper surface, or not at all.
pub fn classify_helper_surface(signal: &HelperSurfaceSignal<'_>) -> (r: Option<HelperSurfaceDisposition>)
    ensures
        is_helper_surface(*signal) ==> r == Some(HelperSurfaceDisposition::DurableNonPromotableHelperSurface),
        !is_helper_surface(*signal) ==> r is None,
{
    if signal.primary_reason_code != UnsupportedFunctionReasonCode::UnsupportedFunctionSurface {
        return None;
    }
    if !str_eq(signal.overlap_family, "unknown") || signal.real_example_hits == 0 {
        return None;
    }
    if !matches_helper_surface_fingerprint(signal.shape_fingerprint) {
        return None;
    }
    Some(HelperSurfaceDisposition::DurableNonPromotableHelperSurface)
}

/// The frozen hold that a helper-surface candidate carries.
pub open spec fn durable_hold() -> HelperSurfaceCandidateTuple {
    HelperSurfaceCandidateTuple {
        promotion_readiness: PromotionReadiness::Hold,
        hold_reason: HoldReason::HelperSurfaceNotPromotable,
        next_step_status: NextStepStatus::DurableHold,
        next_step_detail: NextStepDetail::HelperSurfaceNotPromotable,
    }
}

pub fn durable_non_promotable_helper_surface_candidate_tuple() -> (r: HelperSurfaceCandidateTuple)
    ensures
        r == durable_hold(),
{
    HelperSurfaceCandidateTuple {
        promotion_readiness: PromotionReadiness::Hold,
        hold_reason: HoldReason::HelperSurfaceNotPromotable,
        next_step_status: NextStepStatus::DurableHold,
        next_step_detail: NextStepDetail::HelperSurfaceNotPromotable,
    }
}

/// The candidate shows any part of the durable hold.
pub open spec fn uses_durable_hold(c: RecommendationCandidateEntry) -> bool {
    ||| c.hold_reasons@.contains(HoldReason::HelperSurfaceNotPromotable)
    ||| c.next_step_status == NextStepStatus::DurableHold
    ||| c.next_step_detail == NextStepDetail::HelperSurfaceNotPromotable
}

pub fn recommendation_uses_helper_surface_durable_hold_tuple(candidate: &RecommendationCandidateEntry) -> (r: bool)
    ensures
        r == uses_durable_hold(*candidate),
{
    let mut found = false;
    let mut i: usize = 0;
    while i < candidate.hold_reasons.len()
        invariant
            i <= candidate.hold_reasons@.len(),
            found == exists|t: int| 0 <= t < i && candidate.hold_reasons@[t] == HoldReason::HelperSurfaceNotPromotable,
        decreases candidate.hold_reasons@.len() - i,
    {
        if candidate.hold_reasons[i] == HoldReason::HelperSurfaceNotPromotable {
            found = true;
        }
        i = i + 1;
    }
    found || candidate.next_step_status == NextStepStatus::DurableHold
        || candidate.next_step_detail == NextStepDetail::HelperSurfaceNotPromotable
}

/// The candidate carries exactly the durable hold.
pub open spec fn matches_durable_hold(c: RecommendationCandidateEntry) -> bool {
    &&& c.promotion_readiness == durable_hold().promotion_readiness
    &&& c.hold_reasons@ == seq![durable_hold().hold_reason]
    &&& c.next_step_status == durable_hold().next_step_status
    &&& c.next_step_detail == durable_hold().next_step_detail
}

pub fn recommendation_matches_helper_surface_durable_hold_tuple(candidate: &RecommendationCandidateEntry) -> (r: bool)
    ensures
        r == matches_durable_hold(*candidate),
{
    let hold = durable_non_promotable_helper_surface_candidate_tuple();
    let single = candidate.hold_reasons.len() == 1 && candidate.hold_reasons[0] == hold.hold_reason;
    proof {
        if candidate.hold_reasons@.len() == 1 {
            if candidate.hold_reasons@[0] == hold.hold_reason {
                assert(candidate.hold_reasons@ =~= seq![durable_hold().hold_reason]);
            }
        }
    }
    candidate.promotion_readiness == hold.promotion_readiness && single && candidate.next_step_status
        == hold.next_step_status && candidate.next_step_detail == hold.next_step_detail
}

/// The frozen decision that a helper surface leads to.
pub open spec fn follow_on() -> HelperSurfaceFollowOnDecisionTuple {
    HelperSurfaceFollowOnDecisionTuple {
        decision_action: CorpusProgramDecisionAction::PivotToArchitectureSharedCoreFollowOn,
        decision_basis_code: CorpusProgramDecisionBasisCode::DurableNonPromotableHelperSurface,
        pivot_target_class: PivotTargetClass::ArchitectureSharedCoreFollowOn,
        required_next_action: RequiredNextAction::AuthorArchitectureFollowOnPlan,
    }
}

pub fn helper_surface_follow_on_decision_tuple() -> (r: HelperSurfaceFollowOnDecisionTuple)
    ensures
        r == follow_on(),
{
    HelperSurfaceFollowOnDecisionTuple {
        decision_action: CorpusProgramDecisionAction::PivotToArchitectureSharedCoreFollowOn,
        decision_basis_code: CorpusProgramDecisionBasisCode::DurableNonPromotableHelperSurface,
        pivot_target_class: PivotTargetClass::ArchitectureSharedCoreFollowOn,
        required_next_action: RequiredNextAction::AuthorArchitectureFollowOnPlan,
    }
}

/// Whether a decision artifact records exactly the helper-surface follow-on.
pub fn decision_matches_helper_surface_follow_on_tuple(artifact: &CorpusProgramDecisionArtifact) -> (r: bool)
    ensures
        r == (artifact.decision_action == follow_on().decision_action && artifact.decision_basis_code
            == follow_on().decision_basis_code && artifact.pivot_target_class == Some(follow_on().pivot_target_class)
            && artifact.required_next_action == follow_on().required_next_action),
{
    let f = helper_surface_follow_on_decision_tuple();
    let pivot = match artifact.pivot_target_class {
        Some(p) => p == f.pivot_target_class,
        None => false,
    };
    artifact.decision_action == f.decision_action && artifact.decision_basis_code == f.decision_basis_code && pivot
        && artifact.required_next_action == f.required_next_action
}

} // verus!
