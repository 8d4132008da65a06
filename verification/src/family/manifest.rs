//! The `family.toml` manifest of a family packet.
use vstd::prelude::*;
use crate::family::error::{XtaskError, XtaskErrorView};
use crate::family::paths::{required_bucket_names, required_buckets, views_of, FamilyId};
use crate::seam::{decimal, decimal_u64_string};
use crate::text::{chars_of, has_char, has_char_exec, owned, str_eq, trim_chars, trim_seq};

verus! {

#[derive(Debug, Clone)]
pub struct Routing {
    pub precedence: u64,
    pub must_not_shadow: Vec<String>,
}

#[derive(Debug, Clone)]
pub struct Shape {
    pub dep_count: u64,
    pub control_flow: String,
    pub return_style: String,
    pub loops: bool,
    pub branching: bool,
    pub requires_supported_function_deps: bool,
}

#[derive(Debug, Clone)]
pub struct Args {
    pub threading: String,
    pub allow_nested_argument_expressions: bool,
    pub allow_literal_only_extra_args: bool,
}

#[derive(Debug, Clone)]
pub struct Corpus {
    pub required_buckets: Vec<String>,
    pub min_cases_per_bucket: u64,
}

#[derive(Debug, Clone)]
pub struct TruthSurface {
    pub requires_refresh_via: Vec<String>,
    pub preserve_only_via: Vec<String>,
    pub requires_stale_demote: bool,
}

#[derive(Debug, Clone)]
pub struct Gates {
    pub gate_a: bool,
    pub gate_b: bool,
    pub gate_c: bool,
    pub gate_d: bool,
}

/// The authored manifest of one family packet.
#[derive(Debug, Clone)]
pub struct FamilyManifest {
    pub schema_version: u64,
    pub family: String,
    pub kind: String,
    pub compatibility_key: String,
    pub summary: String,
    pub routing: Routing,
    pub shape: Shape,
    pub args: Args,
    pub corpus: Corpus,
    pub truth_surface: TruthSurface,
    pub gates: Gates,
}

/// The commands that must refresh a family's truth surface.
pub open spec fn requires_refresh_via() -> Seq<Seq<char>> {
    seq!["spec test"@]
}

/// The commands that may only preserve it.
pub open spec fn preserve_only_via() -> Seq<Seq<char>> {
    seq!["spec build"@, "spec generate"@, "spec status"@, "spec export"@]
}

pub open spec fn has_blank_entry(v: Seq<String>) -> bool {
    exists|i: int| 0 <= i < v.len() && trim_seq(#[trigger] v[i]@).len() == 0
}

/// The first rule of the manifest format that `m` breaks, as its message, in checking order.
pub open spec fn manifest_issue(m: FamilyManifest, family: Seq<char>) -> Option<Seq<char>> {
    if m.schema_version != 1 {
        Some("family.toml schema_version must be 1, found "@ + decimal(m.schema_version as nat))
    } else if m.family@ != family {
        Some("family.toml family `"@ + m.family@ + "` must match packet directory `"@ + family + "`"@)
    } else if m.kind@ != "function"@ {
        Some("family.toml kind must be `function`, found `"@ + m.kind@ + "`"@)
    } else if m.compatibility_key@ != m.family@ {
        Some("family.toml compatibility_key must equal family"@)
    } else if m.summary@.len() == 0 || has_char(m.summary@, '\n') || has_char(m.summary@, '\r') {
        Some("family.toml summary must be a single non-empty line"@)
    } else if m.routing.precedence == 0 {
        Some("family.toml routing.precedence must be a positive integer"@)
    } else if m.routing.must_not_shadow@.len() == 0 {
        Some("family.toml routing.must_not_shadow must be non-empty"@)
    } else if has_blank_entry(m.routing.must_not_shadow@) {
        Some("family.toml routing.must_not_shadow entries must be non-empty"@)
    } else if m.shape.dep_count == 0 {
        Some("family.toml shape.dep_count must be a positive integer"@)
    } else if m.shape.control_flow@ != "straight_line_only"@ {
        Some("family.toml shape.control_flow must be `straight_line_only`, found `"@ + m.shape.control_flow@ + "`"@)
    } else if m.shape.return_style@ != "direct_return"@ && m.shape.return_style@ != "let_then_return_or_direct_return"@ {
        Some(
            "family.toml shape.return_style must be `direct_return` or `let_then_return_or_direct_return`, found `"@
                + m.shape.return_style@ + "`"@,
        )
    } else if m.shape.loops {
        Some("family.toml shape.loops must be false in M21"@)
    } else if m.shape.branching {
        Some("family.toml shape.branching must be false in M21"@)
    } else if !m.shape.requires_supported_function_deps {
        Some("family.toml shape.requires_supported_function_deps must be true in M21"@)
    } else if m.args.threading@ != "ordered_passthrough"@ {
        Some("family.toml args.threading must be `ordered_passthrough`, found `"@ + m.args.threading@ + "`"@)
    } else if m.args.allow_nested_argument_expressions {
        Some("family.toml args.allow_nested_argument_expressions must be false in M21"@)
    } else if m.args.allow_literal_only_extra_args {
        Some("family.toml args.allow_literal_only_extra_args must be false in M21"@)
    } else if views_of(m.corpus.required_buckets@) != required_buckets() {
        Some("family.toml corpus.required_buckets must be exactly [\"aligned\", \"drift\", \"under_specified\", \"unsupported_near_miss\"]"@)
    } else if m.corpus.min_cases_per_bucket < 1 {
        Some("family.toml corpus.min_cases_per_bucket must be at least 1"@)
    } else if views_of(m.truth_surface.requires_refresh_via@) != requires_refresh_via() {
        Some("family.toml truth_surface.requires_refresh_via must be exactly [\"spec test\"]"@)
    } else if views_of(m.truth_surface.preserve_only_via@) != preserve_only_via() {
        Some("family.toml truth_surface.preserve_only_via must be exactly [\"spec build\", \"spec generate\", \"spec status\", \"spec export\"]"@)
    } else if !m.truth_surface.requires_stale_demote {
        Some("family.toml truth_surface.requires_stale_demote must be true"@)
    } else if !(m.gates.gate_a && m.gates.gate_b && m.gates.gate_c && m.gates.gate_d) {
        Some("family.toml gates.gate_a through gate_d must all be true in M21"@)
    } else {
        None
    }
}

/// Whether two lists of strings hold the same strings in the same order.
pub fn strings_equal(a: &Vec<String>, b: &Vec<String>) -> (r: bool)
    ensures
        r == (views_of(a@) == views_of(b@)),
{
    if a.len() != b.len() {
        proof {
            assert(views_of(a@).len() != views_of(b@).len());
        }
        return false;
    }
    let mut i: usize = 0;
    while i < a.len()
        invariant
            i <= a@.len(),
            a@.len() == b@.len(),
            forall|k: int| 0 <= k < i ==> a@[k]@ == b@[k]@,
        decreases a@.len() - i,
    {
        if a[i] != b[i] {
            proof {
                assert(views_of(a@)[i as int] != views_of(b@)[i as int]);
            }
            return false;
        }
        i = i + 1;
    }
    proof {
        assert(views_of(a@) =~= views_of(b@));
    }
    true
}

fn has_blank_entry_exec(v: &Vec<String>) -> (r: bool)
    ensures
        r == has_blank_entry(v@),
{
    let mut i: usize = 0;
    while i < v.len()
        invariant
            i <= v@.len(),
            forall|k: int| 0 <= k < i ==> trim_seq(#[trigger] v@[k]@).len() != 0,
        decreases v@.len() - i,
    {
        let cs = chars_of(v[i].as_str());
        let t = trim_chars(&cs);
        if t.len() == 0 {
            return true;
        }
        i = i + 1;
    }
    false
}

fn invalid(message: String) -> (r: Result<(), XtaskError>)
    ensures
        r matches Err(e) && e@ == XtaskErrorView::InvalidInput(message@),
{
    Err(XtaskError::InvalidInput(message))
}

fn found_message(prefix: &str, value: &str) -> (r: String)
    ensures
        r@ == prefix@ + value@ + "`"@,
{
    let mut m = owned(prefix);
    m.append(value);
    m.append("`");
    m
}

impl FamilyManifest {
    /// Checks the manifest against the format and against the packet it sits in.
    pub fn validate(&self, expected_family: &FamilyId) -> (r: Result<(), XtaskError>)
        ensures
            match manifest_issue(*self, expected_family@) {
                Some(m) => r matches Err(e) && e@ == XtaskErrorView::InvalidInput(m),
                None => r is Ok,
            },
    {
        if self.schema_version != 1 {
            let mut m = owned("family.toml schema_version must be 1, found ");
            let d = decimal_u64_string(self.schema_version);
            m.append(d.as_str());
            return invalid(m);
        }
        if !str_eq(self.family.as_str(), expected_family.as_str()) {
            let mut m = owned("family.toml family `");
            m.append(self.family.as_str());
            m.append("` must match packet directory `");
            m.append(expected_family.as_str());
            m.append("`");
            return invalid(m);
        }
        if !str_eq(self.kind.as_str(), "function") {
            return invalid(found_message("family.toml kind must be `function`, found `", self.kind.as_str()));
        }
        if self.compatibility_key != self.family {
            return invalid(owned("family.toml compatibility_key must equal family"));
        }
        let summary = chars_of(self.summary.as_str());
        if summary.len() == 0 || has_char_exec(&summary, '\n') || has_char_exec(&summary, '\r') {
            return invalid(owned("family.toml summary must be a single non-empty line"));
        }
        if self.routing.precedence == 0 {
            return invalid(owned("family.toml routing.precedence must be a positive integer"));
        }
        if self.routing.must_not_shadow.len() == 0 {
            return invalid(owned("family.toml routing.must_not_shadow must be non-empty"));
        }
        if has_blank_entry_exec(&self.routing.must_not_shadow) {
            return invalid(owned("family.toml routing.must_not_shadow entries must be non-empty"));
        }
        if self.shape.dep_count == 0 {
            return invalid(owned("family.toml shape.dep_count must be a positive integer"));
        }
        if !str_eq(self.shape.control_flow.as_str(), "straight_line_only") {
            return invalid(found_message(
                "family.toml shape.control_flow must be `straight_line_only`, found `",
                self.shape.control_flow.as_str(),
            ));
        }
        if !str_eq(self.shape.return_style.as_str(), "direct_return") && !str_eq(
            self.shape.return_style.as_str(),
            "let_then_return_or_direct_return",
        ) {
            return invalid(found_message(
                "family.toml shape.return_style must be `direct_return` or `let_then_return_or_direct_return`, found `",
                self.shape.return_style.as_str(),
            ));
        }
        if self.shape.loops {
            return invalid(owned("family.toml shape.loops must be false in M21"));
        }
        if self.shape.branching {
            return invalid(owned("family.toml shape.branching must be false in M21"));
        }
        if !self.shape.requires_supported_function_deps {
            return invalid(owned("family.toml shape.requires_supported_function_deps must be true in M21"));
        }
        if !str_eq(self.args.threading.as_str(), "ordered_passthrough") {
            return invalid(found_message(
                "family.toml args.threading must be `ordered_passthrough`, found `",
                self.args.threading.as_str(),
            ));
        }
        if self.args.allow_nested_argument_expressions {
            return invalid(owned("family.toml args.allow_nested_argument_expressions must be false in M21"));
        }
        if self.args.allow_literal_only_extra_args {
            return invalid(owned("family.toml args.allow_literal_only_extra_args must be false in M21"));
        }
        let buckets = required_bucket_names();
        if !strings_equal(&self.corpus.required_buckets, &buckets) {
            return invalid(owned(
                "family.toml corpus.required_buckets must be exactly [\"aligned\", \"drift\", \"under_specified\", \"unsupported_near_miss\"]",
            ));
        }
        if self.corpus.min_cases_per_bucket < 1 {
            return invalid(owned("family.toml corpus.min_cases_per_bucket must be at least 1"));
        }
        let refresh = vec![owned("spec test")];
        proof {
            assert(views_of(refresh@) =~= requires_refresh_via());
        }
        if !strings_equal(&self.truth_surface.requires_refresh_via, &refresh) {
            return invalid(owned("family.toml truth_surface.requires_refresh_via must be exactly [\"spec test\"]"));
        }
        let preserve = vec![owned("spec build"), owned("spec generate"), owned("spec status"), owned("spec export")];
        proof {
            assert(views_of(preserve@) =~= preserve_only_via());
        }
        if !strings_equal(&self.truth_surface.preserve_only_via, &preserve) {
            return invalid(owned(
                "family.toml truth_surface.preserve_only_via must be exactly [\"spec build\", \"spec generate\", \"spec status\", \"spec export\"]",
            ));
        }
        if !self.truth_surface.requires_stale_demote {
            return invalid(owned("family.toml truth_surface.requires_stale_demote must be true"));
        }
        if !(self.gates.gate_a && self.gates.gate_b && self.gates.gate_c && self.gates.gate_d) {
            return invalid(owned("family.toml gates.gate_a through gate_d must all be true in M21"));
        }
        Ok(())
    }
}

} // verus!
