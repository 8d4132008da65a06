//! The text a new family packet is scaffolded with: its candidate notes, its manifest,
//! each bucket's crate files, and its starter fixtures.
use vstd::prelude::*;
use crate::family::harness::{cases_in_bucket, case_views, FamilyHarness, StarterCaseDefinition, StarterTemplate};
use crate::family::paths::{before_last_dot, dashed, views_of, FamilyId};
use crate::seam::{decimal, decimal_u64_string};
use crate::text::{chars_of, owned, push_char, string_of};

verus! {

/// The pieces joined by line breaks.
pub open spec fn join_lines(parts: Seq<Seq<char>>) -> Seq<char>
    decreases parts.len(),
{
    if parts.len() == 0 {
        Seq::empty()
    } else if parts.len() == 1 {
        parts[0]
    } else {
        join_lines(parts.drop_last()) + "\n"@ + parts.last()
    }
}

fn join_lines_string(parts: &Vec<String>) -> (r: String)
    ensures
        r@ == join_lines(views_of(parts@)),
{
    let mut out = String::new();
    let mut i: usize = 0;
    while i < parts.len()
        invariant
            i <= parts@.len(),
            out@ == join_lines(views_of(parts@.take(i as int))),
        decreases parts@.len() - i,
    {
        proof {
            assert(views_of(parts@.take(i + 1)).drop_last() =~= views_of(parts@.take(i as int)));
            assert(views_of(parts@.take(i + 1)).last() == parts@[i as int]@);
        }
        if i > 0 {
            out.append("\n");
        } else {
            proof {
                assert(views_of(parts@.take(0)) =~= Seq::<Seq<char>>::empty());
            }
        }
        out.append(parts[i].as_str());
        i = i + 1;
    }
    proof {
        assert(parts@.take(parts@.len() as int) =~= parts@);
    }
    out
}

/// Each path as a markdown list item, one per line.
pub open spec fn markdown_path_list(paths: Seq<Seq<char>>) -> Seq<char> {
    join_lines(paths.map_values(|p: Seq<char>| "- `"@ + p + "`"@))
}

pub fn render_markdown_path_list(paths: &Vec<String>) -> (r: String)
    ensures
        r@ == markdown_path_list(views_of(paths@)),
{
    let mut items: Vec<String> = Vec::new();
    let mut i: usize = 0;
    while i < paths.len()
        invariant
            i <= paths@.len(),
            views_of(items@) == views_of(paths@).take(i as int).map_values(|p: Seq<char>| "- `"@ + p + "`"@),
        decreases paths@.len() - i,
    {
        let mut item = owned("- `");
        item.append(paths[i].as_str());
        item.append("`");
        let ghost before = items@;
        items.push(item);
        proof {
            assert(views_of(items@) =~= views_of(before).push(item@));
            assert(views_of(paths@).take(i + 1).map_values(|p: Seq<char>| "- `"@ + p + "`"@) =~= views_of(paths@).take(
                i as int,
            ).map_values(|p: Seq<char>| "- `"@ + p + "`"@).push("- `"@ + paths@[i as int]@ + "`"@));
        }
        i = i + 1;
    }
    proof {
        assert(views_of(paths@).take(paths@.len() as int) =~= views_of(paths@));
    }
    join_lines_string(&items)
}

/// Each value as a quoted TOML array item, one per line.
pub open spec fn toml_string_array(values: Seq<Seq<char>>) -> Seq<char> {
    join_lines(values.map_values(|v: Seq<char>| "  \""@ + v + "\","@))
}

pub fn render_toml_string_array(values: &Vec<String>) -> (r: String)
    ensures
        r@ == toml_string_array(views_of(values@)),
{
    let mut items: Vec<String> = Vec::new();
    let mut i: usize = 0;
    while i < values.len()
        invariant
            i <= values@.len(),
            views_of(items@) == views_of(values@).take(i as int).map_values(|v: Seq<char>| "  \""@ + v + "\","@),
        decreases values@.len() - i,
    {
        let mut item = owned("  \"");
        item.append(values[i].as_str());
        item.append("\",");
        let ghost before = items@;
        items.push(item);
        proof {
            assert(views_of(items@) =~= views_of(before).push(item@));
            assert(views_of(values@).take(i + 1).map_values(|v: Seq<char>| "  \""@ + v + "\","@) =~= views_of(
                values@,
            ).take(i as int).map_values(|v: Seq<char>| "  \""@ + v + "\","@).push("  \""@ + values@[i as int]@ + "\","@));
        }
        i = i + 1;
    }
    proof {
        assert(views_of(values@).take(values@.len() as int) =~= views_of(values@));
    }
    join_lines_string(&items)
}

/// The paths of the harness's starter cases in `bucket`.
pub open spec fn starter_paths(h: FamilyHarness, bucket: Seq<char>) -> Seq<Seq<char>> {
    cases_in_bucket(case_views(h.scaffold.starter_cases@), bucket).map_values(|c: (Seq<char>, Seq<char>)| c.1)
}

pub fn starter_paths_for_bucket(harness: &FamilyHarness, bucket: &str) -> (r: Vec<String>)
    ensures
        views_of(r@) == starter_paths(*harness, bucket@),
{
    let cases = harness.starter_cases_for_bucket(bucket);
    let mut out: Vec<String> = Vec::new();
    let mut i: usize = 0;
    while i < cases.len()
        invariant
            i <= cases@.len(),
            views_of(out@) == case_views(cases@).take(i as int).map_values(|c: (Seq<char>, Seq<char>)| c.1),
        decreases cases@.len() - i,
    {
        let ghost before = out@;
        out.push(owned(cases[i].path.as_str()));
        proof {
            assert(views_of(out@) =~= views_of(before).push(cases@[i as int].path@));
            assert(case_views(cases@)[i as int] == (cases@[i as int].bucket@, cases@[i as int].path@));
            assert(case_views(cases@).take(i + 1).map_values(|c: (Seq<char>, Seq<char>)| c.1) =~= case_views(cases@).take(
                i as int,
            ).map_values(|c: (Seq<char>, Seq<char>)| c.1).push(cases@[i as int].path@));
        }
        i = i + 1;
    }
    proof {
        assert(case_views(cases@).take(cases@.len() as int) =~= case_views(cases@));
    }
    out
}

/// The candidate notes of a new packet: its family, its summary, and its starter cases by
/// bucket.
pub open spec fn candidate_text(family: Seq<char>, h: FamilyHarness) -> Seq<char> {
    "# "@ + family + "\n\nSummary: "@ + h.summary@ + "\n\n## Aligned\n\n"@ + markdown_path_list(
        starter_paths(h, "aligned"@),
    ) + "\n\n## Drift\n\n"@ + markdown_path_list(starter_paths(h, "drift"@)) + "\n\n## Under Specified\n\n"@
        + markdown_path_list(starter_paths(h, "under_specified"@)) + "\n\n## Unsupported Near Miss\n\n"@
        + markdown_path_list(starter_paths(h, "unsupported_near_miss"@)) + "\n"@
}

pub fn candidate_template(family: &FamilyId, harness: &FamilyHarness) -> (r: String)
    ensures
        r@ == candidate_text(family@, *harness),
{
    let mut out = owned("# ");
    out.append(family.as_str());
    out.append("\n\nSummary: ");
    out.append(harness.summary.as_str());
    out.append("\n\n## Aligned\n\n");
    let a = render_markdown_path_list(&starter_paths_for_bucket(harness, "aligned"));
    out.append(a.as_str());
    out.append("\n\n## Drift\n\n");
    let d = render_markdown_path_list(&starter_paths_for_bucket(harness, "drift"));
    out.append(d.as_str());
    out.append("\n\n## Under Specified\n\n");
    let u = render_markdown_path_list(&starter_paths_for_bucket(harness, "under_specified"));
    out.append(u.as_str());
    out.append("\n\n## Unsupported Near Miss\n\n");
    let n = render_markdown_path_list(&starter_paths_for_bucket(harness, "unsupported_near_miss"));
    out.append(n.as_str());
    out.append("\n");
    out
}

pub open spec fn bool_text(b: bool) -> Seq<char> {
    if b {
        "true"@
    } else {
        "false"@
    }
}

fn bool_str(b: bool) -> (r: &'static str)
    ensures
        r@ == bool_text(b),
{
    if b {
        "true"
    } else {
        "false"
    }
}

/// The manifest of a new packet, with the family's locked routing, shape and arguments.
pub open spec fn manifest_text(family: Seq<char>, h: FamilyHarness) -> Seq<char> {
    "schema_version = 2\nfamily = \""@ + family + "\"\nkind = \"function\"\ncompatibility_key = \""@ + family
        + "\"\nsummary = \""@ + h.summary@ + "\"\n\n[routing]\nprecedence = "@ + decimal(h.routing.precedence as nat)
        + "\nmust_not_shadow = [\n"@ + toml_string_array(views_of(h.routing.must_not_shadow@))
        + "\n]\n\n[shape]\ndep_min = "@ + decimal(h.shape.dep_min as nat) + "\ndep_max = "@ + decimal(
        h.shape.dep_max as nat,
    ) + "\ncontrol_flow = \""@ + h.shape.control_flow@ + "\"\nreturn_style = \""@ + h.shape.return_style@
        + "\"\nloops = "@ + bool_text(h.shape.loops) + "\nbranching = "@ + bool_text(h.shape.branching)
        + "\nrequires_supported_function_deps = "@ + bool_text(h.shape.requires_supported_function_deps)
        + "\n\n[args]\nthreading = \""@ + h.args.threading@ + "\"\nallow_nested_argument_expressions = "@
        + bool_text(h.args.allow_nested_argument_expressions) + "\nallow_literal_only_extra_args = "@ + bool_text(
        h.args.allow_literal_only_extra_args,
    ) + manifest_tail()
}

/// The manifest's fixed sections: corpus, truth surface and gates.
pub open spec fn manifest_tail() -> Seq<char> {
    "\n\n[corpus]\nrequired_buckets = [\"aligned\", \"drift\", \"under_specified\", \"unsupported_near_miss\"]\nmin_cases_per_bucket = 1\n\n[truth_surface]\nrequires_refresh_via = [\"spec test\"]\npreserve_only_via = [\"spec build\", \"spec generate\", \"spec status\", \"spec export\"]\nrequires_stale_demote = true\n\n[gates]\ngate_a = true\ngate_b = true\ngate_c = true\ngate_d = true\n"@
}

pub fn manifest_template(family: &FamilyId, harness: &FamilyHarness) -> (r: String)
    ensures
        r@ == manifest_text(family@, *harness),
{
    let must_not_shadow = render_toml_string_array(&harness.routing.must_not_shadow);
    let mut out = owned("schema_version = 2\nfamily = \"");
    out.append(family.as_str());
    out.append("\"\nkind = \"function\"\ncompatibility_key = \"");
    out.append(family.as_str());
    out.append("\"\nsummary = \"");
    out.append(harness.summary.as_str());
    out.append("\"\n\n[routing]\nprecedence = ");
    let p = decimal_u64_string(harness.routing.precedence);
    out.append(p.as_str());
    out.append("\nmust_not_shadow = [\n");
    out.append(must_not_shadow.as_str());
    out.append("\n]\n\n[shape]\ndep_min = ");
    let lo = decimal_u64_string(harness.shape.dep_min);
    out.append(lo.as_str());
    out.append("\ndep_max = ");
    let hi = decimal_u64_string(harness.shape.dep_max);
    out.append(hi.as_str());
    out.append("\ncontrol_flow = \"");
    out.append(harness.shape.control_flow.as_str());
    out.append("\"\nreturn_style = \"");
    out.append(harness.shape.return_style.as_str());
    out.append("\"\nloops = ");
    out.append(bool_str(harness.shape.loops));
    out.append("\nbranching = ");
    out.append(bool_str(harness.shape.branching));
    out.append("\nrequires_supported_function_deps = ");
    out.append(bool_str(harness.shape.requires_supported_function_deps));
    out.append("\n\n[args]\nthreading = \"");
    out.append(harness.args.threading.as_str());
    out.append("\"\nallow_nested_argument_expressions = ");
    out.append(bool_str(harness.args.allow_nested_argument_expressions));
    out.append("\nallow_literal_only_extra_args = ");
    out.append(bool_str(harness.args.allow_literal_only_extra_args));
    out.append(
        "\n\n[corpus]\nrequired_buckets = [\"aligned\", \"drift\", \"under_specified\", \"unsupported_near_miss\"]\nmin_cases_per_bucket = 1\n\n[truth_surface]\nrequires_refresh_via = [\"spec test\"]\npreserve_only_via = [\"spec build\", \"spec generate\", \"spec status\", \"spec export\"]\nrequires_stale_demote = true\n\n[gates]\ngate_a = true\ngate_b = true\ngate_c = true\ngate_d = true\n",
    );
    out
}

/// `s` with each `_` turned into `-`.
pub open spec fn underscores_dashed(s: Seq<char>) -> Seq<char> {
    s.map_values(|c: char| if c == '_' { '-' } else { c })
}

fn underscores_dashed_string(s: &str) -> (r: String)
    ensures
        r@ == underscores_dashed(s@),
{
    let cs = chars_of(s);
    let mut out = String::new();
    let mut i: usize = 0;
    while i < cs.len()
        invariant
            i <= cs@.len(),
            cs@ == s@,
            out@ == underscores_dashed(cs@.take(i as int)),
        decreases cs@.len() - i,
    {
        let c = if cs[i] == '_' {
            '-'
        } else {
            cs[i]
        };
        push_char(&mut out, c);
        proof {
            assert(underscores_dashed(cs@.take(i + 1)) =~= underscores_dashed(cs@.take(i as int)).push(c));
        }
        i = i + 1;
    }
    proof {
        assert(cs@.take(cs@.len() as int) =~= cs@);
    }
    out
}

/// The manifest of a bucket's crate: named after the family's crate stem and the bucket.
pub open spec fn bucket_cargo_text(family: Seq<char>, bucket: Seq<char>) -> Seq<char> {
    "[package]\nname = \""@ + dashed(before_last_dot(family)) + "-"@ + underscores_dashed(bucket)
        + "\"\nversion = \"0.1.0\"\nedition = \"2024\"\n\n[workspace]\n"@
}

pub fn bucket_cargo_toml(family: &FamilyId, bucket: &str) -> (r: String)
    ensures
        r@ == bucket_cargo_text(family@, bucket@),
{
    let mut out = owned("[package]\nname = \"");
    let stem = family.crate_stem();
    out.append(stem.as_str());
    out.append("-");
    let b = underscores_dashed_string(bucket);
    out.append(b.as_str());
    out.append("\"\nversion = \"0.1.0\"\nedition = \"2024\"\n\n[workspace]\n");
    out
}

/// The entry point of a bucket's crate.
pub fn bucket_main_rs() -> (r: &'static str)
    ensures
        r@ == "mod generated;\npub use generated::*;\n\nfn main() {}\n"@,
{
    "mod generated;\npub use generated::*;\n\nfn main() {}\n"
}

/// The starter fixture text of the generic placeholder template.
pub open spec fn generic_starter_text(unit_id: Seq<char>, callable: Seq<char>) -> Seq<char> {
    "id: "@ + unit_id + "\nkind: function\nspec_version: \"0.3.0\"\nintent:\n  why: \"TODO: replace this scaffolded placeholder with real authored behavior.\"\ncontract:\n  inputs:\n    amount: Decimal\n  returns: Decimal\nimports:\n  - rust_decimal::Decimal\nbody:\n  rust: |\n    {\n        if amount > Decimal::ZERO {\n            amount\n        } else {\n            Decimal::ZERO\n        }\n    }\nlocal_tests:\n  - id: "@ + callable + "_placeholder\n    expect: "@ + callable + "(Decimal::new(10000, 2)) == Decimal::new(10000, 2)\n"@
}

pub fn generic_placeholder_starter(unit_id: &str, callable_name: &str) -> (r: String)
    ensures
        r@ == generic_starter_text(unit_id@, callable_name@),
{
    let mut out = owned("id: ");
    out.append(unit_id);
    out.append("\nkind: function\nspec_version: \"0.3.0\"\nintent:\n  why: \"TODO: replace this scaffolded placeholder with real authored behavior.\"\ncontract:\n  inputs:\n    amount: Decimal\n  returns: Decimal\nimports:\n  - rust_decimal::Decimal\nbody:\n  rust: |\n    {\n        if amount > Decimal::ZERO {\n            amount\n        } else {\n            Decimal::ZERO\n        }\n    }\nlocal_tests:\n  - id: ");
    out.append(callable_name);
    out.append("_placeholder\n    expect: ");
    out.append(callable_name);
    out.append("(Decimal::new(10000, 2)) == Decimal::new(10000, 2)\n");
    out
}

pub open spec fn arithmetic_aligned_text(unit_id: Seq<char>, callable: Seq<char>) -> Seq<char> {
    "id: "@ + unit_id + "\nkind: function\nspec_version: \"0.3.0\"\nintent:\n  why: Apply a discount to a subtotal while keeping the result nonnegative.\ncontract:\n  inputs:\n    subtotal: Decimal\n    rate: Decimal\n  returns: Decimal\n  invariants:\n    - output <= subtotal\n    - output >= 0\ndeps:\n  - money/round\nimports:\n  - rust_decimal::Decimal\nbody:\n  rust: |\n    {\n        let discounted = subtotal - subtotal * rate;\n        round(discounted.max(Decimal::ZERO))\n    }\nlocal_tests:\n  - id: "@ + callable + "_happy_path\n    expect: "@ + callable + "(Decimal::new(10000, 2), Decimal::new(10, 2)) == Decimal::new(9000, 2)\n"@
}

fn arithmetic_aligned(unit_id: &str, callable_name: &str) -> (r: String)
    ensures
        r@ == arithmetic_aligned_text(unit_id@, callable_name@),
{
    let mut out = owned("id: ");
    out.append(unit_id);
    out.append("\nkind: function\nspec_version: \"0.3.0\"\nintent:\n  why: Apply a discount to a subtotal while keeping the result nonnegative.\ncontract:\n  inputs:\n    subtotal: Decimal\n    rate: Decimal\n  returns: Decimal\n  invariants:\n    - output <= subtotal\n    - output >= 0\ndeps:\n  - money/round\nimports:\n  - rust_decimal::Decimal\nbody:\n  rust: |\n    {\n        let discounted = subtotal - subtotal * rate;\n        round(discounted.max(Decimal::ZERO))\n    }\nlocal_tests:\n  - id: ");
    out.append(callable_name);
    out.append("_happy_path\n    expect: ");
    out.append(callable_name);
    out.append("(Decimal::new(10000, 2), Decimal::new(10, 2)) == Decimal::new(9000, 2)\n");
    out
}

pub open spec fn arithmetic_drift_text(unit_id: Seq<char>, callable: Seq<char>) -> Seq<char> {
    "id: "@ + unit_id + "\nkind: function\nspec_version: \"0.3.0\"\nintent:\n  why: Apply a discount to a subtotal while keeping the result nonnegative.\ncontract:\n  inputs:\n    subtotal: Decimal\n    rate: Decimal\n  returns: Decimal\n  invariants:\n    - output <= subtotal\n    - output >= 0\ndeps:\n  - money/round\nimports:\n  - rust_decimal::Decimal\nbody:\n  rust: |\n    {\n        let discounted = subtotal + subtotal * rate;\n        round(discounted.max(Decimal::ZERO))\n    }\nlocal_tests:\n  - id: "@ + callable + "_drift\n    expect: "@ + callable + "(Decimal::new(10000, 2), Decimal::new(10, 2)) == Decimal::new(11000, 2)\n"@
}

fn arithmetic_drift(unit_id: &str, callable_name: &str) -> (r: String)
    ensures
        r@ == arithmetic_drift_text(unit_id@, callable_name@),
{
    let mut out = owned("id: ");
    out.append(unit_id);
    out.append("\nkind: function\nspec_version: \"0.3.0\"\nintent:\n  why: Apply a discount to a subtotal while keeping the result nonnegative.\ncontract:\n  inputs:\n    subtotal: Decimal\n    rate: Decimal\n  returns: Decimal\n  invariants:\n    - output <= subtotal\n    - output >= 0\ndeps:\n  - money/round\nimports:\n  - rust_decimal::Decimal\nbody:\n  rust: |\n    {\n        let discounted = subtotal + subtotal * rate;\n        round(discounted.max(Decimal::ZERO))\n    }\nlocal_tests:\n  - id: ");
    out.append(callable_name);
    out.append("_drift\n    expect: ");
    out.append(callable_name);
    out.append("(Decimal::new(10000, 2), Decimal::new(10, 2)) == Decimal::new(11000, 2)\n");
    out
}

pub open spec fn arithmetic_under_specified_text(unit_id: Seq<char>, callable: Seq<char>) -> Seq<char> {
    "id: "@ + unit_id + "\nkind: function\nspec_version: \"0.3.0\"\nintent:\n  why: Adjust a subtotal.\ncontract:\n  inputs:\n    subtotal: Decimal\n    rate: Decimal\n  returns: Decimal\ndeps:\n  - money/round\nimports:\n  - rust_decimal::Decimal\nbody:\n  rust: |\n    {\n        let discounted = subtotal - subtotal * rate;\n        round(discounted.max(Decimal::ZERO))\n    }\nlocal_tests:\n  - id: "@ + callable + "_under_specified\n    expect: "@ + callable + "(Decimal::new(10000, 2), Decimal::new(10, 2)) == Decimal::new(9000, 2)\n"@
}

fn arithmetic_under_specified(unit_id: &str, callable_name: &str) -> (r: String)
    ensures
        r@ == arithmetic_under_specified_text(unit_id@, callable_name@),
{
    let mut out = owned("id: ");
    out.append(unit_id);
    out.append("\nkind: function\nspec_version: \"0.3.0\"\nintent:\n  why: Adjust a subtotal.\ncontract:\n  inputs:\n    subtotal: Decimal\n    rate: Decimal\n  returns: Decimal\ndeps:\n  - money/round\nimports:\n  - rust_decimal::Decimal\nbody:\n  rust: |\n    {\n        let discounted = subtotal - subtotal * rate;\n        round(discounted.max(Decimal::ZERO))\n    }\nlocal_tests:\n  - id: ");
    out.append(callable_name);
    out.append("_under_specified\n    expect: ");
    out.append(callable_name);
    out.append("(Decimal::new(10000, 2), Decimal::new(10, 2)) == Decimal::new(9000, 2)\n");
    out
}

pub open spec fn arithmetic_unsupported_near_miss_text(unit_id: Seq<char>, callable: Seq<char>) -> Seq<char> {
    "id: "@ + unit_id + "\nkind: function\nspec_version: \"0.3.0\"\nintent:\n  why: Apply a discount to a subtotal while keeping the result nonnegative.\ncontract:\n  inputs:\n    subtotal: Decimal\n    rate: Decimal\n  returns: Decimal\n  invariants:\n    - output <= subtotal\n    - output >= 0\ndeps:\n  - money/round\nimports:\n  - rust_decimal::Decimal\nbody:\n  rust: |\n    {\n        let discounted = subtotal - subtotal * rate;\n        if discounted < Decimal::ZERO {\n            Decimal::ZERO\n        } else {\n            round(discounted)\n        }\n    }\nlocal_tests:\n  - id: "@ + callable + "_unsupported_near_miss\n    expect: "@ + callable + "(Decimal::new(10000, 2), Decimal::new(10, 2)) == Decimal::new(9000, 2)\n"@
}

fn arithmetic_unsupported_near_miss(unit_id: &str, callable_name: &str) -> (r: String)
    ensures
        r@ == arithmetic_unsupported_near_miss_text(unit_id@, callable_name@),
{
    let mut out = owned("id: ");
    out.append(unit_id);
    out.append("\nkind: function\nspec_version: \"0.3.0\"\nintent:\n  why: Apply a discount to a subtotal while keeping the result nonnegative.\ncontract:\n  inputs:\n    subtotal: Decimal\n    rate: Decimal\n  returns: Decimal\n  invariants:\n    - output <= subtotal\n    - output >= 0\ndeps:\n  - money/round\nimports:\n  - rust_decimal::Decimal\nbody:\n  rust: |\n    {\n        let discounted = subtotal - subtotal * rate;\n        if discounted < Decimal::ZERO {\n            Decimal::ZERO\n        } else {\n            round(discounted)\n        }\n    }\nlocal_tests:\n  - id: ");
    out.append(callable_name);
    out.append("_unsupported_near_miss\n    expect: ");
    out.append(callable_name);
    out.append("(Decimal::new(10000, 2), Decimal::new(10, 2)) == Decimal::new(9000, 2)\n");
    out
}

/// What follows the last `/` of a path (all of it when it has none).
pub open spec fn last_segment(p: Seq<char>) -> Seq<char> {
    crate::text::split_seq(p, '/').last()
}

/// `s` with every trailing copy of `suffix` removed.
pub open spec fn strip_suffixes(s: Seq<char>, suffix: Seq<char>) -> Seq<char>
    decreases s.len(),
{
    if suffix.len() > 0 && crate::text::ends_with(s, suffix) {
        strip_suffixes(s.take(s.len() - suffix.len()), suffix)
    } else {
        s
    }
}

/// What follows the first `/` of `s` (all of it when it has none).
pub open spec fn after_first_slash(s: Seq<char>) -> Seq<char> {
    match crate::text::first_match(s, |c: char| c == '/', 0) {
        Some(i) => s.skip(i + 1),
        None => s,
    }
}

/// The unit id of a starter case: the namespace and the case's file name without its
/// `.unit.spec` suffixes.
pub open spec fn starter_unit_id(namespace: Seq<char>, path: Seq<char>) -> Seq<char> {
    namespace + "/"@ + strip_suffixes(last_segment(path), ".unit.spec"@)
}

/// The fixture text a starter case is scaffolded with.
pub open spec fn starter_text(h: FamilyHarness, bucket: Seq<char>, path: Seq<char>) -> Seq<char> {
    let unit_id = starter_unit_id(h.scaffold.unit_namespace@, path);
    let callable = after_first_slash(unit_id);
    match h.scaffold.template {
        StarterTemplate::GenericPlaceholder => generic_starter_text(unit_id, callable),
        StarterTemplate::ArithmeticLeafMonotoneDownNonnegative => if bucket == "aligned"@ {
            arithmetic_aligned_text(unit_id, callable)
        } else if bucket == "drift"@ {
            arithmetic_drift_text(unit_id, callable)
        } else if bucket == "under_specified"@ {
            arithmetic_under_specified_text(unit_id, callable)
        } else {
            arithmetic_unsupported_near_miss_text(unit_id, callable)
        },
    }
}

/// The arithmetic-leaf template knows the four required buckets only.
pub open spec fn starter_bucket_known(h: FamilyHarness, bucket: Seq<char>) -> bool {
    h.scaffold.template == StarterTemplate::ArithmeticLeafMonotoneDownNonnegative ==> (bucket == "aligned"@ || bucket
        == "drift"@ || bucket == "under_specified"@ || bucket == "unsupported_near_miss"@)
}

fn last_segment_chars(p: &Vec<char>) -> (r: Vec<char>)
    ensures
        r@ == last_segment(p@),
{
    let parts = crate::text::split_chars(p, '/');
    proof {
        crate::text::lemma_split_nonempty(p@, '/');
        assert(crate::text::views(parts@)[parts@.len() - 1] == parts@[parts@.len() - 1]@);
    }
    let last = parts.len() - 1;
    let mut out: Vec<char> = Vec::new();
    let mut i: usize = 0;
    while i < parts[last].len()
        invariant
            last < parts@.len(),
            i <= parts@[last as int]@.len(),
            out@ == parts@[last as int]@.take(i as int),
        decreases parts@[last as int]@.len() - i,
    {
        out.push(parts[last][i]);
        proof {
            assert(out@ =~= parts@[last as int]@.take(i + 1));
        }
        i = i + 1;
    }
    proof {
        assert(parts@[last as int]@.take(parts@[last as int]@.len() as int) =~= parts@[last as int]@);
    }
    out
}

fn strip_suffixes_chars(s: &Vec<char>, suffix: &str) -> (r: Vec<char>)
    ensures
        r@ == strip_suffixes(s@, suffix@),
{
    let suf = chars_of(suffix);
    let mut n: usize = s.len();
    proof {
        assert(s@.take(n as int) =~= s@);
    }
    loop
        invariant
            n <= s@.len(),
            suf@ == suffix@,
            strip_suffixes(s@, suffix@) == strip_suffixes(s@.take(n as int), suffix@),
        decreases n,
    {
        let cur = crate::family::inventory::take_chars(s, n);
        if suf.len() > 0 && crate::text::ends_with_exec(&cur, suffix) {
            proof {
                assert(s@.take(n as int).take(n - suf@.len()) =~= s@.take(n - suf@.len()));
            }
            n = n - suf.len();
        } else {
            return cur;
        }
    }
}

fn after_first_slash_chars(s: &Vec<char>) -> (r: Vec<char>)
    ensures
        r@ == after_first_slash(s@),
{
    let ghost p = |c: char| c == '/';
    let mut i: usize = 0;
    while i < s.len()
        invariant
            i <= s@.len(),
            p == (|c: char| c == '/'),
            crate::text::first_match(s@, p, 0) == crate::text::first_match(s@, p, i as int),
        decreases s@.len() - i,
    {
        if s[i] == '/' {
            return crate::family::inventory::skip_chars(s, i + 1);
        }
        i = i + 1;
    }
    let mut out: Vec<char> = Vec::new();
    let mut k: usize = 0;
    while k < s.len()
        invariant
            k <= s@.len(),
            out@ == s@.take(k as int),
        decreases s@.len() - k,
    {
        out.push(s[k]);
        proof {
            assert(out@ =~= s@.take(k + 1));
        }
        k = k + 1;
    }
    proof {
        assert(s@.take(s@.len() as int) =~= s@);
    }
    out
}

/// The fixture text of one starter case of the harness.
pub fn starter_unit_spec(harness: &FamilyHarness, case: &StarterCaseDefinition) -> (r: String)
    requires
        starter_bucket_known(*harness, case.bucket@),
    ensures
        r@ == starter_text(*harness, case.bucket@, case.path@),
{
    let path = chars_of(case.path.as_str());
    let file_name = last_segment_chars(&path);
    let stem = strip_suffixes_chars(&file_name, ".unit.spec");
    let mut unit_id = owned(harness.scaffold.unit_namespace.as_str());
    unit_id.append("/");
    let stem_string = string_of(&stem);
    unit_id.append(stem_string.as_str());
    let uid = chars_of(unit_id.as_str());
    let callable = string_of(&after_first_slash_chars(&uid));
    match harness.scaffold.template {
        StarterTemplate::GenericPlaceholder => generic_placeholder_starter(unit_id.as_str(), callable.as_str()),
        StarterTemplate::ArithmeticLeafMonotoneDownNonnegative => {
            let b = case.bucket.as_str();
            if crate::text::str_eq(b, "aligned") {
                arithmetic_aligned(unit_id.as_str(), callable.as_str())
            } else if crate::text::str_eq(b, "drift") {
                arithmetic_drift(unit_id.as_str(), callable.as_str())
            } else if crate::text::str_eq(b, "under_specified") {
                arithmetic_under_specified(unit_id.as_str(), callable.as_str())
            } else {
                arithmetic_unsupported_near_miss(unit_id.as_str(), callable.as_str())
            }
        },
    }
}

} // verus!
