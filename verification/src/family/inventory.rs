//! The family inventory: which families are promoted, which routes the runtime supports,
//! and what is known of each supported family that is not promoted yet.
use vstd::prelude::*;
use crate::family::analysis_checks::{repo_relative_issue, validate_repo_relative_path};
use crate::family::attestation::{find_first, first_occurrence, lines_of, text_lines};
use crate::family::error::{XtaskError, XtaskErrorView};
use crate::family::order::{in_string_order, sort_strings};
use crate::family::paths::views_of;
use crate::family::report::copy_strings;
use crate::family::routing::TERMINAL_UNSUPPORTED_CATCH_ALL;
use crate::text::{chars_of, owned, starts_with, starts_with_exec, str_eq, string_of, trim_chars, trim_seq, views};
use crate::unit_ref::opt_view;

verus! {

pub const INVENTORY_SCHEMA_VERSION: u64 = 1;

/// The declaration that opens the runtime routing order in the semantic review source.
pub const ROUTING_ORDER_MARKER: &'static str = "const SUPPORTED_FUNCTION_ROUTING_ORDER";

/// The prefix of each route of the runtime routing order.
pub const ROUTE_PREFIX: &'static str = "SupportedFunctionRoute::";

/// The family a runtime route serves.
pub open spec fn route_family(route: Seq<char>) -> Option<Seq<char>> {
    if route == "WrapperPipelineChain3"@ {
        Some("function.wrapper.pipeline.chain3.v1"@)
    } else if route == "WrapperPipeline"@ {
        Some("function.wrapper.pipeline.v1"@)
    } else if route == "ArithmeticLeafMonotoneDownNonnegative"@ {
        Some("function.arithmetic_leaf.monotone_down_nonnegative.v1"@)
    } else if route == "ArithmeticLeafMonotoneUp"@ {
        Some("function.arithmetic_leaf.monotone_up.v1"@)
    } else {
        None
    }
}

fn route_family_exec(route: &str) -> (r: Option<String>)
    ensures
        opt_view(r) == route_family(route@),
{
    if str_eq(route, "WrapperPipelineChain3") {
        Some(owned("function.wrapper.pipeline.chain3.v1"))
    } else if str_eq(route, "WrapperPipeline") {
        Some(owned("function.wrapper.pipeline.v1"))
    } else if str_eq(route, "ArithmeticLeafMonotoneDownNonnegative") {
        Some(owned("function.arithmetic_leaf.monotone_down_nonnegative.v1"))
    } else if str_eq(route, "ArithmeticLeafMonotoneUp") {
        Some(owned("function.arithmetic_leaf.monotone_up.v1"))
    } else {
        None
    }
}

/// `s` without the commas it ends with.
pub open spec fn without_trailing_commas(s: Seq<char>) -> Seq<char>
    decreases s.len(),
{
    if s.len() > 0 && s.last() == ',' {
        without_trailing_commas(s.drop_last())
    } else {
        s
    }
}

/// The route a line of the routing order names, if it names one.
pub open spec fn route_of_line(line: Seq<char>) -> Option<Seq<char>> {
    let t = trim_seq(line);
    if starts_with(t, ROUTE_PREFIX@) {
        Some(without_trailing_commas(t.skip(ROUTE_PREFIX@.len() as int)))
    } else {
        None
    }
}

/// The families of the routes the lines name, in order; the first route that serves no
/// known family is the error.
pub open spec fn route_families(lines: Seq<Seq<char>>) -> Result<Seq<Seq<char>>, Seq<char>>
    decreases lines.len(),
{
    if lines.len() == 0 {
        Ok(Seq::empty())
    } else {
        match route_of_line(lines[0]) {
            None => route_families(lines.drop_first()),
            Some(route) => match route_family(route) {
                None => Err(route),
                Some(f) => match route_families(lines.drop_first()) {
                    Ok(fs) => Ok(seq![f] + fs),
                    Err(e) => Err(e),
                },
            },
        }
    }
}

/// The text between the routing order's `[` and the first `];` after its marker, when
/// both are found.
pub open spec fn routes_block(source: Seq<char>) -> Option<Seq<char>> {
    match first_occurrence(source, ROUTING_ORDER_MARKER@) {
        None => None,
        Some(start) => {
            let block = source.skip(start);
            match (first_occurrence(block, "["@), first_occurrence(block, "];"@)) {
                (Some(open), Some(close)) => Some(block.subrange(open + 1, close)),
                _ => None,
            }
        },
    }
}

/// The source cuts the routing order's text with its `];` before its `[`.
pub open spec fn routing_order_reversed(source: Seq<char>) -> bool {
    match first_occurrence(source, ROUTING_ORDER_MARKER@) {
        None => false,
        Some(start) => {
            let block = source.skip(start);
            match (first_occurrence(block, "["@), first_occurrence(block, "];"@)) {
                (Some(open), Some(close)) => close < open,
                _ => false,
            }
        },
    }
}

pub open spec fn mismatch(rest: Seq<char>) -> XtaskErrorView {
    XtaskErrorView::InvalidInput("inventory projection mismatch: "@ + rest)
}

/// The families of the runtime routing order that `source` (read from `path`) declares,
/// or why none can be read from it.
pub open spec fn runtime_routes(source: Seq<char>, path: Seq<char>) -> Result<Seq<Seq<char>>, XtaskErrorView> {
    match first_occurrence(source, ROUTING_ORDER_MARKER@) {
        None => Err(mismatch("`"@ + ROUTING_ORDER_MARKER@ + "` is missing from `"@ + path + "`"@)),
        Some(start) => {
            let block = source.skip(start);
            match first_occurrence(block, "["@) {
                None => Err(mismatch("failed to parse runtime routing order in `"@ + path + "`"@)),
                Some(open) => match first_occurrence(block, "];"@) {
                    None => Err(
                        mismatch("failed to locate the end of runtime routing order in `"@ + path + "`"@),
                    ),
                    Some(close) => match route_families(text_lines(block.subrange(open + 1, close))) {
                        Err(route) => Err(
                            mismatch("runtime route `"@ + route + "` is not mapped in xtask inventory"@),
                        ),
                        Ok(fs) => if fs.len() == 0 {
                            Err(mismatch("runtime routing order in `"@ + path + "` is empty"@))
                        } else {
                            Ok(fs)
                        },
                    },
                },
            }
        },
    }
}

fn mismatch_error(rest: String) -> (e: XtaskError)
    ensures
        e@ == mismatch(rest@),
{
    let mut m = owned("inventory projection mismatch: ");
    m.append(rest.as_str());
    XtaskError::InvalidInput(m)
}

fn without_trailing_commas_exec(s: &Vec<char>) -> (r: Vec<char>)
    ensures
        r@ == without_trailing_commas(s@),
{
    let mut n: usize = s.len();
    proof {
        assert(s@.take(n as int) =~= s@);
    }
    while n > 0 && s[n - 1] == ','
        invariant
            n <= s@.len(),
            without_trailing_commas(s@) == without_trailing_commas(s@.take(n as int)),
        decreases n,
    {
        proof {
            assert(s@.take(n as int).drop_last() =~= s@.take(n - 1));
        }
        n = n - 1;
    }
    let mut out: Vec<char> = Vec::new();
    let mut i: usize = 0;
    while i < n
        invariant
            i <= n <= s@.len(),
            out@ == s@.take(i as int),
        decreases n - i,
    {
        out.push(s[i]);
        proof {
            assert(out@ =~= s@.take(i + 1));
        }
        i = i + 1;
    }
    proof {
        assert(!(s@.take(n as int).len() > 0 && s@.take(n as int).last() == ','));
    }
    out
}

pub(crate) fn skip_chars(s: &Vec<char>, from: usize) -> (r: Vec<char>)
    requires
        from <= s@.len(),
    ensures
        r@ == s@.skip(from as int),
{
    let mut out: Vec<char> = Vec::new();
    let mut i: usize = from;
    while i < s.len()
        invariant
            from <= i <= s@.len(),
            out@ == s@.subrange(from as int, i as int),
        decreases s@.len() - i,
    {
        out.push(s[i]);
        proof {
            assert(out@ =~= s@.subrange(from as int, i + 1));
        }
        i = i + 1;
    }
    proof {
        assert(s@.subrange(from as int, s@.len() as int) =~= s@.skip(from as int));
    }
    out
}

pub(crate) fn sub_chars(s: &Vec<char>, from: usize, to: usize) -> (r: Vec<char>)
    requires
        from <= to <= s@.len(),
    ensures
        r@ == s@.subrange(from as int, to as int),
{
    let mut out: Vec<char> = Vec::new();
    let mut i: usize = from;
    while i < to
        invariant
            from <= i <= to,
            to <= s@.len(),
            out@ == s@.subrange(from as int, i as int),
        decreases to - i,
    {
        out.push(s[i]);
        proof {
            assert(out@ =~= s@.subrange(from as int, i + 1));
        }
        i = i + 1;
    }
    out
}

pub(crate) fn take_chars(s: &Vec<char>, n: usize) -> (r: Vec<char>)
    requires
        n <= s@.len(),
    ensures
        r@ == s@.take(n as int),
{
    let r = sub_chars(s, 0, n);
    proof {
        assert(s@.subrange(0, n as int) =~= s@.take(n as int));
    }
    r
}

/// Reads the runtime routing order out of the semantic review source `source`, read from
/// `path`, as the families its routes serve.
pub fn runtime_supported_families(source: &str, path: &str) -> (r: Result<Vec<String>, XtaskError>)
    requires
        !routing_order_reversed(source@),
    ensures
        match runtime_routes(source@, path@) {
            Ok(fs) => r matches Ok(v) && views_of(v@) == fs,
            Err(e) => r matches Err(x) && x@ == e,
        },
{
    let cs = chars_of(source);
    let marker = chars_of(ROUTING_ORDER_MARKER);
    let start = match find_first(&cs, &marker) {
        None => {
            let mut m = owned("`");
            m.append(ROUTING_ORDER_MARKER);
            m.append("` is missing from `");
            m.append(path);
            m.append("`");
            return Err(mismatch_error(m));
        },
        Some(i) => i,
    };
    let block = skip_chars(&cs, start);
    let open_pat = chars_of("[");
    let close_pat = chars_of("];");
    let open = match find_first(&block, &open_pat) {
        None => {
            let mut m = owned("failed to parse runtime routing order in `");
            m.append(path);
            m.append("`");
            return Err(mismatch_error(m));
        },
        Some(i) => i,
    };
    let close = match find_first(&block, &close_pat) {
        None => {
            let mut m = owned("failed to locate the end of runtime routing order in `");
            m.append(path);
            m.append("`");
            return Err(mismatch_error(m));
        },
        Some(i) => i,
    };
    proof {
        reveal_strlit("[");
        reveal_strlit("];");
        crate::text::lemma_first_index(
            block@.len() - "["@.len() + 1,
            crate::family::attestation::occurs_at(block@, "["@),
            0,
        );
        crate::text::lemma_first_index(
            block@.len() - "];"@.len() + 1,
            crate::family::attestation::occurs_at(block@, "];"@),
            0,
        );
        if close == open {
            assert(block@.subrange(open as int, open + 1)[0] == block@[open as int]);
            assert(block@.subrange(close as int, close + 2)[0] == block@[close as int]);
        }
    }
    let routes = sub_chars(&block, open + 1, close);
    let text = string_of(&routes);
    let lines = lines_of(text.as_str());
    let ghost ls = text_lines(routes@);
    let prefix = chars_of(ROUTE_PREFIX);
    let mut families: Vec<String> = Vec::new();
    let mut i: usize = 0;
    proof {
        assert(ls.skip(0) =~= ls);
    }
    while i < lines.len()
        invariant
            i <= lines@.len(),
            views(lines@) == ls,
            prefix@ == ROUTE_PREFIX@,
            first_occurrence(source@, ROUTING_ORDER_MARKER@) == Some(start as int),
            block@ == source@.skip(start as int),
            first_occurrence(block@, "["@) == Some(open as int),
            first_occurrence(block@, "];"@) == Some(close as int),
            ls == text_lines(block@.subrange(open + 1, close as int)),
            route_families(ls) == match route_families(ls.skip(i as int)) {
                Ok(fs) => Ok(views_of(families@) + fs),
                Err(e) => Err::<Seq<Seq<char>>, Seq<char>>(e),
            },
        decreases lines@.len() - i,
    {
        proof {
            assert(ls.skip(i as int)[0] == lines@[i as int]@);
            assert(ls.skip(i as int).drop_first() =~= ls.skip(i + 1));
        }
        let t = trim_chars(&lines[i]);
        if starts_with_exec(&t, ROUTE_PREFIX) {
            let rest = skip_chars(&t, prefix.len());
            let route_chars = without_trailing_commas_exec(&rest);
            let route = string_of(&route_chars);
            match route_family_exec(route.as_str()) {
                None => {
                    let mut m = owned("runtime route `");
                    m.append(route.as_str());
                    m.append("` is not mapped in xtask inventory");
                    return Err(mismatch_error(m));
                },
                Some(f) => {
                    let ghost before = views_of(families@);
                    families.push(f);
                    proof {
                        assert(views_of(families@) =~= before.push(f@));
                        match route_families(ls.skip(i + 1)) {
                            Ok(fs) => {
                                assert(before + (seq![f@] + fs) =~= views_of(families@) + fs);
                            },
                            Err(e) => {},
                        }
                    }
                },
            }
        }
        i = i + 1;
    }
    proof {
        assert(ls.skip(lines@.len() as int) =~= Seq::<Seq<char>>::empty());
        assert(views_of(families@) + Seq::<Seq<char>>::empty() =~= views_of(families@));
    }
    if families.len() == 0 {
        let mut m = owned("runtime routing order in `");
        m.append(path);
        m.append("` is empty");
        return Err(mismatch_error(m));
    }
    Ok(families)
}

/// What is known of a supported family before it is promoted: its canonical seeds, the
/// wedges that already exercise it, and the packet paths that support it.
pub open spec fn metadata_of(family: Seq<char>) -> Option<(Seq<Seq<char>>, Seq<Seq<char>>, Seq<Seq<char>>)> {
    if family == "function.wrapper.pipeline.chain3.v1"@ {
        Some(
            (
                seq![
                    "semantic-families/function.wrapper.pipeline.chain3.v1/fixtures/aligned/units/pricing/checkout_chain3_aligned.unit.spec"@,
                ],
                seq!["spec-core/src/semantic_review.rs"@],
                seq!["semantic-families/function.wrapper.pipeline.chain3.v1"@],
            ),
        )
    } else if family == "function.wrapper.pipeline.v1"@ {
        Some(
            (
                seq!["examples/ecommerce/units/pricing/calculate_total.unit.spec"@],
                seq!["spec-cli/tests/m14_regressions.rs"@],
                seq![
                    "semantic-families/function.wrapper.pipeline.chain3.v1/fixtures/aligned/units/pricing/pricing_discount_leaf_aligned.unit.spec"@,
                    "semantic-families/function.wrapper.pipeline.chain3.v1/fixtures/aligned/units/pricing/pricing_tax_leaf_aligned.unit.spec"@,
                    "semantic-families/function.wrapper.pipeline.chain3.v1/fixtures/aligned/units/pricing/pricing_total_wrapper_aligned.unit.spec"@,
                    "semantic-families/function.wrapper.pipeline.chain3.v1/fixtures/drift/units/pricing/pricing_total_wrapper_drift.unit.spec"@,
                    "semantic-families/function.wrapper.pipeline.chain3.v1/fixtures/under_specified/units/pricing/pricing_total_wrapper_under_specified.unit.spec"@,
                    "semantic-families/function.wrapper.pipeline.chain3.v1/fixtures/unsupported_near_miss/units/pricing/pricing_total_wrapper_unsupported_near_miss.unit.spec"@,
                ],
            ),
        )
    } else if family == "function.arithmetic_leaf.monotone_down_nonnegative.v1"@ {
        Some(
            (
                seq!["examples/ecommerce/units/pricing/apply_discount.unit.spec"@],
                seq!["spec-cli/tests/m14_regressions.rs"@],
                seq!["semantic-families/function.arithmetic_leaf.monotone_down_nonnegative.v1"@],
            ),
        )
    } else if family == "function.arithmetic_leaf.monotone_up.v1"@ {
        Some(
            (
                seq!["examples/ecommerce/units/pricing/apply_tax.unit.spec"@],
                seq!["spec-cli/tests/m14_regressions.rs"@],
                seq!["semantic-families/function.arithmetic_leaf.monotone_up.v1"@],
            ),
        )
    } else {
        None
    }
}

/// What the inventory knows of one family.
#[derive(Debug, Clone)]
pub struct InventoryFamilyMetadata {
    pub family: String,
    pub canonical_seed_paths: Vec<String>,
    pub existing_wedge_paths: Vec<String>,
    pub supporting_packet_paths: Vec<String>,
}

pub open spec fn metadata_matches(x: InventoryFamilyMetadata, m: (Seq<Seq<char>>, Seq<Seq<char>>, Seq<Seq<char>>)) -> bool {
    &&& views_of(x.canonical_seed_paths@) == m.0
    &&& views_of(x.existing_wedge_paths@) == m.1
    &&& views_of(x.supporting_packet_paths@) == m.2
}

fn strings_of(parts: &[&str]) -> (r: Vec<String>)
    ensures
        r@.len() == parts@.len(),
        forall|k: int| 0 <= k < parts@.len() ==> (#[trigger] r@[k])@ == parts@[k]@,
{
    let mut out: Vec<String> = Vec::new();
    let mut i: usize = 0;
    while i < parts.len()
        invariant
            i <= parts@.len(),
            out@.len() == i,
            forall|k: int| 0 <= k < i ==> (#[trigger] out@[k])@ == parts@[k]@,
        decreases parts@.len() - i,
    {
        out.push(owned(parts[i]));
        i = i + 1;
    }
    out
}

fn metadata(family: &str, seeds: &[&str], wedges: &[&str], supporting: &[&str]) -> (r: InventoryFamilyMetadata)
    ensures
        r.family@ == family@,
        r.canonical_seed_paths@.len() == seeds@.len(),
        forall|k: int| 0 <= k < seeds@.len() ==> (#[trigger] r.canonical_seed_paths@[k])@ == seeds@[k]@,
        r.existing_wedge_paths@.len() == wedges@.len(),
        forall|k: int| 0 <= k < wedges@.len() ==> (#[trigger] r.existing_wedge_paths@[k])@ == wedges@[k]@,
        r.supporting_packet_paths@.len() == supporting@.len(),
        forall|k: int| 0 <= k < supporting@.len() ==> (#[trigger] r.supporting_packet_paths@[k])@ == supporting@[k]@,
{
    InventoryFamilyMetadata {
        family: owned(family),
        canonical_seed_paths: strings_of(seeds),
        existing_wedge_paths: strings_of(wedges),
        supporting_packet_paths: strings_of(supporting),
    }
}

/// The inventory's knowledge of `family`, if it has any.
pub fn inventory_metadata(family: &str) -> (r: Option<InventoryFamilyMetadata>)
    ensures
        match metadata_of(family@) {
            None => r is None,
            Some(m) => r matches Some(x) && x.family@ == family@ && metadata_matches(x, m),
        },
{
    if str_eq(family, "function.wrapper.pipeline.chain3.v1") {
        let r = metadata(
            family,
            &[
                "semantic-families/function.wrapper.pipeline.chain3.v1/fixtures/aligned/units/pricing/checkout_chain3_aligned.unit.spec",
            ],
            &["spec-core/src/semantic_review.rs"],
            &["semantic-families/function.wrapper.pipeline.chain3.v1"],
        );
        proof {
            assert(views_of(r.canonical_seed_paths@) =~= metadata_of(family@).unwrap().0);
            assert(views_of(r.existing_wedge_paths@) =~= metadata_of(family@).unwrap().1);
            assert(views_of(r.supporting_packet_paths@) =~= metadata_of(family@).unwrap().2);
        }
        Some(r)
    } else if str_eq(family, "function.wrapper.pipeline.v1") {
        let r = metadata(
            family,
            &["examples/ecommerce/units/pricing/calculate_total.unit.spec"],
            &["spec-cli/tests/m14_regressions.rs"],
            &[
                "semantic-families/function.wrapper.pipeline.chain3.v1/fixtures/aligned/units/pricing/pricing_discount_leaf_aligned.unit.spec",
                "semantic-families/function.wrapper.pipeline.chain3.v1/fixtures/aligned/units/pricing/pricing_tax_leaf_aligned.unit.spec",
                "semantic-families/function.wrapper.pipeline.chain3.v1/fixtures/aligned/units/pricing/pricing_total_wrapper_aligned.unit.spec",
                "semantic-families/function.wrapper.pipeline.chain3.v1/fixtures/drift/units/pricing/pricing_total_wrapper_drift.unit.spec",
                "semantic-families/function.wrapper.pipeline.chain3.v1/fixtures/under_specified/units/pricing/pricing_total_wrapper_under_specified.unit.spec",
                "semantic-families/function.wrapper.pipeline.chain3.v1/fixtures/unsupported_near_miss/units/pricing/pricing_total_wrapper_unsupported_near_miss.unit.spec",
            ],
        );
        proof {
            assert(views_of(r.canonical_seed_paths@) =~= metadata_of(family@).unwrap().0);
            assert(views_of(r.existing_wedge_paths@) =~= metadata_of(family@).unwrap().1);
            assert(views_of(r.supporting_packet_paths@) =~= metadata_of(family@).unwrap().2);
        }
        Some(r)
    } else if str_eq(family, "function.arithmetic_leaf.monotone_down_nonnegative.v1") {
        let r = metadata(
            family,
            &["examples/ecommerce/units/pricing/apply_discount.unit.spec"],
            &["spec-cli/tests/m14_regressions.rs"],
            &["semantic-families/function.arithmetic_leaf.monotone_down_nonnegative.v1"],
        );
        proof {
            assert(views_of(r.canonical_seed_paths@) =~= metadata_of(family@).unwrap().0);
            assert(views_of(r.existing_wedge_paths@) =~= metadata_of(family@).unwrap().1);
            assert(views_of(r.supporting_packet_paths@) =~= metadata_of(family@).unwrap().2);
        }
        Some(r)
    } else if str_eq(family, "function.arithmetic_leaf.monotone_up.v1") {
        let r = metadata(
            family,
            &["examples/ecommerce/units/pricing/apply_tax.unit.spec"],
            &["spec-cli/tests/m14_regressions.rs"],
            &["semantic-families/function.arithmetic_leaf.monotone_up.v1"],
        );
        proof {
            assert(views_of(r.canonical_seed_paths@) =~= metadata_of(family@).unwrap().0);
            assert(views_of(r.existing_wedge_paths@) =~= metadata_of(family@).unwrap().1);
            assert(views_of(r.supporting_packet_paths@) =~= metadata_of(family@).unwrap().2);
        }
        Some(r)
    } else {
        None
    }
}

/// A family the runtime supports that is not promoted yet, where it sits in the routing
/// order, and what is known of it.
#[derive(Debug, Clone)]
pub struct SupportedUnpromotedFamilyEntry {
    pub family: String,
    pub canonical_seed_paths: Vec<String>,
    pub existing_wedge_paths: Vec<String>,
    pub supporting_packet_paths: Vec<String>,
    pub routing_predecessor: Option<String>,
    pub routing_successors: Vec<String>,
}

/// The promoted families, the runtime routing order, and the supported families still to
/// promote.
#[derive(Debug, Clone)]
pub struct FamilyInventory {
    pub schema_version: u64,
    pub generated_at: String,
    pub promoted_families: Vec<String>,
    pub runtime_supported_routes: Vec<String>,
    pub supported_unpromoted_families: Vec<SupportedUnpromotedFamilyEntry>,
}

/// The first of the first `n` promoted families that the runtime does not route.
pub open spec fn first_unrouted(promoted: Seq<Seq<char>>, routes: Seq<Seq<char>>, n: int) -> Option<Seq<char>>
    decreases n,
{
    if n <= 0 {
        None
    } else if first_unrouted(promoted, routes, n - 1) is Some {
        first_unrouted(promoted, routes, n - 1)
    } else if !routes.contains(promoted[n - 1]) {
        Some(promoted[n - 1])
    } else {
        None
    }
}

/// What is wrong with one metadata path, given the paths the workspace lacks.
pub open spec fn metadata_path_issue(p: Seq<char>, missing: Seq<Seq<char>>) -> Option<XtaskErrorView> {
    if repo_relative_issue(p, "inventory metadata path"@) is Some {
        repo_relative_issue(p, "inventory metadata path"@)
    } else if missing.contains(p) {
        Some(XtaskErrorView::InvalidInput("inventory metadata path `"@ + p + "` does not exist in the workspace"@))
    } else {
        None
    }
}

/// The first problem among the first `n` metadata paths.
pub open spec fn first_path_issue(ps: Seq<Seq<char>>, missing: Seq<Seq<char>>, n: int) -> Option<XtaskErrorView>
    decreases n,
{
    if n <= 0 {
        None
    } else if first_path_issue(ps, missing, n - 1) is Some {
        first_path_issue(ps, missing, n - 1)
    } else {
        metadata_path_issue(ps[n - 1], missing)
    }
}

/// What stops a supported unpromoted family from being listed: no metadata, or a
/// metadata path that is malformed or absent.
pub open spec fn entry_issue(family: Seq<char>, missing: Seq<Seq<char>>) -> Option<XtaskErrorView> {
    match metadata_of(family) {
        None => Some(
            XtaskErrorView::InvalidInput("inventory metadata missing for runtime-supported family `"@ + family + "`"@),
        ),
        Some(m) => {
            let ps = m.0 + m.1 + m.2;
            first_path_issue(ps, missing, ps.len() as int)
        },
    }
}

/// The first problem among the first `n` routes that are not promoted.
pub open spec fn first_entry_issue(
    routes: Seq<Seq<char>>,
    promoted: Seq<Seq<char>>,
    missing: Seq<Seq<char>>,
    n: int,
) -> Option<XtaskErrorView>
    decreases n,
{
    if n <= 0 {
        None
    } else if first_entry_issue(routes, promoted, missing, n - 1) is Some {
        first_entry_issue(routes, promoted, missing, n - 1)
    } else if !promoted.contains(routes[n - 1]) {
        entry_issue(routes[n - 1], missing)
    } else {
        None
    }
}

/// What stops the inventory: a promoted family the runtime does not route, else the first
/// problem with a supported family that is not promoted.
pub open spec fn inventory_issue(promoted: Seq<Seq<char>>, routes: Seq<Seq<char>>, missing: Seq<Seq<char>>) -> Option<
    XtaskErrorView,
> {
    match first_unrouted(promoted, routes, promoted.len() as int) {
        Some(f) => Some(
            XtaskErrorView::InvalidInput(
                "inventory projection mismatch: promoted family `"@ + f
                    + "` is not present in runtime-supported routing truth"@,
            ),
        ),
        None => first_entry_issue(routes, promoted, missing, routes.len() as int),
    }
}

/// The positions of the first `n` routes that are not promoted, in order.
pub open spec fn unpromoted_positions(routes: Seq<Seq<char>>, promoted: Seq<Seq<char>>, n: int) -> Seq<int>
    decreases n,
{
    if n <= 0 {
        Seq::empty()
    } else if !promoted.contains(routes[n - 1]) {
        unpromoted_positions(routes, promoted, n - 1).push(n - 1)
    } else {
        unpromoted_positions(routes, promoted, n - 1)
    }
}

/// `e` lists the route at position `i`: its metadata in string order, the route before it,
/// and the routes after it ending in the unsupported catch-all.
pub open spec fn entry_of(e: SupportedUnpromotedFamilyEntry, routes: Seq<Seq<char>>, i: int) -> bool {
    &&& metadata_of(routes[i]) matches Some(m)
    &&& e.family@ == routes[i]
    &&& views_of(e.canonical_seed_paths@) == in_string_order(m.0)
    &&& views_of(e.existing_wedge_paths@) == in_string_order(m.1)
    &&& views_of(e.supporting_packet_paths@) == in_string_order(m.2)
    &&& opt_view(e.routing_predecessor) == if i > 0 {
        Some(routes[i - 1])
    } else {
        None
    }
    &&& views_of(e.routing_successors@) == routes.skip(i + 1).push(TERMINAL_UNSUPPORTED_CATCH_ALL@)
}

proof fn lemma_first_unrouted_stable(promoted: Seq<Seq<char>>, routes: Seq<Seq<char>>, n: int, m: int)
    requires
        n <= m,
        first_unrouted(promoted, routes, n) is Some,
    ensures
        first_unrouted(promoted, routes, m) == first_unrouted(promoted, routes, n),
    decreases m - n,
{
    if m > n {
        lemma_first_unrouted_stable(promoted, routes, n, m - 1);
    }
}

proof fn lemma_first_path_issue_stable(ps: Seq<Seq<char>>, missing: Seq<Seq<char>>, n: int, m: int)
    requires
        n <= m,
        first_path_issue(ps, missing, n) is Some,
    ensures
        first_path_issue(ps, missing, m) == first_path_issue(ps, missing, n),
    decreases m - n,
{
    if m > n {
        lemma_first_path_issue_stable(ps, missing, n, m - 1);
    }
}

proof fn lemma_first_entry_issue_stable(
    routes: Seq<Seq<char>>,
    promoted: Seq<Seq<char>>,
    missing: Seq<Seq<char>>,
    n: int,
    m: int,
)
    requires
        n <= m,
        first_entry_issue(routes, promoted, missing, n) is Some,
    ensures
        first_entry_issue(routes, promoted, missing, m) == first_entry_issue(routes, promoted, missing, n),
    decreases m - n,
{
    if m > n {
        lemma_first_entry_issue_stable(routes, promoted, missing, n, m - 1);
    }
}

fn check_metadata_paths(paths: &Vec<String>, missing: &Vec<String>) -> (r: Result<(), XtaskError>)
    ensures
        match first_path_issue(views_of(paths@), views_of(missing@), paths@.len() as int) {
            None => r is Ok,
            Some(e) => r matches Err(x) && x@ == e,
        },
{
    let ghost ps = views_of(paths@);
    let mut i: usize = 0;
    while i < paths.len()
        invariant
            i <= paths@.len(),
            ps == views_of(paths@),
            first_path_issue(ps, views_of(missing@), i as int) is None,
        decreases paths@.len() - i,
    {
        proof {
            assert(ps[i as int] == paths@[i as int]@);
        }
        match validate_repo_relative_path(paths[i].as_str(), "inventory metadata path") {
            Err(e) => {
                proof {
                    lemma_first_path_issue_stable(ps, views_of(missing@), i + 1, paths@.len() as int);
                }
                return Err(e);
            },
            Ok(()) => {},
        }
        if crate::family::tally::contains_string(missing, paths[i].as_str()) {
            proof {
                lemma_first_path_issue_stable(ps, views_of(missing@), i + 1, paths@.len() as int);
            }
            let mut m = owned("inventory metadata path `");
            m.append(paths[i].as_str());
            m.append("` does not exist in the workspace");
            return Err(XtaskError::InvalidInput(m));
        }
        i = i + 1;
    }
    Ok(())
}

fn concat_strings(a: &Vec<String>, b: &Vec<String>) -> (r: Vec<String>)
    ensures
        views_of(r@) == views_of(a@) + views_of(b@),
{
    let mut out = copy_strings(a);
    let mut i: usize = 0;
    while i < b.len()
        invariant
            i <= b@.len(),
            views_of(out@) == views_of(a@) + views_of(b@).take(i as int),
        decreases b@.len() - i,
    {
        let ghost before = out@;
        out.push(owned(b[i].as_str()));
        proof {
            assert(views_of(out@) =~= views_of(before).push(b@[i as int]@));
            assert(views_of(b@).take(i + 1) =~= views_of(b@).take(i as int).push(b@[i as int]@));
            assert(views_of(a@) + views_of(b@).take(i + 1) =~= (views_of(a@) + views_of(b@).take(i as int)).push(
                b@[i as int]@,
            ));
        }
        i = i + 1;
    }
    proof {
        assert(views_of(b@).take(b@.len() as int) =~= views_of(b@));
    }
    out
}

fn entry_for(routes: &Vec<String>, i: usize, missing: &Vec<String>) -> (r: Result<SupportedUnpromotedFamilyEntry, XtaskError>)
    requires
        i < routes@.len(),
    ensures
        match entry_issue(views_of(routes@)[i as int], views_of(missing@)) {
            None => r matches Ok(e) && entry_of(e, views_of(routes@), i as int),
            Some(e) => r matches Err(x) && x@ == e,
        },
{
    let ghost rs = views_of(routes@);
    proof {
        assert(rs[i as int] == routes@[i as int]@);
    }
    let family = routes[i].as_str();
    let m = match inventory_metadata(family) {
        None => {
            let mut msg = owned("inventory metadata missing for runtime-supported family `");
            msg.append(family);
            msg.append("`");
            return Err(XtaskError::InvalidInput(msg));
        },
        Some(m) => m,
    };
    let first_two = concat_strings(&m.canonical_seed_paths, &m.existing_wedge_paths);
    let all_paths = concat_strings(&first_two, &m.supporting_packet_paths);
    match check_metadata_paths(&all_paths, missing) {
        Err(e) => {
            return Err(e);
        },
        Ok(()) => {},
    }
    let predecessor = if i > 0 {
        Some(owned(routes[i - 1].as_str()))
    } else {
        None
    };
    proof {
        if i > 0 {
            assert(rs[i - 1] == routes@[i - 1]@);
        }
    }
    let mut successors: Vec<String> = Vec::new();
    let _route_count: usize = routes.len();
    let mut j: usize = i + 1;
    while j < routes.len()
        invariant
            i < routes@.len(),
            i + 1 <= j <= routes@.len(),
            rs == views_of(routes@),
            views_of(successors@) == rs.subrange(i + 1, j as int),
        decreases routes@.len() - j,
    {
        let ghost before = successors@;
        successors.push(owned(routes[j].as_str()));
        proof {
            assert(rs[j as int] == routes@[j as int]@);
            assert(views_of(successors@) =~= views_of(before).push(routes@[j as int]@));
            assert(rs.subrange(i + 1, j + 1) =~= rs.subrange(i + 1, j as int).push(rs[j as int]));
        }
        j = j + 1;
    }
    let ghost before = successors@;
    successors.push(owned(TERMINAL_UNSUPPORTED_CATCH_ALL));
    proof {
        assert(views_of(successors@) =~= views_of(before).push(TERMINAL_UNSUPPORTED_CATCH_ALL@));
        assert(rs.subrange(i + 1, routes@.len() as int) =~= rs.skip(i + 1));
    }
    Ok(SupportedUnpromotedFamilyEntry {
        family: owned(family),
        canonical_seed_paths: sort_strings(&m.canonical_seed_paths),
        existing_wedge_paths: sort_strings(&m.existing_wedge_paths),
        supporting_packet_paths: sort_strings(&m.supporting_packet_paths),
        routing_predecessor: predecessor,
        routing_successors: successors,
    })
}

/// The inventory of the promoted families (those registered whose packet exists, in
/// routing order) against the runtime routing order, generated at `generated_at`;
/// `missing_paths` are the metadata paths the workspace lacks.
pub fn inventory_from(
    promoted_families: Vec<String>,
    runtime_supported_routes: Vec<String>,
    generated_at: String,
    missing_paths: &Vec<String>,
) -> (r: Result<FamilyInventory, XtaskError>)
    ensures
        match inventory_issue(views_of(promoted_families@), views_of(runtime_supported_routes@), views_of(missing_paths@)) {
            Some(e) => r matches Err(x) && x@ == e,
            None => r matches Ok(inv) && {
                let positions = unpromoted_positions(
                    views_of(runtime_supported_routes@),
                    views_of(promoted_families@),
                    runtime_supported_routes@.len() as int,
                );
                &&& inv.schema_version == INVENTORY_SCHEMA_VERSION
                &&& inv.generated_at == generated_at
                &&& inv.promoted_families == promoted_families
                &&& inv.runtime_supported_routes == runtime_supported_routes
                &&& inv.supported_unpromoted_families@.len() == positions.len()
                &&& forall|k: int|
                    0 <= k < positions.len() ==> entry_of(
                        #[trigger] inv.supported_unpromoted_families@[k],
                        views_of(runtime_supported_routes@),
                        positions[k],
                    )
            },
        },
{
    let ghost ps = views_of(promoted_families@);
    let ghost rs = views_of(runtime_supported_routes@);
    let ghost ms = views_of(missing_paths@);
    let mut i: usize = 0;
    while i < promoted_families.len()
        invariant
            i <= promoted_families@.len(),
            ps == views_of(promoted_families@),
            rs == views_of(runtime_supported_routes@),
            first_unrouted(ps, rs, i as int) is None,
        decreases promoted_families@.len() - i,
    {
        proof {
            assert(ps[i as int] == promoted_families@[i as int]@);
        }
        if !crate::family::tally::contains_string(&runtime_supported_routes, promoted_families[i].as_str()) {
            proof {
                lemma_first_unrouted_stable(ps, rs, i + 1, ps.len() as int);
            }
            let mut m = owned("inventory projection mismatch: promoted family `");
            m.append(promoted_families[i].as_str());
            m.append("` is not present in runtime-supported routing truth");
            return Err(XtaskError::InvalidInput(m));
        }
        i = i + 1;
    }
    let mut entries: Vec<SupportedUnpromotedFamilyEntry> = Vec::new();
    let mut k: usize = 0;
    while k < runtime_supported_routes.len()
        invariant
            k <= runtime_supported_routes@.len(),
            ps == views_of(promoted_families@),
            rs == views_of(runtime_supported_routes@),
            ms == views_of(missing_paths@),
            first_unrouted(ps, rs, ps.len() as int) is None,
            first_entry_issue(rs, ps, ms, k as int) is None,
            entries@.len() == unpromoted_positions(rs, ps, k as int).len(),
            forall|j: int|
                0 <= j < entries@.len() ==> entry_of(
                    #[trigger] entries@[j],
                    rs,
                    unpromoted_positions(rs, ps, k as int)[j],
                ),
        decreases runtime_supported_routes@.len() - k,
    {
        proof {
            assert(rs[k as int] == runtime_supported_routes@[k as int]@);
        }
        if !crate::family::tally::contains_string(&promoted_families, runtime_supported_routes[k].as_str()) {
            match entry_for(&runtime_supported_routes, k, missing_paths) {
                Err(e) => {
                    proof {
                        lemma_first_entry_issue_stable(rs, ps, ms, k + 1, rs.len() as int);
                    }
                    return Err(e);
                },
                Ok(e) => {
                    let ghost before = entries@;
                    entries.push(e);
                    proof {
                        let pos = unpromoted_positions(rs, ps, k + 1);
                        assert(pos == unpromoted_positions(rs, ps, k as int).push(k as int));
                        assert forall|j: int| 0 <= j < entries@.len() implies entry_of(
                            #[trigger] entries@[j],
                            rs,
                            pos[j],
                        ) by {
                            if j < before.len() {
                                assert(entries@[j] == before[j]);
                            }
                        }
                    }
                },
            }
        }
        k = k + 1;
    }
    Ok(FamilyInventory {
        schema_version: INVENTORY_SCHEMA_VERSION,
        generated_at,
        promoted_families,
        runtime_supported_routes,
        supported_unpromoted_families: entries,
    })
}

/// The time an inventory records when the commit time cannot be read.
pub const EPOCH_TIMESTAMP: &'static str = "1970-01-01T00:00:00Z";

/// The trimmed output of a command that succeeded, when it is not blank.
pub fn nonblank_output(stdout: Option<&str>) -> (r: Option<String>)
    ensures
        match stdout {
            None => r is None,
            Some(s) => if trim_seq(s@).len() == 0 {
                r is None
            } else {
                r matches Some(t) && t@ == trim_seq(s@)
            },
        },
{
    match stdout {
        None => None,
        Some(s) => {
            let cs = chars_of(s);
            let t = trim_chars(&cs);
            if t.len() == 0 {
                None
            } else {
                Some(string_of(&t))
            }
        },
    }
}

} // verus!
