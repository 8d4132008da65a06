//! Semantic validation of a single loaded unit.
use vstd::prelude::*;
use crate::errors::{SpecError, SpecErrorView};
use crate::model::{Contract, LoadedMoleculeTest, LoadedSpec, LocalTest, UnitKind};
use crate::rust_syntax::{
    block_parse_error, check_expect_expr, expect_issue, parses_as_ident, parses_as_item_fn, syn_block_accepts,
    syn_ident_accepts, syn_item_fn_accepts, syn_type_outcome, type_parse_error,
};
use crate::text::{
    chars_of, first_index, first_match, lemma_first_index, is_alphanumeric_char, is_ascii_alnum, unicode_alphanumeric, lemma_first_match_bounds, owned, split_chars, split_seq, starts_with, starts_with_exec,
    str_eq, string_of, tail_from, trim_chars, trim_seq, trim_start_chars, trim_start_seq, views,
};
use crate::unit_ref::{
    authored_form, callable_name, callable_of, dep_failure_text, is_rust_keyword, is_rust_keyword_exec, parse_dep, DepFailure,
    DepRef, DepRefParseError,
};
use crate::errors::views_of_strings;
use crate::seam::{
    constructor_bad_pred, constructor_ids, constructors_issue, data_field_names, data_issue, init_bad_pred, init_entry_issue, init_issue,
    missing_fields, pair_keys, sum_issue, validate_data_semantic, validate_sum_semantic,
};

verus! {

/// How strictly a unit set is validated.
#[derive(Debug, Clone, Copy, Default, PartialEq, Eq, Structural)]
pub struct ValidationOptions {
    /// Missing deps are errors (otherwise warnings).
    pub strict_deps: bool,
    /// `local_tests.expect` may hold blocks, `unsafe` and closures.
    pub allow_unsafe_local_test_expect: bool,
}

impl ValidationOptions {
    /// Missing deps are errors and expect expressions stay bounded.
    pub fn strict() -> (r: ValidationOptions)
        ensures
            r.strict_deps,
            !r.allow_unsafe_local_test_expect,
    {
        ValidationOptions { strict_deps: true, allow_unsafe_local_test_expect: false }
    }
}

pub open spec fn keyword_pred() -> spec_fn(Seq<char>) -> bool {
    |p: Seq<char>| is_rust_keyword(p)
}

pub open spec fn reserved_pred() -> spec_fn(Seq<char>) -> bool {
    |p: Seq<char>| is_reserved_segment(p)
}

/// The first `/` segment of `id` that Rust reserves.
pub open spec fn keyword_segment(id: Seq<char>) -> Option<Seq<char>> {
    let parts = split_seq(id, '/');
    match first_match(parts, keyword_pred(), 0) {
        Some(i) => Some(parts[i]),
        None => None,
    }
}

/// The first segment of `pieces` that Rust reserves, by exec search.
fn find_keyword_piece(pieces: &Vec<Vec<char>>) -> (r: Option<String>)
    ensures
        match first_match(views(pieces@), keyword_pred(), 0) {
            Some(i) => r matches Some(s) && s@ == views(pieces@)[i],
            None => r is None,
        },
{
    let mut i: usize = 0;
    while i < pieces.len()
        invariant
            i <= pieces.len(),
            first_match(views(pieces@), keyword_pred(), 0) == first_match(views(pieces@), keyword_pred(), i as int),
        decreases pieces.len() - i,
    {
        let piece = string_of(&pieces[i]);
        proof {
            assert(views(pieces@)[i as int] == pieces@[i as int]@);
        }
        if is_rust_keyword_exec(piece.as_str()) {
            return Some(piece);
        }
        i = i + 1;
    }
    None
}

/// Refuses an id with a segment that Rust reserves.
pub fn validate_rust_keywords(id: &str, file_path: &str) -> (r: Result<(), SpecError>)
    ensures
        match keyword_segment(id@) {
            Some(seg) => r matches Err(e) && e@ == (SpecErrorView::RustKeyword { segment: seg, id: id@, path: file_path@ }),
            None => r is Ok,
        },
{
    let cs = chars_of(id);
    let parts = split_chars(&cs, '/');
    match find_keyword_piece(&parts) {
        Some(segment) => Err(SpecError::RustKeyword { segment, id: owned(id), path: owned(file_path) }),
        None => Ok(()),
    }
}

/// The segment name that generated molecule-test modules use.
pub open spec fn is_reserved_segment(s: Seq<char>) -> bool {
    s == "molecule_tests"@
}

pub open spec fn reserved_segment(id: Seq<char>) -> Option<Seq<char>> {
    let parts = split_seq(id, '/');
    match first_match(parts, reserved_pred(), 0) {
        Some(i) => Some(parts[i]),
        None => None,
    }
}

/// Refuses an id with a segment that generated code reserves.
pub fn validate_reserved_spec_id_segments(id: &str, file_path: &str) -> (r: Result<(), SpecError>)
    ensures
        match reserved_segment(id@) {
            Some(seg) => r matches Err(e) && e@ == (SpecErrorView::ReservedUnitName { segment: seg, path: file_path@ }),
            None => r is Ok,
        },
{
    let cs = chars_of(id);
    let parts = split_chars(&cs, '/');
    let mut i: usize = 0;
    while i < parts.len()
        invariant
            i <= parts.len(),
            views(parts@) == split_seq(id@, '/'),
            first_match(views(parts@), reserved_pred(), 0) == first_match(views(parts@), reserved_pred(), i as int),
        decreases parts.len() - i,
    {
        let piece = string_of(&parts[i]);
        proof {
            assert(views(parts@)[i as int] == parts@[i as int]@);
        }
        if str_eq(piece.as_str(), "molecule_tests") {
            return Err(SpecError::ReservedUnitName { segment: piece, path: owned(file_path) });
        }
        i = i + 1;
    }
    Ok(())
}

/// The unit kind that an authored `kind` names.
pub open spec fn kind_of(kind: Seq<char>) -> Option<UnitKind> {
    if kind == "function"@ {
        Some(UnitKind::Function)
    } else if kind == "data"@ {
        Some(UnitKind::Data)
    } else if kind == "sum"@ {
        Some(UnitKind::Sum)
    } else {
        None
    }
}

pub open spec fn unknown_kind_text(kind: Seq<char>) -> Seq<char> {
    "unsupported kind '"@ + kind + "'; expected function, data, or sum"@
}

/// Reads the authored kind of a unit.
pub fn unit_kind(spec: &LoadedSpec) -> (r: Result<UnitKind, String>)
    ensures
        match kind_of(spec.spec.kind@) {
            Some(k) => r == Ok::<UnitKind, String>(k),
            None => r matches Err(m) && m@ == unknown_kind_text(spec.spec.kind@),
        },
{
    let k = spec.spec.kind.as_str();
    if str_eq(k, "function") {
        Ok(UnitKind::Function)
    } else if str_eq(k, "data") {
        Ok(UnitKind::Data)
    } else if str_eq(k, "sum") {
        Ok(UnitKind::Sum)
    } else {
        let mut m = owned("unsupported kind '");
        m.append(k);
        m.append("'; expected function, data, or sum");
        Err(m)
    }
}

/// A semantic error at the unit's file.
pub fn semantic_error(spec: &LoadedSpec, message: String) -> (r: SpecError)
    ensures
        r@ == (SpecErrorView::SemanticValidation { message: message@, path: spec.source.file_path@ }),
{
    SpecError::SemanticValidation { message, path: spec.source.file_path.clone() }
}

} // verus!

verus! {

/// `r` is the outcome that `issue` prescribes: `Ok` when there is none, else that error.
pub open spec fn outcome_is(r: Result<(), SpecError>, issue: Option<SpecErrorView>) -> bool {
    match issue {
        Some(v) => r matches Err(e) && e@ == v,
        None => r is Ok,
    }
}

pub open spec fn dep_invalid_pred() -> spec_fn(Seq<char>) -> bool {
    |d: Seq<char>| parse_dep(d) is Err
}

/// The parsed form of a dependency that is known to parse.
pub open spec fn parsed_of(d: Seq<char>) -> (Option<Seq<char>>, Seq<char>) {
    match parse_dep(d) {
        Ok(p) => p,
        Err(_) => (None, Seq::<char>::empty()),
    }
}

pub open spec fn failure_of(d: Seq<char>) -> DepFailure {
    match parse_dep(d) {
        Err(f) => f,
        Ok(_) => DepFailure::MissingModulePath,
    }
}

/// Parses every authored dependency, stopping at the first that is refused.
pub fn parse_dep_refs(deps: &Vec<String>) -> (r: Result<Vec<DepRef>, DepRefParseError>)
    ensures
        match first_match(views_of_strings(deps@), dep_invalid_pred(), 0) {
            Some(i) => r matches Err(e) && e.dep@ == deps@[i]@ && e.reason.failure() == failure_of(deps@[i]@),
            None => r matches Ok(v) && v@.len() == deps@.len()
                && forall|k: int| 0 <= k < deps@.len() ==> #[trigger] v@[k].view_pair() == parsed_of(deps@[k]@),
        },
{
    let mut out: Vec<DepRef> = Vec::new();
    let mut i: usize = 0;
    while i < deps.len()
        invariant
            i <= deps.len(),
            out@.len() == i,
            first_match(views_of_strings(deps@), dep_invalid_pred(), 0)
                == first_match(views_of_strings(deps@), dep_invalid_pred(), i as int),
            forall|k: int| 0 <= k < i ==> #[trigger] out@[k].view_pair() == parsed_of(deps@[k]@),
        decreases deps.len() - i,
    {
        proof {
            assert(views_of_strings(deps@)[i as int] == deps@[i as int]@);
        }
        match DepRef::parse(deps[i].as_str()) {
            Ok(d) => {
                out.push(d);
            },
            Err(e) => {
                return Err(e);
            },
        }
        i = i + 1;
    }
    Ok(out)
}

/// The error for a dependency that did not parse.
pub fn invalid_dep_error(err: &DepRefParseError, spec: &LoadedSpec) -> (r: SpecError)
    ensures
        r@ == (SpecErrorView::SemanticValidation { message: err.text(), path: spec.source.file_path@ }),
{
    SpecError::SemanticValidation { message: err.message(), path: spec.source.file_path.clone() }
}

/// A reserved word in a dependency: its alias first, then its unit-id segments.
pub open spec fn dep_keyword(p: (Option<Seq<char>>, Seq<char>)) -> Option<Seq<char>> {
    match p.0 {
        Some(a) if is_rust_keyword(a) => Some(a),
        _ => keyword_segment(p.1),
    }
}

/// Refuses a dependency whose alias or unit id holds a Rust reserved word.
pub fn validate_dep_ref_keywords(dep: &DepRef, file_path: &str) -> (r: Result<(), SpecError>)
    ensures
        outcome_is(r, match dep_keyword(dep.view_pair()) {
            Some(seg) => Some(SpecErrorView::RustKeyword {
                segment: seg,
                id: authored_form(dep.view_pair().0, dep.view_pair().1),
                path: file_path@,
            }),
            None => None,
        }),
{
    if let Some(alias) = &dep.library_alias {
        if is_rust_keyword_exec(alias.as_str()) {
            return Err(SpecError::RustKeyword {
                segment: alias.clone(),
                id: dep.authored(),
                path: owned(file_path),
            });
        }
    }
    match validate_rust_keywords(dep.unit_id.as_str(), file_path) {
        Ok(()) => Ok(()),
        Err(_) => {
            let cs = chars_of(dep.unit_id.as_str());
            let parts = split_chars(&cs, '/');
            match find_keyword_piece(&parts) {
                Some(segment) => Err(SpecError::RustKeyword { segment, id: dep.authored(), path: owned(file_path) }),
                None => Ok(()),
            }
        },
    }
}

} // verus!

verus! {

pub open spec fn eq_pred(target: Seq<char>) -> spec_fn(Seq<char>) -> bool {
    |c: Seq<char>| c == target
}

/// The first index at or after `from` holding `target`.
pub fn find_equal_from(items: &Vec<String>, target: &String, from: usize) -> (r: Option<usize>)
    ensures
        r is None <==> first_match(views_of_strings(items@), eq_pred(target@), from as int) is None,
        r matches Some(j) ==> first_match(views_of_strings(items@), eq_pred(target@), from as int) == Some(j as int),
{
    let mut i: usize = from;
    if i >= items.len() {
        return None;
    }
    while i < items.len()
        invariant
            from <= i <= items.len(),
            first_match(views_of_strings(items@), eq_pred(target@), from as int)
                == first_match(views_of_strings(items@), eq_pred(target@), i as int),
        decreases items.len() - i,
    {
        proof {
            assert(views_of_strings(items@)[i as int] == items@[i as int]@);
        }
        if items[i] == *target {
            return Some(i);
        }
        i = i + 1;
    }
    None
}

/// The first pair `(i, j)`, `i < j`, in order of `i` then `j`, of equal pieces.
pub open spec fn first_equal_pair(cs: Seq<Seq<char>>, i: int) -> Option<(int, int)>
    decreases cs.len() - i,
{
    if i < 0 || i >= cs.len() {
        None
    } else {
        match first_match(cs, eq_pred(cs[i]), i + 1) {
            Some(j) => Some((i, j)),
            None => first_equal_pair(cs, i + 1),
        }
    }
}

pub proof fn lemma_first_equal_pair_bounds(cs: Seq<Seq<char>>, i: int)
    requires
        i >= 0,
    ensures
        first_equal_pair(cs, i) matches Some((a, b)) ==> i <= a < b < cs.len() && cs[a] == cs[b],
    decreases cs.len() - i,
{
    if i < cs.len() {
        lemma_first_match_bounds(cs, eq_pred(cs[i]), i + 1);
        if first_match(cs, eq_pred(cs[i]), i + 1) is None {
            lemma_first_equal_pair_bounds(cs, i + 1);
        }
    }
}

pub fn find_equal_pair(items: &Vec<String>) -> (r: Option<(usize, usize)>)
    ensures
        r is None <==> first_equal_pair(views_of_strings(items@), 0) is None,
        r matches Some((i, j)) ==> first_equal_pair(views_of_strings(items@), 0) == Some((i as int, j as int)),
{
    let mut i: usize = 0;
    while i < items.len()
        invariant
            i <= items.len(),
            first_equal_pair(views_of_strings(items@), 0) == first_equal_pair(views_of_strings(items@), i as int),
        decreases items.len() - i,
    {
        proof {
            assert(views_of_strings(items@)[i as int] == items@[i as int]@);
        }
        match find_equal_from(items, &items[i], i + 1) {
            Some(j) => {
                return Some((i, j));
            },
            None => {},
        }
        i = i + 1;
    }
    None
}

/// The callable names of parsed dependencies.
pub open spec fn callables_of(parsed: Seq<DepRef>) -> Seq<Seq<char>> {
    parsed.map_values(|d: DepRef| callable_of(d.unit_id@))
}

pub fn callable_names(deps: &Vec<DepRef>) -> (r: Vec<String>)
    ensures
        views_of_strings(r@) == callables_of(deps@),
{
    let mut out: Vec<String> = Vec::new();
    let mut i: usize = 0;
    while i < deps.len()
        invariant
            i <= deps.len(),
            views_of_strings(out@) == callables_of(deps@.take(i as int)),
        decreases deps.len() - i,
    {
        let name = deps[i].callable_name();
        let ghost before = out@;
        out.push(name);
        proof {
            assert(views_of_strings(out@) =~= views_of_strings(before).push(name@));
            assert(deps@.take(i + 1) =~= deps@.take(i as int).push(deps@[i as int]));
            assert(callables_of(deps@.take(i + 1)) =~= callables_of(deps@.take(i as int)).push(callable_of(deps@[i as int].unit_id@)));
        }
        i = i + 1;
    }
    proof {
        assert(deps@.take(deps@.len() as int) =~= deps@);
    }
    out
}

/// The first pair of dependencies that project to the same callable name.
pub fn has_dep_ref_collision(deps: &Vec<DepRef>) -> (r: Option<(usize, usize)>)
    ensures
        r is None <==> first_equal_pair(callables_of(deps@), 0) is None,
        r matches Some((i, j)) ==> first_equal_pair(callables_of(deps@), 0) == Some((i as int, j as int)),
{
    let names = callable_names(deps);
    find_equal_pair(&names)
}

} // verus!

verus! {

/// The characters `trim_start_matches` drops after `pub`: brackets, `_`, and anything
/// `char::is_alphanumeric` accepts.
pub open spec fn is_visibility_char(c: char) -> bool {
    c == '(' || c == ')' || unicode_alphanumeric(c) || c == '_'
}

/// `s` without the leading visibility characters `pub` may be followed by.
pub open spec fn drop_visibility(s: Seq<char>) -> Seq<char>
    decreases s.len(),
{
    if s.len() > 0 && is_visibility_char(s[0]) {
        drop_visibility(s.drop_first())
    } else {
        s
    }
}

pub open spec fn starts_use(t: Seq<char>) -> bool {
    starts_with(t, "use "@) || starts_with(t, "use\t"@)
}

/// A line that opens with a `use` item, bare or behind a visibility.
pub open spec fn line_declares_use(line: Seq<char>) -> bool {
    let t = trim_start_seq(line);
    starts_use(t) || (starts_with(t, "pub"@) && starts_use(trim_start_seq(drop_visibility(t.skip(3)))))
}

pub open spec fn use_line_pred() -> spec_fn(Seq<char>) -> bool {
    |l: Seq<char>| line_declares_use(l)
}

/// Whether some line of the body opens with a `use` item.
pub open spec fn body_has_use(body: Seq<char>) -> bool {
    first_match(split_seq(body, '\n'), use_line_pred(), 0) is Some
}

fn drop_visibility_exec(s: &Vec<char>) -> (r: Vec<char>)
    ensures
        r@ == drop_visibility(s@),
{
    let mut i: usize = 0;
    proof {
        assert(s@.skip(0) =~= s@);
    }
    while i < s.len() && (s[i] == '(' || s[i] == ')' || s[i] == '_' || is_alphanumeric_char(s[i]))
        invariant
            i <= s.len(),
            drop_visibility(s@) == drop_visibility(s@.skip(i as int)),
        decreases s.len() - i,
    {
        proof {
            assert(s@.skip(i as int).drop_first() =~= s@.skip(i + 1));
        }
        i = i + 1;
    }
    tail_from(s, i)
}

fn starts_use_exec(t: &Vec<char>) -> (r: bool)
    ensures
        r == starts_use(t@),
{
    starts_with_exec(t, "use ") || starts_with_exec(t, "use\t")
}

fn line_declares_use_exec(line: &Vec<char>) -> (r: bool)
    ensures
        r == line_declares_use(line@),
{
    let t = trim_start_chars(line);
    if starts_use_exec(&t) {
        return true;
    }
    if starts_with_exec(&t, "pub") {
        proof {
            reveal_strlit("pub");
        }
        let rest = tail_from(&t, 3);
        let rest = drop_visibility_exec(&rest);
        let rest = trim_start_chars(&rest);
        return starts_use_exec(&rest);
    }
    false
}

/// Whether some line of the authored body opens with a `use` item.
pub fn body_has_use_exec(body: &str) -> (r: bool)
    ensures
        r == body_has_use(body@),
{
    let cs = chars_of(body);
    let lines = split_chars(&cs, '\n');
    let mut i: usize = 0;
    while i < lines.len()
        invariant
            i <= lines.len(),
            views(lines@) == split_seq(body@, '\n'),
            first_match(views(lines@), use_line_pred(), 0) == first_match(views(lines@), use_line_pred(), i as int),
        decreases lines.len() - i,
    {
        proof {
            assert(views(lines@)[i as int] == lines@[i as int]@);
        }
        if line_declares_use_exec(&lines[i]) {
            return true;
        }
        i = i + 1;
    }
    false
}

pub open spec fn block_message() -> Seq<char> {
    "body.rust must be a Rust block expression starting with `{`"@
}

/// What the body check reports: nothing for a block, a migration hint for a whole `fn`.
pub open spec fn body_issue(body: Seq<char>, path: Seq<char>) -> Option<SpecErrorView> {
    if syn_block_accepts(body) {
        None
    } else if syn_item_fn_accepts(body) {
        Some(SpecErrorView::BodyRustLooksLikeFnDeclaration { path })
    } else {
        Some(SpecErrorView::BodyRustMustBeBlock { message: block_message(), path })
    }
}

/// Requires `body.rust` to be a Rust block.
pub fn validate_body_rust_block(spec: &LoadedSpec) -> (r: Result<(), SpecError>)
    ensures
        outcome_is(r, body_issue(spec.spec.body.rust@, spec.source.file_path@)),
{
    let path = spec.source.file_path.clone();
    if block_parse_error(spec.spec.body.rust.as_str()).is_none() {
        Ok(())
    } else if parses_as_item_fn(spec.spec.body.rust.as_str()) {
        Err(SpecError::BodyRustLooksLikeFnDeclaration { path })
    } else {
        Err(SpecError::BodyRustMustBeBlock {
            message: owned("body.rust must be a Rust block expression starting with `{`"),
            path,
        })
    }
}

} // verus!

verus! {

/// The ids of the local tests.
pub open spec fn test_ids(tests: Seq<LocalTest>) -> Seq<Seq<char>> {
    tests.map_values(|t: LocalTest| t.id@)
}

/// Local test `i` repeats an earlier id.
pub open spec fn repeats_earlier_id(tests: Seq<LocalTest>, i: int) -> bool {
    test_ids(tests).take(i).contains(tests[i].id@)
}

/// Local test `i` is refused: a repeated id or an expect expression out of shape.
pub open spec fn local_test_bad_pred(tests: Seq<LocalTest>, allow: bool) -> spec_fn(int) -> bool {
    |i: int| repeats_earlier_id(tests, i) || expect_issue(trim_seq(tests[i].expect@), allow) is Some
}

/// The first refused local test and why.
pub open spec fn local_tests_issue(tests: Seq<LocalTest>, allow: bool, path: Seq<char>) -> Option<SpecErrorView> {
    match first_index(tests.len() as int, local_test_bad_pred(tests, allow), 0) {
        Some(i) => if repeats_earlier_id(tests, i) {
            Some(SpecErrorView::DuplicateLocalTestId { id: tests[i].id@, path })
        } else {
            Some(SpecErrorView::LocalTestExpectNotExpr {
                id: tests[i].id@,
                message: match expect_issue(trim_seq(tests[i].expect@), allow) {
                    Some(issue) => issue.text(),
                    None => Seq::<char>::empty(),
                },
                path,
            })
        },
        None => None,
    }
}

pub fn contains_string(items: &Vec<String>, target: &String) -> (r: bool)
    ensures
        r == views_of_strings(items@).contains(target@),
{
    let mut i: usize = 0;
    while i < items.len()
        invariant
            i <= items.len(),
            forall|k: int| 0 <= k < i ==> items@[k]@ != target@,
        decreases items.len() - i,
    {
        if items[i] == *target {
            proof {
                assert(views_of_strings(items@)[i as int] == target@);
            }
            return true;
        }
        i = i + 1;
    }
    proof {
        if views_of_strings(items@).contains(target@) {
            let k = choose|k: int| 0 <= k < items@.len() && views_of_strings(items@)[k] == target@;
            assert(items@[k]@ == target@);
        }
    }
    false
}

/// Refuses repeated local test ids and expect expressions outside the bounded shape.
pub fn validate_local_test_expects(spec: &LoadedSpec, options: &ValidationOptions) -> (r: Result<(), SpecError>)
    ensures
        outcome_is(r, local_tests_issue(spec.spec.local_tests@, options.allow_unsafe_local_test_expect, spec.source.file_path@)),
{
    let tests = &spec.spec.local_tests;
    let allow = options.allow_unsafe_local_test_expect;
    let mut seen: Vec<String> = Vec::new();
    let mut i: usize = 0;
    while i < tests.len()
        invariant
            i <= tests.len(),
            tests == spec.spec.local_tests,
            allow == options.allow_unsafe_local_test_expect,
            views_of_strings(seen@) == test_ids(tests@).take(i as int),
            first_index(tests@.len() as int, local_test_bad_pred(tests@, allow), 0)
                == first_index(tests@.len() as int, local_test_bad_pred(tests@, allow), i as int),
        decreases tests.len() - i,
    {
        let test = &tests[i];
        if contains_string(&seen, &test.id) {
            return Err(SpecError::DuplicateLocalTestId { id: test.id.clone(), path: spec.source.file_path.clone() });
        }
        let trimmed = string_of(&trim_chars(&chars_of(test.expect.as_str())));
        match check_expect_expr(trimmed.as_str(), allow) {
            Some(issue) => {
                return Err(SpecError::LocalTestExpectNotExpr {
                    id: test.id.clone(),
                    message: issue.message(),
                    path: spec.source.file_path.clone(),
                });
            },
            None => {},
        }
        let ghost before = seen@;
        seen.push(test.id.clone());
        proof {
            assert(views_of_strings(seen@) =~= views_of_strings(before).push(test.id@));
            assert(test_ids(tests@).take(i + 1) =~= test_ids(tests@).take(i as int).push(test.id@));
        }
        i = i + 1;
    }
    Ok(())
}

pub open spec fn input_name_message() -> Seq<char> {
    "use a snake_case identifier (e.g. my_param)"@
}

/// The error for one contract input, if any: its name, then its type.
pub open spec fn input_issue(name: Seq<char>, ty: Seq<char>, field_root: Seq<char>, path: Seq<char>) -> Option<SpecErrorView> {
    if !syn_ident_accepts(name) {
        Some(SpecErrorView::ContractInputNameInvalid { name, message: input_name_message(), path })
    } else {
        match syn_type_outcome(ty) {
            Some(m) => Some(SpecErrorView::ContractTypeInvalid {
                field: field_root + ".inputs."@ + name,
                type_str: ty,
                message: m,
                path,
            }),
            None => None,
        }
    }
}

pub open spec fn input_bad_pred(inputs: Seq<(String, String)>, field_root: Seq<char>, path: Seq<char>) -> spec_fn(int) -> bool {
    |i: int| input_issue(inputs[i].0@, inputs[i].1@, field_root, path) is Some
}

/// The first error among a contract's inputs and return type.
pub open spec fn contract_issue(c: Contract, field_root: Seq<char>, path: Seq<char>) -> Option<SpecErrorView> {
    let inputs = match c.inputs {
        Some(v) => v@,
        None => Seq::<(String, String)>::empty(),
    };
    match first_index(inputs.len() as int, input_bad_pred(inputs, field_root, path), 0) {
        Some(i) => input_issue(inputs[i].0@, inputs[i].1@, field_root, path),
        None => match c.returns {
            Some(ret) => match syn_type_outcome(ret@) {
                Some(m) => Some(SpecErrorView::ContractTypeInvalid {
                    field: field_root + ".returns"@,
                    type_str: ret@,
                    message: m,
                    path,
                }),
                None => None,
            },
            None => None,
        },
    }
}

fn check_input(name: &String, ty: &String, field_root: &str, path: &str) -> (r: Result<(), SpecError>)
    ensures
        outcome_is(r, input_issue(name@, ty@, field_root@, path@)),
{
    if !parses_as_ident(name.as_str()) {
        return Err(SpecError::ContractInputNameInvalid {
            name: name.clone(),
            message: owned("use a snake_case identifier (e.g. my_param)"),
            path: owned(path),
        });
    }
    match type_parse_error(ty.as_str()) {
        Some(message) => {
            let mut field = owned(field_root);
            field.append(".inputs.");
            field.append(name.as_str());
            Err(SpecError::ContractTypeInvalid { field, type_str: ty.clone(), message, path: owned(path) })
        },
        None => Ok(()),
    }
}

/// Requires contract input names to be identifiers and every type to parse.
pub fn validate_contract_types(contract: &Contract, field_root: &str, path: &str) -> (r: Result<(), SpecError>)
    ensures
        outcome_is(r, contract_issue(*contract, field_root@, path@)),
{
    let ghost inputs = match &contract.inputs {
        Some(v) => v@,
        None => Seq::<(String, String)>::empty(),
    };
    if let Some(inputs_vec) = &contract.inputs {
        let mut i: usize = 0;
        while i < inputs_vec.len()
            invariant
                i <= inputs_vec.len(),
                inputs == inputs_vec@,
                contract.inputs matches Some(v) && v@ == inputs,
                first_index(inputs.len() as int, input_bad_pred(inputs, field_root@, path@), 0)
                    == first_index(inputs.len() as int, input_bad_pred(inputs, field_root@, path@), i as int),
            decreases inputs_vec.len() - i,
        {
            let pair = &inputs_vec[i];
            match check_input(&pair.0, &pair.1, field_root, path) {
                Err(e) => {
                    proof {
                        assert(input_bad_pred(inputs, field_root@, path@)(i as int));
                    }
                    return Err(e);
                },
                Ok(()) => {},
            }
            i = i + 1;
        }
    }
    if let Some(ret) = &contract.returns {
        match type_parse_error(ret.as_str()) {
            Some(message) => {
                let mut field = owned(field_root);
                field.append(".returns");
                return Err(SpecError::ContractTypeInvalid { field, type_str: ret.clone(), message, path: owned(path) });
            },
            None => {},
        }
    }
    Ok(())
}

} // verus!

verus! {

/// The first of two outcomes that reports an issue.
pub open spec fn or_else(a: Option<SpecErrorView>, b: Option<SpecErrorView>) -> Option<SpecErrorView> {
    match a {
        Some(e) => Some(e),
        None => b,
    }
}

/// The parsed forms of authored dependencies that all parse.
pub open spec fn parsed_deps(ds: Seq<Seq<char>>) -> Seq<(Option<Seq<char>>, Seq<char>)> {
    ds.map_values(|d: Seq<char>| parsed_of(d))
}

pub open spec fn pair_callables(ps: Seq<(Option<Seq<char>>, Seq<char>)>) -> Seq<Seq<char>> {
    ps.map_values(|p: (Option<Seq<char>>, Seq<char>)| callable_of(p.1))
}

pub open spec fn dep_keyword_pred(ps: Seq<(Option<Seq<char>>, Seq<char>)>) -> spec_fn(int) -> bool {
    |k: int| dep_keyword(ps[k]) is Some
}

/// The first dependency holding a reserved word.
pub open spec fn dep_keywords_issue(ps: Seq<(Option<Seq<char>>, Seq<char>)>, path: Seq<char>) -> Option<SpecErrorView> {
    match first_index(ps.len() as int, dep_keyword_pred(ps), 0) {
        Some(k) => Some(SpecErrorView::RustKeyword {
            segment: dep_keyword(ps[k])->0,
            id: authored_form(ps[k].0, ps[k].1),
            path,
        }),
        None => None,
    }
}

pub open spec fn self_collision_pred(ps: Seq<(Option<Seq<char>>, Seq<char>)>, name: Seq<char>) -> spec_fn(int) -> bool {
    |k: int| callable_of(ps[k].1) == name
}

/// The first dependency whose callable name is the unit's own.
pub open spec fn self_collision_issue(
    ds: Seq<Seq<char>>,
    ps: Seq<(Option<Seq<char>>, Seq<char>)>,
    id: Seq<char>,
    path: Seq<char>,
) -> Option<SpecErrorView> {
    match first_index(ps.len() as int, self_collision_pred(ps, callable_of(id)), 0) {
        Some(k) => Some(SpecErrorView::DepCollision { dep1: ds[k], dep2: id, fn_name: callable_of(id), path }),
        None => None,
    }
}

/// The first two dependencies that project to one callable name.
pub open spec fn pair_collision_issue(ps: Seq<(Option<Seq<char>>, Seq<char>)>, path: Seq<char>) -> Option<SpecErrorView> {
    match first_equal_pair(pair_callables(ps), 0) {
        Some((i, j)) => Some(SpecErrorView::DepCollision {
            dep1: authored_form(ps[i].0, ps[i].1),
            dep2: authored_form(ps[j].0, ps[j].1),
            fn_name: pair_callables(ps)[i],
            path,
        }),
        None => None,
    }
}

/// What a function unit's body, local tests and contract are refused for, in checking order.
pub open spec fn function_body_issue(spec: LoadedSpec, allow: bool) -> Option<SpecErrorView> {
    let path = spec.source.file_path@;
    if body_has_use(spec.spec.body.rust@) {
        Some(SpecErrorView::UseStatementInBody { path })
    } else {
        or_else(
            body_issue(spec.spec.body.rust@, path),
            or_else(
                local_tests_issue(spec.spec.local_tests@, allow, path),
                match spec.spec.contract {
                    Some(c) => contract_issue(c, "contract"@, path),
                    None => None,
                },
            ),
        )
    }
}

/// What a `kind: function` unit is refused for, in checking order.
pub open spec fn function_issue(spec: LoadedSpec, allow: bool) -> Option<SpecErrorView> {
    let ds = views_of_strings(spec.spec.deps@);
    let path = spec.source.file_path@;
    match first_match(ds, dep_invalid_pred(), 0) {
        Some(i) => Some(SpecErrorView::SemanticValidation { message: dep_failure_text(ds[i], failure_of(ds[i])), path }),
        None => {
            let ps = parsed_deps(ds);
            or_else(
                dep_keywords_issue(ps, path),
                or_else(
                    self_collision_issue(ds, ps, spec.spec.id@, path),
                    or_else(pair_collision_issue(ps, path), function_body_issue(spec, allow)),
                ),
            )
        },
    }
}

pub open spec fn dep_pairs(deps: Seq<DepRef>) -> Seq<(Option<Seq<char>>, Seq<char>)> {
    deps.map_values(|d: DepRef| d.view_pair())
}

pub(crate) fn check_dep_keywords(deps: &Vec<DepRef>, path: &str) -> (r: Result<(), SpecError>)
    ensures
        outcome_is(r, dep_keywords_issue(dep_pairs(deps@), path@)),
{
    let ghost ps = dep_pairs(deps@);
    let mut k: usize = 0;
    while k < deps.len()
        invariant
            k <= deps.len(),
            ps == dep_pairs(deps@),
            first_index(ps.len() as int, dep_keyword_pred(ps), 0) == first_index(ps.len() as int, dep_keyword_pred(ps), k as int),
        decreases deps.len() - k,
    {
        proof {
            assert(ps[k as int] == deps@[k as int].view_pair());
        }
        match validate_dep_ref_keywords(&deps[k], path) {
            Err(e) => {
                proof {
                    assert(dep_keyword_pred(ps)(k as int));
                }
                return Err(e);
            },
            Ok(()) => {},
        }
        k = k + 1;
    }
    Ok(())
}

pub(crate) fn check_self_collision(authored: &Vec<String>, deps: &Vec<DepRef>, id: &String, path: &String) -> (r: Result<(), SpecError>)
    requires
        authored@.len() == deps@.len(),
    ensures
        outcome_is(r, self_collision_issue(views_of_strings(authored@), dep_pairs(deps@), id@, path@)),
{
    let ghost ps = dep_pairs(deps@);
    let owner = callable_name(id.as_str());
    let mut k: usize = 0;
    while k < deps.len()
        invariant
            k <= deps.len(),
            authored@.len() == deps@.len(),
            ps == dep_pairs(deps@),
            owner@ == callable_of(id@),
            first_index(ps.len() as int, self_collision_pred(ps, callable_of(id@)), 0)
                == first_index(ps.len() as int, self_collision_pred(ps, callable_of(id@)), k as int),
        decreases deps.len() - k,
    {
        proof {
            assert(ps[k as int] == deps@[k as int].view_pair());
        }
        let name = deps[k].callable_name();
        if name == owner {
            proof {
                assert(self_collision_pred(ps, callable_of(id@))(k as int));
                assert(views_of_strings(authored@)[k as int] == authored@[k as int]@);
            }
            return Err(SpecError::DepCollision {
                dep1: authored[k].clone(),
                dep2: id.clone(),
                fn_name: owner,
                path: path.clone(),
            });
        }
        k = k + 1;
    }
    Ok(())
}

pub(crate) fn check_pair_collision(deps: &Vec<DepRef>, path: &String) -> (r: Result<(), SpecError>)
    ensures
        outcome_is(r, pair_collision_issue(dep_pairs(deps@), path@)),
{
    proof {
        assert(callables_of(deps@) =~= pair_callables(dep_pairs(deps@)));
        lemma_first_equal_pair_bounds(pair_callables(dep_pairs(deps@)), 0);
    }
    match has_dep_ref_collision(deps) {
        Some((i, j)) => {
            proof {
                lemma_first_equal_pair_bounds(pair_callables(dep_pairs(deps@)), 0);
                assert(dep_pairs(deps@)[i as int] == deps@[i as int].view_pair());
                assert(dep_pairs(deps@)[j as int] == deps@[j as int].view_pair());
            }
            Err(SpecError::DepCollision {
                dep1: deps[i].authored(),
                dep2: deps[j].authored(),
                fn_name: deps[i].callable_name(),
                path: path.clone(),
            })
        },
        None => Ok(()),
    }
}

/// Validates a `kind: function` unit: deps, projected names, body, local tests, contract.
pub fn validate_function_semantic(spec: &LoadedSpec, options: &ValidationOptions) -> (r: Result<(), SpecError>)
    ensures
        outcome_is(r, function_issue(*spec, options.allow_unsafe_local_test_expect)),
{
    let ghost ds = views_of_strings(spec.spec.deps@);
    let dep_refs = match parse_dep_refs(&spec.spec.deps) {
        Ok(v) => v,
        Err(e) => {
            proof {
                lemma_first_match_bounds(ds, dep_invalid_pred(), 0);
                let i = first_match(ds, dep_invalid_pred(), 0)->0;
                assert(ds[i] == spec.spec.deps@[i]@);
            }
            return Err(invalid_dep_error(&e, spec));
        },
    };
    proof {
        assert(dep_pairs(dep_refs@) =~= parsed_deps(ds));
    }
    let path = &spec.source.file_path;
    match check_dep_keywords(&dep_refs, path.as_str()) {
        Err(e) => {
            return Err(e);
        },
        Ok(()) => {},
    }
    match check_self_collision(&spec.spec.deps, &dep_refs, &spec.spec.id, path) {
        Err(e) => {
            return Err(e);
        },
        Ok(()) => {},
    }
    match check_pair_collision(&dep_refs, path) {
        Err(e) => {
            return Err(e);
        },
        Ok(()) => {},
    }
    if body_has_use_exec(spec.spec.body.rust.as_str()) {
        return Err(SpecError::UseStatementInBody { path: path.clone() });
    }
    match validate_body_rust_block(spec) {
        Err(e) => {
            return Err(e);
        },
        Ok(()) => {},
    }
    match validate_local_test_expects(spec, options) {
        Err(e) => {
            return Err(e);
        },
        Ok(()) => {},
    }
    match &spec.spec.contract {
        Some(c) => validate_contract_types(c, "contract", path.as_str()),
        None => Ok(()),
    }
}

} // verus!

verus! {

/// What a unit is refused for: a reserved word or reserved segment in its id, an
/// unknown kind, then the checks of its kind.
pub open spec fn semantic_issue(spec: LoadedSpec, allow: bool) -> Option<SpecErrorView> {
    let id = spec.spec.id@;
    let path = spec.source.file_path@;
    match keyword_segment(id) {
        Some(seg) => Some(SpecErrorView::RustKeyword { segment: seg, id, path }),
        None => match reserved_segment(id) {
            Some(seg) => Some(SpecErrorView::ReservedUnitName { segment: seg, path }),
            None => match kind_of(spec.spec.kind@) {
                None => Some(SpecErrorView::SemanticValidation { message: unknown_kind_text(spec.spec.kind@), path }),
                Some(UnitKind::Function) => function_issue(spec, allow),
                Some(UnitKind::Data) => data_issue(spec, allow),
                Some(UnitKind::Sum) => sum_issue(spec, allow),
            },
        },
    }
}

/// A data unit that semantic validation accepts initializes fields only from its
/// constructors' declared inputs: every `initializes` entry of every constructor targets a
/// field of the data unit and names an input that the constructor's `contract.inputs`
/// declares.
pub proof fn lemma_accepted_data_initializers_read_declared_inputs(spec: LoadedSpec, allow: bool, i: int, k: int)
    requires
        kind_of(spec.spec.kind@) == Some(UnitKind::Data),
        semantic_issue(spec, allow) is None,
        0 <= i < spec.spec.extensions.constructors@.len(),
        0 <= k < spec.spec.extensions.constructors@[i].initializes@.len(),
    ensures
        data_field_names(spec).contains(spec.spec.extensions.constructors@[i].initializes@[k].0@),
        spec.spec.extensions.constructors@[i].contract matches Some(ct) && ct.inputs matches Some(inputs) && exists|
            t: int,
        |
            0 <= t < inputs@.len() && (#[trigger] inputs@[t]).0@ == spec.spec.extensions.constructors@[i].initializes@[k].1@,
{
    let cs = spec.spec.extensions.constructors@;
    let c = cs[i];
    assert(data_issue(spec, allow) is None);
    assert(constructors_issue(spec) is None);
    lemma_first_index(cs.len() as int, constructor_bad_pred(spec), 0);
    assert(!constructor_bad_pred(spec)(i));
    let root = crate::seam::indexed("constructors"@, i as nat, ""@);
    assert(init_issue(spec, c, root) is None);
    lemma_first_index(c.initializes@.len() as int, init_bad_pred(spec, c, root), 0);
    assert(!init_bad_pred(spec, c, root)(k));
    let input = c.initializes@[k].1@;
    assert(init_entry_issue(spec, c, root, c.initializes@[k].0@, input) is None);
    let inputs = c.contract->Some_0.inputs->Some_0;
    let keys = pair_keys(inputs@);
    assert(keys.contains(input));
    let t = choose|t: int| 0 <= t < keys.len() && keys[t] == input;
    assert(inputs@[t].0@ == input);
}

proof fn lemma_no_missing_fields(names: Seq<Seq<char>>, init: Seq<Seq<char>>)
    requires
        missing_fields(names, init).len() == 0,
    ensures
        forall|t: int| 0 <= t < names.len() ==> init.contains(#[trigger] names[t]),
    decreases names.len(),
{
    if names.len() > 0 {
        lemma_no_missing_fields(names.drop_last(), init);
        assert forall|t: int| 0 <= t < names.len() implies init.contains(#[trigger] names[t]) by {
            if t < names.len() - 1 {
                assert(names.drop_last()[t] == names[t]);
            }
        }
    }
}

/// Each constructor of a data unit that semantic validation accepts initializes every
/// field of the unit, has an id that is no Rust keyword, and does not override the return
/// shape in its contract.
pub proof fn lemma_accepted_data_constructors_initialize_every_field(spec: LoadedSpec, allow: bool, i: int)
    requires
        kind_of(spec.spec.kind@) == Some(UnitKind::Data),
        semantic_issue(spec, allow) is None,
        0 <= i < spec.spec.extensions.constructors@.len(),
    ensures
        forall|t: int|
            0 <= t < data_field_names(spec).len() ==> pair_keys(spec.spec.extensions.constructors@[i].initializes@).contains(
                #[trigger] data_field_names(spec)[t],
            ),
        !is_rust_keyword(spec.spec.extensions.constructors@[i].id@),
        spec.spec.extensions.constructors@[i].contract matches Some(ct) ==> ct.returns is None,
{
    let cs = spec.spec.extensions.constructors@;
    let c = cs[i];
    assert(data_issue(spec, allow) is None);
    assert(constructors_issue(spec) is None);
    lemma_first_index(cs.len() as int, constructor_bad_pred(spec), 0);
    assert(!constructor_bad_pred(spec)(i));
    lemma_no_missing_fields(data_field_names(spec), pair_keys(c.initializes@));
}

/// The constructors of a data unit that semantic validation accepts have distinct ids.
pub proof fn lemma_accepted_data_constructors_distinct(spec: LoadedSpec, allow: bool, i: int, h: int)
    requires
        kind_of(spec.spec.kind@) == Some(UnitKind::Data),
        semantic_issue(spec, allow) is None,
        0 <= h < i < spec.spec.extensions.constructors@.len(),
    ensures
        spec.spec.extensions.constructors@[h].id@ != spec.spec.extensions.constructors@[i].id@,
{
    let cs = spec.spec.extensions.constructors@;
    assert(data_issue(spec, allow) is None);
    assert(constructors_issue(spec) is None);
    lemma_first_index(cs.len() as int, constructor_bad_pred(spec), 0);
    assert(!constructor_bad_pred(spec)(i));
    assert(constructor_ids(cs).take(i)[h] == cs[h].id@);
}

/// Semantic validation of one unit with explicit options.
pub fn validate_semantic_with_options(spec: &LoadedSpec, options: &ValidationOptions) -> (r: Result<(), SpecError>)
    ensures
        outcome_is(r, semantic_issue(*spec, options.allow_unsafe_local_test_expect)),
{
    match validate_rust_keywords(spec.spec.id.as_str(), spec.source.file_path.as_str()) {
        Err(e) => {
            return Err(e);
        },
        Ok(()) => {},
    }
    match validate_reserved_spec_id_segments(spec.spec.id.as_str(), spec.source.file_path.as_str()) {
        Err(e) => {
            return Err(e);
        },
        Ok(()) => {},
    }
    match unit_kind(spec) {
        Err(message) => Err(semantic_error(spec, message)),
        Ok(UnitKind::Function) => validate_function_semantic(spec, options),
        Ok(UnitKind::Data) => validate_data_semantic(spec, options),
        Ok(UnitKind::Sum) => validate_sum_semantic(spec, options),
    }
}

/// Semantic validation with strict options.
pub fn validate_semantic(spec: &LoadedSpec) -> (r: Result<(), SpecError>)
    ensures
        outcome_is(r, semantic_issue(*spec, false)),
{
    validate_semantic_with_options(spec, &ValidationOptions::strict())
}

/// Validation of one loaded unit with explicit options: its semantic checks. This does
/// not run the JSON-schema stage that comes first in full validation (the schema and
/// its validator are not part of this library), so a unit the schema would refuse is
/// judged here on its semantics alone.
pub fn validate_full_with_options(spec: &LoadedSpec, options: &ValidationOptions) -> (r: Result<(), SpecError>)
    ensures
        outcome_is(r, semantic_issue(*spec, options.allow_unsafe_local_test_expect)),
{
    validate_semantic_with_options(spec, options)
}

/// [`validate_full_with_options`] with strict options; the JSON-schema stage is not run.
pub fn validate_full(spec: &LoadedSpec) -> (r: Result<(), SpecError>)
    ensures
        outcome_is(r, semantic_issue(*spec, false)),
{
    validate_full_with_options(spec, &ValidationOptions::strict())
}

} // verus!

verus! {

/// Why molecule tests cannot target TypeScript.
pub const TYPESCRIPT_MOLECULE_UNSUPPORTED_MESSAGE: &'static str = ".test.spec is not supported for --target-language typescript in M52; molecule tests remain Rust-only";

/// Molecule tests stay Rust-only: a TypeScript target refuses every one of them.
pub fn validate_typescript_molecule_target(test: &LoadedMoleculeTest) -> (r: Result<(), SpecError>)
    ensures
        r matches Err(e) && e@ == (SpecErrorView::SemanticValidation {
            message: TYPESCRIPT_MOLECULE_UNSUPPORTED_MESSAGE@,
            path: test.source.file_path@,
        }),
{
    Err(SpecError::SemanticValidation {
        message: owned(TYPESCRIPT_MOLECULE_UNSUPPORTED_MESSAGE),
        path: test.source.file_path.clone(),
    })
}

/// A dep that decides the lane: one that does not parse, or one that names a library.
pub open spec fn lane_deciding_pred() -> spec_fn(Seq<char>) -> bool {
    |d: Seq<char>| match parse_dep(d) {
        Err(_) => true,
        Ok(p) => p.0 is Some,
    }
}

/// The unit stays on the same-tree local lane when none of its deps names a library;
/// the first dep that does not parse, before any aliased one, is an error.
pub open spec fn local_graph_lane(spec: LoadedSpec) -> Result<bool, SpecErrorView> {
    let ds = views_of_strings(spec.spec.deps@);
    match first_match(ds, lane_deciding_pred(), 0) {
        Some(k) => match parse_dep(ds[k]) {
            Err(f) => Err(SpecErrorView::SemanticValidation { message: dep_failure_text(ds[k], f), path: spec.source.file_path@ }),
            Ok(_) => Ok(false),
        },
        None => Ok(true),
    }
}

pub fn typescript_target_uses_local_graph_lane(spec: &LoadedSpec) -> (r: Result<bool, SpecError>)
    ensures
        match local_graph_lane(*spec) {
            Ok(b) => r == Ok::<bool, SpecError>(b),
            Err(v) => r matches Err(e) && e@ == v,
        },
{
    let deps = &spec.spec.deps;
    let ghost ds = views_of_strings(deps@);
    let mut i: usize = 0;
    while i < deps.len()
        invariant
            i <= deps@.len(),
            deps@ == spec.spec.deps@,
            ds == views_of_strings(deps@),
            first_match(ds, lane_deciding_pred(), 0) == first_match(ds, lane_deciding_pred(), i as int),
        decreases deps@.len() - i,
    {
        proof {
            assert(ds[i as int] == deps@[i as int]@);
        }
        match DepRef::parse(deps[i].as_str()) {
            Err(e) => {
                return Err(semantic_error(spec, e.message()));
            },
            Ok(d) => {
                if d.library_alias.is_some() {
                    return Ok(false);
                }
            },
        }
        i = i + 1;
    }
    Ok(true)
}

} // verus!
