//! Semantic validation of shared-seam units: `kind: data` and `kind: sum`.
use vstd::prelude::*;
use crate::errors::{views_of_strings, SpecError, SpecErrorView};
use crate::model::{AuthoredConstructor, AuthoredField, AuthoredMethod, AuthoredSumVariant, LoadedSpec};
use crate::rust_syntax::{parses_as_ident, path_parse_error, syn_ident_accepts, syn_path_outcome, syn_type_outcome, type_parse_error};
use crate::text::{chars_of, first_index, lemma_split_nonempty, owned, push_char, split_chars, split_seq, string_of, trim_chars, trim_seq};
use crate::unit_ref::{callable_name, callable_of, is_rust_keyword, is_rust_keyword_exec};
use crate::validator::{
    check_dep_keywords, check_pair_collision, check_self_collision, contains_string, contract_issue, dep_invalid_pred,
    dep_keywords_issue, dep_pairs, failure_of, or_else, outcome_is, pair_collision_issue, parse_dep_refs, parsed_deps,
    self_collision_issue, validate_contract_types,
};
use crate::text::{first_match, lemma_first_match_bounds, str_eq};
use crate::unit_ref::dep_failure_text;
use crate::graph::{lemma_unique_extend_append, lemma_unique_extend_empty, method_dep_seq, ordered_unique, push_all_unique, unique_extend};
use crate::validator::{eq_pred, find_equal_from, local_tests_issue, validate_local_test_expects, ValidationOptions};
use crate::rust_syntax::{block_parse_error, syn_block_outcome};

verus! {

/// The ASCII uppercase form of `c`; other characters stay.
pub open spec fn upper(c: char) -> char {
    if 'a' <= c && c <= 'z' {
        ((c as u32) - 32) as char
    } else {
        c
    }
}

fn upper_exec(c: char) -> (r: char)
    ensures
        r == upper(c),
{
    if 'a' <= c && c <= 'z' {
        let b: u8 = c as u8;
        let u: u8 = b - 32;
        u as char
    } else {
        c
    }
}

/// The decimal digit `d`.
pub open spec fn digit_char(d: nat) -> char {
    ((d + 48) as u8) as char
}

/// The decimal form of `n`, as `format!("{n}")` writes it.
pub open spec fn decimal(n: nat) -> Seq<char>
    decreases n,
{
    if n < 10 {
        seq![digit_char(n)]
    } else {
        decimal(n / 10).push(digit_char(n % 10))
    }
}

pub fn decimal_string(n: usize) -> (r: String)
    ensures
        r@ == decimal(n as nat),
    decreases n,
{
    let d: u8 = (n % 10) as u8;
    let c: char = (d + 48) as char;
    if n < 10 {
        let mut s = String::new();
        push_char(&mut s, c);
        proof {
            assert(s@ =~= seq![digit_char(n as nat)]);
        }
        s
    } else {
        let mut s = decimal_string(n / 10);
        push_char(&mut s, c);
        s
    }
}

pub fn decimal_u64_string(n: u64) -> (r: String)
    ensures
        r@ == decimal(n as nat),
    decreases n,
{
    let d: u8 = (n % 10) as u8;
    let c: char = (d + 48) as char;
    if n < 10 {
        let mut s = String::new();
        push_char(&mut s, c);
        proof {
            assert(s@ =~= seq![digit_char(n as nat)]);
        }
        s
    } else {
        let mut s = decimal_u64_string(n / 10);
        push_char(&mut s, c);
        s
    }
}

/// `root[i]rest`.
pub open spec fn indexed(root: Seq<char>, i: nat, rest: Seq<char>) -> Seq<char> {
    root + "["@ + decimal(i) + "]"@ + rest
}

pub fn indexed_string(root: &str, i: usize, rest: &str) -> (r: String)
    ensures
        r@ == indexed(root@, i as nat, rest@),
{
    let mut s = owned(root);
    s.append("[");
    let d = decimal_string(i);
    s.append(d.as_str());
    s.append("]");
    s.append(rest);
    s
}

/// `w` with its first character in uppercase.
pub open spec fn cap_word(w: Seq<char>) -> Seq<char> {
    if w.len() == 0 {
        w
    } else {
        seq![upper(w[0])] + w.drop_first()
    }
}

pub open spec fn join_caps(parts: Seq<Seq<char>>) -> Seq<char>
    decreases parts.len(),
{
    if parts.len() == 0 {
        Seq::empty()
    } else {
        join_caps(parts.drop_last()) + cap_word(parts.last())
    }
}

/// The PascalCase type name of a snake_case identifier: each `_`-separated word
/// capitalized, empty words dropped.
pub open spec fn pascal(s: Seq<char>) -> Seq<char> {
    join_caps(split_seq(s, '_'))
}

pub fn pascal_string(s: &str) -> (r: String)
    ensures
        r@ == pascal(s@),
{
    let cs = chars_of(s);
    let parts = split_chars(&cs, '_');
    let mut out = String::new();
    let mut i: usize = 0;
    while i < parts.len()
        invariant
            i <= parts@.len(),
            crate::text::views(parts@) == split_seq(s@, '_'),
            out@ == join_caps(crate::text::views(parts@).take(i as int)),
        decreases parts@.len() - i,
    {
        let w = &parts[i];
        let ghost before = out@;
        if w.len() > 0 {
            push_char(&mut out, upper_exec(w[0]));
            let mut k: usize = 1;
            while k < w.len()
                invariant
                    1 <= k <= w@.len(),
                    out@ == before + seq![upper(w@[0])] + w@.subrange(1, k as int),
                decreases w@.len() - k,
            {
                let ghost b2 = out@;
                push_char(&mut out, w[k]);
                proof {
                    assert(out@ =~= before + seq![upper(w@[0])] + w@.subrange(1, k + 1));
                }
                k = k + 1;
            }
        }
        proof {
            let vs = crate::text::views(parts@);
            assert(vs.take(i + 1).drop_last() =~= vs.take(i as int));
            assert(vs.take(i + 1).last() == w@);
            if w@.len() > 0 {
                assert(w@.subrange(1, w@.len() as int) =~= w@.drop_first());
            }
            assert(out@ =~= before + cap_word(w@));
        }
        i = i + 1;
    }
    proof {
        assert(crate::text::views(parts@).take(parts@.len() as int) =~= crate::text::views(parts@));
    }
    out
}

/// The pieces joined by `, `.
pub open spec fn join_commas(parts: Seq<Seq<char>>) -> Seq<char>
    decreases parts.len(),
{
    if parts.len() == 0 {
        Seq::empty()
    } else if parts.len() == 1 {
        parts[0]
    } else {
        join_commas(parts.drop_last()) + ", "@ + parts.last()
    }
}

pub fn join_commas_string(parts: &Vec<String>) -> (r: String)
    ensures
        r@ == join_commas(views_of_strings(parts@)),
{
    let mut out = String::new();
    let mut i: usize = 0;
    while i < parts.len()
        invariant
            i <= parts@.len(),
            out@ == join_commas(views_of_strings(parts@.take(i as int))),
        decreases parts@.len() - i,
    {
        proof {
            assert(views_of_strings(parts@.take(i + 1)).drop_last() =~= views_of_strings(parts@.take(i as int)));
            assert(views_of_strings(parts@.take(i + 1)).last() == parts@[i as int]@);
        }
        if i > 0 {
            out.append(", ");
        } else {
            proof {
                assert(views_of_strings(parts@.take(0)) =~= Seq::<Seq<char>>::empty());
            }
        }
        out.append(parts[i].as_str());
        i = i + 1;
    }
    proof {
        assert(parts@.take(parts@.len() as int) =~= parts@);
    }
    out
}

} // verus!

verus! {

/// A semantic error at the unit's file.
pub open spec fn sem(spec: LoadedSpec, message: Seq<char>) -> Option<SpecErrorView> {
    Some(SpecErrorView::SemanticValidation { message, path: spec.source.file_path@ })
}

fn sem_err(spec: &LoadedSpec, message: String) -> (r: SpecError)
    ensures
        Some(r@) == sem(*spec, message@),
{
    SpecError::SemanticValidation { message, path: spec.source.file_path.clone() }
}

/// `kind:<kind><rule>`: a top-level section that a shared seam may not use.
pub open spec fn shape_message(kind: Seq<char>, rule: Seq<char>) -> Seq<char> {
    "kind:"@ + kind + rule
}

fn shape_message_string(kind: &str, rule: &str) -> (r: String)
    ensures
        r@ == shape_message(kind@, rule@),
{
    let mut m = owned("kind:");
    m.append(kind);
    m.append(rule);
    m
}

/// The top-level sections a shared seam must leave empty: contract, deps, imports,
/// `body.typescript`, and a non-blank `body.rust`.
pub open spec fn shared_shape_issue(spec: LoadedSpec, kind: Seq<char>) -> Option<SpecErrorView> {
    if spec.spec.contract is Some {
        sem(spec, shape_message(kind, " must not declare top-level contract"@))
    } else if spec.spec.deps@.len() > 0 {
        sem(spec, shape_message(kind, " must not declare top-level deps"@))
    } else if spec.spec.imports@.len() > 0 {
        sem(spec, shape_message(kind, " must not declare top-level imports"@))
    } else if spec.spec.body.typescript is Some {
        sem(spec, shape_message(kind, " must not declare top-level body.typescript"@))
    } else if trim_seq(spec.spec.body.rust@).len() > 0 {
        sem(spec, shape_message(kind, " must leave top-level body.rust empty"@))
    } else {
        None
    }
}

fn validate_shared_seam_authored_shape(spec: &LoadedSpec, kind: &str) -> (r: Result<(), SpecError>)
    ensures
        outcome_is(r, shared_shape_issue(*spec, kind@)),
{
    if spec.spec.contract.is_some() {
        return Err(sem_err(spec, shape_message_string(kind, " must not declare top-level contract")));
    }
    if spec.spec.deps.len() > 0 {
        return Err(sem_err(spec, shape_message_string(kind, " must not declare top-level deps")));
    }
    if spec.spec.imports.len() > 0 {
        return Err(sem_err(spec, shape_message_string(kind, " must not declare top-level imports")));
    }
    if spec.spec.body.typescript.is_some() {
        return Err(sem_err(spec, shape_message_string(kind, " must not declare top-level body.typescript")));
    }
    let rust = chars_of(spec.spec.body.rust.as_str());
    let trimmed = trim_chars(&rust);
    if trimmed.len() > 0 {
        return Err(sem_err(spec, shape_message_string(kind, " must leave top-level body.rust empty")));
    }
    Ok(())
}

/// A sum seam additionally declares neither data fields nor constructors.
pub open spec fn sum_escape_issue(spec: LoadedSpec) -> Option<SpecErrorView> {
    or_else(
        shared_shape_issue(spec, "sum"@),
        if spec.spec.extensions.data is Some {
            sem(spec, shape_message("sum"@, " must not declare data.fields"@))
        } else if spec.spec.extensions.constructors@.len() > 0 {
            sem(spec, shape_message("sum"@, " must not declare constructors"@))
        } else {
            None
        },
    )
}

fn validate_sum_escape_hatches(spec: &LoadedSpec) -> (r: Result<(), SpecError>)
    ensures
        outcome_is(r, sum_escape_issue(*spec)),
{
    match validate_shared_seam_authored_shape(spec, "sum") {
        Err(e) => {
            return Err(e);
        },
        Ok(()) => {},
    }
    if spec.spec.extensions.data.is_some() {
        return Err(sem_err(spec, shape_message_string("sum", " must not declare data.fields")));
    }
    if spec.spec.extensions.constructors.len() > 0 {
        return Err(sem_err(spec, shape_message_string("sum", " must not declare constructors")));
    }
    Ok(())
}

/// What one named field is refused for: a reserved name, a name that is no
/// identifier, or a type that does not parse.
pub open spec fn field_issue(name: Seq<char>, ty: Seq<char>, root: Seq<char>, path: Seq<char>) -> Option<SpecErrorView> {
    if is_rust_keyword(name) {
        Some(SpecErrorView::RustKeyword { segment: name, id: name, path })
    } else if !syn_ident_accepts(name) {
        Some(SpecErrorView::SemanticValidation {
            message: root + "."@ + name + " must use a snake_case identifier (e.g. subtotal)"@,
            path,
        })
    } else {
        match syn_type_outcome(ty) {
            Some(m) => Some(SpecErrorView::ContractTypeInvalid { field: root + "."@ + name + ".type"@, type_str: ty, message: m, path }),
            None => None,
        }
    }
}

pub open spec fn field_bad_pred(fields: Seq<(String, AuthoredField)>, root: Seq<char>, path: Seq<char>) -> spec_fn(int) -> bool {
    |i: int| field_issue(fields[i].0@, fields[i].1.type_@, root, path) is Some
}

/// The first refused field, in authored order.
pub open spec fn fields_issue(fields: Seq<(String, AuthoredField)>, root: Seq<char>, path: Seq<char>) -> Option<SpecErrorView> {
    match first_index(fields.len() as int, field_bad_pred(fields, root, path), 0) {
        Some(i) => field_issue(fields[i].0@, fields[i].1.type_@, root, path),
        None => None,
    }
}

fn check_field(name: &String, ty: &String, root: &str, path: &String) -> (r: Result<(), SpecError>)
    ensures
        outcome_is(r, field_issue(name@, ty@, root@, path@)),
{
    if is_rust_keyword_exec(name.as_str()) {
        return Err(SpecError::RustKeyword { segment: name.clone(), id: name.clone(), path: path.clone() });
    }
    if !parses_as_ident(name.as_str()) {
        let mut m = owned(root);
        m.append(".");
        m.append(name.as_str());
        m.append(" must use a snake_case identifier (e.g. subtotal)");
        return Err(SpecError::SemanticValidation { message: m, path: path.clone() });
    }
    match type_parse_error(ty.as_str()) {
        Some(message) => {
            let mut field = owned(root);
            field.append(".");
            field.append(name.as_str());
            field.append(".type");
            Err(SpecError::ContractTypeInvalid { field, type_str: ty.clone(), message, path: path.clone() })
        },
        None => Ok(()),
    }
}

fn validate_named_fields(fields: &Vec<(String, AuthoredField)>, root: &str, path: &String) -> (r: Result<(), SpecError>)
    ensures
        outcome_is(r, fields_issue(fields@, root@, path@)),
{
    let mut i: usize = 0;
    while i < fields.len()
        invariant
            i <= fields@.len(),
            first_index(fields@.len() as int, field_bad_pred(fields@, root@, path@), 0)
                == first_index(fields@.len() as int, field_bad_pred(fields@, root@, path@), i as int),
        decreases fields@.len() - i,
    {
        let f = &fields[i];
        match check_field(&f.0, &f.1.type_, root, path) {
            Err(e) => {
                proof {
                    assert(field_bad_pred(fields@, root@, path@)(i as int));
                }
                return Err(e);
            },
            Ok(()) => {},
        }
        i = i + 1;
    }
    Ok(())
}

/// A data seam declares its fields, each acceptable.
pub open spec fn data_fields_issue(spec: LoadedSpec) -> Option<SpecErrorView> {
    match spec.spec.extensions.data {
        None => sem(spec, "kind:data requires data.fields"@),
        Some(d) => fields_issue(d.fields@, "data.fields"@, spec.source.file_path@),
    }
}

fn validate_data_fields(spec: &LoadedSpec) -> (r: Result<(), SpecError>)
    ensures
        outcome_is(r, data_fields_issue(*spec)),
{
    match &spec.spec.extensions.data {
        None => Err(sem_err(spec, owned("kind:data requires data.fields"))),
        Some(d) => validate_named_fields(&d.fields, "data.fields", &spec.source.file_path),
    }
}

/// A data seam has at least one constructor and one method.
pub open spec fn data_behavior_issue(spec: LoadedSpec) -> Option<SpecErrorView> {
    if spec.spec.extensions.constructors@.len() == 0 {
        sem(spec, "kind:data requires at least one constructor"@)
    } else if spec.spec.extensions.methods@.len() == 0 {
        sem(spec, "kind:data requires at least one method"@)
    } else {
        None
    }
}

fn validate_data_behavior_presence(spec: &LoadedSpec) -> (r: Result<(), SpecError>)
    ensures
        outcome_is(r, data_behavior_issue(*spec)),
{
    if spec.spec.extensions.constructors.len() == 0 {
        return Err(sem_err(spec, owned("kind:data requires at least one constructor")));
    }
    if spec.spec.extensions.methods.len() == 0 {
        return Err(sem_err(spec, owned("kind:data requires at least one method")));
    }
    Ok(())
}

/// The derives a seam asks of its Rust backend; none when it names no backend.
pub open spec fn derives_of(spec: LoadedSpec) -> Seq<String> {
    match spec.spec.extensions.backends {
        Some(b) => match b.rust {
            Some(r) => r.derives@,
            None => Seq::empty(),
        },
        None => Seq::empty(),
    }
}

pub open spec fn derive_bad_pred(derives: Seq<String>) -> spec_fn(int) -> bool {
    |i: int| syn_path_outcome(derives[i]@) is Some
}

/// The first derive that is not a Rust path.
pub open spec fn backend_issue(spec: LoadedSpec) -> Option<SpecErrorView> {
    let ds = derives_of(spec);
    match first_index(ds.len() as int, derive_bad_pred(ds), 0) {
        Some(i) => sem(
            spec,
            indexed("backends.rust.derives"@, i as nat, " must be a valid Rust path; got '"@) + ds[i]@ + "': "@
                + syn_path_outcome(ds[i]@)->0,
        ),
        None => None,
    }
}

fn check_derives(spec: &LoadedSpec, derives: &Vec<String>) -> (r: Result<(), SpecError>)
    requires
        derives@ == derives_of(*spec),
    ensures
        outcome_is(r, backend_issue(*spec)),
{
    let ghost ds = derives@;
    let mut i: usize = 0;
    while i < derives.len()
        invariant
            i <= derives@.len(),
            ds == derives@,
            ds == derives_of(*spec),
            first_index(ds.len() as int, derive_bad_pred(ds), 0) == first_index(ds.len() as int, derive_bad_pred(ds), i as int),
        decreases derives@.len() - i,
    {
        match path_parse_error(derives[i].as_str()) {
            Some(err) => {
                proof {
                    assert(derive_bad_pred(ds)(i as int));
                }
                let mut m = indexed_string("backends.rust.derives", i, " must be a valid Rust path; got '");
                m.append(derives[i].as_str());
                m.append("': ");
                m.append(err.as_str());
                return Err(sem_err(spec, m));
            },
            None => {},
        }
        i = i + 1;
    }
    Ok(())
}

fn validate_seam_rust_backend(spec: &LoadedSpec) -> (r: Result<(), SpecError>)
    ensures
        outcome_is(r, backend_issue(*spec)),
{
    match &spec.spec.extensions.backends {
        Some(b) => match &b.rust {
            Some(rust) => check_derives(spec, &rust.derives),
            None => {
                let empty: Vec<String> = Vec::new();
                proof {
                    assert(empty@ =~= derives_of(*spec));
                }
                check_derives(spec, &empty)
            },
        },
        None => {
            let empty: Vec<String> = Vec::new();
            proof {
                assert(empty@ =~= derives_of(*spec));
            }
            check_derives(spec, &empty)
        },
    }
}

} // verus!

verus! {

pub open spec fn data_field_names(spec: LoadedSpec) -> Seq<Seq<char>> {
    match spec.spec.extensions.data {
        Some(d) => d.fields@.map_values(|f: (String, AuthoredField)| f.0@),
        None => Seq::empty(),
    }
}

pub open spec fn pair_keys(pairs: Seq<(String, String)>) -> Seq<Seq<char>> {
    pairs.map_values(|p: (String, String)| p.0@)
}

/// The fields of `names` that `init` does not initialize, in field order.
pub open spec fn missing_fields(names: Seq<Seq<char>>, init: Seq<Seq<char>>) -> Seq<Seq<char>>
    decreases names.len(),
{
    if names.len() == 0 {
        Seq::empty()
    } else {
        let prev = missing_fields(names.drop_last(), init);
        if init.contains(names.last()) {
            prev
        } else {
            prev.push(names.last())
        }
    }
}

/// What one `initializes` entry is refused for.
pub open spec fn init_entry_issue(
    spec: LoadedSpec,
    c: AuthoredConstructor,
    root: Seq<char>,
    field: Seq<char>,
    input: Seq<char>,
) -> Option<SpecErrorView> {
    if !data_field_names(spec).contains(field) {
        sem(spec, root + ".initializes."@ + field + " targets an unknown data field"@)
    } else {
        match c.contract {
            None => sem(spec, root + " must declare contract.inputs for initializes."@ + field),
            Some(k) => match k.inputs {
                None => sem(spec, root + " must declare contract.inputs for initializes."@ + field),
                Some(inputs) => if !pair_keys(inputs@).contains(input) {
                    sem(spec, root + ".initializes."@ + field + " references unknown input '"@ + input + "'"@)
                } else {
                    None
                },
            },
        }
    }
}

pub open spec fn init_bad_pred(spec: LoadedSpec, c: AuthoredConstructor, root: Seq<char>) -> spec_fn(int) -> bool {
    |k: int| init_entry_issue(spec, c, root, c.initializes@[k].0@, c.initializes@[k].1@) is Some
}

pub open spec fn init_issue(spec: LoadedSpec, c: AuthoredConstructor, root: Seq<char>) -> Option<SpecErrorView> {
    match first_index(c.initializes@.len() as int, init_bad_pred(spec, c, root), 0) {
        Some(k) => init_entry_issue(spec, c, root, c.initializes@[k].0@, c.initializes@[k].1@),
        None => None,
    }
}

/// What a constructor's own contract is refused for: its types, then a return override.
pub open spec fn constructor_contract_issue(spec: LoadedSpec, c: AuthoredConstructor, root: Seq<char>) -> Option<SpecErrorView> {
    match c.contract {
        Some(k) => or_else(
            contract_issue(k, root + ".contract"@, spec.source.file_path@),
            if k.returns is Some {
                sem(spec, root + ".contract.returns is not allowed; constructor return shape is shared semantics"@)
            } else {
                None
            },
        ),
        None => None,
    }
}

pub open spec fn constructor_ids(cs: Seq<AuthoredConstructor>) -> Seq<Seq<char>> {
    cs.map_values(|c: AuthoredConstructor| c.id@)
}

/// What constructor `i` is refused for, in checking order.
pub open spec fn constructor_issue(spec: LoadedSpec, i: int) -> Option<SpecErrorView> {
    let cs = spec.spec.extensions.constructors@;
    let c = cs[i];
    let root = indexed("constructors"@, i as nat, ""@);
    let missing = missing_fields(data_field_names(spec), pair_keys(c.initializes@));
    if constructor_ids(cs).take(i).contains(c.id@) {
        sem(spec, "duplicate constructor id '"@ + c.id@ + "' at "@ + root)
    } else if is_rust_keyword(c.id@) {
        Some(SpecErrorView::RustKeyword { segment: c.id@, id: c.id@, path: spec.source.file_path@ })
    } else if constructor_contract_issue(spec, c, root) is Some {
        constructor_contract_issue(spec, c, root)
    } else if missing.len() > 0 {
        sem(spec, root + " omits required field initialization for: "@ + join_commas(missing))
    } else {
        init_issue(spec, c, root)
    }
}

pub open spec fn constructor_bad_pred(spec: LoadedSpec) -> spec_fn(int) -> bool {
    |i: int| constructor_issue(spec, i) is Some
}

/// The first refused constructor.
pub open spec fn constructors_issue(spec: LoadedSpec) -> Option<SpecErrorView> {
    match first_index(spec.spec.extensions.constructors@.len() as int, constructor_bad_pred(spec), 0) {
        Some(i) => constructor_issue(spec, i),
        None => None,
    }
}

fn keys_of_pairs(pairs: &Vec<(String, String)>) -> (r: Vec<String>)
    ensures
        views_of_strings(r@) == pair_keys(pairs@),
{
    let mut out: Vec<String> = Vec::new();
    let mut i: usize = 0;
    while i < pairs.len()
        invariant
            i <= pairs@.len(),
            views_of_strings(out@) == pair_keys(pairs@.take(i as int)),
        decreases pairs@.len() - i,
    {
        let ghost before = out@;
        out.push(pairs[i].0.clone());
        proof {
            assert(views_of_strings(out@) =~= views_of_strings(before).push(pairs@[i as int].0@));
            assert(pair_keys(pairs@.take(i + 1)) =~= pair_keys(pairs@.take(i as int)).push(pairs@[i as int].0@));
        }
        i = i + 1;
    }
    proof {
        assert(pairs@.take(pairs@.len() as int) =~= pairs@);
    }
    out
}

fn field_names_of(spec: &LoadedSpec) -> (r: Vec<String>)
    ensures
        views_of_strings(r@) == data_field_names(*spec),
{
    let mut out: Vec<String> = Vec::new();
    match &spec.spec.extensions.data {
        Some(d) => {
            let fields = &d.fields;
            let mut i: usize = 0;
            while i < fields.len()
                invariant
                    i <= fields@.len(),
                    views_of_strings(out@) == fields@.take(i as int).map_values(|f: (String, AuthoredField)| f.0@),
                decreases fields@.len() - i,
            {
                let ghost before = out@;
                out.push(fields[i].0.clone());
                proof {
                    assert(views_of_strings(out@) =~= views_of_strings(before).push(fields@[i as int].0@));
                    assert(fields@.take(i + 1).map_values(|f: (String, AuthoredField)| f.0@)
                        =~= fields@.take(i as int).map_values(|f: (String, AuthoredField)| f.0@).push(fields@[i as int].0@));
                }
                i = i + 1;
            }
            proof {
                assert(fields@.take(fields@.len() as int) =~= fields@);
            }
        },
        None => {
            proof {
                assert(views_of_strings(out@) =~= Seq::<Seq<char>>::empty());
            }
        },
    }
    out
}

fn missing_fields_exec(names: &Vec<String>, init: &Vec<String>) -> (r: Vec<String>)
    ensures
        views_of_strings(r@) == missing_fields(views_of_strings(names@), views_of_strings(init@)),
{
    let mut out: Vec<String> = Vec::new();
    let mut i: usize = 0;
    while i < names.len()
        invariant
            i <= names@.len(),
            views_of_strings(out@) == missing_fields(views_of_strings(names@).take(i as int), views_of_strings(init@)),
        decreases names@.len() - i,
    {
        proof {
            assert(views_of_strings(names@).take(i + 1).drop_last() =~= views_of_strings(names@).take(i as int));
            assert(views_of_strings(names@).take(i + 1).last() == names@[i as int]@);
        }
        if !contains_string(init, &names[i]) {
            let ghost before = out@;
            out.push(names[i].clone());
            proof {
                assert(views_of_strings(out@) =~= views_of_strings(before).push(names@[i as int]@));
            }
        }
        i = i + 1;
    }
    proof {
        assert(views_of_strings(names@).take(names@.len() as int) =~= views_of_strings(names@));
    }
    out
}

fn check_init_entries(
    spec: &LoadedSpec,
    c: &AuthoredConstructor,
    root: &String,
    names: &Vec<String>,
) -> (r: Result<(), SpecError>)
    requires
        views_of_strings(names@) == data_field_names(*spec),
    ensures
        outcome_is(r, init_issue(*spec, *c, root@)),
{
    let inits = &c.initializes;
    let mut k: usize = 0;
    while k < inits.len()
        invariant
            k <= inits@.len(),
            inits@ == c.initializes@,
            views_of_strings(names@) == data_field_names(*spec),
            first_index(inits@.len() as int, init_bad_pred(*spec, *c, root@), 0)
                == first_index(inits@.len() as int, init_bad_pred(*spec, *c, root@), k as int),
        decreases inits@.len() - k,
    {
        let field = &inits[k].0;
        let input = &inits[k].1;
        if !contains_string(names, field) {
            proof {
                assert(init_bad_pred(*spec, *c, root@)(k as int));
            }
            let mut m = owned(root.as_str());
            m.append(".initializes.");
            m.append(field.as_str());
            m.append(" targets an unknown data field");
            return Err(sem_err(spec, m));
        }
        let declared = match &c.contract {
            Some(ct) => match &ct.inputs {
                Some(inputs) => {
                    let keys = keys_of_pairs(inputs);
                    Some(keys)
                },
                None => None,
            },
            None => None,
        };
        match declared {
            None => {
                proof {
                    assert(init_bad_pred(*spec, *c, root@)(k as int));
                }
                let mut m = owned(root.as_str());
                m.append(" must declare contract.inputs for initializes.");
                m.append(field.as_str());
                return Err(sem_err(spec, m));
            },
            Some(keys) => {
                if !contains_string(&keys, input) {
                    proof {
                        assert(init_bad_pred(*spec, *c, root@)(k as int));
                    }
                    let mut m = owned(root.as_str());
                    m.append(".initializes.");
                    m.append(field.as_str());
                    m.append(" references unknown input '");
                    m.append(input.as_str());
                    m.append("'");
                    return Err(sem_err(spec, m));
                }
            },
        }
        k = k + 1;
    }
    Ok(())
}

fn check_constructor(spec: &LoadedSpec, i: usize, seen: &Vec<String>, names: &Vec<String>) -> (r: Result<(), SpecError>)
    requires
        i < spec.spec.extensions.constructors@.len(),
        views_of_strings(seen@) == constructor_ids(spec.spec.extensions.constructors@).take(i as int),
        views_of_strings(names@) == data_field_names(*spec),
    ensures
        outcome_is(r, constructor_issue(*spec, i as int)),
{
    let c = &spec.spec.extensions.constructors[i];
    let root = indexed_string("constructors", i, "");
    if contains_string(seen, &c.id) {
        let mut m = owned("duplicate constructor id '");
        m.append(c.id.as_str());
        m.append("' at ");
        m.append(root.as_str());
        return Err(sem_err(spec, m));
    }
    if is_rust_keyword_exec(c.id.as_str()) {
        return Err(SpecError::RustKeyword { segment: c.id.clone(), id: c.id.clone(), path: spec.source.file_path.clone() });
    }
    if let Some(k) = &c.contract {
        let mut field_root = owned(root.as_str());
        field_root.append(".contract");
        match validate_contract_types(k, field_root.as_str(), spec.source.file_path.as_str()) {
            Err(e) => {
                return Err(e);
            },
            Ok(()) => {},
        }
        if k.returns.is_some() {
            let mut m = owned(root.as_str());
            m.append(".contract.returns is not allowed; constructor return shape is shared semantics");
            return Err(sem_err(spec, m));
        }
    }
    let init_keys = keys_of_pairs(&c.initializes);
    let missing = missing_fields_exec(names, &init_keys);
    if missing.len() > 0 {
        let mut m = owned(root.as_str());
        m.append(" omits required field initialization for: ");
        let joined = join_commas_string(&missing);
        m.append(joined.as_str());
        return Err(sem_err(spec, m));
    }
    check_init_entries(spec, c, &root, names)
}

fn validate_data_constructors(spec: &LoadedSpec) -> (r: Result<(), SpecError>)
    ensures
        outcome_is(r, constructors_issue(*spec)),
{
    let names = field_names_of(spec);
    let cs = &spec.spec.extensions.constructors;
    let mut seen: Vec<String> = Vec::new();
    let mut i: usize = 0;
    proof {
        assert(views_of_strings(seen@) =~= constructor_ids(cs@).take(0));
    }
    while i < cs.len()
        invariant
            i <= cs@.len(),
            cs@ == spec.spec.extensions.constructors@,
            views_of_strings(names@) == data_field_names(*spec),
            views_of_strings(seen@) == constructor_ids(cs@).take(i as int),
            first_index(cs@.len() as int, constructor_bad_pred(*spec), 0)
                == first_index(cs@.len() as int, constructor_bad_pred(*spec), i as int),
        decreases cs@.len() - i,
    {
        match check_constructor(spec, i, &seen, &names) {
            Err(e) => {
                proof {
                    assert(constructor_bad_pred(*spec)(i as int));
                }
                return Err(e);
            },
            Ok(()) => {},
        }
        let ghost before = seen@;
        seen.push(cs[i].id.clone());
        proof {
            assert(views_of_strings(seen@) =~= views_of_strings(before).push(cs@[i as int].id@));
            assert(constructor_ids(cs@).take(i + 1) =~= constructor_ids(cs@).take(i as int).push(cs@[i as int].id@));
        }
        i = i + 1;
    }
    Ok(())
}

} // verus!

verus! {

pub open spec fn method_ids(ms: Seq<AuthoredMethod>) -> Seq<Seq<char>> {
    ms.map_values(|m: AuthoredMethod| m.id@)
}

/// The authored Rust lowering of a method, if it declares one.
pub open spec fn lowering_body(m: AuthoredMethod) -> Option<Seq<char>> {
    match m.lowering {
        Some(l) => match l.rust {
            Some(r) => Some(r.body@),
            None => None,
        },
        None => None,
    }
}

/// What a method's deps are refused for: parse, reserved words, then collisions.
pub open spec fn method_deps_issue(spec: LoadedSpec, m: AuthoredMethod, root: Seq<char>) -> Option<SpecErrorView> {
    let path = spec.source.file_path@;
    let ds = views_of_strings(m.deps@);
    match first_match(ds, dep_invalid_pred(), 0) {
        Some(j) => sem(spec, root + ".deps contains invalid dep: "@ + dep_failure_text(ds[j], failure_of(ds[j]))),
        None => {
            let ps = parsed_deps(ds);
            match dep_keywords_issue(ps, path) {
                Some(e) => match e {
                    SpecErrorView::RustKeyword { segment, id, path: p } => sem(
                        spec,
                        root + ".deps contains invalid dep '"@ + id + "': "@ + e.text(),
                    ),
                    _ => None,
                },
                None => match self_collision_issue(ds, ps, spec.spec.id@, path) {
                    Some(SpecErrorView::DepCollision { dep1, dep2, fn_name, path: p }) => sem(
                        spec,
                        root + ".deps contains self-dep collision between '"@ + dep1 + "' and '"@ + dep2 + "'"@,
                    ),
                    _ => match pair_collision_issue(ps, path) {
                        Some(SpecErrorView::DepCollision { dep1, dep2, fn_name, path: p }) => sem(
                            spec,
                            root + ".deps has callable collision: '"@ + dep1 + "' and '"@ + dep2 + "' both resolve to '"@
                                + fn_name + "'"@,
                        ),
                        _ => None,
                    },
                },
            }
        },
    }
}

/// What method `i` is refused for, in checking order.
pub open spec fn method_issue(spec: LoadedSpec, i: int, kind: Seq<char>) -> Option<SpecErrorView> {
    let ms = spec.spec.extensions.methods@;
    let m = ms[i];
    let root = indexed("methods"@, i as nat, ""@);
    let path = spec.source.file_path@;
    if method_ids(ms).take(i).contains(m.id@) {
        sem(spec, "duplicate method id '"@ + m.id@ + "' at "@ + root)
    } else if is_rust_keyword(m.id@) {
        Some(SpecErrorView::RustKeyword { segment: m.id@, id: m.id@, path })
    } else if m.receiver@ != "shared_ref"@ {
        sem(
            spec,
            root + ".receiver uses unsupported mode '"@ + m.receiver@ + "'; only 'shared_ref' is supported for kind:"@ + kind,
        )
    } else {
        match m.contract {
            None => sem(spec, root + ".contract is required for kind:"@ + kind),
            Some(c) => if contract_issue(c, root + ".contract"@, path) is Some {
                contract_issue(c, root + ".contract"@, path)
            } else if method_deps_issue(spec, m, root) is Some {
                method_deps_issue(spec, m, root)
            } else {
                match lowering_body(m) {
                    Some(b) if trim_seq(b).len() > 0 => match syn_block_outcome(trim_seq(b)) {
                        Some(err) => sem(
                            spec,
                            root + ".lowering.rust.body must be a Rust block expression starting with `{`: "@ + err,
                        ),
                        None => None,
                    },
                    _ => sem(spec, root + ".lowering.rust.body must be provided for kind:"@ + kind),
                }
            },
        }
    }
}

pub open spec fn method_bad_pred(spec: LoadedSpec, kind: Seq<char>) -> spec_fn(int) -> bool {
    |i: int| method_issue(spec, i, kind) is Some
}

/// The first refused method.
pub open spec fn methods_issue(spec: LoadedSpec, kind: Seq<char>) -> Option<SpecErrorView> {
    match first_index(spec.spec.extensions.methods@.len() as int, method_bad_pred(spec, kind), 0) {
        Some(i) => method_issue(spec, i, kind),
        None => None,
    }
}

fn check_method_deps(spec: &LoadedSpec, m: &AuthoredMethod, root: &String) -> (r: Result<(), SpecError>)
    ensures
        outcome_is(r, method_deps_issue(*spec, *m, root@)),
{
    let path = &spec.source.file_path;
    let ghost ds = views_of_strings(m.deps@);
    let refs = match parse_dep_refs(&m.deps) {
        Ok(v) => v,
        Err(e) => {
            proof {
                lemma_first_match_bounds(ds, dep_invalid_pred(), 0);
                let j = first_match(ds, dep_invalid_pred(), 0)->0;
                assert(ds[j] == m.deps@[j]@);
            }
            let mut msg = owned(root.as_str());
            msg.append(".deps contains invalid dep: ");
            let t = e.message();
            msg.append(t.as_str());
            return Err(sem_err(spec, msg));
        },
    };
    proof {
        assert(dep_pairs(refs@) =~= parsed_deps(ds));
    }
    match check_dep_keywords(&refs, path.as_str()) {
        Err(e) => {
            let t = e.message();
            match e {
                SpecError::RustKeyword { segment, id, path: p } => {
                    let mut msg = owned(root.as_str());
                    msg.append(".deps contains invalid dep '");
                    msg.append(id.as_str());
                    msg.append("': ");
                    msg.append(t.as_str());
                    return Err(sem_err(spec, msg));
                },
                _ => {
                    return Ok(());
                },
            }
        },
        Ok(()) => {},
    }
    match check_self_collision(&m.deps, &refs, &spec.spec.id, path) {
        Err(e) => match e {
            SpecError::DepCollision { dep1, dep2, fn_name, path: p } => {
                let mut msg = owned(root.as_str());
                msg.append(".deps contains self-dep collision between '");
                msg.append(dep1.as_str());
                msg.append("' and '");
                msg.append(dep2.as_str());
                msg.append("'");
                return Err(sem_err(spec, msg));
            },
            _ => {
                return Ok(());
            },
        },
        Ok(()) => {},
    }
    match check_pair_collision(&refs, path) {
        Err(e) => match e {
            SpecError::DepCollision { dep1, dep2, fn_name, path: p } => {
                let mut msg = owned(root.as_str());
                msg.append(".deps has callable collision: '");
                msg.append(dep1.as_str());
                msg.append("' and '");
                msg.append(dep2.as_str());
                msg.append("' both resolve to '");
                msg.append(fn_name.as_str());
                msg.append("'");
                Err(sem_err(spec, msg))
            },
            _ => Ok(()),
        },
        Ok(()) => Ok(()),
    }
}

fn check_method(spec: &LoadedSpec, i: usize, seen: &Vec<String>, kind: &str) -> (r: Result<(), SpecError>)
    requires
        i < spec.spec.extensions.methods@.len(),
        views_of_strings(seen@) == method_ids(spec.spec.extensions.methods@).take(i as int),
    ensures
        outcome_is(r, method_issue(*spec, i as int, kind@)),
{
    let m = &spec.spec.extensions.methods[i];
    let root = indexed_string("methods", i, "");
    if contains_string(seen, &m.id) {
        let mut msg = owned("duplicate method id '");
        msg.append(m.id.as_str());
        msg.append("' at ");
        msg.append(root.as_str());
        return Err(sem_err(spec, msg));
    }
    if is_rust_keyword_exec(m.id.as_str()) {
        return Err(SpecError::RustKeyword { segment: m.id.clone(), id: m.id.clone(), path: spec.source.file_path.clone() });
    }
    if !str_eq(m.receiver.as_str(), "shared_ref") {
        let mut msg = owned(root.as_str());
        msg.append(".receiver uses unsupported mode '");
        msg.append(m.receiver.as_str());
        msg.append("'; only 'shared_ref' is supported for kind:");
        msg.append(kind);
        return Err(sem_err(spec, msg));
    }
    let c = match &m.contract {
        None => {
            let mut msg = owned(root.as_str());
            msg.append(".contract is required for kind:");
            msg.append(kind);
            return Err(sem_err(spec, msg));
        },
        Some(c) => c,
    };
    let mut field_root = owned(root.as_str());
    field_root.append(".contract");
    match validate_contract_types(c, field_root.as_str(), spec.source.file_path.as_str()) {
        Err(e) => {
            return Err(e);
        },
        Ok(()) => {},
    }
    match check_method_deps(spec, m, &root) {
        Err(e) => {
            return Err(e);
        },
        Ok(()) => {},
    }
    let body: Option<&String> = match &m.lowering {
        Some(l) => match &l.rust {
            Some(r) => Some(&r.body),
            None => None,
        },
        None => None,
    };
    let trimmed: Option<String> = match body {
        Some(b) => {
            let cs = chars_of(b.as_str());
            let t = trim_chars(&cs);
            if t.len() > 0 {
                Some(string_of(&t))
            } else {
                None
            }
        },
        None => None,
    };
    match trimmed {
        None => {
            let mut msg = owned(root.as_str());
            msg.append(".lowering.rust.body must be provided for kind:");
            msg.append(kind);
            Err(sem_err(spec, msg))
        },
        Some(t) => match block_parse_error(t.as_str()) {
            Some(err) => {
                let mut msg = owned(root.as_str());
                msg.append(".lowering.rust.body must be a Rust block expression starting with `{`: ");
                msg.append(err.as_str());
                Err(sem_err(spec, msg))
            },
            None => Ok(()),
        },
    }
}

fn validate_seam_methods(spec: &LoadedSpec, kind: &str) -> (r: Result<(), SpecError>)
    ensures
        outcome_is(r, methods_issue(*spec, kind@)),
{
    let ms = &spec.spec.extensions.methods;
    let mut seen: Vec<String> = Vec::new();
    let mut i: usize = 0;
    proof {
        assert(views_of_strings(seen@) =~= method_ids(ms@).take(0));
    }
    while i < ms.len()
        invariant
            i <= ms@.len(),
            ms@ == spec.spec.extensions.methods@,
            views_of_strings(seen@) == method_ids(ms@).take(i as int),
            first_index(ms@.len() as int, method_bad_pred(*spec, kind@), 0)
                == first_index(ms@.len() as int, method_bad_pred(*spec, kind@), i as int),
        decreases ms@.len() - i,
    {
        match check_method(spec, i, &seen, kind) {
            Err(e) => {
                proof {
                    assert(method_bad_pred(*spec, kind@)(i as int));
                }
                return Err(e);
            },
            Ok(()) => {},
        }
        let ghost before = seen@;
        seen.push(ms[i].id.clone());
        proof {
            assert(views_of_strings(seen@) =~= views_of_strings(before).push(ms@[i as int].id@));
            assert(method_ids(ms@).take(i + 1) =~= method_ids(ms@).take(i as int).push(ms@[i as int].id@));
        }
        i = i + 1;
    }
    Ok(())
}

} // verus!

verus! {

/// Every dep that the seam's methods name, each once, in first-authored order.
pub open spec fn seam_dep_seq(spec: LoadedSpec) -> Seq<Seq<char>> {
    ordered_unique(method_dep_seq(spec.spec.extensions.methods@.map_values(|m: AuthoredMethod| views_of_strings(m.deps@))))
}

/// The seam deps that do not parse, or the first two that project to one callable name.
pub open spec fn seam_deps_issue(spec: LoadedSpec) -> Option<SpecErrorView> {
    let ds = seam_dep_seq(spec);
    let path = spec.source.file_path@;
    match first_match(ds, dep_invalid_pred(), 0) {
        Some(j) => sem(spec, dep_failure_text(ds[j], failure_of(ds[j]))),
        None => pair_collision_issue(parsed_deps(ds), path),
    }
}

fn check_seam_deps(spec: &LoadedSpec) -> (r: Result<(), SpecError>)
    ensures
        outcome_is(r, seam_deps_issue(*spec)),
{
    let ghost lists = spec.spec.extensions.methods@.map_values(|m: AuthoredMethod| views_of_strings(m.deps@));
    let mut all: Vec<String> = Vec::new();
    let ms = &spec.spec.extensions.methods;
    let mut i: usize = 0;
    proof {
        assert(views_of_strings(all@) =~= Seq::<Seq<char>>::empty());
        assert(lists.take(0) =~= Seq::<Seq<Seq<char>>>::empty());
    }
    while i < ms.len()
        invariant
            i <= ms@.len(),
            ms@ == spec.spec.extensions.methods@,
            lists == ms@.map_values(|m: AuthoredMethod| views_of_strings(m.deps@)),
            views_of_strings(all@) == unique_extend(Seq::empty(), method_dep_seq(lists.take(i as int))),
        decreases ms@.len() - i,
    {
        push_all_unique(&mut all, &ms[i].deps);
        proof {
            assert(lists.take(i + 1).drop_last() =~= lists.take(i as int));
            assert(lists.take(i + 1).last() == views_of_strings(ms@[i as int].deps@));
            lemma_unique_extend_append(Seq::empty(), method_dep_seq(lists.take(i as int)), views_of_strings(ms@[i as int].deps@));
        }
        i = i + 1;
    }
    proof {
        assert(lists.take(ms@.len() as int) =~= lists);
        lemma_unique_extend_empty(method_dep_seq(lists));
    }
    let ghost ds = views_of_strings(all@);
    let refs = match parse_dep_refs(&all) {
        Ok(v) => v,
        Err(e) => {
            proof {
                lemma_first_match_bounds(ds, dep_invalid_pred(), 0);
                let j = first_match(ds, dep_invalid_pred(), 0)->0;
                assert(ds[j] == all@[j]@);
            }
            return Err(sem_err(spec, e.message()));
        },
    };
    proof {
        assert(dep_pairs(refs@) =~= parsed_deps(ds));
    }
    check_pair_collision(&refs, &spec.source.file_path)
}

pub open spec fn method_id_pred(ms: Seq<AuthoredMethod>, id: Seq<char>) -> spec_fn(Seq<char>) -> bool {
    |x: Seq<char>| x == id
}

pub open spec fn ctor_conflict_pred(spec: LoadedSpec) -> spec_fn(int) -> bool {
    |ci: int| method_ids(spec.spec.extensions.methods@).contains(spec.spec.extensions.constructors@[ci].id@)
}

/// The first constructor whose id a method also has, and the first such method.
pub open spec fn ctor_method_conflict(spec: LoadedSpec) -> Option<SpecErrorView> {
    let cs = spec.spec.extensions.constructors@;
    let mids = method_ids(spec.spec.extensions.methods@);
    match first_index(cs.len() as int, ctor_conflict_pred(spec), 0) {
        Some(ci) => match first_match(mids, eq_pred(cs[ci].id@), 0) {
            Some(mi) => sem(
                spec,
                indexed("constructors"@, ci as nat, ".id '"@) + cs[ci].id@ + "' conflicts with "@
                    + indexed("methods"@, mi as nat, ".id '"@) + mids[mi] + "'"@,
            ),
            None => None,
        },
        None => None,
    }
}

fn validate_data_seam_collisions(spec: &LoadedSpec) -> (r: Result<(), SpecError>)
    ensures
        outcome_is(r, or_else(ctor_method_conflict(*spec), seam_deps_issue(*spec))),
{
    let cs = &spec.spec.extensions.constructors;
    let ms = &spec.spec.extensions.methods;
    let mut ids: Vec<String> = Vec::new();
    let mut k: usize = 0;
    while k < ms.len()
        invariant
            k <= ms@.len(),
            ms@ == spec.spec.extensions.methods@,
            views_of_strings(ids@) == method_ids(ms@).take(k as int),
        decreases ms@.len() - k,
    {
        let ghost before = ids@;
        ids.push(ms[k].id.clone());
        proof {
            assert(views_of_strings(ids@) =~= views_of_strings(before).push(ms@[k as int].id@));
            assert(method_ids(ms@).take(k + 1) =~= method_ids(ms@).take(k as int).push(ms@[k as int].id@));
        }
        k = k + 1;
    }
    proof {
        assert(method_ids(ms@).take(ms@.len() as int) =~= method_ids(ms@));
    }
    let mut ci: usize = 0;
    while ci < cs.len()
        invariant
            ci <= cs@.len(),
            cs@ == spec.spec.extensions.constructors@,
            ms@ == spec.spec.extensions.methods@,
            views_of_strings(ids@) == method_ids(ms@),
            first_index(cs@.len() as int, ctor_conflict_pred(*spec), 0) == first_index(cs@.len() as int, ctor_conflict_pred(*spec), ci as int),
        decreases cs@.len() - ci,
    {
        match find_equal_from(&ids, &cs[ci].id, 0) {
            Some(mi) => {
                proof {
                    lemma_first_match_bounds(method_ids(ms@), eq_pred(cs@[ci as int].id@), 0);
                    assert(method_ids(ms@)[mi as int] == cs@[ci as int].id@);
                    assert(ctor_conflict_pred(*spec)(ci as int));
                }
                let mut msg = indexed_string("constructors", ci, ".id '");
                msg.append(cs[ci].id.as_str());
                msg.append("' conflicts with ");
                let m2 = indexed_string("methods", mi, ".id '");
                msg.append(m2.as_str());
                msg.append(ms[mi].id.as_str());
                msg.append("'");
                return Err(sem_err(spec, msg));
            },
            None => {
                proof {
                    lemma_first_match_bounds(method_ids(ms@), eq_pred(cs@[ci as int].id@), 0);
                    if ctor_conflict_pred(*spec)(ci as int) {
                        let t = choose|t: int| 0 <= t < method_ids(ms@).len() && method_ids(ms@)[t] == cs@[ci as int].id@;
                        assert(eq_pred(cs@[ci as int].id@)(method_ids(ms@)[t]));
                    }
                }
            },
        }
        ci = ci + 1;
    }
    check_seam_deps(spec)
}

} // verus!

verus! {

pub open spec fn variant_ids(vs: Seq<(String, AuthoredSumVariant)>) -> Seq<Seq<char>> {
    vs.map_values(|v: (String, AuthoredSumVariant)| v.0@)
}

pub open spec fn variant_names(vs: Seq<(String, AuthoredSumVariant)>) -> Seq<Seq<char>> {
    vs.map_values(|v: (String, AuthoredSumVariant)| pascal(v.0@))
}

/// What variant `i` is refused for, in checking order.
pub open spec fn variant_issue(spec: LoadedSpec, vs: Seq<(String, AuthoredSumVariant)>, i: int) -> Option<SpecErrorView> {
    let id = vs[i].0@;
    let root = indexed("sum.variants"@, i as nat, ""@);
    let name = pascal(id);
    let enum_name = pascal(callable_of(spec.spec.id@));
    let path = spec.source.file_path@;
    if variant_ids(vs).take(i).contains(id) {
        sem(spec, "duplicate sum variant id '"@ + id + "' at "@ + root)
    } else if is_rust_keyword(id) {
        Some(SpecErrorView::RustKeyword { segment: id, id, path })
    } else if !syn_ident_accepts(name) {
        sem(spec, root + ".id '"@ + id + "' projects to invalid Rust identifier '"@ + name + "'"@)
    } else if name == enum_name {
        sem(
            spec,
            root + ".id '"@ + id + "' projects to Rust variant name '"@ + name
                + "', which conflicts with the emitted enum name '"@ + enum_name + "'"@,
        )
    } else {
        match first_match(variant_names(vs).take(i), eq_pred(name), 0) {
            Some(j) => sem(
                spec,
                root + ".id '"@ + id + "' projects to Rust variant name '"@ + name + "', which conflicts with "@
                    + indexed("sum.variants"@, j as nat, ".id '"@) + vs[j].0@ + "'"@,
            ),
            None => fields_issue(vs[i].1.fields@, root + ".fields"@, path),
        }
    }
}

pub open spec fn variant_bad_pred(spec: LoadedSpec, vs: Seq<(String, AuthoredSumVariant)>) -> spec_fn(int) -> bool {
    |i: int| variant_issue(spec, vs, i) is Some
}

/// A sum seam declares at least one variant, each acceptable.
pub open spec fn variants_issue(spec: LoadedSpec) -> Option<SpecErrorView> {
    match spec.spec.extensions.sum {
        None => sem(spec, "kind:sum requires sum.variants"@),
        Some(sum) => if sum.variants@.len() == 0 {
            sem(spec, "kind:sum requires at least one sum.variants entry"@)
        } else {
            match first_index(sum.variants@.len() as int, variant_bad_pred(spec, sum.variants@), 0) {
                Some(i) => variant_issue(spec, sum.variants@, i),
                None => None,
            }
        },
    }
}

fn check_variant(
    spec: &LoadedSpec,
    vs: &Vec<(String, AuthoredSumVariant)>,
    i: usize,
    seen_ids: &Vec<String>,
    seen_names: &Vec<String>,
    enum_name: &String,
) -> (r: Result<(), SpecError>)
    requires
        i < vs@.len(),
        views_of_strings(seen_ids@) == variant_ids(vs@).take(i as int),
        views_of_strings(seen_names@) == variant_names(vs@).take(i as int),
        enum_name@ == pascal(callable_of(spec.spec.id@)),
    ensures
        outcome_is(r, variant_issue(*spec, vs@, i as int)),
{
    let id = &vs[i].0;
    let root = indexed_string("sum.variants", i, "");
    if contains_string(seen_ids, id) {
        let mut msg = owned("duplicate sum variant id '");
        msg.append(id.as_str());
        msg.append("' at ");
        msg.append(root.as_str());
        return Err(sem_err(spec, msg));
    }
    if is_rust_keyword_exec(id.as_str()) {
        return Err(SpecError::RustKeyword { segment: id.clone(), id: id.clone(), path: spec.source.file_path.clone() });
    }
    let name = pascal_string(id.as_str());
    if !parses_as_ident(name.as_str()) {
        let mut msg = owned(root.as_str());
        msg.append(".id '");
        msg.append(id.as_str());
        msg.append("' projects to invalid Rust identifier '");
        msg.append(name.as_str());
        msg.append("'");
        return Err(sem_err(spec, msg));
    }
    if name == *enum_name {
        let mut msg = owned(root.as_str());
        msg.append(".id '");
        msg.append(id.as_str());
        msg.append("' projects to Rust variant name '");
        msg.append(name.as_str());
        msg.append("', which conflicts with the emitted enum name '");
        msg.append(enum_name.as_str());
        msg.append("'");
        return Err(sem_err(spec, msg));
    }
    match find_equal_from(seen_names, &name, 0) {
        Some(j) => {
            proof {
                lemma_first_match_bounds(views_of_strings(seen_names@), eq_pred(name@), 0);
                assert(variant_names(vs@).take(i as int)[j as int] == pascal(vs@[j as int].0@));
            }
            let mut msg = owned(root.as_str());
            msg.append(".id '");
            msg.append(id.as_str());
            msg.append("' projects to Rust variant name '");
            msg.append(name.as_str());
            msg.append("', which conflicts with ");
            let other = indexed_string("sum.variants", j, ".id '");
            msg.append(other.as_str());
            msg.append(vs[j].0.as_str());
            msg.append("'");
            Err(sem_err(spec, msg))
        },
        None => {
            let mut fr = owned(root.as_str());
            fr.append(".fields");
            validate_named_fields(&vs[i].1.fields, fr.as_str(), &spec.source.file_path)
        },
    }
}

fn validate_sum_variants(spec: &LoadedSpec) -> (r: Result<(), SpecError>)
    ensures
        outcome_is(r, variants_issue(*spec)),
{
    let sum = match &spec.spec.extensions.sum {
        None => {
            return Err(sem_err(spec, owned("kind:sum requires sum.variants")));
        },
        Some(s) => s,
    };
    let vs = &sum.variants;
    if vs.len() == 0 {
        return Err(sem_err(spec, owned("kind:sum requires at least one sum.variants entry")));
    }
    let own = callable_name(spec.spec.id.as_str());
    let enum_name = pascal_string(own.as_str());
    let mut seen_ids: Vec<String> = Vec::new();
    let mut seen_names: Vec<String> = Vec::new();
    let mut i: usize = 0;
    proof {
        assert(views_of_strings(seen_ids@) =~= variant_ids(vs@).take(0));
        assert(views_of_strings(seen_names@) =~= variant_names(vs@).take(0));
    }
    while i < vs.len()
        invariant
            i <= vs@.len(),
            spec.spec.extensions.sum matches Some(s) && s.variants@ == vs@,
            enum_name@ == pascal(callable_of(spec.spec.id@)),
            views_of_strings(seen_ids@) == variant_ids(vs@).take(i as int),
            views_of_strings(seen_names@) == variant_names(vs@).take(i as int),
            first_index(vs@.len() as int, variant_bad_pred(*spec, vs@), 0)
                == first_index(vs@.len() as int, variant_bad_pred(*spec, vs@), i as int),
        decreases vs@.len() - i,
    {
        match check_variant(spec, vs, i, &seen_ids, &seen_names, &enum_name) {
            Err(e) => {
                proof {
                    assert(variant_bad_pred(*spec, vs@)(i as int));
                }
                return Err(e);
            },
            Ok(()) => {},
        }
        let ghost b1 = seen_ids@;
        let ghost b2 = seen_names@;
        seen_ids.push(vs[i].0.clone());
        let n = pascal_string(vs[i].0.as_str());
        seen_names.push(n);
        proof {
            assert(views_of_strings(seen_ids@) =~= views_of_strings(b1).push(vs@[i as int].0@));
            assert(variant_ids(vs@).take(i + 1) =~= variant_ids(vs@).take(i as int).push(vs@[i as int].0@));
            assert(views_of_strings(seen_names@) =~= views_of_strings(b2).push(pascal(vs@[i as int].0@)));
            assert(variant_names(vs@).take(i + 1) =~= variant_names(vs@).take(i as int).push(pascal(vs@[i as int].0@)));
        }
        i = i + 1;
    }
    Ok(())
}

/// What a `kind: data` unit is refused for, in checking order.
pub open spec fn data_issue(spec: LoadedSpec, allow: bool) -> Option<SpecErrorView> {
    or_else(
        shared_shape_issue(spec, "data"@),
        or_else(
            data_fields_issue(spec),
            or_else(
                data_behavior_issue(spec),
                or_else(
                    backend_issue(spec),
                    or_else(
                        constructors_issue(spec),
                        or_else(
                            methods_issue(spec, "data"@),
                            or_else(
                                or_else(ctor_method_conflict(spec), seam_deps_issue(spec)),
                                local_tests_issue(spec.spec.local_tests@, allow, spec.source.file_path@),
                            ),
                        ),
                    ),
                ),
            ),
        ),
    )
}

/// What a `kind: sum` unit is refused for, in checking order.
pub open spec fn sum_issue(spec: LoadedSpec, allow: bool) -> Option<SpecErrorView> {
    or_else(
        sum_escape_issue(spec),
        or_else(
            variants_issue(spec),
            or_else(
                backend_issue(spec),
                or_else(
                    methods_issue(spec, "sum"@),
                    or_else(seam_deps_issue(spec), local_tests_issue(spec.spec.local_tests@, allow, spec.source.file_path@)),
                ),
            ),
        ),
    )
}

/// Validates a `kind: data` unit: shared shape, fields, constructors, methods, collisions, local tests.
pub fn validate_data_semantic(spec: &LoadedSpec, options: &ValidationOptions) -> (r: Result<(), SpecError>)
    ensures
        outcome_is(r, data_issue(*spec, options.allow_unsafe_local_test_expect)),
{
    match validate_shared_seam_authored_shape(spec, "data") {
        Err(e) => {
            return Err(e);
        },
        Ok(()) => {},
    }
    match validate_data_fields(spec) {
        Err(e) => {
            return Err(e);
        },
        Ok(()) => {},
    }
    match validate_data_behavior_presence(spec) {
        Err(e) => {
            return Err(e);
        },
        Ok(()) => {},
    }
    match validate_seam_rust_backend(spec) {
        Err(e) => {
            return Err(e);
        },
        Ok(()) => {},
    }
    match validate_data_constructors(spec) {
        Err(e) => {
            return Err(e);
        },
        Ok(()) => {},
    }
    match validate_seam_methods(spec, "data") {
        Err(e) => {
            return Err(e);
        },
        Ok(()) => {},
    }
    match validate_data_seam_collisions(spec) {
        Err(e) => {
            return Err(e);
        },
        Ok(()) => {},
    }
    validate_local_test_expects(spec, options)
}

/// Validates a `kind: sum` unit: shared shape, variants, methods, collisions, local tests.
pub fn validate_sum_semantic(spec: &LoadedSpec, options: &ValidationOptions) -> (r: Result<(), SpecError>)
    ensures
        outcome_is(r, sum_issue(*spec, options.allow_unsafe_local_test_expect)),
{
    match validate_sum_escape_hatches(spec) {
        Err(e) => {
            return Err(e);
        },
        Ok(()) => {},
    }
    match validate_sum_variants(spec) {
        Err(e) => {
            return Err(e);
        },
        Ok(()) => {},
    }
    match validate_seam_rust_backend(spec) {
        Err(e) => {
            return Err(e);
        },
        Ok(()) => {},
    }
    match validate_seam_methods(spec, "sum") {
        Err(e) => {
            return Err(e);
        },
        Ok(()) => {},
    }
    match check_seam_deps(spec) {
        Err(e) => {
            return Err(e);
        },
        Ok(()) => {},
    }
    validate_local_test_expects(spec, options)
}

} // verus!
