//! Checks that span molecule (cross-unit) tests: what they cover and their ids.
use vstd::prelude::*;
use crate::errors::{views_of_strings, SpecError, SpecErrorView, SpecWarning, SpecWarningView};
use crate::graph::{error_views, warning_views};
use crate::model::LoadedMoleculeTest;
use crate::text::{first_match, owned};
use crate::rust_syntax::{block_parse_error, has_unsafe_token, has_unsafe_token_exec, syn_block_outcome};
use crate::unit_ref::{callable_name, callable_of, dep_failure_text, parse_dep, DepFailure, DepRef};
use crate::validator::{
    contains_string, eq_pred, find_equal_pair, first_equal_pair, keyword_segment, lemma_first_equal_pair_bounds, outcome_is,
    reserved_segment, validate_reserved_spec_id_segments, validate_rust_keywords,
};

verus! {

/// How one authored cover fares against the unit ids of the set.
pub enum CoverOutcome {
    Invalid(DepFailure),
    CrossLibrary,
    NotFound,
    Found,
}

pub open spec fn cover_outcome(cover: Seq<char>, unit_ids: Seq<Seq<char>>) -> CoverOutcome {
    match parse_dep(cover) {
        Err(f) => CoverOutcome::Invalid(f),
        Ok(p) => if p.0 is Some {
            CoverOutcome::CrossLibrary
        } else if unit_ids.contains(p.1) {
            CoverOutcome::Found
        } else {
            CoverOutcome::NotFound
        },
    }
}

/// The errors for the covers, in order, and the covers that name units of the set.
pub open spec fn cover_scan(
    covers: Seq<Seq<char>>,
    unit_ids: Seq<Seq<char>>,
    test_id: Seq<char>,
    path: Seq<char>,
) -> (Seq<SpecErrorView>, Seq<Seq<char>>)
    decreases covers.len(),
{
    if covers.len() == 0 {
        (Seq::empty(), Seq::empty())
    } else {
        let (es, found) = cover_scan(covers.drop_last(), unit_ids, test_id, path);
        let c = covers.last();
        match cover_outcome(c, unit_ids) {
            CoverOutcome::Invalid(f) => (es.push(SpecErrorView::SchemaValidation { message: dep_failure_text(c, f), path }), found),
            CoverOutcome::CrossLibrary => (
                es.push(SpecErrorView::CrossLibraryMoleculeCoverUnsupported { cover_id: c, test_id, test_path: path }),
                found,
            ),
            CoverOutcome::NotFound => (
                es.push(SpecErrorView::MoleculeCoversNotFound { cover_id: c, test_id, test_path: path }),
                found,
            ),
            CoverOutcome::Found => (es, found.push(c)),
        }
    }
}

pub open spec fn cover_callables(found: Seq<Seq<char>>) -> Seq<Seq<char>> {
    found.map_values(|c: Seq<char>| callable_of(c))
}

/// The errors a molecule test's covers get: one per cover that is invalid, in another
/// library or unknown; then, without explicit imports, the first two found covers that
/// project to one function name.
pub open spec fn covers_errors(t: LoadedMoleculeTest, unit_ids: Seq<Seq<char>>) -> Seq<SpecErrorView> {
    let test_id = t.test.id@;
    let path = t.source.file_path@;
    let (es, found) = cover_scan(views_of_strings(t.test.covers@), unit_ids, test_id, path);
    if t.test.imports is None {
        match first_equal_pair(cover_callables(found), 0) {
            Some((i, j)) => es.push(SpecErrorView::MoleculeCoversCollision {
                cover1: found[i],
                cover2: found[j],
                fn_name: callable_of(found[i]),
                test_id,
                test_path: path,
            }),
            None => es,
        }
    } else {
        es
    }
}

/// The warnings: no covers at all, then implicit imports.
pub open spec fn covers_warnings(t: LoadedMoleculeTest) -> Seq<SpecWarningView> {
    let test_id = t.test.id@;
    let path = t.source.file_path@;
    let a = if t.test.covers@.len() == 0 {
        seq![SpecWarningView::MoleculeTestNoCoveredUnits { test_id, test_path: path }]
    } else {
        Seq::empty()
    };
    if t.test.imports is None {
        a.push(SpecWarningView::MoleculeImplicitImportsDeprecated { test_id, test_path: path })
    } else {
        a
    }
}

/// Checks that every cover names a local unit of the set.
pub fn validate_molecule_test_covers(test: &LoadedMoleculeTest, unit_ids: &Vec<String>) -> (r: (
    Vec<SpecError>,
    Vec<SpecWarning>,
))
    ensures
        error_views(r.0@) == covers_errors(*test, views_of_strings(unit_ids@)),
        warning_views(r.1@) == covers_warnings(*test),
{
    let ghost ids = views_of_strings(unit_ids@);
    let ghost tid = test.test.id@;
    let ghost path = test.source.file_path@;
    let mut errors: Vec<SpecError> = Vec::new();
    let mut warnings: Vec<SpecWarning> = Vec::new();
    let mut found: Vec<String> = Vec::new();
    let ghost w0 = warnings@;
    if test.test.covers.len() == 0 {
        warnings.push(SpecWarning::MoleculeTestNoCoveredUnits {
            test_id: test.test.id.clone(),
            test_path: test.source.file_path.clone(),
        });
    }
    let ghost w1 = warnings@;
    if test.test.imports.is_none() {
        warnings.push(SpecWarning::MoleculeImplicitImportsDeprecated {
            test_id: test.test.id.clone(),
            test_path: test.source.file_path.clone(),
        });
    }
    proof {
        let a = if test.test.covers@.len() == 0 {
            seq![SpecWarningView::MoleculeTestNoCoveredUnits { test_id: tid, test_path: path }]
        } else {
            Seq::empty()
        };
        assert(warning_views(w1) =~= a);
        assert(warning_views(warnings@) =~= covers_warnings(*test));
        assert(error_views(errors@) =~= Seq::<SpecErrorView>::empty());
        assert(views_of_strings(found@) =~= Seq::<Seq<char>>::empty());
    }
    let covers = &test.test.covers;
    let mut i: usize = 0;
    while i < covers.len()
        invariant
            i <= covers@.len(),
            covers == test.test.covers,
            ids == views_of_strings(unit_ids@),
            tid == test.test.id@,
            path == test.source.file_path@,
            (error_views(errors@), views_of_strings(found@)) == cover_scan(
                views_of_strings(covers@).take(i as int),
                ids,
                tid,
                path,
            ),
        decreases covers@.len() - i,
    {
        let cover = &covers[i];
        let ghost es = error_views(errors@);
        let ghost fs = views_of_strings(found@);
        proof {
            assert(views_of_strings(covers@).take(i + 1).drop_last() =~= views_of_strings(covers@).take(i as int));
            assert(views_of_strings(covers@).take(i + 1).last() == cover@);
        }
        match DepRef::parse(cover.as_str()) {
            Err(e) => {
                let err = SpecError::SchemaValidation { message: e.message(), path: test.source.file_path.clone() };
                errors.push(err);
                proof {
                    assert(error_views(errors@) =~= es.push(err@));
                }
            },
            Ok(d) => {
                if d.library_alias.is_some() {
                    let err = SpecError::CrossLibraryMoleculeCoverUnsupported {
                        cover_id: cover.clone(),
                        test_id: test.test.id.clone(),
                        test_path: test.source.file_path.clone(),
                    };
                    errors.push(err);
                    proof {
                        assert(error_views(errors@) =~= es.push(err@));
                    }
                } else if !contains_string(unit_ids, &d.unit_id) {
                    let err = SpecError::MoleculeCoversNotFound {
                        cover_id: cover.clone(),
                        test_id: test.test.id.clone(),
                        test_path: test.source.file_path.clone(),
                    };
                    errors.push(err);
                    proof {
                        assert(error_views(errors@) =~= es.push(err@));
                    }
                } else {
                    found.push(cover.clone());
                    proof {
                        assert(views_of_strings(found@) =~= fs.push(cover@));
                    }
                }
            },
        }
        i = i + 1;
    }
    proof {
        assert(views_of_strings(covers@).take(covers@.len() as int) =~= views_of_strings(covers@));
    }
    if test.test.imports.is_none() {
        let mut names: Vec<String> = Vec::new();
        let mut k: usize = 0;
        while k < found.len()
            invariant
                k <= found@.len(),
                views_of_strings(names@) == cover_callables(views_of_strings(found@).take(k as int)),
            decreases found@.len() - k,
        {
            let n = callable_name(found[k].as_str());
            let ghost before = names@;
            names.push(n);
            proof {
                assert(views_of_strings(names@) =~= views_of_strings(before).push(n@));
                assert(views_of_strings(found@).take(k + 1) =~= views_of_strings(found@).take(k as int).push(found@[k as int]@));
                assert(cover_callables(views_of_strings(found@).take(k + 1))
                    =~= cover_callables(views_of_strings(found@).take(k as int)).push(callable_of(found@[k as int]@)));
            }
            k = k + 1;
        }
        proof {
            assert(views_of_strings(found@).take(found@.len() as int) =~= views_of_strings(found@));
            lemma_first_equal_pair_bounds(cover_callables(views_of_strings(found@)), 0);
        }
        match find_equal_pair(&names) {
            Some((a, b)) => {
                let err = SpecError::MoleculeCoversCollision {
                    cover1: found[a].clone(),
                    cover2: found[b].clone(),
                    fn_name: callable_name(found[a].as_str()),
                    test_id: test.test.id.clone(),
                    test_path: test.source.file_path.clone(),
                };
                let ghost before = errors@;
                errors.push(err);
                proof {
                    assert(error_views(errors@) =~= error_views(before).push(err@));
                    assert(views_of_strings(found@)[a as int] == found@[a as int]@);
                    assert(views_of_strings(found@)[b as int] == found@[b as int]@);
                }
            },
            None => {},
        }
    }
    (errors, warnings)
}

/// One `DuplicateMoleculeTestId` per test whose id an earlier test has, citing the first.
pub open spec fn duplicate_test_errors(ts: Seq<LoadedMoleculeTest>) -> Seq<SpecErrorView>
    decreases ts.len(),
{
    if ts.len() == 0 {
        Seq::empty()
    } else {
        let prev = duplicate_test_errors(ts.drop_last());
        let t = ts.last();
        let ids = ts.drop_last().map_values(|x: LoadedMoleculeTest| x.test.id@);
        match first_match(ids, eq_pred(t.test.id@), 0) {
            Some(j) => prev.push(SpecErrorView::DuplicateMoleculeTestId {
                id: t.test.id@,
                file1: ts[j].source.file_path@,
                file2: t.source.file_path@,
            }),
            None => prev,
        }
    }
}

fn first_test_with_id(tests: &[LoadedMoleculeTest], i: usize) -> (r: Option<usize>)
    requires
        i < tests@.len(),
    ensures
        r is None <==> first_match(tests@.take(i as int).map_values(|x: LoadedMoleculeTest| x.test.id@), eq_pred(tests@[i as int].test.id@), 0) is None,
        r matches Some(j) ==> j < i && first_match(tests@.take(i as int).map_values(|x: LoadedMoleculeTest| x.test.id@), eq_pred(tests@[i as int].test.id@), 0) == Some(j as int),
{
    let ghost ids = tests@.take(i as int).map_values(|x: LoadedMoleculeTest| x.test.id@);
    let mut j: usize = 0;
    while j < i
        invariant
            j <= i < tests@.len(),
            ids == tests@.take(i as int).map_values(|x: LoadedMoleculeTest| x.test.id@),
            first_match(ids, eq_pred(tests@[i as int].test.id@), 0) == first_match(ids, eq_pred(tests@[i as int].test.id@), j as int),
        decreases i - j,
    {
        if tests[j].test.id == tests[i].test.id {
            return Some(j);
        }
        j = j + 1;
    }
    None
}

/// One error per molecule test whose id an earlier test already has.
pub fn validate_no_duplicate_molecule_test_ids(tests: &[LoadedMoleculeTest]) -> (r: Vec<SpecError>)
    ensures
        error_views(r@) == duplicate_test_errors(tests@),
{
    let mut errors: Vec<SpecError> = Vec::new();
    let mut i: usize = 0;
    while i < tests.len()
        invariant
            i <= tests@.len(),
            error_views(errors@) == duplicate_test_errors(tests@.take(i as int)),
        decreases tests@.len() - i,
    {
        let ghost prefix = tests@.take(i as int);
        let ghost ids = prefix.map_values(|x: LoadedMoleculeTest| x.test.id@);
        proof {
            assert(tests@.take(i + 1).drop_last() =~= prefix);
            assert(tests@.take(i + 1).last() == tests@[i as int]);
        }
        let hit = first_test_with_id(tests, i);
        match hit {
            Some(j) => {
                let err = SpecError::DuplicateMoleculeTestId {
                    id: tests[i].test.id.clone(),
                    file1: tests[j].source.file_path.clone(),
                    file2: tests[i].source.file_path.clone(),
                };
                let ghost before = errors@;
                errors.push(err);
                proof {
                    assert(error_views(errors@) =~= error_views(before).push(err@));
                }
            },
            None => {},
        }
        i = i + 1;
    }
    proof {
        assert(tests@.take(tests@.len() as int) =~= tests@);
    }
    errors
}

} // verus!

verus! {

pub open spec fn molecule_typescript_message() -> Seq<char> {
    "body.typescript is not supported in .test.spec; molecule tests remain Rust-only"@
}

/// What a molecule test is refused for, in checking order: a TypeScript body, a Rust
/// body that syn does not parse as a block, an `unsafe` token in the body, a Rust
/// keyword among the id's segments, a reserved segment.
pub open spec fn molecule_test_issue(t: LoadedMoleculeTest) -> Option<SpecErrorView> {
    let path = t.source.file_path@;
    let body = t.test.body.rust@;
    if t.test.body.typescript is Some {
        Some(SpecErrorView::SemanticValidation { message: molecule_typescript_message(), path })
    } else if syn_block_outcome(body) is Some {
        Some(SpecErrorView::MoleculeBodyRustMustBeBlock { message: syn_block_outcome(body)->0, test_path: path })
    } else if has_unsafe_token(body) {
        Some(SpecErrorView::MoleculeBodyContainsUnsafe { test_path: path })
    } else if keyword_segment(t.test.id@) is Some {
        Some(SpecErrorView::RustKeyword { segment: keyword_segment(t.test.id@)->0, id: t.test.id@, path })
    } else if reserved_segment(t.test.id@) is Some {
        Some(SpecErrorView::ReservedUnitName { segment: reserved_segment(t.test.id@)->0, path })
    } else {
        None
    }
}

/// Validates a molecule test on its own: Rust-only, its body a block without `unsafe`,
/// and an id free of keywords and reserved segments. (A text that syn parses as a block
/// has already been tokenized, so tokenizing it again cannot fail.)
pub fn validate_molecule_test_semantic(test: &LoadedMoleculeTest) -> (r: Result<(), SpecError>)
    ensures
        outcome_is(r, molecule_test_issue(*test)),
{
    if test.test.body.typescript.is_some() {
        return Err(
            SpecError::SemanticValidation {
                message: owned("body.typescript is not supported in .test.spec; molecule tests remain Rust-only"),
                path: owned(test.source.file_path.as_str()),
            },
        );
    }
    match block_parse_error(test.test.body.rust.as_str()) {
        Some(message) => {
            return Err(
                SpecError::MoleculeBodyRustMustBeBlock {
                    message,
                    test_path: owned(test.source.file_path.as_str()),
                },
            );
        },
        None => {},
    }
    if has_unsafe_token_exec(test.test.body.rust.as_str()) {
        return Err(SpecError::MoleculeBodyContainsUnsafe { test_path: owned(test.source.file_path.as_str()) });
    }
    match validate_rust_keywords(test.test.id.as_str(), test.source.file_path.as_str()) {
        Err(e) => {
            return Err(e);
        },
        Ok(()) => {},
    }
    validate_reserved_spec_id_segments(test.test.id.as_str(), test.source.file_path.as_str())
}

} // verus!
