//! The layout a family packet must keep: its bucket directories, the files each bucket
//! holds, the fixtures under `units/`, and the starter cases its candidate notes name.
use vstd::prelude::*;
use crate::family::attestation::{find_first, first_occurrence, occurs_at};
use crate::family::error::{XtaskError, XtaskErrorView};
use crate::family::inventory::skip_chars;
use crate::family::paths::{required_buckets, required_bucket_names, views_of};
use crate::family::tally::{insert_sorted, sorted_set_of};
use crate::family::order::lex_sorted;
use crate::seam::{decimal, decimal_string, decimal_u64_string};
use crate::text::{
    chars_of, ends_with, ends_with_exec, lemma_first_index, owned, split_chars, split_seq, str_eq, string_of, views,
};

verus! {

/// The file-name suffix the fixtures of a bucket carry.
pub open spec fn expected_suffix(bucket: Seq<char>) -> Seq<char> {
    if bucket == "aligned"@ {
        "_aligned.unit.spec"@
    } else if bucket == "drift"@ {
        "_drift.unit.spec"@
    } else if bucket == "under_specified"@ {
        "_under_specified.unit.spec"@
    } else if bucket == "unsupported_near_miss"@ {
        "_unsupported_near_miss.unit.spec"@
    } else {
        ".unit.spec"@
    }
}

pub fn expected_suffix_for_bucket(bucket: &str) -> (r: &'static str)
    ensures
        r@ == expected_suffix(bucket@),
{
    if str_eq(bucket, "aligned") {
        "_aligned.unit.spec"
    } else if str_eq(bucket, "drift") {
        "_drift.unit.spec"
    } else if str_eq(bucket, "under_specified") {
        "_under_specified.unit.spec"
    } else if str_eq(bucket, "unsupported_near_miss") {
        "_unsupported_near_miss.unit.spec"
    } else {
        ".unit.spec"
    }
}

/// The components of a `/`-separated path that `Path::components` yields after its root:
/// every non-empty piece but `.`.
pub open spec fn path_components(parts: Seq<Seq<char>>) -> Seq<Seq<char>>
    decreases parts.len(),
{
    if parts.len() == 0 {
        Seq::empty()
    } else if parts.last().len() == 0 || parts.last() == "."@ {
        path_components(parts.drop_last())
    } else {
        path_components(parts.drop_last()).push(parts.last())
    }
}

/// The deepest ancestor of the path whose parent is named `semantic-families`: the
/// largest `k` such that component `k - 2` is that name and component `k - 1` is a name.
pub open spec fn packet_depth(cs: Seq<Seq<char>>, k: int) -> Option<int>
    decreases k,
{
    if k < 2 {
        None
    } else if cs[k - 2] == "semantic-families"@ && cs[k - 1] != ".."@ {
        Some(k - 1)
    } else {
        packet_depth(cs, k - 1)
    }
}

/// The packet a path lies in: the name below `semantic-families`, `<unknown>` if none.
pub open spec fn packet_name_of(path: Seq<char>) -> Seq<char> {
    let cs = path_components(split_seq(path, '/'));
    match packet_depth(cs, cs.len() as int) {
        Some(i) => cs[i],
        None => "<unknown>"@,
    }
}

fn chars_equal(p: &Vec<char>, lit: &str) -> (r: bool)
    ensures
        r == (p@ == lit@),
{
    let l = chars_of(lit);
    crate::text::seq_eq(p, &l)
}

pub fn packet_name(bucket_root: &str) -> (r: String)
    ensures
        r@ == packet_name_of(bucket_root@),
{
    proof {
        reveal_strlit(".");
    }
    let cs = chars_of(bucket_root);
    let parts = split_chars(&cs, '/');
    let ghost ps = split_seq(bucket_root@, '/');
    let mut comps: Vec<Vec<char>> = Vec::new();
    let mut i: usize = 0;
    while i < parts.len()
        invariant
            i <= parts@.len(),
            views(parts@) == ps,
            views(comps@) == path_components(ps.take(i as int)),
        decreases parts@.len() - i,
    {
        proof {
            assert(ps.take(i + 1).drop_last() =~= ps.take(i as int));
            assert(ps.take(i + 1).last() == parts@[i as int]@);
        }
        let p = &parts[i];
        if !(p.len() == 0 || chars_equal(p, ".")) {
            let ghost before = comps@;
            comps.push(p.clone());
            proof {
                assert(views(comps@) =~= views(before).push(parts@[i as int]@));
            }
        }
        i = i + 1;
    }
    proof {
        assert(ps.take(parts@.len() as int) =~= ps);
        reveal_strlit("semantic-families");
        reveal_strlit("..");
    }
    let ghost vc = views(comps@);
    let mut k: usize = comps.len();
    while k >= 2
        invariant
            k <= comps@.len(),
            vc == views(comps@),
            vc == path_components(split_seq(bucket_root@, '/')),
            packet_depth(vc, vc.len() as int) == packet_depth(vc, k as int),
        decreases k,
    {
        proof {
            assert(vc[k - 2] == comps@[k - 2]@);
            assert(vc[k - 1] == comps@[k - 1]@);
        }
        if chars_equal(&comps[k - 2], "semantic-families") && !chars_equal(&comps[k - 1], "..") {
            return string_of(&comps[k - 1]);
        }
        k = k - 1;
    }
    owned("<unknown>")
}

/// A file under `units/` that the layout ignores: `.gitignore`, or a passport or evidence
/// record beside a fixture.
pub open spec fn ignored_units_entry(component_count: int, file_name: Seq<char>) -> bool {
    file_name == ".gitignore"@ || (component_count == 2 && (ends_with(file_name, ".spec.passport.json"@) || ends_with(
        file_name,
        ".test.evidence.json"@,
    )))
}

pub fn is_ignored_derived_units_artifact(component_count: usize, file_name: &str) -> (r: bool)
    ensures
        r == ignored_units_entry(component_count as int, file_name@),
{
    let cs = chars_of(file_name);
    str_eq(file_name, ".gitignore") || (component_count == 2 && (ends_with_exec(&cs, ".spec.passport.json")
        || ends_with_exec(&cs, ".test.evidence.json")))
}

/// The debug text of the required bucket names.
pub open spec fn required_buckets_text() -> Seq<char> {
    "[\"aligned\", \"drift\", \"under_specified\", \"unsupported_near_miss\"]"@
}

/// Entry `k` of a directory listing, by name and whether it is a directory.
pub open spec fn entry_names(entries: Seq<(String, bool)>) -> Seq<Seq<char>> {
    entries.map_values(|e: (String, bool)| e.0@)
}

/// The first problem with the fixtures directory, given its entries in the order they
/// were read: an entry that is not a directory, or a set of buckets other than the
/// required one.
pub open spec fn fixture_dirs_issue(root: Seq<char>, entries: Seq<(String, bool)>) -> Option<XtaskErrorView> {
    match crate::text::first_match(entries, |e: (String, bool)| !e.1, 0) {
        Some(i) => Some(
            XtaskErrorView::InvalidInput(
                "fixtures directory `"@ + root + "` must contain only bucket directories; found `"@ + entries[i].0@
                    + "`"@,
            ),
        ),
        None => if entry_names(entries).to_set() == required_buckets().to_set() {
            None
        } else {
            Some(
                XtaskErrorView::InvalidInput(
                    "fixtures directory `"@ + root + "` must contain exactly "@ + required_buckets_text(),
                ),
            )
        },
    }
}

proof fn lemma_same_set_iff(a: Seq<Seq<char>>, b: Seq<Seq<char>>)
    ensures
        (a.to_set() == b.to_set()) == ((forall|x: Seq<char>| #[trigger] a.contains(x) ==> b.contains(x)) && (forall|
            x: Seq<char>,
        | #[trigger] b.contains(x) ==> a.contains(x))),
{
    if (forall|x: Seq<char>| #[trigger] a.contains(x) ==> b.contains(x)) && (forall|x: Seq<char>|
        #[trigger] b.contains(x) ==> a.contains(x)) {
        assert(a.to_set() =~= b.to_set());
    }
    if a.to_set() == b.to_set() {
        assert forall|x: Seq<char>| #[trigger] a.contains(x) implies b.contains(x) by {
            assert(a.to_set().contains(x));
        }
        assert forall|x: Seq<char>| #[trigger] b.contains(x) implies a.contains(x) by {
            assert(b.to_set().contains(x));
        }
    }
}

fn strings_contain(v: &Vec<String>, x: &str) -> (r: bool)
    ensures
        r == views_of(v@).contains(x@),
{
    crate::family::tally::contains_string(v, x)
}

/// Whether two lists of names hold the same names.
fn same_names(a: &Vec<String>, b: &Vec<String>) -> (r: bool)
    ensures
        r == (views_of(a@).to_set() == views_of(b@).to_set()),
{
    proof {
        lemma_same_set_iff(views_of(a@), views_of(b@));
    }
    let mut i: usize = 0;
    while i < a.len()
        invariant
            i <= a@.len(),
            forall|k: int| 0 <= k < i ==> views_of(b@).contains(#[trigger] views_of(a@)[k]),
        decreases a@.len() - i,
    {
        proof {
            assert(views_of(a@)[i as int] == a@[i as int]@);
        }
        if !strings_contain(b, a[i].as_str()) {
            proof {
                assert(views_of(a@).contains(views_of(a@)[i as int]));
                lemma_same_set_iff(views_of(a@), views_of(b@));
            }
            return false;
        }
        i = i + 1;
    }
    let mut j: usize = 0;
    while j < b.len()
        invariant
            j <= b@.len(),
            forall|k: int| 0 <= k < a@.len() ==> views_of(b@).contains(#[trigger] views_of(a@)[k]),
            forall|k: int| 0 <= k < j ==> views_of(a@).contains(#[trigger] views_of(b@)[k]),
        decreases b@.len() - j,
    {
        proof {
            assert(views_of(b@)[j as int] == b@[j as int]@);
        }
        if !strings_contain(a, b[j].as_str()) {
            proof {
                assert(views_of(b@).contains(views_of(b@)[j as int]));
                lemma_same_set_iff(views_of(a@), views_of(b@));
            }
            return false;
        }
        j = j + 1;
    }
    proof {
        assert forall|x: Seq<char>| #[trigger] views_of(a@).contains(x) implies views_of(b@).contains(x) by {
            let k = choose|k: int| 0 <= k < views_of(a@).len() && views_of(a@)[k] == x;
        }
        assert forall|x: Seq<char>| #[trigger] views_of(b@).contains(x) implies views_of(a@).contains(x) by {
            let k = choose|k: int| 0 <= k < views_of(b@).len() && views_of(b@)[k] == x;
        }
    }
    true
}

/// Checks the entries of the fixtures directory `fixtures_root`, as they were read.
pub fn check_fixture_directory_set(fixtures_root: &str, entries: &Vec<(String, bool)>) -> (r: Result<(), XtaskError>)
    ensures
        match fixture_dirs_issue(fixtures_root@, entries@) {
            None => r is Ok,
            Some(e) => r matches Err(x) && x@ == e,
        },
{
    let ghost p = |e: (String, bool)| !e.1;
    let mut names: Vec<String> = Vec::new();
    let mut i: usize = 0;
    while i < entries.len()
        invariant
            i <= entries@.len(),
            p == (|e: (String, bool)| !e.1),
            crate::text::first_match(entries@, p, 0) == crate::text::first_match(entries@, p, i as int),
            views_of(names@) == entry_names(entries@).take(i as int),
        decreases entries@.len() - i,
    {
        if !entries[i].1 {
            let mut m = owned("fixtures directory `");
            m.append(fixtures_root);
            m.append("` must contain only bucket directories; found `");
            m.append(entries[i].0.as_str());
            m.append("`");
            return Err(XtaskError::InvalidInput(m));
        }
        let ghost before = names@;
        names.push(owned(entries[i].0.as_str()));
        proof {
            assert(views_of(names@) =~= views_of(before).push(entries@[i as int].0@));
            assert(entry_names(entries@).take(i + 1) =~= entry_names(entries@).take(i as int).push(
                entries@[i as int].0@,
            ));
        }
        i = i + 1;
    }
    proof {
        assert(entry_names(entries@).take(entries@.len() as int) =~= entry_names(entries@));
    }
    let expected = required_bucket_names();
    if !same_names(&names, &expected) {
        let mut m = owned("fixtures directory `");
        m.append(fixtures_root);
        m.append("` must contain exactly ");
        m.append("[\"aligned\", \"drift\", \"under_specified\", \"unsupported_near_miss\"]");
        return Err(XtaskError::InvalidInput(m));
    }
    Ok(())
}

pub open spec fn bucket_root_names() -> Seq<Seq<char>> {
    seq!["Cargo.toml"@, "src"@, "units"@]
}

/// Checks that a bucket directory holds exactly `Cargo.toml`, `src` and `units`.
pub fn check_bucket_root_entries(bucket_root: &str, names: &Vec<String>) -> (r: Result<(), XtaskError>)
    ensures
        views_of(names@).to_set() == bucket_root_names().to_set() ==> r is Ok,
        views_of(names@).to_set() != bucket_root_names().to_set() ==> (r matches Err(e) && e@
            == XtaskErrorView::InvalidInput(
            "bucket `"@ + bucket_root@ + "` must contain exactly Cargo.toml, src/, and units/"@,
        )),
{
    let expected = vec![owned("Cargo.toml"), owned("src"), owned("units")];
    proof {
        assert(views_of(expected@) =~= bucket_root_names());
    }
    if !same_names(names, &expected) {
        let mut m = owned("bucket `");
        m.append(bucket_root);
        m.append("` must contain exactly Cargo.toml, src/, and units/");
        return Err(XtaskError::InvalidInput(m));
    }
    Ok(())
}

/// A file met while walking a bucket's `units/`: its path as displayed, how many
/// components it has below `units/`, and its file name when that is UTF-8.
#[derive(Debug, Clone)]
pub struct UnitsEntry {
    pub path: String,
    pub component_count: usize,
    pub file_name: Option<String>,
}

/// What a file under `units/` is: an error, a fixture of the bucket (`true`), or a file
/// the bucket does not count (`false`); `seen` holds the fixture names of the packet so far.
pub open spec fn units_entry_outcome(
    e: UnitsEntry,
    suffix: Seq<char>,
    packet: Seq<char>,
    seen: Set<Seq<char>>,
) -> Result<bool, XtaskErrorView> {
    match e.file_name {
        None => Err(XtaskErrorView::InvalidInput("units entry `"@ + e.path@ + "` has a non-UTF-8 filename"@)),
        Some(name) => if ignored_units_entry(e.component_count as int, name@) {
            Ok(false)
        } else if e.component_count != 2 {
            Err(
                XtaskErrorView::InvalidInput(
                    "units entry `"@ + e.path@ + "` must match units/<namespace>/<case>.unit.spec"@,
                ),
            )
        } else if !ends_with(name@, ".unit.spec"@) {
            Err(XtaskErrorView::InvalidInput("units entry `"@ + e.path@ + "` must end with `.unit.spec`"@))
        } else if ends_with(name@, suffix) {
            if seen.contains(name@) {
                Err(
                    XtaskErrorView::InvalidInput(
                        "duplicate fixture filename `"@ + name@ + "` found across packet `"@ + packet + "`"@,
                    ),
                )
            } else {
                Ok(true)
            }
        } else {
            Ok(false)
        }
    }
}

/// Classifies one file under a bucket's `units/`; a new fixture name joins `seen`.
pub fn classify_units_entry(
    entry: &UnitsEntry,
    expected_suffix: &str,
    packet: &str,
    seen: &mut Vec<String>,
) -> (r: Result<bool, XtaskError>)
    requires
        lex_sorted(views_of(old(seen)@)),
    ensures
        lex_sorted(views_of(final(seen)@)),
        match units_entry_outcome(*entry, expected_suffix@, packet@, views_of(old(seen)@).to_set()) {
            Ok(b) => r matches Ok(c) && c == b,
            Err(e) => r matches Err(x) && x@ == e,
        },
        match r {
            Ok(true) => views_of(final(seen)@).to_set() == views_of(old(seen)@).to_set().insert(
                entry.file_name->Some_0@,
            ),
            _ => views_of(final(seen)@).to_set() == views_of(old(seen)@).to_set(),
        },
{
    let name = match &entry.file_name {
        None => {
            let mut m = owned("units entry `");
            m.append(entry.path.as_str());
            m.append("` has a non-UTF-8 filename");
            return Err(XtaskError::InvalidInput(m));
        },
        Some(n) => n,
    };
    if is_ignored_derived_units_artifact(entry.component_count, name.as_str()) {
        return Ok(false);
    }
    if entry.component_count != 2 {
        let mut m = owned("units entry `");
        m.append(entry.path.as_str());
        m.append("` must match units/<namespace>/<case>.unit.spec");
        return Err(XtaskError::InvalidInput(m));
    }
    let cs = chars_of(name.as_str());
    if !ends_with_exec(&cs, ".unit.spec") {
        let mut m = owned("units entry `");
        m.append(entry.path.as_str());
        m.append("` must end with `.unit.spec`");
        return Err(XtaskError::InvalidInput(m));
    }
    if ends_with_exec(&cs, expected_suffix) {
        if crate::family::tally::contains_string(seen, name.as_str()) {
            proof {
                lemma_contains_to_set(views_of(seen@), name@);
            }
            let mut m = owned("duplicate fixture filename `");
            m.append(name.as_str());
            m.append("` found across packet `");
            m.append(packet);
            m.append("`");
            return Err(XtaskError::InvalidInput(m));
        }
        proof {
            lemma_contains_to_set(views_of(seen@), name@);
        }
        insert_sorted(seen, name.as_str());
        return Ok(true);
    }
    Ok(false)
}

proof fn lemma_contains_to_set(s: Seq<Seq<char>>, x: Seq<char>)
    ensures
        s.contains(x) == s.to_set().contains(x),
{
}

/// Checks that a bucket holds at least `min_cases_per_bucket` fixtures.
pub fn check_case_count(bucket: &str, min_cases_per_bucket: u64, count: usize) -> (r: Result<(), XtaskError>)
    ensures
        count >= min_cases_per_bucket ==> r is Ok,
        count < min_cases_per_bucket ==> (r matches Err(e) && e@ == XtaskErrorView::InvalidInput(
            "bucket `"@ + bucket@ + "` must contain at least "@ + decimal(min_cases_per_bucket as nat)
                + " `.unit.spec` file(s)"@,
        )),
{
    if (count as u128) < (min_cases_per_bucket as u128) {
        let mut m = owned("bucket `");
        m.append(bucket);
        m.append("` must contain at least ");
        let n = decimal_u64_string(min_cases_per_bucket);
        m.append(n.as_str());
        m.append(" `.unit.spec` file(s)");
        return Err(XtaskError::InvalidInput(m));
    }
    Ok(())
}

/// How many times `pat` occurs in `s` without overlapping, found from the left; an empty
/// pattern occurs at every character boundary.
pub open spec fn match_count(s: Seq<char>, pat: Seq<char>) -> nat
    decreases s.len(),
{
    if pat.len() == 0 {
        (s.len() + 1) as nat
    } else {
        match first_occurrence(s, pat) {
            None => 0,
            Some(i) => {
                proof {
                    lemma_first_index(s.len() - pat.len() + 1, occurs_at(s, pat), 0);
                }
                1 + match_count(s.skip(i + pat.len()), pat)
            },
        }
    }
}

fn count_matches(s: &Vec<char>, pat: &Vec<char>) -> (r: usize)
    requires
        pat@.len() > 0 || s@.len() < usize::MAX,
    ensures
        r == match_count(s@, pat@),
{
    if pat.len() == 0 {
        return s.len() + 1;
    }
    let mut rest = skip_chars(s, 0);
    proof {
        assert(s@.skip(0) =~= s@);
    }
    let mut count: usize = 0;
    let total: usize = s.len();
    loop
        invariant
            pat@.len() > 0,
            total == s@.len(),
            count + rest@.len() <= s@.len(),
            match_count(s@, pat@) == count + match_count(rest@, pat@),
        decreases rest@.len(),
    {
        match find_first(&rest, pat) {
            None => {
                return count;
            },
            Some(i) => {
                proof {
                    lemma_first_index(rest@.len() - pat@.len() + 1, occurs_at(rest@, pat@), 0);
                }
                let _rest_len: usize = rest.len();
                let next = skip_chars(&rest, i + pat.len());
                count = count + 1;
                rest = next;
            },
        }
    }
}

/// The first locked starter case the candidate notes do not name exactly once, with how
/// often they name it.
pub open spec fn mention_issue(candidate: Seq<char>, cases: Seq<Seq<char>>, n: int) -> Option<(Seq<char>, nat)>
    decreases n,
{
    if n <= 0 {
        None
    } else if mention_issue(candidate, cases, n - 1) is Some {
        mention_issue(candidate, cases, n - 1)
    } else if match_count(candidate, cases[n - 1]) != 1 {
        Some((cases[n - 1], match_count(candidate, cases[n - 1])))
    } else {
        None
    }
}

proof fn lemma_mention_issue_stable(candidate: Seq<char>, cases: Seq<Seq<char>>, n: int, m: int)
    requires
        n <= m,
        mention_issue(candidate, cases, n) is Some,
    ensures
        mention_issue(candidate, cases, m) == mention_issue(candidate, cases, n),
    decreases m - n,
{
    if m > n {
        lemma_mention_issue_stable(candidate, cases, n, m - 1);
    }
}

/// Checks that the candidate notes of `packet` name each locked starter case exactly once.
pub fn check_candidate_mentions(candidate: &str, packet: &str, case_paths: &Vec<String>) -> (r: Result<(), XtaskError>)
    requires
        candidate@.len() < usize::MAX,
    ensures
        match mention_issue(candidate@, views_of(case_paths@), case_paths@.len() as int) {
            None => r is Ok,
            Some((path, n)) => r matches Err(e) && e@ == XtaskErrorView::InvalidInput(
                "candidate.md for `"@ + packet@ + "` must mention locked starter case `"@ + path
                    + "` exactly once, found "@ + decimal(n),
            ),
        },
{
    let text = chars_of(candidate);
    let ghost cs = views_of(case_paths@);
    let mut i: usize = 0;
    while i < case_paths.len()
        invariant
            i <= case_paths@.len(),
            text@ == candidate@,
            text@.len() < usize::MAX,
            cs == views_of(case_paths@),
            mention_issue(candidate@, cs, i as int) is None,
        decreases case_paths@.len() - i,
    {
        proof {
            assert(cs[i as int] == case_paths@[i as int]@);
        }
        let pat = chars_of(case_paths[i].as_str());
        let n = count_matches(&text, &pat);
        if n != 1 {
            proof {
                lemma_mention_issue_stable(candidate@, cs, i + 1, cs.len() as int);
            }
            let mut m = owned("candidate.md for `");
            m.append(packet);
            m.append("` must mention locked starter case `");
            m.append(case_paths[i].as_str());
            m.append("` exactly once, found ");
            let ns = decimal_string(n);
            m.append(ns.as_str());
            return Err(XtaskError::InvalidInput(m));
        }
        i = i + 1;
    }
    Ok(())
}

} // verus!
