//! Reading libtest output and attesting that a suite ran exactly its expected tests.
use vstd::prelude::*;
use vstd::relations::{sorted_by, total_ordering};
use crate::family::order::{in_string_order, lemma_lex_leq_total, lex_leq, sort_strings};
use crate::family::paths::views_of;
use crate::text::{
    chars_of, first_index, owned, split_chars, split_seq, starts_with, starts_with_exec,
    string_of, tail_from, trim_chars, trim_seq, views,
};

verus! {

/// The outcome libtest printed for one test.
#[derive(Debug, Clone, Copy, PartialEq, Eq, Structural)]
pub enum LibtestResult {
    Passed,
    Failed,
    Ignored,
}

/// One `test <name> ... <result>` line of libtest output.
#[derive(Debug, Clone)]
pub struct AttestedTest {
    pub name: String,
    pub result: LibtestResult,
}

/// What a command printed and how it exited.
#[derive(Debug, Clone)]
pub struct CommandOutput {
    pub exit_code: i32,
    pub stdout: String,
    pub stderr: String,
}

/// The lines of `s`: split at each `\n`, with no empty line after a final `\n`.
/// A `\r` before a `\n` stays on its line; every reader here trims it away.
pub open spec fn text_lines(s: Seq<char>) -> Seq<Seq<char>> {
    if s.len() == 0 {
        Seq::empty()
    } else if s.last() == '\n' {
        split_seq(s, '\n').drop_last()
    } else {
        split_seq(s, '\n')
    }
}

/// Whether `pat` occurs in `s` at a given index.
pub open spec fn occurs_at(s: Seq<char>, pat: Seq<char>) -> spec_fn(int) -> bool {
    |i: int| s.subrange(i, i + pat.len()) == pat
}

/// Where `pat` first occurs in `s`.
pub open spec fn first_occurrence(s: Seq<char>, pat: Seq<char>) -> Option<int> {
    first_index(s.len() - pat.len() + 1, occurs_at(s, pat), 0)
}

/// The libtest result a trimmed result word names.
pub open spec fn libtest_result_of(word: Seq<char>) -> Option<LibtestResult> {
    if word == "ok"@ {
        Some(LibtestResult::Passed)
    } else if word == "FAILED"@ {
        Some(LibtestResult::Failed)
    } else if word == "ignored"@ {
        Some(LibtestResult::Ignored)
    } else {
        None
    }
}

/// The test name and result that a line of libtest output reports, if it reports one:
/// the trimmed line starts with `test `, and what follows splits at its first ` ... `
/// into a name and one of the words `ok`, `FAILED` or `ignored` (both sides trimmed).
pub open spec fn libtest_line(line: Seq<char>) -> Option<(Seq<char>, LibtestResult)> {
    let t = trim_seq(line);
    if !starts_with(t, "test "@) {
        None
    } else {
        let body = t.skip(5);
        match first_occurrence(body, " ... "@) {
            None => None,
            Some(i) => match libtest_result_of(trim_seq(body.skip(i + 5))) {
                None => None,
                Some(r) => Some((trim_seq(body.take(i)), r)),
            },
        }
    }
}

pub open spec fn attested_view(a: AttestedTest) -> (Seq<char>, LibtestResult) {
    (a.name@, a.result)
}

pub open spec fn attested_views(v: Seq<AttestedTest>) -> Seq<(Seq<char>, LibtestResult)> {
    v.map_values(|a: AttestedTest| attested_view(a))
}

/// The reports of the lines of `ls`, in order, skipping lines that report none.
pub open spec fn parsed_lines(ls: Seq<Seq<char>>) -> Seq<(Seq<char>, LibtestResult)>
    decreases ls.len(),
{
    if ls.len() == 0 {
        Seq::empty()
    } else {
        let prev = parsed_lines(ls.drop_last());
        match libtest_line(ls.last()) {
            Some(x) => prev.push(x),
            None => prev,
        }
    }
}

/// Every test report in a command's output: its standard output first, then its error output.
pub open spec fn output_attestations(stdout: Seq<char>, stderr: Seq<char>) -> Seq<(Seq<char>, LibtestResult)> {
    parsed_lines(text_lines(stdout) + text_lines(stderr))
}

/// The lines of `s` as [`text_lines`] gives them.
pub fn lines_of(s: &str) -> (r: Vec<Vec<char>>)
    ensures
        views(r@) == text_lines(s@),
{
    let cs = chars_of(s);
    if cs.len() == 0 {
        let r: Vec<Vec<char>> = Vec::new();
        proof {
            assert(views(r@) =~= text_lines(s@));
        }
        return r;
    }
    let mut parts = split_chars(&cs, '\n');
    if cs[cs.len() - 1] == '\n' {
        proof {
            crate::text::lemma_split_nonempty(cs@, '\n');
        }
        let ghost before = parts@;
        parts.pop();
        proof {
            assert(views(parts@) =~= views(before).drop_last());
        }
    }
    parts
}

/// Where `pat` first occurs in `s`, searching from the left.
pub fn find_first(s: &Vec<char>, pat: &Vec<char>) -> (r: Option<usize>)
    ensures
        match r {
            Some(i) => first_occurrence(s@, pat@) == Some(i as int) && i + pat@.len() <= s@.len(),
            None => first_occurrence(s@, pat@) is None,
        },
{
    let ghost p = occurs_at(s@, pat@);
    let ghost n = s@.len() - pat@.len() + 1;
    if pat.len() > s.len() {
        assert(first_occurrence(s@, pat@) == first_index(n, p, 0));
        return None;
    }
    let mut i: usize = 0;
    let last = s.len() - pat.len();
    while i <= last
        invariant
            last == s@.len() - pat@.len(),
            pat@.len() <= s@.len(),
            i <= s@.len() - pat@.len() + 1,
            n == s@.len() - pat@.len() + 1,
            p == occurs_at(s@, pat@),
            first_occurrence(s@, pat@) == first_index(n, p, i as int),
        decreases s@.len() - i,
    {
        let mut j: usize = 0;
        let mut same = true;
        while j < pat.len()
            invariant
                i <= last,
                last == s@.len() - pat@.len(),
                i + pat.len() <= s.len(),
                j <= pat@.len(),
                same == forall|k: int| 0 <= k < j ==> s@[i + k] == pat@[k],
            decreases pat@.len() - j,
        {
            if s[i + j] != pat[j] {
                same = false;
            }
            j = j + 1;
        }
        if same {
            proof {
                assert(s@.subrange(i as int, i + pat@.len()) =~= pat@);
            }
            return Some(i);
        }
        proof {
            let k0 = choose|k: int| 0 <= k < pat@.len() && s@[i + k] != pat@[k];
            assert(s@.subrange(i as int, i + pat@.len())[k0] != pat@[k0]);
            assert(!p(i as int));
        }
        if i == last {
            proof {
                assert(first_index(n, p, i + 1) is None);
            }
            return None;
        }
        i = i + 1;
    }
    None
}

/// Whether the characters of `s` are exactly those of `lit`.
pub(crate) fn chars_are(s: &Vec<char>, lit: &str) -> (r: bool)
    ensures
        r == (s@ == lit@),
{
    let l = chars_of(lit);
    crate::text::seq_eq(s, &l)
}

/// The test name and result that `line` reports, as [`libtest_line`] reads it.
pub fn parse_libtest_line(line: &str) -> (r: Option<AttestedTest>)
    ensures
        match r {
            Some(a) => libtest_line(line@) == Some(attested_view(a)),
            None => libtest_line(line@) is None,
        },
{
    proof {
        reveal_strlit("test ");
        reveal_strlit(" ... ");
    }
    let raw = chars_of(line);
    let t = trim_chars(&raw);
    if !starts_with_exec(&t, "test ") {
        return None;
    }
    let body = tail_from(&t, 5);
    let sep = chars_of(" ... ");
    let at = match find_first(&body, &sep) {
        None => {
            return None;
        },
        Some(i) => i,
    };
    let rest = tail_from(&body, at + 5);
    let word = trim_chars(&rest);
    let result = if chars_are(&word, "ok") {
        LibtestResult::Passed
    } else if chars_are(&word, "FAILED") {
        LibtestResult::Failed
    } else if chars_are(&word, "ignored") {
        LibtestResult::Ignored
    } else {
        return None;
    };
    let mut head: Vec<char> = Vec::new();
    let mut k: usize = 0;
    while k < at
        invariant
            k <= at,
            at + 5 <= body@.len(),
            head@ == body@.take(k as int),
        decreases at - k,
    {
        head.push(body[k]);
        k = k + 1;
        proof {
            assert(head@ =~= body@.take(k as int));
        }
    }
    let name_chars = trim_chars(&head);
    Some(AttestedTest { name: string_of(&name_chars), result })
}

/// Every test report in `output`, as [`output_attestations`] reads it.
pub fn parse_libtest_attestations(output: &CommandOutput) -> (r: Vec<AttestedTest>)
    ensures
        attested_views(r@) == output_attestations(output.stdout@, output.stderr@),
{
    let mut ls = lines_of(output.stdout.as_str());
    let mut errs = lines_of(output.stderr.as_str());
    let ghost all = text_lines(output.stdout@) + text_lines(output.stderr@);
    proof {
        assert(views(ls@) + views(errs@) =~= views(ls@ + errs@));
    }
    ls.append(&mut errs);
    let mut out: Vec<AttestedTest> = Vec::new();
    let mut i: usize = 0;
    while i < ls.len()
        invariant
            i <= ls@.len(),
            views(ls@) == all,
            attested_views(out@) == parsed_lines(all.take(i as int)),
        decreases ls@.len() - i,
    {
        let line = string_of(&ls[i]);
        let parsed = parse_libtest_line(line.as_str());
        proof {
            assert(all.take(i + 1).drop_last() =~= all.take(i as int));
            assert(all.take(i + 1).last() == ls@[i as int]@);
        }
        match parsed {
            Some(a) => {
                let ghost before = out@;
                out.push(a);
                proof {
                    assert(attested_views(out@) =~= attested_views(before).push(attested_view(a)));
                }
            },
            None => {},
        }
        i = i + 1;
    }
    proof {
        assert(all.take(ls@.len() as int) =~= all);
    }
    out
}

/// A test suite: its name, the command that runs it, and the tests it must report.
#[derive(Debug, Clone, Copy)]
pub struct SuiteDefinition {
    pub name: &'static str,
    pub command: &'static [&'static str],
    pub expected_tests: &'static [&'static str],
}

/// Why a suite's output was not accepted, with the test names it reported, sorted.
#[derive(Debug)]
pub struct AttestationFailure {
    pub attested_tests: Vec<String>,
}

pub open spec fn str_views(s: Seq<&str>) -> Seq<Seq<char>> {
    s.map_values(|x: &str| x@)
}

pub open spec fn names_of(a: Seq<(Seq<char>, LibtestResult)>) -> Seq<Seq<char>> {
    a.map_values(|e: (Seq<char>, LibtestResult)| e.0)
}

/// A suite passes when its command exited with 0 and its output reports at least one test,
/// every reported test passed, no test is reported twice, and the reported names are
/// exactly the expected ones.
pub open spec fn attestation_passes(
    expected: Seq<Seq<char>>,
    exit_code: i32,
    att: Seq<(Seq<char>, LibtestResult)>,
) -> bool {
    &&& exit_code == 0
    &&& att.len() > 0
    &&& forall|i: int| 0 <= i < att.len() ==> (#[trigger] att[i]).1 == LibtestResult::Passed
    &&& names_of(att).no_duplicates()
    &&& names_of(att).to_set() == expected.to_set()
}

proof fn lemma_no_duplicates_transfer(a: Seq<Seq<char>>, b: Seq<Seq<char>>)
    requires
        a.to_multiset() == b.to_multiset(),
    ensures
        a.no_duplicates() <==> b.no_duplicates(),
{
    if a.no_duplicates() {
        a.lemma_multiset_has_no_duplicates();
        b.lemma_multiset_has_no_duplicates_conv();
    }
    if b.no_duplicates() {
        b.lemma_multiset_has_no_duplicates();
        a.lemma_multiset_has_no_duplicates_conv();
    }
}

/// Whether a sorted list of strings repeats one.
fn sorted_has_repeat(v: &Vec<String>) -> (r: bool)
    requires
        sorted_by(views_of(v@), lex_leq()),
        total_ordering(lex_leq()),
    ensures
        r == !views_of(v@).no_duplicates(),
{
    let ghost s = views_of(v@);
    let mut k: usize = 0;
    while k < v.len() && k + 1 < v.len()
        invariant
            k <= v@.len(),
            s == views_of(v@),
            forall|a: int| 0 <= a < k && a + 1 < s.len() ==> s[a] != #[trigger] s[a + 1],
        decreases v@.len() - k,
    {
        if v[k] == v[k + 1] {
            proof {
                assert(s[k as int] == s[k + 1]);
            }
            return true;
        }
        proof {
            assert(s[k as int] != s[k + 1]);
        }
        k = k + 1;
    }
    proof {
        assert forall|i: int, j: int| 0 <= i < s.len() && 0 <= j < s.len() && i != j implies s[i] != s[j] by {
            let a = if i < j { i } else { j };
            let b = if i < j { j } else { i };
            if s[a] == s[b] {
                assert(s[a] != s[a + 1]);
                if a + 1 < b {
                    assert(lex_leq()(s[a + 1], s[b]));
                }
                assert(lex_leq()(s[a], s[a + 1]));
            }
        }
    }
    false
}

fn contains_chars(v: &Vec<String>, x: &Vec<char>) -> (r: bool)
    ensures
        r == views_of(v@).contains(x@),
{
    let mut i: usize = 0;
    while i < v.len()
        invariant
            i <= v@.len(),
            forall|k: int| 0 <= k < i ==> v@[k]@ != x@,
        decreases v@.len() - i,
    {
        let c = chars_of(v[i].as_str());
        if crate::text::seq_eq(&c, x) {
            proof {
                assert(views_of(v@)[i as int] == x@);
            }
            return true;
        }
        i = i + 1;
    }
    proof {
        if views_of(v@).contains(x@) {
            let k = choose|k: int| 0 <= k < v@.len() && views_of(v@)[k] == x@;
            assert(v@[k]@ == x@);
        }
    }
    false
}

fn contains_str(v: &'static [&'static str], x: &Vec<char>) -> (r: bool)
    ensures
        r == str_views(v@).contains(x@),
{
    let mut i: usize = 0;
    while i < v.len()
        invariant
            i <= v@.len(),
            forall|k: int| 0 <= k < i ==> v@[k]@ != x@,
        decreases v@.len() - i,
    {
        let c = chars_of(v[i]);
        if crate::text::seq_eq(&c, x) {
            proof {
                assert(str_views(v@)[i as int] == x@);
            }
            return true;
        }
        i = i + 1;
    }
    proof {
        if str_views(v@).contains(x@) {
            let k = choose|k: int| 0 <= k < v@.len() && str_views(v@)[k] == x@;
            assert(v@[k]@ == x@);
        }
    }
    false
}

/// Checks a suite's output against the tests it must report, and gives back the
/// reported test names in sorted order either way.
pub fn attest_suite_output(suite: SuiteDefinition, output: &CommandOutput) -> (r: Result<Vec<String>, AttestationFailure>)
    ensures
        ({
            let att = output_attestations(output.stdout@, output.stderr@);
            let sorted = in_string_order(names_of(att));
            let passes = attestation_passes(str_views(suite.expected_tests@), output.exit_code, att);
            match r {
                Ok(v) => passes && views_of(v@) == sorted,
                Err(f) => !passes && views_of(f.attested_tests@) == sorted,
            }
        }),
{
    broadcast use vstd::seq_lib::group_to_multiset_ensures;

    let attested = parse_libtest_attestations(output);
    let ghost att = output_attestations(output.stdout@, output.stderr@);
    let ghost expected = str_views(suite.expected_tests@);
    let mut names: Vec<String> = Vec::new();
    let mut i: usize = 0;
    while i < attested.len()
        invariant
            i <= attested@.len(),
            attested_views(attested@) == att,
            views_of(names@) == names_of(att.take(i as int)),
        decreases attested@.len() - i,
    {
        let n = owned(attested[i].name.as_str());
        names.push(n);
        proof {
            assert(names_of(att.take(i + 1)) =~= names_of(att.take(i as int)).push(att[i as int].0));
            assert(att[i as int] == attested_view(attested@[i as int]));
            assert(views_of(names@) =~= names_of(att.take(i + 1)));
        }
        i = i + 1;
    }
    proof {
        assert(att.take(att.len() as int) =~= att);
        lemma_lex_leq_total();
        names_of(att).lemma_sort_by_ensures(lex_leq());
    }
    let sorted = sort_strings(&names);
    let ghost ns = names_of(att);
    if output.exit_code != 0 || attested.len() == 0 {
        return Err(AttestationFailure { attested_tests: sorted });
    }
    let mut k: usize = 0;
    while k < attested.len()
        invariant
            k <= attested@.len(),
            attested_views(attested@) == att,
            forall|a: int| 0 <= a < k ==> (#[trigger] att[a]).1 == LibtestResult::Passed,
            att == output_attestations(output.stdout@, output.stderr@),
            ns == names_of(att),
            views_of(sorted@) == in_string_order(ns),
        decreases attested@.len() - k,
    {
        if attested[k].result != LibtestResult::Passed {
            proof {
                assert(att[k as int] == attested_view(attested@[k as int]));
                assert(att[k as int].1 != LibtestResult::Passed);
                assert(!attestation_passes(expected, output.exit_code, att));
            }
            return Err(AttestationFailure { attested_tests: sorted });
        }
        proof {
            assert(att[k as int] == attested_view(attested@[k as int]));
        }
        k = k + 1;
    }
    proof {
        lemma_no_duplicates_transfer(ns, views_of(sorted@));
        assert(att.len() == attested@.len());
    }
    if sorted_has_repeat(&sorted) {
        return Err(AttestationFailure { attested_tests: sorted });
    }
    let mut e: usize = 0;
    while e < suite.expected_tests.len()
        invariant
            e <= expected.len(),
            expected == str_views(suite.expected_tests@),
            views_of(sorted@).to_multiset() == ns.to_multiset(),
            forall|a: int| 0 <= a < e ==> ns.contains(#[trigger] expected[a]),
            att == output_attestations(output.stdout@, output.stderr@),
            ns == names_of(att),
            views_of(sorted@) == in_string_order(ns),
            output.exit_code == 0,
            att.len() > 0,
            forall|a: int| 0 <= a < att.len() ==> (#[trigger] att[a]).1 == LibtestResult::Passed,
            ns.no_duplicates(),
        decreases expected.len() - e,
    {
        let c = chars_of(suite.expected_tests[e]);
        if !contains_chars(&sorted, &c) {
            proof {
                assert(c@ == expected[e as int]);
                vstd::seq_lib::to_multiset_contains(ns, c@);
                vstd::seq_lib::to_multiset_contains(views_of(sorted@), c@);
                assert(!ns.contains(c@));
                assert(expected.to_set().contains(c@));
                assert(!ns.to_set().contains(c@));
            }
            return Err(AttestationFailure { attested_tests: sorted });
        }
        proof {
            vstd::seq_lib::to_multiset_contains(ns, c@);
            vstd::seq_lib::to_multiset_contains(views_of(sorted@), c@);
        }
        e = e + 1;
    }
    let mut a: usize = 0;
    while a < sorted.len()
        invariant
            a <= sorted@.len(),
            expected == str_views(suite.expected_tests@),
            views_of(sorted@).to_multiset() == ns.to_multiset(),
            forall|b: int| 0 <= b < a ==> expected.contains(#[trigger] views_of(sorted@)[b]),
            forall|a: int| 0 <= a < expected.len() ==> ns.contains(#[trigger] expected[a]),
            att == output_attestations(output.stdout@, output.stderr@),
            ns == names_of(att),
            views_of(sorted@) == in_string_order(ns),
            output.exit_code == 0,
            att.len() > 0,
            forall|a: int| 0 <= a < att.len() ==> (#[trigger] att[a]).1 == LibtestResult::Passed,
            ns.no_duplicates(),
        decreases sorted@.len() - a,
    {
        let c = chars_of(sorted[a].as_str());
        if !contains_str(suite.expected_tests, &c) {
            proof {
                assert(views_of(sorted@)[a as int] == c@);
                assert(views_of(sorted@).contains(c@));
                vstd::seq_lib::to_multiset_contains(ns, c@);
                vstd::seq_lib::to_multiset_contains(views_of(sorted@), c@);
                assert(ns.contains(c@));
                assert(ns.to_set().contains(c@));
                assert(!expected.to_set().contains(c@));
            }
            return Err(AttestationFailure { attested_tests: sorted });
        }
        a = a + 1;
    }
    proof {
        assert forall|x: Seq<char>| ns.to_set().contains(x) <==> expected.to_set().contains(x) by {
            vstd::seq_lib::to_multiset_contains(ns, x);
            vstd::seq_lib::to_multiset_contains(views_of(sorted@), x);
            if ns.contains(x) {
                assert(views_of(sorted@).contains(x));
                let b = choose|b: int| 0 <= b < sorted@.len() && views_of(sorted@)[b] == x;
                assert(expected.contains(views_of(sorted@)[b]));
            }
            if expected.contains(x) {
                let b = choose|b: int| 0 <= b < expected.len() && expected[b] == x;
                assert(ns.contains(expected[b]));
            }
        }
        assert(ns.to_set() =~= expected.to_set());
    }
    Ok(sorted)
}

} // verus!
