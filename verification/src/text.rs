//! Character-sequence helpers shared by the validators.
use vstd::prelude::*;

verus! {

/// The characters of `s`, in order.
pub fn chars_of(s: &str) -> (out: Vec<char>)
    ensures
        out@ == s@,
{
    let mut out: Vec<char> = Vec::new();
    for c in it: s.chars()
        invariant
            out@ == it.seq().take(it.index()),
            it.seq() == s@,
    {
        out.push(c);
    }
    out
}

/// Appends one character to a `String` (std's `String::push`).
#[verifier::external_body]
pub(crate) fn push_char(s: &mut String, c: char)
    ensures
        final(s)@ == old(s)@.push(c),
{
    s.push(c);
}

/// A `String` holding exactly the characters of `chars`.
pub fn string_of(chars: &Vec<char>) -> (out: String)
    ensures
        out@ == chars@,
{
    let mut out = String::new();
    let mut i: usize = 0;
    while i < chars.len()
        invariant
            i <= chars.len(),
            out@ == chars@.take(i as int),
        decreases chars.len() - i,
    {
        push_char(&mut out, chars[i]);
        i = i + 1;
        proof {
            assert(chars@.take(i as int) =~= chars@.take(i - 1).push(chars@[i - 1]));
        }
    }
    proof {
        assert(chars@.take(chars@.len() as int) =~= chars@);
    }
    out
}

/// A copy of `s` as an owned `String`.
pub fn owned(s: &str) -> (out: String)
    ensures
        out@ == s@,
{
    let cs = chars_of(s);
    string_of(&cs)
}

/// `out` is `a` followed by `b`.
pub fn concat(a: &str, b: &str) -> (out: String)
    ensures
        out@ == a@ + b@,
{
    let mut out = owned(a);
    out.append(b);
    out
}

/// Equality of two character sequences, decided element by element.
pub fn seq_eq(a: &Vec<char>, b: &Vec<char>) -> (r: bool)
    ensures
        r == (a@ == b@),
{
    if a.len() != b.len() {
        return false;
    }
    let mut i: usize = 0;
    while i < a.len()
        invariant
            i <= a.len(),
            a.len() == b.len(),
            forall|k: int| 0 <= k < i ==> a@[k] == b@[k],
        decreases a.len() - i,
    {
        if a[i] != b[i] {
            return false;
        }
        i = i + 1;
    }
    proof {
        assert(a@ =~= b@);
    }
    true
}

/// Equality of two string slices by their characters.
pub fn str_eq(a: &str, b: &str) -> (r: bool)
    ensures
        r == (a@ == b@),
{
    let ca = chars_of(a);
    let cb = chars_of(b);
    seq_eq(&ca, &cb)
}

} // verus!

verus! {

/// `s` split at every occurrence of `sep`; empty pieces are kept, so the
/// result always has one more piece than `s` has separators.
pub open spec fn split_seq(s: Seq<char>, sep: char) -> Seq<Seq<char>>
    decreases s.len(),
{
    if s.len() == 0 {
        seq![Seq::<char>::empty()]
    } else {
        let prev = split_seq(s.drop_last(), sep);
        if s.last() == sep {
            prev.push(Seq::<char>::empty())
        } else {
            prev.update(prev.len() - 1, prev.last().push(s.last()))
        }
    }
}

pub proof fn lemma_split_nonempty(s: Seq<char>, sep: char)
    ensures
        split_seq(s, sep).len() >= 1,
    decreases s.len(),
{
    if s.len() > 0 {
        lemma_split_nonempty(s.drop_last(), sep);
    }
}

/// The views of a vector of character vectors.
pub open spec fn views(v: Seq<Vec<char>>) -> Seq<Seq<char>> {
    v.map_values(|x: Vec<char>| x@)
}

/// Splits `s` at every `sep`, as `str::split` does.
pub fn split_chars(s: &Vec<char>, sep: char) -> (parts: Vec<Vec<char>>)
    ensures
        views(parts@) == split_seq(s@, sep),
{
    let mut done: Vec<Vec<char>> = Vec::new();
    let mut cur: Vec<char> = Vec::new();
    let mut i: usize = 0;
    while i < s.len()
        invariant
            i <= s.len(),
            views(done@).push(cur@) == split_seq(s@.take(i as int), sep),
        decreases s.len() - i,
    {
        let c = s[i];
        proof {
            assert(s@.take(i + 1).drop_last() =~= s@.take(i as int));
            assert(s@.take(i + 1).last() == c);
        }
        if c == sep {
            let finished = cur;
            done.push(finished);
            cur = Vec::new();
            proof {
                assert(views(done@) =~= views(done@.drop_last()).push(finished@));
                assert(views(done@).push(cur@) =~= split_seq(s@.take(i + 1), sep));
            }
        } else {
            let ghost old_cur = cur@;
            cur.push(c);
            proof {
                let prev = split_seq(s@.take(i as int), sep);
                assert(views(done@).push(cur@) =~= prev.update(prev.len() - 1, old_cur.push(c)));
            }
        }
        i = i + 1;
    }
    proof {
        assert(s@.take(s@.len() as int) =~= s@);
    }
    let last = cur;
    done.push(last);
    proof {
        assert(views(done@) =~= views(done@.drop_last()).push(last@));
    }
    done
}

} // verus!

verus! {

/// Unicode white space, as `char::is_whitespace` defines it.
pub open spec fn is_space(c: char) -> bool {
    ('\u{9}' <= c && c <= '\u{d}') || c == ' ' || c == '\u{85}' || c == '\u{a0}' || c == '\u{1680}'
        || ('\u{2000}' <= c && c <= '\u{200a}') || c == '\u{2028}' || c == '\u{2029}'
        || c == '\u{202f}' || c == '\u{205f}' || c == '\u{3000}'
}

pub fn is_space_exec(c: char) -> (r: bool)
    ensures
        r == is_space(c),
{
    ('\u{9}' <= c && c <= '\u{d}') || c == ' ' || c == '\u{85}' || c == '\u{a0}' || c == '\u{1680}'
        || ('\u{2000}' <= c && c <= '\u{200a}') || c == '\u{2028}' || c == '\u{2029}'
        || c == '\u{202f}' || c == '\u{205f}' || c == '\u{3000}'
}

/// `s` without its leading white space.
pub open spec fn trim_start_seq(s: Seq<char>) -> Seq<char>
    decreases s.len(),
{
    if s.len() > 0 && is_space(s[0]) {
        trim_start_seq(s.drop_first())
    } else {
        s
    }
}

/// `s` without its trailing white space.
pub open spec fn trim_end_seq(s: Seq<char>) -> Seq<char>
    decreases s.len(),
{
    if s.len() > 0 && is_space(s.last()) {
        trim_end_seq(s.drop_last())
    } else {
        s
    }
}

/// `s` without leading and trailing white space, as `str::trim` gives it.
pub open spec fn trim_seq(s: Seq<char>) -> Seq<char> {
    trim_end_seq(trim_start_seq(s))
}

pub open spec fn starts_with(s: Seq<char>, p: Seq<char>) -> bool {
    p.len() <= s.len() && s.take(p.len() as int) == p
}

pub open spec fn ends_with(s: Seq<char>, p: Seq<char>) -> bool {
    p.len() <= s.len() && s.skip(s.len() - p.len()) == p
}

pub open spec fn has_char(s: Seq<char>, c: char) -> bool {
    exists|i: int| 0 <= i < s.len() && s[i] == c
}

/// Copies `s[from..]`.
pub fn tail_from(s: &Vec<char>, from: usize) -> (r: Vec<char>)
    requires
        from <= s.len(),
    ensures
        r@ == s@.skip(from as int),
{
    let mut out: Vec<char> = Vec::new();
    let mut i: usize = from;
    while i < s.len()
        invariant
            from <= i <= s.len(),
            out@ == s@.subrange(from as int, i as int),
        decreases s.len() - i,
    {
        out.push(s[i]);
        i = i + 1;
        proof {
            assert(out@ =~= s@.subrange(from as int, i as int));
        }
    }
    proof {
        assert(out@ =~= s@.skip(from as int));
    }
    out
}

/// `s` with its leading white space removed.
pub fn trim_start_chars(s: &Vec<char>) -> (r: Vec<char>)
    ensures
        r@ == trim_start_seq(s@),
{
    let mut i: usize = 0;
    proof {
        assert(s@.skip(0) =~= s@);
    }
    while i < s.len() && is_space_exec(s[i])
        invariant
            i <= s.len(),
            trim_start_seq(s@) == trim_start_seq(s@.skip(i as int)),
        decreases s.len() - i,
    {
        proof {
            assert(s@.skip(i as int).drop_first() =~= s@.skip(i + 1));
        }
        i = i + 1;
    }
    tail_from(s, i)
}

/// `s` with its trailing white space removed.
pub fn trim_end_chars(s: &Vec<char>) -> (r: Vec<char>)
    ensures
        r@ == trim_end_seq(s@),
{
    let mut n: usize = s.len();
    proof {
        assert(s@.take(s@.len() as int) =~= s@);
    }
    while n > 0 && is_space_exec(s[n - 1])
        invariant
            n <= s.len(),
            trim_end_seq(s@) == trim_end_seq(s@.take(n as int)),
        decreases n,
    {
        proof {
            assert(s@.take(n as int).drop_last() =~= s@.take(n - 1));
        }
        n = n - 1;
    }
    let mut out: Vec<char> = Vec::new();
    let mut i: usize = 0;
    while i < n
        invariant
            i <= n <= s.len(),
            out@ == s@.take(i as int),
        decreases n - i,
    {
        out.push(s[i]);
        i = i + 1;
        proof {
            assert(out@ =~= s@.take(i as int));
        }
    }
    proof {
        assert(!(n > 0 && is_space(s@.take(n as int).last())) ==> trim_end_seq(s@.take(n as int)) == s@.take(n as int));
    }
    out
}

/// `s` trimmed at both ends.
pub fn trim_chars(s: &Vec<char>) -> (r: Vec<char>)
    ensures
        r@ == trim_seq(s@),
{
    let a = trim_start_chars(s);
    trim_end_chars(&a)
}

/// Whether `s` begins with the characters of `p`.
pub fn starts_with_exec(s: &Vec<char>, p: &str) -> (r: bool)
    ensures
        r == starts_with(s@, p@),
{
    let pc = chars_of(p);
    if pc.len() > s.len() {
        return false;
    }
    let mut i: usize = 0;
    while i < pc.len()
        invariant
            i <= pc.len() <= s.len(),
            pc@ == p@,
            forall|k: int| 0 <= k < i ==> s@[k] == pc@[k],
        decreases pc.len() - i,
    {
        if s[i] != pc[i] {
            proof {
                assert(s@.take(pc@.len() as int)[i as int] == s@[i as int]);
                assert(s@.take(pc@.len() as int) != pc@);
            }
            return false;
        }
        i = i + 1;
    }
    proof {
        assert(s@.take(pc@.len() as int) =~= pc@);
    }
    true
}

/// Whether `s` ends with the characters of `p`.
pub fn ends_with_exec(s: &Vec<char>, p: &str) -> (r: bool)
    ensures
        r == ends_with(s@, p@),
{
    let pc = chars_of(p);
    if pc.len() > s.len() {
        return false;
    }
    let off = s.len() - pc.len();
    let mut i: usize = 0;
    while i < pc.len()
        invariant
            i <= pc.len() <= s.len(),
            pc@ == p@,
            off == s.len() - pc.len(),
            forall|k: int| 0 <= k < i ==> s@[off + k] == pc@[k],
        decreases pc.len() - i,
    {
        if s[off + i] != pc[i] {
            proof {
                assert(s@.skip(off as int)[i as int] == s@[off + i]);
                assert(s@.skip(off as int) != pc@);
            }
            return false;
        }
        i = i + 1;
    }
    proof {
        assert(s@.skip(off as int) =~= pc@);
    }
    true
}

/// Whether `c` occurs in `s`.
pub fn has_char_exec(s: &Vec<char>, c: char) -> (r: bool)
    ensures
        r == has_char(s@, c),
{
    let mut i: usize = 0;
    while i < s.len()
        invariant
            i <= s.len(),
            forall|k: int| 0 <= k < i ==> s@[k] != c,
        decreases s.len() - i,
    {
        if s[i] == c {
            return true;
        }
        i = i + 1;
    }
    false
}

} // verus!

verus! {

/// The first index at or after `from` whose element satisfies `p`.
pub open spec fn first_match<A>(s: Seq<A>, p: spec_fn(A) -> bool, from: int) -> Option<int>
    decreases s.len() - from,
{
    if from < 0 || from >= s.len() {
        None
    } else if p(s[from]) {
        Some(from)
    } else {
        first_match(s, p, from + 1)
    }
}

pub proof fn lemma_first_match_bounds<A>(s: Seq<A>, p: spec_fn(A) -> bool, from: int)
    requires
        from >= 0,
    ensures
        first_match(s, p, from) matches Some(i) ==> from <= i < s.len() && p(s[i]),
        first_match(s, p, from) is None ==> forall|k: int| from <= k < s.len() ==> !p(#[trigger] s[k]),
    decreases s.len() - from,
{
    if from >= 0 && from < s.len() && !p(s[from]) {
        lemma_first_match_bounds(s, p, from + 1);
    }
}

} // verus!

verus! {

/// The first index in `from..n` that satisfies `p`.
pub open spec fn first_index(n: int, p: spec_fn(int) -> bool, from: int) -> Option<int>
    decreases n - from,
{
    if from < 0 || from >= n {
        None
    } else if p(from) {
        Some(from)
    } else {
        first_index(n, p, from + 1)
    }
}

/// What `first_index` finds satisfies `p`, lies in `from..n`, and nothing before it does.
pub proof fn lemma_first_index(n: int, p: spec_fn(int) -> bool, from: int)
    requires
        from >= 0,
    ensures
        match first_index(n, p, from) {
            Some(i) => from <= i < n && p(i) && forall|k: int| from <= k < i ==> !#[trigger] p(k),
            None => forall|k: int| from <= k < n ==> !#[trigger] p(k),
        },
    decreases n - from,
{
    if from >= 0 && from < n && !p(from) {
        lemma_first_index(n, p, from + 1);
    }
}

/// `char::is_alphanumeric`: whether `c` is alphabetic or numeric in Unicode's sense.
pub uninterp spec fn unicode_alphanumeric(c: char) -> bool;

/// `char::is_alphanumeric`. Its documentation defines it by Unicode's Alphabetic and
/// Numeric properties; on ASCII those are exactly the letters and digits, which is all
/// the contract says beyond naming the result.
#[verifier::external_body]
pub(crate) fn is_alphanumeric_char(c: char) -> (r: bool)
    ensures
        r == unicode_alphanumeric(c),
        c <= '\x7f' ==> (r <==> is_ascii_alnum(c)),
{
    c.is_alphanumeric()
}

/// Whether `c` is an ASCII letter or digit.
pub open spec fn is_ascii_alnum(c: char) -> bool {
    ('a' <= c && c <= 'z') || ('A' <= c && c <= 'Z') || ('0' <= c && c <= '9')
}

} // verus!
