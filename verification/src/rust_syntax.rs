//! What authored Rust fragments must look like: syn's grammar for blocks, items,
//! identifiers, types and paths, and the bounded shape of `local_tests.expect`.
use vstd::prelude::*;
use crate::text::chars_of;

verus! {

/// syn's verdict on `text` as a Rust block (`{ ... }`): `None` when it parses, else syn's error text.
pub uninterp spec fn syn_block_outcome(text: Seq<char>) -> Option<Seq<char>>;

/// Whether syn parses `text` as a Rust block.
pub open spec fn syn_block_accepts(text: Seq<char>) -> bool {
    syn_block_outcome(text) is None
}

/// Whether syn parses `text` as a Rust function item (`fn name(..) { .. }`).
pub uninterp spec fn syn_item_fn_accepts(text: Seq<char>) -> bool;

/// Whether syn parses `text` as a Rust identifier (keywords are refused).
pub uninterp spec fn syn_ident_accepts(text: Seq<char>) -> bool;

/// Whether syn parses `text` as a Rust expression.
pub uninterp spec fn syn_expr_accepts(text: Seq<char>) -> bool;

/// syn's verdict on `text` as a Rust type: `None` when it parses, else syn's error text.
pub uninterp spec fn syn_type_outcome(text: Seq<char>) -> Option<Seq<char>>;

/// syn's verdict on `text` as a Rust path: `None` when it parses, else syn's error text.
pub uninterp spec fn syn_path_outcome(text: Seq<char>) -> Option<Seq<char>>;

/// Calls `syn::parse_str::<syn::Block>` and hands back syn's error text on failure.
#[verifier::external_body]
pub(crate) fn block_parse_error(text: &str) -> (r: Option<String>)
    ensures
        r is None <==> syn_block_outcome(text@) is None,
        r matches Some(m) ==> syn_block_outcome(text@) == Some(m@),
{
    match syn::parse_str::<syn::Block>(text) {
        Ok(_) => None,
        Err(error) => Some(error.to_string()),
    }
}

/// Calls `syn::parse_str::<syn::ItemFn>`; the result is named by `syn_item_fn_accepts`.
#[verifier::external_body]
pub(crate) fn parses_as_item_fn(text: &str) -> (r: bool)
    ensures
        r == syn_item_fn_accepts(text@),
{
    syn::parse_str::<syn::ItemFn>(text).is_ok()
}

/// Calls `syn::parse_str::<syn::Ident>`; the result is named by `syn_ident_accepts`.
#[verifier::external_body]
pub(crate) fn parses_as_ident(text: &str) -> (r: bool)
    ensures
        r == syn_ident_accepts(text@),
{
    syn::parse_str::<syn::Ident>(text).is_ok()
}

/// Calls `syn::parse_str::<syn::Expr>`; the result is named by `syn_expr_accepts`.
#[verifier::external_body]
pub(crate) fn parses_as_expr(text: &str) -> (r: bool)
    ensures
        r == syn_expr_accepts(text@),
{
    syn::parse_str::<syn::Expr>(text).is_ok()
}

/// Calls `syn::parse_str::<syn::Type>` and hands back syn's error text on failure.
#[verifier::external_body]
pub(crate) fn type_parse_error(text: &str) -> (r: Option<String>)
    ensures
        r is None <==> syn_type_outcome(text@) is None,
        r matches Some(m) ==> syn_type_outcome(text@) == Some(m@),
{
    match syn::parse_str::<syn::Type>(text) {
        Ok(_) => None,
        Err(error) => Some(error.to_string()),
    }
}

/// Calls `syn::parse_str::<syn::Path>` and hands back syn's error text on failure.
#[verifier::external_body]
pub(crate) fn path_parse_error(text: &str) -> (r: Option<String>)
    ensures
        r is None <==> syn_path_outcome(text@) is None,
        r matches Some(m) ==> syn_path_outcome(text@) == Some(m@),
{
    match syn::parse_str::<syn::Path>(text) {
        Ok(_) => None,
        Err(error) => Some(error.to_string()),
    }
}

/// The deepest bracket nesting an expect expression may reach.
pub const MAX_EXPECT_DEPTH: u32 = 128;

/// Lexical state while measuring bracket nesting outside string literals.
#[derive(Clone, Copy)]
pub struct DepthState {
    pub in_str: bool,
    pub escaped: bool,
    pub depth: u32,
    pub exceeded: bool,
}

pub open spec fn depth_start() -> DepthState {
    DepthState { in_str: false, escaped: false, depth: 0, exceeded: false }
}

pub open spec fn depth_step(st: DepthState, c: char) -> DepthState {
    if st.exceeded {
        st
    } else if st.in_str {
        if st.escaped {
            DepthState { escaped: false, ..st }
        } else if c == '\\' {
            DepthState { escaped: true, ..st }
        } else if c == '"' {
            DepthState { in_str: false, ..st }
        } else {
            st
        }
    } else if c == '"' {
        DepthState { in_str: true, ..st }
    } else if c == '(' || c == '[' || c == '{' {
        if st.depth >= MAX_EXPECT_DEPTH {
            DepthState { exceeded: true, ..st }
        } else {
            DepthState { depth: (st.depth + 1) as u32, ..st }
        }
    } else if c == ')' || c == ']' || c == '}' {
        if st.depth > 0 {
            DepthState { depth: (st.depth - 1) as u32, ..st }
        } else {
            st
        }
    } else {
        st
    }
}

pub open spec fn depth_scan(s: Seq<char>) -> DepthState
    decreases s.len(),
{
    if s.len() == 0 {
        depth_start()
    } else {
        depth_step(depth_scan(s.drop_last()), s.last())
    }
}

/// Whether brackets outside string literals ever nest deeper than the cap.
pub open spec fn nesting_exceeds(s: Seq<char>) -> bool {
    depth_scan(s).exceeded
}

fn depth_step_exec(st: DepthState, c: char) -> (r: DepthState)
    requires
        st.depth <= MAX_EXPECT_DEPTH,
    ensures
        r == depth_step(st, c),
        r.depth <= MAX_EXPECT_DEPTH,
{
    if st.exceeded {
        st
    } else if st.in_str {
        if st.escaped {
            DepthState { escaped: false, ..st }
        } else if c == '\\' {
            DepthState { escaped: true, ..st }
        } else if c == '"' {
            DepthState { in_str: false, ..st }
        } else {
            st
        }
    } else if c == '"' {
        DepthState { in_str: true, ..st }
    } else if c == '(' || c == '[' || c == '{' {
        if st.depth >= MAX_EXPECT_DEPTH {
            DepthState { exceeded: true, ..st }
        } else {
            DepthState { depth: st.depth + 1, ..st }
        }
    } else if c == ')' || c == ']' || c == '}' {
        if st.depth > 0 {
            DepthState { depth: st.depth - 1, ..st }
        } else {
            st
        }
    } else {
        st
    }
}

pub fn nesting_exceeds_exec(s: &Vec<char>) -> (r: bool)
    ensures
        r == nesting_exceeds(s@),
{
    let mut st = DepthState { in_str: false, escaped: false, depth: 0, exceeded: false };
    let mut i: usize = 0;
    while i < s.len()
        invariant
            i <= s.len(),
            st == depth_scan(s@.take(i as int)),
            st.depth <= MAX_EXPECT_DEPTH,
        decreases s.len() - i,
    {
        proof {
            assert(s@.take(i + 1).drop_last() =~= s@.take(i as int));
        }
        st = depth_step_exec(st, s[i]);
        i = i + 1;
    }
    proof {
        assert(s@.take(s@.len() as int) =~= s@);
    }
    st.exceeded
}


/// Lexical state while looking for statement-bearing constructs outside string literals.
#[derive(Clone, Copy)]
pub struct ShapeState {
    pub in_str: bool,
    pub escaped: bool,
    /// The next token stands where an operand is expected.
    pub operand: bool,
    /// The previous character was a binary `|`, so a following `|` completes `||`.
    pub after_bar: bool,
    pub hit: bool,
}

pub open spec fn shape_start() -> ShapeState {
    ShapeState { in_str: false, escaped: false, operand: true, after_bar: false, hit: false }
}

/// Punctuation after which an operand is expected.
pub open spec fn opens_operand(c: char) -> bool {
    c == '(' || c == '[' || c == ',' || c == '=' || c == '+' || c == '-' || c == '*' || c == '/'
        || c == '%' || c == '!' || c == '<' || c == '>' || c == '&' || c == '^' || c == ';'
        || c == ':' || c == '.'
}

/// White space between tokens: Unicode white space, as `char::is_whitespace` has it.
pub open spec fn is_blank(c: char) -> bool {
    crate::text::is_space(c)
}

pub open spec fn shape_step(st: ShapeState, c: char) -> ShapeState {
    if st.hit {
        st
    } else if st.in_str {
        if st.escaped {
            ShapeState { escaped: false, ..st }
        } else if c == '\\' {
            ShapeState { escaped: true, ..st }
        } else if c == '"' {
            ShapeState { in_str: false, operand: false, ..st }
        } else {
            st
        }
    } else if is_blank(c) {
        ShapeState { after_bar: false, ..st }
    } else if c == '"' {
        ShapeState { in_str: true, after_bar: false, ..st }
    } else if c == '{' || c == '}' {
        ShapeState { hit: true, ..st }
    } else if c == '|' {
        if st.after_bar {
            ShapeState { after_bar: false, operand: true, ..st }
        } else if st.operand {
            ShapeState { hit: true, ..st }
        } else {
            ShapeState { after_bar: true, operand: true, ..st }
        }
    } else if opens_operand(c) {
        ShapeState { operand: true, after_bar: false, ..st }
    } else {
        ShapeState { operand: false, after_bar: false, ..st }
    }
}

pub open spec fn shape_scan(s: Seq<char>) -> ShapeState
    decreases s.len(),
{
    if s.len() == 0 {
        shape_start()
    } else {
        shape_step(shape_scan(s.drop_last()), s.last())
    }
}

/// Whether the text holds, outside string literals, a brace (a block, an `unsafe`
/// or `async` block, a loop or a closure body) or a closure's opening bar.
pub open spec fn has_statement_construct(s: Seq<char>) -> bool {
    shape_scan(s).hit
}

fn shape_step_exec(st: ShapeState, c: char) -> (r: ShapeState)
    ensures
        r == shape_step(st, c),
{
    if st.hit {
        st
    } else if st.in_str {
        if st.escaped {
            ShapeState { escaped: false, ..st }
        } else if c == '\\' {
            ShapeState { escaped: true, ..st }
        } else if c == '"' {
            ShapeState { in_str: false, operand: false, ..st }
        } else {
            st
        }
    } else if crate::text::is_space_exec(c) {
        ShapeState { after_bar: false, ..st }
    } else if c == '"' {
        ShapeState { in_str: true, after_bar: false, ..st }
    } else if c == '{' || c == '}' {
        ShapeState { hit: true, ..st }
    } else if c == '|' {
        if st.after_bar {
            ShapeState { after_bar: false, operand: true, ..st }
        } else if st.operand {
            ShapeState { hit: true, ..st }
        } else {
            ShapeState { after_bar: true, operand: true, ..st }
        }
    } else if c == '(' || c == '[' || c == ',' || c == '=' || c == '+' || c == '-' || c == '*'
        || c == '/' || c == '%' || c == '!' || c == '<' || c == '>' || c == '&' || c == '^'
        || c == ';' || c == ':' || c == '.' {
        ShapeState { operand: true, after_bar: false, ..st }
    } else {
        ShapeState { operand: false, after_bar: false, ..st }
    }
}

pub fn has_statement_construct_exec(s: &Vec<char>) -> (r: bool)
    ensures
        r == has_statement_construct(s@),
{
    let mut st = ShapeState { in_str: false, escaped: false, operand: true, after_bar: false, hit: false };
    let mut i: usize = 0;
    while i < s.len()
        invariant
            i <= s.len(),
            st == shape_scan(s@.take(i as int)),
        decreases s.len() - i,
    {
        proof {
            assert(s@.take(i + 1).drop_last() =~= s@.take(i as int));
        }
        st = shape_step_exec(st, s[i]);
        i = i + 1;
    }
    proof {
        assert(s@.take(s@.len() as int) =~= s@);
    }
    st.hit
}

/// Why an expect expression was refused.
#[derive(Debug, Clone, Copy, PartialEq, Eq, Structural)]
pub enum ExpectIssue {
    TooDeep,
    NotAnExpression,
    StatementConstruct,
}

/// The verdict on an expect expression: depth first, then syn's grammar, then
/// (unless statement-bearing constructs are allowed) the bounded shape.
pub open spec fn expect_issue(s: Seq<char>, allow_statements: bool) -> Option<ExpectIssue> {
    if nesting_exceeds(s) {
        Some(ExpectIssue::TooDeep)
    } else if !syn_expr_accepts(s) {
        Some(ExpectIssue::NotAnExpression)
    } else if !allow_statements && has_statement_construct(s) {
        Some(ExpectIssue::StatementConstruct)
    } else {
        None
    }
}

/// Checks a `local_tests.expect` expression.
pub fn check_expect_expr(text: &str, allow_statements: bool) -> (r: Option<ExpectIssue>)
    ensures
        r == expect_issue(text@, allow_statements),
{
    let cs = chars_of(text);
    if nesting_exceeds_exec(&cs) {
        return Some(ExpectIssue::TooDeep);
    }
    if !parses_as_expr(text) {
        return Some(ExpectIssue::NotAnExpression);
    }
    if !allow_statements && has_statement_construct_exec(&cs) {
        return Some(ExpectIssue::StatementConstruct);
    }
    None
}

impl ExpectIssue {
    pub open spec fn text(self) -> Seq<char> {
        match self {
            ExpectIssue::TooDeep => "expression nesting exceeds the maximum depth of 128"@,
            ExpectIssue::NotAnExpression => "not a valid Rust expression"@,
            ExpectIssue::StatementConstruct => "block, unsafe, closure and other statement-bearing expressions are not allowed"@,
        }
    }

    pub fn message(self) -> (r: String)
        ensures
            r@ == self.text(),
    {
        match self {
            ExpectIssue::TooDeep => crate::text::owned("expression nesting exceeds the maximum depth of 128"),
            ExpectIssue::NotAnExpression => crate::text::owned("not a valid Rust expression"),
            ExpectIssue::StatementConstruct => crate::text::owned("block, unsafe, closure and other statement-bearing expressions are not allowed"),
        }
    }
}

} // verus!

verus! {

/// Where a scan of Rust source text stands between characters: in code, or inside a
/// comment, a string, a raw string (with its `#` count), a raw identifier, or a char
/// literal or lifetime after its quote.
#[derive(Debug, Clone, Copy, PartialEq, Eq, Structural)]
pub enum LexMode {
    Code,
    Slash,
    LineComment,
    Block(usize),
    BlockStar(usize),
    BlockSlash(usize),
    Str,
    StrEsc,
    RawHash(usize),
    RawStr(usize),
    RawClose(usize, usize),
    RawIdent,
    Quote,
    QuoteOne(char),
    CharEsc,
    CharLit,
}

/// A character that continues an identifier or a number.
pub open spec fn is_word_char(c: char) -> bool {
    ('a' <= c && c <= 'z') || ('A' <= c && c <= 'Z') || ('0' <= c && c <= '9') || c == '_' || c > '\x7f'
}

/// The prefixes that open a raw string.
pub open spec fn is_raw_prefix(w: Seq<char>) -> bool {
    w == "r"@ || w == "br"@ || w == "cr"@
}

/// A character met in code, after the word `w` read so far: a word character extends
/// the word; any other ends it, notes whether it was the keyword `unsafe`, and may open
/// a string, a raw string, a quote or a comment.
pub open spec fn code_char(w: Seq<char>, f: bool, c: char) -> (LexMode, Seq<char>, bool) {
    if is_word_char(c) {
        (LexMode::Code, w.push(c), f)
    } else {
        let f2 = f || w == "unsafe"@;
        let e = Seq::<char>::empty();
        if c == '"' {
            (if is_raw_prefix(w) { LexMode::RawStr(0) } else { LexMode::Str }, e, f2)
        } else if c == '#' && is_raw_prefix(w) {
            (LexMode::RawHash(1), e, f2)
        } else if c == '\'' {
            (LexMode::Quote, e, f2)
        } else if c == '/' {
            (LexMode::Slash, e, f2)
        } else {
            (LexMode::Code, e, f2)
        }
    }
}

/// One character of the scan.
pub open spec fn lex_char(st: (LexMode, Seq<char>, bool), c: char) -> (LexMode, Seq<char>, bool) {
    let (m, w, f) = st;
    let e = Seq::<char>::empty();
    match m {
        LexMode::Code => code_char(w, f, c),
        LexMode::Slash => if c == '/' {
            (LexMode::LineComment, e, f)
        } else if c == '*' {
            (LexMode::Block(1), e, f)
        } else {
            code_char(e, f, c)
        },
        LexMode::LineComment => if c == '\n' {
            (LexMode::Code, e, f)
        } else {
            st
        },
        LexMode::Block(d) => if c == '*' {
            (LexMode::BlockStar(d), e, f)
        } else if c == '/' {
            (LexMode::BlockSlash(d), e, f)
        } else {
            st
        },
        LexMode::BlockStar(d) => if c == '/' {
            if d <= 1 {
                (LexMode::Code, e, f)
            } else {
                (LexMode::Block((d - 1) as usize), e, f)
            }
        } else if c == '*' {
            st
        } else {
            (LexMode::Block(d), e, f)
        },
        LexMode::BlockSlash(d) => if c == '*' {
            (LexMode::Block((d + 1) as usize), e, f)
        } else if c == '/' {
            st
        } else {
            (LexMode::Block(d), e, f)
        },
        LexMode::Str => if c == '\\' {
            (LexMode::StrEsc, e, f)
        } else if c == '"' {
            (LexMode::Code, e, f)
        } else {
            st
        },
        LexMode::StrEsc => (LexMode::Str, e, f),
        LexMode::RawHash(n) => if c == '#' {
            (LexMode::RawHash((n + 1) as usize), e, f)
        } else if c == '"' {
            (LexMode::RawStr(n), e, f)
        } else if is_word_char(c) {
            (LexMode::RawIdent, e, f)
        } else {
            code_char(e, f, c)
        },
        LexMode::RawStr(n) => if c == '"' {
            if n == 0 {
                (LexMode::Code, e, f)
            } else {
                (LexMode::RawClose(n, 0), e, f)
            }
        } else {
            st
        },
        LexMode::RawClose(n, k) => if c == '#' {
            if k + 1 >= n {
                (LexMode::Code, e, f)
            } else {
                (LexMode::RawClose(n, (k + 1) as usize), e, f)
            }
        } else if c == '"' {
            (LexMode::RawClose(n, 0), e, f)
        } else {
            (LexMode::RawStr(n), e, f)
        },
        LexMode::RawIdent => if is_word_char(c) {
            st
        } else {
            code_char(e, f, c)
        },
        LexMode::Quote => if c == '\\' {
            (LexMode::CharEsc, e, f)
        } else {
            (LexMode::QuoteOne(c), e, f)
        },
        LexMode::QuoteOne(x) => if c == '\'' {
            (LexMode::Code, e, f)
        } else {
            code_char(if is_word_char(x) { seq![x] } else { e }, f, c)
        },
        LexMode::CharEsc => (LexMode::CharLit, e, f),
        LexMode::CharLit => if c == '\'' {
            (LexMode::Code, e, f)
        } else {
            st
        },
    }
}

pub open spec fn lex_scan(t: Seq<char>) -> (LexMode, Seq<char>, bool)
    decreases t.len(),
{
    if t.len() == 0 {
        (LexMode::Code, Seq::empty(), false)
    } else {
        lex_char(lex_scan(t.drop_last()), t.last())
    }
}

/// Whether Rust source text holds the keyword `unsafe` as a token: a whole word in
/// code (a lifetime's name counts), not inside a comment, a string or char literal, and
/// not the raw identifier `r#unsafe`.
pub open spec fn has_unsafe_token(t: Seq<char>) -> bool {
    let st = lex_scan(t);
    st.2 || (st.0 == LexMode::Code && st.1 == "unsafe"@)
}

/// The largest count a mode carries.
pub open spec fn lex_bound(m: LexMode) -> int {
    match m {
        LexMode::Block(d) => d as int,
        LexMode::BlockStar(d) => d as int,
        LexMode::BlockSlash(d) => d as int,
        LexMode::RawHash(n) => n as int,
        LexMode::RawStr(n) => n as int,
        LexMode::RawClose(n, k) => if n >= k { n as int } else { k as int },
        _ => 0,
    }
}

fn word_char_exec(c: char) -> (r: bool)
    ensures
        r == is_word_char(c),
{
    ('a' <= c && c <= 'z') || ('A' <= c && c <= 'Z') || ('0' <= c && c <= '9') || c == '_' || c > '\x7f'
}

fn raw_prefix_exec(w: &Vec<char>) -> (r: bool)
    ensures
        r == is_raw_prefix(w@),
{
    crate::text::seq_eq(w, &chars_of("r")) || crate::text::seq_eq(w, &chars_of("br")) || crate::text::seq_eq(
        w,
        &chars_of("cr"),
    )
}

fn code_char_exec(w: Vec<char>, f: bool, c: char) -> (r: (LexMode, Vec<char>, bool))
    ensures
        (r.0, r.1@, r.2) == code_char(w@, f, c),
{
    if word_char_exec(c) {
        let mut w = w;
        w.push(c);
        (LexMode::Code, w, f)
    } else {
        let f2 = f || crate::text::seq_eq(&w, &chars_of("unsafe"));
        let raw = raw_prefix_exec(&w);
        let e: Vec<char> = Vec::new();
        proof {
            assert(e@ =~= Seq::<char>::empty());
        }
        if c == '"' {
            (if raw { LexMode::RawStr(0) } else { LexMode::Str }, e, f2)
        } else if c == '#' && raw {
            (LexMode::RawHash(1), e, f2)
        } else if c == '\'' {
            (LexMode::Quote, e, f2)
        } else if c == '/' {
            (LexMode::Slash, e, f2)
        } else {
            (LexMode::Code, e, f2)
        }
    }
}

fn lex_char_exec(m: LexMode, w: Vec<char>, f: bool, c: char) -> (r: (LexMode, Vec<char>, bool))
    requires
        lex_bound(m) < usize::MAX,
    ensures
        (r.0, r.1@, r.2) == lex_char((m, w@, f), c),
        lex_bound(r.0) <= lex_bound(m) + 1,
{
    let e: Vec<char> = Vec::new();
    proof {
        assert(e@ =~= Seq::<char>::empty());
    }
    match m {
        LexMode::Code => code_char_exec(w, f, c),
        LexMode::Slash => if c == '/' {
            (LexMode::LineComment, e, f)
        } else if c == '*' {
            (LexMode::Block(1), e, f)
        } else {
            code_char_exec(e, f, c)
        },
        LexMode::LineComment => if c == '\n' {
            (LexMode::Code, e, f)
        } else {
            (m, w, f)
        },
        LexMode::Block(d) => if c == '*' {
            (LexMode::BlockStar(d), e, f)
        } else if c == '/' {
            (LexMode::BlockSlash(d), e, f)
        } else {
            (m, w, f)
        },
        LexMode::BlockStar(d) => if c == '/' {
            if d <= 1 {
                (LexMode::Code, e, f)
            } else {
                (LexMode::Block(d - 1), e, f)
            }
        } else if c == '*' {
            (m, w, f)
        } else {
            (LexMode::Block(d), e, f)
        },
        LexMode::BlockSlash(d) => if c == '*' {
            (LexMode::Block(d + 1), e, f)
        } else if c == '/' {
            (m, w, f)
        } else {
            (LexMode::Block(d), e, f)
        },
        LexMode::Str => if c == '\\' {
            (LexMode::StrEsc, e, f)
        } else if c == '"' {
            (LexMode::Code, e, f)
        } else {
            (m, w, f)
        },
        LexMode::StrEsc => (LexMode::Str, e, f),
        LexMode::RawHash(n) => if c == '#' {
            (LexMode::RawHash(n + 1), e, f)
        } else if c == '"' {
            (LexMode::RawStr(n), e, f)
        } else if word_char_exec(c) {
            (LexMode::RawIdent, e, f)
        } else {
            code_char_exec(e, f, c)
        },
        LexMode::RawStr(n) => if c == '"' {
            if n == 0 {
                (LexMode::Code, e, f)
            } else {
                (LexMode::RawClose(n, 0), e, f)
            }
        } else {
            (m, w, f)
        },
        LexMode::RawClose(n, k) => if c == '#' {
            if k + 1 >= n {
                (LexMode::Code, e, f)
            } else {
                (LexMode::RawClose(n, k + 1), e, f)
            }
        } else if c == '"' {
            (LexMode::RawClose(n, 0), e, f)
        } else {
            (LexMode::RawStr(n), e, f)
        },
        LexMode::RawIdent => if word_char_exec(c) {
            (m, w, f)
        } else {
            code_char_exec(e, f, c)
        },
        LexMode::Quote => if c == '\\' {
            (LexMode::CharEsc, e, f)
        } else {
            (LexMode::QuoteOne(c), e, f)
        },
        LexMode::QuoteOne(x) => if c == '\'' {
            (LexMode::Code, e, f)
        } else if word_char_exec(x) {
            let one = vec![x];
            proof {
                assert(one@ =~= seq![x]);
            }
            code_char_exec(one, f, c)
        } else {
            code_char_exec(e, f, c)
        },
        LexMode::CharEsc => (LexMode::CharLit, e, f),
        LexMode::CharLit => if c == '\'' {
            (LexMode::Code, e, f)
        } else {
            (m, w, f)
        },
    }
}

/// Whether Rust source text holds the keyword `unsafe` as a token.
pub fn has_unsafe_token_exec(text: &str) -> (r: bool)
    ensures
        r == has_unsafe_token(text@),
{
    let cs = chars_of(text);
    let mut m = LexMode::Code;
    let mut w: Vec<char> = Vec::new();
    let mut f = false;
    let mut i: usize = 0;
    proof {
        assert(w@ =~= Seq::<char>::empty());
    }
    while i < cs.len()
        invariant
            i <= cs@.len(),
            cs@ == text@,
            0 <= lex_bound(m) <= i,
            lex_scan(cs@.take(i as int)) == (m, w@, f),
        decreases cs@.len() - i,
    {
        proof {
            assert(cs@.take(i + 1).drop_last() =~= cs@.take(i as int));
        }
        let r = lex_char_exec(m, w, f, cs[i]);
        m = r.0;
        w = r.1;
        f = r.2;
        i = i + 1;
    }
    proof {
        assert(cs@.take(cs@.len() as int) =~= cs@);
    }
    f || (m == LexMode::Code && crate::text::seq_eq(&w, &chars_of("unsafe")))
}

} // verus!
