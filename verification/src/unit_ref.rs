//! Unit identifiers and dependency references (`module/name`, `lib::module/name`).
use vstd::prelude::*;
use crate::text::{chars_of, concat, owned, views, lemma_split_nonempty, split_chars, split_seq, str_eq, string_of};

verus! {

pub open spec fn is_lower(c: char) -> bool {
    'a' <= c && c <= 'z'
}

pub open spec fn is_digit(c: char) -> bool {
    '0' <= c && c <= '9'
}

/// A snake_case path segment: a lowercase letter, then lowercase letters, digits or `_`.
pub open spec fn is_segment(s: Seq<char>) -> bool {
    &&& s.len() > 0
    &&& is_lower(s[0])
    &&& forall|i: int| 0 <= i < s.len() ==> (is_lower(#[trigger] s[i]) || is_digit(s[i]) || s[i] == '_')
}

pub fn is_segment_exec(s: &Vec<char>) -> (r: bool)
    ensures
        r == is_segment(s@),
{
    if s.len() == 0 {
        return false;
    }
    if !('a' <= s[0] && s[0] <= 'z') {
        return false;
    }
    let mut i: usize = 0;
    while i < s.len()
        invariant
            i <= s.len(),
            forall|k: int| 0 <= k < i ==> (is_lower(#[trigger] s@[k]) || is_digit(s@[k]) || s@[k] == '_'),
        decreases s.len() - i,
    {
        let c = s[i];
        if !(('a' <= c && c <= 'z') || ('0' <= c && c <= '9') || c == '_') {
            return false;
        }
        i = i + 1;
    }
    true
}

/// The words that Rust reserves, strict and reserved-for-future-use.
pub open spec fn is_rust_keyword(s: Seq<char>) -> bool {
    ||| s == "as"@ ||| s == "break"@ ||| s == "const"@ ||| s == "continue"@
    ||| s == "crate"@ ||| s == "else"@ ||| s == "enum"@ ||| s == "extern"@
    ||| s == "false"@ ||| s == "fn"@ ||| s == "for"@ ||| s == "if"@
    ||| s == "impl"@ ||| s == "in"@ ||| s == "let"@ ||| s == "loop"@
    ||| s == "match"@ ||| s == "mod"@ ||| s == "move"@ ||| s == "mut"@
    ||| s == "pub"@ ||| s == "ref"@ ||| s == "return"@ ||| s == "self"@
    ||| s == "Self"@ ||| s == "static"@ ||| s == "struct"@ ||| s == "super"@
    ||| s == "trait"@ ||| s == "true"@ ||| s == "type"@ ||| s == "unsafe"@
    ||| s == "use"@ ||| s == "where"@ ||| s == "while"@ ||| s == "async"@
    ||| s == "await"@ ||| s == "dyn"@ ||| s == "abstract"@ ||| s == "become"@
    ||| s == "box"@ ||| s == "do"@ ||| s == "final"@ ||| s == "macro"@
    ||| s == "override"@ ||| s == "priv"@ ||| s == "typeof"@ ||| s == "unsized"@
    ||| s == "virtual"@ ||| s == "yield"@ ||| s == "try"@ ||| s == "gen"@
}

pub fn is_rust_keyword_exec(s: &str) -> (r: bool)
    ensures
        r == is_rust_keyword(s@),
{
    str_eq(s, "as") || str_eq(s, "break") || str_eq(s, "const") || str_eq(s, "continue")
    || str_eq(s, "crate") || str_eq(s, "else") || str_eq(s, "enum") || str_eq(s, "extern")
    || str_eq(s, "false") || str_eq(s, "fn") || str_eq(s, "for") || str_eq(s, "if")
    || str_eq(s, "impl") || str_eq(s, "in") || str_eq(s, "let") || str_eq(s, "loop")
    || str_eq(s, "match") || str_eq(s, "mod") || str_eq(s, "move") || str_eq(s, "mut")
    || str_eq(s, "pub") || str_eq(s, "ref") || str_eq(s, "return") || str_eq(s, "self")
    || str_eq(s, "Self") || str_eq(s, "static") || str_eq(s, "struct") || str_eq(s, "super")
    || str_eq(s, "trait") || str_eq(s, "true") || str_eq(s, "type") || str_eq(s, "unsafe")
    || str_eq(s, "use") || str_eq(s, "where") || str_eq(s, "while") || str_eq(s, "async")
    || str_eq(s, "await") || str_eq(s, "dyn") || str_eq(s, "abstract") || str_eq(s, "become")
    || str_eq(s, "box") || str_eq(s, "do") || str_eq(s, "final") || str_eq(s, "macro")
    || str_eq(s, "override") || str_eq(s, "priv") || str_eq(s, "typeof") || str_eq(s, "unsized")
    || str_eq(s, "virtual") || str_eq(s, "yield") || str_eq(s, "try") || str_eq(s, "gen")
}

/// The callable (function) name a unit id projects to: its last `/` segment.
pub open spec fn callable_of(id: Seq<char>) -> Seq<char> {
    split_seq(id, '/').last()
}

pub fn callable_name(id: &str) -> (r: String)
    ensures
        r@ == callable_of(id@),
{
    let cs = chars_of(id);
    let parts = split_chars(&cs, '/');
    proof {
        lemma_split_nonempty(cs@, '/');
    }
    let last = parts.len() - 1;
    string_of(&parts[last])
}

} // verus!

verus! {

pub open spec fn double_colon_at(s: Seq<char>, i: int) -> bool {
    0 <= i && i + 1 < s.len() && s[i] == ':' && s[i + 1] == ':'
}

/// The first position at or after `from` where `::` starts, if any.
pub open spec fn first_double_colon(s: Seq<char>, from: int) -> Option<int>
    decreases s.len() - from,
{
    if from < 0 || from + 1 >= s.len() {
        None
    } else if double_colon_at(s, from) {
        Some(from)
    } else {
        first_double_colon(s, from + 1)
    }
}

/// The first piece that is not a snake_case segment, searching from `from`.
pub open spec fn first_bad_segment(parts: Seq<Seq<char>>, from: int) -> Option<int>
    decreases parts.len() - from,
{
    if from < 0 || from >= parts.len() {
        None
    } else if !is_segment(parts[from]) {
        Some(from)
    } else {
        first_bad_segment(parts, from + 1)
    }
}

/// Why a dependency reference was refused.
pub enum DepFailure {
    InvalidAlias(Seq<char>),
    TooManySeparators,
    MissingModulePath,
    InvalidSegment(Seq<char>),
}

/// A unit id is two or more snake_case segments joined by `/`.
pub open spec fn check_unit_id(s: Seq<char>) -> Result<Seq<char>, DepFailure> {
    let parts = split_seq(s, '/');
    if parts.len() < 2 {
        Err(DepFailure::MissingModulePath)
    } else {
        match first_bad_segment(parts, 0) {
            Some(i) => Err(DepFailure::InvalidSegment(parts[i])),
            None => Ok(s),
        }
    }
}

/// The meaning of an authored dependency: an optional library alias and a unit id.
pub open spec fn parse_dep(s: Seq<char>) -> Result<(Option<Seq<char>>, Seq<char>), DepFailure> {
    match first_double_colon(s, 0) {
        None => match check_unit_id(s) {
            Ok(id) => Ok((None, id)),
            Err(e) => Err(e),
        },
        Some(p) => {
            let alias = s.take(p);
            let rest = s.skip(p + 2);
            if first_double_colon(rest, 0) is Some {
                Err(DepFailure::TooManySeparators)
            } else if !is_segment(alias) {
                Err(DepFailure::InvalidAlias(alias))
            } else {
                match check_unit_id(rest) {
                    Ok(id) => Ok((Some(alias), id)),
                    Err(e) => Err(e),
                }
            }
        }
    }
}

/// The position of the first `::` at or after `from`.
fn find_double_colon(s: &Vec<char>, from: usize) -> (r: Option<usize>)
    requires
        from <= s.len(),
    ensures
        r matches Some(p) ==> first_double_colon(s@, from as int) == Some(p as int),
        r is None ==> first_double_colon(s@, from as int) is None,
        r matches Some(p) ==> p + 1 < s.len(),
    decreases s.len() - from,
{
    if from >= s.len() || s.len() - from < 2 {
        None
    } else if s[from] == ':' && s[from + 1] == ':' {
        Some(from)
    } else {
        find_double_colon(s, from + 1)
    }
}

fn find_bad_segment(parts: &Vec<Vec<char>>, from: usize) -> (r: Option<usize>)
    requires
        from <= parts.len(),
    ensures
        r matches Some(i) ==> first_bad_segment(views(parts@), from as int) == Some(i as int) && i < parts.len(),
        r is None ==> first_bad_segment(views(parts@), from as int) is None,
    decreases parts.len() - from,
{
    if from >= parts.len() {
        None
    } else if !is_segment_exec(&parts[from]) {
        proof {
            assert(views(parts@)[from as int] == parts@[from as int]@);
        }
        Some(from)
    } else {
        proof {
            assert(views(parts@)[from as int] == parts@[from as int]@);
        }
        find_bad_segment(parts, from + 1)
    }
}

/// A dependency reference such as `money/round` or `shared::money/round`.
pub struct DepRef {
    pub library_alias: Option<String>,
    pub unit_id: String,
}

/// Why a dependency reference could not be parsed.
pub enum DepRefParseReason {
    InvalidLibraryAlias { alias: String },
    TooManySeparators,
    MissingModulePath,
    InvalidSegment { segment: String },
}

pub struct DepRefParseError {
    pub dep: String,
    pub reason: DepRefParseReason,
}

pub open spec fn opt_view(o: Option<String>) -> Option<Seq<char>> {
    match o {
        Some(s) => Some(s@),
        None => None,
    }
}

impl DepRefParseReason {
    pub open spec fn failure(&self) -> DepFailure {
        match self {
            DepRefParseReason::InvalidLibraryAlias { alias } => DepFailure::InvalidAlias(alias@),
            DepRefParseReason::TooManySeparators => DepFailure::TooManySeparators,
            DepRefParseReason::MissingModulePath => DepFailure::MissingModulePath,
            DepRefParseReason::InvalidSegment { segment } => DepFailure::InvalidSegment(segment@),
        }
    }
}

fn check_unit_id_exec(s: &Vec<char>) -> (r: Result<(), DepRefParseReason>)
    ensures
        r is Ok <==> check_unit_id(s@) is Ok,
        r matches Err(e) ==> check_unit_id(s@) == Err::<Seq<char>, DepFailure>(e.failure()),
{
    let parts = split_chars(s, '/');
    if parts.len() < 2 {
        return Err(DepRefParseReason::MissingModulePath);
    }
    match find_bad_segment(&parts, 0) {
        Some(i) => {
            proof {
                assert(views(parts@)[i as int] == parts@[i as int]@);
            }
            Err(DepRefParseReason::InvalidSegment { segment: string_of(&parts[i]) })
        },
        None => Ok(()),
    }
}

fn take_chars(s: &Vec<char>, n: usize) -> (r: Vec<char>)
    requires
        n <= s.len(),
    ensures
        r@ == s@.take(n as int),
{
    let mut out: Vec<char> = Vec::new();
    let mut i: usize = 0;
    while i < n
        invariant
            i <= n,
            n <= s.len(),
            out@ == s@.take(i as int),
        decreases n - i,
    {
        out.push(s[i]);
        i = i + 1;
        proof {
            assert(out@ =~= s@.take(i as int));
        }
    }
    out
}

fn skip_chars(s: &Vec<char>, n: usize) -> (r: Vec<char>)
    requires
        n <= s.len(),
    ensures
        r@ == s@.skip(n as int),
{
    let mut out: Vec<char> = Vec::new();
    let mut i: usize = n;
    while i < s.len()
        invariant
            n <= i <= s.len(),
            out@ == s@.subrange(n as int, i as int),
        decreases s.len() - i,
    {
        out.push(s[i]);
        i = i + 1;
        proof {
            assert(out@ =~= s@.subrange(n as int, i as int));
        }
    }
    proof {
        assert(out@ =~= s@.skip(n as int));
    }
    out
}

impl DepRef {
    pub open spec fn view_pair(&self) -> (Option<Seq<char>>, Seq<char>) {
        (opt_view(self.library_alias), self.unit_id@)
    }

    /// Parses an authored dependency reference.
    pub fn parse(dep: &str) -> (r: Result<DepRef, DepRefParseError>)
        ensures
            r matches Ok(d) ==> parse_dep(dep@) == Ok::<(Option<Seq<char>>, Seq<char>), DepFailure>(d.view_pair()),
            r matches Err(e) ==> parse_dep(dep@) == Err::<(Option<Seq<char>>, Seq<char>), DepFailure>(e.reason.failure()) && e.dep@ == dep@,
    {
        let s = chars_of(dep);
        match find_double_colon(&s, 0) {
            None => match check_unit_id_exec(&s) {
                Ok(()) => Ok(DepRef { library_alias: None, unit_id: owned(dep) }),
                Err(reason) => Err(DepRefParseError { dep: owned(dep), reason }),
            },
            Some(p) => {
                let alias = take_chars(&s, p);
                let rest = skip_chars(&s, p + 2);
                if find_double_colon(&rest, 0).is_some() {
                    Err(DepRefParseError { dep: owned(dep), reason: DepRefParseReason::TooManySeparators })
                } else if !is_segment_exec(&alias) {
                    Err(DepRefParseError {
                        dep: owned(dep),
                        reason: DepRefParseReason::InvalidLibraryAlias { alias: string_of(&alias) },
                    })
                } else {
                    match check_unit_id_exec(&rest) {
                        Ok(()) => Ok(DepRef { library_alias: Some(string_of(&alias)), unit_id: string_of(&rest) }),
                        Err(reason) => Err(DepRefParseError { dep: owned(dep), reason }),
                    }
                }
            },
        }
    }
}

} // verus!

verus! {

/// The authored form of an optional library and a unit id: `lib::id` or `id`.
pub open spec fn authored_form(library: Option<Seq<char>>, id: Seq<char>) -> Seq<char> {
    match library {
        Some(l) => l + "::"@ + id,
        None => id,
    }
}

fn clone_opt(o: &Option<String>) -> (r: Option<String>)
    ensures
        opt_view(r) == opt_view(*o),
{
    match o {
        Some(s) => Some(s.clone()),
        None => None,
    }
}

fn authored_string(library: &Option<String>, id: &String) -> (r: String)
    ensures
        r@ == authored_form(opt_view(*library), id@),
{
    match library {
        Some(l) => {
            let mut out = concat(l.as_str(), "::");
            out.append(id.as_str());
            out
        },
        None => id.clone(),
    }
}

/// A unit id scoped to an optional library; `None` is the local library.
#[derive(Debug, Clone)]
pub struct QualifiedUnitRef {
    pub library: Option<String>,
    pub unit_id: String,
}

impl QualifiedUnitRef {
    pub open spec fn key(&self) -> (Option<Seq<char>>, Seq<char>) {
        (opt_view(self.library), self.unit_id@)
    }

    pub fn new(library: Option<String>, unit_id: &str) -> (r: QualifiedUnitRef)
        ensures
            r.key() == (opt_view(library), unit_id@),
    {
        QualifiedUnitRef { library, unit_id: owned(unit_id) }
    }

    pub fn local(unit_id: &str) -> (r: QualifiedUnitRef)
        ensures
            r.key() == (None::<Seq<char>>, unit_id@),
    {
        QualifiedUnitRef { library: None, unit_id: owned(unit_id) }
    }

    pub fn duplicate(&self) -> (r: QualifiedUnitRef)
        ensures
            r.key() == self.key(),
    {
        QualifiedUnitRef { library: clone_opt(&self.library), unit_id: self.unit_id.clone() }
    }

    /// `lib::id` for a library-scoped unit, `id` for a local one.
    pub fn authored(&self) -> (r: String)
        ensures
            r@ == authored_form(self.key().0, self.key().1),
    {
        authored_string(&self.library, &self.unit_id)
    }

    /// Whether two references name the same unit in the same library.
    pub fn same_as(&self, other: &QualifiedUnitRef) -> (r: bool)
        ensures
            r == (self.key() == other.key()),
    {
        let same_lib = match (&self.library, &other.library) {
            (None, None) => true,
            (Some(a), Some(b)) => *a == *b,
            _ => false,
        };
        same_lib && self.unit_id == other.unit_id
    }
}

impl DepRef {
    /// The callable name the dependency projects to in generated code.
    pub fn callable_name(&self) -> (r: String)
        ensures
            r@ == callable_of(self.unit_id@),
    {
        callable_name(self.unit_id.as_str())
    }

    /// The dependency as authored: `alias::id` or `id`.
    pub fn authored(&self) -> (r: String)
        ensures
            r@ == authored_form(opt_view(self.library_alias), self.unit_id@),
    {
        authored_string(&self.library_alias, &self.unit_id)
    }

    /// Scopes the dependency: its own alias wins, else the owner's library.
    pub fn to_qualified(&self, owner_library: &Option<String>) -> (r: QualifiedUnitRef)
        ensures
            r.key() == (match opt_view(self.library_alias) {
                Some(a) => Some(a),
                None => opt_view(*owner_library),
            }, self.unit_id@),
    {
        let library = match &self.library_alias {
            Some(a) => Some(a.clone()),
            None => clone_opt(owner_library),
        };
        QualifiedUnitRef { library, unit_id: self.unit_id.clone() }
    }
}

} // verus!

verus! {

/// The text of a refused dependency reference.
pub open spec fn dep_failure_text(dep: Seq<char>, f: DepFailure) -> Seq<char> {
    "invalid dep '"@ + dep + "': "@ + match f {
        DepFailure::InvalidAlias(alias) => "invalid library alias '"@ + alias + "'"@,
        DepFailure::TooManySeparators => "expected at most one '::' separator"@,
        DepFailure::MissingModulePath => "expected a 'module/name' unit id"@,
        DepFailure::InvalidSegment(segment) => "invalid segment '"@ + segment + "'"@,
    }
}

impl DepRefParseError {
    pub open spec fn text(&self) -> Seq<char> {
        dep_failure_text(self.dep@, self.reason.failure())
    }

    pub fn message(&self) -> (r: String)
        ensures
            r@ == self.text(),
    {
        let mut m = concat("invalid dep '", self.dep.as_str());
        m.append("': ");
        match &self.reason {
            DepRefParseReason::InvalidLibraryAlias { alias } => {
                m.append("invalid library alias '");
                m.append(alias.as_str());
                m.append("'");
            },
            DepRefParseReason::TooManySeparators => {
                m.append("expected at most one '::' separator");
            },
            DepRefParseReason::MissingModulePath => {
                m.append("expected a 'module/name' unit id");
            },
            DepRefParseReason::InvalidSegment { segment } => {
                m.append("invalid segment '");
                m.append(segment.as_str());
                m.append("'");
            },
        }
        m
    }
}

} // verus!
