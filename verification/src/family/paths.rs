//! Family ids and the paths of a family packet.
use vstd::prelude::*;
use crate::family::error::{XtaskError, XtaskErrorView};
use crate::text::{chars_of, concat, owned, push_char, split_chars, split_seq, string_of, views};

verus! {

pub const FAMILY_ROOT_DIR: &'static str = "semantic-families";

pub const FAMILY_PROMOTION_ARTIFACT_ROOT: &'static str = ".semantic-family-artifacts/family-promotion";

pub const FAMILY_PROMOTION_INVENTORY_DIR: &'static str = ".semantic-family-artifacts/family-promotion/inventory";

pub const FAMILY_COVERAGE_LATEST_PATH: &'static str = ".semantic-family-artifacts/family-promotion/analysis/coverage.latest.json";

pub const FAMILY_RECOMMENDATION_ANALYSIS_LATEST_PATH: &'static str = ".semantic-family-artifacts/family-promotion/analysis/recommendation.latest.json";

pub const M27_CORPUS_MANIFEST_PATH: &'static str = "semantic-families/corpus/rust-function.toml";

/// The corpus buckets, in the order a manifest lists them.
pub open spec fn required_buckets() -> Seq<Seq<char>> {
    seq!["aligned"@, "drift"@, "under_specified"@, "unsupported_near_miss"@]
}

pub fn required_bucket_names() -> (r: Vec<String>)
    ensures
        views_of(r@) == required_buckets(),
{
    let r = vec![owned("aligned"), owned("drift"), owned("under_specified"), owned("unsupported_near_miss")];
    proof {
        assert(views_of(r@) =~= required_buckets());
    }
    r
}

pub open spec fn views_of(v: Seq<String>) -> Seq<Seq<char>> {
    v.map_values(|s: String| s@)
}

pub open spec fn is_lower_or_digit(c: char) -> bool {
    ('a' <= c && c <= 'z') || ('0' <= c && c <= '9')
}

/// The pattern a family id keeps: a name of lowercase letters and digits, one or more
/// dotted segments that may also hold `_`, and a `v<digits>` version.
pub open spec fn family_id_ok(raw: Seq<char>) -> bool {
    let parts = split_seq(raw, '.');
    &&& raw.len() > 0
    &&& parts.len() >= 3
    &&& parts[0].len() > 0
    &&& forall|k: int| 0 <= k < parts[0].len() ==> is_lower_or_digit(#[trigger] parts[0][k])
    &&& forall|i: int, k: int|
        1 <= i < parts.len() - 1 && 0 <= k < parts[i].len() ==> is_lower_or_digit(#[trigger] parts[i][k]) || parts[i][k] == '_'
    &&& forall|i: int| 1 <= i < parts.len() - 1 ==> #[trigger] parts[i].len() > 0
    &&& parts.last().len() >= 2
    &&& parts.last()[0] == 'v'
    &&& forall|k: int| 1 <= k < parts.last().len() ==> '0' <= #[trigger] parts.last()[k] <= '9'
}

pub open spec fn family_id_pattern_message(raw: Seq<char>) -> Seq<char> {
    "family id `"@ + raw + "` must match ^[a-z0-9]+(\\.[a-z0-9_]+)+\\.v[0-9]+$"@
}

/// A validated family id such as `function.wrapper.pipeline.chain3.v1`.
#[derive(Debug, Clone, PartialEq, Eq, Hash)]
pub struct FamilyId(String);

impl View for FamilyId {
    type V = Seq<char>;

    closed spec fn view(&self) -> Seq<char> {
        self.0@
    }
}

fn all_lower_or_digit(s: &Vec<char>, allow_underscore: bool) -> (r: bool)
    ensures
        r == forall|k: int| 0 <= k < s@.len() ==> is_lower_or_digit(#[trigger] s@[k]) || (allow_underscore && s@[k] == '_'),
{
    let mut i: usize = 0;
    while i < s.len()
        invariant
            i <= s@.len(),
            forall|k: int| 0 <= k < i ==> is_lower_or_digit(#[trigger] s@[k]) || (allow_underscore && s@[k] == '_'),
        decreases s@.len() - i,
    {
        let c = s[i];
        if !((('a' <= c && c <= 'z') || ('0' <= c && c <= '9')) || (allow_underscore && c == '_')) {
            return false;
        }
        i = i + 1;
    }
    true
}

fn version_ok(s: &Vec<char>) -> (r: bool)
    ensures
        r == (s@.len() >= 2 && s@[0] == 'v' && forall|k: int| 1 <= k < s@.len() ==> '0' <= #[trigger] s@[k] <= '9'),
{
    if s.len() < 2 || s[0] != 'v' {
        return false;
    }
    let mut i: usize = 1;
    while i < s.len()
        invariant
            1 <= i <= s@.len(),
            forall|k: int| 1 <= k < i ==> '0' <= #[trigger] s@[k] <= '9',
        decreases s@.len() - i,
    {
        if !('0' <= s[i] && s[i] <= '9') {
            return false;
        }
        i = i + 1;
    }
    true
}

fn pattern_error(raw: &str) -> (r: XtaskError)
    ensures
        r@ == XtaskErrorView::InvalidInput(family_id_pattern_message(raw@)),
{
    let mut m = concat("family id `", raw);
    m.append("` must match ^[a-z0-9]+(\\.[a-z0-9_]+)+\\.v[0-9]+$");
    XtaskError::InvalidInput(m)
}

impl FamilyId {
    /// Accepts exactly the ids that keep the family-id pattern.
    pub fn parse(raw: &str) -> (r: Result<FamilyId, XtaskError>)
        ensures
            raw@.len() == 0 ==> (r matches Err(e) && e@ == XtaskErrorView::InvalidInput("family id must not be empty"@)),
            raw@.len() > 0 && family_id_ok(raw@) ==> (r matches Ok(id) && id@ == raw@),
            raw@.len() > 0 && !family_id_ok(raw@) ==> (r matches Err(e) && e@ == XtaskErrorView::InvalidInput(
                family_id_pattern_message(raw@),
            )),
    {
        let cs = chars_of(raw);
        if cs.len() == 0 {
            return Err(XtaskError::InvalidInput(owned("family id must not be empty")));
        }
        let parts = split_chars(&cs, '.');
        proof {
            assert(views(parts@) == split_seq(raw@, '.'));
        }
        if parts.len() < 3 {
            return Err(pattern_error(raw));
        }
        proof {
            assert(views(parts@)[0] == parts@[0]@);
        }
        if parts[0].len() == 0 || !all_lower_or_digit(&parts[0], false) {
            return Err(pattern_error(raw));
        }
        let last = parts.len() - 1;
        let mut i: usize = 1;
        while i < last
            invariant
                1 <= i <= last,
                last == parts@.len() - 1,
                views(parts@) == split_seq(raw@, '.'),
                forall|j: int, k: int|
                    1 <= j < i && 0 <= k < views(parts@)[j].len() ==> is_lower_or_digit(#[trigger] views(parts@)[j][k])
                        || views(parts@)[j][k] == '_',
                forall|j: int| 1 <= j < i ==> #[trigger] views(parts@)[j].len() > 0,
            decreases last - i,
        {
            proof {
                assert(views(parts@)[i as int] == parts@[i as int]@);
            }
            if parts[i].len() == 0 || !all_lower_or_digit(&parts[i], true) {
                return Err(pattern_error(raw));
            }
            i = i + 1;
        }
        proof {
            assert(views(parts@)[last as int] == parts@[last as int]@);
            assert(views(parts@).last() == parts@[last as int]@);
        }
        if !version_ok(&parts[last]) {
            return Err(pattern_error(raw));
        }
        Ok(FamilyId(owned(raw)))
    }

    pub fn as_str(&self) -> (r: &str)
        ensures
            r@ == self@,
    {
        self.0.as_str()
    }

    /// The packet directory of the family: the id itself.
    pub fn packet_dir_name(&self) -> (r: &str)
        ensures
            r@ == self@,
    {
        self.0.as_str()
    }

    /// The crate-name stem: the id without its version, `.` and `_` turned into `-`.
    pub fn crate_stem(&self) -> (r: String)
        ensures
            r@ == dashed(before_last_dot(self@)),
    {
        let cs = chars_of(self.0.as_str());
        let mut i: usize = cs.len();
        while i > 0 && cs[i - 1] != '.'
            invariant
                i <= cs@.len(),
                cs@ == self@,
                last_dot(self@, self@.len() as int) == last_dot(self@, i as int),
            decreases i,
        {
            i = i - 1;
        }
        let end: usize = if i > 0 { i - 1 } else { cs.len() };
        proof {
            if i > 0 {
                assert(last_dot(self@, i as int) == Some((i - 1) as int));
            }
        }
        let mut out = String::new();
        let mut k: usize = 0;
        while k < end
            invariant
                k <= end <= cs@.len(),
                cs@ == self@,
                out@ == dashed(cs@.take(k as int)),
            decreases end - k,
        {
            let c = cs[k];
            let d = if c == '.' || c == '_' { '-' } else { c };
            push_char(&mut out, d);
            proof {
                assert(cs@.take(k + 1) =~= cs@.take(k as int).push(c));
                assert(dashed(cs@.take(k + 1)) =~= dashed(cs@.take(k as int)).push(d));
            }
            k = k + 1;
        }
        proof {
            if i == 0 {
                assert(cs@.take(end as int) =~= cs@);
            }
        }
        out
    }
}

/// The last position below `n` that holds `.`.
pub open spec fn last_dot(s: Seq<char>, n: int) -> Option<int>
    decreases n,
{
    if n <= 0 {
        None
    } else if s[n - 1] == '.' {
        Some(n - 1)
    } else {
        last_dot(s, n - 1)
    }
}

/// `s` up to its last `.`, or all of `s` when it has none.
pub open spec fn before_last_dot(s: Seq<char>) -> Seq<char> {
    match last_dot(s, s.len() as int) {
        Some(p) => s.take(p),
        None => s,
    }
}

/// `s` with `.` and `_` replaced by `-`.
pub open spec fn dashed(s: Seq<char>) -> Seq<char> {
    s.map_values(|c: char| if c == '.' || c == '_' { '-' } else { c })
}

/// `base/part`: a relative part appended to a path as a further component.
pub open spec fn join_path(base: Seq<char>, part: Seq<char>) -> Seq<char> {
    if base.len() == 0 {
        part
    } else if base.last() == '/' {
        base + part
    } else {
        base + "/"@ + part
    }
}

pub fn join_path_string(base: &str, part: &str) -> (r: String)
    ensures
        r@ == join_path(base@, part@),
{
    let cs = chars_of(base);
    if cs.len() == 0 {
        owned(part)
    } else if cs[cs.len() - 1] == '/' {
        concat(base, part)
    } else {
        let mut s = concat(base, "/");
        s.append(part);
        s
    }
}

/// The files and directories of one family packet, as paths.
#[derive(Debug, Clone)]
pub struct PacketPaths {
    pub root: String,
    pub candidate: String,
    pub manifest: String,
    pub fixtures: String,
    pub artifacts: String,
}

impl PacketPaths {
    /// Lays the packet of `family` out under `workspace_root`.
    pub fn new(workspace_root: &str, family: FamilyId) -> (r: PacketPaths)
        ensures
            r.root@ == join_path(join_path(workspace_root@, FAMILY_ROOT_DIR@), family@),
            r.candidate@ == join_path(r.root@, "candidate.md"@),
            r.manifest@ == join_path(r.root@, "family.toml"@),
            r.fixtures@ == join_path(r.root@, "fixtures"@),
            r.artifacts@ == join_path(
                join_path(join_path(workspace_root@, ".semantic-family-artifacts"@), FAMILY_ROOT_DIR@),
                family@,
            ),
    {
        let families = join_path_string(workspace_root, FAMILY_ROOT_DIR);
        let root = join_path_string(families.as_str(), family.packet_dir_name());
        let hidden = join_path_string(workspace_root, ".semantic-family-artifacts");
        let hidden_families = join_path_string(hidden.as_str(), FAMILY_ROOT_DIR);
        let artifacts = join_path_string(hidden_families.as_str(), family.packet_dir_name());
        PacketPaths {
            candidate: join_path_string(root.as_str(), "candidate.md"),
            manifest: join_path_string(root.as_str(), "family.toml"),
            fixtures: join_path_string(root.as_str(), "fixtures"),
            artifacts,
            root,
        }
    }
}

} // verus!
