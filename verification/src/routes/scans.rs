//! The rules of the scan endpoints: validating and normalizing query
//! parameters, the bounds of result windows, the order of listings, and the
//! decisions taken when a scan starts, is cancelled or ends.

use vstd::prelude::*;
use crate::config::ScanDefaultsConfig;
use crate::error::AppError;
use crate::metrics::Metrics;
use crate::middleware::validation::{validate_file_path_on, validate_scan_options};
use crate::paths::{components_of, file_name_of, path_file_name, push_part, path_parts, path_pushed, PartText, PathPart, part_text};
use crate::scanner::globs::{glob_accepts, glob_error_text, glob_new, forward_slashes};
use crate::scanner::ScanResultSummary;
use crate::sort::{is_permutation, is_stable_sort, key_le, lex_le, reverse_vec, reversed, stable_sort_by_keys, SortKey};
use crate::text::{
    chars_of, concat, concat3, contains_char, ends_with_str, has_char, push_char, seq_ends_with,
    string_of, to_lowercase, trim, trimmed, unicode_lowercase,
};
use crate::types::{ListItem, ScanEvent, ScanOptions, TopItem, CreateScanRequest};

verus! {

/// The character that escapes `%`, `_` and itself in LIKE patterns.
pub const LIKE_ESCAPE: char = '!';

/// The most tree nodes one request returns.
pub const TREE_LIMIT_MAX: i64 = 5000;

// ---------------------------------------------------------------------------
// Query parameters
// ---------------------------------------------------------------------------

/// Parameters of the cancel endpoint.
#[derive(Clone, Copy, Debug, PartialEq, Eq)]
pub struct CancelQuery {
    /// Also delete the scan and its data.
    pub purge: Option<bool>,
}

/// Parameters of the tree endpoint.
#[derive(Clone, Debug)]
pub struct TreeQuery {
    /// Restrict to this directory and what lies below it.
    pub path: Option<String>,
    /// How many levels below `path` to include.
    pub depth: Option<i64>,
    /// `size` (default) or `name`.
    pub sort: Option<String>,
    /// The most nodes to return.
    pub limit: Option<i64>,
}

/// Parameters of the "largest" endpoint.
#[derive(Clone, Debug)]
pub struct TopQuery {
    /// `dirs` (default) or `files`.
    pub scope: Option<String>,
    /// The most entries to return.
    pub limit: Option<i64>,
}

/// Parameters of the listing endpoint.
#[derive(Clone, Debug)]
pub struct ListQuery {
    /// The directory to list; the scan roots when absent.
    pub path: Option<String>,
    /// `allocated`, `logical`, `name`, `type`, `modified` or `accessed`.
    pub sort: Option<String>,
    /// `asc` or `desc`.
    pub order: Option<String>,
    /// The most entries to return.
    pub limit: Option<i64>,
    /// How many entries to skip.
    pub offset: Option<i64>,
}

/// Parameters of the "recently accessed" endpoint.
#[derive(Clone, Debug)]
pub struct RecentQuery {
    /// `dirs` (default), `files` or `all`.
    pub scope: Option<String>,
    /// The most entries to return.
    pub limit: Option<i64>,
    /// Restrict to this directory and what lies below it.
    pub path: Option<String>,
}

/// `v` kept within `lo..=hi`.
pub open spec fn clamp_i64(v: i64, lo: i64, hi: i64) -> i64 {
    if v < lo {
        lo
    } else if v > hi {
        hi
    } else {
        v
    }
}

fn clamp(v: i64, lo: i64, hi: i64) -> (r: i64)
    ensures
        r == clamp_i64(v, lo, hi),
{
    if v < lo {
        lo
    } else if v > hi {
        hi
    } else {
        v
    }
}

/// The number of tree nodes returned: 200 unless asked, within 1..=5000.
pub fn tree_limit(limit: Option<i64>) -> (r: i64)
    ensures
        r == clamp_i64(
            match limit {
                Some(l) => l,
                None => 200,
            },
            1,
            TREE_LIMIT_MAX,
        ),
{
    clamp(
        match limit {
            Some(l) => l,
            None => 200,
        },
        1,
        TREE_LIMIT_MAX,
    )
}

/// The number of "largest" entries returned: 100 unless asked, within
/// 1..=500.
pub fn top_limit(limit: Option<i64>) -> (r: i64)
    ensures
        r == clamp_i64(
            match limit {
                Some(l) => l,
                None => 100,
            },
            1,
            500,
        ),
{
    clamp(
        match limit {
            Some(l) => l,
            None => 100,
        },
        1,
        500,
    )
}

/// Whether the "largest" list is of files (scope `files`); it is of
/// directories otherwise.
pub fn top_lists_files(scope: Option<&str>) -> (r: bool)
    ensures
        r == (scope matches Some(s) && s@ == "files"@),
{
    match scope {
        Some(s) => crate::text::str_eq(s, "files"),
        None => false,
    }
}

/// The number of recently accessed entries returned: 50 unless asked,
/// within 1..=500.
pub fn recent_limit(limit: Option<i64>) -> (r: i64)
    ensures
        r == clamp_i64(
            match limit {
                Some(l) => l,
                None => 50,
            },
            1,
            500,
        ),
{
    clamp(
        match limit {
            Some(l) => l,
            None => 50,
        },
        1,
        500,
    )
}

/// How many candidates are read per returned entry: the configured factor
/// (10 unless set) within 5..=20.
pub fn recent_fetch_multiplier(configured: Option<i64>) -> (r: i64)
    ensures
        r == clamp_i64(
            match configured {
                Some(m) => m,
                None => 10,
            },
            5,
            20,
        ),
{
    clamp(
        match configured {
            Some(m) => m,
            None => 10,
        },
        5,
        20,
    )
}

/// How many candidates are read: `limit * multiplier` within 100..=2000.
pub fn recent_fetch_cap(limit: i64, multiplier: i64) -> (r: i64)
    requires
        1 <= limit <= 500,
        5 <= multiplier <= 20,
    ensures
        r == clamp_i64((limit * multiplier) as i64, 100, 2000),
{
    assert(limit * multiplier <= 10000) by (nonlinear_arith)
        requires
            1 <= limit <= 500,
            5 <= multiplier <= 20,
    ;
    assert(limit * multiplier >= 5) by (nonlinear_arith)
        requires
            1 <= limit <= 500,
            5 <= multiplier <= 20,
    ;
    clamp(limit * multiplier, 100, 2000)
}

/// Which kinds of entries the recent list reads: directories for `dirs` and
/// `all` (and by default), files for `files` and `all`.
pub fn recent_scope(scope: Option<&str>) -> (r: (bool, bool))
    ensures
        ({
            let s: Seq<char> = match scope {
                Some(s) => s@,
                None => "dirs"@,
            };
            r == (s == "dirs"@ || s == "all"@, s == "files"@ || s == "all"@)
        }),
{
    let s = match scope {
        Some(s) => s,
        None => "dirs",
    };
    let all = crate::text::str_eq(s, "all");
    (crate::text::str_eq(s, "dirs") || all, crate::text::str_eq(s, "files") || all)
}

// ---------------------------------------------------------------------------
// Paths in queries
// ---------------------------------------------------------------------------

/// `s` with `%`, `_` and `!` each preceded by `!`.
pub open spec fn like_escaped(s: Seq<char>) -> Seq<char>
    decreases s.len(),
{
    if s.len() == 0 {
        s
    } else {
        let c = s.last();
        like_escaped(s.drop_last()) + if c == '%' || c == '_' || c == '!' {
            seq!['!', c]
        } else {
            seq![c]
        }
    }
}

/// Reads a LIKE pattern escaped with `!` back as text: `!` followed by a
/// character stands for that character; any other character for itself.
pub open spec fn like_unescaped(t: Seq<char>) -> Seq<char>
    decreases t.len(),
{
    if t.len() == 0 {
        t
    } else if t[0] == '!' && t.len() >= 2 {
        seq![t[1]] + like_unescaped(t.skip(2))
    } else {
        seq![t[0]] + like_unescaped(t.skip(1))
    }
}

/// Whether a LIKE pattern escaped with `!` holds no wildcard: read left to
/// right, every `%`, `_` and `!` is escaped by a preceding `!`.
pub open spec fn like_literal_only(t: Seq<char>) -> bool
    decreases t.len(),
{
    if t.len() == 0 {
        true
    } else if t[0] == '!' {
        t.len() >= 2 && like_literal_only(t.skip(2))
    } else {
        t[0] != '%' && t[0] != '_' && like_literal_only(t.skip(1))
    }
}

/// Escaping distributes over concatenation.
proof fn lemma_like_escaped_concat(a: Seq<char>, b: Seq<char>)
    ensures
        like_escaped(a + b) == like_escaped(a) + like_escaped(b),
    decreases b.len(),
{
    if b.len() == 0 {
        assert(a + b == a);
    } else {
        assert((a + b).drop_last() == a + b.drop_last());
        lemma_like_escaped_concat(a, b.drop_last());
    }
}

/// An escaped value matches exactly itself: read back, the pattern is the
/// value, and it holds no wildcard.
pub proof fn lemma_like_escape_is_literal(s: Seq<char>)
    ensures
        like_unescaped(like_escaped(s)) == s,
        like_literal_only(like_escaped(s)),
    decreases s.len(),
{
    if s.len() > 0 {
        let c = s[0];
        let rest = s.skip(1);
        assert(s == seq![c] + rest);
        lemma_like_escaped_concat(seq![c], rest);
        assert(seq![c].drop_last() == Seq::<char>::empty());
        lemma_like_escape_is_literal(rest);
        let t = like_escaped(s);
        let head = like_escaped(seq![c]);
        assert(seq![c].last() == c);
        assert(like_escaped(seq![c].drop_last()).len() == 0);
        if c == '%' || c == '_' || c == '!' {
            assert(head =~= seq!['!', c]);
            assert(t.skip(2) =~= like_escaped(rest));
        } else {
            assert(head =~= seq![c]);
            assert(t.skip(1) =~= like_escaped(rest));
        }
        assert(like_unescaped(t) == s);
    }
}

/// Escapes a value for use in a LIKE pattern with `!` as the escape
/// character.
pub fn escape_like_pattern(p: &str) -> (r: String)
    ensures
        r@ == like_escaped(p@),
{
    let v = chars_of(p);
    let mut out: Vec<char> = Vec::new();
    let mut i: usize = 0;
    while i < v.len()
        invariant
            v@ == p@,
            i <= v.len(),
            out@ == like_escaped(v@.take(i as int)),
        decreases v.len() - i,
    {
        let c = v[i];
        assert(v@.take(i as int + 1).drop_last() == v@.take(i as int));
        if c == '%' || c == '_' || c == '!' {
            out.push('!');
        }
        out.push(c);
        i += 1;
        assert(out@ =~= like_escaped(v@.take(i as int)));
    }
    assert(v@.take(v.len() as int) == v@);
    string_of(&out)
}

/// The prefix under which a directory's descendants lie: the path itself
/// when it already ends in a separator, else followed by `\` when it holds a
/// backslash and by `/` otherwise.
pub open spec fn subtree_prefix_of(p: Seq<char>) -> Seq<char> {
    if seq_ends_with(p, "/"@) || seq_ends_with(p, "\\"@) {
        p
    } else if has_char(p, '\\') {
        p.push('\\')
    } else {
        p.push('/')
    }
}

/// The prefix under which a directory's descendants lie.
pub fn subtree_prefix(p: &str) -> (r: String)
    ensures
        r@ == subtree_prefix_of(p@),
{
    let v = chars_of(p);
    if ends_with_str(&v, "/") || ends_with_str(&v, "\\") {
        return String::from_str(p);
    }
    let mut s = String::from_str(p);
    if contains_char(&v, '\\') {
        push_char(&mut s, '\\');
    } else {
        push_char(&mut s, '/');
    }
    s
}

/// The LIKE pattern that selects a directory's descendants.
pub fn subtree_like_pattern(root: &str) -> (r: String)
    ensures
        r@ == like_escaped(subtree_prefix_of(root@)).push('%'),
{
    let pfx = subtree_prefix(root);
    let mut e = escape_like_pattern(pfx.as_str());
    push_char(&mut e, '%');
    e
}

/// Whether a component sequence holds a `..`.
pub open spec fn has_parent_dir(parts: Seq<PartText>) -> bool {
    exists|i: int| 0 <= i < parts.len() && parts[i] is ParentDir
}

/// The path built by pushing the components in order onto an empty path,
/// leaving out `.` components.
pub open spec fn rebuilt_path(parts: Seq<PartText>) -> Seq<char>
    decreases parts.len(),
{
    if parts.len() == 0 {
        Seq::empty()
    } else if parts.last() is CurDir {
        rebuilt_path(parts.drop_last())
    } else {
        path_pushed(rebuilt_path(parts.drop_last()), parts.last())
    }
}

/// Why a path in a query was refused, if it was: blank, holding a NUL,
/// climbing with `..`, or empty once normalized.
pub open spec fn query_path_error(p: Seq<char>) -> Option<Seq<char>> {
    if trimmed(p).len() == 0 {
        Some("path must not be empty"@)
    } else if has_char(p, '\0') {
        Some("path contains null byte"@)
    } else if has_parent_dir(path_parts(p)) {
        Some("path traversal is not allowed"@)
    } else if rebuilt_path(path_parts(p)).len() == 0 {
        Some("normalized path is empty"@)
    } else {
        None
    }
}

/// Normalizes a path given in a query: it is rebuilt from its components
/// without `.` parts; blank paths, paths with a NUL or a `..` component, and
/// paths that normalize to nothing are refused as bad requests.
pub fn normalize_query_path(p: &str) -> (r: Result<String, AppError>)
    ensures
        match query_path_error(p@) {
            Some(m) => r matches Err(AppError::BadRequest(x)) && x@ == m,
            None => r matches Ok(s) && s@ == rebuilt_path(path_parts(p@)),
        },
{
    let v = chars_of(p);
    let t = trim(&v);
    if t.len() == 0 {
        return Err(AppError::BadRequest(String::from_str("path must not be empty")));
    }
    if contains_char(&v, '\0') {
        return Err(AppError::BadRequest(String::from_str("path contains null byte")));
    }
    let parts = components_of(p);
    let ghost pt = path_parts(p@);
    let mut acc = String::new();
    let mut i: usize = 0;
    while i < parts.len()
        invariant
            i <= parts.len(),
            pt == path_parts(p@),
            crate::paths::parts_text(parts@) == pt,
            forall|j: int| 0 <= j < i ==> !(pt[j] is ParentDir),
            acc@ == rebuilt_path(pt.take(i as int)),
            trimmed(p@).len() > 0,
            !has_char(p@, '\0'),
        decreases parts.len() - i,
    {
        assert(pt[i as int] == part_text(parts@[i as int]));
        assert(pt.take(i as int + 1).drop_last() == pt.take(i as int));
        match &parts[i] {
            PathPart::ParentDir => {
                assert(has_parent_dir(pt));
                return Err(AppError::BadRequest(String::from_str("path traversal is not allowed")));
            },
            PathPart::CurDir => {},
            part => {
                acc = push_part(acc.as_str(), part);
            },
        }
        i += 1;
    }
    assert(pt.take(parts.len() as int) == pt);
    let av = chars_of(acc.as_str());
    if av.len() == 0 {
        return Err(AppError::BadRequest(String::from_str("normalized path is empty")));
    }
    Ok(acc)
}

/// `s` with every forward slash turned into a backslash.
pub open spec fn back_slashes(s: Seq<char>) -> Seq<char> {
    s.map_values(|c: char| if c == '/' { '\\' } else { c })
}

/// A normalized Windows path that is a bare drive (two bytes, the second a
/// colon, such as `C:`) gets its root separator (`C:\`).
pub open spec fn drive_rooted(r: Seq<char>) -> Seq<char> {
    if vstd::utf8::encode_utf8(r).len() == 2 && r.len() == 2 && r[1] == ':' {
        r.push('\\')
    } else {
        r
    }
}

fn back_slashes_exec(s: &Vec<char>) -> (r: Vec<char>)
    ensures
        r@ == back_slashes(s@),
{
    let mut out: Vec<char> = Vec::new();
    let mut i: usize = 0;
    while i < s.len()
        invariant
            i <= s.len(),
            out@ == back_slashes(s@.take(i as int)),
        decreases s.len() - i,
    {
        let c = s[i];
        out.push(if c == '/' { '\\' } else { c });
        i += 1;
        assert(out@ =~= back_slashes(s@.take(i as int)));
    }
    assert(s@.take(s.len() as int) == s@);
    out
}

/// Normalizes a path given in a query as a Windows host does: forward
/// slashes become backslashes, then the path is normalized as
/// `normalize_query_path` does (turning slashes into backslashes changes
/// neither blankness nor NUL bytes, so the refusals are those of the given
/// path); a result that is a bare drive such as `C:` becomes `C:\`.
pub fn normalize_query_path_windows(p: &str) -> (r: Result<String, AppError>)
    ensures
        match query_path_error(back_slashes(p@)) {
            Some(m) => r matches Err(AppError::BadRequest(x)) && x@ == m,
            None => r matches Ok(s) && s@ == drive_rooted(rebuilt_path(path_parts(back_slashes(p@)))),
        },
{
    let v = chars_of(p);
    let b = back_slashes_exec(&v);
    let q = string_of(&b);
    let n = match normalize_query_path(q.as_str()) {
        Ok(n) => n,
        Err(e) => return Err(e),
    };
    let nv = chars_of(n.as_str());
    if crate::text::byte_len(n.as_str()) == 2 && nv.len() == 2 && nv[1] == ':' {
        let mut m = n;
        push_char(&mut m, '\\');
        Ok(m)
    } else {
        Ok(n)
    }
}

/// The normalized query path of the host: `normalize_query_path_windows` on
/// Windows, `normalize_query_path` elsewhere.
pub open spec fn host_query_path(p: Seq<char>, windows: bool) -> Result<Seq<char>, Seq<char>> {
    let q = if windows { back_slashes(p) } else { p };
    match query_path_error(q) {
        Some(m) => Err(m),
        None => Ok(
            if windows {
                drive_rooted(rebuilt_path(path_parts(q)))
            } else {
                rebuilt_path(path_parts(q))
            },
        ),
    }
}

/// Normalizes a path given in a query by the rules of the host, `windows`
/// saying whether it runs Windows.
pub fn normalize_query_path_on(p: &str, windows: bool) -> (r: Result<String, AppError>)
    ensures
        match host_query_path(p@, windows) {
            Err(m) => r matches Err(AppError::BadRequest(x)) && x@ == m,
            Ok(n) => r matches Ok(s) && s@ == n,
        },
{
    if windows {
        normalize_query_path_windows(p)
    } else {
        normalize_query_path(p)
    }
}

/// The bounds that select a directory and what lies below it by path:
/// the path itself, and the half-open range from its prefix to the prefix
/// followed by `~`.
#[derive(Clone, Debug)]
pub struct SubtreeRange {
    /// The directory itself.
    pub exact: String,
    /// Lower bound of descendant paths.
    pub low: String,
    /// Upper bound (exclusive) of descendant paths.
    pub high: String,
}

/// The subtree bounds of the recent list: the prefix and the prefix
/// followed by `~`.
pub fn recent_subtree(normalized: &str) -> (r: SubtreeRange)
    ensures
        r.exact@ == normalized@,
        r.low@ == subtree_prefix_of(normalized@),
        r.high@ == subtree_prefix_of(normalized@).push('~'),
{
    let pfx = subtree_prefix(normalized);
    let mut hi = subtree_prefix(normalized);
    push_char(&mut hi, '~');
    SubtreeRange { exact: String::from_str(normalized), low: pfx, high: hi }
}

/// The subtree bounds of the tree query: the prefix and the prefix
/// followed by `~`. The bounds are compared as plain text (`>=` and `<`),
/// so no LIKE escaping applies to them.
pub fn tree_subtree(normalized: &str) -> (r: SubtreeRange)
    ensures
        r.exact@ == normalized@,
        r.low@ == subtree_prefix_of(normalized@),
        r.high@ == subtree_prefix_of(normalized@).push('~'),
{
    let pfx = subtree_prefix(normalized);
    let mut hi = subtree_prefix(normalized);
    push_char(&mut hi, '~');
    SubtreeRange { exact: String::from_str(normalized), low: pfx, high: hi }
}

/// The tree query as the database is asked: the subtree to restrict to,
/// whether to order by name, and the row limit.
#[derive(Clone, Debug)]
pub struct TreePlan {
    /// The normalized path, when one was given.
    pub path: Option<String>,
    /// Its subtree bounds.
    pub range: Option<SubtreeRange>,
    /// Order by path (`sort=name`) rather than by allocated size.
    pub by_name: bool,
    /// The row limit.
    pub limit: i64,
}

/// Checks and prepares a tree query: a negative depth, a path over 4096
/// bytes (before or after normalization) and a path refused by the host's
/// normalization (`windows` saying whether it runs Windows) are bad
/// requests.
pub fn plan_tree_query(q: &TreeQuery, windows: bool) -> (r: Result<TreePlan, AppError>)
    ensures
        q.depth matches Some(d) && d < 0 ==> (r matches Err(AppError::BadRequest(m)) && m@
            == "depth must be >= 0"@),
        (q.depth matches Some(d) ==> d >= 0) ==> match q.path {
            None => r matches Ok(plan) && plan.path is None && plan.range is None,
            Some(p) => if vstd::utf8::encode_utf8(p@).len() > 4096 {
                r matches Err(AppError::BadRequest(m)) && m@ == "Path too long"@
            } else {
                match host_query_path(p@, windows) {
                    Err(e) => r matches Err(AppError::BadRequest(m)) && m@ == e,
                    Ok(n) => if vstd::utf8::encode_utf8(n).len() > 4096 {
                        r matches Err(AppError::BadRequest(m)) && m@ == "Normalized path too long"@
                    } else {
                        r matches Ok(plan) && (plan.path matches Some(x) && x@ == n) && (
                        plan.range matches Some(rg) && rg.exact@ == n && rg.low@ == subtree_prefix_of(
                            n,
                        ) && rg.high@ == subtree_prefix_of(n).push('~'))
                    },
                }
            },
        },
        r matches Ok(plan) ==> plan.limit == clamp_i64(
            match q.limit {
                Some(l) => l,
                None => 200,
            },
            1,
            TREE_LIMIT_MAX,
        ) && plan.by_name == (q.sort matches Some(s) && s@ == "name"@),
{
    if let Some(d) = q.depth {
        if d < 0 {
            return Err(AppError::BadRequest(String::from_str("depth must be >= 0")));
        }
    }
    let by_name = match &q.sort {
        Some(s) => crate::text::str_eq(s.as_str(), "name"),
        None => false,
    };
    let limit = tree_limit(q.limit);
    match &q.path {
        None => Ok(TreePlan { path: None, range: None, by_name, limit }),
        Some(p) => {
            if crate::text::byte_len(p.as_str()) > 4096 {
                return Err(AppError::BadRequest(String::from_str("Path too long")));
            }
            let n = match normalize_query_path_on(p.as_str(), windows) {
                Ok(n) => n,
                Err(e) => return Err(e),
            };
            if crate::text::byte_len(n.as_str()) > 4096 {
                return Err(AppError::BadRequest(String::from_str("Normalized path too long")));
            }
            let range = tree_subtree(n.as_str());
            Ok(TreePlan { path: Some(n), range: Some(range), by_name, limit })
        },
    }
}

/// The deepest level the tree query returns: the base directory's depth
/// plus the requested number of levels, when both are known.
pub fn tree_max_depth(base_depth: Option<i64>, depth: Option<i64>) -> (r: Option<i64>)
    requires
        base_depth matches Some(b) && depth matches Some(d) ==> i64::MIN <= b + d <= i64::MAX,
    ensures
        r == match (base_depth, depth) {
            (Some(b), Some(d)) => Some((b + d) as i64),
            _ => None::<i64>,
        },
{
    match (base_depth, depth) {
        (Some(b), Some(d)) => Some(b + d),
        _ => None,
    }
}

// ---------------------------------------------------------------------------
// Listing windows
// ---------------------------------------------------------------------------

/// The most entries a listing skips.
pub const MAX_OFFSET: usize = 100_000;

/// The furthest entry (offset plus limit) a listing reaches.
pub const MAX_TOTAL_SPAN: usize = 102_000;

/// The window of a listing: how many entries to skip and how many to return.
#[derive(Clone, Copy, Debug, PartialEq, Eq)]
pub struct ListWindow {
    /// Entries skipped.
    pub offset: usize,
    /// Entries returned at most.
    pub limit: usize,
}

/// Checks the paging parameters of a listing: the limit is 500 unless
/// asked, within 1..=2000; the offset is 0 unless asked, and a negative
/// offset, one above 100000, or a window reaching past entry 102000 is a bad
/// request.
pub fn list_window(limit: Option<i64>, offset: Option<i64>) -> (r: Result<ListWindow, AppError>)
    ensures
        ({
            let l = clamp_i64(
                match limit {
                    Some(v) => v,
                    None => 500,
                },
                1,
                2000,
            );
            let o: i64 = match offset {
                Some(v) => v,
                None => 0,
            };
            if o < 0 {
                r matches Err(AppError::BadRequest(m)) && m@ == "offset must be >= 0"@
            } else if o > MAX_OFFSET {
                r matches Err(AppError::BadRequest(m)) && m@ == "offset must be <= 100000"@
            } else if o + l > MAX_TOTAL_SPAN {
                r matches Err(AppError::BadRequest(m)) && m@ == "offset + limit exceeds maximum span"@
            } else {
                r == Ok::<ListWindow, AppError>(ListWindow { offset: o as usize, limit: l as usize })
            }
        }),
{
    let l = clamp(
        match limit {
            Some(v) => v,
            None => 500,
        },
        1,
        2000,
    );
    let o: i64 = match offset {
        Some(v) => v,
        None => 0,
    };
    if o < 0 {
        return Err(AppError::BadRequest(String::from_str("offset must be >= 0")));
    }
    if o > 100_000 {
        return Err(AppError::BadRequest(String::from_str("offset must be <= 100000")));
    }
    let ou = o as usize;
    let lu = l as usize;
    if ou + lu > MAX_TOTAL_SPAN {
        return Err(AppError::BadRequest(String::from_str("offset + limit exceeds maximum span")));
    }
    Ok(ListWindow { offset: ou, limit: lu })
}

/// The entries of `s` inside the window: skip `offset`, keep at most
/// `limit`.
pub open spec fn windowed<T>(s: Seq<T>, offset: nat, limit: nat) -> Seq<T> {
    let rest = if offset >= s.len() { Seq::<T>::empty() } else { s.skip(offset as int) };
    if limit >= rest.len() { rest } else { rest.take(limit as int) }
}

/// The entries of `items` inside the window.
pub fn apply_window<T>(items: Vec<T>, offset: usize, limit: usize) -> (r: Vec<T>)
    ensures
        r@ == windowed(items@, offset as nat, limit as nat),
{
    let ghost s = items@;
    let n = items.len();
    let lo: usize = if offset >= n { n } else { offset };
    let hi: usize = if limit >= n - lo { n } else { lo + limit };
    let mut rev = reverse_vec(items);
    let mut out: Vec<T> = Vec::new();
    let mut k: usize = 0;
    while rev.len() > 0
        invariant
            n == s.len(),
            lo <= hi <= n,
            rev.len() + k == n,
            forall|j: int| 0 <= j < rev.len() ==> #[trigger] rev@[j] == s[n - 1 - j],
            out@ == s.subrange(lo as int, if k < lo { lo as int } else if k > hi { hi as int } else { k as int }),
        decreases rev.len(),
    {
        let ghost rb = rev@;
        let x = match rev.pop() {
            Some(x) => x,
            None => {
                assert(false);
                return out;
            },
        };
        assert(x == rb[rb.len() - 1]);
        assert(x == s[k as int]);
        if lo <= k && k < hi {
            out.push(x);
            assert(out@ =~= s.subrange(lo as int, k as int + 1));
        }
        k += 1;
        assert forall|j: int| 0 <= j < rev.len() implies #[trigger] rev@[j] == s[n - 1 - j] by {
            assert(rev@[j] == rb[j]);
        }
    }
    assert(out@ =~= windowed(s, offset as nat, limit as nat));
    out
}

// ---------------------------------------------------------------------------
// Ordering listings
// ---------------------------------------------------------------------------

/// The key a listing is ordered by.
#[derive(Clone, Copy, Debug, PartialEq, Eq)]
pub enum ListSort {
    /// By name, ignoring case.
    Name,
    /// By logical size.
    Logical,
    /// Directories before files.
    Type,
    /// By modification time.
    Modified,
    /// By access time.
    Accessed,
    /// By allocated size.
    Allocated,
}

/// The listing order asked for: one of `name`, `logical`, `type`,
/// `modified`, `accessed`, `allocated`; anything else orders by allocated
/// size.
pub open spec fn list_sort_of(sort: Option<Seq<char>>) -> ListSort {
    match sort {
        Some(s) => if s == "name"@ {
            ListSort::Name
        } else if s == "logical"@ {
            ListSort::Logical
        } else if s == "type"@ {
            ListSort::Type
        } else if s == "modified"@ {
            ListSort::Modified
        } else if s == "accessed"@ {
            ListSort::Accessed
        } else {
            ListSort::Allocated
        },
        None => ListSort::Allocated,
    }
}

/// Whether a listing is in descending order: as asked (`asc` or `desc`);
/// without an order, sizes and times descend and names and types ascend;
/// any other order ascends.
pub open spec fn list_descending(key: ListSort, order: Option<Seq<char>>) -> bool {
    match order {
        Some(o) => o == "desc"@,
        None => key == ListSort::Logical || key == ListSort::Allocated || key == ListSort::Modified
            || key == ListSort::Accessed,
    }
}

/// A listing entry's name.
pub fn get_name(i: &ListItem) -> (r: String)
    ensures
        r@ == match i {
            ListItem::Dir { name, .. } => name@,
            ListItem::File { name, .. } => name@,
        },
{
    match i {
        ListItem::Dir { name, .. } => name.clone(),
        ListItem::File { name, .. } => name.clone(),
    }
}

/// A listing entry's allocated size.
pub fn get_alloc(i: &ListItem) -> (r: i64)
    ensures
        r == match i {
            ListItem::Dir { allocated_size, .. } => *allocated_size,
            ListItem::File { allocated_size, .. } => *allocated_size,
        },
{
    match i {
        ListItem::Dir { allocated_size, .. } => *allocated_size,
        ListItem::File { allocated_size, .. } => *allocated_size,
    }
}

/// A listing entry's logical size.
pub fn get_logical(i: &ListItem) -> (r: i64)
    ensures
        r == match i {
            ListItem::Dir { logical_size, .. } => *logical_size,
            ListItem::File { logical_size, .. } => *logical_size,
        },
{
    match i {
        ListItem::Dir { logical_size, .. } => *logical_size,
        ListItem::File { logical_size, .. } => *logical_size,
    }
}

/// Whether a listing entry is a directory.
pub fn is_dir(i: &ListItem) -> (r: bool)
    ensures
        r == (i is Dir),
{
    match i {
        ListItem::Dir { .. } => true,
        ListItem::File { .. } => false,
    }
}

/// A listing entry's modification time, 0 when unknown.
pub fn get_mtime(i: &ListItem) -> (r: i64)
    ensures
        r == match i {
            ListItem::Dir { mtime, .. } => match mtime {
                Some(t) => *t,
                None => 0,
            },
            ListItem::File { mtime, .. } => match mtime {
                Some(t) => *t,
                None => 0,
            },
        },
{
    match i {
        ListItem::Dir { mtime, .. } => match mtime {
            Some(t) => *t,
            None => 0,
        },
        ListItem::File { mtime, .. } => match mtime {
            Some(t) => *t,
            None => 0,
        },
    }
}

/// A listing entry's access time, 0 when unknown.
pub fn get_atime(i: &ListItem) -> (r: i64)
    ensures
        r == match i {
            ListItem::Dir { atime, .. } => match atime {
                Some(t) => *t,
                None => 0,
            },
            ListItem::File { atime, .. } => match atime {
                Some(t) => *t,
                None => 0,
            },
        },
{
    match i {
        ListItem::Dir { atime, .. } => match atime {
            Some(t) => *t,
            None => 0,
        },
        ListItem::File { atime, .. } => match atime {
            Some(t) => *t,
            None => 0,
        },
    }
}

/// Whether `k` is the key of listing entry `item` under order `key`: the
/// lowercased name, a size, 0 for directories and 1 for files, or a time.
pub open spec fn is_list_key(item: ListItem, key: ListSort, k: SortKey) -> bool {
    match key {
        ListSort::Name => k matches SortKey::Text(t) && t@ == unicode_lowercase(
            match item {
                ListItem::Dir { name, .. } => name@,
                ListItem::File { name, .. } => name@,
            },
        ),
        ListSort::Logical => k == SortKey::Num(
            match item {
                ListItem::Dir { logical_size, .. } => logical_size,
                ListItem::File { logical_size, .. } => logical_size,
            },
        ),
        ListSort::Type => k == SortKey::Num(if item is Dir { 0 } else { 1 }),
        ListSort::Modified => k == SortKey::Num(
            match item {
                ListItem::Dir { mtime, .. } => match mtime { Some(t) => t, None => 0 },
                ListItem::File { mtime, .. } => match mtime { Some(t) => t, None => 0 },
            },
        ),
        ListSort::Accessed => k == SortKey::Num(
            match item {
                ListItem::Dir { atime, .. } => match atime { Some(t) => t, None => 0 },
                ListItem::File { atime, .. } => match atime { Some(t) => t, None => 0 },
            },
        ),
        ListSort::Allocated => k == SortKey::Num(
            match item {
                ListItem::Dir { allocated_size, .. } => allocated_size,
                ListItem::File { allocated_size, .. } => allocated_size,
            },
        ),
    }
}

fn list_sort_exec(sort: Option<&str>) -> (r: ListSort)
    ensures
        r == list_sort_of(
            match sort {
                Some(s) => Some(s@),
                None => None,
            },
        ),
{
    match sort {
        Some(s) => if crate::text::str_eq(s, "name") {
            ListSort::Name
        } else if crate::text::str_eq(s, "logical") {
            ListSort::Logical
        } else if crate::text::str_eq(s, "type") {
            ListSort::Type
        } else if crate::text::str_eq(s, "modified") {
            ListSort::Modified
        } else if crate::text::str_eq(s, "accessed") {
            ListSort::Accessed
        } else {
            ListSort::Allocated
        },
        None => ListSort::Allocated,
    }
}

fn list_key_exec(item: &ListItem, key: ListSort) -> (k: SortKey)
    ensures
        is_list_key(*item, key, k),
{
    match key {
        ListSort::Name => {
            let n = get_name(item);
            let l = to_lowercase(n.as_str());
            SortKey::Text(chars_of(l.as_str()))
        },
        ListSort::Logical => SortKey::Num(get_logical(item)),
        ListSort::Type => SortKey::Num(if is_dir(item) { 0 } else { 1 }),
        ListSort::Modified => SortKey::Num(get_mtime(item)),
        ListSort::Accessed => SortKey::Num(get_atime(item)),
        ListSort::Allocated => SortKey::Num(get_alloc(item)),
    }
}

/// Whether `keys` are the keys of `items` under order `key`.
pub open spec fn keys_of_list(items: Seq<ListItem>, key: ListSort, keys: Seq<SortKey>) -> bool {
    keys.len() == items.len() && forall|i: int| 0 <= i < items.len() ==> is_list_key(
        #[trigger] items[i],
        key,
        keys[i],
    )
}

/// Whether `after` is `before` ordered as a listing is: stably by the key
/// `sort` names (ascending), then reversed when `order` (or the key's
/// default) is descending.
pub open spec fn listing_ordered(
    before: Seq<ListItem>,
    sort: Option<Seq<char>>,
    order: Option<Seq<char>>,
    after: Seq<ListItem>,
) -> bool {
    let key = list_sort_of(sort);
    let desc = list_descending(key, order);
    exists|keys: Seq<SortKey>, sorted: Seq<ListItem>, sorted_keys: Seq<SortKey>|
        keys_of_list(before, key, keys) && is_stable_sort(before, keys, sorted, sorted_keys) && after
            == if desc {
            reversed(sorted)
        } else {
            sorted
        }
}

/// The text an optional parameter holds.
pub open spec fn opt_text(o: Option<&str>) -> Option<Seq<char>> {
    match o {
        Some(s) => Some(s@),
        None => None,
    }
}

/// The number a listing compares entries by under a numeric order.
pub open spec fn list_number(item: ListItem, key: ListSort) -> i64 {
    match key {
        ListSort::Logical => match item {
            ListItem::Dir { logical_size, .. } => logical_size,
            ListItem::File { logical_size, .. } => logical_size,
        },
        ListSort::Type => if item is Dir { 0 } else { 1 },
        ListSort::Modified => match item {
            ListItem::Dir { mtime, .. } => match mtime { Some(t) => t, None => 0 },
            ListItem::File { mtime, .. } => match mtime { Some(t) => t, None => 0 },
        },
        ListSort::Accessed => match item {
            ListItem::Dir { atime, .. } => match atime { Some(t) => t, None => 0 },
            ListItem::File { atime, .. } => match atime { Some(t) => t, None => 0 },
        },
        _ => match item {
            ListItem::Dir { allocated_size, .. } => allocated_size,
            ListItem::File { allocated_size, .. } => allocated_size,
        },
    }
}

/// Whether entry `a` may come before entry `b` in an ascending listing:
/// by lowercased name (compared by code point) under the name order,
/// by the entry's number otherwise.
pub open spec fn list_entry_le(a: ListItem, b: ListItem, key: ListSort) -> bool {
    if key is Name {
        lex_le(
            unicode_lowercase(match a { ListItem::Dir { name, .. } => name@, ListItem::File { name, .. } => name@ }),
            unicode_lowercase(match b { ListItem::Dir { name, .. } => name@, ListItem::File { name, .. } => name@ }),
        )
    } else {
        list_number(a, key) <= list_number(b, key)
    }
}

proof fn lemma_list_key_le(a: ListItem, b: ListItem, key: ListSort, ka: SortKey, kb: SortKey)
    requires
        is_list_key(a, key, ka),
        is_list_key(b, key, kb),
    ensures
        key_le(ka, kb) == list_entry_le(a, b, key),
{
}

/// A listing ordered as `sort_items` orders it holds the same entries,
/// each once, and is in order: ascending by the chosen key, or descending
/// when the order (asked for, or the key's default) is descending.
pub proof fn lemma_listing_is_ordered(
    before: Seq<ListItem>,
    sort: Option<Seq<char>>,
    order: Option<Seq<char>>,
    after: Seq<ListItem>,
)
    requires
        listing_ordered(before, sort, order, after),
    ensures
        after.len() == before.len(),
        exists|p: Seq<int>|
            is_permutation(p, before.len()) && forall|k: int| 0 <= k < p.len() ==> after[k] == before[#[trigger] p[k]],
        forall|i: int, j: int|
            0 <= i < j < after.len() ==> if list_descending(list_sort_of(sort), order) {
                list_entry_le(#[trigger] after[j], #[trigger] after[i], list_sort_of(sort))
            } else {
                list_entry_le(after[i], after[j], list_sort_of(sort))
            },
{
    let key = list_sort_of(sort);
    let desc = list_descending(key, order);
    let (keys, sorted, sorted_keys) = choose|keys: Seq<SortKey>, sorted: Seq<ListItem>, sorted_keys: Seq<SortKey>|
        keys_of_list(before, key, keys) && is_stable_sort(before, keys, sorted, sorted_keys) && after
            == if desc {
            reversed(sorted)
        } else {
            sorted
        };
    let p = choose|p: Seq<int>|
        {
            &&& is_permutation(p, before.len())
            &&& forall|k: int| 0 <= k < p.len() ==> sorted[k] == before[#[trigger] p[k]] && sorted_keys[k]
                == keys[p[k]]
            &&& forall|k1: int, k2: int|
                0 <= k1 < k2 < p.len() && crate::sort::key_eq(sorted_keys[k1], sorted_keys[k2]) ==> #[trigger] p[k1]
                    < #[trigger] p[k2]
        };
    let n = before.len() as int;
    assert forall|k: int| 0 <= k < n implies is_list_key(#[trigger] sorted[k], key, sorted_keys[k]) by {
        assert(sorted[k] == before[p[k]]);
        assert(is_list_key(before[p[k]], key, keys[p[k]]));
    }
    assert forall|i: int, j: int| 0 <= i < j < n implies list_entry_le(#[trigger] sorted[i], #[trigger] sorted[j], key) by {
        assert(key_le(sorted_keys[i], sorted_keys[j]));
        lemma_list_key_le(sorted[i], sorted[j], key, sorted_keys[i], sorted_keys[j]);
    }
    if desc {
        let q = Seq::new(n as nat, |k: int| p[n - 1 - k]);
        assert forall|k1: int, k2: int| 0 <= k1 < k2 < q.len() implies #[trigger] q[k1] != #[trigger] q[k2] by {
            assert(p[n - 1 - k1] != p[n - 1 - k2]);
        }
        assert forall|k: int| 0 <= k < q.len() implies 0 <= #[trigger] q[k] < n by {
            assert(0 <= p[n - 1 - k] < n);
        }
        assert(is_permutation(q, before.len()));
        assert forall|k: int| 0 <= k < q.len() implies after[k] == before[#[trigger] q[k]] by {
            assert(after[k] == sorted[n - 1 - k]);
            assert(sorted[n - 1 - k] == before[p[n - 1 - k]]);
        }
        assert forall|i: int, j: int| 0 <= i < j < after.len() implies list_entry_le(
            #[trigger] after[j],
            #[trigger] after[i],
            key,
        ) by {
            assert(after[j] == sorted[n - 1 - j]);
            assert(after[i] == sorted[n - 1 - i]);
        }
    } else {
        assert forall|k: int| 0 <= k < p.len() implies after[k] == before[#[trigger] p[k]] by {
            assert(sorted[k] == before[p[k]]);
        }
    }
}

/// An entry's logical size.
pub open spec fn logical_of(i: ListItem) -> i64 {
    match i {
        ListItem::Dir { logical_size, .. } => logical_size,
        ListItem::File { logical_size, .. } => logical_size,
    }
}

/// An entry's allocated size.
pub open spec fn allocated_of(i: ListItem) -> i64 {
    match i {
        ListItem::Dir { allocated_size, .. } => allocated_size,
        ListItem::File { allocated_size, .. } => allocated_size,
    }
}

/// An entry's modification time, 0 when unknown.
pub open spec fn mtime_of(i: ListItem) -> i64 {
    match i {
        ListItem::Dir { mtime, .. } => match mtime { Some(t) => t, None => 0 },
        ListItem::File { mtime, .. } => match mtime { Some(t) => t, None => 0 },
    }
}

/// An entry's access time, 0 when unknown.
pub open spec fn atime_of(i: ListItem) -> i64 {
    match i {
        ListItem::Dir { atime, .. } => match atime { Some(t) => t, None => 0 },
        ListItem::File { atime, .. } => match atime { Some(t) => t, None => 0 },
    }
}

/// An entry's name.
pub open spec fn name_of(i: ListItem) -> Seq<char> {
    match i {
        ListItem::Dir { name, .. } => name@,
        ListItem::File { name, .. } => name@,
    }
}

/// Each named order sorts a listing by its own field. With `order` `desc`
/// the field never increases along the listing; with another order given
/// it never decreases; without an order, sizes and times descend and names
/// and types ascend. Without a sort (or an unknown one) the allocated size
/// orders; by type, directories come before files unless descending.
pub proof fn lemma_listing_orders_by_the_named_field(
    before: Seq<ListItem>,
    sort: Option<Seq<char>>,
    order: Option<Seq<char>>,
    after: Seq<ListItem>,
    i: int,
    j: int,
)
    requires
        listing_ordered(before, sort, order, after),
        0 <= i < j < after.len(),
    ensures
        ({
            let desc = order == Some("desc"@);
            let given = order is Some;
            &&& sort == Some("logical"@) ==> if desc || !given {
                logical_of(after[i]) >= logical_of(after[j])
            } else {
                logical_of(after[i]) <= logical_of(after[j])
            }
            &&& sort is None ==> if desc || !given {
                allocated_of(after[i]) >= allocated_of(after[j])
            } else {
                allocated_of(after[i]) <= allocated_of(after[j])
            }
            &&& sort == Some("modified"@) ==> if desc || !given {
                mtime_of(after[i]) >= mtime_of(after[j])
            } else {
                mtime_of(after[i]) <= mtime_of(after[j])
            }
            &&& sort == Some("accessed"@) ==> if desc || !given {
                atime_of(after[i]) >= atime_of(after[j])
            } else {
                atime_of(after[i]) <= atime_of(after[j])
            }
            &&& sort == Some("type"@) ==> if desc {
                (after[i] is Dir ==> after[j] is Dir)
            } else {
                (after[j] is Dir ==> after[i] is Dir)
            }
            &&& sort == Some("name"@) ==> if desc {
                lex_le(unicode_lowercase(name_of(after[j])), unicode_lowercase(name_of(after[i])))
            } else {
                lex_le(unicode_lowercase(name_of(after[i])), unicode_lowercase(name_of(after[j])))
            }
        }),
{
    reveal_strlit("name");
    reveal_strlit("logical");
    reveal_strlit("type");
    reveal_strlit("modified");
    reveal_strlit("accessed");
    reveal_strlit("desc");
    assert("name"@.len() == 4 && "type"@.len() == 4 && "logical"@.len() == 7);
    assert("modified"@.len() == 8 && "accessed"@.len() == 8);
    assert("name"@[0] != "type"@[0] && "modified"@[0] != "accessed"@[0]);
    assert("logical"@ != "name"@ && "modified"@ != "name"@ && "modified"@ != "logical"@ && "modified"@ != "type"@);
    lemma_listing_is_ordered(before, sort, order, after);
    let ai = after[i];
    let aj = after[j];
    if list_descending(list_sort_of(sort), order) {
        assert(list_entry_le(aj, ai, list_sort_of(sort)));
    } else {
        assert(list_entry_le(ai, aj, list_sort_of(sort)));
    }
}

/// One page of a listing: the entries ordered as `sort_items` orders them,
/// then the window `window` of them.
pub fn ordered_page(items: Vec<ListItem>, sort: Option<&str>, order: Option<&str>, window: &ListWindow) -> (r:
    Vec<ListItem>)
    ensures
        exists|ordered: Seq<ListItem>|
            listing_ordered(items@, opt_text(sort), opt_text(order), ordered) && r@ == windowed(
                ordered,
                window.offset as nat,
                window.limit as nat,
            ),
        r.len() <= window.limit,
{
    let mut items = items;
    let ghost before = items@;
    sort_items(&mut items, sort, order);
    let ghost ordered = items@;
    assert(listing_ordered(before, opt_text(sort), opt_text(order), ordered));
    let r = apply_window(items, window.offset, window.limit);
    r
}

/// Orders a listing: stably by the chosen key (ascending), then reversed
/// when descending.
pub fn sort_items(items: &mut Vec<ListItem>, sort: Option<&str>, order: Option<&str>)
    ensures
        ({
            let key = list_sort_of(
                match sort {
                    Some(s) => Some(s@),
                    None => None,
                },
            );
            let desc = list_descending(
                key,
                match order {
                    Some(o) => Some(o@),
                    None => None,
                },
            );
            exists|keys: Seq<SortKey>, sorted: Seq<ListItem>, sorted_keys: Seq<SortKey>|
                keys_of_list(old(items)@, key, keys) && is_stable_sort(
                    old(items)@,
                    keys,
                    sorted,
                    sorted_keys,
                ) && final(items)@ == if desc {
                    reversed(sorted)
                } else {
                    sorted
                }
        }),
{
    let key = list_sort_exec(sort);
    let desc = match order {
        Some(o) => crate::text::str_eq(o, "desc"),
        None => match key {
            ListSort::Logical | ListSort::Allocated | ListSort::Modified | ListSort::Accessed => true,
            _ => false,
        },
    };
    let mut taken: Vec<ListItem> = Vec::new();
    std::mem::swap(&mut taken, items);
    let ghost original = taken@;
    let mut keys: Vec<SortKey> = Vec::new();
    let mut i: usize = 0;
    while i < taken.len()
        invariant
            i <= taken.len(),
            keys.len() == i,
            forall|j: int| 0 <= j < i ==> is_list_key(taken@[j], key, #[trigger] keys@[j]),
        decreases taken.len() - i,
    {
        let k = list_key_exec(&taken[i], key);
        keys.push(k);
        i += 1;
    }
    let ghost keys_v = keys@;
    let (sorted, sorted_keys) = stable_sort_by_keys(taken, keys);
    let result = if desc {
        reverse_vec(sorted)
    } else {
        sorted
    };
    *items = result;
}

/// Orders recently accessed entries: newest access first (entries with the
/// same access time in the reverse of the order read), at most `limit` of
/// them.
pub fn order_recent(items: Vec<TopItem>, limit: usize) -> (r: Vec<TopItem>)
    ensures
        exists|keys: Seq<SortKey>, sorted: Seq<TopItem>, sorted_keys: Seq<SortKey>|
            {
                &&& keys.len() == items@.len()
                &&& forall|i: int|
                    0 <= i < items@.len() ==> #[trigger] keys[i] == SortKey::Num(
                        top_atime(items@[i]),
                    )
                &&& is_stable_sort(items@, keys, sorted, sorted_keys)
                &&& r@ == windowed(reversed(sorted), 0, limit as nat)
            },
{
    let ghost original = items@;
    let mut keys: Vec<SortKey> = Vec::new();
    let mut i: usize = 0;
    while i < items.len()
        invariant
            i <= items.len(),
            keys.len() == i,
            forall|j: int| 0 <= j < i ==> #[trigger] keys@[j] == SortKey::Num(top_atime(items@[j])),
        decreases items.len() - i,
    {
        let t = match &items[i] {
            TopItem::Dir { atime, .. } => match atime {
                Some(t) => *t,
                None => 0,
            },
            TopItem::File { atime, .. } => match atime {
                Some(t) => *t,
                None => 0,
            },
        };
        keys.push(SortKey::Num(t));
        i += 1;
    }
    let (sorted, sorted_keys) = stable_sort_by_keys(items, keys);
    let rev = reverse_vec(sorted);
    apply_window(rev, 0, limit)
}

/// An entry's access time, 0 when unknown.
pub open spec fn top_atime(t: TopItem) -> i64 {
    match t {
        TopItem::Dir { atime, .. } => match atime {
            Some(a) => a,
            None => 0,
        },
        TopItem::File { atime, .. } => match atime {
            Some(a) => a,
            None => 0,
        },
    }
}

// ---------------------------------------------------------------------------
// Starting a scan
// ---------------------------------------------------------------------------

/// Whether a root passes the host's path validation.
pub open spec fn root_ok(root: String, windows: bool) -> bool {
    crate::middleware::validation::host_path_check(root@, windows) is Valid
}

/// The index of the first root that fails the host's path validation, if any.
pub open spec fn first_bad_root(roots: Seq<String>, windows: bool) -> Option<int> {
    if exists|i: int| 0 <= i < roots.len() && !root_ok(#[trigger] roots[i], windows) {
        Some(
            choose|i: int|
                0 <= i < roots.len() && !root_ok(#[trigger] roots[i], windows) && forall|j: int|
                    0 <= j < i ==> root_ok(#[trigger] roots[j], windows),
        )
    } else {
        None
    }
}

/// Whether the requested depth and concurrency are in range.
pub open spec fn scan_options_ok(max_depth: Option<u32>, concurrency: Option<usize>) -> bool {
    (max_depth matches Some(d) ==> d <= crate::middleware::validation::MAX_ALLOWED_DEPTH) && (
    concurrency matches Some(c) ==> 1 <= c <= crate::middleware::validation::MAX_ALLOWED_CONCURRENCY)
}

/// Checks a scan request before the file system is consulted: it needs at
/// least one root, every root must pass the host's path validation
/// (`windows` saying whether it runs Windows; the first root that does not
/// is reported as `Invalid path: <root>`), and the depth and
/// concurrency must be in range (`Invalid scan options` otherwise).
pub fn check_create_request(req: &CreateScanRequest, windows: bool) -> (r: Result<(), AppError>)
    ensures
        req.root_paths@.len() == 0 ==> (r matches Err(AppError::BadRequest(m)) && m@
            == "root_paths must not be empty"@),
        req.root_paths@.len() > 0 ==> match first_bad_root(req.root_paths@, windows) {
            Some(i) => r matches Err(AppError::InvalidInput(m)) && m@ == "Invalid path: "@
                + req.root_paths@[i]@,
            None => if scan_options_ok(req.max_depth, req.concurrency) {
                r is Ok
            } else {
                r matches Err(AppError::InvalidInput(m)) && m@ == "Invalid scan options"@
            },
        },
{
    if req.root_paths.len() == 0 {
        return Err(AppError::BadRequest(String::from_str("root_paths must not be empty")));
    }
    let ghost roots = req.root_paths@;
    let mut i: usize = 0;
    while i < req.root_paths.len()
        invariant
            i <= req.root_paths.len(),
            roots == req.root_paths@,
            forall|j: int| 0 <= j < i ==> root_ok(#[trigger] roots[j], windows),
        decreases req.root_paths.len() - i,
    {
        match validate_file_path_on(req.root_paths[i].as_str(), windows) {
            Ok(_) => {},
            Err(_) => {
                proof {
                    assert(!root_ok(roots[i as int], windows));
                    let c = choose|k: int|
                        0 <= k < roots.len() && !root_ok(#[trigger] roots[k], windows) && forall|j: int|
                            0 <= j < k ==> root_ok(#[trigger] roots[j], windows);
                    assert(c == i) by {
                        if c < i {
                        } else if c > i {
                            assert(root_ok(roots[i as int], windows));
                        }
                    }
                }
                return Err(AppError::InvalidInput(concat("Invalid path: ", req.root_paths[i].as_str())));
            },
        }
        i += 1;
    }
    match validate_scan_options(req.max_depth, req.concurrency) {
        Ok(()) => Ok(()),
        Err(_) => Err(AppError::InvalidInput(String::from_str("Invalid scan options"))),
    }
}

/// The first root that is missing or not a directory, as a bad request;
/// `kinds[i]` says what the file system found at `roots[i]`: nothing
/// (`None`), a directory (`Some(true)`) or something else (`Some(false)`).
pub fn check_roots_exist(roots: &Vec<String>, kinds: &Vec<Option<bool>>) -> (r: Result<(), AppError>)
    requires
        roots.len() == kinds.len(),
    ensures
        (forall|i: int| 0 <= i < kinds.len() ==> kinds@[i] == Some(true)) ==> r is Ok,
        !(forall|i: int| 0 <= i < kinds.len() ==> kinds@[i] == Some(true)) ==> exists|k: int|
            0 <= k < kinds.len() && kinds@[k] != Some(true) && (forall|j: int| 0 <= j < k ==> kinds@[j]
                == Some(true)) && (r matches Err(AppError::BadRequest(m)) && m@ == if kinds@[k] is None {
                "root path does not exist: "@ + roots@[k]@
            } else {
                "root path is not a directory: "@ + roots@[k]@
            }),
{
    let mut i: usize = 0;
    while i < roots.len()
        invariant
            roots.len() == kinds.len(),
            i <= roots.len(),
            forall|j: int| 0 <= j < i ==> kinds@[j] == Some(true),
        decreases roots.len() - i,
    {
        match kinds[i] {
            None => {
                return Err(AppError::BadRequest(concat("root path does not exist: ", roots[i].as_str())));
            },
            Some(false) => {
                return Err(
                    AppError::BadRequest(concat("root path is not a directory: ", roots[i].as_str())),
                );
            },
            Some(true) => {},
        }
        i += 1;
    }
    Ok(())
}

/// The exclude patterns a new scan keeps, in order: each requested (or
/// else configured) pattern trimmed and with forward slashes, blank ones
/// dropped.
pub open spec fn normalized_excludes(ps: Seq<Seq<char>>) -> Seq<Seq<char>>
    decreases ps.len(),
{
    if ps.len() == 0 {
        Seq::empty()
    } else {
        let n = forward_slashes(trimmed(ps.last()));
        if n.len() == 0 {
            normalized_excludes(ps.drop_last())
        } else {
            normalized_excludes(ps.drop_last()).push(n)
        }
    }
}

/// Normalizing distributes over concatenation.
proof fn lemma_normalized_concat(a: Seq<Seq<char>>, b: Seq<Seq<char>>)
    ensures
        normalized_excludes(a + b) == normalized_excludes(a) + normalized_excludes(b),
    decreases b.len(),
{
    if b.len() == 0 {
        assert(a + b == a);
    } else {
        assert((a + b).drop_last() == a + b.drop_last());
        assert((a + b).last() == b.last());
        lemma_normalized_concat(a, b.drop_last());
    }
}

fn normalize_pattern(p: &str) -> (r: Vec<char>)
    ensures
        r@ == forward_slashes(trimmed(p@)),
{
    let pv = chars_of(p);
    let t = trim(&pv);
    let mut n: Vec<char> = Vec::new();
    let mut j: usize = 0;
    while j < t.len()
        invariant
            j <= t.len(),
            n@ == forward_slashes(t@.take(j as int)),
        decreases t.len() - j,
    {
        let c = t[j];
        n.push(if c == '\\' { '/' } else { c });
        j += 1;
        assert(n@ =~= forward_slashes(t@.take(j as int)));
    }
    assert(t@.take(t.len() as int) == t@);
    n
}

/// A pattern that normalizes to something non-empty appears among the normalized patterns.
proof fn lemma_rejected_is_listed(ts: Seq<Seq<char>>, i: int, n: Seq<char>)
    requires
        0 <= i < ts.len(),
        n == forward_slashes(trimmed(ts[i])),
        n.len() > 0,
    ensures
        exists|k: int| 0 <= k < normalized_excludes(ts).len() && #[trigger] normalized_excludes(ts)[k] == n,
{
    let pre = ts.take(i + 1);
    let post = ts.skip(i + 1);
    assert(ts == pre + post);
    lemma_normalized_concat(pre, post);
    assert(pre.drop_last() == ts.take(i));
    let np = normalized_excludes(pre);
    assert(np == normalized_excludes(ts.take(i)).push(n));
    assert(normalized_excludes(ts)[np.len() - 1] == n);
}

/// Whether an exclude pattern is refused: normalized (trimmed, with forward
/// slashes) it is not empty and not a valid glob.
pub open spec fn pattern_fails(p: Seq<char>) -> bool {
    let n = forward_slashes(trimmed(p));
    n.len() > 0 && !glob_accepts(n)
}

/// Whether `m` is the message for a rejected exclude pattern `p`: the
/// pattern as given and the glob library's (non-empty) explanation.
pub open spec fn rejected_pattern_message(m: Seq<char>, p: Seq<char>) -> bool {
    exists|d: Seq<char>| d.len() > 0 && m == "Invalid exclude pattern: "@ + p + " ("@ + d + ")"@
}

/// Whether `r` is what normalizing the patterns `src` gives: the normalized
/// patterns when none is refused; otherwise an invalid input naming the
/// first refused pattern.
pub open spec fn excludes_outcome(src: Seq<String>, r: Result<Vec<String>, AppError>) -> bool {
    let norm = normalized_excludes(crate::scanner::globs::texts(src));
    &&& r matches Ok(v) ==> crate::scanner::globs::texts(v@) == norm && forall|k: int|
        0 <= k < src.len() ==> !pattern_fails(#[trigger] src[k]@)
    &&& (forall|k: int| 0 <= k < norm.len() ==> glob_accepts(#[trigger] norm[k])) ==> r is Ok
    &&& r matches Err(e) ==> (e matches AppError::InvalidInput(m) && exists|i: int|
        0 <= i < src.len() && pattern_fails(#[trigger] src[i]@) && rejected_pattern_message(m@, src[i]@)
            && forall|j: int| 0 <= j < i ==> !pattern_fails(#[trigger] src[j]@))
}

fn normalize_excludes_from(src: &Vec<String>) -> (r: Result<Vec<String>, AppError>)
    ensures
        excludes_outcome(src@, r),
{
    let ghost ts = crate::scanner::globs::texts(src@);
    let mut out: Vec<String> = Vec::new();
    let mut i: usize = 0;
    while i < src.len()
        invariant
            i <= src.len(),
            ts == crate::scanner::globs::texts(src@),
            crate::scanner::globs::texts(out@) == normalized_excludes(ts.take(i as int)),
            forall|j: int| 0 <= j < i ==> !pattern_fails(#[trigger] src@[j]@),
        decreases src.len() - i,
    {
        assert(ts.take(i as int + 1).drop_last() == ts.take(i as int));
        assert(ts.take(i as int + 1).last() == src@[i as int]@);
        let pat = &src[i];
        let n = normalize_pattern(pat.as_str());
        if n.len() > 0 {
            let ns = string_of(&n);
            match glob_new(ns.as_str()) {
                Ok(_) => {},
                Err(e) => {
                    let detail = glob_error_text(&e);
                    let head = concat3("Invalid exclude pattern: ", pat.as_str(), " (");
                    let m = concat3(head.as_str(), detail.as_str(), ")");
                    proof {
                        assert(m@ =~= "Invalid exclude pattern: "@ + src@[i as int]@ + " ("@ + detail@ + ")"@);
                        assert(rejected_pattern_message(m@, src@[i as int]@));
                        assert(pattern_fails(src@[i as int]@));
                        assert(ts[i as int] == src@[i as int]@);
                        lemma_rejected_is_listed(ts, i as int, n@);
                    }
                    return Err(AppError::InvalidInput(m));
                },
            }
            let ghost before = out@;
            out.push(ns);
            assert(crate::scanner::globs::texts(out@) =~= crate::scanner::globs::texts(before).push(n@));
        }
        i += 1;
    }
    assert(ts.take(src.len() as int) == ts);
    Ok(out)
}

/// Normalizes the exclude patterns of a new scan (the request's, or the
/// configured ones when the request has none) and checks each with
/// `Glob::new`; the first invalid one is an invalid input naming the
/// pattern as given and the glob library's explanation.
pub fn normalize_excludes(requested: Option<&Vec<String>>, configured: &Vec<String>) -> (r: Result<Vec<String>, AppError>)
    ensures
        excludes_outcome(
            match requested {
                Some(v) => v@,
                None => configured@,
            },
            r,
        ),
{
    match requested {
        Some(v) => normalize_excludes_from(v),
        None => normalize_excludes_from(configured),
    }
}

/// The options of a new scan: what the request sets, the configured
/// defaults otherwise, with the normalized exclude patterns.
pub fn merge_scan_options(req: &CreateScanRequest, d: &ScanDefaultsConfig, excludes: Vec<String>) -> (r: ScanOptions)
    ensures
        r.follow_symlinks == match req.follow_symlinks { Some(b) => b, None => d.follow_symlinks },
        r.include_hidden == match req.include_hidden { Some(b) => b, None => d.include_hidden },
        r.measure_logical == match req.measure_logical { Some(b) => b, None => d.measure_logical },
        r.measure_allocated == match req.measure_allocated { Some(b) => b, None => d.measure_allocated },
        r.excludes@ == excludes@,
        r.max_depth == match req.max_depth { Some(m) => Some(m), None => d.max_depth },
        r.concurrency == match req.concurrency { Some(c) => Some(c), None => d.concurrency },
{
    ScanOptions {
        follow_symlinks: match req.follow_symlinks { Some(b) => b, None => d.follow_symlinks },
        include_hidden: match req.include_hidden { Some(b) => b, None => d.include_hidden },
        measure_logical: match req.measure_logical { Some(b) => b, None => d.measure_logical },
        measure_allocated: match req.measure_allocated { Some(b) => b, None => d.measure_allocated },
        excludes,
        max_depth: match req.max_depth { Some(m) => Some(m), None => d.max_depth },
        concurrency: match req.concurrency { Some(c) => Some(c), None => d.concurrency },
    }
}

/// The capacity of a scan's event channel: the configured size (4096
/// unless set) within 512..=16384.
pub fn event_channel_size(configured: Option<usize>) -> (r: usize)
    ensures
        r == ({
            let c: usize = match configured { Some(v) => v, None => 4096 };
            if c < 512 { 512 } else if c > 16384 { 16384 } else { c }
        }),
{
    let c: usize = match configured {
        Some(v) => v,
        None => 4096,
    };
    if c < 512 { 512 } else if c > 16384 { 16384 } else { c }
}

/// What cancelling a scan does.
#[derive(Clone, Copy, Debug, PartialEq, Eq)]
pub struct CancelPlan {
    /// Mark a running scan as cancelled.
    pub mark_canceled: bool,
    /// Delete the scan and its data.
    pub delete: bool,
}

/// What cancelling a scan does: a running scan is marked cancelled unless it
/// is purged; a purge deletes the scan whether it was running or not; a
/// scan that is not running and not purged is left alone.
pub fn plan_cancel(was_running: bool, purge: Option<bool>) -> (r: CancelPlan)
    ensures
        r.mark_canceled == (was_running && purge != Some(true)),
        r.delete == (purge == Some(true)),
{
    let p = match purge {
        Some(b) => b,
        None => false,
    };
    CancelPlan { mark_canceled: was_running && !p, delete: p }
}

/// How a scan ended, as recorded.
#[derive(Clone, Debug)]
pub struct ScanEnd {
    /// The status stored for the scan: `done`, `canceled` or `failed`.
    pub status: String,
    /// The event sent to listeners.
    pub event: ScanEvent,
}

/// How a scan ended: with totals it is done; with an error it was cancelled
/// when cancellation was requested, and failed (with the error's text)
/// otherwise. The server's counters record completions and failures, and
/// for completed scans the directories, files, allocated bytes and warnings.
pub fn finish_scan(outcome: &Result<ScanResultSummary, String>, cancelled: bool, metrics: &mut Metrics) -> (r: ScanEnd)
    ensures
        match outcome {
            Ok(s) => r.status@ == "done"@ && r.event == (ScanEvent::Done {
                total_dirs: s.total_dirs,
                total_files: s.total_files,
                total_logical_size: s.total_logical_size,
                total_allocated_size: s.total_allocated_size,
            }) && final(metrics).scans_completed == crate::metrics::wrap_usize(old(metrics).scans_completed, 1)
                && final(metrics).dirs_processed == crate::metrics::wrap64(old(metrics).dirs_processed, s.total_dirs)
                && final(metrics).files_processed == crate::metrics::wrap64(old(metrics).files_processed, s.total_files)
                && final(metrics).bytes_scanned == crate::metrics::wrap64(old(metrics).bytes_scanned, s.total_allocated_size)
                && final(metrics).warnings_count == crate::metrics::wrap_usize(old(metrics).warnings_count, s.warnings as usize)
                && final(metrics).scans_failed == old(metrics).scans_failed,
            Err(e) => if cancelled {
                r.status@ == "canceled"@ && r.event == ScanEvent::Cancelled && final(metrics).scans_failed
                    == old(metrics).scans_failed && final(metrics).scans_completed == old(metrics).scans_completed
            } else {
                r.status@ == "failed"@ && (r.event matches ScanEvent::Failed { message } && message@ == e@)
                    && final(metrics).scans_failed == crate::metrics::wrap_usize(old(metrics).scans_failed, 1)
                    && final(metrics).scans_completed == old(metrics).scans_completed
            },
        },
        final(metrics).scans_started == old(metrics).scans_started,
{
    match outcome {
        Ok(s) => {
            metrics.inc_scans_completed();
            metrics.add_dirs(s.total_dirs);
            metrics.add_files(s.total_files);
            metrics.add_bytes(s.total_allocated_size);
            metrics.add_warnings(s.warnings as usize);
            ScanEnd {
                status: String::from_str("done"),
                event: ScanEvent::Done {
                    total_dirs: s.total_dirs,
                    total_files: s.total_files,
                    total_logical_size: s.total_logical_size,
                    total_allocated_size: s.total_allocated_size,
                },
            }
        },
        Err(e) => {
            if cancelled {
                ScanEnd { status: String::from_str("canceled"), event: ScanEvent::Cancelled }
            } else {
                metrics.inc_scans_failed();
                ScanEnd { status: String::from_str("failed"), event: ScanEvent::Failed { message: e.clone() } }
            }
        },
    }
}

// ---------------------------------------------------------------------------
// Root entries of a listing
// ---------------------------------------------------------------------------

/// The name a scan root is listed under: the final name of its normalized
/// path, or the root as it was given when that has none.
pub open spec fn root_name(original: Seq<char>, normalized: Seq<char>) -> Seq<char> {
    match path_file_name(normalized) {
        Some(n) => n,
        None => original,
    }
}

/// A count as listed: negative counts read as 0.
pub open spec fn count_shown(c: i64) -> i64 {
    if c < 0 {
        0
    } else {
        c
    }
}

/// The listing entry of a scan root (`original_root` as the scan was asked
/// for, `normalized_root` as normalized): a directory at depth 0 without a
/// parent, named by `root_name`, with the subtree's file and directory
/// counts (`totals`), the sizes and times stored for the root's node
/// (`stats`; sizes 0 and no times when there is no such node), and where no
/// time is stored the one the file system reports (`fs_mtime`,
/// `fs_atime`).
pub fn root_listing_item(
    original_root: &str,
    normalized_root: String,
    totals: (i64, i64),
    stats: Option<(i64, i64, Option<i64>, Option<i64>)>,
    fs_mtime: Option<i64>,
    fs_atime: Option<i64>,
) -> (r: ListItem)
    ensures
        r matches ListItem::Dir {
            name,
            path,
            parent_path,
            depth,
            logical_size,
            allocated_size,
            file_count,
            dir_count,
            mtime,
            atime,
        } && name@ == root_name(original_root@, normalized_root@) && path@ == normalized_root@
            && parent_path is None && depth == 0 && file_count == count_shown(totals.0)
            && dir_count == count_shown(totals.1) && logical_size == match stats {
            Some(s) => s.0,
            None => 0,
        } && allocated_size == match stats {
            Some(s) => s.1,
            None => 0,
        } && mtime == match stats {
            Some((_, _, Some(t), _)) => Some(t),
            _ => fs_mtime,
        } && atime == match stats {
            Some((_, _, _, Some(t))) => Some(t),
            _ => fs_atime,
        },
{
    let name = match file_name_of(normalized_root.as_str()) {
        Some(n) => n,
        None => String::from_str(original_root),
    };
    let (logical_size, allocated_size, db_mtime, db_atime) = match stats {
        Some(s) => s,
        None => (0, 0, None, None),
    };
    let mtime = match db_mtime {
        Some(t) => Some(t),
        None => fs_mtime,
    };
    let atime = match db_atime {
        Some(t) => Some(t),
        None => fs_atime,
    };
    ListItem::Dir {
        name,
        path: normalized_root,
        parent_path: None,
        depth: 0,
        logical_size,
        allocated_size,
        file_count: if totals.0 < 0 { 0 } else { totals.0 },
        dir_count: if totals.1 < 0 { 0 } else { totals.1 },
        mtime,
        atime,
    }
}


} // verus!
