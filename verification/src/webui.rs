//! The web client's side of the API: the values it exchanges and the
//! request URLs it builds.

use vstd::prelude::*;
use crate::text::{chars_of, dec_int, extend_chars, extend_str, i64_dec, string_of};
use crate::types::DriveInfo;

verus! {

/// Whether a byte is left as is by URL encoding: ASCII letters, digits and
/// `-`, `.`, `_`, `~`.
pub open spec fn url_unreserved(b: u8) -> bool {
    (48 <= b <= 57) || (65 <= b <= 90) || (97 <= b <= 122) || b == 45 || b == 46 || b == 95 || b
        == 126
}

/// The uppercase hexadecimal digit for `d < 16`.
pub open spec fn hex_digit(d: u8) -> char {
    if d < 10 {
        ((48 + d) as u32) as char
    } else {
        ((55 + d) as u32) as char
    }
}

/// The URL encoding of a byte sequence: unreserved bytes stay, every other
/// byte becomes `%` and two uppercase hexadecimal digits.
pub open spec fn url_encoded_bytes(bs: Seq<u8>) -> Seq<char>
    decreases bs.len(),
{
    if bs.len() == 0 {
        Seq::empty()
    } else {
        let b = bs.last();
        url_encoded_bytes(bs.drop_last()) + if url_unreserved(b) {
            seq![(b as u32) as char]
        } else {
            seq!['%', hex_digit(b / 16), hex_digit(b % 16)]
        }
    }
}

/// The URL encoding of a text, over its UTF-8 bytes.
pub open spec fn url_encoded(s: Seq<char>) -> Seq<char> {
    url_encoded_bytes(vstd::utf8::encode_utf8(s))
}

/// Calls `urlencoding::encode`. Trusted: every UTF-8 byte of the text except
/// ASCII letters, digits and `-`, `.`, `_`, `~` is written as `%XX` with
/// uppercase hexadecimal digits; the others are kept.
#[verifier::external_body]
fn url_encode(s: &str) -> (r: String)
    ensures
        r@ == url_encoded(s@),
{
    urlencoding::encode(s).into_owned()
}

/// The base of API URLs: empty, so that requests go to the serving origin.
pub const BASE: &'static str = "";

/// The URL of an API path.
pub fn url(path: &str) -> (r: String)
    ensures
        r@ == path@,
{
    proof {
        reveal_strlit("");
    }
    crate::text::concat(BASE, path)
}

/// A scan as the client lists it.
#[derive(Clone, Debug)]
pub struct ScanSummary {
    pub id: String,
    pub status: String,
    pub started_at: Option<String>,
    pub finished_at: Option<String>,
    pub total_logical_size: i64,
    pub total_allocated_size: i64,
    pub dir_count: i64,
    pub file_count: i64,
    pub warning_count: i64,
}

/// The drives the server reports.
#[derive(Clone, Debug)]
pub struct DrivesResponse {
    pub items: Vec<DriveInfo>,
}

/// The server's answer to a new scan.
#[derive(Clone, Debug)]
pub struct CreateScanResp {
    pub id: String,
    pub status: String,
    pub started_at: String,
}

/// A request for a new scan.
#[derive(Clone, Debug)]
pub struct CreateScanReq {
    pub root_paths: Vec<String>,
    pub follow_symlinks: Option<bool>,
    pub include_hidden: Option<bool>,
    pub measure_logical: Option<bool>,
    pub measure_allocated: Option<bool>,
    pub excludes: Option<Vec<String>>,
    pub max_depth: Option<u32>,
    pub concurrency: Option<usize>,
}

/// Tree parameters.
#[derive(Clone, Debug)]
pub struct TreeQuery {
    pub path: Option<String>,
    pub depth: Option<i64>,
    pub sort: Option<String>,
    pub limit: Option<i64>,
}

/// "Largest" parameters.
#[derive(Clone, Debug)]
pub struct TopQuery {
    pub scope: Option<String>,
    pub limit: Option<i64>,
}

/// Listing parameters.
#[derive(Clone, Debug)]
pub struct ListQuery {
    pub path: Option<String>,
    pub sort: Option<String>,
    pub order: Option<String>,
    pub limit: Option<i64>,
    pub offset: Option<i64>,
}

/// Search parameters.
#[derive(Clone, Debug)]
pub struct SearchQuery {
    pub query: String,
    pub limit: Option<i64>,
    pub offset: Option<i64>,
    pub min_size: Option<i64>,
    pub max_size: Option<i64>,
    pub file_type: Option<String>,
    pub include_files: Option<bool>,
    pub include_dirs: Option<bool>,
}

/// The characters of each vector.
pub open spec fn views(v: Seq<Vec<char>>) -> Seq<Seq<char>> {
    v.map_values(|p: Vec<char>| p@)
}

/// The parameters joined with `&`.
pub open spec fn joined(parts: Seq<Seq<char>>) -> Seq<char>
    decreases parts.len(),
{
    if parts.len() == 0 {
        Seq::empty()
    } else if parts.len() == 1 {
        parts[0]
    } else {
        joined(parts.drop_last()) + seq!['&'] + parts.last()
    }
}

/// A query string: empty without parameters, else `?` and the parameters
/// joined with `&`.
pub open spec fn query_string(parts: Seq<Seq<char>>) -> Seq<char> {
    if parts.len() == 0 {
        Seq::empty()
    } else {
        seq!['?'] + joined(parts)
    }
}

/// A parameter with an encoded text value, when present.
pub open spec fn text_param(name: Seq<char>, v: Option<String>) -> Seq<Seq<char>> {
    match v {
        Some(s) => seq![name + seq!['='] + url_encoded(s@)],
        None => Seq::empty(),
    }
}

/// A parameter with a number value, when present.
pub open spec fn num_param(name: Seq<char>, v: Option<i64>) -> Seq<Seq<char>> {
    match v {
        Some(n) => seq![name + seq!['='] + dec_int(n as int)],
        None => Seq::empty(),
    }
}

/// A parameter with a boolean value, when present.
pub open spec fn bool_param(name: Seq<char>, v: Option<bool>) -> Seq<Seq<char>> {
    match v {
        Some(b) => seq![name + seq!['='] + if b { "true"@ } else { "false"@ }],
        None => Seq::empty(),
    }
}

fn push_text_param(parts: &mut Vec<Vec<char>>, name: &str, v: &Option<String>)
    ensures
        views(final(parts)@) == views(old(parts)@)
            + text_param(name@, *v),
{
    let ghost before = views(parts@);
    let ghost raw = parts@;
    if let Some(s) = v {
        let mut p = chars_of(name);
        p.push('=');
        let e = url_encode(s.as_str());
        extend_str(&mut p, e.as_str());
        let ghost pv = p@;
        assert(pv =~= name@ + seq!['='] + url_encoded(s@));
        parts.push(p);
        assert(views(parts@) =~= before.push(pv));
        assert(text_param(name@, *v) =~= seq![pv]);
    }
    assert(views(parts@) =~= before + text_param(name@, *v));
}

fn push_num_param(parts: &mut Vec<Vec<char>>, name: &str, v: Option<i64>)
    ensures
        views(final(parts)@) == views(old(parts)@)
            + num_param(name@, v),
{
    let ghost before = views(parts@);
    if let Some(n) = v {
        let mut p = chars_of(name);
        p.push('=');
        let d = i64_dec(n);
        extend_chars(&mut p, &d);
        let ghost pv = p@;
        assert(pv =~= name@ + seq!['='] + dec_int(n as int));
        parts.push(p);
        assert(views(parts@) =~= before.push(pv));
        assert(num_param(name@, v) =~= seq![pv]);
    }
    assert(views(parts@) =~= before + num_param(name@, v));
}

fn push_bool_param(parts: &mut Vec<Vec<char>>, name: &str, v: Option<bool>)
    ensures
        views(final(parts)@) == views(old(parts)@)
            + bool_param(name@, v),
{
    let ghost before = views(parts@);
    if let Some(b) = v {
        let mut p = chars_of(name);
        p.push('=');
        extend_str(&mut p, if b { "true" } else { "false" });
        let ghost pv = p@;
        assert(pv =~= name@ + seq!['='] + if b { "true"@ } else { "false"@ });
        parts.push(p);
        assert(views(parts@) =~= before.push(pv));
        assert(bool_param(name@, v) =~= seq![pv]);
    }
    assert(views(parts@) =~= before + bool_param(name@, v));
}

fn query_string_of(parts: &Vec<Vec<char>>) -> (r: Vec<char>)
    ensures
        r@ == query_string(views(parts@)),
{
    let ghost ps = views(parts@);
    let mut out: Vec<char> = Vec::new();
    if parts.len() == 0 {
        return out;
    }
    out.push('?');
    let mut i: usize = 0;
    while i < parts.len()
        invariant
            i <= parts.len(),
            parts.len() > 0,
            ps == views(parts@),
            out@ == seq!['?'] + joined(ps.take(i as int)),
        decreases parts.len() - i,
    {
        assert(ps.take(i as int + 1).drop_last() == ps.take(i as int));
        if i > 0 {
            out.push('&');
        }
        extend_chars(&mut out, &parts[i]);
        i += 1;
        assert(out@ =~= seq!['?'] + joined(ps.take(i as int)));
    }
    assert(ps.take(parts.len() as int) == ps);
    out
}

/// The tree query string: `path`, `depth`, `sort`, `limit`, each when set.
pub open spec fn tree_params(q: TreeQuery) -> Seq<Seq<char>> {
    text_param("path"@, q.path) + num_param("depth"@, q.depth) + text_param("sort"@, q.sort)
        + num_param("limit"@, q.limit)
}

/// The "largest" query string: `scope`, `limit`, each when set.
pub open spec fn top_params(q: TopQuery) -> Seq<Seq<char>> {
    text_param("scope"@, q.scope) + num_param("limit"@, q.limit)
}

/// The listing query string: `path`, `sort`, `order`, `limit`, `offset`,
/// each when set.
pub open spec fn list_params(q: ListQuery) -> Seq<Seq<char>> {
    text_param("path"@, q.path) + text_param("sort"@, q.sort) + text_param("order"@, q.order)
        + num_param("limit"@, q.limit) + num_param("offset"@, q.offset)
}

/// The search query string: the encoded `query` always, then `limit`,
/// `offset`, `min_size`, `max_size`, `file_type`, `include_files`,
/// `include_dirs`, each when set.
pub open spec fn search_params(q: SearchQuery) -> Seq<Seq<char>> {
    seq!["query="@ + url_encoded(q.query@)] + num_param("limit"@, q.limit) + num_param(
        "offset"@,
        q.offset,
    ) + num_param("min_size"@, q.min_size) + num_param("max_size"@, q.max_size) + text_param(
        "file_type"@,
        q.file_type,
    ) + bool_param("include_files"@, q.include_files) + bool_param(
        "include_dirs"@,
        q.include_dirs,
    )
}

fn scan_url(id: &str, tail: &str, qs: &Vec<char>) -> (r: String)
    ensures
        r@ == "/scans/"@ + id@ + tail@ + qs@,
{
    let mut v: Vec<char> = Vec::new();
    extend_str(&mut v, "/scans/");
    extend_str(&mut v, id);
    extend_str(&mut v, tail);
    extend_chars(&mut v, qs);
    let s = string_of(&v);
    url(s.as_str())
}

/// The URL of a scan's tree.
pub fn tree_url(id: &str, q: &TreeQuery) -> (r: String)
    ensures
        r@ == "/scans/"@ + id@ + "/tree"@ + query_string(tree_params(*q)),
{
    let mut parts: Vec<Vec<char>> = Vec::new();
    push_text_param(&mut parts, "path", &q.path);
    push_num_param(&mut parts, "depth", q.depth);
    push_text_param(&mut parts, "sort", &q.sort);
    push_num_param(&mut parts, "limit", q.limit);
    let qs = query_string_of(&parts);
    assert(views(parts@) =~= tree_params(*q));
    scan_url(id, "/tree", &qs)
}

/// The URL of a scan's largest entries.
pub fn top_url(id: &str, q: &TopQuery) -> (r: String)
    ensures
        r@ == "/scans/"@ + id@ + "/top"@ + query_string(top_params(*q)),
{
    let mut parts: Vec<Vec<char>> = Vec::new();
    push_text_param(&mut parts, "scope", &q.scope);
    push_num_param(&mut parts, "limit", q.limit);
    let qs = query_string_of(&parts);
    assert(views(parts@) =~= top_params(*q));
    scan_url(id, "/top", &qs)
}

/// The URL of a scan's listing.
pub fn list_url(id: &str, q: &ListQuery) -> (r: String)
    ensures
        r@ == "/scans/"@ + id@ + "/list"@ + query_string(list_params(*q)),
{
    let mut parts: Vec<Vec<char>> = Vec::new();
    push_text_param(&mut parts, "path", &q.path);
    push_text_param(&mut parts, "sort", &q.sort);
    push_text_param(&mut parts, "order", &q.order);
    push_num_param(&mut parts, "limit", q.limit);
    push_num_param(&mut parts, "offset", q.offset);
    let qs = query_string_of(&parts);
    assert(views(parts@) =~= list_params(*q));
    scan_url(id, "/list", &qs)
}

/// The URL of a search in a scan.
pub fn search_url(id: &str, q: &SearchQuery) -> (r: String)
    ensures
        r@ == "/scans/"@ + id@ + "/search"@ + query_string(search_params(*q)),
{
    let mut parts: Vec<Vec<char>> = Vec::new();
    let mut first = chars_of("query=");
    let e = url_encode(q.query.as_str());
    extend_str(&mut first, e.as_str());
    let ghost fv = first@;
    parts.push(first);
    assert(views(parts@) =~= seq![fv]);
    push_num_param(&mut parts, "limit", q.limit);
    push_num_param(&mut parts, "offset", q.offset);
    push_num_param(&mut parts, "min_size", q.min_size);
    push_num_param(&mut parts, "max_size", q.max_size);
    push_text_param(&mut parts, "file_type", &q.file_type);
    push_bool_param(&mut parts, "include_files", q.include_files);
    push_bool_param(&mut parts, "include_dirs", q.include_dirs);
    let qs = query_string_of(&parts);
    assert(views(parts@) =~= search_params(*q));
    scan_url(id, "/search", &qs)
}

/// The URL that cancels a scan, purging it when asked.
pub fn cancel_url(id: &str, purge: bool) -> (r: String)
    ensures
        r@ == "/scans/"@ + id@ + "?purge="@ + if purge { "true"@ } else { "false"@ },
{
    proof {
        reveal_strlit("");
    }
    let mut qs: Vec<char> = Vec::new();
    extend_str(&mut qs, "?purge=");
    extend_str(&mut qs, if purge { "true" } else { "false" });
    scan_url(id, "", &qs)
}

/// The message shown when the server refuses a listing for too many
/// requests: with the delay when the answer names one, else with the
/// server's message when it has one, else `None` (the answer's text is
/// shown as is).
pub fn too_many_requests_message(retry_after_seconds: Option<u64>, message: Option<&str>) -> (r: Option<String>)
    ensures
        match retry_after_seconds {
            Some(s) => r matches Some(m) && m@ == "Zu viele Anfragen (429). Bitte nach "@ + crate::text::dec(
                s as nat,
            ) + " Sekunden erneut versuchen."@,
            None => match message {
                Some(t) => r matches Some(m) && m@ == "Zu viele Anfragen (429). "@ + t@,
                None => r is None,
            },
        },
{
    match retry_after_seconds {
        Some(s) => {
            let n = crate::text::u64_string(s);
            Some(crate::text::concat3(
                "Zu viele Anfragen (429). Bitte nach ",
                n.as_str(),
                " Sekunden erneut versuchen.",
            ))
        },
        None => match message {
            Some(t) => Some(crate::text::concat("Zu viele Anfragen (429). ", t)),
            None => None,
        },
    }
}

/// The request the start page sends for a root typed in or picked: the
/// root without surrounding whitespace and every option left to the
/// server; `None` when nothing but whitespace was typed.
pub fn new_scan_request(root: &str) -> (r: Option<CreateScanReq>)
    ensures
        match r {
            None => crate::text::trimmed(root@).len() == 0,
            Some(q) => crate::text::trimmed(root@).len() > 0 && q.root_paths@.len() == 1
                && q.root_paths@[0]@ == crate::text::trimmed(root@) && q.follow_symlinks is None
                && q.include_hidden is None && q.measure_logical is None && q.measure_allocated is None
                && q.excludes is None && q.max_depth is None && q.concurrency is None,
        },
{
    let v = chars_of(root);
    let t = crate::text::trim(&v);
    if t.len() == 0 {
        return None;
    }
    let mut roots: Vec<String> = Vec::new();
    roots.push(string_of(&t));
    Some(
        CreateScanReq {
            root_paths: roots,
            follow_symlinks: None,
            include_hidden: None,
            measure_logical: None,
            measure_allocated: None,
            excludes: None,
            max_depth: None,
            concurrency: None,
        },
    )
}


} // verus!
