//! The rules of the search endpoint: cleaning the search term, the LIKE
//! pattern it becomes, the result window, the file-type filter and the
//! extension reported for files.

use vstd::prelude::*;
use crate::error::AppError;
use crate::routes::scans::{clamp_i64, escape_like_pattern, like_escaped};
use crate::text::{
    chars_of, has_char, is_alphanumeric, is_control, is_control_char, is_whitespace,
    is_whitespace_char, push_char, string_of, to_lowercase, trim, trimmed, unicode_alphanumeric,
    unicode_lowercase,
};

verus! {

/// Parameters of the search endpoint.
#[derive(Clone, Debug)]
pub struct SearchQuery {
    /// The text to search for in paths.
    pub query: String,
    /// The most results to return.
    pub limit: i64,
    /// How many results to skip.
    pub offset: i64,
    /// The smallest allocated size to include.
    pub min_size: Option<i64>,
    /// The largest allocated size to include.
    pub max_size: Option<i64>,
    /// Only files with this extension.
    pub file_type: Option<String>,
    /// Include files (default yes).
    pub include_files: Option<bool>,
    /// Include directories (default yes).
    pub include_dirs: Option<bool>,
}

/// The results of a search.
#[derive(Clone, Debug)]
pub struct SearchResult {
    /// The results in this window.
    pub items: Vec<SearchItem>,
    /// The number of matches over all windows.
    pub total_count: i64,
    /// The search text as given.
    pub query: String,
}

/// One search result.
#[derive(Clone, Debug)]
pub enum SearchItem {
    /// A directory.
    Dir {
        path: String,
        name: String,
        allocated_size: i64,
        logical_size: i64,
        file_count: i64,
        dir_count: i64,
        depth: i64,
    },
    /// A file.
    File {
        path: String,
        name: String,
        allocated_size: i64,
        logical_size: i64,
        extension: Option<String>,
    },
}

/// The number of results returned when none is asked for.
pub fn default_limit() -> (r: i64)
    ensures
        r == 100,
{
    100
}

/// Whether a character is kept in a search term: anything but control
/// characters, except whitespace ones.
pub open spec fn term_keeps(c: char) -> bool {
    !is_control_char(c) || is_whitespace_char(c)
}

/// `s` without the characters a search term drops.
pub open spec fn term_filtered(s: Seq<char>) -> Seq<char>
    decreases s.len(),
{
    if s.len() == 0 {
        s
    } else if term_keeps(s.last()) {
        term_filtered(s.drop_last()).push(s.last())
    } else {
        term_filtered(s.drop_last())
    }
}

/// Why a search term is refused, if it is: blank, longer than 500
/// characters once trimmed, or blank once control characters are dropped.
pub open spec fn search_term_error(raw: Seq<char>) -> Option<Seq<char>> {
    let t = trimmed(raw);
    if t.len() == 0 {
        Some("Search query cannot be empty"@)
    } else if t.len() > 500 {
        Some("Search query too long"@)
    } else if trimmed(term_filtered(t)).len() == 0 {
        Some("Search query contains only special characters"@)
    } else {
        None
    }
}

fn filter_term(t: &Vec<char>) -> (r: Vec<char>)
    ensures
        r@ == term_filtered(t@),
{
    let mut out: Vec<char> = Vec::new();
    let mut i: usize = 0;
    while i < t.len()
        invariant
            i <= t.len(),
            out@ == term_filtered(t@.take(i as int)),
        decreases t.len() - i,
    {
        assert(t@.take(i as int + 1).drop_last() == t@.take(i as int));
        let c = t[i];
        if !is_control(c) || is_whitespace(c) {
            out.push(c);
        }
        i += 1;
    }
    assert(t@.take(t.len() as int) == t@);
    out
}

/// A cleaned search term holds no control character other than
/// whitespace, and is at most as long as the trimmed input.
pub proof fn lemma_term_filtered_is_clean(s: Seq<char>)
    ensures
        forall|i: int| 0 <= i < term_filtered(s).len() ==> term_keeps(#[trigger] term_filtered(s)[i]),
        term_filtered(s).len() <= s.len(),
    decreases s.len(),
{
    if s.len() > 0 {
        lemma_term_filtered_is_clean(s.drop_last());
    }
}

/// Cleans a search term: trimmed, without control characters other than
/// whitespace; refused when blank, too long or left blank.
pub fn sanitize_search_term(raw: &str) -> (r: Result<String, AppError>)
    ensures
        match search_term_error(raw@) {
            Some(m) => r matches Err(AppError::InvalidInput(x)) && x@ == m,
            None => r matches Ok(s) && s@ == term_filtered(trimmed(raw@)),
        },
{
    let v = chars_of(raw);
    let t = trim(&v);
    if t.len() == 0 {
        return Err(AppError::InvalidInput(String::from_str("Search query cannot be empty")));
    }
    if t.len() > 500 {
        return Err(AppError::InvalidInput(String::from_str("Search query too long")));
    }
    let f = filter_term(&t);
    let ft = trim(&f);
    if ft.len() == 0 {
        return Err(
            AppError::InvalidInput(String::from_str("Search query contains only special characters")),
        );
    }
    Ok(string_of(&f))
}

/// The LIKE pattern for a cleaned search term: the escaped term between
/// `%` wildcards.
pub fn search_pattern(term: &str) -> (r: String)
    ensures
        r@ == seq!['%'] + like_escaped(term@) + seq!['%'],
{
    let mut v: Vec<char> = Vec::new();
    v.push('%');
    let e = escape_like_pattern(term);
    let ev = chars_of(e.as_str());
    crate::text::extend_chars(&mut v, &ev);
    v.push('%');
    assert(v@ =~= seq!['%'] + like_escaped(term@) + seq!['%']);
    string_of(&v)
}

/// Which kinds a search includes (files, directories; both by default);
/// excluding both is an invalid input.
pub fn search_kinds(include_files: Option<bool>, include_dirs: Option<bool>) -> (r: Result<(bool, bool), AppError>)
    ensures
        ({
            let f = match include_files { Some(b) => b, None => true };
            let d = match include_dirs { Some(b) => b, None => true };
            if !f && !d {
                r matches Err(AppError::InvalidInput(m)) && m@ == "Must include at least files or directories"@
            } else {
                r == Ok::<(bool, bool), AppError>((f, d))
            }
        }),
{
    let f = match include_files {
        Some(b) => b,
        None => true,
    };
    let d = match include_dirs {
        Some(b) => b,
        None => true,
    };
    if !f && !d {
        return Err(AppError::InvalidInput(String::from_str("Must include at least files or directories")));
    }
    Ok((f, d))
}

/// The result window of a search: the limit within 1..=1000 and the offset
/// within 0..=10000.
pub fn search_window(limit: i64, offset: i64) -> (r: (i64, i64))
    ensures
        r == (clamp_i64(limit, 1, 1000), clamp_i64(offset, 0, 10_000)),
{
    let l = if limit < 1 { 1 } else if limit > 1000 { 1000 } else { limit };
    let o = if offset < 0 { 0 } else if offset > 10_000 { 10_000 } else { offset };
    (l, o)
}

/// Whether a character may appear in a file-type filter.
pub open spec fn type_char_ok(c: char) -> bool {
    unicode_alphanumeric(c) || c == '-' || c == '_'
}

/// The characters of `s` a file-type filter keeps, at most `n` of them.
pub open spec fn type_chars(s: Seq<char>, n: nat) -> Seq<char>
    decreases s.len(),
{
    if s.len() == 0 || n == 0 {
        Seq::empty()
    } else if type_char_ok(s[0]) {
        seq![s[0]] + type_chars(s.drop_first(), (n - 1) as nat)
    } else {
        type_chars(s.drop_first(), n)
    }
}

/// One step of keeping the characters of a file-type filter.
proof fn lemma_type_chars_step(s: Seq<char>, i: int, n: nat)
    requires
        0 <= i < s.len(),
        n > 0,
    ensures
        type_chars(s.skip(i), n) == if type_char_ok(s[i]) {
            seq![s[i]] + type_chars(s.skip(i + 1), (n - 1) as nat)
        } else {
            type_chars(s.skip(i + 1), n)
        },
{
    assert(s.skip(i).drop_first() == s.skip(i + 1));
    assert(s.skip(i)[0] == s[i]);
}

/// The extension filter of a search: `.` and the lowercased kept characters
/// of the requested type (letters, digits, `-`, `_`, at most 20), or
/// nothing when none is kept.
pub fn file_type_pattern(file_type: &str) -> (r: Option<String>)
    ensures
        ({
            let kept = type_chars(file_type@, 20);
            if kept.len() == 0 {
                r is None
            } else {
                r matches Some(p) && p@ == seq!['.'] + unicode_lowercase(kept)
            }
        }),
{
    let v = chars_of(file_type);
    let mut kept: Vec<char> = Vec::new();
    let mut i: usize = 0;
    assert(v@.skip(0) == v@);
    while i < v.len() && kept.len() < 20
        invariant
            v@ == file_type@,
            i <= v.len(),
            kept.len() <= 20,
            kept@ + type_chars(v@.skip(i as int), (20 - kept.len()) as nat) == type_chars(v@, 20),
        decreases v.len() - i,
    {
        let c = v[i];
        proof {
            lemma_type_chars_step(v@, i as int, (20 - kept.len()) as nat);
        }
        if is_alphanumeric(c) || c == '-' || c == '_' {
            let ghost kb = kept@;
            kept.push(c);
            assert(kept@ + type_chars(v@.skip(i as int + 1), (20 - kept.len()) as nat) =~= kb + (
            seq![c] + type_chars(v@.skip(i as int + 1), (20 - kb.len() - 1) as nat)));
        }
        i += 1;
    }
    proof {
        if i == v.len() {
            assert(v@.skip(i as int).len() == 0);
        }
        assert(kept@ =~= type_chars(v@, 20));
    }
    if kept.len() == 0 {
        return None;
    }
    let ks = string_of(&kept);
    let lower = to_lowercase(ks.as_str());
    let mut out = String::from_str(".");
    let lv = chars_of(lower.as_str());
    let mut ov = chars_of(out.as_str());
    crate::text::extend_chars(&mut ov, &lv);
    proof {
        reveal_strlit(".");
    }
    assert(ov@ =~= seq!['.'] + unicode_lowercase(kept@));
    Some(string_of(&ov))
}

/// The position of the last `.` in `s`, if any.
pub open spec fn last_dot(s: Seq<char>) -> Option<int> {
    if exists|i: int| 0 <= i < s.len() && s[i] == '.' {
        Some(choose|i: int| 0 <= i < s.len() && s[i] == '.' && forall|j: int| i < j < s.len() ==> s[j] != '.')
    } else {
        None
    }
}

/// Whether the text after the last dot qualifies as an extension: not
/// empty, no path separators, at most 15 bytes, only letters, digits, `-`
/// and `_`.
pub open spec fn extension_ok(e: Seq<char>) -> bool {
    &&& e.len() > 0
    &&& !has_char(e, '\\') && !has_char(e, '/')
    &&& vstd::utf8::encode_utf8(e).len() <= 15
    &&& forall|i: int| 0 <= i < e.len() ==> type_char_ok(#[trigger] e[i])
}

/// The extension reported for a file: the lowercased text after the last
/// dot of its path, when that text qualifies.
pub open spec fn file_extension(path: Seq<char>) -> Option<Seq<char>> {
    match last_dot(path) {
        None => None,
        Some(i) => {
            let e = path.skip(i + 1);
            if extension_ok(e) {
                Some(unicode_lowercase(e))
            } else {
                None
            }
        },
    }
}

/// The extension reported for a file.
pub fn extension_of(path: &str) -> (r: Option<String>)
    ensures
        match file_extension(path@) {
            None => r is None,
            Some(e) => r matches Some(s) && s@ == e,
        },
{
    let v = chars_of(path);
    let mut i: usize = v.len();
    while i > 0 && v[i - 1] != '.'
        invariant
            v@ == path@,
            i <= v.len(),
            forall|j: int| i <= j < v.len() ==> v@[j] != '.',
        decreases i,
    {
        i -= 1;
    }
    if i == 0 {
        assert(!(exists|k: int| 0 <= k < v@.len() && v@[k] == '.'));
        return None;
    }
    let d = i - 1;
    proof {
        assert(v@[d as int] == '.');
        let c = choose|k: int| 0 <= k < v@.len() && v@[k] == '.' && forall|j: int| k < j < v@.len() ==> v@[j] != '.';
        assert(c == d) by {
            if c < d {
                assert(v@[d as int] != '.');
            } else if c > d {
            }
        }
    }
    let mut e: Vec<char> = Vec::new();
    let mut j: usize = i;
    while j < v.len()
        invariant
            i <= j <= v.len(),
            e@ == v@.subrange(i as int, j as int),
        decreases v.len() - j,
    {
        e.push(v[j]);
        j += 1;
    }
    assert(e@ =~= v@.skip(i as int));
    if e.len() == 0 || crate::text::contains_char(&e, '\\') || crate::text::contains_char(&e, '/') {
        return None;
    }
    let es = string_of(&e);
    if crate::text::byte_len(es.as_str()) > 15 {
        return None;
    }
    let mut k: usize = 0;
    let mut all_ok = true;
    while k < e.len() && all_ok
        invariant
            k <= e.len(),
            all_ok ==> forall|m: int| 0 <= m < k ==> type_char_ok(#[trigger] e@[m]),
            k <= e.len() + 1,
            !all_ok ==> exists|m: int| 0 <= m < e.len() && !type_char_ok(#[trigger] e@[m]),
        decreases e.len() - k,
    {
        let c = e[k];
        if !(is_alphanumeric(c) || c == '-' || c == '_') {
            assert(!type_char_ok(e@[k as int]));
            all_ok = false;
        }
        k += 1;
    }
    if !all_ok {
        return None;
    }
    Some(to_lowercase(es.as_str()))
}

} // verus!
