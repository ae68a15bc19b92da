//! What the web client's scan view shows: how its tables are ordered and
//! filtered, the list's CSV download, the names, parents and pages of its
//! entries, its navigation trail, and the move dialog's suggestions.

use vstd::prelude::*;
use crate::sort::{is_stable_sort, reverse_vec, reversed, stable_sort_by_keys, SortKey};
use crate::routes::scans::apply_window;
use crate::scanner::globs::texts;
use crate::text::{
    byte_len, chars_of, contains_seq, dec_int, extend_chars, extend_str, i64_dec, seq_contains,
    str_eq, string_of, to_lowercase, unicode_lowercase,
};
use crate::types::{ListItem, NodeDto, TopItem};

verus! {

// ---------------------------------------------------------------------------
// Table orders
// ---------------------------------------------------------------------------

/// The column a table of the scan view is ordered by.
#[derive(Clone, Copy, Debug, PartialEq, Eq)]
pub enum ViewSort {
    /// Allocated size (also for any unknown column name).
    Allocated,
    /// Logical size.
    Logical,
    /// Path, ignoring case.
    Name,
    /// Directories before files.
    Type,
    /// Modification time.
    Modified,
}

/// The column named `s`: `logical`, `name`, `type` or `modified`; anything
/// else orders by allocated size.
pub open spec fn view_sort_of(s: Seq<char>) -> ViewSort {
    if s == "logical"@ {
        ViewSort::Logical
    } else if s == "name"@ {
        ViewSort::Name
    } else if s == "type"@ {
        ViewSort::Type
    } else if s == "modified"@ {
        ViewSort::Modified
    } else {
        ViewSort::Allocated
    }
}

fn view_sort_exec(s: &str) -> (r: ViewSort)
    ensures
        r == view_sort_of(s@),
{
    if str_eq(s, "logical") {
        ViewSort::Logical
    } else if str_eq(s, "name") {
        ViewSort::Name
    } else if str_eq(s, "type") {
        ViewSort::Type
    } else if str_eq(s, "modified") {
        ViewSort::Modified
    } else {
        ViewSort::Allocated
    }
}

/// The key of a row with the given path, kind and values under column
/// `key`: the lowercased path, a size, 0 for directories and 1 for files,
/// or the modification time (0 when unknown).
pub open spec fn is_row_key(
    path: Seq<char>,
    is_dir: bool,
    allocated: i64,
    logical: i64,
    mtime: Option<i64>,
    key: ViewSort,
    k: SortKey,
) -> bool {
    match key {
        ViewSort::Name => k matches SortKey::Text(t) && t@ == unicode_lowercase(path),
        ViewSort::Logical => k == SortKey::Num(logical),
        ViewSort::Type => k == SortKey::Num(if is_dir { 0 } else { 1 }),
        ViewSort::Modified => k == SortKey::Num(
            match mtime {
                Some(t) => t,
                None => 0,
            },
        ),
        ViewSort::Allocated => k == SortKey::Num(allocated),
    }
}

fn row_key(
    path: &str,
    is_dir: bool,
    allocated: i64,
    logical: i64,
    mtime: Option<i64>,
    key: ViewSort,
) -> (k: SortKey)
    ensures
        is_row_key(path@, is_dir, allocated, logical, mtime, key, k),
{
    match key {
        ViewSort::Name => {
            let l = to_lowercase(path);
            SortKey::Text(chars_of(l.as_str()))
        },
        ViewSort::Logical => SortKey::Num(logical),
        ViewSort::Type => SortKey::Num(if is_dir { 0 } else { 1 }),
        ViewSort::Modified => SortKey::Num(
            match mtime {
                Some(t) => t,
                None => 0,
            },
        ),
        ViewSort::Allocated => SortKey::Num(allocated),
    }
}

/// The key of a tree row.
pub open spec fn is_tree_key(n: NodeDto, key: ViewSort, k: SortKey) -> bool {
    is_row_key(n.path@, n.is_dir, n.allocated_size, n.logical_size, n.mtime, key, k)
}

/// The key of a "largest" row.
pub open spec fn is_top_key(t: TopItem, key: ViewSort, k: SortKey) -> bool {
    match t {
        TopItem::Dir { path, allocated_size, logical_size, mtime, .. } => is_row_key(
            path@,
            true,
            allocated_size,
            logical_size,
            mtime,
            key,
            k,
        ),
        TopItem::File { path, allocated_size, logical_size, mtime, .. } => is_row_key(
            path@,
            false,
            allocated_size,
            logical_size,
            mtime,
            key,
            k,
        ),
    }
}

/// Orders the rows of the tree table: stably by the chosen column
/// (ascending), then reversed when `order` is `desc`.
pub fn sort_tree_rows(rows: Vec<NodeDto>, sort: &str, order: &str) -> (r: Vec<NodeDto>)
    ensures
        exists|keys: Seq<SortKey>, sorted: Seq<NodeDto>, sorted_keys: Seq<SortKey>|
            {
                &&& keys.len() == rows@.len()
                &&& forall|i: int|
                    0 <= i < rows@.len() ==> is_tree_key(
                        #[trigger] rows@[i],
                        view_sort_of(sort@),
                        keys[i],
                    )
                &&& is_stable_sort(rows@, keys, sorted, sorted_keys)
                &&& r@ == if order@ == "desc"@ {
                    reversed(sorted)
                } else {
                    sorted
                }
            },
{
    let key = view_sort_exec(sort);
    let mut keys: Vec<SortKey> = Vec::new();
    let mut i: usize = 0;
    while i < rows.len()
        invariant
            i <= rows.len(),
            keys.len() == i,
            forall|j: int| 0 <= j < i ==> is_tree_key(rows@[j], key, #[trigger] keys@[j]),
        decreases rows.len() - i,
    {
        let n = &rows[i];
        let k = row_key(n.path.as_str(), n.is_dir, n.allocated_size, n.logical_size, n.mtime, key);
        keys.push(k);
        i += 1;
    }
    let (sorted, _sorted_keys) = stable_sort_by_keys(rows, keys);
    if str_eq(order, "desc") {
        reverse_vec(sorted)
    } else {
        sorted
    }
}

/// Orders the rows of the "largest" table: stably by the chosen column
/// (ascending), then reversed when `order` is `desc`.
pub fn sort_top_rows(rows: Vec<TopItem>, sort: &str, order: &str) -> (r: Vec<TopItem>)
    ensures
        exists|keys: Seq<SortKey>, sorted: Seq<TopItem>, sorted_keys: Seq<SortKey>|
            {
                &&& keys.len() == rows@.len()
                &&& forall|i: int|
                    0 <= i < rows@.len() ==> is_top_key(
                        #[trigger] rows@[i],
                        view_sort_of(sort@),
                        keys[i],
                    )
                &&& is_stable_sort(rows@, keys, sorted, sorted_keys)
                &&& r@ == if order@ == "desc"@ {
                    reversed(sorted)
                } else {
                    sorted
                }
            },
{
    let key = view_sort_exec(sort);
    let mut keys: Vec<SortKey> = Vec::new();
    let mut i: usize = 0;
    while i < rows.len()
        invariant
            i <= rows.len(),
            keys.len() == i,
            forall|j: int| 0 <= j < i ==> is_top_key(rows@[j], key, #[trigger] keys@[j]),
        decreases rows.len() - i,
    {
        let k = match &rows[i] {
            TopItem::Dir { path, allocated_size, logical_size, mtime, .. } => row_key(
                path.as_str(),
                true,
                *allocated_size,
                *logical_size,
                *mtime,
                key,
            ),
            TopItem::File { path, allocated_size, logical_size, mtime, .. } => row_key(
                path.as_str(),
                false,
                *allocated_size,
                *logical_size,
                *mtime,
                key,
            ),
        };
        keys.push(k);
        i += 1;
    }
    let (sorted, _sorted_keys) = stable_sort_by_keys(rows, keys);
    if str_eq(order, "desc") {
        reverse_vec(sorted)
    } else {
        sorted
    }
}

// ---------------------------------------------------------------------------
// The list filter
// ---------------------------------------------------------------------------

/// A list entry's name.
pub open spec fn list_name(i: ListItem) -> Seq<char> {
    match i {
        ListItem::Dir { name, .. } => name@,
        ListItem::File { name, .. } => name@,
    }
}

/// A list entry's allocated size.
pub open spec fn list_allocated(i: ListItem) -> i64 {
    match i {
        ListItem::Dir { allocated_size, .. } => allocated_size,
        ListItem::File { allocated_size, .. } => allocated_size,
    }
}

/// Whether a list entry is shown: its lowercased name contains the
/// lowercased query (any name when the query is empty), its allocated size
/// is at least `min_size`, it is of the kind the type filter asks for
/// (`dirs`, `files`, anything else for both), and its name does not start
/// with `.` unless hidden entries are shown.
pub open spec fn shown_in_list(
    i: ListItem,
    query_lower: Seq<char>,
    min_size: i64,
    type_filter: Seq<char>,
    show_hidden: bool,
) -> bool {
    &&& (query_lower.len() == 0 || seq_contains(unicode_lowercase(list_name(i)), query_lower))
    &&& list_allocated(i) >= min_size
    &&& (type_filter == "dirs"@ ==> i is Dir)
    &&& (type_filter == "files"@ ==> i is File)
    &&& (show_hidden || !(list_name(i).len() > 0 && list_name(i)[0] == '.'))
}

/// The entries of `items` that are shown, in order.
pub open spec fn shown_items(
    items: Seq<ListItem>,
    query_lower: Seq<char>,
    min_size: i64,
    type_filter: Seq<char>,
    show_hidden: bool,
) -> Seq<ListItem>
    decreases items.len(),
{
    if items.len() == 0 {
        items
    } else {
        let rest = shown_items(items.drop_last(), query_lower, min_size, type_filter, show_hidden);
        if shown_in_list(items.last(), query_lower, min_size, type_filter, show_hidden) {
            rest.push(items.last())
        } else {
            rest
        }
    }
}

fn is_shown(
    item: &ListItem,
    query_lower: &Vec<char>,
    min_size: i64,
    type_filter: &str,
    show_hidden: bool,
) -> (b: bool)
    ensures
        b == shown_in_list(*item, query_lower@, min_size, type_filter@, show_hidden),
{
    let (name, allocated, is_dir) = match item {
        ListItem::Dir { name, allocated_size, .. } => (name, *allocated_size, true),
        ListItem::File { name, allocated_size, .. } => (name, *allocated_size, false),
    };
    let name_match = if query_lower.len() == 0 {
        true
    } else {
        let lower = to_lowercase(name.as_str());
        let lv = chars_of(lower.as_str());
        contains_seq(&lv, query_lower)
    };
    let size_match = allocated >= min_size;
    let type_match = if str_eq(type_filter, "dirs") {
        is_dir
    } else if str_eq(type_filter, "files") {
        !is_dir
    } else {
        true
    };
    let nv = chars_of(name.as_str());
    let hidden_match = show_hidden || !(nv.len() > 0 && nv[0] == '.');
    proof {
        reveal_strlit("dirs");
        reveal_strlit("files");
        assert("dirs"@ != "files"@) by {
            assert("dirs"@.len() != "files"@.len());
        }
        assert(name@ == list_name(*item));
        assert(allocated == list_allocated(*item));
        assert(is_dir == (*item is Dir));
        assert(name_match == (query_lower@.len() == 0 || seq_contains(
            unicode_lowercase(list_name(*item)),
            query_lower@,
        )));
        assert(type_match == ((type_filter@ == "dirs"@ ==> *item is Dir) && (type_filter@ == "files"@
            ==> *item is File)));
        assert(hidden_match == (show_hidden || !(list_name(*item).len() > 0 && list_name(*item)[0]
            == '.')));
    }
    name_match && size_match && type_match && hidden_match
}

/// The entries of the list that are shown under the view's filters, in
/// their order: the search text (matched without regard to case), the
/// smallest allocated size, the kind (`dirs`, `files` or anything else for
/// both) and whether hidden (dot-named) entries are shown.
pub fn visible_list_items(
    items: Vec<ListItem>,
    query: &str,
    min_size: i64,
    type_filter: &str,
    show_hidden: bool,
) -> (r: Vec<ListItem>)
    ensures
        r@ == shown_items(items@, unicode_lowercase(query@), min_size, type_filter@, show_hidden),
{
    let ql = to_lowercase(query);
    let qv = chars_of(ql.as_str());
    let ghost q = qv@;
    let ghost all = items@;
    let mut src = items;
    let mut picked_rev: Vec<ListItem> = Vec::new();
    while src.len() > 0
        invariant
            qv@ == q,
            src.len() <= all.len(),
            src@ == all.take(src.len() as int),
            shown_items(all, q, min_size, type_filter@, show_hidden) == shown_items(
                src@,
                q,
                min_size,
                type_filter@,
                show_hidden,
            ) + reversed(picked_rev@),
        decreases src.len(),
    {
        let ghost before = src@;
        let ghost picked_before = picked_rev@;
        let it = src.pop().unwrap();
        assert(before.drop_last() =~= src@);
        assert(src@ =~= all.take(src.len() as int));
        if is_shown(&it, &qv, min_size, type_filter, show_hidden) {
            picked_rev.push(it);
            assert(reversed(picked_rev@) =~= seq![it] + reversed(picked_before));
            assert(shown_items(before, q, min_size, type_filter@, show_hidden) == shown_items(
                src@,
                q,
                min_size,
                type_filter@,
                show_hidden,
            ).push(it));
            assert(shown_items(src@, q, min_size, type_filter@, show_hidden).push(it) + reversed(
                picked_before,
            ) =~= shown_items(src@, q, min_size, type_filter@, show_hidden) + reversed(
                picked_rev@,
            ));
        } else {
            assert(shown_items(before, q, min_size, type_filter@, show_hidden) == shown_items(
                src@,
                q,
                min_size,
                type_filter@,
                show_hidden,
            ));
        }
    }
    assert(src@ =~= Seq::<ListItem>::empty());
    assert(shown_items(src@, q, min_size, type_filter@, show_hidden) =~= Seq::<ListItem>::empty());
    let r = reverse_vec(picked_rev);
    assert(reversed(reversed(picked_rev@)) =~= picked_rev@) by {
        assert(reversed(picked_rev@).len() == picked_rev@.len());
    }
    assert(r@ =~= shown_items(all, q, min_size, type_filter@, show_hidden));
    r
}

// ---------------------------------------------------------------------------
// The list's CSV download
// ---------------------------------------------------------------------------

/// `s` without its double quotes.
pub open spec fn no_quotes(s: Seq<char>) -> Seq<char>
    decreases s.len(),
{
    if s.len() == 0 {
        s
    } else {
        let rest = no_quotes(s.drop_last());
        if s.last() == '"' {
            rest
        } else {
            rest.push(s.last())
        }
    }
}

/// The CSV line of a list entry: kind, quoted name and path (their double
/// quotes dropped), allocated and logical size, and modification time (0
/// when unknown).
pub open spec fn list_csv_line(i: ListItem) -> Seq<char> {
    match i {
        ListItem::Dir { name, path, allocated_size, logical_size, mtime, .. } => "dir,\""@
            + no_quotes(name@) + "\",\""@ + no_quotes(path@) + "\","@ + dec_int(allocated_size as int)
            + ","@ + dec_int(logical_size as int) + ","@ + dec_int(
            match mtime {
                Some(t) => t as int,
                None => 0int,
            },
        ) + "\n"@,
        ListItem::File { name, path, allocated_size, logical_size, mtime, .. } => "file,\""@
            + no_quotes(name@) + "\",\""@ + no_quotes(path@) + "\","@ + dec_int(allocated_size as int)
            + ","@ + dec_int(logical_size as int) + ","@ + dec_int(
            match mtime {
                Some(t) => t as int,
                None => 0int,
            },
        ) + "\n"@,
    }
}

/// The CSV lines of list entries, in order.
pub open spec fn list_csv_lines(items: Seq<ListItem>) -> Seq<char>
    decreases items.len(),
{
    if items.len() == 0 {
        Seq::empty()
    } else {
        list_csv_lines(items.drop_last()) + list_csv_line(items.last())
    }
}

/// The header of the list's CSV download.
pub open spec fn list_csv_header() -> Seq<char> {
    "type,name,path,allocated,logical,mtime\n"@
}

fn push_without_quotes(out: &mut Vec<char>, s: &str)
    ensures
        final(out)@ == old(out)@ + no_quotes(s@),
{
    let v = chars_of(s);
    let ghost start = out@;
    let mut i: usize = 0;
    while i < v.len()
        invariant
            v@ == s@,
            i <= v.len(),
            out@ == start + no_quotes(v@.take(i as int)),
        decreases v.len() - i,
    {
        assert(v@.take(i + 1).drop_last() =~= v@.take(i as int));
        if v[i] != '"' {
            out.push(v[i]);
        }
        i += 1;
        assert(out@ =~= start + no_quotes(v@.take(i as int)));
    }
    assert(v@.take(v.len() as int) =~= v@);
}

fn push_number(out: &mut Vec<char>, n: i64)
    ensures
        final(out)@ == old(out)@ + dec_int(n as int),
{
    let d = i64_dec(n);
    extend_chars(out, &d);
}

fn push_list_line(out: &mut Vec<char>, item: &ListItem)
    ensures
        final(out)@ == old(out)@ + list_csv_line(*item),
{
    let ghost start = out@;
    let (kind, name, path, allocated, logical, mtime) = match item {
        ListItem::Dir { name, path, allocated_size, logical_size, mtime, .. } => (
            "dir,\"",
            name,
            path,
            *allocated_size,
            *logical_size,
            *mtime,
        ),
        ListItem::File { name, path, allocated_size, logical_size, mtime, .. } => (
            "file,\"",
            name,
            path,
            *allocated_size,
            *logical_size,
            *mtime,
        ),
    };
    extend_str(out, kind);
    push_without_quotes(out, name.as_str());
    extend_str(out, "\",\"");
    push_without_quotes(out, path.as_str());
    extend_str(out, "\",");
    push_number(out, allocated);
    extend_str(out, ",");
    push_number(out, logical);
    extend_str(out, ",");
    push_number(
        out,
        match mtime {
            Some(t) => t,
            None => 0,
        },
    );
    extend_str(out, "\n");
    assert(out@ =~= start + list_csv_line(*item));
}

/// The CSV download of list entries: the header, then one line per entry.
pub fn list_csv(items: &Vec<ListItem>) -> (r: String)
    ensures
        r@ == list_csv_header() + list_csv_lines(items@),
{
    let mut out: Vec<char> = Vec::new();
    extend_str(&mut out, "type,name,path,allocated,logical,mtime\n");
    let ghost head = out@;
    let mut i: usize = 0;
    while i < items.len()
        invariant
            i <= items.len(),
            head == list_csv_header(),
            out@ == head + list_csv_lines(items@.take(i as int)),
        decreases items.len() - i,
    {
        assert(items@.take(i + 1).drop_last() =~= items@.take(i as int));
        push_list_line(&mut out, &items[i]);
        i += 1;
        assert(out@ =~= head + list_csv_lines(items@.take(i as int)));
    }
    assert(items@.take(items.len() as int) =~= items@);
    string_of(&out)
}

// ---------------------------------------------------------------------------
// Names and parents
// ---------------------------------------------------------------------------

/// A path separator: `\` or `/`.
pub open spec fn is_sep(c: char) -> bool {
    c == '\\' || c == '/'
}

/// The position of the last separator of `s`, or -1 without one.
pub open spec fn last_sep(s: Seq<char>) -> int
    decreases s.len(),
{
    if s.len() == 0 {
        -1
    } else if is_sep(s.last()) {
        s.len() - 1
    } else {
        last_sep(s.drop_last())
    }
}

/// The last separator, when there is one, lies inside the text.
proof fn lemma_last_sep_bounds(s: Seq<char>)
    ensures
        -1 <= last_sep(s) < s.len(),
        last_sep(s) >= 0 ==> is_sep(s[last_sep(s)]),
    decreases s.len(),
{
    if s.len() > 0 && !is_sep(s.last()) {
        lemma_last_sep_bounds(s.drop_last());
    }
}

fn last_sep_exec(v: &Vec<char>) -> (r: Option<usize>)
    ensures
        match r {
            Some(i) => last_sep(v@) == i as int,
            None => last_sep(v@) == -1,
        },
{
    let mut i: usize = v.len();
    assert(v@.take(i as int) =~= v@);
    while i > 0
        invariant
            i <= v.len(),
            last_sep(v@) == last_sep(v@.take(i as int)),
        decreases i,
    {
        assert(v@.take(i as int).drop_last() =~= v@.take(i - 1));
        if v[i - 1] == '\\' || v[i - 1] == '/' {
            return Some(i - 1);
        }
        i -= 1;
    }
    None
}

/// The name a tree row is shown under: what follows the path's last
/// separator, or the whole path without one.
pub open spec fn row_name(path: Seq<char>) -> Seq<char> {
    if last_sep(path) >= 0 {
        path.skip(last_sep(path) + 1)
    } else {
        path
    }
}

/// The name a tree row is shown under.
pub fn tree_row_name(path: &str) -> (r: String)
    ensures
        r@ == row_name(path@),
{
    let v = chars_of(path);
    proof {
        lemma_last_sep_bounds(v@);
    }
    match last_sep_exec(&v) {
        Some(i) => {
            let mut out: Vec<char> = Vec::new();
            let mut j: usize = i + 1;
            while j < v.len()
                invariant
                    i < v.len(),
                    i + 1 <= j <= v.len(),
                    out@ == v@.subrange(i + 1, j as int),
                decreases v.len() - j,
            {
                out.push(v[j]);
                j += 1;
            }
            assert(out@ =~= v@.skip(i + 1));
            string_of(&out)
        },
        None => String::from_str(path),
    }
}

/// `s` without its trailing separators.
pub open spec fn strip_seps(s: Seq<char>) -> Seq<char>
    decreases s.len(),
{
    if s.len() > 0 && is_sep(s.last()) {
        strip_seps(s.drop_last())
    } else {
        s
    }
}

/// The directory a listing steps back to from `path` when it has no trail
/// left: the part before the last separator once trailing separators are
/// dropped, provided it is not empty, does not end in `:` and is longer
/// than two bytes; otherwise none (the scan roots are listed).
pub open spec fn list_parent_of(path: Seq<char>) -> Option<Seq<char>> {
    let s = strip_seps(path);
    let i = last_sep(s);
    if i < 0 {
        None
    } else {
        let par = s.take(i);
        if par.len() > 0 && par.last() != ':' && vstd::utf8::encode_utf8(par).len() > 2 {
            Some(par)
        } else {
            None
        }
    }
}

/// The directory a listing steps back to from `path` without a trail.
pub fn list_parent(path: &str) -> (r: Option<String>)
    ensures
        match list_parent_of(path@) {
            Some(p) => r matches Some(s) && s@ == p,
            None => r is None,
        },
{
    let v = chars_of(path);
    let mut j: usize = v.len();
    assert(v@.take(j as int) =~= v@);
    while j > 0 && (v[j - 1] == '\\' || v[j - 1] == '/')
        invariant
            j <= v.len(),
            strip_seps(v@) == strip_seps(v@.take(j as int)),
        decreases j,
    {
        assert(v@.take(j as int).drop_last() =~= v@.take(j - 1));
        j -= 1;
    }
    let mut s: Vec<char> = Vec::new();
    let mut k: usize = 0;
    while k < j
        invariant
            j <= v.len(),
            k <= j,
            s@ == v@.take(k as int),
        decreases j - k,
    {
        s.push(v[k]);
        k += 1;
    }
    assert(s@ =~= v@.take(j as int));
    assert(strip_seps(v@) == s@);
    proof {
        lemma_last_sep_bounds(s@);
    }
    match last_sep_exec(&s) {
        None => None,
        Some(i) => {
            let mut par: Vec<char> = Vec::new();
            let mut m: usize = 0;
            while m < i
                invariant
                    i < s.len(),
                    m <= i,
                    par@ == s@.take(m as int),
                decreases i - m,
            {
                par.push(s[m]);
                m += 1;
            }
            let ps = string_of(&par);
            if par.len() > 0 && par[par.len() - 1] != ':' && byte_len(ps.as_str()) > 2 {
                Some(ps)
            } else {
                None
            }
        },
    }
}

// ---------------------------------------------------------------------------
// Pages
// ---------------------------------------------------------------------------

/// One page of a listing fetched with one entry more than the page size:
/// at most `limit` entries (all of them for a negative limit), and whether
/// more entries follow.
pub fn list_page<T>(items: Vec<T>, limit: i64) -> (r: (Vec<T>, bool))
    ensures
        r.1 == (items@.len() > limit),
        r.0@ == if limit < 0 || items@.len() <= limit {
            items@
        } else {
            items@.take(limit as int)
        },
{
    let n = items.len();
    let more = n as i128 > limit as i128;
    if limit < 0 || !more {
        (items, more)
    } else {
        let page = apply_window(items, 0, limit as usize);
        (page, more)
    }
}

/// What the list view does with a fetched page: an empty page past the
/// first steps the offset back by one page, not below 0 (`Some` of the new
/// offset); any other page is shown (`None`).
pub fn page_step_back(page_len: usize, current_offset: i64, limit: i64) -> (r: Option<i64>)
    requires
        i64::MIN <= current_offset - limit <= i64::MAX,
    ensures
        r == if page_len == 0 && current_offset > 0 {
            Some(if current_offset - limit < 0 { 0 } else { (current_offset - limit) as i64 })
        } else {
            None::<i64>
        },
{
    if page_len == 0 && current_offset > 0 {
        let back = current_offset - limit;
        Some(if back < 0 { 0 } else { back })
    } else {
        None
    }
}

// ---------------------------------------------------------------------------
// The navigation trail
// ---------------------------------------------------------------------------

/// The trail after the listed directory changes: cleared when the roots
/// are listed; otherwise the directory is appended unless it is already
/// the last step.
pub open spec fn trail_after_change(trail: Seq<Seq<char>>, path: Option<Seq<char>>) -> Seq<Seq<char>> {
    match path {
        None => Seq::empty(),
        Some(p) => if trail.len() > 0 && trail.last() == p {
            trail
        } else {
            trail.push(p)
        },
    }
}

/// The trail after the listed directory changes.
pub fn trail_after_path_change(trail: Vec<String>, path: Option<&str>) -> (r: Vec<String>)
    ensures
        texts(r@) == trail_after_change(
            texts(trail@),
            match path {
                Some(p) => Some(p@),
                None => None,
            },
        ),
{
    match path {
        None => {
            let r: Vec<String> = Vec::new();
            assert(texts(r@) =~= Seq::<Seq<char>>::empty());
            r
        },
        Some(p) => {
            let n = trail.len();
            if n > 0 && str_eq(trail[n - 1].as_str(), p) {
                trail
            } else {
                let mut t = trail;
                let ghost before = t@;
                t.push(String::from_str(p));
                assert(texts(t@) =~= texts(before).push(p@));
                t
            }
        },
    }
}

/// The trail after a directory is opened from a table: appended unless it
/// is already on the trail.
pub fn trail_after_visit(trail: Vec<String>, path: &str) -> (r: Vec<String>)
    ensures
        texts(r@) == if texts(trail@).contains(path@) {
            texts(trail@)
        } else {
            texts(trail@).push(path@)
        },
{
    let mut i: usize = 0;
    while i < trail.len()
        invariant
            i <= trail.len(),
            forall|k: int| 0 <= k < i ==> trail@[k]@ != path@,
        decreases trail.len() - i,
    {
        if str_eq(trail[i].as_str(), path) {
            assert(texts(trail@)[i as int] == path@);
            return trail;
        }
        i += 1;
    }
    assert(!texts(trail@).contains(path@)) by {
        if texts(trail@).contains(path@) {
            let k = choose|k: int| 0 <= k < texts(trail@).len() && texts(trail@)[k] == path@;
            assert(trail@[k]@ == path@);
        }
    }
    let mut t = trail;
    let ghost before = t@;
    t.push(String::from_str(path));
    assert(texts(t@) =~= texts(before).push(path@));
    t
}

/// The trail after its step `i` is chosen: the steps up to and including
/// it.
pub fn trail_upto(trail: Vec<String>, i: usize) -> (r: Vec<String>)
    requires
        i < trail.len(),
    ensures
        texts(r@) == texts(trail@).take(i + 1),
{
    let ghost t0 = trail@;
    let r = apply_window(trail, 0, i + 1);
    assert(texts(r@) =~= texts(t0).take(i + 1));
    r
}

/// Stepping back along a non-empty trail: its last step is dropped, and the
/// step before it becomes the listed directory (`None`: the roots are
/// listed when no step is left).
pub fn trail_back(trail: Vec<String>) -> (r: (Vec<String>, Option<String>))
    requires
        trail.len() > 0,
    ensures
        texts(r.0@) == texts(trail@).drop_last(),
        match r.1 {
            Some(p) => r.0@.len() > 0 && p@ == texts(r.0@).last(),
            None => r.0@.len() == 0,
        },
{
    let mut t = trail;
    let ghost before = t@;
    let _ = t.pop();
    assert(texts(t@) =~= texts(before).drop_last());
    let n = t.len();
    if n == 0 {
        (t, None)
    } else {
        let target = t[n - 1].clone();
        (t, Some(target))
    }
}

// ---------------------------------------------------------------------------
// The move dialog
// ---------------------------------------------------------------------------

/// The destination suggested when a drive is picked: the source's name
/// under the drive's root, joined with `\` unless the root already ends in
/// a separator.
pub open spec fn destination_for(drive_path: Seq<char>, source_name: Seq<char>) -> Seq<char> {
    if drive_path.len() > 0 && is_sep(drive_path.last()) {
        drive_path + source_name
    } else {
        drive_path + seq!['\\'] + source_name
    }
}

/// The destination suggested when a drive is picked.
pub fn destination_suggestion(drive_path: &str, source_name: &str) -> (r: String)
    ensures
        r@ == destination_for(drive_path@, source_name@),
{
    let mut v = chars_of(drive_path);
    let n = v.len();
    if !(n > 0 && (v[n - 1] == '\\' || v[n - 1] == '/')) {
        v.push('\\');
    }
    extend_str(&mut v, source_name);
    string_of(&v)
}


} // verus!
