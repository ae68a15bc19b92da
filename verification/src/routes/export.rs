//! The rules of the export endpoints: the CSV text of each record, the
//! export limits, and the step-by-step plan of a streamed CSV export.

use vstd::prelude::*;
use crate::error::AppError;
use crate::routes::scans::clamp_i64;
use crate::text::{
    chars_of, dec_int, extend_chars, extend_str, i64_dec, is_control, is_control_char, string_of,
    str_eq,
};

verus! {

/// Parameters of the export endpoint.
#[derive(Clone, Debug)]
pub struct ExportQuery {
    /// `csv` or `json`.
    pub format: String,
    /// `nodes`, `files` or `all` (default).
    pub scope: Option<String>,
    /// The most records to export.
    pub limit: Option<i64>,
}

/// A JSON export.
#[derive(Clone, Debug)]
pub struct ExportData {
    /// The scan's identifier.
    pub scan_id: String,
    /// When the export was made.
    pub exported_at: String,
    /// Always `json`.
    pub format: String,
    /// The directories, when exported.
    pub nodes: Option<Vec<NodeExport>>,
    /// The files, when exported.
    pub files: Option<Vec<FileExport>>,
}

/// An exported directory.
#[derive(Clone, Debug)]
pub struct NodeExport {
    pub path: String,
    pub parent_path: Option<String>,
    pub depth: i64,
    pub is_dir: bool,
    pub logical_size: i64,
    pub allocated_size: i64,
    pub file_count: i64,
    pub dir_count: i64,
}

/// An exported file.
#[derive(Clone, Debug)]
pub struct FileExport {
    pub path: String,
    pub parent_path: Option<String>,
    pub logical_size: i64,
    pub allocated_size: i64,
}

/// Records fetched per database query.
pub const EXPORT_CHUNK_SIZE: i64 = 800;

/// The text a character becomes inside a quoted CSV field: a quote is
/// doubled; line breaks and other control characters become spaces.
pub open spec fn csv_char(c: char) -> Seq<char> {
    if c == '"' {
        seq!['"', '"']
    } else if c == '\n' || c == '\r' || is_control_char(c) {
        seq![' ']
    } else {
        seq![c]
    }
}

/// A text made safe for a quoted CSV field.
pub open spec fn csv_escaped(s: Seq<char>) -> Seq<char>
    decreases s.len(),
{
    if s.len() == 0 {
        s
    } else {
        csv_escaped(s.drop_last()) + csv_char(s.last())
    }
}

/// An escaped field holds no control character, so no line break, and each
/// record stays on its own line.
pub proof fn lemma_csv_field_has_no_controls(s: Seq<char>)
    ensures
        forall|i: int| 0 <= i < csv_escaped(s).len() ==> !is_control_char(#[trigger] csv_escaped(s)[i]),
    decreases s.len(),
{
    if s.len() > 0 {
        lemma_csv_field_has_no_controls(s.drop_last());
        let a = csv_escaped(s.drop_last());
        let b = csv_char(s.last());
        assert forall|i: int| 0 <= i < csv_escaped(s).len() implies !is_control_char(#[trigger] csv_escaped(s)[i]) by {
            if i < a.len() {
                assert(csv_escaped(s)[i] == a[i]);
            } else {
                assert(csv_escaped(s)[i] == b[i - a.len()]);
            }
        }
    }
}

/// Escapes a text for a quoted CSV field.
pub fn escape_csv(s: &str) -> (r: String)
    ensures
        r@ == csv_escaped(s@),
{
    let v = chars_of(s);
    let mut out: Vec<char> = Vec::new();
    let mut i: usize = 0;
    while i < v.len()
        invariant
            v@ == s@,
            i <= v.len(),
            out@ == csv_escaped(v@.take(i as int)),
        decreases v.len() - i,
    {
        assert(v@.take(i as int + 1).drop_last() == v@.take(i as int));
        let c = v[i];
        if c == '"' {
            out.push('"');
            out.push('"');
        } else if c == '\n' || c == '\r' || is_control(c) {
            out.push(' ');
        } else {
            out.push(c);
        }
        i += 1;
        assert(out@ =~= csv_escaped(v@.take(i as int)));
    }
    assert(v@.take(v.len() as int) == v@);
    string_of(&out)
}

/// The text of an optional string, empty when absent.
pub open spec fn opt_text(s: Option<String>) -> Seq<char> {
    match s {
        Some(t) => t@,
        None => Seq::empty(),
    }
}

/// The CSV line of an exported directory.
pub open spec fn node_csv_line(n: NodeExport) -> Seq<char> {
    "Dir,\""@ + csv_escaped(n.path@) + "\",\""@ + csv_escaped(opt_text(n.parent_path)) + "\","@
        + dec_int(n.depth as int) + ","@ + (if n.is_dir { "1"@ } else { "0"@ }) + ","@ + dec_int(
        n.logical_size as int,
    ) + ","@ + dec_int(n.allocated_size as int) + ","@ + dec_int(n.file_count as int) + ","@
        + dec_int(n.dir_count as int) + "\n"@
}

/// The CSV line of an exported file.
pub open spec fn file_csv_line(f: FileExport) -> Seq<char> {
    "File,\""@ + csv_escaped(f.path@) + "\",\""@ + csv_escaped(opt_text(f.parent_path)) + "\","@
        + dec_int(f.logical_size as int) + ","@ + dec_int(f.allocated_size as int) + "\n"@
}

/// Whether a text passes into a quoted CSV field unchanged: it holds no
/// quote and no control character.
pub open spec fn csv_plain(s: Seq<char>) -> bool {
    forall|i: int| 0 <= i < s.len() ==> #[trigger] s[i] != '"' && !is_control_char(s[i])
}

/// A plain text is its own escaped form.
proof fn lemma_plain_is_unescaped(s: Seq<char>)
    requires
        csv_plain(s),
    ensures
        csv_escaped(s) == s,
    decreases s.len(),
{
    if s.len() > 0 {
        let d = s.drop_last();
        assert forall|i: int| 0 <= i < d.len() implies #[trigger] d[i] != '"' && !is_control_char(d[i]) by {
            assert(d[i] == s[i]);
        }
        lemma_plain_is_unescaped(d);
        let c = s.last();
        assert(c == s[s.len() - 1]);
        assert(c != '\n' && c != '\r') by {
            assert(('\n' as u32) <= 0x1f && ('\r' as u32) <= 0x1f);
        }
        assert(d.push(c) == s);
    }
}

/// A parent path as the CSV columns give it: the text, or nothing.
pub open spec fn parent_text(p: Option<String>) -> Seq<char> {
    match p {
        Some(t) => t@,
        None => Seq::empty(),
    }
}

/// A directory's CSV line holds, in this order: its kind, its path and its
/// parent path as quoted fields (the parent empty when it has none; for
/// texts holding no quote or control character exactly as given), its
/// depth, 1 or 0 for being a directory, its logical and allocated sizes, and
/// its file and directory counts, in decimal, ending the line.
pub proof fn lemma_node_line_names_path_and_parent(n: NodeExport)
    requires
        csv_plain(n.path@),
        csv_plain(parent_text(n.parent_path)),
    ensures
        crate::text::seq_starts_with(
            node_csv_line(n),
            "Dir,\""@ + n.path@ + "\",\""@ + parent_text(n.parent_path) + "\","@,
        ),
        node_csv_line(n) == "Dir,\""@ + n.path@ + "\",\""@ + parent_text(n.parent_path) + "\","@
            + dec_int(n.depth as int) + ","@ + (if n.is_dir { "1"@ } else { "0"@ }) + ","@
            + dec_int(n.logical_size as int) + ","@ + dec_int(n.allocated_size as int) + ","@
            + dec_int(n.file_count as int) + ","@ + dec_int(n.dir_count as int) + "\n"@,
{
    lemma_plain_is_unescaped(n.path@);
    lemma_plain_is_unescaped(parent_text(n.parent_path));
    let head = "Dir,\""@ + n.path@ + "\",\""@ + parent_text(n.parent_path) + "\","@;
    let line = node_csv_line(n);
    assert(line.take(head.len() as int) =~= head);
}

/// A file's CSV line holds, in this order: its kind, its path and its
/// parent path as quoted fields (the parent empty when it has none; for
/// texts holding no quote or control character exactly as given), then its
/// logical and allocated sizes in decimal, ending the line.
pub proof fn lemma_file_line_names_path_and_parent(f: FileExport)
    requires
        csv_plain(f.path@),
        csv_plain(parent_text(f.parent_path)),
    ensures
        crate::text::seq_starts_with(
            file_csv_line(f),
            "File,\""@ + f.path@ + "\",\""@ + parent_text(f.parent_path) + "\","@,
        ),
        file_csv_line(f) == "File,\""@ + f.path@ + "\",\""@ + parent_text(f.parent_path) + "\","@
            + dec_int(f.logical_size as int) + ","@ + dec_int(f.allocated_size as int) + "\n"@,
{
    lemma_plain_is_unescaped(f.path@);
    lemma_plain_is_unescaped(parent_text(f.parent_path));
    let head = "File,\""@ + f.path@ + "\",\""@ + parent_text(f.parent_path) + "\","@;
    let line = file_csv_line(f);
    assert(line.take(head.len() as int) =~= head);
}

fn opt_str(s: &Option<String>) -> (r: &str)
    ensures
        r@ == opt_text(*s),
{
    proof {
        reveal_strlit("");
    }
    match s {
        Some(t) => t.as_str(),
        None => "",
    }
}

/// Formats an exported directory as a CSV line.
pub fn format_node_csv(node: &NodeExport) -> (r: String)
    ensures
        r@ == node_csv_line(*node),
{
    proof {
        reveal_strlit("");
    }
    let mut v: Vec<char> = Vec::new();
    extend_str(&mut v, "Dir,\"");
    let p = escape_csv(node.path.as_str());
    extend_str(&mut v, p.as_str());
    extend_str(&mut v, "\",\"");
    let pp = escape_csv(opt_str(&node.parent_path));
    extend_str(&mut v, pp.as_str());
    extend_str(&mut v, "\",");
    extend_chars(&mut v, &i64_dec(node.depth));
    extend_str(&mut v, ",");
    extend_str(&mut v, if node.is_dir { "1" } else { "0" });
    extend_str(&mut v, ",");
    extend_chars(&mut v, &i64_dec(node.logical_size));
    extend_str(&mut v, ",");
    extend_chars(&mut v, &i64_dec(node.allocated_size));
    extend_str(&mut v, ",");
    extend_chars(&mut v, &i64_dec(node.file_count));
    extend_str(&mut v, ",");
    extend_chars(&mut v, &i64_dec(node.dir_count));
    extend_str(&mut v, "\n");
    assert(v@ =~= node_csv_line(*node));
    string_of(&v)
}

/// Formats an exported file as a CSV line.
pub fn format_file_csv(file: &FileExport) -> (r: String)
    ensures
        r@ == file_csv_line(*file),
{
    let mut v: Vec<char> = Vec::new();
    extend_str(&mut v, "File,\"");
    let p = escape_csv(file.path.as_str());
    extend_str(&mut v, p.as_str());
    extend_str(&mut v, "\",\"");
    let pp = escape_csv(opt_str(&file.parent_path));
    extend_str(&mut v, pp.as_str());
    extend_str(&mut v, "\",");
    extend_chars(&mut v, &i64_dec(file.logical_size));
    extend_str(&mut v, ",");
    extend_chars(&mut v, &i64_dec(file.allocated_size));
    extend_str(&mut v, "\n");
    assert(v@ =~= file_csv_line(*file));
    string_of(&v)
}

/// The most records an export holds: 10000 unless asked, within 1..=25000.
pub fn export_limit(limit: Option<i64>) -> (r: i64)
    ensures
        r == clamp_i64(
            match limit {
                Some(l) => l,
                None => 10_000,
            },
            1,
            25_000,
        ),
{
    let l = match limit {
        Some(l) => l,
        None => 10_000,
    };
    if l < 1 { 1 } else if l > 25_000 { 25_000 } else { l }
}

/// The format of an export.
#[derive(Clone, Copy, Debug, PartialEq, Eq)]
pub enum ExportFormat {
    Csv,
    Json,
}

/// The format asked for: `csv` or `json`; anything else is a bad request.
pub fn export_format(format: &str) -> (r: Result<ExportFormat, AppError>)
    ensures
        format@ == "csv"@ ==> r == Ok::<ExportFormat, AppError>(ExportFormat::Csv),
        format@ == "json"@ ==> r == Ok::<ExportFormat, AppError>(ExportFormat::Json),
        format@ != "csv"@ && format@ != "json"@ ==> (r matches Err(AppError::BadRequest(m)) && m@
            == "Invalid format. Use 'csv' or 'json'"@),
{
    proof {
        reveal_strlit("csv");
        reveal_strlit("json");
        assert("csv"@.len() == 3 && "json"@.len() == 4);
        assert("csv"@ != "json"@);
    }
    if str_eq(format, "csv") {
        Ok(ExportFormat::Csv)
    } else if str_eq(format, "json") {
        Ok(ExportFormat::Json)
    } else {
        Err(AppError::BadRequest(String::from_str("Invalid format. Use 'csv' or 'json'")))
    }
}

/// Which records an export holds: directories for `nodes` and `all`, files
/// for `files` and `all`; the scope is `all` unless asked.
pub fn export_scope(scope: Option<&str>) -> (r: (bool, bool))
    ensures
        ({
            let s: Seq<char> = match scope {
                Some(s) => s@,
                None => "all"@,
            };
            r == (s == "all"@ || s == "nodes"@, s == "all"@ || s == "files"@)
        }),
{
    let s = match scope {
        Some(s) => s,
        None => "all",
    };
    let all = str_eq(s, "all");
    (all || str_eq(s, "nodes"), all || str_eq(s, "files"))
}

/// The size of the next batch when `count` of `limit` records were
/// exported: at most `EXPORT_CHUNK_SIZE`, none when the limit is reached.
pub open spec fn next_batch_size(limit: i64, count: i64) -> Option<i64> {
    let remaining = limit - count;
    if remaining <= 0 {
        None
    } else if remaining < EXPORT_CHUNK_SIZE {
        Some(remaining as i64)
    } else {
        Some(EXPORT_CHUNK_SIZE)
    }
}

/// The size of the next batch of an export.
pub fn export_batch_size(limit: i64, count: i64) -> (r: Option<i64>)
    requires
        0 <= count,
        1 <= limit <= 25_000,
    ensures
        r == next_batch_size(limit, count),
{
    let remaining = limit - count;
    if remaining <= 0 {
        None
    } else if remaining < EXPORT_CHUNK_SIZE {
        Some(remaining)
    } else {
        Some(EXPORT_CHUNK_SIZE)
    }
}

/// Where a streamed CSV export stands.
#[derive(Clone, Debug)]
pub struct CsvExportState {
    /// Directories are exported after this path.
    pub node_cursor: Option<String>,
    /// Files are exported after this (allocated size, path).
    pub file_cursor: Option<(i64, String)>,
    /// All directories were exported.
    pub nodes_done: bool,
    /// All files were exported.
    pub files_done: bool,
    /// The first chunk was produced.
    pub header_sent: bool,
    /// Records exported so far.
    pub count: i64,
}

/// What a streamed CSV export does next.
#[derive(Clone, Debug)]
pub enum CsvStep {
    /// The export is complete.
    Stop,
    /// Fetch up to `batch` directories after the cursor.
    Nodes { batch: i64, after: Option<String> },
    /// Fetch up to `batch` files after the cursor.
    Files { batch: i64, after: Option<(i64, String)> },
}

impl CsvExportState {
    /// The state before anything is exported.
    pub fn new() -> (r: CsvExportState)
        ensures
            r.node_cursor is None,
            r.file_cursor is None,
            !r.nodes_done,
            !r.files_done,
            !r.header_sent,
            r.count == 0,
    {
        CsvExportState {
            node_cursor: None,
            file_cursor: None,
            nodes_done: false,
            files_done: false,
            header_sent: false,
            count: 0,
        }
    }
}

/// What a streamed CSV export does next: stop once both kinds are done or
/// the limit is reached; otherwise fetch the next batch of directories
/// while they are included and not done, else of files while they are
/// included and not done, else stop.
pub fn csv_next_step(st: &CsvExportState, limit: i64, include_nodes: bool, include_files: bool) -> (r: CsvStep)
    requires
        0 <= st.count,
        1 <= limit <= 25_000,
    ensures
        (st.nodes_done && st.files_done) || next_batch_size(limit, st.count) is None ==> r is Stop,
        !(st.nodes_done && st.files_done) && next_batch_size(limit, st.count) is Some ==> ({
            let b = next_batch_size(limit, st.count).unwrap();
            if include_nodes && !st.nodes_done {
                r matches CsvStep::Nodes { batch, after } && batch == b && after == st.node_cursor
            } else if include_files && !st.files_done {
                r matches CsvStep::Files { batch, after } && batch == b && after == st.file_cursor
            } else {
                r is Stop
            }
        }),
{
    if st.nodes_done && st.files_done {
        return CsvStep::Stop;
    }
    let batch = match export_batch_size(limit, st.count) {
        None => return CsvStep::Stop,
        Some(b) => b,
    };
    if include_nodes && !st.nodes_done {
        let after = match &st.node_cursor {
            Some(p) => Some(p.clone()),
            None => None,
        };
        CsvStep::Nodes { batch, after }
    } else if include_files && !st.files_done {
        let after = match &st.file_cursor {
            Some((a, p)) => Some((*a, p.clone())),
            None => None,
        };
        CsvStep::Files { batch, after }
    } else {
        CsvStep::Stop
    }
}

/// The CSV header of the directory section.
pub open spec fn node_header() -> Seq<char> {
    "Type,Path,Parent Path,Depth,Is Directory,Logical Size,Allocated Size,File Count,Dir Count\n"@
}

/// The CSV header of the file section.
pub open spec fn file_header() -> Seq<char> {
    "Type,Path,Parent Path,Logical Size,Allocated Size\n"@
}

/// The CSV lines of a batch of directories.
pub open spec fn node_lines(ns: Seq<NodeExport>) -> Seq<char>
    decreases ns.len(),
{
    if ns.len() == 0 {
        Seq::empty()
    } else {
        node_lines(ns.drop_last()) + node_csv_line(ns.last())
    }
}

/// The CSV lines of a batch of files.
pub open spec fn file_lines(fs: Seq<FileExport>) -> Seq<char>
    decreases fs.len(),
{
    if fs.len() == 0 {
        Seq::empty()
    } else {
        file_lines(fs.drop_last()) + file_csv_line(fs.last())
    }
}

/// Takes in a fetched batch of directories: the chunk starts with the
/// directory header when nothing was exported yet; an empty batch ends the
/// directory section (and is followed by a blank line when files come
/// next); otherwise the batch's lines are added and the cursor moves to its
/// last path.
pub fn csv_take_nodes(st: &mut CsvExportState, include_files: bool, rows: &Vec<NodeExport>) -> (chunk: String)
    requires
        0 <= old(st).count,
        old(st).count + rows.len() <= i64::MAX,
    ensures
        chunk@ == (if old(st).count == 0 { node_header() } else { Seq::empty() }) + if rows.len() == 0 {
            if include_files { "\n"@ } else { Seq::empty() }
        } else {
            node_lines(rows@)
        },
        final(st).header_sent,
        final(st).file_cursor == old(st).file_cursor,
        final(st).files_done == old(st).files_done,
        rows.len() == 0 ==> final(st).nodes_done && final(st).node_cursor is None && final(st).count
            == old(st).count,
        rows.len() > 0 ==> !final(st).nodes_done == !old(st).nodes_done && (final(st).node_cursor matches Some(c) && c@
            == rows@.last().path@) && final(st).count == old(st).count + rows.len(),
{
    let mut v: Vec<char> = Vec::new();
    if st.count == 0 {
        extend_str(&mut v, "Type,Path,Parent Path,Depth,Is Directory,Logical Size,Allocated Size,File Count,Dir Count\n");
    }
    let ghost head = v@;
    st.header_sent = true;
    if rows.len() == 0 {
        st.nodes_done = true;
        st.node_cursor = None;
        if include_files {
            extend_str(&mut v, "\n");
        }
        proof {
            reveal_strlit("");
        }
    } else {
        let mut i: usize = 0;
        while i < rows.len()
            invariant
                i <= rows.len(),
                v@ == head + node_lines(rows@.take(i as int)),
            decreases rows.len() - i,
        {
            assert(rows@.take(i as int + 1).drop_last() == rows@.take(i as int));
            let line = format_node_csv(&rows[i]);
            extend_str(&mut v, line.as_str());
            i += 1;
            assert(v@ =~= head + node_lines(rows@.take(i as int)));
        }
        assert(rows@.take(rows.len() as int) == rows@);
        let last = rows.len() - 1;
        st.node_cursor = Some(rows[last].path.clone());
        st.count = st.count + rows.len() as i64;
    }
    proof {
        reveal_strlit("");
    }
    string_of(&v)
}

/// Takes in a fetched batch of files: the chunk starts with the file header
/// when no file cursor is set yet; an empty batch ends the file section;
/// otherwise the batch's lines are added and the cursor moves to its last
/// (allocated size, path).
pub fn csv_take_files(st: &mut CsvExportState, rows: &Vec<FileExport>) -> (chunk: String)
    requires
        0 <= old(st).count,
        old(st).count + rows.len() <= i64::MAX,
    ensures
        chunk@ == (if old(st).file_cursor is None { file_header() } else { Seq::empty() }) + if rows.len() == 0 {
            Seq::empty()
        } else {
            file_lines(rows@)
        },
        final(st).header_sent,
        final(st).node_cursor == old(st).node_cursor,
        final(st).nodes_done == old(st).nodes_done,
        rows.len() == 0 ==> final(st).files_done && final(st).file_cursor == old(st).file_cursor
            && final(st).count == old(st).count,
        rows.len() > 0 ==> final(st).files_done == old(st).files_done && (final(st).file_cursor matches Some(c) && c.0
            == rows@.last().allocated_size && c.1@ == rows@.last().path@) && final(st).count == old(st).count + rows.len(),
{
    let mut v: Vec<char> = Vec::new();
    if st.file_cursor.is_none() {
        extend_str(&mut v, "Type,Path,Parent Path,Logical Size,Allocated Size\n");
    }
    let ghost head = v@;
    st.header_sent = true;
    if rows.len() == 0 {
        st.files_done = true;
    } else {
        let mut i: usize = 0;
        while i < rows.len()
            invariant
                i <= rows.len(),
                v@ == head + file_lines(rows@.take(i as int)),
            decreases rows.len() - i,
        {
            assert(rows@.take(i as int + 1).drop_last() == rows@.take(i as int));
            let line = format_file_csv(&rows[i]);
            extend_str(&mut v, line.as_str());
            i += 1;
            assert(v@ =~= head + file_lines(rows@.take(i as int)));
        }
        assert(rows@.take(rows.len() as int) == rows@);
        let last = rows.len() - 1;
        st.file_cursor = Some((rows[last].allocated_size, rows[last].path.clone()));
        st.count = st.count + rows.len() as i64;
    }
    proof {
        reveal_strlit("");
    }
    string_of(&v)
}

/// A streamed export never holds more records than its limit: a batch
/// fetched at the planned size brings the count to at most the limit.
pub proof fn lemma_export_stays_within_limit(limit: i64, count: i64, fetched: nat)
    requires
        0 <= count <= limit,
        next_batch_size(limit, count) matches Some(b) && fetched <= b,
    ensures
        count + fetched <= limit,
{
}

} // verus!
