//! Request validation: path-traversal detection, user-agent heuristics,
//! file-path and scan-option checks, and log sanitizing.

use vstd::prelude::*;
use crate::text::{
    extend_chars, extend_str, i64_dec, is_control, is_control_char, is_whitespace,
    is_whitespace_char, u64_dec, dec, chars_of, char_count, contains_char, contains_str, count_char, has_char, seq_contains,
    seq_starts_with, starts_with_str, string_of, to_lowercase, trim, trimmed, unicode_lowercase,
};

verus! {

/// A refused request, as the HTTP layer reports it: a status code, an error
/// code, a message, and whether the JSON body repeats the status.
#[derive(Clone, Debug)]
pub struct Rejection {
    pub status: u16,
    pub code: String,
    pub message: String,
    pub body_has_status: bool,
}

/// The longest path (in UTF-8 bytes) that `validate_file_path` accepts.
pub const MAX_PATH_LENGTH: usize = 4096;

/// The deepest `max_depth` a scan may ask for.
pub const MAX_ALLOWED_DEPTH: u32 = 100;

/// The largest `concurrency` a scan may ask for.
pub const MAX_ALLOWED_CONCURRENCY: usize = 256;

// ---------------------------------------------------------------------------
// Path traversal
// ---------------------------------------------------------------------------

/// The URL-encoded traversal fragments that are looked for in the lowercased path.
pub open spec fn encoded_traversal(lower: Seq<char>) -> bool {
    ||| seq_contains(lower, "%2e%2e"@)
    ||| seq_contains(lower, "%252e%252e"@)
    ||| seq_contains(lower, "%2e/"@)
    ||| seq_contains(lower, "%252e%2f"@)
    ||| seq_contains(lower, "/%2e"@)
    ||| seq_contains(lower, "%2f%2e"@)
    ||| seq_contains(lower, "%2e\\"@)
    ||| seq_contains(lower, "%2e%5c"@)
    ||| seq_contains(lower, "%5c%2e"@)
    ||| seq_contains(lower, "%5c%5c"@)
    ||| seq_contains(lower, "%00"@)
}

/// A path counts as a traversal attempt when it holds a parent-directory step,
/// a current-directory step between separators, a run of four dots, one of the
/// URL-encoded fragments (after lowercasing), or a NUL character.
pub open spec fn is_path_traversal(p: Seq<char>) -> bool {
    ||| seq_contains(p, "/.."@)
    ||| seq_contains(p, "\\.."@)
    ||| seq_starts_with(p, ".."@)
    ||| seq_contains(p, "/./"@)
    ||| seq_contains(p, "\\.\\"@)
    ||| seq_contains(p, "...."@)
    ||| encoded_traversal(unicode_lowercase(p))
    ||| has_char(p, '\0')
}

fn encoded_traversal_exec(lower: &Vec<char>) -> (r: bool)
    ensures
        r == encoded_traversal(lower@),
{
    contains_str(lower, "%2e%2e") || contains_str(lower, "%252e%252e") || contains_str(lower, "%2e/")
        || contains_str(lower, "%252e%2f") || contains_str(lower, "/%2e") || contains_str(
        lower,
        "%2f%2e",
    ) || contains_str(lower, "%2e\\") || contains_str(lower, "%2e%5c") || contains_str(
        lower,
        "%5c%2e",
    ) || contains_str(lower, "%5c%5c") || contains_str(lower, "%00")
}

/// Whether a path holds a directory-traversal attempt (see `is_path_traversal`).
pub fn contains_path_traversal(path: &str) -> (r: bool)
    ensures
        r == is_path_traversal(path@),
{
    let p = chars_of(path);
    if contains_str(&p, "/..") || contains_str(&p, "\\..") || starts_with_str(&p, "..") {
        return true;
    }
    if contains_str(&p, "/./") || contains_str(&p, "\\.\\") {
        return true;
    }
    if contains_str(&p, "....") {
        return true;
    }
    let lower_s = to_lowercase(path);
    let lower = chars_of(lower_s.as_str());
    if encoded_traversal_exec(&lower) {
        return true;
    }
    contains_char(&p, '\0')
}

// ---------------------------------------------------------------------------
// User agents
// ---------------------------------------------------------------------------

/// A user agent is suspicious when its lowercase form names a scanner, a
/// crawler other than Googlebot or Bingbot, or one of nikto, sqlmap, havij and acunetix.
pub open spec fn is_suspicious_agent(ua: Seq<char>) -> bool {
    let l = unicode_lowercase(ua);
    ||| seq_contains(l, "scanner"@)
    ||| (seq_contains(l, "crawler"@) && !seq_contains(l, "googlebot"@) && !seq_contains(
        l,
        "bingbot"@,
    ))
    ||| seq_contains(l, "nikto"@)
    ||| seq_contains(l, "sqlmap"@)
    ||| seq_contains(l, "havij"@)
    ||| seq_contains(l, "acunetix"@)
}

/// Whether a user agent string looks like an attack tool (see `is_suspicious_agent`).
pub fn is_suspicious_user_agent(ua: &str) -> (r: bool)
    ensures
        r == is_suspicious_agent(ua@),
{
    let lower_s = to_lowercase(ua);
    let l = chars_of(lower_s.as_str());
    contains_str(&l, "scanner") || (contains_str(&l, "crawler") && !contains_str(&l, "googlebot")
        && !contains_str(&l, "bingbot")) || contains_str(&l, "nikto") || contains_str(&l, "sqlmap")
        || contains_str(&l, "havij") || contains_str(&l, "acunetix")
}

// ---------------------------------------------------------------------------
// File paths
// ---------------------------------------------------------------------------

/// How `validate_file_path` classifies a path.
pub enum PathCheck {
    Empty,
    NullByte,
    Traversal,
    TooLong,
    InvalidChar(char),
    MultipleColons,
    MisplacedColon,
    Valid,
}

/// The checks common to every platform, in the order they are made: the
/// trimmed path must not be empty nor hold a NUL, the path must not be a
/// traversal attempt, and it must be at most `MAX_PATH_LENGTH` UTF-8 bytes long.
pub open spec fn common_path_check(p: Seq<char>) -> PathCheck {
    let t = trimmed(p);
    if t.len() == 0 {
        PathCheck::Empty
    } else if has_char(t, '\0') {
        PathCheck::NullByte
    } else if is_path_traversal(p) {
        PathCheck::Traversal
    } else if vstd::utf8::encode_utf8(p).len() > MAX_PATH_LENGTH {
        PathCheck::TooLong
    } else {
        PathCheck::Valid
    }
}

/// The extended-length prefix `\\?\`.
pub open spec fn is_extended_path(p: Seq<char>) -> bool {
    seq_starts_with(p, "\\\\?\\"@)
}

/// The first character of `<`, `>`, `"`, `|`, `?`, `*` (in that order) that occurs in `p`.
pub open spec fn first_invalid_char(p: Seq<char>) -> Option<char> {
    if has_char(p, '<') {
        Some('<')
    } else if has_char(p, '>') {
        Some('>')
    } else if has_char(p, '"') {
        Some('"')
    } else if has_char(p, '|') {
        Some('|')
    } else if has_char(p, '?') {
        Some('?')
    } else if has_char(p, '*') {
        Some('*')
    } else {
        None
    }
}

/// The checks a Windows build adds after the common ones: outside the
/// extended-length syntax none of `<>"|?*` may occur; at most one colon may
/// occur, and a single colon must be the drive colon (second character) unless
/// the path is an extended-length or UNC path.
pub open spec fn windows_path_check(p: Seq<char>) -> PathCheck {
    if !is_extended_path(p) && first_invalid_char(p) is Some {
        PathCheck::InvalidChar(first_invalid_char(p).unwrap())
    } else if count_char(p, ':') > 1 {
        PathCheck::MultipleColons
    } else if count_char(p, ':') == 1 && !(p.len() >= 2 && p[1] == ':') && !is_extended_path(p)
        && !seq_starts_with(p, "\\\\"@) {
        PathCheck::MisplacedColon
    } else {
        PathCheck::Valid
    }
}

pub open spec fn windows_full_check(p: Seq<char>) -> PathCheck {
    match common_path_check(p) {
        PathCheck::Valid => windows_path_check(p),
        other => other,
    }
}

fn first_invalid_char_exec(p: &Vec<char>) -> (r: Option<char>)
    ensures
        r == first_invalid_char(p@),
{
    if contains_char(p, '<') {
        Some('<')
    } else if contains_char(p, '>') {
        Some('>')
    } else if contains_char(p, '"') {
        Some('"')
    } else if contains_char(p, '|') {
        Some('|')
    } else if contains_char(p, '?') {
        Some('?')
    } else if contains_char(p, '*') {
        Some('*')
    } else {
        None
    }
}

fn common_check_exec(path: &str) -> (r: PathCheck)
    ensures
        r == common_path_check(path@),
{
    let p = chars_of(path);
    let t = trim(&p);
    if t.len() == 0 {
        PathCheck::Empty
    } else if contains_char(&t, '\0') {
        PathCheck::NullByte
    } else if contains_path_traversal(path) {
        PathCheck::Traversal
    } else if crate::text::byte_len(path) > MAX_PATH_LENGTH {
        PathCheck::TooLong
    } else {
        PathCheck::Valid
    }
}

fn windows_check_exec(path: &str) -> (r: PathCheck)
    ensures
        r == windows_path_check(path@),
{
    let p = chars_of(path);
    let extended = starts_with_str(&p, "\\\\?\\");
    if !extended {
        if let Some(c) = first_invalid_char_exec(&p) {
            return PathCheck::InvalidChar(c);
        }
    }
    let colons = char_count(&p, ':');
    if colons > 1 {
        return PathCheck::MultipleColons;
    }
    let is_drive = p.len() >= 2 && p[1] == ':';
    let is_unc = starts_with_str(&p, "\\\\");
    if colons == 1 && !is_drive && !extended && !is_unc {
        return PathCheck::MisplacedColon;
    }
    PathCheck::Valid
}

/// The JSON error code and message a path check reports, and whether the body
/// repeats the status; status is always 400.
pub fn path_rejection(c: &PathCheck) -> (r: Rejection)
    requires
        !(*c is Valid),
    ensures
        r.status == 400,
        r.code@ == path_rejection_code(*c),
        r.message@ == path_rejection_message(*c),
        r.body_has_status == path_rejection_has_status(*c),
{
    let (code, message, has_status) = match c {
        PathCheck::Empty => (String::from_str("INVALID_PATH"), String::from_str("Path must not be empty"), false),
        PathCheck::NullByte => (String::from_str("INVALID_PATH"), String::from_str("Path contains null byte"), false),
        PathCheck::Traversal => (String::from_str("PATH_TRAVERSAL"), String::from_str("Path traversal attempt detected"), true),
        PathCheck::TooLong => (String::from_str("PATH_TOO_LONG"), String::from_str("Path exceeds maximum length of 4096 characters"), true),
        PathCheck::InvalidChar(ch) => {
            let mut m = chars_of("Path contains invalid character: ");
            m.push(*ch);
            (String::from_str("INVALID_PATH_CHARS"), string_of(&m), true)
        },
        PathCheck::MultipleColons => (String::from_str("INVALID_PATH_CHARS"), String::from_str("Multiple colons in path"), true),
        PathCheck::MisplacedColon => (String::from_str("INVALID_PATH_CHARS"), String::from_str("Invalid use of colon in path"), true),
        PathCheck::Valid => (String::new(), String::new(), true),
    };
    Rejection { status: 400, code, message, body_has_status: has_status }
}

/// Whether the error body of a path check's rejection repeats the status:
/// all but the empty-path and NUL-byte rejections do.
pub open spec fn path_rejection_has_status(c: PathCheck) -> bool {
    !(c is Empty || c is NullByte)
}

pub open spec fn path_rejection_code(c: PathCheck) -> Seq<char> {
    match c {
        PathCheck::Empty | PathCheck::NullByte => "INVALID_PATH"@,
        PathCheck::Traversal => "PATH_TRAVERSAL"@,
        PathCheck::TooLong => "PATH_TOO_LONG"@,
        _ => "INVALID_PATH_CHARS"@,
    }
}

pub open spec fn path_rejection_message(c: PathCheck) -> Seq<char> {
    match c {
        PathCheck::Empty => "Path must not be empty"@,
        PathCheck::NullByte => "Path contains null byte"@,
        PathCheck::Traversal => "Path traversal attempt detected"@,
        PathCheck::TooLong => "Path exceeds maximum length of 4096 characters"@,
        PathCheck::InvalidChar(ch) => "Path contains invalid character: "@.push(ch),
        PathCheck::MultipleColons => "Multiple colons in path"@,
        PathCheck::MisplacedColon => "Invalid use of colon in path"@,
        PathCheck::Valid => Seq::empty(),
    }
}

/// Validates a file path as the service does on a non-Windows host: `Ok`
/// holds the path unchanged exactly when `common_path_check` finds nothing,
/// otherwise the rejection for the first failing check.
pub fn validate_file_path(path: &str) -> (r: Result<String, Rejection>)
    ensures
        match r {
            Ok(s) => common_path_check(path@) is Valid && s@ == path@,
            Err(e) => !(common_path_check(path@) is Valid) && e.status == 400 && e.code@ == path_rejection_code(
                common_path_check(path@),
            ) && e.message@ == path_rejection_message(common_path_check(path@))
                && e.body_has_status == path_rejection_has_status(common_path_check(path@)),
        },
{
    let c = common_check_exec(path);
    match c {
        PathCheck::Valid => Ok(String::from_str(path)),
        _ => Err(path_rejection(&c)),
    }
}

/// Validates a file path as the service does on Windows: the common checks,
/// then the character and colon rules of `windows_path_check`.
pub fn validate_file_path_windows(path: &str) -> (r: Result<String, Rejection>)
    ensures
        match r {
            Ok(s) => windows_full_check(path@) is Valid && s@ == path@,
            Err(e) => !(windows_full_check(path@) is Valid) && e.status == 400 && e.code@ == path_rejection_code(
                windows_full_check(path@),
            ) && e.message@ == path_rejection_message(windows_full_check(path@))
                && e.body_has_status == path_rejection_has_status(windows_full_check(path@)),
        },
{
    let c = common_check_exec(path);
    let c = match c {
        PathCheck::Valid => windows_check_exec(path),
        other => other,
    };
    match c {
        PathCheck::Valid => Ok(String::from_str(path)),
        _ => Err(path_rejection(&c)),
    }
}


/// The path check of the host: the Windows rules on Windows, the common
/// ones elsewhere.
pub open spec fn host_path_check(p: Seq<char>, windows: bool) -> PathCheck {
    if windows {
        windows_full_check(p)
    } else {
        common_path_check(p)
    }
}

/// Validates a file path by the rules of the host, `windows` saying whether
/// it runs Windows.
pub fn validate_file_path_on(path: &str, windows: bool) -> (r: Result<String, Rejection>)
    ensures
        match r {
            Ok(s) => host_path_check(path@, windows) is Valid && s@ == path@,
            Err(e) => !(host_path_check(path@, windows) is Valid) && e.status == 400 && e.code@
                == path_rejection_code(host_path_check(path@, windows)) && e.message@
                == path_rejection_message(host_path_check(path@, windows)) && e.body_has_status
                == path_rejection_has_status(host_path_check(path@, windows)),
        },
{
    if windows {
        validate_file_path_windows(path)
    } else {
        validate_file_path(path)
    }
}

// ---------------------------------------------------------------------------
// Scan options
// ---------------------------------------------------------------------------

/// Scan options are refused when `max_depth` exceeds `MAX_ALLOWED_DEPTH`
/// (checked first) or when `concurrency` is 0 or exceeds `MAX_ALLOWED_CONCURRENCY`.
pub fn validate_scan_options(max_depth: Option<u32>, concurrency: Option<usize>) -> (r: Result<
    (),
    Rejection,
>)
    ensures
        match r {
            Ok(()) => (max_depth matches Some(d) ==> d <= MAX_ALLOWED_DEPTH) && (
            concurrency matches Some(c) ==> 1 <= c <= MAX_ALLOWED_CONCURRENCY),
            Err(e) => e.status == 400 && e.body_has_status && if max_depth matches Some(d) && d
                > MAX_ALLOWED_DEPTH {
                &&& e.code@ == "INVALID_DEPTH"@
                &&& e.message@ == "Max depth "@ + dec(max_depth.unwrap() as nat)
                    + " exceeds maximum allowed value of 100"@
            } else {
                &&& concurrency matches Some(c) && (c == 0 || c > MAX_ALLOWED_CONCURRENCY)
                &&& e.code@ == "INVALID_CONCURRENCY"@
                &&& e.message@ == "Concurrency "@ + dec(concurrency.unwrap() as nat)
                    + " exceeds maximum allowed value of 256"@
            },
        },
{
    if let Some(depth) = max_depth {
        if depth > MAX_ALLOWED_DEPTH {
            let mut m = chars_of("Max depth ");
            extend_chars(&mut m, &u64_dec(depth as u64));
            extend_str(&mut m, " exceeds maximum allowed value of 100");
            return Err(
                Rejection {
                    status: 400,
                    code: String::from_str("INVALID_DEPTH"),
                    message: string_of(&m),
                    body_has_status: true,
                },
            );
        }
    }
    if let Some(conc) = concurrency {
        if conc == 0 || conc > MAX_ALLOWED_CONCURRENCY {
            let mut m = chars_of("Concurrency ");
            extend_chars(&mut m, &u64_dec(conc as u64));
            extend_str(&mut m, " exceeds maximum allowed value of 256");
            return Err(
                Rejection {
                    status: 400,
                    code: String::from_str("INVALID_CONCURRENCY"),
                    message: string_of(&m),
                    body_has_status: true,
                },
            );
        }
    }
    Ok(())
}

// ---------------------------------------------------------------------------
// UUIDs
// ---------------------------------------------------------------------------

/// What `uuid::Uuid::parse_str` yields for the given text, as the UUID's 128-bit value.
pub uninterp spec fn uuid_parse(s: Seq<char>) -> Option<u128>;

/// Calls `uuid::Uuid::parse_str` and converts a parsed UUID to its 128-bit
/// value (`Uuid::as_u128`). Trusted: the outcome depends on the text alone.
#[verifier::external_body]
fn parse_uuid(s: &str) -> (r: Option<u128>)
    ensures
        r == uuid_parse(s@),
{
    uuid::Uuid::parse_str(s).ok().map(|u| u.as_u128())
}

/// Validates a UUID string: its 128-bit value when `uuid` parses it, else a
/// 400 rejection `INVALID_UUID` naming the input.
pub fn validate_uuid(id: &str) -> (r: Result<u128, Rejection>)
    ensures
        match r {
            Ok(v) => uuid_parse(id@) == Some(v),
            Err(e) => uuid_parse(id@) is None && e.status == 400 && e.body_has_status && e.code@
                == "INVALID_UUID"@ && e.message@ == "Invalid UUID format: "@ + id@,
        },
{
    match parse_uuid(id) {
        Some(v) => Ok(v),
        None => {
            let mut m = chars_of("Invalid UUID format: ");
            extend_str(&mut m, id);
            Err(
                Rejection {
                    status: 400,
                    code: String::from_str("INVALID_UUID"),
                    message: string_of(&m),
                    body_has_status: true,
                },
            )
        },
    }
}

// ---------------------------------------------------------------------------
// Log sanitizing
// ---------------------------------------------------------------------------

/// The characters kept in log output: non-control characters and whitespace.
pub open spec fn log_keeps(c: char) -> bool {
    !is_control_char(c) || is_whitespace_char(c)
}

/// Backslashes and both kinds of quotes are escaped with a backslash.
pub open spec fn log_escape_char(c: char) -> Seq<char> {
    if c == '\\' {
        seq!['\\', '\\']
    } else if c == '"' {
        seq!['\\', '"']
    } else if c == '\'' {
        seq!['\\', '\'']
    } else {
        seq![c]
    }
}

pub open spec fn log_escape(s: Seq<char>) -> Seq<char>
    decreases s.len(),
{
    if s.len() == 0 {
        Seq::empty()
    } else {
        log_escape(s.drop_last()) + log_escape_char(s.last())
    }
}

/// The characters of `s` that `log_keeps`, in order.
pub open spec fn log_kept(s: Seq<char>) -> Seq<char>
    decreases s.len(),
{
    if s.len() == 0 {
        s
    } else if log_keeps(s.last()) {
        log_kept(s.drop_last()).push(s.last())
    } else {
        log_kept(s.drop_last())
    }
}

/// At most the first `n` characters of `s`.
pub open spec fn prefix_at_most(s: Seq<char>, n: nat) -> Seq<char> {
    if s.len() <= n { s } else { s.take(n as int) }
}

/// What `sanitize_for_logging` returns: the kept characters, cut to the first
/// 200, with backslashes and quotes escaped.
pub open spec fn sanitized_for_log(s: Seq<char>) -> Seq<char> {
    log_escape(prefix_at_most(log_kept(s), 200))
}

/// Removes control characters (whitespace excepted), keeps at most 200
/// characters, and escapes backslashes and quotes.
pub fn sanitize_for_logging(input: &str) -> (r: String)
    ensures
        r@ == sanitized_for_log(input@),
{
    let s = chars_of(input);
    let mut kept: Vec<char> = Vec::new();
    let mut i: usize = 0;
    while i < s.len()
        invariant
            i <= s.len(),
            kept@ == log_kept(s@.take(i as int)),
        decreases s.len() - i,
    {
        let ghost t = s@.take(i + 1);
        assert(t.drop_last() == s@.take(i as int));
        let c = s[i];
        assert(t.last() == c);
        if !is_control(c) || is_whitespace(c) {
            kept.push(c);
        }
        assert(kept@ == log_kept(t));
        i += 1;
    }
    assert(s@.take(s.len() as int) == s@);
    let n: usize = if kept.len() <= 200 { kept.len() } else { 200 };
    let ghost cut = prefix_at_most(kept@, 200);
    let mut out: Vec<char> = Vec::new();
    let mut j: usize = 0;
    while j < n
        invariant
            n <= kept.len(),
            n == cut.len(),
            cut == prefix_at_most(kept@, 200),
            j <= n,
            out@ == log_escape(cut.take(j as int)),
        decreases n - j,
    {
        assert(cut.take(j + 1).drop_last() == cut.take(j as int));
        let c = kept[j];
        if c == '\\' {
            out.push('\\');
            out.push('\\');
        } else if c == '"' {
            out.push('\\');
            out.push('"');
        } else if c == '\'' {
            out.push('\\');
            out.push('\'');
        } else {
            out.push(c);
        }
        j += 1;
        assert(out@ == log_escape(cut.take(j as int)));
    }
    assert(cut.take(n as int) == cut);
    string_of(&out)
}

/// The largest request body accepted, in bytes: the configured size (10 MiB
/// unless set) within 1 MiB..=50 MiB.
pub fn max_body_size(configured: Option<usize>) -> (r: usize)
    ensures
        r == ({
            let c: int = match configured { Some(v) => v as int, None => 10485760int };
            if c < 1048576 { 1048576int } else if c > 52428800 { 52428800int } else { c }
        }),
{
    let c: usize = match configured {
        Some(v) => v,
        None => 10 * 1024 * 1024,
    };
    if c < 1024 * 1024 {
        1024 * 1024
    } else if c > 50 * 1024 * 1024 {
        50 * 1024 * 1024
    } else {
        c
    }
}

/// Whether a request declares a body over the limit: a POST or PUT whose
/// declared length exceeds `max_body`.
pub open spec fn body_too_large(method: Seq<char>, content_length: Option<usize>, max_body: usize) -> bool {
    (method == "POST"@ || method == "PUT"@) && (content_length matches Some(n) && n > max_body)
}

/// The checks made on every request before it is handled: a URL path with
/// a traversal attempt is refused (400 `INVALID_PATH`); a POST or PUT that
/// declares a body larger than `max_body` bytes is refused (413
/// `PAYLOAD_TOO_LARGE`).
pub fn check_request(uri_path: &str, method: &str, content_length: Option<usize>, max_body: usize) -> (r: Result<(), Rejection>)
    ensures
        is_path_traversal(uri_path@) ==> (r matches Err(e) && e.status == 400 && e.code@ == "INVALID_PATH"@
            && e.message@ == "Path traversal detected in request"@ && e.body_has_status),
        !is_path_traversal(uri_path@) && body_too_large(method@, content_length, max_body)
            ==> (r matches Err(e) && e.status == 413 && e.code@ == "PAYLOAD_TOO_LARGE"@ && e.message@
            == "Request body exceeds maximum size of "@ + dec(max_body as nat) + " bytes"@ && e.body_has_status),
        !is_path_traversal(uri_path@) && !body_too_large(method@, content_length, max_body) ==> r is Ok,
{
    if contains_path_traversal(uri_path) {
        return Err(
            Rejection {
                status: 400,
                code: String::from_str("INVALID_PATH"),
                message: String::from_str("Path traversal detected in request"),
                body_has_status: true,
            },
        );
    }
    let writes = crate::text::str_eq(method, "POST") || crate::text::str_eq(method, "PUT");
    if writes {
        if let Some(n) = content_length {
            if n > max_body {
                let d = crate::text::u64_string(max_body as u64);
                return Err(
                    Rejection {
                        status: 413,
                        code: String::from_str("PAYLOAD_TOO_LARGE"),
                        message: crate::text::concat3(
                            "Request body exceeds maximum size of ",
                            d.as_str(),
                            " bytes",
                        ),
                        body_has_status: true,
                    },
                );
            }
        }
    }
    Ok(())
}

} // verus!
