//! The desktop shell's decisions: where it looks for the server program,
//! the inline page it shows while the server starts, and the database
//! location it hands the server.

use vstd::prelude::*;
use crate::paths::{parent_of, file_name_of, path_file_name, path_parent, path_pushed, push_part, PartText, PathPart};
use crate::scanner::globs::texts;
use crate::text::{chars_of, extend_str, str_eq, string_of, to_lowercase, unicode_lowercase};

verus! {

/// What a character becomes in a `data:` URL: letters, digits and
/// `-_.~/:=&;,'()!*` stay; space, `<`, `>`, `"`, `#`, `%`, line feed and
/// carriage return are percent-encoded; anything else stays.
pub open spec fn data_url_char(c: char) -> Seq<char> {
    if c == ' ' {
        "%20"@
    } else if c == '<' {
        "%3C"@
    } else if c == '>' {
        "%3E"@
    } else if c == '"' {
        "%22"@
    } else if c == '#' {
        "%23"@
    } else if c == '%' {
        "%25"@
    } else if c == '\n' {
        "%0A"@
    } else if c == '\r' {
        "%0D"@
    } else {
        seq![c]
    }
}

/// A text encoded for a `data:` URL.
pub open spec fn data_url_encoded(s: Seq<char>) -> Seq<char>
    decreases s.len(),
{
    if s.len() == 0 {
        s
    } else {
        data_url_encoded(s.drop_last()) + data_url_char(s.last())
    }
}

/// The characters a `data:` URL cannot carry as they are.
pub open spec fn data_url_unsafe(c: char) -> bool {
    c == ' ' || c == '<' || c == '>' || c == '"' || c == '#' || c == '\n' || c == '\r'
}

/// An encoded text holds none of the characters a `data:` URL cannot carry.
pub proof fn lemma_data_url_encoding_is_safe(s: Seq<char>)
    ensures
        forall|i: int| 0 <= i < data_url_encoded(s).len() ==> !data_url_unsafe(#[trigger] data_url_encoded(s)[i]),
    decreases s.len(),
{
    reveal_strlit("%20");
    reveal_strlit("%3C");
    reveal_strlit("%3E");
    reveal_strlit("%22");
    reveal_strlit("%23");
    reveal_strlit("%25");
    reveal_strlit("%0A");
    reveal_strlit("%0D");
    if s.len() > 0 {
        lemma_data_url_encoding_is_safe(s.drop_last());
        let a = data_url_encoded(s.drop_last());
        let b = data_url_char(s.last());
        assert forall|i: int| 0 <= i < data_url_encoded(s).len() implies !data_url_unsafe(#[trigger] data_url_encoded(s)[i]) by {
            if i < a.len() {
                assert(data_url_encoded(s)[i] == a[i]);
            } else {
                assert(data_url_encoded(s)[i] == b[i - a.len()]);
            }
        }
    }
}

/// Encodes a text for a `data:` URL.
pub fn percent_encode_for_data_url(input: &str) -> (r: String)
    ensures
        r@ == data_url_encoded(input@),
{
    let v = chars_of(input);
    let mut out: Vec<char> = Vec::new();
    let mut i: usize = 0;
    while i < v.len()
        invariant
            v@ == input@,
            i <= v.len(),
            out@ == data_url_encoded(v@.take(i as int)),
        decreases v.len() - i,
    {
        assert(v@.take(i as int + 1).drop_last() == v@.take(i as int));
        let c = v[i];
        let ghost before = out@;
        if c == ' ' {
            extend_str(&mut out, "%20");
        } else if c == '<' {
            extend_str(&mut out, "%3C");
        } else if c == '>' {
            extend_str(&mut out, "%3E");
        } else if c == '"' {
            extend_str(&mut out, "%22");
        } else if c == '#' {
            extend_str(&mut out, "%23");
        } else if c == '%' {
            extend_str(&mut out, "%25");
        } else if c == '\n' {
            extend_str(&mut out, "%0A");
        } else if c == '\r' {
            extend_str(&mut out, "%0D");
        } else {
            out.push(c);
        }
        i += 1;
        assert(out@ =~= data_url_encoded(v@.take(i as int)));
    }
    assert(v@.take(v.len() as int) == v@);
    string_of(&out)
}

/// The database URL for a database file: `sqlite://` followed by the path
/// with forward slashes, with a leading `/` added when missing.
pub open spec fn sqlite_url_for(path: Seq<char>) -> Seq<char> {
    let p = crate::scanner::globs::forward_slashes(path);
    "sqlite://"@ + if p.len() > 0 && p[0] == '/' { p } else { seq!['/'] + p }
}

/// The database URL for a database file.
pub fn sqlite_url_for_db_path(db_path: &str) -> (r: String)
    ensures
        r@ == sqlite_url_for(db_path@),
{
    let v = chars_of(db_path);
    let mut p: Vec<char> = Vec::new();
    let mut i: usize = 0;
    while i < v.len()
        invariant
            v@ == db_path@,
            i <= v.len(),
            p@ == crate::scanner::globs::forward_slashes(v@.take(i as int)),
        decreases v.len() - i,
    {
        let c = v[i];
        p.push(if c == '\\' { '/' } else { c });
        i += 1;
        assert(p@ =~= crate::scanner::globs::forward_slashes(v@.take(i as int)));
    }
    assert(v@.take(v.len() as int) == v@);
    let mut out: Vec<char> = Vec::new();
    extend_str(&mut out, "sqlite://");
    if !(p.len() > 0 && p[0] == '/') {
        out.push('/');
    }
    crate::text::extend_chars(&mut out, &p);
    assert(out@ =~= sqlite_url_for(db_path@));
    string_of(&out)
}

// ---------------------------------------------------------------------------
// Server program candidates
// ---------------------------------------------------------------------------

/// Whether the entry at `i` is the first whose lowercase form is its own.
pub open spec fn first_of_key(s: Seq<Seq<char>>, i: int) -> bool {
    forall|j: int| 0 <= j < i ==> unicode_lowercase(#[trigger] s[j]) != unicode_lowercase(s[i])
}

/// The entries of `s` that are the first of their lowercase form, in order.
pub open spec fn first_per_key(s: Seq<Seq<char>>) -> Seq<Seq<char>>
    decreases s.len(),
{
    if s.len() == 0 {
        s
    } else {
        let rest = first_per_key(s.drop_last());
        if first_of_key(s, s.len() - 1) {
            rest.push(s.last())
        } else {
            rest
        }
    }
}

/// Drops each candidate whose lowercase form an earlier one already has,
/// keeping the order of the rest.
pub fn dedup_case_insensitive(candidates: Vec<String>) -> (r: Vec<String>)
    ensures
        texts(r@) == first_per_key(texts(candidates@)),
{
    let ghost t = texts(candidates@);
    let mut keys: Vec<String> = Vec::new();
    let mut out: Vec<String> = Vec::new();
    let mut i: usize = 0;
    while i < candidates.len()
        invariant
            t == texts(candidates@),
            i <= candidates.len(),
            keys@.len() == i,
            forall|k: int| 0 <= k < i ==> (#[trigger] keys@[k])@ == unicode_lowercase(t[k]),
            texts(out@) == first_per_key(t.take(i as int)),
        decreases candidates.len() - i,
    {
        let key = to_lowercase(candidates[i].as_str());
        let mut seen = false;
        let mut j: usize = 0;
        while j < i
            invariant
                t == texts(candidates@),
                i < candidates.len(),
                j <= i,
                keys@.len() == i,
                forall|k: int| 0 <= k < i ==> (#[trigger] keys@[k])@ == unicode_lowercase(t[k]),
                key@ == unicode_lowercase(t[i as int]),
                seen == exists|k: int| 0 <= k < j && unicode_lowercase(#[trigger] t[k]) == unicode_lowercase(t[i as int]),
            decreases i - j,
        {
            if str_eq(keys[j].as_str(), key.as_str()) {
                seen = true;
            }
            proof {
                assert(keys@[j as int]@ == unicode_lowercase(t[j as int]));
            }
            j += 1;
        }
        let ghost s1 = t.take(i + 1);
        assert(s1.drop_last() =~= t.take(i as int));
        assert(first_of_key(s1, i as int) == !seen) by {
            if seen {
                let k = choose|k: int| 0 <= k < i && unicode_lowercase(#[trigger] t[k]) == unicode_lowercase(t[i as int]);
                assert(s1[k] == t[k]);
            } else {
                assert forall|k: int| 0 <= k < i implies unicode_lowercase(#[trigger] s1[k]) != unicode_lowercase(s1[i as int]) by {
                    assert(s1[k] == t[k]);
                }
            }
        }
        if !seen {
            let c = candidates[i].clone();
            out.push(c);
            assert(texts(out@) =~= first_per_key(t.take(i as int)).push(t[i as int]));
        } else {
            assert(texts(out@) =~= first_per_key(s1));
        }
        keys.push(key);
        i += 1;
    }
    assert(t.take(candidates.len() as int) =~= t);
    out
}

/// Where the server program may lie next to the desktop program, by name.
pub open spec fn program_dir_names() -> Seq<Seq<char>> {
    seq![
        "speicherwald-backend.exe"@,
        "speicherwald-backend"@,
        "speicherwald.exe"@,
        "speicherwald"@,
        "..\\resources\\speicherwald-backend.exe"@,
        "..\\resources\\speicherwald.exe"@,
        "..\\resources\\speicherwald"@,
    ]
}

/// Where the server program may lie in a source checkout, by name.
pub open spec fn checkout_names() -> Seq<Seq<char>> {
    seq![
        "target\\release\\speicherwald.exe"@,
        "target\\debug\\speicherwald.exe"@,
        "speicherwald.exe"@,
        "target\\release\\speicherwald-backend.exe"@,
        "target\\debug\\speicherwald-backend.exe"@,
    ]
}

/// Each name joined onto `dir` (`PathBuf::join`).
pub open spec fn joined_all(dir: Seq<char>, names: Seq<Seq<char>>) -> Seq<Seq<char>> {
    names.map_values(|n: Seq<char>| path_pushed(dir, PartText::Normal(n)))
}

/// The checkout a working directory belongs to: its parent when it is the
/// `desktop` directory, else itself.
pub open spec fn checkout_root(cwd: Seq<char>) -> Seq<char> {
    if path_file_name(cwd) == Some("desktop"@) {
        match path_parent(cwd) {
            Some(p) => p,
            None => cwd,
        }
    } else {
        cwd
    }
}

/// The places the server program is looked for, in order, before
/// duplicates are dropped: the configured path, then the names next to the
/// desktop program, then those in the checkout of the working directory.
pub open spec fn backend_candidates(
    configured: Option<Seq<char>>,
    exe: Option<Seq<char>>,
    cwd: Option<Seq<char>>,
) -> Seq<Seq<char>> {
    let a = match configured {
        Some(p) => seq![p],
        None => Seq::empty(),
    };
    let b = match exe {
        Some(e) => match path_parent(e) {
            Some(d) => joined_all(d, program_dir_names()),
            None => Seq::empty(),
        },
        None => Seq::empty(),
    };
    let c = match cwd {
        Some(w) => joined_all(checkout_root(w), checkout_names()),
        None => Seq::empty(),
    };
    a + b + c
}

/// The text of an optional string.
pub open spec fn opt_text(o: Option<String>) -> Option<Seq<char>> {
    match o {
        Some(s) => Some(s@),
        None => None,
    }
}

/// Joins each name onto `dir`, appending the results to `out`.
fn push_joined(out: &mut Vec<String>, dir: &str, names: &Vec<&str>)
    ensures
        texts(final(out)@) == texts(old(out)@) + names@.map_values(
            |n: &str| path_pushed(dir@, PartText::Normal(n@)),
        ),
{
    let ghost start = texts(out@);
    let mut i: usize = 0;
    while i < names.len()
        invariant
            i <= names.len(),
            texts(out@) == start + names@.take(i as int).map_values(
                |n: &str| path_pushed(dir@, PartText::Normal(n@)),
            ),
        decreases names.len() - i,
    {
        let name = String::from_str(names[i]);
        assert(name@ == names@[i as int]@);
        let part = PathPart::Normal(name);
        let p = push_part(dir, &part);
        assert(p@ == path_pushed(dir@, PartText::Normal(names@[i as int]@)));
        let ghost before = texts(out@);
        out.push(p);
        assert(texts(out@) =~= before.push(p@));
        assert(names@.take(i + 1) =~= names@.take(i as int).push(names@[i as int]));
        i += 1;
        assert(texts(out@) =~= start + names@.take(i as int).map_values(
            |n: &str| path_pushed(dir@, PartText::Normal(n@)),
        ));
    }
    assert(names@.take(names.len() as int) =~= names@);
}

/// The places the server program is looked for, in order, each once (paths
/// that differ only in letter case count as one): the configured path
/// (`configured`), the names next to the desktop program (`exe`, the
/// desktop program's own path), and those in the checkout of the working
/// directory (`cwd`).
pub fn candidate_backend_paths(configured: Option<String>, exe: Option<String>, cwd: Option<String>) -> (r: Vec<String>)
    ensures
        texts(r@) == first_per_key(
            backend_candidates(opt_text(configured), opt_text(exe), opt_text(cwd)),
        ),
{
    proof {
        reveal_strlit("speicherwald-backend.exe");
        reveal_strlit("speicherwald-backend");
        reveal_strlit("speicherwald.exe");
        reveal_strlit("speicherwald");
        reveal_strlit("..\\resources\\speicherwald-backend.exe");
        reveal_strlit("..\\resources\\speicherwald.exe");
        reveal_strlit("..\\resources\\speicherwald");
        reveal_strlit("target\\release\\speicherwald.exe");
        reveal_strlit("target\\debug\\speicherwald.exe");
        reveal_strlit("target\\release\\speicherwald-backend.exe");
        reveal_strlit("target\\debug\\speicherwald-backend.exe");
        reveal_strlit("desktop");
    }
    let mut v: Vec<String> = Vec::new();
    match &configured {
        Some(p) => v.push(p.clone()),
        None => {},
    }
    let ghost a = texts(v@);
    match &exe {
        Some(e) => match parent_of(e.as_str()) {
            Some(dir) => {
                let names: Vec<&str> = vec![
                    "speicherwald-backend.exe",
                    "speicherwald-backend",
                    "speicherwald.exe",
                    "speicherwald",
                    "..\\resources\\speicherwald-backend.exe",
                    "..\\resources\\speicherwald.exe",
                    "..\\resources\\speicherwald",
                ];
                push_joined(&mut v, dir.as_str(), &names);
                assert(names@.map_values(|n: &str| path_pushed(dir@, PartText::Normal(n@)))
                    =~= joined_all(dir@, program_dir_names()));
            },
            None => {},
        },
        None => {},
    }
    let ghost ab = texts(v@);
    match &cwd {
        Some(w) => {
            let is_desktop = match file_name_of(w.as_str()) {
                Some(n) => str_eq(n.as_str(), "desktop"),
                None => false,
            };
            let root: String = if is_desktop {
                match parent_of(w.as_str()) {
                    Some(p) => p,
                    None => w.clone(),
                }
            } else {
                w.clone()
            };
            assert(root@ == checkout_root(w@));
            let names: Vec<&str> = vec![
                "target\\release\\speicherwald.exe",
                "target\\debug\\speicherwald.exe",
                "speicherwald.exe",
                "target\\release\\speicherwald-backend.exe",
                "target\\debug\\speicherwald-backend.exe",
            ];
            push_joined(&mut v, root.as_str(), &names);
            assert(names@.map_values(|n: &str| path_pushed(root@, PartText::Normal(n@)))
                =~= joined_all(root@, checkout_names()));
        },
        None => {},
    }
    assert(texts(v@) =~= backend_candidates(opt_text(configured), opt_text(exe), opt_text(cwd)));
    dedup_case_insensitive(v)
}

/// The folder of the desktop program's database under the user's local
/// application data folder.
pub open spec fn user_db_dir(local_app_data: Seq<char>) -> Seq<char> {
    path_pushed(local_app_data, PartText::Normal("SpeicherWald"@))
}

/// Where the desktop program keeps its database, given the user's local
/// application data folder: the folder to create, and the database URL to
/// hand the server (that of `speicherwald.db` in that folder).
pub fn user_db_location(local_app_data: &str) -> (r: (String, String))
    ensures
        r.0@ == user_db_dir(local_app_data@),
        r.1@ == sqlite_url_for(path_pushed(r.0@, PartText::Normal("speicherwald.db"@))),
{
    let dir = push_part(local_app_data, &PathPart::Normal(String::from_str("SpeicherWald")));
    let file = push_part(dir.as_str(), &PathPart::Normal(String::from_str("speicherwald.db")));
    let url = sqlite_url_for_db_path(file.as_str());
    (dir, url)
}


// ---------------------------------------------------------------------------
// Starting the server and opening the window
// ---------------------------------------------------------------------------

/// The environment the desktop shell starts the server with: the port, the
/// loopback host and, when known, the database URL.
pub open spec fn backend_env_of(port: u16, db_url: Option<Seq<char>>) -> Seq<(Seq<char>, Seq<char>)> {
    seq![
        ("SPEICHERWALD__SERVER__PORT"@, crate::text::dec(port as nat)),
        ("SPEICHERWALD__SERVER__HOST"@, "127.0.0.1"@),
    ] + match db_url {
        Some(u) => seq![("SPEICHERWALD__DATABASE__URL"@, u)],
        None => Seq::empty(),
    }
}

/// The characters of each pair of strings.
pub open spec fn pair_texts(v: Seq<(String, String)>) -> Seq<(Seq<char>, Seq<char>)> {
    v.map_values(|p: (String, String)| (p.0@, p.1@))
}

/// The environment the desktop shell starts the server with.
pub fn backend_env(port: u16, db_url: Option<String>) -> (r: Vec<(String, String)>)
    ensures
        pair_texts(r@) == backend_env_of(
            port,
            match db_url {
                Some(u) => Some(u@),
                None => None,
            },
        ),
{
    let mut v: Vec<(String, String)> = Vec::new();
    v.push((String::from_str("SPEICHERWALD__SERVER__PORT"), crate::text::u64_string(port as u64)));
    v.push((String::from_str("SPEICHERWALD__SERVER__HOST"), String::from_str("127.0.0.1")));
    let ghost base = pair_texts(v@);
    match db_url {
        Some(u) => {
            v.push((String::from_str("SPEICHERWALD__DATABASE__URL"), u));
        },
        None => {},
    }
    assert(pair_texts(v@) =~= backend_env_of(
        port,
        match db_url {
            Some(u) => Some(u@),
            None => None,
        },
    ));
    v
}

/// The start of an HTTP answer that means the server is ready.
pub open spec fn ready_status_line() -> Seq<u8> {
    seq![72u8, 84u8, 84u8, 80u8, 47u8, 49u8, 46u8, 49u8, 32u8, 50u8, 48u8, 48u8]
}

/// Whether the first bytes of an answer to the health check say the
/// server is ready: they begin with `HTTP/1.1 200`.
pub fn ready_response(head: &[u8]) -> (b: bool)
    ensures
        b == (head@.len() >= 12 && head@.take(12) == ready_status_line()),
{
    let expected: [u8; 12] = [72, 84, 84, 80, 47, 49, 46, 49, 32, 50, 48, 48];
    if head.len() < 12 {
        return false;
    }
    let mut i: usize = 0;
    while i < 12
        invariant
            head@.len() >= 12,
            i <= 12,
            expected@ == ready_status_line(),
            forall|k: int| 0 <= k < i ==> head@[k] == ready_status_line()[k],
        decreases 12 - i,
    {
        if head[i] != expected[i] {
            assert(head@.take(12)[i as int] != ready_status_line()[i as int]);
            return false;
        }
        i += 1;
    }
    assert(head@.take(12) =~= ready_status_line());
    true
}

/// The window the desktop shell opens once the server was started: the
/// application at `http://127.0.0.1:<port>/` when the server became ready,
/// else its health check page with a title saying the server cannot be
/// reached. The URL comes first, the title second.
pub open spec fn main_window_of(port: u16, ready: bool) -> (Seq<char>, Seq<char>) {
    if ready {
        ("http://127.0.0.1:"@ + crate::text::dec(port as nat) + "/"@, "SpeicherWald"@)
    } else {
        (
            "http://127.0.0.1:"@ + crate::text::dec(port as nat) + "/healthz"@,
            "SpeicherWald – Backend nicht erreichbar"@,
        )
    }
}

/// The window the desktop shell opens once the server was started.
pub fn main_window(port: u16, ready: bool) -> (r: (String, String))
    ensures
        (r.0@, r.1@) == main_window_of(port, ready),
{
    let p = crate::text::u64_string(port as u64);
    if ready {
        (crate::text::concat3("http://127.0.0.1:", p.as_str(), "/"), String::from_str("SpeicherWald"))
    } else {
        (
            crate::text::concat3("http://127.0.0.1:", p.as_str(), "/healthz"),
            String::from_str("SpeicherWald – Backend nicht erreichbar"),
        )
    }
}

/// The page shown when the server could not be started, naming the error.
pub open spec fn error_page(error: Seq<char>) -> Seq<char> {
    "<html><head><meta charset='utf-8'><title>SpeicherWald – Fehler</title></head>\n<body style='font-family:Segoe UI, sans-serif; padding:20px;'>\n  <h2>SpeicherWald – Backend konnte nicht gestartet werden</h2>\n  <p style='color:#b00020;'>Fehler: "@
        + error
        + "</p>\n  <p>Bitte prüfen Sie:</p>\n  <ul>\n    <li>Liegt <code>speicherwald.exe</code> im selben Ordner wie <code>SpeicherWald.exe</code>?</li>\n    <li>Wurde die Datei ggf. von SmartScreen blockiert? Rechtsklick → Eigenschaften → Zulassen.</li>\n    <li>Test: Starten Sie <code>speicherwald.exe</code> in PowerShell und öffnen Sie dann <a href='http://127.0.0.1:8080/'>http://127.0.0.1:8080/</a>.</li>\n  </ul>\n</body></html>"@
}

/// The `data:` URL of the page shown when the server could not be
/// started.
pub fn error_page_url(error: &str) -> (r: String)
    ensures
        r@ == "data:text/html,"@ + data_url_encoded(error_page(error@)),
{
    let html = crate::text::concat3(
        "<html><head><meta charset='utf-8'><title>SpeicherWald – Fehler</title></head>\n<body style='font-family:Segoe UI, sans-serif; padding:20px;'>\n  <h2>SpeicherWald – Backend konnte nicht gestartet werden</h2>\n  <p style='color:#b00020;'>Fehler: ",
        error,
        "</p>\n  <p>Bitte prüfen Sie:</p>\n  <ul>\n    <li>Liegt <code>speicherwald.exe</code> im selben Ordner wie <code>SpeicherWald.exe</code>?</li>\n    <li>Wurde die Datei ggf. von SmartScreen blockiert? Rechtsklick → Eigenschaften → Zulassen.</li>\n    <li>Test: Starten Sie <code>speicherwald.exe</code> in PowerShell und öffnen Sie dann <a href='http://127.0.0.1:8080/'>http://127.0.0.1:8080/</a>.</li>\n  </ul>\n</body></html>",
    );
    let encoded = percent_encode_for_data_url(html.as_str());
    crate::text::concat("data:text/html,", encoded.as_str())
}


} // verus!
