//! Exclude patterns: which configured globs a scan uses, and matching paths
//! against them with the `globset` crate.

use globset::{Glob, GlobSet, GlobSetBuilder};
use vstd::prelude::*;
use crate::text::{char_count, chars_of, concat3, contains_char, count_char, has_char, string_of, trim, trimmed, concat};

verus! {

#[verifier::external_type_specification]
#[verifier::external_body]
pub struct ExGlob(Glob);

#[verifier::external_type_specification]
#[verifier::external_body]
pub struct ExGlobSet(GlobSet);

#[verifier::external_type_specification]
#[verifier::external_body]
pub struct ExGlobSetBuilder(GlobSetBuilder);

#[verifier::external_type_specification]
#[verifier::external_body]
pub struct ExGlobError(globset::Error);

/// The pattern text a glob holds (what `Glob::glob` returns).
pub uninterp spec fn glob_pattern(g: Glob) -> Seq<char>;

/// Whether `Glob::new` accepts a pattern.
pub uninterp spec fn glob_accepts(p: Seq<char>) -> bool;

/// The patterns of the globs added to a builder, in order.
pub uninterp spec fn builder_patterns(b: GlobSetBuilder) -> Seq<Seq<char>>;

/// Whether a path matches at least one of the globs compiled (with
/// `Glob::new`'s default options) from the given patterns, as
/// `GlobSet::is_match` decides.
pub uninterp spec fn globs_match(patterns: Seq<Seq<char>>, path: Seq<char>) -> bool;

/// Whether `GlobSetBuilder::build` succeeds for a builder holding globs
/// (made by `Glob::new`) with these patterns, in this order.
pub uninterp spec fn globset_builds(patterns: Seq<Seq<char>>) -> bool;

/// A compiled exclude set. Only `build_globset` makes one, so every set it
/// holds was built by `GlobSetBuilder::build` from globs made by `Glob::new`
/// with its default options.
pub struct ExcludeSet {
    set: GlobSet,
    /// The patterns of the builder's globs when the set was built, in order.
    built_from: Ghost<Seq<Seq<char>>>,
}

impl ExcludeSet {
    /// The patterns of the globs the set was built from, in order.
    pub closed spec fn patterns(&self) -> Seq<Seq<char>> {
        self.built_from@
    }
}

/// Calls `Glob::new`. Trusted: whether it succeeds depends on the pattern
/// alone, and a glob it returns holds that pattern.
#[verifier::external_body]
pub(crate) fn glob_new(pattern: &str) -> (r: Result<Glob, globset::Error>)
    ensures
        r is Ok == glob_accepts(pattern@),
        r matches Ok(g) ==> glob_pattern(g) == pattern@,
{
    Glob::new(pattern)
}

/// Calls `GlobSetBuilder::new`. Trusted: the builder holds no glob.
#[verifier::external_body]
fn builder_new() -> (b: GlobSetBuilder)
    ensures
        builder_patterns(b) == Seq::<Seq<char>>::empty(),
{
    GlobSetBuilder::new()
}

/// Calls `GlobSetBuilder::add`. Trusted: the glob is appended to the ones
/// the builder holds.
#[verifier::external_body]
fn builder_add(b: &mut GlobSetBuilder, g: Glob)
    ensures
        builder_patterns(*final(b)) == builder_patterns(*old(b)).push(glob_pattern(g)),
{
    b.add(g);
}

/// Calls `GlobSetBuilder::build`. Trusted: whether it fails (the regular
/// expressions it compiles may exceed internal limits) depends on the
/// builder's globs alone. What a set it returns matches is stated, over the
/// builder's patterns, by `set_is_match`, `set_is_empty` and `set_len` for
/// the `ExcludeSet` that records them.
#[verifier::external_body]
fn builder_build(b: &GlobSetBuilder) -> (r: Result<GlobSet, globset::Error>)
    ensures
        r is Ok == globset_builds(builder_patterns(*b)),
{
    b.build()
}

/// Calls `GlobSet::is_empty` on the set an exclude set holds. Trusted: true
/// exactly when the builder held no glob when the set was built (the set's
/// length is the number of the builder's globs).
#[verifier::external_body]
fn set_is_empty(s: &ExcludeSet) -> (r: bool)
    ensures
        r == (s.patterns().len() == 0),
{
    s.set.is_empty()
}

/// Calls `GlobSet::len` on the set an exclude set holds. Trusted: the number
/// of globs the builder held when the set was built (`GlobSetBuilder::build`
/// sets the length to the number of its globs).
#[verifier::external_body]
fn set_len(s: &ExcludeSet) -> (r: usize)
    ensures
        r == s.patterns().len(),
{
    s.set.len()
}

impl ExcludeSet {
    /// The number of globs in the set.
    pub fn len(&self) -> (r: usize)
        ensures
            r == self.patterns().len(),
    {
        set_len(self)
    }
}

/// Calls `GlobSet::is_match` on the set an exclude set holds, with a path
/// given as text. Trusted: the answer depends only on the patterns of the
/// builder's globs when the set was built, and on the path. The set was built
/// by `build_globset` from globs made by `Glob::new` with its default
/// options, so each glob is determined by its pattern.
#[verifier::external_body]
fn set_is_match(s: &ExcludeSet, path: &str) -> (r: bool)
    ensures
        r == globs_match(s.patterns(), path@),
{
    s.set.is_match(path)
}

/// The text of a `globset` error (its `Display` form). Trusted: the text is
/// not empty (each kind of error has a message); which text it is is not
/// stated.
#[verifier::external_body]
pub(crate) fn glob_error_text(e: &globset::Error) -> (r: String)
    ensures
        r@.len() > 0,
{
    e.to_string()
}

/// The characters of each string.
pub open spec fn texts(v: Seq<String>) -> Seq<Seq<char>> {
    v.map_values(|s: String| s@)
}

/// `s` with every backslash turned into a forward slash.
pub open spec fn forward_slashes(s: Seq<char>) -> Seq<char> {
    s.map_values(|c: char| if c == '\\' { '/' } else { c })
}

/// Whether a configured pattern is used: once trimmed it is not empty, at
/// most 1024 bytes long, and holds at most 20 wildcards (`*` or `?`).
pub open spec fn pattern_kept(p: Seq<char>) -> bool {
    let t = trimmed(p);
    t.len() > 0 && vstd::utf8::encode_utf8(t).len() <= 1024 && count_char(t, '*') + count_char(t, '?') <= 20
}

/// The patterns a scan uses, in order: each kept pattern trimmed and with
/// forward slashes.
pub open spec fn used_patterns(ps: Seq<Seq<char>>) -> Seq<Seq<char>>
    decreases ps.len(),
{
    if ps.len() == 0 {
        Seq::empty()
    } else if pattern_kept(ps.last()) {
        used_patterns(ps.drop_last()).push(forward_slashes(trimmed(ps.last())))
    } else {
        used_patterns(ps.drop_last())
    }
}

fn forward_slashes_exec(s: &Vec<char>) -> (r: Vec<char>)
    ensures
        r@ == forward_slashes(s@),
{
    let mut out: Vec<char> = Vec::new();
    let mut i: usize = 0;
    while i < s.len()
        invariant
            i <= s.len(),
            out@ == forward_slashes(s@.take(i as int)),
        decreases s.len() - i,
    {
        let c = s[i];
        out.push(if c == '\\' { '/' } else { c });
        i += 1;
        assert(out@ =~= forward_slashes(s@.take(i as int)));
    }
    assert(s@.take(s.len() as int) == s@);
    out
}

fn pattern_kept_exec(p: &str) -> (r: Option<Vec<char>>)
    ensures
        pattern_kept(p@) ==> (r matches Some(t) && t@ == trimmed(p@)),
        !pattern_kept(p@) ==> r is None,
{
    let v = chars_of(p);
    let t = trim(&v);
    if t.len() == 0 {
        return None;
    }
    let ts = string_of(&t);
    if crate::text::byte_len(ts.as_str()) > 1024 {
        return None;
    }
    let stars = char_count(&t, '*');
    let marks = char_count(&t, '?');
    if stars > 20 || marks > 20 || stars + marks > 20 {
        return None;
    }
    Some(t)
}

/// Every pattern a scan uses is non-blank and holds no backslash.
pub proof fn lemma_used_patterns_are_clean(ps: Seq<Seq<char>>)
    ensures
        forall|k: int| 0 <= k < used_patterns(ps).len() ==> {
            let p = #[trigger] used_patterns(ps)[k];
            p.len() > 0 && !has_char(p, '\\')
        },
    decreases ps.len(),
{
    if ps.len() > 0 {
        lemma_used_patterns_are_clean(ps.drop_last());
        if pattern_kept(ps.last()) {
            let n = forward_slashes(trimmed(ps.last()));
            assert(!has_char(n, '\\'));
            let prev = used_patterns(ps.drop_last());
            assert forall|k: int| 0 <= k < used_patterns(ps).len() implies {
                let p = #[trigger] used_patterns(ps)[k];
                p.len() > 0 && !has_char(p, '\\')
            } by {
                if k < prev.len() {
                    assert(used_patterns(ps)[k] == prev[k]);
                }
            }
        }
    }
}

/// The configured patterns that a scan uses, trimmed and with forward
/// slashes.
pub fn exclude_patterns(patterns: &Vec<String>) -> (r: Vec<String>)
    ensures
        texts(r@) == used_patterns(texts(patterns@)),
{
    let ghost ps = texts(patterns@);
    let mut out: Vec<String> = Vec::new();
    let mut i: usize = 0;
    while i < patterns.len()
        invariant
            i <= patterns.len(),
            ps == texts(patterns@),
            texts(out@) == used_patterns(ps.take(i as int)),
        decreases patterns.len() - i,
    {
        assert(ps.take(i as int + 1).drop_last() == ps.take(i as int));
        assert(ps.take(i as int + 1).last() == patterns@[i as int]@);
        let ghost before = out@;
        match pattern_kept_exec(patterns[i].as_str()) {
            Some(t) => {
                let n = forward_slashes_exec(&t);
                out.push(string_of(&n));
                assert(texts(out@) =~= texts(before).push(
                    n@,
                ));
            },
            None => {},
        }
        i += 1;
    }
    assert(ps.take(patterns.len() as int) == ps);
    out
}

/// Why an exclude set could not be built.
#[derive(Clone, Debug)]
pub enum GlobBuildError {
    /// A used pattern is not a valid glob.
    InvalidPattern {
        /// The pattern, as used.
        pattern: String,
        /// The glob library's explanation.
        detail: String,
    },
    /// The set could not be compiled.
    Build {
        /// The glob library's explanation.
        detail: String,
    },
}

impl GlobBuildError {
    /// The error's message: `Invalid glob pattern '<pattern>': <detail>` for
    /// an invalid pattern, the library's explanation otherwise.
    pub fn message(&self) -> (r: String)
        ensures
            match self {
                GlobBuildError::InvalidPattern { pattern, detail } => r@ == "Invalid glob pattern '"@
                    + pattern@ + "': "@ + detail@,
                GlobBuildError::Build { detail } => r@ == detail@,
            },
    {
        match self {
            GlobBuildError::InvalidPattern { pattern, detail } => {
                let head = concat3("Invalid glob pattern '", pattern.as_str(), "': ");
                concat(head.as_str(), detail.as_str())
            },
            GlobBuildError::Build { detail } => detail.clone(),
        }
    }
}

/// Builds the exclude set of a scan from the configured patterns: the used
/// patterns are compiled in order; the first one that is not a valid glob
/// is reported; when all are valid, compiling the set may still fail.
pub fn build_globset(patterns: &Vec<String>) -> (r: Result<ExcludeSet, GlobBuildError>)
    ensures
        ({
            let used = used_patterns(texts(patterns@));
            &&& (forall|k: int| 0 <= k < used.len() ==> glob_accepts(used[k])) && globset_builds(used)
                ==> r is Ok
            &&& r matches Err(GlobBuildError::Build { .. }) ==> (forall|k: int|
                0 <= k < used.len() ==> glob_accepts(used[k])) && !globset_builds(used)
            &&& r matches Ok(s) ==> s.patterns() == used && forall|k: int|
                0 <= k < used.len() ==> glob_accepts(used[k])
            &&& r matches Err(GlobBuildError::InvalidPattern { pattern, .. }) ==> exists|k: int|
                0 <= k < used.len() && pattern@ == used[k] && !glob_accepts(used[k]) && forall|
                    j: int,
                | 0 <= j < k ==> glob_accepts(used[j])
            &&& (forall|k: int| 0 <= k < used.len() ==> glob_accepts(used[k])) ==> !(r matches Err(
                GlobBuildError::InvalidPattern { .. },
            ))
        }),
{
    let used = exclude_patterns(patterns);
    let ghost uv = texts(used@);
    let mut b = builder_new();
    let mut i: usize = 0;
    while i < used.len()
        invariant
            i <= used.len(),
            uv == texts(used@),
            uv == used_patterns(texts(patterns@)),
            builder_patterns(b) == uv.take(i as int),
            forall|j: int| 0 <= j < i ==> glob_accepts(uv[j]),
        decreases used.len() - i,
    {
        match glob_new(used[i].as_str()) {
            Ok(g) => {
                builder_add(&mut b, g);
                assert(uv.take(i as int + 1) == uv.take(i as int).push(uv[i as int]));
            },
            Err(e) => {
                let detail = glob_error_text(&e);
                let pattern = used[i].clone();
                assert(pattern@ == uv[i as int]);
                assert(!glob_accepts(uv[i as int]));
                assert(uv == used_patterns(texts(patterns@)));
                assert(0 <= i < uv.len() && pattern@ == uv[i as int] && !glob_accepts(uv[i as int])
                    && forall|j: int| 0 <= j < i ==> glob_accepts(uv[j]));
                return Err(GlobBuildError::InvalidPattern { pattern, detail });
            },
        }
        i += 1;
    }
    assert(uv.take(used.len() as int) == uv);
    match builder_build(&b) {
        Ok(s) => Ok(ExcludeSet { set: s, built_from: Ghost(builder_patterns(b)) }),
        Err(e) => Err(GlobBuildError::Build { detail: glob_error_text(&e) }),
    }
}

/// Whether a path is excluded by globs with these patterns: never by an
/// empty set; always when the path holds U+FFFD (it was not valid Unicode);
/// otherwise when a glob matches the path written with forward slashes.
pub open spec fn excluded_by(patterns: Seq<Seq<char>>, path: Seq<char>) -> bool {
    if patterns.len() == 0 {
        false
    } else if has_char(path, '\u{FFFD}') {
        true
    } else {
        globs_match(patterns, forward_slashes(path))
    }
}

/// Whether a path is excluded by the set (see `excluded_by`).
pub fn matches_excludes(path: &str, set: &ExcludeSet) -> (r: bool)
    ensures
        r == excluded_by(set.patterns(), path@),
{
    if set_is_empty(set) {
        return false;
    }
    let v = chars_of(path);
    if contains_char(&v, '\u{FFFD}') {
        return true;
    }
    let n = forward_slashes_exec(&v);
    let s = string_of(&n);
    set_is_match(set, s.as_str())
}

/// Whether a directory is excluded: as a path, or written with a trailing
/// `/`, so that a pattern such as `**/build/**` excludes the `build`
/// directory itself and not only what lies below it.
pub fn matches_excludes_dir(path: &str, set: &ExcludeSet) -> (r: bool)
    ensures
        r == (excluded_by(set.patterns(), path@) || excluded_by(set.patterns(), path@.push('/'))),
{
    if matches_excludes(path, set) {
        return true;
    }
    let mut v = chars_of(path);
    v.push('/');
    let s = string_of(&v);
    matches_excludes(s.as_str(), set)
}

} // verus!
