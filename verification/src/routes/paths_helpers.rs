//! The volume a path lies on.

use vstd::prelude::*;
use crate::text::{chars_of, seq_starts_with, starts_with_str, string_of};

verus! {

/// The volume root of a path on a Unix-like system: always `/`.
pub fn get_volume_root(_path: &str) -> (r: String)
    ensures
        r@ == "/"@,
{
    String::from_str("/")
}

/// The position of the first `\` in `s` at or after `from`, if any.
pub open spec fn next_backslash(s: Seq<char>, from: int) -> Option<int> {
    if exists|i: int| from <= i < s.len() && s[i] == '\\' {
        Some(choose|i: int| from <= i < s.len() && s[i] == '\\' && forall|j: int| from <= j < i ==> s[j] != '\\')
    } else {
        None
    }
}

/// The volume root of a Windows path: `X:\` for a path whose second
/// character is a colon; `\\server\share` for a UNC path with both parts
/// (the part separators being backslashes); `C:\` otherwise.
pub open spec fn volume_root_windows(p: Seq<char>) -> Seq<char> {
    if p.len() >= 2 && p[1] == ':' {
        seq![p[0], ':', '\\']
    } else if seq_starts_with(p, "\\\\"@) {
        match unc_root(unc_rest(p)) {
            Some(r) => r,
            None => "C:\\"@,
        }
    } else {
        "C:\\"@
    }
}

/// `p` without its leading pairs of backslashes.
pub open spec fn unc_rest(p: Seq<char>) -> Seq<char>
    decreases p.len(),
{
    if p.len() >= 2 && p[0] == '\\' && p[1] == '\\' {
        unc_rest(p.skip(2))
    } else {
        p
    }
}

fn first_backslash_from(s: &Vec<char>, from: usize) -> (r: Option<usize>)
    requires
        from <= s.len(),
    ensures
        r matches Some(i) ==> next_backslash(s@, from as int) == Some(i as int) && from <= i < s.len(),
        r is None ==> next_backslash(s@, from as int) is None,
{
    let mut i = from;
    while i < s.len() && s[i] != '\\'
        invariant
            from <= i <= s.len(),
            forall|j: int| from <= j < i ==> s@[j] != '\\',
        decreases s.len() - i,
    {
        i += 1;
    }
    if i == s.len() {
        return None;
    }
    proof {
        let c = choose|k: int| from <= k < s@.len() && s@[k] == '\\' && forall|j: int| from <= j < k ==> s@[j] != '\\';
        assert(c == i) by {
            if c < i {
            } else if c > i {
                assert(s@[i as int] == '\\');
            }
        }
    }
    Some(i)
}

fn copy_range(s: &Vec<char>, lo: usize, hi: usize, out: &mut Vec<char>)
    requires
        lo <= hi <= s.len(),
    ensures
        final(out)@ == old(out)@ + s@.subrange(lo as int, hi as int),
{
    let mut i = lo;
    while i < hi
        invariant
            lo <= i <= hi,
            hi <= s.len(),
            out@ == old(out)@ + s@.subrange(lo as int, i as int),
        decreases hi - i,
    {
        out.push(s[i]);
        i += 1;
        assert(out@ =~= old(out)@ + s@.subrange(lo as int, i as int));
    }
}

fn unc_rest_exec(p: &Vec<char>) -> (r: Vec<char>)
    ensures
        r@ == unc_rest(p@),
{
    let mut start: usize = 0;
    assert(p@.skip(0) == p@);
    while start < p.len() && start + 1 < p.len() && p[start] == '\\' && p[start + 1] == '\\'
        invariant
            start <= p.len(),
            unc_rest(p@.skip(start as int)) == unc_rest(p@),
        decreases p.len() - start,
    {
        assert(p@.skip(start as int).skip(2) == p@.skip(start as int + 2));
        start += 2;
    }
    let mut rest: Vec<char> = Vec::new();
    copy_range(p, start, p.len(), &mut rest);
    assert(rest@ =~= p@.skip(start as int));
    rest
}

/// The `\\server\share` root named by the text after a UNC path's leading
/// backslashes, when it has both parts.
pub open spec fn unc_root(rest: Seq<char>) -> Option<Seq<char>> {
    match next_backslash(rest, 0) {
        Some(i) => {
            let server = rest.take(i);
            let after = rest.skip(i + 1);
            let share = match next_backslash(after, 0) {
                Some(j) => after.take(j),
                None => after,
            };
            Some("\\\\"@ + server + seq!['\\'] + share)
        },
        None => None,
    }
}

fn prefix_until_backslash(s: &Vec<char>) -> (r: Vec<char>)
    ensures
        r@ == match next_backslash(s@, 0) {
            Some(j) => s@.take(j),
            None => s@,
        },
{
    let end = match first_backslash_from(s, 0) {
        Some(j) => j,
        None => s.len(),
    };
    let mut out: Vec<char> = Vec::new();
    copy_range(s, 0, end, &mut out);
    assert(out@ =~= s@.subrange(0, end as int));
    proof {
        if next_backslash(s@, 0) is None {
            assert(s@.subrange(0, s@.len() as int) =~= s@);
        }
    }
    out
}

#[verifier::rlimit(30)]
fn unc_root_exec(rest: &Vec<char>) -> (r: Option<Vec<char>>)
    ensures
        match unc_root(rest@) {
            Some(x) => r matches Some(v) && v@ == x,
            None => r is None,
        },
{
    proof {
        reveal_strlit("\\\\");
    }
    match first_backslash_from(rest, 0) {
        None => None,
        Some(i) => {
            let mut server: Vec<char> = Vec::new();
            copy_range(rest, 0, i, &mut server);
            assert(server@ =~= rest@.take(i as int));
            let mut after: Vec<char> = Vec::new();
            copy_range(rest, i + 1, rest.len(), &mut after);
            assert(after@ =~= rest@.skip(i as int + 1));
            let share = prefix_until_backslash(&after);
            let mut v: Vec<char> = Vec::new();
            v.push('\\');
            v.push('\\');
            crate::text::extend_chars(&mut v, &server);
            v.push('\\');
            crate::text::extend_chars(&mut v, &share);
            assert("\\\\"@ =~= seq!['\\', '\\']);
            assert(v@ =~= "\\\\"@ + server@ + seq!['\\'] + share@);
            Some(v)
        },
    }
}

/// The volume root of a path on Windows.
pub fn get_volume_root_windows(path: &str) -> (r: String)
    ensures
        r@ == volume_root_windows(path@),
{
    let p = chars_of(path);
    if p.len() >= 2 && p[1] == ':' {
        let mut v: Vec<char> = Vec::new();
        v.push(p[0]);
        v.push(':');
        v.push('\\');
        assert(v@ =~= seq![p@[0], ':', '\\']);
        return string_of(&v);
    }
    if !starts_with_str(&p, "\\\\") {
        return String::from_str("C:\\");
    }
    let rest = unc_rest_exec(&p);
    match unc_root_exec(&rest) {
        None => String::from_str("C:\\"),
        Some(v) => string_of(&v),
    }
}

} // verus!
