//! Stable sorting by a computed key, as listings are ordered.
//!
//! A key is a number or a text; texts compare character by character by
//! code point (the order of `String`), numbers as integers, and every number
//! comes before every text.

use vstd::prelude::*;

verus! {

/// A sort key.
#[derive(Clone, Debug)]
pub enum SortKey {
    /// A numeric key.
    Num(i64),
    /// A textual key, by its characters.
    Text(Vec<char>),
}

/// Whether text `a` comes before or equals text `b`.
pub open spec fn lex_le(a: Seq<char>, b: Seq<char>) -> bool
    decreases a.len(),
{
    if a.len() == 0 {
        true
    } else if b.len() == 0 {
        false
    } else if (a[0] as u32) != (b[0] as u32) {
        (a[0] as u32) < (b[0] as u32)
    } else {
        lex_le(a.drop_first(), b.drop_first())
    }
}

/// Whether key `a` comes before or equals key `b`.
pub open spec fn key_le(a: SortKey, b: SortKey) -> bool {
    match (a, b) {
        (SortKey::Num(x), SortKey::Num(y)) => x <= y,
        (SortKey::Text(s), SortKey::Text(t)) => lex_le(s@, t@),
        (SortKey::Num(_), SortKey::Text(_)) => true,
        (SortKey::Text(_), SortKey::Num(_)) => false,
    }
}

/// Whether two keys sort as equal.
pub open spec fn key_eq(a: SortKey, b: SortKey) -> bool {
    key_le(a, b) && key_le(b, a)
}

/// Any two texts are ordered one way or the other.
proof fn lemma_lex_total(a: Seq<char>, b: Seq<char>)
    ensures
        lex_le(a, b) || lex_le(b, a),
    decreases a.len(),
{
    if a.len() > 0 && b.len() > 0 {
        if (a[0] as u32) == (b[0] as u32) {
            lemma_lex_total(a.drop_first(), b.drop_first());
        }
    }
}

/// The text order is transitive.
proof fn lemma_lex_trans(a: Seq<char>, b: Seq<char>, c: Seq<char>)
    requires
        lex_le(a, b),
        lex_le(b, c),
    ensures
        lex_le(a, c),
    decreases a.len(),
{
    if a.len() > 0 && b.len() > 0 && c.len() > 0 && (a[0] as u32) == (b[0] as u32) && (b[0] as u32)
        == (c[0] as u32) {
        lemma_lex_trans(a.drop_first(), b.drop_first(), c.drop_first());
    }
}

/// Any two keys are ordered one way or the other.
pub proof fn lemma_key_total(a: SortKey, b: SortKey)
    ensures
        key_le(a, b) || key_le(b, a),
{
    match (a, b) {
        (SortKey::Text(s), SortKey::Text(t)) => lemma_lex_total(s@, t@),
        _ => {},
    }
}

/// The key order is transitive.
pub proof fn lemma_key_trans(a: SortKey, b: SortKey, c: SortKey)
    requires
        key_le(a, b),
        key_le(b, c),
    ensures
        key_le(a, c),
{
    match (a, b, c) {
        (SortKey::Text(s), SortKey::Text(t), SortKey::Text(u)) => lemma_lex_trans(s@, t@, u@),
        _ => {},
    }
}

fn lex_le_exec(a: &Vec<char>, b: &Vec<char>) -> (r: bool)
    ensures
        r == lex_le(a@, b@),
{
    let mut i: usize = 0;
    assert(a@.skip(0) == a@);
    assert(b@.skip(0) == b@);
    while i <= a.len() && i <= b.len()
        invariant
            i <= a.len(),
            i <= b.len(),
            lex_le(a@, b@) == lex_le(a@.skip(i as int), b@.skip(i as int)),
        decreases a.len() - i,
    {
        if i == a.len() {
            return true;
        }
        if i == b.len() {
            return false;
        }
        if (a[i] as u32) != (b[i] as u32) {
            return (a[i] as u32) < (b[i] as u32);
        }
        assert(a@.skip(i as int).drop_first() == a@.skip(i as int + 1));
        assert(b@.skip(i as int).drop_first() == b@.skip(i as int + 1));
        i += 1;
    }
    true
}

/// Compares two keys.
pub fn key_le_exec(a: &SortKey, b: &SortKey) -> (r: bool)
    ensures
        r == key_le(*a, *b),
{
    match (a, b) {
        (SortKey::Num(x), SortKey::Num(y)) => *x <= *y,
        (SortKey::Text(s), SortKey::Text(t)) => lex_le_exec(s, t),
        (SortKey::Num(_), SortKey::Text(_)) => true,
        (SortKey::Text(_), SortKey::Num(_)) => false,
    }
}

/// Whether `keys` is in order.
pub open spec fn keys_sorted(keys: Seq<SortKey>) -> bool {
    forall|i: int, j: int| 0 <= i < j < keys.len() ==> key_le(#[trigger] keys[i], #[trigger] keys[j])
}

/// Whether `p` lists each index below `n` exactly once.
pub open spec fn is_permutation(p: Seq<int>, n: nat) -> bool {
    &&& p.len() == n
    &&& forall|k: int| 0 <= k < p.len() ==> 0 <= #[trigger] p[k] < n
    &&& forall|k1: int, k2: int| 0 <= k1 < k2 < p.len() ==> #[trigger] p[k1] != #[trigger] p[k2]
}

/// Whether `out` (with keys `out_keys`) is `items` (with keys `keys`) stably
/// sorted: the same entries, keys in order, and entries with equal keys in
/// their original order.
pub open spec fn is_stable_sort<T>(items: Seq<T>, keys: Seq<SortKey>, out: Seq<T>, out_keys: Seq<SortKey>) -> bool {
    &&& items.len() == keys.len()
    &&& out.len() == items.len()
    &&& out_keys.len() == items.len()
    &&& keys_sorted(out_keys)
    &&& exists|p: Seq<int>|
        {
            &&& is_permutation(p, items.len())
            &&& forall|k: int| 0 <= k < p.len() ==> out[k] == items[#[trigger] p[k]] && out_keys[k]
                == keys[p[k]]
            &&& forall|k1: int, k2: int|
                0 <= k1 < k2 < p.len() && key_eq(out_keys[k1], out_keys[k2]) ==> #[trigger] p[k1]
                    < #[trigger] p[k2]
        }
}

/// Whether `rev` and `revk` hold the last items and keys in reverse order.
spec fn reversed_prefix<T>(rev: Seq<T>, revk: Seq<SortKey>, items: Seq<T>, keys: Seq<SortKey>) -> bool {
    &&& rev.len() == revk.len()
    &&& rev.len() <= items.len()
    &&& keys.len() == items.len()
    &&& forall|k: int|
        0 <= k < rev.len() ==> #[trigger] rev[k] == items[items.len() - 1 - k] && revk[k]
            == keys[items.len() - 1 - k]
}

/// Sorts `items` stably by `keys` (one key per item), returning the sorted
/// items and their keys.
pub fn stable_sort_by_keys<T>(items: Vec<T>, keys: Vec<SortKey>) -> (r: (Vec<T>, Vec<SortKey>))
    requires
        items.len() == keys.len(),
    ensures
        is_stable_sort(items@, keys@, r.0@, r.1@),
{
    let ghost items0 = items@;
    let ghost keys0 = keys@;
    let n = items.len();
    let mut out: Vec<T> = Vec::new();
    let mut out_keys: Vec<SortKey> = Vec::new();
    let ghost mut p: Seq<int> = Seq::empty();
    let mut src_items = items;
    let mut src_keys = keys;
    // Take items from the back so each removal is cheap, then fill `out`
    // in original order by inserting indices ascending: collect first.
    let mut rev_items: Vec<T> = Vec::new();
    let mut rev_keys: Vec<SortKey> = Vec::new();
    while src_items.len() > 0
        invariant
            src_items.len() == src_keys.len(),
            src_items.len() + rev_items.len() == n,
            rev_items.len() == rev_keys.len(),
            n == items0.len(),
            keys0.len() == items0.len(),
            src_items@ == items0.take(src_items.len() as int),
            src_keys@ == keys0.take(src_keys.len() as int),
            reversed_prefix(rev_items@, rev_keys@, items0, keys0),
        decreases src_items.len(),
    {
        let ghost len_b = src_items.len() as int;
        let ghost k0 = rev_items.len() as int;
        let ghost src_b = src_items@;
        let ghost srck_b = src_keys@;
        let it = match src_items.pop() {
            Some(x) => x,
            None => {
                assert(false);
                return (out, out_keys);
            },
        };
        let ky = match src_keys.pop() {
            Some(x) => x,
            None => {
                assert(false);
                return (out, out_keys);
            },
        };
        assert(it == src_b[len_b - 1]);
        assert(src_b[len_b - 1] == items0[n - 1 - k0]);
        assert(ky == keys0[n - 1 - k0]);
        let ghost rev_b = rev_items@;
        let ghost revk_b = rev_keys@;
        rev_items.push(it);
        rev_keys.push(ky);
        assert forall|k: int| 0 <= k < rev_items@.len() implies rev_items@[k] == items0[items0.len()
            - 1 - k] && rev_keys@[k] == keys0[items0.len() - 1 - k] by {
            if k < k0 {
                assert(rev_items@[k] == rev_b[k]);
                assert(rev_keys@[k] == revk_b[k]);
            }
        }
        assert(reversed_prefix(rev_items@, rev_keys@, items0, keys0));
        assert(src_items@ =~= items0.take(src_items.len() as int));
        assert(src_keys@ =~= keys0.take(src_keys.len() as int));
    }
    let mut i: usize = 0;
    while i < n
        invariant
            rev_items.len() == n - i,
            rev_keys.len() == n - i,
            n == items0.len(),
            keys0.len() == items0.len(),
            i <= n,
            reversed_prefix(rev_items@, rev_keys@, items0, keys0),
            out.len() == i,
            out_keys.len() == i,
            keys_sorted(out_keys@),
            is_permutation(p, i as nat),
            forall|k: int| 0 <= k < p.len() ==> out@[k] == items0[#[trigger] p[k]] && out_keys@[k]
                == keys0[p[k]],
            forall|k1: int, k2: int|
                0 <= k1 < k2 < p.len() && key_eq(out_keys@[k1], out_keys@[k2]) ==> #[trigger] p[k1]
                    < #[trigger] p[k2],
        decreases n - i,
    {
        let ghost rv = rev_items@;
        let ghost rk = rev_keys@;
        let it = match rev_items.pop() {
            Some(x) => x,
            None => {
                assert(false);
                return (out, out_keys);
            },
        };
        let ky = match rev_keys.pop() {
            Some(x) => x,
            None => {
                assert(false);
                return (out, out_keys);
            },
        };
        assert(it == rv[rv.len() - 1]);
        assert(it == items0[i as int] && ky == keys0[i as int]);
        // First position whose key is strictly after `ky`.
        let mut pos: usize = 0;
        while pos < out_keys.len() && key_le_exec(&out_keys[pos], &ky)
            invariant
                pos <= out_keys.len(),
                forall|k: int| 0 <= k < pos ==> key_le(#[trigger] out_keys@[k], ky),
            decreases out_keys.len() - pos,
        {
            pos += 1;
        }
        proof {
            if pos < out_keys.len() {
                assert(!key_le(out_keys@[pos as int], ky));
                lemma_key_total(out_keys@[pos as int], ky);
                assert forall|k: int| pos <= k < out_keys.len() implies key_le(
                    ky,
                    #[trigger] out_keys@[k],
                ) && !key_le(out_keys@[k], ky) by {
                    if k > pos {
                        assert(key_le(out_keys@[pos as int], out_keys@[k]));
                        lemma_key_trans(ky, out_keys@[pos as int], out_keys@[k]);
                        if key_le(out_keys@[k], ky) {
                            lemma_key_trans(out_keys@[pos as int], out_keys@[k], ky);
                        }
                    }
                }
            }
        }
        let ghost old_keys = out_keys@;
        let ghost old_out = out@;
        let ghost old_p = p;
        out.insert(pos, it);
        out_keys.insert(pos, ky);
        proof {
            p = old_p.insert(pos as int, i as int);
            assert(out_keys@ == old_keys.insert(pos as int, ky));
            assert(out@ == old_out.insert(pos as int, it));
            assert forall|a: int, b: int| 0 <= a < b < out_keys@.len() implies key_le(
                #[trigger] out_keys@[a],
                #[trigger] out_keys@[b],
            ) by {
                if b < pos {
                } else if a < pos && b == pos {
                } else if a < pos && b > pos {
                    assert(key_le(old_keys[a], ky));
                    lemma_key_trans(old_keys[a], ky, old_keys[b - 1]);
                } else if a == pos {
                } else {
                }
            }
            assert forall|k: int| 0 <= k < p.len() implies 0 <= #[trigger] p[k] < i + 1 by {}
            assert forall|k1: int, k2: int| 0 <= k1 < k2 < p.len() implies #[trigger] p[k1]
                != #[trigger] p[k2] by {
                if k1 < pos && k2 < pos {
                } else if k1 < pos && k2 == pos {
                } else if k1 < pos && k2 > pos {
                    assert(old_p[k1] != old_p[k2 - 1]);
                } else if k1 == pos {
                } else {
                    assert(old_p[k1 - 1] != old_p[k2 - 1]);
                }
            }
            assert forall|k: int| 0 <= k < p.len() implies out@[k] == items0[#[trigger] p[k]]
                && out_keys@[k] == keys0[p[k]] by {
                if k < pos {
                } else if k == pos {
                } else {
                    assert(out@[k] == old_out[k - 1]);
                }
            }
            assert forall|k1: int, k2: int|
                0 <= k1 < k2 < p.len() && key_eq(out_keys@[k1], out_keys@[k2]) implies #[trigger] p[k1]
                < #[trigger] p[k2] by {
                if k1 < pos && k2 < pos {
                } else if k1 < pos && k2 == pos {
                } else if k1 < pos && k2 > pos {
                    assert(key_eq(old_keys[k1], old_keys[k2 - 1]));
                } else if k1 == pos {
                    assert(!key_le(old_keys[k2 - 1], ky));
                } else {
                    assert(key_eq(old_keys[k1 - 1], old_keys[k2 - 1]));
                }
            }
        }
        i += 1;
    }
    proof {
        assert(is_permutation(p, items0.len()));
    }
    (out, out_keys)
}

/// `s` in reverse order.
pub open spec fn reversed<T>(s: Seq<T>) -> Seq<T> {
    Seq::new(s.len(), |i: int| s[s.len() - 1 - i])
}

/// Reverses a vector.
pub fn reverse_vec<T>(v: Vec<T>) -> (r: Vec<T>)
    ensures
        r@ == reversed(v@),
{
    let ghost v0 = v@;
    let mut src = v;
    let mut out: Vec<T> = Vec::new();
    while src.len() > 0
        invariant
            src@ == v0.take(src.len() as int),
            out.len() + src.len() == v0.len(),
            forall|k: int| 0 <= k < out.len() ==> out@[k] == v0[v0.len() - 1 - k],
        decreases src.len(),
    {
        let x = src.pop().unwrap();
        out.push(x);
        assert(src@ == v0.take(src.len() as int));
    }
    assert(out@ =~= reversed(v0));
    out
}

} // verus!
