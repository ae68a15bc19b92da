//! Optional bearer-token authentication.

use vstd::prelude::*;
use vstd::string::StringSliceAdditionalSpecFns;

verus! {

/// The bytes of `Bearer ` (with the trailing space).
pub open spec fn bearer_prefix() -> Seq<u8> {
    seq![66u8, 101u8, 97u8, 114u8, 101u8, 114u8, 32u8]
}

/// Whether an `Authorization` header value carries `token` as a bearer token.
pub open spec fn is_bearer_for(header: Seq<u8>, token: Seq<u8>) -> bool {
    header.len() >= 7 && header.take(7) == bearer_prefix() && header.skip(7) == token
}

/// The authentication decision. Without a configured token, or with an
/// empty one (which counts as unset), every request passes; with one, the
/// `Authorization` header must be `Bearer <token>`
/// with exactly that token. The tokens are compared in time that depends on
/// their length only.
pub fn authorize(expected: Option<&str>, authorization: Option<&str>) -> (r: bool)
    ensures
        r == match expected {
            None => true,
            Some(t) => t.spec_bytes().len() == 0 || (authorization matches Some(h) && is_bearer_for(
                h.spec_bytes(),
                t.spec_bytes(),
            )),
        },
{
    let t = match expected {
        None => return true,
        Some(t) => t,
    };
    let tb = t.as_bytes();
    if tb.len() == 0 {
        return true;
    }
    let h = match authorization {
        None => return false,
        Some(h) => h,
    };
    let hb = h.as_bytes();
    if hb.len() < 7 {
        return false;
    }
    let mut i: usize = 0;
    while i < 7
        invariant
            expected == Some(t),
            authorization == Some(h),
            hb@ == h.spec_bytes(),
            tb@ == t.spec_bytes(),
            tb.len() > 0,
            hb.len() >= 7,
            i <= 7,
            forall|k: int| 0 <= k < i ==> hb@[k] == bearer_prefix()[k],
        decreases 7 - i,
    {
        let want: u8 = if i == 0 { 66 } else if i == 1 { 101 } else if i == 2 { 97 } else if i == 3 {
            114
        } else if i == 4 { 101 } else if i == 5 { 114 } else { 32 };
        assert(want == bearer_prefix()[i as int]);
        if hb[i] != want {
            assert(hb@.take(7)[i as int] != bearer_prefix()[i as int]);
            assert(hb@.take(7) != bearer_prefix());
            return false;
        }
        i += 1;
    }
    assert(hb@.take(7) =~= bearer_prefix());
    if hb.len() - 7 != tb.len() {
        assert(hb@.skip(7).len() != tb@.len());
        return false;
    }
    let mut diff: u8 = 0;
    let mut j: usize = 0;
    while j < tb.len()
        invariant
            hb@ == h.spec_bytes(),
            tb@ == t.spec_bytes(),
            hb.len() == tb.len() + 7,
            j <= tb.len(),
            (diff == 0) == (forall|k: int| 0 <= k < j ==> hb@[k + 7] == tb@[k]),
        decreases tb.len() - j,
    {
        let a = hb[j + 7];
        let b = tb[j];
        let x = a ^ b;
        assert((x == 0) == (a == b)) by (bit_vector)
            requires
                x == a ^ b,
        ;
        let nd = diff | x;
        assert((nd == 0) == (diff == 0 && x == 0)) by (bit_vector)
            requires
                nd == diff | x,
        ;
        diff = nd;
        j += 1;
    }
    if diff == 0 {
        assert(hb@.skip(7) =~= tb@);
        true
    } else {
        let ghost k = choose|k: int| 0 <= k < tb.len() && hb@[k + 7] != tb@[k];
        assert(hb@.skip(7)[k] != tb@[k]);
        false
    }
}

} // verus!
