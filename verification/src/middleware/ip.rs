//! Client address extraction from proxy headers.

use vstd::prelude::*;
use crate::middleware::rate_limit::ClientIp;
use crate::text::{chars_of, string_of, trim, trimmed};

verus! {

/// The loopback address 127.0.0.1.
pub open spec fn loopback() -> ClientIp {
    ClientIp::V4(0x7f00_0001)
}

/// The text before the first comma (all of it when there is none).
pub open spec fn first_segment(s: Seq<char>) -> Seq<char> {
    if exists|i: int| 0 <= i < s.len() && s[i] == ',' {
        s.take(choose|i: int| 0 <= i < s.len() && s[i] == ',' && forall|j: int| 0 <= j < i ==> s[j] != ',')
    } else {
        s
    }
}

/// The address a request comes from, given what the trimmed first entry of
/// `X-Forwarded-For` and the `X-Real-IP` value parse to as IP addresses: the
/// former when it parsed, else the latter when it parsed, else the
/// connection's address, else 127.0.0.1.
pub open spec fn client_address(
    forwarded_for: Option<ClientIp>,
    real_ip: Option<ClientIp>,
    fallback: Option<ClientIp>,
) -> ClientIp {
    if forwarded_for is Some {
        forwarded_for.unwrap()
    } else if real_ip is Some {
        real_ip.unwrap()
    } else if fallback is Some {
        fallback.unwrap()
    } else {
        loopback()
    }
}

fn first_segment_exec(s: &Vec<char>) -> (r: Vec<char>)
    ensures
        r@ == first_segment(s@),
{
    let mut out: Vec<char> = Vec::new();
    let mut i: usize = 0;
    while i < s.len()
        invariant
            i <= s.len(),
            out@ == s@.take(i as int),
            forall|j: int| 0 <= j < i ==> s@[j] != ',',
        decreases s.len() - i,
    {
        if s[i] == ',' {
            assert(exists|k: int| 0 <= k < s@.len() && s@[k] == ',');
            let ghost c = choose|k: int|
                0 <= k < s@.len() && s@[k] == ',' && forall|j: int| 0 <= j < k ==> s@[j] != ',';
            assert(c == i) by {
                if c < i {
                } else if c > i {
                    assert(s@[i as int] == ',');
                }
            }
            return out;
        }
        out.push(s[i]);
        i += 1;
    }
    assert(s@.take(s.len() as int) == s@);
    out
}

/// The part of an `X-Forwarded-For` value that names the client: the text
/// before the first comma, with surrounding whitespace removed.
pub fn forwarded_for_candidate(h: &str) -> (r: String)
    ensures
        r@ == trimmed(first_segment(h@)),
{
    let hv = chars_of(h);
    let first = first_segment_exec(&hv);
    let t = trim(&first);
    string_of(&t)
}

/// Picks the client address: `forwarded_for` and `real_ip` are what the
/// `X-Forwarded-For` candidate and the `X-Real-IP` value parsed to (`None`
/// where a header was missing or did not parse).
pub fn extract_ip_from_headers(
    forwarded_for: Option<ClientIp>,
    real_ip: Option<ClientIp>,
    fallback: Option<ClientIp>,
) -> (r: ClientIp)
    ensures
        r == client_address(forwarded_for, real_ip, fallback),
{
    if let Some(ip) = forwarded_for {
        return ip;
    }
    if let Some(ip) = real_ip {
        return ip;
    }
    if let Some(ip) = fallback {
        return ip;
    }
    ClientIp::V4(0x7f00_0001)
}

} // verus!
