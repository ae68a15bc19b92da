//! The security and caching headers added to every response.

use vstd::prelude::*;
use crate::config::SecurityConfig;
use crate::text::{
    chars_of, dec, extend_chars, extend_str, seq_starts_with, starts_with_str, string_of, trim,
    trimmed, u64_dec,
};

verus! {

/// A header name and value, by their characters.
pub type HeaderText = (Seq<char>, Seq<char>);

/// What to do to a response's headers: insert each pair in order (a later
/// insert of a name replaces an earlier one), then remove `Pragma` if asked.
pub struct HeaderPlan {
    /// Headers to insert, in order.
    pub set: Vec<(String, String)>,
    /// Whether to remove the `Pragma` header afterwards.
    pub remove_pragma: bool,
}

/// The characters of each header pair.
pub open spec fn pairs_view(v: Seq<(String, String)>) -> Seq<HeaderText> {
    v.map_values(|p: (String, String)| (p.0@, p.1@))
}

/// The headers every response gets.
pub open spec fn fixed_headers() -> Seq<HeaderText> {
    seq![
        ("x-content-type-options"@, "nosniff"@),
        ("x-frame-options"@, "SAMEORIGIN"@),
        ("referrer-policy"@, "no-referrer"@),
        ("permissions-policy"@, "geolocation=(), microphone=(), camera=()"@),
        ("cross-origin-opener-policy"@, "same-origin"@),
        ("cross-origin-resource-policy"@, "same-origin"@),
    ]
}

/// The HSTS value: `max-age=<n>` (one year unless configured), followed by
/// `; includeSubDomains` when that is enabled.
pub open spec fn hsts_value(max_age: Option<u64>, include_sub: Option<bool>) -> Seq<char> {
    let n: u64 = match max_age {
        Some(m) => m,
        None => 31536000u64,
    };
    "max-age="@ + dec(n as nat) + if include_sub == Some(true) {
        "; includeSubDomains"@
    } else {
        Seq::<char>::empty()
    }
}

/// The headers that the security configuration adds: HSTS when enabled, and
/// the CSP when it is set and not blank.
pub open spec fn configured_headers(sec: Option<SecurityConfig>) -> Seq<HeaderText> {
    match sec {
        None => Seq::empty(),
        Some(s) => {
            let hsts = if s.enable_hsts == Some(true) {
                seq![("strict-transport-security"@, hsts_value(s.hsts_max_age, s.hsts_include_subdomains))]
            } else {
                Seq::<HeaderText>::empty()
            };
            let csp = match s.csp {
                Some(c) => if trimmed(c@).len() > 0 {
                    seq![("content-security-policy"@, c@)]
                } else {
                    Seq::<HeaderText>::empty()
                },
                None => Seq::<HeaderText>::empty(),
            };
            hsts + csp
        },
    }
}

/// Whether a content type is JSON or a server-sent event stream.
pub open spec fn is_api_type(ct: Seq<char>) -> bool {
    seq_starts_with(ct, "application/json"@) || seq_starts_with(ct, "text/event-stream"@)
}

/// Whether a content type is a stylesheet, a script or a WebAssembly module.
pub open spec fn is_static_asset_type(ct: Seq<char>) -> bool {
    seq_starts_with(ct, "text/css"@) || seq_starts_with(ct, "application/javascript"@)
        || seq_starts_with(ct, "text/javascript"@) || seq_starts_with(ct, "application/wasm"@)
}

/// The caching headers for a content type: API responses and event streams
/// are never stored (streams also ask proxies not to buffer); static assets
/// are cached for a year as immutable; anything else is left alone.
pub open spec fn cache_headers(ct: Option<Seq<char>>) -> Seq<HeaderText> {
    match ct {
        None => Seq::empty(),
        Some(t) => if is_api_type(t) {
            seq![("cache-control"@, "no-store"@), ("pragma"@, "no-cache"@)] + if seq_starts_with(
                t,
                "text/event-stream"@,
            ) {
                seq![("x-accel-buffering"@, "no"@)]
            } else {
                Seq::<HeaderText>::empty()
            }
        } else if is_static_asset_type(t) {
            seq![("cache-control"@, "public, max-age=31536000, immutable"@)]
        } else {
            Seq::empty()
        },
    }
}

/// Whether the `Pragma` header is removed: for static assets only.
pub open spec fn removes_pragma(ct: Option<Seq<char>>) -> bool {
    ct matches Some(t) && !is_api_type(t) && is_static_asset_type(t)
}

fn push_pair(v: &mut Vec<(String, String)>, name: &str, value: String)
    ensures
        pairs_view(final(v)@) == pairs_view(old(v)@).push((name@, value@)),
{
    let ghost old_v = v@;
    v.push((String::from_str(name), value));
    assert(pairs_view(v@) =~= pairs_view(old_v).push((name@, value@)));
}

/// The header plan for a response with the given content type (as text,
/// `None` when it is missing or not readable as text) under the given
/// security configuration: the fixed headers, then the configured ones,
/// then the caching ones.
pub fn response_header_plan(sec: Option<&SecurityConfig>, content_type: Option<&str>) -> (r:
    HeaderPlan)
    ensures
        pairs_view(r.set@) == fixed_headers() + configured_headers(
            match sec {
                Some(s) => Some(*s),
                None => None,
            },
        ) + cache_headers(
            match content_type {
                Some(t) => Some(t@),
                None => None,
            },
        ),
        r.remove_pragma == removes_pragma(
            match content_type {
                Some(t) => Some(t@),
                None => None,
            },
        ),
{
    let mut set: Vec<(String, String)> = Vec::new();
    push_pair(&mut set, "x-content-type-options", String::from_str("nosniff"));
    push_pair(&mut set, "x-frame-options", String::from_str("SAMEORIGIN"));
    push_pair(&mut set, "referrer-policy", String::from_str("no-referrer"));
    push_pair(
        &mut set,
        "permissions-policy",
        String::from_str("geolocation=(), microphone=(), camera=()"),
    );
    push_pair(&mut set, "cross-origin-opener-policy", String::from_str("same-origin"));
    push_pair(&mut set, "cross-origin-resource-policy", String::from_str("same-origin"));
    let ghost fixed = pairs_view(set@);
    assert(fixed =~= fixed_headers());
    let ghost sec_v = match sec {
        Some(s) => Some(*s),
        None => None,
    };
    if let Some(s) = sec {
        if s.enable_hsts == Some(true) {
            let n: u64 = match s.hsts_max_age {
                Some(m) => m,
                None => 31536000,
            };
            let mut v: Vec<char> = Vec::new();
            extend_str(&mut v, "max-age=");
            let d = u64_dec(n);
            extend_chars(&mut v, &d);
            if s.hsts_include_subdomains == Some(true) {
                extend_str(&mut v, "; includeSubDomains");
            }
            assert(v@ =~= hsts_value(s.hsts_max_age, s.hsts_include_subdomains));
            push_pair(&mut set, "strict-transport-security", string_of(&v));
        }
        if let Some(c) = &s.csp {
            let cv = chars_of(c.as_str());
            let t = trim(&cv);
            if t.len() > 0 {
                push_pair(&mut set, "content-security-policy", c.clone());
            }
        }
    }
    assert(pairs_view(set@) =~= fixed_headers() + configured_headers(sec_v));
    let ghost before_cache = pairs_view(set@);
    let ghost ct_v = match content_type {
        Some(t) => Some(t@),
        None => None,
    };
    let mut remove_pragma = false;
    if let Some(ct) = content_type {
        let tv = chars_of(ct);
        let is_json = starts_with_str(&tv, "application/json");
        let is_sse = starts_with_str(&tv, "text/event-stream");
        if is_json || is_sse {
            push_pair(&mut set, "cache-control", String::from_str("no-store"));
            push_pair(&mut set, "pragma", String::from_str("no-cache"));
            if is_sse {
                push_pair(&mut set, "x-accel-buffering", String::from_str("no"));
            }
        } else {
            let is_css = starts_with_str(&tv, "text/css");
            let is_js = starts_with_str(&tv, "application/javascript") || starts_with_str(
                &tv,
                "text/javascript",
            );
            let is_wasm = starts_with_str(&tv, "application/wasm");
            if is_css || is_js || is_wasm {
                push_pair(
                    &mut set,
                    "cache-control",
                    String::from_str("public, max-age=31536000, immutable"),
                );
                remove_pragma = true;
            }
        }
    }
    assert(pairs_view(set@) =~= before_cache + cache_headers(ct_v));
    HeaderPlan { set, remove_pragma }
}

} // verus!
