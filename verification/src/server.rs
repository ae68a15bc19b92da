//! Settings of the HTTP server that the process decides at start-up and per
//! response.

use vstd::prelude::*;
use crate::text::{seq_contains, seq_starts_with, unicode_lowercase};

verus! {

/// The number of database connections: the configured number (16 when none
/// is), kept within 1..=64.
pub fn db_max_connections(configured: Option<u32>) -> (r: u32)
    ensures
        r == ({
            let c: int = match configured {
                Some(v) => v as int,
                None => 16int,
            };
            if c < 1 {
                1int
            } else if c > 64 {
                64int
            } else {
                c
            }
        }),
{
    let c: u32 = match configured {
        Some(v) => v,
        None => 16,
    };
    if c < 1 {
        1
    } else if c > 64 {
        64
    } else {
        c
    }
}

/// Responses whose content type marks a stream: server-sent events and
/// multipart bodies.
pub open spec fn streamed_content_type(content_type: Seq<char>) -> bool {
    seq_starts_with(content_type, "text/event-stream"@) || seq_starts_with(
        content_type,
        "multipart/"@,
    )
}

/// Whether a response is kept out of compression for its content type (a
/// live event stream or a multipart body); other responses are compressed
/// by the usual rules.
pub fn excluded_from_compression(content_type: &str) -> (b: bool)
    ensures
        b == streamed_content_type(content_type@),
{
    let v = crate::text::chars_of(content_type);
    crate::text::starts_with_str(&v, "text/event-stream") || crate::text::starts_with_str(
        &v,
        "multipart/",
    )
}

/// A schema change the database refuses because it was made before: its
/// message, in lowercase, speaks of a duplicate or of something that already
/// exists.
pub open spec fn benign_schema_message(message: Seq<char>) -> bool {
    seq_contains(unicode_lowercase(message), "duplicate"@) || seq_contains(
        unicode_lowercase(message),
        "already exists"@,
    )
}

/// Whether a database error raised while adding a column or an index only
/// says that it is there already.
pub fn is_benign_schema_error(message: &str) -> (b: bool)
    ensures
        b == benign_schema_message(message@),
{
    let lower = crate::text::to_lowercase(message);
    let v = crate::text::chars_of(lower.as_str());
    crate::text::contains_str(&v, "duplicate") || crate::text::contains_str(&v, "already exists")
}


} // verus!
