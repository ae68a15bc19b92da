//! The metrics endpoints' text.

use vstd::prelude::*;
use crate::metrics::MetricsSnapshot;
use crate::text::{dec, extend_chars, extend_str, occurs_at, seq_contains, string_of, u64_dec};

verus! {

/// One counter in the Prometheus text format: help line, type line, value.
pub open spec fn prom_metric(name: Seq<char>, help: Seq<char>, kind: Seq<char>, value: nat) -> Seq<char> {
    "# HELP speicherwald_"@ + name + " "@ + help + "\n# TYPE speicherwald_"@ + name + " "@ + kind
        + "\nspeicherwald_"@ + name + " "@ + dec(value) + "\n"@
}

/// The metrics in the Prometheus text format.
pub open spec fn prometheus_body(m: MetricsSnapshot) -> Seq<char> {
    prom_metric("scans_started"@, "Total scans started"@, "counter"@, m.scans_started as nat)
        + prom_metric("scans_completed"@, "Total scans completed"@, "counter"@, m.scans_completed as nat)
        + prom_metric("scans_failed"@, "Total scans failed"@, "counter"@, m.scans_failed as nat)
        + prom_metric("files_processed"@, "Files processed"@, "counter"@, m.files_processed as nat)
        + prom_metric("dirs_processed"@, "Directories processed"@, "counter"@, m.dirs_processed as nat)
        + prom_metric("bytes_scanned"@, "Bytes scanned"@, "counter"@, m.bytes_scanned as nat)
        + prom_metric("warnings_count"@, "Warnings count"@, "counter"@, m.warnings_count as nat)
        + prom_metric("uptime_seconds"@, "Uptime seconds"@, "gauge"@, m.uptime_seconds as nat)
}

/// The value line of a counter: its full name and its value.
pub open spec fn value_line(name: Seq<char>, value: nat) -> Seq<char> {
    "\nspeicherwald_"@ + name + " "@ + dec(value) + "\n"@
}

proof fn lemma_block_has_value_line(name: Seq<char>, help: Seq<char>, kind: Seq<char>, value: nat)
    ensures
        seq_contains(prom_metric(name, help, kind, value), value_line(name, value)),
{
    let head = "# HELP speicherwald_"@ + name + " "@ + help + "\n# TYPE speicherwald_"@ + name + " "@ + kind;
    let t = value_line(name, value);
    let b = prom_metric(name, help, kind, value);
    assert(b =~= head + t);
    assert(b.subrange(head.len() as int, (head.len() + t.len()) as int) =~= t);
    assert(occurs_at(b, t, head.len() as int));
}

proof fn lemma_contains_left(a: Seq<char>, b: Seq<char>, t: Seq<char>)
    requires
        seq_contains(a, t),
    ensures
        seq_contains(a + b, t),
{
    let i = choose|i: int| occurs_at(a, t, i);
    assert((a + b).subrange(i, i + t.len()) =~= a.subrange(i, i + t.len()));
    assert(occurs_at(a + b, t, i));
}

proof fn lemma_contains_right(a: Seq<char>, b: Seq<char>, t: Seq<char>)
    requires
        seq_contains(b, t),
    ensures
        seq_contains(a + b, t),
{
    let i = choose|i: int| occurs_at(b, t, i);
    assert((a + b).subrange(a.len() + i, a.len() + i + t.len()) =~= b.subrange(i, i + t.len()));
    assert(occurs_at(a + b, t, a.len() + i));
}

/// The Prometheus text reports each counter of the snapshot under its own
/// name with that counter's own value: for every field it holds the line
/// `speicherwald_<name> <value>`.
pub proof fn lemma_each_counter_reports_its_own_value(m: MetricsSnapshot)
    ensures
        seq_contains(prometheus_body(m), value_line("scans_started"@, m.scans_started as nat)),
        seq_contains(prometheus_body(m), value_line("scans_completed"@, m.scans_completed as nat)),
        seq_contains(prometheus_body(m), value_line("scans_failed"@, m.scans_failed as nat)),
        seq_contains(prometheus_body(m), value_line("files_processed"@, m.files_processed as nat)),
        seq_contains(prometheus_body(m), value_line("dirs_processed"@, m.dirs_processed as nat)),
        seq_contains(prometheus_body(m), value_line("bytes_scanned"@, m.bytes_scanned as nat)),
        seq_contains(prometheus_body(m), value_line("warnings_count"@, m.warnings_count as nat)),
        seq_contains(prometheus_body(m), value_line("uptime_seconds"@, m.uptime_seconds as nat)),
{
    let p1 = prom_metric("scans_started"@, "Total scans started"@, "counter"@, m.scans_started as nat);
    let p2 = prom_metric("scans_completed"@, "Total scans completed"@, "counter"@, m.scans_completed as nat);
    let p3 = prom_metric("scans_failed"@, "Total scans failed"@, "counter"@, m.scans_failed as nat);
    let p4 = prom_metric("files_processed"@, "Files processed"@, "counter"@, m.files_processed as nat);
    let p5 = prom_metric("dirs_processed"@, "Directories processed"@, "counter"@, m.dirs_processed as nat);
    let p6 = prom_metric("bytes_scanned"@, "Bytes scanned"@, "counter"@, m.bytes_scanned as nat);
    let p7 = prom_metric("warnings_count"@, "Warnings count"@, "counter"@, m.warnings_count as nat);
    let p8 = prom_metric("uptime_seconds"@, "Uptime seconds"@, "gauge"@, m.uptime_seconds as nat);
    let body = prometheus_body(m);
    assert(body == p1 + p2 + p3 + p4 + p5 + p6 + p7 + p8);
    lemma_block_has_value_line("scans_started"@, "Total scans started"@, "counter"@, m.scans_started as nat);
    lemma_block_has_value_line("scans_completed"@, "Total scans completed"@, "counter"@, m.scans_completed as nat);
    lemma_block_has_value_line("scans_failed"@, "Total scans failed"@, "counter"@, m.scans_failed as nat);
    lemma_block_has_value_line("files_processed"@, "Files processed"@, "counter"@, m.files_processed as nat);
    lemma_block_has_value_line("dirs_processed"@, "Directories processed"@, "counter"@, m.dirs_processed as nat);
    lemma_block_has_value_line("bytes_scanned"@, "Bytes scanned"@, "counter"@, m.bytes_scanned as nat);
    lemma_block_has_value_line("warnings_count"@, "Warnings count"@, "counter"@, m.warnings_count as nat);
    lemma_block_has_value_line("uptime_seconds"@, "Uptime seconds"@, "gauge"@, m.uptime_seconds as nat);
    let c1 = p1;
    let c2 = c1 + p2;
    let c3 = c2 + p3;
    let c4 = c3 + p4;
    let c5 = c4 + p5;
    let c6 = c5 + p6;
    let c7 = c6 + p7;
    let c8 = c7 + p8;
    // each block is contained in the running concatenation where it is added ...
    lemma_contains_right(c1, p2, value_line("scans_completed"@, m.scans_completed as nat));
    lemma_contains_right(c2, p3, value_line("scans_failed"@, m.scans_failed as nat));
    lemma_contains_right(c3, p4, value_line("files_processed"@, m.files_processed as nat));
    lemma_contains_right(c4, p5, value_line("dirs_processed"@, m.dirs_processed as nat));
    lemma_contains_right(c5, p6, value_line("bytes_scanned"@, m.bytes_scanned as nat));
    lemma_contains_right(c6, p7, value_line("warnings_count"@, m.warnings_count as nat));
    lemma_contains_right(c7, p8, value_line("uptime_seconds"@, m.uptime_seconds as nat));
    // ... and stays contained as later blocks are appended.
    let t1 = value_line("scans_started"@, m.scans_started as nat);
    lemma_contains_left(c1, p2, t1);
    lemma_contains_left(c2, p3, t1);
    lemma_contains_left(c3, p4, t1);
    lemma_contains_left(c4, p5, t1);
    lemma_contains_left(c5, p6, t1);
    lemma_contains_left(c6, p7, t1);
    lemma_contains_left(c7, p8, t1);
    let t2 = value_line("scans_completed"@, m.scans_completed as nat);
    lemma_contains_left(c2, p3, t2);
    lemma_contains_left(c3, p4, t2);
    lemma_contains_left(c4, p5, t2);
    lemma_contains_left(c5, p6, t2);
    lemma_contains_left(c6, p7, t2);
    lemma_contains_left(c7, p8, t2);
    let t3 = value_line("scans_failed"@, m.scans_failed as nat);
    lemma_contains_left(c3, p4, t3);
    lemma_contains_left(c4, p5, t3);
    lemma_contains_left(c5, p6, t3);
    lemma_contains_left(c6, p7, t3);
    lemma_contains_left(c7, p8, t3);
    let t4 = value_line("files_processed"@, m.files_processed as nat);
    lemma_contains_left(c4, p5, t4);
    lemma_contains_left(c5, p6, t4);
    lemma_contains_left(c6, p7, t4);
    lemma_contains_left(c7, p8, t4);
    let t5 = value_line("dirs_processed"@, m.dirs_processed as nat);
    lemma_contains_left(c5, p6, t5);
    lemma_contains_left(c6, p7, t5);
    lemma_contains_left(c7, p8, t5);
    let t6 = value_line("bytes_scanned"@, m.bytes_scanned as nat);
    lemma_contains_left(c6, p7, t6);
    lemma_contains_left(c7, p8, t6);
    let t7 = value_line("warnings_count"@, m.warnings_count as nat);
    lemma_contains_left(c7, p8, t7);
}

fn push_metric(v: &mut Vec<char>, name: &str, help: &str, kind: &str, value: u64)
    ensures
        final(v)@ == old(v)@ + prom_metric(name@, help@, kind@, value as nat),
{
    let ghost start = v@;
    extend_str(v, "# HELP speicherwald_");
    extend_str(v, name);
    extend_str(v, " ");
    extend_str(v, help);
    extend_str(v, "\n# TYPE speicherwald_");
    extend_str(v, name);
    extend_str(v, " ");
    extend_str(v, kind);
    extend_str(v, "\nspeicherwald_");
    extend_str(v, name);
    extend_str(v, " ");
    let d = u64_dec(value);
    extend_chars(v, &d);
    extend_str(v, "\n");
    assert(v@ =~= start + prom_metric(name@, help@, kind@, value as nat));
}

/// The metrics as Prometheus text, one counter (or gauge, for the uptime)
/// per metric.
pub fn prometheus_text(m: &MetricsSnapshot) -> (r: String)
    ensures
        r@ == prometheus_body(*m),
{
    let mut v: Vec<char> = Vec::new();
    push_metric(&mut v, "scans_started", "Total scans started", "counter", m.scans_started as u64);
    push_metric(&mut v, "scans_completed", "Total scans completed", "counter", m.scans_completed as u64);
    push_metric(&mut v, "scans_failed", "Total scans failed", "counter", m.scans_failed as u64);
    push_metric(&mut v, "files_processed", "Files processed", "counter", m.files_processed);
    push_metric(&mut v, "dirs_processed", "Directories processed", "counter", m.dirs_processed);
    push_metric(&mut v, "bytes_scanned", "Bytes scanned", "counter", m.bytes_scanned);
    push_metric(&mut v, "warnings_count", "Warnings count", "counter", m.warnings_count as u64);
    push_metric(&mut v, "uptime_seconds", "Uptime seconds", "gauge", m.uptime_seconds);
    assert(v@ =~= prometheus_body(*m));
    string_of(&v)
}

} // verus!
