//! Counters that describe the work the server has done since it started.

use std::time::Instant;
use vstd::prelude::*;
use crate::clock::{clock_origin, nanos_since};

verus! {

/// `x + y`, wrapped around at `2^64` as the counters do.
pub open spec fn wrap64(x: u64, y: u64) -> u64 {
    if x + y > u64::MAX {
        (x + y - 0x1_0000_0000_0000_0000) as u64
    } else {
        (x + y) as u64
    }
}

/// `x + y`, wrapped around past `usize::MAX` as the counters do.
pub open spec fn wrap_usize(x: usize, y: usize) -> usize {
    if x + y > usize::MAX {
        (x + y - usize::MAX - 1) as usize
    } else {
        (x + y) as usize
    }
}

/// The server's counters. Each counter only grows (wrapping around at its
/// type's limit), one method per event.
pub struct Metrics {
    /// Scans started.
    pub scans_started: usize,
    /// Scans completed successfully.
    pub scans_completed: usize,
    /// Scans that failed.
    pub scans_failed: usize,
    /// Files processed over all scans.
    pub files_processed: u64,
    /// Directories processed over all scans.
    pub dirs_processed: u64,
    /// Bytes scanned over all scans.
    pub bytes_scanned: u64,
    /// Warnings over all scans.
    pub warnings_count: usize,
    /// When the counters were created.
    pub start_time: Instant,
}

/// The counters at one moment, with the uptime in whole seconds.
#[derive(Clone, Copy, Debug, PartialEq, Eq)]
pub struct MetricsSnapshot {
    /// Scans started.
    pub scans_started: usize,
    /// Scans completed successfully.
    pub scans_completed: usize,
    /// Scans that failed.
    pub scans_failed: usize,
    /// Files processed over all scans.
    pub files_processed: u64,
    /// Directories processed over all scans.
    pub dirs_processed: u64,
    /// Bytes scanned over all scans.
    pub bytes_scanned: u64,
    /// Warnings over all scans.
    pub warnings_count: usize,
    /// Seconds since the counters were created.
    pub uptime_seconds: u64,
}

impl Metrics {
    /// Whether all counters are zero.
    pub open spec fn is_zero(&self) -> bool {
        &&& self.scans_started == 0
        &&& self.scans_completed == 0
        &&& self.scans_failed == 0
        &&& self.files_processed == 0
        &&& self.dirs_processed == 0
        &&& self.bytes_scanned == 0
        &&& self.warnings_count == 0
    }

    /// Whether `other` holds the same counters as `self`, except those a
    /// method changed, which it names.
    pub open spec fn same_except(
        &self,
        other: &Metrics,
        started: bool,
        completed: bool,
        failed: bool,
        files: bool,
        dirs: bool,
        bytes: bool,
        warnings: bool,
    ) -> bool {
        &&& (!started ==> other.scans_started == self.scans_started)
        &&& (!completed ==> other.scans_completed == self.scans_completed)
        &&& (!failed ==> other.scans_failed == self.scans_failed)
        &&& (!files ==> other.files_processed == self.files_processed)
        &&& (!dirs ==> other.dirs_processed == self.dirs_processed)
        &&& (!bytes ==> other.bytes_scanned == self.bytes_scanned)
        &&& (!warnings ==> other.warnings_count == self.warnings_count)
        &&& other.start_time == self.start_time
    }

    /// Fresh counters, all zero, starting the uptime clock now.
    pub fn new() -> (r: Metrics)
        ensures
            r.is_zero(),
    {
        Metrics {
            scans_started: 0,
            scans_completed: 0,
            scans_failed: 0,
            files_processed: 0,
            dirs_processed: 0,
            bytes_scanned: 0,
            warnings_count: 0,
            start_time: clock_origin(),
        }
    }

    /// Counts a started scan.
    pub fn inc_scans_started(&mut self)
        ensures
            final(self).scans_started == wrap_usize(old(self).scans_started, 1),
            old(self).same_except(&*final(self), true, false, false, false, false, false, false),
    {
        self.scans_started = self.scans_started.wrapping_add(1);
    }

    /// Counts a completed scan.
    pub fn inc_scans_completed(&mut self)
        ensures
            final(self).scans_completed == wrap_usize(old(self).scans_completed, 1),
            old(self).same_except(&*final(self), false, true, false, false, false, false, false),
    {
        self.scans_completed = self.scans_completed.wrapping_add(1);
    }

    /// Counts a failed scan.
    pub fn inc_scans_failed(&mut self)
        ensures
            final(self).scans_failed == wrap_usize(old(self).scans_failed, 1),
            old(self).same_except(&*final(self), false, false, true, false, false, false, false),
    {
        self.scans_failed = self.scans_failed.wrapping_add(1);
    }

    /// Adds processed files.
    pub fn add_files(&mut self, count: u64)
        ensures
            final(self).files_processed == wrap64(old(self).files_processed, count),
            old(self).same_except(&*final(self), false, false, false, true, false, false, false),
    {
        self.files_processed = self.files_processed.wrapping_add(count);
    }

    /// Adds processed directories.
    pub fn add_dirs(&mut self, count: u64)
        ensures
            final(self).dirs_processed == wrap64(old(self).dirs_processed, count),
            old(self).same_except(&*final(self), false, false, false, false, true, false, false),
    {
        self.dirs_processed = self.dirs_processed.wrapping_add(count);
    }

    /// Adds scanned bytes.
    pub fn add_bytes(&mut self, bytes: u64)
        ensures
            final(self).bytes_scanned == wrap64(old(self).bytes_scanned, bytes),
            old(self).same_except(&*final(self), false, false, false, false, false, true, false),
    {
        self.bytes_scanned = self.bytes_scanned.wrapping_add(bytes);
    }

    /// Adds warnings.
    pub fn add_warnings(&mut self, count: usize)
        ensures
            final(self).warnings_count == wrap_usize(old(self).warnings_count, count),
            old(self).same_except(&*final(self), false, false, false, false, false, false, true),
    {
        self.warnings_count = self.warnings_count.wrapping_add(count);
    }

    /// The counters as they stand, with `elapsed_nanos` (the time since the
    /// counters were created) in whole seconds.
    pub fn snapshot_at(&self, elapsed_nanos: u128) -> (r: MetricsSnapshot)
        ensures
            r.scans_started == self.scans_started,
            r.scans_completed == self.scans_completed,
            r.scans_failed == self.scans_failed,
            r.files_processed == self.files_processed,
            r.dirs_processed == self.dirs_processed,
            r.bytes_scanned == self.bytes_scanned,
            r.warnings_count == self.warnings_count,
            r.uptime_seconds == uptime_of(elapsed_nanos),
    {
        let secs = elapsed_nanos / 1_000_000_000;
        let uptime: u64 = if secs > u64::MAX as u128 { u64::MAX } else { secs as u64 };
        MetricsSnapshot {
            scans_started: self.scans_started,
            scans_completed: self.scans_completed,
            scans_failed: self.scans_failed,
            files_processed: self.files_processed,
            dirs_processed: self.dirs_processed,
            bytes_scanned: self.bytes_scanned,
            warnings_count: self.warnings_count,
            uptime_seconds: uptime,
        }
    }

    /// The counters as they stand, with the time since creation in whole
    /// seconds, as `snapshot_at` gives them for the clock's reading (the
    /// reading itself is not promised).
    pub fn get_snapshot(&self) -> (r: MetricsSnapshot)
        ensures
            r.scans_started == self.scans_started,
            r.scans_completed == self.scans_completed,
            r.scans_failed == self.scans_failed,
            r.files_processed == self.files_processed,
            r.dirs_processed == self.dirs_processed,
            r.bytes_scanned == self.bytes_scanned,
            r.warnings_count == self.warnings_count,
            exists|n: u128| r.uptime_seconds == uptime_of(n),
    {
        let nanos = nanos_since(&self.start_time);
        self.snapshot_at(nanos)
    }
}

/// Whole seconds in `nanos` nanoseconds, at most `u64::MAX`.
pub open spec fn uptime_of(nanos: u128) -> u64 {
    let secs = nanos / 1_000_000_000;
    if secs > u64::MAX {
        u64::MAX
    } else {
        secs as u64
    }
}

/// A later clock reading never gives a smaller uptime.
pub proof fn lemma_uptime_never_decreases(earlier: u128, later: u128)
    requires
        earlier <= later,
    ensures
        uptime_of(earlier) <= uptime_of(later),
{
    assert(earlier / 1_000_000_000 <= later / 1_000_000_000) by (nonlinear_arith)
        requires
            earlier <= later,
    ;
}

impl Default for Metrics {
    fn default() -> (r: Metrics)
        ensures
            r.is_zero(),
    {
        Metrics::new()
    }
}

/// Adding to a byte, file or directory counter in two steps leaves it where
/// adding the (wrapped) total at once would: how a scan's work is split into
/// reports does not change the counters.
pub proof fn lemma_split_additions_agree(x: u64, a: u64, b: u64)
    ensures
        wrap64(wrap64(x, a), b) == wrap64(x, wrap64(a, b)),
{
}

} // verus!
