//! The scanner's bookkeeping: what each directory entry means for a scan,
//! how directory totals add up, how partial results are merged, and how the
//! work is sized.
//!
//! Walking the file system happens around this module; each step hands it
//! plain facts about an entry (its kind, attributes and sizes) and receives
//! the decision or the updated totals back.

use vstd::prelude::*;
use crate::paths::{component_count, parent_of, path_parts, path_parent};

pub mod globs;

verus! {

// ---------------------------------------------------------------------------
// Arithmetic
// ---------------------------------------------------------------------------

/// `x + y`, or `u64::MAX` when the sum does not fit.
pub open spec fn sat_add(x: u64, y: u64) -> u64 {
    if x + y > u64::MAX {
        u64::MAX
    } else {
        (x + y) as u64
    }
}

/// `x - y`, or 0 when `y > x`.
pub open spec fn sat_sub(x: u64, y: u64) -> u64 {
    if x < y {
        0
    } else {
        (x - y) as u64
    }
}

/// The later of two optional times; a missing one gives way to the other.
pub open spec fn later(a: Option<i64>, b: Option<i64>) -> Option<i64> {
    match (a, b) {
        (Some(x), Some(y)) => Some(if x >= y { x } else { y }),
        (Some(x), None) => Some(x),
        (None, Some(y)) => Some(y),
        (None, None) => None,
    }
}

/// The later of two optional times.
pub fn max_opt(a: Option<i64>, b: Option<i64>) -> (r: Option<i64>)
    ensures
        r == later(a, b),
{
    match (a, b) {
        (Some(x), Some(y)) => Some(if x >= y { x } else { y }),
        (Some(x), None) => Some(x),
        (None, Some(y)) => Some(y),
        (None, None) => None,
    }
}

// ---------------------------------------------------------------------------
// Summaries
// ---------------------------------------------------------------------------

/// Totals of (part of) a scan.
#[derive(Clone, Copy, Debug, PartialEq, Eq)]
pub struct ScanResultSummary {
    /// Directories scanned.
    pub total_dirs: u64,
    /// Files scanned.
    pub total_files: u64,
    /// Total logical size of the files, in bytes.
    pub total_logical_size: u64,
    /// Total allocated size of the files, in bytes.
    pub total_allocated_size: u64,
    /// Warnings raised.
    pub warnings: u64,
    /// The latest modification time seen.
    pub latest_mtime: Option<i64>,
    /// The latest access time seen.
    pub latest_atime: Option<i64>,
}

/// The summary with nothing counted.
pub open spec fn zero_summary() -> ScanResultSummary {
    ScanResultSummary {
        total_dirs: 0,
        total_files: 0,
        total_logical_size: 0,
        total_allocated_size: 0,
        warnings: 0,
        latest_mtime: None,
        latest_atime: None,
    }
}

/// `total` with `part` added: counters add up (saturating), times keep the
/// later one.
pub open spec fn merged(total: ScanResultSummary, part: ScanResultSummary) -> ScanResultSummary {
    ScanResultSummary {
        total_dirs: sat_add(total.total_dirs, part.total_dirs),
        total_files: sat_add(total.total_files, part.total_files),
        total_logical_size: sat_add(total.total_logical_size, part.total_logical_size),
        total_allocated_size: sat_add(total.total_allocated_size, part.total_allocated_size),
        warnings: sat_add(total.warnings, part.warnings),
        latest_mtime: later(total.latest_mtime, part.latest_mtime),
        latest_atime: later(total.latest_atime, part.latest_atime),
    }
}

/// What was counted since `previous`: counter differences (floored at
/// zero), with the current times.
pub open spec fn difference(current: ScanResultSummary, previous: ScanResultSummary) -> ScanResultSummary {
    ScanResultSummary {
        total_dirs: sat_sub(current.total_dirs, previous.total_dirs),
        total_files: sat_sub(current.total_files, previous.total_files),
        total_logical_size: sat_sub(current.total_logical_size, previous.total_logical_size),
        total_allocated_size: sat_sub(current.total_allocated_size, previous.total_allocated_size),
        warnings: sat_sub(current.warnings, previous.warnings),
        latest_mtime: current.latest_mtime,
        latest_atime: current.latest_atime,
    }
}

/// Whether every counter of `a` is at most the matching counter of `b`.
pub open spec fn counters_le(a: ScanResultSummary, b: ScanResultSummary) -> bool {
    &&& a.total_dirs <= b.total_dirs
    &&& a.total_files <= b.total_files
    &&& a.total_logical_size <= b.total_logical_size
    &&& a.total_allocated_size <= b.total_allocated_size
    &&& a.warnings <= b.warnings
}

impl Default for ScanResultSummary {
    fn default() -> (r: ScanResultSummary)
        ensures
            r == zero_summary(),
    {
        ScanResultSummary {
            total_dirs: 0,
            total_files: 0,
            total_logical_size: 0,
            total_allocated_size: 0,
            warnings: 0,
            latest_mtime: None,
            latest_atime: None,
        }
    }
}

impl ScanResultSummary {
    /// A summary holding one warning and nothing else.
    pub fn one_warning() -> (r: ScanResultSummary)
        ensures
            r == (ScanResultSummary { warnings: 1, ..zero_summary() }),
    {
        ScanResultSummary { warnings: 1, ..ScanResultSummary::default() }
    }

    /// Adds a partial result to these totals.
    pub fn absorb(&mut self, part: &ScanResultSummary)
        ensures
            *final(self) == merged(*old(self), *part),
    {
        self.total_dirs = self.total_dirs.saturating_add(part.total_dirs);
        self.total_files = self.total_files.saturating_add(part.total_files);
        self.total_logical_size = self.total_logical_size.saturating_add(part.total_logical_size);
        self.total_allocated_size = self.total_allocated_size.saturating_add(
            part.total_allocated_size,
        );
        self.warnings = self.warnings.saturating_add(part.warnings);
        self.latest_mtime = max_opt(self.latest_mtime, part.latest_mtime);
        self.latest_atime = max_opt(self.latest_atime, part.latest_atime);
    }

    /// Keeps the later of the recorded times and the given ones.
    pub fn note_times(&mut self, mtime: Option<i64>, atime: Option<i64>)
        ensures
            *final(self) == (ScanResultSummary {
                latest_mtime: later(old(self).latest_mtime, mtime),
                latest_atime: later(old(self).latest_atime, atime),
                ..*old(self)
            }),
    {
        self.latest_mtime = max_opt(self.latest_mtime, mtime);
        self.latest_atime = max_opt(self.latest_atime, atime);
    }

    /// Counts one more warning.
    pub fn add_warning(&mut self)
        ensures
            *final(self) == (ScanResultSummary {
                warnings: sat_add(old(self).warnings, 1),
                ..*old(self)
            }),
    {
        self.warnings = self.warnings.saturating_add(1);
    }
}

/// What was counted between two reports of a running worker.
pub fn diff_summary(current: &ScanResultSummary, previous: &ScanResultSummary) -> (r:
    ScanResultSummary)
    ensures
        r == difference(*current, *previous),
{
    ScanResultSummary {
        total_dirs: current.total_dirs.saturating_sub(previous.total_dirs),
        total_files: current.total_files.saturating_sub(previous.total_files),
        total_logical_size: current.total_logical_size.saturating_sub(previous.total_logical_size),
        total_allocated_size: current.total_allocated_size.saturating_sub(
            previous.total_allocated_size,
        ),
        warnings: current.warnings.saturating_sub(previous.warnings),
        latest_mtime: current.latest_mtime,
        latest_atime: current.latest_atime,
    }
}

/// Reporting progress as differences loses nothing: adding to an earlier
/// report what was counted since then gives the later report's counters back,
/// as long as the counters only grew.
pub proof fn lemma_merge_difference_restores(previous: ScanResultSummary, current: ScanResultSummary)
    requires
        counters_le(previous, current),
    ensures
        merged(previous, difference(current, previous)) == (ScanResultSummary {
            latest_mtime: later(previous.latest_mtime, current.latest_mtime),
            latest_atime: later(previous.latest_atime, current.latest_atime),
            ..current
        }),
{
}

/// Merging partial results does not depend on how they are grouped.
pub proof fn lemma_merge_associative(a: ScanResultSummary, b: ScanResultSummary, c: ScanResultSummary)
    ensures
        merged(merged(a, b), c) == merged(a, merged(b, c)),
{
}

/// Merging partial results does not depend on the order they arrive in.
pub proof fn lemma_merge_commutative(a: ScanResultSummary, b: ScanResultSummary)
    ensures
        merged(a, b) == merged(b, a),
{
}

/// Merging nothing changes nothing.
pub proof fn lemma_merge_zero(a: ScanResultSummary)
    ensures
        merged(a, zero_summary()) == a,
{
}

// ---------------------------------------------------------------------------
// Records
// ---------------------------------------------------------------------------

/// A scanned directory with the totals of everything below it.
#[derive(Clone, Debug)]
pub struct NodeRecord {
    /// The directory's path.
    pub path: String,
    /// Its parent's path.
    pub parent_path: Option<String>,
    /// Its depth (number of path components).
    pub depth: u32,
    /// Whether it is a directory.
    pub is_dir: bool,
    /// Total logical size below it.
    pub logical_size: u64,
    /// Total allocated size below it.
    pub allocated_size: u64,
    /// Number of files below it.
    pub file_count: u64,
    /// Number of directories below it (not counting itself).
    pub dir_count: u64,
    /// Its modification time.
    pub mtime: Option<i64>,
    /// Its access time.
    pub atime: Option<i64>,
}

/// A scanned file.
#[derive(Clone, Debug)]
pub struct FileRecord {
    /// The file's path.
    pub path: String,
    /// Its directory's path.
    pub parent_path: Option<String>,
    /// Its logical size.
    pub logical_size: u64,
    /// Its allocated size.
    pub allocated_size: u64,
    /// Its modification time.
    pub mtime: Option<i64>,
    /// Its access time.
    pub atime: Option<i64>,
}

// ---------------------------------------------------------------------------
// Entries
// ---------------------------------------------------------------------------

/// What the scanner knows about a directory entry from its metadata.
#[derive(Clone, Copy, Debug, PartialEq, Eq)]
pub struct EntryMeta {
    /// It is a directory.
    pub is_dir: bool,
    /// It is a regular file.
    pub is_file: bool,
    /// It carries the hidden or system attribute.
    pub hidden_or_system: bool,
    /// It is a reparse point (a link or mount).
    pub reparse_point: bool,
    /// It lies on a network share or mapped network drive.
    pub network_path: bool,
}

/// What to do with a directory entry.
#[derive(Clone, Copy, Debug, PartialEq, Eq)]
pub enum EntryAction {
    /// Leave it out.
    Skip,
    /// Scan into it.
    Descend,
    /// Count it as a file.
    CountFile,
}

/// The options that decide which entries a scan takes.
#[derive(Clone, Copy, Debug, PartialEq, Eq)]
pub struct EntryRules {
    /// Follow links and reparse points.
    pub follow_symlinks: bool,
    /// Take hidden and system entries.
    pub include_hidden: bool,
    /// The deepest level to descend to.
    pub max_depth: Option<u32>,
}

/// Whether an entry is left out for being hidden.
pub open spec fn hidden_excluded(m: EntryMeta, r: EntryRules) -> bool {
    !r.include_hidden && m.hidden_or_system
}

/// The decision for an entry directly under a scan root: links are not
/// followed unless asked (network shares excepted), hidden entries are left
/// out unless asked, and a maximum depth of 0 keeps the scan at the root.
pub open spec fn root_entry_decision(m: EntryMeta, r: EntryRules) -> EntryAction {
    if m.is_dir {
        if !r.follow_symlinks && m.reparse_point && !m.network_path {
            EntryAction::Skip
        } else if hidden_excluded(m, r) {
            EntryAction::Skip
        } else if r.max_depth == Some(0u32) {
            EntryAction::Skip
        } else {
            EntryAction::Descend
        }
    } else if m.is_file {
        if hidden_excluded(m, r) {
            EntryAction::Skip
        } else {
            EntryAction::CountFile
        }
    } else {
        EntryAction::Skip
    }
}

/// The decision for an entry of a directory at `depth` below a root: links
/// are not followed unless asked, hidden entries are left out unless asked,
/// and directories are entered only while `depth` does not exceed the
/// maximum depth.
pub open spec fn entry_decision(m: EntryMeta, r: EntryRules, depth: u32) -> EntryAction {
    if m.is_dir {
        if !r.follow_symlinks && m.reparse_point {
            EntryAction::Skip
        } else if hidden_excluded(m, r) {
            EntryAction::Skip
        } else if r.max_depth matches Some(d) && depth > d {
            EntryAction::Skip
        } else {
            EntryAction::Descend
        }
    } else if m.is_file {
        if hidden_excluded(m, r) {
            EntryAction::Skip
        } else {
            EntryAction::CountFile
        }
    } else {
        EntryAction::Skip
    }
}

/// Hidden and system entries are left out of a scan that does not include
/// them, wherever they lie (directly under a root or deeper) and whether
/// they are files or directories.
pub proof fn lemma_hidden_entries_are_left_out(m: EntryMeta, r: EntryRules, depth: u32)
    requires
        !r.include_hidden,
        m.hidden_or_system,
    ensures
        entry_decision(m, r, depth) == EntryAction::Skip,
        root_entry_decision(m, r) == EntryAction::Skip,
{
}

/// Only regular files are counted as files and only directories are
/// entered; a file is counted exactly when it is not a directory and hidden
/// entries are included or it is not hidden.
pub proof fn lemma_what_a_scan_counts(m: EntryMeta, r: EntryRules, depth: u32)
    ensures
        entry_decision(m, r, depth) == EntryAction::CountFile <==> (m.is_file && !m.is_dir && (
        r.include_hidden || !m.hidden_or_system)),
        root_entry_decision(m, r) == EntryAction::CountFile <==> (m.is_file && !m.is_dir && (
        r.include_hidden || !m.hidden_or_system)),
        entry_decision(m, r, depth) == EntryAction::Descend <==> (m.is_dir && (r.follow_symlinks
            || !m.reparse_point) && (r.include_hidden || !m.hidden_or_system) && match r.max_depth {
            Some(d) => depth <= d,
            None => true,
        }),
        root_entry_decision(m, r) == EntryAction::Descend <==> (m.is_dir && (r.follow_symlinks
            || !m.reparse_point || m.network_path) && (r.include_hidden || !m.hidden_or_system)
            && r.max_depth != Some(0u32)),
{
}

/// Decides an entry directly under a scan root.
pub fn root_entry_action(m: &EntryMeta, r: &EntryRules) -> (a: EntryAction)
    ensures
        a == root_entry_decision(*m, *r),
        !r.include_hidden && m.hidden_or_system ==> a is Skip,
        a is CountFile ==> m.is_file && !m.is_dir,
        a is Descend ==> m.is_dir,
{
    if m.is_dir {
        if !r.follow_symlinks && m.reparse_point && !m.network_path {
            EntryAction::Skip
        } else if !r.include_hidden && m.hidden_or_system {
            EntryAction::Skip
        } else if r.max_depth == Some(0) {
            EntryAction::Skip
        } else {
            EntryAction::Descend
        }
    } else if m.is_file {
        if !r.include_hidden && m.hidden_or_system {
            EntryAction::Skip
        } else {
            EntryAction::CountFile
        }
    } else {
        EntryAction::Skip
    }
}

/// Decides an entry of a directory at `depth` below a root.
pub fn entry_action(m: &EntryMeta, r: &EntryRules, depth: u32) -> (a: EntryAction)
    ensures
        a == entry_decision(*m, *r, depth),
        !r.include_hidden && m.hidden_or_system ==> a is Skip,
        a is CountFile ==> m.is_file && !m.is_dir,
        a is Descend ==> m.is_dir,
{
    if m.is_dir {
        if !r.follow_symlinks && m.reparse_point {
            EntryAction::Skip
        } else if !r.include_hidden && m.hidden_or_system {
            EntryAction::Skip
        } else {
            match r.max_depth {
                Some(d) => if depth > d {
                    EntryAction::Skip
                } else {
                    EntryAction::Descend
                },
                None => EntryAction::Descend,
            }
        }
    } else if m.is_file {
        if !r.include_hidden && m.hidden_or_system {
            EntryAction::Skip
        } else {
            EntryAction::CountFile
        }
    } else {
        EntryAction::Skip
    }
}

/// Whether a scan root is scanned at all: a link is scanned only when links
/// are followed or it is a network share, and a hidden root only when hidden
/// entries are included.
pub fn root_admitted(m: &EntryMeta, r: &EntryRules) -> (b: bool)
    ensures
        b == (!(!r.follow_symlinks && m.reparse_point && !m.network_path) && !hidden_excluded(
            *m,
            *r,
        )),
{
    !(!r.follow_symlinks && m.reparse_point && !m.network_path) && !(!r.include_hidden
        && m.hidden_or_system)
}

/// Whether a directory below a root is scanned once entered: not when it is
/// a link that is not followed, nor when it is hidden and hidden entries are
/// left out.
pub fn dir_admitted(m: &EntryMeta, r: &EntryRules) -> (b: bool)
    ensures
        b == (!(!r.follow_symlinks && m.reparse_point) && !hidden_excluded(*m, *r)),
{
    !(!r.follow_symlinks && m.reparse_point) && !(!r.include_hidden && m.hidden_or_system)
}

/// The allocated size recorded for a file: when allocated sizes are
/// measured, what the file system reports (`reported`), falling back to the
/// logical size where it reports nothing; otherwise the logical size.
pub fn allocated_size_for(measure_allocated: bool, reported: Option<u64>, logical: u64) -> (r: u64)
    ensures
        r == if measure_allocated && reported is Some {
            reported.unwrap()
        } else {
            logical
        },
{
    if measure_allocated {
        match reported {
            Some(a) => a,
            None => logical,
        }
    } else {
        logical
    }
}

// ---------------------------------------------------------------------------
// Directory totals
// ---------------------------------------------------------------------------

/// One contribution to a directory's totals.
#[derive(Clone, Copy, Debug, PartialEq, Eq)]
pub enum TallyStep {
    /// A file of the directory with its sizes.
    File { logical: u64, allocated: u64 },
    /// A subdirectory with the totals it reported (its directory count
    /// includes itself).
    Subdir { dirs: u64, files: u64, logical: u64, allocated: u64 },
}

/// The running totals of a directory being scanned: directories (itself
/// included), files, and the logical and allocated sizes of everything below
/// it. Sizes saturate at `u64::MAX`.
#[derive(Clone, Copy, Debug, PartialEq, Eq)]
pub struct DirTally {
    /// Directories, this one included.
    pub local_dirs: u64,
    /// Files.
    pub local_files: u64,
    /// Logical size.
    pub logical: u64,
    /// Allocated size.
    pub allocated: u64,
    /// Files directly in this directory.
    pub own_files: u64,
    /// Logical size of the files directly in this directory.
    pub own_logical: u64,
    /// Allocated size of the files directly in this directory.
    pub own_allocated: u64,
}

/// The totals of an empty directory: itself and nothing else.
pub open spec fn empty_tally() -> DirTally {
    DirTally {
        local_dirs: 1,
        local_files: 0,
        logical: 0,
        allocated: 0,
        own_files: 0,
        own_logical: 0,
        own_allocated: 0,
    }
}

/// Whether a step can be taken without a count passing `u64::MAX`.
pub open spec fn step_fits(t: DirTally, s: TallyStep) -> bool {
    match s {
        TallyStep::File { .. } => t.local_files + 1 <= u64::MAX,
        TallyStep::Subdir { dirs, files, .. } => t.local_dirs + dirs <= u64::MAX && t.local_files
            + files <= u64::MAX,
    }
}

/// The totals after one step; a file's logical size counts only when
/// logical sizes are measured.
pub open spec fn tally_step(t: DirTally, s: TallyStep, measure_logical: bool) -> DirTally {
    match s {
        TallyStep::File { logical, allocated } => DirTally {
            local_dirs: t.local_dirs,
            local_files: (t.local_files + 1) as u64,
            logical: if measure_logical {
                sat_add(t.logical, logical)
            } else {
                t.logical
            },
            allocated: sat_add(t.allocated, allocated),
            own_files: sat_add(t.own_files, 1),
            own_logical: if measure_logical {
                sat_add(t.own_logical, logical)
            } else {
                t.own_logical
            },
            own_allocated: sat_add(t.own_allocated, allocated),
        },
        TallyStep::Subdir { dirs, files, logical, allocated } => DirTally {
            local_dirs: (t.local_dirs + dirs) as u64,
            local_files: (t.local_files + files) as u64,
            logical: sat_add(t.logical, logical),
            allocated: sat_add(t.allocated, allocated),
            ..t
        },
    }
}

/// The totals after a sequence of steps from an empty directory.
pub open spec fn tally_of(steps: Seq<TallyStep>, measure_logical: bool) -> DirTally
    decreases steps.len(),
{
    if steps.len() == 0 {
        empty_tally()
    } else {
        tally_step(tally_of(steps.drop_last(), measure_logical), steps.last(), measure_logical)
    }
}

/// The exact logical size the steps add up to.
pub open spec fn logical_sum(steps: Seq<TallyStep>, measure_logical: bool) -> nat
    decreases steps.len(),
{
    if steps.len() == 0 {
        0
    } else {
        logical_sum(steps.drop_last(), measure_logical) + match steps.last() {
            TallyStep::File { logical, .. } => if measure_logical {
                logical as nat
            } else {
                0nat
            },
            TallyStep::Subdir { logical, .. } => logical as nat,
        }
    }
}

/// The exact allocated size the steps add up to.
pub open spec fn allocated_sum(steps: Seq<TallyStep>) -> nat
    decreases steps.len(),
{
    if steps.len() == 0 {
        0
    } else {
        allocated_sum(steps.drop_last()) + match steps.last() {
            TallyStep::File { allocated, .. } => allocated as nat,
            TallyStep::Subdir { allocated, .. } => allocated as nat,
        }
    }
}

/// `n`, or `u64::MAX` when it is larger.
pub open spec fn clamp_u64(n: nat) -> u64 {
    if n > u64::MAX {
        u64::MAX
    } else {
        n as u64
    }
}

/// A directory's sizes are the exact sums of what was added, clamped at
/// `u64::MAX`: saturating at every step loses nothing but the excess.
pub proof fn lemma_tally_sizes_are_clamped_sums(steps: Seq<TallyStep>, measure_logical: bool)
    ensures
        tally_of(steps, measure_logical).logical == clamp_u64(logical_sum(steps, measure_logical)),
        tally_of(steps, measure_logical).allocated == clamp_u64(allocated_sum(steps)),
    decreases steps.len(),
{
    if steps.len() > 0 {
        lemma_tally_sizes_are_clamped_sums(steps.drop_last(), measure_logical);
    }
}

/// The number of files among the steps.
pub open spec fn file_steps(steps: Seq<TallyStep>) -> nat
    decreases steps.len(),
{
    if steps.len() == 0 {
        0
    } else {
        file_steps(steps.drop_last()) + if steps.last() is File {
            1nat
        } else {
            0nat
        }
    }
}

/// The logical size of the files among the steps (none when logical sizes
/// are not measured).
pub open spec fn file_logical_sum(steps: Seq<TallyStep>, measure_logical: bool) -> nat
    decreases steps.len(),
{
    if steps.len() == 0 {
        0
    } else {
        file_logical_sum(steps.drop_last(), measure_logical) + match steps.last() {
            TallyStep::File { logical, .. } => if measure_logical {
                logical as nat
            } else {
                0nat
            },
            TallyStep::Subdir { .. } => 0nat,
        }
    }
}

/// The allocated size of the files among the steps.
pub open spec fn file_allocated_sum(steps: Seq<TallyStep>) -> nat
    decreases steps.len(),
{
    if steps.len() == 0 {
        0
    } else {
        file_allocated_sum(steps.drop_last()) + match steps.last() {
            TallyStep::File { allocated, .. } => allocated as nat,
            TallyStep::Subdir { .. } => 0nat,
        }
    }
}

/// A directory's own counts are those of its own files alone, clamped at
/// `u64::MAX`: what its subdirectories report never enters them.
pub proof fn lemma_own_counts_are_file_sums(steps: Seq<TallyStep>, measure_logical: bool)
    ensures
        tally_of(steps, measure_logical).own_files == clamp_u64(file_steps(steps)),
        tally_of(steps, measure_logical).own_logical == clamp_u64(
            file_logical_sum(steps, measure_logical),
        ),
        tally_of(steps, measure_logical).own_allocated == clamp_u64(file_allocated_sum(steps)),
    decreases steps.len(),
{
    if steps.len() > 0 {
        lemma_own_counts_are_file_sums(steps.drop_last(), measure_logical);
    }
}

/// `summary` with one finished directory counted: the directory itself and
/// the files directly in it (its subdirectories count themselves).
pub open spec fn dir_counted(summary: ScanResultSummary, dir: DirTally) -> ScanResultSummary {
    ScanResultSummary {
        total_dirs: sat_add(summary.total_dirs, 1),
        total_files: sat_add(summary.total_files, dir.own_files),
        total_logical_size: sat_add(summary.total_logical_size, dir.own_logical),
        total_allocated_size: sat_add(summary.total_allocated_size, dir.own_allocated),
        ..summary
    }
}

/// Counts a finished directory in the scan's summary: one directory and
/// the files directly in it.
pub fn absorb_dir(summary: &mut ScanResultSummary, dir: &DirTally)
    ensures
        *final(summary) == dir_counted(*old(summary), *dir),
{
    summary.total_dirs = summary.total_dirs.saturating_add(1);
    summary.total_files = summary.total_files.saturating_add(dir.own_files);
    summary.total_logical_size = summary.total_logical_size.saturating_add(dir.own_logical);
    summary.total_allocated_size = summary.total_allocated_size.saturating_add(dir.own_allocated);
}

/// The summary after counting, in order, each directory of a walk, each
/// given by the steps its scan took.
pub open spec fn walk_counted(
    summary: ScanResultSummary,
    walk: Seq<Seq<TallyStep>>,
    measure_logical: bool,
) -> ScanResultSummary
    decreases walk.len(),
{
    if walk.len() == 0 {
        summary
    } else {
        dir_counted(
            walk_counted(summary, walk.drop_last(), measure_logical),
            tally_of(walk.last(), measure_logical),
        )
    }
}

/// The files found over a walk.
pub open spec fn walk_files(walk: Seq<Seq<TallyStep>>) -> nat
    decreases walk.len(),
{
    if walk.len() == 0 {
        0
    } else {
        walk_files(walk.drop_last()) + file_steps(walk.last())
    }
}

/// The logical size of the files found over a walk.
pub open spec fn walk_logical(walk: Seq<Seq<TallyStep>>, measure_logical: bool) -> nat
    decreases walk.len(),
{
    if walk.len() == 0 {
        0
    } else {
        walk_logical(walk.drop_last(), measure_logical) + file_logical_sum(walk.last(), measure_logical)
    }
}

/// The allocated size of the files found over a walk.
pub open spec fn walk_allocated(walk: Seq<Seq<TallyStep>>) -> nat
    decreases walk.len(),
{
    if walk.len() == 0 {
        0
    } else {
        walk_allocated(walk.drop_last()) + file_allocated_sum(walk.last())
    }
}

/// Counting every directory of a walk once with `absorb_dir` counts each
/// directory and each file exactly once: the totals are the number of
/// directories, the number of files and the files' sizes (clamped at
/// `u64::MAX`), whatever the subdirectories reported to their parents.
pub proof fn lemma_walk_counts_each_once(walk: Seq<Seq<TallyStep>>, measure_logical: bool)
    ensures
        walk_counted(zero_summary(), walk, measure_logical).total_dirs == clamp_u64(walk.len() as nat),
        walk_counted(zero_summary(), walk, measure_logical).total_files == clamp_u64(walk_files(walk)),
        walk_counted(zero_summary(), walk, measure_logical).total_logical_size == clamp_u64(
            walk_logical(walk, measure_logical),
        ),
        walk_counted(zero_summary(), walk, measure_logical).total_allocated_size == clamp_u64(
            walk_allocated(walk),
        ),
    decreases walk.len(),
{
    if walk.len() > 0 {
        lemma_walk_counts_each_once(walk.drop_last(), measure_logical);
        lemma_own_counts_are_file_sums(walk.last(), measure_logical);
    }
}

impl DirTally {
    /// The totals of a directory before any entry is seen.
    pub fn new() -> (t: DirTally)
        ensures
            t == empty_tally(),
    {
        DirTally {
            local_dirs: 1,
            local_files: 0,
            logical: 0,
            allocated: 0,
            own_files: 0,
            own_logical: 0,
            own_allocated: 0,
        }
    }

    /// Counts a file of the directory.
    pub fn add_file(&mut self, logical: u64, allocated: u64, measure_logical: bool)
        requires
            step_fits(*old(self), TallyStep::File { logical, allocated }),
        ensures
            *final(self) == tally_step(
                *old(self),
                TallyStep::File { logical, allocated },
                measure_logical,
            ),
    {
        self.local_files = self.local_files + 1;
        self.own_files = self.own_files.saturating_add(1);
        if measure_logical {
            self.logical = self.logical.saturating_add(logical);
            self.own_logical = self.own_logical.saturating_add(logical);
        }
        self.allocated = self.allocated.saturating_add(allocated);
        self.own_allocated = self.own_allocated.saturating_add(allocated);
    }

    /// Adds the totals a subdirectory reported.
    pub fn add_subdir(&mut self, dirs: u64, files: u64, logical: u64, allocated: u64)
        requires
            step_fits(*old(self), TallyStep::Subdir { dirs, files, logical, allocated }),
        ensures
            *final(self) == tally_step(
                *old(self),
                TallyStep::Subdir { dirs, files, logical, allocated },
                true,
            ),
    {
        self.local_dirs = self.local_dirs + dirs;
        self.local_files = self.local_files + files;
        self.logical = self.logical.saturating_add(logical);
        self.allocated = self.allocated.saturating_add(allocated);
    }

    /// The directory's totals as a summary (no warnings, no times).
    pub fn totals(&self) -> (s: ScanResultSummary)
        ensures
            s == (ScanResultSummary {
                total_dirs: self.local_dirs,
                total_files: self.local_files,
                total_logical_size: self.logical,
                total_allocated_size: self.allocated,
                ..zero_summary()
            }),
    {
        ScanResultSummary {
            total_dirs: self.local_dirs,
            total_files: self.local_files,
            total_logical_size: self.logical,
            total_allocated_size: self.allocated,
            warnings: 0,
            latest_mtime: None,
            latest_atime: None,
        }
    }

    /// The record of the finished directory; its directory count leaves
    /// itself out. Refused when the count does not include the directory
    /// itself, which the tally never produces.
    pub fn node_record(
        &self,
        path: String,
        parent_path: Option<String>,
        depth: u32,
        mtime: Option<i64>,
        atime: Option<i64>,
    ) -> (r: Result<NodeRecord, String>)
        ensures
            self.local_dirs == 0 ==> (r matches Err(m) && m@ == "Invalid directory count detected"@),
            self.local_dirs > 0 ==> (r matches Ok(n) && n.path == path && n.parent_path
                == parent_path && n.depth == depth && n.is_dir && n.logical_size == self.logical
                && n.allocated_size == self.allocated && n.file_count == self.local_files
                && n.dir_count == self.local_dirs - 1 && n.mtime == mtime && n.atime == atime),
    {
        if self.local_dirs == 0 {
            return Err(String::from_str("Invalid directory count detected"));
        }
        Ok(
            NodeRecord {
                path,
                parent_path,
                depth,
                is_dir: true,
                logical_size: self.logical,
                allocated_size: self.allocated,
                file_count: self.local_files,
                dir_count: self.local_dirs - 1,
                mtime,
                atime,
            },
        )
    }
}

// ---------------------------------------------------------------------------
// Root totals
// ---------------------------------------------------------------------------

/// What happened to a file directly under a scan root.
#[derive(Clone, Copy, Debug, PartialEq, Eq)]
pub enum RootFileOutcome {
    /// Its sizes were added and it is recorded.
    Recorded,
    /// Its logical size would overflow the root's total: it is skipped and
    /// the scan reports a failure for it.
    LogicalOverflow,
    /// Its allocated size would overflow the root's total: it is skipped and
    /// the scan reports a failure for it.
    AllocatedOverflow,
}

/// The running totals of a scan root: its own files, and what its
/// subdirectories reported.
#[derive(Clone, Copy, Debug, PartialEq, Eq)]
pub struct RootTally {
    /// Files directly under the root (skipped ones included).
    pub files: u64,
    /// Logical size of the root's own files.
    pub files_logical: u64,
    /// Allocated size of the root's own files.
    pub files_allocated: u64,
    /// Directories reported by the subdirectories.
    pub sub_dirs: u64,
    /// Files reported by the subdirectories.
    pub sub_files: u64,
    /// Logical size reported by the subdirectories.
    pub sub_logical: u64,
    /// Allocated size reported by the subdirectories.
    pub sub_allocated: u64,
    /// The latest modification time among the root and its entries.
    pub latest_mtime: Option<i64>,
    /// The latest access time among the root and its entries.
    pub latest_atime: Option<i64>,
}

/// The root totals after a file with the given sizes: the file is counted
/// first; then, when logical sizes are measured and the logical total would
/// overflow, it is skipped; otherwise the logical total grows (when
/// measured) and, unless the allocated total would overflow, so does the
/// allocated one.
pub open spec fn root_file_step(t: RootTally, logical: u64, allocated: u64, measure_logical: bool) -> (
    RootTally,
    RootFileOutcome,
) {
    let counted = RootTally { files: (t.files + 1) as u64, ..t };
    if measure_logical && t.files_logical + logical > u64::MAX {
        (counted, RootFileOutcome::LogicalOverflow)
    } else {
        let with_logical = if measure_logical {
            RootTally { files_logical: (t.files_logical + logical) as u64, ..counted }
        } else {
            counted
        };
        if t.files_allocated + allocated > u64::MAX {
            (with_logical, RootFileOutcome::AllocatedOverflow)
        } else {
            (
                RootTally { files_allocated: (t.files_allocated + allocated) as u64, ..with_logical },
                RootFileOutcome::Recorded,
            )
        }
    }
}

impl RootTally {
    /// The totals of a root before any entry is seen, with the root's own
    /// times.
    pub fn new(mtime: Option<i64>, atime: Option<i64>) -> (t: RootTally)
        ensures
            t == (RootTally {
                files: 0,
                files_logical: 0,
                files_allocated: 0,
                sub_dirs: 0,
                sub_files: 0,
                sub_logical: 0,
                sub_allocated: 0,
                latest_mtime: mtime,
                latest_atime: atime,
            }),
    {
        RootTally {
            files: 0,
            files_logical: 0,
            files_allocated: 0,
            sub_dirs: 0,
            sub_files: 0,
            sub_logical: 0,
            sub_allocated: 0,
            latest_mtime: mtime,
            latest_atime: atime,
        }
    }

    /// Keeps the later of the recorded times and an entry's times.
    pub fn note_times(&mut self, mtime: Option<i64>, atime: Option<i64>)
        ensures
            *final(self) == (RootTally {
                latest_mtime: later(old(self).latest_mtime, mtime),
                latest_atime: later(old(self).latest_atime, atime),
                ..*old(self)
            }),
    {
        self.latest_mtime = max_opt(self.latest_mtime, mtime);
        self.latest_atime = max_opt(self.latest_atime, atime);
    }

    /// Counts a file directly under the root.
    pub fn add_file(&mut self, logical: u64, allocated: u64, measure_logical: bool) -> (o:
        RootFileOutcome)
        requires
            old(self).files < u64::MAX,
        ensures
            (*final(self), o) == root_file_step(*old(self), logical, allocated, measure_logical),
    {
        self.files = self.files + 1;
        let (new_logical, overflow_logical) = match self.files_logical.checked_add(logical) {
            Some(v) => (v, false),
            None => (0, true),
        };
        if overflow_logical && measure_logical {
            return RootFileOutcome::LogicalOverflow;
        } else if measure_logical {
            self.files_logical = new_logical;
        }
        match self.files_allocated.checked_add(allocated) {
            Some(v) => {
                self.files_allocated = v;
                RootFileOutcome::Recorded
            },
            None => RootFileOutcome::AllocatedOverflow,
        }
    }

    /// Adds the totals a subdirectory reported.
    pub fn add_subtree(&mut self, sub: &ScanResultSummary)
        ensures
            *final(self) == (RootTally {
                sub_dirs: sat_add(old(self).sub_dirs, sub.total_dirs),
                sub_files: sat_add(old(self).sub_files, sub.total_files),
                sub_logical: sat_add(old(self).sub_logical, sub.total_logical_size),
                sub_allocated: sat_add(old(self).sub_allocated, sub.total_allocated_size),
                ..*old(self)
            }),
    {
        self.sub_logical = self.sub_logical.saturating_add(sub.total_logical_size);
        self.sub_allocated = self.sub_allocated.saturating_add(sub.total_allocated_size);
        self.sub_dirs = self.sub_dirs.saturating_add(sub.total_dirs);
        self.sub_files = self.sub_files.saturating_add(sub.total_files);
    }

    /// The root's record: its own files plus everything its subdirectories
    /// reported.
    pub fn node_record(&self, path: String, parent_path: Option<String>, depth: u32) -> (n:
        NodeRecord)
        ensures
            n.path == path,
            n.parent_path == parent_path,
            n.depth == depth,
            n.is_dir,
            n.logical_size == sat_add(self.files_logical, self.sub_logical),
            n.allocated_size == sat_add(self.files_allocated, self.sub_allocated),
            n.file_count == sat_add(self.files, self.sub_files),
            n.dir_count == self.sub_dirs,
            n.mtime == self.latest_mtime,
            n.atime == self.latest_atime,
    {
        NodeRecord {
            path,
            parent_path,
            depth,
            is_dir: true,
            logical_size: self.files_logical.saturating_add(self.sub_logical),
            allocated_size: self.files_allocated.saturating_add(self.sub_allocated),
            file_count: self.files.saturating_add(self.sub_files),
            dir_count: self.sub_dirs,
            mtime: self.latest_mtime,
            atime: self.latest_atime,
        }
    }

    /// What the root itself adds to the scan's totals: one directory and its
    /// own files (the subdirectories report their own).
    pub fn own_summary(&self) -> (s: ScanResultSummary)
        ensures
            s == (ScanResultSummary {
                total_dirs: 1,
                total_files: self.files,
                total_logical_size: self.files_logical,
                total_allocated_size: self.files_allocated,
                warnings: 0,
                latest_mtime: self.latest_mtime,
                latest_atime: self.latest_atime,
            }),
    {
        ScanResultSummary {
            total_dirs: 1,
            total_files: self.files,
            total_logical_size: self.files_logical,
            total_allocated_size: self.files_allocated,
            warnings: 0,
            latest_mtime: self.latest_mtime,
            latest_atime: self.latest_atime,
        }
    }
}

// ---------------------------------------------------------------------------
// Sizing the work
// ---------------------------------------------------------------------------

/// The number of root workers for `cpus` logical CPUs (at least one
/// assumed): three quarters (at least 2) from 4 CPUs on, half from 2, else 1.
pub open spec fn optimal_workers_for(cpus: usize) -> usize {
    let c = if cpus < 1 { 1 } else { cpus };
    if c >= 4 {
        let q = (c * 3 / 4) as usize;
        if q < 2 { 2 } else { q }
    } else if c >= 2 {
        (c / 2) as usize
    } else {
        1
    }
}

/// The number of root workers for `cpus` logical CPUs.
pub fn optimal_workers(cpus: usize) -> (r: usize)
    ensures
        r == optimal_workers_for(cpus),
        r >= 1,
{
    let c = if cpus < 1 { 1 } else { cpus };
    if c >= 4 {
        let q = c / 4 * 3 + (c % 4) * 3 / 4;
        assert(q == c * 3 / 4) by (nonlinear_arith)
            requires
                q == c / 4 * 3 + (c % 4) * 3 / 4,
                c >= 4,
        ;
        if q < 2 { 2 } else { q }
    } else if c >= 2 {
        c / 2
    } else {
        1
    }
}

/// How many roots are scanned at once: the requested number (or the
/// optimal one), at least 1, and no more than the handle limit (itself
/// taken as at least 1) when one is set.
pub open spec fn scan_concurrency_for(requested: Option<usize>, workers: usize, handle_limit: Option<usize>) -> usize {
    let base = match requested {
        Some(n) => n,
        None => workers,
    };
    let c = if base < 1 { 1 } else { base };
    match handle_limit {
        Some(h) => {
            let hh = if h < 1 { 1 } else { h };
            if c < hh { c } else { hh }
        },
        None => c,
    }
}

/// How many roots are scanned at once.
pub fn scan_concurrency(requested: Option<usize>, workers: usize, handle_limit: Option<usize>) -> (r: usize)
    ensures
        r == scan_concurrency_for(requested, workers, handle_limit),
        r >= 1,
{
    let base = match requested {
        Some(n) => n,
        None => workers,
    };
    let c = if base < 1 { 1 } else { base };
    match handle_limit {
        Some(h) => {
            let hh = if h < 1 { 1 } else { h };
            if c < hh { c } else { hh }
        },
        None => c,
    }
}

/// The capacity of the channel that carries partial results:
/// `8 * concurrency + 128` kept within 256..=2048, and 2048 when that
/// computation overflows.
pub open spec fn result_channel_size_for(concurrency: usize) -> usize {
    let n = concurrency * 8 + 128;
    if n > usize::MAX {
        2048
    } else if n < 256 {
        256
    } else if n > 2048 {
        2048
    } else {
        n as usize
    }
}

/// The capacity of the channel that carries partial results.
pub fn result_channel_size(concurrency: usize) -> (r: usize)
    ensures
        r == result_channel_size_for(concurrency),
        256 <= r <= 2048,
{
    match concurrency.checked_mul(8) {
        None => 2048,
        Some(m) => match m.checked_add(128) {
            None => 2048,
            Some(n) => if n < 256 {
                256
            } else if n > 2048 {
                2048
            } else {
                n
            },
        },
    }
}

/// The initial capacity of the pending-record buffers: twice the larger of
/// the flush threshold and the batch size (saturating), at most 50000.
pub fn record_buffer_capacity(flush_threshold: usize, batch_size: usize) -> (r: usize)
    ensures
        r == {
            let m = if flush_threshold >= batch_size { flush_threshold } else { batch_size };
            let d = if m * 2 > usize::MAX { usize::MAX as int } else { m * 2 };
            if d > 50000 { 50000 } else { d }
        },
{
    let m = if flush_threshold >= batch_size { flush_threshold } else { batch_size };
    let d = match m.checked_mul(2) {
        Some(v) => v,
        None => usize::MAX,
    };
    if d > 50000 { 50000 } else { d }
}

/// How many subdirectories of a root are scanned at once: the configured
/// directory concurrency, else the scan's concurrency, else 1; then kept
/// within 1..=64.
pub fn subdir_workers(dir_concurrency: Option<usize>, scan_concurrency: Option<usize>) -> (r: usize)
    ensures
        r == {
            let base: usize = match dir_concurrency {
                Some(d) => d,
                None => match scan_concurrency {
                    Some(c) => c,
                    None => 1,
                },
            };
            if base < 1 { 1 } else if base > 64 { 64 } else { base }
        },
        1 <= r <= 64,
{
    let base: usize = match dir_concurrency {
        Some(d) => d,
        None => match scan_concurrency {
            Some(c) => c,
            None => 1,
        },
    };
    if base < 1 { 1 } else if base > 64 { 64 } else { base }
}

/// Whether the pending records are written out now: once their number
/// reaches the larger of the flush threshold and the batch size.
pub fn should_persist(pending_nodes: usize, pending_files: usize, flush_threshold: usize, batch_size: usize) -> (b: bool)
    ensures
        b == (pending_nodes + pending_files >= if flush_threshold >= batch_size {
            flush_threshold
        } else {
            batch_size
        }),
{
    let limit = if flush_threshold >= batch_size { flush_threshold } else { batch_size };
    pending_nodes as u128 + pending_files as u128 >= limit as u128
}

/// Whether a worker hands its buffered records on: once they reach the
/// flush threshold (taken as at least 1).
pub fn buffer_full(buffered: usize, flush_threshold: usize) -> (b: bool)
    ensures
        b == (buffered >= if flush_threshold < 1 { 1 } else { flush_threshold }),
{
    buffered >= if flush_threshold < 1 { 1 } else { flush_threshold }
}

/// Whether a progress event is due after `entries` entries: every 512th.
pub fn progress_due(entries: u64) -> (b: bool)
    ensures
        b == (entries % 512 == 0),
{
    entries % 512 == 0
}

/// Whether a directory walker sends a progress event because time passed:
/// two seconds or more since its last one.
pub fn walker_progress_due(elapsed_ms: u64) -> (b: bool)
    ensures
        b == (elapsed_ms >= 2000),
{
    elapsed_ms >= 2000
}

/// Whether the periodic progress event is sent: when the totals changed
/// since the last one, or at least five seconds passed.
pub fn heartbeat_due(current: (u64, u64, u64, u64), last: (u64, u64, u64, u64), elapsed_ms: u64) -> (b: bool)
    ensures
        b == (current != last || elapsed_ms >= 5000),
{
    current.0 != last.0 || current.1 != last.1 || current.2 != last.2 || current.3 != last.3
        || elapsed_ms >= 5000
}

/// The most variables one SQLite statement may bind.
pub const SQLITE_MAX_VARS: usize = 999;

/// Values bound per node row.
pub const NODE_BINDS_PER_ROW: usize = 11;

/// Values bound per file row.
pub const FILE_BINDS_PER_ROW: usize = 7;

/// Rows per insert statement: the batch size (at least 1), at most what the
/// statement's variable limit allows for rows of `binds_per_row` values.
pub open spec fn rows_per_statement_for(batch_size: usize, binds_per_row: usize) -> usize {
    let cap = if binds_per_row == 0 { 1 } else {
        let q = SQLITE_MAX_VARS / binds_per_row;
        if q < 1 { 1 } else { q }
    };
    let b = if batch_size < 1 { 1 } else { batch_size };
    if b < cap { b } else { cap as usize }
}

/// Rows per insert statement for rows of `binds_per_row` values.
pub fn rows_per_statement(batch_size: usize, binds_per_row: usize) -> (r: usize)
    ensures
        r == rows_per_statement_for(batch_size, binds_per_row),
        r >= 1,
        r * binds_per_row <= SQLITE_MAX_VARS || binds_per_row > SQLITE_MAX_VARS,
{
    let cap = if binds_per_row == 0 { 1 } else {
        let q = SQLITE_MAX_VARS / binds_per_row;
        if q < 1 { 1 } else { q }
    };
    let b = if batch_size < 1 { 1 } else { batch_size };
    let r = if b < cap { b } else { cap };
    proof {
        if binds_per_row > 0 && binds_per_row <= SQLITE_MAX_VARS {
            assert((SQLITE_MAX_VARS / binds_per_row) * binds_per_row <= SQLITE_MAX_VARS)
                by (nonlinear_arith)
                requires
                    binds_per_row > 0,
            ;
            assert(r * binds_per_row <= cap * binds_per_row) by (nonlinear_arith)
                requires
                    r <= cap,
            ;
        }
    }
    r
}

/// A stored count or size: the value, or `i64::MAX` when it is larger.
pub fn to_stored(v: u64) -> (r: i64)
    ensures
        r == if v > i64::MAX as u64 {
            i64::MAX as int
        } else {
            v as int
        },
{
    if v > i64::MAX as u64 {
        i64::MAX
    } else {
        v as i64
    }
}

// ---------------------------------------------------------------------------
// Path facts
// ---------------------------------------------------------------------------

/// A path's depth: its number of components, at most `u32::MAX`.
pub fn calc_depth(path: &str) -> (r: u32)
    ensures
        r == if path_parts(path@).len() > u32::MAX {
            u32::MAX
        } else {
            path_parts(path@).len() as u32
        },
{
    let n = component_count(path);
    if n > u32::MAX as usize {
        u32::MAX
    } else {
        n as u32
    }
}

/// A path's parent, as text; `None` for a root or an empty path.
pub fn parent_path_string(path: &str) -> (r: Option<String>)
    ensures
        match r {
            Some(p) => path_parent(path@) == Some(p@),
            None => path_parent(path@) is None,
        },
{
    parent_of(path)
}

// ---------------------------------------------------------------------------
// Platform facts
// ---------------------------------------------------------------------------

/// A time stamp given as whole seconds after the Unix epoch, as the signed
/// count the records store (a count beyond `i64::MAX` wraps, as the `as`
/// conversion does); `None` where the time is unknown or lies before the
/// epoch.
pub fn system_time_to_secs(secs_after_epoch: Option<u64>) -> (r: Option<i64>)
    ensures
        r == match secs_after_epoch {
            Some(s) => Some(s as i64),
            None => None::<i64>,
        },
{
    match secs_after_epoch {
        Some(s) => Some(s as i64),
        None => None,
    }
}

/// The Windows attribute bit of hidden entries.
pub const FILE_ATTRIBUTE_HIDDEN: u32 = 0x2;

/// The Windows attribute bit of system entries.
pub const FILE_ATTRIBUTE_SYSTEM: u32 = 0x4;

/// The Windows attribute bit of reparse points (links, junctions, mounts).
pub const FILE_ATTRIBUTE_REPARSE_POINT: u32 = 0x400;

/// Whether an entry is hidden or a system entry: its attributes carry the
/// hidden or the system bit. Where the platform keeps no such attributes
/// (`None`), no entry is.
pub fn is_hidden_or_system(attributes: Option<u32>) -> (b: bool)
    ensures
        b == match attributes {
            Some(a) => (a & FILE_ATTRIBUTE_HIDDEN) != 0 || (a & FILE_ATTRIBUTE_SYSTEM) != 0,
            None => false,
        },
{
    match attributes {
        Some(a) => (a & FILE_ATTRIBUTE_HIDDEN) != 0 || (a & FILE_ATTRIBUTE_SYSTEM) != 0,
        None => false,
    }
}

/// Whether an entry is a reparse point: its attributes carry the reparse
/// point bit. Where the platform keeps no such attributes (`None`), no
/// entry is.
pub fn is_reparse_point(attributes: Option<u32>) -> (b: bool)
    ensures
        b == match attributes {
            Some(a) => (a & FILE_ATTRIBUTE_REPARSE_POINT) != 0,
            None => false,
        },
{
    match attributes {
        Some(a) => (a & FILE_ATTRIBUTE_REPARSE_POINT) != 0,
        None => false,
    }
}

/// A Windows UNC path: it begins with two backslashes (`\\server\share`;
/// the extended form `\\?\UNC\server\share` begins the same way).
pub open spec fn unc_text(s: Seq<char>) -> bool {
    s.len() >= 2 && s[0] == '\\' && s[1] == '\\'
}

/// Whether a path is a UNC path: on Windows, one that begins with two
/// backslashes; elsewhere no path is.
pub fn is_unc_path(path: &str, on_windows: bool) -> (b: bool)
    ensures
        b == (on_windows && unc_text(path@)),
{
    if !on_windows {
        return false;
    }
    let v = crate::text::chars_of(path);
    v.len() >= 2 && v[0] == '\\' && v[1] == '\\'
}

/// An ASCII letter.
pub open spec fn is_ascii_letter(c: char) -> bool {
    ('A' <= c && c <= 'Z') || ('a' <= c && c <= 'z')
}

/// The drive letter of a Windows path: an ASCII letter followed by `:`.
pub open spec fn drive_letter(s: Seq<char>) -> Option<char> {
    if s.len() >= 2 && s[1] == ':' && is_ascii_letter(s[0]) {
        Some(s[0])
    } else {
        None
    }
}

/// The drive root whose drive type tells whether a Windows path lies on a
/// mapped network drive: the path's drive letter, `:` and `\`; `None` for a
/// path without a drive letter.
pub fn network_probe_root(path: &str) -> (r: Option<String>)
    ensures
        match r {
            Some(root) => drive_letter(path@) matches Some(c) && root@ == seq![c, ':', '\\'],
            None => drive_letter(path@) is None,
        },
{
    let v = crate::text::chars_of(path);
    if v.len() >= 2 && v[1] == ':' {
        let c = v[0];
        if ('A' <= c && c <= 'Z') || ('a' <= c && c <= 'z') {
            let mut root: Vec<char> = Vec::new();
            root.push(c);
            root.push(':');
            root.push('\\');
            assert(root@ =~= seq![c, ':', '\\']);
            return Some(crate::text::string_of(&root));
        }
    }
    None
}

/// The drive type code of a remote (network) drive.
pub const DRIVE_REMOTE: u32 = 4;

/// Whether a path lies on a network share: on Windows, a UNC path or a
/// path whose drive root (see `network_probe_root`) reports the remote drive
/// type, `root_drive_type` being what that root reports (`None` where the
/// path has no drive letter); elsewhere no path is.
pub fn is_network_path(path: &str, on_windows: bool, root_drive_type: Option<u32>) -> (b: bool)
    ensures
        b == (on_windows && (unc_text(path@) || (drive_letter(path@) is Some && root_drive_type
            == Some(DRIVE_REMOTE)))),
{
    if !on_windows {
        return false;
    }
    if is_unc_path(path, true) {
        return true;
    }
    match network_probe_root(path) {
        Some(_) => root_drive_type == Some(DRIVE_REMOTE),
        None => false,
    }
}

/// The low part the compressed-file-size query returns on failure.
pub const INVALID_FILE_SIZE: u32 = 0xFFFF_FFFF;

/// The allocated size a compressed-file-size query reports: nothing when the
/// low part is `INVALID_FILE_SIZE` and an error is set (the caller then
/// falls back to the logical size), otherwise the high part above the low
/// part.
pub fn compressed_size(low: u32, high: u32, last_error: u32) -> (r: Option<u64>)
    ensures
        r == if low == INVALID_FILE_SIZE && last_error != 0 {
            None::<u64>
        } else {
            Some((high as nat * 0x1_0000_0000 + low as nat) as u64)
        },
{
    if low == INVALID_FILE_SIZE && last_error != 0 {
        return None;
    }
    let h: u64 = high as u64;
    let l: u64 = low as u64;
    let size: u64 = (h << 32u64) | l;
    assert(size == h * 0x1_0000_0000 + l) by (bit_vector)
        requires
            size == (h << 32u64) | l,
            h < 0x1_0000_0000,
            l < 0x1_0000_0000,
    ;
    Some(size)
}

/// The number of allocated sizes kept in the scanner's cache: the
/// configured number (10000 when none is), kept within 100..=100000.
pub fn get_cache_size(configured: Option<usize>) -> (r: usize)
    ensures
        r == ({
            let c: int = match configured {
                Some(v) => v as int,
                None => 10000int,
            };
            if c < 100 {
                100int
            } else if c > 100000 {
                100000int
            } else {
                c
            }
        }),
{
    let c: usize = match configured {
        Some(v) => v,
        None => 10000,
    };
    if c < 100 {
        100
    } else if c > 100000 {
        100000
    } else {
        c
    }
}


} // verus!
