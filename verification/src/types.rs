//! The values exchanged with clients: scan options, tree nodes, listing
//! items, drives, move requests and scan events.

use vstd::prelude::*;

verus! {

/// Options for a scan.
#[derive(Clone, Debug)]
pub struct ScanOptions {
    /// Whether to follow symbolic links.
    pub follow_symlinks: bool,
    /// Whether to include hidden files and directories.
    pub include_hidden: bool,
    /// Whether to measure logical file size.
    pub measure_logical: bool,
    /// Whether to measure allocated disk space.
    pub measure_allocated: bool,
    /// Glob patterns of paths to skip.
    pub excludes: Vec<String>,
    /// The maximum depth of the scan.
    pub max_depth: Option<u32>,
    /// The number of concurrent scanner threads.
    pub concurrency: Option<usize>,
}

/// A directory of a scanned tree, as stored.
#[derive(Clone, Debug)]
pub struct NodeDto {
    /// The directory's path.
    pub path: String,
    /// Its parent's path.
    pub parent_path: Option<String>,
    /// Its depth in the tree.
    pub depth: i64,
    /// Whether it is a directory.
    pub is_dir: bool,
    /// Total logical size of the files below it, in bytes.
    pub logical_size: i64,
    /// Total allocated size of the files below it, in bytes.
    pub allocated_size: i64,
    /// Number of files below it.
    pub file_count: i64,
    /// Number of directories below it.
    pub dir_count: i64,
    /// Latest modification time seen, in seconds since the epoch.
    pub mtime: Option<i64>,
    /// Latest access time seen, in seconds since the epoch.
    pub atime: Option<i64>,
}

/// A file of a scanned tree, as stored.
#[derive(Clone, Debug)]
pub struct FileDto {
    /// The file's path.
    pub path: String,
    /// Its directory's path.
    pub parent_path: Option<String>,
    /// Its logical size in bytes.
    pub logical_size: i64,
    /// Its allocated size in bytes.
    pub allocated_size: i64,
}

/// An entry of a "largest" or "most recent" list.
#[derive(Clone, Debug)]
pub enum TopItem {
    /// A directory.
    Dir {
        path: String,
        parent_path: Option<String>,
        depth: i64,
        logical_size: i64,
        allocated_size: i64,
        file_count: i64,
        dir_count: i64,
        mtime: Option<i64>,
        atime: Option<i64>,
    },
    /// A file.
    File {
        path: String,
        parent_path: Option<String>,
        logical_size: i64,
        allocated_size: i64,
        mtime: Option<i64>,
        atime: Option<i64>,
    },
}

/// An entry of a directory listing.
#[derive(Clone, Debug)]
pub enum ListItem {
    /// A directory.
    Dir {
        name: String,
        path: String,
        parent_path: Option<String>,
        depth: i64,
        logical_size: i64,
        allocated_size: i64,
        file_count: i64,
        dir_count: i64,
        mtime: Option<i64>,
        atime: Option<i64>,
    },
    /// A file.
    File {
        name: String,
        path: String,
        parent_path: Option<String>,
        logical_size: i64,
        allocated_size: i64,
        mtime: Option<i64>,
        atime: Option<i64>,
    },
}

/// A drive or mount point with its capacity.
#[derive(Clone, Debug)]
pub struct DriveInfo {
    /// The drive's root path.
    pub path: String,
    /// Its kind ("fixed", "network", ...).
    pub drive_type: String,
    /// Its capacity in bytes.
    pub total_bytes: u64,
    /// Its free space in bytes.
    pub free_bytes: u64,
}

/// A request to move or copy a file or directory.
#[derive(Clone, Debug)]
pub struct MovePathRequest {
    /// The source path.
    pub source: String,
    /// The destination path.
    pub destination: String,
    /// Whether to remove the source afterwards.
    pub remove_source: bool,
    /// Whether an existing destination may be overwritten.
    pub overwrite: bool,
}

/// The outcome of a move or copy.
#[derive(Clone, Debug)]
pub struct MovePathResponse {
    /// The operation's status.
    pub status: String,
    /// The source path.
    pub source: String,
    /// The destination path.
    pub destination: String,
    /// Bytes to transfer.
    pub bytes_to_transfer: u64,
    /// Bytes moved or copied.
    pub bytes_moved: u64,
    /// Bytes freed at the source.
    pub freed_bytes: u64,
    /// Duration in milliseconds.
    pub duration_ms: u128,
    /// Start time.
    pub started_at: String,
    /// End time.
    pub finished_at: String,
    /// Warnings raised on the way.
    pub warnings: Vec<String>,
}

/// A request to start a scan; unset options take the configured defaults.
#[derive(Clone, Debug)]
pub struct CreateScanRequest {
    /// The directories to scan.
    pub root_paths: Vec<String>,
    /// Whether to follow symbolic links.
    pub follow_symlinks: Option<bool>,
    /// Whether to include hidden files and directories.
    pub include_hidden: Option<bool>,
    /// Whether to measure logical file size.
    pub measure_logical: Option<bool>,
    /// Whether to measure allocated disk space.
    pub measure_allocated: Option<bool>,
    /// Glob patterns of paths to skip.
    pub excludes: Option<Vec<String>>,
    /// The maximum depth of the scan.
    pub max_depth: Option<u32>,
    /// The number of concurrent scanner threads.
    pub concurrency: Option<usize>,
}

/// Something that happened during a scan, as streamed to clients.
#[derive(Clone, Debug)]
pub enum ScanEvent {
    /// The scan started on these roots.
    Started { root_paths: Vec<String> },
    /// Totals so far.
    Progress {
        current_path: String,
        dirs_scanned: u64,
        files_scanned: u64,
        logical_size: u64,
        allocated_size: u64,
    },
    /// A path could not be handled.
    Warning { path: String, code: String, message: String },
    /// The scan finished with these totals.
    Done { total_dirs: u64, total_files: u64, total_logical_size: u64, total_allocated_size: u64 },
    /// The scan was cancelled.
    Cancelled,
    /// The scan failed.
    Failed { message: String },
}

/// The default number of scanner threads on a machine with `cpus` logical
/// CPUs: half of them, at least 2 and at most 16.
pub open spec fn default_concurrency_for(cpus: usize) -> usize {
    let half = cpus / 2;
    if half < 2 {
        2
    } else if half > 16 {
        16
    } else {
        half
    }
}

/// The number of logical CPUs (`num_cpus::get`). Nothing is promised of the
/// count, which depends on the machine.
#[verifier::external_body]
fn logical_cpus() -> usize {
    num_cpus::get()
}

/// The default number of scanner threads for `cpus` logical CPUs.
pub fn default_concurrency(cpus: usize) -> (r: usize)
    ensures
        r == default_concurrency_for(cpus),
        2 <= r <= 16,
{
    let half = cpus / 2;
    if half < 2 {
        2
    } else if half > 16 {
        16
    } else {
        half
    }
}

impl Default for ScanOptions {
    fn default() -> (r: ScanOptions)
        ensures
            !r.follow_symlinks,
            r.include_hidden,
            r.measure_logical,
            r.measure_allocated,
            r.excludes@.len() == 0,
            r.max_depth is None,
            exists|cpus: usize| r.concurrency == Some(#[trigger] default_concurrency_for(cpus)),
            r.concurrency matches Some(c) && 2 <= c <= 16,
    {
        let cpus = logical_cpus();
        let c = default_concurrency(cpus);
        assert(Some(c) == Some(default_concurrency_for(cpus)));
        ScanOptions {
            follow_symlinks: false,
            include_hidden: true,
            measure_logical: true,
            measure_allocated: true,
            excludes: Vec::new(),
            max_depth: None,
            concurrency: Some(c),
        }
    }
}

} // verus!
