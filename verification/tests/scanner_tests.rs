use speicherwald::scanner::globs::{build_globset, exclude_patterns, matches_excludes, GlobBuildError};
use speicherwald::scanner::{
    allocated_size_for, calc_depth, diff_summary, entry_action, max_opt, optimal_workers,
    parent_path_string, result_channel_size, root_entry_action, rows_per_statement, scan_concurrency,
    should_persist, subdir_workers, to_stored, DirTally, EntryAction, EntryMeta, EntryRules,
    RootFileOutcome, RootTally, ScanResultSummary, FILE_BINDS_PER_ROW, NODE_BINDS_PER_ROW,
};

fn s(v: &[&str]) -> Vec<String> {
    v.iter().map(|x| x.to_string()).collect()
}

#[test]
fn test_glob_patterns() {
    let patterns = s(&["**/.git", "**/node_modules", "*.tmp"]);
    let gs = build_globset(&patterns).unwrap();
    assert_eq!(gs.len(), 3);

    assert!(matches_excludes(".git", &gs));
    assert!(matches_excludes("path/to/.git", &gs));
    assert!(matches_excludes("node_modules", &gs));
    assert!(matches_excludes("src/node_modules", &gs));
    assert!(matches_excludes("file.tmp", &gs));
    assert!(!matches_excludes("file.txt", &gs));
    assert!(!matches_excludes("gitignore", &gs));
}

#[test]
fn exclude_patterns_are_trimmed_normalized_and_bounded() {
    let long = "a".repeat(1025);
    let many = "*".repeat(21);
    let used = exclude_patterns(&s(&["  **\\build  ", "", "   ", &long, &many, "*.log"]));
    assert_eq!(used, s(&["**/build", "*.log"]));
}

#[test]
fn invalid_exclude_pattern_is_reported() {
    match build_globset(&s(&["ok/*", "[invalid"])) {
        Err(GlobBuildError::InvalidPattern { pattern, .. }) => assert_eq!(pattern, "[invalid"),
        _ => panic!("expected an invalid pattern"),
    }
    let e = match build_globset(&s(&["[x"])) {
        Err(e) => e,
        Ok(_) => panic!("expected an invalid pattern"),
    };
    assert!(e.message().starts_with("Invalid glob pattern '[x': "));
}

#[test]
fn paths_match_excludes_with_forward_slashes() {
    let gs = build_globset(&s(&["**/target/**"])).unwrap();
    assert!(matches_excludes("C:\\work\\target\\debug", &gs));
    assert!(matches_excludes("bad\u{FFFD}name", &gs));
    let empty = build_globset(&Vec::new()).unwrap();
    assert!(!matches_excludes("bad\u{FFFD}name", &empty));
}

#[test]
fn summaries_merge_and_differ() {
    let mut total = ScanResultSummary::default();
    let part = ScanResultSummary {
        total_dirs: 2,
        total_files: 3,
        total_logical_size: 10,
        total_allocated_size: u64::MAX,
        warnings: 1,
        latest_mtime: Some(5),
        latest_atime: None,
    };
    total.absorb(&part);
    total.absorb(&part);
    assert_eq!(total.total_dirs, 4);
    assert_eq!(total.total_allocated_size, u64::MAX);
    assert_eq!(total.latest_mtime, Some(5));
    let d = diff_summary(&total, &part);
    assert_eq!(d.total_files, 3);
    assert_eq!(d.warnings, 1);
    let d = diff_summary(&part, &total);
    assert_eq!(d.total_files, 0);
    assert_eq!(max_opt(Some(3), Some(9)), Some(9));
    assert_eq!(max_opt(None, Some(-1)), Some(-1));
    assert_eq!(max_opt(None, None), None);
}

#[test]
fn directory_totals_saturate() {
    let mut t = DirTally::new();
    t.add_file(10, 4096, true);
    t.add_file(u64::MAX, 1, true);
    t.add_subdir(3, 7, 5, 5);
    assert_eq!(t.local_dirs, 4);
    assert_eq!(t.local_files, 9);
    assert_eq!(t.logical, u64::MAX);
    assert_eq!(t.allocated, 4102);
    let mut u = DirTally::new();
    u.add_file(10, 20, false);
    assert_eq!(u.logical, 0);
    let n = t.node_record("/a".to_string(), Some("/".to_string()), 2, None, None).unwrap();
    assert_eq!(n.dir_count, 3);
    assert_eq!(n.file_count, 9);
    let broken = DirTally {
        local_dirs: 0,
        local_files: 0,
        logical: 0,
        allocated: 0,
        own_files: 0,
        own_logical: 0,
        own_allocated: 0,
    };
    assert_eq!(
        broken.node_record("/a".to_string(), None, 1, None, None).unwrap_err(),
        "Invalid directory count detected"
    );
}

#[test]
fn root_totals_skip_overflowing_files() {
    let mut r = RootTally::new(Some(1), None);
    assert_eq!(r.add_file(5, 8, true), RootFileOutcome::Recorded);
    assert_eq!(r.add_file(u64::MAX, 8, true), RootFileOutcome::LogicalOverflow);
    assert_eq!(r.files, 2);
    assert_eq!(r.files_logical, 5);
    assert_eq!(r.add_file(1, u64::MAX, true), RootFileOutcome::AllocatedOverflow);
    assert_eq!(r.files_logical, 6);
    assert_eq!(r.files_allocated, 8);
    r.note_times(Some(9), Some(2));
    r.add_subtree(&ScanResultSummary {
        total_dirs: 4,
        total_files: 6,
        total_logical_size: 100,
        total_allocated_size: 200,
        warnings: 0,
        latest_mtime: None,
        latest_atime: None,
    });
    let n = r.node_record("/r".to_string(), None, 1);
    assert_eq!(n.dir_count, 4);
    assert_eq!(n.file_count, 9);
    assert_eq!(n.logical_size, 106);
    assert_eq!(n.allocated_size, 208);
    assert_eq!(n.mtime, Some(9));
    let own = r.own_summary();
    assert_eq!(own.total_dirs, 1);
    assert_eq!(own.total_files, 3);
}

#[test]
fn entries_are_decided_by_kind_and_options() {
    let dir = EntryMeta { is_dir: true, is_file: false, hidden_or_system: false, reparse_point: false, network_path: false };
    let link = EntryMeta { reparse_point: true, ..dir };
    let share = EntryMeta { network_path: true, ..link };
    let hidden_file = EntryMeta { is_dir: false, is_file: true, hidden_or_system: true, ..dir };
    let rules = EntryRules { follow_symlinks: false, include_hidden: false, max_depth: Some(2) };
    assert_eq!(root_entry_action(&dir, &rules), EntryAction::Descend);
    assert_eq!(root_entry_action(&link, &rules), EntryAction::Skip);
    assert_eq!(root_entry_action(&share, &rules), EntryAction::Descend);
    assert_eq!(root_entry_action(&hidden_file, &rules), EntryAction::Skip);
    assert_eq!(entry_action(&share, &rules, 1), EntryAction::Skip);
    assert_eq!(entry_action(&dir, &rules, 2), EntryAction::Descend);
    assert_eq!(entry_action(&dir, &rules, 3), EntryAction::Skip);
    let shallow = EntryRules { max_depth: Some(0), ..rules };
    assert_eq!(root_entry_action(&dir, &shallow), EntryAction::Skip);
    let all = EntryRules { follow_symlinks: true, include_hidden: true, max_depth: None };
    assert_eq!(entry_action(&hidden_file, &all, 50), EntryAction::CountFile);
    assert_eq!(allocated_size_for(true, Some(4096), 10), 4096);
    assert_eq!(allocated_size_for(true, None, 10), 10);
    assert_eq!(allocated_size_for(false, Some(4096), 10), 10);
}

#[test]
fn work_is_sized_within_bounds() {
    assert_eq!(optimal_workers(0), 1);
    assert_eq!(optimal_workers(2), 1);
    assert_eq!(optimal_workers(4), 3);
    assert_eq!(optimal_workers(16), 12);
    assert_eq!(scan_concurrency(None, 6, Some(2)), 2);
    assert_eq!(scan_concurrency(Some(0), 6, None), 1);
    assert_eq!(result_channel_size(1), 256);
    assert_eq!(result_channel_size(100), 928);
    assert_eq!(result_channel_size(usize::MAX), 2048);
    assert_eq!(subdir_workers(None, None), 1);
    assert_eq!(subdir_workers(Some(100), Some(2)), 64);
    assert!(should_persist(3000, 1000, 4000, 8000) == false);
    assert!(should_persist(3000, 5000, 4000, 8000));
    assert_eq!(rows_per_statement(4000, NODE_BINDS_PER_ROW), 90);
    assert_eq!(rows_per_statement(4000, FILE_BINDS_PER_ROW), 142);
    assert_eq!(rows_per_statement(0, FILE_BINDS_PER_ROW), 1);
    assert_eq!(to_stored(u64::MAX), i64::MAX);
    assert_eq!(to_stored(7), 7);
}

#[test]
fn depth_and_parent_follow_path_components() {
    assert_eq!(calc_depth("/a/b"), 3);
    assert_eq!(calc_depth("a//b/"), 2);
    assert_eq!(parent_path_string("/a/b").as_deref(), Some("/a"));
    assert_eq!(parent_path_string("/"), None);
}
