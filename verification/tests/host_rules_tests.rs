use speicherwald::error::AppError;
use speicherwald::middleware::validation::validate_file_path_on;
use speicherwald::routes::paths::{
    copy_entry_action, copy_failure, remove_unused_destination, CopyEntryAction, CopyEntryKind, CopyFailure,
};
use speicherwald::routes::scans::{
    check_create_request, get_name, list_window, normalize_excludes, normalize_query_path_on, normalize_query_path_windows,
    ordered_page, plan_tree_query, tree_subtree, TreeQuery,
};
use speicherwald::metrics::Metrics;
use speicherwald::scanner::globs::{build_globset, matches_excludes, matches_excludes_dir};
use speicherwald::scanner::{absorb_dir, walker_progress_due, DirTally, ScanResultSummary};
use speicherwald::types::{CreateScanRequest, ListItem};

#[test]
fn tree_bounds_keep_underscores_plain() {
    let r = tree_subtree("/tmp/speicherwald_tree_root_1");
    assert_eq!(r.exact, "/tmp/speicherwald_tree_root_1");
    assert_eq!(r.low, "/tmp/speicherwald_tree_root_1/");
    assert_eq!(r.high, "/tmp/speicherwald_tree_root_1/~");
    let child = "/tmp/speicherwald_tree_root_1/child";
    assert!(child >= r.low.as_str() && child < r.high.as_str());
}

#[test]
fn tree_plan_on_a_root_covers_its_child() {
    let q = TreeQuery {
        path: Some("/tmp/speicherwald_tree_root_7".to_string()),
        depth: Some(1),
        sort: Some("size".to_string()),
        limit: Some(100),
    };
    let plan = plan_tree_query(&q, false).unwrap();
    let range = plan.range.unwrap();
    let child = "/tmp/speicherwald_tree_root_7/child";
    assert!(child >= range.low.as_str() && child < range.high.as_str());
    assert!(!plan.by_name);
    assert_eq!(plan.limit, 100);
}

#[test]
fn io_errors_name_their_kind() {
    let e: AppError = std::io::Error::new(std::io::ErrorKind::NotFound, "File not found").into();
    match e {
        AppError::IoError(m) => assert_eq!(m, "NotFound: File not found"),
        _ => panic!("Expected IoError variant"),
    }
    let e: AppError = std::io::Error::new(std::io::ErrorKind::PermissionDenied, "nope").into();
    match e {
        AppError::IoError(m) => assert_eq!(m, "PermissionDenied: nope"),
        _ => panic!("Expected IoError variant"),
    }
}

#[test]
fn scan_totals_count_each_directory_and_file_once() {
    // root/ with a.txt (10) and sub/; sub/ with b.txt (20), c.txt (30) and deep/;
    // deep/ with d.txt (40). The walk finishes deep, then sub, then root.
    let mut summary = ScanResultSummary::default();
    let mut deep = DirTally::new();
    deep.add_file(40, 40, true);
    absorb_dir(&mut summary, &deep);
    let mut sub = DirTally::new();
    sub.add_file(20, 20, true);
    sub.add_file(30, 30, true);
    sub.add_subdir(deep.local_dirs, deep.local_files, deep.logical, deep.allocated);
    absorb_dir(&mut summary, &sub);
    let mut root = DirTally::new();
    root.add_file(10, 10, true);
    root.add_subdir(sub.local_dirs, sub.local_files, sub.logical, sub.allocated);
    absorb_dir(&mut summary, &root);
    assert_eq!(summary.total_dirs, 3);
    assert_eq!(summary.total_files, 4);
    assert_eq!(summary.total_logical_size, 100);
    assert_eq!(summary.total_allocated_size, 100);
    assert_eq!(root.local_dirs, 3);
    assert_eq!(root.local_files, 4);
    assert_eq!(root.own_files, 1);
    assert_eq!(sub.own_logical, 50);
}

#[test]
fn windows_query_paths_use_backslashes() {
    assert_eq!(normalize_query_path_windows("C:/x").unwrap(), "C:\\x");
    assert_eq!(normalize_query_path_windows("C:").unwrap(), "C:\\");
    match normalize_query_path_windows("a\0b") {
        Err(AppError::BadRequest(m)) => assert_eq!(m, "path contains null byte"),
        _ => panic!(),
    }
    match normalize_query_path_windows("  ") {
        Err(AppError::BadRequest(m)) => assert_eq!(m, "path must not be empty"),
        _ => panic!(),
    }
    assert_eq!(normalize_query_path_on("/a/./b", false).unwrap(), "/a/b");
}

#[test]
fn windows_roots_follow_the_windows_rules() {
    assert!(validate_file_path_on("/srv/data", false).is_ok());
    assert!(validate_file_path_on("/srv/da|ta", false).is_ok());
    assert!(validate_file_path_on("C:\\da|ta", true).is_err());
    assert!(validate_file_path_on("C:\\data", true).is_ok());
    let req = CreateScanRequest {
        root_paths: vec!["C:\\da|ta".to_string()],
        follow_symlinks: None,
        include_hidden: None,
        measure_logical: None,
        measure_allocated: None,
        excludes: None,
        max_depth: None,
        concurrency: None,
    };
    match check_create_request(&req, true) {
        Err(AppError::InvalidInput(m)) => assert_eq!(m, "Invalid path: C:\\da|ta"),
        _ => panic!(),
    }
    assert!(check_create_request(&req, false).is_ok());
}

fn listed_file(name: &str, alloc: i64) -> ListItem {
    ListItem::File {
        name: name.to_string(),
        path: format!("/r/{}", name),
        parent_path: Some("/r".to_string()),
        logical_size: alloc,
        allocated_size: alloc,
        mtime: None,
        atime: None,
    }
}

#[test]
fn a_listing_page_is_ordered_then_windowed() {
    let items = vec![listed_file("a", 10), listed_file("b", 30), listed_file("c", 20), listed_file("d", 40)];
    let w = list_window(Some(2), Some(1)).unwrap();
    let page = ordered_page(items, None, None, &w);
    let names: Vec<String> = page.iter().map(get_name).collect();
    assert_eq!(names, vec!["b", "c"]);
    let items = vec![listed_file("a", 10), listed_file("b", 30)];
    let w = list_window(None, Some(5)).unwrap();
    assert!(ordered_page(items, Some("name"), None, &w).is_empty());
}

#[test]
fn copied_trees_skip_links_and_report_failures() {
    assert!(matches!(copy_entry_action(CopyEntryKind::Dir, "/s/d"), CopyEntryAction::CreateDir));
    assert!(matches!(copy_entry_action(CopyEntryKind::File, "/s/f"), CopyEntryAction::CopyFile));
    match copy_entry_action(CopyEntryKind::Symlink, "/s/l") {
        CopyEntryAction::Skip(w) => assert_eq!(w, "Symlink uebersprungen (manuell pruefen): /s/l"),
        _ => panic!(),
    }
    match copy_entry_action(CopyEntryKind::ReparsePoint, "/s/j") {
        CopyEntryAction::Skip(w) => assert_eq!(w, "Reparse point/junction uebersprungen: /s/j"),
        _ => panic!(),
    }
    match copy_failure(true, "permission denied", "/s/f") {
        CopyFailure::RollBack(AppError::IoError(m)) => {
            assert_eq!(m, "Datei konnte nicht kopiert werden (permission denied): /s/f")
        }
        _ => panic!(),
    }
    match copy_failure(false, "permission denied", "/s/f") {
        CopyFailure::Warn(m) => assert_eq!(m, "Datei konnte nicht kopiert werden (permission denied): /s/f"),
        _ => panic!(),
    }
    assert!(remove_unused_destination(0, false, true));
    assert!(!remove_unused_destination(0, true, true));
    assert!(!remove_unused_destination(5, false, true));
    assert!(!remove_unused_destination(0, false, false));
}

#[test]
fn uptime_counts_whole_seconds() {
    let m = Metrics::new();
    assert_eq!(m.snapshot_at(2_500_000_000).uptime_seconds, 2);
    assert_eq!(m.snapshot_at(999_999_999).uptime_seconds, 0);
    assert_eq!(m.snapshot_at(u128::MAX).uptime_seconds, u64::MAX);
    assert_eq!(m.snapshot_at(0).files_processed, 0);
}

#[test]
fn exclude_sets_report_their_size() {
    let gs = build_globset(&vec!["*.tmp".to_string(), "  ".to_string(), "**/.git".to_string()]).unwrap();
    assert_eq!(gs.len(), 2);
    assert!(matches_excludes("a.tmp", &gs));
    assert!(!matches_excludes("a.TMP", &gs));
}

#[test]
fn glob_errors_carry_the_library_text() {
    match AppError::glob_pattern_error("unclosed character class") {
        AppError::InvalidInput(m) => assert_eq!(m, "Invalid glob pattern: unclosed character class"),
        _ => panic!(),
    }
    let e = globset::Glob::new("[x").unwrap_err();
    let text = e.to_string();
    match AppError::from_glob_error(&e) {
        AppError::InvalidInput(m) => {
            assert_eq!(m, format!("Invalid glob pattern: {}", text));
            assert!(m.len() > "Invalid glob pattern: ".len());
        }
        _ => panic!(),
    }
}

#[test]
fn a_trailing_double_star_excludes_the_directory_itself() {
    let gs = build_globset(&vec!["**/subdir1/**".to_string()]).unwrap();
    assert!(!matches_excludes("/tmp/root/subdir1", &gs));
    assert!(matches_excludes_dir("/tmp/root/subdir1", &gs));
    assert!(matches_excludes_dir("/tmp/root/subdir1/deeper", &gs));
    assert!(!matches_excludes_dir("/tmp/root/subdir2", &gs));
    let empty = build_globset(&Vec::new()).unwrap();
    assert!(!matches_excludes_dir("/tmp/root/subdir1", &empty));
}

#[test]
fn the_first_refused_exclude_pattern_is_named() {
    let pats = vec!["ok/*".to_string(), "[one".to_string(), "[two".to_string()];
    match normalize_excludes(Some(&pats), &vec![]) {
        Err(AppError::InvalidInput(m)) => {
            assert!(m.starts_with("Invalid exclude pattern: [one ("));
            assert!(m.ends_with(')'));
            assert!(m.len() > "Invalid exclude pattern: [one ()".len());
        }
        _ => panic!(),
    }
}

#[test]
fn path_rejections_say_whether_the_body_has_a_status() {
    let e = validate_file_path_on("", false).unwrap_err();
    assert_eq!(e.code, "INVALID_PATH");
    assert!(!e.body_has_status);
    let e = validate_file_path_on("../x", false).unwrap_err();
    assert_eq!(e.code, "PATH_TRAVERSAL");
    assert!(e.body_has_status);
}

#[test]
fn walkers_report_progress_every_two_seconds() {
    assert!(!walker_progress_due(1999));
    assert!(walker_progress_due(2000));
    assert!(walker_progress_due(u64::MAX));
}
