use speicherwald::config::AppConfig;
use speicherwald::error::AppError;
use speicherwald::metrics::Metrics;
use speicherwald::routes::drives::{drive_entry, drive_roots, drive_type_name, network_drive_timeout_ms};
use speicherwald::routes::export::{
    csv_next_step, csv_take_files, csv_take_nodes, escape_csv, export_format, export_limit,
    export_scope, format_file_csv, format_node_csv, CsvExportState, CsvStep, ExportFormat,
    FileExport, NodeExport,
};
use speicherwald::routes::paths::{
    check_free_space, check_move_request, check_not_inside, directory_destination,
    file_destination, freed_bytes, target_conflict, DestinationAction, MoveRefusal, TargetConflict,
};
use speicherwald::routes::paths_helpers::{get_volume_root, get_volume_root_windows};
use speicherwald::routes::scans::{
    apply_window, check_create_request, check_roots_exist, escape_like_pattern, event_channel_size,
    finish_scan, get_alloc, get_atime, get_logical, get_mtime, get_name, is_dir, list_window,
    merge_scan_options, normalize_excludes, normalize_query_path, order_recent, plan_cancel,
    plan_tree_query, recent_fetch_cap, recent_fetch_multiplier, recent_limit, recent_scope,
    recent_subtree, sort_items, subtree_like_pattern, top_limit, top_lists_files, tree_limit,
    tree_max_depth, TreeQuery,
};
use speicherwald::routes::search::{
    default_limit, extension_of, file_type_pattern, sanitize_search_term, search_kinds,
    search_pattern, search_window,
};
use speicherwald::scanner::ScanResultSummary;
use speicherwald::types::{CreateScanRequest, ListItem, MovePathRequest, ScanEvent, TopItem};

fn dir(name: &str, alloc: i64, logical: i64, mtime: Option<i64>) -> ListItem {
    ListItem::Dir {
        name: name.to_string(),
        path: format!("/r/{}", name),
        parent_path: Some("/r".to_string()),
        depth: 2,
        logical_size: logical,
        allocated_size: alloc,
        file_count: 0,
        dir_count: 0,
        mtime,
        atime: None,
    }
}

fn file(name: &str, alloc: i64, atime: Option<i64>) -> ListItem {
    ListItem::File {
        name: name.to_string(),
        path: format!("/r/{}", name),
        parent_path: Some("/r".to_string()),
        logical_size: alloc,
        allocated_size: alloc,
        mtime: None,
        atime,
    }
}

fn names(items: &[ListItem]) -> Vec<String> {
    items.iter().map(get_name).collect()
}

#[test]
fn like_patterns_escape_wildcards() {
    assert_eq!(escape_like_pattern("50%_off!"), "50!%!_off!!");
    assert_eq!(subtree_like_pattern("/data"), "/data/%");
    assert_eq!(subtree_like_pattern("C:\\x"), "C:\\x\\%");
    assert_eq!(subtree_like_pattern("/a_b/"), "/a!_b/%");
}

#[test]
fn query_paths_are_normalized() {
    assert_eq!(normalize_query_path("/a/./b//c/").unwrap(), "/a/b/c");
    assert_eq!(normalize_query_path("rel/x").unwrap(), "rel/x");
    match normalize_query_path("/a/../b") {
        Err(AppError::BadRequest(m)) => assert_eq!(m, "path traversal is not allowed"),
        _ => panic!(),
    }
    match normalize_query_path("   ") {
        Err(AppError::BadRequest(m)) => assert_eq!(m, "path must not be empty"),
        _ => panic!(),
    }
    match normalize_query_path("a\0b") {
        Err(AppError::BadRequest(m)) => assert_eq!(m, "path contains null byte"),
        _ => panic!(),
    }
    match normalize_query_path("./.") {
        Err(AppError::BadRequest(m)) => assert_eq!(m, "normalized path is empty"),
        _ => panic!(),
    }
}

#[test]
fn tree_queries_are_checked_and_planned() {
    let q = TreeQuery { path: Some("/root/./x".to_string()), depth: Some(1), sort: Some("name".to_string()), limit: Some(100_000) };
    let plan = plan_tree_query(&q, false).unwrap();
    assert_eq!(plan.path.as_deref(), Some("/root/x"));
    let range = plan.range.unwrap();
    assert_eq!(range.low, "/root/x/");
    assert_eq!(range.high, "/root/x/~");
    assert!(plan.by_name);
    assert_eq!(plan.limit, 5000);
    let bad = TreeQuery { path: None, depth: Some(-1), sort: None, limit: None };
    match plan_tree_query(&bad, false) {
        Err(AppError::BadRequest(m)) => assert_eq!(m, "depth must be >= 0"),
        _ => panic!(),
    }
    let long = TreeQuery { path: Some("a".repeat(4097)), depth: None, sort: None, limit: None };
    match plan_tree_query(&long, false) {
        Err(AppError::BadRequest(m)) => assert_eq!(m, "Path too long"),
        _ => panic!(),
    }
    assert_eq!(tree_max_depth(Some(3), Some(2)), Some(5));
    assert_eq!(tree_max_depth(None, Some(2)), None);
    assert_eq!(tree_limit(None), 200);
    assert_eq!(tree_limit(Some(0)), 1);
}

#[test]
fn list_windows_are_bounded() {
    let w = list_window(None, None).unwrap();
    assert_eq!((w.offset, w.limit), (0, 500));
    let w = list_window(Some(5000), Some(100_000)).unwrap();
    assert_eq!((w.offset, w.limit), (100_000, 2000));
    match list_window(None, Some(-1)) {
        Err(AppError::BadRequest(m)) => assert_eq!(m, "offset must be >= 0"),
        _ => panic!(),
    }
    match list_window(None, Some(100_001)) {
        Err(AppError::BadRequest(m)) => assert_eq!(m, "offset must be <= 100000"),
        _ => panic!(),
    }
    // The widest window reaches exactly the maximum span.
    let w = list_window(Some(2000), Some(100_000)).unwrap();
    assert_eq!(w.offset + w.limit, 102_000);
    assert_eq!(apply_window(vec![1, 2, 3, 4, 5], 1, 2), vec![2, 3]);
    assert_eq!(apply_window(vec![1, 2, 3], 5, 2), Vec::<i32>::new());
    assert_eq!(apply_window(vec![1, 2, 3], 1, 10), vec![2, 3]);
}

#[test]
fn listings_sort_stably_by_the_chosen_key() {
    let items = vec![dir("b", 10, 1, Some(3)), file("A", 30, Some(9)), dir("c", 10, 5, None), file("a2", 20, None)];
    let mut v = items.clone();
    sort_items(&mut v, None, None);
    assert_eq!(names(&v), vec!["A", "a2", "c", "b"]);
    let mut v = items.clone();
    sort_items(&mut v, Some("allocated"), Some("asc"));
    assert_eq!(names(&v), vec!["b", "c", "a2", "A"]);
    let mut v = items.clone();
    sort_items(&mut v, Some("name"), None);
    assert_eq!(names(&v), vec!["A", "a2", "b", "c"]);
    let mut v = items.clone();
    sort_items(&mut v, Some("type"), None);
    assert_eq!(names(&v), vec!["b", "c", "A", "a2"]);
    let mut v = items.clone();
    sort_items(&mut v, Some("modified"), None);
    assert_eq!(names(&v), vec!["b", "a2", "c", "A"]);
    let mut v = items.clone();
    sort_items(&mut v, Some("bogus"), Some("sideways"));
    assert_eq!(names(&v), vec!["b", "c", "a2", "A"]);
    let it = &items[1];
    assert_eq!(get_alloc(it), 30);
    assert_eq!(get_logical(it), 30);
    assert_eq!(get_atime(it), 9);
    assert_eq!(get_mtime(it), 0);
    assert!(!is_dir(it));
}

#[test]
fn recent_entries_come_newest_first() {
    let t = |p: &str, atime: Option<i64>| TopItem::File {
        path: p.to_string(),
        parent_path: None,
        logical_size: 0,
        allocated_size: 0,
        mtime: None,
        atime,
    };
    let out = order_recent(vec![t("x", Some(5)), t("y", None), t("z", Some(9)), t("w", Some(5))], 3);
    let paths: Vec<String> = out
        .iter()
        .map(|i| match i {
            TopItem::File { path, .. } => path.clone(),
            TopItem::Dir { path, .. } => path.clone(),
        })
        .collect();
    assert_eq!(paths, vec!["z", "w", "x"]);
    assert_eq!(recent_limit(None), 50);
    assert_eq!(recent_fetch_multiplier(None), 10);
    assert_eq!(recent_fetch_multiplier(Some(100)), 20);
    assert_eq!(recent_fetch_cap(50, 10), 500);
    assert_eq!(recent_fetch_cap(1, 5), 100);
    assert_eq!(recent_fetch_cap(500, 20), 2000);
    assert_eq!(recent_scope(None), (true, false));
    assert_eq!(recent_scope(Some("all")), (true, true));
    assert_eq!(recent_scope(Some("files")), (false, true));
    let r = recent_subtree("C:\\data");
    assert_eq!(r.low, "C:\\data\\");
    assert_eq!(r.high, "C:\\data\\~");
    assert_eq!(top_limit(Some(9999)), 500);
    assert!(top_lists_files(Some("files")));
    assert!(!top_lists_files(None));
}

#[test]
fn scan_requests_are_checked() {
    let mut req = CreateScanRequest {
        root_paths: vec![],
        follow_symlinks: None,
        include_hidden: Some(false),
        measure_logical: None,
        measure_allocated: None,
        excludes: None,
        max_depth: None,
        concurrency: Some(4),
    };
    match check_create_request(&req, false) {
        Err(AppError::BadRequest(m)) => assert_eq!(m, "root_paths must not be empty"),
        _ => panic!(),
    }
    req.root_paths = vec!["/ok".to_string(), "../bad".to_string()];
    match check_create_request(&req, false) {
        Err(AppError::InvalidInput(m)) => assert_eq!(m, "Invalid path: ../bad"),
        _ => panic!(),
    }
    req.root_paths = vec!["/ok".to_string()];
    req.max_depth = Some(101);
    match check_create_request(&req, false) {
        Err(AppError::InvalidInput(m)) => assert_eq!(m, "Invalid scan options"),
        _ => panic!(),
    }
    req.max_depth = Some(3);
    assert!(check_create_request(&req, false).is_ok());
    match check_roots_exist(&vec!["/a".to_string(), "/b".to_string()], &vec![Some(true), Some(false)]) {
        Err(AppError::BadRequest(m)) => assert_eq!(m, "root path is not a directory: /b"),
        _ => panic!(),
    }
    match check_roots_exist(&vec!["/a".to_string()], &vec![None]) {
        Err(AppError::BadRequest(m)) => assert_eq!(m, "root path does not exist: /a"),
        _ => panic!(),
    }
    let cfg = AppConfig::default();
    let ex = normalize_excludes(Some(&vec![" **\\tmp ".to_string(), "  ".to_string()]), &cfg.scan_defaults.excludes).unwrap();
    assert_eq!(ex, vec!["**/tmp".to_string()]);
    match normalize_excludes(Some(&vec!["[bad".to_string()]), &vec![]) {
        Err(AppError::InvalidInput(m)) => assert!(m.starts_with("Invalid exclude pattern: [bad (")),
        _ => panic!(),
    }
    let opts = merge_scan_options(&req, &cfg.scan_defaults, ex);
    assert!(!opts.include_hidden);
    assert!(opts.measure_logical);
    assert_eq!(opts.concurrency, Some(4));
    assert_eq!(event_channel_size(None), 4096);
    assert_eq!(event_channel_size(Some(1)), 512);
    assert_eq!(event_channel_size(Some(1 << 20)), 16384);
}

#[test]
fn cancelling_and_finishing_scans() {
    let p = plan_cancel(true, None);
    assert!(p.mark_canceled && !p.delete);
    let p = plan_cancel(true, Some(true));
    assert!(!p.mark_canceled && p.delete);
    let p = plan_cancel(false, Some(false));
    assert!(!p.mark_canceled && !p.delete);

    let mut m = Metrics::new();
    let summary = ScanResultSummary {
        total_dirs: 2,
        total_files: 3,
        total_logical_size: 4,
        total_allocated_size: 5,
        warnings: 6,
        latest_mtime: None,
        latest_atime: None,
    };
    let end = finish_scan(&Ok(summary), false, &mut m);
    assert_eq!(end.status, "done");
    assert!(matches!(end.event, ScanEvent::Done { total_allocated_size: 5, .. }));
    assert_eq!((m.scans_completed, m.files_processed, m.bytes_scanned, m.warnings_count), (1, 3, 5, 6));
    let end = finish_scan(&Err("boom".to_string()), true, &mut m);
    assert_eq!(end.status, "canceled");
    assert!(matches!(end.event, ScanEvent::Cancelled));
    let end = finish_scan(&Err("boom".to_string()), false, &mut m);
    assert_eq!(end.status, "failed");
    assert_eq!(m.scans_failed, 1);
    match end.event {
        ScanEvent::Failed { message } => assert_eq!(message, "boom"),
        _ => panic!(),
    }
}

#[test]
fn search_terms_and_filters() {
    assert_eq!(default_limit(), 100);
    assert_eq!(sanitize_search_term("  re\u{7}port \t").unwrap(), "report \t".trim_end().to_string() + "");
    match sanitize_search_term("   ") {
        Err(AppError::InvalidInput(m)) => assert_eq!(m, "Search query cannot be empty"),
        _ => panic!(),
    }
    match sanitize_search_term(&"x".repeat(501)) {
        Err(AppError::InvalidInput(m)) => assert_eq!(m, "Search query too long"),
        _ => panic!(),
    }
    match sanitize_search_term("\u{1}\u{2}") {
        Err(AppError::InvalidInput(m)) => assert_eq!(m, "Search query contains only special characters"),
        _ => panic!(),
    }
    assert_eq!(search_pattern("a%b"), "%a!%b%");
    assert_eq!(search_kinds(None, None).unwrap(), (true, true));
    assert!(search_kinds(Some(false), Some(false)).is_err());
    assert_eq!(search_window(0, -5), (1, 0));
    assert_eq!(search_window(5000, 20_000), (1000, 10_000));
    assert_eq!(file_type_pattern("P.D-F!").as_deref(), Some(".pd-f"));
    assert_eq!(file_type_pattern("!!!"), None);
    assert_eq!(extension_of("/x/Report.PDF").as_deref(), Some("pdf"));
    assert_eq!(extension_of("/x/archive.tar.gz").as_deref(), Some("gz"));
    assert_eq!(extension_of("/x.y/noext"), None);
    assert_eq!(extension_of("/x/file."), None);
    assert_eq!(extension_of("/x/file.way-too-long-extension"), None);
}

#[test]
fn csv_export_lines_and_steps() {
    assert_eq!(escape_csv("a\"b\nc"), "a\"\"b c");
    let n = NodeExport {
        path: "/a".to_string(),
        parent_path: None,
        depth: 1,
        is_dir: true,
        logical_size: 10,
        allocated_size: -1,
        file_count: 2,
        dir_count: 3,
    };
    assert_eq!(format_node_csv(&n), "Dir,\"/a\",\"\",1,1,10,-1,2,3\n");
    let f = FileExport { path: "/a/x".to_string(), parent_path: Some("/a".to_string()), logical_size: 5, allocated_size: 8 };
    assert_eq!(format_file_csv(&f), "File,\"/a/x\",\"/a\",5,8\n");
    assert_eq!(export_limit(None), 10_000);
    assert_eq!(export_limit(Some(1_000_000)), 25_000);
    assert_eq!(export_format("json").unwrap(), ExportFormat::Json);
    assert!(export_format("xml").is_err());
    assert_eq!(export_scope(None), (true, true));
    assert_eq!(export_scope(Some("files")), (false, true));

    let mut st = CsvExportState::new();
    match csv_next_step(&st, 1000, true, true) {
        CsvStep::Nodes { batch, after } => {
            assert_eq!(batch, 800);
            assert!(after.is_none());
        }
        _ => panic!(),
    }
    let chunk = csv_take_nodes(&mut st, true, &vec![n.clone()]);
    assert!(chunk.starts_with("Type,Path,Parent Path,Depth,"));
    assert_eq!(st.count, 1);
    let chunk = csv_take_nodes(&mut st, true, &vec![]);
    assert_eq!(chunk, "\n");
    assert!(st.nodes_done);
    match csv_next_step(&st, 1000, true, true) {
        CsvStep::Files { batch, .. } => assert_eq!(batch, 800),
        _ => panic!(),
    }
    let chunk = csv_take_files(&mut st, &vec![f.clone()]);
    assert_eq!(chunk, "Type,Path,Parent Path,Logical Size,Allocated Size\nFile,\"/a/x\",\"/a\",5,8\n");
    let chunk = csv_take_files(&mut st, &vec![]);
    assert_eq!(chunk, "");
    assert!(matches!(csv_next_step(&st, 1000, true, true), CsvStep::Stop));
}

#[test]
fn moves_are_checked() {
    let req = |s: &str, d: &str| MovePathRequest { source: s.to_string(), destination: d.to_string(), remove_source: false, overwrite: false };
    match check_move_request(&req("  ", "/b"), false) {
        Err(MoveRefusal::Error(AppError::BadRequest(m))) => assert_eq!(m, "source path must not be empty"),
        _ => panic!(),
    }
    match check_move_request(&req("/A/x", "/a/X"), false) {
        Err(MoveRefusal::Error(AppError::BadRequest(m))) => assert_eq!(m, "source and destination must be different"),
        _ => panic!(),
    }
    match check_move_request(&req("../x", "/b"), false) {
        Err(MoveRefusal::Rejected(r)) => assert_eq!(r.status, 400),
        _ => panic!(),
    }
    assert_eq!(check_move_request(&req(" /a ", "/b"), false).ok(), Some(("/a".to_string(), "/b".to_string())));
    assert!(check_not_inside("/a/b/c", "/a/b").is_err());
    assert!(check_not_inside("/a/bc", "/a/b").is_ok());
    match check_free_space(100, 100) {
        Err(AppError::BadRequest(m)) => assert_eq!(m, "Insufficient disk space: 100 available, 110 required"),
        _ => panic!(),
    }
    assert!(check_free_space(110, 100).is_ok());
    assert_eq!(freed_bytes(true, 9), 9);
    assert_eq!(freed_bytes(false, 9), 0);
    assert!(matches!(file_destination(false, false, false, "/d"), DestinationAction::Proceed));
    assert!(matches!(file_destination(true, false, true, "/d"), DestinationAction::Replace));
    match directory_destination(true, false, true, "/d") {
        DestinationAction::Refuse(AppError::Conflict(m)) => assert_eq!(m, "destination refers to a file: /d"),
        _ => panic!(),
    }
    match target_conflict(false, false, false, "/t") {
        TargetConflict::Skip(w) => assert_eq!(w, "Datei bereits vorhanden, uebersprungen: /t"),
        _ => panic!(),
    }
    assert!(matches!(target_conflict(true, true, false, "/t"), TargetConflict::RemoveDir));
}

#[test]
fn volume_roots() {
    assert_eq!(get_volume_root("/home/x"), "/");
    assert_eq!(get_volume_root_windows("D:\\data"), "D:\\");
    assert_eq!(get_volume_root_windows("\\\\server\\share\\dir"), "\\\\server\\share");
    assert_eq!(get_volume_root_windows("\\\\server"), "C:\\");
    assert_eq!(get_volume_root_windows("relative"), "C:\\");
}

#[test]
fn drives_from_mask() {
    assert_eq!(drive_roots(0b101), vec!["A:\\".to_string(), "C:\\".to_string()]);
    assert_eq!(drive_roots(0), Vec::<String>::new());
    assert_eq!(drive_type_name(1), None);
    assert_eq!(drive_type_name(4), Some(("network".to_string(), true)));
    assert_eq!(drive_type_name(9), Some(("other".to_string(), false)));
    let d = drive_entry("C:\\".to_string(), "fixed".to_string(), (1, 2, 3));
    assert_eq!((d.total_bytes, d.free_bytes), (2, 3));
    assert_eq!(network_drive_timeout_ms(None), 1000);
    assert_eq!(network_drive_timeout_ms(Some(1)), 100);
}
