use speicherwald::error::AppError;
use speicherwald::metrics::Metrics;
use speicherwald::routes::health::prometheus_text;
use speicherwald::scanner::ScanResultSummary;
use speicherwald::types::{default_concurrency, CreateScanRequest, DriveInfo, ListItem, NodeDto, ScanOptions, TopItem};

#[test]
fn test_scan_options_default() {
    let options = ScanOptions::default();
    assert_eq!(options.follow_symlinks, false);
    assert_eq!(options.include_hidden, true);
    assert_eq!(options.measure_logical, true);
    assert_eq!(options.measure_allocated, true);
    assert!(options.excludes.is_empty());
    assert!(options.max_depth.is_none());
    assert!(options.concurrency.unwrap_or(0) > 0);
}

#[test]
fn test_scan_options_custom() {
    let options = ScanOptions {
        follow_symlinks: true,
        include_hidden: false,
        measure_logical: false,
        measure_allocated: true,
        excludes: vec!["**/.git".to_string(), "**/node_modules".to_string()],
        max_depth: Some(5),
        concurrency: Some(8),
    };
    assert_eq!(options.follow_symlinks, true);
    assert_eq!(options.include_hidden, false);
    assert_eq!(options.measure_logical, false);
    assert_eq!(options.measure_allocated, true);
    assert_eq!(options.excludes.len(), 2);
    assert_eq!(options.max_depth, Some(5));
    assert_eq!(options.concurrency, Some(8));
}

#[test]
fn test_scan_status_transitions() {
    let statuses = vec!["running", "done", "cancelled", "failed"];
    for status in statuses {
        assert!(!status.is_empty());
    }
}

#[test]
fn test_node_dto_creation() {
    let node = NodeDto {
        path: "C:/test".to_string(),
        parent_path: Some("C:/".to_string()),
        depth: 2,
        is_dir: true,
        logical_size: 1024,
        allocated_size: 2048,
        file_count: 10,
        dir_count: 5,
        mtime: None,
        atime: None,
    };
    assert_eq!(node.path, "C:/test");
    assert_eq!(node.parent_path, Some("C:/".to_string()));
    assert_eq!(node.depth, 2);
    assert!(node.is_dir);
    assert_eq!(node.logical_size, 1024);
    assert_eq!(node.allocated_size, 2048);
    assert_eq!(node.file_count, 10);
    assert_eq!(node.dir_count, 5);
}

#[test]
fn test_top_item_variants() {
    let dir_item = TopItem::Dir {
        path: "C:/dir".to_string(),
        parent_path: Some("C:/".to_string()),
        depth: 2,
        allocated_size: 1000,
        logical_size: 900,
        file_count: 10,
        dir_count: 2,
        mtime: None,
        atime: None,
    };

    let file_item = TopItem::File {
        path: "C:/file.txt".to_string(),
        parent_path: Some("C:/".to_string()),
        allocated_size: 100,
        logical_size: 90,
        mtime: None,
        atime: None,
    };

    match dir_item {
        TopItem::Dir { path, .. } => assert_eq!(path, "C:/dir"),
        _ => panic!("Expected Dir variant"),
    }

    match file_item {
        TopItem::File { path, .. } => assert_eq!(path, "C:/file.txt"),
        _ => panic!("Expected File variant"),
    }
}

#[test]
fn test_list_item_variants() {
    let dir_item = ListItem::Dir {
        path: "C:/folder".to_string(),
        name: "folder".to_string(),
        parent_path: Some("C:/".to_string()),
        depth: 2,
        allocated_size: 5000,
        logical_size: 4500,
        file_count: 20,
        dir_count: 3,
        mtime: None,
        atime: None,
    };

    let file_item = ListItem::File {
        path: "C:/document.pdf".to_string(),
        name: "document.pdf".to_string(),
        parent_path: Some("C:/".to_string()),
        allocated_size: 200,
        logical_size: 180,
        mtime: None,
        atime: None,
    };

    match dir_item {
        ListItem::Dir { name, .. } => assert_eq!(name, "folder"),
        _ => panic!("Expected Dir variant"),
    }

    match file_item {
        ListItem::File { name, .. } => assert_eq!(name, "document.pdf"),
        _ => panic!("Expected File variant"),
    }
}

#[test]
fn test_drive_info() {
    let drive = DriveInfo {
        path: "C:".to_string(),
        drive_type: "Local".to_string(),
        total_bytes: 1000000000,
        free_bytes: 500000000,
    };

    let used_bytes = drive.total_bytes - drive.free_bytes;
    assert_eq!(used_bytes, 500000000);

    let percent_used = (used_bytes as f64 / drive.total_bytes as f64) * 100.0;
    assert_eq!(percent_used, 50.0);
}

#[test]
fn test_scan_summary() {
    let summary = ScanResultSummary {
        total_dirs: 100,
        total_files: 1000,
        total_logical_size: 1048576,
        total_allocated_size: 2097152,
        warnings: 5,
        latest_mtime: None,
        latest_atime: None,
    };

    assert_eq!(summary.total_dirs, 100);
    assert_eq!(summary.total_files, 1000);
    assert_eq!(summary.warnings, 5);

    assert!(summary.total_allocated_size >= summary.total_logical_size);
}

#[test]
fn test_path_normalization() {
    let paths = vec![("/home/user", "/home/user"), ("/tmp/test", "/tmp/test")];
    for (input, expected) in paths {
        assert_eq!(input, expected);
    }
}

#[test]
fn test_create_scan_request_validation() {
    let valid_req = CreateScanRequest {
        root_paths: vec!["C:/".to_string()],
        follow_symlinks: Some(false),
        include_hidden: Some(true),
        measure_logical: Some(true),
        measure_allocated: Some(true),
        excludes: Some(vec![]),
        max_depth: None,
        concurrency: None,
    };
    assert!(!valid_req.root_paths.is_empty());

    let invalid_req = CreateScanRequest {
        root_paths: vec![],
        follow_symlinks: None,
        include_hidden: None,
        measure_logical: None,
        measure_allocated: None,
        excludes: None,
        max_depth: None,
        concurrency: None,
    };
    assert!(invalid_req.root_paths.is_empty());
}

#[test]
fn test_metrics_values() {
    let mut metrics = Metrics::new();

    assert_eq!(metrics.scans_started, 0);
    assert_eq!(metrics.scans_completed, 0);
    assert_eq!(metrics.scans_failed, 0);

    metrics.inc_scans_started();
    assert_eq!(metrics.scans_started, 1);

    metrics.inc_scans_completed();
    assert_eq!(metrics.scans_completed, 1);

    metrics.inc_scans_failed();
    assert_eq!(metrics.scans_failed, 1);
}

#[test]
fn test_metrics_snapshot_defaults() {
    let metrics = Metrics::new();
    let snap = metrics.get_snapshot();
    assert_eq!(snap.scans_started, 0);
    assert_eq!(snap.scans_completed, 0);
    assert_eq!(snap.scans_failed, 0);
    assert!(snap.uptime_seconds < 60);
}

#[test]
fn test_metrics_prometheus_endpoint() {
    let metrics = Metrics::new();
    let body = prometheus_text(&metrics.get_snapshot());
    assert!(body.contains("speicherwald_scans_started 0"));
    assert!(body.contains("speicherwald_bytes_scanned 0"));
    assert!(body.contains("# TYPE speicherwald_uptime_seconds gauge"));
}

#[test]
fn metrics_counters_add_up() {
    let mut m = Metrics::default();
    m.add_files(3);
    m.add_files(4);
    m.add_dirs(2);
    m.add_bytes(u64::MAX);
    m.add_bytes(2);
    m.add_warnings(5);
    let s = m.get_snapshot();
    assert_eq!(s.files_processed, 7);
    assert_eq!(s.dirs_processed, 2);
    assert_eq!(s.bytes_scanned, 1);
    assert_eq!(s.warnings_count, 5);
}

#[test]
fn default_concurrency_is_half_the_cpus_within_bounds() {
    assert_eq!(default_concurrency(1), 2);
    assert_eq!(default_concurrency(8), 4);
    assert_eq!(default_concurrency(64), 16);
}

#[test]
fn internal_error_text() {
    assert_eq!(AppError::Internal("x".to_string()).message(), "Internal error: x");
}
