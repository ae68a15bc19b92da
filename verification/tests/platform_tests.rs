use speicherwald::routes::scans::root_listing_item;
use speicherwald::types::ListItem;
use speicherwald::desktop::{
    backend_env, candidate_backend_paths, dedup_case_insensitive, error_page_url, main_window, ready_response,
    user_db_location,
};
use speicherwald::middleware::rate_limit::{
    endpoint_cleanup_interval_secs, startup_endpoint_limits, state_endpoint_limits, global_cleanup_interval_secs, global_limits,
};
use speicherwald::scanner::{
    compressed_size, is_hidden_or_system, is_network_path, is_reparse_point, is_unc_path,
    network_probe_root, get_cache_size, system_time_to_secs,
};
use speicherwald::server::{db_max_connections, excluded_from_compression, is_benign_schema_error};
use speicherwald::text::{parse_u32, parse_u64, parse_usize};

#[test]
fn unsigned_numbers_parse_as_rust_does() {
    assert_eq!(parse_u64("0"), Some(0));
    assert_eq!(parse_u64("42"), Some(42));
    assert_eq!(parse_u64("+42"), Some(42));
    assert_eq!(parse_u64("007"), Some(7));
    assert_eq!(parse_u64("18446744073709551615"), Some(u64::MAX));
    assert_eq!(parse_u64("18446744073709551616"), None);
    assert_eq!(parse_u64(""), None);
    assert_eq!(parse_u64("+"), None);
    assert_eq!(parse_u64("-1"), None);
    assert_eq!(parse_u64(" 1"), None);
    assert_eq!(parse_u64("1a"), None);
    assert_eq!(parse_u32("4294967295"), Some(u32::MAX));
    assert_eq!(parse_u32("4294967296"), None);
    assert_eq!(parse_usize("1048576"), Some(1048576));
    for t in ["", "+", "12", "+7", "99999999999999999999", "x", "3 "] {
        assert_eq!(parse_u64(t), t.parse::<u64>().ok(), "{t}");
        assert_eq!(parse_u32(t), t.parse::<u32>().ok(), "{t}");
    }
}

#[test]
fn time_stamps_become_signed_seconds() {
    assert_eq!(system_time_to_secs(None), None);
    assert_eq!(system_time_to_secs(Some(1_700_000_000)), Some(1_700_000_000));
    assert_eq!(system_time_to_secs(Some(u64::MAX)), Some(-1));
}

#[test]
fn attribute_bits_are_read() {
    assert!(!is_hidden_or_system(None));
    assert!(is_hidden_or_system(Some(0x2)));
    assert!(is_hidden_or_system(Some(0x4)));
    assert!(!is_hidden_or_system(Some(0x20)));
    assert!(!is_reparse_point(None));
    assert!(is_reparse_point(Some(0x400 | 0x10)));
    assert!(!is_reparse_point(Some(0x10)));
}

#[test]
fn network_paths_on_windows() {
    assert!(is_unc_path("\\\\server\\share", true));
    assert!(is_unc_path("\\\\?\\UNC\\server\\share", true));
    assert!(!is_unc_path("C:\\data", true));
    assert!(!is_unc_path("\\\\server\\share", false));
    assert_eq!(network_probe_root("z:\\films").as_deref(), Some("z:\\"));
    assert_eq!(network_probe_root("1:\\x"), None);
    assert_eq!(network_probe_root("relative"), None);
    assert!(is_network_path("\\\\nas\\media", true, None));
    assert!(is_network_path("Z:\\films", true, Some(4)));
    assert!(!is_network_path("Z:\\films", false, Some(4)));
    assert!(!is_network_path("C:\\data", true, Some(3)));
    assert!(!is_network_path("C:\\data", true, Some(0)));
    assert!(!is_network_path("1:\\x", true, Some(4)));
}

#[test]
fn compressed_sizes_combine_both_halves() {
    assert_eq!(compressed_size(5, 0, 0), Some(5));
    assert_eq!(compressed_size(0, 1, 0), Some(1u64 << 32));
    assert_eq!(compressed_size(0xFFFF_FFFF, 0, 0), Some(0xFFFF_FFFF));
    assert_eq!(compressed_size(0xFFFF_FFFF, 0, 50), None);
    assert_eq!(compressed_size(7, 2, 50), Some((2u64 << 32) | 7));
}

#[test]
fn configured_sizes_and_intervals_are_clamped() {
    assert_eq!(get_cache_size(None), 10000);
    assert_eq!(get_cache_size(Some(5)), 100);
    assert_eq!(get_cache_size(Some(1_000_000)), 100_000);
    assert_eq!(get_cache_size(Some(2500)), 2500);
    assert_eq!(db_max_connections(None), 16);
    assert_eq!(db_max_connections(Some(0)), 1);
    assert_eq!(db_max_connections(Some(100)), 64);
    assert_eq!(db_max_connections(Some(8)), 8);
    assert_eq!(global_cleanup_interval_secs(None), 600);
    assert_eq!(global_cleanup_interval_secs(Some(1)), 60);
    assert_eq!(global_cleanup_interval_secs(Some(99999)), 3600);
    assert_eq!(endpoint_cleanup_interval_secs(None), 300);
    assert_eq!(endpoint_cleanup_interval_secs(Some(120)), 120);
    assert_eq!(global_limits(None, None), (1000, 60));
    assert_eq!(global_limits(Some(5), Some(10)), (5, 10));
    assert_eq!(startup_endpoint_limits(), vec![("/scans", 30, 60), ("/paths/move", 10, 60)]);
    assert_eq!(
        state_endpoint_limits(),
        vec![("/scans", 60, 60), ("/scans/:id/search", 600, 60), ("/drives", 120, 60), ("/paths/move", 30, 60)]
    );
}

#[test]
fn repeated_schema_changes_are_recognised() {
    assert!(is_benign_schema_error("duplicate column name: mtime"));
    assert!(is_benign_schema_error("index idx_x ALREADY EXISTS"));
    assert!(!is_benign_schema_error("no such table: nodes"));
}

#[test]
fn streams_are_not_compressed() {
    assert!(excluded_from_compression("text/event-stream"));
    assert!(excluded_from_compression("text/event-stream; charset=utf-8"));
    assert!(excluded_from_compression("multipart/form-data; boundary=x"));
    assert!(!excluded_from_compression("application/json"));
    assert!(!excluded_from_compression("text/html"));
}

#[test]
fn candidates_are_deduplicated_ignoring_case() {
    let v: Vec<String> = ["A/x.exe", "b", "a/X.EXE", "B", "c"].iter().map(|s| s.to_string()).collect();
    assert_eq!(dedup_case_insensitive(v), vec!["A/x.exe".to_string(), "b".to_string(), "c".to_string()]);
    assert!(dedup_case_insensitive(Vec::new()).is_empty());
}

#[test]
fn backend_candidates_follow_the_search_order() {
    let r = candidate_backend_paths(
        Some("/opt/sw/server".to_string()),
        Some("/opt/sw/desktop-app".to_string()),
        Some("/home/u/repo/desktop".to_string()),
    );
    let sep = std::path::MAIN_SEPARATOR;
    assert_eq!(r.len(), 1 + 7 + 5);
    assert_eq!(r[0], "/opt/sw/server");
    assert_eq!(r[1], format!("/opt/sw{sep}speicherwald-backend.exe"));
    assert_eq!(r[4], format!("/opt/sw{sep}speicherwald"));
    assert_eq!(r[8], format!("/home/u/repo{sep}target\\release\\speicherwald.exe"));
    let none = candidate_backend_paths(None, None, None);
    assert!(none.is_empty());
    let dup = candidate_backend_paths(Some("/OPT/SW/SPEICHERWALD".to_string()), Some("/opt/sw/app".to_string()), None);
    assert_eq!(dup.len(), 7);
    assert_eq!(dup[0], "/OPT/SW/SPEICHERWALD");
}

#[test]
fn user_database_lives_under_local_app_data() {
    let (dir, url) = user_db_location("/home/u/.local");
    let sep = std::path::MAIN_SEPARATOR;
    assert_eq!(dir, format!("/home/u/.local{sep}SpeicherWald"));
    assert_eq!(url, "sqlite:///home/u/.local/SpeicherWald/speicherwald.db");
}

#[test]
fn scan_roots_are_listed_with_stored_and_file_system_values() {
    let item = root_listing_item("/data/", "/data".to_string(), (-3, 4), Some((10, 20, Some(5), None)), Some(99), Some(7));
    match item {
        ListItem::Dir { name, path, parent_path, depth, logical_size, allocated_size, file_count, dir_count, mtime, atime } => {
            assert_eq!(name, "data");
            assert_eq!(path, "/data");
            assert_eq!(parent_path, None);
            assert_eq!(depth, 0);
            assert_eq!((logical_size, allocated_size), (10, 20));
            assert_eq!((file_count, dir_count), (0, 4));
            assert_eq!(mtime, Some(5));
            assert_eq!(atime, Some(7));
        }
        ListItem::File { .. } => panic!("a root is listed as a directory"),
    }
    match root_listing_item("/", "/".to_string(), (1, 2), None, None, Some(3)) {
        ListItem::Dir { name, logical_size, mtime, atime, .. } => {
            assert_eq!(name, "/");
            assert_eq!(logical_size, 0);
            assert_eq!(mtime, None);
            assert_eq!(atime, Some(3));
        }
        ListItem::File { .. } => panic!("a root is listed as a directory"),
    }
}

#[test]
fn the_desktop_shell_starts_and_shows_the_server() {
    let env = backend_env(8123, Some("sqlite:///C:/db.db".to_string()));
    assert_eq!(
        env,
        vec![
            ("SPEICHERWALD__SERVER__PORT".to_string(), "8123".to_string()),
            ("SPEICHERWALD__SERVER__HOST".to_string(), "127.0.0.1".to_string()),
            ("SPEICHERWALD__DATABASE__URL".to_string(), "sqlite:///C:/db.db".to_string()),
        ]
    );
    assert_eq!(backend_env(1, None).len(), 2);
    assert!(ready_response(b"HTTP/1.1 200 OK\r\n"));
    assert!(!ready_response(b"HTTP/1.1 503 Service Unavailable"));
    assert!(!ready_response(b"HTTP/1.1 20"));
    assert_eq!(main_window(4000, true), ("http://127.0.0.1:4000/".to_string(), "SpeicherWald".to_string()));
    let (url, title) = main_window(4000, false);
    assert_eq!(url, "http://127.0.0.1:4000/healthz");
    assert!(title.contains("nicht erreichbar"));
    let page = error_page_url("kein <Zugriff>");
    assert!(page.starts_with("data:text/html,%3Chtml%3E%3Chead%3E"));
    assert!(page.contains("Fehler:%20kein%20%3CZugriff%3E%3C/p%3E"));
    assert!(!page.contains(' '));
}
