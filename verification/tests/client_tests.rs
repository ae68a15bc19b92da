use speicherwald::desktop::{percent_encode_for_data_url, sqlite_url_for_db_path};
use speicherwald::webui::{cancel_url, list_url, new_scan_request, search_url, too_many_requests_message, top_url, tree_url, url, ListQuery, SearchQuery, TopQuery, TreeQuery};

#[test]
fn data_urls_escape_markup() {
    assert_eq!(percent_encode_for_data_url("<a href=\"#x\">50% off</a>\n"), "%3Ca%20href=%22%23x%22%3E50%25%20off%3C/a%3E%0A");
}

#[test]
fn database_url_from_windows_path() {
    assert_eq!(sqlite_url_for_db_path("C:\\Users\\me\\SpeicherWald\\speicherwald.db"), "sqlite:///C:/Users/me/SpeicherWald/speicherwald.db");
    assert_eq!(sqlite_url_for_db_path("/var/db"), "sqlite:///var/db");
}

#[test]
fn client_urls_encode_their_parameters() {
    assert_eq!(url("/healthz"), "/healthz");
    let q = TreeQuery { path: Some("C:\\a b".to_string()), depth: Some(2), sort: None, limit: Some(-1) };
    assert_eq!(tree_url("id1", &q), "/scans/id1/tree?path=C%3A%5Ca%20b&depth=2&limit=-1");
    let q = TopQuery { scope: None, limit: None };
    assert_eq!(top_url("id1", &q), "/scans/id1/top");
    let q = ListQuery { path: None, sort: Some("name".to_string()), order: Some("desc".to_string()), limit: None, offset: Some(10) };
    assert_eq!(list_url("x", &q), "/scans/x/list?sort=name&order=desc&offset=10");
    let q = SearchQuery {
        query: "ä&b".to_string(),
        limit: None,
        offset: None,
        min_size: Some(5),
        max_size: None,
        file_type: Some("pdf".to_string()),
        include_files: Some(true),
        include_dirs: Some(false),
    };
    assert_eq!(
        search_url("s", &q),
        "/scans/s/search?query=%C3%A4%26b&min_size=5&file_type=pdf&include_files=true&include_dirs=false"
    );
    assert_eq!(cancel_url("s", true), "/scans/s?purge=true");
    assert_eq!(
        too_many_requests_message(Some(3), Some("x")).as_deref(),
        Some("Zu viele Anfragen (429). Bitte nach 3 Sekunden erneut versuchen.")
    );
    assert_eq!(too_many_requests_message(None, Some("slow down")).as_deref(), Some("Zu viele Anfragen (429). slow down"));
    assert_eq!(too_many_requests_message(None, None), None);
}

#[test]
fn the_start_page_sends_the_trimmed_root() {
    assert!(new_scan_request("   ").is_none());
    assert!(new_scan_request("").is_none());
    let q = new_scan_request("  C:\\Daten \n").unwrap();
    assert_eq!(q.root_paths, vec!["C:\\Daten".to_string()]);
    assert!(q.follow_symlinks.is_none() && q.excludes.is_none() && q.max_depth.is_none() && q.concurrency.is_none());
}
