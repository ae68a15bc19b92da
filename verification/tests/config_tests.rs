use speicherwald::config::{sqlite_db_path, sqlite_db_path_windows, validate, AppConfig, ConfigError, ScannerConfig};

#[test]
fn test_default_config() {
    let config = AppConfig::default();

    assert_eq!(config.server.host, "127.0.0.1");
    assert_eq!(config.server.port, 8080);
    assert_eq!(config.database.url, "sqlite://data/speicherwald.db");
    assert!(!config.scan_defaults.follow_symlinks);
    assert!(config.scan_defaults.include_hidden);
    assert!(config.scan_defaults.measure_logical);
    assert!(config.scan_defaults.measure_allocated);
    assert_eq!(config.scan_defaults.excludes.len(), 0);
}

#[test]
fn test_scanner_config_defaults() {
    let config = ScannerConfig::default();

    assert_eq!(config.batch_size, 4000);
    assert_eq!(config.flush_threshold, 8000);
    assert_eq!(config.flush_interval_ms, 750);
    assert_eq!(config.dir_concurrency, Some(12));
    assert!(config.handle_limit.is_none());
}

#[test]
fn test_ensure_sqlite_parent_dir_non_sqlite() {
    // A URL of another database names no file whose directory would be created.
    assert!(sqlite_db_path("postgres://localhost/db").is_none());
}

#[test]
fn sqlite_urls_name_their_database_file() {
    assert_eq!(sqlite_db_path("sqlite://data/speicherwald.db").as_deref(), Some("data/speicherwald.db"));
    assert_eq!(sqlite_db_path("sqlite:///tmp/x/test.db").as_deref(), Some("/tmp/x/test.db"));
    assert_eq!(sqlite_db_path_windows("sqlite:///C:/db/test.db").as_deref(), Some("C:/db/test.db"));
    assert_eq!(sqlite_db_path_windows("sqlite:///1:/db").as_deref(), Some("/1:/db"));
    assert_eq!(sqlite_db_path_windows("postgres://x").as_deref(), None);
}

#[test]
fn default_config_passes_validation() {
    assert!(validate(&AppConfig::default()).is_ok());
}

#[test]
fn validation_reports_the_first_broken_rule() {
    let mut c = AppConfig::default();
    c.server.port = 0;
    c.scanner.batch_size = 0;
    let e = validate(&c).unwrap_err();
    assert_eq!(e, ConfigError::InvalidPort(0));
    assert_eq!(e.message(), "invalid server.port: 0");

    let mut c = AppConfig::default();
    c.scanner.flush_threshold = c.scanner.batch_size;
    let e = validate(&c).unwrap_err();
    assert_eq!(e.message(), "scanner.flush_threshold must be > batch_size");

    let mut c = AppConfig::default();
    c.scanner.batch_size = 0;
    assert_eq!(validate(&c).unwrap_err(), ConfigError::BatchSizeZero);

    let mut c = AppConfig::default();
    c.scanner.flush_threshold = 0;
    assert_eq!(validate(&c).unwrap_err(), ConfigError::FlushThresholdZero);

    let mut c = AppConfig::default();
    c.scanner.flush_interval_ms = 0;
    assert_eq!(validate(&c).unwrap_err().message(), "scanner.flush_interval_ms must be > 0");

    let mut c = AppConfig::default();
    c.scanner.dir_concurrency = Some(257);
    assert_eq!(validate(&c).unwrap_err().message(), "scanner.dir_concurrency must be in 1..=256");

    let mut c = AppConfig::default();
    c.scanner.handle_limit = Some(0);
    assert_eq!(validate(&c).unwrap_err().message(), "scanner.handle_limit must be > 0 when set");

    let mut c = AppConfig::default();
    c.scan_defaults.concurrency = Some(0);
    assert_eq!(validate(&c).unwrap_err().message(), "scan_defaults.concurrency must be in 1..=256");
}
