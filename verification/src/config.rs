//! Application configuration: its shape, its defaults and its validation.

use vstd::prelude::*;
use crate::text::{chars_of, dec, string_of, u64_dec, extend_str, extend_chars};

verus! {

/// Configuration for the HTTP server.
#[derive(Clone, Debug)]
pub struct ServerConfig {
    /// The host address to bind to.
    pub host: String,
    /// The port to listen on.
    pub port: u16,
}

/// Configuration for the database connection.
#[derive(Clone, Debug)]
pub struct DatabaseConfig {
    /// The database connection URL.
    pub url: String,
}

/// Default settings for new scans.
#[derive(Clone, Debug)]
pub struct ScanDefaultsConfig {
    /// Whether to follow symbolic links.
    pub follow_symlinks: bool,
    /// Whether to include hidden files and directories.
    pub include_hidden: bool,
    /// Whether to measure logical file size.
    pub measure_logical: bool,
    /// Whether to measure allocated disk space.
    pub measure_allocated: bool,
    /// Glob patterns to exclude from scans.
    pub excludes: Vec<String>,
    /// The maximum scan depth.
    pub max_depth: Option<u32>,
    /// The number of concurrent scanner threads.
    pub concurrency: Option<usize>,
}

/// Configuration for the file scanner.
#[derive(Clone, Debug)]
pub struct ScannerConfig {
    /// The number of records written to the database per statement batch.
    pub batch_size: usize,
    /// The number of pending records that triggers a flush to the database.
    pub flush_threshold: usize,
    /// The interval in milliseconds at which pending records are flushed.
    pub flush_interval_ms: u64,
    /// The maximum number of open file handles.
    pub handle_limit: Option<usize>,
    /// The number of concurrent directory traversers.
    pub dir_concurrency: Option<usize>,
}

/// Configuration for security-related HTTP headers.
#[derive(Clone, Debug)]
pub struct SecurityConfig {
    /// Whether to send `Strict-Transport-Security`.
    pub enable_hsts: Option<bool>,
    /// The `max-age` of the HSTS header.
    pub hsts_max_age: Option<u64>,
    /// Whether the HSTS header covers subdomains.
    pub hsts_include_subdomains: Option<bool>,
    /// The `Content-Security-Policy` value.
    pub csp: Option<String>,
}

/// The main application configuration.
#[derive(Clone, Debug)]
pub struct AppConfig {
    /// Server configuration.
    pub server: ServerConfig,
    /// Database configuration.
    pub database: DatabaseConfig,
    /// Default scan settings.
    pub scan_defaults: ScanDefaultsConfig,
    /// Scanner configuration.
    pub scanner: ScannerConfig,
    /// Security headers configuration.
    pub security: Option<SecurityConfig>,
}

impl Default for SecurityConfig {
    fn default() -> (r: Self)
        ensures
            r.enable_hsts is None,
            r.hsts_max_age is None,
            r.hsts_include_subdomains is None,
            r.csp is None,
    {
        SecurityConfig { enable_hsts: None, hsts_max_age: None, hsts_include_subdomains: None, csp: None }
    }
}

/// Whether a scanner configuration holds the built-in defaults.
pub open spec fn is_default_scanner(c: ScannerConfig) -> bool {
    &&& c.batch_size == 4000
    &&& c.flush_threshold == 8000
    &&& c.flush_interval_ms == 750
    &&& c.handle_limit is None
    &&& c.dir_concurrency == Some(12usize)
}

impl Default for ScannerConfig {
    fn default() -> (r: Self)
        ensures
            is_default_scanner(r),
    {
        ScannerConfig {
            batch_size: 4000,
            flush_threshold: 8000,
            flush_interval_ms: 750,
            handle_limit: None,
            dir_concurrency: Some(12),
        }
    }
}

/// Whether a configuration holds the built-in defaults: listening on
/// 127.0.0.1:8080, the database at `sqlite://data/speicherwald.db`, scans that
/// do not follow links, include hidden entries, measure both sizes and
/// exclude nothing, the default scanner settings, and no security headers
/// configured.
pub open spec fn is_default_config(c: AppConfig) -> bool {
    &&& c.server.host@ == "127.0.0.1"@
    &&& c.server.port == 8080
    &&& c.database.url@ == "sqlite://data/speicherwald.db"@
    &&& !c.scan_defaults.follow_symlinks
    &&& c.scan_defaults.include_hidden
    &&& c.scan_defaults.measure_logical
    &&& c.scan_defaults.measure_allocated
    &&& c.scan_defaults.excludes@.len() == 0
    &&& c.scan_defaults.max_depth is None
    &&& c.scan_defaults.concurrency is None
    &&& is_default_scanner(c.scanner)
    &&& c.security is None
}

impl Default for AppConfig {
    fn default() -> (r: Self)
        ensures
            is_default_config(r),
    {
        AppConfig {
            server: ServerConfig { host: String::from_str("127.0.0.1"), port: 8080 },
            database: DatabaseConfig { url: String::from_str("sqlite://data/speicherwald.db") },
            scan_defaults: ScanDefaultsConfig {
                follow_symlinks: false,
                include_hidden: true,
                measure_logical: true,
                measure_allocated: true,
                excludes: Vec::new(),
                max_depth: None,
                concurrency: None,
            },
            scanner: ScannerConfig::default(),
            security: None,
        }
    }
}

/// Why a configuration was refused.
#[derive(Clone, Copy, Debug, PartialEq, Eq)]
pub enum ConfigError {
    /// `server.port` is 0.
    InvalidPort(u16),
    /// `scanner.batch_size` is 0.
    BatchSizeZero,
    /// `scanner.flush_threshold` is 0.
    FlushThresholdZero,
    /// `scanner.flush_threshold` is not above `scanner.batch_size`.
    FlushThresholdNotAboveBatch,
    /// `scanner.flush_interval_ms` is 0.
    FlushIntervalZero,
    /// `scanner.dir_concurrency` is set outside 1..=256.
    DirConcurrencyOutOfRange,
    /// `scanner.handle_limit` is set to 0.
    HandleLimitZero,
    /// `scan_defaults.concurrency` is set outside 1..=256.
    ConcurrencyOutOfRange,
}

/// The text of each configuration error.
pub open spec fn config_error_text(e: ConfigError) -> Seq<char> {
    match e {
        ConfigError::InvalidPort(p) => "invalid server.port: "@ + dec(p as nat),
        ConfigError::BatchSizeZero => "scanner.batch_size must be > 0"@,
        ConfigError::FlushThresholdZero => "scanner.flush_threshold must be > 0"@,
        ConfigError::FlushThresholdNotAboveBatch => "scanner.flush_threshold must be > batch_size"@,
        ConfigError::FlushIntervalZero => "scanner.flush_interval_ms must be > 0"@,
        ConfigError::DirConcurrencyOutOfRange => "scanner.dir_concurrency must be in 1..=256"@,
        ConfigError::HandleLimitZero => "scanner.handle_limit must be > 0 when set"@,
        ConfigError::ConcurrencyOutOfRange => "scan_defaults.concurrency must be in 1..=256"@,
    }
}

impl ConfigError {
    /// The error's message.
    pub fn message(&self) -> (r: String)
        ensures
            r@ == config_error_text(*self),
    {
        match self {
            ConfigError::InvalidPort(p) => {
                let mut v: Vec<char> = Vec::new();
                extend_str(&mut v, "invalid server.port: ");
                let d = u64_dec(*p as u64);
                extend_chars(&mut v, &d);
                string_of(&v)
            },
            ConfigError::BatchSizeZero => String::from_str("scanner.batch_size must be > 0"),
            ConfigError::FlushThresholdZero => String::from_str("scanner.flush_threshold must be > 0"),
            ConfigError::FlushThresholdNotAboveBatch => String::from_str(
                "scanner.flush_threshold must be > batch_size",
            ),
            ConfigError::FlushIntervalZero => String::from_str("scanner.flush_interval_ms must be > 0"),
            ConfigError::DirConcurrencyOutOfRange => String::from_str(
                "scanner.dir_concurrency must be in 1..=256",
            ),
            ConfigError::HandleLimitZero => String::from_str("scanner.handle_limit must be > 0 when set"),
            ConfigError::ConcurrencyOutOfRange => String::from_str(
                "scan_defaults.concurrency must be in 1..=256",
            ),
        }
    }
}

/// The first rule a configuration breaks, checked in a fixed order, or
/// `None` when it breaks none.
pub open spec fn first_violation(c: AppConfig) -> Option<ConfigError> {
    if c.server.port == 0 {
        Some(ConfigError::InvalidPort(c.server.port))
    } else if c.scanner.batch_size == 0 {
        Some(ConfigError::BatchSizeZero)
    } else if c.scanner.flush_threshold == 0 {
        Some(ConfigError::FlushThresholdZero)
    } else if c.scanner.flush_threshold <= c.scanner.batch_size {
        Some(ConfigError::FlushThresholdNotAboveBatch)
    } else if c.scanner.flush_interval_ms == 0 {
        Some(ConfigError::FlushIntervalZero)
    } else if c.scanner.dir_concurrency matches Some(dc) && (dc == 0 || dc > 256) {
        Some(ConfigError::DirConcurrencyOutOfRange)
    } else if c.scanner.handle_limit == Some(0usize) {
        Some(ConfigError::HandleLimitZero)
    } else if c.scan_defaults.concurrency matches Some(n) && (n == 0 || n > 256) {
        Some(ConfigError::ConcurrencyOutOfRange)
    } else {
        None
    }
}

/// Checks a loaded configuration: it is accepted exactly when it breaks no
/// rule, and otherwise refused with the first rule it breaks.
pub fn validate(cfg: &AppConfig) -> (r: Result<(), ConfigError>)
    ensures
        match first_violation(*cfg) {
            None => r is Ok,
            Some(e) => r == Err::<(), ConfigError>(e),
        },
{
    if cfg.server.port == 0 {
        return Err(ConfigError::InvalidPort(cfg.server.port));
    }
    if cfg.scanner.batch_size == 0 {
        return Err(ConfigError::BatchSizeZero);
    }
    if cfg.scanner.flush_threshold == 0 {
        return Err(ConfigError::FlushThresholdZero);
    }
    if cfg.scanner.flush_threshold <= cfg.scanner.batch_size {
        return Err(ConfigError::FlushThresholdNotAboveBatch);
    }
    if cfg.scanner.flush_interval_ms == 0 {
        return Err(ConfigError::FlushIntervalZero);
    }
    if let Some(dc) = cfg.scanner.dir_concurrency {
        if dc == 0 || dc > 256 {
            return Err(ConfigError::DirConcurrencyOutOfRange);
        }
    }
    if let Some(h) = cfg.scanner.handle_limit {
        if h == 0 {
            return Err(ConfigError::HandleLimitZero);
        }
    }
    if let Some(c) = cfg.scan_defaults.concurrency {
        if c == 0 || c > 256 {
            return Err(ConfigError::ConcurrencyOutOfRange);
        }
    }
    Ok(())
}

/// The file path of a `sqlite://` URL (what follows the scheme), or `None`
/// for any other URL.
pub open spec fn sqlite_path(url: Seq<char>) -> Option<Seq<char>> {
    if url.len() >= 9 && url.take(9) == "sqlite://"@ {
        Some(url.skip(9))
    } else {
        None
    }
}

/// The file path of a `sqlite://` URL as Windows reads it: a leading `/`
/// before a drive letter (`/C:/...`) is dropped; other paths are kept.
pub open spec fn sqlite_path_windows(url: Seq<char>) -> Option<Seq<char>> {
    match sqlite_path(url) {
        None => None,
        Some(p) => if p.len() >= 3 && p[0] == '/' && p[2] == ':' && (('A' <= p[1] && p[1] <= 'Z')
            || ('a' <= p[1] && p[1] <= 'z')) {
            Some(p.skip(1))
        } else {
            Some(p)
        },
    }
}

/// The database file named by a `sqlite://` URL, whose parent directory the
/// server creates before opening the database; `None` for other URLs.
pub fn sqlite_db_path(url: &str) -> (r: Option<String>)
    ensures
        match sqlite_path(url@) {
            None => r is None,
            Some(p) => r matches Some(s) && s@ == p,
        },
{
    let v = chars_of(url);
    let prefix = chars_of("sqlite://");
    proof {
        reveal_strlit("sqlite://");
    }
    if v.len() < 9 {
        return None;
    }
    let mut i: usize = 0;
    while i < 9
        invariant
            v@ == url@,
            prefix@ == "sqlite://"@,
            prefix@.len() == 9,
            v.len() >= 9,
            i <= 9,
            forall|k: int| 0 <= k < i ==> v@[k] == prefix@[k],
        decreases 9 - i,
    {
        if v[i] != prefix[i] {
            assert(v@.take(9)[i as int] != "sqlite://"@[i as int]);
            return None;
        }
        i += 1;
    }
    assert(v@.take(9) =~= "sqlite://"@);
    let mut out: Vec<char> = Vec::new();
    let mut j: usize = 9;
    while j < v.len()
        invariant
            9 <= j <= v.len(),
            out@ == v@.subrange(9, j as int),
        decreases v.len() - j,
    {
        out.push(v[j]);
        j += 1;
    }
    assert(out@ =~= v@.skip(9));
    Some(string_of(&out))
}

/// As `sqlite_db_path`, with the Windows reading of `sqlite:///C:/...`.
pub fn sqlite_db_path_windows(url: &str) -> (r: Option<String>)
    ensures
        match sqlite_path_windows(url@) {
            None => r is None,
            Some(p) => r matches Some(s) && s@ == p,
        },
{
    match sqlite_db_path(url) {
        None => None,
        Some(p) => {
            let v = chars_of(p.as_str());
            if v.len() >= 3 && v[0] == '/' && v[2] == ':' && (('A' <= v[1] && v[1] <= 'Z') || (
            'a' <= v[1] && v[1] <= 'z')) {
                let mut out: Vec<char> = Vec::new();
                let mut j: usize = 1;
                while j < v.len()
                    invariant
                        1 <= j <= v.len(),
                        out@ == v@.subrange(1, j as int),
                    decreases v.len() - j,
                {
                    out.push(v[j]);
                    j += 1;
                }
                assert(out@ =~= v@.skip(1));
                Some(string_of(&out))
            } else {
                Some(p)
            }
        },
    }
}

/// The built-in defaults pass validation.
pub proof fn lemma_default_config_is_valid(c: AppConfig)
    requires
        is_default_config(c),
    ensures
        first_violation(c) is None,
{
}

} // verus!
