//! Configuration for rust-doctor.
use vstd::prelude::*;

verus! {

/// Top-level configuration.
#[derive(Debug)]
pub struct Config {
    pub scan: ScanConfig,
    pub rules: RulesConfig,
}

/// [scan] section.
#[derive(Debug)]
pub struct ScanConfig {
    pub include_toolchain: bool,
    pub include_clippy: bool,
    pub fail_on: Option<SeverityFilter>,
}

/// [rules] section.
#[derive(Debug)]
pub struct RulesConfig {
    /// Rules whose findings are not reported.
    pub disabled: Vec<String>,
    /// Rules whose findings are reported as warnings.
    pub warn: Vec<String>,
    /// Rules whose findings are reported as infos.
    pub info: Vec<String>,
}

/// Severity threshold for filtering / fail-on.
#[derive(Debug, Clone, Copy, PartialEq, Eq, Structural, PartialOrd, Ord)]
pub enum SeverityFilter {
    Info,
    Warning,
    Error,
}

impl Default for SeverityFilter {
    fn default() -> (r: Self)
        ensures
            r == SeverityFilter::Info,
    {
        SeverityFilter::Info
    }
}

/// The toolchain and clippy passes run by default; nothing fails a run by
/// default.
impl Default for ScanConfig {
    fn default() -> (r: Self)
        ensures
            r.include_toolchain,
            r.include_clippy,
            r.fail_on is None,
    {
        ScanConfig { include_toolchain: true, include_clippy: true, fail_on: None }
    }
}

impl Default for RulesConfig {
    fn default() -> (r: Self)
        ensures
            r.disabled@.len() == 0,
            r.warn@.len() == 0,
            r.info@.len() == 0,
    {
        RulesConfig { disabled: Vec::new(), warn: Vec::new(), info: Vec::new() }
    }
}

/// The default configuration.
pub open spec fn is_default_config(c: Config) -> bool {
    &&& c.scan.include_toolchain
    &&& c.scan.include_clippy
    &&& c.scan.fail_on is None
    &&& c.rules.disabled@.len() == 0
    &&& c.rules.warn@.len() == 0
    &&& c.rules.info@.len() == 0
}

impl Default for Config {
    fn default() -> (r: Self)
        ensures
            is_default_config(r),
    {
        Config { scan: ScanConfig::default(), rules: RulesConfig::default() }
    }
}

/// `r` is the configuration loaded from `file` (or the defaults) with
/// `no_toolchain` applied.
pub open spec fn loaded(file: Option<Config>, no_toolchain: bool, r: Config) -> bool {
    match file {
        Some(c) => r.rules == c.rules && r.scan.fail_on == c.scan.fail_on && r.scan.include_toolchain
            == (c.scan.include_toolchain && !no_toolchain) && r.scan.include_clippy == (
        c.scan.include_clippy && !no_toolchain),
        None => r.rules.disabled@.len() == 0 && r.rules.warn@.len() == 0 && r.rules.info@.len()
            == 0 && r.scan.fail_on is None && r.scan.include_toolchain == !no_toolchain
            && r.scan.include_clippy == !no_toolchain,
    }
}

impl Config {
    /// The configuration: the one read from the config file when there is
    /// one (`file`), else the defaults; `no_toolchain` turns off both the
    /// toolchain and the clippy passes.
    pub fn load(file: Option<Config>, no_toolchain: bool) -> (r: Self)
        ensures
            loaded(file, no_toolchain, r),
    {
        let mut config = match file {
            Some(c) => c,
            None => Self::default(),
        };
        if no_toolchain {
            config.scan.include_toolchain = false;
            config.scan.include_clippy = false;
        }
        config
    }
}

} // verus!
