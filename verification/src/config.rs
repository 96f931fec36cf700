//! Configuration: the bots to log in, the implementation's own settings, and
//! how command-line options override the configuration file.
use vstd::prelude::*;
use crate::database::WQDatabase;

verus! {

/// The settings of one bot: its password (none for a QR code login) and the
/// protocol it logs in with.
#[derive(Debug, Clone)]
pub struct QQConfig {
    pub password: Option<String>,
    pub protocol: Option<u8>,
}

/// How much is logged.
#[derive(Debug, Clone, Copy, PartialEq, Eq)]
pub enum LogLevel {
    Trace,
    Debug,
    Info,
    Warn,
    Error,
}

impl Default for LogLevel {
    /// `info`.
    fn default() -> (l: LogLevel)
        ensures
            l == LogLevel::Info,
    {
        LogLevel::Info
    }
}

impl LogLevel {
    /// The level's name, as the configuration file writes it.
    pub fn name(&self) -> (s: &'static str)
        ensures
            s@ == match *self {
                LogLevel::Trace => "trace"@,
                LogLevel::Debug => "debug"@,
                LogLevel::Info => "info"@,
                LogLevel::Warn => "warn"@,
                LogLevel::Error => "error"@,
            },
    {
        match self {
            LogLevel::Trace => "trace",
            LogLevel::Debug => "debug",
            LogLevel::Info => "info",
            LogLevel::Warn => "warn",
            LogLevel::Error => "error",
        }
    }
}

/// The implementation's own settings.
#[derive(Debug)]
pub struct MetaConfig {
    pub log_level: LogLevel,
    pub event_cache_size: usize,
    pub sled: bool,
    pub leveldb: bool,
}

impl Default for MetaConfig {
    /// Log at `info`, keep 10 events, store messages in sled only.
    fn default() -> (m: MetaConfig)
        ensures
            m.log_level == LogLevel::Info,
            m.event_cache_size == 10,
            m.sled,
            !m.leveldb,
    {
        MetaConfig { log_level: LogLevel::Info, event_cache_size: 10, sled: true, leveldb: false }
    }
}

impl MetaConfig {
    /// The database the settings ask for: sled first when it is on, then
    /// LevelDB when it is on.
    pub fn db(&self) -> (d: WQDatabase)
        ensures
            d@ == crate::database::backends_for(self.sled, self.leveldb),
    {
        let mut d = WQDatabase::default();
        if self.sled {
            d = d.sled();
        }
        if self.leveldb {
            d = d.level();
        }
        d
    }
}

/// The command line: options that override the configuration file.
#[derive(Debug)]
pub struct Comm {
    pub log_level: Option<LogLevel>,
    pub event_cache_size: Option<usize>,
    pub toml_path: Option<String>,
    pub json_config: Option<String>,
}

/// `a` replaced by `b` when `b` is given.
pub open spec fn override_with<T>(a: T, b: Option<T>) -> T {
    match b {
        Some(v) => v,
        None => a,
    }
}

impl Comm {
    /// Overrides the settings with the options given on the command line:
    /// the event cache size and the log level.
    pub fn merge(self, meta: &mut MetaConfig)
        ensures
            final(meta).event_cache_size == override_with(old(meta).event_cache_size, self.event_cache_size),
            final(meta).log_level == override_with(old(meta).log_level, self.log_level),
            final(meta).sled == old(meta).sled,
            final(meta).leveldb == old(meta).leveldb,
    {
        if let Some(n) = self.event_cache_size {
            meta.event_cache_size = n;
        }
        if let Some(l) = self.log_level {
            meta.log_level = l;
        }
    }
}

} // verus!
