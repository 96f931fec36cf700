use walle_q::command::{default_true, Comm as OldComm};
use walle_q::config::{Comm, LogLevel, MetaConfig};
use walle_q::database::Backend;

#[test]
fn default_settings() {
    let m = MetaConfig::default();
    assert_eq!(m.log_level, LogLevel::Info);
    assert_eq!(m.event_cache_size, 10);
    assert!(m.sled && !m.leveldb);
    assert_eq!(LogLevel::default(), LogLevel::Info);
    assert_eq!(LogLevel::Warn.name(), "warn");
}

#[test]
fn database_follows_settings() {
    let m = MetaConfig { log_level: LogLevel::Info, event_cache_size: 1, sled: true, leveldb: true };
    assert_eq!(m.db().backends, vec![Backend::Sled, Backend::Level]);
    let m = MetaConfig { log_level: LogLevel::Info, event_cache_size: 1, sled: false, leveldb: false };
    assert!(!m.db().not_empty());
}

#[test]
fn command_line_overrides_settings() {
    let mut m = MetaConfig::default();
    let c = Comm { log_level: Some(LogLevel::Debug), event_cache_size: None, toml_path: None, json_config: None };
    c.merge(&mut m);
    assert_eq!(m.log_level, LogLevel::Debug);
    assert_eq!(m.event_cache_size, 10);
    let c = Comm { log_level: None, event_cache_size: Some(99), toml_path: None, json_config: None };
    c.merge(&mut m);
    assert_eq!((m.log_level, m.event_cache_size), (LogLevel::Debug, 99));
}

#[test]
fn old_command_lines_combine() {
    let mut a = OldComm {
        log: Some(LogLevel::Info),
        v11: false,
        event_cache_size: Some(5),
        time_zone: Some(8),
        sled: true,
        disable_leveldb: false,
    };
    let b = OldComm { log: None, v11: true, event_cache_size: Some(7), time_zone: Some(0), sled: false, disable_leveldb: false };
    a.merge(b.clone());
    assert_eq!(a.log, Some(LogLevel::Info));
    assert_eq!(a.event_cache_size, Some(7));
    assert_eq!(a.time_zone, Some(8));
    assert!(a.v11 && a.sled && !a.disable_leveldb);
    let before = a.clone();
    a.merge(b);
    assert_eq!((a.log, a.event_cache_size, a.v11, a.sled), (before.log, before.event_cache_size, before.v11, before.sled));
    assert!(default_true());
}
