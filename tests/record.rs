use ddns_monitor::journal::{journal_priority, LogLevel};
use ddns_monitor::record::{plan_write, RecordWrite};

#[test]
fn no_match_creates() {
    assert_eq!(plan_write(&Vec::new()), RecordWrite::Create);
}

#[test]
fn one_match_updates_it() {
    let ids = vec!["abc123".to_string()];
    assert_eq!(plan_write(&ids), RecordWrite::Update { id: "abc123".to_string() });
}

#[test]
fn several_matches_update_first() {
    let ids = vec!["first".to_string(), "second".to_string()];
    assert_eq!(plan_write(&ids), RecordWrite::Update { id: "first".to_string() });
}

#[test]
fn journal_priorities() {
    assert_eq!(journal_priority(LogLevel::Error), 3);
    assert_eq!(journal_priority(LogLevel::Warn), 4);
    assert_eq!(journal_priority(LogLevel::Info), 6);
    assert_eq!(journal_priority(LogLevel::Debug), 7);
    assert_eq!(journal_priority(LogLevel::Trace), 7);
}
