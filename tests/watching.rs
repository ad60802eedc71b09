use hooky::config::{get_config_file, Config, ConfigFile, WatcherConfig};
use hooky::file::FileEvent;
use hooky::observer::Observer;
use hooky::snapshot::Entry;
use hooky::watcher::{Interval, Watcher};
use std::time::Duration;

fn entry(name: &str, modified: u128) -> Entry {
    Entry {
        name: name.to_string(),
        path: format!("/w/{}", name),
        depth: 1,
        is_file: true,
        last_modified: modified,
        last_accessed: modified,
    }
}

fn watcher_config(patterns: Vec<String>) -> WatcherConfig {
    WatcherConfig {
        path: "/w".to_string(),
        recursive: false,
        patterns,
        interval: Interval::Check(Duration::from_millis(10)),
    }
}

#[test]
fn watcher_reports_nothing_before_start() {
    let mut w = Watcher::new(watcher_config(vec![]));
    assert!(w.get_events(&vec![entry("a.txt", 1)]).is_empty());
}

#[test]
fn watcher_baseline_moves_only_on_change() {
    let mut w = Watcher::new(watcher_config(vec![]));
    assert_eq!(w.path(), "/w");
    assert!(!w.is_recursive());
    assert!(w.patterns().is_empty());
    assert_eq!(w.interval(), &Interval::Check(Duration::from_millis(10)));
    w.start(&vec![entry("a.txt", 5)]);
    // an earlier time is no event, and the baseline stays at 5
    assert!(w.get_events(&vec![entry("a.txt", 3)]).is_empty());
    assert!(w.get_events(&vec![entry("a.txt", 4)]).is_empty());
    let events = w.get_events(&vec![entry("a.txt", 6)]);
    assert_eq!(events.len(), 1);
    assert!(matches!(events[0], FileEvent::Modified(_)));
    assert!(w.get_events(&vec![entry("a.txt", 6)]).is_empty());
}

#[test]
fn watcher_returns_the_whole_batch() {
    let mut w = Watcher::new(watcher_config(vec![]));
    w.start(&vec![]);
    let events = w.get_events(&vec![entry("a.txt", 1), entry("b.txt", 1)]);
    assert_eq!(events.len(), 2);
    assert!(w.get_events(&vec![entry("a.txt", 1), entry("b.txt", 1)]).is_empty());
}

#[test]
fn watcher_applies_patterns() {
    let mut w = Watcher::new(watcher_config(vec![".rs".to_string()]));
    w.start(&vec![]);
    let events = w.get_events(&vec![entry("a.txt", 1), entry("b.rs", 1)]);
    assert_eq!(events.len(), 1);
    assert_eq!(events[0].file().name(), "b.rs");
}

#[test]
fn observer_polls_against_its_baseline() {
    let config = Config::new("/w".to_string(), "make".to_string(), false, false, vec![]);
    let mut o = Observer::new(config, &vec![entry("a.txt", 1)]);
    assert_eq!(o.config().exec(), "make");
    assert!(o.iter_events(&vec![entry("a.txt", 1)]).is_empty());
    let events = o.iter_events(&vec![]);
    assert_eq!(events.len(), 1);
    assert!(matches!(events[0], FileEvent::Deleted(_)));
    assert!(o.iter_events(&vec![]).is_empty());
}

#[test]
fn config_getters_and_defaults() {
    let c = Config::load_from_args("/w".to_string(), "make".to_string(), true, true, vec![".c".to_string()]);
    assert_eq!(c.path(), "/w");
    assert_eq!(c.exec(), "make");
    assert!(c.is_recursive());
    assert!(c.only_events());
    assert_eq!(c.patterns(), vec![".c".to_string()]);
    let f = ConfigFile {
        watch: "/src".to_string(),
        command: "cargo test".to_string(),
        recursive: None,
        on_events_only: None,
        attempts: None,
        patterns: None,
    };
    let c = Config::load_from_file(f);
    assert_eq!(c.path(), "/src");
    assert_eq!(c.exec(), "cargo test");
    assert!(!c.is_recursive());
    assert!(!c.only_events());
    assert!(c.patterns().is_empty());
    let w = watcher_config(vec![".rs".to_string()]);
    assert_eq!(w.path(), "/w");
    assert!(!w.is_recursive());
    assert_eq!(w.patterns(), vec![".rs".to_string()]);
}

#[test]
fn config_file_is_found_by_name() {
    let entries = vec![entry("a.json", 1), entry("observer.json", 1), entry("observer.json", 2)];
    assert_eq!(get_config_file(&entries), Some("/w/observer.json".to_string()));
    assert_eq!(get_config_file(&vec![entry("watch.json", 1)]), None);
}
