use atm_parser::db::{SqlValue, StatementKind, Table};
use atm_parser::watcher::{clear_source_data, watched_files, Feed, FileWatcher, ModTime};
use rusqlite::Connection;

fn at(secs: u64) -> ModTime {
    ModTime { before_epoch: false, secs, nanos: 0 }
}

#[test]
fn files_are_loaded_when_new_or_changed() {
    let mut w = FileWatcher::new(Connection::open_in_memory().unwrap());
    assert!(!w.record_modification("data/a.json", None));
    assert!(w.record_modification("data/a.json", Some(at(10))));
    assert!(!w.record_modification("data/a.json", Some(at(10))));
    assert!(!w.record_modification("data/a.json", None));
    assert!(w.record_modification("data/b.csv", Some(at(10))));
    assert!(w.record_modification("data/a.json", Some(at(11))));
    assert!(!w.record_modification("data/b.csv", Some(at(10))));
    assert!(w.record_modification("data/a.json", Some(ModTime { before_epoch: false, secs: 11, nanos: 1 })));
    assert!(w.record_modification("data/a.json", Some(ModTime { before_epoch: true, secs: 11, nanos: 1 })));
    assert!(!w.record_modification("data/a.json", Some(ModTime { before_epoch: true, secs: 11, nanos: 1 })));
    assert_eq!(w.files.len(), 2);
}

#[test]
fn a_changed_file_is_cleared_before_it_is_loaded() {
    let mut w = FileWatcher::new(Connection::open_in_memory().unwrap());
    let first = w.check_file("data/gcp_cloud_metrics.csv", "gcp", Some(at(5))).unwrap();
    assert_eq!(first.len(), 3);
    assert_eq!(first[0].kind, StatementKind::DeleteAll(Table::GcpCloudMetrics));
    assert!(w.check_file("data/gcp_cloud_metrics.csv", "gcp", Some(at(5))).is_none());
    assert!(w.check_file("data/gcp_cloud_metrics.csv", "gcp", None).is_none());
    let again = w.check_file("data/gcp_cloud_metrics.csv", "gcp", Some(at(6))).unwrap();
    assert!(matches!(&again[1].params[0], SqlValue::Text(p) if p == "%gcp%"));
}

#[test]
fn the_seven_watched_files() {
    let files = watched_files();
    let listed: Vec<(&str, &str, Feed)> = files.iter().map(|f| (f.path, f.source, f.feed)).collect();
    assert_eq!(
        listed,
        vec![
            ("data/kafka_atm_metrics_stream.json", "kafka", Feed::Kafka),
            ("data/windows_os_metrics.csv", "windows_os", Feed::WindowsOs),
            ("data/gcp_cloud_metrics.csv", "gcp", Feed::Gcp),
            ("data/prometheus_metrics.csv", "prometheus", Feed::Prometheus),
            ("data/atm_hardware_sensor_log.json", "hardware_sensor", Feed::HardwareSensor),
            ("data/atm_application_log.json", "atm_application", Feed::AtmApplication),
            ("data/terminal_handler_app_log.json", "terminal_handler", Feed::TerminalHandler),
        ]
    );
}

#[test]
fn clearing_a_known_source() {
    let ops = clear_source_data("windows_os");
    assert_eq!(ops.len(), 3);
    assert_eq!(ops[0].kind, StatementKind::DeleteAll(Table::WindowsOsMetrics));
    assert!(ops[0].params.is_empty());
    assert_eq!(ops[1].kind, StatementKind::DeleteAnomaliesLike);
    assert!(matches!(&ops[1].params[0], SqlValue::Text(p) if p == "%windows_os%"));
    assert_eq!(ops[2].kind, StatementKind::DeleteFactMetricsBySource);
    assert!(matches!(&ops[2].params[0], SqlValue::Text(p) if p == "windows_os"));
}

#[test]
fn clearing_an_unknown_source_spares_staging_tables() {
    let ops = clear_source_data("unknown");
    assert_eq!(ops.len(), 2);
    assert_eq!(ops[0].kind, StatementKind::DeleteAnomaliesLike);
    assert!(matches!(&ops[0].params[0], SqlValue::Text(p) if p == "%unknown%"));
    assert_eq!(ops[1].kind, StatementKind::DeleteFactMetricsBySource);
}

#[test]
fn the_first_pass_loads_every_readable_file() {
    let mut w = FileWatcher::new(Connection::open_in_memory().unwrap());
    let files = watched_files();
    for (i, f) in files.iter().enumerate() {
        let time = if i == 3 { None } else { Some(at(100)) };
        let clearing = w.check_file(f.path, f.source, time);
        assert_eq!(clearing.is_some(), i != 3, "{}", f.path);
    }
    for f in &files {
        assert!(w.check_file(f.path, f.source, Some(at(100))).is_none() || f.path == "data/prometheus_metrics.csv");
    }
}

#[test]
fn every_watched_source_is_seeded() {
    let seeded: Vec<String> = atm_parser::db::seed_dim_source()
        .iter()
        .map(|st| match &st.params[0] {
            SqlValue::Text(t) => t.clone(),
            _ => panic!("source name is text"),
        })
        .collect();
    let watched: Vec<String> = watched_files().iter().map(|f| f.source.to_string()).collect();
    assert_eq!(seeded, watched);
}

#[test]
fn one_pass_checks_the_watched_files_in_order() {
    let mut w = FileWatcher::new(Connection::open_in_memory().unwrap());
    let times = vec![Some(at(1)), None, Some(at(1)), Some(at(2))];
    let actions = w.check_files(&times);
    assert_eq!(actions.len(), 7);
    let loaded: Vec<bool> = actions.iter().map(|a| a.is_some()).collect();
    assert_eq!(loaded, vec![true, false, true, true, false, false, false]);
    match &actions[2] {
        Some(clearing) => assert_eq!(clearing[0].kind, StatementKind::DeleteAll(Table::GcpCloudMetrics)),
        None => panic!("gcp is loaded"),
    }
    let again = w.check_files(&vec![Some(at(1)), Some(at(5)), Some(at(1)), Some(at(3))]);
    let loaded: Vec<bool> = again.iter().map(|a| a.is_some()).collect();
    assert_eq!(loaded, vec![false, true, false, true, false, false, false]);
    assert_eq!(w.files.len(), 4);
}
