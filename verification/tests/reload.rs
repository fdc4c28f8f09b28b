use atm_parser::db::schema::CREATE_TABLES;
use atm_parser::db::{seed_dim_source, SqlValue, Statement};
use atm_parser::models::{HardwareSensorLog, KafkaAtmMetric, Real, WindowsOsMetric};
use atm_parser::parsers::{hardware_sensor, kafka_metrics, windows_metrics};
use atm_parser::watcher::clear_source_data;
use rusqlite::types::Value;
use rusqlite::{params_from_iter, Connection};

fn s(x: &str) -> String {
    x.to_string()
}

fn reading(x: f64) -> Real {
    Real { bits: x.to_bits(), debug: format!("{:?}", x) }
}

fn value(v: &SqlValue) -> Value {
    match v {
        SqlValue::Null => Value::Null,
        SqlValue::Integer(i) => Value::Integer(*i),
        SqlValue::Real(b) => Value::Real(f64::from_bits(*b)),
        SqlValue::IntegerAsReal(i) => Value::Real(*i as f64),
        SqlValue::Text(t) => Value::Text(t.clone()),
    }
}

fn run(conn: &Connection, statements: &[Statement]) {
    for st in statements {
        conn.execute(&st.kind.sql(), params_from_iter(st.params.iter().map(value))).unwrap();
    }
}

fn count(conn: &Connection, sql: &str) -> i64 {
    conn.query_row(sql, [], |row| row.get(0)).unwrap()
}

fn database() -> Connection {
    let conn = Connection::open_in_memory().unwrap();
    conn.execute_batch(CREATE_TABLES).unwrap();
    run(&conn, &seed_dim_source());
    conn
}

fn kafka(event_id: &str, anomaly: Option<&str>) -> KafkaAtmMetric {
    KafkaAtmMetric {
        timestamp: s("2025-01-01T00:00:00Z"),
        event_id: s(event_id),
        correlation_id: None,
        atm_id: s("ATM-GB-0001"),
        atm_status: None,
        transaction_rate_tps: None,
        response_time_ms: Some(100),
        transaction_volume: None,
        transaction_success_rate: None,
        transaction_failure_reason: None,
        failure_count: None,
        window_duration_seconds: None,
        kafka_partition: None,
        kafka_offset: None,
        anomaly: anomaly.map(s),
    }
}

fn windows(anomaly: Option<&str>) -> WindowsOsMetric {
    WindowsOsMetric {
        timestamp: s("2025-01-01T00:01:00Z"),
        atm_id: s("ATM-GB-0002"),
        hostname: s("HOST-2"),
        os_version: None,
        cpu_usage_percent: Some(reading(50.0)),
        memory_used_mb: None,
        memory_total_mb: None,
        memory_usage_percent: None,
        disk_read_bytes_per_sec: None,
        disk_write_bytes_per_sec: None,
        disk_free_gb: Some(reading(10.0)),
        network_bytes_sent_per_sec: None,
        network_bytes_recv_per_sec: None,
        network_errors: None,
        process_count: None,
        system_uptime_seconds: None,
        event_log_errors_last_min: None,
        anomaly: anomaly.map(s),
    }
}

fn sensor(anomaly: Option<&str>) -> HardwareSensorLog {
    HardwareSensorLog {
        timestamp: s("2025-01-01T00:02:00Z"),
        atm_id: s("ATM-GB-0003"),
        correlation_id: None,
        component: None,
        event_type: None,
        severity: None,
        message: None,
        metric_name: Some(s("temperature")),
        metric_value: Some(reading(40.0)),
        metric_unit: None,
        threshold_value: None,
        firmware_version: None,
        anomaly: anomaly.map(s),
    }
}

#[test]
fn seeding_registers_seven_sources_once() {
    let conn = database();
    run(&conn, &seed_dim_source());
    assert_eq!(count(&conn, "SELECT COUNT(*) FROM dim_source"), 7);
}

#[test]
fn reload_replaces_only_the_changed_source() {
    let conn = database();
    run(&conn, &kafka_metrics::insert_plan(&vec![kafka("e1", Some("A1")), kafka("e2", None)]).statements);
    run(&conn, &windows_metrics::insert_plan(&vec![Some(windows(Some("A6")))]).statements);
    run(&conn, &hardware_sensor::insert_plan(&vec![sensor(Some("A2"))]).statements);

    assert_eq!(count(&conn, "SELECT COUNT(*) FROM kafka_atm_metrics"), 2);
    assert_eq!(count(&conn, "SELECT COUNT(*) FROM anomalies"), 3);
    assert_eq!(count(&conn, "SELECT COUNT(*) FROM fact_metrics"), 3);
    assert_eq!(count(&conn, "SELECT COUNT(*) FROM dim_atm"), 2);

    // The Windows file changed: clear its rows, then load it again.
    run(&conn, &clear_source_data("windows_os"));
    assert_eq!(count(&conn, "SELECT COUNT(*) FROM windows_os_metrics"), 0);
    assert_eq!(count(&conn, "SELECT COUNT(*) FROM anomalies WHERE source_table = 'windows_os_metrics'"), 0);
    assert_eq!(count(&conn, "SELECT COUNT(*) FROM fact_metrics WHERE source = 'windows_os'"), 0);
    assert_eq!(count(&conn, "SELECT COUNT(*) FROM kafka_atm_metrics"), 2);
    assert_eq!(count(&conn, "SELECT COUNT(*) FROM anomalies"), 2);
    assert_eq!(count(&conn, "SELECT COUNT(*) FROM fact_metrics"), 1);
    assert_eq!(count(&conn, "SELECT COUNT(*) FROM dim_atm"), 2);

    run(&conn, &windows_metrics::insert_plan(&vec![Some(windows(None)), Some(windows(None))]).statements);
    assert_eq!(count(&conn, "SELECT COUNT(*) FROM windows_os_metrics"), 2);
    assert_eq!(count(&conn, "SELECT COUNT(*) FROM anomalies"), 2);
    assert_eq!(count(&conn, "SELECT COUNT(*) FROM fact_metrics WHERE source = 'windows_os'"), 4);
}

#[test]
fn kafka_events_are_loaded_once_per_event_id() {
    let conn = database();
    let plan = kafka_metrics::insert_plan(&vec![kafka("e1", None), kafka("e1", None)]);
    assert_eq!(plan.inserted, 2);
    run(&conn, &plan.statements);
    assert_eq!(count(&conn, "SELECT COUNT(*) FROM kafka_atm_metrics"), 1);
}

#[test]
fn clearing_each_source_leaves_the_others() {
    let sources = [
        "kafka",
        "windows_os",
        "gcp",
        "prometheus",
        "hardware_sensor",
        "atm_application",
        "terminal_handler",
    ];
    let tables = [
        "kafka_atm_metrics",
        "windows_os_metrics",
        "gcp_cloud_metrics",
        "prometheus_metrics",
        "hardware_sensor_log",
        "atm_application_log",
        "terminal_handler_log",
    ];
    for (i, source) in sources.iter().enumerate() {
        let conn = database();
        for (j, table) in tables.iter().enumerate() {
            conn.execute(
                "INSERT INTO anomalies (timestamp, anomaly_code, source_table) VALUES ('t', 'A1', ?1)",
                [table],
            )
            .unwrap();
            conn.execute(
                "INSERT INTO fact_metrics (timestamp, source, metric_name) VALUES ('t', ?1, 'm')",
                [sources[j]],
            )
            .unwrap();
        }
        run(&conn, &clear_source_data(source));
        assert_eq!(count(&conn, "SELECT COUNT(*) FROM anomalies"), 6);
        assert_eq!(count(&conn, "SELECT COUNT(*) FROM fact_metrics"), 6);
        let left: i64 = conn
            .query_row(
                "SELECT COUNT(*) FROM anomalies WHERE source_table = ?1",
                [tables[i]],
                |row| row.get(0),
            )
            .unwrap();
        assert_eq!(left, 0);
    }
}

#[test]
fn loads_only_insert_and_name_seeded_sources() {
    let seeded: Vec<String> = seed_dim_source()
        .iter()
        .map(|st| match &st.params[0] {
            SqlValue::Text(t) => t.clone(),
            _ => panic!("source name is text"),
        })
        .collect();
    let plans = vec![
        kafka_metrics::insert_plan(&vec![kafka("e1", Some("A1"))]),
        windows_metrics::insert_plan(&vec![Some(windows(Some("A6"))), None]),
        hardware_sensor::insert_plan(&vec![sensor(Some("A2"))]),
    ];
    for plan in &plans {
        for st in &plan.statements {
            assert!(!matches!(
                st.kind,
                atm_parser::db::StatementKind::DeleteAll(_)
                    | atm_parser::db::StatementKind::DeleteAnomaliesLike
                    | atm_parser::db::StatementKind::DeleteFactMetricsBySource
            ));
            if st.kind == atm_parser::db::StatementKind::InsertFactMetric {
                match &st.params[2] {
                    SqlValue::Text(t) => assert!(seeded.contains(t), "{}", t),
                    _ => panic!("fact source is text"),
                }
            }
        }
    }
}

#[test]
fn reloading_unchanged_content_leaves_the_same_rows() {
    let conn = database();
    let records = vec![kafka("e1", Some("A4")), kafka("e1", None), kafka("e2", None)];
    let windows_rows = vec![Some(windows(Some("A6")))];
    run(&conn, &clear_source_data("kafka"));
    run(&conn, &kafka_metrics::insert_plan(&records).statements);
    run(&conn, &windows_metrics::insert_plan(&windows_rows).statements);
    let snapshot = |conn: &Connection| -> Vec<String> {
        let mut rows = Vec::new();
        for sql in [
            "SELECT event_id || '|' || IFNULL(anomaly, '') FROM kafka_atm_metrics ORDER BY id",
            "SELECT source_table || '|' || anomaly_code || '|' || description FROM anomalies ORDER BY source_table, id",
            "SELECT source || '|' || metric_name FROM fact_metrics ORDER BY source, id",
            "SELECT atm_id || '|' || first_seen FROM dim_atm ORDER BY atm_id",
            "SELECT source_name FROM dim_source ORDER BY source_name",
        ] {
            let mut st = conn.prepare(sql).unwrap();
            let found: Vec<String> = st.query_map([], |row| row.get(0)).unwrap().map(|r| r.unwrap()).collect();
            rows.push(found.join(";"));
        }
        rows
    };
    let before = snapshot(&conn);
    run(&conn, &clear_source_data("kafka"));
    run(&conn, &kafka_metrics::insert_plan(&records).statements);
    assert_eq!(snapshot(&conn), before);
    run(&conn, &clear_source_data("kafka"));
    run(&conn, &clear_source_data("kafka"));
    assert_eq!(count(&conn, "SELECT COUNT(*) FROM kafka_atm_metrics"), 0);
    assert_eq!(count(&conn, "SELECT COUNT(*) FROM anomalies"), 1);
}
