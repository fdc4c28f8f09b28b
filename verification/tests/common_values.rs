use atm_parser::db::{seed_dim_source, SqlValue, Statement, StatementKind, Table};
use atm_parser::models::flexible_float;
use atm_parser::text::{fmt_debug_opt_i64, fmt_debug_opt_string, fmt_i64, fmt_u64, str_eq};

fn text_of(v: &SqlValue) -> &str {
    match v {
        SqlValue::Text(s) => s.as_str(),
        other => panic!("expected text, got {:?}", other),
    }
}

fn texts(st: &Statement) -> Vec<String> {
    st.params.iter().map(|v| text_of(v).to_string()).collect()
}

#[test]
fn decimal_rendering_of_integers() {
    assert_eq!(fmt_u64(0), "0");
    assert_eq!(fmt_u64(1234567890), "1234567890");
    assert_eq!(fmt_u64(u64::MAX), u64::MAX.to_string());
    assert_eq!(fmt_i64(0), "0");
    assert_eq!(fmt_i64(7), "7");
    assert_eq!(fmt_i64(-42), "-42");
    assert_eq!(fmt_i64(i64::MIN), "-9223372036854775808");
    assert_eq!(fmt_i64(i64::MAX), "9223372036854775807");
}

#[test]
fn debug_rendering_of_options() {
    assert_eq!(fmt_debug_opt_string(&None), "None");
    assert_eq!(fmt_debug_opt_string(&Some("OFFLINE".to_string())), "Some(\"OFFLINE\")");
    assert_eq!(
        fmt_debug_opt_string(&Some("say \"hi\"\n".to_string())),
        format!("{:?}", Some("say \"hi\"\n"))
    );
    assert_eq!(fmt_debug_opt_i64(Some(503)), "Some(503)");
    assert_eq!(fmt_debug_opt_i64(Some(-1)), format!("{:?}", Some(-1i64)));
    assert_eq!(fmt_debug_opt_i64(None), "None");
}

#[test]
fn string_slice_equality() {
    assert!(str_eq("A1", "A1"));
    assert!(!str_eq("A1", "A10"));
    assert!(!str_eq("a1", "A1"));
    assert!(str_eq("", ""));
}

#[test]
fn flexible_float_placeholders_are_absent() {
    assert_eq!(flexible_float::deserialize(None), None);
    assert_eq!(flexible_float::deserialize(Some(String::new())), None);
    assert_eq!(flexible_float::deserialize(Some("NaN".to_string())), None);
    assert_eq!(flexible_float::deserialize(Some("null".to_string())), None);
    assert_eq!(
        flexible_float::deserialize(Some("12.5".to_string())),
        Some("12.5".to_string())
    );
    assert_eq!(flexible_float::deserialize(Some("nan".to_string())), Some("nan".to_string()));
    assert_eq!(flexible_float::deserialize(Some("abc".to_string())), Some("abc".to_string()));
}

#[test]
fn dim_source_seed_rows() {
    let rows = seed_dim_source();
    assert_eq!(rows.len(), 7);
    for row in &rows {
        assert_eq!(row.kind, StatementKind::InsertDimSource);
    }
    assert_eq!(texts(&rows[0]), vec!["kafka", "metrics", "Kafka ATM transaction metrics stream"]);
    assert_eq!(texts(&rows[2]), vec!["gcp", "metrics", "Google Cloud Platform container metrics"]);
    assert_eq!(
        texts(&rows[6]),
        vec!["terminal_handler", "logs", "Terminal Handler backend service logs"]
    );
    let names: Vec<String> = rows.iter().map(|r| texts(r)[0].clone()).collect();
    assert_eq!(
        names,
        vec![
            "kafka",
            "windows_os",
            "gcp",
            "prometheus",
            "hardware_sensor",
            "atm_application",
            "terminal_handler"
        ]
    );
}

#[test]
fn sql_text_of_statements() {
    assert_eq!(StatementKind::DeleteAll(Table::GcpCloudMetrics).sql(), "DELETE FROM gcp_cloud_metrics");
    assert_eq!(
        StatementKind::DeleteAnomaliesLike.sql(),
        "DELETE FROM anomalies WHERE source_table LIKE ?"
    );
    assert!(StatementKind::InsertKafka.sql().contains("INSERT OR IGNORE INTO kafka_atm_metrics"));
    assert!(StatementKind::InsertDimAtmHardware.sql().contains("INSERT OR IGNORE INTO dim_atm"));
    assert_eq!(Table::TerminalHandlerLog.name(), "terminal_handler_log");
}
