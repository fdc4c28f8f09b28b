use atm_parser::db::{SqlValue, Statement, StatementKind};
use atm_parser::models::{
    AtmApplicationLog, GcpCloudMetric, HardwareSensorLog, KafkaAtmMetric, PrometheusMetric, Real,
    TerminalHandlerLog, WindowsOsMetric,
};
use atm_parser::parsers::{
    atm_app_log, gcp_metrics, hardware_sensor, kafka_metrics, prometheus_metrics,
    terminal_handler, windows_metrics,
};

fn s(x: &str) -> String {
    x.to_string()
}

fn reading(x: f64) -> Real {
    Real { bits: x.to_bits(), debug: format!("{:?}", x) }
}

fn text(v: &SqlValue) -> Option<&str> {
    match v {
        SqlValue::Text(t) => Some(t.as_str()),
        _ => None,
    }
}

fn is_null(v: &SqlValue) -> bool {
    matches!(v, SqlValue::Null)
}

fn kinds(v: &[Statement]) -> Vec<StatementKind> {
    v.iter().map(|st| st.kind).collect()
}

fn kafka(event_id: &str, anomaly: Option<&str>) -> KafkaAtmMetric {
    KafkaAtmMetric {
        timestamp: s("2025-01-01T00:00:00Z"),
        event_id: s(event_id),
        correlation_id: None,
        atm_id: s("ATM-GB-0001"),
        atm_status: Some(s("OFFLINE")),
        transaction_rate_tps: Some(reading(1.5)),
        response_time_ms: Some(250),
        transaction_volume: None,
        transaction_success_rate: None,
        transaction_failure_reason: None,
        failure_count: Some(3),
        window_duration_seconds: None,
        kafka_partition: None,
        kafka_offset: None,
        anomaly: anomaly.map(s),
    }
}

fn windows(atm: &str, cpu: Option<f64>, anomaly: Option<&str>) -> WindowsOsMetric {
    WindowsOsMetric {
        timestamp: s("2025-01-01T00:01:00Z"),
        atm_id: s(atm),
        hostname: s("HOST-1"),
        os_version: Some(s("Windows 10")),
        cpu_usage_percent: cpu.map(reading),
        memory_used_mb: Some(reading(2048.0)),
        memory_total_mb: None,
        memory_usage_percent: None,
        disk_read_bytes_per_sec: None,
        disk_write_bytes_per_sec: None,
        disk_free_gb: None,
        network_bytes_sent_per_sec: None,
        network_bytes_recv_per_sec: None,
        network_errors: Some(0),
        process_count: None,
        system_uptime_seconds: None,
        event_log_errors_last_min: None,
        anomaly: anomaly.map(s),
    }
}

#[test]
fn kafka_events_yield_rows_and_anomalies() {
    let records = vec![kafka("e1", None), kafka("e2", Some("A4"))];
    let plan = kafka_metrics::insert_plan(&records);
    assert_eq!(plan.inserted, 2);
    assert_eq!(plan.anomalies, 1);
    assert_eq!(
        kinds(&plan.statements),
        vec![StatementKind::InsertKafka, StatementKind::InsertKafka, StatementKind::InsertAnomaly]
    );
    let row = &plan.statements[0];
    assert_eq!(row.params.len(), 11);
    assert_eq!(text(&row.params[1]), Some("e1"));
    assert!(matches!(row.params[4], SqlValue::Real(b) if b == 1.5f64.to_bits()));
    assert!(matches!(row.params[5], SqlValue::Integer(250)));
    assert!(is_null(&row.params[6]));
    assert!(is_null(&row.params[10]));
    let anomaly = &plan.statements[2];
    assert_eq!(text(&anomaly.params[1]), Some("ATM-GB-0001"));
    assert_eq!(text(&anomaly.params[2]), Some("A4"));
    assert_eq!(text(&anomaly.params[3]), Some("kafka_atm_metrics"));
    assert!(matches!(anomaly.params[4], SqlValue::Integer(0)));
    assert_eq!(text(&anomaly.params[5]), Some("CRITICAL"));
    assert_eq!(text(&anomaly.params[6]), Some("ATM status: Some(\"OFFLINE\"), failure: None"));
}

#[test]
fn empty_stream_yields_nothing() {
    let plan = kafka_metrics::insert_plan(&Vec::new());
    assert_eq!(plan.inserted, 0);
    assert_eq!(plan.anomalies, 0);
    assert!(plan.statements.is_empty());
}

#[test]
fn windows_rows_yield_facts_registration_and_anomaly() {
    let rows = vec![
        Some(windows("ATM-GB-0002", Some(95.5), Some("A6"))),
        None,
        Some(windows("ATM-GB-0003", None, None)),
    ];
    let plan = windows_metrics::insert_plan(&rows);
    assert_eq!(plan.inserted, 2);
    assert_eq!(plan.anomalies, 1);
    assert_eq!(
        kinds(&plan.statements),
        vec![
            StatementKind::InsertWindows,
            StatementKind::InsertFactMetric,
            StatementKind::InsertFactMetric,
            StatementKind::InsertDimAtmWindows,
            StatementKind::InsertAnomaly,
            StatementKind::InsertWindows,
            StatementKind::InsertFactMetric,
            StatementKind::InsertDimAtmWindows,
        ]
    );
    let cpu = &plan.statements[1];
    assert_eq!(text(&cpu.params[2]), Some("windows_os"));
    assert_eq!(text(&cpu.params[3]), Some("cpu_usage_percent"));
    assert!(matches!(cpu.params[4], SqlValue::Real(b) if b == 95.5f64.to_bits()));
    assert_eq!(text(&cpu.params[5]), Some("A6"));
    assert_eq!(text(&plan.statements[2].params[3]), Some("memory_used_mb"));
    let dim = &plan.statements[3];
    assert_eq!(text(&dim.params[0]), Some("ATM-GB-0002"));
    assert_eq!(text(&dim.params[1]), Some("HOST-1"));
    assert_eq!(text(&dim.params[2]), Some("Windows 10"));
    let anomaly = &plan.statements[4];
    assert_eq!(text(&anomaly.params[3]), Some("windows_os_metrics"));
    assert_eq!(text(&anomaly.params[5]), Some("WARNING"));
    assert_eq!(text(&anomaly.params[6]), Some("CPU: Some(95.5)%, Memory: Some(2048.0)MB"));
    assert!(is_null(&plan.statements[6].params[5]));
}

#[test]
fn gcp_anomalies_have_no_atm() {
    let sample = GcpCloudMetric {
        timestamp: s("t"),
        project_id: None,
        resource_type: Some(s("container")),
        resource_id: Some(s("pod-7")),
        zone: None,
        metric_name: Some(s("cpu")),
        metric_value: Some(reading(0.25)),
        metric_unit: None,
        cpu_usage_percent: None,
        memory_usage_bytes: Some(1024),
        memory_limit_bytes: None,
        network_ingress_bytes: None,
        network_egress_bytes: None,
        restart_count: None,
        label_app: None,
        label_env: None,
        label_version: None,
        anomaly: Some(s("A4")),
    };
    let plan = gcp_metrics::insert_plan(&vec![None, Some(sample)]);
    assert_eq!(plan.inserted, 1);
    assert_eq!(plan.anomalies, 1);
    assert_eq!(kinds(&plan.statements), vec![StatementKind::InsertGcp, StatementKind::InsertAnomaly]);
    assert_eq!(plan.statements[0].params.len(), 8);
    assert!(matches!(plan.statements[0].params[6], SqlValue::Integer(1024)));
    let anomaly = &plan.statements[1];
    assert!(is_null(&anomaly.params[1]));
    assert_eq!(text(&anomaly.params[3]), Some("gcp_cloud_metrics"));
    assert_eq!(text(&anomaly.params[5]), Some("CRITICAL"));
    assert_eq!(text(&anomaly.params[6]), Some("Resource: Some(\"pod-7\"), metric: Some(\"cpu\")=Some(0.25)"));
}

#[test]
fn prometheus_description_names_the_metric() {
    let sample = PrometheusMetric {
        timestamp: s("t"),
        metric_name: s("jvm_heap"),
        metric_type: Some(s("gauge")),
        metric_value: None,
        service_name: Some(s("svc")),
        pod_name: None,
        container_id: None,
        label_area: None,
        label_env: None,
        help_text: None,
        anomaly: Some(s("A7_MALFORMED")),
    };
    let plan = prometheus_metrics::insert_plan(&vec![Some(sample)]);
    assert_eq!(kinds(&plan.statements), vec![StatementKind::InsertPrometheus, StatementKind::InsertAnomaly]);
    assert_eq!(plan.statements[0].params.len(), 7);
    let anomaly = &plan.statements[1];
    assert!(is_null(&anomaly.params[1]));
    assert_eq!(text(&anomaly.params[3]), Some("prometheus_metrics"));
    assert_eq!(text(&anomaly.params[5]), Some("WARNING"));
    assert_eq!(text(&anomaly.params[6]), Some("Metric: jvm_heap = None"));
}

fn sensor(name: Option<&str>, value: Option<f64>, anomaly: Option<&str>) -> HardwareSensorLog {
    HardwareSensorLog {
        timestamp: s("t"),
        atm_id: s("ATM-GB-0004"),
        correlation_id: None,
        component: Some(s("dispenser")),
        event_type: None,
        severity: None,
        message: None,
        metric_name: name.map(s),
        metric_value: value.map(reading),
        metric_unit: None,
        threshold_value: Some(reading(80.0)),
        firmware_version: None,
        anomaly: anomaly.map(s),
    }
}

#[test]
fn sensor_facts_need_name_and_value() {
    let records = vec![
        sensor(Some("temperature"), Some(85.0), Some("A2")),
        sensor(Some("temperature"), None, None),
        sensor(None, Some(1.0), None),
    ];
    let plan = hardware_sensor::insert_plan(&records);
    assert_eq!(plan.inserted, 3);
    assert_eq!(plan.anomalies, 1);
    assert_eq!(
        kinds(&plan.statements),
        vec![
            StatementKind::InsertHardware,
            StatementKind::InsertFactMetric,
            StatementKind::InsertDimAtmHardware,
            StatementKind::InsertAnomaly,
            StatementKind::InsertHardware,
            StatementKind::InsertDimAtmHardware,
            StatementKind::InsertHardware,
            StatementKind::InsertDimAtmHardware,
        ]
    );
    let fact = &plan.statements[1];
    assert_eq!(text(&fact.params[2]), Some("hardware_sensor"));
    assert_eq!(text(&fact.params[3]), Some("temperature"));
    let anomaly = &plan.statements[3];
    assert_eq!(text(&anomaly.params[3]), Some("hardware_sensor_log"));
    assert_eq!(text(&anomaly.params[5]), Some("WARNING"));
    assert_eq!(
        text(&anomaly.params[6]),
        Some("Component: Some(\"dispenser\"), value: Some(85.0), threshold: Some(80.0)")
    );
}

fn app_entry(atm: Option<&str>, rt: Option<i64>, anomaly: Option<&str>) -> AtmApplicationLog {
    AtmApplicationLog {
        timestamp: s("t"),
        log_level: Some(s("ERROR")),
        atm_id: atm.map(s),
        location_code: Some(s("LDN")),
        session_id: None,
        correlation_id: None,
        transaction_id: None,
        event_type: Some(s("CARD_READ")),
        message: None,
        component: None,
        thread_id: None,
        response_time_ms: rt,
        error_code: None,
        error_detail: None,
        atm_status: Some(s("DEGRADED")),
        os_version: None,
        app_version: None,
        anomaly: anomaly.map(s),
    }
}

#[test]
fn application_log_registers_named_atms_only() {
    let records = vec![app_entry(Some("ATM-GB-0005"), Some(1200), Some("A5")), app_entry(None, None, None)];
    let plan = atm_app_log::insert_plan(&records);
    assert_eq!(plan.inserted, 2);
    assert_eq!(plan.anomalies, 1);
    assert_eq!(
        kinds(&plan.statements),
        vec![
            StatementKind::InsertAtmApp,
            StatementKind::InsertFactMetric,
            StatementKind::InsertDimAtmApp,
            StatementKind::InsertAnomaly,
            StatementKind::InsertAtmApp,
        ]
    );
    let fact = &plan.statements[1];
    assert_eq!(text(&fact.params[2]), Some("atm_application"));
    assert_eq!(text(&fact.params[3]), Some("response_time_ms"));
    assert!(matches!(fact.params[4], SqlValue::IntegerAsReal(1200)));
    assert_eq!(text(&plan.statements[2].params[1]), Some("LDN"));
    let anomaly = &plan.statements[3];
    assert_eq!(text(&anomaly.params[5]), Some("CRITICAL"));
    assert_eq!(
        text(&anomaly.params[6]),
        Some("Event: Some(\"CARD_READ\"), error: None, status: Some(\"DEGRADED\")")
    );
    assert!(is_null(&plan.statements[4].params[1]));
}

#[test]
fn terminal_log_yields_response_and_status_facts() {
    let entry = TerminalHandlerLog {
        timestamp: s("t"),
        log_level: None,
        service_name: None,
        service_version: None,
        container_id: None,
        pod_name: None,
        correlation_id: None,
        transaction_id: None,
        atm_id: Some(s("ATM-GB-0006")),
        event_type: Some(s("AUTH")),
        message: None,
        logger_name: None,
        thread_name: None,
        response_time_ms: Some(40),
        http_status_code: Some(503),
        exception_class: None,
        anomaly: Some(s("A3")),
    };
    let plan = terminal_handler::insert_plan(&vec![entry]);
    assert_eq!(plan.inserted, 1);
    assert_eq!(plan.anomalies, 1);
    assert_eq!(
        kinds(&plan.statements),
        vec![
            StatementKind::InsertTerminal,
            StatementKind::InsertFactMetric,
            StatementKind::InsertFactMetric,
            StatementKind::InsertAnomaly,
        ]
    );
    assert_eq!(plan.statements[0].params.len(), 12);
    assert_eq!(text(&plan.statements[1].params[3]), Some("response_time_ms"));
    assert_eq!(text(&plan.statements[2].params[3]), Some("http_status_code"));
    assert!(matches!(plan.statements[2].params[4], SqlValue::IntegerAsReal(503)));
    let anomaly = &plan.statements[3];
    assert_eq!(text(&anomaly.params[3]), Some("terminal_handler_log"));
    assert_eq!(text(&anomaly.params[5]), Some("WARNING"));
    assert_eq!(
        text(&anomaly.params[6]),
        Some("Event: Some(\"AUTH\"), HTTP: Some(503), exception: None")
    );
}
