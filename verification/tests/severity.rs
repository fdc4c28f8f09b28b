use atm_parser::parsers::{
    atm_app_log, gcp_metrics, hardware_sensor, kafka_metrics, prometheus_metrics,
    terminal_handler, windows_metrics,
};

#[test]
fn kafka_severities() {
    assert_eq!(kafka_metrics::classify_severity("A1"), "WARNING");
    assert_eq!(kafka_metrics::classify_severity("A2"), "WARNING");
    assert_eq!(kafka_metrics::classify_severity("A3"), "WARNING");
    assert_eq!(kafka_metrics::classify_severity("A4"), "CRITICAL");
    assert_eq!(kafka_metrics::classify_severity("A5"), "CRITICAL");
    assert_eq!(kafka_metrics::classify_severity("A6"), "WARNING");
    assert_eq!(kafka_metrics::classify_severity("A7_OUT_OF_ORDER"), "CRITICAL");
    assert_eq!(kafka_metrics::classify_severity("A7_MALFORMED"), "WARNING");
    assert_eq!(kafka_metrics::classify_severity("A7"), "INFO");
    assert_eq!(kafka_metrics::classify_severity(""), "INFO");
    assert_eq!(kafka_metrics::classify_severity("a1"), "INFO");
}

#[test]
fn windows_severities() {
    assert_eq!(windows_metrics::classify_severity("A6"), "WARNING");
    assert_eq!(windows_metrics::classify_severity("A1"), "INFO");
    assert_eq!(windows_metrics::classify_severity("A4"), "INFO");
}

#[test]
fn gcp_severities() {
    assert_eq!(gcp_metrics::classify_severity("A3"), "WARNING");
    assert_eq!(gcp_metrics::classify_severity("A4"), "CRITICAL");
    assert_eq!(gcp_metrics::classify_severity("A5"), "INFO");
}

#[test]
fn prometheus_severities() {
    assert_eq!(prometheus_metrics::classify_severity("A3"), "WARNING");
    assert_eq!(prometheus_metrics::classify_severity("A4"), "CRITICAL");
    assert_eq!(prometheus_metrics::classify_severity("A7_MALFORMED"), "WARNING");
    assert_eq!(prometheus_metrics::classify_severity("A7_OUT_OF_ORDER"), "INFO");
}

#[test]
fn hardware_severities() {
    assert_eq!(hardware_sensor::classify_severity("A2"), "WARNING");
    assert_eq!(hardware_sensor::classify_severity("A4"), "INFO");
}

#[test]
fn application_log_severities() {
    assert_eq!(atm_app_log::classify_severity("A1"), "WARNING");
    assert_eq!(atm_app_log::classify_severity("A5"), "CRITICAL");
    assert_eq!(atm_app_log::classify_severity("A6"), "WARNING");
    assert_eq!(atm_app_log::classify_severity("A2"), "INFO");
}

#[test]
fn terminal_handler_severities() {
    assert_eq!(terminal_handler::classify_severity("A1"), "WARNING");
    assert_eq!(terminal_handler::classify_severity("A3"), "WARNING");
    assert_eq!(terminal_handler::classify_severity("A4"), "CRITICAL");
    assert_eq!(terminal_handler::classify_severity("A6"), "INFO");
}

#[test]
fn sources_agree_with_the_stream_or_say_info() {
    let codes = ["A1", "A2", "A3", "A4", "A5", "A6", "A7_OUT_OF_ORDER", "A7_MALFORMED", "X"];
    let others: [fn(&str) -> &'static str; 6] = [
        windows_metrics::classify_severity,
        gcp_metrics::classify_severity,
        prometheus_metrics::classify_severity,
        hardware_sensor::classify_severity,
        atm_app_log::classify_severity,
        terminal_handler::classify_severity,
    ];
    for code in codes {
        let stream = kafka_metrics::classify_severity(code);
        for classify in others {
            let s = classify(code);
            assert!(s == "INFO" || s == stream, "{} {}", code, s);
        }
    }
}
