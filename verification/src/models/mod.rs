//! The records of the seven source files.
//!
//! A floating-point field is held as a [`Real`]: the bit pattern of the
//! 64-bit float together with the text that `{:?}` prints for it.

pub mod flexible_float;

use vstd::prelude::*;
use vstd::string::*;
use crate::db::{SqlValue, SqlValueView};

verus! {

/// A 64-bit floating-point reading: its IEEE-754 bit pattern and the text
/// that `{:?}` prints for it.
#[derive(Debug)]
pub struct Real {
    pub bits: u64,
    pub debug: String,
}

pub open spec fn opt_real_value(o: Option<Real>) -> SqlValueView {
    match o {
        Some(r) => SqlValueView::Real(r.bits),
        None => SqlValueView::Null,
    }
}

/// What `{:?}` prints for an `Option<f64>`.
pub open spec fn debug_opt_real(o: Option<Real>) -> Seq<char> {
    match o {
        Some(r) => "Some("@ + r.debug@ + ")"@,
        None => "None"@,
    }
}

/// A REAL parameter, NULL when absent.
pub fn opt_real(o: &Option<Real>) -> (r: SqlValue)
    ensures
        r@ == opt_real_value(*o),
{
    match o {
        Some(x) => SqlValue::Real(x.bits),
        None => SqlValue::Null,
    }
}

/// Renders an `Option<f64>` as `{:?}` does.
pub fn fmt_debug_opt_real(o: &Option<Real>) -> (r: String)
    ensures
        r@ == debug_opt_real(*o),
{
    match o {
        Some(x) => {
            let mut r = String::from_str("Some(");
            r.append(x.debug.as_str());
            r.append(")");
            r
        },
        None => String::from_str("None"),
    }
}

/// One event of the Kafka ATM transaction stream.
pub struct KafkaAtmMetric {
    pub timestamp: String,
    pub event_id: String,
    pub correlation_id: Option<String>,
    pub atm_id: String,
    pub atm_status: Option<String>,
    pub transaction_rate_tps: Option<Real>,
    pub response_time_ms: Option<i64>,
    pub transaction_volume: Option<i64>,
    pub transaction_success_rate: Option<Real>,
    pub transaction_failure_reason: Option<String>,
    pub failure_count: Option<i64>,
    pub window_duration_seconds: Option<i64>,
    pub kafka_partition: Option<i64>,
    pub kafka_offset: Option<i64>,
    pub anomaly: Option<String>,
}

/// One sample of the Windows OS performance metrics of an ATM.
pub struct WindowsOsMetric {
    pub timestamp: String,
    pub atm_id: String,
    pub hostname: String,
    pub os_version: Option<String>,
    pub cpu_usage_percent: Option<Real>,
    pub memory_used_mb: Option<Real>,
    pub memory_total_mb: Option<Real>,
    pub memory_usage_percent: Option<Real>,
    pub disk_read_bytes_per_sec: Option<Real>,
    pub disk_write_bytes_per_sec: Option<Real>,
    pub disk_free_gb: Option<Real>,
    pub network_bytes_sent_per_sec: Option<Real>,
    pub network_bytes_recv_per_sec: Option<Real>,
    pub network_errors: Option<i64>,
    pub process_count: Option<i64>,
    pub system_uptime_seconds: Option<i64>,
    pub event_log_errors_last_min: Option<i64>,
    pub anomaly: Option<String>,
}

/// One sample of the GCP container metrics.
pub struct GcpCloudMetric {
    pub timestamp: String,
    pub project_id: Option<String>,
    pub resource_type: Option<String>,
    pub resource_id: Option<String>,
    pub zone: Option<String>,
    pub metric_name: Option<String>,
    pub metric_value: Option<Real>,
    pub metric_unit: Option<String>,
    pub cpu_usage_percent: Option<Real>,
    pub memory_usage_bytes: Option<i64>,
    pub memory_limit_bytes: Option<i64>,
    pub network_ingress_bytes: Option<i64>,
    pub network_egress_bytes: Option<i64>,
    pub restart_count: Option<i64>,
    pub label_app: Option<String>,
    pub label_env: Option<String>,
    pub label_version: Option<String>,
    pub anomaly: Option<String>,
}

/// One sample of the Prometheus JVM and service metrics.
pub struct PrometheusMetric {
    pub timestamp: String,
    pub metric_name: String,
    pub metric_type: Option<String>,
    pub metric_value: Option<Real>,
    pub service_name: Option<String>,
    pub pod_name: Option<String>,
    pub container_id: Option<String>,
    pub label_area: Option<String>,
    pub label_env: Option<String>,
    pub help_text: Option<String>,
    pub anomaly: Option<String>,
}

/// One entry of the ATM hardware sensor log.
pub struct HardwareSensorLog {
    pub timestamp: String,
    pub atm_id: String,
    pub correlation_id: Option<String>,
    pub component: Option<String>,
    pub event_type: Option<String>,
    pub severity: Option<String>,
    pub message: Option<String>,
    pub metric_name: Option<String>,
    pub metric_value: Option<Real>,
    pub metric_unit: Option<String>,
    pub threshold_value: Option<Real>,
    pub firmware_version: Option<String>,
    pub anomaly: Option<String>,
}

/// One entry of the ATM client application log.
pub struct AtmApplicationLog {
    pub timestamp: String,
    pub log_level: Option<String>,
    pub atm_id: Option<String>,
    pub location_code: Option<String>,
    pub session_id: Option<String>,
    pub correlation_id: Option<String>,
    pub transaction_id: Option<String>,
    pub event_type: Option<String>,
    pub message: Option<String>,
    pub component: Option<String>,
    pub thread_id: Option<i64>,
    pub response_time_ms: Option<i64>,
    pub error_code: Option<String>,
    pub error_detail: Option<String>,
    pub atm_status: Option<String>,
    pub os_version: Option<String>,
    pub app_version: Option<String>,
    pub anomaly: Option<String>,
}

/// One entry of the Terminal Handler backend service log.
pub struct TerminalHandlerLog {
    pub timestamp: String,
    pub log_level: Option<String>,
    pub service_name: Option<String>,
    pub service_version: Option<String>,
    pub container_id: Option<String>,
    pub pod_name: Option<String>,
    pub correlation_id: Option<String>,
    pub transaction_id: Option<String>,
    pub atm_id: Option<String>,
    pub event_type: Option<String>,
    pub message: Option<String>,
    pub logger_name: Option<String>,
    pub thread_name: Option<String>,
    pub response_time_ms: Option<i64>,
    pub http_status_code: Option<i64>,
    pub exception_class: Option<String>,
    pub anomaly: Option<String>,
}

} // verus!
