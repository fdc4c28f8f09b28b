//! Database rows as values: the statements the loader runs, with their
//! parameters, and the rows that seed the source dimension table.

pub mod bindings;
pub mod schema;
pub mod state;


use vstd::prelude::*;
use vstd::string::*;
use crate::db::schema::{
    INSERT_KAFKA, INSERT_WINDOWS, INSERT_GCP, INSERT_PROMETHEUS, INSERT_HARDWARE, INSERT_ATM_APP, INSERT_TERMINAL, INSERT_ANOMALY, INSERT_FACT_METRIC, INSERT_DIM_ATM_WINDOWS, INSERT_DIM_ATM_HARDWARE, INSERT_DIM_ATM_APP, INSERT_DIM_SOURCE, DELETE_ANOMALIES_LIKE, DELETE_FACT_METRICS_BY_SOURCE,
};

verus! {

/// A parameter bound to a statement.
#[derive(Debug)]
pub enum SqlValue {
    Null,
    Integer(i64),
    /// A REAL given by the IEEE-754 bit pattern of a 64-bit float.
    Real(u64),
    /// A REAL obtained by converting an integer to a 64-bit float.
    IntegerAsReal(i64),
    Text(String),
}

/// Mathematical value of a statement parameter.
pub enum SqlValueView {
    Null,
    Integer(int),
    Real(u64),
    IntegerAsReal(int),
    Text(Seq<char>),
}

impl View for SqlValue {
    type V = SqlValueView;

    open spec fn view(&self) -> SqlValueView {
        match self {
            SqlValue::Null => SqlValueView::Null,
            SqlValue::Integer(i) => SqlValueView::Integer(*i as int),
            SqlValue::Real(b) => SqlValueView::Real(*b),
            SqlValue::IntegerAsReal(i) => SqlValueView::IntegerAsReal(*i as int),
            SqlValue::Text(s) => SqlValueView::Text(s@),
        }
    }
}

/// The staging table that holds the raw rows of one source file.
#[derive(Clone, Copy, Debug, PartialEq, Eq, Structural)]
pub enum Table {
    KafkaAtmMetrics,
    WindowsOsMetrics,
    GcpCloudMetrics,
    PrometheusMetrics,
    HardwareSensorLog,
    AtmApplicationLog,
    TerminalHandlerLog,
}

pub open spec fn table_name(t: Table) -> Seq<char> {
    match t {
        Table::KafkaAtmMetrics => "kafka_atm_metrics"@,
        Table::WindowsOsMetrics => "windows_os_metrics"@,
        Table::GcpCloudMetrics => "gcp_cloud_metrics"@,
        Table::PrometheusMetrics => "prometheus_metrics"@,
        Table::HardwareSensorLog => "hardware_sensor_log"@,
        Table::AtmApplicationLog => "atm_application_log"@,
        Table::TerminalHandlerLog => "terminal_handler_log"@,
    }
}

impl Table {
    /// The table's name in the schema.
    pub fn name(&self) -> (r: &'static str)
        ensures
            r@ == table_name(*self),
    {
        match self {
            Table::KafkaAtmMetrics => "kafka_atm_metrics",
            Table::WindowsOsMetrics => "windows_os_metrics",
            Table::GcpCloudMetrics => "gcp_cloud_metrics",
            Table::PrometheusMetrics => "prometheus_metrics",
            Table::HardwareSensorLog => "hardware_sensor_log",
            Table::AtmApplicationLog => "atm_application_log",
            Table::TerminalHandlerLog => "terminal_handler_log",
        }
    }
}

/// Which SQL statement a [`Statement`] runs.
#[derive(Clone, Copy, Debug, PartialEq, Eq, Structural)]
pub enum StatementKind {
    InsertKafka,
    InsertWindows,
    InsertGcp,
    InsertPrometheus,
    InsertHardware,
    InsertAtmApp,
    InsertTerminal,
    InsertAnomaly,
    InsertFactMetric,
    /// Registers an ATM with its host name and OS version.
    InsertDimAtmWindows,
    /// Registers an ATM with nothing but its first sighting.
    InsertDimAtmHardware,
    /// Registers an ATM with its location code and OS version.
    InsertDimAtmApp,
    InsertDimSource,
    /// Removes every row of a staging table.
    DeleteAll(Table),
    /// Removes the anomalies whose `source_table` is LIKE the parameter.
    DeleteAnomaliesLike,
    /// Removes the metric facts whose `source` equals the parameter.
    DeleteFactMetricsBySource,
}

/// A column of the schema that a statement binds a parameter to.
#[derive(Clone, Copy, Debug, PartialEq, Eq, Structural)]
pub enum Column {
    Timestamp,
    EventId,
    AtmId,
    AtmStatus,
    TransactionRateTps,
    ResponseTimeMs,
    TransactionVolume,
    TransactionSuccessRate,
    TransactionFailureReason,
    FailureCount,
    Anomaly,
    Hostname,
    OsVersion,
    CpuUsagePercent,
    MemoryUsedMb,
    MemoryTotalMb,
    MemoryUsagePercent,
    DiskFreeGb,
    NetworkErrors,
    ResourceType,
    ResourceId,
    MetricName,
    MetricValue,
    MemoryUsageBytes,
    MetricType,
    ServiceName,
    PodName,
    Component,
    EventType,
    Severity,
    ThresholdValue,
    LogLevel,
    Message,
    ErrorCode,
    ErrorDetail,
    ContainerId,
    CorrelationId,
    TransactionId,
    HttpStatusCode,
    ExceptionClass,
    AnomalyCode,
    SourceTable,
    SourceId,
    Description,
    Source,
    LocationCode,
    FirstSeen,
    LastSeen,
    SourceName,
    SourceType,
}

/// The name of a column in the schema. An ATM registration binds its last
/// parameter to both `first_seen` and `last_seen`; `insert_columns` names
/// that parameter `FirstSeen`.
pub open spec fn column_name(c: Column) -> Seq<char> {
    match c {
        Column::Timestamp => "timestamp"@,
        Column::EventId => "event_id"@,
        Column::AtmId => "atm_id"@,
        Column::AtmStatus => "atm_status"@,
        Column::TransactionRateTps => "transaction_rate_tps"@,
        Column::ResponseTimeMs => "response_time_ms"@,
        Column::TransactionVolume => "transaction_volume"@,
        Column::TransactionSuccessRate => "transaction_success_rate"@,
        Column::TransactionFailureReason => "transaction_failure_reason"@,
        Column::FailureCount => "failure_count"@,
        Column::Anomaly => "anomaly"@,
        Column::Hostname => "hostname"@,
        Column::OsVersion => "os_version"@,
        Column::CpuUsagePercent => "cpu_usage_percent"@,
        Column::MemoryUsedMb => "memory_used_mb"@,
        Column::MemoryTotalMb => "memory_total_mb"@,
        Column::MemoryUsagePercent => "memory_usage_percent"@,
        Column::DiskFreeGb => "disk_free_gb"@,
        Column::NetworkErrors => "network_errors"@,
        Column::ResourceType => "resource_type"@,
        Column::ResourceId => "resource_id"@,
        Column::MetricName => "metric_name"@,
        Column::MetricValue => "metric_value"@,
        Column::MemoryUsageBytes => "memory_usage_bytes"@,
        Column::MetricType => "metric_type"@,
        Column::ServiceName => "service_name"@,
        Column::PodName => "pod_name"@,
        Column::Component => "component"@,
        Column::EventType => "event_type"@,
        Column::Severity => "severity"@,
        Column::ThresholdValue => "threshold_value"@,
        Column::LogLevel => "log_level"@,
        Column::Message => "message"@,
        Column::ErrorCode => "error_code"@,
        Column::ErrorDetail => "error_detail"@,
        Column::ContainerId => "container_id"@,
        Column::CorrelationId => "correlation_id"@,
        Column::TransactionId => "transaction_id"@,
        Column::HttpStatusCode => "http_status_code"@,
        Column::ExceptionClass => "exception_class"@,
        Column::AnomalyCode => "anomaly_code"@,
        Column::SourceTable => "source_table"@,
        Column::SourceId => "source_id"@,
        Column::Description => "description"@,
        Column::Source => "source"@,
        Column::LocationCode => "location_code"@,
        Column::FirstSeen => "first_seen"@,
        Column::LastSeen => "last_seen"@,
        Column::SourceName => "source_name"@,
        Column::SourceType => "source_type"@,
    }
}

/// The columns that the parameters of a statement are bound to, in order:
/// `?1` to the first, `?2` to the second, and so on, as the column lists of
/// the INSERT statements in `schema` name them (proved of their SQL text in
/// `bindings`). A delete binds no column.
pub open spec fn insert_columns(k: StatementKind) -> Seq<Column> {
    match k {
        StatementKind::InsertKafka => seq![
            Column::Timestamp,
            Column::EventId,
            Column::AtmId,
            Column::AtmStatus,
            Column::TransactionRateTps,
            Column::ResponseTimeMs,
            Column::TransactionVolume,
            Column::TransactionSuccessRate,
            Column::TransactionFailureReason,
            Column::FailureCount,
            Column::Anomaly,
        ],
        StatementKind::InsertWindows => seq![
            Column::Timestamp,
            Column::AtmId,
            Column::Hostname,
            Column::CpuUsagePercent,
            Column::MemoryUsedMb,
            Column::MemoryTotalMb,
            Column::MemoryUsagePercent,
            Column::DiskFreeGb,
            Column::NetworkErrors,
            Column::Anomaly,
        ],
        StatementKind::InsertGcp => seq![
            Column::Timestamp,
            Column::ResourceType,
            Column::ResourceId,
            Column::MetricName,
            Column::MetricValue,
            Column::CpuUsagePercent,
            Column::MemoryUsageBytes,
            Column::Anomaly,
        ],
        StatementKind::InsertPrometheus => seq![
            Column::Timestamp,
            Column::MetricName,
            Column::MetricType,
            Column::MetricValue,
            Column::ServiceName,
            Column::PodName,
            Column::Anomaly,
        ],
        StatementKind::InsertHardware => seq![
            Column::Timestamp,
            Column::AtmId,
            Column::Component,
            Column::EventType,
            Column::Severity,
            Column::MetricName,
            Column::MetricValue,
            Column::ThresholdValue,
            Column::Anomaly,
        ],
        StatementKind::InsertAtmApp => seq![
            Column::Timestamp,
            Column::AtmId,
            Column::LogLevel,
            Column::EventType,
            Column::Component,
            Column::Message,
            Column::ErrorCode,
            Column::ErrorDetail,
            Column::ResponseTimeMs,
            Column::AtmStatus,
            Column::Anomaly,
        ],
        StatementKind::InsertTerminal => seq![
            Column::Timestamp,
            Column::LogLevel,
            Column::EventType,
            Column::Message,
            Column::ContainerId,
            Column::CorrelationId,
            Column::TransactionId,
            Column::AtmId,
            Column::ResponseTimeMs,
            Column::HttpStatusCode,
            Column::ExceptionClass,
            Column::Anomaly,
        ],
        StatementKind::InsertAnomaly => seq![
            Column::Timestamp,
            Column::AtmId,
            Column::AnomalyCode,
            Column::SourceTable,
            Column::SourceId,
            Column::Severity,
            Column::Description,
        ],
        StatementKind::InsertFactMetric => seq![
            Column::Timestamp,
            Column::AtmId,
            Column::Source,
            Column::MetricName,
            Column::MetricValue,
            Column::Anomaly,
        ],
        StatementKind::InsertDimAtmWindows => seq![
            Column::AtmId,
            Column::Hostname,
            Column::OsVersion,
            Column::FirstSeen,
        ],
        StatementKind::InsertDimAtmHardware => seq![
            Column::AtmId,
            Column::FirstSeen,
        ],
        StatementKind::InsertDimAtmApp => seq![
            Column::AtmId,
            Column::LocationCode,
            Column::OsVersion,
            Column::FirstSeen,
        ],
        StatementKind::InsertDimSource => seq![
            Column::SourceName,
            Column::SourceType,
            Column::Description,
        ],
        _ => seq![],
    }
}

/// SQL text run for each kind of statement.
pub open spec fn spec_sql(k: StatementKind) -> Seq<char> {
    match k {
        StatementKind::InsertKafka => INSERT_KAFKA@,
        StatementKind::InsertWindows => INSERT_WINDOWS@,
        StatementKind::InsertGcp => INSERT_GCP@,
        StatementKind::InsertPrometheus => INSERT_PROMETHEUS@,
        StatementKind::InsertHardware => INSERT_HARDWARE@,
        StatementKind::InsertAtmApp => INSERT_ATM_APP@,
        StatementKind::InsertTerminal => INSERT_TERMINAL@,
        StatementKind::InsertAnomaly => INSERT_ANOMALY@,
        StatementKind::InsertFactMetric => INSERT_FACT_METRIC@,
        StatementKind::InsertDimAtmWindows => INSERT_DIM_ATM_WINDOWS@,
        StatementKind::InsertDimAtmHardware => INSERT_DIM_ATM_HARDWARE@,
        StatementKind::InsertDimAtmApp => INSERT_DIM_ATM_APP@,
        StatementKind::InsertDimSource => INSERT_DIM_SOURCE@,
        StatementKind::DeleteAll(t) => "DELETE FROM "@ + table_name(t),
        StatementKind::DeleteAnomaliesLike => DELETE_ANOMALIES_LIKE@,
        StatementKind::DeleteFactMetricsBySource => DELETE_FACT_METRICS_BY_SOURCE@,
    }
}

impl StatementKind {
    /// The SQL text of the statement.
    pub fn sql(&self) -> (r: String)
        ensures
            r@ == spec_sql(*self),
    {
        match self {
            StatementKind::InsertKafka => String::from_str(INSERT_KAFKA),
            StatementKind::InsertWindows => String::from_str(INSERT_WINDOWS),
            StatementKind::InsertGcp => String::from_str(INSERT_GCP),
            StatementKind::InsertPrometheus => String::from_str(INSERT_PROMETHEUS),
            StatementKind::InsertHardware => String::from_str(INSERT_HARDWARE),
            StatementKind::InsertAtmApp => String::from_str(INSERT_ATM_APP),
            StatementKind::InsertTerminal => String::from_str(INSERT_TERMINAL),
            StatementKind::InsertAnomaly => String::from_str(INSERT_ANOMALY),
            StatementKind::InsertFactMetric => String::from_str(INSERT_FACT_METRIC),
            StatementKind::InsertDimAtmWindows => String::from_str(INSERT_DIM_ATM_WINDOWS),
            StatementKind::InsertDimAtmHardware => String::from_str(INSERT_DIM_ATM_HARDWARE),
            StatementKind::InsertDimAtmApp => String::from_str(INSERT_DIM_ATM_APP),
            StatementKind::InsertDimSource => String::from_str(INSERT_DIM_SOURCE),
            StatementKind::DeleteAll(t) => {
                let mut s = String::from_str("DELETE FROM ");
                s.append(t.name());
                s
            },
            StatementKind::DeleteAnomaliesLike => String::from_str(DELETE_ANOMALIES_LIKE),
            StatementKind::DeleteFactMetricsBySource => String::from_str(
                DELETE_FACT_METRICS_BY_SOURCE,
            ),
        }
    }
}

/// A statement together with the parameters bound to it, in order.
#[derive(Debug)]
pub struct Statement {
    pub kind: StatementKind,
    pub params: Vec<SqlValue>,
}

/// Mathematical value of a statement.
pub struct StatementView {
    pub kind: StatementKind,
    pub params: Seq<SqlValueView>,
}

impl View for Statement {
    type V = StatementView;

    open spec fn view(&self) -> StatementView {
        StatementView { kind: self.kind, params: self.params@.map_values(|v: SqlValue| v@) }
    }
}

/// The values of a sequence of statements.
pub open spec fn ops_view(s: Seq<Statement>) -> Seq<StatementView> {
    s.map_values(|st: Statement| st@)
}

pub proof fn lemma_ops_view_concat(a: Seq<Statement>, b: Seq<Statement>)
    ensures
        ops_view(a + b) == ops_view(a) + ops_view(b),
{
    assert(ops_view(a + b) =~= ops_view(a) + ops_view(b));
}

/// The number of statements of kind `k`.
pub open spec fn count_kind(ops: Seq<StatementView>, k: StatementKind) -> nat
    decreases ops.len(),
{
    if ops.len() == 0 {
        0
    } else {
        count_kind(ops.drop_last(), k) + if ops.last().kind == k { 1nat } else { 0nat }
    }
}

pub proof fn lemma_count_kind_concat(a: Seq<StatementView>, b: Seq<StatementView>, k: StatementKind)
    ensures
        count_kind(a + b, k) == count_kind(a, k) + count_kind(b, k),
    decreases b.len(),
{
    if b.len() == 0 {
        assert(a + b =~= a);
    } else {
        lemma_count_kind_concat(a, b.drop_last(), k);
        assert((a + b).drop_last() =~= a + b.drop_last());
        assert((a + b).last() == b.last());
    }
}

pub proof fn lemma_count_kind_small(s: Seq<StatementView>, k: StatementKind)
    requires
        s.len() <= 1,
    ensures
        count_kind(s, k) == if s.len() == 1 && s[0].kind == k { 1nat } else { 0nat },
{
    if s.len() == 1 {
        assert(s.drop_last().len() == 0);
        assert(count_kind(s.drop_last(), k) == 0);
        assert(s.last() == s[0]);
    }
}

/// What loading one source file asks of the database: the statements in the
/// order they run, the number of records loaded and the number of them that
/// carry an anomaly code.
pub struct InsertPlan {
    pub statements: Vec<Statement>,
    pub inserted: usize,
    pub anomalies: usize,
}

pub open spec fn text_value(s: String) -> SqlValueView {
    SqlValueView::Text(s@)
}

pub open spec fn opt_text_value(o: Option<String>) -> SqlValueView {
    match o {
        Some(s) => SqlValueView::Text(s@),
        None => SqlValueView::Null,
    }
}

pub open spec fn opt_int_value(o: Option<i64>) -> SqlValueView {
    match o {
        Some(i) => SqlValueView::Integer(i as int),
        None => SqlValueView::Null,
    }
}

/// The value a REAL column stores for a parameter: an integer converted to a
/// float; any other value as it is.
pub open spec fn as_real(v: SqlValueView) -> SqlValueView {
    match v {
        SqlValueView::Integer(i) => SqlValueView::IntegerAsReal(i),
        _ => v,
    }
}

/// A text parameter.
pub fn text(s: &String) -> (r: SqlValue)
    ensures
        r@ == text_value(*s),
{
    SqlValue::Text(s.clone())
}

/// A text parameter given by a string slice.
pub fn text_str(s: &str) -> (r: SqlValue)
    ensures
        r@ == SqlValueView::Text(s@),
{
    SqlValue::Text(String::from_str(s))
}

/// A text parameter, NULL when absent.
pub fn opt_text(o: &Option<String>) -> (r: SqlValue)
    ensures
        r@ == opt_text_value(*o),
{
    match o {
        Some(s) => SqlValue::Text(s.clone()),
        None => SqlValue::Null,
    }
}

/// An integer parameter, NULL when absent.
pub fn opt_int(o: Option<i64>) -> (r: SqlValue)
    ensures
        r@ == opt_int_value(o),
{
    match o {
        Some(i) => SqlValue::Integer(i),
        None => SqlValue::Null,
    }
}

/// The row recorded in `anomalies` for a record that carries an anomaly code.
pub open spec fn anomaly_row(
    timestamp: Seq<char>,
    atm_id: SqlValueView,
    code: Seq<char>,
    source_table: Seq<char>,
    severity: Seq<char>,
    description: Seq<char>,
) -> StatementView {
    StatementView {
        kind: StatementKind::InsertAnomaly,
        params: seq![
            SqlValueView::Text(timestamp),
            atm_id,
            SqlValueView::Text(code),
            SqlValueView::Text(source_table),
            SqlValueView::Integer(0),
            SqlValueView::Text(severity),
            SqlValueView::Text(description),
        ],
    }
}

pub fn anomaly_statement(
    timestamp: &String,
    atm_id: SqlValue,
    code: &String,
    source_table: &str,
    severity: &str,
    description: String,
) -> (r: Statement)
    ensures
        r@ == anomaly_row(timestamp@, atm_id@, code@, source_table@, severity@, description@),
{
    let params = vec![
        text(timestamp),
        atm_id,
        text(code),
        text_str(source_table),
        SqlValue::Integer(0),
        text_str(severity),
        SqlValue::Text(description),
    ];
    let r = Statement { kind: StatementKind::InsertAnomaly, params };
    assert(r@.params =~= anomaly_row(timestamp@, atm_id@, code@, source_table@, severity@, description@).params);
    r
}

/// The row recorded in `fact_metrics` for one numeric reading.
pub open spec fn fact_row(
    timestamp: Seq<char>,
    atm_id: SqlValueView,
    source: Seq<char>,
    metric_name: Seq<char>,
    value: SqlValueView,
    anomaly: SqlValueView,
) -> StatementView {
    StatementView {
        kind: StatementKind::InsertFactMetric,
        params: seq![
            SqlValueView::Text(timestamp),
            atm_id,
            SqlValueView::Text(source),
            SqlValueView::Text(metric_name),
            value,
            anomaly,
        ],
    }
}

pub fn fact_statement(
    timestamp: &String,
    atm_id: SqlValue,
    source: &str,
    metric_name: SqlValue,
    value: SqlValue,
    anomaly: &Option<String>,
) -> (r: Statement)
    requires
        metric_name@ is Text,
    ensures
        r@ == fact_row(timestamp@, atm_id@, source@, metric_name@->Text_0, value@, opt_text_value(*anomaly)),
{
    let ghost name = metric_name@;
    let params = vec![
        text(timestamp),
        atm_id,
        text_str(source),
        metric_name,
        value,
        opt_text(anomaly),
    ];
    let r = Statement { kind: StatementKind::InsertFactMetric, params };
    assert(r@.params =~= fact_row(timestamp@, atm_id@, source@, name->Text_0, value@, opt_text_value(*anomaly)).params);
    r
}

/// The data sources registered in `dim_source`: name, kind and description.
pub open spec fn dim_sources() -> Seq<(Seq<char>, Seq<char>, Seq<char>)> {
    seq![
        ("kafka"@, "metrics"@, "Kafka ATM transaction metrics stream"@),
        ("windows_os"@, "metrics"@, "Windows OS performance metrics per ATM"@),
        ("gcp"@, "metrics"@, "Google Cloud Platform container metrics"@),
        ("prometheus"@, "metrics"@, "Prometheus JVM and service metrics"@),
        ("hardware_sensor"@, "logs"@, "ATM hardware component sensor logs"@),
        ("atm_application"@, "logs"@, "ATM client application logs"@),
        ("terminal_handler"@, "logs"@, "Terminal Handler backend service logs"@),
    ]
}

/// The row that registers one data source.
pub open spec fn dim_source_row(source: (Seq<char>, Seq<char>, Seq<char>)) -> StatementView {
    StatementView {
        kind: StatementKind::InsertDimSource,
        params: seq![
            SqlValueView::Text(source.0),
            SqlValueView::Text(source.1),
            SqlValueView::Text(source.2),
        ],
    }
}

fn dim_source_statement(name: &str, source_type: &str, description: &str) -> (r: Statement)
    ensures
        r@ == dim_source_row((name@, source_type@, description@)),
{
    let r = Statement {
        kind: StatementKind::InsertDimSource,
        params: vec![text_str(name), text_str(source_type), text_str(description)],
    };
    assert(r@.params =~= dim_source_row((name@, source_type@, description@)).params);
    r
}

/// The statements that register the seven data sources in `dim_source`,
/// in order; each is an `INSERT OR IGNORE`, so seeding twice changes nothing.
pub fn seed_dim_source() -> (v: Vec<Statement>)
    ensures
        ops_view(v@) == dim_sources().map_values(|s: (Seq<char>, Seq<char>, Seq<char>)| dim_source_row(s)),
{
    let v = vec![
        dim_source_statement("kafka", "metrics", "Kafka ATM transaction metrics stream"),
        dim_source_statement("windows_os", "metrics", "Windows OS performance metrics per ATM"),
        dim_source_statement("gcp", "metrics", "Google Cloud Platform container metrics"),
        dim_source_statement("prometheus", "metrics", "Prometheus JVM and service metrics"),
        dim_source_statement("hardware_sensor", "logs", "ATM hardware component sensor logs"),
        dim_source_statement("atm_application", "logs", "ATM client application logs"),
        dim_source_statement("terminal_handler", "logs", "Terminal Handler backend service logs"),
    ];
    assert(ops_view(v@) =~= dim_sources().map_values(|s: (Seq<char>, Seq<char>, Seq<char>)| dim_source_row(s)));
    v
}

} // verus!
