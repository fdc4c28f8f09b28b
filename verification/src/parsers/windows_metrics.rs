//! Windows OS performance metrics per ATM (`windows_os_metrics.csv`).

use vstd::prelude::*;
use vstd::string::*;
use crate::db::{
    column_name, insert_columns, Column,
    count_kind, lemma_count_kind_concat, lemma_count_kind_small,
    anomaly_row, anomaly_statement, fact_row, fact_statement, lemma_ops_view_concat, opt_int,
    opt_int_value, opt_text, opt_text_value, ops_view, text, text_str, text_value, InsertPlan,
    SqlValue, SqlValueView, Statement, StatementKind, StatementView,
};
use crate::models::{
    debug_opt_real, fmt_debug_opt_real, opt_real, opt_real_value, Real, WindowsOsMetric,
};
use crate::watcher::{
    clear_ops, in_footprint, lemma_clearing_targets_own_rows, registers_atm, removed_by, watch_list,
    Feed,
};
use crate::text::str_eq;

verus! {

/// Severity of an anomaly code seen in the Windows metrics.
pub open spec fn severity_of(code: Seq<char>) -> Seq<char> {
    if code == "A6"@ {
        "WARNING"@
    } else {
        "INFO"@
    }
}

/// Classifies the severity of an anomaly code.
pub fn classify_severity(code: &str) -> (r: &'static str)
    ensures
        r@ == severity_of(code@),
{
    if str_eq(code, "A6") {
        "WARNING"
    } else {
        "INFO"
    }
}

/// The description stored with an anomaly of the metrics.
pub open spec fn description(r: WindowsOsMetric) -> Seq<char> {
    "CPU: "@ + debug_opt_real(r.cpu_usage_percent) + "%, Memory: "@ + debug_opt_real(
        r.memory_used_mb,
    ) + "MB"@
}

/// The staging row of a sample.
pub open spec fn staging_row(r: WindowsOsMetric) -> StatementView {
    StatementView {
        kind: StatementKind::InsertWindows,
        params: seq![
            text_value(r.timestamp),
            text_value(r.atm_id),
            text_value(r.hostname),
            opt_real_value(r.cpu_usage_percent),
            opt_real_value(r.memory_used_mb),
            opt_real_value(r.memory_total_mb),
            opt_real_value(r.memory_usage_percent),
            opt_real_value(r.disk_free_gb),
            opt_int_value(r.network_errors),
            opt_text_value(r.anomaly),
        ],
    }
}

/// The metric fact of one reading of a sample, when the reading is present.
pub open spec fn fact_ops(r: WindowsOsMetric, name: Seq<char>, value: Option<Real>) -> Seq<
    StatementView,
> {
    match value {
        Some(v) => seq![
            fact_row(
                r.timestamp@,
                text_value(r.atm_id),
                "windows_os"@,
                name,
                SqlValueView::Real(v.bits),
                opt_text_value(r.anomaly),
            ),
        ],
        None => seq![],
    }
}

/// The metric facts of a sample: CPU usage, memory used and free disk, in that order.
pub open spec fn facts_ops(r: WindowsOsMetric) -> Seq<StatementView> {
    fact_ops(r, "cpu_usage_percent"@, r.cpu_usage_percent) + fact_ops(
        r,
        "memory_used_mb"@,
        r.memory_used_mb,
    ) + fact_ops(r, "disk_free_gb"@, r.disk_free_gb)
}

/// The registration of the sample's ATM.
pub open spec fn dim_atm_row(r: WindowsOsMetric) -> StatementView {
    StatementView {
        kind: StatementKind::InsertDimAtmWindows,
        params: seq![
            text_value(r.atm_id),
            text_value(r.hostname),
            opt_text_value(r.os_version),
            text_value(r.timestamp),
        ],
    }
}

/// The anomaly of a sample, when it carries one.
pub open spec fn anomaly_ops(r: WindowsOsMetric) -> Seq<StatementView> {
    match r.anomaly {
        Some(code) => seq![
            anomaly_row(
                r.timestamp@,
                text_value(r.atm_id),
                code@,
                "windows_os_metrics"@,
                severity_of(code@),
                description(r),
            ),
        ],
        None => seq![],
    }
}

/// The statements one sample yields: staging row, metric facts, ATM registration, anomaly.
pub open spec fn record_ops(r: WindowsOsMetric) -> Seq<StatementView> {
    seq![staging_row(r)] + facts_ops(r) + seq![dim_atm_row(r)] + anomaly_ops(r)
}

/// The statements of one CSV row; a malformed row (`None`) yields none.
pub open spec fn row_ops(o: Option<WindowsOsMetric>) -> Seq<StatementView> {
    match o {
        Some(r) => record_ops(r),
        None => seq![],
    }
}

/// The statements a sequence of CSV rows yields, row after row.
pub open spec fn rows_ops(rs: Seq<Option<WindowsOsMetric>>) -> Seq<StatementView>
    decreases rs.len(),
{
    if rs.len() == 0 {
        seq![]
    } else {
        rows_ops(rs.drop_last()) + row_ops(rs.last())
    }
}

/// The number of well-formed rows.
pub open spec fn loaded_count(rs: Seq<Option<WindowsOsMetric>>) -> nat
    decreases rs.len(),
{
    if rs.len() == 0 {
        0
    } else {
        loaded_count(rs.drop_last()) + if rs.last() is Some { 1nat } else { 0nat }
    }
}

/// The number of well-formed rows that carry an anomaly code.
pub open spec fn anomaly_count(rs: Seq<Option<WindowsOsMetric>>) -> nat
    decreases rs.len(),
{
    if rs.len() == 0 {
        0
    } else {
        anomaly_count(rs.drop_last()) + if rs.last() is Some && rs.last()->0.anomaly is Some {
            1nat
        } else {
            0nat
        }
    }
}

fn describe(r: &WindowsOsMetric) -> (d: String)
    ensures
        d@ == description(*r),
{
    let mut d = String::from_str("CPU: ");
    let cpu = fmt_debug_opt_real(&r.cpu_usage_percent);
    d.append(cpu.as_str());
    d.append("%, Memory: ");
    let memory = fmt_debug_opt_real(&r.memory_used_mb);
    d.append(memory.as_str());
    d.append("MB");
    d
}

fn fact_statements(r: &WindowsOsMetric, name: &str, value: &Option<Real>) -> (v: Vec<Statement>)
    ensures
        ops_view(v@) == fact_ops(*r, name@, *value),
{
    match value {
        Some(x) => {
            let s = fact_statement(
                &r.timestamp,
                text(&r.atm_id),
                "windows_os",
                text_str(name),
                SqlValue::Real(x.bits),
                &r.anomaly,
            );
            let v = vec![s];
            assert(ops_view(v@) =~= fact_ops(*r, name@, *value));
            v
        },
        None => {
            let v: Vec<Statement> = Vec::new();
            assert(ops_view(v@) =~= fact_ops(*r, name@, *value));
            v
        },
    }
}

/// The statements one sample yields.
pub fn record_statements(r: &WindowsOsMetric) -> (v: Vec<Statement>)
    ensures
        ops_view(v@) == record_ops(*r),
        forall|k: int| 0 <= k < v@.len() ==> binds_record(*r, (#[trigger] v@[k])@),
{
    let params = vec![
        text(&r.timestamp),
        text(&r.atm_id),
        text(&r.hostname),
        opt_real(&r.cpu_usage_percent),
        opt_real(&r.memory_used_mb),
        opt_real(&r.memory_total_mb),
        opt_real(&r.memory_usage_percent),
        opt_real(&r.disk_free_gb),
        opt_int(r.network_errors),
        opt_text(&r.anomaly),
    ];
    let row = Statement { kind: StatementKind::InsertWindows, params };
    assert(row@.params =~= staging_row(*r).params);
    let mut v = vec![row];
    assert(ops_view(v@) =~= seq![staging_row(*r)]);

    let mut cpu = fact_statements(r, "cpu_usage_percent", &r.cpu_usage_percent);
    proof { lemma_ops_view_concat(v@, cpu@); }
    v.append(&mut cpu);
    let mut memory = fact_statements(r, "memory_used_mb", &r.memory_used_mb);
    proof { lemma_ops_view_concat(v@, memory@); }
    v.append(&mut memory);
    let mut disk = fact_statements(r, "disk_free_gb", &r.disk_free_gb);
    proof { lemma_ops_view_concat(v@, disk@); }
    v.append(&mut disk);
    assert(ops_view(v@) =~= seq![staging_row(*r)] + facts_ops(*r));

    let dim_params = vec![
        text(&r.atm_id),
        text(&r.hostname),
        opt_text(&r.os_version),
        text(&r.timestamp),
    ];
    let dim = Statement { kind: StatementKind::InsertDimAtmWindows, params: dim_params };
    assert(dim@.params =~= dim_atm_row(*r).params);
    let ghost before = v@;
    v.push(dim);
    assert(ops_view(v@) =~= ops_view(before).push(dim@));

    if let Some(code) = &r.anomaly {
        let severity = classify_severity(code.as_str());
        let a = anomaly_statement(
            &r.timestamp,
            text(&r.atm_id),
            code,
            "windows_os_metrics",
            severity,
            describe(r),
        );
        let ghost before = v@;
        v.push(a);
        assert(ops_view(v@) =~= ops_view(before).push(a@));
    }
    assert(ops_view(v@) =~= record_ops(*r));
    proof {
        assert forall|k: int| 0 <= k < v@.len() implies binds_record(*r, (#[trigger] v@[k])@) by {
            assert(ops_view(v@)[k] == v@[k]@);
            lemma_rows_bind_named_columns(*r, k);
        }
    }
    v
}

/// The statements that loading the parsed CSV rows runs, in order, skipping
/// malformed rows, with the number of rows loaded and the number of
/// anomalies among them.
pub fn insert_plan(rows: &Vec<Option<WindowsOsMetric>>) -> (plan: InsertPlan)
    ensures
        ops_view(plan.statements@) == rows_ops(rows@),
        plan.inserted == loaded_count(rows@),
        plan.anomalies == anomaly_count(rows@),
{
    let mut statements: Vec<Statement> = Vec::new();
    let mut inserted: usize = 0;
    let mut anomalies: usize = 0;
    let mut i: usize = 0;
    while i < rows.len()
        invariant
            i <= rows@.len(),
            ops_view(statements@) == rows_ops(rows@.take(i as int)),
            inserted == loaded_count(rows@.take(i as int)),
            anomalies == anomaly_count(rows@.take(i as int)),
            anomalies <= inserted <= i,
        decreases rows@.len() - i,
    {
        proof {
            let next = rows@.take(i + 1);
            assert(next.drop_last() =~= rows@.take(i as int));
            assert(next.last() == rows@[i as int]);
        }
        match &rows[i] {
            Some(r) => {
                let mut ops = record_statements(r);
                proof { lemma_ops_view_concat(statements@, ops@); }
                statements.append(&mut ops);
                inserted = inserted + 1;
                if r.anomaly.is_some() {
                    anomalies = anomalies + 1;
                }
            },
            None => {
                assert(ops_view(statements@) =~= rows_ops(rows@.take(i + 1)));
            },
        }
        i = i + 1;
    }
    assert(rows@.take(rows@.len() as int) =~= rows@);
    InsertPlan { statements, inserted, anomalies }
}

/// A load writes only rows of its own source: every statement it plans is a
/// staging row of the source's table, an anomaly recorded against that table,
/// a metric fact of the source, or an ATM registration.
pub proof fn lemma_ops_in_footprint(rs: Seq<Option<WindowsOsMetric>>)
    ensures
        forall|k: int|
            0 <= k < rows_ops(rs).len() ==> in_footprint(
                #[trigger] rows_ops(rs)[k],
                Feed::WindowsOs,
                "windows_os"@,
            ),
    decreases rs.len(),
{
    if rs.len() > 0 {
        lemma_ops_in_footprint(rs.drop_last());
        let a = rows_ops(rs.drop_last());
        let b = row_ops(rs.last());
        assert forall|k: int| 0 <= k < rows_ops(rs).len() implies in_footprint(
            #[trigger] rows_ops(rs)[k],
            Feed::WindowsOs,
            "windows_os"@,
        ) by {
            if k < a.len() {
                assert(rows_ops(rs)[k] == a[k]);
            } else {
                assert(rows_ops(rs)[k] == b[k - a.len()]);
            }
        }
    }
}

/// Loading the Windows metrics again replaces what an earlier load of it wrote: every row
/// that loading `rs` writes, ATM registrations aside, is removed by the
/// statements that clear source `"windows_os"` before the reload, and by those
/// of no other watched source.
pub proof fn lemma_reload_replaces_own_rows(rs: Seq<Option<WindowsOsMetric>>, k: int, j: int)
    requires
        0 <= k < rows_ops(rs).len(),
        0 <= j < watch_list().len(),
        !registers_atm(rows_ops(rs)[k]),
    ensures
        removed_by(clear_ops(watch_list()[j].1), rows_ops(rs)[k]) <==> watch_list()[j].2
            == Feed::WindowsOs,
{
    lemma_ops_in_footprint(rs);
    lemma_clearing_targets_own_rows(1, j, rows_ops(rs)[k]);
}

proof fn lemma_record_counts(r: WindowsOsMetric)
    ensures
        count_kind(record_ops(r), StatementKind::InsertWindows) == 1,
        count_kind(record_ops(r), StatementKind::InsertAnomaly) == if r.anomaly is Some {
            1nat
        } else {
            0nat
        },
{
    let p0 = seq![staging_row(r)];
    let p1 = fact_ops(r, "cpu_usage_percent"@, r.cpu_usage_percent);
    let p2 = fact_ops(r, "memory_used_mb"@, r.memory_used_mb);
    let p3 = fact_ops(r, "disk_free_gb"@, r.disk_free_gb);
    let p4 = seq![dim_atm_row(r)];
    let p5 = anomaly_ops(r);
    assert(record_ops(r) =~= p0 + p1 + p2 + p3 + p4 + p5);
    lemma_count_kind_small(p0, StatementKind::InsertWindows);
    lemma_count_kind_small(p1, StatementKind::InsertWindows);
    lemma_count_kind_small(p2, StatementKind::InsertWindows);
    lemma_count_kind_small(p3, StatementKind::InsertWindows);
    lemma_count_kind_small(p4, StatementKind::InsertWindows);
    lemma_count_kind_small(p5, StatementKind::InsertWindows);
    lemma_count_kind_concat(p0, p1, StatementKind::InsertWindows);
    lemma_count_kind_concat(p0 + p1, p2, StatementKind::InsertWindows);
    lemma_count_kind_concat(p0 + p1 + p2, p3, StatementKind::InsertWindows);
    lemma_count_kind_concat(p0 + p1 + p2 + p3, p4, StatementKind::InsertWindows);
    lemma_count_kind_concat(p0 + p1 + p2 + p3 + p4, p5, StatementKind::InsertWindows);
    lemma_count_kind_small(p0, StatementKind::InsertAnomaly);
    lemma_count_kind_small(p1, StatementKind::InsertAnomaly);
    lemma_count_kind_small(p2, StatementKind::InsertAnomaly);
    lemma_count_kind_small(p3, StatementKind::InsertAnomaly);
    lemma_count_kind_small(p4, StatementKind::InsertAnomaly);
    lemma_count_kind_small(p5, StatementKind::InsertAnomaly);
    lemma_count_kind_concat(p0, p1, StatementKind::InsertAnomaly);
    lemma_count_kind_concat(p0 + p1, p2, StatementKind::InsertAnomaly);
    lemma_count_kind_concat(p0 + p1 + p2, p3, StatementKind::InsertAnomaly);
    lemma_count_kind_concat(p0 + p1 + p2 + p3, p4, StatementKind::InsertAnomaly);
    lemma_count_kind_concat(p0 + p1 + p2 + p3 + p4, p5, StatementKind::InsertAnomaly);
}

/// The counts a load reports are the rows it writes: one staging row per
/// well-formed row, and one anomaly row per well-formed row that carries an
/// anomaly code.
pub proof fn lemma_reported_counts_are_rows(rs: Seq<Option<WindowsOsMetric>>)
    ensures
        count_kind(rows_ops(rs), StatementKind::InsertWindows) == loaded_count(rs),
        count_kind(rows_ops(rs), StatementKind::InsertAnomaly) == anomaly_count(rs),
    decreases rs.len(),
{
    if rs.len() > 0 {
        lemma_reported_counts_are_rows(rs.drop_last());
        match rs.last() {
            Some(r) => lemma_record_counts(r),
            None => {
                lemma_count_kind_small(row_ops(rs.last()), StatementKind::InsertWindows);
                lemma_count_kind_small(row_ops(rs.last()), StatementKind::InsertAnomaly);
            },
        }
        lemma_count_kind_concat(rows_ops(rs.drop_last()), row_ops(rs.last()), StatementKind::InsertWindows);
        lemma_count_kind_concat(
            rows_ops(rs.drop_last()),
            row_ops(rs.last()),
            StatementKind::InsertAnomaly,
        );
    }
}

/// The value that the rows of a sample bind to column `c`: the sample's
/// field of that name (`first_seen` and `last_seen` are the sample's
/// timestamp); NULL for a column that the sample has no field for.
pub open spec fn record_field(r: WindowsOsMetric, c: Column) -> SqlValueView {
    match c {
        Column::Timestamp => text_value(r.timestamp),
        Column::AtmId => text_value(r.atm_id),
        Column::Hostname => text_value(r.hostname),
        Column::OsVersion => opt_text_value(r.os_version),
        Column::CpuUsagePercent => opt_real_value(r.cpu_usage_percent),
        Column::MemoryUsedMb => opt_real_value(r.memory_used_mb),
        Column::MemoryTotalMb => opt_real_value(r.memory_total_mb),
        Column::MemoryUsagePercent => opt_real_value(r.memory_usage_percent),
        Column::DiskFreeGb => opt_real_value(r.disk_free_gb),
        Column::NetworkErrors => opt_int_value(r.network_errors),
        Column::Anomaly => opt_text_value(r.anomaly),
        Column::FirstSeen => text_value(r.timestamp),
        Column::LastSeen => text_value(r.timestamp),
        _ => SqlValueView::Null,
    }
}

/// The value that the anomaly row of a sample binds to column `c`.
pub open spec fn anomaly_column(r: WindowsOsMetric, c: Column) -> SqlValueView {
    match c {
        Column::AnomalyCode => opt_text_value(r.anomaly),
        Column::SourceTable => SqlValueView::Text("windows_os_metrics"@),
        Column::SourceId => SqlValueView::Integer(0),
        Column::Severity => match r.anomaly {
            Some(code) => SqlValueView::Text(severity_of(code@)),
            None => SqlValueView::Null,
        },
        Column::Description => SqlValueView::Text(description(r)),
        _ => record_field(r, c),
    }
}

/// The value that a statement of kind `kind` yielded by a sample binds to column `c`.
pub open spec fn column(r: WindowsOsMetric, kind: StatementKind, c: Column) -> SqlValueView {
    if kind == StatementKind::InsertAnomaly {
        anomaly_column(r, c)
    } else {
        record_field(r, c)
    }
}

/// The value that the metric fact of reading `metric` binds to column `c`:
/// the source is `windows_os`, the metric name is the reading's column name,
/// the value is the sample's reading of that name.
pub open spec fn fact_column(r: WindowsOsMetric, metric: Column, c: Column) -> SqlValueView {
    match c {
        Column::Source => SqlValueView::Text("windows_os"@),
        Column::MetricName => SqlValueView::Text(column_name(metric)),
        Column::MetricValue => record_field(r, metric),
        _ => record_field(r, c),
    }
}

/// Whether statement `op` binds, at every position of its statement's column
/// list, the sample's value of that column.
pub open spec fn binds_named_columns(r: WindowsOsMetric, op: StatementView) -> bool {
    op.params == insert_columns(op.kind).map_values(|c: Column| column(r, op.kind, c))
}

/// Whether `op` is the metric fact of one of the sample's readings (CPU
/// usage, memory used, free disk), present in the sample, bound column by
/// column.
pub open spec fn binds_reading_fact(r: WindowsOsMetric, op: StatementView) -> bool {
    exists|m: Column|
        (m == Column::CpuUsagePercent || m == Column::MemoryUsedMb || m == Column::DiskFreeGb)
            && record_field(r, m) is Real && op.params == insert_columns(
            StatementKind::InsertFactMetric,
        ).map_values(|c: Column| fact_column(r, m, c))
}

proof fn lemma_fact_part(r: WindowsOsMetric, name: Seq<char>, m: Column, value: Option<Real>)
    requires
        m == Column::CpuUsagePercent || m == Column::MemoryUsedMb || m == Column::DiskFreeGb,
        name == column_name(m),
        record_field(r, m) == crate::models::opt_real_value(value),
    ensures
        forall|i: int|
            0 <= i < fact_ops(r, name, value).len() ==> (#[trigger] fact_ops(r, name, value)[i]).kind
                == StatementKind::InsertFactMetric && binds_reading_fact(r, fact_ops(r, name, value)[i]),
{
    if value is Some {
        let op = fact_ops(r, name, value)[0];
        assert(op.params =~= insert_columns(StatementKind::InsertFactMetric).map_values(
            |c: Column| fact_column(r, m, c),
        ));
    }
}

/// Every row a sample yields binds, at each position of its statement's
/// column list, the value named by that column: the staging row and the ATM
/// registration bind the sample's fields of the same names, the anomaly row
/// binds the anomaly code, `windows_os_metrics`, 0, the code's severity and
/// the description, and each metric fact binds one of the sample's present
/// readings under its own column name.
pub proof fn lemma_rows_bind_named_columns(r: WindowsOsMetric, k: int)
    requires
        0 <= k < record_ops(r).len(),
    ensures
        record_ops(r)[k].kind == StatementKind::InsertFactMetric ==> binds_reading_fact(r, record_ops(r)[k]),
        record_ops(r)[k].kind != StatementKind::InsertFactMetric ==> binds_named_columns(r, record_ops(r)[k]),
{
    let p0 = seq![staging_row(r)];
    let p1 = fact_ops(r, "cpu_usage_percent"@, r.cpu_usage_percent);
    let p2 = fact_ops(r, "memory_used_mb"@, r.memory_used_mb);
    let p3 = fact_ops(r, "disk_free_gb"@, r.disk_free_gb);
    let p4 = seq![dim_atm_row(r)];
    let p5 = anomaly_ops(r);
    assert(record_ops(r) =~= p0 + p1 + p2 + p3 + p4 + p5);
    assert(staging_row(r).params =~= insert_columns(StatementKind::InsertWindows).map_values(
        |c: Column| column(r, StatementKind::InsertWindows, c),
    ));
    assert(dim_atm_row(r).params =~= insert_columns(StatementKind::InsertDimAtmWindows).map_values(
        |c: Column| column(r, StatementKind::InsertDimAtmWindows, c),
    ));
    if r.anomaly is Some {
        assert(p5[0].params =~= insert_columns(StatementKind::InsertAnomaly).map_values(
            |c: Column| column(r, StatementKind::InsertAnomaly, c),
        ));
    }
    lemma_fact_part(r, "cpu_usage_percent"@, Column::CpuUsagePercent, r.cpu_usage_percent);
    lemma_fact_part(r, "memory_used_mb"@, Column::MemoryUsedMb, r.memory_used_mb);
    lemma_fact_part(r, "disk_free_gb"@, Column::DiskFreeGb, r.disk_free_gb);
    let q = p0 + p1 + p2 + p3 + p4 + p5;
    let op = q[k];
    if k < p0.len() {
        assert(op == p0[k]);
    } else if k < p0.len() + p1.len() {
        assert(op == p1[k - p0.len()]);
    } else if k < p0.len() + p1.len() + p2.len() {
        assert(op == p2[k - p0.len() - p1.len()]);
    } else if k < p0.len() + p1.len() + p2.len() + p3.len() {
        assert(op == p3[k - p0.len() - p1.len() - p2.len()]);
    } else if k < p0.len() + p1.len() + p2.len() + p3.len() + p4.len() {
        assert(op == p4[k - p0.len() - p1.len() - p2.len() - p3.len()]);
    } else {
        assert(op == p5[k - p0.len() - p1.len() - p2.len() - p3.len() - p4.len()]);
    }
}

/// Whether `op` takes its values from sample `r`: a metric fact binds one of
/// the sample's present readings, any other row binds the sample's values
/// column by column.
pub open spec fn binds_record(r: WindowsOsMetric, op: StatementView) -> bool {
    if op.kind == StatementKind::InsertFactMetric {
        binds_reading_fact(r, op)
    } else {
        binds_named_columns(r, op)
    }
}

/// Every row that loading the CSV rows writes takes its values, column by
/// column, from one well-formed row of the input: no value lands in a column
/// of another name.
pub proof fn lemma_plan_rows_bind_named_columns(rs: Seq<Option<WindowsOsMetric>>, k: int)
    requires
        0 <= k < rows_ops(rs).len(),
    ensures
        exists|j: int| 0 <= j < rs.len() && (#[trigger] rs[j]) is Some && binds_record(rs[j]->0, rows_ops(rs)[k]),
    decreases rs.len(),
{
    let a = rows_ops(rs.drop_last());
    let b = row_ops(rs.last());
    assert(rows_ops(rs) == a + b);
    if k < a.len() {
        lemma_plan_rows_bind_named_columns(rs.drop_last(), k);
        let j = choose|j: int| 0 <= j < rs.drop_last().len() && (#[trigger] rs.drop_last()[j]) is Some
            && binds_record(rs.drop_last()[j]->0, rows_ops(rs.drop_last())[k]);
        assert(rs[j] == rs.drop_last()[j]);
        assert(rows_ops(rs)[k] == a[k]);
    } else {
        let r = rs.last()->0;
        assert(rs.last() is Some);
        lemma_rows_bind_named_columns(r, k - a.len());
        assert(rows_ops(rs)[k] == b[k - a.len()]);
        assert(rs[rs.len() - 1] == rs.last());
    }
}

proof fn lemma_rows_ops_concat(a: Seq<Option<WindowsOsMetric>>, b: Seq<Option<WindowsOsMetric>>)
    ensures
        rows_ops(a + b) == rows_ops(a) + rows_ops(b),
    decreases b.len(),
{
    if b.len() == 0 {
        assert(a + b =~= a);
        assert(rows_ops(a) + rows_ops(b) =~= rows_ops(a));
    } else {
        assert((a + b).drop_last() =~= a + b.drop_last());
        assert((a + b).last() == b.last());
        lemma_rows_ops_concat(a, b.drop_last());
        assert(rows_ops(a + b) =~= rows_ops(a) + rows_ops(b));
    }
}

/// Loading keeps the order of the input: the statements of row `j` begin
/// right after those of the rows before it, with the staging row of row
/// `j`, which binds that row's values column by column.
pub proof fn lemma_plan_keeps_input_order(rs: Seq<Option<WindowsOsMetric>>, j: int)
    requires
        0 <= j < rs.len(),
        rs[j] is Some,
    ensures
        rows_ops(rs.take(j)).len() < rows_ops(rs).len(),
        rows_ops(rs)[rows_ops(rs.take(j)).len() as int].kind == StatementKind::InsertWindows,
        binds_named_columns(rs[j]->0, rows_ops(rs)[rows_ops(rs.take(j)).len() as int]),
{
    let head = rs.take(j);
    let one = seq![rs[j]];
    let tail = rs.skip(j + 1);
    assert(rs =~= head + (one + tail));
    lemma_rows_ops_concat(head, one + tail);
    lemma_rows_ops_concat(one, tail);
    assert(one.drop_last() =~= Seq::<Option<WindowsOsMetric>>::empty());
    assert(one.last() == rs[j]);
    assert(rows_ops(one.drop_last()).len() == 0);
    assert(rows_ops(one) =~= row_ops(rs[j]));
    lemma_rows_bind_named_columns(rs[j]->0, 0);
    assert(rows_ops(rs)[rows_ops(head).len() as int] == row_ops(rs[j])[0]);
}

} // verus!
