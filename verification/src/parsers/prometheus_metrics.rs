//! Prometheus JVM and service metrics (`prometheus_metrics.csv`).

use vstd::prelude::*;
use vstd::string::*;
use crate::db::{
    insert_columns, Column,
    count_kind, lemma_count_kind_concat, lemma_count_kind_small,
    anomaly_row, anomaly_statement, lemma_ops_view_concat, opt_text,
    opt_text_value, ops_view, text, text_value, InsertPlan, SqlValue, SqlValueView, Statement,
    StatementKind, StatementView,
};
use crate::models::{debug_opt_real, fmt_debug_opt_real, opt_real, opt_real_value, PrometheusMetric};
use crate::watcher::{
    clear_ops, in_footprint, lemma_clearing_targets_own_rows, registers_atm, removed_by, watch_list,
    Feed,
};
use crate::text::str_eq;

verus! {

/// Severity of an anomaly code seen in the Prometheus metrics.
pub open spec fn severity_of(code: Seq<char>) -> Seq<char> {
    if code == "A3"@ {
        "WARNING"@
    } else if code == "A4"@ {
        "CRITICAL"@
    } else if code == "A7_MALFORMED"@ {
        "WARNING"@
    } else {
        "INFO"@
    }
}

/// Classifies the severity of an anomaly code.
pub fn classify_severity(code: &str) -> (r: &'static str)
    ensures
        r@ == severity_of(code@),
{
    if str_eq(code, "A3") {
        "WARNING"
    } else if str_eq(code, "A4") {
        "CRITICAL"
    } else if str_eq(code, "A7_MALFORMED") {
        "WARNING"
    } else {
        "INFO"
    }
}

/// The description stored with an anomaly of the metrics.
pub open spec fn description(r: PrometheusMetric) -> Seq<char> {
    "Metric: "@ + r.metric_name@ + " = "@ + debug_opt_real(r.metric_value)
}

/// The staging row of a sample.
pub open spec fn staging_row(r: PrometheusMetric) -> StatementView {
    StatementView {
        kind: StatementKind::InsertPrometheus,
        params: seq![
            text_value(r.timestamp),
            text_value(r.metric_name),
            opt_text_value(r.metric_type),
            opt_real_value(r.metric_value),
            opt_text_value(r.service_name),
            opt_text_value(r.pod_name),
            opt_text_value(r.anomaly),
        ],
    }
}

/// The statements one sample yields: its staging row, then its anomaly (with
/// no ATM) when it carries one.
pub open spec fn record_ops(r: PrometheusMetric) -> Seq<StatementView> {
    match r.anomaly {
        Some(code) => seq![
            staging_row(r),
            anomaly_row(
                r.timestamp@,
                SqlValueView::Null,
                code@,
                "prometheus_metrics"@,
                severity_of(code@),
                description(r),
            ),
        ],
        None => seq![staging_row(r)],
    }
}

/// The statements of one CSV row; a malformed row (`None`) yields none.
pub open spec fn row_ops(o: Option<PrometheusMetric>) -> Seq<StatementView> {
    match o {
        Some(r) => record_ops(r),
        None => seq![],
    }
}

/// The statements a sequence of CSV rows yields, row after row.
pub open spec fn rows_ops(rs: Seq<Option<PrometheusMetric>>) -> Seq<StatementView>
    decreases rs.len(),
{
    if rs.len() == 0 {
        seq![]
    } else {
        rows_ops(rs.drop_last()) + row_ops(rs.last())
    }
}

/// The number of well-formed rows.
pub open spec fn loaded_count(rs: Seq<Option<PrometheusMetric>>) -> nat
    decreases rs.len(),
{
    if rs.len() == 0 {
        0
    } else {
        loaded_count(rs.drop_last()) + if rs.last() is Some { 1nat } else { 0nat }
    }
}

/// The number of well-formed rows that carry an anomaly code.
pub open spec fn anomaly_count(rs: Seq<Option<PrometheusMetric>>) -> nat
    decreases rs.len(),
{
    if rs.len() == 0 {
        0
    } else {
        anomaly_count(rs.drop_last()) + if rs.last() is Some && rs.last()->0.anomaly is Some {
            1nat
        } else {
            0nat
        }
    }
}

fn describe(r: &PrometheusMetric) -> (d: String)
    ensures
        d@ == description(*r),
{
    let mut d = String::from_str("Metric: ");
    d.append(r.metric_name.as_str());
    d.append(" = ");
    let value = fmt_debug_opt_real(&r.metric_value);
    d.append(value.as_str());
    d
}

/// The statements one sample yields.
pub fn record_statements(r: &PrometheusMetric) -> (v: Vec<Statement>)
    ensures
        ops_view(v@) == record_ops(*r),
        forall|k: int| 0 <= k < v@.len() ==> binds_named_columns(*r, (#[trigger] v@[k])@),
{
    let params = vec![
        text(&r.timestamp),
        text(&r.metric_name),
        opt_text(&r.metric_type),
        opt_real(&r.metric_value),
        opt_text(&r.service_name),
        opt_text(&r.pod_name),
        opt_text(&r.anomaly),
    ];
    let row = Statement { kind: StatementKind::InsertPrometheus, params };
    assert(row@.params =~= staging_row(*r).params);
    let mut v = vec![row];
    if let Some(code) = &r.anomaly {
        let severity = classify_severity(code.as_str());
        let a = anomaly_statement(
            &r.timestamp,
            SqlValue::Null,
            code,
            "prometheus_metrics",
            severity,
            describe(r),
        );
        v.push(a);
    }
    assert(ops_view(v@) =~= record_ops(*r));
    proof {
        assert forall|k: int| 0 <= k < v@.len() implies binds_named_columns(
            *r,
            (#[trigger] v@[k])@,
        ) by {
            assert(ops_view(v@)[k] == v@[k]@);
            lemma_rows_bind_named_columns(*r, k);
        }
    }
    v
}

/// The statements that loading the parsed CSV rows runs, in order, skipping
/// malformed rows, with the number of rows loaded and the number of
/// anomalies among them.
pub fn insert_plan(rows: &Vec<Option<PrometheusMetric>>) -> (plan: InsertPlan)
    ensures
        ops_view(plan.statements@) == rows_ops(rows@),
        plan.inserted == loaded_count(rows@),
        plan.anomalies == anomaly_count(rows@),
{
    let mut statements: Vec<Statement> = Vec::new();
    let mut inserted: usize = 0;
    let mut anomalies: usize = 0;
    let mut i: usize = 0;
    while i < rows.len()
        invariant
            i <= rows@.len(),
            ops_view(statements@) == rows_ops(rows@.take(i as int)),
            inserted == loaded_count(rows@.take(i as int)),
            anomalies == anomaly_count(rows@.take(i as int)),
            anomalies <= inserted <= i,
        decreases rows@.len() - i,
    {
        proof {
            let next = rows@.take(i + 1);
            assert(next.drop_last() =~= rows@.take(i as int));
            assert(next.last() == rows@[i as int]);
        }
        match &rows[i] {
            Some(r) => {
                let mut ops = record_statements(r);
                proof { lemma_ops_view_concat(statements@, ops@); }
                statements.append(&mut ops);
                inserted = inserted + 1;
                if r.anomaly.is_some() {
                    anomalies = anomalies + 1;
                }
            },
            None => {
                assert(ops_view(statements@) =~= rows_ops(rows@.take(i + 1)));
            },
        }
        i = i + 1;
    }
    assert(rows@.take(rows@.len() as int) =~= rows@);
    InsertPlan { statements, inserted, anomalies }
}

/// A load writes only rows of its own source: every statement it plans is a
/// staging row of the source's table, an anomaly recorded against that table,
/// a metric fact of the source, or an ATM registration.
pub proof fn lemma_ops_in_footprint(rs: Seq<Option<PrometheusMetric>>)
    ensures
        forall|k: int|
            0 <= k < rows_ops(rs).len() ==> in_footprint(
                #[trigger] rows_ops(rs)[k],
                Feed::Prometheus,
                "prometheus"@,
            ),
    decreases rs.len(),
{
    if rs.len() > 0 {
        lemma_ops_in_footprint(rs.drop_last());
        let a = rows_ops(rs.drop_last());
        let b = row_ops(rs.last());
        assert forall|k: int| 0 <= k < rows_ops(rs).len() implies in_footprint(
            #[trigger] rows_ops(rs)[k],
            Feed::Prometheus,
            "prometheus"@,
        ) by {
            if k < a.len() {
                assert(rows_ops(rs)[k] == a[k]);
            } else {
                assert(rows_ops(rs)[k] == b[k - a.len()]);
            }
        }
    }
}

/// Loading the Prometheus metrics again replaces what an earlier load of it wrote: every row
/// that loading `rs` writes, ATM registrations aside, is removed by the
/// statements that clear source `"prometheus"` before the reload, and by those
/// of no other watched source.
pub proof fn lemma_reload_replaces_own_rows(rs: Seq<Option<PrometheusMetric>>, k: int, j: int)
    requires
        0 <= k < rows_ops(rs).len(),
        0 <= j < watch_list().len(),
        !registers_atm(rows_ops(rs)[k]),
    ensures
        removed_by(clear_ops(watch_list()[j].1), rows_ops(rs)[k]) <==> watch_list()[j].2
            == Feed::Prometheus,
{
    lemma_ops_in_footprint(rs);
    lemma_clearing_targets_own_rows(3, j, rows_ops(rs)[k]);
}

proof fn lemma_record_counts(r: PrometheusMetric)
    ensures
        count_kind(record_ops(r), StatementKind::InsertPrometheus) == 1,
        count_kind(record_ops(r), StatementKind::InsertAnomaly) == if r.anomaly is Some {
            1nat
        } else {
            0nat
        },
{
    let p0 = record_ops(r).take(1);
    let p1 = record_ops(r).skip(1);
    assert(record_ops(r) =~= p0 + p1);
    lemma_count_kind_small(p0, StatementKind::InsertPrometheus);
    lemma_count_kind_small(p1, StatementKind::InsertPrometheus);
    lemma_count_kind_concat(p0, p1, StatementKind::InsertPrometheus);
    lemma_count_kind_small(p0, StatementKind::InsertAnomaly);
    lemma_count_kind_small(p1, StatementKind::InsertAnomaly);
    lemma_count_kind_concat(p0, p1, StatementKind::InsertAnomaly);
}

/// The counts a load reports are the rows it writes: one staging row per
/// well-formed row, and one anomaly row per well-formed row that carries an
/// anomaly code.
pub proof fn lemma_reported_counts_are_rows(rs: Seq<Option<PrometheusMetric>>)
    ensures
        count_kind(rows_ops(rs), StatementKind::InsertPrometheus) == loaded_count(rs),
        count_kind(rows_ops(rs), StatementKind::InsertAnomaly) == anomaly_count(rs),
    decreases rs.len(),
{
    if rs.len() > 0 {
        lemma_reported_counts_are_rows(rs.drop_last());
        match rs.last() {
            Some(r) => lemma_record_counts(r),
            None => {
                lemma_count_kind_small(row_ops(rs.last()), StatementKind::InsertPrometheus);
                lemma_count_kind_small(row_ops(rs.last()), StatementKind::InsertAnomaly);
            },
        }
        lemma_count_kind_concat(rows_ops(rs.drop_last()), row_ops(rs.last()), StatementKind::InsertPrometheus);
        lemma_count_kind_concat(
            rows_ops(rs.drop_last()),
            row_ops(rs.last()),
            StatementKind::InsertAnomaly,
        );
    }
}

/// The value that the rows of an sample bind to column `c`: the sample's
/// field of that name; NULL for a column that the
/// sample has no field for.
pub open spec fn record_field(r: PrometheusMetric, c: Column) -> SqlValueView {
    match c {
        Column::Timestamp => text_value(r.timestamp),
        Column::MetricName => text_value(r.metric_name),
        Column::MetricType => opt_text_value(r.metric_type),
        Column::MetricValue => opt_real_value(r.metric_value),
        Column::ServiceName => opt_text_value(r.service_name),
        Column::PodName => opt_text_value(r.pod_name),
        Column::Anomaly => opt_text_value(r.anomaly),
        _ => SqlValueView::Null,
    }
}

/// The value that the anomaly row of an sample binds to column `c`.
pub open spec fn anomaly_column(r: PrometheusMetric, c: Column) -> SqlValueView {
    match c {
        Column::AnomalyCode => opt_text_value(r.anomaly),
        Column::SourceTable => SqlValueView::Text("prometheus_metrics"@),
        Column::SourceId => SqlValueView::Integer(0),
        Column::Severity => match r.anomaly {
            Some(code) => SqlValueView::Text(severity_of(code@)),
            None => SqlValueView::Null,
        },
        Column::Description => SqlValueView::Text(description(r)),
        _ => record_field(r, c),
    }
}

/// The value that a statement of kind `kind` yielded by an sample binds to column `c`.
pub open spec fn column(r: PrometheusMetric, kind: StatementKind, c: Column) -> SqlValueView {
    if kind == StatementKind::InsertAnomaly {
        anomaly_column(r, c)
    } else {
        record_field(r, c)
    }
}

/// Whether statement `op` binds, at every position of its statement's column
/// list, the sample's value of that column.
pub open spec fn binds_named_columns(r: PrometheusMetric, op: StatementView) -> bool {
    op.params == insert_columns(op.kind).map_values(|c: Column| column(r, op.kind, c))
}

/// Every row an sample yields binds, at each position of its statement's
/// column list, the value named by that column: the staging row binds the
/// sample's fields of the same names, the anomaly row binds the anomaly code,
/// `prometheus_metrics`, 0, the code's severity and the description.
pub proof fn lemma_rows_bind_named_columns(r: PrometheusMetric, k: int)
    requires
        0 <= k < record_ops(r).len(),
    ensures
        binds_named_columns(r, record_ops(r)[k]),
{
    assert(record_ops(r)[0].params =~= insert_columns(StatementKind::InsertPrometheus).map_values(
        |c: Column| column(r, StatementKind::InsertPrometheus, c),
    ));
    if r.anomaly is Some {
        assert(record_ops(r)[1].params =~= insert_columns(StatementKind::InsertAnomaly).map_values(
            |c: Column| column(r, StatementKind::InsertAnomaly, c),
        ));
    }
}

/// Every row that loading the CSV rows writes takes its values, column by
/// column, from one well-formed row of the input: no value lands in a column
/// of another name.
pub proof fn lemma_plan_rows_bind_named_columns(rs: Seq<Option<PrometheusMetric>>, k: int)
    requires
        0 <= k < rows_ops(rs).len(),
    ensures
        exists|j: int| 0 <= j < rs.len() && (#[trigger] rs[j]) is Some && binds_named_columns(rs[j]->0, rows_ops(rs)[k]),
    decreases rs.len(),
{
    let a = rows_ops(rs.drop_last());
    let b = row_ops(rs.last());
    assert(rows_ops(rs) == a + b);
    if k < a.len() {
        lemma_plan_rows_bind_named_columns(rs.drop_last(), k);
        let j = choose|j: int| 0 <= j < rs.drop_last().len() && (#[trigger] rs.drop_last()[j]) is Some
            && binds_named_columns(rs.drop_last()[j]->0, rows_ops(rs.drop_last())[k]);
        assert(rs[j] == rs.drop_last()[j]);
        assert(rows_ops(rs)[k] == a[k]);
    } else {
        let r = rs.last()->0;
        assert(rs.last() is Some);
        lemma_rows_bind_named_columns(r, k - a.len());
        assert(rows_ops(rs)[k] == b[k - a.len()]);
        assert(rs[rs.len() - 1] == rs.last());
    }
}

proof fn lemma_rows_ops_concat(a: Seq<Option<PrometheusMetric>>, b: Seq<Option<PrometheusMetric>>)
    ensures
        rows_ops(a + b) == rows_ops(a) + rows_ops(b),
    decreases b.len(),
{
    if b.len() == 0 {
        assert(a + b =~= a);
        assert(rows_ops(a) + rows_ops(b) =~= rows_ops(a));
    } else {
        assert((a + b).drop_last() =~= a + b.drop_last());
        assert((a + b).last() == b.last());
        lemma_rows_ops_concat(a, b.drop_last());
        assert(rows_ops(a + b) =~= rows_ops(a) + rows_ops(b));
    }
}

/// Loading keeps the order of the input: the statements of row `j` begin
/// right after those of the rows before it, with the staging row of row
/// `j`, which binds that row's values column by column.
pub proof fn lemma_plan_keeps_input_order(rs: Seq<Option<PrometheusMetric>>, j: int)
    requires
        0 <= j < rs.len(),
        rs[j] is Some,
    ensures
        rows_ops(rs.take(j)).len() < rows_ops(rs).len(),
        rows_ops(rs)[rows_ops(rs.take(j)).len() as int].kind == StatementKind::InsertPrometheus,
        binds_named_columns(rs[j]->0, rows_ops(rs)[rows_ops(rs.take(j)).len() as int]),
{
    let head = rs.take(j);
    let one = seq![rs[j]];
    let tail = rs.skip(j + 1);
    assert(rs =~= head + (one + tail));
    lemma_rows_ops_concat(head, one + tail);
    lemma_rows_ops_concat(one, tail);
    assert(one.drop_last() =~= Seq::<Option<PrometheusMetric>>::empty());
    assert(one.last() == rs[j]);
    assert(rows_ops(one.drop_last()).len() == 0);
    assert(rows_ops(one) =~= row_ops(rs[j]));
    lemma_rows_bind_named_columns(rs[j]->0, 0);
    assert(rows_ops(rs)[rows_ops(head).len() as int] == row_ops(rs[j])[0]);
}

} // verus!
