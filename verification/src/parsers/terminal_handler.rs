//! Terminal Handler backend service logs (`terminal_handler_app_log.json`).

use vstd::prelude::*;
use vstd::string::*;
use crate::db::{
    as_real, column_name, insert_columns, Column,
    count_kind, lemma_count_kind_concat, lemma_count_kind_small,
    anomaly_row, anomaly_statement, fact_row, fact_statement, lemma_ops_view_concat, opt_int,
    opt_int_value, opt_text, opt_text_value, ops_view, text, text_str, text_value, InsertPlan,
    SqlValue, SqlValueView, Statement, StatementKind, StatementView,
};
use crate::models::TerminalHandlerLog;
use crate::watcher::{
    clear_ops, in_footprint, lemma_clearing_targets_own_rows, registers_atm, removed_by, watch_list,
    Feed,
};
use crate::text::{
    debug_opt_i64, debug_opt_string, fmt_debug_opt_i64, fmt_debug_opt_string, str_eq,
};

verus! {

/// Severity of an anomaly code seen in the service log.
pub open spec fn severity_of(code: Seq<char>) -> Seq<char> {
    if code == "A1"@ {
        "WARNING"@
    } else if code == "A3"@ {
        "WARNING"@
    } else if code == "A4"@ {
        "CRITICAL"@
    } else {
        "INFO"@
    }
}

/// Classifies the severity of an anomaly code.
pub fn classify_severity(code: &str) -> (r: &'static str)
    ensures
        r@ == severity_of(code@),
{
    if str_eq(code, "A1") {
        "WARNING"
    } else if str_eq(code, "A3") {
        "WARNING"
    } else if str_eq(code, "A4") {
        "CRITICAL"
    } else {
        "INFO"
    }
}

/// The description stored with an anomaly of the log.
pub open spec fn description(r: TerminalHandlerLog) -> Seq<char> {
    "Event: "@ + debug_opt_string(r.event_type) + ", HTTP: "@ + debug_opt_i64(r.http_status_code)
        + ", exception: "@ + debug_opt_string(r.exception_class)
}

/// The staging row of an entry.
pub open spec fn staging_row(r: TerminalHandlerLog) -> StatementView {
    StatementView {
        kind: StatementKind::InsertTerminal,
        params: seq![
            text_value(r.timestamp),
            opt_text_value(r.log_level),
            opt_text_value(r.event_type),
            opt_text_value(r.message),
            opt_text_value(r.container_id),
            opt_text_value(r.correlation_id),
            opt_text_value(r.transaction_id),
            opt_text_value(r.atm_id),
            opt_int_value(r.response_time_ms),
            opt_int_value(r.http_status_code),
            opt_text_value(r.exception_class),
            opt_text_value(r.anomaly),
        ],
    }
}

/// The fact of one integer reading of an entry, when the reading is present.
pub open spec fn fact_ops(r: TerminalHandlerLog, name: Seq<char>, value: Option<i64>) -> Seq<
    StatementView,
> {
    match value {
        Some(x) => seq![
            fact_row(
                r.timestamp@,
                opt_text_value(r.atm_id),
                "terminal_handler"@,
                name,
                SqlValueView::IntegerAsReal(x as int),
                opt_text_value(r.anomaly),
            ),
        ],
        None => seq![],
    }
}

/// The anomaly of an entry, when it carries one.
pub open spec fn anomaly_ops(r: TerminalHandlerLog) -> Seq<StatementView> {
    match r.anomaly {
        Some(code) => seq![
            anomaly_row(
                r.timestamp@,
                opt_text_value(r.atm_id),
                code@,
                "terminal_handler_log"@,
                severity_of(code@),
                description(r),
            ),
        ],
        None => seq![],
    }
}

/// The statements one entry yields: staging row, response-time fact, HTTP
/// status fact, anomaly.
pub open spec fn record_ops(r: TerminalHandlerLog) -> Seq<StatementView> {
    seq![staging_row(r)] + fact_ops(r, "response_time_ms"@, r.response_time_ms) + fact_ops(
        r,
        "http_status_code"@,
        r.http_status_code,
    ) + anomaly_ops(r)
}

/// The statements a sequence of entries yields, entry after entry.
pub open spec fn records_ops(rs: Seq<TerminalHandlerLog>) -> Seq<StatementView>
    decreases rs.len(),
{
    if rs.len() == 0 {
        seq![]
    } else {
        records_ops(rs.drop_last()) + record_ops(rs.last())
    }
}

/// The number of entries that carry an anomaly code.
pub open spec fn anomaly_count(rs: Seq<TerminalHandlerLog>) -> nat
    decreases rs.len(),
{
    if rs.len() == 0 {
        0
    } else {
        anomaly_count(rs.drop_last()) + if rs.last().anomaly is Some { 1nat } else { 0nat }
    }
}

fn describe(r: &TerminalHandlerLog) -> (d: String)
    ensures
        d@ == description(*r),
{
    let mut d = String::from_str("Event: ");
    let event = fmt_debug_opt_string(&r.event_type);
    d.append(event.as_str());
    d.append(", HTTP: ");
    let status = fmt_debug_opt_i64(r.http_status_code);
    d.append(status.as_str());
    d.append(", exception: ");
    let exception = fmt_debug_opt_string(&r.exception_class);
    d.append(exception.as_str());
    d
}

fn fact_statements(r: &TerminalHandlerLog, name: &str, value: Option<i64>) -> (v: Vec<Statement>)
    ensures
        ops_view(v@) == fact_ops(*r, name@, value),
{
    match value {
        Some(x) => {
            let s = fact_statement(
                &r.timestamp,
                opt_text(&r.atm_id),
                "terminal_handler",
                text_str(name),
                SqlValue::IntegerAsReal(x),
                &r.anomaly,
            );
            let v = vec![s];
            assert(ops_view(v@) =~= fact_ops(*r, name@, value));
            v
        },
        None => {
            let v: Vec<Statement> = Vec::new();
            assert(ops_view(v@) =~= fact_ops(*r, name@, value));
            v
        },
    }
}

/// The statements one entry yields.
pub fn record_statements(r: &TerminalHandlerLog) -> (v: Vec<Statement>)
    ensures
        ops_view(v@) == record_ops(*r),
        forall|k: int| 0 <= k < v@.len() ==> binds_record(*r, (#[trigger] v@[k])@),
{
    let params = vec![
        text(&r.timestamp),
        opt_text(&r.log_level),
        opt_text(&r.event_type),
        opt_text(&r.message),
        opt_text(&r.container_id),
        opt_text(&r.correlation_id),
        opt_text(&r.transaction_id),
        opt_text(&r.atm_id),
        opt_int(r.response_time_ms),
        opt_int(r.http_status_code),
        opt_text(&r.exception_class),
        opt_text(&r.anomaly),
    ];
    let row = Statement { kind: StatementKind::InsertTerminal, params };
    assert(row@.params =~= staging_row(*r).params);
    let mut v = vec![row];
    assert(ops_view(v@) =~= seq![staging_row(*r)]);

    let mut response = fact_statements(r, "response_time_ms", r.response_time_ms);
    proof { lemma_ops_view_concat(v@, response@); }
    v.append(&mut response);
    let mut status = fact_statements(r, "http_status_code", r.http_status_code);
    proof { lemma_ops_view_concat(v@, status@); }
    v.append(&mut status);

    if let Some(code) = &r.anomaly {
        let severity = classify_severity(code.as_str());
        let a = anomaly_statement(
            &r.timestamp,
            opt_text(&r.atm_id),
            code,
            "terminal_handler_log",
            severity,
            describe(r),
        );
        let ghost before = v@;
        v.push(a);
        assert(ops_view(v@) =~= ops_view(before).push(a@));
    }
    assert(ops_view(v@) =~= record_ops(*r));
    proof {
        assert forall|k: int| 0 <= k < v@.len() implies binds_record(*r, (#[trigger] v@[k])@) by {
            assert(ops_view(v@)[k] == v@[k]@);
            lemma_rows_bind_named_columns(*r, k);
        }
    }
    v
}

/// The statements that loading a parsed log runs, in order, with the number
/// of entries loaded and the number of anomalies among them.
pub fn insert_plan(records: &Vec<TerminalHandlerLog>) -> (plan: InsertPlan)
    ensures
        ops_view(plan.statements@) == records_ops(records@),
        plan.inserted == records@.len(),
        plan.anomalies == anomaly_count(records@),
{
    let mut statements: Vec<Statement> = Vec::new();
    let mut anomalies: usize = 0;
    let mut i: usize = 0;
    while i < records.len()
        invariant
            i <= records@.len(),
            ops_view(statements@) == records_ops(records@.take(i as int)),
            anomalies == anomaly_count(records@.take(i as int)),
            anomalies <= i,
        decreases records@.len() - i,
    {
        let r = &records[i];
        let mut ops = record_statements(r);
        proof {
            let next = records@.take(i + 1);
            assert(next.drop_last() =~= records@.take(i as int));
            assert(next.last() == *r);
            lemma_ops_view_concat(statements@, ops@);
        }
        statements.append(&mut ops);
        if r.anomaly.is_some() {
            anomalies = anomalies + 1;
        }
        i = i + 1;
    }
    assert(records@.take(records@.len() as int) =~= records@);
    InsertPlan { statements, inserted: i, anomalies }
}

/// A load writes only rows of its own source: every statement it plans is a
/// staging row of the source's table, an anomaly recorded against that table,
/// a metric fact of the source, or an ATM registration.
pub proof fn lemma_ops_in_footprint(rs: Seq<TerminalHandlerLog>)
    ensures
        forall|k: int|
            0 <= k < records_ops(rs).len() ==> in_footprint(
                #[trigger] records_ops(rs)[k],
                Feed::TerminalHandler,
                "terminal_handler"@,
            ),
    decreases rs.len(),
{
    if rs.len() > 0 {
        lemma_ops_in_footprint(rs.drop_last());
        let a = records_ops(rs.drop_last());
        let b = record_ops(rs.last());
        assert forall|k: int| 0 <= k < records_ops(rs).len() implies in_footprint(
            #[trigger] records_ops(rs)[k],
            Feed::TerminalHandler,
            "terminal_handler"@,
        ) by {
            if k < a.len() {
                assert(records_ops(rs)[k] == a[k]);
            } else {
                assert(records_ops(rs)[k] == b[k - a.len()]);
            }
        }
    }
}

/// Loading the service log again replaces what an earlier load of it wrote: every row
/// that loading `rs` writes, ATM registrations aside, is removed by the
/// statements that clear source `"terminal_handler"` before the reload, and by those
/// of no other watched source.
pub proof fn lemma_reload_replaces_own_rows(rs: Seq<TerminalHandlerLog>, k: int, j: int)
    requires
        0 <= k < records_ops(rs).len(),
        0 <= j < watch_list().len(),
        !registers_atm(records_ops(rs)[k]),
    ensures
        removed_by(clear_ops(watch_list()[j].1), records_ops(rs)[k]) <==> watch_list()[j].2
            == Feed::TerminalHandler,
{
    lemma_ops_in_footprint(rs);
    lemma_clearing_targets_own_rows(6, j, records_ops(rs)[k]);
}

proof fn lemma_record_counts(r: TerminalHandlerLog)
    ensures
        count_kind(record_ops(r), StatementKind::InsertTerminal) == 1,
        count_kind(record_ops(r), StatementKind::InsertAnomaly) == if r.anomaly is Some {
            1nat
        } else {
            0nat
        },
{
    let p0 = seq![staging_row(r)];
    let p1 = fact_ops(r, "response_time_ms"@, r.response_time_ms);
    let p2 = fact_ops(r, "http_status_code"@, r.http_status_code);
    let p3 = anomaly_ops(r);
    assert(record_ops(r) =~= p0 + p1 + p2 + p3);
    lemma_count_kind_small(p0, StatementKind::InsertTerminal);
    lemma_count_kind_small(p1, StatementKind::InsertTerminal);
    lemma_count_kind_small(p2, StatementKind::InsertTerminal);
    lemma_count_kind_small(p3, StatementKind::InsertTerminal);
    lemma_count_kind_concat(p0, p1, StatementKind::InsertTerminal);
    lemma_count_kind_concat(p0 + p1, p2, StatementKind::InsertTerminal);
    lemma_count_kind_concat(p0 + p1 + p2, p3, StatementKind::InsertTerminal);
    lemma_count_kind_small(p0, StatementKind::InsertAnomaly);
    lemma_count_kind_small(p1, StatementKind::InsertAnomaly);
    lemma_count_kind_small(p2, StatementKind::InsertAnomaly);
    lemma_count_kind_small(p3, StatementKind::InsertAnomaly);
    lemma_count_kind_concat(p0, p1, StatementKind::InsertAnomaly);
    lemma_count_kind_concat(p0 + p1, p2, StatementKind::InsertAnomaly);
    lemma_count_kind_concat(p0 + p1 + p2, p3, StatementKind::InsertAnomaly);
}

/// The counts a load reports are the rows it writes: one staging row per
/// record, and one anomaly row per record that carries an anomaly code.
pub proof fn lemma_reported_counts_are_rows(rs: Seq<TerminalHandlerLog>)
    ensures
        count_kind(records_ops(rs), StatementKind::InsertTerminal) == rs.len(),
        count_kind(records_ops(rs), StatementKind::InsertAnomaly) == anomaly_count(rs),
    decreases rs.len(),
{
    if rs.len() > 0 {
        lemma_reported_counts_are_rows(rs.drop_last());
        lemma_record_counts(rs.last());
        lemma_count_kind_concat(records_ops(rs.drop_last()), record_ops(rs.last()), StatementKind::InsertTerminal);
        lemma_count_kind_concat(
            records_ops(rs.drop_last()),
            record_ops(rs.last()),
            StatementKind::InsertAnomaly,
        );
    }
}

/// The value that the rows of an entry bind to column `c`: the entry's
/// field of that name; NULL for a column that the
/// entry has no field for.
pub open spec fn record_field(r: TerminalHandlerLog, c: Column) -> SqlValueView {
    match c {
        Column::Timestamp => text_value(r.timestamp),
        Column::LogLevel => opt_text_value(r.log_level),
        Column::EventType => opt_text_value(r.event_type),
        Column::Message => opt_text_value(r.message),
        Column::ContainerId => opt_text_value(r.container_id),
        Column::CorrelationId => opt_text_value(r.correlation_id),
        Column::TransactionId => opt_text_value(r.transaction_id),
        Column::AtmId => opt_text_value(r.atm_id),
        Column::ResponseTimeMs => opt_int_value(r.response_time_ms),
        Column::HttpStatusCode => opt_int_value(r.http_status_code),
        Column::ExceptionClass => opt_text_value(r.exception_class),
        Column::Anomaly => opt_text_value(r.anomaly),
        _ => SqlValueView::Null,
    }
}

/// The value that the anomaly row of an entry binds to column `c`.
pub open spec fn anomaly_column(r: TerminalHandlerLog, c: Column) -> SqlValueView {
    match c {
        Column::AnomalyCode => opt_text_value(r.anomaly),
        Column::SourceTable => SqlValueView::Text("terminal_handler_log"@),
        Column::SourceId => SqlValueView::Integer(0),
        Column::Severity => match r.anomaly {
            Some(code) => SqlValueView::Text(severity_of(code@)),
            None => SqlValueView::Null,
        },
        Column::Description => SqlValueView::Text(description(r)),
        _ => record_field(r, c),
    }
}

/// The value that a statement of kind `kind` yielded by an entry binds to column `c`.
pub open spec fn column(r: TerminalHandlerLog, kind: StatementKind, c: Column) -> SqlValueView {
    if kind == StatementKind::InsertAnomaly {
        anomaly_column(r, c)
    } else {
        record_field(r, c)
    }
}

/// Whether statement `op` binds, at every position of its statement's column
/// list, the entry's value of that column.
pub open spec fn binds_named_columns(r: TerminalHandlerLog, op: StatementView) -> bool {
    op.params == insert_columns(op.kind).map_values(|c: Column| column(r, op.kind, c))
}

/// The value that the metric fact of reading `metric` binds to column `c`:
/// the source is `terminal_handler`, the metric name is the reading's column
/// name, the value is the entry's reading of that name, as a REAL.
pub open spec fn fact_column(r: TerminalHandlerLog, metric: Column, c: Column) -> SqlValueView {
    match c {
        Column::Source => SqlValueView::Text("terminal_handler"@),
        Column::MetricName => SqlValueView::Text(column_name(metric)),
        Column::MetricValue => as_real(record_field(r, metric)),
        _ => record_field(r, c),
    }
}

/// Whether `op` is the metric fact of one of the entry's integer readings
/// (`ResponseTimeMs`, `HttpStatusCode`), present in the entry, bound column by column.
pub open spec fn binds_reading_fact(r: TerminalHandlerLog, op: StatementView) -> bool {
    exists|m: Column|
        (m == Column::ResponseTimeMs || m == Column::HttpStatusCode) && record_field(r, m) is Integer && op.params == insert_columns(
            StatementKind::InsertFactMetric,
        ).map_values(|c: Column| fact_column(r, m, c))
}

/// Every row an entry yields binds, at each position of its statement's
/// column list, the value named by that column: the staging row
/// bind the entry's fields of the same names, the anomaly row binds the
/// anomaly code, `terminal_handler_log`, 0, the code's severity and the
/// description, and each metric fact binds one of the entry's present readings under its own column name.
pub proof fn lemma_rows_bind_named_columns(r: TerminalHandlerLog, k: int)
    requires
        0 <= k < record_ops(r).len(),
    ensures
        record_ops(r)[k].kind == StatementKind::InsertFactMetric ==> binds_reading_fact(r, record_ops(r)[k]),
        record_ops(r)[k].kind != StatementKind::InsertFactMetric ==> binds_named_columns(r, record_ops(r)[k]),
{
    let p0 = seq![staging_row(r)];
    let p1 = fact_ops(r, "response_time_ms"@, r.response_time_ms);
    let p2 = fact_ops(r, "http_status_code"@, r.http_status_code);
    let p3 = anomaly_ops(r);
    assert(record_ops(r) =~= p0 + p1 + p2 + p3);
    assert(staging_row(r).params =~= insert_columns(StatementKind::InsertTerminal).map_values(
        |c: Column| column(r, StatementKind::InsertTerminal, c),
    ));
    if r.anomaly is Some {
        assert(anomaly_ops(r)[0].params =~= insert_columns(StatementKind::InsertAnomaly).map_values(
            |c: Column| column(r, StatementKind::InsertAnomaly, c),
        ));
    }
    if r.response_time_ms is Some {
        let f = fact_ops(r, "response_time_ms"@, r.response_time_ms)[0];
        assert(f.params =~= insert_columns(StatementKind::InsertFactMetric).map_values(
            |c: Column| fact_column(r, Column::ResponseTimeMs, c),
        ));
        assert(binds_reading_fact(r, f));
    }
    if r.http_status_code is Some {
        let f = fact_ops(r, "http_status_code"@, r.http_status_code)[0];
        assert(f.params =~= insert_columns(StatementKind::InsertFactMetric).map_values(
            |c: Column| fact_column(r, Column::HttpStatusCode, c),
        ));
        assert(binds_reading_fact(r, f));
    }
    let q = p0 + p1 + p2 + p3;
    let op = q[k];
    if k < p0.len() {
        assert(op == p0[k]);
    } else if k < p0.len() + p1.len() {
        assert(op == p1[k - p0.len()]);
    } else if k < p0.len() + p1.len() + p2.len() {
        assert(op == p2[k - p0.len() - p1.len()]);
    } else {
        assert(op == p3[k - p0.len() - p1.len() - p2.len()]);
    }
}

/// Whether `op` takes its values from entry `r`: a metric fact binds one of
/// the entry's present readings, any other row binds the entry's values
/// column by column.
pub open spec fn binds_record(r: TerminalHandlerLog, op: StatementView) -> bool {
    if op.kind == StatementKind::InsertFactMetric {
        binds_reading_fact(r, op)
    } else {
        binds_named_columns(r, op)
    }
}

/// Every row that loading the entries writes takes its values, column by
/// column, from one entry of the input: no value lands in a column of
/// another name.
pub proof fn lemma_plan_rows_bind_named_columns(rs: Seq<TerminalHandlerLog>, k: int)
    requires
        0 <= k < records_ops(rs).len(),
    ensures
        exists|j: int| 0 <= j < rs.len() && binds_record(#[trigger] rs[j], records_ops(rs)[k]),
    decreases rs.len(),
{
    let a = records_ops(rs.drop_last());
    let b = record_ops(rs.last());
    assert(records_ops(rs) == a + b);
    if k < a.len() {
        lemma_plan_rows_bind_named_columns(rs.drop_last(), k);
        let j = choose|j: int| 0 <= j < rs.drop_last().len()
            && binds_record(#[trigger] rs.drop_last()[j], records_ops(rs.drop_last())[k]);
        assert(rs[j] == rs.drop_last()[j]);
        assert(records_ops(rs)[k] == a[k]);
    } else {
        lemma_rows_bind_named_columns(rs.last(), k - a.len());
        assert(records_ops(rs)[k] == b[k - a.len()]);
        assert(rs[rs.len() - 1] == rs.last());
    }
}

proof fn lemma_records_ops_concat(a: Seq<TerminalHandlerLog>, b: Seq<TerminalHandlerLog>)
    ensures
        records_ops(a + b) == records_ops(a) + records_ops(b),
    decreases b.len(),
{
    if b.len() == 0 {
        assert(a + b =~= a);
        assert(records_ops(a) + records_ops(b) =~= records_ops(a));
    } else {
        assert((a + b).drop_last() =~= a + b.drop_last());
        assert((a + b).last() == b.last());
        lemma_records_ops_concat(a, b.drop_last());
        assert(records_ops(a + b) =~= records_ops(a) + records_ops(b));
    }
}

/// Loading keeps the order of the input: the statements of record `j` begin
/// right after those of the records before it, with the staging row of record
/// `j`, which binds that record's values column by column.
pub proof fn lemma_plan_keeps_input_order(rs: Seq<TerminalHandlerLog>, j: int)
    requires
        0 <= j < rs.len(),
    ensures
        records_ops(rs.take(j)).len() < records_ops(rs).len(),
        records_ops(rs)[records_ops(rs.take(j)).len() as int].kind == StatementKind::InsertTerminal,
        binds_named_columns(rs[j], records_ops(rs)[records_ops(rs.take(j)).len() as int]),
{
    let head = rs.take(j);
    let one = seq![rs[j]];
    let tail = rs.skip(j + 1);
    assert(rs =~= head + (one + tail));
    lemma_records_ops_concat(head, one + tail);
    lemma_records_ops_concat(one, tail);
    assert(one.drop_last() =~= Seq::<TerminalHandlerLog>::empty());
    assert(one.last() == rs[j]);
    assert(records_ops(one.drop_last()).len() == 0);
    assert(records_ops(one) =~= record_ops(rs[j]));
    lemma_rows_bind_named_columns(rs[j], 0);
    assert(records_ops(rs)[records_ops(head).len() as int] == record_ops(rs[j])[0]);
}

} // verus!
