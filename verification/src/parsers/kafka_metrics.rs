//! Kafka ATM transaction stream (`kafka_atm_metrics_stream.json`).

use vstd::prelude::*;
use vstd::string::*;
use crate::db::{
    insert_columns, Column,
    count_kind, lemma_count_kind_concat, lemma_count_kind_small,
    anomaly_row, anomaly_statement, lemma_ops_view_concat, opt_int, opt_int_value, opt_text,
    opt_text_value, ops_view, text, text_value, InsertPlan, SqlValueView, Statement,
    StatementKind, StatementView,
};
use crate::models::{opt_real, opt_real_value, KafkaAtmMetric};
use crate::watcher::{
    clear_ops, in_footprint, lemma_clearing_targets_own_rows, registers_atm, removed_by, watch_list,
    Feed,
};
use crate::text::{debug_opt_string, fmt_debug_opt_string, str_eq};

verus! {

/// Severity of an anomaly code seen in the Kafka stream.
pub open spec fn severity_of(code: Seq<char>) -> Seq<char> {
    if code == "A1"@ {
        "WARNING"@
    } else if code == "A2"@ {
        "WARNING"@
    } else if code == "A3"@ {
        "WARNING"@
    } else if code == "A4"@ {
        "CRITICAL"@
    } else if code == "A5"@ {
        "CRITICAL"@
    } else if code == "A6"@ {
        "WARNING"@
    } else if code == "A7_OUT_OF_ORDER"@ {
        "CRITICAL"@
    } else if code == "A7_MALFORMED"@ {
        "WARNING"@
    } else {
        "INFO"@
    }
}

/// Classifies the severity of an anomaly code.
pub fn classify_severity(code: &str) -> (r: &'static str)
    ensures
        r@ == severity_of(code@),
{
    if str_eq(code, "A1") {
        "WARNING"
    } else if str_eq(code, "A2") {
        "WARNING"
    } else if str_eq(code, "A3") {
        "WARNING"
    } else if str_eq(code, "A4") {
        "CRITICAL"
    } else if str_eq(code, "A5") {
        "CRITICAL"
    } else if str_eq(code, "A6") {
        "WARNING"
    } else if str_eq(code, "A7_OUT_OF_ORDER") {
        "CRITICAL"
    } else if str_eq(code, "A7_MALFORMED") {
        "WARNING"
    } else {
        "INFO"
    }
}

/// The description stored with an anomaly of the stream.
pub open spec fn description(r: KafkaAtmMetric) -> Seq<char> {
    "ATM status: "@ + debug_opt_string(r.atm_status) + ", failure: "@ + debug_opt_string(
        r.transaction_failure_reason,
    )
}

/// The statements one event yields: its staging row, then its anomaly when it carries one.
pub open spec fn record_ops(r: KafkaAtmMetric) -> Seq<StatementView> {
    let row = StatementView {
        kind: StatementKind::InsertKafka,
        params: seq![
            text_value(r.timestamp),
            text_value(r.event_id),
            text_value(r.atm_id),
            opt_text_value(r.atm_status),
            opt_real_value(r.transaction_rate_tps),
            opt_int_value(r.response_time_ms),
            opt_int_value(r.transaction_volume),
            opt_real_value(r.transaction_success_rate),
            opt_text_value(r.transaction_failure_reason),
            opt_int_value(r.failure_count),
            opt_text_value(r.anomaly),
        ],
    };
    match r.anomaly {
        Some(code) => seq![
            row,
            anomaly_row(
                r.timestamp@,
                text_value(r.atm_id),
                code@,
                "kafka_atm_metrics"@,
                severity_of(code@),
                description(r),
            ),
        ],
        None => seq![row],
    }
}

/// The statements a sequence of events yields, event after event.
pub open spec fn records_ops(rs: Seq<KafkaAtmMetric>) -> Seq<StatementView>
    decreases rs.len(),
{
    if rs.len() == 0 {
        seq![]
    } else {
        records_ops(rs.drop_last()) + record_ops(rs.last())
    }
}

/// The number of events that carry an anomaly code.
pub open spec fn anomaly_count(rs: Seq<KafkaAtmMetric>) -> nat
    decreases rs.len(),
{
    if rs.len() == 0 {
        0
    } else {
        anomaly_count(rs.drop_last()) + if rs.last().anomaly is Some { 1nat } else { 0nat }
    }
}

fn describe(r: &KafkaAtmMetric) -> (d: String)
    ensures
        d@ == description(*r),
{
    let mut d = String::from_str("ATM status: ");
    let status = fmt_debug_opt_string(&r.atm_status);
    d.append(status.as_str());
    d.append(", failure: ");
    let failure = fmt_debug_opt_string(&r.transaction_failure_reason);
    d.append(failure.as_str());
    d
}

/// The statements one event yields.
pub fn record_statements(r: &KafkaAtmMetric) -> (v: Vec<Statement>)
    ensures
        ops_view(v@) == record_ops(*r),
        forall|k: int| 0 <= k < v@.len() ==> binds_named_columns(*r, (#[trigger] v@[k])@),
{
    let params = vec![
        text(&r.timestamp),
        text(&r.event_id),
        text(&r.atm_id),
        opt_text(&r.atm_status),
        opt_real(&r.transaction_rate_tps),
        opt_int(r.response_time_ms),
        opt_int(r.transaction_volume),
        opt_real(&r.transaction_success_rate),
        opt_text(&r.transaction_failure_reason),
        opt_int(r.failure_count),
        opt_text(&r.anomaly),
    ];
    let row = Statement { kind: StatementKind::InsertKafka, params };
    let ghost spec_row = record_ops(*r)[0];
    assert(row@.params =~= spec_row.params);
    let mut v = vec![row];
    if let Some(code) = &r.anomaly {
        let severity = classify_severity(code.as_str());
        let a = anomaly_statement(
            &r.timestamp,
            text(&r.atm_id),
            code,
            "kafka_atm_metrics",
            severity,
            describe(r),
        );
        v.push(a);
    }
    assert(ops_view(v@) =~= record_ops(*r));
    proof {
        assert forall|k: int| 0 <= k < v@.len() implies binds_named_columns(
            *r,
            (#[trigger] v@[k])@,
        ) by {
            assert(ops_view(v@)[k] == v@[k]@);
            lemma_rows_bind_named_columns(*r, k);
        }
    }
    v
}

/// The statements that loading a parsed stream runs, in order, with the
/// number of events loaded and the number of anomalies among them.
pub fn insert_plan(records: &Vec<KafkaAtmMetric>) -> (plan: InsertPlan)
    ensures
        ops_view(plan.statements@) == records_ops(records@),
        plan.inserted == records@.len(),
        plan.anomalies == anomaly_count(records@),
{
    let mut statements: Vec<Statement> = Vec::new();
    let mut anomalies: usize = 0;
    let mut i: usize = 0;
    while i < records.len()
        invariant
            i <= records@.len(),
            ops_view(statements@) == records_ops(records@.take(i as int)),
            anomalies == anomaly_count(records@.take(i as int)),
            anomalies <= i,
        decreases records@.len() - i,
    {
        let r = &records[i];
        let mut ops = record_statements(r);
        proof {
            let next = records@.take(i + 1);
            assert(next.drop_last() =~= records@.take(i as int));
            assert(next.last() == *r);
            lemma_ops_view_concat(statements@, ops@);
        }
        statements.append(&mut ops);
        if r.anomaly.is_some() {
            anomalies = anomalies + 1;
        }
        i = i + 1;
    }
    assert(records@.take(records@.len() as int) =~= records@);
    InsertPlan { statements, inserted: i, anomalies }
}

/// A load writes only rows of its own source: every statement it plans is a
/// staging row of the source's table, an anomaly recorded against that table,
/// a metric fact of the source, or an ATM registration.
pub proof fn lemma_ops_in_footprint(rs: Seq<KafkaAtmMetric>)
    ensures
        forall|k: int|
            0 <= k < records_ops(rs).len() ==> in_footprint(
                #[trigger] records_ops(rs)[k],
                Feed::Kafka,
                "kafka"@,
            ),
    decreases rs.len(),
{
    if rs.len() > 0 {
        lemma_ops_in_footprint(rs.drop_last());
        let a = records_ops(rs.drop_last());
        let b = record_ops(rs.last());
        assert forall|k: int| 0 <= k < records_ops(rs).len() implies in_footprint(
            #[trigger] records_ops(rs)[k],
            Feed::Kafka,
            "kafka"@,
        ) by {
            if k < a.len() {
                assert(records_ops(rs)[k] == a[k]);
            } else {
                assert(records_ops(rs)[k] == b[k - a.len()]);
            }
        }
    }
}

/// Loading the stream again replaces what an earlier load of it wrote: every row
/// that loading `rs` writes, ATM registrations aside, is removed by the
/// statements that clear source `"kafka"` before the reload, and by those
/// of no other watched source.
pub proof fn lemma_reload_replaces_own_rows(rs: Seq<KafkaAtmMetric>, k: int, j: int)
    requires
        0 <= k < records_ops(rs).len(),
        0 <= j < watch_list().len(),
        !registers_atm(records_ops(rs)[k]),
    ensures
        removed_by(clear_ops(watch_list()[j].1), records_ops(rs)[k]) <==> watch_list()[j].2
            == Feed::Kafka,
{
    lemma_ops_in_footprint(rs);
    lemma_clearing_targets_own_rows(0, j, records_ops(rs)[k]);
}

proof fn lemma_record_counts(r: KafkaAtmMetric)
    ensures
        count_kind(record_ops(r), StatementKind::InsertKafka) == 1,
        count_kind(record_ops(r), StatementKind::InsertAnomaly) == if r.anomaly is Some {
            1nat
        } else {
            0nat
        },
{
    let p0 = record_ops(r).take(1);
    let p1 = record_ops(r).skip(1);
    assert(record_ops(r) =~= p0 + p1);
    lemma_count_kind_small(p0, StatementKind::InsertKafka);
    lemma_count_kind_small(p1, StatementKind::InsertKafka);
    lemma_count_kind_concat(p0, p1, StatementKind::InsertKafka);
    lemma_count_kind_small(p0, StatementKind::InsertAnomaly);
    lemma_count_kind_small(p1, StatementKind::InsertAnomaly);
    lemma_count_kind_concat(p0, p1, StatementKind::InsertAnomaly);
}

/// The counts a load reports are the rows it writes: one staging row per
/// record, and one anomaly row per record that carries an anomaly code.
pub proof fn lemma_reported_counts_are_rows(rs: Seq<KafkaAtmMetric>)
    ensures
        count_kind(records_ops(rs), StatementKind::InsertKafka) == rs.len(),
        count_kind(records_ops(rs), StatementKind::InsertAnomaly) == anomaly_count(rs),
    decreases rs.len(),
{
    if rs.len() > 0 {
        lemma_reported_counts_are_rows(rs.drop_last());
        lemma_record_counts(rs.last());
        lemma_count_kind_concat(records_ops(rs.drop_last()), record_ops(rs.last()), StatementKind::InsertKafka);
        lemma_count_kind_concat(
            records_ops(rs.drop_last()),
            record_ops(rs.last()),
            StatementKind::InsertAnomaly,
        );
    }
}

/// The value that the rows of an event bind to column `c`: the event's
/// field of that name; NULL for a column that the
/// event has no field for.
pub open spec fn record_field(r: KafkaAtmMetric, c: Column) -> SqlValueView {
    match c {
        Column::Timestamp => text_value(r.timestamp),
        Column::EventId => text_value(r.event_id),
        Column::AtmId => text_value(r.atm_id),
        Column::AtmStatus => opt_text_value(r.atm_status),
        Column::TransactionRateTps => opt_real_value(r.transaction_rate_tps),
        Column::ResponseTimeMs => opt_int_value(r.response_time_ms),
        Column::TransactionVolume => opt_int_value(r.transaction_volume),
        Column::TransactionSuccessRate => opt_real_value(r.transaction_success_rate),
        Column::TransactionFailureReason => opt_text_value(r.transaction_failure_reason),
        Column::FailureCount => opt_int_value(r.failure_count),
        Column::Anomaly => opt_text_value(r.anomaly),
        _ => SqlValueView::Null,
    }
}

/// The value that the anomaly row of an event binds to column `c`.
pub open spec fn anomaly_column(r: KafkaAtmMetric, c: Column) -> SqlValueView {
    match c {
        Column::AnomalyCode => opt_text_value(r.anomaly),
        Column::SourceTable => SqlValueView::Text("kafka_atm_metrics"@),
        Column::SourceId => SqlValueView::Integer(0),
        Column::Severity => match r.anomaly {
            Some(code) => SqlValueView::Text(severity_of(code@)),
            None => SqlValueView::Null,
        },
        Column::Description => SqlValueView::Text(description(r)),
        _ => record_field(r, c),
    }
}

/// The value that a statement of kind `kind` yielded by an event binds to column `c`.
pub open spec fn column(r: KafkaAtmMetric, kind: StatementKind, c: Column) -> SqlValueView {
    if kind == StatementKind::InsertAnomaly {
        anomaly_column(r, c)
    } else {
        record_field(r, c)
    }
}

/// Whether statement `op` binds, at every position of its statement's column
/// list, the event's value of that column.
pub open spec fn binds_named_columns(r: KafkaAtmMetric, op: StatementView) -> bool {
    op.params == insert_columns(op.kind).map_values(|c: Column| column(r, op.kind, c))
}

/// Every row an event yields binds, at each position of its statement's
/// column list, the value named by that column: the staging row binds the
/// event's fields of the same names, the anomaly row binds the anomaly code,
/// `kafka_atm_metrics`, 0, the code's severity and the description.
pub proof fn lemma_rows_bind_named_columns(r: KafkaAtmMetric, k: int)
    requires
        0 <= k < record_ops(r).len(),
    ensures
        binds_named_columns(r, record_ops(r)[k]),
{
    assert(record_ops(r)[0].params =~= insert_columns(StatementKind::InsertKafka).map_values(
        |c: Column| column(r, StatementKind::InsertKafka, c),
    ));
    if r.anomaly is Some {
        assert(record_ops(r)[1].params =~= insert_columns(StatementKind::InsertAnomaly).map_values(
            |c: Column| column(r, StatementKind::InsertAnomaly, c),
        ));
    }
}

/// Every row that loading the events writes takes its values, column by
/// column, from one event of the input: no value lands in a column of
/// another name.
pub proof fn lemma_plan_rows_bind_named_columns(rs: Seq<KafkaAtmMetric>, k: int)
    requires
        0 <= k < records_ops(rs).len(),
    ensures
        exists|j: int| 0 <= j < rs.len() && binds_named_columns(#[trigger] rs[j], records_ops(rs)[k]),
    decreases rs.len(),
{
    let a = records_ops(rs.drop_last());
    let b = record_ops(rs.last());
    assert(records_ops(rs) == a + b);
    if k < a.len() {
        lemma_plan_rows_bind_named_columns(rs.drop_last(), k);
        let j = choose|j: int| 0 <= j < rs.drop_last().len()
            && binds_named_columns(#[trigger] rs.drop_last()[j], records_ops(rs.drop_last())[k]);
        assert(rs[j] == rs.drop_last()[j]);
        assert(records_ops(rs)[k] == a[k]);
    } else {
        lemma_rows_bind_named_columns(rs.last(), k - a.len());
        assert(records_ops(rs)[k] == b[k - a.len()]);
        assert(rs[rs.len() - 1] == rs.last());
    }
}

proof fn lemma_records_ops_concat(a: Seq<KafkaAtmMetric>, b: Seq<KafkaAtmMetric>)
    ensures
        records_ops(a + b) == records_ops(a) + records_ops(b),
    decreases b.len(),
{
    if b.len() == 0 {
        assert(a + b =~= a);
        assert(records_ops(a) + records_ops(b) =~= records_ops(a));
    } else {
        assert((a + b).drop_last() =~= a + b.drop_last());
        assert((a + b).last() == b.last());
        lemma_records_ops_concat(a, b.drop_last());
        assert(records_ops(a + b) =~= records_ops(a) + records_ops(b));
    }
}

/// Loading keeps the order of the input: the statements of record `j` begin
/// right after those of the records before it, with the staging row of record
/// `j`, which binds that record's values column by column.
pub proof fn lemma_plan_keeps_input_order(rs: Seq<KafkaAtmMetric>, j: int)
    requires
        0 <= j < rs.len(),
    ensures
        records_ops(rs.take(j)).len() < records_ops(rs).len(),
        records_ops(rs)[records_ops(rs.take(j)).len() as int].kind == StatementKind::InsertKafka,
        binds_named_columns(rs[j], records_ops(rs)[records_ops(rs.take(j)).len() as int]),
{
    let head = rs.take(j);
    let one = seq![rs[j]];
    let tail = rs.skip(j + 1);
    assert(rs =~= head + (one + tail));
    lemma_records_ops_concat(head, one + tail);
    lemma_records_ops_concat(one, tail);
    assert(one.drop_last() =~= Seq::<KafkaAtmMetric>::empty());
    assert(one.last() == rs[j]);
    assert(records_ops(one.drop_last()).len() == 0);
    assert(records_ops(one) =~= record_ops(rs[j]));
    lemma_rows_bind_named_columns(rs[j], 0);
    assert(records_ops(rs)[records_ops(head).len() as int] == record_ops(rs[j])[0]);
}

} // verus!
