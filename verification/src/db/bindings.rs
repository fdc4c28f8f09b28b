//! How the SQL text of the INSERT statements binds parameters to columns.

use vstd::prelude::*;
use crate::db::{column_name, insert_columns, spec_sql, Column, StatementKind};

verus! {

/// The text of a column list: the names of `cols` in order, a comma between
/// two names, followed by a line break and a space before the name whose
/// index `breaks` holds, by a space before any other.
pub open spec fn column_list(cols: Seq<Column>, breaks: Set<int>) -> Seq<char>
    decreases cols.len(),
{
    if cols.len() <= 1 {
        if cols.len() == 0 {
            seq![]
        } else {
            column_name(cols[0])
        }
    } else {
        column_list(cols.drop_last(), breaks) + (if breaks.contains(cols.len() - 1) {
            ",\n "@
        } else {
            ", "@
        }) + column_name(cols.last())
    }
}

/// Whether `sql` holds, from position `start`, the bracketed column list of `cols`.
pub open spec fn lists_columns_at(sql: Seq<char>, cols: Seq<Column>, start: int, breaks: Set<int>) -> bool {
    let list = "("@ + column_list(cols, breaks) + ")"@;
    0 <= start && start + list.len() <= sql.len() && sql.subrange(start, start + list.len()) == list
}

/// The decimal digits of `n`.
pub open spec fn decimal(n: nat) -> Seq<char>
    decreases n,
{
    if n < 10 {
        seq![(n + 48) as char]
    } else {
        decimal(n / 10) + seq![((n % 10) + 48) as char]
    }
}

/// The placeholders `?1` to `?n` in order, `sep` between two of them.
pub open spec fn placeholder_list(n: nat, sep: Seq<char>) -> Seq<char>
    decreases n,
{
    if n <= 1 {
        if n == 0 {
            seq![]
        } else {
            "?1"@
        }
    } else {
        placeholder_list((n - 1) as nat, sep) + sep + "?"@ + decimal(n)
    }
}

/// Whether `sql` holds, from position `start`, a VALUES list of the
/// placeholders `?1` to `?n` in order.
pub open spec fn binds_placeholders_at(sql: Seq<char>, n: nat, start: int, sep: Seq<char>) -> bool {
    let list = "VALUES ("@ + placeholder_list(n, sep) + ")"@;
    0 <= start && start + list.len() <= sql.len() && sql.subrange(start, start + list.len()) == list
}

/// Whether `sql` holds, from position `start`, a VALUES list of the
/// placeholders `?1` to `?n` in order, `?n` once more at its end.
pub open spec fn repeats_last_placeholder_at(sql: Seq<char>, n: nat, start: int) -> bool {
    let list = "VALUES ("@ + placeholder_list(n, ", "@) + ", ?"@ + decimal(n) + ")"@;
    0 <= start && start + list.len() <= sql.len() && sql.subrange(start, start + list.len()) == list
}

/// Whether statement kind `k` registers an ATM.
pub open spec fn registers_atm_kind(k: StatementKind) -> bool {
    k == StatementKind::InsertDimAtmWindows || k == StatementKind::InsertDimAtmHardware
        || k == StatementKind::InsertDimAtmApp
}

/// Whether the parameters of statement kind `k` are bound one to a column:
/// every INSERT but the ATM registrations, which bind their first sighting
/// to both `first_seen` and `last_seen`.
pub open spec fn binds_one_to_one(k: StatementKind) -> bool {
    k == StatementKind::InsertKafka || k == StatementKind::InsertWindows || k == StatementKind::InsertGcp || k == StatementKind::InsertPrometheus || k == StatementKind::InsertHardware || k == StatementKind::InsertAtmApp || k == StatementKind::InsertTerminal || k == StatementKind::InsertAnomaly || k == StatementKind::InsertFactMetric || k == StatementKind::InsertDimSource
}

proof fn lemma_kafka_sql()
    ensures
        lists_columns_at(spec_sql(StatementKind::InsertKafka), insert_columns(StatementKind::InsertKafka), 41, set!{5int, 8int}),
        binds_placeholders_at(spec_sql(StatementKind::InsertKafka), 11, 223, ","@),
{
    reveal_strlit("\nINSERT OR IGNORE INTO kafka_atm_metrics\n(timestamp, event_id, atm_id, atm_status, transaction_rate_tps,\n response_time_ms, transaction_volume, transaction_success_rate,\n transaction_failure_reason, failure_count, anomaly)\nVALUES (?1,?2,?3,?4,?5,?6,?7,?8,?9,?10,?11)\n");
    reveal_strlit("(");
    reveal_strlit(")");
    reveal_strlit(",");
    reveal_strlit(",\n ");
    reveal_strlit(", ");
    reveal_strlit("?");
    reveal_strlit("?1");
    reveal_strlit("VALUES (");
    reveal_strlit("anomaly");
    reveal_strlit("atm_id");
    reveal_strlit("atm_status");
    reveal_strlit("event_id");
    reveal_strlit("failure_count");
    reveal_strlit("response_time_ms");
    reveal_strlit("timestamp");
    reveal_strlit("transaction_failure_reason");
    reveal_strlit("transaction_rate_tps");
    reveal_strlit("transaction_success_rate");
    reveal_strlit("transaction_volume");
    let sql = spec_sql(StatementKind::InsertKafka);
    assert(sql == "\nINSERT OR IGNORE INTO kafka_atm_metrics\n(timestamp, event_id, atm_id, atm_status, transaction_rate_tps,\n response_time_ms, transaction_volume, transaction_success_rate,\n transaction_failure_reason, failure_count, anomaly)\nVALUES (?1,?2,?3,?4,?5,?6,?7,?8,?9,?10,?11)\n"@);
    let cols = insert_columns(StatementKind::InsertKafka);
    let breaks: Set<int> = set!{5int, 8int};
    let l1 = "timestamp"@;
    assert(cols.take(1).drop_last() =~= cols.take(0));
    assert(column_list(cols.take(1), breaks) == l1);
    let l2 = l1 + ", "@ + "event_id"@;
    assert(cols.take(2).drop_last() =~= cols.take(1));
    assert(column_list(cols.take(2), breaks) == l2);
    let l3 = l2 + ", "@ + "atm_id"@;
    assert(cols.take(3).drop_last() =~= cols.take(2));
    assert(column_list(cols.take(3), breaks) == l3);
    let l4 = l3 + ", "@ + "atm_status"@;
    assert(cols.take(4).drop_last() =~= cols.take(3));
    assert(column_list(cols.take(4), breaks) == l4);
    let l5 = l4 + ", "@ + "transaction_rate_tps"@;
    assert(cols.take(5).drop_last() =~= cols.take(4));
    assert(column_list(cols.take(5), breaks) == l5);
    let l6 = l5 + ",\n "@ + "response_time_ms"@;
    assert(cols.take(6).drop_last() =~= cols.take(5));
    assert(column_list(cols.take(6), breaks) == l6);
    let l7 = l6 + ", "@ + "transaction_volume"@;
    assert(cols.take(7).drop_last() =~= cols.take(6));
    assert(column_list(cols.take(7), breaks) == l7);
    let l8 = l7 + ", "@ + "transaction_success_rate"@;
    assert(cols.take(8).drop_last() =~= cols.take(7));
    assert(column_list(cols.take(8), breaks) == l8);
    let l9 = l8 + ",\n "@ + "transaction_failure_reason"@;
    assert(cols.take(9).drop_last() =~= cols.take(8));
    assert(column_list(cols.take(9), breaks) == l9);
    let l10 = l9 + ", "@ + "failure_count"@;
    assert(cols.take(10).drop_last() =~= cols.take(9));
    assert(column_list(cols.take(10), breaks) == l10);
    let l11 = l10 + ", "@ + "anomaly"@;
    assert(cols.take(11).drop_last() =~= cols.take(10));
    assert(column_list(cols.take(11), breaks) == l11);
    assert(cols.take(11) =~= cols);
    let list = "("@ + l11 + ")"@;
    assert(sql.subrange(41, 41 + list.len() as int) =~= list);
    let p1 = "?1"@;
    assert(placeholder_list(1, ","@) == p1);
    assert(decimal(2) =~= seq!['2']);
    let p2 = p1 + ","@ + "?"@ + decimal(2);
    assert(placeholder_list(2, ","@) == p2);
    assert(decimal(3) =~= seq!['3']);
    let p3 = p2 + ","@ + "?"@ + decimal(3);
    assert(placeholder_list(3, ","@) == p3);
    assert(decimal(4) =~= seq!['4']);
    let p4 = p3 + ","@ + "?"@ + decimal(4);
    assert(placeholder_list(4, ","@) == p4);
    assert(decimal(5) =~= seq!['5']);
    let p5 = p4 + ","@ + "?"@ + decimal(5);
    assert(placeholder_list(5, ","@) == p5);
    assert(decimal(6) =~= seq!['6']);
    let p6 = p5 + ","@ + "?"@ + decimal(6);
    assert(placeholder_list(6, ","@) == p6);
    assert(decimal(7) =~= seq!['7']);
    let p7 = p6 + ","@ + "?"@ + decimal(7);
    assert(placeholder_list(7, ","@) == p7);
    assert(decimal(8) =~= seq!['8']);
    let p8 = p7 + ","@ + "?"@ + decimal(8);
    assert(placeholder_list(8, ","@) == p8);
    assert(decimal(9) =~= seq!['9']);
    let p9 = p8 + ","@ + "?"@ + decimal(9);
    assert(placeholder_list(9, ","@) == p9);
    assert(decimal(1) =~= seq!['1']);
    assert(decimal(10) =~= seq!['1', '0']);
    let p10 = p9 + ","@ + "?"@ + decimal(10);
    assert(placeholder_list(10, ","@) == p10);
    assert(decimal(1) =~= seq!['1']);
    assert(decimal(11) =~= seq!['1', '1']);
    let p11 = p10 + ","@ + "?"@ + decimal(11);
    assert(placeholder_list(11, ","@) == p11);
    let values = "VALUES ("@ + p11 + ")"@;
    assert(sql.subrange(223, 223 + values.len() as int) =~= values);
}

proof fn lemma_windows_sql()
    ensures
        lists_columns_at(spec_sql(StatementKind::InsertWindows), insert_columns(StatementKind::InsertWindows), 32, set!{5int}),
        binds_placeholders_at(spec_sql(StatementKind::InsertWindows), 10, 176, ","@),
{
    reveal_strlit("\nINSERT INTO windows_os_metrics\n(timestamp, atm_id, hostname, cpu_usage_percent, memory_used_mb,\n memory_total_mb, memory_usage_percent, disk_free_gb, network_errors, anomaly)\nVALUES (?1,?2,?3,?4,?5,?6,?7,?8,?9,?10)\n");
    reveal_strlit("(");
    reveal_strlit(")");
    reveal_strlit(",");
    reveal_strlit(",\n ");
    reveal_strlit(", ");
    reveal_strlit("?");
    reveal_strlit("?1");
    reveal_strlit("VALUES (");
    reveal_strlit("anomaly");
    reveal_strlit("atm_id");
    reveal_strlit("cpu_usage_percent");
    reveal_strlit("disk_free_gb");
    reveal_strlit("hostname");
    reveal_strlit("memory_total_mb");
    reveal_strlit("memory_usage_percent");
    reveal_strlit("memory_used_mb");
    reveal_strlit("network_errors");
    reveal_strlit("timestamp");
    let sql = spec_sql(StatementKind::InsertWindows);
    assert(sql == "\nINSERT INTO windows_os_metrics\n(timestamp, atm_id, hostname, cpu_usage_percent, memory_used_mb,\n memory_total_mb, memory_usage_percent, disk_free_gb, network_errors, anomaly)\nVALUES (?1,?2,?3,?4,?5,?6,?7,?8,?9,?10)\n"@);
    let cols = insert_columns(StatementKind::InsertWindows);
    let breaks: Set<int> = set!{5int};
    let l1 = "timestamp"@;
    assert(cols.take(1).drop_last() =~= cols.take(0));
    assert(column_list(cols.take(1), breaks) == l1);
    let l2 = l1 + ", "@ + "atm_id"@;
    assert(cols.take(2).drop_last() =~= cols.take(1));
    assert(column_list(cols.take(2), breaks) == l2);
    let l3 = l2 + ", "@ + "hostname"@;
    assert(cols.take(3).drop_last() =~= cols.take(2));
    assert(column_list(cols.take(3), breaks) == l3);
    let l4 = l3 + ", "@ + "cpu_usage_percent"@;
    assert(cols.take(4).drop_last() =~= cols.take(3));
    assert(column_list(cols.take(4), breaks) == l4);
    let l5 = l4 + ", "@ + "memory_used_mb"@;
    assert(cols.take(5).drop_last() =~= cols.take(4));
    assert(column_list(cols.take(5), breaks) == l5);
    let l6 = l5 + ",\n "@ + "memory_total_mb"@;
    assert(cols.take(6).drop_last() =~= cols.take(5));
    assert(column_list(cols.take(6), breaks) == l6);
    let l7 = l6 + ", "@ + "memory_usage_percent"@;
    assert(cols.take(7).drop_last() =~= cols.take(6));
    assert(column_list(cols.take(7), breaks) == l7);
    let l8 = l7 + ", "@ + "disk_free_gb"@;
    assert(cols.take(8).drop_last() =~= cols.take(7));
    assert(column_list(cols.take(8), breaks) == l8);
    let l9 = l8 + ", "@ + "network_errors"@;
    assert(cols.take(9).drop_last() =~= cols.take(8));
    assert(column_list(cols.take(9), breaks) == l9);
    let l10 = l9 + ", "@ + "anomaly"@;
    assert(cols.take(10).drop_last() =~= cols.take(9));
    assert(column_list(cols.take(10), breaks) == l10);
    assert(cols.take(10) =~= cols);
    let list = "("@ + l10 + ")"@;
    assert(sql.subrange(32, 32 + list.len() as int) =~= list);
    let p1 = "?1"@;
    assert(placeholder_list(1, ","@) == p1);
    assert(decimal(2) =~= seq!['2']);
    let p2 = p1 + ","@ + "?"@ + decimal(2);
    assert(placeholder_list(2, ","@) == p2);
    assert(decimal(3) =~= seq!['3']);
    let p3 = p2 + ","@ + "?"@ + decimal(3);
    assert(placeholder_list(3, ","@) == p3);
    assert(decimal(4) =~= seq!['4']);
    let p4 = p3 + ","@ + "?"@ + decimal(4);
    assert(placeholder_list(4, ","@) == p4);
    assert(decimal(5) =~= seq!['5']);
    let p5 = p4 + ","@ + "?"@ + decimal(5);
    assert(placeholder_list(5, ","@) == p5);
    assert(decimal(6) =~= seq!['6']);
    let p6 = p5 + ","@ + "?"@ + decimal(6);
    assert(placeholder_list(6, ","@) == p6);
    assert(decimal(7) =~= seq!['7']);
    let p7 = p6 + ","@ + "?"@ + decimal(7);
    assert(placeholder_list(7, ","@) == p7);
    assert(decimal(8) =~= seq!['8']);
    let p8 = p7 + ","@ + "?"@ + decimal(8);
    assert(placeholder_list(8, ","@) == p8);
    assert(decimal(9) =~= seq!['9']);
    let p9 = p8 + ","@ + "?"@ + decimal(9);
    assert(placeholder_list(9, ","@) == p9);
    assert(decimal(1) =~= seq!['1']);
    assert(decimal(10) =~= seq!['1', '0']);
    let p10 = p9 + ","@ + "?"@ + decimal(10);
    assert(placeholder_list(10, ","@) == p10);
    let values = "VALUES ("@ + p10 + ")"@;
    assert(sql.subrange(176, 176 + values.len() as int) =~= values);
}

proof fn lemma_gcp_sql()
    ensures
        lists_columns_at(spec_sql(StatementKind::InsertGcp), insert_columns(StatementKind::InsertGcp), 31, set!{5int}),
        binds_placeholders_at(spec_sql(StatementKind::InsertGcp), 8, 147, ","@),
{
    reveal_strlit("\nINSERT INTO gcp_cloud_metrics\n(timestamp, resource_type, resource_id, metric_name, metric_value,\n cpu_usage_percent, memory_usage_bytes, anomaly)\nVALUES (?1,?2,?3,?4,?5,?6,?7,?8)\n");
    reveal_strlit("(");
    reveal_strlit(")");
    reveal_strlit(",");
    reveal_strlit(",\n ");
    reveal_strlit(", ");
    reveal_strlit("?");
    reveal_strlit("?1");
    reveal_strlit("VALUES (");
    reveal_strlit("anomaly");
    reveal_strlit("cpu_usage_percent");
    reveal_strlit("memory_usage_bytes");
    reveal_strlit("metric_name");
    reveal_strlit("metric_value");
    reveal_strlit("resource_id");
    reveal_strlit("resource_type");
    reveal_strlit("timestamp");
    let sql = spec_sql(StatementKind::InsertGcp);
    assert(sql == "\nINSERT INTO gcp_cloud_metrics\n(timestamp, resource_type, resource_id, metric_name, metric_value,\n cpu_usage_percent, memory_usage_bytes, anomaly)\nVALUES (?1,?2,?3,?4,?5,?6,?7,?8)\n"@);
    let cols = insert_columns(StatementKind::InsertGcp);
    let breaks: Set<int> = set!{5int};
    let l1 = "timestamp"@;
    assert(cols.take(1).drop_last() =~= cols.take(0));
    assert(column_list(cols.take(1), breaks) == l1);
    let l2 = l1 + ", "@ + "resource_type"@;
    assert(cols.take(2).drop_last() =~= cols.take(1));
    assert(column_list(cols.take(2), breaks) == l2);
    let l3 = l2 + ", "@ + "resource_id"@;
    assert(cols.take(3).drop_last() =~= cols.take(2));
    assert(column_list(cols.take(3), breaks) == l3);
    let l4 = l3 + ", "@ + "metric_name"@;
    assert(cols.take(4).drop_last() =~= cols.take(3));
    assert(column_list(cols.take(4), breaks) == l4);
    let l5 = l4 + ", "@ + "metric_value"@;
    assert(cols.take(5).drop_last() =~= cols.take(4));
    assert(column_list(cols.take(5), breaks) == l5);
    let l6 = l5 + ",\n "@ + "cpu_usage_percent"@;
    assert(cols.take(6).drop_last() =~= cols.take(5));
    assert(column_list(cols.take(6), breaks) == l6);
    let l7 = l6 + ", "@ + "memory_usage_bytes"@;
    assert(cols.take(7).drop_last() =~= cols.take(6));
    assert(column_list(cols.take(7), breaks) == l7);
    let l8 = l7 + ", "@ + "anomaly"@;
    assert(cols.take(8).drop_last() =~= cols.take(7));
    assert(column_list(cols.take(8), breaks) == l8);
    assert(cols.take(8) =~= cols);
    let list = "("@ + l8 + ")"@;
    assert(sql.subrange(31, 31 + list.len() as int) =~= list);
    let p1 = "?1"@;
    assert(placeholder_list(1, ","@) == p1);
    assert(decimal(2) =~= seq!['2']);
    let p2 = p1 + ","@ + "?"@ + decimal(2);
    assert(placeholder_list(2, ","@) == p2);
    assert(decimal(3) =~= seq!['3']);
    let p3 = p2 + ","@ + "?"@ + decimal(3);
    assert(placeholder_list(3, ","@) == p3);
    assert(decimal(4) =~= seq!['4']);
    let p4 = p3 + ","@ + "?"@ + decimal(4);
    assert(placeholder_list(4, ","@) == p4);
    assert(decimal(5) =~= seq!['5']);
    let p5 = p4 + ","@ + "?"@ + decimal(5);
    assert(placeholder_list(5, ","@) == p5);
    assert(decimal(6) =~= seq!['6']);
    let p6 = p5 + ","@ + "?"@ + decimal(6);
    assert(placeholder_list(6, ","@) == p6);
    assert(decimal(7) =~= seq!['7']);
    let p7 = p6 + ","@ + "?"@ + decimal(7);
    assert(placeholder_list(7, ","@) == p7);
    assert(decimal(8) =~= seq!['8']);
    let p8 = p7 + ","@ + "?"@ + decimal(8);
    assert(placeholder_list(8, ","@) == p8);
    let values = "VALUES ("@ + p8 + ")"@;
    assert(sql.subrange(147, 147 + values.len() as int) =~= values);
}

proof fn lemma_prometheus_sql()
    ensures
        lists_columns_at(spec_sql(StatementKind::InsertPrometheus), insert_columns(StatementKind::InsertPrometheus), 32, set!{4int}),
        binds_placeholders_at(spec_sql(StatementKind::InsertPrometheus), 7, 118, ","@),
{
    reveal_strlit("\nINSERT INTO prometheus_metrics\n(timestamp, metric_name, metric_type, metric_value,\n service_name, pod_name, anomaly)\nVALUES (?1,?2,?3,?4,?5,?6,?7)\n");
    reveal_strlit("(");
    reveal_strlit(")");
    reveal_strlit(",");
    reveal_strlit(",\n ");
    reveal_strlit(", ");
    reveal_strlit("?");
    reveal_strlit("?1");
    reveal_strlit("VALUES (");
    reveal_strlit("anomaly");
    reveal_strlit("metric_name");
    reveal_strlit("metric_type");
    reveal_strlit("metric_value");
    reveal_strlit("pod_name");
    reveal_strlit("service_name");
    reveal_strlit("timestamp");
    let sql = spec_sql(StatementKind::InsertPrometheus);
    assert(sql == "\nINSERT INTO prometheus_metrics\n(timestamp, metric_name, metric_type, metric_value,\n service_name, pod_name, anomaly)\nVALUES (?1,?2,?3,?4,?5,?6,?7)\n"@);
    let cols = insert_columns(StatementKind::InsertPrometheus);
    let breaks: Set<int> = set!{4int};
    let l1 = "timestamp"@;
    assert(cols.take(1).drop_last() =~= cols.take(0));
    assert(column_list(cols.take(1), breaks) == l1);
    let l2 = l1 + ", "@ + "metric_name"@;
    assert(cols.take(2).drop_last() =~= cols.take(1));
    assert(column_list(cols.take(2), breaks) == l2);
    let l3 = l2 + ", "@ + "metric_type"@;
    assert(cols.take(3).drop_last() =~= cols.take(2));
    assert(column_list(cols.take(3), breaks) == l3);
    let l4 = l3 + ", "@ + "metric_value"@;
    assert(cols.take(4).drop_last() =~= cols.take(3));
    assert(column_list(cols.take(4), breaks) == l4);
    let l5 = l4 + ",\n "@ + "service_name"@;
    assert(cols.take(5).drop_last() =~= cols.take(4));
    assert(column_list(cols.take(5), breaks) == l5);
    let l6 = l5 + ", "@ + "pod_name"@;
    assert(cols.take(6).drop_last() =~= cols.take(5));
    assert(column_list(cols.take(6), breaks) == l6);
    let l7 = l6 + ", "@ + "anomaly"@;
    assert(cols.take(7).drop_last() =~= cols.take(6));
    assert(column_list(cols.take(7), breaks) == l7);
    assert(cols.take(7) =~= cols);
    let list = "("@ + l7 + ")"@;
    assert(sql.subrange(32, 32 + list.len() as int) =~= list);
    let p1 = "?1"@;
    assert(placeholder_list(1, ","@) == p1);
    assert(decimal(2) =~= seq!['2']);
    let p2 = p1 + ","@ + "?"@ + decimal(2);
    assert(placeholder_list(2, ","@) == p2);
    assert(decimal(3) =~= seq!['3']);
    let p3 = p2 + ","@ + "?"@ + decimal(3);
    assert(placeholder_list(3, ","@) == p3);
    assert(decimal(4) =~= seq!['4']);
    let p4 = p3 + ","@ + "?"@ + decimal(4);
    assert(placeholder_list(4, ","@) == p4);
    assert(decimal(5) =~= seq!['5']);
    let p5 = p4 + ","@ + "?"@ + decimal(5);
    assert(placeholder_list(5, ","@) == p5);
    assert(decimal(6) =~= seq!['6']);
    let p6 = p5 + ","@ + "?"@ + decimal(6);
    assert(placeholder_list(6, ","@) == p6);
    assert(decimal(7) =~= seq!['7']);
    let p7 = p6 + ","@ + "?"@ + decimal(7);
    assert(placeholder_list(7, ","@) == p7);
    let values = "VALUES ("@ + p7 + ")"@;
    assert(sql.subrange(118, 118 + values.len() as int) =~= values);
}

proof fn lemma_hardware_sql()
    ensures
        lists_columns_at(spec_sql(StatementKind::InsertHardware), insert_columns(StatementKind::InsertHardware), 33, set!{5int}),
        binds_placeholders_at(spec_sql(StatementKind::InsertHardware), 9, 140, ","@),
{
    reveal_strlit("\nINSERT INTO hardware_sensor_log\n(timestamp, atm_id, component, event_type, severity,\n metric_name, metric_value, threshold_value, anomaly)\nVALUES (?1,?2,?3,?4,?5,?6,?7,?8,?9)\n");
    reveal_strlit("(");
    reveal_strlit(")");
    reveal_strlit(",");
    reveal_strlit(",\n ");
    reveal_strlit(", ");
    reveal_strlit("?");
    reveal_strlit("?1");
    reveal_strlit("VALUES (");
    reveal_strlit("anomaly");
    reveal_strlit("atm_id");
    reveal_strlit("component");
    reveal_strlit("event_type");
    reveal_strlit("metric_name");
    reveal_strlit("metric_value");
    reveal_strlit("severity");
    reveal_strlit("threshold_value");
    reveal_strlit("timestamp");
    let sql = spec_sql(StatementKind::InsertHardware);
    assert(sql == "\nINSERT INTO hardware_sensor_log\n(timestamp, atm_id, component, event_type, severity,\n metric_name, metric_value, threshold_value, anomaly)\nVALUES (?1,?2,?3,?4,?5,?6,?7,?8,?9)\n"@);
    let cols = insert_columns(StatementKind::InsertHardware);
    let breaks: Set<int> = set!{5int};
    let l1 = "timestamp"@;
    assert(cols.take(1).drop_last() =~= cols.take(0));
    assert(column_list(cols.take(1), breaks) == l1);
    let l2 = l1 + ", "@ + "atm_id"@;
    assert(cols.take(2).drop_last() =~= cols.take(1));
    assert(column_list(cols.take(2), breaks) == l2);
    let l3 = l2 + ", "@ + "component"@;
    assert(cols.take(3).drop_last() =~= cols.take(2));
    assert(column_list(cols.take(3), breaks) == l3);
    let l4 = l3 + ", "@ + "event_type"@;
    assert(cols.take(4).drop_last() =~= cols.take(3));
    assert(column_list(cols.take(4), breaks) == l4);
    let l5 = l4 + ", "@ + "severity"@;
    assert(cols.take(5).drop_last() =~= cols.take(4));
    assert(column_list(cols.take(5), breaks) == l5);
    let l6 = l5 + ",\n "@ + "metric_name"@;
    assert(cols.take(6).drop_last() =~= cols.take(5));
    assert(column_list(cols.take(6), breaks) == l6);
    let l7 = l6 + ", "@ + "metric_value"@;
    assert(cols.take(7).drop_last() =~= cols.take(6));
    assert(column_list(cols.take(7), breaks) == l7);
    let l8 = l7 + ", "@ + "threshold_value"@;
    assert(cols.take(8).drop_last() =~= cols.take(7));
    assert(column_list(cols.take(8), breaks) == l8);
    let l9 = l8 + ", "@ + "anomaly"@;
    assert(cols.take(9).drop_last() =~= cols.take(8));
    assert(column_list(cols.take(9), breaks) == l9);
    assert(cols.take(9) =~= cols);
    let list = "("@ + l9 + ")"@;
    assert(sql.subrange(33, 33 + list.len() as int) =~= list);
    let p1 = "?1"@;
    assert(placeholder_list(1, ","@) == p1);
    assert(decimal(2) =~= seq!['2']);
    let p2 = p1 + ","@ + "?"@ + decimal(2);
    assert(placeholder_list(2, ","@) == p2);
    assert(decimal(3) =~= seq!['3']);
    let p3 = p2 + ","@ + "?"@ + decimal(3);
    assert(placeholder_list(3, ","@) == p3);
    assert(decimal(4) =~= seq!['4']);
    let p4 = p3 + ","@ + "?"@ + decimal(4);
    assert(placeholder_list(4, ","@) == p4);
    assert(decimal(5) =~= seq!['5']);
    let p5 = p4 + ","@ + "?"@ + decimal(5);
    assert(placeholder_list(5, ","@) == p5);
    assert(decimal(6) =~= seq!['6']);
    let p6 = p5 + ","@ + "?"@ + decimal(6);
    assert(placeholder_list(6, ","@) == p6);
    assert(decimal(7) =~= seq!['7']);
    let p7 = p6 + ","@ + "?"@ + decimal(7);
    assert(placeholder_list(7, ","@) == p7);
    assert(decimal(8) =~= seq!['8']);
    let p8 = p7 + ","@ + "?"@ + decimal(8);
    assert(placeholder_list(8, ","@) == p8);
    assert(decimal(9) =~= seq!['9']);
    let p9 = p8 + ","@ + "?"@ + decimal(9);
    assert(placeholder_list(9, ","@) == p9);
    let values = "VALUES ("@ + p9 + ")"@;
    assert(sql.subrange(140, 140 + values.len() as int) =~= values);
}

proof fn lemma_atm_app_sql()
    ensures
        lists_columns_at(spec_sql(StatementKind::InsertAtmApp), insert_columns(StatementKind::InsertAtmApp), 33, set!{5int}),
        binds_placeholders_at(spec_sql(StatementKind::InsertAtmApp), 11, 162, ","@),
{
    reveal_strlit("\nINSERT INTO atm_application_log\n(timestamp, atm_id, log_level, event_type, component,\n message, error_code, error_detail, response_time_ms, atm_status, anomaly)\nVALUES (?1,?2,?3,?4,?5,?6,?7,?8,?9,?10,?11)\n");
    reveal_strlit("(");
    reveal_strlit(")");
    reveal_strlit(",");
    reveal_strlit(",\n ");
    reveal_strlit(", ");
    reveal_strlit("?");
    reveal_strlit("?1");
    reveal_strlit("VALUES (");
    reveal_strlit("anomaly");
    reveal_strlit("atm_id");
    reveal_strlit("atm_status");
    reveal_strlit("component");
    reveal_strlit("error_code");
    reveal_strlit("error_detail");
    reveal_strlit("event_type");
    reveal_strlit("log_level");
    reveal_strlit("message");
    reveal_strlit("response_time_ms");
    reveal_strlit("timestamp");
    let sql = spec_sql(StatementKind::InsertAtmApp);
    assert(sql == "\nINSERT INTO atm_application_log\n(timestamp, atm_id, log_level, event_type, component,\n message, error_code, error_detail, response_time_ms, atm_status, anomaly)\nVALUES (?1,?2,?3,?4,?5,?6,?7,?8,?9,?10,?11)\n"@);
    let cols = insert_columns(StatementKind::InsertAtmApp);
    let breaks: Set<int> = set!{5int};
    let l1 = "timestamp"@;
    assert(cols.take(1).drop_last() =~= cols.take(0));
    assert(column_list(cols.take(1), breaks) == l1);
    let l2 = l1 + ", "@ + "atm_id"@;
    assert(cols.take(2).drop_last() =~= cols.take(1));
    assert(column_list(cols.take(2), breaks) == l2);
    let l3 = l2 + ", "@ + "log_level"@;
    assert(cols.take(3).drop_last() =~= cols.take(2));
    assert(column_list(cols.take(3), breaks) == l3);
    let l4 = l3 + ", "@ + "event_type"@;
    assert(cols.take(4).drop_last() =~= cols.take(3));
    assert(column_list(cols.take(4), breaks) == l4);
    let l5 = l4 + ", "@ + "component"@;
    assert(cols.take(5).drop_last() =~= cols.take(4));
    assert(column_list(cols.take(5), breaks) == l5);
    let l6 = l5 + ",\n "@ + "message"@;
    assert(cols.take(6).drop_last() =~= cols.take(5));
    assert(column_list(cols.take(6), breaks) == l6);
    let l7 = l6 + ", "@ + "error_code"@;
    assert(cols.take(7).drop_last() =~= cols.take(6));
    assert(column_list(cols.take(7), breaks) == l7);
    let l8 = l7 + ", "@ + "error_detail"@;
    assert(cols.take(8).drop_last() =~= cols.take(7));
    assert(column_list(cols.take(8), breaks) == l8);
    let l9 = l8 + ", "@ + "response_time_ms"@;
    assert(cols.take(9).drop_last() =~= cols.take(8));
    assert(column_list(cols.take(9), breaks) == l9);
    let l10 = l9 + ", "@ + "atm_status"@;
    assert(cols.take(10).drop_last() =~= cols.take(9));
    assert(column_list(cols.take(10), breaks) == l10);
    let l11 = l10 + ", "@ + "anomaly"@;
    assert(cols.take(11).drop_last() =~= cols.take(10));
    assert(column_list(cols.take(11), breaks) == l11);
    assert(cols.take(11) =~= cols);
    let list = "("@ + l11 + ")"@;
    assert(sql.subrange(33, 33 + list.len() as int) =~= list);
    let p1 = "?1"@;
    assert(placeholder_list(1, ","@) == p1);
    assert(decimal(2) =~= seq!['2']);
    let p2 = p1 + ","@ + "?"@ + decimal(2);
    assert(placeholder_list(2, ","@) == p2);
    assert(decimal(3) =~= seq!['3']);
    let p3 = p2 + ","@ + "?"@ + decimal(3);
    assert(placeholder_list(3, ","@) == p3);
    assert(decimal(4) =~= seq!['4']);
    let p4 = p3 + ","@ + "?"@ + decimal(4);
    assert(placeholder_list(4, ","@) == p4);
    assert(decimal(5) =~= seq!['5']);
    let p5 = p4 + ","@ + "?"@ + decimal(5);
    assert(placeholder_list(5, ","@) == p5);
    assert(decimal(6) =~= seq!['6']);
    let p6 = p5 + ","@ + "?"@ + decimal(6);
    assert(placeholder_list(6, ","@) == p6);
    assert(decimal(7) =~= seq!['7']);
    let p7 = p6 + ","@ + "?"@ + decimal(7);
    assert(placeholder_list(7, ","@) == p7);
    assert(decimal(8) =~= seq!['8']);
    let p8 = p7 + ","@ + "?"@ + decimal(8);
    assert(placeholder_list(8, ","@) == p8);
    assert(decimal(9) =~= seq!['9']);
    let p9 = p8 + ","@ + "?"@ + decimal(9);
    assert(placeholder_list(9, ","@) == p9);
    assert(decimal(1) =~= seq!['1']);
    assert(decimal(10) =~= seq!['1', '0']);
    let p10 = p9 + ","@ + "?"@ + decimal(10);
    assert(placeholder_list(10, ","@) == p10);
    assert(decimal(1) =~= seq!['1']);
    assert(decimal(11) =~= seq!['1', '1']);
    let p11 = p10 + ","@ + "?"@ + decimal(11);
    assert(placeholder_list(11, ","@) == p11);
    let values = "VALUES ("@ + p11 + ")"@;
    assert(sql.subrange(162, 162 + values.len() as int) =~= values);
}

proof fn lemma_terminal_sql()
    ensures
        lists_columns_at(spec_sql(StatementKind::InsertTerminal), insert_columns(StatementKind::InsertTerminal), 34, set!{6int, 10int}),
        binds_placeholders_at(spec_sql(StatementKind::InsertTerminal), 12, 196, ","@),
{
    reveal_strlit("\nINSERT INTO terminal_handler_log\n(timestamp, log_level, event_type, message, container_id, correlation_id,\n transaction_id, atm_id, response_time_ms, http_status_code,\n exception_class, anomaly)\nVALUES (?1,?2,?3,?4,?5,?6,?7,?8,?9,?10,?11,?12)\n");
    reveal_strlit("(");
    reveal_strlit(")");
    reveal_strlit(",");
    reveal_strlit(",\n ");
    reveal_strlit(", ");
    reveal_strlit("?");
    reveal_strlit("?1");
    reveal_strlit("VALUES (");
    reveal_strlit("anomaly");
    reveal_strlit("atm_id");
    reveal_strlit("container_id");
    reveal_strlit("correlation_id");
    reveal_strlit("event_type");
    reveal_strlit("exception_class");
    reveal_strlit("http_status_code");
    reveal_strlit("log_level");
    reveal_strlit("message");
    reveal_strlit("response_time_ms");
    reveal_strlit("timestamp");
    reveal_strlit("transaction_id");
    let sql = spec_sql(StatementKind::InsertTerminal);
    assert(sql == "\nINSERT INTO terminal_handler_log\n(timestamp, log_level, event_type, message, container_id, correlation_id,\n transaction_id, atm_id, response_time_ms, http_status_code,\n exception_class, anomaly)\nVALUES (?1,?2,?3,?4,?5,?6,?7,?8,?9,?10,?11,?12)\n"@);
    let cols = insert_columns(StatementKind::InsertTerminal);
    let breaks: Set<int> = set!{6int, 10int};
    let l1 = "timestamp"@;
    assert(cols.take(1).drop_last() =~= cols.take(0));
    assert(column_list(cols.take(1), breaks) == l1);
    let l2 = l1 + ", "@ + "log_level"@;
    assert(cols.take(2).drop_last() =~= cols.take(1));
    assert(column_list(cols.take(2), breaks) == l2);
    let l3 = l2 + ", "@ + "event_type"@;
    assert(cols.take(3).drop_last() =~= cols.take(2));
    assert(column_list(cols.take(3), breaks) == l3);
    let l4 = l3 + ", "@ + "message"@;
    assert(cols.take(4).drop_last() =~= cols.take(3));
    assert(column_list(cols.take(4), breaks) == l4);
    let l5 = l4 + ", "@ + "container_id"@;
    assert(cols.take(5).drop_last() =~= cols.take(4));
    assert(column_list(cols.take(5), breaks) == l5);
    let l6 = l5 + ", "@ + "correlation_id"@;
    assert(cols.take(6).drop_last() =~= cols.take(5));
    assert(column_list(cols.take(6), breaks) == l6);
    let l7 = l6 + ",\n "@ + "transaction_id"@;
    assert(cols.take(7).drop_last() =~= cols.take(6));
    assert(column_list(cols.take(7), breaks) == l7);
    let l8 = l7 + ", "@ + "atm_id"@;
    assert(cols.take(8).drop_last() =~= cols.take(7));
    assert(column_list(cols.take(8), breaks) == l8);
    let l9 = l8 + ", "@ + "response_time_ms"@;
    assert(cols.take(9).drop_last() =~= cols.take(8));
    assert(column_list(cols.take(9), breaks) == l9);
    let l10 = l9 + ", "@ + "http_status_code"@;
    assert(cols.take(10).drop_last() =~= cols.take(9));
    assert(column_list(cols.take(10), breaks) == l10);
    let l11 = l10 + ",\n "@ + "exception_class"@;
    assert(cols.take(11).drop_last() =~= cols.take(10));
    assert(column_list(cols.take(11), breaks) == l11);
    let l12 = l11 + ", "@ + "anomaly"@;
    assert(cols.take(12).drop_last() =~= cols.take(11));
    assert(column_list(cols.take(12), breaks) == l12);
    assert(cols.take(12) =~= cols);
    let list = "("@ + l12 + ")"@;
    assert(sql.subrange(34, 34 + list.len() as int) =~= list);
    let p1 = "?1"@;
    assert(placeholder_list(1, ","@) == p1);
    assert(decimal(2) =~= seq!['2']);
    let p2 = p1 + ","@ + "?"@ + decimal(2);
    assert(placeholder_list(2, ","@) == p2);
    assert(decimal(3) =~= seq!['3']);
    let p3 = p2 + ","@ + "?"@ + decimal(3);
    assert(placeholder_list(3, ","@) == p3);
    assert(decimal(4) =~= seq!['4']);
    let p4 = p3 + ","@ + "?"@ + decimal(4);
    assert(placeholder_list(4, ","@) == p4);
    assert(decimal(5) =~= seq!['5']);
    let p5 = p4 + ","@ + "?"@ + decimal(5);
    assert(placeholder_list(5, ","@) == p5);
    assert(decimal(6) =~= seq!['6']);
    let p6 = p5 + ","@ + "?"@ + decimal(6);
    assert(placeholder_list(6, ","@) == p6);
    assert(decimal(7) =~= seq!['7']);
    let p7 = p6 + ","@ + "?"@ + decimal(7);
    assert(placeholder_list(7, ","@) == p7);
    assert(decimal(8) =~= seq!['8']);
    let p8 = p7 + ","@ + "?"@ + decimal(8);
    assert(placeholder_list(8, ","@) == p8);
    assert(decimal(9) =~= seq!['9']);
    let p9 = p8 + ","@ + "?"@ + decimal(9);
    assert(placeholder_list(9, ","@) == p9);
    assert(decimal(1) =~= seq!['1']);
    assert(decimal(10) =~= seq!['1', '0']);
    let p10 = p9 + ","@ + "?"@ + decimal(10);
    assert(placeholder_list(10, ","@) == p10);
    assert(decimal(1) =~= seq!['1']);
    assert(decimal(11) =~= seq!['1', '1']);
    let p11 = p10 + ","@ + "?"@ + decimal(11);
    assert(placeholder_list(11, ","@) == p11);
    assert(decimal(1) =~= seq!['1']);
    assert(decimal(12) =~= seq!['1', '2']);
    let p12 = p11 + ","@ + "?"@ + decimal(12);
    assert(placeholder_list(12, ","@) == p12);
    let values = "VALUES ("@ + p12 + ")"@;
    assert(sql.subrange(196, 196 + values.len() as int) =~= values);
}

proof fn lemma_anomaly_sql()
    ensures
        lists_columns_at(spec_sql(StatementKind::InsertAnomaly), insert_columns(StatementKind::InsertAnomaly), 23, set!{}),
        binds_placeholders_at(spec_sql(StatementKind::InsertAnomaly), 7, 105, ","@),
{
    reveal_strlit("\nINSERT INTO anomalies\n(timestamp, atm_id, anomaly_code, source_table, source_id, severity, description)\nVALUES (?1,?2,?3,?4,?5,?6,?7)\n");
    reveal_strlit("(");
    reveal_strlit(")");
    reveal_strlit(",");
    reveal_strlit(",\n ");
    reveal_strlit(", ");
    reveal_strlit("?");
    reveal_strlit("?1");
    reveal_strlit("VALUES (");
    reveal_strlit("anomaly_code");
    reveal_strlit("atm_id");
    reveal_strlit("description");
    reveal_strlit("severity");
    reveal_strlit("source_id");
    reveal_strlit("source_table");
    reveal_strlit("timestamp");
    let sql = spec_sql(StatementKind::InsertAnomaly);
    assert(sql == "\nINSERT INTO anomalies\n(timestamp, atm_id, anomaly_code, source_table, source_id, severity, description)\nVALUES (?1,?2,?3,?4,?5,?6,?7)\n"@);
    let cols = insert_columns(StatementKind::InsertAnomaly);
    let breaks: Set<int> = set!{};
    let l1 = "timestamp"@;
    assert(cols.take(1).drop_last() =~= cols.take(0));
    assert(column_list(cols.take(1), breaks) == l1);
    let l2 = l1 + ", "@ + "atm_id"@;
    assert(cols.take(2).drop_last() =~= cols.take(1));
    assert(column_list(cols.take(2), breaks) == l2);
    let l3 = l2 + ", "@ + "anomaly_code"@;
    assert(cols.take(3).drop_last() =~= cols.take(2));
    assert(column_list(cols.take(3), breaks) == l3);
    let l4 = l3 + ", "@ + "source_table"@;
    assert(cols.take(4).drop_last() =~= cols.take(3));
    assert(column_list(cols.take(4), breaks) == l4);
    let l5 = l4 + ", "@ + "source_id"@;
    assert(cols.take(5).drop_last() =~= cols.take(4));
    assert(column_list(cols.take(5), breaks) == l5);
    let l6 = l5 + ", "@ + "severity"@;
    assert(cols.take(6).drop_last() =~= cols.take(5));
    assert(column_list(cols.take(6), breaks) == l6);
    let l7 = l6 + ", "@ + "description"@;
    assert(cols.take(7).drop_last() =~= cols.take(6));
    assert(column_list(cols.take(7), breaks) == l7);
    assert(cols.take(7) =~= cols);
    let list = "("@ + l7 + ")"@;
    assert(sql.subrange(23, 23 + list.len() as int) =~= list);
    let p1 = "?1"@;
    assert(placeholder_list(1, ","@) == p1);
    assert(decimal(2) =~= seq!['2']);
    let p2 = p1 + ","@ + "?"@ + decimal(2);
    assert(placeholder_list(2, ","@) == p2);
    assert(decimal(3) =~= seq!['3']);
    let p3 = p2 + ","@ + "?"@ + decimal(3);
    assert(placeholder_list(3, ","@) == p3);
    assert(decimal(4) =~= seq!['4']);
    let p4 = p3 + ","@ + "?"@ + decimal(4);
    assert(placeholder_list(4, ","@) == p4);
    assert(decimal(5) =~= seq!['5']);
    let p5 = p4 + ","@ + "?"@ + decimal(5);
    assert(placeholder_list(5, ","@) == p5);
    assert(decimal(6) =~= seq!['6']);
    let p6 = p5 + ","@ + "?"@ + decimal(6);
    assert(placeholder_list(6, ","@) == p6);
    assert(decimal(7) =~= seq!['7']);
    let p7 = p6 + ","@ + "?"@ + decimal(7);
    assert(placeholder_list(7, ","@) == p7);
    let values = "VALUES ("@ + p7 + ")"@;
    assert(sql.subrange(105, 105 + values.len() as int) =~= values);
}

proof fn lemma_fact_metric_sql()
    ensures
        lists_columns_at(spec_sql(StatementKind::InsertFactMetric), insert_columns(StatementKind::InsertFactMetric), 26, set!{}),
        binds_placeholders_at(spec_sql(StatementKind::InsertFactMetric), 6, 90, ", "@),
{
    reveal_strlit("\nINSERT INTO fact_metrics (timestamp, atm_id, source, metric_name, metric_value, anomaly)\nVALUES (?1, ?2, ?3, ?4, ?5, ?6)\n");
    reveal_strlit("(");
    reveal_strlit(")");
    reveal_strlit(",\n ");
    reveal_strlit(", ");
    reveal_strlit("?");
    reveal_strlit("?1");
    reveal_strlit("VALUES (");
    reveal_strlit("anomaly");
    reveal_strlit("atm_id");
    reveal_strlit("metric_name");
    reveal_strlit("metric_value");
    reveal_strlit("source");
    reveal_strlit("timestamp");
    let sql = spec_sql(StatementKind::InsertFactMetric);
    assert(sql == "\nINSERT INTO fact_metrics (timestamp, atm_id, source, metric_name, metric_value, anomaly)\nVALUES (?1, ?2, ?3, ?4, ?5, ?6)\n"@);
    let cols = insert_columns(StatementKind::InsertFactMetric);
    let breaks: Set<int> = set!{};
    let l1 = "timestamp"@;
    assert(cols.take(1).drop_last() =~= cols.take(0));
    assert(column_list(cols.take(1), breaks) == l1);
    let l2 = l1 + ", "@ + "atm_id"@;
    assert(cols.take(2).drop_last() =~= cols.take(1));
    assert(column_list(cols.take(2), breaks) == l2);
    let l3 = l2 + ", "@ + "source"@;
    assert(cols.take(3).drop_last() =~= cols.take(2));
    assert(column_list(cols.take(3), breaks) == l3);
    let l4 = l3 + ", "@ + "metric_name"@;
    assert(cols.take(4).drop_last() =~= cols.take(3));
    assert(column_list(cols.take(4), breaks) == l4);
    let l5 = l4 + ", "@ + "metric_value"@;
    assert(cols.take(5).drop_last() =~= cols.take(4));
    assert(column_list(cols.take(5), breaks) == l5);
    let l6 = l5 + ", "@ + "anomaly"@;
    assert(cols.take(6).drop_last() =~= cols.take(5));
    assert(column_list(cols.take(6), breaks) == l6);
    assert(cols.take(6) =~= cols);
    let list = "("@ + l6 + ")"@;
    assert(sql.subrange(26, 26 + list.len() as int) =~= list);
    let p1 = "?1"@;
    assert(placeholder_list(1, ", "@) == p1);
    assert(decimal(2) =~= seq!['2']);
    let p2 = p1 + ", "@ + "?"@ + decimal(2);
    assert(placeholder_list(2, ", "@) == p2);
    assert(decimal(3) =~= seq!['3']);
    let p3 = p2 + ", "@ + "?"@ + decimal(3);
    assert(placeholder_list(3, ", "@) == p3);
    assert(decimal(4) =~= seq!['4']);
    let p4 = p3 + ", "@ + "?"@ + decimal(4);
    assert(placeholder_list(4, ", "@) == p4);
    assert(decimal(5) =~= seq!['5']);
    let p5 = p4 + ", "@ + "?"@ + decimal(5);
    assert(placeholder_list(5, ", "@) == p5);
    assert(decimal(6) =~= seq!['6']);
    let p6 = p5 + ", "@ + "?"@ + decimal(6);
    assert(placeholder_list(6, ", "@) == p6);
    let values = "VALUES ("@ + p6 + ")"@;
    assert(sql.subrange(90, 90 + values.len() as int) =~= values);
}

proof fn lemma_dim_source_sql()
    ensures
        lists_columns_at(spec_sql(StatementKind::InsertDimSource), insert_columns(StatementKind::InsertDimSource), 34, set!{}),
        binds_placeholders_at(spec_sql(StatementKind::InsertDimSource), 3, 74, ", "@),
{
    reveal_strlit("\nINSERT OR IGNORE INTO dim_source (source_name, source_type, description)\nVALUES (?1, ?2, ?3)\n");
    reveal_strlit("(");
    reveal_strlit(")");
    reveal_strlit(",\n ");
    reveal_strlit(", ");
    reveal_strlit("?");
    reveal_strlit("?1");
    reveal_strlit("VALUES (");
    reveal_strlit("description");
    reveal_strlit("source_name");
    reveal_strlit("source_type");
    let sql = spec_sql(StatementKind::InsertDimSource);
    assert(sql == "\nINSERT OR IGNORE INTO dim_source (source_name, source_type, description)\nVALUES (?1, ?2, ?3)\n"@);
    let cols = insert_columns(StatementKind::InsertDimSource);
    let breaks: Set<int> = set!{};
    let l1 = "source_name"@;
    assert(cols.take(1).drop_last() =~= cols.take(0));
    assert(column_list(cols.take(1), breaks) == l1);
    let l2 = l1 + ", "@ + "source_type"@;
    assert(cols.take(2).drop_last() =~= cols.take(1));
    assert(column_list(cols.take(2), breaks) == l2);
    let l3 = l2 + ", "@ + "description"@;
    assert(cols.take(3).drop_last() =~= cols.take(2));
    assert(column_list(cols.take(3), breaks) == l3);
    assert(cols.take(3) =~= cols);
    let list = "("@ + l3 + ")"@;
    assert(sql.subrange(34, 34 + list.len() as int) =~= list);
    let p1 = "?1"@;
    assert(placeholder_list(1, ", "@) == p1);
    assert(decimal(2) =~= seq!['2']);
    let p2 = p1 + ", "@ + "?"@ + decimal(2);
    assert(placeholder_list(2, ", "@) == p2);
    assert(decimal(3) =~= seq!['3']);
    let p3 = p2 + ", "@ + "?"@ + decimal(3);
    assert(placeholder_list(3, ", "@) == p3);
    let values = "VALUES ("@ + p3 + ")"@;
    assert(sql.subrange(74, 74 + values.len() as int) =~= values);
}

proof fn lemma_dim_atm_windows_sql()
    ensures
        lists_columns_at(
            spec_sql(StatementKind::InsertDimAtmWindows),
            insert_columns(StatementKind::InsertDimAtmWindows).push(Column::LastSeen),
            31,
            set!{},
        ),
        repeats_last_placeholder_at(spec_sql(StatementKind::InsertDimAtmWindows), 4, 85),
{
    reveal_strlit("\nINSERT OR IGNORE INTO dim_atm\n(atm_id, hostname, os_version, first_seen, last_seen)\nVALUES (?1, ?2, ?3, ?4, ?4)\n");
    reveal_strlit("(");
    reveal_strlit(")");
    reveal_strlit(",\n ");
    reveal_strlit(", ");
    reveal_strlit(", ?");
    reveal_strlit("?");
    reveal_strlit("?1");
    reveal_strlit("VALUES (");
    reveal_strlit("atm_id");
    reveal_strlit("first_seen");
    reveal_strlit("hostname");
    reveal_strlit("last_seen");
    reveal_strlit("os_version");
    let sql = spec_sql(StatementKind::InsertDimAtmWindows);
    assert(sql == "\nINSERT OR IGNORE INTO dim_atm\n(atm_id, hostname, os_version, first_seen, last_seen)\nVALUES (?1, ?2, ?3, ?4, ?4)\n"@);
    let cols = insert_columns(StatementKind::InsertDimAtmWindows).push(Column::LastSeen);
    let breaks: Set<int> = set!{};
    let l1 = "atm_id"@;
    assert(cols.take(1).drop_last() =~= cols.take(0));
    assert(column_list(cols.take(1), breaks) == l1);
    let l2 = l1 + ", "@ + "hostname"@;
    assert(cols.take(2).drop_last() =~= cols.take(1));
    assert(column_list(cols.take(2), breaks) == l2);
    let l3 = l2 + ", "@ + "os_version"@;
    assert(cols.take(3).drop_last() =~= cols.take(2));
    assert(column_list(cols.take(3), breaks) == l3);
    let l4 = l3 + ", "@ + "first_seen"@;
    assert(cols.take(4).drop_last() =~= cols.take(3));
    assert(column_list(cols.take(4), breaks) == l4);
    let l5 = l4 + ", "@ + "last_seen"@;
    assert(cols.take(5).drop_last() =~= cols.take(4));
    assert(column_list(cols.take(5), breaks) == l5);
    assert(cols.take(5) =~= cols);
    let list = "("@ + l5 + ")"@;
    assert(sql.subrange(31, 31 + list.len() as int) =~= list);
    let p1 = "?1"@;
    assert(placeholder_list(1, ", "@) == p1);
    assert(decimal(2) =~= seq!['2']);
    let p2 = p1 + ", "@ + "?"@ + decimal(2);
    assert(placeholder_list(2, ", "@) == p2);
    assert(decimal(3) =~= seq!['3']);
    let p3 = p2 + ", "@ + "?"@ + decimal(3);
    assert(placeholder_list(3, ", "@) == p3);
    assert(decimal(4) =~= seq!['4']);
    let p4 = p3 + ", "@ + "?"@ + decimal(4);
    assert(placeholder_list(4, ", "@) == p4);
    let values = "VALUES ("@ + p4 + ", ?"@ + decimal(4) + ")"@;
    assert(sql.subrange(85, 85 + values.len() as int) =~= values);
}

proof fn lemma_dim_atm_hardware_sql()
    ensures
        lists_columns_at(
            spec_sql(StatementKind::InsertDimAtmHardware),
            insert_columns(StatementKind::InsertDimAtmHardware).push(Column::LastSeen),
            31,
            set!{},
        ),
        repeats_last_placeholder_at(spec_sql(StatementKind::InsertDimAtmHardware), 2, 63),
{
    reveal_strlit("\nINSERT OR IGNORE INTO dim_atm (atm_id, first_seen, last_seen)\nVALUES (?1, ?2, ?2)\n");
    reveal_strlit("(");
    reveal_strlit(")");
    reveal_strlit(",\n ");
    reveal_strlit(", ");
    reveal_strlit(", ?");
    reveal_strlit("?");
    reveal_strlit("?1");
    reveal_strlit("VALUES (");
    reveal_strlit("atm_id");
    reveal_strlit("first_seen");
    reveal_strlit("last_seen");
    let sql = spec_sql(StatementKind::InsertDimAtmHardware);
    assert(sql == "\nINSERT OR IGNORE INTO dim_atm (atm_id, first_seen, last_seen)\nVALUES (?1, ?2, ?2)\n"@);
    let cols = insert_columns(StatementKind::InsertDimAtmHardware).push(Column::LastSeen);
    let breaks: Set<int> = set!{};
    let l1 = "atm_id"@;
    assert(cols.take(1).drop_last() =~= cols.take(0));
    assert(column_list(cols.take(1), breaks) == l1);
    let l2 = l1 + ", "@ + "first_seen"@;
    assert(cols.take(2).drop_last() =~= cols.take(1));
    assert(column_list(cols.take(2), breaks) == l2);
    let l3 = l2 + ", "@ + "last_seen"@;
    assert(cols.take(3).drop_last() =~= cols.take(2));
    assert(column_list(cols.take(3), breaks) == l3);
    assert(cols.take(3) =~= cols);
    let list = "("@ + l3 + ")"@;
    assert(sql.subrange(31, 31 + list.len() as int) =~= list);
    let p1 = "?1"@;
    assert(placeholder_list(1, ", "@) == p1);
    assert(decimal(2) =~= seq!['2']);
    let p2 = p1 + ", "@ + "?"@ + decimal(2);
    assert(placeholder_list(2, ", "@) == p2);
    let values = "VALUES ("@ + p2 + ", ?"@ + decimal(2) + ")"@;
    assert(sql.subrange(63, 63 + values.len() as int) =~= values);
}

proof fn lemma_dim_atm_app_sql()
    ensures
        lists_columns_at(
            spec_sql(StatementKind::InsertDimAtmApp),
            insert_columns(StatementKind::InsertDimAtmApp).push(Column::LastSeen),
            31,
            set!{},
        ),
        repeats_last_placeholder_at(spec_sql(StatementKind::InsertDimAtmApp), 4, 90),
{
    reveal_strlit("\nINSERT OR IGNORE INTO dim_atm\n(atm_id, location_code, os_version, first_seen, last_seen)\nVALUES (?1, ?2, ?3, ?4, ?4)\n");
    reveal_strlit("(");
    reveal_strlit(")");
    reveal_strlit(",\n ");
    reveal_strlit(", ");
    reveal_strlit(", ?");
    reveal_strlit("?");
    reveal_strlit("?1");
    reveal_strlit("VALUES (");
    reveal_strlit("atm_id");
    reveal_strlit("first_seen");
    reveal_strlit("last_seen");
    reveal_strlit("location_code");
    reveal_strlit("os_version");
    let sql = spec_sql(StatementKind::InsertDimAtmApp);
    assert(sql == "\nINSERT OR IGNORE INTO dim_atm\n(atm_id, location_code, os_version, first_seen, last_seen)\nVALUES (?1, ?2, ?3, ?4, ?4)\n"@);
    let cols = insert_columns(StatementKind::InsertDimAtmApp).push(Column::LastSeen);
    let breaks: Set<int> = set!{};
    let l1 = "atm_id"@;
    assert(cols.take(1).drop_last() =~= cols.take(0));
    assert(column_list(cols.take(1), breaks) == l1);
    let l2 = l1 + ", "@ + "location_code"@;
    assert(cols.take(2).drop_last() =~= cols.take(1));
    assert(column_list(cols.take(2), breaks) == l2);
    let l3 = l2 + ", "@ + "os_version"@;
    assert(cols.take(3).drop_last() =~= cols.take(2));
    assert(column_list(cols.take(3), breaks) == l3);
    let l4 = l3 + ", "@ + "first_seen"@;
    assert(cols.take(4).drop_last() =~= cols.take(3));
    assert(column_list(cols.take(4), breaks) == l4);
    let l5 = l4 + ", "@ + "last_seen"@;
    assert(cols.take(5).drop_last() =~= cols.take(4));
    assert(column_list(cols.take(5), breaks) == l5);
    assert(cols.take(5) =~= cols);
    let list = "("@ + l5 + ")"@;
    assert(sql.subrange(31, 31 + list.len() as int) =~= list);
    let p1 = "?1"@;
    assert(placeholder_list(1, ", "@) == p1);
    assert(decimal(2) =~= seq!['2']);
    let p2 = p1 + ", "@ + "?"@ + decimal(2);
    assert(placeholder_list(2, ", "@) == p2);
    assert(decimal(3) =~= seq!['3']);
    let p3 = p2 + ", "@ + "?"@ + decimal(3);
    assert(placeholder_list(3, ", "@) == p3);
    assert(decimal(4) =~= seq!['4']);
    let p4 = p3 + ", "@ + "?"@ + decimal(4);
    assert(placeholder_list(4, ", "@) == p4);
    let values = "VALUES ("@ + p4 + ", ?"@ + decimal(4) + ")"@;
    assert(sql.subrange(90, 90 + values.len() as int) =~= values);
}

/// The SQL text of every INSERT whose parameters are bound one to a column
/// names, between its brackets, exactly the columns of `insert_columns`, in
/// that order, and lists `?1` to `?n` in order as its VALUES: its i-th
/// parameter is stored in the i-th of those columns.
pub proof fn lemma_insert_sql_binds_columns(k: StatementKind)
    requires
        binds_one_to_one(k),
    ensures
        exists|start: int, breaks: Set<int>| lists_columns_at(spec_sql(k), insert_columns(k), start, breaks),
        exists|start: int, sep: Seq<char>|
            (sep == ","@ || sep == ", "@) && binds_placeholders_at(
                spec_sql(k),
                insert_columns(k).len(),
                start,
                sep,
            ),
{
    match k {
        StatementKind::InsertKafka => lemma_kafka_sql(),
        StatementKind::InsertWindows => lemma_windows_sql(),
        StatementKind::InsertGcp => lemma_gcp_sql(),
        StatementKind::InsertPrometheus => lemma_prometheus_sql(),
        StatementKind::InsertHardware => lemma_hardware_sql(),
        StatementKind::InsertAtmApp => lemma_atm_app_sql(),
        StatementKind::InsertTerminal => lemma_terminal_sql(),
        StatementKind::InsertAnomaly => lemma_anomaly_sql(),
        StatementKind::InsertFactMetric => lemma_fact_metric_sql(),
        StatementKind::InsertDimSource => lemma_dim_source_sql(),
        _ => {},
    }
}

/// The SQL text of every ATM registration names, between its brackets, the
/// columns of `insert_columns` and then `last_seen`, and lists `?1` to `?n`
/// in order as its VALUES, then `?n` once more: its i-th parameter is stored
/// in the i-th of those columns, its last one in `last_seen` as well.
pub proof fn lemma_registration_sql_binds_columns(k: StatementKind)
    requires
        registers_atm_kind(k),
    ensures
        exists|start: int, breaks: Set<int>|
            lists_columns_at(spec_sql(k), insert_columns(k).push(Column::LastSeen), start, breaks),
        exists|start: int| repeats_last_placeholder_at(spec_sql(k), insert_columns(k).len(), start),
{
    match k {
        StatementKind::InsertDimAtmWindows => lemma_dim_atm_windows_sql(),
        StatementKind::InsertDimAtmHardware => lemma_dim_atm_hardware_sql(),
        StatementKind::InsertDimAtmApp => lemma_dim_atm_app_sql(),
        _ => {},
    }
}

} // verus!
