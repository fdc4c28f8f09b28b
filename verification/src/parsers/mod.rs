//! The rows that each source file yields for the database.

pub mod kafka_metrics;
pub mod windows_metrics;
pub mod gcp_metrics;
pub mod prometheus_metrics;
pub mod hardware_sensor;
pub mod atm_app_log;
pub mod terminal_handler;

use vstd::prelude::*;
use vstd::string::*;

verus! {

/// Every source classifies an anomaly code as WARNING, CRITICAL or INFO, and
/// a source that does not classify it as INFO classifies it as the Kafka
/// stream does.
pub proof fn lemma_severities_agree_with_stream(code: Seq<char>)
    ensures
        kafka_metrics::severity_of(code) == "WARNING"@ || kafka_metrics::severity_of(code)
            == "CRITICAL"@ || kafka_metrics::severity_of(code) == "INFO"@,
        windows_metrics::severity_of(code) == "INFO"@ || windows_metrics::severity_of(code)
            == kafka_metrics::severity_of(code),
        gcp_metrics::severity_of(code) == "INFO"@ || gcp_metrics::severity_of(code)
            == kafka_metrics::severity_of(code),
        prometheus_metrics::severity_of(code) == "INFO"@ || prometheus_metrics::severity_of(code)
            == kafka_metrics::severity_of(code),
        hardware_sensor::severity_of(code) == "INFO"@ || hardware_sensor::severity_of(code)
            == kafka_metrics::severity_of(code),
        atm_app_log::severity_of(code) == "INFO"@ || atm_app_log::severity_of(code)
            == kafka_metrics::severity_of(code),
        terminal_handler::severity_of(code) == "INFO"@ || terminal_handler::severity_of(code)
            == kafka_metrics::severity_of(code),
{
    reveal_strlit("A1");
    reveal_strlit("A2");
    reveal_strlit("A3");
    reveal_strlit("A4");
    reveal_strlit("A5");
    reveal_strlit("A6");
    reveal_strlit("A7_OUT_OF_ORDER");
    reveal_strlit("A7_MALFORMED");
    if code == "A1"@ {
        assert(code[1] == '1');
    } else if code == "A2"@ {
        assert(code[1] == '2');
    } else if code == "A3"@ {
        assert(code[1] == '3');
    } else if code == "A4"@ {
        assert(code[1] == '4');
    } else if code == "A5"@ {
        assert(code[1] == '5');
    } else if code == "A6"@ {
        assert(code[1] == '6');
    } else if code == "A7_OUT_OF_ORDER"@ {
        assert(code.len() == 15);
    } else if code == "A7_MALFORMED"@ {
        assert(code.len() == 12);
    }
}

} // verus!

use crate::db::{dim_sources, SqlValueView, StatementKind, StatementView};
use crate::models::{
    AtmApplicationLog, GcpCloudMetric, HardwareSensorLog, KafkaAtmMetric, PrometheusMetric,
    TerminalHandlerLog, WindowsOsMetric,
};
use crate::db::state::{
    all_inserts, keyed_text, kept_table, lemma_reload_is_idempotent, reload_safe, row_table, run,
    DbState,
};
use crate::watcher::{
    clear_ops, in_footprint, lemma_clearing_only_deletes, registers_atm, removed_by, watch_list,
    Feed,
};

verus! {

/// The parsed content of one watched file: the records of its feed, or the
/// CSV rows (`None` for a malformed row) of a CSV feed.
pub enum FeedRecords {
    Kafka(Seq<KafkaAtmMetric>),
    WindowsOs(Seq<Option<WindowsOsMetric>>),
    Gcp(Seq<Option<GcpCloudMetric>>),
    Prometheus(Seq<Option<PrometheusMetric>>),
    HardwareSensor(Seq<HardwareSensorLog>),
    AtmApplication(Seq<AtmApplicationLog>),
    TerminalHandler(Seq<TerminalHandlerLog>),
}

/// The feed whose file the records come from.
pub open spec fn feed_of(r: FeedRecords) -> Feed {
    match r {
        FeedRecords::Kafka(_) => Feed::Kafka,
        FeedRecords::WindowsOs(_) => Feed::WindowsOs,
        FeedRecords::Gcp(_) => Feed::Gcp,
        FeedRecords::Prometheus(_) => Feed::Prometheus,
        FeedRecords::HardwareSensor(_) => Feed::HardwareSensor,
        FeedRecords::AtmApplication(_) => Feed::AtmApplication,
        FeedRecords::TerminalHandler(_) => Feed::TerminalHandler,
    }
}

/// The position of a feed in the list of watched files.
pub open spec fn feed_index(f: Feed) -> int {
    match f {
        Feed::Kafka => 0,
        Feed::WindowsOs => 1,
        Feed::Gcp => 2,
        Feed::Prometheus => 3,
        Feed::HardwareSensor => 4,
        Feed::AtmApplication => 5,
        Feed::TerminalHandler => 6,
    }
}

/// The statements that the feed's `insert_plan` runs for these records.
pub open spec fn feed_ops(r: FeedRecords) -> Seq<StatementView> {
    match r {
        FeedRecords::Kafka(rs) => kafka_metrics::records_ops(rs),
        FeedRecords::WindowsOs(rs) => windows_metrics::rows_ops(rs),
        FeedRecords::Gcp(rs) => gcp_metrics::rows_ops(rs),
        FeedRecords::Prometheus(rs) => prometheus_metrics::rows_ops(rs),
        FeedRecords::HardwareSensor(rs) => hardware_sensor::records_ops(rs),
        FeedRecords::AtmApplication(rs) => atm_app_log::records_ops(rs),
        FeedRecords::TerminalHandler(rs) => terminal_handler::records_ops(rs),
    }
}

/// Whether a statement deletes rows.
pub open spec fn deletes(op: StatementView) -> bool {
    ||| op.kind is DeleteAll
    ||| op.kind == StatementKind::DeleteAnomaliesLike
    ||| op.kind == StatementKind::DeleteFactMetricsBySource
}

/// A load only inserts, and only rows of its own source: every statement the
/// plan of a watched file runs is an insert that lies in the footprint of
/// that file's feed (its staging table, anomalies against that table, metric
/// facts of its source) or registers an ATM.
pub proof fn lemma_load_writes_own_rows(r: FeedRecords, k: int)
    requires
        0 <= k < feed_ops(r).len(),
    ensures
        watch_list()[feed_index(feed_of(r))].2 == feed_of(r),
        in_footprint(feed_ops(r)[k], feed_of(r), watch_list()[feed_index(feed_of(r))].1),
        !deletes(feed_ops(r)[k]),
{
    match r {
        FeedRecords::Kafka(rs) => kafka_metrics::lemma_ops_in_footprint(rs),
        FeedRecords::WindowsOs(rs) => windows_metrics::lemma_ops_in_footprint(rs),
        FeedRecords::Gcp(rs) => gcp_metrics::lemma_ops_in_footprint(rs),
        FeedRecords::Prometheus(rs) => prometheus_metrics::lemma_ops_in_footprint(rs),
        FeedRecords::HardwareSensor(rs) => hardware_sensor::lemma_ops_in_footprint(rs),
        FeedRecords::AtmApplication(rs) => atm_app_log::lemma_ops_in_footprint(rs),
        FeedRecords::TerminalHandler(rs) => terminal_handler::lemma_ops_in_footprint(rs),
    }
}

/// Reloading a watched file replaces what its earlier load wrote, and nothing
/// else: the statements that clear watched source `j` remove a row planned
/// for the file of feed `f` (ATM registrations aside) exactly when `j` is the
/// source of `f`.
pub proof fn lemma_reload_replaces_feed_rows(r: FeedRecords, k: int, j: int)
    requires
        0 <= k < feed_ops(r).len(),
        0 <= j < watch_list().len(),
        !registers_atm(feed_ops(r)[k]),
    ensures
        removed_by(clear_ops(watch_list()[j].1), feed_ops(r)[k]) <==> watch_list()[j].2
            == feed_of(r),
{
    match r {
        FeedRecords::Kafka(rs) => kafka_metrics::lemma_reload_replaces_own_rows(rs, k, j),
        FeedRecords::WindowsOs(rs) => windows_metrics::lemma_reload_replaces_own_rows(rs, k, j),
        FeedRecords::Gcp(rs) => gcp_metrics::lemma_reload_replaces_own_rows(rs, k, j),
        FeedRecords::Prometheus(rs) => prometheus_metrics::lemma_reload_replaces_own_rows(
            rs,
            k,
            j,
        ),
        FeedRecords::HardwareSensor(rs) => hardware_sensor::lemma_reload_replaces_own_rows(
            rs,
            k,
            j,
        ),
        FeedRecords::AtmApplication(rs) => atm_app_log::lemma_reload_replaces_own_rows(rs, k, j),
        FeedRecords::TerminalHandler(rs) => terminal_handler::lemma_reload_replaces_own_rows(
            rs,
            k,
            j,
        ),
    }
}

/// Every metric fact a load plans names, as its source, one of the sources
/// registered in `dim_source`: the one of the loaded file.
pub proof fn lemma_facts_name_seeded_sources(r: FeedRecords, k: int)
    requires
        0 <= k < feed_ops(r).len(),
        feed_ops(r)[k].kind == StatementKind::InsertFactMetric,
    ensures
        0 <= feed_index(feed_of(r)) < dim_sources().len(),
        feed_ops(r)[k].params[2] == SqlValueView::Text(dim_sources()[feed_index(feed_of(r))].0),
{
    lemma_load_writes_own_rows(r, k);
}

/// Reloading a file whose content did not change leaves the database as it
/// was: once the file has been loaded (its source cleared, then its plan
/// run), clearing its source and running the same plan again gives back the
/// same rows in every table, `dim_atm` included.
pub proof fn lemma_reload_of_unchanged_content(db: DbState, r: FeedRecords)
    ensures
        ({
            let clear = clear_ops(watch_list()[feed_index(feed_of(r))].1);
            let plan = feed_ops(r);
            run(run(run(run(db, clear), plan), clear), plan) == run(run(db, clear), plan)
        }),
{
    let j = feed_index(feed_of(r));
    let clear = clear_ops(watch_list()[j].1);
    let plan = feed_ops(r);
    lemma_clearing_only_deletes(watch_list()[j].1);
    assert forall|k: int| 0 <= k < plan.len() implies (#[trigger] row_table(plan[k])) is Some && (
    if kept_table(row_table(plan[k])->0) {
        keyed_text(plan[k])
    } else {
        removed_by(clear, plan[k])
    }) by {
        lemma_load_writes_own_rows(r, k);
        if !registers_atm(plan[k]) {
            lemma_reload_replaces_feed_rows(r, k, j);
        }
    }
    assert(all_inserts(plan));
    assert(reload_safe(clear, plan));
    lemma_reload_is_idempotent(db, clear, plan);
}

} // verus!
