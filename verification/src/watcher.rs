//! The watch over the data directory: which files are watched, when a file
//! is to be loaded again, and which rows go before it is.

use vstd::prelude::*;
use vstd::string::*;
use rusqlite::Connection;
use crate::db::{
    ops_view, table_name, text_str, SqlValue, SqlValueView, Statement, StatementKind, StatementView,
    Table,
};
use crate::db::state::{all_deletes, lemma_clearing_is_idempotent, run, DbState};
use crate::text::str_eq;

verus! {

/// rusqlite's `Connection`, declared so that a watcher can hold the database
/// it loads into. It is opaque here: nothing is claimed of it.
#[verifier::external_type_specification]
#[verifier::external_body]
pub struct ExConnection(Connection);

/// A file's modification time: the distance from the Unix epoch in seconds
/// and nanoseconds, and on which side of the epoch it lies.
#[derive(Clone, Copy, Debug, PartialEq, Eq, Structural)]
pub struct ModTime {
    pub before_epoch: bool,
    pub secs: u64,
    pub nanos: u32,
}

/// The last modification time seen for one path.
pub struct WatchEntry {
    pub path: String,
    pub modified: ModTime,
}

/// The modification time last recorded for `p`: that of the last entry with
/// that path.
pub open spec fn lookup(entries: Seq<WatchEntry>, p: Seq<char>) -> Option<ModTime>
    decreases entries.len(),
{
    if entries.len() == 0 {
        None
    } else if entries.last().path@ == p {
        Some(entries.last().modified)
    } else {
        lookup(entries.drop_last(), p)
    }
}

proof fn lemma_lookup_absent(entries: Seq<WatchEntry>, p: Seq<char>)
    requires
        forall|j: int| 0 <= j < entries.len() ==> (#[trigger] entries[j]).path@ != p,
    ensures
        lookup(entries, p) is None,
    decreases entries.len(),
{
    if entries.len() > 0 {
        assert(entries.last() == entries[entries.len() - 1]);
        lemma_lookup_absent(entries.drop_last(), p);
    }
}

proof fn lemma_lookup_found(entries: Seq<WatchEntry>, k: int)
    requires
        0 <= k < entries.len(),
        forall|j: int| k < j < entries.len() ==> (#[trigger] entries[j]).path@ != entries[k].path@,
    ensures
        lookup(entries, entries[k].path@) == Some(entries[k].modified),
    decreases entries.len(),
{
    if k < entries.len() - 1 {
        assert(entries.last() == entries[entries.len() - 1]);
        let rest = entries.drop_last();
        assert(rest[k] == entries[k]);
        assert forall|j: int| k < j < rest.len() implies (#[trigger] rest[j]).path@ != rest[k].path@ by {
            assert(rest[j] == entries[j]);
        }
        lemma_lookup_found(rest, k);
    }
}

proof fn lemma_lookup_update(entries: Seq<WatchEntry>, k: int, e: WatchEntry, q: Seq<char>)
    requires
        0 <= k < entries.len(),
        e.path@ == entries[k].path@,
        forall|j: int| k < j < entries.len() ==> (#[trigger] entries[j]).path@ != entries[k].path@,
    ensures
        lookup(entries.update(k, e), q) == if q == e.path@ {
            Some(e.modified)
        } else {
            lookup(entries, q)
        },
    decreases entries.len(),
{
    let u = entries.update(k, e);
    if k == entries.len() - 1 {
        assert(u.drop_last() =~= entries.drop_last());
    } else {
        assert(entries.last() == entries[entries.len() - 1]);
        assert(u.last() == entries.last());
        assert(u.drop_last() =~= entries.drop_last().update(k, e));
        let rest = entries.drop_last();
        assert forall|j: int| k < j < rest.len() implies (#[trigger] rest[j]).path@ != rest[k].path@ by {
            assert(rest[j] == entries[j]);
        }
        lemma_lookup_update(rest, k, e, q);
    }
}

/// Whether a file observed with modification time `modified` is to be loaded
/// again: it is when its time can be read and differs from the one recorded
/// for its path, or none is recorded yet.
pub open spec fn needs_reload(
    seen: Map<Seq<char>, ModTime>,
    path: Seq<char>,
    modified: Option<ModTime>,
) -> bool {
    match modified {
        None => false,
        Some(t) => !seen.contains_key(path) || seen[path] != t,
    }
}

/// The recorded times after a file was observed: its new time is recorded
/// when it could be read; nothing changes otherwise.
pub open spec fn after_check(
    seen: Map<Seq<char>, ModTime>,
    path: Seq<char>,
    modified: Option<ModTime>,
) -> Map<Seq<char>, ModTime> {
    match modified {
        None => seen,
        Some(t) => seen.insert(path, t),
    }
}

/// Watches the data files and holds the database they are loaded into.
pub struct FileWatcher {
    pub files: Vec<WatchEntry>,
    pub conn: Connection,
}

impl View for FileWatcher {
    type V = Map<Seq<char>, ModTime>;

    /// The modification time recorded for each path seen so far.
    open spec fn view(&self) -> Map<Seq<char>, ModTime> {
        Map::new(|p: Seq<char>| lookup(self.files@, p) is Some, |p: Seq<char>| lookup(self.files@, p)->0)
    }
}

impl FileWatcher {
    /// A watcher that has seen no file yet.
    pub fn new(conn: Connection) -> (w: Self)
        ensures
            w@ == Map::<Seq<char>, ModTime>::empty(),
            w.conn == conn,
    {
        let w = FileWatcher { files: Vec::new(), conn };
        assert(w@ =~= Map::<Seq<char>, ModTime>::empty());
        w
    }

    /// Records the observation of a file: `modified` is its modification
    /// time, or `None` when its metadata or modification time could not be
    /// read. Returns whether the file is to be loaded again.
    pub fn record_modification(&mut self, file_path: &str, modified: Option<ModTime>) -> (changed: bool)
        ensures
            changed == needs_reload(old(self)@, file_path@, modified),
            final(self)@ == after_check(old(self)@, file_path@, modified),
            final(self).conn == old(self).conn,
    {
        let t = match modified {
            None => {
                return false;
            },
            Some(t) => t,
        };
        let ghost old_files = self.files@;
        let mut i: usize = self.files.len();
        let mut found: Option<usize> = None;
        while i > 0 && found.is_none()
            invariant
                i <= self.files@.len(),
                self.files@ == old_files,
                found matches Some(k) ==> k < self.files@.len() && self.files@[k as int].path@
                    == file_path@ && forall|j: int|
                    k < j < self.files@.len() ==> (#[trigger] self.files@[j]).path@ != file_path@,
                found is None ==> forall|j: int|
                    i <= j < self.files@.len() ==> (#[trigger] self.files@[j]).path@ != file_path@,
            decreases i,
        {
            if str_eq(self.files[i - 1].path.as_str(), file_path) {
                found = Some(i - 1);
            }
            i = i - 1;
        }
        let entry = WatchEntry { path: String::from_str(file_path), modified: t };
        match found {
            Some(k) => {
                proof {
                    lemma_lookup_found(old_files, k as int);
                }
                if self.files[k].modified == t {
                    proof {
                        assert(old(self)@ =~= old(self)@.insert(file_path@, t));
                    }
                    false
                } else {
                    self.files.set(k, entry);
                    proof {
                        assert forall|q: Seq<char>| lookup(self.files@, q) == if q == file_path@ {
                            Some(t)
                        } else {
                            lookup(old_files, q)
                        } by {
                            lemma_lookup_update(old_files, k as int, entry, q);
                        }
                        assert(self@ =~= old(self)@.insert(file_path@, t));
                    }
                    true
                }
            },
            None => {
                proof {
                    lemma_lookup_absent(old_files, file_path@);
                }
                self.files.push(entry);
                proof {
                    assert forall|q: Seq<char>| lookup(self.files@, q) == if q == file_path@ {
                        Some(t)
                    } else {
                        lookup(old_files, q)
                    } by {
                        assert(self.files@.drop_last() =~= old_files);
                    }
                    assert(self@ =~= old(self)@.insert(file_path@, t));
                }
                true
            },
        }
    }

    /// Observes the file `file_path` of source `source`, whose modification
    /// time is `modified` (`None` when it cannot be read). When the file is
    /// to be loaded again, returns the statements that clear what the
    /// source's earlier load wrote; they run before the file is parsed and
    /// loaded anew.
    pub fn check_file(&mut self, file_path: &str, source: &str, modified: Option<ModTime>) -> (clear: Option<Vec<Statement>>)
        ensures
            clear is Some <==> needs_reload(old(self)@, file_path@, modified),
            clear matches Some(ops) ==> ops_view(ops@) == clear_ops(source@),
            final(self)@ == after_check(old(self)@, file_path@, modified),
            final(self).conn == old(self).conn,
    {
        if self.record_modification(file_path, modified) {
            Some(clear_source_data(source))
        } else {
            None
        }
    }

    /// One pass over the watched files: checks each of them in order, as
    /// [`FileWatcher::check_file`] does, the `i`-th with the modification time
    /// `times[i]` (`None` when it cannot be read, or when `times` has no
    /// `i`-th entry). Returns, for each watched file in order, the statements
    /// that clear its source when it is to be loaded again.
    pub fn check_files(&mut self, times: &Vec<Option<ModTime>>) -> (actions: Vec<Option<Vec<Statement>>>)
        ensures
            actions@.len() == watch_list().len(),
            final(self)@ == seen_after(
                old(self)@,
                watched_paths(),
                observed_times(times@),
                watch_list().len(),
            ),
            forall|i: int|
                0 <= i < watch_list().len() ==> {
                    &&& ((#[trigger] actions@[i]) is Some <==> needs_reload(
                        seen_after(old(self)@, watched_paths(), observed_times(times@), i as nat),
                        watched_paths()[i],
                        observed_times(times@)[i],
                    ))
                    &&& (actions@[i] matches Some(ops) ==> ops_view(ops@) == clear_ops(
                        watch_list()[i].1,
                    ))
                },
            final(self).conn == old(self).conn,
    {
        let files = watched_files();
        let ghost obs = observed_times(times@);
        let ghost start = self@;
        proof {
            assert(files@.map_values(|w: WatchedFile| w@).len() == watch_list().len());
        }
        let mut actions: Vec<Option<Vec<Statement>>> = Vec::new();
        let mut i: usize = 0;
        while i < files.len()
            invariant
                files@.map_values(|w: WatchedFile| w@) == watch_list(),
                files@.len() == watch_list().len(),
                i <= files@.len(),
                obs == observed_times(times@),
                self@ == seen_after(start, watched_paths(), obs, i as nat),
                self.conn == old(self).conn,
                actions@.len() == i,
                forall|j: int|
                    0 <= j < i ==> {
                        &&& ((#[trigger] actions@[j]) is Some <==> needs_reload(
                            seen_after(start, watched_paths(), obs, j as nat),
                            watched_paths()[j],
                            obs[j],
                        ))
                        &&& (actions@[j] matches Some(ops) ==> ops_view(ops@) == clear_ops(
                            watch_list()[j].1,
                        ))
                    },
            decreases files@.len() - i,
        {
            let modified = if i < times.len() {
                times[i]
            } else {
                None
            };
            proof {
                assert(files@.map_values(|w: WatchedFile| w@)[i as int] == files@[i as int]@);
                assert(watched_paths()[i as int] == watch_list()[i as int].0);
                assert(modified == obs[i as int]);
            }
            let action = self.check_file(files[i].path, files[i].source, modified);
            actions.push(action);
            i = i + 1;
        }
        actions
    }
}

/// Which parser a watched file is read with.
#[derive(Clone, Copy, Debug, PartialEq, Eq, Structural)]
pub enum Feed {
    Kafka,
    WindowsOs,
    Gcp,
    Prometheus,
    HardwareSensor,
    AtmApplication,
    TerminalHandler,
}

/// A watched file: its path, the name of its source and its parser.
#[derive(Debug)]
pub struct WatchedFile {
    pub path: &'static str,
    pub source: &'static str,
    pub feed: Feed,
}

impl View for WatchedFile {
    type V = (Seq<char>, Seq<char>, Feed);

    open spec fn view(&self) -> (Seq<char>, Seq<char>, Feed) {
        (self.path@, self.source@, self.feed)
    }
}

/// The watched files, in the order they are checked.
pub open spec fn watch_list() -> Seq<(Seq<char>, Seq<char>, Feed)> {
    seq![
        ("data/kafka_atm_metrics_stream.json"@, "kafka"@, Feed::Kafka),
        ("data/windows_os_metrics.csv"@, "windows_os"@, Feed::WindowsOs),
        ("data/gcp_cloud_metrics.csv"@, "gcp"@, Feed::Gcp),
        ("data/prometheus_metrics.csv"@, "prometheus"@, Feed::Prometheus),
        ("data/atm_hardware_sensor_log.json"@, "hardware_sensor"@, Feed::HardwareSensor),
        ("data/atm_application_log.json"@, "atm_application"@, Feed::AtmApplication),
        ("data/terminal_handler_app_log.json"@, "terminal_handler"@, Feed::TerminalHandler),
    ]
}

/// The watched files, in the order they are checked.
pub fn watched_files() -> (v: Vec<WatchedFile>)
    ensures
        v@.map_values(|w: WatchedFile| w@) == watch_list(),
{
    let v = vec![
        WatchedFile {
            path: "data/kafka_atm_metrics_stream.json",
            source: "kafka",
            feed: Feed::Kafka,
        },
        WatchedFile {
            path: "data/windows_os_metrics.csv",
            source: "windows_os",
            feed: Feed::WindowsOs,
        },
        WatchedFile { path: "data/gcp_cloud_metrics.csv", source: "gcp", feed: Feed::Gcp },
        WatchedFile {
            path: "data/prometheus_metrics.csv",
            source: "prometheus",
            feed: Feed::Prometheus,
        },
        WatchedFile {
            path: "data/atm_hardware_sensor_log.json",
            source: "hardware_sensor",
            feed: Feed::HardwareSensor,
        },
        WatchedFile {
            path: "data/atm_application_log.json",
            source: "atm_application",
            feed: Feed::AtmApplication,
        },
        WatchedFile {
            path: "data/terminal_handler_app_log.json",
            source: "terminal_handler",
            feed: Feed::TerminalHandler,
        },
    ];
    assert(v@.map_values(|w: WatchedFile| w@) =~= watch_list());
    v
}

/// The staging table of a source, for the seven known source names.
pub open spec fn staging_table_of(source: Seq<char>) -> Option<Table> {
    if source == "kafka"@ {
        Some(Table::KafkaAtmMetrics)
    } else if source == "windows_os"@ {
        Some(Table::WindowsOsMetrics)
    } else if source == "gcp"@ {
        Some(Table::GcpCloudMetrics)
    } else if source == "prometheus"@ {
        Some(Table::PrometheusMetrics)
    } else if source == "hardware_sensor"@ {
        Some(Table::HardwareSensorLog)
    } else if source == "atm_application"@ {
        Some(Table::AtmApplicationLog)
    } else if source == "terminal_handler"@ {
        Some(Table::TerminalHandlerLog)
    } else {
        None
    }
}

/// The statements that clear what an earlier load of a source wrote: its
/// staging table (when the source is known), the anomalies whose
/// `source_table` is LIKE `%source%`, and the metric facts of the source.
pub open spec fn clear_ops(source: Seq<char>) -> Seq<StatementView> {
    let tail = seq![
        StatementView {
            kind: StatementKind::DeleteAnomaliesLike,
            params: seq![SqlValueView::Text("%"@ + source + "%"@)],
        },
        StatementView {
            kind: StatementKind::DeleteFactMetricsBySource,
            params: seq![SqlValueView::Text(source)],
        },
    ];
    match staging_table_of(source) {
        Some(t) => seq![StatementView { kind: StatementKind::DeleteAll(t), params: seq![] }] + tail,
        None => tail,
    }
}

/// The statements that clear what an earlier load of `source` wrote.
pub fn clear_source_data(source: &str) -> (v: Vec<Statement>)
    ensures
        ops_view(v@) == clear_ops(source@),
{
    let table = if str_eq(source, "kafka") {
        Some(Table::KafkaAtmMetrics)
    } else if str_eq(source, "windows_os") {
        Some(Table::WindowsOsMetrics)
    } else if str_eq(source, "gcp") {
        Some(Table::GcpCloudMetrics)
    } else if str_eq(source, "prometheus") {
        Some(Table::PrometheusMetrics)
    } else if str_eq(source, "hardware_sensor") {
        Some(Table::HardwareSensorLog)
    } else if str_eq(source, "atm_application") {
        Some(Table::AtmApplicationLog)
    } else if str_eq(source, "terminal_handler") {
        Some(Table::TerminalHandlerLog)
    } else {
        None
    };
    let mut v: Vec<Statement> = Vec::new();
    if let Some(t) = table {
        let d = Statement { kind: StatementKind::DeleteAll(t), params: Vec::new() };
        assert(d@.params =~= seq![]);
        v.push(d);
    }
    let mut pattern = String::from_str("%");
    pattern.append(source);
    pattern.append("%");
    let like = Statement {
        kind: StatementKind::DeleteAnomaliesLike,
        params: vec![SqlValue::Text(pattern)],
    };
    assert(like@.params =~= seq![SqlValueView::Text("%"@ + source@ + "%"@)]);
    let facts = Statement {
        kind: StatementKind::DeleteFactMetricsBySource,
        params: vec![text_str(source)],
    };
    assert(facts@.params =~= seq![SqlValueView::Text(source@)]);
    let ghost before = v@;
    v.push(like);
    v.push(facts);
    assert(ops_view(v@) =~= ops_view(before).push(like@).push(facts@));
    assert(ops_view(v@) =~= clear_ops(source@));
    v
}

/// ASCII case folding, as SQLite's LIKE applies it.
pub open spec fn fold_ascii(c: char) -> char {
    if 'A' <= c && c <= 'Z' {
        ((c as u32) + 32) as char
    } else {
        c
    }
}

/// SQLite's `text LIKE pattern` without an ESCAPE clause: `%` matches any
/// sequence of characters, `_` any one character, and other characters match
/// themselves up to ASCII case.
pub open spec fn like_match(pattern: Seq<char>, t: Seq<char>) -> bool
    decreases pattern.len(), t.len(),
{
    if pattern.len() == 0 {
        t.len() == 0
    } else if pattern[0] == '%' {
        like_match(pattern.drop_first(), t) || (t.len() > 0 && like_match(pattern, t.drop_first()))
    } else if t.len() == 0 {
        false
    } else if pattern[0] == '_' || fold_ascii(pattern[0]) == fold_ascii(t[0]) {
        like_match(pattern.drop_first(), t.drop_first())
    } else {
        false
    }
}

/// The statement that writes the staging rows of a table.
pub open spec fn staging_insert(t: Table) -> StatementKind {
    match t {
        Table::KafkaAtmMetrics => StatementKind::InsertKafka,
        Table::WindowsOsMetrics => StatementKind::InsertWindows,
        Table::GcpCloudMetrics => StatementKind::InsertGcp,
        Table::PrometheusMetrics => StatementKind::InsertPrometheus,
        Table::HardwareSensorLog => StatementKind::InsertHardware,
        Table::AtmApplicationLog => StatementKind::InsertAtmApp,
        Table::TerminalHandlerLog => StatementKind::InsertTerminal,
    }
}

/// The staging table a feed is loaded into.
pub open spec fn feed_table(f: Feed) -> Table {
    match f {
        Feed::Kafka => Table::KafkaAtmMetrics,
        Feed::WindowsOs => Table::WindowsOsMetrics,
        Feed::Gcp => Table::GcpCloudMetrics,
        Feed::Prometheus => Table::PrometheusMetrics,
        Feed::HardwareSensor => Table::HardwareSensorLog,
        Feed::AtmApplication => Table::AtmApplicationLog,
        Feed::TerminalHandler => Table::TerminalHandlerLog,
    }
}

/// Whether a statement registers an ATM in `dim_atm`.
pub open spec fn registers_atm(op: StatementView) -> bool {
    ||| op.kind == StatementKind::InsertDimAtmWindows
    ||| op.kind == StatementKind::InsertDimAtmHardware
    ||| op.kind == StatementKind::InsertDimAtmApp
}

/// Whether the clearing statement `c` removes the row that `op` writes.
pub open spec fn clear_removes(c: StatementView, op: StatementView) -> bool {
    match c.kind {
        StatementKind::DeleteAll(t) => op.kind == staging_insert(t),
        StatementKind::DeleteAnomaliesLike => {
            &&& op.kind == StatementKind::InsertAnomaly
            &&& c.params.len() == 1
            &&& op.params.len() == 7
            &&& c.params[0] is Text
            &&& op.params[3] is Text
            &&& like_match(c.params[0]->Text_0, op.params[3]->Text_0)
        },
        StatementKind::DeleteFactMetricsBySource => {
            &&& op.kind == StatementKind::InsertFactMetric
            &&& c.params.len() == 1
            &&& op.params.len() == 6
            &&& c.params[0] == op.params[2]
        },
        _ => false,
    }
}

/// Whether one of the clearing statements removes the row that `op` writes.
pub open spec fn removed_by(clear: Seq<StatementView>, op: StatementView) -> bool
    decreases clear.len(),
{
    clear.len() > 0 && (clear_removes(clear[0], op) || removed_by(clear.drop_first(), op))
}

/// Whether `op` writes a row that a load of feed `f`, named `source`, owns:
/// a staging row of its table, an anomaly recorded against that table, a
/// metric fact of the source, or the registration of an ATM named by its id.
pub open spec fn in_footprint(op: StatementView, f: Feed, source: Seq<char>) -> bool {
    ||| op.kind == staging_insert(feed_table(f))
    ||| {
        &&& op.kind == StatementKind::InsertAnomaly
        &&& op.params.len() == 7
        &&& op.params[3] == SqlValueView::Text(table_name(feed_table(f)))
    }
    ||| {
        &&& op.kind == StatementKind::InsertFactMetric
        &&& op.params.len() == 6
        &&& op.params[2] == SqlValueView::Text(source)
    }
    ||| registers_atm(op) && op.params.len() > 0 && op.params[0] is Text
}

proof fn lemma_clearing_rows_of_kafka(source: Seq<char>, op: StatementView)
    requires
        in_footprint(op, Feed::Kafka, "kafka"@),
        !registers_atm(op),
        source == "kafka"@ || source == "windows_os"@ || source == "gcp"@ || source == "prometheus"@
            || source == "hardware_sensor"@ || source == "atm_application"@ || source
            == "terminal_handler"@,
    ensures
        removed_by(clear_ops(source), op) <==> source == "kafka"@,
{
    reveal_strlit("kafka");
    reveal_strlit("windows_os");
    reveal_strlit("gcp");
    reveal_strlit("prometheus");
    reveal_strlit("hardware_sensor");
    reveal_strlit("atm_application");
    reveal_strlit("terminal_handler");
    reveal_strlit("kafka_atm_metrics");
    reveal_strlit("windows_os_metrics");
    reveal_strlit("gcp_cloud_metrics");
    reveal_strlit("prometheus_metrics");
    reveal_strlit("hardware_sensor_log");
    reveal_strlit("atm_application_log");
    reveal_strlit("terminal_handler_log");
    reveal_strlit("%");
    reveal_with_fuel(like_match, 25);
    reveal_with_fuel(removed_by, 4);
    if source == "kafka"@ {
    } else if source == "windows_os"@ {
    } else if source == "gcp"@ {
    } else if source == "prometheus"@ {
    } else if source == "hardware_sensor"@ {
    } else if source == "atm_application"@ {
    } else {
    }
}

proof fn lemma_clearing_rows_of_windows_os(source: Seq<char>, op: StatementView)
    requires
        in_footprint(op, Feed::WindowsOs, "windows_os"@),
        !registers_atm(op),
        source == "kafka"@ || source == "windows_os"@ || source == "gcp"@ || source == "prometheus"@
            || source == "hardware_sensor"@ || source == "atm_application"@ || source
            == "terminal_handler"@,
    ensures
        removed_by(clear_ops(source), op) <==> source == "windows_os"@,
{
    reveal_strlit("kafka");
    reveal_strlit("windows_os");
    reveal_strlit("gcp");
    reveal_strlit("prometheus");
    reveal_strlit("hardware_sensor");
    reveal_strlit("atm_application");
    reveal_strlit("terminal_handler");
    reveal_strlit("kafka_atm_metrics");
    reveal_strlit("windows_os_metrics");
    reveal_strlit("gcp_cloud_metrics");
    reveal_strlit("prometheus_metrics");
    reveal_strlit("hardware_sensor_log");
    reveal_strlit("atm_application_log");
    reveal_strlit("terminal_handler_log");
    reveal_strlit("%");
    reveal_with_fuel(like_match, 25);
    reveal_with_fuel(removed_by, 4);
    if source == "kafka"@ {
    } else if source == "windows_os"@ {
    } else if source == "gcp"@ {
    } else if source == "prometheus"@ {
    } else if source == "hardware_sensor"@ {
    } else if source == "atm_application"@ {
    } else {
    }
}

proof fn lemma_clearing_rows_of_gcp(source: Seq<char>, op: StatementView)
    requires
        in_footprint(op, Feed::Gcp, "gcp"@),
        !registers_atm(op),
        source == "kafka"@ || source == "windows_os"@ || source == "gcp"@ || source == "prometheus"@
            || source == "hardware_sensor"@ || source == "atm_application"@ || source
            == "terminal_handler"@,
    ensures
        removed_by(clear_ops(source), op) <==> source == "gcp"@,
{
    reveal_strlit("kafka");
    reveal_strlit("windows_os");
    reveal_strlit("gcp");
    reveal_strlit("prometheus");
    reveal_strlit("hardware_sensor");
    reveal_strlit("atm_application");
    reveal_strlit("terminal_handler");
    reveal_strlit("kafka_atm_metrics");
    reveal_strlit("windows_os_metrics");
    reveal_strlit("gcp_cloud_metrics");
    reveal_strlit("prometheus_metrics");
    reveal_strlit("hardware_sensor_log");
    reveal_strlit("atm_application_log");
    reveal_strlit("terminal_handler_log");
    reveal_strlit("%");
    reveal_with_fuel(like_match, 25);
    reveal_with_fuel(removed_by, 4);
    if source == "kafka"@ {
    } else if source == "windows_os"@ {
    } else if source == "gcp"@ {
    } else if source == "prometheus"@ {
    } else if source == "hardware_sensor"@ {
    } else if source == "atm_application"@ {
    } else {
    }
}

proof fn lemma_clearing_rows_of_prometheus(source: Seq<char>, op: StatementView)
    requires
        in_footprint(op, Feed::Prometheus, "prometheus"@),
        !registers_atm(op),
        source == "kafka"@ || source == "windows_os"@ || source == "gcp"@ || source == "prometheus"@
            || source == "hardware_sensor"@ || source == "atm_application"@ || source
            == "terminal_handler"@,
    ensures
        removed_by(clear_ops(source), op) <==> source == "prometheus"@,
{
    reveal_strlit("kafka");
    reveal_strlit("windows_os");
    reveal_strlit("gcp");
    reveal_strlit("prometheus");
    reveal_strlit("hardware_sensor");
    reveal_strlit("atm_application");
    reveal_strlit("terminal_handler");
    reveal_strlit("kafka_atm_metrics");
    reveal_strlit("windows_os_metrics");
    reveal_strlit("gcp_cloud_metrics");
    reveal_strlit("prometheus_metrics");
    reveal_strlit("hardware_sensor_log");
    reveal_strlit("atm_application_log");
    reveal_strlit("terminal_handler_log");
    reveal_strlit("%");
    reveal_with_fuel(like_match, 25);
    reveal_with_fuel(removed_by, 4);
    if source == "kafka"@ {
    } else if source == "windows_os"@ {
    } else if source == "gcp"@ {
    } else if source == "prometheus"@ {
    } else if source == "hardware_sensor"@ {
    } else if source == "atm_application"@ {
    } else {
    }
}

proof fn lemma_clearing_rows_of_hardware_sensor(source: Seq<char>, op: StatementView)
    requires
        in_footprint(op, Feed::HardwareSensor, "hardware_sensor"@),
        !registers_atm(op),
        source == "kafka"@ || source == "windows_os"@ || source == "gcp"@ || source == "prometheus"@
            || source == "hardware_sensor"@ || source == "atm_application"@ || source
            == "terminal_handler"@,
    ensures
        removed_by(clear_ops(source), op) <==> source == "hardware_sensor"@,
{
    reveal_strlit("kafka");
    reveal_strlit("windows_os");
    reveal_strlit("gcp");
    reveal_strlit("prometheus");
    reveal_strlit("hardware_sensor");
    reveal_strlit("atm_application");
    reveal_strlit("terminal_handler");
    reveal_strlit("kafka_atm_metrics");
    reveal_strlit("windows_os_metrics");
    reveal_strlit("gcp_cloud_metrics");
    reveal_strlit("prometheus_metrics");
    reveal_strlit("hardware_sensor_log");
    reveal_strlit("atm_application_log");
    reveal_strlit("terminal_handler_log");
    reveal_strlit("%");
    reveal_with_fuel(like_match, 25);
    reveal_with_fuel(removed_by, 4);
    if source == "kafka"@ {
    } else if source == "windows_os"@ {
    } else if source == "gcp"@ {
    } else if source == "prometheus"@ {
    } else if source == "hardware_sensor"@ {
    } else if source == "atm_application"@ {
    } else {
    }
}

proof fn lemma_clearing_rows_of_atm_application(source: Seq<char>, op: StatementView)
    requires
        in_footprint(op, Feed::AtmApplication, "atm_application"@),
        !registers_atm(op),
        source == "kafka"@ || source == "windows_os"@ || source == "gcp"@ || source == "prometheus"@
            || source == "hardware_sensor"@ || source == "atm_application"@ || source
            == "terminal_handler"@,
    ensures
        removed_by(clear_ops(source), op) <==> source == "atm_application"@,
{
    reveal_strlit("kafka");
    reveal_strlit("windows_os");
    reveal_strlit("gcp");
    reveal_strlit("prometheus");
    reveal_strlit("hardware_sensor");
    reveal_strlit("atm_application");
    reveal_strlit("terminal_handler");
    reveal_strlit("kafka_atm_metrics");
    reveal_strlit("windows_os_metrics");
    reveal_strlit("gcp_cloud_metrics");
    reveal_strlit("prometheus_metrics");
    reveal_strlit("hardware_sensor_log");
    reveal_strlit("atm_application_log");
    reveal_strlit("terminal_handler_log");
    reveal_strlit("%");
    reveal_with_fuel(like_match, 25);
    reveal_with_fuel(removed_by, 4);
    if source == "kafka"@ {
    } else if source == "windows_os"@ {
    } else if source == "gcp"@ {
    } else if source == "prometheus"@ {
    } else if source == "hardware_sensor"@ {
    } else if source == "atm_application"@ {
    } else {
    }
}

proof fn lemma_clearing_rows_of_terminal_handler(source: Seq<char>, op: StatementView)
    requires
        in_footprint(op, Feed::TerminalHandler, "terminal_handler"@),
        !registers_atm(op),
        source == "kafka"@ || source == "windows_os"@ || source == "gcp"@ || source == "prometheus"@
            || source == "hardware_sensor"@ || source == "atm_application"@ || source
            == "terminal_handler"@,
    ensures
        removed_by(clear_ops(source), op) <==> source == "terminal_handler"@,
{
    reveal_strlit("kafka");
    reveal_strlit("windows_os");
    reveal_strlit("gcp");
    reveal_strlit("prometheus");
    reveal_strlit("hardware_sensor");
    reveal_strlit("atm_application");
    reveal_strlit("terminal_handler");
    reveal_strlit("kafka_atm_metrics");
    reveal_strlit("windows_os_metrics");
    reveal_strlit("gcp_cloud_metrics");
    reveal_strlit("prometheus_metrics");
    reveal_strlit("hardware_sensor_log");
    reveal_strlit("atm_application_log");
    reveal_strlit("terminal_handler_log");
    reveal_strlit("%");
    reveal_with_fuel(like_match, 25);
    reveal_with_fuel(removed_by, 4);
    if source == "kafka"@ {
    } else if source == "windows_os"@ {
    } else if source == "gcp"@ {
    } else if source == "prometheus"@ {
    } else if source == "hardware_sensor"@ {
    } else if source == "atm_application"@ {
    } else {
    }
}

/// Clearing source `source` removes the rows a load of the `i`-th watched
/// source wrote exactly when that source is `source`.
proof fn lemma_clearing_one_source(i: int, source: Seq<char>, op: StatementView)
    requires
        0 <= i < watch_list().len(),
        in_footprint(op, watch_list()[i].2, watch_list()[i].1),
        !registers_atm(op),
        source == "kafka"@ || source == "windows_os"@ || source == "gcp"@ || source == "prometheus"@
            || source == "hardware_sensor"@ || source == "atm_application"@ || source
            == "terminal_handler"@,
    ensures
        removed_by(clear_ops(source), op) <==> source == watch_list()[i].1,
{
    if i == 0 {
        assert(watch_list()[i] == ("data/kafka_atm_metrics_stream.json"@, "kafka"@, Feed::Kafka));
        lemma_clearing_rows_of_kafka(source, op);
    } else if i == 1 {
        assert(watch_list()[i] == ("data/windows_os_metrics.csv"@, "windows_os"@, Feed::WindowsOs));
        lemma_clearing_rows_of_windows_os(source, op);
    } else if i == 2 {
        assert(watch_list()[i] == ("data/gcp_cloud_metrics.csv"@, "gcp"@, Feed::Gcp));
        lemma_clearing_rows_of_gcp(source, op);
    } else if i == 3 {
        assert(watch_list()[i] == ("data/prometheus_metrics.csv"@, "prometheus"@, Feed::Prometheus));
        lemma_clearing_rows_of_prometheus(source, op);
    } else if i == 4 {
        assert(watch_list()[i] == ("data/atm_hardware_sensor_log.json"@, "hardware_sensor"@, Feed::HardwareSensor));
        lemma_clearing_rows_of_hardware_sensor(source, op);
    } else if i == 5 {
        assert(watch_list()[i] == ("data/atm_application_log.json"@, "atm_application"@, Feed::AtmApplication));
        lemma_clearing_rows_of_atm_application(source, op);
    } else if i == 6 {
        assert(watch_list()[i] == ("data/terminal_handler_app_log.json"@, "terminal_handler"@, Feed::TerminalHandler));
        lemma_clearing_rows_of_terminal_handler(source, op);
    }
}

/// Clearing a watched source before it is loaded again removes every row an
/// earlier load of that source wrote, ATM registrations aside, and no row
/// that a load of another watched source wrote.
pub proof fn lemma_clearing_targets_own_rows(i: int, j: int, op: StatementView)
    requires
        0 <= i < watch_list().len(),
        0 <= j < watch_list().len(),
        in_footprint(op, watch_list()[i].2, watch_list()[i].1),
        !registers_atm(op),
    ensures
        removed_by(clear_ops(watch_list()[j].1), op) <==> i == j,
{
    lemma_watched_sources_distinct(i, j);
    lemma_clearing_one_source(i, watch_list()[j].1, op);
}

/// The seven watched sources have seven distinct names.
proof fn lemma_watched_sources_distinct(i: int, j: int)
    requires
        0 <= i < watch_list().len(),
        0 <= j < watch_list().len(),
    ensures
        watch_list()[j].1 == "kafka"@ || watch_list()[j].1 == "windows_os"@ || watch_list()[j].1
            == "gcp"@ || watch_list()[j].1 == "prometheus"@ || watch_list()[j].1
            == "hardware_sensor"@ || watch_list()[j].1 == "atm_application"@ || watch_list()[j].1
            == "terminal_handler"@,
        watch_list()[i].1 == watch_list()[j].1 <==> i == j,
{
    reveal_strlit("kafka");
    reveal_strlit("windows_os");
    reveal_strlit("gcp");
    reveal_strlit("prometheus");
    reveal_strlit("hardware_sensor");
    reveal_strlit("atm_application");
    reveal_strlit("terminal_handler");
    reveal_strlit("kafka_atm_metrics");
    reveal_strlit("windows_os_metrics");
    reveal_strlit("gcp_cloud_metrics");
    reveal_strlit("prometheus_metrics");
    reveal_strlit("hardware_sensor_log");
    reveal_strlit("atm_application_log");
    reveal_strlit("terminal_handler_log");
    reveal_strlit("%");
    assert(watch_list()[i].1[0] == watch_list()[j].1[0] && watch_list()[i].1.len() == watch_list()[j].1.len() ==> i == j);
}

/// Clearing any source keeps the ATM registrations: `dim_atm` remembers
/// each ATM as first seen, across reloads.
pub proof fn lemma_clearing_keeps_atm_registrations(source: Seq<char>, op: StatementView)
    requires
        registers_atm(op),
    ensures
        !removed_by(clear_ops(source), op),
{
    reveal_with_fuel(removed_by, 4);
}

/// A file seen for the first time is loaded, once its modification time can
/// be read.
pub proof fn lemma_new_file_is_loaded(seen: Map<Seq<char>, ModTime>, path: Seq<char>, t: ModTime)
    requires
        !seen.contains_key(path),
    ensures
        needs_reload(seen, path, Some(t)),
{
}

/// A file whose metadata cannot be read is never loaded, and its observation
/// changes nothing.
pub proof fn lemma_unreadable_file_is_skipped(seen: Map<Seq<char>, ModTime>, path: Seq<char>)
    ensures
        !needs_reload(seen, path, None),
        after_check(seen, path, None) == seen,
{
}

/// Observing a file twice with the same modification time loads it at most
/// once: after the first observation the second asks for no reload.
pub proof fn lemma_unchanged_file_is_not_reloaded(
    seen: Map<Seq<char>, ModTime>,
    path: Seq<char>,
    modified: Option<ModTime>,
)
    ensures
        !needs_reload(after_check(seen, path, modified), path, modified),
{
}

/// Observing one file leaves the times recorded for every other file as they were.
pub proof fn lemma_check_leaves_other_files(
    seen: Map<Seq<char>, ModTime>,
    path: Seq<char>,
    modified: Option<ModTime>,
    other: Seq<char>,
)
    requires
        other != path,
    ensures
        after_check(seen, path, modified).contains_key(other) == seen.contains_key(other),
        seen.contains_key(other) ==> after_check(seen, path, modified)[other] == seen[other],
{
}

/// The sources registered in `dim_source` are the sources of the watched
/// files, in the same order.
pub proof fn lemma_dim_sources_are_watched_sources()
    ensures
        crate::db::dim_sources().map_values(|s: (Seq<char>, Seq<char>, Seq<char>)| s.0)
            == watch_list().map_values(|w: (Seq<char>, Seq<char>, Feed)| w.1),
{
    assert(crate::db::dim_sources().map_values(|s: (Seq<char>, Seq<char>, Seq<char>)| s.0)
        =~= watch_list().map_values(|w: (Seq<char>, Seq<char>, Feed)| w.1));
}

/// Every watched source has a staging table, and distinct watched sources
/// have distinct staging tables.
pub proof fn lemma_watched_sources_have_own_tables(i: int, j: int)
    requires
        0 <= i < watch_list().len(),
        0 <= j < watch_list().len(),
    ensures
        staging_table_of(watch_list()[i].1) == Some(feed_table(watch_list()[i].2)),
        staging_table_of(watch_list()[i].1) == staging_table_of(watch_list()[j].1) <==> i == j,
{
    reveal_strlit("kafka");
    reveal_strlit("windows_os");
    reveal_strlit("gcp");
    reveal_strlit("prometheus");
    reveal_strlit("hardware_sensor");
    reveal_strlit("atm_application");
    reveal_strlit("terminal_handler");
    lemma_watched_sources_distinct(i, j);
    lemma_watched_sources_distinct(j, i);
    if i == 0 {
        assert(watch_list()[i] == ("data/kafka_atm_metrics_stream.json"@, "kafka"@, Feed::Kafka));
        assert("kafka"@[0] == 'k');
        assert(staging_table_of("kafka"@) == Some(Table::KafkaAtmMetrics));
    } else if i == 1 {
        assert(watch_list()[i] == ("data/windows_os_metrics.csv"@, "windows_os"@, Feed::WindowsOs));
        assert("windows_os"@[0] == 'w');
        assert(staging_table_of("windows_os"@) == Some(Table::WindowsOsMetrics));
    } else if i == 2 {
        assert(watch_list()[i] == ("data/gcp_cloud_metrics.csv"@, "gcp"@, Feed::Gcp));
        assert("gcp"@[0] == 'g');
        assert(staging_table_of("gcp"@) == Some(Table::GcpCloudMetrics));
    } else if i == 3 {
        assert(watch_list()[i] == ("data/prometheus_metrics.csv"@, "prometheus"@, Feed::Prometheus));
        assert("prometheus"@[0] == 'p');
        assert(staging_table_of("prometheus"@) == Some(Table::PrometheusMetrics));
    } else if i == 4 {
        assert(watch_list()[i] == ("data/atm_hardware_sensor_log.json"@, "hardware_sensor"@, Feed::HardwareSensor));
        assert("hardware_sensor"@[0] == 'h');
        assert(staging_table_of("hardware_sensor"@) == Some(Table::HardwareSensorLog));
    } else if i == 5 {
        assert(watch_list()[i] == ("data/atm_application_log.json"@, "atm_application"@, Feed::AtmApplication));
        assert("atm_application"@[0] == 'a');
        assert(staging_table_of("atm_application"@) == Some(Table::AtmApplicationLog));
    } else if i == 6 {
        assert(watch_list()[i] == ("data/terminal_handler_app_log.json"@, "terminal_handler"@, Feed::TerminalHandler));
        assert("terminal_handler"@[0] == 't');
        assert(staging_table_of("terminal_handler"@) == Some(Table::TerminalHandlerLog));
    }
    if j == 0 {
        assert(watch_list()[j] == ("data/kafka_atm_metrics_stream.json"@, "kafka"@, Feed::Kafka));
    } else if j == 1 {
        assert(watch_list()[j] == ("data/windows_os_metrics.csv"@, "windows_os"@, Feed::WindowsOs));
    } else if j == 2 {
        assert(watch_list()[j] == ("data/gcp_cloud_metrics.csv"@, "gcp"@, Feed::Gcp));
    } else if j == 3 {
        assert(watch_list()[j] == ("data/prometheus_metrics.csv"@, "prometheus"@, Feed::Prometheus));
    } else if j == 4 {
        assert(watch_list()[j] == ("data/atm_hardware_sensor_log.json"@, "hardware_sensor"@, Feed::HardwareSensor));
    } else if j == 5 {
        assert(watch_list()[j] == ("data/atm_application_log.json"@, "atm_application"@, Feed::AtmApplication));
    } else if j == 6 {
        assert(watch_list()[j] == ("data/terminal_handler_app_log.json"@, "terminal_handler"@, Feed::TerminalHandler));
    }
}

/// The recorded times after observing `paths[0..n]` with times `times[0..n]`, in order.
pub open spec fn seen_after(
    seen: Map<Seq<char>, ModTime>,
    paths: Seq<Seq<char>>,
    times: Seq<Option<ModTime>>,
    n: nat,
) -> Map<Seq<char>, ModTime>
    decreases n,
{
    if n == 0 {
        seen
    } else {
        after_check(seen_after(seen, paths, times, (n - 1) as nat), paths[n - 1], times[n - 1])
    }
}

/// The modification times of one pass: the `i`-th watched file has
/// `times[i]`, or none when `times` is shorter.
pub open spec fn observed_times(times: Seq<Option<ModTime>>) -> Seq<Option<ModTime>> {
    Seq::new(
        watch_list().len(),
        |i: int|
            if i < times.len() {
                times[i]
            } else {
                None
            },
    )
}

/// The paths of the watched files, in the order they are checked.
pub open spec fn watched_paths() -> Seq<Seq<char>> {
    watch_list().map_values(|w: (Seq<char>, Seq<char>, Feed)| w.0)
}

proof fn lemma_seen_after_keys(
    paths: Seq<Seq<char>>,
    times: Seq<Option<ModTime>>,
    n: nat,
    p: Seq<char>,
)
    requires
        n <= paths.len(),
        n <= times.len(),
        forall|k: int| 0 <= k < n ==> paths[k] != p,
    ensures
        !seen_after(Map::empty(), paths, times, n).contains_key(p),
    decreases n,
{
    if n > 0 {
        lemma_seen_after_keys(paths, times, (n - 1) as nat, p);
    }
}

proof fn lemma_watched_paths_distinct(i: int, k: int)
    requires
        0 <= k < i < 7,
    ensures
        watched_paths()[k] != watched_paths()[i],
{
    reveal_strlit("data/kafka_atm_metrics_stream.json");
    reveal_strlit("data/windows_os_metrics.csv");
    reveal_strlit("data/gcp_cloud_metrics.csv");
    reveal_strlit("data/prometheus_metrics.csv");
    reveal_strlit("data/atm_hardware_sensor_log.json");
    reveal_strlit("data/atm_application_log.json");
    reveal_strlit("data/terminal_handler_app_log.json");
    assert(watched_paths() =~= seq![
        "data/kafka_atm_metrics_stream.json"@,
        "data/windows_os_metrics.csv"@,
        "data/gcp_cloud_metrics.csv"@,
        "data/prometheus_metrics.csv"@,
        "data/atm_hardware_sensor_log.json"@,
        "data/atm_application_log.json"@,
        "data/terminal_handler_app_log.json"@,
    ]);
    let a = watched_paths()[k];
    let b = watched_paths()[i];
    assert(a[5] != b[5] || a.len() != b.len());
}

/// The first pass over the watched files, made by a watcher that has seen no
/// file yet, loads every watched file whose modification time can be read.
pub proof fn lemma_first_pass_loads_every_file(times: Seq<Option<ModTime>>, i: int)
    requires
        times.len() == watch_list().len(),
        0 <= i < times.len(),
        times[i] is Some,
    ensures
        needs_reload(
            seen_after(Map::empty(), watched_paths(), times, i as nat),
            watched_paths()[i],
            times[i],
        ),
{
    assert forall|k: int| 0 <= k < i implies watched_paths()[k] != watched_paths()[i] by {
        lemma_watched_paths_distinct(i, k);
    }
    lemma_seen_after_keys(watched_paths(), times, i as nat, watched_paths()[i]);
}

/// The clearing statements of a source only delete.
pub proof fn lemma_clearing_only_deletes(source: Seq<char>)
    ensures
        all_deletes(clear_ops(source)),
{
}

/// Clearing a source twice changes nothing more than clearing it once.
pub proof fn lemma_clearing_twice_changes_nothing(db: DbState, source: Seq<char>)
    ensures
        run(run(db, clear_ops(source)), clear_ops(source)) == run(db, clear_ops(source)),
{
    lemma_clearing_is_idempotent(db, clear_ops(source));
}

} // verus!
