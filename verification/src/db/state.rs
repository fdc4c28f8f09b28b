//! What running statements does to the rows of the database, as a model:
//! each table is the sequence of the rows inserted into it, a row standing as
//! the statement that inserted it (row ids are left out). An insert appends
//! its row, unless it is an `INSERT OR IGNORE` whose key is already present;
//! a delete keeps the rows that it does not remove. The model is of runs in
//! which every statement succeeds.

use vstd::prelude::*;
use crate::db::{dim_source_row, dim_sources, StatementKind, StatementView, Table};
use crate::watcher::{clear_removes, removed_by};

verus! {

/// A table of the database.
#[derive(Clone, Copy, Debug, PartialEq, Eq, Structural)]
pub enum TableKey {
    Staging(Table),
    Anomalies,
    FactMetrics,
    DimAtm,
    DimSource,
}

/// The rows of every table.
#[verifier::ext_equal]
pub struct DbState {
    pub rows: spec_fn(TableKey) -> Seq<StatementView>,
}

/// The table an insert writes into; `None` for a delete.
pub open spec fn row_table(op: StatementView) -> Option<TableKey> {
    match op.kind {
        StatementKind::InsertKafka => Some(TableKey::Staging(Table::KafkaAtmMetrics)),
        StatementKind::InsertWindows => Some(TableKey::Staging(Table::WindowsOsMetrics)),
        StatementKind::InsertGcp => Some(TableKey::Staging(Table::GcpCloudMetrics)),
        StatementKind::InsertPrometheus => Some(TableKey::Staging(Table::PrometheusMetrics)),
        StatementKind::InsertHardware => Some(TableKey::Staging(Table::HardwareSensorLog)),
        StatementKind::InsertAtmApp => Some(TableKey::Staging(Table::AtmApplicationLog)),
        StatementKind::InsertTerminal => Some(TableKey::Staging(Table::TerminalHandlerLog)),
        StatementKind::InsertAnomaly => Some(TableKey::Anomalies),
        StatementKind::InsertFactMetric => Some(TableKey::FactMetrics),
        StatementKind::InsertDimAtmWindows => Some(TableKey::DimAtm),
        StatementKind::InsertDimAtmHardware => Some(TableKey::DimAtm),
        StatementKind::InsertDimAtmApp => Some(TableKey::DimAtm),
        StatementKind::InsertDimSource => Some(TableKey::DimSource),
        _ => None,
    }
}

/// The parameter that holds the unique key of an `INSERT OR IGNORE`: the
/// event id of a Kafka event, the ATM id of a registration, the name of a
/// source; `None` for the other statements.
pub open spec fn ignore_key(k: StatementKind) -> Option<int> {
    match k {
        StatementKind::InsertKafka => Some(1),
        StatementKind::InsertDimAtmWindows => Some(0),
        StatementKind::InsertDimAtmHardware => Some(0),
        StatementKind::InsertDimAtmApp => Some(0),
        StatementKind::InsertDimSource => Some(0),
        _ => None,
    }
}

/// Whether row `r` holds the same key as `op` at parameter `i`.
pub open spec fn same_key(r: StatementView, op: StatementView, i: int) -> bool {
    0 <= i < r.params.len() && 0 <= i < op.params.len() && r.params[i] == op.params[i]
}

/// Whether `op` is an `INSERT OR IGNORE` whose (non-NULL) key is already in `rows`.
pub open spec fn conflicts(rows: Seq<StatementView>, op: StatementView) -> bool {
    match ignore_key(op.kind) {
        Some(i) => 0 <= i < op.params.len() && op.params[i] is Text && exists|j: int|
            0 <= j < rows.len() && same_key(#[trigger] rows[j], op, i),
        None => false,
    }
}

/// The database after one statement.
pub open spec fn apply(db: DbState, op: StatementView) -> DbState {
    match row_table(op) {
        Some(k) => if conflicts((db.rows)(k), op) {
            db
        } else {
            DbState {
                rows: |t: TableKey| if t == k { (db.rows)(k).push(op) } else { (db.rows)(t) },
            }
        },
        None => DbState { rows: |t: TableKey| surviving((db.rows)(t), seq![op]) },
    }
}

/// The database after a sequence of statements, run in order.
pub open spec fn run(db: DbState, ops: Seq<StatementView>) -> DbState
    decreases ops.len(),
{
    if ops.len() == 0 {
        db
    } else {
        apply(run(db, ops.drop_last()), ops.last())
    }
}

/// The rows that none of the deletes `clear` removes, in order.
pub open spec fn surviving(rows: Seq<StatementView>, clear: Seq<StatementView>) -> Seq<StatementView>
    decreases rows.len(),
{
    if rows.len() == 0 {
        rows
    } else if removed_by(clear, rows.last()) {
        surviving(rows.drop_last(), clear)
    } else {
        surviving(rows.drop_last(), clear).push(rows.last())
    }
}

/// Whether every statement deletes.
pub open spec fn all_deletes(ops: Seq<StatementView>) -> bool {
    forall|i: int| 0 <= i < ops.len() ==> (#[trigger] row_table(ops[i])) is None
}

/// Whether every statement inserts.
pub open spec fn all_inserts(ops: Seq<StatementView>) -> bool {
    forall|i: int| 0 <= i < ops.len() ==> (#[trigger] row_table(ops[i])) is Some
}

/// The tables whose rows no clearing statement removes.
pub open spec fn kept_table(k: TableKey) -> bool {
    k == TableKey::DimAtm || k == TableKey::DimSource
}

/// Whether `op` is an `INSERT OR IGNORE` with a non-NULL key.
pub open spec fn keyed_text(op: StatementView) -> bool {
    ignore_key(op.kind) matches Some(x) && 0 <= x < op.params.len() && op.params[x] is Text
}

/// Whether inserts `plan` can be cleared by `clear`: each row it writes in a
/// kept table is an `INSERT OR IGNORE` with a non-NULL key, and each other
/// row is removed by one of the clearing statements.
pub open spec fn reload_safe(clear: Seq<StatementView>, plan: Seq<StatementView>) -> bool {
    forall|i: int|
        0 <= i < plan.len() ==> if kept_table((#[trigger] row_table(plan[i]))->0) {
            keyed_text(plan[i])
        } else {
            removed_by(clear, plan[i])
        }
}

/// The rows of table `k` after the inserts `plan`, starting from `rows`.
pub open spec fn ins_rows(rows: Seq<StatementView>, k: TableKey, plan: Seq<StatementView>) -> Seq<StatementView>
    decreases plan.len(),
{
    if plan.len() == 0 {
        rows
    } else {
        let y = ins_rows(rows, k, plan.drop_last());
        if row_table(plan.last()) == Some(k) && !conflicts(y, plan.last()) {
            y.push(plan.last())
        } else {
            y
        }
    }
}

proof fn lemma_removed_by_push(clear: Seq<StatementView>, d: StatementView, r: StatementView)
    ensures
        removed_by(clear.push(d), r) == (removed_by(clear, r) || clear_removes(d, r)),
    decreases clear.len(),
{
    if clear.len() == 0 {
        assert(clear.push(d).drop_first() =~= seq![]);
        assert(!removed_by(seq![], r));
    } else {
        assert(clear.push(d)[0] == clear[0]);
        assert(clear.push(d).drop_first() =~= clear.drop_first().push(d));
        lemma_removed_by_push(clear.drop_first(), d, r);
    }
}

proof fn lemma_removed_by_kept(clear: Seq<StatementView>, r: StatementView)
    requires
        row_table(r) is Some,
        kept_table(row_table(r)->0),
    ensures
        !removed_by(clear, r),
    decreases clear.len(),
{
    if clear.len() > 0 {
        lemma_removed_by_kept(clear.drop_first(), r);
    }
}

proof fn lemma_surviving_all_kept(rows: Seq<StatementView>, clear: Seq<StatementView>)
    requires
        forall|i: int| 0 <= i < rows.len() ==> !removed_by(clear, #[trigger] rows[i]),
    ensures
        surviving(rows, clear) == rows,
    decreases rows.len(),
{
    if rows.len() > 0 {
        lemma_surviving_all_kept(rows.drop_last(), clear);
        assert(rows.drop_last().push(rows.last()) =~= rows);
    }
}

proof fn lemma_surviving_all_removed(rows: Seq<StatementView>, clear: Seq<StatementView>)
    requires
        forall|i: int| 0 <= i < rows.len() ==> removed_by(clear, #[trigger] rows[i]),
    ensures
        surviving(rows, clear) == Seq::<StatementView>::empty(),
    decreases rows.len(),
{
    if rows.len() > 0 {
        lemma_surviving_all_removed(rows.drop_last(), clear);
    }
}

proof fn lemma_surviving_survive(rows: Seq<StatementView>, clear: Seq<StatementView>)
    ensures
        forall|i: int|
            0 <= i < surviving(rows, clear).len() ==> !removed_by(
                clear,
                #[trigger] surviving(rows, clear)[i],
            ),
    decreases rows.len(),
{
    if rows.len() > 0 {
        lemma_surviving_survive(rows.drop_last(), clear);
        let s = surviving(rows.drop_last(), clear);
        if !removed_by(clear, rows.last()) {
            assert forall|i: int| 0 <= i < s.push(rows.last()).len() implies !removed_by(
                clear,
                #[trigger] s.push(rows.last())[i],
            ) by {
                if i < s.len() {
                    assert(s.push(rows.last())[i] == s[i]);
                }
            }
        }
    }
}

proof fn lemma_surviving_concat(a: Seq<StatementView>, b: Seq<StatementView>, clear: Seq<StatementView>)
    ensures
        surviving(a + b, clear) == surviving(a, clear) + surviving(b, clear),
    decreases b.len(),
{
    if b.len() == 0 {
        assert(a + b =~= a);
        assert(surviving(a, clear) + surviving(b, clear) =~= surviving(a, clear));
    } else {
        lemma_surviving_concat(a, b.drop_last(), clear);
        assert((a + b).drop_last() =~= a + b.drop_last());
        assert((a + b).last() == b.last());
        assert(surviving(a, clear) + surviving(b.drop_last(), clear).push(b.last())
            =~= (surviving(a, clear) + surviving(b.drop_last(), clear)).push(b.last()));
    }
}

proof fn lemma_surviving_then(rows: Seq<StatementView>, clear: Seq<StatementView>, d: StatementView)
    ensures
        surviving(surviving(rows, clear), seq![d]) == surviving(rows, clear.push(d)),
    decreases rows.len(),
{
    if rows.len() > 0 {
        lemma_surviving_then(rows.drop_last(), clear, d);
        lemma_removed_by_push(clear, d, rows.last());
        lemma_removed_by_push(seq![], d, rows.last());
        assert(seq![].push(d) =~= seq![d]);
        let s = surviving(rows.drop_last(), clear);
        if !removed_by(clear, rows.last()) {
            assert(s.push(rows.last()).drop_last() =~= s);
        }
    }
}

/// Running deletes keeps, in every table, the rows that none of them removes.
pub proof fn lemma_run_deletes(db: DbState, clear: Seq<StatementView>, k: TableKey)
    requires
        all_deletes(clear),
    ensures
        (run(db, clear).rows)(k) == surviving((db.rows)(k), clear),
    decreases clear.len(),
{
    if clear.len() == 0 {
        lemma_surviving_all_kept((db.rows)(k), clear);
    } else {
        let c = clear.drop_last();
        assert forall|i: int| 0 <= i < c.len() implies (#[trigger] row_table(c[i])) is None by {
            assert(c[i] == clear[i]);
        }
        assert(row_table(clear[clear.len() - 1]) is None);
        lemma_run_deletes(db, c, k);
        lemma_surviving_then((db.rows)(k), c, clear.last());
        assert(c.push(clear.last()) =~= clear);
    }
}

/// Running inserts changes each table on its own: table `k` depends only on
/// its former rows and on the inserts into it.
pub proof fn lemma_run_inserts(db: DbState, plan: Seq<StatementView>, k: TableKey)
    requires
        all_inserts(plan),
    ensures
        (run(db, plan).rows)(k) == ins_rows((db.rows)(k), k, plan),
    decreases plan.len(),
{
    if plan.len() > 0 {
        let p = plan.drop_last();
        assert forall|i: int| 0 <= i < p.len() implies (#[trigger] row_table(p[i])) is Some by {
            assert(p[i] == plan[i]);
        }
        assert(row_table(plan[plan.len() - 1]) is Some);
        lemma_run_inserts(db, p, k);
        let t = row_table(plan.last())->0;
        lemma_run_inserts(db, p, t);
    }
}

proof fn lemma_ins_rows_extends(rows: Seq<StatementView>, k: TableKey, plan: Seq<StatementView>)
    ensures
        rows.len() <= ins_rows(rows, k, plan).len(),
        ins_rows(rows, k, plan).subrange(0, rows.len() as int) == rows,
        forall|i: int|
            rows.len() <= i < ins_rows(rows, k, plan).len() ==> row_table(
                #[trigger] ins_rows(rows, k, plan)[i],
            ) == Some(k) && plan.contains(ins_rows(rows, k, plan)[i]),
    decreases plan.len(),
{
    if plan.len() == 0 {
        assert(rows.subrange(0, rows.len() as int) =~= rows);
    } else {
        let p = plan.drop_last();
        lemma_ins_rows_extends(rows, k, p);
        let y = ins_rows(rows, k, p);
        assert forall|i: int| rows.len() <= i < y.len() implies plan.contains(#[trigger] y[i]) by {
            let j = choose|j: int| 0 <= j < p.len() && p[j] == y[i];
            assert(plan[j] == p[j]);
        }
        assert(plan[plan.len() - 1] == plan.last());
        if row_table(plan.last()) == Some(k) && !conflicts(y, plan.last()) {
            assert(y.push(plan.last()).subrange(0, rows.len() as int) =~= y.subrange(
                0,
                rows.len() as int,
            ));
        }
    }
}

proof fn lemma_conflicts_push(rows: Seq<StatementView>, op: StatementView, x: StatementView)
    requires
        conflicts(rows, op),
    ensures
        conflicts(rows.push(x), op),
{
    let i = ignore_key(op.kind)->0;
    let j = choose|j: int| 0 <= j < rows.len() && same_key(#[trigger] rows[j], op, i);
    assert(rows.push(x)[j] == rows[j]);
}

/// Whether every keyed insert of `plan` into table `k` finds its key in `rows`.
pub open spec fn keys_present(rows: Seq<StatementView>, k: TableKey, plan: Seq<StatementView>) -> bool {
    forall|i: int|
        0 <= i < plan.len() && #[trigger] row_table(plan[i]) == Some(k) ==> conflicts(rows, plan[i])
}

proof fn lemma_ins_rows_keys(rows: Seq<StatementView>, k: TableKey, plan: Seq<StatementView>)
    requires
        forall|i: int|
            0 <= i < plan.len() && #[trigger] row_table(plan[i]) == Some(k) ==> keyed_text(plan[i]),
    ensures
        keys_present(ins_rows(rows, k, plan), k, plan),
    decreases plan.len(),
{
    if plan.len() > 0 {
        let p = plan.drop_last();
        assert forall|i: int|
            0 <= i < p.len() && #[trigger] row_table(p[i]) == Some(k) implies keyed_text(p[i]) by {
            assert(p[i] == plan[i]);
        }
        lemma_ins_rows_keys(rows, k, p);
        let y = ins_rows(rows, k, p);
        let last = plan.last();
        assert forall|i: int|
            0 <= i < plan.len() && #[trigger] row_table(plan[i]) == Some(k) implies conflicts(
            ins_rows(rows, k, plan),
            plan[i],
        ) by {
            if i < p.len() {
                assert(p[i] == plan[i]);
                assert(row_table(p[i]) == Some(k));
                if row_table(last) == Some(k) && !conflicts(y, last) {
                    lemma_conflicts_push(y, plan[i], last);
                }
            } else {
                assert(plan[i] == last);
                if !conflicts(y, last) {
                    let z = y.push(last);
                    assert(z[y.len() as int] == last);
                    assert(same_key(z[y.len() as int], last, ignore_key(last.kind)->0));
                }
            }
        }
    }
}

proof fn lemma_ins_rows_unchanged(rows: Seq<StatementView>, k: TableKey, plan: Seq<StatementView>)
    requires
        keys_present(rows, k, plan),
    ensures
        ins_rows(rows, k, plan) == rows,
    decreases plan.len(),
{
    if plan.len() > 0 {
        let p = plan.drop_last();
        assert forall|i: int| 0 <= i < p.len() && #[trigger] row_table(p[i]) == Some(k) implies conflicts(
            rows,
            p[i],
        ) by {
            assert(p[i] == plan[i]);
        }
        lemma_ins_rows_unchanged(rows, k, p);
        assert(plan[plan.len() - 1] == plan.last());
    }
}

/// Reloading the same content changes nothing: after clearing with `clear`
/// and running the inserts `plan`, clearing and running `plan` again gives
/// back the same rows in every table, provided `plan`'s rows are cleared by
/// `clear` or are keyed registrations.
pub proof fn lemma_reload_is_idempotent(db: DbState, clear: Seq<StatementView>, plan: Seq<StatementView>)
    requires
        all_deletes(clear),
        all_inserts(plan),
        reload_safe(clear, plan),
    ensures
        run(run(run(run(db, clear), plan), clear), plan) == run(run(db, clear), plan),
{
    let a = run(db, clear);
    let d = run(a, plan);
    let e = run(d, clear);
    let f = run(e, plan);
    assert forall|k: TableKey| #[trigger] (f.rows)(k) == (d.rows)(k) by {
        let ak = (a.rows)(k);
        lemma_run_deletes(db, clear, k);
        lemma_surviving_survive((db.rows)(k), clear);
        lemma_run_inserts(a, plan, k);
        lemma_ins_rows_extends(ak, k, plan);
        let dk = (d.rows)(k);
        let yk = dk.subrange(ak.len() as int, dk.len() as int);
        assert(dk =~= ak + yk);
        lemma_run_deletes(d, clear, k);
        lemma_surviving_concat(ak, yk, clear);
        lemma_surviving_all_kept(ak, clear);
        lemma_run_inserts(e, plan, k);
        if kept_table(k) {
            assert forall|i: int| 0 <= i < yk.len() implies !removed_by(clear, #[trigger] yk[i]) by {
                assert(yk[i] == dk[ak.len() + i]);
                lemma_removed_by_kept(clear, yk[i]);
            }
            lemma_surviving_all_kept(yk, clear);
            assert((e.rows)(k) == dk);
            assert forall|i: int|
                0 <= i < plan.len() && #[trigger] row_table(plan[i]) == Some(k) implies keyed_text(plan[i]) by {
                assert(kept_table(row_table(plan[i])->0));
            }
            lemma_ins_rows_keys(ak, k, plan);
            lemma_ins_rows_unchanged(dk, k, plan);
        } else {
            assert forall|i: int| 0 <= i < yk.len() implies removed_by(clear, #[trigger] yk[i]) by {
                assert(yk[i] == dk[ak.len() + i]);
                let j = choose|j: int| 0 <= j < plan.len() && plan[j] == dk[ak.len() + i];
                assert(row_table(plan[j]) == Some(k));
            }
            lemma_surviving_all_removed(yk, clear);
            assert(ak + Seq::<StatementView>::empty() =~= ak);
        }
    }
    assert(f.rows =~= d.rows);
}

/// Running deletes twice removes nothing more than running them once.
pub proof fn lemma_clearing_is_idempotent(db: DbState, clear: Seq<StatementView>)
    requires
        all_deletes(clear),
    ensures
        run(run(db, clear), clear) == run(db, clear),
{
    let a = run(db, clear);
    assert forall|k: TableKey| #[trigger] (run(a, clear).rows)(k) == (a.rows)(k) by {
        lemma_run_deletes(db, clear, k);
        lemma_run_deletes(a, clear, k);
        lemma_surviving_survive((db.rows)(k), clear);
        lemma_surviving_all_kept((a.rows)(k), clear);
    }
    assert(run(a, clear).rows =~= a.rows);
}

/// The statements that seed `dim_source`.
pub open spec fn seed_ops() -> Seq<StatementView> {
    dim_sources().map_values(|s: (Seq<char>, Seq<char>, Seq<char>)| dim_source_row(s))
}

/// Seeding `dim_source` a second time changes nothing: every seeded name is
/// already present, and each seeding statement is an `INSERT OR IGNORE`.
pub proof fn lemma_seeding_twice_changes_nothing(db: DbState)
    ensures
        run(run(db, seed_ops()), seed_ops()) == run(db, seed_ops()),
{
    let p = seed_ops();
    let c = Seq::<StatementView>::empty();
    assert forall|i: int| 0 <= i < p.len() implies (#[trigger] row_table(p[i])) is Some by {}
    assert forall|i: int| 0 <= i < p.len() implies (if kept_table((#[trigger] row_table(p[i]))->0) {
        keyed_text(p[i])
    } else {
        removed_by(c, p[i])
    }) by {}
    assert(all_deletes(c));
    lemma_reload_is_idempotent(db, c, p);
    assert(run(db, c) == db);
    assert(run(run(db, p), c) == run(db, p));
}

} // verus!
