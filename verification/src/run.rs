//! A load from end to end: the machine of [`crate::seeder`] against a model
//! of its surroundings, and what every such run achieves.

use crate::hierarchy::{Level, SlotsView};
use crate::load::{load_drug, load_levels, load_row, load_rows, seeded, Load};
use crate::record::CsvRecordView;
use crate::row::{drug_of, upsert_of};
use crate::seeder::{
    levels_left, resume, step, SeedActionView, SeedEventView, SeedOutcome, SeedStageView,
    SeederView,
};
use crate::store::{Database, Tables};
use vstd::prelude::*;

verus! {

/// The surroundings of a load: the store, with what is committed and what the
/// open transaction sees; the source file and how far it has been read; and
/// which of the machine's requests, counted from zero, are going to fail.
#[verifier::ext_equal]
pub struct World {
    pub committed: Tables,
    pub working: Database,
    pub rows: Seq<CsvRecordView>,
    pub next_row: int,
    pub requests: int,
    pub failures: Set<int>,
}

impl World {
    /// The surroundings before a load: `db` committed, nothing read, nothing
    /// asked.
    pub open spec fn before(db: Database, rows: Seq<CsvRecordView>, failures: Set<int>) -> World {
        World { committed: db.tables, working: db, rows, next_row: 0, requests: 0, failures }
    }

    /// Carries out one request and reports what became of it. A request that
    /// fails writes nothing. Writes go to the transaction; only a commit that
    /// succeeds changes what is committed.
    pub open spec fn perform(self, action: SeedActionView) -> (World, SeedEventView) {
        let counted = World { requests: self.requests + 1, ..self };
        if self.failures.contains(self.requests) {
            (counted, SeedEventView::Failed)
        } else {
            match action {
                SeedActionView::Begin => (
                    World {
                        working: Database { tables: self.committed, ..self.working },
                        ..counted
                    },
                    SeedEventView::Done,
                ),
                SeedActionView::DeleteDrugs => (
                    World { working: self.working.without_drugs(), ..counted },
                    SeedEventView::Done,
                ),
                SeedActionView::DeleteCategories => (
                    World { working: self.working.without_categories(), ..counted },
                    SeedEventView::Done,
                ),
                SeedActionView::OpenRows => (
                    World { next_row: 0, ..counted },
                    SeedEventView::Done,
                ),
                SeedActionView::NextRow => if 0 <= self.next_row < self.rows.len() {
                    (
                        World { next_row: self.next_row + 1, ..counted },
                        SeedEventView::Row(self.rows[self.next_row]),
                    )
                } else {
                    (counted, SeedEventView::EndOfRows)
                },
                SeedActionView::UpsertCategory(upsert) => {
                    let (working, id) = self.working.upsert(upsert);
                    (World { working, ..counted }, SeedEventView::CategoryId(id))
                },
                SeedActionView::InsertDrug(drug) => (
                    World { working: self.working.insert_drug(drug), ..counted },
                    SeedEventView::Done,
                ),
                SeedActionView::Commit => (
                    World { committed: self.working.tables, ..counted },
                    SeedEventView::Done,
                ),
                SeedActionView::Finish(_) => (counted, SeedEventView::Done),
            }
        }
    }
}

/// Runs the machine against `world` from the point where it has just asked
/// for `action`, for at most `fuel` requests. A run that is cut short counts
/// as aborted.
pub open spec fn drive(state: SeederView, action: SeedActionView, world: World, fuel: nat) -> (
    World,
    SeedOutcome,
)
    decreases fuel,
{
    match action {
        SeedActionView::Finish(outcome) => (world, outcome),
        _ => if fuel == 0 {
            (world, SeedOutcome::Aborted)
        } else {
            let (after, event) = world.perform(action);
            let (next, request) = step(state, event);
            drive(next, request, after, (fuel - 1) as nat)
        },
    }
}

/// A whole load: a fresh machine, launched, and run against `world`.
pub open spec fn run(world: World, fuel: nat) -> (World, SeedOutcome) {
    let fresh = SeederView { stage: SeedStageView::Idle, slots: SlotsView::empty() };
    let (state, action) = step(fresh, SeedEventView::Launch);
    drive(state, action, world, fuel)
}

/// What holds of every state together with the request that the machine made
/// on reaching it: it has asked to stop exactly if the load is over, and it
/// asks for a commit only as it starts to wait for one.
pub open spec fn well_paired(state: SeederView, action: SeedActionView) -> bool {
    &&& action is Finish <==> state.stage is Finished
    &&& action is Commit ==> state.stage is Committing
}

/// In the middle of a row the machine asks for a write or for the next row,
/// never for a commit or the end.
pub proof fn lemma_resume_is_well_paired(row: CsvRecordView, slots: SlotsView, from: Option<Level>)
    ensures
        !(resume(row, slots, from).1 is Commit),
        !(resume(row, slots, from).1 is Finish),
        !(resume(row, slots, from).0.stage is Finished),
    decreases levels_left(from),
{
    match from {
        Some(level) => {
            if upsert_of(row, slots, level) is None {
                lemma_resume_is_well_paired(row, slots, level.child_of());
            }
        },
        None => {},
    }
}

/// Whatever the machine is told, its answer is well paired with its new state.
pub proof fn lemma_step_is_well_paired(state: SeederView, event: SeedEventView)
    ensures
        well_paired(step(state, event).0, step(state, event).1),
{
    match (state.stage, event) {
        (SeedStageView::AwaitingRow, SeedEventView::Row(row)) => {
            lemma_resume_is_well_paired(row, state.slots, Some(Level::One));
        },
        (SeedStageView::AwaitingCategory(level, row), SeedEventView::CategoryId(id)) => {
            lemma_resume_is_well_paired(row, state.slots.with(level, id), level.child_of());
        },
        _ => {},
    }
}

/// A failure report ends the load at once, without a commit, whatever the
/// machine was waiting for.
pub proof fn lemma_failure_aborts(state: SeederView)
    requires
        !(state.stage is Finished),
    ensures
        step(state, SeedEventView::Failed).1 == SeedActionView::Finish(SeedOutcome::Aborted),
        step(state, SeedEventView::Failed).0.stage == SeedStageView::Finished(
            SeedOutcome::Aborted,
        ),
{
}

/// A load that is over stays over: the machine asks for nothing more.
pub proof fn lemma_finished_is_final(state: SeederView, event: SeedEventView)
    requires
        state.stage is Finished,
    ensures
        step(state, event).0 == state,
        step(state, event).1 is Finish,
{
}

/// Rollback: a run that does not complete leaves the committed tables exactly
/// as they were. This holds for every source file, for every choice of
/// requests that fail, and however early the run is cut short.
pub proof fn lemma_aborted_run_changes_nothing(
    state: SeederView,
    action: SeedActionView,
    world: World,
    fuel: nat,
)
    requires
        well_paired(state, action),
    ensures
        drive(state, action, world, fuel).1 == SeedOutcome::Aborted ==> drive(
            state,
            action,
            world,
            fuel,
        ).0.committed == world.committed,
    decreases fuel,
{
    if !(action is Finish) && fuel > 0 {
        let (after, event) = world.perform(action);
        let (next, request) = step(state, event);
        lemma_step_is_well_paired(state, event);
        if after.committed == world.committed {
            lemma_aborted_run_changes_nothing(next, request, after, (fuel - 1) as nat);
        } else {
            assert(action is Commit && event is Done);
            assert(request == SeedActionView::Finish(SeedOutcome::Completed));
        }
    }
}

/// A run completes only if none of the requests it made has failed.
pub proof fn lemma_completed_run_met_no_failure(
    state: SeederView,
    action: SeedActionView,
    world: World,
    fuel: nat,
)
    requires
        well_paired(state, action),
        forall|k: int| 0 <= k < world.requests ==> !world.failures.contains(k),
    ensures
        drive(state, action, world, fuel).1 == SeedOutcome::Completed ==> forall|k: int|
            0 <= k < drive(state, action, world, fuel).0.requests ==> !world.failures.contains(k),
    decreases fuel,
{
    if !(action is Finish) && fuel > 0 {
        let (after, event) = world.perform(action);
        let (next, request) = step(state, event);
        lemma_step_is_well_paired(state, event);
        assert(drive(state, action, world, fuel) == drive(next, request, after, (fuel - 1) as nat));
        if world.failures.contains(world.requests) {
            assert(event is Failed);
            assert(request == SeedActionView::Finish(SeedOutcome::Aborted));
        } else {
            assert(after.failures == world.failures);
            assert(after.requests == world.requests + 1);
            lemma_completed_run_met_no_failure(next, request, after, (fuel - 1) as nat);
        }
    }
}

/// Rollback, for whole loads: if any request of a load fails, or the load is
/// cut short, the load ends aborted, and a load that ends aborted has
/// committed nothing: the tables are those from before it started.
pub proof fn lemma_failed_load_rolls_back(
    db: Database,
    rows: Seq<CsvRecordView>,
    failures: Set<int>,
    fuel: nat,
)
    ensures
        ({
            let end = run(World::before(db, rows, failures), fuel);
            &&& end.1 == SeedOutcome::Aborted ==> end.0.committed == db.tables
            &&& (exists|k: int| 0 <= k < end.0.requests && failures.contains(k)) ==> end.1
                == SeedOutcome::Aborted
        }),
{
    let world = World::before(db, rows, failures);
    let fresh = SeederView { stage: SeedStageView::Idle, slots: SlotsView::empty() };
    let (state, action) = step(fresh, SeedEventView::Launch);
    lemma_aborted_run_changes_nothing(state, action, world, fuel);
    lemma_completed_run_met_no_failure(state, action, world, fuel);
}

/// How many requests the machine makes for what is left of a row from level
/// `from` down: one for each category that the row names there, and one for
/// its drug.
pub open spec fn requests_of(row: CsvRecordView, from: Option<Level>) -> nat
    decreases levels_left(from),
{
    match from {
        Some(level) => requests_of(row, level.child_of()) + if upsert_of(
            row,
            SlotsView::empty(),
            level,
        ) is Some {
            1nat
        } else {
            0nat
        },
        None => if drug_of(row, SlotsView::empty()) is Some {
            1
        } else {
            0
        },
    }
}

/// A row costs at most five requests: four categories and a drug.
pub proof fn lemma_requests_of_bound(row: CsvRecordView, from: Option<Level>)
    ensures
        requests_of(row, from) <= levels_left(from) + 1,
    decreases levels_left(from),
{
    match from {
        Some(level) => {
            lemma_requests_of_bound(row, level.child_of());
        },
        None => {},
    }
}

/// With nothing failing, the machine carries a row through exactly as the fold
/// does: when it next asks for a row, the transaction holds what
/// [`load_levels`] and [`load_drug`] make of the row, and the context is theirs.
pub proof fn lemma_row_runs(
    row: CsvRecordView,
    load: Load,
    from: Option<Level>,
    world: World,
    fuel: nat,
)
    requires
        world.working == load.db,
        world.failures == Set::<int>::empty(),
        fuel >= requests_of(row, from),
    ensures
        ({
            let (state, action) = resume(row, load.slots, from);
            let after = load_drug(load_levels(load, row, from), row);
            drive(state, action, world, fuel) == drive(
                SeederView { stage: SeedStageView::AwaitingRow, slots: after.slots },
                SeedActionView::NextRow,
                World {
                    working: after.db,
                    requests: world.requests + requests_of(row, from),
                    ..world
                },
                (fuel - requests_of(row, from)) as nat,
            )
        }),
    decreases levels_left(from),
{
    let (state, action) = resume(row, load.slots, from);
    match from {
        Some(level) => {
            match upsert_of(row, load.slots, level) {
                None => {
                    lemma_row_runs(row, load, level.child_of(), world, fuel);
                },
                Some(upsert) => {
                    let (db, id) = load.db.upsert(upsert);
                    let next_load = Load { db, slots: load.slots.with(level, id) };
                    let (after, event) = world.perform(action);
                    assert(event == SeedEventView::CategoryId(id));
                    assert(after == World { working: db, requests: world.requests + 1, ..world });
                    assert(step(state, event) == resume(row, next_load.slots, level.child_of()));
                    lemma_row_runs(row, next_load, level.child_of(), after, (fuel - 1) as nat);
                },
            }
        },
        None => {
            match drug_of(row, load.slots) {
                None => {
                    assert(world == World {
                        working: load.db,
                        requests: world.requests + 0,
                        ..world
                    });
                },
                Some(drug) => {
                    let (after, event) = world.perform(action);
                    assert(event == SeedEventView::Done);
                    assert(drive(state, action, world, fuel) == drive(
                        step(state, event).0,
                        step(state, event).1,
                        after,
                        (fuel - 1) as nat,
                    ));
                },
            }
        },
    }
}

/// Applying rows one after the other from the front gives the same as
/// [`load_rows`], which takes them from the back.
pub proof fn lemma_load_rows_from_front(load: Load, rows: Seq<CsvRecordView>)
    requires
        rows.len() > 0,
    ensures
        load_rows(load, rows) == load_rows(load_row(load, rows.first()), rows.drop_first()),
    decreases rows.len(),
{
    if rows.len() == 1 {
        assert(rows.drop_last() =~= Seq::<CsvRecordView>::empty());
        assert(rows.drop_first() =~= Seq::<CsvRecordView>::empty());
        assert(load_rows(load, rows.drop_last()) == load);
        assert(load_rows(load_row(load, rows.first()), rows.drop_first()) == load_row(
            load,
            rows.first(),
        ));
    } else {
        lemma_load_rows_from_front(load, rows.drop_last());
        assert(rows.drop_last().drop_first() =~= rows.drop_first().drop_last());
        assert(rows.drop_last().first() == rows.first());
        assert(rows.drop_first().last() == rows.last());
    }
}

/// With nothing failing, the machine reads the rows that are left, applies
/// each as the fold does, commits, and completes.
pub proof fn lemma_rows_run(load: Load, world: World, fuel: nat)
    requires
        world.working == load.db,
        world.failures == Set::<int>::empty(),
        0 <= world.next_row <= world.rows.len(),
        fuel >= 6 * (world.rows.len() - world.next_row) + 2,
    ensures
        ({
            let state = SeederView { stage: SeedStageView::AwaitingRow, slots: load.slots };
            let end = drive(state, SeedActionView::NextRow, world, fuel);
            &&& end.1 == SeedOutcome::Completed
            &&& end.0.committed == load_rows(load, world.rows.skip(world.next_row)).db.tables
        }),
    decreases world.rows.len() - world.next_row,
{
    let state = SeederView { stage: SeedStageView::AwaitingRow, slots: load.slots };
    let left = world.rows.skip(world.next_row);
    let (after, event) = world.perform(SeedActionView::NextRow);
    if world.next_row < world.rows.len() {
        let row = world.rows[world.next_row];
        assert(event == SeedEventView::Row(row));
        assert(step(state, event) == resume(row, load.slots, Some(Level::One)));
        lemma_requests_of_bound(row, Some(Level::One));
        lemma_row_runs(row, load, Some(Level::One), after, (fuel - 1) as nat);
        let cost = requests_of(row, Some(Level::One));
        let next_load = load_row(load, row);
        let next_world = World {
            working: next_load.db,
            requests: after.requests + cost,
            ..after
        };
        lemma_rows_run(next_load, next_world, (fuel - 1 - cost) as nat);
        assert(left.first() == row);
        assert(left.drop_first() =~= world.rows.skip(next_world.next_row));
        lemma_load_rows_from_front(load, left);
    } else {
        assert(left =~= Seq::<CsvRecordView>::empty());
        assert(event == SeedEventView::EndOfRows);
        let (committing, commit) = step(state, event);
        assert(commit == SeedActionView::Commit);
        let (done, report) = after.perform(commit);
        assert(report == SeedEventView::Done);
        assert(done.committed == load.db.tables);
        assert(step(committing, report).1 == SeedActionView::Finish(SeedOutcome::Completed));
        assert(drive(state, SeedActionView::NextRow, world, fuel) == drive(
            committing,
            commit,
            after,
            (fuel - 1) as nat,
        ));
        assert(drive(committing, commit, after, (fuel - 1) as nat) == drive(
            step(committing, report).0,
            step(committing, report).1,
            done,
            (fuel - 2) as nat,
        ));
    }
}

/// A load in which nothing fails completes, and what it commits is exactly
/// the fold of the rows over the emptied store: [`seeded`].
pub proof fn lemma_unfailing_run_completes(db: Database, rows: Seq<CsvRecordView>, fuel: nat)
    requires
        fuel >= 6 * rows.len() + 6,
    ensures
        run(World::before(db, rows, Set::empty()), fuel).1 == SeedOutcome::Completed,
        run(World::before(db, rows, Set::empty()), fuel).0.committed == seeded(db, rows).tables,
{
    let world = World::before(db, rows, Set::empty());
    let fresh = SeederView { stage: SeedStageView::Idle, slots: SlotsView::empty() };
    let (s1, a1) = step(fresh, SeedEventView::Launch);
    let (w1, e1) = world.perform(a1);
    let (s2, a2) = step(s1, e1);
    let (w2, e2) = w1.perform(a2);
    let (s3, a3) = step(s2, e2);
    let (w3, e3) = w2.perform(a3);
    let (s4, a4) = step(s3, e3);
    let (w4, e4) = w3.perform(a4);
    let (s5, a5) = step(s4, e4);
    assert(drive(s1, a1, world, fuel) == drive(s2, a2, w1, (fuel - 1) as nat));
    assert(drive(s2, a2, w1, (fuel - 1) as nat) == drive(s3, a3, w2, (fuel - 2) as nat));
    assert(drive(s3, a3, w2, (fuel - 2) as nat) == drive(s4, a4, w3, (fuel - 3) as nat));
    assert(drive(s4, a4, w3, (fuel - 3) as nat) == drive(s5, a5, w4, (fuel - 4) as nat));
    assert(w4.working == Load::start(db).db);
    assert(rows.skip(0) =~= rows);
    lemma_rows_run(Load::start(db), w4, (fuel - 4) as nat);
}

} // verus!
