//! What holds of the loader whatever the source file says.

use crate::hierarchy::{Level, SlotsView};
use crate::idempotence::lemma_load_forgets_the_past;
use crate::lineage::{codes_tell_levels, in_context, is_forest, lemma_load_builds_forest};
use crate::load::{load_drug, load_levels, load_row, Load};
use crate::record::CsvRecordView;
use crate::row::{drug_of, upsert_of};
use crate::run::{lemma_unfailing_run_completes, run, World};
use crate::seeder::{
    levels_left, resume, step, SeedActionView, SeedEventView, SeedOutcome, SeedStageView,
    SeederView,
};
use crate::store::Database;
use crate::text::is_blank;
use vstd::prelude::*;

verus! {

/// Whether a row names no category at all: its name is blank at every level.
pub open spec fn names_no_category(row: CsvRecordView) -> bool {
    &&& is_blank(row.name1)
    &&& is_blank(row.name2)
    &&& is_blank(row.name3)
    &&& is_blank(row.name4)
}

/// A drug hangs under the deepest category of the context: if a level holds a
/// category and no deeper level does, a drug read in that context gets that
/// category.
pub proof fn lemma_drug_hangs_deepest(row: CsvRecordView, slots: SlotsView, level: Level)
    requires
        slots.get(level) is Some,
        forall|deeper: Level|
            deeper.number_of() > level.number_of() ==> (#[trigger] slots.get(deeper)) is None,
        drug_of(row, slots) is Some,
    ensures
        drug_of(row, slots).unwrap().category_id == slots.get(level),
{
    assert(Level::Four.number_of() > level.number_of() ==> slots.get(Level::Four) is None);
    assert(Level::Three.number_of() > level.number_of() ==> slots.get(Level::Three) is None);
    assert(Level::Two.number_of() > level.number_of() ==> slots.get(Level::Two) is None);
}

/// A drug read while only levels one and two are set, or only level two, is
/// assigned the level-two category.
pub proof fn lemma_level_two_assignment(row: CsvRecordView, slots: SlotsView, id: int)
    requires
        slots.get(Level::Two) == Some(id),
        slots.get(Level::Three) is None,
        slots.get(Level::Four) is None,
        drug_of(row, slots) is Some,
    ensures
        drug_of(row, slots).unwrap().category_id == Some(id),
{
}

/// A drug read before any category was seen belongs to none.
pub proof fn lemma_no_context_no_category(row: CsvRecordView)
    requires
        drug_of(row, SlotsView::empty()) is Some,
    ensures
        drug_of(row, SlotsView::empty()).unwrap().category_id is None,
{
}

/// A row that names no category leaves the context and the category table
/// alone, from whichever level it is taken up.
pub proof fn lemma_unnamed_levels_change_nothing(load: Load, row: CsvRecordView, from: Option<Level>)
    requires
        names_no_category(row),
    ensures
        load_levels(load, row, from) == load,
        resume(row, load.slots, from) == resume(row, load.slots, None),
    decreases levels_left(from),
{
    match from {
        Some(level) => {
            assert(upsert_of(row, load.slots, level) is None);
            lemma_unnamed_levels_change_nothing(load, row, level.child_of());
        },
        None => {},
    }
}

/// A row whose category names and generic name are all blank contributes
/// nothing and is no error: the machine asks for no write and goes on to the
/// next row in the same context, and the store stays as it is.
pub proof fn lemma_blank_row_contributes_nothing(load: Load, row: CsvRecordView)
    requires
        names_no_category(row),
        is_blank(row.generic_name),
    ensures
        load_row(load, row) == load,
        step(
            SeederView { stage: SeedStageView::AwaitingRow, slots: load.slots },
            SeedEventView::Row(row),
        ) == (
            SeederView { stage: SeedStageView::AwaitingRow, slots: load.slots },
            SeedActionView::NextRow,
        ),
{
    lemma_unnamed_levels_change_nothing(load, row, Some(Level::One));
    assert(drug_of(row, load.slots) is None);
    assert(load_drug(load, row) == load);
}

/// A row that names a category but no drug is processed for its category
/// alone: the drug table is left as it is.
pub proof fn lemma_row_without_drug_inserts_none(load: Load, row: CsvRecordView)
    requires
        is_blank(row.generic_name),
    ensures
        load_row(load, row) == load_levels(load, row, Some(Level::One)),
{
}

/// The machine builds a forest: a load in which nothing fails, of rows that
/// name their categories in context, each code at one level, commits a
/// category table in which every category below level one has its parent one
/// level above, under a dot-prefix of its own code.
pub proof fn lemma_run_builds_forest(db: Database, rows: Seq<CsvRecordView>, fuel: nat)
    requires
        in_context(rows),
        codes_tell_levels(rows),
        fuel >= 6 * rows.len() + 6,
    ensures
        run(World::before(db, rows, Set::empty()), fuel).1 == SeedOutcome::Completed,
        is_forest(run(World::before(db, rows, Set::empty()), fuel).0.committed),
{
    lemma_unfailing_run_completes(db, rows, fuel);
    lemma_load_builds_forest(db, rows);
}

/// The machine is idempotent: running a load of the same rows a second time,
/// on the store that the first run left, commits the same set of category
/// codes, names and levels and the same multiset of drugs, identifiers aside.
pub proof fn lemma_second_run_commits_the_same(db: Database, rows: Seq<CsvRecordView>, fuel: nat)
    requires
        fuel >= 6 * rows.len() + 6,
    ensures
        ({
            let first = run(World::before(db, rows, Set::empty()), fuel).0;
            let second = run(World::before(first.working, rows, Set::empty()), fuel).0;
            &&& second.committed.category_entries() == first.committed.category_entries()
            &&& second.committed.drug_texts() == first.committed.drug_texts()
        }),
{
    let first = run(World::before(db, rows, Set::empty()), fuel).0;
    lemma_unfailing_run_completes(db, rows, fuel);
    lemma_unfailing_run_completes(first.working, rows, fuel);
    lemma_load_forgets_the_past(first.working, db, rows);
}

} // verus!
