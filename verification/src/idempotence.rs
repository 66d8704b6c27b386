//! Loading twice gives the same content: a load depends on the store it
//! starts from only through the identifiers that the store hands out.

use crate::hierarchy::{Level, SlotsView};
use crate::load::{load_drug, load_levels, load_row, load_rows, seeded, Load};
use crate::record::CsvRecordView;
use crate::row::{drug_of, upsert_of, CategoryUpsertView, DrugText, NewDrugView};
use crate::seeder::levels_left;
use crate::store::{CategoryRow, Database, DrugRow, Tables};
use vstd::prelude::*;

verus! {

/// An optional identifier moved by `by`.
pub open spec fn moved(id: Option<int>, by: int) -> Option<int> {
    match id {
        Some(n) => Some(n + by),
        None => None,
    }
}

/// A context with every identifier moved by `by`.
pub open spec fn moved_slots(slots: SlotsView, by: int) -> SlotsView {
    SlotsView {
        level1: moved(slots.level1, by),
        level2: moved(slots.level2, by),
        level3: moved(slots.level3, by),
        level4: moved(slots.level4, by),
    }
}

/// A category row with its identifier and its parent's moved by `by`.
pub open spec fn moved_category(row: CategoryRow, by: int) -> CategoryRow {
    CategoryRow { id: row.id + by, parent_id: moved(row.parent_id, by), ..row }
}

/// A drug row with its identifier moved by `drugs_by` and its category's by
/// `categories_by`.
pub open spec fn moved_drug(row: DrugRow, categories_by: int, drugs_by: int) -> DrugRow {
    DrugRow {
        id: row.id + drugs_by,
        drug: NewDrugView { category_id: moved(row.drug.category_id, categories_by), ..row.drug },
    }
}

/// The same store under other identifiers: every category identifier moved by
/// `categories_by`, every drug identifier by `drugs_by`, references included.
pub open spec fn moved_db(db: Database, categories_by: int, drugs_by: int) -> Database {
    Database {
        tables: Tables {
            categories: db.tables.categories.map_values(
                |row: CategoryRow| moved_category(row, categories_by),
            ),
            drugs: db.tables.drugs.map_values(
                |row: DrugRow| moved_drug(row, categories_by, drugs_by),
            ),
        },
        next_category_id: db.next_category_id + categories_by,
        next_drug_id: db.next_drug_id + drugs_by,
    }
}

/// The same load under other identifiers.
pub open spec fn moved_load(load: Load, categories_by: int, drugs_by: int) -> Load {
    Load {
        db: moved_db(load.db, categories_by, drugs_by),
        slots: moved_slots(load.slots, categories_by),
    }
}

/// Moving identifiers changes nothing of what the tables say.
pub proof fn lemma_moved_content(db: Database, categories_by: int, drugs_by: int)
    ensures
        moved_db(db, categories_by, drugs_by).tables.category_entries()
            == db.tables.category_entries(),
        moved_db(db, categories_by, drugs_by).tables.drug_texts() == db.tables.drug_texts(),
{
    let moved = moved_db(db, categories_by, drugs_by).tables;
    assert(moved.category_entries() =~= db.tables.category_entries());
    assert(moved.drugs.map_values(|d: DrugRow| d.drug.text) =~= db.tables.drugs.map_values(
        |d: DrugRow| d.drug.text,
    ));
}

/// An upsert under moved identifiers does what it does under the first
/// ones, moved.
pub proof fn lemma_moved_upsert(
    db: Database,
    upsert: CategoryUpsertView,
    categories_by: int,
    drugs_by: int,
)
    ensures
        ({
            let there = CategoryUpsertView {
                parent_id: moved(upsert.parent_id, categories_by),
                ..upsert
            };
            &&& moved_db(db, categories_by, drugs_by).upsert(there).0 == moved_db(
                db.upsert(upsert).0,
                categories_by,
                drugs_by,
            )
            &&& moved_db(db, categories_by, drugs_by).upsert(there).1 == db.upsert(upsert).1
                + categories_by
        }),
{
    let there = CategoryUpsertView { parent_id: moved(upsert.parent_id, categories_by), ..upsert };
    let left = moved_db(db, categories_by, drugs_by).upsert(there).0;
    let right = moved_db(db.upsert(upsert).0, categories_by, drugs_by);
    assert(left.tables.categories =~= right.tables.categories);
    assert(left.tables.drugs =~= right.tables.drugs);
}

/// The categories of a row under moved identifiers.
pub proof fn lemma_moved_levels(
    load: Load,
    row: CsvRecordView,
    from: Option<Level>,
    categories_by: int,
    drugs_by: int,
)
    ensures
        load_levels(moved_load(load, categories_by, drugs_by), row, from) == moved_load(
            load_levels(load, row, from),
            categories_by,
            drugs_by,
        ),
    decreases levels_left(from),
{
    match from {
        None => {},
        Some(level) => {
            let there = moved_load(load, categories_by, drugs_by);
            match upsert_of(row, load.slots, level) {
                None => {
                    assert(upsert_of(row, there.slots, level) is None);
                    lemma_moved_levels(load, row, level.child_of(), categories_by, drugs_by);
                },
                Some(upsert) => {
                    let moved_upsert = CategoryUpsertView {
                        parent_id: moved(upsert.parent_id, categories_by),
                        ..upsert
                    };
                    assert(upsert_of(row, there.slots, level) == Some(moved_upsert));
                    lemma_moved_upsert(load.db, upsert, categories_by, drugs_by);
                    let (db, id) = load.db.upsert(upsert);
                    let next = Load { db, slots: load.slots.with(level, id) };
                    assert(moved_load(next, categories_by, drugs_by) == Load {
                        db: there.db.upsert(moved_upsert).0,
                        slots: there.slots.with(level, id + categories_by),
                    });
                    lemma_moved_levels(next, row, level.child_of(), categories_by, drugs_by);
                },
            }
        },
    }
}

/// A whole row under moved identifiers.
pub proof fn lemma_moved_row(load: Load, row: CsvRecordView, categories_by: int, drugs_by: int)
    ensures
        load_row(moved_load(load, categories_by, drugs_by), row) == moved_load(
            load_row(load, row),
            categories_by,
            drugs_by,
        ),
{
    lemma_moved_levels(load, row, Some(Level::One), categories_by, drugs_by);
    let after = load_levels(load, row, Some(Level::One));
    let there = moved_load(after, categories_by, drugs_by);
    match drug_of(row, after.slots) {
        None => {
            assert(drug_of(row, there.slots) is None);
        },
        Some(drug) => {
            let moved_new = NewDrugView {
                category_id: moved(drug.category_id, categories_by),
                ..drug
            };
            assert(drug_of(row, there.slots) == Some(moved_new));
            let left = load_drug(there, row);
            let right = moved_load(load_drug(after, row), categories_by, drugs_by);
            assert(left.db.tables.drugs =~= right.db.tables.drugs);
            assert(left.db.tables.categories =~= right.db.tables.categories);
        },
    }
}

/// All rows under moved identifiers.
pub proof fn lemma_moved_rows(
    load: Load,
    rows: Seq<CsvRecordView>,
    categories_by: int,
    drugs_by: int,
)
    ensures
        load_rows(moved_load(load, categories_by, drugs_by), rows) == moved_load(
            load_rows(load, rows),
            categories_by,
            drugs_by,
        ),
    decreases rows.len(),
{
    if rows.len() > 0 {
        lemma_moved_rows(load, rows.drop_last(), categories_by, drugs_by);
        lemma_moved_row(load_rows(load, rows.drop_last()), rows.last(), categories_by, drugs_by);
    }
}

/// What a load leaves in the tables does not depend on what was there before,
/// nor on the identifiers in use: from any two stores, the same rows give the
/// same set of category codes, names and levels, and the same multiset of
/// drugs, identifiers aside.
pub proof fn lemma_load_forgets_the_past(first: Database, second: Database, rows: Seq<CsvRecordView>)
    ensures
        seeded(first, rows).tables.category_entries() == seeded(
            second,
            rows,
        ).tables.category_entries(),
        seeded(first, rows).tables.drug_texts() == seeded(second, rows).tables.drug_texts(),
{
    let categories_by = second.next_category_id - first.next_category_id;
    let drugs_by = second.next_drug_id - first.next_drug_id;
    let here = Load::start(first);
    let there = Load::start(second);
    assert(there.db.tables.categories =~= moved_load(
        here,
        categories_by,
        drugs_by,
    ).db.tables.categories);
    assert(there.db.tables.drugs =~= moved_load(here, categories_by, drugs_by).db.tables.drugs);
    assert(there == moved_load(here, categories_by, drugs_by));
    lemma_moved_rows(here, rows, categories_by, drugs_by);
    lemma_moved_content(load_rows(here, rows).db, categories_by, drugs_by);
}

/// Idempotency: loading the same rows a second time, on top of the result of
/// the first load, leaves the same set of category codes, names and levels and
/// the same multiset of drugs as the first load did.
pub proof fn lemma_load_is_idempotent(db: Database, rows: Seq<CsvRecordView>)
    ensures
        seeded(seeded(db, rows), rows).tables.category_entries() == seeded(
            db,
            rows,
        ).tables.category_entries(),
        seeded(seeded(db, rows), rows).tables.drug_texts() == seeded(db, rows).tables.drug_texts(),
{
    lemma_load_forgets_the_past(seeded(db, rows), db, rows);
}

} // verus!
