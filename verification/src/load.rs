//! What a load amounts to: the fold of the source rows over the store.

use crate::hierarchy::{Level, SlotsView};
use crate::record::CsvRecordView;
use crate::row::{drug_of, upsert_of};
use crate::seeder::levels_left;
use crate::store::Database;
use vstd::prelude::*;

verus! {

/// A load in progress: the store as written so far, and the category context.
#[verifier::ext_equal]
pub struct Load {
    pub db: Database,
    pub slots: SlotsView,
}

impl Load {
    /// The start of a load on `db`: both tables emptied, no category seen.
    pub open spec fn start(db: Database) -> Load {
        Load { db: db.without_drugs().without_categories(), slots: SlotsView::empty() }
    }
}

/// Applies the categories that `row` names, from level `from` down: each one
/// is upserted under the context left by the levels above it, and becomes the
/// current category of its level.
pub open spec fn load_levels(load: Load, row: CsvRecordView, from: Option<Level>) -> Load
    decreases levels_left(from),
{
    match from {
        None => load,
        Some(level) => match upsert_of(row, load.slots, level) {
            None => load_levels(load, row, level.child_of()),
            Some(upsert) => {
                let (db, id) = load.db.upsert(upsert);
                load_levels(Load { db, slots: load.slots.with(level, id) }, row, level.child_of())
            },
        },
    }
}

/// Applies the drug that `row` describes, if it describes one.
pub open spec fn load_drug(load: Load, row: CsvRecordView) -> Load {
    match drug_of(row, load.slots) {
        None => load,
        Some(drug) => Load { db: load.db.insert_drug(drug), ..load },
    }
}

/// Applies one row: its categories, shallowest first, then its drug.
pub open spec fn load_row(load: Load, row: CsvRecordView) -> Load {
    load_drug(load_levels(load, row, Some(Level::One)), row)
}

/// Applies the rows in order.
pub open spec fn load_rows(load: Load, rows: Seq<CsvRecordView>) -> Load
    decreases rows.len(),
{
    if rows.len() == 0 {
        load
    } else {
        load_row(load_rows(load, rows.drop_last()), rows.last())
    }
}

/// The store after a complete load of `rows` on `db`.
pub open spec fn seeded(db: Database, rows: Seq<CsvRecordView>) -> Database {
    load_rows(Load::start(db), rows).db
}

} // verus!
