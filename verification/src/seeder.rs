//! The loader as a state machine.
//!
//! A load is one transaction: open it, empty both tables (drugs first, since
//! they refer to categories), open the source file, fold its rows into the
//! category hierarchy and the drug table, and commit. The machine decides;
//! its caller talks to the store and to the file. Each call of [`seed_data`]
//! takes what happened to the last request and answers with the next one,
//! until it answers [`SeedAction::Finish`].

use crate::hierarchy::{CategorySlots, Level, SlotsView};
use crate::record::{CsvRecord, CsvRecordView};
use crate::row::{
    category_upsert, drug_of, new_drug, upsert_of, CategoryUpsert, CategoryUpsertView, NewDrug,
    NewDrugView,
};
use vstd::prelude::*;

verus! {

/// How a load ended.
#[derive(Clone, Copy, Debug, PartialEq, Eq, Structural)]
pub enum SeedOutcome {
    /// Every row was processed and the transaction was committed.
    Completed,
    /// Something failed; the transaction was never committed.
    Aborted,
}

/// Where a load stands: which request is outstanding.
#[derive(Debug, PartialEq, Eq)]
pub enum SeedStage {
    /// Nothing has been asked yet.
    Idle,
    /// The transaction is being opened.
    Beginning,
    /// The drug table is being emptied.
    ClearingDrugs,
    /// The category table is being emptied.
    ClearingCategories,
    /// The source file is being opened.
    OpeningRows,
    /// The next row is being read.
    AwaitingRow,
    /// A category of the given row is being upserted at the given level.
    AwaitingCategory(Level, CsvRecord),
    /// The drug of the current row is being inserted.
    AwaitingDrug,
    /// The transaction is being committed.
    Committing,
    /// The load is over.
    Finished(SeedOutcome),
}

/// The content of a [`SeedStage`].
#[verifier::ext_equal]
pub enum SeedStageView {
    Idle,
    Beginning,
    ClearingDrugs,
    ClearingCategories,
    OpeningRows,
    AwaitingRow,
    AwaitingCategory(Level, CsvRecordView),
    AwaitingDrug,
    Committing,
    Finished(SeedOutcome),
}

impl View for SeedStage {
    type V = SeedStageView;

    open spec fn view(&self) -> SeedStageView {
        match self {
            SeedStage::Idle => SeedStageView::Idle,
            SeedStage::Beginning => SeedStageView::Beginning,
            SeedStage::ClearingDrugs => SeedStageView::ClearingDrugs,
            SeedStage::ClearingCategories => SeedStageView::ClearingCategories,
            SeedStage::OpeningRows => SeedStageView::OpeningRows,
            SeedStage::AwaitingRow => SeedStageView::AwaitingRow,
            SeedStage::AwaitingCategory(level, record) => SeedStageView::AwaitingCategory(
                *level,
                record@,
            ),
            SeedStage::AwaitingDrug => SeedStageView::AwaitingDrug,
            SeedStage::Committing => SeedStageView::Committing,
            SeedStage::Finished(outcome) => SeedStageView::Finished(*outcome),
        }
    }
}

/// The state of a load: the outstanding request and the category context.
#[derive(Debug, PartialEq, Eq)]
pub struct Seeder {
    stage: SeedStage,
    slots: CategorySlots,
}

/// The content of a [`Seeder`].
#[verifier::ext_equal]
pub struct SeederView {
    pub stage: SeedStageView,
    pub slots: SlotsView,
}

impl View for Seeder {
    type V = SeederView;

    closed spec fn view(&self) -> SeederView {
        SeederView { stage: self.stage@, slots: self.slots@ }
    }
}

/// What the caller reports back to the machine.
#[derive(Debug, PartialEq, Eq)]
pub enum SeedEvent {
    /// The load is to start. Only a fresh machine expects this.
    Launch,
    /// The last request was carried out and has nothing to report.
    Done,
    /// The source file gave another row.
    Row(CsvRecord),
    /// The source file has no more rows.
    EndOfRows,
    /// The category upsert was carried out; the store reports the category's
    /// identifier.
    CategoryId(i32),
    /// The last request failed.
    Failed,
}

/// The content of a [`SeedEvent`].
#[verifier::ext_equal]
pub enum SeedEventView {
    Launch,
    Done,
    Row(CsvRecordView),
    EndOfRows,
    CategoryId(int),
    Failed,
}

impl View for SeedEvent {
    type V = SeedEventView;

    open spec fn view(&self) -> SeedEventView {
        match self {
            SeedEvent::Launch => SeedEventView::Launch,
            SeedEvent::Done => SeedEventView::Done,
            SeedEvent::Row(record) => SeedEventView::Row(record@),
            SeedEvent::EndOfRows => SeedEventView::EndOfRows,
            SeedEvent::CategoryId(id) => SeedEventView::CategoryId(*id as int),
            SeedEvent::Failed => SeedEventView::Failed,
        }
    }
}

/// What the machine asks of its caller.
#[derive(Debug, PartialEq, Eq)]
pub enum SeedAction {
    /// Open the transaction that every later write belongs to.
    Begin,
    /// Delete every row of the drug table.
    DeleteDrugs,
    /// Delete every row of the category table.
    DeleteCategories,
    /// Open the source file.
    OpenRows,
    /// Read the next row of the source file.
    NextRow,
    /// Insert the category, or rename it if its code is already there, and
    /// report its identifier.
    UpsertCategory(CategoryUpsert),
    /// Insert the drug.
    InsertDrug(NewDrug),
    /// Commit the transaction.
    Commit,
    /// Stop. With [`SeedOutcome::Aborted`] the transaction, if one is open, is
    /// to be dropped without a commit.
    Finish(SeedOutcome),
}

/// The content of a [`SeedAction`].
#[verifier::ext_equal]
pub enum SeedActionView {
    Begin,
    DeleteDrugs,
    DeleteCategories,
    OpenRows,
    NextRow,
    UpsertCategory(CategoryUpsertView),
    InsertDrug(NewDrugView),
    Commit,
    Finish(SeedOutcome),
}

impl View for SeedAction {
    type V = SeedActionView;

    open spec fn view(&self) -> SeedActionView {
        match self {
            SeedAction::Begin => SeedActionView::Begin,
            SeedAction::DeleteDrugs => SeedActionView::DeleteDrugs,
            SeedAction::DeleteCategories => SeedActionView::DeleteCategories,
            SeedAction::OpenRows => SeedActionView::OpenRows,
            SeedAction::NextRow => SeedActionView::NextRow,
            SeedAction::UpsertCategory(upsert) => SeedActionView::UpsertCategory(upsert@),
            SeedAction::InsertDrug(drug) => SeedActionView::InsertDrug(drug@),
            SeedAction::Commit => SeedActionView::Commit,
            SeedAction::Finish(outcome) => SeedActionView::Finish(*outcome),
        }
    }
}

/// The state and request that end a load without a commit.
pub open spec fn aborted(slots: SlotsView) -> (SeederView, SeedActionView) {
    (
        SeederView { stage: SeedStageView::Finished(SeedOutcome::Aborted), slots },
        SeedActionView::Finish(SeedOutcome::Aborted),
    )
}

/// How many levels of a row are still to be looked at.
pub open spec fn levels_left(from: Option<Level>) -> int {
    match from {
        Some(level) => 5 - level.number_of(),
        None => 0,
    }
}

/// Goes on with a row whose levels above `from` are dealt with: the first
/// level from `from` down whose name is not blank is upserted next; if there
/// is none, the row's drug is inserted, if it has one; otherwise the next row
/// is read.
pub open spec fn resume(row: CsvRecordView, slots: SlotsView, from: Option<Level>) -> (
    SeederView,
    SeedActionView,
)
    decreases levels_left(from),
{
    match from {
        Some(level) => match upsert_of(row, slots, level) {
            Some(upsert) => (
                SeederView { stage: SeedStageView::AwaitingCategory(level, row), slots },
                SeedActionView::UpsertCategory(upsert),
            ),
            None => resume(row, slots, level.child_of()),
        },
        None => match drug_of(row, slots) {
            Some(drug) => (
                SeederView { stage: SeedStageView::AwaitingDrug, slots },
                SeedActionView::InsertDrug(drug),
            ),
            None => (
                SeederView { stage: SeedStageView::AwaitingRow, slots },
                SeedActionView::NextRow,
            ),
        },
    }
}

/// The machine's transition: the state after `event`, and the next request.
///
/// A report that does not answer the outstanding request, and any failure,
/// ends the load without a commit. A load that is over stays over.
pub open spec fn step(state: SeederView, event: SeedEventView) -> (SeederView, SeedActionView) {
    let slots = state.slots;
    match (state.stage, event) {
        (SeedStageView::Finished(outcome), _) => (state, SeedActionView::Finish(outcome)),
        (SeedStageView::Idle, SeedEventView::Launch) => (
            SeederView { stage: SeedStageView::Beginning, slots },
            SeedActionView::Begin,
        ),
        (SeedStageView::Beginning, SeedEventView::Done) => (
            SeederView { stage: SeedStageView::ClearingDrugs, slots },
            SeedActionView::DeleteDrugs,
        ),
        (SeedStageView::ClearingDrugs, SeedEventView::Done) => (
            SeederView { stage: SeedStageView::ClearingCategories, slots },
            SeedActionView::DeleteCategories,
        ),
        (SeedStageView::ClearingCategories, SeedEventView::Done) => (
            SeederView { stage: SeedStageView::OpeningRows, slots },
            SeedActionView::OpenRows,
        ),
        (SeedStageView::OpeningRows, SeedEventView::Done) => (
            SeederView { stage: SeedStageView::AwaitingRow, slots },
            SeedActionView::NextRow,
        ),
        (SeedStageView::AwaitingRow, SeedEventView::Row(row)) => resume(
            row,
            slots,
            Some(Level::One),
        ),
        (SeedStageView::AwaitingRow, SeedEventView::EndOfRows) => (
            SeederView { stage: SeedStageView::Committing, slots },
            SeedActionView::Commit,
        ),
        (SeedStageView::AwaitingCategory(level, row), SeedEventView::CategoryId(id)) => resume(
            row,
            slots.with(level, id),
            level.child_of(),
        ),
        (SeedStageView::AwaitingDrug, SeedEventView::Done) => (
            SeederView { stage: SeedStageView::AwaitingRow, slots },
            SeedActionView::NextRow,
        ),
        (SeedStageView::Committing, SeedEventView::Done) => (
            SeederView { stage: SeedStageView::Finished(SeedOutcome::Completed), slots },
            SeedActionView::Finish(SeedOutcome::Completed),
        ),
        _ => aborted(slots),
    }
}

impl Seeder {
    /// A load that has not started: nothing asked, no category seen.
    pub fn new() -> (seeder: Seeder)
        ensures
            seeder@ == (SeederView { stage: SeedStageView::Idle, slots: SlotsView::empty() }),
    {
        Seeder { stage: SeedStage::Idle, slots: CategorySlots::new() }
    }

    /// The category context so far.
    pub fn slots(&self) -> (slots: CategorySlots)
        ensures
            slots@ == self@.slots,
    {
        self.slots
    }

    /// How the load ended, once it is over.
    pub fn outcome(&self) -> (outcome: Option<SeedOutcome>)
        ensures
            outcome == match self@.stage {
                SeedStageView::Finished(o) => Some(o),
                _ => None,
            },
    {
        match &self.stage {
            SeedStage::Finished(o) => Some(*o),
            _ => None,
        }
    }
}

/// Goes on with `record` from level `from` down, in the context `slots`.
fn resume_row(record: CsvRecord, slots: CategorySlots, from: Option<Level>) -> (next: (
    Seeder,
    SeedAction,
))
    ensures
        next.0@ == resume(record@, slots@, from).0,
        next.1@ == resume(record@, slots@, from).1,
    decreases levels_left(from),
{
    match from {
        Some(level) => match category_upsert(&record, &slots, level) {
            Some(upsert) => (
                Seeder { stage: SeedStage::AwaitingCategory(level, record), slots },
                SeedAction::UpsertCategory(upsert),
            ),
            None => resume_row(record, slots, level.child()),
        },
        None => match new_drug(&record, &slots) {
            Some(drug) => (
                Seeder { stage: SeedStage::AwaitingDrug, slots },
                SeedAction::InsertDrug(drug),
            ),
            None => (Seeder { stage: SeedStage::AwaitingRow, slots }, SeedAction::NextRow),
        },
    }
}

/// Advances a load by one step: takes what became of the last request and
/// decides the next one.
///
/// Started with [`SeedEvent::Launch`] on a fresh [`Seeder`], the machine asks in
/// turn to open the transaction, to empty the drug table and then the category
/// table, and to open the source file. For every row it asks for the upsert of
/// each category the row names, shallowest first, taking each reported
/// identifier into the context before it looks at the next level, and then for
/// the insert of the row's drug, if it has one. When the rows are exhausted it
/// asks for the commit. Any failure, at any point, ends the load with
/// [`SeedOutcome::Aborted`] and no commit.
pub fn seed_data(seeder: Seeder, event: SeedEvent) -> (next: (Seeder, SeedAction))
    ensures
        next.0@ == step(seeder@, event@).0,
        next.1@ == step(seeder@, event@).1,
{
    let slots = seeder.slots;
    match (seeder.stage, event) {
        (SeedStage::Finished(outcome), _) => (
            Seeder { stage: SeedStage::Finished(outcome), slots },
            SeedAction::Finish(outcome),
        ),
        (SeedStage::Idle, SeedEvent::Launch) => (
            Seeder { stage: SeedStage::Beginning, slots },
            SeedAction::Begin,
        ),
        (SeedStage::Beginning, SeedEvent::Done) => (
            Seeder { stage: SeedStage::ClearingDrugs, slots },
            SeedAction::DeleteDrugs,
        ),
        (SeedStage::ClearingDrugs, SeedEvent::Done) => (
            Seeder { stage: SeedStage::ClearingCategories, slots },
            SeedAction::DeleteCategories,
        ),
        (SeedStage::ClearingCategories, SeedEvent::Done) => (
            Seeder { stage: SeedStage::OpeningRows, slots },
            SeedAction::OpenRows,
        ),
        (SeedStage::OpeningRows, SeedEvent::Done) => (
            Seeder { stage: SeedStage::AwaitingRow, slots },
            SeedAction::NextRow,
        ),
        (SeedStage::AwaitingRow, SeedEvent::Row(record)) => resume_row(
            record,
            slots,
            Some(Level::One),
        ),
        (SeedStage::AwaitingRow, SeedEvent::EndOfRows) => (
            Seeder { stage: SeedStage::Committing, slots },
            SeedAction::Commit,
        ),
        (SeedStage::AwaitingCategory(level, record), SeedEvent::CategoryId(id)) => {
            let mut slots = slots;
            slots.set(level, id);
            resume_row(record, slots, level.child())
        },
        (SeedStage::AwaitingDrug, SeedEvent::Done) => (
            Seeder { stage: SeedStage::AwaitingRow, slots },
            SeedAction::NextRow,
        ),
        (SeedStage::Committing, SeedEvent::Done) => (
            Seeder { stage: SeedStage::Finished(SeedOutcome::Completed), slots },
            SeedAction::Finish(SeedOutcome::Completed),
        ),
        _ => (
            Seeder { stage: SeedStage::Finished(SeedOutcome::Aborted), slots },
            SeedAction::Finish(SeedOutcome::Aborted),
        ),
    }
}

} // verus!
