//! The hierarchy that a load builds: when is every category the child of the
//! category that its code says it is?
//!
//! The loader does not check its input. A row that names a category at some
//! level while the level above was last named under another code, or was
//! never named, hangs the category under whatever that slot holds. The law at
//! the end of this file therefore speaks of source files that keep their
//! context: [`in_context`] and [`codes_tell_levels`] say what that means.

use crate::hierarchy::{Level, SlotsView};
use crate::load::{load_levels, load_row, load_rows, seeded, Load};
use crate::record::CsvRecordView;
use crate::row::{code_of, upsert_of};
use crate::seeder::levels_left;
use crate::store::{CategoryRow, Database, Tables};
use crate::text::is_blank;
use vstd::prelude::*;

verus! {

/// The code under which `level` was last named by one of `rows`, if any of
/// them names it.
pub open spec fn last_code(rows: Seq<CsvRecordView>, level: Level) -> Option<Seq<char>>
    decreases rows.len(),
{
    if rows.len() == 0 {
        None
    } else if !is_blank(rows.last().name(level)) {
        Some(code_of(rows.last(), level))
    } else {
        last_code(rows.drop_last(), level)
    }
}

/// Whether every row names its categories in context: wherever a row names a
/// category below level one, the level above was last named, by that row or
/// by an earlier one, under the code that this row gives for it.
pub open spec fn in_context(rows: Seq<CsvRecordView>) -> bool {
    forall|i: int, level: Level|
        0 <= i < rows.len() && !is_blank(#[trigger] rows[i].name(level)) ==> match level.parent_of() {
            None => true,
            Some(up) => last_code(rows.take(i + 1), up) == Some(code_of(rows[i], up)),
        }
}

/// Whether a code is used at one level only: no two rows name categories at
/// different levels under the same code.
pub open spec fn codes_tell_levels(rows: Seq<CsvRecordView>) -> bool {
    forall|i: int, j: int, a: Level, b: Level|
        0 <= i < rows.len() && 0 <= j < rows.len() && !is_blank(rows[i].name(a)) && !is_blank(
            rows[j].name(b),
        ) && #[trigger] code_of(rows[i], a) == #[trigger] code_of(rows[j], b) ==> a == b
}

/// Whether `code` is `prefix` followed by a dot and one more fragment.
pub open spec fn is_dot_prefix(prefix: Seq<char>, code: Seq<char>) -> bool {
    &&& prefix.len() < code.len()
    &&& code.subrange(0, prefix.len() as int) == prefix
    &&& code[prefix.len() as int] == '.'
}

/// Whether the category coded `code` has, as its parent, a category one level
/// above it whose code is a dot-prefix of its own.
pub open spec fn has_parent_above(tables: Tables, code: Seq<char>) -> bool {
    exists|up: Seq<char>|
        #![trigger tables.categories.dom().contains(up)]
        {
            &&& tables.categories.dom().contains(up)
            &&& tables.categories[code].parent_id == Some(tables.categories[up].id)
            &&& tables.categories[up].level == tables.categories[code].level - 1
            &&& is_dot_prefix(up, code)
        }
}

/// Whether the category table is a forest of depth four at most: every
/// category sits at a level from one to four, a root has no parent, and every
/// other category has its parent one level above, under a dot-prefix of its
/// code.
pub open spec fn is_forest(tables: Tables) -> bool {
    forall|code: Seq<char>| #[trigger]
        tables.categories.dom().contains(code) ==> {
            &&& 1 <= tables.categories[code].level <= 4
            &&& tables.categories[code].level == 1 ==> tables.categories[code].parent_id is None
            &&& tables.categories[code].level > 1 ==> has_parent_above(tables, code)
        }
}

/// Whether every category in the table was named by one of `rows`, at the
/// level that the table records for it.
pub open spec fn accounted(tables: Tables, rows: Seq<CsvRecordView>) -> bool {
    forall|code: Seq<char>| #[trigger]
        tables.categories.dom().contains(code) ==> exists|i: int, a: Level|
            {
                &&& 0 <= i < rows.len()
                &&& !is_blank(rows[i].name(a))
                &&& #[trigger] code_of(rows[i], a) == code
                &&& tables.categories[code].level == a.number_of()
            }
}

/// Whether the slot of `level` holds the category coded `code`, or is empty if
/// there is no such code.
pub open spec fn slot_tracks(load: Load, code: Option<Seq<char>>, level: Level) -> bool {
    match code {
        None => load.slots.get(level) is None,
        Some(c) => {
            &&& load.db.tables.categories.dom().contains(c)
            &&& load.slots.get(level) == Some(load.db.tables.categories[c].id)
            &&& load.db.tables.categories[c].level == level.number_of()
        },
    }
}

/// The code that the slot of `level` stands for in the middle of a row: for
/// the levels above `from`, the row itself counts; for the others, only the
/// rows before it.
pub open spec fn context(
    done: Seq<CsvRecordView>,
    row: CsvRecordView,
    from: Option<Level>,
    level: Level,
) -> Option<Seq<char>> {
    if levels_left(Some(level)) > levels_left(from) {
        last_code(done.push(row), level)
    } else {
        last_code(done, level)
    }
}

/// The code of a category below level one extends the code that the same row
/// gives for the level above by a dot and a fragment.
pub proof fn lemma_code_extends(row: CsvRecordView, level: Level)
    requires
        level.parent_of() is Some,
    ensures
        is_dot_prefix(code_of(row, level.parent_of().unwrap()), code_of(row, level)),
{
    let up = level.parent_of().unwrap();
    let prefix = code_of(row, up);
    let code = code_of(row, level);
    assert(code.subrange(0, prefix.len() as int) =~= prefix);
}

/// Whether every slot holds the category that its level was last named as,
/// in the middle of a row that has been dealt with above `from`.
pub open spec fn slots_track(
    load: Load,
    done: Seq<CsvRecordView>,
    row: CsvRecordView,
    from: Option<Level>,
) -> bool {
    &&& slot_tracks(load, context(done, row, from, Level::One), Level::One)
    &&& slot_tracks(load, context(done, row, from, Level::Two), Level::Two)
    &&& slot_tracks(load, context(done, row, from, Level::Three), Level::Three)
    &&& slot_tracks(load, context(done, row, from, Level::Four), Level::Four)
}

/// What a load keeps true from row to row, as long as the rows keep their
/// context.
pub open spec fn keeps_lineage(
    load: Load,
    done: Seq<CsvRecordView>,
    row: CsvRecordView,
    from: Option<Level>,
) -> bool {
    &&& is_forest(load.db.tables)
    &&& accounted(load.db.tables, done.push(row))
    &&& slots_track(load, done, row, from)
}

/// Upserting the category that a row names at `level` keeps the table a
/// forest, and makes that category the one its level stands for.
pub proof fn lemma_named_level_keeps_lineage(
    load: Load,
    done: Seq<CsvRecordView>,
    row: CsvRecordView,
    level: Level,
)
    requires
        in_context(done.push(row)),
        codes_tell_levels(done.push(row)),
        keeps_lineage(load, done, row, Some(level)),
        upsert_of(row, load.slots, level) is Some,
    ensures
        ({
            let (db, id) = load.db.upsert(upsert_of(row, load.slots, level).unwrap());
            keeps_lineage(Load { db, slots: load.slots.with(level, id) }, done, row, level.child_of())
        }),
{
    let rows = done.push(row);
    let n = done.len() as int;
    let upsert = upsert_of(row, load.slots, level).unwrap();
    let code = upsert.code;
    let (db, id) = load.db.upsert(upsert);
    let next = Load { db, slots: load.slots.with(level, id) };
    let before = load.db.tables;
    let after = db.tables;
    let known = before.categories.dom().contains(code);
    assert(rows[n] == row);
    assert(rows.take(n + 1) =~= rows);
    assert(rows.drop_last() =~= done);
    assert(!is_blank(rows[n].name(level)));
    assert(code == code_of(rows[n], level));

    // The level that the table records for the code is the level it is named at.
    assert(after.categories[code].level == level.number_of()) by {
        if known {
            let (i, a) = choose|i: int, a: Level|
                {
                    &&& 0 <= i < rows.len()
                    &&& !is_blank(rows[i].name(a))
                    &&& #[trigger] code_of(rows[i], a) == code
                    &&& before.categories[code].level == a.number_of()
                };
            assert(code_of(rows[i], a) == code_of(rows[n], level));
        }
    }

    assert(accounted(after, rows)) by {
        assert forall|k: Seq<char>| #[trigger] after.categories.dom().contains(k) implies exists|
            i: int,
            a: Level,
        |
            {
                &&& 0 <= i < rows.len()
                &&& !is_blank(rows[i].name(a))
                &&& #[trigger] code_of(rows[i], a) == k
                &&& after.categories[k].level == a.number_of()
            } by {
            if k == code {
                assert(code_of(rows[n], level) == k);
            } else {
                assert(before.categories.dom().contains(k));
                let (i, a) = choose|i: int, a: Level|
                    {
                        &&& 0 <= i < rows.len()
                        &&& !is_blank(rows[i].name(a))
                        &&& #[trigger] code_of(rows[i], a) == k
                        &&& before.categories[k].level == a.number_of()
                    };
                assert(code_of(rows[i], a) == k);
            }
        }
    }

    assert(is_forest(after)) by {
        assert forall|k: Seq<char>| #[trigger] after.categories.dom().contains(k) implies {
            &&& 1 <= after.categories[k].level <= 4
            &&& after.categories[k].level == 1 ==> after.categories[k].parent_id is None
            &&& after.categories[k].level > 1 ==> has_parent_above(after, k)
        } by {
            if before.categories.dom().contains(k) {
                // An old row: at most its name has changed.
                if before.categories[k].level > 1 {
                    let up = choose|up: Seq<char>|
                        #![trigger before.categories.dom().contains(up)]
                        {
                            &&& before.categories.dom().contains(up)
                            &&& before.categories[k].parent_id == Some(before.categories[up].id)
                            &&& before.categories[up].level == before.categories[k].level - 1
                            &&& is_dot_prefix(up, k)
                        };
                    assert(after.categories.dom().contains(up));
                }
            } else {
                // The new row.
                assert(k == code);
                match level.parent_of() {
                    None => {},
                    Some(above) => {
                        let parent = code_of(row, above);
                        assert(last_code(rows.take(n + 1), above) == Some(parent));
                        assert(context(done, row, Some(level), above) == Some(parent));
                        assert(slot_tracks(load, Some(parent), above));
                        lemma_code_extends(row, level);
                        assert(after.categories.dom().contains(parent));
                    },
                }
            }
        }
    }

    assert(slots_track(next, done, row, level.child_of())) by {
        assert(last_code(rows, level) == Some(code));
        lemma_slot_still_tracks(load, done, row, level, Level::One);
        lemma_slot_still_tracks(load, done, row, level, Level::Two);
        lemma_slot_still_tracks(load, done, row, level, Level::Three);
        lemma_slot_still_tracks(load, done, row, level, Level::Four);
    }
}

/// After the upsert at `level`, the slot of `other` still holds the category
/// that its level stands for.
proof fn lemma_slot_still_tracks(
    load: Load,
    done: Seq<CsvRecordView>,
    row: CsvRecordView,
    level: Level,
    other: Level,
)
    requires
        slot_tracks(load, context(done, row, Some(level), other), other),
        upsert_of(row, load.slots, level) is Some,
        load.db.upsert(upsert_of(row, load.slots, level).unwrap()).0.tables.categories[code_of(
            row,
            level,
        )].level == level.number_of(),
    ensures
        ({
            let (db, id) = load.db.upsert(upsert_of(row, load.slots, level).unwrap());
            slot_tracks(
                Load { db, slots: load.slots.with(level, id) },
                context(done, row, level.child_of(), other),
                other,
            )
        }),
{
    let rows = done.push(row);
    assert(rows.drop_last() =~= done);
    assert(rows.last() == row);
}

/// The categories of a row, from level `from` down, keep the table a forest.
pub proof fn lemma_levels_keep_lineage(
    load: Load,
    done: Seq<CsvRecordView>,
    row: CsvRecordView,
    from: Option<Level>,
)
    requires
        in_context(done.push(row)),
        codes_tell_levels(done.push(row)),
        keeps_lineage(load, done, row, from),
    ensures
        keeps_lineage(load_levels(load, row, from), done, row, None),
    decreases levels_left(from),
{
    let rows = done.push(row);
    match from {
        None => {},
        Some(level) => {
            match upsert_of(row, load.slots, level) {
                None => {
                    assert(rows.drop_last() =~= done);
                    assert(rows.last() == row);
                    assert(is_blank(row.name(level)));
                    assert(last_code(rows, level) == last_code(done, level));
                    assert(slots_track(load, done, row, level.child_of()));
                    lemma_levels_keep_lineage(load, done, row, level.child_of());
                },
                Some(upsert) => {
                    lemma_named_level_keeps_lineage(load, done, row, level);
                    let (db, id) = load.db.upsert(upsert);
                    let next = Load { db, slots: load.slots.with(level, id) };
                    lemma_levels_keep_lineage(next, done, row, level.child_of());
                },
            }
        },
    }
}

/// Row after row, a load of rows that keep their context keeps the table a
/// forest, and each slot on the category that its level was last named as.
pub proof fn lemma_rows_keep_lineage(load: Load, rows: Seq<CsvRecordView>)
    requires
        in_context(rows),
        codes_tell_levels(rows),
        load.db.tables.categories == Map::<Seq<char>, CategoryRow>::empty(),
        load.slots == SlotsView::empty(),
    ensures
        is_forest(load_rows(load, rows).db.tables),
        accounted(load_rows(load, rows).db.tables, rows),
        slot_tracks(load_rows(load, rows), last_code(rows, Level::One), Level::One),
        slot_tracks(load_rows(load, rows), last_code(rows, Level::Two), Level::Two),
        slot_tracks(load_rows(load, rows), last_code(rows, Level::Three), Level::Three),
        slot_tracks(load_rows(load, rows), last_code(rows, Level::Four), Level::Four),
    decreases rows.len(),
{
    if rows.len() > 0 {
        let done = rows.drop_last();
        let row = rows.last();
        assert(done.push(row) =~= rows);
        assert(in_context(done)) by {
            assert forall|i: int, level: Level|
                0 <= i < done.len() && !is_blank(
                    #[trigger] done[i].name(level),
                ) implies match level.parent_of() {
                None => true,
                Some(up) => last_code(done.take(i + 1), up) == Some(code_of(done[i], up)),
            } by {
                assert(done[i] == rows[i]);
                assert(done.take(i + 1) =~= rows.take(i + 1));
            }
        }
        assert(codes_tell_levels(done)) by {
            assert forall|i: int, j: int, a: Level, b: Level|
                0 <= i < done.len() && 0 <= j < done.len() && !is_blank(done[i].name(a))
                    && !is_blank(done[j].name(b)) && #[trigger] code_of(done[i], a)
                    == #[trigger] code_of(done[j], b) implies a == b by {
                assert(done[i] == rows[i] && done[j] == rows[j]);
                assert(code_of(rows[i], a) == code_of(rows[j], b));
            }
        }
        lemma_rows_keep_lineage(load, done);
        let so_far = load_rows(load, done);
        assert(accounted(so_far.db.tables, rows)) by {
            assert forall|k: Seq<char>| #[trigger]
                so_far.db.tables.categories.dom().contains(k) implies exists|i: int, a: Level|
                {
                    &&& 0 <= i < rows.len()
                    &&& !is_blank(rows[i].name(a))
                    &&& #[trigger] code_of(rows[i], a) == k
                    &&& so_far.db.tables.categories[k].level == a.number_of()
                } by {
                let (i, a) = choose|i: int, a: Level|
                    {
                        &&& 0 <= i < done.len()
                        &&& !is_blank(done[i].name(a))
                        &&& #[trigger] code_of(done[i], a) == k
                        &&& so_far.db.tables.categories[k].level == a.number_of()
                    };
                assert(done[i] == rows[i]);
                assert(code_of(rows[i], a) == k);
            }
        }
        assert(keeps_lineage(so_far, done, row, Some(Level::One)));
        lemma_levels_keep_lineage(so_far, done, row, Some(Level::One));
        let named = load_levels(so_far, row, Some(Level::One));
        assert(load_row(so_far, row).db.tables.categories == named.db.tables.categories);
        assert(load_row(so_far, row).slots == named.slots);
    }
}

/// The hierarchy law: a load of rows that name their categories in context,
/// each code at one level, leaves a forest. Every category sits at a level
/// from one to four; a root has no parent; every other category has as its
/// parent a category exactly one level above whose code, followed by a dot, is
/// a strict prefix of its own.
pub proof fn lemma_load_builds_forest(db: Database, rows: Seq<CsvRecordView>)
    requires
        in_context(rows),
        codes_tell_levels(rows),
    ensures
        is_forest(seeded(db, rows).tables),
{
    lemma_rows_keep_lineage(Load::start(db), rows);
}

} // verus!
