//! A mathematical model of the store: the two tables, the identifiers the
//! store hands out, and what each write of a load does to them.
//!
//! The model is what the loader's laws are stated over. It exists in proofs
//! only; the store itself is the caller's.

use crate::row::{CategoryUpsertView, DrugText, NewDrugView};
use vstd::multiset::Multiset;
use vstd::prelude::*;

verus! {

/// A row of the category table. Its code, being unique, is the key under
/// which [`Tables`] holds it.
pub struct CategoryRow {
    pub id: int,
    pub name: Seq<char>,
    pub level: int,
    pub parent_id: Option<int>,
}

/// A row of the drug table.
pub struct DrugRow {
    pub id: int,
    pub drug: NewDrugView,
}

/// The rows of both tables: the categories by code, the drugs in the order in
/// which they were inserted.
#[verifier::ext_equal]
pub struct Tables {
    pub categories: Map<Seq<char>, CategoryRow>,
    pub drugs: Seq<DrugRow>,
}

/// The tables together with the identifiers that the next new category and
/// the next new drug will get. Identifiers only ever grow: emptying a table
/// does not give them back.
#[verifier::ext_equal]
pub struct Database {
    pub tables: Tables,
    pub next_category_id: int,
    pub next_drug_id: int,
}

impl Tables {
    /// No rows at all.
    pub open spec fn empty() -> Tables {
        Tables { categories: Map::empty(), drugs: Seq::empty() }
    }

    /// The category table as a set of triples of code, name and level.
    pub open spec fn category_entries(self) -> Set<(Seq<char>, Seq<char>, int)> {
        Set::new(
            |e: (Seq<char>, Seq<char>, int)|
                self.categories.dom().contains(e.0) && self.categories[e.0].name == e.1
                    && self.categories[e.0].level == e.2,
        )
    }

    /// The drug table without the identifiers that the store made up: what each
    /// drug says, as a multiset.
    pub open spec fn drug_texts(self) -> Multiset<DrugText> {
        self.drugs.map_values(|d: DrugRow| d.drug.text).to_multiset()
    }
}

impl Database {
    /// Deletes every drug.
    pub open spec fn without_drugs(self) -> Database {
        Database { tables: Tables { drugs: Seq::empty(), ..self.tables }, ..self }
    }

    /// Deletes every category.
    pub open spec fn without_categories(self) -> Database {
        Database { tables: Tables { categories: Map::empty(), ..self.tables }, ..self }
    }

    /// Inserts the category under a fresh identifier or, if its code is
    /// already there, gives that row the new name and changes nothing else.
    /// Either way the row's identifier is reported.
    pub open spec fn upsert(self, upsert: CategoryUpsertView) -> (Database, int) {
        if self.tables.categories.dom().contains(upsert.code) {
            let row = self.tables.categories[upsert.code];
            let renamed = CategoryRow { name: upsert.name, ..row };
            (
                Database {
                    tables: Tables {
                        categories: self.tables.categories.insert(upsert.code, renamed),
                        ..self.tables
                    },
                    ..self
                },
                row.id,
            )
        } else {
            let row = CategoryRow {
                id: self.next_category_id,
                name: upsert.name,
                level: upsert.level,
                parent_id: upsert.parent_id,
            };
            (
                Database {
                    tables: Tables {
                        categories: self.tables.categories.insert(upsert.code, row),
                        ..self.tables
                    },
                    next_category_id: self.next_category_id + 1,
                    ..self
                },
                row.id,
            )
        }
    }

    /// Inserts the drug under a fresh identifier, after those already there.
    pub open spec fn insert_drug(self, drug: NewDrugView) -> Database {
        Database {
            tables: Tables {
                drugs: self.tables.drugs.push(DrugRow { id: self.next_drug_id, drug }),
                ..self.tables
            },
            next_drug_id: self.next_drug_id + 1,
            ..self
        }
    }
}

} // verus!
