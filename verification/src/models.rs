//! Row shapes of the two tables, as the service reads them.

use vstd::prelude::*;

verus! {

/// The deepest level of the category hierarchy.
pub const MAX_LEVEL: i32 = 4;

/// A node of the category forest.
#[derive(Debug, PartialEq, Eq)]
pub struct DrugCategory {
    pub id: i32,
    pub code: String,
    pub name: String,
    pub level: i32,
    pub parent_id: Option<i32>,
}

impl DrugCategory {
    /// What holds of every category row taken by itself: its level lies between
    /// one and four, and a root has no parent.
    pub open spec fn well_formed(&self) -> bool {
        &&& 1 <= self.level <= MAX_LEVEL
        &&& self.level == 1 ==> self.parent_id is None
    }

    /// What holds of a category row next to the row its `parent_id` names: the
    /// parent sits exactly one level above.
    pub open spec fn is_child_of(&self, parent: &DrugCategory) -> bool {
        &&& self.parent_id == Some(parent.id)
        &&& self.level == parent.level + 1
    }
}

/// A drug record as served to clients.
#[derive(Debug, PartialEq, Eq)]
pub struct Drug {
    pub id: i32,
    pub category_id: Option<i32>,
    pub generic_name: String,
    pub syn_name: Option<String>,
    pub detail: Option<String>,
    pub drug_type: Option<String>,
    pub dosage_forms: Vec<String>,
    pub ed_level: Option<String>,
    pub recommendations: Option<String>,
    pub conditions: Option<String>,
    pub warnings: Option<String>,
    pub notes: Option<String>,
    pub footnote: Option<String>,
    pub source_code: Option<String>,
}

impl Drug {
    /// A drug always carries a generic name.
    pub open spec fn well_formed(&self) -> bool {
        self.generic_name@.len() > 0
    }
}

} // verus!
