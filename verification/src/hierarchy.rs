//! The four hierarchy levels and the running pointers to the category most
//! recently seen at each of them.

use vstd::prelude::*;

verus! {

/// A depth in the category hierarchy.
#[derive(Clone, Copy, Debug, PartialEq, Eq, Structural)]
pub enum Level {
    One,
    Two,
    Three,
    Four,
}

impl Level {
    /// The level as stored with a category: one for a root, four for the deepest.
    pub open spec fn number_of(&self) -> i32 {
        match self {
            Level::One => 1,
            Level::Two => 2,
            Level::Three => 3,
            Level::Four => 4,
        }
    }

    /// The level immediately above, if there is one.
    pub open spec fn parent_of(&self) -> Option<Level> {
        match self {
            Level::One => None,
            Level::Two => Some(Level::One),
            Level::Three => Some(Level::Two),
            Level::Four => Some(Level::Three),
        }
    }

    /// The level immediately below, if there is one.
    pub open spec fn child_of(&self) -> Option<Level> {
        match self {
            Level::One => Some(Level::Two),
            Level::Two => Some(Level::Three),
            Level::Three => Some(Level::Four),
            Level::Four => None,
        }
    }

    #[verifier::when_used_as_spec(number_of)]
    pub fn number(&self) -> (n: i32)
        ensures
            n == self.number_of(),
            1 <= n <= 4,
    {
        match self {
            Level::One => 1,
            Level::Two => 2,
            Level::Three => 3,
            Level::Four => 4,
        }
    }

    #[verifier::when_used_as_spec(parent_of)]
    pub fn parent(&self) -> (up: Option<Level>)
        ensures
            up == self.parent_of(),
    {
        match self {
            Level::One => None,
            Level::Two => Some(Level::One),
            Level::Three => Some(Level::Two),
            Level::Four => Some(Level::Three),
        }
    }

    #[verifier::when_used_as_spec(child_of)]
    pub fn child(&self) -> (down: Option<Level>)
        ensures
            down == self.child_of(),
    {
        match self {
            Level::One => Some(Level::Two),
            Level::Two => Some(Level::Three),
            Level::Three => Some(Level::Four),
            Level::Four => None,
        }
    }
}

/// An identifier as the contracts speak of it: unbounded.
pub open spec fn id_of(id: Option<i32>) -> Option<int> {
    match id {
        Some(n) => Some(n as int),
        None => None,
    }
}

/// The identifiers held for the four levels, as mathematical integers.
pub struct SlotsView {
    pub level1: Option<int>,
    pub level2: Option<int>,
    pub level3: Option<int>,
    pub level4: Option<int>,
}

impl SlotsView {
    /// No category seen yet at any level.
    pub open spec fn empty() -> SlotsView {
        SlotsView { level1: None, level2: None, level3: None, level4: None }
    }

    /// The identifier held for a level.
    pub open spec fn get(self, level: Level) -> Option<int> {
        match level {
            Level::One => self.level1,
            Level::Two => self.level2,
            Level::Three => self.level3,
            Level::Four => self.level4,
        }
    }

    /// The slots after a category with identifier `id` was seen at `level`:
    /// that level's slot changes, every other one stays.
    pub open spec fn with(self, level: Level, id: int) -> SlotsView {
        match level {
            Level::One => SlotsView { level1: Some(id), ..self },
            Level::Two => SlotsView { level2: Some(id), ..self },
            Level::Three => SlotsView { level3: Some(id), ..self },
            Level::Four => SlotsView { level4: Some(id), ..self },
        }
    }

    /// The identifier a new category at `level` gets as its parent: the slot
    /// immediately above, and none for a root.
    pub open spec fn parent_for(self, level: Level) -> Option<int> {
        match level.parent_of() {
            Some(up) => self.get(up),
            None => None,
        }
    }

    /// The deepest slot that holds an identifier: level four if set, else
    /// three, else two, else one, else none.
    pub open spec fn deepest(self) -> Option<int> {
        if self.level4 is Some {
            self.level4
        } else if self.level3 is Some {
            self.level3
        } else if self.level2 is Some {
            self.level2
        } else {
            self.level1
        }
    }
}

/// The running category context of a load: for each level, the identifier of
/// the category most recently seen there.
#[derive(Clone, Copy, Debug, PartialEq, Eq)]
pub struct CategorySlots {
    level1: Option<i32>,
    level2: Option<i32>,
    level3: Option<i32>,
    level4: Option<i32>,
}

impl View for CategorySlots {
    type V = SlotsView;

    closed spec fn view(&self) -> SlotsView {
        SlotsView {
            level1: id_of(self.level1),
            level2: id_of(self.level2),
            level3: id_of(self.level3),
            level4: id_of(self.level4),
        }
    }
}

impl CategorySlots {
    /// The context before any row: every slot empty.
    pub fn new() -> (slots: CategorySlots)
        ensures
            slots@ == SlotsView::empty(),
    {
        CategorySlots { level1: None, level2: None, level3: None, level4: None }
    }

    /// The identifier held for a level.
    pub fn get(&self, level: Level) -> (id: Option<i32>)
        ensures
            id_of(id) == self@.get(level),
    {
        match level {
            Level::One => self.level1,
            Level::Two => self.level2,
            Level::Three => self.level3,
            Level::Four => self.level4,
        }
    }

    /// Records that the category with identifier `id` is now the current one
    /// at `level`. Deeper slots are left as they are.
    pub fn set(&mut self, level: Level, id: i32)
        ensures
            final(self)@ == old(self)@.with(level, id as int),
    {
        match level {
            Level::One => {
                self.level1 = Some(id);
            },
            Level::Two => {
                self.level2 = Some(id);
            },
            Level::Three => {
                self.level3 = Some(id);
            },
            Level::Four => {
                self.level4 = Some(id);
            },
        }
    }

    /// The identifier a new category at `level` gets as its parent.
    pub fn parent_for(&self, level: Level) -> (id: Option<i32>)
        ensures
            id_of(id) == self@.parent_for(level),
    {
        match level.parent() {
            Some(up) => self.get(up),
            None => None,
        }
    }

    /// The most specific category in the context.
    pub fn deepest(&self) -> (id: Option<i32>)
        ensures
            id_of(id) == self@.deepest(),
    {
        if self.level4.is_some() {
            self.level4
        } else if self.level3.is_some() {
            self.level3
        } else if self.level2.is_some() {
            self.level2
        } else {
            self.level1
        }
    }
}

} // verus!
