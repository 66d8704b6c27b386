//! One row of the source file, as plain text fields.

use crate::hierarchy::Level;
use vstd::prelude::*;

verus! {

/// A row of the source file. The first eight fields carry, for each of the
/// four hierarchy levels, a code fragment and a category name; the others
/// describe a drug. Every field is raw text, exactly as it stood in the file.
#[derive(Debug, Default, PartialEq, Eq)]
pub struct CsvRecord {
    pub grcode1: String,
    pub name1: String,
    pub grcode2: String,
    pub name2: String,
    pub grcode3: String,
    pub name3: String,
    pub grcode4: String,
    pub name4: String,
    pub generic_name: String,
    pub syn_name: String,
    pub detail_of_generic_name: String,
    pub drug_type: String,
    pub dosage: String,
    pub ed_level: String,
    pub recommendations: String,
    pub conditions: String,
    pub warnings: String,
    pub notes: String,
    pub footnote: String,
    pub source_code: String,
}

/// The text of a row.
#[verifier::ext_equal]
pub struct CsvRecordView {
    pub grcode1: Seq<char>,
    pub name1: Seq<char>,
    pub grcode2: Seq<char>,
    pub name2: Seq<char>,
    pub grcode3: Seq<char>,
    pub name3: Seq<char>,
    pub grcode4: Seq<char>,
    pub name4: Seq<char>,
    pub generic_name: Seq<char>,
    pub syn_name: Seq<char>,
    pub detail_of_generic_name: Seq<char>,
    pub drug_type: Seq<char>,
    pub dosage: Seq<char>,
    pub ed_level: Seq<char>,
    pub recommendations: Seq<char>,
    pub conditions: Seq<char>,
    pub warnings: Seq<char>,
    pub notes: Seq<char>,
    pub footnote: Seq<char>,
    pub source_code: Seq<char>,
}

impl View for CsvRecord {
    type V = CsvRecordView;

    open spec fn view(&self) -> CsvRecordView {
        CsvRecordView {
            grcode1: self.grcode1@,
            name1: self.name1@,
            grcode2: self.grcode2@,
            name2: self.name2@,
            grcode3: self.grcode3@,
            name3: self.name3@,
            grcode4: self.grcode4@,
            name4: self.name4@,
            generic_name: self.generic_name@,
            syn_name: self.syn_name@,
            detail_of_generic_name: self.detail_of_generic_name@,
            drug_type: self.drug_type@,
            dosage: self.dosage@,
            ed_level: self.ed_level@,
            recommendations: self.recommendations@,
            conditions: self.conditions@,
            warnings: self.warnings@,
            notes: self.notes@,
            footnote: self.footnote@,
            source_code: self.source_code@,
        }
    }
}

impl CsvRecordView {
    /// The raw code fragment that the row gives for a level.
    pub open spec fn fragment(self, level: Level) -> Seq<char> {
        match level {
            Level::One => self.grcode1,
            Level::Two => self.grcode2,
            Level::Three => self.grcode3,
            Level::Four => self.grcode4,
        }
    }

    /// The raw category name that the row gives for a level.
    pub open spec fn name(self, level: Level) -> Seq<char> {
        match level {
            Level::One => self.name1,
            Level::Two => self.name2,
            Level::Three => self.name3,
            Level::Four => self.name4,
        }
    }
}

impl CsvRecord {
    /// The raw code fragment that the row gives for a level.
    pub fn fragment(&self, level: Level) -> (text: &str)
        ensures
            text@ == self@.fragment(level),
    {
        match level {
            Level::One => self.grcode1.as_str(),
            Level::Two => self.grcode2.as_str(),
            Level::Three => self.grcode3.as_str(),
            Level::Four => self.grcode4.as_str(),
        }
    }

    /// The raw category name that the row gives for a level.
    pub fn name(&self, level: Level) -> (text: &str)
        ensures
            text@ == self@.name(level),
    {
        match level {
            Level::One => self.name1.as_str(),
            Level::Two => self.name2.as_str(),
            Level::Three => self.name3.as_str(),
            Level::Four => self.name4.as_str(),
        }
    }
}

} // verus!
