//! What one row of the source file asks of the store: up to four category
//! upserts, shallowest first, and then at most one drug.

use crate::hierarchy::{id_of, CategorySlots, Level, SlotsView};
use crate::record::{CsvRecord, CsvRecordView};
use crate::text::{clean, clean_string, dosage_forms, dosage_forms_of, trim, trimmed};
use vstd::prelude::*;

verus! {

/// A category to insert, or to rename if its code is already there.
#[derive(Debug, PartialEq, Eq)]
pub struct CategoryUpsert {
    pub code: String,
    pub name: String,
    pub level: i32,
    pub parent_id: Option<i32>,
}

/// The content of a [`CategoryUpsert`].
#[verifier::ext_equal]
pub struct CategoryUpsertView {
    pub code: Seq<char>,
    pub name: Seq<char>,
    pub level: int,
    pub parent_id: Option<int>,
}

impl View for CategoryUpsert {
    type V = CategoryUpsertView;

    open spec fn view(&self) -> CategoryUpsertView {
        CategoryUpsertView {
            code: self.code@,
            name: self.name@,
            level: self.level as int,
            parent_id: id_of(self.parent_id),
        }
    }
}

/// A drug to insert. It has no identifier yet: the store gives it one.
#[derive(Debug, PartialEq, Eq)]
pub struct NewDrug {
    pub category_id: Option<i32>,
    pub generic_name: String,
    pub syn_name: Option<String>,
    pub detail: Option<String>,
    pub drug_type: Option<String>,
    pub dosage_forms: Vec<String>,
    pub ed_level: Option<String>,
    pub recommendations: Option<String>,
    pub conditions: Option<String>,
    pub warnings: Option<String>,
    pub notes: Option<String>,
    pub footnote: Option<String>,
    pub source_code: Option<String>,
}

/// What a drug says, apart from where it hangs in the hierarchy.
#[verifier::ext_equal]
pub struct DrugText {
    pub generic_name: Seq<char>,
    pub syn_name: Option<Seq<char>>,
    pub detail: Option<Seq<char>>,
    pub drug_type: Option<Seq<char>>,
    pub dosage_forms: Seq<Seq<char>>,
    pub ed_level: Option<Seq<char>>,
    pub recommendations: Option<Seq<char>>,
    pub conditions: Option<Seq<char>>,
    pub warnings: Option<Seq<char>>,
    pub notes: Option<Seq<char>>,
    pub footnote: Option<Seq<char>>,
    pub source_code: Option<Seq<char>>,
}

/// The content of a [`NewDrug`].
#[verifier::ext_equal]
pub struct NewDrugView {
    pub category_id: Option<int>,
    pub text: DrugText,
}

impl View for NewDrug {
    type V = NewDrugView;

    open spec fn view(&self) -> NewDrugView {
        NewDrugView {
            category_id: id_of(self.category_id),
            text: DrugText {
                generic_name: self.generic_name@,
                syn_name: self.syn_name.deep_view(),
                detail: self.detail.deep_view(),
                drug_type: self.drug_type.deep_view(),
                dosage_forms: self.dosage_forms.deep_view(),
                ed_level: self.ed_level.deep_view(),
                recommendations: self.recommendations.deep_view(),
                conditions: self.conditions.deep_view(),
                warnings: self.warnings.deep_view(),
                notes: self.notes.deep_view(),
                footnote: self.footnote.deep_view(),
                source_code: self.source_code.deep_view(),
            },
        }
    }
}

/// The code of the category that a row names at `level`: the row's trimmed
/// code fragments from level one down to `level`, joined by dots.
pub open spec fn code_of(row: CsvRecordView, level: Level) -> Seq<char>
    decreases level.number_of(),
{
    match level.parent_of() {
        None => trimmed(row.fragment(level)),
        Some(up) => code_of(row, up) + seq!['.'] + trimmed(row.fragment(level)),
    }
}

/// The upsert that a row asks for at `level`, given the context in which the
/// level is reached: none if the row's name for the level is blank.
pub open spec fn upsert_of(row: CsvRecordView, slots: SlotsView, level: Level) -> Option<
    CategoryUpsertView,
> {
    match clean(row.name(level)) {
        None => None,
        Some(name) => Some(
            CategoryUpsertView {
                code: code_of(row, level),
                name,
                level: level.number_of() as int,
                parent_id: slots.parent_for(level),
            },
        ),
    }
}

/// What a row says of a drug, if it describes one: it does when its generic
/// name is not blank. Optional fields that are blank are absent.
pub open spec fn drug_text_of(row: CsvRecordView) -> Option<DrugText> {
    match clean(row.generic_name) {
        None => None,
        Some(generic_name) => Some(
            DrugText {
                generic_name,
                syn_name: clean(row.syn_name),
                detail: clean(row.detail_of_generic_name),
                drug_type: clean(row.drug_type),
                dosage_forms: dosage_forms_of(row.dosage),
                ed_level: clean(row.ed_level),
                recommendations: clean(row.recommendations),
                conditions: clean(row.conditions),
                warnings: clean(row.warnings),
                notes: clean(row.notes),
                footnote: clean(row.footnote),
                source_code: clean(row.source_code),
            },
        ),
    }
}

/// The drug that a row asks to insert, given the context left by the row's
/// categories: it hangs under the deepest category of the context.
pub open spec fn drug_of(row: CsvRecordView, slots: SlotsView) -> Option<NewDrugView> {
    match drug_text_of(row) {
        None => None,
        Some(text) => Some(NewDrugView { category_id: slots.deepest(), text }),
    }
}

/// Builds the code of the category that `record` names at `level`.
pub fn category_code(record: &CsvRecord, level: Level) -> (code: String)
    ensures
        code@ == code_of(record@, level),
    decreases level.number_of(),
{
    let fragment = trim(record.fragment(level));
    match level.parent() {
        None => fragment.to_owned(),
        Some(up) => {
            let mut code = category_code(record, up);
            proof {
                reveal_strlit(".");
                assert("."@ =~= seq!['.']);
            }
            code.append(".");
            code.append(fragment);
            code
        },
    }
}

/// Decides what `record` asks of the category table at `level`: nothing when
/// its name for that level is blank, otherwise an upsert keyed on the dotted
/// code, with the cleaned name and, as parent, the category currently held for
/// the level above.
pub fn category_upsert(record: &CsvRecord, slots: &CategorySlots, level: Level) -> (upsert: Option<
    CategoryUpsert,
>)
    ensures
        upsert.is_some() == upsert_of(record@, slots@, level).is_some(),
        upsert matches Some(u) ==> u@ == upsert_of(record@, slots@, level).unwrap(),
{
    match clean_string(record.name(level)) {
        None => None,
        Some(name) => Some(
            CategoryUpsert {
                code: category_code(record, level),
                name,
                level: level.number(),
                parent_id: slots.parent_for(level),
            },
        ),
    }
}

/// Decides whether `record` describes a drug and, if so, builds the row to
/// insert: attached to the deepest category of the context, with every text
/// field cleaned and the dosage field split into its forms.
pub fn new_drug(record: &CsvRecord, slots: &CategorySlots) -> (drug: Option<NewDrug>)
    ensures
        drug.is_some() == drug_of(record@, slots@).is_some(),
        drug matches Some(d) ==> d@ == drug_of(record@, slots@).unwrap(),
{
    match clean_string(record.generic_name.as_str()) {
        None => None,
        Some(generic_name) => Some(
            NewDrug {
                category_id: slots.deepest(),
                generic_name,
                syn_name: clean_string(record.syn_name.as_str()),
                detail: clean_string(record.detail_of_generic_name.as_str()),
                drug_type: clean_string(record.drug_type.as_str()),
                dosage_forms: dosage_forms(record.dosage.as_str()),
                ed_level: clean_string(record.ed_level.as_str()),
                recommendations: clean_string(record.recommendations.as_str()),
                conditions: clean_string(record.conditions.as_str()),
                warnings: clean_string(record.warnings.as_str()),
                notes: clean_string(record.notes.as_str()),
                footnote: clean_string(record.footnote.as_str()),
                source_code: clean_string(record.source_code.as_str()),
            },
        ),
    }
}

} // verus!
