use nlem_formulary::record::CsvRecord;
use nlem_formulary::row::{CategoryUpsert, NewDrug};
use nlem_formulary::seeder::{seed_data, SeedAction, SeedEvent, SeedOutcome, Seeder};

#[derive(Clone, Debug, PartialEq)]
struct Category {
    id: i32,
    code: String,
    name: String,
    level: i32,
    parent_id: Option<i32>,
}

#[derive(Clone, Debug, PartialEq)]
struct StoredDrug {
    id: i32,
    category_id: Option<i32>,
    generic_name: String,
    dosage_forms: Vec<String>,
    syn_name: Option<String>,
}

#[derive(Clone, Debug, PartialEq, Default)]
struct Tables {
    categories: Vec<Category>,
    drugs: Vec<StoredDrug>,
}

/// A store in memory that does what the loader expects of the real one:
/// writes go to an open transaction, identifiers are never handed out twice.
#[derive(Default)]
struct Store {
    committed: Tables,
    working: Option<Tables>,
    next_category_id: i32,
    next_drug_id: i32,
}

impl Store {
    fn upsert(&mut self, upsert: CategoryUpsert) -> i32 {
        let tables = self.working.as_mut().unwrap();
        if let Some(found) = tables.categories.iter_mut().find(|c| c.code == upsert.code) {
            found.name = upsert.name;
            return found.id;
        }
        self.next_category_id += 1;
        tables.categories.push(Category {
            id: self.next_category_id,
            code: upsert.code,
            name: upsert.name,
            level: upsert.level,
            parent_id: upsert.parent_id,
        });
        self.next_category_id
    }

    fn insert(&mut self, drug: NewDrug) {
        self.next_drug_id += 1;
        self.working.as_mut().unwrap().drugs.push(StoredDrug {
            id: self.next_drug_id,
            category_id: drug.category_id,
            generic_name: drug.generic_name,
            dosage_forms: drug.dosage_forms,
            syn_name: drug.syn_name,
        });
    }
}

/// Runs a load to its end. The request numbered `fail_at`, counted from zero,
/// fails. Returns the outcome and the kinds of the requests made.
fn load(store: &mut Store, rows: Vec<CsvRecord>, fail_at: Option<usize>) -> (SeedOutcome, Vec<&'static str>) {
    let mut rows = rows.into_iter();
    let mut asked = Vec::new();
    let (mut seeder, mut action) = seed_data(Seeder::new(), SeedEvent::Launch);
    loop {
        let failing = fail_at == Some(asked.len());
        let (kind, event) = match action {
            SeedAction::Finish(outcome) => {
                assert_eq!(seeder.outcome(), Some(outcome));
                store.working = None;
                return (outcome, asked);
            }
            _ if failing => ("failed", SeedEvent::Failed),
            SeedAction::Begin => {
                store.working = Some(store.committed.clone());
                ("begin", SeedEvent::Done)
            }
            SeedAction::DeleteDrugs => {
                store.working.as_mut().unwrap().drugs.clear();
                ("delete drugs", SeedEvent::Done)
            }
            SeedAction::DeleteCategories => {
                store.working.as_mut().unwrap().categories.clear();
                ("delete categories", SeedEvent::Done)
            }
            SeedAction::OpenRows => ("open", SeedEvent::Done),
            SeedAction::NextRow => match rows.next() {
                Some(row) => ("row", SeedEvent::Row(row)),
                None => ("row", SeedEvent::EndOfRows),
            },
            SeedAction::UpsertCategory(upsert) => ("upsert", SeedEvent::CategoryId(store.upsert(upsert))),
            SeedAction::InsertDrug(drug) => {
                store.insert(drug);
                ("insert", SeedEvent::Done)
            }
            SeedAction::Commit => {
                store.committed = store.working.take().unwrap();
                ("commit", SeedEvent::Done)
            }
        };
        asked.push(kind);
        assert_eq!(seeder.outcome(), None);
        let next = seed_data(seeder, event);
        seeder = next.0;
        action = next.1;
    }
}

fn row(fields: [&str; 8], generic_name: &str, dosage: &str) -> CsvRecord {
    CsvRecord {
        grcode1: fields[0].to_string(),
        name1: fields[1].to_string(),
        grcode2: fields[2].to_string(),
        name2: fields[3].to_string(),
        grcode3: fields[4].to_string(),
        name3: fields[5].to_string(),
        grcode4: fields[6].to_string(),
        name4: fields[7].to_string(),
        generic_name: generic_name.to_string(),
        dosage: dosage.to_string(),
        syn_name: "...".to_string(),
        ..CsvRecord::default()
    }
}

fn sample() -> Vec<CsvRecord> {
    vec![
        row(["1", "Gastro", "", "", "", "", "", ""], "", ""),
        row(["1", "", "1", "Antacids", "", "", "", ""], "Aluminium hydroxide", "tablet, suspension"),
        row(["", "", "", "", "", "", "", ""], "Magnesium hydroxide", "suspension"),
        row(["1", "", "2", "Antispasmodics", "1", "Oral", "", ""], "Hyoscine", "tablet"),
        row(["1", "", "2", "", "1", "", "1", "Adults"], "Mebeverine", "tablet"),
        row(["2", "Cardio", "", "", "", "", "", ""], "Digoxin", "tablet, injection"),
        row(["", "", "", "", "", "", "", ""], "", ""),
    ]
}

fn content(tables: &Tables) -> (Vec<(String, String, i32)>, Vec<(String, Vec<String>)>) {
    let mut categories: Vec<_> =
        tables.categories.iter().map(|c| (c.code.clone(), c.name.clone(), c.level)).collect();
    categories.sort();
    let mut drugs: Vec<_> =
        tables.drugs.iter().map(|d| (d.generic_name.clone(), d.dosage_forms.clone())).collect();
    drugs.sort();
    (categories, drugs)
}

#[test]
fn two_rows_share_the_level_one_category() {
    let mut store = Store::default();
    let rows = vec![
        row(["1", "A", "", "", "", "", "", ""], "DrugX", "tablet, injection"),
        row(["", "", "", "", "", "", "", ""], "DrugY", "capsule"),
    ];
    let (outcome, _) = load(&mut store, rows, None);
    assert_eq!(outcome, SeedOutcome::Completed);
    let tables = &store.committed;
    assert_eq!(
        tables.categories,
        vec![Category { id: 1, code: "1".into(), name: "A".into(), level: 1, parent_id: None }]
    );
    assert_eq!(tables.drugs.len(), 2);
    assert_eq!(tables.drugs[0].generic_name, "DrugX");
    assert_eq!(tables.drugs[0].category_id, Some(1));
    assert_eq!(tables.drugs[0].dosage_forms, vec!["tablet".to_string(), "injection".to_string()]);
    assert_eq!(tables.drugs[0].syn_name, Some("...".to_string()));
    assert_eq!(tables.drugs[1].generic_name, "DrugY");
    assert_eq!(tables.drugs[1].category_id, Some(1));
    assert_eq!(tables.drugs[1].dosage_forms, vec!["capsule".to_string()]);
}

#[test]
fn a_load_asks_in_order() {
    let mut store = Store::default();
    let rows = vec![
        row(["1", "A", "2", "B", "", "", "", ""], "DrugX", "tablet"),
        row(["", "", "", "", "", "", "", ""], "", ""),
        row(["1", "", "2", "", "3", "C", "", ""], "", ""),
    ];
    let (outcome, asked) = load(&mut store, rows, None);
    assert_eq!(outcome, SeedOutcome::Completed);
    assert_eq!(
        asked,
        vec![
            "begin", "delete drugs", "delete categories", "open", "row", "upsert", "upsert",
            "insert", "row", "row", "upsert", "row", "commit",
        ]
    );
}

#[test]
fn an_empty_file_clears_the_store() {
    let mut store = Store::default();
    load(&mut store, sample(), None);
    assert!(!store.committed.categories.is_empty());
    let (outcome, asked) = load(&mut store, Vec::new(), None);
    assert_eq!(outcome, SeedOutcome::Completed);
    assert_eq!(asked, vec!["begin", "delete drugs", "delete categories", "open", "row", "commit"]);
    assert_eq!(store.committed, Tables::default());
}

#[test]
fn a_blank_row_contributes_nothing() {
    let mut with_blank = Store::default();
    let mut without = Store::default();
    let blank = row([" ", "\n", "", " \t", "", "", "", ""], "  ", "tablet");
    let rows = sample();
    let mut padded = vec![blank];
    for (i, r) in sample().into_iter().enumerate() {
        padded.push(r);
        if i % 2 == 0 {
            padded.push(row(["9", "", "9", "", "9", "", "9", ""], "\n", "x"));
        }
    }
    assert_eq!(load(&mut with_blank, padded, None).0, SeedOutcome::Completed);
    assert_eq!(load(&mut without, rows, None).0, SeedOutcome::Completed);
    assert_eq!(with_blank.committed, without.committed);
}

#[test]
fn a_category_row_without_a_drug_inserts_no_drug() {
    let mut store = Store::default();
    let rows = vec![row(["1", "A", "1", "B", "", "", "", ""], "", "tablet")];
    let (outcome, asked) = load(&mut store, rows, None);
    assert_eq!(outcome, SeedOutcome::Completed);
    assert!(!asked.contains(&"insert"));
    assert_eq!(store.committed.categories.len(), 2);
    assert!(store.committed.drugs.is_empty());
}

#[test]
fn a_drug_under_level_two_only_gets_the_level_two_category() {
    let mut store = Store::default();
    let rows = vec![
        row(["1", "A", "", "", "", "", "", ""], "", ""),
        row(["1", "", "5", "B", "", "", "", ""], "DrugZ", ""),
    ];
    load(&mut store, rows, None);
    let level_two = store.committed.categories.iter().find(|c| c.level == 2).unwrap();
    assert_eq!(level_two.code, "1.5");
    assert_eq!(store.committed.drugs[0].category_id, Some(level_two.id));
}

#[test]
fn a_drug_before_any_category_has_none() {
    let mut store = Store::default();
    load(&mut store, vec![row(["", "", "", "", "", "", "", ""], "Orphan", "")], None);
    assert_eq!(store.committed.drugs[0].category_id, None);
}

#[test]
fn a_repeated_code_is_renamed_and_keeps_its_identifier() {
    let mut store = Store::default();
    let rows = vec![
        row(["1", "Old name", "", "", "", "", "", ""], "First", ""),
        row(["2", "Other", "", "", "", "", "", ""], "", ""),
        row([" 1 ", "New name", "", "", "", "", "", ""], "Second", ""),
    ];
    load(&mut store, rows, None);
    let tables = &store.committed;
    assert_eq!(tables.categories.len(), 2);
    assert_eq!(tables.categories[0].code, "1");
    assert_eq!(tables.categories[0].name, "New name");
    assert_eq!(tables.drugs[0].category_id, Some(tables.categories[0].id));
    assert_eq!(tables.drugs[1].category_id, Some(tables.categories[0].id));
}

#[test]
fn repeated_generic_names_are_inserted_each_time() {
    let mut store = Store::default();
    let rows = vec![
        row(["1", "A", "", "", "", "", "", ""], "Same", "tablet"),
        row(["", "", "", "", "", "", "", ""], "Same", "tablet"),
    ];
    load(&mut store, rows, None);
    assert_eq!(store.committed.drugs.len(), 2);
    assert_ne!(store.committed.drugs[0].id, store.committed.drugs[1].id);
}

#[test]
fn every_category_hangs_under_the_prefix_of_its_code() {
    let mut store = Store::default();
    assert_eq!(load(&mut store, sample(), None).0, SeedOutcome::Completed);
    let categories = &store.committed.categories;
    assert_eq!(categories.len(), 6);
    for category in categories {
        assert!(1 <= category.level && category.level <= 4);
        if category.level == 1 {
            assert_eq!(category.parent_id, None);
        } else {
            let parent =
                categories.iter().find(|p| Some(p.id) == category.parent_id).expect("a parent");
            assert_eq!(parent.level, category.level - 1);
            assert!(category.code.starts_with(&format!("{}.", parent.code)));
            assert!(category.code.len() > parent.code.len() + 1);
        }
    }
    let adults = categories.iter().find(|c| c.name == "Adults").unwrap();
    assert_eq!((adults.code.as_str(), adults.level), ("1.2.1.1", 4));
}

#[test]
fn deeper_slots_survive_a_change_above() {
    let mut store = Store::default();
    let rows = vec![
        row(["1", "A", "1", "B", "1", "C", "", ""], "", ""),
        row(["2", "D", "", "", "", "", "", ""], "Stale", ""),
        row(["2", "", "", "", "7", "E", "", ""], "", ""),
    ];
    load(&mut store, rows, None);
    let categories = &store.committed.categories;
    let c = categories.iter().find(|c| c.name == "C").unwrap();
    let b = categories.iter().find(|c| c.name == "B").unwrap();
    let e = categories.iter().find(|c| c.name == "E").unwrap();
    assert_eq!(store.committed.drugs[0].category_id, Some(c.id));
    assert_eq!(e.code, "2..7");
    assert_eq!(e.parent_id, Some(b.id));
}

#[test]
fn loading_twice_gives_the_same_content() {
    let mut store = Store::default();
    assert_eq!(load(&mut store, sample(), None).0, SeedOutcome::Completed);
    let first = store.committed.clone();
    assert_eq!(load(&mut store, sample(), None).0, SeedOutcome::Completed);
    let second = store.committed.clone();
    assert_eq!(content(&first), content(&second));
    assert_eq!(first.categories.len(), second.categories.len());
    assert_eq!(first.drugs.len(), 5);
    assert_ne!(first.categories[0].id, second.categories[0].id);
}

#[test]
fn a_failure_at_any_request_commits_nothing() {
    let mut reference = Store::default();
    let (_, asked) = load(&mut reference, sample(), None);
    for k in 0..asked.len() {
        let mut store = Store::default();
        load(&mut store, vec![row(["8", "Before", "", "", "", "", "", ""], "Kept", "tablet")], None);
        let before = store.committed.clone();
        let (outcome, seen) = load(&mut store, sample(), Some(k));
        assert_eq!(outcome, SeedOutcome::Aborted);
        assert_eq!(seen.len(), k + 1);
        assert_eq!(seen[k], "failed");
        assert_eq!(store.committed, before);
    }
}

#[test]
fn a_report_that_answers_nothing_aborts() {
    let (seeder, action) = seed_data(Seeder::new(), SeedEvent::Done);
    assert_eq!(action, SeedAction::Finish(SeedOutcome::Aborted));
    assert_eq!(seeder.outcome(), Some(SeedOutcome::Aborted));

    let (seeder, action) = seed_data(Seeder::new(), SeedEvent::Launch);
    assert_eq!(action, SeedAction::Begin);
    let (seeder, action) = seed_data(seeder, SeedEvent::CategoryId(3));
    assert_eq!(action, SeedAction::Finish(SeedOutcome::Aborted));
    assert_eq!(seeder.outcome(), Some(SeedOutcome::Aborted));
}

#[test]
fn a_finished_load_stays_finished() {
    let (seeder, _) = seed_data(Seeder::new(), SeedEvent::Failed);
    let (seeder, action) = seed_data(seeder, SeedEvent::Launch);
    assert_eq!(action, SeedAction::Finish(SeedOutcome::Aborted));
    let (seeder, action) = seed_data(seeder, SeedEvent::Done);
    assert_eq!(action, SeedAction::Finish(SeedOutcome::Aborted));
    assert_eq!(seeder.outcome(), Some(SeedOutcome::Aborted));

    let mut store = Store::default();
    let mut rows: Vec<CsvRecord> = Vec::new();
    rows.push(row(["1", "A", "", "", "", "", "", ""], "DrugX", ""));
    assert_eq!(load(&mut store, rows, None).0, SeedOutcome::Completed);
}

#[test]
fn the_context_follows_the_reported_identifiers() {
    let mut seeder = Seeder::new();
    for event in [SeedEvent::Launch, SeedEvent::Done, SeedEvent::Done, SeedEvent::Done, SeedEvent::Done] {
        seeder = seed_data(seeder, event).0;
    }
    let (seeder, action) =
        seed_data(seeder, SeedEvent::Row(row(["1", "A", "2", "B", "", "", "", ""], "DrugX", "")));
    assert_eq!(
        action,
        SeedAction::UpsertCategory(CategoryUpsert {
            code: "1".into(),
            name: "A".into(),
            level: 1,
            parent_id: None,
        })
    );
    let (seeder, action) = seed_data(seeder, SeedEvent::CategoryId(41));
    assert_eq!(
        action,
        SeedAction::UpsertCategory(CategoryUpsert {
            code: "1.2".into(),
            name: "B".into(),
            level: 2,
            parent_id: Some(41),
        })
    );
    let (seeder, action) = seed_data(seeder, SeedEvent::CategoryId(-7));
    match action {
        SeedAction::InsertDrug(drug) => {
            assert_eq!(drug.category_id, Some(-7));
            assert_eq!(drug.generic_name, "DrugX");
        }
        other => panic!("unexpected request: {:?}", other),
    }
    assert_eq!(seeder.slots().deepest(), Some(-7));
    let (seeder, action) = seed_data(seeder, SeedEvent::Done);
    assert_eq!(action, SeedAction::NextRow);
    let (seeder, action) = seed_data(seeder, SeedEvent::EndOfRows);
    assert_eq!(action, SeedAction::Commit);
    let (seeder, action) = seed_data(seeder, SeedEvent::Done);
    assert_eq!(action, SeedAction::Finish(SeedOutcome::Completed));
    assert_eq!(seeder.outcome(), Some(SeedOutcome::Completed));
}
