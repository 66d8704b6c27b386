use nlem_formulary::text::{clean_string, dosage_forms};

fn text(s: &str) -> String {
    s.to_string()
}

#[test]
fn clean_string_trims_surrounding_whitespace() {
    assert_eq!(clean_string("  Paracetamol \t"), Some(text("Paracetamol")));
    assert_eq!(clean_string("\u{a0}Aspirin\u{3000}"), Some(text("Aspirin")));
}

#[test]
fn clean_string_collapses_embedded_newlines() {
    assert_eq!(clean_string("Paracetamol\n500 mg"), Some(text("Paracetamol 500 mg")));
    assert_eq!(clean_string("a\n\nb"), Some(text("a  b")));
}

#[test]
fn clean_string_drops_newlines_at_the_ends() {
    assert_eq!(clean_string("\n  Paracetamol\n500 mg \n"), Some(text("Paracetamol 500 mg")));
}

#[test]
fn clean_string_keeps_carriage_returns_inside() {
    assert_eq!(clean_string("a\r\nb"), Some(text("a\r b")));
}

#[test]
fn clean_string_leaves_clean_text_alone() {
    assert_eq!(clean_string("tablet"), Some(text("tablet")));
    assert_eq!(clean_string("a b"), Some(text("a b")));
}

#[test]
fn clean_string_of_blank_is_absent() {
    assert_eq!(clean_string(""), None);
    assert_eq!(clean_string(" "), None);
    assert_eq!(clean_string(" \t\r\n  "), None);
    assert_eq!(clean_string("\n"), None);
}

#[test]
fn clean_string_never_gives_an_empty_text() {
    for raw in ["", " ", "\n\n", "x", " x ", "\tx\ny\n"] {
        if let Some(cleaned) = clean_string(raw) {
            assert!(!cleaned.is_empty());
            assert!(!cleaned.contains('\n'));
            assert_eq!(cleaned.trim(), cleaned);
        }
    }
}

#[test]
fn dosage_forms_splits_on_commas_and_trims() {
    assert_eq!(dosage_forms("tablet, injection"), vec![text("tablet"), text("injection")]);
    assert_eq!(dosage_forms("capsule"), vec![text("capsule")]);
    assert_eq!(dosage_forms("a,b,c"), vec![text("a"), text("b"), text("c")]);
}

#[test]
fn dosage_forms_drops_empty_pieces() {
    assert_eq!(dosage_forms(" , tablet,, "), vec![text("tablet")]);
    assert_eq!(dosage_forms(",,,"), Vec::<String>::new());
    assert_eq!(dosage_forms(""), Vec::<String>::new());
    assert_eq!(dosage_forms("   "), Vec::<String>::new());
}

#[test]
fn dosage_forms_keeps_order_and_repeats() {
    assert_eq!(
        dosage_forms("syrup, tablet , syrup"),
        vec![text("syrup"), text("tablet"), text("syrup")]
    );
}

#[test]
fn dosage_forms_keeps_newlines_inside_a_form() {
    assert_eq!(dosage_forms("oral\nsolution, cream\n"), vec![text("oral\nsolution"), text("cream")]);
}
