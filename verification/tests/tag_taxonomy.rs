use ledger_core::labels::{contains_label, same_text};
use ledger_core::tags::{Subcategories, Tags};

fn leaves(labels: &[&str]) -> Vec<String> {
    labels.iter().map(|l| l.to_string()).collect()
}

fn sample_tags() -> Tags {
    let mut food = Subcategories::new();
    food.insert("Groceries".to_string(), leaves(&["Supermarket", "Market"]));
    food.insert("Eating Out".to_string(), leaves(&["Restaurant"]));
    let mut home = Subcategories::new();
    home.insert("Bills".to_string(), leaves(&["Power", "Water"]));
    home.insert("Empty".to_string(), leaves(&[]));
    let mut tags = Tags::new();
    tags.insert("Food".to_string(), food);
    tags.insert("Home".to_string(), home);
    tags
}

#[test]
fn verify_tags_accepts_a_chain_of_the_taxonomy() {
    let tags = sample_tags();
    assert!(tags.verify_tags("Food", "Groceries", "Supermarket"));
    assert!(tags.verify_tags("Food", "Groceries", "Market"));
    assert!(tags.verify_tags("Home", "Bills", "Water"));
}

#[test]
fn verify_tags_rejects_an_unknown_leaf() {
    let tags = sample_tags();
    assert!(!tags.verify_tags("Food", "Groceries", "Nonexistent"));
    assert!(!tags.verify_tags("Home", "Empty", ""));
}

#[test]
fn verify_tags_rejects_an_unknown_category() {
    let tags = sample_tags();
    assert!(!tags.verify_tags("Unknown", "x", "y"));
    assert!(!tags.verify_tags("Unknown", "Groceries", "Supermarket"));
}

#[test]
fn verify_tags_rejects_an_unknown_subcategory() {
    let tags = sample_tags();
    assert!(!tags.verify_tags("Food", "Bills", "Power"));
    assert!(!tags.verify_tags("Home", "Groceries", "Supermarket"));
}

#[test]
fn verify_tags_matches_exactly() {
    let tags = sample_tags();
    assert!(!tags.verify_tags("food", "Groceries", "Supermarket"));
    assert!(!tags.verify_tags("Food", "groceries", "Supermarket"));
    assert!(!tags.verify_tags("Food", "Groceries", "supermarket"));
    assert!(!tags.verify_tags("Food ", "Groceries", "Supermarket"));
    assert!(!tags.verify_tags("Food", "Groceries", " Supermarket"));
}

#[test]
fn verify_tags_on_the_empty_taxonomy_is_false() {
    let tags = Tags::new();
    assert!(!tags.verify_tags("Food", "Groceries", "Supermarket"));
    assert!(!tags.verify_tags("", "", ""));
}

#[test]
fn inserting_a_category_again_replaces_it() {
    let mut tags = sample_tags();
    let mut food = Subcategories::new();
    food.insert("Groceries".to_string(), leaves(&["Corner Shop"]));
    tags.insert("Food".to_string(), food);
    assert!(tags.verify_tags("Food", "Groceries", "Corner Shop"));
    assert!(!tags.verify_tags("Food", "Groceries", "Supermarket"));
    assert!(!tags.verify_tags("Food", "Eating Out", "Restaurant"));
}

#[test]
fn contains_label_finds_only_listed_labels() {
    let listed = leaves(&["a", "b"]);
    assert!(contains_label(&listed, "a"));
    assert!(contains_label(&listed, "b"));
    assert!(!contains_label(&listed, "c"));
    assert!(!contains_label(&leaves(&[]), "a"));
}

#[test]
fn same_text_compares_the_characters() {
    assert!(same_text("Food", "Food"));
    assert!(same_text("", ""));
    assert!(!same_text("Food", "food"));
    assert!(!same_text("Food", "Food "));
}
