use frascii::text::{push_joined, same_text};

#[test]
fn same_text_compares_characters() {
    assert!(same_text("fmt", "fmt"));
    assert!(!same_text("fmt", "fmT"));
    assert!(!same_text("fmt", "fm"));
    assert!(same_text("", ""));
    assert!(same_text("multibrot³", "multibrot³"));
    assert!(!same_text("multibrot³", "multibrot3"));
}

#[test]
fn joined_parts_are_separated_only_between_neighbours() {
    let mut out = String::from("> ");
    push_joined(&mut out, &vec!["a", "b", "c"], ", ");
    assert_eq!(out, "> a, b, c");

    let mut single = String::new();
    push_joined(&mut single, &vec!["only"], "-");
    assert_eq!(single, "only");

    let mut none = String::from("x");
    push_joined(&mut none, &vec![], "-");
    assert_eq!(none, "x");
}
