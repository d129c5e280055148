use webhook_logger::text::{same_text, wrap_fragment};

#[test]
fn a_fragment_is_wrapped_in_backticks() {
    assert_eq!(wrap_fragment("x"), "`x`");
    assert_eq!(wrap_fragment(""), "``");
    assert_eq!(wrap_fragment("a `quoted` word"), "`a `quoted` word`");
    assert_eq!(wrap_fragment("\u{fffd}\n"), "`\u{fffd}\n`");
}

#[test]
fn same_text_compares_whole_strings() {
    assert!(same_text("", ""));
    assert!(same_text("true", "true"));
    assert!(same_text("gr\u{fc}n", "gr\u{fc}n"));
    assert!(!same_text("true", "tru"));
    assert!(!same_text("tru", "true"));
    assert!(!same_text("true", "trux"));
    assert!(!same_text("\u{e9}", "e"));
    assert!(!same_text("a", ""));
}
