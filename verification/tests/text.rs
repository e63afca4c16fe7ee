use backend::text::{borrow_text, copy_text, precedes, same_text};

#[test]
fn same_text_compares_characters() {
    assert!(same_text("", ""));
    assert!(same_text("abc", "abc"));
    assert!(same_text("héllo ✓", "héllo ✓"));
    assert!(!same_text("abc", "abd"));
    assert!(!same_text("abc", "ab"));
    assert!(!same_text("", "a"));
    assert!(!same_text("e\u{301}", "é"));
}

#[test]
fn precedes_orders_texts_as_the_standard_library_does() {
    let texts = ["", "a", "A", "ab", "b", "aa", "é", "z", "Z", "\u{10000}", "\u{ffff}", "a\u{0}", "~"];
    for a in texts {
        for b in texts {
            assert_eq!(precedes(a, b), a <= b, "{a:?} {b:?}");
        }
    }
}

#[test]
fn optional_texts_are_copied_and_borrowed() {
    let some = Some("ticket".to_string());
    assert_eq!(copy_text(&some), some);
    assert_eq!(copy_text(&None), None);
    assert_eq!(borrow_text(&some), Some("ticket"));
    assert_eq!(borrow_text(&None), None);
}
