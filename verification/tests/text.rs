use gale_sync::text::{chars_of, same_text, string_of};

#[test]
fn chars_of_keeps_every_character_in_order() {
    assert_eq!(chars_of("aé:Ω"), vec!['a', 'é', ':', 'Ω']);
    assert!(chars_of("").is_empty());
}

#[test]
fn string_of_takes_the_range() {
    let chars = chars_of("update:AB12CD");
    assert_eq!(string_of(&chars, 0, 6), "update");
    assert_eq!(string_of(&chars, 7, 13), "AB12CD");
    assert_eq!(string_of(&chars, 6, 6), "");
    assert_eq!(string_of(&chars, 0, 13), "update:AB12CD");
}

#[test]
fn same_text_compares_characters() {
    assert!(same_text("subscribe", "subscribe"));
    assert!(!same_text("subscribe", "unsubscribe"));
    assert!(!same_text("a", "A"));
    assert!(same_text("", ""));
}
