use empress::text::{after_chars, copy_opt_text, same_opt_text, starts_with};

#[test]
fn prefix_is_found_at_the_start_only() {
    assert!(starts_with("http://host", "http://"));
    assert!(starts_with("abc", "abc"));
    assert!(starts_with("abc", ""));
    assert!(starts_with("", ""));
    assert!(!starts_with("xhttp://host", "http://"));
    assert!(!starts_with("htt", "http://"));
    assert!(!starts_with("", "a"));
    assert!(!starts_with("abd", "abc"));
}

#[test]
fn prefix_is_compared_character_by_character() {
    assert!(starts_with("\u{e9}cole", "\u{e9}"));
    assert!(!starts_with("\u{e9}cole", "e"));
    assert!(starts_with("\u{1f3b5}\u{1f3b6}", "\u{1f3b5}"));
}

#[test]
fn after_chars_drops_the_first_characters() {
    assert_eq!(after_chars("file:///x", 7), "/x");
    assert_eq!(after_chars("abc", 0), "abc");
    assert_eq!(after_chars("abc", 3), "");
    assert_eq!(after_chars("\u{e9}\u{1f3b5}z", 2), "z");
}

#[test]
fn optional_texts_compare_by_content() {
    let a = Some("x".to_string());
    let b = Some("x".to_string());
    let c = Some("y".to_string());
    assert!(same_opt_text(&a, &b));
    assert!(!same_opt_text(&a, &c));
    assert!(!same_opt_text(&a, &None));
    assert!(!same_opt_text(&None, &a));
    assert!(same_opt_text(&None, &None));
}

#[test]
fn copy_of_an_optional_text_is_equal_to_it() {
    assert_eq!(copy_opt_text(&Some("x".to_string())), Some("x".to_string()));
    assert_eq!(copy_opt_text(&None), None);
}
