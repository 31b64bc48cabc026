use greeter::greet;

#[test]
fn test_basic_greeting() {
    assert_eq!(greet(None), "Hello, World!");
}

#[test]
fn test_personalized_greeting() {
    assert_eq!(greet(Some("Alice")), "Hello, Alice!");
}

#[test]
fn test_empty_name() {
    assert_eq!(greet(Some("")), "Hello, World!");
    assert_eq!(greet(Some("   ")), "Hello, World!");
}

#[test]
fn test_untrimmed_name_kept_verbatim() {
    assert_eq!(greet(Some("  Bob  ")), "Hello,   Bob  !");
}

#[test]
fn test_ascii_control_whitespace_is_blank() {
    assert_eq!(greet(Some("\t\n\r \u{0B}\u{0C}")), "Hello, World!");
}

#[test]
fn test_unicode_whitespace_is_blank() {
    assert_eq!(greet(Some("\u{A0}\u{1680}\u{2003}\u{202F}\u{3000}")), "Hello, World!");
}

#[test]
fn test_inner_whitespace_is_not_blank() {
    assert_eq!(greet(Some("Ada Lovelace")), "Hello, Ada Lovelace!");
}

#[test]
fn test_non_ascii_name() {
    assert_eq!(greet(Some("Jos\u{E9}")), "Hello, Jos\u{E9}!");
}

#[test]
fn test_same_input_same_output() {
    assert_eq!(greet(Some("Alice")), greet(Some("Alice")));
    assert_eq!(greet(None), greet(None));
    assert_eq!(greet(Some(" x ")), greet(Some(" x ")));
}
