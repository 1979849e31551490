use htmlelement::custom_attr::{is_rejected, to_snake_case};

#[test]
fn encodes_mixed_case_key() {
    assert_eq!(to_snake_case("someProp"), "data-some-prop");
}

#[test]
fn encodes_lowercase_key_unchanged() {
    assert_eq!(to_snake_case("abc"), "data-abc");
}

#[test]
fn encodes_empty_key_as_bare_prefix() {
    assert_eq!(to_snake_case(""), "data-");
}

#[test]
fn encodes_every_uppercase_letter() {
    assert_eq!(to_snake_case("ABC"), "data--a-b-c");
    assert_eq!(to_snake_case("fooBarBaz"), "data-foo-bar-baz");
    assert_eq!(to_snake_case("aZ"), "data-a-z");
    assert_eq!(to_snake_case("Az"), "data--az");
}

#[test]
fn encoding_leaves_digits_hyphens_and_signs_alone() {
    assert_eq!(to_snake_case("a1-2_b"), "data-a1-2_b");
    assert_eq!(to_snake_case("a-B"), "data-a--b");
    assert_eq!(to_snake_case("@[`{"), "data-@[`{");
}

#[test]
fn encoding_changes_ascii_letters_only() {
    assert_eq!(to_snake_case("\u{c9}t\u{e9}"), "data-\u{c9}t\u{e9}");
    assert_eq!(to_snake_case("\u{391}B"), "data-\u{391}-b");
}

#[test]
fn encoding_is_the_same_on_every_call() {
    assert_eq!(to_snake_case("someProp"), to_snake_case("someProp"));
}

#[test]
fn rejects_lowercase_after_first_hyphen() {
    assert!(is_rejected("foo-bar"));
    assert!(is_rejected("-a"));
    assert!(is_rejected("a-z"));
    assert!(is_rejected("foo-bar-Baz"));
}

#[test]
fn accepts_keys_without_hyphen() {
    assert!(!is_rejected(""));
    assert!(!is_rejected("fooBar"));
    assert!(!is_rejected("abc"));
}

#[test]
fn accepts_other_characters_after_first_hyphen() {
    assert!(!is_rejected("foo-Bar"));
    assert!(!is_rejected("foo-1"));
    assert!(!is_rejected("foo-"));
    assert!(!is_rejected("-"));
    assert!(!is_rejected("foo-\u{e9}"));
    assert!(!is_rejected("a-`"));
    assert!(!is_rejected("a-{"));
}

#[test]
fn only_the_first_hyphen_is_looked_at() {
    assert!(!is_rejected("a--b"));
    assert!(!is_rejected("a-B-c"));
    assert!(is_rejected("a-b-C"));
}
