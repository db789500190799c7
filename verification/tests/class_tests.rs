//! Behaviour of the class-attribute string operations.

use minimal::classes::class_add;
use minimal::classes::class_contains;
use minimal::classes::class_remove;
use minimal::classes::class_toggle;
use minimal::classes::find_first;

#[test]
fn has_class_finds_every_token() {
    let attr = "a b c";
    assert!(class_contains(attr, "a"));
    assert!(class_contains(attr, "b"));
    assert!(class_contains(attr, "c"));
    assert!(!class_contains(attr, "d"));
}

#[test]
fn has_class_empty_name_matches_everything() {
    assert!(class_contains("a b c", ""));
    assert!(class_contains("", ""));
}

#[test]
fn has_class_is_a_substring_test_not_a_token_test() {
    // "ab" is no token of "xab c", yet the substring test accepts it.
    assert!(class_contains("xab c", "ab"));
    assert!(class_contains("a b", " "));
}

#[test]
fn add_class_appends_space_and_name() {
    assert_eq!(class_add("a", "x"), "a x");
    assert_eq!(class_add("", "x"), " x");
}

#[test]
fn add_class_twice_leaves_two_occurrences() {
    let once = class_add("a", "x");
    assert!(class_contains(&once, "x"));
    let twice = class_add(&once, "x");
    assert_eq!(twice, "a x x");
    assert!(class_contains(&twice, "x"));
    // Both occurrences of the spaced name are present.
    assert_eq!(find_first(&twice, " x"), Some(1));
    assert_eq!(find_first(&twice[3..], " x"), Some(0));
}

#[test]
fn remove_class_misses_a_first_token_without_leading_space() {
    // The attribute is exactly the name; the removal pattern " x" does not
    // occur, so the attribute stays as it is.
    assert_eq!(class_remove("x", "x"), "x");
}

#[test]
fn remove_class_deletes_only_the_first_occurrence() {
    assert_eq!(class_remove("a x b x", "x"), "a b x");
    assert_eq!(class_remove("a x", "x"), "a");
}

#[test]
fn remove_class_of_absent_name_changes_nothing() {
    assert_eq!(class_remove("a b", "c"), "a b");
}

#[test]
fn toggle_class_adds_when_absent_and_removes_when_present() {
    let on = class_toggle("a", "b");
    assert_eq!(on, "a b");
    let off = class_toggle(&on, "b");
    assert_eq!(off, "a");
}

#[test]
fn toggle_class_twice_on_bare_first_token() {
    // The membership test sees the class, so the toggle takes the removal
    // arm; but the removal pattern carries a leading space the attribute
    // lacks, so nothing is removed. The class is never toggled off: the
    // attribute sits at "x" after each call, and no pass through a removed
    // state happens between the two calls.
    let first = class_toggle("x", "x");
    assert_eq!(first, "x");
    let second = class_toggle(&first, "x");
    assert_eq!(second, "x");
}

#[test]
fn toggle_class_twice_restores_an_absent_space_free_name() {
    // The general form is proved for every attribute and every space-free
    // absent name; this is one concrete instance.
    let once = class_toggle("a c", "b");
    assert_eq!(once, "a c b");
    assert_eq!(class_toggle(&once, "b"), "a c");
}

#[test]
fn toggle_class_twice_can_lose_a_duplicated_class() {
    // Here the two matching rules genuinely diverge: the first toggle
    // removes the spaced occurrence, the second sees the bare first token
    // and misses, so two toggles do not restore the attribute.
    let first = class_toggle("y y", "y");
    assert_eq!(first, "y");
    let second = class_toggle(&first, "y");
    assert_eq!(second, "y");
}

#[test]
fn find_first_reports_the_leftmost_occurrence() {
    assert_eq!(find_first("abcabc", "ca"), Some(2));
    assert_eq!(find_first("abc", "d"), None);
    assert_eq!(find_first("abc", ""), Some(0));
    assert_eq!(find_first("", "a"), None);
}
