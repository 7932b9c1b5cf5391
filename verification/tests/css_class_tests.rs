use hitokage_core::css_class::{normalize_prepend, prepend_css_class, prepend_css_class_list, CssClass};

fn strings(words: &[&str]) -> Vec<String> {
    words.iter().map(|w| w.to_string()).collect()
}

#[test]
fn string_class_splits_on_whitespace() {
    let classes = CssClass::Str("a b  c".to_string()).into_classes();
    assert_eq!(classes, strings(&["a", "b", "c"]));
}

#[test]
fn string_class_keeps_first_occurrence() {
    let classes = CssClass::Str("b a b c a".to_string()).into_classes();
    assert_eq!(classes, strings(&["b", "a", "c"]));
}

#[test]
fn string_class_splits_on_unicode_whitespace() {
    let classes = CssClass::Str("x\ty\nz\u{3000}w\u{a0}v".to_string()).into_classes();
    assert_eq!(classes, strings(&["x", "y", "z", "w", "v"]));
}

#[test]
fn list_class_splits_each_item_and_dedups_across_items() {
    let classes = CssClass::Vec(strings(&["a b", "c a", "", "  d  "])).into_classes();
    assert_eq!(classes, strings(&["a", "b", "c", "d"]));
}

#[test]
fn empty_class_lists() {
    assert!(CssClass::Str(String::new()).into_classes().is_empty());
    assert!(CssClass::Str("   ".to_string()).into_classes().is_empty());
    assert!(CssClass::default().into_classes().is_empty());
}

#[test]
fn default_class_is_an_empty_list() {
    match CssClass::default() {
        CssClass::Vec(v) => assert!(v.is_empty()),
        CssClass::Str(_) => panic!("default class should be a list"),
    }
}

#[test]
fn normalize_prepend_of_a_name_is_that_name() {
    assert_eq!(normalize_prepend("clock"), strings(&["clock"]));
    assert_eq!(normalize_prepend("a b"), strings(&["a b"]));
}

#[test]
fn normalize_prepend_of_a_list_is_the_list() {
    assert_eq!(normalize_prepend(strings(&["x", "y", "x"])), strings(&["x", "y", "x"]));
}

#[test]
fn prepend_puts_the_name_first_and_dedups() {
    let out = prepend_css_class("clock", strings(&["a", "clock", "b", "a"]));
    assert_eq!(out, strings(&["clock", "a", "b"]));
}

#[test]
fn prepend_list_class_splits_words() {
    let out = prepend_css_class_list("cpu", CssClass::Str("hot cpu  busy".to_string()));
    assert_eq!(out, strings(&["cpu", "hot", "busy"]));
}

#[test]
fn prepend_keeps_every_class() {
    let out = prepend_css_class(strings(&["bar", "main"]), strings(&["x", "main", "y"]));
    assert_eq!(out, strings(&["bar", "main", "x", "y"]));
}

#[test]
fn normalizing_twice_changes_nothing() {
    let once = CssClass::Str("a  b a c".to_string()).into_classes();
    let twice = CssClass::Vec(once.clone()).into_classes();
    assert_eq!(once, twice);
}

#[test]
fn string_classes_are_stable() {
    let once = CssClass::Str("x  y x\tz".to_string()).into_classes();
    assert_eq!(CssClass::Vec(once.clone()).into_classes(), once);
    assert_eq!(once, strings(&["x", "y", "z"]));
}
