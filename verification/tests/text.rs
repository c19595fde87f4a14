use bob::environment::Environment;
use bob::paths::join;
use bob::text::{followed_by, has_at, replace_all, same, to_chars};

#[test]
fn chars_come_in_order() {
    assert_eq!(to_chars("héllo"), vec!['h', 'é', 'l', 'l', 'o']);
    assert_eq!(to_chars(""), Vec::<char>::new());
}

#[test]
fn same_compares_by_characters() {
    assert!(same("nightly", "nightly"));
    assert!(same("", ""));
    assert!(!same("nightly", "nightl"));
    assert!(!same("v1.0.0", "v1.0.1"));
}

#[test]
fn has_at_finds_only_whole_occurrences() {
    let text = to_chars("abcabc");
    assert!(has_at(&text, 0, &to_chars("abc")));
    assert!(has_at(&text, 3, &to_chars("abc")));
    assert!(!has_at(&text, 1, &to_chars("abc")));
    assert!(!has_at(&text, 4, &to_chars("abc")));
    assert!(has_at(&text, 6, &to_chars("")));
    assert!(!has_at(&text, 7, &to_chars("")));
}

#[test]
fn replace_all_goes_from_the_left_without_overlap() {
    assert_eq!(replace_all("aaa", "aa", "b"), "ba");
    assert_eq!(replace_all("abab", "ab", "abab"), "abababab");
    assert_eq!(replace_all("x$Ay$A", "$A", ""), "xy");
    assert_eq!(replace_all("path", "$A", "z"), "path");
    assert_eq!(replace_all("", "a", "z"), "");
}

#[test]
fn replace_all_with_empty_pattern_changes_nothing() {
    assert_eq!(replace_all("abc", "", "-"), "abc");
}

#[test]
fn replace_all_keeps_other_characters() {
    assert_eq!(replace_all("é$Xü", "$X", "ö"), "éöü");
}

#[test]
fn concat_appends() {
    assert_eq!(followed_by("v", "0.9.1"), "v0.9.1");
    assert_eq!(followed_by("", ""), "");
}

#[test]
fn join_puts_a_slash_between() {
    assert_eq!(join("/data/bob", "v0.9.1"), "/data/bob/v0.9.1");
    assert_eq!(join("", "x"), "/x");
}

#[test]
fn later_setting_replaces_earlier() {
    let mut env = Environment::new();
    assert_eq!(env.get("HOME"), None);
    env.set("HOME", "/a");
    env.set("OTHER", "/o");
    assert_eq!(env.get("HOME"), Some("/a"));
    env.set("HOME", "/b");
    assert_eq!(env.get("HOME"), Some("/b"));
    assert_eq!(env.get("OTHER"), Some("/o"));
    assert_eq!(env.get("home"), None);
}
