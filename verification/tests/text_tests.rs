use gtk_rust_app::text::{
    after_last, contains_str, i64_str, join_strings, repeat_char, replace, split_str,
    starts_with_str, trim_str,
};

#[test]
fn replace_substitutes_every_occurrence() {
    assert_eq!(replace("a {x} b {x}", "{x}", "1"), "a 1 b 1");
    assert_eq!(replace("{x}{x}{x}", "{x}", "yy"), "yyyyyy");
    assert_eq!(replace("nothing here", "{x}", "1"), "nothing here");
    assert_eq!(replace("", "{x}", "1"), "");
}

#[test]
fn replace_scans_left_to_right_without_overlap() {
    assert_eq!(replace("aaa", "aa", "b"), "ba");
    assert_eq!(replace("aaaa", "aa", "a"), "aa");
}

#[test]
fn replace_with_empty_pattern_changes_nothing() {
    assert_eq!(replace("abc", "", "x"), "abc");
}

#[test]
fn join_inserts_separators_between_parts() {
    let parts = vec![String::from("GTK"), String::from("App")];
    assert_eq!(join_strings(&parts, ";"), "GTK;App");
    assert_eq!(join_strings(&vec![String::from("one")], ";"), "one");
    assert_eq!(join_strings(&Vec::new(), ";"), "");
}

#[test]
fn split_keeps_empty_parts() {
    assert_eq!(split_str("a,b,c", ','), vec!["a", "b", "c"]);
    assert_eq!(split_str(",a,", ','), vec!["", "a", ""]);
    assert_eq!(split_str("abc", ','), vec!["abc"]);
    assert_eq!(split_str("", ','), vec![""]);
}

#[test]
fn after_last_takes_the_suffix() {
    assert_eq!(after_last("org.project.App", '.'), "App");
    assert_eq!(after_last("plain", '.'), "plain");
    assert_eq!(after_last("ends.", '.'), "");
}

#[test]
fn trim_removes_surrounding_whitespace() {
    assert_eq!(trim_str("  Foo Bar \t"), "Foo Bar");
    assert_eq!(trim_str("none"), "none");
    assert_eq!(trim_str(" \n "), "");
}

#[test]
fn contains_and_prefix_checks() {
    assert!(contains_str("a warning came up", "warning"));
    assert!(!contains_str("all fine", "warning"));
    assert!(contains_str("anything", ""));
    assert!(starts_with_str("# comment", "#"));
    assert!(!starts_with_str("de", "#"));
}

#[test]
fn repeat_builds_indentation() {
    assert_eq!(repeat_char(' ', 4), "    ");
    assert_eq!(repeat_char(' ', 0), "");
}

#[test]
fn integers_format_in_decimal() {
    assert_eq!(i64_str(0), "0");
    assert_eq!(i64_str(42), "42");
    assert_eq!(i64_str(-20), "-20");
    assert_eq!(i64_str(i64::MAX), "9223372036854775807");
    assert_eq!(i64_str(i64::MIN), "-9223372036854775808");
}
