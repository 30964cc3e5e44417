use nano_agent::text::{chars_of, find_first, replace_first, truncate_chars};

#[test]
fn replace_single_occurrence() {
    let r = replace_first("fn main() { old(); }", "old", "new");
    assert_eq!(r, Some("fn main() { new(); }".to_string()));
}

#[test]
fn replace_only_first_of_many() {
    let r = replace_first("a-x-x-x", "x", "yy");
    assert_eq!(r, Some("a-yy-x-x".to_string()));
}

#[test]
fn replace_absent_gives_none() {
    assert_eq!(replace_first("hello world", "planet", "x"), None);
}

#[test]
fn replace_empty_pattern_inserts_at_start() {
    assert_eq!(replace_first("abc", "", "Z"), Some("Zabc".to_string()));
}

#[test]
fn replace_multibyte_text() {
    assert_eq!(replace_first("héllo wörld wörld", "wörld", "ß"), Some("héllo ß wörld".to_string()));
}

#[test]
fn find_first_reports_leftmost() {
    let s = chars_of("abcabc");
    let p = chars_of("bc");
    assert_eq!(find_first(&s, &p), Some(1));
    let q = chars_of("zz");
    assert_eq!(find_first(&s, &q), None);
    let long = chars_of("abcabcabc");
    assert_eq!(find_first(&s, &long), None);
}

#[test]
fn truncate_keeps_short_text() {
    assert_eq!(truncate_chars("short", 10), "short");
    assert_eq!(truncate_chars("exactly", 7), "exactly");
}

#[test]
fn truncate_cuts_long_text_by_characters() {
    assert_eq!(truncate_chars("äöüäöü", 4), "äöüä");
}
