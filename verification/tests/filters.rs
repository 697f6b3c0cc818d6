use bottom_config::config::IgnoreList;
use bottom_config::error::{FilterKind, OptionError};
use bottom_config::filter::get_ignore_list;

fn entry_list(entries: &[&str], regex: bool, case_sensitive: bool, whole_word: bool) -> IgnoreList {
    IgnoreList {
        is_list_ignored: true,
        list: entries.iter().map(|e| e.to_string()).collect(),
        regex,
        case_sensitive,
        whole_word,
    }
}

#[test]
fn absent_specification_compiles_to_nothing() {
    assert!(matches!(get_ignore_list(&None, FilterKind::Disk), Ok(None)));
}

#[test]
fn whole_word_literal_matches_exactly_and_case_insensitively() {
    let il = entry_list(&["abc"], false, false, true);
    let filter = get_ignore_list(&Some(il), FilterKind::Disk).unwrap().unwrap();
    assert!(filter.is_list_ignored);
    assert_eq!(filter.list.len(), 1);
    let m = &filter.list[0];
    assert_eq!(m.pattern_text(), "^(?i)abc$");
    assert!(m.is_match("abc"));
    assert!(m.is_match("ABC"));
    assert!(m.is_match("aBc"));
    assert!(!m.is_match("xabc"));
    assert!(!m.is_match("abcx"));
    assert!(!m.is_match("ab"));
}

#[test]
fn substring_literal_matches_anywhere() {
    let il = entry_list(&["abc"], false, false, false);
    let filter = get_ignore_list(&Some(il), FilterKind::Mount).unwrap().unwrap();
    assert_eq!(filter.list[0].pattern_text(), "(?i)abc");
    assert!(filter.list[0].is_match("xxabcyy"));
}

#[test]
fn case_sensitive_literal_rejects_other_cases() {
    let il = entry_list(&["abc"], false, true, true);
    let filter = get_ignore_list(&Some(il), FilterKind::Temp).unwrap().unwrap();
    assert_eq!(filter.list[0].pattern_text(), "^abc$");
    assert!(filter.list[0].is_match("abc"));
    assert!(!filter.list[0].is_match("ABC"));
}

#[test]
fn literal_entries_have_metacharacters_escaped() {
    let il = entry_list(&["a.c"], false, true, true);
    let filter = get_ignore_list(&Some(il), FilterKind::Net).unwrap().unwrap();
    assert!(filter.list[0].is_match("a.c"));
    assert!(!filter.list[0].is_match("abc"));
}

#[test]
fn regex_entries_are_used_verbatim() {
    let il = entry_list(&["sd[ab]"], true, true, false);
    let filter = get_ignore_list(&Some(il), FilterKind::Disk).unwrap().unwrap();
    assert!(filter.list[0].is_match("sda"));
    assert!(filter.list[0].is_match("sdb"));
    assert!(!filter.list[0].is_match("sdc"));
}

#[test]
fn invalid_pattern_fails_naming_the_specification() {
    let il = entry_list(&["("], true, false, false);
    match get_ignore_list(&Some(il), FilterKind::Temp) {
        Err(OptionError::FilterCompileFailure { kind, message }) => {
            assert_eq!(kind, FilterKind::Temp);
            assert!(!message.is_empty());
        },
        other => panic!("expected a compile failure, got {:?}", other),
    }
}

#[test]
fn compilation_is_all_or_nothing() {
    let il = entry_list(&["fine", "("], true, false, false);
    assert!(get_ignore_list(&Some(il), FilterKind::Net).is_err());
}

#[test]
fn include_polarity_is_carried_through() {
    let mut il = entry_list(&["abc"], false, false, false);
    il.is_list_ignored = false;
    let filter = get_ignore_list(&Some(il), FilterKind::Disk).unwrap().unwrap();
    assert!(!filter.is_list_ignored);
}

#[test]
fn matcher_count_equals_entry_count() {
    let il = entry_list(&["a", "b", "c"], false, false, false);
    let filter = get_ignore_list(&Some(il), FilterKind::Disk).unwrap().unwrap();
    assert_eq!(filter.list.len(), 3);
    assert!(filter.list[1].is_match("b"));
}

#[test]
fn long_literal_entries_still_compile_here() {
    let entry = "a".repeat(3000);
    let il = entry_list(&[entry.as_str()], false, false, true);
    let filter = get_ignore_list(&Some(il), FilterKind::Disk).unwrap().unwrap();
    assert!(filter.list[0].is_match(&entry));
}
