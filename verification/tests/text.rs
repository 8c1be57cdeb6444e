use geno::data::{Data, DataType};
use geno::knowledge::KnowledgeBase;
use geno::text::{bool_string, contains_exec, decimal_string, join_strings, str_eq, trim_string};

#[test]
fn numbers_are_written_in_decimal() {
    assert_eq!(decimal_string(0), "0");
    assert_eq!(decimal_string(7), "7");
    assert_eq!(decimal_string(10), "10");
    assert_eq!(decimal_string(40521), "40521");
    assert_eq!(decimal_string(usize::MAX), usize::MAX.to_string());
}

#[test]
fn booleans_are_written_as_words() {
    assert_eq!(bool_string(true), "true");
    assert_eq!(bool_string(false), "false");
}

#[test]
fn trimming_removes_unicode_whitespace() {
    assert_eq!(trim_string("  a b \t\n"), "a b");
    assert_eq!(trim_string("\u{85}\u{2028}x\u{3000}"), "x");
    assert_eq!(trim_string(" \u{200b}x"), "\u{200b}x");
    assert_eq!(trim_string("   "), "");
}

#[test]
fn containment_is_checked() {
    assert!(contains_exec("abcdef", "cde"));
    assert!(!contains_exec("abcdef", "ced"));
    assert!(contains_exec("abc", ""));
    assert!(!contains_exec("", "a"));
}

#[test]
fn strings_are_joined() {
    let parts = vec!["a".to_string(), "b".to_string(), "c".to_string()];
    assert_eq!(join_strings(&parts, ", "), "a, b, c");
    assert_eq!(join_strings(&Vec::new(), ", "), "");
    assert!(str_eq("x", "x"));
    assert!(!str_eq("x", "y"));
}

#[test]
fn knowledge_base_keeps_one_value_per_key() {
    let mut kb = KnowledgeBase::new();
    kb.insert("k".to_string(), "v1".to_string());
    kb.insert("j".to_string(), "w".to_string());
    kb.insert("k".to_string(), "v2".to_string());
    assert_eq!(kb.len(), 2);
    assert_eq!(kb.get("k").map(|s| s.as_str()), Some("v2"));
    assert_eq!(kb.get("j").map(|s| s.as_str()), Some("w"));
    assert_eq!(kb.get("z"), None);
}

#[test]
fn data_carries_its_fields() {
    let ts = chrono::NaiveDate::from_ymd_opt(2025, 8, 5).unwrap().and_hms_opt(9, 0, 0).unwrap();
    let d = Data {
        data_type: DataType::Email,
        source: "gmail".to_string(),
        title: "Meeting with John".to_string(),
        content: "...".to_string(),
        timestamp: ts,
        tags: vec!["meeting".to_string(), "projectX".to_string()],
    };
    assert_eq!(d.data_type, DataType::Email);
    assert_ne!(d.data_type, DataType::Bill);
    assert_eq!(d.timestamp.to_string(), "2025-08-05 09:00:00");
    assert_eq!(d.tags.len(), 2);
}

#[test]
fn data_clones_keep_their_fields() {
    let ts = chrono::NaiveDate::from_ymd_opt(2025, 8, 5).unwrap().and_hms_opt(9, 0, 0).unwrap();
    let d = Data {
        data_type: DataType::Note,
        source: "notes".to_string(),
        title: "Plan".to_string(),
        content: "ship it".to_string(),
        timestamp: ts,
        tags: vec!["work".to_string()],
    };
    let c = d.clone();
    assert_eq!(c.data_type, DataType::Note);
    assert_eq!(c.source, "notes");
    assert_eq!(c.title, "Plan");
    assert_eq!(c.content, "ship it");
    assert_eq!(c.timestamp, ts);
    assert_eq!(c.tags, vec!["work".to_string()]);
}
