use service_registry::model::{Gender, LanguageEntry};
use service_registry::order::{text_equal, text_less};
use service_registry::tag_map::TagMap;
use service_registry::text::{decimal_text, join_texts};

#[test]
fn decimal_numerals() {
    assert_eq!(decimal_text(0), "0");
    assert_eq!(decimal_text(7), "7");
    assert_eq!(decimal_text(10), "10");
    assert_eq!(decimal_text(5001), "5001");
    assert_eq!(decimal_text(4294967295), "4294967295");
}

#[test]
fn join_with_separator() {
    let v: Vec<String> = vec!["a".to_string(), "b".to_string(), "c".to_string()];
    assert_eq!(join_texts(&v, ", "), "a, b, c");
    assert_eq!(join_texts(&vec!["x".to_string()], "&"), "x");
    assert_eq!(join_texts(&Vec::new(), "&"), "");
}

#[test]
fn text_order_matches_string_order() {
    let words = ["", "a", "ab", "b", "sme", "smj", "sm", "Á", "z", "ä"];
    for x in words.iter() {
        for y in words.iter() {
            assert_eq!(text_less(x, y), x < y, "{} {}", x, y);
            assert_eq!(text_equal(x, y), x == y);
        }
    }
}

#[test]
fn tag_map_keeps_ascending_order() {
    let mut m = TagMap::new();
    assert!(m.insert("smj".to_string(), 1u32));
    assert!(m.insert("fin".to_string(), 2u32));
    assert!(m.insert("sme".to_string(), 3u32));
    assert_eq!(m.len(), 3);
    assert_eq!(m.entry(0).0, "fin");
    assert_eq!(m.entry(1).0, "sme");
    assert_eq!(m.entry(2).0, "smj");
}

#[test]
fn tag_map_refuses_duplicate_tag() {
    let mut m = TagMap::new();
    assert!(m.insert("sme".to_string(), LanguageEntry { name: "A".to_string(), port: 1 }));
    assert!(!m.insert("sme".to_string(), LanguageEntry { name: "B".to_string(), port: 2 }));
    assert_eq!(m.len(), 1);
    assert_eq!(m.entry(0).1.name, "A");
    assert!(!m.is_empty());
}

#[test]
fn gender_names() {
    assert_eq!(Gender::from_name("female"), Gender::Female);
    assert_eq!(Gender::from_name("male"), Gender::Male);
    assert_eq!(Gender::from_name(""), Gender::Other);
    assert_eq!(Gender::from_name("Female"), Gender::Other);
}
