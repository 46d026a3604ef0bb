use sapiens::text::{
    chars_of, has_prefix, join_strings, lines_of, replace_all, split_char, string_of, to_decimal, trimmed,
    truncate_bytes,
};

#[test]
fn decimal_notation() {
    assert_eq!(to_decimal(0), "0");
    assert_eq!(to_decimal(7), "7");
    assert_eq!(to_decimal(1800), "1800");
    assert_eq!(to_decimal(usize::MAX), usize::MAX.to_string());
}

#[test]
fn trimming_and_prefixes() {
    assert_eq!(trimmed("  \t hello world \n"), "hello world");
    assert_eq!(trimmed("   "), "");
    assert!(has_prefix("```yaml", "```"));
    assert!(!has_prefix("``", "```"));
    assert!(has_prefix("abc", ""));
}

#[test]
fn splitting_and_joining() {
    assert_eq!(split_char("a,b,,c", ','), vec!["a", "b", "", "c"]);
    assert_eq!(split_char("", ','), vec![""]);
    assert_eq!(lines_of("one\ntwo\n"), vec!["one", "two"]);
    assert_eq!(lines_of("one\r\ntwo"), vec!["one", "two"]);
    assert_eq!(lines_of(""), Vec::<String>::new());
    let parts = vec!["a".to_string(), "b".to_string(), "c".to_string()];
    assert_eq!(join_strings(&parts, ", "), "a, b, c");
    assert_eq!(join_strings(&vec![], "-"), "");
}

#[test]
fn replacing() {
    assert_eq!(replace_all("aaa", "aa", "b"), "ba");
    assert_eq!(replace_all("a-b-c", "-", "+-"), "a+-b+-c");
    assert_eq!(replace_all("nothing", "x", "y"), "nothing");
}

#[test]
fn characters() {
    let v = chars_of("héllo");
    assert_eq!(v.len(), 5);
    assert_eq!(string_of(&v, 1, 4), "éll");
}

#[test]
fn truncating_on_character_boundaries() {
    assert_eq!(truncate_bytes("hello", 3), "hel");
    assert_eq!(truncate_bytes("hello", 10), "hello");
    // 'é' takes two bytes: it does not fit in the second byte
    assert_eq!(truncate_bytes("héllo", 2), "h");
    assert_eq!(truncate_bytes("héllo", 3), "hé");
    assert_eq!(truncate_bytes("", 0), "");
}
