use watt::lexer::address::Address;
use watt::vm::strings::{
    as_int, char_at, chars, contains, find, is_ascii_letter, is_digit, length, lower, push, replace, replace_n,
    replace_range, rfind, split, substring, trim, upper,
};

#[test]
fn replaces_matches() {
    assert_eq!(replace("a-b-c", "-", "+"), "a+b+c");
    assert_eq!(replace_n("a-b-c", "-", "+", 1), "a+b-c");
    assert_eq!(replace_n("a-b-c", "-", "+", -1), "a+b+c");
    assert_eq!(replace_n("a-b-c", "-", "+", 0), "a-b-c");
}

#[test]
fn replaces_byte_ranges_and_slices() {
    assert_eq!(replace_range("hello", 1, 3, "EY"), "hEYlo");
    assert_eq!(substring("hello", 1, 4), "ell");
    assert_eq!(substring("héllo", 1, 3), "é");
}

#[test]
fn reads_characters() {
    assert_eq!(char_at("héllo", 1), "é");
    assert_eq!(chars("ab"), vec!["a".to_string(), "b".to_string()]);
    assert!(chars("").is_empty());
}

#[test]
fn trims_and_splits() {
    assert_eq!(trim("  hi \n"), "hi");
    assert_eq!(split("a,b,,c", ","), vec!["a", "b", "", "c"]);
    assert_eq!(split("a--b", "--"), vec!["a", "b"]);
}

#[test]
fn finds_characters() {
    assert!(contains("hello", "ell"));
    assert!(!contains("hello", "xyz"));
    assert!(contains("hello", ""));
    assert_eq!(find("hello", "l", Address::unknown()).ok(), Some(2));
    assert_eq!(find("hello", "z", Address::unknown()).ok(), Some(-1));
    assert_eq!(rfind("hello", "l", Address::unknown()).ok(), Some(1));
    assert_eq!(rfind("hello", "h", Address::unknown()).ok(), Some(4));
    let e = find("hello", "ab", Address::unknown()).err().unwrap();
    assert_eq!((e.text.as_str(), e.hint.as_str()), ("could not represent string as char.", "string: ab"));
    let e = rfind("hello", "é", Address::unknown()).err().unwrap();
    assert_eq!(e.hint, "string: \"é\"");
}

#[test]
fn pushes_and_measures() {
    let mut s = "ab".to_string();
    push(&mut s, "cd");
    assert_eq!(s, "abcd");
    assert_eq!(length("héllo"), 6);
    assert!(is_ascii_letter("a"));
    assert!(!is_ascii_letter("é"));
}

#[test]
fn classifies_digits() {
    assert_eq!(is_digit("7", 10, Address::unknown()).ok(), Some(true));
    assert_eq!(is_digit("a", 16, Address::unknown()).ok(), Some(true));
    assert_eq!(is_digit("a", 10, Address::unknown()).ok(), Some(false));
    let e = is_digit("7", 40, Address::unknown()).err().unwrap();
    assert_eq!((e.text.as_str(), e.hint.as_str()), ("invalid radix: 40", "radix should be in 2..36 range."));
    let e = is_digit("7", -3, Address::unknown()).err().unwrap();
    assert_eq!(e.text, "invalid radix: -3");
    let e = is_digit("ab", 10, Address::unknown()).err().unwrap();
    assert_eq!(e.hint, "string: \"ab\"");
    assert_eq!(as_int("A", Address::unknown()).ok(), Some(65));
}

#[test]
fn changes_case() {
    assert_eq!(lower("AbC"), "abc");
    assert_eq!(upper("abc"), "ABC");
}

#[test]
fn handles_empty_patterns() {
    assert_eq!(replace("ab", "", "-"), "-a-b-");
    assert_eq!(replace_n("ab", "", "-", 1), "-ab");
    assert_eq!(split("ab", ""), vec!["", "a", "b", ""]);
}
