use aracari::labels::field_label;
use aracari::new_project::to_file_name;
use aracari::text::{
    chars_equal, chars_of, decimal_chars, is_blank_chars, is_whitespace, join_chars,
    parse_u32_chars, split_whitespace_chars, string_from_chars, trim_chars,
};

#[test]
fn whitespace_matches_std_for_every_char() {
    for u in 0u32..=0x10FFFF {
        if let Some(c) = char::from_u32(u) {
            assert_eq!(is_whitespace(c), c.is_whitespace(), "char {:#x}", u);
        }
    }
}

#[test]
fn unicode_classes_and_cases_come_from_std() {
    // letters and digits are kept, anything else becomes '_'
    assert_eq!(to_file_name("a_é-7 ß"), "a_é_7_ß");
    // lower case mapping
    assert_eq!(to_file_name("ÀBC"), "àbc");
    // upper case mapping of the acronym
    assert_eq!(field_label("show_fps"), "Show FPS");
}

#[test]
fn chars_roundtrip() {
    let v = chars_of("héllo");
    assert_eq!(v, vec!['h', 'é', 'l', 'l', 'o']);
    assert_eq!(string_from_chars(&v), "héllo");
    assert!(chars_equal(&v, &chars_of("héllo")));
    assert!(!chars_equal(&v, &chars_of("hello")));
}

#[test]
fn trimming_and_blank() {
    assert_eq!(string_from_chars(&trim_chars(&chars_of("  a b \t"))), "a b");
    assert!(is_blank_chars(&chars_of(" \n\t")));
    assert!(is_blank_chars(&chars_of("")));
    assert!(!is_blank_chars(&chars_of(" x ")));
}

#[test]
fn split_and_join_words() {
    let words = split_whitespace_chars(&chars_of("  Fixed   fps \n"));
    let as_strings: Vec<String> = words.iter().map(|w| string_from_chars(w)).collect();
    assert_eq!(as_strings, vec!["Fixed".to_string(), "fps".to_string()]);
    let joined = join_chars(&words, &vec!['-']);
    assert_eq!(string_from_chars(&joined), "Fixed-fps");
    assert!(split_whitespace_chars(&chars_of("   ")).is_empty());
}

#[test]
fn decimal_numerals() {
    assert_eq!(string_from_chars(&decimal_chars(0)), "0");
    assert_eq!(string_from_chars(&decimal_chars(1907)), "1907");
    assert_eq!(string_from_chars(&decimal_chars(u64::MAX as u128)), u64::MAX.to_string());
}

#[test]
fn parse_u32_cases() {
    assert_eq!(parse_u32_chars(&chars_of("42")), Some(42));
    assert_eq!(parse_u32_chars(&chars_of("+42")), Some(42));
    assert_eq!(parse_u32_chars(&chars_of("007")), Some(7));
    assert_eq!(parse_u32_chars(&chars_of("4294967295")), Some(u32::MAX));
    assert_eq!(parse_u32_chars(&chars_of("4294967296")), None);
    assert_eq!(parse_u32_chars(&chars_of("")), None);
    assert_eq!(parse_u32_chars(&chars_of("+")), None);
    assert_eq!(parse_u32_chars(&chars_of("-1")), None);
    assert_eq!(parse_u32_chars(&chars_of("1 2")), None);
}

#[test]
fn parse_u32_agrees_with_std() {
    for s in ["0", "12", "+5", "99999999999", "", "a", "4294967295", " 1"] {
        assert_eq!(parse_u32_chars(&chars_of(s)), s.parse::<u32>().ok(), "input {:?}", s);
    }
}
