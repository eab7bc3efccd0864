use tg_translator::text::{
    chars_of, i64_text, parse_i32, parse_i64, replace_chars, split_chars, split_words, string_of,
    trim_chars, usize_text, Separator,
};

fn s(v: &Vec<char>) -> String {
    string_of(v)
}

fn words(v: Vec<Vec<char>>) -> Vec<String> {
    v.iter().map(|w| string_of(w)).collect()
}

#[test]
fn trimming() {
    assert_eq!(s(&trim_chars(&chars_of("  a b \t\n"))), "a b");
    assert_eq!(s(&trim_chars(&chars_of("   "))), "");
    assert_eq!(s(&trim_chars(&chars_of("\u{3000}x\u{2003}"))), "x");
}

#[test]
fn splitting() {
    assert_eq!(words(split_chars(&chars_of("a,,b"), Separator::Comma)), vec!["a", "", "b"]);
    assert_eq!(words(split_chars(&chars_of(""), Separator::Comma)), vec![""]);
    assert_eq!(words(split_chars(&chars_of("uk es,de"), Separator::CommaOrSpace)), vec!["uk", "es", "de"]);
    assert_eq!(words(split_chars(&chars_of("cmd@bot@x"), Separator::At)), vec!["cmd", "bot", "x"]);
    assert_eq!(words(split_words(&chars_of("  a  b\tc "))), vec!["a", "b", "c"]);
    assert!(split_words(&chars_of(" \n ")).is_empty());
}

#[test]
fn replacing() {
    let r = replace_chars(&chars_of("aaa"), &chars_of("aa"), &chars_of("b"));
    assert_eq!(s(&r), "ba");
    let r = replace_chars(&chars_of("x{a}y{a}"), &chars_of("{a}"), &chars_of(""));
    assert_eq!(s(&r), "xy");
}

#[test]
fn numbers_in_decimal() {
    assert_eq!(s(&i64_text(0)), "0");
    assert_eq!(s(&i64_text(-120)), "-120");
    assert_eq!(s(&i64_text(i64::MIN)), i64::MIN.to_string());
    assert_eq!(s(&i64_text(i64::MAX)), i64::MAX.to_string());
    assert_eq!(s(&usize_text(4096)), "4096");
}

#[test]
fn parsing_integers() {
    for t in ["0", "-0", "+17", "-9223372036854775808", "9223372036854775807", "", "-", "+", "1 ", "9223372036854775808", "-9223372036854775809", "٣", "12a"] {
        assert_eq!(parse_i64(&chars_of(t)), t.parse::<i64>().ok(), "{}", t);
        assert_eq!(parse_i32(&chars_of(t)), t.parse::<i32>().ok(), "{}", t);
    }
    assert_eq!(parse_i32(&chars_of("2147483648")), None);
    assert_eq!(parse_i32(&chars_of("-2147483648")), Some(i32::MIN));
}
