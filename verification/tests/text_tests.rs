use spotify_backend::json::{JsonNumber, JsonValue};
use spotify_backend::text::{bool_text, chars_eq, find_char, lines_of, split_once_chars, trim_chars, trim_matches_chars};

fn v(s: &str) -> Vec<char> {
    s.chars().collect()
}

fn st(c: &[char]) -> String {
    c.iter().collect()
}

#[test]
fn trims() {
    assert_eq!(st(&trim_chars(&v("\u{3000} a b \t"))), "a b");
    assert_eq!(st(&trim_matches_chars(&v("\"\"x\"y\""), '"')), "x\"y");
    assert_eq!(st(&trim_chars(&v("   "))), "");
}

#[test]
fn splitting() {
    let (a, b) = split_once_chars(&v("k=v=w"), '=').unwrap();
    assert_eq!((st(&a), st(&b)), ("k".to_string(), "v=w".to_string()));
    assert!(split_once_chars(&v("kv"), '=').is_none());
    assert_eq!(find_char(&v("abc"), 'c'), 2);
    assert_eq!(find_char(&v("abc"), 'z'), 3);
}

#[test]
fn lines_like_std() {
    for text in ["", "a", "a\n", "a\r\nb", "a\n\nb\n", "x\r", "\n", "a\rb\r\n"] {
        let got: Vec<String> = lines_of(&v(text)).iter().map(|l| st(l)).collect();
        let want: Vec<String> = text.lines().map(|l| l.to_string()).collect();
        assert_eq!(got, want, "text {:?}", text);
    }
}

#[test]
fn equality_and_bools() {
    assert!(chars_eq(&v("abc"), &v("abc")));
    assert!(!chars_eq(&v("abc"), &v("abd")));
    assert!(!chars_eq(&v("ab"), &v("abc")));
    assert_eq!(bool_text(true), "true");
}

#[test]
fn json_accessors() {
    let big = JsonValue::Number(JsonNumber::PosInt(u64::MAX));
    assert_eq!(big.as_i64(), None);
    assert_eq!(big.as_u64(), Some(u64::MAX));
    let neg = JsonValue::Number(JsonNumber::NegInt(-2));
    assert_eq!(neg.as_i64(), Some(-2));
    assert_eq!(neg.as_u64(), None);
    assert_eq!(JsonValue::Bool(true).as_bool(), Some(true));
    assert!(JsonValue::Null.get("x").is_none());
    assert!(JsonValue::Array(vec![JsonValue::Null]).first().is_some());
}
