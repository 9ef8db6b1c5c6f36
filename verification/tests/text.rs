use mcpg_backend_email::text::{
    blank, chars_of, contains, decimal_text, eq_ignore_ascii_case, is_whitespace, joined,
    rest_after, same_text, starts_with, to_ascii_lowercase, trim_start,
};

fn text(chars: Vec<char>) -> String {
    chars.into_iter().collect()
}

#[test]
fn white_space_is_that_of_unicode() {
    for code in 0..=u32::from(char::MAX) {
        if let Some(c) = char::from_u32(code) {
            assert_eq!(is_whitespace(c), c.is_whitespace(), "{:x}", code);
        }
    }
}

#[test]
fn lower_case_is_that_of_ascii() {
    let all: String = (0..=0x2ff).filter_map(char::from_u32).collect();
    assert_eq!(text(to_ascii_lowercase(&all)), all.to_ascii_lowercase());
}

#[test]
fn searching() {
    let hay = chars_of("a connection reset");
    assert!(contains(&hay, "connect"));
    assert!(contains(&hay, "reset"));
    assert!(contains(&hay, ""));
    assert!(!contains(&hay, "Connect"));
    assert!(!contains(&hay, "a connection reset by"));
    assert!(!contains(&chars_of(""), "a"));
    assert!(contains(&chars_of("aab"), "ab"));
}

#[test]
fn prefixes() {
    assert!(starts_with(&chars_of("cred://x"), "cred://"));
    assert!(starts_with(&chars_of("cred://"), "cred://"));
    assert!(!starts_with(&chars_of("cred:/"), "cred://"));
    assert!(!starts_with(&chars_of(" cred://x"), "cred://"));
}

#[test]
fn trimming() {
    assert_eq!(text(trim_start(" \t\u{3000}a b ")), "a b ");
    assert_eq!(text(trim_start("  ")), "");
    assert!(blank(" \r\n\u{2003}"));
    assert!(blank(""));
    assert!(!blank(" x "));
}

#[test]
fn equality() {
    assert!(same_text("é", "é"));
    assert!(!same_text("a", "A"));
    assert!(!same_text("a", "ab"));
    assert!(eq_ignore_ascii_case("MCPG-Tool-Name", "mcpg-tool-name"));
    assert!(!eq_ignore_ascii_case("É", "é"));
}

#[test]
fn numbers_in_decimal() {
    assert_eq!(decimal_text(0), "0");
    assert_eq!(decimal_text(10), "10");
    assert_eq!(decimal_text(987_654_321), "987654321");
    assert_eq!(decimal_text(u128::MAX), u128::MAX.to_string());
}

#[test]
fn joining() {
    assert_eq!(joined("a", "b"), "ab");
    assert_eq!(joined("", ""), "");
}

#[test]
fn what_follows_a_marker() {
    let whole = chars_of("a' b' c");
    assert_eq!(rest_after(&whole, 0, "' ").map(text), Some("b' c".to_owned()));
    assert_eq!(rest_after(&whole, 2, "' ").map(text), Some("c".to_owned()));
    assert_eq!(rest_after(&whole, 5, "' "), None);
    assert_eq!(rest_after(&whole, 7, "").map(text), Some(String::new()));
    assert_eq!(rest_after(&whole, 0, "a' b' c").map(text), Some(String::new()));
}
