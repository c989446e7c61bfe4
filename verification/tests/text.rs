use plan10::text::{append_decimal, chars_of, contains, parse_unsigned, same_text, trim};
use plan10::path::{file_name, parent_of};

fn decimal_string(n: u64) -> String {
    let mut text = String::from("n=");
    append_decimal(&mut text, n);
    text.split_off(2)
}

#[test]
fn decimal_numerals() {
    assert_eq!(decimal_string(0), "0");
    assert_eq!(decimal_string(7), "7");
    assert_eq!(decimal_string(10), "10");
    assert_eq!(decimal_string(65535), "65535");
    assert_eq!(decimal_string(u64::MAX), "18446744073709551615");
}

#[test]
fn trimming_removes_surrounding_whitespace() {
    assert_eq!(trim("  a b \t\r\n"), "a b");
    assert_eq!(trim(""), "");
    assert_eq!(trim(" \n "), "");
    assert_eq!(trim("x"), "x");
    assert_eq!(trim("\u{a0}x\u{3000}"), "x");
    assert_eq!(trim("\u{200b}x"), "\u{200b}x");
    for code in 0..0x3100u32 {
        if let Some(c) = char::from_u32(code) {
            let text = format!("{}a{}", c, c);
            assert_eq!(trim(&text), text.trim(), "{:x}", code);
        }
    }
}

#[test]
fn file_names_and_parents() {
    assert_eq!(file_name("scripts/setup_aliases.sh"), "setup_aliases.sh");
    assert_eq!(file_name("setup_aliases.sh"), "setup_aliases.sh");
    assert_eq!(file_name("a/b/"), "b");
    assert_eq!(file_name("/"), "");
    assert_eq!(file_name(""), "");
    assert_eq!(parent_of("~/Library/LaunchAgents/caffeinate.plist"), Some("~/Library/LaunchAgents".to_string()));
    assert_eq!(parent_of("~/server_setup.sh"), Some("~".to_string()));
    assert_eq!(parent_of("~/docs//a.txt"), Some("~/docs".to_string()));
    assert_eq!(parent_of("~/docs/"), Some("~".to_string()));
    assert_eq!(parent_of("file"), Some(String::new()));
    assert_eq!(parent_of("/file"), Some("/".to_string()));
    assert_eq!(parent_of("/"), None);
    assert_eq!(parent_of(""), None);
    for path in ["a/b/c", "a", "/a", "/", "", "a//b", "a/b/", "~/x y/z", "//a"] {
        let expected = std::path::Path::new(path).parent().map(|p| p.to_str().unwrap().to_string());
        assert_eq!(parent_of(path), expected, "{}", path);
    }
}

#[test]
fn substring_search() {
    assert!(contains("Now drawing from 'AC Power'", "AC Power"));
    assert!(!contains("Now drawing from 'Battery Power'", "AC Power"));
    assert!(contains("abc", ""));
    assert!(contains("", ""));
    assert!(!contains("", "a"));
    assert!(contains("aab", "ab"));
    assert!(!contains("ab", "abc"));
}

#[test]
fn unsigned_numbers_are_parsed() {
    assert_eq!(parse_unsigned("22", 65535), Some(22));
    assert_eq!(parse_unsigned("+22", 65535), Some(22));
    assert_eq!(parse_unsigned("0", 65535), Some(0));
    assert_eq!(parse_unsigned("007", 65535), Some(7));
    assert_eq!(parse_unsigned("65535", 65535), Some(65535));
    assert_eq!(parse_unsigned("65536", 65535), None);
    assert_eq!(parse_unsigned("", 65535), None);
    assert_eq!(parse_unsigned("+", 65535), None);
    assert_eq!(parse_unsigned("-1", 65535), None);
    assert_eq!(parse_unsigned(" 1", 65535), None);
    assert_eq!(parse_unsigned("1a", 65535), None);
    assert_eq!(parse_unsigned("18446744073709551615", u64::MAX), Some(u64::MAX));
    assert_eq!(parse_unsigned("18446744073709551616", u64::MAX), None);
    assert_eq!(parse_unsigned("99999999999999999999999", u64::MAX), None);
    for text in ["255", "256", "+0", "++1", "12 ", "٣"] {
        assert_eq!(parse_unsigned(text, 255), text.parse::<u8>().ok().map(u64::from), "{}", text);
    }
}

#[test]
fn characters_and_equality() {
    assert_eq!(chars_of("aé✓"), vec!['a', 'é', '✓']);
    assert!(same_text("macos", "macos"));
    assert!(!same_text("macos", "macOS"));
}
