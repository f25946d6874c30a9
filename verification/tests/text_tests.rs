use oi_helper::text::{char_at, chars_of, decimal, is_whitespace, same_text, string_of, trim};

#[test]
fn chars_and_strings_convert_both_ways() {
    let chars = chars_of("a\u{8f93}b");
    assert_eq!(chars, vec!['a', '\u{8f93}', 'b']);
    assert_eq!(char_at(&chars, 1), '\u{8f93}');
    assert_eq!(string_of(&chars), "a\u{8f93}b");
    assert_eq!(string_of(&vec![]), "");
}

#[test]
fn same_text_compares_characters() {
    assert!(same_text("", ""));
    assert!(same_text("abc", "abc"));
    assert!(!same_text("abc", "abd"));
    assert!(!same_text("abc", "ab"));
    assert!(!same_text("ab", "abc"));
}

#[test]
fn whitespace_is_what_std_calls_whitespace() {
    let mut code: u32 = 0;
    while code <= 0x10ffff {
        if let Some(c) = char::from_u32(code) {
            assert_eq!(is_whitespace(c), c.is_whitespace(), "at U+{:X}", code);
        }
        code += 1;
    }
}

#[test]
fn trim_agrees_with_std_trim() {
    let texts = [
        "",
        " ",
        "\n\t \r",
        "abc",
        "  abc",
        "abc  ",
        " \n abc def \n\n",
        "\u{3000}x\u{a0}",
        "a b",
        "25\n",
        "\r\n1 2\r\n3 4\r\n",
    ];
    for text in texts {
        assert_eq!(trim(text), text.trim());
    }
    assert_eq!(trim("  5 6 \n"), "5 6");
}

#[test]
fn decimal_writes_numerals() {
    assert_eq!(decimal(0), "0");
    assert_eq!(decimal(7), "7");
    assert_eq!(decimal(10), "10");
    assert_eq!(decimal(120), "120");
    assert_eq!(decimal(9876543210), "9876543210");
    assert_eq!(decimal(usize::MAX), usize::MAX.to_string());
}
