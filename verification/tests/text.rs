use zeevum_client::numbers::{count32, low32};
use zeevum_client::text::{
    decimal_text, ends_with_newline, host_of, is_blank, is_white_space, trim,
};

#[test]
fn white_space_agrees_with_std() {
    for n in 0u32..=0x10ffff {
        if let Some(c) = char::from_u32(n) {
            assert_eq!(is_white_space(c), c.is_whitespace());
        }
    }
}

#[test]
fn trimming_agrees_with_std() {
    let samples = [
        "",
        " ",
        "\t\r\n",
        "a",
        " a ",
        "{\"x\": 1}\r\n",
        "\u{2003}при вет\u{3000}",
        "a  b",
        "\u{85}\u{200b}\u{85}",
    ];
    for s in samples {
        assert_eq!(trim(s), s.trim());
        assert_eq!(is_blank(s), s.trim().is_empty());
    }
}

#[test]
fn newline_at_the_end() {
    assert!(ends_with_newline("a\n"));
    assert!(ends_with_newline("\n"));
    assert!(!ends_with_newline(""));
    assert!(!ends_with_newline("a\nb"));
    assert!(!ends_with_newline("a\n\r"));
}

#[test]
fn host_stands_before_the_first_colon() {
    assert_eq!(host_of("chat.example.org:7777"), "chat.example.org");
    assert_eq!(host_of("chat.example.org"), "chat.example.org");
    assert_eq!(host_of("a:b:c"), "a");
    assert_eq!(host_of(":7777"), "");
    assert_eq!(host_of(""), "");
    assert_eq!(host_of("пример:1"), "пример");
}

#[test]
fn decimal_numbers() {
    for n in [0usize, 7, 10, 19, 100, 4096, 65535, usize::MAX] {
        assert_eq!(decimal_text(n), n.to_string());
    }
}

#[test]
fn numbers_of_the_screen() {
    assert_eq!(low32(7), 7);
    assert_eq!(low32(-1), -1);
    assert_eq!(low32(2147483647), 2147483647);
    assert_eq!(low32(2147483648), -2147483648);
    assert_eq!(low32(4294967301), 5);
    assert_eq!(low32(i64::MIN), 0);
    assert_eq!(count32(3), 3);
    assert_eq!(count32(4294967295), -1);
}
