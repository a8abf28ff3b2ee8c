use r2wraith::text::{
    chars_of, concat2, concat3, decimal_text, flag_string, join_strings, quote, same_text,
    signed_decimal_text, trim, white_space,
};

#[test]
fn decimal_text_writes_zero() {
    assert_eq!(decimal_text(0), "0");
}

#[test]
fn decimal_text_writes_single_digits() {
    assert_eq!(decimal_text(7), "7");
    assert_eq!(decimal_text(9), "9");
}

#[test]
fn decimal_text_writes_round_numbers() {
    assert_eq!(decimal_text(10), "10");
    assert_eq!(decimal_text(100000), "100000");
}

#[test]
fn decimal_text_writes_a_port() {
    assert_eq!(decimal_text(40000), "40000");
    assert_eq!(decimal_text(37015), "37015");
}

#[test]
fn decimal_text_writes_the_largest_number() {
    assert_eq!(decimal_text(u64::MAX), "18446744073709551615");
}

#[test]
fn decimal_text_agrees_with_the_standard_library() {
    let mut n: u64 = 1;
    for _ in 0..19 {
        assert_eq!(decimal_text(n), n.to_string());
        assert_eq!(decimal_text(n - 1), (n - 1).to_string());
        n = n * 10;
    }
}

#[test]
fn signed_decimal_text_writes_a_minus_sign() {
    assert_eq!(signed_decimal_text(-1), "-1");
    assert_eq!(signed_decimal_text(-2024), "-2024");
    assert_eq!(signed_decimal_text(2024), "2024");
    assert_eq!(signed_decimal_text(0), "0");
}

#[test]
fn signed_decimal_text_writes_the_extremes() {
    assert_eq!(signed_decimal_text(i64::MIN), "-9223372036854775808");
    assert_eq!(signed_decimal_text(i64::MAX), "9223372036854775807");
}

#[test]
fn flag_string_is_zero_or_one() {
    assert_eq!(flag_string(true), "1");
    assert_eq!(flag_string(false), "0");
}

#[test]
fn join_strings_of_nothing_is_empty() {
    assert_eq!(join_strings(&vec![], " "), "");
}

#[test]
fn join_strings_of_one_part_has_no_separator() {
    assert_eq!(join_strings(&vec!["a".to_string()], ", "), "a");
}

#[test]
fn join_strings_puts_the_separator_between() {
    let parts = vec!["a".to_string(), "b".to_string(), "c".to_string()];
    assert_eq!(join_strings(&parts, " "), "a b c");
    assert_eq!(join_strings(&parts, ""), "abc");
}

#[test]
fn join_strings_keeps_empty_parts() {
    let parts = vec!["".to_string(), "x".to_string(), "".to_string()];
    assert_eq!(join_strings(&parts, "-"), "-x-");
}

#[test]
fn quote_puts_double_quotes_round_a_token() {
    assert_eq!(quote("+map"), "\"+map\"");
    assert_eq!(quote(""), "\"\"");
    assert_eq!(quote("a b"), "\"a b\"");
}

#[test]
fn concat_writes_texts_in_order() {
    assert_eq!(concat2("logs/", "a"), "logs/a");
    assert_eq!(concat3("NS_PORT", "=", "37015"), "NS_PORT=37015");
}

#[test]
fn chars_of_gives_each_character() {
    assert_eq!(chars_of("a/0"), vec!['a', '/', '0']);
    assert_eq!(chars_of(""), Vec::<char>::new());
    assert_eq!(chars_of("é√"), vec!['é', '√']);
}

#[test]
fn same_text_compares_texts() {
    assert!(same_text("abc", "abc"));
    assert!(!same_text("abc", "abd"));
    assert!(!same_text("abc", "ab"));
}

#[test]
fn trim_takes_the_white_space_off_the_ends() {
    assert_eq!(trim("  stopall\n"), "stopall");
    assert_eq!(trim("\t restart  a b \r\n"), "restart  a b");
    assert_eq!(trim("plain"), "plain");
    assert_eq!(trim(""), "");
    assert_eq!(trim(" \t\n"), "");
    assert_eq!(trim("x"), "x");
    assert_eq!(trim(" x"), "x");
    assert_eq!(trim("x "), "x");
}

#[test]
fn white_space_is_what_the_standard_library_takes_it_for() {
    for code in 0..=0x11_0000u32 {
        if let Some(c) = char::from_u32(code) {
            assert_eq!(white_space(c), c.is_whitespace(), "U+{:04X}", code);
        }
    }
}

#[test]
fn trim_agrees_with_the_standard_library() {
    let samples = [
        "",
        " ",
        "a",
        " a ",
        "\u{a0}a\u{3000}",
        "\u{2000}\u{200a} a b \u{2028}\u{2029}",
        "\u{200b}a\u{200b}",
        "\u{feff} a",
        "\u{85}\u{1680}é√\u{202f}\u{205f}",
        "\x0b\x0c text \x0b",
        " \u{1f600} ",
    ];
    for sample in samples {
        assert_eq!(trim(sample), sample.trim(), "{:?}", sample);
    }
}
