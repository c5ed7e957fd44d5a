use rust_ui::text::{
    char_is_white_space, chars_are_blank, digit_of, join_strings, push_decimal,
    push_decimal_i32, string_of_chars,
};

#[test]
fn white_space_is_what_the_standard_library_trims() {
    for code in 0..=0x10FFFFu32 {
        if let Some(c) = char::from_u32(code) {
            assert_eq!(char_is_white_space(c), c.is_whitespace(), "U+{:04X}", code);
        }
    }
}

#[test]
fn blank_means_that_trimming_leaves_nothing() {
    let cases = [
        "", " ", "\t\n\r ", "\u{a0}\u{2003}\u{3000}", "a", " a ", "\u{200b}", " \u{feff}", "가",
        "  .", "\u{85}\u{1680}\u{2028}\u{2029}\u{202f}\u{205f}",
    ];
    for text in cases.iter() {
        let chars: Vec<char> = text.chars().collect();
        assert_eq!(chars_are_blank(&chars), text.trim().is_empty(), "{:?}", text);
    }
}

#[test]
fn a_string_of_scalars_holds_them_in_order() {
    assert_eq!(string_of_chars(&Vec::new()), "");
    assert_eq!(string_of_chars(&vec!['a', '🎲', '한', '\n', 'z']), "a🎲한\nz");
}

#[test]
fn lines_are_joined_with_line_feeds() {
    assert_eq!(join_strings(&Vec::new()), "");
    assert_eq!(join_strings(&vec!["only".to_string()]), "only");
    assert_eq!(join_strings(&vec!["a".to_string(), "".to_string(), "c".to_string()]), "a\n\nc");
    assert_eq!(join_strings(&vec!["".to_string(), "".to_string()]), "\n");
    let many: Vec<String> = (0..100).map(|i| format!("l{}", i)).collect();
    assert_eq!(join_strings(&many), many.join("\n"));
}

#[test]
fn digits_are_the_decimal_digits() {
    for d in 0..10u32 {
        assert_eq!(digit_of(d), char::from_digit(d, 10).unwrap());
    }
}

#[test]
fn numbers_are_written_without_leading_zeros() {
    for n in [0u32, 1, 9, 10, 11, 99, 100, 1234567890, u32::MAX] {
        let mut out = String::from("n=");
        push_decimal(&mut out, n);
        assert_eq!(out, format!("n={}", n));
    }
}

#[test]
fn negative_numbers_have_a_minus_sign() {
    for n in [0i32, 1, -1, 42, -42, 1000, -1000, i32::MAX, i32::MIN, i32::MIN + 1] {
        let mut out = String::new();
        push_decimal_i32(&mut out, n);
        assert_eq!(out, n.to_string());
    }
}
