use ytbv::text::{
    chars_of, is_ascii_alphanumeric, is_whitespace, push_decimal, push_decimal_wide,
    push_two_digits, to_ascii_lowercase, trim,
};

#[test]
fn character_classes_agree_with_std() {
    for code in 0u32..=0x10ffff {
        if let Some(c) = char::from_u32(code) {
            assert_eq!(is_whitespace(c), c.is_whitespace(), "white space at {code:#x}");
            assert_eq!(is_ascii_alphanumeric(c), c.is_ascii_alphanumeric(), "class at {code:#x}");
            assert_eq!(to_ascii_lowercase(c), c.to_ascii_lowercase(), "lower case at {code:#x}");
        }
    }
}

#[test]
fn trim_removes_white_space_at_both_ends() {
    assert_eq!(trim("  test \n"), "test");
    assert_eq!(trim("a b"), "a b");
    assert_eq!(trim("\u{3000}x y\u{a0}\t"), "x y");
    assert_eq!(trim(""), "");
    assert_eq!(trim(" \t\r\n"), "");
    assert_eq!(trim("é "), "é");
}

#[test]
fn trim_agrees_with_std() {
    let samples = ["", " ", "x", " x", "x ", "  x  y  ", "\u{2003}wide\u{2003}", "\u{200b}zero\u{200b}"];
    for s in samples.iter() {
        assert_eq!(trim(s), s.trim());
    }
}

#[test]
fn decimal_agrees_with_std() {
    let samples: [u64; 9] = [0, 1, 9, 10, 99, 100, 12345, 1_000_000_007, u64::MAX];
    for &n in samples.iter() {
        let mut out = String::from("n=");
        push_decimal(&mut out, n);
        assert_eq!(out, format!("n={n}"));
        let mut padded = String::new();
        push_two_digits(&mut padded, n);
        assert_eq!(padded, format!("{n:02}"));
    }
}

#[test]
fn characters_are_listed_one_by_one() {
    assert_eq!(chars_of("héllo"), vec!['h', 'é', 'l', 'l', 'o']);
    assert_eq!(chars_of(""), Vec::<char>::new());
}

#[test]
fn wide_numbers_are_written_in_full() {
    let mut out = String::new();
    push_decimal_wide(&mut out, u128::MAX);
    assert_eq!(out, format!("{}", u128::MAX));
}
