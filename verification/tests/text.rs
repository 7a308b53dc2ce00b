use janosik::text::{chars_of, push_decimal, push_signed_decimal, text_of};

fn decimal(n: u64) -> String {
    let mut out = String::new();
    push_decimal(&mut out, n);
    out
}

fn signed_decimal(n: i64) -> String {
    let mut out = String::new();
    push_signed_decimal(&mut out, n);
    out
}

#[test]
fn numerals_have_no_leading_zero() {
    assert_eq!(decimal(0), "0");
    assert_eq!(decimal(9), "9");
    assert_eq!(decimal(10), "10");
    assert_eq!(decimal(1234567890), "1234567890");
    assert_eq!(decimal(u64::MAX), "18446744073709551615");
}

#[test]
fn numerals_agree_with_the_standard_library() {
    for n in (0..5000u64).chain([99_999, 100_000, 1 << 32, u64::MAX - 1]) {
        assert_eq!(decimal(n), n.to_string());
    }
    for n in (-2500..2500i64).chain([i64::MIN, i64::MIN + 1, i64::MAX]) {
        assert_eq!(signed_decimal(n), n.to_string());
    }
}

#[test]
fn numerals_are_appended() {
    let mut out = String::from("nr ");
    push_decimal(&mut out, 42);
    push_signed_decimal(&mut out, -7);
    assert_eq!(out, "nr 42-7");
}

#[test]
fn different_numbers_have_different_numerals() {
    let numerals: Vec<String> = (0..2000).map(decimal).collect();
    for (i, numeral) in numerals.iter().enumerate() {
        assert_eq!(numerals.iter().position(|other| other == numeral), Some(i));
    }
}

#[test]
fn text_is_cut_by_characters() {
    let chars = chars_of("zażółć gęślą");
    assert_eq!(chars.len(), 12);
    assert_eq!(chars[2], 'ż');
    assert_eq!(text_of(&chars, 0, 12), "zażółć gęślą");
    assert_eq!(text_of(&chars, 2, 6), "żółć");
    assert_eq!(text_of(&chars, 5, 5), "");
    assert_eq!(chars_of(""), Vec::<char>::new());
}
