use zoc::token::{get_digit_count, ByteIndex, UniverseLiteral};

#[test]
fn span__0_has_1_digit() {
    assert_eq!(1, get_digit_count(0));
}

#[test]
fn span__1_has_1_digit() {
    assert_eq!(1, get_digit_count(1));
}

#[test]
fn span__9_has_1_digit() {
    assert_eq!(1, get_digit_count(9));
}

#[test]
fn span__10_has_2_digits() {
    assert_eq!(2, get_digit_count(10));
}

#[test]
fn span__11_has_2_digits() {
    assert_eq!(2, get_digit_count(11));
}

#[test]
fn span__19_has_2_digits() {
    assert_eq!(2, get_digit_count(19));
}

#[test]
fn span__99_has_2_digits() {
    assert_eq!(2, get_digit_count(99));
}

#[test]
fn span__100_has_3_digits() {
    assert_eq!(3, get_digit_count(100));
}

#[test]
fn span__101_has_3_digits() {
    assert_eq!(3, get_digit_count(101));
}

#[test]
fn span__999_has_3_digits() {
    assert_eq!(3, get_digit_count(999));
}

#[test]
fn span__1000_has_4_digits() {
    assert_eq!(4, get_digit_count(1000));
}

#[test]
fn span__1001_has_4_digits() {
    assert_eq!(4, get_digit_count(1001));
}

#[test]
fn span__9999_has_4_digits() {
    assert_eq!(4, get_digit_count(9999));
}

#[test]
fn token__0_has_1_digit() {
    assert_eq!(1, get_digit_count(0));
}

#[test]
fn token__1_has_1_digit() {
    assert_eq!(1, get_digit_count(1));
}

#[test]
fn token__9_has_1_digit() {
    assert_eq!(1, get_digit_count(9));
}

#[test]
fn token__10_has_2_digits() {
    assert_eq!(2, get_digit_count(10));
}

#[test]
fn token__11_has_2_digits() {
    assert_eq!(2, get_digit_count(11));
}

#[test]
fn token__19_has_2_digits() {
    assert_eq!(2, get_digit_count(19));
}

#[test]
fn token__99_has_2_digits() {
    assert_eq!(2, get_digit_count(99));
}

#[test]
fn token__100_has_3_digits() {
    assert_eq!(3, get_digit_count(100));
}

#[test]
fn token__101_has_3_digits() {
    assert_eq!(3, get_digit_count(101));
}

#[test]
fn token__999_has_3_digits() {
    assert_eq!(3, get_digit_count(999));
}

#[test]
fn token__1000_has_4_digits() {
    assert_eq!(4, get_digit_count(1000));
}

#[test]
fn token__1001_has_4_digits() {
    assert_eq!(4, get_digit_count(1001));
}

#[test]
fn token__9999_has_4_digits() {
    assert_eq!(4, get_digit_count(9999));
}

#[test]
fn large_numbers_have_the_right_digit_count() {
    assert_eq!(5, get_digit_count(10000));
    assert_eq!(10, get_digit_count(4294967295));
    assert_eq!(20, get_digit_count(18446744073709551615));
    assert_eq!(19, get_digit_count(9999999999999999999));
}

#[test]
fn prop_literal_span_covers_keyword_and_digits() {
    let literal = UniverseLiteral { level: 12, start: ByteIndex(5), erasable: true };
    assert_eq!((ByteIndex(5), ByteIndex(11)), literal.span());
}

#[test]
fn set_literal_span_covers_keyword_and_digits() {
    let literal = UniverseLiteral { level: 0, start: ByteIndex(0), erasable: false };
    assert_eq!((ByteIndex(0), ByteIndex(4)), literal.span());
}

#[test]
fn set_literal_span_with_three_digit_level() {
    let literal = UniverseLiteral { level: 100, start: ByteIndex(7), erasable: false };
    assert_eq!((ByteIndex(7), ByteIndex(13)), literal.span());
}
