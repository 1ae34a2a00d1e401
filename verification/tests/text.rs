use pyrocast::text::{decimal_i64, decimal_isize, decimal_u64, decimal_usize, holds, parse_isize};

#[test]
fn numbers_are_written_in_decimal() {
    assert_eq!(decimal_u64(0), "0");
    assert_eq!(decimal_u64(7), "7");
    assert_eq!(decimal_u64(10), "10");
    assert_eq!(decimal_u64(1234567890), "1234567890");
    assert_eq!(decimal_u64(u64::MAX), u64::MAX.to_string());
    assert_eq!(decimal_usize(100), "100");
    assert_eq!(decimal_usize(usize::MAX), usize::MAX.to_string());
    assert_eq!(decimal_i64(0), "0");
    assert_eq!(decimal_i64(-1), "-1");
    assert_eq!(decimal_i64(-120), "-120");
    assert_eq!(decimal_i64(i64::MAX), i64::MAX.to_string());
    assert_eq!(decimal_i64(i64::MIN), i64::MIN.to_string());
    assert_eq!(decimal_isize(-42), "-42");
    assert_eq!(decimal_isize(isize::MIN), isize::MIN.to_string());
}

#[test]
fn decimal_writing_agrees_with_the_standard_library() {
    let mut n: u64 = 1;
    for _ in 0..64 {
        assert_eq!(decimal_u64(n), n.to_string());
        assert_eq!(decimal_u64(n - 1), (n - 1).to_string());
        assert_eq!(decimal_i64(-((n / 2) as i64)), (-((n / 2) as i64)).to_string());
        n = n.wrapping_mul(2);
    }
}

#[test]
fn integers_are_read_as_the_standard_library_reads_them() {
    let samples = [
        "", "0", "7", "+7", "-7", "007", "-0", "+0", "+", "-", "--1", "+-1", "1+", "12a", "a12",
        " 12", "12 ", "1_000", "1.0", "９", "9223372036854775807", "9223372036854775808",
        "-9223372036854775808", "-9223372036854775809", "00000000000000000000000000001",
        "99999999999999999999999999999999999999999999", "1570872415",
    ];
    for sample in samples {
        assert_eq!(parse_isize(sample), sample.parse::<isize>().ok(), "for {:?}", sample);
    }
    assert_eq!(parse_isize("1570872415"), Some(1570872415));
    assert_eq!(parse_isize("-12"), Some(-12));
    assert_eq!(parse_isize("abc"), None);
}

#[test]
fn holds_compares_an_optional_text() {
    assert!(holds(&Some(String::from("a")), "a"));
    assert!(!holds(&Some(String::from("a")), "b"));
    assert!(!holds(&None, ""));
}
