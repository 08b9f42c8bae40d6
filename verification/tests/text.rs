//! Numbers by their bits, and text helpers.

use ferrosonic::binary64::Binary64;
use ferrosonic::counter::bumped;
use ferrosonic::secret::Secret;
use ferrosonic::strings::{
    chars_of, contains_text, decimal_text, find_char, find_from, holds_text, joined, parse_number,
    same_text, signed_decimal_text, slice_text, starts_with_char, trim_text,
};

const SAMPLES: [f64; 22] = [
    0.0,
    -0.0,
    f64::MIN_POSITIVE,
    5e-324,
    -5e-324,
    1.0,
    2.999_999_999_999_999_6,
    3.0,
    3.000_000_000_000_000_4,
    -3.0,
    14.999_999_999_999_998,
    15.0,
    15.000_000_000_000_002,
    -15.0,
    -15.000_000_000_000_002,
    1e300,
    f64::MAX,
    f64::MIN,
    f64::INFINITY,
    f64::NEG_INFINITY,
    f64::NAN,
    -f64::NAN,
];

#[test]
fn bits_compare_as_doubles_do() {
    for v in SAMPLES {
        let b = Binary64::from_bits(v.to_bits());
        assert_eq!(b.to_bits(), v.to_bits());
        assert_eq!(b.is_finite(), v.is_finite(), "{v}");
        assert_eq!(b.is_positive(), v > 0.0, "{v}");
        assert_eq!(b.is_below_three(), v < 3.0, "{v}");
        if v.is_finite() {
            let clamped = b.clamp_to_fifteen();
            assert_eq!(clamped.to_bits(), v.clamp(-15.0, 15.0).to_bits(), "{v}");
        }
    }
    assert_eq!(Binary64::zero().to_bits(), 0.0f64.to_bits());
}

#[test]
fn numbers_are_written_in_decimal() {
    for n in [0, 9, 10, 99, 100, 48_000, u64::from(u32::MAX), u64::MAX] {
        assert_eq!(decimal_text(n), n.to_string());
    }
    for n in [0, -1, 7, -128, i64::MIN, i64::MAX] {
        assert_eq!(signed_decimal_text(n), n.to_string());
    }
}

#[test]
fn numbers_are_read_as_std_reads_them() {
    for s in [
        "", "+", "-", "0", "+0", "007", "42", "+42", "-1", "++1", "4 2", "4294967295",
        "4294967296", "99999999999999999999", "1e3", "x",
    ] {
        let chars = chars_of(s);
        assert_eq!(
            parse_number(&chars, 0, chars.len(), u32::MAX),
            s.parse::<u32>().ok(),
            "{s:?}"
        );
    }
    assert_eq!(parse_number(&chars_of("a65535b"), 1, 6, 65_535), Some(65_535));
    assert_eq!(parse_number(&chars_of("65536"), 0, 5, 65_535), None);
}

#[test]
fn white_space_is_trimmed_as_std_trims_it() {
    for s in [
        "", " ", "a", " a ", "\t\r\n a b\u{a0}\u{2003}", "\u{85}x\u{3000}", "\u{200b}x", "x\u{feff}",
        "\u{1c}x",
    ] {
        assert_eq!(trim_text(s), s.trim(), "{s:?}");
    }
}

#[test]
fn searches_find_the_first_place() {
    let hay = chars_of("abcabc");
    assert_eq!(find_from(&hay, &chars_of("ca"), 0), Some(2));
    assert_eq!(find_from(&hay, &chars_of("abc"), 1), Some(3));
    assert_eq!(find_from(&hay, &chars_of("abc"), 4), None);
    assert_eq!(find_from(&hay, &chars_of(""), 6), Some(6));
    assert_eq!(find_from(&hay, &chars_of("abcabcd"), 0), None);
    assert_eq!(find_char(&hay, 'c', 3), Some(5));
    assert_eq!(find_char(&hay, 'z', 0), None);
    assert!(contains_text("s32p", "32") && !contains_text("s3p2", "32"));
    assert!(starts_with_char("/a", '/') && !starts_with_char("", '/'));
    assert!(same_text("\u{e4}", "\u{e4}") && !same_text("a", "ab"));
    assert!(holds_text(&vec!["a".into(), "b".into()], "b"));
    assert!(!holds_text(&vec!["a".into()], ""));
    assert_eq!(slice_text(&hay, 1, 3), "bc");
    assert_eq!(joined("a", "b"), "ab");
}

#[test]
fn counters_go_round() {
    assert_eq!(bumped(0), 1);
    assert_eq!(bumped(u64::MAX), 0);
}

#[test]
fn a_cleared_secret_is_empty() {
    let mut s = Secret::from_string("hunter2".into());
    assert_eq!(s.clone().expose(), "hunter2");
    assert!(!s.is_empty());
    s.clear();
    assert!(s.is_empty());
    assert_eq!(s.expose(), "");
    assert!(Secret::new().is_empty());
}
