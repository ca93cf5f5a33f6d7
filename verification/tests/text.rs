use speedtest_pro_backend::fixed::Fixed;
use speedtest_pro_backend::services::ai_insights::AINetworkAnalyzer;
use speedtest_pro_backend::text::{
    digit_str, format_fixed, is_whitespace, lines_trimmed, padded_text, parse_number, pow10_u64,
    push_string, push_text, strip_prefix, text_is, u64_text,
};

fn fx(x: f64) -> Fixed {
    Fixed::from_micros((x * 1_000_000.0).round() as i64)
}

#[test]
fn digits() {
    let all: Vec<&str> = (0u8..10).map(digit_str).collect();
    assert_eq!(all, vec!["0", "1", "2", "3", "4", "5", "6", "7", "8", "9"]);
}

#[test]
fn decimal_text_of_integers() {
    assert_eq!(u64_text(0), "0");
    assert_eq!(u64_text(7), "7");
    assert_eq!(u64_text(10), "10");
    assert_eq!(u64_text(1234567890), "1234567890");
    assert_eq!(u64_text(u64::MAX), "18446744073709551615");
}

#[test]
fn padded_digits() {
    assert_eq!(padded_text(5, 2), "05");
    assert_eq!(padded_text(0, 3), "000");
    assert_eq!(padded_text(123456, 2), "56");
    assert_eq!(padded_text(42, 0), "");
}

#[test]
fn powers_of_ten() {
    let all: Vec<u64> = (0u8..7).map(pow10_u64).collect();
    assert_eq!(all, vec![1, 10, 100, 1_000, 10_000, 100_000, 1_000_000]);
}

#[test]
fn fixed_text_matches_float_formatting_on_exact_values() {
    for v in [0.0, 1.0, 15.0, 95.5, 0.5, 1.5, 2.5, 3.5, 0.25, 0.75, 0.125, 0.375, 1234.0625] {
        assert_eq!(format_fixed(fx(v), 0), format!("{:.0}", v), "{v} with 0 places");
        assert_eq!(format_fixed(fx(v), 1), format!("{:.1}", v), "{v} with 1 place");
        assert_eq!(format_fixed(fx(v), 2), format!("{:.2}", v), "{v} with 2 places");
        if v != 0.0 {
            assert_eq!(format_fixed(fx(-v), 1), format!("{:.1}", -v), "-{v} with 1 place");
        }
    }
}

#[test]
fn fixed_text_rounds_ties_to_even() {
    assert_eq!(format_fixed(fx(0.5), 0), "0");
    assert_eq!(format_fixed(fx(1.5), 0), "2");
    assert_eq!(format_fixed(fx(2.5), 0), "2");
    assert_eq!(format_fixed(fx(0.25), 1), "0.2");
    assert_eq!(format_fixed(fx(0.35), 1), "0.4");
    assert_eq!(format_fixed(fx(0.45), 1), "0.4");
    assert_eq!(format_fixed(fx(99.995), 2), "100.00");
    assert_eq!(format_fixed(fx(99.985), 2), "99.98");
}

#[test]
fn fixed_text_of_negative_numbers_keeps_the_sign() {
    assert_eq!(format_fixed(fx(-0.4), 0), "-0");
    assert_eq!(format_fixed(fx(-12.34), 1), "-12.3");
    assert_eq!(format_fixed(Fixed::from_micros(i64::MIN), 0), "-9223372036855");
    assert_eq!(format_fixed(Fixed::from_micros(i64::MAX), 6), "9223372036854.775807");
}

#[test]
fn fixed_text_with_every_number_of_places() {
    let x = Fixed::from_micros(3_141_593);
    assert_eq!(format_fixed(x, 0), "3");
    assert_eq!(format_fixed(x, 1), "3.1");
    assert_eq!(format_fixed(x, 2), "3.14");
    assert_eq!(format_fixed(x, 3), "3.142");
    assert_eq!(format_fixed(x, 4), "3.1416");
    assert_eq!(format_fixed(x, 5), "3.14159");
    assert_eq!(format_fixed(x, 6), "3.141593");
}

#[test]
fn text_comparison() {
    assert!(text_is(&"gaming".to_string(), "gaming"));
    assert!(!text_is(&"Gaming".to_string(), "gaming"));
    assert!(!text_is(&"gaming ".to_string(), "gaming"));
}

#[test]
fn pushing_texts() {
    let mut list = vec!["a".to_string()];
    push_text(&mut list, "b");
    push_string(&mut list, "c".to_string());
    assert_eq!(list, vec!["a", "b", "c"]);
}

#[test]
fn stripping_a_prefix() {
    assert_eq!(strip_prefix("sqlite://data.db", "sqlite://"), Some("data.db"));
    assert_eq!(strip_prefix("sqlite:data.db", "sqlite://"), None);
    assert_eq!(strip_prefix("abc", "abc"), Some(""));
    assert_eq!(strip_prefix("ab", "abc"), None);
    assert_eq!(strip_prefix("abc", ""), Some("abc"));
    assert_eq!(strip_prefix("日本語のパス", "日本"), Some("語のパス"));
}

#[test]
fn parsing_numbers() {
    assert_eq!(parse_number("8080", 65535), Some(8080));
    assert_eq!(parse_number("+8080", 65535), Some(8080));
    assert_eq!(parse_number("0", 65535), Some(0));
    assert_eq!(parse_number("007", 65535), Some(7));
    assert_eq!(parse_number("65535", 65535), Some(65535));
    assert_eq!(parse_number("65536", 65535), None);
    assert_eq!(parse_number("", 65535), None);
    assert_eq!(parse_number("+", 65535), None);
    assert_eq!(parse_number("-1", 65535), None);
    assert_eq!(parse_number("12a", 65535), None);
    assert_eq!(parse_number(" 12", 65535), None);
    assert_eq!(parse_number("1.5", 65535), None);
    assert_eq!(parse_number("18446744073709551615", u64::MAX), Some(u64::MAX));
    assert_eq!(parse_number("18446744073709551616", u64::MAX), None);
    assert_eq!(parse_number("99999999999999999999999", u64::MAX), None);
}

#[test]
fn parsing_agrees_with_the_standard_library() {
    for text in ["0", "1", "+1", "++1", "255", "256", "0255", "", "+", "x", "1x", "٣"] {
        assert_eq!(
            parse_number(text, 255),
            text.parse::<u8>().ok().map(u64::from),
            "{text:?}"
        );
    }
}

#[test]
fn white_space_is_what_the_standard_library_takes_for_it() {
    let mut spaces = 0;
    for code in 0..=0x10ffffu32 {
        if let Some(c) = char::from_u32(code) {
            assert_eq!(is_whitespace(c), c.is_whitespace(), "U+{code:04X}");
            if is_whitespace(c) {
                spaces += 1;
            }
        }
    }
    assert_eq!(spaces, 25);
}

fn lines_by_the_standard_library(text: &str) -> Vec<String> {
    text.lines().filter(|line| !line.trim().is_empty()).map(|line| line.trim().to_string()).collect()
}

#[test]
fn lines_without_their_white_space() {
    assert_eq!(
        lines_trimmed("1. Gaming lag\n   2. Frozen calls  \n\n\t\n3. Buffering"),
        vec!["1. Gaming lag", "2. Frozen calls", "3. Buffering"]
    );
    assert_eq!(lines_trimmed("one line"), vec!["one line"]);
    assert_eq!(lines_trimmed("  inner  space stays  "), vec!["inner  space stays"]);
    assert_eq!(lines_trimmed("a\r\nb\r\n"), vec!["a", "b"]);
    assert_eq!(lines_trimmed("\n\nlast"), vec!["last"]);
    assert_eq!(lines_trimmed("first\n\n"), vec!["first"]);
    assert!(lines_trimmed("").is_empty());
    assert!(lines_trimmed("\n").is_empty());
    assert!(lines_trimmed(" \u{a0}\u{3000}\t\r\n \n").is_empty());
    assert_eq!(lines_trimmed("\u{2003}• ラグ\u{2003}\n• 遅延"), vec!["• ラグ", "• 遅延"]);
    assert_eq!(lines_trimmed("x"), vec!["x"]);
    assert_eq!(lines_trimmed(" x"), vec!["x"]);
    assert_eq!(lines_trimmed("x "), vec!["x"]);
}

#[test]
fn lines_agree_with_the_standard_library() {
    let texts = [
        "",
        "\n",
        "a",
        "a\n",
        "\na",
        "a\n\nb",
        " a \n b \n",
        "a\rb\nc",
        "\r\n\r\n",
        "a \u{85} b\n\u{85}c\u{85}",
        "tab\there\n\x0b\x0c\n end",
        "- Lag in games\n- Choppy calls\n\nOverall: fine.\n",
    ];
    for text in texts {
        assert_eq!(lines_trimmed(text), lines_by_the_standard_library(text), "{text:?}");
        assert_eq!(AINetworkAnalyzer::predictions_from(text), lines_trimmed(text));
    }
}
