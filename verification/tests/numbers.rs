use dbflux::numbers::{parse_bounded, u64_to_decimal};

#[test]
fn decimal_spelling_matches_to_string() {
    for n in [0u64, 7, 10, 99, 1000, u64::MAX] {
        assert_eq!(u64_to_decimal(n), n.to_string());
    }
}

#[test]
fn parsing_matches_str_parse() {
    for text in ["0", "42", "+42", "007", "", "+", "-1", "4 2", "18446744073709551615", "18446744073709551616"] {
        assert_eq!(parse_bounded(text, u64::MAX), text.parse::<u64>().ok(), "{text}");
        assert_eq!(parse_bounded(text, u32::MAX as u64), text.parse::<u32>().ok().map(u64::from), "{text}");
    }
}

#[test]
fn decimal_spelling_parses_back() {
    for n in [0u64, 7, 10, 1000, u64::MAX] {
        let spelled = dbflux::numbers::u64_to_decimal(n);
        assert_eq!(spelled, n.to_string());
        assert_eq!(dbflux::numbers::parse_bounded(&spelled, u64::MAX), Some(n));
    }
}
