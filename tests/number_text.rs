use tune_in::text::{chars_of, parse_number, string_of};

fn parse(s: &str, max: u32) -> Option<u32> {
    parse_number(&chars_of(s), max)
}

#[test]
fn parses_decimal_numbers() {
    assert_eq!(parse("0", 255), Some(0));
    assert_eq!(parse("255", 255), Some(255));
    assert_eq!(parse("+12", 255), Some(12));
    assert_eq!(parse("007", 255), Some(7));
    assert_eq!(parse("115200", u32::MAX), Some(115_200));
    assert_eq!(parse("4294967295", u32::MAX), Some(u32::MAX));
}

#[test]
fn refuses_what_parse_refuses() {
    assert_eq!(parse("", 255), None);
    assert_eq!(parse("+", 255), None);
    assert_eq!(parse("-1", 255), None);
    assert_eq!(parse("256", 255), None);
    assert_eq!(parse("1a", 255), None);
    assert_eq!(parse(" 1", 255), None);
    assert_eq!(parse("99999999999", u32::MAX), None);
    assert_eq!(parse("4294967296", u32::MAX), None);
}

#[test]
fn agrees_with_std_parse() {
    for s in ["0", "1", "+1", "++1", "12", "255", "256", "-0", "", "x", "1 ", "00255"] {
        assert_eq!(parse(s, 255), s.parse::<u8>().ok().map(u32::from), "{:?}", s);
    }
}

#[test]
fn chars_round_trip() {
    let v = chars_of("añb");
    assert_eq!(v, vec!['a', 'ñ', 'b']);
    assert_eq!(string_of(&v), "añb");
}
