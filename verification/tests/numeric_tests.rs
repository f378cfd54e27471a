use mcp19061_calc::numeric::{is_whitespace, parse_usize, validate_steps};

#[test]
fn parse_plain_number() {
    assert_eq!(parse_usize("25"), Ok(25));
    assert_eq!(parse_usize("0"), Ok(0));
    assert_eq!(parse_usize("007"), Ok(7));
}

#[test]
fn parse_ignores_surrounding_whitespace() {
    assert_eq!(parse_usize("  25 \t"), Ok(25));
    assert_eq!(parse_usize("\u{a0}12\u{3000}"), Ok(12));
    assert_eq!(parse_usize("\n200\r\n"), Ok(200));
}

#[test]
fn parse_accepts_leading_plus() {
    assert_eq!(parse_usize("+7"), Ok(7));
    assert_eq!(parse_usize(" +40 "), Ok(40));
}

#[test]
fn parse_refuses_non_numbers() {
    assert_eq!(parse_usize(""), Err("Could not parse ''".to_string()));
    assert_eq!(parse_usize("   "), Err("Could not parse '   '".to_string()));
    assert_eq!(parse_usize("+"), Err("Could not parse '+'".to_string()));
    assert_eq!(parse_usize("-1"), Err("Could not parse '-1'".to_string()));
    assert_eq!(parse_usize("-0"), Err("Could not parse '-0'".to_string()));
    assert_eq!(parse_usize("1e3"), Err("Could not parse '1e3'".to_string()));
    assert_eq!(parse_usize("2 5"), Err("Could not parse '2 5'".to_string()));
    assert_eq!(parse_usize("25.0"), Err("Could not parse '25.0'".to_string()));
    assert_eq!(parse_usize("++3"), Err("Could not parse '++3'".to_string()));
}

#[test]
fn parse_refuses_overflow() {
    let max = usize::MAX.to_string();
    assert_eq!(parse_usize(&max), Ok(usize::MAX));
    let over = format!("{}0", max);
    assert_eq!(parse_usize(&over), Err(format!("Could not parse '{}'", over)));
    let over_then_junk = format!("{}0x", max);
    assert!(parse_usize(&over_then_junk).is_err());
}

#[test]
fn parse_agrees_with_std() {
    let cases = [
        "0", "1", "42", " 17 ", "+5", "-5", "", "+", "abc", "12a", "\t9\n", "99999999999999999999999",
        "\u{2003}8\u{205f}", "0x10", "1_000",
    ];
    for s in cases {
        let expected = s.trim().parse::<usize>().map_err(|_| format!("Could not parse '{s}'"));
        assert_eq!(parse_usize(s), expected, "input {:?}", s);
    }
}

#[test]
fn whitespace_agrees_with_std() {
    for u in 0u32..0x3100 {
        if let Some(c) = char::from_u32(u) {
            assert_eq!(is_whitespace(c), c.is_whitespace(), "char {:#x}", u);
        }
    }
    assert!(!is_whitespace('a'));
    assert!(!is_whitespace('\u{200b}'));
}

#[test]
fn steps_range() {
    assert_eq!(validate_steps(1), Ok(1));
    assert_eq!(validate_steps(25), Ok(25));
    assert_eq!(validate_steps(200), Ok(200));
    assert_eq!(validate_steps(0), Err("Steps should be between 1 and 200".to_string()));
    assert_eq!(validate_steps(201), Err("Steps should be between 1 and 200".to_string()));
}
