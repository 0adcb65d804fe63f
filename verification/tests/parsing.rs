use staff_rpc::error::{IntegerError, ParseError};
use staff_rpc::fields::{read_field, FieldValue};
use staff_rpc::catalog::FieldType;
use staff_rpc::parse::{parse_bool, parse_hrs, parse_i32, parse_id};
use staff_rpc::text::integer;

#[test]
fn bool_accepts_the_spellings_of_true() {
    for v in ["y", "Y", "true", "T", "t", "TRUE", "True", "tRuE"] {
        assert_eq!(parse_bool(v), Ok(true), "{v}");
    }
}

#[test]
fn bool_accepts_the_spellings_of_false() {
    for v in ["n", "N", "false", "F", "f", "FALSE", "False"] {
        assert_eq!(parse_bool(v), Ok(false), "{v}");
    }
}

#[test]
fn bool_rejects_everything_else() {
    for v in ["", "maybe", "yes", "no", "1", "0", " y", "y ", "tr ue", "truee", "\u{212a}"] {
        assert_eq!(parse_bool(v), Err(ParseError::InvalidBoolean), "{v:?}");
    }
}

#[test]
fn bool_error_wording() {
    assert_eq!(ParseError::InvalidBoolean.message(), "Invalid boolean");
}

#[test]
fn hours_of_each_unit() {
    assert_eq!(parse_hrs("1 day"), Ok(24));
    assert_eq!(parse_hrs("2 weeks"), Ok(336));
    assert_eq!(parse_hrs("1 year"), Ok(8760));
    assert_eq!(parse_hrs("3 months"), Ok(2160));
    assert_eq!(parse_hrs("5 hours"), Ok(5));
}

#[test]
fn hours_of_every_spelling() {
    for u in ["years", "year", "y"] {
        assert_eq!(parse_hrs(&format!("2 {u}")), Ok(2 * 365 * 24), "{u}");
    }
    for u in ["months", "month", "mo", "m"] {
        assert_eq!(parse_hrs(&format!("2 {u}")), Ok(2 * 30 * 24), "{u}");
    }
    for u in ["weeks", "week", "w"] {
        assert_eq!(parse_hrs(&format!("2 {u}")), Ok(2 * 7 * 24), "{u}");
    }
    for u in ["days", "day", "d"] {
        assert_eq!(parse_hrs(&format!("2 {u}")), Ok(48), "{u}");
    }
    for u in ["hours", "hour", "hrs", "hr", "h"] {
        assert_eq!(parse_hrs(&format!("2 {u}")), Ok(2), "{u}");
    }
}

#[test]
fn hours_may_be_signed() {
    assert_eq!(parse_hrs("-1 day"), Ok(-24));
    assert_eq!(parse_hrs("+4 w"), Ok(672));
    assert_eq!(parse_hrs("0 years"), Ok(0));
}

#[test]
fn hours_need_exactly_one_space() {
    for v in ["5", "", "5days", "5  days", "5 days ", " 5 days", "5 d ays", "1 2 3"] {
        assert_eq!(parse_hrs(v), Err(ParseError::DurationFormat), "{v:?}");
    }
}

#[test]
fn hours_need_a_known_unit() {
    for v in ["5 fortnights", "5 Days", "5 ", "5 minutes", "5 yrs"] {
        assert_eq!(parse_hrs(v), Err(ParseError::DurationUnit), "{v:?}");
    }
}

#[test]
fn hours_report_the_number_before_the_unit() {
    assert_eq!(parse_hrs("x days"), Err(ParseError::Integer(IntegerError::InvalidDigit)));
    assert_eq!(parse_hrs("x fortnights"), Err(ParseError::Integer(IntegerError::InvalidDigit)));
    assert_eq!(parse_hrs(" days"), Err(ParseError::Integer(IntegerError::Empty)));
    assert_eq!(
        parse_hrs("99999999999 days"),
        Err(ParseError::Integer(IntegerError::PosOverflow))
    );
    assert_eq!(
        parse_hrs("-99999999999 days"),
        Err(ParseError::Integer(IntegerError::NegOverflow))
    );
}

#[test]
fn hours_must_fit() {
    assert_eq!(parse_hrs("245147 years"), Err(ParseError::DurationRange));
    assert_eq!(parse_hrs("245146 years"), Ok(2147478960));
    assert_eq!(parse_hrs("-245146 years"), Ok(-2147478960));
    assert_eq!(parse_hrs("-245147 years"), Err(ParseError::DurationRange));
    assert_eq!(parse_hrs("2147483647 hours"), Ok(i32::MAX));
    assert_eq!(parse_hrs("-2147483648 h"), Ok(i32::MIN));
    assert_eq!(parse_hrs("2147483647 days"), Err(ParseError::DurationRange));
}

#[test]
fn duration_error_wording() {
    assert_eq!(
        ParseError::DurationFormat.message(),
        "Invalid time format. Format must be WITH A SPACE BETWEEN THE NUMBER AND THE UNIT"
    );
    assert_eq!(
        ParseError::DurationUnit.message(),
        "Invalid time format. Unit must be years, months, weeks, days or hours"
    );
    assert_eq!(
        ParseError::DurationRange.message(),
        "Invalid time format. The period does not fit in a whole number of hours"
    );
    assert_eq!(ParseError::Missing.message(), "No value given");
}

#[test]
fn integers_in_range() {
    assert_eq!(parse_i32("0"), Ok(0));
    assert_eq!(parse_i32("42"), Ok(42));
    assert_eq!(parse_i32("-42"), Ok(-42));
    assert_eq!(parse_i32("+42"), Ok(42));
    assert_eq!(parse_i32("007"), Ok(7));
    assert_eq!(parse_i32("-0"), Ok(0));
    assert_eq!(parse_i32("2147483647"), Ok(i32::MAX));
    assert_eq!(parse_i32("-2147483648"), Ok(i32::MIN));
    assert_eq!(parse_i32("00000000002147483647"), Ok(i32::MAX));
}

#[test]
fn integers_refused() {
    assert_eq!(parse_i32(""), Err(ParseError::Integer(IntegerError::Empty)));
    for v in ["+", "-", "a", "1a", "a1", " 1", "1 ", "1_000", "--1", "+-1", "1.5", "0x10", "１"] {
        assert_eq!(parse_i32(v), Err(ParseError::Integer(IntegerError::InvalidDigit)), "{v:?}");
    }
    assert_eq!(parse_i32("2147483648"), Err(ParseError::Integer(IntegerError::PosOverflow)));
    assert_eq!(parse_i32("-2147483649"), Err(ParseError::Integer(IntegerError::NegOverflow)));
}

#[test]
fn integers_report_the_first_fault_from_the_left() {
    assert_eq!(parse_i32("99999999999x"), Err(ParseError::Integer(IntegerError::PosOverflow)));
    assert_eq!(parse_i32("-99999999999x"), Err(ParseError::Integer(IntegerError::NegOverflow)));
    assert_eq!(parse_i32("1x99999999999"), Err(ParseError::Integer(IntegerError::InvalidDigit)));
    assert_eq!(parse_i32("214748364x"), Err(ParseError::Integer(IntegerError::InvalidDigit)));
}

#[test]
fn integers_agree_with_the_standard_parser() {
    let samples = [
        "", "+", "-", "0", "-0", "+0", "1", "-1", "12", "2147483647", "2147483648", "-2147483648",
        "-2147483649", "99999999999", "-99999999999", "99999999999x", "x99999999999", "12a", "a12",
        " 12", "12 ", "+-3", "-+3", "++3", "0000000000000000000000012", "4294967296", "1e3",
        "٣", "3\u{0}", "--", "2147483647 ", "-2147483648x", "21474836470", "-21474836480",
    ];
    for s in samples {
        let ours = parse_i32(s);
        let theirs = s.parse::<i32>();
        match (ours, theirs) {
            (Ok(a), Ok(b)) => assert_eq!(a, b, "{s:?}"),
            (Err(ParseError::Integer(e)), Err(t)) => assert_eq!(e.message(), t.to_string(), "{s:?}"),
            (a, b) => panic!("{s:?}: {a:?} against {b:?}"),
        }
    }
    for n in -1100i32..1100 {
        assert_eq!(parse_i32(&n.to_string()), Ok(n));
    }
}

#[test]
fn integer_error_wording() {
    assert_eq!(IntegerError::Empty.message(), "cannot parse integer from empty string");
    assert_eq!(IntegerError::InvalidDigit.message(), "invalid digit found in string");
    assert_eq!(IntegerError::PosOverflow.message(), "number too large to fit in target type");
    assert_eq!(IntegerError::NegOverflow.message(), "number too small to fit in target type");
}

#[test]
fn fields_are_read_by_their_type() {
    assert_eq!(read_field(FieldType::Id, " 12 "), Ok(FieldValue::Text(" 12 ".to_string())));
    assert_eq!(read_field(FieldType::Text, ""), Ok(FieldValue::Text(String::new())));
    assert_eq!(read_field(FieldType::Flag, "Y"), Ok(FieldValue::Flag(true)));
    assert_eq!(read_field(FieldType::Flag, "maybe"), Err(ParseError::InvalidBoolean));
    assert_eq!(read_field(FieldType::Integer, "-7"), Ok(FieldValue::Number(-7)));
    assert_eq!(
        read_field(FieldType::Integer, "seven"),
        Err(ParseError::Integer(IntegerError::InvalidDigit))
    );
    assert_eq!(read_field(FieldType::Duration, "2 weeks"), Ok(FieldValue::Number(336)));
    assert_eq!(read_field(FieldType::Duration, "2"), Err(ParseError::DurationFormat));
}

#[test]
fn what_is_written_is_read_back() {
    for n in [0, 1, -1, 9, 10, -10, 123456, i32::MAX, i32::MIN, i32::MAX - 1, i32::MIN + 1] {
        assert_eq!(parse_i32(&integer(n as i64)), Ok(n));
    }
    assert_eq!(
        parse_i32(&integer(i32::MAX as i64 + 1)),
        Err(ParseError::Integer(IntegerError::PosOverflow))
    );
    assert_eq!(
        parse_i32(&integer(i32::MIN as i64 - 1)),
        Err(ParseError::Integer(IntegerError::NegOverflow))
    );
}

#[test]
fn ids_are_unsigned_numbers() {
    assert_eq!(parse_id("0"), Some(0));
    assert_eq!(parse_id("815553000470478850"), Some(815553000470478850));
    assert_eq!(parse_id("18446744073709551615"), Some(u64::MAX));
    assert_eq!(parse_id("0018446744073709551615"), Some(u64::MAX));
    for v in ["", "+1", "-1", "1 ", "x", "1x", "18446744073709551616", "184467440737095516150"] {
        assert_eq!(parse_id(v), None, "{v:?}");
    }
    for n in 0..1500u64 {
        assert_eq!(parse_id(&n.to_string()), Some(n));
    }
}
