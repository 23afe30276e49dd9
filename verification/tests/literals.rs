use network_math::{format_integer, parse_integer, IntegerType, LiteralFault};

const ALL: [IntegerType; 8] = [
    IntegerType::U8,
    IntegerType::U16,
    IntegerType::U32,
    IntegerType::U64,
    IntegerType::I8,
    IntegerType::I16,
    IntegerType::I32,
    IntegerType::I64,
];

#[test]
fn plain_digits() {
    assert_eq!(parse_integer(IntegerType::U8, "0"), Ok(0));
    assert_eq!(parse_integer(IntegerType::U8, "255"), Ok(255));
    assert_eq!(parse_integer(IntegerType::U32, "28980"), Ok(28980));
    assert_eq!(parse_integer(IntegerType::I64, "9223372036854775807"), Ok(9223372036854775807));
    assert_eq!(parse_integer(IntegerType::U64, "18446744073709551615"), Ok(18446744073709551615));
}

#[test]
fn signs() {
    assert_eq!(parse_integer(IntegerType::I8, "-128"), Ok(-128));
    assert_eq!(parse_integer(IntegerType::I8, "+127"), Ok(127));
    assert_eq!(parse_integer(IntegerType::U8, "+7"), Ok(7));
    assert_eq!(parse_integer(IntegerType::I16, "-0"), Ok(0));
    assert_eq!(parse_integer(IntegerType::I64, "-9223372036854775808"), Ok(-9223372036854775808));
}

#[test]
fn minus_is_no_sign_of_an_unsigned_type() {
    assert_eq!(parse_integer(IntegerType::U8, "-0"), Err(LiteralFault::InvalidDigit));
    assert_eq!(parse_integer(IntegerType::U64, "-1"), Err(LiteralFault::InvalidDigit));
}

#[test]
fn leading_zeros_do_not_count() {
    assert_eq!(parse_integer(IntegerType::U8, "000000000000000000000000000000000000000255"), Ok(255));
    assert_eq!(parse_integer(IntegerType::I8, "-00128"), Ok(-128));
}

#[test]
fn empty_text() {
    for t in ALL {
        assert_eq!(parse_integer(t, ""), Err(LiteralFault::Empty));
    }
}

#[test]
fn text_that_is_no_number() {
    assert_eq!(parse_integer(IntegerType::I8, "-"), Err(LiteralFault::InvalidDigit));
    assert_eq!(parse_integer(IntegerType::I8, "+"), Err(LiteralFault::InvalidDigit));
    assert_eq!(parse_integer(IntegerType::I8, "--1"), Err(LiteralFault::InvalidDigit));
    assert_eq!(parse_integer(IntegerType::I8, "+-1"), Err(LiteralFault::InvalidDigit));
    assert_eq!(parse_integer(IntegerType::I8, "1 "), Err(LiteralFault::InvalidDigit));
    assert_eq!(parse_integer(IntegerType::I8, " 1"), Err(LiteralFault::InvalidDigit));
    assert_eq!(parse_integer(IntegerType::U32, "0x10"), Err(LiteralFault::InvalidDigit));
    assert_eq!(parse_integer(IntegerType::U32, "1_000"), Err(LiteralFault::InvalidDigit));
    assert_eq!(parse_integer(IntegerType::U32, "1e3"), Err(LiteralFault::InvalidDigit));
    assert_eq!(parse_integer(IntegerType::U32, "\u{663}"), Err(LiteralFault::InvalidDigit));
    assert_eq!(parse_integer(IntegerType::U32, "1/2"), Err(LiteralFault::InvalidDigit));
}

#[test]
fn numbers_outside_the_type() {
    assert_eq!(parse_integer(IntegerType::U8, "256"), Err(LiteralFault::TooLarge));
    assert_eq!(parse_integer(IntegerType::I8, "128"), Err(LiteralFault::TooLarge));
    assert_eq!(parse_integer(IntegerType::I8, "-129"), Err(LiteralFault::TooSmall));
    assert_eq!(parse_integer(IntegerType::U16, "65536"), Err(LiteralFault::TooLarge));
    assert_eq!(parse_integer(IntegerType::I32, "2147483648"), Err(LiteralFault::TooLarge));
    assert_eq!(parse_integer(IntegerType::I32, "-2147483649"), Err(LiteralFault::TooSmall));
    assert_eq!(parse_integer(IntegerType::U64, "18446744073709551616"), Err(LiteralFault::TooLarge));
    assert_eq!(parse_integer(IntegerType::I64, "9223372036854775808"), Err(LiteralFault::TooLarge));
    assert_eq!(parse_integer(IntegerType::I64, "-9223372036854775809"), Err(LiteralFault::TooSmall));
}

#[test]
fn numbers_of_any_length() {
    let long = "9".repeat(500);
    assert_eq!(parse_integer(IntegerType::U64, &long), Err(LiteralFault::TooLarge));
    let negative = format!("-{}", long);
    assert_eq!(parse_integer(IntegerType::I64, &negative), Err(LiteralFault::TooSmall));
    let spoiled = format!("{}x", long);
    assert_eq!(parse_integer(IntegerType::U64, &spoiled), Err(LiteralFault::InvalidDigit));
    assert_eq!(parse_integer(IntegerType::U8, "184467440737095516160000"), Err(LiteralFault::TooLarge));
}

#[test]
fn canonical_text() {
    assert_eq!(format_integer(0), "0");
    assert_eq!(format_integer(7), "7");
    assert_eq!(format_integer(10), "10");
    assert_eq!(format_integer(-1), "-1");
    assert_eq!(format_integer(13), "13");
    assert_eq!(format_integer(1000000), "1000000");
    assert_eq!(format_integer(18446744073709551615), "18446744073709551615");
    assert_eq!(format_integer(-9223372036854775808), "-9223372036854775808");
    assert_eq!(format_integer(i128::MAX), i128::MAX.to_string());
    assert_eq!(format_integer(i128::MIN), i128::MIN.to_string());
}

#[test]
fn text_of_a_value_reads_back_as_the_value() {
    for t in ALL {
        let lowest = t.lowest();
        let highest = t.highest();
        for v in [lowest, lowest + 1, -1, 0, 1, 9, 10, 99, 100, 101, highest - 1, highest] {
            if lowest <= v && v <= highest {
                assert_eq!(parse_integer(t, &format_integer(v)), Ok(v));
                assert_eq!(format_integer(v), v.to_string());
            }
        }
    }
}

#[test]
fn reading_agrees_with_the_primitive_types() {
    for text in ["", "+", "-", "0", "-0", "+0", "255", "256", "-128", "-129", "127", "128", "00", "1x", "x1"] {
        assert_eq!(parse_integer(IntegerType::U8, text).ok(), text.parse::<u8>().ok().map(i128::from), "{}", text);
        assert_eq!(parse_integer(IntegerType::I8, text).ok(), text.parse::<i8>().ok().map(i128::from), "{}", text);
    }
}

#[test]
fn ranges_of_the_types() {
    assert_eq!((IntegerType::U8.lowest(), IntegerType::U8.highest()), (0, 255));
    assert_eq!((IntegerType::I8.lowest(), IntegerType::I8.highest()), (-128, 127));
    assert_eq!((IntegerType::U16.lowest(), IntegerType::U16.highest()), (0, 65535));
    assert_eq!((IntegerType::I16.lowest(), IntegerType::I16.highest()), (-32768, 32767));
    assert_eq!((IntegerType::U32.lowest(), IntegerType::U32.highest()), (0, 4294967295));
    assert_eq!((IntegerType::I32.lowest(), IntegerType::I32.highest()), (-2147483648, 2147483647));
    assert_eq!((IntegerType::U64.lowest(), IntegerType::U64.highest()), (0, 18446744073709551615));
    assert_eq!(
        (IntegerType::I64.lowest(), IntegerType::I64.highest()),
        (-9223372036854775808, 9223372036854775807)
    );
    for t in ALL {
        assert_eq!(t.cardinality(), 1i128 << t.width());
        assert_eq!(t.signed(), t.lowest() < 0);
    }
}
