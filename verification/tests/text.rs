use knob::decimal::{parse_signed, parse_unsigned, write_signed, write_unsigned};
use knob::text::{FromText, ToText};

const SAMPLES: [&str; 40] = [
    "", "0", "7", "9", "10", "42", "255", "256", "00012", "000", "+5", "+0", "+", "-", "-0", "-5",
    "--5", "+-5", "-+5", "5-", "5+", " 5", "5 ", "1_000", "1.0", "1e3", "0x10", "12a", "a12",
    "65535", "65536", "4294967295", "4294967296", "9223372036854775807", "9223372036854775808",
    "-9223372036854775808", "-9223372036854775809", "18446744073709551615",
    "18446744073709551616", "\u{663}\u{664}",
];

#[test]
fn unsigned_text_is_the_decimal_text() {
    for n in [0u64, 1, 9, 10, 11, 99, 100, 101, 12345, 3000, 65535, 4294967296, u64::MAX] {
        assert_eq!(write_unsigned(n), n.to_string());
        assert_eq!(n.to_text(), n.to_string());
    }
    assert_eq!(write_unsigned(1907), "1907");
    assert_eq!(write_unsigned(u64::MAX), "18446744073709551615");
}

#[test]
fn signed_text_is_the_decimal_text() {
    for i in [0i64, 1, -1, 9, -9, 10, -10, 12345, -12345, i64::MAX, i64::MIN, i64::MIN + 1] {
        assert_eq!(write_signed(i), i.to_string());
        assert_eq!(i.to_text(), i.to_string());
    }
    assert_eq!(write_signed(-40), "-40");
    assert_eq!(write_signed(i64::MIN), "-9223372036854775808");
}

#[test]
fn unsigned_reading_agrees_with_the_standard_library() {
    for s in SAMPLES {
        assert_eq!(u8::from_text(s), s.parse::<u8>().ok(), "u8 from {:?}", s);
        assert_eq!(u16::from_text(s), s.parse::<u16>().ok(), "u16 from {:?}", s);
        assert_eq!(u32::from_text(s), s.parse::<u32>().ok(), "u32 from {:?}", s);
        assert_eq!(u64::from_text(s), s.parse::<u64>().ok(), "u64 from {:?}", s);
        assert_eq!(usize::from_text(s), s.parse::<usize>().ok(), "usize from {:?}", s);
    }
}

#[test]
fn signed_reading_agrees_with_the_standard_library() {
    for s in SAMPLES {
        assert_eq!(i8::from_text(s), s.parse::<i8>().ok(), "i8 from {:?}", s);
        assert_eq!(i16::from_text(s), s.parse::<i16>().ok(), "i16 from {:?}", s);
        assert_eq!(i32::from_text(s), s.parse::<i32>().ok(), "i32 from {:?}", s);
        assert_eq!(i64::from_text(s), s.parse::<i64>().ok(), "i64 from {:?}", s);
        assert_eq!(isize::from_text(s), s.parse::<isize>().ok(), "isize from {:?}", s);
    }
    for s in ["-128", "-129", "127", "128", "-32768", "-32769", "-2147483648", "-2147483649"] {
        assert_eq!(i8::from_text(s), s.parse::<i8>().ok(), "i8 from {:?}", s);
        assert_eq!(i16::from_text(s), s.parse::<i16>().ok(), "i16 from {:?}", s);
        assert_eq!(i32::from_text(s), s.parse::<i32>().ok(), "i32 from {:?}", s);
    }
}

#[test]
fn reading_keeps_to_the_bounds() {
    assert_eq!(parse_unsigned("3000", 3000), Some(3000));
    assert_eq!(parse_unsigned("3001", 3000), None);
    assert_eq!(parse_unsigned("+3000", 3000), Some(3000));
    assert_eq!(parse_unsigned("-1", 3000), None);
    assert_eq!(parse_unsigned("0", 0), Some(0));
    assert_eq!(parse_unsigned("1", 0), None);
    assert_eq!(parse_signed("-8", -8, 7), Some(-8));
    assert_eq!(parse_signed("-9", -8, 7), None);
    assert_eq!(parse_signed("7", -8, 7), Some(7));
    assert_eq!(parse_signed("8", -8, 7), None);
    assert_eq!(parse_signed("-0", -8, 7), Some(0));
    assert_eq!(parse_signed("99999999999999999999999999", -8, 7), None);
    assert_eq!(parse_signed("-99999999999999999999999999", -8, 7), None);
}

#[test]
fn every_small_integer_reads_back() {
    for n in 0..=u8::MAX {
        assert_eq!(u8::from_text(&n.to_text()), Some(n));
    }
    for i in i8::MIN..=i8::MAX {
        assert_eq!(i8::from_text(&i.to_text()), Some(i));
    }
    for n in [0u16, 80, 8080, 12345, u16::MAX] {
        assert_eq!(u16::from_text(&n.to_text()), Some(n));
    }
    for i in [i64::MIN, -1, 0, 1, i64::MAX] {
        assert_eq!(i64::from_text(&i.to_text()), Some(i));
    }
    assert_eq!(isize::from_text(&isize::MIN.to_text()), Some(isize::MIN));
    assert_eq!(usize::from_text(&usize::MAX.to_text()), Some(usize::MAX));
}

#[test]
fn truth_values_are_true_and_false() {
    assert_eq!(true.to_text(), "true");
    assert_eq!(false.to_text(), "false");
    assert_eq!(bool::from_text("true"), Some(true));
    assert_eq!(bool::from_text("false"), Some(false));
    for s in ["", "True", "FALSE", "1", "0", "yes", " true", "true ", "truefalse"] {
        assert_eq!(bool::from_text(s), None, "bool from {:?}", s);
        assert_eq!(bool::from_text(s), s.parse::<bool>().ok());
    }
}

#[test]
fn strings_are_their_own_text() {
    assert_eq!("port".to_text(), "port");
    assert_eq!(String::from("127.0.0.1").to_text(), "127.0.0.1");
    assert_eq!(String::from_text("::0.0.0.1"), Some(String::from("::0.0.0.1")));
    assert_eq!(String::from_text(""), Some(String::new()));
    assert_eq!("gr\u{fc}n".to_text(), "gr\u{fc}n");
}
