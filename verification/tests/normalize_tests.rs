use std::str::FromStr;

use longport_core::decimal::{Decimal, MAX_TEXT};
use longport_core::normalize::{
    absent_to_zero, decode_decimal, decode_decimal_or_empty, decode_decimal_or_zero,
    decode_timestamp, decode_timestamp_or_zero, decode_trigger_status, encode_decimal,
    encode_decimal_or_empty, encode_decimal_or_zero, encode_timestamp, encode_timestamp_or_zero,
    encode_trigger_status, zero_to_absent, WireFault,
};
use longport_core::timestamp::{Timestamp, MAX_SECONDS, MIN_SECONDS};
use longport_core::trade::TriggerStatus;

fn outside(d: &Decimal) -> rust_decimal::Decimal {
    rust_decimal::Decimal::from_i128_with_scale(d.mantissa(), d.scale())
}

#[test]
fn decimal_is_read_exactly() {
    let d = Decimal::parse("12.50").unwrap();
    assert_eq!((d.mantissa(), d.scale()), (1250, 2));
    assert_eq!(d.render(), "12.50");
    let d = Decimal::parse("-0.001").unwrap();
    assert_eq!((d.mantissa(), d.scale()), (-1, 3));
    assert_eq!(d.render(), "-0.001");
    assert_eq!(Decimal::parse("abc"), None);
    assert_eq!(Decimal::parse(""), None);
}

#[test]
fn decimal_limits_are_those_of_the_outside_type() {
    let max: i128 = 0xFFFF_FFFF_FFFF_FFFF_FFFF_FFFF;
    assert!(Decimal::new(max, 28).is_some());
    assert!(Decimal::new(-max, 0).is_some());
    assert_eq!(Decimal::new(max + 1, 0), None);
    assert_eq!(Decimal::new(-max - 1, 0), None);
    assert_eq!(Decimal::new(1, 29), None);
    assert_eq!(outside(&Decimal::new(max, 0).unwrap()), rust_decimal::Decimal::MAX);
    assert_eq!(Decimal::new(max, 0).unwrap().render(), rust_decimal::Decimal::MAX.to_string());
    assert!(Decimal::zero().is_zero());
    assert!(!Decimal::new(1, 5).unwrap().is_zero());
    assert!(Decimal::new(0, 5).unwrap().is_zero());
}

#[test]
fn zero_means_absent_where_the_field_says_so() {
    assert_eq!(decode_decimal_or_zero("0"), Ok(None));
    assert_eq!(decode_decimal_or_zero("0.00"), Ok(None));
    assert_eq!(decode_decimal_or_zero("12.50"), Ok(Decimal::new(1250, 2)));
    assert_eq!(decode_decimal_or_zero(""), Err(WireFault::Decimal));
    assert_eq!(decode_decimal_or_zero("x"), Err(WireFault::Decimal));
    assert_eq!(encode_decimal_or_zero(None), "0");
    assert_eq!(decode_decimal_or_zero(&encode_decimal_or_zero(None)), Ok(None));
    let present = Decimal::new(1250, 2);
    assert_eq!(encode_decimal_or_zero(present), "12.50");
    assert_eq!(decode_decimal_or_zero(&encode_decimal_or_zero(present)), Ok(present));
}

#[test]
fn zero_and_absent_at_the_typed_level() {
    assert_eq!(zero_to_absent(Decimal::zero()), None);
    assert_eq!(zero_to_absent(Decimal::new(0, 3).unwrap()), None);
    let d = Decimal::new(-5, 1).unwrap();
    assert_eq!(zero_to_absent(d), Some(d));
    assert_eq!(absent_to_zero(None), Decimal::zero());
    assert_eq!(absent_to_zero(Some(d)), d);
    assert_eq!(zero_to_absent(absent_to_zero(None)), None);
    assert_eq!(zero_to_absent(absent_to_zero(Some(d))), Some(d));
}

#[test]
fn zero_is_a_quantity_where_the_field_is_required() {
    let quantity = decode_decimal("0").unwrap();
    assert!(quantity.is_zero());
    assert_eq!(encode_decimal(&quantity), "0");
    assert_eq!(decode_decimal("100"), Ok(Decimal::new(100, 0).unwrap()));
    assert_eq!(decode_decimal(""), Err(WireFault::Decimal));
    assert_eq!(decode_decimal("1.2.3"), Err(WireFault::Decimal));
}

#[test]
fn empty_text_means_absent_where_the_field_says_so() {
    assert_eq!(decode_decimal_or_empty(""), Ok(None));
    let read = decode_decimal_or_empty("3.1400").unwrap().unwrap();
    assert_eq!((read.mantissa(), read.scale()), (31400, 4));
    assert_eq!(outside(&read), rust_decimal::Decimal::from_str("3.14").unwrap());
    assert_eq!(outside(&read), rust_decimal::Decimal::new(314, 2));
    assert_eq!(decode_decimal_or_empty("0"), Ok(Some(Decimal::zero())));
    assert_eq!(decode_decimal_or_empty("three"), Err(WireFault::Decimal));
    assert_eq!(encode_decimal_or_empty(None), "");
    assert_eq!(decode_decimal_or_empty(&encode_decimal_or_empty(None)), Ok(None));
    assert_eq!(encode_decimal_or_empty(Some(read)), "3.1400");
    assert_eq!(decode_decimal_or_empty(&encode_decimal_or_empty(Some(read))), Ok(Some(read)));
}

#[test]
fn timestamp_is_whole_seconds_since_the_epoch() {
    let time = decode_timestamp("1680863604").unwrap();
    assert_eq!(time.unix_seconds(), 1_680_863_604);
    assert_eq!(encode_timestamp(&time), "1680863604");
    assert_eq!(decode_timestamp("0").unwrap().unix_seconds(), 0);
    assert_eq!(decode_timestamp("-1").unwrap().unix_seconds(), -1);
    assert_eq!(decode_timestamp(""), Err(WireFault::Integer));
    assert_eq!(decode_timestamp("12.5"), Err(WireFault::Integer));
    assert_eq!(decode_timestamp("99999999999999999999"), Err(WireFault::Integer));
    assert_eq!(decode_timestamp("9223372036854775807"), Err(WireFault::Time));
}

#[test]
fn timestamp_range_is_that_of_the_calendar() {
    let last = time::OffsetDateTime::new_utc(time::Date::MAX, time::Time::MAX).unix_timestamp();
    let first = time::OffsetDateTime::new_utc(time::Date::MIN, time::Time::MIDNIGHT)
        .unix_timestamp();
    assert_eq!(first, MIN_SECONDS);
    assert_eq!(last, MAX_SECONDS);
    assert_eq!(MIN_SECONDS, -377_705_116_800);
    assert_eq!(MAX_SECONDS, 253_402_300_799);
    for seconds in [MIN_SECONDS, MIN_SECONDS + 1, -1, 0, 1, MAX_SECONDS - 1, MAX_SECONDS] {
        assert!(time::OffsetDateTime::from_unix_timestamp(seconds).is_ok());
        assert_eq!(Timestamp::from_unix_seconds(seconds).unwrap().unix_seconds(), seconds);
    }
    for seconds in [i64::MIN, MIN_SECONDS - 1, MAX_SECONDS + 1, i64::MAX] {
        assert!(time::OffsetDateTime::from_unix_timestamp(seconds).is_err());
        assert_eq!(Timestamp::from_unix_seconds(seconds), None);
    }
    assert!(Timestamp::from_unix_seconds(last).is_some());
    assert!(Timestamp::from_unix_seconds(first).is_some());
    assert_eq!(Timestamp::from_unix_seconds(last + 1), None);
    assert_eq!(Timestamp::from_unix_seconds(first - 1), None);
    assert_eq!(Timestamp::from_unix_seconds(i64::MIN), None);
}

#[test]
fn zero_timestamp_means_absent_where_the_field_says_so() {
    assert_eq!(decode_timestamp_or_zero("0"), Ok(None));
    assert_eq!(decode_timestamp_or_zero(""), Ok(None));
    assert_eq!(decode_timestamp_or_zero("1680863604"), Ok(Timestamp::from_unix_seconds(1_680_863_604)));
    assert_eq!(decode_timestamp_or_zero("soon"), Err(WireFault::Integer));
    assert_eq!(decode_timestamp_or_zero("-9223372036854775808"), Err(WireFault::Time));
    assert_eq!(encode_timestamp_or_zero(None), "0");
    assert_eq!(decode_timestamp_or_zero(&encode_timestamp_or_zero(None)), Ok(None));
    let time = Timestamp::from_unix_seconds(-86_400);
    assert_eq!(encode_timestamp_or_zero(time), "-86400");
    assert_eq!(decode_timestamp_or_zero(&encode_timestamp_or_zero(time)), Ok(time));
}

#[test]
fn trigger_status_has_a_word_for_absent() {
    assert_eq!(decode_trigger_status("NOT_USED"), Ok(None));
    assert_eq!(decode_trigger_status("DEACTIVE"), Ok(Some(TriggerStatus::Deactive)));
    assert_eq!(decode_trigger_status("ACTIVE"), Ok(Some(TriggerStatus::Active)));
    assert_eq!(decode_trigger_status("RELEASED"), Ok(Some(TriggerStatus::Released)));
    assert_eq!(decode_trigger_status("active"), Err(WireFault::Word));
    assert_eq!(decode_trigger_status(""), Err(WireFault::Word));
    assert_eq!(encode_trigger_status(None), "NOT_USED");
    for status in [TriggerStatus::Deactive, TriggerStatus::Active, TriggerStatus::Released] {
        assert_eq!(decode_trigger_status(encode_trigger_status(Some(status))), Ok(Some(status)));
    }
}

#[test]
fn trailing_zeros_do_not_change_the_number() {
    let read = decode_decimal_or_empty("3.1400").unwrap().unwrap();
    let short = Decimal::new(314, 2).unwrap();
    assert_ne!(read, short);
    assert!(read.is_same_number(&short));
    assert!(short.is_same_number(&read));
    assert!(read.is_same_number(&read));
    assert!(!read.is_same_number(&Decimal::new(3141, 3).unwrap()));
    assert!(!read.is_same_number(&Decimal::new(-314, 2).unwrap()));
    assert!(Decimal::new(-5000, 3).unwrap().is_same_number(&Decimal::new(-5, 0).unwrap()));
    assert!(!Decimal::new(-5000, 3).unwrap().is_same_number(&Decimal::new(5, 0).unwrap()));
    assert!(Decimal::new(0, 28).unwrap().is_same_number(&Decimal::zero()));
    assert!(!Decimal::new(1, 28).unwrap().is_same_number(&Decimal::zero()));
    let max: i128 = 0xFFFF_FFFF_FFFF_FFFF_FFFF_FFFF;
    assert!(!Decimal::new(max, 28).unwrap().is_same_number(&Decimal::new(max, 0).unwrap()));
    assert!(Decimal::new(max, 7).unwrap().is_same_number(&Decimal::new(max, 7).unwrap()));
    for (a, b) in [("12.50", "12.5"), ("100", "100.000"), ("-0.0", "0"), ("0.10", "0.1")] {
        let x = Decimal::parse(a).unwrap();
        let y = Decimal::parse(b).unwrap();
        assert!(x.is_same_number(&y));
        assert_eq!(outside(&x), outside(&y));
    }
    for (a, b) in [("12.50", "12.05"), ("1", "10"), ("-1", "1"), ("0.1", "0.01")] {
        let x = Decimal::parse(a).unwrap();
        let y = Decimal::parse(b).unwrap();
        assert!(!x.is_same_number(&y));
        assert_ne!(outside(&x), outside(&y));
    }
}

#[test]
fn long_text_is_no_decimal() {
    assert_eq!(MAX_TEXT, 64);
    let longest = format!("0.{}", "0".repeat(61) + "5");
    assert_eq!(longest.len(), 64);
    let read = Decimal::parse(&longest).unwrap();
    assert_eq!(outside(&read), longest.parse::<rust_decimal::Decimal>().unwrap());
    let too_long = format!("{}0", longest);
    assert_eq!(too_long.len(), 65);
    assert!(too_long.parse::<rust_decimal::Decimal>().is_ok());
    assert_eq!(Decimal::parse(&too_long), None);
    assert_eq!(decode_decimal(&too_long), Err(WireFault::Decimal));
    assert_eq!(decode_decimal_or_zero(&"0".repeat(100_000)), Err(WireFault::Decimal));
    assert_eq!(decode_decimal_or_empty(&"0".repeat(100_000)), Err(WireFault::Decimal));
    assert_eq!(decode_decimal_or_zero(&"0".repeat(64)), Ok(None));
    assert_eq!(Decimal::parse(&"é".repeat(33)), None);
    let digits = "79228162514264337593543950335";
    assert_eq!(Decimal::parse(digits).unwrap().mantissa(), 0xFFFF_FFFF_FFFF_FFFF_FFFF_FFFF);
    assert_eq!(Decimal::parse("0.0000000000000000000000000001"), Decimal::new(1, 28));
}

#[test]
fn integer_is_an_optional_sign_and_digits() {
    let seconds = |s: &str| decode_timestamp(s).map(|t| t.unix_seconds());
    assert_eq!(seconds("+5"), Ok(5));
    assert_eq!(seconds("-5"), Ok(-5));
    assert_eq!(seconds("-0"), Ok(0));
    assert_eq!(seconds("+0"), Ok(0));
    assert_eq!(seconds("007"), Ok(7));
    assert_eq!(seconds("-0000000000000000000000000000000000015"), Ok(-15));
    for text in ["", "+", "-", "+-5", "--5", " 5", "5 ", "5_0", "0x10", "1e3", "5.0", "٥", "５"] {
        assert_eq!(seconds(text), Err(WireFault::Integer));
        assert!(text.parse::<i64>().is_err());
    }
    assert_eq!(seconds("9223372036854775807"), Err(WireFault::Time));
    assert_eq!(seconds("-9223372036854775808"), Err(WireFault::Time));
    assert_eq!(seconds("9223372036854775808"), Err(WireFault::Integer));
    assert_eq!(seconds("-9223372036854775809"), Err(WireFault::Integer));
    assert_eq!(seconds("253402300799"), Ok(253_402_300_799));
    assert_eq!(seconds("253402300800"), Err(WireFault::Time));
    assert_eq!(seconds("-377705116800"), Ok(-377_705_116_800));
    assert_eq!(seconds("-377705116801"), Err(WireFault::Time));
    for n in [i64::MIN, -1, 0, 1, i64::MAX] {
        assert_eq!(n.to_string().parse::<i64>(), Ok(n));
    }
    for n in [MIN_SECONDS, -86_400, -1, 0, 7, 1_680_863_604, MAX_SECONDS] {
        let time = Timestamp::from_unix_seconds(n).unwrap();
        assert_eq!(decode_timestamp(&encode_timestamp(&time)), Ok(time));
    }
}
