use twelvedata::codec::deserialize_td_datetime;
use twelvedata::codec::decode_numeric_string;
use twelvedata::codec::deserialize_td_range;
use twelvedata::errors::DecodeError;
use twelvedata::timestamp::Timestamp;

fn number(text: &str) -> f64 {
    text.parse::<f64>().unwrap()
}

#[test]
fn full_timestamp_and_bare_date_give_the_same_midnight() {
    let full = deserialize_td_datetime("2022-09-20 00:00:00").unwrap();
    let bare = deserialize_td_datetime("2022-09-20").unwrap();
    assert_eq!(full, bare);
    assert_eq!(
        full,
        Timestamp { year: 2022, month: 9, day: 20, hour: 0, minute: 0, second: 0, nanosecond: 0 }
    );
}

#[test]
fn full_timestamp_keeps_the_time_of_day() {
    let t = deserialize_td_datetime("2022-09-20 15:59:07").unwrap();
    assert_eq!(
        t,
        Timestamp { year: 2022, month: 9, day: 20, hour: 15, minute: 59, second: 7, nanosecond: 0 }
    );
}

#[test]
fn datetime_refusal_names_the_text() {
    match deserialize_td_datetime("not-a-date") {
        Err(DecodeError::Datetime { text, full, date }) => {
            assert_eq!(text, "not-a-date");
            assert!(!full.to_string().is_empty());
            assert!(!date.to_string().is_empty());
        }
        other => panic!("unexpected outcome: {:?}", other),
    }
}

#[test]
fn range_of_two_numbers() {
    let range = deserialize_td_range("129.039993 - 182.940002").unwrap();
    assert_eq!(range.start.as_str(), "129.039993");
    assert_eq!(range.end.as_str(), "182.940002");
    assert_eq!(number(range.start.as_str()), 129.039993);
    assert_eq!(number(range.end.as_str()), 182.940002);
}

#[test]
fn range_without_separator() {
    assert!(matches!(deserialize_td_range("abc"), Err(DecodeError::RangeSeparator)));
    assert!(matches!(deserialize_td_range(""), Err(DecodeError::RangeSeparator)));
    assert!(matches!(deserialize_td_range("1-2"), Err(DecodeError::RangeSeparator)));
    assert!(matches!(deserialize_td_range(" -"), Err(DecodeError::RangeSeparator)));
}

#[test]
fn range_with_bad_second_operand() {
    match deserialize_td_range("1 - x") {
        Err(DecodeError::RangeHigh(text)) => assert_eq!(text, "x"),
        other => panic!("unexpected outcome: {:?}", other),
    }
}

#[test]
fn range_with_bad_first_operand() {
    match deserialize_td_range("x - 1") {
        Err(DecodeError::RangeLow(text)) => assert_eq!(text, "x"),
        other => panic!("unexpected outcome: {:?}", other),
    }
    match deserialize_td_range("x - y") {
        Err(DecodeError::RangeLow(text)) => assert_eq!(text, "x"),
        other => panic!("unexpected outcome: {:?}", other),
    }
}

#[test]
fn range_is_cut_at_the_first_separator() {
    match deserialize_td_range("1 - 2 - 3") {
        Err(DecodeError::RangeHigh(text)) => assert_eq!(text, "2 - 3"),
        other => panic!("unexpected outcome: {:?}", other),
    }
    let range = deserialize_td_range("-1 - -2").unwrap();
    assert_eq!(number(range.start.as_str()), -1.0);
    assert_eq!(number(range.end.as_str()), -2.0);
}

#[test]
fn range_with_letters_beyond_ascii() {
    match deserialize_td_range("é - 1") {
        Err(DecodeError::RangeLow(text)) => assert_eq!(text, "é"),
        other => panic!("unexpected outcome: {:?}", other),
    }
}

#[test]
fn numeric_text_agrees_with_the_standard_parser() {
    let texts = [
        "0", "1", "-1", "+1", "1.", ".5", "1.5", "1e5", "1E5", "1e+5", "1e-5", "1.5e10", ".5e1",
        "5.e1", "inf", "-inf", "+InF", "infinity", "INFINITY", "nan", "NaN", "-nan", "", "+", "-",
        ".", "e5", "1e", "1e+", "1..2", "1.2.3", " 1", "1 ", "1_000", "0x10", "infinit", "in",
        "nane", "1e5.5", "--1", "+-1", "1f", "308.73001", "231261", "-26.04001", "١",
    ];
    for text in texts {
        let ours = decode_numeric_string(text);
        let theirs = text.parse::<f64>();
        assert_eq!(ours.is_ok(), theirs.is_ok(), "text {:?}", text);
        match ours {
            Ok(n) => assert_eq!(n.as_str(), text),
            Err(DecodeError::Number(t)) => assert_eq!(t, text),
            Err(other) => panic!("unexpected error: {:?}", other),
        }
    }
}
