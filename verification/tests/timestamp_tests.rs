use bunyan_view::date_deserializer::{
    deserialize, parse_timestamp, serialize, TimeStampParseError, Timestamp,
};

fn assert_timestamp_eq(expected_as_epoch: i64, parse_result: Result<Timestamp, TimeStampParseError>) {
    match parse_result {
        Ok(parsed) => {
            assert_eq!(parsed.timestamp_nanos(), expected_as_epoch);
        }
        Err(error) => {
            panic!("Error parsing [{}]", error.timestamp_input)
        }
    }
}

#[test]
fn can_parse_rfc3339_utc_with_millis() {
    let expected: i64 = 0;
    let input = "1970-01-01T00:00:00.000Z";
    let parse_result = parse_timestamp(input);
    assert_timestamp_eq(expected, parse_result);
}

#[test]
fn can_parse_rfc3339_utc_only_seconds() {
    let expected: i64 = 0;
    let input = "1970-01-01T00:00:00Z";
    let parse_result = parse_timestamp(input);
    assert_timestamp_eq(expected, parse_result);
}

#[test]
fn cant_parse_rfc3339_pacific_time() {
    let expected: i64 = 1328741760000000000;
    let input = "2012-02-08T14:56:00.000-08:00";
    let parse_result = parse_timestamp(input);
    assert_timestamp_eq(expected, parse_result);
}

#[test]
fn can_parse_rfc2822_gmt_only_seconds() {
    let expected: i64 = 0;
    let input = "Thu, 01 Jan 1970 00:00:00 GMT";
    let parse_result = parse_timestamp(input);
    assert_timestamp_eq(expected, parse_result);
}

#[test]
fn text_that_is_no_timestamp_is_refused_with_its_input() {
    match parse_timestamp("yesterday at noon") {
        Ok(_) => panic!("expected a failure"),
        Err(error) => assert_eq!(error.timestamp_input, "yesterday at noon"),
    }
}

#[test]
fn utc_text_has_milliseconds_and_z() {
    let stamp = Timestamp { seconds: 1328741760, nanos: 123_456_789 };
    assert_eq!(stamp.to_utc_text(), Some(String::from("2012-02-08T22:56:00.123Z")));
}

#[test]
fn instant_that_chrono_cannot_hold_has_no_text() {
    let stamp = Timestamp { seconds: i64::MAX, nanos: 0 };
    assert_eq!(stamp.to_utc_text(), None);
    assert_eq!(stamp.to_local_text(), None);
}

#[test]
fn subsecond_part_counts_in_nanoseconds() {
    let stamp = Timestamp { seconds: 2, nanos: 5 };
    assert_eq!(stamp.timestamp_nanos(), 2_000_000_005);
    let before_epoch = Timestamp { seconds: -1, nanos: 999_999_999 };
    assert_eq!(before_epoch.timestamp_nanos(), -1);
}

#[test]
fn timestamp_of_a_record_is_read_and_written() {
    assert_eq!(
        deserialize("2012-02-08T14:56:00.5-08:00"),
        Ok(Timestamp { seconds: 1328741760, nanos: 500_000_000 })
    );
    assert_eq!(deserialize("today"), Err(String::from("Unable to parse timestamp [today]")));
    assert_eq!(
        serialize(&Timestamp { seconds: 0, nanos: 999_999 }),
        Some(String::from("1970-01-01T00:00:00.000Z"))
    );
    assert_eq!(serialize(&Timestamp { seconds: 0, nanos: 2_000_000_000 }), None);
}

#[test]
fn text_at_an_offset_moves_the_clock_and_names_the_zone() {
    let noon = Timestamp { seconds: 43_200, nanos: 5_000_000 };
    assert_eq!(noon.to_offset_text(0), Some(String::from("1970-01-01T12:00:00.005Z")));
    assert_eq!(noon.to_offset_text(3_600), Some(String::from("1970-01-01T13:00:00.005+01:00")));
    assert_eq!(
        noon.to_offset_text(-45_000),
        Some(String::from("1969-12-31T23:30:00.005-12:30"))
    );
    assert_eq!(noon.to_offset_text(86_399), Some(String::from("1970-01-02T11:59:59.005+24:00")));
}

#[test]
fn offset_of_a_day_or_more_has_no_text() {
    let noon = Timestamp { seconds: 43_200, nanos: 0 };
    assert_eq!(noon.to_offset_text(86_400), None);
    assert_eq!(noon.to_offset_text(-86_400), None);
    assert_eq!(noon.to_offset_text(i32::MIN), None);
}

#[test]
fn text_in_a_zone_is_kept_to_four_digit_years() {
    let first = Timestamp { seconds: -62_135_596_800, nanos: 0 };
    let last = Timestamp { seconds: 253_402_300_799, nanos: 999_000_000 };
    assert_eq!(first.to_offset_text(0), Some(String::from("0001-01-01T00:00:00.000Z")));
    assert_eq!(last.to_offset_text(0), Some(String::from("9999-12-31T23:59:59.999Z")));
    assert_eq!(first.to_offset_text(-3_600), Some(String::from("0000-12-31T23:00:00.000-01:00")));
    assert_eq!(last.to_offset_text(3_600), Some(String::from("+10000-01-01T00:59:59.999+01:00")));
    let before = Timestamp { seconds: -62_135_596_801, nanos: 0 };
    let after = Timestamp { seconds: 253_402_300_800, nanos: 0 };
    assert_eq!(before.to_offset_text(0), None);
    assert_eq!(after.to_offset_text(0), None);
    assert_eq!(before.to_local_text(), None);
    assert_eq!(after.to_local_text(), None);
    assert!(before.to_utc_text().is_some());
    assert!(after.to_utc_text().is_some());
}

#[test]
fn nanoseconds_that_chrono_refuses_have_no_text_in_any_zone() {
    let odd = Timestamp { seconds: 0, nanos: 2_000_000_000 };
    assert_eq!(odd.to_offset_text(0), None);
    assert_eq!(odd.to_local_text(), None);
}

#[test]
fn local_text_is_the_text_at_some_offset_of_less_than_a_day() {
    let noon = Timestamp { seconds: 1_328_741_812, nanos: 856_000_000 };
    let local = match noon.to_local_text() {
        Some(text) => text,
        None => panic!("expected a text"),
    };
    let mut found = false;
    let mut offset: i32 = -86_399;
    while offset < 86_400 {
        if noon.to_offset_text(offset) == Some(local.clone()) {
            found = true;
        }
        offset += 1;
    }
    assert!(found, "{} is the text at no offset", local);
}
