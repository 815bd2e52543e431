use bunyan_view::date_deserializer::TimeStampParseError;
use bunyan_view::errors::{BunyanLogParseError, LogLevelParseError, ParseIntFromJsonError};

#[test]
fn failures_tell_what_went_wrong() {
    let level = LogLevelParseError { input: String::from("loud") };
    assert_eq!(level.description(), "Unable to parse log level from input value");
    assert_eq!(
        level.message(),
        "Unable to parse log level from input value: Unable to parse log level from input value"
    );
    let shape = BunyanLogParseError::new("wrong shape");
    assert_eq!(shape.description(), "wrong shape");
    assert_eq!(ParseIntFromJsonError::Structure(shape).message(), "wrong shape");
    assert_eq!(
        ParseIntFromJsonError::Numeric(String::from("x1")).message(),
        "not a number from 0 to 65535: x1"
    );
    let time = TimeStampParseError { timestamp_input: String::from("noon") };
    assert_eq!(time.message(), "Unable to parse timestamp [noon]");
}
