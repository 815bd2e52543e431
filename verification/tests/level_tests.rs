use bunyan_view::{passes_level, LogLevel};

fn assert_log_levels_parse(levels: Vec<LogLevel>) {
    for test_level in levels {
        let level_string = test_level.as_string();
        let lower_case_level_string = level_string.to_ascii_lowercase();

        println!("Attempting to parse string [{}] as log level literal", level_string);

        // test parsing uppercase
        match LogLevel::parse(&level_string) {
            Ok(level) => assert_eq!(level, test_level, "Unable to parse input to log level"),
            Err(err) => panic!("{}", err.input),
        }

        // test parsing lowercase
        match LogLevel::parse(&lower_case_level_string) {
            Ok(level) => assert_eq!(level, test_level, "Unable to parse input to log level"),
            Err(err) => panic!("{}", err.input),
        }
    }
}

#[test]
fn can_parse_to_known_log_level() {
    let levels = vec![
        LogLevel::TRACE,
        LogLevel::DEBUG,
        LogLevel::INFO,
        LogLevel::ERROR,
        LogLevel::FATAL,
    ];
    assert_log_levels_parse(levels);
}

#[test]
fn can_parse_custom_level_log_level() {
    let levels = vec![
        LogLevel::OTHER(0),
        LogLevel::OTHER(100),
        LogLevel::OTHER(1001),
    ];
    assert_log_levels_parse(levels);
}

#[test]
fn warn_parses_in_any_case() {
    assert_eq!(LogLevel::parse("wArN").ok(), Some(LogLevel::WARN));
}

#[test]
fn bare_number_gives_a_custom_level_even_where_a_name_has_it() {
    assert_eq!(LogLevel::parse("30").ok(), Some(LogLevel::OTHER(30)));
    assert_eq!(LogLevel::parse("lvl65535").ok(), Some(LogLevel::OTHER(65535)));
    assert_eq!(LogLevel::parse("+7").ok(), Some(LogLevel::OTHER(7)));
}

#[test]
fn text_that_names_no_level_is_refused_with_its_input() {
    for input in ["", "LVL", "65536", "LVL-1", "verbose", " 30", "3 0"] {
        match LogLevel::parse(input) {
            Ok(level) => panic!("{:?} parsed as {:?}", input, level),
            Err(error) => {
                assert_eq!(error.input, input);
                assert_eq!(error.description(), "Unable to parse log level from input value");
            }
        }
    }
}

#[test]
fn numbers_and_names_of_the_six_levels() {
    let all = [
        (LogLevel::TRACE, 10, "TRACE"),
        (LogLevel::DEBUG, 20, "DEBUG"),
        (LogLevel::INFO, 30, "INFO"),
        (LogLevel::WARN, 40, "WARN"),
        (LogLevel::ERROR, 50, "ERROR"),
        (LogLevel::FATAL, 60, "FATAL"),
    ];
    for (level, code, name) in all {
        assert_eq!(level.as_u16(), code);
        assert_eq!(level.as_string(), name);
        assert_eq!(LogLevel::from(code), level);
    }
    assert_eq!(LogLevel::from(35), LogLevel::OTHER(35));
    assert_eq!(LogLevel::OTHER(35).as_u16(), 35);
    assert_eq!(LogLevel::OTHER(35).as_string(), "LVL35");
    assert_eq!(LogLevel::OTHER(0).as_string(), "LVL0");
}

#[test]
fn threshold_includes_its_own_level() {
    assert!(passes_level(30, Some(30)));
    assert!(passes_level(31, Some(30)));
    assert!(!passes_level(29, Some(30)));
    assert!(passes_level(0, None));
    assert!(passes_level(0, Some(0)));
    assert!(!passes_level(65534, Some(65535)));
}

#[test]
fn levels_are_ordered_from_trace_to_fatal_and_numbers_last() {
    assert!(LogLevel::TRACE < LogLevel::DEBUG);
    assert!(LogLevel::DEBUG < LogLevel::INFO);
    assert!(LogLevel::INFO < LogLevel::WARN);
    assert!(LogLevel::WARN < LogLevel::ERROR);
    assert!(LogLevel::ERROR < LogLevel::FATAL);
    assert!(LogLevel::FATAL < LogLevel::OTHER(0));
    assert!(LogLevel::OTHER(1) < LogLevel::OTHER(2));
    assert_eq!(LogLevel::WARN.max(LogLevel::INFO), LogLevel::WARN);
}
