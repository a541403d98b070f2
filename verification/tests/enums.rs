use loglib::enums::LogLevel;
use loglib::enums::LoggerType;
use loglib::enums::RequestType;

#[test]
fn level_value_test() {
    let debug = LogLevel::DEBUG as i32;
    assert_eq!(debug, 0);

    let info = LogLevel::INFO as i32;
    assert_eq!(info, debug + 1);

    let warning = LogLevel::WARNING as i32;
    assert_eq!(warning, info + 1);

    let error = LogLevel::ERROR as i32;
    assert_eq!(error, warning + 1);

    let fatal = LogLevel::FATAL as i32;
    assert_eq!(fatal, error + 1);
}

#[test]
fn type_value_test() {
    let console = LoggerType::CONSOLE as i32;
    assert_eq!(console, 0);

    let file = LoggerType::FILE as i32;
    assert_eq!(file, console + 1);
}

#[test]
fn request_type_value_test() {
    let new_logger = RequestType::NEW_LOGGER as i32;
    assert_eq!(new_logger, 0);

    let log_message = RequestType::LOG_MESSAGE as i32;
    assert_eq!(log_message, new_logger + 1);
}

#[test]
fn ordinal_matches_cast() {
    assert_eq!(LogLevel::DEBUG.ordinal(), 0);
    assert_eq!(LogLevel::FATAL.ordinal(), 4);
    assert_eq!(LoggerType::CONSOLE.ordinal(), 0);
    assert_eq!(LoggerType::FILE.ordinal(), 1);
    assert_eq!(RequestType::NEW_LOGGER.ordinal(), 0);
    assert_eq!(RequestType::LOG_MESSAGE.ordinal(), 1);
}
