use loglib::enums::LogLevel;
use loglib::enums::LoggerType;
use loglib::frames::LogMessage;
use loglib::frames::RegisterLogger;
use loglib::logger::Loglib;
use loglib::logger::SendAction;

#[test]
fn create_loglib() {
    let ll = Loglib::new(String::from("defaultname"));
    assert_eq!(ll.min_log_level() as i32, LogLevel::INFO as i32);
    assert_eq!(ll.default_name().as_str(), "defaultname");
}

#[test]
fn register_logger_test() {
    let mut ll = Loglib::new(String::from("msgtest99xx"));
    ll.register_logger(LoggerType::FILE, Some("msgtest99xx"));
    ll.send_log("important message", LogLevel::ERROR, None);
}

#[test]
fn formatter_test5() {
    let mut ll = Loglib::new(String::from("formatter_test5"));
    ll.register_logger(LoggerType::FILE, Some("formatter_test5"));
    ll.debug("debug message without args");
    ll.debug_f("debug message arg1: {}, arg2: {}", &["1111", "2222"]);

    ll.info("info message without args");
    ll.info_f("info message arg1: {}, arg2: {}", &["1111", "2222"]);

    ll.warning("warning message without args");
    ll.warning_f("warning message arg1: {}, arg2: {}", &["1111", "2222"]);

    ll.error("error message without args");
    ll.error_f("error message arg1: {}, arg2: {}", &["1111", "2222"]);

    ll.fatal("fatal message without args");
    ll.fatal_f("fatal message arg1: {}, arg2: {}", &["1111", "2222"]);
}

#[test]
fn register_frame_exact_bytes() {
    let reg = RegisterLogger::new(vec![b's', b'v', b'c'], 1);
    let bytes = reg.encode();
    let expected: Vec<u8> = vec![0, 0, 0, 0, 4, 0, 0, 0, b's', b'v', b'c', 0, 1, 0, 0, 0];
    assert_eq!(bytes, expected);
}

#[test]
fn register_frame_console_kind() {
    let reg = RegisterLogger::new(vec![b'a'], 0);
    let bytes = reg.encode();
    let expected: Vec<u8> = vec![0, 0, 0, 0, 2, 0, 0, 0, b'a', 0, 0, 0, 0, 0];
    assert_eq!(bytes, expected);
}

#[test]
fn log_frame_exact_bytes() {
    let msg = LogMessage::new(b"svc".to_vec(), b"hi".to_vec(), 3);
    let bytes = msg.encode();
    let expected: Vec<u8> = vec![
        1, 0, 0, 0, 4, 0, 0, 0, b's', b'v', b'c', 0, 3, 0, 0, 0, b'h', b'i', 0, 3, 0, 0, 0,
    ];
    assert_eq!(bytes, expected);
}

#[test]
fn fatal_threshold_passes_only_fatal() {
    let mut ll = Loglib::new(String::from("svc"));
    ll.set_min_log_level(LogLevel::FATAL);
    assert_eq!(ll.send_log("d", LogLevel::DEBUG, None), SendAction::Filtered);
    assert_eq!(ll.send_log("i", LogLevel::INFO, None), SendAction::Filtered);
    assert_eq!(ll.send_log("w", LogLevel::WARNING, None), SendAction::Filtered);
    assert_eq!(ll.send_log("e", LogLevel::ERROR, None), SendAction::Filtered);
    assert_eq!(ll.pending_count(), 0);
    assert_eq!(ll.send_log("f", LogLevel::FATAL, None), SendAction::Buffered);
    assert_eq!(ll.pending_count(), 1);
}

#[test]
fn default_threshold_filters_debug_only() {
    let mut ll = Loglib::new(String::from("svc"));
    assert_eq!(ll.send_log("d", LogLevel::DEBUG, None), SendAction::Filtered);
    assert_eq!(ll.send_log("i", LogLevel::INFO, None), SendAction::Buffered);
    assert_eq!(ll.pending_count(), 1);
}

#[test]
fn buffered_frames_flush_in_order() {
    let mut ll = Loglib::new(String::from("svc"));
    // no reachable transport: the first three calls are buffered
    assert_eq!(ll.send_log("one", LogLevel::ERROR, None), SendAction::Buffered);
    assert_eq!(ll.send_log("two", LogLevel::ERROR, None), SendAction::Buffered);
    assert_eq!(ll.send_log("three", LogLevel::ERROR, None), SendAction::Buffered);
    assert_eq!(ll.pending_count(), 3);
    // the transport becomes reachable; the fourth call asks for a flush
    ll.connection_result(true);
    assert_eq!(ll.send_log("four", LogLevel::ERROR, None), SendAction::Flush);
    assert_eq!(ll.pending_count(), 4);
    let texts = ["one", "two", "three", "four"];
    let mut i = 0;
    while i < texts.len() {
        let expected = LogMessage::new(b"svc".to_vec(), texts[i].as_bytes().to_vec(), 3).encode();
        assert_eq!(*ll.pending_frame(i), expected);
        i += 1;
    }
    ll.mark_written(4);
    assert_eq!(ll.pending_count(), 0);
    assert!(!ll.needs_connection());
}

#[test]
fn write_failure_requeues_remaining_frames() {
    let mut ll = Loglib::new(String::from("svc"));
    ll.connection_result(true);
    assert_eq!(ll.send_log("one", LogLevel::ERROR, None), SendAction::Flush);
    ll.mark_written(1);
    assert!(!ll.needs_connection());
    assert_eq!(ll.send_log("two", LogLevel::ERROR, None), SendAction::Flush);
    assert_eq!(ll.send_log("three", LogLevel::ERROR, None), SendAction::Flush);
    // the first of the two pending writes went out, the second failed
    ll.mark_written(1);
    assert!(ll.needs_connection());
    assert_eq!(ll.pending_count(), 1);
    let expected = LogMessage::new(b"svc".to_vec(), b"three".to_vec(), 3).encode();
    assert_eq!(*ll.pending_frame(0), expected);
}

#[test]
fn register_uses_default_identity_when_unnamed() {
    let mut ll = Loglib::new(String::from("svc"));
    assert_eq!(ll.register_logger(LoggerType::FILE, None), SendAction::Buffered);
    let expected = RegisterLogger::new(b"svc".to_vec(), 1).encode();
    assert_eq!(*ll.pending_frame(0), expected);
}

#[test]
fn named_identity_overrides_default() {
    let mut ll = Loglib::new(String::from("svc"));
    ll.send_log("m", LogLevel::ERROR, Some("other"));
    let expected = LogMessage::new(b"other".to_vec(), b"m".to_vec(), 3).encode();
    assert_eq!(*ll.pending_frame(0), expected);
}

#[test]
fn formatted_send_buffers_formatted_text() {
    let mut ll = Loglib::new(String::from("svc"));
    ll.error_f("count: {}", &["7"]);
    let expected = LogMessage::new(b"svc".to_vec(), b"count: 7".to_vec(), 3).encode();
    assert_eq!(*ll.pending_frame(0), expected);
}

#[test]
fn set_min_log_level_twice_same_value() {
    let mut once = Loglib::new(String::from("svc"));
    let mut twice = Loglib::new(String::from("svc"));
    once.set_min_log_level(LogLevel::WARNING);
    twice.set_min_log_level(LogLevel::WARNING);
    twice.set_min_log_level(LogLevel::WARNING);
    // filtering behaviour is unchanged by the repeated call
    assert_eq!(once.min_log_level() as i32, twice.min_log_level() as i32);
    assert_eq!(once.send_log("m", LogLevel::INFO, None), SendAction::Filtered);
    assert_eq!(twice.send_log("m", LogLevel::INFO, None), SendAction::Filtered);
    assert_eq!(once.send_log("m", LogLevel::WARNING, None), SendAction::Buffered);
    assert_eq!(twice.send_log("m", LogLevel::WARNING, None), SendAction::Buffered);
}
