//! The two loggers.

use sst_cam::common::logger::{LogLevel as PlainLevel, Logger as PlainLogger};
use sst_cam::domains::common::logger::{LogLevel, LogStream, Logger};

/// Splits a stamped line into the time stamp and the rest.
fn unstamped(text: &str) -> (&str, &str) {
    let at = text.find(" \x1b[").expect("a colour after the time stamp");
    (&text[..at], &text[at + 1..])
}

#[test]
fn test_logger_none() {
    let logger = Logger::new(Some("test-logger"));

    logger.info("This is an info message", None);
    assert!(true);
    logger.warning("This is a warning message", None);
    logger.error("This is an error message", None);
    logger.debug("This is a debug message", None);
}

#[test]
fn test_logger_args() {
    let logger = Logger::new(Some("test-logger"));

    logger.info("Info with args", Some(&[&42, &"extra"]));
    logger.warning("Warning with args", Some(&[&"arg1", &true]));
    logger.error("Error with args", Some(&[&3.14]));
    logger.debug("Debug with args", Some(&[&"debug", &false, &100]));
}

#[test]
fn stamped_line_has_colour_name_level_and_message() {
    let logger = Logger::new(Some("test-logger"));
    let out = logger.info("This is an info message", None);
    let (stamp, rest) = unstamped(&out.text);
    assert_eq!(rest, "\x1b[92m[test-logger] INFO\x1b[0m: This is an info message");
    assert_eq!(out.stream, LogStream::Stdout);

    // The stamp reads like 2025-10-03 12:00:00.
    assert_eq!(stamp.len(), 19);
    let shape: String =
        stamp.chars().map(|c| if c.is_ascii_digit() { '0' } else { c }).collect();
    assert_eq!(shape, "0000-00-00 00:00:00");
}

#[test]
fn stamped_lines_differ_by_level() {
    let logger = Logger::new(Some("cam"));
    let warning = logger.warning("w", None);
    assert_eq!(unstamped(&warning.text).1, "\x1b[93m[cam] WARNING\x1b[0m: w");
    assert_eq!(warning.stream, LogStream::Stdout);
    let error = logger.error("e", None);
    assert_eq!(unstamped(&error.text).1, "\x1b[91m[cam] ERROR\x1b[0m: e");
    assert_eq!(error.stream, LogStream::Stderr);
    let debug = logger.debug("d", None);
    assert_eq!(unstamped(&debug.text).1, "\x1b[94m[cam] DEBUG\x1b[0m: d");
    assert_eq!(debug.stream, LogStream::Stdout);
}

#[test]
fn logger_without_a_name_is_called_sst_cam() {
    let logger = Logger::new(None);
    let out = logger.log(LogLevel::Info, "started", None);
    assert_eq!(unstamped(&out.text).1, "\x1b[92m[sst-cam] INFO\x1b[0m: started");
}

#[test]
fn arguments_follow_the_message_in_debug_form() {
    let logger = Logger::new(Some("test-logger"));
    let out = logger.info("Info with args", Some(&[&42, &"extra"]));
    assert_eq!(
        unstamped(&out.text).1,
        "\x1b[92m[test-logger] INFO\x1b[0m: Info with args [42, \"extra\"]"
    );
    let out = logger.error("Error with args", Some(&[&3.14]));
    assert_eq!(
        unstamped(&out.text).1,
        "\x1b[91m[test-logger] ERROR\x1b[0m: Error with args [3.14]"
    );
}

#[test]
fn empty_argument_list_adds_nothing() {
    let logger = Logger::new(Some("test-logger"));
    let out = logger.debug("quiet", Some(&[]));
    assert_eq!(unstamped(&out.text).1, "\x1b[94m[test-logger] DEBUG\x1b[0m: quiet");
}

#[test]
fn compose_puts_the_parts_in_order() {
    let logger = Logger::new(Some("unit"));
    let out = logger.compose(LogLevel::Error, "2025-10-03 12:00:00", "disk full", " [1, 2]");
    assert_eq!(out.text, "2025-10-03 12:00:00 \x1b[91m[unit] ERROR\x1b[0m: disk full [1, 2]");
    assert_eq!(out.stream, LogStream::Stderr);
    let out = logger.compose(LogLevel::Debug, "", "", "");
    assert_eq!(out.text, " \x1b[94m[unit] DEBUG\x1b[0m: ");
    assert_eq!(out.stream, LogStream::Stdout);
}

#[test]
fn levels_have_words_colours_and_streams() {
    assert_eq!(LogLevel::Info.as_str(), "INFO");
    assert_eq!(LogLevel::Warning.as_str(), "WARNING");
    assert_eq!(LogLevel::Error.as_str(), "ERROR");
    assert_eq!(LogLevel::Debug.as_str(), "DEBUG");
    assert_eq!(LogLevel::Info.as_color(), "\x1b[92m");
    assert_eq!(LogLevel::Warning.as_color(), "\x1b[93m");
    assert_eq!(LogLevel::Error.as_color(), "\x1b[91m");
    assert_eq!(LogLevel::Debug.as_color(), "\x1b[94m");
    assert_eq!(LogLevel::Error.stream(), LogStream::Stderr);
    assert_eq!(LogLevel::Warning.stream(), LogStream::Stdout);
    assert_eq!(PlainLevel::Info.as_str(), "INFO");
    assert_eq!(PlainLevel::Warning.as_str(), "WARNING");
    assert_eq!(PlainLevel::Error.as_str(), "ERROR");
    assert_eq!(PlainLevel::Debug.as_str(), "DEBUG");
    assert_eq!(PlainLevel::Info.color(), "\x1b[92m");
    assert_eq!(PlainLevel::Warning.color(), "\x1b[93m");
    assert_eq!(PlainLevel::Error.color(), "\x1b[91m");
    assert_eq!(PlainLevel::Debug.color(), "\x1b[94m");
}

#[test]
fn plain_line_with_name_and_arguments() {
    let logger = PlainLogger::new(Some("sst-cam".to_string()));
    assert_eq!(
        logger.info("Logger info message", &[123, 456]),
        "\x1b[92mINFO\x1b[0m: [sst-cam] Logger info message 123 456"
    );
    assert_eq!(
        logger.format_msg(PlainLevel::Warning, "three", &["a", "b", "c"]),
        "\x1b[93mWARNING\x1b[0m: [sst-cam] three a b c"
    );
    assert_eq!(logger.error("one", &[true]), "\x1b[91mERROR\x1b[0m: [sst-cam] one true");
}

#[test]
fn plain_line_without_name_or_arguments() {
    let logger = PlainLogger::new(None);
    let none: [u8; 0] = [];
    assert_eq!(logger.error("Logger error message", &none), "\x1b[91mERROR\x1b[0m: Logger error message");
    assert_eq!(logger.warning("w", &none), "\x1b[93mWARNING\x1b[0m: w");
    assert_eq!(logger.debug("d", &["x"]), "\x1b[94mDEBUG\x1b[0m: d x");
    assert_eq!(logger.info("", &none), "\x1b[92mINFO\x1b[0m: ");
}
