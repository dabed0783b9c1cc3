//! What is rendered while terminal decoration is switched off.

use clang_log::style::{styled_label, styled_marker};
use clang_log::{init, init_error, Emission, Registry, Severity, Stream};
use colored::control::set_override;

#[test]
fn plain_labels() {
    set_override(false);
    assert_eq!(styled_label(Severity::Error), "error:");
    assert_eq!(styled_label(Severity::Warn), "warning:");
    assert_eq!(styled_label(Severity::Info), "info:");
    assert_eq!(styled_label(Severity::Debug), "debug:");
    assert_eq!(styled_label(Severity::Trace), "trace:");
}

#[test]
fn plain_marker() {
    set_override(false);
    assert_eq!(styled_marker(), "    | ");
}

#[test]
fn init_sets_the_error_threshold_to_error() {
    set_override(false);
    let logger = init(Severity::Debug, "clang");
    assert_eq!(logger.min_level, Severity::Debug);
    assert_eq!(logger.min_error_level, Severity::Error);
    assert_eq!(logger.prog_name, "clang");
    assert_eq!(logger.newline_sep, "\n    |  ");
}

#[test]
fn init_error_takes_both_thresholds() {
    set_override(false);
    let logger = init_error(Severity::Info, Severity::Warn, "rustc");
    assert_eq!(logger.min_level, Severity::Info);
    assert_eq!(logger.min_error_level, Severity::Warn);
    assert_eq!(logger.prog_name, "rustc");
    assert_eq!(logger.newline_sep, "\n    |  ");
}

#[test]
fn single_line_message_round_trips() {
    set_override(false);
    let logger = init(Severity::Trace, "clang");
    assert_eq!(
        logger.format_record(Severity::Warn, "unused variable"),
        "clang: warning: unused variable"
    );
    assert_eq!(logger.format_record(Severity::Trace, ""), "clang: trace: ");
}

#[test]
fn three_lines_stay_three_lines() {
    set_override(false);
    let logger = init(Severity::Trace, "clang");
    let line = logger.format_record(Severity::Debug, "line1\nline2\nline3");
    assert_eq!(line, "clang: debug: line1\n    |  line2\n    |  line3");
    let lines: Vec<&str> = line.split('\n').collect();
    assert_eq!(lines.len(), "line1\nline2\nline3".split('\n').count());
    assert!(lines[1].starts_with("    | "));
    assert!(lines[2].starts_with("    | "));
}

#[test]
fn error_goes_to_the_error_stream_after_init() {
    set_override(false);
    let logger = init(Severity::Trace, "clang");
    assert_eq!(
        logger.log(Severity::Error, "Could not find files!"),
        Some(Emission {
            stream: Stream::Error,
            text: String::from("clang: error: Could not find files!\n"),
        })
    );
}

#[test]
fn info_with_two_lines_goes_to_the_standard_stream() {
    set_override(false);
    let logger = init_error(Severity::Trace, Severity::Warn, "clang");
    let emission = logger.log(Severity::Info, "a\nb").unwrap();
    assert_eq!(emission.stream, Stream::Standard);
    assert_eq!(emission.text, "clang: info: a\n    |  b\n");
    let lines: Vec<&str> = emission.text.lines().collect();
    assert_eq!(lines.len(), 2);
    assert!(lines[1].starts_with("    | "));
}

#[test]
fn warn_threshold_routes_by_level() {
    set_override(false);
    let logger = init_error(Severity::Trace, Severity::Warn, "clang");
    assert_eq!(logger.log(Severity::Error, "m").unwrap().stream, Stream::Error);
    assert_eq!(logger.log(Severity::Warn, "m").unwrap().stream, Stream::Error);
    assert_eq!(logger.log(Severity::Info, "m").unwrap().stream, Stream::Standard);
    assert_eq!(logger.log(Severity::Debug, "m").unwrap().stream, Stream::Standard);
    assert_eq!(logger.log(Severity::Trace, "m").unwrap().stream, Stream::Standard);
}

#[test]
fn filtered_levels_are_not_emitted() {
    set_override(false);
    let logger = init(Severity::Warn, "clang");
    assert_eq!(logger.log(Severity::Info, "quiet"), None);
    assert_eq!(logger.log(Severity::Debug, "quiet"), None);
    assert_eq!(logger.log(Severity::Trace, "quiet"), None);
    assert!(logger.log(Severity::Warn, "loud").is_some());
    assert!(logger.log(Severity::Error, "loud").is_some());
}

#[test]
fn installing_twice_keeps_the_first_name_and_thresholds() {
    set_override(false);
    let mut registry = Registry::new();
    assert!(registry.install(init(Severity::Trace, "clang")).is_ok());
    assert!(registry
        .install(init_error(Severity::Error, Severity::Trace, "gcc"))
        .is_err());
    assert_eq!(
        registry.log(Severity::Info, "still here"),
        Some(Emission {
            stream: Stream::Standard,
            text: String::from("clang: info: still here\n"),
        })
    );
    assert_eq!(
        registry.log(Severity::Error, "e"),
        Some(Emission {
            stream: Stream::Error,
            text: String::from("clang: error: e\n"),
        })
    );
}
