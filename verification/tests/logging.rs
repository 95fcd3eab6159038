use chombo_gen::logging::{format_log_line, init_logging};
use log::{LevelFilter, Log, Metadata, Record};

struct Silent;

impl Log for Silent {
    fn enabled(&self, _metadata: &Metadata) -> bool {
        true
    }

    fn log(&self, _record: &Record) {}

    fn flush(&self) {}
}

#[test]
fn a_line_holds_time_level_target_and_message() {
    assert_eq!(
        format_log_line("2024-05-01 12:00:00.000001", "INFO", "chombo_gen", "rendered in 1s"),
        "2024-05-01 12:00:00.000001 [INFO] [chombo_gen] rendered in 1s"
    );
}

#[test]
fn empty_parts_leave_the_frame() {
    assert_eq!(format_log_line("", "", "", ""), " [] [] ");
}

#[test]
fn the_level_is_set_once_the_logger_is_installed() {
    let installed = log::set_logger(&Silent);
    assert!(installed.is_ok());
    assert!(init_logging(LevelFilter::Debug, installed).is_ok());
    assert_eq!(log::max_level(), LevelFilter::Debug);

    let again = log::set_logger(&Silent);
    assert!(again.is_err());
    let expected = again.as_ref().unwrap_err().to_string();
    let result = init_logging(LevelFilter::Trace, again);
    assert_eq!(result.unwrap_err().to_string(), expected);
    assert_eq!(log::max_level(), LevelFilter::Debug);
}
