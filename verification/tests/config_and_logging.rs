//! Configuration choice, the error taxonomy and the observability sink.

use serialserver::config::{Config, ConfigSource, Log, Serial};
use serialserver::error::{Error, ErrorKind};
use serialserver::logger::{render, Logger};

#[test]
fn baudrate_default_is_115200() {
    assert_eq!(Serial::baudrate_default(), 115200);
}

#[test]
fn logging_is_disabled_by_default() {
    assert!(!Log::default().enabled);
}

#[test]
fn environment_path_takes_priority() {
    let r = Config::choose_source(
        Some("/etc/bridge.toml".to_string()),
        Some("arg.toml".to_string()),
        true,
    );
    assert!(matches!(r, ConfigSource::FilePath(p) if p == "/etc/bridge.toml"));
}

#[test]
fn first_argument_is_second_choice() {
    let r = Config::choose_source(None, Some("arg.toml".to_string()), true);
    assert!(matches!(r, ConfigSource::FilePath(p) if p == "arg.toml"));
}

#[test]
fn local_file_is_third_choice() {
    let r = Config::choose_source(None, None, true);
    assert!(matches!(r, ConfigSource::LocalDefault));
}

#[test]
fn missing_configuration_is_reported() {
    let r = Config::choose_source(None, None, false);
    assert!(matches!(r, ConfigSource::NotFound));
    let e = Config::not_found_error();
    assert_eq!(e.kind, ErrorKind::ConfigError);
    assert_eq!(e.message, "Config file not found");
}

#[test]
fn error_new_has_no_cause() {
    let e = Error::new(ErrorKind::IoError, "boom".to_string());
    assert_eq!(e.kind, ErrorKind::IoError);
    assert_eq!(e.description(), "boom");
    assert!(e.source().is_none());
}

#[test]
fn error_with_error_wraps_the_cause() {
    let e = Error::with_error(ErrorKind::ConfigError, "bad toml".to_string());
    assert_eq!(e.kind, ErrorKind::ConfigError);
    assert_eq!(e.message, "bad toml");
    assert_eq!(*e.source().unwrap(), "bad toml");
}

#[test]
fn native_failure_combines_message_and_os_error() {
    let e = Error::native_failure("Read failed".to_string(), "Input/output error (os error 5)");
    assert_eq!(e.kind, ErrorKind::IoError);
    assert_eq!(e.message, "Read failed (Input/output error (os error 5))");
    assert_eq!(*e.source().unwrap(), "Input/output error (os error 5)");
}

#[test]
fn render_keeps_displayable_bytes() {
    let r = render(b"Hello, world! 123\t\r\n");
    assert_eq!(r, b"Hello, world! 123\t\r\n".to_vec());
}

#[test]
fn render_escapes_other_bytes_as_hex() {
    let r = render(&[0x41, 0x00, 0xff, 0x07]);
    assert_eq!(r, b"A\\x00\\xff\\x07".to_vec());
}

#[test]
fn render_of_empty_input_is_empty() {
    assert!(render(b"").is_empty());
}

#[test]
fn logger_is_present_exactly_when_enabled() {
    assert!(Logger::if_enabled(true).is_some());
    assert!(Logger::if_enabled(false).is_none());
}

#[test]
fn logger_accepts_arbitrary_bytes() {
    // The sink never fails its caller, whatever the bytes are.
    let logger = Logger::new();
    logger.log(&[0x00, 0x41, 0xff]);
}
