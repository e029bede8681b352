//! Setup checks: merging command-line and configuration values, and
//! the decision whether a session can start.

use uartfileserver::setup::{error, inner_main, Arguments, Config, UartError};

#[test]
fn config_empty_has_no_values() {
    let config = Config::empty();
    assert_eq!(config.port, None);
    assert_eq!(config.path, None);
}

#[test]
fn arguments_command_line_wins() {
    let config = Config {
        port: Some("/dev/ttyS1".to_string()),
        path: Some("/srv/old".to_string()),
    };
    let arguments = Arguments::new(
        Some("/dev/ttyUSB0".to_string()),
        Some("/srv/files".to_string()),
        true,
        config,
    );
    assert_eq!(arguments.port, Some("/dev/ttyUSB0".to_string()));
    assert_eq!(arguments.path, "/srv/files");
    assert!(arguments.debug);
}

#[test]
fn arguments_fall_back_to_config() {
    let config = Config {
        port: Some("/dev/ttyS1".to_string()),
        path: Some("/srv/old".to_string()),
    };
    let arguments = Arguments::new(None, None, false, config);
    assert_eq!(arguments.port, Some("/dev/ttyS1".to_string()));
    assert_eq!(arguments.path, "/srv/old");
    assert!(!arguments.debug);
}

#[test]
fn arguments_path_defaults_to_current_directory() {
    let arguments = Arguments::new(None, None, false, Config::empty());
    assert_eq!(arguments.port, None);
    assert_eq!(arguments.path, ".");
}

#[test]
fn error_wraps_a_description() {
    match error("went wrong") {
        UartError::Other(msg) => assert_eq!(msg, "went wrong"),
        other => panic!("unexpected error {:?}", other),
    }
}

#[test]
fn inner_main_starts_a_session_when_a_port_is_named() {
    let arguments = Arguments {
        port: Some("/dev/ttyUSB0".to_string()),
        path: "/srv/files".to_string(),
        debug: true,
    };
    let session = inner_main(arguments).unwrap();
    assert_eq!(session.port_name, "/dev/ttyUSB0");
    assert_eq!(session.root, "/srv/files");
    assert!(session.debug);
}

#[test]
fn inner_main_without_a_port_is_an_error() {
    let arguments = Arguments { port: None, path: ".".to_string(), debug: false };
    match inner_main(arguments) {
        Err(UartError::Other(msg)) => assert_eq!(
            msg,
            "Port not specified. Either use --port argument or define in configuration."
        ),
        other => panic!("unexpected result {:?}", other),
    }
}
