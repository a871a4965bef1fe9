use butler::startup::{
    metadata_enabled, parse_butler_log_level, startup_mode, target_level, LogLevel, StartupMode,
};

#[test]
fn parses_butler_log_levels_strictly() {
    assert_eq!(parse_butler_log_level(None).unwrap(), LogLevel::Info);
    assert_eq!(parse_butler_log_level(Some("warning")).unwrap(), LogLevel::Warn);
    assert!(parse_butler_log_level(Some("verbose")).is_err());
}

#[test]
fn log_levels_are_trimmed_and_folded() {
    assert_eq!(parse_butler_log_level(Some(" TRACE ")).unwrap(), LogLevel::Trace);
    assert_eq!(parse_butler_log_level(Some("off")).unwrap(), LogLevel::Off);
    assert_eq!(parse_butler_log_level(Some("error")).unwrap(), LogLevel::Error);
    assert_eq!(parse_butler_log_level(Some("debug")).unwrap(), LogLevel::Debug);
    assert_eq!(
        parse_butler_log_level(Some("Verbose")).unwrap_err(),
        "BUTLER_LOG must be one of off, error, warn, info, debug, trace; got `verbose`"
    );
}

#[test]
fn only_own_events_up_to_the_level_are_logged() {
    assert_eq!(target_level("butler_rs::state", LogLevel::Debug), LogLevel::Debug);
    assert_eq!(target_level("serenity", LogLevel::Debug), LogLevel::Off);
    assert!(metadata_enabled(LogLevel::Error, LogLevel::Warn));
    assert!(!metadata_enabled(LogLevel::Info, LogLevel::Warn));
    assert!(!metadata_enabled(LogLevel::Error, LogLevel::Off));
    assert!(metadata_enabled(LogLevel::Trace, LogLevel::Trace));
    assert!(!metadata_enabled(LogLevel::Trace, LogLevel::Debug));
}

#[test]
fn arguments_are_checked() {
    let mode = |arguments: &[&str]| {
        startup_mode(&arguments.iter().map(|argument| argument.to_string()).collect())
    };
    assert_eq!(mode(&[]), Ok(StartupMode::Run));
    assert_eq!(mode(&["--check-config"]), Ok(StartupMode::CheckConfig));
    assert_eq!(
        mode(&["--check-config", "now"]),
        Err("--check-config does not accept additional arguments".to_string())
    );
    assert_eq!(mode(&["--help"]), Err("unknown argument `--help`".to_string()));
}
