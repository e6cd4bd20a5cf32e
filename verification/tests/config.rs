use bob_fusion::args::{Config, FileLogger, Level, LoggerConfig, SocketAddress, StdoutLogger};
use bob_fusion::config::{disable_on_error, CorsPolicy, FileRotateSettings, LoggerError, LoggerPlan};

fn file_logger(enabled: bool, log_file: Option<&str>) -> FileLogger {
    FileLogger {
        enabled,
        log_file: log_file.map(|f| f.as_bytes().to_vec()),
        log_amount: 3,
        log_size: 1024,
    }
}

fn logger(file: Option<FileLogger>, stdout: Option<bool>) -> LoggerConfig {
    LoggerConfig {
        file,
        stdout: stdout.map(|enabled| StdoutLogger { enabled }),
        trace_level: Level::Info,
    }
}

#[test]
fn defaults() {
    assert!(!Config::default_cors());
    assert_eq!(Config::default_timeout(), std::time::Duration::from_millis(5000));
    assert_eq!(LoggerConfig::level_default(), Level::Trace);
    assert!(!FileLogger::default_enabled());
    assert_eq!(FileLogger::default_log_amount(), 5);
    assert_eq!(FileLogger::default_log_size(), 10usize.pow(6));
    assert!(!StdoutLogger::default_enabled());
}

#[test]
fn default_config() {
    let config = Config::default();
    assert_eq!(
        config.address,
        SocketAddress::V4 {
            octets: [0, 0, 0, 0],
            port: 7000
        }
    );
    assert!(!config.cors_allow_all);
    assert_eq!(config.logger, LoggerConfig::default());
    assert_eq!(config.logger.file, None);
    assert_eq!(config.logger.stdout, None);
    assert_eq!(config.logger.trace_level, Level::Trace);
    assert_eq!(
        FileLogger::default(),
        FileLogger {
            enabled: false,
            log_file: None,
            log_amount: 5,
            log_size: 1_000_000
        }
    );
    assert_eq!(StdoutLogger::default(), StdoutLogger { enabled: false });
}

#[test]
fn default_config_sets_up_no_logger() {
    let config = Config::default();
    assert_eq!(
        config.logger.logger_plan(),
        Ok(LoggerPlan {
            file: None,
            stdout: false,
            level: Level::Trace
        })
    );
    assert_eq!(config.cors_policy(), CorsPolicy::Empty);
}

#[test]
fn cors_policy_follows_flag() {
    let mut config = Config::default();
    config.cors_allow_all = true;
    assert_eq!(config.cors_policy(), CorsPolicy::VeryPermissive);
}

#[test]
fn disable_on_error_keeps_only_real_errors() {
    assert_eq!(disable_on_error::<u8>(Ok(7)), Ok(Some(7)));
    assert_eq!(disable_on_error::<u8>(Err(LoggerError::NotEnabled)), Ok(None));
    assert_eq!(disable_on_error::<u8>(Err(LoggerError::EmptyConfig)), Ok(None));
    assert_eq!(
        disable_on_error::<u8>(Err(LoggerError::NoFileName)),
        Err(LoggerError::NoFileName)
    );
    assert_eq!(
        disable_on_error::<u8>(Err(LoggerError::OLTPInitFailed)),
        Err(LoggerError::OLTPInitFailed)
    );
}

#[test]
fn file_rotate_settings_errors() {
    assert_eq!(
        logger(None, None).file_rotate_settings(),
        Err(LoggerError::EmptyConfig)
    );
    assert_eq!(
        logger(Some(file_logger(true, None)), None).file_rotate_settings(),
        Err(LoggerError::NoFileName)
    );
    assert_eq!(
        logger(Some(file_logger(true, Some(""))), None).file_rotate_settings(),
        Err(LoggerError::NoFileName)
    );
    assert_eq!(
        logger(Some(file_logger(false, Some("app.log"))), None).file_rotate_settings(),
        Ok(FileRotateSettings {
            log_file: b"app.log".to_vec(),
            max_files: 3,
            max_bytes: 1024,
            uncompressed_files: 1
        })
    );
}

#[test]
fn file_writer_checks_enabled_first() {
    assert_eq!(
        logger(Some(file_logger(false, None)), None).file_writer_settings(),
        Err(LoggerError::NotEnabled)
    );
    assert_eq!(
        logger(Some(file_logger(true, None)), None).file_writer_settings(),
        Err(LoggerError::NoFileName)
    );
    assert_eq!(
        logger(None, Some(true)).file_writer_settings(),
        Err(LoggerError::EmptyConfig)
    );
}

#[test]
fn stdout_writer() {
    assert_eq!(logger(None, None).stdout_writer(), Err(LoggerError::EmptyConfig));
    assert_eq!(logger(None, Some(false)).stdout_writer(), Err(LoggerError::NotEnabled));
    assert_eq!(logger(None, Some(true)).stdout_writer(), Ok(()));
}

#[test]
fn logger_plan_with_both_writers() {
    assert_eq!(
        logger(Some(file_logger(true, Some("/var/log/bob.log"))), Some(true)).logger_plan(),
        Ok(LoggerPlan {
            file: Some(FileRotateSettings {
                log_file: b"/var/log/bob.log".to_vec(),
                max_files: 3,
                max_bytes: 1024,
                uncompressed_files: 1
            }),
            stdout: true,
            level: Level::Info
        })
    );
}

#[test]
fn logger_plan_leaves_out_disabled_writers() {
    assert_eq!(
        logger(Some(file_logger(false, None)), Some(false)).logger_plan(),
        Ok(LoggerPlan {
            file: None,
            stdout: false,
            level: Level::Info
        })
    );
}

#[test]
fn logger_plan_fails_without_file_name() {
    assert_eq!(
        logger(Some(file_logger(true, Some(""))), Some(true)).logger_plan(),
        Err(LoggerError::NoFileName)
    );
}

#[test]
fn non_utf8_log_file_is_kept_as_is() {
    let mut file = file_logger(true, None);
    file.log_file = Some(vec![b'/', 0xff, b'.', b'l']);
    assert_eq!(
        logger(Some(file), None).file_writer_settings().unwrap().log_file,
        vec![b'/', 0xff, b'.', b'l']
    );
}

#[test]
fn error_messages() {
    assert_eq!(LoggerError::NoFileName.message(), "No filename specified");
    assert_eq!(
        bob_fusion::args::Error::FromFile.message(),
        "configuration error: couldn't read from file"
    );
}
