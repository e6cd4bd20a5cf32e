//! What the server's configuration asks of its logging and of CORS.
//!
//! Each function here decides what is to be set up; opening files,
//! spawning writer threads and installing the subscriber are left to the
//! caller, which acts on the returned plan.
use vstd::prelude::*;

use crate::args::{Config, FileLogger, Level, LoggerConfig};

verus! {

/// Why a logger could not be set up.
#[derive(Clone, Copy, Debug, PartialEq, Eq, Structural)]
pub enum LoggerError {
    /// Empty logger configuration
    EmptyConfig,
    /// No filename specified
    NoFileName,
    /// This logger is not enabled
    NotEnabled,
    /// OLTP init failed
    OLTPInitFailed,
}

impl LoggerError {
    /// The message that describes the error.
    pub fn message(&self) -> (msg: &'static str)
        ensures
            match self {
                LoggerError::EmptyConfig => msg@ == "Empty logger configuration"@,
                LoggerError::NoFileName => msg@ == "No filename specified"@,
                LoggerError::NotEnabled => msg@ == "This logger is not enabled"@,
                LoggerError::OLTPInitFailed => msg@ == "OLTP init failed"@,
            },
    {
        match self {
            LoggerError::EmptyConfig => "Empty logger configuration",
            LoggerError::NoFileName => "No filename specified",
            LoggerError::NotEnabled => "This logger is not enabled",
            LoggerError::OLTPInitFailed => "OLTP init failed",
        }
    }
}

/// Whether `e` only says that a logger is not wanted.
pub open spec fn disables_logger(e: LoggerError) -> bool {
    e == LoggerError::NotEnabled || e == LoggerError::EmptyConfig
}

/// Consume some errors to produce empty logger: a logger that is not
/// configured or not enabled is left out, any other error is kept.
pub fn disable_on_error<T>(logger: Result<T, LoggerError>) -> (res: Result<Option<T>, LoggerError>)
    ensures
        match logger {
            Ok(w) => res == Ok::<Option<T>, LoggerError>(Some(w)),
            Err(e) => if disables_logger(e) {
                res == Ok::<Option<T>, LoggerError>(None)
            } else {
                res == Err::<Option<T>, LoggerError>(e)
            },
        },
{
    match logger {
        Ok(writer) => Ok(Some(writer)),
        Err(e) => match e {
            LoggerError::NotEnabled | LoggerError::EmptyConfig => Ok(None),
            _ => Err(e),
        },
    }
}

/// A rolling log file: the file written to, how many files are kept, and the
/// size in bytes after which the file is rotated. Rotated files are
/// compressed, all but the newest one.
#[derive(Clone, Debug, PartialEq, Eq)]
pub struct FileRotateSettings {
    /// The path of the file, as the bytes the operating system holds.
    pub log_file: Vec<u8>,
    pub max_files: usize,
    pub max_bytes: usize,
    pub uncompressed_files: usize,
}

/// The loggers to set up: a rolling file, the standard output, or both,
/// each one filtered at `level`.
#[derive(Clone, Debug, PartialEq, Eq)]
pub struct LoggerPlan {
    pub file: Option<FileRotateSettings>,
    pub stdout: bool,
    pub level: Level,
}

/// The file configuration names a log file, and the name is not empty.
pub open spec fn names_log_file(file: FileLogger) -> bool {
    file.log_file is Some && file.log_file->0@.len() > 0
}

/// The rolling file that `file` describes.
pub open spec fn file_settings_match(s: FileRotateSettings, file: FileLogger) -> bool {
    &&& file.log_file is Some
    &&& s.log_file@ == file.log_file->0@
    &&& s.max_files == file.log_amount
    &&& s.max_bytes == file.log_size
    &&& s.uncompressed_files == 1
}

/// The outcome of asking for the rolling file that `cfg` describes.
pub open spec fn spec_file_rotate(cfg: LoggerConfig) -> Result<(), LoggerError> {
    match cfg.file {
        None => Err(LoggerError::EmptyConfig),
        Some(file) => if names_log_file(file) {
            Ok(())
        } else {
            Err(LoggerError::NoFileName)
        },
    }
}

/// The outcome of asking for the file writer that `cfg` describes.
pub open spec fn spec_file_writer(cfg: LoggerConfig) -> Result<(), LoggerError> {
    match cfg.file {
        None => Err(LoggerError::EmptyConfig),
        Some(file) => if !file.enabled {
            Err(LoggerError::NotEnabled)
        } else if names_log_file(file) {
            Ok(())
        } else {
            Err(LoggerError::NoFileName)
        },
    }
}

/// The outcome of asking for the standard output writer that `cfg` describes.
pub open spec fn spec_stdout_writer(cfg: LoggerConfig) -> Result<(), LoggerError> {
    match cfg.stdout {
        None => Err(LoggerError::EmptyConfig),
        Some(stdout) => if stdout.enabled {
            Ok(())
        } else {
            Err(LoggerError::NotEnabled)
        },
    }
}

/// A copy of `bytes`.
fn copy_bytes(bytes: &Vec<u8>) -> (res: Vec<u8>)
    ensures
        res@ == bytes@,
{
    let mut res: Vec<u8> = Vec::new();
    let mut i: usize = 0;
    while i < bytes.len()
        invariant
            i <= bytes@.len(),
            res@ == bytes@.take(i as int),
        decreases bytes.len() - i,
    {
        res.push(bytes[i]);
        proof {
            assert(bytes@.take(i + 1) =~= bytes@.take(i as int).push(bytes@[i as int]));
        }
        i = i + 1;
    }
    proof {
        assert(bytes@.take(i as int) =~= bytes@);
    }
    res
}

impl LoggerConfig {
    /// The rolling file the file logger writes to.
    ///
    /// # Errors
    ///
    /// `EmptyConfig` if there is no file logger configuration, `NoFileName`
    /// if it names no log file or an empty one.
    pub fn file_rotate_settings(&self) -> (res: Result<FileRotateSettings, LoggerError>)
        ensures
            match res {
                Ok(s) => spec_file_rotate(*self) is Ok && file_settings_match(s, self.file->0),
                Err(e) => spec_file_rotate(*self) == Err::<(), LoggerError>(e),
            },
    {
        let config = match &self.file {
            Some(config) => config,
            None => {
                return Err(LoggerError::EmptyConfig);
            },
        };
        let log_file = match &config.log_file {
            Some(log_file) => log_file,
            None => {
                return Err(LoggerError::NoFileName);
            },
        };
        if log_file.len() == 0 {
            return Err(LoggerError::NoFileName);
        }
        Ok(
            FileRotateSettings {
                log_file: copy_bytes(log_file),
                max_files: config.log_amount,
                max_bytes: config.log_size,
                uncompressed_files: 1,
            },
        )
    }

    /// The rolling file of the file writer.
    ///
    /// # Errors
    ///
    /// `EmptyConfig` if the file logger configuration is empty, `NotEnabled`
    /// if file logging is disabled, `NoFileName` if the logs filename is not
    /// specified.
    pub fn file_writer_settings(&self) -> (res: Result<FileRotateSettings, LoggerError>)
        ensures
            match res {
                Ok(s) => spec_file_writer(*self) is Ok && file_settings_match(s, self.file->0),
                Err(e) => spec_file_writer(*self) == Err::<(), LoggerError>(e),
            },
    {
        match &self.file {
            None => Err(LoggerError::EmptyConfig),
            Some(config) => {
                if config.enabled {
                    self.file_rotate_settings()
                } else {
                    Err(LoggerError::NotEnabled)
                }
            },
        }
    }

    /// Whether the standard output writer is to be set up.
    ///
    /// # Errors
    ///
    /// `EmptyConfig` if the stdout logger configuration is empty,
    /// `NotEnabled` if stdout logging is disabled.
    pub fn stdout_writer(&self) -> (res: Result<(), LoggerError>)
        ensures
            res == spec_stdout_writer(*self),
    {
        match &self.stdout {
            None => Err(LoggerError::EmptyConfig),
            Some(config) => {
                if config.enabled {
                    Ok(())
                } else {
                    Err(LoggerError::NotEnabled)
                }
            },
        }
    }

    /// The loggers to initialize: the file writer and the standard output
    /// writer, each one left out where it is not configured or not enabled.
    ///
    /// # Errors
    ///
    /// `NoFileName` if file logging is enabled without a log file name.
    pub fn logger_plan(&self) -> (res: Result<LoggerPlan, LoggerError>)
        ensures
            match res {
                Ok(plan) => {
                    &&& spec_file_writer(*self) != Err::<(), LoggerError>(LoggerError::NoFileName)
                    &&& (plan.file is Some <==> spec_file_writer(*self) is Ok)
                    &&& (plan.file is Some ==> file_settings_match(plan.file->0, self.file->0))
                    &&& (plan.stdout <==> spec_stdout_writer(*self) is Ok)
                    &&& plan.level == self.trace_level
                },
                Err(e) => e == LoggerError::NoFileName && spec_file_writer(*self) == Err::<
                    (),
                    LoggerError,
                >(e),
            },
    {
        let file = disable_on_error(self.file_writer_settings());
        let file = match file {
            Ok(file) => file,
            Err(e) => {
                return Err(e);
            },
        };
        let stdout = disable_on_error(self.stdout_writer());
        let stdout = match stdout {
            Ok(stdout) => stdout,
            Err(e) => {
                return Err(e);
            },
        };
        Ok(LoggerPlan { file, stdout: stdout.is_some(), level: self.trace_level })
    }
}

/// Initializing the loggers fails exactly when file logging is configured
/// and enabled without a usable log file name; a logger that is not
/// configured or not enabled is left out rather than failing.
pub proof fn law_logger_fails_only_without_file_name(cfg: LoggerConfig)
    ensures
        spec_file_writer(cfg) == Err::<(), LoggerError>(LoggerError::NoFileName) <==> (
        cfg.file is Some && cfg.file->0.enabled && !names_log_file(cfg.file->0)),
        spec_file_writer(cfg) is Err ==> disables_logger(spec_file_writer(cfg)->Err_0) || spec_file_writer(
            cfg,
        ) == Err::<(), LoggerError>(LoggerError::NoFileName),
        spec_stdout_writer(cfg) is Err ==> disables_logger(spec_stdout_writer(cfg)->Err_0),
{
}

/// A file writer is set up only for an enabled file logger that names its
/// file, and it writes to that file.
pub proof fn law_file_writer_needs_enabled_named_file(cfg: LoggerConfig)
    ensures
        spec_file_writer(cfg) is Ok <==> (cfg.file is Some && cfg.file->0.enabled && names_log_file(
            cfg.file->0,
        )),
        spec_file_writer(cfg) is Ok ==> spec_file_rotate(cfg) is Ok,
{
}

/// The standard output writer is set up exactly when the stdout logger is
/// configured and enabled; nothing else in the configuration (the trace
/// level, the file logger) has a say in it.
pub proof fn law_stdout_writer_follows_stdout_config(cfg: LoggerConfig, other: LoggerConfig)
    ensures
        spec_stdout_writer(cfg) is Ok <==> (cfg.stdout is Some && cfg.stdout->0.enabled),
        other.stdout == cfg.stdout ==> spec_stdout_writer(other) == spec_stdout_writer(cfg),
{
}

/// The default configuration sets up no logger at all, and no CORS headers.
pub proof fn law_default_config_sets_up_nothing(c: Config)
    requires
        c.logger.file is None,
        c.logger.stdout is None,
        c.cors_allow_all == false,
    ensures
        spec_file_writer(c.logger) == Err::<(), LoggerError>(LoggerError::EmptyConfig),
        spec_stdout_writer(c.logger) == Err::<(), LoggerError>(LoggerError::EmptyConfig),
        disables_logger(LoggerError::EmptyConfig),
{
}

/// The CORS layer a server puts in front of its API.
#[derive(Clone, Copy, Debug, PartialEq, Eq, Structural)]
pub enum CorsPolicy {
    /// Allows every origin, method and header, with credentials.
    VeryPermissive,
    /// Adds no CORS headers.
    Empty,
}

impl Config {
    /// Return either very permissive CORS configuration or empty one based
    /// on `cors_allow_all` field
    pub fn cors_policy(&self) -> (res: CorsPolicy)
        ensures
            res == (if self.cors_allow_all {
                CorsPolicy::VeryPermissive
            } else {
                CorsPolicy::Empty
            }),
    {
        if self.cors_allow_all {
            CorsPolicy::VeryPermissive
        } else {
            CorsPolicy::Empty
        }
    }
}

} // verus!
