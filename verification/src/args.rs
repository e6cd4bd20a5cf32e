//! Server configuration passed on initialization, and its defaults.
use vstd::prelude::*;

verus! {

/// The verbosity of trace output, from the most verbose to the least.
#[derive(Clone, Copy, Debug, PartialEq, Eq, Structural)]
pub enum Level {
    Trace,
    Debug,
    Info,
    Warn,
    Error,
}

/// An IPv4 or IPv6 socket address: the IP address and the port, and for
/// IPv6 the flow information and the scope id.
#[derive(Clone, Copy, Debug, PartialEq, Eq)]
pub enum SocketAddress {
    V4 { octets: [u8; 4], port: u16 },
    V6 { segments: [u16; 8], port: u16, flowinfo: u32, scope_id: u32 },
}

/// Server Configuration passed on initialization
#[derive(Clone, Debug, PartialEq, Eq)]
pub struct Config {
    /// Server address <host:port>
    pub address: SocketAddress,
    /// Enable Default Cors configuration
    pub cors_allow_all: bool,
    /// [`Logger`](LoggerConfig) Configuration
    pub logger: LoggerConfig,
}

/// Logger Configuration passed on initialization
#[derive(Clone, Debug, PartialEq, Eq)]
pub struct LoggerConfig {
    /// Rolling file logger config
    pub file: Option<FileLogger>,
    /// Stdout logger config
    pub stdout: Option<StdoutLogger>,
    /// Tracing Level
    pub trace_level: Level,
}

/// File Logger Configuration for writing logs to files
#[derive(Clone, Debug, PartialEq, Eq)]
pub struct FileLogger {
    /// Enable log output to file
    pub enabled: bool,
    /// File to save logs: its path, as the bytes the operating system holds
    pub log_file: Option<Vec<u8>>,
    /// Number of log files
    pub log_amount: usize,
    /// Max size of a single log file, in bytes
    pub log_size: usize,
}

/// Stdout Logger Configuration for printing logs into stdout
#[derive(Clone, Copy, Debug, PartialEq, Eq, Structural)]
pub struct StdoutLogger {
    /// Enable log output to stdout
    pub enabled: bool,
}

/// The error of reading a configuration file.
#[derive(Clone, Copy, Debug, PartialEq, Eq, Structural)]
pub enum Error {
    /// configuration error: couldn't read from file
    FromFile,
}

impl Error {
    /// The message that describes the error.
    pub fn message(&self) -> (msg: &'static str)
        ensures
            match self {
                Error::FromFile => msg@ == "configuration error: couldn't read from file"@,
            },
    {
        match self {
            Error::FromFile => "configuration error: couldn't read from file",
        }
    }
}

/// The length of a duration in milliseconds: the duration that
/// `Duration::from_millis` makes of `ms`.
pub uninterp spec fn duration_of_millis(ms: u64) -> core::time::Duration;

/// `std::time::Duration::from_millis`: the duration of `ms` milliseconds,
/// which depends on `ms` alone.
#[verifier::external_body]
fn duration_from_millis(ms: u64) -> (d: core::time::Duration)
    ensures
        d == duration_of_millis(ms),
{
    core::time::Duration::from_millis(ms)
}

/// The address a default configuration listens on: `0.0.0.0:7000`.
pub open spec fn spec_default_address() -> SocketAddress {
    SocketAddress::V4 { octets: [0u8, 0u8, 0u8, 0u8], port: 7000 }
}

impl Config {
    pub fn default_cors() -> (res: bool)
        ensures
            res == false,
    {
        false
    }

    /// The default request timeout: 5000 ms.
    pub fn default_timeout() -> (res: core::time::Duration)
        ensures
            res == duration_of_millis(5000),
    {
        duration_from_millis(5000)
    }
}

impl LoggerConfig {
    pub fn level_default() -> (res: Level)
        ensures
            res == Level::Trace,
    {
        Level::Trace
    }
}

impl FileLogger {
    pub fn default_enabled() -> (res: bool)
        ensures
            res == false,
    {
        false
    }

    pub fn default_log_amount() -> (res: usize)
        ensures
            res == 5,
    {
        5
    }

    /// One million bytes: `10^6`.
    pub fn default_log_size() -> (res: usize)
        ensures
            res == 1_000_000,
    {
        1_000_000
    }
}

impl StdoutLogger {
    pub fn default_enabled() -> (res: bool)
        ensures
            res == false,
    {
        false
    }
}

impl Default for Config {
    fn default() -> (res: Self)
        ensures
            res.address == spec_default_address(),
            res.cors_allow_all == false,
            res.logger.file is None,
            res.logger.stdout is None,
            res.logger.trace_level == Level::Trace,
    {
        Config {
            address: SocketAddress::V4 { octets: [0u8, 0u8, 0u8, 0u8], port: 7000 },
            cors_allow_all: Self::default_cors(),
            logger: LoggerConfig::default(),
        }
    }
}

impl Default for LoggerConfig {
    fn default() -> (res: Self)
        ensures
            res.file is None,
            res.stdout is None,
            res.trace_level == Level::Trace,
    {
        LoggerConfig { file: None, stdout: None, trace_level: Self::level_default() }
    }
}

impl Default for FileLogger {
    fn default() -> (res: Self)
        ensures
            res.log_file is None,
            res.log_amount == 5,
            res.log_size == 1_000_000,
            res.enabled == false,
    {
        FileLogger {
            log_file: None,
            log_amount: Self::default_log_amount(),
            log_size: Self::default_log_size(),
            enabled: Self::default_enabled(),
        }
    }
}

impl Default for StdoutLogger {
    fn default() -> (res: Self)
        ensures
            res.enabled == false,
    {
        StdoutLogger { enabled: Self::default_enabled() }
    }
}

} // verus!
