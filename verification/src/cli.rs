//! Command-line arguments and the configuration they select.
use vstd::prelude::*;

use crate::args::{spec_default_address, Config, Error as FileError, Level};

verus! {

/// Cli Args: either the default configuration or a configuration file.
#[derive(Clone, Debug, PartialEq, Eq)]
pub struct Args {
    /// If set, passes default configuration to the server
    pub default: bool,
    /// Server configuration file: its path, as the bytes the operating
    /// system holds
    pub config_file: Option<Vec<u8>>,
}

/// Why no configuration could be had.
#[derive(Clone, Copy, Debug, PartialEq, Eq, Structural)]
pub enum Error {
    /// couldn't get logger configuration
    Logger,
    /// couldn't get server configuration
    Config,
}

impl Error {
    /// The message that describes the error.
    pub fn message(&self) -> (msg: &'static str)
        ensures
            match self {
                Error::Logger => msg@ == "couldn't get logger configuration"@,
                Error::Config => msg@ == "couldn't get server configuration"@,
            },
    {
        match self {
            Error::Logger => "couldn't get logger configuration",
            Error::Config => "couldn't get server configuration",
        }
    }
}

/// `c` is the default configuration.
pub open spec fn is_default_config(c: Config) -> bool {
    &&& c.address == spec_default_address()
    &&& c.cors_allow_all == false
    &&& c.logger.file is None
    &&& c.logger.stdout is None
    &&& c.logger.trace_level == Level::Trace
}

impl Config {
    /// The configuration that `value` selects: the default one if
    /// `--default` is set, else the one read from the configuration file by
    /// `from_file`.
    ///
    /// # Errors
    ///
    /// `Error::Config` if the configuration file could not be read.
    pub fn try_from_args<F>(value: Args, from_file: F) -> (res: Result<Config, Error>) where
        F: FnOnce(Vec<u8>) -> Result<Config, FileError>,

        requires
            value.default || value.config_file is Some,
            !value.default ==> from_file.requires((value.config_file->0,)),
        ensures
            value.default ==> res is Ok && is_default_config(res->Ok_0),
            !value.default ==> match res {
                Ok(c) => from_file.ensures((value.config_file->0,), Ok::<Config, FileError>(c)),
                Err(e) => e == Error::Config && from_file.ensures(
                    (value.config_file->0,),
                    Err::<Config, FileError>(FileError::FromFile),
                ),
            },
    {
        if value.default {
            Ok(Config::default())
        } else {
            match value.config_file {
                Some(config) => {
                    let read = from_file(config);
                    match read {
                        Ok(c) => Ok(c),
                        Err(e) => {
                            assert(e == FileError::FromFile);
                            Err(Error::Config)
                        },
                    }
                },
                None => {
                    proof {
                        assert(false);
                    }
                    Err(Error::Config)
                },
            }
        }
    }
}

} // verus!
