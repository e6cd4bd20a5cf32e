use bob_fusion::args::{Config, Error as FileError, Level, SocketAddress};
use bob_fusion::cli::{Args, Error};

fn file_config() -> Config {
    let mut config = Config::default();
    config.cors_allow_all = true;
    config.address = SocketAddress::V4 {
        octets: [127, 0, 0, 1],
        port: 8080,
    };
    config
}

#[test]
fn default_flag_gives_default_config() {
    let config = Config::try_from_args(
        Args {
            default: true,
            config_file: None,
        },
        |_| Err(FileError::FromFile),
    )
    .unwrap();
    assert_eq!(config, Config::default());
    assert_eq!(config.logger.trace_level, Level::Trace);
}

#[test]
fn default_flag_wins_over_file() {
    let config = Config::try_from_args(
        Args {
            default: true,
            config_file: Some(b"server.yaml".to_vec()),
        },
        |_| Ok(file_config()),
    )
    .unwrap();
    assert_eq!(config, Config::default());
}

#[test]
fn file_is_read_from_its_path() {
    let config = Config::try_from_args(
        Args {
            default: false,
            config_file: Some(b"server.yaml".to_vec()),
        },
        |path| {
            assert_eq!(path, b"server.yaml".to_vec());
            Ok(file_config())
        },
    );
    assert_eq!(config, Ok(file_config()));
}

#[test]
fn unreadable_file_is_config_error() {
    let config = Config::try_from_args(
        Args {
            default: false,
            config_file: Some(b"missing.yaml".to_vec()),
        },
        |_| Err(FileError::FromFile),
    );
    assert_eq!(config, Err(Error::Config));
    assert_eq!(Error::Config.message(), "couldn't get server configuration");
    assert_eq!(Error::Logger.message(), "couldn't get logger configuration");
}
