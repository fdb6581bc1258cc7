//! The immutable configuration record of one bridge run.

use vstd::prelude::*;

verus! {

/// The serial device configuration.
#[derive(Debug, Clone)]
pub struct Serial {
    /// The path to the serial device.
    pub device: String,
    /// The baud rate to use with the serial port.
    pub baudrate: u64,
}

impl Serial {
    /// The default baud rate.
    pub fn baudrate_default() -> (r: u64)
        ensures
            r == 115200,
    {
        115200
    }
}

/// The UDP configuration.
#[derive(Debug, Clone)]
pub struct Udp {
    /// The UDP address to listen on.
    pub listen: String,
    /// The UDP address to send to, if fan-out is configured.
    pub send: Option<String>,
    /// The TTL for outgoing UDP packets.
    pub ttl: u32,
}

/// The logger configuration.
#[derive(Debug, Clone)]
pub struct Log {
    /// Whether to enable logging or not.
    pub enabled: bool,
}

impl Default for Log {
    /// Logging is disabled by default.
    fn default() -> (r: Log)
        ensures
            !r.enabled,
    {
        Log { enabled: false }
    }
}

/// The whole configuration record.
#[derive(Debug, Clone)]
pub struct Config {
    /// The serial device configuration.
    pub serial: Serial,
    /// The UDP configuration.
    pub udp: Udp,
    /// The logger configuration.
    pub log: Log,
}

/// Where the configuration is to be loaded from.
pub enum ConfigSource {
    /// A file at the given path.
    FilePath(String),
    /// The local default file `config.toml`.
    LocalDefault,
    /// No configuration could be found.
    NotFound,
}

impl Config {
    /// Decides which configuration source a run loads: a path set in the
    /// environment takes priority, then a path given as the first command
    /// line argument, then the local default file where it exists; where
    /// none of the three is available, no configuration can be found.
    pub fn choose_source(
        env_path: Option<String>,
        arg_path: Option<String>,
        local_exists: bool,
    ) -> (r: ConfigSource)
        ensures
            env_path matches Some(p) ==> r == ConfigSource::FilePath(p),
            env_path is None ==> (arg_path matches Some(p) ==> r == ConfigSource::FilePath(p)),
            env_path is None && arg_path is None && local_exists ==> r == ConfigSource::LocalDefault,
            env_path is None && arg_path is None && !local_exists ==> r == ConfigSource::NotFound,
    {
        match env_path {
            Some(path) => ConfigSource::FilePath(path),
            None => match arg_path {
                Some(path) => ConfigSource::FilePath(path),
                None => if local_exists {
                    ConfigSource::LocalDefault
                } else {
                    ConfigSource::NotFound
                },
            },
        }
    }

    /// The error raised when no configuration source is available.
    pub fn not_found_error() -> (r: crate::error::Error)
        ensures
            r.kind == crate::error::ErrorKind::ConfigError,
            r.message@ == "Config file not found"@,
    {
        crate::error::Error::new(
            crate::error::ErrorKind::ConfigError,
            "Config file not found".to_owned(),
        )
    }
}

} // verus!
