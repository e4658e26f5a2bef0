//! Process configuration as plain values.

use vstd::prelude::*;
use vstd::std_specs::convert::FromSpecImpl;

verus! {

#[verifier::external_type_specification]
pub struct ExLevel(slog::Level);

/// Maximum severity that reaches the system log.
#[derive(Clone, Copy, Debug, PartialEq, Eq, Structural)]
pub enum LogLevel {
    Critical,
    Error,
    Warning,
    Info,
    Debug,
    Trace,
}

impl From<LogLevel> for slog::Level {
    /// The `slog` severity of the same name.
    fn from(level: LogLevel) -> (out: slog::Level) {
        match level {
            LogLevel::Critical => slog::Level::Critical,
            LogLevel::Error => slog::Level::Error,
            LogLevel::Warning => slog::Level::Warning,
            LogLevel::Info => slog::Level::Info,
            LogLevel::Debug => slog::Level::Debug,
            LogLevel::Trace => slog::Level::Trace,
        }
    }
}

impl FromSpecImpl<LogLevel> for slog::Level {
    open spec fn obeys_from_spec() -> bool {
        true
    }

    open spec fn from_spec(level: LogLevel) -> slog::Level {
        match level {
            LogLevel::Critical => slog::Level::Critical,
            LogLevel::Error => slog::Level::Error,
            LogLevel::Warning => slog::Level::Warning,
            LogLevel::Info => slog::Level::Info,
            LogLevel::Debug => slog::Level::Debug,
            LogLevel::Trace => slog::Level::Trace,
        }
    }
}

/// Socket address on which the metrics are served, host and port as numbers.
///
/// The host is the address in network order read as one big-endian integer,
/// so `127.0.0.1` is `0x7f00_0001`.
#[derive(Clone, Copy, Debug, PartialEq, Eq, Structural)]
pub enum ListenAddress {
    V4 { ipv4: u32, port: u16 },
    V6 { ipv6: u128, port: u16, flowinfo: u32, scope_id: u32 },
}

/// Settings fixed at startup and never changed afterwards.
#[derive(Clone, Debug, PartialEq, Eq)]
pub struct Config {
    /// Max log level for syslog mode
    pub log_level: LogLevel,
    /// I2C device path, like /dev/i2c-1
    pub i2c_device: String,
    /// Prometheus exporter listen address
    pub exporter_listen: ListenAddress,
}

/// Mathematical value of a [`Config`].
pub struct ConfigView {
    pub log_level: LogLevel,
    pub i2c_device: Seq<char>,
    pub exporter_listen: ListenAddress,
}

impl View for Config {
    type V = ConfigView;

    open spec fn view(&self) -> ConfigView {
        ConfigView {
            log_level: self.log_level,
            i2c_device: self.i2c_device@,
            exporter_listen: self.exporter_listen,
        }
    }
}

} // verus!
