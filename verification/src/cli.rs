//! Plain forms of the command-line settings the services start with. The
//! argument parser itself belongs to the binary; these carry the parsed
//! values and the one decision they imply.

use vstd::prelude::*;

verus! {

/// The default port a web server listens on.
pub const DEFAULT_PORT: u16 = 8080;

/// How verbose logging should be.
#[derive(Debug)]
pub struct LoggingArgs {
    /// Counts from `0` (informational) up; only `0`, `1` and `2` are
    /// supported.
    pub verbosity: u8,
}

/// A named severity threshold for log output.
#[derive(Debug, PartialEq, Eq, Structural, Clone, Copy)]
pub enum LogLevel {
    /// Informational messages and above.
    Info,
    /// Debugging detail and above.
    Debug,
    /// Everything.
    Trace,
}

impl LoggingArgs {
    /// The severity threshold the verbosity selects, or nothing above the
    /// supported range.
    pub fn level(&self) -> (r: Option<LogLevel>)
        ensures
            self.verbosity == 0 ==> r == Some(LogLevel::Info),
            self.verbosity == 1 ==> r == Some(LogLevel::Debug),
            self.verbosity == 2 ==> r == Some(LogLevel::Trace),
            self.verbosity >= 3 ==> r is None,
    {
        match self.verbosity {
            0 => Some(LogLevel::Info),
            1 => Some(LogLevel::Debug),
            2 => Some(LogLevel::Trace),
            _ => None,
        }
    }
}

/// Where a web server listens.
#[derive(Debug)]
pub struct WebServerArgs {
    /// The interface to bind.
    pub ip: String,
    /// The port to bind.
    pub port: u16,
}

impl Default for WebServerArgs {
    /// The local interface on the default port.
    fn default() -> (r: WebServerArgs)
        ensures
            r.ip@ == "localhost"@,
            r.port == DEFAULT_PORT,
    {
        WebServerArgs { ip: "localhost".to_owned(), port: DEFAULT_PORT }
    }
}

/// The settings every service shares.
#[derive(Debug)]
pub struct CommonArgs {
    /// Contains the logging args.
    pub logging: LoggingArgs,
    /// Contains web server args.
    pub server: WebServerArgs,
}

/// Used for security purposes, usually for TLS.
#[derive(Debug)]
pub struct SecurityArgs {
    /// Path to a certificate (public key).
    pub cert: Option<String>,
    /// Path to a private key. Required if a certificate is given.
    pub cert_key: Option<String>,
    /// Path to a root authority.
    pub capath: Option<String>,
}

} // verus!
