//! Error types of VeTiS.

use vstd::prelude::*;

verus! {

/// Main error type for VeTiS operations.
#[derive(Debug, Clone, PartialEq, Eq)]
pub enum VetisError {
    /// Configuration-related errors
    Config(ConfigError),
    /// Failed to bind to a network address
    Bind(String),
    /// Server startup errors
    Start(StartError),
    /// Server shutdown errors
    Stop(String),
    /// Request handler errors
    Handler(String),
    /// TLS/SSL related errors
    Tls(String),
    /// No server instances are running
    NoInstances,
    /// Virtual host related errors
    VirtualHost(VirtualHostError),
}

/// Configuration-related errors.
#[derive(Debug, Clone, PartialEq, Eq)]
pub enum ConfigError {
    /// Invalid listener configuration
    Listener(String),
    /// Invalid server configuration
    Server(String),
    /// Invalid virtual host configuration
    VirtualHost(String),
    /// Invalid security configuration
    Security(String),
    /// Invalid path configuration
    Path(String),
    /// Invalid authentication configuration
    Auth(String),
}

/// Server startup errors.
#[derive(Debug, Clone, PartialEq, Eq)]
pub enum StartError {
    /// TLS/SSL initialization errors
    Tls(String),
}

/// Errors of a handler path.
#[derive(Debug, Clone, PartialEq, Eq)]
pub enum HandlerError {
    /// Invalid handler URI
    Uri(String),
    /// Missing handler
    Handler(String),
}

/// Errors while serving files.
#[derive(Debug, Clone, PartialEq, Eq)]
pub enum FileError {
    /// The file does not exist
    NotFound,
    /// The `Range` header could not be understood
    InvalidRange,
    /// The file metadata could not be turned into headers
    InvalidMetadata,
}

/// Virtual host related errors.
#[derive(Debug, Clone, PartialEq, Eq)]
pub enum VirtualHostError {
    /// No virtual hosts have been added to the server
    NoVirtualHosts,
    /// Invalid path configuration
    InvalidPath(String),
    /// Proxy errors
    Proxy(String),
    /// Handler path errors
    Handler(HandlerError),
    /// File serving errors
    File(FileError),
    /// Authentication errors
    Auth(String),
    /// Language interface errors
    Interface(String),
}

impl From<ConfigError> for VetisError {
    fn from(err: ConfigError) -> (res: Self) {
        VetisError::Config(err)
    }
}

impl vstd::std_specs::convert::FromSpecImpl<ConfigError> for VetisError {
    open spec fn obeys_from_spec() -> bool {
        true
    }

    open spec fn from_spec(err: ConfigError) -> VetisError {
        VetisError::Config(err)
    }
}

impl From<StartError> for VetisError {
    fn from(err: StartError) -> (res: Self) {
        VetisError::Start(err)
    }
}

impl vstd::std_specs::convert::FromSpecImpl<StartError> for VetisError {
    open spec fn obeys_from_spec() -> bool {
        true
    }

    open spec fn from_spec(err: StartError) -> VetisError {
        VetisError::Start(err)
    }
}

impl From<VirtualHostError> for VetisError {
    fn from(err: VirtualHostError) -> (res: Self) {
        VetisError::VirtualHost(err)
    }
}

impl vstd::std_specs::convert::FromSpecImpl<VirtualHostError> for VetisError {
    open spec fn obeys_from_spec() -> bool {
        true
    }

    open spec fn from_spec(err: VirtualHostError) -> VetisError {
        VetisError::VirtualHost(err)
    }
}

} // verus!
