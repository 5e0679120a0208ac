//! Reverse proxy paths: the requests under a URI are forwarded to a target.

use vstd::prelude::*;
use vstd::string::StringExecFns;

use crate::config::server::virtual_host::path::proxy::{ProxyPathConfig, ProxySettings};

verus! {

/// A path whose requests are forwarded to another server.
pub struct ProxyPath {
    config: ProxyPathConfig,
}

impl ProxyPath {
    /// Creates a proxy path with the given configuration.
    pub fn new(config: ProxyPathConfig) -> (res: ProxyPath)
        ensures
            res.settings() == config@,
    {
        ProxyPath { config }
    }

    /// The configuration of this path.
    pub closed spec fn settings(self) -> ProxySettings {
        self.config@
    }

    /// Returns the configuration.
    pub fn config(&self) -> (res: &ProxyPathConfig)
        ensures
            res@ == self.settings(),
    {
        &self.config
    }

    /// Returns the URI prefix this path is served under.
    pub fn uri(&self) -> (res: &str)
        ensures
            res@ == self.settings().uri,
    {
        self.config.uri()
    }

    /// The URL a request is forwarded to: the target followed by what the request path
    /// holds after the URI of this path.
    pub fn target_url(&self, rest: &str) -> (res: String)
        ensures
            res@ == self.settings().target + rest@,
    {
        self.config.target().to_owned().concat(rest)
    }
}

} // verus!
