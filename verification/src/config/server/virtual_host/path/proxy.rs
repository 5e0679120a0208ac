//! Reverse proxy path configuration.

use vstd::prelude::*;

use crate::errors::{ConfigError, VetisError};

verus! {

/// What a proxy path configuration holds.
pub struct ProxySettings {
    pub uri: Seq<char>,
    pub target: Seq<char>,
}

/// Builder for creating `ProxyPathConfig` instances.
pub struct ProxyPathConfigBuilder {
    uri: String,
    target: String,
}

impl View for ProxyPathConfigBuilder {
    type V = ProxySettings;

    closed spec fn view(&self) -> ProxySettings {
        ProxySettings { uri: self.uri@, target: self.target@ }
    }
}

impl ProxyPathConfigBuilder {
    /// Sets the URI prefix that is forwarded.
    pub fn uri(self, uri: &str) -> (res: Self)
        ensures
            res@ == (ProxySettings { uri: uri@, ..self@ }),
    {
        let mut b = self;
        b.uri = uri.to_owned();
        b
    }

    /// Sets the target the requests are forwarded to.
    pub fn target(self, target: &str) -> (res: Self)
        ensures
            res@ == (ProxySettings { target: target@, ..self@ }),
    {
        let mut b = self;
        b.target = target.to_owned();
        b
    }

    /// Creates the `ProxyPathConfig`; URI and target must not be empty.
    pub fn build(self) -> (res: Result<ProxyPathConfig, VetisError>)
        ensures
            self@.uri.len() == 0 ==> (res matches Err(VetisError::Config(ConfigError::Path(m)))
                && m@ == "URI cannot be empty"@),
            self@.uri.len() != 0 && self@.target.len() == 0 ==> (res matches Err(
                VetisError::Config(ConfigError::Path(m)),
            ) && m@ == "Target cannot be empty"@),
            self@.uri.len() != 0 && self@.target.len() != 0 ==> (res matches Ok(c) && c@
                == self@),
    {
        if self.uri.as_str().is_empty() {
            return Err(VetisError::Config(ConfigError::Path("URI cannot be empty".to_owned())));
        }
        if self.target.as_str().is_empty() {
            return Err(VetisError::Config(ConfigError::Path("Target cannot be empty".to_owned())));
        }
        Ok(ProxyPathConfig { uri: self.uri, target: self.target })
    }
}

/// Reverse proxy path configuration: requests under `uri` go to `target`.
#[derive(Clone)]
pub struct ProxyPathConfig {
    uri: String,
    target: String,
}

impl View for ProxyPathConfig {
    type V = ProxySettings;

    closed spec fn view(&self) -> ProxySettings {
        ProxySettings { uri: self.uri@, target: self.target@ }
    }
}

impl ProxyPathConfig {
    /// Creates a builder with URI "/test" and target "http://localhost:8080".
    pub fn builder() -> (res: ProxyPathConfigBuilder)
        ensures
            res@ == (ProxySettings { uri: "/test"@, target: "http://localhost:8080"@ }),
    {
        ProxyPathConfigBuilder {
            uri: "/test".to_owned(),
            target: "http://localhost:8080".to_owned(),
        }
    }

    /// A copy of this configuration.
    pub fn duplicate(&self) -> (res: Self)
        ensures
            res@ == self@,
    {
        ProxyPathConfig { uri: self.uri.clone(), target: self.target.clone() }
    }

    /// Returns the URI of the proxy path.
    pub fn uri(&self) -> (res: &str)
        ensures
            res@ == self@.uri,
    {
        self.uri.as_str()
    }

    /// Returns the target of the proxy path.
    pub fn target(&self) -> (res: &str)
        ensures
            res@ == self@.target,
    {
        self.target.as_str()
    }
}

} // verus!
