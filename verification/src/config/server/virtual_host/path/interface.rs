//! Language interface path configuration (PHP, ASGI, WSGI, RSGI).

use std::collections::HashMap;

use vstd::prelude::*;

use crate::errors::{ConfigError, VetisError};

verus! {

/// The kind of application interface behind a path.
#[derive(Clone, Copy, Debug, PartialEq, Eq, Structural)]
#[non_exhaustive]
pub enum InterfaceType {
    Php,
    Asgi,
    Wsgi,
    RsgiPython,
    RsgiRuby,
}

/// The view of optional parameters.
pub open spec fn opt_params(params: Option<HashMap<String, String>>) -> Option<Map<String, String>> {
    match params {
        Some(p) => Some(p@),
        None => None,
    }
}

/// What an interface path configuration holds.
pub struct InterfaceSettings {
    pub uri: Seq<char>,
    pub target: Seq<char>,
    pub params: Option<Map<String, String>>,
    pub interface_type: InterfaceType,
}

/// Builder for creating `InterfacePathConfig` instances.
pub struct InterfacePathConfigBuilder {
    uri: String,
    target: String,
    params: Option<HashMap<String, String>>,
    interface_type: InterfaceType,
}

impl View for InterfacePathConfigBuilder {
    type V = InterfaceSettings;

    closed spec fn view(&self) -> InterfaceSettings {
        InterfaceSettings {
            uri: self.uri@,
            target: self.target@,
            params: opt_params(self.params),
            interface_type: self.interface_type,
        }
    }
}

impl InterfacePathConfigBuilder {
    /// Sets the URI of the interface path.
    pub fn uri(self, uri: &str) -> (res: Self)
        ensures
            res@ == (InterfaceSettings { uri: uri@, ..self@ }),
    {
        let mut b = self;
        b.uri = uri.to_owned();
        b
    }

    /// Sets the target (the application script) of the interface path.
    pub fn target(self, target: &str) -> (res: Self)
        ensures
            res@ == (InterfaceSettings { target: target@, ..self@ }),
    {
        let mut b = self;
        b.target = target.to_owned();
        b
    }

    /// Sets the parameters of the interface path.
    pub fn params(self, params: HashMap<String, String>) -> (res: Self)
        ensures
            res@ == (InterfaceSettings { params: Some(params@), ..self@ }),
    {
        let mut b = self;
        b.params = Some(params);
        b
    }

    /// Sets the interface type of the interface path.
    pub fn interface_type(self, interface_type: InterfaceType) -> (res: Self)
        ensures
            res@ == (InterfaceSettings { interface_type: interface_type, ..self@ }),
    {
        let mut b = self;
        b.interface_type = interface_type;
        b
    }

    /// Creates the `InterfacePathConfig`; the URI must not be empty.
    pub fn build(self) -> (res: Result<InterfacePathConfig, VetisError>)
        ensures
            self@.uri.len() == 0 ==> (res matches Err(VetisError::Config(ConfigError::Path(m)))
                && m@ == "URI cannot be empty"@),
            self@.uri.len() != 0 ==> (res matches Ok(c) && c@ == self@),
    {
        if self.uri.as_str().is_empty() {
            return Err(VetisError::Config(ConfigError::Path("URI cannot be empty".to_owned())));
        }
        Ok(
            InterfacePathConfig {
                uri: self.uri,
                target: self.target,
                params: self.params,
                interface_type: self.interface_type,
            },
        )
    }
}

/// Interface path configuration.
#[derive(Clone)]
pub struct InterfacePathConfig {
    uri: String,
    target: String,
    params: Option<HashMap<String, String>>,
    interface_type: InterfaceType,
}

impl View for InterfacePathConfig {
    type V = InterfaceSettings;

    closed spec fn view(&self) -> InterfaceSettings {
        InterfaceSettings {
            uri: self.uri@,
            target: self.target@,
            params: opt_params(self.params),
            interface_type: self.interface_type,
        }
    }
}

impl InterfacePathConfig {
    /// Creates a builder with URI "/", target "main", no parameters and WSGI.
    pub fn builder() -> (res: InterfacePathConfigBuilder)
        ensures
            res@ == (InterfaceSettings {
                uri: "/"@,
                target: "main"@,
                params: None,
                interface_type: InterfaceType::Wsgi,
            }),
    {
        InterfacePathConfigBuilder {
            uri: "/".to_owned(),
            target: "main".to_owned(),
            params: None,
            interface_type: InterfaceType::Wsgi,
        }
    }

    /// A copy of this configuration.
    pub fn duplicate(&self) -> (res: Self)
        ensures
            res@ == self@,
    {
        InterfacePathConfig {
            uri: self.uri.clone(),
            target: self.target.clone(),
            params: match &self.params {
                Some(p) => Some(p.clone()),
                None => None,
            },
            interface_type: self.interface_type,
        }
    }

    /// Returns the URI.
    pub fn uri(&self) -> (res: &str)
        ensures
            res@ == self@.uri,
    {
        self.uri.as_str()
    }

    /// Returns the target.
    pub fn target(&self) -> (res: &str)
        ensures
            res@ == self@.target,
    {
        self.target.as_str()
    }

    /// Returns the parameters.
    pub fn params(&self) -> (res: &Option<HashMap<String, String>>)
        ensures
            opt_params(*res) == self@.params,
    {
        &self.params
    }

    /// Returns the interface type.
    pub fn interface_type(&self) -> (res: &InterfaceType)
        ensures
            *res == self@.interface_type,
    {
        &self.interface_type
    }
}

} // verus!
