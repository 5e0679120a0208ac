//! Interface paths: the requests under a URI are handed to an application worker.

use vstd::prelude::*;

use crate::config::server::virtual_host::path::interface::{
    InterfacePathConfig, InterfaceSettings, InterfaceType,
};

verus! {

/// A worker for a Python application behind RSGI.
pub struct RsgiPythonWorker {
    file: String,
}

impl RsgiPythonWorker {
    /// Creates a worker for the application in `file`.
    pub fn new(file: String) -> (res: RsgiPythonWorker)
        ensures
            res.file() == file@,
    {
        RsgiPythonWorker { file }
    }

    /// The application file.
    pub closed spec fn file(self) -> Seq<char> {
        self.file@
    }
}

/// A worker for a Ruby application behind RSGI.
pub struct RsgiRubyWorker {
    file: String,
}

impl RsgiRubyWorker {
    /// Creates a worker for the application in `file`.
    pub fn new(file: String) -> (res: RsgiRubyWorker)
        ensures
            res.file() == file@,
    {
        RsgiRubyWorker { file }
    }

    /// The application file.
    pub closed spec fn file(self) -> Seq<char> {
        self.file@
    }
}

/// The worker behind an interface path.
pub enum Interface {
    /// A Python application behind RSGI
    RsgiPython(RsgiPythonWorker),
    /// A Ruby application behind RSGI
    RsgiRuby(RsgiRubyWorker),
}

/// The interface types this server has workers for.
pub open spec fn interface_supported(interface_type: InterfaceType) -> bool {
    interface_type == InterfaceType::RsgiPython || interface_type == InterfaceType::RsgiRuby
}

/// A path whose requests are handed to an application worker.
pub struct InterfacePath {
    config: InterfacePathConfig,
    interface: Interface,
}

impl InterfacePath {
    /// Creates an interface path and the worker for its type, which runs the target
    /// file of the configuration.
    pub fn new(config: InterfacePathConfig) -> (res: InterfacePath)
        requires
            interface_supported(config@.interface_type),
        ensures
            res.settings() == config@,
            config@.interface_type == InterfaceType::RsgiPython ==> (res.interface() matches Interface::RsgiPython(w)
                && w.file() == config@.target),
            config@.interface_type == InterfaceType::RsgiRuby ==> (res.interface() matches Interface::RsgiRuby(w)
                && w.file() == config@.target),
    {
        let file = config.target().to_owned();
        let interface = match config.interface_type() {
            InterfaceType::RsgiPython => Interface::RsgiPython(RsgiPythonWorker::new(file)),
            _ => Interface::RsgiRuby(RsgiRubyWorker::new(file)),
        };
        InterfacePath { config, interface }
    }

    /// The configuration of this path.
    pub closed spec fn settings(self) -> InterfaceSettings {
        self.config@
    }

    /// The worker of this path.
    pub closed spec fn interface(self) -> Interface {
        self.interface
    }

    /// Returns the configuration.
    pub fn config(&self) -> (res: &InterfacePathConfig)
        ensures
            res@ == self.settings(),
    {
        &self.config
    }

    /// Returns the worker.
    pub fn worker(&self) -> (res: &Interface)
        ensures
            *res == self.interface(),
    {
        &self.interface
    }

    /// Returns the URI prefix this path is served under.
    pub fn uri(&self) -> (res: &str)
        ensures
            res@ == self.settings().uri,
    {
        self.config.uri()
    }
}

} // verus!
