//! Single-listener server configuration: one port on one interface.

use vstd::prelude::*;

verus! {

/// What a single-listener configuration holds.
pub struct PortSettings {
    pub port: u16,
    pub interface: Seq<char>,
}

/// Builder for single-listener server configurations.
#[derive(Clone)]
pub struct ServerConfigBuilder {
    port: u16,
    interface: String,
}

impl View for ServerConfigBuilder {
    type V = PortSettings;

    closed spec fn view(&self) -> PortSettings {
        PortSettings { port: self.port, interface: self.interface@ }
    }
}

impl ServerConfigBuilder {
    /// Sets the port.
    pub fn port(self, port: u16) -> (res: Self)
        ensures
            res@ == (PortSettings { port, ..self@ }),
    {
        ServerConfigBuilder { port, interface: self.interface }
    }

    /// Sets the network interface.
    pub fn interface(self, interface: String) -> (res: Self)
        ensures
            res@ == (PortSettings { interface: interface@, ..self@ }),
    {
        ServerConfigBuilder { port: self.port, interface }
    }

    /// Creates the configuration.
    pub fn build(self) -> (res: ServerConfig)
        ensures
            res@ == self@,
    {
        ServerConfig { port: self.port, interface: self.interface }
    }
}

/// A single-listener server configuration.
#[derive(Clone)]
pub struct ServerConfig {
    port: u16,
    interface: String,
}

impl View for ServerConfig {
    type V = PortSettings;

    closed spec fn view(&self) -> PortSettings {
        PortSettings { port: self.port, interface: self.interface@ }
    }
}

impl Default for ServerConfig {
    /// Port 80 on every interface.
    fn default() -> (res: Self)
        ensures
            res@ == (PortSettings { port: 80, interface: "0.0.0.0"@ }),
    {
        ServerConfig { port: 80, interface: "0.0.0.0".to_owned() }
    }
}

impl ServerConfig {
    /// Creates a builder with port 0 on every interface.
    pub fn builder() -> (res: ServerConfigBuilder)
        ensures
            res@ == (PortSettings { port: 0, interface: "0.0.0.0"@ }),
    {
        ServerConfigBuilder { port: 0, interface: "0.0.0.0".to_owned() }
    }

    /// Returns the port.
    pub fn port(&self) -> (res: u16)
        ensures
            res == self@.port,
    {
        self.port
    }

    /// Changes the port.
    pub fn set_port(&mut self, port: u16)
        ensures
            final(self)@ == (PortSettings { port, ..old(self)@ }),
    {
        self.port = port;
    }

    /// Returns the network interface.
    pub fn interface(&self) -> (res: &String)
        ensures
            res@ == self@.interface,
    {
        &self.interface
    }
}

} // verus!
