//! Server listener configuration: which ports, protocols and interfaces the server uses.

use vstd::prelude::*;

use crate::errors::ConfigError;

pub mod virtual_host;

verus! {

/// Supported HTTP protocols.
#[derive(Clone, Copy, Debug, PartialEq, Eq, Structural)]
#[non_exhaustive]
pub enum Protocol {
    /// HTTP/1.1 protocol
    Http1,
    /// HTTP/2 protocol (requires TLS)
    Http2,
    /// HTTP/3 protocol over QUIC (requires TLS)
    Http3,
}

/// The protocol a listener uses when none is chosen.
pub fn default_protocol() -> (res: Protocol)
    ensures
        res == Protocol::Http1,
{
    Protocol::Http1
}

/// What a listener configuration holds.
pub struct ListenerSettings {
    pub port: u16,
    pub ssl: bool,
    pub protocol: Protocol,
    pub interface: Seq<char>,
}

/// Builder for creating `ListenerConfig` instances.
#[derive(Clone)]
pub struct ListenerConfigBuilder {
    port: u16,
    ssl: bool,
    protocol: Protocol,
    interface: String,
}

impl View for ListenerConfigBuilder {
    type V = ListenerSettings;

    closed spec fn view(&self) -> ListenerSettings {
        ListenerSettings {
            port: self.port,
            ssl: self.ssl,
            protocol: self.protocol,
            interface: self.interface@,
        }
    }
}

impl ListenerConfigBuilder {
    /// Sets the port number for the listener.
    pub fn port(self, port: u16) -> (res: Self)
        ensures
            res@ == (ListenerSettings { port: port, ..self@ }),
    {
        let mut b = self;
        b.port = port;
        b
    }

    /// Sets whether SSL/TLS is enabled for this listener.
    pub fn ssl(self, ssl: bool) -> (res: Self)
        ensures
            res@ == (ListenerSettings { ssl: ssl, ..self@ }),
    {
        let mut b = self;
        b.ssl = ssl;
        b
    }

    /// Sets the network interface to bind to ("0.0.0.0", "127.0.0.1", "::1", ...).
    pub fn interface(self, interface: &str) -> (res: Self)
        ensures
            res@ == (ListenerSettings { interface: interface@, ..self@ }),
    {
        let mut b = self;
        b.interface = interface.to_owned();
        b
    }

    /// Sets the HTTP protocol for this listener.
    pub fn protocol(self, protocol: Protocol) -> (res: Self)
        ensures
            res@ == (ListenerSettings { protocol: protocol, ..self@ }),
    {
        let mut b = self;
        b.protocol = protocol;
        b
    }

    /// Creates the `ListenerConfig`; the port must not be 0 and the interface not empty.
    pub fn build(self) -> (res: Result<ListenerConfig, ConfigError>)
        ensures
            self@.port == 0 ==> (res matches Err(ConfigError::Listener(m))
                && m@ == "Port cannot be 0"@),
            self@.port != 0 && self@.interface.len() == 0 ==> (res matches Err(
                ConfigError::Listener(m),
            ) && m@ == "Interface cannot be empty"@),
            self@.port != 0 && self@.interface.len() != 0 ==> (res matches Ok(c) && c@ == self@),
    {
        if self.port == 0 {
            return Err(ConfigError::Listener("Port cannot be 0".to_owned()));
        }
        if self.interface.as_str().is_empty() {
            return Err(ConfigError::Listener("Interface cannot be empty".to_owned()));
        }
        Ok(ListenerConfig {
            port: self.port,
            ssl: self.ssl,
            protocol: self.protocol,
            interface: self.interface,
        })
    }
}

/// Configuration for a server listener: port, protocol, interface and SSL setting.
#[derive(Clone)]
pub struct ListenerConfig {
    port: u16,
    ssl: bool,
    protocol: Protocol,
    interface: String,
}

impl View for ListenerConfig {
    type V = ListenerSettings;

    closed spec fn view(&self) -> ListenerSettings {
        ListenerSettings {
            port: self.port,
            ssl: self.ssl,
            protocol: self.protocol,
            interface: self.interface@,
        }
    }
}

impl ListenerConfig {
    /// Creates a builder with port 80, SSL off, HTTP/1 and interface "0.0.0.0".
    pub fn builder() -> (res: ListenerConfigBuilder)
        ensures
            res@ == (ListenerSettings {
                port: 80,
                ssl: false,
                protocol: Protocol::Http1,
                interface: "0.0.0.0"@,
            }),
    {
        ListenerConfigBuilder {
            port: 80,
            ssl: false,
            protocol: default_protocol(),
            interface: "0.0.0.0".to_owned(),
        }
    }

    /// Returns the port number.
    pub fn port(&self) -> (res: u16)
        ensures
            res == self@.port,
    {
        self.port
    }

    /// Returns whether SSL/TLS is enabled.
    pub fn ssl(&self) -> (res: bool)
        ensures
            res == self@.ssl,
    {
        self.ssl
    }

    /// Returns the HTTP protocol.
    pub fn protocol(&self) -> (res: &Protocol)
        ensures
            *res == self@.protocol,
    {
        &self.protocol
    }

    /// Returns the network interface.
    pub fn interface(&self) -> (res: &str)
        ensures
            res@ == self@.interface,
    {
        self.interface.as_str()
    }
}

/// The listeners a server configuration holds, as their settings.
pub open spec fn listener_settings(listeners: Seq<ListenerConfig>) -> Seq<ListenerSettings> {
    listeners.map_values(|l: ListenerConfig| l@)
}

/// Builder for creating `ServerConfig` instances.
#[derive(Clone)]
pub struct ServerConfigBuilder {
    listeners: Vec<ListenerConfig>,
}

impl View for ServerConfigBuilder {
    type V = Seq<ListenerSettings>;

    closed spec fn view(&self) -> Seq<ListenerSettings> {
        listener_settings(self.listeners@)
    }
}

impl ServerConfigBuilder {
    /// Adds a listener configuration to the server.
    pub fn add_listener(self, listener: ListenerConfig) -> (res: Self)
        ensures
            res@ == self@.push(listener@),
    {
        let mut b = self;
        b.listeners.push(listener);
        proof {
            assert(listener_settings(b.listeners@) =~= listener_settings(self.listeners@).push(
                listener@,
            ));
        }
        b
    }

    /// Creates the `ServerConfig`; at least one listener is required.
    pub fn build(self) -> (res: Result<ServerConfig, ConfigError>)
        ensures
            self@.len() == 0 ==> (res matches Err(ConfigError::Server(m))
                && m@ == "No listeners configured"@),
            self@.len() != 0 ==> (res matches Ok(c) && c@ == self@),
    {
        if self.listeners.len() == 0 {
            return Err(ConfigError::Server("No listeners configured".to_owned()));
        }
        Ok(ServerConfig { listeners: self.listeners })
    }
}

/// Global server configuration: the listeners that accept connections.
#[derive(Clone)]
pub struct ServerConfig {
    listeners: Vec<ListenerConfig>,
}

impl View for ServerConfig {
    type V = Seq<ListenerSettings>;

    closed spec fn view(&self) -> Seq<ListenerSettings> {
        listener_settings(self.listeners@)
    }
}

impl Default for ServerConfig {
    fn default() -> (res: Self)
        ensures
            res@ == Seq::<ListenerSettings>::empty(),
    {
        let res = ServerConfig { listeners: Vec::new() };
        proof {
            assert(listener_settings(res.listeners@) =~= Seq::<ListenerSettings>::empty());
        }
        res
    }
}

impl ServerConfig {
    /// Creates a builder with no listeners.
    pub fn builder() -> (res: ServerConfigBuilder)
        ensures
            res@ == Seq::<ListenerSettings>::empty(),
    {
        let res = ServerConfigBuilder { listeners: Vec::new() };
        proof {
            assert(listener_settings(res.listeners@) =~= Seq::<ListenerSettings>::empty());
        }
        res
    }

    /// Returns all configured listeners, in the order they were added.
    pub fn listeners(&self) -> (res: &Vec<ListenerConfig>)
        ensures
            listener_settings(res@) == self@,
    {
        &self.listeners
    }
}

} // verus!
