//! The state of a server: its configuration, its virtual hosts and whether it runs.
//!
//! Binding sockets and serving connections is left to the caller; this state decides
//! whether a start or a stop may go ahead.

use vstd::prelude::*;

use crate::config::server::{ListenerSettings, ServerConfig};
use crate::errors::{VetisError, VirtualHostError};
use crate::server::virtual_host::registry::{host_key, VirtualHosts};
use crate::server::virtual_host::VirtualHost;

verus! {

/// A server: its configuration, the virtual hosts it serves, and whether it has been
/// started.
pub struct Vetis<H> {
    config: ServerConfig,
    virtual_hosts: VirtualHosts<H>,
    running: bool,
}

impl<H> Vetis<H> {
    /// The listeners the server is configured with.
    pub closed spec fn listeners(self) -> Seq<ListenerSettings> {
        self.config@
    }

    /// The virtual hosts, by hostname and port.
    pub closed spec fn hosts(self) -> Map<(Seq<char>, u16), VirtualHost<H>> {
        self.virtual_hosts.hosts_by_key()
    }

    /// Whether the server has been started.
    pub closed spec fn is_running(self) -> bool {
        self.running
    }

    /// Creates a server with the given configuration, no virtual hosts, not started.
    pub fn new(config: ServerConfig) -> (res: Self)
        ensures
            res.listeners() == config@,
            res.hosts() == Map::<(Seq<char>, u16), VirtualHost<H>>::empty(),
            !res.is_running(),
    {
        Vetis { config, virtual_hosts: VirtualHosts::new(), running: false }
    }

    /// Adds a virtual host under its hostname and port; a host added earlier under the
    /// same hostname and port is replaced.
    pub fn add_virtual_host(&mut self, virtual_host: VirtualHost<H>)
        ensures
            final(self).hosts() == old(self).hosts().insert(host_key(virtual_host), virtual_host),
            final(self).listeners() == old(self).listeners(),
            final(self).is_running() == old(self).is_running(),
    {
        self.virtual_hosts.add(virtual_host);
    }

    /// Returns the configuration.
    pub fn config(&self) -> (res: &ServerConfig)
        ensures
            res@ == self.listeners(),
    {
        &self.config
    }

    /// Returns the virtual hosts.
    pub fn virtual_hosts(&self) -> (res: &VirtualHosts<H>)
        ensures
            res.hosts_by_key() == self.hosts(),
    {
        &self.virtual_hosts
    }

    /// Decides whether the server may start: it needs at least one virtual host.
    pub fn start(&self) -> (res: Result<(), VetisError>)
        ensures
            self.hosts().dom() == Set::<(Seq<char>, u16)>::empty() ==> (res matches Err(
                VetisError::VirtualHost(VirtualHostError::NoVirtualHosts),
            )),
            self.hosts().dom() != Set::<(Seq<char>, u16)>::empty() ==> res is Ok,
    {
        self.virtual_hosts.check_startable()
    }

    /// Records that the listeners of the server have started.
    pub fn mark_started(&mut self)
        ensures
            final(self).is_running(),
            final(self).hosts() == old(self).hosts(),
            final(self).listeners() == old(self).listeners(),
    {
        self.running = true;
    }

    /// Decides whether the server may stop: it must have been started.
    pub fn stop(&self) -> (res: Result<(), VetisError>)
        ensures
            self.is_running() ==> res is Ok,
            !self.is_running() ==> (res matches Err(VetisError::NoInstances)),
    {
        if self.running {
            Ok(())
        } else {
            Err(VetisError::NoInstances)
        }
    }
}


/// Once a virtual host has been added, the server may start.
pub proof fn law_start_allowed_after_add<H>(
    before: Map<(Seq<char>, u16), VirtualHost<H>>,
    after: Map<(Seq<char>, u16), VirtualHost<H>>,
    host: VirtualHost<H>,
)
    requires
        after == before.insert(host_key(host), host),
    ensures
        after.dom() != Set::<(Seq<char>, u16)>::empty(),
{
    assert(after.dom().contains(host_key(host)));
}

} // verus!
