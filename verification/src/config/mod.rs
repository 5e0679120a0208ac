//! Configuration builders and types for VeTiS.

use vstd::prelude::*;

use crate::config::server::virtual_host::VirtualHostConfig;
use crate::config::server::ServerConfig;

pub mod server;

verus! {

/// What a server's configuration file holds: the log level, the number of worker and
/// blocking threads, the listeners and the virtual hosts.
pub struct VetisServerConfig {
    pub log_level: String,
    pub workers: usize,
    pub max_blocking_threads: usize,
    pub server: ServerConfig,
    pub virtual_hosts: Vec<VirtualHostConfig>,
}

} // verus!
