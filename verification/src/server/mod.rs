//! The server: its state, connection decisions and virtual hosts.

pub mod config;
pub mod conn;
pub mod instance;
pub mod tls;
pub mod virtual_host;
