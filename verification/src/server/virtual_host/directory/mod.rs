//! Directories served by a virtual host.

pub mod static_directory;
