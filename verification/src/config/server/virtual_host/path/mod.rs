//! Configuration of the paths a virtual host serves.

pub mod auth;
pub mod interface;
pub mod proxy;
pub mod static_files;
