//! VeTiS (Very Tiny Server): configuration, routing and request-decision logic of a
//! minimalist HTTP server, with contracts checked by Verus.
//!
//! The modules hold the parts of the server that decide: configuration builders and
//! their validation, the virtual-host registry, prefix routing of request paths,
//! static-file and range decisions, and basic authentication.

pub mod config;
pub mod errors;
pub mod server;
pub mod text;
pub mod utils;

pub use server::instance::Vetis;
