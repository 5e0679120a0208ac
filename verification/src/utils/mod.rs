//! Utilities.

pub mod date;
