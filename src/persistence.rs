//! Configuration values that are loaded from outside the library.

pub mod config;
