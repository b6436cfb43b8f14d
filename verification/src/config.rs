//! Configuration of the daemon.

pub mod profile;
