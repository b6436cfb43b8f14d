//! Decision logic of a laptop power and thermal control daemon.
//!
//! The crate holds the rules of two engines and performs no input or output
//! itself. The fan engine turns temperature readings into attribute writes for
//! the fan controllers; the graphics engine classifies display devices and
//! sequences the steps that switch a discrete GPU on, off, or between vendor
//! modes. A host program carries out the requests and reports what it saw.

pub mod config;
pub mod fan;
pub mod graphics;
pub mod text;
