//! Session control for a single external screen-capture process.
//!
//! The library decides what a `start`, a `stop` or a `status` does next and
//! leaves files, child processes and sleeping to its caller; signals, the
//! home directory and the clock it asks of the host itself. Every decision
//! is stated as a contract over plain values and proved.

pub mod command;
pub mod controller;
pub mod geometry;
pub mod model;
pub mod report;
pub mod session;
pub mod system;
pub mod text;
