//! Core of a desktop control centre: a short-lived cache of host settings,
//! the queriers that read and write them through command-line utilities,
//! the snapshot aggregator, and the single-instance / visibility protocol.
//!
//! The library performs no I/O. Each operation is a function from what has
//! been observed so far to the next thing to do, so that a driver can run
//! the commands and hand their outcomes back.

pub mod text;
pub mod decimal;
pub mod error;
pub mod state;
pub mod pattern;
pub mod runner;
pub mod parse;
pub mod request;
pub mod commands;
pub mod window;
pub mod instance;
