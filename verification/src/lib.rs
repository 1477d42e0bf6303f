//! Process-wide logging bootstrap.
//!
//! The crate resolves a destination, a verbosity name and the filter
//! directives of the environment into a [`config::Config`], and
//! [`log::init`] hands that configuration to `tracing-subscriber` and
//! `tracing-appender`. Everything the bootstrap decides is stated as a
//! contract and proved; the calls into those crates, gathered in
//! [`backend`], are trusted.

pub mod text;
pub mod level;
pub mod directives;
pub mod destination;
pub mod config;
pub mod backend;
pub mod log;
