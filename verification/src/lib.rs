//! Resolution engine for a declarative backup configuration.
//!
//! Given a configuration of named profiles, this library validates
//! credentials, flattens inherited filesets, translates retention policies
//! into the backup engine's flag vocabulary, and assembles the argument
//! list and environment for each supported operation. It never spawns the
//! engine itself: every operation is returned as a ready-to-run
//! [`invocation::Invocation`] value for the caller to execute.

pub mod config;
pub mod credentials;
pub mod error;
pub mod filesets;
pub mod invocation;
pub mod model;
pub mod retention;
pub mod strutil;
