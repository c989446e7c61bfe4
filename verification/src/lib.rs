//! Remote deployment and server-registry core for turning a laptop into an
//! always-on, remotely managed server.
//!
//! The library decides and the caller performs. Wherever work has to be done
//! on a network, a disk or a clock, the library says what to do next and
//! takes what happened as a plain value, so that every decision is verified
//! for every outcome.
//!
//! - [`config`]: the configuration and the registry of named targets.
//! - [`connect`]: connection parameters and the order of transport,
//!   handshake and authentication.
//! - [`ssh`]: the commands that a session issues and the reading of their
//!   outcomes.
//! - [`transfer`]: the steps of sending a file or a directory tree.
//! - [`pool`]: at most one cached session per endpoint.
//! - [`deploy`] and [`executor`]: the deployment manifest and the walk
//!   through a plan.
//! - [`monitor`], [`power`], [`health`]: reading what the power tools of a
//!   machine print, and judging it.
//! - [`formatting`], [`system`], [`wizard`]: rendering and the reading of
//!   typed answers.
//! - [`text`], [`path`]: strings and slash-separated paths.
//! - [`platform`]: what is taken from the surroundings of the process.
//! - [`error`]: the named failure conditions.

pub mod config;
pub mod connect;
pub mod deploy;
pub mod error;
pub mod executor;
pub mod formatting;
pub mod health;
pub mod monitor;
pub mod path;
pub mod platform;
pub mod pool;
pub mod power;
pub mod ssh;
pub mod system;
pub mod text;
pub mod transfer;
pub mod wizard;
