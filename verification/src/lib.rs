//! A single-host inference dispatcher: the rules by which a front end keeps a
//! pool of worker processes, hands each request to an idle worker, and maps
//! what happened onto its public interface.
//!
//! The crate holds the decisions only. Starting processes, opening channels
//! and serving HTTP are left to the program around it, which tells the
//! library what happened and acts on what the library answers.

pub mod config;
pub mod error;
pub mod manager;
pub mod protocol;
pub mod registry;
pub mod render;
pub mod rpc;
pub mod server;
pub mod task;
pub mod transcode;
pub mod util;
pub mod worker;
