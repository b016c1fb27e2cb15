//! The verified core of the NostDB database server.
//!
//! Every decision of the server stands here with its contract: the database
//! protocol's connection machine, the managed catalog and its lifecycle, the
//! snapshot replacement and recovery machines, the wire value conversions, the
//! HTTP rules, the configuration rules and the command lines.

pub mod catalog;
pub mod cli;
pub mod client;
pub mod config;
pub mod durability;
pub mod execution;
pub mod failure;
pub mod http;
pub mod json;
pub mod lifecycle;
pub mod manage;
pub mod package;
pub mod path;
pub mod protocol;
pub mod recovery;
pub mod restore;
pub mod server;
pub mod sessions;
pub mod setup;
pub mod startup;
pub mod storage;
pub mod swap;
pub mod text;
pub mod time;
pub mod wire;

pub use crate::failure::ServerError;
pub use crate::server::{ServerConfig, SERVER_PROTOCOL_VERSION};
