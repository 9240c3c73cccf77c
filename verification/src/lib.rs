//! Matchmaking rules for pairing game clients with dedicated servers.
//!
//! The crate holds the decisions of the matchmaker as verified functions on
//! plain values: the text protocol, the pool of waiting servers, the choice
//! of a port and of a workspace name, and the state machine of a connection.
//! Sockets, files and processes belong to the program that drives it.
//!
//! - `connection`: the state machine of one client connection.
//! - `request`: the commands of the protocol.
//! - `pool`: the servers that wait for a client.
//! - `provision`: the steps that start a server, how they ended, and what the
//!   client hears.
//! - `ports`: the scan for a free port.
//! - `workspace`: the name and place of a server's working directory.
//! - `launcher`: the link and the command that a new server needs, and where
//!   its executable is looked for.
//! - `text`: tokens, comparison and decimal numbers.
//! - `arguments_parser`, `startup`: the command line.
//! - `config`, `config_updaters`: the configuration and its format versions.

pub mod arguments_parser;
pub mod config;
pub mod config_updaters;
pub mod connection;
pub mod launcher;
pub mod pool;
pub mod ports;
pub mod provision;
pub mod request;
pub mod startup;
pub mod text;
pub mod workspace;
