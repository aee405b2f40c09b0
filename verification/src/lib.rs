//! The logic of the `roe` command-line client and of its two demo services:
//! parsing of command-line items, building of requests, rendering of
//! responses into table rows, and the decisions of the services.

pub mod client;
pub mod text;
pub mod output;
pub mod commands;
pub mod server;
pub mod table;
