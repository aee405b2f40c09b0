//! The subcommands of the client: what each one sends and how it shows the
//! reply.

pub mod application;
pub mod config;
pub mod deploy;
pub mod info;
pub mod terminate;

use vstd::prelude::*;

verus! {

/// The subcommands that the client dispatches.
#[derive(Debug)]
pub enum Commands {
    /// Call the Deploy operation of the DeployManager service.
    Deploy {
        /// YAML configuration content (required unless `json` is given).
        yaml_content: Option<String>,
        /// Environment variables in `KEY=VALUE` format.
        env_vars: Vec<String>,
        /// All parameters as one JSON object instead of the fields above.
        json: Option<String>,
    },
    /// Call the Info operation of the ManagedApplication service.
    Info,
    /// Call the Terminate operation of the ManagedApplication service.
    Terminate {
        /// Reason sent to the server for the graceful shutdown request.
        reason: Option<String>,
    },
}

} // verus!
