//! The command line, as parsed arguments.

use vstd::prelude::*;

verus! {

/// A parsed command line.
#[derive(Debug)]
pub struct Cli {
    pub command: Command,
}

/// The subcommands.
#[derive(Debug)]
pub enum Command {
    /// Prepare a target VPS (Caddy/systemd prerequisites).
    Init { target: Option<String>, dry_run: bool },
    /// Build and deploy the app to a server.
    Deploy {
        app: Option<String>,
        domain: Option<String>,
        target: Option<String>,
        artifact: String,
        source: Option<String>,
        dry_run: bool,
    },
    /// Stream remote service logs.
    Logs { service: String, app: Option<String>, target: Option<String> },
    /// Open a process dashboard on the host.
    Top { target: Option<String> },
    /// Stream Caddy access telemetry through goaccess.
    Traffic { target: Option<String> },
    /// Manage the app's SQLite database.
    Db { app: Option<String>, target: Option<String>, command: DbCommand },
    /// Generate a deploy key string for CI usage.
    GenerateKey,
}

/// The database subcommands.
#[derive(Debug)]
pub enum DbCommand {
    /// Open a SQLite shell on the host.
    Shell,
    /// Download the database to a local file.
    Pull { local_path: String },
    /// Replace the database with a local file.
    Push { local_path: String },
}

} // verus!
