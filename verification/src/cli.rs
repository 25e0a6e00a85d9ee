//! The command surface: what a user can ask for.

use vstd::prelude::*;

verus! {

/// A parsed command line.
#[derive(Debug)]
pub struct Cli {
    pub command: Commands,
}

/// The two commands.
#[derive(Debug)]
pub enum Commands {
    /// Store the credentials for later runs.
    Auth { client_id: String, client_secret: String, url: String },
    /// Replace the payload of a package by the file at `path`, under the
    /// package name `name` (the file's stem when absent) and with the
    /// priority `priority` (the package's own when absent).
    Update { path: String, name: Option<String>, priority: Option<i32> },
}

} // verus!
