use vstd::prelude::*;

verus! {

/// A parsed command line.
#[derive(Debug, Clone)]
pub struct Cli {
    pub command: Commands,
}

/// What the command line asks for.
#[derive(Debug, Clone)]
pub enum Commands {
    /// Run the daemon, with the viewers' port and the repository list's file.
    Start { port: Option<u16>, config_file: Option<String> },
    /// Add the repository at `path`, under `name` or a name taken from the path.
    Add { path: String, name: Option<String> },
    /// Stop monitoring the repository of this name.
    Remove { name: String },
    /// Show the configured repositories.
    List,
    /// Ask a running daemon whether it is up.
    Status,
}

} // verus!
