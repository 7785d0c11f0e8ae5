//! The command line of the tool: `install`, `create <name>`, `run`, `stop`
//! and `shell`.
use vstd::prelude::*;

verus! {

/// The parsed command line.
pub struct Cli {
    pub command: Commands,
}

/// The commands of the tool.
pub enum Commands {
    /// Installs the programs of the global configuration.
    Install,
    /// Creates a new project.
    Create(CreateArgs),
    /// Starts the project's services.
    Run,
    /// Stops the project's services.
    Stop,
    /// Opens a shell that finds the installed programs.
    Shell,
}

/// The arguments of `create`.
pub struct CreateArgs {
    pub name: String,
    /// The project template; `fullstack` unless given.
    pub template: String,
}

} // verus!
