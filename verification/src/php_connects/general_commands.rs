//! The command line of the first generation: start and end PHP and MySQL
//! together or each on its own.
use vstd::prelude::*;

verus! {

/// The parsed command line.
pub struct Cli {
    pub command: Commands,
}

/// The commands.
pub enum Commands {
    /// Starts PHP and MySQL.
    Start,
    /// Ends every running process.
    End,
    /// Acts on PHP.
    Php { action: ServiceAction },
    /// Acts on MySQL.
    Mysql { action: ServiceAction },
}

/// What to do with one service.
#[derive(Clone, Copy, Debug, PartialEq, Eq, Structural)]
pub enum ServiceAction {
    Start,
    End,
}

} // verus!
