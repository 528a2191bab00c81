//! The command line of the feeder, as plain values; the program parses it.

use vstd::prelude::*;

verus! {

/// The command line: the subcommand to run, if one was given.
#[derive(Debug, PartialEq)]
pub struct Cli {
    pub command: Option<Commands>,
}

/// The subcommands of the feeder.
#[derive(Debug, PartialEq)]
pub enum Commands {
    /// Starts the oracle feeder against a parachain with the given account seed.
    Start { parachain_url: String, account_seed: String },
}

} // verus!
