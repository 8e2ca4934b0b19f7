//! The command-line surface: which subcommand runs, and with what options.
//!
//! Argument parsing and the processes the subcommands start are the
//! boundary's business; the choice of options for each subcommand is pure
//! and lives here.

use vstd::prelude::*;

use crate::error::Error;
use crate::options::Options;
use crate::options::TopLevelOptions;
use crate::subcmd::repl;
use crate::subcmd::standalone;

verus! {

/// A maintenance tool attached to a running instance.
pub trait Tool {
    fn do_work(&self) -> Result<(), Error>;
}

/// What an attached interactive session needs to reach an instance.
#[derive(Clone, Debug, PartialEq, Eq)]
pub struct AttachCommand {
    pub grpc_addr: String,
    pub meta_addr: Option<String>,
    pub disable_helper: bool,
}

/// The subcommands this process offers.
#[derive(Clone, Debug, PartialEq, Eq)]
pub enum Commands {
    Standalone(standalone::Standalone),
    REPL(repl::REPL),
}

impl Commands {
    /// Resolves the options of the chosen subcommand over the given base,
    /// with no top-level overrides. The base is what the boundary loaded
    /// from configuration, or the defaults.
    pub fn load_options(&self, base: standalone::StandaloneOptions) -> (r: Result<Options, Error>)
        ensures
            self is Standalone ==> (r matches Ok(o) ==> o is Standalone),
            self is REPL ==> (r matches Ok(o) && o is Cli),
            self matches Commands::Standalone(cmd) ==> (r is Err
                <==> standalone::rpc_addr_conflicts(cmd.rpc_addr)),
    {
        match self {
            Commands::Standalone(cmd) => cmd.load_options(TopLevelOptions::default(), base),
            Commands::REPL(cmd) => cmd.load_options(TopLevelOptions::default()),
        }
    }
}

} // verus!
