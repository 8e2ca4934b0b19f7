//! The interactive-client subcommand.
//!
//! The session itself is transport around the library; what lives here is
//! the subcommand's flags and the pure layering of its logging options.

use vstd::prelude::*;

use crate::error::Error;
use crate::options::LoggingOptions;
use crate::options::Options;
use crate::options::TopLevelOptions;

verus! {

/// The interactive-client subcommand's flags, as parsed at the boundary.
#[derive(Clone, Debug, PartialEq, Eq)]
pub struct REPL {
    pub grpc_addr: String,
    pub meta_addr: Option<String>,
    pub disable_helper: bool,
}

impl REPL {
    /// Logging options of an interactive session: the defaults, with the
    /// top-level overrides applied.
    pub fn load_options(&self, top_level_opts: TopLevelOptions) -> (r: Result<Options, Error>)
        ensures
            r matches Ok(Options::Cli(l)) && {
                &&& top_level_opts.log_dir matches Some(dir) ==> l.dir@ == dir@
                &&& top_level_opts.log_dir is None ==> l.dir@ == "./logs"@
                &&& top_level_opts.log_level is Some ==> l.level == top_level_opts.log_level
                &&& top_level_opts.log_level is None ==> l.level is None
            },
    {
        let mut logging_opts = LoggingOptions::default();
        if let Some(dir) = top_level_opts.log_dir {
            logging_opts.dir = dir;
        }
        if top_level_opts.log_level.is_some() {
            logging_opts.level = top_level_opts.log_level;
        }
        Ok(Options::Cli(Box::new(logging_opts)))
    }
}

} // verus!
