//! The state of one run: the parsed command line, the workspace root and its
//! configuration.
use vstd::prelude::*;
use crate::cli::Cli;
use crate::config::LunaConfig;

verus! {

/// Per-run session passed through the application lifecycle.
pub struct LunaSession {
    pub cli: Cli,
    /// The workspace root.
    pub root: String,
    pub config: LunaConfig,
}

impl LunaSession {
    /// A session over a command line, a root and a configuration.
    pub fn new(cli: Cli, root: String, config: LunaConfig) -> (r: Self)
        ensures
            r.cli == cli,
            r.root@ == root@,
            r.config == config,
    {
        LunaSession { cli, root, config }
    }
}

} // verus!
