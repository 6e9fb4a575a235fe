//! The launch command handed back to the host: which executable to spawn,
//! with which arguments and environment overrides.

use vstd::prelude::*;

verus! {

/// A command descriptor for the host to spawn: an executable path, an
/// ordered argument list, and environment variable overrides.
pub struct LaunchCommand {
    /// Path to the executable to spawn.
    pub command: String,
    /// Command-line arguments, in order.
    pub args: Vec<String>,
    /// Environment variable overrides, as name/value pairs.
    pub env: Vec<(String, String)>,
}

impl LaunchCommand {
    /// A well-formed launch command names a non-empty executable path.
    pub open spec fn wf(self) -> bool {
        self.command@.len() > 0
    }

    /// Builds the bare command: the given executable, no arguments, no
    /// environment overrides.
    pub fn bare(command: String) -> (r: LaunchCommand)
        ensures
            r.command@ == command@,
            r.args@ == Seq::<String>::empty(),
            r.env@ == Seq::<(String, String)>::empty(),
            r.wf() <==> command@.len() > 0,
    {
        LaunchCommand { command, args: Vec::new(), env: Vec::new() }
    }
}

} // verus!
