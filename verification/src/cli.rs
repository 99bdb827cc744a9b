//! Parsed command-line options, as plain values the rest of the library
//! can reason about. The actual argument parsing lives with the binary.

use vstd::prelude::*;

verus! {

/// The options a cleanup run is invoked with: `yes` suppresses per-target
/// confirmation, `apply` enables destructive mode (its absence means
/// preview), and `paths` lists the root paths to scan.
pub struct CliArgs {
    pub yes: bool,
    pub apply: bool,
    pub paths: Vec<String>,
}

impl CliArgs {
    /// A run is a dry run exactly when `--apply` was not given.
    pub fn is_dry_run(&self) -> (r: bool)
        ensures
            r == !self.apply,
    {
        !self.apply
    }
}

} // verus!
