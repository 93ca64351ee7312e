use vstd::prelude::*;

verus! {

/// The switches that hold for a whole invocation.
#[derive(Clone, Copy, Debug)]
pub struct GlobalOptions {
    /// Say more about what is done.
    pub verbose: bool,
    /// Show what would be done without doing it.
    pub dry_run: bool,
    /// Do not ask before acting.
    pub force: bool,
}

} // verus!
