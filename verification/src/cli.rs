use vstd::prelude::*;

verus! {

/// The command line: one subcommand.
#[derive(Debug, Clone, PartialEq, Eq)]
pub struct BratchCli {
    pub command: Command,
}

/// The subcommands of the tool.
#[derive(Debug, Clone, PartialEq, Eq)]
pub enum Command {
    Compare(CompareArgs),
    Signatures,
    Update,
    Init,
    Tail,
    Explain,
}

/// The flags of `compare`.
#[derive(Debug, Clone, PartialEq, Eq)]
pub struct CompareArgs {
    pub signature: String,
    pub diff: Option<String>,
    pub history: Option<String>,
    pub manifest: Option<String>,
    pub json: bool,
    pub quiet: bool,
    pub reason: Option<String>,
}

} // verus!
