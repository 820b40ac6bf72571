//! The command line of the tool, as plain values.
use vstd::prelude::*;

verus! {

/// How a workspace is opened: the project folders handed to Zed directly,
/// or one symlink dock whose entries link to them.
#[derive(Clone, Copy, Debug, PartialEq, Eq, Structural)]
pub enum Mode {
    Folders,
    Symlink,
}

/// The subcommands of the tool.
#[derive(Debug)]
pub enum Commands {
    /// Write a workspace file for the given folders.
    Create {
        name: Option<String>,
        output: Option<String>,
        mode: Mode,
        folder: Vec<String>,
        force: bool,
    },
    /// Open a workspace file in Zed.
    Open { workspace: String, mode: Option<Mode>, reuse: bool, zed_bin: String },
    /// Install the tool's command and tasks.
    Install { command: Option<String>, tasks_path: Option<String> },
    /// List the known workspaces.
    List,
}

/// A parsed command line.
#[derive(Debug)]
pub struct Cli {
    pub command: Commands,
}

} // verus!
