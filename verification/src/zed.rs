//! The command line handed to Zed when a workspace is opened.
use vstd::prelude::*;

verus! {

/// What Zed is asked to open: the project folders themselves, or the root
/// of a symlink dock.
pub enum OpenTarget {
    Folders(Vec<String>),
    Dock(String),
}

/// The flag that makes Zed open a new window.
pub open spec fn new_window_flag() -> Seq<char> {
    seq!['-', 'n']
}

/// The paths of a target, in the order Zed receives them.
pub open spec fn target_paths(target: OpenTarget) -> Seq<Seq<char>> {
    match target {
        OpenTarget::Folders(folders) => folders@.map_values(|f: String| f@),
        OpenTarget::Dock(root) => seq![root@],
    }
}

/// The arguments for a target: `-n` first unless an existing window is
/// reused, then the paths of the target.
pub open spec fn zed_args_spec(target: OpenTarget, reuse: bool) -> Seq<Seq<char>> {
    if reuse {
        target_paths(target)
    } else {
        seq![new_window_flag()] + target_paths(target)
    }
}

/// The arguments list every folder, in order, after the `-n` flag when a new
/// window is wanted, and nothing else; whether a window is reused changes
/// only the flag.
pub proof fn lemma_zed_args_list_every_folder(folders: Vec<String>, reuse: bool)
    ensures
        ({
            let args = zed_args_spec(OpenTarget::Folders(folders), reuse);
            let offset: int = if reuse {
                0
            } else {
                1
            };
            &&& args.len() == folders@.len() + offset
            &&& !reuse ==> args[0] == seq!['-', 'n']
            &&& forall|i: int| 0 <= i < folders@.len() ==> args[i + offset] == (#[trigger] folders@[i])@
        }),
{
}

/// A dock is opened by its root alone, after the `-n` flag when a new window
/// is wanted.
pub proof fn lemma_zed_args_open_dock(root: String, reuse: bool)
    ensures
        zed_args_spec(OpenTarget::Dock(root), reuse) == if reuse {
            seq![root@]
        } else {
            seq![seq!['-', 'n'], root@]
        },
{
}

/// Builds the argument list for Zed: `-n` (new window) unless `reuse`, then
/// every folder in order, or the dock root.
pub fn zed_args(target: OpenTarget, reuse: bool) -> (args: Vec<String>)
    ensures
        args@.map_values(|a: String| a@) == zed_args_spec(target, reuse),
{
    let ghost expected = zed_args_spec(target, reuse);
    let mut args: Vec<String> = Vec::new();
    if !reuse {
        let flag = "-n".to_owned();
        proof {
            reveal_strlit("-n");
        }
        assert(flag@ == new_window_flag());
        args.push(flag);
    }
    match target {
        OpenTarget::Folders(folders) => {
            let mut folders = folders;
            args.append(&mut folders);
        },
        OpenTarget::Dock(root) => {
            args.push(root);
        },
    }
    assert(args@.map_values(|a: String| a@) =~= expected);
    args
}

} // verus!
