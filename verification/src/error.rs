//! The ways in which the dock rules refuse to go on.
use vstd::prelude::*;
use vstd::string::*;

verus! {

/// A refusal of the dock rules. Paths are carried as the text the caller
/// gave for them.
#[derive(Debug, Clone)]
pub enum DockError {
    /// Something that is not a directory stands where the dock should be.
    DockPathNotDirectory { path: String },
    /// The dock's marker names another workspace file.
    DockWorkspacePathMismatch { marker_workspace_path: String, workspace_path: String },
    /// The dock holds an entry that its marker does not list.
    UnmanagedDockContent { path: String },
    /// An entry that the marker lists is not a symbolic link.
    ManagedDockEntryNotSymlink { path: String },
    /// The dock directory exists but has no marker.
    DockMissingMarker { path: String },
    /// The marker was written by a format version this library does not read.
    UnsupportedDockMarkerVersion { version: u8 },
    /// Something already exists where a project link should be created.
    DockLinkPathExists { path: String },
}

/// The decimal digit of a value below 10.
pub open spec fn decimal_digit(n: nat) -> char {
    (('0' as int) + n) as char
}

/// The decimal spelling of a number, without leading zeros.
pub open spec fn decimal(n: nat) -> Seq<char>
    decreases n,
{
    if n < 10 {
        seq![decimal_digit(n)]
    } else {
        decimal(n / 10).push(decimal_digit(n % 10))
    }
}

/// The decimal spelling of `n`.
fn u8_decimal(n: u8) -> (text: String)
    ensures
        text@ == decimal(n as nat),
{
    let mut text = String::new();
    if n >= 100 {
        text.push(((n / 100) + 48) as char);
    }
    if n >= 10 {
        text.push((((n / 10) % 10) + 48) as char);
    }
    text.push(((n % 10) + 48) as char);
    proof {
        reveal_with_fuel(decimal, 3);
        if n >= 100 {
            assert(n / 10 / 10 == n / 100);
            assert((n / 10) % 10 < 10);
        }
    }
    text
}

impl DockError {
    /// The text that describes this refusal to a user.
    pub open spec fn message_spec(&self) -> Seq<char> {
        match self {
            DockError::DockPathNotDirectory { path } => "dock path is not a directory: "@ + path@,
            DockError::DockWorkspacePathMismatch { marker_workspace_path, workspace_path } =>
                "dock marker belongs to workspace "@ + marker_workspace_path@ + ", not "@
                + workspace_path@,
            DockError::UnmanagedDockContent { path } =>
                "refusing to touch unmanaged content in dock: "@ + path@,
            DockError::ManagedDockEntryNotSymlink { path } =>
                "managed dock entry is not a symlink: "@ + path@,
            DockError::DockMissingMarker { path } => "dock directory exists without marker: "@
                + path@,
            DockError::UnsupportedDockMarkerVersion { version } =>
                "unsupported dock marker version: "@ + decimal(*version as nat),
            DockError::DockLinkPathExists { path } => "dock link path already exists: "@ + path@,
        }
    }

    /// Describes this refusal to a user.
    pub fn message(&self) -> (text: String)
        ensures
            text@ == self.message_spec(),
    {
        match self {
            DockError::DockPathNotDirectory { path } => {
                let mut text = "dock path is not a directory: ".to_owned();
                text.append(path.as_str());
                text
            },
            DockError::DockWorkspacePathMismatch { marker_workspace_path, workspace_path } => {
                let mut text = "dock marker belongs to workspace ".to_owned();
                text.append(marker_workspace_path.as_str());
                text.append(", not ");
                text.append(workspace_path.as_str());
                text
            },
            DockError::UnmanagedDockContent { path } => {
                let mut text = "refusing to touch unmanaged content in dock: ".to_owned();
                text.append(path.as_str());
                text
            },
            DockError::ManagedDockEntryNotSymlink { path } => {
                let mut text = "managed dock entry is not a symlink: ".to_owned();
                text.append(path.as_str());
                text
            },
            DockError::DockMissingMarker { path } => {
                let mut text = "dock directory exists without marker: ".to_owned();
                text.append(path.as_str());
                text
            },
            DockError::UnsupportedDockMarkerVersion { version } => {
                let mut text = "unsupported dock marker version: ".to_owned();
                let digits = u8_decimal(*version);
                text.append(digits.as_str());
                text
            },
            DockError::DockLinkPathExists { path } => {
                let mut text = "dock link path already exists: ".to_owned();
                text.append(path.as_str());
                text
            },
        }
    }
}

/// Whether `text` ends with `tail`.
pub open spec fn ends_with(text: Seq<char>, tail: Seq<char>) -> bool {
    text.len() >= tail.len() && text.subrange(text.len() - tail.len(), text.len() as int) == tail
}

proof fn lemma_concat_ends_with(head: Seq<char>, tail: Seq<char>)
    ensures
        ends_with(head + tail, tail),
{
    assert((head + tail).subrange(head.len() as int, (head + tail).len() as int) =~= tail);
}

/// Every message ends with what the refusal is about: the path concerned,
/// the workspace that was asked for, or the version found.
pub proof fn lemma_message_ends_with_subject(error: DockError)
    ensures
        match error {
            DockError::DockPathNotDirectory { path } => ends_with(error.message_spec(), path@),
            DockError::DockWorkspacePathMismatch { marker_workspace_path, workspace_path } =>
                ends_with(error.message_spec(), workspace_path@),
            DockError::UnmanagedDockContent { path } => ends_with(error.message_spec(), path@),
            DockError::ManagedDockEntryNotSymlink { path } => ends_with(
                error.message_spec(),
                path@,
            ),
            DockError::DockMissingMarker { path } => ends_with(error.message_spec(), path@),
            DockError::UnsupportedDockMarkerVersion { version } => ends_with(
                error.message_spec(),
                decimal(version as nat),
            ),
            DockError::DockLinkPathExists { path } => ends_with(error.message_spec(), path@),
        },
{
    match error {
        DockError::DockPathNotDirectory { path } => lemma_concat_ends_with(
            "dock path is not a directory: "@,
            path@,
        ),
        DockError::DockWorkspacePathMismatch { marker_workspace_path, workspace_path } =>
            lemma_concat_ends_with(
            "dock marker belongs to workspace "@ + marker_workspace_path@ + ", not "@,
            workspace_path@,
        ),
        DockError::UnmanagedDockContent { path } => lemma_concat_ends_with(
            "refusing to touch unmanaged content in dock: "@,
            path@,
        ),
        DockError::ManagedDockEntryNotSymlink { path } => lemma_concat_ends_with(
            "managed dock entry is not a symlink: "@,
            path@,
        ),
        DockError::DockMissingMarker { path } => lemma_concat_ends_with(
            "dock directory exists without marker: "@,
            path@,
        ),
        DockError::UnsupportedDockMarkerVersion { version } => lemma_concat_ends_with(
            "unsupported dock marker version: "@,
            decimal(version as nat),
        ),
        DockError::DockLinkPathExists { path } => lemma_concat_ends_with(
            "dock link path already exists: "@,
            path@,
        ),
    }
}

} // verus!
