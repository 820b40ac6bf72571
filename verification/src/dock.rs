//! The rules of a symlink dock: where it lives, what its marker records,
//! when an existing dock may be reused and which of its entries may be
//! cleared, and when a project link may be created.
//!
//! The file system is not touched here. The caller reports what it found
//! (a directory's state, an entry's name, whether a path exists) and
//! performs what these functions allow.
use vstd::prelude::*;
use vstd::string::*;

use crate::error::DockError;
use crate::hashing::{hex_encode, hex_lower, sha256, sha256_digest};
use crate::paths::{
    file_stem, file_stem_of, is_absolute, join, path_is_absolute, path_joined, paths_equal,
    same_path,
};
use crate::slug::{fallback_slug, is_slug_char, slugify, slugify_spec, lemma_slug_is_well_formed};

verus! {

/// The marker format version that this library writes and reads.
pub const MARKER_VERSION: u8 = 1;

/// The name of the marker file inside a dock directory.
pub open spec fn marker_file_name() -> Seq<char> {
    ".zed-dock.json"@
}

/// The name of the marker file inside a dock directory.
pub fn marker_file() -> (name: String)
    ensures
        name@ == marker_file_name(),
{
    ".zed-dock.json".to_owned()
}

/// The directory under the cache directory that holds the tool's state.
pub open spec fn state_dir_name() -> Seq<char> {
    "zwd"@
}

/// The directory, under the state directory, that holds the docks.
pub open spec fn docks_dir_name() -> Seq<char> {
    "docks"@
}

/// A project folder of a workspace, resolved: the name of its link in the
/// dock and the path the link points to.
#[derive(Debug, Clone)]
pub struct ResolvedFolder {
    pub name: String,
    pub target: String,
}

impl View for ResolvedFolder {
    type V = (Seq<char>, Seq<char>);

    open spec fn view(&self) -> (Seq<char>, Seq<char>) {
        (self.name@, self.target@)
    }
}

/// A link recorded in a dock's marker.
#[derive(Debug, Clone)]
pub struct DockLink {
    pub name: String,
    pub target: String,
}

impl View for DockLink {
    type V = (Seq<char>, Seq<char>);

    open spec fn view(&self) -> (Seq<char>, Seq<char>) {
        (self.name@, self.target@)
    }
}

/// The marker that protects a dock: the workspace file it belongs to and the
/// links it manages.
#[derive(Debug, Clone)]
pub struct DockMarker {
    pub version: u8,
    pub workspace_path: String,
    pub links: Vec<DockLink>,
}

/// A marker as plain values.
pub struct MarkerView {
    pub version: u8,
    pub workspace_path: Seq<char>,
    pub links: Seq<(Seq<char>, Seq<char>)>,
}

impl View for DockMarker {
    type V = MarkerView;

    open spec fn view(&self) -> MarkerView {
        MarkerView {
            version: self.version,
            workspace_path: self.workspace_path@,
            links: self.links@.map_values(|l: DockLink| l@),
        }
    }
}

/// The marker that a dock built for the workspace at `workspace_abs` with
/// these folders carries.
pub open spec fn marker_for(
    workspace_abs: Seq<char>,
    folders: Seq<(Seq<char>, Seq<char>)>,
) -> MarkerView {
    MarkerView { version: MARKER_VERSION, workspace_path: workspace_abs, links: folders }
}

/// Whether a marker was written for the workspace at `workspace_abs` in the
/// current format: it names that very path text. Such a marker always lets
/// the dock be reused (see `prepare_dock_dir`).
pub open spec fn marker_admits(marker: MarkerView, workspace_abs: Seq<char>) -> bool {
    marker.version == MARKER_VERSION && marker.workspace_path == workspace_abs
}

/// Whether the marker lists a link with this name.
pub open spec fn lists_link(marker: MarkerView, name: Seq<char>) -> bool {
    exists|i: int| 0 <= i < marker.links.len() && (#[trigger] marker.links[i]).0 == name
}

/// The name of the dock for a workspace file with this stem (if it has one)
/// and this digest of its absolute path: the slug of the stem, a dash, and
/// the first twelve hexadecimal digits of the digest.
pub open spec fn dock_name_spec(stem: Option<Seq<char>>, digest: Seq<u8>) -> Seq<char> {
    let base = match stem {
        Some(s) => s,
        None => fallback_slug(),
    };
    slugify_spec(base) + seq!['-'] + hex_lower(digest).take(12)
}

/// The name of the dock directory, from the stem of the workspace file name
/// (when it has one) and the digest of its absolute path.
pub fn dock_name_from(stem: Option<&str>, digest: &[u8]) -> (name: String)
    requires
        digest@.len() >= 6,
    ensures
        name@ == dock_name_spec(
            match stem {
                Some(s) => Some(s@),
                None => None,
            },
            digest@,
        ),
{
    let mut name = match stem {
        Some(s) => slugify(s),
        None => {
            let fallback = "workspace";
            proof {
                reveal_strlit("workspace");
            }
            assert(fallback@ == fallback_slug());
            slugify(fallback)
        },
    };
    name.push('-');
    let hex = hex_encode(digest);
    let ghost prefix = name@;
    let mut i: usize = 0;
    while i < 12
        invariant
            i <= 12,
            hex@ == hex_lower(digest@),
            hex@.len() >= 12,
            name@ == prefix + hex@.take(i as int),
        decreases 12 - i,
    {
        name.push(hex.as_str().get_char(i));
        i = i + 1;
        assert(hex@.take(i as int) == hex@.take(i - 1).push(hex@[i - 1]));
    }
    name
}

/// The dock name of a workspace file: from the stem of its path and the
/// digest of the UTF-8 bytes of its absolute path.
pub open spec fn workspace_dock_name(workspace_path: Seq<char>, workspace_abs: Seq<u8>) -> Seq<char> {
    dock_name_spec(file_stem_of(workspace_path), sha256(workspace_abs))
}

/// The name of the dock directory for the workspace file given as
/// `workspace_path`, whose absolute path is `workspace_abs`.
pub fn dock_name(workspace_path: &str, workspace_abs: &str) -> (name: String)
    ensures
        name@ == workspace_dock_name(workspace_path@, workspace_abs.spec_bytes()),
{
    let stem = file_stem(workspace_path);
    let digest = sha256_digest(workspace_abs.as_bytes());
    let name = match &stem {
        Some(s) => dock_name_from(Some(s.as_str()), digest.as_slice()),
        None => dock_name_from(None, digest.as_slice()),
    };
    name
}

/// Every dock name is a single safe directory name: lower-case ASCII
/// letters, digits and dashes only, so it can never climb out of or into
/// another directory.
pub proof fn lemma_dock_name_is_plain(stem: Option<Seq<char>>, digest: Seq<u8>)
    requires
        digest.len() >= 6,
    ensures
        forall|i: int|
            0 <= i < dock_name_spec(stem, digest).len() ==> is_slug_char(
                #[trigger] dock_name_spec(stem, digest)[i],
            ) || dock_name_spec(stem, digest)[i] == '-',
        dock_name_spec(stem, digest).len() > 13,
{
    let base = match stem {
        Some(s) => s,
        None => fallback_slug(),
    };
    lemma_slug_is_well_formed(base);
    let slug = slugify_spec(base);
    let hex = hex_lower(digest).take(12);
    let name = dock_name_spec(stem, digest);
    assert(name == slug + seq!['-'] + hex);
    assert forall|i: int| 0 <= i < name.len() implies is_slug_char(#[trigger] name[i]) || name[i]
        == '-' by {
        if i < slug.len() {
            assert(name[i] == slug[i]);
        } else if i > slug.len() {
            let j = i - slug.len() - 1;
            assert(name[i] == hex[j]);
            assert(hex[j] == hex_lower(digest)[j]);
            let b = digest[j / 2];
            assert(b / 16 < 16 && b % 16 < 16);
        }
    }
}


/// The directory components, under the cache directory, of the dock of a
/// workspace file: `zwd/docks/<dock name>`. They depend on the
/// workspace file alone, so every build of one workspace uses one dock.
pub open spec fn dock_root_spec(workspace_path: Seq<char>, workspace_abs: Seq<u8>) -> Seq<
    Seq<char>,
> {
    seq![state_dir_name(), docks_dir_name(), workspace_dock_name(workspace_path, workspace_abs)]
}

/// The absolute path of a workspace file that does not exist (yet): the
/// path itself when it is absolute, otherwise the path joined to the current
/// directory. (An existing file is resolved by the file system instead.)
pub fn absolute_workspace_path(path: &str, current_dir: &str) -> (absolute: String)
    ensures
        absolute@ == if path_is_absolute(path@) {
            path@
        } else {
            path_joined(current_dir@, path@)
        },
{
    if is_absolute(path) {
        path.to_owned()
    } else {
        join(current_dir, path)
    }
}

/// The dock name is the slug of the workspace file's stem (or of
/// `workspace` when it has none), a dash, and the first twelve lower-case
/// hexadecimal digits of the SHA-256 digest of exactly the bytes of the
/// absolute path, unchanged.
pub proof fn lemma_dock_name_parts(workspace_path: Seq<char>, workspace_abs: Seq<u8>)
    ensures
        workspace_dock_name(workspace_path, workspace_abs) == slugify_spec(
            match file_stem_of(workspace_path) {
                Some(stem) => stem,
                None => seq!['w', 'o', 'r', 'k', 's', 'p', 'a', 'c', 'e'],
            },
        ) + seq!['-'] + hex_lower(sha256(workspace_abs)).take(12),
{
}

/// The dock lives at `zwd/docks/<dock name>`: its last component is the
/// name built from the digest of the absolute path, and the workspace path
/// counts only through its file stem, so two workspace paths with the same
/// stem and the same absolute path share one dock root.
pub proof fn lemma_dock_root_parts(
    workspace_path: Seq<char>,
    other_path: Seq<char>,
    workspace_abs: Seq<u8>,
)
    ensures
        dock_root_spec(workspace_path, workspace_abs).len() == 3,
        dock_root_spec(workspace_path, workspace_abs)[0] == seq!['z', 'w', 'd'],
        dock_root_spec(workspace_path, workspace_abs)[1] == seq!['d', 'o', 'c', 'k', 's'],
        dock_root_spec(workspace_path, workspace_abs)[2] == dock_name_spec(
            file_stem_of(workspace_path),
            sha256(workspace_abs),
        ),
        file_stem_of(workspace_path) == file_stem_of(other_path) ==> dock_root_spec(
            other_path,
            workspace_abs,
        ) == dock_root_spec(workspace_path, workspace_abs),
{
    reveal_strlit("zwd");
    reveal_strlit("docks");
}

/// The marker records the current format version, the absolute workspace
/// path, and one link per folder, in folder order, each with that folder's
/// own name and target.
pub proof fn lemma_marker_lists_each_folder(workspace_abs: Seq<char>, folders: Seq<ResolvedFolder>)
    ensures
        ({
            let m = marker_for(workspace_abs, folders.map_values(|f: ResolvedFolder| f@));
            &&& m.version == 1
            &&& m.workspace_path == workspace_abs
            &&& m.links.len() == folders.len()
            &&& forall|i: int|
                0 <= i < folders.len() ==> m.links[i] == ((#[trigger] folders[i]).name@, folders[i].target@)
        }),
{
}

/// What building a dock amounts to: the directory components, under the
/// cache directory, of the dock root, and the marker to write into it.
pub struct DockPlan {
    pub root: Vec<String>,
    pub marker: DockMarker,
}

/// The marker for a dock of the workspace at `workspace_abs` with these
/// folders: the current format version, the workspace, and one link per
/// folder, in order.
pub fn dock_marker(workspace_abs: &str, folders: &[ResolvedFolder]) -> (marker: DockMarker)
    ensures
        marker@ == marker_for(workspace_abs@, folders@.map_values(|f: ResolvedFolder| f@)),
{
    let mut links: Vec<DockLink> = Vec::new();
    let mut i: usize = 0;
    while i < folders.len()
        invariant
            i <= folders@.len(),
            links@.map_values(|l: DockLink| l@) == folders@.take(i as int).map_values(
                |f: ResolvedFolder| f@,
            ),
        decreases folders@.len() - i,
    {
        let folder = &folders[i];
        links.push(DockLink { name: folder.name.clone(), target: folder.target.clone() });
        i = i + 1;
        assert(folders@.take(i as int).map_values(|f: ResolvedFolder| f@) == folders@.take(
            i - 1,
        ).map_values(|f: ResolvedFolder| f@).push(folders@[i - 1]@));
    }
    assert(folders@.take(folders@.len() as int) == folders@);
    DockMarker { version: MARKER_VERSION, workspace_path: workspace_abs.to_owned(), links }
}

/// Plans the dock for the workspace file given as `workspace_path`, whose
/// absolute path is `workspace_abs`, with these folders: the dock lives at
/// `zwd/docks/<dock name>` under the cache directory, and its
/// marker records the workspace and one link per folder.
pub fn build_dock_in(workspace_path: &str, workspace_abs: &str, folders: &[ResolvedFolder]) -> (plan:
    DockPlan)
    ensures
        plan.root@.map_values(|c: String| c@) == dock_root_spec(
            workspace_path@,
            workspace_abs.spec_bytes(),
        ),
        plan.marker@ == marker_for(workspace_abs@, folders@.map_values(|f: ResolvedFolder| f@)),
{
    let mut root: Vec<String> = Vec::new();
    root.push("zwd".to_owned());
    root.push("docks".to_owned());
    root.push(dock_name(workspace_path, workspace_abs));
    assert(root@.map_values(|c: String| c@) =~= dock_root_spec(
        workspace_path@,
        workspace_abs.spec_bytes(),
    ));
    DockPlan { root, marker: dock_marker(workspace_abs, folders) }
}

/// Checks a dock's marker as read from its directory (`None` when the
/// directory has no marker file): it must exist and have the current format.
pub fn read_marker(dock_root: &str, marker: Option<DockMarker>) -> (checked: Result<
    DockMarker,
    DockError,
>)
    ensures
        match marker {
            None => (checked matches Err(DockError::DockMissingMarker { path }) && path@
                == dock_root@),
            Some(m) => if m.version != MARKER_VERSION {
                (checked matches Err(DockError::UnsupportedDockMarkerVersion { version })
                    && version == m.version)
            } else {
                checked == Ok::<DockMarker, DockError>(m)
            },
        },
{
    match marker {
        None => Err(DockError::DockMissingMarker { path: dock_root.to_owned() }),
        Some(m) => {
            if m.version != MARKER_VERSION {
                Err(DockError::UnsupportedDockMarkerVersion { version: m.version })
            } else {
                Ok(m)
            }
        },
    }
}

/// What stands at the dock root before a build.
pub enum DockDirState {
    /// Nothing.
    Missing,
    /// Something that is not a directory.
    NotDirectory,
    /// A directory, with its marker as read (`None` when there is no marker
    /// file).
    Directory { marker: Option<DockMarker> },
}

/// What a build may do with the dock root.
pub enum DockDirAction {
    /// Create the directory.
    Create,
    /// Reuse the directory, whose checked marker is given; its entries are
    /// cleared one by one as `check_dock_entry` allows.
    Reuse(DockMarker),
}

/// What `prepare_dock_dir` decides for the dock root `dock_root` and the
/// workspace at `workspace_abs`, given what stands at the root.
pub open spec fn dir_decision(
    dock_root: Seq<char>,
    workspace_abs: Seq<char>,
    state: DockDirState,
    action: Result<DockDirAction, DockError>,
) -> bool {
    match state {
        DockDirState::Missing => action matches Ok(DockDirAction::Create),
        DockDirState::NotDirectory => (action matches Err(
            DockError::DockPathNotDirectory { path },
        ) && path@ == dock_root),
        DockDirState::Directory { marker: None } => (action matches Err(
            DockError::DockMissingMarker { path },
        ) && path@ == dock_root),
        DockDirState::Directory { marker: Some(m) } => if m.version != MARKER_VERSION {
            (action matches Err(DockError::UnsupportedDockMarkerVersion { version })
                && version == m.version)
        } else if paths_equal(m.workspace_path@, workspace_abs) {
            action == Ok::<DockDirAction, DockError>(DockDirAction::Reuse(m))
        } else {
            (action matches Err(
                DockError::DockWorkspacePathMismatch { marker_workspace_path, workspace_path },
            ) && marker_workspace_path@ == m.workspace_path@ && workspace_path@
                == workspace_abs)
        },
    }
}

/// A dock is reused only when it is a directory whose marker has the
/// current version and names the workspace's own path (compared as std
/// compares paths); it is created only when nothing stands at its root;
/// every other state is refused.
pub proof fn lemma_dir_decision_reuses_only_own_docks(
    dock_root: Seq<char>,
    workspace_abs: Seq<char>,
    state: DockDirState,
    action: Result<DockDirAction, DockError>,
)
    requires
        dir_decision(dock_root, workspace_abs, state, action),
    ensures
        (action matches Ok(DockDirAction::Create)) <==> (state is Missing),
        action matches Ok(DockDirAction::Reuse(m)) ==> (state == (DockDirState::Directory {
            marker: Some(m),
        }) && m.version == 1 && paths_equal(m.workspace_path@, workspace_abs)),
        state matches DockDirState::Directory { marker: Some(m) } ==> (m.version == 1
            && paths_equal(m.workspace_path@, workspace_abs) ==> (action is Ok)),
        (state is NotDirectory) ==> (action is Err),
        (state == (DockDirState::Directory { marker: None })) ==> (action is Err),
{
}

/// Decides whether a dock may be built at `dock_root` for the workspace at
/// `workspace_abs`: a missing dock is created; an existing one is reused
/// only if it is a directory whose marker has the current format and
/// belongs to this workspace (compared as paths).
pub fn prepare_dock_dir(dock_root: &str, workspace_abs: &str, state: DockDirState) -> (action:
    Result<DockDirAction, DockError>)
    ensures
        dir_decision(dock_root@, workspace_abs@, state, action),
        state matches DockDirState::Directory { marker: Some(m) } ==> (marker_admits(
            m@,
            workspace_abs@,
        ) ==> action == Ok::<DockDirAction, DockError>(DockDirAction::Reuse(m))),
{
    match state {
        DockDirState::Missing => Ok(DockDirAction::Create),
        DockDirState::NotDirectory => Err(
            DockError::DockPathNotDirectory { path: dock_root.to_owned() },
        ),
        DockDirState::Directory { marker } => {
            let marker = read_marker(dock_root, marker)?;
            if !same_path(marker.workspace_path.as_str(), workspace_abs) {
                return Err(
                    DockError::DockWorkspacePathMismatch {
                        marker_workspace_path: marker.workspace_path.clone(),
                        workspace_path: workspace_abs.to_owned(),
                    },
                );
            }
            Ok(DockDirAction::Reuse(marker))
        },
    }
}

/// What may be done with an entry of a reused dock.
pub enum EntryAction {
    /// Leave it: it is the marker file.
    Keep,
    /// It is a link that the marker manages; it is removed once
    /// `check_managed_link` confirms that it is a symbolic link.
    Clear,
}

/// Whether the marker lists a link named `name`.
fn marker_lists(marker: &DockMarker, name: &str) -> (listed: bool)
    ensures
        listed == lists_link(marker@, name@),
{
    let wanted = name.to_owned();
    let mut i: usize = 0;
    while i < marker.links.len()
        invariant
            i <= marker.links@.len(),
            wanted@ == name@,
            forall|j: int| 0 <= j < i ==> marker.links@[j].name@ != name@,
        decreases marker.links@.len() - i,
    {
        if marker.links[i].name == wanted {
            assert(marker@.links[i as int].0 == name@);
            return true;
        }
        i = i + 1;
    }
    assert forall|j: int| 0 <= j < marker@.links.len() implies (#[trigger] marker@.links[j]).0
        != name@ by {
        assert(marker@.links[j] == marker.links@[j]@);
    }
    false
}

/// Decides what happens to the entry named `file_name` (at `entry_path`) of a
/// dock reused under `marker`: the marker file stays; a name the marker lists
/// is a managed link; anything else is content the dock does not own, and
/// the build stops rather than touch it.
pub fn check_dock_entry(marker: &DockMarker, file_name: &str, entry_path: &str) -> (action: Result<
    EntryAction,
    DockError,
>)
    ensures
        file_name@ == marker_file_name() ==> action matches Ok(EntryAction::Keep),
        file_name@ != marker_file_name() && lists_link(marker@, file_name@) ==> action matches Ok(
            EntryAction::Clear,
        ),
        file_name@ != marker_file_name() && !lists_link(marker@, file_name@) ==> (action matches Err(
            DockError::UnmanagedDockContent { path },
        ) && path@ == entry_path@),
{
    if file_name.to_owned() == marker_file() {
        return Ok(EntryAction::Keep);
    }
    if !marker_lists(marker, file_name) {
        return Err(DockError::UnmanagedDockContent { path: entry_path.to_owned() });
    }
    Ok(EntryAction::Clear)
}

/// Confirms that a managed entry at `entry_path` may be removed: only a
/// symbolic link is.
pub fn check_managed_link(entry_path: &str, is_symlink: bool) -> (checked: Result<(), DockError>)
    ensures
        is_symlink ==> checked is Ok,
        !is_symlink ==> (checked matches Err(DockError::ManagedDockEntryNotSymlink { path })
            && path@ == entry_path@),
{
    if !is_symlink {
        return Err(DockError::ManagedDockEntryNotSymlink { path: entry_path.to_owned() });
    }
    Ok(())
}

/// A symbolic link to create: at `link`, pointing to `target`.
pub struct SymlinkRequest {
    pub target: String,
    pub link: String,
}

/// Decides whether the link at `link` to `target` may be created:
/// `link_present` tells whether anything (even a dangling link) is already
/// there, and then the build stops instead of replacing it.
pub fn create_symlink(target: &str, link: &str, link_present: bool) -> (request: Result<
    SymlinkRequest,
    DockError,
>)
    ensures
        !link_present ==> (request matches Ok(r) && r.target@ == target@ && r.link@ == link@),
        link_present ==> (request matches Err(DockError::DockLinkPathExists { path }) && path@
            == link@),
{
    if link_present {
        return Err(DockError::DockLinkPathExists { path: link.to_owned() });
    }
    Ok(SymlinkRequest { target: target.to_owned(), link: link.to_owned() })
}

/// The file and directory names of the dock layout: the marker file is
/// `.zed-dock.json`, and docks live under `zwd/docks`.
pub proof fn lemma_layout_names()
    ensures
        marker_file_name() == seq!['.', 'z', 'e', 'd', '-', 'd', 'o', 'c', 'k', '.', 'j', 's', 'o', 'n'],
        state_dir_name() == seq!['z', 'w', 'd'],
        docks_dir_name() == seq!['d', 'o', 'c', 'k', 's'],
{
    reveal_strlit(".zed-dock.json");
    reveal_strlit("zwd");
    reveal_strlit("docks");
}

/// A marker lists exactly the names of its links: a marker without links
/// lists nothing, and every link's name is listed.
pub proof fn lemma_lists_link_is_membership(marker: MarkerView, name: Seq<char>)
    ensures
        marker.links.len() == 0 ==> !lists_link(marker, name),
        forall|i: int| 0 <= i < marker.links.len() ==> lists_link(marker, (#[trigger] marker.links[i]).0),
{
}

/// A dock's own marker lets the next build of the same workspace reuse it,
/// and lists every project link of that build, so a rebuild clears exactly
/// the links it made before creating them anew.
pub proof fn lemma_rebuild_accepts_own_marker(
    workspace_abs: Seq<char>,
    folders: Seq<(Seq<char>, Seq<char>)>,
)
    ensures
        marker_admits(marker_for(workspace_abs, folders), workspace_abs),
        forall|i: int|
            0 <= i < folders.len() ==> lists_link(
                marker_for(workspace_abs, folders),
                (#[trigger] folders[i]).0,
            ),
{
    let m = marker_for(workspace_abs, folders);
    assert forall|i: int| 0 <= i < folders.len() implies lists_link(m, (#[trigger] folders[i]).0) by {
        assert(m.links[i] == folders[i]);
    }
}

} // verus!
