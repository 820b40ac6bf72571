// The dock scenarios of the command, checked on the library's plan and
// decisions; creating directories and links on disk is the command's part.
use zwd::dock::{
    absolute_workspace_path,
    build_dock_in, check_dock_entry, check_managed_link, create_symlink, dock_marker,
    dock_name, dock_name_from, prepare_dock_dir, read_marker, DockDirAction, DockDirState,
    DockLink, DockMarker, EntryAction, ResolvedFolder, MARKER_VERSION,
};
use zwd::error::DockError;

fn api_folder(target: &str) -> ResolvedFolder {
    ResolvedFolder { name: "api".to_string(), target: target.to_string() }
}

fn marker_for(workspace: &str, links: &[(&str, &str)]) -> DockMarker {
    DockMarker {
        version: MARKER_VERSION,
        workspace_path: workspace.to_string(),
        links: links
            .iter()
            .map(|(name, target)| DockLink { name: name.to_string(), target: target.to_string() })
            .collect(),
    }
}

#[test]
fn builds_dock_with_symlinks_and_marker() {
    let plan = build_dock_in(
        "/tmp/t/demo.code-workspace",
        "/tmp/t/demo.code-workspace",
        &[api_folder("/tmp/t/api")],
    );

    assert_eq!(plan.root.len(), 3);
    assert_eq!(plan.root[0], "zwd");
    assert_eq!(plan.root[1], "docks");
    assert!(plan.root[2].starts_with("demo-"));
    assert_eq!(plan.marker.links.len(), 1);
    assert_eq!(plan.marker.links[0].name, "api");
    assert_eq!(plan.marker.links[0].target, "/tmp/t/api");
}

#[test]
fn generated_marker_matches_published_schema_shape() {
    let marker = dock_marker("/tmp/t/demo.code-workspace", &[api_folder("/tmp/t/api")]);

    assert_eq!(marker.version, MARKER_VERSION);
    assert!(!marker.workspace_path.is_empty());
    assert_eq!(marker.links.len(), 1);
    assert_eq!(marker.links[0].name, "api");
    assert_eq!(marker.links[0].target, "/tmp/t/api");
}

// The original compared the version with the published marker schema file,
// which is not part of this project; the version it must equal is 1.
#[test]
fn marker_schema_tracks_current_marker_version() {
    assert_eq!(MARKER_VERSION, 1);
}

#[test]
fn rebuilds_dock_idempotently() {
    let folders = [api_folder("/tmp/t/api")];
    let first = build_dock_in("/tmp/t/demo.code-workspace", "/tmp/t/demo.code-workspace", &folders);
    let second = build_dock_in("/tmp/t/demo.code-workspace", "/tmp/t/demo.code-workspace", &folders);

    assert_eq!(first.root, second.root);

    let state = DockDirState::Directory { marker: Some(first.marker) };
    let action = prepare_dock_dir("/cache/dock", "/tmp/t/demo.code-workspace", state).unwrap();
    let marker = match action {
        DockDirAction::Reuse(marker) => marker,
        DockDirAction::Create => panic!("an existing dock must be reused"),
    };
    assert!(matches!(
        check_dock_entry(&marker, "api", "/cache/dock/api"),
        Ok(EntryAction::Clear)
    ));
    assert!(matches!(
        check_dock_entry(&marker, ".zed-dock.json", "/cache/dock/.zed-dock.json"),
        Ok(EntryAction::Keep)
    ));
    assert!(check_managed_link("/cache/dock/api", true).is_ok());
}

#[test]
fn aborts_when_marker_belongs_to_another_workspace() {
    let marker = marker_for("/tmp/t/other.code-workspace", &[("api", "/tmp/t/api")]);
    let state = DockDirState::Directory { marker: Some(marker) };

    let error = prepare_dock_dir("/cache/dock", "/tmp/t/demo.code-workspace", state)
        .err()
        .unwrap()
        .message();

    assert!(error.contains("dock marker belongs"));
}

#[test]
fn aborts_when_dock_exists_without_marker() {
    let state = DockDirState::Directory { marker: None };

    let error = prepare_dock_dir("/cache/dock", "/tmp/t/demo.code-workspace", state)
        .err()
        .unwrap()
        .message();

    assert!(error.contains("without marker"));
}

#[test]
fn aborts_when_marker_owned_dock_has_unmanaged_content() {
    let marker = marker_for("/tmp/t/demo.code-workspace", &[("api", "/tmp/t/api")]);

    let error = check_dock_entry(&marker, "notes.txt", "/cache/dock/notes.txt")
        .err()
        .unwrap()
        .message();

    assert!(error.contains("unmanaged content"));
}

#[test]
fn missing_dock_is_created() {
    assert!(matches!(
        prepare_dock_dir("/cache/dock", "/w/demo.code-workspace", DockDirState::Missing),
        Ok(DockDirAction::Create)
    ));
}

#[test]
fn dock_path_that_is_not_a_directory_is_refused() {
    let error = prepare_dock_dir("/cache/dock", "/w/demo.code-workspace", DockDirState::NotDirectory)
        .err()
        .unwrap();
    assert!(matches!(&error, DockError::DockPathNotDirectory { path } if path == "/cache/dock"));
    assert_eq!(error.message(), "dock path is not a directory: /cache/dock");
}

#[test]
fn marker_of_another_version_is_refused() {
    let mut marker = marker_for("/w/demo.code-workspace", &[]);
    marker.version = 2;
    let error = read_marker("/cache/dock", Some(marker)).err().unwrap();
    assert!(matches!(error, DockError::UnsupportedDockMarkerVersion { version: 2 }));
    assert_eq!(error.message(), "unsupported dock marker version: 2");

    let big = DockError::UnsupportedDockMarkerVersion { version: 255 };
    assert_eq!(big.message(), "unsupported dock marker version: 255");
    let mid = DockError::UnsupportedDockMarkerVersion { version: 40 };
    assert_eq!(mid.message(), "unsupported dock marker version: 40");
}

#[test]
fn marker_paths_compare_as_paths() {
    let marker = marker_for("/w//demo.code-workspace", &[]);
    let state = DockDirState::Directory { marker: Some(marker) };
    assert!(matches!(
        prepare_dock_dir("/cache/dock", "/w/demo.code-workspace", state),
        Ok(DockDirAction::Reuse(_))
    ));
}

#[test]
fn managed_entry_that_is_not_a_link_is_refused() {
    let error = check_managed_link("/cache/dock/api", false).err().unwrap();
    assert!(matches!(&error, DockError::ManagedDockEntryNotSymlink { path } if path == "/cache/dock/api"));
    assert!(error.message().contains("not a symlink"));
}

#[test]
fn existing_link_path_is_refused() {
    let error = create_symlink("/w/api", "/cache/dock/api", true).err().unwrap();
    assert!(matches!(&error, DockError::DockLinkPathExists { path } if path == "/cache/dock/api"));
    assert_eq!(error.message(), "dock link path already exists: /cache/dock/api");

    let request = create_symlink("/w/api", "/cache/dock/api", false).ok().unwrap();
    assert_eq!(request.target, "/w/api");
    assert_eq!(request.link, "/cache/dock/api");
}

#[test]
fn dock_name_is_slug_dash_and_twelve_hex_digits() {
    assert_eq!(dock_name("/home/me/work/demo.code-workspace", "abc"), "demo-ba7816bf8f01");
    assert_eq!(
        dock_name("/home/me/work/demo.code-workspace", "/home/me/work/demo.code-workspace"),
        "demo-6bf2f61e88bc"
    );
    assert_eq!(dock_name("/x/My Project.v2.code-workspace", ""), "my-project-v2-e3b0c44298fc");
}

#[test]
fn dock_name_without_stem_uses_workspace() {
    assert_eq!(dock_name("/", "abc"), "workspace-ba7816bf8f01");
    let digest = [0xab, 0xcd, 0xef, 0x01, 0x23, 0x45, 0x67];
    assert_eq!(dock_name_from(None, &digest), "workspace-abcdef012345");
    assert_eq!(dock_name_from(Some("Team API"), &digest), "team-api-abcdef012345");
}

#[test]
fn dock_name_uses_only_plain_characters() {
    for workspace in ["/w/Ünïcode Näme!.code-workspace", "/w/...", "/w/a b/c.d.e"] {
        let name = dock_name(workspace, workspace);
        assert!(name.len() > 13);
        assert!(name
            .chars()
            .all(|c| c.is_ascii_lowercase() || c.is_ascii_digit() || c == '-'));
    }
}

#[test]
fn marker_written_differently_for_the_same_path_is_reused() {
    let marker = marker_for("/w/demo.code-workspace/", &[("api", "/w/api")]);
    let state = DockDirState::Directory { marker: Some(marker) };
    assert!(matches!(
        prepare_dock_dir("/cache/dock", "/w/demo.code-workspace", state),
        Ok(DockDirAction::Reuse(_))
    ));
}

#[test]
fn absolute_workspace_path_keeps_absolute_paths_and_joins_relative_ones() {
    assert_eq!(absolute_workspace_path("/w/demo.code-workspace", "/home/me"), "/w/demo.code-workspace");
    assert_eq!(absolute_workspace_path("demo.code-workspace", "/home/me"), "/home/me/demo.code-workspace");
    assert_eq!(absolute_workspace_path("sub/demo.code-workspace", "/home/me/"), "/home/me/sub/demo.code-workspace");
}
