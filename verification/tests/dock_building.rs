use zwd::building::{BuildAction, BuildEvent, BuildStage, DockBuild};
use zwd::dock::{build_dock_in, DockDirState, DockLink, DockMarker, ResolvedFolder};
use zwd::error::DockError;

fn folders() -> Vec<ResolvedFolder> {
    vec![
        ResolvedFolder { name: "api".to_string(), target: "/w/api".to_string() },
        ResolvedFolder { name: "web".to_string(), target: "/w/web".to_string() },
    ]
}

fn start() -> DockBuild {
    let folders = folders();
    let plan = build_dock_in("/w/demo.code-workspace", "/w/demo.code-workspace", &folders);
    DockBuild::new("/cache/zwd/docks/demo", "/w/demo.code-workspace", plan, folders)
}

#[test]
fn new_dock_is_created_linked_in_order_and_marked_last() {
    let mut build = start();

    assert!(matches!(build.step(BuildEvent::DirInspected(DockDirState::Missing)), BuildAction::CreateDir));
    match build.step(BuildEvent::DirReady) {
        BuildAction::CheckLink { name } => assert_eq!(name, "api"),
        _ => panic!("the first link is checked first"),
    }
    match build.step(BuildEvent::LinkChecked { link: "/cache/zwd/docks/demo/api".to_string(), present: false }) {
        BuildAction::CreateLink(request) => {
            assert_eq!(request.target, "/w/api");
            assert_eq!(request.link, "/cache/zwd/docks/demo/api");
        }
        _ => panic!("a free link path is linked"),
    }
    match build.step(BuildEvent::LinkCreated) {
        BuildAction::CheckLink { name } => assert_eq!(name, "web"),
        _ => panic!("the second link follows"),
    }
    assert!(matches!(
        build.step(BuildEvent::LinkChecked { link: "/cache/zwd/docks/demo/web".to_string(), present: false }),
        BuildAction::CreateLink(_)
    ));
    match build.step(BuildEvent::LinkCreated) {
        BuildAction::WriteMarker(marker) => {
            assert_eq!(marker.version, 1);
            assert_eq!(marker.workspace_path, "/w/demo.code-workspace");
            assert_eq!(marker.links.len(), 2);
            assert_eq!(marker.links[1].name, "web");
        }
        _ => panic!("the marker is written after the links"),
    }
    assert!(matches!(build.step(BuildEvent::MarkerWritten), BuildAction::Finish));
    assert!(build.stage == BuildStage::Finished);
    assert!(!build.accepts_event(&BuildEvent::DirReady));
}

#[test]
fn existing_link_path_stops_the_build_before_the_marker() {
    let mut build = start();

    build.step(BuildEvent::DirInspected(DockDirState::Missing));
    build.step(BuildEvent::DirReady);
    match build.step(BuildEvent::LinkChecked { link: "/cache/zwd/docks/demo/api".to_string(), present: true }) {
        BuildAction::Stop(DockError::DockLinkPathExists { path }) => {
            assert_eq!(path, "/cache/zwd/docks/demo/api")
        }
        _ => panic!("an occupied link path stops the build"),
    }
    assert!(build.stage == BuildStage::Stopped);
    assert!(!build.accepts_event(&BuildEvent::LinkCreated));
}

#[test]
fn dock_of_another_workspace_stops_the_build() {
    let mut build = start();
    let marker = DockMarker {
        version: 1,
        workspace_path: "/w/other.code-workspace".to_string(),
        links: vec![DockLink { name: "api".to_string(), target: "/w/api".to_string() }],
    };

    match build.step(BuildEvent::DirInspected(DockDirState::Directory { marker: Some(marker) })) {
        BuildAction::Stop(error) => assert!(error.message().contains("dock marker belongs")),
        _ => panic!("another workspace's dock is refused"),
    }
}

#[test]
fn own_dock_is_cleared_and_rebuilt() {
    let mut build = start();
    let marker = DockMarker {
        version: 1,
        workspace_path: "/w/demo.code-workspace".to_string(),
        links: vec![DockLink { name: "api".to_string(), target: "/w/api".to_string() }],
    };

    match build.step(BuildEvent::DirInspected(DockDirState::Directory { marker: Some(marker) })) {
        BuildAction::CleanDir(marker) => assert_eq!(marker.links[0].name, "api"),
        _ => panic!("the dock's own marker lets it be reused"),
    }
    assert!(matches!(build.step(BuildEvent::DirReady), BuildAction::CheckLink { .. }));
}

#[test]
fn dock_with_no_folders_goes_straight_to_the_marker() {
    let plan = build_dock_in("/w/empty.code-workspace", "/w/empty.code-workspace", &[]);
    let mut build = DockBuild::new("/cache/zwd/docks/empty", "/w/empty.code-workspace", plan, vec![]);

    build.step(BuildEvent::DirInspected(DockDirState::Missing));
    match build.step(BuildEvent::DirReady) {
        BuildAction::WriteMarker(marker) => assert!(marker.links.is_empty()),
        _ => panic!("no links to create"),
    }
}
