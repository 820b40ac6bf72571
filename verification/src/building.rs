//! The order in which a dock is built, as a state machine: inspect the dock
//! root, create or clear it, then check and create the project links one by
//! one in folder order, and write the marker last. The first refusal stops
//! the build, so a stopped build never writes a marker.
//!
//! The caller performs each action on the file system and answers with the
//! event that reports its outcome.
use vstd::prelude::*;

use crate::dock::{
    create_symlink, dir_decision, lists_link, marker_admits, marker_file_name, prepare_dock_dir, DockDirAction, DockDirState, DockLink,
    DockMarker, DockPlan, MarkerView, ResolvedFolder, SymlinkRequest,
};
use crate::error::DockError;

verus! {

/// Where a build stands.
#[derive(PartialEq, Eq, Structural)]
pub enum BuildStage {
    /// Waiting for the state of the dock root.
    Inspecting,
    /// Waiting for the dock directory to be created or cleared.
    Preparing,
    /// Waiting for whether something exists at the next link's path.
    Checking,
    /// Waiting for the next link to be created.
    Creating,
    /// Waiting for the marker to be written.
    Marking,
    /// The dock is complete.
    Finished,
    /// A refusal stopped the build.
    Stopped,
}

/// The outcome of the last action, reported by the caller.
pub enum BuildEvent {
    /// The state found at the dock root.
    DirInspected(DockDirState),
    /// The dock directory was created, or its managed links were cleared.
    DirReady,
    /// Whether anything exists at `link`, the path of the next link.
    LinkChecked { link: String, present: bool },
    /// The requested link was created.
    LinkCreated,
    /// The marker was written.
    MarkerWritten,
}

/// What the caller is to do next.
pub enum BuildAction {
    /// Create the dock directory.
    CreateDir,
    /// Clear the dock's entries under this marker, one by one as
    /// `check_dock_entry` and `check_managed_link` allow.
    CleanDir(DockMarker),
    /// Check whether anything exists at the path of the link named `name`
    /// inside the dock.
    CheckLink { name: String },
    /// Create this symbolic link.
    CreateLink(SymlinkRequest),
    /// Write this marker into the dock.
    WriteMarker(DockMarker),
    /// The build is complete.
    Finish,
    /// The build stops with this refusal.
    Stop(DockError),
}

/// A build of one dock in progress.
pub struct DockBuild {
    pub dock_root: String,
    pub workspace_abs: String,
    pub folders: Vec<ResolvedFolder>,
    pub marker: DockMarker,
    /// How many links have been created.
    pub next: usize,
    pub stage: BuildStage,
}

/// A copy of a marker.
fn copy_marker(marker: &DockMarker) -> (copy: DockMarker)
    ensures
        copy@ == marker@,
{
    let mut links: Vec<DockLink> = Vec::new();
    let mut i: usize = 0;
    while i < marker.links.len()
        invariant
            i <= marker.links@.len(),
            links@.map_values(|l: DockLink| l@) == marker.links@.take(i as int).map_values(
                |l: DockLink| l@,
            ),
        decreases marker.links@.len() - i,
    {
        let link = &marker.links[i];
        links.push(DockLink { name: link.name.clone(), target: link.target.clone() });
        i = i + 1;
        assert(marker.links@.take(i as int).map_values(|l: DockLink| l@) == marker.links@.take(
            i - 1,
        ).map_values(|l: DockLink| l@).push(marker.links@[i - 1]@));
    }
    assert(marker.links@.take(marker.links@.len() as int) == marker.links@);
    DockMarker {
        version: marker.version,
        workspace_path: marker.workspace_path.clone(),
        links,
    }
}

impl DockBuild {
    /// The counter of created links agrees with the stage: no link is
    /// pending once the marker is due.
    pub open spec fn wf(&self) -> bool {
        &&& self.next <= self.folders@.len()
        &&& (self.stage == BuildStage::Checking || self.stage == BuildStage::Creating) ==> self.next
            < self.folders@.len()
        &&& (self.stage == BuildStage::Marking || self.stage == BuildStage::Finished) ==> self.next
            == self.folders@.len()
    }

    /// Whether the build waits for this kind of event.
    pub open spec fn accepts(&self, event: BuildEvent) -> bool {
        match self.stage {
            BuildStage::Inspecting => event is DirInspected,
            BuildStage::Preparing => event is DirReady,
            BuildStage::Checking => event is LinkChecked,
            BuildStage::Creating => event is LinkCreated,
            BuildStage::Marking => event is MarkerWritten,
            BuildStage::Finished => false,
            BuildStage::Stopped => false,
        }
    }

    /// What follows once `created` links exist and the directory is ready:
    /// the check of the next link, or the marker when all are created.
    pub open spec fn after_links(
        &self,
        created: int,
        next: &Self,
        action: BuildAction,
    ) -> bool {
        if created < self.folders@.len() {
            &&& next.stage == BuildStage::Checking
            &&& next.next == created
            &&& action matches BuildAction::CheckLink { name } && name@ == self.folders@[created].name@
        } else {
            &&& next.stage == BuildStage::Marking
            &&& next.next == created
            &&& action matches BuildAction::WriteMarker(m) && m@ == self.marker@
        }
    }

    /// What one step does: the fields that stay, the next stage and count
    /// of created links, and the action, for each event.
    pub open spec fn step_post(&self, event: BuildEvent, after: &Self, action: BuildAction) -> bool {
        &&& after.wf()
        &&& after.dock_root == self.dock_root
        &&& after.workspace_abs == self.workspace_abs
        &&& after.folders == self.folders
        &&& after.marker == self.marker
        &&& match event {
            BuildEvent::DirInspected(state) => exists|r: Result<DockDirAction, DockError>|
                {
                    &&& dir_decision(
                        self.dock_root@,
                        self.workspace_abs@,
                        state,
                        r,
                    )
                    &&& after.next == self.next
                    &&& match r {
                        Ok(DockDirAction::Create) => action is CreateDir && after.stage
                            == BuildStage::Preparing,
                        Ok(DockDirAction::Reuse(m)) => action == BuildAction::CleanDir(m)
                            && after.stage == BuildStage::Preparing,
                        Err(e) => action == BuildAction::Stop(e) && after.stage
                            == BuildStage::Stopped,
                    }
                },
            BuildEvent::DirReady => self.after_links(
                self.next as int,
                after,
                action,
            ),
            BuildEvent::LinkChecked { link, present } => if present {
                &&& action matches BuildAction::Stop(DockError::DockLinkPathExists { path })
                    && path@ == link@
                &&& after.stage == BuildStage::Stopped
                &&& after.next == self.next
            } else {
                &&& action matches BuildAction::CreateLink(r) && r.link@ == link@ && r.target@
                    == self.folders@[self.next as int].target@
                &&& after.stage == BuildStage::Creating
                &&& after.next == self.next
            },
            BuildEvent::LinkCreated => self.after_links(
                self.next + 1,
                after,
                action,
            ),
            BuildEvent::MarkerWritten => action is Finish && after.stage
                == BuildStage::Finished && after.next == self.next,
        }
        &&& event matches BuildEvent::DirInspected(DockDirState::Directory { marker: Some(m) })
            ==> (marker_admits(m@, self.workspace_abs@) ==> action == BuildAction::CleanDir(m))
    }

    /// Starts the build of the dock at `dock_root` (the text of its path)
    /// planned by `plan` for the workspace at `workspace_abs` and `folders`.
    pub fn new(dock_root: &str, workspace_abs: &str, plan: DockPlan, folders: Vec<ResolvedFolder>) -> (build:
        DockBuild)
        ensures
            build.wf(),
            build.stage == BuildStage::Inspecting,
            build.next == 0,
            build.dock_root@ == dock_root@,
            build.workspace_abs@ == workspace_abs@,
            build.folders@ == folders@,
            build.marker == plan.marker,
    {
        DockBuild {
            dock_root: dock_root.to_owned(),
            workspace_abs: workspace_abs.to_owned(),
            folders,
            marker: plan.marker,
            next: 0,
            stage: BuildStage::Inspecting,
        }
    }

    /// Whether the build waits for this kind of event.
    pub fn accepts_event(&self, event: &BuildEvent) -> (accepted: bool)
        ensures
            accepted == self.accepts(*event),
    {
        match (&self.stage, event) {
            (BuildStage::Inspecting, BuildEvent::DirInspected(_)) => true,
            (BuildStage::Preparing, BuildEvent::DirReady) => true,
            (BuildStage::Checking, BuildEvent::LinkChecked { .. }) => true,
            (BuildStage::Creating, BuildEvent::LinkCreated) => true,
            (BuildStage::Marking, BuildEvent::MarkerWritten) => true,
            _ => false,
        }
    }

    /// Moves on once `self.next` links exist and the directory is ready.
    fn continue_with_links(&mut self) -> (action: BuildAction)
        requires
            old(self).next <= old(self).folders@.len(),
        ensures
            final(self).wf(),
            final(self).dock_root == old(self).dock_root,
            final(self).workspace_abs == old(self).workspace_abs,
            final(self).folders == old(self).folders,
            final(self).marker == old(self).marker,
            old(self).after_links(old(self).next as int, &*final(self), action),
    {
        if self.next < self.folders.len() {
            self.stage = BuildStage::Checking;
            BuildAction::CheckLink { name: self.folders[self.next].name.clone() }
        } else {
            self.stage = BuildStage::Marking;
            BuildAction::WriteMarker(copy_marker(&self.marker))
        }
    }

    /// Takes the outcome of the last action and decides the next one.
    pub fn step(&mut self, event: BuildEvent) -> (action: BuildAction)
        requires
            old(self).wf(),
            old(self).accepts(event),
        ensures
            old(self).step_post(event, &*final(self), action),
    {
        match event {
            BuildEvent::DirInspected(state) => {
                let decided = prepare_dock_dir(self.dock_root.as_str(), self.workspace_abs.as_str(), state);
                match decided {
                    Ok(DockDirAction::Create) => {
                        self.stage = BuildStage::Preparing;
                        BuildAction::CreateDir
                    },
                    Ok(DockDirAction::Reuse(m)) => {
                        self.stage = BuildStage::Preparing;
                        BuildAction::CleanDir(m)
                    },
                    Err(e) => {
                        self.stage = BuildStage::Stopped;
                        BuildAction::Stop(e)
                    },
                }
            },
            BuildEvent::DirReady => self.continue_with_links(),
            BuildEvent::LinkChecked { link, present } => {
                let folder = &self.folders[self.next];
                match create_symlink(folder.target.as_str(), link.as_str(), present) {
                    Ok(request) => {
                        self.stage = BuildStage::Creating;
                        BuildAction::CreateLink(request)
                    },
                    Err(e) => {
                        self.stage = BuildStage::Stopped;
                        BuildAction::Stop(e)
                    },
                }
            },
            BuildEvent::LinkCreated => {
                let count = self.folders.len();
                assert(self.next < count);
                self.next = self.next + 1;
                self.continue_with_links()
            },
            BuildEvent::MarkerWritten => {
                self.stage = BuildStage::Finished;
                BuildAction::Finish
            },
        }
    }
}

/// The marker is written only once every project link has been created.
pub proof fn lemma_marker_only_after_all_links(
    build: DockBuild,
    created: int,
    after: DockBuild,
    action: BuildAction,
)
    requires
        0 <= created <= build.folders@.len(),
        build.after_links(created, &after, action),
        action is WriteMarker,
    ensures
        created == build.folders@.len(),
        after.next == created,
        after.stage == BuildStage::Marking,
{
}

/// A finished or stopped build takes no further event, so nothing is
/// created, cleared or written after a refusal.
pub proof fn lemma_ended_build_takes_no_event(build: DockBuild, event: BuildEvent)
    requires
        build.stage == BuildStage::Finished || build.stage == BuildStage::Stopped,
    ensures
        !build.accepts(event),
{
}

/// An entry of a dock directory, as the build sees it: the marker file with
/// its contents, a symbolic link to a target, or anything else.
pub enum DockEntry {
    Marker(MarkerView),
    Link(Seq<char>),
    Other,
}

/// Whether `event` truly reports the dock directory `dir` (`None` when
/// nothing stands at the dock root; otherwise its entries by name) at the
/// stage `build` is in: the state found at the root, a directory left with
/// nothing but the marker file once it is ready, and whether the next link's
/// name is taken.
pub open spec fn reports(
    build: DockBuild,
    dir: Option<Map<Seq<char>, DockEntry>>,
    event: BuildEvent,
) -> bool {
    match build.stage {
        BuildStage::Inspecting => match dir {
            None => event matches BuildEvent::DirInspected(DockDirState::Missing),
            Some(d) => if !d.dom().contains(marker_file_name()) {
                event matches BuildEvent::DirInspected(DockDirState::Directory { marker: None })
            } else {
                &&& d[marker_file_name()] matches DockEntry::Marker(mv)
                &&& event matches BuildEvent::DirInspected(
                    DockDirState::Directory { marker: Some(m) },
                ) && m@ == mv
            },
        },
        BuildStage::Preparing => {
            &&& event is DirReady
            &&& dir matches Some(d) && forall|k: Seq<char>|
                d.dom().contains(k) ==> k == marker_file_name()
        },
        BuildStage::Checking => {
            &&& dir matches Some(d) && event matches BuildEvent::LinkChecked { link, present }
                && present == d.dom().contains(build.folders@[build.next as int].name@)
        },
        BuildStage::Creating => event is LinkCreated,
        BuildStage::Marking => event is MarkerWritten,
        BuildStage::Finished => false,
        BuildStage::Stopped => false,
    }
}

/// What performing `action` (decided by `build`) does to the dock directory:
/// creating it leaves it empty; clearing it removes the links its marker
/// lists; creating a link adds the next folder's link; writing the marker
/// replaces the marker file.
pub open spec fn performed(
    build: DockBuild,
    action: BuildAction,
    dir: Option<Map<Seq<char>, DockEntry>>,
) -> Option<Map<Seq<char>, DockEntry>> {
    match action {
        BuildAction::CreateDir => Some(Map::empty()),
        BuildAction::CleanDir(m) => match dir {
            Some(d) => Some(
                d.restrict(
                    d.dom().filter(
                        |k: Seq<char>|
                            k == marker_file_name() || !(lists_link(m@, k) && d[k] is Link),
                    ),
                ),
            ),
            None => None,
        },
        BuildAction::CreateLink(r) => match dir {
            Some(d) => Some(
                d.insert(build.folders@[build.next as int].name@, DockEntry::Link(r.target@)),
            ),
            None => None,
        },
        BuildAction::WriteMarker(m) => match dir {
            Some(d) => Some(d.insert(marker_file_name(), DockEntry::Marker(m@))),
            None => None,
        },
        _ => dir,
    }
}

/// A run of a build: `builds[i]` takes `events[i]`, which truly reports
/// `dirs[i]`, answers `actions[i]` and becomes `builds[i + 1]`; performing
/// the action turns `dirs[i]` into `dirs[i + 1]`.
pub open spec fn is_run(
    builds: Seq<DockBuild>,
    dirs: Seq<Option<Map<Seq<char>, DockEntry>>>,
    events: Seq<BuildEvent>,
    actions: Seq<BuildAction>,
) -> bool {
    &&& builds.len() == events.len() + 1
    &&& dirs.len() == builds.len()
    &&& actions.len() == events.len()
    &&& forall|i: int|
        0 <= i < events.len() ==> {
            &&& (#[trigger] builds[i]).wf()
            &&& builds[i].accepts(events[i])
            &&& reports(builds[i], dirs[i], events[i])
            &&& builds[i].step_post(events[i], &builds[i + 1], actions[i])
            &&& dirs[i + 1] == performed(builds[i], actions[i], dirs[i])
        }
}

/// The entries of a dock directory are the marker file and the links of the
/// first `count` folders, each pointing to its folder's target.
pub open spec fn holds_links(build: DockBuild, d: Map<Seq<char>, DockEntry>, count: int) -> bool {
    &&& forall|k: Seq<char>|
        d.dom().contains(k) ==> k == marker_file_name() || exists|j: int|
            0 <= j < count && (#[trigger] build.folders@[j]).name@ == k
    &&& forall|j: int|
        0 <= j < count ==> d.dom().contains((#[trigger] build.folders@[j]).name@) && d[build.folders@[j].name@]
            == DockEntry::Link(build.folders@[j].target@)
}

/// What holds of the dock directory at each stage of a run.
pub open spec fn run_invariant(build: DockBuild, dir: Option<Map<Seq<char>, DockEntry>>) -> bool {
    match build.stage {
        BuildStage::Checking => dir matches Some(d) && holds_links(build, d, build.next as int),
        BuildStage::Creating => dir matches Some(d) && holds_links(
            build,
            d,
            build.next + 1,
        ),
        BuildStage::Marking | BuildStage::Finished => {
            &&& dir matches Some(d) && holds_links(build, d, build.folders@.len() as int)
                && d.dom().contains(marker_file_name()) && d[marker_file_name()]
                == DockEntry::Marker(build.marker@)
        },
        BuildStage::Inspecting | BuildStage::Preparing => build.next == 0,
        BuildStage::Stopped => true,
    }
}

proof fn lemma_run_step(
    b: DockBuild,
    dir: Option<Map<Seq<char>, DockEntry>>,
    event: BuildEvent,
    b2: DockBuild,
    action: BuildAction,
)
    requires
        b.wf(),
        b.accepts(event),
        reports(b, dir, event),
        b.step_post(event, &b2, action),
        run_invariant(b, dir),
        forall|j: int| 0 <= j < b.folders@.len() ==> (#[trigger] b.folders@[j]).name@ != marker_file_name(),
    ensures
        run_invariant(b2, performed(b, action, dir)),
{
    let dir2 = performed(b, action, dir);
    match b.stage {
        BuildStage::Preparing => {
            let d = dir->0;
            if b.folders@.len() > 0 {
                assert(b2.stage == BuildStage::Checking);
            } else {
                assert(b2.stage == BuildStage::Marking);
                let d2 = dir2->0;
                assert forall|k: Seq<char>| d2.dom().contains(k) implies k == marker_file_name()
                    || exists|j: int| 0 <= j < b2.folders@.len() && (#[trigger] b2.folders@[j]).name@
                    == k by {}
            }
        },
        BuildStage::Checking => {
            let d = dir->0;
            if let BuildEvent::LinkChecked { link, present } = event {
                if !present {
                    let i = b.next as int;
                    let name = b.folders@[i].name@;
                    let d2 = dir2->0;
                    assert(d2 == d.insert(name, DockEntry::Link(b.folders@[i].target@)));
                    assert forall|k: Seq<char>| d2.dom().contains(k) implies k == marker_file_name()
                        || exists|j: int| 0 <= j < b2.next + 1 && (#[trigger] b2.folders@[j]).name@
                        == k by {
                        if k == name {
                            assert(b2.folders@[i].name@ == k);
                        }
                    }
                    assert forall|j: int| 0 <= j < b2.next + 1 implies d2.dom().contains(
                        (#[trigger] b2.folders@[j]).name@,
                    ) && d2[b2.folders@[j].name@] == DockEntry::Link(b2.folders@[j].target@) by {
                        if j < i {
                            assert(d.dom().contains(b.folders@[j].name@));
                        }
                    }
                }
            }
        },
        BuildStage::Creating => {
            let d = dir->0;
            if b.next + 1 < b.folders@.len() {
                assert(b2.stage == BuildStage::Checking);
            } else {
                assert(b2.stage == BuildStage::Marking);
                let mm = action->WriteMarker_0;
                let d2 = dir2->0;
                assert(d2 == d.insert(marker_file_name(), DockEntry::Marker(mm@)));
                assert forall|k: Seq<char>| d2.dom().contains(k) implies k == marker_file_name()
                    || exists|j: int| 0 <= j < b2.folders@.len() && (#[trigger] b2.folders@[j]).name@
                    == k by {}
                assert forall|j: int| 0 <= j < b2.folders@.len() implies d2.dom().contains(
                    (#[trigger] b2.folders@[j]).name@,
                ) && d2[b2.folders@[j].name@] == DockEntry::Link(b2.folders@[j].target@) by {
                    assert(b.folders@[j].name@ != marker_file_name());
                }
            }
        },
        _ => {},
    }
}

/// Along a run from its start, the dock directory meets the invariant of
/// each stage, and the folders and the marker stay those of the start.
proof fn lemma_run_prefix(
    builds: Seq<DockBuild>,
    dirs: Seq<Option<Map<Seq<char>, DockEntry>>>,
    events: Seq<BuildEvent>,
    actions: Seq<BuildAction>,
    k: int,
)
    requires
        is_run(builds, dirs, events, actions),
        builds[0].stage == BuildStage::Inspecting,
        builds[0].next == 0,
        0 <= k <= events.len(),
        forall|j: int|
            0 <= j < builds[0].folders@.len() ==> (#[trigger] builds[0].folders@[j]).name@
                != marker_file_name(),
    ensures
        builds[k].folders == builds[0].folders,
        builds[k].marker == builds[0].marker,
        run_invariant(builds[k], dirs[k]),
    decreases k,
{
    if k > 0 {
        lemma_run_prefix(builds, dirs, events, actions, k - 1);
        let p = k - 1;
        assert(builds[p].wf());
        lemma_run_step(builds[p], dirs[p], events[p], builds[p + 1], actions[p]);
    }
}

/// A finished dock holds the marker and the folders' links and nothing else.
proof fn lemma_links_exactly(b: DockBuild, dir: Option<Map<Seq<char>, DockEntry>>)
    requires
        b.stage == BuildStage::Finished,
        run_invariant(b, dir),
    ensures
        dir matches Some(d) && {
            &&& forall|k: Seq<char>|
                d.dom().contains(k) <==> (k == marker_file_name() || exists|j: int|
                    0 <= j < b.folders@.len() && (#[trigger] b.folders@[j]).name@ == k)
            &&& d[marker_file_name()] == DockEntry::Marker(b.marker@)
            &&& forall|j: int|
                0 <= j < b.folders@.len() ==> d[(#[trigger] b.folders@[j]).name@]
                    == DockEntry::Link(b.folders@[j].target@)
        },
{
}

/// A build that runs to its end leaves the dock holding exactly the marker
/// it planned and one link per folder, to that folder's target, whatever
/// the dock held before: links of an earlier build with other folders are
/// gone, and nothing else remains.
pub proof fn lemma_finished_dock_holds_marker_and_links(
    builds: Seq<DockBuild>,
    dirs: Seq<Option<Map<Seq<char>, DockEntry>>>,
    events: Seq<BuildEvent>,
    actions: Seq<BuildAction>,
)
    requires
        is_run(builds, dirs, events, actions),
        builds[0].stage == BuildStage::Inspecting,
        builds[0].next == 0,
        builds.last().stage == BuildStage::Finished,
        forall|j: int|
            0 <= j < builds[0].folders@.len() ==> (#[trigger] builds[0].folders@[j]).name@
                != marker_file_name(),
    ensures
        dirs.last() matches Some(d) && {
            &&& forall|k: Seq<char>|
                d.dom().contains(k) <==> (k == marker_file_name() || exists|j: int|
                    0 <= j < builds[0].folders@.len() && (#[trigger] builds[0].folders@[j]).name@
                        == k)
            &&& d[marker_file_name()] == DockEntry::Marker(builds[0].marker@)
            &&& forall|j: int|
                0 <= j < builds[0].folders@.len() ==> d[(#[trigger] builds[0].folders@[j]).name@]
                    == DockEntry::Link(builds[0].folders@[j].target@)
        },
{
    let n = events.len() as int;
    lemma_run_prefix(builds, dirs, events, actions, n);
    assert(builds[n] == builds.last());
    lemma_links_exactly(builds[n], dirs[n]);
}

} // verus!
