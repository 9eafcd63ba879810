//! What the handoff does to the files on disk, and what is left there when
//! it is cut short.

use vstd::prelude::*;
use crate::error::UpdateError;
use crate::paths::{
    PathsModel, lemma_helper_recovers_paths, lemma_paths_distinct, paths_for,
};
use crate::updater::{
    ActionModel, Completion, EventModel, Failure, FailureModel, FinishModel, SessionModel, Stage,
    StateModel, done, finalized, finish_step, stranded, update_step,
};

verus! {

/// The files after `action` has succeeded on `files`, which maps each path
/// that names a file to the file's bytes. A rename moves the bytes to the
/// new path in one step; a write creates or replaces the file; a delete
/// removes it. No other action touches the files.
pub open spec fn effect(files: Map<Seq<char>, Seq<u8>>, action: ActionModel) -> Map<
    Seq<char>,
    Seq<u8>,
> {
    match action {
        ActionModel::Rename { from, to } => if files.contains_key(from) {
            files.remove(from).insert(to, files[from])
        } else {
            files
        },
        ActionModel::Write { path, bytes } => files.insert(path, bytes),
        ActionModel::Remove { path } => files.remove(path),
        _ => files,
    }
}

/// Whether `after` may be what is on disk when `action` is cut short on
/// `files`: a write may leave nothing or any leading part of the bytes at
/// its path; every other action leaves the files as they were.
pub open spec fn interrupted(
    files: Map<Seq<char>, Seq<u8>>,
    action: ActionModel,
    after: Map<Seq<char>, Seq<u8>>,
) -> bool {
    match action {
        ActionModel::Write { path, bytes } => after == files || exists|n: int|
            0 <= n <= bytes.len() && after == files.insert(path, #[trigger] bytes.take(n)),
        _ => after == files,
    }
}

/// The files at each point of a handoff in which every action succeeds.
pub struct HandoffRun {
    /// After the running executable was moved out of the way.
    pub vacated: Map<Seq<char>, Seq<u8>>,
    /// After the new executable was written to its staging path.
    pub staged: Map<Seq<char>, Seq<u8>>,
    /// The program that is launched as the helper.
    pub helper: Seq<char>,
    /// The one argument that the helper is launched with.
    pub argument: Seq<char>,
    /// How the running program ends.
    pub handed_off: Option<(StateModel, ActionModel)>,
    /// After the helper deleted the executable that was moved out of the way.
    pub removed: Map<Seq<char>, Seq<u8>>,
    /// After the helper moved the staged executable into place.
    pub promoted: Map<Seq<char>, Seq<u8>>,
    /// How the helper ends.
    pub finalized: Option<(FinishModel, ActionModel)>,
}

/// The state and the files after `event` is given to the running program in
/// `state` and the action it answers with succeeds.
pub open spec fn advance(
    session: SessionModel,
    at: (StateModel, Map<Seq<char>, Seq<u8>>),
    event: EventModel,
) -> (StateModel, Map<Seq<char>, Seq<u8>>) {
    match update_step(session, at.0, event) {
        Some((state, action)) => (state, effect(at.1, action)),
        None => at,
    }
}

/// The state and the files after `event` is given to the helper in `state`
/// and the action it answers with succeeds.
pub open spec fn advance_helper(
    session: SessionModel,
    at: (FinishModel, Map<Seq<char>, Seq<u8>>),
    event: EventModel,
) -> (FinishModel, Map<Seq<char>, Seq<u8>>) {
    match finish_step(session, at.0, event) {
        Some((state, action)) => (state, effect(at.1, action)),
        None => at,
    }
}

/// The program that a step launches, and the argument it launches it with.
pub open spec fn launched(step: Option<(StateModel, ActionModel)>) -> (Seq<char>, Seq<char>) {
    match step {
        Some((_, ActionModel::Spawn { program, argument })) => (program, argument),
        _ => (Seq::empty(), Seq::empty()),
    }
}

/// A handoff in which every action succeeds, step by step: the running
/// program, holding `payload` and told that it runs from `exe`, moves its
/// executable, writes the new one and launches the helper; the helper, told
/// that it runs from the program that was launched, deletes and renames.
pub open spec fn successful_run(
    session: SessionModel,
    exe: Seq<char>,
    payload: Seq<u8>,
    files: Map<Seq<char>, Seq<u8>>,
) -> HandoffRun {
    let start = (StateModel::Locating { payload }, files);
    let vacated = advance(session, start, EventModel::Located(exe));
    let staged = advance(session, vacated, EventModel::Completed);
    let spawn = update_step(session, staged.0, EventModel::Completed);
    let spawning = advance(session, staged, EventModel::Completed);
    let handed_off = update_step(session, spawning.0, EventModel::Completed);
    let (helper, argument) = launched(spawn);
    let waiting = advance_helper(session, (FinishModel::Idle, spawning.1), EventModel::Started);
    let locating = advance_helper(session, waiting, EventModel::Completed);
    let removed = advance_helper(session, locating, EventModel::Located(helper));
    let promoted = advance_helper(session, removed, EventModel::Completed);
    let finalized = finish_step(session, promoted.0, EventModel::Completed);
    HandoffRun {
        vacated: vacated.1,
        staged: staged.1,
        helper,
        argument,
        handed_off,
        removed: removed.1,
        promoted: promoted.1,
        finalized,
    }
}

/// Whether the executable is at `paths.exe` and nothing is at the other two
/// paths: the layout that a handoff starts from.
pub open spec fn ready(files: Map<Seq<char>, Seq<u8>>, paths: PathsModel) -> bool {
    &&& files.contains_key(paths.exe)
    &&& !files.contains_key(paths.old)
    &&& !files.contains_key(paths.new)
}

/// A handoff in which every action succeeds replaces the executable and
/// leaves nothing else behind: starting with the executable in place and
/// nothing at the other two paths, the executable's path ends up holding the
/// new bytes, the other two paths hold nothing, and every other file is as
/// it was. The helper is the moved executable, launched with the sentinel.
/// The running program ends by handing off, the helper by finalizing.
pub proof fn lemma_handoff_replaces_executable(
    session: SessionModel,
    exe: Seq<char>,
    payload: Seq<u8>,
    files: Map<Seq<char>, Seq<u8>>,
)
    requires
        ready(files, paths_for(exe, session.platform)),
    ensures
        successful_run(session, exe, payload, files).promoted == files.insert(exe, payload),
        successful_run(session, exe, payload, files).promoted[exe] == payload,
        !successful_run(session, exe, payload, files).promoted.contains_key(
            paths_for(exe, session.platform).old,
        ),
        !successful_run(session, exe, payload, files).promoted.contains_key(
            paths_for(exe, session.platform).new,
        ),
        successful_run(session, exe, payload, files).helper == paths_for(
            exe,
            session.platform,
        ).old,
        successful_run(session, exe, payload, files).argument == session.sentinel,
        successful_run(session, exe, payload, files).handed_off == Some(
            done(Completion::HandedOff),
        ),
        successful_run(session, exe, payload, files).finalized == Some(finalized()),
{
    let paths = paths_for(exe, session.platform);
    lemma_paths_distinct(exe, session.platform);
    lemma_helper_recovers_paths(exe, session.platform);
    let run = successful_run(session, exe, payload, files);
    assert(run.vacated == files.remove(exe).insert(paths.old, files[exe]));
    assert(run.staged == run.vacated.insert(paths.new, payload));
    assert(run.removed == run.staged.remove(paths.old));
    assert(run.promoted == run.removed.remove(paths.new).insert(exe, payload));
    assert(run.promoted =~= files.insert(exe, payload));
}

/// A handoff that is cut short while the new executable is written leaves a
/// state that an operator can recover from: the executable's path holds
/// nothing, the path it was moved to holds the bytes it had before, and the
/// staging path holds nothing or a leading part of the new bytes. If the
/// write reports its failure, the running program stops with a filesystem
/// failure at the staging step.
pub proof fn lemma_interrupted_staging(
    session: SessionModel,
    exe: Seq<char>,
    payload: Seq<u8>,
    files: Map<Seq<char>, Seq<u8>>,
    after: Map<Seq<char>, Seq<u8>>,
)
    requires
        ready(files, paths_for(exe, session.platform)),
        ({
            let start = (StateModel::Locating { payload }, files);
            let vacated = advance(session, start, EventModel::Located(exe));
            let write = update_step(session, vacated.0, EventModel::Completed);
            write matches Some((_, action)) && interrupted(vacated.1, action, after)
        }),
    ensures
        !after.contains_key(exe),
        after.contains_key(paths_for(exe, session.platform).old),
        after[paths_for(exe, session.platform).old] == files[exe],
        !after.contains_key(paths_for(exe, session.platform).new) || exists|n: int|
            0 <= n <= payload.len() && after[paths_for(exe, session.platform).new]
                == #[trigger] payload.take(n),
        ({
            let start = (StateModel::Locating { payload }, files);
            let vacated = advance(session, start, EventModel::Located(exe));
            let staging = advance(session, vacated, EventModel::Completed);
            update_step(session, staging.0, EventModel::Failed) == Some(
                stranded(
                    UpdateError::FilesystemFailure,
                    Stage::Staging,
                    paths_for(exe, session.platform),
                ),
            )
        }),
{
    let paths = paths_for(exe, session.platform);
    lemma_paths_distinct(exe, session.platform);
    let vacated = files.remove(exe).insert(paths.old, files[exe]);
    if after != vacated {
        let n = choose|n: int|
            0 <= n <= payload.len() && after == vacated.insert(
                paths.new,
                #[trigger] payload.take(n),
            );
        assert(after[paths.new] == payload.take(n));
    }
}

/// Whether the running program, in `state`, has not yet begun to touch the
/// disk: it is checking, asking, downloading or unpacking, or it is over.
pub open spec fn before_handoff(state: StateModel) -> bool {
    match state {
        StateModel::Idle => true,
        StateModel::AwaitingFeed { .. } => true,
        StateModel::AwaitingAnswer { .. } => true,
        StateModel::AwaitingArtifact => true,
        StateModel::Unpacking => true,
        StateModel::Finished => true,
        _ => false,
    }
}

/// Nothing on disk changes before the user has accepted and the artifact
/// has been unpacked: every action up to then leaves the files as they are,
/// and the state after it has touched nothing either unless it is the one
/// in which the running executable is located. Declining the confirmation
/// ends the flow there, and nothing follows the end.
pub proof fn lemma_nothing_touched_before_handoff(
    session: SessionModel,
    state: StateModel,
    event: EventModel,
    files: Map<Seq<char>, Seq<u8>>,
)
    requires
        before_handoff(state),
    ensures
        advance(session, (state, files), event).1 == files,
        before_handoff(advance(session, (state, files), event).0) || advance(
            session,
            (state, files),
            event,
        ).0 is Locating,
        state is AwaitingAnswer ==> update_step(session, state, EventModel::Answered(false))
            == Some(done(Completion::Declined)),
        state is Finished ==> update_step(session, state, event) is None,
{
}

/// A failure that does not stop the program strikes before anything on
/// disk was touched: it comes from a state in which the flow is checking,
/// asking, downloading or locating the running executable, and the files
/// are as they were.
pub proof fn lemma_harmless_failure(
    session: SessionModel,
    state: StateModel,
    event: EventModel,
    files: Map<Seq<char>, Seq<u8>>,
)
    requires
        update_step(session, state, event) matches Some((_, ActionModel::Finish(Err(failure))))
            && failure.stage is Checking,
    ensures
        before_handoff(state) || state is Locating,
        advance(session, (state, files), event).1 == files,
{
}

/// What is at a path after a failure.
#[derive(Clone, Copy, Debug, PartialEq, Eq, Structural)]
pub enum FileState {
    /// The whole file.
    Present,
    /// Nothing.
    Absent,
    /// Nothing, or a file that was not written to its end.
    Partial,
}

/// What is at each path of a handoff after a failure.
#[derive(Clone, Copy, Debug, PartialEq, Eq, Structural)]
pub struct Layout {
    pub exe: FileState,
    pub old: FileState,
    pub new: FileState,
}

/// What a failure at `stage` leaves at the three paths, in a handoff that
/// started with the executable in place and nothing at the other two.
pub open spec fn layout_at(stage: Stage) -> Layout {
    match stage {
        Stage::Checking | Stage::Vacating => Layout {
            exe: FileState::Present,
            old: FileState::Absent,
            new: FileState::Absent,
        },
        Stage::Staging => Layout {
            exe: FileState::Absent,
            old: FileState::Present,
            new: FileState::Partial,
        },
        Stage::Spawning | Stage::Removing => Layout {
            exe: FileState::Absent,
            old: FileState::Present,
            new: FileState::Present,
        },
        Stage::Promoting => Layout {
            exe: FileState::Absent,
            old: FileState::Absent,
            new: FileState::Present,
        },
    }
}

impl Stage {
    /// What a failure at this stage leaves at the three paths.
    pub fn layout(&self) -> (r: Layout)
        ensures
            r == layout_at(*self),
    {
        match self {
            Stage::Checking | Stage::Vacating => Layout {
                exe: FileState::Present,
                old: FileState::Absent,
                new: FileState::Absent,
            },
            Stage::Staging => Layout {
                exe: FileState::Absent,
                old: FileState::Present,
                new: FileState::Partial,
            },
            Stage::Spawning | Stage::Removing => Layout {
                exe: FileState::Absent,
                old: FileState::Present,
                new: FileState::Present,
            },
            Stage::Promoting => Layout {
                exe: FileState::Absent,
                old: FileState::Absent,
                new: FileState::Present,
            },
        }
    }
}

/// Whether `path` is in `state` on disk, for a file whose whole content is
/// `bytes`.
pub open spec fn holds(
    files: Map<Seq<char>, Seq<u8>>,
    path: Seq<char>,
    state: FileState,
    bytes: Seq<u8>,
) -> bool {
    match state {
        FileState::Present => files.contains_key(path) && files[path] == bytes,
        FileState::Absent => !files.contains_key(path),
        FileState::Partial => !files.contains_key(path) || exists|n: int|
            0 <= n <= bytes.len() && files[path] == #[trigger] bytes.take(n),
    }
}

/// Whether the disk is as `layout` says, where `running` is the executable
/// that was running and `payload` the one that replaces it.
pub open spec fn fits(
    files: Map<Seq<char>, Seq<u8>>,
    paths: PathsModel,
    layout: Layout,
    running: Seq<u8>,
    payload: Seq<u8>,
) -> bool {
    &&& holds(files, paths.exe, layout.exe, running)
    &&& holds(files, paths.old, layout.old, running)
    &&& holds(files, paths.new, layout.new, payload)
}

/// Whether `after` may be on disk when a handoff from `files` fails at
/// `stage`: the steps before it succeeded, and the failing step left what
/// an action that is cut short leaves.
pub open spec fn stranded_at(
    session: SessionModel,
    exe: Seq<char>,
    payload: Seq<u8>,
    files: Map<Seq<char>, Seq<u8>>,
    stage: Stage,
    after: Map<Seq<char>, Seq<u8>>,
) -> bool {
    let run = successful_run(session, exe, payload, files);
    let paths = paths_for(exe, session.platform);
    match stage {
        Stage::Checking | Stage::Vacating => after == files,
        Stage::Staging => interrupted(
            run.vacated,
            ActionModel::Write { path: paths.new, bytes: payload },
            after,
        ),
        Stage::Spawning | Stage::Removing => after == run.staged,
        Stage::Promoting => after == run.removed,
    }
}

/// The layout reported for a failure is what is on disk: whatever the stage
/// at which a handoff fails, the three paths are in the states that
/// [`layout_at`] gives for it.
pub proof fn lemma_layout_when_stranded(
    session: SessionModel,
    exe: Seq<char>,
    payload: Seq<u8>,
    files: Map<Seq<char>, Seq<u8>>,
    stage: Stage,
    after: Map<Seq<char>, Seq<u8>>,
)
    requires
        ready(files, paths_for(exe, session.platform)),
        stranded_at(session, exe, payload, files, stage, after),
    ensures
        fits(after, paths_for(exe, session.platform), layout_at(stage), files[exe], payload),
{
    let paths = paths_for(exe, session.platform);
    lemma_paths_distinct(exe, session.platform);
    lemma_helper_recovers_paths(exe, session.platform);
    let run = successful_run(session, exe, payload, files);
    assert(run.vacated == files.remove(exe).insert(paths.old, files[exe]));
    assert(run.staged == run.vacated.insert(paths.new, payload));
    assert(run.removed == run.staged.remove(paths.old));
    if stage is Staging && after != run.vacated {
        let n = choose|n: int|
            0 <= n <= payload.len() && after == run.vacated.insert(
                paths.new,
                #[trigger] payload.take(n),
            );
        assert(after[paths.new] == payload.take(n));
    }
}

/// How a file state reads in a report.
pub open spec fn state_text(state: FileState) -> Seq<char> {
    match state {
        FileState::Present => "present"@,
        FileState::Absent => "absent"@,
        FileState::Partial => "absent or incomplete"@,
    }
}

/// How an error reads in a report.
pub open spec fn cause_text(error: UpdateError) -> Seq<char> {
    match error {
        UpdateError::NetworkFailure => "Download failed"@,
        UpdateError::DecodeFailure => "Invalid release data"@,
        UpdateError::CorruptArchive => "Invalid archive in GitHub download"@,
        UpdateError::MissingEntry => "Missing file in GitHub download"@,
        UpdateError::FilesystemFailure => "Failed to replace the executable"@,
        UpdateError::SpawnFailure => "Failed to launch the new executable"@,
    }
}

/// The report of a failure: its cause and, where the paths of the handoff
/// are known, the state of each of the three files.
pub open spec fn failure_text(failure: FailureModel) -> Seq<char> {
    match failure.paths {
        None => cause_text(failure.error),
        Some(paths) => {
            let layout = layout_at(failure.stage);
            cause_text(failure.error) + "; "@ + paths.exe + ": "@ + state_text(layout.exe) + ", "@
                + paths.old + ": "@ + state_text(layout.old) + ", "@ + paths.new + ": "@
                + state_text(layout.new)
        },
    }
}

impl FileState {
    /// How this state reads in a report.
    pub fn text(&self) -> (r: &'static str)
        ensures
            r@ == state_text(*self),
    {
        match self {
            FileState::Present => "present",
            FileState::Absent => "absent",
            FileState::Partial => "absent or incomplete",
        }
    }
}

impl UpdateError {
    /// How this error reads in a report.
    pub fn text(&self) -> (r: &'static str)
        ensures
            r@ == cause_text(*self),
    {
        match self {
            UpdateError::NetworkFailure => "Download failed",
            UpdateError::DecodeFailure => "Invalid release data",
            UpdateError::CorruptArchive => "Invalid archive in GitHub download",
            UpdateError::MissingEntry => "Missing file in GitHub download",
            UpdateError::FilesystemFailure => "Failed to replace the executable",
            UpdateError::SpawnFailure => "Failed to launch the new executable",
        }
    }
}

impl Failure {
    /// Writes the report of this failure, so that an operator can see which
    /// file is in which state.
    pub fn describe(&self) -> (r: String)
        ensures
            r@ == failure_text(self@),
    {
        let mut out = self.error.text().to_owned();
        match &self.paths {
            None => {},
            Some(paths) => {
                let layout = self.stage.layout();
                out.append("; ");
                out.append(paths.exe.as_str());
                out.append(": ");
                out.append(layout.exe.text());
                out.append(", ");
                out.append(paths.old.as_str());
                out.append(": ");
                out.append(layout.old.text());
                out.append(", ");
                out.append(paths.new.as_str());
                out.append(": ");
                out.append(layout.new.text());
            },
        }
        out
    }
}

} // verus!
