//! The update flow as two state machines: the running program checks for a
//! release, stages it and hands off to a helper; the helper puts the staged
//! executable in place. Each machine takes the outcome of the last action
//! and answers with the next one; the caller performs the actions.

use vstd::prelude::*;
use crate::archive::{ArchiveEntry, EntryModel, entry_models, extract_executable, payload};
use crate::error::UpdateError;
use crate::globals::{GRACE_MILLIS, NAME, RELEASES_URL, SENTINEL, VERSION, user_agent};
use crate::paths::{
    HandoffPaths, PathsModel, Platform, asset_name_of, handoff_paths, helper_paths, paths_for,
    paths_of_helper,
};
use crate::release::{
    CandidateModel, FeedEntryModel, Release, ReleaseCandidate, ReleaseSelector, decoded_feed,
    feed_models, selection, versioned_releases,
};
use crate::text::same_text;
use crate::version::{Version, VersionModel, parsed_version, version_text};

verus! {

/// How an update check ended without a failure.
#[derive(Clone, Copy, Debug, PartialEq, Eq, Structural)]
pub enum Completion {
    /// Update checks are not enabled.
    Skipped,
    /// No newer release for this platform is published.
    UpToDate,
    /// The user declined the update.
    Declined,
    /// The new executable is staged and the helper is running.
    HandedOff,
    /// The helper put the new executable in place.
    Finalized,
}

/// The step of the flow at which a failure struck.
#[derive(Clone, Copy, Debug, PartialEq, Eq, Structural)]
pub enum Stage {
    /// Before anything on disk was touched.
    Checking,
    /// Moving the running executable out of the way.
    Vacating,
    /// Writing the new executable to its staging path.
    Staging,
    /// Launching the helper.
    Spawning,
    /// Deleting the executable that was moved out of the way.
    Removing,
    /// Moving the staged executable into place.
    Promoting,
}

/// A failure, where it struck, and the files it concerns.
#[derive(Debug)]
pub struct Failure {
    pub error: UpdateError,
    pub stage: Stage,
    /// The paths of the handoff; nothing where they were not known yet.
    pub paths: Option<HandoffPaths>,
}

/// Mathematical value of a [`Failure`].
pub struct FailureModel {
    pub error: UpdateError,
    pub stage: Stage,
    pub paths: Option<PathsModel>,
}

impl View for Failure {
    type V = FailureModel;

    open spec fn view(&self) -> FailureModel {
        FailureModel {
            error: self.error,
            stage: self.stage,
            paths: match self.paths {
                Some(paths) => Some(paths@),
                None => None,
            },
        }
    }
}

impl Failure {
    /// Whether the program must stop for this failure. A failure while
    /// checking, before the handoff has begun, leaves everything as it was:
    /// the update is abandoned and the program can go on. Once the handoff
    /// has begun, a failure is reported with the state of the three files
    /// and the program stops.
    pub fn is_fatal(&self) -> (r: bool)
        ensures
            r == !(self.stage is Checking),
    {
        match self.stage {
            Stage::Checking => false,
            _ => true,
        }
    }
}

/// Mathematical value of the outcome of a flow.
pub open spec fn outcome_model(outcome: Result<Completion, Failure>) -> Result<
    Completion,
    FailureModel,
> {
    match outcome {
        Ok(how) => Ok(how),
        Err(failure) => Err(failure@),
    }
}

/// What stays the same through one run of the program.
#[derive(Debug)]
pub struct UpdateSession {
    /// Where the release feed is fetched from.
    pub feed_url: String,
    /// How the program names itself to the feed's host.
    pub user_agent: String,
    /// The version text built into the running program.
    pub current_version: String,
    /// The platform the running program was built for.
    pub platform: Platform,
    /// The argument that tells a started program to act as the helper.
    pub sentinel: String,
    /// Whether update checks are enabled.
    pub opted_in: bool,
    /// How long the helper waits before it touches the files, in milliseconds.
    pub grace_millis: u64,
}

/// Mathematical value of an [`UpdateSession`].
pub struct SessionModel {
    pub feed_url: Seq<char>,
    pub user_agent: Seq<char>,
    pub current_version: Seq<char>,
    pub platform: Platform,
    pub sentinel: Seq<char>,
    pub opted_in: bool,
    pub grace_millis: u64,
}

impl View for UpdateSession {
    type V = SessionModel;

    open spec fn view(&self) -> SessionModel {
        SessionModel {
            feed_url: self.feed_url@,
            user_agent: self.user_agent@,
            current_version: self.current_version@,
            platform: self.platform,
            sentinel: self.sentinel@,
            opted_in: self.opted_in,
            grace_millis: self.grace_millis,
        }
    }
}

/// The session of a check of the program's own releases: the feed, the
/// user agent, the version, the sentinel and the grace period are the ones
/// built in.
pub open spec fn own_session(platform: Platform, opted_in: bool) -> SessionModel {
    SessionModel {
        feed_url: RELEASES_URL@,
        user_agent: NAME@ + "/"@ + VERSION@,
        current_version: VERSION@,
        platform,
        sentinel: SENTINEL@,
        opted_in,
        grace_millis: GRACE_MILLIS,
    }
}

impl UpdateSession {
    /// The session of a check of the program's own releases on `platform`.
    pub fn new(platform: Platform, opted_in: bool) -> (r: UpdateSession)
        ensures
            r@ == own_session(platform, opted_in),
    {
        UpdateSession {
            feed_url: RELEASES_URL.to_owned(),
            user_agent: user_agent(),
            current_version: VERSION.to_owned(),
            platform,
            sentinel: SENTINEL.to_owned(),
            opted_in,
            grace_millis: GRACE_MILLIS,
        }
    }
}

/// Where the running program stands in the update flow.
#[derive(Debug)]
pub enum UpdateState {
    /// Nothing has happened yet.
    Idle,
    /// The feed was asked for.
    AwaitingFeed { current: Version },
    /// The user was asked whether to install `candidate`.
    AwaitingAnswer { candidate: ReleaseCandidate },
    /// The artifact was asked for.
    AwaitingArtifact,
    /// The entries of the artifact were asked for.
    Unpacking,
    /// The path of the running executable was asked for.
    Locating { payload: Vec<u8> },
    /// The running executable is being moved out of the way.
    Vacating { paths: HandoffPaths, payload: Vec<u8> },
    /// The new executable is being written to its staging path.
    Staging { paths: HandoffPaths },
    /// The helper is being launched.
    Spawning { paths: HandoffPaths },
    /// The flow is over.
    Finished,
}

/// Mathematical value of an [`UpdateState`].
pub enum StateModel {
    Idle,
    AwaitingFeed { current: VersionModel },
    AwaitingAnswer { candidate: CandidateModel },
    AwaitingArtifact,
    Unpacking,
    Locating { payload: Seq<u8> },
    Vacating { paths: PathsModel, payload: Seq<u8> },
    Staging { paths: PathsModel },
    Spawning { paths: PathsModel },
    Finished,
}

impl View for UpdateState {
    type V = StateModel;

    open spec fn view(&self) -> StateModel {
        match self {
            UpdateState::Idle => StateModel::Idle,
            UpdateState::AwaitingFeed { current } => StateModel::AwaitingFeed {
                current: current@,
            },
            UpdateState::AwaitingAnswer { candidate } => StateModel::AwaitingAnswer {
                candidate: candidate@,
            },
            UpdateState::AwaitingArtifact => StateModel::AwaitingArtifact,
            UpdateState::Unpacking => StateModel::Unpacking,
            UpdateState::Locating { payload } => StateModel::Locating { payload: payload@ },
            UpdateState::Vacating { paths, payload } => StateModel::Vacating {
                paths: paths@,
                payload: payload@,
            },
            UpdateState::Staging { paths } => StateModel::Staging { paths: paths@ },
            UpdateState::Spawning { paths } => StateModel::Spawning { paths: paths@ },
            UpdateState::Finished => StateModel::Finished,
        }
    }
}

/// What the caller reports back after performing an action.
#[derive(Debug)]
pub enum UpdateEvent {
    /// The program started.
    Started,
    /// The feed was fetched and holds these entries.
    FeedFetched(Vec<Release>),
    /// The feed was fetched and cannot be decoded.
    Malformed,
    /// The user answered the confirmation.
    Answered(bool),
    /// The artifact was downloaded in full.
    Downloaded(Vec<u8>),
    /// The artifact is an archive with these entries.
    Unpacked(Vec<ArchiveEntry>),
    /// The path of the running executable.
    Located(String),
    /// The last action succeeded.
    Completed,
    /// The last action failed.
    Failed,
}

/// Mathematical value of an [`UpdateEvent`].
pub enum EventModel {
    Started,
    FeedFetched(Seq<FeedEntryModel>),
    Malformed,
    Answered(bool),
    Downloaded(Seq<u8>),
    Unpacked(Seq<EntryModel>),
    Located(Seq<char>),
    Completed,
    Failed,
}

impl View for UpdateEvent {
    type V = EventModel;

    open spec fn view(&self) -> EventModel {
        match self {
            UpdateEvent::Started => EventModel::Started,
            UpdateEvent::FeedFetched(feed) => EventModel::FeedFetched(feed_models(feed@)),
            UpdateEvent::Malformed => EventModel::Malformed,
            UpdateEvent::Answered(yes) => EventModel::Answered(*yes),
            UpdateEvent::Downloaded(bytes) => EventModel::Downloaded(bytes@),
            UpdateEvent::Unpacked(entries) => EventModel::Unpacked(entry_models(entries@)),
            UpdateEvent::Located(path) => EventModel::Located(path@),
            UpdateEvent::Completed => EventModel::Completed,
            UpdateEvent::Failed => EventModel::Failed,
        }
    }
}

/// What the caller is asked to do next.
#[derive(Debug)]
pub enum UpdateAction {
    /// Fetch the release feed from `url`, naming the client as `user_agent`.
    FetchFeed { url: String, user_agent: String },
    /// Ask the user whether to replace `current` by `candidate`.
    Confirm { current: Version, candidate: ReleaseCandidate },
    /// Download the artifact at `url`, naming the client as `user_agent`.
    Download { url: String, user_agent: String },
    /// Read these bytes as an archive and list its entries.
    Unpack { bytes: Vec<u8> },
    /// Find the path of the running executable.
    Locate,
    /// Rename the file at `from` to `to`.
    Rename { from: String, to: String },
    /// Create the file at `path` with these bytes.
    Write { path: String, bytes: Vec<u8> },
    /// Start `program` as a new process with the one argument `argument`.
    Spawn { program: String, argument: String },
    /// Wait for `millis` milliseconds.
    Sleep { millis: u64 },
    /// Delete the file at `path`.
    Remove { path: String },
    /// Stop, with this outcome.
    Finish(Result<Completion, Failure>),
}

/// Mathematical value of an [`UpdateAction`].
pub enum ActionModel {
    FetchFeed { url: Seq<char>, user_agent: Seq<char> },
    Confirm { current: VersionModel, candidate: CandidateModel },
    Download { url: Seq<char>, user_agent: Seq<char> },
    Unpack { bytes: Seq<u8> },
    Locate,
    Rename { from: Seq<char>, to: Seq<char> },
    Write { path: Seq<char>, bytes: Seq<u8> },
    Spawn { program: Seq<char>, argument: Seq<char> },
    Sleep { millis: u64 },
    Remove { path: Seq<char> },
    Finish(Result<Completion, FailureModel>),
}

impl View for UpdateAction {
    type V = ActionModel;

    open spec fn view(&self) -> ActionModel {
        match self {
            UpdateAction::FetchFeed { url, user_agent } => ActionModel::FetchFeed {
                url: url@,
                user_agent: user_agent@,
            },
            UpdateAction::Confirm { current, candidate } => ActionModel::Confirm {
                current: current@,
                candidate: candidate@,
            },
            UpdateAction::Download { url, user_agent } => ActionModel::Download {
                url: url@,
                user_agent: user_agent@,
            },
            UpdateAction::Unpack { bytes } => ActionModel::Unpack { bytes: bytes@ },
            UpdateAction::Locate => ActionModel::Locate,
            UpdateAction::Rename { from, to } => ActionModel::Rename { from: from@, to: to@ },
            UpdateAction::Write { path, bytes } => ActionModel::Write {
                path: path@,
                bytes: bytes@,
            },
            UpdateAction::Spawn { program, argument } => ActionModel::Spawn {
                program: program@,
                argument: argument@,
            },
            UpdateAction::Sleep { millis } => ActionModel::Sleep { millis: *millis },
            UpdateAction::Remove { path } => ActionModel::Remove { path: path@ },
            UpdateAction::Finish(outcome) => ActionModel::Finish(outcome_model(*outcome)),
        }
    }
}

/// The step that ends the flow without a failure.
pub open spec fn done(how: Completion) -> (StateModel, ActionModel) {
    (StateModel::Finished, ActionModel::Finish(Ok(how)))
}

/// The step that ends the flow with a failure before the running executable
/// was located: nothing on disk was touched.
pub open spec fn failed(error: UpdateError) -> (StateModel, ActionModel) {
    (
        StateModel::Finished,
        ActionModel::Finish(Err(FailureModel { error, stage: Stage::Checking, paths: None })),
    )
}

/// The step that ends the flow with a failure during the handoff.
pub open spec fn stranded(error: UpdateError, stage: Stage, paths: PathsModel) -> (
    StateModel,
    ActionModel,
) {
    (
        StateModel::Finished,
        ActionModel::Finish(Err(FailureModel { error, stage, paths: Some(paths) })),
    )
}

/// One step of the running program's flow: the state that follows `state` on
/// `event` and the action to perform next, or nothing where the state does
/// not expect the event.
///
/// The flow checks that updates are enabled and reads the running version,
/// fetches the feed, selects the release to install, asks the user, downloads
/// the artifact, has it unpacked and takes the executable from its entries,
/// locates the running executable, moves it out of the way, writes the new
/// executable beside it, launches the moved executable as the helper, and
/// stops. Nothing on disk is touched before the executable is moved; from
/// then on a failure ends the flow where it stands.
pub open spec fn update_step(
    session: SessionModel,
    state: StateModel,
    event: EventModel,
) -> Option<(StateModel, ActionModel)> {
    match (state, event) {
        (StateModel::Idle, EventModel::Started) => Some(
            if !session.opted_in {
                done(Completion::Skipped)
            } else {
                match parsed_version(session.current_version) {
                    None => failed(UpdateError::DecodeFailure),
                    Some(current) => (
                        StateModel::AwaitingFeed { current },
                        ActionModel::FetchFeed {
                            url: session.feed_url,
                            user_agent: session.user_agent,
                        },
                    ),
                }
            },
        ),
        (StateModel::AwaitingFeed { current }, EventModel::FeedFetched(feed)) => Some(
            match selection(decoded_feed(feed), current, asset_name_of(session.platform)) {
                None => done(Completion::UpToDate),
                Some(candidate) => (
                    StateModel::AwaitingAnswer { candidate },
                    ActionModel::Confirm { current, candidate },
                ),
            },
        ),
        (StateModel::AwaitingFeed { .. }, EventModel::Malformed) => Some(
            failed(UpdateError::DecodeFailure),
        ),
        (StateModel::AwaitingFeed { .. }, EventModel::Failed) => Some(
            failed(UpdateError::NetworkFailure),
        ),
        (StateModel::AwaitingAnswer { candidate }, EventModel::Answered(yes)) => Some(
            if yes {
                (
                    StateModel::AwaitingArtifact,
                    ActionModel::Download {
                        url: candidate.asset_url,
                        user_agent: session.user_agent,
                    },
                )
            } else {
                done(Completion::Declined)
            },
        ),
        (StateModel::AwaitingArtifact, EventModel::Downloaded(bytes)) => Some(
            (StateModel::Unpacking, ActionModel::Unpack { bytes }),
        ),
        (StateModel::AwaitingArtifact, EventModel::Failed) => Some(
            failed(UpdateError::NetworkFailure),
        ),
        (StateModel::Unpacking, EventModel::Unpacked(entries)) => Some(
            match payload(entries) {
                Err(error) => failed(error),
                Ok(payload) => (StateModel::Locating { payload }, ActionModel::Locate),
            },
        ),
        (StateModel::Unpacking, EventModel::Failed) => Some(failed(UpdateError::CorruptArchive)),
        (StateModel::Locating { payload }, EventModel::Located(exe)) => {
            let paths = paths_for(exe, session.platform);
            Some(
                (
                    StateModel::Vacating { paths, payload },
                    ActionModel::Rename { from: paths.exe, to: paths.old },
                ),
            )
        },
        (StateModel::Locating { .. }, EventModel::Failed) => Some(
            failed(UpdateError::FilesystemFailure),
        ),
        (StateModel::Vacating { paths, payload }, EventModel::Completed) => Some(
            (
                StateModel::Staging { paths },
                ActionModel::Write { path: paths.new, bytes: payload },
            ),
        ),
        (StateModel::Vacating { paths, .. }, EventModel::Failed) => Some(
            stranded(UpdateError::FilesystemFailure, Stage::Vacating, paths),
        ),
        (StateModel::Staging { paths }, EventModel::Completed) => Some(
            (
                StateModel::Spawning { paths },
                ActionModel::Spawn { program: paths.old, argument: session.sentinel },
            ),
        ),
        (StateModel::Staging { paths }, EventModel::Failed) => Some(
            stranded(UpdateError::FilesystemFailure, Stage::Staging, paths),
        ),
        (StateModel::Spawning { .. }, EventModel::Completed) => Some(
            done(Completion::HandedOff),
        ),
        (StateModel::Spawning { paths }, EventModel::Failed) => Some(
            stranded(UpdateError::SpawnFailure, Stage::Spawning, paths),
        ),
        _ => None,
    }
}

/// Whether a step of the machine is the step of the model.
pub open spec fn is_step(
    r: Option<(UpdateState, UpdateAction)>,
    model: Option<(StateModel, ActionModel)>,
) -> bool {
    match r {
        Some((state, action)) => model == Some((state@, action@)),
        None => model is None,
    }
}

/// The step that ends the flow without a failure.
fn step_done(how: Completion) -> (r: Option<(UpdateState, UpdateAction)>)
    ensures
        is_step(r, Some(done(how))),
{
    Some((UpdateState::Finished, UpdateAction::Finish(Ok(how))))
}

/// The step that ends the flow with a failure before the running executable
/// was located.
fn step_failed(error: UpdateError) -> (r: Option<(UpdateState, UpdateAction)>)
    ensures
        is_step(r, Some(failed(error))),
{
    Some(
        (
            UpdateState::Finished,
            UpdateAction::Finish(Err(Failure { error, stage: Stage::Checking, paths: None })),
        ),
    )
}

/// The step that ends the flow with a failure during the handoff.
fn step_stranded(error: UpdateError, stage: Stage, paths: HandoffPaths) -> (r: Option<
    (UpdateState, UpdateAction),
>)
    ensures
        is_step(r, Some(stranded(error, stage, paths@))),
{
    Some(
        (
            UpdateState::Finished,
            UpdateAction::Finish(Err(Failure { error, stage, paths: Some(paths) })),
        ),
    )
}

/// Advances the running program's flow by one step: returns the state that
/// follows `state` on `event` and the action to perform next, or nothing
/// where the state does not expect the event.
pub fn update(session: &UpdateSession, state: UpdateState, event: UpdateEvent) -> (r: Option<
    (UpdateState, UpdateAction),
>)
    ensures
        is_step(r, update_step(session@, state@, event@)),
{
    match (state, event) {
        (UpdateState::Idle, UpdateEvent::Started) => {
            if !session.opted_in {
                return step_done(Completion::Skipped);
            }
            match Version::parse(session.current_version.as_str()) {
                None => step_failed(UpdateError::DecodeFailure),
                Some(current) => Some(
                    (
                        UpdateState::AwaitingFeed { current },
                        UpdateAction::FetchFeed {
                            url: session.feed_url.clone(),
                            user_agent: session.user_agent.clone(),
                        },
                    ),
                ),
            }
        },
        (UpdateState::AwaitingFeed { current }, UpdateEvent::FeedFetched(feed)) => {
            let releases = versioned_releases(feed);
            let selector = ReleaseSelector {
                current,
                asset_name: session.platform.asset_name().to_owned(),
            };
            match selector.select(&releases) {
                None => step_done(Completion::UpToDate),
                Some(candidate) => Some(
                    (
                        UpdateState::AwaitingAnswer { candidate: candidate.clone() },
                        UpdateAction::Confirm { current: selector.current, candidate },
                    ),
                ),
            }
        },
        (UpdateState::AwaitingFeed { .. }, UpdateEvent::Malformed) => step_failed(
            UpdateError::DecodeFailure,
        ),
        (UpdateState::AwaitingFeed { .. }, UpdateEvent::Failed) => step_failed(
            UpdateError::NetworkFailure,
        ),
        (UpdateState::AwaitingAnswer { candidate }, UpdateEvent::Answered(yes)) => {
            if yes {
                Some(
                    (
                        UpdateState::AwaitingArtifact,
                        UpdateAction::Download {
                            url: candidate.asset_url,
                            user_agent: session.user_agent.clone(),
                        },
                    ),
                )
            } else {
                step_done(Completion::Declined)
            }
        },
        (UpdateState::AwaitingArtifact, UpdateEvent::Downloaded(bytes)) => Some(
            (UpdateState::Unpacking, UpdateAction::Unpack { bytes }),
        ),
        (UpdateState::AwaitingArtifact, UpdateEvent::Failed) => step_failed(
            UpdateError::NetworkFailure,
        ),
        (UpdateState::Unpacking, UpdateEvent::Unpacked(entries)) => {
            match extract_executable(entries) {
                Err(error) => step_failed(error),
                Ok(payload) => Some((UpdateState::Locating { payload }, UpdateAction::Locate)),
            }
        },
        (UpdateState::Unpacking, UpdateEvent::Failed) => step_failed(
            UpdateError::CorruptArchive,
        ),
        (UpdateState::Locating { payload }, UpdateEvent::Located(exe)) => {
            let paths = handoff_paths(exe.as_str(), session.platform);
            let action = UpdateAction::Rename { from: paths.exe.clone(), to: paths.old.clone() };
            Some((UpdateState::Vacating { paths, payload }, action))
        },
        (UpdateState::Locating { .. }, UpdateEvent::Failed) => step_failed(
            UpdateError::FilesystemFailure,
        ),
        (UpdateState::Vacating { paths, payload }, UpdateEvent::Completed) => {
            let action = UpdateAction::Write { path: paths.new.clone(), bytes: payload };
            Some((UpdateState::Staging { paths }, action))
        },
        (UpdateState::Vacating { paths, .. }, UpdateEvent::Failed) => step_stranded(
            UpdateError::FilesystemFailure,
            Stage::Vacating,
            paths,
        ),
        (UpdateState::Staging { paths }, UpdateEvent::Completed) => {
            let action = UpdateAction::Spawn {
                program: paths.old.clone(),
                argument: session.sentinel.clone(),
            };
            Some((UpdateState::Spawning { paths }, action))
        },
        (UpdateState::Staging { paths }, UpdateEvent::Failed) => step_stranded(
            UpdateError::FilesystemFailure,
            Stage::Staging,
            paths,
        ),
        (UpdateState::Spawning { .. }, UpdateEvent::Completed) => step_done(
            Completion::HandedOff,
        ),
        (UpdateState::Spawning { paths }, UpdateEvent::Failed) => step_stranded(
            UpdateError::SpawnFailure,
            Stage::Spawning,
            paths,
        ),
        _ => None,
    }
}

/// Where the helper stands in putting the staged executable in place.
#[derive(Debug)]
pub enum FinishState {
    /// Nothing has happened yet.
    Idle,
    /// The helper is waiting for the program that started it to let go of
    /// its file.
    Waiting,
    /// The path that the helper runs from was asked for.
    Locating,
    /// The executable that was moved out of the way is being deleted.
    Removing { paths: HandoffPaths },
    /// The staged executable is being moved into place.
    Promoting { paths: HandoffPaths },
    /// The helper is done.
    Finished,
}

/// Mathematical value of a [`FinishState`].
pub enum FinishModel {
    Idle,
    Waiting,
    Locating,
    Removing { paths: PathsModel },
    Promoting { paths: PathsModel },
    Finished,
}

impl View for FinishState {
    type V = FinishModel;

    open spec fn view(&self) -> FinishModel {
        match self {
            FinishState::Idle => FinishModel::Idle,
            FinishState::Waiting => FinishModel::Waiting,
            FinishState::Locating => FinishModel::Locating,
            FinishState::Removing { paths } => FinishModel::Removing { paths: paths@ },
            FinishState::Promoting { paths } => FinishModel::Promoting { paths: paths@ },
            FinishState::Finished => FinishModel::Finished,
        }
    }
}

/// The step that ends the helper without a failure.
pub open spec fn finalized() -> (FinishModel, ActionModel) {
    (FinishModel::Finished, ActionModel::Finish(Ok(Completion::Finalized)))
}

/// The step that ends the helper with a failure of the filesystem.
pub open spec fn stuck(stage: Stage, paths: Option<PathsModel>) -> (FinishModel, ActionModel) {
    (
        FinishModel::Finished,
        ActionModel::Finish(
            Err(FailureModel { error: UpdateError::FilesystemFailure, stage, paths }),
        ),
    )
}

/// One step of the helper: the state that follows `state` on `event` and the
/// action to perform next, or nothing where the state does not expect the
/// event.
///
/// The helper waits once for the grace period, finds the path it runs from,
/// which is where the executable was moved to, deletes that file, moves the
/// staged executable into the executable's place, and stops. A failure ends
/// it where it stands; nothing is tried again.
pub open spec fn finish_step(
    session: SessionModel,
    state: FinishModel,
    event: EventModel,
) -> Option<(FinishModel, ActionModel)> {
    match (state, event) {
        (FinishModel::Idle, EventModel::Started) => Some(
            (FinishModel::Waiting, ActionModel::Sleep { millis: session.grace_millis }),
        ),
        (FinishModel::Waiting, EventModel::Completed) => Some(
            (FinishModel::Locating, ActionModel::Locate),
        ),
        (FinishModel::Locating, EventModel::Located(helper)) => Some(
            match paths_of_helper(helper, session.platform) {
                None => stuck(Stage::Removing, None),
                Some(paths) => (
                    FinishModel::Removing { paths },
                    ActionModel::Remove { path: paths.old },
                ),
            },
        ),
        (FinishModel::Locating, EventModel::Failed) => Some(stuck(Stage::Removing, None)),
        (FinishModel::Removing { paths }, EventModel::Completed) => Some(
            (
                FinishModel::Promoting { paths },
                ActionModel::Rename { from: paths.new, to: paths.exe },
            ),
        ),
        (FinishModel::Removing { paths }, EventModel::Failed) => Some(
            stuck(Stage::Removing, Some(paths)),
        ),
        (FinishModel::Promoting { .. }, EventModel::Completed) => Some(finalized()),
        (FinishModel::Promoting { paths }, EventModel::Failed) => Some(
            stuck(Stage::Promoting, Some(paths)),
        ),
        _ => None,
    }
}

/// Whether a step of the helper is the step of the model.
pub open spec fn is_finish_step(
    r: Option<(FinishState, UpdateAction)>,
    model: Option<(FinishModel, ActionModel)>,
) -> bool {
    match r {
        Some((state, action)) => model == Some((state@, action@)),
        None => model is None,
    }
}

/// The step that ends the helper with a failure of the filesystem.
fn step_stuck(stage: Stage, paths: Option<HandoffPaths>) -> (r: Option<
    (FinishState, UpdateAction),
>)
    ensures
        is_finish_step(
            r,
            Some(
                stuck(
                    stage,
                    match paths {
                        Some(p) => Some(p@),
                        None => None,
                    },
                ),
            ),
        ),
{
    Some(
        (
            FinishState::Finished,
            UpdateAction::Finish(
                Err(Failure { error: UpdateError::FilesystemFailure, stage, paths }),
            ),
        ),
    )
}

/// Advances the helper by one step: returns the state that follows `state`
/// on `event` and the action to perform next, or nothing where the state does
/// not expect the event.
pub fn finish_update(session: &UpdateSession, state: FinishState, event: UpdateEvent) -> (r: Option<
    (FinishState, UpdateAction),
>)
    ensures
        is_finish_step(r, finish_step(session@, state@, event@)),
{
    match (state, event) {
        (FinishState::Idle, UpdateEvent::Started) => Some(
            (FinishState::Waiting, UpdateAction::Sleep { millis: session.grace_millis }),
        ),
        (FinishState::Waiting, UpdateEvent::Completed) => Some(
            (FinishState::Locating, UpdateAction::Locate),
        ),
        (FinishState::Locating, UpdateEvent::Located(helper)) => {
            match helper_paths(helper.as_str(), session.platform) {
                None => step_stuck(Stage::Removing, None),
                Some(paths) => {
                    let action = UpdateAction::Remove { path: paths.old.clone() };
                    Some((FinishState::Removing { paths }, action))
                },
            }
        },
        (FinishState::Locating, UpdateEvent::Failed) => step_stuck(Stage::Removing, None),
        (FinishState::Removing { paths }, UpdateEvent::Completed) => {
            let action = UpdateAction::Rename { from: paths.new.clone(), to: paths.exe.clone() };
            Some((FinishState::Promoting { paths }, action))
        },
        (FinishState::Removing { paths }, UpdateEvent::Failed) => step_stuck(
            Stage::Removing,
            Some(paths),
        ),
        (FinishState::Promoting { .. }, UpdateEvent::Completed) => Some(
            (FinishState::Finished, UpdateAction::Finish(Ok(Completion::Finalized))),
        ),
        (FinishState::Promoting { paths }, UpdateEvent::Failed) => step_stuck(
            Stage::Promoting,
            Some(paths),
        ),
        _ => None,
    }
}

/// Whether a program started with these arguments is to act as the helper:
/// one of them is the sentinel.
pub fn is_helper_invocation(arguments: &Vec<String>, sentinel: &str) -> (r: bool)
    ensures
        r == exists|i: int| 0 <= i < arguments@.len() && (#[trigger] arguments@[i])@ == sentinel@,
{
    let mut i: usize = 0;
    while i < arguments.len()
        invariant
            i <= arguments.len(),
            forall|j: int| 0 <= j < i ==> (#[trigger] arguments@[j])@ != sentinel@,
        decreases arguments.len() - i,
    {
        if same_text(arguments[i].as_str(), sentinel) {
            return true;
        }
        i = i + 1;
    }
    false
}

/// The exit status for an outcome: zero where the flow ended without a
/// failure, one otherwise.
pub fn exit_code(outcome: &Result<Completion, Failure>) -> (r: u8)
    ensures
        r == if outcome is Ok { 0u8 } else { 1u8 },
{
    match outcome {
        Ok(_) => 0,
        Err(_) => 1,
    }
}

/// The question put to the user before an update is installed.
pub open spec fn confirmation_text(current: VersionModel, new: VersionModel) -> Seq<char> {
    "A new version is available, do you want to update? (current: "@ + version_text(current)
        + ", new: "@ + version_text(new) + ")"@
}

/// Writes the question put to the user before an update is installed.
pub fn confirmation(current: &Version, new: &Version) -> (r: String)
    ensures
        r@ == confirmation_text(current@, new@),
{
    let mut out = "A new version is available, do you want to update? (current: ".to_owned();
    out.append(current.to_string().as_str());
    out.append(", new: ");
    out.append(new.to_string().as_str());
    out.append(")");
    out
}

} // verus!
