use bm2::archive::ArchiveEntry;
use bm2::error::UpdateError;
use bm2::globals::{user_agent, GRACE_MILLIS, NAME, RELEASES_URL, SENTINEL, VERSION};
use bm2::handoff::{FileState, Layout};
use bm2::paths::{handoff_paths, helper_paths, Platform};
use bm2::release::{Release, ReleaseAsset};
use bm2::updater::{
    confirmation, exit_code, finish_update, is_helper_invocation, update, Completion, Failure,
    FinishState, Stage, UpdateAction, UpdateEvent, UpdateSession, UpdateState,
};
use bm2::version::Version;
use std::collections::HashMap;
use std::io::{Cursor, Read, Write};
use zip::write::FileOptions;
use zip::{ZipArchive, ZipWriter};

type Disk = HashMap<String, Vec<u8>>;

const EXE: &str = "/opt/tools/bm2";
const OLD_BYTES: &[u8] = b"the running program";
const NEW_BYTES: &[u8] = b"the program that replaces it";

fn session(platform: Platform, opted_in: bool, current: &str) -> UpdateSession {
    UpdateSession {
        feed_url: "https://feed.example/releases".to_string(),
        user_agent: "bm2/1.2.0".to_string(),
        current_version: current.to_string(),
        platform,
        sentinel: "finish_update".to_string(),
        opted_in,
        grace_millis: 500,
    }
}

fn feed() -> Vec<Release> {
    let release = |tag: &str, name: &str| Release {
        tag_name: tag.to_string(),
        assets: vec![ReleaseAsset {
            name: name.to_string(),
            browser_download_url: format!("https://feed.example/{}/{}", tag, name),
        }],
    };
    vec![
        release("v1.1.9", "Linux.zip"),
        release("v1.2.0", "Linux.zip"),
        release("v1.3.0", "Linux.zip"),
        release("v2.0.0", "Windows.zip"),
    ]
}

fn artifact(payload: &[u8]) -> Vec<u8> {
    let mut writer = ZipWriter::new(Cursor::new(Vec::new()));
    writer.add_directory("bin/", FileOptions::default()).unwrap();
    writer.start_file("bin/app", FileOptions::default()).unwrap();
    writer.write_all(payload).unwrap();
    writer.finish().unwrap().into_inner()
}

fn entries(bytes: &[u8]) -> Option<Vec<ArchiveEntry>> {
    let mut zip = ZipArchive::new(Cursor::new(bytes.to_vec())).ok()?;
    let mut entries = Vec::new();
    for index in 0..zip.len() {
        entries.push(match zip.by_index(index) {
            Err(_) => ArchiveEntry { is_file: None, data: None },
            Ok(mut file) => {
                let is_file = Some(file.is_file());
                let mut data = Vec::new();
                let data = file.read_to_end(&mut data).ok().map(|_| data);
                ArchiveEntry { is_file, data }
            }
        });
    }
    Some(entries)
}

fn unpacked(action: &UpdateAction) -> UpdateEvent {
    match action {
        UpdateAction::Unpack { bytes } => match entries(bytes) {
            Some(entries) => UpdateEvent::Unpacked(entries),
            None => UpdateEvent::Failed,
        },
        other => panic!("expected an unpack, got {:?}", other),
    }
}

fn downloaded(s: &UpdateSession, artifact: Vec<u8>) -> (UpdateState, UpdateAction) {
    let (state, _) = accepted(s);
    let (state, action) = step(s, state, UpdateEvent::Downloaded(artifact.clone()));
    assert!(matches!(state, UpdateState::Unpacking));
    assert!(matches!(&action, UpdateAction::Unpack { bytes } if *bytes == artifact));
    let event = unpacked(&action);
    step(s, state, event)
}

fn disk() -> Disk {
    let mut disk = Disk::new();
    disk.insert(EXE.to_string(), OLD_BYTES.to_vec());
    disk.insert("/opt/tools/notes.txt".to_string(), b"unrelated".to_vec());
    disk
}

fn perform(disk: &mut Disk, action: &UpdateAction) -> bool {
    match action {
        UpdateAction::Rename { from, to } => match disk.remove(from) {
            Some(bytes) => {
                disk.insert(to.clone(), bytes);
                true
            }
            None => false,
        },
        UpdateAction::Write { path, bytes } => {
            disk.insert(path.clone(), bytes.clone());
            true
        }
        UpdateAction::Remove { path } => disk.remove(path).is_some(),
        _ => true,
    }
}

fn step(s: &UpdateSession, state: UpdateState, event: UpdateEvent) -> (UpdateState, UpdateAction) {
    update(s, state, event).expect("the state expects the event")
}

fn helper_step(
    s: &UpdateSession,
    state: FinishState,
    event: UpdateEvent,
) -> (FinishState, UpdateAction) {
    finish_update(s, state, event).expect("the state expects the event")
}

fn accepted(s: &UpdateSession) -> (UpdateState, UpdateAction) {
    let (state, action) = step(s, UpdateState::Idle, UpdateEvent::Started);
    assert!(matches!(&action, UpdateAction::FetchFeed { url, user_agent }
        if url == "https://feed.example/releases" && user_agent == "bm2/1.2.0"));
    let (state, action) = step(s, state, UpdateEvent::FeedFetched(feed()));
    assert!(matches!(&action, UpdateAction::Confirm { current, candidate }
        if current.to_string() == "1.2.0" && candidate.version.to_string() == "1.3.0"));
    step(s, state, UpdateEvent::Answered(true))
}

fn staged(s: &UpdateSession, disk: &mut Disk) -> (UpdateState, UpdateAction) {
    let (state, action) = accepted(s);
    assert!(matches!(&action, UpdateAction::Download { url, user_agent }
        if url == "https://feed.example/v1.3.0/Linux.zip" && user_agent == "bm2/1.2.0"));
    let (state, action) = step(s, state, UpdateEvent::Downloaded(artifact(NEW_BYTES)));
    assert!(matches!(&action, UpdateAction::Unpack { bytes } if *bytes == artifact(NEW_BYTES)));
    let event = unpacked(&action);
    let (state, action) = step(s, state, event);
    assert!(matches!(action, UpdateAction::Locate));
    let (state, action) = step(s, state, UpdateEvent::Located(EXE.to_string()));
    assert!(matches!(&action, UpdateAction::Rename { from, to }
        if from == EXE && to == "/opt/tools/bm2.old"));
    assert!(perform(disk, &action));
    let (state, action) = step(s, state, UpdateEvent::Completed);
    assert!(matches!(&action, UpdateAction::Write { path, bytes }
        if path == "/opt/tools/bm2.new" && bytes == NEW_BYTES));
    (state, action)
}

fn failure(action: UpdateAction) -> Failure {
    match action {
        UpdateAction::Finish(Err(failure)) => failure,
        other => panic!("expected a failure, got {:?}", other),
    }
}

#[test]
fn full_handoff_replaces_executable() {
    let s = session(Platform::Linux, true, "1.2.0");
    let mut disk = disk();
    let (state, action) = staged(&s, &mut disk);
    assert!(perform(&mut disk, &action));
    let (state, action) = step(&s, state, UpdateEvent::Completed);
    let program = match &action {
        UpdateAction::Spawn { program, argument } => {
            assert_eq!(argument, "finish_update");
            program.clone()
        }
        other => panic!("expected a spawn, got {:?}", other),
    };
    assert_eq!(program, "/opt/tools/bm2.old");
    assert_eq!(disk.get(&program).map(|b| b.as_slice()), Some(OLD_BYTES));
    let (state, action) = step(&s, state, UpdateEvent::Completed);
    assert!(matches!(state, UpdateState::Finished));
    assert!(matches!(action, UpdateAction::Finish(Ok(Completion::HandedOff))));

    assert!(is_helper_invocation(&vec![program.clone(), "finish_update".to_string()], &s.sentinel));
    let (state, action) = helper_step(&s, FinishState::Idle, UpdateEvent::Started);
    assert!(matches!(action, UpdateAction::Sleep { millis: 500 }));
    let (state, action) = helper_step(&s, state, UpdateEvent::Completed);
    assert!(matches!(action, UpdateAction::Locate));
    let (state, action) = helper_step(&s, state, UpdateEvent::Located(program));
    assert!(matches!(&action, UpdateAction::Remove { path } if path == "/opt/tools/bm2.old"));
    assert!(perform(&mut disk, &action));
    let (state, action) = helper_step(&s, state, UpdateEvent::Completed);
    assert!(matches!(&action, UpdateAction::Rename { from, to }
        if from == "/opt/tools/bm2.new" && to == EXE));
    assert!(perform(&mut disk, &action));
    let (state, action) = helper_step(&s, state, UpdateEvent::Completed);
    assert!(matches!(state, FinishState::Finished));
    assert!(matches!(action, UpdateAction::Finish(Ok(Completion::Finalized))));

    assert_eq!(disk.get(EXE).map(|b| b.as_slice()), Some(NEW_BYTES));
    assert!(!disk.contains_key("/opt/tools/bm2.old"));
    assert!(!disk.contains_key("/opt/tools/bm2.new"));
    assert_eq!(disk.get("/opt/tools/notes.txt").map(|b| b.as_slice()), Some(&b"unrelated"[..]));
    assert_eq!(disk.len(), 2);
}

#[test]
fn abort_after_rename_leaves_recoverable_state() {
    let s = session(Platform::Linux, true, "1.2.0");
    let mut disk = disk();
    let (state, action) = staged(&s, &mut disk);
    if let UpdateAction::Write { path, bytes } = &action {
        disk.insert(path.clone(), bytes[..5].to_vec());
    }
    assert!(!disk.contains_key(EXE));
    assert_eq!(disk.get("/opt/tools/bm2.old").map(|b| b.as_slice()), Some(OLD_BYTES));
    assert_eq!(disk.get("/opt/tools/bm2.new").map(|b| b.as_slice()), Some(&NEW_BYTES[..5]));

    let (state, action) = step(&s, state, UpdateEvent::Failed);
    assert!(matches!(state, UpdateState::Finished));
    let failure = failure(action);
    assert_eq!(failure.error, UpdateError::FilesystemFailure);
    assert_eq!(failure.stage, Stage::Staging);
    assert_eq!(
        failure.stage.layout(),
        Layout { exe: FileState::Absent, old: FileState::Present, new: FileState::Partial }
    );
    assert_eq!(
        failure.describe(),
        "Failed to replace the executable; /opt/tools/bm2: absent, \
         /opt/tools/bm2.old: present, /opt/tools/bm2.new: absent or incomplete"
    );
}

#[test]
fn declining_changes_nothing() {
    let s = session(Platform::Linux, true, "1.2.0");
    let mut disk = disk();
    let before = disk.clone();
    let (state, action) = step(&s, UpdateState::Idle, UpdateEvent::Started);
    assert!(perform(&mut disk, &action));
    let (state, action) = step(&s, state, UpdateEvent::FeedFetched(feed()));
    assert!(perform(&mut disk, &action));
    let (state, action) = step(&s, state, UpdateEvent::Answered(false));
    assert!(perform(&mut disk, &action));
    assert!(matches!(state, UpdateState::Finished));
    assert!(matches!(&action, UpdateAction::Finish(Ok(Completion::Declined))));
    if let UpdateAction::Finish(outcome) = &action {
        assert_eq!(exit_code(outcome), 0);
    }
    assert_eq!(disk, before);
    assert!(update(&s, state, UpdateEvent::Completed).is_none());
}

#[test]
fn skipped_when_not_opted_in() {
    let s = session(Platform::Linux, false, "1.2.0");
    let (state, action) = step(&s, UpdateState::Idle, UpdateEvent::Started);
    assert!(matches!(state, UpdateState::Finished));
    assert!(matches!(action, UpdateAction::Finish(Ok(Completion::Skipped))));
}

#[test]
fn up_to_date_when_nothing_newer() {
    let s = session(Platform::Linux, true, "1.3.0");
    let (state, _) = step(&s, UpdateState::Idle, UpdateEvent::Started);
    let (state, action) = step(&s, state, UpdateEvent::FeedFetched(feed()));
    assert!(matches!(state, UpdateState::Finished));
    assert!(matches!(action, UpdateAction::Finish(Ok(Completion::UpToDate))));
    let (state, _) = step(&s, UpdateState::Idle, UpdateEvent::Started);
    let (_, action) = step(&s, state, UpdateEvent::FeedFetched(Vec::new()));
    assert!(matches!(action, UpdateAction::Finish(Ok(Completion::UpToDate))));
}

#[test]
fn unreadable_running_version_fails_the_check() {
    let s = session(Platform::Linux, true, "not a version");
    let (_, action) = step(&s, UpdateState::Idle, UpdateEvent::Started);
    let failure = failure(action);
    assert_eq!(failure.error, UpdateError::DecodeFailure);
    assert_eq!(failure.stage, Stage::Checking);
    assert!(!failure.is_fatal());
    assert!(failure.paths.is_none());
    assert_eq!(failure.describe(), "Invalid release data");
}

#[test]
fn feed_failures_abandon_the_update() {
    let s = session(Platform::Linux, true, "1.2.0");
    let (state, _) = step(&s, UpdateState::Idle, UpdateEvent::Started);
    let failed = failure(step(&s, state, UpdateEvent::Failed).1);
    assert_eq!((failed.error, failed.stage), (UpdateError::NetworkFailure, Stage::Checking));
    let (state, _) = step(&s, UpdateState::Idle, UpdateEvent::Started);
    let malformed = failure(step(&s, state, UpdateEvent::Malformed).1);
    assert_eq!((malformed.error, malformed.stage), (UpdateError::DecodeFailure, Stage::Checking));
    assert_eq!(exit_code(&Err(malformed)), 1);
}

#[test]
fn download_failures_abandon_the_update() {
    let s = session(Platform::Linux, true, "1.2.0");
    let (state, _) = accepted(&s);
    let failed = failure(step(&s, state, UpdateEvent::Failed).1);
    assert_eq!((failed.error, failed.stage), (UpdateError::NetworkFailure, Stage::Checking));

    let garbage = failure(downloaded(&s, b"garbage".to_vec()).1);
    assert_eq!((garbage.error, garbage.stage), (UpdateError::CorruptArchive, Stage::Checking));
    assert!(!garbage.is_fatal());
    assert_eq!(garbage.describe(), "Invalid archive in GitHub download");

    let mut writer = ZipWriter::new(Cursor::new(Vec::new()));
    writer.add_directory("bin/", FileOptions::default()).unwrap();
    let empty = writer.finish().unwrap().into_inner();
    let missing = failure(downloaded(&s, empty).1);
    assert_eq!((missing.error, missing.stage), (UpdateError::MissingEntry, Stage::Checking));
    assert!(missing.paths.is_none());
    assert_eq!(missing.describe(), "Missing file in GitHub download");
}

#[test]
fn failed_rename_changes_nothing() {
    let s = session(Platform::Linux, true, "1.2.0");
    let (state, _) = downloaded(&s, artifact(NEW_BYTES));
    let (state, action) = step(&s, state, UpdateEvent::Located(EXE.to_string()));
    assert!(matches!(action, UpdateAction::Rename { .. }));
    let failed = failure(step(&s, state, UpdateEvent::Failed).1);
    assert_eq!((failed.error, failed.stage), (UpdateError::FilesystemFailure, Stage::Vacating));
    assert_eq!(
        failed.stage.layout(),
        Layout { exe: FileState::Present, old: FileState::Absent, new: FileState::Absent }
    );
    assert_eq!(failed.paths.as_ref().map(|p| p.old.as_str()), Some("/opt/tools/bm2.old"));
}

#[test]
fn failing_to_locate_the_executable_changes_nothing() {
    let s = session(Platform::Linux, true, "1.2.0");
    let (state, action) = downloaded(&s, artifact(NEW_BYTES));
    assert!(matches!(action, UpdateAction::Locate));
    let failed = failure(step(&s, state, UpdateEvent::Failed).1);
    assert_eq!((failed.error, failed.stage), (UpdateError::FilesystemFailure, Stage::Checking));
}

#[test]
fn spawn_failure_is_reported_with_the_layout() {
    let s = session(Platform::Linux, true, "1.2.0");
    let mut disk = disk();
    let (state, action) = staged(&s, &mut disk);
    assert!(perform(&mut disk, &action));
    let (state, action) = step(&s, state, UpdateEvent::Completed);
    assert!(matches!(action, UpdateAction::Spawn { .. }));
    let failed = failure(step(&s, state, UpdateEvent::Failed).1);
    assert_eq!((failed.error, failed.stage), (UpdateError::SpawnFailure, Stage::Spawning));
    assert!(failed.is_fatal());
    assert_eq!(
        failed.describe(),
        "Failed to launch the new executable; /opt/tools/bm2: absent, \
         /opt/tools/bm2.old: present, /opt/tools/bm2.new: present"
    );
    assert!(!disk.contains_key(EXE));
    assert_eq!(disk.get("/opt/tools/bm2.old").map(|b| b.as_slice()), Some(OLD_BYTES));
    assert_eq!(disk.get("/opt/tools/bm2.new").map(|b| b.as_slice()), Some(NEW_BYTES));
}

#[test]
fn helper_failures_are_not_retried() {
    let s = session(Platform::Linux, true, "1.2.0");
    let locating = |s: &UpdateSession| {
        let (state, _) = helper_step(s, FinishState::Idle, UpdateEvent::Started);
        helper_step(s, state, UpdateEvent::Completed).0
    };
    let (state, action) =
        helper_step(&s, locating(&s), UpdateEvent::Located("/opt/tools/bm2.old".to_string()));
    assert!(matches!(action, UpdateAction::Remove { .. }));
    let (after, action) = helper_step(&s, state, UpdateEvent::Failed);
    assert!(matches!(after, FinishState::Finished));
    let failed = failure(action);
    assert_eq!((failed.error, failed.stage), (UpdateError::FilesystemFailure, Stage::Removing));
    assert_eq!(
        failed.describe(),
        "Failed to replace the executable; /opt/tools/bm2: absent, \
         /opt/tools/bm2.old: present, /opt/tools/bm2.new: present"
    );
    assert!(finish_update(&s, after, UpdateEvent::Completed).is_none());

    let (state, _) =
        helper_step(&s, locating(&s), UpdateEvent::Located("/opt/tools/bm2.old".to_string()));
    let (state, action) = helper_step(&s, state, UpdateEvent::Completed);
    assert!(matches!(action, UpdateAction::Rename { .. }));
    let failed = failure(helper_step(&s, state, UpdateEvent::Failed).1);
    assert_eq!((failed.error, failed.stage), (UpdateError::FilesystemFailure, Stage::Promoting));
    assert_eq!(
        failed.stage.layout(),
        Layout { exe: FileState::Absent, old: FileState::Absent, new: FileState::Present }
    );
}

#[test]
fn helper_stops_when_it_cannot_tell_its_files() {
    let s = session(Platform::Linux, true, "1.2.0");
    let (state, _) = helper_step(&s, FinishState::Idle, UpdateEvent::Started);
    let (state, _) = helper_step(&s, state, UpdateEvent::Completed);
    let failed =
        failure(helper_step(&s, state, UpdateEvent::Located("/opt/tools/bm2".to_string())).1);
    assert_eq!((failed.error, failed.stage), (UpdateError::FilesystemFailure, Stage::Removing));
    assert!(failed.paths.is_none());

    let (state, _) = helper_step(&s, FinishState::Idle, UpdateEvent::Started);
    let (state, _) = helper_step(&s, state, UpdateEvent::Completed);
    let failed = failure(helper_step(&s, state, UpdateEvent::Failed).1);
    assert_eq!((failed.error, failed.stage), (UpdateError::FilesystemFailure, Stage::Removing));
}

#[test]
fn events_out_of_turn_are_refused() {
    let s = session(Platform::Linux, true, "1.2.0");
    assert!(update(&s, UpdateState::Idle, UpdateEvent::Completed).is_none());
    assert!(update(&s, UpdateState::Idle, UpdateEvent::Answered(true)).is_none());
    assert!(update(&s, UpdateState::AwaitingArtifact, UpdateEvent::Started).is_none());
    assert!(update(&s, UpdateState::AwaitingArtifact, UpdateEvent::Unpacked(Vec::new())).is_none());
    assert!(update(&s, UpdateState::Unpacking, UpdateEvent::Downloaded(Vec::new())).is_none());
    assert!(update(&s, UpdateState::Finished, UpdateEvent::Started).is_none());
    assert!(finish_update(&s, FinishState::Idle, UpdateEvent::Completed).is_none());
    assert!(finish_update(&s, FinishState::Waiting, UpdateEvent::Failed).is_none());
}

#[test]
fn paths_follow_the_platform() {
    let unix = handoff_paths("/usr/bin/bm2", Platform::Linux);
    assert_eq!(
        (unix.exe.as_str(), unix.old.as_str(), unix.new.as_str()),
        ("/usr/bin/bm2", "/usr/bin/bm2.old", "/usr/bin/bm2.new")
    );
    let mac = handoff_paths("bm2", Platform::MacOs);
    assert_eq!((mac.old.as_str(), mac.new.as_str()), ("bm2.old", "bm2.new"));
    let windows = handoff_paths("C:\\bm2.exe", Platform::Windows);
    assert_eq!(
        (windows.exe.as_str(), windows.old.as_str(), windows.new.as_str()),
        ("C:\\bm2.exe", "C:\\bm2.exe.old.exe", "C:\\bm2.exe.new.exe")
    );
}

#[test]
fn helper_recovers_the_paths() {
    for (exe, platform) in [
        ("/usr/bin/bm2", Platform::Linux),
        ("bm2", Platform::MacOs),
        ("C:\\bm2.exe", Platform::Windows),
        ("", Platform::Linux),
    ] {
        let paths = handoff_paths(exe, platform);
        let back = helper_paths(&paths.old, platform).expect("the path of a helper");
        assert_eq!((back.exe, back.old, back.new), (paths.exe, paths.old, paths.new));
    }
    assert!(helper_paths("/usr/bin/bm2", Platform::Linux).is_none());
    assert!(helper_paths("bm2.old", Platform::Windows).is_none());
    assert!(helper_paths("old", Platform::Linux).is_none());
}

#[test]
fn platform_names_its_asset() {
    assert_eq!(Platform::Windows.asset_name(), "Windows.zip");
    assert_eq!(Platform::MacOs.asset_name(), "macOS.zip");
    assert_eq!(Platform::Linux.asset_name(), "Linux.zip");
    assert_eq!(Platform::Windows.old_suffix(), ".old.exe");
    assert_eq!(Platform::Linux.new_suffix(), ".new");
}

#[test]
fn selection_in_the_flow_follows_the_platform() {
    let s = session(Platform::Windows, true, "1.2.0");
    let (state, _) = step(&s, UpdateState::Idle, UpdateEvent::Started);
    let (_, action) = step(&s, state, UpdateEvent::FeedFetched(feed()));
    assert!(matches!(&action, UpdateAction::Confirm { candidate, .. }
        if candidate.version.to_string() == "2.0.0"
            && candidate.asset_url == "https://feed.example/v2.0.0/Windows.zip"));
    let mac = session(Platform::MacOs, true, "1.2.0");
    let (state, _) = step(&mac, UpdateState::Idle, UpdateEvent::Started);
    let (_, action) = step(&mac, state, UpdateEvent::FeedFetched(feed()));
    assert!(matches!(action, UpdateAction::Finish(Ok(Completion::UpToDate))));
}

#[test]
fn sentinel_is_recognised_among_the_arguments() {
    let args = |list: &[&str]| list.iter().map(|a| a.to_string()).collect::<Vec<String>>();
    assert!(is_helper_invocation(&args(&["bm2.old", "finish_update"]), SENTINEL));
    assert!(is_helper_invocation(&args(&["finish_update"]), SENTINEL));
    assert!(!is_helper_invocation(&args(&["bm2", "update"]), SENTINEL));
    assert!(!is_helper_invocation(&args(&["bm2", "finish_update "]), SENTINEL));
    assert!(!is_helper_invocation(&args(&[]), SENTINEL));
}

#[test]
fn confirmation_names_both_versions() {
    let current = Version::parse("1.2.0").unwrap();
    let new = Version::parse("1.3.0-rc.1").unwrap();
    assert_eq!(
        confirmation(&current, &new),
        "A new version is available, do you want to update? (current: 1.2.0, new: 1.3.0-rc.1)"
    );
}

#[test]
fn exit_code_tells_failure_from_success() {
    for how in [
        Completion::Skipped,
        Completion::UpToDate,
        Completion::Declined,
        Completion::HandedOff,
        Completion::Finalized,
    ] {
        assert_eq!(exit_code(&Ok(how)), 0);
    }
    let failure =
        Failure { error: UpdateError::SpawnFailure, stage: Stage::Spawning, paths: None };
    assert_eq!(exit_code(&Err(failure)), 1);
}

#[test]
fn built_in_values_go_together() {
    assert_eq!(NAME, "bm2");
    assert_eq!(user_agent(), format!("bm2/{}", VERSION));
    let own = UpdateSession::new(Platform::Linux, false);
    assert_eq!(own.feed_url, RELEASES_URL);
    assert_eq!(own.user_agent, "bm2/0.4.0");
    assert_eq!(own.current_version, VERSION);
    assert_eq!(own.sentinel, SENTINEL);
    assert_eq!(own.grace_millis, GRACE_MILLIS);
    assert!(!own.opted_in);
    assert!(Version::parse(VERSION).is_some());
    assert_eq!(SENTINEL, "finish_update");
    assert_eq!(GRACE_MILLIS, 500);
    assert_eq!(RELEASES_URL, "https://api.github.com/repos/raftario/bm2/releases");
}

#[test]
fn failures_are_fatal_from_the_move_on() {
    let at = |stage: Stage| Failure { error: UpdateError::FilesystemFailure, stage, paths: None };
    assert!(!at(Stage::Checking).is_fatal());
    for stage in
        [Stage::Vacating, Stage::Staging, Stage::Spawning, Stage::Removing, Stage::Promoting]
    {
        assert!(at(stage).is_fatal());
    }
}

#[test]
fn the_executable_is_taken_from_the_entries() {
    let s = session(Platform::Linux, true, "1.2.0");
    let entries = vec![
        ArchiveEntry { is_file: Some(false), data: Some(Vec::new()) },
        ArchiveEntry { is_file: Some(true), data: Some(b"payload".to_vec()) },
        ArchiveEntry { is_file: Some(true), data: Some(b"other".to_vec()) },
    ];
    let (state, action) = step(&s, UpdateState::Unpacking, UpdateEvent::Unpacked(entries));
    assert!(matches!(action, UpdateAction::Locate));
    assert!(matches!(&state, UpdateState::Locating { payload } if payload == b"payload"));
    let (_, action) = step(&s, state, UpdateEvent::Located(EXE.to_string()));
    assert!(matches!(action, UpdateAction::Rename { .. }));

    let failed = failure(step(&s, UpdateState::Unpacking, UpdateEvent::Failed).1);
    assert_eq!((failed.error, failed.stage), (UpdateError::CorruptArchive, Stage::Checking));
    let none = failure(step(&s, UpdateState::Unpacking, UpdateEvent::Unpacked(Vec::new())).1);
    assert_eq!((none.error, none.stage), (UpdateError::MissingEntry, Stage::Checking));
}
