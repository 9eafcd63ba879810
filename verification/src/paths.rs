//! The three paths of a handoff: the executable, where it is moved out of
//! the way, and where its successor is staged.

use vstd::prelude::*;
use crate::text::{ends_with, followed_by, is_suffix};

verus! {

/// The platform classes that releases are built for.
#[derive(Clone, Copy, Debug, PartialEq, Eq, Structural)]
pub enum Platform {
    Windows,
    MacOs,
    Linux,
}

/// The name of the release asset built for a platform.
pub open spec fn asset_name_of(platform: Platform) -> Seq<char> {
    match platform {
        Platform::Windows => "Windows.zip"@,
        Platform::MacOs => "macOS.zip"@,
        Platform::Linux => "Linux.zip"@,
    }
}

/// What is appended to the executable's path to name the file it is renamed
/// to; it ends in the platform's executable extension.
pub open spec fn old_suffix(platform: Platform) -> Seq<char> {
    match platform {
        Platform::Windows => ".old.exe"@,
        _ => ".old"@,
    }
}

/// What is appended to the executable's path to name the file its successor
/// is staged in; it ends in the platform's executable extension.
pub open spec fn new_suffix(platform: Platform) -> Seq<char> {
    match platform {
        Platform::Windows => ".new.exe"@,
        _ => ".new"@,
    }
}

impl Platform {
    /// The name of the release asset built for this platform.
    pub fn asset_name(&self) -> (r: &'static str)
        ensures
            r@ == asset_name_of(*self),
    {
        match self {
            Platform::Windows => "Windows.zip",
            Platform::MacOs => "macOS.zip",
            Platform::Linux => "Linux.zip",
        }
    }

    /// The suffix of the path that the running executable is renamed to.
    pub fn old_suffix(&self) -> (r: &'static str)
        ensures
            r@ == old_suffix(*self),
    {
        match self {
            Platform::Windows => ".old.exe",
            _ => ".old",
        }
    }

    /// The suffix of the path that the new executable is staged in.
    pub fn new_suffix(&self) -> (r: &'static str)
        ensures
            r@ == new_suffix(*self),
    {
        match self {
            Platform::Windows => ".new.exe",
            _ => ".new",
        }
    }
}

/// The paths of one handoff.
#[derive(Debug)]
pub struct HandoffPaths {
    /// The path of the executable.
    pub exe: String,
    /// Where the running executable is moved to.
    pub old: String,
    /// Where the new executable is staged.
    pub new: String,
}

/// Mathematical value of [`HandoffPaths`].
pub struct PathsModel {
    pub exe: Seq<char>,
    pub old: Seq<char>,
    pub new: Seq<char>,
}

impl View for HandoffPaths {
    type V = PathsModel;

    open spec fn view(&self) -> PathsModel {
        PathsModel { exe: self.exe@, old: self.old@, new: self.new@ }
    }
}

/// The paths of the handoff of the executable at `exe`.
pub open spec fn paths_for(exe: Seq<char>, platform: Platform) -> PathsModel {
    PathsModel { exe, old: exe + old_suffix(platform), new: exe + new_suffix(platform) }
}

/// The paths of the handoff that a helper running from `helper` completes:
/// `helper` is the path that the executable was moved to, so the executable's
/// own path is `helper` without the suffix. A path that does not end in the
/// suffix belongs to no handoff.
pub open spec fn paths_of_helper(helper: Seq<char>, platform: Platform) -> Option<PathsModel> {
    if is_suffix(helper, old_suffix(platform)) {
        Some(paths_for(helper.subrange(0, helper.len() - old_suffix(platform).len()), platform))
    } else {
        None
    }
}

/// Computes the paths of the handoff of the executable at `exe`.
pub fn handoff_paths(exe: &str, platform: Platform) -> (r: HandoffPaths)
    ensures
        r@ == paths_for(exe@, platform),
{
    HandoffPaths {
        exe: exe.to_owned(),
        old: followed_by(exe, platform.old_suffix()),
        new: followed_by(exe, platform.new_suffix()),
    }
}

/// Recovers the paths of a handoff from the path that the helper runs from.
pub fn helper_paths(helper: &str, platform: Platform) -> (r: Option<HandoffPaths>)
    ensures
        match r {
            Some(paths) => paths_of_helper(helper@, platform) == Some(paths@),
            None => paths_of_helper(helper@, platform) is None,
        },
{
    let suffix = platform.old_suffix();
    if !ends_with(helper, suffix) {
        return None;
    }
    let n = helper.unicode_len() - suffix.unicode_len();
    Some(handoff_paths(helper.substring_char(0, n), platform))
}

/// The three paths of a handoff differ from one another.
pub proof fn lemma_paths_distinct(exe: Seq<char>, platform: Platform)
    ensures
        paths_for(exe, platform).exe != paths_for(exe, platform).old,
        paths_for(exe, platform).exe != paths_for(exe, platform).new,
        paths_for(exe, platform).old != paths_for(exe, platform).new,
{
    reveal_strlit(".old.exe");
    reveal_strlit(".old");
    reveal_strlit(".new.exe");
    reveal_strlit(".new");
    let paths = paths_for(exe, platform);
    assert(paths.old[exe.len() as int + 1] == 'o');
    assert(paths.new[exe.len() as int + 1] == 'n');
}

/// A helper finds the handoff it was started for: from the path that the
/// executable was moved to, it recovers the same three paths.
pub proof fn lemma_helper_recovers_paths(exe: Seq<char>, platform: Platform)
    ensures
        paths_of_helper(paths_for(exe, platform).old, platform) == Some(paths_for(exe, platform)),
{
    let suffix = old_suffix(platform);
    let old = exe + suffix;
    assert(old.subrange(old.len() - suffix.len(), old.len() as int) =~= suffix);
    assert(old.subrange(0, old.len() - suffix.len()) =~= exe);
}

} // verus!
