//! The command that checks for updates and installs them.

use vstd::prelude::*;
use crate::paths::Platform;
use crate::updater::{UpdateSession, own_session};

verus! {

/// Options of the update command: it has none.
#[derive(Debug)]
pub struct Update {}

impl Update {
    /// The session of an update check that the user asked for: it runs
    /// whether or not automatic checks are enabled.
    pub fn session(&self, platform: Platform) -> (r: UpdateSession)
        ensures
            r@ == own_session(platform, true),
    {
        UpdateSession::new(platform, true)
    }
}

} // verus!
