//! What is fixed when the program is built.

use vstd::prelude::*;
use crate::text::followed_by;

verus! {

/// The name of the program.
pub const NAME: &'static str = "bm2";

/// The version of the program, as built in.
pub const VERSION: &'static str = "0.4.0";

/// Where the releases of the program are listed.
pub const RELEASES_URL: &'static str = "https://api.github.com/repos/raftario/bm2/releases";

/// The argument that makes a started program act as the update helper.
pub const SENTINEL: &'static str = "finish_update";

/// How long the helper waits before it touches the files, in milliseconds.
pub const GRACE_MILLIS: u64 = 500;

/// How the program names itself to the hosts it talks to: its name, a slash
/// and its version.
pub fn user_agent() -> (r: String)
    ensures
        r@ == NAME@ + "/"@ + VERSION@,
{
    let mut out = followed_by(NAME, "/");
    out.append(VERSION);
    out
}

} // verus!
