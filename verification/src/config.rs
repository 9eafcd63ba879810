//! The program's own settings.

use vstd::prelude::*;
use vstd::std_specs::cmp::PartialEqSpec;
use crate::globals::VERSION;
use crate::text::followed_by;

verus! {

/// Whether a value is the default of its type.
pub fn is_default<T: Default + PartialEq>(arg: &T) -> (r: bool)
    ensures
        T::obeys_eq_spec() ==> exists|d: T|
            call_ensures(T::default, (), d) && r == arg.eq_spec(&d),
{
    let d = T::default();
    *arg == d
}

/// The address of the settings schema for a version of the program.
pub open spec fn schema_of(version: Seq<char>) -> Seq<char> {
    "https://raw.githubusercontent.com/raftario/bm2/v"@ + version + "/config.schema.json"@
}

/// The address of the settings schema for this version of the program.
pub fn schema() -> (r: String)
    ensures
        r@ == schema_of(VERSION@),
{
    let mut out = followed_by("https://raw.githubusercontent.com/raftario/bm2/v", VERSION);
    out.append("/config.schema.json");
    out
}

/// What a new manifest starts out with.
#[derive(Debug)]
pub struct Defaults {
    pub author: Option<String>,
    pub license: Option<String>,
}

impl Default for Defaults {
    fn default() -> (r: Self)
        ensures
            r.author is None,
            r.license is None,
    {
        Defaults { author: None, license: None }
    }
}

/// A user name and password for the old mod repository.
#[derive(Debug)]
pub struct Credentials {
    pub username: Option<String>,
    pub password: Option<String>,
}

impl Default for Credentials {
    fn default() -> (r: Self)
        ensures
            r.username is None,
            r.password is None,
    {
        Credentials { username: None, password: None }
    }
}

/// The program's settings.
#[derive(Debug)]
pub struct Config {
    pub schema: String,
    /// Whether the program checks for updates when it starts.
    pub auto_update: bool,
    pub defaults: Defaults,
    pub credentials: Credentials,
}

impl Default for Config {
    /// The settings of a fresh installation: update checks are on and
    /// nothing else is set.
    fn default() -> (r: Self)
        ensures
            r.schema@ == schema_of(VERSION@),
            r.auto_update,
            r.defaults.author is None,
            r.defaults.license is None,
            r.credentials.username is None,
            r.credentials.password is None,
    {
        Config {
            schema: schema(),
            auto_update: true,
            defaults: Defaults::default(),
            credentials: Credentials::default(),
        }
    }
}

} // verus!
