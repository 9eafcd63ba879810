//! The command that starts a new manifest.

use vstd::prelude::*;
use crate::config::Defaults;
use crate::manifest::{Links, Manifest, Publish, SCHEMA};
use crate::version::{Version, VersionModel};

verus! {

/// Options of the init command.
#[derive(Debug)]
pub struct Init {
    /// The file to write.
    pub file: String,
    pub id: Option<String>,
    pub name: Option<String>,
    pub game_version: Option<String>,
    pub description: Option<String>,
    pub author: Option<String>,
    pub license: Option<String>,
}

/// What the user answered when asked for each field.
#[derive(Debug)]
pub struct Answers {
    pub id: String,
    pub name: String,
    pub game_version: String,
    pub description: String,
    pub author: String,
    pub license: String,
}

/// The first of the values that is there, and `last` where none is.
pub open spec fn first_of(option: Option<String>, default: Option<String>, last: String) -> String {
    match option {
        Some(value) => value,
        None => match default {
            Some(value) => value,
            None => last,
        },
    }
}

/// The version that a new manifest starts at.
pub open spec fn first_version() -> VersionModel {
    VersionModel { major: 0, minor: 1, patch: 0, pre: Seq::empty(), build: Seq::empty() }
}

/// Picks the first of the values that is there.
fn pick(option: Option<String>, default: Option<String>, last: String) -> (r: String)
    ensures
        r == first_of(option, default, last),
{
    match option {
        Some(value) => value,
        None => match default {
            Some(value) => value,
            None => last,
        },
    }
}

impl Init {
    /// Builds the new manifest. An option given on the command line wins
    /// over the answer to the question for it; for the author and the
    /// license, the settings' default stands between the two. The game
    /// version is always the answer. The manifest starts at version 0.1.0
    /// with the one line of description, and everything else empty.
    pub fn manifest(self, defaults: Defaults, answers: Answers) -> (r: Manifest)
        ensures
            r.schema@ == SCHEMA@,
            r.id == first_of(self.id, None, answers.id),
            r.name == first_of(self.name, None, answers.name),
            r.version@ == first_version(),
            r.game_version == answers.game_version,
            r.description@ == seq![first_of(self.description, None, answers.description)],
            r.author == first_of(self.author, defaults.author, answers.author),
            r.license == first_of(self.license, defaults.license, answers.license),
            r.depends_on is None,
            r.conflicts_with is None,
            r.load_after is None,
            r.load_before is None,
            r.features is None,
            r.icon is None,
            r.links.project_home is None,
            r.links.project_source is None,
            r.links.donate is None,
            r.publish.script@.len() == 0,
            r.publish.resource is None,
            r.readme is None,
            r.is_well_formed(),
    {
        let mut description: Vec<String> = Vec::new();
        description.push(pick(self.description, None, answers.description));
        let version = Version {
            major: 0,
            minor: 1,
            patch: 0,
            pre: Vec::new(),
            build: Vec::new(),
        };
        assert(version@.build =~= Seq::empty());
        Manifest {
            schema: SCHEMA.to_owned(),
            id: pick(self.id, None, answers.id),
            name: pick(self.name, None, answers.name),
            version,
            game_version: answers.game_version,
            description,
            author: pick(self.author, defaults.author, answers.author),
            license: pick(self.license, defaults.license, answers.license),
            depends_on: None,
            conflicts_with: None,
            load_after: None,
            load_before: None,
            features: None,
            icon: None,
            links: Links::default(),
            publish: Publish::default(),
            readme: None,
        }
    }
}

} // verus!
