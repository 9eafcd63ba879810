//! The command that migrates a manifest from the old format.

use vstd::prelude::*;
use crate::manifest::{Manifest, OldManifest, SCHEMA};
use crate::text::followed_by;

verus! {

/// Options of the migrate command.
#[derive(Debug)]
pub struct Migrate {
    /// The file to migrate.
    pub file: String,
    /// The license to use.
    pub license: Option<String>,
}

impl Migrate {
    /// Where the old manifest is kept: the path of the file with `.old`
    /// appended.
    pub fn backup_path(&self) -> (r: String)
        ensures
            r@ == self.file@ + ".old"@,
    {
        followed_by(self.file.as_str(), ".old")
    }

    /// Migrates the old manifest. The license is the one given as an
    /// option, or else the one the user answered with.
    pub fn migrate(self, old: OldManifest, answer: String) -> (r: Manifest)
        ensures
            r.schema@ == SCHEMA@,
            r.license == match self.license {
                Some(license) => license,
                None => answer,
            },
            r.id == old.id,
            r.name == old.name,
            r.version == old.version,
            r.game_version == old.game_version,
            r.description == old.description,
            r.author == old.author,
            r.depends_on == old.depends_on,
            r.conflicts_with == old.conflicts_with,
            r.load_after == old.load_after,
            r.load_before == old.load_before,
            r.features == old.features,
            r.icon == old.icon,
            r.links == old.links,
            r.publish.script@.len() == 0,
            r.publish.resource is None,
            r.readme is None,
            old.is_well_formed() ==> r.is_well_formed(),
    {
        let license = match self.license {
            Some(license) => license,
            None => answer,
        };
        Manifest::from((old, license))
    }
}

} // verus!
