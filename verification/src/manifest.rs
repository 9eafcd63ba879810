//! The mod manifest, its validity rules and the migration from the old
//! manifest format.

use vstd::prelude::*;
use vstd::std_specs::cmp::PartialEqSpec;
use crate::grammar::{
    is_description, is_id, is_name, matches_description, matches_id, matches_name,
};
use crate::text::{is_prefix, remove_all, starts_with, without};
use crate::version::Version;

verus! {

/// Where the schema of the manifest is published.
pub const SCHEMA: &'static str =
    "https://raw.githubusercontent.com/raftario/BSIPA-MetadataFileSchema/master/Schema.json";

/// How a license text begins that names a file instead of a license.
pub const LICENSE_FILE_MARK: &'static str = "SEE LICENSE IN ";

/// Whether a value is the default of its type.
pub fn is_default<T: Default + PartialEq>(arg: &T) -> (r: bool)
    ensures
        T::obeys_eq_spec() ==> exists|d: T|
            call_ensures(T::default, (), d) && r == arg.eq_spec(&d),
{
    let d = T::default();
    *arg == d
}

/// The schema address that a manifest carries unless it names another.
pub fn schema() -> (r: String)
    ensures
        r@ == SCHEMA@,
{
    SCHEMA.to_owned()
}

/// Addresses that belong to a mod.
#[derive(Debug)]
pub struct Links {
    pub project_home: Option<String>,
    pub project_source: Option<String>,
    pub donate: Option<String>,
}

impl Default for Links {
    fn default() -> (r: Self)
        ensures
            r.project_home is None,
            r.project_source is None,
            r.donate is None,
    {
        Links { project_home: None, project_source: None, donate: None }
    }
}

/// How a mod is built and what is uploaded.
#[derive(Debug)]
pub struct Publish {
    /// The commands to run before publishing.
    pub script: Vec<String>,
    /// The file or directory to upload.
    pub resource: Option<String>,
}

impl Default for Publish {
    fn default() -> (r: Self)
        ensures
            r.script@.len() == 0,
            r.resource is None,
    {
        Publish { script: Vec::new(), resource: None }
    }
}

/// Another mod and the versions of it that are meant.
#[derive(Debug)]
pub struct Dependency {
    pub id: String,
    pub requirement: String,
}

/// Whether no text occurs twice.
pub open spec fn distinct_texts(texts: Option<Vec<String>>) -> bool {
    texts matches Some(list) ==> forall|i: int, j: int|
        0 <= i < j < list@.len() ==> (#[trigger] list@[i])@ != (#[trigger] list@[j])@
}

/// Whether no mod is named twice.
pub open spec fn distinct_mods(mods: Option<Vec<Dependency>>) -> bool {
    mods matches Some(list) ==> forall|i: int, j: int|
        0 <= i < j < list@.len() ==> (#[trigger] list@[i]).id@ != (#[trigger] list@[j]).id@
}

/// A mod manifest.
#[derive(Debug)]
pub struct Manifest {
    pub schema: String,
    pub id: String,
    pub name: String,
    pub version: Version,
    pub game_version: String,
    pub description: Vec<String>,
    pub author: String,
    pub license: String,
    pub depends_on: Option<Vec<Dependency>>,
    pub conflicts_with: Option<Vec<Dependency>>,
    pub load_after: Option<Vec<String>>,
    pub load_before: Option<Vec<String>>,
    pub features: Option<Vec<String>>,
    pub icon: Option<String>,
    pub links: Links,
    pub publish: Publish,
    pub readme: Option<String>,
}

/// Why a manifest is not valid.
#[derive(Clone, Copy, Debug, PartialEq, Eq, Structural)]
pub enum ValidityError {
    InvalidId,
    InvalidName,
    InvalidDescription,
    InvalidLinks,
    InvalidLicense,
}

/// How a validity error reads.
pub open spec fn validity_text(error: ValidityError) -> Seq<char> {
    match error {
        ValidityError::InvalidId =>
            "Invalid manifest ID, it should follow the C# namespace naming convention"@,
        ValidityError::InvalidName =>
            "Invalid manifest name, it should not contain tabs or newlines"@,
        ValidityError::InvalidDescription =>
            "Invalid manifest description, it should not contain newlines"@,
        ValidityError::InvalidLinks =>
            "Invalid manifest links, at least `project-home` or `project-source` should be specified"@,
        ValidityError::InvalidLicense =>
            "Invalid manifest license, the license file should exist"@,
    }
}

impl ValidityError {
    /// The message for this error.
    pub fn to_string(&self) -> (r: String)
        ensures
            r@ == validity_text(*self),
    {
        match self {
            ValidityError::InvalidId =>
                "Invalid manifest ID, it should follow the C# namespace naming convention".to_owned(),
            ValidityError::InvalidName =>
                "Invalid manifest name, it should not contain tabs or newlines".to_owned(),
            ValidityError::InvalidDescription =>
                "Invalid manifest description, it should not contain newlines".to_owned(),
            ValidityError::InvalidLinks =>
                "Invalid manifest links, at least `project-home` or `project-source` should be specified".to_owned(),
            ValidityError::InvalidLicense =>
                "Invalid manifest license, the license file should exist".to_owned(),
        }
    }
}

/// The first rule that a manifest breaks, in the order identifier, name,
/// description, links, license; or nothing where it breaks none.
///
/// The links must name the project's home or its source. A license that
/// begins with the license file mark names a file, and that file must have
/// been found.
pub open spec fn validity(manifest: Manifest, license_file_found: bool) -> Result<
    (),
    ValidityError,
> {
    if !is_id(manifest.id@) {
        Err(ValidityError::InvalidId)
    } else if !is_name(manifest.name@) {
        Err(ValidityError::InvalidName)
    } else if !is_description(manifest.description@) {
        Err(ValidityError::InvalidDescription)
    } else if manifest.links.project_home is None && manifest.links.project_source is None {
        Err(ValidityError::InvalidLinks)
    } else if is_prefix(manifest.license@, LICENSE_FILE_MARK@) && !license_file_found {
        Err(ValidityError::InvalidLicense)
    } else {
        Ok(())
    }
}

impl Manifest {
    /// Whether the manifest names no mod twice among those it depends on or
    /// conflicts with, and nothing twice among what it loads after or
    /// before and among its features.
    pub open spec fn is_well_formed(&self) -> bool {
        &&& distinct_mods(self.depends_on)
        &&& distinct_mods(self.conflicts_with)
        &&& distinct_texts(self.load_after)
        &&& distinct_texts(self.load_before)
        &&& distinct_texts(self.features)
    }

    /// The file that the license text names: the text without the license
    /// file mark, where it begins with the mark; nothing otherwise.
    pub fn license_file(&self) -> (r: Option<String>)
        ensures
            match r {
                Some(path) => is_prefix(self.license@, LICENSE_FILE_MARK@) && path@ == without(
                    self.license@,
                    LICENSE_FILE_MARK@,
                ),
                None => !is_prefix(self.license@, LICENSE_FILE_MARK@),
            },
    {
        if starts_with(self.license.as_str(), LICENSE_FILE_MARK) {
            Some(remove_all(self.license.as_str(), LICENSE_FILE_MARK))
        } else {
            None
        }
    }

    /// Validates the manifest against the rules of its schema.
    /// `license_file_found` says whether the file named by the license text
    /// exists; it is read only where the license names a file.
    pub fn validate(&self, license_file_found: bool) -> (r: Result<(), ValidityError>)
        ensures
            r == validity(*self, license_file_found),
    {
        if !matches_id(self.id.as_str()) {
            return Err(ValidityError::InvalidId);
        }
        if !matches_name(self.name.as_str()) {
            return Err(ValidityError::InvalidName);
        }
        if !matches_description(&self.description) {
            return Err(ValidityError::InvalidDescription);
        }
        if self.links.project_home.is_none() && self.links.project_source.is_none() {
            return Err(ValidityError::InvalidLinks);
        }
        if starts_with(self.license.as_str(), LICENSE_FILE_MARK) && !license_file_found {
            return Err(ValidityError::InvalidLicense);
        }
        Ok(())
    }

    /// Migrates an old manifest: every field is taken over as it is, the
    /// license is the one given, and what the old format lacks starts out
    /// empty.
    pub fn from(m: (OldManifest, String)) -> (r: Manifest)
        ensures
            r.schema@ == SCHEMA@,
            r.id == m.0.id,
            r.name == m.0.name,
            r.version == m.0.version,
            r.game_version == m.0.game_version,
            r.description == m.0.description,
            r.author == m.0.author,
            r.license == m.1,
            r.depends_on == m.0.depends_on,
            r.conflicts_with == m.0.conflicts_with,
            r.load_after == m.0.load_after,
            r.load_before == m.0.load_before,
            r.features == m.0.features,
            r.icon == m.0.icon,
            r.links == m.0.links,
            r.publish.script@.len() == 0,
            r.publish.resource is None,
            r.readme is None,
            m.0.is_well_formed() ==> r.is_well_formed(),
    {
        let (m, license) = m;
        Manifest {
            schema: schema(),
            id: m.id,
            name: m.name,
            version: m.version,
            game_version: m.game_version,
            description: m.description,
            author: m.author,
            license,
            depends_on: m.depends_on,
            conflicts_with: m.conflicts_with,
            load_after: m.load_after,
            load_before: m.load_before,
            features: m.features,
            icon: m.icon,
            links: m.links,
            publish: Publish::default(),
            readme: None,
        }
    }
}

/// A manifest in the old format.
#[derive(Debug)]
pub struct OldManifest {
    pub id: String,
    pub name: String,
    pub version: Version,
    pub game_version: String,
    pub description: Vec<String>,
    pub author: String,
    pub depends_on: Option<Vec<Dependency>>,
    pub conflicts_with: Option<Vec<Dependency>>,
    pub load_after: Option<Vec<String>>,
    pub load_before: Option<Vec<String>>,
    pub features: Option<Vec<String>>,
    pub icon: Option<String>,
    pub links: Links,
}

impl OldManifest {
    /// Whether the manifest names no mod twice among those it depends on or
    /// conflicts with, and nothing twice among what it loads after or
    /// before and among its features.
    pub open spec fn is_well_formed(&self) -> bool {
        &&& distinct_mods(self.depends_on)
        &&& distinct_mods(self.conflicts_with)
        &&& distinct_texts(self.load_after)
        &&& distinct_texts(self.load_before)
        &&& distinct_texts(self.features)
    }
}

} // verus!
