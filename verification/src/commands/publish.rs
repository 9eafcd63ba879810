//! The command that publishes a mod to the old repository.

use vstd::prelude::*;
use crate::manifest::{Dependency, Links, Manifest};
use crate::text::{followed_by, join, joined, same_text};
use crate::version::version_text;

verus! {

/// Options of the publish command.
#[derive(Debug)]
pub struct Publish {
    /// The file to publish.
    pub file: Option<String>,
    /// The category to publish under.
    pub category: String,
    /// List the categories instead of publishing.
    pub list_categories: bool,
    pub user: Option<String>,
    pub password: Option<String>,
}

/// The categories of the old repository.
pub open spec fn category_names() -> Seq<Seq<char>> {
    seq![
        "Other"@,
        "Core"@,
        "Cosmetic"@,
        "Practice / Training"@,
        "Gameplay"@,
        "Stream Tools"@,
        "Libraries"@,
        "UI Enhancements"@,
        "Lighting"@,
        "Tweaks / Tools"@,
        "Multiplayer"@,
        "Text Changes"@,
    ]
}

/// The views of a run of texts.
pub open spec fn texts(names: Seq<&'static str>) -> Seq<Seq<char>> {
    Seq::new(names.len(), |i: int| names[i]@)
}

/// The categories of the old repository, in the order they are listed.
pub fn categories() -> (r: Vec<&'static str>)
    ensures
        texts(r@) == category_names(),
{
    let mut out: Vec<&'static str> = Vec::new();
    out.push("Other");
    out.push("Core");
    out.push("Cosmetic");
    out.push("Practice / Training");
    out.push("Gameplay");
    out.push("Stream Tools");
    out.push("Libraries");
    out.push("UI Enhancements");
    out.push("Lighting");
    out.push("Tweaks / Tools");
    out.push("Multiplayer");
    out.push("Text Changes");
    out
}

/// Whether `category` is one of the categories.
pub fn is_category(category: &str) -> (r: bool)
    ensures
        r == category_names().contains(category@),
{
    let all = categories();
    let mut i: usize = 0;
    while i < all.len()
        invariant
            i <= all.len(),
            texts(all@) == category_names(),
            forall|j: int| 0 <= j < i ==> #[trigger] category_names()[j] != category@,
        decreases all.len() - i,
    {
        if same_text(all[i], category) {
            assert(category_names()[i as int] == category@);
            return true;
        }
        i = i + 1;
    }
    false
}

/// Where the bytes to publish come from.
#[derive(Debug)]
pub enum Resource {
    /// The file named on the command line.
    File(String),
    /// The file or directory that the manifest names.
    Manifest(String),
}

/// The name that the upload carries: the mod's identifier, a dot, its
/// version and `.zip`.
pub open spec fn resource_name_of(id: Seq<char>, version: Seq<char>) -> Seq<char> {
    id + "."@ + version + ".zip"@
}

/// The name that the upload carries.
pub fn resource_name(id: &str, version: &str) -> (r: String)
    ensures
        r@ == resource_name_of(id@, version@),
{
    let mut out = followed_by(id, ".");
    out.append(version);
    out.append(".zip");
    out
}

/// The address that the upload gives for the mod: its home, or else its
/// source; nothing where the manifest has neither.
pub fn link(links: &Links) -> (r: Option<String>)
    ensures
        r == match links.project_home {
            Some(home) => Some(home),
            None => links.project_source,
        },
{
    match &links.project_home {
        Some(home) => Some(home.clone()),
        None => match &links.project_source {
            Some(source) => Some(source.clone()),
            None => None,
        },
    }
}

/// Whether `c` belongs to the operator that a requirement begins with.
pub open spec fn is_operator(c: char) -> bool {
    c == '^' || c == '~' || c == '=' || c == '>' || c == '<' || c == ' '
}

/// Whether `c` ends the version that a requirement names first: a comma
/// before the next comparator, or a space.
pub open spec fn ends_version(c: char) -> bool {
    c == ',' || c == ' '
}

/// Where the first version of a requirement begins, looking from position
/// `i` on: behind the characters of the operator.
pub open spec fn version_start(requirement: Seq<char>, i: int) -> int
    decreases requirement.len() - i,
{
    if 0 <= i < requirement.len() && is_operator(requirement[i]) {
        version_start(requirement, i + 1)
    } else {
        i
    }
}

/// Where the version that stands at position `i` ends: before the first
/// comma or space, or with the requirement.
pub open spec fn version_end(requirement: Seq<char>, i: int) -> int
    decreases requirement.len() - i,
{
    if 0 <= i < requirement.len() && !ends_version(requirement[i]) {
        version_end(requirement, i + 1)
    } else {
        i
    }
}

/// The lowest version that a requirement written with leading operators
/// names: the version of its first comparator, without the operator.
pub open spec fn lowest_version(requirement: Seq<char>) -> Seq<char> {
    let from = version_start(requirement, 0);
    requirement.subrange(from, version_end(requirement, from))
}

/// The version starts and ends inside the requirement, and nothing between
/// the two ends a version.
pub proof fn lemma_version_span(requirement: Seq<char>, from: int, i: int)
    requires
        0 <= from <= i <= requirement.len(),
        forall|j: int| from <= j < i ==> !ends_version(#[trigger] requirement[j]),
    ensures
        i <= version_end(requirement, i) <= requirement.len(),
        forall|j: int|
            from <= j < version_end(requirement, i) ==> !ends_version(#[trigger] requirement[j]),
    decreases requirement.len() - i,
{
    if i < requirement.len() && !ends_version(requirement[i]) {
        lemma_version_span(requirement, from, i + 1);
    }
}

/// The start of the version lies inside the requirement.
pub proof fn lemma_version_start(requirement: Seq<char>, i: int)
    requires
        0 <= i <= requirement.len(),
    ensures
        i <= version_start(requirement, i) <= requirement.len(),
    decreases requirement.len() - i,
{
    if i < requirement.len() && is_operator(requirement[i]) {
        lemma_version_start(requirement, i + 1);
    }
}

/// The lowest version of a requirement holds no comma and no space, so a
/// list of such versions with commas between them can be taken apart again.
pub proof fn lemma_lowest_version_plain(requirement: Seq<char>)
    ensures
        forall|j: int|
            0 <= j < lowest_version(requirement).len() ==> !ends_version(
                #[trigger] lowest_version(requirement)[j],
            ),
{
    lemma_version_start(requirement, 0);
    let from = version_start(requirement, 0);
    lemma_version_span(requirement, from, from);
}

/// Finds where the first version of a requirement begins.
fn start_of_version(requirement: &str) -> (r: usize)
    ensures
        r == version_start(requirement@, 0),
        r <= requirement@.len(),
{
    let n = requirement.unicode_len();
    let mut from: usize = 0;
    while from < n
        invariant
            n == requirement@.len(),
            from <= n,
            version_start(requirement@, 0) == version_start(requirement@, from as int),
        decreases n - from,
    {
        let c = requirement.get_char(from);
        if !(c == '^' || c == '~' || c == '=' || c == '>' || c == '<' || c == ' ') {
            return from;
        }
        from = from + 1;
    }
    from
}

/// Finds where the version that stands at position `from` ends.
fn end_of_version(requirement: &str, from: usize) -> (r: usize)
    requires
        from <= requirement@.len(),
    ensures
        r == version_end(requirement@, from as int),
        from <= r <= requirement@.len(),
{
    let n = requirement.unicode_len();
    let mut to: usize = from;
    while to < n
        invariant
            n == requirement@.len(),
            from <= to <= n,
            version_end(requirement@, from as int) == version_end(requirement@, to as int),
        decreases n - to,
    {
        let c = requirement.get_char(to);
        if c == ',' || c == ' ' {
            return to;
        }
        to = to + 1;
    }
    to
}

/// Reads the lowest version off a requirement: the version of its first
/// comparator, without the operator before it.
pub fn minimum(requirement: &str) -> (r: String)
    ensures
        r@ == lowest_version(requirement@),
{
    let from = start_of_version(requirement);
    let to = end_of_version(requirement, from);
    requirement.substring_char(from, to).to_owned()
}

/// How a dependency is listed in the upload: the identifier of the other
/// mod, an at sign, and the lowest version that is asked for.
pub fn dependency_entry(id: &str, minimum: &str) -> (r: String)
    ensures
        r@ == id@ + "@"@ + minimum@,
{
    let mut out = followed_by(id, "@");
    out.append(minimum);
    out
}

/// How one dependency is listed: its identifier, an at sign, and the lowest
/// version of its requirement.
pub open spec fn entry_of(dependency: Dependency) -> Seq<char> {
    dependency.id@ + "@"@ + lowest_version(dependency.requirement@)
}

/// The list of dependencies for the upload: one entry for each, in order,
/// with commas between them.
pub open spec fn listing(needed: Seq<Dependency>) -> Seq<char>
    decreases needed.len(),
{
    if needed.len() == 0 {
        Seq::empty()
    } else if needed.len() == 1 {
        entry_of(needed[0])
    } else {
        listing(needed.drop_last()) + ","@ + entry_of(needed.last())
    }
}

/// Lists dependencies for the upload, with commas between them.
pub fn dependencies(needed: &Vec<Dependency>) -> (r: String)
    ensures
        r@ == listing(needed@),
{
    let mut out = String::new();
    let mut i: usize = 0;
    while i < needed.len()
        invariant
            i <= needed.len(),
            out@ == listing(needed@.take(i as int)),
        decreases needed.len() - i,
    {
        if i > 0 {
            out.append(",");
        }
        let dependency = &needed[i];
        let lowest = minimum(dependency.requirement.as_str());
        out.append(dependency_entry(dependency.id.as_str(), lowest.as_str()).as_str());
        assert(needed@.take(i + 1).drop_last() == needed@.take(i as int));
        i = i + 1;
    }
    assert(needed@.take(needed@.len() as int) == needed@);
    out
}

/// Why a mod cannot be uploaded.
#[derive(Clone, Copy, Debug, PartialEq, Eq, Structural)]
pub enum UploadError {
    /// The manifest names neither the project's home nor its source.
    NoLink,
    /// The category is none of the repository's.
    InvalidCategory,
    /// The repository did not answer the sign-in with an access token.
    InvalidCredentials,
    /// The repository did not accept the upload.
    Rejected,
}

/// How an upload error reads.
pub open spec fn upload_error_text(error: UploadError) -> Seq<char> {
    match error {
        UploadError::NoLink => "No link to publish specified"@,
        UploadError::InvalidCategory => "Invalid category"@,
        UploadError::InvalidCredentials => "Invalid credentials"@,
        UploadError::Rejected => "Publishing failed"@,
    }
}

impl UploadError {
    /// The message for this error.
    pub fn to_string(&self) -> (r: String)
        ensures
            r@ == upload_error_text(*self),
    {
        match self {
            UploadError::NoLink => "No link to publish specified".to_owned(),
            UploadError::InvalidCategory => "Invalid category".to_owned(),
            UploadError::InvalidCredentials => "Invalid credentials".to_owned(),
            UploadError::Rejected => "Publishing failed".to_owned(),
        }
    }
}

/// Judges the answer to the sign-in: the access token that came with it,
/// or invalid credentials where none came.
pub fn access_token(header: Option<String>) -> (r: Result<String, UploadError>)
    ensures
        r == match header {
            Some(token) => Ok::<String, UploadError>(token),
            None => Err::<String, UploadError>(UploadError::InvalidCredentials),
        },
{
    match header {
        Some(token) => Ok(token),
        None => Err(UploadError::InvalidCredentials),
    }
}

/// Judges the answer to the upload by its status: accepted with 200,
/// rejected with anything else.
pub fn upload_result(status: u16) -> (r: Result<(), UploadError>)
    ensures
        r == if status == 200 {
            Ok::<(), UploadError>(())
        } else {
            Err::<(), UploadError>(UploadError::Rejected)
        },
{
    if status == 200 {
        Ok(())
    } else {
        Err(UploadError::Rejected)
    }
}

/// What to do next with the script of a manifest.
#[derive(Clone, Copy, Debug, PartialEq, Eq, Structural)]
pub enum ScriptStep {
    /// Run the command at this position.
    Run(usize),
    /// Every command ran and succeeded.
    Done,
    /// A command did not succeed; the rest is not run.
    Failed,
}

/// What follows in a script of `script_len` commands after the command at
/// `last.0` ended, successfully or not as `last.1` says, or at the start
/// where `last` is nothing: the commands run in order, each after the one
/// before it succeeded, and the first that fails ends the script.
pub open spec fn next_command(script_len: int, last: Option<(usize, bool)>) -> ScriptStep {
    match last {
        None => if script_len == 0 {
            ScriptStep::Done
        } else {
            ScriptStep::Run(0)
        },
        Some((_, false)) => ScriptStep::Failed,
        Some((i, true)) => if i + 1 < script_len {
            ScriptStep::Run((i + 1) as usize)
        } else {
            ScriptStep::Done
        },
    }
}

/// Decides how the script of a manifest goes on. A command that it asks to
/// run is one of the script.
pub fn run_commands(script_len: usize, last: Option<(usize, bool)>) -> (r: ScriptStep)
    ensures
        r == next_command(script_len as int, last),
        r matches ScriptStep::Run(k) ==> k < script_len,
{
    match last {
        None => if script_len == 0 {
            ScriptStep::Done
        } else {
            ScriptStep::Run(0)
        },
        Some((_, false)) => ScriptStep::Failed,
        Some((i, true)) => if script_len > 0 && i < script_len - 1 {
            ScriptStep::Run(i + 1)
        } else {
            ScriptStep::Done
        },
    }
}

/// What is sent along with the bytes of an upload.
#[derive(Debug)]
pub struct Upload {
    pub file_name: String,
    pub name: String,
    pub version: String,
    pub game_version: String,
    pub link: String,
    pub description: String,
    pub category: String,
    /// The dependencies, listed; nothing where the manifest names none.
    pub dependencies: Option<String>,
}

/// Whether `upload` is what is sent for `manifest` under `category`: the
/// fields of the manifest as they are, the version written out, the
/// description as one text with its lines on lines of their own, and the
/// file named after the identifier and the version.
pub open spec fn is_upload(manifest: Manifest, category: Seq<char>, upload: Upload) -> bool {
    &&& upload.file_name@ == resource_name_of(manifest.id@, version_text(manifest.version@))
    &&& upload.name@ == manifest.name@
    &&& upload.version@ == version_text(manifest.version@)
    &&& upload.game_version@ == manifest.game_version@
    &&& Some(upload.link) == match manifest.links.project_home {
        Some(home) => Some(home),
        None => manifest.links.project_source,
    }
    &&& upload.description@ == joined(manifest.description@, "\n"@)
    &&& upload.category@ == category
    &&& match manifest.depends_on {
        None => upload.dependencies is None,
        Some(needed) => upload.dependencies matches Some(text) && text@ == listing(needed@),
    }
}

/// Puts together what is sent along with the bytes of an upload. Fails
/// where the manifest has no link to give, and then where the category is
/// none of the repository's.
pub fn upload(manifest: &Manifest, category: &str) -> (r: Result<Upload, UploadError>)
    ensures
        match r {
            Ok(upload) => {
                &&& manifest.links.project_home is Some || manifest.links.project_source is Some
                &&& category_names().contains(category@)
                &&& is_upload(*manifest, category@, upload)
            },
            Err(UploadError::NoLink) => manifest.links.project_home is None
                && manifest.links.project_source is None,
            Err(UploadError::InvalidCategory) => (manifest.links.project_home is Some
                || manifest.links.project_source is Some) && !category_names().contains(category@),
            Err(_) => false,
        },
{
    let link = match link(&manifest.links) {
        Some(link) => link,
        None => {
            return Err(UploadError::NoLink);
        },
    };
    if !is_category(category) {
        return Err(UploadError::InvalidCategory);
    }
    let version = manifest.version.to_string();
    let listed = match &manifest.depends_on {
        Some(needed) => Some(dependencies(needed)),
        None => None,
    };
    Ok(
        Upload {
            file_name: resource_name(manifest.id.as_str(), version.as_str()),
            name: manifest.name.clone(),
            version,
            game_version: manifest.game_version.clone(),
            link,
            description: join(&manifest.description, "\n"),
            category: category.to_owned(),
            dependencies: listed,
        },
    )
}

impl Publish {
    /// Where the bytes to publish come from: the file named on the command
    /// line, or else what the manifest names; nothing where neither is
    /// there.
    pub fn resource(&self, manifest: &Manifest) -> (r: Option<Resource>)
        ensures
            r == match self.file {
                Some(file) => Some(Resource::File(file)),
                None => match manifest.publish.resource {
                    Some(path) => Some(Resource::Manifest(path)),
                    None => None,
                },
            },
    {
        match &self.file {
            Some(file) => Some(Resource::File(file.clone())),
            None => match &manifest.publish.resource {
                Some(path) => Some(Resource::Manifest(path.clone())),
                None => None,
            },
        }
    }
}

} // verus!
