//! Helpers that the commands share: which shell runs a script line, and how
//! a manifest is brought to validity by asking.

use vstd::prelude::*;
use crate::grammar::{
    is_description_line, is_id, is_name, matches_description_line, matches_id, matches_name,
};
use crate::manifest::{Manifest, ValidityError, validity};
use crate::paths::Platform;

verus! {

/// The shell that runs a script line on a platform and the flag that makes
/// it run its next argument.
pub open spec fn shell_of(platform: Platform) -> (Seq<char>, Seq<char>) {
    match platform {
        Platform::Windows => ("cmd"@, "/C"@),
        _ => ("sh"@, "-c"@),
    }
}

/// The program and arguments that run `command` in the platform's shell.
pub fn shell_exec(platform: Platform, command: &str) -> (r: (String, Vec<String>))
    ensures
        r.0@ == shell_of(platform).0,
        r.1@.len() == 2,
        r.1@[0]@ == shell_of(platform).1,
        r.1@[1]@ == command@,
{
    let (shell, flag) = match platform {
        Platform::Windows => ("cmd", "/C"),
        _ => ("sh", "-c"),
    };
    let mut arguments: Vec<String> = Vec::new();
    arguments.push(flag.to_owned());
    arguments.push(command.to_owned());
    (shell.to_owned(), arguments)
}

/// A field of the manifest that the user can be asked for.
#[derive(Clone, Copy, Debug, PartialEq, Eq, Structural)]
pub enum Check {
    Id,
    Name,
    Description,
}

/// Whether `answer` may be put into the field.
pub open spec fn is_accepted(check: Check, answer: Seq<char>) -> bool {
    match check {
        Check::Id => is_id(answer),
        Check::Name => is_name(answer),
        Check::Description => is_description_line(answer),
    }
}

impl Check {
    /// Whether `answer` may be put into this field. An answer that may not
    /// is asked for again.
    pub fn accepts(&self, answer: &str) -> (r: bool)
        ensures
            r == is_accepted(*self, answer@),
    {
        match self {
            Check::Id => matches_id(answer),
            Check::Name => matches_name(answer),
            Check::Description => matches_description_line(answer),
        }
    }
}

/// What to do next with a manifest that is being brought to validity.
#[derive(Clone, Copy, Debug, PartialEq, Eq, Structural)]
pub enum Edit {
    /// The manifest is valid.
    Done,
    /// Ask the user for this field.
    Ask(Check),
    /// The manifest breaks a rule that asking cannot mend.
    GiveUp(ValidityError),
}

/// What to do next for a validation result.
pub open spec fn edit_for(result: Result<(), ValidityError>) -> Edit {
    match result {
        Ok(()) => Edit::Done,
        Err(ValidityError::InvalidId) => Edit::Ask(Check::Id),
        Err(ValidityError::InvalidName) => Edit::Ask(Check::Name),
        Err(ValidityError::InvalidDescription) => Edit::Ask(Check::Description),
        Err(e) => Edit::GiveUp(e),
    }
}

/// Whether `after` is `before` with the field of `check` set to `answer`; a
/// new description is the one line given.
pub open spec fn is_edited(
    before: Manifest,
    check: Check,
    answer: String,
    after: Manifest,
) -> bool {
    match check {
        Check::Id => after == (Manifest { id: answer, ..before }),
        Check::Name => after == (Manifest { name: answer, ..before }),
        Check::Description => after.description@ == seq![answer] && after == (Manifest {
            description: after.description,
            ..before
        }),
    }
}

/// Whether `after` is `before` once `answer` was taken in: an accepted
/// answer is put into its field, and anything else changes nothing.
pub open spec fn is_answered(
    before: Manifest,
    answer: Option<(Check, String)>,
    after: Manifest,
) -> bool {
    match answer {
        Some((check, text)) => if is_accepted(check, text@) {
            is_edited(before, check, text, after)
        } else {
            after == before
        },
        None => after == before,
    }
}

/// Judges one answer to a question about a field: the answer itself where
/// the field accepts it, nothing where the question has to be asked again.
pub fn ask_until_valid(check: Check, answer: String) -> (r: Option<String>)
    ensures
        match r {
            Some(text) => text == answer && is_accepted(check, answer@),
            None => !is_accepted(check, answer@),
        },
{
    if check.accepts(answer.as_str()) {
        Some(answer)
    } else {
        None
    }
}

/// One round of bringing a manifest to validity by asking: takes in the
/// answer to the last question, if there was one and the field accepts it,
/// and decides how to go on: finish where the manifest is valid, ask for the
/// field whose rule it breaks first, or give up where the broken rule is
/// none of a field that can be asked for.
pub fn edit_until_valid(
    manifest: &mut Manifest,
    answer: Option<(Check, String)>,
    license_file_found: bool,
) -> (r: Edit)
    ensures
        is_answered(*old(manifest), answer, *final(manifest)),
        old(manifest).is_well_formed() ==> final(manifest).is_well_formed(),
        r == edit_for(validity(*final(manifest), license_file_found)),
{
    match answer {
        Some((check, text)) => {
            match ask_until_valid(check, text) {
                Some(text) => {
                    match check {
                        Check::Id => {
                            manifest.id = text;
                        },
                        Check::Name => {
                            manifest.name = text;
                        },
                        Check::Description => {
                            let mut lines: Vec<String> = Vec::new();
                            lines.push(text);
                            manifest.description = lines;
                        },
                    }
                },
                None => {},
            }
        },
        None => {},
    }
    match manifest.validate(license_file_found) {
        Ok(()) => Edit::Done,
        Err(ValidityError::InvalidId) => Edit::Ask(Check::Id),
        Err(ValidityError::InvalidName) => Edit::Ask(Check::Name),
        Err(ValidityError::InvalidDescription) => Edit::Ask(Check::Description),
        Err(e) => Edit::GiveUp(e),
    }
}

/// Asking makes progress: once a field holds an accepted answer, the
/// manifest is never asked for that field again, whatever else it holds.
pub proof fn lemma_edit_progress(
    before: Manifest,
    check: Check,
    answer: String,
    after: Manifest,
    license_file_found: bool,
)
    requires
        is_accepted(check, answer@),
        is_edited(before, check, answer, after),
    ensures
        edit_for(validity(after, license_file_found)) != Edit::Ask(check),
{
}

} // verus!
