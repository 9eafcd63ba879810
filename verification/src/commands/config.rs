//! The command that shows or edits the program's settings.

use vstd::prelude::*;
use crate::paths::Platform;

verus! {

/// Options of the settings command.
#[derive(Debug)]
pub struct Config {
    /// Print the path of the settings file instead of opening an editor.
    pub print_path: bool,
}

/// What the settings command does.
#[derive(Clone, Copy, Debug, PartialEq, Eq, Structural)]
pub enum ConfigPlan {
    /// Print the path of the settings file.
    PrintPath,
    /// Open the settings in the user's editor.
    Edit,
}

/// What the settings command does: it prints the path where it was asked
/// to, and on Windows also where the user has chosen no editor, since the
/// editor that would open there cannot be waited for; otherwise it opens
/// the editor.
pub open spec fn plan_for(print_path: bool, platform: Platform, editor_chosen: bool) -> ConfigPlan {
    if print_path || (platform is Windows && !editor_chosen) {
        ConfigPlan::PrintPath
    } else {
        ConfigPlan::Edit
    }
}

impl Config {
    /// Decides what the command does. `editor_chosen` says whether the user
    /// has named an editor in the environment.
    pub fn plan(&self, platform: Platform, editor_chosen: bool) -> (r: ConfigPlan)
        ensures
            r == plan_for(self.print_path, platform, editor_chosen),
    {
        if self.print_path {
            return ConfigPlan::PrintPath;
        }
        match platform {
            Platform::Windows => if editor_chosen {
                ConfigPlan::Edit
            } else {
                ConfigPlan::PrintPath
            },
            _ => ConfigPlan::Edit,
        }
    }
}

} // verus!
