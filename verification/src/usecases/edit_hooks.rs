//! Editing the hooks configuration: which file is opened, with which
//! editor, and what the editor's exit means.

use vstd::prelude::*;
use crate::constants::{CONFIG_FILE_NAME, DEFAULT_EDITOR_UNIX, DEFAULT_EDITOR_WINDOWS};
use crate::pathname::{path_eq, path_join, std_path_eq, std_path_join};
use crate::text::owned;

verus! {

/// Contents written when the configuration file is created from scratch.
pub const CONFIG_TEMPLATE: &'static str = r#"# Git Workers configuration file

[repository]
# Repository URL for identification (optional)
# This ensures hooks only run in the intended repository
# url = "https://github.com/owner/repo.git"

[hooks]
# Run after creating a new worktree
post-create = [
    # "npm install",
    # "cp .env.example .env"
]

# Run before removing a worktree
pre-remove = [
    # "rm -rf node_modules"
]

# Run after switching to a worktree
post-switch = [
    # "echo 'Switched to {{worktree_name}}'"
]

[files]
# Optional: Specify a custom source directory
# If not specified, automatically finds the main worktree
# source = "/path/to/custom/source"
# source = "./templates"  # Relative to repository root

# Files to copy when creating new worktrees
copy = [
    # ".env",
    # ".env.local"
]
"#;

/// Why no configuration path could be chosen.
#[derive(Debug, Clone, Copy, PartialEq, Eq, Structural)]
pub enum ConfigPathError {
    /// The current directory could not be read (bare repository).
    NoCurrentDirectory,
    /// Neither the current directory nor a working directory is known.
    NoWorkingDirectory,
}

/// What is known of the repository and the disk when the configuration
/// file is looked for.
pub struct ConfigSearchFacts {
    /// The repository is bare.
    pub is_bare: bool,
    /// The current directory, when it could be read.
    pub cwd: Option<String>,
    /// The repository's working directory, when it has one.
    pub workdir: Option<String>,
    /// The configuration file exists in the current directory.
    pub cwd_config_exists: bool,
    /// `.git` in the working directory is a directory.
    pub workdir_git_is_dir: bool,
    /// The working directory exists.
    pub workdir_exists: bool,
    /// The configuration file exists in the working directory.
    pub workdir_config_exists: bool,
}

/// The configuration file inside `dir`.
pub open spec fn config_in(dir: Seq<char>) -> Seq<char> {
    std_path_join(dir, CONFIG_FILE_NAME@)
}

/// The file to edit: in a bare repository the one in the current
/// directory; otherwise the current directory's if it exists, else the
/// working directory's when the current directory is the working
/// directory or the working directory (a real checkout with `.git`) has
/// one, else the current directory's; with no current directory, the
/// working directory's.
pub open spec fn config_file_path_spec(f: ConfigSearchFacts) -> Result<Seq<char>, ConfigPathError> {
    if f.is_bare {
        match f.cwd {
            Some(c) => Ok(config_in(c@)),
            None => Err(ConfigPathError::NoCurrentDirectory),
        }
    } else {
        match f.cwd {
            Some(c) => if f.cwd_config_exists {
                Ok(config_in(c@))
            } else {
                match f.workdir {
                    Some(w) => if std_path_eq(c@, w@) {
                        Ok(config_in(w@))
                    } else if f.workdir_git_is_dir && f.workdir_exists && f.workdir_config_exists {
                        Ok(config_in(w@))
                    } else {
                        Ok(config_in(c@))
                    },
                    None => Ok(config_in(c@)),
                }
            },
            None => match f.workdir {
                Some(w) => Ok(config_in(w@)),
                None => Err(ConfigPathError::NoWorkingDirectory),
            },
        }
    }
}

/// The view of a path result.
pub open spec fn path_result_view(r: Result<String, ConfigPathError>) -> Result<Seq<char>, ConfigPathError> {
    match r {
        Ok(p) => Ok(p@),
        Err(e) => Err(e),
    }
}

/// Chooses the configuration file that the hooks editor opens.
pub fn find_config_file_path_internal(f: &ConfigSearchFacts) -> (r: Result<String, ConfigPathError>)
    ensures
        path_result_view(r) == config_file_path_spec(*f),
{
    if f.is_bare {
        match &f.cwd {
            Some(c) => Ok(path_join(c.as_str(), CONFIG_FILE_NAME)),
            None => Err(ConfigPathError::NoCurrentDirectory),
        }
    } else {
        match &f.cwd {
            Some(c) => {
                if f.cwd_config_exists {
                    return Ok(path_join(c.as_str(), CONFIG_FILE_NAME));
                }
                match &f.workdir {
                    Some(w) => {
                        if path_eq(c.as_str(), w.as_str()) {
                            Ok(path_join(w.as_str(), CONFIG_FILE_NAME))
                        } else if f.workdir_git_is_dir && f.workdir_exists && f.workdir_config_exists {
                            Ok(path_join(w.as_str(), CONFIG_FILE_NAME))
                        } else {
                            Ok(path_join(c.as_str(), CONFIG_FILE_NAME))
                        }
                    },
                    None => Ok(path_join(c.as_str(), CONFIG_FILE_NAME)),
                }
            },
            None => match &f.workdir {
                Some(w) => Ok(path_join(w.as_str(), CONFIG_FILE_NAME)),
                None => Err(ConfigPathError::NoWorkingDirectory),
            },
        }
    }
}

/// The editor to run: `$EDITOR`, else `$VISUAL`, else the platform's
/// default (`notepad` on Windows, `vi` elsewhere).  `editor` and `visual`
/// are the variables' values where set and valid Unicode.
pub fn preferred_editor(editor: Option<String>, visual: Option<String>, windows: bool) -> (r: String)
    ensures
        r@ == (match editor {
            Some(e) => e@,
            None => match visual {
                Some(v) => v@,
                None => if windows { DEFAULT_EDITOR_WINDOWS@ } else { DEFAULT_EDITOR_UNIX@ },
            },
        }),
{
    match editor {
        Some(e) => e,
        None => match visual {
            Some(v) => v,
            None => if windows { owned(DEFAULT_EDITOR_WINDOWS) } else { owned(DEFAULT_EDITOR_UNIX) },
        },
    }
}

/// How an editor session ended, as reported to the user.
#[derive(Debug, Clone, Copy, PartialEq, Eq, Structural)]
pub enum EditorOutcome {
    /// The editor ran and exited successfully.
    Edited,
    /// The editor ran and exited with a failure status.
    NonZeroExit,
    /// The editor could not be started.
    LaunchFailed,
}

/// The outcome for an editor run: `None` when it could not be started,
/// else whether its exit status was success.
pub fn edit_outcome(exit_success: Option<bool>) -> (r: EditorOutcome)
    ensures
        r == (match exit_success {
            Some(true) => EditorOutcome::Edited,
            Some(false) => EditorOutcome::NonZeroExit,
            None => EditorOutcome::LaunchFailed,
        }),
{
    match exit_success {
        Some(true) => EditorOutcome::Edited,
        Some(false) => EditorOutcome::NonZeroExit,
        None => EditorOutcome::LaunchFailed,
    }
}

} // verus!
