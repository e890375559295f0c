//! Fixed names, limits and labels shared across the crate.

use vstd::prelude::*;

verus! {

/// Environment variable naming the user's editor.
pub const ENV_EDITOR: &'static str = "EDITOR";

/// Environment variable naming the user's visual editor.
pub const ENV_VISUAL: &'static str = "VISUAL";

/// Editor used on Windows when neither variable is set.
pub const DEFAULT_EDITOR_WINDOWS: &'static str = "notepad";

/// Editor used elsewhere when neither variable is set.
pub const DEFAULT_EDITOR_UNIX: &'static str = "vi";

/// Marks the current worktree's row in the worktree table.
pub const ICON_CURRENT_WORKTREE: &'static str = "\u{2192}";

/// Marks the other worktrees' rows in the worktree table.
pub const ICON_OTHER_WORKTREE: &'static str = "\u{25b8}";

/// Modified column of a worktree with uncommitted changes.
pub const MODIFIED_STATUS_YES: &'static str = "Yes";

/// Modified column of a clean worktree.
pub const MODIFIED_STATUS_NO: &'static str = "No";

/// Column headers of the worktree table.
pub const TABLE_HEADER_NAME: &'static str = "Name";

/// Column headers of the worktree table.
pub const TABLE_HEADER_BRANCH: &'static str = "Branch";

/// Column headers of the worktree table.
pub const TABLE_HEADER_MODIFIED: &'static str = "Modified";

/// Column headers of the worktree table.
pub const TABLE_HEADER_PATH: &'static str = "Path";

/// Fill character of the table's rule under the headers.
pub const TABLE_SEPARATOR: &'static str = "-";

/// Follows the current worktree's branch in the table.
pub const CURRENT_MARKER: &'static str = "[current]";

/// Printed before the error when the switch file cannot be written.
pub const MSG_SWITCH_FILE_WARNING_PREFIX: &'static str = "Warning: Failed to write switch file: ";

/// Marks the path the shell wrapper changes to on standard output.
pub const SWITCH_TO_PREFIX: &'static str = "SWITCH_TO:";

/// Environment variable naming the file the switch path is written to.
pub const ENV_GW_SWITCH_FILE: &'static str = "GW_SWITCH_FILE";

/// `git worktree` subcommand that repairs worktree links.
pub const GIT_REPAIR: &'static str = "repair";

/// `git branch` option that renames a branch.
pub const GIT_OPT_RENAME: &'static str = "-m";

/// Prompt of the main menu.
pub const PROMPT_ACTION: &'static str = "What would you like to do?";

/// Prompt of the tag list.
pub const PROMPT_SELECT_TAG: &'static str = "Select a tag";

/// Prompt for the cleanup age.
pub const PROMPT_DAYS_TO_KEEP: &'static str = "Days to keep";

/// Asked after a worktree is created.
pub const PROMPT_SWITCH_WORKTREE: &'static str = "Switch to the new worktree?";

/// Prompt for a custom worktree location.
pub const PROMPT_CUSTOM_PATH: &'static str = "Directory path";

/// Prompt for a worktree's new name.
pub const PROMPT_NEW_WORKTREE_NAME: &'static str = "New worktree name";

/// Prompt when the chosen branch conflicts.
pub const PROMPT_CONFLICT_ACTION: &'static str = "What would you like to do?";

/// Prompt of the switch list.
pub const PROMPT_SELECT_WORKTREE_SWITCH: &'static str = "Select a worktree to switch to";

/// Prompt for the first worktree's location.
pub const PROMPT_SELECT_WORKTREE_LOCATION: &'static str = "Select worktree location pattern";

/// Prompt for where the new worktree's branch comes from.
pub const PROMPT_SELECT_BRANCH_OPTION: &'static str = "Select branch option";

/// Shown when a repository has no linked worktrees.
pub const WARNING_NO_WORKTREES: &'static str = "\u{2022} No worktrees found.";

/// Shown when the program ends from the menu.
pub const INFO_EXITING: &'static str = "Exiting Git Workers...";

/// Shown before the first worktree's location is chosen.
pub const MSG_FIRST_WORKTREE_CHOOSE: &'static str = "First worktree - choose location:";

/// Shown before a custom location is asked for.
pub const MSG_SPECIFY_DIRECTORY_PATH: &'static str = "Specify directory path (relative to project root):";

/// Name of the per-repository configuration file.
pub const CONFIG_FILE_NAME: &'static str = ".git-workers.toml";

/// Directory that holds linked worktrees in the subdirectory layout.
pub const WORKTREES_SUBDIR: &'static str = "worktrees";

/// Alternative directory for branch-organised worktrees.
pub const BRANCH_SUBDIR: &'static str = "branch";

/// Conventional default branch names.
pub const DEFAULT_BRANCH_MAIN: &'static str = "main";

/// Conventional default branch names.
pub const DEFAULT_BRANCH_MASTER: &'static str = "master";

/// Branch label of a worktree whose HEAD is detached.
pub const DEFAULT_BRANCH_DETACHED: &'static str = "detached";

/// Branch label when the branch cannot be determined.
pub const DEFAULT_BRANCH_UNKNOWN: &'static str = "unknown";

/// Prefix of remote-tracking branch names.
pub const GIT_REMOTE_PREFIX: &'static str = "origin/";

/// Longest worktree name or path component accepted, in bytes.
pub const MAX_WORKTREE_NAME_LENGTH: usize = 255;

/// Placeholder for the worktree name in hook commands.
pub const TEMPLATE_WORKTREE_NAME: &'static str = "{{worktree_name}}";

/// Placeholder for the worktree path in hook commands.
pub const TEMPLATE_WORKTREE_PATH: &'static str = "{{worktree_path}}";

/// Hook run after a worktree is created.
pub const HOOK_POST_CREATE: &'static str = "post-create";

/// Hook run before a worktree is removed.
pub const HOOK_PRE_REMOVE: &'static str = "pre-remove";

/// Hook run after switching to a worktree.
pub const HOOK_POST_SWITCH: &'static str = "post-switch";

/// Location keyword: next to the repository.
pub const STRING_SAME_LEVEL: &'static str = "same-level";

/// Location keyword: inside the repository's `worktrees` directory.
pub const STRING_SUBDIRECTORY: &'static str = "subdirectory";

/// Location keyword: a path given by the user.
pub const STRING_CUSTOM: &'static str = "custom";

/// Menu index of the "same level" location choice.
pub const WORKTREE_LOCATION_SAME_LEVEL: usize = 0;

/// Menu index of the "subdirectory" location choice.
pub const WORKTREE_LOCATION_SUBDIRECTORY: usize = 1;

/// Menu index of the "custom path" location choice.
pub const WORKTREE_LOCATION_CUSTOM_PATH: usize = 2;

/// Marker appended to the current worktree in search items.
pub const SEARCH_CURRENT_INDICATOR: &'static str = " (current)";

/// Value shown when a name cannot be determined.
pub const UNKNOWN_VALUE: &'static str = "unknown";

/// Suffix shown after the repository name in the main worktree.
pub const MAIN_SUFFIX: &'static str = " (main)";

/// Suffix of bare repository directories.
pub const BARE_SUFFIX: &'static str = ".bare";

/// Number of branch or tag entries above which fuzzy search is offered.
pub const FUZZY_SEARCH_THRESHOLD: usize = 5;

/// Longest tag message line shown before truncation, in bytes.
pub const TAG_MESSAGE_TRUNCATE_LENGTH: usize = 50;

/// Number of characters of a commit id that are shown.
pub const COMMIT_ID_SHORT_LENGTH: usize = 8;

/// Format of commit times (chrono syntax).
pub const TIME_FORMAT: &'static str = "%Y-%m-%d %H:%M";

/// Width of the separator under section headers.
pub const SEPARATOR_WIDTH: usize = 40;

/// Width of the separator under the main header.
pub const HEADER_SEPARATOR_WIDTH: usize = 50;

/// Largest file copied into a new worktree, in bytes.
pub const MAX_FILE_SIZE: u64 = 104857600;

/// Deepest directory level visited when sizing or copying.
pub const MAX_DIRECTORY_DEPTH: usize = 50;

/// Menu labels.
pub const MENU_LIST_WORKTREES: &'static str = "•  List worktrees";

/// Menu labels.
pub const MENU_SEARCH_WORKTREES: &'static str = "?  Search worktrees";

/// Menu labels.
pub const MENU_CREATE_WORKTREE: &'static str = "+  Create worktree";

/// Menu labels.
pub const MENU_DELETE_WORKTREE: &'static str = "-  Delete worktree";

/// Menu labels.
pub const MENU_BATCH_DELETE: &'static str = "=  Batch delete worktrees";

/// Menu labels.
pub const MENU_CLEANUP_OLD: &'static str = "~  Cleanup old worktrees";

/// Menu labels.
pub const MENU_SWITCH_WORKTREE: &'static str = "→  Switch worktree";

/// Menu labels.
pub const MENU_RENAME_WORKTREE: &'static str = "*  Rename worktree";

/// Menu labels.
pub const MENU_EDIT_HOOKS: &'static str = "λ  Edit hooks";

/// Menu labels.
pub const MENU_EXIT: &'static str = "x  Exit";

/// Worktree icons used by the presenter.
pub const EMOJI_HOME: &'static str = "🏠";

/// Worktree icons used by the presenter.
pub const EMOJI_LOCKED: &'static str = "🔒";

/// Worktree icons used by the presenter.
pub const EMOJI_DETACHED: &'static str = "🔗";

/// Worktree icons used by the presenter.
pub const EMOJI_FOLDER: &'static str = "📁";

/// Git command name.
pub const GIT_CMD: &'static str = "git";

/// Git subcommand names.
pub const GIT_WORKTREE: &'static str = "worktree";

/// Git subcommand names.
pub const GIT_BRANCH: &'static str = "branch";

/// Git subcommand names.
pub const GIT_TAG: &'static str = "tag";

/// Git subcommand names.
pub const GIT_ADD: &'static str = "add";

/// Git option creating a branch.
pub const GIT_OPT_BRANCH: &'static str = "-b";

/// Git reference prefix of tags.
pub const GIT_REFS_TAGS: &'static str = "refs/tags/";

/// Prefix written before the git directory in a worktree's `.git` file.
pub const GIT_GITDIR_PREFIX: &'static str = "gitdir: ";

/// Suffix written after the worktree path in a `gitdir` file.
pub const GIT_GITDIR_SUFFIX: &'static str = "/.git\n";

/// Name of a repository's git directory.
pub const GIT_DIR: &'static str = ".git";

/// Path separators and special components.
pub const PATH_PARENT: &'static str = "..";

/// Path separators and special components.
pub const PATH_CURRENT: &'static str = ".";

/// Default number of days offered for cleanup.
pub const DEFAULT_WORKTREE_CLEANUP_DAYS: &'static str = "30";

/// Shown for a commit without a summary line.
pub const DEFAULT_MESSAGE_NONE: &'static str = "No message";

/// Shown for a commit whose author has no name.
pub const DEFAULT_AUTHOR_UNKNOWN: &'static str = "Unknown";

/// Name given to the main worktree when its directory has no name.
pub const GIT_DEFAULT_MAIN_WORKTREE: &'static str = "main";

/// The location choice for a custom path.
pub const OPTION_CUSTOM_PATH_FULL: &'static str = "Custom path (specify relative to project root)";

/// The branch-source choices offered when creating a worktree.
pub const OPTION_CREATE_FROM_HEAD_FULL: &'static str = "Create from current HEAD";

/// The branch-source choices offered when creating a worktree.
pub const OPTION_SELECT_BRANCH_FULL: &'static str = "Select branch";

/// The branch-source choices offered when creating a worktree.
pub const OPTION_SELECT_TAG_FULL: &'static str = "Select tag";

/// Marks a local branch in the branch list.
pub const ICON_LOCAL_BRANCH: &'static str = "💻 ";

/// Marks a remote branch in the branch list.
pub const ICON_REMOTE_BRANCH: &'static str = "↑ ";

/// Marks a tag in the tag list.
pub const ICON_TAG_INDICATOR: &'static str = "🏷️  ";

/// The branch-source choice that selects a branch.
pub const BRANCH_OPTION_SELECT_BRANCH: usize = 1;

/// The branch-source choice that selects a tag.
pub const BRANCH_OPTION_SELECT_TAG: usize = 2;

/// The menu entry selected first.
pub const DEFAULT_MENU_SELECTION: usize = 0;

/// Shown when waiting for a key.
pub const MSG_PRESS_ANY_KEY: &'static str = "Press any key to continue...";

/// The largest file copied into a new worktree, in MiB.
pub const MAX_FILE_SIZE_MB: u64 = 100;

/// The lock file, in the repository's Git directory, held while a worktree
/// is being created.
pub const LOCK_FILE_NAME: &'static str = "git-workers-worktree.lock";

/// A lock file older than this many seconds is taken as left behind.
pub const STALE_LOCK_TIMEOUT_SECS: u64 = 300;

/// Reported when another process holds the worktree lock.
pub const ERROR_LOCK_EXISTS: &'static str = "Another git-workers process is currently creating a worktree. Please wait and try again.";

/// Reported when `git worktree add` fails.
pub const ERROR_WORKTREE_CREATE: &'static str = "Failed to create worktree: {}";

/// Reported when the configuration cannot be read.
pub const ERROR_CONFIG_LOAD: &'static str = "Failed to load config";

/// Asks for the new worktree's name.
pub const PROMPT_WORKTREE_NAME: &'static str = "Enter worktree name";

/// Asks for the worktree to switch to.
pub const PROMPT_SELECT_WORKTREE: &'static str = "Select a worktree to switch to";

/// Asks for a branch.
pub const PROMPT_SELECT_BRANCH: &'static str = "Select a branch";

/// Reported after a worktree is created.
pub const SUCCESS_WORKTREE_CREATED: &'static str = "Worktree created successfully!";

/// Marks a branch.
pub const EMOJI_BRANCH: &'static str = "🌿";

/// Reported when the user cancels.
pub const INFO_OPERATION_CANCELLED: &'static str = "Operation cancelled";

/// Marks work in progress.
pub const ICON_SPINNER: &'static str = "⏳";

/// Marks success.
pub const ICON_SUCCESS: &'static str = "✓";

/// Marks an error.
pub const ICON_ERROR: &'static str = "✗";

/// Marks a warning.
pub const ICON_WARNING: &'static str = "⚠";

/// Heads the worktree list.
pub const HEADER_WORKTREES: &'static str = "Worktrees";

/// Heads the search screen.
pub const HEADER_SEARCH_WORKTREES: &'static str = "Search Worktrees";

/// Heads the creation screen.
pub const HEADER_CREATE_WORKTREE: &'static str = "Create New Worktree";

/// The path separator.
pub const PATH_SEPARATOR: char = '/';

/// The Windows path separator.
pub const PATH_SEPARATOR_WINDOWS: char = '\\';

} // verus!
