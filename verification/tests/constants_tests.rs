use git_workers::constants::{
    CONFIG_FILE_NAME, DEFAULT_BRANCH_MAIN, DEFAULT_BRANCH_MASTER, EMOJI_BRANCH, EMOJI_DETACHED,
    EMOJI_FOLDER, EMOJI_HOME, EMOJI_LOCKED, ERROR_CONFIG_LOAD, ERROR_LOCK_EXISTS,
    ERROR_WORKTREE_CREATE, GIT_BRANCH, GIT_CMD, GIT_DIR, GIT_REMOTE_PREFIX, GIT_TAG, GIT_WORKTREE,
    HEADER_CREATE_WORKTREE, HEADER_SEARCH_WORKTREES, HEADER_SEPARATOR_WIDTH, HEADER_WORKTREES,
    HOOK_POST_CREATE, HOOK_POST_SWITCH, HOOK_PRE_REMOVE, ICON_ERROR, ICON_SPINNER, ICON_SUCCESS,
    ICON_WARNING, INFO_OPERATION_CANCELLED, MAX_DIRECTORY_DEPTH, MAX_FILE_SIZE_MB,
    MAX_WORKTREE_NAME_LENGTH, MSG_PRESS_ANY_KEY, PATH_CURRENT, PATH_PARENT, PATH_SEPARATOR,
    PATH_SEPARATOR_WINDOWS, PROMPT_SELECT_BRANCH, PROMPT_SELECT_WORKTREE, PROMPT_WORKTREE_NAME,
    SEPARATOR_WIDTH, SUCCESS_WORKTREE_CREATED, TIME_FORMAT,
};
use git_workers::domain::validation::git_reserved_name_list;
use git_workers::input_esc_raw::{ANSI_CLEAR_LINE, CHAR_SPACE, CTRL_U, CTRL_W, ICON_QUESTION};
use git_workers::styles::{header_separator, section_header};

const TEST_TITLE: &str = "Test Title";
const TEST_EQUALS_SIGN: &str = "=";
const TEST_PERCENT_SIGN: &str = "%";
const TEST_GIT_HEAD: &str = "HEAD";
const TEST_GIT_REFS: &str = "refs";

#[test]
fn test_section_header() {
    let header = section_header(TEST_TITLE);
    assert!(header.contains(TEST_TITLE));
    assert!(header.contains(TEST_EQUALS_SIGN));
}

#[test]
fn test_header_separator() {
    let separator = header_separator();
    assert!(separator.contains(&TEST_EQUALS_SIGN.repeat(HEADER_SEPARATOR_WIDTH)));
    assert!(separator.contains(TEST_EQUALS_SIGN));
}

#[test]
fn test_constants_non_empty() {
    assert!(!MSG_PRESS_ANY_KEY.is_empty());
    assert!(!CONFIG_FILE_NAME.is_empty());
    assert!(!GIT_REMOTE_PREFIX.is_empty());
    assert!(!DEFAULT_BRANCH_MAIN.is_empty());
    assert!(!DEFAULT_BRANCH_MASTER.is_empty());
}

#[test]
fn test_emoji_constants() {
    assert!(!EMOJI_HOME.is_empty());
    assert!(!EMOJI_LOCKED.is_empty());
    assert!(!EMOJI_BRANCH.is_empty());
    assert!(!EMOJI_DETACHED.is_empty());
    assert!(!EMOJI_FOLDER.is_empty());
}

#[test]
fn test_icon_constants() {
    assert!(!ICON_SUCCESS.is_empty());
    assert!(!ICON_ERROR.is_empty());
    assert!(!ICON_WARNING.is_empty());
    assert!(!ICON_SPINNER.is_empty());
}

#[test]
fn test_git_constants() {
    assert_eq!(GIT_CMD, "git");
    assert_eq!(GIT_WORKTREE, "worktree");
    assert_eq!(GIT_BRANCH, "branch");
    assert_eq!(GIT_TAG, "tag");
}

#[test]
fn test_numeric_constants() {
    assert!(SEPARATOR_WIDTH > 0);
    assert!(HEADER_SEPARATOR_WIDTH > 0);
    assert!(MAX_WORKTREE_NAME_LENGTH > 0);
    assert!(MAX_FILE_SIZE_MB > 0);
    assert!(MAX_DIRECTORY_DEPTH > 0);
}

#[test]
fn test_path_constants() {
    assert_eq!(PATH_SEPARATOR, '/');
    assert_eq!(PATH_SEPARATOR_WINDOWS, '\\');
    assert_eq!(PATH_PARENT, "..");
    assert_eq!(PATH_CURRENT, ".");
    assert_eq!(GIT_DIR, ".git");
}

#[test]
fn test_time_format() {
    assert!(!TIME_FORMAT.is_empty());
    assert!(TIME_FORMAT.contains(TEST_PERCENT_SIGN));
}

#[test]
fn test_git_reserved_names() {
    let names = git_reserved_name_list();
    assert!(!names.is_empty());
    assert!(names.contains(&TEST_GIT_HEAD));
    assert!(names.contains(&TEST_GIT_REFS));
}

#[test]
fn test_hook_constants() {
    assert_eq!(HOOK_POST_CREATE, "post-create");
    assert_eq!(HOOK_PRE_REMOVE, "pre-remove");
    assert_eq!(HOOK_POST_SWITCH, "post-switch");
}

#[test]
fn test_header_constants() {
    assert!(!HEADER_WORKTREES.is_empty());
    assert!(!HEADER_SEARCH_WORKTREES.is_empty());
    assert!(!HEADER_CREATE_WORKTREE.is_empty());
}

#[test]
fn test_message_constants() {
    assert!(!MSG_PRESS_ANY_KEY.is_empty());
    assert!(!SUCCESS_WORKTREE_CREATED.is_empty());
    assert!(!INFO_OPERATION_CANCELLED.is_empty());
}

#[test]
fn test_prompt_constants() {
    assert!(!PROMPT_WORKTREE_NAME.is_empty());
    assert!(!PROMPT_SELECT_WORKTREE.is_empty());
    assert!(!PROMPT_SELECT_BRANCH.is_empty());
}

#[test]
fn test_error_constants() {
    assert!(!ERROR_LOCK_EXISTS.is_empty());
    assert!(!ERROR_WORKTREE_CREATE.is_empty());
    assert!(!ERROR_CONFIG_LOAD.is_empty());
}

#[test]
fn test_constants_are_accessible() {
    assert_eq!(ICON_QUESTION, "?");
    assert_eq!(CTRL_U, '\u{15}');
    assert_eq!(CTRL_W, '\u{17}');
    assert_eq!(CHAR_SPACE, ' ');
    assert_eq!(ANSI_CLEAR_LINE, "\r\x1b[K");
}

#[test]
fn section_header_rule_is_forty_wide() {
    let header = section_header("Title");
    assert!(header.contains(&"=".repeat(40)));
}
