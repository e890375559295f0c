use git_workers::filesystem::MockFileSystem;
use git_workers::git::{commit_info, WorktreeInfo};
use git_workers::input_esc_raw::{EditOutcome, KeyInput, LineEditor, CTRL_U, CTRL_W};
use git_workers::ui::{MockUI, UserInterface};
use git_workers::usecases::delete::{branches_to_delete, orphaned_branches};

fn worktree(name: &str, branch: &str) -> WorktreeInfo {
    WorktreeInfo {
        name: name.to_string(),
        git_name: name.to_string(),
        path: format!("/w/{name}"),
        branch: branch.to_string(),
        is_locked: false,
        is_current: false,
        has_changes: false,
        last_commit: None,
        ahead_behind: None,
    }
}

#[test]
fn typing_then_backspace_restores_the_line() {
    let mut e = LineEditor::new(None);
    e.handle_key(KeyInput::Char('a'));
    e.handle_key(KeyInput::Char('b'));
    assert_eq!(e.handle_key(KeyInput::Char('c')), EditOutcome::Echo('c'));
    assert_eq!(e.handle_key(KeyInput::Backspace), EditOutcome::Redraw);
    assert_eq!(e.buffer(), "ab");
}

#[test]
fn clear_line_and_delete_word() {
    let mut e = LineEditor::new(None);
    for c in "foo bar  ".chars() {
        e.handle_key(KeyInput::Char(c));
    }
    assert_eq!(e.handle_key(KeyInput::Char(CTRL_W)), EditOutcome::Redraw);
    assert_eq!(e.buffer(), "foo ");
    e.handle_key(KeyInput::Char(CTRL_U));
    assert_eq!(e.buffer(), "");
    assert_eq!(e.handle_key(KeyInput::Backspace), EditOutcome::Unchanged);
}

#[test]
fn enter_submits_default_only_for_empty_line() {
    let mut e = LineEditor::new(Some("dflt"));
    assert_eq!(e.handle_key(KeyInput::Enter), EditOutcome::Submitted("dflt".to_string()));
    e.handle_key(KeyInput::Char('x'));
    assert_eq!(e.handle_key(KeyInput::Enter), EditOutcome::Submitted("x".to_string()));
    assert_eq!(e.handle_key(KeyInput::Escape), EditOutcome::Cancelled);
}

#[test]
fn scripted_answers_come_back_in_order() {
    let mut ui = MockUI::new().with_selection(3).with_selection(1).with_selection(2);
    let items = vec!["a".to_string(), "b".to_string(), "c".to_string(), "d".to_string()];
    assert_eq!(ui.select("p", &items).unwrap(), 3);
    assert_eq!(ui.select("p", &items).unwrap(), 1);
    assert_eq!(ui.select("p", &items).unwrap(), 2);
    assert!(ui.select("p", &items).is_err());
}

#[test]
fn read_after_write_gives_written_contents() {
    let mut fs = MockFileSystem::new().with_file("/other", "keep");
    fs.write("/f", "one").unwrap();
    fs.write("/f", "two").unwrap();
    assert_eq!(fs.read_to_string("/f").unwrap(), "two");
    assert_eq!(fs.read_to_string("/other").unwrap(), "keep");
}

#[test]
fn only_orphaned_branches_of_deleted_worktrees_go() {
    let all = vec![
        worktree("a", "a"),
        worktree("b", "shared"),
        worktree("c", "shared"),
        worktree("d", "d"),
    ];
    let selected = vec![worktree("a", "a"), worktree("b", "shared"), worktree("d", "d")];
    let orphans = orphaned_branches(&selected, &all);
    assert_eq!(orphans, vec![("a".to_string(), "a".to_string()), ("d".to_string(), "d".to_string())]);
    let deleted = vec![("a".to_string(), "a".to_string())];
    assert_eq!(branches_to_delete(&orphans, &deleted), vec!["a".to_string()]);
}

#[test]
fn commit_info_formats_time_and_truncates_id() {
    let c = commit_info("0123456789abcdef", Some("Fix bug"), Some("Ann"), 86400 + 3600 + 60);
    assert_eq!(c.id, "01234567");
    assert_eq!(c.message, "Fix bug");
    assert_eq!(c.author, "Ann");
    assert_eq!(c.time, "1970-01-02 01:01");
    let d = commit_info("0123456789abcdef", None, None, 0);
    assert_eq!(d.message, "No message");
    assert_eq!(d.time, "1970-01-01 00:00");
}
