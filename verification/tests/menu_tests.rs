use git_workers::constants::{
    MENU_BATCH_DELETE, MENU_CLEANUP_OLD, MENU_CREATE_WORKTREE, MENU_DELETE_WORKTREE,
    MENU_EDIT_HOOKS, MENU_EXIT, MENU_LIST_WORKTREES, MENU_RENAME_WORKTREE, MENU_SEARCH_WORKTREES,
    MENU_SWITCH_WORKTREE,
};
use git_workers::menu::{handle_menu_item, main_menu_items, menu_labels, MenuAction, MenuItem};

#[test]
fn test_menu_item_display_variants() {
    let items = [
        (MenuItem::ListWorktrees, MENU_LIST_WORKTREES),
        (MenuItem::SearchWorktrees, MENU_SEARCH_WORKTREES),
        (MenuItem::CreateWorktree, MENU_CREATE_WORKTREE),
        (MenuItem::DeleteWorktree, MENU_DELETE_WORKTREE),
        (MenuItem::BatchDelete, MENU_BATCH_DELETE),
        (MenuItem::CleanupOldWorktrees, MENU_CLEANUP_OLD),
        (MenuItem::SwitchWorktree, MENU_SWITCH_WORKTREE),
        (MenuItem::RenameWorktree, MENU_RENAME_WORKTREE),
        (MenuItem::EditHooks, MENU_EDIT_HOOKS),
        (MenuItem::Exit, MENU_EXIT),
    ];

    for (item, expected) in items {
        let formatted = item.label();
        assert!(!formatted.is_empty());
        assert!(formatted.contains(expected));
    }
}

#[test]
fn test_fmt_list_worktrees() {
    let item = MenuItem::ListWorktrees;
    let formatted = item.label();
    assert!(!formatted.is_empty());
    assert!(formatted.contains(MENU_LIST_WORKTREES));
}

#[test]
fn test_fmt_search_worktrees() {
    let item = MenuItem::SearchWorktrees;
    let formatted = item.label();
    assert!(!formatted.is_empty());
    assert!(formatted.contains(MENU_SEARCH_WORKTREES));
}

#[test]
fn test_fmt_create_worktree() {
    let item = MenuItem::CreateWorktree;
    let formatted = item.label();
    assert!(!formatted.is_empty());
    assert!(formatted.contains(MENU_CREATE_WORKTREE));
}

#[test]
fn test_fmt_delete_worktree() {
    let item = MenuItem::DeleteWorktree;
    let formatted = item.label();
    assert!(!formatted.is_empty());
    assert!(formatted.contains(MENU_DELETE_WORKTREE));
}

#[test]
fn test_fmt_batch_delete() {
    let item = MenuItem::BatchDelete;
    let formatted = item.label();
    assert!(!formatted.is_empty());
    assert!(formatted.contains(MENU_BATCH_DELETE));
}

#[test]
fn test_fmt_cleanup_old() {
    let item = MenuItem::CleanupOldWorktrees;
    let formatted = item.label();
    assert!(!formatted.is_empty());
    assert!(formatted.contains(MENU_CLEANUP_OLD));
}

#[test]
fn test_fmt_switch_worktree() {
    let item = MenuItem::SwitchWorktree;
    let formatted = item.label();
    assert!(!formatted.is_empty());
    assert!(formatted.contains(MENU_SWITCH_WORKTREE));
}

#[test]
fn test_fmt_rename_worktree() {
    let item = MenuItem::RenameWorktree;
    let formatted = item.label();
    assert!(!formatted.is_empty());
    assert!(formatted.contains(MENU_RENAME_WORKTREE));
}

#[test]
fn test_fmt_edit_hooks() {
    let item = MenuItem::EditHooks;
    let formatted = item.label();
    assert!(!formatted.is_empty());
    assert!(formatted.contains(MENU_EDIT_HOOKS));
}

#[test]
fn test_fmt_exit() {
    let item = MenuItem::Exit;
    let formatted = item.label();
    assert!(!formatted.is_empty());
    assert!(formatted.contains(MENU_EXIT));
}

#[test]
fn test_menu_item_enum_properties() {
    let items = [
        MenuItem::ListWorktrees,
        MenuItem::SearchWorktrees,
        MenuItem::CreateWorktree,
        MenuItem::DeleteWorktree,
        MenuItem::BatchDelete,
        MenuItem::CleanupOldWorktrees,
        MenuItem::SwitchWorktree,
        MenuItem::RenameWorktree,
        MenuItem::EditHooks,
        MenuItem::Exit,
    ];

    for item in items {
        let formatted = item.label();
        assert!(
            !formatted.is_empty(),
            "Menu item should format to non-empty string"
        );
    }
}

#[test]
fn test_menu_item_equality() {
    assert_eq!(MenuItem::CreateWorktree, MenuItem::CreateWorktree);
    assert_ne!(MenuItem::CreateWorktree, MenuItem::DeleteWorktree);
}

#[test]
fn test_menu_item_clone() {
    let item = MenuItem::CreateWorktree;
    let cloned = item;
    assert_eq!(item, cloned);
}

#[test]
fn test_handle_menu_item_exit() {
    let result = handle_menu_item(MenuItem::Exit, false);
    assert_eq!(result, MenuAction::Exit);
}

#[test]
fn main_menu_order_and_labels() {
    let items = main_menu_items();
    assert_eq!(items.len(), 10);
    assert_eq!(items[0], MenuItem::ListWorktrees);
    assert_eq!(items[1], MenuItem::SwitchWorktree);
    assert_eq!(items[9], MenuItem::Exit);
    let labels = menu_labels(&items);
    assert_eq!(labels[0], MENU_LIST_WORKTREES);
    assert_eq!(labels[9], MENU_EXIT);
}

#[test]
fn switching_flows_end_the_loop_only_after_a_switch() {
    assert_eq!(
        handle_menu_item(MenuItem::CreateWorktree, true),
        MenuAction::ExitAfterSwitch
    );
    assert_eq!(
        handle_menu_item(MenuItem::SearchWorktrees, true),
        MenuAction::ExitAfterSwitch
    );
    assert_eq!(
        handle_menu_item(MenuItem::SwitchWorktree, false),
        MenuAction::Continue
    );
    assert_eq!(
        handle_menu_item(MenuItem::DeleteWorktree, true),
        MenuAction::Continue
    );
    assert_eq!(
        handle_menu_item(MenuItem::ListWorktrees, false),
        MenuAction::Continue
    );
}
