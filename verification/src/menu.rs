//! The main menu: its items, their labels, and what choosing one leads to.

use vstd::prelude::*;
use crate::constants::{
    DEFAULT_BRANCH_DETACHED, EMOJI_DETACHED, EMOJI_FOLDER, EMOJI_HOME, EMOJI_LOCKED,
    MENU_BATCH_DELETE, MENU_CLEANUP_OLD, MENU_CREATE_WORKTREE, MENU_DELETE_WORKTREE,
    MENU_EDIT_HOOKS, MENU_EXIT, MENU_LIST_WORKTREES, MENU_RENAME_WORKTREE,
    MENU_SEARCH_WORKTREES, MENU_SWITCH_WORKTREE,
};
use crate::git::WorktreeInfo;
use crate::text::{owned, str_eq};

verus! {

/// An entry of the main menu.
#[derive(Debug, Clone, Copy, PartialEq, Eq, Structural)]
pub enum MenuItem {
    ListWorktrees,
    SearchWorktrees,
    CreateWorktree,
    DeleteWorktree,
    BatchDelete,
    CleanupOldWorktrees,
    SwitchWorktree,
    RenameWorktree,
    EditHooks,
    Exit,
}

/// The label shown for a menu item.
pub open spec fn menu_label(item: MenuItem) -> Seq<char> {
    match item {
        MenuItem::ListWorktrees => MENU_LIST_WORKTREES@,
        MenuItem::SearchWorktrees => MENU_SEARCH_WORKTREES@,
        MenuItem::CreateWorktree => MENU_CREATE_WORKTREE@,
        MenuItem::DeleteWorktree => MENU_DELETE_WORKTREE@,
        MenuItem::BatchDelete => MENU_BATCH_DELETE@,
        MenuItem::CleanupOldWorktrees => MENU_CLEANUP_OLD@,
        MenuItem::SwitchWorktree => MENU_SWITCH_WORKTREE@,
        MenuItem::RenameWorktree => MENU_RENAME_WORKTREE@,
        MenuItem::EditHooks => MENU_EDIT_HOOKS@,
        MenuItem::Exit => MENU_EXIT@,
    }
}

impl MenuItem {
    /// The label shown for this item.
    pub fn label(&self) -> (r: String)
        ensures
            r@ == menu_label(*self),
    {
        let s = match self {
            MenuItem::ListWorktrees => MENU_LIST_WORKTREES,
            MenuItem::SearchWorktrees => MENU_SEARCH_WORKTREES,
            MenuItem::CreateWorktree => MENU_CREATE_WORKTREE,
            MenuItem::DeleteWorktree => MENU_DELETE_WORKTREE,
            MenuItem::BatchDelete => MENU_BATCH_DELETE,
            MenuItem::CleanupOldWorktrees => MENU_CLEANUP_OLD,
            MenuItem::SwitchWorktree => MENU_SWITCH_WORKTREE,
            MenuItem::RenameWorktree => MENU_RENAME_WORKTREE,
            MenuItem::EditHooks => MENU_EDIT_HOOKS,
            MenuItem::Exit => MENU_EXIT,
        };
        owned(s)
    }
}

/// The main menu's items, in the order shown.
pub open spec fn main_menu() -> Seq<MenuItem> {
    seq![
        MenuItem::ListWorktrees,
        MenuItem::SwitchWorktree,
        MenuItem::SearchWorktrees,
        MenuItem::CreateWorktree,
        MenuItem::DeleteWorktree,
        MenuItem::BatchDelete,
        MenuItem::CleanupOldWorktrees,
        MenuItem::RenameWorktree,
        MenuItem::EditHooks,
        MenuItem::Exit,
    ]
}

/// The main menu's items, in the order shown.
pub fn main_menu_items() -> (r: Vec<MenuItem>)
    ensures
        r@ == main_menu(),
{
    let r = vec![
        MenuItem::ListWorktrees,
        MenuItem::SwitchWorktree,
        MenuItem::SearchWorktrees,
        MenuItem::CreateWorktree,
        MenuItem::DeleteWorktree,
        MenuItem::BatchDelete,
        MenuItem::CleanupOldWorktrees,
        MenuItem::RenameWorktree,
        MenuItem::EditHooks,
        MenuItem::Exit,
    ];
    assert(r@ =~= main_menu());
    r
}

/// The labels of `items`, in order.
pub fn menu_labels(items: &Vec<MenuItem>) -> (r: Vec<String>)
    ensures
        r@.len() == items@.len(),
        forall|i: int| 0 <= i < r@.len() ==> #[trigger] r@[i]@ == menu_label(items@[i]),
{
    let mut r: Vec<String> = Vec::new();
    let mut i: usize = 0;
    while i < items.len()
        invariant
            i <= items.len(),
            r@.len() == i,
            forall|j: int| 0 <= j < i ==> #[trigger] r@[j]@ == menu_label(items@[j]),
        decreases items.len() - i,
    {
        r.push(items[i].label());
        i = i + 1;
    }
    r
}

/// What the main loop does after a menu item has been handled.
#[derive(Debug, Clone, Copy, PartialEq, Eq, Structural)]
pub enum MenuAction {
    /// Show the menu again.
    Continue,
    /// Leave the program.
    Exit,
    /// Leave the program so the shell can change to the chosen worktree.
    ExitAfterSwitch,
}

/// Whether choosing `item` can end with a switch to another worktree.
pub open spec fn may_switch(item: MenuItem) -> bool {
    item == MenuItem::CreateWorktree || item == MenuItem::SwitchWorktree || item
        == MenuItem::SearchWorktrees
}

/// The main loop's next step once `item` has been handled; `switched` tells
/// whether the item's flow switched to a worktree.
pub fn handle_menu_item(item: MenuItem, switched: bool) -> (r: MenuAction)
    ensures
        item == MenuItem::Exit ==> r == MenuAction::Exit,
        may_switch(item) && switched ==> r == MenuAction::ExitAfterSwitch,
        item != MenuItem::Exit && !(may_switch(item) && switched) ==> r == MenuAction::Continue,
{
    match item {
        MenuItem::Exit => MenuAction::Exit,
        MenuItem::CreateWorktree | MenuItem::SwitchWorktree | MenuItem::SearchWorktrees => {
            if switched {
                MenuAction::ExitAfterSwitch
            } else {
                MenuAction::Continue
            }
        },
        _ => MenuAction::Continue,
    }
}

/// The icon shown before a worktree: home for the current one, a lock for
/// a locked one, a link for a detached HEAD, a folder otherwise.
pub open spec fn worktree_icon(w: WorktreeInfo) -> Seq<char> {
    if w.is_current {
        EMOJI_HOME@
    } else if w.is_locked {
        EMOJI_LOCKED@
    } else if w.branch@ == DEFAULT_BRANCH_DETACHED@ {
        EMOJI_DETACHED@
    } else {
        EMOJI_FOLDER@
    }
}

/// The icon shown before a worktree.
pub fn get_worktree_icon(worktree: &WorktreeInfo) -> (r: &'static str)
    ensures
        r@ == worktree_icon(*worktree),
{
    if worktree.is_current {
        EMOJI_HOME
    } else if worktree.is_locked {
        EMOJI_LOCKED
    } else if str_eq(worktree.branch.as_str(), DEFAULT_BRANCH_DETACHED) {
        EMOJI_DETACHED
    } else {
        EMOJI_FOLDER
    }
}

} // verus!
