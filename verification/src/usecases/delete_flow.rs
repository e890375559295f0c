//! The deletion dialogues, of one worktree and of several at once, as
//! state machines.  The current worktree is never offered, and a branch
//! goes with its worktree only when no other worktree uses it.
#![verifier::loop_isolation(false)]

use vstd::prelude::*;
use crate::git::{branch_unique_to, worktree_line, WorktreeInfo};
use crate::text::{owned, views};
use crate::usecases::delete::{
    analyze_deletion, deletable, deletion_availability, deletion_config, get_deletable_worktrees,
    orphaned, orphaned_branches, pair_views, prepare_batch_delete_items, selected_worktrees,
    DeletionAnalysis, DeletionAvailability, WorktreeDeleteConfig,
};

verus! {

/// Why a deletion dialogue ends without deleting.
#[derive(Debug, Clone, Copy, PartialEq, Eq, Structural)]
pub enum DeleteStop {
    /// There are no worktrees.
    NoWorktrees,
    /// Only the current worktree exists, which is never deleted.
    NoneDeletable,
    /// The user cancelled or declined.
    Cancelled,
}

/// An answer a deletion dialogue waits for.
pub enum DeleteEvent {
    /// The index of a choice; `None` when cancelled.
    Choice(Option<usize>),
    /// The indices of several choices; `None` when cancelled.
    Choices(Option<Vec<usize>>),
    /// A yes/no answer; `None` when cancelled.
    Confirmation(Option<bool>),
}

/// What a deletion dialogue asks for next.
pub enum DeleteAction {
    /// Offer `items`, one to be chosen.
    Choose { prompt: String, items: Vec<String> },
    /// Offer `items`, any number to be chosen.
    ChooseMany { prompt: String, items: Vec<String> },
    /// Ask a yes/no question; the default answer is no.
    Confirm { prompt: String },
    /// Delete one worktree as `config` says; the dialogue is over.
    Delete(WorktreeDeleteConfig),
    /// Delete the worktrees `selected`; then, when `delete_branches`, those
    /// of the `orphans` (branch, worktree) whose worktree was deleted.
    DeleteAll { selected: Vec<WorktreeInfo>, orphans: Vec<(String, String)>, delete_branches: bool },
    /// Stop without deleting.
    Stop(DeleteStop),
}

/// Where the dialogue of deleting one worktree stands.
pub enum DeleteStage {
    /// The choice among `choices` (the worktrees of `all` but the current).
    AwaitingWorktree { choices: Vec<WorktreeInfo>, all: Vec<WorktreeInfo> },
    /// Whether the branch goes too.
    AwaitingBranchChoice { analysis: DeletionAnalysis },
    /// The confirmation.
    AwaitingConfirmation { analysis: DeletionAnalysis, delete_branch: bool },
    /// The dialogue is over.
    Finished,
}

/// Where the dialogue of deleting several worktrees stands.
pub enum BatchStage {
    /// The choice among `choices` (the worktrees of `all` but the current).
    AwaitingSelection { choices: Vec<WorktreeInfo>, all: Vec<WorktreeInfo> },
    /// The confirmation of deleting `selected`, which would orphan `orphans`.
    AwaitingConfirmation { selected: Vec<WorktreeInfo>, orphans: Vec<(String, String)> },
    /// Whether the orphaned branches go too.
    AwaitingBranchChoice { selected: Vec<WorktreeInfo>, orphans: Vec<(String, String)> },
    /// The dialogue is over.
    Finished,
}

/// The prompt of the final question when deleting one worktree.
pub open spec fn delete_prompt() -> Seq<char> {
    "Are you sure you want to delete this worktree?"@
}

/// `act` asks `prompt`.
pub open spec fn asks_yes_no(act: DeleteAction, prompt: Seq<char>) -> bool {
    act matches DeleteAction::Confirm { prompt: p } && p@ == prompt
}

/// How a deletion dialogue opens on the worktrees `ws`; `many` for the
/// batch dialogue, whose choice `choices` then is.
pub open spec fn deletion_opening(ws: Seq<WorktreeInfo>, act: DeleteAction, choices: Seq<WorktreeInfo>, many: bool) -> bool {
    if ws.len() == 0 {
        act == DeleteAction::Stop(DeleteStop::NoWorktrees)
    } else if deletable(ws).len() == 0 {
        act == DeleteAction::Stop(DeleteStop::NoneDeletable)
    } else {
        &&& choices == deletable(ws)
        &&& if many {
            act matches DeleteAction::ChooseMany { prompt, items } && prompt@
                == "Select worktrees to delete (Space to toggle, Enter to confirm, ESC to cancel)"@
                && views(items@) == deletable(ws).map_values(|w: WorktreeInfo| worktree_line(w))
        } else {
            act matches DeleteAction::Choose { prompt, items } && prompt@
                == "Select a worktree to delete (ESC to cancel)"@ && views(items@) == deletable(
                ws,
            ).map_values(|w: WorktreeInfo| worktree_line(w))
        }
    }
}

/// The single dialogue stops as cancelled.
pub open spec fn delete_cancelled(after: DeleteStage, act: DeleteAction) -> bool {
    after == DeleteStage::Finished && act == DeleteAction::Stop(DeleteStop::Cancelled)
}

/// One step of the dialogue of deleting one worktree; an answer of the
/// wrong kind, or any answer once it is over, stops it as cancelled.
pub open spec fn delete_transition(before: DeleteStage, event: DeleteEvent, after: DeleteStage, act: DeleteAction) -> bool {
    match before {
        DeleteStage::AwaitingWorktree { choices, all } => match event {
            DeleteEvent::Choice(Some(i)) => {
                let w = choices@[i as int];
                let unique = branch_unique_to(all@, w.branch@, w.name@);
                if unique {
                    &&& after matches DeleteStage::AwaitingBranchChoice { analysis } && analysis.worktree == w
                        && analysis.is_branch_unique
                    &&& asks_yes_no(act, "Also delete the branch?"@)
                } else {
                    &&& after matches DeleteStage::AwaitingConfirmation { analysis, delete_branch }
                        && analysis.worktree == w && !analysis.is_branch_unique && !delete_branch
                    &&& asks_yes_no(act, delete_prompt())
                }
            },
            _ => delete_cancelled(after, act),
        },
        DeleteStage::AwaitingBranchChoice { analysis } => match event {
            DeleteEvent::Confirmation(a) => after == (DeleteStage::AwaitingConfirmation {
                analysis,
                delete_branch: a == Some(true),
            }) && asks_yes_no(act, delete_prompt()),
            _ => delete_cancelled(after, act),
        },
        DeleteStage::AwaitingConfirmation { analysis, delete_branch } => match event {
            DeleteEvent::Confirmation(Some(true)) => after == DeleteStage::Finished && (act matches DeleteAction::Delete(
                c,
            ) && c.name == analysis.worktree.git_name && c.path == analysis.worktree.path && c.branch
                == analysis.worktree.branch && c.delete_branch == (analysis.is_branch_unique && delete_branch)),
            _ => delete_cancelled(after, act),
        },
        DeleteStage::Finished => delete_cancelled(after, act),
    }
}

/// The batch dialogue stops as cancelled.
pub open spec fn batch_cancelled(after: BatchStage, act: DeleteAction) -> bool {
    after == BatchStage::Finished && act == DeleteAction::Stop(DeleteStop::Cancelled)
}

/// The worktrees of `choices` at the positions `sel`.
pub open spec fn picked(choices: Seq<WorktreeInfo>, sel: Seq<usize>) -> Seq<WorktreeInfo> {
    sel.map_values(|k: usize| choices[k as int])
}

/// One step of the dialogue of deleting several worktrees; an answer of
/// the wrong kind, or any answer once it is over, stops it as cancelled.
pub open spec fn batch_transition(before: BatchStage, event: DeleteEvent, after: BatchStage, act: DeleteAction) -> bool {
    match before {
        BatchStage::AwaitingSelection { choices, all } => match event {
            DeleteEvent::Choices(Some(sel)) => if sel@.len() == 0 {
                batch_cancelled(after, act)
            } else {
                &&& after matches BatchStage::AwaitingConfirmation { selected, orphans } && selected@ == picked(
                    choices@,
                    sel@,
                ) && pair_views(orphans@) == orphaned(picked(choices@, sel@), all@)
                &&& asks_yes_no(act, "Are you sure you want to delete these worktrees?"@)
            },
            _ => batch_cancelled(after, act),
        },
        BatchStage::AwaitingConfirmation { selected, orphans } => match event {
            DeleteEvent::Confirmation(Some(true)) => if orphans@.len() > 0 {
                after == (BatchStage::AwaitingBranchChoice { selected, orphans }) && asks_yes_no(
                    act,
                    "Also delete the orphaned branches?"@,
                )
            } else {
                after == BatchStage::Finished && act == (DeleteAction::DeleteAll {
                    selected,
                    orphans,
                    delete_branches: false,
                })
            },
            _ => batch_cancelled(after, act),
        },
        BatchStage::AwaitingBranchChoice { selected, orphans } => match event {
            DeleteEvent::Confirmation(a) => after == BatchStage::Finished && act == (DeleteAction::DeleteAll {
                selected,
                orphans,
                delete_branches: a == Some(true),
            }),
            _ => batch_cancelled(after, act),
        },
        BatchStage::Finished => batch_cancelled(after, act),
    }
}

/// None of `ws` is the current worktree.
pub open spec fn none_current(ws: Seq<WorktreeInfo>) -> bool {
    forall|k: int| 0 <= k < ws.len() ==> !(#[trigger] ws[k]).is_current
}

/// What a stage of the single dialogue has settled.
pub open spec fn delete_stage_ok(s: DeleteStage) -> bool {
    match s {
        DeleteStage::AwaitingWorktree { choices, all } => choices@ == deletable(all@),
        DeleteStage::AwaitingBranchChoice { analysis } => !analysis.worktree.is_current,
        DeleteStage::AwaitingConfirmation { analysis, delete_branch } => !analysis.worktree.is_current,
        DeleteStage::Finished => true,
    }
}

/// What a stage of the batch dialogue has settled.
pub open spec fn batch_stage_ok(s: BatchStage) -> bool {
    match s {
        BatchStage::AwaitingSelection { choices, all } => choices@ == deletable(all@),
        BatchStage::AwaitingConfirmation { selected, orphans } => none_current(selected@),
        BatchStage::AwaitingBranchChoice { selected, orphans } => none_current(selected@),
        BatchStage::Finished => true,
    }
}

proof fn lemma_deletable_not_current(all: Seq<WorktreeInfo>, k: int)
    requires
        0 <= k < deletable(all).len(),
    ensures
        !deletable(all)[k].is_current,
{
    all.lemma_filter_pred(|w: WorktreeInfo| !w.is_current, k);
}

/// The dialogue of deleting one worktree.
pub struct DeleteFlow {
    stage: DeleteStage,
}

impl DeleteFlow {
    #[verifier::type_invariant]
    spec fn settled(self) -> bool {
        delete_stage_ok(self.stage)
    }

    /// Where the dialogue stands.
    pub closed spec fn stage(&self) -> DeleteStage {
        self.stage
    }

    /// Where the dialogue stands.
    pub fn current(&self) -> (r: &DeleteStage)
        ensures
            *r == self.stage(),
    {
        &self.stage
    }

    /// Opens the dialogue on the repository's worktrees `worktrees`.
    pub fn start(worktrees: Vec<WorktreeInfo>) -> (r: (DeleteFlow, DeleteAction))
        ensures
            deletion_opening(
                worktrees@,
                r.1,
                match r.0.stage() {
                    DeleteStage::AwaitingWorktree { choices, .. } => choices@,
                    _ => Seq::empty(),
                },
                false,
            ),
            r.1 is Choose ==> (r.0.stage() matches DeleteStage::AwaitingWorktree { all, .. } && all@
                == worktrees@),
            !(r.1 is Choose) ==> r.0.stage() == DeleteStage::Finished,
    {
        proof {
            reveal(Seq::filter);
        }
        match deletion_availability(&worktrees) {
            DeletionAvailability::NoWorktrees => (
                DeleteFlow { stage: DeleteStage::Finished },
                DeleteAction::Stop(DeleteStop::NoWorktrees),
            ),
            DeletionAvailability::NoneDeletable => (
                DeleteFlow { stage: DeleteStage::Finished },
                DeleteAction::Stop(DeleteStop::NoneDeletable),
            ),
            DeletionAvailability::Available => {
                let items = prepare_batch_delete_items(&worktrees);
                let choices = get_deletable_worktrees(&worktrees);
                (
                    DeleteFlow { stage: DeleteStage::AwaitingWorktree { choices, all: worktrees } },
                    DeleteAction::Choose { prompt: owned("Select a worktree to delete (ESC to cancel)"), items },
                )
            },
        }
    }

    fn cancel(&mut self) -> (r: DeleteAction)
        ensures
            delete_cancelled(final(self).stage(), r),
    {
        self.stage = DeleteStage::Finished;
        DeleteAction::Stop(DeleteStop::Cancelled)
    }

    /// Moves the dialogue on with the answer `event`.  A deletion it asks
    /// for is never of the current worktree, and takes the branch along
    /// only when no other worktree uses it and the user agreed.
    pub fn step(&mut self, event: DeleteEvent) -> (r: DeleteAction)
        requires
            old(self).stage() matches DeleteStage::AwaitingWorktree { choices, .. } ==> (event matches DeleteEvent::Choice(Some(i)) ==> i < choices@.len()),
        ensures
            delete_transition(old(self).stage(), event, final(self).stage(), r),
            r is Delete ==> (old(self).stage() matches DeleteStage::AwaitingConfirmation { analysis, .. }
                && !analysis.worktree.is_current),
    {
        proof {
            use_type_invariant(&*self);
        }
        let mut stage = DeleteStage::Finished;
        std::mem::swap(&mut stage, &mut self.stage);
        match stage {
            DeleteStage::AwaitingWorktree { choices, all } => match event {
                DeleteEvent::Choice(Some(i)) => {
                    proof {
                        lemma_deletable_not_current(all@, i as int);
                    }
                    let analysis = analyze_deletion(&choices[i], &all);
                    if analysis.is_branch_unique {
                        self.stage = DeleteStage::AwaitingBranchChoice { analysis };
                        DeleteAction::Confirm { prompt: owned("Also delete the branch?") }
                    } else {
                        self.stage = DeleteStage::AwaitingConfirmation { analysis, delete_branch: false };
                        DeleteAction::Confirm { prompt: owned("Are you sure you want to delete this worktree?") }
                    }
                },
                _ => self.cancel(),
            },
            DeleteStage::AwaitingBranchChoice { analysis } => match event {
                DeleteEvent::Confirmation(a) => {
                    let delete_branch = match a {
                        Some(b) => b,
                        None => false,
                    };
                    self.stage = DeleteStage::AwaitingConfirmation { analysis, delete_branch };
                    DeleteAction::Confirm { prompt: owned("Are you sure you want to delete this worktree?") }
                },
                _ => self.cancel(),
            },
            DeleteStage::AwaitingConfirmation { analysis, delete_branch } => match event {
                DeleteEvent::Confirmation(Some(true)) => {
                    let config = deletion_config(&analysis, delete_branch);
                    self.stage = DeleteStage::Finished;
                    DeleteAction::Delete(config)
                },
                _ => self.cancel(),
            },
            DeleteStage::Finished => self.cancel(),
        }
    }
}

/// The dialogue of deleting several worktrees.
pub struct BatchDeleteFlow {
    stage: BatchStage,
}

impl BatchDeleteFlow {
    #[verifier::type_invariant]
    spec fn settled(self) -> bool {
        batch_stage_ok(self.stage)
    }

    /// Where the dialogue stands.
    pub closed spec fn stage(&self) -> BatchStage {
        self.stage
    }

    /// Where the dialogue stands.
    pub fn current(&self) -> (r: &BatchStage)
        ensures
            *r == self.stage(),
    {
        &self.stage
    }

    /// Opens the dialogue on the repository's worktrees `worktrees`.
    pub fn start(worktrees: Vec<WorktreeInfo>) -> (r: (BatchDeleteFlow, DeleteAction))
        ensures
            deletion_opening(
                worktrees@,
                r.1,
                match r.0.stage() {
                    BatchStage::AwaitingSelection { choices, .. } => choices@,
                    _ => Seq::empty(),
                },
                true,
            ),
            r.1 is ChooseMany ==> (r.0.stage() matches BatchStage::AwaitingSelection { all, .. } && all@
                == worktrees@),
            !(r.1 is ChooseMany) ==> r.0.stage() == BatchStage::Finished,
    {
        proof {
            reveal(Seq::filter);
        }
        match deletion_availability(&worktrees) {
            DeletionAvailability::NoWorktrees => (
                BatchDeleteFlow { stage: BatchStage::Finished },
                DeleteAction::Stop(DeleteStop::NoWorktrees),
            ),
            DeletionAvailability::NoneDeletable => (
                BatchDeleteFlow { stage: BatchStage::Finished },
                DeleteAction::Stop(DeleteStop::NoneDeletable),
            ),
            DeletionAvailability::Available => {
                let items = prepare_batch_delete_items(&worktrees);
                let choices = get_deletable_worktrees(&worktrees);
                (
                    BatchDeleteFlow { stage: BatchStage::AwaitingSelection { choices, all: worktrees } },
                    DeleteAction::ChooseMany {
                        prompt: owned("Select worktrees to delete (Space to toggle, Enter to confirm, ESC to cancel)"),
                        items,
                    },
                )
            },
        }
    }

    fn cancel(&mut self) -> (r: DeleteAction)
        ensures
            batch_cancelled(final(self).stage(), r),
    {
        self.stage = BatchStage::Finished;
        DeleteAction::Stop(DeleteStop::Cancelled)
    }

    /// Moves the dialogue on with the answer `event`.  None of the
    /// worktrees it asks to delete is the current one.
    pub fn step(&mut self, event: DeleteEvent) -> (r: DeleteAction)
        requires
            old(self).stage() matches BatchStage::AwaitingSelection { choices, .. } ==> (event matches DeleteEvent::Choices(Some(sel)) ==> forall|k: int|
                0 <= k < sel@.len() ==> #[trigger] sel@[k] < choices@.len()),
        ensures
            batch_transition(old(self).stage(), event, final(self).stage(), r),
            r matches DeleteAction::DeleteAll { selected, .. } ==> none_current(selected@),
    {
        proof {
            use_type_invariant(&*self);
        }
        let mut stage = BatchStage::Finished;
        std::mem::swap(&mut stage, &mut self.stage);
        match stage {
            BatchStage::AwaitingSelection { choices, all } => match event {
                DeleteEvent::Choices(Some(sel)) => {
                    if sel.len() == 0 {
                        self.cancel()
                    } else {
                        let selected = selected_worktrees(&choices, &sel);
                        let orphans = orphaned_branches(&selected, &all);
                        proof {
                            assert(selected@ =~= picked(choices@, sel@));
                            assert forall|k: int| 0 <= k < selected@.len() implies !(#[trigger] selected@[k]).is_current by {
                                lemma_deletable_not_current(all@, sel@[k] as int);
                            }
                        }
                        self.stage = BatchStage::AwaitingConfirmation { selected, orphans };
                        DeleteAction::Confirm { prompt: owned("Are you sure you want to delete these worktrees?") }
                    }
                },
                _ => self.cancel(),
            },
            BatchStage::AwaitingConfirmation { selected, orphans } => match event {
                DeleteEvent::Confirmation(Some(true)) => {
                    if orphans.len() > 0 {
                        self.stage = BatchStage::AwaitingBranchChoice { selected, orphans };
                        DeleteAction::Confirm { prompt: owned("Also delete the orphaned branches?") }
                    } else {
                        self.stage = BatchStage::Finished;
                        DeleteAction::DeleteAll { selected, orphans, delete_branches: false }
                    }
                },
                _ => self.cancel(),
            },
            BatchStage::AwaitingBranchChoice { selected, orphans } => match event {
                DeleteEvent::Confirmation(a) => {
                    let delete_branches = match a {
                        Some(b) => b,
                        None => false,
                    };
                    self.stage = BatchStage::Finished;
                    DeleteAction::DeleteAll { selected, orphans, delete_branches }
                },
                _ => self.cancel(),
            },
            BatchStage::Finished => self.cancel(),
        }
    }
}

} // verus!
