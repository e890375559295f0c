//! The worktree-renaming dialogue as a state machine: the worktree, its new
//! name, whether its branch follows, and the final confirmation.
#![verifier::loop_isolation(false)]

use vstd::prelude::*;
use crate::domain::validation::{name_verdict, validate_worktree_name, NameError};
use crate::git::{list_worktrees, worktree_line, WorktreeInfo};
use crate::pathname::{opt_view, std_path_join, std_path_parent};
use crate::text::{concat3, is_prefix, owned, trim, trim_str, views};
use crate::usecases::create_flow::valid_name;
use crate::usecases::delete::deletable;
use crate::usecases::rename::{
    analyze_rename_requirements, branch_follows_name, get_renameable_worktrees, is_main_name,
    new_branch_name, rename_config, validate_rename_operation, RenameError, WorktreeRenameConfig,
};

verus! {

/// Where the renaming dialogue stands.
pub enum RenameStage {
    /// The choice of a worktree among `choices`.
    AwaitingWorktree { choices: Vec<WorktreeInfo> },
    /// The new name of `worktree`.
    AwaitingName { worktree: WorktreeInfo },
    /// Whether the branch of `worktree` is renamed too.
    AwaitingBranchChoice { worktree: WorktreeInfo, new_name: String },
    /// The confirmation of `config`.
    AwaitingConfirmation { config: WorktreeRenameConfig },
    /// The dialogue is over.
    Finished,
}

/// An answer the renaming dialogue waits for.
pub enum RenameEvent {
    /// The index of a choice; `None` when cancelled.
    Choice(Option<usize>),
    /// A line of text; `None` when cancelled.
    Text(Option<String>),
    /// A yes/no answer; `None` when cancelled.
    Confirmation(Option<bool>),
}

/// Why the renaming dialogue ends without renaming.
#[derive(Debug, Clone, PartialEq)]
pub enum RenameStop {
    /// There are no worktrees.
    NoWorktrees,
    /// Only the current worktree exists, which is never renamed.
    NoneRenameable,
    /// The user cancelled or declined.
    Cancelled,
    /// The rename is refused.
    Refused(RenameError),
    /// The new name breaks a naming rule.
    InvalidName(NameError),
}

/// What the renaming dialogue asks for next.
pub enum RenameAction {
    /// Offer `items`.
    Choose { prompt: String, items: Vec<String> },
    /// Ask for a line of text.
    AskText { prompt: String },
    /// Ask a yes/no question with a default answer.
    Confirm { prompt: String, default: bool },
    /// Rename as `config` says; the dialogue is over.
    Rename(WorktreeRenameConfig),
    /// Stop without renaming.
    Stop(RenameStop),
}

/// The outcome of the checks on renaming `old` to `new`, in the order
/// they are made.
pub open spec fn rename_verdict(old: Seq<char>, new: Seq<char>) -> Result<(), RenameError> {
    if old.len() == 0 {
        Err(RenameError::EmptyOldName)
    } else if new.len() == 0 {
        Err(RenameError::EmptyNewName)
    } else if new == old {
        Err(RenameError::SameName)
    } else if is_main_name(old) {
        Err(RenameError::RenameMain)
    } else if is_main_name(new) {
        Err(RenameError::RenameToMain)
    } else {
        Ok(())
    }
}

/// `config` renames `w` to `n`, with its branch when `with_branch`.
pub open spec fn planned_rename(w: WorktreeInfo, n: Seq<char>, with_branch: bool, config: WorktreeRenameConfig) -> bool {
    &&& std_path_parent(w.path@) matches Some(p) && config.new_path@ == std_path_join(p, n)
    &&& config.old_name == w.name
    &&& config.new_name@ == n
    &&& config.old_path == w.path
    &&& config.old_branch == w.branch
    &&& config.rename_branch == with_branch
    &&& opt_view(config.new_branch) == if with_branch {
        Some(
            if is_prefix("feature/"@, w.branch@) {
                "feature/"@ + n
            } else {
                n
            },
        )
    } else {
        None
    }
}

/// The dialogue stops with `s`.
pub open spec fn rename_stops(after: RenameStage, act: RenameAction, s: RenameStop) -> bool {
    after == RenameStage::Finished && act == RenameAction::Stop(s)
}

/// `act` asks the yes/no question `prompt` with `default`.
pub open spec fn confirms(act: RenameAction, prompt: Seq<char>, default: bool) -> bool {
    act matches RenameAction::Confirm { prompt: p, default: d } && p@ == prompt && d == default
}

/// The dialogue goes on to confirm renaming `w` to `n` (with its branch
/// when `with_branch`), or stops when `w` has no parent directory.
pub open spec fn goes_to_confirmation(after: RenameStage, act: RenameAction, w: WorktreeInfo, n: Seq<char>, with_branch: bool) -> bool {
    if std_path_parent(w.path@) is None {
        rename_stops(after, act, RenameStop::Refused(RenameError::NoParent))
    } else {
        &&& after matches RenameStage::AwaitingConfirmation { config } && planned_rename(w, n, with_branch, config)
        &&& confirms(act, "Proceed with rename?"@, false)
    }
}

/// The prompt for the new name of the worktree `name`.
pub open spec fn new_name_prompt(name: Seq<char>) -> Seq<char> {
    "New name for '"@ + name + "' (ESC to cancel)"@
}

/// How the renaming dialogue opens on the worktrees `ws`.
pub open spec fn rename_opening(ws: Seq<WorktreeInfo>, stage: RenameStage, act: RenameAction) -> bool {
    if ws.len() == 0 {
        rename_stops(stage, act, RenameStop::NoWorktrees)
    } else if deletable(ws).len() == 0 {
        rename_stops(stage, act, RenameStop::NoneRenameable)
    } else {
        &&& stage matches RenameStage::AwaitingWorktree { choices } && choices@ == deletable(ws)
        &&& act matches RenameAction::Choose { prompt, items } && prompt@
            == "Select a worktree to rename (ESC to cancel)"@ && views(items@) == deletable(ws).map_values(
            |w: WorktreeInfo| worktree_line(w),
        )
    }
}

/// One step of the renaming dialogue; an answer of the wrong kind, or any
/// answer once it is over, stops it as cancelled.
pub open spec fn rename_transition(before: RenameStage, event: RenameEvent, after: RenameStage, act: RenameAction) -> bool {
    match before {
        RenameStage::AwaitingWorktree { choices } => match event {
            RenameEvent::Choice(Some(i)) => after == (RenameStage::AwaitingName { worktree: choices@[i as int] })
                && (act matches RenameAction::AskText { prompt } && prompt@ == new_name_prompt(
                choices@[i as int].name@,
            )),
            _ => rename_stops(after, act, RenameStop::Cancelled),
        },
        RenameStage::AwaitingName { worktree } => match event {
            RenameEvent::Text(Some(s)) => match rename_verdict(worktree.name@, trim(s@)) {
                Err(e) => rename_stops(after, act, RenameStop::Refused(e)),
                Ok(_) => match name_verdict(trim(s@)) {
                    Err(e) => rename_stops(after, act, RenameStop::InvalidName(e)),
                    Ok(n) => if branch_follows_name(worktree) {
                        &&& after matches RenameStage::AwaitingBranchChoice { worktree: w, new_name }
                            && w == worktree && new_name@ == n
                        &&& confirms(act, "Also rename the associated branch?"@, true)
                    } else {
                        goes_to_confirmation(after, act, worktree, n, false)
                    },
                },
            },
            _ => rename_stops(after, act, RenameStop::Cancelled),
        },
        RenameStage::AwaitingBranchChoice { worktree, new_name } => match event {
            RenameEvent::Confirmation(Some(b)) => goes_to_confirmation(after, act, worktree, new_name@, b),
            _ => rename_stops(after, act, RenameStop::Cancelled),
        },
        RenameStage::AwaitingConfirmation { config } => match event {
            RenameEvent::Confirmation(Some(true)) => after == RenameStage::Finished && act == RenameAction::Rename(
                config,
            ),
            _ => rename_stops(after, act, RenameStop::Cancelled),
        },
        RenameStage::Finished => rename_stops(after, act, RenameStop::Cancelled),
    }
}

/// A rename that passes the checks: neither name empty, a new name, no
/// main worktree involved, and a new name valid as it is.
pub open spec fn acceptable_rename(old: Seq<char>, new: Seq<char>) -> bool {
    rename_verdict(old, new) is Ok && valid_name(new)
}

/// What a stage has settled passes the checks.
pub open spec fn rename_stage_ok(s: RenameStage) -> bool {
    match s {
        RenameStage::AwaitingBranchChoice { worktree, new_name } => acceptable_rename(worktree.name@, new_name@),
        RenameStage::AwaitingConfirmation { config } => acceptable_rename(config.old_name@, config.new_name@),
        _ => true,
    }
}

/// What the answer must satisfy: a choice is one of those offered.
pub open spec fn rename_answer_fits(before: RenameStage, event: RenameEvent) -> bool {
    match before {
        RenameStage::AwaitingWorktree { choices } => match event {
            RenameEvent::Choice(Some(i)) => i < choices@.len(),
            _ => true,
        },
        _ => true,
    }
}

/// The dialogue of renaming a worktree.
pub struct RenameFlow {
    stage: RenameStage,
}

impl RenameFlow {
    #[verifier::type_invariant]
    spec fn settled_is_acceptable(self) -> bool {
        rename_stage_ok(self.stage)
    }

    /// Where the dialogue stands.
    pub closed spec fn stage(&self) -> RenameStage {
        self.stage
    }

    /// Where the dialogue stands.
    pub fn current(&self) -> (r: &RenameStage)
        ensures
            *r == self.stage(),
    {
        &self.stage
    }

    /// Opens the dialogue on the repository's worktrees `worktrees`: the
    /// current one is never offered.
    pub fn start(worktrees: &Vec<WorktreeInfo>) -> (r: (RenameFlow, RenameAction))
        ensures
            rename_opening(worktrees@, r.0.stage(), r.1),
    {
        if worktrees.len() == 0 {
            return (
                RenameFlow { stage: RenameStage::Finished },
                RenameAction::Stop(RenameStop::NoWorktrees),
            );
        }
        let choices = get_renameable_worktrees(worktrees);
        if choices.len() == 0 {
            return (
                RenameFlow { stage: RenameStage::Finished },
                RenameAction::Stop(RenameStop::NoneRenameable),
            );
        }
        let items = list_worktrees(&choices);
        assert(views(items@) =~= deletable(worktrees@).map_values(|w: WorktreeInfo| worktree_line(w)));
        (
            RenameFlow { stage: RenameStage::AwaitingWorktree { choices } },
            RenameAction::Choose { prompt: owned("Select a worktree to rename (ESC to cancel)"), items },
        )
    }

    fn finish(&mut self, s: RenameStop) -> (r: RenameAction)
        ensures
            final(self).stage() == RenameStage::Finished,
            r == RenameAction::Stop(s),
    {
        self.stage = RenameStage::Finished;
        RenameAction::Stop(s)
    }

    fn confirm_rename(&mut self, worktree: WorktreeInfo, new_name: String, with_branch: bool) -> (r: RenameAction)
        requires
            acceptable_rename(worktree.name@, new_name@),
        ensures
            goes_to_confirmation(final(self).stage(), r, worktree, new_name@, with_branch),
    {
        let analysis = analyze_rename_requirements(&worktree);
        let new_branch = new_branch_name(&analysis, new_name.as_str(), with_branch);
        match rename_config(&worktree, new_name.as_str(), new_branch, with_branch) {
            Ok(config) => {
                self.stage = RenameStage::AwaitingConfirmation { config };
                RenameAction::Confirm { prompt: owned("Proceed with rename?"), default: false }
            },
            Err(e) => self.finish(RenameStop::Refused(e)),
        }
    }

    /// Moves the dialogue on with the answer `event`.  A rename it asks
    /// for always passes the checks: both names non-empty and different,
    /// no main worktree involved, and the new name valid as it is.
    pub fn step(&mut self, event: RenameEvent) -> (r: RenameAction)
        requires
            rename_answer_fits(old(self).stage(), event),
        ensures
            rename_transition(old(self).stage(), event, final(self).stage(), r),
            r matches RenameAction::Rename(c) ==> acceptable_rename(c.old_name@, c.new_name@),
    {
        proof {
            use_type_invariant(&*self);
        }
        let mut stage = RenameStage::Finished;
        std::mem::swap(&mut stage, &mut self.stage);
        match stage {
            RenameStage::AwaitingWorktree { choices } => match event {
                RenameEvent::Choice(Some(i)) => {
                    let w = choices[i].duplicate();
                    let prompt = concat3("New name for '", w.name.as_str(), "' (ESC to cancel)");
                    self.stage = RenameStage::AwaitingName { worktree: w };
                    RenameAction::AskText { prompt }
                },
                _ => self.finish(RenameStop::Cancelled),
            },
            RenameStage::AwaitingName { worktree } => match event {
                RenameEvent::Text(Some(s)) => {
                    let t = trim_str(s.as_str());
                    match validate_rename_operation(worktree.name.as_str(), t.as_str()) {
                        Err(e) => self.finish(RenameStop::Refused(e)),
                        Ok(()) => match validate_worktree_name(t.as_str()) {
                            Err(e) => self.finish(RenameStop::InvalidName(e)),
                            Ok(n) => {
                                proof {
                                    crate::text::lemma_trim_idempotent(s@);
                                    crate::text::lemma_trim_idempotent(trim(s@));
                                }
                                if branch_follows(&worktree) {
                                    self.stage = RenameStage::AwaitingBranchChoice { worktree, new_name: n };
                                    RenameAction::Confirm {
                                        prompt: owned("Also rename the associated branch?"),
                                        default: true,
                                    }
                                } else {
                                    self.confirm_rename(worktree, n, false)
                                }
                            },
                        },
                    }
                },
                _ => self.finish(RenameStop::Cancelled),
            },
            RenameStage::AwaitingBranchChoice { worktree, new_name } => match event {
                RenameEvent::Confirmation(Some(b)) => self.confirm_rename(worktree, new_name, b),
                _ => self.finish(RenameStop::Cancelled),
            },
            RenameStage::AwaitingConfirmation { config } => match event {
                RenameEvent::Confirmation(Some(true)) => {
                    self.stage = RenameStage::Finished;
                    RenameAction::Rename(config)
                },
                _ => self.finish(RenameStop::Cancelled),
            },
            RenameStage::Finished => self.finish(RenameStop::Cancelled),
        }
    }
}

fn branch_follows(w: &WorktreeInfo) -> (r: bool)
    ensures
        r == branch_follows_name(*w),
{
    analyze_rename_requirements(w).can_rename_branch
}

} // verus!
