//! The worktree-creation dialogue as a state machine: each answer, of the
//! user or of the repository, moves it on and says what to do next, until
//! it either asks for the worktree to be created or stops.
#![verifier::loop_isolation(false)]

use vstd::prelude::*;
use crate::constants::{
    OPTION_CREATE_FROM_HEAD_FULL, OPTION_CUSTOM_PATH_FULL, OPTION_SELECT_BRANCH_FULL,
    OPTION_SELECT_TAG_FULL, PROMPT_CONFLICT_ACTION, PROMPT_CUSTOM_PATH, PROMPT_SELECT_BRANCH,
    PROMPT_SELECT_BRANCH_OPTION, PROMPT_SELECT_TAG, PROMPT_SELECT_WORKTREE_LOCATION,
    PROMPT_WORKTREE_NAME,
};
use crate::domain::validation::{custom_path_verdict, name_verdict};
use crate::string_map::StringMap;
use crate::text::{concat2, concat3, owned, trim, views};
use crate::usecases::create::{
    branch_choices, creation_call, custom_location, first_line, first_worktree_location,
    local_branch_item, location_options, pick_branch, remote_branch_item, resolve_branch_in_use,
    resolve_local_shadow, tag_choice, tag_item, uses_fuzzy_search, worktree_name_from_input,
    BranchPick, CreateError, CreationCall, cut_at,
};
use crate::text::utf8_len;

verus! {

/// Where the dialogue stands: what it waits for, and what it has settled.
/// `name` is the worktree's name, `target` where it goes.
pub enum CreateStage {
    /// The worktree name.
    AwaitingName,
    /// The location of the first worktree.
    AwaitingLocation { name: String },
    /// The custom directory of the first worktree.
    AwaitingCustomPath { name: String },
    /// Where the branch comes from: HEAD, a branch or a tag.
    AwaitingSource { name: String, target: String },
    /// The repository's branches.
    AwaitingBranches { name: String, target: String },
    /// The choice of a branch among `refs` (name, remote).
    AwaitingBranch {
        name: String,
        target: String,
        local: Vec<String>,
        refs: Vec<(String, bool)>,
        map: StringMap,
    },
    /// What to do about `branch`, checked out in `worktree`.
    AwaitingConflictChoice {
        name: String,
        target: String,
        branch: String,
        worktree: String,
        local: Vec<String>,
    },
    /// The name of a new branch based on `branch`.
    AwaitingBranchName { name: String, target: String, branch: String, local: Vec<String> },
    /// Whether to use the local `branch` or a new one from `origin/<branch>`.
    AwaitingShadowChoice { name: String, target: String, branch: String, map: StringMap },
    /// The repository's tags.
    AwaitingTags { name: String, target: String },
    /// The choice of a tag among `tags`.
    AwaitingTag { name: String, target: String, tags: Vec<String> },
    /// The dialogue is over.
    Finished,
}

/// An answer the dialogue waits for.
pub enum CreateEvent {
    /// A line of text; `None` when the prompt was cancelled.
    Text(Option<String>),
    /// The index of a choice; `None` when the prompt was cancelled.
    Choice(Option<usize>),
    /// The local and remote branches, and which worktree each checked-out
    /// branch is in.
    Branches { local: Vec<String>, remote: Vec<String>, map: StringMap },
    /// The tags with their messages.
    Tags(Vec<(String, Option<String>)>),
}

/// What the dialogue asks for next.
pub enum CreateAction {
    /// Ask for a line of text, offering `default`.
    AskText { prompt: String, default: Option<String> },
    /// Offer `items`, by fuzzy search when `fuzzy`.
    Choose { prompt: String, items: Vec<String>, fuzzy: bool },
    /// Read the branches of the repository.
    ReadBranches,
    /// Read the tags of the repository.
    ReadTags,
    /// Create the worktree `name` at `target` with `call`; the dialogue is
    /// over.
    Create { name: String, target: String, call: CreationCall },
    /// Stop without creating anything, for this reason.
    Stop(CreateError),
}

/// A name that passes validation as it is.
pub open spec fn valid_name(n: Seq<char>) -> bool {
    name_verdict(n) == Ok::<Seq<char>, crate::domain::validation::NameError>(n)
}

/// A place for the worktree `name`: the name itself, beside the
/// repository, or a custom path that passes validation.
pub open spec fn valid_target(name: Seq<char>, target: Seq<char>) -> bool {
    ||| target == name
    ||| target == "../"@ + name
    ||| target == "worktrees/"@ + name
    ||| custom_path_verdict(target) is Ok
}

/// What a stage has settled is valid.
pub open spec fn stage_ok(s: CreateStage) -> bool {
    match s {
        CreateStage::AwaitingName => true,
        CreateStage::Finished => true,
        CreateStage::AwaitingLocation { name } => valid_name(name@),
        CreateStage::AwaitingCustomPath { name } => valid_name(name@),
        CreateStage::AwaitingSource { name, target } => valid_name(name@) && valid_target(name@, target@),
        CreateStage::AwaitingBranches { name, target } => valid_name(name@) && valid_target(name@, target@),
        CreateStage::AwaitingBranch { name, target, local, refs, map } => valid_name(name@)
            && valid_target(name@, target@),
        CreateStage::AwaitingConflictChoice { name, target, branch, worktree, local } => valid_name(name@)
            && valid_target(name@, target@),
        CreateStage::AwaitingBranchName { name, target, branch, local } => valid_name(name@)
            && valid_target(name@, target@),
        CreateStage::AwaitingShadowChoice { name, target, branch, map } => valid_name(name@)
            && valid_target(name@, target@),
        CreateStage::AwaitingTags { name, target } => valid_name(name@) && valid_target(name@, target@),
        CreateStage::AwaitingTag { name, target, tags } => valid_name(name@) && valid_target(name@, target@),
    }
}

/// The choices for the first worktree's location.
pub open spec fn location_items(name: Seq<char>, repo: Seq<char>) -> Seq<Seq<char>> {
    seq![
        "Same level as repository (../"@ + name + ")"@,
        "In subdirectory ("@ + repo + "/worktrees/"@ + name + ")"@,
        OPTION_CUSTOM_PATH_FULL@,
    ]
}

/// The choices for where the branch comes from.
pub open spec fn source_items() -> Seq<Seq<char>> {
    seq![OPTION_CREATE_FROM_HEAD_FULL@, OPTION_SELECT_BRANCH_FULL@, OPTION_SELECT_TAG_FULL@]
}

/// The choices when the chosen local branch is checked out elsewhere.
pub open spec fn conflict_items(name: Seq<char>, branch: Seq<char>) -> Seq<Seq<char>> {
    seq![
        "Create new branch '"@ + name + "' from '"@ + branch + "'"@,
        "Change the branch name"@,
        "Cancel"@,
    ]
}

/// The choices when a local branch has the chosen remote branch's name.
pub open spec fn shadow_items(name: Seq<char>, branch: Seq<char>, map: Map<Seq<char>, Seq<char>>) -> Seq<Seq<char>> {
    seq![
        "Create new branch '"@ + name + "' from 'origin/"@ + branch + "'"@,
        if map.contains_key(branch) {
            "Use the existing local branch instead (in use by '"@ + map[branch] + "')"@
        } else {
            "Use the existing local branch instead"@
        },
        "Cancel"@,
    ]
}

/// The prompt for a new branch's name.
pub open spec fn branch_name_prompt(branch: Seq<char>) -> Seq<char> {
    "Enter new branch name (base: "@ + branch + ")"@
}

/// `act` offers `items` under `prompt`.
pub open spec fn offers(act: CreateAction, prompt: Seq<char>, items: Seq<Seq<char>>, fuzzy: bool) -> bool {
    act matches CreateAction::Choose { prompt: p, items: i, fuzzy: f } && p@ == prompt && views(i@)
        == items && f == fuzzy
}

/// `act` asks for text under `prompt`, offering `default`.
pub open spec fn asks(act: CreateAction, prompt: Seq<char>, default: Option<Seq<char>>) -> bool {
    act matches CreateAction::AskText { prompt: p, default: d } && p@ == prompt && crate::pathname::opt_view(d)
        == default
}

/// `act` creates `name` at `target` with a call from `branch` and
/// `new_branch`.
pub open spec fn creates(act: CreateAction, name: Seq<char>, target: Seq<char>, branch: Option<Seq<char>>, new_branch: Option<Seq<char>>) -> bool {
    act matches CreateAction::Create { name: n, target: t, call } && n@ == name && t@ == target && match call {
        CreationCall::WithNewBranch { new_branch: nb, base } => new_branch == Some(nb@) && branch == Some(base@),
        CreationCall::Plain { branch: b } => new_branch is None && crate::pathname::opt_view(b) == branch,
    }
}

/// Every message whose first line is cut for display can be cut at 50
/// bytes.
pub open spec fn tag_messages_cuttable(tags: Seq<(String, Option<String>)>) -> bool {
    forall|i: int| 0 <= i < tags.len() ==> (#[trigger] tags[i]).1 is Some && utf8_len(first_line(tags[i].1->0@)) > 50
        ==> cut_at(first_line(tags[i].1->0@), 50)
}

/// The branch choices for `local` and `remote` branches.
pub open spec fn branch_items(local: Seq<String>, remote: Seq<String>, map: Map<Seq<char>, Seq<char>>) -> Seq<Seq<char>> {
    Seq::new(
        local.len() + remote.len(),
        |i: int|
            if i < local.len() {
                local_branch_item(local[i]@, map)
            } else {
                remote_branch_item(remote[i - local.len()]@, map)
            },
    )
}

/// Each branch choice's branch name and whether it is remote.
pub open spec fn branch_refs(local: Seq<String>, remote: Seq<String>) -> Seq<(Seq<char>, bool)> {
    Seq::new(
        local.len() + remote.len(),
        |i: int|
            if i < local.len() {
                (local[i]@, false)
            } else {
                (remote[i - local.len()]@, true)
            },
    )
}

/// The view of branch references.
pub open spec fn refs_view(refs: Seq<(String, bool)>) -> Seq<(Seq<char>, bool)> {
    refs.map_values(|r: (String, bool)| (r.0@, r.1))
}

/// The tag choices.
pub open spec fn tag_items(tags: Seq<(String, Option<String>)>) -> Seq<Seq<char>> {
    tags.map_values(|t: (String, Option<String>)| tag_item(t.0@, crate::pathname::opt_view(t.1)))
}

/// The tag names.
pub open spec fn tag_names(tags: Seq<(String, Option<String>)>) -> Seq<Seq<char>> {
    tags.map_values(|t: (String, Option<String>)| t.0@)
}

/// The dialogue stops with `e`.
pub open spec fn stops(after: CreateStage, act: CreateAction, e: CreateError) -> bool {
    after == CreateStage::Finished && act == CreateAction::Stop(e)
}

/// The dialogue goes on to ask where the branch comes from.
pub open spec fn asks_source(after: CreateStage, act: CreateAction, name: Seq<char>, target: Seq<char>) -> bool {
    after matches CreateStage::AwaitingSource { name: n, target: t } && n@ == name && t@ == target
        && offers(act, PROMPT_SELECT_BRANCH_OPTION@, source_items(), false)
}

/// The dialogue ends by creating `name` at `target`.
pub open spec fn ends_creating(after: CreateStage, act: CreateAction, name: Seq<char>, target: Seq<char>, branch: Option<Seq<char>>, new_branch: Option<Seq<char>>) -> bool {
    after == CreateStage::Finished && creates(act, name, target, branch, new_branch)
}

/// One step of the dialogue: from stage `before` (of a repository's first
/// worktree, in the repository named `r`, when `first` is `Some(r)`), the answer `event` leads to stage `after` and
/// the request `act`.  An answer of the wrong kind, or any answer once the
/// dialogue is over, stops it as cancelled.
pub open spec fn transition(before: CreateStage, first: Option<Seq<char>>, event: CreateEvent, after: CreateStage, act: CreateAction) -> bool {
    match before {
        CreateStage::AwaitingName => match event {
            CreateEvent::Text(Some(s)) => if trim(s@).len() == 0 {
                stops(after, act, CreateError::EmptyName)
            } else {
                match name_verdict(trim(s@)) {
                    Err(e) => stops(after, act, CreateError::InvalidName(e)),
                    Ok(n) => match first {
                        Some(repo) => after matches CreateStage::AwaitingLocation { name } && name@ == n
                            && offers(act, PROMPT_SELECT_WORKTREE_LOCATION@, location_items(n, repo), false),
                        None => asks_source(after, act, n, n),
                    },
                }
            },
            _ => stops(after, act, CreateError::Cancelled),
        },
        CreateStage::AwaitingLocation { name } => match event {
            CreateEvent::Choice(Some(k)) => if k == 0 {
                asks_source(after, act, name@, "../"@ + name@)
            } else if k == 1 {
                asks_source(after, act, name@, "worktrees/"@ + name@)
            } else if k == 2 {
                after == (CreateStage::AwaitingCustomPath { name }) && asks(act, PROMPT_CUSTOM_PATH@, None)
            } else {
                stops(after, act, CreateError::InvalidLocationSelection(k))
            },
            _ => stops(after, act, CreateError::Cancelled),
        },
        CreateStage::AwaitingCustomPath { name } => match event {
            CreateEvent::Text(Some(s)) => if trim(s@).len() == 0 {
                stops(after, act, CreateError::CustomPathEmpty)
            } else {
                match custom_path_verdict(custom_location(trim(s@), name@)) {
                    Ok(_) => asks_source(after, act, name@, custom_location(trim(s@), name@)),
                    Err(e) => stops(after, act, CreateError::InvalidCustomPath(e)),
                }
            },
            _ => stops(after, act, CreateError::Cancelled),
        },
        CreateStage::AwaitingSource { name, target } => match event {
            CreateEvent::Choice(Some(k)) => if k == 1 {
                after == (CreateStage::AwaitingBranches { name, target }) && act == CreateAction::ReadBranches
            } else if k == 2 {
                after == (CreateStage::AwaitingTags { name, target }) && act == CreateAction::ReadTags
            } else {
                ends_creating(after, act, name@, target@, None, None)
            },
            _ => stops(after, act, CreateError::Cancelled),
        },
        CreateStage::AwaitingBranches { name, target } => match event {
            CreateEvent::Branches { local, remote, map } => if local@.len() == 0 && remote@.len() == 0 {
                ends_creating(after, act, name@, target@, None, None)
            } else {
                &&& after matches CreateStage::AwaitingBranch { name: n, target: t, local: l, refs, map: m }
                    && n == name && t == target && l == local && m == map && refs_view(refs@)
                    == branch_refs(local@, remote@)
                &&& offers(
                    act,
                    PROMPT_SELECT_BRANCH@,
                    branch_items(local@, remote@, map@),
                    local@.len() + remote@.len() > 5,
                )
            },
            _ => stops(after, act, CreateError::Cancelled),
        },
        CreateStage::AwaitingBranch { name, target, local, refs, map } => match event {
            CreateEvent::Choice(Some(i)) => {
                let b = refs@[i as int].0@;
                if !refs@[i as int].1 {
                    if map@.contains_key(b) {
                        &&& after matches CreateStage::AwaitingConflictChoice { name: n, target: t, branch, worktree, local: l }
                            && n == name && t == target && branch@ == b && worktree@ == map@[b] && l == local
                        &&& offers(act, PROMPT_CONFLICT_ACTION@, conflict_items(name@, b), false)
                    } else {
                        ends_creating(after, act, name@, target@, Some(b), None)
                    }
                } else if views(local@).contains(b) {
                    &&& after matches CreateStage::AwaitingShadowChoice { name: n, target: t, branch, map: m }
                        && n == name && t == target && branch@ == b && m == map
                    &&& offers(act, PROMPT_CONFLICT_ACTION@, shadow_items(name@, b, map@), false)
                } else {
                    ends_creating(after, act, name@, target@, Some("origin/"@ + b), None)
                }
            },
            _ => stops(after, act, CreateError::Cancelled),
        },
        CreateStage::AwaitingConflictChoice { name, target, branch, worktree, local } => match event {
            CreateEvent::Choice(Some(k)) => if k == 0 {
                ends_creating(after, act, name@, target@, Some(branch@), Some(name@))
            } else if k == 1 {
                after == (CreateStage::AwaitingBranchName { name, target, branch, local }) && asks(
                    act,
                    branch_name_prompt(branch@),
                    Some(name@),
                )
            } else {
                stops(after, act, CreateError::Cancelled)
            },
            _ => stops(after, act, CreateError::Cancelled),
        },
        CreateStage::AwaitingBranchName { name, target, branch, local } => match event {
            CreateEvent::Text(Some(s)) => if trim(s@).len() == 0 {
                stops(after, act, CreateError::EmptyBranchName)
            } else if views(local@).contains(trim(s@)) {
                after == CreateStage::Finished && (act matches CreateAction::Stop(CreateError::BranchExists(n))
                    && n@ == trim(s@))
            } else {
                ends_creating(after, act, name@, target@, Some(branch@), Some(trim(s@)))
            },
            _ => stops(after, act, CreateError::Cancelled),
        },
        CreateStage::AwaitingShadowChoice { name, target, branch, map } => match event {
            CreateEvent::Choice(Some(k)) => if k == 0 {
                ends_creating(after, act, name@, target@, Some("origin/"@ + branch@), Some(name@))
            } else if k == 1 {
                if map@.contains_key(branch@) {
                    after == CreateStage::Finished && (act matches CreateAction::Stop(
                        CreateError::BranchInUse(b, w),
                    ) && b@ == branch@ && w@ == map@[branch@])
                } else {
                    ends_creating(after, act, name@, target@, Some(branch@), None)
                }
            } else {
                stops(after, act, CreateError::Cancelled)
            },
            _ => stops(after, act, CreateError::Cancelled),
        },
        CreateStage::AwaitingTags { name, target } => match event {
            CreateEvent::Tags(ts) => if ts@.len() == 0 {
                ends_creating(after, act, name@, target@, None, None)
            } else {
                &&& after matches CreateStage::AwaitingTag { name: n, target: t, tags } && n == name
                    && t == target && views(tags@) == tag_names(ts@)
                &&& offers(act, PROMPT_SELECT_TAG@, tag_items(ts@), ts@.len() > 5)
            },
            _ => stops(after, act, CreateError::Cancelled),
        },
        CreateStage::AwaitingTag { name, target, tags } => match event {
            CreateEvent::Choice(Some(i)) => ends_creating(
                after,
                act,
                name@,
                target@,
                Some(tags@[i as int]@),
                Some(name@),
            ),
            _ => stops(after, act, CreateError::Cancelled),
        },
        CreateStage::Finished => stops(after, act, CreateError::Cancelled),
    }
}

/// What the answer `event` must satisfy at stage `before`: a choice is
/// one of the offered items, and tag messages can be cut for display.
pub open spec fn answer_fits(before: CreateStage, event: CreateEvent) -> bool {
    match before {
        CreateStage::AwaitingBranch { refs, .. } => match event {
            CreateEvent::Choice(Some(i)) => i < refs@.len(),
            _ => true,
        },
        CreateStage::AwaitingTag { tags, .. } => match event {
            CreateEvent::Choice(Some(i)) => i < tags@.len(),
            _ => true,
        },
        CreateStage::AwaitingTags { .. } => match event {
            CreateEvent::Tags(ts) => tag_messages_cuttable(ts@),
            _ => true,
        },
        _ => true,
    }
}

proof fn lemma_validated_name_is_valid(x: Seq<char>, n: Seq<char>)
    requires
        name_verdict(x) == Ok::<Seq<char>, crate::domain::validation::NameError>(n),
    ensures
        valid_name(n),
{
    crate::text::lemma_trim_idempotent(x);
}

/// The choices offered when the chosen local branch is in use.
fn conflict_choices(name: &str, branch: &str) -> (r: Vec<String>)
    ensures
        views(r@) == conflict_items(name@, branch@),
{
    let mut first = concat3("Create new branch '", name, "' from '");
    first.append(branch);
    first.append("'");
    let r = vec![first, owned("Change the branch name"), owned("Cancel")];
    assert(views(r@) =~= conflict_items(name@, branch@));
    r
}

/// The choices offered when a local branch has the remote branch's name.
fn shadow_choices(name: &str, branch: &str, map: &StringMap) -> (r: Vec<String>)
    ensures
        views(r@) == shadow_items(name@, branch@, map@),
{
    let mut first = concat3("Create new branch '", name, "' from 'origin/");
    first.append(branch);
    first.append("'");
    let second = match map.get(branch) {
        Some(w) => {
            let mut x = concat2("Use the existing local branch instead (in use by '", w.as_str());
            x.append("')");
            x
        },
        None => owned("Use the existing local branch instead"),
    };
    let r = vec![first, second, owned("Cancel")];
    assert(views(r@) =~= shadow_items(name@, branch@, map@));
    r
}

/// The tag choices and the tag names, in order.
fn tag_choices(ts: &Vec<(String, Option<String>)>) -> (r: (Vec<String>, Vec<String>))
    requires
        tag_messages_cuttable(ts@),
    ensures
        views(r.0@) == tag_items(ts@),
        views(r.1@) == tag_names(ts@),
{
    let mut items: Vec<String> = Vec::new();
    let mut names: Vec<String> = Vec::new();
    let mut i: usize = 0;
    while i < ts.len()
        invariant
            i <= ts.len(),
            tag_messages_cuttable(ts@),
            views(items@) == tag_items(ts@).take(i as int),
            views(names@) == tag_names(ts@).take(i as int),
        decreases ts.len() - i,
    {
        assert(ts@[i as int] == ts@[i as int]);
        let item = tag_choice(ts[i].0.as_str(), &ts[i].1);
        let ghost prev_items = items@;
        let ghost prev_names = names@;
        items.push(item);
        names.push(owned(ts[i].0.as_str()));
        assert(views(items@) =~= tag_items(ts@).take(i + 1));
        assert(views(names@) =~= tag_names(ts@).take(i + 1));
        i = i + 1;
    }
    assert(tag_items(ts@).take(ts@.len() as int) =~= tag_items(ts@));
    assert(tag_names(ts@).take(ts@.len() as int) =~= tag_names(ts@));
    (items, names)
}

/// The dialogue of creating a worktree.
pub struct CreateFlow {
    stage: CreateStage,
    first: Option<String>,
}

impl CreateFlow {
    #[verifier::type_invariant]
    spec fn settled_is_valid(self) -> bool {
        stage_ok(self.stage)
    }

    /// Where the dialogue stands.
    pub closed spec fn stage(&self) -> CreateStage {
        self.stage
    }

    /// The repository's name when this is its first worktree.
    pub closed spec fn first_repo(&self) -> Option<Seq<char>> {
        crate::pathname::opt_view(self.first)
    }

    /// Whether this is the repository's first worktree.
    pub open spec fn is_first(&self) -> bool {
        self.first_repo() is Some
    }

    /// Starts the dialogue; `has_worktrees` tells whether the repository
    /// `repo_name` has worktrees already.  It first asks for the name.
    pub fn start(has_worktrees: bool, repo_name: &str) -> (r: (CreateFlow, CreateAction))
        ensures
            r.0.stage() == CreateStage::AwaitingName,
            r.0.first_repo() == (if has_worktrees { None } else { Some(repo_name@) }),
            asks(r.1, PROMPT_WORKTREE_NAME@, None),
    {
        let first = if has_worktrees {
            None
        } else {
            Some(owned(repo_name))
        };
        (
            CreateFlow { stage: CreateStage::AwaitingName, first },
            CreateAction::AskText { prompt: owned(PROMPT_WORKTREE_NAME), default: None },
        )
    }

    /// Where the dialogue stands.
    pub fn current(&self) -> (r: &CreateStage)
        ensures
            *r == self.stage(),
    {
        &self.stage
    }

    fn finish(&mut self, e: CreateError) -> (r: CreateAction)
        ensures
            final(self).stage() == CreateStage::Finished,
            final(self).first_repo() == old(self).first_repo(),
            r == CreateAction::Stop(e),
    {
        self.stage = CreateStage::Finished;
        CreateAction::Stop(e)
    }

    fn ask_source(&mut self, name: String, target: String) -> (r: CreateAction)
        requires
            valid_name(name@),
            valid_target(name@, target@),
        ensures
            final(self).stage() == (CreateStage::AwaitingSource { name, target }),
            final(self).first_repo() == old(self).first_repo(),
            offers(r, PROMPT_SELECT_BRANCH_OPTION@, source_items(), false),
    {
        self.stage = CreateStage::AwaitingSource { name, target };
        let items = vec![
            owned(OPTION_CREATE_FROM_HEAD_FULL),
            owned(OPTION_SELECT_BRANCH_FULL),
            owned(OPTION_SELECT_TAG_FULL),
        ];
        assert(views(items@) =~= source_items());
        CreateAction::Choose { prompt: owned(PROMPT_SELECT_BRANCH_OPTION), items, fuzzy: false }
    }

    fn create(&mut self, name: String, target: String, branch: Option<String>, new_branch: Option<String>) -> (r: CreateAction)
        requires
            new_branch is Some ==> branch is Some,
        ensures
            final(self).stage() == CreateStage::Finished,
            final(self).first_repo() == old(self).first_repo(),
            creates(r, name@, target@, crate::pathname::opt_view(branch), crate::pathname::opt_view(new_branch)),
            r matches CreateAction::Create { name: n, target: t, call } ==> n == name && t == target,
    {
        self.stage = CreateStage::Finished;
        let call = creation_call(branch, new_branch);
        CreateAction::Create { name, target, call }
    }

    /// Moves the dialogue on with the answer `event` and says what to do
    /// next.  Every worktree it asks to create has a name that passes
    /// validation as it is and a place that is the name itself, beside the
    /// repository, or a valid custom path.
    pub fn step(&mut self, event: CreateEvent) -> (r: CreateAction)
        requires
            answer_fits(old(self).stage(), event),
        ensures
            transition(old(self).stage(), old(self).first_repo(), event, final(self).stage(), r),
            final(self).first_repo() == old(self).first_repo(),
            r matches CreateAction::Create { name, target, .. } ==> valid_name(name@) && valid_target(
                name@,
                target@,
            ),
    {
        proof {
            use_type_invariant(&*self);
        }
        let mut stage = CreateStage::Finished;
        std::mem::swap(&mut stage, &mut self.stage);
        match stage {
            CreateStage::AwaitingName => match event {
                CreateEvent::Text(Some(s)) => match worktree_name_from_input(s.as_str()) {
                    Err(e) => self.finish(e),
                    Ok(n) => {
                        proof {
                            lemma_validated_name_is_valid(trim(s@), n@);
                        }
                        if let Some(repo) = &self.first {
                            let items = location_options(n.as_str(), repo.as_str());
                            assert(views(items@) =~= location_items(n@, repo@));
                            self.stage = CreateStage::AwaitingLocation { name: n };
                            CreateAction::Choose { prompt: owned(PROMPT_SELECT_WORKTREE_LOCATION), items, fuzzy: false }
                        } else {
                            let t = owned(n.as_str());
                            self.ask_source(n, t)
                        }
                    },
                },
                _ => self.finish(CreateError::Cancelled),
            },
            CreateStage::AwaitingLocation { name } => match event {
                CreateEvent::Choice(Some(k)) => {
                    if k == 2 {
                        self.stage = CreateStage::AwaitingCustomPath { name };
                        CreateAction::AskText { prompt: owned(PROMPT_CUSTOM_PATH), default: None }
                    } else {
                        match first_worktree_location(name.as_str(), k, None) {
                            Ok(p) => self.ask_source(name, p),
                            Err(e) => self.finish(e),
                        }
                    }
                },
                _ => self.finish(CreateError::Cancelled),
            },
            CreateStage::AwaitingCustomPath { name } => match event {
                CreateEvent::Text(Some(s)) => match first_worktree_location(name.as_str(), 2, Some(s.as_str())) {
                    Ok(p) => self.ask_source(name, p),
                    Err(e) => self.finish(e),
                },
                _ => self.finish(CreateError::Cancelled),
            },
            CreateStage::AwaitingSource { name, target } => match event {
                CreateEvent::Choice(Some(k)) => {
                    if k == 1 {
                        self.stage = CreateStage::AwaitingBranches { name, target };
                        CreateAction::ReadBranches
                    } else if k == 2 {
                        self.stage = CreateStage::AwaitingTags { name, target };
                        CreateAction::ReadTags
                    } else {
                        self.create(name, target, None, None)
                    }
                },
                _ => self.finish(CreateError::Cancelled),
            },
            CreateStage::AwaitingBranches { name, target } => match event {
                CreateEvent::Branches { local, remote, map } => {
                    if local.len() == 0 && remote.len() == 0 {
                        self.create(name, target, None, None)
                    } else {
                        let (items, refs) = branch_choices(&local, &remote, &map);
                        let fuzzy = uses_fuzzy_search(items.len());
                        assert(views(items@) =~= branch_items(local@, remote@, map@));
                        assert forall|j: int| 0 <= j < refs@.len() implies refs_view(refs@)[j] == branch_refs(
                            local@,
                            remote@,
                        )[j] by {
                            assert(refs@.len() == local@.len() + remote@.len());
                            if j < local@.len() {
                                assert(items@[j]@ == local_branch_item(local@[j]@, map@));
                                assert(refs@[j].0 == local@[j]);
                                assert(!refs@[j].1);
                            } else {
                                assert(items@[j]@ == remote_branch_item(remote@[j - local@.len()]@, map@));
                                assert(refs@[j].0 == remote@[j - local@.len()]);
                                assert(refs@[j].1);
                            }
                        }
                        assert(refs_view(refs@) =~= branch_refs(local@, remote@));
                        self.stage = CreateStage::AwaitingBranch { name, target, local, refs, map };
                        CreateAction::Choose { prompt: owned(PROMPT_SELECT_BRANCH), items, fuzzy }
                    }
                },
                _ => self.finish(CreateError::Cancelled),
            },
            CreateStage::AwaitingBranch { name, target, local, refs, map } => match event {
                CreateEvent::Choice(Some(i)) => {
                    let picked = pick_branch(refs[i].0.as_str(), refs[i].1, &local, &map);
                    match picked {
                        BranchPick::Use(chosen) => self.create(name, target, Some(chosen), None),
                        BranchPick::LocalInUse { branch, worktree } => {
                            let items = conflict_choices(name.as_str(), branch.as_str());
                            self.stage = CreateStage::AwaitingConflictChoice { name, target, branch, worktree, local };
                            CreateAction::Choose { prompt: owned(PROMPT_CONFLICT_ACTION), items, fuzzy: false }
                        },
                        BranchPick::LocalShadowsRemote { branch } => {
                            let items = shadow_choices(name.as_str(), branch.as_str(), &map);
                            self.stage = CreateStage::AwaitingShadowChoice { name, target, branch, map };
                            CreateAction::Choose { prompt: owned(PROMPT_CONFLICT_ACTION), items, fuzzy: false }
                        },
                    }
                },
                _ => self.finish(CreateError::Cancelled),
            },
            CreateStage::AwaitingConflictChoice { name, target, branch, worktree, local } => match event {
                CreateEvent::Choice(Some(k)) => {
                    if k == 1 {
                        let prompt = concat3("Enter new branch name (base: ", branch.as_str(), ")");
                        let d = owned(name.as_str());
                        self.stage = CreateStage::AwaitingBranchName { name, target, branch, local };
                        CreateAction::AskText { prompt, default: Some(d) }
                    } else {
                        match resolve_branch_in_use(branch.as_str(), name.as_str(), k, None, &local) {
                            Ok((b, n)) => self.create(name, target, Some(b), Some(n)),
                            Err(e) => self.finish(e),
                        }
                    }
                },
                _ => self.finish(CreateError::Cancelled),
            },
            CreateStage::AwaitingBranchName { name, target, branch, local } => match event {
                CreateEvent::Text(Some(s)) => match resolve_branch_in_use(
                    branch.as_str(),
                    name.as_str(),
                    1,
                    Some(s.as_str()),
                    &local,
                ) {
                    Ok((b, n)) => self.create(name, target, Some(b), Some(n)),
                    Err(e) => self.finish(e),
                },
                _ => self.finish(CreateError::Cancelled),
            },
            CreateStage::AwaitingShadowChoice { name, target, branch, map } => match event {
                CreateEvent::Choice(Some(k)) => match resolve_local_shadow(branch.as_str(), name.as_str(), k, &map) {
                    Ok((b, nb)) => self.create(name, target, Some(b), nb),
                    Err(e) => self.finish(e),
                },
                _ => self.finish(CreateError::Cancelled),
            },
            CreateStage::AwaitingTags { name, target } => match event {
                CreateEvent::Tags(ts) => {
                    if ts.len() == 0 {
                        self.create(name, target, None, None)
                    } else {
                        let (items, names) = tag_choices(&ts);
                        assert(views(items@).len() == items@.len() && tag_items(ts@).len() == ts@.len());
                        let fuzzy = uses_fuzzy_search(items.len());
                        self.stage = CreateStage::AwaitingTag { name, target, tags: names };
                        CreateAction::Choose { prompt: owned(PROMPT_SELECT_TAG), items, fuzzy }
                    }
                },
                _ => self.finish(CreateError::Cancelled),
            },
            CreateStage::AwaitingTag { name, target, tags } => match event {
                CreateEvent::Choice(Some(i)) => {
                    let t = owned(tags[i].as_str());
                    let n = owned(name.as_str());
                    self.create(name, target, Some(t), Some(n))
                },
                _ => self.finish(CreateError::Cancelled),
            },
            CreateStage::Finished => self.finish(CreateError::Cancelled),
        }
    }
}

} // verus!
