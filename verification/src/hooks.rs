//! Hooks: commands the configuration attaches to worktree events
//! (`post-create`, `pre-remove`, `post-switch`), with the placeholders
//! `{{worktree_name}}` and `{{worktree_path}}` filled in, run only once the
//! user agrees.
#![verifier::loop_isolation(false)]

use vstd::prelude::*;
use crate::constants::{TEMPLATE_WORKTREE_NAME, TEMPLATE_WORKTREE_PATH};
use crate::string_map::KeyedMap;
use crate::text::{chars_of, concat3, replace_all, replace_chars, string_from_chars};
use crate::ui::{Asked, DialoguerUI, UiError, UserInterface};

verus! {

/// The worktree a hook runs for.
pub struct HookContext {
    /// The worktree's name.
    pub worktree_name: String,
    /// The worktree's path; hooks run there.
    pub worktree_path: String,
}

/// `cmd` with `{{worktree_name}}` and then `{{worktree_path}}` replaced by
/// the context's name and path.
pub open spec fn expanded(cmd: Seq<char>, name: Seq<char>, path: Seq<char>) -> Seq<char> {
    replace_all(replace_all(cmd, "{{worktree_name}}"@, name), "{{worktree_path}}"@, path)
}

/// `cmd` with the placeholders filled in from `context`.
pub fn expand_hook_command(cmd: &str, context: &HookContext) -> (r: String)
    ensures
        r@ == expanded(cmd@, context.worktree_name@, context.worktree_path@),
{
    proof {
        reveal_strlit("{{worktree_name}}");
        reveal_strlit("{{worktree_path}}");
    }
    let c = chars_of(cmd);
    let name_pat = chars_of(TEMPLATE_WORKTREE_NAME);
    let path_pat = chars_of(TEMPLATE_WORKTREE_PATH);
    let name = chars_of(context.worktree_name.as_str());
    let path = chars_of(context.worktree_path.as_str());
    let once = replace_chars(c.as_slice(), name_pat.as_slice(), name.as_slice());
    let twice = replace_chars(once.as_slice(), path_pat.as_slice(), path.as_slice());
    string_from_chars(twice.as_slice())
}

/// The commands configured for `hook_type`, expanded for the context.
pub open spec fn hook_commands_spec(
    hooks: Map<Seq<char>, Seq<String>>,
    hook_type: Seq<char>,
    name: Seq<char>,
    path: Seq<char>,
) -> Seq<Seq<char>> {
    if hooks.contains_key(hook_type) {
        hooks[hook_type].map_values(|c: String| expanded(c@, name, path))
    } else {
        Seq::empty()
    }
}

/// The commands configured for `hook_type`, expanded for `context`, in
/// order; none when the hook is not configured.
pub fn hook_commands(hooks: &KeyedMap<Vec<String>>, hook_type: &str, context: &HookContext) -> (r: Vec<String>)
    ensures
        r@.map_values(|s: String| s@) == hook_commands_spec(
            hooks@,
            hook_type@,
            context.worktree_name@,
            context.worktree_path@,
        ),
{
    let mut r: Vec<String> = Vec::new();
    match hooks.get(hook_type) {
        None => {
            assert(r@.map_values(|s: String| s@) =~= Seq::<Seq<char>>::empty());
        },
        Some(cmds) => {
            let ghost target = hook_commands_spec(
                hooks@,
                hook_type@,
                context.worktree_name@,
                context.worktree_path@,
            );
            let mut i: usize = 0;
            while i < cmds.len()
                invariant
                    i <= cmds.len(),
                    cmds@ == hooks@[hook_type@],
                    target.len() == cmds@.len(),
                    r@.map_values(|s: String| s@) == target.subrange(0, i as int),
                decreases cmds.len() - i,
            {
                let ghost prev = r@;
                r.push(expand_hook_command(cmds[i].as_str(), context));
                assert(r@.map_values(|s: String| s@) =~= prev.map_values(|s: String| s@).push(
                    target[i as int],
                ));
                assert(target.subrange(0, i + 1) =~= target.subrange(0, i as int).push(target[i as int]));
                i = i + 1;
            }
            assert(target.subrange(0, cmds.len() as int) =~= target);
        },
    }
    r
}

/// What happens with a hook.
pub enum HookOutcome {
    /// No commands are configured for it.
    NoHooks,
    /// The user declined to run the commands.
    Declined,
    /// These commands are to be run, in order, in the worktree.
    Run(Vec<String>),
}

/// The outcome once the user has been asked about running `commands`: a
/// failed prompt counts as a refusal.
pub fn hooks_to_run(commands: Vec<String>, answer: Result<bool, UiError>) -> (r: HookOutcome)
    ensures
        commands@.len() == 0 ==> r is NoHooks,
        commands@.len() > 0 && answer == Ok::<bool, UiError>(true) ==> r == HookOutcome::Run(
            commands,
        ),
        commands@.len() > 0 && answer != Ok::<bool, UiError>(true) ==> r is Declined,
{
    if commands.len() == 0 {
        return HookOutcome::NoHooks;
    }
    let confirmed = match answer {
        Ok(b) => b,
        Err(_) => false,
    };
    if confirmed {
        HookOutcome::Run(commands)
    } else {
        HookOutcome::Declined
    }
}

/// The question asked before running `hook_type` hooks.
pub fn confirmation_prompt(hook_type: &str) -> (r: String)
    ensures
        r@ == "Execute "@ + hook_type@ + " hooks?"@,
{
    concat3("Execute ", hook_type, " hooks?")
}

/// How the `hook_type` hooks of `hooks` for the worktree `name` at `path`
/// are decided, the questions asked going from `before` to `after`:
/// without commands nothing is asked and nothing runs; otherwise the one
/// question `Execute <hook_type> hooks?` is asked with the default yes,
/// and the expanded commands run, in order, exactly when the answer is yes.
pub open spec fn hooks_decided(
    hooks: Map<Seq<char>, Seq<String>>,
    hook_type: Seq<char>,
    name: Seq<char>,
    path: Seq<char>,
    before: Seq<Asked>,
    after: Seq<Asked>,
    r: HookOutcome,
) -> bool {
    let cmds = hook_commands_spec(hooks, hook_type, name, path);
    if cmds.len() == 0 {
        after == before && r is NoHooks
    } else {
        &&& after.len() == before.len() + 1
        &&& after.drop_last() == before
        &&& after.last() matches Asked::YesNo { prompt, default, answer }
        &&& prompt == "Execute "@ + hook_type + " hooks?"@
        &&& default == Some(true)
        &&& answer == Ok::<bool, UiError>(true) ==> (r matches HookOutcome::Run(v) && v@.map_values(
            |s: String| s@,
        ) == cmds)
        &&& answer != Ok::<bool, UiError>(true) ==> r is Declined
    }
}

/// Decides about the `hook_type` hooks of `hooks` for `context`: without
/// commands nothing is asked; otherwise the user is asked (default yes)
/// and the expanded commands are to be run if the user agrees.
pub fn execute_hooks_with_ui<U: UserInterface>(
    hook_type: &str,
    context: &HookContext,
    hooks: &KeyedMap<Vec<String>>,
    ui: &mut U,
) -> (r: HookOutcome)
    ensures
        hooks_decided(
            hooks@,
            hook_type@,
            context.worktree_name@,
            context.worktree_path@,
            old(ui).asked(),
            final(ui).asked(),
            r,
        ),
        hook_commands_spec(hooks@, hook_type@, context.worktree_name@, context.worktree_path@).len()
            == 0 ==> *final(ui) == *old(ui),
{
    let commands = hook_commands(hooks, hook_type, context);
    if commands.len() == 0 {
        return HookOutcome::NoHooks;
    }
    let prompt = confirmation_prompt(hook_type);
    let answer = ui.confirm_with_default(prompt.as_str(), true);
    let r = hooks_to_run(commands, answer);
    proof {
        assert(final(ui).asked().drop_last() =~= old(ui).asked());
    }
    r
}

/// Decides about the `hook_type` hooks, asking on the terminal: it
/// decides as `execute_hooks_with_ui` does with a terminal interface that
/// has asked nothing yet.
pub fn execute_hooks(hook_type: &str, context: &HookContext, hooks: &KeyedMap<Vec<String>>) -> (r: HookOutcome)
    ensures
        exists|after: Seq<Asked>|
            hooks_decided(
                hooks@,
                hook_type@,
                context.worktree_name@,
                context.worktree_path@,
                Seq::<Asked>::empty(),
                after,
                r,
            ),
{
    let mut ui = DialoguerUI::new();
    let r = execute_hooks_with_ui(hook_type, context, hooks, &mut ui);
    assert(hooks_decided(
        hooks@,
        hook_type@,
        context.worktree_name@,
        context.worktree_path@,
        Seq::<Asked>::empty(),
        ui.asked(),
        r,
    ));
    r
}

/// A command without placeholders is run as written.
pub proof fn law_plain_command_unchanged(cmd: Seq<char>, name: Seq<char>, path: Seq<char>)
    requires
        !crate::text::contains_sub(cmd, "{{worktree_name}}"@),
        !crate::text::contains_sub(cmd, "{{worktree_path}}"@),
    ensures
        expanded(cmd, name, path) == cmd,
{
    lemma_replace_absent(cmd, "{{worktree_name}}"@, name);
    lemma_replace_absent(cmd, "{{worktree_path}}"@, path);
}

/// Replacing a pattern that does not occur changes nothing.
pub proof fn lemma_replace_absent(s: Seq<char>, p: Seq<char>, r: Seq<char>)
    requires
        !crate::text::contains_sub(s, p),
    ensures
        replace_all(s, p, r) == s,
    decreases s.len(),
{
    if p.len() == 0 || s.len() < p.len() {
    } else {
        assert(!crate::text::occurs_at(s, p, 0));
        assert(s.subrange(0, p.len() as int) != p);
        let t = s.subrange(1, s.len() as int);
        assert(!crate::text::contains_sub(t, p)) by {
            if crate::text::contains_sub(t, p) {
                let i = choose|i: int| crate::text::occurs_at(t, p, i);
                assert(crate::text::occurs_at(s, p, i + 1)) by {
                    assert(s.subrange(i + 1, i + 1 + p.len()) =~= t.subrange(i, i + p.len()));
                }
            }
        }
        lemma_replace_absent(t, p, r);
        assert(seq![s[0]] + t =~= s);
    }
}

} // verus!
