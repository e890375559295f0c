use git_workers::constants::{TEMPLATE_WORKTREE_NAME, TEMPLATE_WORKTREE_PATH};
use git_workers::hooks::{
    execute_hooks_with_ui, expand_hook_command, hook_commands, hooks_to_run, HookContext,
    HookOutcome,
};
use git_workers::string_map::KeyedMap;
use git_workers::ui::{MockUI, UiError};

fn hooks_with(kind: &str, cmds: &[&str]) -> KeyedMap<Vec<String>> {
    let mut m = KeyedMap::new();
    m.insert(kind.to_string(), cmds.iter().map(|s| s.to_string()).collect());
    m
}

#[test]
fn test_hook_context_creation() {
    let context = HookContext {
        worktree_name: "test-worktree".to_string(),
        worktree_path: "/test/path".to_string(),
    };

    assert_eq!(context.worktree_name, "test-worktree");
    assert_eq!(context.worktree_path, "/test/path");
}

#[test]
fn test_template_variable_replacement() {
    let context = HookContext {
        worktree_name: "feature-branch".to_string(),
        worktree_path: "/home/user/project/feature".to_string(),
    };

    let cmd = "echo 'Working on {{worktree_name}} at {{worktree_path}}'";
    let expanded = expand_hook_command(cmd, &context);

    assert_eq!(
        expanded,
        "echo 'Working on feature-branch at /home/user/project/feature'"
    );
    assert_eq!(TEMPLATE_WORKTREE_NAME, "{{worktree_name}}");
    assert_eq!(TEMPLATE_WORKTREE_PATH, "{{worktree_path}}");
}

#[test]
fn test_multiple_template_replacements() {
    let context = HookContext {
        worktree_name: "main".to_string(),
        worktree_path: "/project/main".to_string(),
    };
    let cmd = "cd {{worktree_path}} && echo {{worktree_name}} && ls {{worktree_path}}";
    let expanded = expand_hook_command(cmd, &context);

    assert_eq!(
        expanded,
        "cd /project/main && echo main && ls /project/main"
    );
}

#[test]
fn test_no_template_variables() {
    let context = HookContext {
        worktree_name: "test".to_string(),
        worktree_path: "/test/path".to_string(),
    };
    let cmd = "npm install";
    let expanded = expand_hook_command(cmd, &context);

    assert_eq!(expanded, "npm install");
}

#[test]
fn test_hook_execution_with_confirmation() {
    let context = HookContext {
        worktree_name: "test".to_string(),
        worktree_path: "/test/path".to_string(),
    };
    let hooks = hooks_with("post-create", &["echo {{worktree_name}}"]);

    let mut ui = MockUI::new().with_confirm(true);
    match execute_hooks_with_ui("post-create", &context, &hooks, &mut ui) {
        HookOutcome::Run(cmds) => assert_eq!(cmds, vec!["echo test".to_string()]),
        _ => panic!("hooks should run"),
    }

    let mut ui = MockUI::new().with_confirm(false);
    assert!(matches!(
        execute_hooks_with_ui("post-create", &context, &hooks, &mut ui),
        HookOutcome::Declined
    ));
}

#[test]
fn test_hook_confirmation_prompt_display() {
    let context = HookContext {
        worktree_name: "feature-xyz".to_string(),
        worktree_path: "/workspace/feature-xyz".to_string(),
    };
    let hooks = hooks_with("post-create", &["cd {{worktree_path}}"]);
    let listed = hook_commands(&hooks, "post-create", &context);
    assert_eq!(listed, vec!["cd /workspace/feature-xyz".to_string()]);

    let mut ui = MockUI::new().with_confirm(false);
    assert!(matches!(
        execute_hooks_with_ui("post-create", &context, &hooks, &mut ui),
        HookOutcome::Declined
    ));
    assert!(ui.is_exhausted());
}

#[test]
fn no_hooks_means_no_question() {
    let context = HookContext {
        worktree_name: "x".to_string(),
        worktree_path: "/x".to_string(),
    };
    let hooks = hooks_with("pre-remove", &["rm -rf node_modules"]);
    let mut ui = MockUI::new().with_confirm(true);
    assert!(matches!(
        execute_hooks_with_ui("post-create", &context, &hooks, &mut ui),
        HookOutcome::NoHooks
    ));
    assert!(!ui.is_exhausted());
    let empty = hooks_with("post-create", &[]);
    assert!(matches!(
        execute_hooks_with_ui("post-create", &context, &empty, &mut ui),
        HookOutcome::NoHooks
    ));
}

#[test]
fn failed_prompt_counts_as_refusal() {
    let out = hooks_to_run(
        vec!["a".to_string()],
        Err(UiError::Cancelled("confirmation".to_string())),
    );
    assert!(matches!(out, HookOutcome::Declined));
    assert!(matches!(hooks_to_run(vec![], Ok(true)), HookOutcome::NoHooks));
}
