use git_workers::ui::{DialoguerUI, MockUI, UserInterface};

#[test]
fn test_mock_ui_creation() {
    let mock_ui = MockUI::new()
        .with_selection(1)
        .with_input("test-branch")
        .with_confirm(true)
        .with_multiselect(vec![0, 2]);

    assert_eq!(mock_ui.pending_selections(), 1);
    assert_eq!(mock_ui.pending_inputs(), 1);
    assert_eq!(mock_ui.pending_confirms(), 1);
    assert_eq!(mock_ui.pending_multiselects(), 1);
}

#[test]
fn test_mock_ui_exhaustion_check() {
    let mock_ui = MockUI::new();
    assert!(mock_ui.is_exhausted());

    let mock_ui = MockUI::new().with_selection(0);
    assert!(!mock_ui.is_exhausted());
}

#[test]
fn test_dialoguer_ui_trait_implementation() {
    let _ui = DialoguerUI::new();
}

#[test]
fn test_mock_ui_functional_behavior() {
    let mut mock_ui = MockUI::new()
        .with_selection(2)
        .with_selection(3)
        .with_input("feature-branch")
        .with_confirm(false)
        .with_confirm(true)
        .with_multiselect(vec![1, 3]);

    assert_eq!(
        mock_ui.select("test", &["a".to_string(), "b".to_string()]).unwrap(),
        2
    );
    assert_eq!(
        mock_ui.fuzzy_select("test", &["a".to_string(), "b".to_string()]).unwrap(),
        3
    );
    assert_eq!(mock_ui.input("test").unwrap(), "feature-branch");
    assert!(!mock_ui.confirm("test").unwrap());
    assert!(mock_ui.confirm_with_default("test", false).unwrap());
    assert_eq!(mock_ui.multiselect("test", &["a".to_string()]).unwrap(), vec![1, 3]);

    assert!(mock_ui.is_exhausted());
}

#[test]
fn test_mock_ui_input_with_default() {
    let mut mock_ui = MockUI::new().with_input("custom-input");

    assert_eq!(
        mock_ui.input_with_default("test", "default").unwrap(),
        "custom-input"
    );

    assert_eq!(mock_ui.input_with_default("test", "fallback").unwrap(), "fallback");
}

#[test]
fn test_mock_ui_confirm_with_default() {
    let mut mock_ui = MockUI::new().with_confirm(false);

    assert!(!mock_ui.confirm_with_default("test", true).unwrap());

    assert!(mock_ui.confirm_with_default("test", true).unwrap());
}

#[test]
fn test_mock_ui_error_on_exhaustion() {
    let mut mock_ui = MockUI::new();

    assert!(mock_ui.select("test", &["a".to_string()]).is_err());
    assert!(mock_ui.fuzzy_select("test", &["a".to_string()]).is_err());
    assert!(mock_ui.input("test").is_err());
    assert!(mock_ui.confirm("test").is_err());
    assert!(mock_ui.multiselect("test", &["a".to_string()]).is_err());
}

#[test]
fn select_with_default_takes_scripted_answer() {
    let mut mock_ui = MockUI::new().with_selection(4);
    assert_eq!(
        mock_ui.select_with_default("p", &["a".to_string()], 0).unwrap(),
        4
    );
    assert!(mock_ui.select_with_default("p", &["a".to_string()], 0).is_err());
}
