use image_flipper::invocation::{plan_invocation, Action, SelectionMode, StartupError};

#[test]
fn an_unsupported_target_aborts_at_startup() {
    let r = plan_invocation(&Some("photo.jpg".into()), &None, &None, "txt", false);
    match r {
        Err(StartupError::UnsupportedTarget(ext)) => assert_eq!(ext, "txt"),
        other => panic!("expected an unsupported-target error, got {other:?}"),
    }
}

#[test]
fn no_input_at_all_aborts_at_startup() {
    match plan_invocation(&None, &None, &None, "png", false) {
        Err(StartupError::NoInput) => {}
        other => panic!("expected a no-input error, got {other:?}"),
    }
}

#[test]
fn a_folder_without_from_and_without_all_aborts_at_startup() {
    match plan_invocation(&None, &Some("pics".into()), &None, "png", false) {
        Err(StartupError::MissingFrom) => {}
        other => panic!("expected a missing-from error, got {other:?}"),
    }
}

#[test]
fn a_single_file_invocation_converts_that_file() {
    let actions =
        plan_invocation(&Some("photo.jpg".into()), &None, &None, "png", false).unwrap();
    assert_eq!(actions.len(), 1);
    match &actions[0] {
        Action::ConvertFile(f) => assert_eq!(f, "photo.jpg"),
        other => panic!("expected a single-file action, got {other:?}"),
    }
}

#[test]
fn a_folder_with_from_scans_with_the_explicit_policy() {
    let actions =
        plan_invocation(&None, &Some("pics".into()), &Some("jpg".into()), "png", false).unwrap();
    assert_eq!(actions.len(), 1);
    match &actions[0] {
        Action::ScanFolder { folder, mode: SelectionMode::Explicit(from) } => {
            assert_eq!(folder, "pics");
            assert_eq!(from, "jpg");
        }
        other => panic!("expected an explicit folder scan, got {other:?}"),
    }
}

#[test]
fn the_all_switch_takes_precedence_over_from() {
    let actions =
        plan_invocation(&None, &Some("pics".into()), &Some("jpg".into()), "png", true).unwrap();
    assert_eq!(actions.len(), 1);
    match &actions[0] {
        Action::ScanFolder { mode: SelectionMode::AnyEligible, .. } => {}
        other => panic!("expected an any-eligible folder scan, got {other:?}"),
    }
}

#[test]
fn a_file_and_a_folder_together_yield_both_actions_in_order() {
    let actions = plan_invocation(
        &Some("photo.jpg".into()),
        &Some("pics".into()),
        &None,
        "png",
        true,
    )
    .unwrap();
    assert_eq!(actions.len(), 2);
    assert!(matches!(&actions[0], Action::ConvertFile(_)));
    assert!(matches!(&actions[1], Action::ScanFolder { .. }));
}
