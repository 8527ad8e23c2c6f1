use image_flipper::batch::{
    batch_outcomes, item_outcome, plan_dispatches, plan_item, ConversionOutcome, FailureReason,
    ProgressCounter, WorkEvent,
};

#[test]
fn progress_counter_hands_out_successive_numbers() {
    let mut counter = ProgressCounter::new();
    assert_eq!(counter.next(), 1);
    assert_eq!(counter.next(), 2);
    assert_eq!(counter.next(), 3);
}

#[test]
fn dispatches_number_the_batch_one_through_n() {
    let candidates: Vec<String> =
        ["a.png", "b.png", "c.png", "d.png", "e.png"].map(String::from).to_vec();
    let dispatches = plan_dispatches(&candidates);
    assert_eq!(dispatches.len(), 5);
    let mut seen = [false; 5];
    for (i, d) in dispatches.iter().enumerate() {
        assert_eq!(d.seq as usize, i + 1);
        assert_eq!(d.total, 5);
        assert_eq!(d.source, candidates[i]);
        assert!(!seen[d.seq as usize - 1], "sequence number assigned twice");
        seen[d.seq as usize - 1] = true;
    }
    assert!(seen.iter().all(|taken| *taken), "a sequence number was skipped");
}

#[test]
fn an_empty_batch_dispatches_nothing_and_yields_no_outcomes() {
    let candidates: Vec<String> = Vec::new();
    assert!(plan_dispatches(&candidates).is_empty());
    assert!(batch_outcomes(&candidates, "webp", None, Vec::new()).is_empty());
}

#[test]
fn a_single_file_batch_is_the_degenerate_case() {
    let candidates = vec!["photo.jpg".to_string()];
    let dispatches = plan_dispatches(&candidates);
    assert_eq!(dispatches.len(), 1);
    assert_eq!(dispatches[0].seq, 1);
    assert_eq!(dispatches[0].total, 1);
}

#[test]
fn plan_item_plans_a_supported_conversion() {
    let plan = plan_item("a/b/img.png", "webp", None).unwrap();
    assert_eq!(plan.dest, "a/b/img.webp");
    assert_eq!(plan.dir_to_create, None);
}

#[test]
fn plan_item_defends_against_an_unsupported_target() {
    match plan_item("a/b/img.png", "txt", None) {
        Err(FailureReason::UnsupportedTarget(ext)) => assert_eq!(ext, "txt"),
        other => panic!("expected an unsupported-target failure, got {other:?}"),
    }
}

#[test]
fn plan_item_rejects_a_source_without_a_file_name() {
    match plan_item("a/b/", "webp", None) {
        Err(FailureReason::InvalidSourcePath) => {}
        other => panic!("expected an invalid-source failure, got {other:?}"),
    }
}

#[test]
fn item_outcome_reports_each_failure_with_its_reason() {
    match item_outcome("img.png", "webp", None, WorkEvent::DecodeFailed("corrupt".into())) {
        ConversionOutcome::Failure { source, reason: FailureReason::DecodeFailed(m) } => {
            assert_eq!(source, "img.png");
            assert_eq!(m, "corrupt");
        }
        other => panic!("expected a decode failure, got {other:?}"),
    }
    match item_outcome("img.png", "webp", Some("/out"), WorkEvent::CreateDirFailed("denied".into()))
    {
        ConversionOutcome::Failure { reason: FailureReason::CreateDirFailed(m), .. } => {
            assert_eq!(m, "denied");
        }
        other => panic!("expected a directory-creation failure, got {other:?}"),
    }
    match item_outcome("img.png", "webp", None, WorkEvent::EncodeFailed("disk full".into())) {
        ConversionOutcome::Failure { reason: FailureReason::EncodeFailed(m), .. } => {
            assert_eq!(m, "disk full");
        }
        other => panic!("expected an encode failure, got {other:?}"),
    }
}

#[test]
fn item_outcome_succeeds_at_the_planned_destination() {
    match item_outcome("a/b/img.png", "webp", Some("thumbs"), WorkEvent::Written) {
        ConversionOutcome::Success { source, dest } => {
            assert_eq!(source, "a/b/img.png");
            assert_eq!(dest, "a/b/thumbs/img.webp");
        }
        other => panic!("expected success, got {other:?}"),
    }
}

#[test]
fn one_corrupt_item_cannot_touch_its_siblings() {
    let sources: Vec<String> = ["a.png", "b.png", "c.png"].map(String::from).to_vec();
    let events = vec![
        WorkEvent::Written,
        WorkEvent::DecodeFailed("corrupt file".into()),
        WorkEvent::Written,
    ];
    let outcomes = batch_outcomes(&sources, "webp", None, events);
    assert_eq!(outcomes.len(), 3);
    match &outcomes[0] {
        ConversionOutcome::Success { dest, .. } => assert_eq!(dest, "a.webp"),
        other => panic!("first item should succeed, got {other:?}"),
    }
    match &outcomes[1] {
        ConversionOutcome::Failure { source, reason: FailureReason::DecodeFailed(m) } => {
            assert_eq!(source, "b.png");
            assert_eq!(m, "corrupt file");
        }
        other => panic!("middle item should fail to decode, got {other:?}"),
    }
    match &outcomes[2] {
        ConversionOutcome::Success { dest, .. } => assert_eq!(dest, "c.webp"),
        other => panic!("last item should succeed, got {other:?}"),
    }
}

#[test]
fn an_unsupported_target_fails_items_without_crashing_the_batch() {
    let sources: Vec<String> = ["a.png", "b.png"].map(String::from).to_vec();
    let events = vec![WorkEvent::Written, WorkEvent::Written];
    let outcomes = batch_outcomes(&sources, "txt", None, events);
    assert_eq!(outcomes.len(), 2);
    for outcome in &outcomes {
        match outcome {
            ConversionOutcome::Failure { reason: FailureReason::UnsupportedTarget(ext), .. } => {
                assert_eq!(ext, "txt");
            }
            other => panic!("expected an unsupported-target failure, got {other:?}"),
        }
    }
}
