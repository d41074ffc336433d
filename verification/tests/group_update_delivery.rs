use space_convergence::group_delivery::{deliver_pending, UpdateOutcome};

#[test]
fn acknowledges_only_updates_that_were_delivered() {
    let outcomes: Vec<UpdateOutcome<String>> = vec![UpdateOutcome::Acknowledged(true), UpdateOutcome::NotDispatched];
    assert_eq!(deliver_pending(outcomes), Ok(1));
}

#[test]
fn continues_after_acknowledgement_error_and_returns_it_after_the_batch() {
    let outcomes = vec![
        UpdateOutcome::AcknowledgmentFailed("first ack failed".to_owned()),
        UpdateOutcome::Acknowledged(true),
    ];
    assert_eq!(deliver_pending(outcomes), Err("first ack failed".to_owned()));
}

#[test]
fn already_settled_updates_are_not_counted_and_the_last_failure_wins() {
    let outcomes: Vec<UpdateOutcome<&str>> = vec![
        UpdateOutcome::Acknowledged(false),
        UpdateOutcome::Acknowledged(true),
        UpdateOutcome::Acknowledged(true),
    ];
    assert_eq!(deliver_pending(outcomes), Ok(2));
    let failures = vec![
        UpdateOutcome::AcknowledgmentFailed("first"),
        UpdateOutcome::Acknowledged(true),
        UpdateOutcome::AcknowledgmentFailed("second"),
    ];
    assert_eq!(deliver_pending(failures), Err("second"));
    assert_eq!(deliver_pending(Vec::<UpdateOutcome<&str>>::new()), Ok(0));
}
