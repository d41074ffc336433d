use space_convergence::attempt::{AdmissionRole, HelperStage, SecurityDelivery, TerminalResult};
use space_convergence::message::{outbound_message, OutboxPurpose};
use space_convergence::sponsor_finish::{complete_as_helper, create_completion_helper, HelperBundle};

fn bundle() -> HelperBundle {
    HelperBundle {
        candidate_event: b"event".to_vec(),
        candidate_key_package: b"kp".to_vec(),
        security_commitment: b"commitment".to_vec(),
        security_commit: b"commit".to_vec(),
        security_welcome: b"welcome".to_vec(),
        target_protection_group_id: "group".to_owned(),
        target_key_catalog: b"catalog".to_vec(),
        existing_member_deliveries: vec![SecurityDelivery { recipient: "peer".to_owned(), credential_id: [1; 32], payload: vec![2] }],
        activation_receipt: b"receipt".to_vec(),
        resume_public_key: vec![3; 32],
    }
}

#[test]
fn completion_helper_records_the_bundle_and_then_completes_once() {
    let helper = create_completion_helper(&[9; 32], b"challenge", b"response", b"position", bundle(), &"space-a".to_owned(), [5; 32], [6; 32]);
    assert_eq!(helper.role, AdmissionRole::CompletionHelper(HelperStage::Applied));
    assert_eq!(helper.join_id, None);
    assert_eq!(helper.lineage_id.as_deref(), Some("space-a"));
    assert_eq!(helper.base_history_position, Some(b"position".to_vec()));
    assert_eq!(helper.candidate_event_id, Some([5; 32]));
    assert_eq!(helper.activation_receipt, Some(b"receipt".to_vec()));
    assert_eq!(helper.resume_peers, vec![b"challenge".to_vec()]);
    assert_eq!(helper.completion_recovery_deliveries, vec![b"response".to_vec()]);
    assert!(helper.outboxes.is_empty());

    let step = complete_as_helper(helper, b"completion", b"joiner", [7; 32]).unwrap();
    let expected = outbound_message(&[9; 32], OutboxPurpose::Complete, b"joiner", Some([7; 32]), b"completion");
    assert_eq!(step.output, expected);
    let saved = step.save.unwrap();
    assert_eq!(saved.terminal_result, Some(TerminalResult::Completed));
    assert_eq!(saved.role, AdmissionRole::CompletionHelper(HelperStage::Completed));
    assert_eq!(saved.record_version, 1);
    assert!(complete_as_helper(saved, b"completion", b"joiner", [7; 32]).is_err());
}
