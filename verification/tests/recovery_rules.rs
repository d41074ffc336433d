use space_convergence::attempt::{AdmissionAttempt, AdmissionChangeFacts, AdmissionRole, JoinerStage, SponsorStage, TerminalResult};
use space_convergence::error::{map_projection_floor_error, map_repository_error, AdmissionAttemptRepositoryError, WorkspaceConvergenceError};
use space_convergence::joiner::InvitationConsumeResult;
use space_convergence::keys::JoinIdentity;
use space_convergence::local_join::replacement_record;
use space_convergence::message::{inbox_record, outbound_message, OutboxPurpose};
use space_convergence::recovery::{
    deliverable_positions, record_compacted, record_delivery, AdmissionRecoveryReport,
    admission_outbox_delivery_route, compact_if_settled, delivery_follow_up, is_settled, pending_inbound_candidate,
    recover_space_transition_after_session_drain, requires_session_transition, should_compact_after_recovery,
    DeliveryResult, DeliveryRoute, FollowUp, InvitationDelivery,
};

fn record(attempt: u8) -> AdmissionAttempt {
    let id = JoinIdentity { attempt_id: [attempt; 32], join_id: [attempt; 16], resume_private_key: [1; 32], resume_public_key: [2; 32] };
    replacement_record(&id, 0, b"pending", b"key", Some([3; 32]), b"invitation", b"", b"request", false).unwrap()
}

fn facts(instance: u8, address: &[u8]) -> AdmissionChangeFacts {
    AdmissionChangeFacts {
        member_instance: [instance; 32],
        device_id: format!("device-{instance}"),
        device_name: "name".to_owned(),
        identity_fingerprint: "FP".to_owned(),
        transport_public_key: vec![instance],
        transport_address_blob: address.to_vec(),
        identity_signature: vec![],
    }
}

fn settled_record() -> AdmissionAttempt {
    let mut a = record(1);
    a.terminal_result = Some(TerminalResult::Rejected);
    a.outboxes[0].superseded = true;
    a
}

#[test]
fn invitation_consume_retry_is_no_write_and_terminal_compaction_waits_for_resolution() {
    let mut pending = settled_record();
    pending.outboxes.push(outbound_message(&[1; 32], OutboxPurpose::InvitationConsume, b"svc", None, b"d"));
    assert!(!is_settled(&pending));
    assert_eq!(compact_if_settled(false, &Some(pending.clone())), Err(WorkspaceConvergenceError::AdmissionInProgress));
    pending.outboxes[1].superseded = true;
    assert!(is_settled(&pending));
    assert_eq!(compact_if_settled(false, &Some(pending.clone())), Ok(Some(pending.record_version)));
    assert_eq!(compact_if_settled(true, &None), Ok(None));
    assert!(matches!(compact_if_settled(false, &None), Err(WorkspaceConvergenceError::Inconsistent(_))));
    assert!(should_compact_after_recovery(&Some(pending)));
    assert!(!should_compact_after_recovery(&None));
}

#[test]
fn settling_needs_every_obligation_cleared() {
    let base = settled_record();
    assert!(is_settled(&base));
    let mut open = base.clone();
    open.terminal_result = None;
    assert!(!is_settled(&open));
    let mut write_ahead = base.clone();
    write_ahead.write_ahead_recovery = Some(vec![1]);
    assert!(!is_settled(&write_ahead));
    let mut transition = base.clone();
    transition.space_transition = Some(vec![1]);
    assert!(!is_settled(&transition));
    transition.space_transition_result = Some(vec![2]);
    assert!(is_settled(&transition));
    let mut cleanup = base;
    cleanup.cleanup_pending = true;
    assert!(!is_settled(&cleanup));
}

#[test]
fn cross_space_activation_saves_complete_before_forward_only_recovery() {
    let mut waiting = record(2);
    waiting.completion = Some(b"complete".to_vec());
    waiting.space_transition = Some(b"transition".to_vec());
    let other = record(3);
    let mut done = record(4);
    done.completion = Some(b"complete".to_vec());
    done.space_transition = Some(b"transition".to_vec());
    done.space_transition_result = Some(b"result".to_vec());
    let attempts = vec![other.clone(), waiting, done];
    assert!(requires_session_transition(&attempts));
    assert_eq!(recover_space_transition_after_session_drain(&attempts), vec![1]);
    let quiet = vec![other];
    assert!(!requires_session_transition(&quiet));
    assert!(recover_space_transition_after_session_drain(&quiet).is_empty());
}

#[test]
fn delivery_ack_clears_only_the_exact_supported_outbox() {
    let message = outbound_message(&[1; 32], OutboxPurpose::Candidate, b"joiner", None, b"c");
    let ack = inbox_record(&message);
    assert!(matches!(delivery_follow_up(OutboxPurpose::Candidate, DeliveryResult::Persisted(ack.clone())), Ok(FollowUp::AcknowledgeDelivery(_))));
    assert!(matches!(delivery_follow_up(OutboxPurpose::Rejected, DeliveryResult::Persisted(ack.clone())), Ok(FollowUp::ConfirmRejected(_))));
    assert!(matches!(delivery_follow_up(OutboxPurpose::Complete, DeliveryResult::Persisted(ack.clone())), Ok(FollowUp::ConfirmActive(_))));
    assert!(matches!(
        delivery_follow_up(OutboxPurpose::HistoryOrReceiptBatch, DeliveryResult::Persisted(ack.clone())),
        Ok(FollowUp::AcknowledgePersisted(OutboxPurpose::HistoryOrReceiptBatch, _))
    ));
    assert!(delivery_follow_up(OutboxPurpose::InvitationConsume, DeliveryResult::Persisted(ack)).is_err());
    assert!(matches!(
        delivery_follow_up(OutboxPurpose::InvitationConsume, DeliveryResult::InvitationConsume(InvitationDelivery::Conflict)),
        Ok(FollowUp::RecordInvitation(InvitationConsumeResult::Conflict))
    ));
    assert!(delivery_follow_up(OutboxPurpose::Commit, DeliveryResult::InvitationConsume(InvitationDelivery::Consumed)).is_err());
    assert!(matches!(delivery_follow_up(OutboxPurpose::Commit, DeliveryResult::Deferred), Ok(FollowUp::Unconfirmed)));
    let rejected = outbound_message(&[1; 32], OutboxPurpose::Rejected, b"j", None, b"r");
    assert!(matches!(delivery_follow_up(OutboxPurpose::CancelRequested, DeliveryResult::Rejected(rejected.clone())), Ok(FollowUp::RecordRejected(_))));
    assert!(delivery_follow_up(OutboxPurpose::Prepared, DeliveryResult::Rejected(rejected)).is_err());
}

#[test]
fn cleanup_goes_to_the_sponsor_that_authored_the_candidate() {
    let mut a = record(5);
    let cancel = outbound_message(&[5; 32], OutboxPurpose::CancelRequested, b"invitation", None, b"cancel_requested");
    let request = a.outboxes[0].clone();
    assert!(matches!(admission_outbox_delivery_route(&a, &request, &None), Ok(None)));
    assert!(matches!(admission_outbox_delivery_route(&a, &cancel, &None), Ok(Some(DeliveryRoute::Invitation(ref r))) if r == b"invitation"));
    a.sponsor_continuation_address = Some(b"continuation".to_vec());
    assert!(matches!(admission_outbox_delivery_route(&a, &cancel, &None), Ok(Some(DeliveryRoute::Continuation(ref r))) if r == b"continuation"));
    a.candidate_event = Some(b"event".to_vec());
    a.target_relationships = Some(vec![facts(7, b"sponsor-route"), facts(8, b"other")]);
    assert!(matches!(
        admission_outbox_delivery_route(&a, &cancel, &Some([7; 32])),
        Ok(Some(DeliveryRoute::Continuation(ref r))) if r == b"sponsor-route"
    ));
    assert!(matches!(admission_outbox_delivery_route(&a, &cancel, &None), Err(WorkspaceConvergenceError::AdmissionStorage(_))));
    assert!(matches!(admission_outbox_delivery_route(&a, &cancel, &Some([9; 32])), Err(WorkspaceConvergenceError::Inconsistent(_))));
    a.target_relationships = Some(vec![facts(7, b""), facts(8, b"other")]);
    assert!(matches!(
        admission_outbox_delivery_route(&a, &cancel, &Some([7; 32])),
        Ok(Some(DeliveryRoute::Continuation(ref r))) if r == b"continuation"
    ));
    a.target_relationships = Some(vec![facts(7, b"x"), facts(7, b"y")]);
    assert!(admission_outbox_delivery_route(&a, &cancel, &Some([7; 32])).is_err());
    let mut no_route = record(6);
    no_route.outboxes.clear();
    let bare = outbound_message(&[6; 32], OutboxPurpose::CancelRequested, b"", None, b"c");
    assert!(admission_outbox_delivery_route(&no_route, &bare, &None).is_err());
}

#[test]
fn inbound_admission_blocks_explicit_join_without_retry_loop() {
    let mut sponsor = record(9);
    sponsor.role = AdmissionRole::Sponsor(SponsorStage::Candidate);
    sponsor.lineage_id = Some("space-a".to_owned());
    sponsor.candidate_event = Some(b"event".to_vec());
    let joiner = record(10);
    let lineage = "space-a".to_owned();
    assert_eq!(pending_inbound_candidate(&vec![joiner.clone()], &lineage), Ok(None));
    assert_eq!(pending_inbound_candidate(&vec![joiner.clone(), sponsor.clone()], &lineage), Ok(Some(b"event".to_vec())));
    assert_eq!(
        pending_inbound_candidate(&vec![sponsor.clone(), sponsor.clone()], &lineage),
        Err(WorkspaceConvergenceError::RecoveryRequired)
    );
    assert_eq!(pending_inbound_candidate(&vec![sponsor.clone()], &"space-b".to_owned()), Ok(None));
    let mut finished = sponsor.clone();
    finished.terminal_result = Some(TerminalResult::Completed);
    assert_eq!(pending_inbound_candidate(&vec![finished], &lineage), Ok(None));
    sponsor.candidate_event = None;
    assert!(pending_inbound_candidate(&vec![sponsor], &lineage).is_err());
    let _ = JoinerStage::Initiated;
}

#[test]
fn projection_reset_is_unavailable_while_a_write_is_in_flight() {
    assert_eq!(map_projection_floor_error(AdmissionAttemptRepositoryError::VersionConflict), WorkspaceConvergenceError::Unavailable);
    assert_eq!(map_repository_error(AdmissionAttemptRepositoryError::VersionConflict), WorkspaceConvergenceError::AdmissionInProgress);
    assert_eq!(
        map_projection_floor_error(AdmissionAttemptRepositoryError::PreviousJoinCannotBeSuperseded),
        WorkspaceConvergenceError::PreviousJoinCannotBeSuperseded
    );
    assert!(matches!(map_projection_floor_error(AdmissionAttemptRepositoryError::Storage), WorkspaceConvergenceError::AdmissionStorage(_)));
}

#[test]
fn recovery_delivers_only_active_messages_and_tallies_them() {
    let mut a = record(1);
    a.outboxes.push(outbound_message(&[1; 32], OutboxPurpose::InvitationConsume, b"svc", None, b"d"));
    a.outboxes.push(outbound_message(&[1; 32], OutboxPurpose::CancelRequested, b"sponsor", None, b"c"));
    a.outboxes[1].superseded = true;
    assert_eq!(deliverable_positions(&a.outboxes), vec![0, 2]);

    let mut report = AdmissionRecoveryReport::default();
    record_delivery(&mut report, true);
    record_delivery(&mut report, false);
    record_compacted(&mut report);
    assert_eq!(report, AdmissionRecoveryReport { deliveries_attempted: 2, deliveries_confirmed: 1, attempts_compacted: 1 });
}
