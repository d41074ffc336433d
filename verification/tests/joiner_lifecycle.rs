use space_convergence::attempt::{new_joiner, AdmissionAttempt, AdmissionRole, CompactedAttempt, JoinerStage, TerminalResult};
use space_convergence::error::WorkspaceConvergenceError;
use space_convergence::joiner_reject::{joiner_record_rejected, joiner_reject_before_candidate, TransitionProgress};
use space_convergence::keys::{generate_join_identity, JoinIdentity};
use space_convergence::local_join::{
    cancel_join_space, check_join_source, current_local_join, replacement_record, request_message_id,
    supersede_previous, BindingDecode, CurrentJoinStatus, IdentityBinding, JoinProjection, TransitionSummary,
};
use space_convergence::message::{inbox_record, outbound_message, OutboxMessage, OutboxPurpose};
use space_convergence::rejection::{encode_rejection_payload, RejectionReason};

const ATTEMPT: [u8; 32] = [0x11; 32];

fn joiner_record() -> AdmissionAttempt {
    let id = JoinIdentity {
        attempt_id: ATTEMPT,
        join_id: [0x22; 16],
        resume_private_key: [0x33; 32],
        resume_public_key: [0x34; 32],
    };
    replacement_record(&id, 4, b"pending", b"key-package", Some([0x35; 32]), b"sponsor", b"", b"request", true)
        .unwrap()
}

fn prepared_joiner() -> AdmissionAttempt {
    let mut joiner = joiner_record();
    joiner.role = AdmissionRole::Joiner(JoinerStage::Prepared);
    joiner.outboxes[0].superseded = true;
    let prepared = outbound_message(&ATTEMPT, OutboxPurpose::Prepared, b"sponsor", Some([0x50; 32]), b"prepared");
    joiner.outboxes.push(prepared);
    joiner.space_transition = Some(b"transition".to_vec());
    joiner.target_access_state = Some(b"access".to_vec());
    joiner.staged_security_state = Some(b"staged".to_vec());
    joiner
}

#[test]
fn new_join_record_holds_its_request_and_material() {
    let joiner = joiner_record();
    assert_eq!(joiner.role, AdmissionRole::Joiner(JoinerStage::Initiated));
    assert_eq!(joiner.local_join_ordinal, Some(4));
    assert_eq!(joiner.join_id, Some([0x22; 16]));
    assert_eq!(joiner.sponsor_continuation_address, None);
    assert!(joiner.preserve_unreadable_history);
    assert_eq!(joiner.outboxes.len(), 1);
    let request = outbound_message(&ATTEMPT, OutboxPurpose::JoinRequest, b"sponsor", None, b"request");
    assert_eq!(joiner.outboxes[0].message_id, request.message_id);
    assert_eq!(request_message_id(&joiner), Ok(request.message_id));
    let id = JoinIdentity { attempt_id: ATTEMPT, join_id: [1; 16], resume_private_key: [2; 32], resume_public_key: [3; 32] };
    assert!(matches!(
        replacement_record(&id, 0, b"p", b"k", None, b"s", b"a", b"r", false),
        Err(WorkspaceConvergenceError::Inconsistent(_))
    ));
}

#[test]
fn join_identity_is_fresh_and_its_public_key_matches() {
    let id = generate_join_identity().unwrap();
    assert_ne!(id.attempt_id, [0; 32]);
    assert_ne!(id.join_id, [0; 16]);
    assert_ne!(id.resume_private_key, [0; 32]);
    let expected = ed25519_dalek::SigningKey::from_bytes(&id.resume_private_key).verifying_key().to_bytes();
    assert_eq!(id.resume_public_key, expected);
    assert_ne!(id.resume_public_key, id.resume_private_key);
    let other = generate_join_identity().unwrap();
    assert_ne!(id.attempt_id, other.attempt_id);
}

#[test]
fn explicit_sponsor_rejection_ends_a_join_before_candidate() {
    let step = joiner_reject_before_candidate(Some(joiner_record()), RejectionReason::InvitationUnavailable).unwrap();
    assert_eq!(step.output.pending, Some(b"pending".to_vec()));
    let saved = step.save.unwrap();
    assert_eq!(saved.terminal_result, Some(TerminalResult::Rejected));
    assert_eq!(saved.role, AdmissionRole::Joiner(JoinerStage::Rejected));
    assert_eq!(saved.joiner_pending_security_state, None);
    assert!(saved.outboxes.iter().all(|m| m.superseded));
    assert_eq!(saved.record_version, 1);
    let replay = joiner_reject_before_candidate(Some(saved), RejectionReason::InvitationUnavailable).unwrap();
    assert!(replay.save.is_none());
    assert_eq!(replay.output.pending, None);
}

#[test]
fn cross_space_rejection_discards_target_only_before_activation() {
    let joiner = prepared_joiner();
    let prepared_id = joiner.outboxes[1].message_id;
    let rejected = outbound_message(
        &ATTEMPT,
        OutboxPurpose::Rejected,
        b"joiner",
        Some(prepared_id),
        &encode_rejection_payload(RejectionReason::HistoryConflict, b""),
    );
    let refused = joiner_record_rejected(&ATTEMPT, Some(joiner.clone()), &rejected, TransitionProgress::ActivationStarted);
    assert!(matches!(refused, Err(WorkspaceConvergenceError::Inconsistent(_))));

    let step = joiner_record_rejected(&ATTEMPT, Some(joiner), &rejected, TransitionProgress::BeforeActivation).unwrap();
    assert_eq!(step.output.acknowledgment, inbox_record(&rejected));
    assert_eq!(step.output.discard_transition, Some(b"transition".to_vec()));
    assert_eq!(step.output.discard_staged, Some(b"staged".to_vec()));
    assert_eq!(step.output.discard_pending, Some(b"pending".to_vec()));
    let saved = step.save.unwrap();
    assert_eq!(saved.rejection_reason, Some(RejectionReason::HistoryConflict));
    assert_eq!(saved.space_transition, None);
    assert_eq!(saved.target_access_state, None);
    assert!(saved.outboxes.iter().all(|m| m.superseded));
    let replay = joiner_record_rejected(&ATTEMPT, Some(saved), &rejected, TransitionProgress::Invalid).unwrap();
    assert!(replay.save.is_none());
    assert_eq!(replay.output.discard_transition, None);
}

#[test]
fn rejection_must_answer_active_join_work() {
    let joiner = joiner_record();
    let stray = outbound_message(
        &ATTEMPT,
        OutboxPurpose::Rejected,
        b"joiner",
        Some([0x77; 32]),
        &encode_rejection_payload(RejectionReason::HistoryConflict, b""),
    );
    assert!(joiner_record_rejected(&ATTEMPT, Some(joiner), &stray, TransitionProgress::BeforeActivation).is_err());
}

#[test]
fn explicit_join_after_prepared_returns_stable_conflict() {
    let joiner = prepared_joiner();
    assert_eq!(
        check_join_source(&Some(joiner.clone())),
        Err(WorkspaceConvergenceError::PreviousJoinCannotBeSuperseded)
    );
    assert!(matches!(supersede_previous(joiner), Err(WorkspaceConvergenceError::PreviousJoinCannotBeSuperseded)));
    assert_eq!(check_join_source(&Some(joiner_record())), Ok(()));
    assert_eq!(check_join_source(&None), Ok(()));
}

#[test]
fn explicit_join_supersedes_initiated_attempt_atomically() {
    let previous = joiner_record();
    let request_id = previous.outboxes[0].message_id;
    let replaced = supersede_previous(previous).unwrap();
    assert_eq!(replaced.expected_previous_attempt_id, ATTEMPT);
    assert_eq!(replaced.expected_previous_record_version, 0);
    let terminal = replaced.previous_terminal;
    assert_eq!(terminal.record_version, 1);
    assert_eq!(terminal.terminal_result, Some(TerminalResult::SupersededByNewJoin));
    assert_eq!(terminal.outboxes.len(), 2);
    assert!(terminal.outboxes[0].superseded);
    let cleanup = &terminal.outboxes[1];
    assert!(!cleanup.superseded);
    let expected = outbound_message(&ATTEMPT, OutboxPurpose::CancelRequested, b"sponsor", Some(request_id), b"cancel_requested");
    assert_eq!(cleanup.message_id, expected.message_id);
}

fn seeded_superseded_join() -> AdmissionAttempt {
    let mut previous = new_joiner([0xd1; 32], [0xd2; 16], JoinerStage::Initiated);
    previous.local_join_ordinal = Some(0);
    previous.joiner_pending_security_state = Some(vec![1]);
    previous.candidate_key_package = Some(b"joiner-key-package".to_vec());
    previous.joiner_member_instance = Some([2; 32]);
    previous.resume_public_key = Some(vec![3; 32]);
    previous.resume_private_key = Some(vec![4; 32]);
    previous.outboxes.push(OutboxMessage {
        purpose: OutboxPurpose::JoinRequest,
        recipient: b"sponsor".to_vec(),
        message_id: [5; 32],
        predecessor_message_id: None,
        payload: b"join-request".to_vec(),
        superseded: true,
    });
    previous.outboxes.push(OutboxMessage {
        purpose: OutboxPurpose::CancelRequested,
        recipient: b"sponsor".to_vec(),
        message_id: [0xd3; 32],
        predecessor_message_id: Some([5; 32]),
        payload: b"cancel_requested".to_vec(),
        superseded: false,
    });
    previous.terminal_result = Some(TerminalResult::SupersededByNewJoin);
    previous.record_version = 1;
    previous
}

#[test]
fn superseded_rejection_only_confirms_old_cleanup() {
    let previous_id = [0xd1; 32];
    let rejected = OutboxMessage {
        purpose: OutboxPurpose::Rejected,
        recipient: b"joiner".to_vec(),
        message_id: [0xdc; 32],
        predecessor_message_id: Some([0xd3; 32]),
        payload: b"cleanup-confirmed".to_vec(),
        superseded: false,
    };

    let step = joiner_record_rejected(&previous_id, Some(seeded_superseded_join()), &rejected, TransitionProgress::Invalid)
        .unwrap();

    let previous = step.save.unwrap();
    assert_eq!(previous.terminal_result, Some(TerminalResult::SupersededByNewJoin));
    assert_eq!(previous.rejection_reason, None);
    assert!(previous.outboxes.iter().all(|message| message.superseded));
}

#[test]
fn superseded_rejection_must_follow_a_live_cleanup() {
    let settled = joiner_record_rejected(
        &[0xd1; 32],
        Some(seeded_superseded_join()),
        &OutboxMessage {
            purpose: OutboxPurpose::Rejected,
            recipient: b"joiner".to_vec(),
            message_id: [0xdc; 32],
            predecessor_message_id: Some([0xd3; 32]),
            payload: b"cleanup-confirmed".to_vec(),
            superseded: false,
        },
        TransitionProgress::Invalid,
    )
    .unwrap()
    .save
    .unwrap();
    let again = OutboxMessage {
        purpose: OutboxPurpose::Rejected,
        recipient: b"joiner".to_vec(),
        message_id: [0xdd; 32],
        predecessor_message_id: Some([0xd3; 32]),
        payload: b"cleanup-confirmed".to_vec(),
        superseded: false,
    };
    assert!(joiner_record_rejected(&[0xd1; 32], Some(settled), &again, TransitionProgress::Invalid).is_err());
    let mut other_purpose = again.clone();
    other_purpose.purpose = OutboxPurpose::Commit;
    assert!(joiner_record_rejected(&[0xd1; 32], Some(seeded_superseded_join()), &other_purpose, TransitionProgress::Invalid).is_err());
    let mut unknown = again;
    unknown.predecessor_message_id = Some([0x99; 32]);
    assert!(joiner_record_rejected(&[0xd1; 32], Some(seeded_superseded_join()), &unknown, TransitionProgress::Invalid).is_err());
}

fn projection(terminal: Option<TerminalResult>, reason: Option<RejectionReason>) -> Option<JoinProjection> {
    Some(JoinProjection { attempt_id: ATTEMPT, join_id: [0x22; 16], terminal_result: terminal, rejection_reason: reason })
}

#[test]
fn cancel_queues_one_request_for_the_current_join() {
    assert_eq!(cancel_join_space(&None, &[0x22; 16], None).unwrap_err(), WorkspaceConvergenceError::JoinNotFound);
    assert_eq!(
        cancel_join_space(&projection(None, None), &[0x23; 16], None).unwrap_err(),
        WorkspaceConvergenceError::JoinNotFound
    );
    let step = cancel_join_space(&projection(None, None), &[0x22; 16], Some(joiner_record())).unwrap();
    let saved = step.save.unwrap();
    assert_eq!(saved.cancel_request, Some(b"cancel_requested".to_vec()));
    let cancel = saved.outboxes.last().unwrap();
    assert_eq!(cancel.purpose, OutboxPurpose::CancelRequested);
    assert_eq!(cancel.predecessor_message_id, Some(saved.outboxes[0].message_id));
    let again = cancel_join_space(&projection(None, None), &[0x22; 16], Some(saved)).unwrap();
    assert!(again.save.is_none());
    let finished = cancel_join_space(&projection(Some(TerminalResult::Active), None), &[0x22; 16], None).unwrap();
    assert!(finished.save.is_none());
}

fn binding() -> IdentityBinding {
    IdentityBinding {
        lineage_id: "space-a".to_owned(),
        sponsor_device_id: "sponsor".to_owned(),
        sponsor_identity_fingerprint: "SPON-SOR".to_owned(),
        joiner_device_id: "joiner".to_owned(),
        joiner_identity_fingerprint: "JOIN-ER".to_owned(),
    }
}

#[test]
fn current_join_status_follows_the_projection() {
    assert!(current_local_join(&None, &None, None, &BindingDecode::Absent, None).unwrap().is_none());

    let mut pending = joiner_record();
    pending.lineage_id = Some("space-a".to_owned());
    let status = current_local_join(&projection(None, None), &Some(pending.clone()), None, &BindingDecode::Absent, None)
        .unwrap()
        .unwrap();
    assert!(matches!(
        status,
        CurrentJoinStatus::Pending { target_space_id: Some(ref s), sponsor_device_id: None, cancel_requested: false, .. } if s == "space-a"
    ));
    pending.identity_binding = Some(b"binding".to_vec());
    assert!(current_local_join(&projection(None, None), &Some(pending.clone()), None, &BindingDecode::Invalid, None).is_err());
    let status = current_local_join(&projection(None, None), &Some(pending), None, &BindingDecode::Decoded(binding()), None)
        .unwrap()
        .unwrap();
    assert!(matches!(status, CurrentJoinStatus::Pending { sponsor_device_id: Some(ref d), .. } if d == "sponsor"));

    let rejected = current_local_join(
        &projection(Some(TerminalResult::Rejected), Some(RejectionReason::Cancelled)),
        &None,
        None,
        &BindingDecode::Absent,
        None,
    )
    .unwrap()
    .unwrap();
    assert!(matches!(rejected, CurrentJoinStatus::Rejected { reason: RejectionReason::Cancelled, .. }));
    assert!(current_local_join(&projection(Some(TerminalResult::Rejected), None), &None, None, &BindingDecode::Absent, None).is_err());

    let terminal = CompactedAttempt {
        terminal_result: TerminalResult::Active,
        rejection_reason: None,
        replay_result: Vec::new(),
        replay_message: None,
        acknowledgment_rebuild: Vec::new(),
        identity_binding: Some(b"binding".to_vec()),
        space_transition_result: Some(b"result".to_vec()),
    };
    let active = current_local_join(
        &projection(Some(TerminalResult::Active), None),
        &None,
        Some(&terminal),
        &BindingDecode::Decoded(binding()),
        Some(TransitionSummary::CrossSpace { migrated_records: 12, preserved_unreadable_records: 3 }),
    )
    .unwrap()
    .unwrap();
    match active {
        CurrentJoinStatus::Active { joined_space, .. } => {
            assert_eq!(joined_space.space_id, "space-a");
            assert_eq!(joined_space.self_device_id, "joiner");
            assert_eq!(joined_space.migrated_records, Some(12));
            assert_eq!(joined_space.preserved_unreadable_records, Some(3));
        }
        other => panic!("unexpected status {other:?}"),
    }
    let same_space = current_local_join(
        &projection(Some(TerminalResult::Active), None),
        &None,
        Some(&terminal),
        &BindingDecode::Decoded(binding()),
        Some(TransitionSummary::SameSpace),
    )
    .unwrap()
    .unwrap();
    assert!(matches!(same_space, CurrentJoinStatus::Active { ref joined_space, .. } if joined_space.migrated_records == Some(0)));
    assert!(current_local_join(
        &projection(Some(TerminalResult::SupersededByNewJoin), None),
        &None,
        None,
        &BindingDecode::Absent,
        None
    )
    .is_err());
}
