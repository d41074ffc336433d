use space_convergence::attempt::{
    AdmissionAttempt, AdmissionChangeFacts, AdmissionRole, JoinerStage, SponsorStage, TerminalResult,
};
use space_convergence::candidate::DurableAdmissionCandidate;
use space_convergence::joiner_apply::{
    joiner_activate, joiner_apply, joiner_finish_activation, record_transition_step, ActivationOutcome,
    ApplyOutcome, TransitionStep,
};
use space_convergence::joiner_prepare::{
    joiner_candidate_gate, joiner_prepare_gate, joiner_record_prepared, CandidateGate, PrepareGate,
    PreparedTransition, PreparedValues,
};
use space_convergence::keys::JoinIdentity;
use space_convergence::local_join::replacement_record;
use space_convergence::message::{inbox_record, OutboxMessage, OutboxPurpose};
use space_convergence::rejection::{decode_rejection_reason, RejectionReason};
use space_convergence::sponsor::{sponsor_commit, sponsor_reject_before_commit};
use space_convergence::sponsor_finish::{sponsor_accept_receipt, sponsor_complete, sponsor_confirm_active, sponsor_prepare_security_activation};
use space_convergence::sponsor_offer::{sponsor_accept_and_offer, sponsor_base_gate, sponsor_request_gate};
use space_convergence::sponsor_withdraw::{sponsor_decide_cancel, sponsor_remove_pending_member, CandidateEventFacts, HistoryExtension, PendingMemberRemovalOutcome};
use space_convergence::error::WorkspaceConvergenceError;

const ATTEMPT: [u8; 32] = [0x11; 32];
const DIGEST: [u8; 32] = [0x99; 32];

fn identity() -> JoinIdentity {
    JoinIdentity {
        attempt_id: ATTEMPT,
        join_id: [0x22; 16],
        resume_private_key: [0x33; 32],
        resume_public_key: [0x34; 32],
    }
}

fn joiner_record() -> AdmissionAttempt {
    replacement_record(
        &identity(),
        0,
        b"pending",
        b"key-package",
        Some([0x35; 32]),
        b"invitation",
        b"sponsor-address",
        b"request-binding",
        false,
    )
    .unwrap()
}

fn facts(instance: u8, device: &str) -> AdmissionChangeFacts {
    AdmissionChangeFacts {
        member_instance: [instance; 32],
        device_id: device.to_owned(),
        device_name: format!("{device} name"),
        identity_fingerprint: "ABCD-EFGH".to_owned(),
        transport_public_key: vec![instance; 32],
        transport_address_blob: format!("{device}-address").into_bytes(),
        identity_signature: vec![instance; 8],
    }
}

fn candidate() -> DurableAdmissionCandidate {
    DurableAdmissionCandidate {
        lineage_id: "space-a".to_owned(),
        base_history_position: b"base-position".to_vec(),
        candidate_event: b"candidate-event".to_vec(),
        candidate_event_id: [0x44; 32],
        candidate_key_package: b"key-package".to_vec(),
        resume_public_key: vec![0x34; 32],
        target_members_digest: [0x55; 32],
        security_commitment: b"commitment".to_vec(),
        security_commit: b"commit".to_vec(),
        security_welcome: b"welcome".to_vec(),
        target_protection_group_id: "group-1".to_owned(),
        target_key_catalog: b"catalog".to_vec(),
        target_relationships: vec![facts(1, "sponsor"), facts(0x35, "joiner")],
        existing_member_deliveries: Vec::new(),
        staged_security_state: b"staged".to_vec(),
        identity_binding: b"binding".to_vec(),
    }
}

fn values() -> PreparedValues {
    PreparedValues {
        target_access_state: b"access".to_vec(),
        prepared_proof: b"proof".to_vec(),
        staged_state: b"staged".to_vec(),
        encoded_base_history: b"base-history".to_vec(),
        encoded_history: b"verified-history".to_vec(),
    }
}

fn request(joiner: &AdmissionAttempt) -> OutboxMessage {
    joiner.outboxes[0].clone()
}

fn offer() -> (AdmissionAttempt, OutboxMessage) {
    let joiner = joiner_record();
    let step = sponsor_accept_and_offer(
        &ATTEMPT,
        &ATTEMPT,
        &DIGEST,
        &request(&joiner),
        candidate(),
        b"base-history",
        b"verified-history",
        b"joiner",
        b"candidate-payload",
        None,
    )
    .unwrap();
    assert!(step.create);
    (step.save.unwrap(), step.output.candidate_message)
}

fn prepare(candidate_message: &OutboxMessage) -> (AdmissionAttempt, OutboxMessage) {
    let joiner = joiner_record();
    let gate = joiner_candidate_gate(&ATTEMPT, &ATTEMPT, Some(joiner.clone()), candidate_message, b"key-package").unwrap();
    assert!(gate.save.is_none());
    assert!(matches!(gate.output, CandidateGate::Proceed { .. }));
    let prepared = match joiner_prepare_gate(
        &ATTEMPT,
        &joiner,
        &candidate(),
        candidate_message,
        &values(),
        b"sponsor",
        b"prepared-payload",
    )
    .unwrap()
    .output
    {
        PrepareGate::Proceed(m) => m,
        PrepareGate::Replay(_) => panic!("nothing was prepared yet"),
    };
    let transition = PreparedTransition {
        attempt_id: ATTEMPT,
        target_space_id: "space-a".to_owned(),
        is_initial: true,
        encoded: Some(b"transition".to_vec()),
    };
    let step = joiner_record_prepared(
        &ATTEMPT,
        joiner,
        candidate(),
        candidate_message,
        &values(),
        b"sponsor",
        b"prepared-payload",
        &None,
        transition,
    )
    .unwrap();
    assert_eq!(step.output, prepared);
    let swap = step.history.unwrap();
    assert_eq!(swap.expected, None);
    assert_eq!(swap.history, b"base-history".to_vec());
    (step.save.unwrap(), prepared)
}

#[test]
fn durable_admission_becomes_complete_only_after_both_sides_save() {
    let (sponsor, candidate_message) = offer();
    assert_eq!(sponsor.role, AdmissionRole::Sponsor(SponsorStage::Candidate));
    assert_eq!(sponsor.outboxes.len(), 2);
    assert_eq!(sponsor.outboxes[1].purpose, OutboxPurpose::InvitationConsume);
    assert_eq!(sponsor.invitation_claim, Some(DIGEST.to_vec()));

    let (joiner, prepared) = prepare(&candidate_message);
    assert_eq!(joiner.role, AdmissionRole::Joiner(JoinerStage::Prepared));
    assert_eq!(joiner.record_version, 1);
    assert!(joiner.outboxes[0].superseded);

    let commit_step = sponsor_commit(
        &ATTEMPT,
        Some(sponsor),
        &Some(b"base-history".to_vec()),
        &prepared,
        b"proof",
        b"joiner",
        b"commit-payload",
    )
    .unwrap();
    let sponsor = commit_step.save.unwrap();
    let commit = commit_step.output;
    assert_eq!(sponsor.role, AdmissionRole::Sponsor(SponsorStage::Committed));
    assert_eq!(sponsor.record_version, 1);

    let apply_step = joiner_apply(
        &ATTEMPT,
        &ATTEMPT,
        Some(joiner.clone()),
        &commit,
        b"receipt",
        b"sponsor",
        b"applied-payload",
        &Some(b"recorded-history".to_vec()),
    )
    .unwrap();
    let applied = match &apply_step.output {
        ApplyOutcome::Applied(m) => m.clone(),
        ApplyOutcome::RecoveryRequired => panic!("the join was not replaced"),
    };
    let joiner = apply_step.save.unwrap();
    assert_eq!(joiner.role, AdmissionRole::Joiner(JoinerStage::Applied));
    assert_eq!(joiner.terminal_result, None);

    let replay = joiner_apply(
        &ATTEMPT,
        &ATTEMPT,
        Some(joiner.clone()),
        &commit,
        b"receipt",
        b"sponsor",
        b"applied-payload",
        &Some(b"recorded-history".to_vec()),
    )
    .unwrap();
    assert!(replay.save.is_none());
    assert!(matches!(replay.output, ApplyOutcome::Applied(m) if m.message_id == applied.message_id));

    let sponsor = sponsor_prepare_security_activation(Some(sponsor), b"receipt").unwrap().save.unwrap();
    let complete_step = sponsor_complete(
        &ATTEMPT,
        &ATTEMPT,
        Some(sponsor),
        &applied,
        b"receipt",
        b"completion",
        b"joiner",
        b"complete-payload",
        &Some(b"verified-history".to_vec()),
        &Some(b"sponsor-recorded".to_vec()),
    )
    .unwrap();
    let sponsor = complete_step.save.unwrap();
    let complete = complete_step.output;
    assert_eq!(sponsor.role, AdmissionRole::Sponsor(SponsorStage::Completed));
    assert_eq!(sponsor.terminal_result, Some(TerminalResult::Completed));
    assert_eq!(sponsor.write_ahead_recovery, None);

    let activation = joiner_activate(&ATTEMPT, None, Some(joiner), &complete, b"completion").unwrap();
    let ack = match &activation.output {
        ActivationOutcome::Continue(ack) => ack.clone(),
        other => panic!("unexpected activation outcome {other:?}"),
    };
    assert_eq!(ack, inbox_record(&complete));
    let joiner = activation.save.unwrap();
    let finish = joiner_finish_activation(Some(joiner.clone()), ack.clone(), true).unwrap();
    assert!(finish.save.is_none());
    assert!(matches!(finish.output, ActivationOutcome::SpaceTransitionRequired));
    let advanced = record_transition_step(
        Some(joiner),
        true,
        TransitionStep::Advanced { follows: true, next: Some(b"transition-2".to_vec()) },
    )
    .unwrap();
    assert!(!advanced.output);
    let joiner = advanced.save.unwrap();
    let finished = record_transition_step(
        Some(joiner),
        true,
        TransitionStep::Finished { matches_cleanup: true, result: Some(b"result".to_vec()) },
    )
    .unwrap();
    assert!(finished.output);
    let joiner = finished.save.unwrap();
    assert_eq!(joiner.terminal_result, Some(TerminalResult::Active));
    assert!(!space_convergence::recovery::attempt_needs_session_transition(&joiner));
    assert_eq!(joiner.role, AdmissionRole::Joiner(JoinerStage::Completed));

    let confirmed = sponsor_confirm_active(None, Some(sponsor), &ack).unwrap();
    let sponsor = confirmed.save.unwrap();
    assert_eq!(sponsor.terminal_result, Some(TerminalResult::Completed));
    assert!(sponsor.outboxes.iter().filter(|m| m.purpose == OutboxPurpose::Complete).all(|m| m.superseded));
    let again = sponsor_confirm_active(None, Some(sponsor), &ack).unwrap();
    assert!(again.save.is_none());
}

#[test]
fn sponsor_offer_replays_and_refuses_a_different_offer() {
    let (sponsor, candidate_message) = offer();
    let joiner = joiner_record();
    let replay = sponsor_accept_and_offer(
        &ATTEMPT,
        &ATTEMPT,
        &DIGEST,
        &request(&joiner),
        candidate(),
        b"base-history",
        b"verified-history",
        b"joiner",
        b"candidate-payload",
        Some(sponsor.clone()),
    )
    .unwrap();
    assert!(replay.save.is_none());
    assert_eq!(replay.output.candidate_message.message_id, candidate_message.message_id);
    let other = sponsor_accept_and_offer(
        &ATTEMPT,
        &ATTEMPT,
        &[0x98; 32],
        &request(&joiner),
        candidate(),
        b"base-history",
        b"verified-history",
        b"joiner",
        b"candidate-payload",
        Some(sponsor),
    );
    assert!(matches!(other, Err(WorkspaceConvergenceError::Inconsistent(_))));
}

#[test]
fn candidate_bound_to_another_attempt_leaves_sponsor_state_unchanged() {
    let joiner = joiner_record();
    let result = sponsor_accept_and_offer(
        &ATTEMPT,
        &[0x12; 32],
        &DIGEST,
        &request(&joiner),
        candidate(),
        b"base-history",
        b"verified-history",
        b"joiner",
        b"candidate-payload",
        None,
    );
    assert!(matches!(result, Err(WorkspaceConvergenceError::Inconsistent(_))));
}

#[test]
fn activation_receipt_bound_to_another_attempt_leaves_joiner_state_unchanged() {
    let (_, candidate_message) = offer();
    let (joiner, _) = prepare(&candidate_message);
    let commit = OutboxMessage {
        purpose: OutboxPurpose::Commit,
        recipient: b"joiner".to_vec(),
        message_id: [0x70; 32],
        predecessor_message_id: None,
        payload: b"commit".to_vec(),
        superseded: false,
    };
    let result = joiner_apply(
        &ATTEMPT,
        &[0x12; 32],
        Some(joiner),
        &commit,
        b"receipt",
        b"sponsor",
        b"applied",
        &Some(b"recorded".to_vec()),
    );
    assert!(matches!(result, Err(WorkspaceConvergenceError::Inconsistent(_))));
}

#[test]
fn out_of_order_durable_messages_leave_the_saved_stage_unchanged() {
    let (sponsor, candidate_message) = offer();
    let (joiner, prepared) = prepare(&candidate_message);
    let early_commit = space_convergence::message::outbound_message(
        &ATTEMPT,
        OutboxPurpose::Commit,
        b"joiner",
        Some(candidate_message.message_id),
        b"commit-payload",
    );
    let result = joiner_apply(
        &ATTEMPT,
        &ATTEMPT,
        Some(joiner),
        &early_commit,
        b"receipt",
        b"sponsor",
        b"applied",
        &Some(b"recorded".to_vec()),
    );
    assert!(matches!(result, Err(WorkspaceConvergenceError::Inconsistent(_))));
    let wrong_prepared = space_convergence::message::outbound_message(
        &ATTEMPT,
        OutboxPurpose::Prepared,
        b"sponsor",
        Some([0x01; 32]),
        b"prepared-payload",
    );
    let result = sponsor_commit(
        &ATTEMPT,
        Some(sponsor),
        &Some(b"base-history".to_vec()),
        &wrong_prepared,
        b"proof",
        b"joiner",
        b"commit-payload",
    );
    assert!(result.is_err());
    assert_ne!(wrong_prepared.message_id, prepared.message_id);
}

#[test]
fn base_history_change_during_commit_is_durably_rejected() {
    let (sponsor, candidate_message) = offer();
    let (_, prepared) = prepare(&candidate_message);
    let step = sponsor_commit(
        &ATTEMPT,
        Some(sponsor),
        &Some(b"moved-history".to_vec()),
        &prepared,
        b"proof",
        b"joiner",
        b"commit-payload",
    )
    .unwrap();
    assert_eq!(step.output.purpose, OutboxPurpose::Rejected);
    assert_eq!(decode_rejection_reason(&step.output.payload), Ok(RejectionReason::BaseHistoryChanged));
    let sponsor = step.save.unwrap();
    assert_eq!(sponsor.terminal_result, Some(TerminalResult::Rejected));
    let replay = sponsor_commit(
        &ATTEMPT,
        Some(sponsor),
        &Some(b"base-history".to_vec()),
        &prepared,
        b"proof",
        b"joiner",
        b"commit-payload",
    )
    .unwrap();
    assert!(replay.save.is_none());
    assert_eq!(replay.output.message_id, step.output.message_id);
}

#[test]
fn sponsor_business_rejection_before_commit_is_durable_and_replayable() {
    let (sponsor, _) = offer();
    let step = sponsor_reject_before_commit(&ATTEMPT, Some(sponsor), RejectionReason::IdentityConflict, b"joiner").unwrap();
    let rejected = step.output;
    let sponsor = step.save.unwrap();
    assert_eq!(sponsor.rejection_reason, Some(RejectionReason::IdentityConflict));
    assert_eq!(decode_rejection_reason(&rejected.payload), Ok(RejectionReason::IdentityConflict));
    let replay = sponsor_reject_before_commit(&ATTEMPT, Some(sponsor.clone()), RejectionReason::IdentityConflict, b"joiner").unwrap();
    assert!(replay.save.is_none());
    assert_eq!(replay.output.message_id, rejected.message_id);
    assert!(sponsor_reject_before_commit(&ATTEMPT, Some(sponsor), RejectionReason::Cancelled, b"joiner").is_err());
}

#[test]
fn durable_admission_cancel_and_commit_have_exactly_one_winner() {
    let (sponsor, candidate_message) = offer();
    let (_, prepared) = prepare(&candidate_message);
    let cancel = space_convergence::message::outbound_message(
        &ATTEMPT,
        OutboxPurpose::CancelRequested,
        b"sponsor",
        Some(prepared.message_id),
        b"cancel_requested",
    );

    let cancelled = sponsor_decide_cancel(&ATTEMPT, None, Some(sponsor.clone()), &cancel, b"joiner", b"cancelled").unwrap();
    assert_eq!(cancelled.output.purpose, OutboxPurpose::Rejected);
    let refused = cancelled.save.unwrap();
    assert!(sponsor_commit(
        &ATTEMPT,
        Some(refused),
        &Some(b"base-history".to_vec()),
        &prepared,
        b"proof",
        b"joiner",
        b"commit-payload",
    )
    .is_err());

    let committed = sponsor_commit(
        &ATTEMPT,
        Some(sponsor),
        &Some(b"base-history".to_vec()),
        &prepared,
        b"proof",
        b"joiner",
        b"commit-payload",
    )
    .unwrap();
    let commit = committed.output;
    let late = sponsor_decide_cancel(&ATTEMPT, None, committed.save, &cancel, b"joiner", b"cancelled").unwrap();
    assert_eq!(late.output.message_id, commit.message_id);
    assert_eq!(late.save.unwrap().cancel_outcome, Some(b"too_late_committed".to_vec()));
}

#[test]
fn repeated_prepare_answers_the_same_prepared() {
    let (_, candidate_message) = offer();
    let (saved, prepared) = prepare(&candidate_message);
    let again = joiner_prepare_gate(&ATTEMPT, &saved, &candidate(), &candidate_message, &values(), b"sponsor", b"prepared-payload")
        .unwrap();
    assert!(again.save.is_none());
    assert!(matches!(again.output, PrepareGate::Replay(ref m) if *m == prepared));
}

#[test]
fn sponsor_request_gate_checks_the_request_and_replays_the_saved_candidate() {
    let joiner = joiner_record();
    let request = request(&joiner);
    let gate = |existing: Option<AdmissionAttempt>, claimed: &[u8; 32], digest: &[u8; 32], kp: &[u8], key: &[u8]| {
        sponsor_request_gate(&ATTEMPT, claimed, &request.recipient, &request.payload, existing, digest, kp, key)
    };
    assert!(gate(None, &request.message_id, &DIGEST, b"key-package", &[1; 32]).unwrap().is_none());
    assert_eq!(
        gate(None, &[0; 32], &DIGEST, b"key-package", &[1; 32]).unwrap_err(),
        WorkspaceConvergenceError::InvalidConfirmation
    );
    let (sponsor, candidate_message) = offer();
    let kp = sponsor.candidate_key_package.clone().unwrap();
    let key = sponsor.resume_public_key.clone().unwrap();
    assert_eq!(gate(Some(sponsor.clone()), &request.message_id, &DIGEST, &kp, &key).unwrap(), Some(candidate_message));
    assert_eq!(
        gate(Some(sponsor.clone()), &request.message_id, &[0x98; 32], &kp, &key).unwrap_err(),
        WorkspaceConvergenceError::AdmissionInProgress
    );
    assert_eq!(
        gate(Some(sponsor.clone()), &request.message_id, &DIGEST, b"other", &key).unwrap_err(),
        WorkspaceConvergenceError::AdmissionInProgress
    );
    assert_eq!(
        gate(Some(sponsor), &request.message_id, &DIGEST, &kp, &[7; 32]).unwrap_err(),
        WorkspaceConvergenceError::AdmissionInProgress
    );

    assert!(sponsor_base_gate(true, true, true).is_ok());
    assert_eq!(sponsor_base_gate(false, true, true).unwrap_err(), WorkspaceConvergenceError::AdmissionInProgress);
    assert_eq!(sponsor_base_gate(true, false, true).unwrap_err(), WorkspaceConvergenceError::RecoveryRequired);
    assert_eq!(sponsor_base_gate(true, true, false).unwrap_err(), WorkspaceConvergenceError::RecoveryRequired);
}

#[test]
fn unverified_activation_receipt_is_an_invalid_handoff() {
    let (sponsor, candidate_message) = offer();
    let (_, prepared) = prepare(&candidate_message);
    let committed = sponsor_commit(
        &ATTEMPT,
        Some(sponsor),
        &Some(b"base-history".to_vec()),
        &prepared,
        b"proof",
        b"joiner",
        b"commit-payload",
    )
    .unwrap()
    .save
    .unwrap();
    assert_eq!(
        sponsor_accept_receipt(Some(committed.clone()), false, b"receipt").unwrap_err(),
        WorkspaceConvergenceError::InvalidHandoff
    );
    let marked = sponsor_accept_receipt(Some(committed), true, b"receipt").unwrap().save.unwrap();
    assert_eq!(marked.write_ahead_recovery, Some(b"receipt".to_vec()));
}

#[test]
fn pending_member_removal_races_commit_without_partial_state() {
    let (sponsor, candidate_message) = offer();
    let (_, prepared) = prepare(&candidate_message);
    let removal = sponsor_remove_pending_member(
        &ATTEMPT,
        Some(sponsor.clone()),
        Some(CandidateEventFacts::AddDevice { event_id: [0x44; 32], member_instance: [0x35; 32] }),
        Some([0x44; 32]),
        Some([0x35; 32]),
        HistoryExtension::Applied(b"history-without-joiner".to_vec()),
        b"joiner",
        b"removed-before-activation",
    )
    .unwrap();
    assert!(matches!(removal.output, PendingMemberRemovalOutcome::AdmissionRejected(_)));
    let refused = removal.save.unwrap();
    assert_eq!(refused.rejection_reason, Some(RejectionReason::RemovedBeforeActivation));
    assert!(sponsor_commit(&ATTEMPT, Some(refused), &Some(b"base-history".to_vec()), &prepared, b"proof", b"joiner", b"commit-payload")
        .is_err());

    let mut applied = sponsor;
    applied.role = AdmissionRole::Sponsor(SponsorStage::Applied);
    let late = sponsor_remove_pending_member(
        &ATTEMPT,
        Some(applied),
        None,
        None,
        None,
        HistoryExtension::Invalid,
        b"joiner",
        b"removed",
    )
    .unwrap();
    assert!(late.save.is_none());
    assert!(matches!(late.output, PendingMemberRemovalOutcome::OrdinaryMemberRemovalRequired));
}

#[test]
fn activation_replays_after_compaction() {
    let complete = space_convergence::message::outbound_message(&ATTEMPT, OutboxPurpose::Complete, b"joiner", Some([1; 32]), b"done");
    let terminal = space_convergence::attempt::CompactedAttempt {
        terminal_result: TerminalResult::Active,
        rejection_reason: None,
        replay_result: b"admission-completion".to_vec(),
        replay_message: None,
        acknowledgment_rebuild: vec![inbox_record(&complete)],
        identity_binding: None,
        space_transition_result: None,
    };
    let again = joiner_activate(&ATTEMPT, Some(&terminal), None, &complete, b"admission-completion").unwrap();
    assert!(again.save.is_none());
    assert!(matches!(again.output, ActivationOutcome::Active(ref ack) if *ack == inbox_record(&complete)));
    assert!(matches!(
        joiner_activate(&ATTEMPT, Some(&terminal), None, &complete, b"other-completion"),
        Err(WorkspaceConvergenceError::Inconsistent(_))
    ));
}
