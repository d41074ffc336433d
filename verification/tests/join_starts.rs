use space_convergence::attempt::{require_joiner_stage, require_sponsor_stage, AdmissionAttempt, AdmissionRole, JoinerStage, SponsorStage};
use space_convergence::error::WorkspaceConvergenceError;
use space_convergence::keys::{accept_draw16, accept_draw32};
use space_convergence::joiner::{load_join_recovery_material, start_join, validate_join_recovery_material, JoinRecoveryMaterial, JoinStart};
use space_convergence::local_join::{
    after_start_conflict, cancel_join_space, current_local_join, BindingDecode, CurrentJoinStatus, JoinProjection,
};
use space_convergence::message::{outbound_message, OutboxPurpose};

fn material() -> JoinRecoveryMaterial {
    JoinRecoveryMaterial {
        pending_security_state: b"pending".to_vec(),
        candidate_key_package: b"key package".to_vec(),
        member_instance: [8; 32],
        resume_public_key: vec![2; 32],
        resume_private_key: vec![3; 32],
    }
}

fn plain_start(existing: Option<AdmissionAttempt>, payload: &[u8], preserve: bool) -> Result<JoinStart, WorkspaceConvergenceError> {
    start_join(&[1; 32], existing, &[2; 16], b"sponsor", payload, b"pending", b"kp", None, None, preserve, 0)
}

#[test]
fn start_record_holds_the_join_request_and_the_material() {
    let start = start_join(
        &[1; 32],
        None,
        &[2; 16],
        b"sponsor",
        b"request",
        b"pending",
        b"key package",
        Some(b"access".as_slice()),
        Some(&material()),
        true,
        7,
    )
    .unwrap();
    assert!(start.create);
    let record = start.attempt;
    assert_eq!(record.role, AdmissionRole::Joiner(JoinerStage::Initiated));
    assert_eq!(record.record_version, 0);
    assert_eq!(record.join_id, Some([2; 16]));
    assert_eq!(record.local_join_ordinal, Some(7));
    assert_eq!(record.target_access_state, Some(b"access".to_vec()));
    assert_eq!(record.joiner_member_instance, Some([8; 32]));
    assert_eq!(record.resume_private_key, Some(vec![3; 32]));
    assert!(record.preserve_unreadable_history);
    assert_eq!(record.outboxes, vec![outbound_message(&[1; 32], OutboxPurpose::JoinRequest, b"sponsor", None, b"request")]);

    let mut short_key = material();
    short_key.resume_public_key = vec![2; 31];
    let refused = start_join(&[1; 32], None, &[2; 16], b"sponsor", b"request", b"pending", b"key package", None, Some(&short_key), false, 7);
    assert!(matches!(refused, Err(WorkspaceConvergenceError::Inconsistent(_))));
}

#[test]
fn repeated_start_returns_the_saved_record_and_other_input_is_refused() {
    let saved = plain_start(None, b"request", false).unwrap().attempt;
    let again = plain_start(Some(saved.clone()), b"request", false).unwrap();
    assert!(!again.create);
    assert_eq!(again.attempt.outboxes, saved.outboxes);

    let other_payload = plain_start(Some(saved.clone()), b"other", false);
    assert!(matches!(other_payload, Err(WorkspaceConvergenceError::AdmissionStorage(_))));
    let other_join = start_join(&[1; 32], Some(saved.clone()), &[9; 16], b"sponsor", b"request", b"pending", b"kp", None, None, false, 0);
    assert!(matches!(other_join, Err(WorkspaceConvergenceError::AdmissionStorage(_))));
    let with_material =
        start_join(&[1; 32], Some(saved.clone()), &[2; 16], b"sponsor", b"request", b"pending", b"kp", None, Some(&material()), false, 0);
    assert!(matches!(with_material, Err(WorkspaceConvergenceError::AdmissionStorage(_))));
    let other_policy = plain_start(Some(saved), b"request", true);
    assert_eq!(other_policy.unwrap_err(), WorkspaceConvergenceError::AdmissionInProgress);
}

#[test]
fn recovery_material_is_read_back_only_from_an_initiated_join() {
    assert_eq!(load_join_recovery_material(&None).unwrap_err(), WorkspaceConvergenceError::JoinNotFound);
    let saved = start_join(&[1; 32], None, &[2; 16], b"sponsor", b"request", b"pending", b"key package", None, Some(&material()), false, 0)
        .unwrap()
        .attempt;
    let read = load_join_recovery_material(&Some(saved.clone())).unwrap();
    assert_eq!(read.pending_security_state, b"pending".to_vec());
    assert_eq!(read.member_instance, [8; 32]);
    assert_eq!(read.resume_public_key, vec![2; 32]);

    let mut advanced = saved.clone();
    advanced.role = AdmissionRole::Joiner(JoinerStage::Candidate);
    assert!(matches!(load_join_recovery_material(&Some(advanced)), Err(WorkspaceConvergenceError::Inconsistent(_))));
    let mut keyless = saved;
    keyless.resume_private_key = None;
    assert!(matches!(load_join_recovery_material(&Some(keyless)), Err(WorkspaceConvergenceError::Inconsistent(_))));

    let mut empty = material();
    empty.pending_security_state.clear();
    assert!(validate_join_recovery_material(&empty).is_err());
    assert!(validate_join_recovery_material(&material()).is_ok());
}

#[test]
fn start_conflict_retries_only_while_the_pending_join_can_be_replaced() {
    assert_eq!(after_start_conflict(&None).unwrap_err(), WorkspaceConvergenceError::AdmissionInProgress);
    let mut pending = plain_start(None, b"r", false).unwrap().attempt;
    assert!(after_start_conflict(&Some(pending.clone())).is_ok());
    pending.role = AdmissionRole::Joiner(JoinerStage::Prepared);
    assert_eq!(after_start_conflict(&Some(pending.clone())).unwrap_err(), WorkspaceConvergenceError::PreviousJoinCannotBeSuperseded);
    pending.role = AdmissionRole::Sponsor(SponsorStage::Accepted);
    assert!(after_start_conflict(&Some(pending)).is_ok());
}

#[test]
fn stage_requirements_refuse_messages_out_of_order() {
    let mut record = plain_start(None, b"r", false).unwrap().attempt;
    assert!(require_joiner_stage(&record, JoinerStage::Initiated).is_ok());
    assert!(matches!(require_joiner_stage(&record, JoinerStage::Prepared), Err(WorkspaceConvergenceError::Inconsistent(_))));
    assert!(require_sponsor_stage(&record, SponsorStage::Accepted).is_err());
    record.role = AdmissionRole::Sponsor(SponsorStage::Committed);
    assert!(require_sponsor_stage(&record, SponsorStage::Committed).is_ok());
    assert!(require_joiner_stage(&record, JoinerStage::Initiated).is_err());
}

#[test]
fn durable_join_starts_once_and_survives_owner_restart() {
    let attempt_id = [0x31; 32];
    let join_id = [0x32; 16];
    let start = |existing: Option<AdmissionAttempt>| {
        start_join(
            &attempt_id,
            existing,
            &join_id,
            b"sponsor",
            b"join-request",
            b"joiner-pending-state",
            b"joiner-key-package",
            Some(b"joiner-target-access".as_slice()),
            None,
            false,
            0,
        )
    };
    let first = start(None).unwrap().attempt;
    assert_eq!(first.local_join_ordinal, Some(0));
    assert_eq!(first.role, AdmissionRole::Joiner(JoinerStage::Initiated));
    assert_eq!(first.outboxes.len(), 1);
    assert_eq!(first.outboxes[0].purpose, OutboxPurpose::JoinRequest);

    let projection = Some(JoinProjection { attempt_id, join_id, terminal_result: None, rejection_reason: None });
    let status = current_local_join(&projection, &Some(first.clone()), None, &BindingDecode::Absent, None).unwrap();
    assert!(matches!(
        status,
        Some(CurrentJoinStatus::Pending {
            join_id: projected,
            target_space_id: None,
            sponsor_device_id: None,
            sponsor_identity_fingerprint: None,
            cancel_requested: false,
        }) if projected == join_id
    ));

    // A restarted owner finds the saved start and returns it unchanged.
    let second = start(Some(first.clone())).unwrap();
    assert!(!second.create);
    assert_eq!(second.attempt.outboxes, first.outboxes);
    assert_eq!(second.attempt.record_version, first.record_version);
    assert_eq!(second.attempt.target_access_state, first.target_access_state);

    let cancelled = cancel_join_space(&projection, &join_id, Some(second.attempt)).unwrap().save.unwrap();
    let status = current_local_join(&projection, &Some(cancelled), None, &BindingDecode::Absent, None).unwrap();
    assert!(matches!(status, Some(CurrentJoinStatus::Pending { cancel_requested: true, .. })));
    assert_eq!(cancel_join_space(&projection, &[0xff; 16], None).unwrap_err(), WorkspaceConvergenceError::JoinNotFound);
}

#[test]
fn all_zero_draws_are_redrawn() {
    assert_eq!(accept_draw32([0; 32]), None);
    let mut one = [0u8; 32];
    one[31] = 1;
    assert_eq!(accept_draw32(one), Some(one));
    assert_eq!(accept_draw16([0; 16]), None);
    assert_eq!(accept_draw16([9; 16]), Some([9; 16]));
}
