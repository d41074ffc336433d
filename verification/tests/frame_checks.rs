use sha2::{Digest, Sha256};
use space_convergence::attempt::{new_joiner, AdmissionAttempt, AdmissionChangeFacts, JoinerStage, SecurityDelivery};
use space_convergence::error::WorkspaceConvergenceError;
use space_convergence::frames::{
    accept_frame, joiner_frame_gate, JoinerFrameGate, check_commit_payload, check_completion_digest, check_embedded_message, check_completion, check_legacy_base, check_prepared_proof,
    check_stored_base_history, missing_attempt_error, sponsor_commit_payload, sponsor_completion, sponsor_device_of, CompletionFacts,
    LegacyBaseFacts, PreparedProofFacts, COMPLETION_FORMAT_V1, PREPARED_PROOF_FORMAT_V1,
};
use space_convergence::message::{outbound_message, OutboxPurpose};
use space_convergence::payload::{completion_recovery_route, DurableAdmissionCommitPayload, FORMAT_V1};

fn facts(instance: u8, device: &str) -> AdmissionChangeFacts {
    AdmissionChangeFacts {
        member_instance: [instance; 32],
        device_id: device.to_owned(),
        device_name: "name".to_owned(),
        identity_fingerprint: "FP".to_owned(),
        transport_public_key: vec![instance; 3],
        transport_address_blob: vec![instance; 5],
        identity_signature: vec![],
    }
}

fn delivery() -> SecurityDelivery {
    SecurityDelivery { recipient: "third".to_owned(), credential_id: [0x73; 32], payload: vec![1, 2] }
}

fn joiner_record() -> AdmissionAttempt {
    let mut a = new_joiner([4; 32], [5; 16], JoinerStage::Candidate);
    a.prepared_proof = Some(b"proof".to_vec());
    a.resume_public_key = Some(vec![6; 32]);
    a.existing_member_security_deliveries = Some(vec![delivery()]);
    a.target_relationships = Some(vec![facts(1, "sponsor"), facts(2, "joiner")]);
    a
}

fn commit_payload() -> DurableAdmissionCommitPayload {
    DurableAdmissionCommitPayload {
        format_version: FORMAT_V1,
        candidate_event_id: [0x50; 32],
        security_commitment_id: [0x30; 32],
        prepared_proof: b"proof".to_vec(),
        resume_public_key: vec![6; 32],
        existing_member_deliveries: vec![delivery()],
        completion_recovery_routes: vec![
            completion_recovery_route(&facts(1, "sponsor")),
            completion_recovery_route(&facts(2, "joiner")),
        ],
    }
}

#[test]
fn frame_is_accepted_only_with_the_rebuilt_identifier() {
    let expected = outbound_message(&[1; 32], OutboxPurpose::Commit, b"joiner", Some([2; 32]), b"commit");
    let accepted =
        accept_frame(true, &[1; 32], OutboxPurpose::Commit, b"joiner", Some([2; 32]), b"commit", &expected.message_id)
            .unwrap();
    assert_eq!(accepted.message_id, expected.message_id);
    assert_eq!(accepted.payload, b"commit".to_vec());

    let forged = accept_frame(true, &[1; 32], OutboxPurpose::Commit, b"joiner", Some([2; 32]), b"other", &expected.message_id);
    assert_eq!(forged.unwrap_err(), WorkspaceConvergenceError::InvalidConfirmation);
    let wrong_kind =
        accept_frame(false, &[1; 32], OutboxPurpose::Commit, b"joiner", Some([2; 32]), b"commit", &expected.message_id);
    assert_eq!(wrong_kind.unwrap_err(), WorkspaceConvergenceError::InvalidConfirmation);
}

#[test]
fn missing_attempt_needs_recovery_only_after_a_compacted_replacement() {
    assert_eq!(missing_attempt_error(true), WorkspaceConvergenceError::RecoveryRequired);
    assert_eq!(missing_attempt_error(false), WorkspaceConvergenceError::JoinNotFound);
}

#[test]
fn commit_payload_must_bind_the_saved_candidate() {
    let attempt = joiner_record();
    assert!(check_commit_payload(&attempt, &commit_payload(), &[0x50; 32], &[0x30; 32]).is_ok());

    assert_eq!(
        check_commit_payload(&attempt, &commit_payload(), &[0x51; 32], &[0x30; 32]).unwrap_err(),
        WorkspaceConvergenceError::InvalidConfirmation
    );
    let mut other_proof = commit_payload();
    other_proof.prepared_proof = b"forged".to_vec();
    assert_eq!(
        check_commit_payload(&attempt, &other_proof, &[0x50; 32], &[0x30; 32]).unwrap_err(),
        WorkspaceConvergenceError::InvalidConfirmation
    );
    let mut other_route = commit_payload();
    other_route.completion_recovery_routes[1].transport_address_blob = vec![9];
    assert_eq!(
        check_commit_payload(&attempt, &other_route, &[0x50; 32], &[0x30; 32]).unwrap_err(),
        WorkspaceConvergenceError::InvalidConfirmation
    );
    let mut missing_route = commit_payload();
    missing_route.completion_recovery_routes.pop();
    assert_eq!(
        check_commit_payload(&attempt, &missing_route, &[0x50; 32], &[0x30; 32]).unwrap_err(),
        WorkspaceConvergenceError::InvalidConfirmation
    );

    let mut no_relationships = joiner_record();
    no_relationships.target_relationships = None;
    assert!(matches!(
        check_commit_payload(&no_relationships, &commit_payload(), &[0x50; 32], &[0x30; 32]),
        Err(WorkspaceConvergenceError::Inconsistent(_))
    ));
}

#[test]
fn sponsor_device_is_the_first_relationship_of_the_author() {
    let rels = Some(vec![facts(2, "joiner"), facts(1, "sponsor"), facts(1, "second")]);
    assert_eq!(sponsor_device_of(&rels, &[1; 32]).unwrap(), "sponsor");
    assert_eq!(sponsor_device_of(&rels, &[7; 32]).unwrap_err(), WorkspaceConvergenceError::InvalidConfirmation);
    assert_eq!(sponsor_device_of(&None, &[1; 32]).unwrap_err(), WorkspaceConvergenceError::InvalidConfirmation);
}

fn completion(receipt: &[u8]) -> CompletionFacts {
    CompletionFacts {
        format_version: COMPLETION_FORMAT_V1,
        attempt_id: [4; 32],
        event_id: [0x50; 32],
        activation_receipt_digest: Sha256::digest(receipt).into(),
        security_commitment_id: [0x30; 32],
        completed_by_member_instance: [1; 32],
        completed_by_credential_id: [0x71; 32],
        completed_history_position: b"position".to_vec(),
    }
}

#[test]
fn completion_must_bind_the_digest_of_the_saved_receipt() {
    let check = |c: &CompletionFacts, credential: Option<[u8; 32]>, active: bool, signed: bool| {
        check_completion(c, &[4; 32], &[0x50; 32], b"receipt", &[0x30; 32], &credential, b"position", active, signed)
    };
    assert!(check(&completion(b"receipt"), Some([0x71; 32]), true, true).is_ok());
    // The digest of another receipt, or the receipt itself, is refused.
    assert_eq!(
        check(&completion(b"other receipt"), Some([0x71; 32]), true, true).unwrap_err(),
        WorkspaceConvergenceError::InvalidConfirmation
    );
    let mut raw = completion(b"receipt");
    raw.activation_receipt_digest = [0; 32];
    raw.activation_receipt_digest[..7].copy_from_slice(b"receipt");
    assert!(check(&raw, Some([0x71; 32]), true, true).is_err());
    assert!(check(&completion(b"receipt"), None, true, true).is_err());
    assert!(check(&completion(b"receipt"), Some([0x72; 32]), true, true).is_err());
    assert!(check(&completion(b"receipt"), Some([0x71; 32]), false, true).is_err());
    assert!(check(&completion(b"receipt"), Some([0x71; 32]), true, false).is_err());
    let mut later = completion(b"receipt");
    later.format_version = COMPLETION_FORMAT_V1 + 1;
    assert!(check(&later, Some([0x71; 32]), true, true).is_err());
}

#[test]
fn stored_base_history_must_belong_to_the_workspace_with_an_active_local_member() {
    assert!(check_stored_base_history(&"space-a".to_owned(), &"space-a".to_owned(), true).is_ok());
    assert_eq!(
        check_stored_base_history(&"space-b".to_owned(), &"space-a".to_owned(), true).unwrap_err(),
        WorkspaceConvergenceError::RecoveryRequired
    );
    assert_eq!(
        check_stored_base_history(&"space-a".to_owned(), &"space-a".to_owned(), false).unwrap_err(),
        WorkspaceConvergenceError::RecoveryRequired
    );
}

fn solo_history() -> LegacyBaseFacts {
    LegacyBaseFacts {
        removed: false,
        own_instance: Some([1; 32]),
        current_instance: [1; 32],
        remote_members: false,
        has_reconciliation: true,
        head_known: true,
        known_event_count: 1,
        effective_members: vec![[1; 32]],
        head_author: [1; 32],
        head_adds: Some(([1; 32], true)),
    }
}

#[test]
fn pre_versioned_history_forms_a_base_only_for_a_lone_self_added_device() {
    assert!(check_legacy_base(&solo_history()).is_ok());
    let mut removed = solo_history();
    removed.removed = true;
    assert_eq!(check_legacy_base(&removed).unwrap_err(), WorkspaceConvergenceError::OwnInstanceRemoved);
    let mut shared = solo_history();
    shared.remote_members = true;
    assert_eq!(check_legacy_base(&shared).unwrap_err(), WorkspaceConvergenceError::RecoveryRequired);
    let mut two_events = solo_history();
    two_events.known_event_count = 2;
    assert_eq!(check_legacy_base(&two_events).unwrap_err(), WorkspaceConvergenceError::RecoveryRequired);
    let mut other_device = solo_history();
    other_device.head_adds = Some(([1; 32], false));
    assert_eq!(check_legacy_base(&other_device).unwrap_err(), WorkspaceConvergenceError::RecoveryRequired);
    let mut unknown = solo_history();
    unknown.own_instance = None;
    assert_eq!(check_legacy_base(&unknown).unwrap_err(), WorkspaceConvergenceError::RecoveryRequired);
}

#[test]
fn sponsor_commit_payload_is_accepted_by_the_joiner_that_holds_the_same_candidate() {
    let mut sponsor = joiner_record();
    sponsor.prepared_proof = None;
    let payload = sponsor_commit_payload(&sponsor, &[0x50; 32], &[0x30; 32], b"proof").unwrap();
    assert_eq!(payload.format_version, FORMAT_V1);
    assert_eq!(payload.prepared_proof, b"proof".to_vec());
    assert_eq!(payload.completion_recovery_routes.len(), 2);
    assert_eq!(payload.completion_recovery_routes[1].device_id, "joiner");
    assert!(check_commit_payload(&joiner_record(), &payload, &[0x50; 32], &[0x30; 32]).is_ok());

    let mut keyless = sponsor;
    keyless.resume_public_key = None;
    assert!(matches!(
        sponsor_commit_payload(&keyless, &[0x50; 32], &[0x30; 32], b"proof"),
        Err(WorkspaceConvergenceError::Inconsistent(_))
    ));
}

fn proof_facts() -> PreparedProofFacts {
    PreparedProofFacts {
        format_version: PREPARED_PROOF_FORMAT_V1,
        attempt_id: [4; 32],
        lineage_id: "space-a".to_owned(),
        base_history_position: b"position".to_vec(),
        candidate_event_id: [0x50; 32],
        target_members_digest: [0x60; 32],
        security_commitment_id: [0x30; 32],
        joiner_member_instance: [2; 32],
        joiner_credential_id: [0x72; 32],
    }
}

#[test]
fn prepared_proof_must_bind_the_sponsor_candidate_and_the_joiner() {
    let check = |p: &PreparedProofFacts, signed: bool| {
        check_prepared_proof(
            p,
            &[4; 32],
            &"space-a".to_owned(),
            b"position",
            &[0x50; 32],
            &[0x60; 32],
            &[0x30; 32],
            &[2; 32],
            &[0x72; 32],
            signed,
        )
    };
    assert!(check(&proof_facts(), true).is_ok());
    assert_eq!(check(&proof_facts(), false).unwrap_err(), WorkspaceConvergenceError::InvalidConfirmation);
    let mut other_space = proof_facts();
    other_space.lineage_id = "space-b".to_owned();
    assert!(check(&other_space, true).is_err());
    let mut other_joiner = proof_facts();
    other_joiner.joiner_member_instance = [3; 32];
    assert!(check(&other_joiner, true).is_err());
    let mut later = proof_facts();
    later.format_version = PREPARED_PROOF_FORMAT_V1 + 1;
    assert!(check(&later, true).is_err());
}

#[test]
fn sponsor_completion_binds_the_receipt_digest_and_is_accepted_by_the_joiner() {
    let made = sponsor_completion(&[4; 32], &[0x50; 32], b"receipt", &[0x30; 32], &[1; 32], &[0x71; 32], b"position", true)
        .unwrap();
    let digest: [u8; 32] = Sha256::digest(b"receipt").into();
    assert_eq!(made.activation_receipt_digest, digest);
    assert_ne!(made.activation_receipt_digest, [0; 32]);
    assert_eq!(made.completed_by_member_instance, [1; 32]);
    assert!(check_completion(&made, &[4; 32], &[0x50; 32], b"receipt", &[0x30; 32], &Some([0x71; 32]), b"position", true, true)
        .is_ok());
    assert_eq!(
        sponsor_completion(&[4; 32], &[0x50; 32], b"receipt", &[0x30; 32], &[1; 32], &[0x71; 32], b"position", false)
            .unwrap_err(),
        WorkspaceConvergenceError::OwnInstanceRemoved
    );
}

#[test]
fn embedded_cleanup_must_match_the_frame_it_travels_in() {
    let cancel = outbound_message(&[1; 32], OutboxPurpose::CancelRequested, b"sponsor", Some([2; 32]), b"cancel_requested");
    assert!(check_embedded_message(true, &cancel, OutboxPurpose::CancelRequested, &cancel.message_id, &Some([2; 32])).is_ok());
    assert_eq!(
        check_embedded_message(true, &cancel, OutboxPurpose::CancelRequested, &cancel.message_id, &None).unwrap_err(),
        WorkspaceConvergenceError::InvalidConfirmation
    );
    assert!(check_embedded_message(true, &cancel, OutboxPurpose::Rejected, &cancel.message_id, &Some([2; 32])).is_err());
    assert!(check_embedded_message(true, &cancel, OutboxPurpose::CancelRequested, &[0; 32], &Some([2; 32])).is_err());
    assert!(check_embedded_message(false, &cancel, OutboxPurpose::CancelRequested, &cancel.message_id, &Some([2; 32])).is_err());
}

#[test]
fn single_member_legacy_history_forms_an_honest_v2_admission_base() {
    assert!(check_legacy_base(&solo_history()).is_ok());
}

#[test]
fn multi_member_legacy_history_cannot_claim_complete_v2_verification() {
    let mut shared = solo_history();
    shared.remote_members = true;
    assert_eq!(check_legacy_base(&shared).unwrap_err(), WorkspaceConvergenceError::RecoveryRequired);
}

#[test]
fn completion_digest_check_compares_the_given_digest() {
    let c = completion(b"receipt");
    let digest = c.activation_receipt_digest;
    assert!(check_completion_digest(&c, &[4; 32], &[0x50; 32], &digest, &[0x30; 32], &Some([0x71; 32]), b"position", true, true).is_ok());
    assert!(check_completion_digest(&c, &[4; 32], &[0x50; 32], &[0; 32], &[0x30; 32], &Some([0x71; 32]), b"position", true, true).is_err());
    assert!(check_completion_digest(&c, &[4; 32], &[0x50; 32], &digest, &[0x30; 32], &Some([0x71; 32]), b"other", true, true).is_err());
}

#[test]
fn joiner_frame_gate_refuses_late_frames_for_a_replaced_join() {
    let late = outbound_message(&[4; 32], OutboxPurpose::Commit, b"joiner", Some([8; 32]), b"late-commit");
    assert_eq!(joiner_frame_gate(None, false, &late).unwrap_err(), WorkspaceConvergenceError::JoinNotFound);
    assert_eq!(joiner_frame_gate(None, true, &late).unwrap_err(), WorkspaceConvergenceError::RecoveryRequired);
    let live = joiner_record();
    assert!(matches!(joiner_frame_gate(Some(live), false, &late).unwrap(), JoinerFrameGate::Live(a) if a.attempt_id == [4; 32]));
    let mut replaced = joiner_record();
    replaced.terminal_result = Some(space_convergence::attempt::TerminalResult::SupersededByNewJoin);
    match joiner_frame_gate(Some(replaced), false, &late).unwrap() {
        JoinerFrameGate::Superseded(step) => {
            let saved = step.save.unwrap();
            assert!(saved.inbox_dedup.iter().any(|r| r.message_id == late.message_id));
        }
        JoinerFrameGate::Live(_) => panic!("a replaced join is not live"),
    }
}
