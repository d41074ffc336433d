use space_convergence::discovery::{
    check_applied_epoch, gossip_reconcile_delay, is_pending, map_relayed_updates_error,
    map_verified_peer_error, next_candidate_retry_at, next_reconcile_delay, reconcile_deferred,
    relayed_update_step, candidate_error_defers, member_error_defers, needs_update_pull, record_candidate_result,
    record_deferred, record_member_result, record_pull_result, AttestationEndpointError, CandidateSchedule,
    CandidateStatus, GossipPassOutcome, MembershipConvergenceError, RelayedStep, attestation_failure_step,
    AttestationError, CandidateFailure, sponsor_seed_action, SeedAction,
};

fn jitter_seed(init: u64, bytes: &[u8]) -> u64 {
    bytes
        .iter()
        .fold(init, |sum, byte| sum.wrapping_mul(31).wrapping_add(u64::from(*byte)))
}

#[test]
fn candidate_retry_backs_off_and_has_stable_jitter() {
    let device = b"device-b";
    let first = next_candidate_retry_at(0, device, 1_000);
    let second = next_candidate_retry_at(1, device, 1_000);
    let third = next_candidate_retry_at(2, device, 1_000);

    assert!(first >= 31_000);
    assert!(second > first);
    assert!(third > second);
    assert_eq!(third, next_candidate_retry_at(2, device, 1_000));
}

#[test]
fn retry_deadline_is_base_plus_device_jitter() {
    let device = b"device-b";
    for (count, base) in [(0u32, 30_000i64), (1, 60_000), (2, 120_000), (3, 240_000), (4, 300_000), (9, 300_000)] {
        let jitter = (jitter_seed(u64::from(count), device) % (base / 5) as u64) as i64;
        assert_eq!(next_candidate_retry_at(count, device, 5_000), 5_000 + base + jitter);
    }
}

#[test]
fn retry_deadline_saturates_at_the_end_of_time() {
    assert_eq!(next_candidate_retry_at(3, b"device", i64::MAX - 10), i64::MAX);
}

#[test]
fn gossip_delay_is_five_minutes_plus_stable_jitter() {
    let device = b"device-a";
    let expected = 300_000 + jitter_seed(0, device) % 60_000;
    assert_eq!(gossip_reconcile_delay(device), expected);
    assert_eq!(gossip_reconcile_delay(b""), 300_000);
    for id in [&b"a"[..], b"device-b", b"a-much-longer-device-identifier"] {
        let delay = gossip_reconcile_delay(id);
        assert!((300_000..360_000).contains(&delay));
    }
}

#[test]
fn scheduled_reconcile_uses_the_persisted_candidate_retry_deadline() {
    let fallback = gossip_reconcile_delay(b"device-a");
    let schedule = Some((
        vec![CandidateSchedule { status: CandidateStatus::WaitingForPeer, next_attempt_at: Some(31_500) }],
        Vec::new(),
    ));
    assert_eq!(next_reconcile_delay(fallback, &schedule, 1_000), 30_500);
}

#[test]
fn reconcile_delay_takes_the_earliest_due_item_within_bounds() {
    let fallback = 300_000;
    let schedule = Some((
        vec![
            CandidateSchedule { status: CandidateStatus::Pending, next_attempt_at: Some(50_000) },
            CandidateSchedule { status: CandidateStatus::Ready, next_attempt_at: Some(1_500) },
            CandidateSchedule { status: CandidateStatus::Blocked, next_attempt_at: None },
        ],
        vec![20_000, 90_000],
    ));
    assert_eq!(next_reconcile_delay(fallback, &schedule, 1_000), 19_000);
    let verifying = Some((
        vec![CandidateSchedule { status: CandidateStatus::Verifying, next_attempt_at: None }],
        Vec::new(),
    ));
    assert_eq!(next_reconcile_delay(fallback, &verifying, 1_000), 100);
    let far = Some((Vec::new(), vec![10_000_000]));
    assert_eq!(next_reconcile_delay(fallback, &far, 1_000), fallback);
    let passed = Some((Vec::new(), vec![500]));
    assert_eq!(next_reconcile_delay(fallback, &passed, 1_000), fallback);
    assert_eq!(next_reconcile_delay(fallback, &None, 1_000), fallback);
    assert_eq!(next_reconcile_delay(fallback, &Some((Vec::new(), Vec::new())), 1_000), fallback);
}

#[test]
fn pending_statuses_and_deferral() {
    assert!(is_pending(CandidateStatus::Pending));
    assert!(is_pending(CandidateStatus::WaitingForPeer));
    assert!(is_pending(CandidateStatus::WaitingForUpdate));
    assert!(is_pending(CandidateStatus::Verifying));
    assert!(!is_pending(CandidateStatus::Ready));
    assert!(!is_pending(CandidateStatus::Blocked));
    assert!(!is_pending(CandidateStatus::Rejected));
    assert!(reconcile_deferred(Some(2_000), CandidateStatus::Pending, 1_000));
    assert!(!reconcile_deferred(Some(1_000), CandidateStatus::Pending, 1_000));
    assert!(!reconcile_deferred(None, CandidateStatus::Verifying, 1_000));
    assert!(reconcile_deferred(None, CandidateStatus::Pending, 1_000));
}

#[test]
fn relayed_security_updates_are_applied_contiguously() {
    assert_eq!(relayed_update_step(3, 3, 4, true), Ok(RelayedStep::Apply));
    assert_eq!(relayed_update_step(4, 3, 4, true), Ok(RelayedStep::Skip));
    assert_eq!(relayed_update_step(3, 4, 5, true), Err(MembershipConvergenceError::WaitingForUpdate));
    assert_eq!(relayed_update_step(3, 3, 5, true), Err(MembershipConvergenceError::VerificationRejected));
    assert_eq!(relayed_update_step(3, 3, 4, false), Err(MembershipConvergenceError::VerificationRejected));
    assert_eq!(
        relayed_update_step(0, u64::MAX, u64::MAX, true),
        Err(MembershipConvergenceError::WaitingForUpdate)
    );
    assert_eq!(check_applied_epoch(4, 4), Ok(4));
    assert_eq!(check_applied_epoch(5, 4), Err(MembershipConvergenceError::VerificationRejected));
}

#[test]
fn endpoint_errors_are_classified() {
    assert_eq!(
        map_relayed_updates_error(&MembershipConvergenceError::WaitingForUpdate),
        AttestationEndpointError::MissingSecurityUpdate
    );
    assert_eq!(
        map_relayed_updates_error(&MembershipConvergenceError::CandidateNotFound),
        AttestationEndpointError::Rejected
    );
    assert_eq!(
        map_relayed_updates_error(&MembershipConvergenceError::Storage("disk".into())),
        AttestationEndpointError::Persistence
    );
    assert_eq!(
        map_verified_peer_error(&MembershipConvergenceError::WaitingForUpdate),
        AttestationEndpointError::Persistence
    );
    assert_eq!(
        map_verified_peer_error(&MembershipConvergenceError::InvalidCandidate("x".into())),
        AttestationEndpointError::Rejected
    );
    assert!(candidate_error_defers(&MembershipConvergenceError::WaitingForUpdate));
    assert!(!member_error_defers(&MembershipConvergenceError::WaitingForUpdate));
    assert!(member_error_defers(&MembershipConvergenceError::PeerUnavailable));
    assert!(!candidate_error_defers(&MembershipConvergenceError::Relationship("x".into())));
}

#[test]
fn gossip_pass_tally_counts_deferrable_failures_and_stops_on_others() {
    let mut outcome = GossipPassOutcome::default();
    assert!(record_candidate_result(&mut outcome, Ok(())).is_ok());
    assert!(record_candidate_result(&mut outcome, Err(MembershipConvergenceError::WaitingForUpdate)).is_ok());
    assert!(record_member_result(&mut outcome, Ok(())).is_ok());
    assert!(record_member_result(&mut outcome, Err(MembershipConvergenceError::PeerUnavailable)).is_ok());
    assert!(record_pull_result(&mut outcome, Ok(3)).is_ok());
    record_deferred(&mut outcome);
    assert_eq!(
        outcome,
        GossipPassOutcome { delivered_batches: 0, confirmed_candidates: 1, synchronized_members: 1, deferred_items: 3 }
    );
    // A member waiting for an update is no deferrable member failure.
    let before = outcome;
    assert_eq!(
        record_member_result(&mut outcome, Err(MembershipConvergenceError::WaitingForUpdate)),
        Err(MembershipConvergenceError::WaitingForUpdate)
    );
    assert_eq!(
        record_candidate_result(&mut outcome, Err(MembershipConvergenceError::Storage("disk".to_owned()))),
        Err(MembershipConvergenceError::Storage("disk".to_owned()))
    );
    assert_eq!(outcome, before);

    let mut full = GossipPassOutcome { deferred_items: u64::MAX, ..GossipPassOutcome::default() };
    record_deferred(&mut full);
    assert_eq!(full.deferred_items, u64::MAX);
}

#[test]
fn update_pull_is_needed_only_for_a_candidate_waiting_for_an_update() {
    assert!(!needs_update_pull(&vec![]));
    assert!(!needs_update_pull(&vec![CandidateStatus::Pending, CandidateStatus::Verifying]));
    assert!(needs_update_pull(&vec![CandidateStatus::Pending, CandidateStatus::WaitingForUpdate]));
}

#[test]
fn failed_attestation_is_retried_after_backoff_unless_the_proof_was_rejected() {
    let retry = next_candidate_retry_at(2, b"peer-a", 1_000);
    let offline = attestation_failure_step(AttestationError::Offline, 2, b"peer-a", 1_000);
    assert_eq!(offline.failure, CandidateFailure::PeerOffline);
    assert_eq!(offline.retry_at_ms, Some(retry));
    assert_eq!(offline.error, MembershipConvergenceError::PeerUnavailable);
    let missing = attestation_failure_step(AttestationError::MissingSecurityUpdate, 2, b"peer-a", 1_000);
    assert_eq!(missing.failure, CandidateFailure::MissingSecurityUpdate);
    assert_eq!(missing.error, MembershipConvergenceError::WaitingForUpdate);
    let old = attestation_failure_step(AttestationError::VersionIncompatible, 0, b"peer-a", 1_000);
    assert_eq!(old.failure, CandidateFailure::VersionIncompatible);
    assert_eq!(old.retry_at_ms, Some(next_candidate_retry_at(0, b"peer-a", 1_000)));
    let rejected = attestation_failure_step(AttestationError::Rejected, 2, b"peer-a", 1_000);
    assert_eq!(rejected.failure, CandidateFailure::InvalidProof);
    assert_eq!(rejected.retry_at_ms, None);
    assert_eq!(rejected.error, MembershipConvergenceError::VerificationRejected);
    for error in [AttestationError::Offline, AttestationError::Transport, AttestationError::Rejected] {
        assert!(candidate_error_defers(&attestation_failure_step(error, 1, b"x", 0).error));
    }
}

#[test]
fn sponsor_seed_cannot_replace_formal_member_identity() {
    let fp = |s: &str| Some(s.to_owned());
    assert_eq!(
        sponsor_seed_action(&fp("FORMAL"), &"OTHER".to_owned(), &None),
        Err(MembershipConvergenceError::VerificationRejected)
    );
    assert_eq!(
        sponsor_seed_action(&fp("FORMAL"), &"FORMAL".to_owned(), &fp("STALE")),
        Err(MembershipConvergenceError::VerificationRejected)
    );
    assert_eq!(sponsor_seed_action(&fp("FORMAL"), &"FORMAL".to_owned(), &fp("FORMAL")), Ok(SeedAction::MergeAndAdmit));
}

#[test]
fn sponsor_seed_for_formal_member_does_not_create_pending_candidate() {
    let formal = Some("FORMAL".to_owned());
    assert_eq!(sponsor_seed_action(&formal, &"FORMAL".to_owned(), &None), Ok(SeedAction::ValidateOnly));
    assert_eq!(sponsor_seed_action(&None, &"NEW".to_owned(), &None), Ok(SeedAction::Create));
    assert_eq!(sponsor_seed_action(&None, &"NEW".to_owned(), &Some("NEW".to_owned())), Ok(SeedAction::Merge));
}
