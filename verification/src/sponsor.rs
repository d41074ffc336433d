//! Sponsor-side admission transitions: commit, refusals before commit and
//! the base-history guard.
use vstd::prelude::*;
use crate::attempt::{
    accept_incoming, accept_incoming_view, active_outbox, active_outbox_id, advance_version,
    advanced, first_active, outboxes_contain, rank_at_least, rank_reaches, supersede_outboxes,
    supersede_purposes, with_outboxes, loaded_view, AdmissionAttempt, AdmissionRole, AttemptView, SponsorStage,
    TerminalResult,
};
use crate::bytes::{base_history_changed_bytes, bytes_to_vec, lit_base_history_changed, opt_bytes_is, opt_bytes_view};
use crate::error::{inconsistent, WorkspaceConvergenceError};
use crate::message::{
    outbound_message, outbound_view, require_message, MessageView, OutboxMessage, OutboxPurpose,
};
use crate::rejection::{encode_rejection_payload, rejection_payload, RejectionReason};
use crate::step::{
    advance_to, advance_with_history, answer, step_matches, ErrorKind, HistoryUpdate, Step,
    StepView,
};

verus! {

/// The copy of the first active outbox message with `purpose` as the answer,
/// or the out-of-order error.
pub open spec fn replay_active(a: AttemptView, purpose: OutboxPurpose) -> Result<StepView<MessageView>, ErrorKind> {
    match first_active(a.outboxes, purpose) {
        Some(i) => Ok(answer(a.outboxes[i])),
        None => Err(ErrorKind::Inconsistent),
    }
}

/// The saved record advanced by one version, or the overflow error.
pub open spec fn advance_or_fail<V>(next: AttemptView, output: V) -> Result<StepView<V>, ErrorKind> {
    if next.record_version == u64::MAX {
        Err(ErrorKind::Inconsistent)
    } else {
        Ok(advance_to(advanced(next), output))
    }
}

/// The record after a sponsor refusal: terminal, with its reason, in the
/// sponsor's rejected stage and with the `Rejected` message queued.
pub open spec fn sponsor_rejected_record(a: AttemptView, reason: RejectionReason, rejected: MessageView) -> AttemptView {
    AttemptView {
        terminal_result: Some(TerminalResult::Rejected),
        rejection_reason: Some(reason),
        role: AdmissionRole::Sponsor(SponsorStage::Rejected),
        outboxes: a.outboxes.push(rejected),
        ..a
    }
}

/// The refusals a sponsor can make before commit without a dedicated
/// transition.
pub open spec fn business_reason(reason: RejectionReason) -> bool {
    match reason {
        RejectionReason::InvitationUnavailable | RejectionReason::AuthenticationRejected
        | RejectionReason::IdentityConflict | RejectionReason::JoinerHistoryAhead
        | RejectionReason::HistoryConflict | RejectionReason::PeerUpgradeRequired => true,
        _ => false,
    }
}

/// The outcome of a sponsor refusal before commit.
pub open spec fn reject_before_commit_model(
    attempt_id: Seq<u8>,
    loaded: Option<AttemptView>,
    reason: RejectionReason,
    recipient: Seq<u8>,
) -> Result<StepView<MessageView>, ErrorKind> {
    if !business_reason(reason) {
        Err(ErrorKind::Inconsistent)
    } else {
        match loaded {
            None => Err(ErrorKind::Inconsistent),
            Some(a) => if a.role == AdmissionRole::Sponsor(SponsorStage::Rejected) && a.rejection_reason
                == Some(reason) {
                replay_active(a, OutboxPurpose::Rejected)
            } else if a.role != AdmissionRole::Sponsor(SponsorStage::Candidate) {
                Err(ErrorKind::Inconsistent)
            } else {
                match first_active(a.outboxes, OutboxPurpose::Candidate) {
                    None => Err(ErrorKind::Inconsistent),
                    Some(c) => {
                        let rejected = outbound_view(
                            attempt_id,
                            OutboxPurpose::Rejected,
                            recipient,
                            Some(a.outboxes[c].message_id),
                            rejection_payload(reason, Seq::empty()),
                        );
                        let cleared = with_outboxes(
                            a,
                            supersede_purposes(
                                a.outboxes,
                                seq![OutboxPurpose::Candidate, OutboxPurpose::Prepared],
                            ),
                        );
                        advance_or_fail(sponsor_rejected_record(cleared, reason, rejected), rejected)
                    },
                }
            },
        }
    }
}

/// Saves the result of a value-preserving transition: advances the version
/// and pairs it with `output`.
fn save_advanced<T>(next: AdmissionAttempt, output: T) -> (result: Result<Step<T>, WorkspaceConvergenceError>)
    ensures
        next@.record_version == u64::MAX ==> (result matches Err(e) && e is Inconsistent),
        next@.record_version < u64::MAX ==> (result matches Ok(s) && s.save matches Some(saved)
            && saved@ == advanced(next@) && !s.create && s.history is None && s.output == output),
{
    let saved = advance_version(next)?;
    Ok(Step { save: Some(saved), create: false, history: None, output })
}

/// A sponsor refuses an admission before commit for an ordinary reason; the
/// refusal is durable and replays as the same `Rejected` message.
pub fn sponsor_reject_before_commit(
    attempt_id: &[u8; 32],
    loaded: Option<AdmissionAttempt>,
    reason: RejectionReason,
    recipient: &[u8],
) -> (result: Result<Step<OutboxMessage>, WorkspaceConvergenceError>)
    ensures
        step_matches(
            result,
            reject_before_commit_model(attempt_id@, loaded_view(&loaded), reason, recipient@),
        ),
{
    match reason {
        RejectionReason::InvitationUnavailable | RejectionReason::AuthenticationRejected
        | RejectionReason::IdentityConflict | RejectionReason::JoinerHistoryAhead
        | RejectionReason::HistoryConflict | RejectionReason::PeerUpgradeRequired => {},
        _ => return Err(inconsistent("rejection reason requires its dedicated admission transition")),
    }
    let mut attempt = match loaded {
        Some(a) => a,
        None => return Err(inconsistent("admission attempt was not found")),
    };
    if attempt.role == AdmissionRole::Sponsor(SponsorStage::Rejected) && attempt.rejection_reason
        == Some(reason) {
        let replay = active_outbox(&attempt, OutboxPurpose::Rejected)?;
        return Ok(Step { save: None, create: false, history: None, output: replay });
    }
    if attempt.role != AdmissionRole::Sponsor(SponsorStage::Candidate) {
        return Err(inconsistent("sponsor admission message is out of order"));
    }
    let predecessor = active_outbox_id(&attempt, OutboxPurpose::Candidate)?;
    let no_detail: Vec<u8> = Vec::new();
    assert(no_detail@ =~= Seq::<u8>::empty());
    let payload = encode_rejection_payload(reason, no_detail.as_slice());
    let rejected = outbound_message(
        attempt_id,
        OutboxPurpose::Rejected,
        recipient,
        Some(predecessor),
        payload.as_slice(),
    );
    supersede_outboxes(&mut attempt, &[OutboxPurpose::Candidate, OutboxPurpose::Prepared]);
    proof {
        assert(seq![OutboxPurpose::Candidate, OutboxPurpose::Prepared] =~= [
            OutboxPurpose::Candidate,
            OutboxPurpose::Prepared,
        ]@);
    }
    let output = crate::attempt::copy_message(&rejected);
    mark_sponsor_rejected(&mut attempt, reason, rejected);
    save_advanced(attempt, output)
}

/// Makes the record a terminal sponsor refusal and queues `rejected`.
pub fn mark_sponsor_rejected(attempt: &mut AdmissionAttempt, reason: RejectionReason, rejected: OutboxMessage)
    ensures
        final(attempt)@ == sponsor_rejected_record(old(attempt)@, reason, rejected@),
{
    attempt.terminal_result = Some(TerminalResult::Rejected);
    attempt.rejection_reason = Some(reason);
    attempt.role = AdmissionRole::Sponsor(SponsorStage::Rejected);
    attempt.outboxes.push(rejected);
    assert(attempt@.outboxes =~= old(attempt)@.outboxes.push(rejected@));
}

/// The record with a prepared proof saved.
pub open spec fn with_prepared_proof(a: AttemptView, proof: Seq<u8>) -> AttemptView {
    AttemptView { prepared_proof: Some(proof), ..a }
}

/// Saves the prepared proof of the joiner.
pub fn set_prepared_proof(attempt: &mut AdmissionAttempt, proof: &[u8])
    ensures
        final(attempt)@ == with_prepared_proof(old(attempt)@, proof@),
{
    attempt.prepared_proof = Some(bytes_to_vec(proof));
}

/// The record with a new role.
pub open spec fn with_role(a: AttemptView, role: AdmissionRole) -> AttemptView {
    AttemptView { role, ..a }
}

/// Queues `message` after the existing outbox messages.
pub fn push_outbox(attempt: &mut AdmissionAttempt, message: OutboxMessage)
    ensures
        final(attempt)@ == with_outboxes(old(attempt)@, old(attempt)@.outboxes.push(message@)),
{
    attempt.outboxes.push(message);
    assert(attempt@.outboxes =~= old(attempt)@.outboxes.push(message@));
}

/// The outcome of refusing a commit because the sponsor's membership history
/// moved after the candidate was offered.
pub open spec fn base_history_changed_model(
    attempt_id: Seq<u8>,
    a: AttemptView,
    prepared: MessageView,
    proof: Seq<u8>,
    recipient: Seq<u8>,
) -> Result<StepView<MessageView>, ErrorKind> {
    match first_active(a.outboxes, OutboxPurpose::Candidate) {
        None => Err(ErrorKind::Inconsistent),
        Some(c) => if prepared != outbound_view(
            attempt_id,
            OutboxPurpose::Prepared,
            prepared.recipient,
            Some(a.outboxes[c].message_id),
            prepared.payload,
        ) {
            Err(ErrorKind::Inconsistent)
        } else {
            let rejected = outbound_view(
                attempt_id,
                OutboxPurpose::Rejected,
                recipient,
                Some(prepared.message_id),
                rejection_payload(RejectionReason::BaseHistoryChanged, lit_base_history_changed()),
            );
            let accepted = accept_incoming_view(a, prepared, seq![OutboxPurpose::Candidate]);
            advance_or_fail(
                sponsor_rejected_record(
                    with_prepared_proof(accepted, proof),
                    RejectionReason::BaseHistoryChanged,
                    rejected,
                ),
                rejected,
            )
        },
    }
}

/// Refuses the commit durably because the base history changed.
pub fn reject_base_history_changed(
    attempt_id: &[u8; 32],
    attempt: AdmissionAttempt,
    prepared_message: &OutboxMessage,
    prepared_proof: &[u8],
    recipient: &[u8],
) -> (result: Result<Step<OutboxMessage>, WorkspaceConvergenceError>)
    ensures
        step_matches(
            result,
            base_history_changed_model(attempt_id@, attempt@, prepared_message@, prepared_proof@, recipient@),
        ),
{
    let mut attempt = attempt;
    let candidate_id = active_outbox_id(&attempt, OutboxPurpose::Candidate)?;
    require_message(attempt_id, prepared_message, OutboxPurpose::Prepared, Some(candidate_id))?;
    accept_incoming(&mut attempt, prepared_message, &[OutboxPurpose::Candidate]);
    proof {
        assert(seq![OutboxPurpose::Candidate] =~= [OutboxPurpose::Candidate]@);
    }
    set_prepared_proof(&mut attempt, prepared_proof);
    let detail = base_history_changed_bytes();
    let payload = encode_rejection_payload(RejectionReason::BaseHistoryChanged, detail.as_slice());
    let rejected = outbound_message(
        attempt_id,
        OutboxPurpose::Rejected,
        recipient,
        Some(prepared_message.message_id),
        payload.as_slice(),
    );
    let output = crate::attempt::copy_message(&rejected);
    mark_sponsor_rejected(&mut attempt, RejectionReason::BaseHistoryChanged, rejected);
    save_advanced(attempt, output)
}

/// The record after the sponsor commits: proof saved, stage committed, the
/// `Prepared` message accepted and the `Commit` message queued.
pub open spec fn committed_record(
    a: AttemptView,
    prepared: MessageView,
    proof: Seq<u8>,
    commit: MessageView,
) -> AttemptView {
    let accepted = accept_incoming_view(
        with_role(with_prepared_proof(a, proof), AdmissionRole::Sponsor(SponsorStage::Committed)),
        prepared,
        seq![OutboxPurpose::Candidate],
    );
    with_outboxes(accepted, accepted.outboxes.push(commit))
}

/// The outcome of the sponsor's commit of a prepared joiner, given the
/// membership history currently in the sponsor's store.
pub open spec fn sponsor_commit_model(
    attempt_id: Seq<u8>,
    loaded: Option<AttemptView>,
    current_history: Option<Seq<u8>>,
    prepared: MessageView,
    proof: Seq<u8>,
    recipient: Seq<u8>,
    payload: Seq<u8>,
) -> Result<StepView<MessageView>, ErrorKind> {
    match loaded {
        None => Err(ErrorKind::Inconsistent),
        Some(a) => {
            let commit = outbound_view(
                attempt_id,
                OutboxPurpose::Commit,
                recipient,
                Some(prepared.message_id),
                payload,
            );
            if rank_at_least(a.role, 4) && a.prepared_proof == Some(proof) && a.outboxes.contains(
                commit,
            ) {
                Ok(answer(commit))
            } else if a.role == AdmissionRole::Sponsor(SponsorStage::Rejected) && a.rejection_reason
                == Some(RejectionReason::BaseHistoryChanged) {
                replay_active(a, OutboxPurpose::Rejected)
            } else if a.role != AdmissionRole::Sponsor(SponsorStage::Candidate) {
                Err(ErrorKind::Inconsistent)
            } else {
                match first_active(a.outboxes, OutboxPurpose::Candidate) {
                    None => Err(ErrorKind::Inconsistent),
                    Some(c) => if prepared != outbound_view(
                        attempt_id,
                        OutboxPurpose::Prepared,
                        prepared.recipient,
                        Some(a.outboxes[c].message_id),
                        prepared.payload,
                    ) {
                        Err(ErrorKind::Inconsistent)
                    } else {
                        match a.base_membership_history {
                            None => Err(ErrorKind::Inconsistent),
                            Some(base) => if current_history != Some(base) {
                                base_history_changed_model(attempt_id, a, prepared, proof, recipient)
                            } else {
                                match a.verified_membership_history {
                                    None => Err(ErrorKind::Inconsistent),
                                    Some(history) => {
                                        let next = committed_record(a, prepared, proof, commit);
                                        if next.record_version == u64::MAX {
                                            Err(ErrorKind::Inconsistent)
                                        } else {
                                            Ok(
                                                advance_with_history(
                                                    advanced(next),
                                                    Some(base),
                                                    history,
                                                    commit,
                                                ),
                                            )
                                        }
                                    },
                                }
                            },
                        }
                    },
                }
            }
        },
    }
}

/// The sponsor commits a prepared joiner: the commit and the candidate
/// history are saved together, guarded by the base history the candidate was
/// built on. A replay answers the same `Commit`; a changed base history turns
/// into a durable refusal.
pub fn sponsor_commit(
    attempt_id: &[u8; 32],
    loaded: Option<AdmissionAttempt>,
    current_history: &Option<Vec<u8>>,
    prepared_message: &OutboxMessage,
    prepared_proof: &[u8],
    recipient: &[u8],
    payload: &[u8],
) -> (result: Result<Step<OutboxMessage>, WorkspaceConvergenceError>)
    ensures
        step_matches(
            result,
            sponsor_commit_model(
                attempt_id@,
                loaded_view(&loaded),
                opt_bytes_view(current_history),
                prepared_message@,
                prepared_proof@,
                recipient@,
                payload@,
            ),
        ),
{
    let mut attempt = match loaded {
        Some(a) => a,
        None => return Err(inconsistent("admission attempt was not found")),
    };
    let commit_message = outbound_message(
        attempt_id,
        OutboxPurpose::Commit,
        recipient,
        Some(prepared_message.message_id),
        payload,
    );
    if rank_reaches(attempt.role, 4) && opt_bytes_is(&attempt.prepared_proof, prepared_proof)
        && outboxes_contain(&attempt.outboxes, &commit_message) {
        return Ok(Step { save: None, create: false, history: None, output: commit_message });
    }
    if attempt.role == AdmissionRole::Sponsor(SponsorStage::Rejected) && attempt.rejection_reason
        == Some(RejectionReason::BaseHistoryChanged) {
        let replay = active_outbox(&attempt, OutboxPurpose::Rejected)?;
        return Ok(Step { save: None, create: false, history: None, output: replay });
    }
    if attempt.role != AdmissionRole::Sponsor(SponsorStage::Candidate) {
        return Err(inconsistent("sponsor admission message is out of order"));
    }
    let candidate_id = active_outbox_id(&attempt, OutboxPurpose::Candidate)?;
    require_message(attempt_id, prepared_message, OutboxPurpose::Prepared, Some(candidate_id))?;
    let base_history = match &attempt.base_membership_history {
        Some(b) => bytes_to_vec(b.as_slice()),
        None => return Err(inconsistent("candidate base membership history is missing")),
    };
    let unchanged = match current_history {
        Some(current) => crate::bytes::bytes_eq(current.as_slice(), base_history.as_slice()),
        None => false,
    };
    if !unchanged {
        return reject_base_history_changed(
            attempt_id,
            attempt,
            prepared_message,
            prepared_proof,
            recipient,
        );
    }
    let history = match &attempt.verified_membership_history {
        Some(h) => bytes_to_vec(h.as_slice()),
        None => return Err(inconsistent("committed membership history is missing")),
    };
    set_prepared_proof(&mut attempt, prepared_proof);
    attempt.role = AdmissionRole::Sponsor(SponsorStage::Committed);
    accept_incoming(&mut attempt, prepared_message, &[OutboxPurpose::Candidate]);
    proof {
        assert(seq![OutboxPurpose::Candidate] =~= [OutboxPurpose::Candidate]@);
    }
    let output = crate::attempt::copy_message(&commit_message);
    push_outbox(&mut attempt, commit_message);
    let saved = advance_version(attempt)?;
    Ok(
        Step {
            save: Some(saved),
            create: false,
            history: Some(HistoryUpdate { expected: Some(base_history), history }),
            output,
        },
    )
}

/// The outcome of a commit whose save lost a race: the reloaded record
/// decides between a refusal or commit already saved, the base-history
/// refusal, and reporting the race.
pub open spec fn commit_after_conflict_model(
    attempt_id: Seq<u8>,
    reloaded: Option<AttemptView>,
    base_history: Seq<u8>,
    current_history: Option<Seq<u8>>,
    prepared: MessageView,
    proof: Seq<u8>,
    recipient: Seq<u8>,
) -> Result<StepView<MessageView>, ErrorKind> {
    match reloaded {
        None => Err(ErrorKind::Inconsistent),
        Some(a) => if a.role == AdmissionRole::Sponsor(SponsorStage::Rejected) {
            replay_active(a, OutboxPurpose::Rejected)
        } else if rank_at_least(a.role, 4) && a.prepared_proof == Some(proof) {
            replay_active(a, OutboxPurpose::Commit)
        } else if a.role != AdmissionRole::Sponsor(SponsorStage::Candidate) {
            Err(ErrorKind::Inconsistent)
        } else if current_history != Some(base_history) {
            base_history_changed_model(attempt_id, a, prepared, proof, recipient)
        } else {
            Err(ErrorKind::AdmissionInProgress)
        },
    }
}

/// Decides a commit whose save was refused because another step advanced
/// the record first.
pub fn sponsor_commit_after_conflict(
    attempt_id: &[u8; 32],
    reloaded: Option<AdmissionAttempt>,
    base_history: &[u8],
    current_history: &Option<Vec<u8>>,
    prepared_message: &OutboxMessage,
    prepared_proof: &[u8],
    recipient: &[u8],
) -> (result: Result<Step<OutboxMessage>, WorkspaceConvergenceError>)
    ensures
        step_matches(
            result,
            commit_after_conflict_model(
                attempt_id@,
                loaded_view(&reloaded),
                base_history@,
                opt_bytes_view(current_history),
                prepared_message@,
                prepared_proof@,
                recipient@,
            ),
        ),
{
    let attempt = match reloaded {
        Some(a) => a,
        None => return Err(inconsistent("admission attempt was not found")),
    };
    if attempt.role == AdmissionRole::Sponsor(SponsorStage::Rejected) {
        let replay = active_outbox(&attempt, OutboxPurpose::Rejected)?;
        return Ok(Step { save: None, create: false, history: None, output: replay });
    }
    if rank_reaches(attempt.role, 4) && opt_bytes_is(&attempt.prepared_proof, prepared_proof) {
        let replay = active_outbox(&attempt, OutboxPurpose::Commit)?;
        return Ok(Step { save: None, create: false, history: None, output: replay });
    }
    if attempt.role != AdmissionRole::Sponsor(SponsorStage::Candidate) {
        return Err(inconsistent("sponsor admission message is out of order"));
    }
    let unchanged = match current_history {
        Some(current) => crate::bytes::bytes_eq(current.as_slice(), base_history),
        None => false,
    };
    if !unchanged {
        reject_base_history_changed(attempt_id, attempt, prepared_message, prepared_proof, recipient)
    } else {
        Err(WorkspaceConvergenceError::AdmissionInProgress)
    }
}

} // verus!
