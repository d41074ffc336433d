//! Sponsor-side completion: the activation marker, `Complete`, the
//! acknowledgments that settle a refusal or a completion, post-commit
//! deliveries and the completion helper.
use vstd::prelude::*;
use crate::attempt::{empty_joiner_view, new_joiner, JoinerStage, SecurityDelivery, accept_incoming, accept_incoming_view, acked_by, active_outbox_id, advance_version, advanced, first_active, first_where, find_acked, inbox_contains, loaded_view, outboxes_contain, push_inbox, rank_at_least, rank_reaches, remember, supersede_at, superseded_view, with_inbox, inbox_with, with_outboxes, AdmissionAttempt, AdmissionRole, AttemptView, CompactedAttempt, CompactedView, compacted_view, HelperStage, SponsorStage, TerminalResult};
use crate::bytes::{bytes_to_vec, opt_bytes_is, opt_bytes_view};
use crate::error::{inconsistent, WorkspaceConvergenceError};
use crate::message::{outbound_message, outbound_view, require_message, InboxRecord, InboxView, MessageView, OutboxMessage, OutboxPurpose};
use crate::sponsor::{advance_or_fail, push_outbox};
use crate::step::{advance_with_history, answer, step_matches, ErrorKind, HistoryUpdate, Step, StepView};

verus! {

/// The record with the acknowledged outbox at `i` superseded and `ack`
/// remembered.
pub open spec fn settle_ack(a: AttemptView, i: int, ack: InboxView) -> AttemptView {
    with_inbox(
        with_outboxes(a, a.outboxes.update(i, superseded_view(a.outboxes[i]))),
        a.inbox_dedup.push(ack),
    )
}

/// The outcome of the sponsor learning that the joiner saved a refusal.
pub open spec fn confirm_rejected_model(
    compacted: Option<CompactedView>,
    loaded: Option<AttemptView>,
    ack: InboxView,
) -> Result<StepView<()>, ErrorKind> {
    match compacted {
        Some(t) => if t.terminal_result == TerminalResult::Rejected && t.rejection_reason == Some(
            crate::rejection::RejectionReason::Cancelled,
        ) && t.acknowledgment_rebuild.contains(ack) {
            Ok(answer(()))
        } else {
            Err(ErrorKind::Inconsistent)
        },
        None => match loaded {
            None => Err(ErrorKind::Inconsistent),
            Some(a) => if a.role != AdmissionRole::Sponsor(SponsorStage::Rejected) || a.terminal_result
                != Some(TerminalResult::Rejected) {
                Err(ErrorKind::Inconsistent)
            } else if a.inbox_dedup.contains(ack) {
                Ok(answer(()))
            } else {
                match first_where(a.outboxes, acked_by(OutboxPurpose::Rejected, ack)) {
                    None => Err(ErrorKind::Inconsistent),
                    Some(i) => advance_or_fail(settle_ack(a, i, ack), ()),
                }
            },
        },
    }
}

/// Whether the rebuild list holds `ack`.
fn rebuild_contains(records: &Vec<InboxRecord>, ack: &InboxRecord) -> (found: bool)
    ensures
        found == records@.map_values(|r: InboxRecord| r@).contains(ack@),
{
    inbox_contains(records, ack)
}

/// Supersedes the acknowledged outbox and remembers the acknowledgment.
fn settle(attempt: &mut AdmissionAttempt, index: usize, ack: &InboxRecord)
    requires
        index < old(attempt)@.outboxes.len(),
    ensures
        final(attempt)@ == settle_ack(old(attempt)@, index as int, ack@),
{
    supersede_at(attempt, index);
    push_inbox(attempt, ack);
}

/// The sponsor confirms that the joiner saved its refusal; the refusal is
/// then settled. A compacted refusal confirms only a cancellation it still
/// remembers.
pub fn sponsor_confirm_rejected(
    compacted: Option<&CompactedAttempt>,
    loaded: Option<AdmissionAttempt>,
    rejected_ack: &InboxRecord,
) -> (result: Result<Step<()>, WorkspaceConvergenceError>)
    ensures
        step_matches(result, confirm_rejected_model(compacted_view(compacted), loaded_view(&loaded), rejected_ack@)),
{
    if let Some(terminal) = compacted {
        if terminal.terminal_result == TerminalResult::Rejected && terminal.rejection_reason == Some(
            crate::rejection::RejectionReason::Cancelled,
        ) && rebuild_contains(&terminal.acknowledgment_rebuild, rejected_ack) {
            return Ok(Step { save: None, create: false, history: None, output: () });
        }
        return Err(inconsistent("rejected acknowledgment does not match"));
    }
    let mut attempt = match loaded {
        Some(a) => a,
        None => return Err(inconsistent("admission attempt was not found")),
    };
    if attempt.role != AdmissionRole::Sponsor(SponsorStage::Rejected) || attempt.terminal_result
        != Some(TerminalResult::Rejected) {
        return Err(inconsistent("sponsor admission is not rejected"));
    }
    if inbox_contains(&attempt.inbox_dedup, rejected_ack) {
        return Ok(Step { save: None, create: false, history: None, output: () });
    }
    let index = match find_acked(&attempt.outboxes, OutboxPurpose::Rejected, rejected_ack) {
        Some(i) => i,
        None => return Err(inconsistent("rejected acknowledgment does not match")),
    };
    settle(&mut attempt, index, rejected_ack);
    let saved = advance_version(attempt)?;
    Ok(Step { save: Some(saved), create: false, history: None, output: () })
}

/// The completed sponsor record after the joiner's acknowledgment.
pub open spec fn completed_record(a: AttemptView, i: int, ack: InboxView) -> AttemptView {
    AttemptView {
        terminal_result: Some(TerminalResult::Completed),
        role: AdmissionRole::Sponsor(SponsorStage::Completed),
        ..settle_ack(a, i, ack)
    }
}

/// The outcome of the sponsor learning that the joiner is active.
pub open spec fn confirm_active_model(
    compacted: Option<CompactedView>,
    loaded: Option<AttemptView>,
    ack: InboxView,
) -> Result<StepView<()>, ErrorKind> {
    match compacted {
        Some(t) => if t.terminal_result == TerminalResult::Completed && t.acknowledgment_rebuild.contains(
            ack,
        ) {
            Ok(answer(()))
        } else {
            Err(ErrorKind::Inconsistent)
        },
        None => match loaded {
            None => Err(ErrorKind::Inconsistent),
            Some(a) => if a.terminal_result == Some(TerminalResult::Completed) && a.inbox_dedup.contains(
                ack,
            ) {
                Ok(answer(()))
            } else if a.role != AdmissionRole::Sponsor(SponsorStage::Completed) {
                Err(ErrorKind::Inconsistent)
            } else {
                match first_active(a.outboxes, OutboxPurpose::Complete) {
                    None => Err(ErrorKind::Inconsistent),
                    Some(i) => if crate::message::inbox_view_of(a.outboxes[i]) != ack {
                        Err(ErrorKind::Inconsistent)
                    } else {
                        advance_or_fail(completed_record(a, i, ack), ())
                    },
                }
            },
        },
    }
}

/// The sponsor confirms the joiner's activation; the admission is then
/// complete on both sides.
pub fn sponsor_confirm_active(
    compacted: Option<&CompactedAttempt>,
    loaded: Option<AdmissionAttempt>,
    complete_ack: &InboxRecord,
) -> (result: Result<Step<()>, WorkspaceConvergenceError>)
    ensures
        step_matches(result, confirm_active_model(compacted_view(compacted), loaded_view(&loaded), complete_ack@)),
{
    if let Some(terminal) = compacted {
        if terminal.terminal_result == TerminalResult::Completed && rebuild_contains(
            &terminal.acknowledgment_rebuild,
            complete_ack,
        ) {
            return Ok(Step { save: None, create: false, history: None, output: () });
        }
        return Err(inconsistent("complete acknowledgment does not match compacted admission result"));
    }
    let mut attempt = match loaded {
        Some(a) => a,
        None => return Err(inconsistent("admission attempt was not found")),
    };
    if attempt.terminal_result == Some(TerminalResult::Completed) && inbox_contains(
        &attempt.inbox_dedup,
        complete_ack,
    ) {
        return Ok(Step { save: None, create: false, history: None, output: () });
    }
    if attempt.role != AdmissionRole::Sponsor(SponsorStage::Completed) {
        return Err(inconsistent("sponsor admission message is out of order"));
    }
    let index = match crate::attempt::active_outbox_index(&attempt.outboxes, OutboxPurpose::Complete) {
        Some(i) => i,
        None => return Err(inconsistent("complete outbox is missing")),
    };
    let record = crate::message::inbox_record(&attempt.outboxes[index]);
    if !crate::message::inbox_eq(&record, complete_ack) {
        return Err(inconsistent("complete acknowledgment does not match"));
    }
    settle(&mut attempt, index, complete_ack);
    attempt.terminal_result = Some(TerminalResult::Completed);
    attempt.role = AdmissionRole::Sponsor(SponsorStage::Completed);
    let saved = advance_version(attempt)?;
    Ok(Step { save: Some(saved), create: false, history: None, output: () })
}

/// The outcome of saving the sponsor's write-ahead activation marker before
/// its security state is activated.
pub open spec fn prepare_activation_model(loaded: Option<AttemptView>, marker: Seq<u8>) -> Result<StepView<()>, ErrorKind> {
    match loaded {
        None => Err(ErrorKind::Inconsistent),
        Some(a) => if a.role != AdmissionRole::Sponsor(SponsorStage::Committed) {
            Err(ErrorKind::Inconsistent)
        } else if a.write_ahead_recovery == Some(marker) {
            Ok(answer(()))
        } else if a.write_ahead_recovery is Some {
            Err(ErrorKind::Inconsistent)
        } else {
            advance_or_fail(AttemptView { write_ahead_recovery: Some(marker), ..a }, ())
        },
    }
}

/// Saves the activation receipt as the sponsor's write-ahead marker; a
/// different marker already saved is a conflict.
pub fn sponsor_prepare_security_activation(loaded: Option<AdmissionAttempt>, encoded_receipt: &[u8]) -> (result: Result<Step<()>, WorkspaceConvergenceError>)
    ensures
        step_matches(result, prepare_activation_model(loaded_view(&loaded), encoded_receipt@)),
{
    let mut attempt = match loaded {
        Some(a) => a,
        None => return Err(inconsistent("admission attempt was not found")),
    };
    if attempt.role != AdmissionRole::Sponsor(SponsorStage::Committed) {
        return Err(inconsistent("sponsor admission message is out of order"));
    }
    if opt_bytes_is(&attempt.write_ahead_recovery, encoded_receipt) {
        return Ok(Step { save: None, create: false, history: None, output: () });
    }
    if attempt.write_ahead_recovery.is_some() {
        return Err(inconsistent("sponsor activation recovery marker conflicts"));
    }
    attempt.write_ahead_recovery = Some(bytes_to_vec(encoded_receipt));
    let saved = advance_version(attempt)?;
    Ok(Step { save: Some(saved), create: false, history: None, output: () })
}

/// The sponsor's first step on the joiner's `Applied`: a receipt that does
/// not verify against the committed membership history
/// (`receipt_verified`) is refused as an invalid handoff before anything is
/// saved or activated; a verified receipt is saved as the write-ahead
/// marker.
pub fn sponsor_accept_receipt(
    loaded: Option<AdmissionAttempt>,
    receipt_verified: bool,
    encoded_receipt: &[u8],
) -> (result: Result<Step<()>, WorkspaceConvergenceError>)
    ensures
        !receipt_verified ==> result == Err::<Step<()>, WorkspaceConvergenceError>(
            WorkspaceConvergenceError::InvalidHandoff,
        ),
        receipt_verified ==> step_matches(result, prepare_activation_model(loaded_view(&loaded), encoded_receipt@)),
{
    if !receipt_verified {
        return Err(WorkspaceConvergenceError::InvalidHandoff);
    }
    sponsor_prepare_security_activation(loaded, encoded_receipt)
}

/// The sponsor record after it saves the joiner's activation and completes.
pub open spec fn sponsor_completed_record(
    a: AttemptView,
    receipt: Seq<u8>,
    history: Seq<u8>,
    completion: Seq<u8>,
    applied: MessageView,
    complete: MessageView,
) -> AttemptView {
    let updated = AttemptView {
        activation_receipt: Some(receipt),
        verified_membership_history: Some(history),
        completion: Some(completion),
        write_ahead_recovery: None,
        terminal_result: Some(TerminalResult::Completed),
        role: AdmissionRole::Sponsor(SponsorStage::Completed),
        ..a
    };
    let accepted = accept_incoming_view(updated, applied, seq![OutboxPurpose::Commit]);
    with_outboxes(accepted, accepted.outboxes.push(complete))
}

/// The outcome of the sponsor completing an admission after the joiner
/// applied the commit. `committed_history` is the history in the sponsor's
/// store; `recorded_history` is that history with the activation receipt
/// recorded, when the receipt verifies against it.
pub open spec fn sponsor_complete_model(
    attempt_id: Seq<u8>,
    receipt_attempt_id: Seq<u8>,
    loaded: Option<AttemptView>,
    applied: MessageView,
    receipt: Seq<u8>,
    completion: Seq<u8>,
    recipient: Seq<u8>,
    payload: Seq<u8>,
    committed_history: Option<Seq<u8>>,
    recorded_history: Option<Seq<u8>>,
) -> Result<StepView<MessageView>, ErrorKind> {
    if receipt_attempt_id != attempt_id {
        Err(ErrorKind::Inconsistent)
    } else {
        match loaded {
            None => Err(ErrorKind::Inconsistent),
            Some(a) => {
                let complete = outbound_view(
                    attempt_id,
                    OutboxPurpose::Complete,
                    recipient,
                    Some(applied.message_id),
                    payload,
                );
                if rank_at_least(a.role, 5) && a.activation_receipt == Some(receipt) && a.completion
                    == Some(completion) && a.outboxes.contains(complete) {
                    Ok(answer(complete))
                } else if a.role != AdmissionRole::Sponsor(SponsorStage::Committed) {
                    Err(ErrorKind::Inconsistent)
                } else {
                    match first_active(a.outboxes, OutboxPurpose::Commit) {
                        None => Err(ErrorKind::Inconsistent),
                        Some(c) => if applied != outbound_view(
                            attempt_id,
                            OutboxPurpose::Applied,
                            applied.recipient,
                            Some(a.outboxes[c].message_id),
                            applied.payload,
                        ) {
                            Err(ErrorKind::Inconsistent)
                        } else {
                            match (committed_history, recorded_history) {
                                (Some(committed), Some(recorded)) => {
                                    let next = sponsor_completed_record(
                                        a,
                                        receipt,
                                        recorded,
                                        completion,
                                        applied,
                                        complete,
                                    );
                                    if next.record_version == u64::MAX {
                                        Err(ErrorKind::Inconsistent)
                                    } else {
                                        Ok(advance_with_history(advanced(next), Some(committed), recorded, complete))
                                    }
                                },
                                _ => Err(ErrorKind::Inconsistent),
                            }
                        },
                    }
                }
            },
        }
    }
}

/// The sponsor records the joiner's activation receipt into its committed
/// history and answers with `Complete`; the record and the history are saved
/// together.
pub fn sponsor_complete(
    attempt_id: &[u8; 32],
    receipt_attempt_id: &[u8; 32],
    loaded: Option<AdmissionAttempt>,
    applied_message: &OutboxMessage,
    encoded_receipt: &[u8],
    completion: &[u8],
    recipient: &[u8],
    payload: &[u8],
    committed_history: &Option<Vec<u8>>,
    recorded_history: &Option<Vec<u8>>,
) -> (result: Result<Step<OutboxMessage>, WorkspaceConvergenceError>)
    ensures
        step_matches(
            result,
            sponsor_complete_model(
                attempt_id@,
                receipt_attempt_id@,
                loaded_view(&loaded),
                applied_message@,
                encoded_receipt@,
                completion@,
                recipient@,
                payload@,
                opt_bytes_view(committed_history),
                opt_bytes_view(recorded_history),
            ),
        ),
{
    if !crate::bytes::id_eq(receipt_attempt_id, attempt_id) {
        return Err(inconsistent("activation receipt is bound to another attempt"));
    }
    let mut attempt = match loaded {
        Some(a) => a,
        None => return Err(inconsistent("admission attempt was not found")),
    };
    let complete_message = outbound_message(
        attempt_id,
        OutboxPurpose::Complete,
        recipient,
        Some(applied_message.message_id),
        payload,
    );
    if rank_reaches(attempt.role, 5) && opt_bytes_is(&attempt.activation_receipt, encoded_receipt)
        && opt_bytes_is(&attempt.completion, completion) && outboxes_contain(
        &attempt.outboxes,
        &complete_message,
    ) {
        return Ok(Step { save: None, create: false, history: None, output: complete_message });
    }
    if attempt.role != AdmissionRole::Sponsor(SponsorStage::Committed) {
        return Err(inconsistent("sponsor admission message is out of order"));
    }
    let commit_id = active_outbox_id(&attempt, OutboxPurpose::Commit)?;
    require_message(attempt_id, applied_message, OutboxPurpose::Applied, Some(commit_id))?;
    let committed = match committed_history {
        Some(h) => bytes_to_vec(h.as_slice()),
        None => return Err(inconsistent("committed sponsor history is missing")),
    };
    let recorded = match recorded_history {
        Some(h) => h,
        None => return Err(inconsistent("activation receipt does not extend the committed history")),
    };
    attempt.activation_receipt = Some(bytes_to_vec(encoded_receipt));
    attempt.verified_membership_history = Some(bytes_to_vec(recorded.as_slice()));
    attempt.completion = Some(bytes_to_vec(completion));
    attempt.write_ahead_recovery = None;
    attempt.terminal_result = Some(TerminalResult::Completed);
    attempt.role = AdmissionRole::Sponsor(SponsorStage::Completed);
    accept_incoming(&mut attempt, applied_message, &[OutboxPurpose::Commit]);
    proof {
        assert(seq![OutboxPurpose::Commit] =~= [OutboxPurpose::Commit]@);
    }
    let output = crate::attempt::copy_message(&complete_message);
    push_outbox(&mut attempt, complete_message);
    let saved = advance_version(attempt)?;
    Ok(
        Step {
            save: Some(saved),
            create: false,
            history: Some(HistoryUpdate { expected: Some(committed), history: bytes_to_vec(recorded.as_slice()) }),
            output,
        },
    )
}

/// The purposes that carry deliveries made after commit.
pub open spec fn post_commit_purpose(purpose: OutboxPurpose) -> bool {
    purpose == OutboxPurpose::ExistingMemberSecurityUpdate || purpose
        == OutboxPurpose::HistoryOrReceiptBatch
}

/// The outcome of queuing a post-commit delivery after `Complete`.
pub open spec fn enqueue_post_commit_model(
    attempt_id: Seq<u8>,
    loaded: Option<AttemptView>,
    purpose: OutboxPurpose,
    recipient: Seq<u8>,
    payload: Seq<u8>,
) -> Result<StepView<MessageView>, ErrorKind> {
    if !post_commit_purpose(purpose) {
        Err(ErrorKind::Inconsistent)
    } else {
        match loaded {
            None => Err(ErrorKind::Inconsistent),
            Some(a) => if a.role != AdmissionRole::Sponsor(SponsorStage::Completed) {
                Err(ErrorKind::Inconsistent)
            } else {
                match first_active(a.outboxes, OutboxPurpose::Complete) {
                    None => Err(ErrorKind::Inconsistent),
                    Some(c) => {
                        let message = outbound_view(
                            attempt_id,
                            purpose,
                            recipient,
                            Some(a.outboxes[c].message_id),
                            payload,
                        );
                        if a.outboxes.contains(message) {
                            Ok(answer(message))
                        } else {
                            advance_or_fail(with_outboxes(a, a.outboxes.push(message)), message)
                        }
                    },
                }
            },
        }
    }
}

/// Queues a delivery to existing members after `Complete`; a repeated
/// delivery answers the message already queued.
pub fn enqueue_post_commit_delivery(
    attempt_id: &[u8; 32],
    loaded: Option<AdmissionAttempt>,
    purpose: OutboxPurpose,
    recipient: &[u8],
    payload: &[u8],
) -> (result: Result<Step<OutboxMessage>, WorkspaceConvergenceError>)
    ensures
        step_matches(result, enqueue_post_commit_model(attempt_id@, loaded_view(&loaded), purpose, recipient@, payload@)),
{
    if purpose != OutboxPurpose::ExistingMemberSecurityUpdate && purpose
        != OutboxPurpose::HistoryOrReceiptBatch {
        return Err(inconsistent("outbox is not a post-commit delivery"));
    }
    let mut attempt = match loaded {
        Some(a) => a,
        None => return Err(inconsistent("admission attempt was not found")),
    };
    if attempt.role != AdmissionRole::Sponsor(SponsorStage::Completed) {
        return Err(inconsistent("sponsor admission message is out of order"));
    }
    let predecessor = active_outbox_id(&attempt, OutboxPurpose::Complete)?;
    let message = outbound_message(attempt_id, purpose, recipient, Some(predecessor), payload);
    if outboxes_contain(&attempt.outboxes, &message) {
        return Ok(Step { save: None, create: false, history: None, output: message });
    }
    let output = crate::attempt::copy_message(&message);
    push_outbox(&mut attempt, message);
    let saved = advance_version(attempt)?;
    Ok(Step { save: Some(saved), create: false, history: None, output })
}

/// The outcome of clearing a post-commit delivery that its recipient saved.
pub open spec fn ack_persisted_model(
    loaded: Option<AttemptView>,
    purpose: OutboxPurpose,
    ack: InboxView,
) -> Result<StepView<()>, ErrorKind> {
    if !post_commit_purpose(purpose) {
        Err(ErrorKind::Inconsistent)
    } else {
        match loaded {
            None => Err(ErrorKind::Inconsistent),
            Some(a) => match first_where(a.outboxes, acked_by(purpose, ack)) {
                None => Err(ErrorKind::Inconsistent),
                Some(i) => {
                    let cleared = with_outboxes(a, a.outboxes.update(i, superseded_view(a.outboxes[i])));
                    advance_or_fail(with_inbox(cleared, inbox_with(a.inbox_dedup, ack)), ())
                },
            },
        }
    }
}

/// Clears the post-commit delivery that `acknowledgment` answers.
pub fn acknowledge_persisted_delivery(
    loaded: Option<AdmissionAttempt>,
    purpose: OutboxPurpose,
    acknowledgment: &InboxRecord,
) -> (result: Result<Step<()>, WorkspaceConvergenceError>)
    ensures
        step_matches(result, ack_persisted_model(loaded_view(&loaded), purpose, acknowledgment@)),
{
    if purpose != OutboxPurpose::ExistingMemberSecurityUpdate && purpose
        != OutboxPurpose::HistoryOrReceiptBatch {
        return Err(inconsistent("acknowledgment is not persisted-delivery evidence"));
    }
    let mut attempt = match loaded {
        Some(a) => a,
        None => return Err(inconsistent("admission attempt was not found")),
    };
    let index = match find_acked(&attempt.outboxes, purpose, acknowledgment) {
        Some(i) => i,
        None => return Err(inconsistent("persisted-delivery evidence does not match an outbox")),
    };
    supersede_at(&mut attempt, index);
    remember(&mut attempt, acknowledgment);
    let saved = advance_version(attempt)?;
    Ok(Step { save: Some(saved), create: false, history: None, output: () })
}

/// The outcome of a completion helper sending `Complete` for an absent
/// sponsor.
pub open spec fn complete_as_helper_model(
    a: AttemptView,
    completion: Seq<u8>,
    recipient: Seq<u8>,
    joiner_last_message_id: Seq<u8>,
) -> Result<StepView<MessageView>, ErrorKind> {
    if a.role != AdmissionRole::CompletionHelper(HelperStage::Applied) {
        Err(ErrorKind::Inconsistent)
    } else {
        let message = outbound_view(
            a.attempt_id,
            OutboxPurpose::Complete,
            recipient,
            Some(joiner_last_message_id),
            completion,
        );
        advance_or_fail(
            AttemptView {
                completion: Some(completion),
                outboxes: a.outboxes.push(message),
                terminal_result: Some(TerminalResult::Completed),
                role: AdmissionRole::CompletionHelper(HelperStage::Completed),
                ..a
            },
            message,
        )
    }
}

/// A completion helper finishes an admission on the sponsor's behalf.
pub fn complete_as_helper(
    attempt: AdmissionAttempt,
    completion: &[u8],
    recipient: &[u8],
    joiner_last_message_id: [u8; 32],
) -> (result: Result<Step<OutboxMessage>, WorkspaceConvergenceError>)
    ensures
        step_matches(result, complete_as_helper_model(attempt@, completion@, recipient@, joiner_last_message_id@)),
{
    let mut attempt = attempt;
    if attempt.role != AdmissionRole::CompletionHelper(HelperStage::Applied) {
        return Err(inconsistent("completion helper is not awaiting completion"));
    }
    let message = outbound_message(
        &attempt.attempt_id,
        OutboxPurpose::Complete,
        recipient,
        Some(joiner_last_message_id),
        completion,
    );
    attempt.completion = Some(bytes_to_vec(completion));
    let output = crate::attempt::copy_message(&message);
    push_outbox(&mut attempt, message);
    attempt.terminal_result = Some(TerminalResult::Completed);
    attempt.role = AdmissionRole::CompletionHelper(HelperStage::Completed);
    let saved = advance_version(attempt)?;
    Ok(Step { save: Some(saved), create: false, history: None, output })
}

/// What a completion recovery response hands a helper: the admission
/// bundle the sponsor saved for the joiner.
#[derive(Debug)]
pub struct HelperBundle {
    pub candidate_event: Vec<u8>,
    pub candidate_key_package: Vec<u8>,
    pub security_commitment: Vec<u8>,
    pub security_commit: Vec<u8>,
    pub security_welcome: Vec<u8>,
    pub target_protection_group_id: String,
    pub target_key_catalog: Vec<u8>,
    pub existing_member_deliveries: Vec<SecurityDelivery>,
    pub activation_receipt: Vec<u8>,
    pub resume_public_key: Vec<u8>,
}

/// The record of a new completion helper: an applied helper holding the
/// helper's history position, the lineage, event and members digest, the
/// bundle, the encoded challenge as its resume peer and the encoded response
/// as its recovery delivery.
pub open spec fn helper_view(
    attempt_id: Seq<u8>,
    challenge: Seq<u8>,
    response: Seq<u8>,
    helper_position: Seq<u8>,
    bundle: HelperBundle,
    lineage_id: Seq<char>,
    event_id: Seq<u8>,
    target_members_digest: Seq<u8>,
) -> AttemptView {
    AttemptView {
        role: AdmissionRole::CompletionHelper(HelperStage::Applied),
        join_id: None,
        lineage_id: Some(lineage_id),
        base_history_position: Some(helper_position),
        candidate_event: Some(bundle.candidate_event@),
        candidate_event_id: Some(event_id),
        candidate_key_package: Some(bundle.candidate_key_package@),
        target_members_digest: Some(target_members_digest),
        security_commitment: Some(bundle.security_commitment@),
        security_commit: Some(bundle.security_commit@),
        security_welcome: Some(bundle.security_welcome@),
        target_protection_group_id: Some(bundle.target_protection_group_id@),
        target_key_catalog: Some(bundle.target_key_catalog@),
        existing_member_security_deliveries: Some(
            bundle.existing_member_deliveries@.map_values(|d: SecurityDelivery| d@),
        ),
        activation_receipt: Some(bundle.activation_receipt@),
        resume_public_key: Some(bundle.resume_public_key@),
        resume_peers: seq![challenge],
        completion_recovery_deliveries: seq![response],
        ..empty_joiner_view(attempt_id, Seq::empty(), JoinerStage::Initiated)
    }
}

/// Builds the record of a member that completes an admission for an absent
/// sponsor from a recovery response. `challenge`, `response` and
/// `helper_position` are the encoded challenge, response and the helper's
/// history position.
pub fn create_completion_helper(
    attempt_id: &[u8; 32],
    challenge: &[u8],
    response: &[u8],
    helper_position: &[u8],
    bundle: HelperBundle,
    lineage_id: &String,
    event_id: [u8; 32],
    target_members_digest: [u8; 32],
) -> (attempt: AdmissionAttempt)
    ensures
        attempt@ == helper_view(
            attempt_id@,
            challenge@,
            response@,
            helper_position@,
            bundle,
            lineage_id@,
            event_id@,
            target_members_digest@,
        ),
{
    let ghost b = bundle;
    let mut attempt = new_joiner(*attempt_id, [0u8; 16], JoinerStage::Initiated);
    attempt.role = AdmissionRole::CompletionHelper(HelperStage::Applied);
    attempt.join_id = None;
    attempt.lineage_id = Some(lineage_id.clone());
    attempt.base_history_position = Some(bytes_to_vec(helper_position));
    attempt.candidate_event = Some(bundle.candidate_event);
    attempt.candidate_event_id = Some(event_id);
    attempt.candidate_key_package = Some(bundle.candidate_key_package);
    attempt.target_members_digest = Some(target_members_digest);
    attempt.security_commitment = Some(bundle.security_commitment);
    attempt.security_commit = Some(bundle.security_commit);
    attempt.security_welcome = Some(bundle.security_welcome);
    attempt.target_protection_group_id = Some(bundle.target_protection_group_id);
    attempt.target_key_catalog = Some(bundle.target_key_catalog);
    attempt.existing_member_security_deliveries = Some(bundle.existing_member_deliveries);
    attempt.activation_receipt = Some(bundle.activation_receipt);
    attempt.resume_public_key = Some(bundle.resume_public_key);
    attempt.resume_peers.push(bytes_to_vec(challenge));
    attempt.completion_recovery_deliveries.push(bytes_to_vec(response));
    proof {
        assert(attempt@.resume_peers =~= seq![challenge@]);
        assert(attempt@.completion_recovery_deliveries =~= seq![response@]);
        assert(attempt@ == helper_view(
            attempt_id@,
            challenge@,
            response@,
            helper_position@,
            b,
            lineage_id@,
            event_id@,
            target_members_digest@,
        ));
    }
    attempt
}

} // verus!
