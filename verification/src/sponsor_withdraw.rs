//! Sponsor-side withdrawal of a pending admission: the joiner's cancellation
//! and the removal of a member that was admitted but never activated.
use vstd::prelude::*;
use crate::attempt::{
    accept_incoming, accept_incoming_view, active_outbox, advance_version, compacted_view,
    first_where, inbox_contains, loaded_view, supersede_outboxes, supersede_purposes,
    with_outboxes, AdmissionAttempt, AdmissionRole, AttemptView, CompactedAttempt, CompactedView,
    SponsorStage, TerminalResult, copy_message,
};
use crate::bytes::{
    bytes_eq, bytes_to_vec, cancelled_bytes, lit_cancelled, lit_too_late_committed, opt_bytes_is,
    too_late_committed_bytes,
};
use crate::error::{admission_storage, inconsistent, WorkspaceConvergenceError};
use crate::message::{
    inbox_record, inbox_view_of, outbound_message, outbound_view, require_message, MessageView,
    OutboxMessage, OutboxPurpose,
};
use crate::rejection::{
    decode_rejection_reason, decoded_rejection_reason, encode_rejection_payload, rejection_payload,
    RejectionReason,
};
use crate::sponsor::{
    advance_or_fail, mark_sponsor_rejected, replay_active, sponsor_rejected_record,
};
use crate::step::{
    advance_with_history, answer, step_matches, ErrorKind, HistoryUpdate, Step, StepView,
};

verus! {

/// The `Rejected` message that answers the cancellation `cancel_id`.
pub open spec fn answers_cancel(cancel_id: Seq<u8>) -> spec_fn(MessageView) -> bool {
    |m: MessageView| m.purpose == OutboxPurpose::Rejected && m.predecessor == Some(cancel_id)
}

/// An active `Commit` or `Complete` message.
pub open spec fn active_commitment() -> spec_fn(MessageView) -> bool {
    |m: MessageView| (m.purpose == OutboxPurpose::Commit || m.purpose == OutboxPurpose::Complete)
        && !m.superseded
}

/// The record with the joiner's cancellation request and the sponsor's
/// answer to it saved.
pub open spec fn with_cancel(a: AttemptView, request: Seq<u8>, outcome: Seq<u8>) -> AttemptView {
    AttemptView { cancel_request: Some(request), cancel_outcome: Some(outcome), ..a }
}

/// The outcome of the sponsor deciding a joiner's cancellation: before
/// commit it wins and the admission is refused; after commit it is too late
/// and the commitment is answered again.
pub open spec fn decide_cancel_model(
    attempt_id: Seq<u8>,
    compacted: Option<CompactedView>,
    loaded: Option<AttemptView>,
    cancel: MessageView,
    recipient: Seq<u8>,
    rejected_payload: Seq<u8>,
) -> Result<StepView<MessageView>, ErrorKind> {
    if cancel != outbound_view(
        attempt_id,
        OutboxPurpose::CancelRequested,
        cancel.recipient,
        cancel.predecessor,
        cancel.payload,
    ) {
        Err(ErrorKind::Inconsistent)
    } else {
        match compacted {
            Some(t) => if t.terminal_result != TerminalResult::Rejected || t.rejection_reason != Some(
                RejectionReason::Cancelled,
            ) {
                Err(ErrorKind::Inconsistent)
            } else {
                match t.replay_message {
                    None => Err(ErrorKind::AdmissionStorage),
                    Some(r) => if r.purpose != OutboxPurpose::Rejected || r.predecessor != Some(
                        cancel.message_id,
                    ) || r.recipient != recipient {
                        Err(ErrorKind::Inconsistent)
                    } else if decoded_rejection_reason(r.payload) != Some(RejectionReason::Cancelled) {
                        Err(ErrorKind::Inconsistent)
                    } else {
                        Ok(answer(r))
                    },
                }
            },
            None => match loaded {
                None => Err(ErrorKind::Inconsistent),
                Some(a) => match a.role {
                    AdmissionRole::Sponsor(stage) => match stage {
                        SponsorStage::Accepted | SponsorStage::Candidate | SponsorStage::Prepared => {
                            let rejected = outbound_view(
                                attempt_id,
                                OutboxPurpose::Rejected,
                                recipient,
                                Some(cancel.message_id),
                                rejection_payload(RejectionReason::Cancelled, rejected_payload),
                            );
                            let accepted = accept_incoming_view(
                                a,
                                cancel,
                                seq![OutboxPurpose::Candidate, OutboxPurpose::Prepared],
                            );
                            advance_or_fail(
                                sponsor_rejected_record(
                                    with_cancel(accepted, cancel.payload, lit_cancelled()),
                                    RejectionReason::Cancelled,
                                    rejected,
                                ),
                                rejected,
                            )
                        },
                        SponsorStage::Committed | SponsorStage::Applied => {
                            let accepted = with_cancel(
                                accept_incoming_view(a, cancel, Seq::empty()),
                                cancel.payload,
                                lit_too_late_committed(),
                            );
                            match first_where(accepted.outboxes, active_commitment()) {
                                None => Err(ErrorKind::Inconsistent),
                                Some(i) => advance_or_fail(accepted, accepted.outboxes[i]),
                            }
                        },
                        SponsorStage::Rejected => if a.terminal_result == Some(TerminalResult::Rejected)
                            && a.rejection_reason == Some(RejectionReason::Cancelled) && a.cancel_request
                            == Some(cancel.payload) && a.inbox_dedup.contains(inbox_view_of(cancel)) {
                            match first_where(a.outboxes, answers_cancel(cancel.message_id)) {
                                None => Err(ErrorKind::Inconsistent),
                                Some(i) => Ok(answer(MessageView { superseded: false, ..a.outboxes[i] })),
                            }
                        } else {
                            Err(ErrorKind::Inconsistent)
                        },
                        SponsorStage::Completed => Err(ErrorKind::Inconsistent),
                    },
                    _ => Err(ErrorKind::Inconsistent),
                },
            },
        }
    }
}

/// The index of the `Rejected` message that answers the cancellation.
fn find_cancel_answer(outboxes: &Vec<OutboxMessage>, cancel_id: &[u8; 32]) -> (index: Option<usize>)
    ensures
        index matches Some(i) ==> i < outboxes@.len() && first_where(
            outboxes@.map_values(|m: OutboxMessage| m@),
            answers_cancel(cancel_id@),
        ) == Some(i as int),
        index is None ==> first_where(outboxes@.map_values(|m: OutboxMessage| m@), answers_cancel(cancel_id@)) is None,
{
    let ghost s = outboxes@.map_values(|m: OutboxMessage| m@);
    let ghost pred = answers_cancel(cancel_id@);
    let mut i: usize = 0;
    while i < outboxes.len()
        invariant
            i <= outboxes@.len(),
            s == outboxes@.map_values(|m: OutboxMessage| m@),
            pred == answers_cancel(cancel_id@),
            crate::attempt::first_where_from(s, pred, 0) == crate::attempt::first_where_from(s, pred, i as int),
        decreases outboxes@.len() - i,
    {
        let matches_cancel = match outboxes[i].predecessor_message_id {
            Some(p) => crate::bytes::id_eq(&p, cancel_id),
            None => false,
        };
        if outboxes[i].purpose == OutboxPurpose::Rejected && matches_cancel {
            return Some(i);
        }
        i = i + 1;
    }
    None
}

/// The index of the first active `Commit` or `Complete` message.
fn find_active_commitment(outboxes: &Vec<OutboxMessage>) -> (index: Option<usize>)
    ensures
        index matches Some(i) ==> i < outboxes@.len() && first_where(
            outboxes@.map_values(|m: OutboxMessage| m@),
            active_commitment(),
        ) == Some(i as int),
        index is None ==> first_where(outboxes@.map_values(|m: OutboxMessage| m@), active_commitment()) is None,
{
    let ghost s = outboxes@.map_values(|m: OutboxMessage| m@);
    let ghost pred = active_commitment();
    let mut i: usize = 0;
    while i < outboxes.len()
        invariant
            i <= outboxes@.len(),
            s == outboxes@.map_values(|m: OutboxMessage| m@),
            pred == active_commitment(),
            crate::attempt::first_where_from(s, pred, 0) == crate::attempt::first_where_from(s, pred, i as int),
        decreases outboxes@.len() - i,
    {
        if (outboxes[i].purpose == OutboxPurpose::Commit || outboxes[i].purpose
            == OutboxPurpose::Complete) && !outboxes[i].superseded {
            return Some(i);
        }
        i = i + 1;
    }
    None
}

/// Saves the joiner's cancellation request and the sponsor's answer.
fn set_cancel(attempt: &mut AdmissionAttempt, request: &[u8], outcome: Vec<u8>)
    ensures
        final(attempt)@ == with_cancel(old(attempt)@, request@, outcome@),
{
    attempt.cancel_request = Some(bytes_to_vec(request));
    attempt.cancel_outcome = Some(outcome);
}

/// The sponsor decides a joiner's cancellation. Exactly one of cancellation
/// and commit wins: before commit the admission is refused, after commit the
/// saved commitment is answered again.
pub fn sponsor_decide_cancel(
    attempt_id: &[u8; 32],
    compacted: Option<&CompactedAttempt>,
    loaded: Option<AdmissionAttempt>,
    cancel: &OutboxMessage,
    recipient: &[u8],
    rejected_payload: &[u8],
) -> (result: Result<Step<OutboxMessage>, WorkspaceConvergenceError>)
    ensures
        step_matches(
            result,
            decide_cancel_model(
                attempt_id@,
                compacted_view(compacted),
                loaded_view(&loaded),
                cancel@,
                recipient@,
                rejected_payload@,
            ),
        ),
{
    require_message(attempt_id, cancel, OutboxPurpose::CancelRequested, cancel.predecessor_message_id)?;
    if let Some(terminal) = compacted {
        if terminal.terminal_result != TerminalResult::Rejected || terminal.rejection_reason != Some(
            RejectionReason::Cancelled,
        ) {
            return Err(inconsistent("admission is already terminal"));
        }
        let replayed = match &terminal.replay_message {
            Some(m) => m,
            None => return Err(admission_storage("compacted cancel rejection cannot be decoded")),
        };
        let answers = match replayed.predecessor_message_id {
            Some(p) => crate::bytes::id_eq(&p, &cancel.message_id),
            None => false,
        };
        if replayed.purpose != OutboxPurpose::Rejected || !answers || !bytes_eq(
            replayed.recipient.as_slice(),
            recipient,
        ) {
            return Err(inconsistent("cancel rejection replay does not match"));
        }
        let reason = decode_rejection_reason(replayed.payload.as_slice())?;
        if reason != RejectionReason::Cancelled {
            return Err(inconsistent("cancel rejection replay does not match"));
        }
        return Ok(Step { save: None, create: false, history: None, output: copy_message(replayed) });
    }
    let mut attempt = match loaded {
        Some(a) => a,
        None => return Err(inconsistent("admission attempt was not found")),
    };
    let stage = match attempt.role {
        AdmissionRole::Sponsor(stage) => stage,
        _ => return Err(inconsistent("only a sponsor can decide cancellation")),
    };
    match stage {
        SponsorStage::Accepted | SponsorStage::Candidate | SponsorStage::Prepared => {
            accept_incoming(&mut attempt, cancel, &[OutboxPurpose::Candidate, OutboxPurpose::Prepared]);
            proof {
                assert(seq![OutboxPurpose::Candidate, OutboxPurpose::Prepared] =~= [
                    OutboxPurpose::Candidate,
                    OutboxPurpose::Prepared,
                ]@);
            }
            set_cancel(&mut attempt, cancel.payload.as_slice(), cancelled_bytes());
            let payload = encode_rejection_payload(RejectionReason::Cancelled, rejected_payload);
            let rejected = outbound_message(
                attempt_id,
                OutboxPurpose::Rejected,
                recipient,
                Some(cancel.message_id),
                payload.as_slice(),
            );
            let output = copy_message(&rejected);
            mark_sponsor_rejected(&mut attempt, RejectionReason::Cancelled, rejected);
            let saved = advance_version(attempt)?;
            Ok(Step { save: Some(saved), create: false, history: None, output })
        },
        SponsorStage::Committed | SponsorStage::Applied => {
            let nothing: Vec<OutboxPurpose> = Vec::new();
            assert(nothing@ =~= Seq::<OutboxPurpose>::empty());
            accept_incoming(&mut attempt, cancel, nothing.as_slice());
            set_cancel(&mut attempt, cancel.payload.as_slice(), too_late_committed_bytes());
            let index = match find_active_commitment(&attempt.outboxes) {
                Some(i) => i,
                None => return Err(inconsistent("committed admission outbox is missing")),
            };
            let output = copy_message(&attempt.outboxes[index]);
            let saved = advance_version(attempt)?;
            Ok(Step { save: Some(saved), create: false, history: None, output })
        },
        SponsorStage::Rejected => {
            let record = inbox_record(cancel);
            if attempt.terminal_result == Some(TerminalResult::Rejected) && attempt.rejection_reason
                == Some(RejectionReason::Cancelled) && opt_bytes_is(
                &attempt.cancel_request,
                cancel.payload.as_slice(),
            ) && inbox_contains(&attempt.inbox_dedup, &record) {
                match find_cancel_answer(&attempt.outboxes, &cancel.message_id) {
                    Some(i) => {
                        let mut answer = copy_message(&attempt.outboxes[i]);
                        answer.superseded = false;
                        Ok(Step { save: None, create: false, history: None, output: answer })
                    },
                    None => Err(inconsistent("cancel rejection outbox is missing")),
                }
            } else {
                Err(inconsistent("admission is already terminal"))
            }
        },
        SponsorStage::Completed => Err(inconsistent("admission is already terminal")),
    }
}

/// What the candidate event saved in a record says, once decoded.
#[derive(Debug, Clone, Copy)]
pub enum CandidateEventFacts {
    /// The candidate adds the joiner's member instance.
    AddDevice { event_id: [u8; 32], member_instance: [u8; 32] },
    /// The candidate is some other operation.
    OtherOperation,
}

/// The mathematical value of decoded candidate facts.
pub enum CandidateFactsView {
    AddDevice { event_id: Seq<u8>, member_instance: Seq<u8> },
    OtherOperation,
}

impl View for CandidateEventFacts {
    type V = CandidateFactsView;

    open spec fn view(&self) -> CandidateFactsView {
        match self {
            CandidateEventFacts::AddDevice { event_id, member_instance } => {
                CandidateFactsView::AddDevice { event_id: event_id@, member_instance: member_instance@ }
            },
            CandidateEventFacts::OtherOperation => CandidateFactsView::OtherOperation,
        }
    }
}

/// The result of extending a saved membership history with one event.
#[derive(Debug)]
pub enum HistoryExtension {
    /// The event extends the history; the extended history.
    Applied(Vec<u8>),
    /// The event is already known or diverges from the history.
    NotExtended,
    /// The history or the event does not verify.
    Invalid,
}

/// The mathematical value of a history extension.
pub enum ExtensionView {
    Applied(Seq<u8>),
    NotExtended,
    Invalid,
}

impl View for HistoryExtension {
    type V = ExtensionView;

    open spec fn view(&self) -> ExtensionView {
        match self {
            HistoryExtension::Applied(h) => ExtensionView::Applied(h@),
            HistoryExtension::NotExtended => ExtensionView::NotExtended,
            HistoryExtension::Invalid => ExtensionView::Invalid,
        }
    }
}

/// How the removal of a pending member is carried out.
#[derive(Debug)]
pub enum PendingMemberRemovalOutcome {
    /// The admission is refused; the `Rejected` message to deliver.
    AdmissionRejected(OutboxMessage),
    /// The member is already active and needs an ordinary removal.
    OrdinaryMemberRemovalRequired,
}

/// The mathematical value of a removal outcome.
pub enum RemovalView {
    AdmissionRejected(MessageView),
    OrdinaryMemberRemovalRequired,
}

impl View for PendingMemberRemovalOutcome {
    type V = RemovalView;

    open spec fn view(&self) -> RemovalView {
        match self {
            PendingMemberRemovalOutcome::AdmissionRejected(m) => RemovalView::AdmissionRejected(m@),
            PendingMemberRemovalOutcome::OrdinaryMemberRemovalRequired => {
                RemovalView::OrdinaryMemberRemovalRequired
            },
        }
    }
}

/// The last message before `end` that satisfies `pred`.
pub open spec fn last_where_below(s: Seq<MessageView>, pred: spec_fn(MessageView) -> bool, end: int) -> Option<int>
    decreases end,
{
    if end <= 0 || end > s.len() {
        None
    } else if pred(s[end - 1]) {
        Some(end - 1)
    } else {
        last_where_below(s, pred, end - 1)
    }
}

/// An active `Candidate` or `Commit` message.
pub open spec fn active_offer() -> spec_fn(MessageView) -> bool {
    |m: MessageView| !m.superseded && (m.purpose == OutboxPurpose::Candidate || m.purpose
        == OutboxPurpose::Commit)
}

/// The purposes a pending-member removal supersedes.
pub open spec fn removal_superseded() -> Seq<OutboxPurpose> {
    seq![OutboxPurpose::Candidate, OutboxPurpose::Prepared, OutboxPurpose::Commit, OutboxPurpose::Applied]
}

/// The outcome of removing a member whose admission is still pending. Before
/// activation the admission is refused for good; a committed admission keeps
/// its add and records the removal after it in the history.
pub open spec fn remove_pending_model(
    attempt_id: Seq<u8>,
    loaded: Option<AttemptView>,
    decoded: Option<CandidateFactsView>,
    removal_parent: Option<Seq<u8>>,
    removal_member: Option<Seq<u8>>,
    extension: ExtensionView,
    recipient: Seq<u8>,
    payload: Seq<u8>,
) -> Result<StepView<RemovalView>, ErrorKind> {
    match loaded {
        None => Err(ErrorKind::Inconsistent),
        Some(a) => match a.role {
            AdmissionRole::Sponsor(stage) => if stage == SponsorStage::Applied || stage
                == SponsorStage::Completed {
                Ok(answer(RemovalView::OrdinaryMemberRemovalRequired))
            } else if stage == SponsorStage::Rejected && a.rejection_reason == Some(
                RejectionReason::RemovedBeforeActivation,
            ) {
                match replay_active(a, OutboxPurpose::Rejected) {
                    Ok(step) => Ok(answer(RemovalView::AdmissionRejected(step.output))),
                    Err(kind) => Err(kind),
                }
            } else if a.candidate_event is None {
                Err(ErrorKind::Inconsistent)
            } else {
                match decoded {
                    None => Err(ErrorKind::AdmissionStorage),
                    Some(CandidateFactsView::OtherOperation) => Err(ErrorKind::Inconsistent),
                    Some(CandidateFactsView::AddDevice { event_id, member_instance }) => if removal_parent
                        != Some(event_id) || removal_member != Some(member_instance) {
                        Err(ErrorKind::Inconsistent)
                    } else {
                        match a.verified_membership_history {
                            None => Err(ErrorKind::Inconsistent),
                            Some(candidate_history) => match extension {
                                ExtensionView::Applied(removed_history) => match last_where_below(
                                    a.outboxes,
                                    active_offer(),
                                    a.outboxes.len() as int,
                                ) {
                                    None => Err(ErrorKind::Inconsistent),
                                    Some(p) => {
                                        let rejected = outbound_view(
                                            attempt_id,
                                            OutboxPurpose::Rejected,
                                            recipient,
                                            Some(a.outboxes[p].message_id),
                                            rejection_payload(RejectionReason::RemovedBeforeActivation, payload),
                                        );
                                        let next = sponsor_rejected_record(
                                            with_outboxes(a, supersede_purposes(a.outboxes, removal_superseded())),
                                            RejectionReason::RemovedBeforeActivation,
                                            rejected,
                                        );
                                        if next.record_version == u64::MAX {
                                            Err(ErrorKind::Inconsistent)
                                        } else if stage == SponsorStage::Committed {
                                            Ok(
                                                advance_with_history(
                                                    crate::attempt::advanced(next),
                                                    Some(candidate_history),
                                                    removed_history,
                                                    RemovalView::AdmissionRejected(rejected),
                                                ),
                                            )
                                        } else {
                                            Ok(crate::step::advance_to(
                                                crate::attempt::advanced(next),
                                                RemovalView::AdmissionRejected(rejected),
                                            ))
                                        }
                                    },
                                },
                                _ => Err(ErrorKind::Inconsistent),
                            },
                        }
                    },
                }
            },
            _ => Err(ErrorKind::Inconsistent),
        },
    }
}

/// The index of the last active `Candidate` or `Commit` message.
fn find_last_offer(outboxes: &Vec<OutboxMessage>) -> (index: Option<usize>)
    ensures
        index matches Some(i) ==> i < outboxes@.len() && last_where_below(
            outboxes@.map_values(|m: OutboxMessage| m@),
            active_offer(),
            outboxes@.len() as int,
        ) == Some(i as int),
        index is None ==> last_where_below(
            outboxes@.map_values(|m: OutboxMessage| m@),
            active_offer(),
            outboxes@.len() as int,
        ) is None,
{
    let ghost s = outboxes@.map_values(|m: OutboxMessage| m@);
    let ghost pred = active_offer();
    let mut end: usize = outboxes.len();
    while end > 0
        invariant
            end <= outboxes@.len(),
            s == outboxes@.map_values(|m: OutboxMessage| m@),
            pred == active_offer(),
            last_where_below(s, pred, s.len() as int) == last_where_below(s, pred, end as int),
        decreases end,
    {
        let m = &outboxes[end - 1];
        if !m.superseded && (m.purpose == OutboxPurpose::Candidate || m.purpose == OutboxPurpose::Commit) {
            return Some(end - 1);
        }
        end = end - 1;
    }
    None
}

/// A sponsor removes a member whose admission has not been activated.
/// `decoded` is the decoded candidate event of the record (`None` when it
/// does not decode); `removal_parent` and `removal_member` are the parent and
/// the removed member of the removal event (`removal_member` is `None` when
/// the event is not a removal); `extension` is the candidate history extended
/// with the removal event.
pub fn sponsor_remove_pending_member(
    attempt_id: &[u8; 32],
    loaded: Option<AdmissionAttempt>,
    decoded: Option<CandidateEventFacts>,
    removal_parent: Option<[u8; 32]>,
    removal_member: Option<[u8; 32]>,
    extension: HistoryExtension,
    recipient: &[u8],
    payload: &[u8],
) -> (result: Result<Step<PendingMemberRemovalOutcome>, WorkspaceConvergenceError>)
    ensures
        step_matches(
            result,
            remove_pending_model(
                attempt_id@,
                loaded_view(&loaded),
                match decoded {
                    Some(d) => Some(d@),
                    None => None,
                },
                crate::bytes::opt_id_view(removal_parent),
                crate::bytes::opt_id_view(removal_member),
                extension@,
                recipient@,
                payload@,
            ),
        ),
{
    let mut attempt = match loaded {
        Some(a) => a,
        None => return Err(inconsistent("admission attempt was not found")),
    };
    let stage = match attempt.role {
        AdmissionRole::Sponsor(stage) => stage,
        _ => return Err(inconsistent("only a sponsor can remove a pending member")),
    };
    if stage == SponsorStage::Applied || stage == SponsorStage::Completed {
        return Ok(Step {
            save: None,
            create: false,
            history: None,
            output: PendingMemberRemovalOutcome::OrdinaryMemberRemovalRequired,
        });
    }
    if stage == SponsorStage::Rejected && attempt.rejection_reason == Some(
        RejectionReason::RemovedBeforeActivation,
    ) {
        let replay = active_outbox(&attempt, OutboxPurpose::Rejected)?;
        return Ok(Step {
            save: None,
            create: false,
            history: None,
            output: PendingMemberRemovalOutcome::AdmissionRejected(replay),
        });
    }
    if attempt.candidate_event.is_none() {
        return Err(inconsistent("pending candidate event is missing"));
    }
    let (event_id, member_instance) = match decoded {
        None => return Err(admission_storage("pending candidate event cannot be decoded")),
        Some(CandidateEventFacts::OtherOperation) => return Err(inconsistent("pending candidate is not an AddDevice")),
        Some(CandidateEventFacts::AddDevice { event_id, member_instance }) => (event_id, member_instance),
    };
    let parent_matches = match removal_parent {
        Some(p) => crate::bytes::id_eq(&p, &event_id),
        None => false,
    };
    let member_matches = match removal_member {
        Some(m) => crate::bytes::id_eq(&m, &member_instance),
        None => false,
    };
    if !parent_matches || !member_matches {
        return Err(inconsistent("pending-member removal does not match the admission candidate"));
    }
    let candidate_history = match &attempt.verified_membership_history {
        Some(h) => bytes_to_vec(h.as_slice()),
        None => return Err(inconsistent("verified candidate history is missing")),
    };
    let removed_history = match extension {
        HistoryExtension::Applied(h) => h,
        HistoryExtension::NotExtended => return Err(inconsistent(
            "pending-member removal does not extend the candidate history",
        )),
        HistoryExtension::Invalid => return Err(inconsistent("candidate history does not verify")),
    };
    let predecessor_index = match find_last_offer(&attempt.outboxes) {
        Some(i) => i,
        None => return Err(inconsistent("pending-member removal predecessor is missing")),
    };
    let predecessor = attempt.outboxes[predecessor_index].message_id;
    supersede_outboxes(
        &mut attempt,
        &[OutboxPurpose::Candidate, OutboxPurpose::Prepared, OutboxPurpose::Commit, OutboxPurpose::Applied],
    );
    proof {
        assert(removal_superseded() =~= [
            OutboxPurpose::Candidate,
            OutboxPurpose::Prepared,
            OutboxPurpose::Commit,
            OutboxPurpose::Applied,
        ]@);
    }
    let rejection = encode_rejection_payload(RejectionReason::RemovedBeforeActivation, payload);
    let rejected = outbound_message(
        attempt_id,
        OutboxPurpose::Rejected,
        recipient,
        Some(predecessor),
        rejection.as_slice(),
    );
    let output = copy_message(&rejected);
    mark_sponsor_rejected(&mut attempt, RejectionReason::RemovedBeforeActivation, rejected);
    let saved = advance_version(attempt)?;
    let history = if stage == SponsorStage::Committed {
        Some(HistoryUpdate { expected: Some(candidate_history), history: removed_history })
    } else {
        None
    };
    Ok(Step {
        save: Some(saved),
        create: false,
        history,
        output: PendingMemberRemovalOutcome::AdmissionRejected(output),
    })
}

} // verus!
