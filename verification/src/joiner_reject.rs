//! The joiner's side of a refusal: a `Rejected` message from the sponsor, the
//! confirmation that a superseded join was cleaned up, and a refusal the
//! joiner records itself before any candidate arrived.
use vstd::prelude::*;
use crate::attempt::{first_where, inbox_contains, loaded_view, superseded_view, supersede_at, with_inbox, with_outboxes, AdmissionAttempt, AdmissionRole, AttemptView, JoinerStage, TerminalResult};
use crate::bytes::opt_bytes_view;
use crate::error::{inconsistent, WorkspaceConvergenceError};
use crate::message::{inbox_record, inbox_view_of, outbound_view, require_message, InboxRecord, InboxView, MessageView, OutboxMessage, OutboxPurpose};
use crate::rejection::{decode_rejection_reason, decoded_rejection_reason, RejectionReason};
use crate::sponsor::advance_or_fail;
use crate::step::{answer, step_matches, ErrorKind, Step, StepView};

verus! {

/// What decoding the saved space transition of a joiner shows.
#[derive(Debug, Clone, Copy, PartialEq, Eq, Structural)]
pub enum TransitionProgress {
    /// The saved bytes are not a space transition.
    Invalid,
    /// The transition has not started activating the target space.
    BeforeActivation,
    /// Activation of the target space has started; it cannot be undone.
    ActivationStarted,
}

/// A recorded refusal: the acknowledgment to send back, and the local state
/// that must be discarded before the record is saved.
#[derive(Debug)]
pub struct JoinerRejection {
    pub acknowledgment: InboxRecord,
    /// The saved space transition to discard before activation.
    pub discard_transition: Option<Vec<u8>>,
    /// The staged security state to discard.
    pub discard_staged: Option<Vec<u8>>,
    /// The pending security state to discard.
    pub discard_pending: Option<Vec<u8>>,
}

/// The mathematical value of a recorded refusal.
pub struct RejectionView {
    pub acknowledgment: InboxView,
    pub discard_transition: Option<Seq<u8>>,
    pub discard_staged: Option<Seq<u8>>,
    pub discard_pending: Option<Seq<u8>>,
}

impl View for JoinerRejection {
    type V = RejectionView;

    open spec fn view(&self) -> RejectionView {
        RejectionView {
            acknowledgment: self.acknowledgment@,
            discard_transition: opt_bytes_view(&self.discard_transition),
            discard_staged: opt_bytes_view(&self.discard_staged),
            discard_pending: opt_bytes_view(&self.discard_pending),
        }
    }
}

/// A refusal that discards nothing.
pub open spec fn plain_rejection(ack: InboxView) -> RejectionView {
    RejectionView { acknowledgment: ack, discard_transition: None, discard_staged: None, discard_pending: None }
}

/// Every outbox message marked superseded.
pub open spec fn supersede_all(s: Seq<MessageView>) -> Seq<MessageView> {
    Seq::new(s.len(), |i: int| superseded_view(s[i]))
}

/// The active cleanup request with identifier `id`.
pub open spec fn cleanup_with_id(id: Seq<u8>) -> spec_fn(MessageView) -> bool {
    |m: MessageView| m.purpose == OutboxPurpose::CancelRequested && m.message_id == id && !m.superseded
}

/// Whether an active outbox message has identifier `id`.
pub open spec fn has_active_id(s: Seq<MessageView>, id: Seq<u8>) -> bool {
    exists|i: int| 0 <= i < s.len() && #[trigger] s[i].message_id == id && !s[i].superseded
}

/// The joiner record after a refusal: terminal and rejected with `reason`,
/// every outbox message superseded, no security state kept, the transition
/// gone when `drop_transition` is set, and the acknowledgment remembered.
pub open spec fn joiner_rejected_record(
    a: AttemptView,
    reason: RejectionReason,
    ack: InboxView,
    drop_transition: bool,
) -> AttemptView {
    AttemptView {
        terminal_result: Some(TerminalResult::Rejected),
        rejection_reason: Some(reason),
        role: AdmissionRole::Joiner(JoinerStage::Rejected),
        outboxes: supersede_all(a.outboxes),
        staged_security_state: None,
        joiner_pending_security_state: None,
        space_transition: if drop_transition { None } else { a.space_transition },
        target_access_state: if drop_transition { None } else { a.target_access_state },
        inbox_dedup: crate::attempt::inbox_with(a.inbox_dedup, ack),
        ..a
    }
}

/// The outcome of the joiner receiving `rejected`. For a join already
/// replaced by a newer one, a `Rejected` message that follows a cleanup
/// request still to be delivered confirms that request, whatever else it
/// carries, and the join stays replaced; otherwise it refuses the pending
/// join, which must not have begun activating its target space.
pub open spec fn record_rejected_model(
    attempt_id: Seq<u8>,
    loaded: Option<AttemptView>,
    rejected: MessageView,
    transition: TransitionProgress,
) -> Result<StepView<RejectionView>, ErrorKind> {
    let ack = inbox_view_of(rejected);
    match loaded {
        None => Err(ErrorKind::Inconsistent),
        Some(a) => if a.terminal_result == Some(TerminalResult::SupersededByNewJoin) {
            match rejected.predecessor {
                None => Err(ErrorKind::Inconsistent),
                Some(p) => if rejected.purpose != OutboxPurpose::Rejected {
                    Err(ErrorKind::Inconsistent)
                } else {
                    match first_where(a.outboxes, cleanup_with_id(p)) {
                        None => Err(ErrorKind::Inconsistent),
                        Some(i) => {
                            let settled = with_outboxes(a, a.outboxes.update(i, superseded_view(a.outboxes[i])));
                            advance_or_fail(
                                with_inbox(settled, crate::attempt::inbox_with(a.inbox_dedup, ack)),
                                plain_rejection(ack),
                            )
                        },
                    }
                },
            }
        } else if a.terminal_result == Some(TerminalResult::Rejected) && a.inbox_dedup.contains(ack) {
            Ok(answer(plain_rejection(ack)))
        } else if !(a.role is Joiner) || a.terminal_result is Some {
            Err(ErrorKind::Inconsistent)
        } else {
            match rejected.predecessor {
                None => Err(ErrorKind::Inconsistent),
                Some(p) => if !has_active_id(a.outboxes, p) || rejected != outbound_view(
                    attempt_id,
                    OutboxPurpose::Rejected,
                    rejected.recipient,
                    Some(p),
                    rejected.payload,
                ) {
                    Err(ErrorKind::Inconsistent)
                } else {
                    match decoded_rejection_reason(rejected.payload) {
                        None => Err(ErrorKind::Inconsistent),
                        Some(reason) => {
                            let drop = a.space_transition is Some;
                            if drop && transition != TransitionProgress::BeforeActivation {
                                Err(ErrorKind::Inconsistent)
                            } else {
                                advance_or_fail(
                                    joiner_rejected_record(a, reason, ack, drop),
                                    RejectionView {
                                        acknowledgment: ack,
                                        discard_transition: a.space_transition,
                                        discard_staged: a.staged_security_state,
                                        discard_pending: a.joiner_pending_security_state,
                                    },
                                )
                            }
                        },
                    }
                },
            }
        },
    }
}

/// The index of the active cleanup request with identifier `id`.
fn find_cleanup(outboxes: &Vec<OutboxMessage>, id: &[u8; 32]) -> (index: Option<usize>)
    ensures
        index matches Some(i) ==> first_where(outboxes@.map_values(|m: OutboxMessage| m@), cleanup_with_id(id@))
            == Some(i as int) && i < outboxes@.len(),
        index is None ==> first_where(outboxes@.map_values(|m: OutboxMessage| m@), cleanup_with_id(id@)) is None,
{
    let ghost s = outboxes@.map_values(|m: OutboxMessage| m@);
    let mut i: usize = 0;
    while i < outboxes.len()
        invariant
            i <= outboxes@.len(),
            s == outboxes@.map_values(|m: OutboxMessage| m@),
            crate::attempt::first_where_from(s, cleanup_with_id(id@), 0)
                == crate::attempt::first_where_from(s, cleanup_with_id(id@), i as int),
        decreases outboxes@.len() - i,
    {
        if outboxes[i].purpose == OutboxPurpose::CancelRequested && !outboxes[i].superseded
            && crate::bytes::id_eq(&outboxes[i].message_id, id) {
            return Some(i);
        }
        i = i + 1;
    }
    None
}

/// Whether an active outbox message has identifier `id`.
fn find_active_id(outboxes: &Vec<OutboxMessage>, id: &[u8; 32]) -> (found: bool)
    ensures
        found == has_active_id(outboxes@.map_values(|m: OutboxMessage| m@), id@),
{
    let ghost s = outboxes@.map_values(|m: OutboxMessage| m@);
    let mut i: usize = 0;
    while i < outboxes.len()
        invariant
            i <= outboxes@.len(),
            s == outboxes@.map_values(|m: OutboxMessage| m@),
            forall|j: int| 0 <= j < i ==> !(s[j].message_id == id@ && !s[j].superseded),
        decreases outboxes@.len() - i,
    {
        if !outboxes[i].superseded && crate::bytes::id_eq(&outboxes[i].message_id, id) {
            assert(s[i as int].message_id == id@ && !s[i as int].superseded);
            return true;
        }
        i = i + 1;
    }
    false
}

/// Marks every outbox message superseded.
pub fn supersede_every(attempt: &mut AdmissionAttempt)
    ensures
        final(attempt)@ == with_outboxes(old(attempt)@, supersede_all(old(attempt)@.outboxes)),
{
    let ghost before = attempt@;
    let mut i: usize = 0;
    while i < attempt.outboxes.len()
        invariant
            i <= attempt@.outboxes.len(),
            attempt@.outboxes.len() == before.outboxes.len(),
            attempt@ == with_outboxes(before, attempt@.outboxes),
            forall|j: int| 0 <= j < i ==> #[trigger] attempt@.outboxes[j] == superseded_view(before.outboxes[j]),
            forall|j: int| i <= j < attempt@.outboxes.len() ==> #[trigger] attempt@.outboxes[j] == before.outboxes[j],
        decreases attempt@.outboxes.len() - i,
    {
        supersede_at(attempt, i);
        i = i + 1;
    }
    assert(attempt@.outboxes =~= supersede_all(before.outboxes));
}

/// Adds `ack` to the inbox unless an equal record is already there.
fn remember_ack(attempt: &mut AdmissionAttempt, ack: &InboxRecord)
    ensures
        final(attempt)@ == with_inbox(old(attempt)@, crate::attempt::inbox_with(old(attempt)@.inbox_dedup, ack@)),
{
    crate::attempt::remember(attempt, ack);
}

/// Makes the pending join a terminal refusal and takes out the local state
/// to discard.
fn mark_joiner_rejected(
    attempt: &mut AdmissionAttempt,
    reason: RejectionReason,
    ack: &InboxRecord,
    drop_transition: bool,
) -> (taken: (Option<Vec<u8>>, Option<Vec<u8>>, Option<Vec<u8>>))
    requires
        drop_transition == (old(attempt)@.space_transition is Some),
    ensures
        final(attempt)@ == joiner_rejected_record(old(attempt)@, reason, ack@, drop_transition),
        opt_bytes_view(&taken.0) == old(attempt)@.space_transition,
        opt_bytes_view(&taken.1) == old(attempt)@.staged_security_state,
        opt_bytes_view(&taken.2) == old(attempt)@.joiner_pending_security_state,
{
    let transition = attempt.space_transition.take();
    if drop_transition {
        attempt.target_access_state = None;
    }
    let staged = attempt.staged_security_state.take();
    let pending = attempt.joiner_pending_security_state.take();
    attempt.terminal_result = Some(TerminalResult::Rejected);
    attempt.rejection_reason = Some(reason);
    attempt.role = AdmissionRole::Joiner(JoinerStage::Rejected);
    supersede_every(attempt);
    remember_ack(attempt, ack);
    (transition, staged, pending)
}

/// The joiner records a `Rejected` message. For a join replaced by a newer
/// one it settles the cleanup request the message follows, whatever the
/// message's identifier, recipient and payload; otherwise the
/// pending join ends rejected with the reason the payload carries, and the
/// saved transition and security states are handed out to be discarded.
/// `transition` is what the saved space transition decodes to; it is read
/// only when the record holds one.
pub fn joiner_record_rejected(
    attempt_id: &[u8; 32],
    loaded: Option<AdmissionAttempt>,
    rejected: &OutboxMessage,
    transition: TransitionProgress,
) -> (result: Result<Step<JoinerRejection>, WorkspaceConvergenceError>)
    ensures
        step_matches(result, record_rejected_model(attempt_id@, loaded_view(&loaded), rejected@, transition)),
{
    let acknowledgment = inbox_record(rejected);
    let mut attempt = match loaded {
        Some(a) => a,
        None => return Err(inconsistent("admission attempt was not found")),
    };
    if attempt.terminal_result == Some(TerminalResult::SupersededByNewJoin) {
        let predecessor = match rejected.predecessor_message_id {
            Some(p) => p,
            None => return Err(inconsistent("cleanup confirmation predecessor is missing")),
        };
        if rejected.purpose != OutboxPurpose::Rejected {
            return Err(inconsistent("superseded join cleanup confirmation is invalid"));
        }
        let index = match find_cleanup(&attempt.outboxes, &predecessor) {
            Some(i) => i,
            None => return Err(inconsistent("superseded join cleanup does not match")),
        };
        supersede_at(&mut attempt, index);
        remember_ack(&mut attempt, &acknowledgment);
        let saved = crate::attempt::advance_version(attempt)?;
        let output = JoinerRejection {
            acknowledgment,
            discard_transition: None,
            discard_staged: None,
            discard_pending: None,
        };
        return Ok(Step { save: Some(saved), create: false, history: None, output });
    }
    if attempt.terminal_result == Some(TerminalResult::Rejected) && inbox_contains(
        &attempt.inbox_dedup,
        &acknowledgment,
    ) {
        let output = JoinerRejection {
            acknowledgment,
            discard_transition: None,
            discard_staged: None,
            discard_pending: None,
        };
        return Ok(Step { save: None, create: false, history: None, output });
    }
    let is_joiner = match attempt.role {
        AdmissionRole::Joiner(_) => true,
        _ => false,
    };
    if !is_joiner || attempt.terminal_result.is_some() {
        return Err(inconsistent("only a pending join can receive rejection"));
    }
    let predecessor = match rejected.predecessor_message_id {
        Some(p) => p,
        None => return Err(inconsistent("rejection predecessor is missing")),
    };
    if !find_active_id(&attempt.outboxes, &predecessor) {
        return Err(inconsistent("rejection does not match pending join work"));
    }
    require_message(attempt_id, rejected, OutboxPurpose::Rejected, Some(predecessor))?;
    let reason = decode_rejection_reason(rejected.payload.as_slice())?;
    let drop_transition = attempt.space_transition.is_some();
    if drop_transition && transition != TransitionProgress::BeforeActivation {
        return Err(inconsistent("committed space transition cannot be rejected or rolled back"));
    }
    let (discard_transition, discard_staged, discard_pending) = mark_joiner_rejected(
        &mut attempt,
        reason,
        &acknowledgment,
        drop_transition,
    );
    let saved = crate::attempt::advance_version(attempt)?;
    let output = JoinerRejection { acknowledgment, discard_transition, discard_staged, discard_pending };
    Ok(Step { save: Some(saved), create: false, history: None, output })
}

/// The pending security state a local refusal hands out to be discarded.
#[derive(Debug)]
pub struct PendingDiscard {
    pub pending: Option<Vec<u8>>,
}

impl View for PendingDiscard {
    type V = Option<Seq<u8>>;

    open spec fn view(&self) -> Option<Seq<u8>> {
        opt_bytes_view(&self.pending)
    }
}

/// The joiner record after a refusal decided locally.
pub open spec fn joiner_self_rejected(a: AttemptView, reason: RejectionReason) -> AttemptView {
    AttemptView {
        terminal_result: Some(TerminalResult::Rejected),
        rejection_reason: Some(reason),
        role: AdmissionRole::Joiner(JoinerStage::Rejected),
        outboxes: supersede_all(a.outboxes),
        joiner_pending_security_state: None,
        ..a
    }
}

/// The outcome of the joiner refusing its own join before a candidate came;
/// the output is the pending security state to discard.
pub open spec fn reject_before_candidate_model(
    loaded: Option<AttemptView>,
    reason: RejectionReason,
) -> Result<StepView<Option<Seq<u8>>>, ErrorKind> {
    match loaded {
        None => Err(ErrorKind::Inconsistent),
        Some(a) => if a.terminal_result == Some(TerminalResult::Rejected) && a.rejection_reason == Some(
            reason,
        ) {
            Ok(answer(None))
        } else if a.role != AdmissionRole::Joiner(JoinerStage::Initiated) {
            Err(ErrorKind::Inconsistent)
        } else {
            advance_or_fail(joiner_self_rejected(a, reason), a.joiner_pending_security_state)
        },
    }
}

/// The joiner refuses its own join before any candidate arrived; a repeat
/// with the same reason changes nothing.
pub fn joiner_reject_before_candidate(
    loaded: Option<AdmissionAttempt>,
    reason: RejectionReason,
) -> (result: Result<Step<PendingDiscard>, WorkspaceConvergenceError>)
    ensures
        step_matches(result, reject_before_candidate_model(loaded_view(&loaded), reason)),
{
    let mut attempt = match loaded {
        Some(a) => a,
        None => return Err(inconsistent("admission attempt was not found")),
    };
    if attempt.terminal_result == Some(TerminalResult::Rejected) && attempt.rejection_reason == Some(
        reason,
    ) {
        return Ok(Step { save: None, create: false, history: None, output: PendingDiscard { pending: None } });
    }
    if attempt.role != AdmissionRole::Joiner(JoinerStage::Initiated) {
        return Err(inconsistent("joiner admission message is out of order"));
    }
    let pending = attempt.joiner_pending_security_state.take();
    attempt.terminal_result = Some(TerminalResult::Rejected);
    attempt.rejection_reason = Some(reason);
    attempt.role = AdmissionRole::Joiner(JoinerStage::Rejected);
    supersede_every(&mut attempt);
    let saved = crate::attempt::advance_version(attempt)?;
    Ok(Step { save: Some(saved), create: false, history: None, output: PendingDiscard { pending } })
}

} // verus!
