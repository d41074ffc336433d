//! The joiner's side after commit: applying the sponsor's `Commit`, saving
//! `Complete`, and driving the saved space transition to activation.
use vstd::prelude::*;
use crate::attempt::{accept_incoming, accept_incoming_view, active_outbox_id, advance_version, advanced, compacted_view, first_active, inbox_contains, loaded_view, outboxes_contain, push_inbox, rank_at_least, rank_reaches, with_inbox, AdmissionAttempt, AdmissionRole, AttemptView, CompactedAttempt, CompactedView, JoinerStage, TerminalResult};
use crate::bytes::{bytes_eq, bytes_to_vec, lit_too_late_committed, opt_bytes_is, too_late_committed_bytes};
use crate::error::{inconsistent, WorkspaceConvergenceError};
use crate::message::{inbox_record, inbox_view_of, outbound_message, outbound_view, require_message, InboxRecord, InboxView, MessageView, OutboxMessage, OutboxPurpose};
use crate::sponsor::{advance_or_fail, push_outbox};
use crate::step::{advance_with_history, answer, step_matches, ErrorKind, HistoryUpdate, Step, StepView};

verus! {

/// What applying a commit decided.
#[derive(Debug)]
pub enum ApplyOutcome {
    /// The commit is applied; `Applied` answers the sponsor.
    Applied(OutboxMessage),
    /// The commit reached a join replaced by a newer one; it was kept as
    /// evidence and the workspace needs recovery.
    RecoveryRequired,
}

/// The mathematical value of an apply outcome.
pub enum ApplyView {
    Applied(MessageView),
    RecoveryRequired,
}

impl View for ApplyOutcome {
    type V = ApplyView;

    open spec fn view(&self) -> ApplyView {
        match self {
            ApplyOutcome::Applied(m) => ApplyView::Applied(m@),
            ApplyOutcome::RecoveryRequired => ApplyView::RecoveryRequired,
        }
    }
}

/// The joiner record after applying `commit`: the receipt and the history
/// that records it are saved, the join is applied, the commit is accepted
/// (superseding `Prepared` and any cancel request, which is then answered as
/// too late), and `applied` is queued.
pub open spec fn joiner_applied_record(
    a: AttemptView,
    commit: MessageView,
    receipt: Seq<u8>,
    history: Seq<u8>,
    applied: MessageView,
) -> AttemptView {
    let updated = AttemptView {
        activation_receipt: Some(receipt),
        verified_membership_history: Some(history),
        role: AdmissionRole::Joiner(JoinerStage::Applied),
        ..a
    };
    let accepted = accept_incoming_view(
        updated,
        commit,
        seq![OutboxPurpose::Prepared, OutboxPurpose::CancelRequested],
    );
    AttemptView {
        cancel_outcome: if a.cancel_request is Some {
            Some(lit_too_late_committed())
        } else {
            a.cancel_outcome
        },
        outboxes: accepted.outboxes.push(applied),
        ..accepted
    }
}

/// The outcome of the joiner receiving the sponsor's `Commit`. `receipt` is
/// the encoded activation receipt, bound to `receipt_attempt_id`;
/// `recorded_history` is the joiner's verified history with the receipt
/// recorded, when the receipt verifies against it.
pub open spec fn joiner_apply_model(
    attempt_id: Seq<u8>,
    receipt_attempt_id: Seq<u8>,
    loaded: Option<AttemptView>,
    commit: MessageView,
    receipt: Seq<u8>,
    recipient: Seq<u8>,
    payload: Seq<u8>,
    recorded_history: Option<Seq<u8>>,
) -> Result<StepView<ApplyView>, ErrorKind> {
    if receipt_attempt_id != attempt_id {
        Err(ErrorKind::Inconsistent)
    } else {
        match loaded {
            None => Err(ErrorKind::Inconsistent),
            Some(a) => if a.terminal_result == Some(TerminalResult::SupersededByNewJoin) {
                if commit.purpose != OutboxPurpose::Commit || commit.payload.len() == 0 {
                    Err(ErrorKind::Inconsistent)
                } else if a.inbox_dedup.contains(inbox_view_of(commit)) {
                    Ok(answer(ApplyView::RecoveryRequired))
                } else {
                    advance_or_fail(
                        with_inbox(a, a.inbox_dedup.push(inbox_view_of(commit))),
                        ApplyView::RecoveryRequired,
                    )
                }
            } else {
                let applied = outbound_view(
                    attempt_id,
                    OutboxPurpose::Applied,
                    recipient,
                    Some(commit.message_id),
                    payload,
                );
                if rank_at_least(a.role, 5) && a.activation_receipt == Some(receipt) && a.outboxes.contains(
                    applied,
                ) {
                    Ok(answer(ApplyView::Applied(applied)))
                } else if a.role != AdmissionRole::Joiner(JoinerStage::Prepared) {
                    Err(ErrorKind::Inconsistent)
                } else {
                    match first_active(a.outboxes, OutboxPurpose::Prepared) {
                        None => Err(ErrorKind::Inconsistent),
                        Some(p) => if commit != outbound_view(
                            attempt_id,
                            OutboxPurpose::Commit,
                            commit.recipient,
                            Some(a.outboxes[p].message_id),
                            commit.payload,
                        ) || a.verified_membership_history is None {
                            Err(ErrorKind::Inconsistent)
                        } else {
                            match (recorded_history, a.base_membership_history) {
                                (Some(history), Some(base)) => {
                                    let next = joiner_applied_record(a, commit, receipt, history, applied);
                                    if next.record_version == u64::MAX {
                                        Err(ErrorKind::Inconsistent)
                                    } else {
                                        Ok(advance_with_history(advanced(next), Some(base), history, ApplyView::Applied(applied)))
                                    }
                                },
                                _ => Err(ErrorKind::Inconsistent),
                            }
                        },
                    }
                }
            },
        }
    }
}

/// Saves the receipt, the recorded history and the applied stage, accepts the
/// commit and queues `applied`.
fn mark_applied(
    attempt: &mut AdmissionAttempt,
    commit: &OutboxMessage,
    receipt: &[u8],
    history: &[u8],
    applied: OutboxMessage,
)
    ensures
        final(attempt)@ == joiner_applied_record(old(attempt)@, commit@, receipt@, history@, applied@),
{
    attempt.activation_receipt = Some(bytes_to_vec(receipt));
    attempt.verified_membership_history = Some(bytes_to_vec(history));
    attempt.role = AdmissionRole::Joiner(JoinerStage::Applied);
    let purposes = [OutboxPurpose::Prepared, OutboxPurpose::CancelRequested];
    assert(purposes@ =~= seq![OutboxPurpose::Prepared, OutboxPurpose::CancelRequested]);
    accept_incoming(attempt, commit, purposes.as_slice());
    if attempt.cancel_request.is_some() {
        attempt.cancel_outcome = Some(too_late_committed_bytes());
    }
    push_outbox(attempt, applied);
}

/// The joiner applies the sponsor's `Commit`: the activation receipt is
/// recorded into its verified history, the record and the history are saved
/// together, and `Applied` answers. A commit that reaches a replaced join is
/// kept once as evidence and asks for recovery.
pub fn joiner_apply(
    attempt_id: &[u8; 32],
    receipt_attempt_id: &[u8; 32],
    loaded: Option<AdmissionAttempt>,
    commit: &OutboxMessage,
    receipt: &[u8],
    recipient: &[u8],
    payload: &[u8],
    recorded_history: &Option<Vec<u8>>,
) -> (result: Result<Step<ApplyOutcome>, WorkspaceConvergenceError>)
    ensures
        step_matches(
            result,
            joiner_apply_model(
                attempt_id@,
                receipt_attempt_id@,
                loaded_view(&loaded),
                commit@,
                receipt@,
                recipient@,
                payload@,
                crate::bytes::opt_bytes_view(recorded_history),
            ),
        ),
{
    if !crate::bytes::id_eq(receipt_attempt_id, attempt_id) {
        return Err(inconsistent("activation receipt is bound to another attempt"));
    }
    let mut attempt = match loaded {
        Some(a) => a,
        None => return Err(inconsistent("admission attempt was not found")),
    };
    if attempt.terminal_result == Some(TerminalResult::SupersededByNewJoin) {
        if commit.purpose != OutboxPurpose::Commit || commit.payload.len() == 0 {
            return Err(inconsistent("superseded join commit evidence is invalid"));
        }
        let evidence = inbox_record(commit);
        if inbox_contains(&attempt.inbox_dedup, &evidence) {
            return Ok(Step { save: None, create: false, history: None, output: ApplyOutcome::RecoveryRequired });
        }
        push_inbox(&mut attempt, &evidence);
        let saved = advance_version(attempt)?;
        return Ok(Step { save: Some(saved), create: false, history: None, output: ApplyOutcome::RecoveryRequired });
    }
    let applied = outbound_message(attempt_id, OutboxPurpose::Applied, recipient, Some(commit.message_id), payload);
    if rank_reaches(attempt.role, 5) && opt_bytes_is(&attempt.activation_receipt, receipt) && outboxes_contain(
        &attempt.outboxes,
        &applied,
    ) {
        return Ok(Step { save: None, create: false, history: None, output: ApplyOutcome::Applied(applied) });
    }
    if attempt.role != AdmissionRole::Joiner(JoinerStage::Prepared) {
        return Err(inconsistent("joiner admission message is out of order"));
    }
    let prepared_id = active_outbox_id(&attempt, OutboxPurpose::Prepared)?;
    require_message(attempt_id, commit, OutboxPurpose::Commit, Some(prepared_id))?;
    if attempt.verified_membership_history.is_none() {
        return Err(inconsistent("verified joiner history is missing"));
    }
    let history = match recorded_history {
        Some(h) => h,
        None => return Err(inconsistent("activation receipt does not extend the verified history")),
    };
    let base = match &attempt.base_membership_history {
        Some(b) => bytes_to_vec(b.as_slice()),
        None => return Err(inconsistent("joiner base membership history is missing")),
    };
    let output = crate::attempt::copy_message(&applied);
    mark_applied(&mut attempt, commit, receipt, history.as_slice(), applied);
    let saved = advance_version(attempt)?;
    let swap = HistoryUpdate { expected: Some(base), history: bytes_to_vec(history.as_slice()) };
    Ok(Step { save: Some(saved), create: false, history: Some(swap), output: ApplyOutcome::Applied(output) })
}

/// Where the joiner stands after `Complete`.
#[derive(Debug)]
pub enum ActivationOutcome {
    /// The joiner is an active member; the acknowledgment answers the sponsor.
    Active(InboxRecord),
    /// `Complete` is saved; the activation goes on with the saved record.
    Continue(InboxRecord),
    /// The saved space transition must run before the joiner is active.
    SpaceTransitionRequired,
    /// `Complete` reached a join replaced by a newer one; the workspace needs
    /// recovery.
    RecoveryRequired,
}

/// The mathematical value of an activation outcome.
pub enum ActivationView {
    Active(InboxView),
    Continue(InboxView),
    SpaceTransitionRequired,
    RecoveryRequired,
}

impl View for ActivationOutcome {
    type V = ActivationView;

    open spec fn view(&self) -> ActivationView {
        match self {
            ActivationOutcome::Active(r) => ActivationView::Active(r@),
            ActivationOutcome::Continue(r) => ActivationView::Continue(r@),
            ActivationOutcome::SpaceTransitionRequired => ActivationView::SpaceTransitionRequired,
            ActivationOutcome::RecoveryRequired => ActivationView::RecoveryRequired,
        }
    }
}

/// The joiner record with `Complete` saved and accepted.
pub open spec fn completion_saved(a: AttemptView, complete: MessageView, completion: Seq<u8>) -> AttemptView {
    accept_incoming_view(
        AttemptView { completion: Some(completion), ..a },
        complete,
        seq![OutboxPurpose::Applied],
    )
}

/// The outcome of the joiner receiving the sponsor's `Complete` with its
/// `completion` bytes. A compacted record answers replays only.
pub open spec fn joiner_activate_model(
    attempt_id: Seq<u8>,
    compacted: Option<CompactedView>,
    loaded: Option<AttemptView>,
    complete: MessageView,
    completion: Seq<u8>,
) -> Result<StepView<ActivationView>, ErrorKind> {
    let ack = inbox_view_of(complete);
    match compacted {
        Some(t) => if t.terminal_result == TerminalResult::SupersededByNewJoin {
            Err(ErrorKind::RecoveryRequired)
        } else if t.terminal_result == TerminalResult::Active && t.replay_result == completion
            && t.acknowledgment_rebuild.contains(ack) {
            Ok(answer(ActivationView::Active(ack)))
        } else {
            Err(ErrorKind::Inconsistent)
        },
        None => match loaded {
            None => Err(ErrorKind::Inconsistent),
            Some(a) => if a.terminal_result == Some(TerminalResult::SupersededByNewJoin) {
                if complete.purpose != OutboxPurpose::Complete || complete.payload.len() == 0 {
                    Err(ErrorKind::Inconsistent)
                } else if a.inbox_dedup.contains(ack) {
                    Ok(answer(ActivationView::RecoveryRequired))
                } else {
                    advance_or_fail(with_inbox(a, a.inbox_dedup.push(ack)), ActivationView::RecoveryRequired)
                }
            } else if a.terminal_result == Some(TerminalResult::Active) && a.completion == Some(completion)
                && a.inbox_dedup.contains(ack) {
                Ok(answer(ActivationView::Active(ack)))
            } else if a.role != AdmissionRole::Joiner(JoinerStage::Applied) {
                Err(ErrorKind::Inconsistent)
            } else if a.completion is None {
                match first_active(a.outboxes, OutboxPurpose::Applied) {
                    None => Err(ErrorKind::Inconsistent),
                    Some(i) => if complete != outbound_view(
                        attempt_id,
                        OutboxPurpose::Complete,
                        complete.recipient,
                        Some(a.outboxes[i].message_id),
                        complete.payload,
                    ) {
                        Err(ErrorKind::Inconsistent)
                    } else {
                        advance_or_fail(completion_saved(a, complete, completion), ActivationView::Continue(ack))
                    },
                }
            } else if a.completion != Some(completion) || !a.inbox_dedup.contains(ack) {
                Err(ErrorKind::Inconsistent)
            } else {
                Ok(answer(ActivationView::Continue(ack)))
            },
        },
    }
}

/// The joiner receives `Complete`: it is saved once and the activation goes
/// on (`Continue`) with the saved record; replays of a finished activation
/// answer `Active`, and a replaced join asks for recovery.
pub fn joiner_activate(
    attempt_id: &[u8; 32],
    compacted: Option<&CompactedAttempt>,
    loaded: Option<AdmissionAttempt>,
    complete: &OutboxMessage,
    completion: &[u8],
) -> (result: Result<Step<ActivationOutcome>, WorkspaceConvergenceError>)
    ensures
        step_matches(
            result,
            joiner_activate_model(attempt_id@, compacted_view(compacted), loaded_view(&loaded), complete@, completion@),
        ),
{
    let acknowledgment = inbox_record(complete);
    if let Some(terminal) = compacted {
        if terminal.terminal_result == TerminalResult::SupersededByNewJoin {
            return Err(WorkspaceConvergenceError::RecoveryRequired);
        }
        if terminal.terminal_result == TerminalResult::Active && bytes_eq(
            terminal.replay_result.as_slice(),
            completion,
        ) && inbox_contains(&terminal.acknowledgment_rebuild, &acknowledgment) {
            return Ok(Step { save: None, create: false, history: None, output: ActivationOutcome::Active(acknowledgment) });
        }
        return Err(inconsistent("complete replay does not match compacted admission result"));
    }
    let mut attempt = match loaded {
        Some(a) => a,
        None => return Err(inconsistent("admission attempt was not found")),
    };
    if attempt.terminal_result == Some(TerminalResult::SupersededByNewJoin) {
        if complete.purpose != OutboxPurpose::Complete || complete.payload.len() == 0 {
            return Err(inconsistent("superseded join completion evidence is invalid"));
        }
        if inbox_contains(&attempt.inbox_dedup, &acknowledgment) {
            return Ok(Step { save: None, create: false, history: None, output: ActivationOutcome::RecoveryRequired });
        }
        push_inbox(&mut attempt, &acknowledgment);
        let saved = advance_version(attempt)?;
        return Ok(Step { save: Some(saved), create: false, history: None, output: ActivationOutcome::RecoveryRequired });
    }
    if attempt.terminal_result == Some(TerminalResult::Active) && opt_bytes_is(&attempt.completion, completion)
        && inbox_contains(&attempt.inbox_dedup, &acknowledgment) {
        return Ok(Step { save: None, create: false, history: None, output: ActivationOutcome::Active(acknowledgment) });
    }
    if attempt.role != AdmissionRole::Joiner(JoinerStage::Applied) {
        return Err(inconsistent("joiner admission message is out of order"));
    }
    if attempt.completion.is_none() {
        let applied_id = active_outbox_id(&attempt, OutboxPurpose::Applied)?;
        require_message(attempt_id, complete, OutboxPurpose::Complete, Some(applied_id))?;
        attempt.completion = Some(bytes_to_vec(completion));
        let purposes = [OutboxPurpose::Applied];
        assert(purposes@ =~= seq![OutboxPurpose::Applied]);
        accept_incoming(&mut attempt, complete, purposes.as_slice());
        let saved = advance_version(attempt)?;
        return Ok(Step { save: Some(saved), create: false, history: None, output: ActivationOutcome::Continue(acknowledgment) });
    }
    if !opt_bytes_is(&attempt.completion, completion) || !inbox_contains(&attempt.inbox_dedup, &acknowledgment) {
        return Err(inconsistent("complete replay does not match saved state"));
    }
    Ok(Step { save: None, create: false, history: None, output: ActivationOutcome::Continue(acknowledgment) })
}

/// The completed joiner record.
pub open spec fn joiner_completed(a: AttemptView) -> AttemptView {
    AttemptView {
        terminal_result: Some(TerminalResult::Active),
        role: AdmissionRole::Joiner(JoinerStage::Completed),
        ..a
    }
}

/// The outcome of finishing an activation whose `Complete` is saved:
/// `transition_valid` says whether the saved space transition decodes.
pub open spec fn finish_activation_model(
    loaded: Option<AttemptView>,
    ack: InboxView,
    transition_valid: bool,
) -> Result<StepView<ActivationView>, ErrorKind> {
    match loaded {
        None => Err(ErrorKind::Inconsistent),
        Some(a) => if a.space_transition is Some {
            if transition_valid {
                Ok(answer(ActivationView::SpaceTransitionRequired))
            } else {
                Err(ErrorKind::Inconsistent)
            }
        } else {
            advance_or_fail(joiner_completed(a), ActivationView::Active(ack))
        },
    }
}

/// Finishes an activation after `Complete` is saved: with a saved space
/// transition the transition must run first; without one the joiner becomes
/// active.
pub fn joiner_finish_activation(
    loaded: Option<AdmissionAttempt>,
    acknowledgment: InboxRecord,
    transition_valid: bool,
) -> (result: Result<Step<ActivationOutcome>, WorkspaceConvergenceError>)
    ensures
        step_matches(result, finish_activation_model(loaded_view(&loaded), acknowledgment@, transition_valid)),
{
    let mut attempt = match loaded {
        Some(a) => a,
        None => return Err(inconsistent("admission attempt was not found")),
    };
    if attempt.space_transition.is_some() {
        if !transition_valid {
            return Err(inconsistent("saved space transition is invalid"));
        }
        return Ok(Step { save: None, create: false, history: None, output: ActivationOutcome::SpaceTransitionRequired });
    }
    attempt.terminal_result = Some(TerminalResult::Active);
    attempt.role = AdmissionRole::Joiner(JoinerStage::Completed);
    let saved = advance_version(attempt)?;
    Ok(Step { save: Some(saved), create: false, history: None, output: ActivationOutcome::Active(acknowledgment) })
}

/// What the space transition adapter reported for one step of the saved
/// transition.
#[derive(Debug)]
pub enum TransitionStep {
    /// The transition moved to a next phase. `follows` says whether that
    /// phase directly follows the saved one; `next` is its encoding, when it
    /// has one.
    Advanced { follows: bool, next: Option<Vec<u8>> },
    /// The transition finished. `matches_cleanup` says whether the result
    /// agrees with the saved cleanup state; `result` is its encoding, when it
    /// has one.
    Finished { matches_cleanup: bool, result: Option<Vec<u8>> },
}

/// The mathematical value of a transition step.
pub enum TransitionStepView {
    Advanced { follows: bool, next: Option<Seq<u8>> },
    Finished { matches_cleanup: bool, result: Option<Seq<u8>> },
}

impl View for TransitionStep {
    type V = TransitionStepView;

    open spec fn view(&self) -> TransitionStepView {
        match self {
            TransitionStep::Advanced { follows, next } => TransitionStepView::Advanced {
                follows: *follows,
                next: crate::bytes::opt_bytes_view(next),
            },
            TransitionStep::Finished { matches_cleanup, result } => TransitionStepView::Finished {
                matches_cleanup: *matches_cleanup,
                result: crate::bytes::opt_bytes_view(result),
            },
        }
    }
}

/// The joiner record after the space transition finished with `result`.
pub open spec fn transition_finished(a: AttemptView, result: Seq<u8>) -> AttemptView {
    AttemptView { space_transition_result: Some(result), ..joiner_completed(a) }
}

/// The outcome of recording one step of the saved space transition.
/// `current_valid` says whether the saved transition decodes. Only a joiner
/// that saved `Complete` runs its transition; a finished transition makes the
/// joiner active and saves its verified history with the record. The output
/// tells whether the transition finished.
pub open spec fn transition_step_model(
    loaded: Option<AttemptView>,
    current_valid: bool,
    step: TransitionStepView,
) -> Result<StepView<bool>, ErrorKind> {
    match loaded {
        None => Err(ErrorKind::Inconsistent),
        Some(a) => if !(a.role is Joiner) || a.completion is None || a.space_transition is None
            || !current_valid {
            Err(ErrorKind::Inconsistent)
        } else {
            match step {
                TransitionStepView::Advanced { follows, next } => match next {
                    Some(n) => if follows {
                        advance_or_fail(AttemptView { space_transition: Some(n), ..a }, false)
                    } else {
                        Err(ErrorKind::Inconsistent)
                    },
                    None => Err(ErrorKind::Inconsistent),
                },
                TransitionStepView::Finished { matches_cleanup, result } => match (
                    result,
                    a.verified_membership_history,
                ) {
                    (Some(r), Some(h)) => if !matches_cleanup {
                        Err(ErrorKind::Inconsistent)
                    } else {
                        let next = transition_finished(a, r);
                        if next.record_version == u64::MAX {
                            Err(ErrorKind::Inconsistent)
                        } else {
                            Ok(advance_with_history(advanced(next), Some(h), h, true))
                        }
                    },
                    _ => Err(ErrorKind::Inconsistent),
                },
            }
        },
    }
}

/// Records one step of the saved space transition: a next phase replaces the
/// saved one, and a finished transition makes the joiner active.
pub fn record_transition_step(
    loaded: Option<AdmissionAttempt>,
    current_valid: bool,
    step: TransitionStep,
) -> (result: Result<Step<bool>, WorkspaceConvergenceError>)
    ensures
        step_matches(result, transition_step_model(loaded_view(&loaded), current_valid, step@)),
{
    let mut attempt = match loaded {
        Some(a) => a,
        None => return Err(inconsistent("admission attempt was not found")),
    };
    let is_joiner = match attempt.role {
        AdmissionRole::Joiner(_) => true,
        _ => false,
    };
    if !is_joiner || attempt.completion.is_none() {
        return Err(inconsistent("space transition cannot run before joiner Complete is saved"));
    }
    if attempt.space_transition.is_none() {
        return Err(inconsistent("space transition disappeared"));
    }
    if !current_valid {
        return Err(inconsistent("saved space transition is invalid"));
    }
    match step {
        TransitionStep::Advanced { follows, next } => {
            let next = match next {
                Some(n) => n,
                None => return Err(inconsistent("advanced space transition is invalid")),
            };
            if !follows {
                return Err(inconsistent("space transition adapter skipped or replaced a phase"));
            }
            attempt.space_transition = Some(next);
            let saved = advance_version(attempt)?;
            Ok(Step { save: Some(saved), create: false, history: None, output: false })
        },
        TransitionStep::Finished { matches_cleanup, result } => {
            let encoded = match result {
                Some(r) => r,
                None => return Err(inconsistent("space transition result cannot be encoded")),
            };
            let history = match &attempt.verified_membership_history {
                Some(h) => bytes_to_vec(h.as_slice()),
                None => return Err(inconsistent("space transition verified history is missing")),
            };
            if !matches_cleanup {
                return Err(inconsistent("space transition result does not match cleanup state"));
            }
            attempt.space_transition_result = Some(encoded);
            attempt.terminal_result = Some(TerminalResult::Active);
            attempt.role = AdmissionRole::Joiner(JoinerStage::Completed);
            let saved = advance_version(attempt)?;
            let swap = HistoryUpdate { expected: Some(bytes_to_vec(history.as_slice())), history };
            Ok(Step { save: Some(saved), create: false, history: Some(swap), output: true })
        },
    }
}

} // verus!
