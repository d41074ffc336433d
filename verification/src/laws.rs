//! Properties that hold across the admission transitions and the gossip
//! scheduling, stated over the models the transitions are proved against.
use vstd::prelude::*;
use crate::attempt::{accept_incoming_view, advanced, inbox_has_id, lemma_first_where_sound, AdmissionRole, AttemptView, SponsorStage, TerminalResult};
use crate::message::{outbound_view, MessageView, OutboxPurpose};
use crate::rejection::RejectionReason;
use crate::sponsor::advance_or_fail;
use crate::sponsor::sponsor_commit_model;
use crate::sponsor_withdraw::{active_commitment, decide_cancel_model};
use crate::joiner_apply::{joiner_apply_model, ApplyView};
use crate::joiner_reject::{joiner_rejected_record, reject_before_candidate_model};
use crate::local_join::supersede_model;
use crate::recovery::settled;
use crate::sponsor_offer::{accept_and_offer_model, OfferView};
use crate::candidate::CandidateView;
use crate::message::InboxView;
use crate::discovery::{reconcile_delay, reconcile_interval, retry_base, retry_deadline, CandidateSchedule, GOSSIP_RECONCILE_INTERVAL_MS, GOSSIP_RECONCILE_JITTER_WINDOW_MS, INITIAL_RETRY_DELAY_MS, MAX_RETRY_DELAY_MS, MIN_SCHEDULED_RECONCILE_DELAY_MS};
use crate::runtime::{pass_due, pass_model, wait_event_enabled, wait_model, Command, PassEvent, RuntimeState, WaitAction, WaitEvent};
use crate::step::{answer, ErrorKind, StepView};
use crate::joiner::{start_join_model, MaterialView};
use crate::discovery::{attestation_failure_model, candidate_failure_deferrable, AttestationError};
use crate::frames::{commit_payload_built, commit_payload_model, completion_binds, completion_built, route_of, CompletionFacts};
use crate::attempt::{opt_facts_view, AdmissionAttempt};
use crate::payload::DurableAdmissionCommitPayload;
use crate::sponsor_finish::{complete_as_helper_model, helper_view, sponsor_complete_model, HelperBundle};
use crate::joiner_prepare::{prepare_gate_model, prepared_answer, record_prepared_model, PrepareGateView, PreparedValuesView};
use crate::local_join::{cancel_join_model, JoinProjection};
use crate::joiner_apply::{joiner_activate_model, transition_step_model, ActivationView, TransitionStepView};
use crate::recovery::needs_session_transition;
use crate::attempt::CompactedView;
use crate::sponsor_withdraw::{remove_pending_model, CandidateFactsView, ExtensionView, RemovalView};
use crate::candidate_check::{preparation_verified, CommitmentFacts, EventFacts, ReceiveOutcome};
use crate::joiner_prepare::current_history_fits;
use crate::joiner::acknowledge_delivery_model;
use crate::sponsor_finish::confirm_rejected_model;
use crate::message::inbox_view_of;
use crate::runtime::Presence;

verus! {

/// A message built for an attempt is exactly the message the attempt
/// accepts for the same purpose and predecessor: `require_message` accepts
/// what `outbound_message` builds.
pub proof fn law_built_message_is_accepted(
    attempt_id: Seq<u8>,
    purpose: OutboxPurpose,
    recipient: Seq<u8>,
    predecessor: Option<Seq<u8>>,
    payload: Seq<u8>,
)
    ensures
        ({
            let m = outbound_view(attempt_id, purpose, recipient, predecessor, payload);
            m == outbound_view(attempt_id, purpose, m.recipient, predecessor, m.payload)
        }),
{
}

/// Every saved transition is a compare-and-advance: the saved record is the
/// new record one version up, under the same attempt identity; at the last
/// version nothing is saved.
pub proof fn law_save_advances_one_version<V>(next: AttemptView, output: V)
    ensures
        advance_or_fail(next, output) matches Ok(s) ==> s.save == Some(advanced(next)) && !s.create
            && advanced(next).record_version == next.record_version + 1 && advanced(next).attempt_id
            == next.attempt_id,
        advance_or_fail(next, output) is Err <==> next.record_version == u64::MAX,
{
}

/// Accepting the same incoming message twice changes nothing the second
/// time.
pub proof fn law_accept_incoming_idempotent(a: AttemptView, incoming: MessageView, purposes: Seq<OutboxPurpose>)
    ensures
        accept_incoming_view(accept_incoming_view(a, incoming, purposes), incoming, purposes)
            == accept_incoming_view(a, incoming, purposes),
{
    let once = accept_incoming_view(a, incoming, purposes);
    let twice = accept_incoming_view(once, incoming, purposes);
    if !inbox_has_id(a.inbox_dedup, incoming.message_id) {
        let last = once.inbox_dedup.len() - 1;
        assert(once.inbox_dedup[last].message_id == incoming.message_id);
        assert(inbox_has_id(once.inbox_dedup, incoming.message_id));
    }
    assert(twice.outboxes =~= once.outboxes);
    assert(twice.inbox_dedup =~= once.inbox_dedup);
}

/// Once the sponsor has committed an admission, a cancellation can no
/// longer win: whatever the joiner's cancel request, the sponsor either
/// refuses it as out of order or answers with its saved `Commit` or
/// `Complete`, never with a refusal.
pub proof fn law_commit_beats_later_cancel(
    attempt_id: Seq<u8>,
    a: AttemptView,
    current_history: Option<Seq<u8>>,
    prepared: MessageView,
    proof: Seq<u8>,
    recipient: Seq<u8>,
    payload: Seq<u8>,
    cancel: MessageView,
    cancel_recipient: Seq<u8>,
    cancel_detail: Seq<u8>,
)
    requires
        sponsor_commit_model(attempt_id, Some(a), current_history, prepared, proof, recipient, payload) matches Ok(
            s,
        ) && s.save matches Some(saved) && saved.role == AdmissionRole::Sponsor(SponsorStage::Committed),
    ensures
        ({
            let saved = sponsor_commit_model(attempt_id, Some(a), current_history, prepared, proof, recipient, payload)->Ok_0.save->Some_0;
            decide_cancel_model(attempt_id, None, Some(saved), cancel, cancel_recipient, cancel_detail) matches Ok(d)
                ==> (d.output.purpose == OutboxPurpose::Commit || d.output.purpose == OutboxPurpose::Complete)
        }),
{
    let saved = sponsor_commit_model(attempt_id, Some(a), current_history, prepared, proof, recipient, payload)->Ok_0.save->Some_0;
    let accepted = crate::sponsor_withdraw::with_cancel(
        accept_incoming_view(saved, cancel, Seq::empty()),
        cancel.payload,
        crate::bytes::lit_too_late_committed(),
    );
    lemma_first_where_sound(accepted.outboxes, active_commitment(), 0);
}

/// Once a cancellation has won, the sponsor can no longer commit: every
/// commit of the refused admission fails.
pub proof fn law_cancel_beats_later_commit(
    attempt_id: Seq<u8>,
    a: AttemptView,
    cancel: MessageView,
    cancel_recipient: Seq<u8>,
    cancel_detail: Seq<u8>,
    current_history: Option<Seq<u8>>,
    prepared: MessageView,
    proof: Seq<u8>,
    recipient: Seq<u8>,
    payload: Seq<u8>,
)
    requires
        decide_cancel_model(attempt_id, None, Some(a), cancel, cancel_recipient, cancel_detail) matches Ok(d)
            && d.save matches Some(saved) && saved.role == AdmissionRole::Sponsor(SponsorStage::Rejected),
    ensures
        ({
            let saved = decide_cancel_model(attempt_id, None, Some(a), cancel, cancel_recipient, cancel_detail)->Ok_0.save->Some_0;
            sponsor_commit_model(attempt_id, Some(saved), current_history, prepared, proof, recipient, payload) is Err
        }),
{
}

/// Applying a commit is durable: once applied, the same commit with the
/// same receipt and answer replays the same `Applied` without saving again.
pub proof fn law_applied_commit_replays(
    attempt_id: Seq<u8>,
    receipt_attempt_id: Seq<u8>,
    a: AttemptView,
    commit: MessageView,
    receipt: Seq<u8>,
    recipient: Seq<u8>,
    payload: Seq<u8>,
    recorded_history: Option<Seq<u8>>,
)
    requires
        joiner_apply_model(attempt_id, receipt_attempt_id, Some(a), commit, receipt, recipient, payload, recorded_history) matches Ok(
            s,
        ) && s.save is Some && s.output is Applied,
    ensures
        ({
            let s = joiner_apply_model(attempt_id, receipt_attempt_id, Some(a), commit, receipt, recipient, payload, recorded_history)->Ok_0;
            joiner_apply_model(
                attempt_id,
                receipt_attempt_id,
                s.save,
                commit,
                receipt,
                recipient,
                payload,
                recorded_history,
            ) == Ok::<StepView<ApplyView>, ErrorKind>(answer(s.output))
        }),
{
    let s = joiner_apply_model(attempt_id, receipt_attempt_id, Some(a), commit, receipt, recipient, payload, recorded_history)->Ok_0;
    let saved = s.save->Some_0;
    let applied = outbound_view(attempt_id, OutboxPurpose::Applied, recipient, Some(commit.message_id), payload);
    assert(saved.outboxes[saved.outboxes.len() - 1] == applied);
    assert(saved.outboxes.contains(applied));
}

/// A sponsor's offer is durable: once created, the same request with the
/// same candidate, histories and answer replays the same `Candidate` message
/// without creating anything.
pub proof fn law_offer_replays(
    attempt_id: Seq<u8>,
    commitment_attempt_id: Seq<u8>,
    invitation_digest: Seq<u8>,
    request: MessageView,
    c: CandidateView,
    base_history: Seq<u8>,
    verified_history: Seq<u8>,
    recipient: Seq<u8>,
    payload: Seq<u8>,
)
    requires
        accept_and_offer_model(
            attempt_id,
            commitment_attempt_id,
            invitation_digest,
            request,
            c,
            base_history,
            verified_history,
            recipient,
            payload,
            None,
        ) is Ok,
    ensures
        ({
            let created = accept_and_offer_model(
                attempt_id,
                commitment_attempt_id,
                invitation_digest,
                request,
                c,
                base_history,
                verified_history,
                recipient,
                payload,
                None,
            )->Ok_0;
            &&& created.create
            &&& accept_and_offer_model(
                attempt_id,
                commitment_attempt_id,
                invitation_digest,
                request,
                c,
                base_history,
                verified_history,
                recipient,
                payload,
                created.save,
            ) == Ok::<StepView<OfferView>, ErrorKind>(
                answer(
                    OfferView {
                        candidate_message: created.output.candidate_message,
                        invitation_claim: None,
                        base_history: None,
                    },
                ),
            )
        }),
{
    let created = accept_and_offer_model(
        attempt_id,
        commitment_attempt_id,
        invitation_digest,
        request,
        c,
        base_history,
        verified_history,
        recipient,
        payload,
        None,
    )->Ok_0;
    let saved = created.save->Some_0;
    let cm = created.output.candidate_message;
    let consume = saved.outboxes[1];
    assert(saved.outboxes[0] == cm);
    assert(saved.outboxes.contains(cm));
    assert(saved.outboxes.contains(consume));
    assert(saved.inbox_dedup[0] == crate::message::inbox_view_of(request));
    assert(saved.inbox_dedup.contains(crate::message::inbox_view_of(request)));
    assert(crate::candidate::recovery_routes(c.target_relationships) == saved.completion_recovery_routes);
}

/// A refusal the joiner decided itself is final: repeating it with the same
/// reason changes nothing.
pub proof fn law_local_refusal_replays(a: AttemptView, reason: RejectionReason)
    requires
        reject_before_candidate_model(Some(a), reason) matches Ok(s) && s.save is Some,
    ensures
        ({
            let s = reject_before_candidate_model(Some(a), reason)->Ok_0;
            reject_before_candidate_model(s.save, reason) == Ok::<StepView<Option<Seq<u8>>>, ErrorKind>(answer(None))
        }),
{
}

/// A refused join leaves nothing pending: when no write-ahead recovery or
/// cleanup was pending, the refused record can be compacted.
pub proof fn law_refused_join_is_settled(
    a: AttemptView,
    reason: RejectionReason,
    ack: InboxView,
)
    requires
        a.write_ahead_recovery is None,
        !a.cleanup_pending,
    ensures
        settled(joiner_rejected_record(a, reason, ack, a.space_transition is Some)),
{
}

/// Replacing a pending join leaves the old join terminal with exactly one
/// message to deliver: its cleanup request, last in the outbox.
pub proof fn law_replaced_join_keeps_only_cleanup(previous: AttemptView)
    requires
        supersede_model(previous) is Ok,
    ensures
        ({
            let t = supersede_model(previous)->Ok_0;
            &&& t.terminal_result == Some(TerminalResult::SupersededByNewJoin)
            &&& t.outboxes.len() == previous.outboxes.len() + 1
            &&& t.outboxes.last().purpose == OutboxPurpose::CancelRequested
            &&& !t.outboxes.last().superseded
            &&& forall|i: int| 0 <= i < previous.outboxes.len() ==> #[trigger] t.outboxes[i].superseded
        }),
{
}

/// A candidate is retried no sooner than the base delay and before the base
/// delay and a fifth of it have passed, as long as the deadline fits in time.
pub proof fn law_retry_within_window(attempt_count: u32, device_id: Seq<u8>, now_ms: i64)
    requires
        now_ms + MAX_RETRY_DELAY_MS + MAX_RETRY_DELAY_MS / 5 <= i64::MAX,
    ensures
        now_ms + retry_base(attempt_count) <= retry_deadline(attempt_count, device_id, now_ms),
        retry_deadline(attempt_count, device_id, now_ms) < now_ms + retry_base(attempt_count) + retry_base(
            attempt_count,
        ) / 5,
        INITIAL_RETRY_DELAY_MS <= retry_base(attempt_count) <= MAX_RETRY_DELAY_MS,
{
}

/// Retries back off: while the delay is still doubling, every further
/// failure moves the deadline later, whatever the device.
pub proof fn law_retry_backs_off(attempt_count: u32, device_id: Seq<u8>, now_ms: i64)
    requires
        attempt_count < 4,
        now_ms + MAX_RETRY_DELAY_MS + MAX_RETRY_DELAY_MS / 5 <= i64::MAX,
    ensures
        retry_deadline(attempt_count, device_id, now_ms) < retry_deadline(
            (attempt_count + 1) as u32,
            device_id,
            now_ms,
        ),
{
    law_retry_within_window(attempt_count, device_id, now_ms);
    law_retry_within_window((attempt_count + 1) as u32, device_id, now_ms);
}

/// The regular reconcile interval of every device lies in the five minutes
/// plus less than one minute of jitter.
pub proof fn law_reconcile_interval_window(device_id: Seq<u8>)
    ensures
        GOSSIP_RECONCILE_INTERVAL_MS <= reconcile_interval(device_id),
        reconcile_interval(device_id) < GOSSIP_RECONCILE_INTERVAL_MS + GOSSIP_RECONCILE_JITTER_WINDOW_MS,
{
}

/// The next reconcile never waits longer than the regular interval, and,
/// when that interval allows it, never less than the minimum delay.
pub proof fn law_reconcile_delay_bounded(
    fallback_ms: u64,
    schedule: Option<(Seq<CandidateSchedule>, Seq<i64>)>,
    now_ms: i64,
)
    ensures
        reconcile_delay(fallback_ms, schedule, now_ms) <= fallback_ms,
        fallback_ms >= MIN_SCHEDULED_RECONCILE_DELAY_MS ==> reconcile_delay(fallback_ms, schedule, now_ms)
            >= MIN_SCHEDULED_RECONCILE_DELAY_MS,
{
}

/// A paused runtime starts no pass, whatever happens while it waits, until
/// it is resumed; a resume always makes a pass due.
pub proof fn law_pause_holds_until_resume(state: RuntimeState, event: WaitEvent)
    requires
        state.paused,
        wait_event_enabled(state, event),
    ensures
        event != WaitEvent::Command(Command::Resume) ==> !pass_due(wait_model(state, event).0),
        event == WaitEvent::Command(Command::Resume) ==> pass_due(wait_model(state, event).0),
{
}

/// Pausing during a pass abandons it and keeps a pass due: the first pass
/// after resuming runs at once.
pub proof fn law_pause_during_pass_resumes_with_pass(state: RuntimeState)
    ensures
        ({
            let paused = pass_model(state, PassEvent::Command(Command::Pause)).0;
            &&& paused.paused
            &&& pass_due(wait_model(paused, WaitEvent::Command(Command::Resume)).0)
        }),
{
}

/// Shutdown stops the runtime in every state, during a pass and while
/// waiting, and is acknowledged.
pub proof fn law_shutdown_stops(state: RuntimeState)
    ensures
        wait_model(state, WaitEvent::Command(Command::Shutdown)).1 == (WaitAction::Stop { ack: true }),
        pass_model(state, PassEvent::Command(Command::Shutdown)).1 == (crate::runtime::PassAction::Stop { ack: true }),
{
}

/// Starting the same join again finds the saved start: when a start
/// creates a record, the same start against that saved record answers the
/// record unchanged and creates nothing.
pub proof fn law_repeated_start_returns_saved_record(
    attempt_id: Seq<u8>,
    join_id: Seq<u8>,
    sponsor: Seq<u8>,
    request_payload: Seq<u8>,
    pending: Seq<u8>,
    key_package: Seq<u8>,
    target_access: Option<Seq<u8>>,
    material: Option<MaterialView>,
    preserve: bool,
    ordinal: u64,
)
    ensures
        start_join_model(
            attempt_id,
            None,
            join_id,
            sponsor,
            request_payload,
            pending,
            key_package,
            target_access,
            material,
            preserve,
            ordinal,
        ) matches Ok((record, true)) ==> start_join_model(
            attempt_id,
            Some(record),
            join_id,
            sponsor,
            request_payload,
            pending,
            key_package,
            target_access,
            material,
            preserve,
            ordinal,
        ) == Ok::<(AttemptView, bool), ErrorKind>((record, false)),
{
}

/// A completion helper created from a recovery response can always send
/// `Complete`: the new record is awaiting completion and the send finishes it
/// as completed.
pub proof fn law_new_helper_can_complete(
    attempt_id: Seq<u8>,
    challenge: Seq<u8>,
    response: Seq<u8>,
    helper_position: Seq<u8>,
    bundle: HelperBundle,
    lineage_id: Seq<char>,
    event_id: Seq<u8>,
    target_members_digest: Seq<u8>,
    completion: Seq<u8>,
    recipient: Seq<u8>,
    joiner_last_message_id: Seq<u8>,
)
    ensures
        complete_as_helper_model(
            helper_view(
                attempt_id,
                challenge,
                response,
                helper_position,
                bundle,
                lineage_id,
                event_id,
                target_members_digest,
            ),
            completion,
            recipient,
            joiner_last_message_id,
        ) matches Ok(step) && step.save matches Some(saved) && saved.terminal_result == Some(
            TerminalResult::Completed,
        ) && saved.completion == Some(completion),
{
}

/// The commit payload a sponsor builds from its record is accepted by a
/// joiner whose record holds the same prepared proof, resume key,
/// deliveries and relationships.
pub proof fn law_sponsor_commit_payload_is_accepted(
    sponsor: AdmissionAttempt,
    joiner: AdmissionAttempt,
    event_id: Seq<u8>,
    commitment_id: Seq<u8>,
    prepared_proof: Seq<u8>,
    payload: DurableAdmissionCommitPayload,
)
    requires
        commit_payload_built(sponsor, event_id, commitment_id, prepared_proof, payload),
        joiner@.prepared_proof == Some(prepared_proof),
        joiner@.resume_public_key == sponsor@.resume_public_key,
        joiner@.existing_member_security_deliveries == sponsor@.existing_member_security_deliveries,
        opt_facts_view(&joiner.target_relationships) == opt_facts_view(&sponsor.target_relationships),
    ensures
        commit_payload_model(joiner, payload, event_id, commitment_id) == Ok::<(), ErrorKind>(()),
{
    let s = sponsor.target_relationships.unwrap();
    let j = joiner.target_relationships.unwrap();
    assert(s@.map_values(|f: crate::attempt::AdmissionChangeFacts| f@) == j@.map_values(
        |f: crate::attempt::AdmissionChangeFacts| f@,
    ));
    assert(j@.len() == s@.len());
    assert forall|i: int| 0 <= i < j@.len() implies #[trigger] route_of(j@[i]@) == route_of(s@[i]@) by {
        assert(j@.map_values(|f: crate::attempt::AdmissionChangeFacts| f@)[i] == j@[i]@);
        assert(s@.map_values(|f: crate::attempt::AdmissionChangeFacts| f@)[i] == s@[i]@);
    }
}

/// The completion a sponsor makes binds the joiner's admission: a joiner
/// that saved the same receipt and sees the sponsor's credential, active
/// membership and valid signature at the same history position accepts it.
pub proof fn law_sponsor_completion_is_accepted(
    completion: CompletionFacts,
    attempt_id: Seq<u8>,
    event_id: Seq<u8>,
    receipt: Seq<u8>,
    commitment_id: Seq<u8>,
    own_instance: Seq<u8>,
    own_credential: Seq<u8>,
    completed_position: Seq<u8>,
)
    requires
        completion_built(
            completion,
            attempt_id,
            event_id,
            receipt,
            commitment_id,
            own_instance,
            own_credential,
            completed_position,
        ),
    ensures
        completion_binds(
            completion,
            attempt_id,
            event_id,
            receipt,
            commitment_id,
            Some(own_credential),
            completed_position,
            true,
            true,
        ),
{
}

/// A failed candidate attestation never ends a reconcile pass: whatever the
/// attestation failed with, the confirmation error only defers the
/// candidate, and every failure but a rejected proof is tried again at the
/// backoff deadline.
pub proof fn law_attestation_failure_only_defers(
    error: AttestationError,
    attempt_count: u32,
    device_id: Seq<u8>,
    now_ms: i64,
)
    ensures
        candidate_failure_deferrable(attestation_failure_model(error, attempt_count, device_id, now_ms).2),
        (attestation_failure_model(error, attempt_count, device_id, now_ms).1 is None) <==> error
            == AttestationError::Rejected,
{
}

/// The first message satisfying `pred` is at `k` when none before it does.
proof fn lemma_first_where_at(s: Seq<MessageView>, pred: spec_fn(MessageView) -> bool, start: int, k: int)
    requires
        0 <= start <= k < s.len(),
        pred(s[k]),
        forall|j: int| start <= j < k ==> !pred(#[trigger] s[j]),
    ensures
        crate::attempt::first_where_from(s, pred, start) == Some(k),
    decreases k - start,
{
    if start < k {
        lemma_first_where_at(s, pred, start + 1, k);
    }
}

/// After a fresh commit, a cancellation is answered with that very `Commit`:
/// the sponsor saves the cancel as too late, stays committed, and answers
/// with the message its commit sent. The record the commit starts from holds
/// no commitment message yet.
pub proof fn law_cancel_after_commit_gets_the_commit(
    attempt_id: Seq<u8>,
    a: AttemptView,
    current_history: Option<Seq<u8>>,
    prepared: MessageView,
    proof: Seq<u8>,
    recipient: Seq<u8>,
    payload: Seq<u8>,
    cancel: MessageView,
    cancel_recipient: Seq<u8>,
    cancel_detail: Seq<u8>,
)
    requires
        forall|i: int| 0 <= i < a.outboxes.len() ==> !(#[trigger] active_commitment()(a.outboxes[i])),
        sponsor_commit_model(attempt_id, Some(a), current_history, prepared, proof, recipient, payload) matches Ok(
            s,
        ) && s.save matches Some(saved) && saved.role == AdmissionRole::Sponsor(SponsorStage::Committed),
    ensures
        ({
            let s = sponsor_commit_model(attempt_id, Some(a), current_history, prepared, proof, recipient, payload)->Ok_0;
            let saved = s.save->Some_0;
            decide_cancel_model(attempt_id, None, Some(saved), cancel, cancel_recipient, cancel_detail) matches Ok(d)
                ==> (d.output == s.output && (d.save matches Some(after) && after.role == AdmissionRole::Sponsor(
                SponsorStage::Committed,
            ) && after.cancel_outcome == Some(crate::bytes::lit_too_late_committed())))
        }),
{
    let s = sponsor_commit_model(attempt_id, Some(a), current_history, prepared, proof, recipient, payload)->Ok_0;
    let saved = s.save->Some_0;
    if decide_cancel_model(attempt_id, None, Some(saved), cancel, cancel_recipient, cancel_detail) is Ok {
        let accepted = crate::sponsor_withdraw::with_cancel(
            accept_incoming_view(saved, cancel, Seq::empty()),
            cancel.payload,
            crate::bytes::lit_too_late_committed(),
        );
        let o = accepted.outboxes;
        let k = o.len() - 1;
        assert(o.len() == a.outboxes.len() + 1);
        assert forall|j: int| 0 <= j < k implies !(#[trigger] active_commitment()(o[j])) by {
            assert(!active_commitment()(a.outboxes[j]));
        }
        assert(active_commitment()(o[k]));
        lemma_first_where_at(o, active_commitment(), 0, k);
    }
}

/// Preparing a candidate is durable: once the joiner saved the prepared
/// candidate, the same candidate with the same derived values is answered
/// with the same `Prepared` again, without saving anything.
pub proof fn law_repeated_prepare_replays(
    attempt_id: Seq<u8>,
    a: AttemptView,
    c: CandidateView,
    candidate_message: MessageView,
    v: PreparedValuesView,
    recipient: Seq<u8>,
    payload: Seq<u8>,
    current_history: Option<Seq<u8>>,
    t_attempt_id: Seq<u8>,
    t_target_space_id: Seq<char>,
    t_is_initial: bool,
    t_encoded: Option<Seq<u8>>,
)
    requires
        record_prepared_model(
            attempt_id,
            a,
            c,
            candidate_message,
            v,
            recipient,
            payload,
            current_history,
            t_attempt_id,
            t_target_space_id,
            t_is_initial,
            t_encoded,
        ) is Ok,
    ensures
        ({
            let s = record_prepared_model(
                attempt_id,
                a,
                c,
                candidate_message,
                v,
                recipient,
                payload,
                current_history,
                t_attempt_id,
                t_target_space_id,
                t_is_initial,
                t_encoded,
            )->Ok_0;
            &&& s.output == prepared_answer(attempt_id, candidate_message, recipient, payload)
            &&& prepare_gate_model(attempt_id, s.save->Some_0, c, candidate_message, v, recipient, payload)
                == Ok::<StepView<PrepareGateView>, ErrorKind>(answer(PrepareGateView::Replay(s.output)))
        }),
{
    let s = record_prepared_model(
        attempt_id,
        a,
        c,
        candidate_message,
        v,
        recipient,
        payload,
        current_history,
        t_attempt_id,
        t_target_space_id,
        t_is_initial,
        t_encoded,
    )->Ok_0;
    let saved = s.save->Some_0;
    let prepared = prepared_answer(attempt_id, candidate_message, recipient, payload);
    assert(saved.outboxes[saved.outboxes.len() - 1] == prepared);
    assert(saved.outboxes.contains(prepared));
}

/// Cancelling the local join is idempotent: once a cancel was saved, a
/// second cancel of the same join writes nothing.
pub proof fn law_second_cancel_writes_nothing(projection: Option<JoinProjection>, join_id: Seq<u8>, a: AttemptView)
    requires
        cancel_join_model(projection, join_id, Some(a)) matches Ok(s) && s.save is Some,
    ensures
        cancel_join_model(projection, join_id, cancel_join_model(projection, join_id, Some(a))->Ok_0.save)
            == Ok::<StepView<()>, ErrorKind>(answer(())),
{
}

/// A different offer under an attempt already offered is refused: once the
/// sponsor created an offer, the same request with another invitation claim,
/// other histories or another candidate event is inconsistent.
pub proof fn law_different_offer_refused(
    attempt_id: Seq<u8>,
    commitment_attempt_id: Seq<u8>,
    invitation_digest: Seq<u8>,
    request: MessageView,
    c: CandidateView,
    base_history: Seq<u8>,
    verified_history: Seq<u8>,
    recipient: Seq<u8>,
    payload: Seq<u8>,
    other_digest: Seq<u8>,
    other_c: CandidateView,
    other_base: Seq<u8>,
    other_verified: Seq<u8>,
)
    requires
        accept_and_offer_model(
            attempt_id,
            commitment_attempt_id,
            invitation_digest,
            request,
            c,
            base_history,
            verified_history,
            recipient,
            payload,
            None,
        ) is Ok,
        other_digest != invitation_digest || other_base != base_history || other_verified != verified_history
            || other_c.candidate_event != c.candidate_event,
    ensures
        ({
            let saved = accept_and_offer_model(
                attempt_id,
                commitment_attempt_id,
                invitation_digest,
                request,
                c,
                base_history,
                verified_history,
                recipient,
                payload,
                None,
            )->Ok_0.save;
            accept_and_offer_model(
                attempt_id,
                commitment_attempt_id,
                other_digest,
                request,
                other_c,
                other_base,
                other_verified,
                recipient,
                payload,
                saved,
            ) == Err::<StepView<OfferView>, ErrorKind>(ErrorKind::Inconsistent)
        }),
{
}

/// A differing join start is refused: once a start created a record, a
/// start under the same attempt with another join identity, pending state,
/// key package or target access state is a storage error.
pub proof fn law_differing_start_refused(
    attempt_id: Seq<u8>,
    join_id: Seq<u8>,
    sponsor: Seq<u8>,
    request_payload: Seq<u8>,
    pending: Seq<u8>,
    key_package: Seq<u8>,
    target_access: Option<Seq<u8>>,
    material: Option<MaterialView>,
    preserve: bool,
    ordinal: u64,
    other_join_id: Seq<u8>,
    other_pending: Seq<u8>,
    other_key_package: Seq<u8>,
    other_target_access: Option<Seq<u8>>,
)
    requires
        other_join_id != join_id || other_pending != pending || other_key_package != key_package
            || other_target_access != target_access,
    ensures
        start_join_model(
            attempt_id,
            None,
            join_id,
            sponsor,
            request_payload,
            pending,
            key_package,
            target_access,
            material,
            preserve,
            ordinal,
        ) matches Ok((record, true)) ==> start_join_model(
            attempt_id,
            Some(record),
            other_join_id,
            sponsor,
            request_payload,
            other_pending,
            other_key_package,
            other_target_access,
            material,
            preserve,
            ordinal,
        ) == Err::<(AttemptView, bool), ErrorKind>(ErrorKind::AdmissionStorage),
{
}

/// A completed activation survives compaction: while the compacted record
/// keeps the completion and the acknowledgment of `Complete`, a repeated
/// activation answers the same acknowledgment without saving, and a
/// different completion is inconsistent.
pub proof fn law_activation_replays_after_compaction(
    attempt_id: Seq<u8>,
    t: CompactedView,
    loaded: Option<AttemptView>,
    complete: MessageView,
    completion: Seq<u8>,
    other_completion: Seq<u8>,
)
    requires
        t.terminal_result == TerminalResult::Active,
        t.replay_result == completion,
        t.acknowledgment_rebuild.contains(crate::message::inbox_view_of(complete)),
    ensures
        joiner_activate_model(attempt_id, Some(t), loaded, complete, completion) == Ok::<
            StepView<ActivationView>,
            ErrorKind,
        >(answer(ActivationView::Active(crate::message::inbox_view_of(complete)))),
        other_completion != completion ==> joiner_activate_model(
            attempt_id,
            Some(t),
            loaded,
            complete,
            other_completion,
        ) == Err::<StepView<ActivationView>, ErrorKind>(ErrorKind::Inconsistent),
{
}

/// A removal that saves anything leaves the admission refused as removed
/// before activation.
proof fn lemma_removal_saves_refusal(
    attempt_id: Seq<u8>,
    a: AttemptView,
    decoded: Option<CandidateFactsView>,
    removal_parent: Option<Seq<u8>>,
    removal_member: Option<Seq<u8>>,
    extension: ExtensionView,
    recipient: Seq<u8>,
    payload: Seq<u8>,
)
    requires
        remove_pending_model(attempt_id, Some(a), decoded, removal_parent, removal_member, extension, recipient, payload) is Ok,
        remove_pending_model(attempt_id, Some(a), decoded, removal_parent, removal_member, extension, recipient, payload)->Ok_0.save is Some,
    ensures
        ({
            let saved = remove_pending_model(attempt_id, Some(a), decoded, removal_parent, removal_member, extension, recipient, payload)->Ok_0.save->Some_0;
            saved.role == AdmissionRole::Sponsor(SponsorStage::Rejected)
                && saved.rejection_reason == Some(RejectionReason::RemovedBeforeActivation)
        }),
{
    reveal_with_fuel(crate::sponsor::replay_active, 1);
}

/// A sponsor record refused as removed before activation can neither
/// commit nor complete.
proof fn lemma_refused_cannot_commit_or_complete(
    attempt_id: Seq<u8>,
    saved: AttemptView,
    current_history: Option<Seq<u8>>,
    prepared: MessageView,
    proof: Seq<u8>,
    recipient: Seq<u8>,
    payload: Seq<u8>,
    applied: MessageView,
    receipt: Seq<u8>,
    completion: Seq<u8>,
    committed_history: Option<Seq<u8>>,
    recorded_history: Option<Seq<u8>>,
)
    requires
        saved.role == AdmissionRole::Sponsor(SponsorStage::Rejected),
        saved.rejection_reason == Some(RejectionReason::RemovedBeforeActivation),
    ensures
        sponsor_commit_model(attempt_id, Some(saved), current_history, prepared, proof, recipient, payload) is Err,
        sponsor_complete_model(
            attempt_id,
            attempt_id,
            Some(saved),
            applied,
            receipt,
            completion,
            recipient,
            payload,
            committed_history,
            recorded_history,
        ) is Err,
{
}

/// Once a removal refused a pending admission, neither a commit nor a
/// completion of it can follow: removal and commit or activation race to
/// one winner.
pub proof fn law_removal_beats_later_commit(
    attempt_id: Seq<u8>,
    a: AttemptView,
    decoded: Option<CandidateFactsView>,
    removal_parent: Option<Seq<u8>>,
    removal_member: Option<Seq<u8>>,
    extension: ExtensionView,
    recipient: Seq<u8>,
    payload: Seq<u8>,
    current_history: Option<Seq<u8>>,
    prepared: MessageView,
    proof: Seq<u8>,
    applied: MessageView,
    receipt: Seq<u8>,
    completion: Seq<u8>,
    committed_history: Option<Seq<u8>>,
    recorded_history: Option<Seq<u8>>,
)
    requires
        remove_pending_model(attempt_id, Some(a), decoded, removal_parent, removal_member, extension, recipient, payload) is Ok,
        remove_pending_model(attempt_id, Some(a), decoded, removal_parent, removal_member, extension, recipient, payload)->Ok_0.save is Some,
    ensures
        ({
            let saved = remove_pending_model(attempt_id, Some(a), decoded, removal_parent, removal_member, extension, recipient, payload)->Ok_0.save->Some_0;
            &&& sponsor_commit_model(attempt_id, Some(saved), current_history, prepared, proof, recipient, payload) is Err
            &&& sponsor_complete_model(
                attempt_id,
                attempt_id,
                Some(saved),
                applied,
                receipt,
                completion,
                recipient,
                payload,
                committed_history,
                recorded_history,
            ) is Err
        }),
{
    let saved = remove_pending_model(attempt_id, Some(a), decoded, removal_parent, removal_member, extension, recipient, payload)->Ok_0.save->Some_0;
    lemma_removal_saves_refusal(attempt_id, a, decoded, removal_parent, removal_member, extension, recipient, payload);
    lemma_refused_cannot_commit_or_complete(
        attempt_id,
        saved,
        current_history,
        prepared,
        proof,
        recipient,
        payload,
        applied,
        receipt,
        completion,
        committed_history,
        recorded_history,
    );
}

/// Once the admission was applied, a removal no longer refuses it: it asks
/// for an ordinary member removal instead and saves nothing.
pub proof fn law_applied_admission_needs_ordinary_removal(
    attempt_id: Seq<u8>,
    a: AttemptView,
    decoded: Option<CandidateFactsView>,
    removal_parent: Option<Seq<u8>>,
    removal_member: Option<Seq<u8>>,
    extension: ExtensionView,
    recipient: Seq<u8>,
    payload: Seq<u8>,
)
    requires
        a.role == AdmissionRole::Sponsor(SponsorStage::Applied) || a.role == AdmissionRole::Sponsor(
            SponsorStage::Completed,
        ),
    ensures
        remove_pending_model(attempt_id, Some(a), decoded, removal_parent, removal_member, extension, recipient, payload)
            == Ok::<StepView<RemovalView>, ErrorKind>(answer(RemovalView::OrdinaryMemberRemovalRequired)),
{
}

/// Recovery after a session drain finishes what it selects: a finished
/// space transition leaves the join active with the transition's result, so
/// it no longer needs a session transition; any step that does not finish
/// leaves the join selected for the next recovery.
pub proof fn law_finished_transition_leaves_session_drain(
    a: AttemptView,
    current_valid: bool,
    step: TransitionStepView,
)
    requires
        needs_session_transition(a),
    ensures
        transition_step_model(Some(a), current_valid, step) matches Ok(s) ==> (s.save matches Some(saved) && (
        (s.output && saved.terminal_result == Some(TerminalResult::Active) && !needs_session_transition(saved))
            || (!s.output && needs_session_transition(saved)))),
{
}

/// A candidate is prepared only under the security result both sides
/// verified: whenever the preparation check passes, both commitments are
/// valid and the same, the event adds a device under exactly the sponsor's
/// security commitment identifier, continues the commitment's base event in
/// its lineage one level deeper, and extends the base history.
pub proof fn law_preparation_binds_the_verified_security_result(
    sponsor: CommitmentFacts,
    joiner: CommitmentFacts,
    event: EventFacts,
    receive: ReceiveOutcome,
)
    ensures
        preparation_verified(sponsor, joiner, event, receive) ==> {
            &&& sponsor.valid && joiner.valid
            &&& sponsor.encoded@ == joiner.encoded@
            &&& event.add_device is Some
            &&& event.add_device->Some_0.security_commitment_id@ == sponsor.security_commitment_id@
            &&& event.lineage_id@ == sponsor.lineage_id@
            &&& event.parent_event_id@ == sponsor.base_event_id@
            &&& (sponsor.base_depth < u64::MAX ==> event.parent_depth as int == sponsor.base_depth as int + 1)
            &&& (sponsor.base_depth == u64::MAX ==> event.parent_depth == u64::MAX)
            &&& event.admission_bundle_digest is Some
            &&& event.admission_bundle_digest->Some_0@ == sponsor.admission_bundle_digest@
            &&& receive == ReceiveOutcome::Applied
        },
        event.add_device is Some && event.add_device->Some_0.security_commitment_id@
            != sponsor.security_commitment_id@ ==> !preparation_verified(sponsor, joiner, event, receive),
{
}

/// The joiner's current history only constrains a candidate of its own
/// workspace: with no current history, or one of another lineage, any base
/// fits; a history of the same lineage fits exactly when the base is that
/// history or completely extends it; an undecodable history never fits.
pub proof fn law_current_history_constrains_only_its_own_lineage(
    current: Option<Seq<u8>>,
    decoded_lineage: Option<Seq<char>>,
    target_lineage: Seq<char>,
    encoded_base: Seq<u8>,
    base_extends_current: bool,
)
    ensures
        current is None ==> current_history_fits(current, decoded_lineage, target_lineage, encoded_base, base_extends_current),
        current is Some && decoded_lineage is None ==> !current_history_fits(
            current,
            decoded_lineage,
            target_lineage,
            encoded_base,
            base_extends_current,
        ),
        current is Some && decoded_lineage is Some && decoded_lineage->Some_0 != target_lineage
            ==> current_history_fits(current, decoded_lineage, target_lineage, encoded_base, base_extends_current),
        current is Some && decoded_lineage == Some(target_lineage) ==> (current_history_fits(
            current,
            decoded_lineage,
            target_lineage,
            encoded_base,
            base_extends_current,
        ) <==> (current->Some_0 == encoded_base || base_extends_current)),
{
}

/// A delivery acknowledgment settles what it acknowledges: on a live
/// attempt, a successful acknowledgment saves the record one version up with
/// the acknowledged active protocol message marked superseded, every other
/// message unchanged, and the acknowledgment remembered.
pub proof fn law_delivery_ack_supersedes_the_acknowledged_message(a: AttemptView, ack: InboxView)
    requires
        a.terminal_result != Some(TerminalResult::SupersededByNewJoin),
        acknowledge_delivery_model(Some(a), ack) is Ok,
    ensures
        ({
            let s = acknowledge_delivery_model(Some(a), ack)->Ok_0;
            &&& s.save is Some
            &&& s.save->Some_0.record_version == a.record_version + 1
            &&& s.save->Some_0.outboxes.len() == a.outboxes.len()
            &&& s.save->Some_0.inbox_dedup.contains(ack)
            &&& exists|i: int| {
                &&& 0 <= i < a.outboxes.len()
                &&& !a.outboxes[i].superseded
                &&& #[trigger] inbox_view_of(a.outboxes[i]) == ack
                &&& s.save->Some_0.outboxes[i] == MessageView { superseded: true, ..a.outboxes[i] }
                &&& forall|j: int| 0 <= j < a.outboxes.len() && j != i ==> s.save->Some_0.outboxes[j] == a.outboxes[j]
            }
        }),
{
    let pred = crate::joiner::delivery_acked_by(ack);
    lemma_first_where_sound(a.outboxes, pred, 0);
    let i = crate::attempt::first_where(a.outboxes, pred)->Some_0;
    let saved = acknowledge_delivery_model(Some(a), ack)->Ok_0.save->Some_0;
    assert(pred(a.outboxes[i]));
    assert(inbox_view_of(a.outboxes[i]) == ack);
    assert(saved.outboxes[i] == MessageView { superseded: true, ..a.outboxes[i] });
    assert forall|j: int| 0 <= j < a.outboxes.len() && j != i implies saved.outboxes[j] == a.outboxes[j] by {}
    assert(crate::attempt::inbox_with(a.inbox_dedup, ack).contains(ack)) by {
        if !a.inbox_dedup.contains(ack) {
            assert(a.inbox_dedup.push(ack)[a.inbox_dedup.len() as int] == ack);
        }
    }
}

/// Confirming a saved refusal settles it: on a live sponsor record, a
/// confirmation that saves anything marks the acknowledged active `Rejected`
/// message superseded, leaves every other message as it was, remembers the
/// acknowledgment and keeps the refusal.
pub proof fn law_refusal_confirmation_supersedes_the_rejected_message(a: AttemptView, ack: InboxView)
    requires
        confirm_rejected_model(None, Some(a), ack) is Ok,
        confirm_rejected_model(None, Some(a), ack)->Ok_0.save is Some,
    ensures
        ({
            let saved = confirm_rejected_model(None, Some(a), ack)->Ok_0.save->Some_0;
            &&& saved.record_version == a.record_version + 1
            &&& saved.role == AdmissionRole::Sponsor(SponsorStage::Rejected)
            &&& saved.terminal_result == Some(TerminalResult::Rejected)
            &&& saved.inbox_dedup.contains(ack)
            &&& saved.outboxes.len() == a.outboxes.len()
            &&& exists|i: int| {
                &&& 0 <= i < a.outboxes.len()
                &&& a.outboxes[i].purpose == OutboxPurpose::Rejected
                &&& !a.outboxes[i].superseded
                &&& #[trigger] inbox_view_of(a.outboxes[i]) == ack
                &&& saved.outboxes[i] == MessageView { superseded: true, ..a.outboxes[i] }
                &&& forall|j: int| 0 <= j < a.outboxes.len() && j != i ==> saved.outboxes[j] == a.outboxes[j]
            }
        }),
{
    let pred = crate::attempt::acked_by(OutboxPurpose::Rejected, ack);
    lemma_first_where_sound(a.outboxes, pred, 0);
    let i = crate::attempt::first_where(a.outboxes, pred)->Some_0;
    let saved = confirm_rejected_model(None, Some(a), ack)->Ok_0.save->Some_0;
    assert(inbox_view_of(a.outboxes[i]) == ack);
    assert(saved.outboxes[i] == MessageView { superseded: true, ..a.outboxes[i] });
    assert(saved.inbox_dedup[saved.inbox_dedup.len() - 1] == ack);
}

/// The runtime listens for a stream's events only while that stream is open
/// and the runtime runs: commands always, wakes and timers while running,
/// presence changes only while the presence stream is open, announcement
/// changes only while their stream is open.
pub proof fn law_runtime_listens_only_to_open_streams(state: RuntimeState, p: Presence, ok: bool, c: Command)
    ensures
        wait_event_enabled(state, WaitEvent::Command(c)),
        wait_event_enabled(state, WaitEvent::Wake) == !state.paused,
        wait_event_enabled(state, WaitEvent::Timer) == !state.paused,
        wait_event_enabled(state, WaitEvent::Presence(p)) == (!state.paused && state.presence_open),
        !state.presence_open ==> !wait_event_enabled(state, WaitEvent::Presence(p)),
        wait_event_enabled(state, WaitEvent::AnnouncementChange { ok }) == (!state.paused
            && state.announcement_changes_open),
        !state.announcement_changes_open ==> !wait_event_enabled(state, WaitEvent::AnnouncementChange { ok }),
{
}

} // verus!
