//! The joiner's side of a candidate: the checks before its security state is
//! staged, the replay and order gate, and the record that saves the prepared
//! candidate together with the space transition prepared for it.
use vstd::prelude::*;
use crate::attempt::{
    accept_incoming, accept_incoming_view, active_outbox, active_outbox_id, advance_version,
    advanced, first_active, inbox_contains, loaded_view, outboxes_contain, push_inbox,
    rank_at_least, rank_reaches, with_inbox, with_outboxes, AdmissionAttempt, AdmissionRole,
    AttemptView, JoinerStage, TerminalResult,
};
use crate::bytes::{bytes_eq, bytes_to_vec, opt_bytes_is, opt_bytes_view};
use crate::candidate::{
    apply_candidate, candidate_matches, holds_candidate, string_eq, with_candidate, CandidateView,
    DurableAdmissionCandidate,
};
use crate::error::{inconsistent, WorkspaceConvergenceError};
use crate::message::{
    inbox_record, inbox_view_of, outbound_message, outbound_view, require_message, MessageView,
    OutboxMessage, OutboxPurpose,
};
use crate::sponsor::{advance_or_fail, push_outbox};
use crate::step::{advance_with_history, answer, step_matches, ErrorKind, HistoryUpdate, Step, StepView};

verus! {

/// What the joiner may do with an arriving candidate.
#[derive(Debug)]
pub enum CandidateGate {
    /// The join was replaced by a newer one; the cleanup request is the
    /// answer.
    Superseded(OutboxMessage),
    /// The candidate may be staged with the saved pending security state and
    /// key package.
    Proceed { pending_state: Vec<u8>, key_package: Vec<u8> },
}

/// The mathematical value of a candidate gate.
pub enum CandidateGateView {
    Superseded(MessageView),
    Proceed { pending_state: Seq<u8>, key_package: Seq<u8> },
}

impl View for CandidateGate {
    type V = CandidateGateView;

    open spec fn view(&self) -> CandidateGateView {
        match self {
            CandidateGate::Superseded(m) => CandidateGateView::Superseded(m@),
            CandidateGate::Proceed { pending_state, key_package } => CandidateGateView::Proceed {
                pending_state: pending_state@,
                key_package: key_package@,
            },
        }
    }
}

/// Whether some outbox message has identifier `id`.
pub open spec fn has_message_id(s: Seq<MessageView>, id: Seq<u8>) -> bool {
    exists|i: int| 0 <= i < s.len() && #[trigger] s[i].message_id == id
}

/// The outcome of a candidate reaching the joiner, before anything is
/// staged. `commitment_attempt_id` is the attempt the sponsor's security
/// commitment is bound to; `key_package` is the one the candidate names.
pub open spec fn candidate_gate_model(
    attempt_id: Seq<u8>,
    commitment_attempt_id: Seq<u8>,
    loaded: Option<AttemptView>,
    candidate_message: MessageView,
    key_package: Seq<u8>,
) -> Result<StepView<CandidateGateView>, ErrorKind> {
    if commitment_attempt_id != attempt_id {
        Err(ErrorKind::Inconsistent)
    } else {
        match loaded {
            None => Err(ErrorKind::Inconsistent),
            Some(a) => if a.terminal_result == Some(TerminalResult::SupersededByNewJoin) {
                match candidate_message.predecessor {
                    None => Err(ErrorKind::Inconsistent),
                    Some(p) => if candidate_message.purpose != OutboxPurpose::Candidate || !has_message_id(
                        a.outboxes,
                        p,
                    ) {
                        Err(ErrorKind::Inconsistent)
                    } else {
                        match first_active(a.outboxes, OutboxPurpose::CancelRequested) {
                            None => Err(ErrorKind::Inconsistent),
                            Some(i) => {
                                let record = inbox_view_of(candidate_message);
                                let answer_view = CandidateGateView::Superseded(a.outboxes[i]);
                                if a.inbox_dedup.contains(record) {
                                    Ok(answer(answer_view))
                                } else {
                                    advance_or_fail(with_inbox(a, a.inbox_dedup.push(record)), answer_view)
                                }
                            },
                        }
                    },
                }
            } else {
                match (a.joiner_pending_security_state, a.candidate_key_package) {
                    (Some(pending), Some(saved)) => if saved != key_package {
                        Err(ErrorKind::Inconsistent)
                    } else {
                        Ok(answer(CandidateGateView::Proceed { pending_state: pending, key_package: saved }))
                    },
                    _ => Err(ErrorKind::Inconsistent),
                }
            },
        }
    }
}

/// Whether some outbox message has identifier `id`.
fn find_message_id(outboxes: &Vec<OutboxMessage>, id: &[u8; 32]) -> (found: bool)
    ensures
        found == has_message_id(outboxes@.map_values(|m: OutboxMessage| m@), id@),
{
    let ghost s = outboxes@.map_values(|m: OutboxMessage| m@);
    let mut i: usize = 0;
    while i < outboxes.len()
        invariant
            i <= outboxes@.len(),
            s == outboxes@.map_values(|m: OutboxMessage| m@),
            forall|j: int| 0 <= j < i ==> s[j].message_id != id@,
        decreases outboxes@.len() - i,
    {
        if crate::bytes::id_eq(&outboxes[i].message_id, id) {
            assert(s[i as int].message_id == id@);
            return true;
        }
        i = i + 1;
    }
    false
}

/// The joiner's first look at a candidate. A join replaced by a newer one
/// keeps the candidate once as evidence and answers with its cleanup
/// request; otherwise the saved pending security state and key package are
/// handed out for staging, provided the candidate names that key package.
pub fn joiner_candidate_gate(
    attempt_id: &[u8; 32],
    commitment_attempt_id: &[u8; 32],
    loaded: Option<AdmissionAttempt>,
    candidate_message: &OutboxMessage,
    key_package: &[u8],
) -> (result: Result<Step<CandidateGate>, WorkspaceConvergenceError>)
    ensures
        step_matches(
            result,
            candidate_gate_model(attempt_id@, commitment_attempt_id@, loaded_view(&loaded), candidate_message@, key_package@),
        ),
{
    if !crate::bytes::id_eq(commitment_attempt_id, attempt_id) {
        return Err(inconsistent("candidate security result is bound to another attempt"));
    }
    let mut attempt = match loaded {
        Some(a) => a,
        None => return Err(inconsistent("admission attempt was not found")),
    };
    if attempt.terminal_result == Some(TerminalResult::SupersededByNewJoin) {
        let predecessor = match candidate_message.predecessor_message_id {
            Some(p) => p,
            None => return Err(inconsistent("candidate predecessor is missing")),
        };
        if candidate_message.purpose != OutboxPurpose::Candidate || !find_message_id(&attempt.outboxes, &predecessor) {
            return Err(inconsistent("candidate does not match the superseded local join"));
        }
        let cleanup = match active_outbox(&attempt, OutboxPurpose::CancelRequested) {
            Ok(m) => m,
            Err(_) => return Err(inconsistent("superseded join cleanup is missing")),
        };
        let record = inbox_record(candidate_message);
        if inbox_contains(&attempt.inbox_dedup, &record) {
            return Ok(Step { save: None, create: false, history: None, output: CandidateGate::Superseded(cleanup) });
        }
        push_inbox(&mut attempt, &record);
        let saved = advance_version(attempt)?;
        return Ok(Step { save: Some(saved), create: false, history: None, output: CandidateGate::Superseded(cleanup) });
    }
    let pending_state = match &attempt.joiner_pending_security_state {
        Some(p) => bytes_to_vec(p.as_slice()),
        None => return Err(inconsistent("joiner pending security state is missing")),
    };
    let saved_key_package = match &attempt.candidate_key_package {
        Some(k) => bytes_to_vec(k.as_slice()),
        None => return Err(inconsistent("joiner key package is missing")),
    };
    if !bytes_eq(saved_key_package.as_slice(), key_package) {
        return Err(inconsistent("candidate key package does not match the saved join material"));
    }
    Ok(Step {
        save: None,
        create: false,
        history: None,
        output: CandidateGate::Proceed { pending_state, key_package: saved_key_package },
    })
}

/// Whether the joiner's current history admits the candidate's base history:
/// when the joiner holds a history of the same lineage that differs from the
/// base, the base must extend it completely.
pub open spec fn current_history_fits(
    current: Option<Seq<u8>>,
    decoded_lineage: Option<Seq<char>>,
    target_lineage: Seq<char>,
    encoded_base: Seq<u8>,
    base_extends_current: bool,
) -> bool {
    match current {
        None => true,
        Some(c) => match decoded_lineage {
            None => false,
            Some(l) => !(l == target_lineage && c != encoded_base && !base_extends_current),
        },
    }
}

/// Checks that the candidate's base history does not drop part of the history
/// the joiner already holds. `decoded_lineage` is the lineage of the current
/// history when it decodes; `base_extends_current` says whether the base is a
/// complete extension of it.
pub fn check_current_history(
    current: &Option<Vec<u8>>,
    decoded_lineage: &Option<String>,
    target_lineage: &String,
    encoded_base: &[u8],
    base_extends_current: bool,
) -> (result: Result<(), WorkspaceConvergenceError>)
    ensures
        result is Ok <==> current_history_fits(
            opt_bytes_view(current),
            crate::attempt::opt_string_view(decoded_lineage),
            target_lineage@,
            encoded_base@,
            base_extends_current,
        ),
        result is Err ==> result->Err_0 is Inconsistent,
{
    match current {
        None => Ok(()),
        Some(c) => match decoded_lineage {
            None => Err(inconsistent("joiner current history cannot be decoded")),
            Some(l) => if string_eq(l, target_lineage) && !bytes_eq(c.as_slice(), encoded_base)
                && !base_extends_current {
                Err(inconsistent("joiner current history is not a complete prefix of the candidate base history"))
            } else {
                Ok(())
            },
        },
    }
}

/// The prepared proof to save and the payload of `Prepared`: a proof signed
/// for this join is both; otherwise the supplied proof is saved and the
/// supplied payload is sent.
pub fn prepared_payload(signed_proof: Option<Vec<u8>>, prepared_proof: &[u8], payload: &[u8]) -> (chosen: (
    Vec<u8>,
    Vec<u8>,
))
    ensures
        signed_proof matches Some(p) ==> chosen.0@ == p@ && chosen.1@ == p@,
        signed_proof is None ==> chosen.0@ == prepared_proof@ && chosen.1@ == payload@,
{
    match signed_proof {
        Some(p) => {
            let copy = bytes_to_vec(p.as_slice());
            (p, copy)
        },
        None => (bytes_to_vec(prepared_proof), bytes_to_vec(payload)),
    }
}

/// What the joiner does with a staged candidate.
#[derive(Debug)]
pub enum PrepareGate {
    /// The same candidate was already prepared; `Prepared` is answered again.
    Replay(OutboxMessage),
    /// The candidate is in order; its space transition may be prepared, and
    /// this `Prepared` will answer it.
    Proceed(OutboxMessage),
}

/// The mathematical value of a prepare gate.
pub enum PrepareGateView {
    Replay(MessageView),
    Proceed(MessageView),
}

impl View for PrepareGate {
    type V = PrepareGateView;

    open spec fn view(&self) -> PrepareGateView {
        match self {
            PrepareGate::Replay(m) => PrepareGateView::Replay(m@),
            PrepareGate::Proceed(m) => PrepareGateView::Proceed(m@),
        }
    }
}

/// The values the joiner derived from a staged candidate.
#[derive(Debug, Clone)]
pub struct PreparedValues {
    pub target_access_state: Vec<u8>,
    pub prepared_proof: Vec<u8>,
    pub staged_state: Vec<u8>,
    pub encoded_base_history: Vec<u8>,
    pub encoded_history: Vec<u8>,
}

/// The mathematical value of prepared values.
pub struct PreparedValuesView {
    pub target_access_state: Seq<u8>,
    pub prepared_proof: Seq<u8>,
    pub staged_state: Seq<u8>,
    pub encoded_base_history: Seq<u8>,
    pub encoded_history: Seq<u8>,
}

impl View for PreparedValues {
    type V = PreparedValuesView;

    open spec fn view(&self) -> PreparedValuesView {
        PreparedValuesView {
            target_access_state: self.target_access_state@,
            prepared_proof: self.prepared_proof@,
            staged_state: self.staged_state@,
            encoded_base_history: self.encoded_base_history@,
            encoded_history: self.encoded_history@,
        }
    }
}

/// Whether the record already holds this prepared candidate.
pub open spec fn already_prepared(
    a: AttemptView,
    c: CandidateView,
    v: PreparedValuesView,
    prepared: MessageView,
) -> bool {
    &&& rank_at_least(a.role, 3)
    &&& holds_candidate(a, c, false)
    &&& a.target_access_state == Some(v.target_access_state)
    &&& a.prepared_proof == Some(v.prepared_proof)
    &&& a.staged_security_state == Some(v.staged_state)
    &&& a.verified_membership_history == Some(v.encoded_history)
    &&& a.base_membership_history == Some(v.encoded_base_history)
    &&& a.outboxes.contains(prepared)
}

/// The outcome of the replay and order gate for a staged candidate.
pub open spec fn prepare_gate_model(
    attempt_id: Seq<u8>,
    a: AttemptView,
    c: CandidateView,
    candidate_message: MessageView,
    v: PreparedValuesView,
    recipient: Seq<u8>,
    payload: Seq<u8>,
) -> Result<StepView<PrepareGateView>, ErrorKind> {
    let prepared = outbound_view(
        attempt_id,
        OutboxPurpose::Prepared,
        recipient,
        Some(candidate_message.message_id),
        payload,
    );
    if already_prepared(a, c, v, prepared) {
        Ok(answer(PrepareGateView::Replay(prepared)))
    } else if a.role != AdmissionRole::Joiner(JoinerStage::Initiated) {
        Err(ErrorKind::Inconsistent)
    } else {
        match first_active(a.outboxes, OutboxPurpose::JoinRequest) {
            None => Err(ErrorKind::Inconsistent),
            Some(r) => if candidate_message != outbound_view(
                attempt_id,
                OutboxPurpose::Candidate,
                candidate_message.recipient,
                Some(a.outboxes[r].message_id),
                candidate_message.payload,
            ) {
                Err(ErrorKind::Inconsistent)
            } else {
                Ok(answer(PrepareGateView::Proceed(prepared)))
            },
        }
    }
}

/// The replay and order gate for a staged candidate: the same prepared
/// candidate answers `Prepared` again; otherwise the join must still be
/// initiated and the candidate must answer its active join request.
pub fn joiner_prepare_gate(
    attempt_id: &[u8; 32],
    attempt: &AdmissionAttempt,
    candidate: &DurableAdmissionCandidate,
    candidate_message: &OutboxMessage,
    values: &PreparedValues,
    recipient: &[u8],
    payload: &[u8],
) -> (result: Result<Step<PrepareGate>, WorkspaceConvergenceError>)
    ensures
        step_matches(
            result,
            prepare_gate_model(attempt_id@, attempt@, candidate@, candidate_message@, values@, recipient@, payload@),
        ),
{
    let prepared = outbound_message(
        attempt_id,
        OutboxPurpose::Prepared,
        recipient,
        Some(candidate_message.message_id),
        payload,
    );
    if rank_reaches(attempt.role, 3) && candidate_matches(attempt, candidate, false) && opt_bytes_is(
        &attempt.target_access_state,
        values.target_access_state.as_slice(),
    ) && opt_bytes_is(&attempt.prepared_proof, values.prepared_proof.as_slice()) && opt_bytes_is(
        &attempt.staged_security_state,
        values.staged_state.as_slice(),
    ) && opt_bytes_is(&attempt.verified_membership_history, values.encoded_history.as_slice())
        && opt_bytes_is(&attempt.base_membership_history, values.encoded_base_history.as_slice())
        && outboxes_contain(&attempt.outboxes, &prepared) {
        return Ok(Step { save: None, create: false, history: None, output: PrepareGate::Replay(prepared) });
    }
    if attempt.role != AdmissionRole::Joiner(JoinerStage::Initiated) {
        return Err(inconsistent("joiner admission message is out of order"));
    }
    let request_id = active_outbox_id(attempt, OutboxPurpose::JoinRequest)?;
    require_message(attempt_id, candidate_message, OutboxPurpose::Candidate, Some(request_id))?;
    Ok(Step { save: None, create: false, history: None, output: PrepareGate::Proceed(prepared) })
}

/// The space transition the transition adapter prepared for a candidate.
#[derive(Debug)]
pub struct PreparedTransition {
    pub attempt_id: [u8; 32],
    pub target_space_id: String,
    /// Whether the transition is in its initial phase.
    pub is_initial: bool,
    /// Its encoding, when it has one.
    pub encoded: Option<Vec<u8>>,
}

/// The joiner record with the prepared candidate saved: the target access
/// state, the candidate, the transition, the staged state, both histories and
/// the proof, the prepared stage, the candidate accepted (superseding the join
/// request) and `Prepared` queued.
pub open spec fn joiner_prepared_record(
    a: AttemptView,
    c: CandidateView,
    candidate_message: MessageView,
    v: PreparedValuesView,
    transition: Seq<u8>,
    prepared: MessageView,
) -> AttemptView {
    let filled = with_candidate(AttemptView { target_access_state: Some(v.target_access_state), ..a }, c);
    let updated = AttemptView {
        space_transition: Some(transition),
        staged_security_state: Some(v.staged_state),
        base_membership_history: Some(v.encoded_base_history),
        verified_membership_history: Some(v.encoded_history),
        prepared_proof: Some(v.prepared_proof),
        role: AdmissionRole::Joiner(JoinerStage::Prepared),
        ..filled
    };
    let accepted = accept_incoming_view(updated, candidate_message, seq![OutboxPurpose::JoinRequest]);
    with_outboxes(accepted, accepted.outboxes.push(prepared))
}

/// The `Prepared` message that answers `candidate_message`.
pub open spec fn prepared_answer(
    attempt_id: Seq<u8>,
    candidate_message: MessageView,
    recipient: Seq<u8>,
    payload: Seq<u8>,
) -> MessageView {
    outbound_view(attempt_id, OutboxPurpose::Prepared, recipient, Some(candidate_message.message_id), payload)
}

/// The outcome of saving a prepared candidate, answered by the `Prepared`
/// message to `recipient` with `payload` that the prepare gate builds. The
/// record and the base history replace `current_history` together.
pub open spec fn record_prepared_model(
    attempt_id: Seq<u8>,
    a: AttemptView,
    c: CandidateView,
    candidate_message: MessageView,
    v: PreparedValuesView,
    recipient: Seq<u8>,
    payload: Seq<u8>,
    current_history: Option<Seq<u8>>,
    t_attempt_id: Seq<u8>,
    t_target_space_id: Seq<char>,
    t_is_initial: bool,
    t_encoded: Option<Seq<u8>>,
) -> Result<StepView<MessageView>, ErrorKind> {
    if t_attempt_id != attempt_id || t_target_space_id != c.lineage_id || !t_is_initial {
        Err(ErrorKind::Inconsistent)
    } else {
        match t_encoded {
            None => Err(ErrorKind::Inconsistent),
            Some(t) => {
                let prepared = prepared_answer(attempt_id, candidate_message, recipient, payload);
                let next = joiner_prepared_record(a, c, candidate_message, v, t, prepared);
                if next.record_version == u64::MAX {
                    Err(ErrorKind::Inconsistent)
                } else {
                    Ok(advance_with_history(advanced(next), current_history, v.encoded_base_history, prepared))
                }
            },
        }
    }
}

/// Fills the record with the prepared candidate.
fn fill_prepared(
    attempt: &mut AdmissionAttempt,
    candidate: DurableAdmissionCandidate,
    candidate_message: &OutboxMessage,
    values: &PreparedValues,
    transition: Vec<u8>,
    prepared: OutboxMessage,
)
    ensures
        final(attempt)@ == joiner_prepared_record(
            old(attempt)@,
            candidate@,
            candidate_message@,
            values@,
            transition@,
            prepared@,
        ),
{
    attempt.target_access_state = Some(bytes_to_vec(values.target_access_state.as_slice()));
    apply_candidate(attempt, candidate);
    attempt.space_transition = Some(transition);
    attempt.staged_security_state = Some(bytes_to_vec(values.staged_state.as_slice()));
    attempt.base_membership_history = Some(bytes_to_vec(values.encoded_base_history.as_slice()));
    attempt.verified_membership_history = Some(bytes_to_vec(values.encoded_history.as_slice()));
    attempt.prepared_proof = Some(bytes_to_vec(values.prepared_proof.as_slice()));
    attempt.role = AdmissionRole::Joiner(JoinerStage::Prepared);
    let purposes = [OutboxPurpose::JoinRequest];
    assert(purposes@ =~= seq![OutboxPurpose::JoinRequest]);
    accept_incoming(attempt, candidate_message, purposes.as_slice());
    push_outbox(attempt, prepared);
}

/// Saves a prepared candidate once its space transition is prepared: the
/// transition must belong to this attempt and the candidate's lineage and be
/// in its initial phase. The record and the base history are saved together.
pub fn joiner_record_prepared(
    attempt_id: &[u8; 32],
    attempt: AdmissionAttempt,
    candidate: DurableAdmissionCandidate,
    candidate_message: &OutboxMessage,
    values: &PreparedValues,
    recipient: &[u8],
    payload: &[u8],
    current_history: &Option<Vec<u8>>,
    transition: PreparedTransition,
) -> (result: Result<Step<OutboxMessage>, WorkspaceConvergenceError>)
    ensures
        step_matches(
            result,
            record_prepared_model(
                attempt_id@,
                attempt@,
                candidate@,
                candidate_message@,
                values@,
                recipient@,
                payload@,
                opt_bytes_view(current_history),
                transition.attempt_id@,
                transition.target_space_id@,
                transition.is_initial,
                opt_bytes_view(&transition.encoded),
            ),
        ),
{
    if !crate::bytes::id_eq(&transition.attempt_id, attempt_id) || !string_eq(
        &transition.target_space_id,
        &candidate.lineage_id,
    ) || !transition.is_initial {
        return Err(inconsistent("prepared space transition does not match the admission candidate"));
    }
    let encoded = match transition.encoded {
        Some(t) => t,
        None => return Err(inconsistent("prepared space transition is invalid")),
    };
    let prepared = outbound_message(
        attempt_id,
        OutboxPurpose::Prepared,
        recipient,
        Some(candidate_message.message_id),
        payload,
    );
    let mut attempt = attempt;
    let output = crate::attempt::copy_message(&prepared);
    fill_prepared(&mut attempt, candidate, candidate_message, values, encoded, prepared);
    let saved = advance_version(attempt)?;
    let expected = match current_history {
        Some(h) => Some(bytes_to_vec(h.as_slice())),
        None => None,
    };
    let swap = HistoryUpdate { expected, history: bytes_to_vec(values.encoded_base_history.as_slice()) };
    Ok(Step { save: Some(saved), create: false, history: Some(swap), output })
}

} // verus!
