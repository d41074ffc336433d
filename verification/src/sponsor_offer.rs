//! The sponsor's first transition: accepting a join request and offering a
//! verified candidate, together with the claim on the invitation.
use vstd::prelude::*;
use crate::attempt::{
    empty_joiner_view, inbox_contains, loaded_view, new_joiner, outboxes_contain, with_inbox,
    with_outboxes, AdmissionAttempt, AdmissionRole, AttemptView, JoinerStage, SponsorStage,
};
use crate::bytes::{bytes_to_vec, invitation_service_bytes, lit_invitation_service, opt_bytes_is, opt_bytes_view};
use crate::candidate::{apply_candidate, candidate_matches, holds_candidate, with_candidate, CandidateView, DurableAdmissionCandidate};
use crate::error::{inconsistent, WorkspaceConvergenceError};
use crate::message::{
    inbox_record, inbox_view_of, outbound_message, outbound_view, require_message, MessageView,
    OutboxMessage, OutboxPurpose,
};
use crate::step::{answer, step_matches, ErrorKind, Step, StepView};

verus! {

/// The sponsor record of a freshly offered candidate, before any message.
pub open spec fn sponsor_candidate_view(
    attempt_id: Seq<u8>,
    invitation_digest: Seq<u8>,
    c: CandidateView,
    base_history: Seq<u8>,
    verified_history: Seq<u8>,
) -> AttemptView {
    let blank = AttemptView {
        join_id: None,
        role: AdmissionRole::Sponsor(SponsorStage::Candidate),
        ..empty_joiner_view(attempt_id, Seq::empty(), JoinerStage::Initiated)
    };
    AttemptView {
        base_membership_history: Some(base_history),
        verified_membership_history: Some(verified_history),
        invitation_claim: Some(invitation_digest),
        ..with_candidate(blank, c)
    }
}

/// The sponsor record of a freshly offered candidate: no join identity, the
/// candidate stage, the candidate, both histories and the invitation claim.
pub fn sponsor_candidate_attempt(
    attempt_id: [u8; 32],
    invitation_digest: [u8; 32],
    candidate: DurableAdmissionCandidate,
    base_history: Vec<u8>,
    verified_history: Vec<u8>,
) -> (attempt: AdmissionAttempt)
    ensures
        attempt@ == sponsor_candidate_view(
            attempt_id@,
            invitation_digest@,
            candidate@,
            base_history@,
            verified_history@,
        ),
{
    let mut attempt = new_joiner(attempt_id, [0u8; 16], JoinerStage::Initiated);
    attempt.join_id = None;
    attempt.role = AdmissionRole::Sponsor(SponsorStage::Candidate);
    apply_candidate(&mut attempt, candidate);
    attempt.base_membership_history = Some(base_history);
    attempt.verified_membership_history = Some(verified_history);
    attempt.invitation_claim = Some(bytes_to_vec(invitation_digest.as_slice()));
    attempt
}

/// What the sponsor answers a join request with. A newly created record comes
/// with the invitation it claims and the base history it was offered on.
#[derive(Debug)]
pub struct SponsorOffer {
    pub candidate_message: OutboxMessage,
    pub invitation_claim: Option<[u8; 32]>,
    pub base_history: Option<Vec<u8>>,
}

/// The mathematical value of a sponsor offer.
pub struct OfferView {
    pub candidate_message: MessageView,
    pub invitation_claim: Option<Seq<u8>>,
    pub base_history: Option<Seq<u8>>,
}

impl View for SponsorOffer {
    type V = OfferView;

    open spec fn view(&self) -> OfferView {
        OfferView {
            candidate_message: self.candidate_message@,
            invitation_claim: crate::bytes::opt_id_view(self.invitation_claim),
            base_history: opt_bytes_view(&self.base_history),
        }
    }
}

/// The new sponsor record: the request remembered, the candidate and the
/// invitation consumption queued in that order.
pub open spec fn offer_record(
    attempt_id: Seq<u8>,
    invitation_digest: Seq<u8>,
    c: CandidateView,
    base_history: Seq<u8>,
    verified_history: Seq<u8>,
    request: MessageView,
    candidate_message: MessageView,
    consume: MessageView,
) -> AttemptView {
    with_outboxes(
        with_inbox(
            sponsor_candidate_view(attempt_id, invitation_digest, c, base_history, verified_history),
            seq![inbox_view_of(request)],
        ),
        seq![candidate_message, consume],
    )
}

/// The outcome of a sponsor accepting `request` and offering a verified
/// candidate. `existing` is the record already saved under the attempt, if
/// any: only the very same offer may be replayed.
pub open spec fn accept_and_offer_model(
    attempt_id: Seq<u8>,
    commitment_attempt_id: Seq<u8>,
    invitation_digest: Seq<u8>,
    request: MessageView,
    c: CandidateView,
    base_history: Seq<u8>,
    verified_history: Seq<u8>,
    recipient: Seq<u8>,
    payload: Seq<u8>,
    existing: Option<AttemptView>,
) -> Result<StepView<OfferView>, ErrorKind> {
    if commitment_attempt_id != attempt_id || request != outbound_view(
        attempt_id,
        OutboxPurpose::JoinRequest,
        request.recipient,
        None,
        request.payload,
    ) {
        Err(ErrorKind::Inconsistent)
    } else {
        let candidate_message = outbound_view(
            attempt_id,
            OutboxPurpose::Candidate,
            recipient,
            Some(request.message_id),
            payload,
        );
        let consume = outbound_view(
            attempt_id,
            OutboxPurpose::InvitationConsume,
            lit_invitation_service(),
            Some(request.message_id),
            invitation_digest,
        );
        match existing {
            Some(e) => if same_offer(
                e,
                invitation_digest,
                request,
                c,
                base_history,
                verified_history,
                candidate_message,
                consume,
            ) {
                Ok(answer(OfferView { candidate_message, invitation_claim: None, base_history: None }))
            } else {
                Err(ErrorKind::Inconsistent)
            },
            None => Ok(
                StepView {
                    save: Some(
                        offer_record(
                            attempt_id,
                            invitation_digest,
                            c,
                            base_history,
                            verified_history,
                            request,
                            candidate_message,
                            consume,
                        ),
                    ),
                    create: true,
                    history: None,
                    output: OfferView {
                        candidate_message,
                        invitation_claim: Some(invitation_digest),
                        base_history: Some(base_history),
                    },
                },
            ),
        }
    }
}

/// Whether `e` already holds exactly this offer.
pub open spec fn same_offer(
    e: AttemptView,
    invitation_digest: Seq<u8>,
    request: MessageView,
    c: CandidateView,
    base_history: Seq<u8>,
    verified_history: Seq<u8>,
    candidate_message: MessageView,
    consume: MessageView,
) -> bool {
    holds_candidate(e, c, true) && e.invitation_claim == Some(invitation_digest)
        && e.inbox_dedup.contains(inbox_view_of(request)) && e.verified_membership_history == Some(
        verified_history,
    ) && e.base_membership_history == Some(base_history) && e.outboxes.contains(candidate_message)
        && e.outboxes.contains(consume)
}

/// Whether `e` already holds exactly this offer.
fn is_same_offer(
    e: &AdmissionAttempt,
    invitation_digest: &[u8; 32],
    request: &OutboxMessage,
    candidate: &DurableAdmissionCandidate,
    base_history: &[u8],
    verified_history: &[u8],
    candidate_message: &OutboxMessage,
    consume: &OutboxMessage,
) -> (same: bool)
    ensures
        same == same_offer(
            e@,
            invitation_digest@,
            request@,
            candidate@,
            base_history@,
            verified_history@,
            candidate_message@,
            consume@,
        ),
{
    let request_record = inbox_record(request);
    candidate_matches(e, candidate, true) && opt_bytes_is(&e.invitation_claim, invitation_digest.as_slice())
        && inbox_contains(&e.inbox_dedup, &request_record) && opt_bytes_is(
        &e.verified_membership_history,
        verified_history,
    ) && opt_bytes_is(&e.base_membership_history, base_history) && outboxes_contain(
        &e.outboxes,
        candidate_message,
    ) && outboxes_contain(&e.outboxes, consume)
}

/// The new sponsor record for this offer.
fn new_offer_record(
    attempt_id: &[u8; 32],
    invitation_digest: &[u8; 32],
    request: &OutboxMessage,
    candidate: DurableAdmissionCandidate,
    base_history: &[u8],
    verified_history: &[u8],
    candidate_message: OutboxMessage,
    consume: OutboxMessage,
) -> (attempt: AdmissionAttempt)
    ensures
        attempt@ == offer_record(
            attempt_id@,
            invitation_digest@,
            candidate@,
            base_history@,
            verified_history@,
            request@,
            candidate_message@,
            consume@,
        ),
{
    let mut attempt = sponsor_candidate_attempt(
        *attempt_id,
        *invitation_digest,
        candidate,
        bytes_to_vec(base_history),
        bytes_to_vec(verified_history),
    );
    let ghost c_view = candidate_message@;
    let ghost k_view = consume@;
    let record = inbox_record(request);
    assert(attempt@.inbox_dedup.len() == 0);
    assert(attempt@.outboxes.len() == 0);
    attempt.inbox_dedup.push(record);
    attempt.outboxes.push(candidate_message);
    attempt.outboxes.push(consume);
    assert(attempt@.inbox_dedup =~= seq![inbox_view_of(request@)]);
    assert(attempt@.outboxes =~= seq![c_view, k_view]);
    attempt
}

/// The sponsor accepts a join request and offers a verified candidate: a new
/// record holds the request, the candidate and the invitation consumption; a
/// replay of the same offer answers the same candidate message, and any other
/// saved record is a conflict.
pub fn sponsor_accept_and_offer(
    attempt_id: &[u8; 32],
    commitment_attempt_id: &[u8; 32],
    invitation_digest: &[u8; 32],
    request: &OutboxMessage,
    candidate: DurableAdmissionCandidate,
    base_history: &[u8],
    verified_history: &[u8],
    recipient: &[u8],
    payload: &[u8],
    existing: Option<AdmissionAttempt>,
) -> (result: Result<Step<SponsorOffer>, WorkspaceConvergenceError>)
    ensures
        step_matches(
            result,
            accept_and_offer_model(
                attempt_id@,
                commitment_attempt_id@,
                invitation_digest@,
                request@,
                candidate@,
                base_history@,
                verified_history@,
                recipient@,
                payload@,
                loaded_view(&existing),
            ),
        ),
{
    if !crate::bytes::id_eq(commitment_attempt_id, attempt_id) {
        return Err(inconsistent("candidate security result is bound to another attempt"));
    }
    require_message(attempt_id, request, OutboxPurpose::JoinRequest, None)?;
    let candidate_message = outbound_message(
        attempt_id,
        OutboxPurpose::Candidate,
        recipient,
        Some(request.message_id),
        payload,
    );
    let service = invitation_service_bytes();
    let consume = outbound_message(
        attempt_id,
        OutboxPurpose::InvitationConsume,
        service.as_slice(),
        Some(request.message_id),
        invitation_digest.as_slice(),
    );
    if let Some(e) = existing {
        if is_same_offer(
            &e,
            invitation_digest,
            request,
            &candidate,
            base_history,
            verified_history,
            &candidate_message,
            &consume,
        ) {
            let output = SponsorOffer { candidate_message, invitation_claim: None, base_history: None };
            return Ok(Step { save: None, create: false, history: None, output });
        }
        return Err(inconsistent("sponsor admission replay does not match"));
    }
    let output_message = crate::attempt::copy_message(&candidate_message);
    let attempt = new_offer_record(
        attempt_id,
        invitation_digest,
        request,
        candidate,
        base_history,
        verified_history,
        candidate_message,
        consume,
    );
    let output = SponsorOffer {
        candidate_message: output_message,
        invitation_claim: Some(*invitation_digest),
        base_history: Some(bytes_to_vec(base_history)),
    };
    Ok(Step { save: Some(attempt), create: true, history: None, output })
}

/// A message with purpose `Candidate`.
pub open spec fn is_candidate_message() -> spec_fn(MessageView) -> bool {
    |m: MessageView| m.purpose == OutboxPurpose::Candidate
}

/// What the sponsor does with a join request before any history work. The
/// request must name the identifier of the join request built from the
/// invitation code (`invitation`) and the stable request binding; an attempt
/// already saved under the request's identity must hold the same invitation
/// claim and key package, and no other resume key, and then answers again
/// with its first `Candidate`; with no saved attempt, a new offer is owed
/// (`None`).
pub open spec fn sponsor_request_model(
    attempt_id: Seq<u8>,
    claimed_request_id: Seq<u8>,
    invitation: Seq<u8>,
    binding: Seq<u8>,
    existing: Option<AttemptView>,
    invitation_digest: Seq<u8>,
    key_package: Seq<u8>,
    resume_public_key: Seq<u8>,
) -> Result<Option<MessageView>, ErrorKind> {
    if outbound_view(attempt_id, OutboxPurpose::JoinRequest, invitation, None, binding).message_id
        != claimed_request_id {
        Err(ErrorKind::InvalidConfirmation)
    } else {
        match existing {
            None => Ok(None),
            Some(e) => if e.invitation_claim != Some(invitation_digest) || e.candidate_key_package != Some(
                key_package,
            ) || (e.resume_public_key matches Some(k) && k != resume_public_key) {
                Err(ErrorKind::AdmissionInProgress)
            } else {
                match crate::attempt::first_where(e.outboxes, is_candidate_message()) {
                    None => Err(ErrorKind::Inconsistent),
                    Some(i) => Ok(Some(e.outboxes[i])),
                }
            },
        }
    }
}

/// The index of the first `Candidate` message.
fn find_candidate(outboxes: &Vec<OutboxMessage>) -> (index: Option<usize>)
    ensures
        index matches Some(i) ==> crate::attempt::first_where(
            outboxes@.map_values(|m: OutboxMessage| m@),
            is_candidate_message(),
        ) == Some(i as int) && i < outboxes@.len(),
        index is None ==> crate::attempt::first_where(
            outboxes@.map_values(|m: OutboxMessage| m@),
            is_candidate_message(),
        ) is None,
{
    let ghost s = outboxes@.map_values(|m: OutboxMessage| m@);
    let mut i: usize = 0;
    while i < outboxes.len()
        invariant
            i <= outboxes@.len(),
            s == outboxes@.map_values(|m: OutboxMessage| m@),
            crate::attempt::first_where_from(s, is_candidate_message(), 0)
                == crate::attempt::first_where_from(s, is_candidate_message(), i as int),
        decreases outboxes@.len() - i,
    {
        if outboxes[i].purpose == OutboxPurpose::Candidate {
            return Some(i);
        }
        i = i + 1;
    }
    None
}

/// The sponsor's gate on a join request: the claimed request identifier,
/// and, for an attempt already saved, the replay of its `Candidate`.
pub fn sponsor_request_gate(
    attempt_id: &[u8; 32],
    claimed_request_id: &[u8; 32],
    invitation: &[u8],
    binding: &[u8],
    existing: Option<AdmissionAttempt>,
    invitation_digest: &[u8; 32],
    key_package: &[u8],
    resume_public_key: &[u8],
) -> (result: Result<Option<OutboxMessage>, WorkspaceConvergenceError>)
    ensures
        match (
            result,
            sponsor_request_model(
                attempt_id@,
                claimed_request_id@,
                invitation@,
                binding@,
                loaded_view(&existing),
                invitation_digest@,
                key_package@,
                resume_public_key@,
            ),
        ) {
            (Ok(Some(m)), Ok(Some(v))) => m@ == v,
            (Ok(None), Ok(None)) => true,
            (Err(e), Err(k)) => crate::step::kind_of(e) == k,
            _ => false,
        },
{
    let request = outbound_message(attempt_id, OutboxPurpose::JoinRequest, invitation, None, binding);
    if !crate::bytes::id_eq(&request.message_id, claimed_request_id) {
        return Err(WorkspaceConvergenceError::InvalidConfirmation);
    }
    let e = match existing {
        None => return Ok(None),
        Some(e) => e,
    };
    let other_key = match &e.resume_public_key {
        Some(k) => !crate::bytes::bytes_eq(k.as_slice(), resume_public_key),
        None => false,
    };
    if !opt_bytes_is(&e.invitation_claim, invitation_digest.as_slice()) || !opt_bytes_is(
        &e.candidate_key_package,
        key_package,
    ) || other_key {
        return Err(WorkspaceConvergenceError::AdmissionInProgress);
    }
    match find_candidate(&e.outboxes) {
        None => Err(inconsistent("persisted sponsor admission has no candidate")),
        Some(i) => Ok(Some(crate::attempt::copy_message(&e.outboxes[i]))),
    }
}

/// The sponsor's gate on its base history before a new offer: every
/// effective member must be active (`active_equals_effective`), otherwise an
/// earlier admission is still in progress; the sponsor must be active with
/// its current credential (`own_active_with_credential`) and its own facts
/// must name this device (`own_facts_match`), otherwise recovery is required.
pub fn sponsor_base_gate(
    active_equals_effective: bool,
    own_active_with_credential: bool,
    own_facts_match: bool,
) -> (result: Result<(), WorkspaceConvergenceError>)
    ensures
        !active_equals_effective ==> result == Err::<(), WorkspaceConvergenceError>(
            WorkspaceConvergenceError::AdmissionInProgress,
        ),
        active_equals_effective && !(own_active_with_credential && own_facts_match) ==> result == Err::<
            (),
            WorkspaceConvergenceError,
        >(WorkspaceConvergenceError::RecoveryRequired),
        active_equals_effective && own_active_with_credential && own_facts_match ==> result is Ok,
{
    if !active_equals_effective {
        return Err(WorkspaceConvergenceError::AdmissionInProgress);
    }
    if !own_active_with_credential || !own_facts_match {
        return Err(WorkspaceConvergenceError::RecoveryRequired);
    }
    Ok(())
}

} // verus!
