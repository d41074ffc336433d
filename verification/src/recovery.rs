//! Restart recovery of admission attempts: where an outbox message is
//! delivered, which transition a delivery result feeds, when a finished
//! attempt may be compacted, and which joins still owe a space transition.
use vstd::prelude::*;
use crate::attempt::{AdmissionAttempt, AdmissionRole, AttemptView, FactsView};
use crate::error::{admission_storage, inconsistent, WorkspaceConvergenceError};
use crate::joiner::InvitationConsumeResult;
use crate::message::{InboxRecord, InboxView, MessageView, OutboxMessage, OutboxPurpose};
use crate::step::{kind_of, ErrorKind};

verus! {

/// Whether a finished attempt has nothing left to do: it is terminal, every
/// outbox message is superseded, no write-ahead recovery or cleanup is
/// pending, and a space transition, if any, has its result.
pub open spec fn settled(a: AttemptView) -> bool {
    &&& a.terminal_result is Some
    &&& forall|i: int| 0 <= i < a.outboxes.len() ==> #[trigger] a.outboxes[i].superseded
    &&& a.write_ahead_recovery is None
    &&& (a.space_transition is None || a.space_transition_result is Some)
    &&& !a.cleanup_pending
}

/// Whether the attempt has nothing left to do.
pub fn is_settled(attempt: &AdmissionAttempt) -> (result: bool)
    ensures
        result == settled(attempt@),
{
    let ghost s = attempt@.outboxes;
    let mut i: usize = 0;
    while i < attempt.outboxes.len()
        invariant
            i <= attempt.outboxes@.len(),
            s == attempt@.outboxes,
            forall|j: int| 0 <= j < i ==> #[trigger] s[j].superseded,
        decreases attempt.outboxes@.len() - i,
    {
        assert(s[i as int] == attempt.outboxes@[i as int]@);
        if !attempt.outboxes[i].superseded {
            assert(!s[i as int].superseded);
            return false;
        }
        i = i + 1;
    }
    attempt.terminal_result.is_some() && attempt.write_ahead_recovery.is_none() && (
    attempt.space_transition.is_none() || attempt.space_transition_result.is_some()) && !attempt.cleanup_pending
}

/// What compaction of an attempt does: nothing when it is already compacted,
/// otherwise it compacts the saved record at the given version.
pub open spec fn compact_model(already_compacted: bool, loaded: Option<AttemptView>) -> Result<Option<u64>, ErrorKind> {
    if already_compacted {
        Ok(None)
    } else {
        match loaded {
            None => Err(ErrorKind::Inconsistent),
            Some(a) => if settled(a) {
                Ok(Some(a.record_version))
            } else {
                Err(ErrorKind::AdmissionInProgress)
            },
        }
    }
}

/// Decides whether an attempt can be compacted: an already compacted attempt
/// stays as it is (`None`); a settled record is compacted at its version; any
/// other record is still in progress.
pub fn compact_if_settled(already_compacted: bool, loaded: &Option<AdmissionAttempt>) -> (result: Result<
    Option<u64>,
    WorkspaceConvergenceError,
>)
    ensures
        match (result, compact_model(already_compacted, crate::attempt::loaded_view(loaded))) {
            (Ok(v), Ok(w)) => v == w,
            (Err(e), Err(k)) => kind_of(e) == k,
            _ => false,
        },
{
    if already_compacted {
        return Ok(None);
    }
    let attempt = match loaded {
        Some(a) => a,
        None => return Err(inconsistent("admission attempt was not found")),
    };
    if !is_settled(attempt) {
        return Err(WorkspaceConvergenceError::AdmissionInProgress);
    }
    Ok(Some(attempt.record_version))
}

/// Whether recovery should compact the reloaded record after its deliveries.
pub fn should_compact_after_recovery(current: &Option<AdmissionAttempt>) -> (result: bool)
    ensures
        result == (current matches Some(a) && settled(a@)),
{
    match current {
        Some(a) => is_settled(a),
        None => false,
    }
}

/// Whether a join saved `Complete` but its space transition has no result
/// yet, so the session must be drained before the transition can finish.
pub open spec fn needs_session_transition(a: AttemptView) -> bool {
    &&& a.role is Joiner
    &&& a.completion is Some
    &&& a.space_transition is Some
    &&& a.space_transition_result is None
}

/// Whether the attempt needs a session transition.
pub fn attempt_needs_session_transition(attempt: &AdmissionAttempt) -> (result: bool)
    ensures
        result == needs_session_transition(attempt@),
{
    let is_joiner = match attempt.role {
        AdmissionRole::Joiner(_) => true,
        _ => false,
    };
    is_joiner && attempt.completion.is_some() && attempt.space_transition.is_some()
        && attempt.space_transition_result.is_none()
}

/// Whether any recoverable attempt needs a session transition.
pub fn requires_session_transition(attempts: &Vec<AdmissionAttempt>) -> (result: bool)
    ensures
        result == exists|i: int| 0 <= i < attempts@.len() && needs_session_transition(#[trigger] attempts@[i]@),
{
    let mut i: usize = 0;
    while i < attempts.len()
        invariant
            i <= attempts@.len(),
            forall|j: int| 0 <= j < i ==> !needs_session_transition(#[trigger] attempts@[j]@),
        decreases attempts@.len() - i,
    {
        if attempt_needs_session_transition(&attempts[i]) {
            return true;
        }
        i = i + 1;
    }
    false
}

/// The positions, in order, of the recoverable attempts whose space
/// transition a recovery after a session drain resumes and then compacts;
/// their number is the number of transitions it finishes.
pub fn recover_space_transition_after_session_drain(attempts: &Vec<AdmissionAttempt>) -> (positions: Vec<usize>)
    ensures
        forall|k: int| 0 <= k < positions@.len() ==> #[trigger] positions@[k] < attempts@.len()
            && needs_session_transition(attempts@[positions@[k] as int]@),
        forall|k: int, l: int| 0 <= k < l < positions@.len() ==> positions@[k] < positions@[l],
        forall|i: int| 0 <= i < attempts@.len() && needs_session_transition(#[trigger] attempts@[i]@)
            ==> positions@.contains(i as usize),
{
    let mut positions: Vec<usize> = Vec::new();
    let mut i: usize = 0;
    while i < attempts.len()
        invariant
            i <= attempts@.len(),
            forall|k: int| 0 <= k < positions@.len() ==> #[trigger] positions@[k] < i
                && needs_session_transition(attempts@[positions@[k] as int]@),
            forall|k: int, l: int| 0 <= k < l < positions@.len() ==> positions@[k] < positions@[l],
            forall|j: int| 0 <= j < i && needs_session_transition(#[trigger] attempts@[j]@)
                ==> positions@.contains(j as usize),
        decreases attempts@.len() - i,
    {
        if attempt_needs_session_transition(&attempts[i]) {
            let ghost before = positions@;
            positions.push(i);
            assert(positions@[positions@.len() - 1] == i);
            assert forall|j: int| 0 <= j < i + 1 && needs_session_transition(#[trigger] attempts@[j]@)
                implies positions@.contains(j as usize) by {
                if j < i {
                    let k = choose|k: int| 0 <= k < before.len() && before[k] == j as usize;
                    assert(positions@[k] == j as usize);
                } else {
                    assert(positions@[positions@.len() - 1] == j as usize);
                }
            }
        }
        i = i + 1;
    }
    positions
}

/// Where a cancel request of a replaced join is delivered.
#[derive(Debug, Clone)]
pub enum DeliveryRoute {
    /// The sponsor's continuation address.
    Continuation(Vec<u8>),
    /// The invitation address the join request went to.
    Invitation(Vec<u8>),
}

/// The mathematical value of a delivery route.
pub enum RouteView {
    Continuation(Seq<u8>),
    Invitation(Seq<u8>),
}

impl View for DeliveryRoute {
    type V = RouteView;

    open spec fn view(&self) -> RouteView {
        match self {
            DeliveryRoute::Continuation(a) => RouteView::Continuation(a@),
            DeliveryRoute::Invitation(a) => RouteView::Invitation(a@),
        }
    }
}

/// The first relationship at or after `start` whose member instance is
/// `author`.
pub open spec fn relationship_of_from(rels: Seq<FactsView>, author: Seq<u8>, start: int) -> Option<int>
    decreases rels.len() - start,
{
    if start < 0 || start >= rels.len() {
        None
    } else if rels[start].member_instance == author {
        Some(start)
    } else {
        relationship_of_from(rels, author, start + 1)
    }
}

/// A found relationship is in range and belongs to `author`; none found means
/// no later relationship belongs to it.
pub proof fn lemma_relationship_of_from(rels: Seq<FactsView>, author: Seq<u8>, start: int)
    requires
        0 <= start,
    ensures
        relationship_of_from(rels, author, start) matches Some(i) ==> start <= i < rels.len()
            && rels[i].member_instance == author,
    decreases rels.len() - start,
{
    if start < rels.len() {
        lemma_relationship_of_from(rels, author, start + 1);
    }
}

/// The route after the candidate's sponsor relationship gave none: the saved
/// continuation address, else the request's recipient.
pub open spec fn fallback_route(a: AttemptView, m: MessageView) -> Result<Option<RouteView>, ErrorKind> {
    match a.sponsor_continuation_address {
        Some(address) => if address.len() > 0 {
            Ok(Some(RouteView::Continuation(address)))
        } else if m.recipient.len() == 0 {
            Err(ErrorKind::Inconsistent)
        } else {
            Ok(Some(RouteView::Invitation(m.recipient)))
        },
        None => if m.recipient.len() == 0 {
            Err(ErrorKind::Inconsistent)
        } else {
            Ok(Some(RouteView::Invitation(m.recipient)))
        },
    }
}

/// The delivery route of an outbox message. Only a cancel request gets one:
/// the transport address of the sponsor that authored the candidate when the
/// record holds the candidate (that sponsor must have exactly one
/// relationship), else the saved continuation address, else the request's
/// own recipient. `author` is the author decoded from the saved candidate
/// event, when it decodes.
pub open spec fn delivery_route_model(
    a: AttemptView,
    m: MessageView,
    author: Option<Seq<u8>>,
) -> Result<Option<RouteView>, ErrorKind> {
    if m.purpose != OutboxPurpose::CancelRequested {
        Ok(None)
    } else {
        match (a.candidate_event, a.target_relationships) {
            (Some(_), Some(rels)) => match author {
                None => Err(ErrorKind::AdmissionStorage),
                Some(au) => match relationship_of_from(rels, au, 0) {
                    None => Err(ErrorKind::Inconsistent),
                    Some(s) => if relationship_of_from(rels, au, s + 1) is Some {
                        Err(ErrorKind::Inconsistent)
                    } else if rels[s].transport_address_blob.len() > 0 {
                        Ok(Some(RouteView::Continuation(rels[s].transport_address_blob)))
                    } else {
                        fallback_route(a, m)
                    },
                },
            },
            _ => fallback_route(a, m),
        }
    }
}

/// The first relationship at or after `start` whose member instance is
/// `author`.
fn find_relationship(rels: &Vec<crate::attempt::AdmissionChangeFacts>, author: &[u8; 32], start: usize) -> (index: Option<usize>)
    requires
        start <= rels@.len(),
    ensures
        index matches Some(i) ==> relationship_of_from(
            rels@.map_values(|f: crate::attempt::AdmissionChangeFacts| f@),
            author@,
            start as int,
        ) == Some(i as int) && i < rels@.len(),
        index is None ==> relationship_of_from(
            rels@.map_values(|f: crate::attempt::AdmissionChangeFacts| f@),
            author@,
            start as int,
        ) is None,
{
    let ghost s = rels@.map_values(|f: crate::attempt::AdmissionChangeFacts| f@);
    let mut i: usize = start;
    while i < rels.len()
        invariant
            start <= i <= rels@.len(),
            s == rels@.map_values(|f: crate::attempt::AdmissionChangeFacts| f@),
            relationship_of_from(s, author@, start as int) == relationship_of_from(s, author@, i as int),
        decreases rels@.len() - i,
    {
        if crate::bytes::id_eq(&rels[i].member_instance, author) {
            return Some(i);
        }
        i = i + 1;
    }
    None
}

/// The route after the candidate's sponsor relationship gave none.
fn fallback(attempt: &AdmissionAttempt, message: &OutboxMessage) -> (result: Result<
    Option<DeliveryRoute>,
    WorkspaceConvergenceError,
>)
    ensures
        match (result, fallback_route(attempt@, message@)) {
            (Ok(Some(r)), Ok(Some(w))) => r@ == w,
            (Ok(None), Ok(None)) => true,
            (Err(e), Err(k)) => kind_of(e) == k,
            _ => false,
        },
{
    if let Some(address) = &attempt.sponsor_continuation_address {
        if address.len() > 0 {
            return Ok(Some(DeliveryRoute::Continuation(crate::bytes::bytes_to_vec(address.as_slice()))));
        }
    }
    if message.recipient.len() == 0 {
        return Err(inconsistent("superseded join cleanup has no delivery route"));
    }
    Ok(Some(DeliveryRoute::Invitation(crate::bytes::bytes_to_vec(message.recipient.as_slice()))))
}

/// The delivery route of an outbox message during recovery; only a cancel
/// request of a replaced join gets one.
pub fn admission_outbox_delivery_route(
    attempt: &AdmissionAttempt,
    message: &OutboxMessage,
    author: &Option<[u8; 32]>,
) -> (result: Result<Option<DeliveryRoute>, WorkspaceConvergenceError>)
    ensures
        match (result, delivery_route_model(attempt@, message@, crate::bytes::opt_id_view(*author))) {
            (Ok(Some(r)), Ok(Some(w))) => r@ == w,
            (Ok(None), Ok(None)) => true,
            (Err(e), Err(k)) => kind_of(e) == k,
            _ => false,
        },
{
    if message.purpose != OutboxPurpose::CancelRequested {
        return Ok(None);
    }
    if attempt.candidate_event.is_some() {
        if let Some(rels) = &attempt.target_relationships {
            let ghost s = rels@.map_values(|f: crate::attempt::AdmissionChangeFacts| f@);
            let au = match author {
                Some(a) => a,
                None => return Err(admission_storage("candidate event cannot be decoded")),
            };
            let first = match find_relationship(rels, au, 0) {
                Some(i) => i,
                None => return Err(inconsistent("superseded join has no sponsor continuation relationship")),
            };
            let count = rels.len();
            if find_relationship(rels, au, first + 1).is_some() {
                return Err(inconsistent("superseded join has duplicate sponsor continuation relationships"));
            }
            assert(s[first as int] == rels@[first as int]@);
            if rels[first].transport_address_blob.len() > 0 {
                return Ok(
                    Some(DeliveryRoute::Continuation(crate::bytes::bytes_to_vec(rels[first].transport_address_blob.as_slice()))),
                );
            }
        }
    }
    fallback(attempt, message)
}

/// The invitation service's final answer to an invitation-consume delivery.
#[derive(Debug, Clone, Copy, PartialEq, Eq, Structural)]
pub enum InvitationDelivery {
    Consumed,
    NotFound,
    Conflict,
}

/// What delivering an outbox message during recovery reported.
#[derive(Debug)]
pub enum DeliveryResult {
    /// Nothing is known yet.
    Deferred,
    /// The invitation service answered an invitation-consume delivery.
    InvitationConsume(InvitationDelivery),
    /// The recipient persisted the message; this is its acknowledgment.
    Persisted(InboxRecord),
    /// The recipient answered with a refusal.
    Rejected(OutboxMessage),
}

/// The mathematical value of a delivery result.
pub enum DeliveryResultView {
    Deferred,
    InvitationConsume(InvitationDelivery),
    Persisted(InboxView),
    Rejected(MessageView),
}

impl View for DeliveryResult {
    type V = DeliveryResultView;

    open spec fn view(&self) -> DeliveryResultView {
        match self {
            DeliveryResult::Deferred => DeliveryResultView::Deferred,
            DeliveryResult::InvitationConsume(r) => DeliveryResultView::InvitationConsume(*r),
            DeliveryResult::Persisted(a) => DeliveryResultView::Persisted(a@),
            DeliveryResult::Rejected(m) => DeliveryResultView::Rejected(m@),
        }
    }
}

/// The transition a delivery result feeds.
#[derive(Debug)]
pub enum FollowUp {
    /// The delivery is not confirmed; nothing to record.
    Unconfirmed,
    /// `record_invitation_consume_result` with this answer.
    RecordInvitation(InvitationConsumeResult),
    /// `acknowledge_delivery` with this acknowledgment.
    AcknowledgeDelivery(InboxRecord),
    /// `sponsor_confirm_rejected` with this acknowledgment.
    ConfirmRejected(InboxRecord),
    /// `sponsor_confirm_active` with this acknowledgment.
    ConfirmActive(InboxRecord),
    /// `acknowledge_persisted_delivery` for this purpose and acknowledgment.
    AcknowledgePersisted(OutboxPurpose, InboxRecord),
    /// `joiner_record_rejected` with this refusal.
    RecordRejected(OutboxMessage),
}

/// The mathematical value of a follow-up.
pub enum FollowUpView {
    Unconfirmed,
    RecordInvitation(InvitationConsumeResult),
    AcknowledgeDelivery(InboxView),
    ConfirmRejected(InboxView),
    ConfirmActive(InboxView),
    AcknowledgePersisted(OutboxPurpose, InboxView),
    RecordRejected(MessageView),
}

impl View for FollowUp {
    type V = FollowUpView;

    open spec fn view(&self) -> FollowUpView {
        match self {
            FollowUp::Unconfirmed => FollowUpView::Unconfirmed,
            FollowUp::RecordInvitation(r) => FollowUpView::RecordInvitation(*r),
            FollowUp::AcknowledgeDelivery(a) => FollowUpView::AcknowledgeDelivery(a@),
            FollowUp::ConfirmRejected(a) => FollowUpView::ConfirmRejected(a@),
            FollowUp::ConfirmActive(a) => FollowUpView::ConfirmActive(a@),
            FollowUp::AcknowledgePersisted(p, a) => FollowUpView::AcknowledgePersisted(*p, a@),
            FollowUp::RecordRejected(m) => FollowUpView::RecordRejected(m@),
        }
    }
}

/// The invitation-consume answer a delivery result carries.
pub open spec fn consume_result(r: InvitationDelivery) -> InvitationConsumeResult {
    match r {
        InvitationDelivery::Consumed => InvitationConsumeResult::Consumed,
        InvitationDelivery::NotFound => InvitationConsumeResult::NotFound,
        InvitationDelivery::Conflict => InvitationConsumeResult::Conflict,
    }
}

/// The transition that a delivery result of a message with `purpose` feeds:
/// an invitation answer only for an invitation-consume message, a persisted
/// acknowledgment by purpose (never for an invitation-consume message), and a
/// refusal only for a cancel request.
pub open spec fn follow_up_model(purpose: OutboxPurpose, result: DeliveryResultView) -> Result<FollowUpView, ErrorKind> {
    match result {
        DeliveryResultView::Deferred => Ok(FollowUpView::Unconfirmed),
        DeliveryResultView::InvitationConsume(r) => if purpose == OutboxPurpose::InvitationConsume {
            Ok(FollowUpView::RecordInvitation(consume_result(r)))
        } else {
            Err(ErrorKind::Inconsistent)
        },
        DeliveryResultView::Persisted(ack) => match purpose {
            OutboxPurpose::JoinRequest | OutboxPurpose::Candidate | OutboxPurpose::Prepared
            | OutboxPurpose::Commit | OutboxPurpose::Applied | OutboxPurpose::CancelRequested => Ok(
                FollowUpView::AcknowledgeDelivery(ack),
            ),
            OutboxPurpose::Rejected => Ok(FollowUpView::ConfirmRejected(ack)),
            OutboxPurpose::Complete => Ok(FollowUpView::ConfirmActive(ack)),
            OutboxPurpose::ExistingMemberSecurityUpdate | OutboxPurpose::HistoryOrReceiptBatch => Ok(
                FollowUpView::AcknowledgePersisted(purpose, ack),
            ),
            OutboxPurpose::InvitationConsume => Err(ErrorKind::Inconsistent),
        },
        DeliveryResultView::Rejected(m) => if purpose == OutboxPurpose::CancelRequested {
            Ok(FollowUpView::RecordRejected(m))
        } else {
            Err(ErrorKind::Inconsistent)
        },
    }
}

/// Routes a delivery result of a message with `purpose` to the transition
/// that records it.
pub fn delivery_follow_up(purpose: OutboxPurpose, result: DeliveryResult) -> (follow_up: Result<
    FollowUp,
    WorkspaceConvergenceError,
>)
    ensures
        match (follow_up, follow_up_model(purpose, result@)) {
            (Ok(f), Ok(w)) => f@ == w,
            (Err(e), Err(k)) => kind_of(e) == k,
            _ => false,
        },
{
    match result {
        DeliveryResult::Deferred => Ok(FollowUp::Unconfirmed),
        DeliveryResult::InvitationConsume(r) => {
            if purpose != OutboxPurpose::InvitationConsume {
                return Err(inconsistent("invitation result does not match admission outbox purpose"));
            }
            let mapped = match r {
                InvitationDelivery::Consumed => InvitationConsumeResult::Consumed,
                InvitationDelivery::NotFound => InvitationConsumeResult::NotFound,
                InvitationDelivery::Conflict => InvitationConsumeResult::Conflict,
            };
            Ok(FollowUp::RecordInvitation(mapped))
        },
        DeliveryResult::Persisted(ack) => match purpose {
            OutboxPurpose::JoinRequest | OutboxPurpose::Candidate | OutboxPurpose::Prepared
            | OutboxPurpose::Commit | OutboxPurpose::Applied | OutboxPurpose::CancelRequested => Ok(
                FollowUp::AcknowledgeDelivery(ack),
            ),
            OutboxPurpose::Rejected => Ok(FollowUp::ConfirmRejected(ack)),
            OutboxPurpose::Complete => Ok(FollowUp::ConfirmActive(ack)),
            OutboxPurpose::ExistingMemberSecurityUpdate | OutboxPurpose::HistoryOrReceiptBatch => Ok(
                FollowUp::AcknowledgePersisted(purpose, ack),
            ),
            OutboxPurpose::InvitationConsume => Err(
                inconsistent("persisted acknowledgment cannot clear this admission outbox"),
            ),
        },
        DeliveryResult::Rejected(m) => {
            if purpose != OutboxPurpose::CancelRequested {
                return Err(inconsistent("rejection does not match admission outbox purpose"));
            }
            Ok(FollowUp::RecordRejected(m))
        },
    }
}

/// Whether `a` is a pending sponsor attempt of the workspace `lineage`.
pub open spec fn inbound_pending(a: AttemptView, lineage: Seq<char>) -> bool {
    a.terminal_result is None && a.role is Sponsor && a.lineage_id == Some(lineage)
}

/// The first attempt at or after `start` that is a pending sponsor attempt of
/// `lineage`.
pub open spec fn inbound_from(s: Seq<AttemptView>, lineage: Seq<char>, start: int) -> Option<int>
    decreases s.len() - start,
{
    if start < 0 || start >= s.len() {
        None
    } else if inbound_pending(s[start], lineage) {
        Some(start)
    } else {
        inbound_from(s, lineage, start + 1)
    }
}

/// The candidate event of the member waiting to join the workspace
/// `lineage`: none when no sponsor attempt is pending, recovery when more
/// than one is.
pub open spec fn pending_inbound_model(s: Seq<AttemptView>, lineage: Seq<char>) -> Result<Option<Seq<u8>>, ErrorKind> {
    match inbound_from(s, lineage, 0) {
        None => Ok(None),
        Some(i) => if inbound_from(s, lineage, i + 1) is Some {
            Err(ErrorKind::RecoveryRequired)
        } else {
            match s[i].candidate_event {
                None => Err(ErrorKind::Inconsistent),
                Some(e) => Ok(Some(e)),
            }
        },
    }
}

/// The first pending sponsor attempt of `lineage` at or after `start`.
fn find_inbound(attempts: &Vec<AdmissionAttempt>, lineage: &String, start: usize) -> (index: Option<usize>)
    requires
        start <= attempts@.len(),
    ensures
        index matches Some(i) ==> inbound_from(attempts@.map_values(|a: AdmissionAttempt| a@), lineage@, start as int)
            == Some(i as int) && i < attempts@.len(),
        index is None ==> inbound_from(attempts@.map_values(|a: AdmissionAttempt| a@), lineage@, start as int) is None,
{
    let ghost s = attempts@.map_values(|a: AdmissionAttempt| a@);
    let mut i: usize = start;
    while i < attempts.len()
        invariant
            start <= i <= attempts@.len(),
            s == attempts@.map_values(|a: AdmissionAttempt| a@),
            inbound_from(s, lineage@, start as int) == inbound_from(s, lineage@, i as int),
        decreases attempts@.len() - i,
    {
        let a = &attempts[i];
        let is_sponsor = match a.role {
            AdmissionRole::Sponsor(_) => true,
            _ => false,
        };
        let same_lineage = match &a.lineage_id {
            Some(l) => crate::candidate::string_eq(l, lineage),
            None => false,
        };
        if a.terminal_result.is_none() && is_sponsor && same_lineage {
            return Some(i);
        }
        i = i + 1;
    }
    None
}

/// The candidate event of the member waiting to join the workspace
/// `lineage`, from the recoverable attempts.
pub fn pending_inbound_candidate(attempts: &Vec<AdmissionAttempt>, lineage: &String) -> (result: Result<
    Option<Vec<u8>>,
    WorkspaceConvergenceError,
>)
    ensures
        match (result, pending_inbound_model(attempts@.map_values(|a: AdmissionAttempt| a@), lineage@)) {
            (Ok(Some(e)), Ok(Some(w))) => e@ == w,
            (Ok(None), Ok(None)) => true,
            (Err(e), Err(k)) => kind_of(e) == k,
            _ => false,
        },
{
    let ghost s = attempts@.map_values(|a: AdmissionAttempt| a@);
    let first = match find_inbound(attempts, lineage, 0) {
        Some(i) => i,
        None => return Ok(None),
    };
    let count = attempts.len();
    if find_inbound(attempts, lineage, first + 1).is_some() {
        return Err(WorkspaceConvergenceError::RecoveryRequired);
    }
    assert(s[first as int] == attempts@[first as int]@);
    match &attempts[first].candidate_event {
        Some(e) => Ok(Some(crate::bytes::bytes_to_vec(e.as_slice()))),
        None => Err(inconsistent("pending inbound candidate event is missing")),
    }
}

/// The positions of the outbox messages still to deliver, in order.
pub fn deliverable_positions(outboxes: &Vec<OutboxMessage>) -> (positions: Vec<usize>)
    ensures
        forall|k: int| 0 <= k < positions@.len() ==> #[trigger] positions@[k] < outboxes@.len()
            && !outboxes@[positions@[k] as int].superseded,
        forall|i: int, j: int| 0 <= i < j < positions@.len() ==> positions@[i] < positions@[j],
        forall|p: int| 0 <= p < outboxes@.len() && !#[trigger] outboxes@[p].superseded ==> positions@.contains(
            p as usize,
        ),
{
    let mut positions: Vec<usize> = Vec::new();
    let mut i: usize = 0;
    while i < outboxes.len()
        invariant
            i <= outboxes@.len(),
            forall|k: int| 0 <= k < positions@.len() ==> #[trigger] positions@[k] < i
                && !outboxes@[positions@[k] as int].superseded,
            forall|a: int, b: int| 0 <= a < b < positions@.len() ==> positions@[a] < positions@[b],
            forall|p: int| 0 <= p < i && !#[trigger] outboxes@[p].superseded ==> positions@.contains(p as usize),
        decreases outboxes@.len() - i,
    {
        if !outboxes[i].superseded {
            let ghost before = positions@;
            positions.push(i);
            proof {
                assert forall|p: int| 0 <= p < i + 1 && !#[trigger] outboxes@[p].superseded implies positions@.contains(
                    p as usize,
                ) by {
                    if p < i {
                        let k = choose|k: int| 0 <= k < before.len() && before[k] == p as usize;
                        assert(positions@[k] == p as usize);
                    } else {
                        assert(positions@[positions@.len() - 1] == p as usize);
                    }
                }
            }
        }
        i = i + 1;
    }
    positions
}

/// What restart recovery did.
#[derive(Debug, Clone, Copy, PartialEq, Eq, Structural, Default)]
pub struct AdmissionRecoveryReport {
    pub deliveries_attempted: u64,
    pub deliveries_confirmed: u64,
    pub attempts_compacted: u64,
}

/// Counts one more, saturating at the largest count.
fn one_more(n: u64) -> (m: u64)
    ensures
        m == crate::discovery::bumped(n),
{
    n.saturating_add(1)
}

/// Tallies one delivery: it was attempted, and confirmed when its result fed
/// a transition (`confirmed`).
pub fn record_delivery(report: &mut AdmissionRecoveryReport, confirmed: bool)
    ensures
        final(report).deliveries_attempted == crate::discovery::bumped(old(report).deliveries_attempted),
        final(report).deliveries_confirmed == if confirmed {
            crate::discovery::bumped(old(report).deliveries_confirmed)
        } else {
            old(report).deliveries_confirmed
        },
        final(report).attempts_compacted == old(report).attempts_compacted,
{
    report.deliveries_attempted = one_more(report.deliveries_attempted);
    if confirmed {
        report.deliveries_confirmed = one_more(report.deliveries_confirmed);
    }
}

/// Tallies an attempt that recovery found settled and compacted.
pub fn record_compacted(report: &mut AdmissionRecoveryReport)
    ensures
        *final(report) == (AdmissionRecoveryReport {
            attempts_compacted: crate::discovery::bumped(old(report).attempts_compacted),
            ..*old(report)
        }),
{
    report.attempts_compacted = one_more(report.attempts_compacted);
}

} // verus!
