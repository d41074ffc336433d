//! The durable admission attempt: the record each side of a join keeps, its
//! role and stage, and the outbox and inbox helpers every transition uses.
use vstd::prelude::*;
use crate::bytes::{bytes_to_vec, opt_bytes_view, opt_id_view};
use crate::error::{inconsistent, WorkspaceConvergenceError};
use crate::message::{inbox_view_of, inbox_record, InboxRecord, InboxView, MessageView, OutboxMessage, OutboxPurpose};
use crate::rejection::RejectionReason;

verus! {

/// The stages of the joining device.
#[derive(Debug, Clone, Copy, PartialEq, Eq, Structural)]
pub enum JoinerStage {
    Initiated,
    Candidate,
    Prepared,
    Applied,
    Completed,
    Rejected,
}

/// The stages of the sponsoring member.
#[derive(Debug, Clone, Copy, PartialEq, Eq, Structural)]
pub enum SponsorStage {
    Accepted,
    Candidate,
    Prepared,
    Committed,
    Applied,
    Completed,
    Rejected,
}

/// The stages of a member that finishes an admission for an absent sponsor.
#[derive(Debug, Clone, Copy, PartialEq, Eq, Structural)]
pub enum HelperStage {
    Applied,
    Completed,
}

/// Which side of the admission this record belongs to, and how far it is.
#[derive(Debug, Clone, Copy, PartialEq, Eq, Structural)]
pub enum AdmissionRole {
    Joiner(JoinerStage),
    Sponsor(SponsorStage),
    CompletionHelper(HelperStage),
}

/// How a finished attempt ended.
#[derive(Debug, Clone, Copy, PartialEq, Eq, Structural)]
pub enum TerminalResult {
    /// The joiner is an active member.
    Active,
    /// The sponsor or helper saw the joiner's completion acknowledged.
    Completed,
    /// The admission was refused.
    Rejected,
    /// A newer local join replaced this one.
    SupersededByNewJoin,
}

/// The facts of one member relationship in the target workspace.
#[derive(Debug, Clone)]
pub struct AdmissionChangeFacts {
    pub member_instance: [u8; 32],
    pub device_id: String,
    pub device_name: String,
    pub identity_fingerprint: String,
    pub transport_public_key: Vec<u8>,
    pub transport_address_blob: Vec<u8>,
    pub identity_signature: Vec<u8>,
}

/// The mathematical value of relationship facts.
pub struct FactsView {
    pub member_instance: Seq<u8>,
    pub device_id: Seq<char>,
    pub device_name: Seq<char>,
    pub identity_fingerprint: Seq<char>,
    pub transport_public_key: Seq<u8>,
    pub transport_address_blob: Seq<u8>,
    pub identity_signature: Seq<u8>,
}

impl View for AdmissionChangeFacts {
    type V = FactsView;

    open spec fn view(&self) -> FactsView {
        FactsView {
            member_instance: self.member_instance@,
            device_id: self.device_id@,
            device_name: self.device_name@,
            identity_fingerprint: self.identity_fingerprint@,
            transport_public_key: self.transport_public_key@,
            transport_address_blob: self.transport_address_blob@,
            identity_signature: self.identity_signature@,
        }
    }
}

/// Security material the sponsor addressed to one existing member.
#[derive(Debug, Clone)]
pub struct SecurityDelivery {
    pub recipient: String,
    pub credential_id: [u8; 32],
    pub payload: Vec<u8>,
}

/// The mathematical value of a security delivery.
pub struct DeliveryView {
    pub recipient: Seq<char>,
    pub credential_id: Seq<u8>,
    pub payload: Seq<u8>,
}

impl View for SecurityDelivery {
    type V = DeliveryView;

    open spec fn view(&self) -> DeliveryView {
        DeliveryView {
            recipient: self.recipient@,
            credential_id: self.credential_id@,
            payload: self.payload@,
        }
    }
}

/// The durable record of one admission attempt.
#[derive(Debug, Clone)]
pub struct AdmissionAttempt {
    pub attempt_id: [u8; 32],
    pub record_version: u64,
    pub role: AdmissionRole,
    pub join_id: Option<[u8; 16]>,
    pub local_join_ordinal: Option<u64>,
    pub terminal_result: Option<TerminalResult>,
    pub rejection_reason: Option<RejectionReason>,
    pub outboxes: Vec<OutboxMessage>,
    pub inbox_dedup: Vec<InboxRecord>,
    pub joiner_pending_security_state: Option<Vec<u8>>,
    pub candidate_key_package: Option<Vec<u8>>,
    pub target_access_state: Option<Vec<u8>>,
    pub joiner_member_instance: Option<[u8; 32]>,
    pub resume_public_key: Option<Vec<u8>>,
    pub resume_private_key: Option<Vec<u8>>,
    pub preserve_unreadable_history: bool,
    pub sponsor_continuation_address: Option<Vec<u8>>,
    pub lineage_id: Option<String>,
    pub base_history_position: Option<Vec<u8>>,
    pub candidate_event: Option<Vec<u8>>,
    pub candidate_event_id: Option<[u8; 32]>,
    pub target_members_digest: Option<[u8; 32]>,
    pub security_commitment: Option<Vec<u8>>,
    pub security_commit: Option<Vec<u8>>,
    pub security_welcome: Option<Vec<u8>>,
    pub target_protection_group_id: Option<String>,
    pub target_key_catalog: Option<Vec<u8>>,
    pub target_relationships: Option<Vec<AdmissionChangeFacts>>,
    pub existing_member_security_deliveries: Option<Vec<SecurityDelivery>>,
    pub staged_security_state: Option<Vec<u8>>,
    pub identity_binding: Option<Vec<u8>>,
    pub completion_recovery_routes: Vec<Vec<u8>>,
    pub base_membership_history: Option<Vec<u8>>,
    pub verified_membership_history: Option<Vec<u8>>,
    pub invitation_claim: Option<Vec<u8>>,
    pub prepared_proof: Option<Vec<u8>>,
    pub space_transition: Option<Vec<u8>>,
    pub space_transition_result: Option<Vec<u8>>,
    pub activation_receipt: Option<Vec<u8>>,
    pub completion: Option<Vec<u8>>,
    pub cancel_request: Option<Vec<u8>>,
    pub cancel_outcome: Option<Vec<u8>>,
    pub write_ahead_recovery: Option<Vec<u8>>,
    pub cleanup_pending: bool,
    pub resume_peers: Vec<Vec<u8>>,
    pub completion_recovery_deliveries: Vec<Vec<u8>>,
}

/// The mathematical value of an admission attempt.
pub struct AttemptView {
    pub attempt_id: Seq<u8>,
    pub record_version: u64,
    pub role: AdmissionRole,
    pub join_id: Option<Seq<u8>>,
    pub local_join_ordinal: Option<u64>,
    pub terminal_result: Option<TerminalResult>,
    pub rejection_reason: Option<RejectionReason>,
    pub outboxes: Seq<MessageView>,
    pub inbox_dedup: Seq<InboxView>,
    pub joiner_pending_security_state: Option<Seq<u8>>,
    pub candidate_key_package: Option<Seq<u8>>,
    pub target_access_state: Option<Seq<u8>>,
    pub joiner_member_instance: Option<Seq<u8>>,
    pub resume_public_key: Option<Seq<u8>>,
    pub resume_private_key: Option<Seq<u8>>,
    pub preserve_unreadable_history: bool,
    pub sponsor_continuation_address: Option<Seq<u8>>,
    pub lineage_id: Option<Seq<char>>,
    pub base_history_position: Option<Seq<u8>>,
    pub candidate_event: Option<Seq<u8>>,
    pub candidate_event_id: Option<Seq<u8>>,
    pub target_members_digest: Option<Seq<u8>>,
    pub security_commitment: Option<Seq<u8>>,
    pub security_commit: Option<Seq<u8>>,
    pub security_welcome: Option<Seq<u8>>,
    pub target_protection_group_id: Option<Seq<char>>,
    pub target_key_catalog: Option<Seq<u8>>,
    pub target_relationships: Option<Seq<FactsView>>,
    pub existing_member_security_deliveries: Option<Seq<DeliveryView>>,
    pub staged_security_state: Option<Seq<u8>>,
    pub identity_binding: Option<Seq<u8>>,
    pub completion_recovery_routes: Seq<Seq<u8>>,
    pub base_membership_history: Option<Seq<u8>>,
    pub verified_membership_history: Option<Seq<u8>>,
    pub invitation_claim: Option<Seq<u8>>,
    pub prepared_proof: Option<Seq<u8>>,
    pub space_transition: Option<Seq<u8>>,
    pub space_transition_result: Option<Seq<u8>>,
    pub activation_receipt: Option<Seq<u8>>,
    pub completion: Option<Seq<u8>>,
    pub cancel_request: Option<Seq<u8>>,
    pub cancel_outcome: Option<Seq<u8>>,
    pub write_ahead_recovery: Option<Seq<u8>>,
    pub cleanup_pending: bool,
    pub resume_peers: Seq<Seq<u8>>,
    pub completion_recovery_deliveries: Seq<Seq<u8>>,
}

impl View for AdmissionAttempt {
    type V = AttemptView;

    open spec fn view(&self) -> AttemptView {
        AttemptView {
            attempt_id: self.attempt_id@,
            record_version: self.record_version,
            role: self.role,
            join_id: opt_join_id_view(self.join_id),
            local_join_ordinal: self.local_join_ordinal,
            terminal_result: self.terminal_result,
            rejection_reason: self.rejection_reason,
            outboxes: self.outboxes@.map_values(|m: OutboxMessage| m@),
            inbox_dedup: self.inbox_dedup@.map_values(|r: InboxRecord| r@),
            joiner_pending_security_state: opt_bytes_view(&self.joiner_pending_security_state),
            candidate_key_package: opt_bytes_view(&self.candidate_key_package),
            target_access_state: opt_bytes_view(&self.target_access_state),
            joiner_member_instance: opt_id_view(self.joiner_member_instance),
            resume_public_key: opt_bytes_view(&self.resume_public_key),
            resume_private_key: opt_bytes_view(&self.resume_private_key),
            preserve_unreadable_history: self.preserve_unreadable_history,
            sponsor_continuation_address: opt_bytes_view(&self.sponsor_continuation_address),
            lineage_id: opt_string_view(&self.lineage_id),
            base_history_position: opt_bytes_view(&self.base_history_position),
            candidate_event: opt_bytes_view(&self.candidate_event),
            candidate_event_id: opt_id_view(self.candidate_event_id),
            target_members_digest: opt_id_view(self.target_members_digest),
            security_commitment: opt_bytes_view(&self.security_commitment),
            security_commit: opt_bytes_view(&self.security_commit),
            security_welcome: opt_bytes_view(&self.security_welcome),
            target_protection_group_id: opt_string_view(&self.target_protection_group_id),
            target_key_catalog: opt_bytes_view(&self.target_key_catalog),
            target_relationships: opt_facts_view(&self.target_relationships),
            existing_member_security_deliveries: opt_deliveries_view(&self.existing_member_security_deliveries),
            staged_security_state: opt_bytes_view(&self.staged_security_state),
            identity_binding: opt_bytes_view(&self.identity_binding),
            completion_recovery_routes: self.completion_recovery_routes@.map_values(|v: Vec<u8>| v@),
            base_membership_history: opt_bytes_view(&self.base_membership_history),
            verified_membership_history: opt_bytes_view(&self.verified_membership_history),
            invitation_claim: opt_bytes_view(&self.invitation_claim),
            prepared_proof: opt_bytes_view(&self.prepared_proof),
            space_transition: opt_bytes_view(&self.space_transition),
            space_transition_result: opt_bytes_view(&self.space_transition_result),
            activation_receipt: opt_bytes_view(&self.activation_receipt),
            completion: opt_bytes_view(&self.completion),
            cancel_request: opt_bytes_view(&self.cancel_request),
            cancel_outcome: opt_bytes_view(&self.cancel_outcome),
            write_ahead_recovery: opt_bytes_view(&self.write_ahead_recovery),
            cleanup_pending: self.cleanup_pending,
            resume_peers: self.resume_peers@.map_values(|v: Vec<u8>| v@),
            completion_recovery_deliveries: self.completion_recovery_deliveries@.map_values(|v: Vec<u8>| v@),
        }
    }
}

/// The view of an optional join identity.
pub open spec fn opt_join_id_view(o: Option<[u8; 16]>) -> Option<Seq<u8>> {
    match o {
        Some(v) => Some(v@),
        None => None,
    }
}

/// The view of an optional string.
pub open spec fn opt_string_view(o: &Option<String>) -> Option<Seq<char>> {
    match o {
        Some(v) => Some(v@),
        None => None,
    }
}

/// The view of optional relationship facts.
pub open spec fn opt_facts_view(o: &Option<Vec<AdmissionChangeFacts>>) -> Option<Seq<FactsView>> {
    match o {
        Some(v) => Some(v@.map_values(|f: AdmissionChangeFacts| f@)),
        None => None,
    }
}

/// The view of optional security deliveries.
pub open spec fn opt_deliveries_view(o: &Option<Vec<SecurityDelivery>>) -> Option<Seq<DeliveryView>> {
    match o {
        Some(v) => Some(v@.map_values(|d: SecurityDelivery| d@)),
        None => None,
    }
}

/// The position of a stage on the admission ladder; a rejected attempt has
/// none.
pub open spec fn stage_rank(role: AdmissionRole) -> Option<u8> {
    match role {
        AdmissionRole::Joiner(stage) => match stage {
            JoinerStage::Initiated => Some(0u8),
            JoinerStage::Candidate => Some(2u8),
            JoinerStage::Prepared => Some(3u8),
            JoinerStage::Applied => Some(5u8),
            JoinerStage::Completed => Some(6u8),
            JoinerStage::Rejected => None,
        },
        AdmissionRole::Sponsor(stage) => match stage {
            SponsorStage::Accepted => Some(1u8),
            SponsorStage::Candidate => Some(2u8),
            SponsorStage::Prepared => Some(3u8),
            SponsorStage::Committed => Some(4u8),
            SponsorStage::Applied => Some(5u8),
            SponsorStage::Completed => Some(6u8),
            SponsorStage::Rejected => None,
        },
        AdmissionRole::CompletionHelper(stage) => match stage {
            HelperStage::Applied => Some(5u8),
            HelperStage::Completed => Some(6u8),
        },
    }
}

/// Whether the stage of `role` is at least `rank` on the ladder.
pub open spec fn rank_at_least(role: AdmissionRole, rank: u8) -> bool {
    stage_rank(role) matches Some(r) && r >= rank
}

/// The position of `role` on the admission ladder.
pub fn role_rank(role: AdmissionRole) -> (rank: Option<u8>)
    ensures
        rank == stage_rank(role),
{
    match role {
        AdmissionRole::Joiner(stage) => match stage {
            JoinerStage::Initiated => Some(0u8),
            JoinerStage::Candidate => Some(2u8),
            JoinerStage::Prepared => Some(3u8),
            JoinerStage::Applied => Some(5u8),
            JoinerStage::Completed => Some(6u8),
            JoinerStage::Rejected => None,
        },
        AdmissionRole::Sponsor(stage) => match stage {
            SponsorStage::Accepted => Some(1u8),
            SponsorStage::Candidate => Some(2u8),
            SponsorStage::Prepared => Some(3u8),
            SponsorStage::Committed => Some(4u8),
            SponsorStage::Applied => Some(5u8),
            SponsorStage::Completed => Some(6u8),
            SponsorStage::Rejected => None,
        },
        AdmissionRole::CompletionHelper(stage) => match stage {
            HelperStage::Applied => Some(5u8),
            HelperStage::Completed => Some(6u8),
        },
    }
}

/// Whether the stage of `role` is at least `rank` on the ladder.
pub fn rank_reaches(role: AdmissionRole, rank: u8) -> (reached: bool)
    ensures
        reached == rank_at_least(role, rank),
{
    match role_rank(role) {
        Some(r) => r >= rank,
        None => false,
    }
}

/// Refuses a joiner message that arrives when the record is not a joiner at
/// `expected`.
pub fn require_joiner_stage(attempt: &AdmissionAttempt, expected: JoinerStage) -> (result: Result<
    (),
    WorkspaceConvergenceError,
>)
    ensures
        result is Ok <==> attempt.role == AdmissionRole::Joiner(expected),
        result is Err ==> result->Err_0 is Inconsistent,
{
    if attempt.role == AdmissionRole::Joiner(expected) {
        Ok(())
    } else {
        Err(inconsistent("joiner admission message is out of order"))
    }
}

/// Refuses a sponsor message that arrives when the record is not a sponsor
/// at `expected`.
pub fn require_sponsor_stage(attempt: &AdmissionAttempt, expected: SponsorStage) -> (result: Result<
    (),
    WorkspaceConvergenceError,
>)
    ensures
        result is Ok <==> attempt.role == AdmissionRole::Sponsor(expected),
        result is Err ==> result->Err_0 is Inconsistent,
{
    if attempt.role == AdmissionRole::Sponsor(expected) {
        Ok(())
    } else {
        Err(inconsistent("sponsor admission message is out of order"))
    }
}

/// The first outbox message with `purpose` that is not superseded, searching
/// from `start`.
pub open spec fn first_active_from(s: Seq<MessageView>, purpose: OutboxPurpose, start: int) -> Option<int>
    decreases s.len() - start,
{
    if start < 0 || start >= s.len() {
        None
    } else if s[start].purpose == purpose && !s[start].superseded {
        Some(start)
    } else {
        first_active_from(s, purpose, start + 1)
    }
}

/// The first outbox message with `purpose` that is not superseded.
pub open spec fn first_active(s: Seq<MessageView>, purpose: OutboxPurpose) -> Option<int> {
    first_active_from(s, purpose, 0)
}

/// A first-active index is in range and really active.
pub proof fn lemma_first_active_from_sound(s: Seq<MessageView>, purpose: OutboxPurpose, start: int)
    requires
        0 <= start,
    ensures
        first_active_from(s, purpose, start) matches Some(i) ==> start <= i < s.len()
            && s[i].purpose == purpose && !s[i].superseded && forall|j: int|
            start <= j < i ==> !(#[trigger] s[j].purpose == purpose && !s[j].superseded),
        first_active_from(s, purpose, start) is None ==> forall|j: int|
            start <= j < s.len() ==> !(#[trigger] s[j].purpose == purpose && !s[j].superseded),
    decreases s.len() - start,
{
    if start >= 0 && start < s.len() {
        lemma_first_active_from_sound(s, purpose, start + 1);
    }
}

/// The index of the first active outbox message with `purpose`.
pub fn active_outbox_index(outboxes: &Vec<OutboxMessage>, purpose: OutboxPurpose) -> (index: Option<usize>)
    ensures
        index matches Some(i) ==> first_active(outboxes@.map_values(|m: OutboxMessage| m@), purpose) == Some(i as int)
            && i < outboxes@.len() && outboxes@[i as int].purpose == purpose && !outboxes@[i as int].superseded,
        index is None ==> first_active(outboxes@.map_values(|m: OutboxMessage| m@), purpose) is None,
{
    let ghost s = outboxes@.map_values(|m: OutboxMessage| m@);
    let mut i: usize = 0;
    while i < outboxes.len()
        invariant
            i <= outboxes@.len(),
            s == outboxes@.map_values(|m: OutboxMessage| m@),
            first_active_from(s, purpose, 0) == first_active_from(s, purpose, i as int),
        decreases outboxes@.len() - i,
    {
        if outboxes[i].purpose == purpose && !outboxes[i].superseded {
            proof {
                lemma_first_active_from_sound(s, purpose, i as int);
            }
            return Some(i);
        }
        i = i + 1;
    }
    None
}

/// The identifier of the first active outbox message with `purpose`, or the
/// error that the protocol is out of order.
pub fn active_outbox_id(attempt: &AdmissionAttempt, purpose: OutboxPurpose) -> (result: Result<[u8; 32], WorkspaceConvergenceError>)
    ensures
        result matches Ok(id) ==> first_active(attempt@.outboxes, purpose) matches Some(i)
            && id@ == attempt@.outboxes[i].message_id,
        result is Err <==> first_active(attempt@.outboxes, purpose) is None,
        result is Err ==> result->Err_0 is Inconsistent,
{
    match active_outbox_index(&attempt.outboxes, purpose) {
        Some(i) => Ok(attempt.outboxes[i].message_id),
        None => Err(inconsistent("required admission outbox is missing")),
    }
}

/// A copy of a message.
pub fn copy_message(message: &OutboxMessage) -> (copy: OutboxMessage)
    ensures
        copy@ == message@,
{
    OutboxMessage {
        purpose: message.purpose,
        recipient: bytes_to_vec(message.recipient.as_slice()),
        message_id: message.message_id,
        predecessor_message_id: message.predecessor_message_id,
        payload: bytes_to_vec(message.payload.as_slice()),
        superseded: message.superseded,
    }
}

/// A copy of the first active outbox message with `purpose`, or the error
/// that the protocol is out of order.
pub fn active_outbox(attempt: &AdmissionAttempt, purpose: OutboxPurpose) -> (result: Result<OutboxMessage, WorkspaceConvergenceError>)
    ensures
        result matches Ok(m) ==> first_active(attempt@.outboxes, purpose) matches Some(i)
            && m@ == attempt@.outboxes[i],
        result is Err <==> first_active(attempt@.outboxes, purpose) is None,
        result is Err ==> result->Err_0 is Inconsistent,
{
    match active_outbox_index(&attempt.outboxes, purpose) {
        Some(i) => Ok(copy_message(&attempt.outboxes[i])),
        None => Err(inconsistent("required admission outbox is missing")),
    }
}

/// The message with its superseded flag set.
pub open spec fn superseded_view(m: MessageView) -> MessageView {
    MessageView { superseded: true, ..m }
}

/// Every outbox message whose purpose is in `purposes` marked superseded.
pub open spec fn supersede_purposes(s: Seq<MessageView>, purposes: Seq<OutboxPurpose>) -> Seq<MessageView> {
    Seq::new(s.len(), |i: int| if purposes.contains(s[i].purpose) { superseded_view(s[i]) } else { s[i] })
}

/// Whether the inbox already holds a record of the message `id`.
pub open spec fn inbox_has_id(inbox: Seq<InboxView>, id: Seq<u8>) -> bool {
    exists|i: int| 0 <= i < inbox.len() && #[trigger] inbox[i].message_id == id
}

/// The attempt after accepting `incoming`: its record is kept once, and the
/// outbox messages it answers are superseded.
pub open spec fn accept_incoming_view(a: AttemptView, incoming: MessageView, purposes: Seq<OutboxPurpose>) -> AttemptView {
    AttemptView {
        inbox_dedup: if inbox_has_id(a.inbox_dedup, incoming.message_id) {
            a.inbox_dedup
        } else {
            a.inbox_dedup.push(inbox_view_of(incoming))
        },
        outboxes: supersede_purposes(a.outboxes, purposes),
        ..a
    }
}

/// The attempt with its outboxes replaced.
pub open spec fn with_outboxes(a: AttemptView, outboxes: Seq<MessageView>) -> AttemptView {
    AttemptView { outboxes, ..a }
}

/// Marks every outbox message whose purpose is listed as superseded.
pub fn supersede_outboxes(attempt: &mut AdmissionAttempt, purposes: &[OutboxPurpose])
    ensures
        final(attempt)@ == with_outboxes(old(attempt)@, supersede_purposes(old(attempt)@.outboxes, purposes@)),
{
    let ghost start = attempt@.outboxes;
    let mut i: usize = 0;
    while i < attempt.outboxes.len()
        invariant
            i <= attempt@.outboxes.len(),
            attempt@.outboxes.len() == start.len(),
            attempt@ == with_outboxes(old(attempt)@, attempt@.outboxes),
            forall|j: int| 0 <= j < i ==> attempt@.outboxes[j] == supersede_purposes(start, purposes@)[j],
            forall|j: int| i <= j < start.len() ==> attempt@.outboxes[j] == start[j],
        decreases attempt@.outboxes.len() - i,
    {
        let mut listed = false;
        let mut k: usize = 0;
        while k < purposes.len()
            invariant
                k <= purposes@.len(),
                i < attempt@.outboxes.len(),
                attempt@.outboxes.len() == attempt.outboxes@.len(),
                listed == exists|x: int| 0 <= x < k && purposes@[x] == attempt.outboxes@[i as int].purpose,
            decreases purposes@.len() - k,
        {
            if purposes[k] == attempt.outboxes[i].purpose {
                listed = true;
            }
            k = k + 1;
        }
        if listed {
            let mut m = copy_message(&attempt.outboxes[i]);
            m.superseded = true;
            attempt.outboxes.set(i, m);
        }
        proof {
            assert(listed == purposes@.contains(start[i as int].purpose));
        }
        i = i + 1;
    }
    assert(attempt@.outboxes =~= supersede_purposes(start, purposes@));
}

/// Whether the inbox already holds a record of the message `id`.
pub fn inbox_contains_id(inbox: &Vec<InboxRecord>, id: &[u8; 32]) -> (found: bool)
    ensures
        found == inbox_has_id(inbox@.map_values(|r: InboxRecord| r@), id@),
{
    let ghost s = inbox@.map_values(|r: InboxRecord| r@);
    let mut i: usize = 0;
    while i < inbox.len()
        invariant
            i <= inbox@.len(),
            s == inbox@.map_values(|r: InboxRecord| r@),
            forall|j: int| 0 <= j < i ==> s[j].message_id != id@,
        decreases inbox@.len() - i,
    {
        if crate::bytes::id_eq(&inbox[i].message_id, id) {
            assert(s[i as int].message_id == id@);
            return true;
        }
        i = i + 1;
    }
    false
}

/// Records `incoming` once and supersedes the outbox messages it answers.
pub fn accept_incoming(attempt: &mut AdmissionAttempt, incoming: &OutboxMessage, purposes: &[OutboxPurpose])
    ensures
        final(attempt)@ == accept_incoming_view(old(attempt)@, incoming@, purposes@),
{
    let record = inbox_record(incoming);
    if !inbox_contains_id(&attempt.inbox_dedup, &record.message_id) {
        attempt.inbox_dedup.push(record);
        assert(attempt@.inbox_dedup =~= old(attempt)@.inbox_dedup.push(inbox_view_of(incoming@)));
    }
    supersede_outboxes(attempt, purposes);
}

/// The attempt with its record version advanced by one.
pub open spec fn advanced(a: AttemptView) -> AttemptView {
    AttemptView { record_version: (a.record_version + 1) as u64, ..a }
}

/// Prepares a record for a compare-and-advance save: the version moves up by
/// exactly one, or the attempt is reported inconsistent when it cannot.
pub fn advance_version(attempt: AdmissionAttempt) -> (result: Result<AdmissionAttempt, WorkspaceConvergenceError>)
    ensures
        result matches Ok(a) ==> attempt@.record_version < u64::MAX && a@ == advanced(attempt@),
        result is Err <==> attempt@.record_version == u64::MAX,
        result is Err ==> result->Err_0 is Inconsistent,
{
    let mut attempt = attempt;
    match attempt.record_version.checked_add(1) {
        Some(v) => {
            attempt.record_version = v;
            Ok(attempt)
        },
        None => Err(inconsistent("admission record version overflow")),
    }
}

/// The record of a fresh joiner at `stage` with nothing else set.
pub open spec fn empty_joiner_view(attempt_id: Seq<u8>, join_id: Seq<u8>, stage: JoinerStage) -> AttemptView {
    AttemptView {
        attempt_id: attempt_id,
        record_version: 0,
        role: AdmissionRole::Joiner(stage),
        join_id: Some(join_id),
        local_join_ordinal: None,
        terminal_result: None,
        rejection_reason: None,
        outboxes: Seq::empty(),
        inbox_dedup: Seq::empty(),
        joiner_pending_security_state: None,
        candidate_key_package: None,
        target_access_state: None,
        joiner_member_instance: None,
        resume_public_key: None,
        resume_private_key: None,
        preserve_unreadable_history: false,
        sponsor_continuation_address: None,
        lineage_id: None,
        base_history_position: None,
        candidate_event: None,
        candidate_event_id: None,
        target_members_digest: None,
        security_commitment: None,
        security_commit: None,
        security_welcome: None,
        target_protection_group_id: None,
        target_key_catalog: None,
        target_relationships: None,
        existing_member_security_deliveries: None,
        staged_security_state: None,
        identity_binding: None,
        completion_recovery_routes: Seq::empty(),
        base_membership_history: None,
        verified_membership_history: None,
        invitation_claim: None,
        prepared_proof: None,
        space_transition: None,
        space_transition_result: None,
        activation_receipt: None,
        completion: None,
        cancel_request: None,
        cancel_outcome: None,
        write_ahead_recovery: None,
        cleanup_pending: false,
        resume_peers: Seq::empty(),
        completion_recovery_deliveries: Seq::empty(),
    }
}

/// A fresh joiner record at `stage` with nothing else set.
pub fn new_joiner(attempt_id: [u8; 32], join_id: [u8; 16], stage: JoinerStage) -> (attempt: AdmissionAttempt)
    ensures
        attempt@ == empty_joiner_view(attempt_id@, join_id@, stage),
{
    let attempt = AdmissionAttempt {
            attempt_id: attempt_id,
            record_version: 0,
            role: AdmissionRole::Joiner(stage),
            join_id: Some(join_id),
            local_join_ordinal: None,
            terminal_result: None,
            rejection_reason: None,
            outboxes: Vec::new(),
            inbox_dedup: Vec::new(),
            joiner_pending_security_state: None,
            candidate_key_package: None,
            target_access_state: None,
            joiner_member_instance: None,
            resume_public_key: None,
            resume_private_key: None,
            preserve_unreadable_history: false,
            sponsor_continuation_address: None,
            lineage_id: None,
            base_history_position: None,
            candidate_event: None,
            candidate_event_id: None,
            target_members_digest: None,
            security_commitment: None,
            security_commit: None,
            security_welcome: None,
            target_protection_group_id: None,
            target_key_catalog: None,
            target_relationships: None,
            existing_member_security_deliveries: None,
            staged_security_state: None,
            identity_binding: None,
            completion_recovery_routes: Vec::new(),
            base_membership_history: None,
            verified_membership_history: None,
            invitation_claim: None,
            prepared_proof: None,
            space_transition: None,
            space_transition_result: None,
            activation_receipt: None,
            completion: None,
            cancel_request: None,
            cancel_outcome: None,
            write_ahead_recovery: None,
            cleanup_pending: false,
            resume_peers: Vec::new(),
            completion_recovery_deliveries: Vec::new(),
    };
    assert(attempt@.outboxes =~= Seq::empty());
    assert(attempt@.inbox_dedup =~= Seq::empty());
    assert(attempt@.completion_recovery_routes =~= Seq::empty());
    assert(attempt@.resume_peers =~= Seq::empty());
    assert(attempt@.completion_recovery_deliveries =~= Seq::empty());
    attempt
}

/// Whether the outboxes hold a message equal to `message`.
pub fn outboxes_contain(outboxes: &Vec<OutboxMessage>, message: &OutboxMessage) -> (found: bool)
    ensures
        found == outboxes@.map_values(|m: OutboxMessage| m@).contains(message@),
{
    let ghost s = outboxes@.map_values(|m: OutboxMessage| m@);
    let mut i: usize = 0;
    while i < outboxes.len()
        invariant
            i <= outboxes@.len(),
            s == outboxes@.map_values(|m: OutboxMessage| m@),
            forall|j: int| 0 <= j < i ==> s[j] != message@,
        decreases outboxes@.len() - i,
    {
        if crate::message::message_eq(&outboxes[i], message) {
            assert(s[i as int] == message@);
            return true;
        }
        i = i + 1;
    }
    false
}

/// The first message at or after `start` that satisfies `pred`.
pub open spec fn first_where_from(s: Seq<MessageView>, pred: spec_fn(MessageView) -> bool, start: int) -> Option<int>
    decreases s.len() - start,
{
    if start < 0 || start >= s.len() {
        None
    } else if pred(s[start]) {
        Some(start)
    } else {
        first_where_from(s, pred, start + 1)
    }
}

/// The first message that satisfies `pred`.
pub open spec fn first_where(s: Seq<MessageView>, pred: spec_fn(MessageView) -> bool) -> Option<int> {
    first_where_from(s, pred, 0)
}

/// A found index is in range and satisfies the predicate.
pub proof fn lemma_first_where_sound(s: Seq<MessageView>, pred: spec_fn(MessageView) -> bool, start: int)
    requires
        0 <= start,
    ensures
        first_where_from(s, pred, start) matches Some(i) ==> start <= i < s.len() && pred(s[i]),
    decreases s.len() - start,
{
    if start < s.len() {
        lemma_first_where_sound(s, pred, start + 1);
    }
}

/// Active and acknowledged by `ack`.
pub open spec fn acked_by(purpose: OutboxPurpose, ack: InboxView) -> spec_fn(MessageView) -> bool {
    |m: MessageView| m.purpose == purpose && !m.superseded && inbox_view_of(m) == ack
}

/// The index of the first active message of `purpose` that `ack`
/// acknowledges.
pub fn find_acked(outboxes: &Vec<OutboxMessage>, purpose: OutboxPurpose, ack: &InboxRecord) -> (index: Option<usize>)
    ensures
        index matches Some(i) ==> first_where(outboxes@.map_values(|m: OutboxMessage| m@), acked_by(purpose, ack@)) == Some(i as int)
            && i < outboxes@.len(),
        index is None ==> first_where(outboxes@.map_values(|m: OutboxMessage| m@), acked_by(purpose, ack@)) is None,
{
    let ghost s = outboxes@.map_values(|m: OutboxMessage| m@);
    let mut i: usize = 0;
    while i < outboxes.len()
        invariant
            i <= outboxes@.len(),
            s == outboxes@.map_values(|m: OutboxMessage| m@),
            first_where_from(s, acked_by(purpose, ack@), 0) == first_where_from(s, acked_by(purpose, ack@), i as int),
        decreases outboxes@.len() - i,
    {
        if outboxes[i].purpose == purpose && !outboxes[i].superseded {
            let record = inbox_record(&outboxes[i]);
            if crate::message::inbox_eq(&record, ack) {
                return Some(i);
            }
        }
        i = i + 1;
    }
    None
}

/// Marks the outbox message at `index` superseded.
pub fn supersede_at(attempt: &mut AdmissionAttempt, index: usize)
    requires
        index < old(attempt)@.outboxes.len(),
    ensures
        final(attempt)@ == with_outboxes(
            old(attempt)@,
            old(attempt)@.outboxes.update(index as int, superseded_view(old(attempt)@.outboxes[index as int])),
        ),
{
    let mut m = copy_message(&attempt.outboxes[index]);
    m.superseded = true;
    attempt.outboxes.set(index, m);
    assert(attempt@.outboxes =~= old(attempt)@.outboxes.update(
        index as int,
        superseded_view(old(attempt)@.outboxes[index as int]),
    ));
}

/// The record with its inbox replaced.
pub open spec fn with_inbox(a: AttemptView, inbox: Seq<InboxView>) -> AttemptView {
    AttemptView { inbox_dedup: inbox, ..a }
}

/// The inbox with `record` added unless an equal record is already there.
pub open spec fn inbox_with(inbox: Seq<InboxView>, record: InboxView) -> Seq<InboxView> {
    if inbox.contains(record) {
        inbox
    } else {
        inbox.push(record)
    }
}

/// Whether the inbox holds a record equal to `record`.
pub fn inbox_contains(inbox: &Vec<InboxRecord>, record: &InboxRecord) -> (found: bool)
    ensures
        found == inbox@.map_values(|r: InboxRecord| r@).contains(record@),
{
    let ghost s = inbox@.map_values(|r: InboxRecord| r@);
    let mut i: usize = 0;
    while i < inbox.len()
        invariant
            i <= inbox@.len(),
            s == inbox@.map_values(|r: InboxRecord| r@),
            forall|j: int| 0 <= j < i ==> s[j] != record@,
        decreases inbox@.len() - i,
    {
        if crate::message::inbox_eq(&inbox[i], record) {
            assert(s[i as int] == record@);
            return true;
        }
        i = i + 1;
    }
    false
}

/// A copy of an inbox record.
pub fn copy_record(record: &InboxRecord) -> (copy: InboxRecord)
    ensures
        copy@ == record@,
{
    InboxRecord {
        message_id: record.message_id,
        payload_digest: record.payload_digest,
        acknowledgment_payload: bytes_to_vec(record.acknowledgment_payload.as_slice()),
    }
}

/// Adds `record` to the inbox unless an equal record is already there.
pub fn remember(attempt: &mut AdmissionAttempt, record: &InboxRecord)
    ensures
        final(attempt)@ == with_inbox(old(attempt)@, inbox_with(old(attempt)@.inbox_dedup, record@)),
{
    if !inbox_contains(&attempt.inbox_dedup, record) {
        attempt.inbox_dedup.push(copy_record(record));
        assert(attempt@.inbox_dedup =~= old(attempt)@.inbox_dedup.push(record@));
    }
}

/// Adds `record` to the inbox.
pub fn push_inbox(attempt: &mut AdmissionAttempt, record: &InboxRecord)
    ensures
        final(attempt)@ == with_inbox(old(attempt)@, old(attempt)@.inbox_dedup.push(record@)),
{
    attempt.inbox_dedup.push(copy_record(record));
    assert(attempt@.inbox_dedup =~= old(attempt)@.inbox_dedup.push(record@));
}

/// What the store keeps of an attempt after compaction.
#[derive(Debug, Clone)]
pub struct CompactedAttempt {
    pub terminal_result: TerminalResult,
    pub rejection_reason: Option<RejectionReason>,
    /// The bytes a replay of the final message answers with.
    pub replay_result: Vec<u8>,
    /// The final message that `replay_result` encodes, when it encodes one.
    pub replay_message: Option<OutboxMessage>,
    /// The acknowledgments a replay may still rebuild.
    pub acknowledgment_rebuild: Vec<InboxRecord>,
    pub identity_binding: Option<Vec<u8>>,
    pub space_transition_result: Option<Vec<u8>>,
}

/// The mathematical value of a compacted attempt.
pub struct CompactedView {
    pub terminal_result: TerminalResult,
    pub rejection_reason: Option<RejectionReason>,
    pub replay_result: Seq<u8>,
    pub replay_message: Option<MessageView>,
    pub acknowledgment_rebuild: Seq<InboxView>,
    pub identity_binding: Option<Seq<u8>>,
    pub space_transition_result: Option<Seq<u8>>,
}

impl View for CompactedAttempt {
    type V = CompactedView;

    open spec fn view(&self) -> CompactedView {
        CompactedView {
            terminal_result: self.terminal_result,
            rejection_reason: self.rejection_reason,
            replay_result: self.replay_result@,
            replay_message: match &self.replay_message {
                Some(m) => Some(m@),
                None => None,
            },
            acknowledgment_rebuild: self.acknowledgment_rebuild@.map_values(|r: InboxRecord| r@),
            identity_binding: opt_bytes_view(&self.identity_binding),
            space_transition_result: opt_bytes_view(&self.space_transition_result),
        }
    }
}

/// The view of an optional compacted attempt.
pub open spec fn compacted_view(c: Option<&CompactedAttempt>) -> Option<CompactedView> {
    match c {
        Some(c) => Some(c@),
        None => None,
    }
}

/// The view of an optional loaded record.
pub open spec fn loaded_view(loaded: &Option<AdmissionAttempt>) -> Option<AttemptView> {
    match loaded {
        Some(a) => Some(a@),
        None => None,
    }
}

} // verus!
