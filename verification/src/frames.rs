//! The checks the workspace owner makes on admission frames from the
//! network before any transition sees them: the frame must carry exactly the
//! durable message it names, and a commit or completion must bind what the
//! joiner saved.
use vstd::prelude::*;
use crate::attempt::{AdmissionAttempt, AdmissionChangeFacts, FactsView, SecurityDelivery};
use crate::bytes::{bytes_eq, id_eq, opt_bytes_is, opt_id_view, sha256, sha256_digest};
use crate::candidate::delivery_list_eq;
use crate::error::{inconsistent, WorkspaceConvergenceError};
use crate::message::{outbound_message, outbound_view, MessageView, OutboxMessage, OutboxPurpose};
use crate::payload::{completion_recovery_routes, DurableAdmissionCommitPayload, FORMAT_V1};
use crate::step::{kind_of, step_matches, ErrorKind, Step};
use crate::attempt::{loaded_view, TerminalResult};
use crate::joiner::{contradiction_model, record_superseded_protocol_contradiction};

verus! {

/// Rebuilds the durable message a frame names and accepts the frame only if
/// it is of the expected kind (`kind_matches`) and its identifier is the
/// rebuilt message's.
pub fn accept_frame(
    kind_matches: bool,
    attempt_id: &[u8; 32],
    purpose: OutboxPurpose,
    recipient: &[u8],
    predecessor: Option<[u8; 32]>,
    payload: &[u8],
    frame_message_id: &[u8; 32],
) -> (result: Result<OutboxMessage, WorkspaceConvergenceError>)
    ensures
        ({
            let m = outbound_view(attempt_id@, purpose, recipient@, opt_id_view(predecessor), payload@);
            &&& (kind_matches && m.message_id == frame_message_id@) <==> result is Ok
            &&& result matches Ok(r) ==> r@ == m
            &&& result is Err ==> result->Err_0 == WorkspaceConvergenceError::InvalidConfirmation
        }),
{
    if !kind_matches {
        return Err(WorkspaceConvergenceError::InvalidConfirmation);
    }
    let message = outbound_message(attempt_id, purpose, recipient, predecessor, payload);
    if !id_eq(&message.message_id, frame_message_id) {
        return Err(WorkspaceConvergenceError::InvalidConfirmation);
    }
    Ok(message)
}

/// Accepts a frame that carries a whole durable message (a cleanup request
/// or a refusal) only if the frame is of the expected kind (`kind_matches`)
/// and the carried message has the expected purpose and the frame's
/// identifier and predecessor.
pub fn check_embedded_message(
    kind_matches: bool,
    message: &OutboxMessage,
    purpose: OutboxPurpose,
    frame_message_id: &[u8; 32],
    frame_predecessor: &Option<[u8; 32]>,
) -> (result: Result<(), WorkspaceConvergenceError>)
    ensures
        result is Ok <==> (kind_matches && message.purpose == purpose && message.message_id@ == frame_message_id@
            && opt_id_view(message.predecessor_message_id) == opt_id_view(*frame_predecessor)),
        result is Err ==> result->Err_0 == WorkspaceConvergenceError::InvalidConfirmation,
{
    if !kind_matches || message.purpose != purpose || !id_eq(&message.message_id, frame_message_id)
        || !crate::bytes::opt_id_eq(&message.predecessor_message_id, frame_predecessor) {
        return Err(WorkspaceConvergenceError::InvalidConfirmation);
    }
    Ok(())
}

/// The error for a frame whose attempt has no saved record: a join that was
/// replaced and compacted needs recovery; otherwise the join is unknown.
pub fn missing_attempt_error(compacted_superseded: bool) -> (error: WorkspaceConvergenceError)
    ensures
        compacted_superseded ==> error == WorkspaceConvergenceError::RecoveryRequired,
        !compacted_superseded ==> error == WorkspaceConvergenceError::JoinNotFound,
{
    if compacted_superseded {
        WorkspaceConvergenceError::RecoveryRequired
    } else {
        WorkspaceConvergenceError::JoinNotFound
    }
}

/// What a joiner does with an accepted frame before its transition runs.
#[derive(Debug)]
pub enum JoinerFrameGate {
    /// The join is live; the transition runs on this record.
    Live(AdmissionAttempt),
    /// The join was replaced by a newer one: the late message is recorded as
    /// evidence (save this step) and the frame is refused as needing
    /// recovery.
    Superseded(Step<()>),
}

/// The joiner's gate on a `Candidate`, `Commit` or `Complete` frame: with
/// no saved record the frame is refused (`missing_attempt_error`); a join
/// replaced by a newer one records the late message and needs recovery;
/// otherwise the saved record goes on to the transition.
pub fn joiner_frame_gate(
    loaded: Option<AdmissionAttempt>,
    compacted_superseded: bool,
    message: &OutboxMessage,
) -> (result: Result<JoinerFrameGate, WorkspaceConvergenceError>)
    ensures
        loaded is None ==> result == Err::<JoinerFrameGate, WorkspaceConvergenceError>(
            if compacted_superseded {
                WorkspaceConvergenceError::RecoveryRequired
            } else {
                WorkspaceConvergenceError::JoinNotFound
            },
        ),
        loaded is Some && loaded->Some_0.terminal_result != Some(TerminalResult::SupersededByNewJoin) ==> (
        result is Ok && result->Ok_0 is Live && result->Ok_0->Live_0 == loaded->Some_0),
        loaded is Some && loaded->Some_0.terminal_result == Some(TerminalResult::SupersededByNewJoin) ==> match result {
            Ok(JoinerFrameGate::Superseded(st)) => step_matches(
                Ok::<Step<()>, WorkspaceConvergenceError>(st),
                contradiction_model(loaded_view(&loaded), message@),
            ),
            Ok(JoinerFrameGate::Live(_)) => false,
            Err(e) => step_matches(
                Err::<Step<()>, WorkspaceConvergenceError>(e),
                contradiction_model(loaded_view(&loaded), message@),
            ),
        },
{
    let attempt = match loaded {
        Some(a) => a,
        None => return Err(missing_attempt_error(compacted_superseded)),
    };
    if attempt.terminal_result == Some(TerminalResult::SupersededByNewJoin) {
        let step = record_superseded_protocol_contradiction(Some(attempt), message)?;
        return Ok(JoinerFrameGate::Superseded(step));
    }
    Ok(JoinerFrameGate::Live(attempt))
}

/// The route of a relationship as it appears in a commit payload.
pub open spec fn route_of(f: FactsView) -> (Seq<u8>, Seq<char>, Seq<u8>, Seq<u8>) {
    (f.member_instance, f.device_id, f.transport_public_key, f.transport_address_blob)
}

/// Whether the commit payload's routes are those of the relationships.
pub open spec fn routes_match(rels: Seq<AdmissionChangeFacts>, payload: DurableAdmissionCommitPayload) -> bool {
    &&& payload.completion_recovery_routes@.len() == rels.len()
    &&& forall|i: int| 0 <= i < rels.len() ==> #[trigger] route_of(rels[i]@) == (
        payload.completion_recovery_routes@[i].member_instance@,
        payload.completion_recovery_routes@[i].device_id@,
        payload.completion_recovery_routes@[i].transport_public_key@,
        payload.completion_recovery_routes@[i].transport_address_blob@,
    )
}

/// The outcome of checking a commit payload against the joiner's record: it
/// must name the saved candidate event and security commitment and carry the
/// saved proof, resume key and deliveries; the routes are compared last, and
/// a record without relationships is inconsistent.
pub open spec fn commit_payload_model(
    a: AdmissionAttempt,
    payload: DurableAdmissionCommitPayload,
    event_id: Seq<u8>,
    commitment_id: Seq<u8>,
) -> Result<(), ErrorKind> {
    if payload.candidate_event_id@ != event_id || payload.security_commitment_id@ != commitment_id
        || a@.prepared_proof != Some(payload.prepared_proof@) || a@.resume_public_key != Some(
        payload.resume_public_key@,
    ) || a@.existing_member_security_deliveries != Some(
        payload.existing_member_deliveries@.map_values(|d: crate::attempt::SecurityDelivery| d@),
    ) {
        Err(ErrorKind::InvalidConfirmation)
    } else {
        match a.target_relationships {
            None => Err(ErrorKind::Inconsistent),
            Some(rels) => if routes_match(rels@, payload) {
                Ok(())
            } else {
                Err(ErrorKind::InvalidConfirmation)
            },
        }
    }
}

/// Whether the commit payload's routes are those of the relationships.
fn check_routes(rels: &Vec<AdmissionChangeFacts>, payload: &DurableAdmissionCommitPayload) -> (ok: bool)
    ensures
        ok == routes_match(rels@, *payload),
{
    let routes = &payload.completion_recovery_routes;
    if routes.len() != rels.len() {
        return false;
    }
    let mut i: usize = 0;
    while i < rels.len()
        invariant
            i <= rels@.len(),
            routes@.len() == rels@.len(),
            routes == &payload.completion_recovery_routes,
            forall|j: int| 0 <= j < i ==> #[trigger] route_of(rels@[j]@) == (
                routes@[j].member_instance@,
                routes@[j].device_id@,
                routes@[j].transport_public_key@,
                routes@[j].transport_address_blob@,
            ),
        decreases rels@.len() - i,
    {
        let same = id_eq(&rels[i].member_instance, &routes[i].member_instance) && crate::candidate::string_eq(
            &rels[i].device_id,
            &routes[i].device_id,
        ) && bytes_eq(rels[i].transport_public_key.as_slice(), routes[i].transport_public_key.as_slice())
            && bytes_eq(rels[i].transport_address_blob.as_slice(), routes[i].transport_address_blob.as_slice());
        if !same {
            assert(route_of(rels@[i as int]@) != (
                routes@[i as int].member_instance@,
                routes@[i as int].device_id@,
                routes@[i as int].transport_public_key@,
                routes@[i as int].transport_address_blob@,
            ));
            return false;
        }
        i = i + 1;
    }
    true
}

/// Checks that a commit payload binds what the joiner saved for the
/// candidate.
pub fn check_commit_payload(
    attempt: &AdmissionAttempt,
    payload: &DurableAdmissionCommitPayload,
    event_id: &[u8; 32],
    commitment_id: &[u8; 32],
) -> (result: Result<(), WorkspaceConvergenceError>)
    ensures
        match (result, commit_payload_model(*attempt, *payload, event_id@, commitment_id@)) {
            (Ok(_), Ok(_)) => true,
            (Err(e), Err(k)) => kind_of(e) == k,
            _ => false,
        },
{
    let deliveries_same = match &attempt.existing_member_security_deliveries {
        Some(d) => delivery_list_eq(d, &payload.existing_member_deliveries),
        None => false,
    };
    if !id_eq(&payload.candidate_event_id, event_id) || !id_eq(&payload.security_commitment_id, commitment_id)
        || !opt_bytes_is(&attempt.prepared_proof, payload.prepared_proof.as_slice()) || !opt_bytes_is(
        &attempt.resume_public_key,
        payload.resume_public_key.as_slice(),
    ) || !deliveries_same {
        return Err(WorkspaceConvergenceError::InvalidConfirmation);
    }
    let rels = match &attempt.target_relationships {
        Some(r) => r,
        None => return Err(inconsistent("completion recovery routes are missing")),
    };
    if !check_routes(rels, payload) {
        return Err(WorkspaceConvergenceError::InvalidConfirmation);
    }
    Ok(())
}

/// The device of the first relationship of member instance `author`.
pub open spec fn device_of_from(rels: Seq<AdmissionChangeFacts>, author: Seq<u8>, start: int) -> Option<Seq<char>>
    decreases rels.len() - start,
{
    if start < 0 || start >= rels.len() {
        None
    } else if rels[start].member_instance@ == author {
        Some(rels[start].device_id@)
    } else {
        device_of_from(rels, author, start + 1)
    }
}

/// The device of the sponsor that authored the candidate: the first
/// relationship of its member instance.
pub fn sponsor_device_of(relationships: &Option<Vec<AdmissionChangeFacts>>, author: &[u8; 32]) -> (result: Result<
    String,
    WorkspaceConvergenceError,
>)
    ensures
        match relationships {
            None => result == Err::<String, WorkspaceConvergenceError>(WorkspaceConvergenceError::InvalidConfirmation),
            Some(rels) => match device_of_from(rels@, author@, 0) {
                Some(d) => result matches Ok(s) && s@ == d,
                None => result == Err::<String, WorkspaceConvergenceError>(
                    WorkspaceConvergenceError::InvalidConfirmation,
                ),
            },
        },
{
    let rels = match relationships {
        Some(r) => r,
        None => return Err(WorkspaceConvergenceError::InvalidConfirmation),
    };
    let mut i: usize = 0;
    while i < rels.len()
        invariant
            i <= rels@.len(),
            relationships matches Some(r) && r@ == rels@,
            device_of_from(rels@, author@, 0) == device_of_from(rels@, author@, i as int),
        decreases rels@.len() - i,
    {
        if id_eq(&rels[i].member_instance, author) {
            return Ok(rels[i].device_id.clone());
        }
        i = i + 1;
    }
    Err(WorkspaceConvergenceError::InvalidConfirmation)
}

/// The first format of an admission completion.
pub const COMPLETION_FORMAT_V1: u16 = 1;

/// What a decoded admission completion claims.
#[derive(Debug, Clone)]
pub struct CompletionFacts {
    pub format_version: u16,
    pub attempt_id: [u8; 32],
    pub event_id: [u8; 32],
    pub activation_receipt_digest: [u8; 32],
    pub security_commitment_id: [u8; 32],
    pub completed_by_member_instance: [u8; 32],
    pub completed_by_credential_id: [u8; 32],
    /// The encoded history position the completion was made at.
    pub completed_history_position: Vec<u8>,
}

/// Whether a completion binds the joiner's admission with the SHA-256
/// digest of the saved activation receipt `receipt`.
pub open spec fn completion_binds(
    c: CompletionFacts,
    attempt_id: Seq<u8>,
    event_id: Seq<u8>,
    receipt: Seq<u8>,
    commitment_id: Seq<u8>,
    completer_credential: Option<Seq<u8>>,
    history_position: Seq<u8>,
    completer_active: bool,
    signature_valid: bool,
) -> bool {
    completion_matches_digest(
        c,
        attempt_id,
        event_id,
        sha256_digest(receipt),
        commitment_id,
        completer_credential,
        history_position,
        completer_active,
        signature_valid,
    )
}

/// Whether a completion binds the joiner's admission, given the digest of
/// the saved activation receipt: its format, attempt, event, receipt digest,
/// security commitment, the completer's credential in the verified history
/// and that history's current position; the completer must be an active
/// member and the signature valid (`signature_valid`). A completer without a
/// credential in the history is refused.
pub open spec fn completion_matches_digest(
    c: CompletionFacts,
    attempt_id: Seq<u8>,
    event_id: Seq<u8>,
    receipt_digest: Seq<u8>,
    commitment_id: Seq<u8>,
    completer_credential: Option<Seq<u8>>,
    history_position: Seq<u8>,
    completer_active: bool,
    signature_valid: bool,
) -> bool {
    &&& completer_credential matches Some(credential_id) && c.completed_by_credential_id@ == credential_id
    &&& c.format_version == COMPLETION_FORMAT_V1
    &&& c.attempt_id@ == attempt_id
    &&& c.event_id@ == event_id
    &&& c.activation_receipt_digest@ == receipt_digest
    &&& c.security_commitment_id@ == commitment_id
    &&& c.completed_history_position@ == history_position
    &&& completer_active
    &&& signature_valid
}

/// Checks a completion against the joiner's admission and the digest of its
/// saved activation receipt; any mismatch is an invalid confirmation.
pub fn check_completion_digest(
    completion: &CompletionFacts,
    attempt_id: &[u8; 32],
    event_id: &[u8; 32],
    receipt_digest: &[u8; 32],
    commitment_id: &[u8; 32],
    completer_credential: &Option<[u8; 32]>,
    history_position: &[u8],
    completer_active: bool,
    signature_valid: bool,
) -> (result: Result<(), WorkspaceConvergenceError>)
    ensures
        result is Ok <==> completion_matches_digest(
            *completion,
            attempt_id@,
            event_id@,
            receipt_digest@,
            commitment_id@,
            opt_id_view(*completer_credential),
            history_position@,
            completer_active,
            signature_valid,
        ),
        result is Err ==> result->Err_0 == WorkspaceConvergenceError::InvalidConfirmation,
{
    let credential_id = match completer_credential {
        Some(c) => c,
        None => return Err(WorkspaceConvergenceError::InvalidConfirmation),
    };
    if completion.format_version != COMPLETION_FORMAT_V1 || !id_eq(&completion.attempt_id, attempt_id) || !id_eq(
        &completion.event_id,
        event_id,
    ) || !id_eq(&completion.activation_receipt_digest, receipt_digest) || !id_eq(
        &completion.security_commitment_id,
        commitment_id,
    ) || !id_eq(&completion.completed_by_credential_id, credential_id) || !bytes_eq(
        completion.completed_history_position.as_slice(),
        history_position,
    ) || !completer_active || !signature_valid {
        return Err(WorkspaceConvergenceError::InvalidConfirmation);
    }
    Ok(())
}

/// Checks that a completion binds the joiner's admission, hashing the saved
/// activation receipt; any mismatch is an invalid confirmation.
pub fn check_completion(
    completion: &CompletionFacts,
    attempt_id: &[u8; 32],
    event_id: &[u8; 32],
    receipt: &[u8],
    commitment_id: &[u8; 32],
    completer_credential: &Option<[u8; 32]>,
    history_position: &[u8],
    completer_active: bool,
    signature_valid: bool,
) -> (result: Result<(), WorkspaceConvergenceError>)
    ensures
        result is Ok <==> completion_binds(
            *completion,
            attempt_id@,
            event_id@,
            receipt@,
            commitment_id@,
            opt_id_view(*completer_credential),
            history_position@,
            completer_active,
            signature_valid,
        ),
        result is Err ==> result->Err_0 == WorkspaceConvergenceError::InvalidConfirmation,
{
    let receipt_digest = sha256(receipt);
    check_completion_digest(
        completion,
        attempt_id,
        event_id,
        &receipt_digest,
        commitment_id,
        completer_credential,
        history_position,
        completer_active,
        signature_valid,
    )
}

/// Whether a membership history stored for admission can serve as the base
/// of a new admission: it belongs to the workspace and the local member is
/// active in it.
pub fn check_stored_base_history(
    history_lineage: &String,
    workspace_lineage: &String,
    own_instance_active: bool,
) -> (result: Result<(), WorkspaceConvergenceError>)
    ensures
        result is Ok <==> (history_lineage@ == workspace_lineage@ && own_instance_active),
        result is Err ==> result->Err_0 == WorkspaceConvergenceError::RecoveryRequired,
{
    if !crate::candidate::string_eq(history_lineage, workspace_lineage) || !own_instance_active {
        return Err(WorkspaceConvergenceError::RecoveryRequired);
    }
    Ok(())
}

/// What the membership state shows when no admission history is stored yet
/// and one must be formed from the pre-versioned history.
#[derive(Debug, Clone)]
pub struct LegacyBaseFacts {
    /// The local member was removed from the workspace.
    pub removed: bool,
    /// The member instance the workspace state records for the device.
    pub own_instance: Option<[u8; 32]>,
    /// The member instance the device's current credential derives.
    pub current_instance: [u8; 32],
    /// Some other device is a member.
    pub remote_members: bool,
    /// Whether the pre-versioned history has a reconciliation record.
    pub has_reconciliation: bool,
    /// Whether the applied head is the known head and has an event.
    pub head_known: bool,
    pub known_event_count: u64,
    /// The effective members of the pre-versioned history.
    pub effective_members: Vec<[u8; 32]>,
    /// The author of the head event.
    pub head_author: [u8; 32],
    /// The member instance and device the head event adds, when it adds one.
    pub head_adds: Option<([u8; 32], bool)>,
}

/// Whether the pre-versioned history can honestly form the base of a
/// versioned admission history: the device was not removed, its recorded and
/// current instances agree, no other device is a member, and the history is
/// exactly one known event by which the device added itself.
pub open spec fn legacy_base_model(f: LegacyBaseFacts) -> Result<(), ErrorKind> {
    if f.removed {
        Err(ErrorKind::OwnInstanceRemoved)
    } else {
        match f.own_instance {
            None => Err(ErrorKind::RecoveryRequired),
            Some(own) => if f.current_instance@ != own@ || !f.has_reconciliation || !f.head_known
                || f.remote_members || f.known_event_count != 1 || f.effective_members@.len() != 1
                || f.effective_members@[0]@ != own@ || f.head_author@ != own@ || !(f.head_adds matches Some(
                added,
            ) && added.0@ == own@ && added.1) {
                Err(ErrorKind::RecoveryRequired)
            } else {
                Ok(())
            },
        }
    }
}

/// Decides whether the pre-versioned history can form the base of a
/// versioned admission history; the second element of `head_adds` says
/// whether the added device is this device.
pub fn check_legacy_base(facts: &LegacyBaseFacts) -> (result: Result<(), WorkspaceConvergenceError>)
    ensures
        match (result, legacy_base_model(*facts)) {
            (Ok(_), Ok(_)) => true,
            (Err(e), Err(k)) => kind_of(e) == k,
            _ => false,
        },
{
    if facts.removed {
        return Err(WorkspaceConvergenceError::OwnInstanceRemoved);
    }
    let own = match &facts.own_instance {
        Some(o) => o,
        None => return Err(WorkspaceConvergenceError::RecoveryRequired),
    };
    let adds_self = match &facts.head_adds {
        Some((instance, same_device)) => id_eq(instance, own) && *same_device,
        None => false,
    };
    if !id_eq(&facts.current_instance, own) || !facts.has_reconciliation || !facts.head_known
        || facts.remote_members || facts.known_event_count != 1 || facts.effective_members.len() != 1 {
        return Err(WorkspaceConvergenceError::RecoveryRequired);
    }
    if !id_eq(&facts.effective_members[0], own) || !id_eq(&facts.head_author, own) || !adds_self {
        return Err(WorkspaceConvergenceError::RecoveryRequired);
    }
    Ok(())
}

/// Copies security deliveries.
pub fn copy_deliveries(deliveries: &Vec<SecurityDelivery>) -> (copy: Vec<SecurityDelivery>)
    ensures
        copy@.map_values(|d: SecurityDelivery| d@) == deliveries@.map_values(|d: SecurityDelivery| d@),
{
    let mut copy: Vec<SecurityDelivery> = Vec::new();
    let mut i: usize = 0;
    while i < deliveries.len()
        invariant
            i <= deliveries@.len(),
            copy@.len() == i,
            forall|j: int| 0 <= j < i ==> #[trigger] copy@[j]@ == deliveries@[j]@,
        decreases deliveries@.len() - i,
    {
        let d = &deliveries[i];
        copy.push(
            SecurityDelivery {
                recipient: d.recipient.clone(),
                credential_id: d.credential_id,
                payload: crate::bytes::bytes_to_vec(d.payload.as_slice()),
            },
        );
        i = i + 1;
    }
    assert(copy@.map_values(|d: SecurityDelivery| d@) =~= deliveries@.map_values(|d: SecurityDelivery| d@));
    copy
}

/// Whether `payload` is the commit payload the sponsor builds from its
/// record for a prepared candidate: the first format, the candidate event
/// and security commitment, the joiner's prepared proof, and the record's
/// resume key, deliveries and relationship routes.
pub open spec fn commit_payload_built(
    a: AdmissionAttempt,
    event_id: Seq<u8>,
    commitment_id: Seq<u8>,
    prepared_proof: Seq<u8>,
    payload: DurableAdmissionCommitPayload,
) -> bool {
    &&& payload.format_version == FORMAT_V1
    &&& payload.candidate_event_id@ == event_id
    &&& payload.security_commitment_id@ == commitment_id
    &&& payload.prepared_proof@ == prepared_proof
    &&& a@.resume_public_key == Some(payload.resume_public_key@)
    &&& a@.existing_member_security_deliveries == Some(
        payload.existing_member_deliveries@.map_values(|d: SecurityDelivery| d@),
    )
    &&& a.target_relationships matches Some(rels) && routes_match(rels@, payload)
}

/// The sponsor's commit payload for a prepared candidate; a record without
/// its resume key, deliveries or relationships is inconsistent.
pub fn sponsor_commit_payload(
    attempt: &AdmissionAttempt,
    event_id: &[u8; 32],
    commitment_id: &[u8; 32],
    prepared_proof: &[u8],
) -> (result: Result<DurableAdmissionCommitPayload, WorkspaceConvergenceError>)
    ensures
        result is Ok <==> (attempt.resume_public_key is Some && attempt.existing_member_security_deliveries is Some
            && attempt.target_relationships is Some),
        result is Err ==> result->Err_0 is Inconsistent,
        result matches Ok(p) ==> commit_payload_built(*attempt, event_id@, commitment_id@, prepared_proof@, p),
{
    let resume_public_key = match &attempt.resume_public_key {
        Some(k) => crate::bytes::bytes_to_vec(k.as_slice()),
        None => return Err(inconsistent("resume public key is missing")),
    };
    let deliveries = match &attempt.existing_member_security_deliveries {
        Some(d) => copy_deliveries(d),
        None => return Err(inconsistent("existing-member security deliveries are missing")),
    };
    let rels = match &attempt.target_relationships {
        Some(r) => r,
        None => return Err(inconsistent("completion recovery routes are missing")),
    };
    let routes = completion_recovery_routes(rels);
    let payload = DurableAdmissionCommitPayload {
        format_version: FORMAT_V1,
        candidate_event_id: *event_id,
        security_commitment_id: *commitment_id,
        prepared_proof: crate::bytes::bytes_to_vec(prepared_proof),
        resume_public_key,
        existing_member_deliveries: deliveries,
        completion_recovery_routes: routes,
    };
    proof {
        assert forall|i: int| 0 <= i < rels@.len() implies #[trigger] route_of(rels@[i]@) == (
            payload.completion_recovery_routes@[i].member_instance@,
            payload.completion_recovery_routes@[i].device_id@,
            payload.completion_recovery_routes@[i].transport_public_key@,
            payload.completion_recovery_routes@[i].transport_address_blob@,
        ) by {
            assert(payload.completion_recovery_routes@[i].member_instance == rels@[i].member_instance);
        }
    }
    Ok(payload)
}

/// The first format of a prepared admission proof.
pub const PREPARED_PROOF_FORMAT_V1: u16 = 1;

/// What a decoded prepared admission proof claims.
#[derive(Debug, Clone)]
pub struct PreparedProofFacts {
    pub format_version: u16,
    pub attempt_id: [u8; 32],
    pub lineage_id: String,
    pub base_history_position: Vec<u8>,
    pub candidate_event_id: [u8; 32],
    pub target_members_digest: [u8; 32],
    pub security_commitment_id: [u8; 32],
    pub joiner_member_instance: [u8; 32],
    pub joiner_credential_id: [u8; 32],
}

/// Whether a prepared proof binds the sponsor's candidate: its format, the
/// attempt, the candidate's lineage, base position, event, resulting members
/// digest and security commitment, the joiner's member instance and
/// credential, and a valid joiner signature (`signature_valid`).
pub open spec fn prepared_proof_binds(
    p: PreparedProofFacts,
    attempt_id: Seq<u8>,
    lineage_id: Seq<char>,
    base_history_position: Seq<u8>,
    event_id: Seq<u8>,
    members_digest: Seq<u8>,
    commitment_id: Seq<u8>,
    joiner_instance: Seq<u8>,
    joiner_credential: Seq<u8>,
    signature_valid: bool,
) -> bool {
    &&& p.format_version == PREPARED_PROOF_FORMAT_V1
    &&& p.attempt_id@ == attempt_id
    &&& p.lineage_id@ == lineage_id
    &&& p.base_history_position@ == base_history_position
    &&& p.candidate_event_id@ == event_id
    &&& p.target_members_digest@ == members_digest
    &&& p.security_commitment_id@ == commitment_id
    &&& p.joiner_member_instance@ == joiner_instance
    &&& p.joiner_credential_id@ == joiner_credential
    &&& signature_valid
}

/// Checks the joiner's prepared proof against the sponsor's candidate; any
/// mismatch is an invalid confirmation.
pub fn check_prepared_proof(
    proof: &PreparedProofFacts,
    attempt_id: &[u8; 32],
    lineage_id: &String,
    base_history_position: &[u8],
    event_id: &[u8; 32],
    members_digest: &[u8; 32],
    commitment_id: &[u8; 32],
    joiner_instance: &[u8; 32],
    joiner_credential: &[u8; 32],
    signature_valid: bool,
) -> (result: Result<(), WorkspaceConvergenceError>)
    ensures
        result is Ok <==> prepared_proof_binds(
            *proof,
            attempt_id@,
            lineage_id@,
            base_history_position@,
            event_id@,
            members_digest@,
            commitment_id@,
            joiner_instance@,
            joiner_credential@,
            signature_valid,
        ),
        result is Err ==> result->Err_0 == WorkspaceConvergenceError::InvalidConfirmation,
{
    if proof.format_version != PREPARED_PROOF_FORMAT_V1 || !id_eq(&proof.attempt_id, attempt_id)
        || !crate::candidate::string_eq(&proof.lineage_id, lineage_id) || !bytes_eq(
        proof.base_history_position.as_slice(),
        base_history_position,
    ) || !id_eq(&proof.candidate_event_id, event_id) || !id_eq(&proof.target_members_digest, members_digest)
        || !id_eq(&proof.security_commitment_id, commitment_id) || !id_eq(
        &proof.joiner_member_instance,
        joiner_instance,
    ) || !id_eq(&proof.joiner_credential_id, joiner_credential) || !signature_valid {
        return Err(WorkspaceConvergenceError::InvalidConfirmation);
    }
    Ok(())
}

/// Whether `c` is the completion a sponsor makes once the joiner's receipt
/// is recorded: the first format, the attempt and event, the digest of the
/// receipt, the security commitment, the sponsor's member instance and
/// credential, and the position of the completed history.
pub open spec fn completion_built(
    c: CompletionFacts,
    attempt_id: Seq<u8>,
    event_id: Seq<u8>,
    receipt: Seq<u8>,
    commitment_id: Seq<u8>,
    own_instance: Seq<u8>,
    own_credential: Seq<u8>,
    completed_position: Seq<u8>,
) -> bool {
    &&& c.format_version == COMPLETION_FORMAT_V1
    &&& c.attempt_id@ == attempt_id
    &&& c.event_id@ == event_id
    &&& c.activation_receipt_digest@ == sha256_digest(receipt)
    &&& c.security_commitment_id@ == commitment_id
    &&& c.completed_by_member_instance@ == own_instance
    &&& c.completed_by_credential_id@ == own_credential
    &&& c.completed_history_position@ == completed_position
}

/// The completion the sponsor signs after recording the joiner's
/// activation receipt; a sponsor that is no longer an active member of the
/// completed history (`own_active`) cannot complete.
pub fn sponsor_completion(
    attempt_id: &[u8; 32],
    event_id: &[u8; 32],
    receipt: &[u8],
    commitment_id: &[u8; 32],
    own_instance: &[u8; 32],
    own_credential: &[u8; 32],
    completed_position: &[u8],
    own_active: bool,
) -> (result: Result<CompletionFacts, WorkspaceConvergenceError>)
    ensures
        !own_active <==> result == Err::<CompletionFacts, WorkspaceConvergenceError>(
            WorkspaceConvergenceError::OwnInstanceRemoved,
        ),
        result matches Ok(c) ==> completion_built(
            c,
            attempt_id@,
            event_id@,
            receipt@,
            commitment_id@,
            own_instance@,
            own_credential@,
            completed_position@,
        ),
{
    if !own_active {
        return Err(WorkspaceConvergenceError::OwnInstanceRemoved);
    }
    Ok(
        CompletionFacts {
            format_version: COMPLETION_FORMAT_V1,
            attempt_id: *attempt_id,
            event_id: *event_id,
            activation_receipt_digest: sha256(receipt),
            security_commitment_id: *commitment_id,
            completed_by_member_instance: *own_instance,
            completed_by_credential_id: *own_credential,
            completed_history_position: crate::bytes::bytes_to_vec(completed_position),
        },
    )
}

} // verus!
