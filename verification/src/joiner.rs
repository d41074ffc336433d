//! Joiner-side admission transitions before commit: starting a join,
//! recovery material, cancellation, refusals and delivery acknowledgments.
use vstd::prelude::*;
use crate::attempt::{active_outbox_index, advance_version, copy_message, empty_joiner_view, first_active, first_where, inbox_with, loaded_view, new_joiner, remember, stage_rank, supersede_at, superseded_view, with_inbox, with_outboxes, AdmissionAttempt, AdmissionRole, AttemptView, JoinerStage, TerminalResult};
use crate::bytes::{bytes_eq, bytes_to_vec, opt_bytes_is, opt_bytes_view, opt_id_view};
use crate::error::{admission_storage, inconsistent, WorkspaceConvergenceError};
use crate::message::{inbox_record, inbox_view_of, outbound_message, outbound_view, InboxRecord, InboxView, MessageView, OutboxMessage, OutboxPurpose};

use crate::sponsor::{advance_or_fail, push_outbox};
use crate::sponsor_withdraw::last_where_below;
use crate::step::{answer, step_matches, ErrorKind, Step, StepView};

verus! {

/// The private material that lets an interrupted join resume with the same
/// identity.
#[derive(Debug)]
pub struct JoinRecoveryMaterial {
    pub pending_security_state: Vec<u8>,
    pub candidate_key_package: Vec<u8>,
    pub member_instance: [u8; 32],
    pub resume_public_key: Vec<u8>,
    pub resume_private_key: Vec<u8>,
}

/// The mathematical value of join recovery material.
pub struct MaterialView {
    pub pending_security_state: Seq<u8>,
    pub candidate_key_package: Seq<u8>,
    pub member_instance: Seq<u8>,
    pub resume_public_key: Seq<u8>,
    pub resume_private_key: Seq<u8>,
}

impl View for JoinRecoveryMaterial {
    type V = MaterialView;

    open spec fn view(&self) -> MaterialView {
        MaterialView {
            pending_security_state: self.pending_security_state@,
            candidate_key_package: self.candidate_key_package@,
            member_instance: self.member_instance@,
            resume_public_key: self.resume_public_key@,
            resume_private_key: self.resume_private_key@,
        }
    }
}

/// Recovery material is complete: both security parts are present and both
/// resume keys are 32 bytes long.
pub open spec fn material_complete(m: MaterialView) -> bool {
    m.pending_security_state.len() > 0 && m.candidate_key_package.len() > 0
        && m.resume_public_key.len() == 32 && m.resume_private_key.len() == 32
}

/// Checks that recovery material is complete.
pub fn validate_join_recovery_material(material: &JoinRecoveryMaterial) -> (result: Result<(), WorkspaceConvergenceError>)
    ensures
        result is Ok <==> material_complete(material@),
        result is Err ==> result->Err_0 is Inconsistent,
{
    if material.pending_security_state.len() == 0 || material.candidate_key_package.len() == 0
        || material.resume_public_key.len() != 32 || material.resume_private_key.len() != 32 {
        return Err(inconsistent("join recovery material is incomplete"));
    }
    Ok(())
}

/// The view of optional recovery material.
pub open spec fn material_view(m: Option<&JoinRecoveryMaterial>) -> Option<MaterialView> {
    match m {
        Some(m) => Some(m@),
        None => None,
    }
}

/// Whether a saved record is the same join start as the one requested.
pub open spec fn same_start(
    e: AttemptView,
    join_id: Seq<u8>,
    sponsor: Seq<u8>,
    request_payload: Seq<u8>,
    pending: Seq<u8>,
    key_package: Seq<u8>,
    target_access: Option<Seq<u8>>,
    material: Option<MaterialView>,
) -> bool {
    &&& e.role is Joiner
    &&& e.join_id == Some(join_id)
    &&& stage_rank(e.role) == Some(0u8)
    &&& e.joiner_pending_security_state == Some(pending)
    &&& e.candidate_key_package == Some(key_package)
    &&& e.target_access_state == target_access
    &&& match material {
        None => true,
        Some(m) => e.joiner_member_instance == Some(m.member_instance) && e.resume_public_key == Some(
            m.resume_public_key,
        ) && e.resume_private_key == Some(m.resume_private_key),
    }
    &&& e.outboxes == seq![outbound_view(e.attempt_id, OutboxPurpose::JoinRequest, sponsor, None, request_payload)]
}

/// The record a new join starts with.
pub open spec fn started_record(
    attempt_id: Seq<u8>,
    join_id: Seq<u8>,
    ordinal: u64,
    sponsor: Seq<u8>,
    request_payload: Seq<u8>,
    pending: Seq<u8>,
    key_package: Seq<u8>,
    target_access: Option<Seq<u8>>,
    material: Option<MaterialView>,
    preserve: bool,
) -> AttemptView {
    let base = empty_joiner_view(attempt_id, join_id, JoinerStage::Initiated);
    AttemptView {
        local_join_ordinal: Some(ordinal),
        joiner_pending_security_state: Some(pending),
        candidate_key_package: Some(key_package),
        target_access_state: target_access,
        preserve_unreadable_history: preserve,
        joiner_member_instance: match material {
            Some(m) => Some(m.member_instance),
            None => None,
        },
        resume_public_key: match material {
            Some(m) => Some(m.resume_public_key),
            None => None,
        },
        resume_private_key: match material {
            Some(m) => Some(m.resume_private_key),
            None => None,
        },
        outboxes: seq![outbound_view(attempt_id, OutboxPurpose::JoinRequest, sponsor, None, request_payload)],
        ..base
    }
}

/// The outcome of starting a join: a repeated start with the same inputs
/// answers the saved record, a different start under the same identity is
/// refused, and otherwise a new record is created.
pub open spec fn start_join_model(
    attempt_id: Seq<u8>,
    existing: Option<AttemptView>,
    join_id: Seq<u8>,
    sponsor: Seq<u8>,
    request_payload: Seq<u8>,
    pending: Seq<u8>,
    key_package: Seq<u8>,
    target_access: Option<Seq<u8>>,
    material: Option<MaterialView>,
    preserve: bool,
    next_local_join_ordinal: u64,
) -> Result<(AttemptView, bool), ErrorKind> {
    match existing {
        Some(e) => if e.preserve_unreadable_history != preserve {
            Err(ErrorKind::AdmissionInProgress)
        } else if same_start(e, join_id, sponsor, request_payload, pending, key_package, target_access, material) {
            Ok((e, false))
        } else {
            Err(ErrorKind::AdmissionStorage)
        },
        None => if material matches Some(m) && !material_complete(m) {
            Err(ErrorKind::Inconsistent)
        } else {
            let record = started_record(
                attempt_id,
                join_id,
                next_local_join_ordinal,
                sponsor,
                request_payload,
                pending,
                key_package,
                target_access,
                material,
                preserve,
            );
            Ok((record, true))
        },
    }
}

/// A join start: the record, and whether it must be created in the store
/// (otherwise it is the record already saved).
#[derive(Debug)]
pub struct JoinStart {
    pub attempt: AdmissionAttempt,
    pub create: bool,
}

/// Whether an executable join start is the one the model gives.
pub open spec fn start_matches(
    result: Result<JoinStart, WorkspaceConvergenceError>,
    model: Result<(AttemptView, bool), ErrorKind>,
) -> bool {
    match (result, model) {
        (Ok(s), Ok((record, create))) => s.attempt@ == record && s.create == create,
        (Err(e), Err(kind)) => crate::step::kind_of(e) == kind,
        _ => false,
    }
}

/// A copy of an optional byte string given as a slice.
fn opt_slice_to_vec(o: Option<&[u8]>) -> (out: Option<Vec<u8>>)
    ensures
        opt_bytes_view(&out) == match o {
            Some(s) => Some(s@),
            None => None::<Seq<u8>>,
        },
{
    match o {
        Some(s) => Some(bytes_to_vec(s)),
        None => None,
    }
}

/// Whether an optional join identity is `join_id`.
fn join_id_is(o: &Option<[u8; 16]>, join_id: &[u8; 16]) -> (same: bool)
    ensures
        same == (crate::attempt::opt_join_id_view(*o) == Some(join_id@)),
{
    match o {
        Some(j) => {
            let mut equal = true;
            let mut i: usize = 0;
            while i < 16
                invariant
                    i <= 16,
                    equal == forall|x: int| 0 <= x < i ==> j@[x] == join_id@[x],
                decreases 16 - i,
            {
                if j[i] != join_id[i] {
                    equal = false;
                }
                i = i + 1;
            }
            proof {
                if equal {
                    assert(j@ =~= join_id@);
                }
            }
            equal
        },
        None => false,
    }
}

/// Whether the saved resume identity is the one in `material`.
fn material_matches(existing: &AdmissionAttempt, material: Option<&JoinRecoveryMaterial>) -> (same: bool)
    ensures
        same == match material_view(material) {
            None => true,
            Some(m) => existing@.joiner_member_instance == Some(m.member_instance) && existing@.resume_public_key
                == Some(m.resume_public_key) && existing@.resume_private_key == Some(m.resume_private_key),
        },
{
    match material {
        None => true,
        Some(m) => {
            let instance_same = match &existing.joiner_member_instance {
                Some(x) => crate::bytes::id_eq(x, &m.member_instance),
                None => false,
            };
            instance_same && opt_bytes_is(&existing.resume_public_key, m.resume_public_key.as_slice())
                && opt_bytes_is(&existing.resume_private_key, m.resume_private_key.as_slice())
        },
    }
}

/// Whether the outboxes hold exactly `expected`.
fn only_message(outboxes: &Vec<OutboxMessage>, expected: &OutboxMessage) -> (same: bool)
    ensures
        same == (outboxes@.map_values(|m: OutboxMessage| m@) == seq![expected@]),
{
    let same = outboxes.len() == 1 && crate::message::message_eq(&outboxes[0], expected);
    proof {
        let s = outboxes@.map_values(|m: OutboxMessage| m@);
        assert(s.len() == outboxes@.len());
        if outboxes@.len() == 1 {
            assert(s[0] == outboxes@[0]@);
        }
        if same {
            assert(s =~= seq![expected@]);
        }
        if s == seq![expected@] {
            assert(s[0] == expected@);
        }
    }
    same
}

/// Whether the saved record is the same join start as the one requested.
#[verifier::rlimit(30)]
fn matches_existing_start(
    existing: &AdmissionAttempt,
    join_id: &[u8; 16],
    sponsor: &[u8],
    request_payload: &[u8],
    pending: &[u8],
    key_package: &[u8],
    target_access: Option<&[u8]>,
    material: Option<&JoinRecoveryMaterial>,
) -> (same: bool)
    ensures
        same == same_start(
            existing@,
            join_id@,
            sponsor@,
            request_payload@,
            pending@,
            key_package@,
            match target_access {
                Some(s) => Some(s@),
                None => None,
            },
            material_view(material),
        ),
{
    let expected = outbound_message(&existing.attempt_id, OutboxPurpose::JoinRequest, sponsor, None, request_payload);
    let is_joiner = match existing.role {
        AdmissionRole::Joiner(_) => true,
        _ => false,
    };
    let same_join = join_id_is(&existing.join_id, join_id);
    let access_same = match (&existing.target_access_state, target_access) {
        (Some(a), Some(b)) => bytes_eq(a.as_slice(), b),
        (None, None) => true,
        _ => false,
    };
    let material_same = material_matches(existing, material);
    let outboxes_same = only_message(&existing.outboxes, &expected);
    is_joiner && same_join && crate::attempt::role_rank(existing.role) == Some(0u8) && opt_bytes_is(
        &existing.joiner_pending_security_state,
        pending,
    ) && opt_bytes_is(&existing.candidate_key_package, key_package) && access_same && material_same
        && outboxes_same
}

/// Starts a local join durably. `existing` is the record already saved
/// under `attempt_id`, if any.
pub fn start_join(
    attempt_id: &[u8; 32],
    existing: Option<AdmissionAttempt>,
    join_id: &[u8; 16],
    sponsor: &[u8],
    request_payload: &[u8],
    pending_security_state: &[u8],
    candidate_key_package: &[u8],
    target_access_state: Option<&[u8]>,
    recovery_material: Option<&JoinRecoveryMaterial>,
    preserve_unreadable_history: bool,
    next_local_join_ordinal: u64,
) -> (result: Result<JoinStart, WorkspaceConvergenceError>)
    ensures
        start_matches(
            result,
            start_join_model(
                attempt_id@,
                loaded_view(&existing),
                join_id@,
                sponsor@,
                request_payload@,
                pending_security_state@,
                candidate_key_package@,
                match target_access_state {
                    Some(s) => Some(s@),
                    None => None,
                },
                material_view(recovery_material),
                preserve_unreadable_history,
                next_local_join_ordinal,
            ),
        ),
{
    if let Some(existing) = existing {
        if existing.preserve_unreadable_history != preserve_unreadable_history {
            return Err(WorkspaceConvergenceError::AdmissionInProgress);
        }
        if matches_existing_start(
            &existing,
            join_id,
            sponsor,
            request_payload,
            pending_security_state,
            candidate_key_package,
            target_access_state,
            recovery_material,
        ) {
            return Ok(JoinStart { attempt: existing, create: false });
        }
        return Err(admission_storage("attempt identity was reused with different join input"));
    }
    if let Some(material) = recovery_material {
        validate_join_recovery_material(material)?;
    }
    let mut attempt = new_joiner(*attempt_id, *join_id, JoinerStage::Initiated);
    attempt.local_join_ordinal = Some(next_local_join_ordinal);
    attempt.joiner_pending_security_state = Some(bytes_to_vec(pending_security_state));
    attempt.candidate_key_package = Some(bytes_to_vec(candidate_key_package));
    attempt.target_access_state = opt_slice_to_vec(target_access_state);
    attempt.preserve_unreadable_history = preserve_unreadable_history;
    if let Some(material) = recovery_material {
        attempt.joiner_member_instance = Some(material.member_instance);
        attempt.resume_public_key = Some(bytes_to_vec(material.resume_public_key.as_slice()));
        attempt.resume_private_key = Some(bytes_to_vec(material.resume_private_key.as_slice()));
    }
    let request = outbound_message(attempt_id, OutboxPurpose::JoinRequest, sponsor, None, request_payload);
    push_outbox(&mut attempt, request);
    Ok(JoinStart { attempt, create: true })
}

/// The recovery material a saved record holds, when it holds all of it.
pub open spec fn material_of(a: AttemptView) -> Option<MaterialView> {
    match (
        a.joiner_pending_security_state,
        a.candidate_key_package,
        a.joiner_member_instance,
        a.resume_public_key,
        a.resume_private_key,
    ) {
        (Some(p), Some(k), Some(m), Some(pk), Some(sk)) => Some(
            MaterialView {
                pending_security_state: p,
                candidate_key_package: k,
                member_instance: m,
                resume_public_key: pk,
                resume_private_key: sk,
            },
        ),
        _ => None,
    }
}

/// Whether a record is an initiated join holding complete recovery
/// material.
pub open spec fn resumable(a: AttemptView) -> bool {
    &&& a.role is Joiner
    &&& stage_rank(a.role) == Some(0u8)
    &&& material_of(a) matches Some(m)
    &&& material_complete(m)
}

/// Reads the material that lets an initiated join resume with the same
/// identity.
pub fn load_join_recovery_material(loaded: &Option<AdmissionAttempt>) -> (result: Result<JoinRecoveryMaterial, WorkspaceConvergenceError>)
    ensures
        loaded is None ==> (result matches Err(e) && e == WorkspaceConvergenceError::JoinNotFound),
        loaded matches Some(a) ==> match result {
            Ok(m) => a@.role is Joiner && stage_rank(a@.role) == Some(0u8) && material_of(a@) == Some(m@)
                && material_complete(m@),
            Err(e) => e is Inconsistent && !resumable(a@),
        },
{
    let attempt = match loaded {
        Some(a) => a,
        None => return Err(WorkspaceConvergenceError::JoinNotFound),
    };
    let is_joiner = match attempt.role {
        AdmissionRole::Joiner(_) => true,
        _ => false,
    };
    if !is_joiner || crate::attempt::role_rank(attempt.role) != Some(0u8) {
        return Err(inconsistent("join recovery material is not in the initiated stage"));
    }
    let pending_security_state = match &attempt.joiner_pending_security_state {
        Some(v) => bytes_to_vec(v.as_slice()),
        None => return Err(inconsistent("join recovery private state is missing")),
    };
    let candidate_key_package = match &attempt.candidate_key_package {
        Some(v) => bytes_to_vec(v.as_slice()),
        None => return Err(inconsistent("join recovery key package is missing")),
    };
    let member_instance = match attempt.joiner_member_instance {
        Some(v) => v,
        None => return Err(inconsistent("join recovery member instance is missing")),
    };
    let resume_public_key = match &attempt.resume_public_key {
        Some(v) => bytes_to_vec(v.as_slice()),
        None => return Err(inconsistent("join recovery public key is missing")),
    };
    let resume_private_key = match &attempt.resume_private_key {
        Some(v) => bytes_to_vec(v.as_slice()),
        None => return Err(inconsistent("join recovery private key is missing")),
    };
    let material = JoinRecoveryMaterial {
        pending_security_state,
        candidate_key_package,
        member_instance,
        resume_public_key,
        resume_private_key,
    };
    validate_join_recovery_material(&material)?;
    Ok(material)
}

/// A message that is not superseded.
pub open spec fn active_message() -> spec_fn(MessageView) -> bool {
    |m: MessageView| !m.superseded
}

/// The identifier of the last active outbox message, if any.
pub open spec fn last_active_id(s: Seq<MessageView>) -> Option<Seq<u8>> {
    match last_where_below(s, active_message(), s.len() as int) {
        Some(i) => Some(s[i].message_id),
        None => None,
    }
}

/// The outcome of the joiner asking to cancel its pending join; the request
/// follows the last active message and replays unchanged.
pub open spec fn request_cancel_model(
    attempt_id: Seq<u8>,
    loaded: Option<AttemptView>,
    recipient: Seq<u8>,
    payload: Seq<u8>,
) -> Result<StepView<MessageView>, ErrorKind> {
    match loaded {
        None => Err(ErrorKind::Inconsistent),
        Some(a) => if !(a.role is Joiner) || a.terminal_result is Some {
            Err(ErrorKind::Inconsistent)
        } else {
            match first_active(a.outboxes, OutboxPurpose::CancelRequested) {
                Some(i) => Ok(answer(a.outboxes[i])),
                None => {
                    let cancel = outbound_view(
                        attempt_id,
                        OutboxPurpose::CancelRequested,
                        recipient,
                        last_active_id(a.outboxes),
                        payload,
                    );
                    advance_or_fail(
                        AttemptView { cancel_request: Some(payload), outboxes: a.outboxes.push(cancel), ..a },
                        cancel,
                    )
                },
            }
        },
    }
}

/// The identifier of the last active outbox message.
pub fn last_active_message_id(outboxes: &Vec<OutboxMessage>) -> (id: Option<[u8; 32]>)
    ensures
        opt_id_view(id) == last_active_id(outboxes@.map_values(|m: OutboxMessage| m@)),
{
    let ghost s = outboxes@.map_values(|m: OutboxMessage| m@);
    let ghost pred = active_message();
    let mut end: usize = outboxes.len();
    while end > 0
        invariant
            end <= outboxes@.len(),
            s == outboxes@.map_values(|m: OutboxMessage| m@),
            pred == active_message(),
            last_where_below(s, pred, s.len() as int) == last_where_below(s, pred, end as int),
        decreases end,
    {
        if !outboxes[end - 1].superseded {
            return Some(outboxes[end - 1].message_id);
        }
        end = end - 1;
    }
    None
}

/// The joiner asks to cancel its pending join.
pub fn request_cancel(
    attempt_id: &[u8; 32],
    loaded: Option<AdmissionAttempt>,
    recipient: &[u8],
    payload: &[u8],
) -> (result: Result<Step<OutboxMessage>, WorkspaceConvergenceError>)
    ensures
        step_matches(result, request_cancel_model(attempt_id@, loaded_view(&loaded), recipient@, payload@)),
{
    let mut attempt = match loaded {
        Some(a) => a,
        None => return Err(inconsistent("admission attempt was not found")),
    };
    let is_joiner = match attempt.role {
        AdmissionRole::Joiner(_) => true,
        _ => false,
    };
    if !is_joiner || attempt.terminal_result.is_some() {
        return Err(inconsistent("only a pending local join can be cancelled"));
    }
    if let Some(i) = active_outbox_index(&attempt.outboxes, OutboxPurpose::CancelRequested) {
        return Ok(Step { save: None, create: false, history: None, output: copy_message(&attempt.outboxes[i]) });
    }
    let predecessor = last_active_message_id(&attempt.outboxes);
    let cancel = outbound_message(attempt_id, OutboxPurpose::CancelRequested, recipient, predecessor, payload);
    attempt.cancel_request = Some(bytes_to_vec(payload));
    let output = copy_message(&cancel);
    push_outbox(&mut attempt, cancel);
    let saved = advance_version(attempt)?;
    Ok(Step { save: Some(saved), create: false, history: None, output })
}

/// Whether some outbox message is a `JoinRequest` with identifier `id`.
pub open spec fn has_join_request(s: Seq<MessageView>, id: Seq<u8>) -> bool {
    exists|i: int| 0 <= i < s.len() && #[trigger] s[i].purpose == OutboxPurpose::JoinRequest && s[i].message_id == id
}

/// The outcome of recording a late protocol message that contradicts a
/// superseded join: it is kept as evidence once.
pub open spec fn contradiction_model(loaded: Option<AttemptView>, message: MessageView) -> Result<StepView<()>, ErrorKind> {
    match loaded {
        None => Err(ErrorKind::Inconsistent),
        Some(a) => if a.terminal_result != Some(TerminalResult::SupersededByNewJoin) {
            Err(ErrorKind::Inconsistent)
        } else {
            let valid = match message.purpose {
                OutboxPurpose::Candidate => match message.predecessor {
                    Some(p) => has_join_request(a.outboxes, p),
                    None => false,
                },
                OutboxPurpose::Commit | OutboxPurpose::Complete => true,
                _ => false,
            };
            if !valid || message.payload.len() == 0 {
                Err(ErrorKind::Inconsistent)
            } else if crate::attempt::inbox_has_id(a.inbox_dedup, message.message_id) {
                Ok(answer(()))
            } else {
                advance_or_fail(with_inbox(a, a.inbox_dedup.push(inbox_view_of(message))), ())
            }
        },
    }
}

/// Whether some outbox message is a `JoinRequest` with identifier `id`.
fn find_join_request(outboxes: &Vec<OutboxMessage>, id: &[u8; 32]) -> (found: bool)
    ensures
        found == has_join_request(outboxes@.map_values(|m: OutboxMessage| m@), id@),
{
    let ghost s = outboxes@.map_values(|m: OutboxMessage| m@);
    let mut i: usize = 0;
    while i < outboxes.len()
        invariant
            i <= outboxes@.len(),
            s == outboxes@.map_values(|m: OutboxMessage| m@),
            forall|j: int| 0 <= j < i ==> !(s[j].purpose == OutboxPurpose::JoinRequest && s[j].message_id == id@),
        decreases outboxes@.len() - i,
    {
        if outboxes[i].purpose == OutboxPurpose::JoinRequest && crate::bytes::id_eq(&outboxes[i].message_id, id) {
            assert(s[i as int].purpose == OutboxPurpose::JoinRequest && s[i as int].message_id == id@);
            return true;
        }
        i = i + 1;
    }
    false
}

/// Records a late `Candidate`, `Commit` or `Complete` that reached a join
/// already replaced by a newer one.
pub fn record_superseded_protocol_contradiction(
    loaded: Option<AdmissionAttempt>,
    message: &OutboxMessage,
) -> (result: Result<Step<()>, WorkspaceConvergenceError>)
    ensures
        step_matches(result, contradiction_model(loaded_view(&loaded), message@)),
{
    let mut attempt = match loaded {
        Some(a) => a,
        None => return Err(inconsistent("admission attempt was not found")),
    };
    if attempt.terminal_result != Some(TerminalResult::SupersededByNewJoin) {
        return Err(inconsistent("protocol contradiction does not target a superseded local join"));
    }
    let valid = match message.purpose {
        OutboxPurpose::Candidate => match &message.predecessor_message_id {
            Some(p) => find_join_request(&attempt.outboxes, p),
            None => false,
        },
        OutboxPurpose::Commit | OutboxPurpose::Complete => true,
        _ => false,
    };
    if !valid || message.payload.len() == 0 {
        return Err(inconsistent("superseded join protocol contradiction is invalid"));
    }
    let evidence = inbox_record(message);
    if crate::attempt::inbox_contains_id(&attempt.inbox_dedup, &evidence.message_id) {
        return Ok(Step { save: None, create: false, history: None, output: () });
    }
    crate::attempt::push_inbox(&mut attempt, &evidence);
    let saved = advance_version(attempt)?;
    Ok(Step { save: Some(saved), create: false, history: None, output: () })
}

/// The outcome of the sponsor reporting that admission is unavailable: the
/// joiner keeps exactly the pending request it reported on.
pub open spec fn admission_unavailable_model(loaded: Option<AttemptView>, join_request: MessageView) -> Result<StepView<MessageView>, ErrorKind> {
    match loaded {
        None => Err(ErrorKind::Inconsistent),
        Some(a) => if a.role != AdmissionRole::Joiner(JoinerStage::Initiated) {
            Err(ErrorKind::Inconsistent)
        } else {
            match first_active(a.outboxes, OutboxPurpose::JoinRequest) {
                None => Err(ErrorKind::Inconsistent),
                Some(i) => if a.outboxes[i] != join_request {
                    Err(ErrorKind::Inconsistent)
                } else {
                    Ok(answer(a.outboxes[i]))
                },
            }
        },
    }
}

/// Confirms that an unavailable admission refers to the exact pending join
/// request; nothing is saved.
pub fn record_admission_unavailable(
    loaded: Option<AdmissionAttempt>,
    join_request: &OutboxMessage,
) -> (result: Result<Step<OutboxMessage>, WorkspaceConvergenceError>)
    ensures
        step_matches(result, admission_unavailable_model(loaded_view(&loaded), join_request@)),
{
    let attempt = match loaded {
        Some(a) => a,
        None => return Err(inconsistent("admission attempt was not found")),
    };
    if attempt.role != AdmissionRole::Joiner(JoinerStage::Initiated) {
        return Err(inconsistent("joiner admission message is out of order"));
    }
    let request = match active_outbox_index(&attempt.outboxes, OutboxPurpose::JoinRequest) {
        Some(i) => &attempt.outboxes[i],
        None => return Err(inconsistent("pending join request outbox is missing")),
    };
    if !crate::message::message_eq(request, join_request) {
        return Err(inconsistent("admission unavailable does not match the pending join request"));
    }
    Ok(Step { save: None, create: false, history: None, output: copy_message(request) })
}

/// The answer of the invitation service to an invitation-consume delivery.
#[derive(Debug, Clone, Copy, PartialEq, Eq, Structural)]
pub enum InvitationConsumeResult {
    Consumed,
    NotFound,
    Conflict,
    Retryable,
}

/// The outcome of recording the invitation service's answer: a final answer
/// settles the invitation-consume delivery, a retryable one changes nothing.
pub open spec fn invitation_result_model(loaded: Option<AttemptView>, result: InvitationConsumeResult) -> Result<StepView<()>, ErrorKind> {
    match loaded {
        None => Err(ErrorKind::Inconsistent),
        Some(a) => match first_active(a.outboxes, OutboxPurpose::InvitationConsume) {
            None => Ok(answer(())),
            Some(i) => if result == InvitationConsumeResult::Retryable {
                Ok(answer(()))
            } else {
                advance_or_fail(with_outboxes(a, a.outboxes.update(i, superseded_view(a.outboxes[i]))), ())
            },
        },
    }
}

/// Records the invitation service's answer to the invitation-consume
/// delivery.
pub fn record_invitation_consume_result(
    loaded: Option<AdmissionAttempt>,
    result: InvitationConsumeResult,
) -> (outcome: Result<Step<()>, WorkspaceConvergenceError>)
    ensures
        step_matches(outcome, invitation_result_model(loaded_view(&loaded), result)),
{
    let mut attempt = match loaded {
        Some(a) => a,
        None => return Err(inconsistent("admission attempt was not found")),
    };
    let index = match active_outbox_index(&attempt.outboxes, OutboxPurpose::InvitationConsume) {
        Some(i) => i,
        None => return Ok(Step { save: None, create: false, history: None, output: () }),
    };
    if result == InvitationConsumeResult::Retryable {
        return Ok(Step { save: None, create: false, history: None, output: () });
    }
    supersede_at(&mut attempt, index);
    let saved = advance_version(attempt)?;
    Ok(Step { save: Some(saved), create: false, history: None, output: () })
}

/// A message whose acknowledgment is `ack`.
pub open spec fn acknowledged_by(ack: InboxView) -> spec_fn(MessageView) -> bool {
    |m: MessageView| inbox_view_of(m) == ack
}

/// The protocol messages an ordinary delivery acknowledgment clears.
pub open spec fn protocol_purpose(p: OutboxPurpose) -> bool {
    p == OutboxPurpose::JoinRequest || p == OutboxPurpose::Candidate || p == OutboxPurpose::Prepared
        || p == OutboxPurpose::Commit || p == OutboxPurpose::Applied
}

/// An active protocol message whose acknowledgment is `ack`.
pub open spec fn delivery_acked_by(ack: InboxView) -> spec_fn(MessageView) -> bool {
    |m: MessageView| !m.superseded && protocol_purpose(m.purpose) && inbox_view_of(m) == ack
}

/// The outcome of the recipient acknowledging that it saved a message.
pub open spec fn acknowledge_delivery_model(loaded: Option<AttemptView>, ack: InboxView) -> Result<StepView<()>, ErrorKind> {
    match loaded {
        None => Err(ErrorKind::Inconsistent),
        Some(a) => if a.terminal_result == Some(TerminalResult::SupersededByNewJoin) {
            match first_where(a.outboxes, acknowledged_by(ack)) {
                None => Err(ErrorKind::Inconsistent),
                Some(i) => {
                    let outboxes = if a.outboxes[i].purpose == OutboxPurpose::CancelRequested {
                        a.outboxes.update(i, superseded_view(a.outboxes[i]))
                    } else {
                        a.outboxes
                    };
                    advance_or_fail(with_inbox(with_outboxes(a, outboxes), inbox_with(a.inbox_dedup, ack)), ())
                },
            }
        } else {
            match first_where(a.outboxes, delivery_acked_by(ack)) {
                None => Err(ErrorKind::Inconsistent),
                Some(i) => advance_or_fail(
                    with_inbox(
                        with_outboxes(a, a.outboxes.update(i, superseded_view(a.outboxes[i]))),
                        inbox_with(a.inbox_dedup, ack),
                    ),
                    (),
                ),
            }
        },
    }
}

/// The index of the first message acknowledged by `ack`, active protocol
/// messages only when `protocol_only` is set.
fn find_acknowledged(outboxes: &Vec<OutboxMessage>, ack: &InboxRecord, protocol_only: bool) -> (index: Option<usize>)
    ensures
        ({
            let s = outboxes@.map_values(|m: OutboxMessage| m@);
            let pred = if protocol_only { delivery_acked_by(ack@) } else { acknowledged_by(ack@) };
            &&& index matches Some(i) ==> i < outboxes@.len() && first_where(s, pred) == Some(i as int)
            &&& index is None ==> first_where(s, pred) is None
        }),
{
    let ghost s = outboxes@.map_values(|m: OutboxMessage| m@);
    let ghost pred = if protocol_only { delivery_acked_by(ack@) } else { acknowledged_by(ack@) };
    let mut i: usize = 0;
    while i < outboxes.len()
        invariant
            i <= outboxes@.len(),
            s == outboxes@.map_values(|m: OutboxMessage| m@),
            pred == (if protocol_only { delivery_acked_by(ack@) } else { acknowledged_by(ack@) }),
            crate::attempt::first_where_from(s, pred, 0) == crate::attempt::first_where_from(s, pred, i as int),
        decreases outboxes@.len() - i,
    {
        let m = &outboxes[i];
        let eligible = !protocol_only || (!m.superseded && (m.purpose == OutboxPurpose::JoinRequest
            || m.purpose == OutboxPurpose::Candidate || m.purpose == OutboxPurpose::Prepared
            || m.purpose == OutboxPurpose::Commit || m.purpose == OutboxPurpose::Applied));
        if eligible {
            let record = inbox_record(m);
            if crate::message::inbox_eq(&record, ack) {
                return Some(i);
            }
        }
        i = i + 1;
    }
    None
}

/// The recipient acknowledged that it saved a message; the message is
/// settled and the acknowledgment remembered.
pub fn acknowledge_delivery(
    loaded: Option<AdmissionAttempt>,
    acknowledgment: &InboxRecord,
) -> (result: Result<Step<()>, WorkspaceConvergenceError>)
    ensures
        step_matches(result, acknowledge_delivery_model(loaded_view(&loaded), acknowledgment@)),
{
    let mut attempt = match loaded {
        Some(a) => a,
        None => return Err(inconsistent("admission attempt was not found")),
    };
    if attempt.terminal_result == Some(TerminalResult::SupersededByNewJoin) {
        let index = match find_acknowledged(&attempt.outboxes, acknowledgment, false) {
            Some(i) => i,
            None => return Err(inconsistent("superseded delivery acknowledgment does not match an outbox")),
        };
        if attempt.outboxes[index].purpose == OutboxPurpose::CancelRequested {
            supersede_at(&mut attempt, index);
        }
        remember(&mut attempt, acknowledgment);
        let saved = advance_version(attempt)?;
        return Ok(Step { save: Some(saved), create: false, history: None, output: () });
    }
    let index = match find_acknowledged(&attempt.outboxes, acknowledgment, true) {
        Some(i) => i,
        None => return Err(inconsistent("delivery acknowledgment does not match an outbox")),
    };
    supersede_at(&mut attempt, index);
    remember(&mut attempt, acknowledgment);
    let saved = advance_version(attempt)?;
    Ok(Step { save: Some(saved), create: false, history: None, output: () })
}

} // verus!
