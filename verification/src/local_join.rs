//! The local join as the user sees it: starting a join that may replace an
//! earlier one, cancelling it, and the status of the current join.
use vstd::prelude::*;
use crate::attempt::{advance_version, empty_joiner_view, first_where, loaded_view, new_joiner, rank_at_least, rank_reaches, AdmissionAttempt, AdmissionRole, AttemptView, JoinerStage, TerminalResult};
use crate::bytes::{bytes_to_vec, cancel_requested_bytes, lit_cancel_requested, opt_bytes_view};
use crate::error::{inconsistent, WorkspaceConvergenceError};
use crate::joiner::{last_active_id, last_active_message_id};
use crate::joiner_reject::{supersede_all, supersede_every};
use crate::keys::JoinIdentity;
use crate::message::{outbound_message, outbound_view, MessageView, OutboxMessage, OutboxPurpose};
use crate::rejection::RejectionReason;
use crate::sponsor::{advance_or_fail, push_outbox};
use crate::sponsor_withdraw::last_where_below;
use crate::step::{answer, kind_of, step_matches, ErrorKind, Step, StepView};

verus! {

/// Whether the pending local join is too far along to be replaced: it has
/// reached the prepared stage.
pub open spec fn blocks_new_join(existing: Option<AttemptView>) -> bool {
    existing matches Some(e) && rank_at_least(e.role, 3)
}

/// Checks, after the space transition adapter accepted the source history,
/// that the pending local join (if any) may still be replaced.
pub fn check_join_source(existing: &Option<AdmissionAttempt>) -> (result: Result<(), WorkspaceConvergenceError>)
    ensures
        result is Ok <==> !blocks_new_join(loaded_view(existing)),
        result is Err ==> result->Err_0 is PreviousJoinCannotBeSuperseded,
{
    match existing {
        Some(e) => if rank_reaches(e.role, 3) {
            Err(WorkspaceConvergenceError::PreviousJoinCannotBeSuperseded)
        } else {
            Ok(())
        },
        None => Ok(()),
    }
}

/// The record of a new local join before the network is used.
pub open spec fn replacement_view(
    id: JoinIdentity,
    ordinal: u64,
    pending_state: Seq<u8>,
    key_package: Seq<u8>,
    member_instance: Seq<u8>,
    sponsor: Seq<u8>,
    continuation_address: Seq<u8>,
    request_payload: Seq<u8>,
    preserve: bool,
) -> AttemptView {
    AttemptView {
        local_join_ordinal: Some(ordinal),
        joiner_pending_security_state: Some(pending_state),
        candidate_key_package: Some(key_package),
        joiner_member_instance: Some(member_instance),
        resume_public_key: Some(id.resume_public_key@),
        resume_private_key: Some(id.resume_private_key@),
        preserve_unreadable_history: preserve,
        sponsor_continuation_address: if continuation_address.len() > 0 {
            Some(continuation_address)
        } else {
            None
        },
        outboxes: seq![outbound_view(id.attempt_id@, OutboxPurpose::JoinRequest, sponsor, None, request_payload)],
        ..empty_joiner_view(id.attempt_id@, id.join_id@, JoinerStage::Initiated)
    }
}

/// Builds the record of a new local join: the prepared group join's pending
/// state, key package and member instance, the fresh identities, and the join
/// request to the sponsor. A prepared join without a member instance is
/// refused.
pub fn replacement_record(
    id: &JoinIdentity,
    ordinal: u64,
    pending_state: &[u8],
    key_package: &[u8],
    member_instance: Option<[u8; 32]>,
    sponsor: &[u8],
    continuation_address: &[u8],
    request_payload: &[u8],
    preserve: bool,
) -> (result: Result<AdmissionAttempt, WorkspaceConvergenceError>)
    ensures
        member_instance is None <==> result is Err,
        result is Err ==> result->Err_0 is Inconsistent,
        result matches Ok(a) ==> member_instance matches Some(m) && a@ == replacement_view(
            *id,
            ordinal,
            pending_state@,
            key_package@,
            m@,
            sponsor@,
            continuation_address@,
            request_payload@,
            preserve,
        ),
{
    let instance = match member_instance {
        Some(m) => m,
        None => return Err(inconsistent("prepared join member instance is missing")),
    };
    let mut attempt = new_joiner(id.attempt_id, id.join_id, JoinerStage::Initiated);
    attempt.local_join_ordinal = Some(ordinal);
    attempt.joiner_pending_security_state = Some(bytes_to_vec(pending_state));
    attempt.candidate_key_package = Some(bytes_to_vec(key_package));
    attempt.joiner_member_instance = Some(instance);
    attempt.resume_public_key = Some(bytes_to_vec(id.resume_public_key.as_slice()));
    attempt.resume_private_key = Some(bytes_to_vec(id.resume_private_key.as_slice()));
    attempt.preserve_unreadable_history = preserve;
    attempt.sponsor_continuation_address = if continuation_address.len() > 0 {
        Some(bytes_to_vec(continuation_address))
    } else {
        None
    };
    let request = outbound_message(&id.attempt_id, OutboxPurpose::JoinRequest, sponsor, None, request_payload);
    push_outbox(&mut attempt, request);
    Ok(attempt)
}

/// A join request of the record.
pub open spec fn is_join_request() -> spec_fn(MessageView) -> bool {
    |m: MessageView| m.purpose == OutboxPurpose::JoinRequest
}

/// The predecessor of a replaced join's cleanup request: its last active
/// message, else its last join request.
pub open spec fn cleanup_predecessor(s: Seq<MessageView>) -> Option<Seq<u8>> {
    match last_where_below(s, |m: MessageView| !m.superseded, s.len() as int) {
        Some(i) => Some(s[i].message_id),
        None => match last_where_below(s, is_join_request(), s.len() as int) {
            Some(j) => Some(s[j].message_id),
            None => None,
        },
    }
}

/// The replaced join as a terminal record: every earlier message superseded
/// and the cleanup request queued for delivery.
pub open spec fn superseded_record(a: AttemptView, cleanup: MessageView) -> AttemptView {
    AttemptView {
        terminal_result: Some(TerminalResult::SupersededByNewJoin),
        outboxes: supersede_all(a.outboxes).push(cleanup),
        ..a
    }
}

/// The outcome of replacing the pending join `previous` by a new one: a
/// cleanup request to the same sponsor follows the last message of the old
/// join, and the old record becomes a terminal record one version up. Only a
/// pending joiner record that has not reached the prepared stage can be
/// replaced.
pub open spec fn supersede_model(previous: AttemptView) -> Result<AttemptView, ErrorKind> {
    match first_where(previous.outboxes, is_join_request()) {
        None => Err(ErrorKind::Inconsistent),
        Some(r) => if !(previous.role is Joiner) || previous.terminal_result is Some {
            Err(ErrorKind::RecoveryRequired)
        } else if rank_at_least(previous.role, 3) {
            Err(ErrorKind::PreviousJoinCannotBeSuperseded)
        } else if previous.record_version == u64::MAX {
            Err(ErrorKind::Inconsistent)
        } else {
            let cleanup = outbound_view(
                previous.attempt_id,
                OutboxPurpose::CancelRequested,
                previous.outboxes[r].recipient,
                cleanup_predecessor(previous.outboxes),
                lit_cancel_requested(),
            );
            Ok(crate::attempt::advanced(superseded_record(previous, cleanup)))
        },
    }
}

/// The index of the first join request.
fn first_join_request(outboxes: &Vec<OutboxMessage>) -> (index: Option<usize>)
    ensures
        index matches Some(i) ==> first_where(outboxes@.map_values(|m: OutboxMessage| m@), is_join_request())
            == Some(i as int) && i < outboxes@.len(),
        index is None ==> first_where(outboxes@.map_values(|m: OutboxMessage| m@), is_join_request()) is None,
{
    let ghost s = outboxes@.map_values(|m: OutboxMessage| m@);
    let mut i: usize = 0;
    while i < outboxes.len()
        invariant
            i <= outboxes@.len(),
            s == outboxes@.map_values(|m: OutboxMessage| m@),
            crate::attempt::first_where_from(s, is_join_request(), 0) == crate::attempt::first_where_from(
                s,
                is_join_request(),
                i as int,
            ),
        decreases outboxes@.len() - i,
    {
        if outboxes[i].purpose == OutboxPurpose::JoinRequest {
            return Some(i);
        }
        i = i + 1;
    }
    None
}

/// The identifier of the last join request.
fn last_join_request_id(outboxes: &Vec<OutboxMessage>) -> (id: Option<[u8; 32]>)
    ensures
        crate::bytes::opt_id_view(id) == (match last_where_below(
            outboxes@.map_values(|m: OutboxMessage| m@),
            is_join_request(),
            outboxes@.len() as int,
        ) {
            Some(j) => Some(outboxes@.map_values(|m: OutboxMessage| m@)[j].message_id),
            None => None,
        }),
{
    let ghost s = outboxes@.map_values(|m: OutboxMessage| m@);
    let ghost pred = is_join_request();
    let mut end: usize = outboxes.len();
    while end > 0
        invariant
            end <= outboxes@.len(),
            s == outboxes@.map_values(|m: OutboxMessage| m@),
            pred == is_join_request(),
            last_where_below(s, pred, s.len() as int) == last_where_below(s, pred, end as int),
        decreases end,
    {
        if outboxes[end - 1].purpose == OutboxPurpose::JoinRequest {
            assert(s[end - 1] == outboxes@[end - 1]@);
            return Some(outboxes[end - 1].message_id);
        }
        end = end - 1;
    }
    None
}

/// The predecessor of a replaced join's cleanup request.
fn cleanup_predecessor_id(outboxes: &Vec<OutboxMessage>) -> (id: Option<[u8; 32]>)
    ensures
        crate::bytes::opt_id_view(id) == cleanup_predecessor(outboxes@.map_values(|m: OutboxMessage| m@)),
{
    let ghost s = outboxes@.map_values(|m: OutboxMessage| m@);
    proof {
        assert(crate::joiner::active_message() =~= (|m: MessageView| !m.superseded));
    }
    match last_active_message_id(outboxes) {
        Some(id) => Some(id),
        None => last_join_request_id(outboxes),
    }
}

/// Makes the record a replaced join carrying `cleanup`.
fn mark_superseded(attempt: &mut AdmissionAttempt, cleanup: OutboxMessage)
    ensures
        final(attempt)@ == superseded_record(old(attempt)@, cleanup@),
{
    attempt.terminal_result = Some(TerminalResult::SupersededByNewJoin);
    supersede_every(attempt);
    push_outbox(attempt, cleanup);
}

/// What replacing a pending join saves for the old one: the terminal record,
/// written only if the store still holds the old record at the given
/// version.
#[derive(Debug)]
pub struct SupersedePrevious {
    pub expected_previous_attempt_id: [u8; 32],
    pub expected_previous_record_version: u64,
    pub previous_terminal: AdmissionAttempt,
}

/// Replaces the pending join `previous`: its terminal record carries a
/// cleanup request for the old sponsor.
pub fn supersede_previous(previous: AdmissionAttempt) -> (result: Result<SupersedePrevious, WorkspaceConvergenceError>)
    ensures
        match (result, supersede_model(previous@)) {
            (Ok(s), Ok(w)) => s.previous_terminal@ == w && s.expected_previous_attempt_id@ == previous@.attempt_id
                && s.expected_previous_record_version == previous@.record_version,
            (Err(e), Err(k)) => kind_of(e) == k,
            _ => false,
        },
{
    let mut previous = previous;
    let r = match first_join_request(&previous.outboxes) {
        Some(i) => i,
        None => return Err(inconsistent("previous join request recipient is missing")),
    };
    let is_joiner = match previous.role {
        AdmissionRole::Joiner(_) => true,
        _ => false,
    };
    if !is_joiner || previous.terminal_result.is_some() {
        return Err(WorkspaceConvergenceError::RecoveryRequired);
    }
    if rank_reaches(previous.role, 3) {
        return Err(WorkspaceConvergenceError::PreviousJoinCannotBeSuperseded);
    }
    let recipient = bytes_to_vec(previous.outboxes[r].recipient.as_slice());
    let predecessor = cleanup_predecessor_id(&previous.outboxes);
    let payload = cancel_requested_bytes();
    let cleanup = outbound_message(
        &previous.attempt_id,
        OutboxPurpose::CancelRequested,
        recipient.as_slice(),
        predecessor,
        payload.as_slice(),
    );
    let expected_previous_attempt_id = previous.attempt_id;
    let expected_previous_record_version = previous.record_version;
    mark_superseded(&mut previous, cleanup);
    let previous_terminal = advance_version(previous)?;
    Ok(SupersedePrevious { expected_previous_attempt_id, expected_previous_record_version, previous_terminal })
}

/// The identifier of the join request of a started join.
pub fn request_message_id(attempt: &AdmissionAttempt) -> (result: Result<[u8; 32], WorkspaceConvergenceError>)
    ensures
        match first_where(attempt@.outboxes, is_join_request()) {
            Some(i) => result matches Ok(id) && id@ == attempt@.outboxes[i].message_id,
            None => result matches Err(e) && e is Inconsistent,
        },
{
    match first_join_request(&attempt.outboxes) {
        Some(i) => Ok(attempt.outboxes[i].message_id),
        None => Err(inconsistent("durable join request outbox is missing")),
    }
}

/// What the store projects as the current local join.
#[derive(Debug, Clone)]
pub struct JoinProjection {
    pub attempt_id: [u8; 32],
    pub join_id: [u8; 16],
    pub terminal_result: Option<TerminalResult>,
    pub rejection_reason: Option<RejectionReason>,
}

/// The record after the user asked to cancel the pending join.
pub open spec fn cancelled_record(a: AttemptView, cancel: MessageView) -> AttemptView {
    AttemptView { cancel_request: Some(lit_cancel_requested()), outboxes: a.outboxes.push(cancel), ..a }
}

/// The outcome of the user cancelling the local join `join_id`: only the
/// current join can be cancelled; a finished join or an existing cancel
/// request changes nothing; otherwise a cancel request to the sponsor follows
/// the last active message. The status is then read again.
pub open spec fn cancel_join_model(
    projection: Option<JoinProjection>,
    join_id: Seq<u8>,
    loaded: Option<AttemptView>,
) -> Result<StepView<()>, ErrorKind> {
    match projection {
        None => Err(ErrorKind::JoinNotFound),
        Some(p) => if p.join_id@ != join_id {
            Err(ErrorKind::JoinNotFound)
        } else if p.terminal_result is Some {
            Ok(answer(()))
        } else {
            match loaded {
                None => Err(ErrorKind::Inconsistent),
                Some(a) => if a.cancel_request is Some {
                    Ok(answer(()))
                } else {
                    match first_where(a.outboxes, is_join_request()) {
                        None => Err(ErrorKind::Inconsistent),
                        Some(r) => {
                            let cancel = outbound_view(
                                p.attempt_id@,
                                OutboxPurpose::CancelRequested,
                                a.outboxes[r].recipient,
                                last_active_id(a.outboxes),
                                lit_cancel_requested(),
                            );
                            advance_or_fail(cancelled_record(a, cancel), ())
                        },
                    }
                },
            }
        },
    }
}

/// The user cancels the local join `join_id`. `loaded` is the record of the
/// projected join when that join is still pending.
pub fn cancel_join_space(
    projection: &Option<JoinProjection>,
    join_id: &[u8; 16],
    loaded: Option<AdmissionAttempt>,
) -> (result: Result<Step<()>, WorkspaceConvergenceError>)
    ensures
        step_matches(result, cancel_join_model(*projection, join_id@, loaded_view(&loaded))),
{
    let p = match projection {
        Some(p) => p,
        None => return Err(WorkspaceConvergenceError::JoinNotFound),
    };
    if !crate::bytes::bytes_eq(p.join_id.as_slice(), join_id.as_slice()) {
        return Err(WorkspaceConvergenceError::JoinNotFound);
    }
    if p.terminal_result.is_some() {
        return Ok(Step { save: None, create: false, history: None, output: () });
    }
    let mut attempt = match loaded {
        Some(a) => a,
        None => return Err(inconsistent("current local join attempt is missing")),
    };
    if attempt.cancel_request.is_some() {
        return Ok(Step { save: None, create: false, history: None, output: () });
    }
    let r = match first_join_request(&attempt.outboxes) {
        Some(i) => i,
        None => return Err(inconsistent("local join request recipient is missing")),
    };
    let recipient = bytes_to_vec(attempt.outboxes[r].recipient.as_slice());
    let predecessor = last_active_message_id(&attempt.outboxes);
    let payload = cancel_requested_bytes();
    let cancel = outbound_message(
        &p.attempt_id,
        OutboxPurpose::CancelRequested,
        recipient.as_slice(),
        predecessor,
        payload.as_slice(),
    );
    attempt.cancel_request = Some(payload);
    push_outbox(&mut attempt, cancel);
    let saved = advance_version(attempt)?;
    Ok(Step { save: Some(saved), create: false, history: None, output: () })
}

/// The identity facts bound into an admission.
#[derive(Debug, Clone)]
pub struct IdentityBinding {
    pub lineage_id: String,
    pub sponsor_device_id: String,
    pub sponsor_identity_fingerprint: String,
    pub joiner_device_id: String,
    pub joiner_identity_fingerprint: String,
}

/// What decoding a saved identity binding gave.
#[derive(Debug, Clone)]
pub enum BindingDecode {
    /// Nothing was decoded.
    Absent,
    /// The saved bytes are not an identity binding.
    Invalid,
    Decoded(IdentityBinding),
}

/// What a finished space transition reports about the records it carried.
#[derive(Debug, Clone, Copy, PartialEq, Eq, Structural)]
pub enum TransitionSummary {
    /// Records moved from another workspace.
    CrossSpace { migrated_records: u64, preserved_unreadable_records: u64 },
    /// A fresh device had nothing to move.
    Fresh,
    /// The device already belonged to the workspace.
    SameSpace,
}

/// The workspace a finished local join made the device a member of.
#[derive(Debug, Clone)]
pub struct JoinedSpace {
    pub sponsor_device_id: String,
    pub sponsor_identity_fingerprint: String,
    pub space_id: String,
    pub self_device_id: String,
    pub self_identity_fingerprint: String,
    pub migrated_records: Option<u64>,
    pub preserved_unreadable_records: Option<u64>,
}

/// The status of the current local join.
#[derive(Debug, Clone)]
pub enum CurrentJoinStatus {
    Pending {
        join_id: [u8; 16],
        target_space_id: Option<String>,
        sponsor_device_id: Option<String>,
        sponsor_identity_fingerprint: Option<String>,
        cancel_requested: bool,
    },
    Rejected { join_id: [u8; 16], reason: RejectionReason },
    Active { join_id: [u8; 16], joined_space: JoinedSpace },
}

/// The mathematical value of a joined workspace.
pub struct JoinedView {
    pub sponsor_device_id: Seq<char>,
    pub sponsor_identity_fingerprint: Seq<char>,
    pub space_id: Seq<char>,
    pub self_device_id: Seq<char>,
    pub self_identity_fingerprint: Seq<char>,
    pub migrated_records: Option<u64>,
    pub preserved_unreadable_records: Option<u64>,
}

/// The mathematical value of a join status.
pub enum StatusView {
    Pending {
        join_id: Seq<u8>,
        target_space_id: Option<Seq<char>>,
        sponsor_device_id: Option<Seq<char>>,
        sponsor_identity_fingerprint: Option<Seq<char>>,
        cancel_requested: bool,
    },
    Rejected { join_id: Seq<u8>, reason: RejectionReason },
    Active { join_id: Seq<u8>, joined_space: JoinedView },
}

impl View for JoinedSpace {
    type V = JoinedView;

    open spec fn view(&self) -> JoinedView {
        JoinedView {
            sponsor_device_id: self.sponsor_device_id@,
            sponsor_identity_fingerprint: self.sponsor_identity_fingerprint@,
            space_id: self.space_id@,
            self_device_id: self.self_device_id@,
            self_identity_fingerprint: self.self_identity_fingerprint@,
            migrated_records: self.migrated_records,
            preserved_unreadable_records: self.preserved_unreadable_records,
        }
    }
}

impl View for CurrentJoinStatus {
    type V = StatusView;

    open spec fn view(&self) -> StatusView {
        match self {
            CurrentJoinStatus::Pending {
                join_id,
                target_space_id,
                sponsor_device_id,
                sponsor_identity_fingerprint,
                cancel_requested,
            } => StatusView::Pending {
                join_id: join_id@,
                target_space_id: crate::attempt::opt_string_view(target_space_id),
                sponsor_device_id: crate::attempt::opt_string_view(sponsor_device_id),
                sponsor_identity_fingerprint: crate::attempt::opt_string_view(sponsor_identity_fingerprint),
                cancel_requested: *cancel_requested,
            },
            CurrentJoinStatus::Rejected { join_id, reason } => StatusView::Rejected {
                join_id: join_id@,
                reason: *reason,
            },
            CurrentJoinStatus::Active { join_id, joined_space } => StatusView::Active {
                join_id: join_id@,
                joined_space: joined_space@,
            },
        }
    }
}

/// The record counts a transition summary reports.
pub open spec fn summary_counts(summary: Option<TransitionSummary>) -> (Option<u64>, Option<u64>) {
    match summary {
        Some(TransitionSummary::CrossSpace { migrated_records, preserved_unreadable_records }) => (
            Some(migrated_records),
            Some(preserved_unreadable_records),
        ),
        Some(TransitionSummary::SameSpace) => (Some(0u64), Some(0u64)),
        Some(TransitionSummary::Fresh) | None => (None, None),
    }
}

/// The status of the current local join. A pending join shows its target and
/// sponsor as far as they are known; a rejected one its reason; an active one
/// the workspace it joined, from its compacted record. `binding` is the
/// decoded identity binding of the pending record or of the compacted record;
/// `summary` is the decoded transition result of the compacted record, when it
/// has one that decodes.
pub open spec fn current_join_model(
    projection: Option<JoinProjection>,
    pending: Option<AttemptView>,
    terminal_binding: Option<Seq<u8>>,
    terminal_loaded: bool,
    binding: BindingDecode,
    summary: Option<TransitionSummary>,
) -> Result<Option<StatusView>, ErrorKind> {
    match projection {
        None => Ok(None),
        Some(p) => match p.terminal_result {
            None => match pending {
                None => Err(ErrorKind::Inconsistent),
                Some(a) => {
                    let status = |device: Option<Seq<char>>, fingerprint: Option<Seq<char>>| StatusView::Pending {
                        join_id: p.join_id@,
                        target_space_id: a.lineage_id,
                        sponsor_device_id: device,
                        sponsor_identity_fingerprint: fingerprint,
                        cancel_requested: a.cancel_request is Some,
                    };
                    match a.identity_binding {
                        None => Ok(Some(status(None, None))),
                        Some(_) => match binding {
                            BindingDecode::Decoded(b) => Ok(
                                Some(status(Some(b.sponsor_device_id@), Some(b.sponsor_identity_fingerprint@))),
                            ),
                            _ => Err(ErrorKind::Inconsistent),
                        },
                    }
                },
            },
            Some(TerminalResult::Rejected) => match p.rejection_reason {
                None => Err(ErrorKind::Inconsistent),
                Some(reason) => Ok(Some(StatusView::Rejected { join_id: p.join_id@, reason })),
            },
            Some(TerminalResult::Active) => if !terminal_loaded || terminal_binding is None {
                Err(ErrorKind::Inconsistent)
            } else {
                match binding {
                    BindingDecode::Decoded(b) => Ok(
                        Some(
                            StatusView::Active {
                                join_id: p.join_id@,
                                joined_space: JoinedView {
                                    sponsor_device_id: b.sponsor_device_id@,
                                    sponsor_identity_fingerprint: b.sponsor_identity_fingerprint@,
                                    space_id: b.lineage_id@,
                                    self_device_id: b.joiner_device_id@,
                                    self_identity_fingerprint: b.joiner_identity_fingerprint@,
                                    migrated_records: summary_counts(summary).0,
                                    preserved_unreadable_records: summary_counts(summary).1,
                                },
                            },
                        ),
                    ),
                    _ => Err(ErrorKind::Inconsistent),
                }
            },
            Some(TerminalResult::Completed) | Some(TerminalResult::SupersededByNewJoin) => Err(
                ErrorKind::Inconsistent,
            ),
        },
    }
}

/// A copy of an optional string.
fn clone_opt_string(o: &Option<String>) -> (copy: Option<String>)
    ensures
        crate::attempt::opt_string_view(&copy) == crate::attempt::opt_string_view(o),
{
    match o {
        Some(s) => Some(s.clone()),
        None => None,
    }
}

/// The status of the current local join, from the store's projection and the
/// records it points to.
pub fn current_local_join(
    projection: &Option<JoinProjection>,
    pending: &Option<AdmissionAttempt>,
    terminal: Option<&crate::attempt::CompactedAttempt>,
    binding: &BindingDecode,
    summary: Option<TransitionSummary>,
) -> (result: Result<Option<CurrentJoinStatus>, WorkspaceConvergenceError>)
    ensures
        match (
            result,
            current_join_model(
                *projection,
                loaded_view(pending),
                match terminal {
                    Some(t) => opt_bytes_view(&t.identity_binding),
                    None => None,
                },
                terminal is Some,
                *binding,
                summary,
            ),
        ) {
            (Ok(Some(s)), Ok(Some(w))) => s@ == w,
            (Ok(None), Ok(None)) => true,
            (Err(e), Err(k)) => kind_of(e) == k,
            _ => false,
        },
{
    let p = match projection {
        Some(p) => p,
        None => return Ok(None),
    };
    match p.terminal_result {
        None => {
            let a = match pending {
                Some(a) => a,
                None => return Err(inconsistent("current local join attempt is missing")),
            };
            let (device, fingerprint) = match &a.identity_binding {
                None => (None, None),
                Some(_) => match binding {
                    BindingDecode::Decoded(b) => (
                        Some(b.sponsor_device_id.clone()),
                        Some(b.sponsor_identity_fingerprint.clone()),
                    ),
                    _ => return Err(inconsistent("current local join identity binding is invalid")),
                },
            };
            Ok(
                Some(
                    CurrentJoinStatus::Pending {
                        join_id: p.join_id,
                        target_space_id: clone_opt_string(&a.lineage_id),
                        sponsor_device_id: device,
                        sponsor_identity_fingerprint: fingerprint,
                        cancel_requested: a.cancel_request.is_some(),
                    },
                ),
            )
        },
        Some(TerminalResult::Rejected) => match p.rejection_reason {
            None => Err(inconsistent("rejected local join reason is missing")),
            Some(reason) => Ok(Some(CurrentJoinStatus::Rejected { join_id: p.join_id, reason })),
        },
        Some(TerminalResult::Active) => {
            let t = match terminal {
                Some(t) => t,
                None => return Err(inconsistent("active local join terminal is missing")),
            };
            if t.identity_binding.is_none() {
                return Err(inconsistent("active local join identity is missing"));
            }
            let b = match binding {
                BindingDecode::Decoded(b) => b,
                _ => return Err(inconsistent("active local join identity binding is invalid")),
            };
            let (migrated_records, preserved_unreadable_records) = match summary {
                Some(TransitionSummary::CrossSpace { migrated_records, preserved_unreadable_records }) => (
                    Some(migrated_records),
                    Some(preserved_unreadable_records),
                ),
                Some(TransitionSummary::SameSpace) => (Some(0u64), Some(0u64)),
                Some(TransitionSummary::Fresh) | None => (None, None),
            };
            Ok(
                Some(
                    CurrentJoinStatus::Active {
                        join_id: p.join_id,
                        joined_space: JoinedSpace {
                            sponsor_device_id: b.sponsor_device_id.clone(),
                            sponsor_identity_fingerprint: b.sponsor_identity_fingerprint.clone(),
                            space_id: b.lineage_id.clone(),
                            self_device_id: b.joiner_device_id.clone(),
                            self_identity_fingerprint: b.joiner_identity_fingerprint.clone(),
                            migrated_records,
                            preserved_unreadable_records,
                        },
                    },
                ),
            )
        },
        Some(TerminalResult::Completed) => Err(
            inconsistent("local join terminal has a sponsor-only completion result"),
        ),
        Some(TerminalResult::SupersededByNewJoin) => Err(
            inconsistent("superseded local join was selected as the current join"),
        ),
    }
}

/// What a version conflict during a local join start leaves to do: with no
/// pending join any more another start won; a pending join that reached the
/// prepared stage can no longer be replaced; otherwise the start is tried
/// again (`Ok`).
pub fn after_start_conflict(conflicting: &Option<AdmissionAttempt>) -> (result: Result<(), WorkspaceConvergenceError>)
    ensures
        conflicting is None ==> result == Err::<(), WorkspaceConvergenceError>(
            WorkspaceConvergenceError::AdmissionInProgress,
        ),
        conflicting matches Some(c) ==> (rank_at_least(c.role, 3) ==> result == Err::<
            (),
            WorkspaceConvergenceError,
        >(WorkspaceConvergenceError::PreviousJoinCannotBeSuperseded)) && (!rank_at_least(c.role, 3)
            ==> result is Ok),
{
    match conflicting {
        None => Err(WorkspaceConvergenceError::AdmissionInProgress),
        Some(c) => if rank_reaches(c.role, 3) {
            Err(WorkspaceConvergenceError::PreviousJoinCannotBeSuperseded)
        } else {
            Ok(())
        },
    }
}

} // verus!
