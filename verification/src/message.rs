//! Durable admission messages: their purposes, the identifier that binds a
//! message to its attempt, purpose, predecessor, recipient and payload, and
//! the acknowledgment record that a receiver keeps of it.
use vstd::prelude::*;
use crate::bytes::{
    ack_domain, be64, bytes_eq, bytes_to_vec, id_eq, message_domain, opt_id_eq, opt_id_view, push_ack_domain,
    push_all, push_be64, push_message_domain, sha256, sha256_digest, zero_id,
};
use crate::error::{inconsistent, WorkspaceConvergenceError};

verus! {

/// What an admission message asks its recipient to do.
#[derive(Debug, Clone, Copy, PartialEq, Eq, Structural)]
pub enum OutboxPurpose {
    JoinRequest,
    Candidate,
    Prepared,
    Commit,
    Applied,
    Complete,
    Rejected,
    CancelRequested,
    InvitationConsume,
    ExistingMemberSecurityUpdate,
    HistoryOrReceiptBatch,
}

/// The byte that stands for a purpose inside a message identifier.
pub open spec fn purpose_code(purpose: OutboxPurpose) -> u8 {
    match purpose {
        OutboxPurpose::JoinRequest => 0,
        OutboxPurpose::Candidate => 1,
        OutboxPurpose::Prepared => 2,
        OutboxPurpose::Commit => 3,
        OutboxPurpose::Applied => 4,
        OutboxPurpose::Complete => 5,
        OutboxPurpose::Rejected => 6,
        OutboxPurpose::CancelRequested => 7,
        OutboxPurpose::InvitationConsume => 8,
        OutboxPurpose::ExistingMemberSecurityUpdate => 9,
        OutboxPurpose::HistoryOrReceiptBatch => 10,
    }
}

/// The byte that stands for `purpose` inside a message identifier.
pub fn purpose_byte(purpose: OutboxPurpose) -> (code: u8)
    ensures
        code == purpose_code(purpose),
{
    match purpose {
        OutboxPurpose::JoinRequest => 0,
        OutboxPurpose::Candidate => 1,
        OutboxPurpose::Prepared => 2,
        OutboxPurpose::Commit => 3,
        OutboxPurpose::Applied => 4,
        OutboxPurpose::Complete => 5,
        OutboxPurpose::Rejected => 6,
        OutboxPurpose::CancelRequested => 7,
        OutboxPurpose::InvitationConsume => 8,
        OutboxPurpose::ExistingMemberSecurityUpdate => 9,
        OutboxPurpose::HistoryOrReceiptBatch => 10,
    }
}

/// A durable admission message, kept in the sender's outbox until the
/// recipient's acknowledgment supersedes it.
#[derive(Debug, Clone, PartialEq, Eq)]
pub struct OutboxMessage {
    pub purpose: OutboxPurpose,
    pub recipient: Vec<u8>,
    pub message_id: [u8; 32],
    pub predecessor_message_id: Option<[u8; 32]>,
    pub payload: Vec<u8>,
    pub superseded: bool,
}

/// The mathematical value of an admission message.
pub struct MessageView {
    pub purpose: OutboxPurpose,
    pub recipient: Seq<u8>,
    pub message_id: Seq<u8>,
    pub predecessor: Option<Seq<u8>>,
    pub payload: Seq<u8>,
    pub superseded: bool,
}

impl View for OutboxMessage {
    type V = MessageView;

    open spec fn view(&self) -> MessageView {
        MessageView {
            purpose: self.purpose,
            recipient: self.recipient@,
            message_id: self.message_id@,
            predecessor: opt_id_view(self.predecessor_message_id),
            payload: self.payload@,
            superseded: self.superseded,
        }
    }
}

/// The record a receiver keeps of a message it has accepted; it doubles as
/// the acknowledgment the receiver sends back.
#[derive(Debug, Clone, PartialEq, Eq)]
pub struct InboxRecord {
    pub message_id: [u8; 32],
    pub payload_digest: [u8; 32],
    pub acknowledgment_payload: Vec<u8>,
}

/// The mathematical value of an inbox record.
pub struct InboxView {
    pub message_id: Seq<u8>,
    pub payload_digest: Seq<u8>,
    pub acknowledgment_payload: Seq<u8>,
}

impl View for InboxRecord {
    type V = InboxView;

    open spec fn view(&self) -> InboxView {
        InboxView {
            message_id: self.message_id@,
            payload_digest: self.payload_digest@,
            acknowledgment_payload: self.acknowledgment_payload@,
        }
    }
}

/// The bytes whose SHA-256 digest identifies a message: the framing domain,
/// the attempt, the purpose byte, the predecessor (32 zero bytes when there is
/// none), then the length-prefixed recipient and payload.
pub open spec fn message_preimage(
    attempt_id: Seq<u8>,
    purpose: OutboxPurpose,
    recipient: Seq<u8>,
    predecessor: Option<Seq<u8>>,
    payload: Seq<u8>,
) -> Seq<u8> {
    message_domain() + attempt_id + seq![purpose_code(purpose)] + match predecessor {
        Some(p) => p,
        None => zero_id(),
    } + be64(recipient.len() as u64) + recipient + be64(payload.len() as u64) + payload
}

/// The message that `outbound_message` builds from these inputs.
pub open spec fn outbound_view(
    attempt_id: Seq<u8>,
    purpose: OutboxPurpose,
    recipient: Seq<u8>,
    predecessor: Option<Seq<u8>>,
    payload: Seq<u8>,
) -> MessageView {
    MessageView {
        purpose,
        recipient,
        message_id: sha256_digest(
            message_preimage(attempt_id, purpose, recipient, predecessor, payload),
        ),
        predecessor,
        payload,
        superseded: false,
    }
}

/// The acknowledgment record of a message.
pub open spec fn inbox_view_of(message: MessageView) -> InboxView {
    InboxView {
        message_id: message.message_id,
        payload_digest: sha256_digest(message.payload),
        acknowledgment_payload: sha256_digest(
            ack_domain() + message.message_id + sha256_digest(message.payload),
        ),
    }
}

/// The bytes whose digest identifies a message.
pub fn message_preimage_bytes(
    attempt_id: &[u8; 32],
    purpose: OutboxPurpose,
    recipient: &[u8],
    predecessor_message_id: &Option<[u8; 32]>,
    payload: &[u8],
) -> (preimage: Vec<u8>)
    ensures
        preimage@ == message_preimage(attempt_id@, purpose, recipient@, opt_id_view(*predecessor_message_id), payload@),
{
    let mut preimage: Vec<u8> = Vec::new();
    push_message_domain(&mut preimage);
    push_all(&mut preimage, attempt_id.as_slice());
    preimage.push(purpose_byte(purpose));
    match predecessor_message_id {
        Some(p) => push_all(&mut preimage, p.as_slice()),
        None => {
            let zeros = [0u8; 32];
            assert(zeros@ =~= zero_id());
            push_all(&mut preimage, zeros.as_slice());
        },
    }
    push_be64(&mut preimage, recipient.len() as u64);
    push_all(&mut preimage, recipient);
    push_be64(&mut preimage, payload.len() as u64);
    push_all(&mut preimage, payload);
    assert(preimage@ =~= message_preimage(
        attempt_id@,
        purpose,
        recipient@,
        opt_id_view(*predecessor_message_id),
        payload@,
    ));
    preimage
}

/// Builds the durable message for an attempt; its identifier binds every
/// other field.
pub fn outbound_message(
    attempt_id: &[u8; 32],
    purpose: OutboxPurpose,
    recipient: &[u8],
    predecessor_message_id: Option<[u8; 32]>,
    payload: &[u8],
) -> (message: OutboxMessage)
    ensures
        message@ == outbound_view(
            attempt_id@,
            purpose,
            recipient@,
            opt_id_view(predecessor_message_id),
            payload@,
        ),
{
    let preimage = message_preimage_bytes(attempt_id, purpose, recipient, &predecessor_message_id, payload);
    let message_id = sha256(preimage.as_slice());
    OutboxMessage {
        purpose,
        recipient: bytes_to_vec(recipient),
        message_id,
        predecessor_message_id,
        payload: bytes_to_vec(payload),
        superseded: false,
    }
}

/// The acknowledgment record of `message`.
pub fn inbox_record(message: &OutboxMessage) -> (record: InboxRecord)
    ensures
        record@ == inbox_view_of(message@),
{
    let payload_digest = sha256(message.payload.as_slice());
    let mut preimage: Vec<u8> = Vec::new();
    push_ack_domain(&mut preimage);
    push_all(&mut preimage, message.message_id.as_slice());
    push_all(&mut preimage, payload_digest.as_slice());
    let acknowledgment = sha256(preimage.as_slice());
    InboxRecord {
        message_id: message.message_id,
        payload_digest,
        acknowledgment_payload: bytes_to_vec(acknowledgment.as_slice()),
    }
}

/// Whether two messages are equal.
pub fn message_eq(a: &OutboxMessage, b: &OutboxMessage) -> (equal: bool)
    ensures
        equal == (a@ == b@),
{
    a.purpose == b.purpose && bytes_eq(a.recipient.as_slice(), b.recipient.as_slice()) && id_eq(
        &a.message_id,
        &b.message_id,
    ) && opt_id_eq(&a.predecessor_message_id, &b.predecessor_message_id) && bytes_eq(
        a.payload.as_slice(),
        b.payload.as_slice(),
    ) && a.superseded == b.superseded
}

/// Whether two inbox records are equal.
pub fn inbox_eq(a: &InboxRecord, b: &InboxRecord) -> (equal: bool)
    ensures
        equal == (a@ == b@),
{
    id_eq(&a.message_id, &b.message_id) && id_eq(&a.payload_digest, &b.payload_digest)
        && bytes_eq(a.acknowledgment_payload.as_slice(), b.acknowledgment_payload.as_slice())
}

/// Accepts `message` only if it is exactly the message this attempt would
/// build for `purpose` and `predecessor` from the message's own recipient and
/// payload.
pub fn require_message(
    attempt_id: &[u8; 32],
    message: &OutboxMessage,
    purpose: OutboxPurpose,
    predecessor: Option<[u8; 32]>,
) -> (result: Result<(), WorkspaceConvergenceError>)
    ensures
        result is Ok <==> message@ == outbound_view(
            attempt_id@,
            purpose,
            message.recipient@,
            opt_id_view(predecessor),
            message.payload@,
        ),
        result is Err ==> result->Err_0 is Inconsistent,
{
    let expected = outbound_message(
        attempt_id,
        purpose,
        message.recipient.as_slice(),
        predecessor,
        message.payload.as_slice(),
    );
    if message_eq(message, &expected) {
        Ok(())
    } else {
        Err(inconsistent("admission message is out of order"))
    }
}

} // verus!
