use sha2::{Digest, Sha256};
use space_convergence::message::{inbox_record, message_preimage_bytes, outbound_message, require_message, OutboxPurpose};
use space_convergence::rejection::{decode_rejection_reason, encode_rejection_payload, RejectionReason};

fn expected_id(attempt: &[u8; 32], purpose: u8, predecessor: Option<[u8; 32]>, recipient: &[u8], payload: &[u8]) -> [u8; 32] {
    let mut hasher = Sha256::new();
    hasher.update(b"uniclipboard/admission-message/v1\0");
    hasher.update(attempt);
    hasher.update([purpose]);
    hasher.update(predecessor.unwrap_or([0; 32]));
    hasher.update((recipient.len() as u64).to_be_bytes());
    hasher.update(recipient);
    hasher.update((payload.len() as u64).to_be_bytes());
    hasher.update(payload);
    hasher.finalize().into()
}

#[test]
fn message_identifier_binds_every_field() {
    let attempt = [7u8; 32];
    let message = outbound_message(&attempt, OutboxPurpose::Candidate, b"joiner", Some([9; 32]), b"payload");
    assert_eq!(message.message_id, expected_id(&attempt, 1, Some([9; 32]), b"joiner", b"payload"));
    assert_eq!(message.recipient, b"joiner".to_vec());
    assert_eq!(message.payload, b"payload".to_vec());
    assert_eq!(message.predecessor_message_id, Some([9; 32]));
    assert!(!message.superseded);

    let request = outbound_message(&attempt, OutboxPurpose::JoinRequest, b"sponsor", None, b"");
    assert_eq!(request.message_id, expected_id(&attempt, 0, None, b"sponsor", b""));
    let other = outbound_message(&attempt, OutboxPurpose::JoinRequest, b"sponsor", None, b"x");
    assert_ne!(request.message_id, other.message_id);
}

#[test]
fn acknowledgment_record_binds_the_message_and_payload() {
    let message = outbound_message(&[1; 32], OutboxPurpose::Commit, b"joiner", Some([2; 32]), b"commit");
    let record = inbox_record(&message);
    let payload_digest: [u8; 32] = Sha256::digest(b"commit").into();
    let mut hasher = Sha256::new();
    hasher.update(b"uniclipboard/admission-message-ack/v1\0");
    hasher.update(message.message_id);
    hasher.update(payload_digest);
    assert_eq!(record.message_id, message.message_id);
    assert_eq!(record.payload_digest, payload_digest);
    assert_eq!(record.acknowledgment_payload, hasher.finalize().to_vec());
}

#[test]
fn only_the_exact_message_is_accepted() {
    let attempt = [3u8; 32];
    let message = outbound_message(&attempt, OutboxPurpose::Prepared, b"sponsor", Some([4; 32]), b"proof");
    assert!(require_message(&attempt, &message, OutboxPurpose::Prepared, Some([4; 32])).is_ok());
    assert!(require_message(&attempt, &message, OutboxPurpose::Commit, Some([4; 32])).is_err());
    assert!(require_message(&attempt, &message, OutboxPurpose::Prepared, Some([5; 32])).is_err());
    assert!(require_message(&[8; 32], &message, OutboxPurpose::Prepared, Some([4; 32])).is_err());
    let mut tampered = message.clone();
    tampered.payload = b"other".to_vec();
    assert!(require_message(&attempt, &tampered, OutboxPurpose::Prepared, Some([4; 32])).is_err());
    let mut superseded = message.clone();
    superseded.superseded = true;
    assert!(require_message(&attempt, &superseded, OutboxPurpose::Prepared, Some([4; 32])).is_err());
}

#[test]
fn rejection_payload_round_trips_and_matches_the_wire_layout() {
    let payload = encode_rejection_payload(RejectionReason::BaseHistoryChanged, b"base_history_changed");
    let wire = postcard::to_stdvec(&(6u32, b"base_history_changed".to_vec())).unwrap();
    assert_eq!(payload, wire);
    assert_eq!(decode_rejection_reason(&payload), Ok(RejectionReason::BaseHistoryChanged));

    let long_detail = vec![0xab; 300];
    let long = encode_rejection_payload(RejectionReason::Cancelled, &long_detail);
    assert_eq!(long, postcard::to_stdvec(&(7u32, long_detail.clone())).unwrap());
    assert_eq!(decode_rejection_reason(&long), Ok(RejectionReason::Cancelled));
}

#[test]
fn malformed_rejection_payloads_are_refused() {
    assert!(decode_rejection_reason(b"").is_err());
    assert!(decode_rejection_reason(&[42, 0]).is_err());
    assert!(decode_rejection_reason(&[7]).is_err());
    assert!(decode_rejection_reason(&[7, 3, 1, 2]).is_err());
    assert!(decode_rejection_reason(b"cleanup-confirmed").is_err());
    assert_eq!(decode_rejection_reason(&[7, 0]), Ok(RejectionReason::Cancelled));
}

#[test]
fn message_preimage_is_framed_with_domain_and_length_prefixes() {
    let preimage = message_preimage_bytes(&[7; 32], OutboxPurpose::Candidate, b"joiner", &None, b"pay");
    let mut expected = b"uniclipboard/admission-message/v1\0".to_vec();
    expected.extend_from_slice(&[7; 32]);
    expected.push(1);
    expected.extend_from_slice(&[0; 32]);
    expected.extend_from_slice(&6u64.to_be_bytes());
    expected.extend_from_slice(b"joiner");
    expected.extend_from_slice(&3u64.to_be_bytes());
    expected.extend_from_slice(b"pay");
    assert_eq!(preimage, expected);
    let digest: [u8; 32] = Sha256::digest(&preimage).into();
    assert_eq!(outbound_message(&[7; 32], OutboxPurpose::Candidate, b"joiner", None, b"pay").message_id, digest);
}
