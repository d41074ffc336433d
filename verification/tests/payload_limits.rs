use space_convergence::attempt::SecurityDelivery;
use space_convergence::payload::{
    completion_recovery_routes, CompletionRecoveryRoute, DurableAdmissionCommitPayload, FORMAT_V1,
};

fn route() -> CompletionRecoveryRoute {
    CompletionRecoveryRoute {
        member_instance: [0x44; 32],
        device_id: "helper-device".to_owned(),
        transport_public_key: vec![0x55; 32],
        transport_address_blob: vec![0x66; 32],
    }
}

fn payload(route_count: usize) -> DurableAdmissionCommitPayload {
    DurableAdmissionCommitPayload {
        format_version: FORMAT_V1,
        candidate_event_id: [0x77; 32],
        security_commitment_id: [0x88; 32],
        prepared_proof: vec![0x99],
        resume_public_key: vec![0xaa; 32],
        existing_member_deliveries: Vec::<SecurityDelivery>::new(),
        completion_recovery_routes: vec![route(); route_count],
    }
}

#[test]
fn durable_commit_accepts_256_recovery_routes_and_rejects_257() {
    assert!(payload(256).validate().is_ok());
    assert!(payload(257).validate().is_err());
}

#[test]
fn commit_payload_of_another_format_is_refused() {
    let mut other = payload(1);
    other.format_version = 2;
    assert!(other.validate().is_err());
}

#[test]
fn recovery_routes_follow_relationships() {
    let facts = space_convergence::attempt::AdmissionChangeFacts {
        member_instance: [0x11; 32],
        device_id: "helper-device".to_owned(),
        device_name: "private-device-name-sentinel".to_owned(),
        identity_fingerprint: "ABCD-EFGH-IJKL-MNOP".to_owned(),
        transport_public_key: vec![0x22; 32],
        transport_address_blob: vec![0x33; 64],
        identity_signature: b"private-signature-sentinel".to_vec(),
    };
    let routes = completion_recovery_routes(&vec![facts.clone()]);
    assert_eq!(routes.len(), 1);
    assert_eq!(routes[0].member_instance, facts.member_instance);
    assert_eq!(routes[0].device_id, facts.device_id);
    assert_eq!(routes[0].transport_public_key, facts.transport_public_key);
    assert_eq!(routes[0].transport_address_blob, facts.transport_address_blob);
}
