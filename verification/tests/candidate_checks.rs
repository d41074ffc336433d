use space_convergence::attempt::{AdmissionChangeFacts, SecurityDelivery};
use space_convergence::candidate::DurableAdmissionCandidate;
use space_convergence::candidate_check::{
    require_candidate_encoding, verify_candidate_preparation, AddDeviceFacts, CatalogFacts, CommitmentFacts,
    CredentialFacts, EventFacts, ReceiveOutcome,
};
use space_convergence::error::WorkspaceConvergenceError;
use space_convergence::payload::completion_recovery_route;
use space_convergence::relationships::assemble_target_relationships;

fn facts(instance: u8, device: &str) -> AdmissionChangeFacts {
    AdmissionChangeFacts {
        member_instance: [instance; 32],
        device_id: device.to_owned(),
        device_name: format!("{device} name"),
        identity_fingerprint: "FP".to_owned(),
        transport_public_key: vec![instance; 4],
        transport_address_blob: vec![instance; 8],
        identity_signature: vec![instance; 2],
    }
}

fn commitment() -> CommitmentFacts {
    CommitmentFacts {
        valid: true,
        encoded: b"commitment".to_vec(),
        lineage_id: "space-a".to_owned(),
        base_event_id: [0x10; 32],
        base_depth: 4,
        encoded_base_position: b"position".to_vec(),
        admission_bundle_digest: [0x20; 32],
        security_commitment_id: [0x30; 32],
        target_epoch: 9,
        key_catalog_digest: [0x40; 32],
    }
}

fn event() -> EventFacts {
    EventFacts {
        encoded: b"event".to_vec(),
        event_id: [0x50; 32],
        lineage_id: "space-a".to_owned(),
        parent_event_id: [0x10; 32],
        parent_depth: 5,
        admission_bundle_digest: Some([0x20; 32]),
        resulting_members_digest: [0x60; 32],
        author_member_instance: [1; 32],
        add_device: Some(AddDeviceFacts { security_commitment_id: [0x30; 32], facts: facts(2, "joiner") }),
    }
}

fn candidate() -> DurableAdmissionCandidate {
    DurableAdmissionCandidate {
        lineage_id: "space-a".to_owned(),
        base_history_position: b"position".to_vec(),
        candidate_event: b"event".to_vec(),
        candidate_event_id: [0x50; 32],
        candidate_key_package: b"kp".to_vec(),
        resume_public_key: vec![1; 32],
        target_members_digest: [0x60; 32],
        security_commitment: b"commitment".to_vec(),
        security_commit: b"commit".to_vec(),
        security_welcome: b"welcome".to_vec(),
        target_protection_group_id: "group-1".to_owned(),
        target_key_catalog: b"catalog".to_vec(),
        target_relationships: vec![facts(1, "sponsor"), facts(2, "joiner"), facts(3, "third")],
        existing_member_deliveries: vec![SecurityDelivery { recipient: "third".to_owned(), credential_id: [0x73; 32], payload: vec![1] }],
        staged_security_state: b"staged".to_vec(),
        identity_binding: b"binding".to_vec(),
    }
}

fn credentials() -> Vec<Option<CredentialFacts>> {
    vec![
        Some(CredentialFacts { derived_instance: [1; 32], credential_id: [0x71; 32] }),
        Some(CredentialFacts { derived_instance: [2; 32], credential_id: [0x72; 32] }),
        Some(CredentialFacts { derived_instance: [3; 32], credential_id: [0x73; 32] }),
    ]
}

fn catalog() -> Option<CatalogFacts> {
    Some(CatalogFacts { target_epoch: 9, digest: [0x40; 32] })
}

fn effective() -> Vec<[u8; 32]> {
    vec![[3; 32], [1; 32], [2; 32]]
}

fn check(c: &DurableAdmissionCandidate, creds: &Vec<Option<CredentialFacts>>, members: &Vec<[u8; 32]>) -> Result<(), WorkspaceConvergenceError> {
    require_candidate_encoding(c, &event(), &commitment(), &catalog(), creds, members, true)
}

#[test]
fn prepared_candidate_event_is_accepted() {
    assert_eq!(verify_candidate_preparation(&commitment(), &commitment(), &event(), ReceiveOutcome::Applied), Ok(()));
    assert!(verify_candidate_preparation(&commitment(), &commitment(), &event(), ReceiveOutcome::AlreadyKnown).is_err());
    assert!(verify_candidate_preparation(&commitment(), &commitment(), &event(), ReceiveOutcome::Diverged).is_err());
    let mut deep = commitment();
    deep.base_depth = u64::MAX;
    let mut saturated = event();
    saturated.parent_depth = u64::MAX;
    assert_eq!(verify_candidate_preparation(&deep, &deep, &saturated, ReceiveOutcome::Applied), Ok(()));
    let mut wrong_depth = event();
    wrong_depth.parent_depth = 4;
    assert!(verify_candidate_preparation(&commitment(), &commitment(), &wrong_depth, ReceiveOutcome::Applied).is_err());
    let mut removal = event();
    removal.add_device = None;
    assert!(verify_candidate_preparation(&commitment(), &commitment(), &removal, ReceiveOutcome::Applied).is_err());
}

#[test]
fn durable_admission_preparation_rejects_security_result_mismatch() {
    let mut different = commitment();
    different.security_commitment_id[0] ^= 0xff;
    different.encoded = b"different-commitment".to_vec();
    let result = verify_candidate_preparation(&commitment(), &different, &event(), ReceiveOutcome::Applied);
    assert!(matches!(result, Err(WorkspaceConvergenceError::Inconsistent(_))));
}

#[test]
fn durable_admission_preparation_rejects_unverified_history() {
    let result = verify_candidate_preparation(&commitment(), &commitment(), &event(), ReceiveOutcome::Invalid);
    assert!(matches!(result, Err(WorkspaceConvergenceError::Inconsistent(_))));
}

#[test]
fn persisted_candidate_must_encode_what_was_verified() {
    assert_eq!(check(&candidate(), &credentials(), &effective()), Ok(()));
    assert!(require_candidate_encoding(&candidate(), &event(), &commitment(), &catalog(), &credentials(), &effective(), false).is_err());
    let mut other_event = candidate();
    other_event.candidate_event = b"other".to_vec();
    assert!(check(&other_event, &credentials(), &effective()).is_err());
    assert!(require_candidate_encoding(&candidate(), &event(), &commitment(), &None, &credentials(), &effective(), true).is_err());
    let mut long_group = candidate();
    long_group.target_protection_group_id = "g".repeat(129);
    assert!(check(&long_group, &credentials(), &effective()).is_err());
    long_group.target_protection_group_id = "g".repeat(128);
    assert_eq!(check(&long_group, &credentials(), &effective()), Ok(()));
    let mut non_ascii = candidate();
    non_ascii.target_protection_group_id = "gruppe-ü".to_owned();
    assert!(check(&non_ascii, &credentials(), &effective()).is_err());
    let mut empty = candidate();
    empty.target_protection_group_id = String::new();
    assert!(check(&empty, &credentials(), &effective()).is_err());
}

#[test]
fn sponsor_candidate_uses_only_members_active_in_verified_history() {
    assert!(check(&candidate(), &credentials(), &vec![[1; 32], [2; 32]]).is_err());
    assert!(check(&candidate(), &credentials(), &vec![[1; 32], [2; 32], [3; 32], [4; 32]]).is_err());
    let mut missing = credentials();
    missing[2] = None;
    assert!(check(&candidate(), &missing, &effective()).is_err());
    let mut underived = credentials();
    underived[0] = Some(CredentialFacts { derived_instance: [9; 32], credential_id: [0x71; 32] });
    assert!(check(&candidate(), &underived, &effective()).is_err());
    let mut duplicate_device = candidate();
    duplicate_device.target_relationships[2].device_id = "sponsor".to_owned();
    duplicate_device.existing_member_deliveries.clear();
    assert!(check(&duplicate_device, &credentials(), &effective()).is_err());
    let mut without_joiner = candidate();
    without_joiner.target_relationships[1].device_name = "changed".to_owned();
    assert!(check(&without_joiner, &credentials(), &effective()).is_err());
}

#[test]
fn existing_member_deliveries_must_reach_one_existing_member() {
    let mut to_joiner = candidate();
    to_joiner.existing_member_deliveries = vec![SecurityDelivery { recipient: "joiner".to_owned(), credential_id: [0x72; 32], payload: vec![1] }];
    assert!(check(&to_joiner, &credentials(), &effective()).is_err());
    let mut wrong_credential = candidate();
    wrong_credential.existing_member_deliveries[0].credential_id = [0x71; 32];
    assert!(check(&wrong_credential, &credentials(), &effective()).is_err());
    let mut empty_payload = candidate();
    empty_payload.existing_member_deliveries[0].payload.clear();
    assert!(check(&empty_payload, &credentials(), &effective()).is_err());
    let mut unknown = candidate();
    unknown.existing_member_deliveries[0].recipient = "nobody".to_owned();
    assert!(check(&unknown, &credentials(), &effective()).is_err());
    let mut twice = candidate();
    twice.existing_member_deliveries.push(twice.existing_member_deliveries[0].clone());
    assert!(check(&twice, &credentials(), &effective()).is_err());
    let mut to_sponsor = candidate();
    to_sponsor.existing_member_deliveries.push(SecurityDelivery { recipient: "sponsor".to_owned(), credential_id: [0x71; 32], payload: vec![2] });
    assert_eq!(check(&to_sponsor, &credentials(), &effective()), Ok(()));
}

#[test]
fn sponsor_rejects_a_joiner_with_an_active_member_instance() {
    let existing = vec![facts(1, "sponsor"), facts(3, "third")];
    assert_eq!(
        assemble_target_relationships(existing.clone(), facts(3, "new-device")).unwrap_err(),
        WorkspaceConvergenceError::AdmissionConflict
    );
    assert_eq!(
        assemble_target_relationships(existing.clone(), facts(9, "third")).unwrap_err(),
        WorkspaceConvergenceError::AdmissionConflict
    );
    let assembled = assemble_target_relationships(existing, facts(2, "joiner")).unwrap();
    let instances: Vec<[u8; 32]> = assembled.iter().map(|f| f.member_instance).collect();
    assert_eq!(instances, vec![[1; 32], [2; 32], [3; 32]]);
}

#[test]
fn relationships_are_ordered_by_member_instance() {
    let mut high = facts(0, "high");
    high.member_instance = [0; 32];
    high.member_instance[0] = 0xff;
    let mut low = facts(0, "low");
    low.member_instance = [0xff; 32];
    low.member_instance[0] = 0x01;
    let assembled = assemble_target_relationships(vec![high.clone(), facts(0x80, "middle")], low.clone()).unwrap();
    let devices: Vec<&str> = assembled.iter().map(|f| f.device_id.as_str()).collect();
    assert_eq!(devices, vec!["low", "middle", "high"]);
    let mut expected: Vec<[u8; 32]> = vec![high.member_instance, [0x80; 32], low.member_instance];
    expected.sort();
    let got: Vec<[u8; 32]> = assembled.iter().map(|f| f.member_instance).collect();
    assert_eq!(got, expected);
}

#[test]
fn completion_recovery_route_excludes_unneeded_member_profile_data() {
    let facts = AdmissionChangeFacts {
        member_instance: [0x11; 32],
        device_id: "helper-device".to_owned(),
        device_name: "private-device-name-sentinel".to_owned(),
        identity_fingerprint: "ABCD-EFGH-IJKL-MNOP".to_owned(),
        transport_public_key: vec![0x22; 32],
        transport_address_blob: vec![0x33; 64],
        identity_signature: b"private-signature-sentinel".to_vec(),
    };
    let route = completion_recovery_route(&facts);
    let encoded = postcard::to_stdvec(&(
        route.member_instance,
        route.device_id.clone(),
        route.transport_public_key.clone(),
        route.transport_address_blob.clone(),
    ))
    .unwrap();
    assert_eq!(route.member_instance, facts.member_instance);
    assert_eq!(route.device_id, facts.device_id);
    assert_eq!(route.transport_public_key, facts.transport_public_key);
    assert_eq!(route.transport_address_blob, facts.transport_address_blob);
    assert!(!encoded.windows(facts.device_name.len()).any(|window| window == facts.device_name.as_bytes()));
    assert!(!encoded.windows(facts.identity_signature.len()).any(|window| window == facts.identity_signature));
}
