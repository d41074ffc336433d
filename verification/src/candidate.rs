//! The durable admission candidate the sponsor offers and the joiner
//! prepares: how it is saved into a record and how a replay is recognised.
use vstd::prelude::*;
use crate::attempt::{opt_string_view, AdmissionAttempt, AdmissionChangeFacts, AttemptView, DeliveryView, FactsView, SecurityDelivery};
use crate::bytes::{bytes_eq, bytes_to_vec, id_eq, opt_bytes_is};

verus! {

/// Everything the sponsor fixes about a candidate admission.
#[derive(Debug, Clone)]
pub struct DurableAdmissionCandidate {
    pub lineage_id: String,
    pub base_history_position: Vec<u8>,
    pub candidate_event: Vec<u8>,
    pub candidate_event_id: [u8; 32],
    pub candidate_key_package: Vec<u8>,
    pub resume_public_key: Vec<u8>,
    pub target_members_digest: [u8; 32],
    pub security_commitment: Vec<u8>,
    pub security_commit: Vec<u8>,
    pub security_welcome: Vec<u8>,
    pub target_protection_group_id: String,
    pub target_key_catalog: Vec<u8>,
    pub target_relationships: Vec<AdmissionChangeFacts>,
    pub existing_member_deliveries: Vec<SecurityDelivery>,
    pub staged_security_state: Vec<u8>,
    pub identity_binding: Vec<u8>,
}

/// The mathematical value of a candidate.
pub struct CandidateView {
    pub lineage_id: Seq<char>,
    pub base_history_position: Seq<u8>,
    pub candidate_event: Seq<u8>,
    pub candidate_event_id: Seq<u8>,
    pub candidate_key_package: Seq<u8>,
    pub resume_public_key: Seq<u8>,
    pub target_members_digest: Seq<u8>,
    pub security_commitment: Seq<u8>,
    pub security_commit: Seq<u8>,
    pub security_welcome: Seq<u8>,
    pub target_protection_group_id: Seq<char>,
    pub target_key_catalog: Seq<u8>,
    pub target_relationships: Seq<FactsView>,
    pub existing_member_deliveries: Seq<DeliveryView>,
    pub staged_security_state: Seq<u8>,
    pub identity_binding: Seq<u8>,
}

impl View for DurableAdmissionCandidate {
    type V = CandidateView;

    open spec fn view(&self) -> CandidateView {
        CandidateView {
            lineage_id: self.lineage_id@,
            base_history_position: self.base_history_position@,
            candidate_event: self.candidate_event@,
            candidate_event_id: self.candidate_event_id@,
            candidate_key_package: self.candidate_key_package@,
            resume_public_key: self.resume_public_key@,
            target_members_digest: self.target_members_digest@,
            security_commitment: self.security_commitment@,
            security_commit: self.security_commit@,
            security_welcome: self.security_welcome@,
            target_protection_group_id: self.target_protection_group_id@,
            target_key_catalog: self.target_key_catalog@,
            target_relationships: self.target_relationships@.map_values(|f: AdmissionChangeFacts| f@),
            existing_member_deliveries: self.existing_member_deliveries@.map_values(|d: SecurityDelivery| d@),
            staged_security_state: self.staged_security_state@,
            identity_binding: self.identity_binding@,
        }
    }
}

/// The transport addresses a completion helper may be reached at: one per
/// relationship, in order.
pub open spec fn recovery_routes(relationships: Seq<FactsView>) -> Seq<Seq<u8>> {
    Seq::new(relationships.len(), |i: int| relationships[i].transport_address_blob)
}

/// The record with the candidate saved into it.
pub open spec fn with_candidate(a: AttemptView, c: CandidateView) -> AttemptView {
    AttemptView {
        completion_recovery_routes: recovery_routes(c.target_relationships),
        lineage_id: Some(c.lineage_id),
        base_history_position: Some(c.base_history_position),
        candidate_event: Some(c.candidate_event),
        candidate_event_id: Some(c.candidate_event_id),
        candidate_key_package: Some(c.candidate_key_package),
        resume_public_key: Some(c.resume_public_key),
        target_members_digest: Some(c.target_members_digest),
        security_commitment: Some(c.security_commitment),
        security_commit: Some(c.security_commit),
        security_welcome: Some(c.security_welcome),
        target_protection_group_id: Some(c.target_protection_group_id),
        target_key_catalog: Some(c.target_key_catalog),
        target_relationships: Some(c.target_relationships),
        existing_member_security_deliveries: Some(c.existing_member_deliveries),
        staged_security_state: Some(c.staged_security_state),
        identity_binding: Some(c.identity_binding),
        ..a
    }
}

/// The transport addresses of the relationships.
pub fn completion_routes(relationships: &Vec<AdmissionChangeFacts>) -> (routes: Vec<Vec<u8>>)
    ensures
        routes@.map_values(|v: Vec<u8>| v@) == recovery_routes(relationships@.map_values(|f: AdmissionChangeFacts| f@)),
{
    let mut routes: Vec<Vec<u8>> = Vec::new();
    let mut i: usize = 0;
    while i < relationships.len()
        invariant
            i <= relationships@.len(),
            routes@.len() == i,
            forall|j: int| 0 <= j < i ==> #[trigger] routes@[j]@ == relationships@[j].transport_address_blob@,
        decreases relationships@.len() - i,
    {
        routes.push(bytes_to_vec(relationships[i].transport_address_blob.as_slice()));
        i = i + 1;
    }
    assert(routes@.map_values(|v: Vec<u8>| v@) =~= recovery_routes(
        relationships@.map_values(|f: AdmissionChangeFacts| f@),
    ));
    routes
}

/// Saves the candidate into the record.
pub fn apply_candidate(attempt: &mut AdmissionAttempt, candidate: DurableAdmissionCandidate)
    ensures
        final(attempt)@ == with_candidate(old(attempt)@, candidate@),
{
    attempt.completion_recovery_routes = completion_routes(&candidate.target_relationships);
    attempt.lineage_id = Some(candidate.lineage_id);
    attempt.base_history_position = Some(candidate.base_history_position);
    attempt.candidate_event = Some(candidate.candidate_event);
    attempt.candidate_event_id = Some(candidate.candidate_event_id);
    attempt.candidate_key_package = Some(candidate.candidate_key_package);
    attempt.resume_public_key = Some(candidate.resume_public_key);
    attempt.target_members_digest = Some(candidate.target_members_digest);
    attempt.security_commitment = Some(candidate.security_commitment);
    attempt.security_commit = Some(candidate.security_commit);
    attempt.security_welcome = Some(candidate.security_welcome);
    attempt.target_protection_group_id = Some(candidate.target_protection_group_id);
    attempt.target_key_catalog = Some(candidate.target_key_catalog);
    attempt.target_relationships = Some(candidate.target_relationships);
    attempt.existing_member_security_deliveries = Some(candidate.existing_member_deliveries);
    attempt.staged_security_state = Some(candidate.staged_security_state);
    attempt.identity_binding = Some(candidate.identity_binding);
}

/// Whether the record already holds this candidate; the staged security
/// state is compared only when `compare_staged_state` is set.
pub open spec fn holds_candidate(a: AttemptView, c: CandidateView, compare_staged_state: bool) -> bool {
    &&& a.lineage_id == Some(c.lineage_id)
    &&& a.base_history_position == Some(c.base_history_position)
    &&& a.candidate_event == Some(c.candidate_event)
    &&& a.candidate_event_id == Some(c.candidate_event_id)
    &&& a.candidate_key_package == Some(c.candidate_key_package)
    &&& a.resume_public_key == Some(c.resume_public_key)
    &&& a.target_members_digest == Some(c.target_members_digest)
    &&& a.security_commitment == Some(c.security_commitment)
    &&& a.security_commit == Some(c.security_commit)
    &&& a.security_welcome == Some(c.security_welcome)
    &&& a.target_protection_group_id == Some(c.target_protection_group_id)
    &&& a.target_key_catalog == Some(c.target_key_catalog)
    &&& a.target_relationships == Some(c.target_relationships)
    &&& a.existing_member_security_deliveries == Some(c.existing_member_deliveries)
    &&& (!compare_staged_state || a.staged_security_state == Some(c.staged_security_state))
    &&& a.identity_binding == Some(c.identity_binding)
}

/// Whether two strings are equal.
pub fn string_eq(a: &String, b: &String) -> (equal: bool)
    ensures
        equal == (a@ == b@),
{
    a.eq(b)
}

/// Whether two relationship facts are equal.
pub fn facts_eq(a: &AdmissionChangeFacts, b: &AdmissionChangeFacts) -> (equal: bool)
    ensures
        equal == (a@ == b@),
{
    id_eq(&a.member_instance, &b.member_instance) && string_eq(&a.device_id, &b.device_id)
        && string_eq(&a.device_name, &b.device_name) && string_eq(
        &a.identity_fingerprint,
        &b.identity_fingerprint,
    ) && bytes_eq(a.transport_public_key.as_slice(), b.transport_public_key.as_slice())
        && bytes_eq(a.transport_address_blob.as_slice(), b.transport_address_blob.as_slice())
        && bytes_eq(a.identity_signature.as_slice(), b.identity_signature.as_slice())
}

/// Whether two security deliveries are equal.
pub fn delivery_eq(a: &SecurityDelivery, b: &SecurityDelivery) -> (equal: bool)
    ensures
        equal == (a@ == b@),
{
    string_eq(&a.recipient, &b.recipient) && id_eq(&a.credential_id, &b.credential_id) && bytes_eq(
        a.payload.as_slice(),
        b.payload.as_slice(),
    )
}

/// Whether two relationship lists are equal.
pub fn facts_list_eq(a: &Vec<AdmissionChangeFacts>, b: &Vec<AdmissionChangeFacts>) -> (equal: bool)
    ensures
        equal == (a@.map_values(|f: AdmissionChangeFacts| f@) == b@.map_values(|f: AdmissionChangeFacts| f@)),
{
    let ghost sa = a@.map_values(|f: AdmissionChangeFacts| f@);
    let ghost sb = b@.map_values(|f: AdmissionChangeFacts| f@);
    if a.len() != b.len() {
        assert(sa.len() != sb.len());
        return false;
    }
    let mut i: usize = 0;
    while i < a.len()
        invariant
            i <= a@.len(),
            a@.len() == b@.len(),
            sa == a@.map_values(|f: AdmissionChangeFacts| f@),
            sb == b@.map_values(|f: AdmissionChangeFacts| f@),
            forall|j: int| 0 <= j < i ==> sa[j] == sb[j],
        decreases a@.len() - i,
    {
        if !facts_eq(&a[i], &b[i]) {
            assert(sa[i as int] != sb[i as int]);
            return false;
        }
        i = i + 1;
    }
    assert(sa =~= sb);
    true
}

/// Whether two delivery lists are equal.
pub fn delivery_list_eq(a: &Vec<SecurityDelivery>, b: &Vec<SecurityDelivery>) -> (equal: bool)
    ensures
        equal == (a@.map_values(|d: SecurityDelivery| d@) == b@.map_values(|d: SecurityDelivery| d@)),
{
    let ghost sa = a@.map_values(|d: SecurityDelivery| d@);
    let ghost sb = b@.map_values(|d: SecurityDelivery| d@);
    if a.len() != b.len() {
        assert(sa.len() != sb.len());
        return false;
    }
    let mut i: usize = 0;
    while i < a.len()
        invariant
            i <= a@.len(),
            a@.len() == b@.len(),
            sa == a@.map_values(|d: SecurityDelivery| d@),
            sb == b@.map_values(|d: SecurityDelivery| d@),
            forall|j: int| 0 <= j < i ==> sa[j] == sb[j],
        decreases a@.len() - i,
    {
        if !delivery_eq(&a[i], &b[i]) {
            assert(sa[i as int] != sb[i as int]);
            return false;
        }
        i = i + 1;
    }
    assert(sa =~= sb);
    true
}

/// Whether an optional string holds `s`.
fn opt_string_is(o: &Option<String>, s: &String) -> (equal: bool)
    ensures
        equal == (opt_string_view(o) == Some(s@)),
{
    match o {
        Some(x) => string_eq(x, s),
        None => false,
    }
}

/// Whether an optional identifier holds `id`.
fn opt_id_is(o: &Option<[u8; 32]>, id: &[u8; 32]) -> (equal: bool)
    ensures
        equal == (crate::bytes::opt_id_view(*o) == Some(id@)),
{
    match o {
        Some(x) => id_eq(x, id),
        None => false,
    }
}

/// Whether the record already holds this candidate.
pub fn candidate_matches(
    attempt: &AdmissionAttempt,
    candidate: &DurableAdmissionCandidate,
    compare_staged_state: bool,
) -> (equal: bool)
    ensures
        equal == holds_candidate(attempt@, candidate@, compare_staged_state),
{
    let relationships_same = match &attempt.target_relationships {
        Some(r) => facts_list_eq(r, &candidate.target_relationships),
        None => false,
    };
    let deliveries_same = match &attempt.existing_member_security_deliveries {
        Some(d) => delivery_list_eq(d, &candidate.existing_member_deliveries),
        None => false,
    };
    opt_string_is(&attempt.lineage_id, &candidate.lineage_id) && opt_bytes_is(
        &attempt.base_history_position,
        candidate.base_history_position.as_slice(),
    ) && opt_bytes_is(&attempt.candidate_event, candidate.candidate_event.as_slice()) && opt_id_is(
        &attempt.candidate_event_id,
        &candidate.candidate_event_id,
    ) && opt_bytes_is(&attempt.candidate_key_package, candidate.candidate_key_package.as_slice())
        && opt_bytes_is(&attempt.resume_public_key, candidate.resume_public_key.as_slice())
        && opt_id_is(&attempt.target_members_digest, &candidate.target_members_digest)
        && opt_bytes_is(&attempt.security_commitment, candidate.security_commitment.as_slice())
        && opt_bytes_is(&attempt.security_commit, candidate.security_commit.as_slice())
        && opt_bytes_is(&attempt.security_welcome, candidate.security_welcome.as_slice())
        && opt_string_is(&attempt.target_protection_group_id, &candidate.target_protection_group_id)
        && opt_bytes_is(&attempt.target_key_catalog, candidate.target_key_catalog.as_slice())
        && relationships_same && deliveries_same && (!compare_staged_state || opt_bytes_is(
        &attempt.staged_security_state,
        candidate.staged_security_state.as_slice(),
    )) && opt_bytes_is(&attempt.identity_binding, candidate.identity_binding.as_slice())
}

} // verus!
