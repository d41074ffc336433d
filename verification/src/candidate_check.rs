//! The checks a candidate passes before anyone saves it: its event must
//! extend the base history under the verified security commitment, and the
//! persisted candidate must be exactly the encoding of what was verified,
//! with a relationship projection that matches the verified history.
use vstd::prelude::*;
use crate::attempt::{AdmissionChangeFacts, SecurityDelivery};
use crate::bytes::{bytes_eq, id_eq};
use crate::candidate::{facts_eq, string_eq, DurableAdmissionCandidate};
use crate::error::{inconsistent, WorkspaceConvergenceError};
use vstd::string::StringSliceAdditionalSpecFns;

verus! {

/// What the security layer shows of a security commitment.
#[derive(Debug, Clone)]
pub struct CommitmentFacts {
    /// Whether the commitment passed its own validation.
    pub valid: bool,
    /// Its encoding.
    pub encoded: Vec<u8>,
    pub lineage_id: String,
    /// The event and depth of the base history position it was made on.
    pub base_event_id: [u8; 32],
    pub base_depth: u64,
    /// The encoding of that base history position.
    pub encoded_base_position: Vec<u8>,
    pub admission_bundle_digest: [u8; 32],
    pub security_commitment_id: [u8; 32],
    pub target_epoch: u64,
    pub key_catalog_digest: [u8; 32],
}

/// The admission an `AddDevice` event carries.
#[derive(Debug, Clone)]
pub struct AddDeviceFacts {
    pub security_commitment_id: [u8; 32],
    pub facts: AdmissionChangeFacts,
}

/// What the membership history shows of a candidate event.
#[derive(Debug, Clone)]
pub struct EventFacts {
    /// Its encoding.
    pub encoded: Vec<u8>,
    pub event_id: [u8; 32],
    pub lineage_id: String,
    pub parent_event_id: [u8; 32],
    pub parent_depth: u64,
    pub admission_bundle_digest: Option<[u8; 32]>,
    pub resulting_members_digest: [u8; 32],
    pub author_member_instance: [u8; 32],
    /// The admission, when the event adds a device.
    pub add_device: Option<AddDeviceFacts>,
}

/// What receiving the candidate event into the base history gave.
#[derive(Debug, Clone, Copy, PartialEq, Eq, Structural)]
pub enum ReceiveOutcome {
    /// The event extends the base history.
    Applied,
    /// The base history already holds the event.
    AlreadyKnown,
    /// The event does not extend the base history.
    Diverged,
    /// The event failed verification.
    Invalid,
}

/// `depth + 1`, held at the largest `u64`.
pub open spec fn next_depth(depth: u64) -> int {
    if depth == u64::MAX { u64::MAX as int } else { depth + 1 }
}

/// Whether a candidate event is prepared correctly: both commitments are
/// valid and equal, the event extends the commitment's base position in its
/// lineage and binds its admission bundle, it adds a device under the same
/// security commitment, and it extends the base history.
pub open spec fn preparation_verified(
    sponsor: CommitmentFacts,
    joiner: CommitmentFacts,
    event: EventFacts,
    receive: ReceiveOutcome,
) -> bool {
    &&& sponsor.valid
    &&& joiner.valid
    &&& sponsor.encoded@ == joiner.encoded@
    &&& event.lineage_id@ == sponsor.lineage_id@
    &&& event.parent_event_id@ == sponsor.base_event_id@
    &&& event.parent_depth == next_depth(sponsor.base_depth)
    &&& (event.admission_bundle_digest matches Some(d) && d@ == sponsor.admission_bundle_digest@)
    &&& (event.add_device matches Some(add) && add.security_commitment_id@ == sponsor.security_commitment_id@)
    &&& receive == ReceiveOutcome::Applied
}

/// Checks that a candidate event is prepared correctly; `receive` is what
/// receiving the event into the base history gave.
pub fn verify_candidate_preparation(
    sponsor: &CommitmentFacts,
    joiner: &CommitmentFacts,
    event: &EventFacts,
    receive: ReceiveOutcome,
) -> (result: Result<(), WorkspaceConvergenceError>)
    ensures
        result is Ok <==> preparation_verified(*sponsor, *joiner, *event, receive),
        result is Err ==> result->Err_0 is Inconsistent,
{
    if !sponsor.valid || !joiner.valid {
        return Err(inconsistent("security commitment is invalid"));
    }
    if !bytes_eq(sponsor.encoded.as_slice(), joiner.encoded.as_slice()) {
        return Err(inconsistent("joiner security result does not match sponsor candidate"));
    }
    let depth = sponsor.base_depth.saturating_add(1);
    let bundle_bound = match event.admission_bundle_digest {
        Some(d) => id_eq(&d, &sponsor.admission_bundle_digest),
        None => false,
    };
    if !string_eq(&event.lineage_id, &sponsor.lineage_id) || !id_eq(&event.parent_event_id, &sponsor.base_event_id)
        || event.parent_depth != depth || !bundle_bound {
        return Err(inconsistent("candidate event does not match its base history and security result"));
    }
    let add = match &event.add_device {
        Some(a) => a,
        None => return Err(inconsistent("candidate event is not an AddDevice")),
    };
    if !id_eq(&add.security_commitment_id, &sponsor.security_commitment_id) {
        return Err(inconsistent("candidate event does not bind the verified security result"));
    }
    match receive {
        ReceiveOutcome::Applied => Ok(()),
        ReceiveOutcome::AlreadyKnown => Err(inconsistent("candidate event already exists in the base history")),
        ReceiveOutcome::Diverged => Err(inconsistent("candidate event does not extend the supplied base history")),
        ReceiveOutcome::Invalid => Err(inconsistent("candidate event failed verification")),
    }
}

/// What the content-key catalog of a candidate decodes to.
#[derive(Debug, Clone, Copy)]
pub struct CatalogFacts {
    pub target_epoch: u64,
    pub digest: [u8; 32],
}

/// What the verified history holds for a relationship's member instance:
/// the instance its credential derives for the relationship's device, and
/// the credential's identifier.
#[derive(Debug, Clone, Copy)]
pub struct CredentialFacts {
    pub derived_instance: [u8; 32],
    pub credential_id: [u8; 32],
}

/// Whether the persisted candidate is the encoding of the verified event and
/// commitment.
pub open spec fn encoding_matches(c: DurableAdmissionCandidate, e: EventFacts, k: CommitmentFacts) -> bool {
    &&& c.lineage_id@ == e.lineage_id@
    &&& c.base_history_position@ == k.encoded_base_position@
    &&& c.candidate_event@ == e.encoded@
    &&& c.candidate_event_id@ == e.event_id@
    &&& c.target_members_digest@ == e.resulting_members_digest@
    &&& c.security_commitment@ == k.encoded@
}

/// Whether a protection group identifier is acceptable: 1 to 128 ASCII
/// characters.
pub open spec fn group_id_acceptable(g: Seq<char>) -> bool {
    0 < g.len() <= 128 && vstd::utf8::is_ascii_chars(g)
}

/// Whether the candidate's content-key catalog decodes and matches the
/// commitment, and its protection group identifier is acceptable.
pub open spec fn catalog_matches(c: DurableAdmissionCandidate, k: CommitmentFacts, catalog: Option<CatalogFacts>) -> bool {
    &&& (catalog matches Some(cat) && cat.target_epoch == k.target_epoch && cat.digest@ == k.key_catalog_digest@)
    &&& group_id_acceptable(c.target_protection_group_id@)
}

/// Whether two relationships differ in member instance and in device.
pub open spec fn distinct_relationships(rels: Seq<AdmissionChangeFacts>, a: int, b: int) -> bool {
    rels[a].member_instance@ != rels[b].member_instance@ && rels[a].device_id@ != rels[b].device_id@
}

/// Whether `x` is one of the identifiers.
pub open spec fn id_listed(list: Seq<[u8; 32]>, x: Seq<u8>) -> bool {
    exists|y: int| 0 <= y < list.len() && #[trigger] list[y]@ == x
}

/// Whether some relationship has member instance `x`.
pub open spec fn instance_listed(rels: Seq<AdmissionChangeFacts>, x: Seq<u8>) -> bool {
    exists|i: int| 0 <= i < rels.len() && #[trigger] rels[i].member_instance@ == x
}

/// Whether the relationships are exactly the verified history's members:
/// each has a credential in the history that derives its member instance for
/// its device, no member instance or device appears twice, and the member
/// instances are the history's effective members.
pub open spec fn relationships_projected(
    rels: Seq<AdmissionChangeFacts>,
    credentials: Seq<Option<CredentialFacts>>,
    effective: Seq<[u8; 32]>,
) -> bool {
    &&& credentials.len() == rels.len()
    &&& forall|i: int| 0 <= i < rels.len() ==> (#[trigger] credentials[i] matches Some(cr)
        && cr.derived_instance@ == rels[i].member_instance@)
    &&& forall|i: int, j: int| 0 <= i < j < rels.len() ==> #[trigger] distinct_relationships(rels, i, j)
    &&& forall|i: int| 0 <= i < rels.len() ==> id_listed(effective, #[trigger] rels[i].member_instance@)
    &&& forall|x: int| 0 <= x < effective.len() ==> instance_listed(rels, #[trigger] effective[x]@)
}

/// The index of the relationship of `device`, when exactly one relationship
/// names it.
pub open spec fn sole_relationship(rels: Seq<AdmissionChangeFacts>, device: Seq<char>, i: int) -> bool {
    &&& 0 <= i < rels.len()
    &&& rels[i].device_id@ == device
    &&& forall|j: int| 0 <= j < rels.len() && j != i ==> #[trigger] rels[j].device_id@ != device
}

/// Whether two deliveries differ in recipient and in credential.
pub open spec fn distinct_deliveries(deliveries: Seq<SecurityDelivery>, a: int, b: int) -> bool {
    deliveries[a].recipient@ != deliveries[b].recipient@ && deliveries[a].credential_id@
        != deliveries[b].credential_id@
}

/// Whether a delivery goes to the device of exactly one relationship, not
/// the joining member, under that member's history credential.
pub open spec fn delivery_addressed(
    delivery: SecurityDelivery,
    rels: Seq<AdmissionChangeFacts>,
    credentials: Seq<Option<CredentialFacts>>,
    joiner_instance: Seq<u8>,
) -> bool {
    exists|i: int| #[trigger] sole_relationship(rels, delivery.recipient@, i)
        && rels[i].member_instance@ != joiner_instance && (credentials[i] matches Some(cr)
        && cr.credential_id@ == delivery.credential_id@)
}

/// Whether the security deliveries to existing members are valid: each has a
/// payload and goes to the device of exactly one relationship, not the
/// joining member, under that member's history credential; no device or
/// credential receives two deliveries.
pub open spec fn deliveries_valid(
    deliveries: Seq<SecurityDelivery>,
    rels: Seq<AdmissionChangeFacts>,
    credentials: Seq<Option<CredentialFacts>>,
    joiner_instance: Seq<u8>,
) -> bool {
    &&& forall|d: int| 0 <= d < deliveries.len() ==> #[trigger] deliveries[d].payload@.len() > 0
        && delivery_addressed(deliveries[d], rels, credentials, joiner_instance)
    &&& forall|d: int, e: int| 0 <= d < e < deliveries.len() ==> #[trigger] distinct_deliveries(deliveries, d, e)
}

/// Whether a persisted candidate is exactly what was verified: its encoding,
/// its catalog, its relationship projection, the joining member among the
/// relationships, its deliveries to existing members and its identity
/// binding (`binding_valid`).
pub open spec fn candidate_encoding_ok(
    c: DurableAdmissionCandidate,
    e: EventFacts,
    k: CommitmentFacts,
    catalog: Option<CatalogFacts>,
    credentials: Seq<Option<CredentialFacts>>,
    effective: Seq<[u8; 32]>,
    binding_valid: bool,
) -> bool {
    &&& encoding_matches(c, e, k)
    &&& catalog_matches(c, k, catalog)
    &&& relationships_projected(c.target_relationships@, credentials, effective)
    &&& (e.add_device matches Some(add) && exists|i: int| 0 <= i < c.target_relationships@.len()
        && #[trigger] c.target_relationships@[i]@ == add.facts@)
    &&& deliveries_valid(
        c.existing_member_deliveries@,
        c.target_relationships@,
        credentials,
        e.add_device->Some_0.facts.member_instance@,
    )
    &&& binding_valid
}

/// Checks the encoding part of a candidate.
fn check_encoding(c: &DurableAdmissionCandidate, e: &EventFacts, k: &CommitmentFacts) -> (ok: bool)
    ensures
        ok == encoding_matches(*c, *e, *k),
{
    string_eq(&c.lineage_id, &e.lineage_id) && bytes_eq(
        c.base_history_position.as_slice(),
        k.encoded_base_position.as_slice(),
    ) && bytes_eq(c.candidate_event.as_slice(), e.encoded.as_slice()) && id_eq(&c.candidate_event_id, &e.event_id)
        && id_eq(&c.target_members_digest, &e.resulting_members_digest) && bytes_eq(
        c.security_commitment.as_slice(),
        k.encoded.as_slice(),
    )
}

/// Checks the catalog part of a candidate.
fn check_catalog(c: &DurableAdmissionCandidate, k: &CommitmentFacts, catalog: &Option<CatalogFacts>) -> (ok: bool)
    ensures
        ok == catalog_matches(*c, *k, *catalog),
{
    let catalog_ok = match catalog {
        Some(cat) => cat.target_epoch == k.target_epoch && id_eq(&cat.digest, &k.key_catalog_digest),
        None => false,
    };
    let group = c.target_protection_group_id.as_str();
    let ascii = group.is_ascii();
    proof {
        vstd::string::is_ascii_spec_bytes(group);
    }
    assert(group@ == c.target_protection_group_id@);
    if !catalog_ok || group.is_empty() || !ascii {
        return false;
    }
    let bytes = group.as_bytes();
    assert(group.spec_bytes().len() == group@.len());
    bytes.len() <= 128
}

/// Whether `x` is among the first `n` identifiers of `list`.
fn id_in(list: &Vec<[u8; 32]>, x: &[u8; 32]) -> (found: bool)
    ensures
        found == id_listed(list@, x@),
{
    let mut i: usize = 0;
    while i < list.len()
        invariant
            i <= list@.len(),
            forall|j: int| 0 <= j < i ==> #[trigger] list@[j]@ != x@,
        decreases list@.len() - i,
    {
        if id_eq(&list[i], x) {
            return true;
        }
        i = i + 1;
    }
    false
}

/// Checks the relationship projection of a candidate.
fn check_relationships(
    rels: &Vec<AdmissionChangeFacts>,
    credentials: &Vec<Option<CredentialFacts>>,
    effective: &Vec<[u8; 32]>,
) -> (ok: bool)
    ensures
        ok == relationships_projected(rels@, credentials@, effective@),
{
    if credentials.len() != rels.len() {
        return false;
    }
    let mut i: usize = 0;
    while i < rels.len()
        invariant
            i <= rels@.len(),
            credentials@.len() == rels@.len(),
            forall|a: int| 0 <= a < i ==> (#[trigger] credentials@[a] matches Some(cr)
                && cr.derived_instance@ == rels@[a].member_instance@),
            forall|a: int, b: int| 0 <= a < b < i ==> #[trigger] distinct_relationships(rels@, a, b),
            forall|a: int| 0 <= a < i ==> id_listed(effective@, #[trigger] rels@[a].member_instance@),
        decreases rels@.len() - i,
    {
        match &credentials[i] {
            Some(cr) => {
                if !id_eq(&cr.derived_instance, &rels[i].member_instance) {
                    return false;
                }
            },
            None => return false,
        }
        let mut j: usize = 0;
        while j < i
            invariant
                j <= i < rels@.len(),
                forall|a: int| 0 <= a < j ==> #[trigger] distinct_relationships(rels@, a, i as int),
            decreases i - j,
        {
            if id_eq(&rels[j].member_instance, &rels[i].member_instance) || string_eq(
                &rels[j].device_id,
                &rels[i].device_id,
            ) {
                assert(!distinct_relationships(rels@, j as int, i as int));
                return false;
            }
            assert(distinct_relationships(rels@, j as int, i as int));
            j = j + 1;
        }
        if !id_in(effective, &rels[i].member_instance) {
            return false;
        }
        i = i + 1;
    }
    let mut x: usize = 0;
    while x < effective.len()
        invariant
            x <= effective@.len(),
            forall|y: int| 0 <= y < x ==> instance_listed(rels@, #[trigger] effective@[y]@),
        decreases effective@.len() - x,
    {
        let mut found = false;
        let mut a: usize = 0;
        while a < rels.len()
            invariant
                a <= rels@.len(),
                x < effective@.len(),
                found ==> instance_listed(rels@, effective@[x as int]@),
                !found ==> forall|b: int| 0 <= b < a ==> #[trigger] rels@[b].member_instance@
                    != effective@[x as int]@,
            decreases rels@.len() - a,
        {
            if id_eq(&rels[a].member_instance, &effective[x]) {
                found = true;
            }
            a = a + 1;
        }
        if !found {
            assert(!instance_listed(rels@, effective@[x as int]@));
            return false;
        }
        x = x + 1;
    }
    true
}

/// The first relationship at or after `start` whose device is `device`.
pub open spec fn device_from(rels: Seq<AdmissionChangeFacts>, device: Seq<char>, start: int) -> Option<int>
    decreases rels.len() - start,
{
    if start < 0 || start >= rels.len() {
        None
    } else if rels[start].device_id@ == device {
        Some(start)
    } else {
        device_from(rels, device, start + 1)
    }
}

/// What a search for a device finds.
proof fn lemma_device_from(rels: Seq<AdmissionChangeFacts>, device: Seq<char>, start: int)
    requires
        0 <= start,
    ensures
        device_from(rels, device, start) matches Some(i) ==> start <= i < rels.len() && rels[i].device_id@
            == device && forall|j: int| start <= j < i ==> #[trigger] rels[j].device_id@ != device,
        device_from(rels, device, start) is None ==> forall|j: int|
            start <= j < rels.len() ==> #[trigger] rels[j].device_id@ != device,
    decreases rels.len() - start,
{
    if start < rels.len() {
        lemma_device_from(rels, device, start + 1);
    }
}

/// The first relationship at or after `start` whose device is `device`.
fn find_device(rels: &Vec<AdmissionChangeFacts>, device: &String, start: usize) -> (index: Option<usize>)
    requires
        start <= rels@.len(),
    ensures
        index matches Some(i) ==> device_from(rels@, device@, start as int) == Some(i as int) && i < rels@.len(),
        index is None ==> device_from(rels@, device@, start as int) is None,
{
    let mut i: usize = start;
    while i < rels.len()
        invariant
            start <= i <= rels@.len(),
            device_from(rels@, device@, start as int) == device_from(rels@, device@, i as int),
        decreases rels@.len() - i,
    {
        if string_eq(&rels[i].device_id, device) {
            return Some(i);
        }
        i = i + 1;
    }
    None
}

/// The relationship that alone names `device`, if exactly one does.
fn sole_device(rels: &Vec<AdmissionChangeFacts>, device: &String) -> (index: Option<usize>)
    ensures
        index matches Some(i) ==> sole_relationship(rels@, device@, i as int),
        index is None ==> forall|i: int| !#[trigger] sole_relationship(rels@, device@, i),
{
    let first = match find_device(rels, device, 0) {
        Some(m) => m,
        None => {
            proof {
                lemma_device_from(rels@, device@, 0);
                assert forall|i: int| !#[trigger] sole_relationship(rels@, device@, i) by {
                    if 0 <= i < rels@.len() {
                        assert(rels@[i].device_id@ != device@);
                    }
                }
            }
            return None;
        },
    };
    proof {
        lemma_device_from(rels@, device@, 0);
    }
    let count = rels.len();
    match find_device(rels, device, first + 1) {
        Some(second) => {
            proof {
                lemma_device_from(rels@, device@, first + 1);
                assert forall|i: int| !#[trigger] sole_relationship(rels@, device@, i) by {
                    if sole_relationship(rels@, device@, i) {
                        if i != first {
                            assert(rels@[first as int].device_id@ == device@);
                        } else {
                            assert(rels@[second as int].device_id@ == device@);
                        }
                    }
                }
            }
            None
        },
        None => {
            proof {
                lemma_device_from(rels@, device@, first + 1);
                assert forall|j: int| 0 <= j < rels@.len() && j != first implies #[trigger] rels@[j].device_id@
                    != device@ by {
                    if j < first {
                    } else {
                    }
                }
            }
            Some(first)
        },
    }
}

/// Checks the security deliveries to existing members.
fn check_deliveries(
    deliveries: &Vec<SecurityDelivery>,
    rels: &Vec<AdmissionChangeFacts>,
    credentials: &Vec<Option<CredentialFacts>>,
    joiner_instance: &[u8; 32],
) -> (ok: bool)
    requires
        credentials@.len() == rels@.len(),
    ensures
        ok == deliveries_valid(deliveries@, rels@, credentials@, joiner_instance@),
{
    let mut d: usize = 0;
    while d < deliveries.len()
        invariant
            d <= deliveries@.len(),
            credentials@.len() == rels@.len(),
            forall|x: int| 0 <= x < d ==> #[trigger] deliveries@[x].payload@.len() > 0
                && delivery_addressed(deliveries@[x], rels@, credentials@, joiner_instance@),
            forall|x: int, y: int| 0 <= x < y < d ==> #[trigger] distinct_deliveries(deliveries@, x, y),
        decreases deliveries@.len() - d,
    {
        let delivery = &deliveries[d];
        if delivery.payload.len() == 0 {
            return false;
        }
        let m = match sole_device(rels, &delivery.recipient) {
            Some(m) => m,
            None => {
                assert(!delivery_addressed(deliveries@[d as int], rels@, credentials@, joiner_instance@));
                return false;
            },
        };
        let credential_ok = match &credentials[m] {
            Some(cr) => id_eq(&cr.credential_id, &delivery.credential_id),
            None => false,
        };
        if id_eq(&rels[m].member_instance, joiner_instance) || !credential_ok {
            proof {
                assert forall|i: int| #[trigger] sole_relationship(rels@, delivery.recipient@, i) implies i == m by {
                    if i != m {
                        assert(rels@[m as int].device_id@ == delivery.recipient@);
                    }
                }
            }
            assert(!delivery_addressed(deliveries@[d as int], rels@, credentials@, joiner_instance@));
            return false;
        }
        assert(delivery_addressed(deliveries@[d as int], rels@, credentials@, joiner_instance@));
        let mut e: usize = 0;
        while e < d
            invariant
                e <= d < deliveries@.len(),
                forall|x: int| 0 <= x < e ==> #[trigger] distinct_deliveries(deliveries@, x, d as int),
            decreases d - e,
        {
            if string_eq(&deliveries[e].recipient, &deliveries[d].recipient) || id_eq(
                &deliveries[e].credential_id,
                &deliveries[d].credential_id,
            ) {
                assert(!distinct_deliveries(deliveries@, e as int, d as int));
                return false;
            }
            assert(distinct_deliveries(deliveries@, e as int, d as int));
            e = e + 1;
        }
        d = d + 1;
    }
    true
}

/// Whether the joining member's facts are among the relationships.
fn facts_listed(rels: &Vec<AdmissionChangeFacts>, facts: &AdmissionChangeFacts) -> (found: bool)
    ensures
        found == exists|i: int| 0 <= i < rels@.len() && #[trigger] rels@[i]@ == facts@,
{
    let mut i: usize = 0;
    while i < rels.len()
        invariant
            i <= rels@.len(),
            forall|j: int| 0 <= j < i ==> #[trigger] rels@[j]@ != facts@,
        decreases rels@.len() - i,
    {
        if facts_eq(&rels[i], facts) {
            return true;
        }
        i = i + 1;
    }
    false
}

/// Checks that a persisted candidate is exactly what was verified: its
/// encoding against the verified event and commitment, its content-key
/// catalog (`catalog` is what the catalog decodes to), its relationships
/// against the verified history (`credentials` holds, per relationship, what
/// the history holds for its member instance; `effective` is the history's
/// effective members), the joining member among the relationships, the
/// deliveries to existing members, and the identity binding, which
/// `binding_valid` says decodes and validates.
pub fn require_candidate_encoding(
    candidate: &DurableAdmissionCandidate,
    event: &EventFacts,
    commitment: &CommitmentFacts,
    catalog: &Option<CatalogFacts>,
    credentials: &Vec<Option<CredentialFacts>>,
    effective: &Vec<[u8; 32]>,
    binding_valid: bool,
) -> (result: Result<(), WorkspaceConvergenceError>)
    ensures
        result is Ok <==> candidate_encoding_ok(
            *candidate,
            *event,
            *commitment,
            *catalog,
            credentials@,
            effective@,
            binding_valid,
        ),
        result is Err ==> result->Err_0 is Inconsistent,
{
    if !check_encoding(candidate, event, commitment) {
        return Err(inconsistent("persisted candidate does not match the verified candidate"));
    }
    if !check_catalog(candidate, commitment, catalog) {
        return Err(inconsistent("candidate content-key catalog does not match the security commitment"));
    }
    if !check_relationships(&candidate.target_relationships, credentials, effective) {
        return Err(inconsistent("candidate relationship projection does not match verified history"));
    }
    let add = match &event.add_device {
        Some(a) => a,
        None => return Err(inconsistent("admission candidate is not AddDevice")),
    };
    if !facts_listed(&candidate.target_relationships, &add.facts) {
        return Err(inconsistent("candidate relationship projection is incomplete"));
    }
    if !check_deliveries(
        &candidate.existing_member_deliveries,
        &candidate.target_relationships,
        credentials,
        &add.facts.member_instance,
    ) {
        return Err(inconsistent("candidate existing-member security delivery is invalid"));
    }
    if !binding_valid {
        return Err(inconsistent("candidate identity binding is invalid"));
    }
    Ok(())
}

} // verus!
