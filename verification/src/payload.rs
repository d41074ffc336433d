//! The payloads that travel inside admission messages: the candidate offer
//! and the commit, with the limits a receiver enforces on them.
use vstd::prelude::*;
use crate::attempt::{AdmissionChangeFacts, SecurityDelivery};
use crate::bytes::bytes_to_vec;
use crate::candidate::DurableAdmissionCandidate;
use crate::error::{inconsistent, WorkspaceConvergenceError};

verus! {

/// The first format of the admission payloads.
pub const FORMAT_V1: u16 = 1;
/// The most completion recovery routes a commit may carry.
pub const MAX_COMPLETION_RECOVERY_ROUTES: usize = 256;

/// How a completion helper can be reached: the member's instance, device and
/// transport, without its name or identity signature.
#[derive(Debug, Clone)]
pub struct CompletionRecoveryRoute {
    pub member_instance: [u8; 32],
    pub device_id: String,
    pub transport_public_key: Vec<u8>,
    pub transport_address_blob: Vec<u8>,
}

/// The route of a member relationship.
pub fn completion_recovery_route(facts: &AdmissionChangeFacts) -> (route: CompletionRecoveryRoute)
    ensures
        route.member_instance == facts.member_instance,
        route.device_id@ == facts.device_id@,
        route.transport_public_key@ == facts.transport_public_key@,
        route.transport_address_blob@ == facts.transport_address_blob@,
{
    CompletionRecoveryRoute {
        member_instance: facts.member_instance,
        device_id: facts.device_id.clone(),
        transport_public_key: bytes_to_vec(facts.transport_public_key.as_slice()),
        transport_address_blob: bytes_to_vec(facts.transport_address_blob.as_slice()),
    }
}

/// The routes of the relationships, one per relationship, in order.
pub fn completion_recovery_routes(relationships: &Vec<AdmissionChangeFacts>) -> (routes: Vec<CompletionRecoveryRoute>)
    ensures
        routes@.len() == relationships@.len(),
        forall|i: int| 0 <= i < routes@.len() ==> {
            &&& #[trigger] routes@[i].member_instance == relationships@[i].member_instance
            &&& routes@[i].device_id@ == relationships@[i].device_id@
            &&& routes@[i].transport_public_key@ == relationships@[i].transport_public_key@
            &&& routes@[i].transport_address_blob@ == relationships@[i].transport_address_blob@
        },
{
    let mut routes: Vec<CompletionRecoveryRoute> = Vec::new();
    let mut i: usize = 0;
    while i < relationships.len()
        invariant
            i <= relationships@.len(),
            routes@.len() == i,
            forall|j: int| 0 <= j < i ==> {
                &&& #[trigger] routes@[j].member_instance == relationships@[j].member_instance
                &&& routes@[j].device_id@ == relationships@[j].device_id@
                &&& routes@[j].transport_public_key@ == relationships@[j].transport_public_key@
                &&& routes@[j].transport_address_blob@ == relationships@[j].transport_address_blob@
            },
        decreases relationships@.len() - i,
    {
        routes.push(completion_recovery_route(&relationships[i]));
        i = i + 1;
    }
    routes
}

/// The payload of a durable `Commit`.
#[derive(Debug, Clone)]
pub struct DurableAdmissionCommitPayload {
    pub format_version: u16,
    pub candidate_event_id: [u8; 32],
    pub security_commitment_id: [u8; 32],
    pub prepared_proof: Vec<u8>,
    pub resume_public_key: Vec<u8>,
    pub existing_member_deliveries: Vec<SecurityDelivery>,
    pub completion_recovery_routes: Vec<CompletionRecoveryRoute>,
}

impl DurableAdmissionCommitPayload {
    /// Whether a commit payload may be sent or accepted: it is in the first
    /// format and carries at most the allowed number of recovery routes.
    pub open spec fn acceptable(&self) -> bool {
        self.format_version == FORMAT_V1 && self.completion_recovery_routes@.len()
            <= MAX_COMPLETION_RECOVERY_ROUTES
    }

    /// Checks a commit payload before it is encoded and after it is decoded.
    pub fn validate(&self) -> (result: Result<(), WorkspaceConvergenceError>)
        ensures
            result is Ok <==> self.acceptable(),
            result is Err ==> result->Err_0 is Inconsistent,
    {
        if self.format_version != FORMAT_V1 {
            return Err(inconsistent("unsupported durable commit payload"));
        }
        if self.completion_recovery_routes.len() > MAX_COMPLETION_RECOVERY_ROUTES {
            return Err(inconsistent("too many completion recovery routes"));
        }
        Ok(())
    }
}

/// The payload of a durable `Candidate`: the sponsor's base history and the
/// candidate it offers.
#[derive(Debug, Clone)]
pub struct DurableAdmissionCandidatePayload {
    pub format_version: u16,
    pub base_membership_history: Vec<u8>,
    pub candidate: DurableAdmissionCandidate,
}

impl DurableAdmissionCandidatePayload {
    /// A payload in the first format.
    pub fn new(base_membership_history: Vec<u8>, candidate: DurableAdmissionCandidate) -> (payload: Self)
        ensures
            payload.format_version == FORMAT_V1,
            payload.base_membership_history@ == base_membership_history@,
            payload.candidate@ == candidate@,
    {
        DurableAdmissionCandidatePayload { format_version: FORMAT_V1, base_membership_history, candidate }
    }

    /// Checks the format of a decoded candidate payload: only the first
    /// format is understood.
    pub fn check_format(&self) -> (result: Result<(), WorkspaceConvergenceError>)
        ensures
            result is Ok <==> self.format_version == FORMAT_V1,
            result is Err ==> result->Err_0 is Inconsistent,
    {
        if self.format_version != FORMAT_V1 {
            return Err(inconsistent("unsupported durable candidate payload"));
        }
        Ok(())
    }
}

} // verus!
