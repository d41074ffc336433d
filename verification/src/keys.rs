//! Fresh identities of a local join: the attempt and join identifiers and the
//! resume key pair, drawn from the operating system's random source through
//! `rand`'s `OsRng` and derived with `ed25519-dalek`.
use vstd::prelude::*;
use rand::TryRngCore;
use crate::error::{admission_storage, WorkspaceConvergenceError};

verus! {

/// Calls `rand::rngs::OsRng.try_fill_bytes` on 32 bytes: `None` when the
/// operating system's random source fails. Nothing is claimed of the bytes.
#[verifier::external_body]
fn random_bytes32() -> (bytes: Option<[u8; 32]>) {
    let mut bytes = [0u8; 32];
    match rand::rngs::OsRng.try_fill_bytes(&mut bytes) {
        Ok(()) => Some(bytes),
        Err(_) => None,
    }
}

/// Calls `rand::rngs::OsRng.try_fill_bytes` on 16 bytes: `None` when the
/// operating system's random source fails. Nothing is claimed of the bytes.
#[verifier::external_body]
fn random_bytes16() -> (bytes: Option<[u8; 16]>) {
    let mut bytes = [0u8; 16];
    match rand::rngs::OsRng.try_fill_bytes(&mut bytes) {
        Ok(()) => Some(bytes),
        Err(_) => None,
    }
}

/// The Ed25519 public key that `ed25519-dalek` derives from a 32-byte secret
/// key.
pub uninterp spec fn ed25519_public_key(secret_key: Seq<u8>) -> Seq<u8>;

/// Calls `ed25519_dalek::SigningKey::from_bytes`, then `verifying_key` and
/// `to_bytes`. The contract claims only that the result is the public key of
/// the secret key, as named by `ed25519_public_key`.
#[verifier::external_body]
fn public_key_of(secret_key: &[u8; 32]) -> (public_key: [u8; 32])
    ensures
        public_key@ == ed25519_public_key(secret_key@),
{
    ed25519_dalek::SigningKey::from_bytes(secret_key).verifying_key().to_bytes()
}

/// Whether all bytes are zero.
pub open spec fn all_zero(b: Seq<u8>) -> bool {
    forall|i: int| 0 <= i < b.len() ==> b[i] == 0
}

/// Whether every byte of the slice is zero.
fn is_zero(b: &[u8]) -> (zero: bool)
    ensures
        zero == all_zero(b@),
{
    let mut i: usize = 0;
    while i < b.len()
        invariant
            i <= b@.len(),
            forall|j: int| 0 <= j < i ==> b@[j] == 0,
        decreases b@.len() - i,
    {
        if b[i] != 0 {
            return false;
        }
        i = i + 1;
    }
    true
}

/// How many draws a fresh identifier may take before the random source is
/// considered broken.
pub const RANDOM_DRAWS: u32 = 64;

/// Accepts a 32-byte draw unless it is all zero.
pub fn accept_draw32(b: [u8; 32]) -> (r: Option<[u8; 32]>)
    ensures
        r == (if all_zero(b@) { None } else { Some(b) }),
{
    if is_zero(b.as_slice()) {
        None
    } else {
        Some(b)
    }
}

/// Accepts a 16-byte draw unless it is all zero.
pub fn accept_draw16(b: [u8; 16]) -> (r: Option<[u8; 16]>)
    ensures
        r == (if all_zero(b@) { None } else { Some(b) }),
{
    if is_zero(b.as_slice()) {
        None
    } else {
        Some(b)
    }
}

/// A random 32-byte value that is not all zero.
fn nonzero_random32() -> (result: Result<[u8; 32], WorkspaceConvergenceError>)
    ensures
        result matches Ok(b) ==> !all_zero(b@),
        result is Err ==> result->Err_0 is AdmissionStorage,
{
    let mut draws: u32 = 0;
    while draws < RANDOM_DRAWS
        invariant
            draws <= RANDOM_DRAWS,
        decreases RANDOM_DRAWS - draws,
    {
        let drawn = match random_bytes32() {
            Some(b) => b,
            None => return Err(admission_storage("random source failed")),
        };
        if let Some(b) = accept_draw32(drawn) {
            return Ok(b);
        }
        draws = draws + 1;
    }
    Err(admission_storage("random source returned only zero bytes"))
}

/// A random 16-byte value that is not all zero.
fn nonzero_random16() -> (result: Result<[u8; 16], WorkspaceConvergenceError>)
    ensures
        result matches Ok(b) ==> !all_zero(b@),
        result is Err ==> result->Err_0 is AdmissionStorage,
{
    let mut draws: u32 = 0;
    while draws < RANDOM_DRAWS
        invariant
            draws <= RANDOM_DRAWS,
        decreases RANDOM_DRAWS - draws,
    {
        let drawn = match random_bytes16() {
            Some(b) => b,
            None => return Err(admission_storage("random source failed")),
        };
        if let Some(b) = accept_draw16(drawn) {
            return Ok(b);
        }
        draws = draws + 1;
    }
    Err(admission_storage("random source returned only zero bytes"))
}

/// The fresh identities of one local join.
#[derive(Debug, Clone, Copy)]
pub struct JoinIdentity {
    pub attempt_id: [u8; 32],
    pub join_id: [u8; 16],
    pub resume_private_key: [u8; 32],
    pub resume_public_key: [u8; 32],
}

/// Whether a join identity is well formed: no identifier or secret is all
/// zero, and the public key belongs to the secret key.
pub open spec fn identity_valid(id: JoinIdentity) -> bool {
    &&& !all_zero(id.attempt_id@)
    &&& !all_zero(id.join_id@)
    &&& !all_zero(id.resume_private_key@)
    &&& id.resume_public_key@ == ed25519_public_key(id.resume_private_key@)
}

/// Draws the identities of a new local join: a non-zero resume secret and its
/// public key, a non-zero attempt identifier and a non-zero join identifier.
/// Each is redrawn while it is all zero; a random source that fails, or
/// keeps returning zeros, is reported as a storage failure.
pub fn generate_join_identity() -> (result: Result<JoinIdentity, WorkspaceConvergenceError>)
    ensures
        result matches Ok(id) ==> identity_valid(id),
        result is Err ==> result->Err_0 is AdmissionStorage,
{
    let resume_private_key = nonzero_random32()?;
    let resume_public_key = public_key_of(&resume_private_key);
    let attempt_id = nonzero_random32()?;
    let join_id = nonzero_random16()?;
    Ok(JoinIdentity { attempt_id, join_id, resume_private_key, resume_public_key })
}

} // verus!
