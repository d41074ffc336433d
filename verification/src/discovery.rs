//! Membership discovery scheduling: candidate retry backoff with a stable
//! per-device jitter, the gossip reconcile interval, the next reconcile
//! delay, relayed security updates, and how gossip errors are classified.
use vstd::prelude::*;

verus! {

/// The first retry delay of a candidate attestation.
pub const INITIAL_RETRY_DELAY_MS: i64 = 30_000;
/// The longest retry delay of a candidate attestation.
pub const MAX_RETRY_DELAY_MS: i64 = 300_000;
/// How long a directly attested peer stays a candidate.
pub const DIRECT_ATTESTATION_TTL_MS: i64 = 604_800_000;
/// How early an announcement is refreshed before it expires.
pub const ANNOUNCEMENT_REFRESH_LEAD_MS: i64 = 86_400_000;
/// The regular gossip reconcile interval.
pub const GOSSIP_RECONCILE_INTERVAL_MS: u64 = 300_000;
/// The window of the per-device jitter added to the reconcile interval.
pub const GOSSIP_RECONCILE_JITTER_WINDOW_MS: u64 = 60_000;
/// The shortest delay before a scheduled reconcile.
pub const MIN_SCHEDULED_RECONCILE_DELAY_MS: u64 = 100;

/// One step of the jitter hash: `31 * seed + byte`, modulo 2^64.
pub open spec fn seed_step(seed: u64, byte: u8) -> u64 {
    ((seed as nat * 31 + byte as nat) % 0x1_0000_0000_0000_0000) as u64
}

/// The jitter hash of `bytes`, starting from `init`.
pub open spec fn jitter_seed(init: u64, bytes: Seq<u8>) -> u64
    decreases bytes.len(),
{
    if bytes.len() == 0 {
        init
    } else {
        seed_step(jitter_seed(init, bytes.drop_last()), bytes.last())
    }
}

/// The wrapping multiply-add of the executable step is the hash step.
proof fn lemma_seed_step(seed: u64, byte: u8)
    ensures
        vstd::wrapping::u64_specs::wrapping_add(vstd::wrapping::u64_specs::wrapping_mul(seed, 31), byte as u64)
            == seed_step(seed, byte),
{
    let r: int = 0x1_0000_0000_0000_0000;
    let m = (seed as nat * 31nat) % (r as nat);
    assert(vstd::wrapping::u64_specs::wrapping_mul(seed, 31) == m as u64);
    assert((m + byte as int) % r == (seed as int * 31 + byte as int) % r) by (nonlinear_arith)
        requires
            m == (seed as nat * 31nat) % (r as nat),
            r == 0x1_0000_0000_0000_0000int,
            0 <= byte < 256,
    {
        vstd::arithmetic::div_mod::lemma_add_mod_noop(seed as int * 31, byte as int, r);
        vstd::arithmetic::div_mod::lemma_mod_twice(byte as int, r);
        vstd::arithmetic::div_mod::lemma_small_mod(byte as nat, r as nat);
        vstd::arithmetic::div_mod::lemma_add_mod_noop(m as int, byte as int, r);
        vstd::arithmetic::div_mod::lemma_mod_twice(seed as int * 31, r);
    }
    assert(m < r);
}

/// The jitter hash of a byte string.
fn fold_seed(init: u64, bytes: &[u8]) -> (seed: u64)
    ensures
        seed == jitter_seed(init, bytes@),
{
    let mut seed = init;
    let mut i: usize = 0;
    while i < bytes.len()
        invariant
            i <= bytes@.len(),
            seed == jitter_seed(init, bytes@.subrange(0, i as int)),
        decreases bytes@.len() - i,
    {
        let byte = bytes[i];
        proof {
            lemma_seed_step(seed, byte);
            assert(bytes@.subrange(0, i + 1).drop_last() =~= bytes@.subrange(0, i as int));
            assert(bytes@.subrange(0, i + 1).last() == byte);
        }
        seed = seed.wrapping_mul(31).wrapping_add(byte as u64);
        i = i + 1;
    }
    assert(bytes@.subrange(0, bytes@.len() as int) =~= bytes@);
    seed
}

/// The base retry delay after `attempt_count` failed attestations: it
/// doubles from the initial delay with each of the first four failures and
/// never exceeds the maximum.
pub open spec fn retry_base(attempt_count: u32) -> int {
    let doubled = if attempt_count == 0 {
        INITIAL_RETRY_DELAY_MS as int
    } else if attempt_count == 1 {
        2 * INITIAL_RETRY_DELAY_MS
    } else if attempt_count == 2 {
        4 * INITIAL_RETRY_DELAY_MS
    } else if attempt_count == 3 {
        8 * INITIAL_RETRY_DELAY_MS
    } else {
        16 * INITIAL_RETRY_DELAY_MS
    };
    if doubled < MAX_RETRY_DELAY_MS {
        doubled
    } else {
        MAX_RETRY_DELAY_MS as int
    }
}

/// `a + b`, held at the largest `i64` when it would exceed it (`b` is never
/// negative here).
pub open spec fn add_or_max(a: int, b: int) -> int {
    if a + b > i64::MAX {
        i64::MAX as int
    } else {
        a + b
    }
}

/// The retry deadline of a candidate: now, plus the base delay, plus a
/// jitter below a fifth of the base that depends only on the device and the
/// attempt count.
pub open spec fn retry_deadline(attempt_count: u32, device_id: Seq<u8>, now_ms: i64) -> int {
    let base = retry_base(attempt_count);
    let window = if base / 5 < 1 { 1 } else { base / 5 };
    let jitter = jitter_seed(attempt_count as u64, device_id) as int % window;
    add_or_max(add_or_max(now_ms as int, base), jitter)
}

/// `a + b` for a non-negative `b`, held at the largest `i64`.
fn add_or_max_i64(a: i64, b: i64) -> (sum: i64)
    requires
        b >= 0,
    ensures
        sum == add_or_max(a as int, b as int),
{
    match a.checked_add(b) {
        Some(s) => s,
        None => i64::MAX,
    }
}

/// When a candidate whose attestation failed `attempt_count` times is tried
/// again.
pub fn next_candidate_retry_at(attempt_count: u32, device_id: &[u8], now_ms: i64) -> (deadline: i64)
    ensures
        deadline == retry_deadline(attempt_count, device_id@, now_ms),
{
    let multiplier: i64 = if attempt_count == 0 {
        1
    } else if attempt_count == 1 {
        2
    } else if attempt_count == 2 {
        4
    } else if attempt_count == 3 {
        8
    } else {
        16
    };
    let doubled = INITIAL_RETRY_DELAY_MS * multiplier;
    let base = if doubled < MAX_RETRY_DELAY_MS {
        doubled
    } else {
        MAX_RETRY_DELAY_MS
    };
    let window = if base / 5 < 1 {
        1
    } else {
        base / 5
    };
    let seed = fold_seed(attempt_count as u64, device_id);
    let jitter = (seed % (window as u64)) as i64;
    add_or_max_i64(add_or_max_i64(now_ms, base), jitter)
}

/// The reconcile interval of a device: the regular interval plus a jitter
/// below one minute that depends only on the device.
pub open spec fn reconcile_interval(device_id: Seq<u8>) -> int {
    GOSSIP_RECONCILE_INTERVAL_MS + jitter_seed(0, device_id) as int % GOSSIP_RECONCILE_JITTER_WINDOW_MS as int
}

/// The regular gossip reconcile delay of a device, in milliseconds.
pub fn gossip_reconcile_delay(device_id: &[u8]) -> (delay_ms: u64)
    ensures
        delay_ms == reconcile_interval(device_id@),
{
    let seed = fold_seed(0, device_id);
    GOSSIP_RECONCILE_INTERVAL_MS + seed % GOSSIP_RECONCILE_JITTER_WINDOW_MS
}

/// The states of a membership candidate.
#[derive(Debug, Clone, Copy, PartialEq, Eq, Structural)]
pub enum CandidateStatus {
    Pending,
    WaitingForPeer,
    WaitingForUpdate,
    Verifying,
    Ready,
    Blocked,
    Rejected,
}

/// Whether a candidate still takes part in gossip.
pub open spec fn pending_status(status: CandidateStatus) -> bool {
    match status {
        CandidateStatus::Pending | CandidateStatus::WaitingForPeer | CandidateStatus::WaitingForUpdate
        | CandidateStatus::Verifying => true,
        _ => false,
    }
}

/// Whether a candidate still takes part in gossip.
pub fn is_pending(status: CandidateStatus) -> (pending: bool)
    ensures
        pending == pending_status(status),
{
    match status {
        CandidateStatus::Pending | CandidateStatus::WaitingForPeer | CandidateStatus::WaitingForUpdate
        | CandidateStatus::Verifying => true,
        _ => false,
    }
}

/// Whether a reconcile pass leaves a candidate for later: its retry deadline
/// has not come, or it has none and is not being verified.
pub open spec fn deferred_now(next_attempt_at: Option<i64>, status: CandidateStatus, now_ms: i64) -> bool {
    match next_attempt_at {
        Some(at) => at > now_ms,
        None => status != CandidateStatus::Verifying,
    }
}

/// Whether a reconcile pass leaves a candidate for later.
pub fn reconcile_deferred(next_attempt_at: Option<i64>, status: CandidateStatus, now_ms: i64) -> (deferred: bool)
    ensures
        deferred == deferred_now(next_attempt_at, status, now_ms),
{
    match next_attempt_at {
        Some(at) => at > now_ms,
        None => status != CandidateStatus::Verifying,
    }
}

/// When a candidate is due: its retry deadline, or now when it has none and
/// is being verified.
#[derive(Debug, Clone, Copy)]
pub struct CandidateSchedule {
    pub status: CandidateStatus,
    pub next_attempt_at: Option<i64>,
}

/// When a pending candidate is next due, if it is.
pub open spec fn candidate_due(c: CandidateSchedule, now_ms: i64) -> Option<i64> {
    if !pending_status(c.status) {
        None
    } else {
        match c.next_attempt_at {
            Some(at) => Some(at),
            None => if c.status == CandidateStatus::Verifying {
                Some(now_ms)
            } else {
                None
            },
        }
    }
}

/// The smaller of an optional earliest time and `t`.
pub open spec fn earlier(current: Option<i64>, t: i64) -> Option<i64> {
    match current {
        Some(c) => if t < c { Some(t) } else { Some(c) },
        None => Some(t),
    }
}

/// The earliest due time among the candidates.
pub open spec fn earliest_candidate(s: Seq<CandidateSchedule>, now_ms: i64) -> Option<i64>
    decreases s.len(),
{
    if s.len() == 0 {
        None
    } else {
        let rest = earliest_candidate(s.drop_last(), now_ms);
        match candidate_due(s.last(), now_ms) {
            Some(t) => earlier(rest, t),
            None => rest,
        }
    }
}

/// The earliest of the due times, starting from `start`.
pub open spec fn earliest_time(start: Option<i64>, s: Seq<i64>) -> Option<i64>
    decreases s.len(),
{
    if s.len() == 0 {
        start
    } else {
        earlier(earliest_time(start, s.drop_last()), s.last())
    }
}

/// `a - b`, held within the `i64` range.
pub open spec fn sub_within(a: i64, b: i64) -> int {
    if a - b > i64::MAX {
        i64::MAX as int
    } else if a - b < i64::MIN {
        i64::MIN as int
    } else {
        a - b
    }
}

/// The delay before the next reconcile: the time left until the earliest
/// due candidate or outbox batch, at least the minimum delay and at most the
/// regular interval `fallback_ms`; a deadline already passed leaves only the
/// regular interval; with nothing due, or when the schedule could not be
/// read, the regular interval.
pub open spec fn reconcile_delay(
    fallback_ms: u64,
    schedule: Option<(Seq<CandidateSchedule>, Seq<i64>)>,
    now_ms: i64,
) -> int {
    match schedule {
        None => fallback_ms as int,
        Some((candidates, outbox)) => match earliest_time(earliest_candidate(candidates, now_ms), outbox) {
            None => fallback_ms as int,
            Some(t) => {
                let remaining = sub_within(t, now_ms);
                let scheduled: int = if remaining < 0 { u64::MAX as int } else { remaining };
                let at_least = if scheduled < MIN_SCHEDULED_RECONCILE_DELAY_MS {
                    MIN_SCHEDULED_RECONCILE_DELAY_MS as int
                } else {
                    scheduled
                };
                if at_least < fallback_ms { at_least } else { fallback_ms as int }
            },
        },
    }
}

/// The earlier of an optional time and `t`.
fn earlier_of(current: Option<i64>, t: i64) -> (result: Option<i64>)
    ensures
        result == earlier(current, t),
{
    match current {
        Some(c) => if t < c {
            Some(t)
        } else {
            Some(c)
        },
        None => Some(t),
    }
}

/// The delay before the next reconcile, in milliseconds. `schedule` holds the
/// candidates and the due times of the pending outbox batches, or nothing
/// when they could not be read.
pub fn next_reconcile_delay(
    fallback_ms: u64,
    schedule: &Option<(Vec<CandidateSchedule>, Vec<i64>)>,
    now_ms: i64,
) -> (delay_ms: u64)
    ensures
        delay_ms == reconcile_delay(
            fallback_ms,
            match schedule {
                Some((c, o)) => Some((c@, o@)),
                None => None,
            },
            now_ms,
        ),
{
    let (candidates, outbox) = match schedule {
        Some((c, o)) => (c, o),
        None => return fallback_ms,
    };
    let mut earliest: Option<i64> = None;
    let mut i: usize = 0;
    while i < candidates.len()
        invariant
            i <= candidates@.len(),
            earliest == earliest_candidate(candidates@.subrange(0, i as int), now_ms),
        decreases candidates@.len() - i,
    {
        let c = candidates[i];
        proof {
            assert(candidates@.subrange(0, i + 1).drop_last() =~= candidates@.subrange(0, i as int));
        }
        if is_pending(c.status) {
            match c.next_attempt_at {
                Some(at) => {
                    earliest = earlier_of(earliest, at);
                },
                None => {
                    if c.status == CandidateStatus::Verifying {
                        earliest = earlier_of(earliest, now_ms);
                    }
                },
            }
        }
        i = i + 1;
    }
    assert(candidates@.subrange(0, candidates@.len() as int) =~= candidates@);
    let ghost start = earliest;
    let mut j: usize = 0;
    while j < outbox.len()
        invariant
            j <= outbox@.len(),
            earliest == earliest_time(start, outbox@.subrange(0, j as int)),
        decreases outbox@.len() - j,
    {
        proof {
            assert(outbox@.subrange(0, j + 1).drop_last() =~= outbox@.subrange(0, j as int));
        }
        earliest = earlier_of(earliest, outbox[j]);
        j = j + 1;
    }
    assert(outbox@.subrange(0, outbox@.len() as int) =~= outbox@);
    let t = match earliest {
        Some(t) => t,
        None => return fallback_ms,
    };
    let remaining: i64 = match t.checked_sub(now_ms) {
        Some(r) => r,
        None => if now_ms < 0 {
            i64::MAX
        } else {
            i64::MIN
        },
    };
    let scheduled: u64 = if remaining < 0 {
        u64::MAX
    } else {
        remaining as u64
    };
    let at_least = if scheduled < MIN_SCHEDULED_RECONCILE_DELAY_MS {
        MIN_SCHEDULED_RECONCILE_DELAY_MS
    } else {
        scheduled
    };
    if at_least < fallback_ms {
        at_least
    } else {
        fallback_ms
    }
}

/// Failures of membership convergence.
#[derive(Debug, Clone, PartialEq, Eq)]
pub enum MembershipConvergenceError {
    InvalidCandidate(String),
    Storage(String),
    AnnouncementStorage(String),
    Outbox(String),
    DeliveryBatch(String),
    SecurityUpdate(String),
    AppliedSecurityUpdate(String),
    CandidateNotFound,
    PeerUnavailable,
    WaitingForUpdate,
    VerificationRejected,
    Relationship(String),
    CurrentIdentity(String),
}

/// Failures the attestation endpoint reports to a peer.
#[derive(Debug, Clone, Copy, PartialEq, Eq, Structural)]
pub enum AttestationEndpointError {
    MissingSecurityUpdate,
    Rejected,
    Persistence,
}

/// How a failure of applying relayed security updates is reported to the
/// peer that relayed them.
pub open spec fn relayed_updates_answer(error: MembershipConvergenceError) -> AttestationEndpointError {
    match error {
        MembershipConvergenceError::WaitingForUpdate => AttestationEndpointError::MissingSecurityUpdate,
        MembershipConvergenceError::VerificationRejected | MembershipConvergenceError::InvalidCandidate(_)
        | MembershipConvergenceError::CandidateNotFound => AttestationEndpointError::Rejected,
        _ => AttestationEndpointError::Persistence,
    }
}

/// Reports a failure of applying relayed security updates to the relaying
/// peer.
pub fn map_relayed_updates_error(error: &MembershipConvergenceError) -> (answer: AttestationEndpointError)
    ensures
        answer == relayed_updates_answer(*error),
{
    match error {
        MembershipConvergenceError::WaitingForUpdate => AttestationEndpointError::MissingSecurityUpdate,
        MembershipConvergenceError::VerificationRejected | MembershipConvergenceError::InvalidCandidate(_)
        | MembershipConvergenceError::CandidateNotFound => AttestationEndpointError::Rejected,
        _ => AttestationEndpointError::Persistence,
    }
}

/// How a failure of accepting a verified peer is reported to that peer.
pub open spec fn verified_peer_answer(error: MembershipConvergenceError) -> AttestationEndpointError {
    match error {
        MembershipConvergenceError::VerificationRejected | MembershipConvergenceError::InvalidCandidate(_)
        | MembershipConvergenceError::CandidateNotFound => AttestationEndpointError::Rejected,
        _ => AttestationEndpointError::Persistence,
    }
}

/// Reports a failure of accepting a verified peer to that peer.
pub fn map_verified_peer_error(error: &MembershipConvergenceError) -> (answer: AttestationEndpointError)
    ensures
        answer == verified_peer_answer(*error),
{
    match error {
        MembershipConvergenceError::VerificationRejected | MembershipConvergenceError::InvalidCandidate(_)
        | MembershipConvergenceError::CandidateNotFound => AttestationEndpointError::Rejected,
        _ => AttestationEndpointError::Persistence,
    }
}

/// Whether a failed candidate confirmation only defers the candidate.
pub open spec fn candidate_failure_deferrable(error: MembershipConvergenceError) -> bool {
    match error {
        MembershipConvergenceError::PeerUnavailable | MembershipConvergenceError::WaitingForUpdate
        | MembershipConvergenceError::VerificationRejected => true,
        _ => false,
    }
}

/// Whether a failed candidate confirmation only defers the candidate; any
/// other failure ends the reconcile pass.
pub fn candidate_error_defers(error: &MembershipConvergenceError) -> (defers: bool)
    ensures
        defers == candidate_failure_deferrable(*error),
{
    match error {
        MembershipConvergenceError::PeerUnavailable | MembershipConvergenceError::WaitingForUpdate
        | MembershipConvergenceError::VerificationRejected => true,
        _ => false,
    }
}

/// Whether a failed member synchronisation or update pull only defers the
/// member.
pub open spec fn member_failure_deferrable(error: MembershipConvergenceError) -> bool {
    match error {
        MembershipConvergenceError::PeerUnavailable | MembershipConvergenceError::VerificationRejected => true,
        _ => false,
    }
}

/// Whether a failed member synchronisation or update pull only defers the
/// member; any other failure ends the reconcile pass.
pub fn member_error_defers(error: &MembershipConvergenceError) -> (defers: bool)
    ensures
        defers == member_failure_deferrable(*error),
{
    match error {
        MembershipConvergenceError::PeerUnavailable | MembershipConvergenceError::VerificationRejected => true,
        _ => false,
    }
}

/// What accepting a sponsor's seed for a device does.
#[derive(Debug, Clone, Copy, PartialEq, Eq, Structural)]
pub enum SeedAction {
    /// The device is a formal member with a candidate record: merge the seed
    /// into the candidate and mark it admitted.
    MergeAndAdmit,
    /// The device is a formal member with no candidate: only check that the
    /// seed forms a valid candidate; nothing is saved.
    ValidateOnly,
    /// Merge the seed into the existing pending candidate.
    Merge,
    /// Save a new pending candidate from the seed and wake the runtime.
    Create,
}

/// The action for a sponsor's seed: a formal member whose identity
/// fingerprint differs from the seed's hint, or whose candidate record
/// carries another hint, refuses the seed; otherwise a formal member is
/// admitted or left as it is, and any other device's candidate is merged or
/// created.
pub open spec fn seed_action_model(
    formal_fingerprint: Option<Seq<char>>,
    seed_hint: Seq<char>,
    existing_hint: Option<Seq<char>>,
) -> Result<SeedAction, MembershipConvergenceError> {
    match formal_fingerprint {
        Some(f) => if f != seed_hint {
            Err(MembershipConvergenceError::VerificationRejected)
        } else {
            match existing_hint {
                Some(h) => if h != f {
                    Err(MembershipConvergenceError::VerificationRejected)
                } else {
                    Ok(SeedAction::MergeAndAdmit)
                },
                None => Ok(SeedAction::ValidateOnly),
            }
        },
        None => match existing_hint {
            Some(_) => Ok(SeedAction::Merge),
            None => Ok(SeedAction::Create),
        },
    }
}

/// The view of an optional string.
pub open spec fn opt_chars(o: &Option<String>) -> Option<Seq<char>> {
    match o {
        Some(s) => Some(s@),
        None => None,
    }
}

/// Decides what accepting a sponsor's seed does. `formal_fingerprint` is
/// the identity fingerprint of the device as a formal member, if it is one;
/// `existing_hint` the fingerprint hint of its candidate record, if it has
/// one.
pub fn sponsor_seed_action(
    formal_fingerprint: &Option<String>,
    seed_hint: &String,
    existing_hint: &Option<String>,
) -> (result: Result<SeedAction, MembershipConvergenceError>)
    ensures
        result == seed_action_model(opt_chars(formal_fingerprint), seed_hint@, opt_chars(existing_hint)),
{
    match formal_fingerprint {
        Some(f) => {
            if !crate::candidate::string_eq(f, seed_hint) {
                return Err(MembershipConvergenceError::VerificationRejected);
            }
            match existing_hint {
                Some(h) => if !crate::candidate::string_eq(h, f) {
                    Err(MembershipConvergenceError::VerificationRejected)
                } else {
                    Ok(SeedAction::MergeAndAdmit)
                },
                None => Ok(SeedAction::ValidateOnly),
            }
        },
        None => match existing_hint {
            Some(_) => Ok(SeedAction::Merge),
            None => Ok(SeedAction::Create),
        },
    }
}

/// Why a candidate attestation failed.
#[derive(Debug, Clone, Copy, PartialEq, Eq, Structural)]
pub enum AttestationError {
    Offline,
    Transport,
    MissingSecurityUpdate,
    VersionIncompatible,
    Rejected,
}

/// The failure a candidate records.
#[derive(Debug, Clone, Copy, PartialEq, Eq, Structural)]
pub enum CandidateFailure {
    PeerOffline,
    Transport,
    MissingSecurityUpdate,
    VersionIncompatible,
    InvalidProof,
}

/// What a failed attestation does: the failure the candidate records, when
/// it is tried again (never, after a rejection) and the error the
/// confirmation ends with.
#[derive(Debug, Clone, PartialEq, Eq)]
pub struct AttestationFailureStep {
    pub failure: CandidateFailure,
    pub retry_at_ms: Option<i64>,
    pub error: MembershipConvergenceError,
}

/// The step a failed attestation takes, for a candidate that failed
/// `attempt_count` times before: an unreachable or incompatible peer and a
/// missing security update are retried after the backoff, a rejected proof
/// is final.
pub open spec fn attestation_failure_model(
    error: AttestationError,
    attempt_count: u32,
    device_id: Seq<u8>,
    now_ms: i64,
) -> (CandidateFailure, Option<int>, MembershipConvergenceError) {
    let retry = Some(retry_deadline(attempt_count, device_id, now_ms));
    match error {
        AttestationError::Offline => (CandidateFailure::PeerOffline, retry, MembershipConvergenceError::PeerUnavailable),
        AttestationError::Transport => (CandidateFailure::Transport, retry, MembershipConvergenceError::PeerUnavailable),
        AttestationError::MissingSecurityUpdate => (
            CandidateFailure::MissingSecurityUpdate,
            retry,
            MembershipConvergenceError::WaitingForUpdate,
        ),
        AttestationError::VersionIncompatible => (
            CandidateFailure::VersionIncompatible,
            retry,
            MembershipConvergenceError::PeerUnavailable,
        ),
        AttestationError::Rejected => (
            CandidateFailure::InvalidProof,
            None,
            MembershipConvergenceError::VerificationRejected,
        ),
    }
}

/// Decides what a failed candidate attestation records and returns.
pub fn attestation_failure_step(
    error: AttestationError,
    attempt_count: u32,
    device_id: &[u8],
    now_ms: i64,
) -> (step: AttestationFailureStep)
    ensures
        ({
            let (failure, retry, e) = attestation_failure_model(error, attempt_count, device_id@, now_ms);
            &&& step.failure == failure
            &&& step.error == e
            &&& match (step.retry_at_ms, retry) {
                (Some(a), Some(b)) => a == b,
                (None, None) => true,
                _ => false,
            }
        }),
{
    if error == AttestationError::Rejected {
        return AttestationFailureStep {
            failure: CandidateFailure::InvalidProof,
            retry_at_ms: None,
            error: MembershipConvergenceError::VerificationRejected,
        };
    }
    let retry = Some(next_candidate_retry_at(attempt_count, device_id, now_ms));
    match error {
        AttestationError::Offline => AttestationFailureStep {
            failure: CandidateFailure::PeerOffline,
            retry_at_ms: retry,
            error: MembershipConvergenceError::PeerUnavailable,
        },
        AttestationError::Transport => AttestationFailureStep {
            failure: CandidateFailure::Transport,
            retry_at_ms: retry,
            error: MembershipConvergenceError::PeerUnavailable,
        },
        AttestationError::MissingSecurityUpdate => AttestationFailureStep {
            failure: CandidateFailure::MissingSecurityUpdate,
            retry_at_ms: retry,
            error: MembershipConvergenceError::WaitingForUpdate,
        },
        _ => AttestationFailureStep {
            failure: CandidateFailure::VersionIncompatible,
            retry_at_ms: retry,
            error: MembershipConvergenceError::PeerUnavailable,
        },
    }
}

/// The tally of one membership gossip pass.
#[derive(Debug, Clone, Copy, PartialEq, Eq, Structural, Default)]
pub struct GossipPassOutcome {
    pub delivered_batches: u64,
    pub confirmed_candidates: u64,
    pub synchronized_members: u64,
    pub deferred_items: u64,
}

/// `n + 1`, or `n` at the largest count.
pub open spec fn bumped(n: u64) -> u64 {
    if n == u64::MAX {
        n
    } else {
        (n + 1) as u64
    }
}

/// Counts one more, saturating at the largest count.
fn bump(n: u64) -> (m: u64)
    ensures
        m == bumped(n),
{
    n.saturating_add(1)
}

/// Whether the pass must first pull security updates from connected
/// members: some pending candidate waits for an update.
pub open spec fn waits_for_update(statuses: Seq<CandidateStatus>) -> bool {
    exists|i: int| 0 <= i < statuses.len() && statuses[i] == CandidateStatus::WaitingForUpdate
}

/// Decides whether the pass pulls security updates before confirming
/// candidates.
pub fn needs_update_pull(statuses: &Vec<CandidateStatus>) -> (pull: bool)
    ensures
        pull == waits_for_update(statuses@),
{
    let mut i: usize = 0;
    while i < statuses.len()
        invariant
            i <= statuses@.len(),
            forall|j: int| 0 <= j < i ==> statuses@[j] != CandidateStatus::WaitingForUpdate,
        decreases statuses@.len() - i,
    {
        if statuses[i] == CandidateStatus::WaitingForUpdate {
            return true;
        }
        i = i + 1;
    }
    false
}

/// Tallies a candidate that was not due yet.
pub fn record_deferred(outcome: &mut GossipPassOutcome)
    ensures
        *final(outcome) == (GossipPassOutcome { deferred_items: bumped(old(outcome).deferred_items), ..*old(outcome) }),
{
    outcome.deferred_items = bump(outcome.deferred_items);
}

/// Tallies the confirmation of one candidate: a success counts as
/// confirmed, a deferrable failure as deferred; any other failure ends the
/// pass and is returned, leaving the tally as it was.
pub fn record_candidate_result(
    outcome: &mut GossipPassOutcome,
    result: Result<(), MembershipConvergenceError>,
) -> (next: Result<(), MembershipConvergenceError>)
    ensures
        result is Ok ==> next is Ok && *final(outcome) == (GossipPassOutcome {
            confirmed_candidates: bumped(old(outcome).confirmed_candidates),
            ..*old(outcome)
        }),
        result matches Err(e) ==> (candidate_failure_deferrable(e) ==> next is Ok && *final(outcome) == (
        GossipPassOutcome { deferred_items: bumped(old(outcome).deferred_items), ..*old(outcome) })) && (
        !candidate_failure_deferrable(e) ==> next == Err::<(), MembershipConvergenceError>(e) && *final(outcome)
            == *old(outcome)),
{
    match result {
        Ok(()) => {
            outcome.confirmed_candidates = bump(outcome.confirmed_candidates);
            Ok(())
        },
        Err(e) => if candidate_error_defers(&e) {
            outcome.deferred_items = bump(outcome.deferred_items);
            Ok(())
        } else {
            Err(e)
        },
    }
}

/// Tallies the synchronisation of one member: a success counts as
/// synchronized, a deferrable failure as deferred; any other failure ends
/// the pass and is returned, leaving the tally as it was.
pub fn record_member_result(
    outcome: &mut GossipPassOutcome,
    result: Result<(), MembershipConvergenceError>,
) -> (next: Result<(), MembershipConvergenceError>)
    ensures
        result is Ok ==> next is Ok && *final(outcome) == (GossipPassOutcome {
            synchronized_members: bumped(old(outcome).synchronized_members),
            ..*old(outcome)
        }),
        result matches Err(e) ==> (member_failure_deferrable(e) ==> next is Ok && *final(outcome) == (
        GossipPassOutcome { deferred_items: bumped(old(outcome).deferred_items), ..*old(outcome) })) && (
        !member_failure_deferrable(e) ==> next == Err::<(), MembershipConvergenceError>(e) && *final(outcome)
            == *old(outcome)),
{
    match result {
        Ok(()) => {
            outcome.synchronized_members = bump(outcome.synchronized_members);
            Ok(())
        },
        Err(e) => if member_error_defers(&e) {
            outcome.deferred_items = bump(outcome.deferred_items);
            Ok(())
        } else {
            Err(e)
        },
    }
}

/// Tallies a pull of security updates from one member: any number of
/// applied updates leaves the tally alone, a deferrable failure counts as
/// deferred; any other failure ends the pass and is returned.
pub fn record_pull_result(
    outcome: &mut GossipPassOutcome,
    result: Result<u64, MembershipConvergenceError>,
) -> (next: Result<(), MembershipConvergenceError>)
    ensures
        result is Ok ==> next is Ok && *final(outcome) == *old(outcome),
        result matches Err(e) ==> (member_failure_deferrable(e) ==> next is Ok && *final(outcome) == (
        GossipPassOutcome { deferred_items: bumped(old(outcome).deferred_items), ..*old(outcome) })) && (
        !member_failure_deferrable(e) ==> next == Err::<(), MembershipConvergenceError>(e) && *final(outcome)
            == *old(outcome)),
{
    match result {
        Ok(_) => Ok(()),
        Err(e) => if member_error_defers(&e) {
            outcome.deferred_items = bump(outcome.deferred_items);
            Ok(())
        } else {
            Err(e)
        },
    }
}

/// What to do with one relayed security update.
#[derive(Debug, Clone, Copy, PartialEq, Eq, Structural)]
pub enum RelayedStep {
    /// The local group already has this epoch.
    Skip,
    /// Apply it: it moves the local group to the next epoch.
    Apply,
}

/// How one relayed security update is handled at local group epoch
/// `group_epoch`: it must carry its digest and move exactly one epoch up; an
/// epoch already reached is skipped, one that does not follow the local epoch
/// waits for the missing update.
pub open spec fn relayed_step_model(
    group_epoch: u64,
    previous_epoch: u64,
    next_epoch: u64,
    digest_matches: bool,
) -> Result<RelayedStep, MembershipConvergenceError> {
    let successor = if previous_epoch == u64::MAX { u64::MAX as int } else { previous_epoch + 1 };
    if !digest_matches || next_epoch != successor {
        Err(MembershipConvergenceError::VerificationRejected)
    } else if next_epoch <= group_epoch {
        Ok(RelayedStep::Skip)
    } else if previous_epoch != group_epoch {
        Err(MembershipConvergenceError::WaitingForUpdate)
    } else {
        Ok(RelayedStep::Apply)
    }
}

/// Decides how one relayed security update is handled.
pub fn relayed_update_step(
    group_epoch: u64,
    previous_epoch: u64,
    next_epoch: u64,
    digest_matches: bool,
) -> (step: Result<RelayedStep, MembershipConvergenceError>)
    ensures
        step == relayed_step_model(group_epoch, previous_epoch, next_epoch, digest_matches),
{
    let successor = previous_epoch.saturating_add(1);
    if !digest_matches || next_epoch != successor {
        return Err(MembershipConvergenceError::VerificationRejected);
    }
    if next_epoch <= group_epoch {
        return Ok(RelayedStep::Skip);
    }
    if previous_epoch != group_epoch {
        return Err(MembershipConvergenceError::WaitingForUpdate);
    }
    Ok(RelayedStep::Apply)
}

/// Checks the epoch the security layer reports after applying an update: it
/// must be the update's next epoch, which becomes the local epoch.
pub fn check_applied_epoch(applied_epoch: u64, next_epoch: u64) -> (result: Result<u64, MembershipConvergenceError>)
    ensures
        applied_epoch == next_epoch ==> result == Ok::<u64, MembershipConvergenceError>(next_epoch),
        applied_epoch != next_epoch ==> result == Err::<u64, MembershipConvergenceError>(
            MembershipConvergenceError::VerificationRejected,
        ),
{
    if applied_epoch != next_epoch {
        Err(MembershipConvergenceError::VerificationRejected)
    } else {
        Ok(next_epoch)
    }
}

} // verus!
