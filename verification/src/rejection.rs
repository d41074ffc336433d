//! Why an admission was refused, and the payload of a `Rejected` message: the
//! reason byte, the length of the detail as a little-endian base-128 varint,
//! then the detail bytes.
use vstd::prelude::*;
use crate::bytes::push_all;
use crate::error::{inconsistent, WorkspaceConvergenceError};

verus! {

/// Why an admission attempt was refused.
#[derive(Debug, Clone, Copy, PartialEq, Eq, Structural)]
pub enum RejectionReason {
    InvitationUnavailable,
    AuthenticationRejected,
    IdentityConflict,
    JoinerHistoryAhead,
    HistoryConflict,
    PeerUpgradeRequired,
    BaseHistoryChanged,
    Cancelled,
    RemovedBeforeActivation,
}

/// The byte that stands for a reason in a rejection payload.
pub open spec fn reason_code(reason: RejectionReason) -> u8 {
    match reason {
        RejectionReason::InvitationUnavailable => 0,
        RejectionReason::AuthenticationRejected => 1,
        RejectionReason::IdentityConflict => 2,
        RejectionReason::JoinerHistoryAhead => 3,
        RejectionReason::HistoryConflict => 4,
        RejectionReason::PeerUpgradeRequired => 5,
        RejectionReason::BaseHistoryChanged => 6,
        RejectionReason::Cancelled => 7,
        RejectionReason::RemovedBeforeActivation => 8,
    }
}

/// The reason a byte stands for, if any.
pub open spec fn reason_of_code(code: u8) -> Option<RejectionReason> {
    if code == 0 {
        Some(RejectionReason::InvitationUnavailable)
    } else if code == 1 {
        Some(RejectionReason::AuthenticationRejected)
    } else if code == 2 {
        Some(RejectionReason::IdentityConflict)
    } else if code == 3 {
        Some(RejectionReason::JoinerHistoryAhead)
    } else if code == 4 {
        Some(RejectionReason::HistoryConflict)
    } else if code == 5 {
        Some(RejectionReason::PeerUpgradeRequired)
    } else if code == 6 {
        Some(RejectionReason::BaseHistoryChanged)
    } else if code == 7 {
        Some(RejectionReason::Cancelled)
    } else if code == 8 {
        Some(RejectionReason::RemovedBeforeActivation)
    } else {
        None
    }
}

/// `128` raised to `i`.
pub open spec fn pow128(i: nat) -> nat
    decreases i,
{
    if i == 0 {
        1
    } else {
        128 * pow128((i - 1) as nat)
    }
}

/// The shortest little-endian base-128 encoding of `n`.
pub open spec fn varint(n: nat) -> Seq<u8>
    decreases n,
{
    if n < 128 {
        seq![n as u8]
    } else {
        seq![(n % 128 + 128) as u8] + varint(n / 128)
    }
}

/// Reads a varint that starts `i` digits in at position `k`, with `acc` the
/// value of the digits already read; gives the value and the position after
/// it. At most ten digits are read.
pub open spec fn varint_parse(b: Seq<u8>, k: int, i: nat, acc: nat) -> Option<(nat, int)>
    decreases 10 - i,
{
    if i >= 10 || k < 0 || k >= b.len() {
        None
    } else {
        let d = b[k];
        let next = acc + (d % 128) as nat * pow128(i);
        if d < 128 {
            Some((next, k + 1))
        } else {
            varint_parse(b, k + 1, i + 1, next)
        }
    }
}

/// The payload of a `Rejected` message.
pub open spec fn rejection_payload(reason: RejectionReason, detail: Seq<u8>) -> Seq<u8> {
    seq![reason_code(reason)] + varint(detail.len()) + detail
}

/// The reason a rejection payload carries, if it is well formed: a known
/// reason byte, then a length varint whose detail bytes are all present.
pub open spec fn decoded_rejection_reason(payload: Seq<u8>) -> Option<RejectionReason> {
    if payload.len() == 0 {
        None
    } else {
        match reason_of_code(payload[0]) {
            None => None,
            Some(reason) => match varint_parse(payload, 1, 0, 0) {
                Some((n, end)) => if n <= u64::MAX && end + n <= payload.len() {
                    Some(reason)
                } else {
                    None
                },
                None => None,
            },
        }
    }
}

/// The byte that stands for `reason`.
pub fn reason_byte(reason: RejectionReason) -> (code: u8)
    ensures
        code == reason_code(reason),
        reason_of_code(code) == Some(reason),
{
    match reason {
        RejectionReason::InvitationUnavailable => 0,
        RejectionReason::AuthenticationRejected => 1,
        RejectionReason::IdentityConflict => 2,
        RejectionReason::JoinerHistoryAhead => 3,
        RejectionReason::HistoryConflict => 4,
        RejectionReason::PeerUpgradeRequired => 5,
        RejectionReason::BaseHistoryChanged => 6,
        RejectionReason::Cancelled => 7,
        RejectionReason::RemovedBeforeActivation => 8,
    }
}

/// The reason that `code` stands for, if any.
pub fn reason_from_byte(code: u8) -> (reason: Option<RejectionReason>)
    ensures
        reason == reason_of_code(code),
{
    if code == 0 {
        Some(RejectionReason::InvitationUnavailable)
    } else if code == 1 {
        Some(RejectionReason::AuthenticationRejected)
    } else if code == 2 {
        Some(RejectionReason::IdentityConflict)
    } else if code == 3 {
        Some(RejectionReason::JoinerHistoryAhead)
    } else if code == 4 {
        Some(RejectionReason::HistoryConflict)
    } else if code == 5 {
        Some(RejectionReason::PeerUpgradeRequired)
    } else if code == 6 {
        Some(RejectionReason::BaseHistoryChanged)
    } else if code == 7 {
        Some(RejectionReason::Cancelled)
    } else if code == 8 {
        Some(RejectionReason::RemovedBeforeActivation)
    } else {
        None
    }
}

/// Appends the varint encoding of `n`.
pub fn push_varint(out: &mut Vec<u8>, n: u64)
    ensures
        final(out)@ == old(out)@ + varint(n as nat),
    decreases n,
{
    if n < 128 {
        out.push(n as u8);
        assert(final(out)@ =~= old(out)@ + varint(n as nat));
    } else {
        let ghost before = out@;
        out.push((n % 128 + 128) as u8);
        push_varint(out, n / 128);
        assert(final(out)@ =~= before + varint(n as nat));
    }
}

/// Builds the payload of a `Rejected` message.
pub fn encode_rejection_payload(reason: RejectionReason, detail: &[u8]) -> (payload: Vec<u8>)
    ensures
        payload@ == rejection_payload(reason, detail@),
{
    let mut payload: Vec<u8> = Vec::new();
    payload.push(reason_byte(reason));
    push_varint(&mut payload, detail.len() as u64);
    push_all(&mut payload, detail);
    assert(payload@ =~= rejection_payload(reason, detail@));
    payload
}

proof fn lemma_pow128_bounds(i: nat)
    requires
        i <= 10,
    ensures
        1 <= pow128(i) <= pow128(10),
        pow128(10) == 1180591620717411303424nat,
    decreases 10 - i,
{
    reveal_with_fuel(pow128, 11);
    if i < 10 {
        lemma_pow128_bounds(i + 1);
        assert(pow128(i + 1) == 128 * pow128(i));
    }
}

proof fn lemma_digit_step(acc: nat, d: nat, m: nat)
    requires
        acc < m,
        d < 128,
    ensures
        acc + d * m < 128 * m,
{
    assert(acc + d * m < m + d * m) by (nonlinear_arith)
        requires
            acc < m,
    ;
    assert(m + d * m <= 128 * m) by (nonlinear_arith)
        requires
            d < 128,
    ;
}

/// Reads the reason of a rejection payload.
pub fn decode_rejection_reason(payload: &[u8]) -> (result: Result<RejectionReason, WorkspaceConvergenceError>)
    ensures
        result matches Ok(reason) ==> decoded_rejection_reason(payload@) == Some(reason),
        result is Err <==> decoded_rejection_reason(payload@) is None,
        result is Err ==> result->Err_0 is Inconsistent,
{
    if payload.len() == 0 {
        return Err(inconsistent("rejection payload is invalid"));
    }
    let reason = match reason_from_byte(payload[0]) {
        Some(reason) => reason,
        None => return Err(inconsistent("rejection payload is invalid")),
    };
    let mut k: usize = 1;
    let mut i: u32 = 0;
    let mut acc: u128 = 0;
    let mut mult: u128 = 1;
    proof {
        lemma_pow128_bounds(0);
    }
    loop
        invariant
            payload@.len() >= 1,
            reason_of_code(payload@[0]) == Some(reason),
            i <= 10,
            k == 1 + i,
            mult == pow128(i as nat),
            acc < mult,
            mult <= pow128(10),
            pow128(10) == 1180591620717411303424nat,
            varint_parse(payload@, 1, 0, 0) == varint_parse(payload@, k as int, i as nat, acc as nat),
        decreases 10 - i,
    {
        if i >= 10 || k >= payload.len() {
            return Err(inconsistent("rejection payload is invalid"));
        }
        let d = payload[k];
        proof {
            lemma_digit_step(acc as nat, (d % 128) as nat, mult as nat);
            lemma_pow128_bounds((i + 1) as nat);
            assert(pow128((i + 1) as nat) == 128 * pow128(i as nat));
        }
        let next: u128 = acc + (d % 128) as u128 * mult;
        if d < 128 {
            let end = k + 1;
            if next > u64::MAX as u128 {
                return Err(inconsistent("rejection payload is invalid"));
            }
            if (next as u64) as u128 > (payload.len() - end) as u128 {
                return Err(inconsistent("rejection payload is invalid"));
            }
            return Ok(reason);
        }
        acc = next;
        mult = mult * 128;
        k = k + 1;
        i = i + 1;
    }
}

proof fn lemma_varint_len(n: nat, j: nat)
    requires
        j >= 1,
        n < pow128(j),
    ensures
        varint(n).len() <= j,
    decreases n,
{
    if n >= 128 {
        assert(j >= 2) by {
            if j == 1 {
                reveal_with_fuel(pow128, 2);
            }
        }
        assert(n / 128 < pow128((j - 1) as nat)) by {
            assert(pow128(j) == 128 * pow128((j - 1) as nat));
            assert(n / 128 < pow128((j - 1) as nat)) by (nonlinear_arith)
                requires
                    n < 128 * pow128((j - 1) as nat),
            ;
        }
        lemma_varint_len(n / 128, (j - 1) as nat);
    }
}

proof fn lemma_varint_parse(b: Seq<u8>, k: int, i: nat, acc: nat, n: nat)
    requires
        0 <= k,
        k + varint(n).len() <= b.len(),
        b.subrange(k, k + varint(n).len()) == varint(n),
        i + varint(n).len() <= 10,
    ensures
        varint_parse(b, k, i, acc) == Some((acc + n * pow128(i), k + varint(n).len())),
    decreases n,
{
    let v = varint(n);
    assert(b[k] == v[0]) by {
        assert(b.subrange(k, k + v.len())[0] == b[k]);
    }
    if n < 128 {
        assert(v[0] == n as u8);
        assert((n as u8) % 128 == n);
    } else {
        let rest = varint(n / 128);
        assert(v == seq![(n % 128 + 128) as u8] + rest);
        assert(b[k] % 128 == n % 128);
        assert(b.subrange(k + 1, k + 1 + rest.len()) =~= rest) by {
            assert forall|x: int| 0 <= x < rest.len() implies b.subrange(k + 1, k + 1 + rest.len())[x] == rest[x] by {
                assert(b.subrange(k, k + v.len())[x + 1] == v[x + 1]);
            }
        }
        let next = acc + (n % 128) * pow128(i);
        lemma_varint_parse(b, k + 1, i + 1, next, n / 128);
        assert(pow128(i + 1) == 128 * pow128(i));
        assert(next + (n / 128) * pow128(i + 1) == acc + n * pow128(i)) by (nonlinear_arith)
            requires
                next == acc + (n % 128) * pow128(i),
                pow128(i + 1) == 128 * pow128(i),
                n == 128 * (n / 128) + n % 128,
        ;
    }
}

/// Decoding a rejection payload gives back the reason it was built with, for
/// every detail whose length fits in 64 bits.
pub proof fn rejection_payload_round_trip(reason: RejectionReason, detail: Seq<u8>)
    requires
        detail.len() <= u64::MAX,
    ensures
        decoded_rejection_reason(rejection_payload(reason, detail)) == Some(reason),
{
    let n = detail.len();
    let p = rejection_payload(reason, detail);
    lemma_pow128_bounds(10);
    lemma_varint_len(n, 10);
    assert(p.subrange(1, 1 + varint(n).len() as int) =~= varint(n));
    lemma_varint_parse(p, 1, 0, 0, n);
    assert(pow128(0) == 1);
}

} // verus!
