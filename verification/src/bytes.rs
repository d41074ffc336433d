//! Byte-level building blocks: SHA-256 through the `sha2` crate, big-endian
//! length prefixes, the admission framing domains and byte comparisons.
use vstd::prelude::*;
use sha2::Digest;

verus! {

/// The SHA-256 digest of `data`, as the `sha2` crate computes it.
pub uninterp spec fn sha256_digest(data: Seq<u8>) -> Seq<u8>;

/// Calls `sha2::Sha256::digest`. The contract claims only that the 32 bytes
/// returned are the SHA-256 digest of the input; SHA-256 itself is not
/// restated here.
#[verifier::external_body]
pub(crate) fn sha256(data: &[u8]) -> (digest: [u8; 32])
    ensures
        digest@ == sha256_digest(data@),
{
    sha2::Sha256::digest(data).into()
}

/// The eight big-endian bytes of `n`.
pub open spec fn be64(n: u64) -> Seq<u8> {
    seq![
        ((n / 0x100000000000000) % 0x100) as u8,
        ((n / 0x1000000000000) % 0x100) as u8,
        ((n / 0x10000000000) % 0x100) as u8,
        ((n / 0x100000000) % 0x100) as u8,
        ((n / 0x1000000) % 0x100) as u8,
        ((n / 0x10000) % 0x100) as u8,
        ((n / 0x100) % 0x100) as u8,
        (n % 0x100) as u8,
    ]
}

/// Appends the big-endian bytes of `n`.
pub fn push_be64(out: &mut Vec<u8>, n: u64)
    ensures
        final(out)@ == old(out)@ + be64(n),
{
    out.push(((n / 0x100000000000000) % 0x100) as u8);
    out.push(((n / 0x1000000000000) % 0x100) as u8);
    out.push(((n / 0x10000000000) % 0x100) as u8);
    out.push(((n / 0x100000000) % 0x100) as u8);
    out.push(((n / 0x1000000) % 0x100) as u8);
    out.push(((n / 0x10000) % 0x100) as u8);
    out.push(((n / 0x100) % 0x100) as u8);
    out.push((n % 0x100) as u8);
    assert(final(out)@ =~= old(out)@ + be64(n));
}

/// Appends every byte of `data`.
pub fn push_all(out: &mut Vec<u8>, data: &[u8])
    ensures
        final(out)@ == old(out)@ + data@,
{
    let ghost start = out@;
    let mut i: usize = 0;
    while i < data.len()
        invariant
            i <= data@.len(),
            out@ == start + data@.subrange(0, i as int),
        decreases data@.len() - i,
    {
        out.push(data[i]);
        i = i + 1;
        assert(out@ =~= start + data@.subrange(0, i as int));
    }
    assert(data@.subrange(0, data@.len() as int) =~= data@);
}

/// A fresh vector holding the bytes of `data`.
pub fn bytes_to_vec(data: &[u8]) -> (out: Vec<u8>)
    ensures
        out@ == data@,
{
    let mut out: Vec<u8> = Vec::new();
    push_all(&mut out, data);
    assert(out@ =~= data@);
    out
}

/// Whether two byte strings are equal.
pub fn bytes_eq(a: &[u8], b: &[u8]) -> (equal: bool)
    ensures
        equal == (a@ == b@),
{
    if a.len() != b.len() {
        return false;
    }
    let mut i: usize = 0;
    while i < a.len()
        invariant
            i <= a@.len(),
            a@.len() == b@.len(),
            forall|j: int| 0 <= j < i ==> a@[j] == b@[j],
        decreases a@.len() - i,
    {
        if a[i] != b[i] {
            return false;
        }
        i = i + 1;
    }
    assert(a@ =~= b@);
    true
}

/// Whether two 32-byte identifiers are equal.
pub fn id_eq(a: &[u8; 32], b: &[u8; 32]) -> (equal: bool)
    ensures
        equal == (a@ == b@),
{
    let mut i: usize = 0;
    while i < 32
        invariant
            i <= 32,
            forall|j: int| 0 <= j < i ==> a@[j] == b@[j],
        decreases 32 - i,
    {
        if a[i] != b[i] {
            return false;
        }
        i = i + 1;
    }
    assert(a@ =~= b@);
    true
}

/// Whether two optional 32-byte identifiers are equal.
pub fn opt_id_eq(a: &Option<[u8; 32]>, b: &Option<[u8; 32]>) -> (equal: bool)
    ensures
        equal == (opt_id_view(*a) == opt_id_view(*b)),
{
    match (a, b) {
        (Some(x), Some(y)) => id_eq(x, y),
        (None, None) => true,
        _ => false,
    }
}

/// Whether an optional byte string holds exactly `b`.
pub fn opt_bytes_is(a: &Option<Vec<u8>>, b: &[u8]) -> (equal: bool)
    ensures
        equal == (opt_bytes_view(a) == Some(b@)),
{
    match a {
        Some(x) => bytes_eq(x.as_slice(), b),
        None => false,
    }
}

/// Whether two optional byte strings are equal.
pub fn opt_bytes_eq(a: &Option<Vec<u8>>, b: &Option<Vec<u8>>) -> (equal: bool)
    ensures
        equal == (opt_bytes_view(a) == opt_bytes_view(b)),
{
    match (a, b) {
        (Some(x), Some(y)) => bytes_eq(x.as_slice(), y.as_slice()),
        (None, None) => true,
        _ => false,
    }
}

/// The view of an optional byte string.
pub open spec fn opt_bytes_view(o: &Option<Vec<u8>>) -> Option<Seq<u8>> {
    match o {
        Some(v) => Some(v@),
        None => None,
    }
}

/// The view of an optional 32-byte identifier.
pub open spec fn opt_id_view(o: Option<[u8; 32]>) -> Option<Seq<u8>> {
    match o {
        Some(v) => Some(v@),
        None => None,
    }
}

/// A copy of an optional byte string.
pub fn clone_opt_bytes(o: &Option<Vec<u8>>) -> (out: Option<Vec<u8>>)
    ensures
        opt_bytes_view(&out) == opt_bytes_view(o),
{
    match o {
        Some(v) => Some(bytes_to_vec(v.as_slice())),
        None => None,
    }
}

/// The 32 zero bytes that stand for a missing predecessor.
pub open spec fn zero_id() -> Seq<u8> {
    Seq::new(32, |i: int| 0u8)
}

/// The framing domain of admission message identifiers.
pub open spec fn message_domain() -> Seq<u8> {
    seq![117u8, 110, 105, 99, 108, 105, 112, 98, 111, 97, 114, 100, 47, 97, 100, 109, 105, 115, 115, 105, 111, 110, 45, 109, 101, 115, 115, 97, 103, 101, 47, 118, 49, 0]
}

/// The framing domain of admission acknowledgments.
pub open spec fn ack_domain() -> Seq<u8> {
    seq![117u8, 110, 105, 99, 108, 105, 112, 98, 111, 97, 114, 100, 47, 97, 100, 109, 105, 115, 115, 105, 111, 110, 45, 109, 101, 115, 115, 97, 103, 101, 45, 97, 99, 107, 47, 118, 49, 0]
}

/// Appends the framing domain of admission message identifiers.
pub fn push_message_domain(out: &mut Vec<u8>)
    ensures
        final(out)@ == old(out)@ + message_domain(),
{
    out.push(117u8);
    out.push(110u8);
    out.push(105u8);
    out.push(99u8);
    out.push(108u8);
    out.push(105u8);
    out.push(112u8);
    out.push(98u8);
    out.push(111u8);
    out.push(97u8);
    out.push(114u8);
    out.push(100u8);
    out.push(47u8);
    out.push(97u8);
    out.push(100u8);
    out.push(109u8);
    out.push(105u8);
    out.push(115u8);
    out.push(115u8);
    out.push(105u8);
    out.push(111u8);
    out.push(110u8);
    out.push(45u8);
    out.push(109u8);
    out.push(101u8);
    out.push(115u8);
    out.push(115u8);
    out.push(97u8);
    out.push(103u8);
    out.push(101u8);
    out.push(47u8);
    out.push(118u8);
    out.push(49u8);
    out.push(0u8);
    assert(final(out)@ =~= old(out)@ + message_domain());
}

/// Appends the framing domain of admission acknowledgments.
pub fn push_ack_domain(out: &mut Vec<u8>)
    ensures
        final(out)@ == old(out)@ + ack_domain(),
{
    out.push(117u8);
    out.push(110u8);
    out.push(105u8);
    out.push(99u8);
    out.push(108u8);
    out.push(105u8);
    out.push(112u8);
    out.push(98u8);
    out.push(111u8);
    out.push(97u8);
    out.push(114u8);
    out.push(100u8);
    out.push(47u8);
    out.push(97u8);
    out.push(100u8);
    out.push(109u8);
    out.push(105u8);
    out.push(115u8);
    out.push(115u8);
    out.push(105u8);
    out.push(111u8);
    out.push(110u8);
    out.push(45u8);
    out.push(109u8);
    out.push(101u8);
    out.push(115u8);
    out.push(115u8);
    out.push(97u8);
    out.push(103u8);
    out.push(101u8);
    out.push(45u8);
    out.push(97u8);
    out.push(99u8);
    out.push(107u8);
    out.push(47u8);
    out.push(118u8);
    out.push(49u8);
    out.push(0u8);
    assert(final(out)@ =~= old(out)@ + ack_domain());
}


/// Byte-string constants of the admission protocol.

/// The bytes of `base_history_changed`.
pub open spec fn lit_base_history_changed() -> Seq<u8> {
    seq![98u8, 97, 115, 101, 95, 104, 105, 115, 116, 111, 114, 121, 95, 99, 104, 97, 110, 103, 101, 100]
}

/// A fresh vector holding the bytes of `base_history_changed`.
pub fn base_history_changed_bytes() -> (out: Vec<u8>)
    ensures
        out@ == lit_base_history_changed(),
{
    let mut out: Vec<u8> = Vec::new();
    out.push(98u8);
    out.push(97u8);
    out.push(115u8);
    out.push(101u8);
    out.push(95u8);
    out.push(104u8);
    out.push(105u8);
    out.push(115u8);
    out.push(116u8);
    out.push(111u8);
    out.push(114u8);
    out.push(121u8);
    out.push(95u8);
    out.push(99u8);
    out.push(104u8);
    out.push(97u8);
    out.push(110u8);
    out.push(103u8);
    out.push(101u8);
    out.push(100u8);
    assert(out@ =~= lit_base_history_changed());
    out
}

/// The bytes of `cancelled`.
pub open spec fn lit_cancelled() -> Seq<u8> {
    seq![99u8, 97, 110, 99, 101, 108, 108, 101, 100]
}

/// A fresh vector holding the bytes of `cancelled`.
pub fn cancelled_bytes() -> (out: Vec<u8>)
    ensures
        out@ == lit_cancelled(),
{
    let mut out: Vec<u8> = Vec::new();
    out.push(99u8);
    out.push(97u8);
    out.push(110u8);
    out.push(99u8);
    out.push(101u8);
    out.push(108u8);
    out.push(108u8);
    out.push(101u8);
    out.push(100u8);
    assert(out@ =~= lit_cancelled());
    out
}

/// The bytes of `too_late_committed`.
pub open spec fn lit_too_late_committed() -> Seq<u8> {
    seq![116u8, 111, 111, 95, 108, 97, 116, 101, 95, 99, 111, 109, 109, 105, 116, 116, 101, 100]
}

/// A fresh vector holding the bytes of `too_late_committed`.
pub fn too_late_committed_bytes() -> (out: Vec<u8>)
    ensures
        out@ == lit_too_late_committed(),
{
    let mut out: Vec<u8> = Vec::new();
    out.push(116u8);
    out.push(111u8);
    out.push(111u8);
    out.push(95u8);
    out.push(108u8);
    out.push(97u8);
    out.push(116u8);
    out.push(101u8);
    out.push(95u8);
    out.push(99u8);
    out.push(111u8);
    out.push(109u8);
    out.push(109u8);
    out.push(105u8);
    out.push(116u8);
    out.push(116u8);
    out.push(101u8);
    out.push(100u8);
    assert(out@ =~= lit_too_late_committed());
    out
}

/// The bytes of `cancel_requested`.
pub open spec fn lit_cancel_requested() -> Seq<u8> {
    seq![99u8, 97, 110, 99, 101, 108, 95, 114, 101, 113, 117, 101, 115, 116, 101, 100]
}

/// A fresh vector holding the bytes of `cancel_requested`.
pub fn cancel_requested_bytes() -> (out: Vec<u8>)
    ensures
        out@ == lit_cancel_requested(),
{
    let mut out: Vec<u8> = Vec::new();
    out.push(99u8);
    out.push(97u8);
    out.push(110u8);
    out.push(99u8);
    out.push(101u8);
    out.push(108u8);
    out.push(95u8);
    out.push(114u8);
    out.push(101u8);
    out.push(113u8);
    out.push(117u8);
    out.push(101u8);
    out.push(115u8);
    out.push(116u8);
    out.push(101u8);
    out.push(100u8);
    assert(out@ =~= lit_cancel_requested());
    out
}

/// The bytes of `pairing-invitation-service`.
pub open spec fn lit_invitation_service() -> Seq<u8> {
    seq![112u8, 97, 105, 114, 105, 110, 103, 45, 105, 110, 118, 105, 116, 97, 116, 105, 111, 110, 45, 115, 101, 114, 118, 105, 99, 101]
}

/// A fresh vector holding the bytes of `pairing-invitation-service`.
pub fn invitation_service_bytes() -> (out: Vec<u8>)
    ensures
        out@ == lit_invitation_service(),
{
    let mut out: Vec<u8> = Vec::new();
    out.push(112u8);
    out.push(97u8);
    out.push(105u8);
    out.push(114u8);
    out.push(105u8);
    out.push(110u8);
    out.push(103u8);
    out.push(45u8);
    out.push(105u8);
    out.push(110u8);
    out.push(118u8);
    out.push(105u8);
    out.push(116u8);
    out.push(97u8);
    out.push(116u8);
    out.push(105u8);
    out.push(111u8);
    out.push(110u8);
    out.push(45u8);
    out.push(115u8);
    out.push(101u8);
    out.push(114u8);
    out.push(118u8);
    out.push(105u8);
    out.push(99u8);
    out.push(101u8);
    assert(out@ =~= lit_invitation_service());
    out
}

/// The bytes of `superseded_by_new_join`.
pub open spec fn lit_superseded_by_new_join() -> Seq<u8> {
    seq![115u8, 117, 112, 101, 114, 115, 101, 100, 101, 100, 95, 98, 121, 95, 110, 101, 119, 95, 106, 111, 105, 110]
}

/// A fresh vector holding the bytes of `superseded_by_new_join`.
pub fn superseded_by_new_join_bytes() -> (out: Vec<u8>)
    ensures
        out@ == lit_superseded_by_new_join(),
{
    let mut out: Vec<u8> = Vec::new();
    out.push(115u8);
    out.push(117u8);
    out.push(112u8);
    out.push(101u8);
    out.push(114u8);
    out.push(115u8);
    out.push(101u8);
    out.push(100u8);
    out.push(101u8);
    out.push(100u8);
    out.push(95u8);
    out.push(98u8);
    out.push(121u8);
    out.push(95u8);
    out.push(110u8);
    out.push(101u8);
    out.push(119u8);
    out.push(95u8);
    out.push(106u8);
    out.push(111u8);
    out.push(105u8);
    out.push(110u8);
    assert(out@ =~= lit_superseded_by_new_join());
    out
}

} // verus!
