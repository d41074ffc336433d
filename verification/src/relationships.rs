//! The member relationships a sponsor offers to a joining device: the
//! current members plus the joiner, refused when the joiner's device or
//! member instance already belongs to the workspace, in the order of their
//! member instances.
use vstd::prelude::*;
use crate::attempt::AdmissionChangeFacts;
use crate::candidate::string_eq;
use crate::error::WorkspaceConvergenceError;

verus! {

broadcast use vstd::seq_lib::group_to_multiset_ensures;

/// Whether `a` sorts strictly before `b` from byte `i` on, comparing bytes in
/// order.
pub open spec fn instance_lt_from(a: Seq<u8>, b: Seq<u8>, i: int) -> bool
    decreases a.len() - i,
{
    if i < 0 || i >= a.len() || i >= b.len() {
        false
    } else if a[i] < b[i] {
        true
    } else if a[i] > b[i] {
        false
    } else {
        instance_lt_from(a, b, i + 1)
    }
}

/// Whether member instance `a` sorts strictly before `b`.
pub open spec fn instance_lt(a: Seq<u8>, b: Seq<u8>) -> bool {
    instance_lt_from(a, b, 0)
}

/// Sorting strictly before is transitive.
pub proof fn lemma_instance_lt_transitive(a: Seq<u8>, b: Seq<u8>, c: Seq<u8>, i: int)
    requires
        a.len() == b.len() == c.len(),
        instance_lt_from(a, b, i),
        instance_lt_from(b, c, i),
    ensures
        instance_lt_from(a, c, i),
    decreases a.len() - i,
{
    if 0 <= i < a.len() && a[i] == b[i] && b[i] == c[i] {
        lemma_instance_lt_transitive(a, b, c, i + 1);
    }
}

/// No member instance sorts strictly before itself.
pub proof fn lemma_instance_lt_irreflexive(a: Seq<u8>, i: int)
    ensures
        !instance_lt_from(a, a, i),
    decreases a.len() - i,
{
    if 0 <= i < a.len() {
        lemma_instance_lt_irreflexive(a, i + 1);
    }
}

/// Whether member instance `a` sorts strictly before `b`.
fn instance_less(a: &[u8; 32], b: &[u8; 32]) -> (less: bool)
    ensures
        less == instance_lt(a@, b@),
{
    let mut i: usize = 0;
    while i < 32
        invariant
            i <= 32,
            a@.len() == 32,
            b@.len() == 32,
            instance_lt(a@, b@) == instance_lt_from(a@, b@, i as int),
        decreases 32 - i,
    {
        if a[i] < b[i] {
            return true;
        }
        if a[i] > b[i] {
            return false;
        }
        i = i + 1;
    }
    false
}

/// Whether no relationship sorts strictly before an earlier one.
pub open spec fn sorted_by_instance(s: Seq<AdmissionChangeFacts>) -> bool {
    forall|i: int, j: int| 0 <= i < j < s.len() ==> !#[trigger] instance_lt(
        s[j].member_instance@,
        s[i].member_instance@,
    )
}

/// Whether `request` names a device or member instance that already has a
/// relationship.
pub open spec fn conflicts(existing: Seq<AdmissionChangeFacts>, request: AdmissionChangeFacts) -> bool {
    exists|i: int| 0 <= i < existing.len() && #[trigger] clashes(existing[i], request)
}

/// Whether two relationships share their device or their member instance.
pub open spec fn clashes(a: AdmissionChangeFacts, b: AdmissionChangeFacts) -> bool {
    a.device_id@ == b.device_id@ || a.member_instance@ == b.member_instance@
}

/// Inserts `item` into the sorted `sorted`, before the first relationship
/// that sorts strictly after it.
fn insert_sorted(sorted: &mut Vec<AdmissionChangeFacts>, item: AdmissionChangeFacts)
    requires
        sorted_by_instance(old(sorted)@),
    ensures
        sorted_by_instance(final(sorted)@),
        final(sorted)@.to_multiset() == old(sorted)@.to_multiset().insert(item),
{
    let ghost before = sorted@;
    let mut p: usize = 0;
    let mut stop = false;
    while p < sorted.len() && !stop
        invariant
            p <= sorted@.len(),
            sorted@ == before,
            forall|k: int| 0 <= k < p ==> !#[trigger] instance_lt(item.member_instance@, sorted@[k].member_instance@),
            stop ==> p < sorted@.len() && instance_lt(item.member_instance@, sorted@[p as int].member_instance@),
        decreases sorted@.len() - p + (if stop { 0int } else { 1int }),
    {
        if instance_less(&item.member_instance, &sorted[p].member_instance) {
            stop = true;
        } else {
            p = p + 1;
        }
    }
    let ghost x = item;
    sorted.insert(p, item);
    proof {
        vstd::seq_lib::to_multiset_insert(before, p as int, x);
        let after = sorted@;
        assert forall|i: int, j: int| 0 <= i < j < after.len() implies !#[trigger] instance_lt(
            after[j].member_instance@,
            after[i].member_instance@,
        ) by {
            if j < p {
                assert(after[i] == before[i] && after[j] == before[j]);
            } else if j == p {
                assert(after[i] == before[i]);
            } else if i > p {
                assert(after[i] == before[i - 1] && after[j] == before[j - 1]);
            } else if i == p {
                assert(after[j] == before[j - 1]);
                assert(instance_lt(x.member_instance@, before[p as int].member_instance@));
                if j - 1 > p {
                    assert(!instance_lt(before[j - 1].member_instance@, before[p as int].member_instance@));
                }
                if instance_lt(before[j - 1].member_instance@, x.member_instance@) {
                    lemma_instance_lt_transitive(
                        before[j - 1].member_instance@,
                        x.member_instance@,
                        before[p as int].member_instance@,
                        0,
                    );
                    lemma_instance_lt_irreflexive(before[p as int].member_instance@, 0);
                }
            } else {
                assert(after[i] == before[i] && after[j] == before[j - 1]);
            }
        }
    }
}

/// The relationships a sponsor offers: the current members' relationships
/// and the joiner's, ordered by member instance. A joiner whose device or
/// member instance already has a relationship is refused as a conflict.
pub fn assemble_target_relationships(
    existing: Vec<AdmissionChangeFacts>,
    request: AdmissionChangeFacts,
) -> (result: Result<Vec<AdmissionChangeFacts>, WorkspaceConvergenceError>)
    ensures
        result is Err <==> conflicts(existing@, request),
        result is Err ==> result->Err_0 is AdmissionConflict,
        result matches Ok(r) ==> sorted_by_instance(r@) && r@.to_multiset() == existing@.push(request).to_multiset(),
{
    let mut i: usize = 0;
    while i < existing.len()
        invariant
            i <= existing@.len(),
            forall|k: int| 0 <= k < i ==> !#[trigger] clashes(existing@[k], request),
        decreases existing@.len() - i,
    {
        if string_eq(&existing[i].device_id, &request.device_id) || crate::bytes::id_eq(
            &existing[i].member_instance,
            &request.member_instance,
        ) {
            assert(clashes(existing@[i as int], request));
            return Err(WorkspaceConvergenceError::AdmissionConflict);
        }
        assert(!clashes(existing@[i as int], request));
        i = i + 1;
    }
    let ghost all = existing@.push(request);
    let mut remaining = existing;
    remaining.push(request);
    let mut sorted: Vec<AdmissionChangeFacts> = Vec::new();
    while remaining.len() > 0
        invariant
            sorted_by_instance(sorted@),
            sorted@.to_multiset().add(remaining@.to_multiset()) == all.to_multiset(),
        decreases remaining@.len(),
    {
        let ghost rest_before = remaining@;
        let item = remaining.pop().unwrap();
        proof {
            assert(rest_before == remaining@.push(item));
            vstd::seq_lib::to_multiset_build(remaining@, item);
        }
        insert_sorted(&mut sorted, item);
    }
    proof {
        assert(remaining@.to_multiset() =~= vstd::multiset::Multiset::empty());
    }
    Ok(sorted)
}

} // verus!
