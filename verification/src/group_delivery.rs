//! Delivery of pending group updates: which updates count as delivered and
//! which acknowledgment failure the batch reports.
use vstd::prelude::*;

verus! {

/// What happened to one pending group update: whether it was dispatched,
/// and, if so, what acknowledging it gave.
#[derive(Debug, Clone)]
pub enum UpdateOutcome<E> {
    /// The dispatch failed; the update stays pending.
    NotDispatched,
    /// Dispatched; the store says whether this acknowledgment settled it.
    Acknowledged(bool),
    /// Dispatched, but acknowledging it failed with this error.
    AcknowledgmentFailed(E),
}

/// How many updates were dispatched and newly acknowledged.
pub open spec fn delivered_count<E>(s: Seq<UpdateOutcome<E>>) -> nat
    decreases s.len(),
{
    if s.len() == 0 {
        0
    } else {
        delivered_count(s.drop_last()) + match s.last() {
            UpdateOutcome::Acknowledged(true) => 1nat,
            _ => 0nat,
        }
    }
}

/// The last acknowledgment failure, if any.
pub open spec fn last_failure<E>(s: Seq<UpdateOutcome<E>>) -> Option<E>
    decreases s.len(),
{
    if s.len() == 0 {
        None
    } else {
        match s.last() {
            UpdateOutcome::AcknowledgmentFailed(e) => Some(e),
            _ => last_failure(s.drop_last()),
        }
    }
}

/// No more updates are counted than there are.
pub proof fn lemma_delivered_count_bound<E>(s: Seq<UpdateOutcome<E>>)
    ensures
        delivered_count(s) <= s.len(),
    decreases s.len(),
{
    if s.len() > 0 {
        lemma_delivered_count_bound(s.drop_last());
    }
}

/// The result of a delivery pass over the pending group updates, in order:
/// the number of updates delivered and settled, unless acknowledging one of
/// them failed, in which case the last such failure is reported after the
/// whole batch was tried.
pub fn deliver_pending<E>(outcomes: Vec<UpdateOutcome<E>>) -> (result: Result<usize, E>)
    ensures
        match last_failure(outcomes@) {
            Some(e) => result == Err::<usize, E>(e),
            None => result matches Ok(n) && n == delivered_count(outcomes@),
        },
{
    let ghost all = outcomes@;
    let mut delivered: usize = 0;
    let mut last_failed: Option<usize> = None;
    let mut i: usize = 0;
    while i < outcomes.len()
        invariant
            i <= all.len(),
            all == outcomes@,
            delivered == delivered_count(all.subrange(0, i as int)),
            delivered <= i,
            last_failed matches Some(k) ==> k < i && all[k as int] is AcknowledgmentFailed && last_failure(
                all.subrange(0, i as int),
            ) == Some(all[k as int]->AcknowledgmentFailed_0),
            last_failed is None ==> last_failure(all.subrange(0, i as int)) is None,
        decreases all.len() - i,
    {
        proof {
            assert(all.subrange(0, i + 1).drop_last() =~= all.subrange(0, i as int));
            assert(all.subrange(0, i + 1).last() == all[i as int]);
        }
        match &outcomes[i] {
            UpdateOutcome::NotDispatched => {},
            UpdateOutcome::Acknowledged(settled) => {
                if *settled {
                    delivered = delivered + 1;
                }
            },
            UpdateOutcome::AcknowledgmentFailed(_) => {
                last_failed = Some(i);
            },
        }
        i = i + 1;
    }
    proof {
        assert(all.subrange(0, i as int) =~= all);
    }
    match last_failed {
        Some(k) => {
            let mut outcomes = outcomes;
            match outcomes.remove(k) {
                UpdateOutcome::AcknowledgmentFailed(error) => Err(error),
                _ => {
                    assert(false);
                    Ok(delivered)
                },
            }
        },
        None => Ok(delivered),
    }
}

} // verus!
