//! Pruning of instance handles whose sounds have finished playing.
use vstd::prelude::*;
use crate::store::{stopped_in, InstanceTable, PlaybackState};

verus! {

broadcast use vstd::seq_lib::group_filter_ensures;

/// The handles an emitter still tracks after cleanup against the store
/// snapshot `m`: every handle but those the store reports as stopped, in
/// their original order. A handle the store lacks is kept.
pub open spec fn unstopped(m: Map<u64, PlaybackState>, hs: Seq<u64>) -> Seq<u64> {
    hs.filter(|h: u64| !stopped_in(m, h))
}

/// Removes from `handles` every instance that `table` reports as stopped,
/// keeping the others, and those `table` lacks, in order.
pub fn retain_unstopped(handles: &mut Vec<u64>, table: &InstanceTable)
    ensures
        final(handles)@ == unstopped(table@, old(handles)@),
{
    let ghost hs = handles@;
    let mut kept: Vec<u64> = Vec::new();
    let mut i: usize = 0;
    while i < handles.len()
        invariant
            i <= handles.len(),
            handles@ == hs,
            kept@ == unstopped(table@, hs.take(i as int)),
        decreases handles.len() - i,
    {
        let h = handles[i];
        if !table.is_stopped(h) {
            kept.push(h);
        }
        proof {
            assert(hs.take(i + 1).drop_last() =~= hs.take(i as int));
            reveal(Seq::filter);
        }
        i += 1;
    }
    proof {
        assert(hs.take(i as int) =~= hs);
    }
    *handles = kept;
}

/// Cleanup drops a handle exactly when the store reports it as stopped: a
/// handle survives if and only if it was tracked and the store either lacks
/// it or reports it in any other state.
pub proof fn lemma_cleanup_drops_only_stopped(m: Map<u64, PlaybackState>, hs: Seq<u64>, h: u64)
    ensures
        unstopped(m, hs).contains(h) <==> (hs.contains(h) && !stopped_in(m, h)),
        hs.contains(h) && !m.contains_key(h) ==> unstopped(m, hs).contains(h),
{
    let pred = |x: u64| !stopped_in(m, x);
    if unstopped(m, hs).contains(h) {
        hs.lemma_filter_contains_rev(pred, h);
        let k = choose|k: int| 0 <= k < unstopped(m, hs).len() && unstopped(m, hs)[k] == h;
        assert(pred(unstopped(m, hs)[k]));
    }
    if hs.contains(h) && !stopped_in(m, h) {
        let k = choose|k: int| 0 <= k < hs.len() && hs[k] == h;
        hs.lemma_filter_contains(pred, k);
    }
}

} // verus!
