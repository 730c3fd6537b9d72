//! Planning of one spatialization tick: which live instances receive the
//! volume and panning computed for the emitter that owns them.
use vstd::prelude::*;
use crate::store::{InstanceTable, PlaybackState};

verus! {

/// The writes an update makes for emitter `e` tracking handles `hs`: one
/// pair `(e, h)` for each handle `h` the store holds, in list order.
/// Handles the store lacks are skipped.
pub open spec fn emitter_writes(e: usize, hs: Seq<u64>, m: Map<u64, PlaybackState>) -> Seq<(usize, u64)>
    decreases hs.len(),
{
    if hs.len() == 0 {
        Seq::empty()
    } else {
        let rest = emitter_writes(e, hs.drop_last(), m);
        if m.contains_key(hs.last()) {
            rest.push((e, hs.last()))
        } else {
            rest
        }
    }
}

/// The writes of a full update over the emitters `es`, emitter by emitter.
pub open spec fn all_writes(es: Seq<Vec<u64>>, m: Map<u64, PlaybackState>) -> Seq<(usize, u64)>
    decreases es.len(),
{
    if es.len() == 0 {
        Seq::empty()
    } else {
        all_writes(es.drop_last(), m) + emitter_writes((es.len() - 1) as usize, es.last()@, m)
    }
}

/// A write for emitter `e` is planned exactly for the handles of `hs` that
/// the store holds.
pub proof fn lemma_emitter_writes_members(e: usize, hs: Seq<u64>, m: Map<u64, PlaybackState>, w: (usize, u64))
    ensures
        emitter_writes(e, hs, m).contains(w) <==> (w.0 == e && hs.contains(w.1) && m.contains_key(w.1)),
    decreases hs.len(),
{
    if hs.len() > 0 {
        let init = hs.drop_last();
        lemma_emitter_writes_members(e, init, m, w);
        let rest = emitter_writes(e, init, m);
        if m.contains_key(hs.last()) {
            assert(rest.push((e, hs.last()))[rest.len() as int] == (e, hs.last()));
            if rest.push((e, hs.last())).contains(w) && w != (e, hs.last()) {
                let k = choose|k: int| 0 <= k < rest.len() + 1 && rest.push((e, hs.last()))[k] == w;
                assert(rest[k] == w);
            }
            if rest.contains(w) {
                let k = choose|k: int| 0 <= k < rest.len() && rest[k] == w;
                assert(rest.push((e, hs.last()))[k] == w);
            }
        }
        if hs.contains(w.1) && w.1 != hs.last() {
            let k = choose|k: int| 0 <= k < hs.len() && hs[k] == w.1;
            assert(init[k] == w.1);
        }
        if init.contains(w.1) {
            let k = choose|k: int| 0 <= k < init.len() && init[k] == w.1;
            assert(hs[k] == w.1);
        }
        assert(hs[hs.len() - 1] == hs.last());
    }
}

/// An update with one receiver writes into an instance exactly when some
/// emitter tracks it and the store holds it: handles missing from the store
/// are skipped, and each write names the emitter whose parameters apply.
pub proof fn lemma_update_writes_members(es: Seq<Vec<u64>>, m: Map<u64, PlaybackState>, w: (usize, u64))
    requires
        es.len() <= usize::MAX,
    ensures
        all_writes(es, m).contains(w) <==> (w.0 < es.len() && es[w.0 as int]@.contains(w.1) && m.contains_key(w.1)),
    decreases es.len(),
{
    if es.len() > 0 {
        let init = es.drop_last();
        let last = (es.len() - 1) as usize;
        lemma_update_writes_members(init, m, w);
        lemma_emitter_writes_members(last, es.last()@, m, w);
        let a = all_writes(init, m);
        let b = emitter_writes(last, es.last()@, m);
        if (a + b).contains(w) {
            let k = choose|k: int| 0 <= k < (a + b).len() && (a + b)[k] == w;
            if k < a.len() {
                assert(a[k] == w);
            } else {
                assert(b[k - a.len()] == w);
            }
        }
        if a.contains(w) {
            let k = choose|k: int| 0 <= k < a.len() && a[k] == w;
            assert((a + b)[k] == w);
        }
        if b.contains(w) {
            let k = choose|k: int| 0 <= k < b.len() && b[k] == w;
            assert((a + b)[a.len() + k] == w);
        }
        if w.0 < init.len() {
            assert(init[w.0 as int] == es[w.0 as int]);
        }
    }
}

/// Whether a tick spatializes at all: only with exactly one receiver.
pub fn sole_receiver(receiver_count: usize) -> (r: bool)
    ensures
        r == (receiver_count == 1),
{
    receiver_count == 1
}

/// Appends to `out` the writes for emitter `e`, whose handles are `handles`.
pub fn writes_for_emitter(e: usize, handles: &Vec<u64>, table: &InstanceTable, out: &mut Vec<(usize, u64)>)
    ensures
        final(out)@ == old(out)@ + emitter_writes(e, handles@, table@),
{
    let ghost start = out@;
    let mut j: usize = 0;
    while j < handles.len()
        invariant
            j <= handles.len(),
            out@ == start + emitter_writes(e, handles@.take(j as int), table@),
        decreases handles.len() - j,
    {
        let h = handles[j];
        let ghost before = out@;
        if table.contains(h) {
            out.push((e, h));
        }
        proof {
            let hs = handles@.take(j + 1);
            assert(hs.drop_last() =~= handles@.take(j as int));
            let rest = emitter_writes(e, hs.drop_last(), table@);
            if table@.contains_key(h) {
                assert(start + rest.push((e, h)) =~= (start + rest).push((e, h)));
            }
        }
        j += 1;
    }
    proof {
        assert(handles@.take(j as int) =~= handles@);
    }
}

/// The instance writes of one update tick, as pairs of an emitter's index in
/// `emitters` and an instance handle of that emitter. With exactly one
/// receiver, every handle the store holds is written, emitter by emitter and
/// in list order; with no receiver or several, nothing is written.
pub fn plan_update(receiver_count: usize, emitters: &Vec<Vec<u64>>, table: &InstanceTable) -> (r: Vec<(usize, u64)>)
    ensures
        receiver_count == 1 ==> r@ == all_writes(emitters@, table@),
        receiver_count != 1 ==> r@.len() == 0,
{
    let mut out: Vec<(usize, u64)> = Vec::new();
    if !sole_receiver(receiver_count) {
        return out;
    }
    let mut i: usize = 0;
    while i < emitters.len()
        invariant
            i <= emitters.len(),
            out@ == all_writes(emitters@.take(i as int), table@),
        decreases emitters.len() - i,
    {
        writes_for_emitter(i, &emitters[i], table, &mut out);
        proof {
            let es = emitters@.take(i + 1);
            assert(es.drop_last() =~= emitters@.take(i as int));
        }
        i += 1;
    }
    proof {
        assert(emitters@.take(i as int) =~= emitters@);
    }
    out
}

} // verus!
