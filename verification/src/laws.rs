//! Round-trip and idempotence laws of the engine contract.

use vstd::prelude::*;
use crate::engine::worktop_amount;

verus! {

/// Taking an amount of a resource from the worktop and immediately
/// returning the taken bucket leaves the worktop observationally
/// unchanged: a later balance assertion succeeds exactly when it would
/// have succeeded without the pair.
///
/// `w0.insert(res, w0[res] - amount)` is the worktop after a successful
/// `Engine::take_from_worktop`, which yields a bucket holding
/// `(res, amount)`; crediting that bucket back, as a successful
/// `Engine::return_to_worktop` does, restores `w0`, and
/// `Engine::assert_worktop_contains_by_amount` succeeds exactly on the
/// balance, which is unchanged.
pub proof fn lemma_take_return_round_trip(w0: Map<u64, int>, res: u64, amount: int)
    requires
        w0.dom().contains(res),
        0 <= amount <= w0[res],
    ensures
        ({
            let w1 = w0.insert(res, w0[res] - amount);
            let w2 = w1.insert(res, worktop_amount(w1, res) + amount);
            &&& w2 == w0
            &&& worktop_amount(w2, res) == worktop_amount(w0, res)
        }),
{
    let w1 = w0.insert(res, w0[res] - amount);
    let w2 = w1.insert(res, worktop_amount(w1, res) + amount);
    assert(w2 =~= w0);
}

/// Cloning a proof and then dropping the clone leaves the original
/// proof live and its table entry usable.
///
/// `table.insert(nid, c)` and `live.insert(c)` are the proof table and
/// the engine's transaction-owned proofs after `CloneProof` bound the
/// fresh engine id `c` under the fresh scoped id `nid`; removing both
/// again, as `DropProof` on the clone does, restores the original
/// state, in which the source entry `p` is still bound and live.
pub proof fn lemma_clone_then_drop_preserves_original(
    table: Map<u32, u32>,
    live: Set<u32>,
    p: u32,
    nid: u32,
    c: u32,
)
    requires
        table.dom().contains(p),
        live.contains(table[p]),
        !live.contains(c),
        !table.dom().contains(nid),
    ensures
        ({
            let table2 = table.insert(nid, c).remove(nid);
            let live2 = live.insert(c).remove(c);
            &&& table2 == table
            &&& live2 == live
            &&& table2.dom().contains(p)
            &&& live2.contains(table2[p])
        }),
{
    assert(table.insert(nid, c).remove(nid) =~= table);
    assert(live.insert(c).remove(c) =~= live);
}

/// Popping the auth zone and pushing the popped proof back restores the
/// stack: `Engine::pop_from_auth_zone` hands out the top and leaves
/// `zone.drop_last()`, and `Engine::push_to_auth_zone` of that same
/// proof puts it back on top.
pub proof fn lemma_pop_push_restores_auth_zone(zone: Seq<u32>)
    requires
        zone.len() > 0,
    ensures
        zone.drop_last().push(zone.last()) == zone,
{
    assert(zone.drop_last().push(zone.last()) =~= zone);
}

} // verus!
