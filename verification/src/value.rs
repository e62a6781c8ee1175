//! Structured values and the argument id rewriter.
//!
//! A `ScryptoValue` is a tree of primitives, tuples, variants and
//! sequences with the custom leaf types `Bucket(id)` and `Proof(id)`.
//! Before an invocation, every bucket or proof leaf holding a
//! transaction-scoped id is rewritten to the engine-scoped id recorded in
//! the translation tables; the rewrite consumes the table entries in
//! depth-first traversal order, and entries removed before a failing leaf
//! are not restored.

use vstd::prelude::*;
use std::collections::HashMap;
use crate::types::{BucketId, ProofId, PackageAddress};
use crate::errors::RuntimeError;

verus! {

broadcast use vstd::std_specs::hash::group_hash_axioms;

/// Self-describing structured value passed to and returned from engine calls.
#[derive(Debug, PartialEq, Eq)]
pub enum ScryptoValue {
    Unit,
    Bool(bool),
    U64(u64),
    Text(String),
    Tuple(Vec<ScryptoValue>),
    Variant(u64, Vec<ScryptoValue>),
    List(Vec<ScryptoValue>),
    Bucket(BucketId),
    Proof(ProofId),
    Package(PackageAddress),
}

/// Mathematical shape of a `ScryptoValue`: the same tree with sequences
/// in place of vectors.
#[verifier::ext_equal]
pub enum SpecValue {
    Unit,
    Bool(bool),
    U64(u64),
    Text(Seq<char>),
    Tuple(Seq<SpecValue>),
    Variant(u64, Seq<SpecValue>),
    List(Seq<SpecValue>),
    Bucket(BucketId),
    Proof(ProofId),
    Package(PackageAddress),
}

pub open spec fn view_value(v: ScryptoValue) -> SpecValue
    decreases v,
{
    match v {
        ScryptoValue::Unit => SpecValue::Unit,
        ScryptoValue::Bool(b) => SpecValue::Bool(b),
        ScryptoValue::U64(n) => SpecValue::U64(n),
        ScryptoValue::Text(s) => SpecValue::Text(s@),
        ScryptoValue::Tuple(vs) => SpecValue::Tuple(view_seq(vs@)),
        ScryptoValue::Variant(t, vs) => SpecValue::Variant(t, view_seq(vs@)),
        ScryptoValue::List(vs) => SpecValue::List(view_seq(vs@)),
        ScryptoValue::Bucket(id) => SpecValue::Bucket(id),
        ScryptoValue::Proof(id) => SpecValue::Proof(id),
        ScryptoValue::Package(a) => SpecValue::Package(a),
    }
}

pub open spec fn view_seq(vs: Seq<ScryptoValue>) -> Seq<SpecValue>
    decreases vs,
{
    if vs.len() == 0 {
        Seq::empty()
    } else {
        seq![view_value(vs[0])] + view_seq(vs.skip(1))
    }
}

impl View for ScryptoValue {
    type V = SpecValue;

    open spec fn view(&self) -> SpecValue {
        view_value(*self)
    }
}

/// The view of a sequence of values is element-wise.
pub proof fn lemma_view_seq(vs: Seq<ScryptoValue>)
    ensures
        view_seq(vs).len() == vs.len(),
        forall|i: int| 0 <= i < vs.len() ==> view_seq(vs)[i] == view_value(vs[i]),
    decreases vs,
{
    if vs.len() > 0 {
        lemma_view_seq(vs.skip(1));
        assert forall|i: int| 0 <= i < vs.len() implies view_seq(vs)[i] == view_value(vs[i]) by {
            if i > 0 {
                assert(view_seq(vs)[i] == view_seq(vs.skip(1))[i - 1]);
                assert(vs.skip(1)[i - 1] == vs[i]);
            }
        }
    }
}

/// Some entry of table `m0` was consumed on the way to table `m1` and
/// its engine id is `eid`.
pub open spec fn consumed_from(m0: Map<u32, u32>, m1: Map<u32, u32>, eid: u32) -> bool {
    exists|k: u32| #[trigger] m0.dom().contains(k) && !m1.dom().contains(k) && m0[k] == eid
}

/// Consumption is preserved as the table keeps shrinking.
pub proof fn lemma_consumed_mono(m0: Map<u32, u32>, m1: Map<u32, u32>, m2: Map<u32, u32>, eid: u32)
    requires
        consumed_from(m0, m1, eid) || consumed_from(m1, m2, eid),
        m1.submap_of(m0),
        m2.submap_of(m1),
    ensures
        consumed_from(m0, m2, eid),
{
    if consumed_from(m0, m1, eid) {
        let k = choose|k: u32| #[trigger] m0.dom().contains(k) && !m1.dom().contains(k)
            && m0[k] == eid;
        assert(!m2.dom().contains(k));
        assert(m0.dom().contains(k) && !m2.dom().contains(k) && m0[k] == eid);
    } else {
        let k = choose|k: u32| #[trigger] m1.dom().contains(k) && !m2.dom().contains(k)
            && m1[k] == eid;
        assert(m0.dom().contains(k) && !m2.dom().contains(k) && m0[k] == eid);
    }
}

/// Chaining of table shrinkage.
pub proof fn lemma_submap_trans(m0: Map<u32, u32>, m1: Map<u32, u32>, m2: Map<u32, u32>)
    requires
        m2.submap_of(m1),
        m1.submap_of(m0),
    ensures
        m2.submap_of(m0),
{
    vstd::map_lib::lemma_submap_of_trans(m2, m1, m0);
}

/// The engine-scoped bucket ids embedded as `Bucket` leaves of a value.
pub open spec fn bucket_ids_of(v: SpecValue) -> Set<BucketId>
    decreases v,
{
    match v {
        SpecValue::Bucket(id) => set![id],
        SpecValue::Tuple(vs) => bucket_ids_of_seq(vs),
        SpecValue::Variant(_t, vs) => bucket_ids_of_seq(vs),
        SpecValue::List(vs) => bucket_ids_of_seq(vs),
        _ => Set::empty(),
    }
}

pub open spec fn bucket_ids_of_seq(vs: Seq<SpecValue>) -> Set<BucketId>
    decreases vs,
{
    if vs.len() == 0 {
        Set::empty()
    } else {
        bucket_ids_of_seq(vs.drop_last()).union(bucket_ids_of(vs.last()))
    }
}

/// The engine-scoped proof ids embedded as `Proof` leaves of a value.
pub open spec fn proof_ids_of(v: SpecValue) -> Set<ProofId>
    decreases v,
{
    match v {
        SpecValue::Proof(id) => set![id],
        SpecValue::Tuple(vs) => proof_ids_of_seq(vs),
        SpecValue::Variant(_t, vs) => proof_ids_of_seq(vs),
        SpecValue::List(vs) => proof_ids_of_seq(vs),
        _ => Set::empty(),
    }
}

pub open spec fn proof_ids_of_seq(vs: Seq<SpecValue>) -> Set<ProofId>
    decreases vs,
{
    if vs.len() == 0 {
        Set::empty()
    } else {
        proof_ids_of_seq(vs.drop_last()).union(proof_ids_of(vs.last()))
    }
}

/// Outcome of rewriting one value against the two translation tables:
/// the rewritten value or the first error, together with the tables as
/// the traversal left them.
pub open spec fn rewrite_value_spec(
    v: SpecValue,
    p: Map<ProofId, ProofId>,
    b: Map<BucketId, BucketId>,
) -> (Result<SpecValue, RuntimeError>, Map<ProofId, ProofId>, Map<BucketId, BucketId>)
    decreases v,
{
    match v {
        SpecValue::Bucket(id) => if b.dom().contains(id) {
            (Ok(SpecValue::Bucket(b[id])), p, b.remove(id))
        } else {
            (Err(RuntimeError::BucketNotFound(id)), p, b)
        },
        SpecValue::Proof(id) => if p.dom().contains(id) {
            (Ok(SpecValue::Proof(p[id])), p.remove(id), b)
        } else {
            (Err(RuntimeError::ProofNotFound(id)), p, b)
        },
        SpecValue::Tuple(vs) => {
            let (r, p2, b2) = rewrite_seq_spec(vs, p, b);
            match r {
                Ok(ws) => (Ok(SpecValue::Tuple(ws)), p2, b2),
                Err(e) => (Err(e), p2, b2),
            }
        },
        SpecValue::Variant(t, vs) => {
            let (r, p2, b2) = rewrite_seq_spec(vs, p, b);
            match r {
                Ok(ws) => (Ok(SpecValue::Variant(t, ws)), p2, b2),
                Err(e) => (Err(e), p2, b2),
            }
        },
        SpecValue::List(vs) => {
            let (r, p2, b2) = rewrite_seq_spec(vs, p, b);
            match r {
                Ok(ws) => (Ok(SpecValue::List(ws)), p2, b2),
                Err(e) => (Err(e), p2, b2),
            }
        },
        _ => (Ok(v), p, b),
    }
}

/// Depth-first rewrite of a sequence of values, left to right.
pub open spec fn rewrite_seq_spec(
    vs: Seq<SpecValue>,
    p: Map<ProofId, ProofId>,
    b: Map<BucketId, BucketId>,
) -> (Result<Seq<SpecValue>, RuntimeError>, Map<ProofId, ProofId>, Map<BucketId, BucketId>)
    decreases vs,
{
    if vs.len() == 0 {
        (Ok(Seq::empty()), p, b)
    } else {
        let (r0, p1, b1) = rewrite_value_spec(vs[0], p, b);
        match r0 {
            Err(e) => (Err(e), p1, b1),
            Ok(w0) => {
                let (rr, p2, b2) = rewrite_seq_spec(vs.skip(1), p1, b1);
                match rr {
                    Ok(ws) => (Ok(seq![w0] + ws), p2, b2),
                    Err(e) => (Err(e), p2, b2),
                }
            },
        }
    }
}

/// Rewrites one value against the translation tables' current state.
///
/// The tables only ever shrink, every rewritten leaf id comes from a
/// consumed table entry, and the result and final tables are exactly
/// those of `rewrite_value_spec`.
pub fn rewrite_value(
    v: &ScryptoValue,
    p: &mut HashMap<ProofId, ProofId>,
    b: &mut HashMap<BucketId, BucketId>,
) -> (r: Result<ScryptoValue, RuntimeError>)
    ensures
        ({
            let (sr, sp, sb) = rewrite_value_spec(v@, old(p)@, old(b)@);
            &&& final(p)@ == sp
            &&& final(b)@ == sb
            &&& match (r, sr) {
                (Ok(w), Ok(sw)) => w@ == sw,
                (Err(e), Err(se)) => e == se,
                _ => false,
            }
        }),
        final(p)@.submap_of(old(p)@),
        final(b)@.submap_of(old(b)@),
        r matches Ok(w) ==> forall|eid: BucketId| #[trigger] bucket_ids_of(w@).contains(eid)
            ==> consumed_from(old(b)@, final(b)@, eid),
        r matches Ok(w) ==> forall|eid: ProofId| #[trigger] proof_ids_of(w@).contains(eid)
            ==> consumed_from(old(p)@, final(p)@, eid),
    decreases v,
{
    match v {
        ScryptoValue::Unit => Ok(ScryptoValue::Unit),
        ScryptoValue::Bool(x) => Ok(ScryptoValue::Bool(*x)),
        ScryptoValue::U64(x) => Ok(ScryptoValue::U64(*x)),
        ScryptoValue::Text(s) => Ok(ScryptoValue::Text(s.clone())),
        ScryptoValue::Package(a) => Ok(ScryptoValue::Package(*a)),
        ScryptoValue::Bucket(id) => match b.remove(id) {
            Some(eid) => {
                proof {
                    assert(old(b)@.dom().contains(*id) && !b@.dom().contains(*id)
                        && old(b)@[*id] == eid);
                }
                Ok(ScryptoValue::Bucket(eid))
            },
            None => {
                proof {
                    assert(b@ =~= old(b)@);
                }
                Err(RuntimeError::BucketNotFound(*id))
            },
        },
        ScryptoValue::Proof(id) => match p.remove(id) {
            Some(eid) => {
                proof {
                    assert(old(p)@.dom().contains(*id) && !p@.dom().contains(*id)
                        && old(p)@[*id] == eid);
                }
                Ok(ScryptoValue::Proof(eid))
            },
            None => {
                proof {
                    assert(p@ =~= old(p)@);
                }
                Err(RuntimeError::ProofNotFound(*id))
            },
        },
        ScryptoValue::Tuple(vs) => {
            proof {
                assert(decreases_to!(*v => *vs));
            }
            match rewrite_vec(vs, p, b) {
                Ok(ws) => {
                    let ghost wsv = view_seq(ws@);
                    let w = ScryptoValue::Tuple(ws);
                    proof {
                        assert(w@ == SpecValue::Tuple(wsv));
                        assert forall|eid: BucketId| #[trigger] bucket_ids_of(w@).contains(eid)
                            implies consumed_from(old(b)@, b@, eid) by {
                            assert(bucket_ids_of_seq(wsv).contains(eid));
                        }
                        assert forall|eid: ProofId| #[trigger] proof_ids_of(w@).contains(eid)
                            implies consumed_from(old(p)@, p@, eid) by {
                            assert(proof_ids_of_seq(wsv).contains(eid));
                        }
                    }
                    Ok(w)
                },
                Err(e) => Err(e),
            }
        },
        ScryptoValue::Variant(t, vs) => {
            proof {
                assert(decreases_to!(*v => *vs));
            }
            match rewrite_vec(vs, p, b) {
                Ok(ws) => {
                    let ghost wsv = view_seq(ws@);
                    let w = ScryptoValue::Variant(*t, ws);
                    proof {
                        assert(w@ == SpecValue::Variant(*t, wsv));
                        assert forall|eid: BucketId| #[trigger] bucket_ids_of(w@).contains(eid)
                            implies consumed_from(old(b)@, b@, eid) by {
                            assert(bucket_ids_of_seq(wsv).contains(eid));
                        }
                        assert forall|eid: ProofId| #[trigger] proof_ids_of(w@).contains(eid)
                            implies consumed_from(old(p)@, p@, eid) by {
                            assert(proof_ids_of_seq(wsv).contains(eid));
                        }
                    }
                    Ok(w)
                },
                Err(e) => Err(e),
            }
        },
        ScryptoValue::List(vs) => {
            proof {
                assert(decreases_to!(*v => *vs));
            }
            match rewrite_vec(vs, p, b) {
                Ok(ws) => {
                    let ghost wsv = view_seq(ws@);
                    let w = ScryptoValue::List(ws);
                    proof {
                        assert(w@ == SpecValue::List(wsv));
                        assert forall|eid: BucketId| #[trigger] bucket_ids_of(w@).contains(eid)
                            implies consumed_from(old(b)@, b@, eid) by {
                            assert(bucket_ids_of_seq(wsv).contains(eid));
                        }
                        assert forall|eid: ProofId| #[trigger] proof_ids_of(w@).contains(eid)
                            implies consumed_from(old(p)@, p@, eid) by {
                            assert(proof_ids_of_seq(wsv).contains(eid));
                        }
                    }
                    Ok(w)
                },
                Err(e) => Err(e),
            }
        },
    }
}

/// Rewrites each element of a vector of values, left to right, stopping
/// at the first failing leaf.
pub fn rewrite_vec(
    vs: &Vec<ScryptoValue>,
    p: &mut HashMap<ProofId, ProofId>,
    b: &mut HashMap<BucketId, BucketId>,
) -> (r: Result<Vec<ScryptoValue>, RuntimeError>)
    ensures
        ({
            let (sr, sp, sb) = rewrite_seq_spec(view_seq(vs@), old(p)@, old(b)@);
            &&& final(p)@ == sp
            &&& final(b)@ == sb
            &&& match (r, sr) {
                (Ok(ws), Ok(sws)) => view_seq(ws@) == sws,
                (Err(e), Err(se)) => e == se,
                _ => false,
            }
        }),
        final(p)@.submap_of(old(p)@),
        final(b)@.submap_of(old(b)@),
        r matches Ok(ws) ==> forall|eid: BucketId|
            #[trigger] bucket_ids_of_seq(view_seq(ws@)).contains(eid)
            ==> consumed_from(old(b)@, final(b)@, eid),
        r matches Ok(ws) ==> forall|eid: ProofId|
            #[trigger] proof_ids_of_seq(view_seq(ws@)).contains(eid)
            ==> consumed_from(old(p)@, final(p)@, eid),
    decreases vs,
{
    let ghost p0 = p@;
    let ghost b0 = b@;
    let ghost whole = rewrite_seq_spec(view_seq(vs@), p0, b0);
    let mut out: Vec<ScryptoValue> = Vec::new();
    let mut i: usize = 0;
    proof {
        lemma_view_seq(vs@);
        assert(view_seq(vs@).skip(0) =~= view_seq(vs@));
        assert(view_seq(out@) =~= Seq::<SpecValue>::empty());
    }
    while i < vs.len()
        invariant
            0 <= i <= vs.len(),
            out.len() == i,
            p0 == old(p)@,
            b0 == old(b)@,
            p@.submap_of(p0),
            b@.submap_of(b0),
            whole == rewrite_seq_spec(view_seq(vs@), p0, b0),
            view_seq(vs@).len() == vs.len(),
            ({
                let (tr, tp, tb) = rewrite_seq_spec(view_seq(vs@).skip(i as int), p@, b@);
                &&& whole.1 == tp
                &&& whole.2 == tb
                &&& whole.0 == match tr {
                    Ok(ws) => Ok::<Seq<SpecValue>, RuntimeError>(view_seq(out@) + ws),
                    Err(e) => Err::<Seq<SpecValue>, RuntimeError>(e),
                }
            }),
            forall|eid: BucketId| #[trigger] bucket_ids_of_seq(view_seq(out@)).contains(eid)
                ==> consumed_from(b0, b@, eid),
            forall|eid: ProofId| #[trigger] proof_ids_of_seq(view_seq(out@)).contains(eid)
                ==> consumed_from(p0, p@, eid),
        decreases vs.len() - i,
    {
        let ghost p_before = p@;
        let ghost b_before = b@;
        let ghost out_before = out@;
        let ghost done_before = view_seq(out@);
        proof {
            assert(decreases_to!(*vs => vs@));
            assert(decreases_to!(vs@ => vs@[i as int]));
            lemma_view_seq(vs@);
            assert(view_seq(vs@).skip(i as int)[0] == view_seq(vs@)[i as int]);
            assert(view_seq(vs@)[i as int] == view_value(vs@[i as int]));
        }
        let w = match rewrite_value(&vs[i], p, b) {
            Ok(w) => w,
            Err(_e) => {
                proof {
                    lemma_submap_trans(p0, p_before, p@);
                    lemma_submap_trans(b0, b_before, b@);
                    let (tr, tp, tb) = rewrite_seq_spec(
                        view_seq(vs@).skip(i as int),
                        p_before,
                        b_before,
                    );
                    let (sr0, sp0, sb0) = rewrite_value_spec(
                        view_value(vs@[i as int]),
                        p_before,
                        b_before,
                    );
                    assert(sr0 == Err::<SpecValue, RuntimeError>(_e));
                    assert(tr == Err::<Seq<SpecValue>, RuntimeError>(_e));
                    assert(tp == p@ && tb == b@);
                    assert(whole.0 == Err::<Seq<SpecValue>, RuntimeError>(_e));
                    assert(whole.1 == p@ && whole.2 == b@);
                }
                return Err(_e);
            },
        };
        out.push(w);
        i = i + 1;
        proof {
            assert(view_seq(vs@).skip(i - 1).skip(1) =~= view_seq(vs@).skip(i as int));
            lemma_view_seq(out_before);
            lemma_view_seq(out@);
            assert(out@ =~= out_before.push(w));
            assert forall|j: int| 0 <= j < view_seq(out@).len()
                implies view_seq(out@)[j] == done_before.push(w@)[j] by {
                if j < out_before.len() {
                    assert(out@[j] == out_before[j]);
                }
            }
            assert(view_seq(out@) =~= done_before.push(w@));
            assert(view_seq(out@).drop_last() =~= done_before);
            assert(view_seq(out@).last() == w@);
            let (tr, tp, tb) = rewrite_seq_spec(view_seq(vs@).skip(i as int), p@, b@);
            match tr {
                Ok(ws) => {
                    assert(done_before + (seq![w@] + ws) =~= view_seq(out@) + ws);
                },
                Err(_) => {},
            }
            lemma_submap_trans(p0, p_before, p@);
            lemma_submap_trans(b0, b_before, b@);
            assert forall|eid: BucketId|
                #[trigger] bucket_ids_of_seq(view_seq(out@)).contains(eid)
                implies consumed_from(b0, b@, eid) by {
                if bucket_ids_of_seq(done_before).contains(eid) {
                    lemma_consumed_mono(b0, b_before, b@, eid);
                } else {
                    assert(bucket_ids_of(w@).contains(eid));
                    lemma_consumed_mono(b0, b_before, b@, eid);
                }
            }
            assert forall|eid: ProofId|
                #[trigger] proof_ids_of_seq(view_seq(out@)).contains(eid)
                implies consumed_from(p0, p@, eid) by {
                if proof_ids_of_seq(done_before).contains(eid) {
                    lemma_consumed_mono(p0, p_before, p@, eid);
                } else {
                    assert(proof_ids_of(w@).contains(eid));
                    lemma_consumed_mono(p0, p_before, p@, eid);
                }
            }
        }
    }
    proof {
        assert(view_seq(vs@).skip(i as int) =~= Seq::<SpecValue>::empty());
        assert(view_seq(out@) + Seq::<SpecValue>::empty() =~= view_seq(out@));
    }
    Ok(out)
}

} // verus!
