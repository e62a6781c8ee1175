//! The component-side environment that bucket references live against.
//!
//! A bucket reference is an id; what it refers to — the amount, the
//! resource definition and the non-fungible keys of the referenced
//! bucket — is owned by the environment and read through this
//! interface.  `ModelScryptoEnv` is a self-contained, fully verified
//! implementation for exercising the reference operations.

use vstd::prelude::*;
use std::collections::HashMap;
use crate::types::{Decimal, NonFungibleKey, ResourceDefId};

verus! {

broadcast use vstd::std_specs::hash::group_hash_axioms;

/// The environment a bucket reference is resolved against.
pub trait ScryptoEnv: Sized {
    /// Environment-side validity.
    spec fn inv(&self) -> bool;

    /// The reference ids currently resolvable.
    spec fn live_refs(&self) -> Set<u32>;

    /// The amount of the bucket a reference points to.
    spec fn ref_amount(&self, id: u32) -> int;

    /// The resource definition of the bucket a reference points to.
    spec fn ref_resource(&self, id: u32) -> u64;

    /// The non-fungible keys of the bucket a reference points to.
    spec fn ref_keys(&self, id: u32) -> Seq<NonFungibleKey>;

    fn get_bucket_ref_amount(&self, bucket_ref: u32) -> (a: Decimal)
        requires
            self.inv(),
            self.live_refs().contains(bucket_ref),
        ensures
            a.0 == self.ref_amount(bucket_ref),
    ;

    fn get_bucket_ref_resource(&self, bucket_ref: u32) -> (d: ResourceDefId)
        requires
            self.inv(),
            self.live_refs().contains(bucket_ref),
        ensures
            d.0 == self.ref_resource(bucket_ref),
    ;

    fn get_bucket_ref_keys(&self, bucket_ref: u32) -> (ks: Vec<NonFungibleKey>)
        requires
            self.inv(),
            self.live_refs().contains(bucket_ref),
        ensures
            ks@ == self.ref_keys(bucket_ref),
    ;

    fn drop_bucket_ref(&mut self, bucket_ref: u32)
        requires
            old(self).inv(),
            old(self).live_refs().contains(bucket_ref),
        ensures
            final(self).inv(),
            final(self).live_refs() == old(self).live_refs().remove(bucket_ref),
            forall|id: u32| id != bucket_ref ==> #[trigger] final(self).ref_amount(id)
                == old(self).ref_amount(id) && final(self).ref_resource(id)
                == old(self).ref_resource(id) && final(self).ref_keys(id)
                == old(self).ref_keys(id),
    ;
}

/// A reference environment holding, per reference id, the referenced
/// bucket's resource definition, amount and non-fungible keys.
pub struct ModelScryptoEnv {
    refs: HashMap<u32, (u64, i128, Vec<NonFungibleKey>)>,
}

impl ModelScryptoEnv {
    pub fn new() -> (e: ModelScryptoEnv)
        ensures
            e.inv(),
            e.live_refs() == Set::<u32>::empty(),
    {
        let e = ModelScryptoEnv { refs: HashMap::new() };
        proof {
            assert(e.live_refs() =~= Set::<u32>::empty());
        }
        e
    }

    /// Makes a reference id resolvable; test setup.
    pub fn register_ref(
        &mut self,
        id: u32,
        resource_def: ResourceDefId,
        amount: Decimal,
        keys: Vec<NonFungibleKey>,
    )
        requires
            old(self).inv(),
        ensures
            final(self).inv(),
            final(self).live_refs() == old(self).live_refs().insert(id),
            final(self).ref_amount(id) == amount.0,
            final(self).ref_resource(id) == resource_def.0,
            final(self).ref_keys(id) == keys@,
            forall|o: u32| o != id ==> #[trigger] final(self).ref_amount(o)
                == old(self).ref_amount(o) && final(self).ref_resource(o)
                == old(self).ref_resource(o) && final(self).ref_keys(o)
                == old(self).ref_keys(o),
    {
        self.refs.insert(id, (resource_def.0, amount.0, keys));
        proof {
            assert(self.live_refs() =~= old(self).live_refs().insert(id));
        }
    }
}

impl ScryptoEnv for ModelScryptoEnv {
    closed spec fn inv(&self) -> bool {
        true
    }

    closed spec fn live_refs(&self) -> Set<u32> {
        self.refs@.dom()
    }

    closed spec fn ref_amount(&self, id: u32) -> int {
        self.refs@[id].1 as int
    }

    closed spec fn ref_resource(&self, id: u32) -> u64 {
        self.refs@[id].0
    }

    closed spec fn ref_keys(&self, id: u32) -> Seq<NonFungibleKey> {
        self.refs@[id].2@
    }

    fn get_bucket_ref_amount(&self, bucket_ref: u32) -> (a: Decimal) {
        match self.refs.get(&bucket_ref) {
            Some(entry) => Decimal(entry.1),
            None => {
                proof {
                    assert(false);
                }
                Decimal(0)
            },
        }
    }

    fn get_bucket_ref_resource(&self, bucket_ref: u32) -> (d: ResourceDefId) {
        match self.refs.get(&bucket_ref) {
            Some(entry) => ResourceDefId(entry.0),
            None => {
                proof {
                    assert(false);
                }
                ResourceDefId(0)
            },
        }
    }

    fn get_bucket_ref_keys(&self, bucket_ref: u32) -> (ks: Vec<NonFungibleKey>) {
        match self.refs.get(&bucket_ref) {
            Some(entry) => {
                let src = &entry.2;
                let mut out: Vec<NonFungibleKey> = Vec::new();
                let mut i: usize = 0;
                while i < src.len()
                    invariant
                        i <= src@.len(),
                        out@ == src@.subrange(0, i as int),
                    decreases src@.len() - i,
                {
                    out.push(src[i]);
                    proof {
                        assert(out@ =~= src@.subrange(0, i + 1));
                    }
                    i = i + 1;
                }
                proof {
                    assert(out@ =~= src@);
                }
                out
            },
            None => {
                proof {
                    assert(false);
                }
                Vec::new()
            },
        }
    }

    fn drop_bucket_ref(&mut self, bucket_ref: u32) {
        self.refs.remove(&bucket_ref);
        proof {
            assert(self.live_refs() =~= old(self).live_refs().remove(bucket_ref));
        }
    }
}

} // verus!
