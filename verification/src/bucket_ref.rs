//! A reference to a bucket: what the referenced bucket holds, read
//! through the environment, and the reference's four-byte wire form.

use vstd::prelude::*;
use vstd::bytes::{u32_to_le_bytes, u32_from_le_bytes, spec_u32_to_le_bytes,
    spec_u32_from_le_bytes, lemma_auto_spec_u32_to_from_le_bytes};
use crate::types::{Decimal, NonFungibleKey, ResourceDefId};
use crate::scrypto_env::ScryptoEnv;

verus! {

/// Represents a reference to a bucket.
#[derive(Debug, Clone, Copy, PartialEq, Eq, Structural)]
pub struct BucketRef(pub u32);

/// The wire form was not four bytes long.
#[derive(Debug, Clone, Copy, PartialEq, Eq, Structural)]
pub enum ParseBucketRefError {
    InvalidLength(usize),
}

impl BucketRef {
    /// Returns the resource amount within the referenced bucket.
    pub fn amount<E: ScryptoEnv>(&self, env: &E) -> (a: Decimal)
        requires
            env.inv(),
            env.live_refs().contains(self.0),
        ensures
            a.0 == env.ref_amount(self.0),
    {
        env.get_bucket_ref_amount(self.0)
    }

    /// Returns the resource definition of resources within the
    /// referenced bucket.
    pub fn resource_def<E: ScryptoEnv>(&self, env: &E) -> (d: ResourceDefId)
        requires
            env.inv(),
            env.live_refs().contains(self.0),
        ensures
            d.0 == env.ref_resource(self.0),
    {
        env.get_bucket_ref_resource(self.0)
    }

    /// Checks if the referenced bucket contains the given resource.
    pub fn contains<E: ScryptoEnv>(&self, env: &E, resource_def: ResourceDefId) -> (r: bool)
        requires
            env.inv(),
            env.live_refs().contains(self.0),
        ensures
            r == (env.ref_amount(self.0) > 0 && env.ref_resource(self.0) == resource_def.0),
    {
        let a = self.amount(env);
        let d = self.resource_def(env);
        a.0 > 0 && d.0 == resource_def.0
    }

    /// Checks if the referenced bucket contains the given resource;
    /// where this reports false, the ledger client aborts.
    pub fn check<E: ScryptoEnv>(&self, env: &E, resource_def: ResourceDefId) -> (r: bool)
        requires
            env.inv(),
            env.live_refs().contains(self.0),
        ensures
            r == (env.ref_amount(self.0) > 0 && env.ref_resource(self.0) == resource_def.0),
    {
        self.contains(env, resource_def)
    }

    /// Checks if the referenced bucket is empty.
    pub fn is_empty<E: ScryptoEnv>(&self, env: &E) -> (r: bool)
        requires
            env.inv(),
            env.live_refs().contains(self.0),
        ensures
            r == (env.ref_amount(self.0) == 0),
    {
        let a = self.amount(env);
        a.0 == 0
    }

    /// Gets the non-fungible keys in the referenced bucket.
    pub fn get_non_fungible_keys<E: ScryptoEnv>(&self, env: &E) -> (ks: Vec<NonFungibleKey>)
        requires
            env.inv(),
            env.live_refs().contains(self.0),
        ensures
            ks@ == env.ref_keys(self.0),
    {
        env.get_bucket_ref_keys(self.0)
    }

    /// Gets the non-fungible key of a singleton bucket; any other
    /// occupancy is excluded, where the ledger client aborts.
    pub fn get_non_fungible_key<E: ScryptoEnv>(&self, env: &E) -> (k: NonFungibleKey)
        requires
            env.inv(),
            env.live_refs().contains(self.0),
            env.ref_keys(self.0).len() == 1,
        ensures
            k == env.ref_keys(self.0)[0],
    {
        let ks = self.get_non_fungible_keys(env);
        ks[0]
    }

    /// Destroys this reference.
    pub fn drop<E: ScryptoEnv>(self, env: &mut E)
        requires
            old(env).inv(),
            old(env).live_refs().contains(self.0),
        ensures
            final(env).inv(),
            final(env).live_refs() == old(env).live_refs().remove(self.0),
    {
        env.drop_bucket_ref(self.0);
    }

    /// The four-byte little-endian wire form of the reference.
    pub fn to_vec(&self) -> (v: Vec<u8>)
        ensures
            v@ == spec_u32_to_le_bytes(self.0),
            v@.len() == 4,
    {
        proof {
            lemma_auto_spec_u32_to_from_le_bytes();
        }
        u32_to_le_bytes(self.0)
    }

    /// Reads a reference back from its wire form; any length other
    /// than four bytes is rejected with the length seen.
    pub fn try_from(slice: &[u8]) -> (r: Result<BucketRef, ParseBucketRefError>)
        ensures
            slice@.len() == 4 ==> r == Ok::<BucketRef, ParseBucketRefError>(
                BucketRef(spec_u32_from_le_bytes(slice@)),
            ),
            slice@.len() != 4 ==> r == Err::<BucketRef, ParseBucketRefError>(
                ParseBucketRefError::InvalidLength(slice@.len() as usize),
            ),
    {
        if slice.len() == 4 {
            Ok(BucketRef(u32_from_le_bytes(slice)))
        } else {
            Err(ParseBucketRefError::InvalidLength(slice.len()))
        }
    }
}

/// Writing a reference and reading it back yields the same reference,
/// and reading four bytes and writing them again yields the same bytes.
pub proof fn lemma_bucket_ref_round_trip(x: u32, s: Seq<u8>)
    requires
        s.len() == 4,
    ensures
        spec_u32_from_le_bytes(spec_u32_to_le_bytes(x)) == x,
        spec_u32_to_le_bytes(spec_u32_from_le_bytes(s)) == s,
{
    lemma_auto_spec_u32_to_from_le_bytes();
    assert(spec_u32_to_le_bytes(x).len() == 4);
}

} // verus!
