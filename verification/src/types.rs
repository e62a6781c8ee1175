//! Plain data carried by transactions and instructions.

use vstd::prelude::*;

verus! {

/// Transaction-scoped or engine-scoped bucket identifier.
pub type BucketId = u32;

/// Transaction-scoped or engine-scoped proof identifier.
pub type ProofId = u32;

/// 32-byte content digest identifying the raw transaction.
#[derive(Debug, Clone, PartialEq, Eq)]
pub struct Hash(pub Vec<u8>);

impl Hash {
    /// A digest is exactly 32 bytes long.
    pub open spec fn wf(&self) -> bool {
        self.0@.len() == 32
    }

    /// Builds a digest from its bytes; any other length is rejected.
    pub fn from_bytes(bytes: Vec<u8>) -> (r: Option<Hash>)
        ensures
            bytes@.len() == 32 ==> (r matches Some(h) && h.wf() && h.0@ == bytes@),
            bytes@.len() != 32 ==> r is None,
    {
        if bytes.len() == 32 {
            Some(Hash(bytes))
        } else {
            None
        }
    }
}

/// ECDSA public key of a transaction signer.
#[derive(Debug, Clone, PartialEq, Eq)]
pub struct EcdsaPublicKey(pub Vec<u8>);

/// Opaque content-addressed identifier of a resource definition.
#[derive(Debug, Clone, Copy, PartialEq, Eq, Structural, Hash)]
pub struct ResourceAddress(pub u64);

/// Opaque content-addressed identifier of a published package.
#[derive(Debug, Clone, Copy, PartialEq, Eq, Structural, Hash)]
pub struct PackageAddress(pub u64);

/// Opaque content-addressed identifier of an instantiated component.
#[derive(Debug, Clone, Copy, PartialEq, Eq, Structural, Hash)]
pub struct ComponentAddress(pub u64);

/// Opaque non-fungible identifier within a resource address.
#[derive(Debug, Clone, Copy, PartialEq, Eq, Structural, Hash)]
pub struct NonFungibleId(pub u64);

/// The key of one non-fungible unit, as bucket references report it.
pub type NonFungibleKey = NonFungibleId;

/// Identifier of a resource definition in the authorization rule model.
#[derive(Debug, Clone, Copy, PartialEq, Eq, Structural, Hash)]
pub struct ResourceDefId(pub u64);

/// A non-fungible unit: a resource definition together with one key.
#[derive(Debug, Clone, Copy, PartialEq, Eq, Structural, Hash)]
pub struct NonFungibleAddress(pub u64, pub u64);

/// Fixed-point signed decimal amount; equality and ordering are exact.
#[derive(Debug, Clone, Copy, PartialEq, Eq, Structural, Hash)]
pub struct Decimal(pub i128);

} // verus!
