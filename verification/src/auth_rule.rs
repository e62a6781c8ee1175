//! The authorization predicate language embedded in component
//! arguments.  The interpreter transmits these values verbatim;
//! evaluation is the engine's responsibility.

use vstd::prelude::*;
use crate::types::{Decimal, NonFungibleAddress, ResourceDefId};

verus! {

/// A path into a component's state, as a list of indexes.
#[derive(Debug, Clone, PartialEq, Eq)]
pub struct SborPath(pub Vec<usize>);

impl SborPath {
    /// The whole path, as a relative path starting at its first index.
    pub fn rel_path(&self) -> (p: SborRelPath)
        ensures
            p.wf(),
            p@ == self.0@,
    {
        SborRelPath { elems: &self.0, start: 0 }
    }
}

/// A suffix of a path, walked index by index.
pub struct SborRelPath<'a> {
    pub elems: &'a Vec<usize>,
    pub start: usize,
}

impl<'a> SborRelPath<'a> {
    pub open spec fn wf(self) -> bool {
        self.start <= self.elems@.len()
    }

    pub open spec fn view(self) -> Seq<usize> {
        self.elems@.skip(self.start as int)
    }

    pub fn is_empty(&self) -> (r: bool)
        requires
            self.wf(),
        ensures
            r == (self@.len() == 0),
    {
        self.start == self.elems.len()
    }

    /// Splits off the leading index; the rest is one element shorter.
    pub fn pop(&self) -> (r: (usize, SborRelPath<'a>))
        requires
            self.wf(),
            self@.len() > 0,
        ensures
            r.0 == self@[0],
            r.1.wf(),
            r.1@ == self@.skip(1),
    {
        let n = self.elems.len();
        let index = self.elems[self.start];
        let rest = SborRelPath { elems: self.elems, start: self.start + 1 };
        proof {
            assert(rest@ =~= self@.skip(1));
        }
        (index, rest)
    }
}

/// A resource specifier of an authorization rule.
#[derive(Debug, Clone, PartialEq, Eq)]
pub enum ProofRuleResource {
    NonFungible(NonFungibleAddress),
    Resource(ResourceDefId),
    FromComponent(SborPath),
}

/// A list of resource specifiers, static or read from component state.
#[derive(Debug, Clone, PartialEq, Eq)]
pub enum ProofRuleResourceList {
    StaticList(Vec<ProofRuleResource>),
    FromComponent(SborPath),
}

/// Authorization rule.
#[derive(Debug, Clone, PartialEq, Eq)]
pub enum ProofRule {
    This(ProofRuleResource),
    AmountOf(Decimal, ProofRuleResource),
    CountOf(u8, ProofRuleResourceList),
    AllOf(ProofRuleResourceList),
    AnyOf(ProofRuleResourceList),
}

impl From<NonFungibleAddress> for ProofRuleResource {
    fn from(non_fungible_address: NonFungibleAddress) -> (r: Self) {
        ProofRuleResource::NonFungible(non_fungible_address)
    }
}

impl vstd::std_specs::convert::FromSpecImpl<NonFungibleAddress> for ProofRuleResource {
    open spec fn obeys_from_spec() -> bool {
        true
    }

    open spec fn from_spec(t: NonFungibleAddress) -> Self {
        ProofRuleResource::NonFungible(t)
    }
}

impl From<ResourceDefId> for ProofRuleResource {
    fn from(resource_def_id: ResourceDefId) -> (r: Self) {
        ProofRuleResource::Resource(resource_def_id)
    }
}

impl vstd::std_specs::convert::FromSpecImpl<ResourceDefId> for ProofRuleResource {
    open spec fn obeys_from_spec() -> bool {
        true
    }

    open spec fn from_spec(t: ResourceDefId) -> Self {
        ProofRuleResource::Resource(t)
    }
}

impl From<SborPath> for ProofRuleResource {
    fn from(path: SborPath) -> (r: Self) {
        ProofRuleResource::FromComponent(path)
    }
}

impl vstd::std_specs::convert::FromSpecImpl<SborPath> for ProofRuleResource {
    open spec fn obeys_from_spec() -> bool {
        true
    }

    open spec fn from_spec(t: SborPath) -> Self {
        ProofRuleResource::FromComponent(t)
    }
}

impl From<NonFungibleAddress> for ProofRule {
    fn from(non_fungible_address: NonFungibleAddress) -> (r: Self) {
        ProofRule::This(ProofRuleResource::NonFungible(non_fungible_address))
    }
}

impl vstd::std_specs::convert::FromSpecImpl<NonFungibleAddress> for ProofRule {
    open spec fn obeys_from_spec() -> bool {
        true
    }

    open spec fn from_spec(t: NonFungibleAddress) -> Self {
        ProofRule::This(ProofRuleResource::NonFungible(t))
    }
}

impl From<ResourceDefId> for ProofRule {
    fn from(resource_def_id: ResourceDefId) -> (r: Self) {
        ProofRule::This(ProofRuleResource::Resource(resource_def_id))
    }
}

impl vstd::std_specs::convert::FromSpecImpl<ResourceDefId> for ProofRule {
    open spec fn obeys_from_spec() -> bool {
        true
    }

    open spec fn from_spec(t: ResourceDefId) -> Self {
        ProofRule::This(ProofRuleResource::Resource(t))
    }
}

} // verus!
