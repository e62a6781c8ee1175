//! Transaction instruction interpreter for a resource-oriented ledger.
//!
//! A validated transaction is an ordered list of instructions that move
//! resources between the engine-owned worktop, buckets, proofs and the
//! auth zone.  The interpreter assigns transaction-scoped identifiers to
//! freshly created buckets and proofs, translates them back to
//! engine-scoped identifiers on every later use, and enforces linearity:
//! every bucket and proof created during a transaction is consumed,
//! returned or dropped by its end.

pub mod types;
pub mod errors;
pub mod id_allocator;
pub mod value;
pub mod state;
pub mod engine;
pub mod interpreter;
pub mod model_engine;
pub mod laws;
pub mod auth_rule;
pub mod bucket_ref;
pub mod scrypto_env;
