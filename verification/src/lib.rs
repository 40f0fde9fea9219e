//! Pipelines of stages.
//!
//! A stage takes one input, or none, and gives one output. Two stages whose
//! types meet are fused into one by [`convert`]; a tuple of two to five stages
//! is folded from the left into one callable pipeline by [`pipe`]. A pipeline
//! is a stage again, so pipelines nest.
//!
//! Every stage carries its contract as two predicates: what it accepts, and
//! what it may yield on an input. The contract of a fused pair and of a
//! pipeline is stated over the contracts of the stages: it can be run where
//! each stage in turn accepts whatever may reach it, and it yields what the
//! last stage yields when each stage is run on what the one before it gave.
//! A stage that cannot be run on what it is handed leaves the whole without a
//! run.
//!
//! # Verifying a caller
//!
//! Where the stages are generic, or types with their own `Transform`, the
//! contracts unfold by themselves. Where a stage is a known function or
//! closure, lemmas state what Verus does not unfold there:
//! `lemma_producer_contract` and `lemma_mapper_contract` in [`transform`] for
//! the function, and the lemma that follows each `Piper` in [`from_source`]
//! and [`from_input`] for the tuple. [`laws`] holds what is true of every
//! pipeline.

pub mod chain;
pub mod convert;
pub mod from_input;
pub mod from_source;
pub mod laws;
pub mod middleware;
pub mod pied;
pub mod piper;
pub mod transform;

pub use crate::convert::{convert, ConvertMiddleware};
pub use crate::middleware::Middleware;
pub use crate::pied::Pied;
pub use crate::piper::{pipe, Piper};
pub use crate::transform::Transform;
