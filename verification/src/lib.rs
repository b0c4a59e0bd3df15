//! Build-time generator for a `splat` operation on record declarations.
//!
//! Given the parsed declaration of a record type whose fields all share one
//! declared type, the generator synthesizes the source text of a `splat`
//! function: it takes one value of the shared type and returns an instance of
//! the record with every field set to a clone of that value.
//!
//! The pipeline is strictly linear: classify the declaration's shape, check
//! that the field types are homogeneous, then synthesize the new operation.
//! Any violation is a terminal generation failure; nothing is retried.

pub mod decl;
pub mod classify;
pub mod homogeneity;
pub mod synth;
pub mod pipeline;
pub mod laws;
