//! Lazily produced sequences for a streaming prover: descriptors that know
//! their length and hand out independent forward traversals on demand.

pub mod circuit;
pub mod error;
pub mod iterable;
pub mod misc;
