//! The static contract that a pattern function's generated items fulfil.
use vstd::prelude::*;

verus! {

/// A pattern: a function whose result can be served from a pre-baked
/// artifact, with the signatures that identify its code and environment.
pub trait Pattern {
    /// The type the pattern produces.
    type Output;

    /// Signature of the source text of the pattern's body.
    const AST_HASH: u64;

    /// Signature of the dependency and architecture environment.
    const DEPENDENCY_HASH: u64;

    /// The pre-baked artifact, present only in production builds.
    const BAKED_TEMPLATE: Option<&'static [u8]>;

    /// Runs the pattern's own code, the fallback when no artifact is baked.
    fn execute() -> Self::Output;
}

} // verus!
