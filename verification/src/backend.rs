//! The backend descriptor.
//!
//! Exactly one family of register implementations is active in a build; the
//! descriptor names it and never changes afterwards — there is no runtime
//! switch and no per-call branching on it. This build carries the portable
//! array-backed tier, so the selector always answers `NAIVE`; the descriptor
//! type still enumerates every tier a build could select, and its queries are
//! specified for all of them.

use vstd::prelude::*;

verus! {

/// Check current implementation
#[derive(Clone, Copy, Debug, PartialEq, Eq, Structural)]
pub enum LlmlImpl {
    /// x86/x86_64 SSE (128-bit) implementation
    SSE,
    /// x86/x86_64 AVX (128-bit to 256-bit) implementation
    AVX,
    /// arm/aarch64 NEON (64-bit to 128-bit) implementation
    NEON,
    /// WASM32 SIMD128 proposal (128-bit) implementation
    WASM,
    /// Naive implementation with arrays. Useful as a backup if no other
    /// method is available
    NAIVE,
}

impl LlmlImpl {
    /// The tier works on 64-bit registers: only NEON does.
    pub fn is_64bit(&self) -> (r: bool)
        ensures
            r == (*self is NEON),
    {
        matches!(self, LlmlImpl::NEON)
    }

    /// The tier has 128-bit registers: every hardware tier does, the naive
    /// fallback does not.
    pub fn is_128bit(&self) -> (r: bool)
        ensures
            r == !(*self is NAIVE),
    {
        match self {
            LlmlImpl::NAIVE => false,
            _ => true,
        }
    }

    /// The tier reaches 256-bit registers: only AVX does.
    pub fn is_256bit(&self) -> (r: bool)
        ensures
            r == (*self is AVX),
    {
        matches!(self, LlmlImpl::AVX)
    }
}

/// The tier selected for this build. The selection is fixed at build
/// configuration time; this portable build always selects the array-backed
/// fallback, which must always be selectable whatever the target.
pub fn current_impl() -> (r: LlmlImpl)
    ensures
        r == LlmlImpl::NAIVE,
{
    LlmlImpl::NAIVE
}

} // verus!
