//! A portable, fixed-width packed-arithmetic library.
//!
//! Vector values hold a fixed number of lanes (2, 3, 4, 6, 8, 10, 12, 14 or
//! 16) of one IEEE-754 scalar kind, single or double precision, and offer
//! elementwise arithmetic, scalar broadcast in both operand orders,
//! comparisons, horizontal reductions (minimum, maximum, sum, product), fused
//! multiply-add and lane interleave. Lanes are carried as their bit patterns
//! (`u32` for binary32, `u64` for binary64); rounding arithmetic on them is
//! performed by an outside software implementation of IEEE-754, and everything
//! above it — the composite assembly of wide vectors, the padding policy, the
//! reductions, interleave, equality — is verified against exact contracts.
//!
//! Widths no register natively supports are assembled by recursively pairing
//! smaller vectors (`composite`); the widths each backend register family
//! offers, and which family a build selects, are fixed at build configuration
//! time (`backend`). All vector values are plain immutable values: every
//! operation returns a new value and no operation blocks or shares state.

pub mod backend;
pub mod composite;
pub mod double;
pub mod floatext;
pub mod laws;
pub mod ordx;
pub mod packed;
pub mod scalar;
pub mod scalar32;
pub mod scalar64;
pub mod simd;
pub mod single;

