//! Math foundation for a small 3D renderer: a three-component vector type and
//! a framebuffer that holds one such vector per pixel.
//!
//! Verus cannot reason about IEEE-754 arithmetic, so the vector type here
//! carries its scalars as the `u64` bit patterns that encode them. What can be
//! decided on those plain words is verified: the shape of a framebuffer and
//! the division-by-zero test that guards scalar division. The binary64
//! arithmetic itself (dot and cross products, lengths, distances, the
//! component-wise and scalar operations) lives in the unverified front end,
//! which converts to and from the bit patterns losslessly. The `algebra`
//! module states the laws of those operations' underlying formulas over
//! unbounded integers, where they can be proved exactly; the front end's
//! results follow the formulas up to rounding.

pub mod algebra;
pub mod framebuffer;
pub mod vector;
