use vstd::prelude::*;

verus! {

/// Bit pattern of the IEEE-754 binary64 value positive zero.
pub const POS_ZERO_BITS: u64 = 0x0000_0000_0000_0000;

/// Bit pattern of the IEEE-754 binary64 value negative zero.
pub const NEG_ZERO_BITS: u64 = 0x8000_0000_0000_0000;

/// A binary64 scalar compares equal to zero exactly when its bit pattern is
/// one of the two signed zeros. Every other pattern, NaN included, does not.
pub open spec fn scalar_bits_are_zero(k: u64) -> bool {
    k == POS_ZERO_BITS || k == NEG_ZERO_BITS
}

/// A three-component vector whose scalars are carried as IEEE-754 binary64
/// bit patterns. Verus has no arithmetic for binary64 values, so this crate
/// keeps them as the plain `u64` words that encode them; the arithmetic that
/// combines them runs in the unverified front end, which converts losslessly
/// in both directions.
#[derive(Clone, Copy, Debug, PartialEq, Eq, Structural)]
pub struct Vec3D {
    pub x: u64,
    pub y: u64,
    pub z: u64,
}

impl Vec3D {
    /// Builds the vector with the three given scalar bit patterns.
    pub fn new(x: u64, y: u64, z: u64) -> (v: Vec3D)
        ensures
            v.x == x,
            v.y == y,
            v.z == z,
    {
        Vec3D { x, y, z }
    }
}

/// The one failure the vector algebra knows: a request to divide by a scalar
/// that compares equal to zero.
#[derive(Clone, Copy, Debug, PartialEq, Eq, Structural)]
pub struct DivisionByZero;

/// Decides whether a vector may be divided by the scalar whose bit pattern is
/// `k`. Division is refused exactly when the scalar compares equal to zero,
/// that is, for the two signed-zero patterns and no others; dividing by NaN,
/// by an infinity or by a subnormal is allowed and merely follows binary64
/// semantics.
pub fn check_divisor(k: u64) -> (r: Result<(), DivisionByZero>)
    ensures
        r is Err <==> scalar_bits_are_zero(k),
{
    if k == POS_ZERO_BITS || k == NEG_ZERO_BITS {
        Err(DivisionByZero)
    } else {
        Ok(())
    }
}

} // verus!
