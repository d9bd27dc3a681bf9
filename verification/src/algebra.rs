use vstd::prelude::*;

verus! {

use vstd::arithmetic::div_mod::lemma_fundamental_div_mod_converse_div;

/// The ideal value of a three-component vector: three unbounded integers in
/// place of the binary64 scalars the front end computes with. Every operation
/// of the vector algebra rounds the result of an exact formula; the formulas
/// themselves are stated here over the integers, where their laws admit exact
/// proof. Each law below therefore speaks of the formulas, not of the rounded
/// binary64 results, which follow them only up to rounding.
pub ghost struct VecModel {
    pub x: int,
    pub y: int,
    pub z: int,
}

/// The dot-product formula.
pub open spec fn dot_model(a: VecModel, b: VecModel) -> int {
    a.x * b.x + a.y * b.y + a.z * b.z
}

/// The squared-length formula: the dot product of a vector with itself.
pub open spec fn length_sq_model(v: VecModel) -> int {
    dot_model(v, v)
}

/// The component-wise difference.
pub open spec fn sub_model(a: VecModel, b: VecModel) -> VecModel {
    VecModel { x: a.x - b.x, y: a.y - b.y, z: a.z - b.z }
}

/// The squared-distance formula: the squared length of the difference.
pub open spec fn distance_sq_model(a: VecModel, b: VecModel) -> int {
    length_sq_model(sub_model(a, b))
}

/// The component-wise negation.
pub open spec fn neg_model(v: VecModel) -> VecModel {
    VecModel { x: -v.x, y: -v.y, z: -v.z }
}

/// The cross-product formula.
pub open spec fn cross_model(a: VecModel, b: VecModel) -> VecModel {
    VecModel {
        x: a.y * b.z - a.z * b.y,
        y: a.z * b.x - a.x * b.z,
        z: a.x * b.y - a.y * b.x,
    }
}

/// Uniform scaling by a scalar.
pub open spec fn scale_model(v: VecModel, k: int) -> VecModel {
    VecModel { x: v.x * k, y: v.y * k, z: v.z * k }
}

/// Component-wise division by a scalar (Euclidean integer division; exact on
/// the multiples that the round-trip law below concerns).
pub open spec fn divide_model(v: VecModel, k: int) -> VecModel {
    VecModel { x: v.x / k, y: v.y / k, z: v.z / k }
}

/// The dot-product formula is symmetric in its two operands.
pub proof fn lemma_dot_commutes(a: VecModel, b: VecModel)
    ensures
        dot_model(a, b) == dot_model(b, a),
{
    assert(a.x * b.x + a.y * b.y + a.z * b.z == b.x * a.x + b.y * a.y + b.z * a.z)
        by (nonlinear_arith);
}

/// A squared length is never negative.
pub proof fn lemma_length_sq_nonneg(v: VecModel)
    ensures
        length_sq_model(v) >= 0,
{
    assert(v.x * v.x + v.y * v.y + v.z * v.z >= 0) by (nonlinear_arith);
}

/// The squared-distance formula is symmetric in its two operands.
pub proof fn lemma_distance_sq_symmetric(a: VecModel, b: VecModel)
    ensures
        distance_sq_model(a, b) == distance_sq_model(b, a),
{
    assert((a.x - b.x) * (a.x - b.x) + (a.y - b.y) * (a.y - b.y) + (a.z - b.z) * (a.z - b.z)
        == (b.x - a.x) * (b.x - a.x) + (b.y - a.y) * (b.y - a.y) + (b.z - a.z) * (b.z - a.z))
        by (nonlinear_arith);
}

/// The squared distance from a vector to itself is zero.
pub proof fn lemma_distance_self_zero(a: VecModel)
    ensures
        distance_sq_model(a, a) == 0,
{
}

/// The cross product of two vectors is orthogonal to both of them.
pub proof fn lemma_cross_orthogonal(a: VecModel, b: VecModel)
    ensures
        dot_model(cross_model(a, b), a) == 0,
        dot_model(cross_model(a, b), b) == 0,
{
    assert((a.y * b.z - a.z * b.y) * a.x + (a.z * b.x - a.x * b.z) * a.y + (a.x * b.y - a.y
        * b.x) * a.z == 0) by (nonlinear_arith);
    assert((a.y * b.z - a.z * b.y) * b.x + (a.z * b.x - a.x * b.z) * b.y + (a.x * b.y - a.y
        * b.x) * b.z == 0) by (nonlinear_arith);
}

/// The cross product is anti-commutative: swapping the operands negates it.
pub proof fn lemma_cross_anticommutes(a: VecModel, b: VecModel)
    ensures
        cross_model(a, b) == neg_model(cross_model(b, a)),
{
    assert(a.y * b.z - a.z * b.y == -(b.y * a.z - b.z * a.y)) by (nonlinear_arith);
    assert(a.z * b.x - a.x * b.z == -(b.z * a.x - b.x * a.z)) by (nonlinear_arith);
    assert(a.x * b.y - a.y * b.x == -(b.x * a.y - b.y * a.x)) by (nonlinear_arith);
}

/// Scaling by a nonzero scalar and then dividing by it gives the vector back.
pub proof fn lemma_scale_divide_round_trip(v: VecModel, k: int)
    requires
        k != 0,
    ensures
        divide_model(scale_model(v, k), k) == v,
{
    lemma_exact_quotient(v.x, k);
    lemma_exact_quotient(v.y, k);
    lemma_exact_quotient(v.z, k);
}

/// Dividing an exact multiple by the factor that formed it gives the other
/// factor back, whichever sign the divisor has.
proof fn lemma_exact_quotient(x: int, k: int)
    requires
        k != 0,
    ensures
        (x * k) / k == x,
{
    if k > 0 {
        lemma_fundamental_div_mod_converse_div(x * k, k, x, 0);
    } else {
        assert((x * k) / k == x) by (nonlinear_arith)
            requires
                k < 0,
        ;
    }
}

} // verus!
