//! Laws of the vector operations, stated over the contracts of the
//! executable functions and proved once for every domain and every input.

use vstd::prelude::*;

use crate::scalar::trunc_div;
use crate::scalar::trunc_rem;
use crate::scalar::Scalar;
use crate::scalar::SignedScalar;
use crate::vec2::Vec2;
use crate::vec2::Vec2Error;

verus! {

/// The integer models of the components determine the vector: two vectors
/// with equal models are equal.
pub proof fn lemma_model_determines_vec2<T: Scalar>(u: Vec2<T>, v: Vec2<T>)
    requires
        u.x.as_int() == v.x.as_int(),
        u.y.as_int() == v.y.as_int(),
    ensures
        u == v,
{
    u.x.lemma_injective(v.x);
    u.y.lemma_injective(v.y);
}

/// Equality is structural: two constructed vectors are equal exactly when
/// both pairs of components are equal.
pub proof fn lemma_eq_structural<T: Scalar>(a: T, b: T, c: T, d: T)
    ensures
        (Vec2 { x: a, y: b } == Vec2 { x: c, y: d }) <==> (a == c && b == d),
{
}

/// A compound addition leaves the vector the plain addition returns: any two
/// results whose components carry the sums of the same models coincide. The
/// scalar form is the case `rx == ry`.
pub proof fn lemma_add_assign_matches_add<T: Scalar>(
    u: Vec2<T>,
    rx: int,
    ry: int,
    plain: Vec2<T>,
    compound: Vec2<T>,
)
    requires
        plain.x.as_int() == u.x.as_int() + rx,
        plain.y.as_int() == u.y.as_int() + ry,
        compound.x.as_int() == u.x.as_int() + rx,
        compound.y.as_int() == u.y.as_int() + ry,
    ensures
        plain == compound,
{
    lemma_model_determines_vec2(plain, compound);
}

/// A compound subtraction leaves the vector the plain subtraction returns.
pub proof fn lemma_sub_assign_matches_sub<T: Scalar>(
    u: Vec2<T>,
    rx: int,
    ry: int,
    plain: Vec2<T>,
    compound: Vec2<T>,
)
    requires
        plain.x.as_int() == u.x.as_int() - rx,
        plain.y.as_int() == u.y.as_int() - ry,
        compound.x.as_int() == u.x.as_int() - rx,
        compound.y.as_int() == u.y.as_int() - ry,
    ensures
        plain == compound,
{
    lemma_model_determines_vec2(plain, compound);
}

/// A compound multiplication leaves the vector the plain multiplication
/// returns.
pub proof fn lemma_mul_assign_matches_mul<T: Scalar>(
    u: Vec2<T>,
    rx: int,
    ry: int,
    plain: Vec2<T>,
    compound: Vec2<T>,
)
    requires
        plain.x.as_int() == u.x.as_int() * rx,
        plain.y.as_int() == u.y.as_int() * ry,
        compound.x.as_int() == u.x.as_int() * rx,
        compound.y.as_int() == u.y.as_int() * ry,
    ensures
        plain == compound,
{
    lemma_model_determines_vec2(plain, compound);
}

/// A compound division leaves the vector the plain division returns.
pub proof fn lemma_div_assign_matches_div<T: Scalar>(
    u: Vec2<T>,
    rx: int,
    ry: int,
    plain: Vec2<T>,
    compound: Vec2<T>,
)
    requires
        plain.x.as_int() == trunc_div(u.x.as_int(), rx),
        plain.y.as_int() == trunc_div(u.y.as_int(), ry),
        compound.x.as_int() == trunc_div(u.x.as_int(), rx),
        compound.y.as_int() == trunc_div(u.y.as_int(), ry),
    ensures
        plain == compound,
{
    lemma_model_determines_vec2(plain, compound);
}

/// A compound remainder leaves the vector the plain remainder returns.
pub proof fn lemma_rem_assign_matches_rem<T: Scalar>(
    u: Vec2<T>,
    rx: int,
    ry: int,
    plain: Vec2<T>,
    compound: Vec2<T>,
)
    requires
        plain.x.as_int() == trunc_rem(u.x.as_int(), rx),
        plain.y.as_int() == trunc_rem(u.y.as_int(), ry),
        compound.x.as_int() == trunc_rem(u.x.as_int(), rx),
        compound.y.as_int() == trunc_rem(u.y.as_int(), ry),
    ensures
        plain == compound,
{
    lemma_model_determines_vec2(plain, compound);
}

/// Negating twice returns the original vector: each step relates the models
/// as [`Vec2::neg`]'s contract does.
pub proof fn lemma_negate_involution<T: SignedScalar>(v: Vec2<T>, n1: Vec2<T>, n2: Vec2<T>)
    requires
        n1.x.as_int() == -v.x.as_int(),
        n1.y.as_int() == -v.y.as_int(),
        n2.x.as_int() == -n1.x.as_int(),
        n2.y.as_int() == -n1.y.as_int(),
    ensures
        n2 == v,
{
    lemma_model_determines_vec2(n2, v);
}

/// Four perpendicular rotations return the original vector: each step
/// relates the models as [`Vec2::perp`]'s contract does.
pub proof fn lemma_perp_four_times<T: SignedScalar>(
    v: Vec2<T>,
    p1: Vec2<T>,
    p2: Vec2<T>,
    p3: Vec2<T>,
    p4: Vec2<T>,
)
    requires
        p1.x.as_int() == -v.y.as_int(),
        p1.y.as_int() == v.x.as_int(),
        p2.x.as_int() == -p1.y.as_int(),
        p2.y.as_int() == p1.x.as_int(),
        p3.x.as_int() == -p2.y.as_int(),
        p3.y.as_int() == p2.x.as_int(),
        p4.x.as_int() == -p3.y.as_int(),
        p4.y.as_int() == p3.x.as_int(),
    ensures
        p4 == v,
{
    lemma_model_determines_vec2(p4, v);
}

/// Converting to a tuple and back returns the original vector.
pub proof fn lemma_tuple_round_trip<T: Scalar>(v: Vec2<T>, t: (T, T), r: Vec2<T>)
    requires
        t == (v.x, v.y),
        r.x == t.0,
        r.y == t.1,
    ensures
        r == v,
{
}

/// Converting to a fixed two-element sequence and back returns the original
/// vector.
pub proof fn lemma_array_round_trip<T: Scalar>(v: Vec2<T>, a: Seq<T>, r: Vec2<T>)
    requires
        a == seq![v.x, v.y],
        r.x == a[0],
        r.y == a[1],
    ensures
        r == v,
{
}

/// Converting to a dynamically sized sequence and back succeeds and returns
/// the original vector: the sequence `[x, y]` has length two, so the
/// conversion's contract makes the result `Ok` of the original components.
pub proof fn lemma_sequence_round_trip<T: Scalar>(
    v: Vec2<T>,
    s: Seq<T>,
    r: Result<Vec2<T>, Vec2Error>,
)
    requires
        s == seq![v.x, v.y],
        r == Ok::<Vec2<T>, Vec2Error>(Vec2 { x: s[0], y: s[1] }),
    ensures
        r == Ok::<Vec2<T>, Vec2Error>(v),
{
}

} // verus!
