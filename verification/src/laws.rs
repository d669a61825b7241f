use vstd::prelude::*;

use crate::rat::{frac_add, frac_div, frac_eq, frac_mul, frac_sub, frac_wf, Frac};
use crate::transform::{ft_mul, ft_to_local, ft_wf, FracTransform};
use crate::vec3::{fv_add, fv_eq, fv_nonzero_components, fv_sub, fv_wf, Frac3};

verus! {

/// One coordinate of the drift-free law: starting from an initial value
/// and an anchor, moving by the anchored offset of an intermediate
/// sample and then by the increment up to a final sample lands exactly
/// where the single anchored offset of the final sample lands. Sampling
/// a drag in any number of steps therefore changes nothing, and no
/// error can accumulate across frames.
pub proof fn lemma_drift_free_coord(init: Frac, anchor: Frac, s1: Frac, s2: Frac)
    requires
        frac_wf(init),
        frac_wf(anchor),
        frac_wf(s1),
        frac_wf(s2),
    ensures
        frac_eq(
            frac_add(frac_add(init, frac_sub(s1, anchor)), frac_sub(s2, s1)),
            frac_add(init, frac_sub(s2, anchor)),
        ),
{
    let lhs = frac_add(frac_add(init, frac_sub(s1, anchor)), frac_sub(s2, s1));
    let rhs = frac_add(init, frac_sub(s2, anchor));
    let bn: int = init.n * (s1.d * anchor.d) + (s1.n * anchor.d - anchor.n * s1.d) * init.d;
    let bd: int = init.d * (s1.d * anchor.d);
    assert(lhs.n == bn * (s2.d * s1.d) + (s2.n * s1.d - s1.n * s2.d) * bd);
    assert(lhs.d == bd * (s2.d * s1.d));
    assert(rhs.n == init.n * (s2.d * anchor.d) + (s2.n * anchor.d - anchor.n * s2.d) * init.d);
    assert(rhs.d == init.d * (s2.d * anchor.d));
    // The first summand telescopes away: the left side is the right side
    // scaled by the square of the intermediate sample's denominator.
    lemma_telescope(init.n, init.d, anchor.n, anchor.d, s1.n, s1.d, s2.n, s2.d);
    assert(lhs.n * rhs.d == rhs.n * lhs.d) by (nonlinear_arith)
        requires
            lhs.n == (s1.d * s1.d) * rhs.n,
            lhs.d == (s1.d * s1.d) * rhs.d,
    ;
}

/// The ring identity behind the telescoping: applying an intermediate
/// anchored step and then the remaining increment gives the final
/// anchored step's fraction, scaled by the intermediate denominator
/// squared.
proof fn lemma_telescope(
    i_n: int,
    i_d: int,
    a_n: int,
    a_d: int,
    p_n: int,
    p_d: int,
    q_n: int,
    q_d: int,
)
    ensures
        (i_n * (p_d * a_d) + (p_n * a_d - a_n * p_d) * i_d) * (q_d * p_d) + (q_n * p_d - p_n * q_d)
            * (i_d * (p_d * a_d)) == (p_d * p_d) * (i_n * (q_d * a_d) + (q_n * a_d - a_n * q_d)
            * i_d),
        (i_d * (p_d * a_d)) * (q_d * p_d) == (p_d * p_d) * (i_d * (q_d * a_d)),
{
    let x: int = i_n * (p_d * a_d);
    let y: int = (p_n * a_d - a_n * p_d) * i_d;
    assert((x + y) * (q_d * p_d) == x * (q_d * p_d) + y * (q_d * p_d)) by (nonlinear_arith);
    assert(x * (q_d * p_d) == (p_d * p_d) * (i_n * (q_d * a_d))) by (nonlinear_arith)
        requires
            x == i_n * (p_d * a_d),
    ;
    assert(y * (q_d * p_d) == (p_n * a_d) * (i_d * (q_d * p_d)) - (a_n * p_d) * (i_d * (q_d
        * p_d))) by (nonlinear_arith)
        requires
            y == (p_n * a_d - a_n * p_d) * i_d,
    ;
    assert((q_n * p_d - p_n * q_d) * (i_d * (p_d * a_d)) == (q_n * p_d) * (i_d * (p_d * a_d)) - (
    p_n * q_d) * (i_d * (p_d * a_d))) by (nonlinear_arith);
    assert((p_n * a_d) * (i_d * (q_d * p_d)) == (p_n * q_d) * (i_d * (p_d * a_d)))
        by (nonlinear_arith);
    assert((a_n * p_d) * (i_d * (q_d * p_d)) == (p_d * p_d) * ((a_n * q_d) * i_d))
        by (nonlinear_arith);
    assert((q_n * p_d) * (i_d * (p_d * a_d)) == (p_d * p_d) * ((q_n * a_d) * i_d))
        by (nonlinear_arith);
    assert((p_d * p_d) * ((q_n * a_d) * i_d) - (p_d * p_d) * ((a_n * q_d) * i_d) == (p_d * p_d) * (
    (q_n * a_d - a_n * q_d) * i_d)) by (nonlinear_arith);
    assert(y * (q_d * p_d) + (q_n * p_d - p_n * q_d) * (i_d * (p_d * a_d)) == (p_d * p_d) * ((q_n
        * a_d - a_n * q_d) * i_d));
    assert((p_d * p_d) * (i_n * (q_d * a_d)) + (p_d * p_d) * ((q_n * a_d - a_n * q_d) * i_d) == (
    p_d * p_d) * (i_n * (q_d * a_d) + (q_n * a_d - a_n * q_d) * i_d)) by (nonlinear_arith);
    assert((i_d * (p_d * a_d)) * (q_d * p_d) == (p_d * p_d) * (i_d * (q_d * a_d)))
        by (nonlinear_arith);
}

/// The drift-free law for whole translations: an entity whose world
/// translation is recomputed from its drag-start snapshot lands at the
/// same place whether the cursor's path was taken as one anchored step
/// to the final sample or as an intermediate anchored step followed by
/// the remaining increment.
pub proof fn lemma_drift_free_translation(init: Frac3, anchor: Frac3, s1: Frac3, s2: Frac3)
    requires
        fv_wf(init),
        fv_wf(anchor),
        fv_wf(s1),
        fv_wf(s2),
    ensures
        fv_eq(
            fv_add(fv_add(init, fv_sub(s1, anchor)), fv_sub(s2, s1)),
            fv_add(init, fv_sub(s2, anchor)),
        ),
{
    lemma_drift_free_coord(init.x, anchor.x, s1.x, s2.x);
    lemma_drift_free_coord(init.y, anchor.y, s1.y, s2.y);
    lemma_drift_free_coord(init.z, anchor.z, s1.z, s2.z);
}

/// Scaling by `s` undoes dividing by `s`, exactly.
pub proof fn lemma_mul_div_cancel(w: Frac, s: Frac)
    requires
        frac_wf(w),
        frac_wf(s),
        s.n != 0,
    ensures
        frac_eq(frac_mul(s, frac_div(w, s)), w),
{
    if s.n >= 0 {
        assert((s.n * (w.n * s.d)) * w.d == w.n * (s.d * (w.d * s.n))) by (nonlinear_arith);
    } else {
        assert((s.n * (-(w.n * s.d))) * w.d == w.n * (s.d * (-(w.d * s.n)))) by (nonlinear_arith);
    }
}

/// The scale leg of the parent-space round trip: composing the parent
/// back onto the local transform it produced recovers the world scale
/// exactly. The translation and rotation legs of the round trip pass
/// through the quaternion sandwich and are exercised by the tests
/// rather than stated here.
pub proof fn lemma_round_trip_scale(parent: FracTransform, world: FracTransform)
    requires
        ft_wf(parent),
        fv_nonzero_components(parent.scale),
        ft_wf(world),
    ensures
        fv_eq(ft_mul(parent, ft_to_local(parent, world)).scale, world.scale),
{
    lemma_mul_div_cancel(world.scale.x, parent.scale.x);
    lemma_mul_div_cancel(world.scale.y, parent.scale.y);
    lemma_mul_div_cancel(world.scale.z, parent.scale.z);
}

} // verus!
