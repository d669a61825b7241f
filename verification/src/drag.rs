use vstd::prelude::*;

use crate::gizmo::{
    GizmoError, TransformGizmo, TransformGizmoBundle, TransformGizmoEvent,
    TransformGizmoInteraction,
};
use crate::quat::{fq_pure, Frac4, Quat};
use crate::rat::{
    add_fits, div_fits, frac_add, frac_div, frac_mul, has_sqrt_rep, mul_fits, sqrt_rep, Frac, Rat,
};
use crate::scene::{fv_some_nonzero, parent_frame, Ray, SceneNode};
use crate::transform::{
    ft_eq, ft_rotate_around, ft_rotate_around_fits, ft_to_local, ft_to_local_fits, FracTransform,
    Transform,
};
use crate::vec3::{
    fv_add, fv_add_fits, fv_cross, fv_cross_fits, fv_dot, fv_dot_fits, fv_scale, fv_scale_fits,
    fv_sub, fv_sub_fits, lemma_dot_self_pos, Frac3, Vec3,
};

verus! {

// ----------------------------------------------------------------------
// Ray / plane intersection
// ----------------------------------------------------------------------

/// The parameter of the hit along the ray.
pub open spec fn hit_t(ray: Ray, normal: Frac3, point: Frac3) -> Frac {
    frac_div(fv_dot(fv_sub(point, ray.origin@), normal), fv_dot(ray.direction@, normal))
}

/// The hit point itself.
pub open spec fn hit_point(ray: Ray, normal: Frac3, point: Frac3) -> Frac3 {
    fv_add(ray.origin@, fv_scale(hit_t(ray, normal, point), ray.direction@))
}

/// Exactly when the ray hits the plane in front of its origin and every
/// step of the computation fits: the plane must not be parallel to the
/// ray, and the hit parameter must be nonnegative.
pub open spec fn hit_some(ray: Ray, normal: Frac3, point: Frac3) -> bool {
    let num = fv_dot(fv_sub(point, ray.origin@), normal);
    let den = fv_dot(ray.direction@, normal);
    &&& fv_sub_fits(point, ray.origin@)
    &&& fv_dot_fits(fv_sub(point, ray.origin@), normal)
    &&& fv_dot_fits(ray.direction@, normal)
    &&& den.n != 0
    &&& div_fits(num, den)
    &&& hit_t(ray, normal, point).n >= 0
    &&& fv_scale_fits(hit_t(ray, normal, point), ray.direction@)
    &&& fv_add_fits(ray.origin@, fv_scale(hit_t(ray, normal, point), ray.direction@))
}

/// Intersect a ray with the plane through `point` with the given
/// (unscaled) normal. A plane parallel to the ray, a hit behind the
/// ray's origin, and a value out of range all report `None`.
pub fn intersect_plane(ray: &Ray, normal: Vec3, point: Vec3) -> (r: Option<Vec3>)
    requires
        ray.wf(),
        normal.wf(),
        point.wf(),
    ensures
        r is Some <==> hit_some(*ray, normal@, point@),
        r matches Some(p) ==> p.wf() && p@ == hit_point(*ray, normal@, point@),
{
    let offset = match point.sub(ray.origin) {
        Some(v) => v,
        None => { return None; },
    };
    let num = match offset.dot(normal) {
        Some(v) => v,
        None => { return None; },
    };
    let den = match ray.direction.dot(normal) {
        Some(v) => v,
        None => { return None; },
    };
    if den.signum() == 0 {
        return None;
    }
    let t = match num.div(den) {
        Some(v) => v,
        None => { return None; },
    };
    if t.signum() == -1 {
        return None;
    }
    let scaled = match ray.direction.scale(t) {
        Some(v) => v,
        None => { return None; },
    };
    let p = match ray.origin.add(scaled) {
        Some(v) => v,
        None => { return None; },
    };
    Some(p)
}

// ----------------------------------------------------------------------
// Projection onto an axis
// ----------------------------------------------------------------------

/// The projection of `v` onto the line spanned by `axis`:
/// `(v . a / a . a) a`. For the unit axes the gizmo uses this is the
/// familiar `(v . a) a`.
pub open spec fn axis_proj(v: Frac3, axis: Frac3) -> Frac3 {
    fv_scale(frac_div(fv_dot(v, axis), fv_dot(axis, axis)), axis)
}

pub open spec fn axis_proj_fits(v: Frac3, axis: Frac3) -> bool {
    &&& fv_dot_fits(v, axis)
    &&& fv_dot_fits(axis, axis)
    &&& div_fits(fv_dot(v, axis), fv_dot(axis, axis))
    &&& fv_scale_fits(frac_div(fv_dot(v, axis), fv_dot(axis, axis)), axis)
}

/// Project a vector onto a nonzero axis. `None` exactly when a step
/// leaves `i128`.
pub fn project_onto_axis(v: Vec3, axis: Vec3) -> (r: Option<Vec3>)
    requires
        v.wf(),
        axis.wf(),
        fv_some_nonzero(axis@),
    ensures
        r is Some <==> axis_proj_fits(v@, axis@),
        r matches Some(p) ==> p.wf() && p@ == axis_proj(v@, axis@),
{
    proof {
        lemma_dot_self_pos(axis@);
    }
    let num = match v.dot(axis) {
        Some(s) => s,
        None => { return None; },
    };
    let den = match axis.dot(axis) {
        Some(s) => s,
        None => { return None; },
    };
    let s = match num.div(den) {
        Some(t) => t,
        None => { return None; },
    };
    let p = match axis.scale(s) {
        Some(u) => u,
        None => { return None; },
    };
    Some(p)
}

// ----------------------------------------------------------------------
// The rotation arc quaternion
// ----------------------------------------------------------------------

/// The squared product of the spokes' lengths.
pub open spec fn arc_m2(u: Frac3, v: Frac3) -> Frac {
    frac_mul(fv_dot(u, u), fv_dot(v, v))
}

/// The rotation taking the direction of spoke `u` to the direction of
/// spoke `v`, as a homogeneous quaternion `(|u||v| + u . v, u x v)`.
/// When `v` points exactly opposite `u` that expression degenerates to
/// zero, and the turn is the half turn about the gizmo's axis instead.
pub open spec fn arc_quat(u: Frac3, v: Frac3, axis: Frac3) -> Frac4 {
    let m = sqrt_rep(arc_m2(u, v));
    let c = fv_dot(u, v);
    let w = fv_cross(u, v);
    let qw = frac_add(m, c);
    if qw.n == 0 && w.x.n == 0 && w.y.n == 0 && w.z.n == 0 {
        fq_pure(axis)
    } else {
        Frac4 { w: qw, x: w.x, y: w.y, z: w.z }
    }
}

/// Exactly when the arc quaternion can be built: neither spoke may be
/// zero, the squared length product must have an exact rational square
/// root (as it always does for the right-angle and half-turn sweeps the
/// tests pin down), and every step must fit.
pub open spec fn arc_some(u: Frac3, v: Frac3, axis: Frac3) -> bool {
    &&& fv_dot_fits(u, u)
    &&& fv_dot_fits(v, v)
    &&& fv_dot(u, u).n != 0
    &&& fv_dot(v, v).n != 0
    &&& mul_fits(fv_dot(u, u), fv_dot(v, v))
    &&& has_sqrt_rep(arc_m2(u, v))
    &&& fv_dot_fits(u, v)
    &&& fv_cross_fits(u, v)
    &&& add_fits(sqrt_rep(arc_m2(u, v)), fv_dot(u, v))
}

/// Build the rotation arc quaternion for a rotation drag: anchor spoke
/// `u`, current spoke `v`, both in the rotation plane about `axis`.
pub fn rotation_arc(u: Vec3, v: Vec3, axis: Vec3) -> (r: Option<Quat>)
    requires
        u.wf(),
        v.wf(),
        axis.wf(),
        fv_some_nonzero(axis@),
    ensures
        r is Some <==> arc_some(u@, v@, axis@),
        r matches Some(q) ==> q.wf() && q@ == arc_quat(u@, v@, axis@),
{
    proof {
        lemma_dot_self_pos(u@);
        lemma_dot_self_pos(v@);
    }
    let uu = match u.dot(u) {
        Some(s) => s,
        None => { return None; },
    };
    let vv = match v.dot(v) {
        Some(s) => s,
        None => { return None; },
    };
    if uu.signum() == 0 || vv.signum() == 0 {
        return None;
    }
    let m2 = match uu.mul(vv) {
        Some(s) => s,
        None => { return None; },
    };
    proof {
        assert(m2@.n >= 0) by (nonlinear_arith)
            requires
                m2@.n == uu@.n * vv@.n,
                uu@.n >= 0,
                vv@.n >= 0,
        ;
    }
    let m = match m2.sqrt_exact() {
        Some(s) => s,
        None => { return None; },
    };
    let c = match u.dot(v) {
        Some(s) => s,
        None => { return None; },
    };
    let w = match u.cross(v) {
        Some(s) => s,
        None => { return None; },
    };
    let qw = match m.add(c) {
        Some(s) => s,
        None => { return None; },
    };
    if qw.num == 0 && w.x.num == 0 && w.y.num == 0 && w.z.num == 0 {
        Some(Quat { w: Rat::zero(), x: axis.x, y: axis.y, z: axis.z })
    } else {
        Some(Quat { w: qw, x: w.x, y: w.y, z: w.z })
    }
}

// ----------------------------------------------------------------------
// Applying a frame's target to the selection
// ----------------------------------------------------------------------

/// The drag-start snapshot of a node; callers only use this under
/// `initial_transform is Some`.
pub open spec fn init_of(n: SceneNode) -> FracTransform {
    match n.initial_transform {
        Some(t) => t@,
        None => crate::transform::ft_identity(),
    }
}

/// A world transform translated by a delta, keeping rotation and scale.
pub open spec fn translated_world(init: FracTransform, delta: Frac3) -> FracTransform {
    FracTransform {
        translation: fv_add(init.translation, delta),
        rotation: init.rotation,
        scale: init.scale,
    }
}

pub open spec fn node_fits_translate(n: SceneNode, delta: Frac3) -> bool {
    fv_add_fits(init_of(n).translation, delta) && ft_to_local_fits(
        parent_frame(n),
        translated_world(init_of(n), delta),
    )
}

pub open spec fn node_fits_rotate(n: SceneNode, origin: Frac3, q: Frac4) -> bool {
    ft_rotate_around_fits(init_of(n), origin, q) && ft_to_local_fits(
        parent_frame(n),
        ft_rotate_around(init_of(n), origin, q),
    )
}

/// Everything of a node but its local transform is the same.
pub open spec fn same_but_transform(a: SceneNode, b: SceneNode) -> bool {
    &&& b.selected == a.selected
    &&& b.global_transform == a.global_transform
    &&& b.parent_global == a.parent_global
    &&& b.initial_transform == a.initial_transform
}

/// The outcome of applying a drag's world-space target to one node.
/// A node takes part only while it is selected and carries a drag-start
/// snapshot. Its new local transform is the target expressed in its
/// parent's space — written only when it differs from the current value,
/// so reapplying the same target changes nothing. A value out of range
/// leaves the node untouched for the frame.
pub open spec fn apply_outcome(
    a: SceneNode,
    b: SceneNode,
    target: FracTransform,
    ok: bool,
) -> bool {
    if a.selected && a.initial_transform is Some {
        if ok {
            let local = ft_to_local(parent_frame(a), target);
            &&& same_but_transform(a, b)
            &&& ((b == a && ft_eq(a.transform@, local)) || b.transform@ == local)
            &&& (a.transform@ == local ==> b == a)
            &&& b.wf()
        } else {
            b == a
        }
    } else {
        b == a
    }
}

/// Write `target` (a world transform) into one node's local transform,
/// through the parent's frame, skipping the write when nothing changes.
/// Reports whether it wrote.
fn apply_target_to_node(node: &mut SceneNode, target: Transform) -> (wrote: bool)
    requires
        old(node).wf(),
        target.wf(),
        old(node).selected,
        old(node).initial_transform is Some,
    ensures
        final(node).wf(),
        same_but_transform(*old(node), *final(node)),
        ft_to_local_fits(parent_frame(*old(node)), target@) ==> {
            let local = ft_to_local(parent_frame(*old(node)), target@);
            &&& ((*final(node) == *old(node) && ft_eq(old(node).transform@, local))
                || final(node).transform@ == local)
            &&& (old(node).transform@ == local ==> *final(node) == *old(node))
        },
        !ft_to_local_fits(parent_frame(*old(node)), target@) ==> *final(node) == *old(node),
        wrote <==> *final(node) != *old(node),
{
    let parent = match node.parent_global {
        Some(p) => p,
        None => Transform::identity(),
    };
    let local = match target.to_local(parent) {
        Some(l) => l,
        None => { return false; },
    };
    if node.transform.eq_val(&local) {
        false
    } else {
        node.transform = local;
        true
    }
}

/// Apply a pure translation delta to every participating node.
fn apply_translation(entities: &mut Vec<SceneNode>, delta: Vec3) -> (wrote: bool)
    requires
        delta.wf(),
        forall|i: int| 0 <= i < old(entities)@.len() ==> (#[trigger] old(entities)@[i]).wf(),
    ensures
        final(entities)@.len() == old(entities)@.len(),
        forall|i: int|
            0 <= i < old(entities)@.len() ==> apply_outcome(
                #[trigger] old(entities)@[i],
                final(entities)@[i],
                translated_world(init_of(old(entities)@[i]), delta@),
                node_fits_translate(old(entities)@[i], delta@),
            ),
        wrote <==> exists|i: int|
            0 <= i < old(entities)@.len() && #[trigger] final(entities)@[i] != old(entities)@[i],
{
    let n = entities.len();
    let mut wrote: bool = false;
    let mut idx: usize = 0;
    while idx < n
        invariant
            0 <= idx <= n,
            n == entities@.len(),
            entities@.len() == old(entities)@.len(),
            delta.wf(),
            forall|i: int| 0 <= i < old(entities)@.len() ==> (#[trigger] old(entities)@[i]).wf(),
            forall|i: int| idx <= i < n ==> entities@[i] == old(entities)@[i],
            forall|i: int|
                0 <= i < idx ==> apply_outcome(
                    #[trigger] old(entities)@[i],
                    entities@[i],
                    translated_world(init_of(old(entities)@[i]), delta@),
                    node_fits_translate(old(entities)@[i], delta@),
                ),
            wrote <==> exists|i: int|
                0 <= i < idx && #[trigger] entities@[i] != old(entities)@[i],
        decreases n - idx,
    {
        let node = entities[idx];
        let ghost pre = entities@;
        let ghost prew = wrote;
        if node.selected {
            match node.initial_transform {
                Some(init) => {
                    match init.translation.add(delta) {
                        Some(moved) => {
                            let target = Transform {
                                translation: moved,
                                rotation: init.rotation,
                                scale: init.scale,
                            };
                            let mut updated = node;
                            let w = apply_target_to_node(&mut updated, target);
                            entities.set(idx, updated);
                            proof {
                                if w {
                                    assert(entities@[idx as int] != old(entities)@[idx as int]);
                                } else {
                                    assert(entities@[idx as int] == old(entities)@[idx as int]);
                                }
                            }
                            if w {
                                wrote = true;
                            }
                        },
                        None => {},
                    }
                },
                None => {},
            }
        }
        proof {
            assert(forall|i: int| 0 <= i < idx as int ==> #[trigger] entities@[i] == pre[i]);
            if wrote {
                if prew {
                    let i0 = choose|i: int|
                        0 <= i < idx as int && #[trigger] pre[i] != old(entities)@[i];
                    assert(entities@[i0] != old(entities)@[i0]);
                }
            } else {
                assert(forall|i: int|
                    0 <= i < idx as int + 1 ==> #[trigger] entities@[i] == old(entities)@[i]);
            }
        }
        idx = idx + 1;
    }
    wrote
}

/// Rotate every participating node rigidly about the gizmo origin.
fn apply_rotation(entities: &mut Vec<SceneNode>, origin: Vec3, q: Quat) -> (wrote: bool)
    requires
        origin.wf(),
        q.wf(),
        forall|i: int| 0 <= i < old(entities)@.len() ==> (#[trigger] old(entities)@[i]).wf(),
    ensures
        final(entities)@.len() == old(entities)@.len(),
        forall|i: int|
            0 <= i < old(entities)@.len() ==> apply_outcome(
                #[trigger] old(entities)@[i],
                final(entities)@[i],
                ft_rotate_around(init_of(old(entities)@[i]), origin@, q@),
                node_fits_rotate(old(entities)@[i], origin@, q@),
            ),
        wrote <==> exists|i: int|
            0 <= i < old(entities)@.len() && #[trigger] final(entities)@[i] != old(entities)@[i],
{
    let n = entities.len();
    let mut wrote: bool = false;
    let mut idx: usize = 0;
    while idx < n
        invariant
            0 <= idx <= n,
            n == entities@.len(),
            entities@.len() == old(entities)@.len(),
            origin.wf(),
            q.wf(),
            forall|i: int| 0 <= i < old(entities)@.len() ==> (#[trigger] old(entities)@[i]).wf(),
            forall|i: int| idx <= i < n ==> entities@[i] == old(entities)@[i],
            forall|i: int|
                0 <= i < idx ==> apply_outcome(
                    #[trigger] old(entities)@[i],
                    entities@[i],
                    ft_rotate_around(init_of(old(entities)@[i]), origin@, q@),
                    node_fits_rotate(old(entities)@[i], origin@, q@),
                ),
            wrote <==> exists|i: int|
                0 <= i < idx && #[trigger] entities@[i] != old(entities)@[i],
        decreases n - idx,
    {
        let node = entities[idx];
        let ghost pre = entities@;
        let ghost prew = wrote;
        if node.selected {
            match node.initial_transform {
                Some(init) => {
                    match init.rotate_around(origin, q) {
                        Some(target) => {
                            let mut updated = node;
                            let w = apply_target_to_node(&mut updated, target);
                            entities.set(idx, updated);
                            proof {
                                if w {
                                    assert(entities@[idx as int] != old(entities)@[idx as int]);
                                } else {
                                    assert(entities@[idx as int] == old(entities)@[idx as int]);
                                }
                            }
                            if w {
                                wrote = true;
                            }
                        },
                        None => {},
                    }
                },
                None => {},
            }
        }
        proof {
            assert(forall|i: int| 0 <= i < idx as int ==> #[trigger] entities@[i] == pre[i]);
            if wrote {
                if prew {
                    let i0 = choose|i: int|
                        0 <= i < idx as int && #[trigger] pre[i] != old(entities)@[i];
                    assert(entities@[i0] != old(entities)@[i0]);
                }
            } else {
                assert(forall|i: int|
                    0 <= i < idx as int + 1 ==> #[trigger] entities@[i] == old(entities)@[i]);
            }
        }
        idx = idx + 1;
    }
    wrote
}

// ----------------------------------------------------------------------
// The drag state machine
// ----------------------------------------------------------------------

/// The plane used for an axis drag: it contains the axis and faces the
/// ray as squarely as possible, with normal `axis x (dir x axis)`.
pub open spec fn ta_normal(axis: Frac3, dir: Frac3) -> Frac3 {
    fv_cross(axis, fv_cross(dir, axis))
}

pub open spec fn ta_normal_fits(axis: Frac3, dir: Frac3) -> bool {
    fv_cross_fits(dir, axis) && fv_cross_fits(axis, fv_cross(dir, axis))
}

/// The anchor stored on an axis drag's first sample: the hit projected
/// onto the axis, placed back at the gizmo origin.
pub open spec fn ta_anchor(p: Frac3, origin: Frac3, axis: Frac3) -> Frac3 {
    fv_add(axis_proj(fv_sub(p, origin), axis), origin)
}

pub open spec fn ta_anchor_fits(p: Frac3, origin: Frac3, axis: Frac3) -> bool {
    &&& fv_sub_fits(p, origin)
    &&& axis_proj_fits(fv_sub(p, origin), axis)
    &&& fv_add_fits(axis_proj(fv_sub(p, origin), axis), origin)
}

/// The translation of a later axis-drag sample: the hit's spoke from
/// the gizmo origin is projected onto the *anchor's* direction — not
/// onto the axis again — and measured from the anchor's spoke. The
/// recorded anchor lies on the axis, so for every anchor this machine
/// itself stores the two projections coincide; stating the delta over
/// the anchor's spoke keeps the contract honest for any stored anchor.
pub open spec fn ta_delta(p: Frac3, origin: Frac3, anchor: Frac3) -> Frac3 {
    fv_sub(
        axis_proj(fv_sub(p, origin), fv_sub(anchor, origin)),
        fv_sub(anchor, origin),
    )
}

pub open spec fn ta_delta_fits(p: Frac3, origin: Frac3, anchor: Frac3) -> bool {
    &&& fv_sub_fits(anchor, origin)
    &&& fv_sub_fits(p, origin)
    &&& axis_proj_fits(fv_sub(p, origin), fv_sub(anchor, origin))
    &&& fv_sub_fits(axis_proj(fv_sub(p, origin), fv_sub(anchor, origin)), fv_sub(anchor, origin))
}

/// Nothing happened this frame.
pub open spec fn unchanged_frame(
    g0: TransformGizmo,
    e0: Seq<SceneNode>,
    g1: TransformGizmo,
    e1: Seq<SceneNode>,
) -> bool {
    g1 == g0 && e1 == e0
}

/// The first sample of a session: the anchor is recorded (when its
/// computation fits) and nothing moves yet.
pub open spec fn anchor_outcome(
    g0: TransformGizmo,
    e0: Seq<SceneNode>,
    g1: TransformGizmo,
    e1: Seq<SceneNode>,
    aval: Frac3,
    ok: bool,
) -> bool {
    e1 == e0 && if ok {
        &&& g1.current_interaction == g0.current_interaction
        &&& g1.initial_transform == g0.initial_transform
        &&& match g1.drag_start {
            Some(a) => a.wf() && a@ == aval,
            None => false,
        }
    } else {
        g1 == g0
    }
}

pub open spec fn translate_applied(e0: Seq<SceneNode>, e1: Seq<SceneNode>, delta: Frac3) -> bool {
    forall|i: int|
        0 <= i < e0.len() ==> apply_outcome(
            #[trigger] e0[i],
            e1[i],
            translated_world(init_of(e0[i]), delta),
            node_fits_translate(e0[i], delta),
        )
}

pub open spec fn rotate_applied(
    e0: Seq<SceneNode>,
    e1: Seq<SceneNode>,
    origin: Frac3,
    q: Frac4,
) -> bool {
    forall|i: int|
        0 <= i < e0.len() ==> apply_outcome(
            #[trigger] e0[i],
            e1[i],
            ft_rotate_around(init_of(e0[i]), origin, q),
            node_fits_rotate(e0[i], origin, q),
        )
}

/// Everything `on_drag` does, as one relation between the state before
/// and after: no ray, no session, a missed plane, a degenerate handle or
/// an out-of-range value skip the frame; the first sample of a session
/// records the anchor; every later sample writes each selected,
/// snapshotted entity's local transform so its world transform becomes
/// the snapshot moved by the anchored delta (or swung by the anchored
/// arc), skipping writes that would not change anything.
pub open spec fn on_drag_spec(
    g0: TransformGizmo,
    ray_in: Option<Ray>,
    e0: Seq<SceneNode>,
    g1: TransformGizmo,
    e1: Seq<SceneNode>,
    wrote: bool,
) -> bool {
    &&& e1.len() == e0.len()
    &&& (wrote <==> exists|i: int| 0 <= i < e0.len() && #[trigger] e1[i] != e0[i])
    &&& match (ray_in, g0.initial_transform, g0.current_interaction) {
        (Some(ray), Some(init0), Some(inter)) => {
            let origin = init0@.translation;
            match inter {
                TransformGizmoInteraction::TranslateAxis { original: _, axis } => {
                    if !fv_some_nonzero(axis@) {
                        unchanged_frame(g0, e0, g1, e1)
                    } else if !ta_normal_fits(axis@, ray.direction@) {
                        unchanged_frame(g0, e0, g1, e1)
                    } else if !hit_some(ray, ta_normal(axis@, ray.direction@), origin) {
                        unchanged_frame(g0, e0, g1, e1)
                    } else {
                        let p = hit_point(ray, ta_normal(axis@, ray.direction@), origin);
                        match g0.drag_start {
                            None => anchor_outcome(
                                g0,
                                e0,
                                g1,
                                e1,
                                ta_anchor(p, origin, axis@),
                                ta_anchor_fits(p, origin, axis@),
                            ),
                            Some(a0) => {
                                if !fv_sub_fits(a0@, origin) {
                                    unchanged_frame(g0, e0, g1, e1)
                                } else if !fv_some_nonzero(fv_sub(a0@, origin)) {
                                    // The anchor sits on the gizmo origin:
                                    // it spans no direction to project on.
                                    unchanged_frame(g0, e0, g1, e1)
                                } else if !ta_delta_fits(p, origin, a0@) {
                                    unchanged_frame(g0, e0, g1, e1)
                                } else {
                                    g1 == g0 && translate_applied(
                                        e0,
                                        e1,
                                        ta_delta(p, origin, a0@),
                                    )
                                }
                            },
                        }
                    }
                },
                TransformGizmoInteraction::TranslatePlane { original: _, normal } => {
                    if !hit_some(ray, normal@, origin) {
                        unchanged_frame(g0, e0, g1, e1)
                    } else {
                        let p = hit_point(ray, normal@, origin);
                        match g0.drag_start {
                            None => anchor_outcome(g0, e0, g1, e1, p, true),
                            Some(a0) => {
                                if !fv_sub_fits(p, a0@) {
                                    unchanged_frame(g0, e0, g1, e1)
                                } else {
                                    g1 == g0 && translate_applied(e0, e1, fv_sub(p, a0@))
                                }
                            },
                        }
                    }
                },
                TransformGizmoInteraction::RotateAxis { original: _, axis } => {
                    if !fv_some_nonzero(axis@) {
                        unchanged_frame(g0, e0, g1, e1)
                    } else if !hit_some(ray, axis@, origin) {
                        unchanged_frame(g0, e0, g1, e1)
                    } else {
                        let p = hit_point(ray, axis@, origin);
                        match g0.drag_start {
                            None => anchor_outcome(
                                g0,
                                e0,
                                g1,
                                e1,
                                fv_sub(p, origin),
                                fv_sub_fits(p, origin),
                            ),
                            Some(u0) => {
                                if !fv_sub_fits(p, origin) {
                                    unchanged_frame(g0, e0, g1, e1)
                                } else if !arc_some(u0@, fv_sub(p, origin), axis@) {
                                    unchanged_frame(g0, e0, g1, e1)
                                } else {
                                    g1 == g0 && rotate_applied(
                                        e0,
                                        e1,
                                        origin,
                                        arc_quat(u0@, fv_sub(p, origin), axis@),
                                    )
                                }
                            },
                        }
                    }
                },
                TransformGizmoInteraction::ScaleAxis { .. } => unchanged_frame(g0, e0, g1, e1),
            }
        },
        _ => unchanged_frame(g0, e0, g1, e1),
    }
}

/// Whether every component of a vector is the zero value.
fn is_zero_vec(v: &Vec3) -> (r: bool)
    requires
        v.wf(),
    ensures
        r <==> !fv_some_nonzero(v@),
{
    v.x.num == 0 && v.y.num == 0 && v.z.num == 0
}

/// Handle one continuous drag sample against the active interaction.
/// Returns whether any entity's local transform was written.
pub fn on_drag(
    gizmo: &mut TransformGizmo,
    ray: Option<Ray>,
    entities: &mut Vec<SceneNode>,
) -> (wrote: bool)
    requires
        old(gizmo).wf(),
        (ray matches Some(r) ==> r.wf()),
        forall|i: int| 0 <= i < old(entities)@.len() ==> (#[trigger] old(entities)@[i]).wf(),
    ensures
        final(gizmo).wf(),
        on_drag_spec(*old(gizmo), ray, old(entities)@, *final(gizmo), final(entities)@, wrote),
{
    let r = match ray {
        Some(r) => r,
        None => { return false; },
    };
    let init0 = match gizmo.initial_transform {
        Some(t) => t,
        None => { return false; },
    };
    let inter = match gizmo.current_interaction {
        Some(i) => i,
        None => { return false; },
    };
    let origin = init0.translation;
    match inter {
        TransformGizmoInteraction::TranslateAxis { original: _, axis } => {
            if is_zero_vec(&axis) {
                return false;
            }
            let vertical = match r.direction.cross(axis) {
                Some(v) => v,
                None => { return false; },
            };
            let nrm = match axis.cross(vertical) {
                Some(v) => v,
                None => { return false; },
            };
            let p = match intersect_plane(&r, nrm, origin) {
                Some(v) => v,
                None => { return false; },
            };
            match gizmo.drag_start {
                None => {
                    let cv = match p.sub(origin) {
                        Some(v) => v,
                        None => { return false; },
                    };
                    let proj = match project_onto_axis(cv, axis) {
                        Some(v) => v,
                        None => { return false; },
                    };
                    let anchor = match proj.add(origin) {
                        Some(v) => v,
                        None => { return false; },
                    };
                    gizmo.drag_start = Some(anchor);
                    false
                },
                Some(a0) => {
                    let selv = match a0.sub(origin) {
                        Some(v) => v,
                        None => { return false; },
                    };
                    if is_zero_vec(&selv) {
                        return false;
                    }
                    let cv = match p.sub(origin) {
                        Some(v) => v,
                        None => { return false; },
                    };
                    let proj = match project_onto_axis(cv, selv) {
                        Some(v) => v,
                        None => { return false; },
                    };
                    let delta = match proj.sub(selv) {
                        Some(v) => v,
                        None => { return false; },
                    };
                    apply_translation(entities, delta)
                },
            }
        },
        TransformGizmoInteraction::TranslatePlane { original: _, normal } => {
            let p = match intersect_plane(&r, normal, origin) {
                Some(v) => v,
                None => { return false; },
            };
            match gizmo.drag_start {
                None => {
                    gizmo.drag_start = Some(p);
                    false
                },
                Some(a0) => {
                    let delta = match p.sub(a0) {
                        Some(v) => v,
                        None => { return false; },
                    };
                    apply_translation(entities, delta)
                },
            }
        },
        TransformGizmoInteraction::RotateAxis { original: _, axis } => {
            if is_zero_vec(&axis) {
                return false;
            }
            let p = match intersect_plane(&r, axis, origin) {
                Some(v) => v,
                None => { return false; },
            };
            match gizmo.drag_start {
                None => {
                    let u = match p.sub(origin) {
                        Some(v) => v,
                        None => { return false; },
                    };
                    gizmo.drag_start = Some(u);
                    false
                },
                Some(u0) => {
                    let v = match p.sub(origin) {
                        Some(v) => v,
                        None => { return false; },
                    };
                    let q = match rotation_arc(u0, v, axis) {
                        Some(v) => v,
                        None => { return false; },
                    };
                    apply_rotation(entities, origin, q)
                },
            }
        },
        TransformGizmoInteraction::ScaleAxis { .. } => false,
    }
}

/// Begin a drag session: snapshot every selected entity's world
/// transform, then record the gizmo's own world transform and the
/// dragged handle's interaction, clearing any stale anchor. When the
/// event's target handle cannot be resolved (`target` is `None`), the
/// snapshots are still taken — exactly as delivered events behave — and
/// the gizmo is left alone.
pub fn on_drag_start(
    entities: &mut Vec<SceneNode>,
    gizmos: &mut Vec<TransformGizmoBundle>,
    target: Option<TransformGizmoInteraction>,
) -> (r: Result<(), GizmoError>)
    requires
        forall|i: int| 0 <= i < old(entities)@.len() ==> (#[trigger] old(entities)@[i]).wf(),
        forall|i: int| 0 <= i < old(gizmos)@.len() ==> (#[trigger] old(gizmos)@[i]).wf(),
        (target matches Some(t) ==> crate::gizmo::interaction_wf(t)),
    ensures
        final(entities)@.len() == old(entities)@.len(),
        forall|i: int|
            0 <= i < old(entities)@.len() ==> final(entities)@[i] == (SceneNode {
                initial_transform: if (#[trigger] old(entities)@[i]).selected {
                    Some(old(entities)@[i].global_transform)
                } else {
                    old(entities)@[i].initial_transform
                },
                ..old(entities)@[i]
            }),
        final(gizmos)@.len() == old(gizmos)@.len(),
        r is Ok <==> target is None || old(gizmos)@.len() == 1,
        target is None ==> final(gizmos)@ == old(gizmos)@,
        target is Some && old(gizmos)@.len() != 1 ==> r == Err::<(), GizmoError>(
            GizmoError::GizmoCount { found: old(gizmos).len() },
        ) && final(gizmos)@ == old(gizmos)@,
        target matches Some(t) ==> (old(gizmos)@.len() == 1 ==> final(gizmos)@[0]
            == (TransformGizmoBundle {
            gizmo: TransformGizmo {
                current_interaction: Some(t),
                drag_start: None,
                initial_transform: Some(old(gizmos)@[0].global_transform),
            },
            ..old(gizmos)@[0]
        })),
{
    let n = entities.len();
    let mut idx: usize = 0;
    while idx < n
        invariant
            0 <= idx <= n,
            n == entities@.len(),
            entities@.len() == old(entities)@.len(),
            forall|i: int| 0 <= i < old(entities)@.len() ==> (#[trigger] old(entities)@[i]).wf(),
            forall|i: int| idx <= i < n ==> entities@[i] == old(entities)@[i],
            forall|i: int|
                0 <= i < idx ==> entities@[i] == (SceneNode {
                    initial_transform: if (#[trigger] old(entities)@[i]).selected {
                        Some(old(entities)@[i].global_transform)
                    } else {
                        old(entities)@[i].initial_transform
                    },
                    ..old(entities)@[i]
                }),
            gizmos@ == old(gizmos)@,
        decreases n - idx,
    {
        let node = entities[idx];
        if node.selected {
            let mut updated = node;
            updated.initial_transform = Some(node.global_transform);
            entities.set(idx, updated);
        }
        idx = idx + 1;
    }
    let t = match target {
        Some(t) => t,
        None => { return Ok(()); },
    };
    if gizmos.len() != 1 {
        return Err(GizmoError::GizmoCount { found: gizmos.len() });
    }
    let mut b = gizmos[0];
    b.gizmo.initial_transform = Some(b.global_transform);
    b.gizmo.current_interaction = Some(t);
    b.gizmo.drag_start = None;
    gizmos.set(0, b);
    Ok(())
}

/// End a drag session. Ending is unconditional: every entity's snapshot
/// is dropped and the gizmo's whole transient state — interaction,
/// anchor, initial transform — is cleared, however far the drag had
/// progressed and however its target resolved, so a cancelled drag can
/// never leave a stale session behind for a later stray sample to act
/// on. Where a session was in fact active, the completed manipulation
/// is reported: the gizmo's world transform when the session began and
/// now.
pub fn on_drag_end(
    entities: &mut Vec<SceneNode>,
    gizmos: &mut Vec<TransformGizmoBundle>,
) -> (r: Result<Option<TransformGizmoEvent>, GizmoError>)
    requires
        forall|i: int| 0 <= i < old(entities)@.len() ==> (#[trigger] old(entities)@[i]).wf(),
        forall|i: int| 0 <= i < old(gizmos)@.len() ==> (#[trigger] old(gizmos)@[i]).wf(),
    ensures
        final(entities)@.len() == old(entities)@.len(),
        forall|i: int|
            0 <= i < old(entities)@.len() ==> final(entities)@[i] == (SceneNode {
                initial_transform: None,
                ..(#[trigger] old(entities)@[i])
            }),
        final(gizmos)@.len() == old(gizmos)@.len(),
        r is Ok <==> old(gizmos)@.len() == 1,
        old(gizmos)@.len() != 1 ==> r == Err::<
            Option<TransformGizmoEvent>,
            GizmoError,
        >(GizmoError::GizmoCount { found: old(gizmos).len() }) && final(gizmos)@ == old(gizmos)@,
        old(gizmos)@.len() == 1 ==> {
            let b0 = old(gizmos)@[0];
            &&& final(gizmos)@[0] == (TransformGizmoBundle {
                gizmo: TransformGizmo {
                    current_interaction: None,
                    drag_start: None,
                    initial_transform: None,
                },
                ..b0
            })
            &&& r == Ok::<Option<TransformGizmoEvent>, GizmoError>(
                match (b0.gizmo.initial_transform, b0.gizmo.current_interaction) {
                    (Some(from), Some(i)) => Some(
                        TransformGizmoEvent { from, to: b0.global_transform, interaction: i },
                    ),
                    _ => None,
                },
            )
        },
{
    let n = entities.len();
    let mut idx: usize = 0;
    while idx < n
        invariant
            0 <= idx <= n,
            n == entities@.len(),
            entities@.len() == old(entities)@.len(),
            forall|i: int| 0 <= i < old(entities)@.len() ==> (#[trigger] old(entities)@[i]).wf(),
            forall|i: int| idx <= i < n ==> entities@[i] == old(entities)@[i],
            forall|i: int|
                0 <= i < idx ==> entities@[i] == (SceneNode {
                    initial_transform: None,
                    ..(#[trigger] old(entities)@[i])
                }),
            gizmos@ == old(gizmos)@,
        decreases n - idx,
    {
        let node = entities[idx];
        let mut updated = node;
        updated.initial_transform = None;
        entities.set(idx, updated);
        idx = idx + 1;
    }
    if gizmos.len() != 1 {
        return Err(GizmoError::GizmoCount { found: gizmos.len() });
    }
    let mut b = gizmos[0];
    let event = match (b.gizmo.initial_transform, b.gizmo.current_interaction) {
        (Some(from), Some(i)) => Some(
            TransformGizmoEvent { from, to: b.global_transform, interaction: i },
        ),
        _ => None,
    };
    b.gizmo.initial_transform = None;
    b.gizmo.drag_start = None;
    b.gizmo.current_interaction = None;
    gizmos.set(0, b);
    Ok(event)
}

} // verus!
