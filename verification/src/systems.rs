use vstd::assert_by_contradiction;
use vstd::prelude::*;

use crate::gizmo::{
    GizmoError, GizmoHandle, TransformGizmoBundle, TransformGizmoInteraction,
    TransformGizmoSettings, Visibility,
};
use crate::quat::{fq_rotate, fq_rotate_fits, Frac4};
use crate::rat::{div_fits, frac_div, Frac, Rat};
use crate::scene::SceneNode;
use crate::transform::{ft_mul, ft_mul_fits, FracTransform};
use crate::vec3::{fv_add, fv_add_fits, fv_zero, Frac3, Vec3};

verus! {

/// How many of the nodes are selected.
pub open spec fn selected_count(s: Seq<SceneNode>) -> int
    decreases s.len(),
{
    if s.len() == 0 {
        0
    } else {
        selected_count(s.drop_last()) + if s.last().selected {
            1int
        } else {
            0int
        }
    }
}

/// The sum of the world translations of the selected nodes.
pub open spec fn selected_sum(s: Seq<SceneNode>) -> Frac3
    decreases s.len(),
{
    if s.len() == 0 {
        fv_zero()
    } else if s.last().selected {
        fv_add(selected_sum(s.drop_last()), s.last().global_transform@.translation)
    } else {
        selected_sum(s.drop_last())
    }
}

/// Exactly when every step of the running sum fits.
pub open spec fn selected_sum_fits(s: Seq<SceneNode>) -> bool
    decreases s.len(),
{
    if s.len() == 0 {
        true
    } else {
        selected_sum_fits(s.drop_last()) && (s.last().selected ==> fv_add_fits(
            selected_sum(s.drop_last()),
            s.last().global_transform@.translation,
        ))
    }
}

/// The arithmetic mean of the selected nodes' world translations.
/// Meaningful only when at least one node is selected.
pub open spec fn centroid(s: Seq<SceneNode>) -> Frac3 {
    let n = Frac { n: selected_count(s), d: 1 };
    Frac3 {
        x: frac_div(selected_sum(s).x, n),
        y: frac_div(selected_sum(s).y, n),
        z: frac_div(selected_sum(s).z, n),
    }
}

/// Exactly when the whole centroid computation fits.
pub open spec fn centroid_fits(s: Seq<SceneNode>) -> bool {
    let n = Frac { n: selected_count(s), d: 1 };
    selected_sum_fits(s) && div_fits(selected_sum(s).x, n) && div_fits(selected_sum(s).y, n)
        && div_fits(selected_sum(s).z, n)
}

/// A prefix never counts more selected nodes than the whole sequence,
/// and no count is negative.
proof fn lemma_count_prefix(s: Seq<SceneNode>, i: int)
    requires
        0 <= i <= s.len(),
    ensures
        0 <= selected_count(s.take(i)) <= selected_count(s),
    decreases s.len(),
{
    if i == s.len() {
        assert(s.take(i) =~= s);
        if s.len() > 0 {
            lemma_count_prefix(s.drop_last(), s.len() - 1);
            assert(s.drop_last().take(s.len() - 1) =~= s.drop_last());
        }
    } else {
        assert(s.take(i) =~= s.drop_last().take(i));
        lemma_count_prefix(s.drop_last(), i);
    }
}

/// If the whole running sum fits, so does every prefix of it.
proof fn lemma_sum_fits_prefix(s: Seq<SceneNode>, i: int)
    requires
        0 <= i <= s.len(),
        selected_sum_fits(s),
    ensures
        selected_sum_fits(s.take(i)),
    decreases s.len(),
{
    if i == s.len() {
        assert(s.take(i) =~= s);
    } else {
        assert(s.take(i) =~= s.drop_last().take(i));
        lemma_sum_fits_prefix(s.drop_last(), i);
    }
}

/// Place the gizmo for the frame: at the centroid of the selection,
/// oriented by the alignment rotation, visible exactly when something is
/// selected. With an empty selection the transform is left as it was, so
/// no division by zero can arise. The gizmo must exist exactly once;
/// otherwise the frame is skipped with an error.
pub fn place_gizmo(
    settings: &TransformGizmoSettings,
    entities: &Vec<SceneNode>,
    gizmos: &mut Vec<TransformGizmoBundle>,
) -> (r: Result<(), GizmoError>)
    requires
        settings.wf(),
        forall|i: int| 0 <= i < entities@.len() ==> (#[trigger] entities@[i]).wf(),
        forall|i: int| 0 <= i < old(gizmos)@.len() ==> (#[trigger] old(gizmos)@[i]).wf(),
    ensures
        final(gizmos)@.len() == old(gizmos)@.len(),
        r is Ok <==> old(gizmos)@.len() == 1 && (selected_count(entities@) == 0 || centroid_fits(
            entities@,
        )),
        old(gizmos)@.len() != 1 ==> r == Err::<(), GizmoError>(
            GizmoError::GizmoCount { found: old(gizmos).len() },
        ) && final(gizmos)@ == old(gizmos)@,
        old(gizmos)@.len() == 1 && selected_count(entities@) == 0 ==> final(gizmos)@[0]
            == (TransformGizmoBundle { visible: Visibility::Hidden, ..old(gizmos)@[0] }),
        old(gizmos)@.len() == 1 && selected_count(entities@) != 0 && centroid_fits(entities@) ==> {
            let g0 = old(gizmos)@[0];
            let g1 = final(gizmos)@[0];
            &&& g1.gizmo == g0.gizmo
            &&& g1.normalize == g0.normalize
            &&& g1.visible == Visibility::Inherited
            &&& g1.transform@ == (FracTransform {
                translation: centroid(entities@),
                rotation: settings.alignment_rotation@,
                scale: g0.transform@.scale,
            })
            &&& g1.global_transform@ == (FracTransform {
                translation: centroid(entities@),
                rotation: settings.alignment_rotation@,
                scale: g0.global_transform@.scale,
            })
            &&& g1.wf()
        },
        old(gizmos)@.len() == 1 && selected_count(entities@) != 0 && !centroid_fits(entities@)
            ==> r == Err::<(), GizmoError>(GizmoError::NumericRange) && final(gizmos)@ == old(
            gizmos,
        )@,
{
    let ghost all = entities@;
    if gizmos.len() != 1 {
        return Err(GizmoError::GizmoCount { found: gizmos.len() });
    }
    let n = entities.len();
    let mut sum = Vec3::zero();
    let mut count: usize = 0;
    let mut idx: usize = 0;
    while idx < n
        invariant
            0 <= idx <= n,
            n == all.len(),
            all == entities@,
            forall|i: int| 0 <= i < all.len() ==> (#[trigger] all[i]).wf(),
            sum.wf(),
            sum@ == selected_sum(all.take(idx as int)),
            selected_sum_fits(all.take(idx as int)),
            count as int == selected_count(all.take(idx as int)),
            count <= idx,
            gizmos@ == old(gizmos)@,
            gizmos@.len() == 1,
        decreases n - idx,
    {
        let node = &entities[idx];
        proof {
            assert(all.take(idx as int + 1).drop_last() =~= all.take(idx as int));
            assert(all.take(idx as int + 1).last() == all[idx as int]);
        }
        if node.selected {
            sum = match sum.add(node.global_transform.translation) {
                Some(v) => v,
                None => {
                    proof {
                        assert_by_contradiction!(!selected_sum_fits(all), {
                            lemma_sum_fits_prefix(all, idx as int + 1);
                        });
                        lemma_count_prefix(all, idx as int + 1);
                        assert(selected_count(all.take(idx as int + 1)) == selected_count(
                            all.take(idx as int),
                        ) + 1);
                    }
                    return Err(GizmoError::NumericRange);
                },
            };
            count = count + 1;
        }
        idx = idx + 1;
    }
    proof {
        assert(all.take(n as int) =~= all);
    }
    if count == 0 {
        let mut b = gizmos[0];
        b.visible = Visibility::Hidden;
        gizmos.set(0, b);
        return Ok(());
    }
    let divisor = Rat { num: count as i128, den: 1 };
    let cx = match sum.x.div(divisor) {
        Some(v) => v,
        None => { return Err(GizmoError::NumericRange); },
    };
    let cy = match sum.y.div(divisor) {
        Some(v) => v,
        None => { return Err(GizmoError::NumericRange); },
    };
    let cz = match sum.z.div(divisor) {
        Some(v) => v,
        None => { return Err(GizmoError::NumericRange); },
    };
    let center = Vec3 { x: cx, y: cy, z: cz };
    let mut b = gizmos[0];
    b.transform.translation = center;
    b.transform.rotation = settings.alignment_rotation;
    b.global_transform.translation = center;
    b.global_transform.rotation = settings.alignment_rotation;
    b.visible = Visibility::Inherited;
    gizmos.set(0, b);
    Ok(())
}

/// Push the gizmo's freshly placed world transform down to its handles,
/// bypassing the host scene graph so the handles follow this frame's
/// placement rather than the previous frame's cached one. A handle whose
/// composition leaves the representable range keeps its old world
/// transform for the frame.
pub fn propagate_gizmo_elements(
    gizmos: &Vec<TransformGizmoBundle>,
    handles: &mut Vec<GizmoHandle>,
)
    requires
        forall|i: int| 0 <= i < gizmos@.len() ==> (#[trigger] gizmos@[i]).wf(),
        forall|i: int| 0 <= i < old(handles)@.len() ==> (#[trigger] old(handles)@[i]).wf(),
    ensures
        final(handles)@.len() == old(handles)@.len(),
        gizmos@.len() != 1 ==> final(handles)@ == old(handles)@,
        gizmos@.len() == 1 ==> forall|i: int|
            0 <= i < old(handles)@.len() ==> {
                let h = #[trigger] old(handles)@[i];
                let hn = final(handles)@[i];
                let g = gizmos@[0].global_transform;
                &&& hn.interaction == h.interaction
                &&& hn.transform == h.transform
                &&& hn.visibility == h.visibility
                &&& hn.rotation_gizmo == h.rotation_gizmo
                &&& hn.view_translate_gizmo == h.view_translate_gizmo
                &&& (ft_mul_fits(g@, h.transform@) ==> hn.global_transform@ == ft_mul(
                    g@,
                    h.transform@,
                ) && hn.wf())
                &&& (!ft_mul_fits(g@, h.transform@) ==> hn.global_transform
                    == h.global_transform)
            },
{
    if gizmos.len() != 1 {
        return ;
    }
    let g = gizmos[0].global_transform;
    let n = handles.len();
    let mut idx: usize = 0;
    while idx < n
        invariant
            0 <= idx <= n,
            n == handles@.len(),
            handles@.len() == old(handles)@.len(),
            gizmos@.len() == 1,
            g == gizmos@[0].global_transform,
            gizmos@[0].wf(),
            forall|i: int| 0 <= i < old(handles)@.len() ==> (#[trigger] old(handles)@[i]).wf(),
            forall|i: int| idx <= i < n ==> handles@[i] == old(handles)@[i],
            forall|i: int|
                0 <= i < idx ==> {
                    let h = #[trigger] old(handles)@[i];
                    let hn = handles@[i];
                    &&& hn.interaction == h.interaction
                    &&& hn.transform == h.transform
                    &&& hn.visibility == h.visibility
                    &&& hn.rotation_gizmo == h.rotation_gizmo
                    &&& hn.view_translate_gizmo == h.view_translate_gizmo
                    &&& (ft_mul_fits(g@, h.transform@) ==> hn.global_transform@ == ft_mul(
                        g@,
                        h.transform@,
                    ) && hn.wf())
                    &&& (!ft_mul_fits(g@, h.transform@) ==> hn.global_transform
                        == h.global_transform)
                },
        decreases n - idx,
    {
        let h = handles[idx];
        match g.mul_transform(h.transform) {
            Some(world) => {
                let mut hn = h;
                hn.global_transform = world;
                handles.set(idx, hn);
            },
            None => {},
        }
        idx = idx + 1;
    }
}

/// The relation between a handle's interaction before and after the
/// alignment rotation `q` is repropagated: the variant and the original
/// axis are kept, and the working axis or normal becomes the rotation of
/// the original — unless that rotation leaves the representable range,
/// in which case the interaction is kept for the frame.
pub open spec fn retargeted(
    before: TransformGizmoInteraction,
    after: TransformGizmoInteraction,
    q: Frac4,
) -> bool {
    match (before, after) {
        (
            TransformGizmoInteraction::TranslateAxis { original: o, axis: a },
            TransformGizmoInteraction::TranslateAxis { original: o2, axis: a2 },
        ) => o2 == o && if fq_rotate_fits(q, o@) {
            a2@ == fq_rotate(q, o@)
        } else {
            a2 == a
        },
        (
            TransformGizmoInteraction::TranslatePlane { original: o, normal: m },
            TransformGizmoInteraction::TranslatePlane { original: o2, normal: m2 },
        ) => o2 == o && if fq_rotate_fits(q, o@) {
            m2@ == fq_rotate(q, o@)
        } else {
            m2 == m
        },
        (
            TransformGizmoInteraction::RotateAxis { original: o, axis: a },
            TransformGizmoInteraction::RotateAxis { original: o2, axis: a2 },
        ) => o2 == o && if fq_rotate_fits(q, o@) {
            a2@ == fq_rotate(q, o@)
        } else {
            a2 == a
        },
        (
            TransformGizmoInteraction::ScaleAxis { original: o, axis: a },
            TransformGizmoInteraction::ScaleAxis { original: o2, axis: a2 },
        ) => o2 == o && if fq_rotate_fits(q, o@) {
            a2@ == fq_rotate(q, o@)
        } else {
            a2 == a
        },
        _ => false,
    }
}

/// Repropagate the settings to every handle: each working axis or plane
/// normal becomes the alignment rotation applied to its immutable
/// original, and the rotation arcs are shown or hidden per
/// `allow_rotation`. The view-facing handle's interaction is owned by
/// the view updater and is left alone. Run this once per settings
/// change, not every frame.
pub fn update_gizmo_settings(
    settings: &TransformGizmoSettings,
    handles: &mut Vec<GizmoHandle>,
)
    requires
        settings.wf(),
        forall|i: int| 0 <= i < old(handles)@.len() ==> (#[trigger] old(handles)@[i]).wf(),
    ensures
        final(handles)@.len() == old(handles)@.len(),
        forall|i: int|
            0 <= i < old(handles)@.len() ==> {
                let h = #[trigger] old(handles)@[i];
                let hn = final(handles)@[i];
                &&& hn.transform == h.transform
                &&& hn.global_transform == h.global_transform
                &&& hn.rotation_gizmo == h.rotation_gizmo
                &&& hn.view_translate_gizmo == h.view_translate_gizmo
                &&& (h.view_translate_gizmo ==> hn.interaction == h.interaction)
                &&& (!h.view_translate_gizmo ==> retargeted(
                    h.interaction,
                    hn.interaction,
                    settings.alignment_rotation@,
                ))
                &&& hn.visibility == if h.rotation_gizmo {
                    if settings.allow_rotation {
                        Visibility::Inherited
                    } else {
                        Visibility::Hidden
                    }
                } else {
                    h.visibility
                }
                &&& hn.wf()
            },
{
    let n = handles.len();
    let mut idx: usize = 0;
    while idx < n
        invariant
            0 <= idx <= n,
            n == handles@.len(),
            handles@.len() == old(handles)@.len(),
            settings.wf(),
            forall|i: int| 0 <= i < old(handles)@.len() ==> (#[trigger] old(handles)@[i]).wf(),
            forall|i: int| idx <= i < n ==> handles@[i] == old(handles)@[i],
            forall|i: int|
                0 <= i < idx ==> {
                    let h = #[trigger] old(handles)@[i];
                    let hn = handles@[i];
                    &&& hn.transform == h.transform
                    &&& hn.global_transform == h.global_transform
                    &&& hn.rotation_gizmo == h.rotation_gizmo
                    &&& hn.view_translate_gizmo == h.view_translate_gizmo
                    &&& (h.view_translate_gizmo ==> hn.interaction == h.interaction)
                    &&& (!h.view_translate_gizmo ==> retargeted(
                        h.interaction,
                        hn.interaction,
                        settings.alignment_rotation@,
                    ))
                    &&& hn.visibility == if h.rotation_gizmo {
                        if settings.allow_rotation {
                            Visibility::Inherited
                        } else {
                            Visibility::Hidden
                        }
                    } else {
                        h.visibility
                    }
                    &&& hn.wf()
                },
        decreases n - idx,
    {
        let h = handles[idx];
        let mut hn = h;
        if !h.view_translate_gizmo {
            hn.interaction = retarget_interaction(&h.interaction, &settings.alignment_rotation);
        }
        if h.rotation_gizmo {
            hn.visibility = if settings.allow_rotation {
                Visibility::Inherited
            } else {
                Visibility::Hidden
            };
        }
        handles.set(idx, hn);
        idx = idx + 1;
    }
}

/// One handle's interaction with its working direction recomputed from
/// the original.
fn retarget_interaction(
    i: &TransformGizmoInteraction,
    rotation: &crate::quat::Quat,
) -> (r: TransformGizmoInteraction)
    requires
        crate::gizmo::interaction_wf(*i),
        rotation.wf(),
    ensures
        retargeted(*i, r, rotation@),
        crate::gizmo::interaction_wf(r),
{
    match *i {
        TransformGizmoInteraction::TranslateAxis { original, axis } => {
            match rotation.rotate(original) {
                Some(v) => TransformGizmoInteraction::TranslateAxis { original, axis: v },
                None => TransformGizmoInteraction::TranslateAxis { original, axis },
            }
        },
        TransformGizmoInteraction::TranslatePlane { original, normal } => {
            match rotation.rotate(original) {
                Some(v) => TransformGizmoInteraction::TranslatePlane { original, normal: v },
                None => TransformGizmoInteraction::TranslatePlane { original, normal },
            }
        },
        TransformGizmoInteraction::RotateAxis { original, axis } => {
            match rotation.rotate(original) {
                Some(v) => TransformGizmoInteraction::RotateAxis { original, axis: v },
                None => TransformGizmoInteraction::RotateAxis { original, axis },
            }
        },
        TransformGizmoInteraction::ScaleAxis { original, axis } => {
            match rotation.rotate(original) {
                Some(v) => TransformGizmoInteraction::ScaleAxis { original, axis: v },
                None => TransformGizmoInteraction::ScaleAxis { original, axis },
            }
        },
    }
}

} // verus!
