use vstd::prelude::*;

use crate::gizmo::{
    GizmoHandle, TransformGizmoBundle, TransformGizmoInteraction, Visibility,
};
use crate::quat::Quat;
use crate::rat::Rat;
use crate::transform::Transform;
use crate::vec3::{fv_unit_x, fv_unit_y, fv_unit_z, fv_zero, Frac3, Vec3};

verus! {

/// A translate-axis handle along the given original direction.
pub open spec fn is_translate_axis(h: GizmoHandle, dir: Frac3) -> bool {
    h.interaction matches TransformGizmoInteraction::TranslateAxis { original, axis }
        && original@ == dir && axis@ == dir && !h.rotation_gizmo && !h.view_translate_gizmo
}

/// A translate-plane handle with the given original normal.
pub open spec fn is_translate_plane(h: GizmoHandle, dir: Frac3) -> bool {
    h.interaction matches TransformGizmoInteraction::TranslatePlane { original, normal }
        && original@ == dir && normal@ == dir && !h.rotation_gizmo && !h.view_translate_gizmo
}

/// A rotation-arc handle about the given original axis.
pub open spec fn is_rotate_axis(h: GizmoHandle, dir: Frac3) -> bool {
    h.interaction matches TransformGizmoInteraction::RotateAxis { original, axis }
        && original@ == dir && axis@ == dir && h.rotation_gizmo && !h.view_translate_gizmo
}

/// The view-facing free-move handle.
pub open spec fn is_view_translate(h: GizmoHandle) -> bool {
    h.interaction matches TransformGizmoInteraction::TranslatePlane { original, normal }
        && original@ == fv_zero() && normal@ == fv_unit_z() && !h.rotation_gizmo
        && h.view_translate_gizmo
}

/// One handle with the given parts, visible, placed relative to the
/// gizmo.
fn handle(
    interaction: TransformGizmoInteraction,
    transform: Transform,
    rotation_gizmo: bool,
    view_translate_gizmo: bool,
) -> (r: GizmoHandle)
    requires
        crate::gizmo::interaction_wf(interaction),
        transform.wf(),
    ensures
        r.interaction == interaction,
        r.transform == transform,
        r.global_transform@ == crate::transform::ft_identity(),
        r.visibility == Visibility::Inherited,
        r.rotation_gizmo == rotation_gizmo,
        r.view_translate_gizmo == view_translate_gizmo,
        r.wf(),
{
    GizmoHandle {
        interaction,
        transform,
        global_transform: Transform::identity(),
        visibility: Visibility::Inherited,
        rotation_gizmo,
        view_translate_gizmo,
    }
}

/// A handle transform from a quarter- (or zero-) turn rotation and a
/// translation: the only placements the widget's parts need.
fn placed(rotation: Quat, x: i64, xd: i64, y: i64, yd: i64, z: i64, zd: i64) -> (r: Transform)
    requires
        rotation.wf(),
        xd > 0,
        yd > 0,
        zd > 0,
    ensures
        r.wf(),
        r.rotation == rotation,
        r.scale@ == crate::vec3::fv_one(),
    {
    Transform {
        translation: Vec3 { x: Rat::new(x, xd), y: Rat::new(y, yd), z: Rat::new(z, zd) },
        rotation,
        scale: Vec3::one(),
    }
}

/// Build the gizmo entity and its thirteen handles: two arrow parts per
/// translation axis, a translation plane per axis, the view-facing
/// sphere, and a rotation arc per axis, each placed in the gizmo's own
/// frame. Quarter turns are exact as homogeneous quaternions, so the
/// layout carries no rounding. The procedural meshes and materials that
/// make the handles visible, and the dedicated render camera, are the
/// host's rendering concern.
pub fn build_gizmo() -> (r: (TransformGizmoBundle, Vec<GizmoHandle>))
    ensures
        r.0.wf(),
        r.0.gizmo.current_interaction is None,
        r.0.gizmo.drag_start is None,
        r.0.gizmo.initial_transform is None,
        r.0.visible == Visibility::Hidden,
        r.1@.len() == 13,
        forall|i: int| 0 <= i < r.1@.len() ==> (#[trigger] r.1@[i]).wf(),
        is_translate_axis(r.1@[0], fv_unit_x()),
        is_translate_axis(r.1@[1], fv_unit_y()),
        is_translate_axis(r.1@[2], fv_unit_z()),
        is_translate_axis(r.1@[3], fv_unit_x()),
        is_translate_plane(r.1@[4], fv_unit_x()),
        is_translate_axis(r.1@[5], fv_unit_y()),
        is_translate_plane(r.1@[6], fv_unit_y()),
        is_translate_axis(r.1@[7], fv_unit_z()),
        is_translate_plane(r.1@[8], fv_unit_z()),
        is_view_translate(r.1@[9]),
        is_rotate_axis(r.1@[10], fv_unit_x()),
        is_rotate_axis(r.1@[11], fv_unit_y()),
        is_rotate_axis(r.1@[12], fv_unit_z()),
{
    let x_axis = Vec3::from_i64(1, 0, 0);
    let y_axis = Vec3::from_i64(0, 1, 0);
    let z_axis = Vec3::from_i64(0, 0, 1);
    // Quarter turns about each axis, as homogeneous quaternions.
    let turn_z = Quat::from_wxyz(1, 0, 0, 1);
    let turn_z_back = Quat::from_wxyz(1, 0, 0, -1);
    let turn_y = Quat::from_wxyz(1, 0, 1, 0);
    let turn_x = Quat::from_wxyz(1, 1, 0, 0);
    // The quarter turn about Z composed with the quarter turn about X.
    let turn_zx = Quat::from_wxyz(1, 1, 1, 1);
    let tx = TransformGizmoInteraction::TranslateAxis { original: x_axis, axis: x_axis };
    let ty = TransformGizmoInteraction::TranslateAxis { original: y_axis, axis: y_axis };
    let tz = TransformGizmoInteraction::TranslateAxis { original: z_axis, axis: z_axis };
    let px = TransformGizmoInteraction::TranslatePlane { original: x_axis, normal: x_axis };
    let py = TransformGizmoInteraction::TranslatePlane { original: y_axis, normal: y_axis };
    let pz = TransformGizmoInteraction::TranslatePlane { original: z_axis, normal: z_axis };
    let pv = TransformGizmoInteraction::TranslatePlane {
        original: Vec3::zero(),
        normal: z_axis,
    };
    let rx = TransformGizmoInteraction::RotateAxis { original: x_axis, axis: x_axis };
    let ry = TransformGizmoInteraction::RotateAxis { original: y_axis, axis: y_axis };
    let rz = TransformGizmoInteraction::RotateAxis { original: z_axis, axis: z_axis };
    let mut handles: Vec<GizmoHandle> = Vec::new();
    // Arrow tails: the axis length is 13/10, so each tail sits halfway.
    handles.push(handle(tx, placed(turn_z, 13, 20, 0, 1, 0, 1), false, false));
    handles.push(handle(ty, placed(turn_y, 0, 1, 13, 20, 0, 1), false, false));
    handles.push(handle(tz, placed(turn_x, 0, 1, 0, 1, 13, 20), false, false));
    // Arrow heads at the axis tips, and the translation planes beside
    // them, offset by 91/400 on each in-plane direction.
    handles.push(handle(tx, placed(turn_z_back, 13, 10, 0, 1, 0, 1), false, false));
    handles.push(handle(px, placed(turn_z_back, 0, 1, 91, 400, 91, 400), false, false));
    handles.push(handle(ty, placed(Quat::identity(), 0, 1, 13, 10, 0, 1), false, false));
    handles.push(handle(py, placed(Quat::identity(), 91, 400, 0, 1, 91, 400), false, false));
    handles.push(handle(tz, placed(turn_x, 0, 1, 0, 1, 13, 10), false, false));
    handles.push(handle(pz, placed(turn_x, 91, 400, 91, 400, 0, 1), false, false));
    // The view-facing sphere at the center.
    handles.push(handle(pv, placed(Quat::identity(), 0, 1, 0, 1, 0, 1), false, true));
    // The rotation arcs.
    handles.push(handle(rx, placed(turn_z, 0, 1, 0, 1, 0, 1), true, false));
    handles.push(handle(ry, placed(Quat::identity(), 0, 1, 0, 1, 0, 1), true, false));
    handles.push(handle(rz, placed(turn_zx, 0, 1, 0, 1, 0, 1), true, false));
    (TransformGizmoBundle::default(), handles)
}

} // verus!
