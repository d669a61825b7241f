use vstd::prelude::*;

use crate::gizmo::{GizmoError, GizmoHandle, Normalize3d, TransformGizmoInteraction};
use crate::quat::{
    fq_mul, fq_mul_fits, fq_nonzero, fq_rotate, fq_rotate_fits, Frac4, Quat,
};
use crate::rat::{
    div_fits, fits, frac_div, frac_from_int, frac_lt, frac_mul, mul_fits, Frac, Rat,
};
use crate::scene::Ray;
use crate::transform::Transform;
use crate::vec3::{fv_unit_z, fv_zero, Vec3};

verus! {

/// The host camera's render settings, as far as the mirror cares: the
/// draw order, and the rest as an opaque token copied whole.
#[derive(Clone, Copy, Debug, PartialEq, Eq, Structural)]
pub struct Camera {
    pub order: i64,
    pub settings: u64,
}

/// A camera together with its world transform and its (opaque)
/// projection.
#[derive(Clone, Copy, Debug)]
pub struct CameraState {
    pub camera: Camera,
    pub global_transform: Transform,
    pub projection: u64,
}

impl CameraState {
    pub open spec fn wf(self) -> bool {
        self.global_transform.wf()
    }
}

/// Which parts of the main camera changed since the mirror last ran.
#[derive(Clone, Copy, Debug, PartialEq, Eq, Structural)]
pub struct CameraChanges {
    pub camera: bool,
    pub transform: bool,
    pub projection: bool,
}

/// Mirror the single main camera onto the gizmo's dedicated render
/// camera: each changed part is copied, and the mirror draws after the
/// main camera by a fixed order offset, so the widget renders on top.
/// The main camera must exist exactly once.
pub fn gizmo_cam_copy_settings(
    main_cams: &Vec<CameraState>,
    changes: &CameraChanges,
    gizmo_cam: &mut CameraState,
) -> (r: Result<(), GizmoError>)
    requires
        forall|i: int| 0 <= i < main_cams@.len() ==> (#[trigger] main_cams@[i]).wf(),
        old(gizmo_cam).wf(),
    ensures
        final(gizmo_cam).wf(),
        r is Ok <==> main_cams@.len() == 1 && (changes.camera ==> main_cams@[0].camera.order
            <= i64::MAX - 10),
        main_cams@.len() != 1 ==> r == Err::<(), GizmoError>(
            GizmoError::CameraCount { found: main_cams.len() },
        ) && *final(gizmo_cam) == *old(gizmo_cam),
        main_cams@.len() == 1 && changes.camera && main_cams@[0].camera.order > i64::MAX - 10
            ==> r == Err::<(), GizmoError>(GizmoError::NumericRange) && *final(gizmo_cam) == *old(
            gizmo_cam,
        ),
        main_cams@.len() == 1 && (changes.camera ==> main_cams@[0].camera.order <= i64::MAX - 10)
            ==> {
            let main = main_cams@[0];
            *final(gizmo_cam) == (CameraState {
                camera: if changes.camera {
                    Camera {
                        order: (main.camera.order + 10) as i64,
                        settings: main.camera.settings,
                    }
                } else {
                    old(gizmo_cam).camera
                },
                global_transform: if changes.transform {
                    main.global_transform
                } else {
                    old(gizmo_cam).global_transform
                },
                projection: if changes.projection {
                    main.projection
                } else {
                    old(gizmo_cam).projection
                },
            })
        },
{
    if main_cams.len() != 1 {
        return Err(GizmoError::CameraCount { found: main_cams.len() });
    }
    let main = main_cams[0];
    if changes.camera && main.camera.order > i64::MAX - 10 {
        return Err(GizmoError::NumericRange);
    }
    if changes.transform {
        gizmo_cam.global_transform = main.global_transform;
    }
    if changes.camera {
        gizmo_cam.camera = Camera { order: main.camera.order + 10, settings: main.camera.settings };
    }
    if changes.projection {
        gizmo_cam.projection = main.projection;
    }
    Ok(())
}

/// How many handles carry the view-translate marker.
pub open spec fn vt_count(s: Seq<GizmoHandle>) -> int
    decreases s.len(),
{
    if s.len() == 0 {
        0
    } else {
        vt_count(s.drop_last()) + if s.last().view_translate_gizmo {
            1int
        } else {
            0int
        }
    }
}

/// The fixed turn that carries the camera's frame onto the view
/// handle's: the half turn about the diagonal between the up and view
/// directions.
pub open spec fn view_basis_quat() -> Frac4 {
    Frac4 {
        w: frac_from_int(0),
        x: frac_from_int(0),
        y: frac_from_int(1),
        z: frac_from_int(1),
    }
}

pub open spec fn view_adjust_fits(cr: Frac4) -> bool {
    fq_rotate_fits(cr, fv_unit_z()) && fq_mul_fits(cr, view_basis_quat())
}

/// The outcome for the single view-facing handle: its drag plane's
/// normal becomes the camera's view direction, and its orientation
/// follows the camera, so dragging it always moves in screen space.
pub open spec fn view_adjusted(h: GizmoHandle, hn: GizmoHandle, cr: Frac4) -> bool {
    if view_adjust_fits(cr) {
        &&& (hn.interaction matches TransformGizmoInteraction::TranslatePlane {
            original,
            normal,
        } && original@ == fv_zero() && normal@ == fq_rotate(cr, fv_unit_z()) && normal.wf())
        &&& hn.global_transform.translation == h.global_transform.translation
        &&& hn.global_transform.scale == h.global_transform.scale
        &&& hn.global_transform.rotation@ == fq_mul(cr, view_basis_quat())
        &&& hn.transform == h.transform
        &&& hn.visibility == h.visibility
        &&& hn.rotation_gizmo == h.rotation_gizmo
        &&& hn.view_translate_gizmo == h.view_translate_gizmo
        &&& hn.wf()
    } else {
        hn == h
    }
}

/// Re-aim the single view-facing free-move handle at the single active
/// camera. With no unique handle or no unique camera the frame is
/// skipped silently, as a transient condition.
pub fn adjust_view_translate_gizmo(handles: &mut Vec<GizmoHandle>, cameras: &Vec<Transform>)
    requires
        forall|i: int| 0 <= i < old(handles)@.len() ==> (#[trigger] old(handles)@[i]).wf(),
        forall|i: int|
            0 <= i < cameras@.len() ==> (#[trigger] cameras@[i]).wf() && fq_nonzero(
                cameras@[i]@.rotation,
            ),
    ensures
        final(handles)@.len() == old(handles)@.len(),
        vt_count(old(handles)@) != 1 || cameras@.len() != 1 ==> final(handles)@ == old(handles)@,
        vt_count(old(handles)@) == 1 && cameras@.len() == 1 ==> forall|i: int|
            0 <= i < old(handles)@.len() ==> {
                let h = #[trigger] old(handles)@[i];
                let hn = final(handles)@[i];
                &&& (!h.view_translate_gizmo ==> hn == h)
                &&& (h.view_translate_gizmo ==> view_adjusted(h, hn, cameras@[0]@.rotation))
            },
{
    let n = handles.len();
    let mut count: usize = 0;
    let mut idx: usize = 0;
    while idx < n
        invariant
            0 <= idx <= n,
            n == handles@.len(),
            count as int == vt_count(handles@.take(idx as int)),
            count <= idx,
        decreases n - idx,
    {
        proof {
            assert(handles@.take(idx as int + 1).drop_last() =~= handles@.take(idx as int));
            assert(handles@.take(idx as int + 1).last() == handles@[idx as int]);
        }
        if handles[idx].view_translate_gizmo {
            count = count + 1;
        }
        idx = idx + 1;
    }
    proof {
        assert(handles@.take(n as int) =~= handles@);
    }
    if count != 1 || cameras.len() != 1 {
        return ;
    }
    let cam_rotation = cameras[0].rotation;
    let turn = Quat {
        w: Rat::zero(),
        x: Rat::zero(),
        y: Rat::one(),
        z: Rat::one(),
    };
    let mut j: usize = 0;
    while j < n
        invariant
            0 <= j <= n,
            n == handles@.len(),
            handles@.len() == old(handles)@.len(),
            forall|i: int| 0 <= i < old(handles)@.len() ==> (#[trigger] old(handles)@[i]).wf(),
            cameras@.len() == 1,
            cam_rotation == cameras@[0].rotation,
            cameras@[0].wf() && fq_nonzero(cameras@[0]@.rotation),
            turn@ == view_basis_quat(),
            forall|i: int| j <= i < n ==> handles@[i] == old(handles)@[i],
            forall|i: int|
                0 <= i < j ==> {
                    let h = #[trigger] old(handles)@[i];
                    let hn = handles@[i];
                    &&& (!h.view_translate_gizmo ==> hn == h)
                    &&& (h.view_translate_gizmo ==> view_adjusted(h, hn, cameras@[0]@.rotation))
                },
        decreases n - j,
    {
        let h = handles[j];
        if h.view_translate_gizmo {
            let dir = match cam_rotation.rotate(Vec3::from_i64(0, 0, 1)) {
                Some(v) => v,
                None => {
                    j = j + 1;
                    continue ;
                },
            };
            let newrot = match crate::quat::quat_mul_raw(cam_rotation, turn) {
                Some(v) => v,
                None => {
                    j = j + 1;
                    continue ;
                },
            };
            let mut hn = h;
            hn.interaction = TransformGizmoInteraction::TranslatePlane {
                original: Vec3::zero(),
                normal: dir,
            };
            hn.global_transform.rotation = newrot;
            handles.set(j, hn);
        }
        j = j + 1;
    }
}

/// The world-space scale that keeps a unit-size widget's apparent size
/// on screen within the configured band: `k` is the apparent pixel size
/// of a unit object at unit distance, `d` the distance from the camera.
/// Below the band the widget is enlarged onto the lower bound, above it
/// shrunk onto the upper bound, otherwise it keeps its natural size.
pub open spec fn normalized_scale_spec(k: Frac, d: Frac, min: Frac, max: Frac) -> Frac {
    let apparent = frac_div(k, d);
    if frac_lt(apparent, min) {
        frac_div(frac_mul(min, d), k)
    } else if frac_lt(max, apparent) {
        frac_div(frac_mul(max, d), k)
    } else {
        frac_from_int(1)
    }
}

pub open spec fn normalized_scale_fits(k: Frac, d: Frac, min: Frac, max: Frac) -> bool {
    let apparent = frac_div(k, d);
    &&& div_fits(k, d)
    &&& fits(apparent.n * min.d)
    &&& fits(min.n * apparent.d)
    &&& if frac_lt(apparent, min) {
        mul_fits(min, d) && div_fits(frac_mul(min, d), k)
    } else {
        &&& fits(max.n * apparent.d)
        &&& fits(apparent.n * max.d)
        &&& if frac_lt(max, apparent) {
            mul_fits(max, d) && div_fits(frac_mul(max, d), k)
        } else {
            true
        }
    }
}

/// Compute the screen-space normalization scale factor.
pub fn normalized_scale(k: Rat, d: Rat, bounds: &Normalize3d) -> (r: Result<Rat, GizmoError>)
    requires
        k.wf(),
        d.wf(),
        k@.n > 0,
        d@.n > 0,
        bounds.wf(),
    ensures
        r is Ok <==> normalized_scale_fits(k@, d@, bounds.min_pixel_size@, bounds.max_pixel_size@),
        r matches Ok(s) ==> s.wf() && s@ == normalized_scale_spec(
            k@,
            d@,
            bounds.min_pixel_size@,
            bounds.max_pixel_size@,
        ),
{
    let apparent = match k.div(d) {
        Some(v) => v,
        None => { return Err(GizmoError::NumericRange); },
    };
    let below = match apparent.lt_val(&bounds.min_pixel_size) {
        Some(v) => v,
        None => { return Err(GizmoError::NumericRange); },
    };
    if below {
        let num = match bounds.min_pixel_size.mul(d) {
            Some(v) => v,
            None => { return Err(GizmoError::NumericRange); },
        };
        let s = match num.div(k) {
            Some(v) => v,
            None => { return Err(GizmoError::NumericRange); },
        };
        return Ok(s);
    }
    let above = match bounds.max_pixel_size.lt_val(&apparent) {
        Some(v) => v,
        None => { return Err(GizmoError::NumericRange); },
    };
    if above {
        let num = match bounds.max_pixel_size.mul(d) {
            Some(v) => v,
            None => { return Err(GizmoError::NumericRange); },
        };
        let s = match num.div(k) {
            Some(v) => v,
            None => { return Err(GizmoError::NumericRange); },
        };
        return Ok(s);
    }
    Ok(Rat::one())
}

/// Keep the pick source on the freshest cursor ray: the last cursor
/// event of the frame wins, and with no event the previous ray stays.
pub fn update_gizmo_raycast_with_cursor(cursor: &Vec<Ray>, pick_source: &mut Option<Ray>)
    requires
        forall|i: int| 0 <= i < cursor@.len() ==> (#[trigger] cursor@[i]).wf(),
        (*old(pick_source) matches Some(r) ==> r.wf()),
    ensures
        cursor@.len() > 0 ==> *final(pick_source) == Some(cursor@.last()),
        cursor@.len() == 0 ==> *final(pick_source) == *old(pick_source),
        (*final(pick_source) matches Some(r) ==> r.wf()),
{
    if cursor.len() > 0 {
        *pick_source = Some(cursor[cursor.len() - 1]);
    }
}

} // verus!
