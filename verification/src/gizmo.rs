use vstd::prelude::*;

use crate::quat::{fq_identity, fq_nonzero, Quat};
use crate::rat::Rat;
use crate::transform::Transform;
use crate::vec3::Vec3;

verus! {

/// Whether the gizmo systems run at all; the host application can toggle
/// this as a whole.
#[derive(Clone, Copy, Debug, PartialEq, Eq, Structural)]
pub struct GizmoSystemsEnabled(pub bool);

/// Labels for the steps of the per-frame pipeline, in the order the host
/// schedule runs them.
#[derive(Clone, Copy, Debug, PartialEq, Eq, Hash, Structural)]
pub enum TransformGizmoSystem {
    InputsSet,
    MainSet,
    RaycastSet,
    NormalizeSet,
    UpdateSettings,
    AdjustViewTranslateGizmo,
    Place,
    Hover,
    Grab,
    Drag,
}

/// Marks an entity as manipulable by the gizmo.
#[derive(Clone, Copy, Debug, Default, PartialEq, Eq, Structural)]
pub struct GizmoTransformable;

/// Marks the dedicated render camera that mirrors the main camera.
#[derive(Clone, Copy, Debug, Default, PartialEq, Eq, Structural)]
pub struct InternalGizmoCamera;

/// Marks a handle that belongs to the rotation set.
#[derive(Clone, Copy, Debug, Default, PartialEq, Eq, Structural)]
pub struct RotationGizmo;

/// Marks the single view-facing free-move handle.
#[derive(Clone, Copy, Debug, Default, PartialEq, Eq, Structural)]
pub struct ViewTranslateGizmo;

/// Groups the picking systems that raycast against the gizmo's handles
/// separately from the scene's own picking.
#[derive(Clone, Copy, Debug, Default, PartialEq, Eq, Structural)]
pub struct GizmoPickingPlugin;

/// The raycast group of the gizmo's handles.
#[derive(Clone, Copy, Debug, Default, PartialEq, Eq, Structural)]
pub struct GizmoRaycastSet;

/// Visibility of a scene entity, as the host's scene graph understands
/// it: `Inherited` follows the parent, the other two force a state.
#[derive(Clone, Copy, Debug, PartialEq, Eq, Structural)]
pub enum Visibility {
    Inherited,
    Hidden,
    Visible,
}

/// The manipulation a handle performs. `original` is the axis or plane
/// normal in the gizmo's own frame, fixed at construction; the second
/// field is the world-space direction, recomputed whenever the global
/// alignment rotation changes.
#[derive(Clone, Copy, Debug, PartialEq, Eq, Structural)]
pub enum TransformGizmoInteraction {
    TranslateAxis { original: Vec3, axis: Vec3 },
    TranslatePlane { original: Vec3, normal: Vec3 },
    RotateAxis { original: Vec3, axis: Vec3 },
    ScaleAxis { original: Vec3, axis: Vec3 },
}

pub open spec fn interaction_wf(i: TransformGizmoInteraction) -> bool {
    match i {
        TransformGizmoInteraction::TranslateAxis { original, axis } => original.wf() && axis.wf(),
        TransformGizmoInteraction::TranslatePlane { original, normal } => original.wf()
            && normal.wf(),
        TransformGizmoInteraction::RotateAxis { original, axis } => original.wf() && axis.wf(),
        TransformGizmoInteraction::ScaleAxis { original, axis } => original.wf() && axis.wf(),
    }
}

/// Process-wide settings, owned by the host application.
#[derive(Clone, Copy, Debug)]
pub struct TransformGizmoSettings {
    pub enabled: bool,
    /// Rotation applied to the gizmo when it is placed, aligning it to a
    /// coordinate frame other than the world's.
    pub alignment_rotation: Quat,
    pub allow_rotation: bool,
    pub enable_shortcuts: bool,
}

impl TransformGizmoSettings {
    pub open spec fn wf(self) -> bool {
        self.alignment_rotation.wf()
    }
}

/// Construction-time configuration of the gizmo systems.
#[derive(Clone, Copy, Debug)]
pub struct TransformGizmoPlugin {
    pub alignment_rotation: Quat,
    pub enable_shortcuts: bool,
}

impl Default for TransformGizmoPlugin {
    /// Identity alignment, shortcuts enabled.
    fn default() -> (r: Self)
        ensures
            r.alignment_rotation@ == fq_identity(),
            r.enable_shortcuts,
    {
        TransformGizmoPlugin { alignment_rotation: Quat::identity(), enable_shortcuts: true }
    }
}

impl TransformGizmoPlugin {
    /// The settings this configuration installs at startup.
    pub fn settings(&self) -> (r: TransformGizmoSettings)
        requires
            self.alignment_rotation.wf(),
        ensures
            r.wf(),
            r.enabled,
            r.alignment_rotation == self.alignment_rotation,
            r.allow_rotation,
            r.enable_shortcuts == self.enable_shortcuts,
    {
        TransformGizmoSettings {
            enabled: true,
            alignment_rotation: self.alignment_rotation,
            allow_rotation: true,
            enable_shortcuts: self.enable_shortcuts,
        }
    }
}

/// The transient state of the gizmo itself: which handle is being
/// dragged, the anchor recorded on the first drag sample, and the
/// gizmo's own world transform at drag start. All three are `None`
/// outside a drag session.
#[derive(Clone, Copy, Debug)]
pub struct TransformGizmo {
    pub current_interaction: Option<TransformGizmoInteraction>,
    /// Anchor recorded on the first drag sample: for axis translation
    /// the projected point, for plane translation the plane hit, for
    /// rotation the unnormalized spoke from the gizmo origin. All later
    /// deltas are measured from this anchor, never from the previous
    /// frame, so no error accumulates across frames.
    pub drag_start: Option<Vec3>,
    /// The gizmo's world transform captured when the drag started.
    pub initial_transform: Option<Transform>,
}

impl TransformGizmo {
    pub open spec fn wf(self) -> bool {
        &&& (self.current_interaction matches Some(i) ==> interaction_wf(i))
        &&& (self.drag_start matches Some(v) ==> v.wf())
        &&& (self.initial_transform matches Some(t) ==> t.wf() && fq_nonzero(t@.rotation))
    }

    /// The interaction of the handle currently being dragged.
    pub fn current_interaction(&self) -> (r: Option<TransformGizmoInteraction>)
        ensures
            r == self.current_interaction,
    {
        self.current_interaction
    }
}

impl Default for TransformGizmo {
    /// No session: every transient field clear.
    fn default() -> (r: Self)
        ensures
            r.current_interaction is None,
            r.drag_start is None,
            r.initial_transform is None,
    {
        TransformGizmo { current_interaction: None, drag_start: None, initial_transform: None }
    }
}

/// The screen-space normalization bounds: the rendered widget is rescaled
/// so its apparent size stays between these pixel measures.
#[derive(Clone, Copy, Debug)]
pub struct Normalize3d {
    pub min_pixel_size: Rat,
    pub max_pixel_size: Rat,
}

impl Normalize3d {
    pub open spec fn wf(self) -> bool {
        self.min_pixel_size.wf() && self.max_pixel_size.wf()
    }

    pub fn new(min_pixel_size: Rat, max_pixel_size: Rat) -> (r: Normalize3d)
        requires
            min_pixel_size.wf(),
            max_pixel_size.wf(),
        ensures
            r.wf(),
            r.min_pixel_size == min_pixel_size,
            r.max_pixel_size == max_pixel_size,
    {
        Normalize3d { min_pixel_size, max_pixel_size }
    }
}

/// Everything the gizmo entity itself carries.
#[derive(Clone, Copy, Debug)]
pub struct TransformGizmoBundle {
    pub gizmo: TransformGizmo,
    pub transform: Transform,
    pub global_transform: Transform,
    pub visible: Visibility,
    pub normalize: Normalize3d,
}

impl TransformGizmoBundle {
    pub open spec fn wf(self) -> bool {
        &&& self.gizmo.wf()
        &&& self.transform.wf()
        &&& self.global_transform.wf()
        &&& fq_nonzero(self.global_transform@.rotation)
        &&& self.normalize.wf()
    }
}

impl Default for TransformGizmoBundle {
    /// A fresh gizmo: hidden, no session, parked far away from the
    /// origin so it cannot flash into view before first placement, with
    /// the reference normalization band.
    fn default() -> (r: Self)
        ensures
            r.wf(),
            r.gizmo.current_interaction is None,
            r.gizmo.drag_start is None,
            r.gizmo.initial_transform is None,
            r.visible == Visibility::Hidden,
            r.transform@.translation == (crate::vec3::Frac3 {
                x: crate::rat::frac_from_int(i64::MIN as int),
                y: crate::rat::frac_from_int(i64::MIN as int),
                z: crate::rat::frac_from_int(i64::MIN as int),
            }),
            r.normalize.min_pixel_size@.n * 2 == 3 * r.normalize.min_pixel_size@.d,
            r.normalize.max_pixel_size@ == crate::rat::frac_from_int(150),
    {
        TransformGizmoBundle {
            gizmo: TransformGizmo::default(),
            transform: Transform::from_translation(
                Vec3::from_i64(i64::MIN, i64::MIN, i64::MIN),
            ),
            global_transform: Transform::identity(),
            visible: Visibility::Hidden,
            normalize: Normalize3d::new(Rat::new(3, 2), Rat::from_i64(150)),
        }
    }
}

/// One pickable handle of the gizmo: its interaction, its transform
/// relative to the gizmo, its world transform, and which marker sets it
/// belongs to.
#[derive(Clone, Copy, Debug)]
pub struct GizmoHandle {
    pub interaction: TransformGizmoInteraction,
    pub transform: Transform,
    pub global_transform: Transform,
    pub visibility: Visibility,
    pub rotation_gizmo: bool,
    pub view_translate_gizmo: bool,
}

impl GizmoHandle {
    pub open spec fn wf(self) -> bool {
        interaction_wf(self.interaction) && self.transform.wf() && self.global_transform.wf()
    }
}

/// Notification of a completed manipulation, emitted when a drag session
/// ends: the gizmo's world transform when the session began and when it
/// ended, and the interaction that drove it.
#[derive(Clone, Copy, Debug)]
pub struct TransformGizmoEvent {
    pub from: Transform,
    pub to: Transform,
    pub interaction: TransformGizmoInteraction,
}

/// The reportable error conditions: an update step is skipped for the
/// frame and the system recovers by itself once the condition clears.
#[derive(Clone, Copy, Debug, PartialEq, Eq, Structural)]
pub enum GizmoError {
    /// The gizmo must exist exactly once; `found` says how many there were.
    GizmoCount { found: usize },
    /// The designated pick-source camera must exist exactly once.
    CameraCount { found: usize },
    /// An exact intermediate value left the representable range.
    NumericRange,
}

} // verus!
