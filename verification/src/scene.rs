use vstd::prelude::*;

use crate::quat::fq_nonzero;
use crate::transform::{ft_identity, FracTransform, Transform};
use crate::vec3::{fv_nonzero_components, Vec3};

verus! {

/// A world-space picking ray: origin and an (unnormalized) direction.
#[derive(Clone, Copy, Debug)]
pub struct Ray {
    pub origin: Vec3,
    pub direction: Vec3,
}

/// A direction is usable when at least one component is nonzero.
pub open spec fn fv_some_nonzero(v: crate::vec3::Frac3) -> bool {
    v.x.n != 0 || v.y.n != 0 || v.z.n != 0
}

impl Ray {
    pub open spec fn wf(self) -> bool {
        self.origin.wf() && self.direction.wf() && fv_some_nonzero(self.direction@)
    }
}

/// One manipulable entity of the scene, as the gizmo sees it: whether it
/// is currently selected, its local transform (what a drag writes), its
/// world transform, its parent's world transform if it has a parent, and
/// the snapshot taken at drag start that exists only during a session.
#[derive(Clone, Copy, Debug)]
pub struct SceneNode {
    pub selected: bool,
    pub transform: Transform,
    pub global_transform: Transform,
    pub parent_global: Option<Transform>,
    pub initial_transform: Option<Transform>,
}

impl SceneNode {
    pub open spec fn wf(self) -> bool {
        &&& self.transform.wf()
        &&& self.global_transform.wf()
        &&& (self.parent_global matches Some(p) ==> p.wf() && fq_nonzero(p@.rotation)
            && fv_nonzero_components(p@.scale))
        &&& (self.initial_transform matches Some(t) ==> t.wf())
    }
}

/// The world transform of a node's parent: the identity where the node
/// has none.
pub open spec fn parent_frame(n: SceneNode) -> FracTransform {
    match n.parent_global {
        Some(p) => p@,
        None => ft_identity(),
    }
}

} // verus!
