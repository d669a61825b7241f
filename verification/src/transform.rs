use vstd::prelude::*;

use crate::quat::{
    fq_conj, fq_conj_fits, fq_eq, fq_identity, fq_mul, fq_mul_fits, fq_nonzero, fq_rotate,
    fq_rotate_fits, fq_wf, quat_mul_raw, Frac4, Quat,
};
use crate::rat::Rat;
use crate::vec3::{
    fv_add, fv_add_fits, fv_cdiv, fv_cdiv_fits, fv_cmul, fv_cmul_fits, fv_eq,
    fv_nonzero_components, fv_one, fv_sub, fv_sub_fits, fv_wf, fv_zero, Frac3, Vec3,
};

verus! {

/// A translation-rotation-scale transform over exact rationals, the
/// model of an entity's local transform and of the gizmo's world
/// transform.
#[derive(Clone, Copy, Debug, PartialEq, Eq, Structural)]
pub struct Transform {
    pub translation: Vec3,
    pub rotation: Quat,
    pub scale: Vec3,
}

/// The mathematical value of a `Transform`.
#[verifier::ext_equal]
pub struct FracTransform {
    pub translation: Frac3,
    pub rotation: Frac4,
    pub scale: Frac3,
}

impl View for Transform {
    type V = FracTransform;

    open spec fn view(&self) -> FracTransform {
        FracTransform {
            translation: self.translation@,
            rotation: self.rotation@,
            scale: self.scale@,
        }
    }
}

/// The value of the identity transform.
pub open spec fn ft_identity() -> FracTransform {
    FracTransform { translation: fv_zero(), rotation: fq_identity(), scale: fv_one() }
}

pub open spec fn ft_wf(t: FracTransform) -> bool {
    fv_wf(t.translation) && fq_wf(t.rotation) && fv_wf(t.scale)
}

pub open spec fn ft_eq(a: FracTransform, b: FracTransform) -> bool {
    fv_eq(a.translation, b.translation) && fq_eq(a.rotation, b.rotation) && fv_eq(a.scale, b.scale)
}

/// A point mapped through a transform: `translation + R(scale * p)`.
pub open spec fn ft_point(t: FracTransform, p: Frac3) -> Frac3 {
    fv_add(t.translation, fq_rotate(t.rotation, fv_cmul(t.scale, p)))
}

pub open spec fn ft_point_fits(t: FracTransform, p: Frac3) -> bool {
    fv_cmul_fits(t.scale, p) && fq_rotate_fits(t.rotation, fv_cmul(t.scale, p)) && fv_add_fits(
        t.translation,
        fq_rotate(t.rotation, fv_cmul(t.scale, p)),
    )
}

/// Composition of transforms: the result maps a point as `a` applied
/// after `b`.
pub open spec fn ft_mul(a: FracTransform, b: FracTransform) -> FracTransform {
    FracTransform {
        translation: ft_point(a, b.translation),
        rotation: fq_mul(a.rotation, b.rotation),
        scale: fv_cmul(a.scale, b.scale),
    }
}

pub open spec fn ft_mul_fits(a: FracTransform, b: FracTransform) -> bool {
    ft_point_fits(a, b.translation) && fq_mul_fits(a.rotation, b.rotation) && fv_cmul_fits(
        a.scale,
        b.scale,
    )
}

/// A transform rotated rigidly about a pivot point: the translation
/// orbits the pivot and the rotation is composed, the scale is kept.
pub open spec fn ft_rotate_around(t: FracTransform, pivot: Frac3, q: Frac4) -> FracTransform {
    FracTransform {
        translation: fv_add(pivot, fq_rotate(q, fv_sub(t.translation, pivot))),
        rotation: fq_mul(q, t.rotation),
        scale: t.scale,
    }
}

pub open spec fn ft_rotate_around_fits(t: FracTransform, pivot: Frac3, q: Frac4) -> bool {
    fv_sub_fits(t.translation, pivot) && fq_rotate_fits(q, fv_sub(t.translation, pivot))
        && fv_add_fits(pivot, fq_rotate(q, fv_sub(t.translation, pivot))) && fq_mul_fits(
        q,
        t.rotation,
    )
}

/// The local transform under a parent that composes back to the given
/// world transform: `ft_mul(parent, ft_to_local(parent, world))` equals
/// `world` componentwise, as long as the parent's rotation is nonzero
/// and its scale components are nonzero.
pub open spec fn ft_to_local(parent: FracTransform, world: FracTransform) -> FracTransform {
    FracTransform {
        translation: fv_cdiv(
            fq_rotate(fq_conj(parent.rotation), fv_sub(world.translation, parent.translation)),
            parent.scale,
        ),
        rotation: fq_mul(fq_conj(parent.rotation), world.rotation),
        scale: fv_cdiv(world.scale, parent.scale),
    }
}

pub open spec fn ft_to_local_fits(parent: FracTransform, world: FracTransform) -> bool {
    fq_conj_fits(parent.rotation) && fv_sub_fits(world.translation, parent.translation)
        && fq_rotate_fits(
        fq_conj(parent.rotation),
        fv_sub(world.translation, parent.translation),
    ) && fv_cdiv_fits(
        fq_rotate(fq_conj(parent.rotation), fv_sub(world.translation, parent.translation)),
        parent.scale,
    ) && fq_mul_fits(fq_conj(parent.rotation), world.rotation) && fv_cdiv_fits(
        world.scale,
        parent.scale,
    )
}

impl Transform {
    pub open spec fn wf(self) -> bool {
        ft_wf(self@)
    }

    /// The identity transform.
    pub fn identity() -> (r: Transform)
        ensures
            r.wf(),
            fq_nonzero(r@.rotation),
            r@ == ft_identity(),
    {
        Transform { translation: Vec3::zero(), rotation: Quat::identity(), scale: Vec3::one() }
    }

    /// A transform that only translates.
    pub fn from_translation(t: Vec3) -> (r: Transform)
        requires
            t.wf(),
        ensures
            r.wf(),
            fq_nonzero(r@.rotation),
            r@.translation == t@,
            r@.rotation == fq_identity(),
            r@.scale == fv_one(),
    {
        Transform { translation: t, rotation: Quat::identity(), scale: Vec3::one() }
    }

    /// Map a point through this transform. `None` exactly when a step
    /// leaves `i128`.
    pub fn transform_point(self, p: Vec3) -> (r: Option<Vec3>)
        requires
            self.wf(),
            fq_nonzero(self@.rotation),
            p.wf(),
        ensures
            r is Some <==> ft_point_fits(self@, p@),
            r matches Some(s) ==> s.wf() && s@ == ft_point(self@, p@),
    {
        let scaled = match self.scale.cmul(p) {
            Some(v) => v,
            None => { return None; },
        };
        let rotated = match self.rotation.rotate(scaled) {
            Some(v) => v,
            None => { return None; },
        };
        let out = match self.translation.add(rotated) {
            Some(v) => v,
            None => { return None; },
        };
        Some(out)
    }

    /// Compose with another transform, this one applied last.
    /// `None` exactly when a step leaves `i128`.
    pub fn mul_transform(self, other: Transform) -> (r: Option<Transform>)
        requires
            self.wf(),
            fq_nonzero(self@.rotation),
            other.wf(),
        ensures
            r is Some <==> ft_mul_fits(self@, other@),
            r matches Some(s) ==> s.wf() && s@ == ft_mul(self@, other@),
    {
        let translation = match self.transform_point(other.translation) {
            Some(v) => v,
            None => { return None; },
        };
        let rotation = match quat_mul_raw(self.rotation, other.rotation) {
            Some(v) => v,
            None => { return None; },
        };
        let scale = match self.scale.cmul(other.scale) {
            Some(v) => v,
            None => { return None; },
        };
        Some(Transform { translation, rotation, scale })
    }

    /// Rotate this transform rigidly about a pivot.
    /// `None` exactly when a step leaves `i128`.
    pub fn rotate_around(self, pivot: Vec3, q: Quat) -> (r: Option<Transform>)
        requires
            self.wf(),
            pivot.wf(),
            q.wf(),
        ensures
            r is Some <==> ft_rotate_around_fits(self@, pivot@, q@),
            r matches Some(s) ==> s.wf() && s@ == ft_rotate_around(self@, pivot@, q@),
    {
        let arm = match self.translation.sub(pivot) {
            Some(v) => v,
            None => { return None; },
        };
        let turned = match q.rotate(arm) {
            Some(v) => v,
            None => { return None; },
        };
        let translation = match pivot.add(turned) {
            Some(v) => v,
            None => { return None; },
        };
        let rotation = match quat_mul_raw(q, self.rotation) {
            Some(v) => v,
            None => { return None; },
        };
        Some(Transform { translation, rotation, scale: self.scale })
    }

    /// Express a world transform in the space of a parent: the unique
    /// transform that the parent composes back to the given world
    /// transform. `None` exactly when a step leaves `i128`.
    pub fn to_local(self, parent: Transform) -> (r: Option<Transform>)
        requires
            self.wf(),
            parent.wf(),
            fq_nonzero(parent@.rotation),
            fv_nonzero_components(parent@.scale),
        ensures
            r is Some <==> ft_to_local_fits(parent@, self@),
            r matches Some(s) ==> s.wf() && s@ == ft_to_local(parent@, self@),
    {
        let inv_rot = match parent.rotation.conj() {
            Some(v) => v,
            None => { return None; },
        };
        let offset = match self.translation.sub(parent.translation) {
            Some(v) => v,
            None => { return None; },
        };
        let in_parent = match inv_rot.rotate(offset) {
            Some(v) => v,
            None => { return None; },
        };
        let translation = match in_parent.cdiv(parent.scale) {
            Some(v) => v,
            None => { return None; },
        };
        let rotation = match quat_mul_raw(inv_rot, self.rotation) {
            Some(v) => v,
            None => { return None; },
        };
        let scale = match self.scale.cdiv(parent.scale) {
            Some(v) => v,
            None => { return None; },
        };
        Some(Transform { translation, rotation, scale })
    }

    /// Decides componentwise value equality, with the same conservative
    /// treatment of out-of-range cross products as `Rat::eq_val`.
    pub fn eq_val(&self, other: &Transform) -> (r: bool)
        requires
            self.wf(),
            other.wf(),
        ensures
            r ==> ft_eq(self@, other@),
            self@ == other@ ==> r,
    {
        self.translation.eq_val(&other.translation) && quat_eq_val(&self.rotation, &other.rotation)
            && self.scale.eq_val(&other.scale)
    }
}

/// Componentwise value equality of quaternions that are only known to be
/// well-formed in shape (their nonzero-ness is not needed to compare).
fn quat_eq_val(a: &Quat, b: &Quat) -> (r: bool)
    requires
        fq_wf(a@),
        fq_wf(b@),
    ensures
        r ==> fq_eq(a@, b@),
        a@ == b@ ==> r,
{
    a.w.eq_val(&b.w) && a.x.eq_val(&b.x) && a.y.eq_val(&b.y) && a.z.eq_val(&b.z)
}

} // verus!
