use vstd::prelude::*;

use crate::rat::{
    add_fits, div_fits, frac_add, frac_div, frac_eq, frac_from_int, frac_mul, frac_sub, frac_wf,
    lemma_frac_add_nonneg, lemma_frac_sq, mul_fits, sub_fits, Frac, Rat,
};

verus! {

/// A 3-component vector of exact rationals: points, directions and axes
/// of the gizmo's world all use this type.
#[derive(Clone, Copy, Debug, PartialEq, Eq, Structural)]
pub struct Vec3 {
    pub x: Rat,
    pub y: Rat,
    pub z: Rat,
}

/// The mathematical value of a `Vec3`.
#[verifier::ext_equal]
pub struct Frac3 {
    pub x: Frac,
    pub y: Frac,
    pub z: Frac,
}

impl View for Vec3 {
    type V = Frac3;

    open spec fn view(&self) -> Frac3 {
        Frac3 { x: self.x@, y: self.y@, z: self.z@ }
    }
}

/// The value of the zero vector.
pub open spec fn fv_zero() -> Frac3 {
    Frac3 { x: frac_from_int(0), y: frac_from_int(0), z: frac_from_int(0) }
}

/// The value of the all-ones vector, the neutral scale.
pub open spec fn fv_one() -> Frac3 {
    Frac3 { x: frac_from_int(1), y: frac_from_int(1), z: frac_from_int(1) }
}

/// The unit directions of the world's axes.
pub open spec fn fv_unit_x() -> Frac3 {
    Frac3 { x: frac_from_int(1), y: frac_from_int(0), z: frac_from_int(0) }
}

pub open spec fn fv_unit_y() -> Frac3 {
    Frac3 { x: frac_from_int(0), y: frac_from_int(1), z: frac_from_int(0) }
}

pub open spec fn fv_unit_z() -> Frac3 {
    Frac3 { x: frac_from_int(0), y: frac_from_int(0), z: frac_from_int(1) }
}

pub open spec fn fv_wf(v: Frac3) -> bool {
    frac_wf(v.x) && frac_wf(v.y) && frac_wf(v.z)
}

pub open spec fn fv_eq(a: Frac3, b: Frac3) -> bool {
    frac_eq(a.x, b.x) && frac_eq(a.y, b.y) && frac_eq(a.z, b.z)
}

pub open spec fn fv_add(a: Frac3, b: Frac3) -> Frac3 {
    Frac3 { x: frac_add(a.x, b.x), y: frac_add(a.y, b.y), z: frac_add(a.z, b.z) }
}

pub open spec fn fv_sub(a: Frac3, b: Frac3) -> Frac3 {
    Frac3 { x: frac_sub(a.x, b.x), y: frac_sub(a.y, b.y), z: frac_sub(a.z, b.z) }
}

pub open spec fn fv_scale(s: Frac, v: Frac3) -> Frac3 {
    Frac3 { x: frac_mul(s, v.x), y: frac_mul(s, v.y), z: frac_mul(s, v.z) }
}

/// Componentwise product, as a scale factor applies to a vector.
pub open spec fn fv_cmul(a: Frac3, b: Frac3) -> Frac3 {
    Frac3 { x: frac_mul(a.x, b.x), y: frac_mul(a.y, b.y), z: frac_mul(a.z, b.z) }
}

/// Componentwise quotient, as a scale factor is undone.
pub open spec fn fv_cdiv(a: Frac3, b: Frac3) -> Frac3 {
    Frac3 { x: frac_div(a.x, b.x), y: frac_div(a.y, b.y), z: frac_div(a.z, b.z) }
}

/// All three components are nonzero values.
pub open spec fn fv_nonzero_components(v: Frac3) -> bool {
    v.x.n != 0 && v.y.n != 0 && v.z.n != 0
}

pub open spec fn fv_dot(a: Frac3, b: Frac3) -> Frac {
    frac_add(
        frac_add(frac_mul(a.x, b.x), frac_mul(a.y, b.y)),
        frac_mul(a.z, b.z),
    )
}

pub open spec fn fv_cross(a: Frac3, b: Frac3) -> Frac3 {
    Frac3 {
        x: frac_sub(frac_mul(a.y, b.z), frac_mul(a.z, b.y)),
        y: frac_sub(frac_mul(a.z, b.x), frac_mul(a.x, b.z)),
        z: frac_sub(frac_mul(a.x, b.y), frac_mul(a.y, b.x)),
    }
}

pub open spec fn fv_add_fits(a: Frac3, b: Frac3) -> bool {
    add_fits(a.x, b.x) && add_fits(a.y, b.y) && add_fits(a.z, b.z)
}

pub open spec fn fv_sub_fits(a: Frac3, b: Frac3) -> bool {
    sub_fits(a.x, b.x) && sub_fits(a.y, b.y) && sub_fits(a.z, b.z)
}

pub open spec fn fv_scale_fits(s: Frac, v: Frac3) -> bool {
    mul_fits(s, v.x) && mul_fits(s, v.y) && mul_fits(s, v.z)
}

pub open spec fn fv_cmul_fits(a: Frac3, b: Frac3) -> bool {
    mul_fits(a.x, b.x) && mul_fits(a.y, b.y) && mul_fits(a.z, b.z)
}

pub open spec fn fv_cdiv_fits(a: Frac3, b: Frac3) -> bool {
    div_fits(a.x, b.x) && div_fits(a.y, b.y) && div_fits(a.z, b.z)
}

pub open spec fn fv_dot_fits(a: Frac3, b: Frac3) -> bool {
    mul_fits(a.x, b.x) && mul_fits(a.y, b.y) && mul_fits(a.z, b.z) && add_fits(
        frac_mul(a.x, b.x),
        frac_mul(a.y, b.y),
    ) && add_fits(frac_add(frac_mul(a.x, b.x), frac_mul(a.y, b.y)), frac_mul(a.z, b.z))
}

pub open spec fn fv_cross_fits(a: Frac3, b: Frac3) -> bool {
    mul_fits(a.y, b.z) && mul_fits(a.z, b.y) && sub_fits(frac_mul(a.y, b.z), frac_mul(a.z, b.y))
        && mul_fits(a.z, b.x) && mul_fits(a.x, b.z) && sub_fits(
        frac_mul(a.z, b.x),
        frac_mul(a.x, b.z),
    ) && mul_fits(a.x, b.y) && mul_fits(a.y, b.x) && sub_fits(
        frac_mul(a.x, b.y),
        frac_mul(a.y, b.x),
    )
}

impl Vec3 {
    pub open spec fn wf(self) -> bool {
        fv_wf(self@)
    }

    /// Build a vector with integer components.
    pub fn from_i64(x: i64, y: i64, z: i64) -> (r: Vec3)
        ensures
            r.wf(),
            r@ == (Frac3 {
                x: frac_from_int(x as int),
                y: frac_from_int(y as int),
                z: frac_from_int(z as int),
            }),
    {
        Vec3 { x: Rat::from_i64(x), y: Rat::from_i64(y), z: Rat::from_i64(z) }
    }

    pub fn zero() -> (r: Vec3)
        ensures
            r.wf(),
            r@ == fv_zero(),
    {
        Vec3::from_i64(0, 0, 0)
    }

    /// The all-ones vector, the neutral scale factor.
    pub fn one() -> (r: Vec3)
        ensures
            r.wf(),
            r@ == fv_one(),
    {
        Vec3::from_i64(1, 1, 1)
    }

    /// Componentwise sum. `None` exactly when a component sum leaves `i128`.
    pub fn add(self, other: Vec3) -> (r: Option<Vec3>)
        requires
            self.wf(),
            other.wf(),
        ensures
            r is Some <==> fv_add_fits(self@, other@),
            r matches Some(s) ==> s.wf() && s@ == fv_add(self@, other@),
    {
        let x = match self.x.add(other.x) {
            Some(v) => v,
            None => { return None; },
        };
        let y = match self.y.add(other.y) {
            Some(v) => v,
            None => { return None; },
        };
        let z = match self.z.add(other.z) {
            Some(v) => v,
            None => { return None; },
        };
        Some(Vec3 { x, y, z })
    }

    /// Componentwise difference. `None` exactly when a component leaves `i128`.
    pub fn sub(self, other: Vec3) -> (r: Option<Vec3>)
        requires
            self.wf(),
            other.wf(),
        ensures
            r is Some <==> fv_sub_fits(self@, other@),
            r matches Some(s) ==> s.wf() && s@ == fv_sub(self@, other@),
    {
        let x = match self.x.sub(other.x) {
            Some(v) => v,
            None => { return None; },
        };
        let y = match self.y.sub(other.y) {
            Some(v) => v,
            None => { return None; },
        };
        let z = match self.z.sub(other.z) {
            Some(v) => v,
            None => { return None; },
        };
        Some(Vec3 { x, y, z })
    }

    /// Scalar multiple. `None` exactly when a component leaves `i128`.
    pub fn scale(self, s: Rat) -> (r: Option<Vec3>)
        requires
            self.wf(),
            s.wf(),
        ensures
            r is Some <==> fv_scale_fits(s@, self@),
            r matches Some(v) ==> v.wf() && v@ == fv_scale(s@, self@),
    {
        let x = match s.mul(self.x) {
            Some(v) => v,
            None => { return None; },
        };
        let y = match s.mul(self.y) {
            Some(v) => v,
            None => { return None; },
        };
        let z = match s.mul(self.z) {
            Some(v) => v,
            None => { return None; },
        };
        Some(Vec3 { x, y, z })
    }

    /// Dot product. `None` exactly when a step of the sum of products
    /// leaves `i128`.
    pub fn dot(self, other: Vec3) -> (r: Option<Rat>)
        requires
            self.wf(),
            other.wf(),
        ensures
            r is Some <==> fv_dot_fits(self@, other@),
            r matches Some(s) ==> s.wf() && s@ == fv_dot(self@, other@),
    {
        let px = match self.x.mul(other.x) {
            Some(v) => v,
            None => { return None; },
        };
        let py = match self.y.mul(other.y) {
            Some(v) => v,
            None => { return None; },
        };
        let pz = match self.z.mul(other.z) {
            Some(v) => v,
            None => { return None; },
        };
        let sxy = match px.add(py) {
            Some(v) => v,
            None => { return None; },
        };
        let s = match sxy.add(pz) {
            Some(v) => v,
            None => { return None; },
        };
        Some(s)
    }

    /// Cross product. `None` exactly when a step of a component formula
    /// leaves `i128`.
    pub fn cross(self, other: Vec3) -> (r: Option<Vec3>)
        requires
            self.wf(),
            other.wf(),
        ensures
            r is Some <==> fv_cross_fits(self@, other@),
            r matches Some(s) ==> s.wf() && s@ == fv_cross(self@, other@),
    {
        let x = match cross_term(self.y, other.z, self.z, other.y) {
            Some(v) => v,
            None => { return None; },
        };
        let y = match cross_term(self.z, other.x, self.x, other.z) {
            Some(v) => v,
            None => { return None; },
        };
        let z = match cross_term(self.x, other.y, self.y, other.x) {
            Some(v) => v,
            None => { return None; },
        };
        Some(Vec3 { x, y, z })
    }

    /// Componentwise product. `None` exactly when a component leaves `i128`.
    pub fn cmul(self, other: Vec3) -> (r: Option<Vec3>)
        requires
            self.wf(),
            other.wf(),
        ensures
            r is Some <==> fv_cmul_fits(self@, other@),
            r matches Some(s) ==> s.wf() && s@ == fv_cmul(self@, other@),
    {
        let x = match self.x.mul(other.x) {
            Some(v) => v,
            None => { return None; },
        };
        let y = match self.y.mul(other.y) {
            Some(v) => v,
            None => { return None; },
        };
        let z = match self.z.mul(other.z) {
            Some(v) => v,
            None => { return None; },
        };
        Some(Vec3 { x, y, z })
    }

    /// Componentwise quotient by a vector of nonzero components.
    /// `None` exactly when a component leaves `i128`.
    pub fn cdiv(self, other: Vec3) -> (r: Option<Vec3>)
        requires
            self.wf(),
            other.wf(),
            fv_nonzero_components(other@),
        ensures
            r is Some <==> fv_cdiv_fits(self@, other@),
            r matches Some(s) ==> s.wf() && s@ == fv_cdiv(self@, other@),
    {
        let x = match self.x.div(other.x) {
            Some(v) => v,
            None => { return None; },
        };
        let y = match self.y.div(other.y) {
            Some(v) => v,
            None => { return None; },
        };
        let z = match self.z.div(other.z) {
            Some(v) => v,
            None => { return None; },
        };
        Some(Vec3 { x, y, z })
    }

    /// Decides componentwise value equality, with the same conservative
    /// treatment of out-of-range cross products as `Rat::eq_val`.
    pub fn eq_val(&self, other: &Vec3) -> (r: bool)
        requires
            self.wf(),
            other.wf(),
        ensures
            r ==> fv_eq(self@, other@),
            self@ == other@ ==> r,
    {
        self.x.eq_val(&other.x) && self.y.eq_val(&other.y) && self.z.eq_val(&other.z)
    }
}

/// The dot product of a well-formed vector with itself is nonnegative,
/// and positive exactly when some component is nonzero.
pub proof fn lemma_dot_self_pos(v: Frac3)
    requires
        fv_wf(v),
    ensures
        frac_wf(fv_dot(v, v)),
        fv_dot(v, v).n >= 0,
        (v.x.n != 0 || v.y.n != 0 || v.z.n != 0) ==> fv_dot(v, v).n > 0,
{
    lemma_frac_sq(v.x);
    lemma_frac_sq(v.y);
    lemma_frac_sq(v.z);
    lemma_frac_add_nonneg(frac_mul(v.x, v.x), frac_mul(v.y, v.y));
    lemma_frac_add_nonneg(frac_add(frac_mul(v.x, v.x), frac_mul(v.y, v.y)), frac_mul(v.z, v.z));
}

/// One component of a cross product: `a * b - c * d`.
fn cross_term(a: Rat, b: Rat, c: Rat, d: Rat) -> (r: Option<Rat>)
    requires
        a.wf(),
        b.wf(),
        c.wf(),
        d.wf(),
    ensures
        r is Some <==> mul_fits(a@, b@) && mul_fits(c@, d@) && sub_fits(
            frac_mul(a@, b@),
            frac_mul(c@, d@),
        ),
        r matches Some(s) ==> s.wf() && s@ == frac_sub(frac_mul(a@, b@), frac_mul(c@, d@)),
{
    let p1 = match a.mul(b) {
        Some(v) => v,
        None => { return None; },
    };
    let p2 = match c.mul(d) {
        Some(v) => v,
        None => { return None; },
    };
    let s = match p1.sub(p2) {
        Some(v) => v,
        None => { return None; },
    };
    Some(s)
}

} // verus!
