use vstd::prelude::*;

use crate::rat::{
    add_fits, div_fits, fits, frac_add, frac_div, frac_eq, frac_from_int, frac_mul, frac_neg,
    frac_sub, frac_wf, lemma_frac_add_nonneg, lemma_frac_sq, mul_fits, sub_fits, Frac, Rat,
};
use crate::vec3::{Frac3, Vec3};

verus! {

/// A rotation, stored as a quaternion `w + x i + y j + z k` of exact
/// rationals. The quaternion is used homogeneously: `q` and any nonzero
/// multiple of `q` stand for the same rotation, and applying a rotation
/// divides by the squared norm, so no normalization (and no square root)
/// is ever needed.
#[derive(Clone, Copy, Debug, PartialEq, Eq, Structural)]
pub struct Quat {
    pub w: Rat,
    pub x: Rat,
    pub y: Rat,
    pub z: Rat,
}

/// The mathematical value of a `Quat`.
#[verifier::ext_equal]
pub struct Frac4 {
    pub w: Frac,
    pub x: Frac,
    pub y: Frac,
    pub z: Frac,
}

impl View for Quat {
    type V = Frac4;

    open spec fn view(&self) -> Frac4 {
        Frac4 { w: self.w@, x: self.x@, y: self.y@, z: self.z@ }
    }
}

pub open spec fn fq_wf(q: Frac4) -> bool {
    frac_wf(q.w) && frac_wf(q.x) && frac_wf(q.y) && frac_wf(q.z)
}

/// A quaternion that stands for a rotation must not be the zero
/// quaternion.
pub open spec fn fq_nonzero(q: Frac4) -> bool {
    q.w.n != 0 || q.x.n != 0 || q.y.n != 0 || q.z.n != 0
}

pub open spec fn fq_eq(a: Frac4, b: Frac4) -> bool {
    frac_eq(a.w, b.w) && frac_eq(a.x, b.x) && frac_eq(a.y, b.y) && frac_eq(a.z, b.z)
}

/// The value of the identity rotation.
pub open spec fn fq_identity() -> Frac4 {
    Frac4 {
        w: frac_from_int(1),
        x: frac_from_int(0),
        y: frac_from_int(0),
        z: frac_from_int(0),
    }
}

/// One chained step of a four-term combination: add or subtract.
pub open spec fn fstep(acc: Frac, t: Frac, add: bool) -> Frac {
    if add {
        frac_add(acc, t)
    } else {
        frac_sub(acc, t)
    }
}

pub open spec fn fstep_fits(acc: Frac, t: Frac, add: bool) -> bool {
    if add {
        add_fits(acc, t)
    } else {
        sub_fits(acc, t)
    }
}

/// `f1 (+/-) f2 (+/-) f3 (+/-) f4`, signs given by the three flags.
pub open spec fn fcomb4(f1: Frac, f2: Frac, f3: Frac, f4: Frac, a2: bool, a3: bool, a4: bool) -> Frac {
    fstep(fstep(fstep(f1, f2, a2), f3, a3), f4, a4)
}

pub open spec fn fcomb4_fits(f1: Frac, f2: Frac, f3: Frac, f4: Frac, a2: bool, a3: bool, a4: bool) -> bool {
    fstep_fits(f1, f2, a2) && fstep_fits(fstep(f1, f2, a2), f3, a3) && fstep_fits(
        fstep(fstep(f1, f2, a2), f3, a3),
        f4,
        a4,
    )
}

/// The Hamilton product of two quaternions.
pub open spec fn fq_mul(a: Frac4, b: Frac4) -> Frac4 {
    Frac4 {
        w: fcomb4(
            frac_mul(a.w, b.w),
            frac_mul(a.x, b.x),
            frac_mul(a.y, b.y),
            frac_mul(a.z, b.z),
            false,
            false,
            false,
        ),
        x: fcomb4(
            frac_mul(a.w, b.x),
            frac_mul(a.x, b.w),
            frac_mul(a.y, b.z),
            frac_mul(a.z, b.y),
            true,
            true,
            false,
        ),
        y: fcomb4(
            frac_mul(a.w, b.y),
            frac_mul(a.x, b.z),
            frac_mul(a.y, b.w),
            frac_mul(a.z, b.x),
            false,
            true,
            true,
        ),
        z: fcomb4(
            frac_mul(a.w, b.z),
            frac_mul(a.x, b.y),
            frac_mul(a.y, b.x),
            frac_mul(a.z, b.w),
            true,
            false,
            true,
        ),
    }
}

pub open spec fn fq_mul_fits(a: Frac4, b: Frac4) -> bool {
    mul_fits(a.w, b.w) && mul_fits(a.x, b.x) && mul_fits(a.y, b.y) && mul_fits(a.z, b.z)
        && fcomb4_fits(
        frac_mul(a.w, b.w),
        frac_mul(a.x, b.x),
        frac_mul(a.y, b.y),
        frac_mul(a.z, b.z),
        false,
        false,
        false,
    ) && mul_fits(a.w, b.x) && mul_fits(a.x, b.w) && mul_fits(a.y, b.z) && mul_fits(a.z, b.y)
        && fcomb4_fits(
        frac_mul(a.w, b.x),
        frac_mul(a.x, b.w),
        frac_mul(a.y, b.z),
        frac_mul(a.z, b.y),
        true,
        true,
        false,
    ) && mul_fits(a.w, b.y) && mul_fits(a.x, b.z) && mul_fits(a.y, b.w) && mul_fits(a.z, b.x)
        && fcomb4_fits(
        frac_mul(a.w, b.y),
        frac_mul(a.x, b.z),
        frac_mul(a.y, b.w),
        frac_mul(a.z, b.x),
        false,
        true,
        true,
    ) && mul_fits(a.w, b.z) && mul_fits(a.x, b.y) && mul_fits(a.y, b.x) && mul_fits(a.z, b.w)
        && fcomb4_fits(
        frac_mul(a.w, b.z),
        frac_mul(a.x, b.y),
        frac_mul(a.y, b.x),
        frac_mul(a.z, b.w),
        true,
        false,
        true,
    )
}

/// The conjugate: the inverse rotation, up to the homogeneous factor.
pub open spec fn fq_conj(q: Frac4) -> Frac4 {
    Frac4 { w: q.w, x: frac_neg(q.x), y: frac_neg(q.y), z: frac_neg(q.z) }
}

pub open spec fn fq_conj_fits(q: Frac4) -> bool {
    fits(-q.x.n) && fits(-q.y.n) && fits(-q.z.n)
}

/// A vector embedded as a pure quaternion.
pub open spec fn fq_pure(v: Frac3) -> Frac4 {
    Frac4 { w: frac_from_int(0), x: v.x, y: v.y, z: v.z }
}

/// The squared norm `w^2 + x^2 + y^2 + z^2`.
pub open spec fn fq_norm2(q: Frac4) -> Frac {
    frac_add(
        frac_add(frac_add(frac_mul(q.w, q.w), frac_mul(q.x, q.x)), frac_mul(q.y, q.y)),
        frac_mul(q.z, q.z),
    )
}

pub open spec fn fq_norm2_fits(q: Frac4) -> bool {
    mul_fits(q.w, q.w) && mul_fits(q.x, q.x) && mul_fits(q.y, q.y) && mul_fits(q.z, q.z)
        && add_fits(frac_mul(q.w, q.w), frac_mul(q.x, q.x)) && add_fits(
        frac_add(frac_mul(q.w, q.w), frac_mul(q.x, q.x)),
        frac_mul(q.y, q.y),
    ) && add_fits(
        frac_add(frac_add(frac_mul(q.w, q.w), frac_mul(q.x, q.x)), frac_mul(q.y, q.y)),
        frac_mul(q.z, q.z),
    )
}

/// The rotation of vector `v` by quaternion `q`: the vector part of
/// `q * (0, v) * conj(q)`, divided by the squared norm of `q`.
pub open spec fn fq_rotate(q: Frac4, v: Frac3) -> Frac3 {
    let t = fq_mul(fq_mul(q, fq_pure(v)), fq_conj(q));
    let n2 = fq_norm2(q);
    Frac3 { x: frac_div(t.x, n2), y: frac_div(t.y, n2), z: frac_div(t.z, n2) }
}

pub open spec fn fq_rotate_fits(q: Frac4, v: Frac3) -> bool {
    let s = fq_mul(q, fq_pure(v));
    let t = fq_mul(s, fq_conj(q));
    let n2 = fq_norm2(q);
    fq_mul_fits(q, fq_pure(v)) && fq_conj_fits(q) && fq_mul_fits(s, fq_conj(q)) && fq_norm2_fits(q)
        && div_fits(t.x, n2) && div_fits(t.y, n2) && div_fits(t.z, n2)
}

/// A nonzero well-formed quaternion has a strictly positive squared norm.
pub proof fn lemma_norm2_pos(q: Frac4)
    requires
        fq_wf(q),
        fq_nonzero(q),
    ensures
        frac_wf(fq_norm2(q)),
        fq_norm2(q).n > 0,
{
    lemma_frac_sq(q.w);
    lemma_frac_sq(q.x);
    lemma_frac_sq(q.y);
    lemma_frac_sq(q.z);
    lemma_frac_add_nonneg(frac_mul(q.w, q.w), frac_mul(q.x, q.x));
    lemma_frac_add_nonneg(frac_add(frac_mul(q.w, q.w), frac_mul(q.x, q.x)), frac_mul(q.y, q.y));
    lemma_frac_add_nonneg(
        frac_add(frac_add(frac_mul(q.w, q.w), frac_mul(q.x, q.x)), frac_mul(q.y, q.y)),
        frac_mul(q.z, q.z),
    );
}

impl Quat {
    pub open spec fn wf(self) -> bool {
        fq_wf(self@) && fq_nonzero(self@)
    }

    /// The identity rotation.
    pub fn identity() -> (r: Quat)
        ensures
            r.wf(),
            r@ == fq_identity(),
    {
        Quat {
            w: Rat::from_i64(1),
            x: Rat::from_i64(0),
            y: Rat::from_i64(0),
            z: Rat::from_i64(0),
        }
    }

    /// Build a quaternion from integer components; at least one must be
    /// nonzero.
    pub fn from_wxyz(w: i64, x: i64, y: i64, z: i64) -> (r: Quat)
        requires
            w != 0 || x != 0 || y != 0 || z != 0,
        ensures
            r.wf(),
            r@ == (Frac4 {
                w: frac_from_int(w as int),
                x: frac_from_int(x as int),
                y: frac_from_int(y as int),
                z: frac_from_int(z as int),
            }),
    {
        Quat { w: Rat::from_i64(w), x: Rat::from_i64(x), y: Rat::from_i64(y), z: Rat::from_i64(z) }
    }

    /// Hamilton product. `None` exactly when a step leaves `i128`.
    ///
    /// The product of two nonzero quaternions is nonzero (quaternions
    /// form a division algebra), but that fact is not needed by the
    /// callers here, so the result's well-formedness claims only
    /// component shape.
    pub fn mul(self, other: Quat) -> (r: Option<Quat>)
        requires
            self.wf(),
            other.wf(),
        ensures
            r is Some <==> fq_mul_fits(self@, other@),
            r matches Some(s) ==> fq_wf(s@) && s@ == fq_mul(self@, other@),
    {
        let w = match comb4_of(self.w, other.w, self.x, other.x, self.y, other.y, self.z, other.z,
            false, false, false) {
            Some(v) => v,
            None => { return None; },
        };
        let x = match comb4_of(self.w, other.x, self.x, other.w, self.y, other.z, self.z, other.y,
            true, true, false) {
            Some(v) => v,
            None => { return None; },
        };
        let y = match comb4_of(self.w, other.y, self.x, other.z, self.y, other.w, self.z, other.x,
            false, true, true) {
            Some(v) => v,
            None => { return None; },
        };
        let z = match comb4_of(self.w, other.z, self.x, other.y, self.y, other.x, self.z, other.w,
            true, false, true) {
            Some(v) => v,
            None => { return None; },
        };
        Some(Quat { w, x, y, z })
    }

    /// Conjugate. `None` exactly when a negated numerator leaves `i128`.
    pub fn conj(self) -> (r: Option<Quat>)
        requires
            self.wf(),
        ensures
            r is Some <==> fq_conj_fits(self@),
            r matches Some(s) ==> s.wf() && s@ == fq_conj(self@),
    {
        let x = match self.x.neg() {
            Some(v) => v,
            None => { return None; },
        };
        let y = match self.y.neg() {
            Some(v) => v,
            None => { return None; },
        };
        let z = match self.z.neg() {
            Some(v) => v,
            None => { return None; },
        };
        Some(Quat { w: self.w, x, y, z })
    }

    /// The squared norm. `None` exactly when a step leaves `i128`.
    pub fn norm2(self) -> (r: Option<Rat>)
        requires
            self.wf(),
        ensures
            r is Some <==> fq_norm2_fits(self@),
            r matches Some(s) ==> s.wf() && s@ == fq_norm2(self@) && s@.n > 0,
    {
        proof {
            lemma_norm2_pos(self@);
        }
        let pw = match self.w.mul(self.w) {
            Some(v) => v,
            None => { return None; },
        };
        let px = match self.x.mul(self.x) {
            Some(v) => v,
            None => { return None; },
        };
        let py = match self.y.mul(self.y) {
            Some(v) => v,
            None => { return None; },
        };
        let pz = match self.z.mul(self.z) {
            Some(v) => v,
            None => { return None; },
        };
        let s1 = match pw.add(px) {
            Some(v) => v,
            None => { return None; },
        };
        let s2 = match s1.add(py) {
            Some(v) => v,
            None => { return None; },
        };
        let s3 = match s2.add(pz) {
            Some(v) => v,
            None => { return None; },
        };
        Some(s3)
    }

    /// Rotate a vector by this quaternion, exactly.
    /// `None` exactly when a step leaves `i128`.
    pub fn rotate(self, v: Vec3) -> (r: Option<Vec3>)
        requires
            self.wf(),
            v.wf(),
        ensures
            r is Some <==> fq_rotate_fits(self@, v@),
            r matches Some(u) ==> u.wf() && u@ == fq_rotate(self@, v@),
    {
        let pure_v = Quat { w: Rat::zero(), x: v.x, y: v.y, z: v.z };
        proof {
            lemma_norm2_pos(self@);
        }
        let s = match quat_mul_raw(self, pure_v) {
            Some(u) => u,
            None => { return None; },
        };
        let c = match self.conj() {
            Some(u) => u,
            None => { return None; },
        };
        let t = match quat_mul_raw(s, c) {
            Some(u) => u,
            None => { return None; },
        };
        let n2 = match self.norm2() {
            Some(u) => u,
            None => { return None; },
        };
        let rx = match t.x.div(n2) {
            Some(u) => u,
            None => { return None; },
        };
        let ry = match t.y.div(n2) {
            Some(u) => u,
            None => { return None; },
        };
        let rz = match t.z.div(n2) {
            Some(u) => u,
            None => { return None; },
        };
        Some(Vec3 { x: rx, y: ry, z: rz })
    }

    /// Decides componentwise value equality, with the same conservative
    /// treatment of out-of-range cross products as `Rat::eq_val`.
    pub fn eq_val(&self, other: &Quat) -> (r: bool)
        requires
            self.wf(),
            other.wf(),
        ensures
            r ==> fq_eq(self@, other@),
            self@ == other@ ==> r,
    {
        self.w.eq_val(&other.w) && self.x.eq_val(&other.x) && self.y.eq_val(&other.y)
            && self.z.eq_val(&other.z)
    }
}

/// The Hamilton product without the nonzero requirement on the factors,
/// for use on quaternions built from vectors or composed rotations.
pub(crate) fn quat_mul_raw(a: Quat, b: Quat) -> (r: Option<Quat>)
    requires
        fq_wf(a@),
        fq_wf(b@),
    ensures
        r is Some <==> fq_mul_fits(a@, b@),
        r matches Some(s) ==> fq_wf(s@) && s@ == fq_mul(a@, b@),
{
    let w = match comb4_of(a.w, b.w, a.x, b.x, a.y, b.y, a.z, b.z, false, false, false) {
        Some(v) => v,
        None => { return None; },
    };
    let x = match comb4_of(a.w, b.x, a.x, b.w, a.y, b.z, a.z, b.y, true, true, false) {
        Some(v) => v,
        None => { return None; },
    };
    let y = match comb4_of(a.w, b.y, a.x, b.z, a.y, b.w, a.z, b.x, false, true, true) {
        Some(v) => v,
        None => { return None; },
    };
    let z = match comb4_of(a.w, b.z, a.x, b.y, a.y, b.x, a.z, b.w, true, false, true) {
        Some(v) => v,
        None => { return None; },
    };
    Some(Quat { w, x, y, z })
}

/// `a1*b1 (+/-) a2*b2 (+/-) a3*b3 (+/-) a4*b4`.
fn comb4_of(
    a1: Rat,
    b1: Rat,
    a2: Rat,
    b2: Rat,
    a3: Rat,
    b3: Rat,
    a4: Rat,
    b4: Rat,
    s2: bool,
    s3: bool,
    s4: bool,
) -> (r: Option<Rat>)
    requires
        a1.wf(),
        b1.wf(),
        a2.wf(),
        b2.wf(),
        a3.wf(),
        b3.wf(),
        a4.wf(),
        b4.wf(),
    ensures
        r is Some <==> mul_fits(a1@, b1@) && mul_fits(a2@, b2@) && mul_fits(a3@, b3@) && mul_fits(
            a4@,
            b4@,
        ) && fcomb4_fits(
            frac_mul(a1@, b1@),
            frac_mul(a2@, b2@),
            frac_mul(a3@, b3@),
            frac_mul(a4@, b4@),
            s2,
            s3,
            s4,
        ),
        r matches Some(s) ==> s.wf() && s@ == fcomb4(
            frac_mul(a1@, b1@),
            frac_mul(a2@, b2@),
            frac_mul(a3@, b3@),
            frac_mul(a4@, b4@),
            s2,
            s3,
            s4,
        ),
{
    let p1 = match a1.mul(b1) {
        Some(v) => v,
        None => { return None; },
    };
    let p2 = match a2.mul(b2) {
        Some(v) => v,
        None => { return None; },
    };
    let p3 = match a3.mul(b3) {
        Some(v) => v,
        None => { return None; },
    };
    let p4 = match a4.mul(b4) {
        Some(v) => v,
        None => { return None; },
    };
    let c2 = match rat_step(p1, p2, s2) {
        Some(v) => v,
        None => { return None; },
    };
    let c3 = match rat_step(c2, p3, s3) {
        Some(v) => v,
        None => { return None; },
    };
    let c4 = match rat_step(c3, p4, s4) {
        Some(v) => v,
        None => { return None; },
    };
    Some(c4)
}

/// One add-or-subtract step of a chained combination.
fn rat_step(acc: Rat, t: Rat, add: bool) -> (r: Option<Rat>)
    requires
        acc.wf(),
        t.wf(),
    ensures
        r is Some <==> fstep_fits(acc@, t@, add),
        r matches Some(s) ==> s.wf() && s@ == fstep(acc@, t@, add),
{
    if add {
        acc.add(t)
    } else {
        acc.sub(t)
    }
}

} // verus!
