use vstd::prelude::*;

verus! {

/// An exact rational number `num / den`, kept with a positive denominator.
///
/// The gizmo's interaction math is stated and carried out over exact
/// rationals: every geometric quantity a drag produces (plane
/// intersections, projections, deltas) is an exact value, so the
/// drift-free and idempotence guarantees of the drag design can be
/// proved as equalities rather than approximations.
///
/// Values are not reduced to lowest terms: every arithmetic result is
/// exactly the textbook numerator/denominator formula, which keeps the
/// contracts structural. An operation whose textbook result leaves the
/// `i128` range reports `None`, and the caller skips that frame.
#[derive(Clone, Copy, Debug, PartialEq, Eq, Structural)]
pub struct Rat {
    pub num: i128,
    pub den: i128,
}

/// The mathematical value of a `Rat`: a fraction over unbounded integers.
#[verifier::ext_equal]
pub struct Frac {
    pub n: int,
    pub d: int,
}

impl View for Rat {
    type V = Frac;

    open spec fn view(&self) -> Frac {
        Frac { n: self.num as int, d: self.den as int }
    }
}

/// Well-formed fraction: positive denominator.
pub open spec fn frac_wf(f: Frac) -> bool {
    f.d > 0
}

/// Equality of fraction values (cross multiplication).
pub open spec fn frac_eq(a: Frac, b: Frac) -> bool {
    a.n * b.d == b.n * a.d
}

pub open spec fn frac_add(a: Frac, b: Frac) -> Frac {
    Frac { n: a.n * b.d + b.n * a.d, d: a.d * b.d }
}

pub open spec fn frac_sub(a: Frac, b: Frac) -> Frac {
    Frac { n: a.n * b.d - b.n * a.d, d: a.d * b.d }
}

pub open spec fn frac_mul(a: Frac, b: Frac) -> Frac {
    Frac { n: a.n * b.n, d: a.d * b.d }
}

pub open spec fn frac_neg(a: Frac) -> Frac {
    Frac { n: -a.n, d: a.d }
}

/// Division, with the sign moved into the numerator so that a
/// well-formed result keeps a positive denominator.
pub open spec fn frac_div(a: Frac, b: Frac) -> Frac {
    if b.n >= 0 {
        Frac { n: a.n * b.d, d: a.d * b.n }
    } else {
        Frac { n: -(a.n * b.d), d: -(a.d * b.n) }
    }
}

pub open spec fn frac_from_int(i: int) -> Frac {
    Frac { n: i, d: 1 }
}

/// Strict value order on well-formed fractions (cross multiplication).
pub open spec fn frac_lt(a: Frac, b: Frac) -> bool {
    a.n * b.d < b.n * a.d
}

/// Whether an unbounded integer fits the machine representation.
pub open spec fn fits(x: int) -> bool {
    i128::MIN as int <= x && x <= i128::MAX as int
}

/// Exactly when `rat_add` succeeds: every step of the textbook sum fits.
pub open spec fn add_fits(a: Frac, b: Frac) -> bool {
    fits(a.n * b.d) && fits(b.n * a.d) && fits(a.n * b.d + b.n * a.d) && fits(a.d * b.d)
}

/// Exactly when `rat_sub` succeeds.
pub open spec fn sub_fits(a: Frac, b: Frac) -> bool {
    fits(a.n * b.d) && fits(b.n * a.d) && fits(a.n * b.d - b.n * a.d) && fits(a.d * b.d)
}

/// Exactly when `rat_mul` succeeds.
pub open spec fn mul_fits(a: Frac, b: Frac) -> bool {
    fits(a.n * b.n) && fits(a.d * b.d)
}

/// Exactly when `rat_div` succeeds.
pub open spec fn div_fits(a: Frac, b: Frac) -> bool {
    if b.n >= 0 {
        fits(a.n * b.d) && fits(a.d * b.n)
    } else {
        fits(a.n * b.d) && fits(-(a.n * b.d)) && fits(a.d * b.n) && fits(-(a.d * b.n))
    }
}

impl Rat {
    pub open spec fn wf(self) -> bool {
        frac_wf(self@)
    }

    /// Build the rational `v / 1`.
    pub fn from_i64(v: i64) -> (r: Rat)
        ensures
            r.wf(),
            r@ == frac_from_int(v as int),
    {
        Rat { num: v as i128, den: 1 }
    }

    /// Build the rational `n / d` from small components.
    pub fn new(n: i64, d: i64) -> (r: Rat)
        requires
            d > 0,
        ensures
            r.wf(),
            r@ == (Frac { n: n as int, d: d as int }),
    {
        Rat { num: n as i128, den: d as i128 }
    }

    pub fn zero() -> (r: Rat)
        ensures
            r.wf(),
            r@ == frac_from_int(0),
    {
        Rat { num: 0, den: 1 }
    }

    pub fn one() -> (r: Rat)
        ensures
            r.wf(),
            r@ == frac_from_int(1),
    {
        Rat { num: 1, den: 1 }
    }

    /// Exact sum. `None` exactly when the textbook sum leaves `i128`.
    pub fn add(self, other: Rat) -> (r: Option<Rat>)
        requires
            self.wf(),
            other.wf(),
        ensures
            r is Some <==> add_fits(self@, other@),
            r matches Some(s) ==> s.wf() && s@ == frac_add(self@, other@),
    {
        let p1 = match self.num.checked_mul(other.den) {
            Some(v) => v,
            None => { return None; },
        };
        let p2 = match other.num.checked_mul(self.den) {
            Some(v) => v,
            None => { return None; },
        };
        let n = match p1.checked_add(p2) {
            Some(v) => v,
            None => { return None; },
        };
        let d = match self.den.checked_mul(other.den) {
            Some(v) => v,
            None => { return None; },
        };
        proof {
            assert(self.den as int * other.den as int > 0) by (nonlinear_arith)
                requires
                    self.den > 0,
                    other.den > 0,
            ;
        }
        Some(Rat { num: n, den: d })
    }

    /// Exact difference. `None` exactly when the textbook difference leaves `i128`.
    pub fn sub(self, other: Rat) -> (r: Option<Rat>)
        requires
            self.wf(),
            other.wf(),
        ensures
            r is Some <==> sub_fits(self@, other@),
            r matches Some(s) ==> s.wf() && s@ == frac_sub(self@, other@),
    {
        let p1 = match self.num.checked_mul(other.den) {
            Some(v) => v,
            None => { return None; },
        };
        let p2 = match other.num.checked_mul(self.den) {
            Some(v) => v,
            None => { return None; },
        };
        let n = match p1.checked_sub(p2) {
            Some(v) => v,
            None => { return None; },
        };
        let d = match self.den.checked_mul(other.den) {
            Some(v) => v,
            None => { return None; },
        };
        proof {
            assert(self.den as int * other.den as int > 0) by (nonlinear_arith)
                requires
                    self.den > 0,
                    other.den > 0,
            ;
        }
        Some(Rat { num: n, den: d })
    }

    /// Exact product. `None` exactly when the textbook product leaves `i128`.
    pub fn mul(self, other: Rat) -> (r: Option<Rat>)
        requires
            self.wf(),
            other.wf(),
        ensures
            r is Some <==> mul_fits(self@, other@),
            r matches Some(s) ==> s.wf() && s@ == frac_mul(self@, other@),
    {
        let n = match self.num.checked_mul(other.num) {
            Some(v) => v,
            None => { return None; },
        };
        let d = match self.den.checked_mul(other.den) {
            Some(v) => v,
            None => { return None; },
        };
        proof {
            assert(self.den as int * other.den as int > 0) by (nonlinear_arith)
                requires
                    self.den > 0,
                    other.den > 0,
            ;
        }
        Some(Rat { num: n, den: d })
    }

    /// Exact quotient by a nonzero rational. `None` exactly when the
    /// textbook quotient leaves `i128`.
    pub fn div(self, other: Rat) -> (r: Option<Rat>)
        requires
            self.wf(),
            other.wf(),
            other@.n != 0,
        ensures
            r is Some <==> div_fits(self@, other@),
            r matches Some(s) ==> s.wf() && s@ == frac_div(self@, other@),
    {
        let p1 = match self.num.checked_mul(other.den) {
            Some(v) => v,
            None => { return None; },
        };
        let p2 = match self.den.checked_mul(other.num) {
            Some(v) => v,
            None => { return None; },
        };
        if other.num >= 0 {
            proof {
                assert(self.den as int * other.num as int > 0) by (nonlinear_arith)
                    requires
                        self.den > 0,
                        other.num > 0,
                ;
            }
            Some(Rat { num: p1, den: p2 })
        } else {
            let n = match (0i128).checked_sub(p1) {
                Some(v) => v,
                None => { return None; },
            };
            let d = match (0i128).checked_sub(p2) {
                Some(v) => v,
                None => { return None; },
            };
            proof {
                assert(-(self.den as int * other.num as int) > 0) by (nonlinear_arith)
                    requires
                        self.den > 0,
                        other.num < 0,
                ;
            }
            Some(Rat { num: n, den: d })
        }
    }

    /// Exact negation. `None` exactly when the negated numerator leaves `i128`.
    pub fn neg(self) -> (r: Option<Rat>)
        requires
            self.wf(),
        ensures
            r is Some <==> fits(-self@.n),
            r matches Some(s) ==> s.wf() && s@ == frac_neg(self@),
    {
        let n = match (0i128).checked_sub(self.num) {
            Some(v) => v,
            None => { return None; },
        };
        Some(Rat { num: n, den: self.den })
    }

    /// Decides value equality. Representations with equal components are
    /// recognized without any multiplication, so a recomputed value always
    /// compares equal to itself; otherwise the cross products decide, and
    /// a cross product that leaves `i128` is conservatively reported as a
    /// difference.
    pub fn eq_val(&self, other: &Rat) -> (r: bool)
        requires
            self.wf(),
            other.wf(),
        ensures
            r ==> frac_eq(self@, other@),
            self@ == other@ ==> r,
            !r ==> !frac_eq(self@, other@) || !fits(self@.n * other@.d) || !fits(
                other@.n * self@.d,
            ),
    {
        if self.num == other.num && self.den == other.den {
            return true;
        }
        let p1 = match self.num.checked_mul(other.den) {
            Some(v) => v,
            None => { return false; },
        };
        let p2 = match other.num.checked_mul(self.den) {
            Some(v) => v,
            None => { return false; },
        };
        p1 == p2
    }

    /// Decides whether this value is strictly below the other.
    /// `None` exactly when a cross product leaves `i128`.
    pub fn lt_val(&self, other: &Rat) -> (r: Option<bool>)
        requires
            self.wf(),
            other.wf(),
        ensures
            r is Some <==> fits(self@.n * other@.d) && fits(other@.n * self@.d),
            r matches Some(b) ==> (b <==> frac_lt(self@, other@)),
    {
        let p1 = match self.num.checked_mul(other.den) {
            Some(v) => v,
            None => { return None; },
        };
        let p2 = match other.num.checked_mul(self.den) {
            Some(v) => v,
            None => { return None; },
        };
        Some(p1 < p2)
    }

    /// Sign of the value: negative, zero or positive as `-1`, `0`, `1`.
    pub fn signum(&self) -> (r: i64)
        requires
            self.wf(),
        ensures
            r == 1 <==> self@.n > 0,
            r == 0 <==> self@.n == 0,
            r == -1 <==> self@.n < 0,
    {
        if self.num > 0 {
            1
        } else if self.num == 0 {
            0
        } else {
            -1
        }
    }
}

/// The square of a well-formed fraction is nonnegative, and positive
/// exactly when the fraction is nonzero.
pub proof fn lemma_frac_sq(f: Frac)
    requires
        frac_wf(f),
    ensures
        frac_mul(f, f).n >= 0,
        frac_mul(f, f).d > 0,
        f.n != 0 ==> frac_mul(f, f).n > 0,
{
    assert(f.n * f.n >= 0 && f.d * f.d > 0 && (f.n != 0 ==> f.n * f.n > 0)) by (nonlinear_arith)
        requires
            f.d > 0,
    ;
}

/// The sum of two nonnegative fractions is nonnegative, and positive if
/// either summand is.
pub proof fn lemma_frac_add_nonneg(a: Frac, b: Frac)
    requires
        a.n >= 0,
        a.d > 0,
        b.n >= 0,
        b.d > 0,
    ensures
        frac_add(a, b).n >= 0,
        frac_add(a, b).d > 0,
        (a.n > 0 || b.n > 0) ==> frac_add(a, b).n > 0,
{
    assert(a.n * b.d + b.n * a.d >= 0 && a.d * b.d > 0 && ((a.n > 0 || b.n > 0) ==> a.n * b.d + b.n
        * a.d > 0)) by (nonlinear_arith)
        requires
            a.n >= 0,
            a.d > 0,
            b.n >= 0,
            b.d > 0,
    ;
}

/// A representation of the nonnegative square root of a fraction:
/// numerator and denominator are each exact integer roots.
pub open spec fn sqrt_rep_of(m: Frac, f: Frac) -> bool {
    m.n >= 0 && m.d > 0 && m.n * m.n == f.n && m.d * m.d == f.d
}

/// Whether a fraction has such a componentwise square root.
pub open spec fn has_sqrt_rep(f: Frac) -> bool {
    (exists|k: int| k >= 0 && #[trigger] (k * k) == f.n) && (exists|k: int|
        k >= 0 && #[trigger] (k * k) == f.d)
}

/// The componentwise square root itself; meaningful exactly where
/// `has_sqrt_rep` holds, and then unique.
pub open spec fn sqrt_rep(f: Frac) -> Frac {
    Frac {
        n: choose|k: int| k >= 0 && #[trigger] (k * k) == f.n,
        d: choose|k: int| k >= 0 && #[trigger] (k * k) == f.d,
    }
}

/// The nonnegative componentwise square root is unique.
pub proof fn lemma_sqrt_rep_unique(m: Frac, f: Frac)
    requires
        sqrt_rep_of(m, f),
    ensures
        m == sqrt_rep(f),
{
    assert(m.n >= 0 && #[trigger] (m.n * m.n) == f.n);
    assert(m.d >= 0 && #[trigger] (m.d * m.d) == f.d);
    let n0 = choose|k: int| k >= 0 && #[trigger] (k * k) == f.n;
    let d0 = choose|k: int| k >= 0 && #[trigger] (k * k) == f.d;
    assert(n0 == m.n) by (nonlinear_arith)
        requires
            n0 >= 0,
            m.n >= 0,
            n0 * n0 == m.n * m.n,
    ;
    assert(d0 == m.d) by (nonlinear_arith)
        requires
            d0 >= 0,
            m.d >= 0,
            d0 * d0 == m.d * m.d,
    ;
    assert(m =~= sqrt_rep(f));
}

/// The exact integer square root, where one exists.
pub fn isqrt_exact(x: i128) -> (r: Option<i128>)
    requires
        x >= 0,
    ensures
        r matches Some(s) ==> 0 <= s && s * s == x,
        r is None ==> forall|k: int| #[trigger] (k * k) != x,
{
    let xu: u128 = x as u128;
    let mut lo: u128 = 0;
    let mut hi: u128 = 0x1_0000_0000_0000_0000;
    proof {
        assert(hi * hi > xu) by (nonlinear_arith)
            requires
                hi == 0x1_0000_0000_0000_0000u128,
                xu < 0x8000_0000_0000_0000_0000_0000_0000_0000u128,
        ;
    }
    while lo + 1 < hi
        invariant
            lo < hi,
            hi <= 0x1_0000_0000_0000_0000,
            lo * lo <= xu,
            xu < hi * hi,
            xu == x,
        decreases hi - lo,
    {
        let mid: u128 = lo + (hi - lo) / 2;
        proof {
            assert(mid < hi);
            assert(mid * mid <= u128::MAX) by (nonlinear_arith)
                requires
                    mid <= 0xffff_ffff_ffff_ffffu128,
            ;
        }
        if mid * mid <= xu {
            lo = mid;
        } else {
            hi = mid;
        }
    }
    if lo * lo == xu {
        proof {
            assert(lo * lo < 0x8000_0000_0000_0000_0000_0000_0000_0000u128);
            assert(lo < 0x1_0000_0000_0000_0000u128);
        }
        let s: i128 = lo as i128;
        proof {
            assert(s * s == x) by (nonlinear_arith)
                requires
                    lo * lo == xu,
                    s == lo as int,
                    xu == x,
                    lo < 0x1_0000_0000_0000_0000u128,
            ;
        }
        Some(s)
    } else {
        proof {
            assert forall|k: int| #[trigger] (k * k) != x by {
                lemma_no_root_between(lo as int, hi as int, x as int, k);
            }
        }
        None
    }
}

/// If `lo^2 < x < hi^2` with `hi == lo + 1`, then `x` is no square.
proof fn lemma_no_root_between(lo: int, hi: int, x: int, k: int)
    requires
        0 <= lo,
        hi == lo + 1,
        lo * lo <= x,
        lo * lo != x,
        x < hi * hi,
    ensures
        k * k != x,
{
    let a = if k >= 0 {
        k
    } else {
        -k
    };
    assert(a * a == k * k) by (nonlinear_arith)
        requires
            a == k || a == -k,
    ;
    if a <= lo {
        assert(a * a <= lo * lo) by (nonlinear_arith)
            requires
                0 <= a,
                a <= lo,
        ;
    } else {
        assert(a * a >= hi * hi) by (nonlinear_arith)
            requires
                a >= hi,
                hi > 0,
        ;
    }
}

impl Rat {
    /// The exact nonnegative square root, where the numerator and the
    /// denominator are each perfect squares. `None` exactly when one of
    /// them is not.
    pub fn sqrt_exact(self) -> (r: Option<Rat>)
        requires
            self.wf(),
            self@.n >= 0,
        ensures
            r matches Some(s) ==> s.wf() && sqrt_rep_of(s@, self@) && s@ == sqrt_rep(self@),
            r is Some <==> has_sqrt_rep(self@),
    {
        let n = match isqrt_exact(self.num) {
            Some(v) => v,
            None => { return None; },
        };
        let d = match isqrt_exact(self.den) {
            Some(v) => v,
            None => { return None; },
        };
        proof {
            assert(d != 0) by {
                if d == 0 {
                    assert(d * d == 0);
                }
            }
            lemma_sqrt_rep_unique(Frac { n: n as int, d: d as int }, self@);
        }
        Some(Rat { num: n, den: d })
    }
}

} // verus!
