//! 2D vectors of exact rationals, with the few operations the simulation
//! needs: componentwise sum and difference, scaling, dot product and
//! squared length.

use vstd::prelude::*;
use crate::rat::{Frac, Rat};
use crate::rat::{plus_fits, minus_fits, times_fits};

verus! {

/// The mathematical model of a 2D vector: a pair of fractions.
pub struct FVec {
    pub x: Frac,
    pub y: Frac,
}

impl FVec {
    pub open spec fn wf(self) -> bool {
        self.x.wf() && self.y.wf()
    }

    pub open spec fn plusv(self, o: FVec) -> FVec {
        FVec { x: self.x.plusf(o.x), y: self.y.plusf(o.y) }
    }

    pub open spec fn minusv(self, o: FVec) -> FVec {
        FVec { x: self.x.minusf(o.x), y: self.y.minusf(o.y) }
    }

    pub open spec fn scalev(self, k: Frac) -> FVec {
        FVec { x: self.x.timesf(k), y: self.y.timesf(k) }
    }

    pub open spec fn dotv(self, o: FVec) -> Frac {
        self.x.timesf(o.x).plusf(self.y.timesf(o.y))
    }

    pub open spec fn sqr_len(self) -> Frac {
        self.dotv(self)
    }
}

/// When the executable componentwise sum stays representable.
pub open spec fn vplus_fits(a: FVec, b: FVec) -> bool {
    plus_fits(a.x, b.x) && plus_fits(a.y, b.y)
}

/// When the executable componentwise difference stays representable.
pub open spec fn vminus_fits(a: FVec, b: FVec) -> bool {
    minus_fits(a.x, b.x) && minus_fits(a.y, b.y)
}

/// When the executable scaling stays representable.
pub open spec fn vscale_fits(a: FVec, k: Frac) -> bool {
    times_fits(a.x, k) && times_fits(a.y, k)
}

/// When the executable dot product stays representable.
pub open spec fn vdot_fits(a: FVec, b: FVec) -> bool {
    &&& times_fits(a.x, b.x)
    &&& times_fits(a.y, b.y)
    &&& plus_fits(a.x.timesf(b.x), a.y.timesf(b.y))
}

/// A vector whose dot product with anything is nonzero cannot be the
/// zero vector, so its squared length is strictly positive. This is what
/// makes the division in the elastic impulse safe: the approach test
/// already rules out coincident centers.
pub proof fn lemma_dot_nonzero_sqr(u: FVec, v: FVec)
    requires
        u.wf(),
        v.wf(),
        u.dotv(v).n != 0,
    ensures
        u.sqr_len().posf(),
{
    let uxn = u.x.n;
    let uxd = u.x.d;
    let uyn = u.y.n;
    let uyd = u.y.d;
    assert(u.dotv(v).n == (uxn * v.x.n) * (uyd * v.y.d) + (uyn * v.y.n) * (uxd * v.x.d));
    if uxn == 0 && uyn == 0 {
        assert((0 * v.x.n) * (uyd * v.y.d) == 0) by (nonlinear_arith);
        assert((0 * v.y.n) * (uxd * v.x.d) == 0) by (nonlinear_arith);
        assert(false);
    }
    assert(u.sqr_len().n == (uxn * uxn) * (uyd * uyd) + (uyn * uyn) * (uxd * uxd));
    assert((uxn * uxn) * (uyd * uyd) + (uyn * uyn) * (uxd * uxd) > 0) by (nonlinear_arith)
        requires
            uxd > 0,
            uyd > 0,
            uxn != 0 || uyn != 0,
    ;
}

/// The squared length of a difference does not depend on its orientation:
/// `|p - q|^2` and `|q - p|^2` are the same fraction, field for field.
pub proof fn lemma_opposite_sqr_len(p: FVec, q: FVec)
    requires
        p.wf(),
        q.wf(),
    ensures
        p.minusv(q).sqr_len() == q.minusv(p).sqr_len(),
{
    let u = p.minusv(q);
    let w = q.minusv(p);
    assert(u.x.n == -w.x.n && u.x.d == w.x.d && u.y.n == -w.y.n && u.y.d == w.y.d);
    assert(u.x.n * u.x.n == w.x.n * w.x.n) by (nonlinear_arith)
        requires
            u.x.n == -w.x.n,
    ;
    assert(u.y.n * u.y.n == w.y.n * w.y.n) by (nonlinear_arith)
        requires
            u.y.n == -w.y.n,
    ;
    assert(u.sqr_len() == w.sqr_len());
}

/// An executable 2D vector of exact rationals.
#[derive(Clone, Copy, Debug)]
pub struct Vec2 {
    pub x: Rat,
    pub y: Rat,
}

impl View for Vec2 {
    type V = FVec;

    open spec fn view(&self) -> FVec {
        FVec { x: self.x@, y: self.y@ }
    }
}

impl Vec2 {
    pub open spec fn ok(self) -> bool {
        self.x.ok() && self.y.ok()
    }

    /// The vector `(x, y)`.
    pub fn new(x: Rat, y: Rat) -> (r: Vec2)
        requires
            x.ok(),
            y.ok(),
        ensures
            r.ok(),
            r@ == (FVec { x: x@, y: y@ }),
    {
        Vec2 { x, y }
    }

    /// The zero vector.
    pub fn zero() -> (r: Vec2)
        ensures
            r.ok(),
            r@ == (FVec { x: Frac { n: 0int, d: 1int }, y: Frac { n: 0int, d: 1int } }),
    {
        Vec2 { x: Rat::zero(), y: Rat::zero() }
    }

    /// Exact componentwise sum; `None` exactly when a component leaves the
    /// machine range.
    pub fn plus(&self, o: &Vec2) -> (r: Option<Vec2>)
        requires
            self.ok(),
            o.ok(),
        ensures
            r is Some <==> vplus_fits(self@, o@),
            r matches Some(c) ==> c.ok() && c@ == self@.plusv(o@),
    {
        let x = match self.x.plus(&o.x) {
            Some(v) => v,
            None => return None,
        };
        let y = match self.y.plus(&o.y) {
            Some(v) => v,
            None => return None,
        };
        Some(Vec2 { x, y })
    }

    /// Exact componentwise difference; `None` exactly when a component
    /// leaves the machine range.
    pub fn minus(&self, o: &Vec2) -> (r: Option<Vec2>)
        requires
            self.ok(),
            o.ok(),
        ensures
            r is Some <==> vminus_fits(self@, o@),
            r matches Some(c) ==> c.ok() && c@ == self@.minusv(o@),
    {
        let x = match self.x.minus(&o.x) {
            Some(v) => v,
            None => return None,
        };
        let y = match self.y.minus(&o.y) {
            Some(v) => v,
            None => return None,
        };
        Some(Vec2 { x, y })
    }

    /// Exact scaling by a rational; `None` exactly when a component leaves
    /// the machine range.
    pub fn scale(&self, k: &Rat) -> (r: Option<Vec2>)
        requires
            self.ok(),
            k.ok(),
        ensures
            r is Some <==> vscale_fits(self@, k@),
            r matches Some(c) ==> c.ok() && c@ == self@.scalev(k@),
    {
        let x = match self.x.times(k) {
            Some(v) => v,
            None => return None,
        };
        let y = match self.y.times(k) {
            Some(v) => v,
            None => return None,
        };
        Some(Vec2 { x, y })
    }

    /// Exact dot product; `None` exactly when an intermediate leaves the
    /// machine range.
    pub fn dot(&self, o: &Vec2) -> (r: Option<Rat>)
        requires
            self.ok(),
            o.ok(),
        ensures
            r is Some <==> vdot_fits(self@, o@),
            r matches Some(c) ==> c.ok() && c@ == self@.dotv(o@),
    {
        let tx = match self.x.times(&o.x) {
            Some(v) => v,
            None => return None,
        };
        let ty = match self.y.times(&o.y) {
            Some(v) => v,
            None => return None,
        };
        tx.plus(&ty)
    }

    /// Exact squared length; `None` exactly when an intermediate leaves
    /// the machine range.
    pub fn sqr_length(&self) -> (r: Option<Rat>)
        requires
            self.ok(),
        ensures
            r is Some <==> vdot_fits(self@, self@),
            r matches Some(c) ==> c.ok() && c@ == self@.sqr_len(),
    {
        self.dot(self)
    }
}

} // verus!
