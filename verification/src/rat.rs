//! Exact rational numbers.
//!
//! `Frac` is the mathematical model: a fraction of unbounded integers with a
//! positive denominator, never reduced. `Rat` is its executable counterpart
//! over `i128` fields; every operation that could leave the symmetric
//! machine range returns `None` instead of a wrong value, and its contract
//! says exactly when that happens.

use vstd::prelude::*;

verus! {

/// A mathematical fraction `n / d`. Well-formed when `d > 0`.
pub struct Frac {
    pub n: int,
    pub d: int,
}

impl Frac {
    /// Well-formedness: the denominator is positive.
    pub open spec fn wf(self) -> bool {
        self.d > 0
    }

    /// The two fractions denote the same rational number.
    pub open spec fn eqv(self, o: Frac) -> bool {
        self.n * o.d == o.n * self.d
    }

    pub open spec fn from_int(n: int) -> Frac {
        Frac { n: n, d: 1 }
    }

    pub open spec fn plusf(self, o: Frac) -> Frac {
        Frac { n: self.n * o.d + o.n * self.d, d: self.d * o.d }
    }

    pub open spec fn minusf(self, o: Frac) -> Frac {
        Frac { n: self.n * o.d - o.n * self.d, d: self.d * o.d }
    }

    pub open spec fn timesf(self, o: Frac) -> Frac {
        Frac { n: self.n * o.n, d: self.d * o.d }
    }

    /// Division, meaningful only for a positive divisor numerator
    /// (the one shape the simulation divides by).
    pub open spec fn overf(self, o: Frac) -> Frac {
        Frac { n: self.n * o.d, d: self.d * o.n }
    }

    pub open spec fn negf(self) -> Frac {
        Frac { n: -self.n, d: self.d }
    }

    /// Strictly positive as a rational number.
    pub open spec fn posf(self) -> bool {
        self.n > 0
    }

    /// Strictly negative as a rational number.
    pub open spec fn negativef(self) -> bool {
        self.n < 0
    }

    pub open spec fn gtf(self, o: Frac) -> bool {
        self.n * o.d > o.n * self.d
    }

    pub open spec fn ltf(self, o: Frac) -> bool {
        self.n * o.d < o.n * self.d
    }

    pub open spec fn lef(self, o: Frac) -> bool {
        self.n * o.d <= o.n * self.d
    }
}

/// The symmetric range of `i128` values the executable code keeps its
/// fields in; excluding `i128::MIN` keeps negation total.
pub open spec fn sfits(x: int) -> bool {
    -(i128::MAX as int) <= x <= i128::MAX as int
}

/// When the executable sum of two fractions stays representable.
pub open spec fn plus_fits(a: Frac, b: Frac) -> bool {
    &&& sfits(a.n * b.d)
    &&& sfits(b.n * a.d)
    &&& sfits(a.n * b.d + b.n * a.d)
    &&& sfits(a.d * b.d)
}

/// When the executable difference of two fractions stays representable.
pub open spec fn minus_fits(a: Frac, b: Frac) -> bool {
    &&& sfits(a.n * b.d)
    &&& sfits(b.n * a.d)
    &&& sfits(a.n * b.d - b.n * a.d)
    &&& sfits(a.d * b.d)
}

/// When the executable product of two fractions stays representable.
pub open spec fn times_fits(a: Frac, b: Frac) -> bool {
    &&& sfits(a.n * b.n)
    &&& sfits(a.d * b.d)
}

/// When the executable quotient of two fractions stays representable.
pub open spec fn over_fits(a: Frac, b: Frac) -> bool {
    &&& sfits(a.n * b.d)
    &&& sfits(a.d * b.n)
}

/// When the executable cross-multiplied comparison of two fractions
/// stays representable.
pub open spec fn cmp_fits(a: Frac, b: Frac) -> bool {
    &&& sfits(a.n * b.d)
    &&& sfits(b.n * a.d)
}

/// The product of two positive integers is positive: the fact behind
/// every denominator of a combined fraction being positive.
pub proof fn lemma_prod_pos(a: int, b: int)
    requires
        a > 0,
        b > 0,
    ensures
        a * b > 0,
{
    assert(a * b > 0) by (nonlinear_arith)
        requires
            a > 0,
            b > 0,
    ;
}

/// An exact rational number `num / den` on machine integers.
#[derive(Clone, Copy, Debug)]
pub struct Rat {
    pub num: i128,
    pub den: i128,
}

impl View for Rat {
    type V = Frac;

    open spec fn view(&self) -> Frac {
        Frac { n: self.num as int, d: self.den as int }
    }
}

/// Addition within the symmetric range, `None` outside it.
fn ca(x: i128, y: i128) -> (r: Option<i128>)
    ensures
        r == (if sfits(x + y) {
            Some((x + y) as i128)
        } else {
            None::<i128>
        }),
{
    match x.checked_add(y) {
        Some(v) => if v == i128::MIN {
            None
        } else {
            Some(v)
        },
        None => None,
    }
}

/// Subtraction within the symmetric range, `None` outside it.
fn cs(x: i128, y: i128) -> (r: Option<i128>)
    ensures
        r == (if sfits(x - y) {
            Some((x - y) as i128)
        } else {
            None::<i128>
        }),
{
    match x.checked_sub(y) {
        Some(v) => if v == i128::MIN {
            None
        } else {
            Some(v)
        },
        None => None,
    }
}

/// Multiplication within the symmetric range, `None` outside it.
fn cm(x: i128, y: i128) -> (r: Option<i128>)
    ensures
        r == (if sfits(x * y) {
            Some((x * y) as i128)
        } else {
            None::<i128>
        }),
{
    match x.checked_mul(y) {
        Some(v) => if v == i128::MIN {
            None
        } else {
            Some(v)
        },
        None => None,
    }
}

impl Rat {
    /// Executable well-formedness: positive denominator, and the numerator
    /// stays clear of the one asymmetric `i128` value.
    pub open spec fn ok(self) -> bool {
        &&& self.den > 0
        &&& self.num > i128::MIN
    }

    /// The rational `n / d`.
    pub fn new(n: i64, d: i64) -> (r: Rat)
        requires
            d > 0,
        ensures
            r.ok(),
            r@ == (Frac { n: n as int, d: d as int }),
    {
        Rat { num: n as i128, den: d as i128 }
    }

    /// The rational zero.
    pub fn zero() -> (r: Rat)
        ensures
            r.ok(),
            r@ == (Frac { n: 0int, d: 1int }),
    {
        Rat { num: 0, den: 1 }
    }

    /// Exact sum; `None` exactly when the unreduced result leaves the
    /// machine range.
    pub fn plus(&self, o: &Rat) -> (r: Option<Rat>)
        requires
            self.ok(),
            o.ok(),
        ensures
            r is Some <==> plus_fits(self@, o@),
            r matches Some(c) ==> c.ok() && c@ == self@.plusf(o@),
    {
        let p1 = match cm(self.num, o.den) {
            Some(v) => v,
            None => return None,
        };
        let p2 = match cm(o.num, self.den) {
            Some(v) => v,
            None => return None,
        };
        let n = match ca(p1, p2) {
            Some(v) => v,
            None => return None,
        };
        let d = match cm(self.den, o.den) {
            Some(v) => v,
            None => return None,
        };
        proof {
            assert(self.den as int * o.den as int > 0) by (nonlinear_arith)
                requires
                    self.den > 0,
                    o.den > 0,
            ;
        }
        Some(Rat { num: n, den: d })
    }

    /// Exact difference; `None` exactly when the unreduced result leaves
    /// the machine range.
    pub fn minus(&self, o: &Rat) -> (r: Option<Rat>)
        requires
            self.ok(),
            o.ok(),
        ensures
            r is Some <==> minus_fits(self@, o@),
            r matches Some(c) ==> c.ok() && c@ == self@.minusf(o@),
    {
        let p1 = match cm(self.num, o.den) {
            Some(v) => v,
            None => return None,
        };
        let p2 = match cm(o.num, self.den) {
            Some(v) => v,
            None => return None,
        };
        let n = match cs(p1, p2) {
            Some(v) => v,
            None => return None,
        };
        let d = match cm(self.den, o.den) {
            Some(v) => v,
            None => return None,
        };
        proof {
            assert(self.den as int * o.den as int > 0) by (nonlinear_arith)
                requires
                    self.den > 0,
                    o.den > 0,
            ;
        }
        Some(Rat { num: n, den: d })
    }

    /// Exact product; `None` exactly when the unreduced result leaves the
    /// machine range.
    pub fn times(&self, o: &Rat) -> (r: Option<Rat>)
        requires
            self.ok(),
            o.ok(),
        ensures
            r is Some <==> times_fits(self@, o@),
            r matches Some(c) ==> c.ok() && c@ == self@.timesf(o@),
    {
        let n = match cm(self.num, o.num) {
            Some(v) => v,
            None => return None,
        };
        let d = match cm(self.den, o.den) {
            Some(v) => v,
            None => return None,
        };
        proof {
            assert(self.den as int * o.den as int > 0) by (nonlinear_arith)
                requires
                    self.den > 0,
                    o.den > 0,
            ;
        }
        Some(Rat { num: n, den: d })
    }

    /// Exact quotient by a positive rational; `None` exactly when the
    /// unreduced result leaves the machine range.
    pub fn divide(&self, o: &Rat) -> (r: Option<Rat>)
        requires
            self.ok(),
            o.ok(),
            o@.posf(),
        ensures
            r is Some <==> over_fits(self@, o@),
            r matches Some(c) ==> c.ok() && c@ == self@.overf(o@),
    {
        let n = match cm(self.num, o.den) {
            Some(v) => v,
            None => return None,
        };
        let d = match cm(self.den, o.num) {
            Some(v) => v,
            None => return None,
        };
        proof {
            assert(self.den as int * o.num as int > 0) by (nonlinear_arith)
                requires
                    self.den > 0,
                    o.num > 0,
            ;
        }
        Some(Rat { num: n, den: d })
    }

    /// Exact negation; total, since `ok` keeps the numerator negatable.
    pub fn neg(&self) -> (r: Rat)
        requires
            self.ok(),
        ensures
            r.ok(),
            r@ == self@.negf(),
    {
        Rat { num: -self.num, den: self.den }
    }

    /// Strictly positive as a rational number; total.
    pub fn is_pos(&self) -> (r: bool)
        requires
            self.ok(),
        ensures
            r == self@.posf(),
    {
        self.num > 0
    }

    /// Strictly negative as a rational number; total.
    pub fn is_neg(&self) -> (r: bool)
        requires
            self.ok(),
        ensures
            r == self@.negativef(),
    {
        self.num < 0
    }

    /// Strict `>` by cross-multiplication; `None` exactly when a cross
    /// product leaves the machine range.
    pub fn gt(&self, o: &Rat) -> (r: Option<bool>)
        requires
            self.ok(),
            o.ok(),
        ensures
            r is Some <==> cmp_fits(self@, o@),
            r matches Some(b) ==> b == self@.gtf(o@),
    {
        let p1 = match cm(self.num, o.den) {
            Some(v) => v,
            None => return None,
        };
        let p2 = match cm(o.num, self.den) {
            Some(v) => v,
            None => return None,
        };
        Some(p1 > p2)
    }

    /// Strict `<` by cross-multiplication; `None` exactly when a cross
    /// product leaves the machine range.
    pub fn lt(&self, o: &Rat) -> (r: Option<bool>)
        requires
            self.ok(),
            o.ok(),
        ensures
            r is Some <==> cmp_fits(self@, o@),
            r matches Some(b) ==> b == self@.ltf(o@),
    {
        let p1 = match cm(self.num, o.den) {
            Some(v) => v,
            None => return None,
        };
        let p2 = match cm(o.num, self.den) {
            Some(v) => v,
            None => return None,
        };
        Some(p1 < p2)
    }

    /// `<=` by cross-multiplication; `None` exactly when a cross product
    /// leaves the machine range.
    pub fn le(&self, o: &Rat) -> (r: Option<bool>)
        requires
            self.ok(),
            o.ok(),
        ensures
            r is Some <==> cmp_fits(self@, o@),
            r matches Some(b) ==> b == self@.lef(o@),
    {
        let p1 = match cm(self.num, o.den) {
            Some(v) => v,
            None => return None,
        };
        let p2 = match cm(o.num, self.den) {
            Some(v) => v,
            None => return None,
        };
        Some(p1 <= p2)
    }

    /// Denotational equality by cross-multiplication; `None` exactly when
    /// a cross product leaves the machine range.
    pub fn eqv(&self, o: &Rat) -> (r: Option<bool>)
        requires
            self.ok(),
            o.ok(),
        ensures
            r is Some <==> cmp_fits(self@, o@),
            r matches Some(b) ==> b == self@.eqv(o@),
    {
        let p1 = match cm(self.num, o.den) {
            Some(v) => v,
            None => return None,
        };
        let p2 = match cm(o.num, self.den) {
            Some(v) => v,
            None => return None,
        };
        Some(p1 == p2)
    }
}

} // verus!
