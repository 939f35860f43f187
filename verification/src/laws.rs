//! The physical laws of the simulation, stated over the model and proved
//! once for all inputs: boundary reflection, the non-approach exemption,
//! idempotence of a pass on a resolved configuration, conservation of
//! momentum through an elastic impulse, and triviality on an empty store.

use vstd::prelude::*;
use crate::rat::{Frac, plus_fits, cmp_fits};
use crate::vec2::{FVec, lemma_opposite_sqr_len};
use crate::body::FCircle;
use crate::sim::{
    up_viol, down_viol, right_viol, bounce,
    neg_vy, neg_vx, intersecting, approaching, pair_guard, scan_from, pass_from, pass, resolve_from,
    integrate_from, reset_accels, update_model, total_energy_model, impulse_vels, Outcome, ScanOut,
};

verus! {

/// No wall condition holds for this body: it is not moving toward any
/// wall it has reached.
pub open spec fn no_boundary_hit(c: FCircle, bounds: FVec) -> bool {
    &&& !(c.velocity.y.posf() && c.position.y.plusf(c.radius).gtf(bounds.y))
    &&& !(c.velocity.y.negativef() && c.position.y.minusf(c.radius).ltf(bounds.y.negf()))
    &&& !(c.velocity.x.posf() && c.position.x.plusf(c.radius).gtf(bounds.x))
    &&& !(c.velocity.x.negativef() && c.position.x.minusf(c.radius).ltf(bounds.x.negf()))
}

/// A resolved configuration: no body violates a wall while moving toward
/// it, and no pair is overlapping while approaching.
pub open spec fn resolved(bodies: Seq<FCircle>, bounds: FVec) -> bool {
    &&& forall|i: int| 0 <= i < bodies.len() ==> no_boundary_hit(#[trigger] bodies[i], bounds)
    &&& forall|i: int, j: int|
        0 <= i < j < bodies.len() ==> !(intersecting(#[trigger] bodies[i], #[trigger] bodies[j])
            && approaching(bodies[i], bodies[j]))
}

/// Boundary reflection: a body moving toward a wall it has passed has
/// exactly its normal-axis velocity component negated; the tangential
/// component, the position, and everything else stay untouched. Stated
/// for the top wall; the algorithm treats the other three symmetrically.
pub proof fn lemma_boundary_reflection(c: FCircle, bounds: FVec)
    requires
        c.wf(),
        bounds.wf(),
        c.velocity.y.posf(),
        c.position.y.plusf(c.radius).gtf(bounds.y),
        plus_fits(c.position.y, c.radius),
        cmp_fits(c.position.y.plusf(c.radius), bounds.y),
    ensures
        bounce(c, bounds) == (neg_vy(c), true, false),
        bounce(c, bounds).0.velocity.y == c.velocity.y.negf(),
        bounce(c, bounds).0.velocity.x == c.velocity.x,
        bounce(c, bounds).0.position == c.position,
{
    assert(up_viol(c, bounds) == Some(true));
}

/// Boundary reflection at the bottom wall: the vertical velocity is
/// negated exactly, everything else kept.
pub proof fn lemma_boundary_reflection_bottom(c: FCircle, bounds: FVec)
    requires
        c.wf(),
        bounds.wf(),
        c.velocity.y.negativef(),
        c.position.y.minusf(c.radius).ltf(bounds.y.negf()),
        crate::rat::minus_fits(c.position.y, c.radius),
        cmp_fits(c.position.y.minusf(c.radius), bounds.y.negf()),
    ensures
        bounce(c, bounds) == (neg_vy(c), true, false),
{
    assert(down_viol(c, bounds) == Some(true));
}

/// Boundary reflection at the right wall: the horizontal velocity is
/// negated exactly, everything else kept.
pub proof fn lemma_boundary_reflection_right(c: FCircle, bounds: FVec)
    requires
        c.wf(),
        bounds.wf(),
        !(c.velocity.y.posf() && c.position.y.plusf(c.radius).gtf(bounds.y)),
        !(c.velocity.y.negativef() && c.position.y.minusf(c.radius).ltf(bounds.y.negf())),
        plus_fits(c.position.y, c.radius),
        cmp_fits(c.position.y.plusf(c.radius), bounds.y),
        crate::rat::minus_fits(c.position.y, c.radius),
        cmp_fits(c.position.y.minusf(c.radius), bounds.y.negf()),
        c.velocity.x.posf(),
        c.position.x.plusf(c.radius).gtf(bounds.x),
        plus_fits(c.position.x, c.radius),
        cmp_fits(c.position.x.plusf(c.radius), bounds.x),
    ensures
        bounce(c, bounds) == (neg_vx(c), true, false),
{
    assert(right_viol(c, bounds) == Some(true));
}

/// A body clear of every wall is left untouched by the boundary phase,
/// whether or not a wall check overflows.
proof fn lemma_bounce_noop(c: FCircle, bounds: FVec)
    requires
        no_boundary_hit(c, bounds),
    ensures
        bounce(c, bounds).0 == c,
        bounce(c, bounds).1 == false,
{
}

/// A scan over partners none of which is overlapping-and-approaching
/// reports no hit (or an overflow in a check), never an impulse.
proof fn lemma_scan_noop(bodies: Seq<FCircle>, marked: Seq<bool>, i: int, j: int)
    requires
        0 <= i < bodies.len(),
        forall|k: int|
            j <= k < bodies.len() ==> !(intersecting(bodies[i], #[trigger] bodies[k])
                && approaching(bodies[i], bodies[k])),
    ensures
        scan_from(bodies, marked, i, j) is NoHit || scan_from(bodies, marked, i, j) is Ovf,
    decreases bodies.len() - j,
{
    if j >= bodies.len() || j < 0 {
    } else {
        match pair_guard(bodies[i], bodies[j]) {
            None => {},
            Some(g) => {
                lemma_scan_noop(bodies, marked, i, j + 1);
            },
        }
    }
}

proof fn lemma_pass_from_noop(
    bodies: Seq<FCircle>,
    bounds: FVec,
    marked: Seq<bool>,
    changed: bool,
    i: int,
)
    requires
        resolved(bodies, bounds),
    ensures
        pass_from(bodies, bounds, marked, changed, i).0 == bodies,
        pass_from(bodies, bounds, marked, changed, i).1 == changed,
    decreases bodies.len() - i,
{
    if i >= bodies.len() || i < 0 {
    } else {
        lemma_bounce_noop(bodies[i], bounds);
        let br = bounce(bodies[i], bounds);
        if br.2 {
        } else {
            lemma_scan_noop(bodies, marked, i, i + 1);
            match scan_from(bodies, marked, i, i + 1) {
                ScanOut::Ovf => {},
                ScanOut::NoHit => {
                    lemma_pass_from_noop(bodies, bounds, marked, changed, i + 1);
                },
                ScanOut::Hit { j, va, vb } => {
                    assert(false);
                },
            }
        }
    }
}

/// Idempotence of a converged tick: a resolution pass over an already
/// resolved configuration performs zero corrections — the bodies come
/// out exactly as they went in and the pass reports no change.
pub proof fn lemma_resolved_pass_no_corrections(bodies: Seq<FCircle>, bounds: FVec)
    requires
        resolved(bodies, bounds),
    ensures
        pass(bodies, bounds).0 == bodies,
        pass(bodies, bounds).1 == false,
{
    lemma_pass_from_noop(bodies, bounds, Seq::new(bodies.len(), |k: int| false), false, 0);
}

/// The resolver converges immediately on a resolved configuration: with
/// any positive pass budget it reports convergence and returns the
/// bodies exactly as they were.
pub proof fn lemma_resolved_converges_at_once(bodies: Seq<FCircle>, bounds: FVec, fuel: nat)
    requires
        resolved(bodies, bounds),
        fuel >= 1,
        !pass(bodies, bounds).2,
    ensures
        resolve_from(bodies, bounds, fuel) == (bodies, Outcome::Converged),
{
    lemma_resolved_pass_no_corrections(bodies, bounds);
}

/// Non-approach exemption: two overlapping bodies that are not closing on
/// each other receive no impulse — a pass over the pair, clear of every
/// wall, changes nothing.
pub proof fn lemma_non_approach_exempt(a: FCircle, b: FCircle, bounds: FVec)
    requires
        a.wf(),
        b.wf(),
        intersecting(a, b),
        !approaching(a, b),
        no_boundary_hit(a, bounds),
        no_boundary_hit(b, bounds),
    ensures
        pass(seq![a, b], bounds).0 == seq![a, b],
        pass(seq![a, b], bounds).1 == false,
{
    let s = seq![a, b];
    assert(s[0] == a && s[1] == b);
    assert(resolved(s, bounds));
    lemma_resolved_pass_no_corrections(s, bounds);
}

/// An empty body store is trivial: a whole tick converges at once and
/// changes nothing, and the aggregate energy is exactly zero.
pub proof fn lemma_empty_store_trivial(bounds: FVec, gravity: Frac, ts: Frac, cap: nat)
    requires
        cap >= 1,
    ensures
        update_model(Seq::<FCircle>::empty(), bounds, gravity, ts, cap) == (
            Seq::<FCircle>::empty(),
            Outcome::Converged,
        ),
        total_energy_model(Seq::<FCircle>::empty(), bounds, gravity) == Some(Frac { n: 0, d: 1 }),
{
    let e = Seq::<FCircle>::empty();
    assert(integrate_from(e, gravity, ts, 0) == (e, false));
    assert(pass(e, bounds) == (e, false, false));
    assert(resolve_from(e, bounds, cap) == (e, Outcome::Converged));
    assert(reset_accels(e) =~= e);
}

/// The total of two mass-weighted quantities is unchanged by moving an
/// amount from one to the other: the arithmetic core of momentum
/// conservation, for exchanged amounts `t` and `u` whose mass-weighted
/// fractions are exact negations of each other.
proof fn lemma_weighted_cancel(x: Frac, y: Frac, t: Frac, u: Frac, ma: Frac, mb: Frac)
    requires
        t.n * ma.n == -(u.n * mb.n),
        t.d * ma.d == u.d * mb.d,
    ensures
        x.minusf(t).timesf(ma).plusf(y.minusf(u).timesf(mb)).eqv(
            x.timesf(ma).plusf(y.timesf(mb)),
        ),
{
    let lhs = x.minusf(t).timesf(ma).plusf(y.minusf(u).timesf(mb));
    let rhs = x.timesf(ma).plusf(y.timesf(mb));
    let xn = x.n;
    let xd = x.d;
    let yn = y.n;
    let yd = y.d;
    let tn = t.n;
    let td = t.d;
    let un = u.n;
    let ud = u.d;
    let man = ma.n;
    let mad = ma.d;
    let mbn = mb.n;
    let mbd = mb.d;
    // Named atoms: the mass-weighted numerators, the reduced denominators,
    // and the common scale factor between the two denominators.
    let xm = xn * man;
    let ym = yn * mbn;
    let k = un * mbn;
    let a1 = xd * mad;
    let b1 = yd * mbd;
    let w = td * mad;
    let scale = td * ud;

    assert(lhs.n == ((xn * td - tn * xd) * man) * ((yd * ud) * mbd) + ((yn * ud - un * yd) * mbn)
        * ((xd * td) * mad));
    assert(lhs.d == ((xd * td) * mad) * ((yd * ud) * mbd));
    assert(rhs.n == xm * b1 + ym * a1);
    assert(rhs.d == a1 * b1);

    // The denominators differ by the exact factor `scale`.
    assert((xd * td) * mad == (xd * mad) * td) by (nonlinear_arith);
    assert((yd * ud) * mbd == (yd * mbd) * ud) by (nonlinear_arith);
    assert((a1 * td) * (b1 * ud) == (a1 * b1) * scale) by (nonlinear_arith)
        requires
            scale == td * ud,
    ;
    assert(lhs.d == rhs.d * scale);

    // First summand of the numerator, split and reordered.
    assert((xn * td - tn * xd) * man == xm * td - (tn * man) * xd) by (nonlinear_arith)
        requires
            xm == xn * man,
    ;
    assert((xm * td - (tn * man) * xd) * ((yd * ud) * mbd) == (xm * td) * ((yd * ud) * mbd) - ((tn
        * man) * xd) * ((yd * ud) * mbd)) by (nonlinear_arith);
    assert((xm * td) * (b1 * ud) == (xm * b1) * scale) by (nonlinear_arith)
        requires
            scale == td * ud,
    ;
    assert((tn * man) * xd == -(k * xd)) by (nonlinear_arith)
        requires
            tn * man == -k,
    ;
    assert((-(k * xd)) * ((yd * ud) * mbd) == -((k * xd) * ((yd * ud) * mbd))) by (nonlinear_arith);

    // Second summand of the numerator, split and reordered.
    assert((yn * ud - un * yd) * mbn == ym * ud - k * yd) by (nonlinear_arith)
        requires
            ym == yn * mbn,
            k == un * mbn,
    ;
    assert((ym * ud - k * yd) * ((xd * td) * mad) == (ym * ud) * ((xd * td) * mad) - (k * yd) * ((
    xd * td) * mad)) by (nonlinear_arith);
    assert((ym * ud) * (a1 * td) == (ym * a1) * scale) by (nonlinear_arith)
        requires
            scale == td * ud,
    ;

    // The two exchanged terms cancel exactly.
    assert((yd * ud) * mbd == yd * w) by (nonlinear_arith)
        requires
            w == td * mad,
            td * mad == ud * mbd,
    ;
    assert((k * xd) * (yd * w) == (k * yd) * (xd * w)) by (nonlinear_arith);
    assert((xd * td) * mad == xd * w) by (nonlinear_arith)
        requires
            w == td * mad,
    ;

    assert(lhs.n == rhs.n * scale) by (nonlinear_arith)
        requires
            lhs.n == (xm * td) * ((yd * ud) * mbd) - ((tn * man) * xd) * ((yd * ud) * mbd) + ((ym
                * ud) * ((xd * td) * mad) - (k * yd) * ((xd * td) * mad)),
            (xm * td) * ((yd * ud) * mbd) == (xm * b1) * scale,
            ((tn * man) * xd) * ((yd * ud) * mbd) == -((k * yd) * ((xd * td) * mad)),
            (ym * ud) * ((xd * td) * mad) == (ym * a1) * scale,
            rhs.n == xm * b1 + ym * a1,
    ;
    assert(lhs.n * rhs.d == rhs.n * lhs.d) by (nonlinear_arith)
        requires
            lhs.n == rhs.n * scale,
            lhs.d == rhs.d * scale,
    ;
}

/// Momentum conservation: an elastic impulse between two approaching
/// bodies leaves the total momentum `mass_a * velocity_a + mass_b *
/// velocity_b` exactly unchanged, component by component.
pub proof fn lemma_impulse_momentum(a: FCircle, b: FCircle)
    requires
        a.wf(),
        b.wf(),
        approaching(a, b),
    ensures
        ({
            let p = impulse_vels(a, b);
            let before = a.velocity.scalev(a.mass).plusv(b.velocity.scalev(b.mass));
            let after = p.0.scalev(a.mass).plusv(p.1.scalev(b.mass));
            after.x.eqv(before.x) && after.y.eqv(before.y)
        }),
{
    let two = Frac { n: 2, d: 1 };
    let m_sum = a.mass.plusf(b.mass);
    let d_ab = a.position.minusv(b.position);
    let d_ba = b.position.minusv(a.position);
    let rel_a = a.velocity.minusv(b.velocity);
    let rel_b = b.velocity.minusv(a.velocity);
    let s_a = rel_a.dotv(d_ab);
    let s_b = rel_b.dotv(d_ba);
    let q_a = d_ab.sqr_len();
    let q_b = d_ba.sqr_len();

    // The pair is symmetric: the reversed difference vectors are exact
    // negations, so the closing speed and squared distance agree.
    assert(d_ba.x.n == -d_ab.x.n && d_ba.x.d == d_ab.x.d);
    assert(d_ba.y.n == -d_ab.y.n && d_ba.y.d == d_ab.y.d);
    assert(rel_b.x.n == -rel_a.x.n && rel_b.x.d == rel_a.x.d);
    assert(rel_b.y.n == -rel_a.y.n && rel_b.y.d == rel_a.y.d);
    assert(s_b.n == s_a.n) by (nonlinear_arith)
        requires
            s_b.n == (rel_b.x.n * d_ba.x.n) * (rel_b.y.d * d_ba.y.d) + (rel_b.y.n * d_ba.y.n) * (
            rel_b.x.d * d_ba.x.d),
            s_a.n == (rel_a.x.n * d_ab.x.n) * (rel_a.y.d * d_ab.y.d) + (rel_a.y.n * d_ab.y.n) * (
            rel_a.x.d * d_ab.x.d),
            rel_b.x.n == -rel_a.x.n,
            rel_b.x.d == rel_a.x.d,
            rel_b.y.n == -rel_a.y.n,
            rel_b.y.d == rel_a.y.d,
            d_ba.x.n == -d_ab.x.n,
            d_ba.x.d == d_ab.x.d,
            d_ba.y.n == -d_ab.y.n,
            d_ba.y.d == d_ab.y.d,
    ;
    assert(s_b.d == s_a.d);
    assert(s_b == s_a);
    lemma_opposite_sqr_len(a.position, b.position);
    assert(q_b == q_a);

    let sq = s_a.overf(q_a);
    let k_a = two.timesf(b.mass).overf(m_sum).timesf(sq);
    let k_b = two.timesf(a.mass).overf(m_sum).timesf(sq);
    let p = impulse_vels(a, b);
    assert(p.0 == a.velocity.minusv(d_ab.scalev(k_a)));
    assert(p.1 == b.velocity.minusv(d_ba.scalev(k_b)));

    let tx = d_ab.x.timesf(k_a);
    let ux = d_ba.x.timesf(k_b);
    let ty = d_ab.y.timesf(k_a);
    let uy = d_ba.y.timesf(k_b);
    assert(tx.n * a.mass.n == -(ux.n * b.mass.n) && ty.n * a.mass.n == -(uy.n * b.mass.n))
        by (nonlinear_arith)
        requires
            tx.n == d_ab.x.n * k_a.n,
            ux.n == d_ba.x.n * k_b.n,
            ty.n == d_ab.y.n * k_a.n,
            uy.n == d_ba.y.n * k_b.n,
            d_ba.x.n == -d_ab.x.n,
            d_ba.y.n == -d_ab.y.n,
            k_a.n == ((2 * b.mass.n) * m_sum.d) * sq.n,
            k_b.n == ((2 * a.mass.n) * m_sum.d) * sq.n,
    ;
    assert(tx.d * a.mass.d == ux.d * b.mass.d && ty.d * a.mass.d == uy.d * b.mass.d)
        by (nonlinear_arith)
        requires
            tx.d == d_ab.x.d * k_a.d,
            ux.d == d_ba.x.d * k_b.d,
            ty.d == d_ab.y.d * k_a.d,
            uy.d == d_ba.y.d * k_b.d,
            d_ba.x.d == d_ab.x.d,
            d_ba.y.d == d_ab.y.d,
            k_a.d == (b.mass.d * m_sum.n) * sq.d,
            k_b.d == (a.mass.d * m_sum.n) * sq.d,
    ;
    lemma_weighted_cancel(a.velocity.x, b.velocity.x, tx, ux, a.mass, b.mass);
    lemma_weighted_cancel(a.velocity.y, b.velocity.y, ty, uy, a.mass, b.mass);
}

} // verus!
