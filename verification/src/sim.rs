//! The simulation step: semi-implicit Euler integration, then repeated
//! collision-resolution passes until a pass produces no correction.
//!
//! Every executable function mirrors a specification-level model exactly:
//! the model computes over unbounded fractions and says, op for op, when
//! the executable computation leaves the machine range. One policy choice
//! is documented here once: a body that bounces off a wall in a pass skips
//! its own pairwise scan for that pass (boundary and pairwise corrections
//! are mutually exclusive per body per pass), and a pass cap bounds the
//! fixed-point loop, reporting `PassLimit` instead of looping forever.

use vstd::prelude::*;
use crate::rat::{Frac, Rat};
use crate::rat::{plus_fits, minus_fits, times_fits, over_fits, cmp_fits};
use crate::vec2::{FVec, Vec2, vplus_fits, vminus_fits, vscale_fits, vdot_fits};
use crate::vec2::{lemma_dot_nonzero_sqr, lemma_opposite_sqr_len};
use crate::body::{FCircle, Circle, energy_fits, energy_of};

verus! {

/// How a simulation step ended.
#[derive(Clone, Copy, Debug, PartialEq, Eq, Structural)]
pub enum Outcome {
    /// A resolution pass found nothing left to correct.
    Converged,
    /// The pass cap was reached; the partially resolved state is kept.
    PassLimit,
    /// An exact intermediate left the machine range; the state computed
    /// so far is kept.
    Overflow,
}

/// The bodies of an executable sequence, as their models.
pub open spec fn views(s: Seq<Circle>) -> Seq<FCircle> {
    Seq::new(s.len(), |k: int| s[k]@)
}

/// Every body of the sequence is executable-well-formed.
pub open spec fn all_ok(s: Seq<Circle>) -> bool {
    forall|k: int| 0 <= k < s.len() ==> (#[trigger] s[k]).ok()
}

/// Every model body is well-formed.
pub open spec fn all_wf(s: Seq<FCircle>) -> bool {
    forall|k: int| 0 <= k < s.len() ==> (#[trigger] s[k]).wf()
}

/// `b` is `a` with at most the velocities changed.
pub open spec fn velocity_only_change(a: Seq<FCircle>, b: Seq<FCircle>) -> bool {
    &&& a.len() == b.len()
    &&& forall|k: int|
        0 <= k < a.len() ==> {
            &&& (#[trigger] b[k]).position == a[k].position
            &&& b[k].acceleration == a[k].acceleration
            &&& b[k].mass == a[k].mass
            &&& b[k].radius == a[k].radius
        }
}

/// `b` keeps every mass and radius of `a`: the immutable fields.
pub open spec fn same_body_consts(a: Seq<FCircle>, b: Seq<FCircle>) -> bool {
    &&& a.len() == b.len()
    &&& forall|k: int|
        0 <= k < a.len() ==> (#[trigger] b[k]).mass == a[k].mass && b[k].radius == a[k].radius
}

// ---------------------------------------------------------------------
// Boundary checks: four wall conditions, each tried only when the
// velocity points toward that wall.
// ---------------------------------------------------------------------

/// Moving up and past the top wall? `None` when a check overflows.
pub open spec fn up_viol(c: FCircle, bounds: FVec) -> Option<bool> {
    if !plus_fits(c.position.y, c.radius) {
        None
    } else {
        let top = c.position.y.plusf(c.radius);
        if !cmp_fits(top, bounds.y) {
            None
        } else {
            Some(top.gtf(bounds.y))
        }
    }
}

/// Moving down and past the bottom wall? `None` when a check overflows.
pub open spec fn down_viol(c: FCircle, bounds: FVec) -> Option<bool> {
    if !minus_fits(c.position.y, c.radius) {
        None
    } else {
        let bot = c.position.y.minusf(c.radius);
        if !cmp_fits(bot, bounds.y.negf()) {
            None
        } else {
            Some(bot.ltf(bounds.y.negf()))
        }
    }
}

/// Moving right and past the right wall? `None` when a check overflows.
pub open spec fn right_viol(c: FCircle, bounds: FVec) -> Option<bool> {
    if !plus_fits(c.position.x, c.radius) {
        None
    } else {
        let side = c.position.x.plusf(c.radius);
        if !cmp_fits(side, bounds.x) {
            None
        } else {
            Some(side.gtf(bounds.x))
        }
    }
}

/// Moving left and past the left wall? `None` when a check overflows.
pub open spec fn left_viol(c: FCircle, bounds: FVec) -> Option<bool> {
    if !minus_fits(c.position.x, c.radius) {
        None
    } else {
        let side = c.position.x.minusf(c.radius);
        if !cmp_fits(side, bounds.x.negf()) {
            None
        } else {
            Some(side.ltf(bounds.x.negf()))
        }
    }
}

/// The body with its vertical velocity negated.
pub open spec fn neg_vy(c: FCircle) -> FCircle {
    FCircle { velocity: FVec { x: c.velocity.x, y: c.velocity.y.negf() }, ..c }
}

/// The body with its horizontal velocity negated.
pub open spec fn neg_vx(c: FCircle) -> FCircle {
    FCircle { velocity: FVec { x: c.velocity.x.negf(), y: c.velocity.y }, ..c }
}

/// One body's boundary phase: `(body after, bounced, overflowed)`.
/// The four wall checks run in order; the first that holds negates the
/// normal-axis velocity component and ends the phase.
pub open spec fn bounce(c: FCircle, bounds: FVec) -> (FCircle, bool, bool) {
    if c.velocity.y.posf() {
        match up_viol(c, bounds) {
            None => (c, false, true),
            Some(true) => (neg_vy(c), true, false),
            Some(false) => bounce_down(c, bounds),
        }
    } else {
        bounce_down(c, bounds)
    }
}

pub open spec fn bounce_down(c: FCircle, bounds: FVec) -> (FCircle, bool, bool) {
    if c.velocity.y.negativef() {
        match down_viol(c, bounds) {
            None => (c, false, true),
            Some(true) => (neg_vy(c), true, false),
            Some(false) => bounce_right(c, bounds),
        }
    } else {
        bounce_right(c, bounds)
    }
}

pub open spec fn bounce_right(c: FCircle, bounds: FVec) -> (FCircle, bool, bool) {
    if c.velocity.x.posf() {
        match right_viol(c, bounds) {
            None => (c, false, true),
            Some(true) => (neg_vx(c), true, false),
            Some(false) => bounce_left(c, bounds),
        }
    } else {
        bounce_left(c, bounds)
    }
}

pub open spec fn bounce_left(c: FCircle, bounds: FVec) -> (FCircle, bool, bool) {
    if c.velocity.x.negativef() {
        match left_viol(c, bounds) {
            None => (c, false, true),
            Some(true) => (neg_vx(c), true, false),
            Some(false) => (c, false, false),
        }
    } else {
        (c, false, false)
    }
}

// ---------------------------------------------------------------------
// The pairwise check and the elastic impulse.
// ---------------------------------------------------------------------

/// The bodies overlap: squared distance at most the squared radius sum.
pub open spec fn intersecting(a: FCircle, b: FCircle) -> bool {
    let d = b.position.minusv(a.position);
    let rs = a.radius.plusf(b.radius);
    d.sqr_len().lef(rs.timesf(rs))
}

/// The bodies are closing on each other, not separating.
pub open spec fn approaching(a: FCircle, b: FCircle) -> bool {
    let d = b.position.minusv(a.position);
    let rel = a.velocity.minusv(b.velocity);
    d.dotv(rel).posf()
}

/// The pairwise guard as the executable code evaluates it:
/// `Some((intersecting, approaching))`, or `None` when a check overflows.
pub open spec fn pair_guard(a: FCircle, b: FCircle) -> Option<(bool, bool)> {
    if !vminus_fits(b.position, a.position) {
        None
    } else {
        let d = b.position.minusv(a.position);
        if !vdot_fits(d, d) {
            None
        } else if !plus_fits(a.radius, b.radius) {
            None
        } else {
            let rs = a.radius.plusf(b.radius);
            if !times_fits(rs, rs) {
                None
            } else if !cmp_fits(d.sqr_len(), rs.timesf(rs)) {
                None
            } else if !vminus_fits(a.velocity, b.velocity) {
                None
            } else {
                let rel = a.velocity.minusv(b.velocity);
                if !vdot_fits(d, rel) {
                    None
                } else {
                    Some((intersecting(a, b), approaching(a, b)))
                }
            }
        }
    }
}

/// The velocities after a standard two-body elastic impulse along the
/// contact normal, exactly as real-number physics gives them:
/// `v_i' = v_i - (2 m_j / (m_i + m_j)) * (dot(v_i - v_j, p_i - p_j) / |p_i - p_j|^2) * (p_i - p_j)`
/// and symmetrically for the partner.
pub open spec fn impulse_vels(a: FCircle, b: FCircle) -> (FVec, FVec) {
    let two = Frac { n: 2, d: 1 };
    let m_sum = a.mass.plusf(b.mass);
    let d_ab = a.position.minusv(b.position);
    let s_a = a.velocity.minusv(b.velocity).dotv(d_ab);
    let k_a = two.timesf(b.mass).overf(m_sum).timesf(s_a.overf(d_ab.sqr_len()));
    let va = a.velocity.minusv(d_ab.scalev(k_a));
    let d_ba = b.position.minusv(a.position);
    let s_b = b.velocity.minusv(a.velocity).dotv(d_ba);
    let k_b = two.timesf(a.mass).overf(m_sum).timesf(s_b.overf(d_ba.sqr_len()));
    let vb = b.velocity.minusv(d_ba.scalev(k_b));
    (va, vb)
}

/// When the executable impulse computation stays representable, op for op.
pub open spec fn impulse_fits(a: FCircle, b: FCircle) -> bool {
    let two = Frac { n: 2, d: 1 };
    let m_sum = a.mass.plusf(b.mass);
    let d_ab = a.position.minusv(b.position);
    let q_a = d_ab.sqr_len();
    let tb = two.timesf(b.mass);
    let w_a = tb.overf(m_sum);
    let rel_a = a.velocity.minusv(b.velocity);
    let s_a = rel_a.dotv(d_ab);
    let sq_a = s_a.overf(q_a);
    let k_a = w_a.timesf(sq_a);
    let imp_a = d_ab.scalev(k_a);
    let d_ba = b.position.minusv(a.position);
    let q_b = d_ba.sqr_len();
    let ta = two.timesf(a.mass);
    let w_b = ta.overf(m_sum);
    let rel_b = b.velocity.minusv(a.velocity);
    let s_b = rel_b.dotv(d_ba);
    let sq_b = s_b.overf(q_b);
    let k_b = w_b.timesf(sq_b);
    let imp_b = d_ba.scalev(k_b);
    &&& vminus_fits(a.position, b.position)
    &&& vdot_fits(d_ab, d_ab)
    &&& plus_fits(a.mass, b.mass)
    &&& times_fits(two, b.mass)
    &&& over_fits(tb, m_sum)
    &&& vminus_fits(a.velocity, b.velocity)
    &&& vdot_fits(rel_a, d_ab)
    &&& over_fits(s_a, q_a)
    &&& times_fits(w_a, sq_a)
    &&& vscale_fits(d_ab, k_a)
    &&& vminus_fits(a.velocity, imp_a)
    &&& vminus_fits(b.position, a.position)
    &&& vdot_fits(d_ba, d_ba)
    &&& times_fits(two, a.mass)
    &&& over_fits(ta, m_sum)
    &&& vminus_fits(b.velocity, a.velocity)
    &&& vdot_fits(rel_b, d_ba)
    &&& over_fits(s_b, q_b)
    &&& times_fits(w_b, sq_b)
    &&& vscale_fits(d_ba, k_b)
    &&& vminus_fits(b.velocity, imp_b)
}

// ---------------------------------------------------------------------
// One pass: boundary phase per body, then at most one pairwise
// correction per body in index order.
// ---------------------------------------------------------------------

/// What a pairwise scan for body `i` finds.
pub enum ScanOut {
    /// No unmarked partner `j > i` is overlapping and approaching.
    NoHit,
    /// Partner `j` collides with `i`; the two corrected velocities.
    Hit { j: int, va: FVec, vb: FVec },
    /// A check or the impulse left the machine range.
    Ovf,
}

/// Scan partners `j, j+1, ...` of body `i` for the first collision.
pub open spec fn scan_from(bodies: Seq<FCircle>, marked: Seq<bool>, i: int, j: int) -> ScanOut
    decreases bodies.len() - j,
{
    if j >= bodies.len() || j < 0 {
        ScanOut::NoHit
    } else {
        let a = bodies[i];
        let b = bodies[j];
        match pair_guard(a, b) {
            None => ScanOut::Ovf,
            Some(g) => {
                if g.0 && g.1 && !marked[j] {
                    if impulse_fits(a, b) {
                        ScanOut::Hit { j, va: impulse_vels(a, b).0, vb: impulse_vels(a, b).1 }
                    } else {
                        ScanOut::Ovf
                    }
                } else {
                    scan_from(bodies, marked, i, j + 1)
                }
            },
        }
    }
}

/// The body with a new velocity, everything else kept.
pub open spec fn with_vel(c: FCircle, v: FVec) -> FCircle {
    FCircle { velocity: v, ..c }
}

/// One resolution pass from body `i` on: `(bodies after, changed,
/// overflowed)`. A body that bounces off a wall is marked and skips its
/// own pairwise scan; a body that takes a pairwise impulse marks its
/// partner, which is then skipped as a partner for the rest of the pass.
pub open spec fn pass_from(
    bodies: Seq<FCircle>,
    bounds: FVec,
    marked: Seq<bool>,
    changed: bool,
    i: int,
) -> (Seq<FCircle>, bool, bool)
    decreases bodies.len() - i,
{
    if i >= bodies.len() || i < 0 {
        (bodies, changed, false)
    } else {
        let br = bounce(bodies[i], bounds);
        if br.2 {
            (bodies, changed, true)
        } else if br.1 {
            pass_from(bodies.update(i, br.0), bounds, marked.update(i, true), true, i + 1)
        } else {
            match scan_from(bodies, marked, i, i + 1) {
                ScanOut::Ovf => (bodies, changed, true),
                ScanOut::NoHit => pass_from(bodies, bounds, marked, changed, i + 1),
                ScanOut::Hit { j, va, vb } => {
                    // A scan only ever reports a partner index in range.
                    if 0 <= j < bodies.len() {
                        pass_from(
                            bodies.update(i, with_vel(bodies[i], va)).update(
                                j,
                                with_vel(bodies[j], vb),
                            ),
                            bounds,
                            marked.update(j, true),
                            true,
                            i + 1,
                        )
                    } else {
                        (bodies, changed, false)
                    }
                },
            }
        }
    }
}

/// One full pass over all bodies, with nothing marked yet.
pub open spec fn pass(bodies: Seq<FCircle>, bounds: FVec) -> (Seq<FCircle>, bool, bool) {
    pass_from(bodies, bounds, Seq::new(bodies.len(), |k: int| false), false, 0)
}

/// Repeat passes until one changes nothing, the pass budget runs out,
/// or a pass overflows.
pub open spec fn resolve_from(bodies: Seq<FCircle>, bounds: FVec, fuel: nat) -> (
    Seq<FCircle>,
    Outcome,
)
    decreases fuel,
{
    if fuel == 0 {
        (bodies, Outcome::PassLimit)
    } else {
        let pr = pass(bodies, bounds);
        if pr.2 {
            (pr.0, Outcome::Overflow)
        } else if !pr.1 {
            (pr.0, Outcome::Converged)
        } else {
            resolve_from(pr.0, bounds, (fuel - 1) as nat)
        }
    }
}

// ---------------------------------------------------------------------
// Integration: semi-implicit Euler, velocity before position.
// ---------------------------------------------------------------------

/// One body integrated by `ts` under `gravity`:
/// `acceleration.y -= gravity; velocity += acceleration * ts;
/// position += velocity * ts`. `None` when an intermediate overflows.
pub open spec fn integ_body(c: FCircle, gravity: Frac, ts: Frac) -> Option<FCircle> {
    if !minus_fits(c.acceleration.y, gravity) {
        None
    } else {
        let acc = FVec { x: c.acceleration.x, y: c.acceleration.y.minusf(gravity) };
        if !vscale_fits(acc, ts) {
            None
        } else {
            let dv = acc.scalev(ts);
            if !vplus_fits(c.velocity, dv) {
                None
            } else {
                let vel = c.velocity.plusv(dv);
                if !vscale_fits(vel, ts) {
                    None
                } else {
                    let dp = vel.scalev(ts);
                    if !vplus_fits(c.position, dp) {
                        None
                    } else {
                        Some(
                            FCircle {
                                position: c.position.plusv(dp),
                                velocity: vel,
                                acceleration: acc,
                                ..c
                            },
                        )
                    }
                }
            }
        }
    }
}

/// Integrate bodies `i, i+1, ...`: `(bodies after, overflowed)`. On an
/// overflow the bodies before `i` keep their integrated state.
pub open spec fn integrate_from(bodies: Seq<FCircle>, gravity: Frac, ts: Frac, i: int) -> (
    Seq<FCircle>,
    bool,
)
    decreases bodies.len() - i,
{
    if i >= bodies.len() || i < 0 {
        (bodies, false)
    } else {
        match integ_body(bodies[i], gravity, ts) {
            None => (bodies, true),
            Some(c2) => integrate_from(bodies.update(i, c2), gravity, ts, i + 1),
        }
    }
}

/// Every acceleration reset to zero, as the end of a tick leaves it.
pub open spec fn reset_accels(bodies: Seq<FCircle>) -> Seq<FCircle> {
    Seq::new(
        bodies.len(),
        |k: int|
            FCircle {
                acceleration: FVec { x: Frac { n: 0, d: 1 }, y: Frac { n: 0, d: 1 } },
                ..bodies[k]
            },
    )
}

/// One whole tick: integrate, resolve collisions, reset accelerations.
/// On an overflow the state computed so far is kept and accelerations
/// are left as they stand.
pub open spec fn update_model(
    bodies: Seq<FCircle>,
    bounds: FVec,
    gravity: Frac,
    ts: Frac,
    cap: nat,
) -> (Seq<FCircle>, Outcome) {
    let ir = integrate_from(bodies, gravity, ts, 0);
    if ir.1 {
        (ir.0, Outcome::Overflow)
    } else {
        let rr = resolve_from(ir.0, bounds, cap);
        if rr.1 == Outcome::Overflow {
            (rr.0, Outcome::Overflow)
        } else {
            (reset_accels(rr.0), rr.1)
        }
    }
}

// ---------------------------------------------------------------------
// Executable code, proved equal to the model above.
// ---------------------------------------------------------------------

/// Viewing commutes with updating one element.
proof fn lemma_views_update(s: Seq<Circle>, i: int, c: Circle)
    requires
        0 <= i < s.len(),
    ensures
        views(s.update(i, c)) == views(s).update(i, c@),
{
    assert(views(s.update(i, c)) =~= views(s).update(i, c@));
}

fn up_viol_exec(c: &Circle, bounds: &Vec2) -> (r: Option<bool>)
    requires
        c.ok(),
        bounds.ok(),
    ensures
        r == up_viol(c@, bounds@),
{
    let top = match c.position.y.plus(&c.radius) {
        Some(v) => v,
        None => return None,
    };
    top.gt(&bounds.y)
}

fn down_viol_exec(c: &Circle, bounds: &Vec2) -> (r: Option<bool>)
    requires
        c.ok(),
        bounds.ok(),
    ensures
        r == down_viol(c@, bounds@),
{
    let bot = match c.position.y.minus(&c.radius) {
        Some(v) => v,
        None => return None,
    };
    let floor = bounds.y.neg();
    bot.lt(&floor)
}

fn right_viol_exec(c: &Circle, bounds: &Vec2) -> (r: Option<bool>)
    requires
        c.ok(),
        bounds.ok(),
    ensures
        r == right_viol(c@, bounds@),
{
    let side = match c.position.x.plus(&c.radius) {
        Some(v) => v,
        None => return None,
    };
    side.gt(&bounds.x)
}

fn left_viol_exec(c: &Circle, bounds: &Vec2) -> (r: Option<bool>)
    requires
        c.ok(),
        bounds.ok(),
    ensures
        r == left_viol(c@, bounds@),
{
    let side = match c.position.x.minus(&c.radius) {
        Some(v) => v,
        None => return None,
    };
    let wall = bounds.x.neg();
    side.lt(&wall)
}

fn bounce_exec(c: &Circle, bounds: &Vec2) -> (r: (Circle, bool, bool))
    requires
        c.ok(),
        bounds.ok(),
    ensures
        r.0.ok(),
        (r.0@, r.1, r.2) == bounce(c@, bounds@),
{
    if c.velocity.y.is_pos() {
        match up_viol_exec(c, bounds) {
            None => {
                return (*c, false, true);
            },
            Some(true) => {
                let mut c2 = *c;
                c2.velocity.y = c2.velocity.y.neg();
                return (c2, true, false);
            },
            Some(false) => {},
        }
    }
    if c.velocity.y.is_neg() {
        match down_viol_exec(c, bounds) {
            None => {
                return (*c, false, true);
            },
            Some(true) => {
                let mut c2 = *c;
                c2.velocity.y = c2.velocity.y.neg();
                return (c2, true, false);
            },
            Some(false) => {},
        }
    }
    if c.velocity.x.is_pos() {
        match right_viol_exec(c, bounds) {
            None => {
                return (*c, false, true);
            },
            Some(true) => {
                let mut c2 = *c;
                c2.velocity.x = c2.velocity.x.neg();
                return (c2, true, false);
            },
            Some(false) => {},
        }
    }
    if c.velocity.x.is_neg() {
        match left_viol_exec(c, bounds) {
            None => {
                return (*c, false, true);
            },
            Some(true) => {
                let mut c2 = *c;
                c2.velocity.x = c2.velocity.x.neg();
                return (c2, true, false);
            },
            Some(false) => {},
        }
    }
    (*c, false, false)
}

fn pair_guard_exec(a: &Circle, b: &Circle) -> (r: Option<(bool, bool)>)
    requires
        a.ok(),
        b.ok(),
    ensures
        r == pair_guard(a@, b@),
{
    let d = match b.position.minus(&a.position) {
        Some(v) => v,
        None => return None,
    };
    let sqr = match d.sqr_length() {
        Some(v) => v,
        None => return None,
    };
    let rs = match a.radius.plus(&b.radius) {
        Some(v) => v,
        None => return None,
    };
    let rs2 = match rs.times(&rs) {
        Some(v) => v,
        None => return None,
    };
    let inter = match sqr.le(&rs2) {
        Some(v) => v,
        None => return None,
    };
    let rel = match a.velocity.minus(&b.velocity) {
        Some(v) => v,
        None => return None,
    };
    let dv = match d.dot(&rel) {
        Some(v) => v,
        None => return None,
    };
    Some((inter, dv.is_pos()))
}

/// The two corrected velocities of an approaching pair, or `None` when an
/// exact intermediate leaves the machine range. The approach test makes
/// the divisions safe: it rules out coincident centers and zero mass sum.
fn impulse_exec(a: &Circle, b: &Circle) -> (r: Option<(Vec2, Vec2)>)
    requires
        a.ok(),
        b.ok(),
        approaching(a@, b@),
    ensures
        r is Some <==> impulse_fits(a@, b@),
        r matches Some(p) ==> p.0.ok() && p.1.ok() && (p.0@, p.1@) == impulse_vels(a@, b@),
{
    proof {
        let d = b@.position.minusv(a@.position);
        let rel = a@.velocity.minusv(b@.velocity);
        crate::rat::lemma_prod_pos(b@.position.x.d, a@.position.x.d);
        crate::rat::lemma_prod_pos(b@.position.y.d, a@.position.y.d);
        crate::rat::lemma_prod_pos(a@.velocity.x.d, b@.velocity.x.d);
        crate::rat::lemma_prod_pos(a@.velocity.y.d, b@.velocity.y.d);
        lemma_dot_nonzero_sqr(d, rel);
        lemma_opposite_sqr_len(a@.position, b@.position);
        assert(a@.mass.n * b@.mass.d + b@.mass.n * a@.mass.d > 0) by (nonlinear_arith)
            requires
                a@.mass.n > 0,
                a@.mass.d > 0,
                b@.mass.n > 0,
                b@.mass.d > 0,
        ;
    }
    let d_ab = match a.position.minus(&b.position) {
        Some(v) => v,
        None => return None,
    };
    let q_a = match d_ab.sqr_length() {
        Some(v) => v,
        None => return None,
    };
    let m_sum = match a.mass.plus(&b.mass) {
        Some(v) => v,
        None => return None,
    };
    let two = Rat::new(2, 1);
    let tb = match two.times(&b.mass) {
        Some(v) => v,
        None => return None,
    };
    let w_a = match tb.divide(&m_sum) {
        Some(v) => v,
        None => return None,
    };
    let rel_a = match a.velocity.minus(&b.velocity) {
        Some(v) => v,
        None => return None,
    };
    let s_a = match rel_a.dot(&d_ab) {
        Some(v) => v,
        None => return None,
    };
    let sq_a = match s_a.divide(&q_a) {
        Some(v) => v,
        None => return None,
    };
    let k_a = match w_a.times(&sq_a) {
        Some(v) => v,
        None => return None,
    };
    let imp_a = match d_ab.scale(&k_a) {
        Some(v) => v,
        None => return None,
    };
    let va = match a.velocity.minus(&imp_a) {
        Some(v) => v,
        None => return None,
    };
    let d_ba = match b.position.minus(&a.position) {
        Some(v) => v,
        None => return None,
    };
    let q_b = match d_ba.sqr_length() {
        Some(v) => v,
        None => return None,
    };
    let ta = match two.times(&a.mass) {
        Some(v) => v,
        None => return None,
    };
    let w_b = match ta.divide(&m_sum) {
        Some(v) => v,
        None => return None,
    };
    let rel_b = match b.velocity.minus(&a.velocity) {
        Some(v) => v,
        None => return None,
    };
    let s_b = match rel_b.dot(&d_ba) {
        Some(v) => v,
        None => return None,
    };
    let sq_b = match s_b.divide(&q_b) {
        Some(v) => v,
        None => return None,
    };
    let k_b = match w_b.times(&sq_b) {
        Some(v) => v,
        None => return None,
    };
    let imp_b = match d_ba.scale(&k_b) {
        Some(v) => v,
        None => return None,
    };
    let vb = match b.velocity.minus(&imp_b) {
        Some(v) => v,
        None => return None,
    };
    Some((va, vb))
}

/// What an executable pairwise scan found.
enum ScanRes {
    NoHit,
    Hit(usize, Vec2, Vec2),
    Ovf,
}

fn scan_exec(circles: &Vec<Circle>, marked: &Vec<bool>, i: usize, j: usize) -> (r: ScanRes)
    requires
        all_ok(circles@),
        marked@.len() == circles@.len(),
        i < circles@.len(),
        i < j,
    ensures
        ({
            let s = scan_from(views(circles@), marked@, i as int, j as int);
            match r {
                ScanRes::NoHit => s == ScanOut::NoHit,
                ScanRes::Ovf => s == ScanOut::Ovf,
                ScanRes::Hit(jj, va, vb) => i < jj < circles@.len() && va.ok() && vb.ok() && s
                    == (ScanOut::Hit { j: jj as int, va: va@, vb: vb@ }),
            }
        }),
    decreases circles@.len() - j,
{
    if j >= circles.len() {
        return ScanRes::NoHit;
    }
    assert(circles@[i as int].ok());
    assert(circles@[j as int].ok());
    let a = circles[i];
    let b = circles[j];
    match pair_guard_exec(&a, &b) {
        None => ScanRes::Ovf,
        Some((inter, app)) => {
            if inter && app && !marked[j] {
                match impulse_exec(&a, &b) {
                    Some(p) => ScanRes::Hit(j, p.0, p.1),
                    None => ScanRes::Ovf,
                }
            } else {
                scan_exec(circles, marked, i, j + 1)
            }
        },
    }
}

/// One collision-resolution pass: boundary bounces and at most one
/// pairwise impulse per body. Returns `(changed, overflowed)`; on an
/// overflow the corrections made so far are kept.
pub fn resolve_pass(circles: &mut Vec<Circle>, bounds: &Vec2) -> (r: (bool, bool))
    requires
        all_ok(old(circles)@),
        bounds.ok(),
    ensures
        all_ok(final(circles)@),
        ({
            let p = pass(views(old(circles)@), bounds@);
            views(final(circles)@) == p.0 && r.0 == p.1 && r.1 == p.2
        }),
        velocity_only_change(views(old(circles)@), views(final(circles)@)),
{
    let ghost orig = views(circles@);
    let n = circles.len();
    let mut marked: Vec<bool> = Vec::new();
    while marked.len() < n
        invariant
            n == circles@.len(),
            circles@ == old(circles)@,
            marked@.len() <= n,
            forall|k: int| 0 <= k < marked@.len() ==> marked@[k] == false,
        decreases n - marked@.len(),
    {
        marked.push(false);
    }
    proof {
        assert(marked@ =~= Seq::new(orig.len(), |k: int| false));
    }
    let mut changed = false;
    let mut i: usize = 0;
    while i < n
        invariant
            n == circles@.len(),
            orig == views(old(circles)@),
            orig.len() == n,
            marked@.len() == n,
            all_ok(circles@),
            bounds.ok(),
            i <= n,
            pass(orig, bounds@) == pass_from(views(circles@), bounds@, marked@, changed, i as int),
            velocity_only_change(orig, views(circles@)),
        decreases n - i,
    {
        let ghost vs = views(circles@);
        let ghost mk = marked@;
        let ghost ch0 = changed;
        assert(circles@[i as int].ok());
        let c = circles[i];
        let (c2, hit, ovf) = bounce_exec(&c, bounds);
        if ovf {
            return (changed, true);
        }
        if hit {
            circles.set(i, c2);
            marked.set(i, true);
            changed = true;
            proof {
                assert(views(circles@) =~= vs.update(i as int, c2@));
            }
        } else {
            match scan_exec(circles, &marked, i, i + 1) {
                ScanRes::Ovf => {
                    return (changed, true);
                },
                ScanRes::NoHit => {},
                ScanRes::Hit(j, va, vb) => {
                    let ca = circles[i];
                    let a2 = Circle { velocity: va, ..ca };
                    circles.set(i, a2);
                    let cb = circles[j];
                    let b2 = Circle { velocity: vb, ..cb };
                    circles.set(j, b2);
                    marked.set(j, true);
                    changed = true;
                    proof {
                        assert(views(circles@) =~= vs.update(
                            i as int,
                            with_vel(vs[i as int], va@),
                        ).update(j as int, with_vel(vs[j as int], vb@)));
                    }
                },
            }
        }
        i = i + 1;
    }
    (changed, false)
}

/// Repeat resolution passes until one changes nothing (`Converged`), at
/// most `max_passes` times (`PassLimit`), stopping early if an exact
/// intermediate leaves the machine range (`Overflow`).
pub fn resolve_collisions(circles: &mut Vec<Circle>, bounds: &Vec2, max_passes: usize) -> (r:
    Outcome)
    requires
        all_ok(old(circles)@),
        bounds.ok(),
    ensures
        all_ok(final(circles)@),
        ({
            let rr = resolve_from(views(old(circles)@), bounds@, max_passes as nat);
            views(final(circles)@) == rr.0 && r == rr.1
        }),
        velocity_only_change(views(old(circles)@), views(final(circles)@)),
{
    let ghost orig = views(circles@);
    let mut left: usize = max_passes;
    loop
        invariant
            all_ok(circles@),
            bounds.ok(),
            left <= max_passes,
            resolve_from(orig, bounds@, max_passes as nat) == resolve_from(
                views(circles@),
                bounds@,
                left as nat,
            ),
            velocity_only_change(orig, views(circles@)),
            orig == views(old(circles)@),
        decreases left,
    {
        if left == 0 {
            return Outcome::PassLimit;
        }
        let (changed, ovf) = resolve_pass(circles, bounds);
        if ovf {
            return Outcome::Overflow;
        }
        if !changed {
            return Outcome::Converged;
        }
        left = left - 1;
    }
}

fn integ_body_exec(c: &Circle, gravity: &Rat, ts: &Rat) -> (r: Option<Circle>)
    requires
        c.ok(),
        gravity.ok(),
        ts.ok(),
    ensures
        r is Some <==> integ_body(c@, gravity@, ts@) is Some,
        r matches Some(c2) ==> c2.ok() && Some(c2@) == integ_body(c@, gravity@, ts@),
{
    let ay = match c.acceleration.y.minus(gravity) {
        Some(v) => v,
        None => return None,
    };
    let acc = Vec2 { x: c.acceleration.x, y: ay };
    let dv = match acc.scale(ts) {
        Some(v) => v,
        None => return None,
    };
    let vel = match c.velocity.plus(&dv) {
        Some(v) => v,
        None => return None,
    };
    let dp = match vel.scale(ts) {
        Some(v) => v,
        None => return None,
    };
    let pos = match c.position.plus(&dp) {
        Some(v) => v,
        None => return None,
    };
    Some(Circle { position: pos, velocity: vel, acceleration: acc, mass: c.mass, radius: c.radius })
}

/// Semi-implicit Euler integration of every body: gravity into
/// acceleration, acceleration into velocity, then velocity into position.
/// Returns `true` when an exact intermediate left the machine range; the
/// bodies before that point keep their integrated state.
pub fn integrate(circles: &mut Vec<Circle>, gravity: &Rat, ts: &Rat) -> (ovf: bool)
    requires
        all_ok(old(circles)@),
        gravity.ok(),
        ts.ok(),
    ensures
        all_ok(final(circles)@),
        ({
            let ir = integrate_from(views(old(circles)@), gravity@, ts@, 0);
            views(final(circles)@) == ir.0 && ovf == ir.1
        }),
        same_body_consts(views(old(circles)@), views(final(circles)@)),
{
    let ghost orig = views(circles@);
    let n = circles.len();
    let mut i: usize = 0;
    while i < n
        invariant
            n == circles@.len(),
            orig.len() == n,
            all_ok(circles@),
            gravity.ok(),
            ts.ok(),
            i <= n,
            integrate_from(orig, gravity@, ts@, 0) == integrate_from(
                views(circles@),
                gravity@,
                ts@,
                i as int,
            ),
            same_body_consts(orig, views(circles@)),
            orig == views(old(circles)@),
        decreases n - i,
    {
        let ghost vs = views(circles@);
        assert(circles@[i as int].ok());
        let c = circles[i];
        match integ_body_exec(&c, gravity, ts) {
            None => {
                return true;
            },
            Some(c2) => {
                circles.set(i, c2);
                proof {
                    assert(views(circles@) =~= vs.update(i as int, c2@));
                }
            },
        }
        i = i + 1;
    }
    false
}

/// One fixed tick: integrate under gravity, resolve all collisions, then
/// reset every acceleration for the next tick's forces. The returned
/// `Outcome` says how the resolution ended; on `Overflow` the state
/// computed so far is kept unchanged thereafter.
pub fn update_circles(
    circles: &mut Vec<Circle>,
    bounds: &Vec2,
    gravity: &Rat,
    ts: &Rat,
    max_passes: usize,
) -> (r: Outcome)
    requires
        all_ok(old(circles)@),
        bounds.ok(),
        gravity.ok(),
        ts.ok(),
    ensures
        all_ok(final(circles)@),
        ({
            let m = update_model(views(old(circles)@), bounds@, gravity@, ts@, max_passes as nat);
            views(final(circles)@) == m.0 && r == m.1
        }),
        same_body_consts(views(old(circles)@), views(final(circles)@)),
{
    let ovf = integrate(circles, gravity, ts);
    if ovf {
        return Outcome::Overflow;
    }
    let oc = resolve_collisions(circles, bounds, max_passes);
    if oc == Outcome::Overflow {
        return Outcome::Overflow;
    }
    let ghost pre = circles@;
    let n = circles.len();
    let mut i: usize = 0;
    while i < n
        invariant
            n == circles@.len(),
            pre.len() == n,
            all_ok(circles@),
            i <= n,
            forall|k: int| i <= k < n ==> circles@[k] == pre[k],
            forall|k: int|
                0 <= k < i ==> circles@[k] == (Circle {
                    acceleration: Vec2 {
                        x: Rat { num: 0, den: 1 },
                        y: Rat { num: 0, den: 1 },
                    },
                    ..pre[k]
                }),
        decreases n - i,
    {
        let c = circles[i];
        let c2 = Circle { acceleration: Vec2::zero(), ..c };
        circles.set(i, c2);
        i = i + 1;
    }
    proof {
        assert(views(circles@) =~= reset_accels(views(pre)));
    }
    oc
}

/// The exact sum of every body's mechanical energy, accumulated in index
/// order from zero; `None` exactly when an intermediate leaves the
/// machine range.
pub open spec fn energy_acc(
    bodies: Seq<FCircle>,
    bounds: FVec,
    gravity: Frac,
    acc: Frac,
    i: int,
) -> Option<Frac>
    decreases bodies.len() - i,
{
    if i >= bodies.len() || i < 0 {
        Some(acc)
    } else if !energy_fits(bodies[i], bounds, gravity) {
        None
    } else if !plus_fits(acc, energy_of(bodies[i], bounds, gravity)) {
        None
    } else {
        energy_acc(bodies, bounds, gravity, acc.plusf(energy_of(bodies[i], bounds, gravity)), i + 1)
    }
}

/// The aggregate mechanical energy of the whole body store.
pub open spec fn total_energy_model(bodies: Seq<FCircle>, bounds: FVec, gravity: Frac) -> Option<
    Frac,
> {
    energy_acc(bodies, bounds, gravity, Frac { n: 0, d: 1 }, 0)
}

/// The aggregate mechanical energy: the sum of `get_energy` over all
/// bodies, zero for an empty store; `None` exactly when an exact
/// intermediate leaves the machine range. Reads the state only: a
/// diagnostic, never an input to the physics.
pub fn total_energy(circles: &Vec<Circle>, bounds: &Vec2, gravity: &Rat) -> (r: Option<Rat>)
    requires
        all_ok(circles@),
        bounds.ok(),
        gravity.ok(),
    ensures
        r is Some <==> total_energy_model(views(circles@), bounds@, gravity@) is Some,
        r matches Some(e) ==> e.ok() && Some(e@) == total_energy_model(
            views(circles@),
            bounds@,
            gravity@,
        ),
{
    let n = circles.len();
    let mut acc = Rat::zero();
    let mut i: usize = 0;
    while i < n
        invariant
            n == circles@.len(),
            all_ok(circles@),
            bounds.ok(),
            gravity.ok(),
            i <= n,
            acc.ok(),
            total_energy_model(views(circles@), bounds@, gravity@) == energy_acc(
                views(circles@),
                bounds@,
                gravity@,
                acc@,
                i as int,
            ),
        decreases n - i,
    {
        assert(circles@[i as int].ok());
        let c = circles[i];
        let e = match c.get_energy(bounds, gravity) {
            Some(v) => v,
            None => return None,
        };
        acc = match acc.plus(&e) {
            Some(v) => v,
            None => return None,
        };
        i = i + 1;
    }
    Some(acc)
}

} // verus!
