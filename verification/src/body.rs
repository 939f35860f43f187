//! The unit of simulation: a circular body with position, velocity,
//! acceleration, mass and radius, plus its force and energy accessors.

use vstd::prelude::*;
use crate::rat::{Frac, Rat};
use crate::rat::{plus_fits, minus_fits, times_fits, over_fits};
use crate::vec2::{FVec, Vec2, vdot_fits, vplus_fits};

verus! {

/// The mathematical model of a body.
pub struct FCircle {
    pub position: FVec,
    pub velocity: FVec,
    pub acceleration: FVec,
    pub mass: Frac,
    pub radius: Frac,
}

impl FCircle {
    /// Well-formedness: every field is a well-formed fraction, and mass
    /// and radius are strictly positive.
    pub open spec fn wf(self) -> bool {
        &&& self.position.wf()
        &&& self.velocity.wf()
        &&& self.acceleration.wf()
        &&& self.mass.wf()
        &&& self.mass.posf()
        &&& self.radius.wf()
        &&& self.radius.posf()
    }
}

/// The mechanical energy of one body: kinetic energy
/// `1/2 * mass * |velocity|^2` plus, under gravity, potential energy
/// `mass * gravity * (position.y + bounds.y)` measured from the floor.
pub open spec fn energy_of(c: FCircle, bounds: FVec, gravity: Frac) -> Frac {
    let half = Frac { n: 1, d: 2 };
    let ke = half.timesf(c.mass).timesf(c.velocity.sqr_len());
    let pe = c.mass.timesf(gravity).timesf(c.position.y.minusf(bounds.y.negf()));
    ke.plusf(pe)
}

/// When the executable energy computation stays representable.
pub open spec fn energy_fits(c: FCircle, bounds: FVec, gravity: Frac) -> bool {
    let half = Frac { n: 1, d: 2 };
    let sq = c.velocity.sqr_len();
    let hm = half.timesf(c.mass);
    let ke = hm.timesf(sq);
    let mg = c.mass.timesf(gravity);
    let h = c.position.y.minusf(bounds.y.negf());
    let pe = mg.timesf(h);
    &&& vdot_fits(c.velocity, c.velocity)
    &&& times_fits(half, c.mass)
    &&& times_fits(hm, sq)
    &&& times_fits(c.mass, gravity)
    &&& minus_fits(c.position.y, bounds.y.negf())
    &&& times_fits(mg, h)
    &&& plus_fits(ke, pe)
}

/// The body after `add_force`: the force divided by the mass, added to
/// the acceleration; `None` when an intermediate leaves the machine range.
pub open spec fn add_force_res(c: FCircle, force: FVec) -> Option<FCircle> {
    let a = FVec { x: force.x.overf(c.mass), y: force.y.overf(c.mass) };
    if over_fits(force.x, c.mass) && over_fits(force.y, c.mass) && vplus_fits(
        c.acceleration,
        a,
    ) {
        Some(FCircle { acceleration: c.acceleration.plusv(a), ..c })
    } else {
        None
    }
}

/// An executable body.
#[derive(Clone, Copy, Debug)]
pub struct Circle {
    pub position: Vec2,
    pub velocity: Vec2,
    pub acceleration: Vec2,
    pub mass: Rat,
    pub radius: Rat,
}

impl View for Circle {
    type V = FCircle;

    open spec fn view(&self) -> FCircle {
        FCircle {
            position: self.position@,
            velocity: self.velocity@,
            acceleration: self.acceleration@,
            mass: self.mass@,
            radius: self.radius@,
        }
    }
}

impl Circle {
    pub open spec fn ok(self) -> bool {
        &&& self.position.ok()
        &&& self.velocity.ok()
        &&& self.acceleration.ok()
        &&& self.mass.ok()
        &&& self.radius.ok()
        &&& self@.wf()
    }

    /// A body at rest is not required: any well-formed fields are accepted.
    pub fn new(position: Vec2, velocity: Vec2, mass: Rat, radius: Rat) -> (r: Circle)
        requires
            position.ok(),
            velocity.ok(),
            mass.ok(),
            mass@.posf(),
            radius.ok(),
            radius@.posf(),
        ensures
            r.ok(),
            r@ == (FCircle {
                position: position@,
                velocity: velocity@,
                acceleration: FVec { x: Frac { n: 0int, d: 1int }, y: Frac { n: 0int, d: 1int } },
                mass: mass@,
                radius: radius@,
            }),
    {
        Circle { position, velocity, acceleration: Vec2::zero(), mass, radius }
    }

    /// Adds `force / mass` to the acceleration. Returns `false`, leaving
    /// the body unchanged, exactly when an intermediate leaves the
    /// machine range.
    pub fn add_force(&mut self, force: &Vec2) -> (r: bool)
        requires
            old(self).ok(),
            force.ok(),
        ensures
            r <==> add_force_res(old(self)@, force@) is Some,
            r ==> final(self).ok() && Some(final(self)@) == add_force_res(old(self)@, force@),
            !r ==> *final(self) == *old(self),
    {
        let ax = match force.x.divide(&self.mass) {
            Some(v) => v,
            None => return false,
        };
        let ay = match force.y.divide(&self.mass) {
            Some(v) => v,
            None => return false,
        };
        let a = Vec2 { x: ax, y: ay };
        match self.acceleration.plus(&a) {
            Some(acc) => {
                self.acceleration = acc;
                true
            },
            None => false,
        }
    }

    /// The body's mechanical energy; `None` exactly when an intermediate
    /// leaves the machine range.
    pub fn get_energy(&self, bounds: &Vec2, gravity: &Rat) -> (r: Option<Rat>)
        requires
            self.ok(),
            bounds.ok(),
            gravity.ok(),
        ensures
            r is Some <==> energy_fits(self@, bounds@, gravity@),
            r matches Some(e) ==> e.ok() && e@ == energy_of(self@, bounds@, gravity@),
    {
        let half = Rat::new(1, 2);
        let sq = match self.velocity.sqr_length() {
            Some(v) => v,
            None => return None,
        };
        let hm = match half.times(&self.mass) {
            Some(v) => v,
            None => return None,
        };
        let ke = match hm.times(&sq) {
            Some(v) => v,
            None => return None,
        };
        let mg = match self.mass.times(gravity) {
            Some(v) => v,
            None => return None,
        };
        let floor = bounds.y.neg();
        let h = match self.position.y.minus(&floor) {
            Some(v) => v,
            None => return None,
        };
        let pe = match mg.times(&h) {
            Some(v) => v,
            None => return None,
        };
        ke.plus(&pe)
    }
}

} // verus!
