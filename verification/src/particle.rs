//! A simulated body: its kind, its mass, its state of motion and its trail.

use vstd::prelude::*;
use crate::force::{get_mass, mass_of, ParticleKind};
use crate::scalar::{Scalar, Vec3};
use crate::trail::Trail;

verus! {

/// Where a new particle is put.
#[derive(Clone, Copy, PartialEq, Eq, Debug)]
pub enum Placement {
    /// At this position, as it is.
    At(Vec3),
    /// At a position drawn at random by the host. A coordinate that came
    /// out as zero is moved to the lower bound of the range it was drawn
    /// from.
    Drawn(Vec3),
}

/// The acceleration, velocity and position that a step gives a particle.
#[derive(Clone, Copy, PartialEq, Eq, Debug)]
pub struct Motion {
    pub acceleration: Vec3,
    pub velocity: Vec3,
    pub position: Vec3,
}

/// What a particle is at one moment.
pub struct ParticleState {
    pub kind: ParticleKind,
    pub mass: Scalar,
    pub position: Vec3,
    pub velocity: Vec3,
    pub acceleration: Vec3,
    /// The trail, oldest position first, where the particle keeps one.
    pub trail: Option<Seq<Vec3>>,
}

/// A drawn coordinate as it is used: the lower bound in place of a zero.
pub open spec fn settled(drawn: Scalar, lo: Scalar) -> Scalar {
    if drawn.is_zero_spec() {
        lo
    } else {
        drawn
    }
}

/// The position that a placement stands for, with `lo` the lower bound of
/// the range that the host draws from.
pub open spec fn placed(placement: Placement, lo: Scalar) -> Vec3 {
    match placement {
        Placement::At(position) => position,
        Placement::Drawn(drawn) => Vec3 {
            x: settled(drawn.x, lo),
            y: settled(drawn.y, lo),
            z: settled(drawn.z, lo),
        },
    }
}

impl ParticleState {
    /// A particle of the given kind, at rest at `position`. With a trail
    /// capacity it keeps a trail, every entry of which is `position`.
    pub open spec fn fresh(kind: ParticleKind, position: Vec3, trail: Option<usize>)
        -> ParticleState {
        ParticleState {
            kind,
            mass: mass_of(kind),
            position,
            velocity: Vec3::origin(),
            acceleration: Vec3::origin(),
            trail: match trail {
                Some(capacity) => Some(Seq::new(capacity as nat, |i: int| position)),
                None => None,
            },
        }
    }

    /// The particle after a step that gave it `motion`: kind and mass stay,
    /// and the new position is recorded in the trail where there is one.
    pub open spec fn moved(self, motion: Motion) -> ParticleState {
        ParticleState {
            kind: self.kind,
            mass: self.mass,
            position: motion.position,
            velocity: motion.velocity,
            acceleration: motion.acceleration,
            trail: match self.trail {
                Some(history) => Some(Trail::recorded(history, motion.position)),
                None => None,
            },
        }
    }
}

/// A drawn coordinate as it is used: `lo` where the draw is zero, else the
/// draw itself.
pub fn settle_draw(drawn: Scalar, lo: Scalar) -> (coordinate: Scalar)
    ensures
        coordinate == settled(drawn, lo),
{
    if drawn.is_zero() {
        lo
    } else {
        drawn
    }
}

/// The position that a placement stands for.
pub fn place(placement: Placement, lo: Scalar) -> (position: Vec3)
    ensures
        position == placed(placement, lo),
{
    match placement {
        Placement::At(position) => position,
        Placement::Drawn(drawn) => Vec3 {
            x: settle_draw(drawn.x, lo),
            y: settle_draw(drawn.y, lo),
            z: settle_draw(drawn.z, lo),
        },
    }
}

/// A simulated body. Its mass is the one that its kind gives it.
#[derive(Debug)]
pub struct Particle {
    kind: ParticleKind,
    mass: Scalar,
    position: Vec3,
    velocity: Vec3,
    acceleration: Vec3,
    trail: Option<Trail>,
}

impl View for Particle {
    type V = ParticleState;

    closed spec fn view(&self) -> ParticleState {
        ParticleState {
            kind: self.kind,
            mass: self.mass,
            position: self.position,
            velocity: self.velocity,
            acceleration: self.acceleration,
            trail: match self.trail {
                Some(trail) => Some(trail@),
                None => None,
            },
        }
    }
}

impl Particle {
    #[verifier::type_invariant]
    spec fn well_formed(&self) -> bool {
        self.mass == mass_of(self.kind)
    }

    /// A particle of the given kind, at rest where `placement` puts it.
    /// `lo` is the lower bound of the range that drawn positions come
    /// from. With a trail capacity the particle keeps a trail of that many
    /// positions, filled with the first one.
    pub fn new(kind: ParticleKind, placement: Placement, lo: Scalar, trail: Option<usize>)
        -> (particle: Particle)
        ensures
            particle@ == ParticleState::fresh(kind, placed(placement, lo), trail),
    {
        let position = place(placement, lo);
        let trail = match trail {
            Some(capacity) => Some(Trail::new(capacity, position)),
            None => None,
        };
        Particle {
            kind,
            mass: get_mass(kind),
            position,
            velocity: Vec3::zero(),
            acceleration: Vec3::zero(),
            trail,
        }
    }

    /// Gives the particle the motion that a step computed for it, and
    /// records the new position in its trail where it keeps one.
    pub fn advance(&mut self, motion: Motion)
        ensures
            final(self)@ == old(self)@.moved(motion),
    {
        proof {
            use_type_invariant(&*self);
        }
        let mut trail: Option<Trail> = None;
        std::mem::swap(&mut trail, &mut self.trail);
        let trail = match trail {
            Some(mut history) => {
                history.record(motion.position);
                Some(history)
            },
            None => None,
        };
        self.acceleration = motion.acceleration;
        self.velocity = motion.velocity;
        self.position = motion.position;
        self.trail = trail;
    }

    pub fn kind(&self) -> (kind: ParticleKind)
        ensures
            kind == self@.kind,
    {
        self.kind
    }

    /// The mass, which is that of the particle's kind.
    pub fn mass(&self) -> (mass: Scalar)
        ensures
            mass == self@.mass,
            mass == mass_of(self@.kind),
    {
        proof {
            use_type_invariant(self);
        }
        self.mass
    }

    pub fn position(&self) -> (position: Vec3)
        ensures
            position == self@.position,
    {
        self.position
    }

    pub fn velocity(&self) -> (velocity: Vec3)
        ensures
            velocity == self@.velocity,
    {
        self.velocity
    }

    pub fn acceleration(&self) -> (acceleration: Vec3)
        ensures
            acceleration == self@.acceleration,
    {
        self.acceleration
    }

    /// The trail, oldest position first, where the particle keeps one.
    pub fn trail(&self) -> (trail: Option<Vec<Vec3>>)
        ensures
            trail is Some == self@.trail is Some,
            trail is Some ==> trail->0@ == self@.trail->0,
    {
        match &self.trail {
            Some(history) => Some(history.positions()),
            None => None,
        }
    }
}

} // verus!
