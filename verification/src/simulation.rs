//! The simulation: an ordered collection of particles that grows by
//! insertion and moves by steps.
//!
//! A step is computed from the state before it and committed as a whole.
//! The host reads the particles, computes one motion for each of them, and
//! hands the motions over in one call; nothing is written while it reads.

use vstd::arithmetic::power2::{lemma2_to64, pow2};
use vstd::prelude::*;
use crate::force::ParticleKind;
use crate::particle::{placed, Motion, Particle, ParticleState, Placement};
use crate::scalar::{Scalar, Vec3};

verus! {

/// Encoding of -10, the lower bound of the standard range of drawn
/// coordinates.
pub const STANDARD_LO_BITS: u32 = 0xc120_0000;

/// Encoding of 10, the upper bound of the standard range of drawn
/// coordinates.
pub const STANDARD_HI_BITS: u32 = 0x4120_0000;

/// The number of positions in a trail of the standard configuration.
pub const STANDARD_TRAIL_CAPACITY: usize = 50;

/// How a simulation places and tracks its particles.
#[derive(Clone, Copy, PartialEq, Eq, Debug)]
pub struct SimConfig {
    /// Lower bound of the range that coordinates are drawn from; it
    /// belongs to the range.
    pub lo: Scalar,
    /// Upper bound of that range; it does not belong to it.
    pub hi: Scalar,
    /// Whether each particle keeps a trail.
    pub enable_trail: bool,
    /// The number of positions in each trail.
    pub trail_capacity: usize,
}

/// Why a simulation refused a request.
#[derive(Clone, Copy, PartialEq, Eq, Structural, Debug)]
pub enum SimError {
    /// No other particle exists that could act on the one in question.
    InsufficientParticles,
    /// A step brought another number of motions than there are particles.
    MotionCountMismatch,
}

impl SimConfig {
    /// The trail capacity that a new particle is made with, if any.
    pub open spec fn trail(self) -> Option<usize> {
        if self.enable_trail {
            Some(self.trail_capacity)
        } else {
            None
        }
    }

    /// Whether a particle's trail is as this configuration asks: none
    /// where trails are switched off, else one of the configured number of
    /// positions, the newest of which is where the particle stands.
    pub open spec fn admits(self, particle: ParticleState) -> bool {
        match particle.trail {
            Some(history) => {
                &&& self.enable_trail
                &&& history.len() == self.trail_capacity
                &&& history.len() > 0 ==> history.last() == particle.position
            },
            None => !self.enable_trail,
        }
    }

    /// The standard configuration: coordinates drawn from -10 up to 10,
    /// no trails, and 50 positions in a trail once they are switched on.
    pub open spec fn standard_spec() -> SimConfig {
        SimConfig {
            lo: Scalar { bits: STANDARD_LO_BITS },
            hi: Scalar { bits: STANDARD_HI_BITS },
            enable_trail: false,
            trail_capacity: STANDARD_TRAIL_CAPACITY,
        }
    }

    /// The standard configuration.
    pub fn standard() -> (config: SimConfig)
        ensures
            config == Self::standard_spec(),
    {
        SimConfig {
            lo: Scalar { bits: STANDARD_LO_BITS },
            hi: Scalar { bits: STANDARD_HI_BITS },
            enable_trail: false,
            trail_capacity: STANDARD_TRAIL_CAPACITY,
        }
    }
}

/// The standard range of drawn coordinates goes from -10 to 10, both
/// held exactly.
pub proof fn lemma_standard_range()
    ensures
        SimConfig::standard_spec().lo.rounds(-10, 1),
        SimConfig::standard_spec().hi.rounds(10, 1),
        SimConfig::standard_spec().lo == SimConfig::standard_spec().hi.neg_spec(),
{
    lemma2_to64();
    assert(pow2(20) == 0x10_0000);
}

/// The indices of the particles that act on the particle at `index`, among
/// `count` particles: all but `index` itself, in ascending order.
pub open spec fn others_of(count: nat, index: int) -> Seq<usize> {
    if 0 <= index < count {
        Seq::new((count - 1) as nat, |k: int| if k < index { k as usize } else { (k + 1) as usize })
    } else {
        Seq::new(count, |k: int| k as usize)
    }
}

/// Among `count` particles, those that act on the particle at `index` are
/// exactly the others: every particle but that one is among them, each
/// once, in ascending order. So a particle is acted upon by every other
/// particle, and none is left where it is alone.
pub proof fn lemma_others_are_all_the_rest(count: nat, index: int)
    requires
        count <= usize::MAX,
    ensures
        forall|j: usize| others_of(count, index).contains(j) <==> j < count && j != index,
        forall|a: int, b: int|
            0 <= a < b < others_of(count, index).len() ==> others_of(count, index)[a] < others_of(
                count,
                index,
            )[b],
        others_of(count, index).len() == 0 <==> count == 0 || (count == 1 && index == 0),
{
    let others = others_of(count, index);
    assert forall|j: usize| others.contains(j) <==> j < count && j != index by {
        if j < count && j != index {
            let k: int = if 0 <= index < count && j > index { j - 1 } else { j as int };
            assert(others[k] == j);
        }
    }
}

/// What a simulation is at one moment.
pub struct SimState {
    pub particles: Seq<ParticleState>,
    pub config: SimConfig,
}

impl SimState {
    /// Whether every particle keeps a trail exactly if the configuration
    /// switches trails on, with the configured number of positions and
    /// its own position as the newest of them.
    pub open spec fn trails_follow_config(self) -> bool {
        forall|i: int|
            0 <= i < self.particles.len() ==> self.config.admits(#[trigger] self.particles[i])
    }

    /// The particle that `insert` adds for a kind and a placement.
    pub open spec fn newcomer(self, kind: ParticleKind, placement: Placement) -> ParticleState {
        ParticleState::fresh(kind, placed(placement, self.config.lo), self.config.trail())
    }

    /// The simulation with no particle yet.
    pub open spec fn empty(config: SimConfig) -> SimState {
        SimState { particles: Seq::empty(), config }
    }

    /// The simulation with one more particle, after all the others.
    pub open spec fn inserted(self, kind: ParticleKind, placement: Placement) -> SimState {
        SimState { particles: self.particles.push(self.newcomer(kind, placement)), config: self.config }
    }

    /// The simulation built from a list of kinds and placements: its
    /// particles stand in the order of the list.
    pub open spec fn constructed(initial: Seq<(ParticleKind, Placement)>, config: SimConfig)
        -> SimState {
        SimState {
            particles: Seq::new(
                initial.len(),
                |i: int| Self::empty(config).newcomer(initial[i].0, initial[i].1),
            ),
            config,
        }
    }

    /// Why a step with these motions is refused, if it is: a lone particle
    /// has nothing to move it, and else there must be one motion for each
    /// particle.
    pub open spec fn step_refusal(self, motions: Seq<Motion>) -> Option<SimError> {
        if self.particles.len() == 1 {
            Some(SimError::InsufficientParticles)
        } else if motions.len() != self.particles.len() {
            Some(SimError::MotionCountMismatch)
        } else {
            None
        }
    }

    /// The simulation with each particle moved by the motion at its index.
    pub open spec fn moved(self, motions: Seq<Motion>) -> SimState {
        SimState {
            particles: Seq::new(self.particles.len(), |i: int| self.particles[i].moved(motions[i])),
            config: self.config,
        }
    }

    /// The simulation after a call of `step`: moved where the step is
    /// accepted, unchanged where it is refused.
    pub open spec fn stepped(self, motions: Seq<Motion>) -> SimState {
        if self.step_refusal(motions) is None {
            self.moved(motions)
        } else {
            self
        }
    }
}

/// An ordered collection of particles under one configuration.
#[derive(Debug)]
pub struct Simulation {
    particles: Vec<Particle>,
    config: SimConfig,
}

impl View for Simulation {
    type V = SimState;

    closed spec fn view(&self) -> SimState {
        SimState {
            particles: Seq::new(self.particles@.len(), |i: int| self.particles@[i]@),
            config: self.config,
        }
    }
}

impl Simulation {
    #[verifier::type_invariant]
    spec fn well_formed(&self) -> bool {
        self@.trails_follow_config()
    }

    /// A simulation of the listed particles, in the order of the list.
    pub fn construct(initial: Vec<(ParticleKind, Placement)>, config: SimConfig) -> (simulation:
        Simulation)
        ensures
            simulation@ == SimState::constructed(initial@, config),
            simulation@.trails_follow_config(),
    {
        let trail = if config.enable_trail { Some(config.trail_capacity) } else { None };
        let mut particles: Vec<Particle> = Vec::new();
        let mut i: usize = 0;
        while i < initial.len()
            invariant
                i <= initial@.len(),
                trail == config.trail(),
                particles@.len() == i,
                forall|j: int|
                    0 <= j < i ==> (#[trigger] particles@[j])@ == SimState::empty(config).newcomer(
                        initial@[j].0,
                        initial@[j].1,
                    ),
            decreases initial@.len() - i,
        {
            let (kind, placement) = initial[i];
            particles.push(Particle::new(kind, placement, config.lo, trail));
            i = i + 1;
        }
        let simulation = Simulation { particles, config };
        assert(simulation@.particles =~= SimState::constructed(initial@, config).particles);
        simulation
    }

    /// Appends one particle of the given kind, at rest where `placement`
    /// puts it.
    pub fn insert(&mut self, kind: ParticleKind, placement: Placement)
        ensures
            final(self)@ == old(self)@.inserted(kind, placement),
            final(self)@.particles.len() == old(self)@.particles.len() + 1,
            final(self)@.particles.last().kind == kind,
            final(self)@.particles.last().position == placed(placement, old(self)@.config.lo),
            final(self)@.particles.last().velocity == Vec3::origin(),
            final(self)@.particles.last().acceleration == Vec3::origin(),
            final(self)@.trails_follow_config(),
    {
        proof {
            use_type_invariant(&*self);
        }
        let trail = if self.config.enable_trail { Some(self.config.trail_capacity) } else { None };
        let particle = Particle::new(kind, placement, self.config.lo, trail);
        let mut particles: Vec<Particle> = Vec::new();
        std::mem::swap(&mut particles, &mut self.particles);
        particles.push(particle);
        proof {
            let config = self.config;
            assert forall|i: int| 0 <= i < particles@.len() implies config.admits(
                #[trigger] particles@[i]@,
            ) by {
                if i < particles@.len() - 1 {
                    assert(particles@[i]@ == old(self)@.particles[i]);
                }
            }
        }
        self.particles = particles;
        assert(self@.particles =~= old(self)@.inserted(kind, placement).particles);
    }

    /// The number of particles.
    pub fn len(&self) -> (count: usize)
        ensures
            count == self@.particles.len(),
    {
        self.particles.len()
    }

    /// The configuration that the simulation was made with.
    pub fn config(&self) -> (config: SimConfig)
        ensures
            config == self@.config,
    {
        self.config
    }

    /// The particle at `index`, if there is one.
    pub fn particle(&self, index: usize) -> (particle: Option<&Particle>)
        ensures
            particle is Some == (index < self@.particles.len()),
            particle is Some ==> particle->0@ == self@.particles[index as int],
            self@.trails_follow_config(),
    {
        proof {
            use_type_invariant(self);
        }
        if index < self.particles.len() {
            Some(&self.particles[index])
        } else {
            None
        }
    }

    /// The kinds of the particles, in their order.
    pub fn kinds(&self) -> (kinds: Vec<ParticleKind>)
        ensures
            kinds@ == Seq::new(self@.particles.len(), |i: int| self@.particles[i].kind),
    {
        let mut kinds: Vec<ParticleKind> = Vec::new();
        let mut i: usize = 0;
        while i < self.particles.len()
            invariant
                i <= self.particles@.len(),
                kinds@ == Seq::new(i as nat, |j: int| self.particles@[j]@.kind),
            decreases self.particles@.len() - i,
        {
            kinds.push(self.particles[i].kind());
            i = i + 1;
        }
        kinds
    }

    /// The positions of the particles, in their order.
    pub fn positions(&self) -> (positions: Vec<Vec3>)
        ensures
            positions@ == Seq::new(self@.particles.len(), |i: int| self@.particles[i].position),
    {
        let mut positions: Vec<Vec3> = Vec::new();
        let mut i: usize = 0;
        while i < self.particles.len()
            invariant
                i <= self.particles@.len(),
                positions@ == Seq::new(i as nat, |j: int| self.particles@[j]@.position),
            decreases self.particles@.len() - i,
        {
            positions.push(self.particles[i].position());
            i = i + 1;
        }
        positions
    }

    /// The indices of the particles that act on the particle at `index`:
    /// every other one, in ascending order. Fails where there is none.
    pub fn others(&self, index: usize) -> (others: Result<Vec<usize>, SimError>)
        ensures
            match others {
                Ok(list) => list@ == others_of(self@.particles.len(), index as int) && list@.len()
                    > 0,
                Err(error) => error == SimError::InsufficientParticles && others_of(
                    self@.particles.len(),
                    index as int,
                ).len() == 0,
            },
    {
        let count = self.particles.len();
        let mut list: Vec<usize> = Vec::new();
        let mut j: usize = 0;
        while j < count
            invariant
                j <= count,
                count == self.particles@.len(),
                list@ == others_of(count as nat, index as int).take(
                    if index < j { j - 1 } else { j as int },
                ),
            decreases count - j,
        {
            if j != index {
                list.push(j);
            }
            j = j + 1;
        }
        if list.len() == 0 {
            Err(SimError::InsufficientParticles)
        } else {
            Ok(list)
        }
    }

    /// Advances the simulation by one tick: every particle takes the
    /// motion at its index and records its new position in its trail.
    ///
    /// The motions are those that the host computed from the particles as
    /// they stand before this call. A simulation of exactly one particle
    /// cannot be stepped; one without particles steps to itself. Where the
    /// step is refused, nothing changes.
    pub fn step(&mut self, motions: &Vec<Motion>) -> (outcome: Result<(), SimError>)
        ensures
            final(self)@ == old(self)@.stepped(motions@),
            outcome == (match old(self)@.step_refusal(motions@) {
                Some(error) => Err::<(), SimError>(error),
                None => Ok::<(), SimError>(()),
            }),
            final(self)@.trails_follow_config(),
    {
        proof {
            use_type_invariant(&*self);
        }
        let count = self.particles.len();
        if count == 1 {
            return Err(SimError::InsufficientParticles);
        }
        if motions.len() != count {
            return Err(SimError::MotionCountMismatch);
        }
        let mut particles: Vec<Particle> = Vec::new();
        std::mem::swap(&mut particles, &mut self.particles);
        let ghost before = particles@;
        let mut i: usize = 0;
        while i < count
            invariant
                i <= count,
                count == before.len(),
                count == motions@.len(),
                particles@.len() == count,
                forall|j: int| 0 <= j < i ==> (#[trigger] particles@[j])@ == before[j]@.moved(motions@[j]),
                forall|j: int| i <= j < count ==> particles@[j] == before[j],
            decreases count - i,
        {
            particles[i].advance(motions[i]);
            i = i + 1;
        }
        proof {
            let config = self.config;
            assert forall|j: int| 0 <= j < particles@.len() implies config.admits(
                #[trigger] particles@[j]@,
            ) by {
                assert(before[j]@ == old(self)@.particles[j]);
                assert(particles@[j]@ == before[j]@.moved(motions@[j]));
            }
        }
        self.particles = particles;
        assert(self@.particles =~= old(self)@.moved(motions@).particles);
        Ok(())
    }
}

} // verus!
