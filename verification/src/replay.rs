//! Sequences of calls on a simulation, and what holds after every one of
//! them.

use vstd::prelude::*;
use crate::force::{mass_of, ParticleKind};
use crate::particle::{Motion, Placement};
use crate::scalar::Vec3;
use crate::simulation::{SimConfig, SimState};

verus! {

/// One call on a simulation, with what the host handed over in it.
pub enum Command {
    /// A call of `insert`.
    Insert(ParticleKind, Placement),
    /// A call of `step` with these motions.
    Step(Seq<Motion>),
}

impl SimState {
    /// The positions of the particles, in their order.
    pub open spec fn positions(self) -> Seq<Vec3> {
        Seq::new(self.particles.len(), |i: int| self.particles[i].position)
    }

    /// The simulation after one call.
    pub open spec fn after(self, command: Command) -> SimState {
        match command {
            Command::Insert(kind, placement) => self.inserted(kind, placement),
            Command::Step(motions) => self.stepped(motions),
        }
    }

    /// The simulation after a sequence of calls, made in order.
    pub open spec fn run(self, commands: Seq<Command>) -> SimState
        decreases commands.len(),
    {
        if commands.len() == 0 {
            self
        } else {
            self.run(commands.drop_last()).after(commands.last())
        }
    }
}

/// The number of calls of `insert` in a sequence of calls.
pub open spec fn insertions(commands: Seq<Command>) -> nat
    decreases commands.len(),
{
    if commands.len() == 0 {
        0
    } else {
        insertions(commands.drop_last()) + (if commands.last() is Insert {
            1nat
        } else {
            0nat
        })
    }
}

/// Whether two sequences of calls are the same, call by call: the same
/// insertions, and steps with the same motions.
pub open spec fn same_commands(first: Seq<Command>, second: Seq<Command>) -> bool {
    &&& first.len() == second.len()
    &&& forall|k: int|
        0 <= k < first.len() ==> match (#[trigger] first[k], second[k]) {
            (Command::Insert(kind, placement), Command::Insert(kind2, placement2)) => kind == kind2
                && placement == placement2,
            (Command::Step(motions), Command::Step(motions2)) => motions.len() == motions2.len()
                && forall|i: int| 0 <= i < motions.len() ==> motions[i] == motions2[i],
            _ => false,
        }
}

/// Two runs that start from the same list of particles under the same
/// configuration and make the same calls, with the same draws and the same
/// motions, stand in the same state after every call, and so show the same
/// positions.
pub proof fn lemma_equal_runs_agree(
    initial: Seq<(ParticleKind, Placement)>,
    config: SimConfig,
    first: Seq<Command>,
    second: Seq<Command>,
)
    requires
        same_commands(first, second),
    ensures
        forall|n: int|
            0 <= n <= first.len() ==> SimState::constructed(initial, config).run(
                #[trigger] first.take(n),
            ) == SimState::constructed(initial, config).run(second.take(n)),
        forall|n: int|
            0 <= n <= first.len() ==> SimState::constructed(initial, config).run(
                #[trigger] first.take(n),
            ).positions() == SimState::constructed(initial, config).run(second.take(n)).positions(),
{
    assert forall|k: int| 0 <= k < first.len() implies #[trigger] first[k] == second[k] by {
        match (first[k], second[k]) {
            (Command::Step(motions), Command::Step(motions2)) => {
                assert(motions =~= motions2);
            },
            _ => {},
        }
    }
    assert(first =~= second);
}

/// Whatever calls are made, particles are only ever added: each call of
/// `insert` adds one, at the end, and no call removes or reorders any.
/// The particles keep their kind and the mass of their kind, and each
/// keeps a trail exactly if the configuration says so.
pub proof fn lemma_run_keeps_particles(
    initial: Seq<(ParticleKind, Placement)>,
    config: SimConfig,
    commands: Seq<Command>,
)
    ensures
        SimState::constructed(initial, config).run(commands).config == config,
        SimState::constructed(initial, config).run(commands).particles.len() == initial.len()
            + insertions(commands),
        forall|i: int|
            0 <= i < initial.len() ==> (#[trigger] SimState::constructed(initial, config).run(
                commands,
            ).particles[i]).kind == initial[i].0,
        forall|i: int|
            0 <= i < initial.len() + insertions(commands) ==> (#[trigger] SimState::constructed(
                initial,
                config,
            ).run(commands).particles[i]).mass == mass_of(
                SimState::constructed(initial, config).run(commands).particles[i].kind,
            ),
        SimState::constructed(initial, config).run(commands).trails_follow_config(),
    decreases commands.len(),
{
    let start = SimState::constructed(initial, config);
    if commands.len() > 0 {
        lemma_run_keeps_particles(initial, config, commands.drop_last());
        let before = start.run(commands.drop_last());
        let after = start.run(commands);
        assert(after == before.after(commands.last()));
        assert forall|i: int| 0 <= i < initial.len() implies (#[trigger] after.particles[i]).kind
            == initial[i].0 by {
            assert(before.particles[i].kind == initial[i].0);
        }
        assert forall|i: int| 0 <= i < after.particles.len() implies (#[trigger] after.particles[i]).mass
            == mass_of(after.particles[i].kind) by {
            if i < before.particles.len() {
                assert(before.particles[i].mass == mass_of(before.particles[i].kind));
            }
        }
        assert forall|i: int| 0 <= i < after.particles.len() implies config.admits(
            #[trigger] after.particles[i],
        ) by {
            if i < before.particles.len() {
                assert(config.admits(before.particles[i]));
            }
        }
    }
}

} // verus!
