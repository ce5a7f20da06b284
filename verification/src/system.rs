//! The particle system: an ordered collection of particles in a bounded region.

use crate::fixed::{scale, scaled, ONE};
use crate::generator::{lcg_nth, lemma_lcg_nth_add, PseudoRandomGenerator, SEED};
use crate::particle::{Particle, ParticleState};
use vstd::prelude::*;

verus! {

/// The particle that is seeded from the six draws after `state`, taken in this
/// order: `x`, `y`, `vx`, `vy`, `radius`, `hue`.
///
/// With `r` the fraction that a draw stands for, the position is `r * width` and
/// `r * height`, rounded down to a raw unit; a velocity is `(r - 1/2) * 4`; the
/// radius is `2 + r * 3`; the hue is `r * 360`. In raw units a draw is its own
/// fraction, so all but the position are exact.
pub open spec fn seeded_particle(state: u32, width: int, height: int) -> ParticleState {
    ParticleState {
        x: scaled(lcg_nth(state, 1), width),
        y: scaled(lcg_nth(state, 2), height),
        vx: 4 * lcg_nth(state, 3) - 2 * ONE,
        vy: 4 * lcg_nth(state, 4) - 2 * ONE,
        radius: 2 * ONE + 3 * lcg_nth(state, 5),
        hue: 360 * lcg_nth(state, 6),
    }
}

/// The particles of a system of `count` particles whose generator starts in
/// `state`: particle `k` takes the draws `6 * k + 1` to `6 * k + 6`.
pub open spec fn seeded_particles(state: u32, count: nat, width: int, height: int) -> Seq<
    ParticleState,
> {
    Seq::new(count, |k: int| seeded_particle(lcg_nth(state, (6 * k) as nat), width, height))
}

/// What a system is: its particles in creation order, and its bounds.
pub struct SystemState {
    pub particles: Seq<ParticleState>,
    pub width: int,
    pub height: int,
}

impl SystemState {
    /// The system after one update: every particle has made one step, the order
    /// and the bounds are as before.
    pub open spec fn step(self) -> SystemState {
        SystemState {
            particles: Seq::new(
                self.particles.len(),
                |i: int| self.particles[i].step(self.width, self.height),
            ),
            width: self.width,
            height: self.height,
        }
    }

    /// The system after `n` updates.
    pub open spec fn steps(self, n: nat) -> SystemState
        decreases n,
    {
        if n == 0 {
            self
        } else {
            self.steps((n - 1) as nat).step()
        }
    }

    /// Whether every particle lies in the region.
    pub open spec fn in_bounds(self) -> bool {
        forall|i: int|
            0 <= i < self.particles.len() ==> (#[trigger] self.particles[i]).in_bounds(
                self.width,
                self.height,
            )
    }
}

/// The states of a sequence of particles, in the same order.
pub open spec fn states(particles: Seq<Particle>) -> Seq<ParticleState> {
    Seq::new(particles.len(), |i: int| particles[i]@)
}

/// A fixed collection of particles that move in the region `[0, width] x [0, height]`.
pub struct ParticleSystem {
    particles: Vec<Particle>,
    width: i64,
    height: i64,
}

impl View for ParticleSystem {
    type V = SystemState;

    closed spec fn view(&self) -> SystemState {
        SystemState {
            particles: states(self.particles@),
            width: self.width as int,
            height: self.height as int,
        }
    }
}

/// Seeds one particle from the next six draws of the generator.
fn seed_particle(generator: &mut PseudoRandomGenerator, width: i64, height: i64) -> (p: Particle)
    ensures
        p@ == seeded_particle(old(generator).state(), width as int, height as int),
        final(generator).state() == lcg_nth(old(generator).state(), 6),
{
    proof {
        reveal_with_fuel(lcg_nth, 7);
    }
    let x: i64 = scale(generator.next(), width);
    let y: i64 = scale(generator.next(), height);
    let vx: i64 = 4 * (generator.next() as i64) - 2 * ONE;
    let vy: i64 = 4 * (generator.next() as i64) - 2 * ONE;
    let radius: i64 = 2 * ONE + 3 * (generator.next() as i64);
    let hue: i64 = 360 * (generator.next() as i64);
    Particle::new(x, y, vx, vy, radius, hue)
}

impl ParticleSystem {
    /// A system of `count` particles, seeded from a fresh generator.
    pub fn new(count: usize, width: i64, height: i64) -> (system: ParticleSystem)
        ensures
            system@ == (SystemState {
                particles: seeded_particles(SEED, count as nat, width as int, height as int),
                width: width as int,
                height: height as int,
            }),
    {
        let mut generator = PseudoRandomGenerator::new();
        ParticleSystem::seeded(&mut generator, count, width, height)
    }

    /// A system of `count` particles, seeded from the given generator, which is
    /// left `6 * count` draws further on.
    pub fn seeded(
        generator: &mut PseudoRandomGenerator,
        count: usize,
        width: i64,
        height: i64,
    ) -> (system: ParticleSystem)
        ensures
            system@ == (SystemState {
                particles: seeded_particles(
                    old(generator).state(),
                    count as nat,
                    width as int,
                    height as int,
                ),
                width: width as int,
                height: height as int,
            }),
            final(generator).state() == lcg_nth(old(generator).state(), (6 * count) as nat),
    {
        let ghost start = generator.state();
        let mut particles: Vec<Particle> = Vec::new();
        let mut made: usize = 0;
        while made < count
            invariant
                made <= count,
                particles@.len() == made,
                generator.state() == lcg_nth(start, (6 * made) as nat),
                forall|k: int|
                    0 <= k < made ==> (#[trigger] particles@[k])@ == seeded_particle(
                        lcg_nth(start, (6 * k) as nat),
                        width as int,
                        height as int,
                    ),
            decreases count - made,
        {
            proof {
                lemma_lcg_nth_add(start, (6 * made) as nat, 6);
            }
            let particle = seed_particle(generator, width, height);
            particles.push(particle);
            made = made + 1;
        }
        let system = ParticleSystem { particles, width, height };
        assert(system@.particles =~= seeded_particles(
            start,
            count as nat,
            width as int,
            height as int,
        ));
        system
    }

    /// A system that holds the given particles, in the given order.
    pub fn from_particles(particles: Vec<Particle>, width: i64, height: i64) -> (system:
        ParticleSystem)
        ensures
            system@ == (SystemState {
                particles: states(particles@),
                width: width as int,
                height: height as int,
            }),
    {
        ParticleSystem { particles, width, height }
    }

    /// Advances every particle by one step, in order: each coordinate moves by its
    /// velocity, the velocity is reversed where the moved coordinate lies outside
    /// the region, and the coordinate is then clamped into the region.
    ///
    /// The number of particles and the bounds stay as they are, and where the
    /// region is not empty, every particle lies in it afterwards.
    pub fn update(&mut self)
        ensures
            final(self)@ == old(self)@.step(),
            final(self)@.particles.len() == old(self)@.particles.len(),
            final(self)@.width >= 0 && final(self)@.height >= 0 ==> final(self)@.in_bounds(),
    {
        let ghost before = self.particles@;
        let count: usize = self.particles.len();
        let mut i: usize = 0;
        while i < count
            invariant
                i <= count,
                self.particles@.len() == count,
                before.len() == count,
                self.width == old(self).width,
                self.height == old(self).height,
                forall|j: int|
                    0 <= j < i ==> (#[trigger] self.particles@[j])@ == before[j]@.step(
                        self.width as int,
                        self.height as int,
                    ),
                forall|j: int| i <= j < count ==> #[trigger] self.particles@[j] == before[j],
            decreases count - i,
        {
            let moved: Particle = self.particles[i].advanced(self.width, self.height);
            self.particles.set(i, moved);
            i = i + 1;
        }
        assert(self@.particles =~= old(self)@.step().particles);
    }

    /// A copy of the particles, in system order. The copy is the caller's own:
    /// nothing done to it reaches the system.
    pub fn get_particles(&self) -> (snapshot: Vec<Particle>)
        ensures
            snapshot@.len() == self@.particles.len(),
            states(snapshot@) == self@.particles,
    {
        let snapshot = self.particles.clone();
        assert(states(snapshot@) =~= states(self.particles@));
        snapshot
    }

    /// The number of particles.
    pub fn get_particle_count(&self) -> (count: usize)
        ensures
            count == self@.particles.len(),
    {
        self.particles.len()
    }
}

} // verus!
