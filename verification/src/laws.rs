//! What holds of every system, whatever its particles and however often it is
//! updated.

use crate::fixed::{lemma_scaled_range, ONE};
use crate::generator::lcg_nth;
use crate::particle::ParticleState;
use crate::system::{seeded_particle, seeded_particles, SystemState};
use vstd::prelude::*;

verus! {

/// An update changes neither the number of particles nor the bounds, however
/// often it is repeated.
pub proof fn count_and_bounds_are_constant(system: SystemState, n: nat)
    ensures
        system.steps(n).particles.len() == system.particles.len(),
        system.steps(n).width == system.width,
        system.steps(n).height == system.height,
    decreases n,
{
    if n > 0 {
        count_and_bounds_are_constant(system, (n - 1) as nat);
    }
}

/// After one update of a region that is not empty, every particle lies in it,
/// wherever it was before.
pub proof fn one_update_brings_into_bounds(system: SystemState)
    requires
        system.width >= 0,
        system.height >= 0,
    ensures
        system.step().in_bounds(),
{
}

/// After any number of updates but none, every particle lies in the region.
pub proof fn updates_keep_in_bounds(system: SystemState, n: nat)
    requires
        system.width >= 0,
        system.height >= 0,
        n >= 1,
    ensures
        system.steps(n).in_bounds(),
{
    count_and_bounds_are_constant(system, (n - 1) as nat);
    one_update_brings_into_bounds(system.steps((n - 1) as nat));
}

/// A freshly seeded system lies in its region before the first update too, and
/// so after any number of updates.
pub proof fn seeded_system_is_in_bounds(state: u32, count: nat, width: int, height: int, n: nat)
    requires
        width >= 0,
        height >= 0,
    ensures
        (SystemState { particles: seeded_particles(state, count, width, height), width, height })
            .steps(n).in_bounds(),
{
    let system = SystemState {
        particles: seeded_particles(state, count, width, height),
        width,
        height,
    };
    if n == 0 {
        assert forall|i: int| 0 <= i < system.particles.len() implies (
        #[trigger] system.particles[i]).in_bounds(width, height) by {
            let start = lcg_nth(state, (6 * i) as nat);
            lemma_scaled_range(lcg_nth(start, 1), width);
            lemma_scaled_range(lcg_nth(start, 2), height);
        }
    } else {
        updates_keep_in_bounds(system, n);
    }
}

/// A seeded particle has a velocity in `[-2, 2)` on each axis, a radius in
/// `[2, 5)` and a hue in `[0, 360)`, in whole units.
pub proof fn seeded_particle_ranges(state: u32, width: int, height: int)
    ensures
        ({
            let p = seeded_particle(state, width, height);
            &&& -2 * ONE <= p.vx < 2 * ONE
            &&& -2 * ONE <= p.vy < 2 * ONE
            &&& 2 * ONE <= p.radius < 5 * ONE
            &&& 0 <= p.hue < 360 * ONE
        }),
{
}

/// No update changes a particle's radius or hue, nor the size of its velocity on
/// either axis: a reflection only reverses the sign.
pub proof fn updates_keep_attributes(system: SystemState, n: nat, i: int)
    requires
        0 <= i < system.particles.len(),
    ensures
        system.steps(n).particles.len() == system.particles.len(),
        system.steps(n).particles[i].radius == system.particles[i].radius,
        system.steps(n).particles[i].hue == system.particles[i].hue,
        system.steps(n).particles[i].vx == system.particles[i].vx || system.steps(
            n,
        ).particles[i].vx == -system.particles[i].vx,
        system.steps(n).particles[i].vy == system.particles[i].vy || system.steps(
            n,
        ).particles[i].vy == -system.particles[i].vy,
    decreases n,
{
    if n > 0 {
        updates_keep_attributes(system, (n - 1) as nat, i);
    }
}

/// A system without particles is left as it is by any number of updates.
pub proof fn empty_system_is_unchanged(system: SystemState, n: nat)
    requires
        system.particles.len() == 0,
    ensures
        system.steps(n) == system,
    decreases n,
{
    if n > 0 {
        empty_system_is_unchanged(system, (n - 1) as nat);
        assert(system.step().particles =~= system.particles);
    }
}

/// Particles do not influence one another: what an update makes of a particle
/// depends on that particle and on the bounds alone.
pub proof fn particles_move_independently(a: SystemState, b: SystemState, i: int, j: int, n: nat)
    requires
        0 <= i < a.particles.len(),
        0 <= j < b.particles.len(),
        a.particles[i] == b.particles[j],
        a.width == b.width,
        a.height == b.height,
    ensures
        a.steps(n).particles.len() == a.particles.len(),
        b.steps(n).particles.len() == b.particles.len(),
        a.steps(n).particles[i] == b.steps(n).particles[j],
    decreases n,
{
    count_and_bounds_are_constant(a, n);
    count_and_bounds_are_constant(b, n);
    if n > 0 {
        particles_move_independently(a, b, i, j, (n - 1) as nat);
        count_and_bounds_are_constant(a, (n - 1) as nat);
        count_and_bounds_are_constant(b, (n - 1) as nat);
    }
}

/// Two systems that were seeded from generators in the same state, with the same
/// count and the same bounds, are equal, and equal again after the same number of
/// updates.
pub proof fn equal_seeds_give_equal_systems(
    a: SystemState,
    b: SystemState,
    state: u32,
    count: nat,
    width: int,
    height: int,
    n: nat,
)
    requires
        a == (SystemState { particles: seeded_particles(state, count, width, height), width, height }),
        b == (SystemState { particles: seeded_particles(state, count, width, height), width, height }),
    ensures
        a == b,
        a.steps(n) == b.steps(n),
{
}

/// One step of a particle on an axis whose range is not empty: the coordinate
/// that comes out lies in the range, and the velocity is reversed exactly when
/// the particle would have left it.
pub proof fn step_reflects_and_clamps(p: ParticleState, width: int, height: int)
    requires
        width >= 0,
        height >= 0,
    ensures
        p.step(width, height).in_bounds(width, height),
        0 <= p.x + p.vx <= width ==> p.step(width, height).x == p.x + p.vx && p.step(
            width,
            height,
        ).vx == p.vx,
        p.x + p.vx < 0 ==> p.step(width, height).x == 0 && p.step(width, height).vx == -p.vx,
        p.x + p.vx > width ==> p.step(width, height).x == width && p.step(width, height).vx
            == -p.vx,
        0 <= p.y + p.vy <= height ==> p.step(width, height).y == p.y + p.vy && p.step(
            width,
            height,
        ).vy == p.vy,
        p.y + p.vy < 0 ==> p.step(width, height).y == 0 && p.step(width, height).vy == -p.vy,
        p.y + p.vy > height ==> p.step(width, height).y == height && p.step(width, height).vy
            == -p.vy,
{
}

} // verus!
