//! A single particle and the rule that moves it along one axis.

use vstd::prelude::*;

verus! {

/// Whether a coordinate lies outside the closed range from zero to `upper`.
pub open spec fn is_outside(position: int, upper: int) -> bool {
    position < 0 || position > upper
}

/// The coordinate in `[0, upper]` that is nearest to `position`; zero where
/// `upper` is negative and the range is empty.
pub open spec fn clamped(position: int, upper: int) -> int {
    if position < 0 || upper < 0 {
        0
    } else if position > upper {
        upper
    } else {
        position
    }
}

/// The coordinate after one step: moved by the velocity, then clamped.
pub open spec fn next_position(position: int, velocity: int, upper: int) -> int {
    clamped(position + velocity, upper)
}

/// The velocity after one step: reversed exactly when the moved coordinate, before
/// it is clamped, lies outside the range.
pub open spec fn next_velocity(position: int, velocity: int, upper: int) -> int {
    if is_outside(position + velocity, upper) {
        -velocity
    } else {
        velocity
    }
}

/// What a particle is: six scalars, each a count of raw units.
pub struct ParticleState {
    pub x: int,
    pub y: int,
    pub vx: int,
    pub vy: int,
    pub radius: int,
    pub hue: int,
}

impl ParticleState {
    /// The particle after one step in a region of the given width and height.
    /// The two axes move independently; radius and hue never change.
    pub open spec fn step(self, width: int, height: int) -> ParticleState {
        ParticleState {
            x: next_position(self.x, self.vx, width),
            y: next_position(self.y, self.vy, height),
            vx: next_velocity(self.x, self.vx, width),
            vy: next_velocity(self.y, self.vy, height),
            radius: self.radius,
            hue: self.hue,
        }
    }

    /// Whether the particle lies in the region `[0, width] x [0, height]`.
    pub open spec fn in_bounds(self, width: int, height: int) -> bool {
        0 <= self.x <= width && 0 <= self.y <= height
    }
}

/// A moving point with a radius and a hue.
///
/// A velocity is created from an `i64` and only ever changes its sign, so it is
/// held in an `i128`, where every such value can be negated.
#[derive(Clone, Copy, Debug, PartialEq, Eq)]
pub struct Particle {
    x: i64,
    y: i64,
    vx: i128,
    vy: i128,
    radius: i64,
    hue: i64,
}

/// Whether a velocity is an `i64` or the negation of one.
spec fn is_velocity(v: int) -> bool {
    -0x8000_0000_0000_0000 <= v <= 0x8000_0000_0000_0000
}

impl View for Particle {
    type V = ParticleState;

    closed spec fn view(&self) -> ParticleState {
        ParticleState {
            x: self.x as int,
            y: self.y as int,
            vx: self.vx as int,
            vy: self.vy as int,
            radius: self.radius as int,
            hue: self.hue as int,
        }
    }
}

impl Particle {
    #[verifier::type_invariant]
    spec fn velocities_can_be_reversed(self) -> bool {
        is_velocity(self.vx as int) && is_velocity(self.vy as int)
    }

    /// A particle with exactly the six given values. No value is refused: any
    /// position, velocity, radius and hue is taken as it is.
    pub fn new(x: i64, y: i64, vx: i64, vy: i64, radius: i64, hue: i64) -> (p: Particle)
        ensures
            p@ == (ParticleState {
                x: x as int,
                y: y as int,
                vx: vx as int,
                vy: vy as int,
                radius: radius as int,
                hue: hue as int,
            }),
    {
        Particle { x, y, vx: vx as i128, vy: vy as i128, radius, hue }
    }

    /// The horizontal position.
    pub fn x(&self) -> (r: i64)
        ensures
            r == self@.x,
    {
        self.x
    }

    /// The vertical position.
    pub fn y(&self) -> (r: i64)
        ensures
            r == self@.y,
    {
        self.y
    }

    /// The horizontal velocity.
    pub fn vx(&self) -> (r: i128)
        ensures
            r == self@.vx,
    {
        self.vx
    }

    /// The vertical velocity.
    pub fn vy(&self) -> (r: i128)
        ensures
            r == self@.vy,
    {
        self.vy
    }

    /// The radius.
    pub fn radius(&self) -> (r: i64)
        ensures
            r == self@.radius,
    {
        self.radius
    }

    /// The hue.
    pub fn hue(&self) -> (r: i64)
        ensures
            r == self@.hue,
    {
        self.hue
    }

    /// The particle one step later, in a region of the given width and height.
    pub(crate) fn advanced(&self, width: i64, height: i64) -> (p: Particle)
        ensures
            p@ == self@.step(width as int, height as int),
    {
        proof {
            use_type_invariant(self);
        }
        let (x, vx) = step_axis(self.x, self.vx, width);
        let (y, vy) = step_axis(self.y, self.vy, height);
        Particle { x, y, vx, vy, radius: self.radius, hue: self.hue }
    }
}

/// Moves one coordinate by its velocity, reverses the velocity where the moved
/// coordinate left the range, and clamps the coordinate into the range.
fn step_axis(position: i64, velocity: i128, upper: i64) -> (r: (i64, i128))
    requires
        is_velocity(velocity as int),
    ensures
        r.0 == next_position(position as int, velocity as int, upper as int),
        r.1 == next_velocity(position as int, velocity as int, upper as int),
        is_velocity(r.1 as int),
{
    let moved: i128 = position as i128 + velocity;
    let velocity_after: i128 = if moved < 0 || moved > upper as i128 {
        -velocity
    } else {
        velocity
    };
    let position_after: i64 = if moved < 0 || upper < 0 {
        0
    } else if moved > upper as i128 {
        upper
    } else {
        moved as i64
    };
    (position_after, velocity_after)
}

} // verus!
