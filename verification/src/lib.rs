//! A bounded two-dimensional particle simulation on fixed-point coordinates.
//!
//! A [`ParticleSystem`] owns a fixed number of particles in the region
//! `[0, width] x [0, height]`. Each update moves every particle by its velocity,
//! reverses the velocity on an axis where the particle left the region, and
//! clamps the particle back into it. The particles are seeded from a
//! [`PseudoRandomGenerator`], so a system is a function of its seed, its count
//! and its bounds alone.
//!
//! All scalars are fixed-point numbers with 32 fractional bits: see [`fixed`].

pub mod fixed;
pub mod generator;
pub mod laws;
pub mod particle;
pub mod system;

pub use generator::PseudoRandomGenerator;
pub use particle::Particle;
pub use system::ParticleSystem;
