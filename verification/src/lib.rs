//! Tick-driven stabilization controller for a single-joint inverted pendulum.
//!
//! Each simulation tick the host engine reads the pendulum's orientation and
//! hands it to the controller. The [`estimator`] turns the raw rotation into a
//! signed deviation from the hanging equilibrium and derives angular velocity
//! and acceleration by backward finite differences; the [`synthesizer`]
//! combines those estimates with fixed gains into a scalar control signal and
//! resolves it, together with any operator perturbation, into a planar force
//! along the rod's current direction. The [`controller`] module ties the two
//! together into a single per-tick entry point.
//!
//! All quantities are plain signed integers: angles in whole degrees, gains
//! and forces in the host's force units, directions in a fixed-point scale of
//! the host's choosing. The host converts its own representation at the
//! boundary.

pub mod controller;
pub mod estimator;
pub mod synthesizer;
