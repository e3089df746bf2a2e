//! Force synthesis: gain-weighted control signal, operator perturbation, and
//! resolution into a planar force along the rod's direction.

use vstd::prelude::*;

use crate::estimator::{fits_i64, ControllerState, StateModel};

verus! {

/// Force added along the rod for each held perturbation direction.
pub const PERTURBATION_MAGNITUDE: i64 = 1000000;

/// Mathematical model of a gain profile.
pub struct GainModel {
    /// Multiplier on the current deviation.
    pub proportional: int,
    /// Multiplier on the velocity estimate (velocity-like, not a true
    /// time-integral of the error, despite the integral role it plays in the
    /// three-term sum).
    pub velocity_gain: int,
    /// Multiplier on the acceleration estimate.
    pub acceleration_gain: int,
    /// Global scale applied to the whole three-term sum.
    pub output_scale: int,
}

/// Validity of a gain profile: the three term gains are non-negative.
pub open spec fn gains_wf(g: GainModel) -> bool {
    g.proportional >= 0 && g.velocity_gain >= 0 && g.acceleration_gain >= 0
}

/// Fixed multipliers combining the state estimates into a control signal.
#[derive(Clone, Copy, Debug, PartialEq, Eq)]
pub struct GainProfile {
    /// Multiplier on the current deviation.
    pub proportional: i64,
    /// Multiplier on the velocity estimate.
    pub velocity_gain: i64,
    /// Multiplier on the acceleration estimate.
    pub acceleration_gain: i64,
    /// Global scale applied to the whole three-term sum.
    pub output_scale: i64,
}

impl View for GainProfile {
    type V = GainModel;

    open spec fn view(&self) -> GainModel {
        GainModel {
            proportional: self.proportional as int,
            velocity_gain: self.velocity_gain as int,
            acceleration_gain: self.acceleration_gain as int,
            output_scale: self.output_scale as int,
        }
    }
}

/// The stabilizing tuning the demo pendulum runs with.
pub open spec fn reference_gains() -> GainModel {
    GainModel { proportional: 250000, velocity_gain: 1300000, acceleration_gain: 0, output_scale: 1 }
}

impl GainProfile {
    /// Builds a profile from the three non-negative term gains and the global
    /// output scale.
    pub fn new(proportional: i64, velocity_gain: i64, acceleration_gain: i64, output_scale: i64) -> (g:
        GainProfile)
        requires
            proportional >= 0,
            velocity_gain >= 0,
            acceleration_gain >= 0,
        ensures
            g@ == (GainModel {
                proportional: proportional as int,
                velocity_gain: velocity_gain as int,
                acceleration_gain: acceleration_gain as int,
                output_scale: output_scale as int,
            }),
            gains_wf(g@),
    {
        GainProfile { proportional, velocity_gain, acceleration_gain, output_scale }
    }
}

impl Default for GainProfile {
    /// The demo pendulum's tuning: proportional 250000, velocity 1300000, no
    /// acceleration term, unit output scale.
    fn default() -> (g: GainProfile)
        ensures
            g@ == reference_gains(),
            gains_wf(g@),
    {
        GainProfile { proportional: 250000, velocity_gain: 1300000, acceleration_gain: 0, output_scale: 1 }
    }
}

/// The proportional contribution: gain times current deviation.
pub open spec fn proportional_term(g: GainModel, s: StateModel) -> int {
    g.proportional * s.last_angle
}

/// The velocity contribution: gain times current velocity estimate.
pub open spec fn velocity_term(g: GainModel, s: StateModel) -> int {
    g.velocity_gain * s.velocity
}

/// The acceleration contribution: gain times current acceleration estimate.
pub open spec fn acceleration_term(g: GainModel, s: StateModel) -> int {
    g.acceleration_gain * s.acceleration
}

/// The synthesized control signal: the output scale times the sum of the
/// three gain-weighted contributions.
pub open spec fn signal_of(g: GainModel, s: StateModel) -> int {
    g.output_scale * (proportional_term(g, s) + velocity_term(g, s) + acceleration_term(g, s))
}

/// True when each of the three contributions fits into an `i64`.
pub open spec fn terms_fit(g: GainModel, s: StateModel) -> bool {
    fits_i64(proportional_term(g, s)) && fits_i64(velocity_term(g, s)) && fits_i64(
        acceleration_term(g, s),
    )
}

/// True when the whole signal computation stays inside `i64`.
pub open spec fn signal_fits(g: GainModel, s: StateModel) -> bool {
    terms_fit(g, s) && fits_i64(proportional_term(g, s) + velocity_term(g, s)) && fits_i64(
        proportional_term(g, s) + velocity_term(g, s) + acceleration_term(g, s),
    ) && fits_i64(signal_of(g, s))
}

/// Synthesizes the scalar control signal from the current state estimates.
pub fn signal(gains: &GainProfile, state: &ControllerState) -> (r: i64)
    requires
        signal_fits(gains@, state@),
    ensures
        r == signal_of(gains@, state@),
{
    let p: i64 = gains.proportional * state.last_angle;
    let v: i64 = gains.velocity_gain * state.velocity;
    let a: i64 = gains.acceleration_gain * state.acceleration;
    gains.output_scale * (p + v + a)
}

/// The current deviation and the three signal contributions, for a display
/// or telemetry sink; purely observational.
pub fn telemetry(gains: &GainProfile, state: &ControllerState) -> (t: (
    i64,
    i64,
    i64,
    i64,
))
    requires
        terms_fit(gains@, state@),
    ensures
        t.0 == state@.last_angle,
        t.1 == proportional_term(gains@, state@),
        t.2 == velocity_term(gains@, state@),
        t.3 == acceleration_term(gains@, state@),
{
    let p: i64 = gains.proportional * state.last_angle;
    let v: i64 = gains.velocity_gain * state.velocity;
    let a: i64 = gains.acceleration_gain * state.acceleration;
    (state.last_angle, p, v, a)
}

/// One tick's snapshot of the operator's held perturbation keys.
#[derive(Clone, Copy, Debug, PartialEq, Eq)]
pub struct InputSnapshot {
    /// Push along the rod's positive direction (the "left" key).
    pub push_left: bool,
    /// Push along the rod's negative direction (the "right" key).
    pub push_right: bool,
}

/// The operator perturbation scalar: a fixed magnitude along the rod for each
/// held direction; both held cancel out.
pub open spec fn perturbation_of(input: InputSnapshot) -> int {
    (if input.push_left {
        PERTURBATION_MAGNITUDE as int
    } else {
        0
    }) + (if input.push_right {
        -(PERTURBATION_MAGNITUDE as int)
    } else {
        0
    })
}

/// Computes the operator perturbation scalar for this tick's input snapshot.
pub fn perturbation(input: &InputSnapshot) -> (r: i64)
    ensures
        r == perturbation_of(*input),
{
    let mut r: i64 = 0;
    if input.push_left {
        r = r + PERTURBATION_MAGNITUDE;
    }
    if input.push_right {
        r = r - PERTURBATION_MAGNITUDE;
    }
    r
}

/// Mathematical model of a planar vector.
pub struct PlanarModel {
    pub x: int,
    pub y: int,
}

/// A planar vector of `i64` components: a rod direction in the host's
/// fixed-point scale, or an accumulated force.
#[derive(Clone, Copy, Debug, PartialEq, Eq)]
pub struct PlanarVector {
    pub x: i64,
    pub y: i64,
}

impl View for PlanarVector {
    type V = PlanarModel;

    open spec fn view(&self) -> PlanarModel {
        PlanarModel { x: self.x as int, y: self.y as int }
    }
}

/// A scalar resolved along a direction: each component of the direction
/// scaled by the signal.
pub open spec fn force_of(direction: PlanarModel, scalar: int) -> PlanarModel {
    PlanarModel { x: direction.x * scalar, y: direction.y * scalar }
}

/// True when resolving `scalar` along `direction` stays inside `i64`.
pub open spec fn resolve_fits(direction: PlanarModel, scalar: int) -> bool {
    fits_i64(direction.x * scalar) && fits_i64(direction.y * scalar)
}

/// True when adding `f` into the accumulator `acc` stays inside `i64`.
pub open spec fn accumulate_fits(acc: PlanarModel, f: PlanarModel) -> bool {
    fits_i64(acc.x + f.x) && fits_i64(acc.y + f.y)
}

/// Resolves a scalar signal into a world-frame force along the rod's current
/// direction (colinear with the rod, not perpendicular to it — the joint
/// constraint turns it into rotation indirectly).
pub fn resolve_force(direction: &PlanarVector, scalar: i64) -> (f: PlanarVector)
    requires
        resolve_fits(direction@, scalar as int),
    ensures
        f@ == force_of(direction@, scalar as int),
{
    PlanarVector { x: direction.x * scalar, y: direction.y * scalar }
}

impl PlanarVector {
    /// The zero vector, the accumulator's state after the engine's per-tick
    /// reset.
    pub fn zero() -> (v: PlanarVector)
        ensures
            v@.x == 0,
            v@.y == 0,
    {
        PlanarVector { x: 0, y: 0 }
    }

    /// Adds a force into this accumulator, component-wise.
    pub fn accumulate(&mut self, f: &PlanarVector)
        requires
            accumulate_fits(old(self)@, f@),
        ensures
            final(self)@.x == old(self)@.x + f@.x,
            final(self)@.y == old(self)@.y + f@.y,
    {
        self.x = self.x + f.x;
        self.y = self.y + f.y;
    }
}

/// The gain profile with every term gain scaled by `k`; the output scale is
/// untouched.
pub open spec fn scaled_gains(g: GainModel, k: int) -> GainModel {
    GainModel {
        proportional: k * g.proportional,
        velocity_gain: k * g.velocity_gain,
        acceleration_gain: k * g.acceleration_gain,
        output_scale: g.output_scale,
    }
}

/// Law: for a fixed state, scaling all three term gains by `k` scales the
/// synthesized signal by `k`.
pub proof fn lemma_signal_linear_in_gains(g: GainModel, s: StateModel, k: int)
    ensures
        signal_of(scaled_gains(g, k), s) == k * signal_of(g, s),
{
    let a: int = s.last_angle;
    let v: int = s.velocity;
    let c: int = s.acceleration;
    assert((k * g.proportional) * a == k * (g.proportional * a)) by (nonlinear_arith);
    assert((k * g.velocity_gain) * v == k * (g.velocity_gain * v)) by (nonlinear_arith);
    assert((k * g.acceleration_gain) * c == k * (g.acceleration_gain * c)) by (nonlinear_arith);
    let pa: int = g.proportional * a;
    let vv: int = g.velocity_gain * v;
    let cc: int = g.acceleration_gain * c;
    assert(k * pa + k * vv + k * cc == k * (pa + vv + cc)) by (nonlinear_arith);
    let t: int = pa + vv + cc;
    assert(g.output_scale * (k * t) == k * (g.output_scale * t)) by (nonlinear_arith);
}

/// Law: resolving the sum of two scalars along one direction yields the sum
/// of the two resolved force vectors, component-wise.
pub proof fn lemma_force_additive(direction: PlanarModel, s1: int, s2: int)
    ensures
        force_of(direction, s1 + s2).x == force_of(direction, s1).x + force_of(direction, s2).x,
        force_of(direction, s1 + s2).y == force_of(direction, s1).y + force_of(direction, s2).y,
{
    assert(direction.x * (s1 + s2) == direction.x * s1 + direction.x * s2) by (nonlinear_arith);
    assert(direction.y * (s1 + s2) == direction.y * s1 + direction.y * s2) by (nonlinear_arith);
}

} // verus!
