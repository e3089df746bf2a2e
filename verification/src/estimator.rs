//! State estimation: angle normalization and backward finite differences.

use vstd::prelude::*;

verus! {

/// True when a mathematical integer fits into an `i64`.
pub open spec fn fits_i64(x: int) -> bool {
    i64::MIN <= x <= i64::MAX
}

/// Signed deviation from the hanging equilibrium, for a raw rotation `r` in
/// degrees with `-180 <= r <= 180`: `180 - |r|` when `r >= 0`, and
/// `-(180 - |r|)` otherwise. Hanging straight down (`r = ±180`) maps to 0;
/// full inversion (`r = 0`) maps to ±180.
pub open spec fn deviation_of(r: int) -> int {
    if r >= 0 {
        180 - r
    } else {
        -(180 - (-r))
    }
}

/// Mathematical model of the estimator's persistent state.
pub struct StateModel {
    /// Previous tick's committed deviation, in degrees.
    pub last_angle: int,
    /// Current velocity estimate, in degrees per tick.
    pub velocity: int,
    /// Previous tick's velocity estimate.
    pub last_velocity: int,
    /// Current acceleration estimate, in degrees per tick squared.
    pub acceleration: int,
    /// Reserved timestamp; unused by the control law.
    pub last_time: int,
}

/// The state left after the estimator consumes one normalized deviation:
/// acceleration from the two previous velocities, then the velocity from the
/// previous angle, then the new angle is committed.
pub open spec fn stepped(s: StateModel, deviation: int) -> StateModel {
    StateModel {
        acceleration: s.velocity - s.last_velocity,
        last_velocity: s.velocity,
        velocity: deviation - s.last_angle,
        last_angle: deviation,
        last_time: s.last_time,
    }
}

/// True when one estimator step from `s` on `deviation` stays inside `i64`.
pub open spec fn advance_fits(s: StateModel, deviation: int) -> bool {
    fits_i64(s.velocity - s.last_velocity) && fits_i64(deviation - s.last_angle)
}

/// The state reached by feeding a whole sequence of deviations, oldest first.
pub open spec fn run(s: StateModel, deviations: Seq<int>) -> StateModel
    decreases deviations.len(),
{
    if deviations.len() == 0 {
        s
    } else {
        stepped(run(s, deviations.drop_last()), deviations.last())
    }
}

/// Per-pendulum controller state, updated once per tick.
#[derive(Clone, Copy, Debug, PartialEq, Eq)]
pub struct ControllerState {
    /// Previous tick's committed deviation, in degrees.
    pub last_angle: i64,
    /// Current velocity estimate, in degrees per tick.
    pub velocity: i64,
    /// Previous tick's velocity estimate.
    pub last_velocity: i64,
    /// Current acceleration estimate, in degrees per tick squared.
    pub acceleration: i64,
    /// Reserved timestamp; unused by the control law.
    pub last_time: i64,
}

impl View for ControllerState {
    type V = StateModel;

    open spec fn view(&self) -> StateModel {
        StateModel {
            last_angle: self.last_angle as int,
            velocity: self.velocity as int,
            last_velocity: self.last_velocity as int,
            acceleration: self.acceleration as int,
            last_time: self.last_time as int,
        }
    }
}

/// The all-zero initial state.
pub open spec fn initial_state() -> StateModel {
    StateModel { last_angle: 0, velocity: 0, last_velocity: 0, acceleration: 0, last_time: 0 }
}

impl Default for ControllerState {
    /// Fresh state with every estimate at zero.
    fn default() -> (s: ControllerState)
        ensures
            s@ == initial_state(),
    {
        ControllerState { last_angle: 0, velocity: 0, last_velocity: 0, acceleration: 0, last_time: 0 }
    }
}

/// Normalizes a raw rotation into the signed deviation from equilibrium.
pub fn normalize_deviation(rotation: i64) -> (d: i64)
    requires
        -180 <= rotation <= 180,
    ensures
        d == deviation_of(rotation as int),
        -180 <= d <= 180,
{
    if rotation >= 0 {
        180 - rotation
    } else {
        -(180 - (-rotation))
    }
}

impl ControllerState {
    /// One estimator step on an already-normalized deviation: derives the
    /// acceleration from the two previous velocities, the velocity from the
    /// previous angle, and commits the new angle, in that fixed order.
    pub fn advance(&mut self, deviation: i64)
        requires
            advance_fits(old(self)@, deviation as int),
        ensures
            final(self)@ == stepped(old(self)@, deviation as int),
    {
        self.acceleration = self.velocity - self.last_velocity;
        self.last_velocity = self.velocity;
        self.velocity = deviation - self.last_angle;
        self.last_angle = deviation;
    }

    /// Full estimator update from a raw rotation reading: normalization
    /// followed by one finite-difference step.
    pub fn observe(&mut self, rotation: i64)
        requires
            -180 <= rotation <= 180,
            advance_fits(old(self)@, deviation_of(rotation as int)),
        ensures
            final(self)@ == stepped(old(self)@, deviation_of(rotation as int)),
    {
        let deviation: i64 = normalize_deviation(rotation);
        self.advance(deviation);
    }
}

/// Law: over the whole admissible range the deviation follows the two-branch
/// formula and stays within a half turn.
pub proof fn lemma_deviation_formula(r: int)
    requires
        -180 <= r <= 180,
    ensures
        r >= 0 ==> deviation_of(r) == 180 - r,
        r < 0 ==> deviation_of(r) == -(180 + r),
        -180 <= deviation_of(r) <= 180,
{
}

/// Law: away from the inversion boundary the deviation moves by exactly one
/// degree per degree of rotation, so the normalization is continuous there.
pub proof fn lemma_deviation_unit_step(r: int)
    requires
        -180 <= r < 180,
        r != -1,
    ensures
        deviation_of(r + 1) == deviation_of(r) - 1,
{
}

/// Law: the two ends of the raw-rotation range meet: both name the hanging
/// equilibrium, so the normalization is continuous across the ±180° wrap.
pub proof fn lemma_deviation_wrap_continuous()
    ensures
        deviation_of(180) == 0,
        deviation_of(-180) == 0,
{
}

/// Law: the one discontinuity sits at full inversion, where the deviation
/// jumps from near -180 to +180 as the raw rotation crosses zero.
pub proof fn lemma_deviation_inversion_jump()
    ensures
        deviation_of(0) == 180,
        deviation_of(-1) == -179,
{
}

/// Feeding the first `n` elements and then one more is one `stepped` call on
/// the shorter run.
pub proof fn lemma_run_take_step(s: StateModel, deviations: Seq<int>, n: int)
    requires
        1 <= n <= deviations.len(),
    ensures
        run(s, deviations.take(n)) == stepped(run(s, deviations.take(n - 1)), deviations[n - 1]),
{
    assert(deviations.take(n).drop_last() =~= deviations.take(n - 1));
    assert(deviations.take(n).last() == deviations[n - 1]);
}

/// Law: the finite-difference law for a fed sequence of deviations. After the
/// step that consumes `deviations[n]` the velocity estimate is the difference
/// of the two most recent deviations; the acceleration committed by that same
/// step differences the velocity estimates of the two preceding steps (the
/// acceleration is derived from the previous tick's velocities, so it trails
/// the velocity law by one tick).
pub proof fn lemma_finite_difference(s: StateModel, deviations: Seq<int>, n: int)
    requires
        1 <= n < deviations.len(),
    ensures
        run(s, deviations.take(n + 1)).velocity == deviations[n] - deviations[n - 1],
        run(s, deviations.take(n + 1)).acceleration == run(s, deviations.take(n)).velocity - run(
            s,
            deviations.take(n - 1),
        ).velocity,
{
    lemma_run_take_step(s, deviations, n + 1);
    lemma_run_take_step(s, deviations, n);
}

} // verus!
