//! The per-tick control loop: estimator update followed by force synthesis,
//! accumulated into the pendulum's external-force accumulator.

use vstd::prelude::*;

use crate::estimator::{
    advance_fits, deviation_of, fits_i64, stepped, ControllerState, StateModel,
};
use crate::synthesizer::{
    accumulate_fits, force_of, lemma_force_additive, perturbation, perturbation_of, reference_gains,
    resolve_fits, resolve_force, signal, signal_fits, signal_of, GainModel, GainProfile,
    InputSnapshot, PlanarModel, PlanarVector,
};

verus! {

/// The total scalar pushed along the rod this tick: the synthesized control
/// signal for the just-updated state, plus the operator perturbation.
pub open spec fn tick_scalar(g: GainModel, s_after: StateModel, input: InputSnapshot) -> int {
    signal_of(g, s_after) + perturbation_of(input)
}

/// True when one whole tick — estimator step, signal, perturbation sum,
/// resolution, and accumulation — stays inside `i64`.
pub open spec fn tick_fits(
    s: StateModel,
    g: GainModel,
    rotation: int,
    input: InputSnapshot,
    direction: PlanarModel,
    acc: PlanarModel,
) -> bool {
    let s_after = stepped(s, deviation_of(rotation));
    advance_fits(s, deviation_of(rotation)) && signal_fits(g, s_after) && fits_i64(
        tick_scalar(g, s_after, input),
    ) && resolve_fits(direction, tick_scalar(g, s_after, input)) && accumulate_fits(
        acc,
        force_of(direction, tick_scalar(g, s_after, input)),
    )
}

/// One full controller tick. Updates the estimator state from the raw
/// rotation, synthesizes the corrective signal, adds the operator
/// perturbation, resolves the total along the rod's current direction, and
/// adds the resulting force into the engine's accumulator.
pub fn tick(
    state: &mut ControllerState,
    gains: &GainProfile,
    rotation: i64,
    input: &InputSnapshot,
    direction: &PlanarVector,
    force: &mut PlanarVector,
)
    requires
        -180 <= rotation <= 180,
        tick_fits(old(state)@, gains@, rotation as int, *input, direction@, old(force)@),
    ensures
        final(state)@ == stepped(old(state)@, deviation_of(rotation as int)),
        final(force)@.x == old(force)@.x + force_of(
            direction@,
            tick_scalar(gains@, final(state)@, *input),
        ).x,
        final(force)@.y == old(force)@.y + force_of(
            direction@,
            tick_scalar(gains@, final(state)@, *input),
        ).y,
{
    state.observe(rotation);
    let corrective: i64 = signal(gains, state);
    let pushed: i64 = perturbation(input);
    let total: i64 = corrective + pushed;
    let f: PlanarVector = resolve_force(direction, total);
    force.accumulate(&f);
}

/// Law: zero-input stability. From a state whose recent deviations were zero
/// (committed angle and velocity estimate both zero), feeding two further
/// zero deviations drives velocity and acceleration to exactly zero, makes
/// the synthesized signal exactly zero, and reaches a fixed point that
/// further zero deviations do not leave.
pub proof fn lemma_zero_input_stability(s: StateModel, g: GainModel)
    requires
        s.last_angle == 0,
        s.velocity == 0,
    ensures
        stepped(s, 0).velocity == 0,
        stepped(stepped(s, 0), 0).velocity == 0,
        stepped(stepped(s, 0), 0).acceleration == 0,
        signal_of(g, stepped(stepped(s, 0), 0)) == 0,
        stepped(stepped(stepped(s, 0), 0), 0) == stepped(stepped(s, 0), 0),
{
}

/// Law: the per-tick preconditions are dischargeable. For the demo tuning, a
/// state whose recent history came from whole half-turn deviations, a rod
/// direction within the host's fixed-point scale, and a freshly reset
/// accumulator, one whole tick stays inside `i64`, so a host that feeds the
/// controller such values can call `tick` every tick without further checks.
pub proof fn lemma_reference_tick_in_range(
    s: StateModel,
    rotation: int,
    input: InputSnapshot,
    direction: PlanarModel,
    acc: PlanarModel,
)
    requires
        -180 <= rotation <= 180,
        -180 <= s.last_angle <= 180,
        -360 <= s.velocity <= 360,
        -360 <= s.last_velocity <= 360,
        -10000 <= direction.x <= 10000,
        -10000 <= direction.y <= 10000,
        acc.x == 0,
        acc.y == 0,
    ensures
        tick_fits(s, reference_gains(), rotation, input, direction, acc),
{
    let s_after = stepped(s, deviation_of(rotation));
    let g = reference_gains();
    assert(-360 <= s_after.velocity <= 360);
    assert(-720 <= s_after.acceleration <= 720);
    let t: int = tick_scalar(g, s_after, input);
    assert(-514000000 <= t <= 514000000);
    assert(-5140000000000 <= direction.x * t <= 5140000000000) by (nonlinear_arith)
        requires
            -10000 <= direction.x <= 10000,
            -514000000 <= t <= 514000000,
    ;
    assert(-5140000000000 <= direction.y * t <= 5140000000000) by (nonlinear_arith)
        requires
            -10000 <= direction.y <= 10000,
            -514000000 <= t <= 514000000,
    ;
}

/// Law: perturbation additivity. With perturbation input active, the force
/// applied this tick equals the corrective force vector plus the fixed
/// perturbation force vector, both resolved from the same orientation.
pub proof fn lemma_perturbation_additivity(
    g: GainModel,
    s_after: StateModel,
    input: InputSnapshot,
    direction: PlanarModel,
)
    ensures
        force_of(direction, tick_scalar(g, s_after, input)).x == force_of(
            direction,
            signal_of(g, s_after),
        ).x + force_of(direction, perturbation_of(input)).x,
        force_of(direction, tick_scalar(g, s_after, input)).y == force_of(
            direction,
            signal_of(g, s_after),
        ).y + force_of(direction, perturbation_of(input)).y,
{
    lemma_force_additive(direction, signal_of(g, s_after), perturbation_of(input));
}

} // verus!
