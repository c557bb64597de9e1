//! Laws of the simulation that relate several functions, stated once and
//! proved over the same spec functions the executable contracts use.

use vstd::prelude::*;
use crate::fixed::{SCALE, fx, lemma_fx_le, lemma_fx_mono};
use crate::config::V2Config;
use crate::config::difficulty::spec_scaling;
use crate::config::parameters::{spec_apply_difficulty, spec_default_parameters};
use crate::state::{spec_air_remainder, spec_seeded_model};
use crate::simulation::{spec_run_steps, spec_tick};

verus! {

/// After the air is renormalized, nitrogen is exactly the remainder: the
/// three shares sum to one hundred percent wherever oxygen and carbon
/// dioxide leave room, and nitrogen is floored at zero where they do not.
pub proof fn lemma_air_remainder_sums(o2: int, co2: int)
    requires
        0 <= o2,
        0 <= co2,
    ensures
        o2 + co2 <= 100 * SCALE ==> o2 + co2 + spec_air_remainder(o2, co2) == 100 * SCALE,
        o2 + co2 > 100 * SCALE ==> spec_air_remainder(o2, co2) == 0,
{
}

/// Every tick ends with that renormalization: in the state a tick returns,
/// atmospheric nitrogen is the air remainder of the oxygen and carbon
/// dioxide it returns.
pub proof fn lemma_tick_air_composition(
    m: crate::state::StateModel,
    p: crate::config::parameters::SimulationParameters,
    is_day: bool,
)
    ensures
        spec_tick(m, p, is_day).air_n2 == spec_air_remainder(
            spec_tick(m, p, is_day).air_o2 as int,
            spec_tick(m, p, is_day).air_co2 as int,
        ),
{
}

/// One tick keeps every quantity within its declared domain: organism
/// updates and penalties saturate at the domain boundaries, and the final
/// clamp renormalizes the air. With the constructors validating the
/// initial state, every state a run passes through stays in domain.
#[verifier::rlimit(100)]
pub proof fn lemma_tick_preserves_domains(
    m: crate::state::StateModel,
    p: crate::config::parameters::SimulationParameters,
    is_day: bool,
)
    requires
        crate::state::spec_model_wf(m),
    ensures
        crate::state::spec_model_wf(spec_tick(m, p, is_day)),
{
    broadcast use crate::fixed::lemma_fx_range;

}

/// A whole run, then, never leaves the declared domains: every
/// intermediate and final state of the trial loop is well-formed.
pub proof fn lemma_run_preserves_domains(
    m: crate::state::StateModel,
    p: crate::config::parameters::SimulationParameters,
    step: nat,
    days: nat,
    day_cap: nat,
)
    requires
        crate::state::spec_model_wf(m),
    ensures
        crate::state::spec_model_wf(spec_run_steps(m, p, step, days, day_cap).0),
    decreases 2 * day_cap - step,
{
    if step >= 2 * day_cap {
    } else {
        let m1 = spec_tick(m, p, step % 2 == 0);
        lemma_tick_preserves_domains(m, p, step % 2 == 0);
        if crate::state::spec_is_collapsed(m1) {
        } else {
            let days1 = if step % 2 == 0 {
                days + 1
            } else {
                days
            };
            if days1 >= day_cap {
            } else {
                lemma_run_preserves_domains(m1, p, step + 1, days1, day_cap);
            }
        }
    }
}

/// Two trials constructed with the same seed and configuration produce
/// identical state trajectories: the whole run is a function of the
/// configuration and the seed alone.
pub proof fn lemma_trial_determinism(
    c1: V2Config,
    c2: V2Config,
    seed1: u64,
    seed2: u64,
    day_cap: nat,
)
    requires
        c1 == c2,
        seed1 == seed2,
    ensures
        spec_run_steps(spec_seeded_model(c1, seed1), c1.parameters, 0, 0, day_cap)
            == spec_run_steps(spec_seeded_model(c2, seed2), c2.parameters, 0, 0, day_cap),
{
}

/// Difficulty reparametrizes the default rates monotonically: a higher
/// level never raises a growth-side rate and never lowers a stress-side
/// rate, so risk never decreases with difficulty.
pub proof fn lemma_difficulty_monotone(level1: u64, level2: u64)
    requires
        level1 <= level2,
        level2 <= SCALE,
    ensures
        ({
            let p1 = spec_apply_difficulty(spec_default_parameters(), spec_scaling(level1));
            let p2 = spec_apply_difficulty(spec_default_parameters(), spec_scaling(level2));
            &&& p2.photosynthesis.base_rate <= p1.photosynthesis.base_rate
            &&& p2.photosynthesis.co2_efficiency <= p1.photosynthesis.co2_efficiency
            &&& p2.respiration.base_rate >= p1.respiration.base_rate
            &&& p2.microbial.growth_rate <= p1.microbial.growth_rate
            &&& p2.worm.growth_rate <= p1.worm.growth_rate
            &&& p2.shrimp.growth_rate <= p1.shrimp.growth_rate
            &&& p2.microbial.death_rate >= p1.microbial.death_rate
            &&& p2.worm.death_rate >= p1.worm.death_rate
            &&& p2.shrimp.death_rate >= p1.shrimp.death_rate
            &&& p2.environmental.rock_buffer_rate <= p1.environmental.rock_buffer_rate
            &&& p2.environmental.water_buffer_rate <= p1.environmental.water_buffer_rate
            &&& p2.environmental.ph_acidification_rate >= p1.environmental.ph_acidification_rate
            &&& p2.environmental.plant_nitrogen_uptake >= p1.environmental.plant_nitrogen_uptake
        }),
{
    let s1 = spec_scaling(level1);
    let s2 = spec_scaling(level2);
    lemma_fx_mono(700000, level1 as int, level2 as int);
    lemma_fx_mono(2000000, level1 as int, level2 as int);
    lemma_fx_mono(1500000, level1 as int, level2 as int);
    lemma_fx_mono(800000, level1 as int, level2 as int);
    lemma_fx_le(700000, level2 as int);
    lemma_fx_le(2000000, level2 as int);
    lemma_fx_le(1500000, level2 as int);
    lemma_fx_le(800000, level2 as int);
    lemma_fx_nonneg_all(level1 as int);
    // Growth-side rates shrink as the penalties grow.
    lemma_fx_mono(100000, SCALE - s2.photosynthesis_penalty, SCALE - s1.photosynthesis_penalty);
    lemma_fx_mono(
        1500000,
        SCALE - s2.photosynthesis_penalty / 2,
        SCALE - s1.photosynthesis_penalty / 2,
    );
    lemma_fx_mono(10000, SCALE - s2.growth_penalty, SCALE - s1.growth_penalty);
    lemma_fx_mono(2000, SCALE - s2.buffer_reduction, SCALE - s1.buffer_reduction);
    lemma_fx_mono(1000, SCALE - s2.buffer_reduction, SCALE - s1.buffer_reduction);
    // Stress-side rates grow with the increases.
    lemma_fx_mono(2000, SCALE + s1.respiration_increase, SCALE + s2.respiration_increase);
    lemma_fx_mono(5000, SCALE + s1.death_rate_increase, SCALE + s2.death_rate_increase);
    lemma_fx_mono(1000, SCALE + s1.death_rate_increase, SCALE + s2.death_rate_increase);
    lemma_fx_mono(2000, SCALE + s1.growth_penalty, SCALE + s2.growth_penalty);
}

/// The derived scaling factors are nonnegative, so an attenuated rate
/// never exceeds the rate it was derived from.
proof fn lemma_fx_nonneg_all(level: int)
    requires
        0 <= level,
    ensures
        fx(700000, level) >= 0,
        fx(2000000, level) >= 0,
        fx(1500000, level) >= 0,
        fx(800000, level) >= 0,
{
    assert(700000 * level >= 0) by (nonlinear_arith)
        requires
            0 <= level,
    ;
    assert(2000000 * level >= 0) by (nonlinear_arith)
        requires
            0 <= level,
    ;
    assert(1500000 * level >= 0) by (nonlinear_arith)
        requires
            0 <= level,
    ;
    assert(800000 * level >= 0) by (nonlinear_arith)
        requires
            0 <= level,
    ;
    assert(700000 * level / (SCALE as int) >= 0) by (nonlinear_arith)
        requires
            700000 * level >= 0,
    ;
    assert(2000000 * level / (SCALE as int) >= 0) by (nonlinear_arith)
        requires
            2000000 * level >= 0,
    ;
    assert(1500000 * level / (SCALE as int) >= 0) by (nonlinear_arith)
        requires
            1500000 * level >= 0,
    ;
    assert(800000 * level / (SCALE as int) >= 0) by (nonlinear_arith)
        requires
            800000 * level >= 0,
    ;
}

} // verus!
