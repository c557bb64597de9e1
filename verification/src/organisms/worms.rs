//! Worm dynamics: soil aeration, decomposition of detritus into nutrients,
//! and population growth and death.

use vstd::prelude::*;
use crate::fixed::{
    SCALE, fx, fx_mul, add_cap, sub_floor, add_sub_clamp, spec_add_cap, spec_sub_floor,
    spec_clamp,
};
use crate::types::{Aeration, Detritus, Nitrogen, Population, COLLAPSE_THRESHOLD, GAS_MAX, POP_MAX, SOIL_MAX};
use crate::config::parameters::SimulationParameters;
use crate::errors::EcosystemResult;
use crate::state::{EcosystemStateV2, StateModel};
use crate::environmental::{
    detritus_availability, moisture_efficiency, spec_saturating, spec_temperature_efficiency,
    temperature_efficiency, toxicity_factor,
};

verus! {

/// The share of decomposed detritus that returns as soil nitrogen.
pub const DECOMPOSITION_YIELD: u64 = 300000;

/// Worms loosen the soil in proportion to their population.
pub open spec fn spec_soil_aeration(m: StateModel, p: SimulationParameters, dt: u64) -> StateModel {
    let increase = fx(fx(p.worm.aeration_rate as int, m.worm_pop as int), dt as int);
    StateModel {
        soil_aeration: spec_add_cap(m.soil_aeration as int, increase, SOIL_MAX as int) as u64,
        ..m
    }
}

/// Decomposition: detritus is consumed and a share returns as nitrogen.
pub open spec fn spec_decomposition(m: StateModel, p: SimulationParameters, dt: u64) -> StateModel {
    let consumed = fx(fx(p.worm.decomposition_rate as int, m.worm_pop as int), dt as int);
    let released = fx(consumed, DECOMPOSITION_YIELD as int);
    StateModel {
        detritus: spec_sub_floor(m.detritus as int, consumed, 0) as u64,
        soil_nitrogen: spec_add_cap(m.soil_nitrogen as int, released, GAS_MAX as int) as u64,
        ..m
    }
}

/// Growth driven by detritus, moisture and temperature; death scaled by
/// toxicity (currently inert).
pub open spec fn spec_worm_dynamics(m: StateModel, p: SimulationParameters, dt: u64) -> StateModel {
    let growth = fx(
        fx(
            fx(
                fx(
                    fx(p.worm.growth_rate as int, m.worm_pop as int),
                    spec_saturating(m.detritus as int, 2),
                ),
                spec_saturating(m.soil_moisture as int, 2),
            ),
            spec_temperature_efficiency(m.temperature),
        ),
        dt as int,
    );
    let death = fx(fx(fx(p.worm.death_rate as int, m.worm_pop as int), SCALE as int), dt as int);
    StateModel {
        worm_pop: spec_clamp(m.worm_pop as int + growth - death, 0, POP_MAX as int) as u64,
        ..m
    }
}

/// One worm step: aeration, decomposition, population dynamics.
pub open spec fn spec_update_worms(m: StateModel, p: SimulationParameters, dt: u64) -> StateModel {
    spec_worm_dynamics(spec_decomposition(spec_soil_aeration(m, p, dt), p, dt), p, dt)
}

fn soil_aeration(state: &mut EcosystemStateV2, params: &SimulationParameters, dt: u64)
    ensures
        final(state)@ == spec_soil_aeration(old(state)@, *params, dt),
{
    let increase = fx_mul(fx_mul(params.worm.aeration_rate, state.worm_pop.value()), dt);
    state.soil_aeration = Aeration::clamped(
        add_cap(state.soil_aeration.value(), increase, SOIL_MAX),
    );
}

fn decomposition(state: &mut EcosystemStateV2, params: &SimulationParameters, dt: u64)
    ensures
        final(state)@ == spec_decomposition(old(state)@, *params, dt),
{
    proof {
        use_type_invariant(&state.detritus);
    }
    let consumed = fx_mul(fx_mul(params.worm.decomposition_rate, state.worm_pop.value()), dt);
    let released = fx_mul(consumed, DECOMPOSITION_YIELD);
    state.detritus = Detritus::clamped(sub_floor(state.detritus.value(), consumed, 0));
    state.soil_nitrogen = Nitrogen::clamped(
        add_cap(state.soil_nitrogen.value(), released, GAS_MAX),
    );
}

fn worm_population_dynamics(state: &mut EcosystemStateV2, params: &SimulationParameters, dt: u64)
    ensures
        final(state)@ == spec_worm_dynamics(old(state)@, *params, dt),
{
    let detritus_factor = detritus_availability(state.detritus);
    let moisture_factor = moisture_efficiency(state.soil_moisture);
    let temperature_factor = temperature_efficiency(state.temperature);
    let growth = fx_mul(
        fx_mul(
            fx_mul(
                fx_mul(params.worm.growth_rate, state.worm_pop.value()),
                detritus_factor,
            ),
            moisture_factor,
        ),
        temperature_factor,
    );
    let growth = fx_mul(growth, dt);
    let death = fx_mul(
        fx_mul(params.worm.death_rate, state.worm_pop.value()),
        SCALE + toxicity_factor(0),
    );
    let death = fx_mul(death, dt);
    state.worm_pop = Population::clamped(
        add_sub_clamp(state.worm_pop.value(), growth, death, POP_MAX),
    );
}

/// Updates the worm population and its soil work for one step.
pub fn update_worms(
    state: &mut EcosystemStateV2,
    params: &SimulationParameters,
    dt: u64,
) -> (r: EcosystemResult<()>)
    ensures
        r is Ok,
        final(state)@ == spec_update_worms(old(state)@, *params, dt),
{
    soil_aeration(state, params, dt);
    decomposition(state, params, dt);
    worm_population_dynamics(state, params, dt);
    Ok(())
}

/// True iff the worm population is at or below the collapse threshold.
pub fn are_worms_collapsed(state: &EcosystemStateV2) -> (r: bool)
    ensures
        r == (state@.worm_pop <= COLLAPSE_THRESHOLD),
{
    state.worm_pop.is_collapsed()
}

/// A snapshot of how well the worms are doing.
#[derive(Debug, Clone, PartialEq, Eq, Structural)]
pub struct WormHealthStatus {
    pub population: u64,
    pub detritus_adequacy: u64,
    pub moisture_adequacy: u64,
    pub temperature_adequacy: u64,
    pub is_growing: bool,
    pub is_stressed: bool,
    pub soil_aeration_contribution: u64,
    pub decomposition_rate: u64,
}

pub open spec fn spec_worm_health(m: StateModel) -> WormHealthStatus {
    let detritus = spec_saturating(m.detritus as int, 2) as u64;
    let moisture = spec_saturating(m.soil_moisture as int, 2) as u64;
    let temperature = spec_temperature_efficiency(m.temperature) as u64;
    WormHealthStatus {
        population: m.worm_pop,
        detritus_adequacy: detritus,
        moisture_adequacy: moisture,
        temperature_adequacy: temperature,
        is_growing: m.worm_pop > COLLAPSE_THRESHOLD && detritus > 100000 && moisture > 200000,
        is_stressed: moisture < 300000 || temperature < 300000,
        soil_aeration_contribution: fx(10000, m.worm_pop as int) as u64,
        decomposition_rate: fx(10000, m.worm_pop as int) as u64,
    }
}

pub fn worm_health_status(state: &EcosystemStateV2) -> (r: WormHealthStatus)
    ensures
        r == spec_worm_health(state@),
{
    let population = state.worm_pop.value();
    let detritus_factor = detritus_availability(state.detritus);
    let moisture_factor = moisture_efficiency(state.soil_moisture);
    let temperature_factor = temperature_efficiency(state.temperature);
    WormHealthStatus {
        population,
        detritus_adequacy: detritus_factor,
        moisture_adequacy: moisture_factor,
        temperature_adequacy: temperature_factor,
        is_growing: population > COLLAPSE_THRESHOLD && detritus_factor > 100000 && moisture_factor
            > 200000,
        is_stressed: moisture_factor < 300000 || temperature_factor < 300000,
        soil_aeration_contribution: fx_mul(10000, population),
        decomposition_rate: fx_mul(10000, population),
    }
}

/// The benefits worms provide to the wider ecosystem.
#[derive(Debug, Clone, PartialEq, Eq, Structural)]
pub struct WormEcosystemBenefits {
    pub soil_aeration: u64,
    pub organic_matter_recycling: u64,
    pub nutrient_cycling: u64,
    pub overall_soil_health: u64,
}

pub open spec fn spec_worm_benefits(m: StateModel) -> WormEcosystemBenefits {
    let decomposition = fx(10000, m.worm_pop as int) as u64;
    let cycling = fx(decomposition as int, DECOMPOSITION_YIELD as int) as u64;
    let overall = spec_add_cap(m.soil_aeration as int, cycling as int, 2 * (SCALE as int)) as u64;
    WormEcosystemBenefits {
        soil_aeration: m.soil_aeration,
        organic_matter_recycling: decomposition,
        nutrient_cycling: cycling,
        overall_soil_health: overall,
    }
}

pub fn worm_ecosystem_benefits(state: &EcosystemStateV2) -> (r: WormEcosystemBenefits)
    ensures
        r == spec_worm_benefits(state@),
{
    let aeration_benefit = state.soil_aeration.value();
    let decomposition_benefit = fx_mul(10000, state.worm_pop.value());
    let nutrient_cycling = fx_mul(decomposition_benefit, DECOMPOSITION_YIELD);
    WormEcosystemBenefits {
        soil_aeration: aeration_benefit,
        organic_matter_recycling: decomposition_benefit,
        nutrient_cycling,
        overall_soil_health: add_cap(aeration_benefit, nutrient_cycling, 2 * SCALE),
    }
}

} // verus!
