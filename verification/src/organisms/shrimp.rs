//! Shrimp dynamics: detritus consumption, nutrient-rich waste, population
//! growth and death, and water oxygen bookkeeping.

use vstd::prelude::*;
use crate::fixed::{
    SCALE, fx, fx_mul, add_cap, sub_floor, add_sub_clamp, spec_add_cap, spec_sub_floor,
    spec_clamp,
};
use crate::types::{Detritus, Nitrogen, Oxygen, Population, COLLAPSE_THRESHOLD, GAS_MAX, POP_MAX};
use crate::config::parameters::SimulationParameters;
use crate::errors::EcosystemResult;
use crate::state::{EcosystemStateV2, StateModel};
use crate::environmental::{
    detritus_availability, spec_saturating, spec_temperature_efficiency, temperature_efficiency,
    toxicity_factor, water_oxygen_efficiency,
};

verus! {

/// Shrimp graze detritus in proportion to their population.
pub open spec fn spec_detritus_consumption(
    m: StateModel,
    p: SimulationParameters,
    dt: u64,
) -> StateModel {
    let consumed = fx(
        fx(p.shrimp.detritus_consumption_rate as int, m.shrimp_pop as int),
        dt as int,
    );
    StateModel { detritus: spec_sub_floor(m.detritus as int, consumed, 0) as u64, ..m }
}

/// Shrimp waste is nutrient-rich and lands in the soil.
pub open spec fn spec_waste_production(
    m: StateModel,
    p: SimulationParameters,
    dt: u64,
) -> StateModel {
    let waste = fx(fx(p.shrimp.waste_production_rate as int, m.shrimp_pop as int), dt as int);
    StateModel {
        soil_nitrogen: spec_add_cap(m.soil_nitrogen as int, waste, GAS_MAX as int) as u64,
        ..m
    }
}

/// Growth driven by detritus, water oxygen and temperature; death scaled by
/// toxicity (currently inert).
pub open spec fn spec_shrimp_dynamics(
    m: StateModel,
    p: SimulationParameters,
    dt: u64,
) -> StateModel {
    let growth = fx(
        fx(
            fx(
                fx(
                    fx(p.shrimp.growth_rate as int, m.shrimp_pop as int),
                    spec_saturating(m.detritus as int, 2),
                ),
                spec_saturating(m.water_o2 as int, 21),
            ),
            spec_temperature_efficiency(m.temperature),
        ),
        dt as int,
    );
    let death = fx(
        fx(fx(p.shrimp.death_rate as int, m.shrimp_pop as int), SCALE as int),
        dt as int,
    );
    StateModel {
        shrimp_pop: spec_clamp(m.shrimp_pop as int + growth - death, 0, POP_MAX as int) as u64,
        ..m
    }
}

/// One shrimp step: consumption, waste, population dynamics.
pub open spec fn spec_update_shrimp(m: StateModel, p: SimulationParameters, dt: u64) -> StateModel {
    spec_shrimp_dynamics(spec_waste_production(spec_detritus_consumption(m, p, dt), p, dt), p, dt)
}

fn detritus_consumption(state: &mut EcosystemStateV2, params: &SimulationParameters, dt: u64)
    ensures
        final(state)@ == spec_detritus_consumption(old(state)@, *params, dt),
{
    proof {
        use_type_invariant(&state.detritus);
    }
    let consumed = fx_mul(
        fx_mul(params.shrimp.detritus_consumption_rate, state.shrimp_pop.value()),
        dt,
    );
    state.detritus = Detritus::clamped(sub_floor(state.detritus.value(), consumed, 0));
}

fn waste_production(state: &mut EcosystemStateV2, params: &SimulationParameters, dt: u64)
    ensures
        final(state)@ == spec_waste_production(old(state)@, *params, dt),
{
    let waste = fx_mul(fx_mul(params.shrimp.waste_production_rate, state.shrimp_pop.value()), dt);
    state.soil_nitrogen = Nitrogen::clamped(add_cap(state.soil_nitrogen.value(), waste, GAS_MAX));
}

fn shrimp_population_dynamics(state: &mut EcosystemStateV2, params: &SimulationParameters, dt: u64)
    ensures
        final(state)@ == spec_shrimp_dynamics(old(state)@, *params, dt),
{
    let detritus_factor = detritus_availability(state.detritus);
    let water_oxygen_factor = water_oxygen_efficiency(state.water_o2);
    let temperature_factor = temperature_efficiency(state.temperature);
    let growth = fx_mul(
        fx_mul(
            fx_mul(
                fx_mul(params.shrimp.growth_rate, state.shrimp_pop.value()),
                detritus_factor,
            ),
            water_oxygen_factor,
        ),
        temperature_factor,
    );
    let growth = fx_mul(growth, dt);
    let death = fx_mul(
        fx_mul(params.shrimp.death_rate, state.shrimp_pop.value()),
        SCALE + toxicity_factor(0),
    );
    let death = fx_mul(death, dt);
    state.shrimp_pop = Population::clamped(
        add_sub_clamp(state.shrimp_pop.value(), growth, death, POP_MAX),
    );
}

/// Updates the shrimp population and its exchanges for one step.
pub fn update_shrimp(
    state: &mut EcosystemStateV2,
    params: &SimulationParameters,
    dt: u64,
) -> (r: EcosystemResult<()>)
    ensures
        r is Ok,
        final(state)@ == spec_update_shrimp(old(state)@, *params, dt),
{
    detritus_consumption(state, params, dt);
    waste_production(state, params, dt);
    shrimp_population_dynamics(state, params, dt);
    Ok(())
}

/// True iff the shrimp population is at or below the collapse threshold.
pub fn are_shrimp_collapsed(state: &EcosystemStateV2) -> (r: bool)
    ensures
        r == (state@.shrimp_pop <= COLLAPSE_THRESHOLD),
{
    state.shrimp_pop.is_collapsed()
}

/// A snapshot of how well the shrimp are doing.
#[derive(Debug, Clone, PartialEq, Eq, Structural)]
pub struct ShrimpHealthStatus {
    pub population: u64,
    pub detritus_adequacy: u64,
    pub water_oxygen_adequacy: u64,
    pub temperature_adequacy: u64,
    pub is_growing: bool,
    pub is_stressed: bool,
    pub detritus_consumption_rate: u64,
    pub waste_production_rate: u64,
}

pub open spec fn spec_shrimp_health(m: StateModel) -> ShrimpHealthStatus {
    let detritus = spec_saturating(m.detritus as int, 2) as u64;
    let water_oxygen = spec_saturating(m.water_o2 as int, 21) as u64;
    let temperature = spec_temperature_efficiency(m.temperature) as u64;
    ShrimpHealthStatus {
        population: m.shrimp_pop,
        detritus_adequacy: detritus,
        water_oxygen_adequacy: water_oxygen,
        temperature_adequacy: temperature,
        is_growing: m.shrimp_pop > COLLAPSE_THRESHOLD && detritus > 100000 && water_oxygen
            > 300000,
        is_stressed: water_oxygen < 300000 || temperature < 300000,
        detritus_consumption_rate: fx(10000, m.shrimp_pop as int) as u64,
        waste_production_rate: fx(5000, m.shrimp_pop as int) as u64,
    }
}

pub fn shrimp_health_status(state: &EcosystemStateV2) -> (r: ShrimpHealthStatus)
    ensures
        r == spec_shrimp_health(state@),
{
    let population = state.shrimp_pop.value();
    let detritus_factor = detritus_availability(state.detritus);
    let water_oxygen_factor = water_oxygen_efficiency(state.water_o2);
    let temperature_factor = temperature_efficiency(state.temperature);
    ShrimpHealthStatus {
        population,
        detritus_adequacy: detritus_factor,
        water_oxygen_adequacy: water_oxygen_factor,
        temperature_adequacy: temperature_factor,
        is_growing: population > COLLAPSE_THRESHOLD && detritus_factor > 100000
            && water_oxygen_factor > 300000,
        is_stressed: water_oxygen_factor < 300000 || temperature_factor < 300000,
        detritus_consumption_rate: fx_mul(10000, population),
        waste_production_rate: fx_mul(5000, population),
    }
}

/// The benefits shrimp provide to the aquatic side of the bottle.
#[derive(Debug, Clone, PartialEq, Eq, Structural)]
pub struct ShrimpEcosystemBenefits {
    pub detritus_cleanup: u64,
    pub nutrient_contribution: u64,
    pub water_quality_improvement: u64,
    pub overall_aquatic_health: u64,
}

pub open spec fn spec_shrimp_benefits(m: StateModel) -> ShrimpEcosystemBenefits {
    let cleanup = fx(10000, m.shrimp_pop as int) as u64;
    let nutrients = fx(5000, m.shrimp_pop as int) as u64;
    ShrimpEcosystemBenefits {
        detritus_cleanup: cleanup,
        nutrient_contribution: nutrients,
        water_quality_improvement: fx(cleanup as int, 500000) as u64,
        overall_aquatic_health: spec_add_cap(
            cleanup as int,
            nutrients as int,
            2 * (SCALE as int),
        ) as u64,
    }
}

pub fn shrimp_ecosystem_benefits(state: &EcosystemStateV2) -> (r: ShrimpEcosystemBenefits)
    ensures
        r == spec_shrimp_benefits(state@),
{
    let cleanup = fx_mul(10000, state.shrimp_pop.value());
    let nutrients = fx_mul(5000, state.shrimp_pop.value());
    ShrimpEcosystemBenefits {
        detritus_cleanup: cleanup,
        nutrient_contribution: nutrients,
        water_quality_improvement: fx_mul(cleanup, 500000),
        overall_aquatic_health: add_cap(cleanup, nutrients, 2 * SCALE),
    }
}

/// Water oxygen drawn down by shrimp, in proportion to their population.
pub fn shrimp_oxygen_consumption(state: &EcosystemStateV2) -> (r: u64)
    ensures
        r == fx(1000, state@.shrimp_pop as int),
{
    fx_mul(1000, state.shrimp_pop.value())
}

/// Shrimp draw oxygen from the water; the surface then re-gains oxygen from
/// the air wherever the air is richer.
pub open spec fn spec_update_water_oxygen(m: StateModel, dt: u64) -> StateModel {
    let consumed = fx(fx(1000, m.shrimp_pop as int), dt as int);
    let after = spec_sub_floor(m.water_o2 as int, consumed, 0) as u64;
    let gained = if m.air_o2 >= after {
        fx(fx(10000, m.air_o2 - after), dt as int)
    } else {
        0
    };
    StateModel { water_o2: spec_add_cap(after as int, gained, GAS_MAX as int) as u64, ..m }
}

pub fn update_water_oxygen(state: &mut EcosystemStateV2, dt: u64) -> (r: EcosystemResult<()>)
    ensures
        r is Ok,
        final(state)@ == spec_update_water_oxygen(old(state)@, dt),
{
    let consumed = fx_mul(shrimp_oxygen_consumption(state), dt);
    let after = sub_floor(state.water_o2.percentage(), consumed, 0);
    let air = state.air_o2.percentage();
    let gained = if air >= after {
        fx_mul(fx_mul(10000, air - after), dt)
    } else {
        0
    };
    state.water_o2 = Oxygen::clamped(add_cap(after, gained, GAS_MAX));
    Ok(())
}

} // verus!
