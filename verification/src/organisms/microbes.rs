//! Microbe dynamics: nitrogen fixation, population growth and death, and
//! respiration.

use vstd::prelude::*;
use crate::fixed::{
    SCALE, fx, fx_mul, add_cap, sub_floor, add_sub_clamp, spec_add_cap, spec_sub_floor,
    spec_clamp,
};
use crate::types::{CarbonDioxide, Nitrogen, Oxygen, Population, COLLAPSE_THRESHOLD, GAS_MAX, POP_MAX};
use crate::config::parameters::SimulationParameters;
use crate::errors::EcosystemResult;
use crate::state::{EcosystemStateV2, StateModel};
use crate::environmental::{
    moisture_efficiency, nutrient_efficiency, oxygen_efficiency, ph_efficiency,
    spec_ph_efficiency, spec_saturating, spec_temperature_efficiency, temperature_efficiency,
};

verus! {

/// Nitrogen fixation: soil nitrogen rises with oxygen, moisture and the
/// microbe population; a tenth of the fixed amount is drawn from the air.
pub open spec fn spec_nitrogen_fixation(
    m: StateModel,
    p: SimulationParameters,
    dt: u64,
) -> StateModel {
    let rate = fx(
        fx(
            fx(p.microbial.nitrogen_fixation_rate as int, m.microbe_pop as int),
            spec_saturating(m.air_o2 as int, 21),
        ),
        spec_saturating(m.soil_moisture as int, 2),
    );
    let fixed = fx(rate, dt as int);
    let n2_consumed = fx(fixed, 100000);
    StateModel {
        soil_nitrogen: spec_add_cap(m.soil_nitrogen as int, fixed, GAS_MAX as int) as u64,
        air_n2: spec_sub_floor(m.air_n2 as int, n2_consumed, 0) as u64,
        ..m
    }
}

/// Population growth scaled by nutrients, moisture and temperature; death
/// scaled by how far pH and oxygen sit from their optima.
pub open spec fn spec_microbe_dynamics(
    m: StateModel,
    p: SimulationParameters,
    dt: u64,
) -> StateModel {
    let growth = fx(
        fx(
            fx(
                fx(
                    fx(p.microbial.growth_rate as int, m.microbe_pop as int),
                    spec_saturating(m.soil_nitrogen as int, 2),
                ),
                spec_saturating(m.soil_moisture as int, 2),
            ),
            spec_temperature_efficiency(m.temperature),
        ),
        dt as int,
    );
    let death = fx(
        fx(
            fx(
                fx(p.microbial.death_rate as int, m.microbe_pop as int),
                SCALE - spec_ph_efficiency(m.soil_ph),
            ),
            SCALE - spec_saturating(m.air_o2 as int, 21),
        ),
        dt as int,
    );
    StateModel {
        microbe_pop: spec_clamp(
            m.microbe_pop as int + growth - death,
            0,
            POP_MAX as int,
        ) as u64,
        ..m
    }
}

/// Respiration: O2 consumed and CO2 produced in proportion to population.
pub open spec fn spec_microbe_respiration(
    m: StateModel,
    p: SimulationParameters,
    dt: u64,
) -> StateModel {
    let rate = fx(p.microbial.respiration_rate as int, m.microbe_pop as int);
    let o2_consumed = fx(rate, dt as int);
    let co2_produced = fx(o2_consumed, p.microbial.respiration_co2_ratio as int);
    StateModel {
        air_o2: spec_sub_floor(m.air_o2 as int, o2_consumed, 0) as u64,
        air_co2: spec_add_cap(m.air_co2 as int, co2_produced, GAS_MAX as int) as u64,
        ..m
    }
}

/// One microbe step: fixation, population dynamics, respiration.
pub open spec fn spec_update_microbes(
    m: StateModel,
    p: SimulationParameters,
    dt: u64,
) -> StateModel {
    spec_microbe_respiration(spec_microbe_dynamics(spec_nitrogen_fixation(m, p, dt), p, dt), p, dt)
}

fn nitrogen_fixation(state: &mut EcosystemStateV2, params: &SimulationParameters, dt: u64)
    ensures
        final(state)@ == spec_nitrogen_fixation(old(state)@, *params, dt),
{
    proof {
        use_type_invariant(&state.air_n2);
    }
    let oxygen_factor = oxygen_efficiency(state.air_o2);
    let moisture_factor = moisture_efficiency(state.soil_moisture);
    let rate = fx_mul(
        fx_mul(
            fx_mul(params.microbial.nitrogen_fixation_rate, state.microbe_pop.value()),
            oxygen_factor,
        ),
        moisture_factor,
    );
    let fixed = fx_mul(rate, dt);
    let n2_consumed = fx_mul(fixed, 100000);
    state.soil_nitrogen = Nitrogen::clamped(add_cap(state.soil_nitrogen.value(), fixed, GAS_MAX));
    state.air_n2 = Nitrogen::clamped(sub_floor(state.air_n2.value(), n2_consumed, 0));
}

fn microbe_population_dynamics(
    state: &mut EcosystemStateV2,
    params: &SimulationParameters,
    dt: u64,
)
    ensures
        final(state)@ == spec_microbe_dynamics(old(state)@, *params, dt),
{
    let nutrient_factor = nutrient_efficiency(state.soil_nitrogen);
    let moisture_factor = moisture_efficiency(state.soil_moisture);
    let temperature_factor = temperature_efficiency(state.temperature);
    let growth = fx_mul(
        fx_mul(
            fx_mul(
                fx_mul(params.microbial.growth_rate, state.microbe_pop.value()),
                nutrient_factor,
            ),
            moisture_factor,
        ),
        temperature_factor,
    );
    let growth = fx_mul(growth, dt);
    let ph_factor = ph_efficiency(state.soil_ph);
    let oxygen_factor = oxygen_efficiency(state.air_o2);
    let death = fx_mul(
        fx_mul(
            fx_mul(params.microbial.death_rate, state.microbe_pop.value()),
            SCALE - ph_factor,
        ),
        SCALE - oxygen_factor,
    );
    let death = fx_mul(death, dt);
    state.microbe_pop = Population::clamped(
        add_sub_clamp(state.microbe_pop.value(), growth, death, POP_MAX),
    );
}

fn microbe_respiration(state: &mut EcosystemStateV2, params: &SimulationParameters, dt: u64)
    ensures
        final(state)@ == spec_microbe_respiration(old(state)@, *params, dt),
{
    proof {
        use_type_invariant(&state.air_o2);
    }
    let rate = fx_mul(params.microbial.respiration_rate, state.microbe_pop.value());
    let o2_consumed = fx_mul(rate, dt);
    let co2_produced = fx_mul(o2_consumed, params.microbial.respiration_co2_ratio);
    state.air_o2 = Oxygen::clamped(sub_floor(state.air_o2.percentage(), o2_consumed, 0));
    state.air_co2 = CarbonDioxide::clamped(add_cap(state.air_co2.value(), co2_produced, GAS_MAX));
}

/// Updates the microbe population and its exchanges for one step.
pub fn update_microbes(
    state: &mut EcosystemStateV2,
    params: &SimulationParameters,
    dt: u64,
) -> (r: EcosystemResult<()>)
    ensures
        r is Ok,
        final(state)@ == spec_update_microbes(old(state)@, *params, dt),
{
    nitrogen_fixation(state, params, dt);
    microbe_population_dynamics(state, params, dt);
    microbe_respiration(state, params, dt);
    Ok(())
}

/// True iff the microbe population is at or below the collapse threshold.
pub fn are_microbes_collapsed(state: &EcosystemStateV2) -> (r: bool)
    ensures
        r == (state@.microbe_pop <= COLLAPSE_THRESHOLD),
{
    state.microbe_pop.is_collapsed()
}

/// A snapshot of how well the microbes are doing.
#[derive(Debug, Clone, PartialEq, Eq, Structural)]
pub struct MicrobeHealthStatus {
    pub population: u64,
    pub nutrient_adequacy: u64,
    pub moisture_adequacy: u64,
    pub temperature_adequacy: u64,
    pub ph_adequacy: u64,
    pub oxygen_adequacy: u64,
    pub is_growing: bool,
    pub is_stressed: bool,
    pub nitrogen_fixation_rate: u64,
}

pub open spec fn spec_microbe_health(m: StateModel) -> MicrobeHealthStatus {
    let nutrient = spec_saturating(m.soil_nitrogen as int, 2) as u64;
    let moisture = spec_saturating(m.soil_moisture as int, 2) as u64;
    let temperature = spec_temperature_efficiency(m.temperature) as u64;
    let ph = spec_ph_efficiency(m.soil_ph) as u64;
    let oxygen = spec_saturating(m.air_o2 as int, 21) as u64;
    MicrobeHealthStatus {
        population: m.microbe_pop,
        nutrient_adequacy: nutrient,
        moisture_adequacy: moisture,
        temperature_adequacy: temperature,
        ph_adequacy: ph,
        oxygen_adequacy: oxygen,
        is_growing: m.microbe_pop > COLLAPSE_THRESHOLD && nutrient > 200000 && moisture > 200000,
        is_stressed: ph < 500000 || oxygen < 300000 || temperature < 300000,
        nitrogen_fixation_rate: fx(
            fx(fx(8000, m.microbe_pop as int), oxygen as int),
            moisture as int,
        ) as u64,
    }
}

pub fn microbe_health_status(state: &EcosystemStateV2) -> (r: MicrobeHealthStatus)
    ensures
        r == spec_microbe_health(state@),
{
    let population = state.microbe_pop.value();
    let nutrient_factor = nutrient_efficiency(state.soil_nitrogen);
    let moisture_factor = moisture_efficiency(state.soil_moisture);
    let temperature_factor = temperature_efficiency(state.temperature);
    let ph_factor = ph_efficiency(state.soil_ph);
    let oxygen_factor = oxygen_efficiency(state.air_o2);
    MicrobeHealthStatus {
        population,
        nutrient_adequacy: nutrient_factor,
        moisture_adequacy: moisture_factor,
        temperature_adequacy: temperature_factor,
        ph_adequacy: ph_factor,
        oxygen_adequacy: oxygen_factor,
        is_growing: population > COLLAPSE_THRESHOLD && nutrient_factor > 200000 && moisture_factor
            > 200000,
        is_stressed: ph_factor < 500000 || oxygen_factor < 300000 || temperature_factor < 300000,
        nitrogen_fixation_rate: fx_mul(
            fx_mul(fx_mul(8000, population), oxygen_factor),
            moisture_factor,
        ),
    }
}

} // verus!
