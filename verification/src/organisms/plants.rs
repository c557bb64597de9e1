//! Plant dynamics: photosynthesis, growth and nitrogen draw-down by day,
//! respiration by night.

use vstd::prelude::*;
use crate::fixed::{SCALE, fx, fx_mul, add_cap, sub_floor, spec_add_cap, spec_sub_floor};
use crate::types::{Biomass, CarbonDioxide, Nitrogen, Oxygen, BIOMASS_MAX, COLLAPSE_THRESHOLD, GAS_MAX};
use crate::config::parameters::SimulationParameters;
use crate::errors::EcosystemResult;
use crate::state::{EcosystemStateV2, StateModel};
use crate::environmental::{
    competition_factor, humidity_efficiency, light_efficiency, nutrient_efficiency,
    spec_competition, spec_saturating,
};

verus! {

/// CO2 enhancement of photosynthesis: `min(co2 / 0.04, 2)`.
pub open spec fn spec_co2_enhancement(co2: u64) -> int {
    if co2 * 25 >= 2 * SCALE {
        2 * (SCALE as int)
    } else {
        co2 * 25
    }
}

/// Daytime photosynthesis: CO2 is converted to O2, scaled by light,
/// humidity, CO2 enhancement and biomass.
pub open spec fn spec_photosynthesis(m: StateModel, p: SimulationParameters, dt: u64) -> StateModel {
    let rate = fx(
        fx(
            fx(
                fx(p.photosynthesis.base_rate as int, m.plant_biomass as int),
                spec_saturating(4 * (SCALE as int), 6),
            ),
            spec_saturating(m.humidity as int, 100),
        ),
        spec_co2_enhancement(m.air_co2),
    );
    let o2_produced = fx(rate, dt as int);
    let co2_consumed = fx(o2_produced, p.photosynthesis.co2_efficiency as int);
    StateModel {
        air_o2: spec_add_cap(m.air_o2 as int, o2_produced, GAS_MAX as int) as u64,
        air_co2: spec_sub_floor(m.air_co2 as int, co2_consumed, 0) as u64,
        ..m
    }
}

/// Nighttime respiration: O2 is converted back to CO2 in proportion to
/// biomass alone.
pub open spec fn spec_plant_respiration(
    m: StateModel,
    p: SimulationParameters,
    dt: u64,
) -> StateModel {
    let rate = fx(p.respiration.base_rate as int, m.plant_biomass as int);
    let o2_consumed = fx(rate, dt as int);
    let co2_produced = fx(o2_consumed, p.respiration.co2_production as int);
    StateModel {
        air_o2: spec_sub_floor(m.air_o2 as int, o2_consumed, 0) as u64,
        air_co2: spec_add_cap(m.air_co2 as int, co2_produced, GAS_MAX as int) as u64,
        ..m
    }
}

/// Daytime growth: biomass rises with light, nutrients and humidity, held
/// back by competition.
pub open spec fn spec_plant_growth(m: StateModel, p: SimulationParameters, dt: u64) -> StateModel {
    let rate = fx(
        fx(
            fx(
                fx(
                    fx(fx(p.photosynthesis.base_rate as int, 300000), m.plant_biomass as int),
                    spec_saturating(4 * (SCALE as int), 6),
                ),
                spec_saturating(m.soil_nitrogen as int, 2),
            ),
            spec_saturating(m.humidity as int, 100),
        ),
        spec_competition(m.plant_biomass as int),
    );
    let increase = fx(rate, dt as int);
    StateModel {
        plant_biomass: spec_add_cap(m.plant_biomass as int, increase, BIOMASS_MAX as int) as u64,
        ..m
    }
}

/// Daytime nitrogen uptake, proportional to biomass.
pub open spec fn spec_nitrogen_uptake(
    m: StateModel,
    p: SimulationParameters,
    dt: u64,
) -> StateModel {
    let uptake = fx(p.environmental.plant_nitrogen_uptake as int, m.plant_biomass as int);
    let consumed = fx(uptake, dt as int);
    StateModel { soil_nitrogen: spec_sub_floor(m.soil_nitrogen as int, consumed, 0) as u64, ..m }
}

/// One plant step: photosynthesis, growth and uptake by day, respiration by
/// night.
pub open spec fn spec_update_plants(
    m: StateModel,
    p: SimulationParameters,
    is_day: bool,
    dt: u64,
) -> StateModel {
    if is_day {
        spec_nitrogen_uptake(spec_plant_growth(spec_photosynthesis(m, p, dt), p, dt), p, dt)
    } else {
        spec_plant_respiration(m, p, dt)
    }
}

fn photosynthesis(state: &mut EcosystemStateV2, params: &SimulationParameters, dt: u64)
    ensures
        final(state)@ == spec_photosynthesis(old(state)@, *params, dt),
{
    let light_factor = light_efficiency(state.light_level());
    let humidity_factor = humidity_efficiency(state.humidity);
    let co2_raw = state.air_co2.value();
    proof {
        use_type_invariant(&state.air_co2);
    }
    let co2_scaled = co2_raw * 25;
    let co2_factor = if co2_scaled >= 2 * SCALE {
        2 * SCALE
    } else {
        co2_scaled
    };
    let rate = fx_mul(
        fx_mul(
            fx_mul(fx_mul(params.photosynthesis.base_rate, state.plant_biomass.value()), light_factor),
            humidity_factor,
        ),
        co2_factor,
    );
    let o2_produced = fx_mul(rate, dt);
    let co2_consumed = fx_mul(o2_produced, params.photosynthesis.co2_efficiency);
    state.air_o2 = Oxygen::clamped(add_cap(state.air_o2.percentage(), o2_produced, GAS_MAX));
    state.air_co2 = CarbonDioxide::clamped(sub_floor(state.air_co2.value(), co2_consumed, 0));
}

fn plant_respiration(state: &mut EcosystemStateV2, params: &SimulationParameters, dt: u64)
    ensures
        final(state)@ == spec_plant_respiration(old(state)@, *params, dt),
{
    proof {
        use_type_invariant(&state.air_o2);
    }
    let rate = fx_mul(params.respiration.base_rate, state.plant_biomass.value());
    let o2_consumed = fx_mul(rate, dt);
    let co2_produced = fx_mul(o2_consumed, params.respiration.co2_production);
    state.air_o2 = Oxygen::clamped(sub_floor(state.air_o2.percentage(), o2_consumed, 0));
    state.air_co2 = CarbonDioxide::clamped(add_cap(state.air_co2.value(), co2_produced, GAS_MAX));
}

fn plant_growth(state: &mut EcosystemStateV2, params: &SimulationParameters, dt: u64)
    ensures
        final(state)@ == spec_plant_growth(old(state)@, *params, dt),
{
    let light_factor = light_efficiency(state.light_level());
    let nutrient_factor = nutrient_efficiency(state.soil_nitrogen);
    let humidity_factor = humidity_efficiency(state.humidity);
    let competition = competition_factor(state.plant_biomass);
    let rate = fx_mul(
        fx_mul(
            fx_mul(
                fx_mul(
                    fx_mul(fx_mul(params.photosynthesis.base_rate, 300000), state.plant_biomass.value()),
                    light_factor,
                ),
                nutrient_factor,
            ),
            humidity_factor,
        ),
        competition,
    );
    let increase = fx_mul(rate, dt);
    state.plant_biomass = Biomass::clamped(
        add_cap(state.plant_biomass.value(), increase, BIOMASS_MAX),
    );
}

fn nitrogen_uptake(state: &mut EcosystemStateV2, params: &SimulationParameters, dt: u64)
    ensures
        final(state)@ == spec_nitrogen_uptake(old(state)@, *params, dt),
{
    proof {
        use_type_invariant(&state.soil_nitrogen);
    }
    let uptake = fx_mul(params.environmental.plant_nitrogen_uptake, state.plant_biomass.value());
    let consumed = fx_mul(uptake, dt);
    state.soil_nitrogen = Nitrogen::clamped(sub_floor(state.soil_nitrogen.value(), consumed, 0));
}

/// Updates plant biomass and the gases it exchanges for one step.
pub fn update_plants(
    state: &mut EcosystemStateV2,
    params: &SimulationParameters,
    is_day: bool,
    dt: u64,
) -> (r: EcosystemResult<()>)
    ensures
        r is Ok,
        final(state)@ == spec_update_plants(old(state)@, *params, is_day, dt),
{
    if is_day {
        photosynthesis(state, params, dt);
        plant_growth(state, params, dt);
        nitrogen_uptake(state, params, dt);
    } else {
        plant_respiration(state, params, dt);
    }
    Ok(())
}

/// True iff the plant biomass is at or below the collapse threshold.
pub fn are_plants_collapsed(state: &EcosystemStateV2) -> (r: bool)
    ensures
        r == (state@.plant_biomass <= COLLAPSE_THRESHOLD),
{
    state.plant_biomass.is_collapsed()
}

/// A snapshot of how well the plants are doing.
#[derive(Debug, Clone, PartialEq, Eq, Structural)]
pub struct PlantHealthStatus {
    pub biomass: u64,
    pub light_adequacy: u64,
    pub nutrient_adequacy: u64,
    pub humidity_adequacy: u64,
    pub is_growing: bool,
    pub is_stressed: bool,
}

pub open spec fn spec_plant_health(m: StateModel) -> PlantHealthStatus {
    let light = spec_saturating(4 * (SCALE as int), 6) as u64;
    let nutrient = spec_saturating(m.soil_nitrogen as int, 2) as u64;
    let humidity = spec_saturating(m.humidity as int, 100) as u64;
    PlantHealthStatus {
        biomass: m.plant_biomass,
        light_adequacy: light,
        nutrient_adequacy: nutrient,
        humidity_adequacy: humidity,
        is_growing: m.plant_biomass > COLLAPSE_THRESHOLD && light > 300000 && nutrient > 100000,
        is_stressed: light < 500000 || nutrient < 200000 || humidity < 400000,
    }
}

pub fn plant_health_status(state: &EcosystemStateV2) -> (r: PlantHealthStatus)
    ensures
        r == spec_plant_health(state@),
{
    let biomass = state.plant_biomass.value();
    let light_factor = light_efficiency(state.light_level());
    let nutrient_factor = nutrient_efficiency(state.soil_nitrogen);
    let humidity_factor = humidity_efficiency(state.humidity);
    PlantHealthStatus {
        biomass,
        light_adequacy: light_factor,
        nutrient_adequacy: nutrient_factor,
        humidity_adequacy: humidity_factor,
        is_growing: biomass > COLLAPSE_THRESHOLD && light_factor > 300000 && nutrient_factor
            > 100000,
        is_stressed: light_factor < 500000 || nutrient_factor < 200000 || humidity_factor < 400000,
    }
}

} // verus!
