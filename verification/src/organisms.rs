//! Organism update modules, one per species class, and the environmental
//! penalties applied to all of them.

pub mod microbes;
pub mod plants;
pub mod shrimp;
pub mod worms;

use vstd::prelude::*;
use crate::fixed::{SCALE, fx, fx_mul, lemma_fx_le, spec_clamp};
use crate::types::{Biomass, Population, BIOMASS_MAX, POP_MAX};
use crate::config::parameters::SimulationParameters;
use crate::errors::EcosystemResult;
use crate::state::{EcosystemStateV2, StateModel};
use crate::environmental::{
    oxygen_penalty_factor, ph_penalty_factor, spec_oxygen_penalty_factor, spec_ph_penalty_factor,
    water_oxygen_penalty_factor,
};

verus! {

/// `max(v, floor)`: a decayed population is held at its floor.
pub open spec fn spec_at_least(v: int, floor: int) -> int {
    if v < floor {
        floor
    } else {
        v
    }
}

/// One organism pass: plants, then microbes, then worms, then shrimp.
pub open spec fn spec_update_all_organisms(
    m: StateModel,
    p: SimulationParameters,
    is_day: bool,
    dt: u64,
) -> StateModel {
    shrimp::spec_update_shrimp(
        worms::spec_update_worms(
            microbes::spec_update_microbes(plants::spec_update_plants(m, p, is_day, dt), p, dt),
            p,
            dt,
        ),
        p,
        dt,
    )
}

/// The multiplicative decay applied while an environmental condition holds:
/// acidic soil hits plants, microbes and shrimp; thin air hits plants,
/// microbes and worms; oxygen-poor water hits shrimp; always with the
/// 10/15/20 percent coefficients.
pub open spec fn spec_penalized_biomass(v: u64, coefficient: int, penalty: int) -> u64 {
    spec_clamp(fx(v as int, SCALE - fx(coefficient, penalty)), 0, BIOMASS_MAX as int) as u64
}

pub open spec fn spec_penalized_population(v: u64, coefficient: int, penalty: int) -> u64 {
    spec_clamp(
        spec_at_least(fx(v as int, SCALE - fx(coefficient, penalty)), 10000),
        0,
        POP_MAX as int,
    ) as u64
}

pub open spec fn spec_apply_penalties(m: StateModel) -> StateModel {
    let php = spec_ph_penalty_factor(m.soil_ph);
    let m1 = if php > 0 {
        StateModel {
            plant_biomass: spec_penalized_biomass(m.plant_biomass, 100000, php),
            microbe_pop: spec_penalized_population(m.microbe_pop, 150000, php),
            shrimp_pop: spec_penalized_population(m.shrimp_pop, 200000, php),
            ..m
        }
    } else {
        m
    };
    let o2p = spec_oxygen_penalty_factor(m1.air_o2);
    let m2 = if o2p > 0 {
        StateModel {
            plant_biomass: spec_penalized_biomass(m1.plant_biomass, 100000, o2p),
            microbe_pop: spec_penalized_population(m1.microbe_pop, 150000, o2p),
            worm_pop: spec_penalized_population(m1.worm_pop, 200000, o2p),
            ..m1
        }
    } else {
        m1
    };
    let wo2p = spec_oxygen_penalty_factor(m2.water_o2);
    if wo2p > 0 {
        StateModel { shrimp_pop: spec_penalized_population(m2.shrimp_pop, 200000, wo2p), ..m2 }
    } else {
        m2
    }
}

/// Updates every organism in the fixed order.
pub fn update_all_organisms(
    state: &mut EcosystemStateV2,
    params: &SimulationParameters,
    is_day: bool,
    dt: u64,
) -> (r: EcosystemResult<()>)
    ensures
        r is Ok,
        final(state)@ == spec_update_all_organisms(old(state)@, *params, is_day, dt),
{
    plants::update_plants(state, params, is_day, dt)?;
    microbes::update_microbes(state, params, dt)?;
    worms::update_worms(state, params, dt)?;
    shrimp::update_shrimp(state, params, dt)?;
    Ok(())
}

/// Applies the multiplicative environmental penalties to the populations.
pub fn apply_environmental_penalties(state: &mut EcosystemStateV2) -> (r: EcosystemResult<()>)
    ensures
        r is Ok,
        final(state)@ == spec_apply_penalties(old(state)@),
{
    let ph_penalty = ph_penalty_factor(state.soil_ph);
    if ph_penalty > 0 {
        proof {
            lemma_fx_le(100000, ph_penalty as int);
            lemma_fx_le(150000, ph_penalty as int);
            lemma_fx_le(200000, ph_penalty as int);
        }
        let plant = fx_mul(state.plant_biomass.value(), SCALE - fx_mul(100000, ph_penalty));
        state.plant_biomass = Biomass::clamped(plant);
        let microbe = fx_mul(state.microbe_pop.value(), SCALE - fx_mul(150000, ph_penalty));
        state.microbe_pop = Population::clamped(
            if microbe < 10000 {
                10000
            } else {
                microbe
            },
        );
        let shrimp = fx_mul(state.shrimp_pop.value(), SCALE - fx_mul(200000, ph_penalty));
        state.shrimp_pop = Population::clamped(
            if shrimp < 10000 {
                10000
            } else {
                shrimp
            },
        );
    }
    let oxygen_penalty = oxygen_penalty_factor(state.air_o2);
    if oxygen_penalty > 0 {
        proof {
            lemma_fx_le(100000, oxygen_penalty as int);
            lemma_fx_le(150000, oxygen_penalty as int);
            lemma_fx_le(200000, oxygen_penalty as int);
        }
        let plant = fx_mul(state.plant_biomass.value(), SCALE - fx_mul(100000, oxygen_penalty));
        state.plant_biomass = Biomass::clamped(plant);
        let microbe = fx_mul(state.microbe_pop.value(), SCALE - fx_mul(150000, oxygen_penalty));
        state.microbe_pop = Population::clamped(
            if microbe < 10000 {
                10000
            } else {
                microbe
            },
        );
        let worm = fx_mul(state.worm_pop.value(), SCALE - fx_mul(200000, oxygen_penalty));
        state.worm_pop = Population::clamped(
            if worm < 10000 {
                10000
            } else {
                worm
            },
        );
    }
    let water_oxygen_penalty = water_oxygen_penalty_factor(state.water_o2);
    if water_oxygen_penalty > 0 {
        proof {
            lemma_fx_le(200000, water_oxygen_penalty as int);
        }
        let shrimp = fx_mul(
            state.shrimp_pop.value(),
            SCALE - fx_mul(200000, water_oxygen_penalty),
        );
        state.shrimp_pop = Population::clamped(
            if shrimp < 10000 {
                10000
            } else {
                shrimp
            },
        );
    }
    Ok(())
}

} // verus!
