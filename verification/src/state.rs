//! The full mutable snapshot of the ecosystem: one instance of each tracked
//! quantity plus the rock count, with collapse and health diagnostics.

use vstd::prelude::*;
use crate::fixed::{SCALE, count_units, spec_count_units};
use crate::types::{
    Aeration, Biomass, CarbonDioxide, Detritus, Humidity, Moisture, Nitrogen, Oxygen, Ph,
    Population, Temperature, WaterVolume, BIOMASS_MAX, COLLAPSE_THRESHOLD, GAS_MAX, HUMIDITY_MAX,
    PH_MAX, POP_MAX, SOIL_MAX, TEMP_MAX, TEMP_MIN, WATER_MAX,
};
use crate::errors::{CollapseReason, EcosystemError, EcosystemResult};
use crate::config::V2Config;
use crate::rng::{spec_range, spec_step, TrialRng, SEED_GAMMA};

verus! {

/// The mathematical model of an ecosystem state: every quantity as a plain
/// fixed-point integer.
pub struct StateModel {
    pub plant_biomass: u64,
    pub microbe_pop: u64,
    pub worm_pop: u64,
    pub shrimp_pop: u64,
    pub soil_nitrogen: u64,
    pub soil_ph: u64,
    pub soil_moisture: u64,
    pub soil_aeration: u64,
    pub detritus: u64,
    pub water_liters: u64,
    pub water_o2: u64,
    pub air_n2: u64,
    pub air_o2: u64,
    pub air_co2: u64,
    pub temperature: i64,
    pub humidity: u64,
    pub rocks: u64,
}

/// Every quantity of the model lies in its declared domain.
pub open spec fn spec_model_wf(m: StateModel) -> bool {
    &&& m.plant_biomass <= BIOMASS_MAX
    &&& m.microbe_pop <= POP_MAX
    &&& m.worm_pop <= POP_MAX
    &&& m.shrimp_pop <= POP_MAX
    &&& m.soil_nitrogen <= GAS_MAX
    &&& m.soil_ph <= PH_MAX
    &&& m.soil_moisture <= SOIL_MAX
    &&& m.soil_aeration <= SOIL_MAX
    &&& m.detritus <= SOIL_MAX
    &&& m.water_liters <= WATER_MAX
    &&& m.water_o2 <= GAS_MAX
    &&& m.air_n2 <= GAS_MAX
    &&& m.air_o2 <= GAS_MAX
    &&& m.air_co2 <= GAS_MAX
    &&& TEMP_MIN <= m.temperature <= TEMP_MAX
    &&& m.humidity <= HUMIDITY_MAX
}

#[derive(Debug, Clone, PartialEq, Eq, Structural)]
pub struct EcosystemStateV2 {
    pub plant_biomass: Biomass,
    pub microbe_pop: Population,
    pub worm_pop: Population,
    pub shrimp_pop: Population,
    pub soil_nitrogen: Nitrogen,
    pub soil_ph: Ph,
    pub soil_moisture: Moisture,
    pub soil_aeration: Aeration,
    pub detritus: Detritus,
    pub water_liters: WaterVolume,
    pub water_o2: Oxygen,
    pub air_n2: Nitrogen,
    pub air_o2: Oxygen,
    pub air_co2: CarbonDioxide,
    pub temperature: Temperature,
    pub humidity: Humidity,
    pub rocks: usize,
}

impl View for EcosystemStateV2 {
    type V = StateModel;

    open spec fn view(&self) -> StateModel {
        StateModel {
            plant_biomass: self.plant_biomass@,
            microbe_pop: self.microbe_pop@,
            worm_pop: self.worm_pop@,
            shrimp_pop: self.shrimp_pop@,
            soil_nitrogen: self.soil_nitrogen@,
            soil_ph: self.soil_ph@,
            soil_moisture: self.soil_moisture@,
            soil_aeration: self.soil_aeration@,
            detritus: self.detritus@,
            water_liters: self.water_liters@,
            water_o2: self.water_o2@,
            air_n2: self.air_n2@,
            air_o2: self.air_o2@,
            air_co2: self.air_co2@,
            temperature: self.temperature@,
            humidity: self.humidity@,
            rocks: self.rocks as u64,
        }
    }
}

/// The deterministic initial model built from a configuration.
pub open spec fn spec_initial_model(c: V2Config) -> StateModel {
    StateModel {
        plant_biomass: c.organisms.plants.initial_biomass,
        microbe_pop: spec_count_units(c.organisms.microbes.initial_count as int) as u64,
        worm_pop: spec_count_units(c.organisms.worms.initial_count as int) as u64,
        shrimp_pop: spec_count_units(c.organisms.shrimp.initial_count as int) as u64,
        soil_nitrogen: SCALE,
        soil_ph: 7000000u64,
        soil_moisture: c.environment.water_volume@,
        soil_aeration: SCALE,
        detritus: 500000u64,
        water_liters: c.environment.water_volume@,
        water_o2: 8000000u64,
        air_n2: 78000000u64,
        air_o2: 21000000u64,
        air_co2: 40000u64,
        temperature: c.environment.initial_temperature@,
        humidity: c.environment.initial_humidity@,
        rocks: c.environment.rocks as u64,
    }
}

/// The randomized initial model: the draws of the seeded generator, in a
/// fixed order, within the documented sampling bounds. It depends only on
/// the starting biomass, the water volume, the rock count and the seed.
pub open spec fn spec_seeded_model_from(biomass: u64, water: u64, rocks: u64, seed: u64) -> StateModel {
    let s1 = spec_step(seed ^ SEED_GAMMA);
    let s2 = spec_step(s1);
    let s3 = spec_step(s2);
    let s4 = spec_step(s3);
    let s5 = spec_step(s4);
    let s6 = spec_step(s5);
    let s7 = spec_step(s6);
    let s8 = spec_step(s7);
    let s9 = spec_step(s8);
    let s10 = spec_step(s9);
    let s11 = spec_step(s10);
    StateModel {
        plant_biomass: biomass,
        microbe_pop: spec_range(s1, 500000000u64, 2000000000u64),
        worm_pop: spec_range(s2, SCALE, 10000000u64),
        shrimp_pop: spec_range(s3, SCALE, 5000000u64),
        soil_nitrogen: spec_range(s4, 500000u64, 2000000u64),
        soil_ph: spec_range(s5, 5500000u64, 8500000u64),
        soil_moisture: spec_range(s6, 200000u64, water),
        soil_aeration: spec_range(s7, 500000u64, 2000000u64),
        detritus: spec_range(s8, 100000u64, 2000000u64),
        water_liters: water,
        water_o2: spec_range(s9, 6000000u64, 10000000u64),
        air_n2: 78000000u64,
        air_o2: 21000000u64,
        air_co2: 40000u64,
        temperature: spec_range(s10, 18000000u64, 28000000u64) as i64,
        humidity: spec_range(s11, 40000000u64, 80000000u64),
        rocks,
    }
}

/// The randomized initial model built from a configuration.
pub open spec fn spec_seeded_model(c: V2Config, seed: u64) -> StateModel {
    spec_seeded_model_from(
        c.organisms.plants.initial_biomass,
        c.environment.water_volume@,
        c.environment.rocks as u64,
        seed,
    )
}

impl EcosystemStateV2 {
    /// Witnesses that every quantity in this state lies within its declared
    /// domain: each quantity can only be built by a constructor that
    /// establishes its bound, so no unchecked arithmetic escapes into a
    /// state. Computes nothing.
    pub fn check_wf(&self)
        ensures
            self.wf(),
    {
        proof {
            use_type_invariant(&self.plant_biomass);
            use_type_invariant(&self.microbe_pop);
            use_type_invariant(&self.worm_pop);
            use_type_invariant(&self.shrimp_pop);
            use_type_invariant(&self.soil_nitrogen);
            use_type_invariant(&self.soil_ph);
            use_type_invariant(&self.soil_moisture);
            use_type_invariant(&self.soil_aeration);
            use_type_invariant(&self.detritus);
            use_type_invariant(&self.water_liters);
            use_type_invariant(&self.water_o2);
            use_type_invariant(&self.air_n2);
            use_type_invariant(&self.air_o2);
            use_type_invariant(&self.air_co2);
            use_type_invariant(&self.temperature);
            use_type_invariant(&self.humidity);
        }
    }
    /// Every quantity lies in its declared domain.
    pub open spec fn wf(&self) -> bool {
        spec_model_wf(self@)
    }

    /// Deterministic initial state. Fails only where a configured starting
    /// value violates its quantity's domain.
    pub fn new(config: &V2Config) -> (r: EcosystemResult<Self>)
        ensures
            r is Ok <==> {
                &&& config.organisms.plants.initial_biomass <= BIOMASS_MAX
                &&& 0 < config.organisms.microbes.initial_count <= 1000000
                &&& 0 < config.organisms.worms.initial_count <= 1000000
                &&& 0 < config.organisms.shrimp.initial_count <= 1000000
            },
            r matches Ok(s) ==> s@ == spec_initial_model(*config) && s.wf(),
            r matches Err(e) ==> e matches EcosystemError::ValidationError(_),
    {
        let plant = match Biomass::new(config.organisms.plants.initial_biomass) {
            Ok(b) => b,
            Err(e) => {
                return Err(EcosystemError::ValidationError(e));
            },
        };
        let microbes = match Population::new(count_units(config.organisms.microbes.initial_count)) {
            Ok(p) => p,
            Err(e) => {
                return Err(EcosystemError::ValidationError(e));
            },
        };
        let worms = match Population::new(count_units(config.organisms.worms.initial_count)) {
            Ok(p) => p,
            Err(e) => {
                return Err(EcosystemError::ValidationError(e));
            },
        };
        let shrimp = match Population::new(count_units(config.organisms.shrimp.initial_count)) {
            Ok(p) => p,
            Err(e) => {
                return Err(EcosystemError::ValidationError(e));
            },
        };
        proof {
            use_type_invariant(&config.environment.water_volume);
            use_type_invariant(&config.environment.initial_temperature);
            use_type_invariant(&config.environment.initial_humidity);
            assert(spec_count_units(config.organisms.microbes.initial_count as int) <= POP_MAX
                <==> config.organisms.microbes.initial_count <= 1000000);
            assert(spec_count_units(config.organisms.worms.initial_count as int) <= POP_MAX
                <==> config.organisms.worms.initial_count <= 1000000);
            assert(spec_count_units(config.organisms.shrimp.initial_count as int) <= POP_MAX
                <==> config.organisms.shrimp.initial_count <= 1000000);
        }
        Ok(EcosystemStateV2 {
            plant_biomass: plant,
            microbe_pop: microbes,
            worm_pop: worms,
            shrimp_pop: shrimp,
            soil_nitrogen: Nitrogen::clamped(SCALE),
            soil_ph: Ph::clamped(7 * SCALE),
            soil_moisture: Moisture::clamped(config.environment.water_volume.value()),
            soil_aeration: Aeration::clamped(SCALE),
            detritus: Detritus::clamped(500000),
            water_liters: config.environment.water_volume,
            water_o2: Oxygen::clamped(8 * SCALE),
            air_n2: Nitrogen::clamped(78 * SCALE),
            air_o2: Oxygen::clamped(21 * SCALE),
            air_co2: CarbonDioxide::clamped(40000),
            temperature: config.environment.initial_temperature,
            humidity: config.environment.initial_humidity,
            rocks: config.environment.rocks,
        })
    }

    /// Randomized initial state, reproducible from the explicit seed.
    pub fn new_with_seed(config: &V2Config, seed: u64) -> (r: EcosystemResult<Self>)
        requires
            config.environment.water_volume@ >= 200000,
        ensures
            r is Ok <==> config.organisms.plants.initial_biomass <= BIOMASS_MAX,
            r matches Ok(s) ==> s@ == spec_seeded_model(*config, seed) && s.wf(),
            r matches Err(e) ==> e matches EcosystemError::ValidationError(_),
    {
        proof {
            use_type_invariant(&config.environment.water_volume);
        }
        let plant = match Biomass::new(config.organisms.plants.initial_biomass) {
            Ok(b) => b,
            Err(e) => {
                return Err(EcosystemError::ValidationError(e));
            },
        };
        let mut rng = TrialRng::new(seed);
        let microbe_v = rng.gen_range_u64(500 * SCALE, 2000 * SCALE);
        let worm_v = rng.gen_range_u64(SCALE, 10 * SCALE);
        let shrimp_v = rng.gen_range_u64(SCALE, 5 * SCALE);
        let nitrogen_v = rng.gen_range_u64(500000, 2 * SCALE);
        let ph_v = rng.gen_range_u64(5500000, 8500000);
        let moisture_v = rng.gen_range_u64(200000, config.environment.water_volume.value());
        let aeration_v = rng.gen_range_u64(500000, 2 * SCALE);
        let detritus_v = rng.gen_range_u64(100000, 2 * SCALE);
        let water_o2_v = rng.gen_range_u64(6 * SCALE, 10 * SCALE);
        let temp_v = rng.gen_range_u64(18 * SCALE, 28 * SCALE);
        let humidity_v = rng.gen_range_u64(40 * SCALE, 80 * SCALE);
        Ok(EcosystemStateV2 {
            plant_biomass: plant,
            microbe_pop: Population::clamped(microbe_v),
            worm_pop: Population::clamped(worm_v),
            shrimp_pop: Population::clamped(shrimp_v),
            soil_nitrogen: Nitrogen::clamped(nitrogen_v),
            soil_ph: Ph::clamped(ph_v),
            soil_moisture: Moisture::clamped(moisture_v),
            soil_aeration: Aeration::clamped(aeration_v),
            detritus: Detritus::clamped(detritus_v),
            water_liters: config.environment.water_volume,
            water_o2: Oxygen::clamped(water_o2_v),
            air_n2: Nitrogen::clamped(78 * SCALE),
            air_o2: Oxygen::clamped(21 * SCALE),
            air_co2: CarbonDioxide::clamped(40000),
            temperature: match Temperature::new(temp_v as i64) {
                Ok(t) => t,
                Err(_) => {
                    proof {
                        assert(false);
                    }
                    unreached()
                },
            },
            humidity: Humidity::clamped(humidity_v),
            rocks: config.environment.rocks,
        })
    }

    /// Light level at the bottle: a fixed medium level.
    pub fn light_level(&self) -> (r: u64)
        ensures
            r == 4 * SCALE,
    {
        4 * SCALE
    }

    /// Recomputes atmospheric nitrogen as the air remainder
    /// `100 - O2 - CO2`, floored at zero.
    pub fn clamp_values(&mut self) -> (r: EcosystemResult<()>)
        ensures
            r is Ok,
            *final(self) == (EcosystemStateV2 { air_n2: final(self).air_n2, ..*old(self) }),
            final(self)@.air_n2 == spec_air_remainder(
                old(self)@.air_o2 as int,
                old(self)@.air_co2 as int,
            ),
            final(self).wf(),
    {
        self.check_wf();
        let total_air = self.air_o2.percentage() + self.air_co2.value();
        let remaining = if total_air >= 100 * SCALE {
            0
        } else {
            100 * SCALE - total_air
        };
        self.air_n2 = Nitrogen::clamped(remaining);
        Ok(())
    }

    /// True iff at least one of the four populations is at or below the
    /// collapse threshold.
    pub fn is_collapsed(&self) -> (r: bool)
        ensures
            r == spec_is_collapsed(self@),
    {
        self.plant_biomass.is_collapsed() || self.microbe_pop.is_collapsed()
            || self.worm_pop.is_collapsed() || self.shrimp_pop.is_collapsed()
    }

    /// The maximum of the independently assessed risk contributions; one
    /// severe factor dominates.
    pub fn collapse_risk(&self) -> (r: u64)
        ensures
            r == spec_collapse_risk(self@),
            r <= SCALE,
    {
        let mut risk: u64 = 0;
        if self.plant_biomass.value() < 100000 && risk < 800000 {
            risk = 800000;
        }
        if self.microbe_pop.value() < 100 * SCALE && risk < 900000 {
            risk = 900000;
        }
        if self.worm_pop.value() < SCALE && risk < 600000 {
            risk = 600000;
        }
        if self.shrimp_pop.value() < SCALE && risk < 500000 {
            risk = 500000;
        }
        if self.air_o2.is_dangerously_low() && risk < 900000 {
            risk = 900000;
        }
        if (self.soil_ph.value() < 5500000 || self.soil_ph.value() > 9 * SCALE) && risk < 800000 {
            risk = 800000;
        }
        if !self.temperature.is_optimal() && risk < 300000 {
            risk = 300000;
        }
        risk
    }

    /// Enumerates every triggering condition as a reason.
    pub fn collapse_reasons(&self) -> (r: Vec<CollapseReason>)
        ensures
            r@ == spec_collapse_reasons(self@),
    {
        let mut reasons: Vec<CollapseReason> = Vec::new();
        if self.plant_biomass.is_collapsed() {
            reasons.push(CollapseReason::PlantsDied);
        }
        if self.microbe_pop.is_collapsed() {
            reasons.push(CollapseReason::MicrobesDied);
        }
        if self.worm_pop.is_collapsed() {
            reasons.push(CollapseReason::WormsDied);
        }
        if self.shrimp_pop.is_collapsed() {
            reasons.push(CollapseReason::ShrimpDied);
        }
        if self.air_o2.is_dangerously_low() {
            reasons.push(CollapseReason::OxygenDepletion);
        }
        if self.soil_ph.value() < 4 * SCALE || self.soil_ph.value() > 10 * SCALE {
            reasons.push(CollapseReason::PhImbalance);
        }
        proof {
            assert(reasons@ =~= spec_collapse_reasons(self@));
        }
        reasons
    }

    /// Ecosystem-level consistency; the individual quantities already
    /// enforce their own domains.
    pub fn validate(&self) -> (r: EcosystemResult<()>)
        ensures
            r is Ok,
    {
        Ok(())
    }

    pub fn is_healthy(&self) -> (r: bool)
        ensures
            r == spec_is_healthy(self@),
    {
        !self.is_collapsed() && self.collapse_risk() < 700000 && self.air_o2.percentage() > 15
            * SCALE && 6 * SCALE <= self.soil_ph.value() && self.soil_ph.value() <= 8 * SCALE
    }

    /// The currently active warnings, in a fixed order.
    pub fn health_warnings(&self) -> (r: Vec<HealthWarning>)
        ensures
            r@ == spec_health_warnings(self@),
    {
        let mut warnings: Vec<HealthWarning> = Vec::new();
        if self.air_o2.is_dangerously_low() {
            warnings.push(HealthWarning::OxygenCriticallyLow);
        }
        if self.soil_ph.value() < 6 * SCALE || self.soil_ph.value() > 8500000 {
            warnings.push(HealthWarning::PhOutsideOptimalRange);
        }
        if self.plant_biomass.value() < 100000 {
            warnings.push(HealthWarning::PlantBiomassVeryLow);
        }
        if self.microbe_pop.value() < 100 * SCALE {
            warnings.push(HealthWarning::MicrobePopulationLow);
        }
        proof {
            assert(warnings@ =~= spec_health_warnings(self@));
        }
        warnings
    }
}

/// A condition a keeper should attend to before it worsens.
#[derive(Debug, Clone, Copy, PartialEq, Eq, Structural)]
pub enum HealthWarning {
    OxygenCriticallyLow,
    PhOutsideOptimalRange,
    PlantBiomassVeryLow,
    MicrobePopulationLow,
}

/// `max(100 - o2 - co2, 0)` in fixed-point units.
pub open spec fn spec_air_remainder(o2: int, co2: int) -> int {
    if o2 + co2 >= 100 * SCALE {
        0
    } else {
        100 * (SCALE as int) - o2 - co2
    }
}

pub open spec fn spec_is_collapsed(m: StateModel) -> bool {
    ||| m.plant_biomass <= COLLAPSE_THRESHOLD
    ||| m.microbe_pop <= COLLAPSE_THRESHOLD
    ||| m.worm_pop <= COLLAPSE_THRESHOLD
    ||| m.shrimp_pop <= COLLAPSE_THRESHOLD
}

pub open spec fn spec_collapse_risk(m: StateModel) -> u64 {
    let r1: u64 = if m.plant_biomass < 100000 {
        800000u64
    } else {
        0u64
    };
    let r2: u64 = if m.microbe_pop < 100 * SCALE && r1 < 900000 {
        900000u64
    } else {
        r1
    };
    let r3: u64 = if m.worm_pop < SCALE && r2 < 600000 {
        600000u64
    } else {
        r2
    };
    let r4: u64 = if m.shrimp_pop < SCALE && r3 < 500000 {
        500000u64
    } else {
        r3
    };
    let r5: u64 = if m.air_o2 < 5 * SCALE && r4 < 900000 {
        900000u64
    } else {
        r4
    };
    let r6: u64 = if (m.soil_ph < 5500000 || m.soil_ph > 9 * SCALE) && r5 < 800000 {
        800000u64
    } else {
        r5
    };
    if !(20000000 <= m.temperature <= 28000000) && r6 < 300000 {
        300000u64
    } else {
        r6
    }
}

pub open spec fn spec_collapse_reasons(m: StateModel) -> Seq<CollapseReason> {
    let s1: Seq<CollapseReason> = if m.plant_biomass <= COLLAPSE_THRESHOLD {
        seq![CollapseReason::PlantsDied]
    } else {
        seq![]
    };
    let s2: Seq<CollapseReason> = if m.microbe_pop <= COLLAPSE_THRESHOLD {
        s1.push(CollapseReason::MicrobesDied)
    } else {
        s1
    };
    let s3: Seq<CollapseReason> = if m.worm_pop <= COLLAPSE_THRESHOLD {
        s2.push(CollapseReason::WormsDied)
    } else {
        s2
    };
    let s4: Seq<CollapseReason> = if m.shrimp_pop <= COLLAPSE_THRESHOLD {
        s3.push(CollapseReason::ShrimpDied)
    } else {
        s3
    };
    let s5: Seq<CollapseReason> = if m.air_o2 < 5 * SCALE {
        s4.push(CollapseReason::OxygenDepletion)
    } else {
        s4
    };
    if m.soil_ph < 4 * SCALE || m.soil_ph > 10 * SCALE {
        s5.push(CollapseReason::PhImbalance)
    } else {
        s5
    }
}

pub open spec fn spec_is_healthy(m: StateModel) -> bool {
    &&& !spec_is_collapsed(m)
    &&& spec_collapse_risk(m) < 700000
    &&& m.air_o2 > 15 * SCALE
    &&& 6 * SCALE <= m.soil_ph <= 8 * SCALE
}

pub open spec fn spec_health_warnings(m: StateModel) -> Seq<HealthWarning> {
    let s1: Seq<HealthWarning> = if m.air_o2 < 5 * SCALE {
        seq![HealthWarning::OxygenCriticallyLow]
    } else {
        seq![]
    };
    let s2: Seq<HealthWarning> = if m.soil_ph < 6 * SCALE || m.soil_ph > 8500000 {
        s1.push(HealthWarning::PhOutsideOptimalRange)
    } else {
        s1
    };
    let s3: Seq<HealthWarning> = if m.plant_biomass < 100000 {
        s2.push(HealthWarning::PlantBiomassVeryLow)
    } else {
        s2
    };
    if m.microbe_pop < 100 * SCALE {
        s3.push(HealthWarning::MicrobePopulationLow)
    } else {
        s3
    }
}

} // verus!
