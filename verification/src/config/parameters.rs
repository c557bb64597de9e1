//! Simulation rate constants, grouped per process, and the difficulty
//! scaling that reparametrizes them.

use vstd::prelude::*;
use crate::fixed::{SCALE, fx, fx_mul};
use crate::errors::{EcosystemError, EcosystemResult};
use crate::config::difficulty::{DifficultyConfig, DifficultyScaling};

verus! {

#[derive(Debug, Clone, PartialEq, Eq, Structural)]
pub struct SimulationParameters {
    pub photosynthesis: PhotosynthesisParams,
    pub respiration: RespirationParams,
    pub microbial: MicrobialParams,
    pub worm: WormParams,
    pub shrimp: ShrimpParams,
    pub environmental: EnvironmentalParams,
}

#[derive(Debug, Clone, PartialEq, Eq, Structural)]
pub struct PhotosynthesisParams {
    pub base_rate: u64,
    pub co2_efficiency: u64,
    pub light_dependency: u64,
    pub humidity_dependency: u64,
}

#[derive(Debug, Clone, PartialEq, Eq, Structural)]
pub struct RespirationParams {
    pub base_rate: u64,
    pub co2_production: u64,
}

#[derive(Debug, Clone, PartialEq, Eq, Structural)]
pub struct MicrobialParams {
    pub nitrogen_fixation_rate: u64,
    pub growth_rate: u64,
    pub death_rate: u64,
    pub respiration_rate: u64,
    pub respiration_co2_ratio: u64,
}

#[derive(Debug, Clone, PartialEq, Eq, Structural)]
pub struct WormParams {
    pub aeration_rate: u64,
    pub decomposition_rate: u64,
    pub growth_rate: u64,
    pub death_rate: u64,
}

#[derive(Debug, Clone, PartialEq, Eq, Structural)]
pub struct ShrimpParams {
    pub detritus_consumption_rate: u64,
    pub waste_production_rate: u64,
    pub growth_rate: u64,
    pub death_rate: u64,
}

#[derive(Debug, Clone, PartialEq, Eq, Structural)]
pub struct EnvironmentalParams {
    pub ph_acidification_rate: u64,
    pub rock_buffer_rate: u64,
    pub water_buffer_rate: u64,
    pub plant_nitrogen_uptake: u64,
}

/// The balanced rate constants (the defaults), in fixed-point units.
pub open spec fn spec_default_parameters() -> SimulationParameters {
    SimulationParameters {
        photosynthesis: PhotosynthesisParams {
            base_rate: 100000u64,
            co2_efficiency: 1500000u64,
            light_dependency: 1000000u64,
            humidity_dependency: 1000000u64,
        },
        respiration: RespirationParams { base_rate: 2000u64, co2_production: 1000000u64 },
        microbial: MicrobialParams {
            nitrogen_fixation_rate: 8000u64,
            growth_rate: 10000u64,
            death_rate: 5000u64,
            respiration_rate: 1000u64,
            respiration_co2_ratio: 1000000u64,
        },
        worm: WormParams {
            aeration_rate: 10000u64,
            decomposition_rate: 10000u64,
            growth_rate: 10000u64,
            death_rate: 5000u64,
        },
        shrimp: ShrimpParams {
            detritus_consumption_rate: 10000u64,
            waste_production_rate: 5000u64,
            growth_rate: 10000u64,
            death_rate: 5000u64,
        },
        environmental: EnvironmentalParams {
            ph_acidification_rate: 1000u64,
            rock_buffer_rate: 2000u64,
            water_buffer_rate: 1000u64,
            plant_nitrogen_uptake: 2000u64,
        },
    }
}

/// How one difficulty scaling transforms a parameter set: growth,
/// photosynthesis and buffering are attenuated, death, respiration and
/// acidification are amplified.
pub open spec fn spec_apply_difficulty(
    p: SimulationParameters,
    s: DifficultyScaling,
) -> SimulationParameters {
    SimulationParameters {
        photosynthesis: PhotosynthesisParams {
            base_rate: fx(
                p.photosynthesis.base_rate as int,
                SCALE - s.photosynthesis_penalty,
            ) as u64,
            co2_efficiency: fx(
                p.photosynthesis.co2_efficiency as int,
                SCALE - s.photosynthesis_penalty / 2,
            ) as u64,
            light_dependency: p.photosynthesis.light_dependency,
            humidity_dependency: p.photosynthesis.humidity_dependency,
        },
        respiration: RespirationParams {
            base_rate: fx(p.respiration.base_rate as int, SCALE + s.respiration_increase) as u64,
            co2_production: p.respiration.co2_production,
        },
        microbial: MicrobialParams {
            nitrogen_fixation_rate: p.microbial.nitrogen_fixation_rate,
            growth_rate: fx(p.microbial.growth_rate as int, SCALE - s.growth_penalty) as u64,
            death_rate: fx(p.microbial.death_rate as int, SCALE + s.death_rate_increase) as u64,
            respiration_rate: p.microbial.respiration_rate,
            respiration_co2_ratio: p.microbial.respiration_co2_ratio,
        },
        worm: WormParams {
            aeration_rate: p.worm.aeration_rate,
            decomposition_rate: p.worm.decomposition_rate,
            growth_rate: fx(p.worm.growth_rate as int, SCALE - s.growth_penalty) as u64,
            death_rate: fx(p.worm.death_rate as int, SCALE + s.death_rate_increase) as u64,
        },
        shrimp: ShrimpParams {
            detritus_consumption_rate: p.shrimp.detritus_consumption_rate,
            waste_production_rate: p.shrimp.waste_production_rate,
            growth_rate: fx(p.shrimp.growth_rate as int, SCALE - s.growth_penalty) as u64,
            death_rate: fx(p.shrimp.death_rate as int, SCALE + s.death_rate_increase) as u64,
        },
        environmental: EnvironmentalParams {
            ph_acidification_rate: fx(
                p.environmental.ph_acidification_rate as int,
                SCALE + s.death_rate_increase,
            ) as u64,
            rock_buffer_rate: fx(
                p.environmental.rock_buffer_rate as int,
                SCALE - s.buffer_reduction,
            ) as u64,
            water_buffer_rate: fx(
                p.environmental.water_buffer_rate as int,
                SCALE - s.buffer_reduction,
            ) as u64,
            plant_nitrogen_uptake: fx(
                p.environmental.plant_nitrogen_uptake as int,
                SCALE + s.growth_penalty,
            ) as u64,
        },
    }
}

impl SimulationParameters {
    pub fn new() -> (r: Self)
        ensures
            r == spec_default_parameters(),
    {
        Self::default()
    }

    /// Rescales every affected rate constant by the difficulty scaling.
    pub fn apply_difficulty(&mut self, difficulty: &DifficultyConfig)
        requires
            difficulty.wf(),
        ensures
            *final(self) == spec_apply_difficulty(*old(self), difficulty.scaling),
    {
        let s = &difficulty.scaling;
        self.photosynthesis.base_rate = fx_mul(
            self.photosynthesis.base_rate,
            SCALE - s.photosynthesis_penalty,
        );
        self.photosynthesis.co2_efficiency = fx_mul(
            self.photosynthesis.co2_efficiency,
            SCALE - s.photosynthesis_penalty / 2,
        );
        self.respiration.base_rate = fx_mul(
            self.respiration.base_rate,
            SCALE + s.respiration_increase,
        );
        self.microbial.growth_rate = fx_mul(self.microbial.growth_rate, SCALE - s.growth_penalty);
        self.worm.growth_rate = fx_mul(self.worm.growth_rate, SCALE - s.growth_penalty);
        self.shrimp.growth_rate = fx_mul(self.shrimp.growth_rate, SCALE - s.growth_penalty);
        self.microbial.death_rate = fx_mul(
            self.microbial.death_rate,
            SCALE + s.death_rate_increase,
        );
        self.worm.death_rate = fx_mul(self.worm.death_rate, SCALE + s.death_rate_increase);
        self.shrimp.death_rate = fx_mul(self.shrimp.death_rate, SCALE + s.death_rate_increase);
        self.environmental.rock_buffer_rate = fx_mul(
            self.environmental.rock_buffer_rate,
            SCALE - s.buffer_reduction,
        );
        self.environmental.water_buffer_rate = fx_mul(
            self.environmental.water_buffer_rate,
            SCALE - s.buffer_reduction,
        );
        self.environmental.plant_nitrogen_uptake = fx_mul(
            self.environmental.plant_nitrogen_uptake,
            SCALE + s.growth_penalty,
        );
        self.environmental.ph_acidification_rate = fx_mul(
            self.environmental.ph_acidification_rate,
            SCALE + s.death_rate_increase,
        );
    }

    /// All growth-side rates must be positive; the CO2 efficiency is capped.
    pub fn validate(&self) -> (r: EcosystemResult<()>)
        ensures
            r is Ok <==> {
                &&& self.photosynthesis.base_rate > 0
                &&& self.respiration.base_rate > 0
                &&& self.microbial.growth_rate > 0
                &&& self.photosynthesis.co2_efficiency <= 5 * SCALE
            },
            r matches Err(e) ==> e matches EcosystemError::ConfigurationError { .. },
    {
        if self.photosynthesis.base_rate == 0 {
            return Err(EcosystemError::ConfigurationError {
                message: "photosynthesis base rate must be positive".to_owned(),
            });
        }
        if self.respiration.base_rate == 0 {
            return Err(EcosystemError::ConfigurationError {
                message: "respiration base rate must be positive".to_owned(),
            });
        }
        if self.microbial.growth_rate == 0 {
            return Err(EcosystemError::ConfigurationError {
                message: "microbial growth rate must be positive".to_owned(),
            });
        }
        if self.photosynthesis.co2_efficiency > 5 * SCALE {
            return Err(EcosystemError::ConfigurationError {
                message: "CO2 efficiency too high".to_owned(),
            });
        }
        Ok(())
    }

    pub fn balanced() -> (r: Self)
        ensures
            r == spec_default_parameters(),
    {
        Self::default()
    }

    /// A slower, more conservative parameter set.
    pub fn realistic() -> (r: Self)
        ensures
            r == spec_realistic_parameters(),
    {
        SimulationParameters {
            photosynthesis: PhotosynthesisParams {
                base_rate: 80000,
                co2_efficiency: 1200000,
                light_dependency: 900000,
                humidity_dependency: 800000,
            },
            respiration: RespirationParams { base_rate: 1000, co2_production: 900000 },
            microbial: MicrobialParams {
                nitrogen_fixation_rate: 6000,
                growth_rate: 8000,
                death_rate: 3000,
                respiration_rate: 800,
                respiration_co2_ratio: 900000,
            },
            worm: WormParams {
                aeration_rate: 8000,
                decomposition_rate: 8000,
                growth_rate: 8000,
                death_rate: 3000,
            },
            shrimp: ShrimpParams {
                detritus_consumption_rate: 8000,
                waste_production_rate: 4000,
                growth_rate: 8000,
                death_rate: 3000,
            },
            environmental: EnvironmentalParams {
                ph_acidification_rate: 800,
                rock_buffer_rate: 1500,
                water_buffer_rate: 800,
                plant_nitrogen_uptake: 1500,
            },
        }
    }
}

/// The conservative rate constants of the `realistic` preset, in
/// fixed-point units.
pub open spec fn spec_realistic_parameters() -> SimulationParameters {
    SimulationParameters {
        photosynthesis: PhotosynthesisParams {
            base_rate: 80000u64,
            co2_efficiency: 1200000u64,
            light_dependency: 900000u64,
            humidity_dependency: 800000u64,
        },
        respiration: RespirationParams { base_rate: 1000u64, co2_production: 900000u64 },
        microbial: MicrobialParams {
            nitrogen_fixation_rate: 6000u64,
            growth_rate: 8000u64,
            death_rate: 3000u64,
            respiration_rate: 800u64,
            respiration_co2_ratio: 900000u64,
        },
        worm: WormParams {
            aeration_rate: 8000u64,
            decomposition_rate: 8000u64,
            growth_rate: 8000u64,
            death_rate: 3000u64,
        },
        shrimp: ShrimpParams {
            detritus_consumption_rate: 8000u64,
            waste_production_rate: 4000u64,
            growth_rate: 8000u64,
            death_rate: 3000u64,
        },
        environmental: EnvironmentalParams {
            ph_acidification_rate: 800u64,
            rock_buffer_rate: 1500u64,
            water_buffer_rate: 800u64,
            plant_nitrogen_uptake: 1500u64,
        },
    }
}

impl Default for SimulationParameters {
    fn default() -> (r: Self)
        ensures
            r == spec_default_parameters(),
    {
        SimulationParameters {
            photosynthesis: PhotosynthesisParams {
                base_rate: 100000,
                co2_efficiency: 1500000,
                light_dependency: 1000000,
                humidity_dependency: 1000000,
            },
            respiration: RespirationParams { base_rate: 2000, co2_production: 1000000 },
            microbial: MicrobialParams {
                nitrogen_fixation_rate: 8000,
                growth_rate: 10000,
                death_rate: 5000,
                respiration_rate: 1000,
                respiration_co2_ratio: 1000000,
            },
            worm: WormParams {
                aeration_rate: 10000,
                decomposition_rate: 10000,
                growth_rate: 10000,
                death_rate: 5000,
            },
            shrimp: ShrimpParams {
                detritus_consumption_rate: 10000,
                waste_production_rate: 5000,
                growth_rate: 10000,
                death_rate: 5000,
            },
            environmental: EnvironmentalParams {
                ph_acidification_rate: 1000,
                rock_buffer_rate: 2000,
                water_buffer_rate: 1000,
                plant_nitrogen_uptake: 2000,
            },
        }
    }
}

} // verus!
