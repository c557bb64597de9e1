//! Configuration management: the immutable parameter set of one trial.

pub mod difficulty;
pub mod environment;
pub mod organisms;
pub mod parameters;

use vstd::prelude::*;
use crate::fixed::SCALE;
use crate::errors::{EcosystemError, EcosystemResult};
use crate::types::{Humidity, Temperature, WaterVolume};

verus! {

#[derive(Debug, Clone, PartialEq, Eq, Structural)]
pub struct V2Config {
    pub organisms: organisms::OrganismConfig,
    pub environment: environment::EnvironmentConfig,
    pub parameters: parameters::SimulationParameters,
    pub difficulty: difficulty::DifficultyConfig,
}

impl V2Config {
    /// Every part of the configuration passes its own validation.
    pub open spec fn valid(&self) -> bool {
        &&& self.organisms.valid()
        &&& self.environment.valid()
        &&& self.parameters.photosynthesis.base_rate > 0
        &&& self.parameters.respiration.base_rate > 0
        &&& self.parameters.microbial.growth_rate > 0
        &&& self.parameters.photosynthesis.co2_efficiency <= 5 * SCALE
        &&& self.difficulty.level <= SCALE
    }

    pub fn new() -> (r: Self)
        ensures
            r.organisms == organisms::spec_default_organisms(),
            r.parameters == parameters::spec_default_parameters(),
            r.difficulty.level == 500000,
            r.difficulty.wf(),
            r.environment.valid(),
            r.environment.water_volume@ == 500000,
            r.environment.rocks == 2,
            r.environment.window_proximity == 3,
            r.environment.initial_temperature@ == 22000000,
            r.environment.initial_humidity@ == 60000000,
            r.environment.soil_type == environment::SoilType::Balanced,
            r.valid(),
    {
        Self::default()
    }

    /// The default configuration reparametrized by one difficulty scalar.
    pub fn with_difficulty(difficulty: u64) -> (r: EcosystemResult<Self>)
        ensures
            difficulty <= SCALE <==> r is Ok,
            r matches Ok(c) ==> {
                &&& c.difficulty.level == difficulty
                &&& c.difficulty.wf()
                &&& c.parameters == parameters::spec_apply_difficulty(
                    parameters::spec_default_parameters(),
                    difficulty::spec_scaling(difficulty),
                )
                &&& c.organisms == organisms::spec_default_organisms()
                &&& c.environment.valid()
                &&& c.environment.water_volume@ == 500000
                &&& c.environment.rocks == 2
                &&& c.environment.window_proximity == 3
                &&& c.environment.initial_temperature@ == 22000000
                &&& c.environment.initial_humidity@ == 60000000
                &&& c.environment.soil_type == environment::SoilType::Balanced
            },
            r matches Err(e) ==> e matches EcosystemError::ConfigurationError { .. },
    {
        let mut config = Self::default();
        let diff = match difficulty::DifficultyConfig::new(difficulty) {
            Ok(d) => d,
            Err(e) => {
                return Err(e);
            },
        };
        config.difficulty = diff;
        config.parameters.apply_difficulty(&config.difficulty);
        Ok(config)
    }

    pub fn validate(&self) -> (r: EcosystemResult<()>)
        ensures
            r is Ok <==> self.valid(),
            r matches Err(e) ==> e matches EcosystemError::ConfigurationError { .. },
    {
        match self.organisms.validate() {
            Ok(()) => {},
            Err(e) => {
                return Err(e);
            },
        }
        match self.environment.validate() {
            Ok(()) => {},
            Err(e) => {
                return Err(e);
            },
        }
        match self.parameters.validate() {
            Ok(()) => {},
            Err(e) => {
                return Err(e);
            },
        }
        match self.difficulty.validate() {
            Ok(()) => {},
            Err(e) => {
                return Err(e);
            },
        }
        Ok(())
    }

    pub fn window_proximity(&self) -> (r: u8)
        ensures
            r == self.environment.window_proximity,
    {
        self.environment.window_proximity
    }

    pub fn water_liters(&self) -> (r: u64)
        ensures
            r == self.environment.water_volume@,
    {
        self.environment.water_volume.value()
    }

    pub fn initial_temp(&self) -> (r: i64)
        ensures
            r == self.environment.initial_temperature@,
    {
        self.environment.initial_temperature.celsius()
    }

    pub fn initial_humidity(&self) -> (r: u64)
        ensures
            r == self.environment.initial_humidity@,
    {
        self.environment.initial_humidity.percentage()
    }

    pub fn rocks(&self) -> (r: usize)
        ensures
            r == self.environment.rocks,
    {
        self.environment.rocks
    }

    pub fn num_microbes(&self) -> (r: usize)
        ensures
            r == self.organisms.microbes.initial_count,
    {
        self.organisms.microbes.initial_count
    }

    pub fn num_worms(&self) -> (r: usize)
        ensures
            r == self.organisms.worms.initial_count,
    {
        self.organisms.worms.initial_count
    }

    pub fn num_shrimp(&self) -> (r: usize)
        ensures
            r == self.organisms.shrimp.initial_count,
    {
        self.organisms.shrimp.initial_count
    }
}

impl Default for V2Config {
    fn default() -> (r: Self)
        ensures
            r.organisms == organisms::spec_default_organisms(),
            r.parameters == parameters::spec_default_parameters(),
            r.difficulty.level == 500000,
            r.difficulty.wf(),
            r.environment.valid(),
            r.environment.window_proximity == 3,
            r.environment.water_volume@ == 500000,
            r.environment.initial_temperature@ == 22000000,
            r.environment.initial_humidity@ == 60000000,
            r.environment.rocks == 2,
            r.environment.soil_type == environment::SoilType::Balanced,
            r.valid(),
    {
        V2Config {
            organisms: organisms::OrganismConfig::default(),
            environment: environment::EnvironmentConfig::default(),
            parameters: parameters::SimulationParameters::default(),
            difficulty: difficulty::DifficultyConfig::default(),
        }
    }
}

/// The flat, older shape of the configuration, kept for callers that still
/// build one field at a time.
#[derive(Debug, Clone, PartialEq, Eq, Structural)]
pub struct LegacyV2Config {
    pub num_microbes: usize,
    pub num_worms: usize,
    pub num_shrimp: usize,
    pub water_liters: u64,
    pub rocks: usize,
    pub window_proximity: u8,
    pub initial_temp: i64,
    pub initial_humidity: u64,
}

impl From<V2Config> for LegacyV2Config {
    fn from(config: V2Config) -> (r: Self) {
        LegacyV2Config {
            num_microbes: config.organisms.microbes.initial_count,
            num_worms: config.organisms.worms.initial_count,
            num_shrimp: config.organisms.shrimp.initial_count,
            water_liters: config.environment.water_volume.value(),
            rocks: config.environment.rocks,
            window_proximity: config.environment.window_proximity,
            initial_temp: config.environment.initial_temperature.celsius(),
            initial_humidity: config.environment.initial_humidity.percentage(),
        }
    }
}

impl vstd::std_specs::convert::FromSpecImpl<V2Config> for LegacyV2Config {
    open spec fn obeys_from_spec() -> bool {
        true
    }

    open spec fn from_spec(config: V2Config) -> Self {
        LegacyV2Config {
            num_microbes: config.organisms.microbes.initial_count,
            num_worms: config.organisms.worms.initial_count,
            num_shrimp: config.organisms.shrimp.initial_count,
            water_liters: config.environment.water_volume@,
            rocks: config.environment.rocks,
            window_proximity: config.environment.window_proximity,
            initial_temp: config.environment.initial_temperature@,
            initial_humidity: config.environment.initial_humidity@,
        }
    }
}

impl V2Config {
    /// Builds a full configuration from the flat legacy shape; out-of-domain
    /// legacy fields fall back to the defaults.
    pub fn from_legacy(legacy: LegacyV2Config) -> (r: Self)
        ensures
            r.organisms.microbes.initial_count == legacy.num_microbes,
            r.organisms.worms.initial_count == legacy.num_worms,
            r.organisms.shrimp.initial_count == legacy.num_shrimp,
            r.organisms.plants.initial_biomass == SCALE,
            r.environment.water_volume@ == if legacy.water_liters <= crate::types::WATER_MAX {
                legacy.water_liters
            } else {
                500000u64
            },
            r.environment.rocks == legacy.rocks,
            r.environment.window_proximity == legacy.window_proximity,
            r.environment.initial_temperature@ == if crate::types::TEMP_MIN <= legacy.initial_temp
                <= crate::types::TEMP_MAX {
                legacy.initial_temp
            } else {
                22000000i64
            },
            r.environment.initial_humidity@ == if legacy.initial_humidity
                <= crate::types::HUMIDITY_MAX {
                legacy.initial_humidity
            } else {
                60000000u64
            },
            r.environment.soil_type == environment::SoilType::Balanced,
            r.parameters == parameters::spec_default_parameters(),
            r.difficulty.level == 500000,
            r.difficulty.wf(),
    {
        let water = match WaterVolume::new(legacy.water_liters) {
            Ok(w) => w,
            Err(_) => match WaterVolume::new(500000) {
                Ok(w) => w,
                Err(_) => {
                    proof {
                        assert(false);
                    }
                    unreached()
                },
            },
        };
        let temp = match Temperature::new(legacy.initial_temp) {
            Ok(t) => t,
            Err(_) => match Temperature::new(22000000) {
                Ok(t) => t,
                Err(_) => {
                    proof {
                        assert(false);
                    }
                    unreached()
                },
            },
        };
        let hum = match Humidity::new(legacy.initial_humidity) {
            Ok(h) => h,
            Err(_) => match Humidity::new(60000000) {
                Ok(h) => h,
                Err(_) => {
                    proof {
                        assert(false);
                    }
                    unreached()
                },
            },
        };
        V2Config {
            organisms: organisms::OrganismConfig {
                microbes: organisms::MicrobeConfig { initial_count: legacy.num_microbes },
                worms: organisms::WormConfig { initial_count: legacy.num_worms },
                shrimp: organisms::ShrimpConfig { initial_count: legacy.num_shrimp },
                plants: organisms::PlantConfig { initial_biomass: 1000000 },
            },
            environment: environment::EnvironmentConfig {
                water_volume: water,
                rocks: legacy.rocks,
                window_proximity: legacy.window_proximity,
                initial_temperature: temp,
                initial_humidity: hum,
                soil_type: environment::SoilType::Balanced,
            },
            parameters: parameters::SimulationParameters::default(),
            difficulty: difficulty::DifficultyConfig::default(),
        }
    }
}

} // verus!
