//! Environmental configuration: the physical setup of the bottle.

use vstd::prelude::*;
use crate::fixed::SCALE;
use crate::errors::{EcosystemError, EcosystemResult};
use crate::types::{Humidity, Temperature, WaterVolume};

verus! {

#[derive(Debug, Clone, PartialEq, Eq, Structural)]
pub enum SoilType {
    Porous,
    NonPorous,
    Balanced,
}

impl SoilType {
    /// How the soil structure scales aeration (fixed-point multiplier).
    pub fn aeration_modifier(&self) -> (r: u64)
        ensures
            r == (match *self {
                SoilType::Porous => 1500000u64,
                SoilType::NonPorous => 700000u64,
                SoilType::Balanced => 1000000u64,
            }),
    {
        match self {
            SoilType::Porous => 1500000,
            SoilType::NonPorous => 700000,
            SoilType::Balanced => 1000000,
        }
    }

    /// How the soil structure scales water retention.
    pub fn water_retention_modifier(&self) -> (r: u64)
        ensures
            r == (match *self {
                SoilType::Porous => 800000u64,
                SoilType::NonPorous => 1300000u64,
                SoilType::Balanced => 1000000u64,
            }),
    {
        match self {
            SoilType::Porous => 800000,
            SoilType::NonPorous => 1300000,
            SoilType::Balanced => 1000000,
        }
    }

    /// How the soil structure scales microbial growth.
    pub fn microbial_growth_modifier(&self) -> (r: u64)
        ensures
            r == (match *self {
                SoilType::Porous => 1200000u64,
                SoilType::NonPorous => 900000u64,
                SoilType::Balanced => 1000000u64,
            }),
    {
        match self {
            SoilType::Porous => 1200000,
            SoilType::NonPorous => 900000,
            SoilType::Balanced => 1000000,
        }
    }
}

#[derive(Debug, Clone, PartialEq, Eq, Structural)]
pub struct EnvironmentConfig {
    pub water_volume: WaterVolume,
    pub rocks: usize,
    pub window_proximity: u8,
    pub initial_temperature: Temperature,
    pub initial_humidity: Humidity,
    pub soil_type: SoilType,
}

impl EnvironmentConfig {
    /// `validate` passes: window proximity and rock count in range.
    pub open spec fn valid(&self) -> bool {
        &&& self.window_proximity <= 6
        &&& self.rocks <= 10
    }

    /// Builds the configuration, validating each quantity's domain.
    pub fn new(
        water_volume: u64,
        rocks: usize,
        window_proximity: u8,
        initial_temperature: i64,
        initial_humidity: u64,
        soil_type: SoilType,
    ) -> (r: EcosystemResult<Self>)
        ensures
            r is Ok <==> {
                &&& water_volume <= crate::types::WATER_MAX
                &&& crate::types::TEMP_MIN <= initial_temperature <= crate::types::TEMP_MAX
                &&& initial_humidity <= crate::types::HUMIDITY_MAX
            },
            r matches Ok(c) ==> {
                &&& c.water_volume@ == water_volume
                &&& c.rocks == rocks
                &&& c.window_proximity == window_proximity
                &&& c.initial_temperature@ == initial_temperature
                &&& c.initial_humidity@ == initial_humidity
                &&& c.soil_type == soil_type
            },
            r matches Err(e) ==> e matches EcosystemError::ValidationError(_),
    {
        let water = match WaterVolume::new(water_volume) {
            Ok(w) => w,
            Err(e) => {
                return Err(EcosystemError::ValidationError(e));
            },
        };
        let temp = match Temperature::new(initial_temperature) {
            Ok(t) => t,
            Err(e) => {
                return Err(EcosystemError::ValidationError(e));
            },
        };
        let hum = match Humidity::new(initial_humidity) {
            Ok(h) => h,
            Err(e) => {
                return Err(EcosystemError::ValidationError(e));
            },
        };
        Ok(EnvironmentConfig {
            water_volume: water,
            rocks,
            window_proximity,
            initial_temperature: temp,
            initial_humidity: hum,
            soil_type,
        })
    }

    pub fn validate(&self) -> (r: EcosystemResult<()>)
        ensures
            r is Ok <==> self.valid(),
            r matches Err(e) ==> e matches EcosystemError::ConfigurationError { .. },
    {
        if self.window_proximity > 6 {
            return Err(EcosystemError::ConfigurationError {
                message: "window proximity must be 0-6".to_owned(),
            });
        }
        if self.rocks > 10 {
            return Err(EcosystemError::ConfigurationError {
                message: "too many rocks (max 10)".to_owned(),
            });
        }
        Ok(())
    }

    /// Light level reaching the bottle, in fixed-point units: 6 minus the
    /// distance from the window.
    pub fn light_level(&self) -> (r: u64)
        requires
            self.window_proximity <= 6,
        ensures
            r == (6 - self.window_proximity) * SCALE,
    {
        ((6 - self.window_proximity) as u64) * SCALE
    }

    pub fn is_near_window(&self) -> (r: bool)
        ensures
            r == (self.window_proximity <= 2),
    {
        self.window_proximity <= 2
    }

    pub fn has_good_light(&self) -> (r: bool)
        requires
            self.window_proximity <= 6,
        ensures
            r == (self.window_proximity <= 2),
    {
        self.light_level() >= 4 * SCALE
    }
}

impl Default for EnvironmentConfig {
    /// The default bottle: half a liter of water, two rocks, three steps
    /// from the window, 22 degrees, 60 percent humidity, balanced soil.
    fn default() -> (r: Self)
        ensures
            r.water_volume@ == 500000,
            r.rocks == 2,
            r.window_proximity == 3,
            r.initial_temperature@ == 22000000,
            r.initial_humidity@ == 60000000,
            r.soil_type == SoilType::Balanced,
            r.valid(),
    {
        EnvironmentConfig {
            water_volume: match WaterVolume::new(500000) {
                Ok(w) => w,
                Err(_) => {
                    proof {
                        assert(false);
                    }
                    unreached()
                },
            },
            rocks: 2,
            window_proximity: 3,
            initial_temperature: match Temperature::new(22000000) {
                Ok(t) => t,
                Err(_) => {
                    proof {
                        assert(false);
                    }
                    unreached()
                },
            },
            initial_humidity: match Humidity::new(60000000) {
                Ok(h) => h,
                Err(_) => {
                    proof {
                        assert(false);
                    }
                    unreached()
                },
            },
            soil_type: SoilType::Balanced,
        }
    }
}

} // verus!
