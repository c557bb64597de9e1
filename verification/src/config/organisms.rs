//! Organism configuration: starting populations and plant biomass.

use vstd::prelude::*;
use crate::fixed::SCALE;
use crate::errors::{EcosystemError, EcosystemResult};

verus! {

#[derive(Debug, Clone, PartialEq, Eq, Structural)]
pub struct OrganismConfig {
    pub microbes: MicrobeConfig,
    pub worms: WormConfig,
    pub shrimp: ShrimpConfig,
    pub plants: PlantConfig,
}

#[derive(Debug, Clone, PartialEq, Eq, Structural)]
pub struct MicrobeConfig {
    pub initial_count: usize,
}

#[derive(Debug, Clone, PartialEq, Eq, Structural)]
pub struct WormConfig {
    pub initial_count: usize,
}

#[derive(Debug, Clone, PartialEq, Eq, Structural)]
pub struct ShrimpConfig {
    pub initial_count: usize,
}

#[derive(Debug, Clone, PartialEq, Eq, Structural)]
pub struct PlantConfig {
    /// Starting plant biomass in fixed-point units.
    pub initial_biomass: u64,
}

impl OrganismConfig {
    /// `validate` passes: the microbe count is positive and no count or
    /// biomass exceeds its hard cap.
    pub open spec fn valid(&self) -> bool {
        &&& 0 < self.microbes.initial_count <= 100000
        &&& self.worms.initial_count <= 50
        &&& self.shrimp.initial_count <= 20
        &&& 0 < self.plants.initial_biomass <= 100 * SCALE
    }

    pub fn new(
        microbe_count: usize,
        worm_count: usize,
        shrimp_count: usize,
        plant_biomass: u64,
    ) -> (r: EcosystemResult<Self>)
        ensures
            r is Ok <==> (OrganismConfig {
                microbes: MicrobeConfig { initial_count: microbe_count },
                worms: WormConfig { initial_count: worm_count },
                shrimp: ShrimpConfig { initial_count: shrimp_count },
                plants: PlantConfig { initial_biomass: plant_biomass },
            }).valid(),
            r matches Ok(c) ==> {
                &&& c.microbes.initial_count == microbe_count
                &&& c.worms.initial_count == worm_count
                &&& c.shrimp.initial_count == shrimp_count
                &&& c.plants.initial_biomass == plant_biomass
                &&& c.valid()
            },
            r matches Err(e) ==> e matches EcosystemError::ConfigurationError { .. },
    {
        let config = OrganismConfig {
            microbes: MicrobeConfig { initial_count: microbe_count },
            worms: WormConfig { initial_count: worm_count },
            shrimp: ShrimpConfig { initial_count: shrimp_count },
            plants: PlantConfig { initial_biomass: plant_biomass },
        };
        match config.validate() {
            Ok(()) => Ok(config),
            Err(e) => Err(e),
        }
    }

    /// Rejects a zero microbe count and any count or biomass over its cap.
    pub fn validate(&self) -> (r: EcosystemResult<()>)
        ensures
            r is Ok <==> self.valid(),
            r matches Err(e) ==> e matches EcosystemError::ConfigurationError { .. },
    {
        if self.microbes.initial_count == 0 {
            return Err(EcosystemError::ConfigurationError {
                message: "microbe count cannot be zero".to_owned(),
            });
        }
        if self.microbes.initial_count > 100000 {
            return Err(EcosystemError::ConfigurationError {
                message: "too many microbes (max 100,000)".to_owned(),
            });
        }
        if self.worms.initial_count > 50 {
            return Err(EcosystemError::ConfigurationError {
                message: "too many worms (max 50)".to_owned(),
            });
        }
        if self.shrimp.initial_count > 20 {
            return Err(EcosystemError::ConfigurationError {
                message: "too many shrimp (max 20)".to_owned(),
            });
        }
        if self.plants.initial_biomass == 0 {
            return Err(EcosystemError::ConfigurationError {
                message: "plant biomass must be positive".to_owned(),
            });
        }
        if self.plants.initial_biomass > 100 * SCALE {
            return Err(EcosystemError::ConfigurationError {
                message: "too much initial plant biomass (max 100)".to_owned(),
            });
        }
        Ok(())
    }

    pub fn total_organisms(&self) -> (r: usize)
        requires
            self.valid(),
        ensures
            r == self.microbes.initial_count + self.worms.initial_count
                + self.shrimp.initial_count,
    {
        self.microbes.initial_count + self.worms.initial_count + self.shrimp.initial_count
    }

    pub fn is_minimal(&self) -> (r: bool)
        ensures
            r == {
                &&& self.microbes.initial_count <= 100
                &&& self.worms.initial_count <= 1
                &&& self.shrimp.initial_count <= 1
            },
    {
        self.microbes.initial_count <= 100 && self.worms.initial_count <= 1
            && self.shrimp.initial_count <= 1
    }

    pub fn is_complex(&self) -> (r: bool)
        ensures
            r == {
                &&& self.microbes.initial_count >= 5000
                &&& self.worms.initial_count >= 10
                &&& self.shrimp.initial_count >= 5
            },
    {
        self.microbes.initial_count >= 5000 && self.worms.initial_count >= 10
            && self.shrimp.initial_count >= 5
    }

    pub fn minimal() -> (r: Self)
        ensures
            r == (OrganismConfig {
                microbes: MicrobeConfig { initial_count: 100usize },
                worms: WormConfig { initial_count: 1usize },
                shrimp: ShrimpConfig { initial_count: 1usize },
                plants: PlantConfig { initial_biomass: 500000u64 },
            }),
            r.valid(),
    {
        OrganismConfig {
            microbes: MicrobeConfig { initial_count: 100 },
            worms: WormConfig { initial_count: 1 },
            shrimp: ShrimpConfig { initial_count: 1 },
            plants: PlantConfig { initial_biomass: 500000 },
        }
    }

    pub fn balanced() -> (r: Self)
        ensures
            r == spec_default_organisms(),
            r.valid(),
    {
        Self::default()
    }

    pub fn complex() -> (r: Self)
        ensures
            r == (OrganismConfig {
                microbes: MicrobeConfig { initial_count: 5000usize },
                worms: WormConfig { initial_count: 15usize },
                shrimp: ShrimpConfig { initial_count: 8usize },
                plants: PlantConfig { initial_biomass: 2000000u64 },
            }),
            r.valid(),
    {
        OrganismConfig {
            microbes: MicrobeConfig { initial_count: 5000 },
            worms: WormConfig { initial_count: 15 },
            shrimp: ShrimpConfig { initial_count: 8 },
            plants: PlantConfig { initial_biomass: 2000000 },
        }
    }

    pub fn research() -> (r: Self)
        ensures
            r == (OrganismConfig {
                microbes: MicrobeConfig { initial_count: 10000usize },
                worms: WormConfig { initial_count: 25usize },
                shrimp: ShrimpConfig { initial_count: 12usize },
                plants: PlantConfig { initial_biomass: 3000000u64 },
            }),
            r.valid(),
    {
        OrganismConfig {
            microbes: MicrobeConfig { initial_count: 10000 },
            worms: WormConfig { initial_count: 25 },
            shrimp: ShrimpConfig { initial_count: 12 },
            plants: PlantConfig { initial_biomass: 3000000 },
        }
    }
}

/// The default community: 1000 microbes, 5 worms, 2 shrimp, 1.0 biomass.
pub open spec fn spec_default_organisms() -> OrganismConfig {
    OrganismConfig {
        microbes: MicrobeConfig { initial_count: 1000usize },
        worms: WormConfig { initial_count: 5usize },
        shrimp: ShrimpConfig { initial_count: 2usize },
        plants: PlantConfig { initial_biomass: 1000000u64 },
    }
}

impl Default for OrganismConfig {
    fn default() -> (r: Self)
        ensures
            r == spec_default_organisms(),
            r.valid(),
    {
        OrganismConfig {
            microbes: MicrobeConfig { initial_count: 1000 },
            worms: WormConfig { initial_count: 5 },
            shrimp: ShrimpConfig { initial_count: 2 },
            plants: PlantConfig { initial_biomass: 1000000 },
        }
    }
}

} // verus!
