//! Difficulty configuration: a single scalar in [0, 1] that reparametrizes
//! all rate constants, increasing stress monotonically.

use vstd::prelude::*;
use crate::fixed::{SCALE, fx, fx_mul};
use crate::errors::{EcosystemError, EcosystemResult};

verus! {

#[derive(Debug, Clone, PartialEq, Eq, Structural)]
pub struct DifficultyConfig {
    pub level: u64,
    pub scaling: DifficultyScaling,
}

#[derive(Debug, Clone, PartialEq, Eq, Structural)]
pub struct DifficultyScaling {
    pub photosynthesis_penalty: u64,
    pub respiration_increase: u64,
    pub growth_penalty: u64,
    pub death_rate_increase: u64,
    pub buffer_reduction: u64,
}

/// The scaling factors derived from a difficulty level.
pub open spec fn spec_scaling(level: u64) -> DifficultyScaling {
    DifficultyScaling {
        photosynthesis_penalty: fx(700000, level as int) as u64,
        respiration_increase: fx(2000000, level as int) as u64,
        growth_penalty: fx(700000, level as int) as u64,
        death_rate_increase: fx(1500000, level as int) as u64,
        buffer_reduction: fx(800000, level as int) as u64,
    }
}

impl DifficultyConfig {
    pub open spec fn wf(&self) -> bool {
        &&& self.level <= SCALE
        &&& self.scaling == spec_scaling(self.level)
    }

    /// A difficulty level outside [0, 1] is rejected.
    pub fn new(level: u64) -> (r: EcosystemResult<Self>)
        ensures
            level <= SCALE <==> r is Ok,
            r matches Ok(c) ==> c.level == level && c.wf(),
            r matches Err(e) ==> e matches EcosystemError::ConfigurationError { .. },
    {
        if level > SCALE {
            Err(EcosystemError::ConfigurationError {
                message: "difficulty level must be between 0.0 and 1.0".to_owned(),
            })
        } else {
            Ok(Self::build(level))
        }
    }

    fn build(level: u64) -> (r: Self)
        requires
            level <= SCALE,
        ensures
            r.level == level,
            r.wf(),
    {
        DifficultyConfig {
            level,
            scaling: DifficultyScaling {
                photosynthesis_penalty: fx_mul(700000, level),
                respiration_increase: fx_mul(2000000, level),
                growth_penalty: fx_mul(700000, level),
                death_rate_increase: fx_mul(1500000, level),
                buffer_reduction: fx_mul(800000, level),
            },
        }
    }

    pub fn validate(&self) -> (r: EcosystemResult<()>)
        ensures
            self.level <= SCALE <==> r is Ok,
            r matches Err(e) ==> e matches EcosystemError::ConfigurationError { .. },
    {
        if self.level > SCALE {
            Err(EcosystemError::ConfigurationError {
                message: "difficulty level must be between 0.0 and 1.0".to_owned(),
            })
        } else {
            Ok(())
        }
    }

    pub fn easy() -> (r: Self)
        ensures
            r.level == 200000,
            r.wf(),
    {
        Self::build(200000)
    }

    pub fn medium() -> (r: Self)
        ensures
            r.level == 500000,
            r.wf(),
    {
        Self::build(500000)
    }

    pub fn hard() -> (r: Self)
        ensures
            r.level == 800000,
            r.wf(),
    {
        Self::build(800000)
    }

    pub fn extreme() -> (r: Self)
        ensures
            r.level == SCALE,
            r.wf(),
    {
        Self::build(SCALE)
    }
}

impl Default for DifficultyConfig {
    /// Medium difficulty.
    fn default() -> (r: Self)
        ensures
            r.level == 500000,
            r.wf(),
    {
        Self::build(500000)
    }
}

} // verus!
