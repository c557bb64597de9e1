//! Error taxonomy of the simulation, and the collapse diagnosis enum.

use vstd::prelude::*;
use crate::types::ValidationError;

verus! {

/// Every failure the simulation core can report.
///
/// `PopulationCollapse` and `EnvironmentalFailure` are diagnostic records;
/// `ConfigurationError` rejects invalid static parameters;
/// `ValidationError` wraps a quantity-domain violation;
/// `SimulationError` reports a per-tick computation that cannot produce a
/// valid state.
#[derive(Debug, Clone, PartialEq)]
pub enum EcosystemError {
    PopulationCollapse { population: String },
    EnvironmentalFailure { parameter: String, value: i64 },
    ConfigurationError { message: String },
    ValidationError(ValidationError),
    SimulationError { message: String },
}

pub type EcosystemResult<T> = Result<T, EcosystemError>;

impl From<ValidationError> for EcosystemError {
    fn from(error: ValidationError) -> (r: Self) {
        EcosystemError::ValidationError(error)
    }
}

impl vstd::std_specs::convert::FromSpecImpl<ValidationError> for EcosystemError {
    open spec fn obeys_from_spec() -> bool {
        true
    }

    open spec fn from_spec(error: ValidationError) -> Self {
        EcosystemError::ValidationError(error)
    }
}

/// A finite, enumerable diagnosis of why (or how) the ecosystem failed.
#[derive(Debug, PartialEq)]
pub enum CollapseReason {
    PlantsDied,
    MicrobesDied,
    WormsDied,
    ShrimpDied,
    OxygenDepletion,
    PhImbalance,
    TemperatureExtreme,
    Multiple(Vec<CollapseReason>),
}

} // verus!
