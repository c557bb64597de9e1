//! Validated quantity domain: bounded fixed-point wrapper types.
//!
//! Every quantity wraps a fixed-point integer (multiples of `1/SCALE`) and
//! declares a closed domain. `new` rejects out-of-domain construction with a
//! [`ValidationError`]; `clamped` saturates into the domain and is the
//! constructor used by per-tick arithmetic (clamp-then-store), so a quantity
//! held in the ecosystem state is always domain-valid.

use vstd::prelude::*;
use crate::fixed::{SCALE, spec_clamp, clamp};

verus! {

/// Upper bound of the plant biomass domain, in fixed-point units.
pub const BIOMASS_MAX: u64 = 100 * SCALE;

/// Upper bound of every population domain, in fixed-point units.
pub const POP_MAX: u64 = 1000000 * SCALE;

/// Upper bound of the pH domain.
pub const PH_MAX: u64 = 14 * SCALE;

/// Bounds of the temperature domain, in fixed-point degrees Celsius.
pub const TEMP_MIN: i64 = -50 * 1000000;

pub const TEMP_MAX: i64 = 60 * 1000000;

/// Upper bound of the humidity domain (percent).
pub const HUMIDITY_MAX: u64 = 100 * SCALE;

/// Upper bound of every gas-concentration domain (percent of air or water).
pub const GAS_MAX: u64 = 100 * SCALE;

/// Upper bound of the water volume domain (liters).
pub const WATER_MAX: u64 = 100 * SCALE;

/// Upper bound of the soil moisture, aeration and detritus domains.
pub const SOIL_MAX: u64 = 100 * SCALE;

/// A population or biomass at or below this value counts as collapsed
/// (0.01 units).
pub const COLLAPSE_THRESHOLD: u64 = 10000;

/// Why a quantity could not be constructed.
///
/// `NegativeValue` is kept for callers that match on it; unsigned inputs
/// cannot be negative, so this library never produces it.
#[derive(Debug, Clone, PartialEq)]
pub enum ValidationError {
    PhOutOfRange(u64),
    TemperatureOutOfRange(i64),
    HumidityOutOfRange(u64),
    NegativeValue(String),
    ZeroOrNegativePopulation(String),
    ValueTooLarge(u64),
}

#[derive(Debug, Clone, Copy, PartialEq, Eq, Structural)]
pub struct Biomass(u64);

#[derive(Debug, Clone, Copy, PartialEq, Eq, Structural)]
pub struct Population(u64);

#[derive(Debug, Clone, Copy, PartialEq, Eq, Structural)]
pub struct Ph(u64);

#[derive(Debug, Clone, Copy, PartialEq, Eq, Structural)]
pub struct Temperature(i64);

#[derive(Debug, Clone, Copy, PartialEq, Eq, Structural)]
pub struct Humidity(u64);

#[derive(Debug, Clone, Copy, PartialEq, Eq, Structural)]
pub struct Oxygen(u64);

#[derive(Debug, Clone, Copy, PartialEq, Eq, Structural)]
pub struct CarbonDioxide(u64);

#[derive(Debug, Clone, Copy, PartialEq, Eq, Structural)]
pub struct Nitrogen(u64);

#[derive(Debug, Clone, Copy, PartialEq, Eq, Structural)]
pub struct WaterVolume(u64);

#[derive(Debug, Clone, Copy, PartialEq, Eq, Structural)]
pub struct Moisture(u64);

#[derive(Debug, Clone, Copy, PartialEq, Eq, Structural)]
pub struct Aeration(u64);

#[derive(Debug, Clone, Copy, PartialEq, Eq, Structural)]
pub struct Detritus(u64);

impl View for Biomass {
    type V = u64;

    closed spec fn view(&self) -> u64 {
        self.0
    }
}

impl Biomass {
    #[verifier::type_invariant]
    pub(crate) open spec fn inv(self) -> bool {
        self.wf()
    }

    pub open spec fn wf(&self) -> bool {
        self@ <= BIOMASS_MAX
    }

    pub fn new(value: u64) -> (r: Result<Self, ValidationError>)
        ensures
            value <= BIOMASS_MAX <==> r is Ok,
            r matches Ok(q) ==> q@ == value && q.wf(),
            r matches Err(e) ==> e == ValidationError::ValueTooLarge(value),
    {
        if value > BIOMASS_MAX {
            Err(ValidationError::ValueTooLarge(value))
        } else {
            Ok(Biomass(value))
        }
    }

    /// Saturating constructor used by per-tick arithmetic.
    pub fn clamped(value: u64) -> (r: Self)
        ensures
            r@ == spec_clamp(value as int, 0, BIOMASS_MAX as int),
            r.wf(),
    {
        Biomass(clamp(value, 0, BIOMASS_MAX))
    }

    pub fn value(&self) -> (r: u64)
        ensures
            r == self@,
    {
        self.0
    }

    pub fn is_collapsed(&self) -> (r: bool)
        ensures
            r == (self@ <= COLLAPSE_THRESHOLD),
    {
        self.0 <= COLLAPSE_THRESHOLD
    }
}

impl View for Population {
    type V = u64;

    closed spec fn view(&self) -> u64 {
        self.0
    }
}

impl Population {
    #[verifier::type_invariant]
    pub(crate) open spec fn inv(self) -> bool {
        self.wf()
    }

    pub open spec fn wf(&self) -> bool {
        self@ <= POP_MAX
    }

    pub fn new(value: u64) -> (r: Result<Self, ValidationError>)
        ensures
            0 < value <= POP_MAX <==> r is Ok,
            r matches Ok(q) ==> q@ == value && q.wf(),
            value == 0 ==> (r matches Err(e)
                && e matches ValidationError::ZeroOrNegativePopulation(_)),
            value > POP_MAX ==> r == Err::<Population, ValidationError>(
                ValidationError::ValueTooLarge(value),
            ),
    {
        if value == 0 {
            Err(ValidationError::ZeroOrNegativePopulation("population".to_owned()))
        } else if value > POP_MAX {
            Err(ValidationError::ValueTooLarge(value))
        } else {
            Ok(Population(value))
        }
    }

    /// Saturating constructor used by per-tick arithmetic. A population that
    /// saturates at zero is detected by collapse diagnostics, not rejected.
    pub fn clamped(value: u64) -> (r: Self)
        ensures
            r@ == spec_clamp(value as int, 0, POP_MAX as int),
            r.wf(),
    {
        Population(clamp(value, 0, POP_MAX))
    }

    pub fn value(&self) -> (r: u64)
        ensures
            r == self@,
    {
        self.0
    }

    pub fn is_collapsed(&self) -> (r: bool)
        ensures
            r == (self@ <= COLLAPSE_THRESHOLD),
    {
        self.0 <= COLLAPSE_THRESHOLD
    }
}

impl View for Ph {
    type V = u64;

    closed spec fn view(&self) -> u64 {
        self.0
    }
}

impl Ph {
    #[verifier::type_invariant]
    pub(crate) open spec fn inv(self) -> bool {
        self.wf()
    }

    pub open spec fn wf(&self) -> bool {
        self@ <= PH_MAX
    }

    pub fn new(value: u64) -> (r: Result<Self, ValidationError>)
        ensures
            value <= PH_MAX <==> r is Ok,
            r matches Ok(q) ==> q@ == value && q.wf(),
            r matches Err(e) ==> e == ValidationError::PhOutOfRange(value),
    {
        if value > PH_MAX {
            Err(ValidationError::PhOutOfRange(value))
        } else {
            Ok(Ph(value))
        }
    }

    pub fn clamped(value: u64) -> (r: Self)
        ensures
            r@ == spec_clamp(value as int, 0, PH_MAX as int),
            r.wf(),
    {
        Ph(clamp(value, 0, PH_MAX))
    }

    pub fn value(&self) -> (r: u64)
        ensures
            r == self@,
    {
        self.0
    }

    pub fn is_acidic(&self) -> (r: bool)
        ensures
            r == (self@ < 7 * SCALE),
    {
        self.0 < 7 * SCALE
    }

    pub fn is_basic(&self) -> (r: bool)
        ensures
            r == (self@ > 7 * SCALE),
    {
        self.0 > 7 * SCALE
    }
}

impl View for Temperature {
    type V = i64;

    closed spec fn view(&self) -> i64 {
        self.0
    }
}

impl Temperature {
    #[verifier::type_invariant]
    pub(crate) open spec fn inv(self) -> bool {
        self.wf()
    }

    pub open spec fn wf(&self) -> bool {
        TEMP_MIN <= self@ <= TEMP_MAX
    }

    pub fn new(value: i64) -> (r: Result<Self, ValidationError>)
        ensures
            TEMP_MIN <= value <= TEMP_MAX <==> r is Ok,
            r matches Ok(q) ==> q@ == value && q.wf(),
            r matches Err(e) ==> e == ValidationError::TemperatureOutOfRange(value),
    {
        if value < TEMP_MIN || value > TEMP_MAX {
            Err(ValidationError::TemperatureOutOfRange(value))
        } else {
            Ok(Temperature(value))
        }
    }

    pub fn celsius(&self) -> (r: i64)
        ensures
            r == self@,
    {
        self.0
    }

    pub fn is_optimal(&self) -> (r: bool)
        ensures
            r == (20 * 1000000 <= self@ <= 28 * 1000000),
    {
        20 * 1000000 <= self.0 && self.0 <= 28 * 1000000
    }
}

impl View for Humidity {
    type V = u64;

    closed spec fn view(&self) -> u64 {
        self.0
    }
}

impl Humidity {
    #[verifier::type_invariant]
    pub(crate) open spec fn inv(self) -> bool {
        self.wf()
    }

    pub open spec fn wf(&self) -> bool {
        self@ <= HUMIDITY_MAX
    }

    pub fn new(value: u64) -> (r: Result<Self, ValidationError>)
        ensures
            value <= HUMIDITY_MAX <==> r is Ok,
            r matches Ok(q) ==> q@ == value && q.wf(),
            r matches Err(e) ==> e == ValidationError::HumidityOutOfRange(value),
    {
        if value > HUMIDITY_MAX {
            Err(ValidationError::HumidityOutOfRange(value))
        } else {
            Ok(Humidity(value))
        }
    }

    pub fn clamped(value: u64) -> (r: Self)
        ensures
            r@ == spec_clamp(value as int, 0, HUMIDITY_MAX as int),
            r.wf(),
    {
        Humidity(clamp(value, 0, HUMIDITY_MAX))
    }

    pub fn percentage(&self) -> (r: u64)
        ensures
            r == self@,
    {
        self.0
    }

    pub fn is_optimal(&self) -> (r: bool)
        ensures
            r == (40 * SCALE <= self@ <= 80 * SCALE),
    {
        40 * SCALE <= self.0 && self.0 <= 80 * SCALE
    }
}

impl View for Oxygen {
    type V = u64;

    closed spec fn view(&self) -> u64 {
        self.0
    }
}

impl Oxygen {
    #[verifier::type_invariant]
    pub(crate) open spec fn inv(self) -> bool {
        self.wf()
    }

    pub open spec fn wf(&self) -> bool {
        self@ <= GAS_MAX
    }

    pub fn new(value: u64) -> (r: Result<Self, ValidationError>)
        ensures
            value <= GAS_MAX <==> r is Ok,
            r matches Ok(q) ==> q@ == value && q.wf(),
            r matches Err(e) ==> e == ValidationError::ValueTooLarge(value),
    {
        if value > GAS_MAX {
            Err(ValidationError::ValueTooLarge(value))
        } else {
            Ok(Oxygen(value))
        }
    }

    pub fn clamped(value: u64) -> (r: Self)
        ensures
            r@ == spec_clamp(value as int, 0, GAS_MAX as int),
            r.wf(),
    {
        Oxygen(clamp(value, 0, GAS_MAX))
    }

    pub fn percentage(&self) -> (r: u64)
        ensures
            r == self@,
    {
        self.0
    }

    pub fn is_dangerously_low(&self) -> (r: bool)
        ensures
            r == (self@ < 5 * SCALE),
    {
        self.0 < 5 * SCALE
    }
}

impl View for CarbonDioxide {
    type V = u64;

    closed spec fn view(&self) -> u64 {
        self.0
    }
}

impl CarbonDioxide {
    #[verifier::type_invariant]
    pub(crate) open spec fn inv(self) -> bool {
        self.wf()
    }

    pub open spec fn wf(&self) -> bool {
        self@ <= GAS_MAX
    }

    pub fn new(value: u64) -> (r: Result<Self, ValidationError>)
        ensures
            value <= GAS_MAX <==> r is Ok,
            r matches Ok(q) ==> q@ == value && q.wf(),
            r matches Err(e) ==> e == ValidationError::ValueTooLarge(value),
    {
        if value > GAS_MAX {
            Err(ValidationError::ValueTooLarge(value))
        } else {
            Ok(CarbonDioxide(value))
        }
    }

    pub fn clamped(value: u64) -> (r: Self)
        ensures
            r@ == spec_clamp(value as int, 0, GAS_MAX as int),
            r.wf(),
    {
        CarbonDioxide(clamp(value, 0, GAS_MAX))
    }

    pub fn value(&self) -> (r: u64)
        ensures
            r == self@,
    {
        self.0
    }
}

impl View for Nitrogen {
    type V = u64;

    closed spec fn view(&self) -> u64 {
        self.0
    }
}

impl Nitrogen {
    #[verifier::type_invariant]
    pub(crate) open spec fn inv(self) -> bool {
        self.wf()
    }

    pub open spec fn wf(&self) -> bool {
        self@ <= GAS_MAX
    }

    pub fn new(value: u64) -> (r: Result<Self, ValidationError>)
        ensures
            value <= GAS_MAX <==> r is Ok,
            r matches Ok(q) ==> q@ == value && q.wf(),
            r matches Err(e) ==> e == ValidationError::ValueTooLarge(value),
    {
        if value > GAS_MAX {
            Err(ValidationError::ValueTooLarge(value))
        } else {
            Ok(Nitrogen(value))
        }
    }

    pub fn clamped(value: u64) -> (r: Self)
        ensures
            r@ == spec_clamp(value as int, 0, GAS_MAX as int),
            r.wf(),
    {
        Nitrogen(clamp(value, 0, GAS_MAX))
    }

    pub fn value(&self) -> (r: u64)
        ensures
            r == self@,
    {
        self.0
    }
}

impl View for WaterVolume {
    type V = u64;

    closed spec fn view(&self) -> u64 {
        self.0
    }
}

impl WaterVolume {
    #[verifier::type_invariant]
    pub(crate) open spec fn inv(self) -> bool {
        self.wf()
    }

    pub open spec fn wf(&self) -> bool {
        self@ <= WATER_MAX
    }

    pub fn new(value: u64) -> (r: Result<Self, ValidationError>)
        ensures
            value <= WATER_MAX <==> r is Ok,
            r matches Ok(q) ==> q@ == value && q.wf(),
            r matches Err(e) ==> e == ValidationError::ValueTooLarge(value),
    {
        if value > WATER_MAX {
            Err(ValidationError::ValueTooLarge(value))
        } else {
            Ok(WaterVolume(value))
        }
    }

    pub fn value(&self) -> (r: u64)
        ensures
            r == self@,
    {
        self.0
    }
}

impl View for Moisture {
    type V = u64;

    closed spec fn view(&self) -> u64 {
        self.0
    }
}

impl Moisture {
    #[verifier::type_invariant]
    pub(crate) open spec fn inv(self) -> bool {
        self.wf()
    }

    pub open spec fn wf(&self) -> bool {
        self@ <= SOIL_MAX
    }

    pub fn new(value: u64) -> (r: Result<Self, ValidationError>)
        ensures
            value <= SOIL_MAX <==> r is Ok,
            r matches Ok(q) ==> q@ == value && q.wf(),
            r matches Err(e) ==> e == ValidationError::ValueTooLarge(value),
    {
        if value > SOIL_MAX {
            Err(ValidationError::ValueTooLarge(value))
        } else {
            Ok(Moisture(value))
        }
    }

    pub fn clamped(value: u64) -> (r: Self)
        ensures
            r@ == spec_clamp(value as int, 0, SOIL_MAX as int),
            r.wf(),
    {
        Moisture(clamp(value, 0, SOIL_MAX))
    }

    pub fn value(&self) -> (r: u64)
        ensures
            r == self@,
    {
        self.0
    }
}

impl View for Aeration {
    type V = u64;

    closed spec fn view(&self) -> u64 {
        self.0
    }
}

impl Aeration {
    #[verifier::type_invariant]
    pub(crate) open spec fn inv(self) -> bool {
        self.wf()
    }

    pub open spec fn wf(&self) -> bool {
        self@ <= SOIL_MAX
    }

    pub fn new(value: u64) -> (r: Result<Self, ValidationError>)
        ensures
            value <= SOIL_MAX <==> r is Ok,
            r matches Ok(q) ==> q@ == value && q.wf(),
            r matches Err(e) ==> e == ValidationError::ValueTooLarge(value),
    {
        if value > SOIL_MAX {
            Err(ValidationError::ValueTooLarge(value))
        } else {
            Ok(Aeration(value))
        }
    }

    pub fn clamped(value: u64) -> (r: Self)
        ensures
            r@ == spec_clamp(value as int, 0, SOIL_MAX as int),
            r.wf(),
    {
        Aeration(clamp(value, 0, SOIL_MAX))
    }

    pub fn value(&self) -> (r: u64)
        ensures
            r == self@,
    {
        self.0
    }
}

impl View for Detritus {
    type V = u64;

    closed spec fn view(&self) -> u64 {
        self.0
    }
}

impl Detritus {
    #[verifier::type_invariant]
    pub(crate) open spec fn inv(self) -> bool {
        self.wf()
    }

    pub open spec fn wf(&self) -> bool {
        self@ <= SOIL_MAX
    }

    pub fn new(value: u64) -> (r: Result<Self, ValidationError>)
        ensures
            value <= SOIL_MAX <==> r is Ok,
            r matches Ok(q) ==> q@ == value && q.wf(),
            r matches Err(e) ==> e == ValidationError::ValueTooLarge(value),
    {
        if value > SOIL_MAX {
            Err(ValidationError::ValueTooLarge(value))
        } else {
            Ok(Detritus(value))
        }
    }

    pub fn clamped(value: u64) -> (r: Self)
        ensures
            r@ == spec_clamp(value as int, 0, SOIL_MAX as int),
            r.wf(),
    {
        Detritus(clamp(value, 0, SOIL_MAX))
    }

    pub fn value(&self) -> (r: u64)
        ensures
            r == self@,
    {
        self.0
    }
}

} // verus!
