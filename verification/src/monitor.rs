//! Monitoring vocabulary: trends, alerts, environmental effects, resource
//! needs and ecosystem services, and the trend analysis over a metric's
//! history.

use vstd::prelude::*;
use crate::fixed::{SCALE, mul_div_sat, spec_mul_div_sat};
use crate::state::EcosystemStateV2;

verus! {

#[derive(Debug, Clone, Copy, PartialEq, Eq, Structural)]
pub enum TrendDirection {
    Increasing,
    Decreasing,
    Stable,
    Oscillating,
}

#[derive(Debug, Clone, Copy, PartialEq, Eq, Structural)]
pub enum AlertSeverity {
    Info,
    Warning,
    Critical,
    Emergency,
}

#[derive(Debug, Clone, Copy, PartialEq, Eq, Structural)]
pub enum EffectType {
    Increase,
    Decrease,
    Stabilize,
    Oscillate,
}

#[derive(Debug, Clone, Copy, PartialEq, Eq, Structural)]
pub enum ResourceCriticality {
    Optional,
    Helpful,
    Important,
    Critical,
    Essential,
}

#[derive(Debug, Clone, Copy, PartialEq, Eq, Structural)]
pub enum ServiceType {
    NutrientCycling,
    WaterPurification,
    SoilAeration,
    OxygenProduction,
    CarbonSequestration,
    WasteDecomposition,
    PhBuffering,
    BiodiversitySupport,
}

/// Which monitored quantity an alert is about.
#[derive(Debug, Clone, Copy, PartialEq, Eq, Structural)]
pub enum AlertParameter {
    AirOxygen,
    SoilPh,
    PlantBiomass,
}

/// A monitored quantity of the ecosystem state.
#[derive(Debug, Clone, Copy, PartialEq, Eq, Structural)]
pub enum Metric {
    PlantBiomass,
    MicrobePopulation,
    WormPopulation,
    ShrimpPopulation,
    SoilPh,
    AirOxygen,
    Temperature,
    Humidity,
    SoilNitrogen,
    WaterOxygen,
}

/// The direction and strength of a metric over its recent history.
#[derive(Debug, Clone, Copy, PartialEq, Eq, Structural)]
pub struct TrendIndicator {
    pub direction: TrendDirection,
    pub strength: u64,
    pub confidence: u64,
}

/// One condition a keeper should react to, with the value that raised it.
#[derive(Debug, Clone, Copy, PartialEq, Eq, Structural)]
pub struct AlertCondition {
    pub severity: AlertSeverity,
    pub parameter: AlertParameter,
    pub current_value: u64,
    pub threshold: u64,
}

/// How one organism class pushes an environmental quantity.
#[derive(Debug, Clone, Copy, PartialEq, Eq, Structural)]
pub struct EnvironmentalEffect {
    pub effect_type: EffectType,
    pub magnitude: u64,
    pub permanent: bool,
}

/// What one organism class needs to keep going.
#[derive(Debug, Clone, Copy, PartialEq, Eq, Structural)]
pub struct ResourceRequirement {
    pub amount: u64,
    pub criticality: ResourceCriticality,
}

/// A service an organism class renders to the whole bottle.
#[derive(Debug, Clone, Copy, PartialEq, Eq, Structural)]
pub struct EcosystemService {
    pub benefit_type: ServiceType,
    pub magnitude: u64,
    pub reliability: u64,
}

/// The trend of the last at-most-five history values: a change of more
/// than five percent relative to the window's first value (floored at one
/// thousandth) sets the direction.
pub open spec fn spec_analyze_trend(history: Seq<u64>) -> TrendIndicator {
    if history.len() < 2 {
        TrendIndicator { direction: TrendDirection::Stable, strength: 0u64, confidence: 0u64 }
    } else {
        let window = if history.len() >= 5 {
            history.subrange(history.len() - 5, history.len() as int)
        } else {
            history
        };
        let first = window.first();
        let last = window.last();
        let denom: int = if first >= 1000 {
            first as int
        } else {
            1000
        };
        let diff: int = if last >= first {
            last - first
        } else {
            first - last
        };
        let direction = if last > first && last - first > denom / 20 {
            TrendDirection::Increasing
        } else if first > last && first - last > denom / 20 {
            TrendDirection::Decreasing
        } else {
            TrendDirection::Stable
        };
        let raw_strength = spec_mul_div_sat(diff, SCALE as int, denom);
        let strength: u64 = if raw_strength >= SCALE {
            SCALE as u64
        } else {
            raw_strength as u64
        };
        let confidence: u64 = (window.len() * 100000) as u64;
        TrendIndicator { direction, strength, confidence }
    }
}

/// Classifies the recent trend of one metric's history.
pub fn analyze_trend(history: &Vec<u64>) -> (r: TrendIndicator)
    ensures
        r == spec_analyze_trend(history@),
{
    if history.len() < 2 {
        return TrendIndicator {
            direction: TrendDirection::Stable,
            strength: 0,
            confidence: 0,
        };
    }
    let start = if history.len() >= 5 {
        history.len() - 5
    } else {
        0
    };
    let window_len = history.len() - start;
    let first = history[start];
    let last = history[history.len() - 1];
    proof {
        let w = if history@.len() >= 5 {
            history@.subrange(history@.len() - 5, history@.len() as int)
        } else {
            history@
        };
        assert(w.first() == history@[start as int]);
        assert(w.last() == history@[history@.len() - 1]);
        assert(w.len() == window_len);
    }
    let denom: u64 = if first >= 1000 {
        first
    } else {
        1000
    };
    let diff: u64 = if last >= first {
        last - first
    } else {
        first - last
    };
    let direction = if last > first && last - first > denom / 20 {
        TrendDirection::Increasing
    } else if first > last && first - last > denom / 20 {
        TrendDirection::Decreasing
    } else {
        TrendDirection::Stable
    };
    let raw_strength = mul_div_sat(diff, SCALE, denom);
    let strength = if raw_strength >= SCALE {
        SCALE
    } else {
        raw_strength
    };
    let confidence = (window_len as u64) * 100000;
    TrendIndicator { direction, strength, confidence }
}

/// The metrics kept per snapshot, in a fixed order, as fixed-point values.
pub open spec fn spec_key_metrics(m: crate::state::StateModel) -> Seq<(Metric, i64)> {
    seq![
        (Metric::PlantBiomass, m.plant_biomass as i64),
        (Metric::MicrobePopulation, m.microbe_pop as i64),
        (Metric::WormPopulation, m.worm_pop as i64),
        (Metric::ShrimpPopulation, m.shrimp_pop as i64),
        (Metric::SoilPh, m.soil_ph as i64),
        (Metric::AirOxygen, m.air_o2 as i64),
        (Metric::Temperature, m.temperature),
        (Metric::Humidity, m.humidity as i64),
        (Metric::SoilNitrogen, m.soil_nitrogen as i64),
        (Metric::WaterOxygen, m.water_o2 as i64),
    ]
}

/// The key quantities of one snapshot, each under its metric key.
pub fn key_metrics(state: &EcosystemStateV2) -> (r: Vec<(Metric, i64)>)
    ensures
        r@ == spec_key_metrics(state@),
{
    state.check_wf();
    let mut metrics: Vec<(Metric, i64)> = Vec::new();
    metrics.push((Metric::PlantBiomass, state.plant_biomass.value() as i64));
    metrics.push((Metric::MicrobePopulation, state.microbe_pop.value() as i64));
    metrics.push((Metric::WormPopulation, state.worm_pop.value() as i64));
    metrics.push((Metric::ShrimpPopulation, state.shrimp_pop.value() as i64));
    metrics.push((Metric::SoilPh, state.soil_ph.value() as i64));
    metrics.push((Metric::AirOxygen, state.air_o2.percentage() as i64));
    metrics.push((Metric::Temperature, state.temperature.celsius()));
    metrics.push((Metric::Humidity, state.humidity.percentage() as i64));
    metrics.push((Metric::SoilNitrogen, state.soil_nitrogen.value() as i64));
    metrics.push((Metric::WaterOxygen, state.water_o2.percentage() as i64));
    proof {
        assert(metrics@ =~= spec_key_metrics(state@));
    }
    metrics
}

/// Trend indicators over time would need a history that a snapshot does
/// not carry; a single snapshot yields none.
pub fn trend_indicators(_state: &EcosystemStateV2) -> (r: Vec<TrendIndicator>)
    ensures
        r@ == Seq::<TrendIndicator>::empty(),
{
    Vec::new()
}

/// The active alert conditions of one snapshot: emergency on thin air,
/// warning on acidifying soil, critical on vanishing plants.
pub open spec fn spec_alert_conditions(state: crate::state::StateModel) -> Seq<AlertCondition> {
    let s1: Seq<AlertCondition> = if state.air_o2 < 5 * SCALE {
        seq![
            AlertCondition {
                severity: AlertSeverity::Emergency,
                parameter: AlertParameter::AirOxygen,
                current_value: state.air_o2,
                threshold: 5000000u64,
            },
        ]
    } else {
        seq![]
    };
    let s2: Seq<AlertCondition> = if state.soil_ph < 6 * SCALE {
        s1.push(
            AlertCondition {
                severity: AlertSeverity::Warning,
                parameter: AlertParameter::SoilPh,
                current_value: state.soil_ph,
                threshold: 6000000u64,
            },
        )
    } else {
        s1
    };
    if state.plant_biomass < 100000 {
        s2.push(
            AlertCondition {
                severity: AlertSeverity::Critical,
                parameter: AlertParameter::PlantBiomass,
                current_value: state.plant_biomass,
                threshold: 100000u64,
            },
        )
    } else {
        s2
    }
}

pub fn alert_conditions(state: &EcosystemStateV2) -> (r: Vec<AlertCondition>)
    ensures
        r@ == spec_alert_conditions(state@),
{
    let mut alerts: Vec<AlertCondition> = Vec::new();
    if state.air_o2.is_dangerously_low() {
        alerts.push(AlertCondition {
            severity: AlertSeverity::Emergency,
            parameter: AlertParameter::AirOxygen,
            current_value: state.air_o2.percentage(),
            threshold: 5000000,
        });
    }
    if state.soil_ph.value() < 6 * SCALE {
        alerts.push(AlertCondition {
            severity: AlertSeverity::Warning,
            parameter: AlertParameter::SoilPh,
            current_value: state.soil_ph.value(),
            threshold: 6000000,
        });
    }
    if state.plant_biomass.value() < 100000 {
        alerts.push(AlertCondition {
            severity: AlertSeverity::Critical,
            parameter: AlertParameter::PlantBiomass,
            current_value: state.plant_biomass.value(),
            threshold: 100000,
        });
    }
    proof {
        assert(alerts@ =~= spec_alert_conditions(state@));
    }
    alerts
}

} // verus!
