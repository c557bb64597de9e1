//! Tests of trend analysis, alert conditions and the per-species health
//! snapshots.

use ecosim::config::V2Config;
use ecosim::monitor::{
    alert_conditions, analyze_trend, key_metrics, trend_indicators, AlertParameter,
    AlertSeverity, Metric, TrendDirection,
};
use ecosim::organisms::microbes::microbe_health_status;
use ecosim::organisms::plants::plant_health_status;
use ecosim::organisms::shrimp::{shrimp_ecosystem_benefits, shrimp_health_status};
use ecosim::organisms::worms::{worm_ecosystem_benefits, worm_health_status};
use ecosim::state::EcosystemStateV2;
use ecosim::types::{Oxygen, Ph};

#[test]
fn trend_analysis_classifies_direction() {
    let too_short: Vec<u64> = vec![5_000_000];
    let flat = analyze_trend(&too_short);
    assert_eq!(flat.direction, TrendDirection::Stable);
    assert_eq!(flat.confidence, 0);

    let rising: Vec<u64> = vec![1_000_000, 1_100_000, 1_300_000, 1_600_000, 2_000_000];
    let up = analyze_trend(&rising);
    assert_eq!(up.direction, TrendDirection::Increasing);
    // The full five-value window gives half confidence.
    assert_eq!(up.confidence, 500_000);
    // Strength is |last - first| / first = 1.0, capped.
    assert_eq!(up.strength, 1_000_000);

    let falling: Vec<u64> = vec![2_000_000, 1_000_000];
    let down = analyze_trend(&falling);
    assert_eq!(down.direction, TrendDirection::Decreasing);
    assert_eq!(down.strength, 500_000);
    assert_eq!(down.confidence, 200_000);

    // A two percent change is within the five percent stability band.
    let steady: Vec<u64> = vec![1_000_000, 1_020_000];
    assert_eq!(analyze_trend(&steady).direction, TrendDirection::Stable);

    // Only the last five values count.
    let recovered: Vec<u64> =
        vec![9_000_000, 1_000_000, 1_000_000, 1_000_000, 1_000_000, 1_000_000];
    assert_eq!(analyze_trend(&recovered).direction, TrendDirection::Stable);
}

#[test]
fn alerts_fire_on_their_thresholds() {
    let config = V2Config::new();
    let healthy = EcosystemStateV2::new(&config).unwrap();
    assert!(alert_conditions(&healthy).is_empty());

    let mut troubled = EcosystemStateV2::new(&config).unwrap();
    troubled.air_o2 = Oxygen::new(4_000_000).unwrap();
    troubled.soil_ph = Ph::new(5_900_000).unwrap();
    let alerts = alert_conditions(&troubled);
    assert_eq!(alerts.len(), 2);
    assert_eq!(alerts[0].severity, AlertSeverity::Emergency);
    assert_eq!(alerts[0].parameter, AlertParameter::AirOxygen);
    assert_eq!(alerts[0].current_value, 4_000_000);
    assert_eq!(alerts[0].threshold, 5_000_000);
    assert_eq!(alerts[1].severity, AlertSeverity::Warning);
    assert_eq!(alerts[1].parameter, AlertParameter::SoilPh);
}

#[test]
fn key_metrics_list_every_tracked_quantity() {
    let config = V2Config::new();
    let state = EcosystemStateV2::new(&config).unwrap();
    let metrics = key_metrics(&state);
    assert_eq!(metrics.len(), 10);
    assert_eq!(metrics[0], (Metric::PlantBiomass, 1_000_000));
    assert_eq!(metrics[1], (Metric::MicrobePopulation, 1_000_000_000));
    assert_eq!(metrics[4], (Metric::SoilPh, 7_000_000));
    assert_eq!(metrics[5], (Metric::AirOxygen, 21_000_000));
    assert_eq!(metrics[6], (Metric::Temperature, 22_000_000));
    assert_eq!(metrics[9], (Metric::WaterOxygen, 8_000_000));
    // A single snapshot carries no history, so no trend indicators.
    assert!(trend_indicators(&state).is_empty());
}

#[test]
fn health_status_snapshots() {
    let config = V2Config::new();
    let state = EcosystemStateV2::new(&config).unwrap();

    let plants = plant_health_status(&state);
    assert_eq!(plants.biomass, 1_000_000);
    assert_eq!(plants.light_adequacy, 666_666);
    assert_eq!(plants.nutrient_adequacy, 500_000);
    assert_eq!(plants.humidity_adequacy, 600_000);
    assert!(plants.is_growing);

    let microbes = microbe_health_status(&state);
    assert_eq!(microbes.population, 1_000_000_000);
    assert_eq!(microbes.ph_adequacy, 1_000_000);
    assert_eq!(microbes.oxygen_adequacy, 1_000_000);
    assert!(microbes.is_growing);
    // 0.008 per head at full oxygen, quarter moisture.
    assert_eq!(microbes.nitrogen_fixation_rate, 2_000_000);

    let worms = worm_health_status(&state);
    assert_eq!(worms.population, 5_000_000);
    assert_eq!(worms.detritus_adequacy, 250_000);
    assert!(worms.is_growing);
    assert_eq!(worms.soil_aeration_contribution, 50_000);

    let shrimp = shrimp_health_status(&state);
    assert_eq!(shrimp.population, 2_000_000);
    assert_eq!(shrimp.water_oxygen_adequacy, 380_952);
    assert_eq!(shrimp.detritus_consumption_rate, 20_000);
    assert_eq!(shrimp.waste_production_rate, 10_000);
}

#[test]
fn ecosystem_benefit_summaries() {
    let config = V2Config::new();
    let state = EcosystemStateV2::new(&config).unwrap();

    let worm_benefits = worm_ecosystem_benefits(&state);
    assert_eq!(worm_benefits.organic_matter_recycling, 50_000);
    assert_eq!(worm_benefits.nutrient_cycling, 15_000);
    assert_eq!(worm_benefits.soil_aeration, 1_000_000);
    assert_eq!(worm_benefits.overall_soil_health, 1_015_000);

    let shrimp_benefits = shrimp_ecosystem_benefits(&state);
    assert_eq!(shrimp_benefits.detritus_cleanup, 20_000);
    assert_eq!(shrimp_benefits.nutrient_contribution, 10_000);
    assert_eq!(shrimp_benefits.water_quality_improvement, 10_000);
    assert_eq!(shrimp_benefits.overall_aquatic_health, 30_000);
}
