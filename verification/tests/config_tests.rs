//! Tests of configuration validation, difficulty scaling and the quantity
//! domain.

use ecosim::config::difficulty::DifficultyConfig;
use ecosim::config::environment::{EnvironmentConfig, SoilType};
use ecosim::config::organisms::OrganismConfig;
use ecosim::config::parameters::SimulationParameters;
use ecosim::config::{LegacyV2Config, V2Config};
use ecosim::errors::EcosystemError;
use ecosim::types::{
    Biomass, Humidity, Oxygen, Ph, Population, Temperature, ValidationError, WaterVolume,
};

#[test]
fn zero_microbes_fail_configuration() {
    // The microbe count must be positive and at most 100,000.
    let rejected = OrganismConfig::new(0, 5, 2, 1_000_000);
    assert!(matches!(rejected, Err(EcosystemError::ConfigurationError { .. })));
    let at_cap = OrganismConfig::new(100_000, 5, 2, 1_000_000);
    assert!(at_cap.is_ok());
    let over_cap = OrganismConfig::new(100_001, 5, 2, 1_000_000);
    assert!(matches!(over_cap, Err(EcosystemError::ConfigurationError { .. })));
}

#[test]
fn organism_caps_are_enforced() {
    assert!(OrganismConfig::new(1000, 51, 2, 1_000_000).is_err());
    assert!(OrganismConfig::new(1000, 50, 21, 1_000_000).is_err());
    assert!(OrganismConfig::new(1000, 50, 20, 0).is_err());
    assert!(OrganismConfig::new(1000, 50, 20, 100_000_001).is_err());
    assert!(OrganismConfig::new(1000, 50, 20, 100_000_000).is_ok());
    let config = OrganismConfig::default();
    assert_eq!(config.total_organisms(), 1007);
    assert!(!config.is_minimal());
    assert!(!config.is_complex());
    assert!(OrganismConfig::minimal().is_minimal());
    assert!(OrganismConfig::complex().is_complex());
    assert!(OrganismConfig::research().validate().is_ok());
    assert_eq!(OrganismConfig::balanced(), OrganismConfig::default());
}

#[test]
fn difficulty_level_is_bounded() {
    assert!(DifficultyConfig::new(1_000_001).is_err());
    let extreme = DifficultyConfig::new(1_000_000).unwrap();
    assert_eq!(extreme, DifficultyConfig::extreme());
    assert_eq!(DifficultyConfig::easy().level, 200_000);
    assert_eq!(DifficultyConfig::medium().level, 500_000);
    assert_eq!(DifficultyConfig::hard().level, 800_000);
    // Scaling factors at full difficulty.
    assert_eq!(extreme.scaling.photosynthesis_penalty, 700_000);
    assert_eq!(extreme.scaling.respiration_increase, 2_000_000);
    assert_eq!(extreme.scaling.growth_penalty, 700_000);
    assert_eq!(extreme.scaling.death_rate_increase, 1_500_000);
    assert_eq!(extreme.scaling.buffer_reduction, 800_000);
}

#[test]
fn difficulty_scales_rates_monotonically() {
    let easy = V2Config::with_difficulty(100_000).unwrap();
    let hard = V2Config::with_difficulty(900_000).unwrap();
    assert!(hard.parameters.photosynthesis.base_rate <= easy.parameters.photosynthesis.base_rate);
    assert!(hard.parameters.microbial.growth_rate <= easy.parameters.microbial.growth_rate);
    assert!(hard.parameters.microbial.death_rate >= easy.parameters.microbial.death_rate);
    assert!(hard.parameters.respiration.base_rate >= easy.parameters.respiration.base_rate);
    assert!(
        hard.parameters.environmental.rock_buffer_rate
            <= easy.parameters.environmental.rock_buffer_rate
    );
    // Exact values at difficulty 0.5: the base rate loses 35 percent.
    let medium = V2Config::with_difficulty(500_000).unwrap();
    assert_eq!(medium.parameters.photosynthesis.base_rate, 65_000);
    assert_eq!(medium.parameters.respiration.base_rate, 4_000);
    assert_eq!(medium.parameters.microbial.death_rate, 8_750);
}

#[test]
fn environment_validation() {
    let good = EnvironmentConfig::new(500_000, 2, 3, 22_000_000, 60_000_000, SoilType::Balanced);
    assert!(good.is_ok());
    assert!(good.unwrap().validate().is_ok());
    // A quantity outside its domain is a validation error.
    let bad_temp =
        EnvironmentConfig::new(500_000, 2, 3, 70_000_000, 60_000_000, SoilType::Balanced);
    assert!(matches!(bad_temp, Err(EcosystemError::ValidationError(_))));
    // Structural limits are configuration errors.
    let far_window =
        EnvironmentConfig::new(500_000, 2, 7, 22_000_000, 60_000_000, SoilType::Balanced).unwrap();
    assert!(matches!(
        far_window.validate(),
        Err(EcosystemError::ConfigurationError { .. })
    ));
    let rocky =
        EnvironmentConfig::new(500_000, 11, 3, 22_000_000, 60_000_000, SoilType::Balanced)
            .unwrap();
    assert!(rocky.validate().is_err());
    // Soil modifiers.
    assert_eq!(SoilType::Porous.aeration_modifier(), 1_500_000);
    assert_eq!(SoilType::NonPorous.water_retention_modifier(), 1_300_000);
    assert_eq!(SoilType::Balanced.microbial_growth_modifier(), 1_000_000);
}

#[test]
fn quantity_domains_are_validated() {
    assert!(matches!(Ph::new(14_000_001), Err(ValidationError::PhOutOfRange(_))));
    assert!(Ph::new(14_000_000).is_ok());
    assert!(matches!(
        Temperature::new(-50_000_001),
        Err(ValidationError::TemperatureOutOfRange(_))
    ));
    assert!(Temperature::new(-50_000_000).is_ok());
    assert!(matches!(
        Humidity::new(100_000_001),
        Err(ValidationError::HumidityOutOfRange(_))
    ));
    assert!(matches!(
        Population::new(0),
        Err(ValidationError::ZeroOrNegativePopulation(_))
    ));
    assert!(matches!(Biomass::new(100_000_001), Err(ValidationError::ValueTooLarge(_))));
    assert!(matches!(Oxygen::new(100_000_001), Err(ValidationError::ValueTooLarge(_))));
    assert!(WaterVolume::new(100_000_000).is_ok());
    // Predicates on constructed quantities.
    assert!(Ph::new(6_000_000).unwrap().is_acidic());
    assert!(Ph::new(8_000_000).unwrap().is_basic());
    assert!(Temperature::new(24_000_000).unwrap().is_optimal());
    assert!(!Temperature::new(19_000_000).unwrap().is_optimal());
    assert!(Humidity::new(60_000_000).unwrap().is_optimal());
    assert!(Oxygen::new(4_999_999).unwrap().is_dangerously_low());
    assert!(!Oxygen::new(5_000_000).unwrap().is_dangerously_low());
    assert!(Population::new(10_000).unwrap().is_collapsed());
    assert!(!Population::new(10_001).unwrap().is_collapsed());
    assert!(Biomass::new(9_999).unwrap().is_collapsed());
}

#[test]
fn whole_configuration_validates() {
    let config = V2Config::new();
    assert!(config.validate().is_ok());
    assert_eq!(config.window_proximity(), 3);
    assert_eq!(config.water_liters(), 500_000);
    assert_eq!(config.initial_temp(), 22_000_000);
    assert_eq!(config.initial_humidity(), 60_000_000);
    assert_eq!(config.rocks(), 2);
    assert_eq!(config.num_microbes(), 1000);
    assert_eq!(config.num_worms(), 5);
    assert_eq!(config.num_shrimp(), 2);
    assert!(V2Config::with_difficulty(1_000_001).is_err());
    assert!(SimulationParameters::realistic().validate().is_ok());
    assert!(SimulationParameters::balanced().validate().is_ok());
}

#[test]
fn legacy_config_round_trip() {
    let config = V2Config::new();
    let legacy: LegacyV2Config = config.clone().into();
    assert_eq!(legacy.num_microbes, 1000);
    assert_eq!(legacy.water_liters, 500_000);
    let back = V2Config::from_legacy(legacy);
    assert_eq!(back.organisms.microbes.initial_count, 1000);
    assert_eq!(back.environment.water_volume.value(), 500_000);
    // Out-of-domain legacy values fall back to the defaults.
    let broken = LegacyV2Config {
        num_microbes: 500,
        num_worms: 3,
        num_shrimp: 1,
        water_liters: 200_000_000,
        rocks: 1,
        window_proximity: 2,
        initial_temp: 99_000_000,
        initial_humidity: 150_000_000,
    };
    let rebuilt = V2Config::from_legacy(broken);
    assert_eq!(rebuilt.environment.water_volume.value(), 500_000);
    assert_eq!(rebuilt.environment.initial_temperature.celsius(), 22_000_000);
    assert_eq!(rebuilt.environment.initial_humidity.percentage(), 60_000_000);
}
