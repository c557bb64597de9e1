//! Tests of the tick orchestrator, the diagnostics and the trial state
//! machine.

use ecosim::config::V2Config;
use ecosim::errors::{CollapseReason, EcosystemError};
use ecosim::organisms::apply_environmental_penalties;
use ecosim::simulation::{
    analyze_ecosystem_collapse, get_ecosystem_health, is_ecosystem_collapsed, run_trial,
    update_ecosystem_v2, Trial, TrialStatus,
};
use ecosim::state::{EcosystemStateV2, HealthWarning};
use ecosim::types::{Biomass, Ph, Population};

#[test]
fn test_ecosystem_update() {
    let config = V2Config::new();
    let mut state = EcosystemStateV2::new(&config).expect("Failed to create state");

    let result = update_ecosystem_v2(&config, &mut state, true);
    assert!(result.is_ok());
}

#[test]
fn test_collapse_detection() {
    let config = V2Config::new();
    let mut state = EcosystemStateV2::new(&config).expect("Failed to create state");

    assert!(!is_ecosystem_collapsed(&state));

    state.plant_biomass = Biomass::new(0).unwrap();
    state.microbe_pop = Population::new(10_000).unwrap();

    assert!(is_ecosystem_collapsed(&state));
}

#[test]
fn collapse_iff_any_population_at_threshold() {
    let config = V2Config::new();
    let mut state = EcosystemStateV2::new(&config).unwrap();
    // All four populations above 0.01: not collapsed.
    assert!(!state.is_collapsed());
    // One population just above the threshold: still not collapsed.
    state.worm_pop = Population::new(10_001).unwrap();
    assert!(!state.is_collapsed());
    // Exactly at the threshold: collapsed.
    state.worm_pop = Population::new(10_000).unwrap();
    assert!(state.is_collapsed());
    assert_eq!(state.collapse_reasons(), vec![CollapseReason::WormsDied]);
    // Each of the other three populations triggers it alone as well.
    let mut s2 = EcosystemStateV2::new(&config).unwrap();
    s2.shrimp_pop = Population::new(9_999).unwrap();
    assert!(s2.is_collapsed());
    assert_eq!(s2.collapse_reasons(), vec![CollapseReason::ShrimpDied]);
    let mut s3 = EcosystemStateV2::new(&config).unwrap();
    s3.microbe_pop = Population::new(1).unwrap();
    assert!(s3.is_collapsed());
    let mut s4 = EcosystemStateV2::new(&config).unwrap();
    s4.plant_biomass = Biomass::new(10_000).unwrap();
    assert!(s4.is_collapsed());
}

#[test]
fn air_composition_sums_to_hundred_after_tick() {
    let config = V2Config::new();
    let mut state = EcosystemStateV2::new(&config).unwrap();
    for step in 0..20 {
        update_ecosystem_v2(&config, &mut state, step % 2 == 0).unwrap();
        let o2 = state.air_o2.percentage();
        let co2 = state.air_co2.value();
        let n2 = state.air_n2.value();
        if o2 + co2 <= 100_000_000 {
            assert_eq!(o2 + co2 + n2, 100_000_000);
        } else {
            assert_eq!(n2, 0);
        }
    }
}

#[test]
fn quantities_stay_in_domain_over_many_ticks() {
    let config = V2Config::with_difficulty(900_000).unwrap();
    let mut state = EcosystemStateV2::new_with_seed(&config, 77).unwrap();
    for step in 0..200 {
        update_ecosystem_v2(&config, &mut state, step % 2 == 0).unwrap();
        assert!(state.plant_biomass.value() <= 100_000_000);
        assert!(state.soil_ph.value() <= 14_000_000);
        assert!(state.humidity.percentage() <= 100_000_000);
        assert!(state.air_o2.percentage() <= 100_000_000);
        assert!(state.air_co2.value() <= 100_000_000);
        assert!(state.air_n2.value() <= 100_000_000);
        assert!(state.water_o2.percentage() <= 100_000_000);
        let c = state.temperature.celsius();
        assert!(-50_000_000 <= c && c <= 60_000_000);
    }
}

#[test]
fn ph_penalty_shrinks_populations_by_documented_factors() {
    // Soil pH exactly 6.0: penalty = 0.5 / 6.5, and the multiplicative
    // factors are 1 - 0.10p, 1 - 0.15p and 1 - 0.20p.
    let config = V2Config::new();
    let mut state = EcosystemStateV2::new(&config).unwrap();
    state.soil_ph = Ph::new(6_000_000).unwrap();
    assert_eq!(state.plant_biomass.value(), 1_000_000);
    assert_eq!(state.microbe_pop.value(), 1_000_000_000);
    assert_eq!(state.shrimp_pop.value(), 2_000_000);
    apply_environmental_penalties(&mut state).unwrap();
    assert_eq!(state.plant_biomass.value(), 992_308);
    assert_eq!(state.microbe_pop.value(), 988_462_000);
    assert_eq!(state.shrimp_pop.value(), 1_969_232);
    // Worms are untouched by the pH penalty.
    assert_eq!(state.worm_pop.value(), 5_000_000);
}

#[test]
fn same_seed_gives_bit_identical_trajectories() {
    let config_a = V2Config::with_difficulty(500_000).unwrap();
    let config_b = V2Config::with_difficulty(500_000).unwrap();
    let mut state_a = EcosystemStateV2::new_with_seed(&config_a, 987_654_321).unwrap();
    let mut state_b = EcosystemStateV2::new_with_seed(&config_b, 987_654_321).unwrap();
    assert_eq!(state_a, state_b);
    for step in 0..60 {
        update_ecosystem_v2(&config_a, &mut state_a, step % 2 == 0).unwrap();
        update_ecosystem_v2(&config_b, &mut state_b, step % 2 == 0).unwrap();
        assert_eq!(state_a, state_b);
    }
    let (days_a, survived_a) = run_trial(&config_a, &mut state_a, 30);
    let (days_b, survived_b) = run_trial(&config_b, &mut state_b, 30);
    assert_eq!(days_a, days_b);
    assert_eq!(survived_a, survived_b);
    assert_eq!(state_a, state_b);
}

#[test]
fn reference_trajectory_seed_42() {
    // Default configuration at difficulty 0.5, seed 42, 30-day run.
    let config = V2Config::with_difficulty(500_000).unwrap();
    let mut state = EcosystemStateV2::new_with_seed(&config, 42).unwrap();
    // The seeded draws are fixed by the seed.
    let initial = (
        state.microbe_pop.value(),
        state.worm_pop.value(),
        state.shrimp_pop.value(),
        state.soil_ph.value(),
    );
    assert_eq!(initial, (1_061_492_912, 1_226_909, 3_393_721, 7_302_536));
    let (days, survived) = run_trial(&config, &mut state, 30);
    assert_eq!(
        (days, survived, state.plant_biomass.value(), state.soil_ph.value()),
        (13, false, 75_393, 0),
    );
}

#[test]
fn trial_reaches_terminal_state_and_stays_there() {
    let config = V2Config::new();
    let state = EcosystemStateV2::new(&config).unwrap();
    let mut trial = Trial::new(config, state, 0);
    assert_eq!(trial.status, TrialStatus::Initialized);
    // Day cap zero: the first tick already reaches the cap.
    trial.tick(true).unwrap();
    assert!(
        trial.status == TrialStatus::SurvivedToCap || trial.status == TrialStatus::Collapsed
    );
    let frozen_days = trial.days;
    let frozen_state = trial.state.clone();
    let frozen_status = trial.status;
    // A finished trial rejects further ticks and does not change.
    let rejected = trial.tick(false);
    assert!(matches!(rejected, Err(EcosystemError::SimulationError { .. })));
    assert_eq!(trial.days, frozen_days);
    assert_eq!(trial.state, frozen_state);
    assert_eq!(trial.status, frozen_status);
}

#[test]
fn health_summary_reflects_state() {
    let config = V2Config::new();
    let state = EcosystemStateV2::new(&config).unwrap();
    let health = get_ecosystem_health(&state);
    assert!(health.is_healthy);
    assert!(health.health_warnings.is_empty());
    let analysis = analyze_ecosystem_collapse(&state);
    assert!(!analysis.is_collapsed);
    assert!(analysis.collapse_reasons.is_empty());
    // Default temperature is optimal and every population is healthy.
    assert_eq!(analysis.collapse_risk, 0);
    assert_eq!(analysis.time_to_collapse_estimate, None);

    let mut stressed = EcosystemStateV2::new(&config).unwrap();
    stressed.soil_ph = Ph::new(5_000_000).unwrap();
    let warnings = stressed.health_warnings();
    assert_eq!(warnings, vec![HealthWarning::PhOutsideOptimalRange]);
    assert!(!stressed.is_healthy());
    assert_eq!(stressed.collapse_risk(), 800_000);
}
