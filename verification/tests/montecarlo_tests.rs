//! Tests of the Monte Carlo harness, the legacy batch and the generator.

use ecosim::legacy::{update_ecosystem, EcosystemState, GameConfig, SoilType};
use ecosim::montecarlo::{
    most_common, run_legacy_montecarlo, run_monte_carlo_with_seed, run_montecarlo_simulations,
    MonteCarloConfig, MonteCarloModel, MonteCarloReport,
};
use ecosim::rng::TrialRng;

#[test]
fn oversized_batch_is_silently_clamped() {
    // A request of 200,000 runs is clamped to 100,000, not rejected.
    let mc = MonteCarloConfig {
        num_runs: 200_000,
        day_cap: 1,
        difficulty_min: 300_000,
        difficulty_max: 700_000,
        randomize_environment: true,
        randomize_organisms: true,
        show_progress: false,
    };
    let results = run_monte_carlo_with_seed(mc, 9);
    assert_eq!(results.results.len(), 100_000);
    // The day cap is clamped too.
    let mc_long = MonteCarloConfig {
        num_runs: 3,
        day_cap: 5_000,
        difficulty_min: 300_000,
        difficulty_max: 700_000,
        randomize_environment: true,
        randomize_organisms: true,
        show_progress: false,
    };
    let capped = run_monte_carlo_with_seed(mc_long, 9);
    assert_eq!(capped.survival_histogram.len(), 1_001);
}

#[test]
fn harder_batches_survive_no_more_than_easier_ones() {
    let easy = MonteCarloConfig {
        num_runs: 1_000,
        day_cap: 30,
        difficulty_min: 100_000,
        difficulty_max: 100_000,
        randomize_environment: true,
        randomize_organisms: true,
        show_progress: false,
    };
    let hard = MonteCarloConfig {
        num_runs: 1_000,
        day_cap: 30,
        difficulty_min: 900_000,
        difficulty_max: 900_000,
        randomize_environment: true,
        randomize_organisms: true,
        show_progress: false,
    };
    let easy_results = run_monte_carlo_with_seed(easy, 2024);
    let hard_results = run_monte_carlo_with_seed(hard, 2024);
    // Each run records the difficulty level actually drawn for it.
    for r in &hard_results.results {
        assert_eq!(r.config_snapshot.difficulty, 900_000);
    }
    for r in &easy_results.results {
        assert_eq!(r.config_snapshot.difficulty, 100_000);
    }
    assert!(hard_results.survival_rate <= easy_results.survival_rate);
    // Harder batches also collapse sooner on average.
    assert!(hard_results.average_days_survived <= easy_results.average_days_survived);
    assert_eq!(
        (easy_results.average_days_survived, hard_results.average_days_survived),
        (13_764_000, 12_507_000),
    );
}

#[test]
fn batch_aggregates_are_consistent_with_runs() {
    let mc = MonteCarloConfig {
        num_runs: 50,
        day_cap: 10,
        difficulty_min: 300_000,
        difficulty_max: 700_000,
        randomize_environment: true,
        randomize_organisms: true,
        show_progress: false,
    };
    let batch = run_monte_carlo_with_seed(mc, 31);
    assert_eq!(batch.results.len(), 50);
    let survivors = batch.results.iter().filter(|r| r.survived).count() as u64;
    assert_eq!(batch.survival_rate, survivors * 1_000_000 / 50);
    let day_sum: u64 = batch.results.iter().map(|r| r.days_survived as u64).sum();
    assert_eq!(batch.average_days_survived, day_sum * 1_000_000 / 50);
    assert_eq!(batch.survival_histogram.iter().sum::<usize>(), 50);
    for (i, r) in batch.results.iter().enumerate() {
        assert_eq!(r.run_id, i);
        assert!(r.days_survived <= 10);
        if r.survived {
            assert_eq!(r.days_survived, 10);
            assert!(r.collapse_reasons.is_empty());
        }
    }
    // Reproducibility: the same seed gives the same batch.
    let mc_again = MonteCarloConfig {
        num_runs: 50,
        day_cap: 10,
        difficulty_min: 300_000,
        difficulty_max: 700_000,
        randomize_environment: true,
        randomize_organisms: true,
        show_progress: false,
    };
    let again = run_monte_carlo_with_seed(mc_again, 31);
    assert_eq!(batch.survival_rate, again.survival_rate);
    assert_eq!(batch.results.len(), again.results.len());
    for (a, b) in batch.results.iter().zip(again.results.iter()) {
        assert_eq!(a.final_state, b.final_state);
        assert_eq!(a.days_survived, b.days_survived);
    }
}

#[test]
fn dispatcher_selects_the_model() {
    match run_montecarlo_simulations(25, 3, MonteCarloModel::V1) {
        MonteCarloReport::V1(summary) => {
            assert_eq!(summary.num_runs, 25);
            assert_eq!(summary.day_cap, 3);
            assert!(summary.survived <= summary.num_runs);
            assert_eq!(summary.survivors.len(), summary.survived);
            assert_eq!(
                summary.porous_survivors + summary.non_porous_survivors,
                summary.survived
            );
        },
        MonteCarloReport::V2(_) => panic!("expected the legacy model"),
    }
    match run_montecarlo_simulations(7, 5, MonteCarloModel::V2) {
        MonteCarloReport::V2(results) => {
            assert_eq!(results.results.len(), 7);
        },
        MonteCarloReport::V1(_) => panic!("expected the modular model"),
    }
}

#[test]
fn oversized_legacy_batch_is_silently_clamped() {
    // Day cap zero keeps each clamped run to a single day.
    let summary = run_legacy_montecarlo(200_000, 0, 5);
    assert_eq!(summary.num_runs, 100_000);
    assert_eq!(summary.day_cap, 0);
    assert_eq!(summary.histogram.len(), 2);
}

#[test]
fn legacy_update_is_deterministic_and_exact() {
    let config = GameConfig {
        soil_type: SoilType::Porous,
        num_plants: 3,
        soil_kg: 20,
        window_proximity: 3,
        water_liters: 2,
    };
    let mut state = EcosystemState::new();
    update_ecosystem(&config, &mut state, true, false);
    // Temperature rises by 0.6 degrees three steps from the window.
    assert_eq!(state.temperature, 20_600_000);
    // Humidity gains from warmth and water.
    assert_eq!(state.humidity, 50_160_000);
    let mut replay = EcosystemState::new();
    update_ecosystem(&config, &mut replay, true, false);
    assert_eq!(state, replay);
    // The air shares are renormalized to one hundred percent, up to one
    // millionth of truncation per share.
    let total = state.nitrogen + state.oxygen + state.co2;
    assert!(99_999_997 <= total && total <= 100_000_000);
    // A miracle interval adds a little oxygen.
    let mut blessed = EcosystemState::new();
    update_ecosystem(&config, &mut blessed, true, true);
    assert!(blessed.oxygen >= state.oxygen);
}

#[test]
fn legacy_batch_counts_are_consistent() {
    let summary = run_legacy_montecarlo(40, 5, 123);
    assert_eq!(summary.num_runs, 40);
    assert_eq!(summary.day_cap, 5);
    assert!(summary.survived <= 40);
    assert_eq!(summary.survivors.len(), summary.survived);
    assert_eq!(summary.porous_survivors + summary.non_porous_survivors, summary.survived);
    assert_eq!(summary.histogram.len(), 7);
    assert_eq!(summary.histogram.iter().sum::<usize>(), 40);
    for config in &summary.survivors {
        assert!((2..=5).contains(&config.num_plants));
        assert!((10..=30).contains(&config.soil_kg));
        assert!((1..=5).contains(&config.window_proximity));
        assert!((1..=10).contains(&config.water_liters));
    }
}

#[test]
fn most_common_finds_a_maximizer() {
    let values: Vec<u32> = vec![2, 3, 3, 5, 3, 5];
    let (value, count) = most_common(&values, 2, 5).unwrap();
    assert_eq!((value, count), (3, 3));
    let empty: Vec<u32> = Vec::new();
    assert!(most_common(&empty, 2, 5).is_none());
    let out_of_range: Vec<u32> = vec![9, 9];
    assert!(most_common(&out_of_range, 2, 5).is_none());
}

#[test]
fn generator_is_reproducible() {
    let mut a = TrialRng::new(5);
    let mut b = TrialRng::new(5);
    for _ in 0..100 {
        assert_eq!(a.next_u64(), b.next_u64());
    }
    let mut c = TrialRng::new(6);
    assert_ne!(a.next_u64(), c.next_u64());
    let mut d = TrialRng::new(99);
    for _ in 0..100 {
        let v = d.gen_range_u64(10, 20);
        assert!((10..=20).contains(&v));
    }
}
