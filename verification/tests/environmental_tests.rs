//! Tests of the environmental response curves.

use ecosim::environmental::{
    competition_factor, detritus_availability, environmental_stress, humidity_efficiency,
    light_efficiency, moisture_efficiency, nutrient_efficiency, oxygen_efficiency,
    oxygen_penalty_factor, ph_efficiency, ph_penalty_factor, temperature_efficiency,
    toxicity_factor, water_oxygen_efficiency, water_oxygen_penalty_factor,
};
use ecosim::types::{Biomass, Detritus, Humidity, Moisture, Nitrogen, Oxygen, Ph, Temperature};

#[test]
fn test_temperature_efficiency() {
    let optimal_temp = Temperature::new(24_000_000).unwrap();
    let cold_temp = Temperature::new(10_000_000).unwrap();
    let hot_temp = Temperature::new(40_000_000).unwrap();

    assert!(temperature_efficiency(optimal_temp) > temperature_efficiency(cold_temp));
    assert!(temperature_efficiency(optimal_temp) > temperature_efficiency(hot_temp));
}

#[test]
fn test_ph_efficiency() {
    let neutral_ph = Ph::new(7_000_000).unwrap();
    let acidic_ph = Ph::new(3_000_000).unwrap();
    let basic_ph = Ph::new(11_000_000).unwrap();

    assert!(ph_efficiency(neutral_ph) > ph_efficiency(acidic_ph));
    assert!(ph_efficiency(neutral_ph) > ph_efficiency(basic_ph));
}

#[test]
fn test_oxygen_penalty() {
    let normal_oxygen = Oxygen::new(21_000_000).unwrap();
    let low_oxygen = Oxygen::new(3_000_000).unwrap();

    assert_eq!(oxygen_penalty_factor(normal_oxygen), 0);
    assert!(oxygen_penalty_factor(low_oxygen) > 0);
}

#[test]
fn saturating_curves_exact_values() {
    assert_eq!(light_efficiency(4_000_000), 666_666);
    assert_eq!(light_efficiency(6_000_000), 1_000_000);
    assert_eq!(light_efficiency(12_000_000), 1_000_000);
    assert_eq!(humidity_efficiency(Humidity::new(50_000_000).unwrap()), 500_000);
    assert_eq!(humidity_efficiency(Humidity::new(100_000_000).unwrap()), 1_000_000);
    assert_eq!(nutrient_efficiency(Nitrogen::new(1_000_000).unwrap()), 500_000);
    assert_eq!(nutrient_efficiency(Nitrogen::new(4_000_000).unwrap()), 1_000_000);
    assert_eq!(competition_factor(Biomass::new(50_000_000).unwrap()), 500_000);
    assert_eq!(competition_factor(Biomass::new(100_000_000).unwrap()), 0);
    assert_eq!(moisture_efficiency(Moisture::new(1_000_000).unwrap()), 500_000);
    assert_eq!(oxygen_efficiency(Oxygen::new(21_000_000).unwrap()), 1_000_000);
    assert_eq!(oxygen_efficiency(Oxygen::new(10_500_000).unwrap()), 500_000);
    assert_eq!(detritus_availability(Detritus::new(1_000_000).unwrap()), 500_000);
    assert_eq!(water_oxygen_efficiency(Oxygen::new(7_000_000).unwrap()), 333_333);
    assert_eq!(toxicity_factor(123), 0);
}

#[test]
fn bell_curves_exact_values() {
    // At the optimum the bells return exactly one.
    assert_eq!(temperature_efficiency(Temperature::new(24_000_000).unwrap()), 1_000_000);
    assert_eq!(ph_efficiency(Ph::new(7_000_000).unwrap()), 1_000_000);
    // Four degrees off the optimum: x = 16/32 = 0.5, and the rational tail
    // gives 1 / (1 + 0.5 + 0.125 + 0.020833).
    assert_eq!(temperature_efficiency(Temperature::new(28_000_000).unwrap()), 607_595);
    assert_eq!(
        temperature_efficiency(Temperature::new(28_000_000).unwrap()),
        temperature_efficiency(Temperature::new(20_000_000).unwrap()),
    );
}

#[test]
fn penalty_factors_exact_values() {
    // (6.5 - 6.0) / 6.5 of pH penalty.
    assert_eq!(ph_penalty_factor(Ph::new(6_000_000).unwrap()), 76_923);
    assert_eq!(ph_penalty_factor(Ph::new(6_500_000).unwrap()), 0);
    assert_eq!(ph_penalty_factor(Ph::new(7_200_000).unwrap()), 0);
    // (5 - 3) / 5 of oxygen penalty.
    assert_eq!(oxygen_penalty_factor(Oxygen::new(3_000_000).unwrap()), 400_000);
    assert_eq!(water_oxygen_penalty_factor(Oxygen::new(3_000_000).unwrap()), 400_000);
    assert_eq!(water_oxygen_penalty_factor(Oxygen::new(5_000_000).unwrap()), 0);
}

#[test]
fn environmental_stress_combines_contributions() {
    let calm = environmental_stress(
        Temperature::new(24_000_000).unwrap(),
        Ph::new(7_000_000).unwrap(),
        Oxygen::new(21_000_000).unwrap(),
    );
    assert_eq!(calm, 0);
    let stressed = environmental_stress(
        Temperature::new(44_000_000).unwrap(),
        Ph::new(3_000_000).unwrap(),
        Oxygen::new(1_000_000).unwrap(),
    );
    assert_eq!(stressed, 1_000_000);
    // Only oxygen is off: (5 - 4) / 5 = 0.2.
    let low_air = environmental_stress(
        Temperature::new(24_000_000).unwrap(),
        Ph::new(7_000_000).unwrap(),
        Oxygen::new(4_000_000).unwrap(),
    );
    assert_eq!(low_air, 200_000);
}
