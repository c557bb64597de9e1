//! The legacy bottle model: a flat state, coarser equations, and a
//! sub-tick cadence of ten day intervals and six night intervals per day.
//! It survives for the legacy batch runner; the modular engine is the
//! authoritative one.

use vstd::prelude::*;
use crate::fixed::{
    SCALE, fx, fx_mul, add_cap, sub_floor, clamp, mul_div_sat, spec_add_cap, spec_clamp,
    spec_mul_div_sat, spec_sub_floor,
};
use crate::rng::{spec_step, TrialRng};

verus! {

#[derive(Debug, Clone, Copy, PartialEq, Eq, Structural)]
pub enum SoilType {
    Porous,
    NonPorous,
}

#[derive(Debug, Clone, Copy, PartialEq, Eq, Structural)]
pub struct GameConfig {
    pub soil_type: SoilType,
    pub num_plants: u32,
    pub soil_kg: u32,
    pub window_proximity: u32,
    pub water_liters: u32,
}

/// The legacy snapshot: plain fixed-point quantities, clamped to their
/// ranges once per interval.
#[derive(Debug, Clone, PartialEq, Eq, Structural)]
pub struct EcosystemState {
    pub ph: u64,
    pub temperature: u64,
    pub humidity: u64,
    pub plant_size: u64,
    pub microbial_levels: u64,
    pub nitrogen: u64,
    pub co2: u64,
    pub oxygen: u64,
}

impl EcosystemState {
    pub fn new() -> (r: Self)
        ensures
            r == spec_initial_legacy_state(),
    {
        EcosystemState {
            ph: 7000000,
            temperature: 20000000,
            humidity: 50000000,
            plant_size: 5000000,
            microbial_levels: 5000000,
            nitrogen: 73000000,
            co2: 2000000,
            oxygen: 25000000,
        }
    }
}

/// pH 7, 20 degrees, 50 percent humidity, small plants and microbes, and an
/// oxygen-rich, CO2-rich starting atmosphere.
pub open spec fn spec_initial_legacy_state() -> EcosystemState {
    EcosystemState {
        ph: 7000000u64,
        temperature: 20000000u64,
        humidity: 50000000u64,
        plant_size: 5000000u64,
        microbial_levels: 5000000u64,
        nitrogen: 73000000u64,
        co2: 2000000u64,
        oxygen: 25000000u64,
    }
}

/// Air shares renormalized so nitrogen, oxygen and CO2 sum to one hundred
/// percent; an all-zero atmosphere is left as it is.
pub open spec fn spec_air_share(part: int, total: int) -> int {
    if total == 0 {
        part
    } else {
        part * (100 * SCALE as int) / total
    }
}

fn normalize_air(n2: u64, o2: u64, co2: u64) -> (r: (u64, u64, u64))
    ensures
        ({
            let total = n2 + o2 + co2;
            &&& r.0 == spec_air_share(n2 as int, total)
            &&& r.1 == spec_air_share(o2 as int, total)
            &&& r.2 == spec_air_share(co2 as int, total)
        }),
{
    let total: u128 = (n2 as u128) + (o2 as u128) + (co2 as u128);
    if total == 0 {
        (n2, o2, co2)
    } else {
        proof {
            assert((n2 as int) * (100 * SCALE as int) <= (n2 as int + o2 as int + co2 as int) * (
            100 * SCALE as int)) by (nonlinear_arith)
                requires
                    0 <= o2 as int + co2 as int,
                    0 <= 100 * SCALE as int,
            ;
            assert((n2 as int) * (100 * SCALE as int) / (n2 as int + o2 as int + co2 as int) <= 100
                * SCALE as int) by (nonlinear_arith)
                requires
                    (n2 as int) * (100 * SCALE as int) <= (n2 as int + o2 as int + co2 as int) * (
                    100 * SCALE as int),
                    0 < n2 as int + o2 as int + co2 as int,
            ;
            assert((o2 as int) * (100 * SCALE as int) / (n2 as int + o2 as int + co2 as int) <= 100
                * SCALE as int) by (nonlinear_arith)
                requires
                    0 < n2 as int + o2 as int + co2 as int,
                    0 <= o2,
                    o2 as int <= n2 as int + o2 as int + co2 as int,
            ;
            assert((co2 as int) * (100 * SCALE as int) / (n2 as int + o2 as int + co2 as int)
                <= 100 * SCALE as int) by (nonlinear_arith)
                requires
                    0 < n2 as int + o2 as int + co2 as int,
                    0 <= co2,
                    co2 as int <= n2 as int + o2 as int + co2 as int,
            ;
        }
        let hundred: u128 = 100 * (SCALE as u128);
        let new_n2 = ((n2 as u128) * hundred / total) as u64;
        let new_o2 = ((o2 as u128) * hundred / total) as u64;
        let new_co2 = ((co2 as u128) * hundred / total) as u64;
        (new_n2, new_o2, new_co2)
    }
}

/// One legacy interval, day or night, with an optional rare "miracle"
/// boost drawn by the caller.
pub open spec fn spec_update_legacy(
    c: GameConfig,
    s: EcosystemState,
    is_day: bool,
    miracle: bool,
) -> EcosystemState {
    // Temperature from window proximity by day, cooling by night.
    let temperature = if is_day {
        spec_add_cap(s.temperature as int, (6 - c.window_proximity) * 200000, u64::MAX as int)
    } else {
        spec_sub_floor(s.temperature as int, 500000, 0)
    };
    // Humidity from temperature and water.
    let hum_gain = c.water_liters * 50000;
    let humidity = if temperature >= 20000000 {
        spec_clamp(
            spec_add_cap(
                spec_add_cap(s.humidity as int, hum_gain, u64::MAX as int),
                (temperature - 20000000) / 10,
                u64::MAX as int,
            ),
            0,
            100000000,
        )
    } else {
        spec_clamp(
            spec_sub_floor(
                spec_add_cap(s.humidity as int, hum_gain, u64::MAX as int),
                (20000000 - temperature) / 10,
                0,
            ),
            0,
            100000000,
        )
    };
    // Plant growth and gas exchange.
    let (plant_size, oxygen, co2) = if is_day {
        let light_factor = (6 - c.window_proximity) * 14000;
        let humidity_factor = humidity / 400;
        let growth_rate = fx(light_factor + humidity_factor, fx(s.co2 as int, 340000));
        let plants = c.num_plants * (SCALE as int);
        let grown = if s.plant_size / 45 <= SCALE {
            spec_add_cap(
                s.plant_size as int,
                fx(fx(growth_rate, SCALE - s.plant_size / 45), plants),
                u64::MAX as int,
            )
        } else {
            spec_sub_floor(
                s.plant_size as int,
                fx(fx(growth_rate, s.plant_size / 45 - SCALE), plants),
                0,
            )
        };
        let photosynthesis = fx(grown, 4000);
        let co2_consumed = if fx(photosynthesis, s.co2 as int) <= s.co2 {
            fx(photosynthesis, s.co2 as int)
        } else {
            s.co2 as int
        };
        (
            grown,
            spec_add_cap(s.oxygen as int, fx(co2_consumed, 880000), u64::MAX as int),
            s.co2 - co2_consumed,
        )
    } else {
        let respiration = fx(s.plant_size as int, 2200);
        let o2_consumed = if fx(respiration, s.oxygen as int) <= s.oxygen {
            fx(respiration, s.oxygen as int)
        } else {
            s.oxygen as int
        };
        (
            s.plant_size as int,
            s.oxygen - o2_consumed,
            spec_add_cap(s.co2 as int, fx(o2_consumed, 1020000), u64::MAX as int),
        )
    };
    // Microbial growth up to the soil's capacity, then respiration.
    let temp_factor = spec_mul_div_sat(spec_sub_floor(temperature, 15000000, 0), 2, 19);
    let soil_factor: int = if c.soil_type == SoilType::Porous {
        2100000
    } else {
        1050000
    };
    let microbe_growth = fx(fx(temp_factor, soil_factor), c.water_liters * 1600);
    let capacity = c.soil_kg * 2100000;
    let microbes = if s.microbial_levels < capacity {
        spec_add_cap(s.microbial_levels as int, microbe_growth, u64::MAX as int)
    } else {
        s.microbial_levels as int
    };
    let microbe_respiration = fx(microbes, 2000);
    let o2_for_microbes = if fx(microbe_respiration, oxygen) <= oxygen {
        fx(microbe_respiration, oxygen)
    } else {
        oxygen
    };
    let oxygen2 = oxygen - o2_for_microbes;
    let co2_2 = spec_add_cap(co2, fx(o2_for_microbes, 1080000), u64::MAX as int);
    // Acidification and water buffering of pH.
    let acidified = spec_sub_floor(s.ph as int, fx(microbes, 90), 0);
    let water_buffer = c.water_liters * 3800;
    let ph = if acidified <= 7000000 {
        spec_add_cap(acidified, fx(7000000 - acidified, water_buffer), u64::MAX as int)
    } else {
        spec_sub_floor(acidified, fx(acidified - 7000000, water_buffer), 0)
    };
    // Rare miracle boost.
    let oxygen3 = if miracle {
        spec_add_cap(oxygen2, 45000, u64::MAX as int)
    } else {
        oxygen2
    };
    let co2_3 = if miracle {
        spec_add_cap(co2_2, 13000, u64::MAX as int)
    } else {
        co2_2
    };
    // Clamp to declared ranges and renormalize the air to one hundred.
    let total = s.nitrogen + oxygen3 + co2_3;
    EcosystemState {
        ph: spec_clamp(ph, 0, 14000000) as u64,
        temperature: spec_clamp(temperature, 5000000, 45000000) as u64,
        humidity: humidity as u64,
        plant_size: spec_clamp(plant_size, 0, 100000000) as u64,
        microbial_levels: microbes as u64,
        nitrogen: spec_air_share(s.nitrogen as int, total) as u64,
        oxygen: spec_air_share(oxygen3, total) as u64,
        co2: spec_air_share(co2_3, total) as u64,
    }
}

/// Advances the legacy model by one interval.
pub fn update_ecosystem(config: &GameConfig, state: &mut EcosystemState, is_day: bool, miracle: bool)
    requires
        config.window_proximity <= 5,
    ensures
        *final(state) == spec_update_legacy(*config, *old(state), is_day, miracle),
{
    if is_day {
        let heat = ((6 - config.window_proximity) as u64) * 200000;
        state.temperature = add_cap(state.temperature, heat, u64::MAX);
    } else {
        state.temperature = sub_floor(state.temperature, 500000, 0);
    }
    let hum_gain = (config.water_liters as u64) * 50000;
    let with_gain = add_cap(state.humidity, hum_gain, u64::MAX);
    state.humidity = if state.temperature >= 20000000 {
        clamp(
            add_cap(with_gain, (state.temperature - 20000000) / 10, u64::MAX),
            0,
            100000000,
        )
    } else {
        clamp(sub_floor(with_gain, (20000000 - state.temperature) / 10, 0), 0, 100000000)
    };
    if is_day {
        let light_factor = ((6 - config.window_proximity) as u64) * 14000;
        let humidity_factor = state.humidity / 400;
        let growth_rate = fx_mul(light_factor + humidity_factor, fx_mul(state.co2, 340000));
        let plants = (config.num_plants as u64) * SCALE;
        state.plant_size = if state.plant_size / 45 <= SCALE {
            add_cap(
                state.plant_size,
                fx_mul(fx_mul(growth_rate, SCALE - state.plant_size / 45), plants),
                u64::MAX,
            )
        } else {
            sub_floor(
                state.plant_size,
                fx_mul(fx_mul(growth_rate, state.plant_size / 45 - SCALE), plants),
                0,
            )
        };
        let photosynthesis = fx_mul(state.plant_size, 4000);
        let raw = fx_mul(photosynthesis, state.co2);
        let co2_consumed = if raw <= state.co2 {
            raw
        } else {
            state.co2
        };
        state.co2 = state.co2 - co2_consumed;
        state.oxygen = add_cap(state.oxygen, fx_mul(co2_consumed, 880000), u64::MAX);
    } else {
        let respiration = fx_mul(state.plant_size, 2200);
        let raw = fx_mul(respiration, state.oxygen);
        let o2_consumed = if raw <= state.oxygen {
            raw
        } else {
            state.oxygen
        };
        state.oxygen = state.oxygen - o2_consumed;
        state.co2 = add_cap(state.co2, fx_mul(o2_consumed, 1020000), u64::MAX);
    }
    let temp_factor = mul_div_sat(sub_floor(state.temperature, 15000000, 0), 2, 19);
    let soil_factor: u64 = match config.soil_type {
        SoilType::Porous => 2100000,
        SoilType::NonPorous => 1050000,
    };
    let microbe_growth = fx_mul(
        fx_mul(temp_factor, soil_factor),
        (config.water_liters as u64) * 1600,
    );
    let capacity = (config.soil_kg as u64) * 2100000;
    if state.microbial_levels < capacity {
        state.microbial_levels = add_cap(state.microbial_levels, microbe_growth, u64::MAX);
    }
    let microbe_respiration = fx_mul(state.microbial_levels, 2000);
    let raw_o2 = fx_mul(microbe_respiration, state.oxygen);
    let o2_for_microbes = if raw_o2 <= state.oxygen {
        raw_o2
    } else {
        state.oxygen
    };
    state.oxygen = state.oxygen - o2_for_microbes;
    state.co2 = add_cap(state.co2, fx_mul(o2_for_microbes, 1080000), u64::MAX);
    state.ph = sub_floor(state.ph, fx_mul(state.microbial_levels, 90), 0);
    let water_buffer = (config.water_liters as u64) * 3800;
    state.ph = if state.ph <= 7000000 {
        add_cap(state.ph, fx_mul(7000000 - state.ph, water_buffer), u64::MAX)
    } else {
        sub_floor(state.ph, fx_mul(state.ph - 7000000, water_buffer), 0)
    };
    if miracle {
        state.oxygen = add_cap(state.oxygen, 45000, u64::MAX);
        state.co2 = add_cap(state.co2, 13000, u64::MAX);
    }
    state.temperature = clamp(state.temperature, 5000000, 45000000);
    state.plant_size = clamp(state.plant_size, 0, 100000000);
    state.ph = clamp(state.ph, 0, 14000000);
    let (n2, o2, co2) = normalize_air(state.nitrogen, state.oxygen, state.co2);
    state.nitrogen = n2;
    state.oxygen = o2;
    state.co2 = co2;
}

/// One legacy day: intervals `0..10` are day, `10..16` are night, and each
/// interval draws its own rare-miracle word from the generator.
pub open spec fn spec_legacy_day(
    c: GameConfig,
    s: EcosystemState,
    rng: u64,
    k: nat,
) -> (EcosystemState, u64)
    decreases 16 - k,
{
    if k >= 16 {
        (s, rng)
    } else {
        let word = spec_step(rng);
        let s1 = spec_update_legacy(c, s, k < 10, word % 100 == 0);
        spec_legacy_day(c, s1, word, k + 1)
    }
}

/// Advances the legacy model by one full day of ten day intervals and six
/// night intervals.
pub fn run_legacy_day(config: &GameConfig, state: &mut EcosystemState, rng: &mut TrialRng)
    requires
        config.window_proximity <= 5,
    ensures
        (*final(state), final(rng)@) == spec_legacy_day(*config, *old(state), old(rng)@, 0),
{
    let mut k: usize = 0;
    while k < 16
        invariant
            k <= 16,
            config.window_proximity <= 5,
            spec_legacy_day(*config, *old(state), old(rng)@, 0) == spec_legacy_day(
                *config,
                *state,
                rng@,
                k as nat,
            ),
        decreases 16 - k,
    {
        let word = rng.next_u64();
        let miracle = word % 100 == 0;
        update_ecosystem(config, state, k < 10, miracle);
        k = k + 1;
    }
}

} // verus!
