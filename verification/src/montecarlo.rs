//! Monte Carlo harness: many independent randomized trials, each with its
//! own recorded seed, and the aggregation of their outcomes.
//!
//! Batch size and day cap are hard-capped (100,000 runs; 1,000 days);
//! requests above a cap are silently clamped, never rejected.

use vstd::prelude::*;
use crate::fixed::{SCALE, add_cap, spec_add_cap};
use crate::types::BIOMASS_MAX;
use crate::config::V2Config;
use crate::config::difficulty::spec_scaling;
use crate::config::environment::{EnvironmentConfig, SoilType};
use crate::config::organisms::OrganismConfig;
use crate::config::parameters::{spec_apply_difficulty, spec_default_parameters, SimulationParameters};
use crate::errors::CollapseReason;
use crate::legacy::{run_legacy_day, EcosystemState, GameConfig, SoilType as LegacySoilType};
use crate::rng::{spec_range, spec_step, TrialRng, SEED_GAMMA};
use crate::state::{
    spec_collapse_reasons, spec_is_collapsed, spec_seeded_model_from, EcosystemStateV2, StateModel,
};
use crate::simulation::{run_trial, spec_run_steps};

verus! {

/// Hard cap on the number of runs in one batch.
pub const MAX_RUNS: usize = 100000;

/// Hard cap on the day cap of one run.
pub const MAX_DAY_CAP: usize = 1000;

/// What one batch should do.
#[derive(Debug, Clone, PartialEq, Eq, Structural)]
pub struct MonteCarloConfig {
    pub num_runs: usize,
    pub day_cap: usize,
    pub difficulty_min: u64,
    pub difficulty_max: u64,
    pub randomize_environment: bool,
    pub randomize_organisms: bool,
    pub show_progress: bool,
}

impl Default for MonteCarloConfig {
    fn default() -> (r: Self)
        ensures
            r.num_runs == 1000,
            r.day_cap == 30,
            r.difficulty_min == 300000,
            r.difficulty_max == 700000,
            r.randomize_environment,
            r.randomize_organisms,
            r.show_progress,
    {
        MonteCarloConfig {
            num_runs: 1000,
            day_cap: 30,
            difficulty_min: 300000,
            difficulty_max: 700000,
            randomize_environment: true,
            randomize_organisms: true,
            show_progress: true,
        }
    }
}

/// The recorded outcome of one run.
#[derive(Debug, PartialEq)]
pub struct SimulationResult {
    pub run_id: usize,
    pub survived: bool,
    pub days_survived: usize,
    pub collapse_reasons: Vec<CollapseReason>,
    pub final_state: FinalStateSnapshot,
    pub config_snapshot: ConfigSnapshot,
}

/// The final-state values kept per run.
#[derive(Debug, Clone, Copy, PartialEq, Eq, Structural)]
pub struct FinalStateSnapshot {
    pub plant_biomass: u64,
    pub microbe_pop: u64,
    pub worm_pop: u64,
    pub shrimp_pop: u64,
    pub soil_ph: u64,
    pub air_o2: u64,
    pub temperature: i64,
    pub humidity: u64,
}

/// The configuration values kept per run.
#[derive(Debug, Clone, Copy, PartialEq, Eq, Structural)]
pub struct ConfigSnapshot {
    pub difficulty: u64,
    pub microbe_count: usize,
    pub worm_count: usize,
    pub shrimp_count: usize,
    pub water_volume: u64,
    pub rocks: usize,
    pub window_proximity: u8,
    pub initial_temp: i64,
    pub initial_humidity: u64,
}

/// How often each collapse reason occurred across the failed runs of a
/// batch (saturating at `u64::MAX`).
#[derive(Debug, Clone, PartialEq, Eq, Structural)]
pub struct CollapseReasonCounts {
    pub plants_died: u64,
    pub microbes_died: u64,
    pub worms_died: u64,
    pub shrimp_died: u64,
    pub oxygen_depletion: u64,
    pub ph_imbalance: u64,
}

/// Mean configuration values among the surviving runs.
#[derive(Debug, PartialEq)]
pub struct SurvivorAnalysis {
    pub optimal_difficulty: Option<u64>,
    pub optimal_microbe_count: Option<usize>,
    pub optimal_environment: Option<ConfigSnapshot>,
    pub average_microbes: Option<u64>,
    pub average_water_volume: Option<u64>,
    pub average_rocks: Option<u64>,
}

/// Everything one batch produced.
#[derive(Debug, PartialEq)]
pub struct MonteCarloResults {
    pub results: Vec<SimulationResult>,
    pub survival_rate: u64,
    pub average_days_survived: u64,
    pub survival_histogram: Vec<usize>,
    pub collapse_reasons_frequency: CollapseReasonCounts,
    pub survivor_analysis: SurvivorAnalysis,
}

/// Values drawn for one run's configuration, with the generator word that
/// remains afterwards.
pub struct ConfigDraw {
    pub difficulty_level: u64,
    pub water: u64,
    pub rocks: usize,
    pub window_proximity: u8,
    pub temp: i64,
    pub humidity: u64,
    pub microbes: usize,
    pub worms: usize,
    pub shrimp: usize,
    pub biomass: u64,
    pub rng_after: u64,
}

/// The draws of one randomized configuration, in a fixed order: difficulty
/// first, then the environment (if randomized), then the organisms (if
/// randomized). Fields that are not randomized hold the defaults.
pub open spec fn spec_config_draw(mc: MonteCarloConfig, s0: u64) -> ConfigDraw {
    let s1 = spec_step(s0);
    let level = spec_range(s1, mc.difficulty_min, mc.difficulty_max);
    let s_env = if mc.randomize_environment {
        spec_step(spec_step(spec_step(spec_step(spec_step(s1)))))
    } else {
        s1
    };
    let water = if mc.randomize_environment {
        spec_range(spec_step(s1), 200000u64, 2000000u64)
    } else {
        500000u64
    };
    let rocks = if mc.randomize_environment {
        spec_range(spec_step(spec_step(s1)), 0u64, 5u64) as usize
    } else {
        2usize
    };
    let window_proximity = if mc.randomize_environment {
        spec_range(spec_step(spec_step(spec_step(s1))), 1u64, 6u64) as u8
    } else {
        3u8
    };
    let temp = if mc.randomize_environment {
        spec_range(spec_step(spec_step(spec_step(spec_step(s1)))), 15000000u64, 30000000u64) as i64
    } else {
        22000000i64
    };
    let humidity = if mc.randomize_environment {
        spec_range(s_env, 30000000u64, 90000000u64)
    } else {
        60000000u64
    };
    let s_env_done = if mc.randomize_environment {
        s_env
    } else {
        s1
    };
    let s_org = if mc.randomize_organisms {
        spec_step(spec_step(spec_step(s_env_done)))
    } else {
        s_env_done
    };
    let microbes = if mc.randomize_organisms {
        spec_range(spec_step(s_env_done), 100u64, 5000u64) as usize
    } else {
        1000usize
    };
    let worms = if mc.randomize_organisms {
        spec_range(spec_step(spec_step(s_env_done)), 1u64, 15u64) as usize
    } else {
        5usize
    };
    let shrimp = if mc.randomize_organisms {
        spec_range(s_org, 1u64, 8u64) as usize
    } else {
        2usize
    };
    let biomass = if mc.randomize_organisms {
        spec_range(spec_step(s_org), 500000u64, 3000000u64)
    } else {
        1000000u64
    };
    let rng_after = if mc.randomize_organisms {
        spec_step(s_org)
    } else {
        s_env_done
    };
    ConfigDraw {
        difficulty_level: level,
        water,
        rocks,
        window_proximity,
        temp,
        humidity,
        microbes,
        worms,
        shrimp,
        biomass,
        rng_after,
    }
}

/// The parameter set a drawn difficulty level yields: the reparametrized
/// defaults, or the plain defaults where the draw was rejected.
pub open spec fn spec_drawn_parameters(level: u64) -> SimulationParameters {
    if level <= SCALE {
        spec_apply_difficulty(spec_default_parameters(), spec_scaling(level))
    } else {
        spec_default_parameters()
    }
}

/// Draws one randomized configuration from the generator.
pub fn generate_random_config(mc_config: &MonteCarloConfig, rng: &mut TrialRng) -> (r: V2Config)
    requires
        mc_config.difficulty_min <= mc_config.difficulty_max,
        mc_config.difficulty_max - mc_config.difficulty_min < u64::MAX,
    ensures
        ({
            let d = spec_config_draw(*mc_config, old(rng)@);
            &&& final(rng)@ == d.rng_after
            &&& r.difficulty.level == if d.difficulty_level <= SCALE {
                d.difficulty_level
            } else {
                500000u64
            }
            &&& r.difficulty.wf()
            &&& r.parameters == spec_drawn_parameters(d.difficulty_level)
            &&& r.environment.water_volume@ == d.water
            &&& r.environment.rocks == d.rocks
            &&& r.environment.window_proximity == d.window_proximity
            &&& r.environment.initial_temperature@ == d.temp
            &&& r.environment.initial_humidity@ == d.humidity
            &&& r.environment.soil_type == SoilType::Balanced
            &&& r.organisms.microbes.initial_count == d.microbes
            &&& r.organisms.worms.initial_count == d.worms
            &&& r.organisms.shrimp.initial_count == d.shrimp
            &&& r.organisms.plants.initial_biomass == d.biomass
            &&& r.environment.water_volume@ >= 200000
            &&& r.organisms.plants.initial_biomass <= BIOMASS_MAX
        }),
{
    let difficulty = rng.gen_range_u64(
        mc_config.difficulty_min,
        mc_config.difficulty_max,
    );
    let mut config = match V2Config::with_difficulty(difficulty) {
        Ok(c) => c,
        Err(_) => V2Config::new(),
    };
    if mc_config.randomize_environment {
        let water_volume = rng.gen_range_u64(200000, 2000000);
        let rocks = rng.gen_range_usize(0, 5);
        let window_proximity = rng.gen_range_u64(1, 6);
        let temp = rng.gen_range_u64(15000000, 30000000);
        let humidity = rng.gen_range_u64(30000000, 90000000);
        match EnvironmentConfig::new(
            water_volume,
            rocks,
            window_proximity as u8,
            temp as i64,
            humidity,
            SoilType::Balanced,
        ) {
            Ok(env_config) => {
                config.environment = env_config;
            },
            Err(_) => {
                proof {
                    assert(false);
                }
            },
        }
    }
    if mc_config.randomize_organisms {
        let microbe_count = rng.gen_range_usize(100, 5000);
        let worm_count = rng.gen_range_usize(1, 15);
        let shrimp_count = rng.gen_range_usize(1, 8);
        let plant_biomass = rng.gen_range_u64(500000, 3000000);
        match OrganismConfig::new(microbe_count, worm_count, shrimp_count, plant_biomass) {
            Ok(org_config) => {
                config.organisms = org_config;
            },
            Err(_) => {
                proof {
                    assert(false);
                }
            },
        }
    }
    config
}

/// Records the configuration values of one run, including the difficulty
/// level that was actually drawn for it.
fn create_config_snapshot(config: &V2Config) -> (r: ConfigSnapshot)
    ensures
        r == (ConfigSnapshot {
            difficulty: config.difficulty.level,
            microbe_count: config.organisms.microbes.initial_count,
            worm_count: config.organisms.worms.initial_count,
            shrimp_count: config.organisms.shrimp.initial_count,
            water_volume: config.environment.water_volume@,
            rocks: config.environment.rocks,
            window_proximity: config.environment.window_proximity,
            initial_temp: config.environment.initial_temperature@,
            initial_humidity: config.environment.initial_humidity@,
        }),
{
    ConfigSnapshot {
        difficulty: config.difficulty.level,
        microbe_count: config.organisms.microbes.initial_count,
        worm_count: config.organisms.worms.initial_count,
        shrimp_count: config.organisms.shrimp.initial_count,
        water_volume: config.environment.water_volume.value(),
        rocks: config.environment.rocks,
        window_proximity: config.environment.window_proximity,
        initial_temp: config.environment.initial_temperature.celsius(),
        initial_humidity: config.environment.initial_humidity.percentage(),
    }
}

/// The snapshot taken of a final state model.
pub open spec fn spec_final_snapshot(m: StateModel) -> FinalStateSnapshot {
    FinalStateSnapshot {
        plant_biomass: m.plant_biomass,
        microbe_pop: m.microbe_pop,
        worm_pop: m.worm_pop,
        shrimp_pop: m.shrimp_pop,
        soil_ph: m.soil_ph,
        air_o2: m.air_o2,
        temperature: m.temperature,
        humidity: m.humidity,
    }
}

/// Runs one randomized trial: a configuration is drawn, a seed is drawn and
/// recorded, the seeded state is run to collapse or the day cap, and the
/// outcome is a function of the generator word and nothing else.
pub fn run_single_simulation(
    run_id: usize,
    mc_config: &MonteCarloConfig,
    day_cap: usize,
    rng: &mut TrialRng,
) -> (r: SimulationResult)
    requires
        day_cap <= MAX_DAY_CAP,
        mc_config.difficulty_min <= mc_config.difficulty_max,
        mc_config.difficulty_max - mc_config.difficulty_min < u64::MAX,
    ensures
        ({
            let d = spec_config_draw(*mc_config, old(rng)@);
            let seed = spec_step(d.rng_after);
            let m0 = spec_seeded_model_from(d.biomass, d.water, d.rocks as u64, seed);
            let outcome = spec_run_steps(
                m0,
                spec_drawn_parameters(d.difficulty_level),
                0,
                0,
                day_cap as nat,
            );
            &&& final(rng)@ == seed
            &&& r.run_id == run_id
            &&& r.days_survived == outcome.1
            &&& r.survived == outcome.2
            &&& r.final_state == spec_final_snapshot(outcome.0)
            &&& r.collapse_reasons@ == if spec_is_collapsed(outcome.0) {
                spec_collapse_reasons(outcome.0)
            } else {
                Seq::<CollapseReason>::empty()
            }
            &&& r.days_survived <= day_cap
            &&& (r.survived ==> r.days_survived == day_cap)
            &&& (r.survived ==> r.collapse_reasons@.len() == 0)
            &&& r.config_snapshot == (ConfigSnapshot {
                difficulty: if d.difficulty_level <= SCALE {
                    d.difficulty_level
                } else {
                    500000u64
                },
                microbe_count: d.microbes,
                worm_count: d.worms,
                shrimp_count: d.shrimp,
                water_volume: d.water,
                rocks: d.rocks,
                window_proximity: d.window_proximity,
                initial_temp: d.temp,
                initial_humidity: d.humidity,
            })
        }),
{
    let config = generate_random_config(mc_config, rng);
    let config_snapshot = create_config_snapshot(&config);
    let seed = rng.next_u64();
    let mut state = match EcosystemStateV2::new_with_seed(&config, seed) {
        Ok(s) => s,
        Err(_) => {
            proof {
                assert(false);
            }
            unreached()
        },
    };
    let ghost start_model = state@;
    let (days_survived, survived) = run_trial(&config, &mut state, day_cap);
    proof {
        crate::simulation::lemma_survivor_not_collapsed(
            start_model,
            config.parameters,
            0,
            0,
            day_cap as nat,
        );
    }
    let collapse_reasons: Vec<CollapseReason> = if state.is_collapsed() {
        state.collapse_reasons()
    } else {
        Vec::new()
    };
    let final_state = FinalStateSnapshot {
        plant_biomass: state.plant_biomass.value(),
        microbe_pop: state.microbe_pop.value(),
        worm_pop: state.worm_pop.value(),
        shrimp_pop: state.shrimp_pop.value(),
        soil_ph: state.soil_ph.value(),
        air_o2: state.air_o2.percentage(),
        temperature: state.temperature.celsius(),
        humidity: state.humidity.percentage(),
    };
    SimulationResult {
        run_id,
        survived,
        days_survived,
        collapse_reasons,
        final_state,
        config_snapshot,
    }
}

/// How many of the recorded runs survived.
pub open spec fn spec_survivor_count(rs: Seq<SimulationResult>) -> nat
    decreases rs.len(),
{
    if rs.len() == 0 {
        0
    } else {
        spec_survivor_count(rs.drop_last()) + if rs.last().survived {
            1nat
        } else {
            0nat
        }
    }
}

/// The sum of days survived across the recorded runs.
pub open spec fn spec_days_sum(rs: Seq<SimulationResult>) -> nat
    decreases rs.len(),
{
    if rs.len() == 0 {
        0
    } else {
        spec_days_sum(rs.drop_last()) + (rs.last().days_survived as nat)
    }
}

/// How many runs survived exactly `d` days.
pub open spec fn spec_days_count(rs: Seq<SimulationResult>, d: int) -> nat
    decreases rs.len(),
{
    if rs.len() == 0 {
        0
    } else {
        spec_days_count(rs.drop_last(), d) + if rs.last().days_survived == d {
            1nat
        } else {
            0nat
        }
    }
}

/// How often `want` occurs in one reason list.
pub open spec fn spec_count_reason(s: Seq<CollapseReason>, want: CollapseReason) -> nat
    decreases s.len(),
{
    if s.len() == 0 {
        0
    } else {
        spec_count_reason(s.drop_last(), want) + if s.last() == want {
            1nat
        } else {
            0nat
        }
    }
}

/// How often `want` occurs across the failed runs, saturating at
/// `u64::MAX`.
pub open spec fn spec_batch_reason_count(rs: Seq<SimulationResult>, want: CollapseReason) -> int
    decreases rs.len(),
{
    if rs.len() == 0 {
        0
    } else {
        spec_add_cap(
            spec_batch_reason_count(rs.drop_last(), want),
            if !rs.last().survived {
                spec_count_reason(rs.last().collapse_reasons@, want) as int
            } else {
                0
            },
            u64::MAX as int,
        )
    }
}

/// The saturating sum of one configuration value across the survivors.
pub open spec fn spec_survivor_sum(rs: Seq<SimulationResult>, which: SurvivorField) -> int
    decreases rs.len(),
{
    if rs.len() == 0 {
        0
    } else {
        spec_add_cap(
            spec_survivor_sum(rs.drop_last(), which),
            if rs.last().survived {
                spec_survivor_field(rs.last().config_snapshot, which)
            } else {
                0
            },
            u64::MAX as int,
        )
    }
}

/// Which configuration value a survivor average ranges over.
#[derive(Debug, Clone, Copy, PartialEq, Eq, Structural)]
pub enum SurvivorField {
    Difficulty,
    MicrobeCount,
    WaterVolume,
    Rocks,
}

pub open spec fn spec_survivor_field(cs: ConfigSnapshot, which: SurvivorField) -> int {
    match which {
        SurvivorField::Difficulty => cs.difficulty as int,
        SurvivorField::MicrobeCount => cs.microbe_count as int,
        SurvivorField::WaterVolume => cs.water_volume as int,
        SurvivorField::Rocks => cs.rocks as int,
    }
}

/// The configuration snapshot of the first surviving run, if any.
pub open spec fn spec_first_survivor(rs: Seq<SimulationResult>) -> Option<ConfigSnapshot>
    decreases rs.len(),
{
    if rs.len() == 0 {
        None
    } else {
        let prev = spec_first_survivor(rs.drop_last());
        if prev is Some {
            prev
        } else if rs.last().survived {
            Some(rs.last().config_snapshot)
        } else {
            None
        }
    }
}

/// `survivors * SCALE / total`, or zero for an empty batch.
pub open spec fn spec_survival_rate(rs: Seq<SimulationResult>) -> int {
    if rs.len() == 0 {
        0
    } else {
        spec_survivor_count(rs) * (SCALE as int) / (rs.len() as int)
    }
}

/// Mean days survived in fixed-point units, or zero for an empty batch.
pub open spec fn spec_average_days(rs: Seq<SimulationResult>) -> int {
    if rs.len() == 0 {
        0
    } else {
        spec_days_sum(rs) * (SCALE as int) / (rs.len() as int)
    }
}

/// The batch aggregates are exactly the reductions of the recorded runs:
/// survival rate and mean days over all runs, the day histogram by count,
/// the collapse-reason frequencies over the failed runs, and the survivor
/// averages over the surviving runs alone (all `None` when nothing
/// survived).
pub open spec fn spec_results_aggregated(r: MonteCarloResults, day_cap: int) -> bool {
    let rs = r.results@;
    let n = spec_survivor_count(rs) as int;
    &&& r.survival_rate == spec_survival_rate(rs)
    &&& r.average_days_survived == spec_average_days(rs)
    &&& r.survival_histogram@.len() == day_cap + 1
    &&& (forall|d: int|
        0 <= d <= day_cap ==> #[trigger] r.survival_histogram@[d] == spec_days_count(rs, d))
    &&& r.collapse_reasons_frequency.plants_died == spec_batch_reason_count(
        rs,
        CollapseReason::PlantsDied,
    )
    &&& r.collapse_reasons_frequency.microbes_died == spec_batch_reason_count(
        rs,
        CollapseReason::MicrobesDied,
    )
    &&& r.collapse_reasons_frequency.worms_died == spec_batch_reason_count(
        rs,
        CollapseReason::WormsDied,
    )
    &&& r.collapse_reasons_frequency.shrimp_died == spec_batch_reason_count(
        rs,
        CollapseReason::ShrimpDied,
    )
    &&& r.collapse_reasons_frequency.oxygen_depletion == spec_batch_reason_count(
        rs,
        CollapseReason::OxygenDepletion,
    )
    &&& r.collapse_reasons_frequency.ph_imbalance == spec_batch_reason_count(
        rs,
        CollapseReason::PhImbalance,
    )
    &&& r.survivor_analysis.optimal_environment == spec_first_survivor(rs)
    &&& (r.survivor_analysis.optimal_difficulty is None <==> n == 0)
    &&& (r.survivor_analysis.optimal_microbe_count is None <==> n == 0)
    &&& (r.survivor_analysis.average_microbes is None <==> n == 0)
    &&& (r.survivor_analysis.average_water_volume is None <==> n == 0)
    &&& (r.survivor_analysis.average_rocks is None <==> n == 0)
    &&& (n > 0 ==> {
        &&& r.survivor_analysis.optimal_difficulty == Some(
            (spec_survivor_sum(rs, SurvivorField::Difficulty) / n) as u64,
        )
        &&& r.survivor_analysis.optimal_microbe_count == Some(
            (spec_survivor_sum(rs, SurvivorField::MicrobeCount) / n) as usize,
        )
        &&& r.survivor_analysis.average_microbes == Some(
            (spec_survivor_sum(rs, SurvivorField::MicrobeCount) / n) as u64,
        )
        &&& r.survivor_analysis.average_water_volume == Some(
            (spec_survivor_sum(rs, SurvivorField::WaterVolume) / n) as u64,
        )
        &&& r.survivor_analysis.average_rocks == Some(
            (spec_survivor_sum(rs, SurvivorField::Rocks) / n) as u64,
        )
    })
}

/// Counts every reason in one list, in a single pass.
fn reason_counts_of(v: &Vec<CollapseReason>) -> (r: CollapseReasonCounts)
    ensures
        r.plants_died == spec_count_reason(v@, CollapseReason::PlantsDied),
        r.microbes_died == spec_count_reason(v@, CollapseReason::MicrobesDied),
        r.worms_died == spec_count_reason(v@, CollapseReason::WormsDied),
        r.shrimp_died == spec_count_reason(v@, CollapseReason::ShrimpDied),
        r.oxygen_depletion == spec_count_reason(v@, CollapseReason::OxygenDepletion),
        r.ph_imbalance == spec_count_reason(v@, CollapseReason::PhImbalance),
{
    let mut counts = CollapseReasonCounts {
        plants_died: 0,
        microbes_died: 0,
        worms_died: 0,
        shrimp_died: 0,
        oxygen_depletion: 0,
        ph_imbalance: 0,
    };
    let mut j: usize = 0;
    while j < v.len()
        invariant
            j <= v.len(),
            counts.plants_died == spec_count_reason(v@.take(j as int), CollapseReason::PlantsDied),
            counts.microbes_died == spec_count_reason(
                v@.take(j as int),
                CollapseReason::MicrobesDied,
            ),
            counts.worms_died == spec_count_reason(v@.take(j as int), CollapseReason::WormsDied),
            counts.shrimp_died == spec_count_reason(v@.take(j as int), CollapseReason::ShrimpDied),
            counts.oxygen_depletion == spec_count_reason(
                v@.take(j as int),
                CollapseReason::OxygenDepletion,
            ),
            counts.ph_imbalance == spec_count_reason(
                v@.take(j as int),
                CollapseReason::PhImbalance,
            ),
            counts.plants_died <= j,
            counts.microbes_died <= j,
            counts.worms_died <= j,
            counts.shrimp_died <= j,
            counts.oxygen_depletion <= j,
            counts.ph_imbalance <= j,
        decreases v.len() - j,
    {
        proof {
            assert(v@.take(j as int + 1).drop_last() =~= v@.take(j as int));
        }
        match v[j] {
            CollapseReason::PlantsDied => {
                counts.plants_died = counts.plants_died + 1;
            },
            CollapseReason::MicrobesDied => {
                counts.microbes_died = counts.microbes_died + 1;
            },
            CollapseReason::WormsDied => {
                counts.worms_died = counts.worms_died + 1;
            },
            CollapseReason::ShrimpDied => {
                counts.shrimp_died = counts.shrimp_died + 1;
            },
            CollapseReason::OxygenDepletion => {
                counts.oxygen_depletion = counts.oxygen_depletion + 1;
            },
            CollapseReason::PhImbalance => {
                counts.ph_imbalance = counts.ph_imbalance + 1;
            },
            _ => {},
        }
        j = j + 1;
    }
    proof {
        assert(v@.take(v@.len() as int) =~= v@);
    }
    counts
}

/// Post-hoc averaging restricted to the runs that reached the day cap, to
/// surface correlates of success.
fn analyze_survivors(results: &Vec<SimulationResult>) -> (r: SurvivorAnalysis)
    ensures
        ({
            let rs = results@;
            let n = spec_survivor_count(rs) as int;
            &&& (r.optimal_difficulty is None <==> n == 0)
            &&& (r.optimal_microbe_count is None <==> n == 0)
            &&& (r.average_microbes is None <==> n == 0)
            &&& (r.average_water_volume is None <==> n == 0)
            &&& (r.average_rocks is None <==> n == 0)
            &&& n > 0 ==> {
                &&& r.optimal_difficulty == Some(
                    (spec_survivor_sum(rs, SurvivorField::Difficulty) / n) as u64,
                )
                &&& r.optimal_microbe_count == Some(
                    (spec_survivor_sum(rs, SurvivorField::MicrobeCount) / n) as usize,
                )
                &&& r.average_microbes == Some(
                    (spec_survivor_sum(rs, SurvivorField::MicrobeCount) / n) as u64,
                )
                &&& r.average_water_volume == Some(
                    (spec_survivor_sum(rs, SurvivorField::WaterVolume) / n) as u64,
                )
                &&& r.average_rocks == Some(
                    (spec_survivor_sum(rs, SurvivorField::Rocks) / n) as u64,
                )
            }
            &&& r.optimal_environment == spec_first_survivor(rs)
        }),
{
    let mut survivors: usize = 0;
    let mut difficulty_sum: u64 = 0;
    let mut microbe_sum: u64 = 0;
    let mut water_sum: u64 = 0;
    let mut rocks_sum: u64 = 0;
    let mut first: Option<ConfigSnapshot> = None;
    let mut i: usize = 0;
    while i < results.len()
        invariant
            i <= results.len(),
            survivors == spec_survivor_count(results@.take(i as int)),
            survivors <= i,
            difficulty_sum == spec_survivor_sum(results@.take(i as int), SurvivorField::Difficulty),
            microbe_sum == spec_survivor_sum(results@.take(i as int), SurvivorField::MicrobeCount),
            water_sum == spec_survivor_sum(results@.take(i as int), SurvivorField::WaterVolume),
            rocks_sum == spec_survivor_sum(results@.take(i as int), SurvivorField::Rocks),
            first == spec_first_survivor(results@.take(i as int)),
        decreases results.len() - i,
    {
        proof {
            assert(results@.take(i as int + 1).drop_last() =~= results@.take(i as int));
        }
        let result = &results[i];
        if result.survived {
            survivors = survivors + 1;
            difficulty_sum = add_cap(difficulty_sum, result.config_snapshot.difficulty, u64::MAX);
            microbe_sum = add_cap(
                microbe_sum,
                result.config_snapshot.microbe_count as u64,
                u64::MAX,
            );
            water_sum = add_cap(water_sum, result.config_snapshot.water_volume, u64::MAX);
            rocks_sum = add_cap(rocks_sum, result.config_snapshot.rocks as u64, u64::MAX);
            if first.is_none() {
                first = Some(result.config_snapshot);
            }
        }
        i = i + 1;
    }
    proof {
        assert(results@.take(results@.len() as int) =~= results@);
    }
    if survivors == 0 {
        SurvivorAnalysis {
            optimal_difficulty: None,
            optimal_microbe_count: None,
            optimal_environment: first,
            average_microbes: None,
            average_water_volume: None,
            average_rocks: None,
        }
    } else {
        SurvivorAnalysis {
            optimal_difficulty: Some(difficulty_sum / (survivors as u64)),
            optimal_microbe_count: Some((microbe_sum / (survivors as u64)) as usize),
            optimal_environment: first,
            average_microbes: Some(microbe_sum / (survivors as u64)),
            average_water_volume: Some(water_sum / (survivors as u64)),
            average_rocks: Some(rocks_sum / (survivors as u64)),
        }
    }
}

/// Aggregates a batch of recorded runs: survival rate, day histogram,
/// collapse-reason frequencies, survivor-trait averages.
pub fn analyze_results(results: Vec<SimulationResult>, day_cap: usize) -> (r: MonteCarloResults)
    requires
        results@.len() <= MAX_RUNS,
        day_cap <= MAX_DAY_CAP,
        forall|i: int|
            0 <= i < results@.len() ==> #[trigger] results@[i].days_survived <= day_cap,
    ensures
        r.results == results,
        spec_results_aggregated(r, day_cap as int),
{
    let mut histogram: Vec<usize> = Vec::new();
    let mut k: usize = 0;
    while k < day_cap + 1
        invariant
            k <= day_cap + 1,
            day_cap <= MAX_DAY_CAP,
            histogram@.len() == k,
            forall|d: int| 0 <= d < k ==> #[trigger] histogram@[d] == 0,
        decreases day_cap + 1 - k,
    {
        histogram.push(0);
        k = k + 1;
    }
    let mut survivors: usize = 0;
    let mut days_sum: u64 = 0;
    let mut counts = CollapseReasonCounts {
        plants_died: 0,
        microbes_died: 0,
        worms_died: 0,
        shrimp_died: 0,
        oxygen_depletion: 0,
        ph_imbalance: 0,
    };
    let mut i: usize = 0;
    while i < results.len()
        invariant
            i <= results@.len(),
            results@.len() <= MAX_RUNS,
            day_cap <= MAX_DAY_CAP,
            forall|j: int|
                0 <= j < results@.len() ==> #[trigger] results@[j].days_survived <= day_cap,
            survivors == spec_survivor_count(results@.take(i as int)),
            survivors <= i,
            days_sum == spec_days_sum(results@.take(i as int)),
            days_sum <= i * (MAX_DAY_CAP as int),
            histogram@.len() == day_cap + 1,
            forall|d: int|
                0 <= d <= day_cap ==> #[trigger] histogram@[d] == spec_days_count(
                    results@.take(i as int),
                    d,
                ),
            forall|d: int| 0 <= d <= day_cap ==> #[trigger] histogram@[d] <= i,
            counts.plants_died == spec_batch_reason_count(
                results@.take(i as int),
                CollapseReason::PlantsDied,
            ),
            counts.microbes_died == spec_batch_reason_count(
                results@.take(i as int),
                CollapseReason::MicrobesDied,
            ),
            counts.worms_died == spec_batch_reason_count(
                results@.take(i as int),
                CollapseReason::WormsDied,
            ),
            counts.shrimp_died == spec_batch_reason_count(
                results@.take(i as int),
                CollapseReason::ShrimpDied,
            ),
            counts.oxygen_depletion == spec_batch_reason_count(
                results@.take(i as int),
                CollapseReason::OxygenDepletion,
            ),
            counts.ph_imbalance == spec_batch_reason_count(
                results@.take(i as int),
                CollapseReason::PhImbalance,
            ),
        decreases results@.len() - i,
    {
        proof {
            assert(results@.take(i as int + 1).drop_last() =~= results@.take(i as int));
        }
        let result = &results[i];
        if result.survived {
            survivors = survivors + 1;
        }
        days_sum = days_sum + result.days_survived as u64;
        let d = result.days_survived;
        let prev = histogram[d];
        histogram[d] = prev + 1;
        if !result.survived {
            let rc = reason_counts_of(&result.collapse_reasons);
            counts.plants_died = add_cap(counts.plants_died, rc.plants_died, u64::MAX);
            counts.microbes_died = add_cap(counts.microbes_died, rc.microbes_died, u64::MAX);
            counts.worms_died = add_cap(counts.worms_died, rc.worms_died, u64::MAX);
            counts.shrimp_died = add_cap(counts.shrimp_died, rc.shrimp_died, u64::MAX);
            counts.oxygen_depletion = add_cap(
                counts.oxygen_depletion,
                rc.oxygen_depletion,
                u64::MAX,
            );
            counts.ph_imbalance = add_cap(counts.ph_imbalance, rc.ph_imbalance, u64::MAX);
        }
        i = i + 1;
    }
    proof {
        assert(results@.take(results@.len() as int) =~= results@);
    }
    let survivor_analysis = analyze_survivors(&results);
    let total = results.len();
    let survival_rate: u64 = if total == 0 {
        0
    } else {
        (survivors as u64) * SCALE / (total as u64)
    };
    let average_days_survived: u64 = if total == 0 {
        0
    } else {
        days_sum * SCALE / (total as u64)
    };
    MonteCarloResults {
        results,
        survival_rate,
        average_days_survived,
        survival_histogram: histogram,
        collapse_reasons_frequency: counts,
        survivor_analysis,
    }
}

/// The generator word left after one run has consumed its configuration
/// draws and its recorded seed.
pub open spec fn spec_run_rng_after(mc: MonteCarloConfig, s0: u64) -> u64 {
    spec_step(spec_config_draw(mc, s0).rng_after)
}

/// The generator word in front of run `i` of a batch.
pub open spec fn spec_batch_rng_before(mc: MonteCarloConfig, seed: u64, i: nat) -> u64
    decreases i,
{
    if i == 0 {
        seed ^ SEED_GAMMA
    } else {
        spec_run_rng_after(mc, spec_batch_rng_before(mc, seed, (i - 1) as nat))
    }
}

/// Runs a whole batch from one explicit seed: every run's configuration,
/// seed and outcome follow from the seed and the run index, so the batch
/// can be reproduced.
pub fn run_monte_carlo_with_seed(mc_config: MonteCarloConfig, seed: u64) -> (r: MonteCarloResults)
    requires
        mc_config.difficulty_min <= mc_config.difficulty_max,
        mc_config.difficulty_max - mc_config.difficulty_min < u64::MAX,
    ensures
        r.results@.len() == if mc_config.num_runs <= MAX_RUNS {
            mc_config.num_runs as int
        } else {
            MAX_RUNS as int
        },
        r.survival_histogram@.len() == 1 + if mc_config.day_cap <= MAX_DAY_CAP {
            mc_config.day_cap as int
        } else {
            MAX_DAY_CAP as int
        },
        forall|i: int|
            0 <= i < r.results@.len() ==> {
                &&& (#[trigger] r.results@[i]).run_id == i
                &&& r.results@[i].days_survived as int <= if mc_config.day_cap <= MAX_DAY_CAP {
                    mc_config.day_cap as int
                } else {
                    MAX_DAY_CAP as int
                }
                &&& (r.results@[i].survived ==> r.results@[i].days_survived as int
                    == if mc_config.day_cap <= MAX_DAY_CAP {
                    mc_config.day_cap as int
                } else {
                    MAX_DAY_CAP as int
                })
                &&& (r.results@[i].survived ==> r.results@[i].collapse_reasons@.len() == 0)
            },
        forall|i: int|
            0 <= i < r.results@.len() ==> {
                let d = spec_config_draw(
                    mc_config,
                    spec_batch_rng_before(mc_config, seed, i as nat),
                );
                let outcome = spec_run_steps(
                    spec_seeded_model_from(d.biomass, d.water, d.rocks as u64, spec_step(d.rng_after)),
                    spec_drawn_parameters(d.difficulty_level),
                    0,
                    0,
                    (if mc_config.day_cap <= MAX_DAY_CAP {
                        mc_config.day_cap as int
                    } else {
                        MAX_DAY_CAP as int
                    }) as nat,
                );
                &&& (#[trigger] r.results@[i]).days_survived == outcome.1
                &&& r.results@[i].survived == outcome.2
                &&& r.results@[i].final_state == spec_final_snapshot(outcome.0)
                &&& r.results@[i].collapse_reasons@ == if spec_is_collapsed(outcome.0) {
                    spec_collapse_reasons(outcome.0)
                } else {
                    Seq::<CollapseReason>::empty()
                }
            },
        spec_results_aggregated(
            r,
            if mc_config.day_cap <= MAX_DAY_CAP {
                mc_config.day_cap as int
            } else {
                MAX_DAY_CAP as int
            },
        ),
{
    let num_runs = if mc_config.num_runs <= MAX_RUNS {
        mc_config.num_runs
    } else {
        MAX_RUNS
    };
    let day_cap = if mc_config.day_cap <= MAX_DAY_CAP {
        mc_config.day_cap
    } else {
        MAX_DAY_CAP
    };
    let mut rng = TrialRng::new(seed);
    let mut results: Vec<SimulationResult> = Vec::new();
    let mut i: usize = 0;
    while i < num_runs
        invariant
            i <= num_runs,
            num_runs <= MAX_RUNS,
            day_cap <= MAX_DAY_CAP,
            mc_config.difficulty_min <= mc_config.difficulty_max,
            mc_config.difficulty_max - mc_config.difficulty_min < u64::MAX,
            results@.len() == i,
            day_cap as int == if mc_config.day_cap <= MAX_DAY_CAP {
                mc_config.day_cap as int
            } else {
                MAX_DAY_CAP as int
            },
            rng@ == spec_batch_rng_before(mc_config, seed, i as nat),
            forall|j: int|
                0 <= j < i ==> {
                    &&& (#[trigger] results@[j]).run_id == j
                    &&& results@[j].days_survived <= day_cap
                    &&& (results@[j].survived ==> results@[j].days_survived == day_cap)
                    &&& (results@[j].survived ==> results@[j].collapse_reasons@.len() == 0)
                },
            forall|j: int|
                0 <= j < i ==> {
                    let d = spec_config_draw(
                        mc_config,
                        spec_batch_rng_before(mc_config, seed, j as nat),
                    );
                    let outcome = spec_run_steps(
                        spec_seeded_model_from(
                            d.biomass,
                            d.water,
                            d.rocks as u64,
                            spec_step(d.rng_after),
                        ),
                        spec_drawn_parameters(d.difficulty_level),
                        0,
                        0,
                        day_cap as nat,
                    );
                    &&& (#[trigger] results@[j]).days_survived == outcome.1
                    &&& results@[j].survived == outcome.2
                    &&& results@[j].final_state == spec_final_snapshot(outcome.0)
                    &&& results@[j].collapse_reasons@ == if spec_is_collapsed(outcome.0) {
                        spec_collapse_reasons(outcome.0)
                    } else {
                        Seq::<CollapseReason>::empty()
                    }
                },
        decreases num_runs - i,
    {
        let result = run_single_simulation(i, &mc_config, day_cap, &mut rng);
        results.push(result);
        i = i + 1;
    }
    analyze_results(results, day_cap)
}

/// Relies on rand::random: an unpredictable word from the thread-local
/// generator; nothing is promised of its value.
#[verifier::external_body]
fn entropy_seed() -> u64 {
    rand::random::<u64>()
}

/// Runs a batch seeded from entropy, as the interactive tooling does.
/// The clamping, per-run bounds and aggregate guarantees hold whatever
/// seed came back.
pub fn run_monte_carlo_v2(mc_config: MonteCarloConfig) -> (r: MonteCarloResults)
    requires
        mc_config.difficulty_min <= mc_config.difficulty_max,
        mc_config.difficulty_max - mc_config.difficulty_min < u64::MAX,
    ensures
        r.results@.len() == if mc_config.num_runs <= MAX_RUNS {
            mc_config.num_runs as int
        } else {
            MAX_RUNS as int
        },
        forall|i: int|
            0 <= i < r.results@.len() ==> {
                &&& (#[trigger] r.results@[i]).run_id == i
                &&& r.results@[i].days_survived as int <= if mc_config.day_cap <= MAX_DAY_CAP {
                    mc_config.day_cap as int
                } else {
                    MAX_DAY_CAP as int
                }
                &&& (r.results@[i].survived ==> r.results@[i].days_survived as int
                    == if mc_config.day_cap <= MAX_DAY_CAP {
                    mc_config.day_cap as int
                } else {
                    MAX_DAY_CAP as int
                })
                &&& (r.results@[i].survived ==> r.results@[i].collapse_reasons@.len() == 0)
            },
        spec_results_aggregated(
            r,
            if mc_config.day_cap <= MAX_DAY_CAP {
                mc_config.day_cap as int
            } else {
                MAX_DAY_CAP as int
            },
        ),
{
    let seed = entropy_seed();
    run_monte_carlo_with_seed(mc_config, seed)
}

/// The summary of one legacy batch.
#[derive(Debug, PartialEq)]
pub struct LegacyMonteCarloSummary {
    pub num_runs: usize,
    pub day_cap: usize,
    pub survived: usize,
    pub total_days: u64,
    pub histogram: Vec<usize>,
    pub survivors: Vec<GameConfig>,
    pub porous_survivors: usize,
    pub non_porous_survivors: usize,
}

/// The legacy configuration drawn in front of one run, with the generator
/// word that remains: soil type from one word's parity, then four ranged
/// draws.
pub open spec fn spec_legacy_config(s0: u64) -> (GameConfig, u64) {
    let w1 = spec_step(s0);
    let w2 = spec_step(w1);
    let w3 = spec_step(w2);
    let w4 = spec_step(w3);
    let w5 = spec_step(w4);
    (
        GameConfig {
            soil_type: if w1 % 2 == 0 {
                LegacySoilType::Porous
            } else {
                LegacySoilType::NonPorous
            },
            num_plants: spec_range(w2, 2u64, 5u64) as u32,
            soil_kg: spec_range(w3, 10u64, 30u64) as u32,
            window_proximity: spec_range(w4, 1u64, 5u64) as u32,
            water_liters: spec_range(w5, 1u64, 10u64) as u32,
        },
        w5,
    )
}

/// One legacy run: whole days of sixteen intervals each, until the plants
/// are gone, the air oxygen falls below five percent, or the day cap is
/// reached. Returns the final state, the remaining generator word, the
/// days lasted and whether the run survived.
pub open spec fn spec_legacy_run(
    c: GameConfig,
    s: EcosystemState,
    rng: u64,
    day: nat,
    day_cap: nat,
) -> (EcosystemState, u64, nat, bool)
    decreases day_cap + 1 - day,
{
    let sr = crate::legacy::spec_legacy_day(c, s, rng, 0);
    if sr.0.plant_size == 0 || sr.0.oxygen < 5000000 {
        (sr.0, sr.1, day, false)
    } else if day >= day_cap {
        (sr.0, sr.1, day, true)
    } else {
        spec_legacy_run(c, sr.0, sr.1, day + 1, day_cap)
    }
}

/// One whole legacy run keyed by the generator word in front of it.
pub open spec fn spec_legacy_outcome(s0: u64, day_cap: nat) -> (EcosystemState, u64, nat, bool) {
    let cfg = spec_legacy_config(s0);
    spec_legacy_run(cfg.0, crate::legacy::spec_initial_legacy_state(), cfg.1, 1, day_cap)
}

/// The generator word in front of legacy run `i` of a batch.
pub open spec fn spec_legacy_rng_before(seed: u64, day_cap: nat, i: nat) -> u64
    decreases i,
{
    if i == 0 {
        seed ^ SEED_GAMMA
    } else {
        spec_legacy_outcome(spec_legacy_rng_before(seed, day_cap, (i - 1) as nat), day_cap).1
    }
}

/// The outcome of legacy run `i` of a batch.
pub open spec fn spec_legacy_outcome_at(seed: u64, day_cap: nat, i: nat) -> (
    EcosystemState,
    u64,
    nat,
    bool,
) {
    spec_legacy_outcome(spec_legacy_rng_before(seed, day_cap, i), day_cap)
}

/// The configuration drawn for legacy run `i` of a batch.
pub open spec fn spec_legacy_config_at(seed: u64, day_cap: nat, i: nat) -> GameConfig {
    spec_legacy_config(spec_legacy_rng_before(seed, day_cap, i)).0
}

/// How many of the first `n` legacy runs survive.
pub open spec fn spec_legacy_survived_count(seed: u64, day_cap: nat, n: nat) -> nat
    decreases n,
{
    if n == 0 {
        0
    } else {
        spec_legacy_survived_count(seed, day_cap, (n - 1) as nat) + if spec_legacy_outcome_at(
            seed,
            day_cap,
            (n - 1) as nat,
        ).3 {
            1nat
        } else {
            0nat
        }
    }
}

/// Days lasted, summed over the first `n` legacy runs.
pub open spec fn spec_legacy_days_sum(seed: u64, day_cap: nat, n: nat) -> nat
    decreases n,
{
    if n == 0 {
        0
    } else {
        spec_legacy_days_sum(seed, day_cap, (n - 1) as nat) + spec_legacy_outcome_at(
            seed,
            day_cap,
            (n - 1) as nat,
        ).2
    }
}

/// How many of the first `n` legacy runs lasted exactly `d` days.
pub open spec fn spec_legacy_days_count(seed: u64, day_cap: nat, n: nat, d: int) -> nat
    decreases n,
{
    if n == 0 {
        0
    } else {
        spec_legacy_days_count(seed, day_cap, (n - 1) as nat, d) + if spec_legacy_outcome_at(
            seed,
            day_cap,
            (n - 1) as nat,
        ).2 == d {
            1nat
        } else {
            0nat
        }
    }
}

/// The configurations of the surviving legacy runs, in run order.
pub open spec fn spec_legacy_survivors(seed: u64, day_cap: nat, n: nat) -> Seq<GameConfig>
    decreases n,
{
    if n == 0 {
        Seq::empty()
    } else {
        let prev = spec_legacy_survivors(seed, day_cap, (n - 1) as nat);
        if spec_legacy_outcome_at(seed, day_cap, (n - 1) as nat).3 {
            prev.push(spec_legacy_config_at(seed, day_cap, (n - 1) as nat))
        } else {
            prev
        }
    }
}

/// Surviving legacy runs on porous soil, among the first `n`.
pub open spec fn spec_legacy_porous_count(seed: u64, day_cap: nat, n: nat) -> nat
    decreases n,
{
    if n == 0 {
        0
    } else {
        spec_legacy_porous_count(seed, day_cap, (n - 1) as nat) + if spec_legacy_outcome_at(
            seed,
            day_cap,
            (n - 1) as nat,
        ).3 && spec_legacy_config_at(seed, day_cap, (n - 1) as nat).soil_type
            == LegacySoilType::Porous {
            1nat
        } else {
            0nat
        }
    }
}

/// The legacy summary is exactly the reduction of the runs the seed
/// determines: survivor count, total days, day histogram, survivor list
/// and soil split, each a function of the seed and the clamped counts.
pub open spec fn spec_legacy_summary_pinned(
    s: LegacyMonteCarloSummary,
    num_runs: int,
    day_cap: int,
    seed: u64,
) -> bool {
    let runs = if num_runs <= MAX_RUNS {
        num_runs
    } else {
        MAX_RUNS as int
    };
    let cap = if day_cap <= MAX_DAY_CAP {
        day_cap
    } else {
        MAX_DAY_CAP as int
    };
    &&& s.num_runs == runs
    &&& s.day_cap == cap
    &&& s.survived == spec_legacy_survived_count(seed, cap as nat, runs as nat)
    &&& s.total_days == spec_legacy_days_sum(seed, cap as nat, runs as nat)
    &&& s.histogram@.len() == cap + 2
    &&& (forall|d: int|
        0 <= d < s.histogram@.len() ==> #[trigger] s.histogram@[d] == spec_legacy_days_count(
            seed,
            cap as nat,
            runs as nat,
            d,
        ))
    &&& s.survivors@ == spec_legacy_survivors(seed, cap as nat, runs as nat)
    &&& s.porous_survivors == spec_legacy_porous_count(seed, cap as nat, runs as nat)
    &&& s.porous_survivors + s.non_porous_survivors == s.survived
}

/// Runs the legacy batch: randomized legacy setups, ten day intervals and
/// six night intervals per day, to collapse or the day cap. Every run's
/// outcome is a function of the seed and the run index.
#[verifier::rlimit(100)]
pub fn run_legacy_montecarlo(num_runs: usize, day_cap: usize, seed: u64) -> (r:
    LegacyMonteCarloSummary)
    ensures
        spec_legacy_summary_pinned(r, num_runs as int, day_cap as int, seed),
        r.survived == r.survivors@.len(),
        r.survived <= r.num_runs,
        r.total_days <= r.num_runs * (r.day_cap + 1),
        forall|i: int|
            0 <= i < r.survivors@.len() ==> {
                &&& 2 <= (#[trigger] r.survivors@[i]).num_plants <= 5
                &&& 10 <= r.survivors@[i].soil_kg <= 30
                &&& 1 <= r.survivors@[i].window_proximity <= 5
                &&& 1 <= r.survivors@[i].water_liters <= 10
            },
{
    let num_runs = if num_runs <= MAX_RUNS {
        num_runs
    } else {
        MAX_RUNS
    };
    let day_cap = if day_cap <= MAX_DAY_CAP {
        day_cap
    } else {
        MAX_DAY_CAP
    };
    let mut rng = TrialRng::new(seed);
    let mut survived: usize = 0;
    let mut total_days: u64 = 0;
    let mut survivors: Vec<GameConfig> = Vec::new();
    let mut porous_survivors: usize = 0;
    let mut non_porous_survivors: usize = 0;
    let mut histogram: Vec<usize> = Vec::new();
    let mut k: usize = 0;
    while k < day_cap + 2
        invariant
            k <= day_cap + 2,
            day_cap <= MAX_DAY_CAP,
            histogram@.len() == k,
            forall|d: int| 0 <= d < k ==> #[trigger] histogram@[d] == 0,
        decreases day_cap + 2 - k,
    {
        histogram.push(0);
        k = k + 1;
    }
    let mut i: usize = 0;
    while i < num_runs
        invariant
            i <= num_runs,
            num_runs <= MAX_RUNS,
            day_cap <= MAX_DAY_CAP,
            rng@ == spec_legacy_rng_before(seed, day_cap as nat, i as nat),
            survived == spec_legacy_survived_count(seed, day_cap as nat, i as nat),
            survived == survivors@.len(),
            survived <= i,
            porous_survivors == spec_legacy_porous_count(seed, day_cap as nat, i as nat),
            porous_survivors + non_porous_survivors == survived,
            survivors@ == spec_legacy_survivors(seed, day_cap as nat, i as nat),
            total_days == spec_legacy_days_sum(seed, day_cap as nat, i as nat),
            total_days <= i * (day_cap + 1),
            histogram@.len() == day_cap + 2,
            forall|d: int|
                0 <= d < day_cap + 2 ==> #[trigger] histogram@[d] == spec_legacy_days_count(
                    seed,
                    day_cap as nat,
                    i as nat,
                    d,
                ),
            forall|d: int| 0 <= d < day_cap + 2 ==> #[trigger] histogram@[d] <= i,
            forall|j: int|
                0 <= j < survivors@.len() ==> {
                    &&& 2 <= (#[trigger] survivors@[j]).num_plants <= 5
                    &&& 10 <= survivors@[j].soil_kg <= 30
                    &&& 1 <= survivors@[j].window_proximity <= 5
                    &&& 1 <= survivors@[j].water_liters <= 10
                },
        decreases num_runs - i,
    {
        let ghost run_start = rng@;
        let soil_word = rng.next_u64();
        let config = GameConfig {
            soil_type: if soil_word % 2 == 0 {
                LegacySoilType::Porous
            } else {
                LegacySoilType::NonPorous
            },
            num_plants: rng.gen_range_u64(2, 5) as u32,
            soil_kg: rng.gen_range_u64(10, 30) as u32,
            window_proximity: rng.gen_range_u64(1, 5) as u32,
            water_liters: rng.gen_range_u64(1, 10) as u32,
        };
        proof {
            assert(config == spec_legacy_config(run_start).0);
            assert(rng@ == spec_legacy_config(run_start).1);
        }
        let mut state = EcosystemState::new();
        let ghost config_rng = rng@;
        let ghost initial_state = state;
        let mut day: usize = 1;
        let mut running = true;
        let mut run_survived = false;
        while running
            invariant
                1 <= day <= day_cap + 1,
                day_cap <= MAX_DAY_CAP,
                config.window_proximity <= 5,
                running ==> day <= day_cap || day == 1,
                running ==> !run_survived,
                running ==> spec_legacy_run(
                    config,
                    initial_state,
                    config_rng,
                    1,
                    day_cap as nat,
                ) == spec_legacy_run(config, state, rng@, day as nat, day_cap as nat),
                !running ==> (state, rng@, day as nat, run_survived) == spec_legacy_run(
                    config,
                    initial_state,
                    config_rng,
                    1,
                    day_cap as nat,
                ),
            decreases day_cap + 1 - day + (if running {
                1int
            } else {
                0int
            }),
        {
            run_legacy_day(&config, &mut state, &mut rng);
            if state.plant_size == 0 || state.oxygen < 5 * SCALE {
                running = false;
            } else if day >= day_cap {
                run_survived = true;
                running = false;
            } else {
                day = day + 1;
            }
        }
        proof {
            assert((state, rng@, day as nat, run_survived) == spec_legacy_outcome(
                run_start,
                day_cap as nat,
            ));
            assert(spec_legacy_rng_before(seed, day_cap as nat, (i + 1) as nat) == rng@);
        }
        if run_survived {
            survived = survived + 1;
            survivors.push(config);
            match config.soil_type {
                LegacySoilType::Porous => {
                    porous_survivors = porous_survivors + 1;
                },
                LegacySoilType::NonPorous => {
                    non_porous_survivors = non_porous_survivors + 1;
                },
            }
        }
        proof {
            assert(total_days <= 100000int * 1001int) by (nonlinear_arith)
                requires
                    total_days <= (i as int) * (day_cap as int + 1),
                    i <= 100000,
                    day_cap <= 1000,
                    0 <= total_days,
            ;
        }
        total_days = total_days + day as u64;
        proof {
            assert((i as int) * (day_cap as int + 1) + (day_cap as int + 1) == (i as int + 1) * (
            day_cap as int + 1)) by (nonlinear_arith);
        }
        let prev = histogram[day];
        histogram[day] = prev + 1;
        i = i + 1;
    }
    LegacyMonteCarloSummary {
        num_runs,
        day_cap,
        survived,
        total_days,
        histogram,
        survivors,
        porous_survivors,
        non_porous_survivors,
    }
}

/// How often `w` occurs among the recorded values.
pub open spec fn spec_count_value(s: Seq<u32>, w: u32) -> nat
    decreases s.len(),
{
    if s.len() == 0 {
        0
    } else {
        spec_count_value(s.drop_last(), w) + if s.last() == w {
            1nat
        } else {
            0nat
        }
    }
}

fn count_value(values: &Vec<u32>, w: u32) -> (r: usize)
    ensures
        r == spec_count_value(values@, w),
{
    let mut count: usize = 0;
    let mut j: usize = 0;
    while j < values.len()
        invariant
            j <= values.len(),
            count == spec_count_value(values@.take(j as int), w),
            count <= j,
        decreases values.len() - j,
    {
        proof {
            assert(values@.take(j as int + 1).drop_last() =~= values@.take(j as int));
        }
        if values[j] == w {
            count = count + 1;
        }
        j = j + 1;
    }
    proof {
        assert(values@.take(values@.len() as int) =~= values@);
    }
    count
}

/// The most common value in `lo..=hi` among the recorded values, with its
/// count: `None` iff no value of the range occurs. Ties go to the smallest
/// value.
pub fn most_common(values: &Vec<u32>, lo: u32, hi: u32) -> (r: Option<(u32, usize)>)
    requires
        lo <= hi,
    ensures
        r is None <==> (forall|w: u32| lo <= w <= hi ==> spec_count_value(values@, w) == 0),
        r matches Some(p) ==> {
            &&& lo <= p.0 <= hi
            &&& p.1 == spec_count_value(values@, p.0)
            &&& p.1 > 0
            &&& forall|w: u32| lo <= w <= hi ==> spec_count_value(values@, w) <= p.1
        },
{
    let mut best: Option<(u32, usize)> = None;
    let mut w: u64 = lo as u64;
    while w <= hi as u64
        invariant
            lo as u64 <= w <= hi as u64 + 1,
            best is None <==> (forall|v: u32|
                lo <= v && (v as u64) < w ==> spec_count_value(values@, v) == 0),
            best matches Some(p) ==> {
                &&& lo <= p.0
                &&& (p.0 as u64) < w
                &&& p.1 == spec_count_value(values@, p.0)
                &&& p.1 > 0
                &&& forall|v: u32|
                    lo <= v && (v as u64) < w ==> spec_count_value(values@, v) <= p.1
            },
        decreases hi as u64 + 1 - w,
    {
        let candidate = w as u32;
        let count = count_value(values, candidate);
        if count > 0 {
            match best {
                Some(p) => {
                    if count > p.1 {
                        best = Some((candidate, count));
                    }
                },
                None => {
                    best = Some((candidate, count));
                },
            }
        }
        w = w + 1;
    }
    best
}

/// Which simulation generation a batch should use.
#[derive(Debug, Clone, Copy, PartialEq, Eq, Structural)]
pub enum MonteCarloModel {
    V1,
    V2,
}

/// What a batch produced, by model.
#[derive(Debug, PartialEq)]
pub enum MonteCarloReport {
    V1(LegacyMonteCarloSummary),
    V2(MonteCarloResults),
}

/// Runs a batch of the chosen model, seeded from entropy. A request of
/// more than 100,000 runs is silently clamped to 100,000, and a day cap
/// over 1,000 to 1,000.
pub fn run_montecarlo_simulations(num_runs: usize, day_cap: usize, model: MonteCarloModel) -> (r:
    MonteCarloReport)
    ensures
        model == MonteCarloModel::V1 <==> r is V1,
        r matches MonteCarloReport::V1(s) ==> {
            &&& s.num_runs == if num_runs <= MAX_RUNS {
                num_runs as int
            } else {
                MAX_RUNS as int
            }
            &&& s.day_cap == if day_cap <= MAX_DAY_CAP {
                day_cap as int
            } else {
                MAX_DAY_CAP as int
            }
            &&& s.survived <= s.num_runs
            &&& s.survived == s.survivors@.len()
            &&& exists|entropy: u64|
                #[trigger] spec_legacy_summary_pinned(
                    s,
                    num_runs as int,
                    day_cap as int,
                    entropy,
                )
        },
        r matches MonteCarloReport::V2(m) ==> {
            &&& m.results@.len() == if num_runs <= MAX_RUNS {
                num_runs as int
            } else {
                MAX_RUNS as int
            }
            &&& spec_results_aggregated(
                m,
                if day_cap <= MAX_DAY_CAP {
                    day_cap as int
                } else {
                    MAX_DAY_CAP as int
                },
            )
        },
{
    match model {
        MonteCarloModel::V1 => {
            let seed = entropy_seed();
            let summary = run_legacy_montecarlo(num_runs, day_cap, seed);
            proof {
                assert(spec_legacy_summary_pinned(summary, num_runs as int, day_cap as int, seed));
            }
            MonteCarloReport::V1(summary)
        },
        MonteCarloModel::V2 => {
            let mut mc_config = MonteCarloConfig::default();
            mc_config.num_runs = num_runs;
            mc_config.day_cap = day_cap;
            MonteCarloReport::V2(run_monte_carlo_v2(mc_config))
        },
    }
}

} // verus!
