//! The update orchestrator: one tick applies organism updates,
//! environmental coupling, penalties and the domain clamp, in that order;
//! a trial runs ticks until collapse or a day cap.
//!
//! The tick cadence is one day tick and one night tick per day; the older
//! sub-tick cadence survives only in the legacy batch runner.

use vstd::prelude::*;
use crate::fixed::{
    SCALE, fx, fx_mul, add_cap, add_sub_clamp, sub_floor, count_units, spec_count_units,
    spec_add_cap, spec_clamp, spec_sub_floor,
};
use crate::types::{Ph, Oxygen, GAS_MAX, PH_MAX};
use crate::config::V2Config;
use crate::config::parameters::SimulationParameters;
use crate::errors::{CollapseReason, EcosystemResult};
use crate::organisms::{
    apply_environmental_penalties, spec_apply_penalties, spec_update_all_organisms,
    update_all_organisms,
};
use crate::state::{
    spec_air_remainder, spec_collapse_reasons, spec_collapse_risk, spec_health_warnings,
    spec_is_collapsed, spec_is_healthy, EcosystemStateV2, HealthWarning, StateModel,
};

verus! {

/// Soil pH drifts down with microbial acidification and up with rock and
/// water buffering.
pub open spec fn spec_update_ph(m: StateModel, p: SimulationParameters, dt: u64) -> StateModel {
    let acidification = fx(p.environmental.ph_acidification_rate as int, m.microbe_pop as int);
    let rock_buffering = fx(p.environmental.rock_buffer_rate as int, spec_count_units(m.rocks as int));
    let water_buffering = fx(p.environmental.water_buffer_rate as int, m.water_liters as int);
    let rise = fx(spec_add_cap(rock_buffering, water_buffering, u64::MAX as int), dt as int);
    let fall = fx(acidification, dt as int);
    StateModel {
        soil_ph: spec_clamp(m.soil_ph + rise - fall, 0, PH_MAX as int) as u64,
        ..m
    }
}

/// Water oxygen drifts toward air oxygen through slow surface exchange.
pub open spec fn spec_water_oxygen_exchange(m: StateModel, dt: u64) -> StateModel {
    let water = if m.air_o2 >= m.water_o2 {
        let transfer = fx(fx(10000, m.air_o2 - m.water_o2), dt as int);
        spec_add_cap(m.water_o2 as int, transfer, GAS_MAX as int)
    } else {
        let transfer = fx(fx(10000, m.water_o2 - m.air_o2), dt as int);
        spec_sub_floor(m.water_o2 as int, transfer, 0)
    };
    StateModel { water_o2: water as u64, ..m }
}

/// One full tick of the ecosystem.
pub open spec fn spec_tick(m: StateModel, p: SimulationParameters, is_day: bool) -> StateModel {
    let after_organisms = spec_update_all_organisms(m, p, is_day, SCALE);
    let after_ph = spec_update_ph(after_organisms, p, SCALE);
    let after_water = spec_water_oxygen_exchange(after_ph, SCALE);
    let after_penalties = spec_apply_penalties(after_water);
    StateModel {
        air_n2: spec_air_remainder(
            after_penalties.air_o2 as int,
            after_penalties.air_co2 as int,
        ) as u64,
        ..after_penalties
    }
}

fn update_ph(state: &mut EcosystemStateV2, config: &V2Config, dt: u64)
    ensures
        final(state)@ == spec_update_ph(old(state)@, config.parameters, dt),
{
    let acidification = fx_mul(
        config.parameters.environmental.ph_acidification_rate,
        state.microbe_pop.value(),
    );
    let rock_buffering = fx_mul(
        config.parameters.environmental.rock_buffer_rate,
        count_units(state.rocks),
    );
    let water_buffering = fx_mul(
        config.parameters.environmental.water_buffer_rate,
        state.water_liters.value(),
    );
    let rise = fx_mul(add_cap(rock_buffering, water_buffering, u64::MAX), dt);
    let fall = fx_mul(acidification, dt);
    state.soil_ph = Ph::clamped(add_sub_clamp(state.soil_ph.value(), rise, fall, PH_MAX));
}

fn update_water_oxygen_exchange(state: &mut EcosystemStateV2, dt: u64)
    ensures
        final(state)@ == spec_water_oxygen_exchange(old(state)@, dt),
{
    let air = state.air_o2.percentage();
    let water = state.water_o2.percentage();
    proof {
        use_type_invariant(&state.water_o2);
    }
    let new_water = if air >= water {
        let transfer = fx_mul(fx_mul(10000, air - water), dt);
        add_cap(water, transfer, GAS_MAX)
    } else {
        let transfer = fx_mul(fx_mul(10000, water - air), dt);
        sub_floor(water, transfer, 0)
    };
    state.water_o2 = Oxygen::clamped(new_water);
}

fn update_environmental_parameters(state: &mut EcosystemStateV2, config: &V2Config, dt: u64)
    ensures
        final(state)@ == spec_water_oxygen_exchange(
            spec_update_ph(old(state)@, config.parameters, dt),
            dt,
        ),
{
    update_ph(state, config, dt);
    update_water_oxygen_exchange(state, dt);
}

/// Advances the ecosystem by one tick: organisms, environmental coupling,
/// penalties, then the domain clamp and air normalization.
pub fn update_ecosystem_v2(
    config: &V2Config,
    state: &mut EcosystemStateV2,
    is_day: bool,
) -> (r: EcosystemResult<()>)
    ensures
        r is Ok,
        final(state)@ == spec_tick(old(state)@, config.parameters, is_day),
        final(state).wf(),
{
    let dt = SCALE;
    update_all_organisms(state, &config.parameters, is_day, dt)?;
    update_environmental_parameters(state, config, dt);
    apply_environmental_penalties(state)?;
    state.clamp_values()?;
    state.check_wf();
    Ok(())
}

/// True iff any critical population is at or below the collapse threshold.
pub fn is_ecosystem_collapsed(state: &EcosystemStateV2) -> (r: bool)
    ensures
        r == spec_is_collapsed(state@),
{
    state.is_collapsed()
}

/// The collapse diagnosis of one state snapshot.
#[derive(Debug, PartialEq)]
pub struct EcosystemCollapseAnalysis {
    pub is_collapsed: bool,
    pub collapse_risk: u64,
    pub collapse_reasons: Vec<CollapseReason>,
    pub time_to_collapse_estimate: Option<u64>,
}

/// `None` below one tenth of risk; otherwise a 0-30 day estimate that
/// shrinks as risk grows, floored at one day.
pub open spec fn spec_time_to_collapse(risk: u64) -> Option<u64> {
    if risk < 100000 {
        None
    } else {
        let days = (SCALE - risk) * 30;
        if days < SCALE {
            Some(SCALE as u64)
        } else {
            Some(days as u64)
        }
    }
}

fn estimate_time_to_collapse(state: &EcosystemStateV2) -> (r: Option<u64>)
    ensures
        r == spec_time_to_collapse(spec_collapse_risk(state@)),
{
    let risk = state.collapse_risk();
    if risk < 100000 {
        None
    } else {
        let days = (SCALE - risk) * 30;
        if days < SCALE {
            Some(SCALE)
        } else {
            Some(days)
        }
    }
}

/// Bundles every collapse diagnostic for one snapshot.
pub fn analyze_ecosystem_collapse(state: &EcosystemStateV2) -> (r: EcosystemCollapseAnalysis)
    ensures
        r.is_collapsed == spec_is_collapsed(state@),
        r.collapse_risk == spec_collapse_risk(state@),
        r.collapse_reasons@ == spec_collapse_reasons(state@),
        r.time_to_collapse_estimate == spec_time_to_collapse(spec_collapse_risk(state@)),
{
    EcosystemCollapseAnalysis {
        is_collapsed: state.is_collapsed(),
        collapse_risk: state.collapse_risk(),
        collapse_reasons: state.collapse_reasons(),
        time_to_collapse_estimate: estimate_time_to_collapse(state),
    }
}

/// The health summary of one state snapshot.
#[derive(Debug, PartialEq)]
pub struct EcosystemHealthSummary {
    pub is_healthy: bool,
    pub health_warnings: Vec<HealthWarning>,
    pub collapse_risk: u64,
}

pub fn get_ecosystem_health(state: &EcosystemStateV2) -> (r: EcosystemHealthSummary)
    ensures
        r.is_healthy == spec_is_healthy(state@),
        r.health_warnings@ == spec_health_warnings(state@),
        r.collapse_risk == spec_collapse_risk(state@),
{
    EcosystemHealthSummary {
        is_healthy: state.is_healthy(),
        health_warnings: state.health_warnings(),
        collapse_risk: state.collapse_risk(),
    }
}

/// Where a trial stands: it starts `Initialized`, runs, and ends in one of
/// the two terminal states, from which there is no way back.
#[derive(Debug, Clone, Copy, PartialEq, Eq, Structural)]
pub enum TrialStatus {
    Initialized,
    Running,
    Collapsed,
    SurvivedToCap,
}

/// The outcome of running a trial for a number of steps: the final model,
/// the full days survived, and whether the day cap was reached.
pub open spec fn spec_run_steps(
    m: StateModel,
    p: SimulationParameters,
    step: nat,
    days: nat,
    day_cap: nat,
) -> (StateModel, nat, bool)
    decreases 2 * day_cap - step,
{
    if step >= 2 * day_cap {
        (m, days, false)
    } else {
        let m1 = spec_tick(m, p, step % 2 == 0);
        if spec_is_collapsed(m1) {
            (m1, days, false)
        } else {
            let days1 = if step % 2 == 0 {
                days + 1
            } else {
                days
            };
            if days1 >= day_cap {
                (m1, days1, true)
            } else {
                spec_run_steps(m1, p, step + 1, days1, day_cap)
            }
        }
    }
}

/// A run that reports survival did not end collapsed: the survival arm of
/// the trial loop is only reached past the collapse check.
pub proof fn lemma_survivor_not_collapsed(
    m: StateModel,
    p: SimulationParameters,
    step: nat,
    days: nat,
    day_cap: nat,
)
    ensures
        spec_run_steps(m, p, step, days, day_cap).2 ==> !spec_is_collapsed(
            spec_run_steps(m, p, step, days, day_cap).0,
        ),
    decreases 2 * day_cap - step,
{
    if step >= 2 * day_cap {
    } else {
        let m1 = spec_tick(m, p, step % 2 == 0);
        if spec_is_collapsed(m1) {
        } else {
            let days1 = if step % 2 == 0 {
                days + 1
            } else {
                days
            };
            if days1 >= day_cap {
            } else {
                lemma_survivor_not_collapsed(m1, p, step + 1, days1, day_cap);
            }
        }
    }
}

/// A status from which no transition leads away.
pub open spec fn spec_terminal(s: TrialStatus) -> bool {
    s == TrialStatus::Collapsed || s == TrialStatus::SurvivedToCap
}

/// One trial as an explicit state machine: `tick` drives it from
/// `Initialized` through `Running` into a terminal state, and a finished
/// trial must be reconstructed to run again.
pub struct Trial {
    pub config: V2Config,
    pub state: EcosystemStateV2,
    pub days: usize,
    pub day_cap: usize,
    pub status: TrialStatus,
}

impl Trial {
    /// Starts a trial; the day cap is hard-capped at 1000 days.
    pub fn new(config: V2Config, state: EcosystemStateV2, day_cap: usize) -> (r: Trial)
        ensures
            r.config == config,
            r.state == state,
            r.days == 0,
            r.day_cap == if day_cap <= 1000 {
                day_cap as int
            } else {
                1000int
            },
            r.status == TrialStatus::Initialized,
    {
        Trial {
            config,
            state,
            days: 0,
            day_cap: if day_cap <= 1000 {
                day_cap
            } else {
                1000
            },
            status: TrialStatus::Initialized,
        }
    }

    /// Applies one tick. A terminal trial is left exactly as it is and the
    /// call is rejected: there is no transition back from a terminal state.
    pub fn tick(&mut self, is_day: bool) -> (r: EcosystemResult<()>)
        ensures
            spec_terminal(old(self).status) ==> r is Err && *final(self) == *old(self),
            !spec_terminal(old(self).status) ==> {
                &&& r is Ok
                &&& final(self).config == old(self).config
                &&& final(self).day_cap == old(self).day_cap
                &&& final(self).state@ == spec_tick(
                    old(self).state@,
                    old(self).config.parameters,
                    is_day,
                )
                &&& final(self).days == if is_day && old(self).days < old(self).day_cap {
                    old(self).days + 1
                } else {
                    old(self).days as int
                }
                &&& final(self).status == if spec_is_collapsed(final(self).state@) {
                    TrialStatus::Collapsed
                } else if final(self).days >= final(self).day_cap {
                    TrialStatus::SurvivedToCap
                } else {
                    TrialStatus::Running
                }
            },
    {
        match self.status {
            TrialStatus::Collapsed | TrialStatus::SurvivedToCap => {
                return Err(crate::errors::EcosystemError::SimulationError {
                    message: "the trial has ended; reconstruct it to run again".to_owned(),
                });
            },
            _ => {},
        }
        let _tick = update_ecosystem_v2(&self.config, &mut self.state, is_day);
        if is_day && self.days < self.day_cap {
            self.days = self.days + 1;
        }
        self.status = if is_ecosystem_collapsed(&self.state) {
            TrialStatus::Collapsed
        } else if self.days >= self.day_cap {
            TrialStatus::SurvivedToCap
        } else {
            TrialStatus::Running
        };
        Ok(())
    }
}

/// Runs one trial to collapse or the day cap, alternating day and night
/// ticks. Returns the full days survived and whether the trial survived.
#[verifier::rlimit(100)]
pub fn run_trial(config: &V2Config, state: &mut EcosystemStateV2, day_cap: usize) -> (r: (
    usize,
    bool,
))
    requires
        day_cap <= 1000,
    ensures
        (final(state)@, r.0 as nat, r.1) == spec_run_steps(
            old(state)@,
            config.parameters,
            0,
            0,
            day_cap as nat,
        ),
        r.0 <= day_cap,
        r.1 ==> r.0 == day_cap,
{
    let mut step: usize = 0;
    let mut days: usize = 0;
    let mut survived = false;
    let mut finished = false;
    while !finished && step < 2 * day_cap
        invariant
            day_cap <= 1000,
            step <= 2 * day_cap,
            days <= day_cap,
            !finished ==> survived == false,
            !finished && day_cap > 0 ==> days < day_cap,
            survived ==> days == day_cap,
            !finished ==> spec_run_steps(old(state)@, config.parameters, 0, 0, day_cap as nat)
                == spec_run_steps(state@, config.parameters, step as nat, days as nat, day_cap as nat),
            finished ==> (state@, days as nat, survived) == spec_run_steps(
                old(state)@,
                config.parameters,
                0,
                0,
                day_cap as nat,
            ),
        decreases 2 * day_cap - step + (if finished { 0int } else { 1int }),
    {
        let is_day = step % 2 == 0;
        let _tick = update_ecosystem_v2(config, state, is_day);
        if is_ecosystem_collapsed(state) {
            finished = true;
        } else {
            if is_day {
                days = days + 1;
            }
            if days >= day_cap {
                survived = true;
                finished = true;
            } else {
                step = step + 1;
            }
        }
    }
    (days, survived)
}

} // verus!
