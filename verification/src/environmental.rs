//! Environmental response functions: pure mappings from a quantity to a
//! dimensionless efficiency multiplier in fixed-point units.
//!
//! Saturating curves return at most `SCALE` (1.0). The temperature and pH
//! curves are bell-shaped with a single interior optimum: a Gaussian-like
//! tail `exp(-x)` realized by the rational approximation
//! `1 / (1 + x + x^2/2 + x^3/6)`, which is exact at the optimum, stays in
//! `(0, 1]`, and falls off as the distance from the optimum grows.

use vstd::prelude::*;
use crate::fixed::{SCALE, fx, fx_mul, mul_div_le, lemma_fx_bound};
use crate::types::{Biomass, Detritus, Humidity, Moisture, Nitrogen, Oxygen, Ph, Temperature};

verus! {

/// Largest argument `exp_neg` accepts; the temperature curve over the whole
/// temperature domain stays below it.
pub const EXP_ARG_MAX: u64 = 172 * SCALE;

/// Rational approximation of `exp(-x)`: `1 / (1 + x + x^2/2 + x^3/6)`.
pub open spec fn spec_exp_neg(x: int) -> int {
    let t2 = fx(x, x);
    let t3 = fx(t2, x);
    let denom = SCALE + x + t2 / 2 + t3 / 6;
    (SCALE * SCALE) / denom
}

/// The bell value `exp(-d^2 / w)` at fixed-point distance `d` from the
/// optimum, with tail width `w`.
pub open spec fn spec_bell(d: int, w: int) -> int {
    spec_exp_neg(d * d / (w * SCALE as int))
}

pub fn exp_neg(x: u64) -> (r: u64)
    requires
        x <= EXP_ARG_MAX,
    ensures
        r == spec_exp_neg(x as int),
        r <= SCALE,
{
    proof {
        lemma_fx_bound(x as int, x as int, EXP_ARG_MAX as int, EXP_ARG_MAX as int);
    }
    let t2 = fx_mul(x, x);
    proof {
        lemma_fx_bound(t2 as int, x as int, 29584000000, EXP_ARG_MAX as int);
    }
    let t3 = fx_mul(t2, x);
    let denom = SCALE + x + t2 / 2 + t3 / 6;
    let r = (SCALE * SCALE) / denom;
    proof {
        let s = SCALE as int;
        let dd = denom as int;
        assert(s * s <= s * dd) by (nonlinear_arith)
            requires
                s <= dd,
                0 < s,
        ;
        assert(s * s / dd <= s * dd / dd) by (nonlinear_arith)
            requires
                s * s <= s * dd,
                0 < dd,
        ;
        assert(s * dd / dd == s) by (nonlinear_arith)
            requires
                0 < dd,
        ;
    }
    r
}

/// Temperature efficiency: bell curve with its optimum at 24 degrees.
pub fn temperature_efficiency(temp: Temperature) -> (r: u64)
    ensures
        r == spec_temperature_efficiency(temp@),
        r <= SCALE,
{
    proof {
        use_type_invariant(&temp);
    }
    let c = temp.celsius();
    let d: i64 = if c >= 24000000 {
        c - 24000000
    } else {
        24000000 - c
    };
    let du = d as u64;
    proof {
        assert((du as int) * (du as int) <= 5476000000000000int) by (nonlinear_arith)
            requires
                du <= 74000000,
        ;
    }
    let x = (du * du) / (32 * SCALE);
    proof {
        assert(x <= 172 * SCALE) by (nonlinear_arith)
            requires
                x == (du as int) * (du as int) / 32000000int,
                (du as int) * (du as int) <= 5476000000000000int,
        ;
    }
    exp_neg(x)
}

pub open spec fn spec_temperature_efficiency(t: i64) -> int {
    let d = if t >= 24000000 {
        t - 24000000
    } else {
        24000000 - t
    };
    spec_bell(d, 32)
}

/// Humidity efficiency: rises with humidity and plateaus at 100 percent.
pub fn humidity_efficiency(humidity: Humidity) -> (r: u64)
    ensures
        r == spec_saturating(humidity@ as int, 100),
        r <= SCALE,
{
    let v = humidity.percentage() / 100;
    if v >= SCALE {
        SCALE
    } else {
        v
    }
}

/// `min(q / div, 1)` in fixed-point units.
pub open spec fn spec_saturating(q: int, div: int) -> int {
    if q / div >= SCALE {
        SCALE as int
    } else {
        q / div
    }
}

/// Light efficiency: linear in the light level, saturating at 6.
pub fn light_efficiency(light_level: u64) -> (r: u64)
    ensures
        r == spec_saturating(light_level as int, 6),
        r <= SCALE,
{
    let v = light_level / 6;
    if v >= SCALE {
        SCALE
    } else {
        v
    }
}

/// Nutrient efficiency: saturating response to soil nitrogen.
pub fn nutrient_efficiency(nitrogen: Nitrogen) -> (r: u64)
    ensures
        r == spec_saturating(nitrogen@ as int, 2),
        r <= SCALE,
{
    let v = nitrogen.value() / 2;
    if v >= SCALE {
        SCALE
    } else {
        v
    }
}

/// Competition factor for plant growth: falls as biomass rises.
pub fn competition_factor(biomass: Biomass) -> (r: u64)
    ensures
        r == spec_competition(biomass@ as int),
        r <= SCALE,
{
    let v = biomass.value() / 100;
    if v >= SCALE {
        0
    } else {
        SCALE - v
    }
}

pub open spec fn spec_competition(b: int) -> int {
    if b / 100 >= SCALE {
        0
    } else {
        SCALE - b / 100
    }
}

/// Moisture efficiency: saturating response to soil moisture.
pub fn moisture_efficiency(moisture: Moisture) -> (r: u64)
    ensures
        r == spec_saturating(moisture@ as int, 2),
        r <= SCALE,
{
    let v = moisture.value() / 2;
    if v >= SCALE {
        SCALE
    } else {
        v
    }
}

/// pH efficiency: bell curve with its optimum at 7.0.
pub fn ph_efficiency(ph: Ph) -> (r: u64)
    ensures
        r == spec_ph_efficiency(ph@),
        r <= SCALE,
{
    proof {
        use_type_invariant(&ph);
    }
    let p = ph.value();
    let d: u64 = if p >= 7 * SCALE {
        p - 7 * SCALE
    } else {
        7 * SCALE - p
    };
    proof {
        assert((d as int) * (d as int) <= 49000000000000int) by (nonlinear_arith)
            requires
                d <= 7000000,
        ;
    }
    let x = (d * d) / (8 * SCALE);
    proof {
        assert(x <= 172 * SCALE) by (nonlinear_arith)
            requires
                x == (d as int) * (d as int) / 8000000int,
                (d as int) * (d as int) <= 49000000000000int,
        ;
    }
    exp_neg(x)
}

pub open spec fn spec_ph_efficiency(p: u64) -> int {
    let d = if p >= 7 * SCALE {
        p - 7 * SCALE
    } else {
        7 * SCALE - p
    };
    spec_bell(d, 8)
}

/// Oxygen efficiency: linear in the oxygen share, saturating at 21 percent.
pub fn oxygen_efficiency(oxygen: Oxygen) -> (r: u64)
    ensures
        r == spec_saturating(oxygen@ as int, 21),
        r <= SCALE,
{
    let v = oxygen.percentage() / 21;
    if v >= SCALE {
        SCALE
    } else {
        v
    }
}

/// Detritus availability: more detritus means more food, saturating at 2.
pub fn detritus_availability(detritus: Detritus) -> (r: u64)
    ensures
        r == spec_saturating(detritus@ as int, 2),
        r <= SCALE,
{
    let v = detritus.value() / 2;
    if v >= SCALE {
        SCALE
    } else {
        v
    }
}

/// Toxicity factor: reserved, currently inert.
pub fn toxicity_factor(_toxicity: u64) -> (r: u64)
    ensures
        r == 0,
{
    0
}

/// Water oxygen efficiency: as air oxygen, for aquatic organisms.
pub fn water_oxygen_efficiency(water_oxygen: Oxygen) -> (r: u64)
    ensures
        r == spec_saturating(water_oxygen@ as int, 21),
        r <= SCALE,
{
    let v = water_oxygen.percentage() / 21;
    if v >= SCALE {
        SCALE
    } else {
        v
    }
}

/// Combined environmental stress: temperature, pH and oxygen contributions,
/// summed and capped at 1.0.
pub fn environmental_stress(temp: Temperature, ph: Ph, oxygen: Oxygen) -> (r: u64)
    ensures
        r == spec_environmental_stress(temp@, ph@, oxygen@),
        r <= SCALE,
{
    proof {
        use_type_invariant(&temp);
        use_type_invariant(&ph);
        use_type_invariant(&oxygen);
    }
    let c = temp.celsius();
    let temp_stress: u64 = if 20000000 <= c && c <= 28000000 {
        0
    } else {
        let d: i64 = if c >= 24000000 {
            c - 24000000
        } else {
            24000000 - c
        };
        let v = (d as u64) / 20;
        if v >= SCALE {
            SCALE
        } else {
            v
        }
    };
    let p = ph.value();
    let ph_stress: u64 = if 6500000 <= p && p <= 7500000 {
        0
    } else {
        let d: u64 = if p >= 7 * SCALE {
            p - 7 * SCALE
        } else {
            7 * SCALE - p
        };
        let v = d / 7;
        if v >= SCALE {
            SCALE
        } else {
            v
        }
    };
    let o = oxygen.percentage();
    let oxygen_stress: u64 = if o < 5 * SCALE {
        (5 * SCALE - o) / 5
    } else {
        0
    };
    let total = temp_stress + ph_stress + oxygen_stress;
    if total >= SCALE {
        SCALE
    } else {
        total
    }
}

pub open spec fn spec_environmental_stress(t: i64, p: u64, o: u64) -> int {
    let temp_stress: int = if 20000000 <= t <= 28000000 {
        0
    } else {
        let d: int = if t >= 24000000 {
            t - 24000000
        } else {
            24000000 - t
        };
        if d / 20 >= SCALE {
            SCALE as int
        } else {
            d / 20
        }
    };
    let ph_stress: int = if 6500000 <= p <= 7500000 {
        0
    } else {
        let d: int = if p >= 7 * SCALE {
            p - 7 * SCALE
        } else {
            7 * SCALE - p
        };
        if d / 7 >= SCALE {
            SCALE as int
        } else {
            d / 7
        }
    };
    let oxygen_stress: int = if o < 5 * SCALE {
        (5 * SCALE - o) / 5
    } else {
        0
    };
    let total = temp_stress + ph_stress + oxygen_stress;
    if total >= SCALE {
        SCALE as int
    } else {
        total
    }
}

/// Penalty factor for acidic soil: `(6.5 - pH) / 6.5` below pH 6.5, else 0.
pub fn ph_penalty_factor(ph: Ph) -> (r: u64)
    ensures
        r == spec_ph_penalty_factor(ph@),
        r <= SCALE,
{
    let p = ph.value();
    if p < 6500000 {
        mul_div_le(6500000 - p, SCALE, 6500000)
    } else {
        0
    }
}

pub open spec fn spec_ph_penalty_factor(p: u64) -> int {
    if p < 6500000 {
        (6500000 - p) * (SCALE as int) / 6500000
    } else {
        0
    }
}

/// Penalty factor for low air oxygen: `(5 - O2) / 5` below 5 percent, else 0.
pub fn oxygen_penalty_factor(oxygen: Oxygen) -> (r: u64)
    ensures
        r == spec_oxygen_penalty_factor(oxygen@),
        r <= SCALE,
{
    let o = oxygen.percentage();
    if o < 5 * SCALE {
        (5 * SCALE - o) / 5
    } else {
        0
    }
}

pub open spec fn spec_oxygen_penalty_factor(o: u64) -> int {
    if o < 5 * SCALE {
        (5 * SCALE - o) / 5
    } else {
        0
    }
}

/// Penalty factor for low water oxygen, for aquatic organisms.
pub fn water_oxygen_penalty_factor(water_oxygen: Oxygen) -> (r: u64)
    ensures
        r == spec_oxygen_penalty_factor(water_oxygen@),
        r <= SCALE,
{
    let o = water_oxygen.percentage();
    if o < 5 * SCALE {
        (5 * SCALE - o) / 5
    } else {
        0
    }
}

} // verus!
