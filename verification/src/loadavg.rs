//! The kernel's fixed-point load-average computation, in base-2048
//! fixed point, and the reader for `/proc/loadavg`-style text.
//!
//! Published loads are held in hundredths: a load of 1.29 is the value 129.

use vstd::prelude::*;

use crate::cgtext::{parse_hundredths, spec_parse_hundredths};
use crate::text::{spec_split_ws, split_ws_str};

verus! {

/// Decay factor for the one-minute window, as `2048 * exp(-5s/1min)`.
pub const EXP_1: u64 = 1884;

/// Decay factor for the five-minute window.
pub const EXP_5: u64 = 2014;

/// Decay factor for the fifteen-minute window.
pub const EXP_15: u64 = 2037;

pub const FSHIFT: u64 = 11;

/// The fixed-point unit, `1 << FSHIFT`.
pub const FIXED_1: u64 = 2048;

/// Largest accumulator value the computation accepts; one decay step never
/// grows past it.
pub const LOAD_ACC_MAX: u64 = 0x10_0000_0000_0000;

/// Largest task count accepted by one decay step.
pub const ACTIVE_MAX: u64 = 0x100_0000_0000;

/// One decay step: the old accumulator, weighted by `exp`, pulled toward
/// the fixed-point task count, rounded up when the count does not fall.
pub open spec fn spec_calc_load(load: u64, exp: u64, active: u64) -> int {
    (load * exp + active * (FIXED_1 - exp) + (if active >= load {
        (FIXED_1 - 1) as int
    } else {
        0
    })) / FIXED_1 as int
}

/// One decay step of one accumulator.
pub fn calc_load(load: u64, exp: u64, active: u64) -> (r: u64)
    requires
        exp <= FIXED_1,
        load <= LOAD_ACC_MAX,
        active <= LOAD_ACC_MAX,
    ensures
        r == spec_calc_load(load, exp, active),
        r <= (if load >= active {
            load
        } else {
            active
        }),
{
    let adj: u64 = if active >= load {
        FIXED_1 - 1
    } else {
        0
    };
    let ghost m: int = if load >= active {
        load as int
    } else {
        active as int
    };
    proof {
        assert(load * exp + active * (FIXED_1 - exp) <= m * FIXED_1) by (nonlinear_arith)
            requires
                exp <= FIXED_1,
                load <= m,
                active <= m,
                m >= 0,
        ;
        assert(m * FIXED_1 <= LOAD_ACC_MAX * FIXED_1) by (nonlinear_arith)
            requires
                m <= LOAD_ACC_MAX,
        ;
    }
    let wide: u128 = (load as u128) * (exp as u128) + (active as u128) * ((FIXED_1 - exp) as u128)
        + (adj as u128);
    proof {
        assert(wide <= m * FIXED_1 + FIXED_1 - 1);
        assert(wide / (FIXED_1 as u128) <= m) by (nonlinear_arith)
            requires
                wide <= m * FIXED_1 + FIXED_1 - 1,
                m >= 0,
        ;
    }
    let r = (wide / (FIXED_1 as u128)) as u64;
    r
}

/// The rounded average, offset for display (the kernel adds
/// `FIXED_1 / 200` before splitting into integer and fraction).
pub fn get_avenrun(avenrun: u64, offset: u64, shift: u64) -> (r: u64)
    requires
        shift == 0,
        avenrun + offset <= u64::MAX,
    ensures
        r == avenrun + offset,
{
    avenrun + offset
}

/// Integer part of a fixed-point load.
pub fn load_int(x: u64) -> (r: u64)
    ensures
        r == x / FIXED_1,
{
    x / FIXED_1
}

/// Fraction of a fixed-point load, in hundredths (0 to 99).
pub fn load_frac(x: u64) -> (r: u64)
    ensures
        r == (x % FIXED_1) * 100 / (FIXED_1 as int),
        r <= 99,
{
    (x % FIXED_1) * 100 / FIXED_1
}

/// A displayed load in hundredths: the integer part times one hundred plus
/// the two-digit fraction, after the kernel's display offset.
pub open spec fn spec_load_hundredths(avenrun: u64) -> int {
    let x = avenrun + (FIXED_1 / 200) as int;
    (x / FIXED_1 as int) * 100 + (x % FIXED_1 as int) * 100 / FIXED_1 as int
}

/// What one decay step does to a whole load record: the three accumulators
/// take one step each, and the published hundredths are re-derived from
/// them.
pub open spec fn spec_load_calc(pre: LoadAvg, post: LoadAvg, active: u64) -> bool {
    &&& post.operator.one == spec_calc_load(pre.operator.one, EXP_1, (active * FIXED_1) as u64)
    &&& post.operator.five == spec_calc_load(pre.operator.five, EXP_5, (active * FIXED_1) as u64)
    &&& post.operator.fifteen == spec_calc_load(
        pre.operator.fifteen,
        EXP_15,
        (active * FIXED_1) as u64,
    )
    &&& post.one == spec_load_hundredths(post.operator.one)
    &&& post.five == spec_load_hundredths(post.operator.five)
    &&& post.fifteen == spec_load_hundredths(post.operator.fifteen)
}

/// The three decay accumulators.
#[derive(Clone, Copy, Debug, PartialEq, Eq, Structural)]
pub struct LoadAvgOperator {
    pub one: u64,
    pub five: u64,
    pub fifteen: u64,
}

impl LoadAvgOperator {
    pub fn new() -> (r: LoadAvgOperator)
        ensures
            r == (LoadAvgOperator { one: 0u64, five: 0u64, fifteen: 0u64 }),
    {
        LoadAvgOperator { one: 0, five: 0, fifteen: 0 }
    }

    /// All accumulators within the range one decay step preserves.
    pub open spec fn wf(&self) -> bool {
        self.one <= LOAD_ACC_MAX && self.five <= LOAD_ACC_MAX && self.fifteen <= LOAD_ACC_MAX
    }
}

/// The one/five/fifteen-minute load averages, in hundredths, and the
/// fixed-point state that produces them.
#[derive(Clone, Copy, Debug, PartialEq, Eq, Structural)]
pub struct LoadAvg {
    /// Load over one minute, in hundredths.
    pub one: u64,
    /// Load over five minutes, in hundredths.
    pub five: u64,
    /// Load over fifteen minutes, in hundredths.
    pub fifteen: u64,
    pub operator: LoadAvgOperator,
}

impl Default for LoadAvg {
    fn default() -> (r: Self)
        ensures
            r == LoadAvg::spec_new(),
    {
        LoadAvg::new()
    }
}

impl LoadAvg {
    pub open spec fn spec_new() -> LoadAvg {
        LoadAvg {
            one: 0,
            five: 0,
            fifteen: 0,
            operator: LoadAvgOperator { one: 0u64, five: 0u64, fifteen: 0u64 },
        }
    }

    pub open spec fn wf(&self) -> bool {
        self.operator.wf()
    }

    pub fn new() -> (r: LoadAvg)
        ensures
            r == LoadAvg::spec_new(),
            r.wf(),
    {
        LoadAvg { one: 0, five: 0, fifteen: 0, operator: LoadAvgOperator::new() }
    }

    /// Feed one runnable-plus-blocked task count into the three decay
    /// channels and publish each as hundredths.
    pub fn calc_load(&mut self, active: u64)
        requires
            old(self).wf(),
            active <= ACTIVE_MAX,
        ensures
            final(self).wf(),
            final(self).operator.one == spec_calc_load(
                old(self).operator.one,
                EXP_1,
                (active * FIXED_1) as u64,
            ),
            final(self).operator.five == spec_calc_load(
                old(self).operator.five,
                EXP_5,
                (active * FIXED_1) as u64,
            ),
            final(self).operator.fifteen == spec_calc_load(
                old(self).operator.fifteen,
                EXP_15,
                (active * FIXED_1) as u64,
            ),
            final(self).one == spec_load_hundredths(final(self).operator.one),
            final(self).five == spec_load_hundredths(final(self).operator.five),
            final(self).fifteen == spec_load_hundredths(final(self).operator.fifteen),
            spec_load_calc(*old(self), *final(self), active),
    {
        let active_tasks: u64 = if active > 0 {
            active * FIXED_1
        } else {
            0
        };
        self.operator.one = calc_load(self.operator.one, EXP_1, active_tasks);
        self.operator.five = calc_load(self.operator.five, EXP_5, active_tasks);
        self.operator.fifteen = calc_load(self.operator.fifteen, EXP_15, active_tasks);

        let offset: u64 = FIXED_1 / 200;
        let one = get_avenrun(self.operator.one, offset, 0);
        let five = get_avenrun(self.operator.five, offset, 0);
        let fifteen = get_avenrun(self.operator.fifteen, offset, 0);
        self.one = load_int(one) * 100 + load_frac(one);
        self.five = load_int(five) * 100 + load_frac(five);
        self.fifteen = load_int(fifteen) * 100 + load_frac(fifteen);
    }

    /// Overwrite the three published loads from `/proc/loadavg`-style text,
    /// leaving the accumulators alone; text that does not carry three
    /// decimals changes nothing.
    pub fn read_load_avg(&mut self, contents: &str)
        ensures
            ({
                let toks = spec_split_ws(contents@);
                if toks.len() >= 3 && spec_parse_hundredths(toks[0]) is Some
                    && spec_parse_hundredths(toks[1]) is Some && spec_parse_hundredths(toks[2])
                    is Some {
                    *final(self) == (LoadAvg {
                        one: spec_parse_hundredths(toks[0]).unwrap(),
                        five: spec_parse_hundredths(toks[1]).unwrap(),
                        fifteen: spec_parse_hundredths(toks[2]).unwrap(),
                        ..*old(self)
                    })
                } else {
                    *final(self) == *old(self)
                }
            }),
    {
        let toks = split_ws_str(contents);
        if toks.len() >= 3 {
            proof {
                assert(toks.deep_view()[0] == toks@[0]@);
                assert(toks.deep_view()[1] == toks@[1]@);
                assert(toks.deep_view()[2] == toks@[2]@);
            }
            let a = parse_hundredths(toks[0].as_str());
            let b = parse_hundredths(toks[1].as_str());
            let c = parse_hundredths(toks[2].as_str());
            match (a, b, c) {
                (Some(one), Some(five), Some(fifteen)) => {
                    self.one = one;
                    self.five = five;
                    self.fifteen = fifteen;
                },
                _ => {},
            }
        }
    }

    pub fn reset(&mut self)
        ensures
            *final(self) == LoadAvg::spec_new(),
            final(self).wf(),
    {
        *self = LoadAvg::new();
    }
}

} // verus!
