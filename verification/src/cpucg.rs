//! The CPU-accounting cgroup in both layouts: usage counters, bandwidth
//! settings, pressure, the backend's task-state and PMU figures, and the
//! per-cgroup load average.

use vstd::prelude::*;

use crate::bpf::{
    spec_module_valid, PmuData, TaskNrData, BPF_MODULE_CGROUP_PMU, BPF_MODULE_CGROUP_SCHED,
};
use crate::cgtext::{
    parse_cgroup_file, parse_cgroup_value, spec_cgroup_file, spec_cgroup_value,
    spec_opt_text_value, spec_text_of,
};
use crate::cgtypes::CGroupType;
use crate::loadavg::{spec_load_calc, LoadAvg, ACTIVE_MAX};
use crate::memcg::spec_opt_get;
use crate::psi::{get_or, spec_map_get_or, PressureStallInfo};
use crate::rate::{counter_delta, frac_permillion, spec_counter_delta, spec_frac_permillion};
use crate::text::{
    join2, join3, parse_i64_str, parse_u64_str, spec_parse_i64, spec_parse_u64, spec_split_ws,
    split_ws_str, str_eq_str,
};


verus! {

/// One read of the v1 `cpuacct` counters, in nanoseconds, with its time.
#[derive(Clone, Copy, Debug, PartialEq, Eq, Structural)]
pub struct CpuCGroupBasicInfo {
    pub cpu_usage: u64,
    pub cpu_user_time: u64,
    pub cpu_sys_time: u64,
    pub update_time: u64,
}

impl Default for CpuCGroupBasicInfo {
    fn default() -> (r: Self)
        ensures
            r == CpuCGroupBasicInfo::spec_new(),
    {
        CpuCGroupBasicInfo::new()
    }
}

impl CpuCGroupBasicInfo {
    pub open spec fn spec_new() -> CpuCGroupBasicInfo {
        CpuCGroupBasicInfo { cpu_usage: 0, cpu_user_time: 0, cpu_sys_time: 0, update_time: 0 }
    }

    pub fn new() -> (r: CpuCGroupBasicInfo)
        ensures
            r == CpuCGroupBasicInfo::spec_new(),
    {
        CpuCGroupBasicInfo { cpu_usage: 0, cpu_user_time: 0, cpu_sys_time: 0, update_time: 0 }
    }

    pub fn update(&mut self, cpu_usage: u64, cpu_user_time: u64, cpu_sys_time: u64, now: u64)
        ensures
            *final(self) == (CpuCGroupBasicInfo {
                cpu_usage,
                cpu_user_time,
                cpu_sys_time,
                update_time: now,
            }),
    {
        self.cpu_usage = cpu_usage;
        self.cpu_user_time = cpu_user_time;
        self.cpu_sys_time = cpu_sys_time;
        self.update_time = now;
    }
}

/// The v2 `cpu.stat` counters, in microseconds, absent fields read as zero.
#[derive(Clone, Copy, Debug, PartialEq, Eq, Structural, Default)]
pub struct CpuStatsV2 {
    pub usage_usec: u64,
    pub user_usec: u64,
    pub system_usec: u64,
    pub nr_periods: u64,
    pub nr_throttled: u64,
    pub throttled_usec: u64,
    pub update_time: u64,
}

/// The counters one parsed `cpu.stat` table denotes, sampled at `now`.
pub open spec fn spec_cpu_stats_v2_of(m: Map<Seq<char>, u64>, now: u64) -> CpuStatsV2 {
    CpuStatsV2 {
        usage_usec: spec_map_get_or(m, "usage_usec"@, 0),
        user_usec: spec_map_get_or(m, "user_usec"@, 0),
        system_usec: spec_map_get_or(m, "system_usec"@, 0),
        nr_periods: spec_map_get_or(m, "nr_periods"@, 0),
        nr_throttled: spec_map_get_or(m, "nr_throttled"@, 0),
        throttled_usec: spec_map_get_or(m, "throttled_usec"@, 0),
        update_time: now,
    }
}

/// The saturating microsecond span between two sample times.
pub open spec fn spec_delta_usec(earlier: u64, later: u64) -> u64 {
    let d = spec_counter_delta(earlier, later);
    if d * 1_000_000 > u64::MAX {
        u64::MAX
    } else {
        (d * 1_000_000) as u64
    }
}

/// The clamped runnable-plus-uninterruptible count one load step takes.
pub open spec fn spec_clamped_active(unint: u64, runnable: u64) -> u64 {
    if unint + runnable > ACTIVE_MAX {
        ACTIVE_MAX
    } else {
        (unint + runnable) as u64
    }
}

/// What the `cpu.stat` half of one v2 poll does: the counters are replaced
/// (stamped with the sample time), and once a previous sample exists the
/// three usage ratios are the counter deltas over the elapsed microseconds,
/// in millionths; a missing file leaves everything as it was.
pub open spec fn spec_cpu_v2_stat_updated(
    pre: CpuCGroupV2,
    post: CpuCGroupV2,
    cpu_stat: Option<Seq<char>>,
    now: u64,
) -> bool {
    match cpu_stat {
        Some(c) => {
            let stats = spec_cpu_stats_v2_of(spec_cgroup_file(c), now);
            let prev = pre.cpu_stats;
            &&& post.cpu_stats == stats
            &&& if prev.update_time == 0 {
                &&& post.cpu_usage_ratio_permillion == pre.cpu_usage_ratio_permillion
                &&& post.cpu_user_usage_ratio_permillion == pre.cpu_user_usage_ratio_permillion
                &&& post.cpu_sys_usage_ratio_permillion == pre.cpu_sys_usage_ratio_permillion
            } else {
                let dt = spec_delta_usec(prev.update_time, now);
                &&& post.cpu_usage_ratio_permillion == spec_frac_permillion(
                    spec_counter_delta(prev.usage_usec, stats.usage_usec) as u64,
                    dt,
                )
                &&& post.cpu_user_usage_ratio_permillion == spec_frac_permillion(
                    spec_counter_delta(prev.user_usec, stats.user_usec) as u64,
                    dt,
                )
                &&& post.cpu_sys_usage_ratio_permillion == spec_frac_permillion(
                    spec_counter_delta(prev.system_usec, stats.system_usec) as u64,
                    dt,
                )
            }
        },
        None => {
            &&& post.cpu_stats == pre.cpu_stats
            &&& post.cpu_usage_ratio_permillion == pre.cpu_usage_ratio_permillion
            &&& post.cpu_user_usage_ratio_permillion == pre.cpu_user_usage_ratio_permillion
            &&& post.cpu_sys_usage_ratio_permillion == pre.cpu_sys_usage_ratio_permillion
        },
    }
}

/// What one full v2 poll does, field by field: the stat half as above, the
/// three bandwidth switches and the quota line replace their fields (the
/// kernel defaults when `cpu.max` is unreadable), the pressure record is
/// read, and the identity, load, task counts and PMU counters are kept.
pub open spec fn spec_cpu_v2_updated(
    pre: CpuCGroupV2,
    post: CpuCGroupV2,
    cpu_stat: Option<Seq<char>>,
    weight_line: Option<Seq<char>>,
    weight_nice_line: Option<Seq<char>>,
    max_burst_line: Option<Seq<char>>,
    cpu_max_line: Option<Seq<char>>,
    cpu_pressure: Option<Seq<char>>,
    now: u64,
) -> bool {
    &&& post.full_path@ == pre.full_path@
    &&& post.user_path@ == pre.user_path@
    &&& spec_cpu_v2_stat_updated(pre, post, cpu_stat, now)
    &&& post.weight == spec_opt_text_value(weight_line)
    &&& post.weight_nice == spec_opt_text_value(weight_nice_line)
    &&& post.max_burst == spec_opt_text_value(max_burst_line)
    &&& match cpu_max_line {
        Some(l) => {
            let parsed = CpuCGroupV2::spec_cpu_max_of(l);
            &&& post.max == (match parsed.0 {
                Some(v) => Some(v),
                None => pre.max,
            })
            &&& post.max_period == (match parsed.1 {
                Some(v) => Some(v),
                None => pre.max_period,
            })
        },
        None => post.max == Some(u64::MAX) && post.max_period == Some(100000u64),
    }
    &&& match cpu_pressure {
        Some(c) => post.cpu_pressure == PressureStallInfo::spec_from_text(c),
        None => post.cpu_pressure == pre.cpu_pressure,
    }
    &&& post.load == pre.load
    &&& post.task_nr_iowait == pre.task_nr_iowait
    &&& post.task_nr_unint == pre.task_nr_unint
    &&& post.task_nr_runnable == pre.task_nr_runnable
    &&& post.update_time == pre.update_time
    &&& post.cycles == pre.cycles
    &&& post.instructions == pre.instructions
    &&& post.ocr_read_drams == pre.ocr_read_drams
    &&& post.store_ins == pre.store_ins
    &&& post.store_all_ins == pre.store_all_ins
    &&& post.imc_writes == pre.imc_writes
}

/// What one fast-path poll does to a v2 record: with the scheduler module
/// loaded the task counts are taken and the load average takes one decay
/// step on the clamped runnable-plus-uninterruptible count; with the PMU
/// module loaded the six counters are taken; everything else is kept.
pub open spec fn spec_cpu_v2_ebpf_updated(
    pre: CpuCGroupV2,
    post: CpuCGroupV2,
    bpf_mask: u64,
    task_nr: TaskNrData,
    pmu: PmuData,
) -> bool {
    &&& if spec_module_valid(bpf_mask, BPF_MODULE_CGROUP_SCHED) {
        &&& post.task_nr_iowait == task_nr.nr_iowait
        &&& post.task_nr_unint == task_nr.nr_unint
        &&& post.task_nr_runnable == task_nr.nr_runnable
        &&& post.load is Some
        &&& spec_load_calc(
            (match pre.load {
                Some(l) => l,
                None => LoadAvg::spec_new(),
            }),
            post.load.unwrap(),
            spec_clamped_active(task_nr.nr_unint, task_nr.nr_runnable),
        )
    } else {
        &&& post.task_nr_iowait == pre.task_nr_iowait
        &&& post.task_nr_unint == pre.task_nr_unint
        &&& post.task_nr_runnable == pre.task_nr_runnable
        &&& post.load == pre.load
    }
    &&& if spec_module_valid(bpf_mask, BPF_MODULE_CGROUP_PMU) {
        post.cycles == pmu.cycles && post.instructions == pmu.instructions
            && post.ocr_read_drams == pmu.ocr_read_drams && post.store_ins == pmu.store_ins
            && post.store_all_ins == pmu.store_all_ins && post.imc_writes == pmu.imc_writes
    } else {
        post.cycles == pre.cycles && post.instructions == pre.instructions && post.ocr_read_drams
            == pre.ocr_read_drams && post.store_ins == pre.store_ins && post.store_all_ins
            == pre.store_all_ins && post.imc_writes == pre.imc_writes
    }
    &&& post.full_path@ == pre.full_path@
    &&& post.user_path@ == pre.user_path@
    &&& post.cpu_stats == pre.cpu_stats
    &&& post.cpu_pressure == pre.cpu_pressure
    &&& post.weight == pre.weight
    &&& post.weight_nice == pre.weight_nice
    &&& post.max_burst == pre.max_burst
    &&& post.max == pre.max
    &&& post.max_period == pre.max_period
    &&& post.cpu_usage_ratio_permillion == pre.cpu_usage_ratio_permillion
    &&& post.cpu_user_usage_ratio_permillion == pre.cpu_user_usage_ratio_permillion
    &&& post.cpu_sys_usage_ratio_permillion == pre.cpu_sys_usage_ratio_permillion
    &&& post.update_time == pre.update_time
}

/// A v2 record administratively reset: every counter, ratio, switch,
/// pressure record, task count, PMU figure and the load are back at their
/// just-created defaults; the identity is kept and the reset time recorded.
pub open spec fn spec_cpu_v2_reset(pre: CpuCGroupV2, post: CpuCGroupV2, now: u64) -> bool {
    &&& post.full_path@ == pre.full_path@
    &&& post.user_path@ == pre.user_path@
    &&& post.cpu_stats == CpuStatsV2::spec_zero()
    &&& post.cpu_pressure == PressureStallInfo::spec_new()
    &&& post.weight is None
    &&& post.weight_nice is None
    &&& post.max_burst is None
    &&& post.max is None
    &&& post.max_period is None
    &&& post.task_nr_iowait == 0
    &&& post.task_nr_unint == 0
    &&& post.task_nr_runnable == 0
    &&& post.load is None
    &&& post.cpu_usage_ratio_permillion == 0
    &&& post.cpu_user_usage_ratio_permillion == 0
    &&& post.cpu_sys_usage_ratio_permillion == 0
    &&& post.update_time == now
    &&& post.cycles == 0
    &&& post.instructions == 0
    &&& post.ocr_read_drams == 0
    &&& post.store_ins == 0
    &&& post.store_all_ins == 0
    &&& post.imc_writes == 0
}

/// The v2 CPU cgroup.
#[derive(Clone, Debug)]
pub struct CpuCGroupV2 {
    pub full_path: String,
    pub user_path: String,
    pub cpu_stats: CpuStatsV2,
    pub cpu_pressure: PressureStallInfo,
    pub weight: Option<u64>,
    pub weight_nice: Option<u64>,
    pub max_burst: Option<u64>,
    pub max: Option<u64>,
    pub max_period: Option<u64>,
    pub task_nr_iowait: u64,
    pub task_nr_unint: u64,
    pub task_nr_runnable: u64,
    pub load: Option<LoadAvg>,
    /// Share of elapsed time spent running, in millionths.
    pub cpu_usage_ratio_permillion: u64,
    pub cpu_user_usage_ratio_permillion: u64,
    pub cpu_sys_usage_ratio_permillion: u64,
    pub update_time: u64,
    pub cycles: u64,
    pub instructions: u64,
    pub ocr_read_drams: u64,
    pub store_ins: u64,
    pub store_all_ins: u64,
    pub imc_writes: u64,
}

impl CpuCGroupV2 {
    pub open spec fn wf(&self) -> bool {
        match self.load {
            Some(l) => l.wf(),
            None => true,
        }
    }

    pub fn new(full_path: String, user_path: String) -> (r: CpuCGroupV2)
        ensures
            r.wf(),
            r.full_path@ == full_path@,
            r.user_path@ == user_path@,
            r.cpu_stats == CpuStatsV2::spec_zero(),
            r.cpu_pressure == PressureStallInfo::spec_new(),
            r.weight is None && r.weight_nice is None && r.max_burst is None && r.max is None
                && r.max_period is None,
            r.task_nr_iowait == 0 && r.task_nr_unint == 0 && r.task_nr_runnable == 0,
            r.load is None,
            r.cpu_usage_ratio_permillion == 0 && r.cpu_user_usage_ratio_permillion == 0
                && r.cpu_sys_usage_ratio_permillion == 0,
            r.update_time == 0,
            r.cycles == 0 && r.instructions == 0 && r.ocr_read_drams == 0 && r.store_ins == 0
                && r.store_all_ins == 0 && r.imc_writes == 0,
    {
        CpuCGroupV2 {
            full_path,
            user_path,
            cpu_stats: CpuStatsV2 {
                usage_usec: 0,
                user_usec: 0,
                system_usec: 0,
                nr_periods: 0,
                nr_throttled: 0,
                throttled_usec: 0,
                update_time: 0,
            },
            cpu_pressure: PressureStallInfo::new(),
            weight: None,
            weight_nice: None,
            max_burst: None,
            max: None,
            max_period: None,
            task_nr_iowait: 0,
            task_nr_unint: 0,
            task_nr_runnable: 0,
            load: None,
            cpu_usage_ratio_permillion: 0,
            cpu_user_usage_ratio_permillion: 0,
            cpu_sys_usage_ratio_permillion: 0,
            update_time: 0,
            cycles: 0,
            instructions: 0,
            ocr_read_drams: 0,
            store_ins: 0,
            store_all_ins: 0,
            imc_writes: 0,
        }
    }

    pub fn full_path(&self) -> (r: &str)
        ensures
            r@ == self.full_path@,
    {
        self.full_path.as_str()
    }

    /// Read one `cpu.stat` text: the counters are replaced, and once a
    /// previous sample exists the usage ratios are the counter deltas over
    /// the elapsed microseconds, in millionths.
    pub fn update_cpu_stat(&mut self, contents: &str, now: u64)
        ensures
            ({
                let stats = spec_cpu_stats_v2_of(spec_cgroup_file(contents@), now);
                let prev = old(self).cpu_stats;
                if prev.update_time == 0 {
                    *final(self) == (CpuCGroupV2 { cpu_stats: stats, ..*old(self) })
                } else {
                    let dt = spec_delta_usec(prev.update_time, now);
                    *final(self) == (CpuCGroupV2 {
                        cpu_stats: stats,
                        cpu_usage_ratio_permillion: spec_frac_permillion(
                            spec_counter_delta(prev.usage_usec, stats.usage_usec) as u64,
                            dt,
                        ) as u64,
                        cpu_user_usage_ratio_permillion: spec_frac_permillion(
                            spec_counter_delta(prev.user_usec, stats.user_usec) as u64,
                            dt,
                        ) as u64,
                        cpu_sys_usage_ratio_permillion: spec_frac_permillion(
                            spec_counter_delta(prev.system_usec, stats.system_usec) as u64,
                            dt,
                        ) as u64,
                        ..*old(self)
                    })
                }
            }),
    {
        let prev = self.cpu_stats;
        let m = parse_cgroup_file(contents);
        proof {
            reveal_strlit("usage_usec");
            reveal_strlit("user_usec");
            reveal_strlit("system_usec");
            reveal_strlit("nr_periods");
            reveal_strlit("nr_throttled");
            reveal_strlit("throttled_usec");
        }
        self.cpu_stats = CpuStatsV2 {
            usage_usec: get_or(&m, "usage_usec", 0),
            user_usec: get_or(&m, "user_usec", 0),
            system_usec: get_or(&m, "system_usec", 0),
            nr_periods: get_or(&m, "nr_periods", 0),
            nr_throttled: get_or(&m, "nr_throttled", 0),
            throttled_usec: get_or(&m, "throttled_usec", 0),
            update_time: now,
        };
        if prev.update_time == 0 {
            return ;
        }
        let d = counter_delta(prev.update_time, now);
        let wide: u128 = (d as u128) * 1_000_000;
        let dt: u64 = if wide > u64::MAX as u128 {
            u64::MAX
        } else {
            wide as u64
        };
        self.cpu_usage_ratio_permillion = frac_permillion(
            counter_delta(prev.usage_usec, self.cpu_stats.usage_usec),
            dt,
        );
        self.cpu_user_usage_ratio_permillion = frac_permillion(
            counter_delta(prev.user_usec, self.cpu_stats.user_usec),
            dt,
        );
        self.cpu_sys_usage_ratio_permillion = frac_permillion(
            counter_delta(prev.system_usec, self.cpu_stats.system_usec),
            dt,
        );
    }

    /// Read the three single-value bandwidth files; an unreadable file
    /// leaves its field unset.
    pub fn update_cpu_distribution_setting(
        &mut self,
        weight_line: Option<&str>,
        weight_nice_line: Option<&str>,
        max_burst_line: Option<&str>,
    )
        ensures
            *final(self) == (CpuCGroupV2 {
                weight: (match weight_line {
                    Some(l) => spec_cgroup_value(l@),
                    None => None,
                }),
                weight_nice: (match weight_nice_line {
                    Some(l) => spec_cgroup_value(l@),
                    None => None,
                }),
                max_burst: (match max_burst_line {
                    Some(l) => spec_cgroup_value(l@),
                    None => None,
                }),
                ..*old(self)
            }),
    {
        self.weight = match weight_line {
            Some(l) => parse_cgroup_value(l),
            None => None,
        };
        self.weight_nice = match weight_nice_line {
            Some(l) => parse_cgroup_value(l),
            None => None,
        };
        self.max_burst = match max_burst_line {
            Some(l) => parse_cgroup_value(l),
            None => None,
        };
    }

    /// The quota one `cpu.max` line carries: the literal `max` or a number,
    /// an unparsable token read as zero.
    pub open spec fn spec_cpu_max_of(line: Seq<char>) -> (Option<u64>, Option<u64>) {
        let toks = spec_split_ws(line);
        let quota: Option<u64> = if toks.len() >= 1 {
            if toks[0] == "max"@ {
                Some(u64::MAX)
            } else {
                match spec_parse_u64(toks[0]) {
                    Some(v) => Some(v),
                    None => Some(0),
                }
            }
        } else {
            None
        };
        let period: Option<u64> = if toks.len() >= 2 {
            match spec_parse_u64(toks[1]) {
                Some(v) => Some(v),
                None => Some(0),
            }
        } else {
            None
        };
        (quota, period)
    }

    /// Read one `cpu.max` line; when the file could not be read at all the
    /// kernel defaults (no limit, a tenth of a second) are assumed.
    pub fn update_cpu_max(&mut self, line: Option<&str>)
        ensures
            *final(self) == (match line {
                Some(l) => {
                    let parsed = CpuCGroupV2::spec_cpu_max_of(l@);
                    CpuCGroupV2 {
                        max: (match parsed.0 {
                            Some(v) => Some(v),
                            None => old(self).max,
                        }),
                        max_period: (match parsed.1 {
                            Some(v) => Some(v),
                            None => old(self).max_period,
                        }),
                        ..*old(self)
                    }
                },
                None => CpuCGroupV2 { max: Some(u64::MAX), max_period: Some(100000u64), ..*old(self) },
            }),
    {
        match line {
            Some(l) => {
                let toks = split_ws_str(l);
                if toks.len() >= 1 {
                    proof {
                        assert(toks.deep_view()[0] == toks@[0]@);
                        reveal_strlit("max");
                    }
                    if str_eq_str(toks[0].as_str(), "max") {
                        self.max = Some(u64::MAX);
                    } else {
                        self.max = Some(
                            match parse_u64_str(toks[0].as_str()) {
                                Some(v) => v,
                                None => 0,
                            },
                        );
                    }
                }
                if toks.len() >= 2 {
                    proof {
                        assert(toks.deep_view()[1] == toks@[1]@);
                    }
                    self.max_period = Some(
                        match parse_u64_str(toks[1].as_str()) {
                            Some(v) => v,
                            None => 0,
                        },
                    );
                }
            },
            None => {
                self.max = Some(u64::MAX);
                self.max_period = Some(100000);
            },
        }
    }

    /// Read one `cpu.pressure` text.
    pub fn update_cpu_pressure(&mut self, contents: &str)
        ensures
            *final(self) == (CpuCGroupV2 {
                cpu_pressure: PressureStallInfo::spec_from_text(contents@),
                ..*old(self)
            }),
    {
        self.cpu_pressure = PressureStallInfo::from(contents);
    }

    /// Feed one backend task-state report into the cgroup's load average:
    /// the runnable and uninterruptible counts (clamped to the range one
    /// decay step accepts) drive the decay channels.
    pub fn update_cgroup_load(&mut self, task_nr: TaskNrData)
        requires
            old(self).wf(),
        ensures
            final(self).wf(),
            final(self).task_nr_iowait == task_nr.nr_iowait,
            final(self).task_nr_unint == task_nr.nr_unint,
            final(self).task_nr_runnable == task_nr.nr_runnable,
            final(self).load is Some,
            spec_load_calc(
                (match old(self).load {
                    Some(l) => l,
                    None => LoadAvg::spec_new(),
                }),
                final(self).load.unwrap(),
                spec_clamped_active(task_nr.nr_unint, task_nr.nr_runnable),
            ),
            *final(self) == (CpuCGroupV2 {
                task_nr_iowait: task_nr.nr_iowait,
                task_nr_unint: task_nr.nr_unint,
                task_nr_runnable: task_nr.nr_runnable,
                load: final(self).load,
                ..*old(self)
            }),
    {
        self.task_nr_iowait = task_nr.nr_iowait;
        self.task_nr_unint = task_nr.nr_unint;
        self.task_nr_runnable = task_nr.nr_runnable;
        let mut load = match self.load {
            Some(l) => l,
            None => LoadAvg::new(),
        };
        let wide: u128 = (self.task_nr_unint as u128) + (self.task_nr_runnable as u128);
        let active: u64 = if wide > ACTIVE_MAX as u128 {
            ACTIVE_MAX
        } else {
            wide as u64
        };
        load.calc_load(active);
        self.load = Some(load);
    }

    /// Take one backend PMU report.
    pub fn update_cgroup_pmu(&mut self, pmu: PmuData)
        ensures
            *final(self) == (CpuCGroupV2 {
                cycles: pmu.cycles,
                instructions: pmu.instructions,
                ocr_read_drams: pmu.ocr_read_drams,
                store_ins: pmu.store_ins,
                store_all_ins: pmu.store_all_ins,
                imc_writes: pmu.imc_writes,
                ..*old(self)
            }),
    {
        self.cycles = pmu.cycles;
        self.instructions = pmu.instructions;
        self.ocr_read_drams = pmu.ocr_read_drams;
        self.store_ins = pmu.store_ins;
        self.store_all_ins = pmu.store_all_ins;
        self.imc_writes = pmu.imc_writes;
    }

    /// One full poll: each file that could be read feeds its fields, a
    /// missing file leaves them (`cpu.max` falls back to the kernel
    /// defaults); see `spec_cpu_v2_updated` for the field-by-field account.
    pub fn update(
        &mut self,
        cpu_stat: Option<&str>,
        weight_line: Option<&str>,
        weight_nice_line: Option<&str>,
        max_burst_line: Option<&str>,
        cpu_max_line: Option<&str>,
        cpu_pressure: Option<&str>,
        now: u64,
    )
        ensures
            spec_cpu_v2_updated(
                *old(self),
                *final(self),
                spec_text_of(cpu_stat),
                spec_text_of(weight_line),
                spec_text_of(weight_nice_line),
                spec_text_of(max_burst_line),
                spec_text_of(cpu_max_line),
                spec_text_of(cpu_pressure),
                now,
            ),
    {
        match cpu_stat {
            Some(c) => self.update_cpu_stat(c, now),
            None => {},
        }
        self.update_cpu_distribution_setting(weight_line, weight_nice_line, max_burst_line);
        self.update_cpu_max(cpu_max_line);
        match cpu_pressure {
            Some(c) => self.update_cpu_pressure(c),
            None => {},
        }
    }

    /// The fast-path poll: each report is taken only when its module's
    /// capability bit is set; see `spec_cpu_v2_ebpf_updated`.
    pub fn update_ebpf(&mut self, bpf_mask: u64, task_nr: TaskNrData, pmu: PmuData)
        requires
            old(self).wf(),
        ensures
            final(self).wf(),
            spec_cpu_v2_ebpf_updated(*old(self), *final(self), bpf_mask, task_nr, pmu),
    {
        if crate::bpf::is_bpf_moudule_valid(bpf_mask, BPF_MODULE_CGROUP_SCHED) {
            self.update_cgroup_load(task_nr);
        }
        if crate::bpf::is_bpf_moudule_valid(bpf_mask, BPF_MODULE_CGROUP_PMU) {
            self.update_cgroup_pmu(pmu);
        }
    }

    /// Administrative reset: back to the just-created state, keeping the
    /// identity, stamped with the reset time; see `spec_cpu_v2_reset`.
    pub fn reset(&mut self, now: u64)
        ensures
            final(self).wf(),
            spec_cpu_v2_reset(*old(self), *final(self), now),
    {
        let full_path = self.full_path.clone();
        let user_path = self.user_path.clone();
        *self = CpuCGroupV2::new(full_path, user_path);
        self.update_time = now;
    }
}

impl CpuStatsV2 {
    pub open spec fn spec_zero() -> CpuStatsV2 {
        CpuStatsV2 {
            usage_usec: 0,
            user_usec: 0,
            system_usec: 0,
            nr_periods: 0,
            nr_throttled: 0,
            throttled_usec: 0,
            update_time: 0,
        }
    }
}

/// The v1 CPU cgroup.
#[derive(Clone, Debug)]
pub struct CpuCGroupV1 {
    pub full_path: String,
    pub user_path: String,
    pub cfs_quota_us: i64,
    pub cfs_period_us: u64,
    pub cpu_shares: u64,
    pub old_cpu_basic_info: CpuCGroupBasicInfo,
    pub new_cpu_basic_info: CpuCGroupBasicInfo,
    pub task_nr_iowait: u64,
    pub task_nr_unint: u64,
    pub task_nr_runnable: u64,
    /// Share of elapsed time spent running, in millionths.
    pub cpu_usage_ratio_permillion: u64,
    pub cpu_user_usage_ratio_permillion: u64,
    pub cpu_sys_usage_ratio_permillion: u64,
    pub percpu_usage: Vec<u64>,
    pub cpu_nr_throttled: Option<u64>,
    pub cpu_nr_periods: Option<u64>,
    pub cpu_throttled_time: Option<u64>,
    pub load: Option<LoadAvg>,
    pub update_time: u64,
    pub cycles: u64,
    pub instructions: u64,
    pub ocr_read_drams: u64,
    pub store_ins: u64,
    pub store_all_ins: u64,
    pub imc_writes: u64,
}

/// The saturating nanosecond span between two sample times in seconds.
pub open spec fn spec_delta_nsec(earlier: u64, later: u64) -> u64 {
    let d = spec_counter_delta(earlier, later);
    if d * 1_000_000_000 > u64::MAX {
        u64::MAX
    } else {
        (d * 1_000_000_000) as u64
    }
}

/// What one full v1 poll does, field by field: each single-value line
/// replaces its field when it parses, the usage triple (when all three
/// files were read) moves the previous sample aside and derives the three
/// ratios over the elapsed nanoseconds, `cpu.stat` sets the throttling
/// counters (unset when missing), `cpuacct.usage_percpu` replaces the
/// per-processor list when every token is numeric, the sample time is
/// recorded, and the identity, load, task counts and PMU counters are kept.
pub open spec fn spec_cpu_v1_updated(
    pre: CpuCGroupV1,
    post: CpuCGroupV1,
    period_line: Option<Seq<char>>,
    quota_line: Option<Seq<char>>,
    usage: Option<(u64, u64, u64)>,
    cpu_stat: Option<Seq<char>>,
    shares_line: Option<Seq<char>>,
    percpu: Option<Seq<char>>,
    now: u64,
) -> bool {
    &&& post.full_path@ == pre.full_path@
    &&& post.user_path@ == pre.user_path@
    &&& post.cfs_period_us == (match period_line {
        Some(l) => (match spec_parse_u64(l) {
            Some(v) => v,
            None => pre.cfs_period_us,
        }),
        None => pre.cfs_period_us,
    })
    &&& post.cfs_quota_us == (match quota_line {
        Some(l) => (match spec_parse_i64(l) {
            Some(v) => v,
            None => pre.cfs_quota_us,
        }),
        None => pre.cfs_quota_us,
    })
    &&& post.cpu_shares == (match shares_line {
        Some(l) => (match spec_parse_u64(l) {
            Some(v) => v,
            None => pre.cpu_shares,
        }),
        None => pre.cpu_shares,
    })
    &&& match usage {
        Some(u) => {
            let prev = pre.new_cpu_basic_info;
            let dt = spec_delta_nsec(prev.update_time, now);
            &&& post.old_cpu_basic_info == prev
            &&& post.new_cpu_basic_info == (CpuCGroupBasicInfo {
                cpu_usage: u.0,
                cpu_user_time: u.1,
                cpu_sys_time: u.2,
                update_time: now,
            })
            &&& post.cpu_usage_ratio_permillion == spec_frac_permillion(
                spec_counter_delta(prev.cpu_usage, u.0) as u64,
                dt,
            )
            &&& post.cpu_user_usage_ratio_permillion == spec_frac_permillion(
                spec_counter_delta(prev.cpu_user_time, u.1) as u64,
                dt,
            )
            &&& post.cpu_sys_usage_ratio_permillion == spec_frac_permillion(
                spec_counter_delta(prev.cpu_sys_time, u.2) as u64,
                dt,
            )
        },
        None => {
            &&& post.old_cpu_basic_info == pre.old_cpu_basic_info
            &&& post.new_cpu_basic_info == pre.new_cpu_basic_info
            &&& post.cpu_usage_ratio_permillion == pre.cpu_usage_ratio_permillion
            &&& post.cpu_user_usage_ratio_permillion == pre.cpu_user_usage_ratio_permillion
            &&& post.cpu_sys_usage_ratio_permillion == pre.cpu_sys_usage_ratio_permillion
        },
    }
    &&& match cpu_stat {
        Some(c) => {
            let m = spec_cgroup_file(c);
            &&& post.cpu_nr_throttled == spec_opt_get(m, "nr_throttled"@)
            &&& post.cpu_throttled_time == spec_opt_get(m, "throttled_time"@)
            &&& post.cpu_nr_periods == spec_opt_get(m, "nr_periods"@)
        },
        None => {
            &&& post.cpu_nr_throttled == pre.cpu_nr_throttled
            &&& post.cpu_throttled_time == pre.cpu_throttled_time
            &&& post.cpu_nr_periods == pre.cpu_nr_periods
        },
    }
    &&& match percpu {
        Some(c) => {
            let toks = spec_split_ws(c);
            if forall|j: int| 0 <= j < toks.len() ==> #[trigger] spec_parse_u64(toks[j]) is Some {
                &&& post.percpu_usage@.len() == toks.len()
                &&& forall|j: int|
                    0 <= j < toks.len() ==> post.percpu_usage@[j] == spec_parse_u64(
                        #[trigger] toks[j],
                    ).unwrap()
            } else {
                post.percpu_usage == pre.percpu_usage
            }
        },
        None => post.percpu_usage == pre.percpu_usage,
    }
    &&& post.update_time == now
    &&& post.load == pre.load
    &&& post.task_nr_iowait == pre.task_nr_iowait
    &&& post.task_nr_unint == pre.task_nr_unint
    &&& post.task_nr_runnable == pre.task_nr_runnable
    &&& post.cycles == pre.cycles
    &&& post.instructions == pre.instructions
    &&& post.ocr_read_drams == pre.ocr_read_drams
    &&& post.store_ins == pre.store_ins
    &&& post.store_all_ins == pre.store_all_ins
    &&& post.imc_writes == pre.imc_writes
}

/// What one fast-path poll does to a v1 record, gated exactly as the v2
/// one.
pub open spec fn spec_cpu_v1_ebpf_updated(
    pre: CpuCGroupV1,
    post: CpuCGroupV1,
    bpf_mask: u64,
    task_nr: TaskNrData,
    pmu: PmuData,
) -> bool {
    &&& if spec_module_valid(bpf_mask, BPF_MODULE_CGROUP_SCHED) {
        &&& post.task_nr_iowait == task_nr.nr_iowait
        &&& post.task_nr_unint == task_nr.nr_unint
        &&& post.task_nr_runnable == task_nr.nr_runnable
        &&& post.load is Some
        &&& spec_load_calc(
            (match pre.load {
                Some(l) => l,
                None => LoadAvg::spec_new(),
            }),
            post.load.unwrap(),
            spec_clamped_active(task_nr.nr_unint, task_nr.nr_runnable),
        )
    } else {
        &&& post.task_nr_iowait == pre.task_nr_iowait
        &&& post.task_nr_unint == pre.task_nr_unint
        &&& post.task_nr_runnable == pre.task_nr_runnable
        &&& post.load == pre.load
    }
    &&& if spec_module_valid(bpf_mask, BPF_MODULE_CGROUP_PMU) {
        post.cycles == pmu.cycles && post.instructions == pmu.instructions
            && post.ocr_read_drams == pmu.ocr_read_drams && post.store_ins == pmu.store_ins
            && post.store_all_ins == pmu.store_all_ins && post.imc_writes == pmu.imc_writes
    } else {
        post.cycles == pre.cycles && post.instructions == pre.instructions && post.ocr_read_drams
            == pre.ocr_read_drams && post.store_ins == pre.store_ins && post.store_all_ins
            == pre.store_all_ins && post.imc_writes == pre.imc_writes
    }
    &&& post.full_path@ == pre.full_path@
    &&& post.user_path@ == pre.user_path@
    &&& post.cfs_period_us == pre.cfs_period_us
    &&& post.cfs_quota_us == pre.cfs_quota_us
    &&& post.cpu_shares == pre.cpu_shares
    &&& post.old_cpu_basic_info == pre.old_cpu_basic_info
    &&& post.new_cpu_basic_info == pre.new_cpu_basic_info
    &&& post.cpu_usage_ratio_permillion == pre.cpu_usage_ratio_permillion
    &&& post.cpu_user_usage_ratio_permillion == pre.cpu_user_usage_ratio_permillion
    &&& post.cpu_sys_usage_ratio_permillion == pre.cpu_sys_usage_ratio_permillion
    &&& post.percpu_usage == pre.percpu_usage
    &&& post.cpu_nr_throttled == pre.cpu_nr_throttled
    &&& post.cpu_nr_periods == pre.cpu_nr_periods
    &&& post.cpu_throttled_time == pre.cpu_throttled_time
    &&& post.update_time == pre.update_time
}

/// A v1 record administratively reset: everything back at the just-created
/// defaults, the identity kept.
pub open spec fn spec_cpu_v1_reset(pre: CpuCGroupV1, post: CpuCGroupV1) -> bool {
    &&& post.full_path@ == pre.full_path@
    &&& post.user_path@ == pre.user_path@
    &&& post.cfs_quota_us == 0
    &&& post.cfs_period_us == 0
    &&& post.cpu_shares == 0
    &&& post.old_cpu_basic_info == CpuCGroupBasicInfo::spec_new()
    &&& post.new_cpu_basic_info == CpuCGroupBasicInfo::spec_new()
    &&& post.task_nr_iowait == 0
    &&& post.task_nr_unint == 0
    &&& post.task_nr_runnable == 0
    &&& post.cpu_usage_ratio_permillion == 0
    &&& post.cpu_user_usage_ratio_permillion == 0
    &&& post.cpu_sys_usage_ratio_permillion == 0
    &&& post.percpu_usage@.len() == 0
    &&& post.cpu_nr_throttled is None
    &&& post.cpu_nr_periods is None
    &&& post.cpu_throttled_time is None
    &&& post.load is None
    &&& post.update_time == 0
    &&& post.cycles == 0
    &&& post.instructions == 0
    &&& post.ocr_read_drams == 0
    &&& post.store_ins == 0
    &&& post.store_all_ins == 0
    &&& post.imc_writes == 0
}

impl CpuCGroupV1 {
    pub open spec fn wf(&self) -> bool {
        match self.load {
            Some(l) => l.wf(),
            None => true,
        }
    }

    pub fn new(full_path: String, user_path: String) -> (r: CpuCGroupV1)
        ensures
            r.wf(),
            r.full_path@ == full_path@,
            r.user_path@ == user_path@,
            r.cfs_quota_us == 0 && r.cfs_period_us == 0 && r.cpu_shares == 0,
            r.old_cpu_basic_info == CpuCGroupBasicInfo::spec_new(),
            r.new_cpu_basic_info == CpuCGroupBasicInfo::spec_new(),
            r.task_nr_iowait == 0 && r.task_nr_unint == 0 && r.task_nr_runnable == 0,
            r.cpu_usage_ratio_permillion == 0 && r.cpu_user_usage_ratio_permillion == 0
                && r.cpu_sys_usage_ratio_permillion == 0,
            r.percpu_usage@.len() == 0,
            r.cpu_nr_throttled is None && r.cpu_nr_periods is None && r.cpu_throttled_time is None,
            r.load is None,
            r.update_time == 0,
            r.cycles == 0 && r.instructions == 0 && r.ocr_read_drams == 0 && r.store_ins == 0
                && r.store_all_ins == 0 && r.imc_writes == 0,
    {
        CpuCGroupV1 {
            full_path,
            user_path,
            cfs_quota_us: 0,
            cfs_period_us: 0,
            cpu_shares: 0,
            old_cpu_basic_info: CpuCGroupBasicInfo::new(),
            new_cpu_basic_info: CpuCGroupBasicInfo::new(),
            task_nr_iowait: 0,
            task_nr_unint: 0,
            task_nr_runnable: 0,
            cpu_usage_ratio_permillion: 0,
            cpu_user_usage_ratio_permillion: 0,
            cpu_sys_usage_ratio_permillion: 0,
            percpu_usage: Vec::new(),
            cpu_nr_throttled: None,
            cpu_nr_periods: None,
            cpu_throttled_time: None,
            load: None,
            update_time: 0,
            cycles: 0,
            instructions: 0,
            ocr_read_drams: 0,
            store_ins: 0,
            store_all_ins: 0,
            imc_writes: 0,
        }
    }

    pub fn full_path(&self) -> (r: &str)
        ensures
            r@ == self.full_path@,
    {
        self.full_path.as_str()
    }

    /// Read one v1 `cpu.stat` text: the throttling counters take the values
    /// the file gives, and are unset when missing.
    pub fn update_cpu_stat(&mut self, contents: &str)
        ensures
            ({
                let m = spec_cgroup_file(contents@);
                *final(self) == (CpuCGroupV1 {
                    cpu_nr_throttled: (if m.contains_key("nr_throttled"@) {
                        Some(m["nr_throttled"@])
                    } else {
                        None::<u64>
                    }),
                    cpu_throttled_time: (if m.contains_key("throttled_time"@) {
                        Some(m["throttled_time"@])
                    } else {
                        None::<u64>
                    }),
                    cpu_nr_periods: (if m.contains_key("nr_periods"@) {
                        Some(m["nr_periods"@])
                    } else {
                        None::<u64>
                    }),
                    ..*old(self)
                })
            }),
    {
        let m = parse_cgroup_file(contents);
        proof {
            reveal_strlit("nr_throttled");
            reveal_strlit("throttled_time");
            reveal_strlit("nr_periods");
        }
        self.cpu_nr_throttled = match m.get("nr_throttled") {
            Some(v) => Some(*v),
            None => None,
        };
        self.cpu_throttled_time = match m.get("throttled_time") {
            Some(v) => Some(*v),
            None => None,
        };
        self.cpu_nr_periods = match m.get("nr_periods") {
            Some(v) => Some(*v),
            None => None,
        };
    }

    /// Take one read of the three `cpuacct` counters: the previous read is
    /// kept, and once one exists the usage ratios are the counter deltas
    /// over the elapsed nanoseconds, in millionths.
    pub fn update_cpu_basic_info(&mut self, cpu_usage: u64, cpu_usage_user: u64,
        cpu_usage_sys: u64, now: u64)
        ensures
            final(self).old_cpu_basic_info == old(self).new_cpu_basic_info,
            final(self).new_cpu_basic_info == (CpuCGroupBasicInfo {
                cpu_usage,
                cpu_user_time: cpu_usage_user,
                cpu_sys_time: cpu_usage_sys,
                update_time: now,
            }),
            ({
                let prev = old(self).new_cpu_basic_info;
                let dt = spec_delta_nsec(prev.update_time, now);
                *final(self) == (CpuCGroupV1 {
                    old_cpu_basic_info: prev,
                    new_cpu_basic_info: final(self).new_cpu_basic_info,
                    cpu_usage_ratio_permillion: spec_frac_permillion(
                        spec_counter_delta(prev.cpu_usage, cpu_usage) as u64,
                        dt,
                    ) as u64,
                    cpu_user_usage_ratio_permillion: spec_frac_permillion(
                        spec_counter_delta(prev.cpu_user_time, cpu_usage_user) as u64,
                        dt,
                    ) as u64,
                    cpu_sys_usage_ratio_permillion: spec_frac_permillion(
                        spec_counter_delta(prev.cpu_sys_time, cpu_usage_sys) as u64,
                        dt,
                    ) as u64,
                    ..*old(self)
                })
            }),
    {
        let prev = self.new_cpu_basic_info;
        self.old_cpu_basic_info = prev;
        self.new_cpu_basic_info.update(cpu_usage, cpu_usage_user, cpu_usage_sys, now);
        let d = counter_delta(prev.update_time, now);
        let wide: u128 = (d as u128) * 1_000_000_000;
        let dt: u64 = if wide > u64::MAX as u128 {
            u64::MAX
        } else {
            wide as u64
        };
        self.cpu_usage_ratio_permillion = frac_permillion(
            counter_delta(prev.cpu_usage, cpu_usage),
            dt,
        );
        self.cpu_user_usage_ratio_permillion = frac_permillion(
            counter_delta(prev.cpu_user_time, cpu_usage_user),
            dt,
        );
        self.cpu_sys_usage_ratio_permillion = frac_permillion(
            counter_delta(prev.cpu_sys_time, cpu_usage_sys),
            dt,
        );
    }

    /// Read one `cpu.cfs_period_us` line; a non-numeric line changes
    /// nothing.
    pub fn update_period_us(&mut self, line: &str)
        ensures
            *final(self) == (match spec_parse_u64(line@) {
                Some(v) => CpuCGroupV1 { cfs_period_us: v, ..*old(self) },
                None => *old(self),
            }),
    {
        match parse_u64_str(line) {
            Some(v) => {
                self.cfs_period_us = v;
            },
            None => {},
        }
    }

    /// Read one `cpu.cfs_quota_us` line; the quota may be negative
    /// (unlimited).
    pub fn update_quota_us(&mut self, line: &str)
        ensures
            *final(self) == (match spec_parse_i64(line@) {
                Some(v) => CpuCGroupV1 { cfs_quota_us: v, ..*old(self) },
                None => *old(self),
            }),
    {
        match parse_i64_str(line) {
            Some(v) => {
                self.cfs_quota_us = v;
            },
            None => {},
        }
    }

    /// Read one `cpu.shares` line; a non-numeric line changes nothing.
    pub fn update_cpu_shares(&mut self, line: &str)
        ensures
            *final(self) == (match spec_parse_u64(line@) {
                Some(v) => CpuCGroupV1 { cpu_shares: v, ..*old(self) },
                None => *old(self),
            }),
    {
        match parse_u64_str(line) {
            Some(v) => {
                self.cpu_shares = v;
            },
            None => {},
        }
    }

    /// Feed one backend task-state report into the cgroup's load average:
    /// the runnable and uninterruptible counts (clamped to the range one
    /// decay step accepts) drive the decay channels.
    pub fn update_cgroup_load(&mut self, task_nr: TaskNrData)
        requires
            old(self).wf(),
        ensures
            final(self).wf(),
            final(self).task_nr_iowait == task_nr.nr_iowait,
            final(self).task_nr_unint == task_nr.nr_unint,
            final(self).task_nr_runnable == task_nr.nr_runnable,
            final(self).load is Some,
            spec_load_calc(
                (match old(self).load {
                    Some(l) => l,
                    None => LoadAvg::spec_new(),
                }),
                final(self).load.unwrap(),
                spec_clamped_active(task_nr.nr_unint, task_nr.nr_runnable),
            ),
            *final(self) == (CpuCGroupV1 {
                task_nr_iowait: task_nr.nr_iowait,
                task_nr_unint: task_nr.nr_unint,
                task_nr_runnable: task_nr.nr_runnable,
                load: final(self).load,
                ..*old(self)
            }),
    {
        self.task_nr_iowait = task_nr.nr_iowait;
        self.task_nr_unint = task_nr.nr_unint;
        self.task_nr_runnable = task_nr.nr_runnable;
        let mut load = match self.load {
            Some(l) => l,
            None => LoadAvg::new(),
        };
        let wide: u128 = (self.task_nr_unint as u128) + (self.task_nr_runnable as u128);
        let active: u64 = if wide > ACTIVE_MAX as u128 {
            ACTIVE_MAX
        } else {
            wide as u64
        };
        load.calc_load(active);
        self.load = Some(load);
    }

    /// Take one backend PMU report.
    pub fn update_cgroup_pmu(&mut self, pmu: PmuData)
        ensures
            *final(self) == (CpuCGroupV1 {
                cycles: pmu.cycles,
                instructions: pmu.instructions,
                ocr_read_drams: pmu.ocr_read_drams,
                store_ins: pmu.store_ins,
                store_all_ins: pmu.store_all_ins,
                imc_writes: pmu.imc_writes,
                ..*old(self)
            }),
    {
        self.cycles = pmu.cycles;
        self.instructions = pmu.instructions;
        self.ocr_read_drams = pmu.ocr_read_drams;
        self.store_ins = pmu.store_ins;
        self.store_all_ins = pmu.store_all_ins;
        self.imc_writes = pmu.imc_writes;
    }

    /// Read one `cpuacct.usage_percpu` text: if every token is numeric the
    /// per-processor list is replaced, otherwise it is left alone.
    pub fn update_percpu_usage(&mut self, contents: &str)
        ensures
            ({
                let toks = spec_split_ws(contents@);
                if forall|j: int| 0 <= j < toks.len() ==> #[trigger] spec_parse_u64(toks[j])
                    is Some {
                    &&& final(self).percpu_usage@.len() == toks.len()
                    &&& forall|j: int|
                        0 <= j < toks.len() ==> final(self).percpu_usage@[j] == spec_parse_u64(
                            #[trigger] toks[j],
                        ).unwrap()
                    &&& *final(self) == (CpuCGroupV1 {
                        percpu_usage: final(self).percpu_usage,
                        ..*old(self)
                    })
                } else {
                    *final(self) == *old(self)
                }
            }),
    {
        let toks = split_ws_str(contents);
        let n = toks.len();
        let mut vals: Vec<u64> = Vec::new();
        let mut ok = true;
        let mut j: usize = 0;
        while j < n
            invariant
                n == toks@.len(),
                j <= n,
                toks.deep_view() == spec_split_ws(contents@),
                ok ==> vals@.len() == j,
                ok ==> forall|k: int|
                    0 <= k < j ==> #[trigger] spec_parse_u64(toks.deep_view()[k]) is Some
                        && vals@[k] == spec_parse_u64(toks.deep_view()[k]).unwrap(),
                !ok ==> exists|k: int|
                    0 <= k < n && #[trigger] spec_parse_u64(toks.deep_view()[k]) is None,
            decreases n - j,
        {
            proof {
                assert(toks.deep_view()[j as int] == toks@[j as int]@);
            }
            match parse_u64_str(toks[j].as_str()) {
                Some(v) => {
                    if ok {
                        vals.push(v);
                    }
                },
                None => {
                    ok = false;
                },
            }
            j = j + 1;
        }
        if ok {
            self.percpu_usage = vals;
        }
    }

    /// One full poll: each file that could be read feeds its fields, a
    /// missing or unparsable one leaves them; the sample time is recorded.
    /// See `spec_cpu_v1_updated` for the field-by-field account.
    pub fn update(
        &mut self,
        period_line: Option<&str>,
        quota_line: Option<&str>,
        usage: Option<(u64, u64, u64)>,
        cpu_stat: Option<&str>,
        shares_line: Option<&str>,
        percpu: Option<&str>,
        now: u64,
    )
        ensures
            final(self).wf() == old(self).wf(),
            spec_cpu_v1_updated(
                *old(self),
                *final(self),
                spec_text_of(period_line),
                spec_text_of(quota_line),
                usage,
                spec_text_of(cpu_stat),
                spec_text_of(shares_line),
                spec_text_of(percpu),
                now,
            ),
    {
        match period_line {
            Some(l) => self.update_period_us(l),
            None => {},
        }
        match quota_line {
            Some(l) => self.update_quota_us(l),
            None => {},
        }
        match usage {
            Some(u) => self.update_cpu_basic_info(u.0, u.1, u.2, now),
            None => {},
        }
        match cpu_stat {
            Some(c) => self.update_cpu_stat(c),
            None => {},
        }
        match shares_line {
            Some(l) => self.update_cpu_shares(l),
            None => {},
        }
        match percpu {
            Some(c) => self.update_percpu_usage(c),
            None => {},
        }
        self.update_time = now;
    }

    /// The fast-path poll: each report is taken only when its module's
    /// capability bit is set; see `spec_cpu_v1_ebpf_updated`.
    pub fn update_ebpf(&mut self, bpf_mask: u64, task_nr: TaskNrData, pmu: PmuData)
        requires
            old(self).wf(),
        ensures
            final(self).wf(),
            spec_cpu_v1_ebpf_updated(*old(self), *final(self), bpf_mask, task_nr, pmu),
    {
        if crate::bpf::is_bpf_moudule_valid(bpf_mask, BPF_MODULE_CGROUP_SCHED) {
            self.update_cgroup_load(task_nr);
        }
        if crate::bpf::is_bpf_moudule_valid(bpf_mask, BPF_MODULE_CGROUP_PMU) {
            self.update_cgroup_pmu(pmu);
        }
    }

    /// Administrative reset: back to the just-created state, keeping the
    /// identity; see `spec_cpu_v1_reset`.
    pub fn reset(&mut self)
        ensures
            final(self).wf(),
            spec_cpu_v1_reset(*old(self), *final(self)),
    {
        let full_path = self.full_path.clone();
        let user_path = self.user_path.clone();
        *self = CpuCGroupV1::new(full_path, user_path);
    }
}

/// The CPU-accounting cgroup in whichever layout the host runs.
#[derive(Clone, Debug)]
pub enum CpuCGroup {
    V1(CpuCGroupV1),
    V2(CpuCGroupV2),
}

/// The CPU record for `user_path`: v1 under the `cpuacct` subtree, v2
/// directly under the mount point.
pub fn new_cpu_cgroup(mount_point: &str, user_path: &str, cgroup_type: CGroupType) -> (r: CpuCGroup)
    ensures
        match r {
            CpuCGroup::V1(v1) => cgroup_type == CGroupType::V1 && v1.full_path@ == mount_point@
                + "/"@ + "cpuacct"@ + "/"@ + user_path@ && v1.user_path@ == user_path@ && v1.wf(),
            CpuCGroup::V2(v2) => cgroup_type == CGroupType::V2 && v2.full_path@ == mount_point@
                + "/"@ + user_path@ && v2.user_path@ == user_path@ && v2.wf(),
        },
{
    match cgroup_type {
        CGroupType::V1 => CpuCGroup::V1(
            CpuCGroupV1::new(join3(mount_point, "cpuacct", user_path), String::from_str(user_path)),
        ),
        CGroupType::V2 => CpuCGroup::V2(
            CpuCGroupV2::new(join2(mount_point, user_path), String::from_str(user_path)),
        ),
    }
}

impl CpuCGroup {
    pub open spec fn wf(&self) -> bool {
        match *self {
            CpuCGroup::V1(v1) => v1.wf(),
            CpuCGroup::V2(v2) => v2.wf(),
        }
    }

    pub fn full_path(&self) -> (r: &str)
        ensures
            r@ == (match *self {
                CpuCGroup::V1(v1) => v1.full_path@,
                CpuCGroup::V2(v2) => v2.full_path@,
            }),
    {
        match self {
            CpuCGroup::V1(v1) => v1.full_path(),
            CpuCGroup::V2(v2) => v2.full_path(),
        }
    }

    /// The fast-path poll of whichever layout is live.
    pub fn update_ebpf(&mut self, bpf_mask: u64, task_nr: TaskNrData, pmu: PmuData)
        requires
            old(self).wf(),
        ensures
            final(self).wf(),
            (*final(self)) is V1 == (*old(self)) is V1,
    {
        match self {
            CpuCGroup::V1(v1) => v1.update_ebpf(bpf_mask, task_nr, pmu),
            CpuCGroup::V2(v2) => v2.update_ebpf(bpf_mask, task_nr, pmu),
        }
    }

    pub fn reset(&mut self)
        requires
            old(self).wf(),
        ensures
            final(self).wf(),
            (*final(self)) is V1 == (*old(self)) is V1,
            match *final(self) {
                CpuCGroup::V1(v1) => v1.load is None && v1.new_cpu_basic_info
                    == CpuCGroupBasicInfo::spec_new(),
                CpuCGroup::V2(v2) => v2.load is None && v2.cpu_stats == CpuStatsV2::spec_zero(),
            },
    {
        match self {
            CpuCGroup::V1(v1) => v1.reset(),
            CpuCGroup::V2(v2) => v2.reset(0),
        }
    }
}

} // verus!
