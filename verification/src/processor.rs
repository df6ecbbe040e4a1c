//! Per-processor counters from `/proc/stat` and `/proc/schedstat`, the
//! derived utilisation ratios, and the node-list notation (`1-4,6`) used
//! by cpuset and NUMA files.

use vstd::prelude::*;

use crate::kvmap::KvMap;
use crate::rate::{
    counter_delta, counter_rate, ratio_permyriad, spec_counter_delta, spec_counter_rate,
    spec_ratio_permyriad,
};
use crate::text::{
    parse_u64_str, spec_parse_u64, spec_split, spec_split_ws, split_str, split_ws_str,
    str_eq_str, str_starts_with,
};

verus! {

/// One `cpu` line of `/proc/stat`: time spent in each state, in jiffies.
#[derive(Clone, Copy, Debug, PartialEq, Eq, Structural, Default)]
pub struct ProcessorInfo {
    pub user: u64,
    pub nice: u64,
    pub system: u64,
    pub idle: u64,
    pub iowait: u64,
    pub irq: u64,
    pub softirq: u64,
    pub steal: u64,
    pub guest: u64,
    pub guest_nice: u64,
}

/// Time spent doing work: everything but idle and iowait. `guest` and
/// `guest_nice` are already included in `user` and `nice`.
pub open spec fn spec_work_time(p: ProcessorInfo) -> int {
    p.user + p.nice + p.system + p.irq + p.softirq + p.steal
}

/// Time spent in the kernel.
pub open spec fn spec_sys_time(p: ProcessorInfo) -> int {
    p.system + p.irq + p.softirq
}

/// All accounted time.
pub open spec fn spec_total_time(p: ProcessorInfo) -> int {
    spec_work_time(p) + p.idle + p.iowait
}

/// The counters fit their sums: all derived times stay in range.
pub open spec fn spec_info_wf(p: ProcessorInfo) -> bool {
    spec_total_time(p) <= u64::MAX
}

/// Field-wise wrapped difference of two reads of one processor's counters.
pub open spec fn spec_info_delta(earlier: ProcessorInfo, later: ProcessorInfo) -> ProcessorInfo {
    ProcessorInfo {
        user: spec_counter_delta(earlier.user, later.user) as u64,
        nice: spec_counter_delta(earlier.nice, later.nice) as u64,
        system: spec_counter_delta(earlier.system, later.system) as u64,
        idle: spec_counter_delta(earlier.idle, later.idle) as u64,
        iowait: spec_counter_delta(earlier.iowait, later.iowait) as u64,
        irq: spec_counter_delta(earlier.irq, later.irq) as u64,
        softirq: spec_counter_delta(earlier.softirq, later.softirq) as u64,
        steal: spec_counter_delta(earlier.steal, later.steal) as u64,
        guest: spec_counter_delta(earlier.guest, later.guest) as u64,
        guest_nice: spec_counter_delta(earlier.guest_nice, later.guest_nice) as u64,
    }
}

impl ProcessorInfo {
    pub fn set(&mut self, p: &ProcessorInfo)
        ensures
            *final(self) == *p,
    {
        self.user = p.user;
        self.nice = p.nice;
        self.system = p.system;
        self.idle = p.idle;
        self.iowait = p.iowait;
        self.irq = p.irq;
        self.softirq = p.softirq;
        self.steal = p.steal;
        self.guest = p.guest;
        self.guest_nice = p.guest_nice;
    }

    /// Return work time.
    pub fn work_time(&self) -> (r: u64)
        requires
            spec_work_time(*self) <= u64::MAX,
        ensures
            r == spec_work_time(*self),
    {
        self.user + self.nice + self.system + self.irq + self.softirq + self.steal
    }

    /// Return sys time.
    pub fn sys_time(&self) -> (r: u64)
        requires
            spec_sys_time(*self) <= u64::MAX,
        ensures
            r == spec_sys_time(*self),
    {
        self.system + self.irq + self.softirq
    }

    /// Return total time.
    pub fn total_time(&self) -> (r: u64)
        requires
            spec_info_wf(*self),
        ensures
            r == spec_total_time(*self),
    {
        self.work_time() + self.idle + self.iowait
    }

    /// Field-wise wrapped difference from an earlier read.
    pub fn delta_from(&self, earlier: &ProcessorInfo) -> (r: ProcessorInfo)
        ensures
            r == spec_info_delta(*earlier, *self),
    {
        ProcessorInfo {
            user: counter_delta(earlier.user, self.user),
            nice: counter_delta(earlier.nice, self.nice),
            system: counter_delta(earlier.system, self.system),
            idle: counter_delta(earlier.idle, self.idle),
            iowait: counter_delta(earlier.iowait, self.iowait),
            irq: counter_delta(earlier.irq, self.irq),
            softirq: counter_delta(earlier.softirq, self.softirq),
            steal: counter_delta(earlier.steal, self.steal),
            guest: counter_delta(earlier.guest, self.guest),
            guest_nice: counter_delta(earlier.guest_nice, self.guest_nice),
        }
    }
}

/// The scheduler-wait counter of one processor, with its sample time.
#[derive(Clone, Copy, Debug, PartialEq, Eq, Structural, Default)]
pub struct ProcessorSchedStatData {
    pub sched_wait_data: u64,
    pub last_update_time: u64,
}

impl ProcessorSchedStatData {
    pub fn update(&mut self, sched_wait: u64, now: u64)
        ensures
            *final(self) == (ProcessorSchedStatData {
                sched_wait_data: sched_wait,
                last_update_time: now,
            }),
    {
        self.sched_wait_data = sched_wait;
        self.last_update_time = now;
    }
}

/// Cycles-per-instruction figures for one processor, each in micro-units
/// (the reported value times one million, rounded).
#[derive(Clone, Copy, Debug, PartialEq, Eq, Structural, Default)]
pub struct ProcessorCPIData {
    pub cpi: u64,
    pub instructions: u64,
    pub cycles: u64,
    pub l3_misses: u64,
    pub utilization: u64,
}

impl ProcessorCPIData {
    pub fn update(&mut self, cpi: u64, instructions: u64, cycles: u64, l3_misses: u64,
        utilization: u64)
        ensures
            *final(self) == (ProcessorCPIData { cpi, instructions, cycles, l3_misses, utilization }),
    {
        self.cpi = cpi;
        self.instructions = instructions;
        self.cycles = cycles;
        self.l3_misses = l3_misses;
        self.utilization = utilization;
    }
}

/// One processor's samples and derived ratios.
#[derive(Clone, Debug)]
pub struct Processor {
    pub name: String,
    pub old_processor_info: ProcessorInfo,
    pub new_processor_info: ProcessorInfo,
    pub delta_processor_info: ProcessorInfo,
    pub processor_sched_stat_info: ProcessorSchedStatData,
    pub processor_cpi_data: Option<ProcessorCPIData>,
    /// Scheduler wait accumulated per second, in nanoseconds.
    pub sched_wait_ns_per_sec: u64,
    /// Work share of total time, in hundredths of a percent.
    pub cpu_usage_permyriad: u64,
    /// Kernel share of total time, in hundredths of a percent.
    pub cpu_sys_usage_permyriad: u64,
    /// Iowait share of total time, in parts per billion.
    pub iowait_ratio_per_billion: u64,
    pub total_time: u64,
    pub old_total_time: u64,
}

/// The mathematical value of one processor record.
#[verifier::ext_equal]
pub struct ProcessorView {
    pub name: Seq<char>,
    pub old_processor_info: ProcessorInfo,
    pub new_processor_info: ProcessorInfo,
    pub delta_processor_info: ProcessorInfo,
    pub processor_sched_stat_info: ProcessorSchedStatData,
    pub processor_cpi_data: Option<ProcessorCPIData>,
    pub sched_wait_ns_per_sec: u64,
    pub cpu_usage_permyriad: u64,
    pub cpu_sys_usage_permyriad: u64,
    pub iowait_ratio_per_billion: u64,
    pub total_time: u64,
    pub old_total_time: u64,
}

impl View for Processor {
    type V = ProcessorView;

    open spec fn view(&self) -> ProcessorView {
        ProcessorView {
            name: self.name@,
            old_processor_info: self.old_processor_info,
            new_processor_info: self.new_processor_info,
            delta_processor_info: self.delta_processor_info,
            processor_sched_stat_info: self.processor_sched_stat_info,
            processor_cpi_data: self.processor_cpi_data,
            sched_wait_ns_per_sec: self.sched_wait_ns_per_sec,
            cpu_usage_permyriad: self.cpu_usage_permyriad,
            cpu_sys_usage_permyriad: self.cpu_sys_usage_permyriad,
            iowait_ratio_per_billion: self.iowait_ratio_per_billion,
            total_time: self.total_time,
            old_total_time: self.old_total_time,
        }
    }
}

/// A fresh record for a processor called `name`.
pub open spec fn spec_processor_new(name: Seq<char>) -> ProcessorView {
    ProcessorView {
        name,
        old_processor_info: ProcessorInfo {
            user: 0,
            nice: 0,
            system: 0,
            idle: 0,
            iowait: 0,
            irq: 0,
            softirq: 0,
            steal: 0,
            guest: 0,
            guest_nice: 0,
        },
        new_processor_info: ProcessorInfo {
            user: 0,
            nice: 0,
            system: 0,
            idle: 0,
            iowait: 0,
            irq: 0,
            softirq: 0,
            steal: 0,
            guest: 0,
            guest_nice: 0,
        },
        delta_processor_info: ProcessorInfo {
            user: 0,
            nice: 0,
            system: 0,
            idle: 0,
            iowait: 0,
            irq: 0,
            softirq: 0,
            steal: 0,
            guest: 0,
            guest_nice: 0,
        },
        processor_sched_stat_info: ProcessorSchedStatData {
            sched_wait_data: 0,
            last_update_time: 0,
        },
        processor_cpi_data: None,
        sched_wait_ns_per_sec: 0,
        cpu_usage_permyriad: 0,
        cpu_sys_usage_permyriad: 0,
        iowait_ratio_per_billion: 0,
        total_time: 0,
        old_total_time: 0,
    }
}

/// A record's counters fit their sums, so the next update cannot overflow.
pub open spec fn spec_processor_wf(v: ProcessorView) -> bool {
    spec_info_wf(v.new_processor_info)
}

/// Wrapped difference of two derived times (work, system or total), as the
/// update uses it.
pub open spec fn spec_time_delta(older: int, newer: int) -> int {
    if newer >= older {
        newer - older
    } else {
        u64::MAX - older + newer
    }
}

/// The iowait share of one delta, in parts per billion, clamped.
pub open spec fn spec_iowait_ratio(delta: ProcessorInfo) -> int {
    let tot = spec_total_time(delta);
    if tot == 0 {
        0
    } else if delta.iowait * 1_000_000_000 / tot > 1_000_000_000 {
        1_000_000_000
    } else {
        delta.iowait * 1_000_000_000 / tot
    }
}

/// What one counter sample does to a processor record: the previous sample
/// is kept, the delta is the wrapped field-wise difference, and the usage
/// ratios are the work/system/iowait shares of the elapsed total time.
pub open spec fn spec_processor_updated(v: ProcessorView, info: ProcessorInfo) -> ProcessorView {
    let old_info = v.new_processor_info;
    let delta = spec_info_delta(old_info, info);
    let work_d = spec_time_delta(spec_work_time(old_info), spec_work_time(info));
    let sys_d = spec_time_delta(spec_sys_time(old_info), spec_sys_time(info));
    let total_d = spec_time_delta(spec_total_time(old_info), spec_total_time(info));
    ProcessorView {
        old_processor_info: old_info,
        new_processor_info: info,
        delta_processor_info: delta,
        total_time: spec_total_time(info) as u64,
        old_total_time: spec_total_time(old_info) as u64,
        cpu_usage_permyriad: spec_ratio_permyriad(work_d as u64, total_d as u64) as u64,
        cpu_sys_usage_permyriad: spec_ratio_permyriad(sys_d as u64, total_d as u64) as u64,
        iowait_ratio_per_billion: spec_iowait_ratio(delta) as u64,
        ..v
    }
}

/// What one scheduler-wait sample does to a processor record: before the
/// first sample only the counter is stored; afterwards the wait accumulated
/// per second is the wrapped counter delta over the elapsed seconds.
pub open spec fn spec_sched_updated(v: ProcessorView, wait: u64, now: u64) -> ProcessorView {
    let last = v.processor_sched_stat_info.last_update_time;
    let rate = if last != 0 {
        spec_counter_rate(
            v.processor_sched_stat_info.sched_wait_data,
            wait,
            spec_counter_delta(last, now) as u64,
        )
    } else {
        v.sched_wait_ns_per_sec as int
    };
    ProcessorView {
        sched_wait_ns_per_sec: rate as u64,
        processor_sched_stat_info: ProcessorSchedStatData {
            sched_wait_data: wait,
            last_update_time: now,
        },
        ..v
    }
}

impl Processor {
    pub fn new(name: String) -> (r: Processor)
        ensures
            r@ == spec_processor_new(name@),
            spec_processor_wf(r@),
    {
        let zero = ProcessorInfo {
            user: 0,
            nice: 0,
            system: 0,
            idle: 0,
            iowait: 0,
            irq: 0,
            softirq: 0,
            steal: 0,
            guest: 0,
            guest_nice: 0,
        };
        Processor {
            name,
            old_processor_info: zero,
            new_processor_info: zero,
            delta_processor_info: zero,
            processor_sched_stat_info: ProcessorSchedStatData { sched_wait_data: 0, last_update_time: 0 },
            processor_cpi_data: None,
            sched_wait_ns_per_sec: 0,
            cpu_usage_permyriad: 0,
            cpu_sys_usage_permyriad: 0,
            iowait_ratio_per_billion: 0,
            total_time: 0,
            old_total_time: 0,
        }
    }

    /// Take one counter sample and derive the usage ratios.
    pub fn update_processor_info(&mut self, p: &ProcessorInfo)
        requires
            spec_processor_wf(old(self)@),
            spec_info_wf(*p),
        ensures
            final(self)@ == spec_processor_updated(old(self)@, *p),
            spec_processor_wf(final(self)@),
    {
        self.old_processor_info = self.new_processor_info;
        self.new_processor_info.set(p);
        self.delta_processor_info = self.new_processor_info.delta_from(&self.old_processor_info);

        self.total_time = self.new_processor_info.total_time();
        self.old_total_time = self.old_processor_info.total_time();

        let new_work = self.new_processor_info.work_time();
        let old_work = self.old_processor_info.work_time();
        let work_d = counter_delta(old_work, new_work);

        let new_sys = self.new_processor_info.sys_time();
        let old_sys = self.old_processor_info.sys_time();
        let sys_d = counter_delta(old_sys, new_sys);

        let total_d = counter_delta(self.old_total_time, self.total_time);

        self.cpu_usage_permyriad = ratio_permyriad(work_d, total_d);
        self.cpu_sys_usage_permyriad = ratio_permyriad(sys_d, total_d);

        let d = &self.delta_processor_info;
        let tot_wide: u128 = (d.user as u128) + (d.nice as u128) + (d.system as u128) + (
        d.irq as u128) + (d.softirq as u128) + (d.steal as u128) + (d.idle as u128) + (
        d.iowait as u128);
        self.iowait_ratio_per_billion = if tot_wide == 0 {
            0
        } else {
            let w: u128 = (d.iowait as u128) * 1_000_000_000 / tot_wide;
            if w > 1_000_000_000 {
                1_000_000_000
            } else {
                w as u64
            }
        };
    }

    /// Take one scheduler-wait sample.
    pub fn update_processor_sched_stat(&mut self, new_sched_wait_data: u64, now: u64)
        ensures
            final(self)@ == spec_sched_updated(old(self)@, new_sched_wait_data, now),
    {
        let last = self.processor_sched_stat_info.last_update_time;
        if last != 0 {
            let diff = counter_delta(last, now);
            self.sched_wait_ns_per_sec = counter_rate(
                self.processor_sched_stat_info.sched_wait_data,
                new_sched_wait_data,
                diff,
            );
        }
        self.processor_sched_stat_info.update(new_sched_wait_data, now);
    }

    pub fn update_cpu_cpi(&mut self, cpi: u64, instructions: u64, cycles: u64, l3_misses: u64,
        utilization: u64)
        ensures
            final(self)@ == (ProcessorView {
                processor_cpi_data: Some(
                    ProcessorCPIData { cpi, instructions, cycles, l3_misses, utilization },
                ),
                ..old(self)@
            }),
    {
        self.processor_cpi_data = Some(
            ProcessorCPIData { cpi, instructions, cycles, l3_misses, utilization },
        );
    }

    pub fn reset_cpu_cpi(&mut self)
        ensures
            final(self)@ == (ProcessorView { processor_cpi_data: None, ..old(self)@ }),
    {
        self.processor_cpi_data = None;
    }

    pub fn get_cpu_usage(&self) -> (r: u64)
        ensures
            r == self.cpu_usage_permyriad,
    {
        self.cpu_usage_permyriad
    }

    pub fn get_cpu_sys_usage(&self) -> (r: u64)
        ensures
            r == self.cpu_sys_usage_permyriad,
    {
        self.cpu_sys_usage_permyriad
    }

    pub fn name(&self) -> (r: &str)
        ensures
            r@ == self.name@,
    {
        self.name.as_str()
    }

    pub fn get_iowait_ratio(&self) -> (r: u64)
        ensures
            r == self.iowait_ratio_per_billion,
    {
        self.iowait_ratio_per_billion
    }

    pub fn get_sched_wait(&self) -> (r: u64)
        ensures
            r == self.sched_wait_ns_per_sec,
    {
        self.sched_wait_ns_per_sec
    }

    pub fn get_cpi_data(&self) -> (r: &Option<ProcessorCPIData>)
        ensures
            *r == self.processor_cpi_data,
    {
        &self.processor_cpi_data
    }

    /// Back to the just-created state, keeping the name.
    pub fn reset(&mut self)
        ensures
            final(self)@ == spec_processor_new(old(self)@.name),
            spec_processor_wf(final(self)@),
    {
        let name = self.name.clone();
        *self = Processor::new(name);
    }
}

} // verus!
