//! One cgroup's full subsystem set: six controllers behind one interface,
//! pruned independently as their backing directories vanish, polled and
//! reset under the settings tree's gating.

use vstd::prelude::*;

use crate::blkio::{
    spec_blkio_v1_reset, spec_blkio_v1_updated, spec_blkio_v2_ebpf_updated, spec_blkio_v2_reset,
    spec_blkio_v2_updated, BlkIOCGroupV1, BlkIOCGroupV2,
};
use crate::bpf::{PmuData, TaskNrData, WrapperFSData, WrapperIoLatpcts, WrapperNetData};
use crate::cgtypes::CGroupType;
use crate::cgtext::{spec_text_of_string, spec_text_of};
use crate::cpucg::{
    new_cpu_cgroup, spec_cpu_v1_ebpf_updated, spec_cpu_v1_reset, spec_cpu_v1_updated,
    spec_cpu_v2_ebpf_updated, spec_cpu_v2_reset, spec_cpu_v2_updated, CpuCGroup,
    CpuCGroupBasicInfo, CpuStatsV2,
};
use crate::cpusetcg::{
    new_cpuset_cgroup, spec_cpuset_lists_reset, spec_cpuset_lists_updated, CpuSetCGroup,
};
use crate::memcg::{
    new_memory_cgroup, spec_mem_v1_reset, spec_mem_v1_updated, spec_mem_v2_reset,
    spec_mem_v2_updated, MemoryCGroup,
};
use crate::netcg::{new_net_cgroup, NetCGroup};
use crate::perfcg::{new_perf_event_cgroup, PerfEventCGroup};
use crate::settings::{spec_sub_allowed, DataSourceConf, SubSystemType as SettingsSubSystemType};
use crate::netcg::NetCGroup as NetCGroupType;
use crate::text::{join2, join3, parse_u64_str, spec_parse_u64};

verus! {

/// The six controllers a cgroup owns.
#[derive(Clone, Copy, Debug, PartialEq, Eq, Structural)]
pub enum SubSystemType {
    Memory,
    Cpuset,
    Cpuacct,
    Blkio,
    NetCls,
    PerfEvent,
}

impl SubSystemType {
    /// The settings subsystem that gates each controller; the perf-event
    /// controller has no switch of its own and is always polled.
    pub open spec fn spec_to_settings(&self) -> SettingsSubSystemType {
        match *self {
            SubSystemType::Memory => SettingsSubSystemType::Mem,
            SubSystemType::Cpuset => SettingsSubSystemType::Cpu,
            SubSystemType::Cpuacct => SettingsSubSystemType::Cpu,
            SubSystemType::Blkio => SettingsSubSystemType::Storage,
            SubSystemType::NetCls => SettingsSubSystemType::Net,
            SubSystemType::PerfEvent => SettingsSubSystemType::Unknow,
        }
    }

    pub fn to_settings(&self) -> (r: SettingsSubSystemType)
        ensures
            r == self.spec_to_settings(),
    {
        match *self {
            SubSystemType::Memory => SettingsSubSystemType::Mem,
            SubSystemType::Cpuset => SettingsSubSystemType::Cpu,
            SubSystemType::Cpuacct => SettingsSubSystemType::Cpu,
            SubSystemType::Blkio => SettingsSubSystemType::Storage,
            SubSystemType::NetCls => SettingsSubSystemType::Net,
            SubSystemType::PerfEvent => SettingsSubSystemType::Unknow,
        }
    }

    /// The controller's directory name in the v1 layout.
    pub fn as_str(&self) -> (r: &str)
        ensures
            r@ == (match *self {
                SubSystemType::Memory => "memory"@,
                SubSystemType::Cpuset => "cpuset"@,
                SubSystemType::Cpuacct => "cpuacct"@,
                SubSystemType::Blkio => "blkio"@,
                SubSystemType::NetCls => "net_cls"@,
                SubSystemType::PerfEvent => "perf_event"@,
            }),
    {
        match *self {
            SubSystemType::Memory => "memory",
            SubSystemType::Cpuset => "cpuset",
            SubSystemType::Cpuacct => "cpuacct",
            SubSystemType::Blkio => "blkio",
            SubSystemType::NetCls => "net_cls",
            SubSystemType::PerfEvent => "perf_event",
        }
    }
}

/// One controller's state, whichever kind and layout it is.
#[derive(Clone, Debug)]
pub enum SubSystem {
    Memory(MemoryCGroup),
    CpuSet(CpuSetCGroup),
    Cpu(CpuCGroup),
    BlkIO(BlkIOCGroup),
    Net(NetCGroup),
    PerfEvent(PerfEventCGroup),
}

/// The block-I/O controller in whichever layout the host runs.
#[derive(Clone, Debug)]
pub enum BlkIOCGroup {
    V1(BlkIOCGroupV1),
    V2(BlkIOCGroupV2),
}

/// The block-I/O record for `user_path`: v1 under the `blkio` subtree, v2
/// directly under the mount point.
pub fn new_blkio_cgroup(mount_point: &str, user_path: &str, cgroup_type: CGroupType) -> (r:
    BlkIOCGroup)
    ensures
        match r {
            BlkIOCGroup::V1(v1) => cgroup_type == CGroupType::V1 && v1.wf() && v1.full_path@
                == mount_point@ + "/"@ + "blkio"@ + "/"@ + user_path@ && v1.user_path@
                == user_path@,
            BlkIOCGroup::V2(v2) => cgroup_type == CGroupType::V2 && v2.wf() && v2.full_path@
                == mount_point@ + "/"@ + user_path@ && v2.user_path@ == user_path@,
        },
{
    match cgroup_type {
        CGroupType::V1 => BlkIOCGroup::V1(
            BlkIOCGroupV1::new(join3(mount_point, "blkio", user_path), String::from_str(user_path)),
        ),
        CGroupType::V2 => BlkIOCGroup::V2(
            BlkIOCGroupV2::new(join2(mount_point, user_path), String::from_str(user_path)),
        ),
    }
}

/// The file texts and backend reports one cgroup poll may carry; a missing
/// file is simply absent.
pub struct CGroupPollInput {
    pub cpuset_cpus: Option<String>,
    pub cpuset_mems: Option<String>,
    pub cpu_stat: Option<String>,
    pub cpu_weight: Option<String>,
    pub cpu_weight_nice: Option<String>,
    pub cpu_max_burst: Option<String>,
    pub cpu_max: Option<String>,
    pub cpu_pressure: Option<String>,
    pub cpu_period: Option<String>,
    pub cpu_quota: Option<String>,
    pub cpu_shares: Option<String>,
    pub cpu_usage_line: Option<String>,
    pub cpu_usage_user_line: Option<String>,
    pub cpu_usage_sys_line: Option<String>,
    pub cpu_percpu_usage: Option<String>,
    pub memory_stat: Option<String>,
    pub memory_numa_stat: Option<String>,
    pub memory_limit: Option<String>,
    pub memory_kmem_usage: Option<String>,
    pub memory_usage: Option<String>,
    pub memory_watermark: Option<String>,
    pub memory_max: Option<String>,
    pub memory_high: Option<String>,
    pub memory_low: Option<String>,
    pub memory_min: Option<String>,
    pub memory_swap_max: Option<String>,
    pub memory_current: Option<String>,
    pub memory_events_local: Option<String>,
    pub memory_pressure: Option<String>,
    pub io_stat: Option<String>,
    pub io_max: Option<String>,
    pub io_pressure: Option<String>,
    pub io_weight: Option<String>,
    pub io_latency: Option<String>,
    pub blkio_bps: Option<String>,
    pub blkio_iops: Option<String>,
}

impl CGroupPollInput {
    /// No file could be read.
    pub fn empty() -> (r: CGroupPollInput)
    {
        CGroupPollInput {
            cpuset_cpus: None,
            cpuset_mems: None,
            cpu_stat: None,
            cpu_weight: None,
            cpu_weight_nice: None,
            cpu_max_burst: None,
            cpu_max: None,
            cpu_pressure: None,
            cpu_period: None,
            cpu_quota: None,
            cpu_shares: None,
            cpu_usage_line: None,
            cpu_usage_user_line: None,
            cpu_usage_sys_line: None,
            cpu_percpu_usage: None,
            memory_stat: None,
            memory_numa_stat: None,
            memory_limit: None,
            memory_kmem_usage: None,
            memory_usage: None,
            memory_watermark: None,
            memory_max: None,
            memory_high: None,
            memory_low: None,
            memory_min: None,
            memory_swap_max: None,
            memory_current: None,
            memory_events_local: None,
            memory_pressure: None,
            io_stat: None,
            io_max: None,
            io_pressure: None,
            io_weight: None,
            io_latency: None,
            blkio_bps: None,
            blkio_iops: None,
        }
    }
}

/// The backend reports one fast-path poll may carry.
#[derive(Clone, Copy, Debug, PartialEq, Eq, Default)]
pub struct CGroupBackendInput {
    pub bpf_mask: u64,
    pub fs_data: WrapperFSData,
    pub net_data: WrapperNetData,
    pub task_nr: TaskNrData,
    pub pmu: PmuData,
    pub io_latency: WrapperIoLatpcts,
    pub mem_oom_cnt: u64,
    pub now: u64,
}

/// The value a single-value `cpuacct` line carries, zero when it does not
/// parse.
pub open spec fn spec_line_u64_or0(l: Seq<char>) -> u64 {
    match spec_parse_u64(l) {
        Some(v) => v,
        None => 0,
    }
}

/// The usage triple one v1 CPU poll carries: present only when all three
/// counter files were read, each line's value read as zero when it does
/// not parse.
pub open spec fn spec_usage_triple(
    l1: Option<Seq<char>>,
    l2: Option<Seq<char>>,
    l3: Option<Seq<char>>,
) -> Option<(u64, u64, u64)> {
    match (l1, l2, l3) {
        (Some(a), Some(b), Some(c)) => Some(
            (spec_line_u64_or0(a), spec_line_u64_or0(b), spec_line_u64_or0(c)),
        ),
        _ => None,
    }
}

/// What one slow-path poll does to a controller: its own layout's poll,
/// applied to the texts the input carries for it; the variant never
/// changes.
pub open spec fn spec_sub_updated(
    pre: SubSystem,
    post: SubSystem,
    input: CGroupPollInput,
    now: u64,
) -> bool {
    match (pre, post) {
        (SubSystem::Memory(MemoryCGroup::V1(a)), SubSystem::Memory(MemoryCGroup::V1(b))) => spec_mem_v1_updated(
            a,
            b,
            spec_text_of_string(input.memory_limit),
            spec_text_of_string(input.memory_stat),
            spec_text_of_string(input.memory_kmem_usage),
            spec_text_of_string(input.memory_usage),
            spec_text_of_string(input.memory_watermark),
            spec_text_of_string(input.memory_numa_stat),
        ),
        (SubSystem::Memory(MemoryCGroup::V2(a)), SubSystem::Memory(MemoryCGroup::V2(b))) => spec_mem_v2_updated(
            a,
            b,
            spec_text_of_string(input.memory_stat),
            spec_text_of_string(input.memory_numa_stat),
            spec_text_of_string(input.memory_max),
            spec_text_of_string(input.memory_high),
            spec_text_of_string(input.memory_low),
            spec_text_of_string(input.memory_min),
            spec_text_of_string(input.memory_swap_max),
            spec_text_of_string(input.memory_watermark),
            spec_text_of_string(input.memory_current),
            spec_text_of_string(input.memory_events_local),
            spec_text_of_string(input.memory_pressure),
        ),
        (SubSystem::CpuSet(CpuSetCGroup::V1(a)), SubSystem::CpuSet(CpuSetCGroup::V1(b))) => {
            &&& b.full_path@ == a.full_path@
            &&& b.update_time == now
            &&& spec_cpuset_lists_updated(
                a.cpus,
                a.mems,
                b.cpus,
                b.mems,
                spec_text_of_string(input.cpuset_cpus),
                spec_text_of_string(input.cpuset_mems),
            )
        },
        (SubSystem::CpuSet(CpuSetCGroup::V2(a)), SubSystem::CpuSet(CpuSetCGroup::V2(b))) => {
            &&& b.full_path@ == a.full_path@
            &&& b.update_time == now
            &&& spec_cpuset_lists_updated(
                a.cpus,
                a.mems,
                b.cpus,
                b.mems,
                spec_text_of_string(input.cpuset_cpus),
                spec_text_of_string(input.cpuset_mems),
            )
        },
        (SubSystem::Cpu(CpuCGroup::V1(a)), SubSystem::Cpu(CpuCGroup::V1(b))) => spec_cpu_v1_updated(
            a,
            b,
            spec_text_of_string(input.cpu_period),
            spec_text_of_string(input.cpu_quota),
            spec_usage_triple(
                spec_text_of_string(input.cpu_usage_line),
                spec_text_of_string(input.cpu_usage_user_line),
                spec_text_of_string(input.cpu_usage_sys_line),
            ),
            spec_text_of_string(input.cpu_stat),
            spec_text_of_string(input.cpu_shares),
            spec_text_of_string(input.cpu_percpu_usage),
            now,
        ),
        (SubSystem::Cpu(CpuCGroup::V2(a)), SubSystem::Cpu(CpuCGroup::V2(b))) => spec_cpu_v2_updated(
            a,
            b,
            spec_text_of_string(input.cpu_stat),
            spec_text_of_string(input.cpu_weight),
            spec_text_of_string(input.cpu_weight_nice),
            spec_text_of_string(input.cpu_max_burst),
            spec_text_of_string(input.cpu_max),
            spec_text_of_string(input.cpu_pressure),
            now,
        ),
        (SubSystem::BlkIO(BlkIOCGroup::V1(a)), SubSystem::BlkIO(BlkIOCGroup::V1(b))) => spec_blkio_v1_updated(
            a,
            b,
            spec_text_of_string(input.blkio_bps),
            spec_text_of_string(input.blkio_iops),
            now,
        ),
        (SubSystem::BlkIO(BlkIOCGroup::V2(a)), SubSystem::BlkIO(BlkIOCGroup::V2(b))) => spec_blkio_v2_updated(
            a,
            b,
            spec_text_of_string(input.io_stat),
            spec_text_of_string(input.io_max),
            spec_text_of_string(input.io_pressure),
            spec_text_of_string(input.io_weight),
            spec_text_of_string(input.io_latency),
            now,
        ),
        (SubSystem::Net(a), SubSystem::Net(b)) => b == a,
        (SubSystem::PerfEvent(a), SubSystem::PerfEvent(b)) => b == a,
        _ => false,
    }
}

/// What one fast-path poll does to a controller: each backend report is
/// taken only when its module's capability bit is set; the variant never
/// changes.
pub open spec fn spec_sub_ebpf_updated(
    pre: SubSystem,
    post: SubSystem,
    input: CGroupBackendInput,
) -> bool {
    match (pre, post) {
        (SubSystem::Memory(MemoryCGroup::V1(a)), SubSystem::Memory(MemoryCGroup::V1(b))) => if crate::bpf::spec_module_valid(
            input.bpf_mask,
            crate::bpf::BPF_MODULE_CGROUP_MEM,
        ) {
            b == crate::memcg::MemoryCGroupV1 {
                oom_cnt: Some(input.mem_oom_cnt),
                update_time: input.now,
                ..a
            }
        } else {
            b == a
        },
        (SubSystem::Memory(MemoryCGroup::V2(a)), SubSystem::Memory(MemoryCGroup::V2(b))) => if crate::bpf::spec_module_valid(
            input.bpf_mask,
            crate::bpf::BPF_MODULE_CGROUP_MEM,
        ) {
            b == crate::memcg::MemoryCGroupV2 {
                oom_cnt: Some(input.mem_oom_cnt),
                update_time: input.now,
                ..a
            }
        } else {
            b == a
        },
        (SubSystem::CpuSet(a), SubSystem::CpuSet(b)) => b == a,
        (SubSystem::Cpu(CpuCGroup::V1(a)), SubSystem::Cpu(CpuCGroup::V1(b))) => spec_cpu_v1_ebpf_updated(
            a,
            b,
            input.bpf_mask,
            input.task_nr,
            input.pmu,
        ),
        (SubSystem::Cpu(CpuCGroup::V2(a)), SubSystem::Cpu(CpuCGroup::V2(b))) => spec_cpu_v2_ebpf_updated(
            a,
            b,
            input.bpf_mask,
            input.task_nr,
            input.pmu,
        ),
        (SubSystem::BlkIO(BlkIOCGroup::V1(a)), SubSystem::BlkIO(BlkIOCGroup::V1(b))) => if crate::bpf::spec_module_valid(
            input.bpf_mask,
            crate::bpf::BPF_MODULE_CGROUP_FS,
        ) {
            b == BlkIOCGroupV1 { old_bpf_fs_data: a.bpf_fs_data, bpf_fs_data: input.fs_data, ..a }
        } else {
            b == a
        },
        (SubSystem::BlkIO(BlkIOCGroup::V2(a)), SubSystem::BlkIO(BlkIOCGroup::V2(b))) => spec_blkio_v2_ebpf_updated(
            a,
            b,
            input.bpf_mask,
            input.fs_data,
            input.io_latency,
        ),
        (SubSystem::Net(a), SubSystem::Net(b)) => if crate::bpf::spec_module_valid(
            input.bpf_mask,
            crate::bpf::BPF_MODULE_CGROUP_NET,
        ) {
            b == NetCGroupType { old_bpf_net_data: a.bpf_net_data, bpf_net_data: input.net_data, ..a }
        } else {
            b == a
        },
        (SubSystem::PerfEvent(a), SubSystem::PerfEvent(b)) => b == a,
        _ => false,
    }
}

impl SubSystem {
    pub open spec fn spec_to_type(&self) -> SubSystemType {
        match *self {
            SubSystem::Memory(_) => SubSystemType::Memory,
            SubSystem::CpuSet(_) => SubSystemType::Cpuset,
            SubSystem::Cpu(_) => SubSystemType::Cpuacct,
            SubSystem::BlkIO(_) => SubSystemType::Blkio,
            SubSystem::Net(_) => SubSystemType::NetCls,
            SubSystem::PerfEvent(_) => SubSystemType::PerfEvent,
        }
    }

    pub fn to_type(&self) -> (r: SubSystemType)
        ensures
            r == self.spec_to_type(),
    {
        match *self {
            SubSystem::Memory(_) => SubSystemType::Memory,
            SubSystem::CpuSet(_) => SubSystemType::Cpuset,
            SubSystem::Cpu(_) => SubSystemType::Cpuacct,
            SubSystem::BlkIO(_) => SubSystemType::Blkio,
            SubSystem::Net(_) => SubSystemType::NetCls,
            SubSystem::PerfEvent(_) => SubSystemType::PerfEvent,
        }
    }

    pub fn is_memory_cgroup(&self) -> (r: bool)
        ensures
            r == (self.spec_to_type() == SubSystemType::Memory),
    {
        match self {
            SubSystem::Memory(_) => true,
            _ => false,
        }
    }

    pub fn is_cpuset_cgroup(&self) -> (r: bool)
        ensures
            r == (self.spec_to_type() == SubSystemType::Cpuset),
    {
        match self {
            SubSystem::CpuSet(_) => true,
            _ => false,
        }
    }

    pub fn is_cpu_cgroup(&self) -> (r: bool)
        ensures
            r == (self.spec_to_type() == SubSystemType::Cpuacct),
    {
        match self {
            SubSystem::Cpu(_) => true,
            _ => false,
        }
    }

    pub fn is_blkio_cgroup(&self) -> (r: bool)
        ensures
            r == (self.spec_to_type() == SubSystemType::Blkio),
    {
        match self {
            SubSystem::BlkIO(_) => true,
            _ => false,
        }
    }

    pub fn is_net_cgroup(&self) -> (r: bool)
        ensures
            r == (self.spec_to_type() == SubSystemType::NetCls),
    {
        match self {
            SubSystem::Net(_) => true,
            _ => false,
        }
    }

    pub fn is_perf_event_cgroup(&self) -> (r: bool)
        ensures
            r == (self.spec_to_type() == SubSystemType::PerfEvent),
    {
        match self {
            SubSystem::PerfEvent(_) => true,
            _ => false,
        }
    }

    /// The controller's resolved directory path.
    pub open spec fn spec_full_path(&self) -> Seq<char> {
        match *self {
            SubSystem::Memory(MemoryCGroup::V1(x)) => x.full_path@,
            SubSystem::Memory(MemoryCGroup::V2(x)) => x.full_path@,
            SubSystem::CpuSet(CpuSetCGroup::V1(x)) => x.full_path@,
            SubSystem::CpuSet(CpuSetCGroup::V2(x)) => x.full_path@,
            SubSystem::Cpu(CpuCGroup::V1(x)) => x.full_path@,
            SubSystem::Cpu(CpuCGroup::V2(x)) => x.full_path@,
            SubSystem::BlkIO(BlkIOCGroup::V1(x)) => x.full_path@,
            SubSystem::BlkIO(BlkIOCGroup::V2(x)) => x.full_path@,
            SubSystem::Net(x) => x.full_path@,
            SubSystem::PerfEvent(x) => x.full_path@,
        }
    }

    pub fn get_full_path(&self) -> (r: &str)
        ensures
            r@ == self.spec_full_path(),
    {
        match self {
            SubSystem::Memory(x) => x.full_path(),
            SubSystem::Cpu(x) => x.full_path(),
            SubSystem::CpuSet(x) => x.full_path(),
            SubSystem::BlkIO(x) => match x {
                BlkIOCGroup::V1(v1) => v1.full_path(),
                BlkIOCGroup::V2(v2) => v2.full_path(),
            },
            SubSystem::Net(x) => x.full_path(),
            SubSystem::PerfEvent(x) => x.full_path(),
        }
    }

    pub open spec fn wf(&self) -> bool {
        match *self {
            SubSystem::Memory(x) => x.wf(),
            SubSystem::CpuSet(_) => true,
            SubSystem::Cpu(x) => x.wf(),
            SubSystem::BlkIO(BlkIOCGroup::V1(x)) => x.wf(),
            SubSystem::BlkIO(BlkIOCGroup::V2(x)) => x.wf(),
            SubSystem::Net(_) => true,
            SubSystem::PerfEvent(_) => true,
        }
    }

    /// One slow-path poll of this controller from the gathered file texts:
    /// the variant's own poll, exactly; see `spec_sub_updated`.
    pub fn update(&mut self, input: &CGroupPollInput, now: u64)
        requires
            old(self).wf(),
        ensures
            final(self).wf(),
            final(self).spec_to_type() == old(self).spec_to_type(),
            final(self).spec_full_path() == old(self).spec_full_path(),
            spec_sub_updated(*old(self), *final(self), *input, now),
    {
        match self {
            SubSystem::Memory(x) => {
                match x {
                    MemoryCGroup::V1(v1) => v1.update(
                        as_deref(&input.memory_limit),
                        as_deref(&input.memory_stat),
                        as_deref(&input.memory_kmem_usage),
                        as_deref(&input.memory_usage),
                        as_deref(&input.memory_watermark),
                        as_deref(&input.memory_numa_stat),
                    ),
                    MemoryCGroup::V2(v2) => v2.update(
                        as_deref(&input.memory_stat),
                        as_deref(&input.memory_numa_stat),
                        as_deref(&input.memory_max),
                        as_deref(&input.memory_high),
                        as_deref(&input.memory_low),
                        as_deref(&input.memory_min),
                        as_deref(&input.memory_swap_max),
                        as_deref(&input.memory_watermark),
                        as_deref(&input.memory_current),
                        as_deref(&input.memory_events_local),
                        as_deref(&input.memory_pressure),
                    ),
                }
            },
            SubSystem::CpuSet(x) => {
                let cpus = clone_opt(&input.cpuset_cpus);
                let mems = clone_opt(&input.cpuset_mems);
                x.update(cpus, mems, now);
            },
            SubSystem::Cpu(x) => {
                match x {
                    CpuCGroup::V1(v1) => {
                        let usage = match (
                            &input.cpu_usage_line,
                            &input.cpu_usage_user_line,
                            &input.cpu_usage_sys_line,
                        ) {
                            (Some(a), Some(b), Some(c)) => Some(
                                (line_u64_or0(a), line_u64_or0(b), line_u64_or0(c)),
                            ),
                            _ => None,
                        };
                        v1.update(
                            as_deref(&input.cpu_period),
                            as_deref(&input.cpu_quota),
                            usage,
                            as_deref(&input.cpu_stat),
                            as_deref(&input.cpu_shares),
                            as_deref(&input.cpu_percpu_usage),
                            now,
                        );
                    },
                    CpuCGroup::V2(v2) => {
                        v2.update(
                            as_deref(&input.cpu_stat),
                            as_deref(&input.cpu_weight),
                            as_deref(&input.cpu_weight_nice),
                            as_deref(&input.cpu_max_burst),
                            as_deref(&input.cpu_max),
                            as_deref(&input.cpu_pressure),
                            now,
                        );
                    },
                }
            },
            SubSystem::BlkIO(x) => {
                match x {
                    BlkIOCGroup::V1(v1) => v1.update(
                        as_deref(&input.blkio_bps),
                        as_deref(&input.blkio_iops),
                        now,
                    ),
                    BlkIOCGroup::V2(v2) => v2.update(
                        as_deref(&input.io_stat),
                        as_deref(&input.io_max),
                        as_deref(&input.io_pressure),
                        as_deref(&input.io_weight),
                        as_deref(&input.io_latency),
                        now,
                    ),
                }
            },
            SubSystem::Net(x) => x.update(),
            SubSystem::PerfEvent(x) => x.update(),
        }
    }

    /// One fast-path poll of this controller from the backend reports:
    /// each report gated by its module's capability bit; see
    /// `spec_sub_ebpf_updated`.
    pub fn update_ebpf(&mut self, input: &CGroupBackendInput)
        requires
            old(self).wf(),
        ensures
            final(self).wf(),
            final(self).spec_to_type() == old(self).spec_to_type(),
            final(self).spec_full_path() == old(self).spec_full_path(),
            spec_sub_ebpf_updated(*old(self), *final(self), *input),
    {
        match self {
            SubSystem::Memory(x) => {
                if crate::bpf::is_bpf_moudule_valid(
                    input.bpf_mask,
                    crate::bpf::BPF_MODULE_CGROUP_MEM,
                ) {
                    match x {
                        MemoryCGroup::V1(v1) => v1.update_ebpf(input.mem_oom_cnt, input.now),
                        MemoryCGroup::V2(v2) => v2.update_ebpf(input.mem_oom_cnt, input.now),
                    }
                }
            },
            SubSystem::CpuSet(x) => x.update_ebpf(),
            SubSystem::Cpu(CpuCGroup::V1(v1)) => v1.update_ebpf(
                input.bpf_mask,
                input.task_nr,
                input.pmu,
            ),
            SubSystem::Cpu(CpuCGroup::V2(v2)) => v2.update_ebpf(
                input.bpf_mask,
                input.task_nr,
                input.pmu,
            ),
            SubSystem::BlkIO(x) => {
                match x {
                    BlkIOCGroup::V1(v1) => v1.update_ebpf(input.bpf_mask, input.fs_data),
                    BlkIOCGroup::V2(v2) => v2.update_ebpf(
                        input.bpf_mask,
                        input.fs_data,
                        input.io_latency,
                    ),
                }
            },
            SubSystem::Net(x) => x.update_ebpf(input.bpf_mask, input.net_data),
            SubSystem::PerfEvent(x) => x.update_ebpf(),
        }
    }

    /// What an administrative reset leaves behind: the controller's whole
    /// just-created state, the identity kept; the v1 CPU and cpuset resets
    /// clear their time stamp, the block-I/O ones record the reset time.
    pub open spec fn spec_sub_reset(pre: SubSystem, post: SubSystem, now: u64) -> bool {
        match (pre, post) {
            (SubSystem::Memory(MemoryCGroup::V1(a)), SubSystem::Memory(MemoryCGroup::V1(b))) => spec_mem_v1_reset(
                a,
                b,
            ),
            (SubSystem::Memory(MemoryCGroup::V2(a)), SubSystem::Memory(MemoryCGroup::V2(b))) => spec_mem_v2_reset(
                a,
                b,
            ),
            (SubSystem::CpuSet(CpuSetCGroup::V1(a)), SubSystem::CpuSet(CpuSetCGroup::V1(b))) => {
                &&& b.full_path@ == a.full_path@
                &&& spec_cpuset_lists_reset(b.cpus, b.mems)
                &&& b.update_time == 0
            },
            (SubSystem::CpuSet(CpuSetCGroup::V2(a)), SubSystem::CpuSet(CpuSetCGroup::V2(b))) => {
                &&& b.full_path@ == a.full_path@
                &&& spec_cpuset_lists_reset(b.cpus, b.mems)
                &&& b.update_time == 0
            },
            (SubSystem::Cpu(CpuCGroup::V1(a)), SubSystem::Cpu(CpuCGroup::V1(b))) => spec_cpu_v1_reset(
                a,
                b,
            ),
            (SubSystem::Cpu(CpuCGroup::V2(a)), SubSystem::Cpu(CpuCGroup::V2(b))) => spec_cpu_v2_reset(
                a,
                b,
                0,
            ),
            (SubSystem::BlkIO(BlkIOCGroup::V1(a)), SubSystem::BlkIO(BlkIOCGroup::V1(b))) => spec_blkio_v1_reset(
                a,
                b,
                now,
            ),
            (SubSystem::BlkIO(BlkIOCGroup::V2(a)), SubSystem::BlkIO(BlkIOCGroup::V2(b))) => spec_blkio_v2_reset(
                a,
                b,
                now,
            ),
            (SubSystem::Net(a), SubSystem::Net(b)) => {
                &&& b.full_path@ == a.full_path@
                &&& b.user_path@ == a.user_path@
                &&& b.bpf_net_data == WrapperNetData::spec_zero()
                &&& b.old_bpf_net_data == WrapperNetData::spec_zero()
                &&& b.update_time == 0
            },
            (SubSystem::PerfEvent(a), SubSystem::PerfEvent(b)) => {
                &&& b.full_path@ == a.full_path@
                &&& b.user_path@ == a.user_path@
                &&& b.cpi == 0
                &&& b.instructions == 0
                &&& b.cycles == 0
                &&& b.l3_cache_miss == 0
                &&& b.utilization == 0
                &&& b.icache_miss == 0
                &&& b.l2_cache_miss == 0
                &&& b.update_time == 0
            },
            _ => false,
        }
    }

    /// Administrative reset, keeping the identity: the controller's whole
    /// just-created state; see `spec_sub_reset`.
    pub fn reset(&mut self, now: u64)
        requires
            old(self).wf(),
        ensures
            final(self).wf(),
            final(self).spec_to_type() == old(self).spec_to_type(),
            final(self).spec_full_path() == old(self).spec_full_path(),
            SubSystem::spec_sub_reset(*old(self), *final(self), now),
    {
        match self {
            SubSystem::Memory(MemoryCGroup::V1(x)) => x.reset(),
            SubSystem::Memory(MemoryCGroup::V2(x)) => x.reset(),
            SubSystem::CpuSet(CpuSetCGroup::V1(x)) => x.reset(),
            SubSystem::CpuSet(CpuSetCGroup::V2(x)) => x.reset(),
            SubSystem::Cpu(CpuCGroup::V1(x)) => x.reset(),
            SubSystem::Cpu(CpuCGroup::V2(x)) => x.reset(0),
            SubSystem::BlkIO(BlkIOCGroup::V1(x)) => x.reset(now),
            SubSystem::BlkIO(BlkIOCGroup::V2(x)) => x.reset(now),
            SubSystem::Net(x) => x.reset(),
            SubSystem::PerfEvent(x) => x.reset(),
        }
    }

    /// Merge one PMU figure set; only the perf-event controller takes it.
    pub fn update_perf_event(&mut self, new_data: &PerfEventCGroup, now: u64)
        requires
            old(self).wf(),
        ensures
            final(self).wf(),
            final(self).spec_to_type() == old(self).spec_to_type(),
            final(self).spec_full_path() == old(self).spec_full_path(),
            (*old(self)) is PerfEvent ==> (match *final(self) {
                SubSystem::PerfEvent(x) => x.cpi == new_data.cpi && x.instructions
                    == new_data.instructions && x.cycles == new_data.cycles && x.l3_cache_miss
                    == new_data.l3_cache_miss && x.utilization == new_data.utilization,
                _ => false,
            }),
            !((*old(self)) is PerfEvent) ==> *final(self) == *old(self),
    {
        match self {
            SubSystem::PerfEvent(x) => {
                x.update_with_value(
                    new_data.cpi,
                    new_data.instructions,
                    new_data.cycles,
                    new_data.l3_cache_miss,
                    new_data.utilization,
                    now,
                );
            },
            _ => {},
        }
    }
}

/// Borrow the text of an optional owned line.
fn as_deref(o: &Option<String>) -> (r: Option<&str>)
    ensures
        spec_text_of(r) == spec_text_of_string(*o),
        match r {
            Some(s) => o is Some && s@ == o.unwrap()@,
            None => o is None,
        },
{
    match o {
        Some(s) => Some(s.as_str()),
        None => None,
    }
}

/// Copy an optional owned line.
fn clone_opt(o: &Option<String>) -> (r: Option<String>)
    ensures
        spec_text_of_string(r) == spec_text_of_string(*o),
        match r {
            Some(s) => o is Some && s@ == o.unwrap()@,
            None => o is None,
        },
{
    match o {
        Some(s) => Some(s.clone()),
        None => None,
    }
}

/// The number a single-value line carries, zero when it does not parse.
fn line_u64_or0(line: &String) -> (r: u64)
    ensures
        r == (match crate::text::spec_parse_u64(line@) {
            Some(v) => v,
            None => 0u64,
        }),
{
    match parse_u64_str(line.as_str()) {
        Some(v) => v,
        None => 0,
    }
}

/// One cgroup: its identity and whichever controllers still have a backing
/// directory.
#[derive(Clone, Debug)]
pub struct CGroup {
    pub mount_point: String,
    pub user_path: String,
    pub sub_system_groups: Vec<SubSystem>,
    pub cgroup_type: CGroupType,
}

impl CGroup {
    pub open spec fn wf(&self) -> bool {
        forall|i: int|
            0 <= i < self.sub_system_groups@.len() ==> (#[trigger] self.sub_system_groups@[i]).wf()
    }

    /// A fresh cgroup with all six controllers.
    pub fn new(mount_point: &str, user_path: &str, cgroup_type: CGroupType) -> (r: CGroup)
        ensures
            r.wf(),
            r.mount_point@ == mount_point@,
            r.user_path@ == user_path@,
            r.cgroup_type == cgroup_type,
            r.sub_system_groups@.len() == 6,
            r.sub_system_groups@[0].spec_to_type() == SubSystemType::Memory,
            r.sub_system_groups@[1].spec_to_type() == SubSystemType::Cpuacct,
            r.sub_system_groups@[2].spec_to_type() == SubSystemType::Cpuset,
            r.sub_system_groups@[3].spec_to_type() == SubSystemType::Blkio,
            r.sub_system_groups@[4].spec_to_type() == SubSystemType::NetCls,
            r.sub_system_groups@[5].spec_to_type() == SubSystemType::PerfEvent,
    {
        let mut subs: Vec<SubSystem> = Vec::new();
        subs.push(SubSystem::Memory(new_memory_cgroup(mount_point, user_path, cgroup_type)));
        subs.push(SubSystem::Cpu(new_cpu_cgroup(mount_point, user_path, cgroup_type)));
        subs.push(SubSystem::CpuSet(new_cpuset_cgroup(mount_point, user_path, cgroup_type)));
        subs.push(SubSystem::BlkIO(new_blkio_cgroup(mount_point, user_path, cgroup_type)));
        subs.push(SubSystem::Net(new_net_cgroup(mount_point, user_path, cgroup_type)));
        subs.push(
            SubSystem::PerfEvent(new_perf_event_cgroup(mount_point, user_path, cgroup_type)),
        );
        CGroup {
            mount_point: String::from_str(mount_point),
            user_path: String::from_str(user_path),
            sub_system_groups: subs,
            cgroup_type,
        }
    }

    pub fn user_path(&self) -> (r: &str)
        ensures
            r@ == self.user_path@,
    {
        self.user_path.as_str()
    }

    pub fn mount_point(&self) -> (r: &str)
        ensures
            r@ == self.mount_point@,
    {
        self.mount_point.as_str()
    }

    /// A cgroup is valid exactly when it still has a controller.
    pub fn is_valid(&self) -> (r: bool)
        ensures
            r == (self.sub_system_groups@.len() > 0),
    {
        self.sub_system_groups.len() > 0
    }

    pub fn len(&self) -> (r: usize)
        ensures
            r == self.sub_system_groups@.len(),
    {
        self.sub_system_groups.len()
    }

    pub fn subsystem_at(&self, i: usize) -> (r: &SubSystem)
        requires
            i < self.sub_system_groups@.len(),
        ensures
            *r == self.sub_system_groups@[i as int],
    {
        &self.sub_system_groups[i]
    }

    /// Keep exactly the controllers whose backing directory still exists;
    /// the caller checked each resolved path and reports the verdicts in
    /// order.
    pub fn clear_invalid_subsystem_item(&mut self, path_exists: &Vec<bool>)
        requires
            old(self).wf(),
            path_exists@.len() == old(self).sub_system_groups@.len(),
        ensures
            final(self).wf(),
            final(self).mount_point == old(self).mount_point,
            final(self).user_path == old(self).user_path,
            final(self).cgroup_type == old(self).cgroup_type,
            final(self).sub_system_groups@ == spec_filter_alive(
                old(self).sub_system_groups@,
                path_exists@,
            ),
    {
        let n = self.sub_system_groups.len();
        let mut i: usize = n;
        proof {
            assert(self.sub_system_groups@ =~= old(self).sub_system_groups@.take(n as int)
                + spec_filter_from(old(self).sub_system_groups@, path_exists@, n as int));
        }
        while i > 0
            invariant
                path_exists@.len() == old(self).sub_system_groups@.len(),
                i <= old(self).sub_system_groups@.len(),
                old(self).wf(),
                self.mount_point == old(self).mount_point,
                self.user_path == old(self).user_path,
                self.cgroup_type == old(self).cgroup_type,
                self.sub_system_groups@ == old(self).sub_system_groups@.take(i as int)
                    + spec_filter_from(old(self).sub_system_groups@, path_exists@, i as int),
            decreases i,
        {
            i = i - 1;
            if !path_exists[i] {
                self.sub_system_groups.remove(i);
            }
            proof {
                let subs0 = old(self).sub_system_groups@;
                let pe = path_exists@;
                if pe[i as int] {
                    assert(subs0.take(i + 1) =~= subs0.take(i as int).push(subs0[i as int]));
                    assert(subs0.take(i as int) + spec_filter_from(subs0, pe, i as int)
                        =~= subs0.take(i + 1) + spec_filter_from(subs0, pe, i + 1));
                } else {
                    assert(self.sub_system_groups@ =~= subs0.take(i as int) + spec_filter_from(
                        subs0,
                        pe,
                        i + 1,
                    ));
                    assert(spec_filter_from(subs0, pe, i as int) =~= spec_filter_from(
                        subs0,
                        pe,
                        i + 1,
                    ));
                }
            }
        }
        proof {
            assert(old(self).sub_system_groups@.take(0) =~= Seq::<SubSystem>::empty());
            assert(self.sub_system_groups@ =~= spec_filter_from(
                old(self).sub_system_groups@,
                path_exists@,
                0,
            ));
            let kept = self.sub_system_groups@;
            let subs0 = old(self).sub_system_groups@;
            let pe = path_exists@;
            lemma_filter_from_wf(subs0, pe, 0);
        }
    }

    /// One slow-path poll: prune, then, when the cgroup is valid and the
    /// data source is on, poll exactly the controllers whose settings
    /// switch allows it; the others keep their state.
    pub fn update(
        &mut self,
        ds_settings: &DataSourceConf,
        path_exists: &Vec<bool>,
        input: &CGroupPollInput,
        now: u64,
    ) -> (r: bool)
        requires
            old(self).wf(),
            path_exists@.len() == old(self).sub_system_groups@.len(),
        ensures
            final(self).wf(),
            r == true,
            final(self).mount_point == old(self).mount_point,
            final(self).user_path == old(self).user_path,
            ({
                let pruned = spec_filter_alive(old(self).sub_system_groups@, path_exists@);
                let subs = final(self).sub_system_groups@;
                &&& subs.len() == pruned.len()
                &&& forall|i: int|
                    0 <= i < subs.len() ==> (#[trigger] subs[i]).spec_to_type()
                        == pruned[i].spec_to_type() && subs[i].spec_full_path()
                        == pruned[i].spec_full_path()
                &&& (pruned.len() > 0 && ds_settings.enable) ==> forall|i: int|
                    0 <= i < subs.len() ==> if spec_sub_allowed(
                        *ds_settings,
                        (#[trigger] pruned[i]).spec_to_type().spec_to_settings(),
                    ) {
                        spec_sub_updated(pruned[i], subs[i], *input, now)
                    } else {
                        subs[i] == pruned[i]
                    }
                &&& !(pruned.len() > 0 && ds_settings.enable) ==> subs == pruned
            }),
    {
        self.clear_invalid_subsystem_item(path_exists);
        let valid = self.is_valid();
        if valid && ds_settings.is_enable() {
            let n = self.sub_system_groups.len();
            let ghost pruned = self.sub_system_groups@;
            let mut i: usize = 0;
            while i < n
                invariant
                    n == self.sub_system_groups@.len(),
                    n == pruned.len(),
                    i <= n,
                    forall|j: int| 0 <= j < n ==> (#[trigger] self.sub_system_groups@[j]).wf(),
                    self.mount_point == old(self).mount_point,
                    self.user_path == old(self).user_path,
                    forall|j: int|
                        0 <= j < n ==> (#[trigger] self.sub_system_groups@[j]).spec_to_type()
                            == pruned[j].spec_to_type()
                            && self.sub_system_groups@[j].spec_full_path()
                            == pruned[j].spec_full_path(),
                    forall|j: int|
                        i <= j < n ==> #[trigger] self.sub_system_groups@[j] == pruned[j],
                    forall|j: int|
                        0 <= j < i ==> if spec_sub_allowed(
                            *ds_settings,
                            (#[trigger] pruned[j]).spec_to_type().spec_to_settings(),
                        ) {
                            spec_sub_updated(pruned[j], self.sub_system_groups@[j], *input, now)
                        } else {
                            self.sub_system_groups@[j] == pruned[j]
                        },
                decreases n - i,
            {
                let kind = self.sub_system_groups[i].to_type();
                let allowed = ds_settings.sub_allowed(kind.to_settings());
                if allowed {
                    let sub = &mut self.sub_system_groups[i];
                    sub.update(input, now);
                }
                i = i + 1;
            }
        }
        true
    }

    /// One fast-path poll, with the same prune and the same gating.
    pub fn update_ebpf(
        &mut self,
        ds_settings: &DataSourceConf,
        path_exists: &Vec<bool>,
        input: &CGroupBackendInput,
    ) -> (r: bool)
        requires
            old(self).wf(),
            path_exists@.len() == old(self).sub_system_groups@.len(),
        ensures
            final(self).wf(),
            r == true,
            final(self).mount_point == old(self).mount_point,
            final(self).user_path == old(self).user_path,
            ({
                let pruned = spec_filter_alive(old(self).sub_system_groups@, path_exists@);
                let subs = final(self).sub_system_groups@;
                &&& subs.len() == pruned.len()
                &&& forall|i: int|
                    0 <= i < subs.len() ==> (#[trigger] subs[i]).spec_to_type()
                        == pruned[i].spec_to_type() && subs[i].spec_full_path()
                        == pruned[i].spec_full_path()
                &&& (pruned.len() > 0 && ds_settings.enable) ==> forall|i: int|
                    0 <= i < subs.len() ==> if spec_sub_allowed(
                        *ds_settings,
                        (#[trigger] pruned[i]).spec_to_type().spec_to_settings(),
                    ) {
                        spec_sub_ebpf_updated(pruned[i], subs[i], *input)
                    } else {
                        subs[i] == pruned[i]
                    }
                &&& !(pruned.len() > 0 && ds_settings.enable) ==> subs == pruned
            }),
    {
        self.clear_invalid_subsystem_item(path_exists);
        let valid = self.is_valid();
        if valid && ds_settings.is_enable() {
            let n = self.sub_system_groups.len();
            let ghost pruned = self.sub_system_groups@;
            let mut i: usize = 0;
            while i < n
                invariant
                    n == self.sub_system_groups@.len(),
                    n == pruned.len(),
                    i <= n,
                    forall|j: int| 0 <= j < n ==> (#[trigger] self.sub_system_groups@[j]).wf(),
                    self.mount_point == old(self).mount_point,
                    self.user_path == old(self).user_path,
                    forall|j: int|
                        0 <= j < n ==> (#[trigger] self.sub_system_groups@[j]).spec_to_type()
                            == pruned[j].spec_to_type()
                            && self.sub_system_groups@[j].spec_full_path()
                            == pruned[j].spec_full_path(),
                    forall|j: int|
                        i <= j < n ==> #[trigger] self.sub_system_groups@[j] == pruned[j],
                    forall|j: int|
                        0 <= j < i ==> if spec_sub_allowed(
                            *ds_settings,
                            (#[trigger] pruned[j]).spec_to_type().spec_to_settings(),
                        ) {
                            spec_sub_ebpf_updated(pruned[j], self.sub_system_groups@[j], *input)
                        } else {
                            self.sub_system_groups@[j] == pruned[j]
                        },
                decreases n - i,
            {
                let kind = self.sub_system_groups[i].to_type();
                let allowed = ds_settings.sub_allowed(kind.to_settings());
                if allowed {
                    let sub = &mut self.sub_system_groups[i];
                    sub.update_ebpf(input);
                }
                i = i + 1;
            }
        }
        true
    }

    /// Administrative reset after a settings change: prune, then reset
    /// exactly the controllers whose settings switch is off, leaving the
    /// live ones running. This asymmetry is deliberate: a reset clears the
    /// data of just-disabled controllers, never of live ones.
    pub fn reset(&mut self, ds_settings: &DataSourceConf, path_exists: &Vec<bool>, now: u64) -> (r:
        bool)
        requires
            old(self).wf(),
            path_exists@.len() == old(self).sub_system_groups@.len(),
        ensures
            final(self).wf(),
            r == true,
            spec_cgroup_reset_applied(*old(self), *final(self), *ds_settings, path_exists@, now),
    {
        self.clear_invalid_subsystem_item(path_exists);
        let valid = self.is_valid();
        if valid {
            let n = self.sub_system_groups.len();
            let ghost pruned = self.sub_system_groups@;
            let mut i: usize = 0;
            while i < n
                invariant
                    n == self.sub_system_groups@.len(),
                    n == pruned.len(),
                    i <= n,
                    forall|j: int| 0 <= j < n ==> (#[trigger] self.sub_system_groups@[j]).wf(),
                    self.mount_point == old(self).mount_point,
                    self.user_path == old(self).user_path,
                    forall|j: int|
                        0 <= j < n ==> (#[trigger] self.sub_system_groups@[j]).spec_to_type()
                            == pruned[j].spec_to_type()
                            && self.sub_system_groups@[j].spec_full_path()
                            == pruned[j].spec_full_path(),
                    forall|j: int|
                        i <= j < n ==> #[trigger] self.sub_system_groups@[j] == pruned[j],
                    self.cgroup_type == old(self).cgroup_type,
                    forall|j: int|
                        0 <= j < i ==> if spec_sub_allowed(
                            *ds_settings,
                            (#[trigger] pruned[j]).spec_to_type().spec_to_settings(),
                        ) {
                            self.sub_system_groups@[j] == pruned[j]
                        } else {
                            SubSystem::spec_sub_reset(pruned[j], self.sub_system_groups@[j], now)
                        },
                decreases n - i,
            {
                let kind = self.sub_system_groups[i].to_type();
                let allowed = ds_settings.is_enable() && ds_settings.sub_allowed(
                    kind.to_settings(),
                );
                proof {
                    assert(allowed == spec_sub_allowed(
                        *ds_settings,
                        pruned[i as int].spec_to_type().spec_to_settings(),
                    ));
                }
                if !allowed {
                    let sub = &mut self.sub_system_groups[i];
                    sub.reset(now);
                }
                i = i + 1;
            }
        }
        true
    }
}

/// A controller with no retained data: the post-state half of
/// `spec_sub_reset`, with no identity claims. The block-I/O controllers
/// carry the reset time, the others a cleared stamp.
pub open spec fn spec_sub_cleared(s: SubSystem, now: u64) -> bool {
    match s {
        SubSystem::Memory(MemoryCGroup::V1(b)) => spec_mem_v1_reset(b, b),
        SubSystem::Memory(MemoryCGroup::V2(b)) => spec_mem_v2_reset(b, b),
        SubSystem::CpuSet(CpuSetCGroup::V1(b)) => spec_cpuset_lists_reset(b.cpus, b.mems)
            && b.update_time == 0,
        SubSystem::CpuSet(CpuSetCGroup::V2(b)) => spec_cpuset_lists_reset(b.cpus, b.mems)
            && b.update_time == 0,
        SubSystem::Cpu(CpuCGroup::V1(b)) => spec_cpu_v1_reset(b, b),
        SubSystem::Cpu(CpuCGroup::V2(b)) => spec_cpu_v2_reset(b, b, 0),
        SubSystem::BlkIO(BlkIOCGroup::V1(b)) => spec_blkio_v1_reset(b, b, now),
        SubSystem::BlkIO(BlkIOCGroup::V2(b)) => spec_blkio_v2_reset(b, b, now),
        SubSystem::Net(b) => b.bpf_net_data == WrapperNetData::spec_zero() && b.old_bpf_net_data
            == WrapperNetData::spec_zero() && b.update_time == 0,
        SubSystem::PerfEvent(b) => b.cpi == 0 && b.instructions == 0 && b.cycles == 0
            && b.l3_cache_miss == 0 && b.utilization == 0 && b.icache_miss == 0 && b.l2_cache_miss
            == 0 && b.update_time == 0,
    }
}

/// A reset controller is cleared.
pub proof fn lemma_reset_implies_cleared(pre: SubSystem, post: SubSystem, now: u64)
    requires
        SubSystem::spec_sub_reset(pre, post, now),
    ensures
        spec_sub_cleared(post, now),
{
}

/// What one administrative reset pass does to a whole cgroup: with one
/// verdict per controller, the controllers are pruned, then every
/// controller whose settings switch is off is reset and the live ones are
/// kept; with a mismatched verdict vector nothing happens. The identity is
/// always kept.
pub open spec fn spec_cgroup_reset_applied(
    pre: CGroup,
    post: CGroup,
    ds: DataSourceConf,
    alive: Seq<bool>,
    now: u64,
) -> bool {
    &&& post.mount_point == pre.mount_point
    &&& post.user_path == pre.user_path
    &&& post.cgroup_type == pre.cgroup_type
    &&& if alive.len() == pre.sub_system_groups@.len() {
        let pruned = spec_filter_alive(pre.sub_system_groups@, alive);
        let subs = post.sub_system_groups@;
        &&& subs.len() == pruned.len()
        &&& forall|i: int|
            0 <= i < subs.len() ==> (#[trigger] subs[i]).spec_to_type()
                == pruned[i].spec_to_type() && subs[i].spec_full_path()
                == pruned[i].spec_full_path()
        &&& pruned.len() > 0 ==> forall|i: int|
            0 <= i < subs.len() ==> if spec_sub_allowed(
                ds,
                (#[trigger] pruned[i]).spec_to_type().spec_to_settings(),
            ) {
                subs[i] == pruned[i]
            } else {
                SubSystem::spec_sub_reset(pruned[i], subs[i], now)
            }
        &&& pruned.len() == 0 ==> subs == pruned
    } else {
        post == pre
    }
}

/// A reset pass under a disabled data source clears every remaining
/// controller of the cgroup.
pub proof fn lemma_disabled_reset_clears(
    pre: CGroup,
    post: CGroup,
    ds: DataSourceConf,
    alive: Seq<bool>,
    now: u64,
)
    requires
        spec_cgroup_reset_applied(pre, post, ds, alive, now),
        !ds.enable,
        alive.len() == pre.sub_system_groups@.len(),
    ensures
        forall|i: int|
            0 <= i < post.sub_system_groups@.len() ==> spec_sub_cleared(
                #[trigger] post.sub_system_groups@[i],
                now,
            ),
{
    let pruned = spec_filter_alive(pre.sub_system_groups@, alive);
    assert forall|i: int| 0 <= i < post.sub_system_groups@.len() implies spec_sub_cleared(
        #[trigger] post.sub_system_groups@[i],
        now,
    ) by {
        assert(SubSystem::spec_sub_reset(pruned[i], post.sub_system_groups@[i], now));
    }
}

/// A reset pass never dirties an already cleared cgroup, whatever the
/// settings and verdicts are.
pub proof fn lemma_reset_keeps_cleared(
    pre: CGroup,
    post: CGroup,
    ds: DataSourceConf,
    alive: Seq<bool>,
    now: u64,
)
    requires
        spec_cgroup_reset_applied(pre, post, ds, alive, now),
        forall|i: int|
            0 <= i < pre.sub_system_groups@.len() ==> spec_sub_cleared(
                #[trigger] pre.sub_system_groups@[i],
                now,
            ),
    ensures
        forall|i: int|
            0 <= i < post.sub_system_groups@.len() ==> spec_sub_cleared(
                #[trigger] post.sub_system_groups@[i],
                now,
            ),
{
    if alive.len() == pre.sub_system_groups@.len() {
        let pruned = spec_filter_alive(pre.sub_system_groups@, alive);
        lemma_prune_keeps_only_alive(pre.sub_system_groups@, alive, 0);
        assert forall|i: int| 0 <= i < post.sub_system_groups@.len() implies spec_sub_cleared(
            #[trigger] post.sub_system_groups@[i],
            now,
        ) by {
            assert(spec_filter_from(pre.sub_system_groups@, alive, 0).contains(pruned[i]));
            let j = choose|j: int|
                0 <= j < pre.sub_system_groups@.len() && alive[j] && pre.sub_system_groups@[j]
                    == pruned[i];
            assert(spec_sub_cleared(pruned[i], now));
            if pruned.len() > 0 {
                if spec_sub_allowed(ds, pruned[i].spec_to_type().spec_to_settings()) {
                } else {
                    lemma_reset_implies_cleared(pruned[i], post.sub_system_groups@[i], now);
                }
            }
        }
    }
}

/// The controllers of `subs[i..]` whose verdict in `alive` is true, in
/// order.
pub open spec fn spec_filter_from(subs: Seq<SubSystem>, alive: Seq<bool>, i: int) -> Seq<SubSystem>
    decreases subs.len() - i,
{
    if i < 0 || i >= subs.len() {
        Seq::empty()
    } else if alive[i] {
        seq![subs[i]] + spec_filter_from(subs, alive, i + 1)
    } else {
        spec_filter_from(subs, alive, i + 1)
    }
}

/// The controllers whose verdict is true, in order.
pub open spec fn spec_filter_alive(subs: Seq<SubSystem>, alive: Seq<bool>) -> Seq<SubSystem> {
    spec_filter_from(subs, alive, 0)
}

proof fn lemma_filter_from_wf(subs: Seq<SubSystem>, alive: Seq<bool>, i: int)
    requires
        forall|j: int| 0 <= j < subs.len() ==> (#[trigger] subs[j]).wf(),
    ensures
        forall|k: int|
            0 <= k < spec_filter_from(subs, alive, i).len() ==> (#[trigger] spec_filter_from(
                subs,
                alive,
                i,
            )[k]).wf(),
    decreases subs.len() - i,
{
    if 0 <= i < subs.len() {
        lemma_filter_from_wf(subs, alive, i + 1);
        let rest = spec_filter_from(subs, alive, i + 1);
        let cur = spec_filter_from(subs, alive, i);
        assert forall|k: int| 0 <= k < cur.len() implies (#[trigger] cur[k]).wf() by {
            if alive[i] {
                if k == 0 {
                    assert(cur[0] == subs[i]);
                } else {
                    assert(cur[k] == rest[k - 1]);
                }
            } else {
                assert(cur[k] == rest[k]);
            }
        }
    }
}


/// After a prune, every remaining controller had been seen to have a
/// backing directory: whatever the filtered suffix holds came from a
/// position whose verdict was true.
pub proof fn lemma_prune_keeps_only_alive(subs: Seq<SubSystem>, alive: Seq<bool>, i: int)
    requires
        0 <= i <= subs.len(),
        alive.len() == subs.len(),
    ensures
        forall|s: SubSystem|
            #[trigger] spec_filter_from(subs, alive, i).contains(s) ==> exists|j: int|
                i <= j < subs.len() && alive[j] && subs[j] == s,
    decreases subs.len() - i,
{
    if i < subs.len() {
        lemma_prune_keeps_only_alive(subs, alive, i + 1);
        let rest = spec_filter_from(subs, alive, i + 1);
        let cur = spec_filter_from(subs, alive, i);
        assert forall|s: SubSystem| #[trigger] cur.contains(s) implies exists|j: int|
            i <= j < subs.len() && alive[j] && subs[j] == s by {
            let k = choose|k: int| 0 <= k < cur.len() && cur[k] == s;
            if alive[i] {
                if k == 0 {
                    assert(alive[i] && subs[i] == s);
                } else {
                    assert(cur[k] == rest[k - 1]);
                    assert(rest.contains(s));
                }
            } else {
                assert(cur[k] == rest[k]);
                assert(rest.contains(s));
            }
        }
    }
}

} // verus!
