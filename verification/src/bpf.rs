//! Plain data carried between the kernel-counter backend and the library:
//! per-cgroup counter records, the module capability mask, and the
//! program statistics record.
//!
//! The backend itself is an external collaborator; the library only keeps
//! and combines the values it reports.

use vstd::prelude::*;

verus! {

pub const BPF_MODULE_CGROUP_SCHED: u32 = 1;

pub const BPF_MODULE_CGROUP_MEM: u32 = 3;

pub const BPF_MODULE_CGROUP_IO: u32 = 4;

pub const BPF_MODULE_CGROUP_FS: u32 = 5;

pub const BPF_MODULE_CGROUP_NET: u32 = 6;

pub const BPF_MODULE_CGROUP_PMU: u32 = 10;

pub const BPF_MODULE_SYSTEM_EVENT: u32 = 11;

/// Whether the capability mask reports module `module` as loaded: its bit
/// is set.
pub open spec fn spec_module_valid(mask: u64, module: u32) -> bool {
    mask & (1u64 << (module as u64)) != 0
}

/// Whether the capability mask the backend reported marks `module` valid.
pub fn is_bpf_moudule_valid(mask: u64, module: u32) -> (r: bool)
    requires
        module < 64,
    ensures
        r == spec_module_valid(mask, module),
{
    mask & (1u64 << (module as u64)) != 0
}

/// The mask of the module ids in `ids[..n]`.
pub open spec fn spec_mask_of(ids: Seq<u32>, n: int) -> u64
    decreases n,
{
    if n <= 0 {
        0
    } else {
        spec_mask_of(ids, n - 1) | (1u64 << (ids[n - 1] as u64))
    }
}

/// A set of kernel-counter modules, as the bit mask handed to the backend.
#[derive(Clone, Copy, Debug, PartialEq, Eq, Structural)]
pub struct ModuleMask {
    pub mask: u64,
}

impl Default for ModuleMask {
    fn default() -> (r: Self)
        ensures
            r.mask == 0,
    {
        ModuleMask { mask: 0 }
    }
}

impl ModuleMask {
    pub fn new(mask: u64) -> (r: ModuleMask)
        ensures
            r.mask == mask,
    {
        ModuleMask { mask }
    }

    pub fn get_mask(&self) -> (r: u64)
        ensures
            r == self.mask,
    {
        self.mask
    }

    /// The mask with each listed module's bit set.
    pub fn from(ids: Vec<u32>) -> (r: ModuleMask)
        requires
            forall|i: int| 0 <= i < ids@.len() ==> ids@[i] < 64,
        ensures
            r.mask == spec_mask_of(ids@, ids@.len() as int),
    {
        let n = ids.len();
        let mut mask: u64 = 0;
        let mut i: usize = 0;
        while i < n
            invariant
                n == ids@.len(),
                i <= n,
                forall|j: int| 0 <= j < n ==> ids@[j] < 64,
                mask == spec_mask_of(ids@, i as int),
            decreases n - i,
        {
            mask = mask | (1u64 << (ids[i] as u64));
            i = i + 1;
        }
        ModuleMask { mask }
    }
}

/// Per-cgroup filesystem counters reported by the backend.
#[derive(Clone, Copy, Debug, PartialEq, Eq, Structural, Default)]
pub struct WrapperFSData {
    pub fs_created: u64,
    pub fs_open: u64,
    pub fs_read: u64,
    pub fs_read_bytes: u64,
    pub fs_write: u64,
    pub fs_write_bytes: u64,
    pub fs_fsync: u64,
}

impl WrapperFSData {
    /// The all-zero report.
    pub open spec fn spec_zero() -> WrapperFSData {
        WrapperFSData {
            fs_created: 0,
            fs_open: 0,
            fs_read: 0,
            fs_read_bytes: 0,
            fs_write: 0,
            fs_write_bytes: 0,
            fs_fsync: 0,
        }
    }

    pub fn zero() -> (r: WrapperFSData)
        ensures
            r == WrapperFSData::spec_zero(),
    {
        WrapperFSData {
            fs_created: 0,
            fs_open: 0,
            fs_read: 0,
            fs_read_bytes: 0,
            fs_write: 0,
            fs_write_bytes: 0,
            fs_fsync: 0,
        }
    }

    /// Field-wise difference of two reports; the later report must not be
    /// behind the earlier one.
    pub fn minus(&self, other: &WrapperFSData) -> (r: WrapperFSData)
        requires
            self.fs_created >= other.fs_created,
            self.fs_open >= other.fs_open,
            self.fs_read >= other.fs_read,
            self.fs_read_bytes >= other.fs_read_bytes,
            self.fs_write >= other.fs_write,
            self.fs_write_bytes >= other.fs_write_bytes,
            self.fs_fsync >= other.fs_fsync,
        ensures
            r == (WrapperFSData {
                fs_created: (self.fs_created - other.fs_created) as u64,
                fs_open: (self.fs_open - other.fs_open) as u64,
                fs_read: (self.fs_read - other.fs_read) as u64,
                fs_read_bytes: (self.fs_read_bytes - other.fs_read_bytes) as u64,
                fs_write: (self.fs_write - other.fs_write) as u64,
                fs_write_bytes: (self.fs_write_bytes - other.fs_write_bytes) as u64,
                fs_fsync: (self.fs_fsync - other.fs_fsync) as u64,
            }),
    {
        WrapperFSData {
            fs_created: self.fs_created - other.fs_created,
            fs_open: self.fs_open - other.fs_open,
            fs_read: self.fs_read - other.fs_read,
            fs_read_bytes: self.fs_read_bytes - other.fs_read_bytes,
            fs_write: self.fs_write - other.fs_write,
            fs_write_bytes: self.fs_write_bytes - other.fs_write_bytes,
            fs_fsync: self.fs_fsync - other.fs_fsync,
        }
    }
}

/// Per-cgroup network counters reported by the backend.
#[derive(Clone, Copy, Debug, PartialEq, Eq, Default)]
pub struct WrapperNetData {
    pub net_tcp_rx: u64,
    pub net_tcp_rx_bytes: u64,
    pub net_tcp_tx: u64,
    pub net_tcp_tx_bytes: u64,
    pub net_udp_rx: u64,
    pub net_udp_rx_bytes: u64,
    pub net_udp_tx: u64,
    pub net_udp_tx_bytes: u64,
    pub net_dev_tcp_rx: [u64; 8],
    pub net_dev_tcp_rx_bytes: [u64; 8],
    pub net_dev_tcp_tx: [u64; 8],
    pub net_dev_tcp_tx_bytes: [u64; 8],
    pub net_close_wait: u64,
    pub net_retrans_seqs: u64,
}

impl WrapperNetData {
    /// The all-zero report.
    pub open spec fn spec_zero() -> WrapperNetData {
        WrapperNetData {
            net_tcp_rx: 0,
            net_tcp_rx_bytes: 0,
            net_tcp_tx: 0,
            net_tcp_tx_bytes: 0,
            net_udp_rx: 0,
            net_udp_rx_bytes: 0,
            net_udp_tx: 0,
            net_udp_tx_bytes: 0,
            net_dev_tcp_rx: [0u64, 0u64, 0u64, 0u64, 0u64, 0u64, 0u64, 0u64],
            net_dev_tcp_rx_bytes: [0u64, 0u64, 0u64, 0u64, 0u64, 0u64, 0u64, 0u64],
            net_dev_tcp_tx: [0u64, 0u64, 0u64, 0u64, 0u64, 0u64, 0u64, 0u64],
            net_dev_tcp_tx_bytes: [0u64, 0u64, 0u64, 0u64, 0u64, 0u64, 0u64, 0u64],
            net_close_wait: 0,
            net_retrans_seqs: 0,
        }
    }

    pub fn zero() -> (r: WrapperNetData)
        ensures
            r == WrapperNetData::spec_zero(),
    {
        WrapperNetData {
            net_tcp_rx: 0,
            net_tcp_rx_bytes: 0,
            net_tcp_tx: 0,
            net_tcp_tx_bytes: 0,
            net_udp_rx: 0,
            net_udp_rx_bytes: 0,
            net_udp_tx: 0,
            net_udp_tx_bytes: 0,
            net_dev_tcp_rx: [0u64, 0u64, 0u64, 0u64, 0u64, 0u64, 0u64, 0u64],
            net_dev_tcp_rx_bytes: [0u64, 0u64, 0u64, 0u64, 0u64, 0u64, 0u64, 0u64],
            net_dev_tcp_tx: [0u64, 0u64, 0u64, 0u64, 0u64, 0u64, 0u64, 0u64],
            net_dev_tcp_tx_bytes: [0u64, 0u64, 0u64, 0u64, 0u64, 0u64, 0u64, 0u64],
            net_close_wait: 0,
            net_retrans_seqs: 0,
        }
    }
}

/// Per-cgroup task-state counts reported by the backend's scheduler module.
#[derive(Clone, Copy, Debug, PartialEq, Eq, Structural, Default)]
pub struct TaskNrData {
    pub nr_iowait: u64,
    pub nr_unint: u64,
    pub nr_runnable: u64,
}

/// Per-cgroup PMU counters reported by the backend.
#[derive(Clone, Copy, Debug, PartialEq, Eq, Structural, Default)]
pub struct PmuData {
    pub cycles: u64,
    pub instructions: u64,
    pub ocr_read_drams: u64,
    pub store_ins: u64,
    pub store_all_ins: u64,
    pub imc_writes: u64,
}

/// Per-cgroup I/O latency percentiles reported by the backend.
#[derive(Clone, Copy, Debug, PartialEq, Eq, Structural, Default)]
pub struct WrapperIoLatpcts {
    pub pcts: u32,
    pub sum_latency: IoPercentLatency,
    pub driver_latency: IoPercentLatency,
}

impl WrapperIoLatpcts {
    /// The all-zero report.
    pub open spec fn spec_zero() -> WrapperIoLatpcts {
        WrapperIoLatpcts {
            pcts: 0,
            sum_latency: IoPercentLatency { read_latency: 0, write_latency: 0, discard_latency: 0 },
            driver_latency: IoPercentLatency {
                read_latency: 0,
                write_latency: 0,
                discard_latency: 0,
            },
        }
    }
}

#[derive(Clone, Copy, Debug, PartialEq, Eq, Structural, Default)]
pub struct IoPercentLatency {
    pub read_latency: u32,
    pub write_latency: u32,
    pub discard_latency: u32,
}

impl WrapperSystemEvent {
    /// The all-zero report.
    pub open spec fn spec_zero() -> WrapperSystemEvent {
        WrapperSystemEvent {
            gen: WrapperSystemEventGen {
                soft_lockup: 0,
                rcu_stall: 0,
                bad_page: 0,
                kernel_warn: 0,
                mce_uc: 0,
                panic_ts: 0,
            },
            io: WrapperSystemEventIO { io_error: 0 },
            fs: WrapperSystemEventFS { ext4_error: 0 },
            net: WrapperSystemEventNet { xmit_timeout: 0, tcp_bad_csum: 0, link_down: 0 },
            mem: WrapperSystemEventMem { alloc_failure: 0 },
            sched: WrapperSystemEventSched { hung_task: 0, coredump: 0 },
        }
    }

    pub fn zero() -> (r: WrapperSystemEvent)
        ensures
            r == WrapperSystemEvent::spec_zero(),
    {
        WrapperSystemEvent {
            gen: WrapperSystemEventGen {
                soft_lockup: 0,
                rcu_stall: 0,
                bad_page: 0,
                kernel_warn: 0,
                mce_uc: 0,
                panic_ts: 0,
            },
            io: WrapperSystemEventIO { io_error: 0 },
            fs: WrapperSystemEventFS { ext4_error: 0 },
            net: WrapperSystemEventNet { xmit_timeout: 0, tcp_bad_csum: 0, link_down: 0 },
            mem: WrapperSystemEventMem { alloc_failure: 0 },
            sched: WrapperSystemEventSched { hung_task: 0, coredump: 0 },
        }
    }
}

/// System-wide event counts reported by the backend.
#[derive(Clone, Copy, Debug, PartialEq, Eq, Structural, Default)]
pub struct WrapperSystemEvent {
    /// general events
    pub gen: WrapperSystemEventGen,
    /// io events
    pub io: WrapperSystemEventIO,
    /// fs events
    pub fs: WrapperSystemEventFS,
    /// net events
    pub net: WrapperSystemEventNet,
    /// mem events
    pub mem: WrapperSystemEventMem,
    /// cpu events
    pub sched: WrapperSystemEventSched,
}

#[derive(Clone, Copy, Debug, PartialEq, Eq, Structural, Default)]
pub struct WrapperSystemEventGen {
    pub soft_lockup: u64,
    pub rcu_stall: u64,
    pub bad_page: u64,
    pub kernel_warn: u64,
    pub mce_uc: u64,
    pub panic_ts: u64,
}

#[derive(Clone, Copy, Debug, PartialEq, Eq, Structural, Default)]
pub struct WrapperSystemEventIO {
    pub io_error: u64,
}

#[derive(Clone, Copy, Debug, PartialEq, Eq, Structural, Default)]
pub struct WrapperSystemEventFS {
    pub ext4_error: u64,
}

#[derive(Clone, Copy, Debug, PartialEq, Eq, Structural, Default)]
pub struct WrapperSystemEventNet {
    pub xmit_timeout: u64,
    pub tcp_bad_csum: u64,
    pub link_down: u64,
}

#[derive(Clone, Copy, Debug, PartialEq, Eq, Structural, Default)]
pub struct WrapperSystemEventMem {
    pub alloc_failure: u64,
}

#[derive(Clone, Copy, Debug, PartialEq, Eq, Structural, Default)]
pub struct WrapperSystemEventSched {
    pub hung_task: u64,
    pub coredump: u64,
}

/// One loaded program's statistics as the backend reports them.
#[derive(Clone, Copy, Debug, Default)]
pub struct WrapperBpfProgStat {
    pub id: u32,
    pub name: [char; 16],
    pub run_time_ns: u64,
    pub run_cnt: u64,
    pub load_time: u64,
}

impl WrapperBpfProgStat {
    pub fn new() -> (r: WrapperBpfProgStat)
        ensures
            r.id == 0,
            r.run_time_ns == 0,
            r.run_cnt == 0,
            r.load_time == 0,
    {
        WrapperBpfProgStat {
            id: 0,
            name: [' ';16],
            run_time_ns: 0,
            run_cnt: 0,
            load_time: 0,
        }
    }
}

} // verus!
