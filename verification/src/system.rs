//! The root aggregate: every sampled domain, the cgroup table, and the
//! settings-driven lifecycle that turns domains off and resets their data.

use vstd::prelude::*;

use crate::bpf::{ModuleMask, WrapperBpfProgStat, WrapperSystemEvent};
use crate::cgroup::{
    spec_cgroup_reset_applied, spec_sub_cleared, CGroup, SubSystem,
};
use crate::disk::Disk;
use crate::kvmap::KvMap;
use crate::loadavg::LoadAvg;
use crate::meminfo::MemoryInfo;
use crate::net::NetInfo;
use crate::numa::SystemDeviceNode;
use crate::nodevec::NodeVec;
use crate::procstat::SystemProcessStats;
use crate::psi::SystemPSI;
use crate::settings::{spec_sub_of, DataSourceConf, Settings, SubSystemType};
use crate::sysproc::SystemProcessorInfo;
use crate::traffic::Traffic;

verus! {

/// The backend's system-wide event counts, with their sample time.
#[derive(Clone, Copy, Debug, PartialEq, Eq, Structural, Default)]
pub struct SystemEventData {
    pub event_data: WrapperSystemEvent,
    pub update_time: u64,
}

impl SystemEventData {
    pub open spec fn spec_zero() -> SystemEventData {
        SystemEventData { event_data: WrapperSystemEvent::spec_zero(), update_time: 0 }
    }

    pub fn reset(&mut self)
        ensures
            *final(self) == SystemEventData::spec_zero(),
    {
        self.event_data = WrapperSystemEvent::zero();
        self.update_time = 0;
    }

    /// Take one backend report.
    pub fn update(&mut self, data: WrapperSystemEvent, now: u64)
        ensures
            *final(self) == (SystemEventData { event_data: data, update_time: now }),
    {
        self.event_data = data;
        self.update_time = now;
    }
}

/// The backend's per-program statistics, with their sample time.
#[derive(Clone, Debug, Default)]
pub struct BPFProgStats {
    pub stats: Vec<WrapperBpfProgStat>,
    pub update_time: u64,
}

impl BPFProgStats {
    pub fn reset(&mut self)
        ensures
            final(self).stats@.len() == 0,
            final(self).update_time == 0,
    {
        self.stats = Vec::new();
        self.update_time = 0;
    }

    /// Take one backend report.
    pub fn update(&mut self, stats: Vec<WrapperBpfProgStat>, now: u64)
        ensures
            final(self).stats == stats,
            final(self).update_time == now,
    {
        self.stats = stats;
        self.update_time = now;
    }
}

/// Whether one subsystem's switch under a data source is on; a subsystem
/// without an entry of its own counts as on.
pub open spec fn spec_knob_sub(ds: DataSourceConf, t: SubSystemType) -> bool {
    match spec_sub_of(ds, t) {
        Some(sub) => sub.enable,
        None => true,
    }
}

/// Whether any of a data source's four subsystem switches is off.
pub open spec fn spec_any_sub_disabled(ds: DataSourceConf) -> bool {
    ||| !spec_knob_sub(ds, SubSystemType::Cpu)
    ||| !spec_knob_sub(ds, SubSystemType::Mem)
    ||| !spec_knob_sub(ds, SubSystemType::Net)
    ||| !spec_knob_sub(ds, SubSystemType::Storage)
}

/// The verdict vector the caller supplied for the cgroup at table position
/// `j`; a missing one reads as empty (and matches no non-empty cgroup).
pub open spec fn spec_flags_at(path_exists: Seq<Vec<bool>>, j: int) -> Seq<bool> {
    if 0 <= j < path_exists.len() {
        path_exists[j]@
    } else {
        Seq::empty()
    }
}

/// The kernel-counter modules the settings ask the backend to run: the
/// base cgroup walker and the system-event module always, plus one module
/// per enabled subsystem; none when the source is off.
pub open spec fn spec_ebpf_ids(ds: DataSourceConf) -> Seq<u32> {
    if !ds.enable {
        Seq::empty()
    } else {
        let with_base = seq![0u32, crate::bpf::BPF_MODULE_SYSTEM_EVENT];
        let with_mem = if spec_knob_sub(ds, SubSystemType::Mem) {
            with_base.push(crate::bpf::BPF_MODULE_CGROUP_MEM)
        } else {
            with_base
        };
        let with_cpu = if spec_knob_sub(ds, SubSystemType::Cpu) {
            with_mem.push(crate::bpf::BPF_MODULE_CGROUP_SCHED)
        } else {
            with_mem
        };
        let with_storage = if spec_knob_sub(ds, SubSystemType::Storage) {
            with_cpu.push(crate::bpf::BPF_MODULE_CGROUP_FS).push(crate::bpf::BPF_MODULE_CGROUP_IO)
        } else {
            with_cpu
        };
        if spec_knob_sub(ds, SubSystemType::Net) {
            with_storage.push(crate::bpf::BPF_MODULE_CGROUP_NET)
        } else {
            with_storage
        }
    }
}

/// The PMU modules the settings ask that backend to run: one per enabled
/// subsystem; none when the source is off.
pub open spec fn spec_byteperf_ids(ds: DataSourceConf) -> Seq<u32> {
    if !ds.enable {
        Seq::empty()
    } else {
        let with_cpu = if spec_knob_sub(ds, SubSystemType::Cpu) {
            seq![crate::bpf::BPF_MODULE_CGROUP_PMU]
        } else {
            Seq::empty()
        };
        if spec_knob_sub(ds, SubSystemType::Mem) {
            with_cpu.push(crate::bpf::BPF_MODULE_CGROUP_MEM)
        } else {
            with_cpu
        }
    }
}

/// One table-wide reset pass: every cgroup keeps its key, and its record
/// takes one per-cgroup reset pass with its own verdict vector.
pub open spec fn spec_table_reset_applied(
    pre: KvMap<CGroup>,
    post: KvMap<CGroup>,
    ds: DataSourceConf,
    path_exists: Seq<Vec<bool>>,
    now: u64,
) -> bool {
    &&& post.spec_len() == pre.spec_len()
    &&& forall|j: int| 0 <= j < pre.spec_len() ==> post.key_view_at(j) == pre.key_view_at(j)
    &&& forall|j: int|
        0 <= j < pre.spec_len() ==> spec_cgroup_reset_applied(
            pre.map_view()[#[trigger] pre.key_view_at(j)],
            post.map_view()[pre.key_view_at(j)],
            ds,
            spec_flags_at(path_exists, j),
            now,
        )
}

/// One complete snapshot of everything the agent samples.
#[derive(Clone)]
pub struct System {
    pub processors: SystemProcessorInfo,
    pub process_stats: SystemProcessStats,
    pub cgroup_list: KvMap<CGroup>,
    pub memory: MemoryInfo,
    pub load: LoadAvg,
    pub net_traffic: Traffic,
    pub net_info: NetInfo,
    pub system_devices_node: SystemDeviceNode,
    pub disk_io: Disk,
    pub system_pressure: Option<SystemPSI>,
    pub system_events: SystemEventData,
    pub bpf_stats: BPFProgStats,
}

impl System {
    pub open spec fn wf(&self) -> bool {
        &&& self.processors.wf()
        &&& self.cgroup_list.wf()
        &&& self.load.wf()
        &&& forall|k: Seq<char>|
            #[trigger] self.cgroup_list.map_view().contains_key(k) ==> self.cgroup_list.map_view()[
                k
            ].wf()
    }

    /// A fresh, empty snapshot; the cgroup table grows only through
    /// explicit discovery events.
    pub fn new() -> (r: System)
        ensures
            r.wf(),
            r.cgroup_list.map_view() == Map::<Seq<char>, CGroup>::empty(),
            r.load == LoadAvg::spec_new(),
            r.memory == MemoryInfo::spec_new(),
            r.net_info == NetInfo::spec_new(),
            r.system_pressure is None,
            r.system_events == SystemEventData::spec_zero(),
    {
        System {
            processors: SystemProcessorInfo::new(),
            process_stats: SystemProcessStats { procs_running: None, procs_blocked: None },
            cgroup_list: KvMap::new(),
            memory: MemoryInfo::new(),
            load: LoadAvg::new(),
            net_traffic: Traffic::new(),
            net_info: NetInfo::new(),
            system_devices_node: SystemDeviceNode {
                has_cpu: NodeVec::new(),
                has_memory: NodeVec::new(),
                nodes: Vec::new(),
            },
            disk_io: Disk::new(),
            system_pressure: None,
            system_events: SystemEventData { event_data: crate::bpf::WrapperSystemEvent::zero(), update_time: 0 },
            bpf_stats: BPFProgStats { stats: Vec::new(), update_time: 0 },
        }
    }

    pub fn get_processors(&self) -> (r: &SystemProcessorInfo)
        ensures
            r == &self.processors,
    {
        &self.processors
    }

    pub fn get_system_device_nodes(&self) -> (r: &SystemDeviceNode)
        ensures
            r == &self.system_devices_node,
    {
        &self.system_devices_node
    }

    pub fn get_memory_info(&self) -> (r: &MemoryInfo)
        ensures
            r == &self.memory,
    {
        &self.memory
    }

    pub fn get_load(&self) -> (r: &LoadAvg)
        ensures
            r == &self.load,
    {
        &self.load
    }

    pub fn get_net_info(&self) -> (r: &NetInfo)
        ensures
            r == &self.net_info,
    {
        &self.net_info
    }

    pub fn get_net_traffic(&self) -> (r: &Traffic)
        ensures
            r == &self.net_traffic,
    {
        &self.net_traffic
    }

    pub fn get_disk_io(&self) -> (r: &Disk)
        ensures
            r == &self.disk_io,
    {
        &self.disk_io
    }

    pub fn get_process_stats(&self) -> (r: &SystemProcessStats)
        ensures
            r == &self.process_stats,
    {
        &self.process_stats
    }

    pub fn get_system_pressure(&self) -> (r: &Option<SystemPSI>)
        ensures
            r == &self.system_pressure,
    {
        &self.system_pressure
    }

    pub fn get_system_event(&self) -> (r: &SystemEventData)
        ensures
            r == &self.system_events,
    {
        &self.system_events
    }

    pub fn get_bpf_prog_stats(&self) -> (r: &BPFProgStats)
        ensures
            r == &self.bpf_stats,
    {
        &self.bpf_stats
    }

    /// The cgroup registered under a user path, if any.
    pub fn get_cgroups(&self, path: &str) -> (r: Option<&CGroup>)
        requires
            self.wf(),
        ensures
            match r {
                Some(c) => self.cgroup_list.map_view().contains_key(path@) && *c
                    == self.cgroup_list.map_view()[path@],
                None => !self.cgroup_list.map_view().contains_key(path@),
            },
    {
        self.cgroup_list.get(path)
    }

    /// Register a discovered cgroup under its user path. First write wins:
    /// a path that is already registered keeps its existing record, and the
    /// table is unchanged.
    pub fn insert_cgroups_item(&mut self, item: CGroup) -> (r: bool)
        requires
            old(self).wf(),
            item.wf(),
        ensures
            final(self).wf(),
            r == true,
            final(self).cgroup_list.map_view() == (if old(self).cgroup_list.map_view().contains_key(item.user_path@) {
                old(self).cgroup_list.map_view()
            } else {
                old(self).cgroup_list.map_view().insert(item.user_path@, item)
            }),
            *final(self) == (System { cgroup_list: final(self).cgroup_list, ..*old(self) }),
    {
        let present = match self.cgroup_list.get(item.user_path.as_str()) {
            Some(_) => true,
            None => false,
        };
        if !present {
            let key = item.user_path.clone();
            self.cgroup_list.set(key, item);
        }
        true
    }

    /// Drop every cgroup whose controller list has become empty; the
    /// verdicts of earlier prunes decide, so an invalid cgroup leaves the
    /// table on the next pass.
    pub fn drop_invalid_cgroups(&mut self)
        requires
            old(self).wf(),
        ensures
            final(self).wf(),
            forall|k: Seq<char>|
                #[trigger] final(self).cgroup_list.map_view().contains_key(k) <==> (old(self).cgroup_list.map_view().contains_key(k)
                    && old(self).cgroup_list.map_view()[k].sub_system_groups@.len() > 0),
            forall|k: Seq<char>|
                #[trigger] final(self).cgroup_list.map_view().contains_key(k)
                    ==> final(self).cgroup_list.map_view()[k] == old(self).cgroup_list.map_view()[k],
            *final(self) == (System { cgroup_list: final(self).cgroup_list, ..*old(self) }),
    {
        let ghost m0 = self.cgroup_list.map_view();
        let n = self.cgroup_list.len();
        let mut kept: KvMap<CGroup> = KvMap::new();
        let mut i: usize = 0;
        while i < n
            invariant
                self.cgroup_list.wf(),
                n == self.cgroup_list.spec_len(),
                i <= n,
                *self == (System { cgroup_list: self.cgroup_list, ..*old(self) }),
                forall|j: int|
                    0 <= j < n ==> self.cgroup_list.key_view_at(j) == old(self).cgroup_list.key_view_at(j),
                forall|k: Seq<char>|
                    #[trigger] self.cgroup_list.map_view().contains_key(k) == m0.contains_key(k),
                forall|k: Seq<char>|
                    #[trigger] self.cgroup_list.map_view().contains_key(k) && !(exists|j: int|
                        0 <= j < i && self.cgroup_list.key_view_at(j) == k)
                        ==> self.cgroup_list.map_view()[k] == m0[k],
                m0 == old(self).cgroup_list.map_view(),
                old(self).wf(),
                kept.wf(),
                forall|q: Seq<char>|
                    #[trigger] kept.map_view().contains_key(q) <==> exists|j: int|
                        0 <= j < i && self.cgroup_list.key_view_at(j) == q && m0[
                            q
                        ].sub_system_groups@.len() > 0,
                forall|q: Seq<char>|
                    #[trigger] kept.map_view().contains_key(q) ==> m0.contains_key(q)
                        && kept.map_view()[q] == m0[q] && m0[q].wf(),
            decreases n - i,
        {
            proof {
                self.cgroup_list.lemma_positions();
            }
            let ghost kq = self.cgroup_list.key_view_at(i as int);
            proof {
                assert(self.cgroup_list.map_view().contains_key(kq));
                assert(!(exists|j: int| 0 <= j < i && self.cgroup_list.key_view_at(j) == kq));
                assert(self.cgroup_list.map_view()[kq] == m0[kq]);
            }
            let dummy = CGroup::new("", "", crate::cgtypes::CGroupType::V1);
            let key = self.cgroup_list.key_at(i).clone();
            let cg = self.cgroup_list.take_val_at(i, dummy);
            let keep = cg.len() > 0;
            let ghost kept_before = kept.map_view();
            if keep {
                kept.set(key, cg);
            }
            proof {
                assert forall|q: Seq<char>| #[trigger] kept.map_view().contains_key(q)
                    <==> exists|j: int|
                    0 <= j < i + 1 && self.cgroup_list.key_view_at(j) == q && m0[
                        q
                    ].sub_system_groups@.len() > 0 by {
                    if kept.map_view().contains_key(q) {
                        if q == kq {
                            assert(self.cgroup_list.key_view_at(i as int) == q);
                        } else {
                            assert(kept_before.contains_key(q));
                        }
                    } else {
                        if exists|j: int|
                            0 <= j < i + 1 && self.cgroup_list.key_view_at(j) == q && m0[
                                q
                            ].sub_system_groups@.len() > 0 {
                            let j = choose|j: int|
                                0 <= j < i + 1 && self.cgroup_list.key_view_at(j) == q && m0[
                                    q
                                ].sub_system_groups@.len() > 0;
                            if j == i as int {
                                assert(q == kq);
                                assert(m0[kq].sub_system_groups@.len() > 0);
                                assert(false);
                            } else {
                                assert(kept_before.contains_key(q));
                                assert(false);
                            }
                        }
                    }
                }
                assert forall|k: Seq<char>|
                    #[trigger] self.cgroup_list.map_view().contains_key(k) && !(exists|j: int|
                        0 <= j < i + 1 && self.cgroup_list.key_view_at(j) == k)
                        implies self.cgroup_list.map_view()[k] == m0[k] by {
                    assert(k != kq);
                }
            }
            i = i + 1;
        }
        proof {
            self.cgroup_list.lemma_positions();
            assert forall|q: Seq<char>| #[trigger] kept.map_view().contains_key(q) <==> (
            m0.contains_key(q) && m0[q].sub_system_groups@.len() > 0) by {
                if m0.contains_key(q) && m0[q].sub_system_groups@.len() > 0 {
                    assert(self.cgroup_list.map_view().contains_key(q));
                    let j = choose|j: int|
                        0 <= j < self.cgroup_list.spec_len() && self.cgroup_list.key_view_at(j)
                            == q;
                    assert(kept.map_view().contains_key(q));
                }
            }
        }
        self.cgroup_list = kept;
    }

    /// Clear every processor-related reading.
    pub fn turn_off_proc_cpu(&mut self)
        requires
            old(self).wf(),
        ensures
            final(self).wf(),
            final(self).load == LoadAvg::spec_new(),
            final(self).process_stats == SystemProcessStats::spec_new(),
            final(self).processors.global_processor@ == crate::processor::spec_processor_new(
                old(self).processors.global_processor@.name,
            ),
            final(self).processors.table_view().dom() == old(self).processors.table_view().dom(),
            forall|k: Seq<char>|
                #[trigger] old(self).processors.table_view().contains_key(k)
                    ==> final(self).processors.table_view()[k]
                    == crate::processor::spec_processor_new(k),
            *final(self) == (System {
                load: final(self).load,
                processors: final(self).processors,
                process_stats: final(self).process_stats,
                ..*old(self)
            }),
    {
        self.load.reset();
        self.processors.reset();
        self.process_stats.reset();
    }

    /// Clear the memory readings.
    pub fn turn_off_proc_mem(&mut self)
        requires
            old(self).wf(),
        ensures
            final(self).wf(),
            *final(self) == (System { memory: MemoryInfo::spec_new(), ..*old(self) }),
    {
        self.memory.reset();
    }

    /// Clear the network readings.
    pub fn turn_off_proc_net(&mut self)
        requires
            old(self).wf(),
        ensures
            final(self).wf(),
            final(self).net_info == NetInfo::spec_new(),
            final(self).net_traffic.inner@.len() == 0,
            *final(self) == (System {
                net_info: final(self).net_info,
                net_traffic: final(self).net_traffic,
                ..*old(self)
            }),
    {
        self.net_traffic.reset();
        self.net_info.reset();
    }

    /// Clear the disk readings.
    pub fn turn_off_proc_disk(&mut self)
        requires
            old(self).wf(),
        ensures
            final(self).wf(),
            final(self).disk_io.stats@.len() == 0,
            final(self).disk_io.usage@.len() == 0,
            *final(self) == (System { disk_io: final(self).disk_io, ..*old(self) }),
    {
        self.disk_io.reset();
    }

    pub fn turn_off_proc_all(&mut self)
        requires
            old(self).wf(),
        ensures
            final(self).wf(),
            final(self).load == LoadAvg::spec_new(),
            final(self).process_stats == SystemProcessStats::spec_new(),
            final(self).memory == MemoryInfo::spec_new(),
            final(self).net_info == NetInfo::spec_new(),
            final(self).net_traffic.inner@.len() == 0,
            final(self).disk_io.stats@.len() == 0,
            final(self).disk_io.usage@.len() == 0,
            final(self).cgroup_list == old(self).cgroup_list,
            final(self).processors.table_view().dom() == old(self).processors.table_view().dom(),
            forall|k: Seq<char>|
                #[trigger] old(self).processors.table_view().contains_key(k)
                    ==> final(self).processors.table_view()[k]
                    == crate::processor::spec_processor_new(k),
            *final(self) == (System {
                load: final(self).load,
                processors: final(self).processors,
                process_stats: final(self).process_stats,
                memory: final(self).memory,
                net_info: final(self).net_info,
                net_traffic: final(self).net_traffic,
                disk_io: final(self).disk_io,
                ..*old(self)
            }),
    {
        self.turn_off_proc_cpu();
        self.turn_off_proc_mem();
        self.turn_off_proc_net();
        self.turn_off_proc_disk();
    }

    /// Clear the NUMA readings.
    pub fn turn_off_sys_mem(&mut self)
        requires
            old(self).wf(),
        ensures
            final(self).wf(),
            final(self).system_devices_node.nodes@.len()
                == old(self).system_devices_node.nodes@.len(),
            forall|i: int|
                0 <= i < final(self).system_devices_node.nodes@.len()
                    ==> (#[trigger] final(self).system_devices_node.nodes@[i]).mem_total == 0
                    && final(self).system_devices_node.nodes@[i].mem_available == 0,
            *final(self) == (System {
                system_devices_node: final(self).system_devices_node,
                ..*old(self)
            }),
    {
        self.system_devices_node.reset();
    }

    pub fn turn_off_sys_all(&mut self)
        requires
            old(self).wf(),
        ensures
            final(self).wf(),
            forall|i: int|
                0 <= i < final(self).system_devices_node.nodes@.len()
                    ==> (#[trigger] final(self).system_devices_node.nodes@[i]).mem_total == 0
                    && final(self).system_devices_node.nodes@[i].mem_available == 0,
            *final(self) == (System {
                system_devices_node: final(self).system_devices_node,
                ..*old(self)
            }),
    {
        self.turn_off_sys_mem();
    }

    /// Clear the backend's system-event counters.
    pub fn turn_off_system_event(&mut self)
        requires
            old(self).wf(),
        ensures
            final(self).wf(),
            *final(self) == (System { system_events: SystemEventData::spec_zero(), ..*old(self) }),
    {
        self.system_events.reset();
    }

    /// React to the process-filesystem data source's switches: a disabled
    /// source clears everything it feeds; an enabled one clears exactly the
    /// subsystems whose own switch is off.
    pub fn handle_proc_knob(&mut self, ds_settings: &DataSourceConf)
        requires
            old(self).wf(),
        ensures
            final(self).wf(),
            !ds_settings.enable ==> final(self).load == LoadAvg::spec_new() && final(self).memory
                == MemoryInfo::spec_new() && final(self).net_info == NetInfo::spec_new()
                && final(self).disk_io.stats@.len() == 0 && final(self).disk_io.usage@.len() == 0
                && final(self).net_traffic.inner@.len() == 0 && final(self).process_stats
                == SystemProcessStats::spec_new(),
            (!ds_settings.enable || !ds_settings.cpu.enable) ==> final(self).processors.table_view().dom() == old(self).processors.table_view().dom() && (forall|
                k: Seq<char>,
            |
                #[trigger] old(self).processors.table_view().contains_key(k)
                    ==> final(self).processors.table_view()[k]
                    == crate::processor::spec_processor_new(k)),
            ds_settings.enable && !ds_settings.cpu.enable ==> final(self).load
                == LoadAvg::spec_new() && final(self).process_stats
                == SystemProcessStats::spec_new(),
            ds_settings.enable && !ds_settings.mem.enable ==> final(self).memory
                == MemoryInfo::spec_new(),
            ds_settings.enable && !ds_settings.net.enable ==> final(self).net_info
                == NetInfo::spec_new() && final(self).net_traffic.inner@.len() == 0,
            ds_settings.enable && !ds_settings.storage.enable
                ==> final(self).disk_io.stats@.len() == 0 && final(self).disk_io.usage@.len()
                == 0,
            ds_settings.enable && ds_settings.cpu.enable ==> final(self).load == old(self).load
                && final(self).processors == old(self).processors,
            ds_settings.enable && ds_settings.mem.enable ==> final(self).memory == old(self).memory,
            ds_settings.enable && ds_settings.net.enable ==> final(self).net_info
                == old(self).net_info && final(self).net_traffic == old(self).net_traffic,
            ds_settings.enable && ds_settings.storage.enable ==> final(self).disk_io
                == old(self).disk_io,
            final(self).cgroup_list == old(self).cgroup_list,
            *final(self) == (System {
                load: final(self).load,
                processors: final(self).processors,
                process_stats: final(self).process_stats,
                memory: final(self).memory,
                net_info: final(self).net_info,
                net_traffic: final(self).net_traffic,
                disk_io: final(self).disk_io,
                ..*old(self)
            }),
    {
        if !ds_settings.is_enable() {
            self.turn_off_proc_all();
            return ;
        }
        if !self.knob_sub_enabled(ds_settings, SubSystemType::Cpu) {
            self.turn_off_proc_cpu();
        }
        if !self.knob_sub_enabled(ds_settings, SubSystemType::Mem) {
            self.turn_off_proc_mem();
        }
        if !self.knob_sub_enabled(ds_settings, SubSystemType::Net) {
            self.turn_off_proc_net();
        }
        if !self.knob_sub_enabled(ds_settings, SubSystemType::Storage) {
            self.turn_off_proc_disk();
        }
    }

    /// Whether one subsystem's switch under a data source is on.
    fn knob_sub_enabled(&self, ds_settings: &DataSourceConf, t: SubSystemType) -> (r: bool)
        ensures
            r == (match crate::settings::spec_sub_of(*ds_settings, t) {
                Some(s) => s.enable,
                None => true,
            }),
    {
        match ds_settings.get_sub_system(t) {
            Some(s) => s.is_enable(),
            None => true,
        }
    }

    /// React to the sysfs data source's switches.
    pub fn handle_sys_knob(&mut self, ds_settings: &DataSourceConf)
        requires
            old(self).wf(),
        ensures
            final(self).wf(),
            (!ds_settings.enable || !ds_settings.mem.enable) ==> forall|i: int|
                0 <= i < final(self).system_devices_node.nodes@.len()
                    ==> (#[trigger] final(self).system_devices_node.nodes@[i]).mem_total == 0
                    && final(self).system_devices_node.nodes@[i].mem_available == 0,
            (ds_settings.enable && ds_settings.mem.enable) ==> *final(self) == *old(self),
            final(self).cgroup_list == old(self).cgroup_list,
            *final(self) == (System {
                system_devices_node: final(self).system_devices_node,
                ..*old(self)
            }),
    {
        if !ds_settings.is_enable() {
            self.turn_off_sys_all();
            return ;
        }
        if !self.knob_sub_enabled(ds_settings, SubSystemType::Mem) {
            self.turn_off_sys_mem();
        }
    }

    /// Reset every registered cgroup's just-disabled controllers, as the
    /// per-cgroup reset does; the caller hands the path verdicts per
    /// cgroup, in table order. See `spec_table_reset_applied`.
    pub fn turn_off_cgroup(
        &mut self,
        ds_settings: &DataSourceConf,
        path_exists: &Vec<Vec<bool>>,
        now: u64,
    )
        requires
            old(self).wf(),
        ensures
            final(self).wf(),
            final(self).cgroup_list.map_view().dom() == old(self).cgroup_list.map_view().dom(),
            spec_table_reset_applied(
                old(self).cgroup_list,
                final(self).cgroup_list,
                *ds_settings,
                path_exists@,
                now,
            ),
            *final(self) == (System { cgroup_list: final(self).cgroup_list, ..*old(self) }),
    {
        let n = self.cgroup_list.len();
        let mut i: usize = 0;
        while i < n
            invariant
                self.cgroup_list.wf(),
                n == self.cgroup_list.spec_len(),
                i <= n,
                *self == (System { cgroup_list: self.cgroup_list, ..*old(self) }),
                forall|k: Seq<char>|
                    #[trigger] self.cgroup_list.map_view().contains_key(k) ==> self
                        .cgroup_list.map_view()[k].wf(),
                self.cgroup_list.map_view().dom() == old(self).cgroup_list.map_view().dom(),
                self.cgroup_list.spec_len() == old(self).cgroup_list.spec_len(),
                forall|j: int|
                    0 <= j < n ==> self.cgroup_list.key_view_at(j) == old(self).cgroup_list.key_view_at(j),
                forall|j: int|
                    i <= j < n ==> self.cgroup_list.map_view()[#[trigger] self
                        .cgroup_list.key_view_at(j)] == old(self).cgroup_list.map_view()[self
                        .cgroup_list.key_view_at(j)],
                forall|j: int|
                    0 <= j < i ==> spec_cgroup_reset_applied(
                        old(self).cgroup_list.map_view()[#[trigger] self.cgroup_list.key_view_at(
                            j,
                        )],
                        self.cgroup_list.map_view()[self.cgroup_list.key_view_at(j)],
                        *ds_settings,
                        spec_flags_at(path_exists@, j),
                        now,
                    ),
            decreases n - i,
        {
            proof {
                self.cgroup_list.lemma_positions();
            }
            let flags: Vec<bool> = if i < path_exists.len() {
                path_exists[i].clone()
            } else {
                Vec::new()
            };
            let ghost ki = self.cgroup_list.key_view_at(i as int);
            let dummy = CGroup::new("", "", crate::cgtypes::CGroupType::V1);
            let mut cg = self.cgroup_list.take_val_at(i, dummy);
            let ghost pre_cg = cg;
            if flags.len() == cg.len() {
                cg.reset(ds_settings, &flags, now);
            }
            let ghost before = self.cgroup_list.map_view();
            self.cgroup_list.set_val_at(i, cg);
            proof {
                self.cgroup_list.lemma_positions();
                assert(self.cgroup_list.map_view().dom() =~= old(self).cgroup_list.map_view().dom());
                assert(flags@ == spec_flags_at(path_exists@, i as int));
                assert(spec_cgroup_reset_applied(
                    pre_cg,
                    cg,
                    *ds_settings,
                    spec_flags_at(path_exists@, i as int),
                    now,
                ));
                assert forall|j: int|
                    0 <= j < i + 1 implies spec_cgroup_reset_applied(
                    old(self).cgroup_list.map_view()[#[trigger] self.cgroup_list.key_view_at(j)],
                    self.cgroup_list.map_view()[self.cgroup_list.key_view_at(j)],
                    *ds_settings,
                    spec_flags_at(path_exists@, j),
                    now,
                ) by {
                    if j < i as int {
                        assert(self.cgroup_list.key_view_at(j) != ki);
                    }
                }
            }
            i = i + 1;
        }
    }

    /// React to the cgroup data source's switches: when the source or any
    /// of its subsystems is off, the whole table takes a reset pass (which
    /// clears exactly the disabled controllers of every cgroup); with
    /// everything on, nothing moves.
    pub fn handle_cgroup_knob(
        &mut self,
        ds_settings: &DataSourceConf,
        path_exists: &Vec<Vec<bool>>,
        now: u64,
    )
        requires
            old(self).wf(),
        ensures
            final(self).wf(),
            final(self).cgroup_list.map_view().dom() == old(self).cgroup_list.map_view().dom(),
            (!ds_settings.enable || spec_any_sub_disabled(*ds_settings))
                ==> spec_table_reset_applied(
                old(self).cgroup_list,
                final(self).cgroup_list,
                *ds_settings,
                path_exists@,
                now,
            ),
            (ds_settings.enable && !spec_any_sub_disabled(*ds_settings)) ==> *final(self) == *old(self),
            *final(self) == (System { cgroup_list: final(self).cgroup_list, ..*old(self) }),
    {
        if !ds_settings.is_enable() {
            self.turn_off_cgroup(ds_settings, path_exists, now);
            return ;
        }
        let any_disabled = !self.knob_sub_enabled(ds_settings, SubSystemType::Cpu)
            || !self.knob_sub_enabled(ds_settings, SubSystemType::Mem) || !self.knob_sub_enabled(
            ds_settings,
            SubSystemType::Net,
        ) || !self.knob_sub_enabled(ds_settings, SubSystemType::Storage);
        if any_disabled {
            self.turn_off_cgroup(ds_settings, path_exists, now);
        }
    }

    /// Clear every processor's PMU figures: each record keeps everything
    /// but its cycles-per-instruction data, which is unset.
    pub fn reset_cpu_cpi_data(&mut self)
        requires
            old(self).wf(),
        ensures
            final(self).wf(),
            *final(self) == (System { processors: final(self).processors, ..*old(self) }),
            final(self).processors.global_processor == old(self).processors.global_processor,
            final(self).processors.table_view().dom() == old(self).processors.table_view().dom(),
            forall|k: Seq<char>|
                #[trigger] old(self).processors.table_view().contains_key(k)
                    ==> final(self).processors.table_view()[k] == (crate::processor::ProcessorView {
                    processor_cpi_data: None,
                    ..old(self).processors.table_view()[k]
                }),
    {
        let n = self.processors.inner.len();
        let mut i: usize = 0;
        proof {
            self.processors.inner.lemma_positions();
        }
        while i < n
            invariant
                self.processors.inner.wf(),
                n == self.processors.inner.spec_len(),
                i <= n,
                *self == (System { processors: self.processors, ..*old(self) }),
                self.processors.global_processor == old(self).processors.global_processor,
                crate::sysproc::spec_table_wf(self.processors.table_view()),
                crate::processor::spec_processor_wf(self.processors.global_processor@),
                self.processors.table_view().dom() == old(self).processors.table_view().dom(),
                self.processors.inner.spec_len() == old(self).processors.inner.spec_len(),
                forall|j: int|
                    0 <= j < n ==> self.processors.inner.key_view_at(j) == old(self).processors.inner.key_view_at(j),
                forall|j: int|
                    0 <= j < n ==> self.processors.table_view().contains_key(
                        #[trigger] self.processors.inner.key_view_at(j),
                    ),
                forall|j: int|
                    i <= j < n ==> self.processors.table_view()[#[trigger] self
                        .processors.inner.key_view_at(j)] == old(self).processors.table_view()[self
                        .processors.inner.key_view_at(j)],
                forall|j: int|
                    0 <= j < i ==> self.processors.table_view()[#[trigger] self
                        .processors.inner.key_view_at(j)] == (crate::processor::ProcessorView {
                        processor_cpi_data: None,
                        ..old(self).processors.table_view()[self.processors.inner.key_view_at(j)]
                    }),
            decreases n - i,
        {
            proof {
                self.processors.inner.lemma_positions();
            }
            let ghost ki = self.processors.inner.key_view_at(i as int);
            let dummy = crate::processor::Processor::new(String::new());
            let mut p = self.processors.inner.take_val_at(i, dummy);
            p.reset_cpu_cpi();
            let ghost before = self.processors.inner.map_view();
            self.processors.inner.set_val_at(i, p);
            proof {
                self.processors.inner.lemma_positions();
                assert(self.processors.table_view().dom() =~= old(self).processors.table_view().dom());
                assert forall|j: int|
                    0 <= j < i + 1 implies self.processors.table_view()[#[trigger] self
                    .processors.inner.key_view_at(j)] == (crate::processor::ProcessorView {
                    processor_cpi_data: None,
                    ..old(self).processors.table_view()[self.processors.inner.key_view_at(j)]
                }) by {
                    if j < i as int {
                        assert(self.processors.inner.key_view_at(j) != ki);
                    } else {
                        assert(self.processors.table_view()[ki] =~= (
                        crate::processor::ProcessorView {
                            processor_cpi_data: None,
                            ..old(self).processors.table_view()[ki]
                        }));
                    }
                }
            }
            i = i + 1;
        }
        proof {
            self.processors.inner.lemma_positions();
            old(self).processors.inner.lemma_positions();
            assert forall|k: Seq<char>|
                #[trigger] old(self).processors.table_view().contains_key(k)
                    implies final(self).processors.table_view()[k] == (
            crate::processor::ProcessorView {
                processor_cpi_data: None,
                ..old(self).processors.table_view()[k]
            }) by {
                assert(self.processors.table_view().contains_key(k));
                let j = choose|j: int|
                    0 <= j < self.processors.inner.spec_len() && self.processors.inner.key_view_at(
                        j,
                    ) == k;
            }
        }
    }

    /// Clear every node's PMU bandwidth and latency figures: each node
    /// keeps its identity and memory readings, its bandwidth, latency and
    /// channel figures are zeroed.
    pub fn reset_numa_pmu_data(&mut self)
        requires
            old(self).wf(),
        ensures
            final(self).wf(),
            *final(self) == (System {
                system_devices_node: final(self).system_devices_node,
                ..*old(self)
            }),
            final(self).system_devices_node.nodes@.len()
                == old(self).system_devices_node.nodes@.len(),
            final(self).system_devices_node.has_cpu == old(self).system_devices_node.has_cpu,
            final(self).system_devices_node.has_memory == old(self).system_devices_node.has_memory,
            forall|i: int|
                0 <= i < final(self).system_devices_node.nodes@.len()
                    ==> (#[trigger] final(self).system_devices_node.nodes@[i]) == (crate::numa::NumaNode {
                    mem_read_bandwidth_mb: 0,
                    mem_write_bandwidth_mb: 0,
                    mem_theory_mx_bandwidth_mb: 0,
                    mem_read_latency: 0,
                    mem_write_latency: 0,
                    channels: final(self).system_devices_node.nodes@[i].channels,
                    ..old(self).system_devices_node.nodes@[i]
                }) && final(self).system_devices_node.nodes@[i].channels@.len() == 0,
    {
        let n = self.system_devices_node.nodes.len();
        let mut i: usize = 0;
        while i < n
            invariant
                n == self.system_devices_node.nodes@.len(),
                i <= n,
                *self == (System { system_devices_node: self.system_devices_node, ..*old(self) }),
                self.system_devices_node.nodes@.len()
                    == old(self).system_devices_node.nodes@.len(),
                self.system_devices_node.has_cpu == old(self).system_devices_node.has_cpu,
                self.system_devices_node.has_memory == old(self).system_devices_node.has_memory,
                forall|j: int|
                    i <= j < n ==> #[trigger] self.system_devices_node.nodes@[j]
                        == old(self).system_devices_node.nodes@[j],
                forall|j: int|
                    0 <= j < i ==> (#[trigger] self.system_devices_node.nodes@[j]) == (
                    crate::numa::NumaNode {
                        mem_read_bandwidth_mb: 0,
                        mem_write_bandwidth_mb: 0,
                        mem_theory_mx_bandwidth_mb: 0,
                        mem_read_latency: 0,
                        mem_write_latency: 0,
                        channels: self.system_devices_node.nodes@[j].channels,
                        ..old(self).system_devices_node.nodes@[j]
                    }) && self.system_devices_node.nodes@[j].channels@.len() == 0,
            decreases n - i,
        {
            let node = &mut self.system_devices_node.nodes[i];
            node.reset_numa_mem_latency();
            let node2 = &mut self.system_devices_node.nodes[i];
            node2.reset_numa_mem_bandwidth();
            i = i + 1;
        }
    }

    /// Clear everything the PMU backend feeds: every node's bandwidth and
    /// latency figures and every processor's cycles-per-instruction data.
    pub fn reset_byteperf(&mut self)
        requires
            old(self).wf(),
        ensures
            final(self).wf(),
            final(self).processors.global_processor == old(self).processors.global_processor,
            final(self).processors.table_view().dom() == old(self).processors.table_view().dom(),
            forall|k: Seq<char>|
                #[trigger] old(self).processors.table_view().contains_key(k)
                    ==> final(self).processors.table_view()[k] == (
                crate::processor::ProcessorView {
                    processor_cpi_data: None,
                    ..old(self).processors.table_view()[k]
                }),
            final(self).system_devices_node.nodes@.len()
                == old(self).system_devices_node.nodes@.len(),
            forall|i: int|
                0 <= i < final(self).system_devices_node.nodes@.len()
                    ==> (#[trigger] final(self).system_devices_node.nodes@[i]) == (
                crate::numa::NumaNode {
                    mem_read_bandwidth_mb: 0,
                    mem_write_bandwidth_mb: 0,
                    mem_theory_mx_bandwidth_mb: 0,
                    mem_read_latency: 0,
                    mem_write_latency: 0,
                    channels: final(self).system_devices_node.nodes@[i].channels,
                    ..old(self).system_devices_node.nodes@[i]
                }) && final(self).system_devices_node.nodes@[i].channels@.len() == 0,
            *final(self) == (System {
                system_devices_node: final(self).system_devices_node,
                processors: final(self).processors,
                ..*old(self)
            }),
    {
        self.reset_numa_pmu_data();
        self.reset_cpu_cpi_data();
    }

    /// React to the PMU data source's switches: figures of disabled
    /// subsystems are cleared (the processors' cycles-per-instruction data
    /// when cpu is off, the nodes' bandwidth and latency figures when mem
    /// is off), figures of enabled ones are kept, and the module set the
    /// backend should keep running is handed back — the in-process reset
    /// alone would not stop a backend that keeps emitting.
    pub fn handle_byteperf_knob(&mut self, ds_settings: &DataSourceConf) -> (r: ModuleMask)
        requires
            old(self).wf(),
        ensures
            final(self).wf(),
            r.mask == crate::bpf::spec_mask_of(
                spec_byteperf_ids(*ds_settings),
                spec_byteperf_ids(*ds_settings).len() as int,
            ),
            !ds_settings.enable ==> r.mask == 0,
            (!ds_settings.enable || !spec_knob_sub(*ds_settings, SubSystemType::Cpu)) ==> final(self).processors.global_processor == old(self).processors.global_processor && final(self).processors.table_view().dom() == old(self).processors.table_view().dom() && (forall|
                k: Seq<char>,
            |
                #[trigger] old(self).processors.table_view().contains_key(k)
                    ==> final(self).processors.table_view()[k] == (
                crate::processor::ProcessorView {
                    processor_cpi_data: None,
                    ..old(self).processors.table_view()[k]
                })),
            (ds_settings.enable && spec_knob_sub(*ds_settings, SubSystemType::Cpu)) ==> final(self).processors == old(self).processors,
            (!ds_settings.enable || !spec_knob_sub(*ds_settings, SubSystemType::Mem)) ==> forall|
                i: int,
            |
                0 <= i < final(self).system_devices_node.nodes@.len()
                    ==> (#[trigger] final(self).system_devices_node.nodes@[i]) == (
                crate::numa::NumaNode {
                    mem_read_bandwidth_mb: 0,
                    mem_write_bandwidth_mb: 0,
                    mem_theory_mx_bandwidth_mb: 0,
                    mem_read_latency: 0,
                    mem_write_latency: 0,
                    channels: final(self).system_devices_node.nodes@[i].channels,
                    ..old(self).system_devices_node.nodes@[i]
                }) && final(self).system_devices_node.nodes@[i].channels@.len() == 0,
            (ds_settings.enable && spec_knob_sub(*ds_settings, SubSystemType::Mem)) ==> final(self).system_devices_node == old(self).system_devices_node,
            final(self).system_devices_node.nodes@.len()
                == old(self).system_devices_node.nodes@.len(),
            *final(self) == (System {
                system_devices_node: final(self).system_devices_node,
                processors: final(self).processors,
                ..*old(self)
            }),
    {
        if !ds_settings.is_enable() {
            self.reset_byteperf();
            let ids: Vec<u32> = Vec::new();
            let r = ModuleMask::from(ids);
            return r;
        }
        let mut ids: Vec<u32> = Vec::new();
        if !self.knob_sub_enabled(ds_settings, SubSystemType::Cpu) {
            self.reset_cpu_cpi_data();
        } else {
            ids.push(crate::bpf::BPF_MODULE_CGROUP_PMU);
        }
        if !self.knob_sub_enabled(ds_settings, SubSystemType::Mem) {
            self.reset_numa_pmu_data();
        } else {
            ids.push(crate::bpf::BPF_MODULE_CGROUP_MEM);
        }
        proof {
            assert(ids@ =~= spec_byteperf_ids(*ds_settings));
            assert(forall|j: int| 0 <= j < ids@.len() ==> ids@[j] < 64);
        }
        ModuleMask::from(ids)
    }

    /// The kernel-counter modules the settings ask the backend to run; see
    /// `spec_ebpf_ids`.
    pub fn ebpf_module_ids(&self, ds_settings: &DataSourceConf) -> (r: Vec<u32>)
        ensures
            r@ == spec_ebpf_ids(*ds_settings),
            forall|j: int| 0 <= j < r@.len() ==> #[trigger] r@[j] < 64,
    {
        let mut ids: Vec<u32> = Vec::new();
        if !ds_settings.is_enable() {
            return ids;
        }
        ids.push(0);
        ids.push(crate::bpf::BPF_MODULE_SYSTEM_EVENT);
        proof {
            assert(ids@ =~= seq![0u32, crate::bpf::BPF_MODULE_SYSTEM_EVENT]);
        }
        if self.knob_sub_enabled(ds_settings, SubSystemType::Mem) {
            ids.push(crate::bpf::BPF_MODULE_CGROUP_MEM);
        }
        if self.knob_sub_enabled(ds_settings, SubSystemType::Cpu) {
            ids.push(crate::bpf::BPF_MODULE_CGROUP_SCHED);
        }
        if self.knob_sub_enabled(ds_settings, SubSystemType::Storage) {
            ids.push(crate::bpf::BPF_MODULE_CGROUP_FS);
            ids.push(crate::bpf::BPF_MODULE_CGROUP_IO);
        }
        if self.knob_sub_enabled(ds_settings, SubSystemType::Net) {
            ids.push(crate::bpf::BPF_MODULE_CGROUP_NET);
        }
        ids
    }

    /// React to the kernel-counter data source's switches: a disabled
    /// source clears the event counters and takes a whole-table cgroup
    /// reset pass under a disabled configuration; an enabled one with any
    /// subsystem off takes the reset pass under its own configuration, so
    /// the backend's stale figures are not republished, and with everything
    /// on nothing moves. The module set to push to the backend is handed
    /// back: the in-process reset alone would not stop a backend that keeps
    /// emitting.
    pub fn handle_ebpf_knob(
        &mut self,
        ds_settings: &DataSourceConf,
        path_exists: &Vec<Vec<bool>>,
        now: u64,
    ) -> (r: ModuleMask)
        requires
            old(self).wf(),
        ensures
            final(self).wf(),
            r.mask == crate::bpf::spec_mask_of(
                spec_ebpf_ids(*ds_settings),
                spec_ebpf_ids(*ds_settings).len() as int,
            ),
            !ds_settings.enable ==> final(self).system_events == SystemEventData::spec_zero()
                && r.mask == 0 && spec_table_reset_applied(
                old(self).cgroup_list,
                final(self).cgroup_list,
                DataSourceConf::spec_disabled(),
                path_exists@,
                now,
            ),
            ds_settings.enable ==> final(self).system_events == old(self).system_events,
            (ds_settings.enable && spec_any_sub_disabled(*ds_settings))
                ==> spec_table_reset_applied(
                old(self).cgroup_list,
                final(self).cgroup_list,
                *ds_settings,
                path_exists@,
                now,
            ),
            (ds_settings.enable && !spec_any_sub_disabled(*ds_settings)) ==> final(self).cgroup_list == old(self).cgroup_list,
            final(self).cgroup_list.map_view().dom() == old(self).cgroup_list.map_view().dom(),
            *final(self) == (System {
                system_events: final(self).system_events,
                cgroup_list: final(self).cgroup_list,
                ..*old(self)
            }),
    {
        if !ds_settings.is_enable() {
            self.turn_off_system_event();
            let disabled = crate::settings::get_disabeld_data_source();
            self.turn_off_cgroup(&disabled, path_exists, now);
            let ids: Vec<u32> = Vec::new();
            return ModuleMask::from(ids);
        }
        let ids = self.ebpf_module_ids(ds_settings);
        let mask = ModuleMask::from(ids);
        let any_disabled = !self.knob_sub_enabled(ds_settings, SubSystemType::Cpu)
            || !self.knob_sub_enabled(ds_settings, SubSystemType::Mem) || !self.knob_sub_enabled(
            ds_settings,
            SubSystemType::Net,
        ) || !self.knob_sub_enabled(ds_settings, SubSystemType::Storage);
        if any_disabled {
            self.turn_off_cgroup(ds_settings, path_exists, now);
        }
        mask
    }

    /// Apply a whole settings change: every data source's knob handler, in
    /// the fixed order process filesystem, sysfs, cgroup, kernel counters,
    /// PMU — the kernel-counter reset must come before the PMU one, whose
    /// figures are merged into the same records. The module sets for the
    /// two backends are handed back.
    pub fn switch(&mut self, s: &Settings, path_exists: &Vec<Vec<bool>>, now: u64) -> (r: (
        ModuleMask,
        ModuleMask,
    ))
        requires
            old(self).wf(),
        ensures
            final(self).wf(),
            final(self).cgroup_list.map_view().dom() == old(self).cgroup_list.map_view().dom(),
            // A disabled global flag turns every owned reading off,
            // whatever the per-subsystem switches say, and both backend
            // masks are empty.
            !s.enable ==> final(self).load == LoadAvg::spec_new() && final(self).memory
                == MemoryInfo::spec_new() && final(self).net_info == NetInfo::spec_new()
                && final(self).net_traffic.inner@.len() == 0 && final(self).process_stats
                == SystemProcessStats::spec_new() && final(self).disk_io.stats@.len() == 0
                && final(self).disk_io.usage@.len() == 0 && final(self).system_events
                == SystemEventData::spec_zero() && r.0.mask == 0 && r.1.mask == 0,
            !s.enable ==> final(self).processors.table_view().dom() == old(self).processors.table_view().dom() && (forall|k: Seq<char>|
                #[trigger] old(self).processors.table_view().contains_key(k)
                    ==> final(self).processors.table_view()[k]
                    == crate::processor::spec_processor_new(k)),
            !s.enable ==> forall|i: int|
                0 <= i < final(self).system_devices_node.nodes@.len()
                    ==> (#[trigger] final(self).system_devices_node.nodes@[i]).mem_total == 0
                    && final(self).system_devices_node.nodes@[i].mem_available == 0 && final(self).system_devices_node.nodes@[i].mem_read_bandwidth_mb == 0 && final(self).system_devices_node.nodes@[i].mem_write_bandwidth_mb == 0 && final(self).system_devices_node.nodes@[i].channels@.len() == 0,
            // A disabled global flag also clears every cgroup whose
            // verdict vector matched its controller list.
            !s.enable ==> final(self).cgroup_list.spec_len() == old(self).cgroup_list.spec_len()
                && (forall|j: int|
                0 <= j < old(self).cgroup_list.spec_len() ==> final(self).cgroup_list.key_view_at(
                    j,
                ) == old(self).cgroup_list.key_view_at(j)) && (forall|j: int|
                0 <= j < old(self).cgroup_list.spec_len() && spec_flags_at(path_exists@, j).len()
                    == old(self).cgroup_list.map_view()[#[trigger] old(self).cgroup_list.key_view_at(j)].sub_system_groups@.len() ==> forall|i: int|
                    0 <= i < final(self).cgroup_list.map_view()[old(self).cgroup_list.key_view_at(
                        j,
                    )].sub_system_groups@.len() ==> spec_sub_cleared(
                        #[trigger] final(self).cgroup_list.map_view()[old(self).cgroup_list.key_view_at(j)].sub_system_groups@[i],
                        now,
                    )),
            // With the global flag on, each data source's knob clauses
            // hold, under that source's own switches.
            s.enable ==> r.0.mask == crate::bpf::spec_mask_of(
                spec_ebpf_ids(s.ebpf.conf_view()),
                spec_ebpf_ids(s.ebpf.conf_view()).len() as int,
            ) && r.1.mask == crate::bpf::spec_mask_of(
                spec_byteperf_ids(s.byteperf.conf_view()),
                spec_byteperf_ids(s.byteperf.conf_view()).len() as int,
            ),
            s.enable ==> (!s.proc.conf_view().enable ==> final(self).load == LoadAvg::spec_new()
                && final(self).memory == MemoryInfo::spec_new() && final(self).net_info
                == NetInfo::spec_new() && final(self).disk_io.stats@.len() == 0 && final(self).process_stats == SystemProcessStats::spec_new()),
            s.enable ==> (s.proc.conf_view().enable && !s.proc.cpu.enable ==> final(self).load
                == LoadAvg::spec_new() && final(self).process_stats
                == SystemProcessStats::spec_new()),
            s.enable ==> (s.proc.conf_view().enable && s.proc.cpu.enable ==> final(self).load
                == old(self).load),
            s.enable ==> (s.proc.conf_view().enable && !s.proc.mem.enable ==> final(self).memory
                == MemoryInfo::spec_new()),
            s.enable ==> (s.proc.conf_view().enable && s.proc.mem.enable ==> final(self).memory
                == old(self).memory),
            s.enable ==> (s.proc.conf_view().enable && !s.proc.net.enable ==> final(self).net_info
                == NetInfo::spec_new() && final(self).net_traffic.inner@.len() == 0),
            s.enable ==> (s.proc.conf_view().enable && s.proc.net.enable ==> final(self).net_info
                == old(self).net_info && final(self).net_traffic == old(self).net_traffic),
            s.enable ==> (s.proc.conf_view().enable && !s.proc.storage.enable ==> final(self).disk_io.stats@.len() == 0 && final(self).disk_io.usage@.len() == 0),
            s.enable ==> (s.proc.conf_view().enable && s.proc.storage.enable ==> final(self).disk_io == old(self).disk_io),
            s.enable ==> ((!s.sys.conf_view().enable || !s.sys.mem.enable) ==> forall|i: int|
                0 <= i < final(self).system_devices_node.nodes@.len()
                    ==> (#[trigger] final(self).system_devices_node.nodes@[i]).mem_total == 0),
            s.enable ==> (s.ebpf.conf_view().enable ==> final(self).system_events == old(self).system_events),
            s.enable ==> (!s.ebpf.conf_view().enable ==> final(self).system_events
                == SystemEventData::spec_zero()),
            // With every cgroup-facing switch on, the table is untouched.
            s.enable ==> ((s.cgroup.conf_view().enable && !spec_any_sub_disabled(
                s.cgroup.conf_view(),
            ) && s.ebpf.conf_view().enable && !spec_any_sub_disabled(s.ebpf.conf_view()))
                ==> final(self).cgroup_list == old(self).cgroup_list),
            s.enable ==> (!spec_knob_sub(s.byteperf.conf_view(), SubSystemType::Cpu)
                || !s.byteperf.conf_view().enable ==> forall|k: Seq<char>|
                #[trigger] final(self).processors.table_view().contains_key(k)
                    ==> final(self).processors.table_view()[k].processor_cpi_data is None),
            s.enable ==> (!spec_knob_sub(s.byteperf.conf_view(), SubSystemType::Mem)
                || !s.byteperf.conf_view().enable ==> forall|i: int|
                0 <= i < final(self).system_devices_node.nodes@.len()
                    ==> (#[trigger] final(self).system_devices_node.nodes@[i])
                    .mem_read_bandwidth_mb == 0 && final(self).system_devices_node.nodes@[i]
                    .channels@.len() == 0),
    {
        if !s.is_enable() {
            let disabled = crate::settings::get_disabeld_data_source();
            self.handle_proc_knob(&disabled);
            self.handle_sys_knob(&disabled);
            let ghost table0 = self.cgroup_list;
            self.handle_cgroup_knob(&disabled, path_exists, now);
            let ghost table1 = self.cgroup_list;
            let ebpf_mask = self.handle_ebpf_knob(&disabled, path_exists, now);
            let ghost table2 = self.cgroup_list;
            let perf_mask = self.handle_byteperf_knob(&disabled);
            proof {
                assert forall|j: int|
                    0 <= j < old(self).cgroup_list.spec_len() && spec_flags_at(
                        path_exists@,
                        j,
                    ).len() == old(self).cgroup_list.map_view()[#[trigger] old(self).cgroup_list.key_view_at(j)].sub_system_groups@.len() implies forall|i: int|
                    0 <= i < final(self).cgroup_list.map_view()[old(self).cgroup_list.key_view_at(
                        j,
                    )].sub_system_groups@.len() ==> spec_sub_cleared(
                        #[trigger] final(self).cgroup_list.map_view()[old(self).cgroup_list.key_view_at(j)].sub_system_groups@[i],
                        now,
                    ) by {
                    let k = old(self).cgroup_list.key_view_at(j);
                    let pre_cg = table0.map_view()[k];
                    let mid_cg = table1.map_view()[k];
                    let post_cg = table2.map_view()[k];
                    crate::cgroup::lemma_disabled_reset_clears(
                        pre_cg,
                        mid_cg,
                        disabled,
                        spec_flags_at(path_exists@, j),
                        now,
                    );
                    crate::cgroup::lemma_reset_keeps_cleared(
                        mid_cg,
                        post_cg,
                        DataSourceConf::spec_disabled(),
                        spec_flags_at(path_exists@, j),
                        now,
                    );
                }
            }
            return (ebpf_mask, perf_mask);
        }
        let proc_conf = s.get_data_source(crate::settings::DataSourceType::ProcFS);
        self.handle_proc_knob(&proc_conf);
        let sys_conf = s.get_data_source(crate::settings::DataSourceType::SysFS);
        self.handle_sys_knob(&sys_conf);
        let cgroup_conf = s.get_data_source(crate::settings::DataSourceType::CgroupFS);
        self.handle_cgroup_knob(&cgroup_conf, path_exists, now);
        let ebpf_conf = s.get_data_source(crate::settings::DataSourceType::Ebpf);
        let ebpf_mask = self.handle_ebpf_knob(&ebpf_conf, path_exists, now);
        let perf_conf = s.get_data_source(crate::settings::DataSourceType::BytePerf);
        let perf_mask = self.handle_byteperf_knob(&perf_conf);
        (ebpf_mask, perf_mask)
    }
}

} // verus!
