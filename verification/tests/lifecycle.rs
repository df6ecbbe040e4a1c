//! The settings tree, the knob handlers, the cgroup table, and the
//! double-buffered monitor.

use malachite::cgroup::CGroup;
use malachite::cgtypes::CGroupType;
use malachite::loadavg::LoadAvg;
use malachite::meminfo::MemoryInfo;
use malachite::monitor::{
    apply_events, drain_events, new_change_channel, send_event, ChangeEvent, SystemMonitor,
};
use malachite::net::NetInfo;
use malachite::procstat::{ProcStatFileIndex, ProcessStatus, SystemProcessStats};
use malachite::settings::{DataSourceConf, DataSourceType, Settings, SubSystemType};
use malachite::system::System;

fn seeded_system() -> System {
    let mut sys = System::new();
    sys.memory.refresh_mem_info("MemTotal: 1000 kB\nMemFree: 100 kB\n");
    sys.load.read_load_avg("1.29 1.24 1.17 2/1455 27921");
    sys.process_stats.refresh("procs_running 2\nprocs_blocked 1\n");
    sys.net_info.refresh_snmp_data("Tcp: OutSegs RetransSegs\nTcp: 100 1\n");
    sys
}

#[test]
fn test_process_status() {
    let process = ProcessStatus::UninterruptibleSleep;
    assert_eq!(process.as_str(), "UninterruptibleSleep");
    assert_eq!(process.as_str(), ProcessStatus::from('D').as_str());

    let process = ProcessStatus::Idle;
    assert_eq!(process.as_str(), "Idle");
    assert_eq!(process.as_str(), ProcessStatus::from('I').as_str());

    let process = ProcessStatus::Run;
    assert_eq!(process.as_str(), "Run");
    assert_eq!(process.as_str(), ProcessStatus::from('R').as_str());

    let process = ProcessStatus::Sleep;
    assert_eq!(process.as_str(), "Sleep");
    assert_eq!(process.as_str(), ProcessStatus::from('S').as_str());

    let process = ProcessStatus::Stop;
    assert_eq!(process.as_str(), "Stop");
    assert_eq!(process.as_str(), ProcessStatus::from('T').as_str());

    let process = ProcessStatus::Tracing;
    assert_eq!(process.as_str(), "Tracing");
    assert_eq!(process.as_str(), ProcessStatus::from('t').as_str());

    let process = ProcessStatus::Paging;
    assert_eq!(process.as_str(), "Paging");
    assert_eq!(process.as_str(), ProcessStatus::from('W').as_str());

    let process = ProcessStatus::Dead;
    assert_eq!(process.as_str(), "Dead");
    assert_eq!(process.as_str(), ProcessStatus::from('X').as_str());

    let process = ProcessStatus::Zombie;
    assert_eq!(process.as_str(), "Zombie");
    assert_eq!(process.as_str(), ProcessStatus::from('Z').as_str());

    let process = ProcessStatus::Unknown(0);
    assert_eq!(process.as_str(), "Unknown");
    assert_eq!(process.as_str(), ProcessStatus::from('0').as_str());
}

#[test]
fn test_stat() {
    let index = ProcStatFileIndex::Pid;
    assert_eq!(index.as_index(), 0_usize);

    let index = ProcStatFileIndex::CommandLine;
    assert_eq!(index.as_index(), 1_usize);

    let index = ProcStatFileIndex::TaskState;
    assert_eq!(index.as_index(), 2_usize);

    let index = ProcStatFileIndex::ParentPid;
    assert_eq!(index.as_index(), 3_usize);

    let index = ProcStatFileIndex::ParentGroupId;
    assert_eq!(index.as_index(), 4_usize);

    let index = ProcStatFileIndex::SessionId;
    assert_eq!(index.as_index(), 5_usize);

    let index = ProcStatFileIndex::TaskFlags;
    assert_eq!(index.as_index(), 8_usize);

    let index = ProcStatFileIndex::UserTime;
    assert_eq!(index.as_index(), 13_usize);

    let index = ProcStatFileIndex::SysTime;
    assert_eq!(index.as_index(), 14_usize);

    let index = ProcStatFileIndex::StartTime;
    assert_eq!(index.as_index(), 21_usize);

    let index = ProcStatFileIndex::VSize;
    assert_eq!(index.as_index(), 22_usize);

    let index = ProcStatFileIndex::Rss;
    assert_eq!(index.as_index(), 23_usize);
}

#[test]
fn test_settings_cascade() {
    let mut s = Settings::default();
    assert!(s.is_enable());
    assert!(s.get_data_source(DataSourceType::ProcFS).sub_allowed(SubSystemType::Cpu));
    // a disabled subsystem switch turns just that subsystem off
    s.proc.cpu.enable = false;
    assert!(!s.get_data_source(DataSourceType::ProcFS).sub_allowed(SubSystemType::Cpu));
    assert!(s.get_data_source(DataSourceType::ProcFS).sub_allowed(SubSystemType::Mem));
    // a disabled data source turns every subsystem under it off
    s.proc.enable = false;
    assert!(!s.get_data_source(DataSourceType::ProcFS).sub_allowed(SubSystemType::Mem));
    // the catch-all kind has no switch of its own
    let conf = s.get_data_source(DataSourceType::SysFS);
    assert!(conf.sub_allowed(SubSystemType::Unknow));
    // replacing the tree replaces every switch
    let mut t = Settings::default();
    t.enable = false;
    s.update(t);
    assert!(!s.is_enable());
}

#[test]
fn test_proc_knob_resets_disabled_subsystems() {
    let mut sys = seeded_system();
    // disabling only the cpu subsystem clears the load but keeps memory
    let mut conf: DataSourceConf = DataSourceConf::default();
    conf.cpu.enable = false;
    sys.handle_proc_knob(&conf);
    assert_eq!(sys.get_load(), &LoadAvg::new());
    assert!(sys.get_memory_info().total_memory() > 0);
    // disabling the whole data source clears everything it feeds
    conf.enable = false;
    sys.handle_proc_knob(&conf);
    assert_eq!(sys.get_memory_info(), &MemoryInfo::new());
    assert_eq!(sys.get_net_info(), &NetInfo::new());
    assert_eq!(sys.get_process_stats(), &SystemProcessStats::default());
}

#[test]
fn test_insert_cgroup_idempotent() {
    let mut sys = System::new();
    let first = CGroup::new("/mount_a", "pod_x", CGroupType::V1);
    let second = CGroup::new("/mount_b", "pod_x", CGroupType::V2);
    assert!(sys.insert_cgroups_item(first));
    assert!(sys.insert_cgroups_item(second));
    // first write wins: the record under pod_x still names mount_a
    let kept = sys.get_cgroups("pod_x").unwrap();
    assert_eq!(kept.mount_point(), "/mount_a");
    assert_eq!(kept.user_path(), "pod_x");
}

#[test]
fn test_channel_carries_events() {
    let (sender, receiver) = new_change_channel();
    assert!(send_event(&sender, ChangeEvent::CGroupEvent(CGroup::new("/m", "a", CGroupType::V1))));
    let mut s = Settings::default();
    s.enable = false;
    assert!(send_event(&sender, ChangeEvent::SettingsEvent(s)));
    let events = drain_events(&receiver, 16);
    assert_eq!(events.len(), 2);
    assert!(matches!(events[0], ChangeEvent::CGroupEvent(_)));
    assert!(matches!(events[1], ChangeEvent::SettingsEvent(_)));
    // nothing left after the drain
    assert_eq!(drain_events(&receiver, 16).len(), 0);
}

#[test]
fn test_apply_events_last_settings_wins() {
    let mut sys = System::new();
    let mut s1 = Settings::default();
    s1.proc.enable = false;
    let mut s2 = Settings::default();
    s2.sys.enable = false;
    let events = vec![
        ChangeEvent::CGroupEvent(CGroup::new("/m", "a", CGroupType::V1)),
        ChangeEvent::SettingsEvent(s1),
        ChangeEvent::CGroupEvent(CGroup::new("/m", "b", CGroupType::V1)),
        ChangeEvent::SettingsEvent(s2),
    ];
    let captured = apply_events(&mut sys, events);
    let captured = captured.unwrap();
    assert!(captured.sys.enable == false && captured.proc.enable == true);
    assert!(sys.get_cgroups("a").is_some());
    assert!(sys.get_cgroups("b").is_some());
    assert!(sys.get_cgroups("c").is_none());
}

#[test]
fn test_monitor_reader_sees_whole_snapshots() {
    let one = seeded_system();
    let two = System::new();
    let mut monitor = SystemMonitor::new(one, two, Settings::default());
    // the published snapshot before the cycle
    let before_total = monitor.get_monitor_reader().get_memory_info().total_memory();
    assert!(before_total > 0);
    // the collector copies the published snapshot as its baseline
    let baseline = monitor.get_monitor_reader().clone();
    let discovered = CGroup::new("/m", "pod_y", CGroupType::V1);
    let mut s = Settings::default();
    s.proc.cpu.enable = false;
    let events = vec![
        ChangeEvent::CGroupEvent(discovered),
        ChangeEvent::SettingsEvent(s),
    ];
    let flags: Vec<Vec<bool>> = vec![vec![true, true, true, true, true, true]];
    monitor.update_once(baseline, events, &flags, 42);
    // post-cycle: the new snapshot is complete, with the discovery applied
    let reader = monitor.get_monitor_reader();
    assert!(reader.get_cgroups("pod_y").is_some());
    assert_eq!(reader.get_memory_info().total_memory(), before_total);
    // the settings replacement was applied once, after the drain
    assert!(!monitor.get_settings().proc.cpu.enable);
    // the pre-cycle snapshot survives whole on the standby side: flipping
    // back publishes it again, unmixed
    monitor.change_pointer();
    let old_reader = monitor.get_monitor_reader();
    assert_eq!(old_reader.get_memory_info().total_memory(), before_total);
    assert!(old_reader.get_cgroups("pod_y").is_none());
}

#[test]
fn test_global_switch_off_resets_everything() {
    let mut sys = seeded_system();
    let mut s = Settings::default();
    s.enable = false;
    let flags: Vec<Vec<bool>> = vec![];
    let (ebpf_mask, perf_mask) = sys.switch(&s, &flags, 7);
    assert_eq!(ebpf_mask.get_mask(), 0);
    assert_eq!(perf_mask.get_mask(), 0);
    assert_eq!(sys.get_load(), &LoadAvg::new());
    assert_eq!(sys.get_memory_info(), &MemoryInfo::new());
    assert_eq!(sys.get_net_info(), &NetInfo::new());
}

#[test]
fn test_cgroup_update_polls_enabled_controllers() {
    let mut cg = CGroup::new("/m", "pod", CGroupType::V2);
    let flags = vec![true, true, true, true, true, true];
    let mut input = malachite::cgroup::CGroupPollInput::empty();
    input.cpu_stat = Some("usage_usec 42\nuser_usec 30\nsystem_usec 12\n".to_string());
    input.cpuset_cpus = Some("0-1".to_string());
    let conf = DataSourceConf::default();
    assert!(cg.update(&conf, &flags, &input, 99));
    // the cpu controller took the stat text
    match cg.subsystem_at(1) {
        malachite::cgroup::SubSystem::Cpu(malachite::cpucg::CpuCGroup::V2(c)) => {
            assert_eq!(c.cpu_stats.usage_usec, 42);
            assert_eq!(c.cpu_stats.update_time, 99);
        }
        _ => panic!("kind"),
    }
    // the cpuset controller expanded its line
    match cg.subsystem_at(2) {
        malachite::cgroup::SubSystem::CpuSet(malachite::cpusetcg::CpuSetCGroup::V2(c)) => {
            assert_eq!(c.cpus.inner, vec![0u64, 1u64]);
        }
        _ => panic!("kind"),
    }
    // a disabled subsystem's controller is left untouched
    let mut gated = DataSourceConf::default();
    gated.cpu.enable = false;
    input.cpu_stat = Some("usage_usec 777\n".to_string());
    let flags2 = vec![true, true, true, true, true, true];
    assert!(cg.update(&gated, &flags2, &input, 100));
    match cg.subsystem_at(1) {
        malachite::cgroup::SubSystem::Cpu(malachite::cpucg::CpuCGroup::V2(c)) => {
            assert_eq!(c.cpu_stats.usage_usec, 42);
        }
        _ => panic!("kind"),
    }
}

#[test]
fn test_cgroup_reset_clears_disabled_only() {
    let mut cg = CGroup::new("/m", "pod", CGroupType::V2);
    let flags = vec![true, true, true, true, true, true];
    let mut input = malachite::cgroup::CGroupPollInput::empty();
    input.cpu_stat = Some("usage_usec 42\n".to_string());
    input.memory_stat = Some("anon 7\n".to_string());
    let conf = DataSourceConf::default();
    cg.update(&conf, &flags, &input, 1);
    // disable only the cpu subsystem: its controller resets, memory's stays
    let mut gated = DataSourceConf::default();
    gated.cpu.enable = false;
    let flags2 = vec![true, true, true, true, true, true];
    assert!(cg.reset(&gated, &flags2, 5));
    match cg.subsystem_at(1) {
        malachite::cgroup::SubSystem::Cpu(malachite::cpucg::CpuCGroup::V2(c)) => {
            assert_eq!(c.cpu_stats.usage_usec, 0);
        }
        _ => panic!("kind"),
    }
    match cg.subsystem_at(0) {
        malachite::cgroup::SubSystem::Memory(malachite::memcg::MemoryCGroup::V2(m)) => {
            assert_eq!(m.mem_stats.anon, 7);
        }
        _ => panic!("kind"),
    }
}

#[test]
fn test_ebpf_module_ids_follow_settings() {
    let sys = System::new();
    let conf = DataSourceConf::default();
    let ids = sys.ebpf_module_ids(&conf);
    // base walker, system events, then one module per enabled subsystem
    assert_eq!(ids, vec![0u32, 11, 3, 1, 5, 4, 6]);
    let mut gated = DataSourceConf::default();
    gated.storage.enable = false;
    gated.net.enable = false;
    assert_eq!(sys.ebpf_module_ids(&gated), vec![0u32, 11, 3, 1]);
    let mut off = DataSourceConf::default();
    off.enable = false;
    assert_eq!(sys.ebpf_module_ids(&off).len(), 0);
}

#[test]
fn test_byteperf_knob_masks_and_resets() {
    let mut sys = System::new();
    sys.processors.refresh_processor_stat("cpu0 1 0 1 1 0 0 0 0 0 0\n");
    let conf = DataSourceConf::default();
    let mask = sys.handle_byteperf_knob(&conf);
    // cpu and mem modules stay on
    assert_eq!(mask.get_mask(), (1u64 << 10) | (1u64 << 3));
    let mut gated = DataSourceConf::default();
    gated.cpu.enable = false;
    let mask2 = sys.handle_byteperf_knob(&gated);
    assert_eq!(mask2.get_mask(), 1u64 << 3);
    assert!(sys
        .get_processors()
        .get("cpu0")
        .unwrap()
        .processor_cpi_data
        .is_none());
}
