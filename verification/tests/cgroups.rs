//! The per-cgroup controllers: node lists, block I/O tables, the CPU
//! controller's stat and pressure path, and the cgroup aggregate.

use malachite::blkio::{parse_blkio_file, BlkIOCGroupV1, BlkOperationType};
use malachite::bpf::{is_bpf_moudule_valid, ModuleMask, WrapperFSData};
use malachite::cgroup::{new_blkio_cgroup, CGroup, SubSystemType};
use malachite::cgtypes::CGroupType;
use malachite::cpucg::{new_cpu_cgroup, CpuCGroup, CpuCGroupV2};
use malachite::cpusetcg::{new_cpuset_cgroup, CpuSetCGroup};
use malachite::nodevec::NodeVec;
use malachite::settings::SubSystemType as SettingsSubSystemType;

#[test]
fn test_node_vec() {
    let input = "1-4,6,8-10";
    let node_vec = NodeVec::from(input.to_string());
    assert_eq!(node_vec.meta(), &input.to_string());
    let correct: Vec<u64> = vec![1, 2, 3, 4, 6, 8, 9, 10];
    assert_eq!(node_vec.inner, correct);
}

#[test]
fn test_node_vec_tolerates_junk_items() {
    let node_vec = NodeVec::from("2,oops,5-4,7".to_string());
    // malformed and empty ranges name no nodes; the text is still retained
    assert_eq!(node_vec.inner, vec![2u64, 7u64]);
    assert_eq!(node_vec.meta(), "2,oops,5-4,7");
}

#[test]
fn test_parse_blkio_file() {
    let content = "8:0 Read 6737920\n8:0 Write 255721472\n8:0 Sync 6737920\n8:0 Async 255721472\n8:0 Total 262459392\n8:16 Read 239214592\n8:16 Write 69632\n8:16 Sync 239247360\n8:16 Async 36864\n8:16 Total 239284224\n254:0 Read 239214592\n254:0 Write 69632\n254:0 Sync 239247360\n254:0 Async 36864\n254:0 Total 239284224\nTotal 5263360\n";
    let (total, details) = parse_blkio_file(content);
    assert_eq!(total, 5263360u64);
    let d1 = details.get("8:0").unwrap();
    assert_eq!(d1.get("Read"), Some(&6737920u64));
    assert_eq!(d1.get("Write"), Some(&255721472u64));
    assert_eq!(d1.get("Sync"), Some(&6737920u64));
    assert_eq!(d1.get("Async"), Some(&255721472u64));
    assert_eq!(d1.get("Total"), Some(&262459392u64));
    let d2 = details.get("8:16").unwrap();
    assert_eq!(d2.get("Read"), Some(&239214592u64));
    assert_eq!(d2.get("Write"), Some(&69632u64));
    assert_eq!(d2.get("Sync"), Some(&239247360u64));
    assert_eq!(d2.get("Async"), Some(&36864u64));
    assert_eq!(d2.get("Total"), Some(&239284224u64));
    let d3 = details.get("254:0").unwrap();
    assert_eq!(d3.get("Read"), Some(&239214592u64));
    assert_eq!(d3.get("Write"), Some(&69632u64));
    assert_eq!(d3.get("Sync"), Some(&239247360u64));
    assert_eq!(d3.get("Async"), Some(&36864u64));
    assert_eq!(d3.get("Total"), Some(&239284224u64));
    assert_eq!(details.len(), 3);
}

#[test]
fn test_blk_operation_type() {
    let vec_str = vec!["Read", "Write", "Async", "Sync", "Total", "xxxx"];
    let mut vec_enum_item: Vec<BlkOperationType> = vec![];
    for i in 0..vec_str.len() {
        vec_enum_item.push(BlkOperationType::from(vec_str[i]))
    }
    for i in 0..vec_enum_item.len() {
        let value = vec_enum_item[i].to_owned();
        match value {
            BlkOperationType::Unknown => assert_eq!(value.as_str(), "Unknown"),
            _ => assert_eq!(value.as_str(), vec_str[i]),
        }
    }
    assert_eq!(BlkOperationType::Unknown.as_str(), "Unknown");
}

#[test]
fn test_module_mask() {
    let correct_mask: u64 = (1 << 2) | (1 << 1) | (1 << 4) | (1 << 3) | (1 << 5);
    let mask_vec: Vec<u32> = vec![1, 2, 3, 4, 5];
    let module_mask = ModuleMask::from(mask_vec);
    assert_eq!(correct_mask, module_mask.get_mask());
    assert!(is_bpf_moudule_valid(module_mask.get_mask(), 3));
    assert!(!is_bpf_moudule_valid(module_mask.get_mask(), 6));
}

#[test]
fn test_sub_for_fs_data() {
    let fs_data_1 = WrapperFSData {
        fs_created: 10,
        fs_open: 10,
        fs_read: 10,
        fs_read_bytes: 10,
        fs_write: 10,
        fs_write_bytes: 10,
        fs_fsync: 10,
    };
    let fs_data_2 = WrapperFSData {
        fs_created: 3,
        fs_open: 3,
        fs_read: 3,
        fs_read_bytes: 3,
        fs_write: 3,
        fs_write_bytes: 3,
        fs_fsync: 3,
    };
    let fs_data_answer = WrapperFSData {
        fs_created: 7,
        fs_open: 7,
        fs_read: 7,
        fs_read_bytes: 7,
        fs_write: 7,
        fs_write_bytes: 7,
        fs_fsync: 7,
    };
    assert_eq!(fs_data_1.minus(&fs_data_2), fs_data_answer);
}

#[test]
fn test_cpuset_paths_by_layout() {
    let v1 = new_cpuset_cgroup("/root/mount", "pod_user_path", CGroupType::V1);
    match &v1 {
        CpuSetCGroup::V1(c) => assert_eq!(c.full_path(), "/root/mount/cpuset/pod_user_path"),
        CpuSetCGroup::V2(_) => panic!("layout"),
    }
    let v2 = new_cpuset_cgroup("/root/mount", "pod_user_path", CGroupType::V2);
    match &v2 {
        CpuSetCGroup::V2(c) => assert_eq!(c.full_path(), "/root/mount/pod_user_path"),
        CpuSetCGroup::V1(_) => panic!("layout"),
    }
}

#[test]
fn test_cpuset_update_lines() {
    let mut cg = new_cpuset_cgroup("/m", "p", CGroupType::V1);
    cg.update(Some("10-19,30-38,40".to_string()), Some("1-2".to_string()), 77);
    if let CpuSetCGroup::V1(c) = &cg {
        assert_eq!(c.cpus.meta(), "10-19,30-38,40");
        let correct: Vec<u64> = vec![
            10, 11, 12, 13, 14, 15, 16, 17, 18, 19, 30, 31, 32, 33, 34, 35, 36, 37, 38, 40,
        ];
        assert_eq!(c.cpus.inner, correct);
        assert_eq!(c.mems.inner, vec![1u64, 2u64]);
        assert_eq!(c.update_time, 77);
    } else {
        panic!("layout");
    }
}

#[test]
fn test_cpu_v2_stat_and_pressure() {
    let mut cg = new_cpu_cgroup("/m", "pod", CGroupType::V2);
    if let CpuCGroup::V2(ref mut c) = cg {
        let stat = "usage_usec 6983392776\nuser_usec 4205699967\nsystem_usec 2777685920\nnr_periods 0\nnr_throttled 0\nthrottled_usec 0\n";
        let pressure = "some avg10=1.23 avg60=0.40 avg300=0.09 total=428423422\nfull avg10=0.00 avg60=0.00 avg300=0.00 total=428423424\n";
        c.update(Some(stat), Some("100"), None, Some("100"), Some("max 100000"), Some(pressure), 1000);
        assert_eq!(c.cpu_stats.usage_usec, 6983392776);
        assert_eq!(c.cpu_stats.system_usec, 2777685920);
        assert_eq!(c.cpu_pressure.get_some().unwrap().get_avg10() as f64 / 100.0, 1.23);
        assert_eq!(c.cpu_pressure.get_full().unwrap().get_total() as f64 / 100.0, 428423424.0);
        assert_eq!(c.weight, Some(100));
        assert_eq!(c.max_burst, Some(100));
        assert_eq!(c.max, Some(u64::MAX));
        assert_eq!(c.max_period, Some(100000));
    } else {
        panic!("layout");
    }
}

#[test]
fn test_blkio_v1_update_replaces_tables() {
    let b = new_blkio_cgroup("/m", "pod", CGroupType::V1);
    let mut v1 = match b {
        malachite::cgroup::BlkIOCGroup::V1(v1) => v1,
        malachite::cgroup::BlkIOCGroup::V2(_) => panic!("layout"),
    };
    assert_eq!(v1.full_path(), "/m/blkio/pod");
    assert_eq!(v1.user_path(), "pod");
    let bps = "8:16 Read 5226496\n8:16 Write 36864\n8:16 Sync 5259264\n8:16 Async 4096\n8:16 Total 5263360\nTotal 5263360\n";
    let iops = "8:16 Read 129\n8:16 Write 4\n8:16 Sync 132\n8:16 Async 1\n8:16 Total 133\nTotal 133\n";
    v1.update(Some(bps), Some(iops), 5);
    assert_eq!(v1.bps_total(), 5263360);
    assert_eq!(v1.iops_total(), 133);
    let bd = v1.bps_details().get("8:16").unwrap();
    assert_eq!(bd.get("Read"), Some(&5226496u64));
    assert_eq!(bd.get("Total"), Some(&5263360u64));
    let id = v1.iops_details().get("8:16").unwrap();
    assert_eq!(id.get("Read"), Some(&129u64));
    assert_eq!(id.get("Total"), Some(&133u64));
    assert_eq!(v1.update_time, 5);
    v1.reset(9);
    assert_eq!(v1.bps_total(), 0);
    assert_eq!(v1.iops_details().len(), 0);
    assert_eq!(v1.update_time, 9);
    assert_eq!(v1.full_path(), "/m/blkio/pod");
}

#[test]
fn test_cgroup_prune_and_validity() {
    let mut cg = CGroup::new("/m", "pod_user_path", CGroupType::V1);
    assert_eq!(cg.user_path(), "pod_user_path");
    assert_eq!(cg.mount_point(), "/m");
    assert!(cg.is_valid());
    assert_eq!(cg.len(), 6);
    // two controllers lost their backing directory
    let alive = vec![true, false, true, false, true, true];
    cg.clear_invalid_subsystem_item(&alive);
    assert!(cg.is_valid());
    assert_eq!(cg.len(), 4);
    // none left: the cgroup turns invalid and awaits removal from the table
    let none = vec![false, false, false, false];
    cg.clear_invalid_subsystem_item(&none);
    assert!(!cg.is_valid());
}

#[test]
fn test_subsystem_kinds() {
    let cg = CGroup::new("/m", "pod", CGroupType::V2);
    assert_eq!(cg.subsystem_at(0).to_type(), SubSystemType::Memory);
    assert!(cg.subsystem_at(0).is_memory_cgroup());
    assert!(cg.subsystem_at(1).is_cpu_cgroup());
    assert!(cg.subsystem_at(2).is_cpuset_cgroup());
    assert!(cg.subsystem_at(3).is_blkio_cgroup());
    assert!(cg.subsystem_at(4).is_net_cgroup());
    assert!(cg.subsystem_at(5).is_perf_event_cgroup());
    assert!(!cg.subsystem_at(5).is_net_cgroup());
    assert_eq!(cg.subsystem_at(4).get_full_path(), "/m/pod");
    assert!(matches!(
        SubSystemType::PerfEvent.to_settings(),
        SettingsSubSystemType::Unknow
    ));
}

#[test]
fn test_cpu_v2_usage_ratio_delta() {
    let mut c = CpuCGroupV2::new("/m/p".to_string(), "p".to_string());
    c.update_cpu_stat("usage_usec 1000000\nuser_usec 600000\nsystem_usec 400000\n", 100);
    // first sample: no ratio yet
    assert_eq!(c.cpu_usage_ratio_permillion, 0);
    // one second later the cgroup consumed half a second of CPU
    c.update_cpu_stat("usage_usec 1500000\nuser_usec 900000\nsystem_usec 600000\n", 101);
    assert_eq!(c.cpu_usage_ratio_permillion, 500000);
    assert_eq!(c.cpu_user_usage_ratio_permillion, 300000);
    assert_eq!(c.cpu_sys_usage_ratio_permillion, 200000);
}
