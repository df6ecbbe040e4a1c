//! Whole-system readings built from sample file texts.

use malachite::disk::{Disk, FsStatData, parse_mount_entries};
use malachite::meminfo::MemoryInfo;
use malachite::net::NetInfo;
use malachite::numa::{NumaNode, SystemDeviceNode};
use malachite::psi::SystemPSI;
use malachite::sysproc::SystemProcessorInfo;
use malachite::procstat::SystemProcessStats;
use malachite::traffic::Traffic;

#[test]
fn test_retransmit_ratio_first_sample() {
    let snmp = "Tcp: RtoAlgorithm OutSegs RetransSegs\nTcp: 1 474627530725 46059890\n";
    let mut net = NetInfo::new();
    net.refresh_snmp_data(snmp);
    assert_eq!(net.tcp_out_segs, 474627530725);
    assert_eq!(net.tcp_retrans_segs, 46059890);
    // first sample: the previous counters default to zero, so the ratio
    // uses the raw values, not a delta
    assert_eq!(net.tcp_old_out_segs, 0);
    assert_eq!(net.tcp_old_retrans_segs, 0);
    assert_eq!(net.tcp_retran_per_billion, 46059890u128.checked_mul(1_000_000_000).unwrap().checked_div(474627530725).unwrap() as u64);
    // a second read keeps the previous counters for the delta
    net.refresh_snmp_data(snmp);
    assert_eq!(net.tcp_old_out_segs, 474627530725);
    assert_eq!(net.tcp_old_retrans_segs, 46059890);
    assert_eq!(net.tcp_retran_per_billion, 0);
}

#[test]
fn test_netstat_counters() {
    let netstat = "TcpExt: DelayedACKs ListenOverflows ListenDrops TCPAbortOnMemory TCPReqQFullDrop\nTcpExt: 6388849 0 0 0 0\n";
    let mut net = NetInfo::new();
    net.refresh_netstat_data(netstat);
    assert_eq!(net.tcp_delay_acks, 6388849);
    assert_eq!(net.tcp_listen_overflows, 0);
    assert_eq!(net.tcp_listen_drops, 0);
    assert_eq!(net.tcp_abort_on_memory, 0);
    assert_eq!(net.tcp_req_q_full_drop, 0);
}

#[test]
fn test_close_wait_count() {
    let tcp = "header\n0: a b 08 x\n1: a b 01 x\n2: a b 08 x\n";
    let mut net = NetInfo::new();
    net.refresh_tcp_close_wait(tcp);
    assert_eq!(net.tcp_close_wait, 2);
}

#[test]
fn test_traffic_device_lines() {
    let dev = "Inter-|   Receive\n face |bytes packets errs drop fifo frame compressed multicast\ncarma_br0: 17477117943 190479148 0 0 0 0 0 0 468290113624 131093781 0 0 0 0 0 0\n";
    let mut traffic = Traffic::new();
    traffic.refresh(dev, 9);
    assert_eq!(traffic.len(), 1);
    let card = traffic.card_at(0);
    assert_eq!(card.name, "carma_br0");
    assert_eq!(card.receive_bytes, 17477117943);
    assert_eq!(card.receive_packets, 190479148);
    assert_eq!(card.transmit_bytes, 468290113624);
    assert_eq!(card.transmit_packets, 131093781);
    assert_eq!(card.transmit_compressed, 0);
    assert_eq!(traffic.update_time, 9);
}

#[test]
fn test_meminfo_readings() {
    let text = "MemTotal:       16166776 kB\nMemFree:        1817388 kB\nMemAvailable:   14523644 kB\nBuffers:        376960 kB\nCached:         12172232 kB\nSReclaimable:   611564 kB\nDirty:          272 kB\nWriteback:      0 kB\nSwapTotal:      0 kB\nSwapFree:       0 kB\nShmem:          153344 kB\n";
    let mut mem = MemoryInfo::new();
    mem.refresh_mem_info(text);
    assert_eq!(mem.mem_total, 16166776);
    assert_eq!(mem.mem_free, 1817388);
    assert_eq!(mem.mem_available, 14523644);
    assert_eq!(mem.mem_buffers, 376960);
    assert_eq!(mem.mem_page_cache, 12172232);
    assert_eq!(mem.mem_slab_reclaimable, 611564);
    assert_eq!(mem.mem_dirty_page_cache, 272);
    assert_eq!(mem.mem_shm, 153344);
    assert_eq!(mem.mem_used, 16166776 - 1817388 - 376960 - 12172232 - 611564);
    assert_eq!(mem.mem_util, 0);
    mem.refresh_vm_watermark("10");
    assert_eq!(mem.vm_watermark_scale_factor, 10);
    mem.refresh_vm_stat("pgsteal_kswapd 2635\nother 4\n");
    assert_eq!(mem.vmstat_pgsteal_kswapd, 2635);
}

#[test]
fn test_disk_stat_lines() {
    let text = "259 0 nvme0n1 1 2 3 4 5 6 7 8 9 10 11\n259 2 nvme0n1p2 5580695 1 2 3 611239004 4 5 6 7 29607212 8\nbad line\n";
    let mut disk = Disk::new();
    disk.refresh_disk_stat(text);
    assert_eq!(disk.get_stats().len(), 2);
    let item = &disk.get_stats()[1];
    assert_eq!(item.device_name, "nvme0n1p2");
    assert_eq!(item.primary_device_id, 259);
    assert_eq!(item.secondary_device_id, 2);
    assert_eq!(item.io_read, 5580695);
    assert_eq!(item.io_write, 611239004);
    assert_eq!(item.io_busy, 29607212);
}

#[test]
fn test_disk_usage_from_mounts() {
    let mountinfo = "36 35 98:0 /mnt1 /mnt2 rw,noatime master:1 - ext3 /dev/root rw\n37 35 98:1 /x /tmp rw - tmpfs tmpfs rw\n";
    let mounts = parse_mount_entries(mountinfo);
    // the tmpfs mount is not worth measuring
    assert_eq!(mounts.len(), 1);
    assert_eq!(mounts[0].mount_point, "/mnt2");
    assert_eq!(mounts[0].filesystem_type, "ext3");
    let stats = vec![Some(FsStatData {
        blocks: 1000,
        block_size: 4096,
        blocks_available: 250,
        files: 65536,
        files_free: 60000,
    })];
    let mut disk = Disk::new();
    disk.refresh_disk_usage(&mounts, &stats);
    assert_eq!(disk.get_usage().len(), 1);
    let u = &disk.get_usage()[0];
    assert_eq!(u.total, 4096000);
    assert_eq!(u.free, 1024000);
    // three quarters used, in hundredths of a percent
    assert_eq!(u.usage_permyriad, 7500);
    assert_eq!(u.total_inodes, 65536);
    assert_eq!(u.free_inodes, 60000);
}

#[test]
fn test_numa_node_readings() {
    let mut node = NumaNode::new(2, "24-27,31-33".to_string());
    assert_eq!(node.get_id(), 2);
    assert_eq!(node.cpu_list.inner, vec![24u64, 25, 26, 27, 31, 32, 33]);
    let meminfo = "Node 2 MemTotal:       49540944 kB\nNode 2 MemFree:        17778964 kB\nNode 2 MemUsed:        31761980 kB\nNode 2 Shmem:          1300328 kB\nNode 2 FilePages:      3851204 kB\n";
    node.refresh_numa_mem_info(meminfo);
    assert_eq!(node.mem_total, 49540944);
    assert_eq!(node.mem_free, 17778964);
    assert_eq!(node.mem_used, 31761980);
    assert_eq!(node.mem_shmem, 1300328);
    assert_eq!(node.mem_file_pages, 3851204);
    node.refresh_numa_mem_availabe(500);
    // the watermark divides by a thousand first, so 500 reserves nothing
    assert_eq!(node.mem_available, 17778964 + 3851204);
}

#[test]
fn test_device_node_topology() {
    let lists = vec![(0u64, "0-3".to_string()), (1u64, "4-7".to_string())];
    let mut devs = SystemDeviceNode::new("0-1".to_string(), "0-1".to_string(), lists);
    assert_eq!(devs.has_cpu.inner, vec![0u64, 1u64]);
    assert_eq!(devs.has_memory.inner, vec![0u64, 1u64]);
    assert_eq!(devs.get_nodes().len(), 2);
    assert_eq!(devs.nodes[1].cpu_list.inner, vec![4u64, 5, 6, 7]);
    devs.reset();
    assert_eq!(devs.nodes[0].mem_total, 0);
    assert_eq!(devs.nodes[0].mem_available, 0);
}

#[test]
fn test_system_pressure_files() {
    let cpu = "some avg10=1.00 avg60=1.50 avg300=2.62 total=1000\nfull avg10=0.10 avg60=0.10 avg300=0.10 total=10\n";
    let mem = "some avg10=0.00 avg60=0.00 avg300=0.00 total=503450\nfull avg10=0.00 avg60=0.00 avg300=0.00 total=136733\n";
    let io = "some avg10=0.00 avg60=0.11 avg300=0.00 total=9\nfull avg10=0.00 avg60=0.00 avg300=0.02 total=5\n";
    let mut psi = SystemPSI::new();
    psi.update(Some(cpu), Some(mem), Some(io));
    // the whole-machine CPU reading keeps no `full` line
    assert!(psi.cpu().get_full().is_none());
    assert_eq!(psi.cpu().get_some().unwrap().get_avg300() as f64 / 100.0, 2.62);
    assert_eq!(psi.memory().get_some().unwrap().get_total() as f64 / 100.0, 503450.0);
    assert_eq!(psi.memory().get_full().unwrap().get_total() as f64 / 100.0, 136733.0);
    assert_eq!(psi.io().get_some().unwrap().get_avg60() as f64 / 100.0, 0.11);
    assert_eq!(psi.io().get_full().unwrap().get_avg300() as f64 / 100.0, 0.02);
}

#[test]
fn test_processor_table_from_stat_text() {
    let stat = "cpu 100 0 100 700 100 0 0 0 0 0\ncpu0 60 0 40 80 20 0 0 0 0 0\ncpu1 40 0 60 90 10 0 0 0 0 0\nprocs_running 2\nprocs_blocked 1\n";
    let mut procs = SystemProcessorInfo::new();
    procs.refresh_processor_stat(stat);
    assert_eq!(procs.len(), 2);
    let c0 = procs.get("cpu0").unwrap();
    assert_eq!(c0.new_processor_info.user, 60);
    assert_eq!(c0.total_time, 200);
    // work 100 of 200, in hundredths of a percent
    assert_eq!(c0.get_cpu_usage(), 5000);
    assert_eq!(procs.get_global_processor().new_processor_info.idle, 700);
    assert!(procs.get("cpu9").is_none());
    let sched = "version 15\nheader\ncpu0 0 0 0 0 0 0 0 302954360878359 0\ndomain0 x\ncpu1 0 0 0 0 0 0 0 5 0\n";
    procs.refresh_processor_sched_wait(sched, 1000);
    assert_eq!(
        procs.get("cpu0").unwrap().processor_sched_stat_info.sched_wait_data,
        302954360878359
    );
    let mut stats = SystemProcessStats::default();
    stats.refresh(stat);
    assert_eq!(stats.procs_running, Some(2));
    assert_eq!(stats.procs_blocked, Some(1));
}
