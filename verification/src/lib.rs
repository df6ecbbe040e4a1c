//! Host metrics collection library.
//!
//! The library samples monotonic kernel counters, normalises them into
//! bounded rates, models per-cgroup resource accounting for both cgroup
//! filesystem layouts, and publishes consistent snapshots through a
//! double-buffered monitor driven by a settings tree.

pub mod blkio;
pub mod bpf;
pub mod cgroup;
pub mod cgtext;
pub mod cgtypes;
pub mod cpucg;
pub mod cpusetcg;
pub mod disk;
pub mod kvmap;
pub mod loadavg;
pub mod memcg;
pub mod meminfo;
pub mod monitor;
pub mod net;
pub mod netcg;
pub mod nodevec;
pub mod numa;
pub mod perfcg;
pub mod processor;
pub mod procstat;
pub mod psi;
pub mod rate;
pub mod settings;
pub mod sysproc;
pub mod system;
pub mod text;
pub mod timeutil;
pub mod traffic;
