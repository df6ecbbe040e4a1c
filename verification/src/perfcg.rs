//! The perf-event cgroup: cycles-per-instruction figures merged in from
//! the PMU backend, in micro-units (the reported value times one million).

use vstd::prelude::*;

use crate::cgtypes::CGroupType;
use crate::text::{join2, join3};

verus! {

/// One cgroup's PMU figures, each in micro-units.
#[derive(Clone, Debug)]
pub struct PerfEventCGroup {
    pub user_path: String,
    pub full_path: String,
    pub cpi: u64,
    pub instructions: u64,
    pub cycles: u64,
    pub l3_cache_miss: u64,
    pub utilization: u64,
    pub icache_miss: u64,
    pub l2_cache_miss: u64,
    pub update_time: u64,
}

/// The perf-event record for `user_path`: v1 under the `perf_event`
/// subtree, v2 directly under the mount point.
pub fn new_perf_event_cgroup(mount_point: &str, user_path: &str, cgroup_type: CGroupType) -> (r:
    PerfEventCGroup)
    ensures
        r.user_path@ == user_path@,
        r.full_path@ == (match cgroup_type {
            CGroupType::V1 => mount_point@ + "/"@ + "perf_event"@ + "/"@ + user_path@,
            CGroupType::V2 => mount_point@ + "/"@ + user_path@,
        }),
        r.cpi == 0 && r.instructions == 0 && r.cycles == 0 && r.l3_cache_miss == 0
            && r.utilization == 0 && r.icache_miss == 0 && r.l2_cache_miss == 0 && r.update_time
            == 0,
{
    let full_path: String = match cgroup_type {
        CGroupType::V1 => join3(mount_point, "perf_event", user_path),
        CGroupType::V2 => join2(mount_point, user_path),
    };
    PerfEventCGroup::new(full_path, String::from_str(user_path))
}

impl PerfEventCGroup {
    pub fn new(full_path: String, user_path: String) -> (r: PerfEventCGroup)
        ensures
            r.user_path@ == user_path@,
            r.full_path@ == full_path@,
            r.cpi == 0 && r.instructions == 0 && r.cycles == 0 && r.l3_cache_miss == 0
                && r.utilization == 0 && r.icache_miss == 0 && r.l2_cache_miss == 0
                && r.update_time == 0,
    {
        PerfEventCGroup {
            user_path,
            full_path,
            cpi: 0,
            instructions: 0,
            cycles: 0,
            l3_cache_miss: 0,
            utilization: 0,
            icache_miss: 0,
            l2_cache_miss: 0,
            update_time: 0,
        }
    }

    pub fn user_path(&self) -> (r: &str)
        ensures
            r@ == self.user_path@,
    {
        self.user_path.as_str()
    }

    pub fn full_path(&self) -> (r: &str)
        ensures
            r@ == self.full_path@,
    {
        self.full_path.as_str()
    }

    pub fn icache_miss(&self) -> (r: u64)
        ensures
            r == self.icache_miss,
    {
        self.icache_miss
    }

    pub fn l2_cache_miss(&self) -> (r: u64)
        ensures
            r == self.l2_cache_miss,
    {
        self.l2_cache_miss
    }

    pub fn l3_cache_miss(&self) -> (r: u64)
        ensures
            r == self.l3_cache_miss,
    {
        self.l3_cache_miss
    }

    pub fn cpi(&self) -> (r: u64)
        ensures
            r == self.cpi,
    {
        self.cpi
    }

    /// Merge one PMU report into the record, stamped with the merge time.
    pub fn update_with_value(
        &mut self,
        cpi: u64,
        instructions: u64,
        cycles: u64,
        l3_cache_miss: u64,
        utilization: u64,
        now: u64,
    )
        ensures
            *final(self) == (PerfEventCGroup {
                cpi,
                instructions,
                cycles,
                l3_cache_miss,
                utilization,
                update_time: now,
                ..*old(self)
            }),
    {
        self.cpi = cpi;
        self.instructions = instructions;
        self.cycles = cycles;
        self.l3_cache_miss = l3_cache_miss;
        self.utilization = utilization;
        self.update_time = now;
    }

    /// The slow path reads no files for the perf-event cgroup.
    pub fn update(&mut self)
        ensures
            *final(self) == *old(self),
    {
    }

    /// The fast path carries nothing for the perf-event cgroup either; its
    /// figures arrive through the PMU merge.
    pub fn update_ebpf(&mut self)
        ensures
            *final(self) == *old(self),
    {
    }

    /// Administrative reset: zero figures, keeping the identity.
    pub fn reset(&mut self)
        ensures
            final(self).full_path@ == old(self).full_path@,
            final(self).user_path@ == old(self).user_path@,
            final(self).cpi == 0,
            final(self).instructions == 0,
            final(self).cycles == 0,
            final(self).l3_cache_miss == 0,
            final(self).utilization == 0,
            final(self).icache_miss == 0,
            final(self).l2_cache_miss == 0,
            final(self).update_time == 0,
    {
        let full_path = self.full_path.clone();
        let user_path = self.user_path.clone();
        *self = PerfEventCGroup::new(full_path, user_path);
    }
}

} // verus!
