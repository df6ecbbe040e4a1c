//! The cpuset controller: which processors and memory nodes a cgroup may
//! use, in both filesystem layouts.

use vstd::prelude::*;

use crate::cgtypes::CGroupType;
use crate::nodevec::{spec_node_list, NodeVec};
use crate::text::{join2, join3};

verus! {

/// What one cpuset poll does, in either layout: each line that could be
/// read replaces its list (text retained, expansion exact), a missing line
/// leaves the previous list, the sample time is recorded and the identity
/// is kept.
pub open spec fn spec_cpuset_lists_updated(
    pre_cpus: NodeVec,
    pre_mems: NodeVec,
    post_cpus: NodeVec,
    post_mems: NodeVec,
    cpus_line: Option<Seq<char>>,
    mems_line: Option<Seq<char>>,
) -> bool {
    &&& match cpus_line {
        Some(l) => post_cpus.meta@ == l && post_cpus.inner@ == spec_node_list(l),
        None => post_cpus == pre_cpus,
    }
    &&& match mems_line {
        Some(l) => post_mems.meta@ == l && post_mems.inner@ == spec_node_list(l),
        None => post_mems == pre_mems,
    }
}

/// An administratively reset cpuset record: both lists empty, text
/// included, the sample time cleared, the identity kept.
pub open spec fn spec_cpuset_lists_reset(post_cpus: NodeVec, post_mems: NodeVec) -> bool {
    &&& post_cpus.meta@.len() == 0
    &&& post_cpus.inner@.len() == 0
    &&& post_mems.meta@.len() == 0
    &&& post_mems.inner@.len() == 0
}

/// The v2 cpuset state: effective processor and memory-node lists.
#[derive(Clone, Debug)]
pub struct CpuSetCGroupV2 {
    pub full_path: String,
    pub mems: NodeVec,
    pub cpus: NodeVec,
    pub update_time: u64,
}

impl CpuSetCGroupV2 {
    pub fn new(full_path: String) -> (r: CpuSetCGroupV2)
        ensures
            r.full_path@ == full_path@,
            r.mems.inner@.len() == 0,
            r.mems.meta@.len() == 0,
            r.cpus.inner@.len() == 0,
            r.cpus.meta@.len() == 0,
            r.update_time == 0,
    {
        CpuSetCGroupV2 { full_path, mems: NodeVec::new(), cpus: NodeVec::new(), update_time: 0 }
    }

    pub fn full_path(&self) -> (r: &str)
        ensures
            r@ == self.full_path@,
    {
        self.full_path.as_str()
    }

    pub fn mems(&self) -> (r: &NodeVec)
        ensures
            r == &self.mems,
    {
        &self.mems
    }

    pub fn cpus(&self) -> (r: &NodeVec)
        ensures
            r == &self.cpus,
    {
        &self.cpus
    }

    /// Expand one `cpuset.cpus.effective` line.
    pub fn update_cpus(&mut self, data: String)
        ensures
            final(self).cpus.meta@ == data@,
            final(self).cpus.inner@ == spec_node_list(data@),
            *final(self) == (CpuSetCGroupV2 { cpus: final(self).cpus, ..*old(self) }),
    {
        self.cpus = NodeVec::from(data);
    }

    /// Expand one `cpuset.mems.effective` line.
    pub fn update_mems(&mut self, data: String)
        ensures
            final(self).mems.meta@ == data@,
            final(self).mems.inner@ == spec_node_list(data@),
            *final(self) == (CpuSetCGroupV2 { mems: final(self).mems, ..*old(self) }),
    {
        self.mems = NodeVec::from(data);
    }

    /// One full poll: each line that could be read replaces its list; the
    /// sample time is recorded.
    pub fn update(&mut self, cpus_line: Option<String>, mems_line: Option<String>, now: u64)
        ensures
            final(self).update_time == now,
            final(self).full_path@ == old(self).full_path@,
            spec_cpuset_lists_updated(
                old(self).cpus,
                old(self).mems,
                final(self).cpus,
                final(self).mems,
                (match cpus_line {
                    Some(l) => Some(l@),
                    None => None,
                }),
                (match mems_line {
                    Some(l) => Some(l@),
                    None => None,
                }),
            ),
    {
        match cpus_line {
            Some(l) => self.update_cpus(l),
            None => {},
        }
        match mems_line {
            Some(l) => self.update_mems(l),
            None => {},
        }
        self.update_time = now;
    }

    /// Administrative reset: empty lists (their texts included), keeping
    /// the path.
    pub fn reset(&mut self)
        ensures
            final(self).full_path@ == old(self).full_path@,
            spec_cpuset_lists_reset(final(self).cpus, final(self).mems),
            final(self).update_time == 0,
    {
        let full_path = self.full_path.clone();
        *self = CpuSetCGroupV2::new(full_path);
    }
}

/// The v1 cpuset state.
#[derive(Clone, Debug)]
pub struct CpuSetCGroupV1 {
    pub full_path: String,
    pub mems: NodeVec,
    pub cpus: NodeVec,
    pub update_time: u64,
}

impl CpuSetCGroupV1 {
    pub fn new(full_path: String) -> (r: CpuSetCGroupV1)
        ensures
            r.full_path@ == full_path@,
            r.mems.inner@.len() == 0,
            r.mems.meta@.len() == 0,
            r.cpus.inner@.len() == 0,
            r.cpus.meta@.len() == 0,
            r.update_time == 0,
    {
        CpuSetCGroupV1 { full_path, mems: NodeVec::new(), cpus: NodeVec::new(), update_time: 0 }
    }

    pub fn full_path(&self) -> (r: &str)
        ensures
            r@ == self.full_path@,
    {
        self.full_path.as_str()
    }

    pub fn mems(&self) -> (r: &NodeVec)
        ensures
            r == &self.mems,
    {
        &self.mems
    }

    pub fn cpus(&self) -> (r: &NodeVec)
        ensures
            r == &self.cpus,
    {
        &self.cpus
    }

    /// Expand one `cpuset.cpus` line.
    pub fn update_cpus(&mut self, data: String)
        ensures
            final(self).cpus.meta@ == data@,
            final(self).cpus.inner@ == spec_node_list(data@),
            *final(self) == (CpuSetCGroupV1 { cpus: final(self).cpus, ..*old(self) }),
    {
        self.cpus = NodeVec::from(data);
    }

    /// Expand one `cpuset.mems` line.
    pub fn update_mems(&mut self, data: String)
        ensures
            final(self).mems.meta@ == data@,
            final(self).mems.inner@ == spec_node_list(data@),
            *final(self) == (CpuSetCGroupV1 { mems: final(self).mems, ..*old(self) }),
    {
        self.mems = NodeVec::from(data);
    }

    /// One full poll: each line that could be read replaces its list; the
    /// sample time is recorded.
    pub fn update(&mut self, cpus_line: Option<String>, mems_line: Option<String>, now: u64)
        ensures
            final(self).update_time == now,
            final(self).full_path@ == old(self).full_path@,
            spec_cpuset_lists_updated(
                old(self).cpus,
                old(self).mems,
                final(self).cpus,
                final(self).mems,
                (match cpus_line {
                    Some(l) => Some(l@),
                    None => None,
                }),
                (match mems_line {
                    Some(l) => Some(l@),
                    None => None,
                }),
            ),
    {
        match cpus_line {
            Some(l) => self.update_cpus(l),
            None => {},
        }
        match mems_line {
            Some(l) => self.update_mems(l),
            None => {},
        }
        self.update_time = now;
    }

    /// Administrative reset: empty lists (their texts included), keeping
    /// the path.
    pub fn reset(&mut self)
        ensures
            final(self).full_path@ == old(self).full_path@,
            spec_cpuset_lists_reset(final(self).cpus, final(self).mems),
            final(self).update_time == 0,
    {
        let full_path = self.full_path.clone();
        *self = CpuSetCGroupV1::new(full_path);
    }
}

/// The cpuset controller in whichever layout the host runs.
#[derive(Clone, Debug)]
pub enum CpuSetCGroup {
    V1(CpuSetCGroupV1),
    V2(CpuSetCGroupV2),
}

/// The cpuset record for `user_path`: v1 under the controller's own
/// subtree, v2 directly under the mount point.
pub fn new_cpuset_cgroup(mount_point: &str, user_path: &str, cgroup_type: CGroupType) -> (r:
    CpuSetCGroup)
    ensures
        match r {
            CpuSetCGroup::V1(v1) => cgroup_type == CGroupType::V1 && v1.full_path@ == mount_point@
                + "/"@ + "cpuset"@ + "/"@ + user_path@,
            CpuSetCGroup::V2(v2) => cgroup_type == CGroupType::V2 && v2.full_path@ == mount_point@
                + "/"@ + user_path@,
        },
{
    match cgroup_type {
        CGroupType::V1 => CpuSetCGroup::V1(
            CpuSetCGroupV1::new(join3(mount_point, "cpuset", user_path)),
        ),
        CGroupType::V2 => CpuSetCGroup::V2(CpuSetCGroupV2::new(join2(mount_point, user_path))),
    }
}

impl CpuSetCGroup {
    pub fn full_path(&self) -> (r: &str)
        ensures
            r@ == (match *self {
                CpuSetCGroup::V1(v1) => v1.full_path@,
                CpuSetCGroup::V2(v2) => v2.full_path@,
            }),
    {
        match self {
            CpuSetCGroup::V1(v1) => v1.full_path(),
            CpuSetCGroup::V2(v2) => v2.full_path(),
        }
    }

    /// One full poll of whichever layout is live.
    pub fn update(&mut self, cpus_line: Option<String>, mems_line: Option<String>, now: u64)
        ensures
            match *final(self) {
                CpuSetCGroup::V1(v1) => (*old(self)) is V1 && v1.update_time == now
                    && v1.full_path@ == old(self).arrow_V1_0().full_path@
                    && spec_cpuset_lists_updated(
                    old(self).arrow_V1_0().cpus,
                    old(self).arrow_V1_0().mems,
                    v1.cpus,
                    v1.mems,
                    (match cpus_line {
                        Some(l) => Some(l@),
                        None => None,
                    }),
                    (match mems_line {
                        Some(l) => Some(l@),
                        None => None,
                    }),
                ),
                CpuSetCGroup::V2(v2) => (*old(self)) is V2 && v2.update_time == now
                    && v2.full_path@ == old(self).arrow_V2_0().full_path@
                    && spec_cpuset_lists_updated(
                    old(self).arrow_V2_0().cpus,
                    old(self).arrow_V2_0().mems,
                    v2.cpus,
                    v2.mems,
                    (match cpus_line {
                        Some(l) => Some(l@),
                        None => None,
                    }),
                    (match mems_line {
                        Some(l) => Some(l@),
                        None => None,
                    }),
                ),
            },
    {
        match self {
            CpuSetCGroup::V1(v1) => v1.update(cpus_line, mems_line, now),
            CpuSetCGroup::V2(v2) => v2.update(cpus_line, mems_line, now),
        }
    }

    /// The fast path carries nothing for cpuset.
    pub fn update_ebpf(&mut self)
        ensures
            *final(self) == *old(self),
    {
    }

    pub fn reset(&mut self)
        ensures
            match *final(self) {
                CpuSetCGroup::V1(v1) => (*old(self)) is V1 && v1.update_time == 0
                    && spec_cpuset_lists_reset(v1.cpus, v1.mems) && v1.full_path@
                    == old(self).arrow_V1_0().full_path@,
                CpuSetCGroup::V2(v2) => (*old(self)) is V2 && v2.update_time == 0
                    && spec_cpuset_lists_reset(v2.cpus, v2.mems) && v2.full_path@
                    == old(self).arrow_V2_0().full_path@,
            },
    {
        match self {
            CpuSetCGroup::V1(v1) => v1.reset(),
            CpuSetCGroup::V2(v2) => v2.reset(),
        }
    }
}

} // verus!
