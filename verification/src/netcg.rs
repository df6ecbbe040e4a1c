//! The network cgroup: per-cgroup TCP and UDP counters from the
//! kernel-counter backend; it has no text files of its own.

use vstd::prelude::*;

use crate::bpf::{spec_module_valid, WrapperNetData, BPF_MODULE_CGROUP_NET};
use crate::cgtypes::CGroupType;
use crate::text::{join2, join3};

verus! {

/// A cgroup's network counters, with the previous report kept for deltas.
#[derive(Clone, Debug)]
pub struct NetCGroup {
    pub full_path: String,
    pub user_path: String,
    pub bpf_net_data: WrapperNetData,
    pub old_bpf_net_data: WrapperNetData,
    pub update_time: u64,
}

/// The network record for `user_path`: v1 under the `net_cls` subtree, v2
/// directly under the mount point.
pub fn new_net_cgroup(mount_point: &str, user_path: &str, cgroup_type: CGroupType) -> (r: NetCGroup)
    ensures
        r.user_path@ == user_path@,
        r.full_path@ == (match cgroup_type {
            CGroupType::V1 => mount_point@ + "/"@ + "net_cls"@ + "/"@ + user_path@,
            CGroupType::V2 => mount_point@ + "/"@ + user_path@,
        }),
        r.bpf_net_data == WrapperNetData::spec_zero(),
        r.old_bpf_net_data == WrapperNetData::spec_zero(),
        r.update_time == 0,
{
    let full_path: String = match cgroup_type {
        CGroupType::V1 => join3(mount_point, "net_cls", user_path),
        CGroupType::V2 => join2(mount_point, user_path),
    };
    NetCGroup {
        full_path,
        user_path: String::from_str(user_path),
        bpf_net_data: WrapperNetData::zero(),
        old_bpf_net_data: WrapperNetData::zero(),
        update_time: 0,
    }
}

impl NetCGroup {
    pub fn full_path(&self) -> (r: &str)
        ensures
            r@ == self.full_path@,
    {
        self.full_path.as_str()
    }

    pub fn user_path(&self) -> (r: &str)
        ensures
            r@ == self.user_path@,
    {
        self.user_path.as_str()
    }

    /// Take one backend report, keeping the previous one for deltas.
    pub fn update_bpf_data(&mut self, data: WrapperNetData)
        ensures
            *final(self) == (NetCGroup {
                old_bpf_net_data: old(self).bpf_net_data,
                bpf_net_data: data,
                ..*old(self)
            }),
    {
        self.old_bpf_net_data = self.bpf_net_data;
        self.bpf_net_data = data;
    }

    /// The slow path reads no files for the network cgroup.
    pub fn update(&mut self)
        ensures
            *final(self) == *old(self),
    {
    }

    /// The fast-path poll: the report is taken only when the capability
    /// mask marks the network module loaded.
    pub fn update_ebpf(&mut self, bpf_mask: u64, data: WrapperNetData)
        ensures
            *final(self) == (if spec_module_valid(bpf_mask, BPF_MODULE_CGROUP_NET) {
                NetCGroup {
                    old_bpf_net_data: old(self).bpf_net_data,
                    bpf_net_data: data,
                    ..*old(self)
                }
            } else {
                *old(self)
            }),
    {
        if crate::bpf::is_bpf_moudule_valid(bpf_mask, BPF_MODULE_CGROUP_NET) {
            self.update_bpf_data(data);
        }
    }

    /// Administrative reset: zero counters, keeping the identity.
    pub fn reset(&mut self)
        ensures
            final(self).full_path@ == old(self).full_path@,
            final(self).user_path@ == old(self).user_path@,
            final(self).bpf_net_data == WrapperNetData::spec_zero(),
            final(self).old_bpf_net_data == WrapperNetData::spec_zero(),
            final(self).update_time == 0,
    {
        self.bpf_net_data = WrapperNetData::zero();
        self.old_bpf_net_data = WrapperNetData::zero();
        self.update_time = 0;
    }
}

} // verus!
