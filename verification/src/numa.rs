//! The NUMA topology: per-node memory figures from the per-node `meminfo`
//! files, the node lists, and the PMU backend's bandwidth and latency
//! figures in micro-units.

use vstd::prelude::*;

use crate::nodevec::{spec_node_list, NodeVec};
use crate::psi::spec_map_get_or;

verus! {

/// One memory channel's figures as the PMU backend reports them, each in
/// micro-units.
#[derive(Clone, Debug)]
pub struct ImcChannelInfo {
    pub channel_name: String,
    pub mem_read_bandwidth: u64,
    pub mem_write_bandwidth: u64,
    pub mem_idle_bandwidth: u64,
    pub mem_bandwidth_util: u64,
    pub mem_read_latency: u64,
    pub mem_write_latency: u64,
}

impl ImcChannelInfo {
    pub fn new(
        channel_name: String,
        mem_read_bandwidth: u64,
        mem_write_bandwidth: u64,
        mem_idle_bandwidth: u64,
        mem_bandwidth_util: u64,
        mem_read_latency: u64,
        mem_write_latency: u64,
    ) -> (r: ImcChannelInfo)
        ensures
            r.channel_name@ == channel_name@,
            r.mem_read_bandwidth == mem_read_bandwidth,
            r.mem_write_bandwidth == mem_write_bandwidth,
            r.mem_idle_bandwidth == mem_idle_bandwidth,
            r.mem_bandwidth_util == mem_bandwidth_util,
            r.mem_read_latency == mem_read_latency,
            r.mem_write_latency == mem_write_latency,
    {
        ImcChannelInfo {
            channel_name,
            mem_read_bandwidth,
            mem_write_bandwidth,
            mem_idle_bandwidth,
            mem_bandwidth_util,
            mem_read_latency,
            mem_write_latency,
        }
    }
}

/// One NUMA node's figures.
#[derive(Clone, Debug)]
pub struct NumaNode {
    pub id: u64,
    pub cpu_list: NodeVec,
    pub mem_free: u64,
    pub mem_used: u64,
    pub mem_total: u64,
    pub mem_shmem: u64,
    pub mem_available: u64,
    pub mem_file_pages: u64,
    pub mem_read_bandwidth_mb: u64,
    pub mem_write_bandwidth_mb: u64,
    pub mem_read_latency: u64,
    pub mem_write_latency: u64,
    pub mem_theory_mx_bandwidth_mb: u64,
    pub channels: Vec<ImcChannelInfo>,
}

/// What a node's memory becomes available as: free plus file pages, less
/// the watermark reserve, floored at zero and capped at the largest
/// representable value.
pub open spec fn spec_numa_available(
    free: u64,
    file_pages: u64,
    total: u64,
    watermark: u64,
) -> u64 {
    let reserve = total * (watermark / 1000);
    let have = free + file_pages;
    if have >= reserve {
        if have - reserve > u64::MAX {
            u64::MAX
        } else {
            (have - reserve) as u64
        }
    } else {
        0
    }
}

impl NumaNode {
    /// A fresh node record from its id and its `cpulist` line.
    pub fn new(id: u64, cpu_list_line: String) -> (r: NumaNode)
        ensures
            r.id == id,
            r.cpu_list.meta@ == cpu_list_line@,
            r.cpu_list.inner@ == spec_node_list(cpu_list_line@),
            r.mem_free == 0 && r.mem_used == 0 && r.mem_total == 0 && r.mem_shmem == 0
                && r.mem_available == 0 && r.mem_file_pages == 0,
            r.mem_read_bandwidth_mb == 0 && r.mem_write_bandwidth_mb == 0 && r.mem_read_latency
                == 0 && r.mem_write_latency == 0 && r.mem_theory_mx_bandwidth_mb == 0,
            r.channels@.len() == 0,
    {
        NumaNode {
            id,
            cpu_list: NodeVec::from(cpu_list_line),
            mem_free: 0,
            mem_used: 0,
            mem_total: 0,
            mem_shmem: 0,
            mem_available: 0,
            mem_file_pages: 0,
            mem_read_bandwidth_mb: 0,
            mem_write_bandwidth_mb: 0,
            mem_read_latency: 0,
            mem_write_latency: 0,
            mem_theory_mx_bandwidth_mb: 0,
            channels: Vec::new(),
        }
    }

    pub fn get_id(&self) -> (r: u64)
        ensures
            r == self.id,
    {
        self.id
    }

    /// Take one PMU report for this node; an all-zero report is discarded
    /// (the backend had nothing for the node).
    pub fn refresh_numa_mem(
        &mut self,
        mem_read_bandwidth_mb: u64,
        mem_write_bandwidth_mb: u64,
        mem_theory_mx_bandwidth_mb: u64,
        mem_read_latency: u64,
        mem_write_latency: u64,
        channels: Vec<ImcChannelInfo>,
    )
        ensures
            (mem_theory_mx_bandwidth_mb == 0 && mem_write_bandwidth_mb == 0
                && mem_read_bandwidth_mb == 0 && mem_read_latency == 0 && mem_write_latency == 0)
                ==> *final(self) == *old(self),
            !(mem_theory_mx_bandwidth_mb == 0 && mem_write_bandwidth_mb == 0
                && mem_read_bandwidth_mb == 0 && mem_read_latency == 0 && mem_write_latency == 0)
                ==> *final(self) == (NumaNode {
                mem_read_bandwidth_mb,
                mem_write_bandwidth_mb,
                mem_theory_mx_bandwidth_mb,
                mem_read_latency,
                mem_write_latency,
                channels: final(self).channels,
                ..*old(self)
            }) && final(self).channels == channels,
    {
        if mem_theory_mx_bandwidth_mb == 0 && mem_write_bandwidth_mb == 0 && mem_read_bandwidth_mb
            == 0 && mem_read_latency == 0 && mem_write_latency == 0 {
            return ;
        }
        self.mem_read_bandwidth_mb = mem_read_bandwidth_mb;
        self.mem_write_bandwidth_mb = mem_write_bandwidth_mb;
        self.mem_theory_mx_bandwidth_mb = mem_theory_mx_bandwidth_mb;
        self.mem_read_latency = mem_read_latency;
        self.mem_write_latency = mem_write_latency;
        self.channels = channels;
    }

    pub fn reset_numa_mem_bandwidth(&mut self)
        ensures
            *final(self) == (NumaNode {
                mem_read_bandwidth_mb: 0,
                mem_write_bandwidth_mb: 0,
                mem_theory_mx_bandwidth_mb: 0,
                channels: final(self).channels,
                ..*old(self)
            }),
            final(self).channels@.len() == 0,
    {
        self.mem_read_bandwidth_mb = 0;
        self.mem_write_bandwidth_mb = 0;
        self.mem_theory_mx_bandwidth_mb = 0;
        self.channels = Vec::new();
    }

    pub fn reset_numa_mem_latency(&mut self)
        ensures
            *final(self) == (NumaNode {
                mem_read_latency: 0,
                mem_write_latency: 0,
                ..*old(self)
            }),
    {
        self.mem_read_latency = 0;
        self.mem_write_latency = 0;
    }

    /// Read one per-node `meminfo` text; the keyed figures sit in the third
    /// column (`Node N MemTotal: value kB`), so the key is the third token
    /// without its colon and the value the fourth.
    pub fn refresh_numa_mem_info(&mut self, contents: &str)
        ensures
            ({
                let m = spec_numa_meminfo_map(contents@);
                *final(self) == (NumaNode {
                    mem_used: spec_map_get_or(m, "MemUsed"@, 0),
                    mem_shmem: spec_map_get_or(m, "Shmem"@, 0),
                    mem_total: spec_map_get_or(m, "MemTotal"@, 0),
                    mem_free: spec_map_get_or(m, "MemFree"@, 0),
                    mem_file_pages: spec_map_get_or(m, "FilePages"@, 0),
                    ..*old(self)
                })
            }),
    {
        let m = parse_numa_meminfo(contents);
        proof {
            reveal_strlit("MemUsed");
            reveal_strlit("Shmem");
            reveal_strlit("MemTotal");
            reveal_strlit("MemFree");
            reveal_strlit("FilePages");
        }
        self.mem_used = crate::psi::get_or(&m, "MemUsed", 0);
        self.mem_shmem = crate::psi::get_or(&m, "Shmem", 0);
        self.mem_total = crate::psi::get_or(&m, "MemTotal", 0);
        self.mem_free = crate::psi::get_or(&m, "MemFree", 0);
        self.mem_file_pages = crate::psi::get_or(&m, "FilePages", 0);
    }

    pub fn reset_numa_mem_info(&mut self)
        ensures
            *final(self) == (NumaNode {
                mem_used: 0,
                mem_shmem: 0,
                mem_total: 0,
                mem_free: 0,
                mem_file_pages: 0,
                ..*old(self)
            }),
    {
        self.mem_used = 0;
        self.mem_shmem = 0;
        self.mem_total = 0;
        self.mem_free = 0;
        self.mem_file_pages = 0;
    }

    /// Derive the available figure from the current readings and the
    /// system watermark.
    pub fn refresh_numa_mem_availabe(&mut self, system_mem_water_mark: u64)
        ensures
            *final(self) == (NumaNode {
                mem_available: spec_numa_available(
                    old(self).mem_free,
                    old(self).mem_file_pages,
                    old(self).mem_total,
                    system_mem_water_mark,
                ),
                ..*old(self)
            }),
    {
        proof {
            assert((self.mem_total as int) * ((system_mem_water_mark / 1000) as int) <= (
            u64::MAX as int) * (u64::MAX as int)) by (nonlinear_arith)
                requires
                    self.mem_total <= u64::MAX,
                    system_mem_water_mark / 1000 <= u64::MAX,
            ;
        }
        let reserve: u128 = (self.mem_total as u128) * ((system_mem_water_mark / 1000) as u128);
        let have: u128 = (self.mem_free as u128) + (self.mem_file_pages as u128);
        self.mem_available = if have >= reserve {
            let d = have - reserve;
            if d > u64::MAX as u128 {
                u64::MAX
            } else {
                d as u64
            }
        } else {
            0
        };
    }

    pub fn reset_numa_mem_availabe(&mut self)
        ensures
            *final(self) == (NumaNode { mem_available: 0, ..*old(self) }),
    {
        self.mem_available = 0;
    }
}

/// The per-node meminfo table: the third token without its colon, mapped
/// to the numeric fourth token.
pub open spec fn spec_numa_meminfo_upto(lines: Seq<Seq<char>>, n: int) -> Map<Seq<char>, u64>
    decreases n,
{
    if n <= 0 {
        Map::empty()
    } else {
        let m = spec_numa_meminfo_upto(lines, n - 1);
        let toks = crate::text::spec_split_ws(lines[n - 1]);
        if toks.len() >= 4 && toks[2].len() > 0 && crate::text::spec_parse_u64(toks[3]) is Some {
            m.insert(toks[2].drop_last(), crate::text::spec_parse_u64(toks[3]).unwrap())
        } else {
            m
        }
    }
}

pub open spec fn spec_numa_meminfo_map(s: Seq<char>) -> Map<Seq<char>, u64> {
    let lines = crate::text::spec_split(s, '\n');
    spec_numa_meminfo_upto(lines, lines.len() as int)
}

/// Parse one per-node `meminfo` text.
pub fn parse_numa_meminfo(contents: &str) -> (r: crate::kvmap::KvMap<u64>)
    ensures
        r.wf(),
        r.map_view() == spec_numa_meminfo_map(contents@),
{
    let lines = crate::text::split_str(contents, '\n');
    let mut m: crate::kvmap::KvMap<u64> = crate::kvmap::KvMap::new();
    let n = lines.len();
    let mut i: usize = 0;
    while i < n
        invariant
            n == lines@.len(),
            i <= n,
            lines.deep_view() == crate::text::spec_split(contents@, '\n'),
            m.wf(),
            m.map_view() == spec_numa_meminfo_upto(lines.deep_view(), i as int),
        decreases n - i,
    {
        proof {
            assert(lines.deep_view()[i as int] == lines@[i as int]@);
        }
        let toks = crate::text::split_ws_str(lines[i].as_str());
        if toks.len() >= 4 {
            proof {
                assert(toks.deep_view()[2] == toks@[2]@);
                assert(toks.deep_view()[3] == toks@[3]@);
            }
            let head = &toks[2];
            let hl = head.as_str().unicode_len();
            if hl > 0 {
                match crate::text::parse_u64_str(toks[3].as_str()) {
                    Some(v) => {
                        let key = String::from_str(head.as_str().substring_char(0, hl - 1));
                        proof {
                            assert(head@.subrange(0, hl - 1) =~= head@.drop_last());
                        }
                        m.set(key, v);
                    },
                    None => {},
                }
            }
        }
        i = i + 1;
    }
    m
}

/// The machine's nodes, discovered once from the `has_cpu` and
/// `has_memory` lists.
#[derive(Clone, Debug)]
pub struct SystemDeviceNode {
    pub has_cpu: NodeVec,
    pub has_memory: NodeVec,
    pub nodes: Vec<NumaNode>,
}

impl SystemDeviceNode {
    /// Build the topology from the two node lists and, for each node with
    /// memory, its id paired with its `cpulist` line.
    pub fn new(cpu_line: String, memory_line: String, node_cpulists: Vec<(u64, String)>) -> (r:
        SystemDeviceNode)
        ensures
            r.has_cpu.meta@ == cpu_line@,
            r.has_cpu.inner@ == spec_node_list(cpu_line@),
            r.has_memory.meta@ == memory_line@,
            r.has_memory.inner@ == spec_node_list(memory_line@),
            r.nodes@.len() == node_cpulists@.len(),
            forall|i: int|
                0 <= i < r.nodes@.len() ==> #[trigger] r.nodes@[i].id == node_cpulists@[i].0
                    && r.nodes@[i].cpu_list.meta@ == node_cpulists@[i].1@
                    && r.nodes@[i].cpu_list.inner@ == spec_node_list(node_cpulists@[i].1@),
    {
        let has_cpu = NodeVec::from(cpu_line);
        let has_memory = NodeVec::from(memory_line);
        let n = node_cpulists.len();
        let mut nodes: Vec<NumaNode> = Vec::new();
        let mut i: usize = 0;
        while i < n
            invariant
                n == node_cpulists@.len(),
                i <= n,
                nodes@.len() == i,
                forall|j: int|
                    0 <= j < i ==> #[trigger] nodes@[j].id == node_cpulists@[j].0
                        && nodes@[j].cpu_list.meta@ == node_cpulists@[j].1@
                        && nodes@[j].cpu_list.inner@ == spec_node_list(node_cpulists@[j].1@),
            decreases n - i,
        {
            let id = node_cpulists[i].0;
            let line = node_cpulists[i].1.clone();
            nodes.push(NumaNode::new(id, line));
            i = i + 1;
        }
        SystemDeviceNode { has_cpu, has_memory, nodes }
    }

    pub fn get_nodes(&self) -> (r: &Vec<NumaNode>)
        ensures
            r == &self.nodes,
    {
        &self.nodes
    }

    /// Read each node's `meminfo` text, the i-th text feeding the i-th
    /// node; nodes without a text are left alone.
    pub fn refresh_basic_info(&mut self, contents: &Vec<Option<String>>)
        ensures
            final(self).nodes@.len() == old(self).nodes@.len(),
            final(self).has_cpu == old(self).has_cpu,
            final(self).has_memory == old(self).has_memory,
            forall|i: int|
                0 <= i < final(self).nodes@.len() ==> #[trigger] final(self).nodes@[i].id == old(
                    self,
                ).nodes@[i].id,
    {
        let n = self.nodes.len();
        let mut i: usize = 0;
        while i < n
            invariant
                n == self.nodes@.len(),
                i <= n,
                self.nodes@.len() == old(self).nodes@.len(),
                self.has_cpu == old(self).has_cpu,
                self.has_memory == old(self).has_memory,
                forall|j: int|
                    0 <= j < n ==> #[trigger] self.nodes@[j].id == old(self).nodes@[j].id,
            decreases n - i,
        {
            if i < contents.len() {
                match &contents[i] {
                    Some(c) => {
                        let node = &mut self.nodes[i];
                        node.refresh_numa_mem_info(c.as_str());
                    },
                    None => {},
                }
            }
            i = i + 1;
        }
    }

    pub fn reset_basic_info(&mut self)
        ensures
            final(self).nodes@.len() == old(self).nodes@.len(),
            forall|i: int|
                0 <= i < final(self).nodes@.len() ==> #[trigger] final(self).nodes@[i].mem_total
                    == 0 && final(self).nodes@[i].mem_free == 0 && final(self).nodes@[i].mem_used
                    == 0,
            final(self).has_cpu == old(self).has_cpu,
            final(self).has_memory == old(self).has_memory,
    {
        let n = self.nodes.len();
        let mut i: usize = 0;
        while i < n
            invariant
                n == self.nodes@.len(),
                i <= n,
                self.nodes@.len() == old(self).nodes@.len(),
                self.has_cpu == old(self).has_cpu,
                self.has_memory == old(self).has_memory,
                forall|j: int|
                    0 <= j < i ==> #[trigger] self.nodes@[j].mem_total == 0
                        && self.nodes@[j].mem_free == 0 && self.nodes@[j].mem_used == 0,
            decreases n - i,
        {
            let node = &mut self.nodes[i];
            node.reset_numa_mem_info();
            i = i + 1;
        }
    }

    /// Derive every node's available figure from the system watermark.
    pub fn refresh_numa_avaiable_mem(&mut self, system_mem_water_mark: u64)
        ensures
            final(self).nodes@.len() == old(self).nodes@.len(),
            forall|i: int|
                0 <= i < final(self).nodes@.len() ==> #[trigger] final(self).nodes@[i]
                    == (NumaNode {
                    mem_available: spec_numa_available(
                        old(self).nodes@[i].mem_free,
                        old(self).nodes@[i].mem_file_pages,
                        old(self).nodes@[i].mem_total,
                        system_mem_water_mark,
                    ),
                    ..old(self).nodes@[i]
                }),
            final(self).has_cpu == old(self).has_cpu,
            final(self).has_memory == old(self).has_memory,
    {
        let n = self.nodes.len();
        let mut i: usize = 0;
        while i < n
            invariant
                n == self.nodes@.len(),
                i <= n,
                self.nodes@.len() == old(self).nodes@.len(),
                self.has_cpu == old(self).has_cpu,
                self.has_memory == old(self).has_memory,
                forall|j: int|
                    0 <= j < i ==> #[trigger] self.nodes@[j] == (NumaNode {
                        mem_available: spec_numa_available(
                            old(self).nodes@[j].mem_free,
                            old(self).nodes@[j].mem_file_pages,
                            old(self).nodes@[j].mem_total,
                            system_mem_water_mark,
                        ),
                        ..old(self).nodes@[j]
                    }),
                forall|j: int| i <= j < n ==> #[trigger] self.nodes@[j] == old(self).nodes@[j],
            decreases n - i,
        {
            let node = &mut self.nodes[i];
            node.refresh_numa_mem_availabe(system_mem_water_mark);
            i = i + 1;
        }
    }

    pub fn reset_numa_avaiable_mem(&mut self)
        ensures
            final(self).nodes@.len() == old(self).nodes@.len(),
            forall|i: int|
                0 <= i < final(self).nodes@.len() ==> #[trigger] final(self).nodes@[i]
                    == (NumaNode { mem_available: 0, ..old(self).nodes@[i] }),
            final(self).has_cpu == old(self).has_cpu,
            final(self).has_memory == old(self).has_memory,
    {
        let n = self.nodes.len();
        let mut i: usize = 0;
        while i < n
            invariant
                n == self.nodes@.len(),
                i <= n,
                self.nodes@.len() == old(self).nodes@.len(),
                self.has_cpu == old(self).has_cpu,
                self.has_memory == old(self).has_memory,
                forall|j: int|
                    0 <= j < i ==> #[trigger] self.nodes@[j] == (NumaNode {
                        mem_available: 0,
                        ..old(self).nodes@[j]
                    }),
                forall|j: int| i <= j < n ==> #[trigger] self.nodes@[j] == old(self).nodes@[j],
            decreases n - i,
        {
            let node = &mut self.nodes[i];
            node.reset_numa_mem_availabe();
            i = i + 1;
        }
    }

    /// Administrative reset of every per-node figure.
    pub fn reset(&mut self)
        ensures
            final(self).nodes@.len() == old(self).nodes@.len(),
            forall|i: int|
                0 <= i < final(self).nodes@.len() ==> #[trigger] final(self).nodes@[i].mem_total
                    == 0 && final(self).nodes@[i].mem_available == 0,
    {
        self.reset_basic_info();
        self.reset_numa_avaiable_mem();
    }
}

} // verus!
