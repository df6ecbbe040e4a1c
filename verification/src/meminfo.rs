//! System-wide memory readings from `/proc/meminfo`, `/proc/vmstat` and
//! the virtual-memory watermark file.

use vstd::prelude::*;

use crate::kvmap::KvMap;
use crate::psi::spec_map_get_or;
use crate::text::{
    parse_u64_str, spec_parse_u64, spec_split, spec_split_ws, split_str, split_ws_str,
};

verus! {

/// The table a `/proc/meminfo` file denotes: each line's first token with
/// its trailing colon removed, mapped to its numeric second token; lines
/// without both are skipped.
pub open spec fn spec_meminfo_upto(lines: Seq<Seq<char>>, n: int) -> Map<Seq<char>, u64>
    decreases n,
{
    if n <= 0 {
        Map::empty()
    } else {
        let m = spec_meminfo_upto(lines, n - 1);
        let toks = spec_split_ws(lines[n - 1]);
        if toks.len() >= 2 && toks[0].len() > 0 && spec_parse_u64(toks[1]) is Some {
            m.insert(toks[0].drop_last(), spec_parse_u64(toks[1]).unwrap())
        } else {
            m
        }
    }
}

pub open spec fn spec_meminfo_map(s: Seq<char>) -> Map<Seq<char>, u64> {
    let lines = spec_split(s, '\n');
    spec_meminfo_upto(lines, lines.len() as int)
}

/// Parse `/proc/meminfo`-style text: keys keep their name without the
/// trailing colon.
pub fn parse_meminfo(contents: &str) -> (r: KvMap<u64>)
    ensures
        r.wf(),
        r.map_view() == spec_meminfo_map(contents@),
{
    let lines = split_str(contents, '\n');
    let mut m: KvMap<u64> = KvMap::new();
    let n = lines.len();
    let mut i: usize = 0;
    while i < n
        invariant
            n == lines@.len(),
            i <= n,
            lines.deep_view() == spec_split(contents@, '\n'),
            m.wf(),
            m.map_view() == spec_meminfo_upto(lines.deep_view(), i as int),
        decreases n - i,
    {
        proof {
            assert(lines.deep_view()[i as int] == lines@[i as int]@);
        }
        let toks = split_ws_str(lines[i].as_str());
        if toks.len() >= 2 {
            proof {
                assert(toks.deep_view()[0] == toks@[0]@);
                assert(toks.deep_view()[1] == toks@[1]@);
            }
            let head = &toks[0];
            let hl = head.as_str().unicode_len();
            if hl > 0 {
                match parse_u64_str(toks[1].as_str()) {
                    Some(v) => {
                        let key = String::from_str(head.as_str().substring_char(0, hl - 1));
                        proof {
                            assert(head@.subrange(0, hl - 1) =~= head@.drop_last());
                        }
                        m.set(key, v);
                    },
                    None => {},
                }
            }
        }
        i = i + 1;
    }
    m
}

/// System memory figures, in the file's kilobyte units.
#[derive(Clone, Copy, Debug, PartialEq, Eq, Structural)]
pub struct MemoryInfo {
    pub mem_total: u64,
    pub mem_free: u64,
    pub mem_used: u64,
    pub mem_shm: u64,
    pub mem_available: u64,
    pub mem_buffers: u64,
    pub mem_page_cache: u64,
    pub mem_slab_reclaimable: u64,
    pub mem_dirty_page_cache: u64,
    pub mem_write_back_page_cache: u64,
    pub mem_swap_total: u64,
    pub mem_swap_free: u64,
    /// Used over total, in whole units (integer division).
    pub mem_util: u64,
    pub vm_watermark_scale_factor: u64,
    pub vmstat_pgsteal_kswapd: u64,
}

/// Memory not free and not reclaimable cache: total minus free, buffers,
/// page cache and reclaimable slab, and zero when those exceed the total.
pub open spec fn spec_used_memory(m: MemoryInfo) -> u64 {
    let taken = m.mem_free + m.mem_buffers + m.mem_page_cache + m.mem_slab_reclaimable;
    if m.mem_total >= taken {
        (m.mem_total - taken) as u64
    } else {
        0
    }
}

impl Default for MemoryInfo {
    fn default() -> (r: Self)
        ensures
            r == MemoryInfo::spec_new(),
    {
        MemoryInfo::new()
    }
}

impl MemoryInfo {
    pub open spec fn spec_new() -> MemoryInfo {
        MemoryInfo {
            mem_total: 0,
            mem_free: 0,
            mem_used: 0,
            mem_shm: 0,
            mem_available: 0,
            mem_buffers: 0,
            mem_page_cache: 0,
            mem_slab_reclaimable: 0,
            mem_dirty_page_cache: 0,
            mem_write_back_page_cache: 0,
            mem_swap_total: 0,
            mem_swap_free: 0,
            mem_util: 0,
            vm_watermark_scale_factor: 0,
            vmstat_pgsteal_kswapd: 0,
        }
    }

    pub fn new() -> (r: MemoryInfo)
        ensures
            r == MemoryInfo::spec_new(),
    {
        MemoryInfo {
            mem_total: 0,
            mem_free: 0,
            mem_used: 0,
            mem_shm: 0,
            mem_available: 0,
            mem_buffers: 0,
            mem_page_cache: 0,
            mem_slab_reclaimable: 0,
            mem_dirty_page_cache: 0,
            mem_write_back_page_cache: 0,
            mem_swap_total: 0,
            mem_swap_free: 0,
            mem_util: 0,
            vm_watermark_scale_factor: 0,
            vmstat_pgsteal_kswapd: 0,
        }
    }

    pub fn total_memory(&self) -> (r: u64)
        ensures
            r == self.mem_total,
    {
        self.mem_total
    }

    pub fn free_memory(&self) -> (r: u64)
        ensures
            r == self.mem_free,
    {
        self.mem_free
    }

    pub fn available_memory(&self) -> (r: u64)
        ensures
            r == self.mem_available,
    {
        self.mem_available
    }

    pub fn mem_buffers(&self) -> (r: u64)
        ensures
            r == self.mem_buffers,
    {
        self.mem_buffers
    }

    pub fn util(&self) -> (r: u64)
        ensures
            r == self.mem_util,
    {
        self.mem_util
    }

    /// Memory not free and not reclaimable cache.
    pub fn used_memory(&self) -> (r: u64)
        ensures
            r == spec_used_memory(*self),
    {
        let taken: u128 = (self.mem_free as u128) + (self.mem_buffers as u128) + (
        self.mem_page_cache as u128) + (self.mem_slab_reclaimable as u128);
        if (self.mem_total as u128) >= taken {
            ((self.mem_total as u128) - taken) as u64
        } else {
            0
        }
    }

    pub fn total_swap(&self) -> (r: u64)
        ensures
            r == self.mem_swap_total,
    {
        self.mem_swap_total
    }

    pub fn free_swap(&self) -> (r: u64)
        ensures
            r == self.mem_swap_free,
    {
        self.mem_swap_free
    }

    pub fn vm_watermark_scale_factor(&self) -> (r: u64)
        ensures
            r == self.vm_watermark_scale_factor,
    {
        self.vm_watermark_scale_factor
    }

    pub fn vmstat_pgsteal_kswapd(&self) -> (r: u64)
        ensures
            r == self.vmstat_pgsteal_kswapd,
    {
        self.vmstat_pgsteal_kswapd
    }

    /// Read one `/proc/meminfo` text: each figure takes the value the file
    /// gives (zero when missing), the used figure is derived, and the
    /// utilisation is used over total in whole units.
    pub fn refresh_mem_info(&mut self, contents: &str)
        ensures
            ({
                let m = spec_meminfo_map(contents@);
                let mid = MemoryInfo {
                    mem_total: spec_map_get_or(m, "MemTotal"@, 0),
                    mem_free: spec_map_get_or(m, "MemFree"@, 0),
                    mem_available: spec_map_get_or(m, "MemAvailable"@, 0),
                    mem_buffers: spec_map_get_or(m, "Buffers"@, 0),
                    mem_page_cache: spec_map_get_or(m, "Cached"@, 0),
                    mem_dirty_page_cache: spec_map_get_or(m, "Dirty"@, 0),
                    mem_write_back_page_cache: spec_map_get_or(m, "Writeback"@, 0),
                    mem_slab_reclaimable: spec_map_get_or(m, "SReclaimable"@, 0),
                    mem_swap_total: spec_map_get_or(m, "SwapTotal"@, 0),
                    mem_swap_free: spec_map_get_or(m, "SwapFree"@, 0),
                    mem_shm: spec_map_get_or(m, "Shmem"@, 0),
                    ..*old(self)
                };
                *final(self) == (MemoryInfo {
                    mem_used: spec_used_memory(mid),
                    mem_util: (if mid.mem_total != 0 {
                        (spec_used_memory(mid) / mid.mem_total) as u64
                    } else {
                        old(self).mem_util
                    }),
                    ..mid
                })
            }),
    {
        let m = parse_meminfo(contents);
        proof {
            reveal_strlit("MemTotal");
            reveal_strlit("MemFree");
            reveal_strlit("MemAvailable");
            reveal_strlit("Buffers");
            reveal_strlit("Cached");
            reveal_strlit("Dirty");
            reveal_strlit("Writeback");
            reveal_strlit("SReclaimable");
            reveal_strlit("SwapTotal");
            reveal_strlit("SwapFree");
            reveal_strlit("Shmem");
        }
        self.mem_total = crate::psi::get_or(&m, "MemTotal", 0);
        self.mem_free = crate::psi::get_or(&m, "MemFree", 0);
        self.mem_available = crate::psi::get_or(&m, "MemAvailable", 0);
        self.mem_buffers = crate::psi::get_or(&m, "Buffers", 0);
        self.mem_page_cache = crate::psi::get_or(&m, "Cached", 0);
        self.mem_dirty_page_cache = crate::psi::get_or(&m, "Dirty", 0);
        self.mem_write_back_page_cache = crate::psi::get_or(&m, "Writeback", 0);
        self.mem_slab_reclaimable = crate::psi::get_or(&m, "SReclaimable", 0);
        self.mem_swap_total = crate::psi::get_or(&m, "SwapTotal", 0);
        self.mem_swap_free = crate::psi::get_or(&m, "SwapFree", 0);
        self.mem_shm = crate::psi::get_or(&m, "Shmem", 0);
        self.mem_used = self.used_memory();
        if self.mem_total != 0 {
            self.mem_util = self.used_memory() / self.mem_total;
        }
    }

    /// Read one `/proc/vmstat` text: the kswapd page-steal counter, zero
    /// when missing.
    pub fn refresh_vm_stat(&mut self, contents: &str)
        ensures
            *final(self) == (MemoryInfo {
                vmstat_pgsteal_kswapd: spec_map_get_or(
                    crate::cgtext::spec_cgroup_file(contents@),
                    "pgsteal_kswapd"@,
                    0,
                ),
                ..*old(self)
            }),
    {
        let m = crate::cgtext::parse_cgroup_file(contents);
        proof {
            reveal_strlit("pgsteal_kswapd");
        }
        self.vmstat_pgsteal_kswapd = crate::psi::get_or(&m, "pgsteal_kswapd", 0);
    }

    /// Read one watermark line; a non-numeric line changes nothing.
    pub fn refresh_vm_watermark(&mut self, line: &str)
        ensures
            *final(self) == (match spec_parse_u64(line@) {
                Some(v) => MemoryInfo { vm_watermark_scale_factor: v, ..*old(self) },
                None => *old(self),
            }),
    {
        match parse_u64_str(line) {
            Some(v) => {
                self.vm_watermark_scale_factor = v;
            },
            None => {},
        }
    }

    pub fn reset(&mut self)
        ensures
            *final(self) == MemoryInfo::spec_new(),
    {
        *self = MemoryInfo::new();
    }
}

} // verus!
