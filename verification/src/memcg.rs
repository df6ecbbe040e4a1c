//! The memory cgroup in both layouts: the stat tables, limits, per-node
//! figures, local events and the backend's out-of-memory count.

use vstd::prelude::*;

use crate::cgtext::{
    parse_cgroup_file, parse_cgroup_reverse_nested_u64, parse_cgroup_numa_stat_file,
    parse_cgroup_value, spec_cgroup_file, spec_cgroup_value, spec_inner_wf_u64, spec_lift_u64,
    spec_numa_stat_file, spec_opt_text_value, spec_reverse_nested_file, spec_text_of,
};
use crate::text::spec_parse_u64;
use crate::cgtypes::CGroupType;
use crate::kvmap::KvMap;
use crate::psi::{get_or, spec_map_get_or, PressureStallInfo};
use crate::text::{join2, join3};

verus! {

/// The v2 `memory.stat` counters, absent fields read as zero.
#[derive(Clone, Copy, Debug, PartialEq, Eq, Structural, Default)]
pub struct MemStatsV2 {
    pub anon: u64,
    pub file: u64,
    pub kernel_stack: u64,
    pub sock: u64,
    pub shmem: u64,
    pub file_mapped: u64,
    pub file_dirty: u64,
    pub file_writeback: u64,
    pub anon_thp: u64,
    pub inactive_anon: u64,
    pub active_anon: u64,
    pub inactive_file: u64,
    pub active_file: u64,
    pub unevictable: u64,
    pub slab_reclaimable: u64,
    pub slab_unreclaimable: u64,
    pub slab: u64,
    pub bgd_reclaim: u64,
    pub workingset_refault: u64,
    pub workingset_activate: u64,
    pub workingset_nodereclaim: u64,
    pub pgfault: u64,
    pub pgmajfault: u64,
    pub pgrefill: u64,
    pub pgscan: u64,
    pub pgsteal: u64,
    pub pgactivate: u64,
    pub pgdeactivate: u64,
    pub pglazyfree: u64,
    pub pglazyfreed: u64,
    pub thp_fault_alloc: u64,
    pub thp_collapse_alloc: u64,
}

/// The counters one parsed `memory.stat` table denotes.
pub open spec fn spec_mem_stats_v2_of(m: Map<Seq<char>, u64>) -> MemStatsV2 {
    MemStatsV2 {
        anon: spec_map_get_or(m, "anon"@, 0),
        file: spec_map_get_or(m, "file"@, 0),
        kernel_stack: spec_map_get_or(m, "kernel_stack"@, 0),
        sock: spec_map_get_or(m, "sock"@, 0),
        shmem: spec_map_get_or(m, "shmem"@, 0),
        file_mapped: spec_map_get_or(m, "file_mapped"@, 0),
        file_dirty: spec_map_get_or(m, "file_dirty"@, 0),
        file_writeback: spec_map_get_or(m, "file_writeback"@, 0),
        anon_thp: spec_map_get_or(m, "anon_thp"@, 0),
        inactive_anon: spec_map_get_or(m, "inactive_anon"@, 0),
        active_anon: spec_map_get_or(m, "active_anon"@, 0),
        inactive_file: spec_map_get_or(m, "inactive_file"@, 0),
        active_file: spec_map_get_or(m, "active_file"@, 0),
        unevictable: spec_map_get_or(m, "unevictable"@, 0),
        slab_reclaimable: spec_map_get_or(m, "slab_reclaimable"@, 0),
        slab_unreclaimable: spec_map_get_or(m, "slab_unreclaimable"@, 0),
        slab: spec_map_get_or(m, "slab"@, 0),
        bgd_reclaim: spec_map_get_or(m, "bgd_reclaim"@, 0),
        workingset_refault: spec_map_get_or(m, "workingset_refault"@, 0),
        workingset_activate: spec_map_get_or(m, "workingset_activate"@, 0),
        workingset_nodereclaim: spec_map_get_or(m, "workingset_nodereclaim"@, 0),
        pgfault: spec_map_get_or(m, "pgfault"@, 0),
        pgmajfault: spec_map_get_or(m, "pgmajfault"@, 0),
        pgrefill: spec_map_get_or(m, "pgrefill"@, 0),
        pgscan: spec_map_get_or(m, "pgscan"@, 0),
        pgsteal: spec_map_get_or(m, "pgsteal"@, 0),
        pgactivate: spec_map_get_or(m, "pgactivate"@, 0),
        pgdeactivate: spec_map_get_or(m, "pgdeactivate"@, 0),
        pglazyfree: spec_map_get_or(m, "pglazyfree"@, 0),
        pglazyfreed: spec_map_get_or(m, "pglazyfreed"@, 0),
        thp_fault_alloc: spec_map_get_or(m, "thp_fault_alloc"@, 0),
        thp_collapse_alloc: spec_map_get_or(m, "thp_collapse_alloc"@, 0),
    }
}

/// One node's figures in a v2 `memory.numa_stat`, absent fields read as
/// zero.
#[derive(Clone, Copy, Debug, PartialEq, Eq, Structural, Default)]
pub struct MemNumaStatsV2 {
    pub anon: u64,
    pub file: u64,
    pub kernel_stack: u64,
    pub shmem: u64,
    pub file_mapped: u64,
    pub file_dirty: u64,
    pub file_writeback: u64,
    pub anon_thp: u64,
    pub inactive_anon: u64,
    pub active_anon: u64,
    pub inactive_file: u64,
    pub active_file: u64,
    pub unevictable: u64,
    pub slab_reclaimable: u64,
    pub slab_unreclaimable: u64,
    pub workingset_refault: u64,
    pub workingset_activate: u64,
    pub workingset_nodereclaim: u64,
}

/// The figures one parsed per-node table denotes.
pub open spec fn spec_mem_numa_v2_of(m: Map<Seq<char>, u64>) -> MemNumaStatsV2 {
    MemNumaStatsV2 {
        anon: spec_map_get_or(m, "anon"@, 0),
        file: spec_map_get_or(m, "file"@, 0),
        kernel_stack: spec_map_get_or(m, "kernel_stack"@, 0),
        shmem: spec_map_get_or(m, "shmem"@, 0),
        file_mapped: spec_map_get_or(m, "file_mapped"@, 0),
        file_dirty: spec_map_get_or(m, "file_dirty"@, 0),
        file_writeback: spec_map_get_or(m, "file_writeback"@, 0),
        anon_thp: spec_map_get_or(m, "anon_thp"@, 0),
        inactive_anon: spec_map_get_or(m, "inactive_anon"@, 0),
        active_anon: spec_map_get_or(m, "active_anon"@, 0),
        inactive_file: spec_map_get_or(m, "inactive_file"@, 0),
        active_file: spec_map_get_or(m, "active_file"@, 0),
        unevictable: spec_map_get_or(m, "unevictable"@, 0),
        slab_reclaimable: spec_map_get_or(m, "slab_reclaimable"@, 0),
        slab_unreclaimable: spec_map_get_or(m, "slab_unreclaimable"@, 0),
        workingset_refault: spec_map_get_or(m, "workingset_refault"@, 0),
        workingset_activate: spec_map_get_or(m, "workingset_activate"@, 0),
        workingset_nodereclaim: spec_map_get_or(m, "workingset_nodereclaim"@, 0),
    }
}

/// The per-node records a parsed v2 `memory.numa_stat` denotes: one per
/// node with a non-empty name.
pub open spec fn spec_mem_numa_tables(m: Map<Seq<char>, Map<Seq<char>, u64>>) -> Map<
    Seq<char>,
    MemNumaStatsV2,
> {
    Map::new(
        |k: Seq<char>| m.contains_key(k) && k.len() > 0,
        |k: Seq<char>| spec_mem_numa_v2_of(m[k]),
    )
}

/// The v2 `memory.events.local` counters; the record is replaced only when
/// every field is present.
#[derive(Clone, Copy, Debug, PartialEq, Eq, Structural, Default)]
pub struct MemEventLocalV2 {
    pub low: u64,
    pub high: u64,
    pub max: u64,
    pub oom: u64,
    pub oom_kill: u64,
}

/// Whether a parsed `memory.events.local` table carries every field.
pub open spec fn spec_mem_events_complete(m: Map<Seq<char>, u64>) -> bool {
    m.contains_key("low"@) && m.contains_key("high"@) && m.contains_key("max"@)
        && m.contains_key("oom"@) && m.contains_key("oom_kill"@)
}

pub open spec fn spec_mem_events_of(m: Map<Seq<char>, u64>) -> MemEventLocalV2 {
    MemEventLocalV2 {
        low: spec_map_get_or(m, "low"@, 0),
        high: spec_map_get_or(m, "high"@, 0),
        max: spec_map_get_or(m, "max"@, 0),
        oom: spec_map_get_or(m, "oom"@, 0),
        oom_kill: spec_map_get_or(m, "oom_kill"@, 0),
    }
}

fn mem_numa_v2_of(table: &KvMap<u64>) -> (r: MemNumaStatsV2)
    requires
        table.wf(),
    ensures
        r == spec_mem_numa_v2_of(table.map_view()),
{
    proof {
        reveal_strlit("anon");
        reveal_strlit("file");
        reveal_strlit("kernel_stack");
        reveal_strlit("shmem");
        reveal_strlit("file_mapped");
        reveal_strlit("file_dirty");
        reveal_strlit("file_writeback");
        reveal_strlit("anon_thp");
        reveal_strlit("inactive_anon");
        reveal_strlit("active_anon");
        reveal_strlit("inactive_file");
        reveal_strlit("active_file");
        reveal_strlit("unevictable");
        reveal_strlit("slab_reclaimable");
        reveal_strlit("slab_unreclaimable");
        reveal_strlit("workingset_refault");
        reveal_strlit("workingset_activate");
        reveal_strlit("workingset_nodereclaim");
    }
    MemNumaStatsV2 {
        anon: get_or(table, "anon", 0),
        file: get_or(table, "file", 0),
        kernel_stack: get_or(table, "kernel_stack", 0),
        shmem: get_or(table, "shmem", 0),
        file_mapped: get_or(table, "file_mapped", 0),
        file_dirty: get_or(table, "file_dirty", 0),
        file_writeback: get_or(table, "file_writeback", 0),
        anon_thp: get_or(table, "anon_thp", 0),
        inactive_anon: get_or(table, "inactive_anon", 0),
        active_anon: get_or(table, "active_anon", 0),
        inactive_file: get_or(table, "inactive_file", 0),
        active_file: get_or(table, "active_file", 0),
        unevictable: get_or(table, "unevictable", 0),
        slab_reclaimable: get_or(table, "slab_reclaimable", 0),
        slab_unreclaimable: get_or(table, "slab_unreclaimable", 0),
        workingset_refault: get_or(table, "workingset_refault", 0),
        workingset_activate: get_or(table, "workingset_activate", 0),
        workingset_nodereclaim: get_or(table, "workingset_nodereclaim", 0),
    }
}

/// Convert each non-empty-named node table into its record.
fn mem_numa_tables_of(parsed: &KvMap<KvMap<u64>>) -> (r: KvMap<MemNumaStatsV2>)
    requires
        parsed.wf(),
        spec_inner_wf_u64(parsed.map_view()),
    ensures
        r.wf(),
        r.map_view() == spec_mem_numa_tables(spec_lift_u64(parsed.map_view())),
{
    let n = parsed.len();
    let mut out: KvMap<MemNumaStatsV2> = KvMap::new();
    let ghost lift = spec_lift_u64(parsed.map_view());
    let mut i: usize = 0;
    while i < n
        invariant
            parsed.wf(),
            spec_inner_wf_u64(parsed.map_view()),
            lift == spec_lift_u64(parsed.map_view()),
            n == parsed.spec_len(),
            i <= n,
            out.wf(),
            forall|q: Seq<char>|
                #[trigger] out.map_view().contains_key(q) <==> exists|j: int|
                    0 <= j < i && parsed.key_view_at(j) == q && q.len() > 0,
            forall|q: Seq<char>|
                #[trigger] out.map_view().contains_key(q) ==> lift.contains_key(q)
                    && out.map_view()[q] == spec_mem_numa_v2_of(lift[q]),
        decreases n - i,
    {
        proof {
            parsed.lemma_positions();
        }
        let key = parsed.key_at(i);
        let kl = key.as_str().unicode_len();
        let ghost kq = parsed.key_view_at(i as int);
        if kl > 0 {
            let key_owned = key.clone();
            let conv = mem_numa_v2_of(parsed.val_at(i));
            let ghost before = out.map_view();
            out.set(key_owned, conv);
            proof {
                assert(lift[kq] == parsed.map_view()[kq].map_view());
                assert(conv == spec_mem_numa_v2_of(lift[kq]));
                assert forall|q: Seq<char>| #[trigger] out.map_view().contains_key(q)
                    <==> exists|j: int|
                    0 <= j < i + 1 && parsed.key_view_at(j) == q && q.len() > 0 by {
                    if out.map_view().contains_key(q) {
                        if q == kq {
                            assert(parsed.key_view_at(i as int) == q && q.len() > 0);
                        } else {
                            assert(before.contains_key(q));
                        }
                    }
                }
            }
        } else {
            proof {
                assert forall|q: Seq<char>| #[trigger] out.map_view().contains_key(q)
                    <==> exists|j: int|
                    0 <= j < i + 1 && parsed.key_view_at(j) == q && q.len() > 0 by {
                    if !out.map_view().contains_key(q) {
                        if exists|j: int|
                            0 <= j < i + 1 && parsed.key_view_at(j) == q && q.len() > 0 {
                            let j = choose|j: int|
                                0 <= j < i + 1 && parsed.key_view_at(j) == q && q.len() > 0;
                            assert(j < i);
                        }
                    }
                }
            }
        }
        i = i + 1;
    }
    proof {
        parsed.lemma_positions();
        assert forall|q: Seq<char>| #[trigger] out.map_view().contains_key(q) == (
        lift.contains_key(q) && q.len() > 0) by {
            if lift.contains_key(q) && q.len() > 0 {
                let j = choose|j: int| 0 <= j < parsed.spec_len() && parsed.key_view_at(j) == q;
                assert(out.map_view().contains_key(q));
            }
        }
        assert(out.map_view() =~= spec_mem_numa_tables(lift));
    }
    out
}

/// What one full v2 poll does, field by field: `memory.stat` replaces the
/// counters, `memory.numa_stat` merges the per-node records, the seven
/// single-value limit files replace their fields (unset when unreadable),
/// `memory.events.local` is taken only complete, the pressure record is
/// read, and the identity, out-of-memory count and sample time are kept.
pub open spec fn spec_mem_v2_updated(
    pre: MemoryCGroupV2,
    post: MemoryCGroupV2,
    memory_stat: Option<Seq<char>>,
    numa_stat: Option<Seq<char>>,
    max_line: Option<Seq<char>>,
    high_line: Option<Seq<char>>,
    low_line: Option<Seq<char>>,
    min_line: Option<Seq<char>>,
    swap_max_line: Option<Seq<char>>,
    watermark_line: Option<Seq<char>>,
    current_line: Option<Seq<char>>,
    events_local: Option<Seq<char>>,
    pressure: Option<Seq<char>>,
) -> bool {
    &&& post.full_path@ == pre.full_path@
    &&& post.user_path@ == pre.user_path@
    &&& match memory_stat {
        Some(c) => post.mem_stats == spec_mem_stats_v2_of(spec_cgroup_file(c)),
        None => post.mem_stats == pre.mem_stats,
    }
    &&& match numa_stat {
        Some(c) => post.mem_numa_stats.map_view() == pre.mem_numa_stats.map_view()
            .union_prefer_right(spec_mem_numa_tables(spec_reverse_nested_file(c))),
        None => post.mem_numa_stats == pre.mem_numa_stats,
    }
    &&& post.max == spec_opt_text_value(max_line)
    &&& post.high == spec_opt_text_value(high_line)
    &&& post.low == spec_opt_text_value(low_line)
    &&& post.min == spec_opt_text_value(min_line)
    &&& post.swap_max == spec_opt_text_value(swap_max_line)
    &&& post.watermark_scale_factor == spec_opt_text_value(watermark_line)
    &&& post.memory_usage_in_bytes == spec_opt_text_value(current_line)
    &&& match events_local {
        Some(c) => post.mem_local_events == (if spec_mem_events_complete(spec_cgroup_file(c)) {
            spec_mem_events_of(spec_cgroup_file(c))
        } else {
            pre.mem_local_events
        }),
        None => post.mem_local_events == pre.mem_local_events,
    }
    &&& match pressure {
        Some(c) => post.mem_pressure == PressureStallInfo::spec_from_text(c),
        None => post.mem_pressure == pre.mem_pressure,
    }
    &&& post.oom_cnt == pre.oom_cnt
    &&& post.update_time == pre.update_time
}

/// A v2 record administratively reset: everything back at the just-created
/// defaults, the identity kept.
pub open spec fn spec_mem_v2_reset(pre: MemoryCGroupV2, post: MemoryCGroupV2) -> bool {
    &&& post.full_path@ == pre.full_path@
    &&& post.user_path@ == pre.user_path@
    &&& post.mem_stats == MemStatsV2::spec_zero()
    &&& post.mem_numa_stats.map_view() == Map::<Seq<char>, MemNumaStatsV2>::empty()
    &&& post.mem_pressure == PressureStallInfo::spec_new()
    &&& post.mem_local_events == MemEventLocalV2::spec_zero()
    &&& post.memory_usage_in_bytes is None
    &&& post.max is None
    &&& post.high is None
    &&& post.low is None
    &&& post.min is None
    &&& post.swap_max is None
    &&& post.watermark_scale_factor is None
    &&& post.oom_cnt is None
    &&& post.update_time == 0
}

/// The v2 memory cgroup.
#[derive(Clone, Debug)]
pub struct MemoryCGroupV2 {
    pub full_path: String,
    pub user_path: String,
    pub mem_stats: MemStatsV2,
    pub mem_numa_stats: KvMap<MemNumaStatsV2>,
    pub mem_pressure: PressureStallInfo,
    pub mem_local_events: MemEventLocalV2,
    pub memory_usage_in_bytes: Option<u64>,
    pub max: Option<u64>,
    pub high: Option<u64>,
    pub low: Option<u64>,
    pub min: Option<u64>,
    pub swap_max: Option<u64>,
    pub watermark_scale_factor: Option<u64>,
    pub oom_cnt: Option<u64>,
    pub update_time: u64,
}

impl MemoryCGroupV2 {
    pub open spec fn wf(&self) -> bool {
        self.mem_numa_stats.wf()
    }

    pub fn new(full_path: String, user_path: String) -> (r: MemoryCGroupV2)
        ensures
            r.wf(),
            r.full_path@ == full_path@,
            r.user_path@ == user_path@,
            r.mem_stats == MemStatsV2::spec_zero(),
            r.mem_numa_stats.map_view() == Map::<Seq<char>, MemNumaStatsV2>::empty(),
            r.mem_pressure == PressureStallInfo::spec_new(),
            r.mem_local_events == MemEventLocalV2::spec_zero(),
            r.memory_usage_in_bytes is None && r.max is None && r.high is None && r.low is None
                && r.min is None && r.swap_max is None && r.watermark_scale_factor is None
                && r.oom_cnt is None,
            r.update_time == 0,
    {
        MemoryCGroupV2 {
            full_path,
            user_path,
            mem_stats: MemStatsV2::zero(),
            mem_numa_stats: KvMap::new(),
            mem_pressure: PressureStallInfo::new(),
            mem_local_events: MemEventLocalV2 { low: 0, high: 0, max: 0, oom: 0, oom_kill: 0 },
            memory_usage_in_bytes: None,
            max: None,
            high: None,
            low: None,
            min: None,
            swap_max: None,
            watermark_scale_factor: None,
            oom_cnt: None,
            update_time: 0,
        }
    }

    pub fn full_path(&self) -> (r: &str)
        ensures
            r@ == self.full_path@,
    {
        self.full_path.as_str()
    }

    pub fn user_path(&self) -> (r: &str)
        ensures
            r@ == self.user_path@,
    {
        self.user_path.as_str()
    }

    /// Take one backend out-of-memory count.
    pub fn update_oom_cnt(&mut self, mem_oom_cnt: u64)
        ensures
            *final(self) == (MemoryCGroupV2 { oom_cnt: Some(mem_oom_cnt), ..*old(self) }),
    {
        self.oom_cnt = Some(mem_oom_cnt);
    }

    /// Read one `memory.stat` text.
    pub fn update_memory_stat(&mut self, contents: &str)
        ensures
            *final(self) == (MemoryCGroupV2 {
                mem_stats: spec_mem_stats_v2_of(spec_cgroup_file(contents@)),
                ..*old(self)
            }),
    {
        let m = parse_cgroup_file(contents);
        self.mem_stats = mem_stats_v2_of(&m);
    }

    /// Merge one v2 `memory.numa_stat` text into the per-node records;
    /// nodes not in the text keep their previous record.
    pub fn update_memory_numa_stat(&mut self, contents: &str)
        requires
            old(self).wf(),
        ensures
            final(self).wf(),
            final(self).mem_numa_stats.map_view() == old(
                self,
            ).mem_numa_stats.map_view().union_prefer_right(
                spec_mem_numa_tables(spec_reverse_nested_file(contents@)),
            ),
            *final(self) == (MemoryCGroupV2 {
                mem_numa_stats: final(self).mem_numa_stats,
                ..*old(self)
            }),
    {
        let parsed = parse_cgroup_reverse_nested_u64(contents);
        let tables = mem_numa_tables_of(&parsed);
        self.mem_numa_stats.merge_from(tables);
    }

    /// Read one `memory.pressure` text.
    pub fn update_memory_pressure(&mut self, contents: &str)
        ensures
            *final(self) == (MemoryCGroupV2 {
                mem_pressure: PressureStallInfo::spec_from_text(contents@),
                ..*old(self)
            }),
    {
        self.mem_pressure = PressureStallInfo::from(contents);
    }

    /// Read the seven single-value limit files; an unreadable file leaves
    /// its field unset.
    pub fn update_memory_distribution_setting(
        &mut self,
        max_line: Option<&str>,
        high_line: Option<&str>,
        low_line: Option<&str>,
        min_line: Option<&str>,
        swap_max_line: Option<&str>,
        watermark_line: Option<&str>,
        current_line: Option<&str>,
    )
        ensures
            *final(self) == (MemoryCGroupV2 {
                max: spec_opt_value(max_line),
                high: spec_opt_value(high_line),
                low: spec_opt_value(low_line),
                min: spec_opt_value(min_line),
                swap_max: spec_opt_value(swap_max_line),
                watermark_scale_factor: spec_opt_value(watermark_line),
                memory_usage_in_bytes: spec_opt_value(current_line),
                ..*old(self)
            }),
    {
        self.max = opt_value(max_line);
        self.high = opt_value(high_line);
        self.low = opt_value(low_line);
        self.min = opt_value(min_line);
        self.swap_max = opt_value(swap_max_line);
        self.watermark_scale_factor = opt_value(watermark_line);
        self.memory_usage_in_bytes = opt_value(current_line);
    }

    /// Read one `memory.events.local` text: the record is replaced only
    /// when the text carries every field.
    pub fn update_memory_local_event(&mut self, contents: &str)
        ensures
            *final(self) == (if spec_mem_events_complete(spec_cgroup_file(contents@)) {
                MemoryCGroupV2 {
                    mem_local_events: spec_mem_events_of(spec_cgroup_file(contents@)),
                    ..*old(self)
                }
            } else {
                *old(self)
            }),
    {
        let m = parse_cgroup_file(contents);
        proof {
            reveal_strlit("low");
            reveal_strlit("high");
            reveal_strlit("max");
            reveal_strlit("oom");
            reveal_strlit("oom_kill");
        }
        let all = match (m.get("low"), m.get("high"), m.get("max"), m.get("oom"), m.get(
            "oom_kill",
        )) {
            (Some(_), Some(_), Some(_), Some(_), Some(_)) => true,
            _ => false,
        };
        if all {
            self.mem_local_events = MemEventLocalV2 {
                low: get_or(&m, "low", 0),
                high: get_or(&m, "high", 0),
                max: get_or(&m, "max", 0),
                oom: get_or(&m, "oom", 0),
                oom_kill: get_or(&m, "oom_kill", 0),
            };
        }
    }

    /// One full poll: each file that could be read feeds its fields; see
    /// `spec_mem_v2_updated` for the field-by-field account.
    pub fn update(
        &mut self,
        memory_stat: Option<&str>,
        numa_stat: Option<&str>,
        max_line: Option<&str>,
        high_line: Option<&str>,
        low_line: Option<&str>,
        min_line: Option<&str>,
        swap_max_line: Option<&str>,
        watermark_line: Option<&str>,
        current_line: Option<&str>,
        events_local: Option<&str>,
        pressure: Option<&str>,
    )
        requires
            old(self).wf(),
        ensures
            final(self).wf(),
            spec_mem_v2_updated(
                *old(self),
                *final(self),
                spec_text_of(memory_stat),
                spec_text_of(numa_stat),
                spec_text_of(max_line),
                spec_text_of(high_line),
                spec_text_of(low_line),
                spec_text_of(min_line),
                spec_text_of(swap_max_line),
                spec_text_of(watermark_line),
                spec_text_of(current_line),
                spec_text_of(events_local),
                spec_text_of(pressure),
            ),
    {
        match memory_stat {
            Some(c) => self.update_memory_stat(c),
            None => {},
        }
        match numa_stat {
            Some(c) => self.update_memory_numa_stat(c),
            None => {},
        }
        self.update_memory_distribution_setting(
            max_line,
            high_line,
            low_line,
            min_line,
            swap_max_line,
            watermark_line,
            current_line,
        );
        match events_local {
            Some(c) => self.update_memory_local_event(c),
            None => {},
        }
        match pressure {
            Some(c) => self.update_memory_pressure(c),
            None => {},
        }
    }

    /// The fast-path poll: the out-of-memory count, stamped with its time.
    pub fn update_ebpf(&mut self, mem_oom_cnt: u64, now: u64)
        ensures
            *final(self) == (MemoryCGroupV2 {
                oom_cnt: Some(mem_oom_cnt),
                update_time: now,
                ..*old(self)
            }),
    {
        self.update_oom_cnt(mem_oom_cnt);
        self.update_time = now;
    }

    /// Administrative reset: back to the just-created state, keeping the
    /// identity; see `spec_mem_v2_reset`.
    pub fn reset(&mut self)
        ensures
            final(self).wf(),
            spec_mem_v2_reset(*old(self), *final(self)),
    {
        let full_path = self.full_path.clone();
        let user_path = self.user_path.clone();
        *self = MemoryCGroupV2::new(full_path, user_path);
    }
}

/// The value a single-value file gives, when the file could be read.
pub open spec fn spec_opt_value(line: Option<&str>) -> Option<u64> {
    match line {
        Some(l) => spec_cgroup_value(l@),
        None => None,
    }
}

fn opt_value(line: Option<&str>) -> (r: Option<u64>)
    ensures
        r == spec_opt_value(line),
{
    match line {
        Some(l) => parse_cgroup_value(l),
        None => None,
    }
}

fn mem_stats_v2_of(m: &KvMap<u64>) -> (r: MemStatsV2)
    requires
        m.wf(),
    ensures
        r == spec_mem_stats_v2_of(m.map_view()),
{
    proof {
        reveal_strlit("anon");
        reveal_strlit("file");
        reveal_strlit("kernel_stack");
        reveal_strlit("sock");
        reveal_strlit("shmem");
        reveal_strlit("file_mapped");
        reveal_strlit("file_dirty");
        reveal_strlit("file_writeback");
        reveal_strlit("anon_thp");
        reveal_strlit("inactive_anon");
        reveal_strlit("active_anon");
        reveal_strlit("inactive_file");
        reveal_strlit("active_file");
        reveal_strlit("unevictable");
        reveal_strlit("slab_reclaimable");
        reveal_strlit("slab_unreclaimable");
        reveal_strlit("slab");
        reveal_strlit("bgd_reclaim");
        reveal_strlit("workingset_refault");
        reveal_strlit("workingset_activate");
        reveal_strlit("workingset_nodereclaim");
        reveal_strlit("pgfault");
        reveal_strlit("pgmajfault");
        reveal_strlit("pgrefill");
        reveal_strlit("pgscan");
        reveal_strlit("pgsteal");
        reveal_strlit("pgactivate");
        reveal_strlit("pgdeactivate");
        reveal_strlit("pglazyfree");
        reveal_strlit("pglazyfreed");
        reveal_strlit("thp_fault_alloc");
        reveal_strlit("thp_collapse_alloc");
    }
    MemStatsV2 {
        anon: get_or(m, "anon", 0),
        file: get_or(m, "file", 0),
        kernel_stack: get_or(m, "kernel_stack", 0),
        sock: get_or(m, "sock", 0),
        shmem: get_or(m, "shmem", 0),
        file_mapped: get_or(m, "file_mapped", 0),
        file_dirty: get_or(m, "file_dirty", 0),
        file_writeback: get_or(m, "file_writeback", 0),
        anon_thp: get_or(m, "anon_thp", 0),
        inactive_anon: get_or(m, "inactive_anon", 0),
        active_anon: get_or(m, "active_anon", 0),
        inactive_file: get_or(m, "inactive_file", 0),
        active_file: get_or(m, "active_file", 0),
        unevictable: get_or(m, "unevictable", 0),
        slab_reclaimable: get_or(m, "slab_reclaimable", 0),
        slab_unreclaimable: get_or(m, "slab_unreclaimable", 0),
        slab: get_or(m, "slab", 0),
        bgd_reclaim: get_or(m, "bgd_reclaim", 0),
        workingset_refault: get_or(m, "workingset_refault", 0),
        workingset_activate: get_or(m, "workingset_activate", 0),
        workingset_nodereclaim: get_or(m, "workingset_nodereclaim", 0),
        pgfault: get_or(m, "pgfault", 0),
        pgmajfault: get_or(m, "pgmajfault", 0),
        pgrefill: get_or(m, "pgrefill", 0),
        pgscan: get_or(m, "pgscan", 0),
        pgsteal: get_or(m, "pgsteal", 0),
        pgactivate: get_or(m, "pgactivate", 0),
        pgdeactivate: get_or(m, "pgdeactivate", 0),
        pglazyfree: get_or(m, "pglazyfree", 0),
        pglazyfreed: get_or(m, "pglazyfreed", 0),
        thp_fault_alloc: get_or(m, "thp_fault_alloc", 0),
        thp_collapse_alloc: get_or(m, "thp_collapse_alloc", 0),
    }
}

impl MemStatsV2 {
    pub open spec fn spec_zero() -> MemStatsV2 {
        spec_mem_stats_v2_of(Map::empty())
    }

    pub fn zero() -> (r: MemStatsV2)
        ensures
            r == MemStatsV2::spec_zero(),
    {
        let m: KvMap<u64> = KvMap::new();
        mem_stats_v2_of(&m)
    }
}

impl MemEventLocalV2 {
    pub open spec fn spec_zero() -> MemEventLocalV2 {
        MemEventLocalV2 { low: 0, high: 0, max: 0, oom: 0, oom_kill: 0 }
    }
}

/// One node's row of a v1 `memory.numa_stat`, absent columns unset.
#[derive(Clone, Debug)]
pub struct MemoryCGroupNumaStat {
    pub numa_name: String,
    pub total: Option<u64>,
    pub file: Option<u64>,
    pub anon: Option<u64>,
    pub unevictable: Option<u64>,
    pub hierarchical_total: Option<u64>,
    pub hierarchical_file: Option<u64>,
    pub hierarchical_anon: Option<u64>,
    pub hierarchical_unevictable: Option<u64>,
}

/// What one node's parsed table denotes, besides its name.
pub open spec fn spec_numa_row_matches(
    r: MemoryCGroupNumaStat,
    name: Seq<char>,
    m: Map<Seq<char>, u64>,
) -> bool {
    &&& r.numa_name@ == name
    &&& r.total == spec_opt_get(m, "total"@)
    &&& r.file == spec_opt_get(m, "file"@)
    &&& r.anon == spec_opt_get(m, "anon"@)
    &&& r.unevictable == spec_opt_get(m, "unevictable"@)
    &&& r.hierarchical_total == spec_opt_get(m, "hierarchical_total"@)
    &&& r.hierarchical_file == spec_opt_get(m, "hierarchical_file"@)
    &&& r.hierarchical_anon == spec_opt_get(m, "hierarchical_anon"@)
    &&& r.hierarchical_unevictable == spec_opt_get(m, "hierarchical_unevictable"@)
}

pub open spec fn spec_opt_get(m: Map<Seq<char>, u64>, k: Seq<char>) -> Option<u64> {
    if m.contains_key(k) {
        Some(m[k])
    } else {
        None
    }
}

fn opt_get(m: &KvMap<u64>, k: &str) -> (r: Option<u64>)
    requires
        m.wf(),
    ensures
        r == spec_opt_get(m.map_view(), k@),
{
    match m.get(k) {
        Some(v) => Some(*v),
        None => None,
    }
}

/// Whether the per-node rows are exactly what a parsed v1
/// `memory.numa_stat` denotes: each row matches its node's table, and
/// every parsed node has a row.
pub open spec fn spec_numa_rows_match(
    rows: Seq<MemoryCGroupNumaStat>,
    m: Map<Seq<char>, Map<Seq<char>, u64>>,
) -> bool {
    &&& forall|i: int|
        0 <= i < rows.len() ==> #[trigger] m.contains_key(rows[i].numa_name@)
            && spec_numa_row_matches(rows[i], rows[i].numa_name@, m[rows[i].numa_name@])
    &&& forall|k: Seq<char>|
        #[trigger] m.contains_key(k) ==> exists|i: int|
            0 <= i < rows.len() && rows[i].numa_name@ == k
}

/// What one single-value line does to an optional field: the parsed value
/// when the line was read and parses, the previous value otherwise.
pub open spec fn spec_line_opt_field(
    pre: Option<u64>,
    line: Option<Seq<char>>,
) -> Option<u64> {
    match line {
        Some(l) => (match spec_parse_u64(l) {
            Some(v) => Some(v),
            None => pre,
        }),
        None => pre,
    }
}

/// What one full v1 poll does, field by field: the limit, kernel-usage,
/// usage and watermark lines replace their fields when they parse, the
/// `memory.stat` counters take the file's values (unset when missing), the
/// per-node rows are rebuilt from `memory.numa_stat`, and the identity,
/// out-of-memory count and sample time are kept.
pub open spec fn spec_mem_v1_updated(
    pre: MemoryCGroupV1,
    post: MemoryCGroupV1,
    limit_line: Option<Seq<char>>,
    memory_stat: Option<Seq<char>>,
    kmem_line: Option<Seq<char>>,
    usage_line: Option<Seq<char>>,
    watermark_line: Option<Seq<char>>,
    numa_stat: Option<Seq<char>>,
) -> bool {
    &&& post.full_path@ == pre.full_path@
    &&& post.user_path@ == pre.user_path@
    &&& post.memory_limit_in_bytes == spec_line_opt_field(pre.memory_limit_in_bytes, limit_line)
    &&& post.kern_memory_usage_in_bytes == spec_line_opt_field(
        pre.kern_memory_usage_in_bytes,
        kmem_line,
    )
    &&& post.memory_usage_in_bytes == spec_line_opt_field(pre.memory_usage_in_bytes, usage_line)
    &&& post.watermark_scale_factor == spec_line_opt_field(
        pre.watermark_scale_factor,
        watermark_line,
    )
    &&& match memory_stat {
        Some(c) => {
            let m = spec_cgroup_file(c);
            &&& post.cache == spec_opt_get(m, "cache"@)
            &&& post.rss == spec_opt_get(m, "rss"@)
            &&& post.shmem == spec_opt_get(m, "shmem"@)
            &&& post.dirty == spec_opt_get(m, "dirty"@)
            &&& post.kswapd_steal == spec_opt_get(m, "kswapd_steal"@)
            &&& post.writeback == spec_opt_get(m, "writeback"@)
            &&& post.pgfault == spec_opt_get(m, "pgfault"@)
            &&& post.pgmajfault == spec_opt_get(m, "pgmajfault"@)
            &&& post.allocstall == spec_opt_get(m, "allocstall"@)
            &&& post.total_cache == spec_opt_get(m, "total_cache"@)
            &&& post.total_rss == spec_opt_get(m, "total_rss"@)
            &&& post.total_shmem == spec_opt_get(m, "total_shmem"@)
            &&& post.total_dirty == spec_opt_get(m, "total_dirty"@)
            &&& post.total_kswapd_steal == spec_opt_get(m, "total_kswapd_steal"@)
            &&& post.total_writeback == spec_opt_get(m, "total_writeback"@)
            &&& post.total_pgfault == spec_opt_get(m, "total_pgfault"@)
            &&& post.total_pgmajfault == spec_opt_get(m, "total_pgmajfault"@)
            &&& post.total_allocstall == spec_opt_get(m, "total_allocstall"@)
        },
        None => {
            &&& post.cache == pre.cache
            &&& post.rss == pre.rss
            &&& post.shmem == pre.shmem
            &&& post.dirty == pre.dirty
            &&& post.kswapd_steal == pre.kswapd_steal
            &&& post.writeback == pre.writeback
            &&& post.pgfault == pre.pgfault
            &&& post.pgmajfault == pre.pgmajfault
            &&& post.allocstall == pre.allocstall
            &&& post.total_cache == pre.total_cache
            &&& post.total_rss == pre.total_rss
            &&& post.total_shmem == pre.total_shmem
            &&& post.total_dirty == pre.total_dirty
            &&& post.total_kswapd_steal == pre.total_kswapd_steal
            &&& post.total_writeback == pre.total_writeback
            &&& post.total_pgfault == pre.total_pgfault
            &&& post.total_pgmajfault == pre.total_pgmajfault
            &&& post.total_allocstall == pre.total_allocstall
        },
    }
    &&& match numa_stat {
        Some(c) => post.numa_stat is Some && spec_numa_rows_match(
            post.numa_stat.unwrap()@,
            spec_numa_stat_file(c),
        ),
        None => post.numa_stat == pre.numa_stat,
    }
    &&& post.oom_cnt == pre.oom_cnt
    &&& post.update_time == pre.update_time
}

/// A v1 record administratively reset: every counter unset, the identity
/// kept.
pub open spec fn spec_mem_v1_reset(pre: MemoryCGroupV1, post: MemoryCGroupV1) -> bool {
    &&& post.full_path@ == pre.full_path@
    &&& post.user_path@ == pre.user_path@
    &&& post.memory_limit_in_bytes is None
    &&& post.memory_usage_in_bytes is None
    &&& post.kern_memory_usage_in_bytes is None
    &&& post.cache is None
    &&& post.rss is None
    &&& post.shmem is None
    &&& post.dirty is None
    &&& post.kswapd_steal is None
    &&& post.writeback is None
    &&& post.pgfault is None
    &&& post.pgmajfault is None
    &&& post.allocstall is None
    &&& post.total_cache is None
    &&& post.total_rss is None
    &&& post.total_shmem is None
    &&& post.total_dirty is None
    &&& post.total_kswapd_steal is None
    &&& post.total_writeback is None
    &&& post.total_pgfault is None
    &&& post.total_pgmajfault is None
    &&& post.total_allocstall is None
    &&& post.watermark_scale_factor is None
    &&& post.oom_cnt is None
    &&& post.numa_stat is None
    &&& post.update_time == 0
}

/// The v1 memory cgroup.
#[derive(Clone, Debug)]
pub struct MemoryCGroupV1 {
    pub full_path: String,
    pub user_path: String,
    pub memory_limit_in_bytes: Option<u64>,
    pub memory_usage_in_bytes: Option<u64>,
    pub kern_memory_usage_in_bytes: Option<u64>,
    pub cache: Option<u64>,
    pub rss: Option<u64>,
    pub shmem: Option<u64>,
    pub dirty: Option<u64>,
    pub kswapd_steal: Option<u64>,
    pub writeback: Option<u64>,
    pub pgfault: Option<u64>,
    pub pgmajfault: Option<u64>,
    pub allocstall: Option<u64>,
    pub total_cache: Option<u64>,
    pub total_rss: Option<u64>,
    pub total_shmem: Option<u64>,
    pub total_dirty: Option<u64>,
    pub total_kswapd_steal: Option<u64>,
    pub total_writeback: Option<u64>,
    pub total_pgfault: Option<u64>,
    pub total_pgmajfault: Option<u64>,
    pub total_allocstall: Option<u64>,
    pub watermark_scale_factor: Option<u64>,
    pub oom_cnt: Option<u64>,
    pub numa_stat: Option<Vec<MemoryCGroupNumaStat>>,
    pub update_time: u64,
}

impl MemoryCGroupV1 {
    pub fn new(full_path: String, user_path: String) -> (r: MemoryCGroupV1)
        ensures
            r.full_path@ == full_path@,
            r.user_path@ == user_path@,
            spec_mem_v1_reset(r, r),
    {
        MemoryCGroupV1 {
            full_path,
            user_path,
            memory_limit_in_bytes: None,
            memory_usage_in_bytes: None,
            kern_memory_usage_in_bytes: None,
            cache: None,
            rss: None,
            shmem: None,
            dirty: None,
            kswapd_steal: None,
            writeback: None,
            pgfault: None,
            pgmajfault: None,
            allocstall: None,
            total_cache: None,
            total_rss: None,
            total_shmem: None,
            total_dirty: None,
            total_kswapd_steal: None,
            total_writeback: None,
            total_pgfault: None,
            total_pgmajfault: None,
            total_allocstall: None,
            watermark_scale_factor: None,
            oom_cnt: None,
            numa_stat: None,
            update_time: 0,
        }
    }

    pub fn full_path(&self) -> (r: &str)
        ensures
            r@ == self.full_path@,
    {
        self.full_path.as_str()
    }

    pub fn user_path(&self) -> (r: &str)
        ensures
            r@ == self.user_path@,
    {
        self.user_path.as_str()
    }

    /// Read one v1 `memory.stat` text: each counter takes the value the
    /// file gives, and is unset when missing.
    pub fn update_memory_stat(&mut self, contents: &str)
        ensures
            ({
                let m = spec_cgroup_file(contents@);
                *final(self) == (MemoryCGroupV1 {
                    cache: spec_opt_get(m, "cache"@),
                    rss: spec_opt_get(m, "rss"@),
                    shmem: spec_opt_get(m, "shmem"@),
                    dirty: spec_opt_get(m, "dirty"@),
                    kswapd_steal: spec_opt_get(m, "kswapd_steal"@),
                    writeback: spec_opt_get(m, "writeback"@),
                    pgfault: spec_opt_get(m, "pgfault"@),
                    pgmajfault: spec_opt_get(m, "pgmajfault"@),
                    allocstall: spec_opt_get(m, "allocstall"@),
                    total_cache: spec_opt_get(m, "total_cache"@),
                    total_rss: spec_opt_get(m, "total_rss"@),
                    total_shmem: spec_opt_get(m, "total_shmem"@),
                    total_dirty: spec_opt_get(m, "total_dirty"@),
                    total_kswapd_steal: spec_opt_get(m, "total_kswapd_steal"@),
                    total_writeback: spec_opt_get(m, "total_writeback"@),
                    total_pgfault: spec_opt_get(m, "total_pgfault"@),
                    total_pgmajfault: spec_opt_get(m, "total_pgmajfault"@),
                    total_allocstall: spec_opt_get(m, "total_allocstall"@),
                    ..*old(self)
                })
            }),
    {
        let m = parse_cgroup_file(contents);
        proof {
            reveal_strlit("cache");
            reveal_strlit("rss");
            reveal_strlit("shmem");
            reveal_strlit("dirty");
            reveal_strlit("kswapd_steal");
            reveal_strlit("writeback");
            reveal_strlit("pgfault");
            reveal_strlit("pgmajfault");
            reveal_strlit("allocstall");
            reveal_strlit("total_cache");
            reveal_strlit("total_rss");
            reveal_strlit("total_shmem");
            reveal_strlit("total_dirty");
            reveal_strlit("total_kswapd_steal");
            reveal_strlit("total_writeback");
            reveal_strlit("total_pgfault");
            reveal_strlit("total_pgmajfault");
            reveal_strlit("total_allocstall");
        }
        self.cache = opt_get(&m, "cache");
        self.rss = opt_get(&m, "rss");
        self.shmem = opt_get(&m, "shmem");
        self.dirty = opt_get(&m, "dirty");
        self.kswapd_steal = opt_get(&m, "kswapd_steal");
        self.writeback = opt_get(&m, "writeback");
        self.pgfault = opt_get(&m, "pgfault");
        self.pgmajfault = opt_get(&m, "pgmajfault");
        self.allocstall = opt_get(&m, "allocstall");
        self.total_cache = opt_get(&m, "total_cache");
        self.total_rss = opt_get(&m, "total_rss");
        self.total_shmem = opt_get(&m, "total_shmem");
        self.total_dirty = opt_get(&m, "total_dirty");
        self.total_kswapd_steal = opt_get(&m, "total_kswapd_steal");
        self.total_writeback = opt_get(&m, "total_writeback");
        self.total_pgfault = opt_get(&m, "total_pgfault");
        self.total_pgmajfault = opt_get(&m, "total_pgmajfault");
        self.total_allocstall = opt_get(&m, "total_allocstall");
    }

    /// Read one v1 `memory.numa_stat` text into one row per node, in the
    /// parsed node order.
    pub fn update_numa_stat(&mut self, contents: &str)
        ensures
            final(self).numa_stat is Some,
            spec_numa_rows_match(
                final(self).numa_stat.unwrap()@,
                spec_numa_stat_file(contents@),
            ),
            *final(self) == (MemoryCGroupV1 { numa_stat: final(self).numa_stat, ..*old(self) }),
    {
        let parsed = parse_cgroup_numa_stat_file(contents);
        let ghost lift = spec_lift_u64(parsed.map_view());
        let n = parsed.len();
        let mut rows: Vec<MemoryCGroupNumaStat> = Vec::new();
        let mut i: usize = 0;
        while i < n
            invariant
                parsed.wf(),
                spec_inner_wf_u64(parsed.map_view()),
                lift == spec_lift_u64(parsed.map_view()),
                n == parsed.spec_len(),
                i <= n,
                rows@.len() == i,
                forall|j: int|
                    0 <= j < i ==> #[trigger] rows@[j].numa_name@ == parsed.key_view_at(j)
                        && lift.contains_key(parsed.key_view_at(j)) && spec_numa_row_matches(
                        rows@[j],
                        parsed.key_view_at(j),
                        lift[parsed.key_view_at(j)],
                    ),
            decreases n - i,
        {
            proof {
                parsed.lemma_positions();
            }
            let key = parsed.key_at(i);
            let table = parsed.val_at(i);
            proof {
                assert(lift[parsed.key_view_at(i as int)] == table.map_view());
                reveal_strlit("total");
                reveal_strlit("file");
                reveal_strlit("anon");
                reveal_strlit("unevictable");
                reveal_strlit("hierarchical_total");
                reveal_strlit("hierarchical_file");
                reveal_strlit("hierarchical_anon");
                reveal_strlit("hierarchical_unevictable");
            }
            let row = MemoryCGroupNumaStat {
                numa_name: key.clone(),
                total: opt_get(table, "total"),
                file: opt_get(table, "file"),
                anon: opt_get(table, "anon"),
                unevictable: opt_get(table, "unevictable"),
                hierarchical_total: opt_get(table, "hierarchical_total"),
                hierarchical_file: opt_get(table, "hierarchical_file"),
                hierarchical_anon: opt_get(table, "hierarchical_anon"),
                hierarchical_unevictable: opt_get(table, "hierarchical_unevictable"),
            };
            rows.push(row);
            i = i + 1;
        }
        proof {
            parsed.lemma_positions();
            assert forall|k: Seq<char>| #[trigger] lift.contains_key(k) implies exists|j: int|
                0 <= j < rows@.len() && rows@[j].numa_name@ == k by {
                let j = choose|j: int| 0 <= j < parsed.spec_len() && parsed.key_view_at(j) == k;
                assert(rows@[j].numa_name@ == k);
            }
        }
        self.numa_stat = Some(rows);
    }

    /// Read one `memory.kmem.usage_in_bytes` line; a non-numeric line
    /// changes nothing.
    pub fn update_kern_memory_usage(&mut self, line: &str)
        ensures
            *final(self) == (match crate::text::spec_parse_u64(line@) {
                Some(v) => MemoryCGroupV1 { kern_memory_usage_in_bytes: Some(v), ..*old(self) },
                None => *old(self),
            }),
    {
        match crate::text::parse_u64_str(line) {
            Some(v) => {
                self.kern_memory_usage_in_bytes = Some(v);
            },
            None => {},
        }
    }

    /// Read one `memory.limit_in_bytes` line.
    pub fn update_memory_limit(&mut self, line: &str)
        ensures
            *final(self) == (match crate::text::spec_parse_u64(line@) {
                Some(v) => MemoryCGroupV1 { memory_limit_in_bytes: Some(v), ..*old(self) },
                None => *old(self),
            }),
    {
        match crate::text::parse_u64_str(line) {
            Some(v) => {
                self.memory_limit_in_bytes = Some(v);
            },
            None => {},
        }
    }

    /// Read one `memory.usage_in_bytes` line.
    pub fn update_memory_usage_in_bytes(&mut self, line: &str)
        ensures
            *final(self) == (match crate::text::spec_parse_u64(line@) {
                Some(v) => MemoryCGroupV1 { memory_usage_in_bytes: Some(v), ..*old(self) },
                None => *old(self),
            }),
    {
        match crate::text::parse_u64_str(line) {
            Some(v) => {
                self.memory_usage_in_bytes = Some(v);
            },
            None => {},
        }
    }

    /// Read one `memory.watermark_scale_factor` line.
    pub fn update_watermark_scale_factor(&mut self, line: &str)
        ensures
            *final(self) == (match crate::text::spec_parse_u64(line@) {
                Some(v) => MemoryCGroupV1 { watermark_scale_factor: Some(v), ..*old(self) },
                None => *old(self),
            }),
    {
        match crate::text::parse_u64_str(line) {
            Some(v) => {
                self.watermark_scale_factor = Some(v);
            },
            None => {},
        }
    }

    /// The user-space share of the usage: total usage minus the kernel's,
    /// known only when both counters are; a kernel figure larger than the
    /// total reads as zero.
    pub fn user_memory_usage_in_bytes(&self) -> (r: Option<u64>)
        ensures
            r == (match (self.memory_usage_in_bytes, self.kern_memory_usage_in_bytes) {
                (Some(a), Some(b)) => Some(
                    (if a >= b {
                        (a - b) as u64
                    } else {
                        0u64
                    }),
                ),
                _ => None::<u64>,
            }),
    {
        if let Some(a) = self.memory_usage_in_bytes {
            if let Some(b) = self.kern_memory_usage_in_bytes {
                return Some(
                    if a >= b {
                        a - b
                    } else {
                        0
                    },
                );
            }
        }
        None
    }

    /// Take one backend out-of-memory count.
    pub fn update_oom_cnt(&mut self, mem_oom_cnt: u64)
        ensures
            *final(self) == (MemoryCGroupV1 { oom_cnt: Some(mem_oom_cnt), ..*old(self) }),
    {
        self.oom_cnt = Some(mem_oom_cnt);
    }

    /// One full poll: each file that could be read feeds its fields, a
    /// missing or unparsable one leaves them; see `spec_mem_v1_updated` for
    /// the field-by-field account.
    #[verifier::rlimit(60)]
    pub fn update(
        &mut self,
        limit_line: Option<&str>,
        memory_stat: Option<&str>,
        kmem_line: Option<&str>,
        usage_line: Option<&str>,
        watermark_line: Option<&str>,
        numa_stat: Option<&str>,
    )
        ensures
            spec_mem_v1_updated(
                *old(self),
                *final(self),
                spec_text_of(limit_line),
                spec_text_of(memory_stat),
                spec_text_of(kmem_line),
                spec_text_of(usage_line),
                spec_text_of(watermark_line),
                spec_text_of(numa_stat),
            ),
    {
        match limit_line {
            Some(l) => self.update_memory_limit(l),
            None => {},
        }
        match memory_stat {
            Some(c) => self.update_memory_stat(c),
            None => {},
        }
        match kmem_line {
            Some(l) => self.update_kern_memory_usage(l),
            None => {},
        }
        match usage_line {
            Some(l) => self.update_memory_usage_in_bytes(l),
            None => {},
        }
        match watermark_line {
            Some(l) => self.update_watermark_scale_factor(l),
            None => {},
        }
        match numa_stat {
            Some(c) => self.update_numa_stat(c),
            None => {},
        }
    }

    /// The fast-path poll: the out-of-memory count, stamped with its time.
    pub fn update_ebpf(&mut self, mem_oom_cnt: u64, now: u64)
        ensures
            *final(self) == (MemoryCGroupV1 {
                oom_cnt: Some(mem_oom_cnt),
                update_time: now,
                ..*old(self)
            }),
    {
        self.update_oom_cnt(mem_oom_cnt);
        self.update_time = now;
    }

    /// Administrative reset: back to the just-created state, keeping the
    /// identity; see `spec_mem_v1_reset`.
    pub fn reset(&mut self)
        ensures
            spec_mem_v1_reset(*old(self), *final(self)),
    {
        let full_path = self.full_path.clone();
        let user_path = self.user_path.clone();
        *self = MemoryCGroupV1::new(full_path, user_path);
    }
}

/// The memory cgroup in whichever layout the host runs.
#[derive(Clone, Debug)]
pub enum MemoryCGroup {
    /// cgroup v1 info from the cgroup filesystem
    V1(MemoryCGroupV1),
    /// cgroup v2 info from the cgroup filesystem
    V2(MemoryCGroupV2),
}

/// The memory record for `user_path`: v1 under the `memory` subtree, v2
/// directly under the mount point.
pub fn new_memory_cgroup(mount_point: &str, user_path: &str, cgroup_type: CGroupType) -> (r:
    MemoryCGroup)
    ensures
        match r {
            MemoryCGroup::V1(v1) => cgroup_type == CGroupType::V1 && v1.full_path@ == mount_point@
                + "/"@ + "memory"@ + "/"@ + user_path@ && v1.user_path@ == user_path@,
            MemoryCGroup::V2(v2) => cgroup_type == CGroupType::V2 && v2.full_path@ == mount_point@
                + "/"@ + user_path@ && v2.user_path@ == user_path@ && v2.wf(),
        },
{
    match cgroup_type {
        CGroupType::V1 => MemoryCGroup::V1(
            MemoryCGroupV1::new(
                join3(mount_point, "memory", user_path),
                String::from_str(user_path),
            ),
        ),
        CGroupType::V2 => MemoryCGroup::V2(
            MemoryCGroupV2::new(join2(mount_point, user_path), String::from_str(user_path)),
        ),
    }
}

impl MemoryCGroup {
    pub open spec fn wf(&self) -> bool {
        match *self {
            MemoryCGroup::V1(_) => true,
            MemoryCGroup::V2(v2) => v2.wf(),
        }
    }

    pub fn full_path(&self) -> (r: &str)
        ensures
            r@ == (match *self {
                MemoryCGroup::V1(v1) => v1.full_path@,
                MemoryCGroup::V2(v2) => v2.full_path@,
            }),
    {
        match self {
            MemoryCGroup::V1(v1) => v1.full_path(),
            MemoryCGroup::V2(v2) => v2.full_path(),
        }
    }

    /// The fast-path poll: taken only when the capability mask marks the
    /// memory module loaded.
    pub fn update_ebpf(&mut self, bpf_mask: u64, mem_oom_cnt: u64, now: u64)
        requires
            old(self).wf(),
        ensures
            final(self).wf(),
            (*final(self)) is V1 == (*old(self)) is V1,
            !crate::bpf::spec_module_valid(bpf_mask, crate::bpf::BPF_MODULE_CGROUP_MEM)
                ==> *final(self) == *old(self),
    {
        if !crate::bpf::is_bpf_moudule_valid(bpf_mask, crate::bpf::BPF_MODULE_CGROUP_MEM) {
            return ;
        }
        match self {
            MemoryCGroup::V1(v1) => v1.update_ebpf(mem_oom_cnt, now),
            MemoryCGroup::V2(v2) => v2.update_ebpf(mem_oom_cnt, now),
        }
    }

    pub fn reset(&mut self)
        requires
            old(self).wf(),
        ensures
            final(self).wf(),
            (*final(self)) is V1 == (*old(self)) is V1,
    {
        match self {
            MemoryCGroup::V1(v1) => v1.reset(),
            MemoryCGroup::V2(v2) => v2.reset(),
        }
    }
}

} // verus!
