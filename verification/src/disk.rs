//! Disk readings: the per-device counters of `/proc/diskstats`, and the
//! per-mount usage figures computed from filesystem statistics the caller
//! gathers for the mounts listed in `/proc/self/mountinfo`.

use vstd::prelude::*;

use crate::rate::{ratio_permyriad, spec_ratio_permyriad};
use crate::text::{
    parse_u64_str, spec_parse_u64, spec_split, spec_split_ws, split_str, split_ws_str, str_eq_str,
};

verus! {

/// One `/proc/diskstats` line's figures.
#[derive(Clone, Debug)]
pub struct DiskStat {
    pub primary_device_id: u64,
    pub secondary_device_id: u64,
    pub device_name: String,
    pub io_read: u64,
    pub io_write: u64,
    pub io_busy: u64,
}

/// The mathematical value of one disk-stat line.
#[verifier::ext_equal]
pub struct DiskStatView {
    pub primary_device_id: u64,
    pub secondary_device_id: u64,
    pub device_name: Seq<char>,
    pub io_read: u64,
    pub io_write: u64,
    pub io_busy: u64,
}

impl View for DiskStat {
    type V = DiskStatView;

    open spec fn view(&self) -> DiskStatView {
        DiskStatView {
            primary_device_id: self.primary_device_id,
            secondary_device_id: self.secondary_device_id,
            device_name: self.device_name@,
            io_read: self.io_read,
            io_write: self.io_write,
            io_busy: self.io_busy,
        }
    }
}

/// What one diskstats line denotes: device ids, name, and the read, write
/// and busy columns; a line with missing or non-numeric columns denotes
/// nothing.
pub open spec fn spec_parse_disk_stat(line: Seq<char>) -> Option<DiskStatView> {
    let toks = spec_split_ws(line);
    if toks.len() >= 13 && spec_parse_u64(toks[0]) is Some && spec_parse_u64(toks[1]) is Some
        && spec_parse_u64(toks[3]) is Some && spec_parse_u64(toks[7]) is Some && spec_parse_u64(
        toks[12],
    ) is Some {
        Some(
            DiskStatView {
                primary_device_id: spec_parse_u64(toks[0]).unwrap(),
                secondary_device_id: spec_parse_u64(toks[1]).unwrap(),
                device_name: toks[2],
                io_read: spec_parse_u64(toks[3]).unwrap(),
                io_write: spec_parse_u64(toks[7]).unwrap(),
                io_busy: spec_parse_u64(toks[12]).unwrap(),
            },
        )
    } else {
        None
    }
}

pub open spec fn spec_disk_stats_upto(lines: Seq<Seq<char>>, n: int) -> Seq<DiskStatView>
    decreases n,
{
    if n <= 0 {
        Seq::empty()
    } else {
        match spec_parse_disk_stat(lines[n - 1]) {
            Some(s) => spec_disk_stats_upto(lines, n - 1).push(s),
            None => spec_disk_stats_upto(lines, n - 1),
        }
    }
}

/// The device records a `/proc/diskstats` file denotes.
pub open spec fn spec_disk_stats(s: Seq<char>) -> Seq<DiskStatView> {
    let lines = spec_split(s, '\n');
    spec_disk_stats_upto(lines, lines.len() as int)
}

pub open spec fn spec_stat_views(v: Seq<DiskStat>) -> Seq<DiskStatView> {
    v.map_values(|d: DiskStat| d@)
}

/// One mount's usage figures. The usage share is held in hundredths of a
/// percent.
#[derive(Clone, Debug)]
pub struct DiskUsage {
    pub mount_point: String,
    pub filesystem_type: String,
    pub total: u64,
    pub free: u64,
    pub usage_permyriad: u64,
    pub total_inodes: u64,
    pub free_inodes: u64,
}

/// One mount listed in `/proc/self/mountinfo` that is worth measuring.
#[derive(Clone, Debug)]
pub struct MountEntry {
    pub mount_point: String,
    pub filesystem_type: String,
}

/// The filesystem statistics the caller gathers for one mount.
#[derive(Clone, Copy, Debug, PartialEq, Eq, Structural, Default)]
pub struct FsStatData {
    pub blocks: u64,
    pub block_size: u64,
    pub blocks_available: u64,
    pub files: u64,
    pub files_free: u64,
}

/// The position of the `-` separator in a mountinfo line's tokens, looked
/// for from the seventh column on.
pub open spec fn spec_sep_idx(toks: Seq<Seq<char>>, j: int) -> Option<int>
    decreases toks.len() - j,
{
    if j < 0 || j >= toks.len() {
        None
    } else if toks[j] == "-"@ {
        Some(j)
    } else {
        spec_sep_idx(toks, j + 1)
    }
}

/// What one mountinfo line denotes: its mount point (fifth column) and the
/// filesystem type just after the `-` separator; lines without either, and
/// the overlay and tmpfs types, denote nothing.
pub open spec fn spec_parse_mount(line: Seq<char>) -> Option<(Seq<char>, Seq<char>)> {
    let toks = spec_split_ws(line);
    if toks.len() > 4 {
        match spec_sep_idx(toks, 6) {
            Some(sep) => {
                if sep + 1 < toks.len() {
                    let fstype = toks[sep + 1];
                    if fstype == "overlay"@ || fstype == "tmpfs"@ {
                        None
                    } else {
                        Some((toks[4], fstype))
                    }
                } else {
                    None
                }
            },
            None => None,
        }
    } else {
        None
    }
}

pub open spec fn spec_mounts_upto(lines: Seq<Seq<char>>, n: int) -> Seq<(Seq<char>, Seq<char>)>
    decreases n,
{
    if n <= 0 {
        Seq::empty()
    } else {
        match spec_parse_mount(lines[n - 1]) {
            Some(m) => spec_mounts_upto(lines, n - 1).push(m),
            None => spec_mounts_upto(lines, n - 1),
        }
    }
}

/// The measurable mounts a mountinfo file denotes, in file order.
pub open spec fn spec_mounts(s: Seq<char>) -> Seq<(Seq<char>, Seq<char>)> {
    let lines = spec_split(s, '\n');
    spec_mounts_upto(lines, lines.len() as int)
}

pub open spec fn spec_mount_views(v: Seq<MountEntry>) -> Seq<(Seq<char>, Seq<char>)> {
    v.map_values(|m: MountEntry| (m.mount_point@, m.filesystem_type@))
}

/// List the measurable mounts of one `/proc/self/mountinfo` text.
pub fn parse_mount_entries(contents: &str) -> (r: Vec<MountEntry>)
    ensures
        spec_mount_views(r@) == spec_mounts(contents@),
{
    let lines = split_str(contents, '\n');
    let n = lines.len();
    let mut out: Vec<MountEntry> = Vec::new();
    proof {
        assert(spec_mount_views(out@) =~= spec_mounts_upto(lines.deep_view(), 0));
    }
    let mut i: usize = 0;
    while i < n
        invariant
            n == lines@.len(),
            i <= n,
            lines.deep_view() == spec_split(contents@, '\n'),
            spec_mount_views(out@) == spec_mounts_upto(lines.deep_view(), i as int),
        decreases n - i,
    {
        proof {
            assert(lines.deep_view()[i as int] == lines@[i as int]@);
            reveal_strlit("-");
            reveal_strlit("overlay");
            reveal_strlit("tmpfs");
        }
        let toks = split_ws_str(lines[i].as_str());
        let ghost tv = toks.deep_view();
        let ghost line_v = lines.deep_view()[i as int];
        let tn = toks.len();
        if tn > 4 {
            // look for the `-` separator from the seventh column on
            let mut j: usize = 6;
            let mut found = false;
            while j < tn && !found
                invariant
                    tn == toks@.len(),
                    tv == toks.deep_view(),
                    6 <= j,
                    found ==> j < tn && spec_sep_idx(tv, 6) == Some(j as int),
                    !found ==> spec_sep_idx(tv, 6) == spec_sep_idx(tv, j as int),
                decreases tn - j, (if found { 0int } else { 1int }),
            {
                proof {
                    assert(toks.deep_view()[j as int] == toks@[j as int]@);
                    reveal_strlit("-");
                }
                if str_eq_str(toks[j].as_str(), "-") {
                    found = true;
                } else {
                    j = j + 1;
                }
            }
            if found {
                let s = j;
                if s + 1 < tn {
                    proof {
                        assert(tv[s + 1] == toks@[s + 1]@);
                        assert(tv[4] == toks@[4]@);
                        reveal_strlit("overlay");
                        reveal_strlit("tmpfs");
                    }
                    let fstype = &toks[s + 1];
                    let is_overlay = str_eq_str(fstype.as_str(), "overlay");
                    let is_tmpfs = str_eq_str(fstype.as_str(), "tmpfs");
                    if !is_overlay && !is_tmpfs {
                        let entry = MountEntry {
                            mount_point: toks[4].clone(),
                            filesystem_type: fstype.clone(),
                        };
                        let ghost before = spec_mount_views(out@);
                        out.push(entry);
                        proof {
                            assert(spec_parse_mount(line_v) == Some(
                                (entry.mount_point@, entry.filesystem_type@),
                            ));
                            assert(spec_mount_views(out@) =~= before.push(
                                (entry.mount_point@, entry.filesystem_type@),
                            ));
                        }
                    } else {
                        proof {
                            assert(spec_parse_mount(line_v) is None);
                        }
                    }
                } else {
                    proof {
                        assert(spec_parse_mount(line_v) is None);
                    }
                }
            } else {
                proof {
                    assert(j >= tn);
                    assert(spec_sep_idx(tv, j as int) is None);
                    assert(spec_parse_mount(line_v) is None);
                }
            }
        } else {
            proof {
                assert(spec_split_ws(line_v).len() <= 4);
                assert(spec_parse_mount(line_v) is None);
            }
        }
        i = i + 1;
    }
    out
}

/// The usage record one mount's statistics denote: nothing when the
/// statistics are missing, the sizes overflow, the total is zero or the
/// free space exceeds the total; otherwise the byte totals and the used
/// share in hundredths of a percent.
pub open spec fn spec_usage_of(
    mount: (Seq<char>, Seq<char>),
    st: Option<FsStatData>,
) -> Option<DiskUsageView> {
    match st {
        Some(fs) => {
        let total = fs.blocks * fs.block_size;
        let free = fs.blocks_available * fs.block_size;
        if total > u64::MAX || free > u64::MAX {
            None
        } else if total == 0 {
            None
        } else if free > total {
            None
        } else {
            Some(
                DiskUsageView {
                    mount_point: mount.0,
                    filesystem_type: mount.1,
                    total: total as u64,
                    free: free as u64,
                    usage_permyriad: spec_ratio_permyriad(
                        (total - free) as u64,
                        total as u64,
                    ) as u64,
                    total_inodes: fs.files,
                    free_inodes: fs.files_free,
                },
            )
        }
        },
        None => None,
    }
}

/// The mathematical value of one usage record.
#[verifier::ext_equal]
pub struct DiskUsageView {
    pub mount_point: Seq<char>,
    pub filesystem_type: Seq<char>,
    pub total: u64,
    pub free: u64,
    pub usage_permyriad: u64,
    pub total_inodes: u64,
    pub free_inodes: u64,
}

impl View for DiskUsage {
    type V = DiskUsageView;

    open spec fn view(&self) -> DiskUsageView {
        DiskUsageView {
            mount_point: self.mount_point@,
            filesystem_type: self.filesystem_type@,
            total: self.total,
            free: self.free,
            usage_permyriad: self.usage_permyriad,
            total_inodes: self.total_inodes,
            free_inodes: self.free_inodes,
        }
    }
}

pub open spec fn spec_usage_views(v: Seq<DiskUsage>) -> Seq<DiskUsageView> {
    v.map_values(|d: DiskUsage| d@)
}

/// The usage records of a mount list and its gathered statistics, the i-th
/// statistics belonging to the i-th mount.
pub open spec fn spec_usages_upto(
    mounts: Seq<(Seq<char>, Seq<char>)>,
    stats: Seq<Option<FsStatData>>,
    n: int,
) -> Seq<DiskUsageView>
    decreases n,
{
    if n <= 0 {
        Seq::empty()
    } else {
        let prev = spec_usages_upto(mounts, stats, n - 1);
        if n - 1 < stats.len() {
            match spec_usage_of(mounts[n - 1], stats[n - 1]) {
                Some(u) => prev.push(u),
                None => prev,
            }
        } else {
            prev
        }
    }
}

/// The disk readings of the last refresh.
#[derive(Clone, Debug)]
pub struct Disk {
    pub stats: Vec<DiskStat>,
    pub usage: Vec<DiskUsage>,
}

impl Default for Disk {
    fn default() -> (r: Self)
        ensures
            r.stats@.len() == 0,
            r.usage@.len() == 0,
    {
        Disk::new()
    }
}

impl Disk {
    pub fn new() -> (r: Disk)
        ensures
            r.stats@.len() == 0,
            r.usage@.len() == 0,
    {
        Disk { stats: Vec::new(), usage: Vec::new() }
    }

    pub fn get_stats(&self) -> (r: &Vec<DiskStat>)
        ensures
            r == &self.stats,
    {
        &self.stats
    }

    pub fn get_usage(&self) -> (r: &Vec<DiskUsage>)
        ensures
            r == &self.usage,
    {
        &self.usage
    }

    /// Replace the device records with those one `/proc/diskstats` text
    /// denotes.
    pub fn refresh_disk_stat(&mut self, contents: &str)
        ensures
            spec_stat_views(final(self).stats@) == spec_disk_stats(contents@),
            final(self).usage == old(self).usage,
    {
        let lines = split_str(contents, '\n');
        let n = lines.len();
        let mut stats: Vec<DiskStat> = Vec::new();
        proof {
            assert(spec_stat_views(stats@) =~= spec_disk_stats_upto(lines.deep_view(), 0));
        }
        let mut i: usize = 0;
        while i < n
            invariant
                n == lines@.len(),
                i <= n,
                lines.deep_view() == spec_split(contents@, '\n'),
                spec_stat_views(stats@) == spec_disk_stats_upto(lines.deep_view(), i as int),
            decreases n - i,
        {
            proof {
                assert(lines.deep_view()[i as int] == lines@[i as int]@);
            }
            let toks = split_ws_str(lines[i].as_str());
            if toks.len() >= 13 {
                proof {
                    assert(toks.deep_view()[0] == toks@[0]@);
                    assert(toks.deep_view()[1] == toks@[1]@);
                    assert(toks.deep_view()[2] == toks@[2]@);
                    assert(toks.deep_view()[3] == toks@[3]@);
                    assert(toks.deep_view()[7] == toks@[7]@);
                    assert(toks.deep_view()[12] == toks@[12]@);
                }
                let p0 = parse_u64_str(toks[0].as_str());
                let p1 = parse_u64_str(toks[1].as_str());
                let p3 = parse_u64_str(toks[3].as_str());
                let p7 = parse_u64_str(toks[7].as_str());
                let p12 = parse_u64_str(toks[12].as_str());
                match (p0, p1, p3, p7, p12) {
                    (Some(a), Some(b), Some(rd), Some(wr), Some(busy)) => {
                        let stat = DiskStat {
                            primary_device_id: a,
                            secondary_device_id: b,
                            device_name: toks[2].clone(),
                            io_read: rd,
                            io_write: wr,
                            io_busy: busy,
                        };
                        let ghost before = spec_stat_views(stats@);
                        stats.push(stat);
                        proof {
                            assert(spec_stat_views(stats@) =~= before.push(stat@));
                            assert(stat@ =~= spec_parse_disk_stat(
                                lines.deep_view()[i as int],
                            ).unwrap());
                        }
                    },
                    _ => {
                        proof {
                            assert(spec_parse_disk_stat(lines.deep_view()[i as int]) is None);
                        }
                    },
                }
            } else {
                proof {
                    assert(spec_split_ws(lines.deep_view()[i as int]).len() < 13);
                }
            }
            i = i + 1;
        }
        self.stats = stats;
    }

    /// Replace the usage records: the caller lists the measurable mounts
    /// (from `parse_mount_entries`) and the statistics it gathered for
    /// each; mounts whose statistics are missing or degenerate are skipped.
    pub fn refresh_disk_usage(&mut self, mounts: &Vec<MountEntry>, stats: &Vec<Option<FsStatData>>)
        ensures
            spec_usage_views(final(self).usage@) == spec_usages_upto(
                spec_mount_views(mounts@),
                stats@,
                mounts@.len() as int,
            ),
            final(self).stats == old(self).stats,
    {
        let n = mounts.len();
        let mut usage: Vec<DiskUsage> = Vec::new();
        proof {
            assert(spec_usage_views(usage@) =~= spec_usages_upto(
                spec_mount_views(mounts@),
                stats@,
                0,
            ));
        }
        let mut i: usize = 0;
        while i < n
            invariant
                n == mounts@.len(),
                i <= n,
                spec_usage_views(usage@) == spec_usages_upto(
                    spec_mount_views(mounts@),
                    stats@,
                    i as int,
                ),
            decreases n - i,
        {
            proof {
                assert(spec_mount_views(mounts@)[i as int] == (
                mounts@[i as int].mount_point@,
                mounts@[i as int].filesystem_type@,
                ));
            }
            if i < stats.len() {
                match &stats[i] {
                    Some(fs) => {
                        proof {
                            assert((fs.blocks as int) * (fs.block_size as int) <= (u64::MAX as int)
                                * (u64::MAX as int)) by (nonlinear_arith)
                                requires
                                    fs.blocks <= u64::MAX,
                                    fs.block_size <= u64::MAX,
                            ;
                            assert((fs.blocks_available as int) * (fs.block_size as int) <= (
                            u64::MAX as int) * (u64::MAX as int)) by (nonlinear_arith)
                                requires
                                    fs.blocks_available <= u64::MAX,
                                    fs.block_size <= u64::MAX,
                            ;
                        }
                        let total_wide: u128 = (fs.blocks as u128) * (fs.block_size as u128);
                        let free_wide: u128 = (fs.blocks_available as u128) * (
                        fs.block_size as u128);
                        if total_wide <= u64::MAX as u128 && free_wide <= u64::MAX as u128 {
                            let total = total_wide as u64;
                            let free = free_wide as u64;
                            if total != 0 && free <= total {
                                let entry = DiskUsage {
                                    mount_point: mounts[i].mount_point.clone(),
                                    filesystem_type: mounts[i].filesystem_type.clone(),
                                    total,
                                    free,
                                    usage_permyriad: ratio_permyriad(total - free, total),
                                    total_inodes: fs.files,
                                    free_inodes: fs.files_free,
                                };
                                let ghost before = spec_usage_views(usage@);
                                usage.push(entry);
                                proof {
                                    assert(spec_usage_views(usage@) =~= before.push(entry@));
                                    assert(entry@ =~= spec_usage_of(
                                        spec_mount_views(mounts@)[i as int],
                                        stats@[i as int],
                                    ).unwrap());
                                }
                            }
                        }
                    },
                    None => {},
                }
            }
            i = i + 1;
        }
        self.usage = usage;
    }

    pub fn reset(&mut self)
        ensures
            final(self).stats@.len() == 0,
            final(self).usage@.len() == 0,
    {
        *self = Disk::new();
    }
}

} // verus!
