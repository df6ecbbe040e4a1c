//! Block-I/O accounting per cgroup: the v1 throttle tables keyed by device
//! and operation type, and the v2 `io.*` files.

use vstd::prelude::*;

use crate::bpf::{spec_module_valid, IoPercentLatency, WrapperFSData, WrapperIoLatpcts};
use crate::cgtext::{nested_set, spec_inner_wf_u64, spec_lift_u64};
use crate::kvmap::KvMap;
use crate::psi::{spec_map_get_or, PressureStallInfo};
use crate::text::{
    parse_u64_str, spec_parse_u64, spec_split, spec_split_ws, split_str, split_ws_str, str_eq_str,
};

verus! {

/// The operation column of a v1 throttle table.
#[derive(Clone, Copy, Debug, PartialEq, Eq, Structural)]
pub enum BlkOperationType {
    Read,
    Write,
    Sync,
    Async,
    Total,
    Unknown,
}

impl BlkOperationType {
    /// The canonical name of each operation.
    pub open spec fn spec_as_str(&self) -> Seq<char> {
        match *self {
            BlkOperationType::Read => "Read"@,
            BlkOperationType::Write => "Write"@,
            BlkOperationType::Async => "Async"@,
            BlkOperationType::Sync => "Sync"@,
            BlkOperationType::Total => "Total"@,
            BlkOperationType::Unknown => "Unknown"@,
        }
    }

    pub fn as_str(&self) -> (r: &str)
        ensures
            r@ == self.spec_as_str(),
    {
        match *self {
            BlkOperationType::Read => "Read",
            BlkOperationType::Write => "Write",
            BlkOperationType::Async => "Async",
            BlkOperationType::Sync => "Sync",
            BlkOperationType::Total => "Total",
            BlkOperationType::Unknown => "Unknown",
        }
    }

    /// The operation a token names; unrecognised tokens are `Unknown`, to
    /// tolerate kernel version drift.
    pub open spec fn spec_from_str(data: Seq<char>) -> BlkOperationType {
        if data == "Read"@ {
            BlkOperationType::Read
        } else if data == "Write"@ {
            BlkOperationType::Write
        } else if data == "Async"@ {
            BlkOperationType::Async
        } else if data == "Sync"@ {
            BlkOperationType::Sync
        } else if data == "Total"@ {
            BlkOperationType::Total
        } else {
            BlkOperationType::Unknown
        }
    }

    pub fn from(data: &str) -> (r: BlkOperationType)
        ensures
            r == BlkOperationType::spec_from_str(data@),
    {
        proof {
            reveal_strlit("Read");
            reveal_strlit("Write");
            reveal_strlit("Async");
            reveal_strlit("Sync");
            reveal_strlit("Total");
        }
        if str_eq_str(data, "Read") {
            BlkOperationType::Read
        } else if str_eq_str(data, "Write") {
            BlkOperationType::Write
        } else if str_eq_str(data, "Async") {
            BlkOperationType::Async
        } else if str_eq_str(data, "Sync") {
            BlkOperationType::Sync
        } else if str_eq_str(data, "Total") {
            BlkOperationType::Total
        } else {
            BlkOperationType::Unknown
        }
    }
}

/// What one throttle line does to the running total and the per-device
/// tables: a two-token line replaces the total, a three-token line records
/// one operation's counter under its device, keyed by the operation's
/// canonical name.
pub open spec fn spec_blkio_line(
    total: u64,
    m: Map<Seq<char>, Map<Seq<char>, u64>>,
    line: Seq<char>,
) -> (u64, Map<Seq<char>, Map<Seq<char>, u64>>) {
    let toks = spec_split_ws(line);
    if toks.len() == 2 {
        if spec_parse_u64(toks[1]) is Some {
            (spec_parse_u64(toks[1]).unwrap(), m)
        } else {
            (total, m)
        }
    } else if toks.len() == 3 {
        if spec_parse_u64(toks[2]) is Some {
            let dev = toks[0];
            let op = BlkOperationType::spec_from_str(toks[1]).spec_as_str();
            let inner = if m.contains_key(dev) {
                m[dev]
            } else {
                Map::empty()
            };
            (total, m.insert(dev, inner.insert(op, spec_parse_u64(toks[2]).unwrap())))
        } else {
            (total, m)
        }
    } else {
        (total, m)
    }
}

pub open spec fn spec_blkio_upto(lines: Seq<Seq<char>>, n: int) -> (
    u64,
    Map<Seq<char>, Map<Seq<char>, u64>>,
)
    decreases n,
{
    if n <= 0 {
        (0, Map::empty())
    } else {
        let prev = spec_blkio_upto(lines, n - 1);
        spec_blkio_line(prev.0, prev.1, lines[n - 1])
    }
}

/// The total and the per-device tables a v1 throttle file denotes.
pub open spec fn spec_blkio_file(s: Seq<char>) -> (u64, Map<Seq<char>, Map<Seq<char>, u64>>) {
    let lines = spec_split(s, '\n');
    spec_blkio_upto(lines, lines.len() as int)
}

/// Parse a v1 throttle file such as `blkio.throttle.io_serviced`: the
/// trailing `Total N` line gives the total, the `maj:min Op N` lines give
/// one table per device keyed by the operation's canonical name.
pub fn parse_blkio_file(contents: &str) -> (r: (u64, KvMap<KvMap<u64>>))
    ensures
        r.1.wf(),
        spec_inner_wf_u64(r.1.map_view()),
        ({
            let expect = spec_blkio_file(contents@);
            r.0 == expect.0 && spec_lift_u64(r.1.map_view()) == expect.1
        }),
{
    let lines = split_str(contents, '\n');
    let mut total: u64 = 0;
    let mut m: KvMap<KvMap<u64>> = KvMap::new();
    proof {
        assert(spec_lift_u64(m.map_view()) =~= Map::<Seq<char>, Map<Seq<char>, u64>>::empty());
    }
    let n = lines.len();
    let mut i: usize = 0;
    while i < n
        invariant
            n == lines@.len(),
            i <= n,
            lines.deep_view() == spec_split(contents@, '\n'),
            m.wf(),
            spec_inner_wf_u64(m.map_view()),
            ({
                let expect = spec_blkio_upto(lines.deep_view(), i as int);
                total == expect.0 && spec_lift_u64(m.map_view()) == expect.1
            }),
        decreases n - i,
    {
        proof {
            assert(lines.deep_view()[i as int] == lines@[i as int]@);
        }
        let toks = split_ws_str(lines[i].as_str());
        if toks.len() == 2 {
            proof {
                assert(toks.deep_view()[1] == toks@[1]@);
            }
            match parse_u64_str(toks[1].as_str()) {
                Some(v) => {
                    total = v;
                },
                None => {},
            }
        } else if toks.len() == 3 {
            proof {
                assert(toks.deep_view()[0] == toks@[0]@);
                assert(toks.deep_view()[1] == toks@[1]@);
                assert(toks.deep_view()[2] == toks@[2]@);
            }
            match parse_u64_str(toks[2].as_str()) {
                Some(v) => {
                    let dev = toks[0].clone();
                    let op = BlkOperationType::from(toks[1].as_str());
                    let op_name = String::from_str(op.as_str());
                    nested_set(&mut m, dev, op_name, v);
                },
                None => {},
            }
        }
        i = i + 1;
    }
    (total, m)
}

/// What one full v1 poll does: each throttle file that could be read
/// replaces its total and per-device table, a missing one leaves them; the
/// sample time is recorded and the identity and backend counters are kept.
pub open spec fn spec_blkio_v1_updated(
    pre: BlkIOCGroupV1,
    post: BlkIOCGroupV1,
    bps: Option<Seq<char>>,
    iops: Option<Seq<char>>,
    now: u64,
) -> bool {
    &&& post.full_path@ == pre.full_path@
    &&& post.user_path@ == pre.user_path@
    &&& match bps {
        Some(c) => post.bps_total == spec_blkio_file(c).0 && spec_lift_u64(
            post.bps_details.map_view(),
        ) == spec_blkio_file(c).1,
        None => post.bps_total == pre.bps_total && post.bps_details == pre.bps_details,
    }
    &&& match iops {
        Some(c) => post.iops_total == spec_blkio_file(c).0 && spec_lift_u64(
            post.iops_details.map_view(),
        ) == spec_blkio_file(c).1,
        None => post.iops_total == pre.iops_total && post.iops_details == pre.iops_details,
    }
    &&& post.update_time == now
    &&& post.bpf_fs_data == pre.bpf_fs_data
    &&& post.old_bpf_fs_data == pre.old_bpf_fs_data
}

/// A v1 record administratively reset: empty tables, zero totals and
/// backend counters, the identity kept, the reset time recorded.
pub open spec fn spec_blkio_v1_reset(pre: BlkIOCGroupV1, post: BlkIOCGroupV1, now: u64) -> bool {
    &&& post.full_path@ == pre.full_path@
    &&& post.user_path@ == pre.user_path@
    &&& spec_lift_u64(post.iops_details.map_view()) == Map::<
        Seq<char>,
        Map<Seq<char>, u64>,
    >::empty()
    &&& spec_lift_u64(post.bps_details.map_view()) == Map::<Seq<char>, Map<Seq<char>, u64>>::empty()
    &&& post.iops_total == 0
    &&& post.bps_total == 0
    &&& post.bpf_fs_data == WrapperFSData::spec_zero()
    &&& post.old_bpf_fs_data == WrapperFSData::spec_zero()
    &&& post.update_time == now
}

/// The v1 block-I/O cgroup: operation counts and bytes per device, plus
/// the backend's filesystem counters.
#[derive(Clone, Debug)]
pub struct BlkIOCGroupV1 {
    pub full_path: String,
    pub user_path: String,
    pub iops_details: KvMap<KvMap<u64>>,
    pub bps_details: KvMap<KvMap<u64>>,
    pub iops_total: u64,
    pub bps_total: u64,
    pub bpf_fs_data: WrapperFSData,
    pub old_bpf_fs_data: WrapperFSData,
    pub update_time: u64,
}

impl BlkIOCGroupV1 {
    pub open spec fn wf(&self) -> bool {
        &&& self.iops_details.wf()
        &&& spec_inner_wf_u64(self.iops_details.map_view())
        &&& self.bps_details.wf()
        &&& spec_inner_wf_u64(self.bps_details.map_view())
    }

    /// A fresh v1 record for the cgroup under `user_path`.
    pub fn new(full_path: String, user_path: String) -> (r: BlkIOCGroupV1)
        ensures
            r.wf(),
            r.full_path@ == full_path@,
            r.user_path@ == user_path@,
            spec_lift_u64(r.iops_details.map_view()) == Map::<
                Seq<char>,
                Map<Seq<char>, u64>,
            >::empty(),
            spec_lift_u64(r.bps_details.map_view()) == Map::<
                Seq<char>,
                Map<Seq<char>, u64>,
            >::empty(),
            r.iops_total == 0,
            r.bps_total == 0,
            r.bpf_fs_data == WrapperFSData::spec_zero(),
            r.old_bpf_fs_data == WrapperFSData::spec_zero(),
            r.update_time == 0,
    {
        let r = BlkIOCGroupV1 {
            full_path,
            user_path,
            iops_details: KvMap::new(),
            bps_details: KvMap::new(),
            iops_total: 0,
            bps_total: 0,
            bpf_fs_data: WrapperFSData::zero(),
            old_bpf_fs_data: WrapperFSData::zero(),
            update_time: 0,
        };
        proof {
            assert(spec_lift_u64(r.iops_details.map_view()) =~= Map::<
                Seq<char>,
                Map<Seq<char>, u64>,
            >::empty());
            assert(spec_lift_u64(r.bps_details.map_view()) =~= Map::<
                Seq<char>,
                Map<Seq<char>, u64>,
            >::empty());
        }
        r
    }

    pub fn iops_details(&self) -> (r: &KvMap<KvMap<u64>>)
        ensures
            r == &self.iops_details,
    {
        &self.iops_details
    }

    pub fn bps_details(&self) -> (r: &KvMap<KvMap<u64>>)
        ensures
            r == &self.bps_details,
    {
        &self.bps_details
    }

    pub fn iops_total(&self) -> (r: u64)
        ensures
            r == self.iops_total,
    {
        self.iops_total
    }

    pub fn bps_total(&self) -> (r: u64)
        ensures
            r == self.bps_total,
    {
        self.bps_total
    }

    pub fn full_path(&self) -> (r: &str)
        ensures
            r@ == self.full_path@,
    {
        self.full_path.as_str()
    }

    pub fn user_path(&self) -> (r: &str)
        ensures
            r@ == self.user_path@,
    {
        self.user_path.as_str()
    }

    /// Replace the operation-count table from `blkio.throttle.io_serviced`
    /// text.
    pub fn update_iops(&mut self, contents: &str)
        requires
            old(self).wf(),
        ensures
            final(self).wf(),
            ({
                let expect = spec_blkio_file(contents@);
                &&& final(self).iops_total == expect.0
                &&& spec_lift_u64(final(self).iops_details.map_view()) == expect.1
                &&& *final(self) == (BlkIOCGroupV1 {
                    iops_total: final(self).iops_total,
                    iops_details: final(self).iops_details,
                    ..*old(self)
                })
            }),
    {
        let (total, details) = parse_blkio_file(contents);
        self.iops_total = total;
        self.iops_details = details;
    }

    /// Replace the byte-count table from `blkio.throttle.io_service_bytes`
    /// text.
    pub fn update_bps(&mut self, contents: &str)
        requires
            old(self).wf(),
        ensures
            final(self).wf(),
            ({
                let expect = spec_blkio_file(contents@);
                &&& final(self).bps_total == expect.0
                &&& spec_lift_u64(final(self).bps_details.map_view()) == expect.1
                &&& *final(self) == (BlkIOCGroupV1 {
                    bps_total: final(self).bps_total,
                    bps_details: final(self).bps_details,
                    ..*old(self)
                })
            }),
    {
        let (total, details) = parse_blkio_file(contents);
        self.bps_total = total;
        self.bps_details = details;
    }

    /// One full poll: each file that could be read replaces its table, a
    /// missing file leaves the previous values; the sample time is
    /// recorded. See `spec_blkio_v1_updated`.
    pub fn update(&mut self, bps_contents: Option<&str>, iops_contents: Option<&str>, now: u64)
        requires
            old(self).wf(),
        ensures
            final(self).wf(),
            spec_blkio_v1_updated(
                *old(self),
                *final(self),
                crate::cgtext::spec_text_of(bps_contents),
                crate::cgtext::spec_text_of(iops_contents),
                now,
            ),
    {
        match bps_contents {
            Some(c) => self.update_bps(c),
            None => {},
        }
        match iops_contents {
            Some(c) => self.update_iops(c),
            None => {},
        }
        self.update_time = now;
    }

    /// Administrative reset: every counter back to its just-created state,
    /// keeping the identity, stamped with the reset time. See
    /// `spec_blkio_v1_reset`.
    pub fn reset(&mut self, now: u64)
        ensures
            final(self).wf(),
            spec_blkio_v1_reset(*old(self), *final(self), now),
    {
        let full_path = self.full_path.clone();
        let user_path = self.user_path.clone();
        *self = BlkIOCGroupV1::new(full_path, user_path);
        self.update_time = now;
    }

    /// Take one backend filesystem-counter report: the previous report is
    /// kept for delta computation.
    pub fn update_bpf_data(&mut self, data: WrapperFSData)
        ensures
            *final(self) == (BlkIOCGroupV1 {
                old_bpf_fs_data: old(self).bpf_fs_data,
                bpf_fs_data: data,
                ..*old(self)
            }),
    {
        self.old_bpf_fs_data = self.bpf_fs_data;
        self.bpf_fs_data = data;
    }

    /// The fast-path poll: the report is taken only when the capability
    /// mask marks the filesystem module loaded; otherwise nothing changes.
    pub fn update_ebpf(&mut self, bpf_mask: u64, data: WrapperFSData)
        ensures
            *final(self) == (if spec_module_valid(bpf_mask, crate::bpf::BPF_MODULE_CGROUP_FS) {
                BlkIOCGroupV1 {
                    old_bpf_fs_data: old(self).bpf_fs_data,
                    bpf_fs_data: data,
                    ..*old(self)
                }
            } else {
                *old(self)
            }),
    {
        if crate::bpf::is_bpf_moudule_valid(bpf_mask, crate::bpf::BPF_MODULE_CGROUP_FS) {
            self.update_bpf_data(data);
        }
    }
}

/// One device's counters in a v2 `io.stat` line, absent fields read as
/// zero.
#[derive(Clone, Copy, Debug, PartialEq, Eq, Structural, Default)]
pub struct BlkIOStatV2 {
    pub rbytes: u64,
    pub wbytes: u64,
    pub rios: u64,
    pub wios: u64,
    pub dbytes: u64,
    pub dios: u64,
}

/// The counters one parsed `io.stat` device table denotes.
pub open spec fn spec_stat_v2_of(m: Map<Seq<char>, u64>) -> BlkIOStatV2 {
    BlkIOStatV2 {
        rbytes: spec_map_get_or(m, "rbytes"@, 0),
        wbytes: spec_map_get_or(m, "wbytes"@, 0),
        rios: spec_map_get_or(m, "rios"@, 0),
        wios: spec_map_get_or(m, "wios"@, 0),
        dbytes: spec_map_get_or(m, "dbytes"@, 0),
        dios: spec_map_get_or(m, "dios"@, 0),
    }
}

/// One device's limits in a v2 `io.max` line, absent fields read as zero.
#[derive(Clone, Copy, Debug, PartialEq, Eq, Structural, Default)]
pub struct BlkIOMaxV2 {
    pub rbps: u64,
    pub wbps: u64,
    pub riops: u64,
    pub wiops: u64,
}

/// The limits one parsed `io.max` device table denotes.
pub open spec fn spec_max_v2_of(m: Map<Seq<char>, u64>) -> BlkIOMaxV2 {
    BlkIOMaxV2 {
        rbps: spec_map_get_or(m, "rbps"@, 0),
        wbps: spec_map_get_or(m, "wbps"@, 0),
        riops: spec_map_get_or(m, "riops"@, 0),
        wiops: spec_map_get_or(m, "wiops"@, 0),
    }
}

} // verus!

use crate::cgtext::parse_cgroup_nested_u64;
use crate::cgtext::parse_cgroup_file;
use crate::cgtext::spec_device_nested_file;
use crate::cgtext::spec_cgroup_file;

verus! {

/// The per-device stat records a parsed `io.stat` denotes: one per device
/// with a non-empty name.
pub open spec fn spec_stat_tables(m: Map<Seq<char>, Map<Seq<char>, u64>>) -> Map<
    Seq<char>,
    BlkIOStatV2,
> {
    Map::new(
        |k: Seq<char>| m.contains_key(k) && k.len() > 0,
        |k: Seq<char>| spec_stat_v2_of(m[k]),
    )
}

/// The per-device limit records a parsed `io.max` denotes.
pub open spec fn spec_max_tables(m: Map<Seq<char>, Map<Seq<char>, u64>>) -> Map<
    Seq<char>,
    BlkIOMaxV2,
> {
    Map::new(
        |k: Seq<char>| m.contains_key(k) && k.len() > 0,
        |k: Seq<char>| spec_max_v2_of(m[k]),
    )
}

/// The table with its empty-named entry dropped.
pub open spec fn spec_nonempty_keys(m: Map<Seq<char>, u64>) -> Map<Seq<char>, u64> {
    Map::new(|k: Seq<char>| m.contains_key(k) && k.len() > 0, |k: Seq<char>| m[k])
}

/// One stat record out of one device's parsed table.
fn stat_v2_of(table: &KvMap<u64>) -> (r: BlkIOStatV2)
    requires
        table.wf(),
    ensures
        r == spec_stat_v2_of(table.map_view()),
{
    proof {
        reveal_strlit("rbytes");
        reveal_strlit("wbytes");
        reveal_strlit("rios");
        reveal_strlit("wios");
        reveal_strlit("dbytes");
        reveal_strlit("dios");
    }
    BlkIOStatV2 {
        rbytes: crate::psi::get_or(table, "rbytes", 0),
        wbytes: crate::psi::get_or(table, "wbytes", 0),
        rios: crate::psi::get_or(table, "rios", 0),
        wios: crate::psi::get_or(table, "wios", 0),
        dbytes: crate::psi::get_or(table, "dbytes", 0),
        dios: crate::psi::get_or(table, "dios", 0),
    }
}

/// One limit record out of one device's parsed table.
fn max_v2_of(table: &KvMap<u64>) -> (r: BlkIOMaxV2)
    requires
        table.wf(),
    ensures
        r == spec_max_v2_of(table.map_view()),
{
    proof {
        reveal_strlit("rbps");
        reveal_strlit("wbps");
        reveal_strlit("riops");
        reveal_strlit("wiops");
    }
    BlkIOMaxV2 {
        rbps: crate::psi::get_or(table, "rbps", 0),
        wbps: crate::psi::get_or(table, "wbps", 0),
        riops: crate::psi::get_or(table, "riops", 0),
        wiops: crate::psi::get_or(table, "wiops", 0),
    }
}

/// Convert each non-empty-named device table into its stat record.
fn stat_tables_of(parsed: &KvMap<KvMap<u64>>) -> (r: KvMap<BlkIOStatV2>)
    requires
        parsed.wf(),
        spec_inner_wf_u64(parsed.map_view()),
    ensures
        r.wf(),
        r.map_view() == spec_stat_tables(spec_lift_u64(parsed.map_view())),
{
    let n = parsed.len();
    let mut out: KvMap<BlkIOStatV2> = KvMap::new();
    let ghost lift = spec_lift_u64(parsed.map_view());
    let mut i: usize = 0;
    while i < n
        invariant
            parsed.wf(),
            spec_inner_wf_u64(parsed.map_view()),
            lift == spec_lift_u64(parsed.map_view()),
            n == parsed.spec_len(),
            i <= n,
            out.wf(),
            forall|q: Seq<char>|
                #[trigger] out.map_view().contains_key(q) <==> exists|j: int|
                    0 <= j < i && parsed.key_view_at(j) == q && q.len() > 0,
            forall|q: Seq<char>|
                #[trigger] out.map_view().contains_key(q) ==> lift.contains_key(q)
                    && out.map_view()[q] == spec_stat_v2_of(lift[q]),
        decreases n - i,
    {
        proof {
            parsed.lemma_positions();
        }
        let key = parsed.key_at(i);
        let kl = key.as_str().unicode_len();
        let ghost kq = parsed.key_view_at(i as int);
        if kl > 0 {
            let key_owned = key.clone();
            let conv = stat_v2_of(parsed.val_at(i));
            let ghost before = out.map_view();
            out.set(key_owned, conv);
            proof {
                assert(lift[kq] == parsed.map_view()[kq].map_view());
                assert(conv == spec_stat_v2_of(lift[kq]));
                assert forall|q: Seq<char>| #[trigger] out.map_view().contains_key(q)
                    <==> exists|j: int|
                    0 <= j < i + 1 && parsed.key_view_at(j) == q && q.len() > 0 by {
                    if out.map_view().contains_key(q) {
                        if q == kq {
                            assert(parsed.key_view_at(i as int) == q && q.len() > 0);
                        } else {
                            assert(before.contains_key(q));
                        }
                    }
                }
            }
        } else {
            proof {
                assert forall|q: Seq<char>| #[trigger] out.map_view().contains_key(q)
                    <==> exists|j: int|
                    0 <= j < i + 1 && parsed.key_view_at(j) == q && q.len() > 0 by {
                    if !out.map_view().contains_key(q) {
                        if exists|j: int|
                            0 <= j < i + 1 && parsed.key_view_at(j) == q && q.len() > 0 {
                            let j = choose|j: int|
                                0 <= j < i + 1 && parsed.key_view_at(j) == q && q.len() > 0;
                            assert(j < i);
                        }
                    }
                }
            }
        }
        i = i + 1;
    }
    proof {
        parsed.lemma_positions();
        assert forall|q: Seq<char>| #[trigger] out.map_view().contains_key(q) == (
        lift.contains_key(q) && q.len() > 0) by {
            if lift.contains_key(q) && q.len() > 0 {
                let j = choose|j: int|
                    0 <= j < parsed.spec_len() && parsed.key_view_at(j) == q;
                assert(out.map_view().contains_key(q));
            }
        }
        assert(out.map_view() =~= spec_stat_tables(lift));
    }
    out
}

/// Convert each non-empty-named device table into its limit record.
fn max_tables_of(parsed: &KvMap<KvMap<u64>>) -> (r: KvMap<BlkIOMaxV2>)
    requires
        parsed.wf(),
        spec_inner_wf_u64(parsed.map_view()),
    ensures
        r.wf(),
        r.map_view() == spec_max_tables(spec_lift_u64(parsed.map_view())),
{
    let n = parsed.len();
    let mut out: KvMap<BlkIOMaxV2> = KvMap::new();
    let ghost lift = spec_lift_u64(parsed.map_view());
    let mut i: usize = 0;
    while i < n
        invariant
            parsed.wf(),
            spec_inner_wf_u64(parsed.map_view()),
            lift == spec_lift_u64(parsed.map_view()),
            n == parsed.spec_len(),
            i <= n,
            out.wf(),
            forall|q: Seq<char>|
                #[trigger] out.map_view().contains_key(q) <==> exists|j: int|
                    0 <= j < i && parsed.key_view_at(j) == q && q.len() > 0,
            forall|q: Seq<char>|
                #[trigger] out.map_view().contains_key(q) ==> lift.contains_key(q)
                    && out.map_view()[q] == spec_max_v2_of(lift[q]),
        decreases n - i,
    {
        proof {
            parsed.lemma_positions();
        }
        let key = parsed.key_at(i);
        let kl = key.as_str().unicode_len();
        let ghost kq = parsed.key_view_at(i as int);
        if kl > 0 {
            let key_owned = key.clone();
            let conv = max_v2_of(parsed.val_at(i));
            let ghost before = out.map_view();
            out.set(key_owned, conv);
            proof {
                assert(lift[kq] == parsed.map_view()[kq].map_view());
                assert(conv == spec_max_v2_of(lift[kq]));
                assert forall|q: Seq<char>| #[trigger] out.map_view().contains_key(q)
                    <==> exists|j: int|
                    0 <= j < i + 1 && parsed.key_view_at(j) == q && q.len() > 0 by {
                    if out.map_view().contains_key(q) {
                        if q == kq {
                            assert(parsed.key_view_at(i as int) == q && q.len() > 0);
                        } else {
                            assert(before.contains_key(q));
                        }
                    }
                }
            }
        } else {
            proof {
                assert forall|q: Seq<char>| #[trigger] out.map_view().contains_key(q)
                    <==> exists|j: int|
                    0 <= j < i + 1 && parsed.key_view_at(j) == q && q.len() > 0 by {
                    if !out.map_view().contains_key(q) {
                        if exists|j: int|
                            0 <= j < i + 1 && parsed.key_view_at(j) == q && q.len() > 0 {
                            let j = choose|j: int|
                                0 <= j < i + 1 && parsed.key_view_at(j) == q && q.len() > 0;
                            assert(j < i);
                        }
                    }
                }
            }
        }
        i = i + 1;
    }
    proof {
        parsed.lemma_positions();
        assert forall|q: Seq<char>| #[trigger] out.map_view().contains_key(q) == (
        lift.contains_key(q) && q.len() > 0) by {
            if lift.contains_key(q) && q.len() > 0 {
                let j = choose|j: int|
                    0 <= j < parsed.spec_len() && parsed.key_view_at(j) == q;
                assert(out.map_view().contains_key(q));
            }
        }
        assert(out.map_view() =~= spec_max_tables(lift));
    }
    out
}

/// What one `io.latency` merge does: devices with a non-empty name and at
/// least one item take one of their item values, everything else is kept.
pub open spec fn spec_latency_merged(
    pre: Map<Seq<char>, u64>,
    post: Map<Seq<char>, u64>,
    parsed: Map<Seq<char>, Map<Seq<char>, u64>>,
) -> bool {
    &&& forall|k: Seq<char>|
        #[trigger] post.contains_key(k) ==> pre.contains_key(k) || (parsed.contains_key(k)
            && k.len() > 0)
    &&& forall|k: Seq<char>| #[trigger] pre.contains_key(k) ==> post.contains_key(k)
    &&& forall|k: Seq<char>|
        #[trigger] post.contains_key(k) && !pre.contains_key(k) ==> exists|k2: Seq<char>|
            #[trigger] parsed[k].contains_key(k2) && post[k] == parsed[k][k2]
}

/// What one full v2 poll does: `io.stat` and `io.max` merge their
/// per-device records, `io.weight` is replaced, `io.latency` merges as
/// above, the pressure record is read, the sample time is recorded, and
/// the identity and backend counters are kept.
pub open spec fn spec_blkio_v2_updated(
    pre: BlkIOCGroupV2,
    post: BlkIOCGroupV2,
    io_stat: Option<Seq<char>>,
    io_max: Option<Seq<char>>,
    io_pressure: Option<Seq<char>>,
    io_weight: Option<Seq<char>>,
    io_latency: Option<Seq<char>>,
    now: u64,
) -> bool {
    &&& post.full_path@ == pre.full_path@
    &&& post.user_path@ == pre.user_path@
    &&& match io_stat {
        Some(c) => post.io_stat.map_view() == pre.io_stat.map_view().union_prefer_right(
            spec_stat_tables(spec_device_nested_file(c)),
        ),
        None => post.io_stat == pre.io_stat,
    }
    &&& match io_max {
        Some(c) => post.io_max.map_view() == pre.io_max.map_view().union_prefer_right(
            spec_max_tables(spec_device_nested_file(c)),
        ),
        None => post.io_max == pre.io_max,
    }
    &&& match io_pressure {
        Some(c) => post.io_pressure == PressureStallInfo::spec_from_text(c),
        None => post.io_pressure == pre.io_pressure,
    }
    &&& match io_weight {
        Some(c) => post.io_weight.map_view() == spec_nonempty_keys(spec_cgroup_file(c)),
        None => post.io_weight == pre.io_weight,
    }
    &&& match io_latency {
        Some(c) => spec_latency_merged(
            pre.io_latency.map_view(),
            post.io_latency.map_view(),
            spec_device_nested_file(c),
        ),
        None => post.io_latency == pre.io_latency,
    }
    &&& post.update_time == now
    &&& post.bpf_fs_data == pre.bpf_fs_data
    &&& post.old_bpf_fs_data == pre.old_bpf_fs_data
    &&& post.bpf_io_latency == pre.bpf_io_latency
}

/// What one fast-path poll does to a v2 record: with the filesystem module
/// loaded the counter report is taken (the previous one kept for deltas),
/// with the I/O module loaded the latency report is taken; everything else
/// is kept.
pub open spec fn spec_blkio_v2_ebpf_updated(
    pre: BlkIOCGroupV2,
    post: BlkIOCGroupV2,
    bpf_mask: u64,
    fs_data: WrapperFSData,
    io_latency: WrapperIoLatpcts,
) -> bool {
    &&& if spec_module_valid(bpf_mask, crate::bpf::BPF_MODULE_CGROUP_FS) {
        post.bpf_fs_data == fs_data && post.old_bpf_fs_data == pre.bpf_fs_data
    } else {
        post.bpf_fs_data == pre.bpf_fs_data && post.old_bpf_fs_data == pre.old_bpf_fs_data
    }
    &&& if spec_module_valid(bpf_mask, crate::bpf::BPF_MODULE_CGROUP_IO) {
        post.bpf_io_latency == io_latency
    } else {
        post.bpf_io_latency == pre.bpf_io_latency
    }
    &&& post.full_path@ == pre.full_path@
    &&& post.user_path@ == pre.user_path@
    &&& post.io_stat == pre.io_stat
    &&& post.io_max == pre.io_max
    &&& post.io_pressure == pre.io_pressure
    &&& post.io_latency == pre.io_latency
    &&& post.io_weight == pre.io_weight
    &&& post.update_time == pre.update_time
}

/// A v2 record administratively reset: empty tables, a fresh pressure
/// record, zero backend counters, the identity kept, the reset time
/// recorded.
pub open spec fn spec_blkio_v2_reset(pre: BlkIOCGroupV2, post: BlkIOCGroupV2, now: u64) -> bool {
    &&& post.full_path@ == pre.full_path@
    &&& post.user_path@ == pre.user_path@
    &&& post.io_stat.map_view() == Map::<Seq<char>, BlkIOStatV2>::empty()
    &&& post.io_max.map_view() == Map::<Seq<char>, BlkIOMaxV2>::empty()
    &&& post.io_latency.map_view() == Map::<Seq<char>, u64>::empty()
    &&& post.io_weight.map_view() == Map::<Seq<char>, u64>::empty()
    &&& post.io_pressure == PressureStallInfo::spec_new()
    &&& post.bpf_fs_data == WrapperFSData::spec_zero()
    &&& post.old_bpf_fs_data == WrapperFSData::spec_zero()
    &&& post.bpf_io_latency == WrapperIoLatpcts::spec_zero()
    &&& post.update_time == now
}

/// The v2 block-I/O cgroup: per-device stat and limit tables, weights,
/// latencies and pressure, plus the backend's counters.
#[derive(Clone, Debug)]
pub struct BlkIOCGroupV2 {
    pub full_path: String,
    pub user_path: String,
    pub io_stat: KvMap<BlkIOStatV2>,
    pub io_max: KvMap<BlkIOMaxV2>,
    pub io_pressure: PressureStallInfo,
    pub io_latency: KvMap<u64>,
    pub io_weight: KvMap<u64>,
    pub bpf_fs_data: WrapperFSData,
    pub old_bpf_fs_data: WrapperFSData,
    pub bpf_io_latency: WrapperIoLatpcts,
    pub update_time: u64,
}

impl BlkIOCGroupV2 {
    pub open spec fn wf(&self) -> bool {
        &&& self.io_stat.wf()
        &&& self.io_max.wf()
        &&& self.io_latency.wf()
        &&& self.io_weight.wf()
    }

    /// A fresh v2 record for the cgroup under `user_path`.
    pub fn new(full_path: String, user_path: String) -> (r: BlkIOCGroupV2)
        ensures
            r.wf(),
            r.full_path@ == full_path@,
            r.user_path@ == user_path@,
            r.io_stat.map_view() == Map::<Seq<char>, BlkIOStatV2>::empty(),
            r.io_max.map_view() == Map::<Seq<char>, BlkIOMaxV2>::empty(),
            r.io_latency.map_view() == Map::<Seq<char>, u64>::empty(),
            r.io_weight.map_view() == Map::<Seq<char>, u64>::empty(),
            r.io_pressure == PressureStallInfo::spec_new(),
            r.bpf_fs_data == WrapperFSData::spec_zero(),
            r.old_bpf_fs_data == WrapperFSData::spec_zero(),
            r.bpf_io_latency == WrapperIoLatpcts::spec_zero(),
            r.update_time == 0,
    {
        BlkIOCGroupV2 {
            full_path,
            user_path,
            io_stat: KvMap::new(),
            io_max: KvMap::new(),
            io_pressure: PressureStallInfo::new(),
            io_latency: KvMap::new(),
            io_weight: KvMap::new(),
            bpf_fs_data: WrapperFSData::zero(),
            old_bpf_fs_data: WrapperFSData::zero(),
            bpf_io_latency: WrapperIoLatpcts {
                pcts: 0,
                sum_latency: IoPercentLatency { read_latency: 0, write_latency: 0, discard_latency: 0 },
                driver_latency: IoPercentLatency { read_latency: 0, write_latency: 0, discard_latency: 0 },
            },
            update_time: 0,
        }
    }

    pub fn full_path(&self) -> (r: &str)
        ensures
            r@ == self.full_path@,
    {
        self.full_path.as_str()
    }

    /// Merge the per-device stat records of one `io.stat` text into the
    /// table; devices not in the text keep their previous record.
    pub fn update_io_stat(&mut self, contents: &str)
        requires
            old(self).wf(),
        ensures
            final(self).wf(),
            final(self).io_stat.map_view() == old(self).io_stat.map_view().union_prefer_right(
                spec_stat_tables(spec_device_nested_file(contents@)),
            ),
            *final(self) == (BlkIOCGroupV2 { io_stat: final(self).io_stat, ..*old(self) }),
    {
        let parsed = parse_cgroup_nested_u64(contents);
        let tables = stat_tables_of(&parsed);
        self.io_stat.merge_from(tables);
    }

    /// Merge the per-device limit records of one `io.max` text into the
    /// table.
    pub fn update_io_max(&mut self, contents: &str)
        requires
            old(self).wf(),
        ensures
            final(self).wf(),
            final(self).io_max.map_view() == old(self).io_max.map_view().union_prefer_right(
                spec_max_tables(spec_device_nested_file(contents@)),
            ),
            *final(self) == (BlkIOCGroupV2 { io_max: final(self).io_max, ..*old(self) }),
    {
        let parsed = parse_cgroup_nested_u64(contents);
        let tables = max_tables_of(&parsed);
        self.io_max.merge_from(tables);
    }

    /// Read one `io.pressure` text.
    pub fn update_io_pressure(&mut self, contents: &str)
        ensures
            *final(self) == (BlkIOCGroupV2 {
                io_pressure: PressureStallInfo::spec_from_text(contents@),
                ..*old(self)
            }),
    {
        self.io_pressure = PressureStallInfo::from(contents);
    }

    /// Replace the weight table with the entries of one `io.weight` text.
    pub fn update_io_weight(&mut self, contents: &str)
        requires
            old(self).wf(),
        ensures
            final(self).wf(),
            final(self).io_weight.map_view() == spec_nonempty_keys(spec_cgroup_file(contents@)),
            *final(self) == (BlkIOCGroupV2 { io_weight: final(self).io_weight, ..*old(self) }),
    {
        let parsed = parse_cgroup_file(contents);
        let n = parsed.len();
        let mut out: KvMap<u64> = KvMap::new();
        let ghost m = parsed.map_view();
        let mut i: usize = 0;
        while i < n
            invariant
                parsed.wf(),
                m == parsed.map_view(),
                n == parsed.spec_len(),
                i <= n,
                out.wf(),
                forall|q: Seq<char>|
                    #[trigger] out.map_view().contains_key(q) <==> exists|j: int|
                        0 <= j < i && parsed.key_view_at(j) == q && q.len() > 0,
                forall|q: Seq<char>|
                    #[trigger] out.map_view().contains_key(q) ==> m.contains_key(q)
                        && out.map_view()[q] == m[q],
            decreases n - i,
        {
            proof {
                parsed.lemma_positions();
            }
            let key = parsed.key_at(i);
            let kl = key.as_str().unicode_len();
            let ghost kq = parsed.key_view_at(i as int);
            if kl > 0 {
                let key_owned = key.clone();
                let v = *parsed.val_at(i);
                let ghost before = out.map_view();
                out.set(key_owned, v);
                proof {
                    assert forall|q: Seq<char>| #[trigger] out.map_view().contains_key(q)
                        <==> exists|j: int|
                        0 <= j < i + 1 && parsed.key_view_at(j) == q && q.len() > 0 by {
                        if out.map_view().contains_key(q) {
                            if q == kq {
                                assert(parsed.key_view_at(i as int) == q && q.len() > 0);
                            } else {
                                assert(before.contains_key(q));
                            }
                        }
                    }
                }
            } else {
                proof {
                    assert forall|q: Seq<char>| #[trigger] out.map_view().contains_key(q)
                        <==> exists|j: int|
                        0 <= j < i + 1 && parsed.key_view_at(j) == q && q.len() > 0 by {
                        if !out.map_view().contains_key(q) {
                            if exists|j: int|
                                0 <= j < i + 1 && parsed.key_view_at(j) == q && q.len() > 0 {
                                let j = choose|j: int|
                                    0 <= j < i + 1 && parsed.key_view_at(j) == q && q.len() > 0;
                                assert(j < i);
                            }
                        }
                    }
                }
            }
            i = i + 1;
        }
        proof {
            parsed.lemma_positions();
            assert forall|q: Seq<char>| #[trigger] out.map_view().contains_key(q) == (
            m.contains_key(q) && q.len() > 0) by {
                if m.contains_key(q) && q.len() > 0 {
                    let j = choose|j: int|
                        0 <= j < parsed.spec_len() && parsed.key_view_at(j) == q;
                    assert(out.map_view().contains_key(q));
                }
            }
            assert(out.map_view() =~= spec_nonempty_keys(m));
        }
        self.io_weight = out;
    }

    /// Merge one `io.latency` text into the latency table: each device with
    /// a non-empty name and at least one item takes one of its item values.
    pub fn update_io_latency(&mut self, contents: &str)
        requires
            old(self).wf(),
        ensures
            final(self).wf(),
            spec_latency_merged(
                old(self).io_latency.map_view(),
                final(self).io_latency.map_view(),
                spec_device_nested_file(contents@),
            ),
            *final(self) == (BlkIOCGroupV2 { io_latency: final(self).io_latency, ..*old(self) }),
    {
        let parsed = parse_cgroup_nested_u64(contents);
        let n = parsed.len();
        let ghost lift = spec_lift_u64(parsed.map_view());
        let mut i: usize = 0;
        while i < n
            invariant
                parsed.wf(),
                spec_inner_wf_u64(parsed.map_view()),
                lift == spec_lift_u64(parsed.map_view()),
                n == parsed.spec_len(),
                i <= n,
                self.io_latency.wf(),
                *self == (BlkIOCGroupV2 { io_latency: self.io_latency, ..*old(self) }),
                forall|k: Seq<char>|
                    #[trigger] self.io_latency.map_view().contains_key(k) ==> old(
                        self,
                    ).io_latency.map_view().contains_key(k) || (lift.contains_key(k) && k.len()
                        > 0),
                forall|k: Seq<char>|
                    #[trigger] old(self).io_latency.map_view().contains_key(k) ==> self
                        .io_latency.map_view().contains_key(k),
                forall|k: Seq<char>|
                    #[trigger] self.io_latency.map_view().contains_key(k) && !old(
                        self,
                    ).io_latency.map_view().contains_key(k) ==> exists|k2: Seq<char>|
                        #[trigger] lift[k].contains_key(k2) && self.io_latency.map_view()[k]
                            == lift[k][k2],
            decreases n - i,
        {
            proof {
                parsed.lemma_positions();
            }
            let key = parsed.key_at(i);
            let kl = key.as_str().unicode_len();
            let ghost kq = parsed.key_view_at(i as int);
            let inner = parsed.val_at(i);
            let inner_len = inner.len();
            if kl > 0 && inner_len > 0 {
                let v = *inner.val_at(inner_len - 1);
                let ghost k2 = inner.key_view_at(inner_len as int - 1);
                proof {
                    inner.lemma_positions();
                    assert(lift[kq].contains_key(k2));
                    assert(lift[kq][k2] == v);
                }
                let key_owned = key.clone();
                self.io_latency.set(key_owned, v);
            }
            i = i + 1;
        }
    }

    /// Take one backend filesystem-counter report, keeping the previous
    /// one for delta computation.
    pub fn update_bpf_data(&mut self, data: WrapperFSData)
        ensures
            *final(self) == (BlkIOCGroupV2 {
                old_bpf_fs_data: old(self).bpf_fs_data,
                bpf_fs_data: data,
                ..*old(self)
            }),
    {
        self.old_bpf_fs_data = self.bpf_fs_data;
        self.bpf_fs_data = data;
    }

    /// Take one backend latency-percentile report.
    pub fn update_bpf_io_latency(&mut self, data: WrapperIoLatpcts)
        ensures
            *final(self) == (BlkIOCGroupV2 { bpf_io_latency: data, ..*old(self) }),
    {
        self.bpf_io_latency = data;
    }

    /// The fast-path poll: each report is taken only when its module's
    /// capability bit is set; see `spec_blkio_v2_ebpf_updated`.
    pub fn update_ebpf(&mut self, bpf_mask: u64, fs_data: WrapperFSData,
        io_latency: WrapperIoLatpcts)
        ensures
            spec_blkio_v2_ebpf_updated(*old(self), *final(self), bpf_mask, fs_data, io_latency),
    {
        if crate::bpf::is_bpf_moudule_valid(bpf_mask, crate::bpf::BPF_MODULE_CGROUP_FS) {
            self.update_bpf_data(fs_data);
        }
        if crate::bpf::is_bpf_moudule_valid(bpf_mask, crate::bpf::BPF_MODULE_CGROUP_IO) {
            self.update_bpf_io_latency(io_latency);
        }
    }

    /// One full poll: each file that could be read feeds its table, a
    /// missing file leaves the previous values; the sample time is
    /// recorded. See `spec_blkio_v2_updated`.
    #[verifier::rlimit(60)]
    pub fn update(
        &mut self,
        io_stat: Option<&str>,
        io_max: Option<&str>,
        io_pressure: Option<&str>,
        io_weight: Option<&str>,
        io_latency: Option<&str>,
        now: u64,
    )
        requires
            old(self).wf(),
        ensures
            final(self).wf(),
            spec_blkio_v2_updated(
                *old(self),
                *final(self),
                crate::cgtext::spec_text_of(io_stat),
                crate::cgtext::spec_text_of(io_max),
                crate::cgtext::spec_text_of(io_pressure),
                crate::cgtext::spec_text_of(io_weight),
                crate::cgtext::spec_text_of(io_latency),
                now,
            ),
    {
        match io_stat {
            Some(c) => self.update_io_stat(c),
            None => {},
        }
        match io_max {
            Some(c) => self.update_io_max(c),
            None => {},
        }
        match io_pressure {
            Some(c) => self.update_io_pressure(c),
            None => {},
        }
        match io_weight {
            Some(c) => self.update_io_weight(c),
            None => {},
        }
        match io_latency {
            Some(c) => self.update_io_latency(c),
            None => {},
        }
        self.update_time = now;
    }

    /// Administrative reset: back to the just-created state, keeping the
    /// identity, stamped with the reset time. See `spec_blkio_v2_reset`.
    pub fn reset(&mut self, now: u64)
        ensures
            final(self).wf(),
            spec_blkio_v2_reset(*old(self), *final(self), now),
    {
        let full_path = self.full_path.clone();
        let user_path = self.user_path.clone();
        *self = BlkIOCGroupV2::new(full_path, user_path);
        self.update_time = now;
    }
}

} // verus!
