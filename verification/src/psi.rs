//! Pressure stall information: the `some`/`full` stall averages that the
//! kernel reports per resource, in hundredths (the files carry two
//! fraction digits).

use vstd::prelude::*;

use crate::cgtext::{
    apply_items, nested_touch, spec_inner_wf_u64, spec_lift_u64, spec_nested_items_upto, NumMode,
};
use crate::kvmap::KvMap;
use crate::text::{spec_split, spec_split_ws, split_str, split_ws_str};

verus! {

/// Value at `k`, or `d` when the table has no such key.
pub open spec fn spec_map_get_or(m: Map<Seq<char>, u64>, k: Seq<char>, d: u64) -> u64 {
    if m.contains_key(k) {
        m[k]
    } else {
        d
    }
}

/// One pressure line's stall averages, in hundredths: `avg10 == 123` means
/// an average of 1.23.
#[derive(Clone, Copy, Debug, PartialEq, Eq, Structural)]
pub struct PSIItem {
    pub avg10: u64,
    pub avg60: u64,
    pub avg300: u64,
    pub total: u64,
}

impl PSIItem {
    pub fn new(avg10: u64, avg60: u64, avg300: u64, total: u64) -> (r: PSIItem)
        ensures
            r == (PSIItem { avg10, avg60, avg300, total }),
    {
        PSIItem { avg10, avg60, avg300, total }
    }

    pub fn get_avg10(&self) -> (r: u64)
        ensures
            r == self.avg10,
    {
        self.avg10
    }

    pub fn get_avg60(&self) -> (r: u64)
        ensures
            r == self.avg60,
    {
        self.avg60
    }

    pub fn get_avg300(&self) -> (r: u64)
        ensures
            r == self.avg300,
    {
        self.avg300
    }

    pub fn get_total(&self) -> (r: u64)
        ensures
            r == self.total,
    {
        self.total
    }
}

/// One line of a pressure file: `some avg10=1.23 avg60=... total=...`
/// opens the `some` table and records each decimal item under it.
pub open spec fn spec_pressure_line_apply(
    m: Map<Seq<char>, Map<Seq<char>, u64>>,
    line: Seq<char>,
) -> Map<Seq<char>, Map<Seq<char>, u64>> {
    let items = spec_split_ws(line);
    if items.len() >= 1 {
        let field = items[0];
        let start: Map<Seq<char>, Map<Seq<char>, u64>> = if m.contains_key(field) {
            m
        } else {
            m.insert(field, Map::empty())
        };
        spec_nested_items_upto(start, false, field, items, items.len() as int, NumMode::Hundredths)
    } else {
        m
    }
}

pub open spec fn spec_pressure_upto(lines: Seq<Seq<char>>, n: int) -> Map<
    Seq<char>,
    Map<Seq<char>, u64>,
>
    decreases n,
{
    if n <= 0 {
        Map::empty()
    } else {
        spec_pressure_line_apply(spec_pressure_upto(lines, n - 1), lines[n - 1])
    }
}

/// The tables a pressure file denotes: one per leading word (`some`,
/// `full`), each holding the decimal values in hundredths.
pub open spec fn spec_pressure_file(s: Seq<char>) -> Map<Seq<char>, Map<Seq<char>, u64>> {
    let lines = spec_split(s, '\n');
    spec_pressure_upto(lines, lines.len() as int)
}

/// Parse a pressure file into one table per leading word, values in
/// hundredths.
pub fn parse_cgroup_pressure(contents: &str) -> (r: KvMap<KvMap<u64>>)
    ensures
        r.wf(),
        spec_inner_wf_u64(r.map_view()),
        spec_lift_u64(r.map_view()) == spec_pressure_file(contents@),
{
    let lines = split_str(contents, '\n');
    let mut m: KvMap<KvMap<u64>> = KvMap::new();
    proof {
        assert(spec_lift_u64(m.map_view()) =~= Map::<Seq<char>, Map<Seq<char>, u64>>::empty());
    }
    let n = lines.len();
    let mut i: usize = 0;
    while i < n
        invariant
            n == lines@.len(),
            i <= n,
            lines.deep_view() == spec_split(contents@, '\n'),
            m.wf(),
            spec_inner_wf_u64(m.map_view()),
            spec_lift_u64(m.map_view()) == spec_pressure_upto(lines.deep_view(), i as int),
        decreases n - i,
    {
        proof {
            assert(lines.deep_view()[i as int] == lines@[i as int]@);
        }
        let items = split_ws_str(lines[i].as_str());
        if items.len() >= 1 {
            proof {
                assert(items.deep_view()[0] == items@[0]@);
            }
            let field = items[0].clone();
            nested_touch(&mut m, field);
            apply_items(&mut m, &items, false, &items[0].clone(), NumMode::Hundredths);
        }
        i = i + 1;
    }
    m
}

/// The item a parsed pressure table gives for `key`: present iff the file
/// had such a line, each average defaulting to zero.
pub open spec fn spec_psi_item(m: Map<Seq<char>, Map<Seq<char>, u64>>, key: Seq<char>) -> Option<
    PSIItem,
> {
    if m.contains_key(key) {
        Some(
            PSIItem {
                avg10: spec_map_get_or(m[key], "avg10"@, 0),
                avg60: spec_map_get_or(m[key], "avg60"@, 0),
                avg300: spec_map_get_or(m[key], "avg300"@, 0),
                total: spec_map_get_or(m[key], "total"@, 0),
            },
        )
    } else {
        None
    }
}

/// The `some` and `full` stall averages of one pressure file.
#[derive(Clone, Copy, Debug, PartialEq, Eq, Structural)]
pub struct PressureStallInfo {
    pub some: Option<PSIItem>,
    pub full: Option<PSIItem>,
}

impl Default for PressureStallInfo {
    fn default() -> (r: Self)
        ensures
            r == PressureStallInfo::spec_new(),
    {
        PressureStallInfo::new()
    }
}

impl PressureStallInfo {
    pub open spec fn spec_new() -> PressureStallInfo {
        PressureStallInfo { some: None, full: None }
    }

    pub open spec fn spec_some(&self) -> Option<PSIItem> {
        self.some
    }

    pub open spec fn spec_full(&self) -> Option<PSIItem> {
        self.full
    }

    pub fn new() -> (r: PressureStallInfo)
        ensures
            r == PressureStallInfo::spec_new(),
    {
        PressureStallInfo { some: None, full: None }
    }

    pub fn get_some(&self) -> (r: Option<PSIItem>)
        ensures
            r == self.some,
    {
        self.some
    }

    pub fn get_full(&self) -> (r: Option<PSIItem>)
        ensures
            r == self.full,
    {
        self.full
    }

    pub fn set_some(&mut self, some: Option<PSIItem>)
        ensures
            *final(self) == (PressureStallInfo { some, ..*old(self) }),
    {
        self.some = some;
    }

    pub fn set_full(&mut self, full: Option<PSIItem>)
        ensures
            *final(self) == (PressureStallInfo { full, ..*old(self) }),
    {
        self.full = full;
    }

    /// What a pressure file denotes: the `some` and `full` items, each
    /// present iff its line is, with absent values read as zero.
    pub open spec fn spec_from_text(s: Seq<char>) -> PressureStallInfo {
        PressureStallInfo {
            some: spec_psi_item(spec_pressure_file(s), "some"@),
            full: spec_psi_item(spec_pressure_file(s), "full"@),
        }
    }

    /// Read one pressure file.
    pub fn from(input: &str) -> (r: PressureStallInfo)
        ensures
            r == PressureStallInfo::spec_from_text(input@),
    {
        let data = parse_cgroup_pressure(input);
        let some = psi_item_from(&data, "some");
        let full = psi_item_from(&data, "full");
        proof {
            reveal_strlit("some");
            reveal_strlit("full");
        }
        PressureStallInfo { some, full }
    }
}

/// Build the item for one leading word out of the parsed tables.
fn psi_item_from(data: &KvMap<KvMap<u64>>, key: &str) -> (r: Option<PSIItem>)
    requires
        data.wf(),
        spec_inner_wf_u64(data.map_view()),
    ensures
        r == spec_psi_item(spec_lift_u64(data.map_view()), key@),
{
    match data.get(key) {
        Some(table) => {
            proof {
                assert(spec_lift_u64(data.map_view()).contains_key(key@));
                assert(spec_lift_u64(data.map_view())[key@] == table.map_view());
            }
            let avg10 = get_or(table, "avg10", 0);
            let avg60 = get_or(table, "avg60", 0);
            let avg300 = get_or(table, "avg300", 0);
            let total = get_or(table, "total", 0);
            Some(PSIItem { avg10, avg60, avg300, total })
        },
        None => {
            proof {
                assert(!spec_lift_u64(data.map_view()).contains_key(key@));
            }
            None
        },
    }
}

/// The machine-wide pressure readings of the three `/proc/pressure` files.
#[derive(Clone, Copy, Debug, PartialEq, Eq, Structural)]
pub struct SystemPSI {
    pub cpu: PressureStallInfo,
    pub memory: PressureStallInfo,
    pub io: PressureStallInfo,
}

impl Default for SystemPSI {
    fn default() -> (r: Self)
        ensures
            r == SystemPSI::spec_new(),
    {
        SystemPSI::new()
    }
}

impl SystemPSI {
    pub open spec fn spec_new() -> SystemPSI {
        SystemPSI {
            cpu: PressureStallInfo::spec_new(),
            memory: PressureStallInfo::spec_new(),
            io: PressureStallInfo::spec_new(),
        }
    }

    pub fn new() -> (r: SystemPSI)
        ensures
            r == SystemPSI::spec_new(),
    {
        SystemPSI {
            cpu: PressureStallInfo::new(),
            memory: PressureStallInfo::new(),
            io: PressureStallInfo::new(),
        }
    }

    pub fn cpu(&self) -> (r: &PressureStallInfo)
        ensures
            r == &self.cpu,
    {
        &self.cpu
    }

    pub fn memory(&self) -> (r: &PressureStallInfo)
        ensures
            r == &self.memory,
    {
        &self.memory
    }

    pub fn io(&self) -> (r: &PressureStallInfo)
        ensures
            r == &self.io,
    {
        &self.io
    }

    /// Read the processor pressure file; the kernel reports no meaningful
    /// `full` line for the whole machine's CPU, so it is discarded.
    pub fn update_cpu_psi(&mut self, contents: &str)
        ensures
            *final(self) == (SystemPSI {
                cpu: PressureStallInfo {
                    some: PressureStallInfo::spec_from_text(contents@).some,
                    full: None,
                },
                ..*old(self)
            }),
    {
        let mut data = PressureStallInfo::from(contents);
        data.set_full(None);
        self.cpu = data;
    }

    /// Read the memory pressure file.
    pub fn update_memory_psi(&mut self, contents: &str)
        ensures
            *final(self) == (SystemPSI {
                memory: PressureStallInfo::spec_from_text(contents@),
                ..*old(self)
            }),
    {
        self.memory = PressureStallInfo::from(contents);
    }

    /// Read the I/O pressure file.
    pub fn update_io_psi(&mut self, contents: &str)
        ensures
            *final(self) == (SystemPSI {
                io: PressureStallInfo::spec_from_text(contents@),
                ..*old(self)
            }),
    {
        self.io = PressureStallInfo::from(contents);
    }

    /// Read whichever pressure files could be read this cycle.
    pub fn update(&mut self, cpu: Option<&str>, memory: Option<&str>, io: Option<&str>)
        ensures
            final(self).cpu == (match cpu {
                Some(c) => PressureStallInfo {
                    some: PressureStallInfo::spec_from_text(c@).some,
                    full: None,
                },
                None => old(self).cpu,
            }),
            final(self).memory == (match memory {
                Some(c) => PressureStallInfo::spec_from_text(c@),
                None => old(self).memory,
            }),
            final(self).io == (match io {
                Some(c) => PressureStallInfo::spec_from_text(c@),
                None => old(self).io,
            }),
    {
        match cpu {
            Some(c) => self.update_cpu_psi(c),
            None => {},
        }
        match memory {
            Some(c) => self.update_memory_psi(c),
            None => {},
        }
        match io {
            Some(c) => self.update_io_psi(c),
            None => {},
        }
    }
}

/// Value at `key`, or `d` when the table has no such key.
pub fn get_or(m: &KvMap<u64>, key: &str, d: u64) -> (r: u64)
    requires
        m.wf(),
    ensures
        r == spec_map_get_or(m.map_view(), key@, d),
{
    match m.get(key) {
        Some(v) => *v,
        None => d,
    }
}

} // verus!
