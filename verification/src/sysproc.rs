//! The table of per-processor records, fed by `/proc/stat` and
//! `/proc/schedstat` text, plus the whole-machine record of the `cpu` line.

use vstd::prelude::*;

use crate::kvmap::KvMap;
use crate::processor::{
    spec_info_wf, spec_processor_new, spec_processor_updated, spec_processor_wf,
    spec_sched_updated, spec_total_time, Processor, ProcessorInfo, ProcessorView,
};
use crate::text::{
    parse_u64_str, spec_parse_u64, spec_split, spec_split_ws, split_str, split_ws_str, str_eq_str,
    str_starts_with,
};

verus! {

/// Lift the processor table to its mathematical form.
pub open spec fn spec_proc_views(m: Map<Seq<char>, Processor>) -> Map<Seq<char>, ProcessorView> {
    Map::new(|k: Seq<char>| m.contains_key(k), |k: Seq<char>| m[k]@)
}

/// The counter sample a `cpu` line carries: ten numeric columns after the
/// name; a line with fewer or non-numeric columns carries none.
pub open spec fn spec_info_of_toks(toks: Seq<Seq<char>>) -> Option<ProcessorInfo> {
    if toks.len() >= 11 && (forall|j: int| 1 <= j < 11 ==> #[trigger] spec_parse_u64(toks[j])
        is Some) {
        Some(
            ProcessorInfo {
                user: spec_parse_u64(toks[1]).unwrap(),
                nice: spec_parse_u64(toks[2]).unwrap(),
                system: spec_parse_u64(toks[3]).unwrap(),
                idle: spec_parse_u64(toks[4]).unwrap(),
                iowait: spec_parse_u64(toks[5]).unwrap(),
                irq: spec_parse_u64(toks[6]).unwrap(),
                softirq: spec_parse_u64(toks[7]).unwrap(),
                steal: spec_parse_u64(toks[8]).unwrap(),
                guest: spec_parse_u64(toks[9]).unwrap(),
                guest_nice: spec_parse_u64(toks[10]).unwrap(),
            },
        )
    } else {
        None
    }
}

/// What one `/proc/stat` line does to the table and the whole-machine
/// record: a line called `cpu` updates the whole-machine record; a line
/// called `cpuN` updates (or creates) that processor's record; any other
/// line, and a sample whose sums would not fit, changes nothing.
pub open spec fn spec_stat_step(
    m: Map<Seq<char>, ProcessorView>,
    g: ProcessorView,
    line: Seq<char>,
) -> (Map<Seq<char>, ProcessorView>, ProcessorView) {
    if line.len() >= 3 && line.take(3) == "cpu"@ {
        let toks = spec_split_ws(line);
        match spec_info_of_toks(toks) {
            Some(info) => {
                if !spec_info_wf(info) {
                    (m, g)
                } else if toks[0] == "cpu"@ {
                    (m, spec_processor_updated(g, info))
                } else {
                    let prev = if m.contains_key(toks[0]) {
                        m[toks[0]]
                    } else {
                        spec_processor_new(toks[0])
                    };
                    (m.insert(toks[0], spec_processor_updated(prev, info)), g)
                }
            },
            None => (m, g),
        }
    } else {
        (m, g)
    }
}

pub open spec fn spec_stat_upto(
    lines: Seq<Seq<char>>,
    n: int,
    m0: Map<Seq<char>, ProcessorView>,
    g0: ProcessorView,
) -> (Map<Seq<char>, ProcessorView>, ProcessorView)
    decreases n,
{
    if n <= 0 {
        (m0, g0)
    } else {
        let prev = spec_stat_upto(lines, n - 1, m0, g0);
        spec_stat_step(prev.0, prev.1, lines[n - 1])
    }
}

/// What one `/proc/schedstat` line does to the table: a line whose first
/// token names a known processor and whose ninth column is numeric feeds
/// that processor's scheduler-wait sample; lines of unknown processors
/// change nothing.
pub open spec fn spec_sched_step(
    m: Map<Seq<char>, ProcessorView>,
    line: Seq<char>,
    now: u64,
) -> Map<Seq<char>, ProcessorView> {
    let toks = spec_split_ws(line);
    if toks.len() >= 9 && spec_parse_u64(toks[8]) is Some && m.contains_key(toks[0]) {
        m.insert(toks[0], spec_sched_updated(m[toks[0]], spec_parse_u64(toks[8]).unwrap(), now))
    } else {
        m
    }
}

/// The scheduler file is read at every second line starting from the
/// third, matching its alternating cpu/domain layout: `spec_sched_upto`
/// has applied the lines at the even indices below `i`, skipping the two
/// header lines.
pub open spec fn spec_sched_upto(
    lines: Seq<Seq<char>>,
    i: int,
    m0: Map<Seq<char>, ProcessorView>,
    now: u64,
) -> Map<Seq<char>, ProcessorView>
    decreases i,
{
    if i <= 2 {
        m0
    } else {
        spec_sched_step(spec_sched_upto(lines, i - 2, m0, now), lines[i - 2], now)
    }
}

/// The index `spec_sched_upto` stops at for a file of `n` lines: the first
/// even index at or past `n`.
pub open spec fn spec_sched_end(n: int) -> int {
    if n <= 2 {
        2
    } else if n % 2 == 0 {
        n
    } else {
        n + 1
    }
}

/// Every record in the table is well formed and sits under its own name.
pub open spec fn spec_table_wf(m: Map<Seq<char>, ProcessorView>) -> bool {
    forall|k: Seq<char>| #[trigger] m.contains_key(k) ==> spec_processor_wf(m[k]) && m[k].name == k
}

/// The per-processor records and the whole-machine record.
#[derive(Clone)]
pub struct SystemProcessorInfo {
    pub inner: KvMap<Processor>,
    pub global_processor: Processor,
}

impl SystemProcessorInfo {
    pub open spec fn wf(&self) -> bool {
        &&& self.inner.wf()
        &&& spec_table_wf(spec_proc_views(self.inner.map_view()))
        &&& spec_processor_wf(self.global_processor@)
    }

    pub open spec fn table_view(&self) -> Map<Seq<char>, ProcessorView> {
        spec_proc_views(self.inner.map_view())
    }

    /// An empty table; records appear as `/proc/stat` lines name them.
    pub fn new() -> (r: SystemProcessorInfo)
        ensures
            r.wf(),
            r.table_view() == Map::<Seq<char>, ProcessorView>::empty(),
            r.global_processor@ == spec_processor_new("cpu"@),
    {
        let r = SystemProcessorInfo {
            inner: KvMap::new(),
            global_processor: Processor::new(String::from_str("cpu")),
        };
        proof {
            assert(r.table_view() =~= Map::<Seq<char>, ProcessorView>::empty());
        }
        r
    }

    pub fn get_global_processor(&self) -> (r: &Processor)
        ensures
            *r == self.global_processor,
    {
        &self.global_processor
    }

    /// The record of the processor `name` names, if the table holds one.
    pub fn get(&self, name: &str) -> (r: Option<&Processor>)
        requires
            self.wf(),
        ensures
            match r {
                Some(p) => self.table_view().contains_key(name@) && p@ == self.table_view()[name@],
                None => !self.table_view().contains_key(name@),
            },
    {
        let r = self.inner.get(name);
        proof {
            if self.inner.map_view().contains_key(name@) {
                assert(self.table_view().contains_key(name@));
            }
        }
        r
    }

    pub fn len(&self) -> (r: usize)
        ensures
            r == self.inner.spec_len(),
    {
        self.inner.len()
    }

    /// Feed every `cpu` line of `/proc/stat` text into the table and the
    /// whole-machine record.
    #[verifier::rlimit(100)]
    pub fn refresh_processor_stat(&mut self, contents: &str)
        requires
            old(self).wf(),
        ensures
            final(self).wf(),
            ({
                let lines = spec_split(contents@, '\n');
                let expect = spec_stat_upto(
                    lines,
                    lines.len() as int,
                    old(self).table_view(),
                    old(self).global_processor@,
                );
                final(self).table_view() == expect.0 && final(self).global_processor@ == expect.1
            }),
    {
        let lines = split_str(contents, '\n');
        let n = lines.len();
        let mut i: usize = 0;
        while i < n
            invariant
                n == lines@.len(),
                i <= n,
                lines.deep_view() == spec_split(contents@, '\n'),
                self.wf(),
                ({
                    let expect = spec_stat_upto(
                        lines.deep_view(),
                        i as int,
                        old(self).table_view(),
                        old(self).global_processor@,
                    );
                    self.table_view() == expect.0 && self.global_processor@ == expect.1
                }),
            decreases n - i,
        {
            let ghost line_v = lines.deep_view()[i as int];
            let ghost expect_i = spec_stat_upto(
                lines.deep_view(),
                i as int,
                old(self).table_view(),
                old(self).global_processor@,
            );
            proof {
                assert(line_v == lines@[i as int]@);
                reveal_strlit("cpu");
            }
            let line = &lines[i];
            if str_starts_with(line.as_str(), "cpu") {
                let toks = split_ws_str(line.as_str());
                let ghost tv = toks.deep_view();
                if toks.len() >= 11 {
                    let mut vals: Vec<u64> = Vec::new();
                    let mut ok = true;
                    let mut j: usize = 1;
                    while j < 11
                        invariant
                            1 <= j <= 11,
                            toks@.len() >= 11,
                            tv == toks.deep_view(),
                            ok ==> vals@.len() == j - 1,
                            ok ==> forall|k: int|
                                1 <= k < j ==> #[trigger] spec_parse_u64(tv[k]) is Some && vals@[k
                                    - 1] == spec_parse_u64(tv[k]).unwrap(),
                            !ok ==> exists|k: int|
                                1 <= k < 11 && #[trigger] spec_parse_u64(tv[k]) is None,
                        decreases 11 - j,
                    {
                        proof {
                            assert(toks.deep_view()[j as int] == toks@[j as int]@);
                        }
                        match parse_u64_str(toks[j].as_str()) {
                            Some(v) => {
                                if ok {
                                    vals.push(v);
                                }
                            },
                            None => {
                                ok = false;
                            },
                        }
                        j = j + 1;
                    }
                    if ok {
                        proof {
                            assert(tv == spec_split_ws(line_v));
                        }
                        let info = ProcessorInfo {
                            user: vals[0],
                            nice: vals[1],
                            system: vals[2],
                            idle: vals[3],
                            iowait: vals[4],
                            irq: vals[5],
                            softirq: vals[6],
                            steal: vals[7],
                            guest: vals[8],
                            guest_nice: vals[9],
                        };
                        proof {
                            assert(spec_parse_u64(tv[1]) is Some && vals@[0] == spec_parse_u64(
                                tv[1],
                            ).unwrap());
                            assert(spec_info_of_toks(tv) is Some);
                            assert(spec_info_of_toks(tv).unwrap() =~= info);
                        }
                        let total_wide: u128 = (info.user as u128) + (info.nice as u128) + (
                        info.system as u128) + (info.irq as u128) + (info.softirq as u128) + (
                        info.steal as u128) + (info.idle as u128) + (info.iowait as u128);
                        if total_wide <= u64::MAX as u128 {
                            proof {
                                assert(spec_total_time(info) == total_wide);
                                assert(spec_info_wf(info));
                                assert(tv[0] == toks@[0]@);
                            }
                            if str_eq_str(toks[0].as_str(), "cpu") {
                                self.global_processor.update_processor_info(&info);
                                proof {
                                    assert(spec_stat_step(expect_i.0, expect_i.1, line_v) == (
                                    expect_i.0,
                                    spec_processor_updated(expect_i.1, info),
                                    ));
                                }
                            } else {
                                let name = toks[0].clone();
                                let ghost k = tv[0];
                                let ghost pre = self.inner.map_view();
                                let mut p: Processor = match self.inner.remove(name.as_str()) {
                                    Some(p) => p,
                                    None => Processor::new(name.clone()),
                                };
                                proof {
                                    if pre.contains_key(k) {
                                        assert(expect_i.0.contains_key(k));
                                        assert(p@ == expect_i.0[k]);
                                        assert(spec_processor_wf(p@));
                                        assert(p@.name == k);
                                    } else {
                                        assert(p@ == spec_processor_new(k));
                                    }
                                }
                                p.update_processor_info(&info);
                                self.inner.set(name, p);
                                proof {
                                    let ghost prev_v = if expect_i.0.contains_key(k) {
                                        expect_i.0[k]
                                    } else {
                                        spec_processor_new(k)
                                    };
                                    assert(p@ == spec_processor_updated(prev_v, info));
                                    assert(self.inner.map_view() =~= pre.remove(k).insert(k, p));
                                    assert(self.table_view() =~= expect_i.0.insert(k, p@));
                                    assert(p@.name == k);
                                }
                            }
                        } else {
                            proof {
                                assert(spec_total_time(info) == total_wide);
                                assert(!spec_info_wf(info));
                                assert(spec_stat_step(expect_i.0, expect_i.1, line_v) == (
                                expect_i.0,
                                expect_i.1,
                                ));
                            }
                        }
                    } else {
                        proof {
                            assert(spec_info_of_toks(spec_split_ws(line_v)) is None);
                        }
                    }
                } else {
                    proof {
                        assert(spec_split_ws(line_v).len() < 11);
                        assert(spec_info_of_toks(spec_split_ws(line_v)) is None);
                    }
                }
            } else {
                proof {
                    assert(!(line_v.len() >= 3 && line_v.take(3) == "cpu"@));
                }
            }
            i = i + 1;
        }
    }

    /// Feed the scheduler-wait column of `/proc/schedstat` text into the
    /// table: every second line starting with the third carries one
    /// processor's counters.
    pub fn refresh_processor_sched_wait(&mut self, contents: &str, now: u64)
        requires
            old(self).wf(),
        ensures
            final(self).wf(),
            final(self).global_processor == old(self).global_processor,
            ({
                let lines = spec_split(contents@, '\n');
                final(self).table_view() == spec_sched_upto(
                    lines,
                    spec_sched_end(lines.len() as int),
                    old(self).table_view(),
                    now,
                )
            }),
    {
        let lines = split_str(contents, '\n');
        let n = lines.len();
        if n <= 2 {
            return ;
        }
        let mut i: usize = 2;
        loop
            invariant_except_break
                n == lines@.len(),
                n > 2,
                2 <= i < n,
                i % 2 == 0,
                lines.deep_view() == spec_split(contents@, '\n'),
                self.wf(),
                self.global_processor == old(self).global_processor,
                self.table_view() == spec_sched_upto(
                    lines.deep_view(),
                    i as int,
                    old(self).table_view(),
                    now,
                ),
            ensures
                self.wf(),
                self.global_processor == old(self).global_processor,
                self.table_view() == spec_sched_upto(
                    lines.deep_view(),
                    spec_sched_end(n as int),
                    old(self).table_view(),
                    now,
                ),
            decreases n - i,
        {
            let ghost line_v = lines.deep_view()[i as int];
            let ghost pre_map = self.table_view();
            proof {
                assert(line_v == lines@[i as int]@);
            }
            let toks = split_ws_str(lines[i].as_str());
            let mut stepped = false;
            if toks.len() >= 9 {
                proof {
                    assert(toks.deep_view()[0] == toks@[0]@);
                    assert(toks.deep_view()[8] == toks@[8]@);
                }
                match parse_u64_str(toks[8].as_str()) {
                    Some(wait) => {
                        let ghost k = toks.deep_view()[0];
                        let ghost pre = self.inner.map_view();
                        match self.inner.remove(toks[0].as_str()) {
                            Some(mut p) => {
                                let ghost p0 = p@;
                                p.update_processor_sched_stat(wait, now);
                                let name = toks[0].clone();
                                self.inner.set(name, p);
                                stepped = true;
                                proof {
                                    assert(p@ == spec_sched_updated(p0, wait, now));
                                    assert(p0 == pre_map[k]);
                                    assert(self.inner.map_view() =~= pre.remove(k).insert(k, p));
                                    assert(self.table_view() =~= pre_map.insert(k, p@));
                                    assert(self.table_view() =~= spec_sched_step(
                                        pre_map,
                                        line_v,
                                        now,
                                    ));
                                    assert(p@.name == k);
                                }
                            },
                            None => {
                                proof {
                                    assert(!pre_map.contains_key(k));
                                }
                            },
                        }
                    },
                    None => {},
                }
            }
            proof {
                if !stepped {
                    assert(self.table_view() == spec_sched_step(pre_map, line_v, now));
                }
                assert(self.table_view() == spec_sched_upto(
                    lines.deep_view(),
                    i + 2,
                    old(self).table_view(),
                    now,
                ));
            }
            if n - i <= 2 {
                proof {
                    assert(i + 2 == spec_sched_end(n as int));
                }
                break ;
            }
            i = i + 2;
        }
    }

    /// Put every record, and the whole-machine record, back to its
    /// just-created state, keeping the names.
    pub fn reset(&mut self)
        requires
            old(self).wf(),
        ensures
            final(self).wf(),
            final(self).global_processor@ == spec_processor_new(old(self).global_processor@.name),
            final(self).table_view().dom() == old(self).table_view().dom(),
            forall|k: Seq<char>|
                #[trigger] old(self).table_view().contains_key(k) ==> final(self).table_view()[k]
                    == spec_processor_new(k),
    {
        self.global_processor.reset();
        proof {
            self.inner.lemma_positions();
        }
        let n = self.inner.len();
        let mut i: usize = 0;
        while i < n
            invariant
                self.inner.wf(),
                n == self.inner.spec_len(),
                i <= n,
                self.global_processor@ == spec_processor_new(old(self).global_processor@.name),
                spec_processor_wf(self.global_processor@),
                self.inner.spec_len() == old(self).inner.spec_len(),
                forall|j: int|
                    0 <= j < n ==> self.inner.key_view_at(j) == old(self).inner.key_view_at(j),
                forall|j: int|
                    0 <= j < n ==> self.table_view().contains_key(
                        #[trigger] self.inner.key_view_at(j),
                    ),
                self.table_view().dom() == old(self).table_view().dom(),
                forall|j: int|
                    0 <= j < i ==> #[trigger] self.table_view()[self.inner.key_view_at(j)]
                        == spec_processor_new(self.inner.key_view_at(j)),
                forall|j: int|
                    i <= j < n ==> #[trigger] self.table_view()[self.inner.key_view_at(j)] == old(
                        self,
                    ).table_view()[self.inner.key_view_at(j)],
                spec_table_wf(self.table_view()),
            decreases n - i,
        {
            proof {
                self.inner.lemma_positions();
            }
            let p_ref = self.inner.val_at(i);
            let ghost pv = p_ref@;
            let name = p_ref.name.clone();
            proof {
                assert(self.table_view()[self.inner.key_view_at(i as int)] == pv);
                assert(self.table_view().contains_key(self.inner.key_view_at(i as int)));
                assert(name@ == self.inner.key_view_at(i as int));
            }
            let fresh = Processor::new(name);
            let ghost before = self.table_view();
            let ghost ki = self.inner.key_view_at(i as int);
            self.inner.set_val_at(i, fresh);
            proof {
                assert(self.table_view() =~= before.insert(ki, fresh@));
                assert(self.table_view().dom() =~= before.dom());
                assert forall|j: int| i + 1 <= j < n implies #[trigger] self.table_view()[
                    self.inner.key_view_at(j)
                ] == old(self).table_view()[self.inner.key_view_at(j)] by {
                    assert(self.inner.key_view_at(j) != ki);
                }
            }
            i = i + 1;
        }
        proof {
            self.inner.lemma_positions();
            assert forall|k: Seq<char>| #[trigger] old(self).table_view().contains_key(k)
                implies self.table_view()[k] == spec_processor_new(k) by {
                assert(self.table_view().contains_key(k));
                let j = choose|j: int|
                    0 <= j < self.inner.spec_len() && self.inner.key_view_at(j) == k;
                assert(self.table_view()[self.inner.key_view_at(j)] == spec_processor_new(
                    self.inner.key_view_at(j),
                ));
            }
        }
    }
}

} // verus!
