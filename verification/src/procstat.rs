//! Process-level readings from `/proc`: task states, the `stat` file's
//! field positions, and the system-wide running/blocked counts.

use vstd::prelude::*;

use crate::kvmap::KvMap;
use crate::text::{
    parse_u64_str, spec_parse_u64, spec_split, spec_split_ws, split_str, split_ws_str,
    str_starts_with,
};

verus! {

/// A task state code from `/proc/<pid>/stat`.
#[derive(Clone, Copy, Debug)]
pub enum ProcessStatus {
    /// uninterruptible sleep (usually IO)
    UninterruptibleSleep,
    /// idle kernel thread
    Idle,
    /// running or runnable (on run queue)
    Run,
    /// interruptible sleep
    Sleep,
    /// stopped by job control signal
    Stop,
    /// stopped by debugger during the tracing
    Tracing,
    /// paging (not valid since the 2.6.xx kernel)
    Paging,
    /// dead (should never be seen)
    Dead,
    /// zombie process, terminated but not reaped by its parent
    Zombie,
    /// unknown
    Unknown(u32),
}

impl ProcessStatus {
    /// The name each state displays as.
    pub open spec fn spec_as_str(&self) -> Seq<char> {
        match *self {
            ProcessStatus::UninterruptibleSleep => "UninterruptibleSleep"@,
            ProcessStatus::Idle => "Idle"@,
            ProcessStatus::Run => "Run"@,
            ProcessStatus::Sleep => "Sleep"@,
            ProcessStatus::Stop => "Stop"@,
            ProcessStatus::Tracing => "Tracing"@,
            ProcessStatus::Paging => "Paging"@,
            ProcessStatus::Dead => "Dead"@,
            ProcessStatus::Zombie => "Zombie"@,
            ProcessStatus::Unknown(_) => "Unknown"@,
        }
    }

    pub fn as_str(&self) -> (r: &str)
        ensures
            r@ == self.spec_as_str(),
    {
        match *self {
            ProcessStatus::UninterruptibleSleep => "UninterruptibleSleep",
            ProcessStatus::Idle => "Idle",
            ProcessStatus::Run => "Run",
            ProcessStatus::Sleep => "Sleep",
            ProcessStatus::Stop => "Stop",
            ProcessStatus::Tracing => "Tracing",
            ProcessStatus::Paging => "Paging",
            ProcessStatus::Dead => "Dead",
            ProcessStatus::Zombie => "Zombie",
            ProcessStatus::Unknown(_) => "Unknown",
        }
    }

    /// The state a code letter denotes; an unrecognised letter is kept as
    /// its code point.
    pub open spec fn spec_from_char(status: char) -> ProcessStatus {
        if status == 'D' {
            ProcessStatus::UninterruptibleSleep
        } else if status == 'I' {
            ProcessStatus::Idle
        } else if status == 'R' {
            ProcessStatus::Run
        } else if status == 'S' {
            ProcessStatus::Sleep
        } else if status == 'T' {
            ProcessStatus::Stop
        } else if status == 't' {
            ProcessStatus::Tracing
        } else if status == 'W' {
            ProcessStatus::Paging
        } else if status == 'X' {
            ProcessStatus::Dead
        } else if status == 'Z' {
            ProcessStatus::Zombie
        } else {
            ProcessStatus::Unknown(status as u32)
        }
    }

    pub fn from(status: char) -> (r: ProcessStatus)
        ensures
            r == ProcessStatus::spec_from_char(status),
    {
        match status {
            'D' => ProcessStatus::UninterruptibleSleep,
            'I' => ProcessStatus::Idle,
            'R' => ProcessStatus::Run,
            'S' => ProcessStatus::Sleep,
            'T' => ProcessStatus::Stop,
            't' => ProcessStatus::Tracing,
            'W' => ProcessStatus::Paging,
            'X' => ProcessStatus::Dead,
            'Z' => ProcessStatus::Zombie,
            x => ProcessStatus::Unknown(x as u32),
        }
    }
}

/// The columns of `/proc/<pid>/stat` this library reads.
pub enum ProcStatFileIndex {
    Pid,
    CommandLine,
    TaskState,
    ParentPid,
    ParentGroupId,
    SessionId,
    TaskFlags,
    /// UserTime (jiffies)
    UserTime,
    /// SysTime (jiffies)
    SysTime,
    StartTime,
    /// VSize (pages)
    VSize,
    /// Rss (pages)
    Rss,
}

impl ProcStatFileIndex {
    pub open spec fn spec_as_index(&self) -> usize {
        match *self {
            ProcStatFileIndex::Pid => 0usize,
            ProcStatFileIndex::CommandLine => 1usize,
            ProcStatFileIndex::TaskState => 2usize,
            ProcStatFileIndex::ParentPid => 3usize,
            ProcStatFileIndex::ParentGroupId => 4usize,
            ProcStatFileIndex::SessionId => 5usize,
            ProcStatFileIndex::TaskFlags => 8usize,
            ProcStatFileIndex::UserTime => 13usize,
            ProcStatFileIndex::SysTime => 14usize,
            ProcStatFileIndex::StartTime => 21usize,
            ProcStatFileIndex::VSize => 22usize,
            ProcStatFileIndex::Rss => 23usize,
        }
    }

    pub fn as_index(&self) -> (r: usize)
        ensures
            r == self.spec_as_index(),
    {
        match *self {
            ProcStatFileIndex::Pid => 0usize,
            ProcStatFileIndex::CommandLine => 1usize,
            ProcStatFileIndex::TaskState => 2usize,
            ProcStatFileIndex::ParentPid => 3usize,
            ProcStatFileIndex::ParentGroupId => 4usize,
            ProcStatFileIndex::SessionId => 5usize,
            ProcStatFileIndex::TaskFlags => 8usize,
            ProcStatFileIndex::UserTime => 13usize,
            ProcStatFileIndex::SysTime => 14usize,
            ProcStatFileIndex::StartTime => 21usize,
            ProcStatFileIndex::VSize => 22usize,
            ProcStatFileIndex::Rss => 23usize,
        }
    }
}

/// The `procs_` table of a `/proc/stat` file: each line that starts with
/// `procs_` and carries a numeric second token contributes its entry.
pub open spec fn spec_procs_upto(lines: Seq<Seq<char>>, n: int) -> Map<Seq<char>, u64>
    decreases n,
{
    if n <= 0 {
        Map::empty()
    } else {
        let m = spec_procs_upto(lines, n - 1);
        let line = lines[n - 1];
        let toks = spec_split_ws(line);
        if line.len() >= 6 && line.take(6) == "procs_"@ && toks.len() >= 2 && spec_parse_u64(
            toks[1],
        ) is Some {
            m.insert(toks[0], spec_parse_u64(toks[1]).unwrap())
        } else {
            m
        }
    }
}

pub open spec fn spec_procs_map(s: Seq<char>) -> Map<Seq<char>, u64> {
    let lines = spec_split(s, '\n');
    spec_procs_upto(lines, lines.len() as int)
}

/// The number of running and blocked processes reported by `/proc/stat`.
#[derive(Clone, Copy, Debug, PartialEq, Eq, Structural)]
pub struct SystemProcessStats {
    pub procs_running: Option<u64>,
    pub procs_blocked: Option<u64>,
}

impl Default for SystemProcessStats {
    fn default() -> (r: Self)
        ensures
            r == SystemProcessStats::spec_new(),
    {
        SystemProcessStats { procs_running: None, procs_blocked: None }
    }
}

impl SystemProcessStats {
    pub open spec fn spec_new() -> SystemProcessStats {
        SystemProcessStats { procs_running: None, procs_blocked: None }
    }

    /// Read the `procs_running` and `procs_blocked` lines out of
    /// `/proc/stat` text; each is present iff its line is.
    pub fn refresh(&mut self, contents: &str)
        ensures
            ({
                let m = spec_procs_map(contents@);
                &&& final(self).procs_running == (if m.contains_key("procs_running"@) {
                    Some(m["procs_running"@])
                } else {
                    None::<u64>
                })
                &&& final(self).procs_blocked == (if m.contains_key("procs_blocked"@) {
                    Some(m["procs_blocked"@])
                } else {
                    None::<u64>
                })
            }),
    {
        let lines = split_str(contents, '\n');
        let mut m: KvMap<u64> = KvMap::new();
        let n = lines.len();
        let mut i: usize = 0;
        while i < n
            invariant
                n == lines@.len(),
                i <= n,
                lines.deep_view() == spec_split(contents@, '\n'),
                m.wf(),
                m.map_view() == spec_procs_upto(lines.deep_view(), i as int),
            decreases n - i,
        {
            proof {
                assert(lines.deep_view()[i as int] == lines@[i as int]@);
                reveal_strlit("procs_");
            }
            let line = &lines[i];
            if str_starts_with(line.as_str(), "procs_") {
                let toks = split_ws_str(line.as_str());
                if toks.len() >= 2 {
                    proof {
                        assert(toks.deep_view()[0] == toks@[0]@);
                        assert(toks.deep_view()[1] == toks@[1]@);
                    }
                    match parse_u64_str(toks[1].as_str()) {
                        Some(v) => {
                            let key = toks[0].clone();
                            m.set(key, v);
                        },
                        None => {},
                    }
                }
            }
            i = i + 1;
        }
        proof {
            reveal_strlit("procs_running");
            reveal_strlit("procs_blocked");
        }
        self.procs_running = match m.get("procs_running") {
            Some(v) => Some(*v),
            None => None,
        };
        self.procs_blocked = match m.get("procs_blocked") {
            Some(v) => Some(*v),
            None => None,
        };
    }

    pub fn reset(&mut self)
        ensures
            *final(self) == SystemProcessStats::spec_new(),
    {
        *self = SystemProcessStats { procs_running: None, procs_blocked: None };
    }
}

} // verus!
