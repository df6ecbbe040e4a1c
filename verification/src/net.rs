//! Network counters: the paired header/value tables of `snmp` and
//! `netstat`, per-device traffic counters, and the TCP retransmit ratio.

use vstd::prelude::*;

use crate::kvmap::KvMap;
use crate::rate::{counter_delta, ratio_per_billion, spec_counter_delta, spec_ratio_per_billion};
use crate::text::{
    parse_u64_str, spec_parse_u64, spec_split, spec_split_ws, split_str, split_ws_str,
};

verus! {

/// Lift a parsed two-level string table to its mathematical form.
pub open spec fn spec_str_vals(m: Map<Seq<char>, String>) -> Map<Seq<char>, Seq<char>> {
    Map::new(|k: Seq<char>| m.contains_key(k), |k: Seq<char>| m[k]@)
}

pub open spec fn spec_lift_str(m: Map<Seq<char>, KvMap<String>>) -> Map<
    Seq<char>,
    Map<Seq<char>, Seq<char>>,
> {
    Map::new(|k: Seq<char>| m.contains_key(k), |k: Seq<char>| spec_str_vals(m[k].map_view()))
}

pub open spec fn spec_inner_wf_str(m: Map<Seq<char>, KvMap<String>>) -> bool {
    forall|k: Seq<char>| #[trigger] m.contains_key(k) ==> m[k].wf()
}

/// The table of one header/value line pair: the header's tokens after the
/// first, matched positionally with the value line's tokens after the
/// first; the shorter line cuts the pairing off.
pub open spec fn spec_net_kv_upto(ta: Seq<Seq<char>>, tb: Seq<Seq<char>>, j: int) -> Map<
    Seq<char>,
    Seq<char>,
>
    decreases j,
{
    if j <= 1 {
        Map::empty()
    } else {
        spec_net_kv_upto(ta, tb, j - 1).insert(ta[j - 1], tb[j - 1])
    }
}

/// Apply one line pair: the section name is the header's first token with
/// its trailing character (the colon) removed; a pair whose header line has
/// no tokens is skipped.
pub open spec fn spec_net_pair_apply(
    m: Map<Seq<char>, Map<Seq<char>, Seq<char>>>,
    a: Seq<char>,
    b: Seq<char>,
) -> Map<Seq<char>, Map<Seq<char>, Seq<char>>> {
    let ta = spec_split_ws(a);
    let tb = spec_split_ws(b);
    if ta.len() >= 1 {
        let key = if ta[0].len() > 0 {
            ta[0].drop_last()
        } else {
            Seq::<char>::empty()
        };
        let bound = if ta.len() <= tb.len() {
            ta.len() as int
        } else {
            tb.len() as int
        };
        m.insert(key, spec_net_kv_upto(ta, tb, bound))
    } else {
        m
    }
}

pub open spec fn spec_net_file_upto(lines: Seq<Seq<char>>, p: int) -> Map<
    Seq<char>,
    Map<Seq<char>, Seq<char>>,
>
    decreases p,
{
    if p <= 0 {
        Map::empty()
    } else {
        spec_net_pair_apply(
            spec_net_file_upto(lines, p - 1),
            lines[2 * (p - 1)],
            lines[2 * (p - 1) + 1],
        )
    }
}

/// The sections of a `/proc/net/snmp`-style file: consecutive line pairs,
/// each a header line and a value line; a trailing unpaired line is
/// ignored.
pub open spec fn spec_net_file(s: Seq<char>) -> Map<Seq<char>, Map<Seq<char>, Seq<char>>> {
    let lines = spec_split(s, '\n');
    spec_net_file_upto(lines, lines.len() as int / 2)
}

/// Parse a paired header/value table file such as `/proc/net/snmp` or
/// `/proc/net/netstat`.
pub fn parse_net_file(contents: &str) -> (r: KvMap<KvMap<String>>)
    ensures
        r.wf(),
        spec_inner_wf_str(r.map_view()),
        spec_lift_str(r.map_view()) == spec_net_file(contents@),
{
    let lines = split_str(contents, '\n');
    let mut m: KvMap<KvMap<String>> = KvMap::new();
    proof {
        assert(spec_lift_str(m.map_view()) =~= Map::<
            Seq<char>,
            Map<Seq<char>, Seq<char>>,
        >::empty());
    }
    let n = lines.len();
    let total_pairs = n / 2;
    let mut p: usize = 0;
    while p < total_pairs
        invariant
            n == lines@.len(),
            total_pairs == n / 2,
            p <= total_pairs,
            lines.deep_view() == spec_split(contents@, '\n'),
            m.wf(),
            spec_inner_wf_str(m.map_view()),
            spec_lift_str(m.map_view()) == spec_net_file_upto(lines.deep_view(), p as int),
        decreases total_pairs - p,
    {
        proof {
            assert(lines.deep_view()[2 * p as int] == lines@[2 * p as int]@);
            assert(lines.deep_view()[2 * p as int + 1] == lines@[2 * p as int + 1]@);
        }
        let ta = split_ws_str(lines[2 * p].as_str());
        let tb = split_ws_str(lines[2 * p + 1].as_str());
        if ta.len() >= 1 {
            proof {
                assert(ta.deep_view()[0] == ta@[0]@);
            }
            let head = &ta[0];
            let hl = head.as_str().unicode_len();
            let key: String = if hl > 0 {
                String::from_str(head.as_str().substring_char(0, hl - 1))
            } else {
                String::new()
            };
            proof {
                if hl > 0 {
                    assert(head@.subrange(0, hl - 1) =~= head@.drop_last());
                }
            }
            let bound = if ta.len() <= tb.len() {
                ta.len()
            } else {
                tb.len()
            };
            let mut inner: KvMap<String> = KvMap::new();
            proof {
                assert(spec_str_vals(inner.map_view()) =~= Map::<Seq<char>, Seq<char>>::empty());
            }
            let mut j: usize = 1;
            while j < bound
                invariant
                    1 <= j <= bound || (bound <= 1 && j == 1),
                    bound <= ta@.len(),
                    bound <= tb@.len(),
                    inner.wf(),
                    spec_str_vals(inner.map_view()) == spec_net_kv_upto(
                        ta.deep_view(),
                        tb.deep_view(),
                        j as int,
                    ),
                decreases bound - j,
            {
                proof {
                    assert(ta.deep_view()[j as int] == ta@[j as int]@);
                    assert(tb.deep_view()[j as int] == tb@[j as int]@);
                }
                let k = ta[j].clone();
                let v = tb[j].clone();
                let ghost before = spec_str_vals(inner.map_view());
                inner.set(k, v);
                proof {
                    assert(spec_str_vals(inner.map_view()) =~= before.insert(
                        ta.deep_view()[j as int],
                        tb.deep_view()[j as int],
                    ));
                }
                j = j + 1;
            }
            let ghost before_outer = spec_lift_str(m.map_view());
            let ghost inner_view = spec_str_vals(inner.map_view());
            m.set(key, inner);
            proof {
                assert(spec_lift_str(m.map_view()) =~= before_outer.insert(key@, inner_view));
            }
        }
        p = p + 1;
    }
    m
}

/// The number a section gives for `key`: its value token parsed as a
/// decimal, and zero when the section, the key or the number is missing.
pub open spec fn spec_net_u64(
    m: Map<Seq<char>, Map<Seq<char>, Seq<char>>>,
    section: Seq<char>,
    key: Seq<char>,
) -> u64 {
    if m.contains_key(section) && m[section].contains_key(key) && spec_parse_u64(
        m[section][key],
    ) is Some {
        spec_parse_u64(m[section][key]).unwrap()
    } else {
        0
    }
}

/// Fetch and parse one counter out of a parsed net table.
fn net_u64(m: &KvMap<KvMap<String>>, section: &str, key: &str) -> (r: u64)
    requires
        m.wf(),
        spec_inner_wf_str(m.map_view()),
    ensures
        r == spec_net_u64(spec_lift_str(m.map_view()), section@, key@),
{
    match m.get(section) {
        Some(inner) => {
            proof {
                assert(spec_lift_str(m.map_view())[section@] == spec_str_vals(inner.map_view()));
            }
            match inner.get(key) {
                Some(v) => {
                    match parse_u64_str(v.as_str()) {
                        Some(x) => x,
                        None => 0,
                    }
                },
                None => 0,
            }
        },
        None => 0,
    }
}

/// System-wide TCP counters and the derived retransmit ratio.
#[derive(Clone, Copy, Debug, PartialEq, Eq, Structural)]
pub struct NetInfo {
    pub tcp_delay_acks: u64,
    pub tcp_listen_overflows: u64,
    pub tcp_listen_drops: u64,
    pub tcp_abort_on_memory: u64,
    pub tcp_req_q_full_drop: u64,
    /// Retransmitted share of sent segments, in parts per billion.
    pub tcp_retran_per_billion: u64,
    pub tcp_retrans_segs: u64,
    pub tcp_old_retrans_segs: u64,
    pub tcp_out_segs: u64,
    pub tcp_old_out_segs: u64,
    pub tcp_close_wait: u64,
    pub update_time: u64,
}

impl Default for NetInfo {
    fn default() -> (r: Self)
        ensures
            r == NetInfo::spec_new(),
    {
        NetInfo::new()
    }
}

impl NetInfo {
    pub open spec fn spec_new() -> NetInfo {
        NetInfo {
            tcp_delay_acks: 0,
            tcp_listen_overflows: 0,
            tcp_listen_drops: 0,
            tcp_abort_on_memory: 0,
            tcp_req_q_full_drop: 0,
            tcp_retran_per_billion: 0,
            tcp_retrans_segs: 0,
            tcp_old_retrans_segs: 0,
            tcp_out_segs: 0,
            tcp_old_out_segs: 0,
            tcp_close_wait: 0,
            update_time: 0,
        }
    }

    pub fn new() -> (r: NetInfo)
        ensures
            r == NetInfo::spec_new(),
    {
        NetInfo {
            tcp_delay_acks: 0,
            tcp_listen_overflows: 0,
            tcp_listen_drops: 0,
            tcp_abort_on_memory: 0,
            tcp_req_q_full_drop: 0,
            tcp_retran_per_billion: 0,
            tcp_retrans_segs: 0,
            tcp_old_retrans_segs: 0,
            tcp_out_segs: 0,
            tcp_old_out_segs: 0,
            tcp_close_wait: 0,
            update_time: 0,
        }
    }

    /// Read the `TcpExt` section of `/proc/net/netstat` text: each drop and
    /// overflow counter takes the value the file gives, zero when missing.
    pub fn refresh_netstat_data(&mut self, contents: &str)
        ensures
            ({
                let t = spec_net_file(contents@);
                *final(self) == (NetInfo {
                    tcp_delay_acks: spec_net_u64(t, "TcpExt"@, "DelayedACKs"@),
                    tcp_listen_overflows: spec_net_u64(t, "TcpExt"@, "ListenOverflows"@),
                    tcp_listen_drops: spec_net_u64(t, "TcpExt"@, "ListenDrops"@),
                    tcp_abort_on_memory: spec_net_u64(t, "TcpExt"@, "TCPAbortOnMemory"@),
                    tcp_req_q_full_drop: spec_net_u64(t, "TcpExt"@, "TCPReqQFullDrop"@),
                    ..*old(self)
                })
            }),
    {
        let m = parse_net_file(contents);
        self.tcp_delay_acks = net_u64(&m, "TcpExt", "DelayedACKs");
        self.tcp_listen_overflows = net_u64(&m, "TcpExt", "ListenOverflows");
        self.tcp_listen_drops = net_u64(&m, "TcpExt", "ListenDrops");
        self.tcp_abort_on_memory = net_u64(&m, "TcpExt", "TCPAbortOnMemory");
        self.tcp_req_q_full_drop = net_u64(&m, "TcpExt", "TCPReqQFullDrop");
    }

    /// Read the `Tcp` section of `/proc/net/snmp` text: the previous
    /// segment counters are kept, the new ones are taken from the file, and
    /// the retransmit ratio is the delta of retransmitted segments over the
    /// delta of sent segments, in parts per billion. On the first sample
    /// the previous counters are zero, so the ratio uses the raw values.
    pub fn refresh_snmp_data(&mut self, contents: &str)
        ensures
            ({
                let t = spec_net_file(contents@);
                let out_segs = spec_net_u64(t, "Tcp"@, "OutSegs"@);
                let retrans = spec_net_u64(t, "Tcp"@, "RetransSegs"@);
                *final(self) == (NetInfo {
                    tcp_old_out_segs: old(self).tcp_out_segs,
                    tcp_old_retrans_segs: old(self).tcp_retrans_segs,
                    tcp_out_segs: out_segs,
                    tcp_retrans_segs: retrans,
                    tcp_retran_per_billion: spec_ratio_per_billion(
                        spec_counter_delta(old(self).tcp_retrans_segs, retrans) as u64,
                        spec_counter_delta(old(self).tcp_out_segs, out_segs) as u64,
                    ) as u64,
                    ..*old(self)
                })
            }),
    {
        let m = parse_net_file(contents);
        self.tcp_old_out_segs = self.tcp_out_segs;
        self.tcp_old_retrans_segs = self.tcp_retrans_segs;
        self.tcp_out_segs = net_u64(&m, "Tcp", "OutSegs");
        self.tcp_retrans_segs = net_u64(&m, "Tcp", "RetransSegs");
        let d_retrans = counter_delta(self.tcp_old_retrans_segs, self.tcp_retrans_segs);
        let d_out = counter_delta(self.tcp_old_out_segs, self.tcp_out_segs);
        self.tcp_retran_per_billion = ratio_per_billion(d_retrans, d_out);
    }

    /// Count the sockets in close-wait state in `/proc/net/tcp` text: the
    /// lines whose fourth token is the close-wait state code.
    pub fn refresh_tcp_close_wait(&mut self, contents: &str)
        ensures
            *final(self) == (NetInfo {
                tcp_close_wait: spec_close_wait_count(
                    spec_split(contents@, '\n'),
                    spec_split(contents@, '\n').len() as int,
                ) as u64,
                ..*old(self)
            }),
    {
        let lines = split_str(contents, '\n');
        let n = lines.len();
        let mut count: u64 = 0;
        let mut i: usize = 0;
        while i < n
            invariant
                n == lines@.len(),
                i <= n,
                lines.deep_view() == spec_split(contents@, '\n'),
                count == spec_close_wait_count(lines.deep_view(), i as int),
                count <= i,
            decreases n - i,
        {
            proof {
                assert(lines.deep_view()[i as int] == lines@[i as int]@);
            }
            let toks = split_ws_str(lines[i].as_str());
            if toks.len() >= 4 {
                proof {
                    assert(toks.deep_view()[3] == toks@[3]@);
                    reveal_strlit("08");
                }
                if crate::text::str_eq_str(toks[3].as_str(), "08") {
                    count = count + 1;
                }
            }
            i = i + 1;
        }
        self.tcp_close_wait = count;
    }

    pub fn reset(&mut self)
        ensures
            *final(self) == NetInfo::spec_new(),
    {
        *self = NetInfo::new();
    }
}

/// How many of the first `n` lines report the close-wait state: those with
/// at least four tokens whose fourth is `08`.
pub open spec fn spec_close_wait_count(lines: Seq<Seq<char>>, n: int) -> int
    decreases n,
{
    if n <= 0 {
        0
    } else {
        spec_close_wait_count(lines, n - 1) + ({
            let toks = spec_split_ws(lines[n - 1]);
            if toks.len() >= 4 && toks[3] == "08"@ {
                1int
            } else {
                0int
            }
        })
    }
}

} // verus!
