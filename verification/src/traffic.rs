//! Per-network-card traffic counters from `/proc/net/dev` text.

use vstd::prelude::*;

use crate::text::{parse_u64_str, spec_parse_u64, spec_split, spec_split_ws, split_str,
    split_ws_str};

verus! {

/// One card's counters, in file order.
#[derive(Clone, Debug)]
pub struct NetworkCardTraffic {
    pub name: String,
    pub receive_bytes: u64,
    pub receive_packets: u64,
    pub receive_errs: u64,
    pub receive_drop: u64,
    pub receive_fifo: u64,
    pub receive_frame: u64,
    pub receive_compressed: u64,
    pub receive_multicast: u64,
    pub transmit_bytes: u64,
    pub transmit_packets: u64,
    pub transmit_errs: u64,
    pub transmit_drop: u64,
    pub transmit_fifo: u64,
    pub transmit_colls: u64,
    pub transmit_carrier: u64,
    pub transmit_compressed: u64,
}

/// The mathematical value of one card's line.
#[verifier::ext_equal]
pub struct NetworkCardTrafficView {
    pub name: Seq<char>,
    pub receive_bytes: u64,
    pub receive_packets: u64,
    pub receive_errs: u64,
    pub receive_drop: u64,
    pub receive_fifo: u64,
    pub receive_frame: u64,
    pub receive_compressed: u64,
    pub receive_multicast: u64,
    pub transmit_bytes: u64,
    pub transmit_packets: u64,
    pub transmit_errs: u64,
    pub transmit_drop: u64,
    pub transmit_fifo: u64,
    pub transmit_colls: u64,
    pub transmit_carrier: u64,
    pub transmit_compressed: u64,
}

impl View for NetworkCardTraffic {
    type V = NetworkCardTrafficView;

    open spec fn view(&self) -> NetworkCardTrafficView {
        NetworkCardTrafficView {
            name: self.name@,
            receive_bytes: self.receive_bytes,
            receive_packets: self.receive_packets,
            receive_errs: self.receive_errs,
            receive_drop: self.receive_drop,
            receive_fifo: self.receive_fifo,
            receive_frame: self.receive_frame,
            receive_compressed: self.receive_compressed,
            receive_multicast: self.receive_multicast,
            transmit_bytes: self.transmit_bytes,
            transmit_packets: self.transmit_packets,
            transmit_errs: self.transmit_errs,
            transmit_drop: self.transmit_drop,
            transmit_fifo: self.transmit_fifo,
            transmit_colls: self.transmit_colls,
            transmit_carrier: self.transmit_carrier,
            transmit_compressed: self.transmit_compressed,
        }
    }
}

/// What one device line denotes: the card name (the first token without its
/// trailing colon) and sixteen counters; a line with missing or non-numeric
/// fields denotes nothing.
pub open spec fn spec_parse_card(line: Seq<char>) -> Option<NetworkCardTrafficView> {
    let toks = spec_split_ws(line);
    if toks.len() >= 17 && (forall|j: int| 1 <= j < 17 ==> #[trigger] spec_parse_u64(toks[j])
        is Some) {
        Some(
            NetworkCardTrafficView {
                name: if toks[0].len() > 0 {
                    toks[0].drop_last()
                } else {
                    Seq::empty()
                },
                receive_bytes: spec_parse_u64(toks[1]).unwrap(),
                receive_packets: spec_parse_u64(toks[2]).unwrap(),
                receive_errs: spec_parse_u64(toks[3]).unwrap(),
                receive_drop: spec_parse_u64(toks[4]).unwrap(),
                receive_fifo: spec_parse_u64(toks[5]).unwrap(),
                receive_frame: spec_parse_u64(toks[6]).unwrap(),
                receive_compressed: spec_parse_u64(toks[7]).unwrap(),
                receive_multicast: spec_parse_u64(toks[8]).unwrap(),
                transmit_bytes: spec_parse_u64(toks[9]).unwrap(),
                transmit_packets: spec_parse_u64(toks[10]).unwrap(),
                transmit_errs: spec_parse_u64(toks[11]).unwrap(),
                transmit_drop: spec_parse_u64(toks[12]).unwrap(),
                transmit_fifo: spec_parse_u64(toks[13]).unwrap(),
                transmit_colls: spec_parse_u64(toks[14]).unwrap(),
                transmit_carrier: spec_parse_u64(toks[15]).unwrap(),
                transmit_compressed: spec_parse_u64(toks[16]).unwrap(),
            },
        )
    } else {
        None
    }
}

/// The cards of the first `n` lines, the two header lines skipped.
pub open spec fn spec_cards_upto(lines: Seq<Seq<char>>, n: int) -> Seq<NetworkCardTrafficView>
    decreases n,
{
    if n <= 2 {
        Seq::empty()
    } else {
        match spec_parse_card(lines[n - 1]) {
            Some(c) => spec_cards_upto(lines, n - 1).push(c),
            None => spec_cards_upto(lines, n - 1),
        }
    }
}

/// The cards a `/proc/net/dev` file denotes.
pub open spec fn spec_traffic_cards(s: Seq<char>) -> Seq<NetworkCardTrafficView> {
    let lines = spec_split(s, '\n');
    spec_cards_upto(lines, lines.len() as int)
}

pub open spec fn spec_views_of(v: Seq<NetworkCardTraffic>) -> Seq<NetworkCardTrafficView> {
    v.map_values(|c: NetworkCardTraffic| c@)
}

/// The traffic counters of every card, as of the last refresh.
#[derive(Clone, Debug)]
pub struct Traffic {
    pub inner: Vec<NetworkCardTraffic>,
    pub update_time: u64,
}

impl Default for Traffic {
    fn default() -> (r: Self)
        ensures
            r.inner@.len() == 0,
            r.update_time == 0,
    {
        Traffic::new()
    }
}

impl Traffic {
    pub fn new() -> (r: Traffic)
        ensures
            r.inner@.len() == 0,
            r.update_time == 0,
    {
        Traffic { inner: Vec::new(), update_time: 0 }
    }

    /// Replace the cards with those the device file text denotes and record
    /// the sample time.
    pub fn refresh(&mut self, contents: &str, now: u64)
        ensures
            spec_views_of(final(self).inner@) == spec_traffic_cards(contents@),
            final(self).update_time == now,
    {
        let lines = split_str(contents, '\n');
        let n = lines.len();
        let mut cards: Vec<NetworkCardTraffic> = Vec::new();
        proof {
            assert(spec_views_of(cards@) =~= spec_cards_upto(lines.deep_view(), 2));
        }
        let mut i: usize = 2;
        if n < 2 {
            i = n;
            proof {
                assert(spec_cards_upto(lines.deep_view(), lines.deep_view().len() as int)
                    =~= Seq::<NetworkCardTrafficView>::empty());
            }
        }
        while i < n
            invariant
                n == lines@.len(),
                2 <= i <= n || (i == n && n < 2),
                lines.deep_view() == spec_split(contents@, '\n'),
                spec_views_of(cards@) == spec_cards_upto(lines.deep_view(), i as int),
            decreases n - i,
        {
            proof {
                assert(lines.deep_view()[i as int] == lines@[i as int]@);
            }
            let toks = split_ws_str(lines[i].as_str());
            if toks.len() >= 17 {
                let mut vals: Vec<u64> = Vec::new();
                let mut ok = true;
                let mut j: usize = 1;
                while j < 17
                    invariant
                        1 <= j <= 17,
                        toks@.len() >= 17,
                        ok ==> vals@.len() == j - 1,
                        ok ==> forall|k: int|
                            1 <= k < j ==> #[trigger] spec_parse_u64(toks.deep_view()[k]) is Some
                                && vals@[k - 1] == spec_parse_u64(toks.deep_view()[k]).unwrap(),
                        !ok ==> exists|k: int|
                            1 <= k < 17 && #[trigger] spec_parse_u64(toks.deep_view()[k]) is None,
                    decreases 17 - j,
                {
                    proof {
                        assert(toks.deep_view()[j as int] == toks@[j as int]@);
                    }
                    match parse_u64_str(toks[j].as_str()) {
                        Some(v) => {
                            if ok {
                                vals.push(v);
                            }
                        },
                        None => {
                            ok = false;
                        },
                    }
                    j = j + 1;
                }
                if ok {
                    proof {
                        assert(toks.deep_view()[0] == toks@[0]@);
                        assert(toks.deep_view() == spec_split_ws(lines.deep_view()[i as int]));
                        assert forall|jj: int| 1 <= jj < 17 implies #[trigger] spec_parse_u64(
                            spec_split_ws(lines.deep_view()[i as int])[jj],
                        ) is Some by {
                            assert(spec_parse_u64(toks.deep_view()[jj]) is Some);
                        }
                    }
                    let head = &toks[0];
                    let hl = head.as_str().unicode_len();
                    let name: String = if hl > 0 {
                        String::from_str(head.as_str().substring_char(0, hl - 1))
                    } else {
                        String::new()
                    };
                    proof {
                        if hl > 0 {
                            assert(head@.subrange(0, hl - 1) =~= head@.drop_last());
                        }
                    }
                    let card = NetworkCardTraffic {
                        name,
                        receive_bytes: vals[0],
                        receive_packets: vals[1],
                        receive_errs: vals[2],
                        receive_drop: vals[3],
                        receive_fifo: vals[4],
                        receive_frame: vals[5],
                        receive_compressed: vals[6],
                        receive_multicast: vals[7],
                        transmit_bytes: vals[8],
                        transmit_packets: vals[9],
                        transmit_errs: vals[10],
                        transmit_drop: vals[11],
                        transmit_fifo: vals[12],
                        transmit_colls: vals[13],
                        transmit_carrier: vals[14],
                        transmit_compressed: vals[15],
                    };
                    let ghost before = spec_views_of(cards@);
                    cards.push(card);
                    proof {
                        assert(spec_views_of(cards@) =~= before.push(card@));
                        let tv = toks.deep_view();
                        assert(spec_parse_u64(tv[1]) is Some && vals@[0] == spec_parse_u64(
                            tv[1],
                        ).unwrap());
                        assert(card@ =~= spec_parse_card(lines.deep_view()[i as int]).unwrap());
                    }
                } else {
                    proof {
                        assert(spec_parse_card(lines.deep_view()[i as int]) is None);
                    }
                }
            } else {
                proof {
                    assert(spec_split_ws(lines.deep_view()[i as int]).len() < 17);
                }
            }
            i = i + 1;
        }
        self.inner = cards;
        self.update_time = now;
    }

    /// How many cards the last refresh found.
    pub fn len(&self) -> (r: usize)
        ensures
            r == self.inner@.len(),
    {
        self.inner.len()
    }

    /// The card at position `i`, in file order.
    pub fn card_at(&self, i: usize) -> (r: &NetworkCardTraffic)
        requires
            i < self.inner@.len(),
        ensures
            *r == self.inner@[i as int],
    {
        &self.inner[i]
    }

    pub fn reset(&mut self)
        ensures
            final(self).inner@.len() == 0,
            final(self).update_time == 0,
    {
        *self = Traffic::new();
    }
}

} // verus!
