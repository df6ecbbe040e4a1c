//! The kernel's node-list notation: `1-4,6,8-10` names the nodes
//! 1,2,3,4,6,8,9,10. The original text is kept beside the expansion.

use vstd::prelude::*;

use crate::text::{parse_u64_str, spec_parse_u64, spec_split, split_str};

verus! {

/// The nodes one comma-separated item names: a single number, or an
/// inclusive range `lo-hi`; anything else (including an empty range) names
/// none.
pub open spec fn spec_node_item(item: Seq<char>) -> Seq<u64> {
    let pieces = spec_split(item, '-');
    if pieces.len() == 1 && spec_parse_u64(pieces[0]) is Some {
        seq![spec_parse_u64(pieces[0]).unwrap()]
    } else if pieces.len() == 2 && spec_parse_u64(pieces[0]) is Some && spec_parse_u64(pieces[1])
        is Some {
        let lo = spec_parse_u64(pieces[0]).unwrap();
        let hi = spec_parse_u64(pieces[1]).unwrap();
        if lo <= hi {
            Seq::new((hi - lo + 1) as nat, |k: int| (lo + k) as u64)
        } else {
            Seq::empty()
        }
    } else {
        Seq::empty()
    }
}

pub open spec fn spec_node_list_upto(items: Seq<Seq<char>>, n: int) -> Seq<u64>
    decreases n,
{
    if n <= 0 {
        Seq::empty()
    } else {
        spec_node_list_upto(items, n - 1) + spec_node_item(items[n - 1])
    }
}

/// The nodes a whole node-list string names, in listed order.
pub open spec fn spec_node_list(s: Seq<char>) -> Seq<u64> {
    let items = spec_split(s, ',');
    spec_node_list_upto(items, items.len() as int)
}

/// A node list: the original string and its expansion.
#[derive(Clone, Debug, Default)]
pub struct NodeVec {
    pub meta: String,
    pub inner: Vec<u64>,
}

impl NodeVec {
    pub fn new() -> (r: NodeVec)
        ensures
            r.meta@.len() == 0,
            r.inner@.len() == 0,
    {
        NodeVec { meta: String::new(), inner: Vec::new() }
    }

    /// The original string the list was read from.
    pub fn meta(&self) -> (r: &String)
        ensures
            r@ == self.meta@,
    {
        &self.meta
    }

    /// Expand a node-list string; the string itself is retained as
    /// metadata.
    pub fn from(s: String) -> (r: NodeVec)
        ensures
            r.meta@ == s@,
            r.inner@ == spec_node_list(s@),
    {
        let items = split_str(s.as_str(), ',');
        let n = items.len();
        let mut inner: Vec<u64> = Vec::new();
        let mut i: usize = 0;
        proof {
            assert(inner@ =~= spec_node_list_upto(items.deep_view(), 0));
        }
        while i < n
            invariant
                n == items@.len(),
                i <= n,
                items.deep_view() == spec_split(s@, ','),
                inner@ == spec_node_list_upto(items.deep_view(), i as int),
            decreases n - i,
        {
            proof {
                assert(items.deep_view()[i as int] == items@[i as int]@);
            }
            let pieces = split_str(items[i].as_str(), '-');
            if pieces.len() == 1 {
                proof {
                    assert(pieces.deep_view()[0] == pieces@[0]@);
                }
                match parse_u64_str(pieces[0].as_str()) {
                    Some(v) => {
                        inner.push(v);
                        proof {
                            assert(inner@ =~= spec_node_list_upto(items.deep_view(), i + 1));
                        }
                    },
                    None => {
                        proof {
                            assert(spec_node_item(items.deep_view()[i as int]) =~= Seq::<
                                u64,
                            >::empty());
                            assert(inner@ =~= spec_node_list_upto(items.deep_view(), i + 1));
                        }
                    },
                }
            } else if pieces.len() == 2 {
                proof {
                    assert(pieces.deep_view()[0] == pieces@[0]@);
                    assert(pieces.deep_view()[1] == pieces@[1]@);
                }
                match (parse_u64_str(pieces[0].as_str()), parse_u64_str(pieces[1].as_str())) {
                    (Some(lo), Some(hi)) => {
                        if lo <= hi {
                            let ghost seg = spec_node_item(items.deep_view()[i as int]);
                            let ghost before = inner@;
                            let mut cur = lo;
                            while cur < hi
                                invariant
                                    lo <= cur <= hi,
                                    seg == Seq::new(
                                        (hi - lo + 1) as nat,
                                        |k: int| (lo + k) as u64,
                                    ),
                                    inner@ == before + seg.take((cur - lo) as int),
                                decreases hi - cur,
                            {
                                inner.push(cur);
                                proof {
                                    assert(seg[(cur - lo) as int] == cur);
                                    assert(seg.take((cur - lo) + 1) =~= seg.take(
                                        (cur - lo) as int,
                                    ).push(cur));
                                }
                                cur = cur + 1;
                            }
                            inner.push(hi);
                            proof {
                                assert(seg[(hi - lo) as int] == hi);
                                assert(seg.take((hi - lo) + 1) =~= seg.take(
                                    (hi - lo) as int,
                                ).push(hi));
                                assert(seg.take((hi - lo) + 1) =~= seg);
                                assert(inner@ =~= spec_node_list_upto(items.deep_view(), i + 1));
                            }
                        } else {
                            proof {
                                assert(spec_node_item(items.deep_view()[i as int]) =~= Seq::<
                                    u64,
                                >::empty());
                                assert(inner@ =~= spec_node_list_upto(items.deep_view(), i + 1));
                            }
                        }
                    },
                    _ => {
                        proof {
                            assert(spec_node_item(items.deep_view()[i as int]) =~= Seq::<
                                u64,
                            >::empty());
                            assert(inner@ =~= spec_node_list_upto(items.deep_view(), i + 1));
                        }
                    },
                }
            } else {
                proof {
                    assert(spec_node_item(items.deep_view()[i as int]) =~= Seq::<u64>::empty());
                    assert(inner@ =~= spec_node_list_upto(items.deep_view(), i + 1));
                }
            }
            i = i + 1;
        }
        NodeVec { meta: s, inner }
    }

    pub fn len(&self) -> (r: usize)
        ensures
            r == self.inner@.len(),
    {
        self.inner.len()
    }

    /// The node at position `i` of the expansion.
    pub fn node_at(&self, i: usize) -> (r: u64)
        requires
            i < self.inner@.len(),
        ensures
            r == self.inner@[i as int],
    {
        self.inner[i]
    }
}

/// Expanding a node-list string keeps the string: the metadata of the
/// expansion is the input itself, and the expansion is exactly the listed
/// nodes.
pub proof fn lemma_node_vec_round_trip(r: NodeVec, s: String)
    requires
        r.meta@ == s@,
        r.inner@ == spec_node_list(s@),
    ensures
        r.meta@ == s@ && r.inner@ == spec_node_list(r.meta@),
{
}

} // verus!
