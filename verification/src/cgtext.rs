//! Parsers for the per-cgroup accounting files: flat `key value` tables,
//! `key=value` item lines, and the two nested device/node layouts.

use vstd::prelude::*;

use crate::kvmap::KvMap;
use crate::text::{
    parse_u64_str, spec_all_digits, spec_digits_val, spec_parse_u64, spec_split, spec_split_ws,
    split_str, split_ws_str, str_eq_str,
};

verus! {

/// What one `key value` line contributes: the first two whitespace
/// separated tokens when the second is a number, the empty key and zero
/// otherwise.
pub open spec fn spec_kv_line(line: Seq<char>) -> (Seq<char>, u64) {
    let toks = spec_split_ws(line);
    if toks.len() >= 2 && spec_parse_u64(toks[1]) is Some {
        (toks[0], spec_parse_u64(toks[1]).unwrap())
    } else {
        (Seq::empty(), 0)
    }
}

pub open spec fn spec_cgroup_file_upto(lines: Seq<Seq<char>>, n: int) -> Map<Seq<char>, u64>
    decreases n,
{
    if n <= 0 {
        Map::empty()
    } else {
        spec_cgroup_file_upto(lines, n - 1).insert(
            spec_kv_line(lines[n - 1]).0,
            spec_kv_line(lines[n - 1]).1,
        )
    }
}

/// The table a flat `key value` cgroup file denotes: each line contributes
/// its entry in order, later lines overriding earlier ones.
pub open spec fn spec_cgroup_file(s: Seq<char>) -> Map<Seq<char>, u64> {
    let lines = spec_split(s, '\n');
    spec_cgroup_file_upto(lines, lines.len() as int)
}

/// Parse a flat `key value` file, such as `memory.stat` or `cpu.stat`.
/// A line without a numeric value contributes the empty key with value zero.
pub fn parse_cgroup_file(contents: &str) -> (r: KvMap<u64>)
    ensures
        r.wf(),
        r.map_view() == spec_cgroup_file(contents@),
{
    let lines = split_str(contents, '\n');
    let mut m: KvMap<u64> = KvMap::new();
    let n = lines.len();
    let mut i: usize = 0;
    while i < n
        invariant
            n == lines@.len(),
            i <= n,
            lines.deep_view() == spec_split(contents@, '\n'),
            m.wf(),
            m.map_view() == spec_cgroup_file_upto(lines.deep_view(), i as int),
        decreases n - i,
    {
        proof {
            assert(lines.deep_view()[i as int] == lines@[i as int]@);
        }
        let toks = split_ws_str(lines[i].as_str());
        let mut inserted = false;
        if toks.len() >= 2 {
            proof {
                assert(toks.deep_view()[0] == toks@[0]@);
                assert(toks.deep_view()[1] == toks@[1]@);
            }
            match parse_u64_str(toks[1].as_str()) {
                Some(v) => {
                    let key = toks[0].clone();
                    m.set(key, v);
                    inserted = true;
                },
                None => {},
            }
        }
        if !inserted {
            m.set(String::new(), 0);
        }
        i = i + 1;
    }
    m
}

/// A single-value cgroup file line: the literal `max` stands for the
/// largest representable value, otherwise the line must be a number.
pub open spec fn spec_cgroup_value(line: Seq<char>) -> Option<u64> {
    if line =~= "max"@ {
        Some(u64::MAX)
    } else {
        spec_parse_u64(line)
    }
}

/// How the value token of a `key=value` item is read.
#[derive(Clone, Copy)]
pub enum NumMode {
    /// A plain decimal number.
    Plain,
    /// A decimal number, or the word `max` for the largest value.
    MaxWord,
    /// A decimal with up to two fraction digits, in hundredths.
    Hundredths,
}

/// A decimal with an optional fraction of one or two digits, as a count of
/// hundredths: `1.23` is 123, `7` is 700.
pub open spec fn spec_parse_hundredths(s: Seq<char>) -> Option<u64> {
    let parts = spec_split(s, '.');
    if parts.len() == 1 {
        if spec_parse_u64(parts[0]) is Some && spec_parse_u64(parts[0]).unwrap() * 100
            <= u64::MAX {
            Some((spec_parse_u64(parts[0]).unwrap() * 100) as u64)
        } else {
            None
        }
    } else if parts.len() == 2 {
        let frac = parts[1];
        if spec_parse_u64(parts[0]) is Some && 1 <= frac.len() <= 2 && spec_all_digits(frac)
            && spec_parse_u64(parts[0]).unwrap() * 100 + spec_digits_val(frac) * (
        if frac.len() == 1 {
            10int
        } else {
            1int
        }) <= u64::MAX {
            Some(
                (spec_parse_u64(parts[0]).unwrap() * 100 + spec_digits_val(frac) * (
                if frac.len() == 1 {
                    10int
                } else {
                    1int
                })) as u64,
            )
        } else {
            None
        }
    } else {
        None
    }
}

/// The character sequence of an optional borrowed line.
pub open spec fn spec_text_of(o: Option<&str>) -> Option<Seq<char>> {
    match o {
        Some(l) => Some(l@),
        None => None,
    }
}

/// The character sequence of an optional owned line.
pub open spec fn spec_text_of_string(o: Option<String>) -> Option<Seq<char>> {
    match o {
        Some(l) => Some(l@),
        None => None,
    }
}

/// The value an optional single-value line denotes, when the line exists.
pub open spec fn spec_opt_text_value(o: Option<Seq<char>>) -> Option<u64> {
    match o {
        Some(l) => spec_cgroup_value(l),
        None => None,
    }
}

/// What a value token denotes under `mode`.
pub open spec fn spec_num_value(mode: NumMode, s: Seq<char>) -> Option<u64> {
    match mode {
        NumMode::Plain => spec_parse_u64(s),
        NumMode::MaxWord => spec_cgroup_value(s),
        NumMode::Hundredths => spec_parse_hundredths(s),
    }
}

/// Parse a decimal with up to two fraction digits into hundredths.
pub fn parse_hundredths(s: &str) -> (r: Option<u64>)
    ensures
        r == spec_parse_hundredths(s@),
{
    let parts = split_str(s, '.');
    if parts.len() == 1 {
        proof {
            assert(parts.deep_view()[0] == parts@[0]@);
        }
        match parse_u64_str(parts[0].as_str()) {
            Some(v) => {
                let wide: u128 = (v as u128) * 100;
                if wide <= u64::MAX as u128 {
                    Some(wide as u64)
                } else {
                    None
                }
            },
            None => None,
        }
    } else if parts.len() == 2 {
        proof {
            assert(parts.deep_view()[0] == parts@[0]@);
            assert(parts.deep_view()[1] == parts@[1]@);
        }
        match (parse_u64_str(parts[0].as_str()), parse_u64_str(parts[1].as_str())) {
            (Some(ip), Some(_)) => {
                let frac_str = &parts[1];
                let fl = frac_str.as_str().unicode_len();
                if fl == 0 || fl > 2 {
                    return None;
                }
                let fv = match parse_u64_str(frac_str.as_str()) {
                    Some(f) => f,
                    None => {
                        return None;
                    },
                };
                proof {
                    crate::cgtext::lemma_digits_val_eq_parse(frac_str@);
                    if fl == 1 {
                        assert(frac_str@.drop_last() =~= Seq::<char>::empty());
                        assert(crate::text::is_digit_char(frac_str@[0]));
                        assert(frac_str@.last() == frac_str@[0]);
                        assert(spec_digits_val(Seq::<char>::empty()) == 0);
                        assert(spec_digits_val(frac_str@) == crate::text::digit_val(
                            frac_str@.last(),
                        ));
                        assert(spec_digits_val(frac_str@) <= 9);
                    }
                }
                let scaled: u64 = if fl == 1 {
                    fv * 10
                } else {
                    fv
                };
                let wide: u128 = (ip as u128) * 100 + (scaled as u128);
                if wide <= u64::MAX as u128 {
                    Some(wide as u64)
                } else {
                    None
                }
            },
            _ => None,
        }
    } else {
        None
    }
}

/// For an all-digit string that parses, the parsed value is the digit
/// value.
pub proof fn lemma_digits_val_eq_parse(s: Seq<char>)
    requires
        spec_parse_u64(s) is Some,
    ensures
        spec_digits_val(s) == spec_parse_u64(s).unwrap(),
        spec_all_digits(s),
        spec_digits_val(s) >= 0,
{
    lemma_digits_nonneg_pub(s);
}

proof fn lemma_digits_nonneg_pub(s: Seq<char>)
    requires
        spec_all_digits(s),
    ensures
        spec_digits_val(s) >= 0,
    decreases s.len(),
{
    if s.len() > 0 {
        assert(spec_all_digits(s.drop_last()));
        lemma_digits_nonneg_pub(s.drop_last());
    }
}

/// Parse one line of a single-value file such as `memory.max` or
/// `cpu.weight`; `max` means no limit.
pub fn parse_cgroup_value(line: &str) -> (r: Option<u64>)
    ensures
        r == spec_cgroup_value(line@),
{
    proof {
        reveal_strlit("max");
    }
    if str_eq_str(line, "max") {
        Some(u64::MAX)
    } else {
        parse_u64_str(line)
    }
}

/// Lift a map of parsed tables to its fully mathematical form.
pub open spec fn spec_lift_u64(m: Map<Seq<char>, KvMap<u64>>) -> Map<
    Seq<char>,
    Map<Seq<char>, u64>,
> {
    Map::new(|k: Seq<char>| m.contains_key(k), |k: Seq<char>| m[k].map_view())
}

/// Every inner table of a nested parse result is well formed.
pub open spec fn spec_inner_wf_u64(m: Map<Seq<char>, KvMap<u64>>) -> bool {
    forall|k: Seq<char>| #[trigger] m.contains_key(k) ==> m[k].wf()
}

/// One `node=value` item of a line whose field is `field`: it adds `value`
/// under `field` to the node's table when the value is a number (or `max`
/// if allowed), and changes nothing otherwise.
pub open spec fn spec_nested_item_apply(
    m: Map<Seq<char>, Map<Seq<char>, u64>>,
    outer_of_item: bool,
    fixed: Seq<char>,
    item: Seq<char>,
    mode: NumMode,
) -> Map<Seq<char>, Map<Seq<char>, u64>> {
    let kv = spec_split(item, '=');
    if kv.len() >= 2 {
        let parsed: Option<u64> = spec_num_value(mode, kv[1]);
        if parsed is Some {
            let outer_key = if outer_of_item {
                kv[0]
            } else {
                fixed
            };
            let inner_key = if outer_of_item {
                fixed
            } else {
                kv[0]
            };
            let inner = if m.contains_key(outer_key) {
                m[outer_key]
            } else {
                Map::empty()
            };
            m.insert(outer_key, inner.insert(inner_key, parsed.unwrap()))
        } else {
            m
        }
    } else {
        m
    }
}

pub open spec fn spec_nested_items_upto(
    m0: Map<Seq<char>, Map<Seq<char>, u64>>,
    outer_of_item: bool,
    fixed: Seq<char>,
    items: Seq<Seq<char>>,
    j: int,
    mode: NumMode,
) -> Map<Seq<char>, Map<Seq<char>, u64>>
    decreases j,
{
    if j <= 1 {
        m0
    } else {
        spec_nested_item_apply(
            spec_nested_items_upto(m0, outer_of_item, fixed, items, j - 1, mode),
            outer_of_item,
            fixed,
            items[j - 1],
            mode,
        )
    }
}

/// One line of `memory.numa_stat` (v1): `field=total N0=a N1=b ...` adds
/// `field` to each listed node's table; a line whose first token is not of
/// the form `field=value` changes nothing.
pub open spec fn spec_numa_stat_line_apply(
    m: Map<Seq<char>, Map<Seq<char>, u64>>,
    line: Seq<char>,
) -> Map<Seq<char>, Map<Seq<char>, u64>> {
    let items = spec_split_ws(line);
    if items.len() >= 1 {
        let head = spec_split(items[0], '=');
        if head.len() >= 2 {
            spec_nested_items_upto(m, true, head[0], items, items.len() as int, NumMode::Plain)
        } else {
            m
        }
    } else {
        m
    }
}

pub open spec fn spec_numa_stat_upto(lines: Seq<Seq<char>>, n: int) -> Map<
    Seq<char>,
    Map<Seq<char>, u64>,
>
    decreases n,
{
    if n <= 0 {
        Map::empty()
    } else {
        spec_numa_stat_line_apply(spec_numa_stat_upto(lines, n - 1), lines[n - 1])
    }
}

/// The per-node tables a v1 `memory.numa_stat` file denotes.
pub open spec fn spec_numa_stat_file(s: Seq<char>) -> Map<Seq<char>, Map<Seq<char>, u64>> {
    let lines = spec_split(s, '\n');
    spec_numa_stat_upto(lines, lines.len() as int)
}

/// One line of a reverse-nested file (v2 `memory.numa_stat`):
/// `field N0=a N1=b ...` adds `field` to each node's table.
pub open spec fn spec_reverse_nested_line_apply(
    m: Map<Seq<char>, Map<Seq<char>, u64>>,
    line: Seq<char>,
) -> Map<Seq<char>, Map<Seq<char>, u64>> {
    let items = spec_split_ws(line);
    if items.len() >= 1 {
        spec_nested_items_upto(m, true, items[0], items, items.len() as int, NumMode::Plain)
    } else {
        m
    }
}

pub open spec fn spec_reverse_nested_upto(lines: Seq<Seq<char>>, n: int) -> Map<
    Seq<char>,
    Map<Seq<char>, u64>,
>
    decreases n,
{
    if n <= 0 {
        Map::empty()
    } else {
        spec_reverse_nested_line_apply(spec_reverse_nested_upto(lines, n - 1), lines[n - 1])
    }
}

pub open spec fn spec_reverse_nested_file(s: Seq<char>) -> Map<Seq<char>, Map<Seq<char>, u64>> {
    let lines = spec_split(s, '\n');
    spec_reverse_nested_upto(lines, lines.len() as int)
}

/// One line of a device-keyed file (`io.stat`, `io.max`):
/// `maj:min k1=v1 k2=v2 ...` records each `k=v` under the device; the
/// device's table exists even when no item parses. `max` is accepted as a
/// value and stands for the largest representable one.
pub open spec fn spec_device_nested_line_apply(
    m: Map<Seq<char>, Map<Seq<char>, u64>>,
    line: Seq<char>,
) -> Map<Seq<char>, Map<Seq<char>, u64>> {
    let items = spec_split_ws(line);
    if items.len() >= 1 {
        let dev = items[0];
        let start: Map<Seq<char>, Map<Seq<char>, u64>> = if m.contains_key(dev) {
            m
        } else {
            m.insert(dev, Map::empty())
        };
        spec_nested_items_upto(start, false, dev, items, items.len() as int, NumMode::MaxWord)
    } else {
        m
    }
}

pub open spec fn spec_device_nested_upto(lines: Seq<Seq<char>>, n: int) -> Map<
    Seq<char>,
    Map<Seq<char>, u64>,
>
    decreases n,
{
    if n <= 0 {
        Map::empty()
    } else {
        spec_device_nested_line_apply(spec_device_nested_upto(lines, n - 1), lines[n - 1])
    }
}

pub open spec fn spec_device_nested_file(s: Seq<char>) -> Map<Seq<char>, Map<Seq<char>, u64>> {
    let lines = spec_split(s, '\n');
    spec_device_nested_upto(lines, lines.len() as int)
}

/// Read the table of `outer`, add `(inner, v)` to it, and put it back.
pub(crate) fn nested_set(m: &mut KvMap<KvMap<u64>>, outer: String, inner: String, v: u64)
    requires
        old(m).wf(),
        spec_inner_wf_u64(old(m).map_view()),
    ensures
        final(m).wf(),
        spec_inner_wf_u64(final(m).map_view()),
        spec_lift_u64(final(m).map_view()) == ({
            let lifted = spec_lift_u64(old(m).map_view());
            let prev = if lifted.contains_key(outer@) {
                lifted[outer@]
            } else {
                Map::<Seq<char>, u64>::empty()
            };
            lifted.insert(outer@, prev.insert(inner@, v))
        }),
{
    let ghost m0 = m.map_view();
    let mut table: KvMap<u64> = match m.remove(outer.as_str()) {
        Some(t) => t,
        None => KvMap::new(),
    };
    table.set(inner, v);
    m.set(outer, table);
    proof {
        assert(spec_lift_u64(final(m).map_view()) =~= ({
            let lifted = spec_lift_u64(m0);
            let prev = if lifted.contains_key(outer@) {
                lifted[outer@]
            } else {
                Map::<Seq<char>, u64>::empty()
            };
            lifted.insert(outer@, prev.insert(inner@, v))
        }));
    }
}

/// Make sure `outer` has a (possibly empty) table.
pub(crate) fn nested_touch(m: &mut KvMap<KvMap<u64>>, outer: String)
    requires
        old(m).wf(),
        spec_inner_wf_u64(old(m).map_view()),
    ensures
        final(m).wf(),
        spec_inner_wf_u64(final(m).map_view()),
        spec_lift_u64(final(m).map_view()) == ({
            let lifted = spec_lift_u64(old(m).map_view());
            if lifted.contains_key(outer@) {
                lifted
            } else {
                lifted.insert(outer@, Map::<Seq<char>, u64>::empty())
            }
        }),
{
    let ghost m0 = m.map_view();
    match m.get(outer.as_str()) {
        Some(_) => {
            proof {
                assert(spec_lift_u64(m0).contains_key(outer@));
            }
        },
        None => {
            let empty: KvMap<u64> = KvMap::new();
            m.set(outer, empty);
            proof {
                assert(spec_lift_u64(final(m).map_view()) =~= spec_lift_u64(m0).insert(
                    outer@,
                    Map::<Seq<char>, u64>::empty(),
                ));
            }
        },
    }
}

/// Apply the `k=v` items `items[1..]` of one line to the tables.
pub(crate) fn apply_items(
    m: &mut KvMap<KvMap<u64>>,
    items: &Vec<String>,
    outer_of_item: bool,
    fixed: &String,
    mode: NumMode,
)
    requires
        old(m).wf(),
        spec_inner_wf_u64(old(m).map_view()),
        items@.len() >= 1,
    ensures
        final(m).wf(),
        spec_inner_wf_u64(final(m).map_view()),
        spec_lift_u64(final(m).map_view()) == spec_nested_items_upto(
            spec_lift_u64(old(m).map_view()),
            outer_of_item,
            fixed@,
            items.deep_view(),
            items@.len() as int,
            mode,
        ),
{
    let n = items.len();
    let mut j: usize = 1;
    while j < n
        invariant
            n == items@.len(),
            1 <= j <= n || (n <= 1 && j == 1),
            m.wf(),
            spec_inner_wf_u64(m.map_view()),
            spec_lift_u64(m.map_view()) == spec_nested_items_upto(
                spec_lift_u64(old(m).map_view()),
                outer_of_item,
                fixed@,
                items.deep_view(),
                j as int,
                mode,
            ),
        decreases n - j,
    {
        proof {
            assert(items.deep_view()[j as int] == items@[j as int]@);
        }
        let kv = split_str(items[j].as_str(), '=');
        if kv.len() >= 2 {
            proof {
                assert(kv.deep_view()[0] == kv@[0]@);
                assert(kv.deep_view()[1] == kv@[1]@);
            }
            let parsed: Option<u64> = match mode {
                NumMode::Plain => parse_u64_str(kv[1].as_str()),
                NumMode::MaxWord => parse_cgroup_value(kv[1].as_str()),
                NumMode::Hundredths => parse_hundredths(kv[1].as_str()),
            };
            match parsed {
                Some(v) => {
                    let outer = if outer_of_item {
                        kv[0].clone()
                    } else {
                        fixed.clone()
                    };
                    let inner = if outer_of_item {
                        fixed.clone()
                    } else {
                        kv[0].clone()
                    };
                    nested_set(m, outer, inner, v);
                },
                None => {},
            }
        }
        j = j + 1;
    }
}

/// Parse a v1 `memory.numa_stat` file: lines of `field=total N0=a N1=b ...`
/// become one table per node, keyed by the node name, holding each field's
/// value on that node.
pub fn parse_cgroup_numa_stat_file(contents: &str) -> (r: KvMap<KvMap<u64>>)
    ensures
        r.wf(),
        spec_inner_wf_u64(r.map_view()),
        spec_lift_u64(r.map_view()) == spec_numa_stat_file(contents@),
{
    let lines = split_str(contents, '\n');
    let mut m: KvMap<KvMap<u64>> = KvMap::new();
    proof {
        assert(spec_lift_u64(m.map_view()) =~= Map::<Seq<char>, Map<Seq<char>, u64>>::empty());
    }
    let n = lines.len();
    let mut i: usize = 0;
    while i < n
        invariant
            n == lines@.len(),
            i <= n,
            lines.deep_view() == spec_split(contents@, '\n'),
            m.wf(),
            spec_inner_wf_u64(m.map_view()),
            spec_lift_u64(m.map_view()) == spec_numa_stat_upto(lines.deep_view(), i as int),
        decreases n - i,
    {
        proof {
            assert(lines.deep_view()[i as int] == lines@[i as int]@);
        }
        let items = split_ws_str(lines[i].as_str());
        if items.len() >= 1 {
            proof {
                assert(items.deep_view()[0] == items@[0]@);
            }
            let head = split_str(items[0].as_str(), '=');
            if head.len() >= 2 {
                proof {
                    assert(head.deep_view()[0] == head@[0]@);
                }
                apply_items(&mut m, &items, true, &head[0], NumMode::Plain);
            }
        }
        i = i + 1;
    }
    m
}

/// Parse a v2 `memory.numa_stat` file: lines of `field N0=a N1=b ...`
/// become one table per node, as in the v1 layout.
pub fn parse_cgroup_reverse_nested_u64(contents: &str) -> (r: KvMap<KvMap<u64>>)
    ensures
        r.wf(),
        spec_inner_wf_u64(r.map_view()),
        spec_lift_u64(r.map_view()) == spec_reverse_nested_file(contents@),
{
    let lines = split_str(contents, '\n');
    let mut m: KvMap<KvMap<u64>> = KvMap::new();
    proof {
        assert(spec_lift_u64(m.map_view()) =~= Map::<Seq<char>, Map<Seq<char>, u64>>::empty());
    }
    let n = lines.len();
    let mut i: usize = 0;
    while i < n
        invariant
            n == lines@.len(),
            i <= n,
            lines.deep_view() == spec_split(contents@, '\n'),
            m.wf(),
            spec_inner_wf_u64(m.map_view()),
            spec_lift_u64(m.map_view()) == spec_reverse_nested_upto(lines.deep_view(), i as int),
        decreases n - i,
    {
        proof {
            assert(lines.deep_view()[i as int] == lines@[i as int]@);
        }
        let items = split_ws_str(lines[i].as_str());
        if items.len() >= 1 {
            proof {
                assert(items.deep_view()[0] == items@[0]@);
            }
            apply_items(&mut m, &items, true, &items[0].clone(), NumMode::Plain);
        }
        i = i + 1;
    }
    m
}

/// Parse a device-keyed file such as `io.stat` or `io.max`: lines of
/// `maj:min k1=v1 k2=v2 ...` become one table per device; `max` stands for
/// the largest representable value.
pub fn parse_cgroup_nested_u64(contents: &str) -> (r: KvMap<KvMap<u64>>)
    ensures
        r.wf(),
        spec_inner_wf_u64(r.map_view()),
        spec_lift_u64(r.map_view()) == spec_device_nested_file(contents@),
{
    let lines = split_str(contents, '\n');
    let mut m: KvMap<KvMap<u64>> = KvMap::new();
    proof {
        assert(spec_lift_u64(m.map_view()) =~= Map::<Seq<char>, Map<Seq<char>, u64>>::empty());
    }
    let n = lines.len();
    let mut i: usize = 0;
    while i < n
        invariant
            n == lines@.len(),
            i <= n,
            lines.deep_view() == spec_split(contents@, '\n'),
            m.wf(),
            spec_inner_wf_u64(m.map_view()),
            spec_lift_u64(m.map_view()) == spec_device_nested_upto(lines.deep_view(), i as int),
        decreases n - i,
    {
        proof {
            assert(lines.deep_view()[i as int] == lines@[i as int]@);
        }
        let items = split_ws_str(lines[i].as_str());
        if items.len() >= 1 {
            proof {
                assert(items.deep_view()[0] == items@[0]@);
            }
            let dev = items[0].clone();
            nested_touch(&mut m, dev);
            apply_items(&mut m, &items, false, &items[0].clone(), NumMode::MaxWord);
        }
        i = i + 1;
    }
    m
}

} // verus!
