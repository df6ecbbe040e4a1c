//! Verified text primitives for the line-oriented `key value` and
//! `key=value` formats that the kernel exposes.
//!
//! Splitting and number parsing are specified over the character sequence
//! of the input, so every file parser built on top states exactly which
//! characters produced which fields.

use vstd::prelude::*;

verus! {

/// The whitespace characters that separate fields on a line.
pub open spec fn is_ws_char(c: char) -> bool {
    c == ' ' || c == '\t' || c == '\r' || c == '\n'
}

/// A decimal digit.
pub open spec fn is_digit_char(c: char) -> bool {
    48 <= c as u32 <= 57
}

/// Numeric value of one decimal digit.
pub open spec fn digit_val(c: char) -> int {
    c as u32 - 48
}

pub open spec fn spec_all_digits(s: Seq<char>) -> bool {
    forall|i: int| 0 <= i < s.len() ==> is_digit_char(s[i])
}

/// Value of a digit string read most-significant first.
pub open spec fn spec_digits_val(s: Seq<char>) -> int
    decreases s.len(),
{
    if s.len() == 0 {
        0
    } else {
        spec_digits_val(s.drop_last()) * 10 + digit_val(s.last())
    }
}

/// What a decimal `u64` parse returns: the value of a non-empty all-digit
/// string when it fits in 64 bits, nothing otherwise.
pub open spec fn spec_parse_u64(s: Seq<char>) -> Option<u64> {
    if s.len() > 0 && spec_all_digits(s) && spec_digits_val(s) <= u64::MAX {
        Some(spec_digits_val(s) as u64)
    } else {
        None
    }
}

/// Split on a separator character, keeping empty pieces, with `cur` the
/// piece read so far.
pub open spec fn spec_split_acc(s: Seq<char>, sep: char, cur: Seq<char>) -> Seq<Seq<char>>
    decreases s.len(),
{
    if s.len() == 0 {
        seq![cur]
    } else if s[0] == sep {
        seq![cur] + spec_split_acc(s.drop_first(), sep, Seq::empty())
    } else {
        spec_split_acc(s.drop_first(), sep, cur.push(s[0]))
    }
}

/// Pieces of `s` between occurrences of `sep`; empty pieces are kept, so
/// the result always has one piece more than `s` has separators.
pub open spec fn spec_split(s: Seq<char>, sep: char) -> Seq<Seq<char>> {
    spec_split_acc(s, sep, Seq::empty())
}

/// Whitespace split with `cur` the token read so far; empty tokens are
/// dropped, so runs of whitespace count as one separator.
pub open spec fn spec_split_ws_acc(s: Seq<char>, cur: Seq<char>) -> Seq<Seq<char>>
    decreases s.len(),
{
    if s.len() == 0 {
        if cur.len() == 0 {
            Seq::empty()
        } else {
            seq![cur]
        }
    } else if is_ws_char(s[0]) {
        if cur.len() == 0 {
            spec_split_ws_acc(s.drop_first(), Seq::empty())
        } else {
            seq![cur] + spec_split_ws_acc(s.drop_first(), Seq::empty())
        }
    } else {
        spec_split_ws_acc(s.drop_first(), cur.push(s[0]))
    }
}

/// The whitespace-separated tokens of `s`.
pub open spec fn spec_split_ws(s: Seq<char>) -> Seq<Seq<char>> {
    spec_split_ws_acc(s, Seq::empty())
}

proof fn lemma_digits_val_nonneg(s: Seq<char>)
    requires
        spec_all_digits(s),
    ensures
        spec_digits_val(s) >= 0,
    decreases s.len(),
{
    if s.len() > 0 {
        assert(spec_all_digits(s.drop_last()));
        lemma_digits_val_nonneg(s.drop_last());
    }
}

/// Reading further digits never makes the value smaller.
proof fn lemma_digits_val_prefix(s: Seq<char>, i: int)
    requires
        spec_all_digits(s),
        0 <= i <= s.len(),
    ensures
        spec_digits_val(s.take(i)) <= spec_digits_val(s),
    decreases s.len() - i,
{
    if i < s.len() {
        lemma_digits_val_prefix(s, i + 1);
        assert(s.take(i + 1).drop_last() =~= s.take(i));
        assert(spec_all_digits(s.take(i)));
        lemma_digits_val_nonneg(s.take(i));
        assert(spec_digits_val(s.take(i + 1)) == spec_digits_val(s.take(i)) * 10 + digit_val(
            s.take(i + 1).last(),
        ));
    } else {
        assert(s.take(i) =~= s);
    }
}

/// Every character of `s`, collected into a vector.
pub fn chars_vec(s: &str) -> (r: Vec<char>)
    ensures
        r@ == s@,
{
    let n = s.unicode_len();
    let mut r: Vec<char> = Vec::new();
    let mut i: usize = 0;
    while i < n
        invariant
            n == s@.len(),
            i <= n,
            r@ == s@.take(i as int),
        decreases n - i,
    {
        r.push(s.get_char(i));
        assert(s@.take(i + 1) =~= s@.take(i as int).push(s@[i as int]));
        i = i + 1;
    }
    assert(s@.take(n as int) =~= s@);
    r
}

/// Whether two string slices hold the same characters.
pub fn str_eq_str(a: &str, b: &str) -> (r: bool)
    ensures
        r == (a@ == b@),
{
    let na = a.unicode_len();
    let nb = b.unicode_len();
    if na != nb {
        assert(a@ != b@);
        return false;
    }
    let mut i: usize = 0;
    while i < na
        invariant
            na == a@.len(),
            na == b@.len(),
            i <= na,
            forall|j: int| 0 <= j < i ==> a@[j] == b@[j],
        decreases na - i,
    {
        if a.get_char(i) != b.get_char(i) {
            assert(a@ != b@);
            return false;
        }
        i = i + 1;
    }
    assert(a@ =~= b@);
    true
}

/// Whether `s` starts with `prefix`.
pub fn str_starts_with(s: &str, prefix: &str) -> (r: bool)
    ensures
        r == (s@.len() >= prefix@.len() && s@.take(prefix@.len() as int) == prefix@),
{
    let n = s.unicode_len();
    let np = prefix.unicode_len();
    if n < np {
        return false;
    }
    let mut i: usize = 0;
    while i < np
        invariant
            n == s@.len(),
            np == prefix@.len(),
            np <= n,
            i <= np,
            forall|j: int| 0 <= j < i ==> s@[j] == prefix@[j],
        decreases np - i,
    {
        if s.get_char(i) != prefix.get_char(i) {
            assert(s@.take(np as int)[i as int] != prefix@[i as int]);
            return false;
        }
        i = i + 1;
    }
    assert(s@.take(np as int) =~= prefix@);
    true
}

/// Decimal parse of a whole string slice.
pub fn parse_u64_str(s: &str) -> (r: Option<u64>)
    ensures
        r == spec_parse_u64(s@),
{
    let n = s.unicode_len();
    if n == 0 {
        return None;
    }
    let mut acc: u64 = 0;
    let mut i: usize = 0;
    while i < n
        invariant
            n == s@.len(),
            0 < n,
            i <= n,
            spec_all_digits(s@.take(i as int)),
            acc == spec_digits_val(s@.take(i as int)),
        decreases n - i,
    {
        let c = s.get_char(i);
        let cv = c as u32;
        if cv < 48 || cv > 57 {
            assert(!is_digit_char(s@[i as int]));
            assert(!spec_all_digits(s@));
            return None;
        }
        let d = (cv - 48) as u64;
        let wide: u128 = (acc as u128) * 10 + (d as u128);
        assert(s@.take(i + 1).drop_last() =~= s@.take(i as int));
        assert(spec_digits_val(s@.take(i + 1)) == acc * 10 + d);
        if wide > u64::MAX as u128 {
            proof {
                if spec_all_digits(s@) {
                    lemma_digits_val_prefix(s@, i + 1);
                }
            }
            return None;
        }
        acc = wide as u64;
        i = i + 1;
    }
    assert(s@.take(n as int) =~= s@);
    Some(acc)
}

/// The concatenation `a/b/c`, as cgroup v1 paths are laid out.
pub fn join3(a: &str, b: &str, c: &str) -> (r: String)
    ensures
        r@ == a@ + "/"@ + b@ + "/"@ + c@,
{
    let mut r = String::from_str(a);
    r.append("/");
    r.append(b);
    r.append("/");
    r.append(c);
    r
}

/// The concatenation `a/b`, as cgroup v2 paths are laid out.
pub fn join2(a: &str, b: &str) -> (r: String)
    ensures
        r@ == a@ + "/"@ + b@,
{
    let mut r = String::from_str(a);
    r.append("/");
    r.append(b);
    r
}

/// Pieces of `s` between occurrences of `sep`, as owned strings.
pub fn split_str(s: &str, sep: char) -> (r: Vec<String>)
    ensures
        r.deep_view() == spec_split(s@, sep),
{
    let n = s.unicode_len();
    let mut out: Vec<String> = Vec::new();
    let mut start: usize = 0;
    let mut i: usize = 0;
    proof {
        assert(s@.skip(0) =~= s@);
        assert(s@.subrange(0, 0) =~= Seq::<char>::empty());
        assert(out.deep_view() + spec_split_acc(s@, sep, Seq::empty()) =~= spec_split(s@, sep));
    }
    while i < n
        invariant
            n == s@.len(),
            start <= i <= n,
            spec_split(s@, sep) == out.deep_view() + spec_split_acc(
                s@.skip(i as int),
                sep,
                s@.subrange(start as int, i as int),
            ),
        decreases n - i,
    {
        let c = s.get_char(i);
        proof {
            assert(s@.skip(i as int)[0] == s@[i as int]);
            assert(s@.skip(i as int).drop_first() =~= s@.skip(i + 1));
        }
        if c == sep {
            let piece = s.substring_char(start, i);
            let owned = String::from_str(piece);
            assert(owned@ == s@.subrange(start as int, i as int));
            out.push(owned);
            proof {
                assert(out.deep_view() =~= out.deep_view().subrange(
                    0,
                    out.deep_view().len() - 1,
                ).push(owned@));
                assert(s@.subrange(i + 1, i + 1) =~= Seq::<char>::empty());
            }
            start = i + 1;
        } else {
            proof {
                assert(s@.subrange(start as int, i as int).push(s@[i as int]) =~= s@.subrange(
                    start as int,
                    i + 1,
                ));
            }
        }
        i = i + 1;
    }
    let piece = s.substring_char(start, n);
    let owned = String::from_str(piece);
    out.push(owned);
    proof {
        assert(s@.skip(n as int) =~= Seq::<char>::empty());
        assert(spec_split_acc(s@.skip(n as int), sep, s@.subrange(start as int, n as int))
            == seq![s@.subrange(start as int, n as int)]);
    }
    out
}

/// The whitespace-separated tokens of `s`, as owned strings.
pub fn split_ws_str(s: &str) -> (r: Vec<String>)
    ensures
        r.deep_view() == spec_split_ws(s@),
{
    let n = s.unicode_len();
    let mut out: Vec<String> = Vec::new();
    let mut start: usize = 0;
    let mut i: usize = 0;
    proof {
        assert(s@.skip(0) =~= s@);
        assert(s@.subrange(0, 0) =~= Seq::<char>::empty());
        assert(out.deep_view() + spec_split_ws_acc(s@, Seq::empty()) =~= spec_split_ws(s@));
    }
    while i < n
        invariant
            n == s@.len(),
            start <= i <= n,
            spec_split_ws(s@) == out.deep_view() + spec_split_ws_acc(
                s@.skip(i as int),
                s@.subrange(start as int, i as int),
            ),
        decreases n - i,
    {
        let c = s.get_char(i);
        let ws = c == ' ' || c == '\t' || c == '\r' || c == '\n';
        proof {
            assert(s@.skip(i as int)[0] == s@[i as int]);
            assert(s@.skip(i as int).drop_first() =~= s@.skip(i + 1));
        }
        if ws {
            if start < i {
                let piece = s.substring_char(start, i);
                let owned = String::from_str(piece);
                out.push(owned);
                proof {
                    assert(out.deep_view() =~= out.deep_view().subrange(
                        0,
                        out.deep_view().len() - 1,
                    ).push(owned@));
                }
            } else {
                proof {
                    assert(s@.subrange(start as int, i as int).len() == 0);
                }
            }
            proof {
                assert(s@.subrange(i + 1, i + 1) =~= Seq::<char>::empty());
            }
            start = i + 1;
        } else {
            proof {
                assert(s@.subrange(start as int, i as int).push(s@[i as int]) =~= s@.subrange(
                    start as int,
                    i + 1,
                ));
            }
        }
        i = i + 1;
    }
    if start < n {
        let piece = s.substring_char(start, n);
        let owned = String::from_str(piece);
        out.push(owned);
        proof {
            assert(out.deep_view() =~= out.deep_view().subrange(
                0,
                out.deep_view().len() - 1,
            ).push(owned@));
        }
    }
    proof {
        assert(s@.skip(n as int) =~= Seq::<char>::empty());
        if start < n {
        } else {
            assert(s@.subrange(start as int, n as int).len() == 0);
            assert(out.deep_view() + spec_split_ws_acc(
                Seq::<char>::empty(),
                s@.subrange(start as int, n as int),
            ) =~= out.deep_view());
        }
    }
    out
}


/// What a signed decimal parse returns: an optional minus sign before the
/// digits; the value must fit in `i64`.
pub open spec fn spec_parse_i64(s: Seq<char>) -> Option<i64> {
    if s.len() >= 1 && s[0] == '-' {
        let digits = s.drop_first();
        if digits.len() > 0 && spec_all_digits(digits) && spec_digits_val(digits) <= 0x8000_0000_0000_0000 {
            Some((-spec_digits_val(digits)) as i64)
        } else {
            None
        }
    } else if s.len() > 0 && spec_all_digits(s) && spec_digits_val(s) <= i64::MAX {
        Some(spec_digits_val(s) as i64)
    } else {
        None
    }
}

/// Signed decimal parse of a whole string slice.
pub fn parse_i64_str(s: &str) -> (r: Option<i64>)
    ensures
        r == spec_parse_i64(s@),
{
    let n = s.unicode_len();
    if n >= 1 && s.get_char(0) == '-' {
        let rest = s.substring_char(1, n);
        proof {
            assert(rest@ =~= s@.drop_first());
        }
        match parse_u64_str(rest) {
            Some(v) => {
                if v <= 0x8000_0000_0000_0000u64 {
                    proof {
                        crate::cgtext::lemma_digits_val_eq_parse(rest@);
                    }
                    if v == 0x8000_0000_0000_0000u64 {
                        Some(i64::MIN)
                    } else {
                        Some(-(v as i64))
                    }
                } else {
                    proof {
                        crate::cgtext::lemma_digits_val_eq_parse(rest@);
                    }
                    None
                }
            },
            None => {
                proof {
                    if s@.drop_first().len() > 0 && spec_all_digits(s@.drop_first())
                        && spec_digits_val(s@.drop_first()) <= 0x8000_0000_0000_0000 {
                        assert(spec_parse_u64(rest@) is Some);
                    }
                }
                None
            },
        }
    } else {
        match parse_u64_str(s) {
            Some(v) => {
                if v <= i64::MAX as u64 {
                    proof {
                        crate::cgtext::lemma_digits_val_eq_parse(s@);
                    }
                    Some(v as i64)
                } else {
                    proof {
                        crate::cgtext::lemma_digits_val_eq_parse(s@);
                    }
                    None
                }
            },
            None => None,
        }
    }
}

} // verus!
