//! The per-user delegation registry: a line-oriented `name:base:count` text
//! format listing, per identity name, the delegated sub-id range that user
//! may map into namespaces they create. The first record whose name matches
//! wins; the absence of any matching record is a hard failure, since no
//! elevated in-sandbox identity is possible without a delegation.

use vstd::prelude::*;

use vstd::slice::slice_index_get;
use vstd::slice::slice_subrange;

use crate::errors::LaunchError;

verus! {

/// The line separator.
pub const NEWLINE: u8 = 10;

/// The field separator.
pub const COLON: u8 = 58;

/// An ASCII decimal digit.
pub open spec fn is_digit(b: u8) -> bool {
    48 <= b <= 57
}

/// The numeric value of one ASCII digit.
pub open spec fn digit_val(b: u8) -> nat {
    (b - 48) as nat
}

/// Every byte of `s` is an ASCII decimal digit.
pub open spec fn all_digits(s: Seq<u8>) -> bool {
    forall|i: int| 0 <= i < s.len() ==> is_digit(s[i])
}

/// The value of `s` read as a decimal numeral.
pub open spec fn dec_value(s: Seq<u8>) -> nat
    decreases s.len(),
{
    if s.len() == 0 {
        0
    } else {
        dec_value(s.drop_last()) * 10 + digit_val(s.last())
    }
}

/// `s` is a well-formed decimal numeral whose value fits a `u32`.
pub open spec fn parses_as_u32(s: Seq<u8>) -> bool {
    s.len() > 0 && all_digits(s) && dec_value(s) <= u32::MAX
}

/// The number of bytes before the first occurrence of `t` in `s` (all of
/// `s`, if `t` does not occur).
pub open spec fn scan_len(s: Seq<u8>, t: u8) -> int
    decreases s.len(),
{
    if s.len() == 0 {
        0
    } else if s[0] == t {
        0
    } else {
        1 + scan_len(s.skip(1), t)
    }
}

proof fn lemma_scan_len_bounds(s: Seq<u8>, t: u8)
    ensures
        0 <= scan_len(s, t) <= s.len(),
    decreases s.len(),
{
    if s.len() > 0 && s[0] != t {
        lemma_scan_len_bounds(s.skip(1), t);
    }
}

proof fn lemma_scan_len(s: Seq<u8>, t: u8, e: int)
    requires
        0 <= e <= s.len(),
        forall|k: int| 0 <= k < e ==> s[k] != t,
        e < s.len() ==> s[e] == t,
    ensures
        scan_len(s, t) == e,
    decreases s.len(),
{
    if s.len() == 0 {
    } else if s[0] == t {
        if e > 0 {
            assert(s[0] != t);
        }
    } else {
        assert(e != 0);
        assert forall|k: int| 0 <= k < e - 1 implies s.skip(1)[k] != t by {
            assert(s.skip(1)[k] == s[k + 1]);
        }
        lemma_scan_len(s.skip(1), t, e - 1);
    }
}

/// The name field of one registry line: everything before the first colon.
pub open spec fn line_name(l: Seq<u8>) -> Seq<u8> {
    l.take(scan_len(l, COLON))
}

/// One registry line read as a delegation record: `name:base:count`, where
/// `base` and `count` must be decimal numerals that fit a `u32`. Anything
/// after a third colon is ignored. A line that does not have this shape is
/// no record.
pub open spec fn parse_record(l: Seq<u8>) -> Option<(u32, u32)> {
    let c1 = scan_len(l, COLON);
    if c1 == l.len() {
        None
    } else {
        let rest1 = l.skip(c1 + 1);
        let c2 = scan_len(rest1, COLON);
        if c2 == rest1.len() {
            None
        } else {
            let f1 = rest1.take(c2);
            let rest2 = rest1.skip(c2 + 1);
            let f2 = rest2.take(scan_len(rest2, COLON));
            if parses_as_u32(f1) && parses_as_u32(f2) {
                Some((dec_value(f1) as u32, dec_value(f2) as u32))
            } else {
                None
            }
        }
    }
}

/// Resolving `name` against the registry text: scan the lines in order; the
/// first line whose name field equals `name` decides. A well-formed first
/// match yields its `(base, count)`; a malformed first match aborts as a
/// configuration error; no match at all is `DelegationNotFound`.
pub open spec fn spec_find_entry(s: Seq<u8>, name: Seq<u8>) -> Result<(u32, u32), LaunchError>
    decreases s.len(),
    via spec_find_entry_decreases
{
    let e = scan_len(s, NEWLINE);
    let line = s.take(e);
    if line_name(line) == name {
        match parse_record(line) {
            Some(bc) => Ok(bc),
            None => Err(LaunchError::Configuration),
        }
    } else if e == s.len() {
        Err(LaunchError::DelegationNotFound)
    } else {
        spec_find_entry(s.skip(e + 1), name)
    }
}

#[via_fn]
proof fn spec_find_entry_decreases(s: Seq<u8>, name: Seq<u8>) {
    lemma_scan_len_bounds(s, NEWLINE);
}

/// Find the first occurrence of `t` in `s` at or after `from`; yields
/// `s.len()` when there is none.
fn find_byte(s: &[u8], from: usize, t: u8) -> (r: usize)
    requires
        from <= s@.len(),
    ensures
        from <= r <= s@.len(),
        forall|k: int| from <= k < r ==> s@[k] != t,
        r < s@.len() ==> s@[r as int] == t,
{
    let mut i: usize = from;
    while i < s.len()
        invariant
            from <= i <= s@.len(),
            forall|k: int| from <= k < i ==> s@[k] != t,
        decreases s@.len() - i,
    {
        if *slice_index_get(s, i) == t {
            return i;
        }
        i += 1;
    }
    i
}

/// Whether two byte strings are equal.
fn bytes_eq(a: &[u8], b: &[u8]) -> (r: bool)
    ensures
        r <==> a@ == b@,
{
    if a.len() != b.len() {
        return false;
    }
    let mut i: usize = 0;
    while i < a.len()
        invariant
            0 <= i <= a@.len(),
            a@.len() == b@.len(),
            forall|k: int| 0 <= k < i ==> a@[k] == b@[k],
        decreases a@.len() - i,
    {
        if *slice_index_get(a, i) != *slice_index_get(b, i) {
            return false;
        }
        i += 1;
    }
    proof {
        assert(a@ =~= b@);
    }
    true
}

proof fn lemma_dec_value_prefix_mono(s: Seq<u8>, k: int)
    requires
        0 <= k <= s.len(),
    ensures
        dec_value(s.take(k)) <= dec_value(s),
    decreases s.len() - k,
{
    if k < s.len() {
        lemma_dec_value_prefix_mono(s, k + 1);
        assert(s.take(k + 1).drop_last() =~= s.take(k));
        assert(dec_value(s.take(k + 1)) == dec_value(s.take(k)) * 10 + digit_val(s.take(k + 1).last()));
    } else {
        assert(s.take(k) =~= s);
    }
}

/// Read a whole byte string as a decimal `u32`.
pub fn parse_u32(field: &[u8]) -> (r: Option<u32>)
    ensures
        parses_as_u32(field@) ==> r == Some((dec_value(field@) as u32)),
        !parses_as_u32(field@) ==> r is None,
{
    if field.len() == 0 {
        return None;
    }
    let mut acc: u64 = 0;
    let mut i: usize = 0;
    while i < field.len()
        invariant
            0 < field@.len(),
            0 <= i <= field@.len(),
            all_digits(field@.take(i as int)),
            acc == dec_value(field@.take(i as int)),
            acc <= u32::MAX,
        decreases field@.len() - i,
    {
        let b = *slice_index_get(field, i);
        if b < 48 || b > 57 {
            assert(!is_digit(field@[i as int]));
            return None;
        }
        let d = (b - 48) as u64;
        let next = acc * 10 + d;
        proof {
            assert(field@.take(i + 1).drop_last() =~= field@.take(i as int));
            assert(field@.take(i + 1).last() == field@[i as int]);
            assert(next == dec_value(field@.take(i + 1)));
        }
        if next > 0xFFFF_FFFF {
            proof {
                lemma_dec_value_prefix_mono(field@, i + 1);
            }
            return None;
        }
        acc = next;
        i += 1;
    }
    proof {
        assert(field@.take(field@.len() as int) =~= field@);
    }
    Some(acc as u32)
}

/// Read one registry line as a delegation record, exactly as
/// [`parse_record`] describes it.
pub fn parse_record_line(line: &[u8]) -> (r: Option<(u32, u32)>)
    ensures
        r == parse_record(line@),
{
    let c1 = find_byte(line, 0, COLON);
    proof {
        lemma_scan_len(line@, COLON, c1 as int);
    }
    if c1 == line.len() {
        return None;
    }
    let rest1 = slice_subrange(line, c1 + 1, line.len());
    let c2 = find_byte(rest1, 0, COLON);
    proof {
        assert(rest1@ =~= line@.skip(c1 + 1));
        lemma_scan_len(rest1@, COLON, c2 as int);
    }
    if c2 == rest1.len() {
        return None;
    }
    let f1 = slice_subrange(rest1, 0, c2);
    let rest2 = slice_subrange(rest1, c2 + 1, rest1.len());
    let c3 = find_byte(rest2, 0, COLON);
    proof {
        assert(f1@ =~= rest1@.take(c2 as int));
        assert(rest2@ =~= rest1@.skip(c2 + 1));
        lemma_scan_len(rest2@, COLON, c3 as int);
    }
    let f2 = slice_subrange(rest2, 0, c3);
    proof {
        assert(f2@ =~= rest2@.take(c3 as int));
    }
    match (parse_u32(f1), parse_u32(f2)) {
        (Some(base), Some(count)) => Some((base, count)),
        _ => None,
    }
}

/// Resolve `name` against the registry text `content`, exactly as
/// [`spec_find_entry`] describes it: the first matching line decides, a
/// missing record is `DelegationNotFound`, a malformed matching record is a
/// configuration error.
pub fn find_entry(content: &[u8], name: &[u8]) -> (r: Result<(u32, u32), LaunchError>)
    ensures
        r == spec_find_entry(content@, name@),
    decreases content@.len(),
{
    let e = find_byte(content, 0, NEWLINE);
    proof {
        lemma_scan_len(content@, NEWLINE, e as int);
    }
    let line = slice_subrange(content, 0, e);
    proof {
        assert(line@ =~= content@.take(e as int));
    }
    let name_end = find_byte(line, 0, COLON);
    proof {
        lemma_scan_len(line@, COLON, name_end as int);
    }
    let lname = slice_subrange(line, 0, name_end);
    proof {
        assert(lname@ =~= line@.take(name_end as int));
    }
    if bytes_eq(lname, name) {
        match parse_record_line(line) {
            Some(bc) => Ok(bc),
            None => Err(LaunchError::Configuration),
        }
    } else if e == content.len() {
        Err(LaunchError::DelegationNotFound)
    } else {
        let rest = slice_subrange(content, e + 1, content.len());
        proof {
            assert(rest@ =~= content@.skip(e + 1));
        }
        find_entry(rest, name)
    }
}

} // verus!
