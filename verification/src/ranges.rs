//! Byte ranges over a streamed payload.
//!
//! A range selects a half-open window `[start, end)` of the stream; an
//! absent start means the stream's beginning and an absent end its end.
//! The model of "the stream restricted to a set of ranges" is
//! [`restriction`], defined byte by byte; the codec's range-limited
//! output is proved against it.

use vstd::prelude::*;
use crate::num::{all_digits, dec_val, parse_u64};
use vstd::string::*;

verus! {

/// One requested byte window, end exclusive.
#[derive(Clone, Copy, Debug)]
pub struct ByteRange {
    pub start: Option<u64>,
    pub end: Option<u64>,
}

/// The window's first byte offset.
pub open spec fn range_start(r: &ByteRange) -> int {
    match r.start {
        Some(s) => s as int,
        None => 0,
    }
}

/// Whether an offset falls before the window's end.
pub open spec fn before_range_end(r: &ByteRange, i: int) -> bool {
    match r.end {
        Some(e) => i < e as int,
        None => true,
    }
}

/// Whether a stream offset falls inside a range.
pub open spec fn in_range(r: &ByteRange, i: int) -> bool {
    range_start(r) <= i && before_range_end(r, i)
}

/// Whether a stream offset falls inside any of the ranges.
pub open spec fn in_ranges(ranges: Seq<ByteRange>, i: int) -> bool {
    exists|k: int| 0 <= k < ranges.len() && in_range(&ranges[k], i)
}

/// The bytes of `p`, whose first byte sits at stream offset `ps`,
/// restricted to the given ranges, in stream order.
pub open spec fn restriction(p: Seq<u8>, ps: int, ranges: Seq<ByteRange>) -> Seq<u8>
    decreases p.len(),
{
    if p.len() == 0 {
        Seq::empty()
    } else {
        restriction(p.drop_last(), ps, ranges) + if in_ranges(ranges, ps + p.len() - 1) {
            seq![p.last()]
        } else {
            Seq::empty()
        }
    }
}

/// Ranges are usable for slicing when they are in stream order and do
/// not touch: each range ends no later than the next one starts, and
/// an open-ended range can only come last.
/// The first range closes before the second opens.
pub open spec fn range_precedes(a: ByteRange, b: ByteRange) -> bool {
    match a.end {
        Some(e) => e as int <= range_start(&b),
        None => false,
    }
}

pub open spec fn ranges_sorted_disjoint(ranges: Seq<ByteRange>) -> bool {
    forall|i: int, j: int|
        0 <= i < j < ranges.len() ==> range_precedes(#[trigger] ranges[i], #[trigger] ranges[j])
}

/// Restricting a concatenation restricts each part in place.
pub proof fn lemma_restriction_concat(a: Seq<u8>, b: Seq<u8>, ps: int, ranges: Seq<ByteRange>)
    ensures
        restriction(a + b, ps, ranges) == restriction(a, ps, ranges) + restriction(
            b,
            ps + a.len(),
            ranges,
        ),
    decreases b.len(),
{
    if b.len() == 0 {
        assert(a + b =~= a);
        assert(restriction(b, ps + a.len(), ranges) =~= Seq::<u8>::empty());
        assert(restriction(a, ps, ranges) + Seq::<u8>::empty() =~= restriction(a, ps, ranges));
    } else {
        lemma_restriction_concat(a, b.drop_last(), ps, ranges);
        assert((a + b).drop_last() =~= a + b.drop_last());
        assert((a + b).last() == b.last());
        assert(restriction(a + b, ps, ranges) == restriction(a + b.drop_last(), ps, ranges) + if in_ranges(
            ranges,
            ps + a.len() + b.len() - 1,
        ) {
            seq![b.last()]
        } else {
            Seq::<u8>::empty()
        });
        assert(restriction(a, ps, ranges) + restriction(b, ps + a.len(), ranges) =~= restriction(
            a,
            ps,
            ranges,
        ) + restriction(b.drop_last(), ps + a.len(), ranges) + if in_ranges(
            ranges,
            ps + a.len() + b.len() - 1,
        ) {
            seq![b.last()]
        } else {
            Seq::<u8>::empty()
        });
    }
}

/// A stretch no range covers contributes nothing.
pub proof fn lemma_restriction_empty(p: Seq<u8>, ps: int, ranges: Seq<ByteRange>)
    requires
        forall|i: int| ps <= i < ps + p.len() ==> !in_ranges(ranges, i),
    ensures
        restriction(p, ps, ranges) == Seq::<u8>::empty(),
    decreases p.len(),
{
    if p.len() > 0 {
        lemma_restriction_empty(p.drop_last(), ps, ranges);
        assert(restriction(p, ps, ranges) =~= Seq::<u8>::empty());
    }
}

/// A stretch some range fully covers is kept whole.
pub proof fn lemma_restriction_full(p: Seq<u8>, ps: int, ranges: Seq<ByteRange>)
    requires
        forall|i: int| ps <= i < ps + p.len() ==> in_ranges(ranges, i),
    ensures
        restriction(p, ps, ranges) == p,
    decreases p.len(),
{
    if p.len() > 0 {
        lemma_restriction_full(p.drop_last(), ps, ranges);
        assert(restriction(p, ps, ranges) =~= p.drop_last() + seq![p.last()]);
        assert(p.drop_last() + seq![p.last()] =~= p);
    } else {
        assert(restriction(p, ps, ranges) =~= p);
    }
}

/// The reason a range header could not be read.
#[derive(Clone, Copy, Debug, PartialEq, Eq, Structural)]
pub enum ParseRangesError {
    Malformed,
}

/// Whether both bounds, where present, leave the window non-inverted.
pub open spec fn range_wf(r: &ByteRange) -> bool {
    match (r.start, r.end) {
        (Some(s), Some(e)) => s < e,
        _ => true,
    }
}

/// Where a character first occurs in a text, or a negative answer.
pub open spec fn first_at(s: Seq<char>, c: char) -> int
    decreases s.len(),
{
    if s.len() == 0 {
        -1
    } else if s[0] == c {
        0
    } else if first_at(s.skip(1), c) < 0 {
        -1
    } else {
        first_at(s.skip(1), c) + 1
    }
}

/// What [`first_at`] means: the answer is the first occurrence, and a
/// negative answer means there is none.
pub proof fn lemma_first_at(s: Seq<char>, c: char)
    ensures
        first_at(s, c) >= 0 ==> (0 <= first_at(s, c) < s.len() && s[first_at(s, c)] == c
            && forall|j: int| 0 <= j < first_at(s, c) ==> s[j] != c),
        first_at(s, c) < 0 ==> forall|j: int| 0 <= j < s.len() ==> s[j] != c,
    decreases s.len(),
{
    if s.len() > 0 && s[0] != c {
        lemma_first_at(s.skip(1), c);
        let k1 = first_at(s.skip(1), c);
        if k1 >= 0 {
            assert(s.skip(1)[k1] == s[k1 + 1]);
            assert forall|j: int| 0 <= j < k1 + 1 implies s[j] != c by {
                if j > 0 {
                    assert(s.skip(1)[j - 1] == s[j]);
                }
            }
        } else {
            assert forall|j: int| 0 <= j < s.len() implies s[j] != c by {
                if j > 0 {
                    assert(s.skip(1)[j - 1] == s[j]);
                }
            }
        }
    }
}

/// What one `first-last` group between two dashes means: the part
/// before the first dash is the start when present, the part after it
/// is the inclusive last byte when present, both in decimal; a group
/// without a dash, an unreadable number, or an inverted window means
/// nothing.
pub open spec fn range_of_group(g: Seq<char>) -> Option<ByteRange> {
    let d = first_at(g, '-');
    if d < 0 {
        Option::<ByteRange>::None
    } else {
        let sp = g.take(d);
        let ep = g.skip(d + 1);
        if sp.len() > 0 && !(all_digits(sp) && dec_val(sp) <= u64::MAX) {
            Option::<ByteRange>::None
        } else if ep.len() > 0 && !(all_digits(ep) && dec_val(ep) < u64::MAX) {
            Option::<ByteRange>::None
        } else {
            let start = if sp.len() == 0 {
                Option::<u64>::None
            } else {
                Some(dec_val(sp) as u64)
            };
            let end = if ep.len() == 0 {
                Option::<u64>::None
            } else {
                Some((dec_val(ep) + 1) as u64)
            };
            if (match (start, end) {
                (Some(a), Some(b)) => a < b,
                _ => true,
            }) {
                Some(ByteRange { start, end })
            } else {
                Option::<ByteRange>::None
            }
        }
    }
}

/// What a whole comma-separated range list means: every group must
/// mean a range, in order.
pub open spec fn spec_parse_ranges(s: Seq<char>) -> Option<Seq<ByteRange>>
    decreases s.len(),
    via spec_parse_ranges_decreases
{
    let k = first_at(s, ',');
    if k < 0 {
        match range_of_group(s) {
            Some(r) => Some(seq![r]),
            None => Option::<Seq<ByteRange>>::None,
        }
    } else {
        match range_of_group(s.take(k)) {
            Some(r) => match spec_parse_ranges(s.skip(k + 1)) {
                Some(rest) => Some(seq![r] + rest),
                None => Option::<Seq<ByteRange>>::None,
            },
            None => Option::<Seq<ByteRange>>::None,
        }
    }
}

#[via_fn]
proof fn spec_parse_ranges_decreases(s: Seq<char>) {
    lemma_first_at(s, ',');
}

/// Finds the first occurrence of a character in a window of the text,
/// or the window's end.
fn find_char_before(s: &str, from: usize, to: usize, c: char) -> (r: usize)
    requires
        from <= to <= s@.len(),
    ensures
        from <= r <= to,
        ({
            let k = first_at(s@.subrange(from as int, to as int), c);
            if k < 0 {
                r == to
            } else {
                r as int == from + k
            }
        }),
{
    let ghost g = s@.subrange(from as int, to as int);
    let mut i: usize = from;
    while i < to
        invariant
            from <= i <= to <= s@.len(),
            g == s@.subrange(from as int, to as int),
            forall|j: int| from <= j < i ==> s@[j] != c,
        decreases to - i,
    {
        if s.get_char(i) == c {
            proof {
                lemma_first_at(g, c);
                assert(g[i - from] == c);
                if first_at(g, c) < 0 {
                    assert(false);
                }
                if first_at(g, c) < i - from {
                    assert(g[first_at(g, c)] == c);
                    assert(s@[from + first_at(g, c)] != c);
                    assert(false);
                }
                if first_at(g, c) > i - from {
                    assert(g[i - from] != c);
                    assert(false);
                }
            }
            return i;
        }
        i = i + 1;
    }
    proof {
        lemma_first_at(g, c);
        if first_at(g, c) >= 0 {
            assert(g[first_at(g, c)] == c);
            assert(s@[from + first_at(g, c)] != c);
            assert(false);
        }
    }
    to
}

/// Reads one `first-last` group between two offsets of the text,
/// exactly as [`range_of_group`] reads it.
fn parse_one_range(s: &str, from: usize, to: usize) -> (r: Result<ByteRange, ParseRangesError>)
    requires
        from <= to <= s@.len(),
    ensures
        match r {
            Ok(v) => range_of_group(s@.subrange(from as int, to as int)) == Some(v) && range_wf(
                &v,
            ),
            Err(_) => range_of_group(s@.subrange(from as int, to as int)) is None,
        },
{
    let ghost g = s@.subrange(from as int, to as int);
    let dash = find_char_before(s, from, to, '-');
    proof {
        lemma_first_at(g, '-');
    }
    if dash == to {
        return Err(ParseRangesError::Malformed);
    }
    proof {
        assert(g.take(dash - from) =~= s@.subrange(from as int, dash as int));
        assert(g.skip(dash - from + 1) =~= s@.subrange(dash as int + 1, to as int));
    }
    let start: Option<u64> = if dash == from {
        None
    } else {
        let part = s.substring_char(from, dash);
        match parse_u64(part) {
            Some(v) => Some(v),
            None => {
                return Err(ParseRangesError::Malformed);
            },
        }
    };
    let end: Option<u64> = if dash + 1 >= to {
        None
    } else {
        let part = s.substring_char(dash + 1, to);
        match parse_u64(part) {
            Some(v) => {
                if v == u64::MAX {
                    return Err(ParseRangesError::Malformed);
                }
                Some(v + 1)
            },
            None => {
                return Err(ParseRangesError::Malformed);
            },
        }
    };
    let wf = match (start, end) {
        (Some(a), Some(b)) => a < b,
        _ => true,
    };
    if !wf {
        return Err(ParseRangesError::Malformed);
    }
    Ok(ByteRange { start, end })
}

/// Reads an HTTP-style byte-range list — comma-separated `first-last`
/// windows with an inclusive last byte, either bound optional — and
/// means exactly what [`spec_parse_ranges`] means: the parsed windows
/// in order, carrying an exclusive end, or a refusal when any group is
/// unreadable.
pub fn parse_ranges(s: &str) -> (r: Result<Vec<ByteRange>, ParseRangesError>)
    requires
        s@.len() < usize::MAX,
    ensures
        match r {
            Ok(v) => spec_parse_ranges(s@) == Some(v@),
            Err(_) => spec_parse_ranges(s@) is None,
        },
        r matches Ok(v) ==> (v@.len() >= 1 && forall|i: int|
            0 <= i < v@.len() ==> range_wf(&(#[trigger] v@[i]))),
{
    let len = s.unicode_len();
    let mut out: Vec<ByteRange> = Vec::new();
    let mut group_start: usize = 0;
    proof {
        assert(s@.skip(0) =~= s@);
    }
    loop
        invariant
            group_start <= len,
            len == s@.len(),
            len < usize::MAX,
            (match spec_parse_ranges(s@.skip(group_start as int)) {
                Some(rest) => spec_parse_ranges(s@) == Some(out@ + rest),
                None => spec_parse_ranges(s@) is None,
            }),
            forall|i: int| 0 <= i < out@.len() ==> range_wf(&(#[trigger] out@[i])),
        decreases len - group_start,
    {
        let ghost suffix = s@.skip(group_start as int);
        let comma = find_char_before(s, group_start, len, ',');
        proof {
            assert(suffix =~= s@.subrange(group_start as int, len as int));
            lemma_first_at(suffix, ',');
        }
        let rg = match parse_one_range(s, group_start, comma) {
            Ok(rg) => rg,
            Err(e) => {
                proof {
                    if comma < len {
                        assert(suffix.take(comma - group_start) =~= s@.subrange(
                            group_start as int,
                            comma as int,
                        ));
                    } else {
                        assert(first_at(suffix, ',') < 0);
                        assert(suffix =~= s@.subrange(group_start as int, comma as int));
                    }
                }
                return Err(e);
            },
        };
        let ghost out0 = out@;
        out.push(rg);
        if comma == len {
            proof {
                assert(first_at(suffix, ',') < 0);
                assert(suffix =~= s@.subrange(group_start as int, comma as int));
                assert(spec_parse_ranges(suffix) == Some(seq![rg]));
                assert(out@ =~= out0 + seq![rg]);
            }
            return Ok(out);
        }
        proof {
            assert(suffix.take(comma - group_start) =~= s@.subrange(
                group_start as int,
                comma as int,
            ));
            assert(suffix.skip(comma - group_start + 1) =~= s@.skip(comma as int + 1));
            assert(spec_parse_ranges(suffix) == (match spec_parse_ranges(s@.skip(comma as int + 1)) {
                Some(rest) => Some(seq![rg] + rest),
                None => Option::<Seq<ByteRange>>::None,
            }));
            match spec_parse_ranges(s@.skip(comma as int + 1)) {
                Some(rest) => {
                    assert(out0 + (seq![rg] + rest) =~= out@ + rest);
                },
                None => {},
            }
        }
        group_start = comma + 1;
    }
}

/// A range list extended by one more range covers an offset exactly
/// when one side does.
pub proof fn lemma_in_ranges_push(s: Seq<ByteRange>, r: ByteRange, i: int)
    ensures
        in_ranges(s.push(r), i) <==> (in_ranges(s, i) || in_range(&r, i)),
{
    if in_ranges(s.push(r), i) {
        let k = choose|k: int| 0 <= k < s.push(r).len() && in_range(&s.push(r)[k], i);
        if k < s.len() {
            assert(s.push(r)[k] == s[k]);
            assert(in_ranges(s, i));
        } else {
            assert(s.push(r)[k] == r);
        }
    }
    if in_ranges(s, i) {
        let k = choose|k: int| 0 <= k < s.len() && in_range(&s[k], i);
        assert(s.push(r)[k] == s[k]);
        assert(in_range(&s.push(r)[k], i));
    }
    if in_range(&r, i) {
        assert(in_range(&s.push(r)[s.len() as int], i));
    }
}

/// A non-empty range list covers an offset exactly when its last range
/// or the rest does.
pub proof fn lemma_in_ranges_split_last(s: Seq<ByteRange>, i: int)
    requires
        s.len() > 0,
    ensures
        in_ranges(s, i) <==> (in_ranges(s.drop_last(), i) || in_range(&s.last(), i)),
{
    assert(s =~= s.drop_last().push(s.last()));
    lemma_in_ranges_push(s.drop_last(), s.last(), i);
}

/// Taking one occurrence out of a range list only loses what that
/// range covered.
pub proof fn lemma_in_ranges_swap_remove(s: Seq<ByteRange>, mi: int, i: int)
    requires
        0 <= mi < s.len(),
    ensures
        in_ranges(s, i) <==> (in_ranges(s.update(mi, s.last()).drop_last(), i) || in_range(
            &s[mi],
            i,
        )),
{
    let rest = s.update(mi, s.last()).drop_last();
    if in_ranges(s, i) {
        let k = choose|k: int| 0 <= k < s.len() && in_range(&s[k], i);
        if k == mi {
        } else if k == s.len() - 1 {
            if mi < s.len() - 1 {
                assert(rest[mi] == s.last());
                assert(in_range(&rest[mi], i));
            }
        } else {
            assert(rest[k] == s[k]);
            assert(in_range(&rest[k], i));
        }
    }
    if in_ranges(rest, i) {
        let k = choose|k: int| 0 <= k < rest.len() && in_range(&rest[k], i);
        if k == mi {
            assert(rest[k] == s.last());
            assert(in_range(&s[s.len() - 1], i));
        } else {
            assert(rest[k] == s[k]);
            assert(in_range(&s[k], i));
        }
    }
    if in_range(&s[mi], i) {
        assert(in_ranges(s, i));
    }
}

/// The stream offset a range opens at.
fn start_of(r: &ByteRange) -> (v: u64)
    ensures
        v as int == range_start(r),
{
    match r.start {
        Some(s0) => s0,
        None => 0,
    }
}

/// Sorts a range list into stream order and merges touching windows,
/// covering exactly the same offsets: the form the range-limited codec
/// requires.
pub fn normalize_ranges(ranges: &Vec<ByteRange>) -> (r: Vec<ByteRange>)
    ensures
        ranges_sorted_disjoint(r@),
        forall|i: int| #[trigger] in_ranges(r@, i) <==> in_ranges(ranges@, i),
{
    let mut rest: Vec<ByteRange> = Vec::new();
    let mut i: usize = 0;
    while i < ranges.len()
        invariant
            0 <= i <= ranges@.len(),
            rest@ == ranges@.take(i as int),
        decreases ranges@.len() - i,
    {
        rest.push(ranges[i]);
        proof {
            assert(rest@ =~= ranges@.take(i as int + 1));
        }
        i = i + 1;
    }
    proof {
        assert(ranges@.take(ranges@.len() as int) =~= ranges@);
    }

    let mut out: Vec<ByteRange> = Vec::new();
    while rest.len() > 0
        invariant
            ranges_sorted_disjoint(out@),
            forall|i: int|
                #![trigger in_ranges(out@, i)]
                #![trigger in_ranges(rest@, i)]
                (in_ranges(out@, i) || in_ranges(rest@, i)) <==> in_ranges(ranges@, i),
            out@.len() > 0 ==> (forall|j: int|
                0 <= j < rest@.len() ==> range_start(&out@.last()) <= range_start(
                    &(#[trigger] rest@[j]),
                )),
        decreases rest@.len(),
    {
        let mut mi: usize = 0;
        let mut k: usize = 1;
        while k < rest.len()
            invariant
                0 <= mi < k <= rest@.len(),
                rest@.len() >= 1,
                forall|j: int| 0 <= j < k ==> range_start(&rest@[mi as int]) <= range_start(
                    &(#[trigger] rest@[j]),
                ),
            decreases rest@.len() - k,
        {
            if start_of(&rest[k]) < start_of(&rest[mi]) {
                mi = k;
            }
            k = k + 1;
        }
        let ghost rest0 = rest@;
        let sel = rest.swap_remove(mi);
        proof {
            assert forall|i: int| true implies (in_ranges(rest@, i) || in_range(&sel, i))
                <==> in_ranges(rest0, i) by {
                lemma_in_ranges_swap_remove(rest0, mi as int, i);
            }
            assert forall|j: int| 0 <= j < rest@.len() implies range_start(&sel) <= range_start(
                &(#[trigger] rest@[j]),
            ) by {
                if j == mi && mi < rest0.len() - 1 {
                    assert(rest@[j] == rest0.last());
                } else {
                    assert(rest@[j] == rest0[j]);
                }
            }
        }
        let ghost out0 = out@;
        if out.len() == 0 {
            out.push(sel);
            proof {
                assert forall|i: int| true implies (#[trigger] in_ranges(out@, i)) <==> (in_ranges(
                    out0,
                    i,
                ) || in_range(&sel, i)) by {
                    lemma_in_ranges_push(out0, sel, i);
                }
            }
        } else {
            let last_idx = out.len() - 1;
            let last = out[last_idx];
            match last.end {
                None => {
                    proof {
                        assert(range_start(&out@.last()) <= range_start(&sel));
                        assert forall|i: int| in_range(&sel, i) implies in_ranges(out@, i) by {
                            assert(in_range(&out@.last(), i));
                        }
                    }
                },
                Some(e) => {
                    if e <= start_of(&sel) {
                        out.push(sel);
                        proof {
                            assert forall|i: int| true implies (#[trigger] in_ranges(out@, i))
                                <==> (in_ranges(out0, i) || in_range(&sel, i)) by {
                                lemma_in_ranges_push(out0, sel, i);
                            }
                            assert forall|a: int, b: int|
                                0 <= a < b < out@.len() implies range_precedes(
                                #[trigger] out@[a],
                                #[trigger] out@[b],
                            ) by {
                                if b < out@.len() - 1 {
                                    assert(out@[a] == out0[a] && out@[b] == out0[b]);
                                } else if a == out@.len() - 2 {
                                    assert(out@[a] == last);
                                } else {
                                    assert(out@[a] == out0[a]);
                                    assert(range_precedes(out0[a], out0[out0.len() - 1]));
                                    assert(out0[a].end matches Some(ea) && ea as int
                                        <= range_start(&last));
                                }
                            }
                        }
                    } else {
                        let merged_end: Option<u64> = match sel.end {
                            Some(e2) => if e2 > e {
                                Some(e2)
                            } else {
                                Some(e)
                            },
                            None => None,
                        };
                        let merged = ByteRange { start: last.start, end: merged_end };
                        proof {
                            assert(range_start(&last) <= range_start(&sel));
                            assert(range_start(&sel) < e as int);
                            assert forall|i: int| true implies (in_range(&merged, i) <==> (
                            in_range(&last, i) || in_range(&sel, i))) by {}
                        }
                        let _ = out.pop();
                        out.push(merged);
                        proof {
                            assert(out@ =~= out0.drop_last().push(merged));
                            assert forall|i: int| true implies (#[trigger] in_ranges(out@, i))
                                <==> (in_ranges(out0, i) || in_range(&sel, i)) by {
                                lemma_in_ranges_push(out0.drop_last(), merged, i);
                                lemma_in_ranges_split_last(out0, i);
                            }
                            assert forall|a: int, b: int|
                                0 <= a < b < out@.len() implies range_precedes(
                                #[trigger] out@[a],
                                #[trigger] out@[b],
                            ) by {
                                if b < out@.len() - 1 {
                                    assert(out@[a] == out0[a] && out@[b] == out0[b]);
                                } else {
                                    assert(out@[a] == out0[a]);
                                    assert(range_precedes(out0[a], out0[out0.len() - 1]));
                                }
                            }
                        }
                    }
                },
            }
        }
    }
    proof {
        assert forall|i: int| true implies (#[trigger] in_ranges(out@, i) <==> in_ranges(
            ranges@,
            i,
        )) by {
            assert(!in_ranges(rest@, i));
        }
    }
    out
}

} // verus!
