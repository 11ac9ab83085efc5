//! The line breaker: split a line into column-bounded segments,
//! preferring to break at a space found by a bounded backward search.
//!
//! [`wrapped`] is the mathematical model: a line that fits (or an
//! unbounded limit) stays whole; otherwise the line is cut into
//! segments by [`wrap_segments`], each ending either at a space found
//! within the search window or hard at the column boundary.

use vstd::prelude::*;
use vstd::string::*;

verus! {

/// The offset at which the current window breaks. Scanning backward
/// from the window's end (offset `i` counts from the end, starting at
/// `0`), the first space found puts the break at `limit - i`, so that
/// the space ends the segment; if no space lies within the search
/// window, the break stays hard at `limit`.
pub open spec fn space_back_offset(rest: Seq<char>, limit: int, search: int, i: int) -> int
    decreases (if search <= limit {
        search
    } else {
        limit
    }) - i,
{
    if i >= search || i >= limit {
        limit
    } else if rest[limit - 1 - i] == ' ' {
        limit - i
    } else {
        space_back_offset(rest, limit, search, i + 1)
    }
}

/// Where the first segment of `rest` ends, clamped into `[1, limit]`
/// (the scan already stays in that range whenever `limit >= 1`).
pub open spec fn seg_end(rest: Seq<char>, limit: int, search: int) -> int {
    let e = space_back_offset(rest, limit, search, 0);
    if e < 1 {
        1
    } else if e > limit {
        limit
    } else {
        e
    }
}

/// The segments the breaking loop produces from what is left of a
/// line: a remainder shorter than the limit is the final segment, and
/// otherwise the line is cut at [`seg_end`] and the rest follows.
pub open spec fn wrap_segments(rest: Seq<char>, limit: int, search: int) -> Seq<Seq<char>>
    decreases rest.len(),
{
    if rest.len() == 0 {
        Seq::empty()
    } else if limit < 1 || rest.len() < limit {
        seq![rest]
    } else {
        let end = seg_end(rest, limit, search);
        seq![rest.subrange(0, end)] + wrap_segments(
            rest.subrange(end, rest.len() as int),
            limit,
            search,
        )
    }
}

/// Wrapping a whole line: a limit of zero disables wrapping, a line
/// that fits within the limit stays whole, and a longer line is cut
/// into segments.
pub open spec fn wrapped(line: Seq<char>, limit: int, search: int) -> Seq<Seq<char>> {
    if limit < 1 || line.len() <= limit {
        seq![line]
    } else {
        wrap_segments(line, limit, search)
    }
}

/// All segments joined back together, in order.
pub open spec fn concat_all(segs: Seq<Seq<char>>) -> Seq<char>
    decreases segs.len(),
{
    if segs.len() == 0 {
        Seq::empty()
    } else {
        segs[0] + concat_all(segs.drop_first())
    }
}

/// The segments kept by the standalone breaker: a segment is dropped
/// only when it is exactly a single space character.
pub open spec fn drop_space_segments(segs: Seq<Seq<char>>) -> Seq<Seq<char>>
    decreases segs.len(),
{
    if segs.len() == 0 {
        Seq::empty()
    } else {
        drop_space_segments(segs.drop_last()) + (if segs.last() == seq![' '] {
            Seq::<Seq<char>>::empty()
        } else {
            seq![segs.last()]
        })
    }
}

/// The backward scan reaches step `i` unchanged while no space stands
/// in the window positions before it.
proof fn lemma_space_back_offset_skip(rest: Seq<char>, limit: int, search: int, i: int)
    requires
        0 <= i,
        i <= search || i <= limit,
        forall|k: int| limit - i <= k < limit ==> #[trigger] rest[k] != ' ',
    ensures
        space_back_offset(rest, limit, search, 0) == space_back_offset(rest, limit, search, i),
    decreases i,
{
    if i > 0 {
        lemma_space_back_offset_skip(rest, limit, search, i - 1);
        assert(rest[limit - 1 - (i - 1)] != ' ');
    }
}

/// A line that fits within the limit (or an unbounded limit) wraps to
/// exactly one segment: the line unchanged.
pub proof fn lemma_wrap_short_line(line: Seq<char>, limit: int, search: int)
    requires
        limit < 1 || line.len() <= limit,
    ensures
        wrapped(line, limit, search) == seq![line],
{
}

/// In a line with no space anywhere, every segment except possibly the
/// last has length exactly the limit, and the last fits within it.
proof fn lemma_wrap_segments_hard_breaks(rest: Seq<char>, limit: int, search: int)
    requires
        1 <= limit,
        0 <= search,
        forall|i: int| 0 <= i < rest.len() ==> #[trigger] rest[i] != ' ',
    ensures
        forall|k: int|
            0 <= k < wrap_segments(rest, limit, search).len() - 1 ==> (#[trigger] wrap_segments(
                rest,
                limit,
                search,
            )[k]).len() == limit,
        forall|k: int|
            0 <= k < wrap_segments(rest, limit, search).len() ==> (#[trigger] wrap_segments(
                rest,
                limit,
                search,
            )[k]).len() <= limit,
    decreases rest.len(),
{
    let w = wrap_segments(rest, limit, search);
    if rest.len() == 0 {
    } else if rest.len() < limit {
    } else {
        lemma_space_back_offset_skip(rest, limit, search, if search <= limit {
            search
        } else {
            limit
        });
        let end = seg_end(rest, limit, search);
        assert(end == limit);
        let tail = rest.subrange(end, rest.len() as int);
        assert(forall|i: int| 0 <= i < tail.len() ==> #[trigger] tail[i] != ' ');
        lemma_wrap_segments_hard_breaks(tail, limit, search);
        let wt = wrap_segments(tail, limit, search);
        assert(w == seq![rest.subrange(0, end)] + wt);
        assert(forall|k: int| 0 <= k < w.len() - 1 ==> (#[trigger] w[k]).len() == limit) by {
            assert(w[0].len() == limit);
            assert(forall|k: int|
                1 <= k < w.len() - 1 ==> w[k] == (#[trigger] wt[k - 1]) && wt[k - 1].len()
                    == limit);
        }
        assert(forall|k: int| 1 <= k < w.len() ==> w[k] == (#[trigger] wt[k - 1]));
    }
}

/// A line strictly longer than the limit, with no space anywhere,
/// hard-breaks: every produced segment except possibly the last has
/// length exactly the limit, and the last fits within it.
pub proof fn lemma_wrap_hard_breaks(line: Seq<char>, limit: int, search: int)
    requires
        1 <= limit < line.len(),
        0 <= search,
        forall|i: int| 0 <= i < line.len() ==> #[trigger] line[i] != ' ',
    ensures
        wrapped(line, limit, search).len() >= 1,
        forall|k: int|
            0 <= k < wrapped(line, limit, search).len() - 1 ==> (#[trigger] wrapped(
                line,
                limit,
                search,
            )[k]).len() == limit,
        wrapped(line, limit, search).last().len() <= limit,
{
    lemma_wrap_segments_hard_breaks(line, limit, search);
}

/// Joining the raw segments of a wrapped remainder reproduces it.
proof fn lemma_wrap_segments_rejoin(rest: Seq<char>, limit: int, search: int)
    ensures
        concat_all(wrap_segments(rest, limit, search)) == rest,
    decreases rest.len(),
{
    let w = wrap_segments(rest, limit, search);
    if rest.len() == 0 {
        assert(rest =~= Seq::<char>::empty());
    } else if limit < 1 || rest.len() < limit {
        assert(w.drop_first() =~= Seq::<Seq<char>>::empty());
        assert(concat_all(Seq::<Seq<char>>::empty()) =~= Seq::<char>::empty());
        assert(concat_all(w) =~= rest);
    } else {
        let end = seg_end(rest, limit, search);
        let tail = rest.subrange(end, rest.len() as int);
        lemma_wrap_segments_rejoin(tail, limit, search);
        assert(w.drop_first() =~= wrap_segments(tail, limit, search));
        assert(concat_all(w) =~= rest.subrange(0, end) + tail);
        assert(rest.subrange(0, end) + tail =~= rest);
    }
}

/// Wrapping loses nothing: concatenating all produced segments, in
/// order, reproduces the original line exactly.
pub proof fn lemma_wrap_rejoins(line: Seq<char>, limit: int, search: int)
    ensures
        concat_all(wrapped(line, limit, search)) == line,
{
    if limit < 1 || line.len() <= limit {
        let w = wrapped(line, limit, search);
        assert(w.drop_first() =~= Seq::<Seq<char>>::empty());
        assert(concat_all(Seq::<Seq<char>>::empty()) =~= Seq::<char>::empty());
        assert(concat_all(w) =~= line);
    } else {
        lemma_wrap_segments_rejoin(line, limit, search);
    }
}

/// Find where the segment that starts at `start` ends: scan the window
/// backward for a space, for at most `search` characters.
pub(crate) fn scan_break_end(line: &str, start: usize, limit: usize, search: usize) -> (end: usize)
    requires
        1 <= limit,
        start + limit <= line@.len(),
        start + limit <= usize::MAX,
    ensures
        start + seg_end(
            line@.subrange(start as int, line@.len() as int),
            limit as int,
            search as int,
        ) == end,
        start < end <= start + limit,
{
    let ghost rest = line@.subrange(start as int, line@.len() as int);
    let bound: usize = if search < limit {
        search
    } else {
        limit
    };
    let mut i: usize = 0;
    let mut end: usize = start + limit;
    let mut found: bool = false;
    while i < bound && !found
        invariant
            1 <= limit,
            start + limit <= line@.len(),
            rest == line@.subrange(start as int, line@.len() as int),
            bound == if search < limit {
                search as int
            } else {
                limit as int
            },
            i <= bound,
            !found ==> forall|k: int| limit - i <= k < limit ==> #[trigger] rest[k] != ' ',
            !found ==> end == start + limit,
            found ==> i < bound && rest[limit - 1 - i] == ' ' && end == start + limit - i && (
            forall|k: int| limit - i <= k < limit ==> #[trigger] rest[k] != ' '),
        decreases bound - i, (if found {
            0int
        } else {
            1int
        }),
    {
        let c = line.get_char(start + limit - 1 - i);
        assert(c == rest[limit - 1 - i]);
        if c == ' ' {
            end = start + limit - i;
            found = true;
        } else {
            i = i + 1;
        }
    }
    proof {
        if found {
            lemma_space_back_offset_skip(rest, limit as int, search as int, i as int);
            assert(space_back_offset(rest, limit as int, search as int, i as int) == limit - i);
        } else {
            assert(i == bound);
            lemma_space_back_offset_skip(rest, limit as int, search as int, bound as int);
            assert(space_back_offset(rest, limit as int, search as int, bound as int) == limit);
        }
    }
    end
}

/// Break one line into plain column-bounded segments, searching at
/// most ten characters backward for a space; a segment that is exactly
/// a single space character is dropped.
pub fn _break_line(line_limit: usize, line: &str) -> (r: Vec<String>)
    ensures
        r@.map_values(|s: String| s@) == drop_space_segments(
            wrapped(line@, line_limit as int, 10),
        ),
{
    let len: usize = line.unicode_len();
    let mut out: Vec<String> = Vec::new();
    if line_limit == 0 || len <= line_limit {
        if len == 1 && line.get_char(0) == ' ' {
            assert(line@ =~= seq![' ']);
        } else {
            assert(line@ != seq![' ']);
            out.push(line.to_owned());
        }
        proof {
            let w = wrapped(line@, line_limit as int, 10);
            assert(w.drop_last() =~= Seq::<Seq<char>>::empty());
            assert(drop_space_segments(Seq::<Seq<char>>::empty()) =~= Seq::<Seq<char>>::empty());
            assert(out@.map_values(|s: String| s@) =~= drop_space_segments(w));
        }
        return out;
    }
    let ghost full = wrap_segments(line@, line_limit as int, 10);
    let ghost mut done = Seq::<Seq<char>>::empty();
    let mut start: usize = 0;
    proof {
        assert(line@.subrange(0, len as int) =~= line@);
        assert(done + wrap_segments(line@.subrange(0, len as int), line_limit as int, 10) =~= full);
    }
    while start < len
        invariant
            start <= len,
            len == line@.len(),
            1 <= line_limit,
            full == wrap_segments(line@, line_limit as int, 10),
            out@.map_values(|s: String| s@) == drop_space_segments(done),
            done + wrap_segments(line@.subrange(start as int, len as int), line_limit as int, 10)
                == full,
        decreases len - start,
    {
        let ghost rest = line@.subrange(start as int, len as int);
        let end: usize = if len - start < line_limit {
            len
        } else {
            scan_break_end(line, start, line_limit, 10)
        };
        assert(start < end <= len);
        let seg = line.substring_char(start, end);
        assert(seg@ == rest.subrange(0, end - start)) by {
            assert(line@.subrange(start as int, end as int) =~= rest.subrange(0, end - start));
        }
        proof {
            if len - start < line_limit {
                assert(rest.len() < line_limit);
                assert(wrap_segments(rest, line_limit as int, 10) == seq![rest]);
                assert(seg@ =~= rest);
            } else {
                assert(rest.len() >= line_limit);
                assert(end - start == seg_end(rest, line_limit as int, 10));
                assert(rest.subrange(end - start, rest.len() as int) =~= line@.subrange(
                    end as int,
                    len as int,
                ));
            }
            let w_rest = wrap_segments(rest, line_limit as int, 10);
            let w_next = wrap_segments(
                line@.subrange(end as int, len as int),
                line_limit as int,
                10,
            );
            assert(w_rest == seq![seg@] + w_next);
            assert(done.push(seg@) + w_next =~= done + w_rest);
        }
        let seg_len = end - start;
        if seg_len == 1 && seg.get_char(0) == ' ' {
            assert(seg@ =~= seq![' ']);
        } else {
            assert(seg@ != seq![' ']);
            out.push(seg.to_owned());
        }
        proof {
            let old_done = done;
            done = done.push(seg@);
            assert(done.drop_last() =~= old_done);
            assert(out@.map_values(|s: String| s@) =~= drop_space_segments(done));
        }
        start = end;
    }
    proof {
        assert(line@.subrange(start as int, len as int).len() == 0);
        assert(wrap_segments(line@.subrange(start as int, len as int), line_limit as int, 10)
            =~= Seq::<Seq<char>>::empty());
        assert(done =~= full);
        assert(wrapped(line@, line_limit as int, 10) == full);
    }
    out
}

} // verus!
