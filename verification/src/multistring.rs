//! Multistrings: C strings stored one after the other, the last of them
//! followed by an empty one.

use crate::borrowed::BorrowedCString;
use crate::bytes::{
    c_len, has_nul, lemma_c_len_bounds, lemma_c_len_terminated, lemma_terminated_unique,
    terminated_at, NUL,
};
use vstd::prelude::*;
use vstd::slice::slice_subrange;

verus! {

/// The limit that is left once one more segment has been visited.
pub open spec fn one_less(limit: Option<usize>) -> Option<usize> {
    match limit {
        Some(n) => Some((n - 1) as usize),
        None => None,
    }
}

/// A walk over `mem`, limited to `limit` segments if there is a limit,
/// stays inside `mem`: wherever it reads, there is a byte, and every segment
/// that it visits has its terminator.
pub open spec fn is_multistring(mem: Seq<u8>, limit: Option<usize>) -> bool
    decreases mem.len(),
{
    if limit == Some(0usize) {
        true
    } else if mem.len() == 0 {
        false
    } else if mem[0] == NUL {
        true
    } else if !has_nul(mem) {
        false
    } else {
        proof {
            lemma_c_len_bounds(mem);
        }
        is_multistring(mem.skip(c_len(mem) + 1), one_less(limit))
    }
}

/// The offsets in `mem` at which the segments start that a walk visits, in
/// the order of the walk. The walk starts at offset 0, goes from a segment
/// to the byte after its terminator, and ends at an empty segment or when
/// `limit` segments have been visited.
pub open spec fn segment_starts(mem: Seq<u8>, limit: Option<usize>) -> Seq<int>
    decreases mem.len(),
{
    if limit == Some(0usize) || mem.len() == 0 || mem[0] == NUL || !has_nul(mem) {
        Seq::empty()
    } else {
        proof {
            lemma_c_len_bounds(mem);
        }
        let step = c_len(mem) + 1;
        seq![0int] + segment_starts(mem.skip(step), one_less(limit)).map_values(
            |k: int| k + step,
        )
    }
}

/// `view` is the view of the segment that starts at offset `start` of the
/// multistring `mem` stored at `buf`.
pub open spec fn is_segment_view(view: BorrowedCString, buf: usize, mem: Seq<u8>, start: int) -> bool {
    &&& view.addr() == buf + start
    &&& view.mem() == mem.skip(start)
    &&& view.spec_len() == c_len(mem.skip(start))
}

/// `f` has returned from a call on the view of the segment that starts at
/// offset `start` of the multistring `mem` stored at `buf`.
pub open spec fn segment_done<'a, F: FnMut(BorrowedCString<'a>)>(
    f: F,
    buf: usize,
    mem: Seq<u8>,
    start: int,
) -> bool {
    exists|view: BorrowedCString<'a>|
        #[trigger] is_segment_view(view, buf, mem, start) && f.ensures((view,), ())
}

/// What is left of `limit` after `done` segments.
pub open spec fn limit_left(limit: Option<usize>, done: int) -> Option<usize> {
    match limit {
        Some(n) => Some((n - done) as usize),
        None => None,
    }
}

/// Tells whether a walk over `mem`, limited to `count` segments if a count
/// is given, stays inside `mem`.
pub fn valid_multistring(mem: &[u8], count: Option<usize>) -> (ok: bool)
    ensures
        ok == is_multistring(mem@, count),
{
    let mut pos: usize = 0;
    let mut ctr: usize = 0;
    proof {
        assert(mem@.skip(0) =~= mem@);
    }
    loop
        invariant
            ctr <= pos <= mem@.len(),
            count matches Some(n) ==> ctr <= n,
            is_multistring(mem@, count) == is_multistring(
                mem@.skip(pos as int),
                limit_left(count, ctr as int),
            ),
        decreases mem@.len() - pos,
    {
        let ghost rest = mem@.skip(pos as int);
        let ghost left = limit_left(count, ctr as int);
        match count {
            Some(limit) => {
                if ctr >= limit {
                    return true;
                }
            },
            None => {},
        }
        if pos >= mem.len() {
            return false;
        }
        assert(rest[0] == mem@[pos as int]);
        if mem[pos] == NUL {
            return true;
        }
        let mut end: usize = pos;
        while end < mem.len() && mem[end] != NUL
            invariant
                pos <= end <= mem@.len(),
                rest == mem@.skip(pos as int),
                forall|k: int| 0 <= k < end - pos ==> rest[k] != NUL,
            decreases mem@.len() - end,
        {
            assert(rest[end - pos] == mem@[end as int]);
            end = end + 1;
        }
        if end >= mem.len() {
            return false;
        }
        proof {
            assert(rest[end - pos] == mem@[end as int]);
            assert(terminated_at(rest, end - pos));
            lemma_terminated_unique(rest, end - pos);
            assert(rest.skip(end - pos + 1) =~= mem@.skip(end + 1));
            assert(one_less(left) == limit_left(count, ctr + 1));
        }
        pos = end + 1;
        ctr = ctr + 1;
    }
}

/// Walks the multistring `mem` stored at `buf` and calls `f` with a view of
/// each segment, in order, up to `count` segments if a count is given.
/// Returns the number of segments that it visited.
pub fn from_c_multistring<'a, F: FnMut(BorrowedCString<'a>)>(
    buf: usize,
    mem: &'a [u8],
    count: Option<usize>,
    mut f: F,
) -> (visited: usize)
    requires
        is_multistring(mem@, count),
        buf + mem@.len() <= usize::MAX,
        buf != 0 || segment_starts(mem@, count).len() == 0,
        forall|i: int, view: BorrowedCString<'a>|
            0 <= i < segment_starts(mem@, count).len() && #[trigger] is_segment_view(
                view,
                buf,
                mem@,
                segment_starts(mem@, count)[i],
            ) ==> f.requires((view,)),
    ensures
        visited == segment_starts(mem@, count).len(),
        forall|i: int|
            0 <= i < segment_starts(mem@, count).len() ==> segment_done(
                f,
                buf,
                mem@,
                #[trigger] segment_starts(mem@, count)[i],
            ),
{
    let ghost starts = segment_starts(mem@, count);
    let ghost f0 = f;
    let (limited_count, limit) = match count {
        Some(limit) => (true, limit),
        None => (false, 0),
    };
    let mut pos: usize = 0;
    let mut ctr: usize = 0;
    proof {
        assert(mem@.skip(0) =~= mem@);
    }
    loop
        invariant
            starts == segment_starts(mem@, count),
            f == f0,
            limited_count == count is Some,
            count matches Some(n) ==> limit == n && ctr <= n,
            buf + mem@.len() <= usize::MAX,
            buf != 0 || starts.len() == 0,
            ctr <= pos <= mem@.len(),
            is_multistring(mem@.skip(pos as int), limit_left(count, ctr as int)),
            ctr + segment_starts(mem@.skip(pos as int), limit_left(count, ctr as int)).len()
                == starts.len(),
            forall|j: int|
                0 <= j < segment_starts(mem@.skip(pos as int), limit_left(count, ctr as int)).len()
                    ==> starts[ctr + j] == pos + #[trigger] segment_starts(
                    mem@.skip(pos as int),
                    limit_left(count, ctr as int),
                )[j],
            forall|i: int, view: BorrowedCString<'a>|
                0 <= i < starts.len() && #[trigger] is_segment_view(view, buf, mem@, starts[i])
                    ==> f.requires((view,)),
            forall|i: int| 0 <= i < ctr ==> segment_done(f, buf, mem@, #[trigger] starts[i]),
        ensures
            ctr == starts.len(),
            forall|i: int| 0 <= i < ctr ==> segment_done(f, buf, mem@, #[trigger] starts[i]),
        decreases mem@.len() - pos,
    {
        let ghost rest = mem@.skip(pos as int);
        let ghost left = limit_left(count, ctr as int);
        if limited_count && ctr >= limit {
            assert(left == Some(0usize));
            break;
        }
        assert(rest.len() > 0);
        assert(rest[0] == mem@[pos as int]);
        if mem[pos] == NUL {
            break;
        }
        proof {
            lemma_c_len_terminated(rest);
            assert(segment_starts(rest, left)[0] == 0);
            assert(starts[ctr + 0] == pos + segment_starts(rest, left)[0]);
        }
        let tail = slice_subrange(mem, pos, mem.len());
        let view = BorrowedCString::wrap(buf + pos, tail);
        let len = view.len();
        assert(is_segment_view(view, buf, mem@, starts[ctr as int]));
        f(view);
        proof {
            let step = c_len(rest) + 1;
            let next = segment_starts(rest.skip(step), one_less(left));
            assert(rest.skip(step) =~= mem@.skip(pos + step));
            assert(one_less(left) == limit_left(count, ctr + 1));
            assert(segment_starts(rest, left) =~= seq![0int] + next.map_values(
                |k: int| k + step,
            ));
            assert forall|j: int| 0 <= j < next.len() implies starts[ctr + 1 + j] == pos + step
                + #[trigger] next[j] by {
                assert(segment_starts(rest, left)[j + 1] == next[j] + step);
                assert(starts[ctr + (j + 1)] == pos + segment_starts(rest, left)[j + 1]);
            }
        }
        pos = pos + len + 1;
        ctr = ctr + 1;
    }
    ctr
}

} // verus!
