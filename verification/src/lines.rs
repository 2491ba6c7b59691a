//! Lines of a byte sequence. A line ends at a line feed; a carriage return
//! directly before that line feed belongs to the line ending. The last line
//! needs no line feed, and a trailing line feed starts no further line.

use vstd::prelude::*;
use vstd::slice::*;

verus! {

pub const LINE_FEED: u8 = 10;

pub const CARRIAGE_RETURN: u8 = 13;

/// Index of the first line feed at or after `from`, or the length of `b`
/// where there is none.
pub open spec fn line_end(b: Seq<u8>, from: int) -> int
    decreases b.len() - from,
{
    if from < 0 || from >= b.len() {
        b.len() as int
    } else if b[from] == LINE_FEED {
        from
    } else {
        line_end(b, from + 1)
    }
}

/// `raw` without one trailing carriage return.
pub open spec fn strip_return(raw: Seq<u8>) -> Seq<u8> {
    if raw.len() > 0 && raw.last() == CARRIAGE_RETURN {
        raw.drop_last()
    } else {
        raw
    }
}

/// The line that starts at `from`, without its line ending.
pub open spec fn line_at(b: Seq<u8>, from: int) -> Seq<u8> {
    let end = line_end(b, from);
    if end < b.len() {
        strip_return(b.subrange(from, end))
    } else {
        b.subrange(from, end)
    }
}

/// The lines of `b` from position `from` on.
pub open spec fn lines_from(b: Seq<u8>, from: int) -> Seq<Seq<u8>>
    decreases b.len() - from,
{
    if from < 0 || from >= b.len() {
        Seq::empty()
    } else {
        proof {
            lemma_line_end_bounds(b, from);
        }
        let end = line_end(b, from);
        if end >= b.len() {
            seq![line_at(b, from)]
        } else {
            seq![line_at(b, from)] + lines_from(b, end + 1)
        }
    }
}

/// The lines of `b`.
pub open spec fn lines(b: Seq<u8>) -> Seq<Seq<u8>> {
    lines_from(b, 0)
}

/// Where a search for the end of a line comes out.
pub proof fn lemma_line_end_bounds(b: Seq<u8>, from: int)
    requires
        0 <= from <= b.len(),
    ensures
        from <= line_end(b, from) <= b.len(),
        line_end(b, from) < b.len() ==> b[line_end(b, from)] == LINE_FEED,
        forall|i: int| from <= i < line_end(b, from) ==> b[i] != LINE_FEED,
    decreases b.len() - from,
{
    if from < b.len() && b[from] != LINE_FEED {
        lemma_line_end_bounds(b, from + 1);
    }
}

/// A position without a line feed between `from` and it is the end of the
/// line if it holds a line feed or is the end of the bytes.
pub proof fn lemma_line_end_is(b: Seq<u8>, from: int, end: int)
    requires
        0 <= from <= end <= b.len(),
        forall|i: int| from <= i < end ==> b[i] != LINE_FEED,
        end == b.len() || b[end] == LINE_FEED,
    ensures
        line_end(b, from) == end,
    decreases end - from,
{
    if from < end {
        lemma_line_end_is(b, from + 1, end);
    }
}

/// Every line takes up at least one byte.
pub proof fn lemma_lines_len(b: Seq<u8>, from: int)
    requires
        0 <= from <= b.len(),
    ensures
        lines_from(b, from).len() <= b.len() - from,
    decreases b.len() - from,
{
    if from < b.len() {
        lemma_line_end_bounds(b, from);
        let end = line_end(b, from);
        if end < b.len() {
            lemma_lines_len(b, end + 1);
        }
    }
}

/// End of the line that starts at `from`.
pub fn find_line_end(b: &[u8], from: usize) -> (end: usize)
    requires
        from <= b@.len(),
    ensures
        end == line_end(b@, from as int),
        from <= end <= b@.len(),
{
    let mut end: usize = from;
    while end < b.len() && b[end] != LINE_FEED
        invariant
            from <= end <= b@.len(),
            forall|i: int| from <= i < end ==> b@[i] != LINE_FEED,
        decreases b@.len() - end,
    {
        end += 1;
    }
    proof {
        lemma_line_end_is(b@, from as int, end as int);
    }
    end
}

/// The line that starts at `from` and ends before `end`, the end of that line.
pub fn line_slice(b: &[u8], from: usize, end: usize) -> (line: &[u8])
    requires
        from <= b@.len(),
        end == line_end(b@, from as int),
    ensures
        line@ == line_at(b@, from as int),
{
    proof {
        lemma_line_end_bounds(b@, from as int);
    }
    if end < b.len() && end > from && b[end - 1] == CARRIAGE_RETURN {
        let line = slice_subrange(b, from, end - 1);
        assert(line@ == b@.subrange(from as int, end as int).drop_last());
        line
    } else {
        slice_subrange(b, from, end)
    }
}

/// Start of the line after the one that starts at `from` and ends at `end`;
/// the length of `b` where there is none.
pub fn next_line_start(b: &[u8], from: usize, end: usize) -> (next: usize)
    requires
        from < b@.len(),
        end == line_end(b@, from as int),
    ensures
        end <= next <= b@.len(),
        next > end || end == b@.len(),
        lines_from(b@, from as int) == seq![line_at(b@, from as int)] + lines_from(
            b@,
            next as int,
        ),
{
    proof {
        lemma_line_end_bounds(b@, from as int);
    }
    if end < b.len() {
        end + 1
    } else {
        end
    }
}

/// The first `limit` lines of `b`, or all of them where it has fewer.
pub fn split_lines(b: &[u8], limit: usize) -> (found: Vec<&[u8]>)
    ensures
        found@.len() == lines(b@).len() || found@.len() == limit,
        found@.len() <= lines(b@).len() <= usize::MAX,
        found@.len() <= limit,
        forall|i: int| 0 <= i < found@.len() ==> (#[trigger] found@[i])@ == lines(b@)[i],
{
    proof {
        lemma_lines_len(b@, 0);
    }
    let mut found: Vec<&[u8]> = Vec::new();
    let mut pos: usize = 0;
    while pos < b.len() && found.len() < limit
        invariant
            pos <= b@.len(),
            found@.len() <= limit,
            lines(b@) =~= lines(b@).take(found@.len() as int) + lines_from(b@, pos as int),
            found@.len() <= lines(b@).len(),
            forall|i: int| 0 <= i < found@.len() ==> (#[trigger] found@[i])@ == lines(b@)[i],
        decreases b@.len() - pos,
    {
        let end = find_line_end(b, pos);
        let line = line_slice(b, pos, end);
        let next = next_line_start(b, pos, end);
        proof {
            let all = lines(b@);
            let n = found@.len() as int;
            assert(all[n] == (all.take(n) + lines_from(b@, pos as int))[n]);
            assert(all[n] == line@);
            assert(all =~= all.take(n + 1) + lines_from(b@, next as int)) by {
                assert(all.take(n + 1) =~= all.take(n).push(all[n]));
            }
        }
        found.push(line);
        pos = next;
    }
    found
}

/// Whether line `i` of the first `cut` bytes of `b` lies in them as a
/// whole: another line starts behind it, or the bytes end with its line
/// feed, or they are all of `b`.
pub open spec fn is_whole_line(b: Seq<u8>, cut: int, i: int) -> bool {
    &&& 0 <= cut <= b.len()
    &&& 0 <= i < lines(b.take(cut)).len()
    &&& (i + 1 < lines(b.take(cut)).len() || cut == b.len() || (cut > 0 && b[cut - 1]
        == LINE_FEED))
}

/// The lines of a prefix of `b` are lines of `b`: each of them that lies
/// in the prefix as a whole. Only the last can fail to, where the cut falls
/// into a line.
pub proof fn lemma_lines_of_prefix(b: Seq<u8>, cut: int, i: int)
    requires
        is_whole_line(b, cut, i),
    ensures
        i < lines(b).len(),
        lines(b.take(cut))[i] == lines(b)[i],
{
    if cut == b.len() {
        assert(b.take(cut) =~= b);
    } else {
        lemma_lines_from_prefix(b, cut, 0, i);
    }
}

proof fn lemma_lines_from_prefix(b: Seq<u8>, cut: int, from: int, i: int)
    requires
        0 <= cut <= b.len(),
        0 <= from,
        0 <= i < lines_from(b.take(cut), from).len(),
        i + 1 < lines_from(b.take(cut), from).len() || (cut > 0 && b[cut - 1] == LINE_FEED),
    ensures
        i < lines_from(b, from).len(),
        lines_from(b.take(cut), from)[i] == lines_from(b, from)[i],
    decreases b.len() - from,
{
    let p = b.take(cut);
    assert(from < cut);
    lemma_line_end_bounds(p, from);
    let end = line_end(p, from);
    // the line ends in a line feed within the prefix: behind it stands
    // another line, or the prefix ends with a line feed
    if end >= cut {
        assert(lines_from(p, from).len() == 1);
        assert(p[cut - 1] == b[cut - 1]);
    }
    assert(end < cut);
    assert(p[end] == LINE_FEED);
    assert forall|k: int| from <= k < end implies b[k] != LINE_FEED by {
        assert(p[k] == b[k]);
    }
    assert(b[end] == p[end]);
    lemma_line_end_is(b, from, end);
    assert(p.subrange(from, end) == b.subrange(from, end));
    assert(line_at(p, from) == line_at(b, from));
    if i > 0 {
        lemma_lines_from_prefix(b, cut, end + 1, i - 1);
    }
}

} // verus!
