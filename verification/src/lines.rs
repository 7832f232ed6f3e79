//! Line framing: how the bytes of one captured stream fall into lines.
//!
//! A stream arrives in chunks of any size. A line ends at a line feed; the
//! line feed, and a carriage return right before it, are not part of the
//! line. What is left when the stream closes is one last line, unless it is
//! empty.

use vstd::prelude::*;

verus! {

/// The byte that ends a line.
pub const LINE_FEED: u8 = 10;

/// The byte that may precede a line feed and is dropped with it.
pub const CARRIAGE_RETURN: u8 = 13;

/// The position of the first line feed in `s`, or the length of `s` where it
/// holds none.
pub open spec fn first_newline(s: Seq<u8>) -> int
    decreases s.len(),
{
    if s.len() == 0 || s[0] == LINE_FEED {
        0
    } else {
        1 + first_newline(s.skip(1))
    }
}

/// Whether no byte of `s` is a line feed.
pub open spec fn no_newline(s: Seq<u8>) -> bool {
    forall|i: int| 0 <= i < s.len() ==> s[i] != LINE_FEED
}

/// A line without the carriage return that it may end with.
pub open spec fn strip_cr(line: Seq<u8>) -> Seq<u8> {
    if line.len() > 0 && line.last() == CARRIAGE_RETURN {
        line.drop_last()
    } else {
        line
    }
}

/// The lines of `s` that a line feed has ended, in their order.
pub open spec fn complete_lines(s: Seq<u8>) -> Seq<Seq<u8>>
    decreases s.len(),
{
    let i = first_newline(s);
    if 0 <= i < s.len() {
        seq![strip_cr(s.subrange(0, i))] + complete_lines(s.skip(i + 1))
    } else {
        Seq::empty()
    }
}

/// What follows the last line feed of `s`: the line that is still open.
pub open spec fn remainder(s: Seq<u8>) -> Seq<u8>
    decreases s.len(),
{
    let i = first_newline(s);
    if 0 <= i < s.len() {
        remainder(s.skip(i + 1))
    } else {
        s
    }
}

/// The last line of a closed stream: what is still open, if it holds a byte.
pub open spec fn final_line(s: Seq<u8>) -> Option<Seq<u8>> {
    if remainder(s).len() > 0 {
        Some(remainder(s))
    } else {
        None
    }
}

/// All lines of a stream that has closed with the bytes `s`.
pub open spec fn all_lines(s: Seq<u8>) -> Seq<Seq<u8>> {
    match final_line(s) {
        Some(last) => complete_lines(s).push(last),
        None => complete_lines(s),
    }
}

/// `first_newline` is the least position of a line feed.
pub proof fn lemma_first_newline(s: Seq<u8>)
    ensures
        0 <= first_newline(s) <= s.len(),
        no_newline(s.subrange(0, first_newline(s))),
        first_newline(s) < s.len() ==> s[first_newline(s)] == LINE_FEED,
        no_newline(s) <==> first_newline(s) == s.len(),
    decreases s.len(),
{
    if s.len() > 0 && s[0] != LINE_FEED {
        let t = s.skip(1);
        lemma_first_newline(t);
        let i = first_newline(s);
        assert forall|j: int| 0 <= j < i implies s.subrange(0, i)[j] != LINE_FEED by {
            if j > 0 {
                assert(t.subrange(0, i - 1)[j - 1] == s[j]);
            }
        }
        if first_newline(t) == t.len() {
            assert(s.subrange(0, i) == s);
        }
        if no_newline(s) {
            assert(no_newline(t));
        }
    }
}

/// A line feed at `i` with none before it is the first one.
pub proof fn lemma_first_newline_at(s: Seq<u8>, i: int)
    requires
        0 <= i < s.len(),
        s[i] == LINE_FEED,
        no_newline(s.subrange(0, i)),
    ensures
        first_newline(s) == i,
{
    lemma_first_newline(s);
    let f = first_newline(s);
    if f < i {
        assert(s.subrange(0, i)[f] == s[f]);
    } else if f > i {
        assert(s.subrange(0, f)[i] == s[i]);
    }
}

/// Bytes without a line feed hold no complete line and are all still open.
pub proof fn lemma_open_line(s: Seq<u8>)
    requires
        no_newline(s),
    ensures
        complete_lines(s) == Seq::<Seq<u8>>::empty(),
        remainder(s) == s,
{
    lemma_first_newline(s);
}

/// What is still open never holds a line feed.
pub proof fn lemma_remainder_is_open(s: Seq<u8>)
    ensures
        no_newline(remainder(s)),
    decreases s.len(),
{
    lemma_first_newline(s);
    let i = first_newline(s);
    if 0 <= i < s.len() {
        lemma_remainder_is_open(s.skip(i + 1));
    }
}

/// Framing does not depend on where a stream is cut: the complete lines of
/// `a` followed by `b` are those of `a`, then those of `b` joined to what `a`
/// left open; and the same bytes are left open either way.
pub proof fn lemma_lines_of_concat(a: Seq<u8>, b: Seq<u8>)
    ensures
        complete_lines(a + b) == complete_lines(a) + complete_lines(remainder(a) + b),
        remainder(a + b) == remainder(remainder(a) + b),
    decreases a.len(),
{
    lemma_first_newline(a);
    let i = first_newline(a);
    if 0 <= i < a.len() {
        let ab = a + b;
        assert(ab.subrange(0, i) == a.subrange(0, i));
        lemma_first_newline_at(ab, i);
        assert(ab.skip(i + 1) == a.skip(i + 1) + b);
        lemma_lines_of_concat(a.skip(i + 1), b);
    }
}

/// A line feed after bytes that hold none ends exactly one line.
pub proof fn lemma_line_feed_closes(open: Seq<u8>)
    requires
        no_newline(open),
    ensures
        complete_lines(open.push(LINE_FEED)) == seq![strip_cr(open)],
        remainder(open.push(LINE_FEED)) == Seq::<u8>::empty(),
{
    let s = open.push(LINE_FEED);
    let i = open.len() as int;
    assert(s.subrange(0, i) == open);
    lemma_first_newline_at(s, i);
    assert(complete_lines(s.skip(i + 1)) == Seq::<Seq<u8>>::empty());
    assert(remainder(s.skip(i + 1)) == Seq::<u8>::empty());
}

/// The bytes of a run of chunks, joined in their order.
pub open spec fn joined(chunks: Seq<Seq<u8>>) -> Seq<u8>
    decreases chunks.len(),
{
    if chunks.len() == 0 {
        Seq::empty()
    } else {
        joined(chunks.drop_last()) + chunks.last()
    }
}

/// What is still open after the chunks were taken one after the other, each
/// joined to what the chunks before it left open.
pub open spec fn open_after(chunks: Seq<Seq<u8>>) -> Seq<u8>
    decreases chunks.len(),
{
    if chunks.len() == 0 {
        Seq::empty()
    } else {
        remainder(open_after(chunks.drop_last()) + chunks.last())
    }
}

/// The lines handed out while the chunks were taken one after the other.
pub open spec fn lines_after(chunks: Seq<Seq<u8>>) -> Seq<Seq<u8>>
    decreases chunks.len(),
{
    if chunks.len() == 0 {
        Seq::empty()
    } else {
        lines_after(chunks.drop_last()) + complete_lines(
            open_after(chunks.drop_last()) + chunks.last(),
        )
    }
}

/// What is left open stays as it is when it is framed again.
pub proof fn lemma_remainder_is_final(s: Seq<u8>)
    ensures
        remainder(remainder(s)) == remainder(s),
        final_line(remainder(s)) == final_line(s),
{
    lemma_remainder_is_open(s);
    lemma_open_line(remainder(s));
}

/// However a stream is cut into chunks, taking the chunks one by one hands
/// out the complete lines of the whole stream, in their order, and leaves
/// open what the whole stream leaves open. So the lines handed out and the
/// last line at the end of data are together all lines of the stream.
pub proof fn lemma_chunks_give_the_lines_of_the_stream(chunks: Seq<Seq<u8>>)
    ensures
        lines_after(chunks) == complete_lines(joined(chunks)),
        open_after(chunks) == remainder(joined(chunks)),
        all_lines(joined(chunks)) == (match final_line(open_after(chunks)) {
            Some(last) => lines_after(chunks).push(last),
            None => lines_after(chunks),
        }),
    decreases chunks.len(),
{
    if chunks.len() > 0 {
        lemma_chunks_give_the_lines_of_the_stream(chunks.drop_last());
        lemma_lines_of_concat(joined(chunks.drop_last()), chunks.last());
    }
    lemma_remainder_is_final(joined(chunks));
}

} // verus!
