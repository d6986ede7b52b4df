//! How a message is found in the buffer that a connection was read into.
//!
//! A sender writes a deflate stream and nothing else. The receiver reads
//! into a buffer of zeros, so the stream ends where the zeros begin; but a
//! deflate stream may hold zeros itself, so the end is found by trying.

use vstd::prelude::*;
use vstd::slice::slice_subrange;
use crate::deflate::inflated;

verus! {

/// Whether three zero bytes stand at `i`.
pub open spec fn zero_run_at(buf: Seq<u8>, i: int) -> bool {
    &&& 0 <= i
    &&& i + 3 <= buf.len()
    &&& buf[i] == 0
    &&& buf[i + 1] == 0
    &&& buf[i + 2] == 0
}

/// Whether the first run of three zero bytes stands at `i`.
pub open spec fn is_first_zero_run(buf: Seq<u8>, i: int) -> bool {
    &&& zero_run_at(buf, i)
    &&& forall|j: int| 0 <= j < i ==> !zero_run_at(buf, j)
}

/// Where the first run of three zero bytes stands, if there is one.
pub open spec fn first_zero_run(buf: Seq<u8>) -> Option<int> {
    if exists|i: int| is_first_zero_run(buf, i) {
        Some(choose|i: int| is_first_zero_run(buf, i))
    } else {
        None
    }
}

/// The first run of zeros is the only first run of zeros.
pub proof fn lemma_first_zero_run_unique(buf: Seq<u8>, i: int)
    requires
        is_first_zero_run(buf, i),
    ensures
        first_zero_run(buf) == Some(i),
{
    let c = choose|k: int| is_first_zero_run(buf, k);
    if c < i {
        assert(!zero_run_at(buf, c));
    }
    if i < c {
        assert(!zero_run_at(buf, i));
    }
}

/// Finds the first run of three zero bytes.
pub fn find_zero_run(buf: &[u8]) -> (found: Option<usize>)
    ensures
        match found {
            Some(i) => first_zero_run(buf@) == Some(i as int),
            None => first_zero_run(buf@) is None,
        },
{
    if buf.len() < 3 {
        assert forall|k: int| !is_first_zero_run(buf@, k) by {}
        return None;
    }
    let mut i: usize = 0;
    while i <= buf.len() - 3
        invariant
            buf.len() >= 3,
            forall|j: int| 0 <= j < i ==> !zero_run_at(buf@, j),
        decreases buf.len() - i,
    {
        if buf[i] == 0 && buf[i + 1] == 0 && buf[i + 2] == 0 {
            proof {
                lemma_first_zero_run_unique(buf@, i as int);
            }
            return Some(i);
        }
        i += 1;
    }
    None
}

/// Cuts `buf` off `trail` bytes after the start of its first run of three
/// zero bytes. The buffer must hold such a run, and the cut must lie inside
/// the buffer.
pub fn strip_trailing<'a>(buf: &'a [u8], trail: usize) -> (stripped: &'a [u8])
    requires
        first_zero_run(buf@) is Some,
        first_zero_run(buf@)->0 + trail <= buf@.len(),
    ensures
        stripped@ == buf@.subrange(0, first_zero_run(buf@)->0 + trail),
{
    let len = buf.len();
    match find_zero_run(buf) {
        Some(i) => {
            slice_subrange(buf, 0, i + trail)
        },
        None => buf,
    }
}

/// Whether `cut` is the first place at or after `start` where the buffer,
/// cut off there, inflates.
pub open spec fn is_first_cut(buf: Seq<u8>, start: int, cut: int) -> bool {
    &&& start <= cut <= buf.len()
    &&& inflated(buf.subrange(0, cut)) is Some
    &&& forall|c: int| start <= c < cut ==> inflated(#[trigger] buf.subrange(0, c)) is None
}

/// The message that a read buffer frames. The buffer is cut at its first run
/// of three zero bytes; since a deflate stream may hold such bytes itself,
/// the cut moves on by one byte at a time until what stands before it
/// inflates. `None` where the buffer has no such run, or no cut inflates.
pub open spec fn framed(buf: Seq<u8>) -> Option<Seq<u8>> {
    match first_zero_run(buf) {
        Some(start) => {
            if exists|cut: int| is_first_cut(buf, start, cut) {
                inflated(buf.subrange(0, choose|cut: int| is_first_cut(buf, start, cut)))
            } else {
                None
            }
        },
        None => None,
    }
}

/// The first cut is the only first cut.
pub proof fn lemma_first_cut_unique(buf: Seq<u8>, start: int, cut: int)
    requires
        first_zero_run(buf) == Some(start),
        is_first_cut(buf, start, cut),
    ensures
        framed(buf) == inflated(buf.subrange(0, cut)),
{
    let c = choose|k: int| is_first_cut(buf, start, k);
    if c < cut {
        assert(inflated(buf.subrange(0, c)) is None);
    }
    if cut < c {
        assert(inflated(buf.subrange(0, cut)) is None);
    }
}

/// A stream that is followed by at least three zero bytes is read back from
/// the buffer, provided that `miniz_oxide` inflates the stream to `message`
/// and inflates nothing shorter that the buffer starts with.
pub proof fn lemma_framed_stream(buf: Seq<u8>, stream: Seq<u8>, message: Seq<u8>)
    requires
        stream.len() + 3 <= buf.len(),
        buf.subrange(0, stream.len() as int) == stream,
        zero_run_at(buf, stream.len() as int),
        inflated(stream) == Some(message),
        forall|c: int| 0 <= c < stream.len() ==> inflated(#[trigger] buf.subrange(0, c)) is None,
    ensures
        framed(buf) == Some(message),
{
    let n = stream.len() as int;
    assert(zero_run_at(buf, n));
    let start = choose_first_zero_run(buf, n);
    lemma_first_zero_run_unique(buf, start);
    assert(is_first_cut(buf, start, n));
    lemma_first_cut_unique(buf, start, n);
}

proof fn choose_first_zero_run(buf: Seq<u8>, bound: int) -> (i: int)
    requires
        zero_run_at(buf, bound),
    ensures
        is_first_zero_run(buf, i),
        i <= bound,
    decreases bound,
{
    if exists|j: int| 0 <= j < bound && zero_run_at(buf, j) {
        let j = choose|j: int| 0 <= j < bound && zero_run_at(buf, j);
        choose_first_zero_run(buf, j)
    } else {
        bound
    }
}

} // verus!
